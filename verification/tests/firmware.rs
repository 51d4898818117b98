use cdj3k_emu::emmc::{
    assemble_env_block, build_convert_args, build_env_data, convert_tool, default_path,
    partition_layout, sectors, uboot_env_block, EmmcConfig, FirmwareInfo, EMMC_SIZE, SECTOR,
    UBOOT_ENV_SIZE,
};
use cdj3k_emu::file_list::sorted_listing;
use cdj3k_emu::initramfs::{
    consider, decompress_lz4_legacy, extract_initramfs, find_lz4_block, fix_cpio_ownership,
    is_merged_dispatcher, is_module, open_archive, pack_archive, parse_hex8, repack_succeeded, required_resources, scan_offsets,
    tool_destination, unpack_succeeded, validate_patch_resources, PatchError,
};
use cdj3k_emu::patch_plan::{
    after_failure, listing_failed, no_initramfs, packer_missing, patch_initramfs, repack_failed,
    script_failed, unpack_failed, unpacker_missing, PatchJob, PatchStep,
};
use std::io::Write;

fn gzip(data: &[u8]) -> Vec<u8> {
    let mut encoder = flate2::write::GzEncoder::new(Vec::new(), flate2::Compression::fast());
    encoder.write_all(data).unwrap();
    encoder.finish().unwrap()
}

fn lz4_stream(blocks: &[&[u8]]) -> Vec<u8> {
    let mut out = vec![0x02, 0x21, 0x4c, 0x18];
    for block in blocks {
        let packed = lz4_flex::block::compress(block);
        out.extend_from_slice(&(packed.len() as u32).to_le_bytes());
        out.extend_from_slice(&packed);
    }
    out
}

fn cpio_entry(uid: &str, name: &[u8], data: &[u8]) -> Vec<u8> {
    let mut e = b"070701".to_vec();
    e.extend_from_slice(b"00000001000081a4");
    e.extend_from_slice(uid.as_bytes());
    e.extend_from_slice(uid.as_bytes());
    e.extend_from_slice(b"0000000100000000");
    e.extend_from_slice(format!("{:08x}", data.len()).as_bytes());
    e.extend_from_slice(b"00000000000000000000000000000000");
    e.extend_from_slice(format!("{:08x}", name.len()).as_bytes());
    e.extend_from_slice(b"00000000");
    e.extend_from_slice(name);
    while e.len() % 4 != 0 {
        e.push(0);
    }
    e.extend_from_slice(data);
    while e.len() % 4 != 0 {
        e.push(0);
    }
    e
}

#[test]
fn canonical_resource_tree_passes_and_legacy_flat_tree_fails() {
    let mut files: Vec<String> = [
        "subucom_virt.ko",
        "virtio_snd.ko",
        "udev_usb1.ko",
        "ep122_shim.so",
        "subucom_forwarder",
        "subucom_live",
        "cfgd",
        "patch-rootfs.sh",
        "dummy_drv.so",
    ]
    .iter()
    .map(|n| n.to_string())
    .collect();
    let mut dirs: Vec<String> = Vec::new();
    assert!(matches!(
        validate_patch_resources("/res", &files, &dirs, false),
        Err(PatchError::MissingResource(_))
    ));

    for name in ["subucom_virt.ko", "virtio_snd.ko", "udev_usb1.ko"] {
        files.push(format!("modules/{name}"));
        files.push(format!("patch/vanilla-modules/{name}"));
    }
    for name in ["ep122_shim.so", "subucom_forwarder", "subucom_live", "cfgd"] {
        files.push(format!("tools/{name}"));
    }
    for name in ["patch-rootfs.sh", "dummy_drv.so"] {
        files.push(format!("patch/{name}"));
    }
    assert!(matches!(
        validate_patch_resources("/res", &files, &dirs, false),
        Err(PatchError::MissingResource(path)) if path.ends_with("patch/patch-rootfs.d")
    ));

    dirs.push("patch/patch-rootfs.d".to_string());
    validate_patch_resources("/res", &files, &dirs, false).unwrap();
}

#[test]
fn a_merged_dispatcher_needs_no_directory_of_steps() {
    let files = required_resources();
    let no_dirs: Vec<String> = Vec::new();
    let dirs = vec!["patch/patch-rootfs.d".to_string()];
    validate_patch_resources("/res", &files, &no_dirs, true).unwrap();
    assert!(matches!(
        validate_patch_resources("/res", &files, &dirs, true),
        Err(PatchError::MissingResource(path)) if path == "/res/patch/patch-rootfs.d"
    ));
    assert!(matches!(
        validate_patch_resources("/res", &files[1..].to_vec(), &no_dirs, true),
        Err(PatchError::MissingResource(path)) if path == "/res/modules/subucom_virt.ko"
    ));
}

#[test]
fn a_merged_dispatcher_has_all_its_markers() {
    let steps: Vec<String> = (1..=18).map(|n| format!("# step {n:02}")).collect();
    let script = format!("# generated\n{}\n# end\n", steps.join("\n"));
    assert!(is_merged_dispatcher(&script, "# generated", &steps, "# end"));
    assert!(!is_merged_dispatcher(&script, "# made by hand", &steps, "# end"));
    let cut = script.replace("# end", "");
    assert!(!is_merged_dispatcher(&cut, "# generated", &steps, "# end"));
    let lacking = script.replace("# step 07\n", "");
    assert!(!is_merged_dispatcher(&lacking, "# generated", &steps, "# end"));
    let few = steps[..17].to_vec();
    assert!(!is_merged_dispatcher(&script, "# generated", &few, "# end"));
}

#[test]
fn patch_errors_name_their_kind() {
    assert_eq!(PatchError::Io("a".into()).message(), "I/O: a");
    assert_eq!(PatchError::Extract("b".into()).message(), "extract: b");
    assert_eq!(
        PatchError::MissingResource("c".into()).message(),
        "missing bundled resource: c"
    );
    assert_eq!(
        PatchError::CommandFailed("d".into()).message(),
        "command failed: d"
    );
}

#[test]
fn the_largest_embedded_archive_is_extracted() {
    let small = cpio_entry("00000000", b"a\0", b"1");
    let large = cpio_entry("00000000", b"a\0", b"123456789");
    let mut kernel = vec![7u8; 10];
    kernel.extend_from_slice(&gzip(&large));
    kernel.extend_from_slice(&lz4_stream(&[&small]));
    kernel.extend_from_slice(&gzip(&[9u8; 500]));
    assert_eq!(extract_initramfs(&kernel), Some(large.clone()));
    let mut other = vec![7u8; 3];
    other.extend_from_slice(&gzip(&small));
    other.extend_from_slice(&lz4_stream(&[&large[..60], &large[60..]]));
    assert_eq!(extract_initramfs(&other), Some(large));
    assert_eq!(extract_initramfs(&[0x1f, 0x8b, 8, 0]), None);
    assert_eq!(extract_initramfs(&[]), None);
}

#[test]
fn candidates_are_compared_by_length() {
    let a = cpio_entry("00000000", b"a\0", b"1");
    let b = cpio_entry("00000000", b"a\0", b"12345");
    assert_eq!(consider(None, Some(vec![1, 2, 3])), None);
    assert_eq!(consider(Some(a.clone()), Some(b.clone())), Some(b.clone()));
    assert_eq!(consider(Some(b.clone()), Some(a)), Some(b.clone()));
    assert_eq!(consider(Some(b.clone()), None), Some(b));
}

#[test]
fn legacy_streams_end_at_the_first_bad_block() {
    let good = lz4_stream(&[b"hello hello hello", b" world"]);
    assert_eq!(
        decompress_lz4_legacy(&good).unwrap(),
        b"hello hello hello world"
    );
    let mut cut = good.clone();
    cut.extend_from_slice(&[200, 0, 0, 0, 1]);
    assert_eq!(
        decompress_lz4_legacy(&cut).unwrap(),
        b"hello hello hello world"
    );
    assert!(decompress_lz4_legacy(&good[1..]).is_none());
    assert!(decompress_lz4_legacy(&[0x02, 0x21, 0x4c, 0x18]).is_none());
    assert_eq!(find_lz4_block(&[1, 0, 0, 0, 9], 0), Some((4, 5)));
    assert_eq!(find_lz4_block(&[0, 0, 0, 0, 9], 0), None);
    assert_eq!(find_lz4_block(&[2, 0, 0, 0, 9], 0), None);
    assert_eq!(scan_offsets(&[1, 2, 1, 2], &[1, 2]), [0, 2]);
}

#[test]
fn packed_archives_belong_to_root_and_open_again() {
    let mut raw = cpio_entry("000001f5", b"bin\0", b"abc");
    raw.extend_from_slice(&cpio_entry("000003e8", b"TRAILER!!!\0", b""));
    let mut owned = cpio_entry("00000000", b"bin\0", b"abc");
    owned.extend_from_slice(&cpio_entry("00000000", b"TRAILER!!!\0", b""));
    let mut fixed = raw.clone();
    fix_cpio_ownership(&mut fixed);
    assert_eq!(fixed, owned);
    let packed = pack_archive(raw).unwrap();
    assert_ne!(packed, owned);
    assert_eq!(open_archive(packed).unwrap(), owned);
    assert_eq!(open_archive(owned.clone()).unwrap(), owned);
    assert_eq!(open_archive(vec![1, 2, 3]), None);
    let mut again = owned.clone();
    fix_cpio_ownership(&mut again);
    assert_eq!(again, owned);
}

#[test]
fn header_fields_are_hexadecimal() {
    assert_eq!(parse_hex8(b"0000001F"), 31);
    assert_eq!(parse_hex8(b"ffffffff"), 0xffff_ffff);
    assert_eq!(parse_hex8(b"0000 01f"), 0);
}

#[test]
fn resources_go_to_their_places() {
    assert!(is_module("virtio_snd.ko"));
    assert!(!is_module("virtio_snd.ko.bak"));
    assert!(!is_module(".ko"));
    assert_eq!(tool_destination("ep122_shim.so"), "home/root/ep122_shim.so");
    assert_eq!(tool_destination("cfgd"), "usr/bin/cfgd");
    assert!(unpack_succeeded(Some(1)));
    assert!(!unpack_succeeded(Some(2)));
    assert!(!unpack_succeeded(None));
    assert!(repack_succeeded(None));
    assert!(!repack_succeeded(Some(2)));
}

#[test]
fn listings_are_sorted() {
    assert_eq!(
        sorted_listing(b"./b\n.\n./a/c\n./a\n".to_vec()),
        ".\n./a\n./a/c\n./b"
    );
    assert_eq!(sorted_listing(vec![0xff, 0xfe]), "");
    assert_eq!(sorted_listing(Vec::new()), "");
}

#[test]
fn patching_follows_its_plan() {
    let job = PatchJob {
        initramfs: "/d/orig.cpio".into(),
        resources: "/res".into(),
        work_dir: "/tmp/w".into(),
        out: "/d/out.gz".into(),
        out_dir: Some("/d".into()),
    };
    let modules = vec!["a.ko".to_string(), "README".to_string()];
    let tools = vec!["cfgd".to_string(), "ep122_shim.so".to_string()];
    let steps = patch_initramfs(&job, &modules, &tools);
    assert_eq!(steps.len(), 13);
    assert!(matches!(&steps[0], PatchStep::CreateDir { path } if path == "/tmp/w/rootfs"));
    assert!(matches!(
        &steps[3],
        PatchStep::Copy { from, to }
            if from == "/res/modules/a.ko" && to == "/tmp/w/rootfs/lib/modules/a.ko"
    ));
    assert!(matches!(
        &steps[7],
        PatchStep::Install { from, to }
            if from == "/res/tools/ep122_shim.so" && to == "/tmp/w/rootfs/home/root/ep122_shim.so"
    ));
    assert!(matches!(
        &steps[8],
        PatchStep::RunScript { script, root, assets, tools }
            if script == "/res/patch/patch-rootfs.sh" && root == "/tmp/w/rootfs"
                && assets == "/res/patch" && tools == "/res/tools"
    ));
    assert!(matches!(&steps[10], PatchStep::CreateDir { path } if path == "/d"));
    assert!(matches!(
        &steps[11],
        PatchStep::Compress { from, to }
            if from == "/tmp/w/initramfs-patched.cpio" && to == "/d/out.gz"
    ));
    assert!(matches!(&steps[12], PatchStep::RemoveTree { path } if path == "/tmp/w"));
    assert_eq!(
        script_failed("exit status: 3").message(),
        "command failed: patch-rootfs.sh exited with exit status: 3"
    );
    assert_eq!(
        unpack_failed("exit status: 2").message(),
        "command failed: cpio -id exited with exit status: 2"
    );
}

#[test]
fn failed_patching_removes_the_work_directory() {
    let job = PatchJob {
        initramfs: "/d/orig.cpio".into(),
        resources: "/res".into(),
        work_dir: "/tmp/w".into(),
        out: "/d/out.gz".into(),
        out_dir: None,
    };
    let steps = after_failure(&job);
    assert_eq!(steps.len(), 1);
    assert!(matches!(&steps[0], PatchStep::RemoveTree { path } if path == "/tmp/w"));
}

#[test]
fn archiver_failures_name_their_cause() {
    assert_eq!(
        unpacker_missing("not found").message(),
        "command failed: cpio: not found"
    );
    assert_eq!(listing_failed().message(), "command failed: find failed");
    assert_eq!(
        packer_missing("not found").message(),
        "command failed: cpio -o: not found"
    );
    assert_eq!(
        repack_failed("exit status: 2").message(),
        "command failed: cpio -o exited with exit status: 2"
    );
    assert_eq!(
        no_initramfs("/d/Image"),
        "no embedded CPIO initramfs (gzip or LZ4 legacy) found in /d/Image"
    );
}

#[test]
fn partitions_follow_the_layout() {
    let list = partition_layout(33);
    let shape: Vec<(u64, u64, &str)> = list
        .iter()
        .map(|p| (p.first, p.last, p.name.as_str()))
        .collect();
    assert_eq!(
        shape,
        [
            (2048, 10239, "bootloader"),
            (10240, 18431, "trustfirmware"),
            (18432, 26623, "resource"),
            (26624, 288767, "recovery"),
            (288768, 813055, "firmware-a"),
            (813056, 1337343, "firmware-b"),
            (1337344, 1468415, "settings"),
            (1468416, EMMC_SIZE / SECTOR - 34, "userdata"),
        ]
    );
    assert_eq!(EMMC_SIZE, 29 * 1024 * 1024 * 1024 + 100 * 1024 * 1024);
    assert_eq!(sectors(1), 1);
    assert_eq!(sectors(512), 1);
    assert_eq!(sectors(513), 2);
}

#[test]
fn the_boot_environment_carries_its_checksum() {
    let fw = FirmwareInfo {
        miniloader: None,
        release: Some("3.19".into()),
        rev_apl: None,
        rev_kernel: Some("k7".into()),
    };
    let env = build_env_data(7, &fw);
    let words: Vec<&[u8]> = env.split(|b| *b == 0).collect();
    assert_eq!(words[0], b"arch=arm");
    assert!(words.contains(&b"serial_number=DJMP000007EH".as_slice()));
    assert!(words.contains(&b"release=3.19".as_slice()));
    assert!(words.contains(&b"rev_apl=".as_slice()));
    assert!(words.contains(&b"rev_kernel=k7".as_slice()));
    assert!(words.contains(&b"bootcmd_emmc=setenv bootargs ${bootargs_emmc};load mmc ${part} ${kernel_addr_r} /${image};run booti_cmd".as_slice()));
    assert_eq!(words[28], b"vendor=rockchip");
    assert!(env.ends_with(&[0, 0]));
    let block = uboot_env_block(env.clone());
    assert_eq!(block.len(), UBOOT_ENV_SIZE);
    assert_eq!(&block[4..4 + env.len()], &env[..]);
    assert!(block[4 + env.len()..].iter().all(|b| *b == 0));
    let sum = crc::Crc::<u32>::new(&crc::CRC_32_ISO_HDLC).checksum(&block[4..]);
    assert_eq!(&block[..4], &sum.to_le_bytes());
    assert_eq!(
        assemble_env_block(0x0403_0201, vec![5]),
        [1, 2, 3, 4, 5]
    );
}

#[test]
fn serial_numbers_grow_beyond_six_digits() {
    let env = build_env_data(1_234_567, &FirmwareInfo::default());
    let words: Vec<&[u8]> = env.split(|b| *b == 0).collect();
    assert!(words.contains(&b"serial_number=DJMP1234567EH".as_slice()));
}

#[test]
fn images_are_converted_with_the_configured_tool() {
    assert_eq!(default_path("/data", 3), "/data/instance-3/emmc.qcow2");
    let mut config = EmmcConfig::new(default_path("/data", 3), 3);
    assert_eq!(config.instance_id, 3);
    assert!(config.firmware.release.is_none());
    assert_eq!(convert_tool(&config, "/app/qemu-img"), "/app/qemu-img");
    config.qemu_img = Some("/opt/qemu-img".into());
    assert_eq!(convert_tool(&config, "/app/qemu-img"), "/opt/qemu-img");
    assert_eq!(
        build_convert_args("/d/emmc.raw.tmp", "/d/emmc.qcow2"),
        [
            "convert",
            "-f",
            "raw",
            "-O",
            "qcow2",
            "-o",
            "preallocation=off",
            "/d/emmc.raw.tmp",
            "/d/emmc.qcow2"
        ]
    );
}
