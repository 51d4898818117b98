//! The eMMC image: its partitions and its boot environment.
//!
//! Partition layout:
//!   p1  4 MB  raw     Bootloader (LOADER) - zeroed placeholder; the boot
//!                     environment stands at offset 0x3f8000
//!   p2  4 MB  raw     TrustFirmware (BL3X) - zeroed placeholder
//!   p3  4 MB  raw     Rockchip resource (RSCE) - zeroed placeholder
//!   p4  128 MB  raw   Recovery firmware slot - zeroed
//!   p5  256 MB  raw   App firmware slot A - zeroed
//!   p6  256 MB  raw   App firmware slot B - zeroed
//!   p7  64 MB  ext4   Settings (/home/root/settings)
//!   p8  ~28.4 GB ext4 User data / rekordbox cache (/mnt)
//!
//! p7 and p8 are left unformatted; the guest formats them on first boot.

use vstd::prelude::*;

use crate::text;
use crate::text::{cat2, cat3, decimal_padded_text, decimal_text, join_path, push_text};

verus! {

pub const MB: u64 = 1_048_576;

pub const SECTOR: u64 = 512;

/// Total virtual disk size: 29.1 GB.
pub const EMMC_SIZE: u64 = 31_243_370_496;

/// Where the boot environment stands.
pub const UBOOT_ENV_OFFSET: u64 = 0x003f_8000;

/// The size of the boot environment, its checksum included.
pub const UBOOT_ENV_SIZE: usize = 0x8000;

/// Partitions begin at multiples of this many sectors.
pub const ALIGN: u64 = 2048;

/// Version metadata of a firmware.
#[derive(Clone, Debug)]
pub struct FirmwareInfo {
    pub miniloader: Option<String>,
    pub release: Option<String>,
    pub rev_apl: Option<String>,
    pub rev_kernel: Option<String>,
}

impl Default for FirmwareInfo {
    fn default() -> (r: Self)
        ensures
            r == (FirmwareInfo {
                miniloader: None,
                release: None,
                rev_apl: None,
                rev_kernel: None,
            }),
    {
        FirmwareInfo { miniloader: None, release: None, rev_apl: None, rev_kernel: None }
    }
}

/// Configuration for eMMC image creation.
#[derive(Clone, Debug)]
pub struct EmmcConfig {
    /// Output path for the qcow2 image.
    pub path: String,
    /// Instance ID - used to derive the serial number.
    pub instance_id: u32,
    /// Version metadata from the firmware.
    pub firmware: FirmwareInfo,
    /// Optional explicit qemu-img binary. `None` uses the bundled tool.
    pub qemu_img: Option<String>,
}

impl EmmcConfig {
    /// A configuration without firmware metadata and with the bundled tool.
    pub fn new(path: String, instance_id: u32) -> (r: Self)
        ensures
            r == (EmmcConfig {
                path,
                instance_id,
                firmware: FirmwareInfo {
                    miniloader: None,
                    release: None,
                    rev_apl: None,
                    rev_kernel: None,
                },
                qemu_img: None,
            }),
    {
        EmmcConfig { path, instance_id, firmware: FirmwareInfo::default(), qemu_img: None }
    }
}

/// The image of an instance below the application's data directory:
/// `instance-N/emmc.qcow2`.
pub open spec fn image_path(app_data_dir: Seq<char>, instance_id: u32) -> Seq<char> {
    text::joined(
        text::joined(app_data_dir, "instance-"@ + text::decimal(instance_id as nat)),
        "emmc.qcow2"@,
    )
}

/// The default image of an instance.
pub fn default_path(app_data_dir: &str, instance_id: u32) -> (r: String)
    ensures
        r@ == image_path(app_data_dir@, instance_id),
{
    let dir = join_path(
        app_data_dir,
        cat2("instance-", decimal_text(instance_id as u128).as_str()).as_str(),
    );
    join_path(dir.as_str(), "emmc.qcow2")
}

/// How many sectors hold `bytes` bytes.
pub fn sectors(bytes: u64) -> (r: u64)
    requires
        bytes <= u64::MAX - SECTOR,
    ensures
        r == (bytes + SECTOR - 1) / SECTOR as int,
{
    (bytes + SECTOR - 1) / SECTOR
}

/// A partition, from its first to its last sector.
#[derive(Clone, Debug)]
pub struct Partition {
    pub first: u64,
    pub last: u64,
    pub name: String,
}

/// What a [`Partition`] holds.
pub struct PartitionView {
    pub first: u64,
    pub last: u64,
    pub name: Seq<char>,
}

impl View for Partition {
    type V = PartitionView;

    open spec fn view(&self) -> PartitionView {
        PartitionView { first: self.first, last: self.last, name: self.name@ }
    }
}

/// The partitions that a list holds.
pub open spec fn partition_views(list: Seq<Partition>) -> Seq<PartitionView> {
    list.map_values(|p: Partition| p@)
}

/// The sizes and names of the partitions of fixed size, in their order.
pub open spec fn fixed_partitions() -> Seq<(u64, Seq<char>)> {
    seq![
        ((4 * MB) as u64, "bootloader"@),
        ((4 * MB) as u64, "trustfirmware"@),
        ((4 * MB) as u64, "resource"@),
        ((128 * MB) as u64, "recovery"@),
        ((256 * MB) as u64, "firmware-a"@),
        ((256 * MB) as u64, "firmware-b"@),
        ((64 * MB) as u64, "settings"@),
    ]
}

/// The next multiple of the alignment.
pub open spec fn aligned(sector: int) -> int {
    (sector + ALIGN - 1) / (ALIGN as int) * ALIGN
}

/// Where the partition after the first `n` ones begins.
pub open spec fn partition_start(n: int) -> int
    decreases n,
{
    if n <= 0 {
        ALIGN as int
    } else {
        aligned(partition_start(n - 1) + (fixed_partitions()[n - 1].0 + SECTOR - 1) / SECTOR as int)
    }
}

/// The partitions of fixed size, each at the next aligned sector, and the user data on
/// the rest of the disk, up to the sectors that are reserved for the backup of the
/// partition table.
pub open spec fn partition_table(backup_reserved: u64) -> Seq<PartitionView> {
    Seq::new(
        7,
        |i: int|
            PartitionView {
                first: partition_start(i) as u64,
                last: (partition_start(i) + (fixed_partitions()[i].0 + SECTOR - 1) / SECTOR as int
                    - 1) as u64,
                name: fixed_partitions()[i].1,
            },
    ).push(
        PartitionView {
            first: partition_start(7) as u64,
            last: (EMMC_SIZE / SECTOR - backup_reserved - 1) as u64,
            name: "userdata"@,
        },
    )
}

proof fn lemma_partition_starts()
    ensures
        partition_start(0) == 2048,
        partition_start(1) == 10240,
        partition_start(2) == 18432,
        partition_start(3) == 26624,
        partition_start(4) == 288768,
        partition_start(5) == 813056,
        partition_start(6) == 1337344,
        partition_start(7) == 1468416,
{
    reveal_with_fuel(partition_start, 8);
}

/// Adds a partition of `size` bytes at `first`, and returns where the next one begins.
fn push_partition(list: &mut Vec<Partition>, first: u64, size: u64, name: &str) -> (r: u64)
    requires
        first <= 0x1_0000_0000,
        0 < size <= 0x1_0000_0000,
    ensures
        partition_views(final(list)@) == partition_views(old(list)@).push(
            PartitionView {
                first,
                last: (first + (size + SECTOR - 1) / SECTOR as int - 1) as u64,
                name: name@,
            },
        ),
        r == aligned(first + (size + SECTOR - 1) / SECTOR as int),
{
    let count: u64 = sectors(size);
    let last: u64 = first + count - 1;
    list.push(Partition { first, last, name: name.to_owned() });
    assert(partition_views(list@) =~= partition_views(old(list)@).push(
        PartitionView { first, last, name: name@ },
    ));
    (last + 1 + ALIGN - 1) / ALIGN * ALIGN
}

/// The partitions of the image.
pub fn partition_layout(backup_reserved: u64) -> (r: Vec<Partition>)
    requires
        backup_reserved < ALIGN,
    ensures
        partition_views(r@) == partition_table(backup_reserved),
{
    proof {
        lemma_partition_starts();
    }
    let mut list: Vec<Partition> = Vec::new();
    let p2: u64 = push_partition(&mut list, ALIGN, 4 * MB, "bootloader");
    let p3: u64 = push_partition(&mut list, p2, 4 * MB, "trustfirmware");
    let p4: u64 = push_partition(&mut list, p3, 4 * MB, "resource");
    let p5: u64 = push_partition(&mut list, p4, 128 * MB, "recovery");
    let p6: u64 = push_partition(&mut list, p5, 256 * MB, "firmware-a");
    let p7: u64 = push_partition(&mut list, p6, 256 * MB, "firmware-b");
    let p8: u64 = push_partition(&mut list, p7, 64 * MB, "settings");
    let last: u64 = EMMC_SIZE / SECTOR - backup_reserved - 1;
    let ghost before = list@;
    let userdata = Partition { first: p8, last, name: "userdata".to_owned() };
    let ghost tail = userdata@;
    list.push(userdata);
    proof {
        assert(partition_views(list@) =~= partition_views(before).push(tail));
        let table = partition_table(backup_reserved);
        assert(partition_views(before) =~= table.take(7));
        assert(tail == table[7]);
        assert(table =~= table.take(7).push(table[7]));
    }
    list
}

/// The partitions lie one behind the other without overlap, each begins at a multiple of
/// 1 MiB, the last one ends before what is reserved, and the first one holds the boot
/// environment.
pub proof fn partitions_are_disjoint_and_aligned(backup_reserved: u64, i: int)
    requires
        backup_reserved < ALIGN,
        0 <= i < 8,
    ensures
        partition_table(backup_reserved).len() == 8,
        partition_table(backup_reserved)[i].first % ALIGN == 0,
        partition_table(backup_reserved)[i].first <= partition_table(backup_reserved)[i].last,
        i < 7 ==> partition_table(backup_reserved)[i].last < partition_table(
            backup_reserved,
        )[i + 1].first,
        partition_table(backup_reserved)[7].last + backup_reserved < EMMC_SIZE / SECTOR,
        partition_table(backup_reserved)[0].first * SECTOR <= UBOOT_ENV_OFFSET,
        UBOOT_ENV_OFFSET + UBOOT_ENV_SIZE <= (partition_table(backup_reserved)[0].last + 1)
            * SECTOR,
{
    lemma_partition_starts();
}

/// The checksum of bytes: CRC-32 as in gzip and Ethernet.
pub uninterp spec fn crc32(data: Seq<u8>) -> u32;

/// `crc::Crc::<u32>::checksum` with the parameters `CRC_32_ISO_HDLC`: a function of the
/// bytes.
#[verifier::external_body]
fn crc32_checksum(data: &[u8]) -> (r: u32)
    ensures
        r == crc32(data@),
{
    crc::Crc::<u32>::new(&crc::CRC_32_ISO_HDLC).checksum(data)
}

/// The serial number of an instance.
pub open spec fn serial_number(instance_id: u32) -> Seq<char> {
    "DJMP"@ + text::decimal_padded(instance_id as nat, 6) + "EH"@
}

/// The text, or the empty text where there is none.
pub open spec fn or_empty(t: Option<String>) -> Seq<char> {
    match t {
        Some(s) => s@,
        None => Seq::empty(),
    }
}

/// The variables of the boot procedure.
pub open spec fn boot_variables() -> Seq<(Seq<char>, Seq<char>)> {
    seq![
        ("arch"@, "arm"@),
        ("baudrate"@, "115200"@),
        ("board"@, "evb_rk3399"@),
        ("board_name"@, "evb_rk3399"@),
        ("bootargs_emmc"@, "earlycon=uart8250,mmio32,0xff1a0000 swiotlb=1 console=ttyFIQ0 rw rootfstype=ramfs rootwait quiet loglevel=3 coherent_pool=1m"@),
        ("bootcmd"@, "run bootcmd_emmc"@),
        ("bootcmd_emmc"@, "setenv bootargs ${bootargs_emmc};load mmc ${part} ${kernel_addr_r} /${image};run booti_cmd"@),
        ("bootdelay"@, "0"@),
        ("booti_cmd"@, "booti ${kernel_addr_r} - ${fdt_addr_r}"@),
        ("boot_type"@, "normal"@),
    ]
}

/// The variables of the board.
pub open spec fn board_variables(fw: FirmwareInfo) -> Seq<(Seq<char>, Seq<char>)> {
    seq![
        ("cpu"@, "armv8"@),
        ("fdt_addr_r"@, "0x00280000"@),
        ("image"@, "Image"@),
        ("kernel_addr_r"@, "0x10480000"@),
        ("kernel_bank"@, "B"@),
        ("miniloader"@, or_empty(fw.miniloader)),
        ("model"@, "CDJ3K-RK3399"@),
        ("part"@, "0:6"@),
        ("pxefile_addr_r"@, "0x00600000"@),
        ("ramdisk_addr_r"@, "0x0a200000"@),
    ]
}

/// The variables of the installed versions.
pub open spec fn version_variables(instance_id: u32, fw: FirmwareInfo) -> Seq<(Seq<char>, Seq<char>)> {
    seq![
        ("release"@, or_empty(fw.release)),
        ("rev_apl"@, or_empty(fw.rev_apl)),
        ("rev_kernel"@, or_empty(fw.rev_kernel)),
        ("serial_number"@, serial_number(instance_id)),
        ("soc"@, "rockchip"@),
        ("stderr"@, "serial,vidconsole"@),
        ("stdout"@, "serial,vidconsole"@),
        ("update_status"@, "success"@),
        ("vendor"@, "rockchip"@),
    ]
}

/// The boot environment of an instance.
pub open spec fn env_variables(instance_id: u32, fw: FirmwareInfo) -> Seq<(Seq<char>, Seq<char>)> {
    boot_variables() + board_variables(fw) + version_variables(
        instance_id,
        fw,
    )
}

/// A variable as the boot loader stores it: "key=value" and a zero.
pub open spec fn env_string(var: (Seq<char>, Seq<char>)) -> Seq<u8> {
    (vstd::utf8::encode_utf8(var.0).push(0x3d) + vstd::utf8::encode_utf8(var.1)).push(0)
}

/// Variables one after the other.
pub open spec fn env_strings(vars: Seq<(Seq<char>, Seq<char>)>) -> Seq<u8>
    decreases vars.len(),
{
    if vars.len() == 0 {
        Seq::empty()
    } else {
        env_strings(vars.drop_last()) + env_string(vars.last())
    }
}

/// The boot environment as the boot loader stores it: the variables, and another zero.
pub open spec fn env_data(instance_id: u32, fw: FirmwareInfo) -> Seq<u8> {
    env_strings(env_variables(instance_id, fw)).push(0)
}

fn build_serial_number(instance_id: u32) -> (r: String)
    ensures
        r@ == serial_number(instance_id),
{
    cat3("DJMP", decimal_padded_text(instance_id as u128, 6).as_str(), "EH")
}

fn text_or_empty(t: &Option<String>) -> (r: String)
    ensures
        r@ == or_empty(*t),
{
    match t {
        Some(s) => s.clone(),
        None => String::new(),
    }
}

fn push_variable(
    env: &mut Vec<u8>,
    key: &str,
    value: &str,
    start: Ghost<Seq<u8>>,
    vars: Ghost<Seq<(Seq<char>, Seq<char>)>>,
)
    requires
        old(env)@ == start@ + env_strings(vars@),
    ensures
        final(env)@ == start@ + env_strings(vars@.push((key@, value@))),
{
    env.extend_from_slice(key.as_bytes());
    env.push(0x3d);
    env.extend_from_slice(value.as_bytes());
    env.push(0);
    proof {
        let all = vars@.push((key@, value@));
        assert(all.drop_last() =~= vars@);
        assert(env@ =~= start@ + (env_strings(vars@) + env_string((key@, value@))));
    }
}

proof fn lemma_env_strings_of_both(
    a: Seq<(Seq<char>, Seq<char>)>,
    b: Seq<(Seq<char>, Seq<char>)>,
)
    ensures
        env_strings(a + b) == env_strings(a) + env_strings(b),
    decreases b.len(),
{
    if b.len() == 0 {
        assert(a + b =~= a);
        assert(env_strings(a) + Seq::<u8>::empty() =~= env_strings(a));
    } else {
        lemma_env_strings_of_both(a, b.drop_last());
        assert((a + b).drop_last() =~= a + b.drop_last());
        assert((a + b).last() == b.last());
        text::lemma_regroup(env_strings(a), env_strings(b.drop_last()), env_string(b.last()));
    }
}

fn push_boot_variables(env: &mut Vec<u8>)
    ensures
        final(env)@ == old(env)@ + env_strings(boot_variables()),
{
    let ghost vars = boot_variables();
    let ghost start = env@;
    assert(env@ =~= start + env_strings(vars.take(0)));
    push_variable(env, "arch", "arm", Ghost(start), Ghost(vars.take(0)));
    assert(vars.take(1) =~= vars.take(0).push(("arch"@, "arm"@)));
    push_variable(env, "baudrate", "115200", Ghost(start), Ghost(vars.take(1)));
    assert(vars.take(2) =~= vars.take(1).push(("baudrate"@, "115200"@)));
    push_variable(env, "board", "evb_rk3399", Ghost(start), Ghost(vars.take(2)));
    assert(vars.take(3) =~= vars.take(2).push(("board"@, "evb_rk3399"@)));
    push_variable(env, "board_name", "evb_rk3399", Ghost(start), Ghost(vars.take(3)));
    assert(vars.take(4) =~= vars.take(3).push(("board_name"@, "evb_rk3399"@)));
    push_variable(env, "bootargs_emmc", "earlycon=uart8250,mmio32,0xff1a0000 swiotlb=1 console=ttyFIQ0 rw rootfstype=ramfs rootwait quiet loglevel=3 coherent_pool=1m", Ghost(start), Ghost(vars.take(4)));
    assert(vars.take(5) =~= vars.take(4).push(("bootargs_emmc"@, "earlycon=uart8250,mmio32,0xff1a0000 swiotlb=1 console=ttyFIQ0 rw rootfstype=ramfs rootwait quiet loglevel=3 coherent_pool=1m"@)));
    push_variable(env, "bootcmd", "run bootcmd_emmc", Ghost(start), Ghost(vars.take(5)));
    assert(vars.take(6) =~= vars.take(5).push(("bootcmd"@, "run bootcmd_emmc"@)));
    push_variable(env, "bootcmd_emmc", "setenv bootargs ${bootargs_emmc};load mmc ${part} ${kernel_addr_r} /${image};run booti_cmd", Ghost(start), Ghost(vars.take(6)));
    assert(vars.take(7) =~= vars.take(6).push(("bootcmd_emmc"@, "setenv bootargs ${bootargs_emmc};load mmc ${part} ${kernel_addr_r} /${image};run booti_cmd"@)));
    push_variable(env, "bootdelay", "0", Ghost(start), Ghost(vars.take(7)));
    assert(vars.take(8) =~= vars.take(7).push(("bootdelay"@, "0"@)));
    push_variable(env, "booti_cmd", "booti ${kernel_addr_r} - ${fdt_addr_r}", Ghost(start), Ghost(vars.take(8)));
    assert(vars.take(9) =~= vars.take(8).push(("booti_cmd"@, "booti ${kernel_addr_r} - ${fdt_addr_r}"@)));
    push_variable(env, "boot_type", "normal", Ghost(start), Ghost(vars.take(9)));
    assert(vars.take(10) =~= vars.take(9).push(("boot_type"@, "normal"@)));
    assert(vars.take(10) =~= vars);
}

fn push_board_variables(env: &mut Vec<u8>, fw: &FirmwareInfo)
    ensures
        final(env)@ == old(env)@ + env_strings(board_variables(*fw)),
{
    let ghost vars = board_variables(*fw);
    let ghost start = env@;
    assert(env@ =~= start + env_strings(vars.take(0)));
    push_variable(env, "cpu", "armv8", Ghost(start), Ghost(vars.take(0)));
    assert(vars.take(1) =~= vars.take(0).push(("cpu"@, "armv8"@)));
    push_variable(env, "fdt_addr_r", "0x00280000", Ghost(start), Ghost(vars.take(1)));
    assert(vars.take(2) =~= vars.take(1).push(("fdt_addr_r"@, "0x00280000"@)));
    push_variable(env, "image", "Image", Ghost(start), Ghost(vars.take(2)));
    assert(vars.take(3) =~= vars.take(2).push(("image"@, "Image"@)));
    push_variable(env, "kernel_addr_r", "0x10480000", Ghost(start), Ghost(vars.take(3)));
    assert(vars.take(4) =~= vars.take(3).push(("kernel_addr_r"@, "0x10480000"@)));
    push_variable(env, "kernel_bank", "B", Ghost(start), Ghost(vars.take(4)));
    assert(vars.take(5) =~= vars.take(4).push(("kernel_bank"@, "B"@)));
    push_variable(env, "miniloader", text_or_empty(&fw.miniloader).as_str(), Ghost(start), Ghost(vars.take(5)));
    assert(vars.take(6) =~= vars.take(5).push(("miniloader"@, or_empty(fw.miniloader))));
    push_variable(env, "model", "CDJ3K-RK3399", Ghost(start), Ghost(vars.take(6)));
    assert(vars.take(7) =~= vars.take(6).push(("model"@, "CDJ3K-RK3399"@)));
    push_variable(env, "part", "0:6", Ghost(start), Ghost(vars.take(7)));
    assert(vars.take(8) =~= vars.take(7).push(("part"@, "0:6"@)));
    push_variable(env, "pxefile_addr_r", "0x00600000", Ghost(start), Ghost(vars.take(8)));
    assert(vars.take(9) =~= vars.take(8).push(("pxefile_addr_r"@, "0x00600000"@)));
    push_variable(env, "ramdisk_addr_r", "0x0a200000", Ghost(start), Ghost(vars.take(9)));
    assert(vars.take(10) =~= vars.take(9).push(("ramdisk_addr_r"@, "0x0a200000"@)));
    assert(vars.take(10) =~= vars);
}

fn push_version_variables(env: &mut Vec<u8>, instance_id: u32, fw: &FirmwareInfo)
    ensures
        final(env)@ == old(env)@ + env_strings(version_variables(instance_id, *fw)),
{
    let serial = build_serial_number(instance_id);
    let ghost vars = version_variables(instance_id, *fw);
    let ghost start = env@;
    assert(env@ =~= start + env_strings(vars.take(0)));
    push_variable(env, "release", text_or_empty(&fw.release).as_str(), Ghost(start), Ghost(vars.take(0)));
    assert(vars.take(1) =~= vars.take(0).push(("release"@, or_empty(fw.release))));
    push_variable(env, "rev_apl", text_or_empty(&fw.rev_apl).as_str(), Ghost(start), Ghost(vars.take(1)));
    assert(vars.take(2) =~= vars.take(1).push(("rev_apl"@, or_empty(fw.rev_apl))));
    push_variable(env, "rev_kernel", text_or_empty(&fw.rev_kernel).as_str(), Ghost(start), Ghost(vars.take(2)));
    assert(vars.take(3) =~= vars.take(2).push(("rev_kernel"@, or_empty(fw.rev_kernel))));
    push_variable(env, "serial_number", serial.as_str(), Ghost(start), Ghost(vars.take(3)));
    assert(vars.take(4) =~= vars.take(3).push(("serial_number"@, serial_number(instance_id))));
    push_variable(env, "soc", "rockchip", Ghost(start), Ghost(vars.take(4)));
    assert(vars.take(5) =~= vars.take(4).push(("soc"@, "rockchip"@)));
    push_variable(env, "stderr", "serial,vidconsole", Ghost(start), Ghost(vars.take(5)));
    assert(vars.take(6) =~= vars.take(5).push(("stderr"@, "serial,vidconsole"@)));
    push_variable(env, "stdout", "serial,vidconsole", Ghost(start), Ghost(vars.take(6)));
    assert(vars.take(7) =~= vars.take(6).push(("stdout"@, "serial,vidconsole"@)));
    push_variable(env, "update_status", "success", Ghost(start), Ghost(vars.take(7)));
    assert(vars.take(8) =~= vars.take(7).push(("update_status"@, "success"@)));
    push_variable(env, "vendor", "rockchip", Ghost(start), Ghost(vars.take(8)));
    assert(vars.take(9) =~= vars.take(8).push(("vendor"@, "rockchip"@)));
    assert(vars.take(9) =~= vars);
}

/// The boot environment of an instance as the boot loader stores it.
pub fn build_env_data(instance_id: u32, fw: &FirmwareInfo) -> (r: Vec<u8>)
    ensures
        r@ == env_data(instance_id, *fw),
{
    let mut env: Vec<u8> = Vec::new();
    push_boot_variables(&mut env);
    push_board_variables(&mut env, fw);
    push_version_variables(&mut env, instance_id, fw);
    proof {
        let a = boot_variables();
        let b = board_variables(*fw);
        let c = version_variables(instance_id, *fw);
        lemma_env_strings_of_both(a, b);
        lemma_env_strings_of_both(a + b, c);
        assert(env@ =~= env_strings(env_variables(instance_id, *fw)));
    }
    env.push(0);
    env
}

/// A 32-bit number in four bytes, the least significant one first.
pub open spec fn le_bytes(n: u32) -> Seq<u8> {
    seq![
        (n % 0x100) as u8,
        (n / 0x100 % 0x100) as u8,
        (n / 0x1_0000 % 0x100) as u8,
        (n / 0x100_0000) as u8,
    ]
}

/// The environment data, filled up with zeros to the size of the block without its
/// checksum.
pub open spec fn padded_env(env: Seq<u8>) -> Seq<u8> {
    env + Seq::new((UBOOT_ENV_SIZE - 4 - env.len()) as nat, |i: int| 0u8)
}

/// The block that a checksum and environment data make up.
pub fn assemble_env_block(checksum: u32, padded: Vec<u8>) -> (r: Vec<u8>)
    ensures
        r@ == le_bytes(checksum) + padded@,
{
    let mut block: Vec<u8> = Vec::new();
    block.push((checksum % 0x100) as u8);
    block.push((checksum / 0x100 % 0x100) as u8);
    block.push((checksum / 0x1_0000 % 0x100) as u8);
    block.push((checksum / 0x100_0000) as u8);
    assert(block@ =~= le_bytes(checksum));
    block.extend_from_slice(padded.as_slice());
    block
}

/// The block that is written at [`UBOOT_ENV_OFFSET`]: the checksum of the environment
/// data, and the data, filled up with zeros.
pub fn uboot_env_block(env: Vec<u8>) -> (r: Vec<u8>)
    requires
        env@.len() <= UBOOT_ENV_SIZE - 4,
    ensures
        r@ == le_bytes(crc32(padded_env(env@))) + padded_env(env@),
        r@.len() == UBOOT_ENV_SIZE,
{
    let ghost orig = env@;
    let mut padded = env;
    padded.resize(UBOOT_ENV_SIZE - 4, 0);
    assert(padded@ =~= padded_env(orig));
    let checksum: u32 = crc32_checksum(padded.as_slice());
    assemble_env_block(checksum, padded)
}

/// The command line that turns the raw image into the qcow2 image, without the program.
pub open spec fn convert_args(raw: Seq<char>, out: Seq<char>) -> Seq<Seq<char>> {
    seq![
        "convert"@,
        "-f"@,
        "raw"@,
        "-O"@,
        "qcow2"@,
        "-o"@,
        "preallocation=off"@,
        raw,
        out,
    ]
}

/// The command line that turns the raw image into the qcow2 image, without the program.
pub fn build_convert_args(raw: &str, out: &str) -> (r: Vec<String>)
    ensures
        text::texts(r@) == convert_args(raw@, out@),
{
    let mut args: Vec<String> = Vec::new();
    push_text(&mut args, "convert");
    push_text(&mut args, "-f");
    push_text(&mut args, "raw");
    push_text(&mut args, "-O");
    push_text(&mut args, "qcow2");
    push_text(&mut args, "-o");
    push_text(&mut args, "preallocation=off");
    push_text(&mut args, raw);
    push_text(&mut args, out);
    assert(text::texts(args@) =~= convert_args(raw@, out@));
    args
}

/// The program that turns the raw image into the qcow2 image: the configured one, or the
/// bundled one.
pub fn convert_tool(config: &EmmcConfig, bundled: &str) -> (r: String)
    ensures
        r@ == (match config.qemu_img {
            Some(tool) => tool@,
            None => bundled@,
        }),
{
    match &config.qemu_img {
        Some(tool) => tool.clone(),
        None => bundled.to_owned(),
    }
}

/// The partitions by name and size: the first one begins at 1 MiB, each of the next directly
/// behind the one before it, and the user data fill the rest of a disk of 29 GiB and 100 MiB, up
/// to the sectors that are reserved.
pub proof fn partitions_have_their_sizes(backup_reserved: u64)
    requires
        backup_reserved < 2048,
    ensures
        ({
            let t = partition_table(backup_reserved);
            let bytes = |i: int| (t[i].last + 1 - t[i].first) * 512;
            let mib = 1024 * 1024int;
            &&& t[0].first * 512 == mib
            &&& t[0].name == "bootloader"@ && bytes(0) == 4 * mib
            &&& t[1].name == "trustfirmware"@ && bytes(1) == 4 * mib
            &&& t[2].name == "resource"@ && bytes(2) == 4 * mib
            &&& t[3].name == "recovery"@ && bytes(3) == 128 * mib
            &&& t[4].name == "firmware-a"@ && bytes(4) == 256 * mib
            &&& t[5].name == "firmware-b"@ && bytes(5) == 256 * mib
            &&& t[6].name == "settings"@ && bytes(6) == 64 * mib
            &&& t[7].name == "userdata"@
            &&& t[1].first == t[0].last + 1 && t[2].first == t[1].last + 1 && t[3].first
                == t[2].last + 1
            &&& t[4].first == t[3].last + 1 && t[5].first == t[4].last + 1 && t[6].first
                == t[5].last + 1 && t[7].first == t[6].last + 1
            &&& (t[7].last + 1 + backup_reserved) * 512 == 29 * 1024 * mib + 100 * mib
        }),
{
    lemma_partition_starts();
}

/// A variable has this value in an environment.
pub open spec fn has_variable(
    vars: Seq<(Seq<char>, Seq<char>)>,
    key: Seq<char>,
    value: Seq<char>,
) -> bool {
    exists|i: int| 0 <= i < vars.len() && #[trigger] vars[i] == (key, value)
}

/// The boot environment names the versions of the firmware, or nothing where they are unknown,
/// and a serial number made of the number of the instance; it boots the image from the sixth
/// partition.
pub proof fn environments_name_the_firmware(instance_id: u32, fw: FirmwareInfo)
    ensures
        ({
            let vars = env_variables(instance_id, fw);
            let shown = |version: Option<String>|
                match version {
                    Some(v) => v@,
                    None => Seq::<char>::empty(),
                };
            &&& has_variable(vars, "release"@, shown(fw.release))
            &&& has_variable(vars, "rev_apl"@, shown(fw.rev_apl))
            &&& has_variable(vars, "rev_kernel"@, shown(fw.rev_kernel))
            &&& has_variable(vars, "miniloader"@, shown(fw.miniloader))
            &&& has_variable(
                vars,
                "serial_number"@,
                "DJMP"@ + text::decimal_padded(instance_id as nat, 6) + "EH"@,
            )
            &&& has_variable(vars, "image"@, "Image"@)
            &&& has_variable(vars, "part"@, "0:6"@)
            &&& has_variable(vars, "boot_type"@, "normal"@)
            &&& has_variable(vars, "bootcmd"@, "run bootcmd_emmc"@)
            &&& has_variable(vars, "kernel_bank"@, "B"@)
            &&& has_variable(vars, "model"@, "CDJ3K-RK3399"@)
            &&& has_variable(vars, "update_status"@, "success"@)
            &&& vars.len() == 29
        }),
{
    let vars = env_variables(instance_id, fw);
    assert(vars[5] == ("bootcmd"@, "run bootcmd_emmc"@));
    assert(vars[9] == ("boot_type"@, "normal"@));
    assert(vars[12] == ("image"@, "Image"@));
    assert(vars[14] == ("kernel_bank"@, "B"@));
    assert(vars[15] == ("miniloader"@, or_empty(fw.miniloader)));
    assert(vars[16] == ("model"@, "CDJ3K-RK3399"@));
    assert(vars[17] == ("part"@, "0:6"@));
    assert(vars[20] == ("release"@, or_empty(fw.release)));
    assert(vars[21] == ("rev_apl"@, or_empty(fw.rev_apl)));
    assert(vars[22] == ("rev_kernel"@, or_empty(fw.rev_kernel)));
    assert(vars[23] == ("serial_number"@, serial_number(instance_id)));
    assert(vars[27] == ("update_status"@, "success"@));
}

/// Every variable stands in the stored environment as its key, an equals sign, its value and a
/// zero byte; variables stand behind each other, and a second zero byte ends them.
pub proof fn environments_are_stored_variable_by_variable(
    front: Seq<(Seq<char>, Seq<char>)>,
    key: Seq<char>,
    value: Seq<char>,
    back: Seq<(Seq<char>, Seq<char>)>,
    instance_id: u32,
    fw: FirmwareInfo,
)
    ensures
        env_strings(front + seq![(key, value)] + back) == env_strings(front)
            + vstd::utf8::encode_utf8(key) + seq!['=' as u8] + vstd::utf8::encode_utf8(value)
            + seq![0u8] + env_strings(back),
        env_strings(Seq::empty()) == Seq::<u8>::empty(),
        env_data(instance_id, fw) == env_strings(env_variables(instance_id, fw)) + seq![0u8],
{
    let one = seq![(key, value)];
    lemma_env_strings_of_both(front, one);
    lemma_env_strings_of_both(front + one, back);
    assert(one.drop_last() =~= Seq::empty());
    assert(env_strings(one.drop_last()) =~= Seq::<u8>::empty());
    assert(one.last() == (key, value));
    assert(env_strings(one) =~= env_string((key, value)));
    assert(env_strings(front + one + back) =~= env_strings(front) + vstd::utf8::encode_utf8(key)
        + seq!['=' as u8] + vstd::utf8::encode_utf8(value) + seq![0u8] + env_strings(back));
    assert(env_data(instance_id, fw) =~= env_strings(env_variables(instance_id, fw)) + seq![0u8]);
}

/// The stored block is 32 KiB long: four bytes that read back, lowest first, as the checksum
/// of all that follows, then the environment, then zeros.
pub proof fn blocks_carry_their_checksum(env: Seq<u8>, i: int)
    requires
        env.len() <= 32_764,
    ensures
        ({
            let rest = padded_env(env);
            let block = le_bytes(crc32(rest)) + rest;
            &&& block.len() == 32_768
            &&& block[0] + 256 * block[1] + 65_536 * block[2] + 16_777_216 * block[3] == crc32(rest)
            &&& block.skip(4) == rest
            &&& 0 <= i < env.len() ==> block[4 + i] == env[i]
            &&& 4 + env.len() <= i < 32_768 ==> block[i] == 0
        }),
{
    let rest = padded_env(env);
    let block = le_bytes(crc32(rest)) + rest;
    let n = crc32(rest);
    assert(block.skip(4) =~= rest);
    assert(block[0] == n % 0x100 && block[1] == n / 0x100 % 0x100 && block[2] == n / 0x1_0000
        % 0x100 && block[3] == n / 0x100_0000);
}

/// The block lies in the first partition, where the boot loader looks for it.
pub proof fn the_block_stands_where_the_boot_loader_looks()
    ensures
        UBOOT_ENV_OFFSET == 0x3f_8000,
        UBOOT_ENV_SIZE == 0x8000,
{
}

/// An image is converted from raw to qcow2, from the first path to the second, and takes no
/// more space than it needs.
pub proof fn images_are_converted_to_qcow2(raw: Seq<char>, out: Seq<char>)
    ensures
        crate::config::gives(convert_args(raw, out), "-f"@, "raw"@),
        crate::config::gives(convert_args(raw, out), "-O"@, "qcow2"@),
        crate::config::gives(convert_args(raw, out), "-o"@, "preallocation=off"@),
        convert_args(raw, out)[0] == "convert"@,
        convert_args(raw, out)[7] == raw,
        convert_args(raw, out)[8] == out,
        convert_args(raw, out).len() == 9,
{
    let args = convert_args(raw, out);
    assert(args[1] == "-f"@ && args[2] == "raw"@);
    assert(args[3] == "-O"@ && args[4] == "qcow2"@);
    assert(args[5] == "-o"@ && args[6] == "preallocation=off"@);
}

/// The rest of the boot environment is the same for every instance: the board, the addresses
/// that things are loaded to, and the commands that load the image and start it.
pub proof fn environments_boot_the_board(instance_id: u32, fw: FirmwareInfo)
    ensures
        ({
            let vars = env_variables(instance_id, fw);
            &&& has_variable(
                vars,
                "arch"@,
                "arm"@,
            )
            &&& has_variable(
                vars,
                "baudrate"@,
                "115200"@,
            )
            &&& has_variable(
                vars,
                "board"@,
                "evb_rk3399"@,
            )
            &&& has_variable(
                vars,
                "board_name"@,
                "evb_rk3399"@,
            )
            &&& has_variable(
                vars,
                "bootargs_emmc"@,
                "earlycon=uart8250,mmio32,0xff1a0000 swiotlb=1 console=ttyFIQ0 rw rootfstype=ramfs rootwait quiet loglevel=3 coherent_pool=1m"@,
            )
            &&& has_variable(
                vars,
                "bootcmd_emmc"@,
                "setenv bootargs ${bootargs_emmc};load mmc ${part} ${kernel_addr_r} /${image};run booti_cmd"@,
            )
            &&& has_variable(
                vars,
                "bootdelay"@,
                "0"@,
            )
            &&& has_variable(
                vars,
                "booti_cmd"@,
                "booti ${kernel_addr_r} - ${fdt_addr_r}"@,
            )
            &&& has_variable(
                vars,
                "cpu"@,
                "armv8"@,
            )
            &&& has_variable(
                vars,
                "fdt_addr_r"@,
                "0x00280000"@,
            )
            &&& has_variable(
                vars,
                "kernel_addr_r"@,
                "0x10480000"@,
            )
            &&& has_variable(
                vars,
                "pxefile_addr_r"@,
                "0x00600000"@,
            )
            &&& has_variable(
                vars,
                "ramdisk_addr_r"@,
                "0x0a200000"@,
            )
            &&& has_variable(
                vars,
                "soc"@,
                "rockchip"@,
            )
            &&& has_variable(
                vars,
                "stderr"@,
                "serial,vidconsole"@,
            )
            &&& has_variable(
                vars,
                "stdout"@,
                "serial,vidconsole"@,
            )
            &&& has_variable(
                vars,
                "vendor"@,
                "rockchip"@,
            )
        }),
{
    let vars = env_variables(instance_id, fw);
    assert(vars[0] == (
        "arch"@,
        "arm"@,
    ));
    assert(vars[1] == (
        "baudrate"@,
        "115200"@,
    ));
    assert(vars[2] == (
        "board"@,
        "evb_rk3399"@,
    ));
    assert(vars[3] == (
        "board_name"@,
        "evb_rk3399"@,
    ));
    assert(vars[4] == (
        "bootargs_emmc"@,
        "earlycon=uart8250,mmio32,0xff1a0000 swiotlb=1 console=ttyFIQ0 rw rootfstype=ramfs rootwait quiet loglevel=3 coherent_pool=1m"@,
    ));
    assert(vars[6] == (
        "bootcmd_emmc"@,
        "setenv bootargs ${bootargs_emmc};load mmc ${part} ${kernel_addr_r} /${image};run booti_cmd"@,
    ));
    assert(vars[7] == (
        "bootdelay"@,
        "0"@,
    ));
    assert(vars[8] == (
        "booti_cmd"@,
        "booti ${kernel_addr_r} - ${fdt_addr_r}"@,
    ));
    assert(vars[10] == (
        "cpu"@,
        "armv8"@,
    ));
    assert(vars[11] == (
        "fdt_addr_r"@,
        "0x00280000"@,
    ));
    assert(vars[13] == (
        "kernel_addr_r"@,
        "0x10480000"@,
    ));
    assert(vars[18] == (
        "pxefile_addr_r"@,
        "0x00600000"@,
    ));
    assert(vars[19] == (
        "ramdisk_addr_r"@,
        "0x0a200000"@,
    ));
    assert(vars[24] == (
        "soc"@,
        "rockchip"@,
    ));
    assert(vars[25] == (
        "stderr"@,
        "serial,vidconsole"@,
    ));
    assert(vars[26] == (
        "stdout"@,
        "serial,vidconsole"@,
    ));
    assert(vars[28] == (
        "vendor"@,
        "rockchip"@,
    ));
}

} // verus!
