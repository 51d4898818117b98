use cdj3k_emu::main_stream::{
    accumulate_dirty, build_display_dirty, copy_stable_rect, generation_is_stable, is_display,
    main_shm_file, mapping_is_current, read_header, valid_frame, DisplayPayload, FramePoller,
    GenerationTracker, MainDisplayMode, Poll, DEFAULT_MAIN_DISPLAY_MODE, SHM_FORMAT_RGBA8888,
    SHM_MAGIC, SHM_PIXELS_OFFSET,
};

fn test_map(generation: u32, width: u32, height: u32, stride: u32, pixels: &[u8]) -> Vec<u8> {
    let mut map = vec![0u8; SHM_PIXELS_OFFSET];
    map[0..4].copy_from_slice(&SHM_MAGIC.to_le_bytes());
    map[4..8].copy_from_slice(&generation.to_le_bytes());
    map[8..12].copy_from_slice(&width.to_le_bytes());
    map[12..16].copy_from_slice(&height.to_le_bytes());
    map[16..20].copy_from_slice(&stride.to_le_bytes());
    map[20..24].copy_from_slice(&SHM_FORMAT_RGBA8888.to_le_bytes());
    map[24..28].copy_from_slice(&0u32.to_le_bytes());
    map[28..32].copy_from_slice(&0u32.to_le_bytes());
    map[32..36].copy_from_slice(&width.to_le_bytes());
    map[36..40].copy_from_slice(&height.to_le_bytes());
    map.extend_from_slice(pixels);
    map
}

#[test]
fn legacy_is_the_default_display_contract() {
    assert_eq!(
        MainDisplayMode::default(),
        MainDisplayMode::LegacyPublishedGeneration
    );
    assert_eq!(
        DEFAULT_MAIN_DISPLAY_MODE,
        MainDisplayMode::LegacyPublishedGeneration
    );
}

#[test]
fn rejects_invalid_frame_headers() {
    let sequenced = MainDisplayMode::SequencedStableSnapshot;
    assert!(!valid_frame(
        sequenced,
        0,
        720,
        5120,
        SHM_FORMAT_RGBA8888,
        8 << 20
    ));
    assert!(!valid_frame(sequenced, 1280, 720, 5120, 0, 8 << 20));
    assert!(!valid_frame(
        sequenced,
        1280,
        720,
        5120,
        SHM_FORMAT_RGBA8888,
        SHM_PIXELS_OFFSET
    ));
    assert!(!valid_frame(
        sequenced,
        usize::MAX,
        2,
        usize::MAX,
        SHM_FORMAT_RGBA8888,
        usize::MAX
    ));
    assert!(valid_frame(
        MainDisplayMode::LegacyPublishedGeneration,
        4,
        2,
        16,
        0,
        SHM_PIXELS_OFFSET + 32
    ));
}

#[test]
fn sequenced_stability_requires_same_nonzero_even_generation() {
    assert!(!generation_is_stable(0, 0));
    assert!(!generation_is_stable(1, 1));
    assert!(!generation_is_stable(2, 4));
    assert!(generation_is_stable(2, 2));
}

#[test]
fn legacy_accepts_every_changed_generation_and_preserves_initial_wait() {
    let mut tracker = GenerationTracker::new(MainDisplayMode::LegacyPublishedGeneration, 1);
    assert!(tracker.observe(1).is_none());
    for generation in [2, 3, 4] {
        let event = tracker.observe(generation).unwrap();
        assert!(event.count_immediately);
    }
}

#[test]
fn sequenced_accepts_initial_even_frame_then_only_stable_publications() {
    let mut tracker = GenerationTracker::new(MainDisplayMode::SequencedStableSnapshot, 2);
    assert!(!tracker.observe(2).unwrap().count_immediately);
    assert!(tracker.observe(3).is_none());
    assert!(!tracker.observe(4).unwrap().count_immediately);
    assert!(tracker.observe(4).is_none());

    let mut zero = GenerationTracker::new(MainDisplayMode::SequencedStableSnapshot, 0);
    assert!(zero.observe(0).is_none());
    assert!(zero.observe(1).is_none());
    assert!(zero.observe(2).is_some());
}

#[test]
fn dirty_rectangles_accumulate_to_their_union() {
    let acc = accumulate_dirty(None, 10, 20, 5, 7).unwrap();
    assert_eq!(acc, (10, 20, 15, 27));
    let acc = accumulate_dirty(Some(acc), 4, 24, 20, 10).unwrap();
    assert_eq!(acc, (4, 20, 24, 34));
    assert!(accumulate_dirty(None, usize::MAX, 0, 2, 1).is_none());
}

#[test]
fn stable_copy_packs_rows_and_rejects_changed_or_odd_generation() {
    let map = test_map(2, 4, 2, 16, &(1u8..=32).collect::<Vec<_>>());
    let pixels = copy_stable_rect(&map, 2, 1, 0, 2, 2, 16, 4, 2).unwrap();
    assert_eq!(
        pixels,
        vec![5, 6, 7, 8, 9, 10, 11, 12, 21, 22, 23, 24, 25, 26, 27, 28]
    );
    assert!(copy_stable_rect(&map, 1, 1, 0, 2, 2, 16, 4, 2).is_none());
    assert!(copy_stable_rect(&map, 4, 1, 0, 2, 2, 16, 4, 2).is_none());
}

#[test]
fn legacy_payload_is_mapped_with_surface_stride() {
    let map = test_map(3, 4, 2, 20, &(1u8..=40).collect::<Vec<_>>());
    let dirty = build_display_dirty(
        &map,
        MainDisplayMode::LegacyPublishedGeneration,
        3,
        1,
        0,
        2,
        2,
        20,
        4,
        2,
    )
    .unwrap();
    assert_eq!(
        (dirty.x, dirty.y, dirty.w, dirty.h, dirty.stride),
        (1, 0, 2, 2, 20)
    );
    match dirty.payload {
        DisplayPayload::Mapped => {}
        DisplayPayload::Owned(_) => panic!("legacy mode unexpectedly copied pixels"),
    }
}

#[test]
fn sequenced_payload_is_owned_and_tightly_packed() {
    let map = test_map(2, 4, 2, 20, &(1u8..=40).collect::<Vec<_>>());
    let dirty = build_display_dirty(
        &map,
        MainDisplayMode::SequencedStableSnapshot,
        2,
        1,
        0,
        2,
        2,
        20,
        4,
        2,
    )
    .unwrap();
    assert_eq!(
        (dirty.x, dirty.y, dirty.w, dirty.h, dirty.stride),
        (1, 0, 2, 2, 8)
    );
    match dirty.payload {
        DisplayPayload::Owned(pixels) => assert_eq!(
            pixels,
            vec![5, 6, 7, 8, 9, 10, 11, 12, 25, 26, 27, 28, 29, 30, 31, 32]
        ),
        DisplayPayload::Mapped => panic!("sequenced mode did not own its snapshot"),
    }
}

#[test]
fn a_sequenced_reader_begins_with_the_whole_frame() {
    let mut map = test_map(2, 4, 2, 16, &(1u8..=32).collect::<Vec<_>>());
    map[24..28].copy_from_slice(&1u32.to_le_bytes());
    map[32..36].copy_from_slice(&1u32.to_le_bytes());
    map[36..40].copy_from_slice(&1u32.to_le_bytes());
    assert!(is_display(&map));
    let mut poller = FramePoller::new(MainDisplayMode::SequencedStableSnapshot, 2);
    let (poll, counted) = poller.poll(read_header(&map), map.len());
    assert!(!counted);
    match poll {
        Poll::Publish(region) => assert_eq!(
            (region.x, region.y, region.w, region.h, region.generation),
            (0, 0, 4, 2, 2)
        ),
        _ => panic!("nothing was published"),
    }
    assert!(poller.published(true));
    let (again, _) = poller.poll(read_header(&map), map.len());
    assert!(matches!(again, Poll::Idle));
    map[0] = 0;
    assert!(!is_display(&map));
    let (gone, _) = poller.poll(read_header(&map), map.len());
    assert!(matches!(gone, Poll::Lost));
}

#[test]
fn the_shared_file_lies_directly_below_its_directory() {
    assert_eq!(main_shm_file("/tmp/run//"), "/tmp/run/main.shm");
    assert_eq!(main_shm_file("/tmp/run"), "/tmp/run/main.shm");
    assert!(mapping_is_current(None, None));
}
