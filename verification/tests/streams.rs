use cdj3k_emu::control_gate::ControlConnectionGate;
use cdj3k_emu::ctrl_stream::{
    ctrl_sock_file, may_connect, ConnectFailures, FrameReader, LedState, RepaintFilter,
};
use cdj3k_emu::jog_stream::{
    attempt_is_logged, choose_buffer, corner_colors_from_canvas, is_large_enough,
    jog_corner_probe_fb_pixels, jog_shm_file, read_header, sample_corner_rgba, CopyTry, JogHeader,
    JogPoll, JogPoller, StableCopy, FRAME_BYTES, JOG_FB_W, SHM_MAGIC, SHM_PIXELS_OFF,
};
use cdj3k_emu::serial_observer::SerialObserver;

fn header(seq: u32) -> JogHeader {
    JogHeader {
        magic: SHM_MAGIC,
        seq,
        width: 320,
        height: 240,
        format: 1,
    }
}

#[test]
fn jog_frames_are_accepted_once() {
    let mut poller = JogPoller::new(false);
    assert_eq!(poller.poll(header(0), false).0, JogPoll::Wait);
    assert_eq!(poller.poll(header(1), false).0, JogPoll::Wait);
    assert_eq!(poller.poll(header(2), false).0, JogPoll::Copy);
    assert!(poller.accept(Some(2)));
    assert!(poller.connected);
    assert!(!poller.accept(Some(2)));
    assert!(!poller.accept(None));
    assert_eq!(poller.poll(header(2), true), (JogPoll::Wait, true));
    assert!(!poller.connected);
    let mut small = header(4);
    small.width = 100;
    assert_eq!(poller.poll(small, false).0, JogPoll::Wait);
    let mut gone = header(4);
    gone.magic = 0;
    assert_eq!(poller.poll(gone, false).0, JogPoll::Lost);
}

#[test]
fn copies_are_retried_while_a_frame_is_written() {
    let mut copy = StableCopy::new();
    assert_eq!(copy.begin(3), CopyTry::Retry);
    assert_eq!(copy.begin(4), CopyTry::Copy);
    assert_eq!(copy.end(4, 6), None);
    assert_eq!(copy.end(4, 4), Some(4));
    copy.begin(5);
    copy.begin(5);
    assert_eq!(copy.begin(6), CopyTry::GiveUp);
    assert_eq!(choose_buffer(0, true, false), (0, false));
    assert_eq!(choose_buffer(0, false, true), (1, false));
    assert_eq!(choose_buffer(1, false, false), (0, true));
}

#[test]
fn corners_are_sampled_in_rgba() {
    let points = jog_corner_probe_fb_pixels();
    assert_eq!(points.len(), 4);
    let mut canvas = vec![0u8; FRAME_BYTES];
    let (x, y) = points[2];
    let at = (y * JOG_FB_W + x) * 4;
    canvas[at..at + 4].copy_from_slice(&[1, 2, 3, 0]);
    assert_eq!(sample_corner_rgba(&canvas, x, y), [3, 2, 1, 255]);
    assert_eq!(corner_colors_from_canvas(&canvas)[2], [3, 2, 1, 255]);
}

#[test]
fn the_jog_region_has_a_header() {
    let mut map = vec![0u8; 16];
    map[0..4].copy_from_slice(&SHM_MAGIC.to_le_bytes());
    map[4..8].copy_from_slice(&8u32.to_le_bytes());
    map[8..10].copy_from_slice(&320u16.to_le_bytes());
    map[10..12].copy_from_slice(&240u16.to_le_bytes());
    map[12..16].copy_from_slice(&1u32.to_le_bytes());
    assert_eq!(read_header(&map), header(8));
    assert!(is_large_enough(SHM_PIXELS_OFF + FRAME_BYTES));
    assert!(!is_large_enough(SHM_PIXELS_OFF + FRAME_BYTES - 1));
    assert_eq!(jog_shm_file("/run/"), "/run/jog.shm");
    assert!(attempt_is_logged(1));
    assert!(!attempt_is_logged(2));
}

#[test]
fn controls_wait_for_the_gate() {
    assert!(may_connect(None));
    let mut gate = ControlConnectionGate::new();
    let epoch = gate.begin_launch();
    assert!(!may_connect(Some(&gate)));
    gate.observe_main(epoch, 2, 1280, 720);
    gate.observe_jog(epoch, 2);
    gate.observe_jog(epoch, 4);
    assert!(may_connect(Some(&gate)));
    assert_eq!(ctrl_sock_file("/run"), "/run/ctrl.sock");
}

#[test]
fn every_tenth_failure_is_reported() {
    let mut failures = ConnectFailures::none();
    let reported: Vec<u32> = (1..=21).filter(|_| failures.failed()).collect();
    assert_eq!(reported, [1, 10, 20]);
}

#[test]
fn led_frames_do_not_depend_on_the_cuts() {
    let bytes: Vec<u8> = (0..64).collect();
    let mut reader = FrameReader::new();
    assert_eq!(reader.missing(), 64);
    assert!(reader.accept(&bytes[..10]).is_none());
    assert_eq!(reader.missing(), 54);
    let led = reader.accept(&bytes[10..]).unwrap();
    assert_eq!(led.frame.to_vec(), bytes);
    assert_eq!(reader.missing(), 64);
    let mut filter = RepaintFilter::new();
    assert!(filter.observe(LedState { frame: led.frame }));
    assert!(!filter.observe(LedState { frame: led.frame }));
    assert!(filter.observe(LedState::default()));
}

#[test]
fn the_milestone_is_found_across_reads() {
    let mut observer = SerialObserver::new();
    let mut log = b"booting\nApplica".to_vec();
    assert!(!observer.observe(&log));
    log.extend_from_slice(b"tion Started");
    assert!(!observer.observe(&log));
    log.extend_from_slice(b" now\n");
    assert!(observer.observe(&log));
    let mut fresh = SerialObserver::new();
    assert!(!fresh.observe(b"a long line that is later replaced\n"));
    assert!(fresh.observe(b"Application Started\n"));
}
