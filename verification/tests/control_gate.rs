use cdj3k_emu::control_gate::ControlConnectionGate;

#[test]
fn requires_main_and_two_jog_advances_without_serial_dependency() {
    let mut gate = ControlConnectionGate::new();
    let epoch = gate.begin_launch();
    gate.observe_main(epoch, 1, 1280, 720);
    gate.observe_jog(epoch, 2);
    assert!(!gate.is_ready());
    gate.observe_jog(epoch, 4);
    assert!(gate.is_ready());

    gate.begin_launch();
    assert!(!gate.is_ready());
}

#[test]
fn readiness_order_is_independent() {
    let mut gate = ControlConnectionGate::new();
    let epoch = gate.begin_launch();
    gate.observe_jog(epoch, 2);
    gate.observe_jog(epoch, 4);
    assert!(!gate.is_ready());
    gate.observe_main(epoch, 1, 1280, 720);
    assert!(gate.is_ready());
}

#[test]
fn invalid_main_and_duplicate_or_unstable_jog_samples_do_not_release_controls() {
    let mut gate = ControlConnectionGate::new();
    let epoch = gate.begin_launch();
    gate.observe_main(epoch, 0, 1280, 720);
    gate.observe_main(epoch, 2, 640, 480);
    gate.observe_jog(epoch, 0);
    gate.observe_jog(epoch, 1);
    gate.observe_jog(epoch, 2);
    gate.observe_jog(epoch, 2);
    assert!(!gate.is_ready());

    gate.observe_jog(epoch, 4);
    assert!(!gate.is_ready());
    gate.observe_main(epoch, 2, 1280, 720);
    assert!(gate.is_ready());
}

#[test]
fn stale_observer_cannot_release_a_new_launch() {
    let mut gate = ControlConnectionGate::new();
    let first = gate.begin_launch();
    let second = gate.begin_launch();
    assert!(!gate.release(first));
    assert!(!gate.is_ready());
    assert!(gate.release(second));
}

#[test]
fn old_mapping_observations_cannot_ready_a_new_launch() {
    let mut gate = ControlConnectionGate::new();
    let old_mapping = gate.begin_launch();
    assert_eq!(gate.current_epoch(), old_mapping);
    let new_mapping = gate.begin_launch();

    gate.observe_main(old_mapping, 2, 1280, 720);
    gate.observe_jog(old_mapping, 2);
    gate.observe_jog(old_mapping, 4);
    assert!(!gate.is_ready());

    gate.observe_main(new_mapping, 2, 1280, 720);
    gate.observe_jog(new_mapping, 2);
    assert!(!gate.is_ready());
    gate.observe_jog(new_mapping, 4);
    assert!(gate.is_ready());

    gate.invalidate();
    gate.observe_main(new_mapping, 4, 1280, 720);
    gate.observe_jog(new_mapping, 6);
    gate.observe_jog(new_mapping, 8);
    assert!(!gate.is_ready());
}

#[test]
fn the_serial_milestone_belongs_to_its_launch() {
    let mut gate = ControlConnectionGate::new();
    assert!(!gate.application_started());
    let epoch = gate.begin_epoch();
    assert!(gate.is_current(epoch));
    assert!(gate.release(epoch));
    assert!(gate.application_started());
    assert!(!gate.is_ready());
    gate.invalidate();
    assert!(!gate.application_started());
    assert!(!gate.is_current(epoch));
}
