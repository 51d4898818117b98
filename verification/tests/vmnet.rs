use cdj3k_emu::vmnet::{
    binary_candidates, build_launch_command, check_iface, find_binary, is_valid_iface,
    run_elevated, sh_quote, start_plan, SocketVmnet, StartPlan,
};

#[test]
fn interface_names_are_checked() {
    assert!(is_valid_iface("en0"));
    assert!(is_valid_iface("bridge_100-a"));
    assert!(is_valid_iface("aaaaaaaaaaaaaaaa"));
    assert!(!is_valid_iface("aaaaaaaaaaaaaaaaa"));
    assert!(!is_valid_iface(""));
    assert!(!is_valid_iface("en0;reboot"));
    assert!(!is_valid_iface("é"));
    assert!(check_iface("en0").is_ok());
    assert_eq!(
        check_iface("a\tb").unwrap_err(),
        "invalid interface name: \"a\\tb\""
    );
}

#[test]
fn quotes_survive_the_shell() {
    assert_eq!(sh_quote("plain"), "'plain'");
    assert_eq!(sh_quote(""), "''");
    assert_eq!(sh_quote("it's"), "'it'\\''s'");
}

#[test]
fn a_running_daemon_is_reused_and_left_alone() {
    assert_eq!(start_plan(true, true), StartPlan::Reuse);
    assert_eq!(
        start_plan(false, true),
        StartPlan::Launch { remove_stale: true }
    );
    assert_eq!(
        start_plan(false, false),
        StartPlan::Launch {
            remove_stale: false
        }
    );
    let reused = SocketVmnet::started("/s".into(), StartPlan::Reuse);
    assert_eq!(reused.socket_path(), "/s");
    assert_eq!(reused.socket_to_remove(), None);
    let own = SocketVmnet::started("/s".into(), start_plan(false, false));
    assert_eq!(own.socket_to_remove().as_deref(), Some("/s"));
}

#[test]
fn the_bundled_program_comes_first() {
    let candidates = binary_candidates(Some("/app/socket_vmnet"));
    assert_eq!(candidates.len(), 4);
    assert_eq!(
        find_binary(&candidates, &vec![true, true, false, false]).unwrap(),
        "/app/socket_vmnet"
    );
    assert_eq!(
        find_binary(&candidates, &vec![false, false, true, true]).unwrap(),
        "/usr/local/bin/socket_vmnet"
    );
    assert_eq!(
        find_binary(&binary_candidates(None), &vec![false, false, false]).unwrap_err(),
        "socket_vmnet not found - run bundle.sh or install via Homebrew"
    );
}

#[test]
fn the_launch_command_starts_a_watchdog() {
    let bridged = build_launch_command("/b/socket_vmnet", Some("en0"), "/r/it's.sock", 42);
    assert_eq!(
        bridged,
        r#"nohup '/b/socket_vmnet' --vmnet-mode bridged --vmnet-interface 'en0' '/r/it'\''s.sock' >/dev/null 2>&1 &
SV_PID=$!
( trap '' HUP
  i=0
  while [ $i -lt 40 ] && [ ! -S '/r/it'\''s.sock' ]; do sleep 0.1; i=$((i+1)); done
  while kill -0 42 2>/dev/null && [ -S '/r/it'\''s.sock' ]; do sleep 1; done
  kill "$SV_PID" 2>/dev/null
  sleep 0.3
  kill -9 "$SV_PID" 2>/dev/null
  rm -f '/r/it'\''s.sock'
) </dev/null >/dev/null 2>&1 &
"#
    );
    let host = build_launch_command("/b/socket_vmnet", None, "/r/h.sock", 7);
    assert!(host.starts_with("nohup '/b/socket_vmnet' --vmnet-mode host '/r/h.sock' "));
}

#[test]
fn elevation_needs_macos() {
    assert_eq!(
        run_elevated("true").unwrap_err(),
        "macOS Authorization Services are unavailable on this host"
    );
}
