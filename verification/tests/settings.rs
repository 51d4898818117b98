use cdj3k_emu::settings::{read_setting, write_setting};

fn lines(text: &[&str]) -> Vec<String> {
    text.iter().map(|line| line.to_string()).collect()
}

#[test]
fn stored_settings_are_read_back() {
    let file = write_setting(&Vec::new(), "mac", Some("0a:00".into()));
    assert_eq!(file, ["mac=0a:00"]);
    assert_eq!(read_setting(&file, "mac").as_deref(), Some("0a:00"));
    let file = write_setting(&file, "mac", Some("a=b".into()));
    assert_eq!(file, ["mac=a=b"]);
    assert_eq!(read_setting(&file, "mac").as_deref(), Some("a=b"));
    let file = write_setting(&file, "mac", None);
    assert!(file.is_empty());
    assert_eq!(read_setting(&file, "mac"), None);
}

#[test]
fn unknown_settings_survive_rewrites() {
    let file = lines(&["# kept", "future=1", "audio_enabled=false", "audio=x"]);
    let file = write_setting(&file, "audio_enabled", Some("true".into()));
    assert_eq!(file, ["# kept", "future=1", "audio=x", "audio_enabled=true"]);
    assert_eq!(read_setting(&file, "future").as_deref(), Some("1"));
    assert_eq!(read_setting(&file, "audio").as_deref(), Some("x"));
    assert_eq!(read_setting(&file, "audio_"), None);
}

#[test]
fn the_first_value_of_a_setting_counts() {
    let file = lines(&["a=1", "a=2"]);
    assert_eq!(read_setting(&file, "a").as_deref(), Some("1"));
    assert_eq!(write_setting(&file, "a", Some("3".into())), ["a=3"]);
}
