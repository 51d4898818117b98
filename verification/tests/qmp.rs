use cdj3k_emu::qmp::{
    blockdev_add_line, blockdev_change_medium_line, blockdev_del_line, capabilities_line,
    device_del_line, find_medium, interpret, query_block_line, quit_line, read_medium, read_reply,
    system_powerdown_line, BlockEntry, Medium, QmpError, Reply, ReplyLine,
};

fn parsed(line: &str) -> serde_json::Value {
    assert!(line.ends_with('\n'));
    serde_json::from_str(line).unwrap()
}

#[test]
fn commands_without_arguments_have_only_a_name() {
    assert_eq!(capabilities_line(), "{\"execute\":\"qmp_capabilities\"}\n");
    assert_eq!(query_block_line(), "{\"execute\":\"query-block\"}\n");
    assert_eq!(
        system_powerdown_line(),
        "{\"execute\":\"system_powerdown\"}\n"
    );
    assert_eq!(quit_line(), "{\"execute\":\"quit\"}\n");
}

#[test]
fn commands_are_what_the_json_library_would_write() {
    let line = blockdev_change_medium_line("usb0", "/media/a \"b\"\\ü\n.img", "raw");
    let value = parsed(&line);
    assert_eq!(value.to_string() + "\n", line);
    assert_eq!(value["execute"], "blockdev-change-medium");
    assert_eq!(value["arguments"]["device"], "usb0");
    assert_eq!(value["arguments"]["filename"], "/media/a \"b\"\\ü\n.img");
    assert_eq!(value["arguments"]["format"], "raw");
    let line = blockdev_add_line("node0", "/media/a.img");
    let value = parsed(&line);
    assert_eq!(value.to_string() + "\n", line);
    assert_eq!(value["arguments"]["driver"], "raw");
    assert_eq!(value["arguments"]["node-name"], "node0");
    assert_eq!(value["arguments"]["file"]["driver"], "file");
    assert_eq!(value["arguments"]["file"]["filename"], "/media/a.img");
    assert_eq!(parsed(&device_del_line("d1"))["arguments"]["id"], "d1");
    assert_eq!(
        blockdev_del_line("node0"),
        "{\"arguments\":{\"node-name\":\"node0\"},\"execute\":\"blockdev-del\"}\n"
    );
}

#[test]
fn replies_are_told_from_events() {
    assert!(matches!(
        read_reply("{\"return\": {\"a\": [1, 2]}}\r\n"),
        Reply::Returned(value) if value == "{\"a\":[1,2]}"
    ));
    assert!(matches!(read_reply(" \r\n"), Reply::Unrelated));
    assert!(matches!(read_reply(""), Reply::Unrelated));
    assert!(matches!(
        read_reply("{\"event\": \"RESET\"}"),
        Reply::Unrelated
    ));
    assert!(matches!(read_reply("[1]"), Reply::Unrelated));
    assert!(matches!(
        read_reply("{\"error\": {\"class\": \"GenericError\", \"desc\": \"no \\\"x\\\"\"}}"),
        Reply::Failed(QmpError::QemuError(reason)) if reason == "no \"x\""
    ));
    assert!(matches!(
        read_reply("{\"error\": {\"desc\": 5}}"),
        Reply::Failed(QmpError::QemuError(reason)) if reason == "unknown QMP error"
    ));
    assert!(matches!(
        read_reply("{\"error\": {}, \"return\": null}"),
        Reply::Returned(value) if value == "null"
    ));
    assert!(matches!(
        read_reply("not json"),
        Reply::Failed(QmpError::Json(e)) if e.contains("line: 1")
    ));
}

#[test]
fn a_value_comes_before_a_refusal() {
    let line = |blank: bool, error: Option<&str>, returned: Option<&str>, refused: bool| ReplyLine {
        blank,
        error: error.map(|e| e.to_string()),
        returned: returned.map(|e| e.to_string()),
        refused,
        description: None,
    };
    assert!(matches!(
        interpret(line(true, Some("bad"), None, false)),
        Reply::Unrelated
    ));
    assert!(matches!(
        interpret(line(false, Some("bad"), Some("1"), true)),
        Reply::Failed(QmpError::Json(e)) if e == "bad"
    ));
    assert!(matches!(
        interpret(line(false, None, Some("1"), true)),
        Reply::Returned(v) if v == "1"
    ));
    assert!(matches!(
        interpret(line(false, None, None, true)),
        Reply::Failed(QmpError::QemuError(r)) if r == "unknown QMP error"
    ));
}

#[test]
fn media_are_found_in_the_block_list() {
    let list = "[{\"device\": \"emmc0\", \"inserted\": {\"file\": \"/e\"}},\
        {\"device\": \"usb0\", \"inserted\": {\"image\": {\"filename\": \"/m/a.img\"}, \"file\": \"/x\"}},\
        {\"device\": \"usb1\"},\
        {\"device\": \"usb2\", \"inserted\": {\"file\": \"/m/b.img\"}},\
        {\"device\": \"usb3\", \"inserted\": {\"file\": {\"driver\": \"file\"}}},\
        {\"device\": \"usb4\", \"inserted\": {\"image\": {\"filename\": 7}, \"file\": \"/x\"}}]";
    assert!(matches!(read_medium(list, "usb0"), Medium::File(f) if f == "/m/a.img"));
    assert!(matches!(read_medium(list, "usb1"), Medium::Empty));
    assert!(matches!(read_medium(list, "usb2"), Medium::File(f) if f == "/m/b.img"));
    assert!(matches!(read_medium(list, "usb3"), Medium::Empty));
    assert!(matches!(read_medium(list, "usb4"), Medium::Empty));
    assert!(matches!(read_medium(list, "usb9"), Medium::Unknown));
    assert!(matches!(read_medium("{}", "usb0"), Medium::Unknown));
}

#[test]
fn the_first_entry_of_a_drive_counts() {
    let entry = |device: Option<&str>, inserted: bool, filename: Option<&str>| BlockEntry {
        device: device.map(|d| d.to_string()),
        inserted,
        filename: filename.map(|f| f.to_string()),
    };
    let entries = vec![
        entry(None, true, Some("/n")),
        entry(Some("usb0"), true, Some("/a")),
        entry(Some("usb0"), true, Some("/b")),
    ];
    assert!(matches!(find_medium(&entries, "usb0"), Medium::File(f) if f == "/a"));
    assert!(matches!(find_medium(&entries, ""), Medium::Unknown));
}

#[test]
fn errors_are_rendered_for_the_operator() {
    assert_eq!(QmpError::Io("Os".into()).message(), "Io(Os)");
    assert_eq!(QmpError::Json("E".into()).message(), "Json(E)");
    assert_eq!(QmpError::Timeout.message(), "Timeout");
    assert_eq!(
        QmpError::QemuError("x".into()).message(),
        "QemuError(\"x\")"
    );
}
