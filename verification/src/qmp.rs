//! The machine protocol: the lines that go to QEMU, and what its lines mean.
//!
//! A JSON value that travels through this module is held as its text.

use vstd::prelude::*;

use crate::text;
use crate::text::{cat2, cat3, debug_text, is_blank, str_eq};

verus! {

/// Why a command did not return a value.
#[derive(Clone, Debug)]
pub enum QmpError {
    /// The connection failed; holds the rendered error.
    Io(String),
    /// A line is no JSON document; holds the rendered error.
    Json(String),
    Timeout,
    /// QEMU refused the command, for this reason.
    QemuError(String),
}

impl QmpError {
    /// The error as it is shown to the operator.
    pub open spec fn shown(self) -> Seq<char> {
        match self {
            QmpError::Io(e) => "Io("@ + e@ + ")"@,
            QmpError::Json(e) => "Json("@ + e@ + ")"@,
            QmpError::Timeout => "Timeout"@,
            QmpError::QemuError(reason) => "QemuError("@ + text::debug_rendered(reason@) + ")"@,
        }
    }

    /// The error as it is shown to the operator.
    pub fn message(&self) -> (r: String)
        ensures
            r@ == self.shown(),
    {
        match self {
            QmpError::Io(e) => cat3("Io(", e.as_str(), ")"),
            QmpError::Json(e) => cat3("Json(", e.as_str(), ")"),
            QmpError::Timeout => "Timeout".to_owned(),
            QmpError::QemuError(reason) => {
                let quoted = debug_text(reason.as_str());
                cat3("QemuError(", quoted.as_str(), ")")
            },
        }
    }
}

/// The error of a text that is no JSON document, rendered; none where it is one.
pub uninterp spec fn json_error(document: Seq<char>) -> Option<Seq<char>>;

/// The text of an object's member.
pub uninterp spec fn json_member(document: Seq<char>, key: Seq<char>) -> Option<Seq<char>>;

/// The text of the value that a JSON pointer leads to.
pub uninterp spec fn json_pointed(document: Seq<char>, pointer: Seq<char>) -> Option<Seq<char>>;

/// The string that a document is.
pub uninterp spec fn json_string(document: Seq<char>) -> Option<Seq<char>>;

/// The texts of an array's items.
pub uninterp spec fn json_items(document: Seq<char>) -> Option<Seq<Seq<char>>>;

/// The JSON string that stands for a text.
pub uninterp spec fn json_quoted(content: Seq<char>) -> Seq<char>;

/// `serde_json::from_str` to a value: the rendered error is a function of the text.
#[verifier::external_body]
fn parse_error(document: &str) -> (r: Option<String>)
    ensures
        text::maybe(r) == json_error(document@),
{
    serde_json::from_str::<serde_json::Value>(document).err().map(|e| format!("{e:?}"))
}

/// `serde_json::Value::get` with a key, on the value that the text stands for: the text of
/// the member is a function of the text and the key. None where the text is no JSON.
#[verifier::external_body]
fn member(document: &str, key: &str) -> (r: Option<String>)
    ensures
        text::maybe(r) == json_member(document@, key@),
{
    serde_json::from_str::<serde_json::Value>(document).ok()?.get(key).map(|v| v.to_string())
}

/// `serde_json::Value::pointer`, on the value that the text stands for: the text of the
/// value found is a function of the text and the pointer. None where the text is no JSON.
#[verifier::external_body]
fn pointed(document: &str, pointer: &str) -> (r: Option<String>)
    ensures
        text::maybe(r) == json_pointed(document@, pointer@),
{
    serde_json::from_str::<serde_json::Value>(document).ok()?.pointer(pointer).map(
        |v| v.to_string(),
    )
}

/// `serde_json::Value::as_str`, on the value that the text stands for: a function of the
/// text. None where the text is no JSON.
#[verifier::external_body]
fn string(document: &str) -> (r: Option<String>)
    ensures
        text::maybe(r) == json_string(document@),
{
    serde_json::from_str::<serde_json::Value>(document).ok()?.as_str().map(|s| s.to_owned())
}

/// `serde_json::Value::as_array`, on the value that the text stands for: the texts of the
/// items are a function of the text. None where the text is no JSON.
#[verifier::external_body]
fn items(document: &str) -> (r: Option<Vec<String>>)
    ensures
        (match r {
            Some(list) => Some(text::texts(list@)),
            None => None,
        }) == json_items(document@),
{
    serde_json::from_str::<serde_json::Value>(document).ok()?.as_array().map(
        |list| list.iter().map(|v| v.to_string()).collect(),
    )
}

/// `serde_json::Value::to_string` on a string: the JSON string is a function of the text.
#[verifier::external_body]
fn quoted(content: &str) -> (r: String)
    ensures
        r@ == json_quoted(content@),
{
    serde_json::Value::String(content.to_owned()).to_string()
}

/// A member of an object: its key, and the text of its value.
pub open spec fn member_text(key: Seq<char>, value: Seq<char>) -> Seq<char> {
    json_quoted(key) + ":"@ + value
}

/// Members, separated by commas.
pub open spec fn member_list(members: Seq<(Seq<char>, Seq<char>)>) -> Seq<char>
    decreases members.len(),
{
    if members.len() == 0 {
        Seq::empty()
    } else if members.len() == 1 {
        member_text(members[0].0, members[0].1)
    } else {
        member_list(members.drop_last()) + ","@ + member_text(members.last().0, members.last().1)
    }
}

/// An object with these members, in this order.
pub open spec fn object_text(members: Seq<(Seq<char>, Seq<char>)>) -> Seq<char> {
    "{"@ + member_list(members) + "}"@
}

/// An object under construction.
struct ObjectText {
    list: String,
    members: Ghost<Seq<(Seq<char>, Seq<char>)>>,
}

impl ObjectText {
    spec fn wf(&self) -> bool {
        self.list@ == member_list(self.members@)
    }

    fn new() -> (r: Self)
        ensures
            r.wf(),
            r.members@ == Seq::<(Seq<char>, Seq<char>)>::empty(),
    {
        ObjectText { list: String::new(), members: Ghost(Seq::empty()) }
    }

    /// Appends a member whose value has this text.
    fn value(self, key: &str, value: &str) -> (r: Self)
        requires
            self.wf(),
        ensures
            r.wf(),
            r.members@ == self.members@.push((key@, value@)),
    {
        let name = quoted(key);
        let added = cat3(name.as_str(), ":", value);
        let ghost all = self.members@.push((key@, value@));
        assert(all.drop_last() =~= self.members@);
        let is_first = self.list.as_str().as_bytes().len() == 0;
        let list = if is_first {
            added
        } else {
            cat3(self.list.as_str(), ",", added.as_str())
        };
        proof {
            lemma_members_are_not_empty(self.members@);
            lemma_empty_bytes(self.list@);
        }
        ObjectText { list, members: Ghost(all) }
    }

    /// Appends a member whose value is a string.
    fn string(self, key: &str, content: &str) -> (r: Self)
        requires
            self.wf(),
        ensures
            r.wf(),
            r.members@ == self.members@.push((key@, json_quoted(content@))),
    {
        let value = quoted(content);
        self.value(key, value.as_str())
    }

    fn finish(self) -> (r: String)
        requires
            self.wf(),
        ensures
            r@ == object_text(self.members@),
    {
        cat3("{", self.list.as_str(), "}")
    }
}

proof fn lemma_members_are_not_empty(members: Seq<(Seq<char>, Seq<char>)>)
    ensures
        (member_list(members).len() == 0) == (members.len() == 0),
{
    reveal_strlit(":");
    if members.len() == 1 {
        assert(member_list(members)[json_quoted(members[0].0).len() as int] == ':');
    } else if members.len() > 1 {
        reveal_strlit(",");
        assert(member_list(members)[member_list(members.drop_last()).len() as int] == ',');
    }
}

proof fn lemma_empty_bytes(s: Seq<char>)
    ensures
        (vstd::utf8::encode_utf8(s).len() == 0) == (s.len() == 0),
{
    if s.len() > 0 && vstd::utf8::encode_utf8(s).len() == 0 {
        assert(vstd::utf8::encode_utf8(s) =~= vstd::utf8::encode_utf8(Seq::<char>::empty()));
        text::lemma_encoding_is_injective(s, Seq::<char>::empty());
    }
}

/// The line of a command: an object with the arguments, where there are any, and the name
/// of the command.
pub open spec fn command_line(
    command: Seq<char>,
    arguments: Seq<(Seq<char>, Seq<char>)>,
) -> Seq<char> {
    (if arguments.len() == 0 {
        object_text(seq![("execute"@, json_quoted(command))])
    } else {
        object_text(
            seq![("arguments"@, object_text(arguments)), ("execute"@, json_quoted(command))],
        )
    }) + "\n"@
}

spec fn members_of(object: Option<ObjectText>) -> Seq<(Seq<char>, Seq<char>)> {
    match object {
        Some(list) => list.members@,
        None => Seq::empty(),
    }
}

fn build_line(command: &str, arguments: Option<ObjectText>) -> (r: String)
    requires
        arguments is Some ==> arguments->0.wf() && arguments->0.members@.len() > 0,
    ensures
        r@ == command_line(
            command@,
            members_of(arguments),
        ),
{
    let object = ObjectText::new();
    let ghost given = members_of(arguments);
    let object = match arguments {
        Some(list) => {
            let value = list.finish();
            object.value("arguments", value.as_str())
        },
        None => object,
    };
    let object = object.string("execute", command);
    proof {
        if given.len() == 0 {
            assert(object.members@ =~= seq![("execute"@, json_quoted(command@))]);
        } else {
            assert(object.members@ =~= seq![
                ("arguments"@, object_text(given)),
                ("execute"@, json_quoted(command@)),
            ]);
        }
    }
    cat2(object.finish().as_str(), "\n")
}

/// The negotiation of capabilities, which comes first on a connection.
pub fn capabilities_line() -> (r: String)
    ensures
        r@ == command_line("qmp_capabilities"@, Seq::empty()),
{
    build_line("qmp_capabilities", None)
}

/// The arguments of [`blockdev_add_line`].
pub open spec fn blockdev_add_arguments(
    node_name: Seq<char>,
    path: Seq<char>,
) -> Seq<(Seq<char>, Seq<char>)> {
    seq![
        ("driver"@, json_quoted("raw"@)),
        (
            "file"@,
            object_text(
                seq![("driver"@, json_quoted("file"@)), ("filename"@, json_quoted(path))],
            ),
        ),
        ("node-name"@, json_quoted(node_name)),
    ]
}

/// Hot-add a raw block device file as a named blockdev node.
pub fn blockdev_add_line(node_name: &str, path: &str) -> (r: String)
    ensures
        r@ == command_line("blockdev-add"@, blockdev_add_arguments(node_name@, path@)),
{
    let file = ObjectText::new().string("driver", "file").string("filename", path);
    assert(file.members@ =~= seq![
        ("driver"@, json_quoted("file"@)),
        ("filename"@, json_quoted(path@)),
    ]);
    let file = file.finish();
    let list = ObjectText::new().string("driver", "raw").value("file", file.as_str()).string(
        "node-name",
        node_name,
    );
    assert(list.members@ =~= blockdev_add_arguments(node_name@, path@));
    build_line("blockdev-add", Some(list))
}

/// Hot-remove a device by its id.
pub fn device_del_line(id: &str) -> (r: String)
    ensures
        r@ == command_line("device_del"@, seq![("id"@, json_quoted(id@))]),
{
    let list = ObjectText::new().string("id", id);
    assert(list.members@ =~= seq![("id"@, json_quoted(id@))]);
    build_line("device_del", Some(list))
}

/// Remove a blockdev node.
pub fn blockdev_del_line(node_name: &str) -> (r: String)
    ensures
        r@ == command_line("blockdev-del"@, seq![("node-name"@, json_quoted(node_name@))]),
{
    let list = ObjectText::new().string("node-name", node_name);
    assert(list.members@ =~= seq![("node-name"@, json_quoted(node_name@))]);
    build_line("blockdev-del", Some(list))
}

/// The arguments of [`blockdev_change_medium_line`].
pub open spec fn change_medium_arguments(
    drive_id: Seq<char>,
    filename: Seq<char>,
    format: Seq<char>,
) -> Seq<(Seq<char>, Seq<char>)> {
    seq![
        ("device"@, json_quoted(drive_id)),
        ("filename"@, json_quoted(filename)),
        ("format"@, json_quoted(format)),
    ]
}

/// Swap the medium behind a named drive.
pub fn blockdev_change_medium_line(drive_id: &str, filename: &str, format: &str) -> (r: String)
    ensures
        r@ == command_line(
            "blockdev-change-medium"@,
            change_medium_arguments(drive_id@, filename@, format@),
        ),
{
    let list = ObjectText::new().string("device", drive_id).string("filename", filename).string(
        "format",
        format,
    );
    assert(list.members@ =~= change_medium_arguments(drive_id@, filename@, format@));
    build_line("blockdev-change-medium", Some(list))
}

/// Ask for all block devices.
pub fn query_block_line() -> (r: String)
    ensures
        r@ == command_line("query-block"@, Seq::empty()),
{
    build_line("query-block", None)
}

/// Press the ACPI power button.
pub fn system_powerdown_line() -> (r: String)
    ensures
        r@ == command_line("system_powerdown"@, Seq::empty()),
{
    build_line("system_powerdown", None)
}

/// Quit QEMU.
pub fn quit_line() -> (r: String)
    ensures
        r@ == command_line("quit"@, Seq::empty()),
{
    build_line("quit", None)
}

/// What a line of QEMU means for the command that is waiting.
#[derive(Clone, Debug)]
pub enum Reply {
    /// The command returned the value with this text.
    Returned(String),
    /// The command failed.
    Failed(QmpError),
    /// The line is no reply: read the next one.
    Unrelated,
}

/// What a [`Reply`] holds.
pub enum ReplyView {
    Returned(Seq<char>),
    NotJson(Seq<char>),
    Refused(Seq<char>),
    Unrelated,
}

impl Reply {
    /// Whether this reply says the given thing.
    pub open spec fn says(self, v: ReplyView) -> bool {
        match self {
            Reply::Returned(t) => v == ReplyView::Returned(t@),
            Reply::Failed(QmpError::Json(t)) => v == ReplyView::NotJson(t@),
            Reply::Failed(QmpError::QemuError(t)) => v == ReplyView::Refused(t@),
            Reply::Failed(_) => false,
            Reply::Unrelated => v == ReplyView::Unrelated,
        }
    }
}

/// What a line holds.
#[derive(Clone, Debug)]
pub struct ReplyLine {
    /// The line is empty or white space only.
    pub blank: bool,
    /// The error, where the line is no JSON document.
    pub error: Option<String>,
    /// The text of the member "return".
    pub returned: Option<String>,
    /// There is a member "error".
    pub refused: bool,
    /// The description in the member "error", where it is a string.
    pub description: Option<String>,
}

/// What a line with these contents means. A line that is neither blank nor JSON is an error;
/// a value takes precedence over a refusal; everything else, such as an event, is skipped.
pub open spec fn reply_of(
    blank: bool,
    error: Option<Seq<char>>,
    returned: Option<Seq<char>>,
    refused: bool,
    description: Option<Seq<char>>,
) -> ReplyView {
    if blank {
        ReplyView::Unrelated
    } else if error is Some {
        ReplyView::NotJson(error->0)
    } else if returned is Some {
        ReplyView::Returned(returned->0)
    } else if !refused {
        ReplyView::Unrelated
    } else if description is Some {
        ReplyView::Refused(description->0)
    } else {
        ReplyView::Refused("unknown QMP error"@)
    }
}

/// What a line with these contents means.
pub fn interpret(line: ReplyLine) -> (r: Reply)
    ensures
        r.says(
            reply_of(
                line.blank,
                text::maybe(line.error),
                text::maybe(line.returned),
                line.refused,
                text::maybe(line.description),
            ),
        ),
{
    if line.blank {
        return Reply::Unrelated;
    }
    if let Some(error) = line.error {
        return Reply::Failed(QmpError::Json(error));
    }
    if let Some(value) = line.returned {
        return Reply::Returned(value);
    }
    if !line.refused {
        return Reply::Unrelated;
    }
    match line.description {
        Some(reason) => Reply::Failed(QmpError::QemuError(reason)),
        None => Reply::Failed(QmpError::QemuError("unknown QMP error".to_owned())),
    }
}

/// The string in a member of a document.
pub open spec fn string_member(document: Seq<char>, key: Seq<char>) -> Option<Seq<char>> {
    match json_member(document, key) {
        Some(value) => json_string(value),
        None => None,
    }
}

fn find_string_member(document: &str, key: &str) -> (r: Option<String>)
    ensures
        text::maybe(r) == string_member(document@, key@),
{
    match member(document, key) {
        Some(value) => string(value.as_str()),
        None => None,
    }
}

/// What a line of QEMU means.
pub open spec fn line_meaning(line: Seq<char>) -> ReplyView {
    let refusal = json_member(line, "error"@);
    reply_of(
        text::is_blank_text(line),
        json_error(line),
        json_member(line, "return"@),
        refusal is Some,
        if refusal is Some {
            string_member(refusal->0, "desc"@)
        } else {
            None
        },
    )
}

/// What a line of QEMU means for the command that is waiting.
pub fn read_reply(line: &str) -> (r: Reply)
    ensures
        r.says(line_meaning(line@)),
{
    let refusal = member(line, "error");
    let description = match &refusal {
        Some(error) => find_string_member(error.as_str(), "desc"),
        None => None,
    };
    interpret(
        ReplyLine {
            blank: is_blank(line),
            error: parse_error(line),
            returned: member(line, "return"),
            refused: refusal.is_some(),
            description,
        },
    )
}

/// A block device as QEMU lists it.
#[derive(Clone, Debug)]
pub struct BlockEntry {
    /// The id of the drive, where it is a string.
    pub device: Option<String>,
    /// There is a medium.
    pub inserted: bool,
    /// The file behind the medium, where there is one and its name is a string.
    pub filename: Option<String>,
}

/// What a [`BlockEntry`] holds.
pub struct BlockView {
    pub device: Option<Seq<char>>,
    pub inserted: bool,
    pub filename: Option<Seq<char>>,
}

impl View for BlockEntry {
    type V = BlockView;

    open spec fn view(&self) -> BlockView {
        BlockView {
            device: text::maybe(self.device),
            inserted: self.inserted,
            filename: text::maybe(self.filename),
        }
    }
}

/// The answer to which medium a drive holds.
#[derive(Clone, Debug)]
pub enum Medium {
    /// The drive is not in the list, or there is no list.
    Unknown,
    /// The drive holds no medium, or one without a file name.
    Empty,
    /// The drive holds this file.
    File(String),
}

/// What a [`Medium`] holds.
pub enum MediumView {
    Unknown,
    Empty,
    File(Seq<char>),
}

impl View for Medium {
    type V = MediumView;

    open spec fn view(&self) -> MediumView {
        match *self {
            Medium::Unknown => MediumView::Unknown,
            Medium::Empty => MediumView::Empty,
            Medium::File(name) => MediumView::File(name@),
        }
    }
}

/// The medium of the first entry with this id.
pub open spec fn medium_of(entries: Seq<BlockView>, drive_id: Seq<char>) -> MediumView
    decreases entries.len(),
{
    if entries.len() == 0 {
        MediumView::Unknown
    } else if entries[0].device != Some(drive_id) {
        medium_of(entries.skip(1), drive_id)
    } else if entries[0].inserted && entries[0].filename is Some {
        MediumView::File(entries[0].filename->0)
    } else {
        MediumView::Empty
    }
}

/// The contents of a list of entries.
pub open spec fn block_views(entries: Seq<BlockEntry>) -> Seq<BlockView> {
    entries.map_values(|e: BlockEntry| e@)
}

/// The medium of the first entry with this id.
pub fn find_medium(entries: &Vec<BlockEntry>, drive_id: &str) -> (r: Medium)
    ensures
        r@ == medium_of(block_views(entries@), drive_id@),
{
    let ghost all = block_views(entries@);
    let len: usize = entries.len();
    let mut i: usize = 0;
    assert(all.skip(0) =~= all);
    while i < len
        invariant
            i <= len == entries@.len(),
            all == block_views(entries@),
            medium_of(all, drive_id@) == medium_of(all.skip(i as int), drive_id@),
        decreases len - i,
    {
        let entry = &entries[i];
        let found = match &entry.device {
            Some(id) => str_eq(id.as_str(), drive_id),
            None => false,
        };
        assert(all.skip(i as int)[0] == entry@);
        if found {
            assert(entry@.device == Some(drive_id@));
            if !entry.inserted {
                return Medium::Empty;
            }
            return match &entry.filename {
                Some(name) => Medium::File(name.clone()),
                None => Medium::Empty,
            };
        }
        assert(entry@.device != Some(drive_id@));
        assert(all.skip(i as int).skip(1) =~= all.skip(i + 1));
        i += 1;
    }
    Medium::Unknown
}

/// The entry that a text stands for. The file name is the one of the image where there is
/// one, and otherwise the plain file of the medium.
pub open spec fn entry_of(document: Seq<char>) -> BlockView {
    match json_member(document, "inserted"@) {
        None => BlockView {
            device: string_member(document, "device"@),
            inserted: false,
            filename: None,
        },
        Some(inserted) => BlockView {
            device: string_member(document, "device"@),
            inserted: true,
            filename: match json_pointed(inserted, "/image/filename"@) {
                Some(name) => json_string(name),
                None => string_member(inserted, "file"@),
            },
        },
    }
}

fn read_entry(document: &str) -> (r: BlockEntry)
    ensures
        r@ == entry_of(document@),
{
    let device = find_string_member(document, "device");
    match member(document, "inserted") {
        None => BlockEntry { device, inserted: false, filename: None },
        Some(inserted) => {
            let filename = match pointed(inserted.as_str(), "/image/filename") {
                Some(name) => string(name.as_str()),
                None => find_string_member(inserted.as_str(), "file"),
            };
            BlockEntry { device, inserted: true, filename }
        },
    }
}

/// The medium of a drive, by the value that QEMU returned for [`query_block_line`].
pub open spec fn medium_in(returned: Seq<char>, drive_id: Seq<char>) -> MediumView {
    match json_items(returned) {
        None => MediumView::Unknown,
        Some(list) => medium_of(list.map_values(|t: Seq<char>| entry_of(t)), drive_id),
    }
}

/// The medium of a drive, by the value that QEMU returned for [`query_block_line`].
pub fn read_medium(returned: &str, drive_id: &str) -> (r: Medium)
    ensures
        r@ == medium_in(returned@, drive_id@),
{
    let list = match items(returned) {
        Some(list) => list,
        None => return Medium::Unknown,
    };
    let mut entries: Vec<BlockEntry> = Vec::new();
    let len: usize = list.len();
    let mut i: usize = 0;
    while i < len
        invariant
            i <= len == list@.len(),
            entries@.len() == i,
            forall|j: int| 0 <= j < i ==> (#[trigger] entries@[j])@ == entry_of(list@[j]@),
        decreases len - i,
    {
        entries.push(read_entry(list[i].as_str()));
        i += 1;
    }
    assert(block_views(entries@) =~= text::texts(list@).map_values(|t: Seq<char>| entry_of(t)));
    find_medium(&entries, drive_id)
}

/// The members of an object are written one after the other, with a comma between two: a
/// quoted key, a colon and the value.
pub proof fn members_are_written_in_order(
    members: Seq<(Seq<char>, Seq<char>)>,
    key: Seq<char>,
    value: Seq<char>,
)
    ensures
        member_list(Seq::empty()) == Seq::<char>::empty(),
        members.len() == 0 ==> member_list(members.push((key, value))) == json_quoted(key) + ":"@
            + value,
        members.len() > 0 ==> member_list(members.push((key, value))) == member_list(members)
            + ","@ + (json_quoted(key) + ":"@ + value),
{
    assert(members.push((key, value)).drop_last() =~= members);
}

/// Every command is one object on one line: the arguments, where there are any, as an object
/// of their own, and the name of the command.
pub proof fn commands_are_objects_on_a_line(
    command: Seq<char>,
    arguments: Seq<(Seq<char>, Seq<char>)>,
)
    ensures
        arguments.len() == 0 ==> command_line(command, arguments) == "{"@ + (json_quoted(
            "execute"@,
        ) + ":"@ + json_quoted(command)) + "}"@ + "\n"@,
        arguments.len() > 0 ==> command_line(command, arguments) == "{"@ + ((json_quoted(
            "arguments"@,
        ) + ":"@ + ("{"@ + member_list(arguments) + "}"@)) + ","@ + (json_quoted("execute"@) + ":"@
            + json_quoted(command))) + "}"@ + "\n"@,
{
    let first = ("arguments"@, object_text(arguments));
    let name = ("execute"@, json_quoted(command));
    members_are_written_in_order(Seq::empty(), name.0, name.1);
    assert(Seq::<(Seq<char>, Seq<char>)>::empty().push(name) =~= seq![name]);
    members_are_written_in_order(Seq::empty(), first.0, first.1);
    assert(Seq::<(Seq<char>, Seq<char>)>::empty().push(first) =~= seq![first]);
    members_are_written_in_order(seq![first], name.0, name.1);
    assert(seq![first].push(name) =~= seq![first, name]);
}

/// A device that is added is a raw device under its name, and its file is the given one.
pub proof fn added_devices_are_raw_files(node_name: Seq<char>, path: Seq<char>)
    ensures
        member_list(blockdev_add_arguments(node_name, path)) == (json_quoted("driver"@) + ":"@
            + json_quoted("raw"@)) + ","@ + (json_quoted("file"@) + ":"@ + ("{"@ + ((json_quoted(
            "driver"@,
        ) + ":"@ + json_quoted("file"@)) + ","@ + (json_quoted("filename"@) + ":"@ + json_quoted(
            path,
        ))) + "}"@)) + ","@ + (json_quoted("node-name"@) + ":"@ + json_quoted(node_name)),
{
    let none = Seq::<(Seq<char>, Seq<char>)>::empty();
    let kind = ("driver"@, json_quoted("file"@));
    let name = ("filename"@, json_quoted(path));
    members_are_written_in_order(none, kind.0, kind.1);
    assert(none.push(kind) =~= seq![kind]);
    members_are_written_in_order(seq![kind], name.0, name.1);
    assert(seq![kind].push(name) =~= seq![kind, name]);
    let all = blockdev_add_arguments(node_name, path);
    members_are_written_in_order(none, all[0].0, all[0].1);
    assert(none.push(all[0]) =~= seq![all[0]]);
    members_are_written_in_order(seq![all[0]], all[1].0, all[1].1);
    members_are_written_in_order(seq![all[0]].push(all[1]), all[2].0, all[2].1);
    assert(seq![all[0]].push(all[1]).push(all[2]) =~= all);
}

/// A change of the medium names the drive, the new file and its format, each under its own
/// key.
pub proof fn changed_media_are_named(drive_id: Seq<char>, filename: Seq<char>, format: Seq<char>)
    ensures
        member_list(change_medium_arguments(drive_id, filename, format)) == (json_quoted("device"@)
            + ":"@ + json_quoted(drive_id)) + ","@ + (json_quoted("filename"@) + ":"@ + json_quoted(
            filename,
        )) + ","@ + (json_quoted("format"@) + ":"@ + json_quoted(format)),
{
    let none = Seq::<(Seq<char>, Seq<char>)>::empty();
    let all = change_medium_arguments(drive_id, filename, format);
    members_are_written_in_order(none, all[0].0, all[0].1);
    assert(none.push(all[0]) =~= seq![all[0]]);
    members_are_written_in_order(seq![all[0]], all[1].0, all[1].1);
    members_are_written_in_order(seq![all[0]].push(all[1]), all[2].0, all[2].1);
    assert(seq![all[0]].push(all[1]).push(all[2]) =~= all);
}

/// A command waits through blank lines and through documents that hold neither a value nor an
/// error. It ends with the value where there is one, and with the reason of the refusal where
/// there is only that. A line that is no document ends it with the error of the parser.
pub proof fn commands_end_with_their_reply(line: Seq<char>, reply: Reply)
    requires
        reply.says(line_meaning(line)),
    ensures
        text::is_blank_text(line) ==> reply is Unrelated,
        !text::is_blank_text(line) && json_error(line) is Some ==> (reply matches Reply::Failed(
            QmpError::Json(error),
        ) && Some(error@) == json_error(line)),
        !text::is_blank_text(line) && json_error(line) is None ==> {
            let value = json_member(line, "return"@);
            let refusal = json_member(line, "error"@);
            &&& value is Some ==> (reply matches Reply::Returned(returned) && returned@
                == value->0)
            &&& value is None && refusal is None ==> reply is Unrelated
            &&& value is None && refusal is Some ==> (reply matches Reply::Failed(
                QmpError::QemuError(reason),
            ) && reason@ == (match json_member(refusal->0, "desc"@) {
                Some(description) => match json_string(description) {
                    Some(content) => content,
                    None => "unknown QMP error"@,
                },
                None => "unknown QMP error"@,
            }))
        },
        reply matches Reply::Failed(error) ==> !(error is Timeout) && !(error is Io),
{
}

/// The first entry of a drive says what it holds: its file, where a medium is in it and the
/// file has a name, and otherwise nothing. A drive without an entry is unknown.
pub proof fn the_first_entry_of_a_drive_decides(
    entries: Seq<BlockView>,
    drive_id: Seq<char>,
    i: int,
)
    requires
        0 <= i <= entries.len(),
        forall|j: int| 0 <= j < i ==> (#[trigger] entries[j]).device != Some(drive_id),
    ensures
        i == entries.len() ==> medium_of(entries, drive_id) is Unknown,
        i < entries.len() && entries[i].device == Some(drive_id) ==> {
            &&& entries[i].inserted && entries[i].filename is Some ==> medium_of(entries, drive_id)
                == MediumView::File(entries[i].filename->0)
            &&& !entries[i].inserted || entries[i].filename is None ==> medium_of(
                entries,
                drive_id,
            ) is Empty
        },
    decreases i,
{
    if i > 0 {
        let rest = entries.skip(1);
        assert(entries[0].device != Some(drive_id));
        assert forall|j: int| 0 <= j < i - 1 implies (#[trigger] rest[j]).device != Some(
            drive_id,
        ) by {
            assert(rest[j] == entries[j + 1]);
        }
        the_first_entry_of_a_drive_decides(rest, drive_id, i - 1);
    }
}

/// In a list that QEMU returned, a drive is found by the string in "device". It holds a medium
/// where there is a member "inserted"; the file is the one of the image, and where no image is
/// named, the plain file.
pub proof fn media_are_read_from_the_list(
    returned: Seq<char>,
    drive_id: Seq<char>,
    i: int,
)
    requires
        json_items(returned) is Some,
        0 <= i < json_items(returned)->0.len(),
        forall|j: int|
            0 <= j < i ==> string_member(
                #[trigger] json_items(returned)->0[j],
                "device"@,
            ) != Some(drive_id),
        json_member(json_items(returned)->0[i], "device"@) is Some,
        json_string(json_member(json_items(returned)->0[i], "device"@)->0) == Some(drive_id),
    ensures
        ({
            let entry = json_items(returned)->0[i];
            let inserted = json_member(entry, "inserted"@);
            let image = json_pointed(inserted->0, "/image/filename"@);
            let plain = json_member(inserted->0, "file"@);
            &&& inserted is None ==> medium_in(returned, drive_id) is Empty
            &&& inserted is Some && image is Some ==> medium_in(returned, drive_id) == (
            match json_string(image->0) {
                Some(name) => MediumView::File(name),
                None => MediumView::Empty,
            })
            &&& inserted is Some && image is None && plain is Some ==> medium_in(
                returned,
                drive_id,
            ) == (match json_string(plain->0) {
                Some(name) => MediumView::File(name),
                None => MediumView::Empty,
            })
            &&& inserted is Some && image is None && plain is None ==> medium_in(
                returned,
                drive_id,
            ) is Empty
        }),
{
    let list = json_items(returned)->0;
    let entries = list.map_values(|t: Seq<char>| entry_of(t));
    assert forall|j: int| 0 <= j < i implies (#[trigger] entries[j]).device != Some(
        drive_id,
    ) by {
        assert(string_member(list[j], "device"@) != Some(drive_id));
    }
    assert(entries[i] == entry_of(list[i]));
    the_first_entry_of_a_drive_decides(entries, drive_id, i);
}

/// An error is shown under its kind, with what is known of it; QEMU's reason stands in quotes.
pub proof fn errors_are_shown_under_their_kind(e: String)
    ensures
        QmpError::Io(e).shown() == "Io("@ + e@ + ")"@,
        QmpError::Json(e).shown() == "Json("@ + e@ + ")"@,
        QmpError::Timeout.shown() == "Timeout"@,
        QmpError::QemuError(e).shown() == "QemuError("@ + text::debug_rendered(e@) + ")"@,
{
}

} // verus!
