//! The socket_vmnet daemon, which bridges the guest's network.
//!
//! socket_vmnet runs as root and exposes a vmnet interface over a Unix socket. A watchdog
//! that is started with it ends it when the emulator's process is gone or when the socket
//! file has been removed, which is how the emulator asks for that.

use vstd::prelude::*;

use crate::text;
use crate::text::{cat2, cat3, char_vec, debug_text, decimal_text, push_text};

verus! {

/// A running socket_vmnet daemon for one QEMU instance.
#[derive(Clone, Debug)]
pub struct SocketVmnet {
    pub socket_path: String,
    /// This handle started the daemon. A daemon that was there before is in use elsewhere,
    /// and its socket is left alone.
    pub owns_daemon: bool,
}

/// A letter, a digit, an underscore or a hyphen.
pub open spec fn is_iface_char(c: char) -> bool {
    ||| 'a' <= c <= 'z'
    ||| 'A' <= c <= 'Z'
    ||| '0' <= c <= '9'
    ||| c == '_'
    ||| c == '-'
}

/// A name of one to sixteen letters, digits, underscores and hyphens.
pub open spec fn is_iface_name(name: Seq<char>) -> bool {
    &&& 0 < name.len() <= 16
    &&& forall|i: int| 0 <= i < name.len() ==> is_iface_char(#[trigger] name[i])
}

/// Whether `name` may be the name of a network interface.
pub fn is_valid_iface(name: &str) -> (r: bool)
    ensures
        r == is_iface_name(name@),
{
    let chars = char_vec(name);
    let len: usize = chars.len();
    if len == 0 || len > 16 {
        return false;
    }
    let mut i: usize = 0;
    while i < len
        invariant
            i <= len == chars@.len(),
            chars@ == name@,
            forall|j: int| 0 <= j < i ==> is_iface_char(#[trigger] name@[j]),
        decreases len - i,
    {
        let c: char = chars[i];
        let valid = ('a' <= c && c <= 'z') || ('A' <= c && c <= 'Z') || ('0' <= c && c <= '9') || c
            == '_' || c == '-';
        if !valid {
            assert(!is_iface_char(name@[i as int]));
            return false;
        }
        i += 1;
    }
    true
}

/// An error where `iface` cannot be the name of a network interface.
pub fn check_iface(iface: &str) -> (r: Result<(), String>)
    ensures
        r is Ok <==> is_iface_name(iface@),
        r is Err ==> r->Err_0@ == "invalid interface name: "@ + text::debug_rendered(iface@),
{
    if is_valid_iface(iface) {
        Ok(())
    } else {
        let shown = debug_text(iface);
        Err(cat2("invalid interface name: ", shown.as_str()))
    }
}

/// How a daemon comes to run.
#[derive(Clone, Copy, Debug, PartialEq, Eq, Structural)]
pub enum StartPlan {
    /// One is running already.
    Reuse,
    /// A new one is started, after a socket that a dead one left behind has been removed.
    Launch { remove_stale: bool },
}

/// How a daemon comes to run, given whether one accepts connections on the socket and
/// whether the socket file exists.
pub fn start_plan(accepts: bool, exists: bool) -> (r: StartPlan)
    ensures
        r == (if accepts {
            StartPlan::Reuse
        } else {
            StartPlan::Launch { remove_stale: exists }
        }),
{
    if accepts {
        StartPlan::Reuse
    } else {
        StartPlan::Launch { remove_stale: exists }
    }
}

impl SocketVmnet {
    /// The handle that a start by this plan gives.
    pub fn started(socket_path: String, plan: StartPlan) -> (r: Self)
        ensures
            r == (SocketVmnet { socket_path, owns_daemon: plan is Launch }),
    {
        let owns_daemon = match plan {
            StartPlan::Reuse => false,
            StartPlan::Launch { .. } => true,
        };
        SocketVmnet { socket_path, owns_daemon }
    }

    /// The socket that QEMU connects to.
    pub fn socket_path(&self) -> (r: &str)
        ensures
            r@ == self.socket_path@,
    {
        self.socket_path.as_str()
    }

    /// The socket that is removed when the handle goes away: the own one, and no other's.
    pub fn socket_to_remove(&self) -> (r: Option<String>)
        ensures
            r == (if self.owns_daemon {
                Some(self.socket_path)
            } else {
                None
            }),
    {
        if self.owns_daemon {
            Some(self.socket_path.clone())
        } else {
            None
        }
    }
}

/// Where the daemon's program may be, in the order of preference: next to the emulator, and
/// where Homebrew installs it.
pub open spec fn binary_places(bundled: Option<Seq<char>>) -> Seq<Seq<char>> {
    let brew = seq![
        "/opt/homebrew/bin/socket_vmnet"@,
        "/usr/local/bin/socket_vmnet"@,
        "/opt/homebrew/opt/socket_vmnet/bin/socket_vmnet"@,
    ];
    match bundled {
        Some(path) => seq![path] + brew,
        None => brew,
    }
}

/// Where the daemon's program may be. `bundled` is the place next to the emulator, where
/// that is known.
pub fn binary_candidates(bundled: Option<&str>) -> (r: Vec<String>)
    ensures
        text::texts(r@) == binary_places(
            (match bundled {
                Some(path) => Some(path@),
                None => None,
            }),
        ),
{
    let mut list: Vec<String> = Vec::new();
    if let Some(path) = bundled {
        push_text(&mut list, path);
    }
    push_text(&mut list, "/opt/homebrew/bin/socket_vmnet");
    push_text(&mut list, "/usr/local/bin/socket_vmnet");
    push_text(&mut list, "/opt/homebrew/opt/socket_vmnet/bin/socket_vmnet");
    assert(text::texts(list@) =~= binary_places(
        (match bundled {
            Some(path) => Some(path@),
            None => None,
        }),
    ));
    list
}

/// The first place that exists.
pub open spec fn first_existing(places: Seq<Seq<char>>, exists: Seq<bool>) -> Option<Seq<char>>
    decreases places.len(),
{
    if places.len() == 0 || exists.len() == 0 {
        None
    } else if exists[0] {
        Some(places[0])
    } else {
        first_existing(places.skip(1), exists.skip(1))
    }
}

/// The program of the daemon, given which of the candidates exist.
pub fn find_binary(candidates: &Vec<String>, exists: &Vec<bool>) -> (r: Result<String, String>)
    requires
        candidates@.len() == exists@.len(),
    ensures
        match first_existing(text::texts(candidates@), exists@) {
            Some(place) => r is Ok && r->Ok_0@ == place,
            None => r is Err && r->Err_0@
                == "socket_vmnet not found - run bundle.sh or install via Homebrew"@,
        },
{
    let ghost places = text::texts(candidates@);
    let len: usize = candidates.len();
    let mut i: usize = 0;
    assert(places.skip(0) =~= places);
    assert(exists@.skip(0) =~= exists@);
    while i < len
        invariant
            i <= len == candidates@.len(),
            candidates@.len() == exists@.len(),
            places == text::texts(candidates@),
            first_existing(places, exists@) == first_existing(
                places.skip(i as int),
                exists@.skip(i as int),
            ),
        decreases len - i,
    {
        assert(places.skip(i as int)[0] == candidates@[i as int]@);
        assert(exists@.skip(i as int)[0] == exists@[i as int]);
        if exists[i] {
            return Ok(candidates[i].clone());
        }
        assert(places.skip(i as int).skip(1) =~= places.skip(i + 1));
        assert(exists@.skip(i as int).skip(1) =~= exists@.skip(i + 1));
        i += 1;
    }
    Err("socket_vmnet not found - run bundle.sh or install via Homebrew".to_owned())
}

/// A character between single quotes: a single quote ends the quotes, stands escaped, and
/// opens them again.
pub open spec fn quoted_char(c: char) -> Seq<char> {
    if c == '\'' {
        seq!['\'', '\\', '\'', '\'']
    } else {
        seq![c]
    }
}

/// Characters between single quotes.
pub open spec fn quoted_chars(s: Seq<char>) -> Seq<char>
    decreases s.len(),
{
    if s.len() == 0 {
        Seq::empty()
    } else {
        quoted_chars(s.drop_last()) + quoted_char(s.last())
    }
}

/// A text as one word of a shell command.
pub open spec fn shell_word(s: Seq<char>) -> Seq<char> {
    seq!['\''] + quoted_chars(s) + seq!['\'']
}

/// Wrap a text in single quotes for /bin/sh, escaping any embedded one.
pub fn sh_quote(s: &str) -> (r: String)
    ensures
        r@ == shell_word(s@),
{
    let chars = char_vec(s);
    let len: usize = chars.len();
    let mut out = String::new();
    out.push('\'');
    let mut i: usize = 0;
    assert(s@.take(0) =~= Seq::<char>::empty());
    assert(out@ =~= seq!['\''] + quoted_chars(s@.take(0)));
    while i < len
        invariant
            i <= len == chars@.len(),
            chars@ == s@,
            out@ == seq!['\''] + quoted_chars(s@.take(i as int)),
        decreases len - i,
    {
        let c: char = chars[i];
        let ghost before = out@;
        if c == '\'' {
            out.push('\'');
            out.push('\\');
            out.push('\'');
            out.push('\'');
        } else {
            out.push(c);
        }
        assert(s@.take(i + 1).drop_last() =~= s@.take(i as int));
        assert(out@ =~= before + quoted_char(c));
        assert(out@ =~= seq!['\''] + quoted_chars(s@.take(i + 1)));
        i += 1;
    }
    assert(s@.take(len as int) =~= s@);
    out.push('\'');
    assert(out@ =~= shell_word(s@));
    out
}

/// What /bin/sh reads from a row of single-quoted parts and escaped characters: the text
/// that they stand for, and none where the row holds anything else or a part is not closed.
/// An escaped line feed is no such character: the shell joins the lines and drops it.
/// `open` says whether it begins inside a quoted part.
pub open spec fn shell_reads(row: Seq<char>, open: bool) -> Option<Seq<char>>
    decreases row.len(),
{
    if row.len() == 0 {
        if open {
            None
        } else {
            Some(Seq::empty())
        }
    } else if row[0] == '\'' {
        shell_reads(row.skip(1), !open)
    } else if open {
        match shell_reads(row.skip(1), open) {
            Some(rest) => Some(seq![row[0]] + rest),
            None => None,
        }
    } else if row[0] == '\\' && row.len() > 1 && row[1] != '\n' {
        match shell_reads(row.skip(2), open) {
            Some(rest) => Some(seq![row[1]] + rest),
            None => None,
        }
    } else {
        None
    }
}

proof fn lemma_shell_reads_quoted_chars(s: Seq<char>, tail: Seq<char>)
    ensures
        shell_reads(quoted_chars(s) + tail, true) == (match shell_reads(tail, true) {
            Some(rest) => Some(s + rest),
            None => None,
        }),
    decreases s.len(),
{
    if s.len() == 0 {
        assert(quoted_chars(s) + tail =~= tail);
        if shell_reads(tail, true) is Some {
            assert(s + shell_reads(tail, true)->0 =~= shell_reads(tail, true)->0);
        }
    } else {
        let c = s.last();
        let rest = quoted_char(c) + tail;
        assert(quoted_chars(s) + tail =~= quoted_chars(s.drop_last()) + rest);
        lemma_shell_reads_quoted_chars(s.drop_last(), rest);
        assert(shell_reads(rest, true) == (match shell_reads(tail, true) {
            Some(t) => Some(seq![c] + t),
            None => None,
        })) by {
            if c == '\'' {
                let a = rest.skip(1);
                let b = a.skip(2);
                assert(a[0] == '\\');
                assert(a[1] == '\'');
                assert(b[0] == '\'');
                assert(b.skip(1) =~= tail);
                assert(shell_reads(rest, true) == shell_reads(a, false));
                assert(shell_reads(b, false) == shell_reads(tail, true));
            } else {
                assert(rest.skip(1) =~= tail);
            }
        }
        if shell_reads(tail, true) is Some {
            let t = shell_reads(tail, true)->0;
            assert(s.drop_last() + (seq![c] + t) =~= s + t);
        }
    }
}

/// A quoted text is one word of a shell command, and the shell reads it as the text itself,
/// whatever characters it holds.
pub proof fn quoted_text_is_read_back(s: Seq<char>)
    ensures
        shell_reads(shell_word(s), false) == Some(s),
{
    let close = seq!['\''];
    let row = shell_word(s);
    assert(row.skip(1) =~= quoted_chars(s) + close);
    lemma_shell_reads_quoted_chars(s, close);
    assert(close.skip(1) =~= Seq::<char>::empty());
    assert(shell_reads(close, true) == Some(Seq::<char>::empty())) by {
        reveal_with_fuel(shell_reads, 2);
    }
    assert(s + Seq::<char>::empty() =~= s);
}

/// The mode of the daemon: bridged to an interface, or host only.
pub open spec fn mode_arguments(iface: Option<Seq<char>>) -> Seq<char> {
    match iface {
        Some(name) => "--vmnet-mode bridged --vmnet-interface "@ + shell_word(name),
        None => "--vmnet-mode host"@,
    }
}

/// The part of the command that starts the daemon.
pub open spec fn daemon_command(bin: Seq<char>, mode: Seq<char>, sock: Seq<char>) -> Seq<char> {
    "nohup "@ + bin + " "@ + mode + " "@ + sock + " >/dev/null 2>&1 &\nSV_PID=$!\n"@
}

/// The part of the command that waits: for the socket to appear, and then for the
/// emulator or the socket to go away.
pub open spec fn wait_command(sock: Seq<char>, ppid: Seq<char>) -> Seq<char> {
    "( trap '' HUP\n  i=0\n  while [ $i -lt 40 ] && [ ! -S "@ + sock
        + " ]; do sleep 0.1; i=$((i+1)); done\n  while kill -0 "@ + ppid
        + " 2>/dev/null && [ -S "@ + sock + " ]; do sleep 1; done\n"@
}

/// The part of the command that ends the daemon and removes its socket.
pub open spec fn reap_command(sock: Seq<char>) -> Seq<char> {
    "  kill \"$SV_PID\" 2>/dev/null\n  sleep 0.3\n  kill -9 \"$SV_PID\" 2>/dev/null\n  rm -f "@
        + sock + "\n) </dev/null >/dev/null 2>&1 &\n"@
}

/// The command that runs as root: it starts the daemon and its watchdog.
pub open spec fn launch_command(
    bin: Seq<char>,
    iface: Option<Seq<char>>,
    socket: Seq<char>,
    parent_pid: u32,
) -> Seq<char> {
    let sock = shell_word(socket);
    daemon_command(shell_word(bin), mode_arguments(iface), sock) + wait_command(
        sock,
        text::decimal(parent_pid as nat),
    ) + reap_command(sock)
}

fn build_daemon_command(bin: &str, mode: &str, sock: &str) -> (r: String)
    ensures
        r@ == daemon_command(bin@, mode@, sock@),
{
    let a = cat3("nohup ", bin, " ");
    let b = cat3(a.as_str(), mode, " ");
    cat3(b.as_str(), sock, " >/dev/null 2>&1 &\nSV_PID=$!\n")
}

fn build_wait_command(sock: &str, ppid: &str) -> (r: String)
    ensures
        r@ == wait_command(sock@, ppid@),
{
    let a = cat3(
        "( trap '' HUP\n  i=0\n  while [ $i -lt 40 ] && [ ! -S ",
        sock,
        " ]; do sleep 0.1; i=$((i+1)); done\n  while kill -0 ",
    );
    let b = cat3(a.as_str(), ppid, " 2>/dev/null && [ -S ");
    cat3(b.as_str(), sock, " ]; do sleep 1; done\n")
}

/// The command that runs as root: it starts the daemon, bridged to `iface` or host only,
/// and its watchdog.
pub fn build_launch_command(
    bin: &str,
    iface: Option<&str>,
    socket: &str,
    parent_pid: u32,
) -> (r: String)
    ensures
        r@ == launch_command(
            bin@,
            (match iface {
                Some(name) => Some(name@),
                None => None,
            }),
            socket@,
            parent_pid,
        ),
{
    let bin_q = sh_quote(bin);
    let mode = match iface {
        Some(name) => cat2("--vmnet-mode bridged --vmnet-interface ", sh_quote(name).as_str()),
        None => "--vmnet-mode host".to_owned(),
    };
    let sock_q = sh_quote(socket);
    let daemon = build_daemon_command(bin_q.as_str(), mode.as_str(), sock_q.as_str());
    let wait = build_wait_command(sock_q.as_str(), decimal_text(parent_pid as u128).as_str());
    let reap = cat3(
        "  kill \"$SV_PID\" 2>/dev/null\n  sleep 0.3\n  kill -9 \"$SV_PID\" 2>/dev/null\n  rm -f ",
        sock_q.as_str(),
        "\n) </dev/null >/dev/null 2>&1 &\n",
    );
    cat3(daemon.as_str(), wait.as_str(), reap.as_str())
}

/// Run a shell command as root, on a host other than macOS: macOS alone has a way to ask the
/// user for that, so it is an error.
pub fn run_elevated(_sh_cmd: &str) -> (r: Result<(), String>)
    ensures
        r is Err,
        r->Err_0@ == "macOS Authorization Services are unavailable on this host"@,
{
    Err("macOS Authorization Services are unavailable on this host".to_owned())
}

/// The ASCII code of a letter or a digit, of the hyphen or of the underscore.
pub open spec fn is_plain_code(code: int) -> bool {
    ||| 48 <= code <= 57
    ||| 65 <= code <= 90
    ||| 97 <= code <= 122
    ||| code == 45
    ||| code == 95
}

/// A name of an interface is made of the ASCII letters and digits, the underscore and the
/// hyphen, sixteen at the most. So each of its beginnings is such a name.
pub proof fn interface_names_are_short_and_plain(name: Seq<char>, n: int)
    ensures
        is_iface_name(name) <==> 1 <= name.len() <= 16 && (forall|i: int|
            0 <= i < name.len() ==> is_plain_code(#[trigger] name[i] as int)),
        is_iface_name(name) && 1 <= n <= name.len() ==> is_iface_name(name.take(n)),
        !is_iface_name(Seq::empty()),
{
    assert forall|c: char| is_iface_char(c) == is_plain_code(c as int) by {}
    if is_iface_name(name) {
        assert forall|i: int| 0 <= i < name.len() implies is_plain_code(
            #[trigger] name[i] as int,
        ) by {
            assert(is_iface_char(name[i]));
        }
        if 1 <= n <= name.len() {
            assert forall|i: int| 0 <= i < n implies is_iface_char(
                #[trigger] name.take(n)[i],
            ) by {
                assert(is_iface_char(name[i]));
            }
        }
    } else if 1 <= name.len() <= 16 {
        let i = choose|i: int| 0 <= i < name.len() && !is_iface_char(#[trigger] name[i]);
        assert(!is_plain_code(name[i] as int));
    }
}

/// The place next to the emulator, where it is known, is looked at first; the three places of
/// Homebrew follow, in the same order either way.
pub proof fn the_bundled_program_is_preferred(bundled: Seq<char>)
    ensures
        binary_places(Some(bundled)).len() == 4,
        binary_places(Some(bundled))[0] == bundled,
        binary_places(Some(bundled)).skip(1) == binary_places(None),
        binary_places(None)[0] == "/opt/homebrew/bin/socket_vmnet"@,
        binary_places(None)[1] == "/usr/local/bin/socket_vmnet"@,
        binary_places(None)[2] == "/opt/homebrew/opt/socket_vmnet/bin/socket_vmnet"@,
{
    assert(binary_places(Some(bundled)).skip(1) =~= binary_places(None));
}

/// The program that is taken is at the first of the places that exists; none is taken where
/// none exists.
pub proof fn the_first_place_that_exists_is_taken(
    places: Seq<Seq<char>>,
    exists: Seq<bool>,
    i: int,
)
    requires
        places.len() == exists.len(),
        0 <= i <= places.len(),
        forall|j: int| 0 <= j < i ==> !#[trigger] exists[j],
    ensures
        i == places.len() ==> first_existing(places, exists) is None,
        i < places.len() && exists[i] ==> first_existing(places, exists) == Some(places[i]),
    decreases i,
{
    if i > 0 {
        assert(!exists[0]);
        assert forall|j: int| 0 <= j < i - 1 implies !#[trigger] exists.skip(1)[j] by {
            assert(!exists[j + 1]);
        }
        the_first_place_that_exists_is_taken(places.skip(1), exists.skip(1), i - 1);
    }
}

/// The command starts the program, in the mode that was asked for, on the socket; its
/// watchdog waits up to four seconds for that socket, stays as long as the emulator's process
/// and the socket are there, and then ends the daemon and removes the socket.
pub proof fn daemons_are_started_with_their_watchdog(
    bin: Seq<char>,
    iface: Option<Seq<char>>,
    socket: Seq<char>,
    parent_pid: u32,
)
    ensures
        ({
            let sock = shell_word(socket);
            let mode = match iface {
                Some(name) => "--vmnet-mode bridged --vmnet-interface "@ + shell_word(name),
                None => "--vmnet-mode host"@,
            };
            launch_command(bin, iface, socket, parent_pid) == ("nohup "@ + shell_word(bin) + " "@
                + mode + " "@ + sock + " >/dev/null 2>&1 &\nSV_PID=$!\n"@) + (
            "( trap '' HUP\n  i=0\n  while [ $i -lt 40 ] && [ ! -S "@ + sock
                + " ]; do sleep 0.1; i=$((i+1)); done\n  while kill -0 "@ + text::decimal(
                parent_pid as nat,
            ) + " 2>/dev/null && [ -S "@ + sock + " ]; do sleep 1; done\n"@) + (
            "  kill \"$SV_PID\" 2>/dev/null\n  sleep 0.3\n  kill -9 \"$SV_PID\" 2>/dev/null\n  rm -f "@
                + sock + "\n) </dev/null >/dev/null 2>&1 &\n"@)
        }),
{
}

} // verus!
