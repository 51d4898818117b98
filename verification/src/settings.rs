//! The settings file: plain text, with a line `key=value` for each setting. Lines that name
//! no setting of this version survive every rewrite.

use vstd::prelude::*;

use crate::text;
use crate::text::{cat2, cat3, strip_prefix};

verus! {

/// What the line of a setting begins with.
pub open spec fn line_start(key: Seq<char>) -> Seq<char> {
    key + "="@
}

/// A line holds a value of the setting `key`.
pub open spec fn names(line: Seq<char>, key: Seq<char>) -> bool {
    text::has_prefix(line, line_start(key))
}

/// The value of a setting: that of the first line that holds one.
pub open spec fn setting(lines: Seq<Seq<char>>, key: Seq<char>) -> Option<Seq<char>>
    decreases lines.len(),
{
    if lines.len() == 0 {
        None
    } else if names(lines[0], key) {
        Some(text::without_prefix(lines[0], line_start(key)))
    } else {
        setting(lines.skip(1), key)
    }
}

/// The lines that hold no value of the setting `key`, in their order.
pub open spec fn other_lines(lines: Seq<Seq<char>>, key: Seq<char>) -> Seq<Seq<char>>
    decreases lines.len(),
{
    if lines.len() == 0 {
        Seq::empty()
    } else if names(lines.last(), key) {
        other_lines(lines.drop_last(), key)
    } else {
        other_lines(lines.drop_last(), key).push(lines.last())
    }
}

/// The lines with a setting changed: its value, if it has one, stands in the last line.
pub open spec fn rewritten(
    lines: Seq<Seq<char>>,
    key: Seq<char>,
    value: Option<Seq<char>>,
) -> Seq<Seq<char>> {
    match value {
        Some(v) => other_lines(lines, key).push(line_start(key) + v),
        None => other_lines(lines, key),
    }
}

/// Reads a setting.
pub fn read_setting(lines: &Vec<String>, key: &str) -> (r: Option<String>)
    ensures
        text::maybe(r) == setting(text::texts(lines@), key@),
{
    let start = cat2(key, "=");
    let ghost all = text::texts(lines@);
    let mut i: usize = 0;
    assert(all.skip(0) =~= all);
    while i < lines.len()
        invariant
            i <= lines@.len(),
            all == text::texts(lines@),
            start@ == line_start(key@),
            setting(all, key@) == setting(all.skip(i as int), key@),
        decreases lines@.len() - i,
    {
        assert(all.skip(i as int)[0] == lines@[i as int]@);
        assert(all.skip(i as int).skip(1) =~= all.skip(i + 1));
        if let Some(value) = strip_prefix(lines[i].as_str(), start.as_str()) {
            return Some(value.to_owned());
        }
        i += 1;
    }
    None
}

/// Changes or removes a setting.
pub fn write_setting(lines: &Vec<String>, key: &str, value: Option<String>) -> (r: Vec<String>)
    ensures
        text::texts(r@) == rewritten(text::texts(lines@), key@, text::maybe(value)),
{
    broadcast use text::lemma_texts_push;

    let start = cat2(key, "=");
    let ghost all = text::texts(lines@);
    let mut kept: Vec<String> = Vec::new();
    let mut i: usize = 0;
    assert(all.take(0) =~= Seq::empty());
    assert(text::texts(kept@) =~= other_lines(all.take(0), key@));
    while i < lines.len()
        invariant
            i <= lines@.len(),
            all == text::texts(lines@),
            start@ == line_start(key@),
            text::texts(kept@) == other_lines(all.take(i as int), key@),
        decreases lines@.len() - i,
    {
        assert(all.take(i + 1).drop_last() =~= all.take(i as int));
        assert(all.take(i + 1).last() == lines@[i as int]@);
        if strip_prefix(lines[i].as_str(), start.as_str()).is_none() {
            kept.push(lines[i].clone());
        }
        i += 1;
    }
    assert(all.take(i as int) =~= all);
    if let Some(v) = value {
        kept.push(cat3(key, "=", v.as_str()));
    }
    kept
}

proof fn lemma_other_lines_name_others(lines: Seq<Seq<char>>, key: Seq<char>)
    ensures
        forall|i: int|
            0 <= i < other_lines(lines, key).len() ==> !names(
                #[trigger] other_lines(lines, key)[i],
                key,
            ),
    decreases lines.len(),
{
    if lines.len() > 0 {
        let front = other_lines(lines.drop_last(), key);
        lemma_other_lines_name_others(lines.drop_last(), key);
        assert forall|i: int| 0 <= i < other_lines(lines, key).len() implies !names(
            #[trigger] other_lines(lines, key)[i],
            key,
        ) by {
            if i < front.len() {
                assert(other_lines(lines, key)[i] == front[i]);
            }
        }
    }
}

proof fn lemma_setting_of_last(lines: Seq<Seq<char>>, line: Seq<char>, key: Seq<char>)
    ensures
        setting(lines.push(line), key) == (match setting(lines, key) {
            Some(v) => Some(v),
            None => if names(line, key) {
                Some(text::without_prefix(line, line_start(key)))
            } else {
                None
            },
        }),
    decreases lines.len(),
{
    if lines.len() == 0 {
        assert(lines.push(line).skip(1) =~= lines);
        assert(setting(lines.push(line).skip(1), key) is None);
    } else {
        assert(lines.push(line)[0] == lines[0]);
        assert(lines.push(line).skip(1) =~= lines.skip(1).push(line));
        lemma_setting_of_last(lines.skip(1), line, key);
    }
}

proof fn lemma_no_line_no_setting(lines: Seq<Seq<char>>, key: Seq<char>)
    requires
        forall|i: int| 0 <= i < lines.len() ==> !names(#[trigger] lines[i], key),
    ensures
        setting(lines, key) is None,
    decreases lines.len(),
{
    if lines.len() > 0 {
        assert forall|i: int| 0 <= i < lines.skip(1).len() implies !names(
            #[trigger] lines.skip(1)[i],
            key,
        ) by {
            assert(lines.skip(1)[i] == lines[i + 1]);
        }
        lemma_no_line_no_setting(lines.skip(1), key);
    }
}

/// What was stored is read back, and a setting that was removed is gone.
pub proof fn stored_settings_are_read_back(
    lines: Seq<Seq<char>>,
    key: Seq<char>,
    value: Option<Seq<char>>,
)
    ensures
        setting(rewritten(lines, key, value), key) == value,
{
    lemma_other_lines_name_others(lines, key);
    lemma_no_line_no_setting(other_lines(lines, key), key);
    if let Some(v) = value {
        let line = line_start(key) + v;
        assert(line.take(line_start(key).len() as int) =~= line_start(key));
        assert(line.skip(line_start(key).len() as int) =~= v);
        lemma_setting_of_last(other_lines(lines, key), line, key);
    }
}

/// A line holds a value of one setting at most.
proof fn lemma_one_name(line: Seq<char>, key: Seq<char>, other: Seq<char>)
    requires
        names(line, key),
        key != other,
        !key.contains('='),
        !other.contains('='),
    ensures
        !names(line, other),
{
    reveal_strlit("=");
    if names(line, other) {
        let a = line_start(key);
        let b = line_start(other);
        assert(a[key.len() as int] == '=');
        assert(b[other.len() as int] == '=');
        assert forall|i: int| 0 <= i < a.len() implies line[i] == #[trigger] a[i] by {
            assert(line.take(a.len() as int)[i] == line[i]);
        }
        assert forall|i: int| 0 <= i < b.len() implies line[i] == #[trigger] b[i] by {
            assert(line.take(b.len() as int)[i] == line[i]);
        }
        if key.len() < other.len() {
            assert(other[key.len() as int] == b[key.len() as int]);
            assert(other.contains('='));
        } else if other.len() < key.len() {
            assert(key[other.len() as int] == a[other.len() as int]);
            assert(key.contains('='));
        } else {
            assert forall|i: int| 0 <= i < key.len() implies key[i] == other[i] by {
                assert(a[i] == key[i] && b[i] == other[i]);
            }
            assert(key =~= other);
        }
    }
}

proof fn lemma_other_lines_keep_settings(
    lines: Seq<Seq<char>>,
    key: Seq<char>,
    other: Seq<char>,
)
    requires
        key != other,
        !key.contains('='),
        !other.contains('='),
    ensures
        setting(other_lines(lines, key), other) == setting(lines, other),
    decreases lines.len(),
{
    if lines.len() > 0 {
        let front = lines.drop_last();
        lemma_other_lines_keep_settings(front, key, other);
        assert(front.push(lines.last()) =~= lines);
        lemma_setting_of_last(front, lines.last(), other);
        if names(lines.last(), key) {
            lemma_one_name(lines.last(), key, other);
        } else {
            lemma_setting_of_last(other_lines(front, key), lines.last(), other);
        }
    }
}

/// Storing or removing a setting leaves every other setting as it was, also one that this
/// version does not know.
pub proof fn other_settings_survive(
    lines: Seq<Seq<char>>,
    key: Seq<char>,
    value: Option<Seq<char>>,
    other: Seq<char>,
)
    requires
        key != other,
        !key.contains('='),
        !other.contains('='),
    ensures
        setting(rewritten(lines, key, value), other) == setting(lines, other),
{
    lemma_other_lines_keep_settings(lines, key, other);
    if let Some(v) = value {
        let line = line_start(key) + v;
        assert(line.take(line_start(key).len() as int) =~= line_start(key));
        lemma_one_name(line, key, other);
        lemma_setting_of_last(other_lines(lines, key), line, other);
    }
}

/// A setting has the value of the first of its lines, which is what follows the key and an
/// equals sign; without such a line it has none.
pub proof fn the_first_line_of_a_setting_counts(
    lines: Seq<Seq<char>>,
    key: Seq<char>,
    value: Seq<char>,
    i: int,
)
    requires
        0 <= i <= lines.len(),
        forall|j: int, v: Seq<char>|
            0 <= j < i ==> #[trigger] lines[j] != #[trigger] (key + seq!['='] + v),
    ensures
        i == lines.len() ==> setting(lines, key) is None,
        i < lines.len() && lines[i] == key + seq!['='] + value ==> setting(lines, key) == Some(
            value,
        ),
    decreases i,
{
    reveal_strlit("=");
    assert("="@ =~= seq!['=']);
    if i > 0 {
        let line = lines[0];
        if names(line, key) {
            let rest = text::without_prefix(line, line_start(key));
            assert(line =~= key + seq!['='] + rest);
            assert(false);
        }
        assert forall|j: int, v: Seq<char>| 0 <= j < i - 1 implies #[trigger] lines.skip(1)[j]
            != #[trigger] (key + seq!['='] + v) by {
            assert(lines.skip(1)[j] == lines[j + 1]);
        }
        the_first_line_of_a_setting_counts(lines.skip(1), key, value, i - 1);
    } else if lines.len() > 0 && lines[0] == key + seq!['='] + value {
        let line = lines[0];
        assert(line.take(line_start(key).len() as int) =~= line_start(key));
        assert(line.skip(line_start(key).len() as int) =~= value);
    }
}

/// A changed setting stands in the last line, once; in front of it stand the other lines, all
/// of them and in their order.
pub proof fn settings_are_rewritten_at_the_end(
    lines: Seq<Seq<char>>,
    line: Seq<char>,
    key: Seq<char>,
    value: Seq<char>,
)
    ensures
        rewritten(lines, key, Some(value)) == rewritten(lines, key, None).push(
            key + "="@ + value,
        ),
        rewritten(Seq::empty(), key, None) == Seq::<Seq<char>>::empty(),
        text::has_prefix(line, key + "="@) ==> rewritten(lines.push(line), key, None) == rewritten(
            lines,
            key,
            None,
        ),
        !text::has_prefix(line, key + "="@) ==> rewritten(lines.push(line), key, None)
            == rewritten(lines, key, None).push(line),
{
    assert(lines.push(line).drop_last() =~= lines);
}

} // verus!
