//! The list of files that goes into an archive, in a fixed order.

use vstd::prelude::*;

use crate::text;
use crate::text::{char_vec, skip_line, text_of, utf8_text};

verus! {

/// A line without the carriage return at its end.
pub open spec fn without_return(line: Seq<char>) -> Seq<char> {
    if line.len() > 0 && line.last() == '\r' {
        line.drop_last()
    } else {
        line
    }
}

/// The lines of a text. A line ends with a line feed, or with a carriage return and a
/// line feed; the last line may lack its end.
pub open spec fn lines(s: Seq<char>) -> Seq<Seq<char>>
    decreases s.len(),
{
    let n = text::line_length(s) as int;
    if s.len() == 0 {
        Seq::empty()
    } else if n < s.len() {
        seq![without_return(s.take(n))] + lines(s.skip(n + 1))
    } else {
        seq![s]
    }
}

/// The order of texts: by their first difference, and a beginning before the whole.
pub open spec fn in_order(a: Seq<char>, b: Seq<char>) -> bool
    decreases a.len(),
{
    if a.len() == 0 {
        true
    } else if b.len() == 0 {
        false
    } else if a[0] != b[0] {
        a[0] < b[0]
    } else {
        in_order(a.skip(1), b.skip(1))
    }
}

/// A list in ascending order.
pub open spec fn is_sorted(list: Seq<Seq<char>>) -> bool {
    forall|i: int, j: int| 0 <= i <= j < list.len() ==> in_order(#[trigger] list[i], #[trigger] list[j])
}

/// Texts with a line feed between each two of them.
pub open spec fn joined_lines(list: Seq<Seq<char>>) -> Seq<char>
    decreases list.len(),
{
    if list.len() == 0 {
        Seq::empty()
    } else if list.len() == 1 {
        list[0]
    } else {
        joined_lines(list.drop_last()) + "\n"@ + list.last()
    }
}

/// A text reads as a list of lines, sorted.
pub open spec fn is_sorted_listing(listing: Seq<char>, source: Seq<char>) -> bool {
    exists|list: Seq<Seq<char>>|
        is_sorted(list) && list.to_multiset() == lines(source).to_multiset() && listing
            == #[trigger] joined_lines(list)
}

proof fn lemma_order_is_reflexive(a: Seq<char>)
    ensures
        in_order(a, a),
    decreases a.len(),
{
    if a.len() > 0 {
        lemma_order_is_reflexive(a.skip(1));
    }
}

proof fn lemma_order_is_total(a: Seq<char>, b: Seq<char>)
    ensures
        in_order(a, b) || in_order(b, a),
    decreases a.len(),
{
    if a.len() > 0 && b.len() > 0 && a[0] == b[0] {
        lemma_order_is_total(a.skip(1), b.skip(1));
    }
}

proof fn lemma_order_is_transitive(a: Seq<char>, b: Seq<char>, c: Seq<char>)
    requires
        in_order(a, b),
        in_order(b, c),
    ensures
        in_order(a, c),
    decreases a.len(),
{
    if a.len() > 0 && b.len() > 0 && c.len() > 0 && a[0] == b[0] && b[0] == c[0] {
        lemma_order_is_transitive(a.skip(1), b.skip(1), c.skip(1));
    }
}

proof fn lemma_order_is_antisymmetric(a: Seq<char>, b: Seq<char>)
    requires
        in_order(a, b),
        in_order(b, a),
    ensures
        a == b,
    decreases a.len(),
{
    if a.len() > 0 && b.len() > 0 {
        lemma_order_is_antisymmetric(a.skip(1), b.skip(1));
        assert(a =~= seq![a[0]] + a.skip(1));
        assert(b =~= seq![b[0]] + b.skip(1));
    } else {
        assert(a =~= b);
    }
}

/// Whether `a` comes before `b` or equals it.
fn is_in_order(a: &Vec<char>, b: &Vec<char>) -> (r: bool)
    ensures
        r == in_order(a@, b@),
{
    let mut i: usize = 0;
    assert(a@.skip(0) =~= a@);
    assert(b@.skip(0) =~= b@);
    while i < a.len() && i < b.len()
        invariant
            0 <= i <= a@.len(),
            i <= b@.len(),
            in_order(a@.skip(i as int), b@.skip(i as int)) == in_order(a@, b@),
        decreases a@.len() - i,
    {
        assert(a@.skip(i as int).skip(1) =~= a@.skip(i + 1));
        assert(b@.skip(i as int).skip(1) =~= b@.skip(i + 1));
        if a[i] != b[i] {
            return a[i] < b[i];
        }
        i = i + 1;
    }
    i == a.len()
}

/// The texts that a list holds.
spec fn char_views(list: Seq<Vec<char>>) -> Seq<Seq<char>> {
    list.map_values(|v: Vec<char>| v@)
}

/// The lines of a text.
fn split_lines(chars: &Vec<char>) -> (r: Vec<Vec<char>>)
    ensures
        char_views(r@) == lines(chars@),
{
    let mut out: Vec<Vec<char>> = Vec::new();
    let mut pos: usize = 0;
    assert(chars@.skip(0) =~= chars@);
    assert(char_views(out@) + lines(chars@) =~= lines(chars@));
    while pos < chars.len()
        invariant
            0 <= pos <= chars@.len(),
            char_views(out@) + lines(chars@.skip(pos as int)) == lines(chars@),
        decreases chars@.len() - pos,
    {
        let ghost rest = chars@.skip(pos as int);
        let ghost before = out@;
        let end: usize = skip_line(chars.as_slice(), pos);
        assert(rest.take(end - pos) =~= chars@.subrange(pos as int, end as int));
        let mut stop: usize = end;
        if end < chars.len() && end > pos && chars[end - 1] == '\r' {
            stop = end - 1;
        }
        let line = copy_range(chars, pos, stop);
        out.push(line);
        assert(char_views(out@) =~= char_views(before).push(line@));
        if end < chars.len() {
            assert(line@ =~= without_return(rest.take(end - pos)));
            assert(rest.skip(end - pos + 1) =~= chars@.skip(end + 1));
            pos = end + 1;
        } else {
            assert(line@ =~= rest);
            assert(chars@.skip(end as int) =~= Seq::empty());
            assert(lines(Seq::<char>::empty()) =~= Seq::empty());
            pos = end;
        }
        assert(char_views(before) + (seq![line@] + lines(chars@.skip(pos as int))) =~= char_views(
            out@,
        ) + lines(chars@.skip(pos as int)));
        assert(seq![line@] + Seq::<Seq<char>>::empty() =~= seq![line@]);
    }
    assert(chars@.skip(pos as int) =~= Seq::empty());
    assert(char_views(out@) + Seq::<Seq<char>>::empty() =~= char_views(out@));
    out
}

fn copy_range(chars: &Vec<char>, from: usize, to: usize) -> (r: Vec<char>)
    requires
        from <= to <= chars@.len(),
    ensures
        r@ == chars@.subrange(from as int, to as int),
{
    let mut out: Vec<char> = Vec::new();
    let mut i: usize = from;
    while i < to
        invariant
            from <= i <= to <= chars@.len(),
            out@ == chars@.subrange(from as int, i as int),
        decreases to - i,
    {
        out.push(chars[i]);
        i = i + 1;
        assert(out@ =~= chars@.subrange(from as int, i as int));
    }
    out
}

/// Puts a line into a sorted list.
fn insert_sorted(list: &mut Vec<Vec<char>>, line: Vec<char>)
    requires
        is_sorted(char_views(old(list)@)),
    ensures
        is_sorted(char_views(final(list)@)),
        char_views(final(list)@).to_multiset() == char_views(old(list)@).to_multiset().insert(
            line@,
        ),
{
    let ghost before = char_views(list@);
    let mut k: usize = list.len();
    while k > 0 && !is_in_order(&list[k - 1], &line)
        invariant
            k <= list@.len(),
            before == char_views(list@),
            is_sorted(before),
            forall|j: int| k <= j < before.len() ==> in_order(line@, #[trigger] before[j]),
        decreases k,
    {
        proof {
            lemma_order_is_total(before[k - 1], line@);
        }
        k = k - 1;
    }
    let ghost x = line@;
    list.insert(k, line);
    proof {
        let after = char_views(list@);
        assert(after =~= before.insert(k as int, x));
        vstd::seq_lib::to_multiset_insert(before, k as int, x);
        assert forall|i: int, j: int| 0 <= i <= j < after.len() implies in_order(
            #[trigger] after[i],
            #[trigger] after[j],
        ) by {
            if i == k && j == k {
                lemma_order_is_reflexive(x);
            } else if j == k {
                lemma_order_is_transitive(before[i], before[k - 1], x);
            } else if i < k && j < k {
                assert(in_order(before[i], before[j]));
            } else if i < k {
                assert(in_order(before[i], before[j - 1]));
            } else if i == k {
                assert(in_order(x, before[j - 1]));
            } else {
                assert(in_order(before[i - 1], before[j - 1]));
            }
        }
    }
}

/// The file list for the archiver, made from what `find` printed: its lines, sorted.
/// Output that is not text counts as empty.
pub fn sorted_listing(find_output: Vec<u8>) -> (r: String)
    ensures
        vstd::utf8::valid_utf8(find_output@) ==> is_sorted_listing(
            r@,
            vstd::utf8::decode_utf8(find_output@),
        ),
        !vstd::utf8::valid_utf8(find_output@) ==> r@ == Seq::<char>::empty(),
{
    let listing = match utf8_text(find_output) {
        Some(t) => t,
        None => {
            return String::new();
        },
    };
    let chars = char_vec(listing.as_str());
    let unsorted = split_lines(&chars);
    let ghost all = char_views(unsorted@);
    let mut sorted: Vec<Vec<char>> = Vec::new();
    let mut i: usize = 0;
    assert(char_views(sorted@) =~= all.take(0));
    while i < unsorted.len()
        invariant
            0 <= i <= unsorted@.len(),
            all == char_views(unsorted@),
            is_sorted(char_views(sorted@)),
            char_views(sorted@).to_multiset() == all.take(i as int).to_multiset(),
        decreases unsorted@.len() - i,
    {
        let line = copy_range(&unsorted[i], 0, unsorted[i].len());
        assert(line@ =~= all[i as int]);
        insert_sorted(&mut sorted, line);
        proof {
            vstd::seq_lib::to_multiset_build(all.take(i as int), all[i as int]);
            assert(all.take(i + 1) =~= all.take(i as int).push(all[i as int]));
        }
        i = i + 1;
    }
    assert(all.take(all.len() as int) =~= all);
    let ghost list = char_views(sorted@);
    let mut out = String::new();
    let mut j: usize = 0;
    assert(list.take(0) =~= Seq::empty());
    while j < sorted.len()
        invariant
            0 <= j <= sorted@.len(),
            list == char_views(sorted@),
            out@ == joined_lines(list.take(j as int)),
        decreases sorted@.len() - j,
    {
        let line = text_of(sorted[j].as_slice(), 0, sorted[j].len());
        assert(line@ =~= list[j as int]);
        assert(list.take(j + 1).drop_last() =~= list.take(j as int));
        if j > 0 {
            out.append("\n");
        }
        out.append(line.as_str());
        assert(out@ =~= joined_lines(list.take(j + 1)));
        j = j + 1;
    }
    assert(list.take(list.len() as int) =~= list);
    assert(is_sorted_listing(out@, listing@));
    out
}

/// There is only one sorted list of given texts: the archive's order depends on the
/// files alone.
pub proof fn sorted_lists_are_unique(a: Seq<Seq<char>>, b: Seq<Seq<char>>)
    requires
        is_sorted(a),
        is_sorted(b),
        a.to_multiset() == b.to_multiset(),
    ensures
        a == b,
{
    let order = |x: Seq<char>, y: Seq<char>| in_order(x, y);
    assert(vstd::relations::sorted_by(a, order)) by {
        assert forall|i: int, j: int| 0 <= i < j < a.len() implies #[trigger] order(a[i], a[j]) by {
            assert(in_order(a[i], a[j]));
        }
    }
    assert(vstd::relations::sorted_by(b, order)) by {
        assert forall|i: int, j: int| 0 <= i < j < b.len() implies #[trigger] order(b[i], b[j]) by {
            assert(in_order(b[i], b[j]));
        }
    }
    assert forall|x: Seq<char>| #[trigger] order(x, x) by {
        lemma_order_is_reflexive(x);
    }
    assert forall|x: Seq<char>, y: Seq<char>| #[trigger] order(x, y) && #[trigger] order(
        y,
        x,
    ) implies x == y by {
        lemma_order_is_antisymmetric(x, y);
    }
    assert forall|x: Seq<char>, y: Seq<char>, z: Seq<char>| #[trigger] order(x, y)
        && #[trigger] order(y, z) implies order(x, z) by {
        lemma_order_is_transitive(x, y, z);
    }
    assert forall|x: Seq<char>, y: Seq<char>| #[trigger] order(x, y) || #[trigger] order(
        y,
        x,
    ) by {
        lemma_order_is_total(x, y);
    }
    vstd::seq_lib::lemma_sorted_unique(a, b, order);
}

/// Two texts are ordered by the first character in which they differ; where one is the
/// beginning of the other, it comes first.
pub proof fn texts_are_ordered_by_their_first_difference(
    start: Seq<char>,
    a: char,
    x: Seq<char>,
    b: char,
    y: Seq<char>,
)
    ensures
        a != b ==> (in_order(start + seq![a] + x, start + seq![b] + y) <==> a < b),
        in_order(start, start + x),
        x.len() > 0 ==> !in_order(start + x, start),
    decreases start.len(),
{
    if start.len() == 0 {
        assert((start + seq![a] + x)[0] == a);
        assert((start + seq![b] + y)[0] == b);
    } else {
        let rest = start.skip(1);
        texts_are_ordered_by_their_first_difference(rest, a, x, b, y);
        assert((start + seq![a] + x).skip(1) =~= rest + seq![a] + x);
        assert((start + seq![b] + y).skip(1) =~= rest + seq![b] + y);
        assert((start + x).skip(1) =~= rest + x);
        assert((start + seq![a] + x)[0] == start[0]);
        assert((start + seq![b] + y)[0] == start[0]);
        assert((start + x)[0] == start[0]);
    }
}

/// A listing is read line by line: a line ends with a line feed, a carriage return in front of
/// it is no part of the line, and what stands behind the last line feed is a line of its own.
pub proof fn lines_end_with_a_line_feed(line: Seq<char>, rest: Seq<char>)
    requires
        forall|i: int| 0 <= i < line.len() ==> #[trigger] line[i] != '\n',
    ensures
        lines(Seq::empty()) == Seq::<Seq<char>>::empty(),
        line.len() > 0 ==> lines(line) == seq![line],
        line.len() == 0 || line.last() != '\r' ==> lines(line + seq!['\n'] + rest) == seq![line]
            + lines(rest),
        lines(line + seq!['\r', '\n'] + rest) == seq![line] + lines(rest),
{
    let p = |c: char| c != '\n';
    let n = line.len() as int;
    text::lemma_run_length(line, p, n);
    let plain = line + seq!['\n'] + rest;
    text::lemma_run_length(plain, p, n);
    assert(plain.take(n) =~= line);
    assert(plain.skip(n + 1) =~= rest);
    let returned = line + seq!['\r', '\n'] + rest;
    assert forall|i: int| 0 <= i < n + 1 implies p(#[trigger] returned[i]) by {
        if i < n {
            assert(returned[i] == line[i]);
        }
    }
    text::lemma_run_length(returned, p, n + 1);
    assert(returned.take(n + 1) =~= line.push('\r'));
    assert(line.push('\r').drop_last() =~= line);
    assert(returned.skip(n + 2) =~= rest);
}

/// The lines of the list that is handed on stand in their order, with a line feed between each
/// two and none at the end.
pub proof fn listed_lines_are_separated(list: Seq<Seq<char>>, line: Seq<char>)
    ensures
        joined_lines(Seq::empty()) == Seq::<char>::empty(),
        list.len() == 0 ==> joined_lines(list.push(line)) == line,
        list.len() > 0 ==> joined_lines(list.push(line)) == joined_lines(list) + "\n"@ + line,
{
    assert(list.push(line).drop_last() =~= list);
}

/// What is listed depends on the lines alone, and not on the order in which they were found:
/// two listings of the same lines are the same text. It is that of the sorted lines.
pub proof fn listings_depend_on_the_lines_alone(
    listing: Seq<char>,
    other: Seq<char>,
    source: Seq<char>,
    reordered: Seq<char>,
    sorted: Seq<Seq<char>>,
)
    requires
        is_sorted_listing(listing, source),
        is_sorted_listing(other, reordered),
        lines(source).to_multiset() == lines(reordered).to_multiset(),
        is_sorted(sorted),
        sorted.to_multiset() == lines(source).to_multiset(),
    ensures
        listing == other,
        listing == joined_lines(sorted),
{
    let a = choose|list: Seq<Seq<char>>|
        is_sorted(list) && list.to_multiset() == lines(source).to_multiset() && listing
            == #[trigger] joined_lines(list);
    let b = choose|list: Seq<Seq<char>>|
        is_sorted(list) && list.to_multiset() == lines(reordered).to_multiset() && other
            == #[trigger] joined_lines(list);
    sorted_lists_are_unique(a, b);
    sorted_lists_are_unique(a, sorted);
}

} // verus!
