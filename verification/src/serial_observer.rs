//! The serial milestone: finding "Application Started" in a growing log.

use vstd::prelude::*;

use crate::text::bytes_eq;

verus! {

/// What a guest writes to its serial console when its application has started.
pub const MILESTONE: &'static str = "Application Started";

/// How much of an unfinished line is kept.
pub const MAX_PENDING: usize = 4096;

/// The milestone as bytes.
pub open spec fn milestone() -> Seq<u8> {
    vstd::utf8::encode_utf8(MILESTONE@)
}

/// The milestone stands at position `k`.
pub open spec fn milestone_at(data: Seq<u8>, k: int) -> bool {
    0 <= k && k + milestone().len() <= data.len() && data.subrange(
        k,
        k + milestone().len() as int,
    ) == milestone()
}

/// The milestone stands in a finished line.
pub open spec fn has_milestone(data: Seq<u8>) -> bool {
    exists|k: int, j: int|
        #[trigger] milestone_at(data, k) && k + milestone().len() <= j < data.len()
            && #[trigger] data[j] == 10
}

/// What follows the last line feed.
pub open spec fn unfinished_line(data: Seq<u8>) -> Seq<u8>
    decreases data.len(),
{
    if data.len() == 0 || data.last() == 10 {
        Seq::empty()
    } else {
        unfinished_line(data.drop_last()).push(data.last())
    }
}

/// What is kept of an unfinished line: all of it, or, if it is too long, as much
/// as the milestone is long.
pub open spec fn kept(line: Seq<u8>) -> Seq<u8> {
    if line.len() > MAX_PENDING {
        line.skip(line.len() - milestone().len())
    } else {
        line
    }
}

/// A reader of one launch's serial log.
pub struct SerialObserver {
    offset: usize,
    pending: Vec<u8>,
}

/// What a [`SerialObserver`] holds: how much of the log it has read, and the
/// unfinished line at its end.
pub struct SerialObserverView {
    pub offset: nat,
    pub pending: Seq<u8>,
}

impl View for SerialObserver {
    type V = SerialObserverView;

    closed spec fn view(&self) -> SerialObserverView {
        SerialObserverView { offset: self.offset as nat, pending: self.pending@ }
    }
}

impl SerialObserverView {
    /// Nothing read yet.
    pub open spec fn fresh() -> SerialObserverView {
        SerialObserverView { offset: 0, pending: Seq::empty() }
    }

    /// What there is to examine when the log holds `log`. A log that has become
    /// shorter is read from its beginning.
    pub open spec fn data(self, log: Seq<u8>) -> Seq<u8> {
        if log.len() < self.offset {
            log
        } else {
            self.pending + log.skip(self.offset as int)
        }
    }

    /// The observer after it has read `log`.
    pub open spec fn after(self, log: Seq<u8>) -> SerialObserverView {
        SerialObserverView { offset: log.len(), pending: kept(unfinished_line(self.data(log))) }
    }
}

proof fn lemma_milestone()
    ensures
        milestone().len() == 19,
        forall|i: int| 0 <= i < milestone().len() ==> #[trigger] milestone()[i] != 10,
{
    reveal_strlit("Application Started");
    assert(vstd::utf8::is_ascii_chars(MILESTONE@));
    vstd::utf8::is_ascii_chars_encode_utf8(MILESTONE@);
    assert forall|i: int| 0 <= i < milestone().len() implies #[trigger] milestone()[i] != 10 by {
        assert(MILESTONE@[i] as u8 == milestone()[i]);
    }
}

/// The unfinished line is what follows the last line feed.
proof fn lemma_unfinished_line(data: Seq<u8>, p: int)
    requires
        -1 <= p < data.len(),
        p >= 0 ==> data[p] == 10,
        forall|i: int| p < i < data.len() ==> #[trigger] data[i] != 10,
    ensures
        unfinished_line(data) == data.skip(p + 1),
    decreases data.len(),
{
    if data.len() == 0 || data.last() == 10 {
        assert(data.skip(p + 1) =~= Seq::empty());
    } else {
        lemma_unfinished_line(data.drop_last(), p);
        assert(data.drop_last().skip(p + 1).push(data.last()) =~= data.skip(p + 1));
    }
}

/// Where the last line feed stands, or -1.
spec fn last_line_feed(data: Seq<u8>) -> int {
    data.len() - unfinished_line(data).len() - 1
}

proof fn lemma_last_line_feed(data: Seq<u8>)
    ensures
        -1 <= last_line_feed(data) < data.len(),
        last_line_feed(data) >= 0 ==> data[last_line_feed(data)] == 10,
        forall|i: int| last_line_feed(data) < i < data.len() ==> #[trigger] data[i] != 10,
        unfinished_line(data) == data.skip(last_line_feed(data) + 1),
    decreases data.len(),
{
    if data.len() == 0 || data.last() == 10 {
        assert(data.skip(data.len() as int) =~= Seq::empty());
    } else {
        let d = data.drop_last();
        lemma_last_line_feed(d);
        assert(last_line_feed(data) == last_line_feed(d));
        assert forall|i: int| last_line_feed(data) < i < data.len() implies #[trigger] data[i]
            != 10 by {
            if i < d.len() {
                assert(d[i] == data[i]);
            }
        }
        assert(unfinished_line(data) =~= data.skip(last_line_feed(data) + 1));
    }
}

impl SerialObserver {
    /// An observer that has read nothing.
    pub fn new() -> (r: Self)
        ensures
            r@ == SerialObserverView::fresh(),
    {
        SerialObserver { offset: 0, pending: Vec::new() }
    }

    /// Reads the log again, and says whether the milestone stands in a line that
    /// has been finished since.
    pub fn observe(&mut self, log: &[u8]) -> (r: bool)
        ensures
            r == has_milestone(old(self)@.data(log@)),
            final(self)@ == old(self)@.after(log@),
    {
        if log.len() < self.offset {
            self.offset = 0;
            self.pending.clear();
        }
        let start: usize = self.offset;
        let mut i: usize = start;
        let ghost before = self.pending@;
        assert(old(self)@.data(log@) =~= before + log@.skip(start as int));
        while i < log.len()
            invariant
                start <= i <= log@.len(),
                self.pending@ == before + log@.subrange(start as int, i as int),
            decreases log@.len() - i,
        {
            self.pending.push(log[i]);
            i = i + 1;
            assert(self.pending@ =~= before + log@.subrange(start as int, i as int));
        }
        self.offset = log.len();
        let ghost data = self.pending@;
        assert(data =~= old(self)@.data(log@));
        let end: usize = self.finished();
        let found = self.find_milestone(end);
        let line: usize = self.pending.len() - end;
        proof {
            lemma_milestone();
            lemma_last_line_feed(data);
        }
        let drop: usize = if line > MAX_PENDING {
            end + (line - 19)
        } else {
            end
        };
        self.drop_front(drop);
        assert(self.pending@ =~= kept(unfinished_line(data)));
        found
    }

    /// How many bytes belong to finished lines.
    fn finished(&self) -> (r: usize)
        ensures
            r == last_line_feed(self.pending@) + 1,
    {
        let mut end: usize = self.pending.len();
        while end > 0 && self.pending[end - 1] != 10
            invariant
                end <= self.pending@.len(),
                forall|i: int| end <= i < self.pending@.len() ==> #[trigger] self.pending@[i] != 10,
            decreases end,
        {
            end = end - 1;
        }
        proof {
            lemma_unfinished_line(self.pending@, end - 1);
        }
        end
    }

    /// Whether the milestone stands before position `end`.
    fn find_milestone(&self, end: usize) -> (r: bool)
        requires
            end == last_line_feed(self.pending@) + 1,
        ensures
            r == has_milestone(self.pending@),
    {
        let mark = MILESTONE.as_bytes();
        let ghost data = self.pending@;
        proof {
            lemma_milestone();
            lemma_last_line_feed(data);
        }
        let n: usize = mark.len();
        let len: usize = self.pending.len();
        let mut k: usize = 0;
        while k + n < end
            invariant
                end <= len == self.pending@.len(),
                data == self.pending@,
                mark@ == milestone(),
                n == milestone().len(),
                k + n <= end || k == 0,
                k + n <= usize::MAX,
                n == 19,
                end == last_line_feed(data) + 1,
                end > 0 ==> data[end - 1] == 10,
                forall|i: int| 0 <= i < k ==> !#[trigger] milestone_at(data, i),
            decreases end - k,
        {
            let window = vstd::slice::slice_subrange(self.pending.as_slice(), k, k + n);
            if bytes_eq(window, mark) {
                assert(milestone_at(data, k as int));
                assert(data[end - 1] == 10);
                return true;
            }
            assert(!milestone_at(data, k as int));
            k = k + 1;
        }
        assert(!has_milestone(data)) by {
            if has_milestone(data) {
                let (i, j) = choose|i: int, j: int|
                    #[trigger] milestone_at(data, i) && i + milestone().len() <= j < data.len()
                        && #[trigger] data[j] == 10;
                assert(j < end);
                assert(i < k);
            }
        }
        false
    }

    /// Drops the first `n` bytes.
    fn drop_front(&mut self, n: usize)
        requires
            n <= old(self)@.pending.len(),
        ensures
            final(self)@ == (SerialObserverView {
                pending: old(self)@.pending.skip(n as int),
                ..old(self)@
            }),
    {
        let rest = self.pending.split_off(n);
        self.pending = rest;
        assert(self.pending@ =~= old(self).pending@.skip(n as int));
    }
}

/// Every line is short enough to be kept.
pub open spec fn lines_are_short(log: Seq<u8>) -> bool {
    forall|n: int| 0 <= n <= log.len() ==> unfinished_line(#[trigger] log.take(n)).len()
        <= MAX_PENDING
}

/// Each snapshot of a log continues the one before it.
pub open spec fn grows(snapshots: Seq<Seq<u8>>) -> bool {
    forall|i: int, j: int|
        0 <= i <= j < snapshots.len() ==> (#[trigger] snapshots[i]).len() <= (
        #[trigger] snapshots[j]).len() && snapshots[j].take(snapshots[i].len() as int)
            == snapshots[i]
}

/// The observer after a series of snapshots.
pub open spec fn after_all(snapshots: Seq<Seq<u8>>) -> SerialObserverView
    decreases snapshots.len(),
{
    if snapshots.len() == 0 {
        SerialObserverView::fresh()
    } else {
        after_all(snapshots.drop_last()).after(snapshots.last())
    }
}

/// The observer reports the milestone on one of the snapshots.
pub open spec fn reports(snapshots: Seq<Seq<u8>>) -> bool
    decreases snapshots.len(),
{
    if snapshots.len() == 0 {
        false
    } else {
        reports(snapshots.drop_last()) || has_milestone(
            after_all(snapshots.drop_last()).data(snapshots.last()),
        )
    }
}

/// What `log` holds beyond its finished lines, followed by more.
proof fn lemma_continued(log: Seq<u8>, more: Seq<u8>)
    ensures
        unfinished_line(log + more) == unfinished_line(unfinished_line(log) + more),
        has_milestone(log + more) <==> has_milestone(log) || has_milestone(
            unfinished_line(log) + more,
        ),
{
    let p = last_line_feed(log);
    let rest = unfinished_line(log) + more;
    let all = log + more;
    lemma_last_line_feed(log);
    lemma_milestone();
    assert(rest =~= all.skip(p + 1));
    let q = last_line_feed(rest);
    lemma_last_line_feed(rest);
    if q >= 0 {
        assert(all[p + 1 + q] == rest[q]);
        assert forall|i: int| p + 1 + q < i < all.len() implies #[trigger] all[i] != 10 by {
            assert(rest[i - p - 1] == all[i]);
        }
        lemma_unfinished_line(all, p + 1 + q);
        assert(all.skip(p + 1 + q + 1) =~= rest.skip(q + 1));
    } else {
        assert forall|i: int| p < i < all.len() implies #[trigger] all[i] != 10 by {
            assert(rest[i - p - 1] == all[i]);
        }
        assert(p >= 0 ==> all[p] == log[p]);
        lemma_unfinished_line(all, p);
        assert(rest.skip(0) =~= rest);
    }
    let n = milestone().len() as int;
    if has_milestone(log) {
        let (k, j) = choose|k: int, j: int|
            #[trigger] milestone_at(log, k) && k + n <= j < log.len() && #[trigger] log[j] == 10;
        assert(all.subrange(k, k + n) =~= log.subrange(k, k + n));
        assert(milestone_at(all, k) && all[j] == 10);
    }
    if has_milestone(rest) {
        let (k, j) = choose|k: int, j: int|
            #[trigger] milestone_at(rest, k) && k + n <= j < rest.len() && #[trigger] rest[j]
                == 10;
        let k2 = k + p + 1;
        assert(all.subrange(k2, k2 + n) =~= rest.subrange(k, k + n));
        assert(milestone_at(all, k2) && all[j + p + 1] == 10);
    }
    if has_milestone(all) {
        let (k, j) = choose|k: int, j: int|
            #[trigger] milestone_at(all, k) && k + n <= j < all.len() && #[trigger] all[j] == 10;
        if k > p {
            let k2 = k - p - 1;
            assert(rest.subrange(k2, k2 + n) =~= all.subrange(k, k + n));
            assert(milestone_at(rest, k2) && rest[j - p - 1] == 10);
        } else {
            if k + n > p {
                assert(all.subrange(k, k + n)[p - k] == all[p]);
                assert(milestone()[p - k] != 10);
                assert(false);
            }
            assert(log.subrange(k, k + n) =~= all.subrange(k, k + n));
            assert(milestone_at(log, k) && log[p] == 10);
        }
    }
}

proof fn lemma_observed(snapshots: Seq<Seq<u8>>)
    requires
        snapshots.len() > 0,
        grows(snapshots),
        lines_are_short(snapshots.last()),
    ensures
        reports(snapshots) <==> has_milestone(snapshots.last()),
        after_all(snapshots) == (SerialObserverView {
            offset: snapshots.last().len(),
            pending: unfinished_line(snapshots.last()),
        }),
    decreases snapshots.len(),
{
    let log = snapshots.last();
    assert(log.take(log.len() as int) =~= log);
    let before = snapshots.drop_last();
    if before.len() == 0 {
        let v = SerialObserverView::fresh();
        assert(after_all(before) == v);
        assert(v.data(log) =~= log);
        assert(!reports(before));
    } else {
        let old_log = before.last();
        assert(old_log == snapshots[snapshots.len() - 2]);
        assert(log.take(old_log.len() as int) == old_log);
        assert(lines_are_short(old_log)) by {
            assert forall|n: int| 0 <= n <= old_log.len() implies unfinished_line(
                #[trigger] old_log.take(n),
            ).len() <= MAX_PENDING by {
                assert(old_log.take(n) =~= log.take(n));
            }
        }
        assert(grows(before)) by {
            assert forall|i: int, j: int| 0 <= i <= j < before.len() implies (
            #[trigger] before[i]).len() <= (#[trigger] before[j]).len() && before[j].take(
                before[i].len() as int,
            ) == before[i] by {
                assert(before[i] == snapshots[i] && before[j] == snapshots[j]);
            }
        }
        lemma_observed(before);
        let more = log.skip(old_log.len() as int);
        assert(old_log + more =~= log);
        lemma_continued(old_log, more);
    }
}

/// However the log is read in pieces: as long as no line is longer than what is
/// kept, the milestone is reported exactly when the log holds it in a finished
/// line.
pub proof fn nothing_is_missed(snapshots: Seq<Seq<u8>>)
    requires
        snapshots.len() > 0,
        grows(snapshots),
        lines_are_short(snapshots.last()),
    ensures
        reports(snapshots) <==> has_milestone(snapshots.last()),
{
    lemma_observed(snapshots);
}

/// The text "Application Started" is seen wherever it stands in the log, as soon as its line
/// has ended.
pub proof fn started_applications_are_seen(
    before: Seq<u8>,
    between: Seq<u8>,
    after: Seq<u8>,
)
    ensures
        has_milestone(
            before + vstd::utf8::encode_utf8("Application Started"@) + between + seq![10u8]
                + after,
        ),
{
    lemma_milestone();
    let n = milestone().len() as int;
    let data = before + milestone() + between + seq![10u8] + after;
    let k = before.len() as int;
    assert(data.subrange(k, k + n) =~= milestone());
    assert(milestone_at(data, k));
    assert(data[k + n + between.len()] == 10);
}

/// A log without a line feed has no finished line, and so no milestone yet.
pub proof fn unfinished_lines_are_not_seen(data: Seq<u8>)
    requires
        forall|i: int| 0 <= i < data.len() ==> #[trigger] data[i] != 10,
    ensures
        !has_milestone(data),
        unfinished_line(data) == data,
{
    if data.len() == 0 {
        assert(unfinished_line(data) =~= data);
    } else {
        lemma_unfinished_line(data, -1);
        assert(data.skip(0) =~= data);
    }
}

/// A log that has grown is read from where it was left, behind what is left of its last line;
/// one that has become shorter is another log, and is read from its beginning. Either way all
/// of it has been read.
pub proof fn logs_are_read_where_they_were_left(v: SerialObserverView, log: Seq<u8>)
    ensures
        log.len() >= v.offset ==> v.data(log) == v.pending + log.subrange(
            v.offset as int,
            log.len() as int,
        ),
        log.len() < v.offset ==> v.data(log) == log,
        v.after(log).offset == log.len(),
        SerialObserverView::fresh().data(log) == log,
{
    if log.len() >= v.offset {
        assert(log.skip(v.offset as int) =~= log.subrange(v.offset as int, log.len() as int));
    }
    assert(SerialObserverView::fresh().data(log) =~= log);
}

/// Up to 4096 bytes of an unfinished line are kept whole. Of a longer one, as much is kept as
/// the milestone is long.
pub proof fn unfinished_lines_are_kept(line: Seq<u8>)
    ensures
        line.len() <= 4096 ==> kept(line) == line,
        line.len() > 4096 ==> kept(line) == line.subrange(line.len() - 19, line.len() as int),
{
    lemma_milestone();
    if line.len() > 4096 {
        assert(line.skip(line.len() - 19) =~= line.subrange(
            line.len() - 19,
            line.len() as int,
        ));
    }
}

} // verus!
