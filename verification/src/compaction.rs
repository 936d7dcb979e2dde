//! Run-length compaction of a metric's history.
//!
//! A history is a sequence of samples ordered by timestamp, newest first.
//! Compaction walks the sequence once and collapses every run of samples that
//! may be merged into the last row of the run: the other rows of the run are
//! marked with [`TOMBSTONE`], and the last row receives the length of the run.

use vstd::prelude::*;

verus! {

/// Duration of a row that was merged into a neighbour and may be deleted.
pub const TOMBSTONE: i64 = -1;

/// Seconds between two readings of a sensor that reports continuously.
pub const STEP: i64 = 1;

/// One persisted reading of a metric.
#[derive(Clone, Copy, Debug, PartialEq, Eq, Structural)]
pub struct Sample {
    pub id: i64,
    pub timestamp: i64,
    pub value: u8,
    pub duration: i64,
}

/// When two neighbouring samples belong to the same run.
#[derive(Clone, Copy, Debug, PartialEq, Eq, Structural)]
pub enum MergePolicy {
    /// Equal values merge, whatever their timestamps.
    ValueOnly,
    /// Equal values merge only where the first was taken one [`STEP`] after
    /// the second.
    ValueAndAdjacency,
}

/// The outcome of compacting one history.
#[derive(Debug)]
pub struct Compaction {
    /// Every row of the history, with its new duration.
    pub rewritten: Vec<Sample>,
    /// The rows that remain once the tombstoned rows are deleted.
    pub kept: Vec<Sample>,
    /// How many rows are tombstoned.
    pub deleted_count: usize,
}

/// Whether `this` and the sample after it, `next`, belong to one run.
pub open spec fn mergeable(policy: MergePolicy, this: Sample, next: Sample) -> bool {
    &&& this.value == next.value
    &&& (policy == MergePolicy::ValueAndAdjacency ==> this.timestamp - next.timestamp == STEP)
}

/// Number of samples in the run that ends at index `i`, counted from the
/// start of the run up to and including `i`.
pub open spec fn run_length(policy: MergePolicy, s: Seq<Sample>, i: int) -> int
    decreases i,
{
    if 0 < i < s.len() && mergeable(policy, s[i - 1], s[i]) {
        run_length(policy, s, i - 1) + 1
    } else {
        1
    }
}

/// The duration that compaction gives to the sample at index `i`.
pub open spec fn rewritten_duration(policy: MergePolicy, s: Seq<Sample>, i: int) -> int {
    if i + 1 < s.len() && mergeable(policy, s[i], s[i + 1]) {
        TOMBSTONE as int
    } else {
        STEP * run_length(policy, s, i)
    }
}

/// The sample at index `i` after compaction: only its duration changes.
pub open spec fn rewritten_sample(policy: MergePolicy, s: Seq<Sample>, i: int) -> Sample {
    Sample {
        id: s[i].id,
        timestamp: s[i].timestamp,
        value: s[i].value,
        duration: rewritten_duration(policy, s, i) as i64,
    }
}

/// The history after compaction. A history of fewer than two samples is left
/// as it is.
pub open spec fn compacted(policy: MergePolicy, s: Seq<Sample>) -> Seq<Sample> {
    if s.len() < 2 {
        s
    } else {
        Seq::new(s.len(), |i: int| rewritten_sample(policy, s, i))
    }
}

/// Number of tombstoned rows among the first `k` rows of `s`.
pub open spec fn tombstones_upto(s: Seq<Sample>, k: int) -> nat
    decreases k,
{
    if k <= 0 {
        0
    } else if s[k - 1].duration == TOMBSTONE {
        tombstones_upto(s, k - 1) + 1
    } else {
        tombstones_upto(s, k - 1)
    }
}

/// Number of tombstoned rows of `s`.
pub open spec fn tombstone_count(s: Seq<Sample>) -> nat {
    tombstones_upto(s, s.len() as int)
}

/// The rows among the first `k` rows of `s` that are not tombstoned, in order.
pub open spec fn survivors_upto(s: Seq<Sample>, k: int) -> Seq<Sample>
    decreases k,
{
    if k <= 0 {
        Seq::empty()
    } else if s[k - 1].duration == TOMBSTONE {
        survivors_upto(s, k - 1)
    } else {
        survivors_upto(s, k - 1).push(s[k - 1])
    }
}

/// The rows of `s` that are not tombstoned, in order.
pub open spec fn survivors(s: Seq<Sample>) -> Seq<Sample> {
    survivors_upto(s, s.len() as int)
}

/// Number of readings that a row with duration `d` stands for: none
/// for a tombstone, one for a row that was never compacted, else `d`.
pub open spec fn represented(d: int) -> int {
    if d == TOMBSTONE {
        0
    } else if d == 0 {
        1
    } else {
        d
    }
}

/// Number of readings that the first `k` rows of `s` stand for.
pub open spec fn represented_upto(s: Seq<Sample>, k: int) -> int
    decreases k,
{
    if k <= 0 {
        0
    } else {
        represented_upto(s, k - 1) + represented(s[k - 1].duration as int)
    }
}

/// Number of readings that the rows of `s` stand for.
pub open spec fn represented_total(s: Seq<Sample>) -> int {
    represented_upto(s, s.len() as int)
}

/// Whether no timestamp occurs twice in `s`.
pub open spec fn distinct_timestamps(s: Seq<Sample>) -> bool {
    forall|i: int, j: int| 0 <= i < j < s.len() ==> s[i].timestamp != s[j].timestamp
}

/// Whether no two neighbours of `s` belong to one run.
pub open spec fn no_neighbours_mergeable(policy: MergePolicy, s: Seq<Sample>) -> bool {
    forall|i: int| 0 <= i && i + 1 < s.len() ==> !mergeable(policy, #[trigger] s[i], s[i + 1])
}

/// A run never holds more samples than the history up to its end.
pub proof fn lemma_run_length_bounds(policy: MergePolicy, s: Seq<Sample>, i: int)
    requires
        0 <= i < s.len(),
    ensures
        1 <= run_length(policy, s, i) <= i + 1,
    decreases i,
{
    if 0 < i && mergeable(policy, s[i - 1], s[i]) {
        lemma_run_length_bounds(policy, s, i - 1);
    }
}

/// Decides whether `this` and the sample after it, `next`, belong to one run.
pub fn can_merge(policy: MergePolicy, this: &Sample, next: &Sample) -> (r: bool)
    ensures
        r == mergeable(policy, *this, *next),
{
    if this.value != next.value {
        return false;
    }
    match policy {
        MergePolicy::ValueOnly => true,
        MergePolicy::ValueAndAdjacency => {
            next.timestamp < i64::MAX && this.timestamp == next.timestamp + STEP
        },
    }
}

/// The row `row` with another duration.
pub fn with_duration(row: &Sample, duration: i64) -> (r: Sample)
    ensures
        r == (Sample { id: row.id, timestamp: row.timestamp, value: row.value, duration }),
{
    Sample { id: row.id, timestamp: row.timestamp, value: row.value, duration }
}

/// Compacts a history under the given policy.
///
/// Every row keeps its id, timestamp and value. A row that belongs to the
/// same run as the row after it is tombstoned; every other row receives
/// [`STEP`] times the length of the run that it ends.
pub fn rle_encode_with(policy: MergePolicy, raw: Vec<Sample>) -> (out: Vec<Sample>)
    requires
        raw.len() <= i64::MAX,
    ensures
        out@ == compacted(policy, raw@),
{
    let n: usize = raw.len();
    if n < 2 {
        return raw;
    }
    let ghost s = raw@;
    let mut out: Vec<Sample> = raw;
    let mut c: i64 = 1;
    let mut i: usize = 0;
    while i + 1 < n
        invariant
            2 <= n <= i64::MAX,
            n == s.len(),
            out@.len() == n,
            i < n,
            c == run_length(policy, s, i as int),
            forall|j: int| 0 <= j < i ==> out@[j] == rewritten_sample(policy, s, j),
            forall|j: int| i <= j < n ==> out@[j] == s[j],
        decreases n - i,
    {
        let this: Sample = out[i];
        let next: Sample = out[i + 1];
        proof {
            lemma_run_length_bounds(policy, s, i as int);
        }
        if can_merge(policy, &this, &next) {
            out.set(i, with_duration(&this, TOMBSTONE));
            c = c + 1;
        } else {
            out.set(i, with_duration(&this, STEP * c));
            c = 1;
        }
        i = i + 1;
    }
    let last: Sample = out[i];
    proof {
        lemma_run_length_bounds(policy, s, i as int);
    }
    out.set(i, with_duration(&last, STEP * c));
    assert(out@ =~= compacted(policy, s));
    out
}

/// Splits compacted rows into the rows that stay and the number that go.
pub fn split_tombstones(rows: &Vec<Sample>) -> (r: (Vec<Sample>, usize))
    ensures
        r.0@ == survivors(rows@),
        r.1 == tombstone_count(rows@),
        r.0@.len() + r.1 == rows@.len(),
{
    let mut kept: Vec<Sample> = Vec::new();
    let mut deleted: usize = 0;
    let mut i: usize = 0;
    while i < rows.len()
        invariant
            i <= rows.len(),
            kept@ == survivors_upto(rows@, i as int),
            deleted == tombstones_upto(rows@, i as int),
            kept@.len() + deleted == i,
        decreases rows.len() - i,
    {
        let row: Sample = rows[i];
        if row.duration == TOMBSTONE {
            deleted = deleted + 1;
        } else {
            kept.push(row);
        }
        i = i + 1;
    }
    (kept, deleted)
}

/// Compacts a history and reports what the store has to do: rewrite every
/// row as given, then delete the tombstoned rows.
pub fn compact(policy: MergePolicy, history: Vec<Sample>) -> (plan: Compaction)
    requires
        history.len() <= i64::MAX,
    ensures
        plan.rewritten@ == compacted(policy, history@),
        plan.kept@ == survivors(plan.rewritten@),
        plan.deleted_count == tombstone_count(plan.rewritten@),
        plan.kept@.len() + plan.deleted_count == history@.len(),
{
    let rewritten = rle_encode_with(policy, history);
    let (kept, deleted_count) = split_tombstones(&rewritten);
    Compaction { rewritten, kept, deleted_count }
}

/// Number of samples of the run that is still open before index `k`: the
/// run that ends at `k - 1` if the sample at `k` continues it, else none.
pub open spec fn open_run(policy: MergePolicy, s: Seq<Sample>, k: int) -> int {
    if 0 < k < s.len() && mergeable(policy, s[k - 1], s[k]) {
        run_length(policy, s, k - 1)
    } else {
        0
    }
}

proof fn lemma_represented_prefix(policy: MergePolicy, s: Seq<Sample>, k: int)
    requires
        2 <= s.len() <= i64::MAX,
        0 <= k <= s.len(),
    ensures
        represented_upto(compacted(policy, s), k) == k - open_run(policy, s, k),
    decreases k,
{
    if k > 0 {
        lemma_represented_prefix(policy, s, k - 1);
        lemma_run_length_bounds(policy, s, k - 1);
        assert(compacted(policy, s)[k - 1] == rewritten_sample(policy, s, k - 1));
    }
}

/// Compaction loses no reading: the durations of the rewritten rows, a
/// tombstone counting for none and a duration of zero for one, add up to the
/// number of samples that went in, and so do those of the rows that are
/// left once the tombstoned rows are deleted. A single row that already
/// carries a duration passes through untouched, so it must itself stand for
/// one reading.
pub proof fn lemma_compaction_preserves_count(policy: MergePolicy, s: Seq<Sample>)
    requires
        s.len() <= i64::MAX,
        s.len() == 1 ==> represented(s[0].duration as int) == 1,
    ensures
        represented_total(compacted(policy, s)) == s.len(),
        represented_total(survivors(compacted(policy, s))) == s.len(),
{
    if s.len() >= 2 {
        lemma_represented_prefix(policy, s, s.len() as int);
    } else if s.len() == 1 {
        assert(represented_upto(s, 1) == represented_upto(s, 0) + represented(s[0].duration as int));
    }
    lemma_survivors_stand_for_all(compacted(policy, s), s.len() as int);
}

/// Deleting the tombstoned rows changes nothing in what the rows stand
/// for.
pub proof fn lemma_survivors_stand_for_all(s: Seq<Sample>, k: int)
    requires
        0 <= k <= s.len(),
    ensures
        represented_total(survivors_upto(s, k)) == represented_upto(s, k),
    decreases k,
{
    if k > 0 {
        lemma_survivors_stand_for_all(s, k - 1);
        let before = survivors_upto(s, k - 1);
        if s[k - 1].duration != TOMBSTONE {
            let after = before.push(s[k - 1]);
            lemma_represented_ignores_rest(before, after, before.len() as int);
        }
    }
}

proof fn lemma_represented_ignores_rest(a: Seq<Sample>, b: Seq<Sample>, k: int)
    requires
        0 <= k <= a.len(),
        k <= b.len(),
        forall|i: int| 0 <= i < k ==> a[i] == b[i],
    ensures
        represented_upto(a, k) == represented_upto(b, k),
    decreases k,
{
    if k > 0 {
        lemma_represented_ignores_rest(a, b, k - 1);
    }
}

proof fn lemma_survivors_prefix(policy: MergePolicy, s: Seq<Sample>, k: int)
    requires
        2 <= s.len() <= i64::MAX,
        0 <= k <= s.len(),
        policy == MergePolicy::ValueAndAdjacency ==> distinct_timestamps(s),
    ensures
        ({
            let out = survivors_upto(compacted(policy, s), k);
            &&& no_neighbours_mergeable(policy, out)
            &&& forall|j: int| 0 <= j < out.len() ==> (#[trigger] out[j]).duration != TOMBSTONE
            &&& out.len() <= k
            &&& (out.len() > 0 && k < s.len() ==> !mergeable(policy, out.last(), s[k]))
            &&& (out.len() > 0 ==> exists|m: int|
                0 <= m < k && out.last().timestamp == (#[trigger] s[m]).timestamp)
        }),
    decreases k,
{
    let c = compacted(policy, s);
    if k > 0 {
        lemma_survivors_prefix(policy, s, k - 1);
        lemma_run_length_bounds(policy, s, k - 1);
        let prev = survivors_upto(c, k - 1);
        let out = survivors_upto(c, k);
        assert(c[k - 1] == rewritten_sample(policy, s, k - 1));
        if c[k - 1].duration == TOMBSTONE {
            assert(out == prev);
            assert(mergeable(policy, s[k - 1], s[k]));
            if out.len() > 0 {
                let m = choose|m: int|
                    0 <= m < k - 1 && out.last().timestamp == (#[trigger] s[m]).timestamp;
                assert(s[m].timestamp == out.last().timestamp);
            }
        } else {
            assert(out == prev.push(c[k - 1]));
            assert(out.last().timestamp == s[k - 1].timestamp);
            assert forall|j: int| 0 <= j && j + 1 < out.len() implies !mergeable(
                policy,
                #[trigger] out[j],
                out[j + 1],
            ) by {
                if j + 1 < prev.len() {
                    assert(out[j] == prev[j]);
                    assert(out[j + 1] == prev[j + 1]);
                } else {
                    assert(out[j] == prev.last());
                    assert(out[j + 1] == c[k - 1]);
                }
            }
        }
    }
}

/// A history in which no two neighbours merge comes out of compaction with
/// no tombstone.
pub proof fn lemma_unmergeable_has_no_tombstones(policy: MergePolicy, t: Seq<Sample>, k: int)
    requires
        t.len() <= i64::MAX,
        0 <= k <= t.len(),
        no_neighbours_mergeable(policy, t),
        forall|j: int| 0 <= j < t.len() ==> (#[trigger] t[j]).duration != TOMBSTONE,
    ensures
        tombstones_upto(compacted(policy, t), k) == 0,
    decreases k,
{
    if k > 0 {
        lemma_unmergeable_has_no_tombstones(policy, t, k - 1);
        if t.len() >= 2 {
            lemma_run_length_bounds(policy, t, k - 1);
            assert(compacted(policy, t)[k - 1] == rewritten_sample(policy, t, k - 1));
            if k < t.len() {
                assert(!mergeable(policy, t[k - 1], t[k - 1 + 1]));
            }
        }
    }
}

proof fn lemma_survivors_hold_no_tombstone(s: Seq<Sample>, k: int)
    requires
        0 <= k <= s.len(),
    ensures
        survivors_upto(s, k).len() <= k,
        forall|j: int|
            0 <= j < survivors_upto(s, k).len() ==> (#[trigger] survivors_upto(s, k)[j]).duration
                != TOMBSTONE,
    decreases k,
{
    if k > 0 {
        lemma_survivors_hold_no_tombstone(s, k - 1);
    }
}

/// Compaction is idempotent on what it leaves behind: compacting the rows
/// that survive a first compaction tombstones none of them and keeps them
/// all. Where timestamps count, no timestamp may occur twice in the
/// history.
pub proof fn lemma_second_compaction_deletes_nothing(policy: MergePolicy, s: Seq<Sample>)
    requires
        s.len() <= i64::MAX,
        policy == MergePolicy::ValueAndAdjacency ==> distinct_timestamps(s),
    ensures
        tombstone_count(compacted(policy, survivors(compacted(policy, s)))) == 0,
        survivors(compacted(policy, survivors(compacted(policy, s)))).len() == survivors(
            compacted(policy, s),
        ).len(),
{
    let first = compacted(policy, s);
    let out = survivors(first);
    if s.len() >= 2 {
        lemma_survivors_prefix(policy, s, s.len() as int);
    } else {
        lemma_survivors_hold_no_tombstone(s, s.len() as int);
    }
    lemma_unmergeable_has_no_tombstones(policy, out, out.len() as int);
    lemma_tombstones_and_survivors(compacted(policy, out), out.len() as int);
}

/// Every row is either tombstoned or survives.
pub proof fn lemma_tombstones_and_survivors(s: Seq<Sample>, k: int)
    requires
        0 <= k <= s.len(),
    ensures
        tombstones_upto(s, k) + survivors_upto(s, k).len() == k,
    decreases k,
{
    if k > 0 {
        lemma_tombstones_and_survivors(s, k - 1);
    }
}

} // verus!
