//! Splitting an interval of nonces into one contiguous range per worker.

use vstd::prelude::*;

verus! {

/// A half-open interval `[start, end)` of nonces.
#[derive(Clone, Copy, Debug, PartialEq, Eq, Structural)]
pub struct NonceRange {
    pub start: u64,
    pub end: u64,
}

impl NonceRange {
    /// Whether the nonce lies in the range.
    pub open spec fn contains(self, nonce: u64) -> bool {
        self.start <= nonce < self.end
    }

    /// The number of nonces in the range.
    pub open spec fn size(self) -> int {
        if self.start <= self.end {
            self.end - self.start
        } else {
            0
        }
    }

    /// The number of nonces in the range.
    pub fn len(&self) -> (n: u64)
        ensures
            n == self.size(),
    {
        if self.start <= self.end {
            self.end - self.start
        } else {
            0
        }
    }
}

/// The size of every range but the last: the interval's length divided by
/// the number of workers.
pub open spec fn chunk_size(start: u64, end: u64, workers: int) -> int
    recommends
        start <= end,
        workers >= 1,
{
    (end - start) / workers
}

/// Range number `i`: ranges follow each other in steps of the chunk size, and
/// the last one runs to the end of the interval and so takes the remainder.
pub open spec fn range_at(start: u64, end: u64, workers: int, i: int) -> NonceRange
    recommends
        start <= end,
        0 <= i < workers,
{
    NonceRange {
        start: (start + i * chunk_size(start, end, workers)) as u64,
        end: if i == workers - 1 {
            end
        } else {
            (start + (i + 1) * chunk_size(start, end, workers)) as u64
        },
    }
}

/// The ranges that an interval is split into for a number of workers.
pub open spec fn partition_spec(start: u64, end: u64, workers: int) -> Seq<NonceRange>
    recommends
        start <= end,
        workers >= 1,
{
    Seq::new(workers as nat, |i: int| range_at(start, end, workers, i))
}

/// The first `k` chunks fit in the interval.
pub proof fn lemma_chunks_fit(len: int, workers: int, k: int)
    requires
        0 <= len,
        1 <= workers,
        0 <= k <= workers,
    ensures
        0 <= k * (len / workers) <= len,
{
    let chunk = len / workers;
    assert(0 <= chunk && chunk * workers <= len) by (nonlinear_arith)
        requires
            chunk == len / workers,
            0 <= len,
            1 <= workers,
    ;
    assert(0 <= k * chunk <= workers * chunk) by (nonlinear_arith)
        requires
            0 <= k <= workers,
            0 <= chunk,
    ;
    assert(workers * chunk == chunk * workers) by (nonlinear_arith);
}

/// Chunk boundaries grow with their number.
pub proof fn lemma_boundaries_grow(chunk: int, i: int, j: int)
    requires
        0 <= chunk,
        0 <= i <= j,
    ensures
        i * chunk <= j * chunk,
{
    assert(i * chunk <= j * chunk) by (nonlinear_arith)
        requires
            0 <= chunk,
            0 <= i <= j,
    ;
}

/// Splits `[global_start, global_end)` into `workers` ranges.
pub fn partition(global_start: u64, global_end: u64, workers: usize) -> (ranges: Vec<NonceRange>)
    requires
        global_start <= global_end,
        workers >= 1,
    ensures
        ranges@ == partition_spec(global_start, global_end, workers as int),
{
    let length: u64 = global_end - global_start;
    let chunk: u64 = length / (workers as u64);
    let mut ranges: Vec<NonceRange> = Vec::new();
    let mut cursor: u64 = global_start;
    let mut i: usize = 0;
    while i < workers - 1
        invariant
            global_start <= global_end,
            workers >= 1,
            length == global_end - global_start,
            chunk == chunk_size(global_start, global_end, workers as int),
            i <= workers - 1,
            cursor == global_start + i * chunk,
            ranges@.len() == i,
            forall|k: int|
                0 <= k < i ==> ranges@[k] == range_at(global_start, global_end, workers as int, k),
        decreases workers - 1 - i,
    {
        proof {
            lemma_chunks_fit(length as int, workers as int, i + 1);
            assert((i + 1) * chunk == i * chunk + chunk) by (nonlinear_arith);
        }
        let next: u64 = cursor + chunk;
        ranges.push(NonceRange { start: cursor, end: next });
        cursor = next;
        i += 1;
    }
    ranges.push(NonceRange { start: cursor, end: global_end });
    assert(ranges@ =~= partition_spec(global_start, global_end, workers as int));
    ranges
}

/// The ranges of a partition are well formed and follow each other without a
/// gap: the first starts where the interval starts, each one starts where the
/// one before it ends, and the last ends where the interval ends.
pub proof fn lemma_partition_contiguous(start: u64, end: u64, workers: int)
    requires
        start <= end,
        workers >= 1,
    ensures
        partition_spec(start, end, workers).len() == workers,
        partition_spec(start, end, workers)[0].start == start,
        partition_spec(start, end, workers)[workers - 1].end == end,
        forall|i: int|
            0 <= i < workers ==> start <= (#[trigger] partition_spec(start, end, workers)[i]).start
                <= partition_spec(start, end, workers)[i].end <= end,
        forall|i: int|
            0 <= i < workers - 1 ==> (#[trigger] partition_spec(start, end, workers)[i]).end
                == partition_spec(start, end, workers)[i + 1].start,
{
    let chunk = chunk_size(start, end, workers);
    let ranges = partition_spec(start, end, workers);
    assert forall|i: int| 0 <= i < workers implies start <= (#[trigger] ranges[i]).start
        <= ranges[i].end <= end by {
        lemma_chunks_fit(end - start, workers, i);
        lemma_chunks_fit(end - start, workers, i + 1);
        lemma_boundaries_grow(chunk, i, i + 1);
    }
    assert forall|i: int| 0 <= i < workers - 1 implies (#[trigger] ranges[i]).end == ranges[i
        + 1].start by {
        lemma_chunks_fit(end - start, workers, i + 1);
    }
    lemma_chunks_fit(end - start, workers, 0);
    assert(0 * chunk == 0) by (nonlinear_arith);
}

/// Range `i` ends no later than range `j` starts, where `i` comes before `j`.
pub proof fn lemma_ranges_ordered(start: u64, end: u64, workers: int, i: int, j: int)
    requires
        start <= end,
        0 <= i < j < workers,
    ensures
        partition_spec(start, end, workers)[i].end <= partition_spec(start, end, workers)[j].start,
{
    let chunk = chunk_size(start, end, workers);
    lemma_chunks_fit(end - start, workers, i + 1);
    lemma_chunks_fit(end - start, workers, j);
    lemma_boundaries_grow(chunk, i + 1, j);
}

/// The ranges of a partition cover the interval exactly: a nonce lies in
/// some range if and only if it lies in the interval, and then in one range
/// only.
pub proof fn lemma_partition_covers(start: u64, end: u64, workers: int, nonce: u64)
    requires
        start <= end,
        workers >= 1,
    ensures
        (start <= nonce < end) <==> (exists|i: int|
            0 <= i < workers && (#[trigger] partition_spec(start, end, workers)[i]).contains(nonce)),
        forall|i: int, j: int|
            0 <= i < workers && 0 <= j < workers && (#[trigger] partition_spec(
                start,
                end,
                workers,
            )[i]).contains(nonce) && (#[trigger] partition_spec(start, end, workers)[j]).contains(
                nonce,
            ) ==> i == j,
{
    let ranges = partition_spec(start, end, workers);
    lemma_partition_contiguous(start, end, workers);
    assert forall|i: int, j: int|
        0 <= i < workers && 0 <= j < workers && (#[trigger] ranges[i]).contains(nonce) && (
        #[trigger] ranges[j]).contains(nonce) implies i == j by {
        if i < j {
            lemma_ranges_ordered(start, end, workers, i, j);
        } else if j < i {
            lemma_ranges_ordered(start, end, workers, j, i);
        }
    }
    if start <= nonce < end {
        let i = lemma_find_range(start, end, workers, nonce, workers - 1);
        assert(ranges[i].contains(nonce));
    }
}

/// Finds the range that holds a nonce known to lie at or after the start of
/// range `last` and before the end of the interval.
proof fn lemma_find_range(start: u64, end: u64, workers: int, nonce: u64, last: int) -> (i: int)
    requires
        start <= end,
        workers >= 1,
        0 <= last < workers,
        start <= nonce < end,
        last < workers - 1 ==> nonce < partition_spec(start, end, workers)[last].end,
    ensures
        0 <= i <= last,
        partition_spec(start, end, workers)[i].contains(nonce),
    decreases last,
{
    lemma_partition_contiguous(start, end, workers);
    let ranges = partition_spec(start, end, workers);
    if ranges[last].start <= nonce {
        last
    } else {
        assert(last > 0);
        assert(ranges[last - 1].end == ranges[last].start);
        lemma_find_range(start, end, workers, nonce, last - 1)
    }
}

} // verus!
