//! Walking a range of nonces for the first salt whose address matches.

use crate::address::{create2_address_spec, hash_to_address};
use crate::partition::NonceRange;
use crate::pattern::{matches_bytes, matches_spec};
use crate::salt::{nonce_salt, nonce_to_salt};
use crate::shared::SharedRunState;
use vstd::prelude::*;

verus! {

/// The number of misses after which a worker adds its tally to the shared
/// counter.
pub const FLUSH_INTERVAL: u64 = 1024;

/// What is searched for: the factory, the init-code hash, and the prefix and
/// suffix that the address's hexadecimal text must have, as ASCII bytes.
#[derive(Debug)]
pub struct SearchTarget {
    pub factory: [u8; 20],
    pub init_code_hash: [u8; 32],
    pub prefix: Vec<u8>,
    pub suffix: Vec<u8>,
}

/// A match: the nonce, its salt, the address derived from the salt, and the
/// number of candidates that the worker tried, the match included.
#[derive(Clone, Copy, Debug)]
pub struct SearchResult {
    pub nonce: u64,
    pub salt: [u8; 32],
    pub address: [u8; 20],
    pub attempts: u64,
}

/// The address that the target's factory gives to a nonce's salt.
pub open spec fn candidate_address(target: SearchTarget, nonce: u64) -> Seq<u8> {
    create2_address_spec(target.factory@, nonce_salt(nonce), target.init_code_hash@)
}

/// Whether the address of a nonce matches the target's patterns.
pub open spec fn is_match(target: SearchTarget, nonce: u64) -> bool {
    matches_spec(candidate_address(target, nonce), target.prefix@, target.suffix@)
}

/// Whether no nonce in `[from, to)` matches.
pub open spec fn no_match_in(target: SearchTarget, from: u64, to: u64) -> bool {
    forall|n: u64| from <= n < to ==> !#[trigger] is_match(target, n)
}

/// Whether `result` reports the first match of a range: its nonce lies in
/// the range and matches, no earlier nonce of the range does, and salt,
/// address and attempts are those of that nonce.
pub open spec fn is_first_match(target: SearchTarget, range: NonceRange, result: SearchResult) -> bool {
    &&& range.contains(result.nonce)
    &&& is_match(target, result.nonce)
    &&& no_match_in(target, range.start, result.nonce)
    &&& result.salt@ == nonce_salt(result.nonce)
    &&& result.address@ == candidate_address(target, result.nonce)
    &&& result.attempts == result.nonce - range.start + 1
}

/// Derives the salt and the address of a nonce.
pub fn derive_candidate(target: &SearchTarget, nonce: u64) -> (candidate: ([u8; 32], [u8; 20]))
    ensures
        candidate.0@ == nonce_salt(nonce),
        candidate.1@ == candidate_address(*target, nonce),
{
    let salt = nonce_to_salt(nonce);
    let address = hash_to_address(
        target.factory.as_slice(),
        salt.as_slice(),
        target.init_code_hash.as_slice(),
    );
    (salt, address)
}

/// Walks a range in ascending order and returns its first match, or `None`
/// where no nonce of the range matches.
pub fn search_range(target: &SearchTarget, range: NonceRange) -> (found: Option<SearchResult>)
    ensures
        found is Some ==> is_first_match(*target, range, found->Some_0),
        found is None ==> no_match_in(*target, range.start, range.end),
{
    let mut nonce: u64 = range.start;
    while nonce < range.end
        invariant
            range.start <= nonce,
            nonce <= range.end || range.end < range.start,
            no_match_in(*target, range.start, nonce),
        decreases range.end - nonce,
    {
        let (salt, address) = derive_candidate(target, nonce);
        if matches_bytes(&address, target.prefix.as_slice(), target.suffix.as_slice()) {
            return Some(SearchResult { nonce, salt, address, attempts: nonce - range.start + 1 });
        }
        nonce += 1;
    }
    None
}

/// What a worker does with one nonce.
#[derive(Clone, Copy, Debug)]
pub enum Step {
    /// Another worker has reported a match: stop without a result.
    Cancelled,
    /// The nonce matches: its salt and its address.
    Hit { salt: [u8; 32], address: [u8; 20] },
    /// The nonce does not match: count it and go on.
    Miss,
}

/// Decides what a worker does with one nonce, given what it read from the
/// shared flag: a set flag stops it before anything is derived; otherwise the
/// nonce is a hit exactly where its address matches.
pub fn examine(target: &SearchTarget, nonce: u64, cancelled: bool) -> (step: Step)
    ensures
        cancelled ==> step is Cancelled,
        !cancelled && is_match(*target, nonce) ==> step is Hit && step->salt@ == nonce_salt(nonce)
            && step->address@ == candidate_address(*target, nonce),
        !cancelled && !is_match(*target, nonce) ==> step is Miss,
{
    if cancelled {
        return Step::Cancelled;
    }
    let (salt, address) = derive_candidate(target, nonce);
    if matches_bytes(&address, target.prefix.as_slice(), target.suffix.as_slice()) {
        Step::Hit { salt, address }
    } else {
        Step::Miss
    }
}

/// Decides what a worker returns for a hit, given whether its claim of the
/// shared flag succeeded: the worker that lost the claim reports nothing.
pub fn settle(hit: SearchResult, won: bool) -> (report: Option<SearchResult>)
    ensures
        report == if won {
            Some(hit)
        } else {
            None
        },
{
    if won {
        Some(hit)
    } else {
        None
    }
}

/// The tally after one more miss, and what is to be added to the shared
/// counter: the whole tally once it reaches the flush interval, else nothing.
fn count_miss(tally: u64) -> (next: (u64, u64))
    requires
        tally < FLUSH_INTERVAL,
    ensures
        next.0 < FLUSH_INTERVAL,
        next.0 + next.1 == tally + 1,
        next.1 == 0 || next.1 == FLUSH_INTERVAL,
{
    if tally + 1 == FLUSH_INTERVAL {
        (0, FLUSH_INTERVAL)
    } else {
        (tally + 1, 0)
    }
}

/// How a worker's walk over its range ended.
#[derive(Clone, Copy, Debug)]
pub enum WorkerExit {
    /// The worker found a match and its claim of the shared flag succeeded.
    Won(SearchResult),
    /// The worker found a match at this nonce, but another worker had
    /// claimed the flag first.
    Lost(u64),
    /// The worker saw the flag set before it tried this nonce.
    Cancelled(u64),
    /// The worker tried every nonce of its range and none matched.
    Exhausted,
}

/// Whether `exit` is a way in which a walk over `range` can end: a match,
/// won or lost, is the first of the range; a cancelled walk met no match
/// before it stopped; an exhausted range holds no match.
pub open spec fn exit_fits(target: SearchTarget, range: NonceRange, exit: WorkerExit) -> bool {
    match exit {
        WorkerExit::Won(result) => is_first_match(target, range, result),
        WorkerExit::Lost(nonce) => range.contains(nonce) && is_match(target, nonce) && no_match_in(
            target,
            range.start,
            nonce,
        ),
        WorkerExit::Cancelled(nonce) => range.contains(nonce) && no_match_in(
            target,
            range.start,
            nonce,
        ),
        WorkerExit::Exhausted => no_match_in(target, range.start, range.end),
    }
}

/// One worker's walk: tries the nonces of a range in ascending order until
/// one matches, the range ends, or the shared flag says that another worker
/// has reported a match. On a match the worker claims the flag. Misses are
/// added to the shared counter in batches. Which way the walk ends depends on
/// the flag, which other workers set too.
pub fn walk_range(target: &SearchTarget, range: NonceRange, state: &SharedRunState) -> (exit:
    WorkerExit)
    ensures
        exit_fits(*target, range, exit),
{
    let mut nonce: u64 = range.start;
    let mut tally: u64 = 0;
    while nonce < range.end
        invariant
            range.start <= nonce,
            nonce <= range.end || range.end < range.start,
            no_match_in(*target, range.start, nonce),
            tally < FLUSH_INTERVAL,
        decreases range.end - nonce,
    {
        match examine(target, nonce, state.is_found()) {
            Step::Cancelled => {
                state.add_attempts(tally);
                return WorkerExit::Cancelled(nonce);
            },
            Step::Hit { salt, address } => {
                state.add_attempts(tally + 1);
                let hit = SearchResult { nonce, salt, address, attempts: nonce - range.start + 1 };
                return match settle(hit, state.try_claim()) {
                    Some(result) => WorkerExit::Won(result),
                    None => WorkerExit::Lost(nonce),
                };
            },
            Step::Miss => {
                let (kept, flushed) = count_miss(tally);
                if flushed > 0 {
                    state.add_attempts(flushed);
                }
                tally = kept;
            },
        }
        nonce += 1;
    }
    state.add_attempts(tally);
    WorkerExit::Exhausted
}

/// One worker of a run: walks its range and returns the match that it found
/// and won, or nothing where it lost the claim, was cancelled or found no
/// match.
pub fn run_worker(target: &SearchTarget, range: NonceRange, state: &SharedRunState) -> (found:
    Option<SearchResult>)
    ensures
        found is Some ==> is_first_match(*target, range, found->Some_0),
{
    match walk_range(target, range, state) {
        WorkerExit::Won(result) => Some(result),
        _ => None,
    }
}

/// Two reports of the first match of one range agree in every field: a walk
/// over the same range for the same target always reports the same match.
pub proof fn lemma_first_match_unique(
    target: SearchTarget,
    range: NonceRange,
    a: SearchResult,
    b: SearchResult,
)
    requires
        is_first_match(target, range, a),
        is_first_match(target, range, b),
    ensures
        a.nonce == b.nonce,
        a.salt@ == b.salt@,
        a.address@ == b.address@,
        a.attempts == b.attempts,
{
    if a.nonce < b.nonce {
        assert(!is_match(target, a.nonce));
    } else if b.nonce < a.nonce {
        assert(!is_match(target, b.nonce));
    }
}

} // verus!
