//! The decisions of a run: how the interval is cut and split before the
//! workers start, which state follows which event, and how the run ends.

use crate::partition::{lemma_partition_covers, partition, partition_spec, NonceRange};
use crate::search::{
    is_first_match, is_match, no_match_in, search_range, SearchResult, SearchTarget,
};
use vstd::prelude::*;

verus! {

/// How a run ends.
#[derive(Clone, Copy, Debug)]
pub enum Outcome {
    /// A worker reported a match.
    Found(SearchResult),
    /// The whole interval was walked without a match.
    Exhausted,
    /// The ceiling of attempts was reached without a match.
    Aborted,
}

/// Why a run cannot start.
#[derive(Clone, Copy, Debug, PartialEq, Eq, Structural)]
pub enum ConfigError {
    /// The number of workers is zero.
    NoWorkers,
    /// The ceiling of attempts is zero.
    ZeroCeiling,
    /// The interval ends before it starts.
    InvertedInterval,
}

/// What the workers of a run are given: one range each, the end of the
/// interval that they walk together, and whether the ceiling cut it short.
#[derive(Debug)]
pub struct RunPlan {
    pub ranges: Vec<NonceRange>,
    pub end: u64,
    pub capped: bool,
}

/// The end of the interval that is walked: the ceiling cuts the interval
/// where it allows fewer attempts than the interval holds nonces.
pub open spec fn effective_end(start: u64, end: u64, ceiling: Option<u64>) -> u64 {
    match ceiling {
        Some(limit) => if start + limit < end {
            (start + limit) as u64
        } else {
            end
        },
        None => end,
    }
}

/// The fault of a configuration, if it has one.
pub open spec fn config_error(start: u64, end: u64, workers: usize, ceiling: Option<u64>) -> Option<
    ConfigError,
> {
    if workers == 0 {
        Some(ConfigError::NoWorkers)
    } else if ceiling == Some(0u64) {
        Some(ConfigError::ZeroCeiling)
    } else if start > end {
        Some(ConfigError::InvertedInterval)
    } else {
        None
    }
}

/// Checks a configuration, cuts the interval at the ceiling and splits it
/// among the workers.
pub fn plan_run(global_start: u64, global_end: u64, workers: usize, ceiling: Option<u64>) -> (result:
    Result<RunPlan, ConfigError>)
    ensures
        match config_error(global_start, global_end, workers, ceiling) {
            Some(fault) => result is Err && result->Err_0 == fault,
            None => {
                &&& result is Ok
                &&& result->Ok_0.end == effective_end(global_start, global_end, ceiling)
                &&& result->Ok_0.capped == (result->Ok_0.end < global_end)
                &&& result->Ok_0.ranges@ == partition_spec(
                    global_start,
                    result->Ok_0.end,
                    workers as int,
                )
            },
        },
{
    if workers == 0 {
        return Err(ConfigError::NoWorkers);
    }
    let mut end: u64 = global_end;
    match ceiling {
        Some(limit) => {
            if limit == 0 {
                return Err(ConfigError::ZeroCeiling);
            }
            if global_start <= global_end && limit < global_end - global_start {
                end = global_start + limit;
            }
        },
        None => {},
    }
    if global_start > global_end {
        return Err(ConfigError::InvertedInterval);
    }
    let ranges = partition(global_start, end, workers);
    Ok(RunPlan { ranges, end, capped: end < global_end })
}

/// Whether none of the first `n` reports holds a result.
pub open spec fn all_empty(reports: Seq<Option<SearchResult>>, n: int) -> bool {
    forall|j: int| 0 <= j < n ==> (#[trigger] reports[j]) is None
}

/// Decides how a run ends from what its workers returned, in the workers'
/// order: the first result there is, else `Aborted` where the ceiling cut the
/// interval, else `Exhausted`.
pub fn conclude(capped: bool, reports: &[Option<SearchResult>]) -> (outcome: Outcome)
    ensures
        match outcome {
            Outcome::Found(result) => exists|i: int|
                0 <= i < reports@.len() && all_empty(reports@, i) && #[trigger] reports@[i] == Some(
                    result,
                ),
            Outcome::Exhausted => !capped && all_empty(reports@, reports@.len() as int),
            Outcome::Aborted => capped && all_empty(reports@, reports@.len() as int),
        },
{
    let mut i: usize = 0;
    while i < reports.len()
        invariant
            i <= reports.len(),
            all_empty(reports@, i as int),
        decreases reports.len() - i,
    {
        match reports[i] {
            Some(result) => {
                return Outcome::Found(result);
            },
            None => {},
        }
        i += 1;
    }
    if capped {
        Outcome::Aborted
    } else {
        Outcome::Exhausted
    }
}

/// A whole run on one worker: the interval, cut at the ceiling, is walked in
/// ascending order. The outcome is the first match of the walked interval,
/// else `Aborted` where the ceiling cut the interval, else `Exhausted`.
pub fn run_single(target: &SearchTarget, global_start: u64, global_end: u64, ceiling: Option<u64>) -> (
    result: Result<Outcome, ConfigError>)
    ensures
        match config_error(global_start, global_end, 1, ceiling) {
            Some(fault) => result is Err && result->Err_0 == fault,
            None => {
                let end = effective_end(global_start, global_end, ceiling);
                &&& result is Ok
                &&& match result->Ok_0 {
                    Outcome::Found(found) => is_first_match(
                        *target,
                        (NonceRange { start: global_start, end }),
                        found,
                    ),
                    Outcome::Exhausted => end == global_end && no_match_in(
                        *target,
                        global_start,
                        end,
                    ),
                    Outcome::Aborted => end < global_end && no_match_in(*target, global_start, end),
                }
            },
        },
{
    let plan = match plan_run(global_start, global_end, 1, ceiling) {
        Ok(plan) => plan,
        Err(fault) => {
            return Err(fault);
        },
    };
    let range = NonceRange { start: global_start, end: plan.end };
    let report = search_range(target, range);
    let mut reports: Vec<Option<SearchResult>> = Vec::new();
    reports.push(report);
    let outcome = conclude(plan.capped, reports.as_slice());
    assert(reports@.len() == 1 && reports@[0] == report);
    Ok(outcome)
}

/// What a worker reports for its range of a partition is a match of the
/// whole interval: its nonce lies in the interval and in no other worker's
/// range.
pub proof fn lemma_report_in_interval(
    target: SearchTarget,
    start: u64,
    end: u64,
    workers: int,
    i: int,
    report: SearchResult,
)
    requires
        start <= end,
        0 <= i < workers,
        is_first_match(target, partition_spec(start, end, workers)[i], report),
    ensures
        start <= report.nonce < end,
        is_match(target, report.nonce),
        forall|j: int|
            0 <= j < workers && (#[trigger] partition_spec(start, end, workers)[j]).contains(
                report.nonce,
            ) ==> j == i,
{
    lemma_partition_covers(start, end, workers, report.nonce);
    assert(partition_spec(start, end, workers)[i].contains(report.nonce));
}

/// Where no range of a partition holds a match, the interval holds none: a
/// run whose workers all come back empty has tried every nonce.
pub proof fn lemma_empty_ranges_empty_interval(
    target: SearchTarget,
    start: u64,
    end: u64,
    workers: int,
)
    requires
        start <= end,
        workers >= 1,
        forall|i: int|
            0 <= i < workers ==> no_match_in(
                target,
                (#[trigger] partition_spec(start, end, workers)[i]).start,
                partition_spec(start, end, workers)[i].end,
            ),
    ensures
        no_match_in(target, start, end),
{
    assert forall|n: u64| start <= n < end implies !#[trigger] is_match(target, n) by {
        lemma_partition_covers(start, end, workers, n);
        let i = choose|i: int|
            0 <= i < workers && (#[trigger] partition_spec(start, end, workers)[i]).contains(n);
        assert(no_match_in(
            target,
            partition_spec(start, end, workers)[i].start,
            partition_spec(start, end, workers)[i].end,
        ));
    }
}

/// The states of a run.
#[derive(Clone, Copy, Debug, PartialEq, Eq, Structural)]
pub enum RunState {
    Idle,
    Searching,
    Found,
    Exhausted,
    Aborted,
    Terminated,
}

/// What moves a run from one state to the next.
#[derive(Clone, Copy, Debug, PartialEq, Eq, Structural)]
pub enum RunEvent {
    /// The workers were started.
    Dispatched,
    /// A worker reported a match.
    MatchReported,
    /// Every worker came to the end of its range without a match.
    RangesExhausted,
    /// The walked interval was the one cut by the ceiling, and it held no match.
    CeilingReached,
    /// The run's state was dropped.
    Closed,
}

/// Whether a state is one of the three in which a search ends.
pub open spec fn is_terminal(state: RunState) -> bool {
    state == RunState::Found || state == RunState::Exhausted || state == RunState::Aborted
}

/// The state that follows `state` on `event`, or `None` where the event
/// cannot happen in that state.
pub open spec fn next_state(state: RunState, event: RunEvent) -> Option<RunState> {
    match (state, event) {
        (RunState::Idle, RunEvent::Dispatched) => Some(RunState::Searching),
        (RunState::Searching, RunEvent::MatchReported) => Some(RunState::Found),
        (RunState::Searching, RunEvent::RangesExhausted) => Some(RunState::Exhausted),
        (RunState::Searching, RunEvent::CeilingReached) => Some(RunState::Aborted),
        (RunState::Found, RunEvent::Closed) => Some(RunState::Terminated),
        (RunState::Exhausted, RunEvent::Closed) => Some(RunState::Terminated),
        (RunState::Aborted, RunEvent::Closed) => Some(RunState::Terminated),
        _ => None,
    }
}

/// Moves a run to its next state, or refuses the event.
pub fn advance(state: RunState, event: RunEvent) -> (next: Option<RunState>)
    ensures
        next == next_state(state, event),
{
    match state {
        RunState::Idle => match event {
            RunEvent::Dispatched => Some(RunState::Searching),
            _ => None,
        },
        RunState::Searching => match event {
            RunEvent::MatchReported => Some(RunState::Found),
            RunEvent::RangesExhausted => Some(RunState::Exhausted),
            RunEvent::CeilingReached => Some(RunState::Aborted),
            _ => None,
        },
        RunState::Found | RunState::Exhausted | RunState::Aborted => match event {
            RunEvent::Closed => Some(RunState::Terminated),
            _ => None,
        },
        RunState::Terminated => None,
    }
}

/// The state in which a run with the given outcome ends its search.
pub fn outcome_state(outcome: &Outcome) -> (state: RunState)
    ensures
        is_terminal(state),
        outcome is Found <==> state == RunState::Found,
        outcome is Exhausted <==> state == RunState::Exhausted,
        outcome is Aborted <==> state == RunState::Aborted,
{
    match outcome {
        Outcome::Found(_) => RunState::Found,
        Outcome::Exhausted => RunState::Exhausted,
        Outcome::Aborted => RunState::Aborted,
    }
}

/// A search ends in exactly one of `Found`, `Exhausted` and `Aborted`; from
/// there the run can only terminate, and a terminated run goes nowhere: no
/// state is entered twice.
pub proof fn lemma_no_reentry(state: RunState, event: RunEvent)
    ensures
        state == RunState::Searching && next_state(state, event) is Some ==> is_terminal(
            next_state(state, event)->Some_0,
        ),
        is_terminal(state) && next_state(state, event) is Some ==> next_state(state, event)
            == Some(RunState::Terminated),
        state == RunState::Terminated ==> next_state(state, event) is None,
        next_state(state, event) is Some ==> next_state(state, event)->Some_0 != RunState::Idle
            && next_state(state, event)->Some_0 != state,
{
}

} // verus!
