//! The state that the workers of one run share: a flag that says that a
//! match was reported, and a counter of the candidates tried so far.

use std::sync::atomic::{AtomicBool, AtomicU64, Ordering};
use vstd::prelude::*;

verus! {

/// The shared state of one run. It is made when the run starts, handed by
/// reference to every worker, and dropped when the run ends.
pub struct SharedRunState {
    found: AtomicBool,
    attempts: AtomicU64,
}

impl SharedRunState {
    /// The state of a run that has not started: no match, no attempts.
    pub fn new() -> (state: SharedRunState) {
        SharedRunState { found: AtomicBool::new(false), attempts: AtomicU64::new(0) }
    }

    /// Whether some worker has reported a match. Relaxed ordering: a stale
    /// answer only delays a worker's stop.
    pub fn is_found(&self) -> (found: bool) {
        self.found.load(Ordering::Relaxed)
    }

    /// Sets the flag if it is not set, and says whether this call set it.
    pub fn try_claim(&self) -> (won: bool) {
        let previous = self.found.compare_exchange(
            false,
            true,
            Ordering::Relaxed,
            Ordering::Relaxed,
        );
        previous.is_ok()
    }

    /// Adds a worker's tally to the counter of attempts.
    pub fn add_attempts(&self, tally: u64) {
        let _ = self.attempts.fetch_add(tally, Ordering::Relaxed);
    }

    /// The attempts counted so far.
    pub fn attempts(&self) -> (total: u64) {
        self.attempts.load(Ordering::Relaxed)
    }
}

} // verus!
