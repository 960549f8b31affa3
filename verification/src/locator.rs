//! The window locator: bounded-retry discovery of the managed window.
//!
//! The locator repeatedly asks the window directory for a window the
//! active matcher recognizes.  A hit is returned immediately.  On a
//! miss the attempt counter grows; every fifth attempt backs off for
//! `BACKOFF_SLEEP_MS` before the next query; and once the elapsed time
//! since the first attempt exceeds `LOCATE_TIMEOUT_MS` the search is
//! abandoned as fatal — discovery is assumed permanently impossible and
//! the daemon terminates rather than spinning forever.  The same
//! schedule bounds the focus watcher's initial wait for a window id.

use vstd::prelude::*;

use crate::session::{matcher_matches, matches_window, WindowMatcher, WindowProps};

verus! {

/// The discovery time budget, in milliseconds.
pub const LOCATE_TIMEOUT_MS: u64 = 5000;

/// Every how many failed attempts the locator backs off.
pub const BACKOFF_EVERY: u64 = 5;

/// How long one backoff pause lasts, in milliseconds.
pub const BACKOFF_SLEEP_MS: u64 = 100;

/// What the caller does next after one query of the window directory.
#[derive(Clone, Copy, Debug, PartialEq, Eq, Structural)]
pub enum LocateStep {
    /// The window was found: discovery is over, without further sleeping.
    Found(u32),
    /// Not found: query again at once.
    RetryNow,
    /// Not found: sleep `BACKOFF_SLEEP_MS`, then query again.
    RetryAfterBackoff,
    /// Not found and the time budget is spent: fatal.
    GiveUp,
}

/// The retry state: how many queries have missed so far.
#[derive(Clone, Copy, Debug, PartialEq, Eq, Structural)]
pub struct RetrySchedule {
    pub attempts: u64,
}

/// The decision after one query: a hit ends the search; a miss is
/// fatal once over budget, backs off on every fifth attempt, and
/// otherwise retries at once.  `attempts` counts the misses before
/// this one.
pub open spec fn spec_locate_step(attempts: u64, found: Option<u32>, elapsed_ms: u64) -> LocateStep {
    match found {
        Some(id) => LocateStep::Found(id),
        None => if elapsed_ms > LOCATE_TIMEOUT_MS {
            LocateStep::GiveUp
        } else if (attempts + 1) % (BACKOFF_EVERY as int) == 0 {
            LocateStep::RetryAfterBackoff
        } else {
            LocateStep::RetryNow
        },
    }
}

impl RetrySchedule {
    /// A fresh schedule: no attempt made yet.
    pub fn new() -> (r: RetrySchedule)
        ensures
            r.attempts == 0,
    {
        RetrySchedule { attempts: 0 }
    }

    /// Takes the result of one query and the time elapsed since the
    /// first, and decides what to do next.  A hit leaves the counter
    /// alone; a miss advances it.
    pub fn step(&mut self, found: Option<u32>, elapsed_ms: u64) -> (r: LocateStep)
        requires
            old(self).attempts < u64::MAX,
        ensures
            r == spec_locate_step(old(self).attempts, found, elapsed_ms),
            found is Some ==> final(self).attempts == old(self).attempts,
            found is None ==> final(self).attempts == old(self).attempts + 1,
    {
        match found {
            Some(id) => LocateStep::Found(id),
            None => {
                self.attempts = self.attempts + 1;
                if elapsed_ms > LOCATE_TIMEOUT_MS {
                    LocateStep::GiveUp
                } else if self.attempts % BACKOFF_EVERY == 0 {
                    LocateStep::RetryAfterBackoff
                } else {
                    LocateStep::RetryNow
                }
            },
        }
    }
}

/// The schedule in one statement: a window that already exists is
/// returned by the very first step without any sleeping; misses within
/// the time budget retry at once through the first four attempts; the
/// first backoff pause happens exactly at the fifth attempt.
pub proof fn lemma_backoff_schedule(found: Option<u32>, elapsed_ms: u64, attempts: u64)
    requires
        elapsed_ms <= LOCATE_TIMEOUT_MS,
        attempts < u64::MAX,
    ensures
        found matches Some(id) ==> spec_locate_step(attempts, found, elapsed_ms)
            == LocateStep::Found(id),
        found is None && attempts < 4 ==> spec_locate_step(attempts, found, elapsed_ms)
            == LocateStep::RetryNow,
        found is None && attempts == 4 ==> spec_locate_step(attempts, found, elapsed_ms)
            == LocateStep::RetryAfterBackoff,
{
}

/// Past the time budget a miss is always fatal, whatever the attempt
/// count.
pub proof fn lemma_timeout_is_fatal(elapsed_ms: u64, attempts: u64)
    requires
        elapsed_ms > LOCATE_TIMEOUT_MS,
    ensures
        spec_locate_step(attempts, None::<u32>, elapsed_ms) == LocateStep::GiveUp,
{
}

/// Searches the directory's window list for the first window the
/// matcher recognizes, in the order the directory reported them.
pub fn find_matching_window(windows: &Vec<WindowProps>, m: &WindowMatcher) -> (r: Option<u32>)
    ensures
        match r {
            Some(id) => exists|i: int|
                {
                    &&& 0 <= i < windows@.len()
                    &&& matcher_matches(*m, #[trigger] windows@[i])
                    &&& windows@[i].id == id
                    &&& forall|j: int| 0 <= j < i ==> !matcher_matches(*m, #[trigger] windows@[j])
                },
            None => forall|i: int|
                0 <= i < windows@.len() ==> !matcher_matches(*m, #[trigger] windows@[i]),
        },
{
    let mut i: usize = 0;
    while i < windows.len()
        invariant
            i <= windows@.len(),
            forall|j: int| 0 <= j < i ==> !matcher_matches(*m, #[trigger] windows@[j]),
        decreases windows@.len() - i,
    {
        if matches_window(m, &windows[i]) {
            return Some(windows[i].id);
        }
        i += 1;
    }
    None
}

} // verus!
