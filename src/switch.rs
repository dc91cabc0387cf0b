use std::sync::atomic::{AtomicBool, Ordering};
use std::sync::Arc;
use vstd::prelude::*;

verus! {

/// A flag shared between threads that selects the dimmed style when set.
///
/// Reads and writes are single relaxed atomic operations: no lock is taken, and
/// a write is seen by some later read, with no promise as to which.
pub struct StyleSwitch {
    flag: Arc<AtomicBool>,
}

impl StyleSwitch {
    /// The shared cell that holds the flag.
    pub closed spec fn cell(&self) -> Arc<AtomicBool> {
        self.flag
    }

    /// A switch of its own, starting at `initial`.
    pub fn new(initial: bool) -> (r: Self) {
        StyleSwitch { flag: Arc::new(AtomicBool::new(initial)) }
    }

    /// A switch over a flag that others hold too.
    pub fn shared(flag: Arc<AtomicBool>) -> (r: Self)
        ensures
            r.cell() == flag,
    {
        StyleSwitch { flag }
    }

    /// The value of the flag as read now.
    pub fn get(&self) -> (r: bool) {
        self.flag.load(Ordering::Relaxed)
    }

    /// Sets the flag; calls already under way keep the value they read.
    pub fn set(&self, value: bool) {
        self.flag.store(value, Ordering::Relaxed);
    }
}

} // verus!
