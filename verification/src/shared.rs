//! The two pieces of state that units of one model share: the progress
//! counter and the shutdown flag. Both are lock-free atomics behind handles
//! that offer nothing but the permitted operations, so a counter can never be
//! reset and a raised flag can never be lowered.

use std::sync::atomic::AtomicBool;
use std::sync::atomic::AtomicU64;
use std::sync::atomic::Ordering;
use std::sync::Arc;
use vstd::prelude::*;

verus! {

/// `Arc::clone`: the new pointer refers to the same allocation as `handle`,
/// so what the two point to is one and the same value.
#[verifier::external_body]
fn same_allocation<V>(handle: &Arc<V>) -> (other: Arc<V>)
    ensures
        other == *handle,
{
    Arc::clone(handle)
}

/// A handle to a 64-bit tally of background progress. Any number of handles
/// may refer to one tally; every handle may add one to it or read it.
pub struct SharedCounter {
    cell: Arc<AtomicU64>,
}

impl SharedCounter {
    /// A fresh tally, starting at zero.
    pub fn new() -> (counter: Self) {
        SharedCounter { cell: Arc::new(AtomicU64::new(0)) }
    }

    /// Another handle to the same tally.
    pub fn share(&self) -> (other: Self)
        ensures
            other == *self,
    {
        SharedCounter { cell: same_allocation(&self.cell) }
    }

    /// Adds one to the tally, wrapping at the top of the 64-bit range, and
    /// returns the value the tally had just before. Other handles may change
    /// the tally at any moment, so nothing is promised about that value.
    pub fn increment(&self) -> (before: u64) {
        self.cell.fetch_add(1, Ordering::Relaxed)
    }

    /// Reads the tally as it is at this moment.
    pub fn load(&self) -> (now: u64) {
        self.cell.load(Ordering::Relaxed)
    }
}

/// A handle to the shutdown signal of one model instance. The signal starts
/// lowered; once raised it stays raised.
pub struct ShutdownFlag {
    cell: Arc<AtomicBool>,
}

impl ShutdownFlag {
    /// A fresh signal, lowered.
    pub fn new() -> (flag: Self) {
        ShutdownFlag { cell: Arc::new(AtomicBool::new(false)) }
    }

    /// Another handle to the same signal.
    pub fn share(&self) -> (other: Self)
        ensures
            other == *self,
    {
        ShutdownFlag { cell: same_allocation(&self.cell) }
    }

    /// Raises the signal. Raising it again changes nothing.
    pub fn raise(&self) {
        self.cell.store(true, Ordering::Relaxed)
    }

    /// Reads the signal as it is at this moment.
    pub fn is_raised(&self) -> (raised: bool) {
        self.cell.load(Ordering::Relaxed)
    }
}

} // verus!
