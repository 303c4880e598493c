//! Shorthand for relaxed loads and stores on the shared atomic cells.
//!
//! The cells carry advisory values between threads (counts, flags, timing),
//! never data that other memory accesses depend on, so relaxed ordering is
//! enough. Nothing is known here of the value a load returns: another thread
//! may have stored anything.
use vstd::prelude::*;
use std::sync::atomic::{AtomicBool, AtomicU32, AtomicUsize, Ordering};

verus! {

/// Relaxed load and store.
pub trait AtomicOps {
    /// The plain type that the cell holds.
    type NonAtomic;

    /// Loads the value with `Relaxed` ordering.
    fn lr(&self) -> Self::NonAtomic;

    /// Stores `val` with `Relaxed` ordering.
    fn sr(&self, val: Self::NonAtomic);
}

impl AtomicOps for AtomicU32 {
    type NonAtomic = u32;

    fn lr(&self) -> u32 {
        self.load(Ordering::Relaxed)
    }

    fn sr(&self, val: u32) {
        self.store(val, Ordering::Relaxed);
    }
}

impl AtomicOps for AtomicUsize {
    type NonAtomic = usize;

    fn lr(&self) -> usize {
        self.load(Ordering::Relaxed)
    }

    fn sr(&self, val: usize) {
        self.store(val, Ordering::Relaxed);
    }
}

impl AtomicOps for AtomicBool {
    type NonAtomic = bool;

    fn lr(&self) -> bool {
        self.load(Ordering::Relaxed)
    }

    fn sr(&self, val: bool) {
        self.store(val, Ordering::Relaxed);
    }
}

} // verus!
