//! The cancellation token shared between the controller and its workers.
use std::sync::atomic::{AtomicBool, Ordering};
use std::sync::Arc;
use vstd::prelude::*;

verus! {

/// A broadcast cancellation flag. Clones share one flag: once any holder
/// cancels, every holder observes it at its next check. Nothing ever clears
/// the flag.
///
/// Other threads may set the flag at any time, so no contract here states
/// what `is_cancelled` returns; the worker and controller state machines take
/// the observed value as an argument instead.
#[derive(Clone)]
pub struct CancellationSignal {
    flag: Arc<AtomicBool>,
}

impl CancellationSignal {
    /// A fresh, unset signal.
    pub fn new() -> (r: CancellationSignal) {
        CancellationSignal { flag: Arc::new(AtomicBool::new(false)) }
    }

    /// Sets the flag (sequentially consistent). Setting it again is harmless.
    pub fn cancel(&self) {
        self.flag.store(true, Ordering::SeqCst);
    }

    /// Reads the flag (sequentially consistent), without blocking.
    pub fn is_cancelled(&self) -> (r: bool) {
        self.flag.load(Ordering::SeqCst)
    }
}

} // verus!
