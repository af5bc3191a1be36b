//! The process-wide logger is an init-once slot: installing succeeds
//! exactly once, a second attempt reports an error and leaves the
//! first installation active. A reset is offered for test isolation.

use vstd::prelude::*;

verus! {

/// Why an initialization attempt failed.
#[derive(Clone, Copy, Debug, PartialEq, Eq, Structural)]
pub enum InitError {
    AlreadyInitialized,
}

/// One initialization attempt: the slot ends up occupied either way,
/// and the attempt succeeds exactly when the slot was free.
pub open spec fn init_step(initialized: bool) -> (bool, bool) {
    (true, !initialized)
}

/// The init-once slot for the process-wide logger.
#[derive(Debug)]
pub struct LoggerSlot {
    pub initialized: bool,
}

impl LoggerSlot {
    /// A free slot: no logger installed yet.
    pub fn new() -> (r: LoggerSlot)
        ensures
            !r.initialized,
    {
        LoggerSlot { initialized: false }
    }

    /// Attempts to install the process-wide logger: succeeds when the
    /// slot is free, fails with `AlreadyInitialized` when it is not,
    /// leaving the earlier installation active.
    pub fn try_init(&mut self) -> (r: Result<(), InitError>)
        ensures
            (final(self).initialized, r is Ok) == init_step(old(self).initialized),
            r is Err ==> r == Err::<(), InitError>(InitError::AlreadyInitialized),
    {
        if self.initialized {
            Err(InitError::AlreadyInitialized)
        } else {
            self.initialized = true;
            Ok(())
        }
    }

    /// Frees the slot, for test isolation.
    pub fn reset(&mut self)
        ensures
            !final(self).initialized,
    {
        self.initialized = false;
    }

    /// Whether a logger is installed.
    pub fn is_initialized(&self) -> (b: bool)
        ensures
            b == self.initialized,
    {
        self.initialized
    }
}

/// Initialization happens exactly once: from a free slot the first
/// attempt succeeds and installs the logger; the second attempt fails
/// and the logger stays installed.
pub proof fn lemma_init_exactly_once(s0: bool)
    requires
        !s0,
    ensures
        ({
            let (s1, ok1) = init_step(s0);
            let (s2, ok2) = init_step(s1);
            ok1 && s1 && !ok2 && s2
        }),
{
}

} // verus!
