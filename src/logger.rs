//! Re-entrance guard of the diagnostic logging path.
use vstd::prelude::*;

verus! {

/// The logging path was entered while already held: a breach of the
/// one-writer discipline, which the device treats as fatal.
#[derive(Clone, Copy, Debug, PartialEq, Eq, Structural)]
pub struct LoggerReentrance;

/// What the guard holds: whether a writer is inside, and whether the device
/// is panicking (then every writer is let through).
pub struct LoggerModel {
    pub acquired: bool,
    pub panicking: bool,
}

/// An acquisition: the guard after it, and whether it was granted.
pub open spec fn acquire_step(m: LoggerModel) -> (LoggerModel, bool) {
    if m.panicking {
        (m, true)
    } else if m.acquired {
        (m, false)
    } else {
        (LoggerModel { acquired: true, panicking: false }, true)
    }
}

/// Guard that lets one writer at a time into the logging path.
pub struct LoggerGuard {
    acquired: bool,
    panicking: bool,
}

impl View for LoggerGuard {
    type V = LoggerModel;

    closed spec fn view(&self) -> LoggerModel {
        LoggerModel { acquired: self.acquired, panicking: self.panicking }
    }
}

impl LoggerGuard {
    /// A free guard, not panicking.
    pub fn new() -> (r: Self)
        ensures
            r@ == (LoggerModel { acquired: false, panicking: false }),
    {
        LoggerGuard { acquired: false, panicking: false }
    }

    /// Enters the logging path. Fails when a writer is already inside and the
    /// device is not panicking.
    pub fn acquire(&mut self) -> (r: Result<(), LoggerReentrance>)
        ensures
            final(self)@ == acquire_step(old(self)@).0,
            r is Ok <==> acquire_step(old(self)@).1,
            !old(self)@.panicking && old(self)@.acquired ==> r is Err,
    {
        if !self.panicking {
            let was = self.acquired;
            self.acquired = true;
            if was {
                return Err(LoggerReentrance);
            }
        }
        Ok(())
    }

    /// Leaves the logging path.
    pub fn release(&mut self)
        ensures
            final(self)@ == (LoggerModel { acquired: false, panicking: old(self)@.panicking }),
    {
        self.acquired = false;
    }

    /// Lets every later writer through: the panic report must get out even
    /// from inside a writer.
    pub fn panic_acquire(&mut self)
        ensures
            final(self)@ == (LoggerModel { acquired: old(self)@.acquired, panicking: true }),
    {
        self.panicking = true;
    }
}

/// A second acquisition without a release in between is always detected,
/// unless the device is panicking.
pub proof fn lemma_reentrance_detected(m: LoggerModel)
    requires
        !m.panicking,
    ensures
        acquire_step(acquire_step(m).0).1 == false,
{
}

/// Acquire, release, acquire: a well-nested writer is never refused.
pub proof fn lemma_release_allows_next(m: LoggerModel)
    requires
        acquire_step(m).1,
    ensures
        acquire_step(LoggerModel { acquired: false, panicking: acquire_step(m).0.panicking }).1,
{
}

} // verus!
