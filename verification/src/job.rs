//! The shared flag that records whether a conversion is running.

use vstd::prelude::*;

verus! {

/// Whether a conversion is currently running.
///
/// A driver shares one value between the submitting call and the cancelling
/// call, behind a lock that is held only for the instant of a read or a write.
#[derive(Debug, Clone, Copy, PartialEq, Eq, Structural)]
pub struct JobState {
    pub conversion_active: bool,
}

impl JobState {
    /// The state at process start: no conversion is running.
    pub fn new() -> (state: JobState)
        ensures
            !state.conversion_active,
    {
        JobState { conversion_active: false }
    }

    /// Records that a conversion has started.
    pub fn activate(&mut self)
        ensures
            final(self).conversion_active,
    {
        self.conversion_active = true;
    }

    /// Reads the flag.
    pub fn is_active(&self) -> (active: bool)
        ensures
            active == self.conversion_active,
    {
        self.conversion_active
    }
}

/// Asks the running conversion, if there is one, to stop.
///
/// The flag is cleared whatever it held before, and the request always
/// succeeds: cancelling while nothing runs is not an error. The process is
/// not touched here; the reader of the progress stream ends it when it next
/// looks at the flag.
pub fn cancel_conversion(state: &mut JobState) -> (ack: Result<(), String>)
    ensures
        ack is Ok,
        !final(state).conversion_active,
{
    state.conversion_active = false;
    Ok(())
}

} // verus!
