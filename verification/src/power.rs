//! The sleep-blocker's bookkeeping: whether sleep is currently prevented,
//! and when the platform facility actually has to be called.
//!
//! The platform calls themselves (power assertions, execution-state flags,
//! desktop-bus inhibition) live in the surrounding runtime; this state
//! machine guarantees they are not repeated while already in effect.

use vstd::prelude::*;

verus! {

/// Whether the system is currently kept awake on our behalf.
pub struct SleepState {
    pub prevented: bool,
}

/// The platform call the runtime must make, if any.
#[derive(Debug, Clone, Copy, PartialEq, Eq, Structural)]
pub enum SleepCall {
    /// Acquire the platform's sleep inhibition.
    Prevent,
    /// Release the platform's sleep inhibition.
    Allow,
}

impl SleepState {
    /// Initially nothing is inhibited.
    pub fn new() -> (r: Self)
        ensures
            !r.prevented,
    {
        SleepState { prevented: false }
    }

    /// Marks the platform call's outcome: a successful call flips the state
    /// to what the call established; a failed one leaves it as it was.
    pub fn apply(&mut self, call: SleepCall, ok: bool)
        ensures
            ok ==> final(self).prevented == (call is Prevent),
            !ok ==> final(self).prevented == old(self).prevented,
    {
        if ok {
            self.prevented = match call {
                SleepCall::Prevent => true,
                SleepCall::Allow => false,
            };
        }
    }
}

/// Asks to keep the system awake: while already prevented there is nothing
/// to do and the request succeeds silently; otherwise the platform must be
/// called once.
pub fn prevent_sleep(state: &SleepState) -> (r: Option<SleepCall>)
    ensures
        state.prevented ==> r is None,
        !state.prevented ==> r == Some(SleepCall::Prevent),
{
    if state.prevented {
        None
    } else {
        Some(SleepCall::Prevent)
    }
}

/// Lets the system sleep again: while not prevented there is nothing to do;
/// otherwise the platform must be called once to release the inhibition.
pub fn allow_sleep(state: &SleepState) -> (r: Option<SleepCall>)
    ensures
        !state.prevented ==> r is None,
        state.prevented ==> r == Some(SleepCall::Allow),
{
    if state.prevented {
        Some(SleepCall::Allow)
    } else {
        None
    }
}

} // verus!
