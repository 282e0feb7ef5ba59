use vstd::prelude::*;

verus! {

/// The scheduling pause between convergence attempts.  The engine sleeps
/// only through this capability, so a concrete implementation can block the
/// thread while a test double merely records the call.
pub trait Sleeper {
    /// Pause for `seconds` seconds.
    fn sleep(&self, seconds: u64);
}

} // verus!
