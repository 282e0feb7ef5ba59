use vstd::prelude::*;

use crate::audio::{AudioModifier, AudioState};
use crate::display::{DisplayModifier, DisplayState};
use crate::error::Error;
use crate::sleep::Sleeper;
use crate::steam::{SteamModifier, SteamState};
use crate::task::Task;

verus! {

/// What the convergence loop does once a reconciliation pass has finished:
/// stop because the pass changed nothing, pause and attempt again, or stop
/// because the attempt budget is spent.
#[derive(Debug, Copy, Clone, PartialEq, Eq, Structural)]
pub enum LoopAction {
    Converged,
    SleepThenRetry,
    Exhausted,
}

/// Whether a reconciliation pass changed anything: true iff at least one
/// subsystem reconciler reported a change.
pub fn pass_changed(display_changed: bool, audio_changed: bool, steam_changed: bool) -> (r: bool)
    ensures
        r == (display_changed || audio_changed || steam_changed),
{
    match (display_changed, audio_changed, steam_changed) {
        (false, false, false) => false,
        _ => true,
    }
}

/// The decision the convergence loop takes after attempt number `attempt`
/// (counted from zero, below `max_attempts`): a pass that produced no
/// changes anywhere has converged; otherwise another attempt follows after
/// the pause while the budget lasts, and a change on the budget's last
/// attempt is exhaustion.
pub fn next_action(changed: bool, attempt: usize, max_attempts: usize) -> (r: LoopAction)
    requires
        attempt < max_attempts,
    ensures
        r == (if !changed {
            LoopAction::Converged
        } else if attempt + 1 < max_attempts {
            LoopAction::SleepThenRetry
        } else {
            LoopAction::Exhausted
        }),
{
    if !changed {
        LoopAction::Converged
    } else if attempt + 1 < max_attempts {
        LoopAction::SleepThenRetry
    } else {
        LoopAction::Exhausted
    }
}

/// The convergence loop, generic over the three subsystem modifiers and the
/// inter-attempt pause.  Each attempt reconciles the display, audio and
/// launcher subsystems in that fixed order; the loop succeeds as soon as a
/// full pass changes nothing, pauses between attempts, and gives up once
/// `max_attempts` attempts have all reported a change.
#[derive(Debug, Copy, Clone)]
pub struct InnerSystemModifier<D, A, S, W> {
    pub display_modifier: D,
    pub audio_modifier: A,
    pub steam_modifier: S,
    pub sleeper: W,
    pub max_attempts: usize,
    pub sleep_interval: u64,
}

impl<D, A, S, W> InnerSystemModifier<D, A, S, W> where
    D: DisplayModifier,
    A: AudioModifier,
    S: SteamModifier,
    W: Sleeper,
 {
    /// A human-readable listing of the monitors and their identifiers.
    pub fn display_id_readout(&self) -> Result<String, Error> {
        self.display_modifier.get_id_readout()
    }

    /// A human-readable listing of the audio devices and their identifiers.
    pub fn audio_id_readout(&self) -> Result<String, Error> {
        self.audio_modifier.get_id_readout()
    }

    /// One reconciliation attempt: run all three subsystem reconcilers and
    /// report whether any of them changed anything.  The first adapter
    /// failure aborts the attempt at once; the subsystems after the failing
    /// one are not invoked.
    fn check_and_modify(
        &self,
        display_state: &DisplayState,
        audio_state: &AudioState,
        steam_state: &SteamState,
    ) -> (r: Result<bool, Error>)
        ensures
            display_state.is_spec_empty() && audio_state.is_spec_empty() && *steam_state is Unset
                ==> (r matches Ok(b) ==> !b),
    {
        let display_result: bool = match self.display_modifier.check_and_modify(display_state) {
            Ok(b) => b,
            Err(e) => return Err(e),
        };
        let audio_result: bool = match self.audio_modifier.check_and_modify(audio_state) {
            Ok(b) => b,
            Err(e) => return Err(e),
        };
        let steam_result: bool = match self.steam_modifier.check_and_modify(steam_state) {
            Ok(b) => b,
            Err(e) => return Err(e),
        };
        Ok(pass_changed(display_result, audio_result, steam_result))
    }

    /// Drive the system toward the task across at most `max_attempts`
    /// attempts, pausing `sleep_interval` seconds between consecutive
    /// attempts.  Returns `Ok(true)` when an attempt changed nothing
    /// (converged), `Ok(false)` when the budget ran out while changes were
    /// still being applied (a valid outcome, not an error), and the first
    /// adapter error unchanged: a failing tool will not self-heal, so no
    /// attempt is retried.
    pub fn run(&self, task: &Task) -> (r: Result<bool, Error>)
        ensures
            self.max_attempts == 0 ==> r == Ok::<bool, Error>(false),
            task.is_spec_empty() && self.max_attempts > 0 ==> (r matches Ok(b) ==> b),
    {
        let mut attempt: usize = 0;
        while attempt < self.max_attempts
            invariant
                attempt <= self.max_attempts,
                task.is_spec_empty() ==> attempt == 0,
            decreases self.max_attempts - attempt,
        {
            let changed: bool = match self.check_and_modify(
                &task.display_state,
                &task.audio_state,
                &task.steam_state,
            ) {
                Ok(b) => b,
                Err(e) => return Err(e),
            };
            match next_action(changed, attempt, self.max_attempts) {
                LoopAction::Converged => {
                    return Ok(true);
                },
                LoopAction::SleepThenRetry => {
                    self.sleeper.sleep(self.sleep_interval);
                    attempt = attempt + 1;
                },
                LoopAction::Exhausted => {
                    return Ok(false);
                },
            }
        }
        Ok(false)
    }
}

} // verus!
