use vstd::prelude::*;

use crate::audio::AudioModifier;
use crate::display::DisplayModifier;
use crate::error::Error;
use crate::sleep::Sleeper;
use crate::steam::SteamModifier;
use crate::system_modifier_inner::InnerSystemModifier;
use crate::task::Task;

verus! {

/// The attempt budget a freshly built modifier starts with.
pub const DEFAULT_MAX_ATTEMPTS: usize = 5;

/// The pause between attempts, in seconds, a freshly built modifier starts
/// with.
pub const DEFAULT_SLEEP_INTERVAL_SECS: u64 = 5;

/// The public face of the reconciliation engine: the convergence loop
/// together with builder-style configuration of the attempt budget and the
/// inter-attempt pause.
#[derive(Debug, Copy, Clone)]
pub struct SystemModifier<D, A, S, W> {
    pub inner: InnerSystemModifier<D, A, S, W>,
}

impl<D, A, S, W> SystemModifier<D, A, S, W> where
    D: DisplayModifier,
    A: AudioModifier,
    S: SteamModifier,
    W: Sleeper,
 {
    /// Drive the system toward the task.  Returns `Ok(true)` when an
    /// attempt changed nothing (converged), `Ok(false)` when the attempt
    /// budget ran out while changes were still being applied, and the first
    /// adapter error unchanged.
    pub fn run(&self, task: &Task) -> (r: Result<bool, Error>)
        ensures
            self.inner.max_attempts == 0 ==> r == Ok::<bool, Error>(false),
            task.is_spec_empty() && self.inner.max_attempts > 0 ==> (r matches Ok(b) ==> b),
    {
        self.inner.run(task)
    }

    /// A human-readable listing of the monitors and their identifiers.
    pub fn display_id_readout(&self) -> Result<String, Error> {
        self.inner.display_id_readout()
    }

    /// A human-readable listing of the audio devices and their identifiers.
    pub fn audio_id_readout(&self) -> Result<String, Error> {
        self.inner.audio_id_readout()
    }

    /// Wire the engine to concrete adapters, with the default attempt
    /// budget and inter-attempt pause.
    pub fn new(display_modifier: D, audio_modifier: A, steam_modifier: S, sleeper: W) -> (r:
        SystemModifier<D, A, S, W>)
        ensures
            r.inner.display_modifier == display_modifier,
            r.inner.audio_modifier == audio_modifier,
            r.inner.steam_modifier == steam_modifier,
            r.inner.sleeper == sleeper,
            r.inner.max_attempts == DEFAULT_MAX_ATTEMPTS,
            r.inner.sleep_interval == DEFAULT_SLEEP_INTERVAL_SECS,
    {
        SystemModifier {
            inner: InnerSystemModifier {
                display_modifier,
                audio_modifier,
                steam_modifier,
                sleeper,
                max_attempts: DEFAULT_MAX_ATTEMPTS,
                sleep_interval: DEFAULT_SLEEP_INTERVAL_SECS,
            },
        }
    }

    /// Override the attempt budget.
    pub fn with_max_attempts(&mut self, max_attempts: usize)
        ensures
            final(self).inner.max_attempts == max_attempts,
            final(self).inner.sleep_interval == old(self).inner.sleep_interval,
            final(self).inner.display_modifier == old(self).inner.display_modifier,
            final(self).inner.audio_modifier == old(self).inner.audio_modifier,
            final(self).inner.steam_modifier == old(self).inner.steam_modifier,
            final(self).inner.sleeper == old(self).inner.sleeper,
    {
        self.inner.max_attempts = max_attempts
    }

    /// Override the pause between attempts, in seconds.
    pub fn with_sleep_interval(&mut self, sleep_interval: u64)
        ensures
            final(self).inner.sleep_interval == sleep_interval,
            final(self).inner.max_attempts == old(self).inner.max_attempts,
            final(self).inner.display_modifier == old(self).inner.display_modifier,
            final(self).inner.audio_modifier == old(self).inner.audio_modifier,
            final(self).inner.steam_modifier == old(self).inner.steam_modifier,
            final(self).inner.sleeper == old(self).inner.sleeper,
    {
        self.inner.sleep_interval = sleep_interval
    }

    /// End a builder chain, yielding the configured engine.
    pub fn finalize(self) -> (r: SystemModifier<D, A, S, W>)
        ensures
            r == self,
    {
        self
    }
}

} // verus!
