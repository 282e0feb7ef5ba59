use vstd::prelude::*;

use crate::error::Error;

verus! {

/// Run-mode of the launcher process.  `Unset` is a sentinel meaning "no
/// desired state specified"; an adapter never reports it as an observed
/// state.
#[derive(Debug, Copy, Clone, PartialEq, Eq, Structural)]
pub enum SteamState {
    Unset,
    NotRunning,
    RunningNormal,
    RunningBigPicture,
}

impl SteamState {
    pub fn new() -> (r: SteamState)
        ensures
            r == SteamState::Unset,
    {
        SteamState::Unset
    }

    pub fn is_empty(&self) -> (r: bool)
        ensures
            r == (*self is Unset),
    {
        match self {
            SteamState::Unset => true,
            _ => false,
        }
    }
}

/// A corrective action for the launcher subsystem.  `EnableBigPicture` and
/// `DisableBigPicture` may be compound for a concrete adapter (for example
/// kill-then-relaunch), but the convergence loop treats each as one atomic
/// objective.
#[derive(Debug, Copy, Clone, PartialEq, Eq, Structural)]
pub enum SteamObjective {
    Kill,
    Launch,
    LaunchBigPicture,
    EnableBigPicture,
    DisableBigPicture,
}

/// The launcher transition table, keyed by (desired, observed).  An unset
/// desired state never yields an objective; a desired state equal to the
/// observed state yields none either.
pub open spec fn steam_objective(desired: SteamState, observed: SteamState) -> Option<
    SteamObjective,
> {
    match (desired, observed) {
        (SteamState::Unset, _) => None,
        (SteamState::NotRunning, SteamState::NotRunning) => None,
        (SteamState::NotRunning, _) => Some(SteamObjective::Kill),
        (SteamState::RunningNormal, SteamState::NotRunning) => Some(SteamObjective::Launch),
        (SteamState::RunningNormal, SteamState::RunningBigPicture) => Some(
            SteamObjective::DisableBigPicture,
        ),
        (SteamState::RunningNormal, _) => None,
        (SteamState::RunningBigPicture, SteamState::NotRunning) => Some(
            SteamObjective::LaunchBigPicture,
        ),
        (SteamState::RunningBigPicture, SteamState::RunningNormal) => Some(
            SteamObjective::EnableBigPicture,
        ),
        (SteamState::RunningBigPicture, _) => None,
    }
}

/// Compute the launcher objective for a (desired, observed) pair.
pub fn get_objectives(desired: &SteamState, observed: &SteamState) -> (r: Option<SteamObjective>)
    ensures
        r == steam_objective(*desired, *observed),
{
    match (desired, observed) {
        (SteamState::Unset, _) => None,
        (SteamState::NotRunning, SteamState::NotRunning) => None,
        (SteamState::NotRunning, _) => Some(SteamObjective::Kill),
        (SteamState::RunningNormal, SteamState::NotRunning) => Some(SteamObjective::Launch),
        (SteamState::RunningNormal, SteamState::RunningBigPicture) => Some(
            SteamObjective::DisableBigPicture,
        ),
        (SteamState::RunningNormal, _) => None,
        (SteamState::RunningBigPicture, SteamState::NotRunning) => Some(
            SteamObjective::LaunchBigPicture,
        ),
        (SteamState::RunningBigPicture, SteamState::RunningNormal) => Some(
            SteamObjective::EnableBigPicture,
        ),
        (SteamState::RunningBigPicture, _) => None,
    }
}

/// The observed launcher state that applying an objective produces, assuming
/// the adapter does exactly what was asked.
pub open spec fn apply_steam_objective(objective: SteamObjective, observed: SteamState) -> SteamState {
    match objective {
        SteamObjective::Kill => SteamState::NotRunning,
        SteamObjective::Launch => SteamState::RunningNormal,
        SteamObjective::LaunchBigPicture => SteamState::RunningBigPicture,
        SteamObjective::EnableBigPicture => SteamState::RunningBigPicture,
        SteamObjective::DisableBigPicture => SteamState::RunningNormal,
    }
}

/// Idempotence: when the observed launcher state already equals the desired
/// one, the objective calculator yields "no objective".
pub proof fn lemma_steam_objective_idempotent(state: SteamState)
    ensures
        steam_objective(state, state) is None,
{
}

/// An unset desired launcher state yields no objective, whatever the
/// observed state is.
pub proof fn lemma_steam_unset_no_objective(observed: SteamState)
    ensures
        steam_objective(SteamState::Unset, observed) is None,
{
}

/// Single-step convergence: applying the computed objective produces an
/// observed state for which the next objective computation yields "no
/// objective".
pub proof fn lemma_steam_single_step(desired: SteamState, observed: SteamState)
    requires
        steam_objective(desired, observed) is Some,
    ensures
        steam_objective(
            desired,
            apply_steam_objective(steam_objective(desired, observed)->0, observed),
        ) is None,
{
}

/// Interpret the OS window probes: a Big Picture window means the launcher
/// runs in Big Picture mode, any launcher window at all means it runs
/// normally, otherwise it is not running.  Never reports `Unset`.
pub fn steam_state_from_window_flags(big_picture_running: bool, steam_running: bool) -> (r:
    SteamState)
    ensures
        r == (if big_picture_running {
            SteamState::RunningBigPicture
        } else if steam_running {
            SteamState::RunningNormal
        } else {
            SteamState::NotRunning
        }),
        r != SteamState::Unset,
{
    if big_picture_running {
        SteamState::RunningBigPicture
    } else if steam_running {
        SteamState::RunningNormal
    } else {
        SteamState::NotRunning
    }
}

/// The capability set a launcher adapter implements: one observation, five
/// primitive mutations, and the reconciliation step built from them.
pub trait SteamModifier {
    /// Observe the launcher's run-mode.  An observed state is never the
    /// `Unset` sentinel.
    fn get_system_state(&self) -> (r: Result<SteamState, Error>)
        ensures
            r matches Ok(s) ==> s != SteamState::Unset,
    ;

    fn kill_steam(&self) -> Result<(), Error>;

    fn launch_steam(&self) -> Result<(), Error>;

    fn launch_big_picture(&self) -> Result<(), Error>;

    fn enable_big_picture(&self) -> Result<(), Error>;

    fn disable_big_picture(&self) -> Result<(), Error>;

    /// Read the observed state once, compute the objective, apply it through
    /// the matching primitive.  Returns `Ok(true)` iff a primitive was
    /// invoked and succeeded; an unset desired state short-circuits without
    /// reading the system.
    fn check_and_modify(&self, desired_state: &SteamState) -> (r: Result<bool, Error>)
        ensures
            *desired_state is Unset ==> r == Ok::<bool, Error>(false),
    {
        if desired_state.is_empty() {
            return Ok(false);
        }
        let system_state = match self.get_system_state() {
            Ok(s) => s,
            Err(e) => return Err(e),
        };
        match get_objectives(desired_state, &system_state) {
            None => Ok(false),
            Some(SteamObjective::Kill) => match self.kill_steam() {
                Ok(_) => Ok(true),
                Err(e) => Err(e),
            },
            Some(SteamObjective::Launch) => match self.launch_steam() {
                Ok(_) => Ok(true),
                Err(e) => Err(e),
            },
            Some(SteamObjective::LaunchBigPicture) => match self.launch_big_picture() {
                Ok(_) => Ok(true),
                Err(e) => Err(e),
            },
            Some(SteamObjective::EnableBigPicture) => match self.enable_big_picture() {
                Ok(_) => Ok(true),
                Err(e) => Err(e),
            },
            Some(SteamObjective::DisableBigPicture) => match self.disable_big_picture() {
                Ok(_) => Ok(true),
                Err(e) => Err(e),
            },
        }
    }
}

} // verus!
