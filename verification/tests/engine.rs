use std::cell::Cell;
use std::rc::Rc;

use steamwig::audio::{AudioModifier, AudioState};
use steamwig::display::{DisplayModifier, DisplayState};
use steamwig::error::Error;
use steamwig::sleep::Sleeper;
use steamwig::steam::{SteamModifier, SteamState};
use steamwig::system_modifier::SystemModifier;
use steamwig::system_modifier_inner::{next_action, pass_changed, LoopAction};
use steamwig::task::Task;

fn s(x: &str) -> String {
    x.to_string()
}

/// A display adapter over an in-memory observed state.
struct FakeDisplay {
    observed: DisplayState,
    reads: Rc<Cell<u32>>,
    actions: Rc<Cell<u32>>,
}

impl DisplayModifier for FakeDisplay {
    fn get_id_readout(&self) -> Result<String, Error> {
        Ok(s("fake display readout"))
    }

    fn get_system_state(&self) -> Result<DisplayState, Error> {
        self.reads.set(self.reads.get() + 1);
        Ok(self.observed.clone())
    }

    fn enable_monitors(&self, _device_ids: &Vec<String>) -> Result<(), Error> {
        self.actions.set(self.actions.get() + 1);
        Ok(())
    }

    fn disable_monitors(&self, _device_ids: &Vec<String>) -> Result<(), Error> {
        self.actions.set(self.actions.get() + 1);
        Ok(())
    }

    fn set_primary_device(&self, _id: &str) -> Result<(), Error> {
        self.actions.set(self.actions.get() + 1);
        Ok(())
    }
}

/// An audio adapter over an in-memory observed state.
struct FakeAudio {
    observed: AudioState,
    reads: Rc<Cell<u32>>,
    actions: Rc<Cell<u32>>,
}

impl AudioModifier for FakeAudio {
    fn get_id_readout(&self) -> Result<String, Error> {
        Ok(s("fake audio readout"))
    }

    fn get_system_state(&self) -> Result<AudioState, Error> {
        self.reads.set(self.reads.get() + 1);
        Ok(self.observed.clone())
    }

    fn set_primary_device(&self, _primary_device_id: &str) -> Result<(), Error> {
        self.actions.set(self.actions.get() + 1);
        Ok(())
    }

    fn set_volume(&self, _volume: u8) -> Result<(), Error> {
        self.actions.set(self.actions.get() + 1);
        Ok(())
    }

    fn set_muted(&self, _muted: bool) -> Result<(), Error> {
        self.actions.set(self.actions.get() + 1);
        Ok(())
    }
}

/// A launcher adapter over an in-memory observed state; can be told to fail
/// its read on one particular attempt.
struct FakeSteam {
    observed: SteamState,
    fail_on_read: Option<u32>,
    reads: Rc<Cell<u32>>,
    actions: Rc<Cell<u32>>,
}

impl SteamModifier for FakeSteam {
    fn get_system_state(&self) -> Result<SteamState, Error> {
        self.reads.set(self.reads.get() + 1);
        if self.fail_on_read == Some(self.reads.get()) {
            return Err(Error::CommandError(s("window lookup failed")));
        }
        Ok(self.observed)
    }

    fn kill_steam(&self) -> Result<(), Error> {
        self.actions.set(self.actions.get() + 1);
        Ok(())
    }

    fn launch_steam(&self) -> Result<(), Error> {
        self.actions.set(self.actions.get() + 1);
        Ok(())
    }

    fn launch_big_picture(&self) -> Result<(), Error> {
        self.actions.set(self.actions.get() + 1);
        Ok(())
    }

    fn enable_big_picture(&self) -> Result<(), Error> {
        self.actions.set(self.actions.get() + 1);
        Ok(())
    }

    fn disable_big_picture(&self) -> Result<(), Error> {
        self.actions.set(self.actions.get() + 1);
        Ok(())
    }
}

struct FakeSleeper {
    sleeps: Rc<Cell<u32>>,
}

impl Sleeper for FakeSleeper {
    fn sleep(&self, _seconds: u64) {
        self.sleeps.set(self.sleeps.get() + 1);
    }
}

struct Counters {
    display_reads: Rc<Cell<u32>>,
    audio_reads: Rc<Cell<u32>>,
    steam_reads: Rc<Cell<u32>>,
    sleeps: Rc<Cell<u32>>,
}

fn engine(
    observed_display: DisplayState,
    observed_audio: AudioState,
    observed_steam: SteamState,
    steam_fail_on_read: Option<u32>,
) -> (SystemModifier<FakeDisplay, FakeAudio, FakeSteam, FakeSleeper>, Counters) {
    let counters = Counters {
        display_reads: Rc::new(Cell::new(0)),
        audio_reads: Rc::new(Cell::new(0)),
        steam_reads: Rc::new(Cell::new(0)),
        sleeps: Rc::new(Cell::new(0)),
    };
    let modifier = SystemModifier::new(
        FakeDisplay {
            observed: observed_display,
            reads: counters.display_reads.clone(),
            actions: Rc::new(Cell::new(0)),
        },
        FakeAudio {
            observed: observed_audio,
            reads: counters.audio_reads.clone(),
            actions: Rc::new(Cell::new(0)),
        },
        FakeSteam {
            observed: observed_steam,
            fail_on_read: steam_fail_on_read,
            reads: counters.steam_reads.clone(),
            actions: Rc::new(Cell::new(0)),
        },
        FakeSleeper { sleeps: counters.sleeps.clone() },
    );
    (modifier, counters)
}

/// A task whose launcher wish can never be met by the fake: the observed
/// state is pinned, so every attempt reports a change.
fn stubborn_setup() -> (SystemModifier<FakeDisplay, FakeAudio, FakeSteam, FakeSleeper>, Counters, Task)
{
    let (modifier, counters) = engine(
        DisplayState::new(),
        AudioState::new(),
        SteamState::RunningNormal,
        None,
    );
    let mut task = Task::new();
    task.set_steam_not_running();
    (modifier, counters, task)
}

#[test]
fn run_exhausts_the_attempt_budget_with_a_sleep_between_attempts() {
    let (mut modifier, counters, task) = stubborn_setup();
    modifier.with_max_attempts(3);
    modifier.with_sleep_interval(0);
    let result = modifier.run(&task);
    assert_eq!(result, Ok(false));
    assert_eq!(counters.steam_reads.get(), 3);
    assert_eq!(counters.sleeps.get(), 2);
}

#[test]
fn run_converges_after_one_attempt_without_sleeping() {
    let (mut modifier, counters) = {
        let (m, c) = engine(
            DisplayState::new(),
            AudioState::new(),
            SteamState::RunningNormal,
            None,
        );
        (m, c)
    };
    modifier.with_max_attempts(3);
    let mut task = Task::new();
    task.set_steam_running_normal();
    let result = modifier.run(&task);
    assert_eq!(result, Ok(true));
    assert_eq!(counters.steam_reads.get(), 1);
    assert_eq!(counters.sleeps.get(), 0);
}

#[test]
fn run_aborts_on_the_first_adapter_failure() {
    let observed_display = DisplayState {
        primary_device_id: s("B"),
        enabled_device_ids: Vec::new(),
        disabled_device_ids: Vec::new(),
    };
    let (mut modifier, counters) = engine(
        observed_display,
        AudioState::new(),
        SteamState::RunningNormal,
        Some(2),
    );
    modifier.with_max_attempts(5);
    let mut task = Task::new();
    task.set_primary_display(s("A"));
    task.set_steam_not_running();
    let result = modifier.run(&task);
    assert_eq!(result, Err(Error::CommandError(s("window lookup failed"))));
    // The failure hit on attempt 2: both earlier subsystems ran twice, no
    // third attempt was started, and only the one inter-attempt pause
    // happened.
    assert_eq!(counters.display_reads.get(), 2);
    assert_eq!(counters.audio_reads.get(), 2);
    assert_eq!(counters.steam_reads.get(), 2);
    assert_eq!(counters.sleeps.get(), 1);
}

#[test]
fn run_with_an_empty_task_reads_nothing_that_short_circuits() {
    let (modifier, counters) = engine(
        DisplayState::new(),
        AudioState::new(),
        SteamState::RunningNormal,
        None,
    );
    let task = Task::new();
    let result = modifier.run(&task);
    assert_eq!(result, Ok(true));
    // The display and launcher reconcilers short-circuit on an empty desired
    // state; the audio reconciler always reads.
    assert_eq!(counters.display_reads.get(), 0);
    assert_eq!(counters.audio_reads.get(), 1);
    assert_eq!(counters.steam_reads.get(), 0);
    assert_eq!(counters.sleeps.get(), 0);
}

#[test]
fn run_with_a_zero_budget_reports_exhaustion_at_once() {
    let (mut modifier, counters, task) = stubborn_setup();
    modifier.with_max_attempts(0);
    assert_eq!(modifier.run(&task), Ok(false));
    assert_eq!(counters.steam_reads.get(), 0);
    assert_eq!(counters.sleeps.get(), 0);
}

#[test]
fn readouts_pass_through_the_adapters() {
    let (modifier, _counters) = engine(
        DisplayState::new(),
        AudioState::new(),
        SteamState::NotRunning,
        None,
    );
    assert_eq!(modifier.display_id_readout(), Ok(s("fake display readout")));
    assert_eq!(modifier.audio_id_readout(), Ok(s("fake audio readout")));
}

#[test]
fn finalize_yields_the_configured_engine() {
    let (mut modifier, counters, task) = stubborn_setup();
    modifier.with_max_attempts(1);
    modifier.with_sleep_interval(7);
    let modifier = modifier.finalize();
    assert_eq!(modifier.run(&task), Ok(false));
    assert_eq!(counters.steam_reads.get(), 1);
    assert_eq!(counters.sleeps.get(), 0);
}

#[test]
fn pass_changed_combines_the_three_change_flags() {
    assert_eq!(pass_changed(false, false, false), false);
    assert_eq!(pass_changed(true, false, false), true);
    assert_eq!(pass_changed(false, true, false), true);
    assert_eq!(pass_changed(false, false, true), true);
    assert_eq!(pass_changed(true, true, true), true);
}

#[test]
fn next_action_follows_the_convergence_rule() {
    assert_eq!(next_action(false, 0, 3), LoopAction::Converged);
    assert_eq!(next_action(false, 2, 3), LoopAction::Converged);
    assert_eq!(next_action(true, 0, 3), LoopAction::SleepThenRetry);
    assert_eq!(next_action(true, 1, 3), LoopAction::SleepThenRetry);
    assert_eq!(next_action(true, 2, 3), LoopAction::Exhausted);
    assert_eq!(next_action(true, 0, 1), LoopAction::Exhausted);
}

#[test]
fn audio_reconciler_reasserts_volume_on_device_switch() {
    // Through the reconciliation step itself: a device switch re-pushes the
    // equal volume, so two primitives run.
    let actions = Rc::new(Cell::new(0));
    let fake = FakeAudio {
        observed: AudioState {
            primary_device_id: s("Y"),
            volume: Some(80),
            muted: None,
        },
        reads: Rc::new(Cell::new(0)),
        actions: actions.clone(),
    };
    let desired = AudioState {
        primary_device_id: s("X"),
        volume: Some(80),
        muted: None,
    };
    assert_eq!(fake.check_and_modify(&desired), Ok(true));
    assert_eq!(actions.get(), 2);
}

#[test]
fn display_reconciler_skips_an_empty_desired_state() {
    let reads = Rc::new(Cell::new(0));
    let fake = FakeDisplay {
        observed: DisplayState::new(),
        reads: reads.clone(),
        actions: Rc::new(Cell::new(0)),
    };
    assert_eq!(fake.check_and_modify(&DisplayState::new()), Ok(false));
    assert_eq!(reads.get(), 0);
}

#[test]
fn steam_reconciler_skips_an_unset_desired_state() {
    let reads = Rc::new(Cell::new(0));
    let fake = FakeSteam {
        observed: SteamState::RunningNormal,
        fail_on_read: None,
        reads: reads.clone(),
        actions: Rc::new(Cell::new(0)),
    };
    assert_eq!(fake.check_and_modify(&SteamState::Unset), Ok(false));
    assert_eq!(reads.get(), 0);
}
