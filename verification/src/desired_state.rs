use vstd::prelude::*;

verus! {

/// The run-mode a caller may request for the launcher process.
#[derive(Debug, Copy, Clone, PartialEq, Eq, Structural)]
pub enum DesiredSteamState {
    BigPicture,
    Normal,
    Off,
}

/// A declarative record of a caller's wishes, assembled with chained
/// builder calls: which monitors to enable or disable, which monitor and
/// audio device should be primary, and the launcher run-mode.  Every field
/// is optional; the record starts empty.
pub struct DesiredState {
    pub monitors: Vec<(String, bool)>,
    pub primary_monitor: Option<String>,
    pub primary_audio: Option<String>,
    pub steam: Option<DesiredSteamState>,
}

impl DesiredState {
    /// A desired state with no wishes recorded.
    pub fn new() -> (r: DesiredState)
        ensures
            r.monitors@ == Seq::<(String, bool)>::empty(),
            r.primary_monitor is None,
            r.primary_audio is None,
            r.steam is None,
    {
        DesiredState { monitors: Vec::new(), primary_monitor: None, primary_audio: None, steam: None }
    }

    /// Record the wish that `monitor_id` be enabled.
    pub fn enable_monitor(self, monitor_id: String) -> (r: DesiredState)
        ensures
            r.monitors@ == self.monitors@.push((monitor_id, true)),
            r.primary_monitor == self.primary_monitor,
            r.primary_audio == self.primary_audio,
            r.steam == self.steam,
    {
        let mut next = self;
        next.monitors.push((monitor_id, true));
        next
    }

    /// Record the wish that `monitor_id` be disabled.
    pub fn disable_monitor(self, monitor_id: String) -> (r: DesiredState)
        ensures
            r.monitors@ == self.monitors@.push((monitor_id, false)),
            r.primary_monitor == self.primary_monitor,
            r.primary_audio == self.primary_audio,
            r.steam == self.steam,
    {
        let mut next = self;
        next.monitors.push((monitor_id, false));
        next
    }

    /// Record the wish that `monitor_id` be the primary monitor.
    pub fn primary_monitor(self, monitor_id: String) -> (r: DesiredState)
        ensures
            r.primary_monitor == Some(monitor_id),
            r.monitors == self.monitors,
            r.primary_audio == self.primary_audio,
            r.steam == self.steam,
    {
        let mut next = self;
        next.primary_monitor = Some(monitor_id);
        next
    }

    /// Record the wish that `audio_id` be the primary audio device.
    pub fn primary_audio(self, audio_id: String) -> (r: DesiredState)
        ensures
            r.primary_audio == Some(audio_id),
            r.monitors == self.monitors,
            r.primary_monitor == self.primary_monitor,
            r.steam == self.steam,
    {
        let mut next = self;
        next.primary_audio = Some(audio_id);
        next
    }

    /// Record the wished launcher run-mode.
    pub fn steam(self, steam_state: DesiredSteamState) -> (r: DesiredState)
        ensures
            r.steam == Some(steam_state),
            r.monitors == self.monitors,
            r.primary_monitor == self.primary_monitor,
            r.primary_audio == self.primary_audio,
    {
        let mut next = self;
        next.steam = Some(steam_state);
        next
    }
}

} // verus!
