use vstd::prelude::*;

use crate::audio::AudioState;
use crate::display::DisplayState;
use crate::steam::SteamState;

verus! {

/// The unit of work submitted to the convergence loop: the desired state of
/// all three subsystems.  A freshly built task expresses no preference; the
/// setters add one attribute each.  The engine only reads a task.
#[derive(Debug, Clone, PartialEq)]
pub struct Task {
    pub display_state: DisplayState,
    pub audio_state: AudioState,
    pub steam_state: SteamState,
}

impl Task {
    /// Whether the desired state of every subsystem is empty.
    pub open spec fn is_spec_empty(self) -> bool {
        &&& self.display_state.is_spec_empty()
        &&& self.audio_state.is_spec_empty()
        &&& self.steam_state is Unset
    }

    /// A task with no preference for any subsystem.
    pub fn new() -> (r: Task)
        ensures
            r.display_state.is_spec_empty(),
            r.audio_state.is_spec_empty(),
            r.steam_state == SteamState::Unset,
    {
        Task {
            display_state: DisplayState::new(),
            audio_state: AudioState::new(),
            steam_state: SteamState::new(),
        }
    }

    pub fn set_primary_display(&mut self, id: String)
        ensures
            final(self).display_state.primary_device_id == id,
            final(self).display_state.enabled_device_ids == old(self).display_state.enabled_device_ids,
            final(self).display_state.disabled_device_ids == old(
                self,
            ).display_state.disabled_device_ids,
            final(self).audio_state == old(self).audio_state,
            final(self).steam_state == old(self).steam_state,
    {
        self.display_state.primary_device_id = id
    }

    pub fn enable_display(&mut self, id: String)
        ensures
            final(self).display_state.enabled_device_ids@ == old(
                self,
            ).display_state.enabled_device_ids@.push(id),
            final(self).display_state.primary_device_id == old(self).display_state.primary_device_id,
            final(self).display_state.disabled_device_ids == old(
                self,
            ).display_state.disabled_device_ids,
            final(self).audio_state == old(self).audio_state,
            final(self).steam_state == old(self).steam_state,
    {
        self.display_state.enabled_device_ids.push(id)
    }

    pub fn enable_displays(&mut self, ids: Vec<String>)
        ensures
            final(self).display_state.enabled_device_ids@ == old(
                self,
            ).display_state.enabled_device_ids@ + ids@,
            final(self).display_state.primary_device_id == old(self).display_state.primary_device_id,
            final(self).display_state.disabled_device_ids == old(
                self,
            ).display_state.disabled_device_ids,
            final(self).audio_state == old(self).audio_state,
            final(self).steam_state == old(self).steam_state,
    {
        let mut i: usize = 0;
        proof {
            assert(self.display_state.enabled_device_ids@ =~= old(
                self,
            ).display_state.enabled_device_ids@ + ids@.take(0));
        }
        while i < ids.len()
            invariant
                i <= ids.len(),
                self.display_state.enabled_device_ids@ == old(
                    self,
                ).display_state.enabled_device_ids@ + ids@.take(i as int),
                self.display_state.primary_device_id == old(self).display_state.primary_device_id,
                self.display_state.disabled_device_ids == old(self).display_state.disabled_device_ids,
                self.audio_state == old(self).audio_state,
                self.steam_state == old(self).steam_state,
            decreases ids.len() - i,
        {
            let ghost prev = self.display_state.enabled_device_ids@;
            self.display_state.enabled_device_ids.push(ids[i].clone());
            proof {
                assert(ids@.take(i + 1) =~= ids@.take(i as int).push(ids@[i as int]));
                assert(self.display_state.enabled_device_ids@ =~= old(
                    self,
                ).display_state.enabled_device_ids@ + ids@.take(i + 1));
            }
            i = i + 1;
        }
        proof {
            assert(ids@.take(i as int) =~= ids@);
        }
    }

    pub fn disable_display(&mut self, id: String)
        ensures
            final(self).display_state.disabled_device_ids@ == old(
                self,
            ).display_state.disabled_device_ids@.push(id),
            final(self).display_state.primary_device_id == old(self).display_state.primary_device_id,
            final(self).display_state.enabled_device_ids == old(self).display_state.enabled_device_ids,
            final(self).audio_state == old(self).audio_state,
            final(self).steam_state == old(self).steam_state,
    {
        self.display_state.disabled_device_ids.push(id)
    }

    pub fn disable_displays(&mut self, ids: Vec<String>)
        ensures
            final(self).display_state.disabled_device_ids@ == old(
                self,
            ).display_state.disabled_device_ids@ + ids@,
            final(self).display_state.primary_device_id == old(self).display_state.primary_device_id,
            final(self).display_state.enabled_device_ids == old(self).display_state.enabled_device_ids,
            final(self).audio_state == old(self).audio_state,
            final(self).steam_state == old(self).steam_state,
    {
        let mut i: usize = 0;
        proof {
            assert(self.display_state.disabled_device_ids@ =~= old(
                self,
            ).display_state.disabled_device_ids@ + ids@.take(0));
        }
        while i < ids.len()
            invariant
                i <= ids.len(),
                self.display_state.disabled_device_ids@ == old(
                    self,
                ).display_state.disabled_device_ids@ + ids@.take(i as int),
                self.display_state.primary_device_id == old(self).display_state.primary_device_id,
                self.display_state.enabled_device_ids == old(self).display_state.enabled_device_ids,
                self.audio_state == old(self).audio_state,
                self.steam_state == old(self).steam_state,
            decreases ids.len() - i,
        {
            self.display_state.disabled_device_ids.push(ids[i].clone());
            proof {
                assert(ids@.take(i + 1) =~= ids@.take(i as int).push(ids@[i as int]));
                assert(self.display_state.disabled_device_ids@ =~= old(
                    self,
                ).display_state.disabled_device_ids@ + ids@.take(i + 1));
            }
            i = i + 1;
        }
        proof {
            assert(ids@.take(i as int) =~= ids@);
        }
    }

    pub fn set_primary_audio(&mut self, id: String)
        ensures
            final(self).audio_state.primary_device_id == id,
            final(self).audio_state.volume == old(self).audio_state.volume,
            final(self).audio_state.muted == old(self).audio_state.muted,
            final(self).display_state == old(self).display_state,
            final(self).steam_state == old(self).steam_state,
    {
        self.audio_state.primary_device_id = id
    }

    /// Set the desired volume, clamped to the valid range 0 to 100.
    pub fn set_volume(&mut self, volume: u8)
        ensures
            final(self).audio_state.volume == Some(
                if volume > 100 {
                    100u8
                } else {
                    volume
                },
            ),
            final(self).audio_state.primary_device_id == old(self).audio_state.primary_device_id,
            final(self).audio_state.muted == old(self).audio_state.muted,
            final(self).display_state == old(self).display_state,
            final(self).steam_state == old(self).steam_state,
    {
        let v: u8 = if volume > 100 {
            100
        } else {
            volume
        };
        self.audio_state.volume = Some(v)
    }

    pub fn set_muted(&mut self, muted: bool)
        ensures
            final(self).audio_state.muted == Some(muted),
            final(self).audio_state.primary_device_id == old(self).audio_state.primary_device_id,
            final(self).audio_state.volume == old(self).audio_state.volume,
            final(self).display_state == old(self).display_state,
            final(self).steam_state == old(self).steam_state,
    {
        self.audio_state.muted = Some(muted)
    }

    pub fn set_steam_not_running(&mut self)
        ensures
            final(self).steam_state == SteamState::NotRunning,
            final(self).display_state == old(self).display_state,
            final(self).audio_state == old(self).audio_state,
    {
        self.steam_state = SteamState::NotRunning
    }

    pub fn set_steam_running_normal(&mut self)
        ensures
            final(self).steam_state == SteamState::RunningNormal,
            final(self).display_state == old(self).display_state,
            final(self).audio_state == old(self).audio_state,
    {
        self.steam_state = SteamState::RunningNormal
    }

    pub fn set_steam_running_big_picture(&mut self)
        ensures
            final(self).steam_state == SteamState::RunningBigPicture,
            final(self).display_state == old(self).display_state,
            final(self).audio_state == old(self).audio_state,
    {
        self.steam_state = SteamState::RunningBigPicture
    }

    pub fn finalize(self) -> (r: Task)
        ensures
            r == self,
    {
        self
    }
}

} // verus!
