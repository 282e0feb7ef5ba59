use vstd::prelude::*;

use crate::error::Error;

verus! {

/// Desired or observed configuration of the audio subsystem.  An empty
/// `primary_device_id` means "no preference"; `None` for `volume` or
/// `muted` means the field is not part of this state.
#[derive(Debug, Clone, PartialEq)]
pub struct AudioState {
    pub primary_device_id: String,
    pub volume: Option<u8>,
    pub muted: Option<bool>,
}

/// The mathematical value of an audio state: the primary device identifier
/// as a character sequence and the two optional attributes.
pub struct AudioStateV {
    pub primary: Seq<char>,
    pub volume: Option<u8>,
    pub muted: Option<bool>,
}

impl View for AudioState {
    type V = AudioStateV;

    open spec fn view(&self) -> AudioStateV {
        AudioStateV {
            primary: self.primary_device_id@,
            volume: self.volume,
            muted: self.muted,
        }
    }
}

impl AudioState {
    /// An audio state with no preference for any attribute.
    pub fn new() -> (r: AudioState)
        ensures
            r@ == (AudioStateV { primary: Seq::<char>::empty(), volume: None, muted: None }),
    {
        AudioState { primary_device_id: String::new(), volume: None, muted: None }
    }

    /// Whether this state expresses no preference at all.
    pub open spec fn is_spec_empty(self) -> bool {
        audio_view_empty(self@)
    }
}

/// Whether an audio state value carries nothing: no primary device, no
/// volume, no mute flag.
pub open spec fn audio_view_empty(v: AudioStateV) -> bool {
    &&& v.primary.len() == 0
    &&& v.volume is None
    &&& v.muted is None
}

/// The audio objective for a (desired, observed) pair.
///
/// The primary device is carried iff it differs from the observed one.
/// Volume and mute are carried when they differ from the observed values,
/// and also — even when equal — whenever a primary-device change is carried:
/// switching the primary device may reset them, so they are re-asserted.
pub open spec fn audio_objective(d: AudioStateV, s: AudioStateV) -> AudioStateV {
    let primary = if d.primary == s.primary {
        Seq::<char>::empty()
    } else {
        d.primary
    };
    AudioStateV {
        primary: primary,
        volume: if d.volume == s.volume && primary.len() == 0 {
            None
        } else {
            d.volume
        },
        muted: if d.muted == s.muted && primary.len() == 0 {
            None
        } else {
            d.muted
        },
    }
}

/// The attributes of the desired audio state that still have to change,
/// as computed by [`get_objectives`].
#[derive(Debug, Clone, PartialEq)]
pub struct AudioObjective {
    pub primary_device_id: String,
    pub volume: Option<u8>,
    pub muted: Option<bool>,
}

impl View for AudioObjective {
    type V = AudioStateV;

    open spec fn view(&self) -> AudioStateV {
        AudioStateV {
            primary: self.primary_device_id@,
            volume: self.volume,
            muted: self.muted,
        }
    }
}

/// Compute the audio objective; `None` means the subsystem is converged.
pub fn get_objectives(desired_state: &AudioState, system_state: &AudioState) -> (r: Option<
    AudioObjective,
>)
    ensures
        r is None <==> audio_view_empty(audio_objective(desired_state@, system_state@)),
        r matches Some(o) ==> o@ == audio_objective(desired_state@, system_state@),
{
    let primary_matches = desired_state.primary_device_id == system_state.primary_device_id;
    let primary_device_id: String = if primary_matches {
        String::new()
    } else {
        desired_state.primary_device_id.clone()
    };
    let primary_is_empty: bool = primary_matches || desired_state.primary_device_id.as_str().is_empty();
    let volume_matches: bool = match (desired_state.volume, system_state.volume) {
        (None, None) => true,
        (Some(a), Some(b)) => a == b,
        _ => false,
    };
    let volume: Option<u8> = if volume_matches && primary_is_empty {
        None
    } else {
        desired_state.volume
    };
    let muted_matches: bool = match (desired_state.muted, system_state.muted) {
        (None, None) => true,
        (Some(a), Some(b)) => a == b,
        _ => false,
    };
    let muted: Option<bool> = if muted_matches && primary_is_empty {
        None
    } else {
        desired_state.muted
    };
    if primary_is_empty && volume.is_none() && muted.is_none() {
        None
    } else {
        Some(AudioObjective { primary_device_id, volume, muted })
    }
}

/// The observed audio state that applying an objective produces, assuming
/// the adapter applies exactly what was requested.
pub open spec fn apply_audio_objective(objective: AudioStateV, s: AudioStateV) -> AudioStateV {
    AudioStateV {
        primary: if objective.primary.len() > 0 {
            objective.primary
        } else {
            s.primary
        },
        volume: if objective.volume is Some {
            objective.volume
        } else {
            s.volume
        },
        muted: if objective.muted is Some {
            objective.muted
        } else {
            s.muted
        },
    }
}

/// Idempotence: when the observed audio state already equals the desired
/// one, the objective is empty.
pub proof fn lemma_audio_objective_idempotent(d: AudioStateV)
    ensures
        audio_view_empty(audio_objective(d, d)),
{
}

/// An all-empty desired audio state is converged against every observed
/// state.
pub proof fn lemma_audio_empty_desired_converged(d: AudioStateV, s: AudioStateV)
    requires
        audio_view_empty(d),
    ensures
        audio_view_empty(audio_objective(d, s)),
{
}

/// Single-step convergence: applying the computed objective produces an
/// observed state against which the next objective is empty.
pub proof fn lemma_audio_single_step(d: AudioStateV, s: AudioStateV)
    ensures
        audio_view_empty(audio_objective(d, apply_audio_objective(audio_objective(d, s), s))),
{
}

/// The capability set an audio adapter implements: a human-readable device
/// listing, one observation, three primitive mutations, and the
/// reconciliation step built from them.
pub trait AudioModifier {
    /// A human-readable listing of the audio devices and their identifiers.
    fn get_id_readout(&self) -> Result<String, Error>;

    /// Observe the current audio configuration.
    fn get_system_state(&self) -> Result<AudioState, Error>;

    fn set_primary_device(&self, primary_device_id: &str) -> Result<(), Error>;

    fn set_volume(&self, volume: u8) -> Result<(), Error>;

    fn set_muted(&self, muted: bool) -> Result<(), Error>;

    /// Read the observed state once, compute the objective, and apply every
    /// attribute it carries (primary device first, so that a device switch
    /// cannot clobber a just-set volume or mute flag).  Returns `Ok(true)`
    /// iff at least one primitive was invoked and all invoked primitives
    /// succeeded.  An all-empty desired state never reports a change.
    fn check_and_modify(&self, desired_state: &AudioState) -> (r: Result<bool, Error>)
        ensures
            desired_state.is_spec_empty() ==> !(r matches Ok(b) && b),
    {
        let system_state = match self.get_system_state() {
            Ok(s) => s,
            Err(e) => return Err(e),
        };
        proof {
            if desired_state.is_spec_empty() {
                lemma_audio_empty_desired_converged(desired_state@, system_state@);
            }
        }
        let objectives = match get_objectives(desired_state, &system_state) {
            Some(o) => o,
            None => return Ok(false),
        };
        if !objectives.primary_device_id.as_str().is_empty() {
            match self.set_primary_device(objectives.primary_device_id.as_str()) {
                Ok(_) => (),
                Err(e) => return Err(e),
            }
        }
        if let Some(v) = objectives.volume {
            match self.set_volume(v) {
                Ok(_) => (),
                Err(e) => return Err(e),
            }
        }
        if let Some(m) = objectives.muted {
            match self.set_muted(m) {
                Ok(_) => (),
                Err(e) => return Err(e),
            }
        }
        Ok(true)
    }
}

} // verus!
