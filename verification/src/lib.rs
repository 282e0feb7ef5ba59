//! A desired-state reconciler for a gaming/HTPC workstation.
//!
//! The caller describes a target configuration for three subsystems —
//! display topology, default audio device, and the run-mode of the Steam
//! launcher — as a task.  The convergence loop repeatedly reads the live
//! state of each subsystem through a *modifier* (a capability trait
//! implemented by a concrete adapter), computes the minimal objective that
//! still separates desired from observed state, applies it, and stops once
//! a full pass changes nothing or the attempt budget runs out.

pub mod audio;
pub mod audio_readout;
pub mod desired_state;
pub mod display;
pub mod display_readout;
pub mod error;
pub mod sleep;
pub mod steam;
pub mod system_modifier;
pub mod system_modifier_inner;
pub mod task;

pub use error::{ADCParseError, Error, MMTParseError};
pub use system_modifier::SystemModifier;
pub use task::Task;
