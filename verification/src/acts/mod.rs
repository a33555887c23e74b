//! Output actuators and the vocabulary shared with their playback backend.

pub mod backend;
pub mod player;
pub mod sound;

pub use backend::{Command, DriverState, Probe, Reading};
pub use player::{Player, PlayerView, DIRTY_WINDOW, LOAD_TIMEOUT, NANOS_PER_MILLI};
pub use sound::{ReenterBehavior, Sound, SoundSpec, SoundSpecView, SoundView};
