use vstd::prelude::*;

verus! {

/// The condition a playback backend reports for one media session.
#[derive(Clone, Copy, Debug, PartialEq, Eq, Hash, Structural)]
pub enum DriverState {
    NothingSpecial,
    Opening,
    Buffering,
    Playing,
    Paused,
    Stopped,
    Ended,
    Error,
}

impl DriverState {
    /// Opening, buffering and playing all count as playing; everything else
    /// counts as not playing.
    pub open spec fn spec_is_playing(self) -> bool {
        self is Opening || self is Buffering || self is Playing
    }

    /// Collapses the backend's condition into playing or not playing.
    #[verifier::when_used_as_spec(spec_is_playing)]
    pub fn is_playing(self) -> (playing: bool)
        ensures
            playing == self.spec_is_playing(),
    {
        match self {
            DriverState::Opening | DriverState::Buffering | DriverState::Playing => true,
            DriverState::NothingSpecial
            | DriverState::Paused
            | DriverState::Stopped
            | DriverState::Ended
            | DriverState::Error => false,
        }
    }
}

/// What a playback backend says about its session when it is polled.
#[derive(Clone, Copy, Debug, PartialEq, Eq, Hash, Structural)]
pub struct Reading {
    /// The condition of the session, which may lag behind recent requests.
    pub state: DriverState,
    /// Elapsed playback position in milliseconds, if the backend knows one.
    pub time: Option<i64>,
    /// Whether the backend would accept a pause right now.
    pub can_pause: bool,
}

/// Something the caller has to do to the playback backend.
#[derive(Clone, Copy, Debug, PartialEq, Eq, Hash, Structural)]
pub enum Command {
    /// Start or resume playback.
    Play,
    /// Pause playback, keeping the position.
    Pause,
    /// Move the playback position to this many milliseconds from the start.
    Seek(i64),
}

/// How an attempt to open a media source ended.
#[derive(Clone, Copy, Debug, PartialEq, Eq, Hash, Structural)]
pub enum Probe {
    /// The backend or the source could not be opened.
    Unavailable,
    /// The source opened, but its length did not arrive in time.
    TimedOut,
    /// The source opened and reported this length in milliseconds.
    Loaded(i64),
}

} // verus!
