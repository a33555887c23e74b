use vstd::prelude::*;

verus! {

/// Everything that can go wrong in the control core.
#[derive(Clone, Copy, Debug, PartialEq, Eq, Hash, Structural)]
pub enum ErrorKind {
    /// The length of a media source did not become known in time.
    MediaLoadTimeout,
    /// A media source could not be opened at all.
    MediaUnavailable,
    /// The playback backend refuses to pause right now.
    NotPausable,
    /// The playback backend failed to start or reposition playback.
    PlaybackFailure,
    /// A dialled digit outside of zero to nine.
    InputOutOfRange,
    /// A remote command that could not be understood.
    MalformedRequest,
    /// A transition that points outside of its graph.
    InvalidTransitionTarget,
}

} // verus!
