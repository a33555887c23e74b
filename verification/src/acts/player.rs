use crate::acts::backend::{Command, DriverState, Probe, Reading};
use crate::error::ErrorKind;
use vstd::prelude::*;

verus! {

/// Nanoseconds in one millisecond.
pub const NANOS_PER_MILLI: u128 = 1_000_000;

/// For this long after a play or pause request the request is believed
/// rather than the backend.
pub const DIRTY_WINDOW: u128 = 50_000_000;

/// How long opening a media source may wait for its length.
pub const LOAD_TIMEOUT: u128 = 4_000_000_000;

/// A backend time in milliseconds as nanoseconds; negative times count as zero.
pub open spec fn millis_to_nanos(millis: int) -> nat {
    if millis > 0 {
        (millis * 1_000_000) as nat
    } else {
        0
    }
}

/// The time that has passed between `since` and `now`, zero if `now` is the
/// earlier of the two.
pub open spec fn time_between(since: nat, now: nat) -> nat {
    if now >= since {
        (now - since) as nat
    } else {
        0
    }
}

/// What a [`Player`] knows: the length of its media and the last request it
/// saw go out.
pub struct PlayerView {
    /// Full length of the media in nanoseconds.
    pub duration: nat,
    /// When the last play or pause request went out, and whether it was a pause.
    pub request: Option<(nat, bool)>,
}

impl PlayerView {
    /// The media is short enough for a backend that counts milliseconds in
    /// an `i64`. This holds of the view of every [`Player`].
    pub open spec fn wf(self) -> bool {
        self.duration <= i64::MAX * 1_000_000
    }

    /// Whether playback counts as running at `now`, given what the backend
    /// reports: a request younger than the dirty window is believed,
    /// otherwise the backend is.
    pub open spec fn playing(self, now: nat, state: DriverState) -> bool {
        match self.request {
            Some((at, paused)) => if time_between(at, now) < DIRTY_WINDOW {
                !paused
            } else {
                state.spec_is_playing()
            },
            None => state.spec_is_playing(),
        }
    }

    /// The elapsed position behind a backend time.
    pub open spec fn played(self, time: Option<i64>) -> nat {
        match time {
            Some(millis) => millis_to_nanos(millis as int),
            None => 0,
        }
    }

    /// The backend position, in milliseconds, for a seek to `from_start`:
    /// positions past the end land on the end.
    pub open spec fn seek_millis(self, from_start: nat) -> int {
        if from_start <= self.duration {
            from_start as int / 1_000_000
        } else {
            self.duration as int / 1_000_000
        }
    }

    /// What the player knows once `command` went out at `now`.
    pub open spec fn performed(self, command: Command, now: nat) -> PlayerView {
        match command {
            Command::Play => PlayerView { request: Some((now, false)), ..self },
            Command::Pause => PlayerView { request: Some((now, true)), ..self },
            Command::Seek(_) => self,
        }
    }
}

/// Transport control for one media session on a backend whose reported
/// condition lags behind the requests made of it.
#[derive(Debug)]
pub struct Player {
    duration: u128,
    last_pause_request: Option<(u128, bool)>,
}

impl View for Player {
    type V = PlayerView;

    closed spec fn view(&self) -> PlayerView {
        PlayerView {
            duration: self.duration as nat,
            request: match self.last_pause_request {
                Some((at, paused)) => Some((at as nat, paused)),
                None => None,
            },
        }
    }
}

impl Player {
    /// The length of the media is a whole number of milliseconds that a
    /// backend can count.
    #[verifier::type_invariant]
    closed spec fn inv(&self) -> bool {
        self.duration <= i64::MAX as u128 * NANOS_PER_MILLI
    }

    /// Makes the player for a media source from the outcome of opening it.
    /// A source that reports a negative length counts as empty.
    pub fn new(probe: Probe) -> (made: Result<Player, ErrorKind>)
        ensures
            match probe {
                Probe::Loaded(millis) => made matches Ok(player) && player@.wf() && player@ == (
                PlayerView { duration: millis_to_nanos(millis as int), request: None }),
                Probe::TimedOut => made matches Err(e) && e == ErrorKind::MediaLoadTimeout,
                Probe::Unavailable => made matches Err(e) && e == ErrorKind::MediaUnavailable,
            },
    {
        match probe {
            Probe::Unavailable => Err(ErrorKind::MediaUnavailable),
            Probe::TimedOut => Err(ErrorKind::MediaLoadTimeout),
            Probe::Loaded(millis) => {
                let duration: u128 = if millis > 0 {
                    millis as u128 * NANOS_PER_MILLI
                } else {
                    0
                };
                Ok(Player { duration, last_pause_request: None })
            },
        }
    }

    /// Decides whether the backend has to be told to play: not if playback
    /// already counts as running.
    pub fn play(&self, now: u128, state: DriverState) -> (command: Option<Command>)
        ensures
            command == if self@.playing(now as nat, state) {
                None
            } else {
                Some(Command::Play)
            },
    {
        if self.playing(now, state) {
            None
        } else {
            Some(Command::Play)
        }
    }

    /// Decides whether the backend has to be told to pause: not if playback
    /// already counts as stopped, and it is an error if the backend would
    /// refuse.
    pub fn pause(&self, now: u128, reading: Reading) -> (command: Result<Option<Command>, ErrorKind>)
        ensures
            command == if !self@.playing(now as nat, reading.state) {
                Ok::<Option<Command>, ErrorKind>(None)
            } else if !reading.can_pause {
                Err(ErrorKind::NotPausable)
            } else {
                Ok(Some(Command::Pause))
            },
    {
        if !self.playing(now, reading.state) {
            Ok(None)
        } else if !reading.can_pause {
            Err(ErrorKind::NotPausable)
        } else {
            Ok(Some(Command::Pause))
        }
    }

    /// Takes note of what became of `command`. If the backend accepted it
    /// at `now`, a play or pause counts as requested from `now` on. If the
    /// backend refused it, nothing is noted and playback has failed.
    pub fn performed(&mut self, command: Command, accepted: bool, now: u128) -> (noted: Result<
        (),
        ErrorKind,
    >)
        ensures
            accepted ==> noted is Ok && final(self)@ == old(self)@.performed(command, now as nat),
            !accepted ==> noted == Err::<(), ErrorKind>(ErrorKind::PlaybackFailure) && final(self)@
                == old(self)@,
        no_unwind
    {
        proof {
            use_type_invariant(&*self);
        }
        if !accepted {
            return Err(ErrorKind::PlaybackFailure);
        }
        match command {
            Command::Play => {
                self.last_pause_request = Some((now, false));
            },
            Command::Pause => {
                self.last_pause_request = Some((now, true));
            },
            Command::Seek(_) => {},
        }
        Ok(())
    }

    /// Whether playback counts as running at `now`.
    pub fn playing(&self, now: u128, state: DriverState) -> (playing: bool)
        ensures
            playing == self@.playing(now as nat, state),
    {
        match self.last_pause_request {
            Some((at, paused)) => {
                let elapsed: u128 = if now >= at {
                    now - at
                } else {
                    0
                };
                if elapsed < DIRTY_WINDOW {
                    !paused
                } else {
                    state.is_playing()
                }
            },
            None => state.is_playing(),
        }
    }

    /// The elapsed playback position, in nanoseconds, behind the backend's
    /// time. An unknown or negative time counts as the start.
    pub fn played(&self, time: Option<i64>) -> (elapsed: u128)
        ensures
            elapsed == self@.played(time),
    {
        match time {
            Some(millis) => if millis > 0 {
                millis as u128 * NANOS_PER_MILLI
            } else {
                0
            },
            None => 0,
        }
    }

    /// Full length of the played media in nanoseconds.
    pub fn duration(&self) -> (length: u128)
        ensures
            length == self@.duration,
            self@.wf(),
    {
        proof {
            use_type_invariant(self);
        }
        self.duration
    }

    /// The command that moves playback to `from_start` nanoseconds, or to the
    /// end of the media if `from_start` lies beyond it.
    pub fn seek(&self, from_start: u128) -> (command: Command)
        ensures
            command == Command::Seek(self@.seek_millis(from_start as nat) as i64),
            0 <= self@.seek_millis(from_start as nat) <= i64::MAX,
            self@.wf(),
    {
        proof {
            use_type_invariant(self);
        }
        let target: u128 = if from_start <= self.duration {
            from_start
        } else {
            self.duration
        };
        Command::Seek((target / NANOS_PER_MILLI) as i64)
    }
}

/// Within the dirty window after a request went out, the player reports the
/// requested condition whatever the backend says; once the window has passed
/// it reports the backend's condition.
pub proof fn law_recent_request_wins(
    player: PlayerView,
    command: Command,
    at: nat,
    now: nat,
    state: DriverState,
)
    requires
        !(command is Seek),
    ensures
        time_between(at, now) < DIRTY_WINDOW ==> player.performed(command, at).playing(now, state)
            == (command is Play),
        time_between(at, now) >= DIRTY_WINDOW ==> player.performed(command, at).playing(now, state)
            == state.spec_is_playing(),
{
}

} // verus!
