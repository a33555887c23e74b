use fernspielapparat::acts::{
    Command, DriverState, Probe, Reading, ReenterBehavior, Sound, SoundSpec,
};
use fernspielapparat::error::ErrorKind;

const MILLI: u128 = 1_000_000;
const SECOND: u128 = 1_000_000_000;

/// A stand-in for a playback backend. It obeys every command, but its
/// reported condition follows a play or pause only after `lag` has passed.
struct Deck {
    now: u128,
    lag: u128,
    state: DriverState,
    turning: Option<(u128, DriverState)>,
    running: bool,
    time: i64,
    length: i64,
}

impl Deck {
    fn new(length: i64) -> Deck {
        Deck {
            now: 0,
            lag: 20 * MILLI,
            state: DriverState::Paused,
            turning: None,
            running: false,
            time: 0,
            length,
        }
    }

    fn reading(&self) -> Reading {
        Reading { state: self.state, time: Some(self.time), can_pause: true }
    }

    fn run(&mut self, command: Command) -> bool {
        match command {
            Command::Play => {
                self.running = true;
                self.turning = Some((self.now + self.lag, DriverState::Playing));
            }
            Command::Pause => {
                self.running = false;
                self.turning = Some((self.now + self.lag, DriverState::Paused));
            }
            Command::Seek(to) => self.time = to,
        }
        true
    }

    fn sleep(&mut self, nanos: u128) {
        self.now += nanos;
        if let Some((at, state)) = self.turning {
            if self.now >= at {
                self.state = state;
                self.turning = None;
            }
        }
        if self.running {
            self.time += (nanos / MILLI) as i64;
            if self.time >= self.length {
                self.time = self.length;
                self.running = false;
                self.turning = None;
                self.state = DriverState::Ended;
            }
        }
    }
}

fn perform(sound: &mut Sound, deck: &mut Deck, script: Vec<Command>) -> Result<(), ErrorKind> {
    for command in script {
        let accepted = deck.run(command);
        sound.performed(command, accepted, deck.now)?;
    }
    Ok(())
}

fn activate(sound: &mut Sound, deck: &mut Deck) -> Result<(), ErrorKind> {
    let script = sound.activate(deck.now, deck.reading());
    perform(sound, deck, script)
}

fn update(sound: &mut Sound, deck: &mut Deck) -> Result<(), ErrorKind> {
    let script: Vec<Command> = sound.update(deck.now, deck.reading().state).into_iter().collect();
    perform(sound, deck, script)
}

fn cancel(sound: &mut Sound, deck: &mut Deck) -> Result<(), ErrorKind> {
    let script: Vec<Command> = sound.cancel(deck.now, deck.reading())?.into_iter().collect();
    perform(sound, deck, script)
}

fn done(sound: &Sound, deck: &Deck) -> Result<bool, ErrorKind> {
    Ok(sound.done(deck.now, deck.reading().state))
}

fn sound(looping: bool, start_offset: u128, reenter: ReenterBehavior, length: i64) -> Sound {
    let spec = SoundSpec::new("test/A Good Bass for Gambling.mp3", looping, start_offset, reenter);
    Sound::from_spec(&spec, Probe::Loaded(length)).expect("Could not make sound")
}

fn at(state: DriverState, time: i64) -> Reading {
    Reading { state, time: Some(time), can_pause: true }
}

#[test]
fn once_with_offset() {
    let mut deck = Deck::new(156_000);
    let mut sound = Sound::from_spec(
        &SoundSpec::new(
            "test/A Good Bass for Gambling.mp3",
            false,
            (2 * 60 + 34) * SECOND, // Start almost at the end
            ReenterBehavior::Backoff(0),
        ),
        Probe::Loaded(156_000),
    )
    .unwrap();

    activate(&mut sound, &mut deck).unwrap();
    update(&mut sound, &mut deck).unwrap();
    assert!(!done(&sound, &deck).unwrap());
    let play_start_time = deck.now;
    while !done(&sound, &deck).unwrap() {
        deck.sleep(SECOND);
        update(&mut sound, &mut deck).unwrap();
    }
    assert!(deck.now - play_start_time < 5 * SECOND);
    assert!(deck.now - play_start_time > 50 * MILLI)
}

#[test]
fn elevator_music_loop_then_cancel() {
    let mut deck = Deck::new(156_000);
    let mut sound = Sound::from_spec(
        &SoundSpec::new(
            "test/A Good Bass for Gambling.mp3",
            true,
            (2 * 60 + 30) * SECOND,
            ReenterBehavior::Backoff(0),
        ),
        Probe::Loaded(156_000),
    )
    .expect("Could not make sound");

    activate(&mut sound, &mut deck).unwrap();
    update(&mut sound, &mut deck).unwrap();
    assert!(!done(&sound, &deck).unwrap());
    deck.sleep(4_000 * MILLI);
    update(&mut sound, &mut deck).unwrap();
    assert!(!done(&sound, &deck).unwrap());

    cancel(&mut sound, &mut deck).unwrap();

    assert!(done(&sound, &deck).unwrap());
}

#[test]
fn from_spec_starts_inactive_and_keeps_spec() {
    let spec = SoundSpec::new("bell.ogg", true, 2 * SECOND, ReenterBehavior::Seek(SECOND));
    assert_eq!(spec.source(), "bell.ogg");
    assert!(spec.is_loop());
    assert_eq!(spec.start_offset(), 2 * SECOND);
    assert_eq!(spec.reenter_behavior(), ReenterBehavior::Seek(SECOND));
    let copy = spec.clone();
    assert_eq!(copy.source(), "bell.ogg");
    assert_eq!(copy.reenter_behavior(), ReenterBehavior::Seek(SECOND));
    let sound = Sound::from_spec(&spec, Probe::Loaded(5_000)).unwrap();
    assert!(!sound.is_activated());
}

#[test]
fn from_spec_fails_when_media_is_unavailable() {
    let spec = SoundSpec::new("missing.mp3", false, 0, ReenterBehavior::Backoff(0));
    assert_eq!(Sound::from_spec(&spec, Probe::Unavailable).err(), Some(ErrorKind::MediaUnavailable));
}

#[test]
fn from_spec_fails_when_media_length_times_out() {
    let spec = SoundSpec::new("slow.mp3", false, 0, ReenterBehavior::Backoff(0));
    assert_eq!(Sound::from_spec(&spec, Probe::TimedOut).err(), Some(ErrorKind::MediaLoadTimeout));
}

#[test]
fn cold_entry_rewinds_resumes_then_places() {
    let mut sound = sound(false, 2 * SECOND, ReenterBehavior::Backoff(3 * SECOND), 100_000);
    let script = sound.activate(0, at(DriverState::Paused, 10_000));
    assert_eq!(script, vec![Command::Seek(2_000), Command::Play, Command::Seek(7_000)]);
    assert!(sound.is_activated());
}

#[test]
fn cold_entry_skips_play_when_already_running() {
    let mut sound = sound(false, 0, ReenterBehavior::Seek(4 * SECOND), 100_000);
    let script = sound.activate(0, at(DriverState::Playing, 10_000));
    assert_eq!(script, vec![Command::Seek(0), Command::Seek(4_000)]);
}

#[test]
fn reenter_with_seek_ignores_played_position() {
    for played in [0, 1, 5_000, 99_999, 100_000, 250_000] {
        for looping in [false, true] {
            let mut sound = sound(looping, SECOND, ReenterBehavior::Seek(42 * SECOND), 100_000);
            let script = sound.activate(0, at(DriverState::Paused, played));
            assert_eq!(script.last(), Some(&Command::Seek(42_000)));
        }
    }
}

#[test]
fn reenter_with_seek_beyond_end_lands_on_end() {
    let mut sound = sound(false, 0, ReenterBehavior::Seek(200 * SECOND), 100_000);
    let script = sound.activate(0, at(DriverState::Paused, 3_000));
    assert_eq!(script.last(), Some(&Command::Seek(100_000)));
}

#[test]
fn backoff_without_loop_subtracts_from_played() {
    let sound = sound(false, 0, ReenterBehavior::Backoff(3 * SECOND), 100_000);
    assert_eq!(sound.seek_on_reenter(false, Some(10_000)), Some(Command::Seek(7_000)));
}

#[test]
fn backoff_without_loop_clamps_to_start_offset() {
    let from_start = sound(false, 0, ReenterBehavior::Backoff(5 * SECOND), 100_000);
    assert_eq!(from_start.seek_on_reenter(false, Some(2_000)), Some(Command::Seek(0)));
    let offset = sound(false, 4 * SECOND, ReenterBehavior::Backoff(5 * SECOND), 100_000);
    assert_eq!(offset.seek_on_reenter(false, Some(2_000)), Some(Command::Seek(4_000)));
    assert_eq!(offset.seek_on_reenter(false, Some(8_000)), Some(Command::Seek(4_000)));
    assert_eq!(offset.seek_on_reenter(false, Some(9_000)), Some(Command::Seek(4_000)));
    assert_eq!(offset.seek_on_reenter(false, Some(9_001)), Some(Command::Seek(4_001)));
    assert_eq!(offset.seek_on_reenter(false, None), Some(Command::Seek(4_000)));
}

#[test]
fn backoff_in_loop_wraps_around_the_end() {
    let sound = sound(true, 0, ReenterBehavior::Backoff(12 * SECOND), 100_000);
    assert_eq!(sound.seek_on_reenter(false, Some(5_000)), Some(Command::Seek(93_000)));
}

#[test]
fn backoff_in_loop_is_taken_modulo_duration() {
    let sound = sound(true, 0, ReenterBehavior::Backoff(212 * SECOND), 100_000);
    assert_eq!(sound.seek_on_reenter(false, Some(5_000)), Some(Command::Seek(93_000)));
    assert_eq!(sound.seek_on_reenter(false, Some(12_000)), Some(Command::Seek(0)));
    assert_eq!(sound.seek_on_reenter(false, Some(50_000)), Some(Command::Seek(38_000)));
}

#[test]
fn backoff_in_loop_ignores_start_offset() {
    let sound = sound(true, 30 * SECOND, ReenterBehavior::Backoff(2 * SECOND), 100_000);
    assert_eq!(sound.seek_on_reenter(false, Some(10_000)), Some(Command::Seek(8_000)));
}

#[test]
fn backoff_in_loop_on_empty_media_stays_put() {
    let sound = sound(true, 0, ReenterBehavior::Backoff(2 * SECOND), 0);
    assert_eq!(sound.seek_on_reenter(false, Some(10_000)), Some(Command::Seek(0)));
    assert_eq!(sound.seek_on_reenter(false, Some(0)), Some(Command::Seek(0)));
}

#[test]
fn warm_entry_applies_no_seek() {
    let mut sound = sound(false, 2 * SECOND, ReenterBehavior::Seek(9 * SECOND), 100_000);
    sound.activate(0, at(DriverState::Paused, 0));
    sound.performed(Command::Play, true, 0).unwrap();
    // the backend has caught up and plays
    let script = sound.activate(SECOND, at(DriverState::Playing, 10_000));
    assert_eq!(script, vec![]);
    // the backend ran out in the meantime: resume, but leave the position alone
    let script = sound.activate(2 * SECOND, at(DriverState::Ended, 100_000));
    assert_eq!(script, vec![Command::Play]);
    assert!(sound.is_activated());
    assert_eq!(sound.seek_on_reenter(true, Some(10_000)), None);
    assert_eq!(sound.rewind_unless_already_active(true), None);
    assert_eq!(sound.rewind_unless_already_active(false), Some(Command::Seek(2_000)));
}

#[test]
fn cancel_then_activate_resumes_from_paused_position() {
    let mut deck = Deck::new(100_000);
    let mut sound = sound(false, 0, ReenterBehavior::Backoff(0), 100_000);
    activate(&mut sound, &mut deck).unwrap();
    deck.sleep(30 * SECOND);
    assert_eq!(deck.time, 30_000);
    cancel(&mut sound, &mut deck).unwrap();
    assert!(!sound.is_activated());
    assert_eq!(deck.time, 30_000);
    deck.sleep(5 * SECOND);
    assert_eq!(deck.time, 30_000);
    activate(&mut sound, &mut deck).unwrap();
    assert_eq!(deck.time, 30_000);
    assert!(deck.running);
    // and once more
    deck.sleep(SECOND);
    cancel(&mut sound, &mut deck).unwrap();
    deck.sleep(SECOND);
    activate(&mut sound, &mut deck).unwrap();
    assert_eq!(deck.time, 31_000);
}

#[test]
fn cancel_then_activate_follows_reenter_policy() {
    let mut deck = Deck::new(100_000);
    let mut sound = sound(false, 0, ReenterBehavior::Seek(2 * SECOND), 100_000);
    activate(&mut sound, &mut deck).unwrap();
    deck.sleep(30 * SECOND);
    cancel(&mut sound, &mut deck).unwrap();
    deck.sleep(SECOND);
    activate(&mut sound, &mut deck).unwrap();
    assert_eq!(deck.time, 2_000);
}

#[test]
fn cancel_pauses_and_deactivates() {
    let mut sound = sound(true, 0, ReenterBehavior::Backoff(0), 100_000);
    sound.activate(0, at(DriverState::Paused, 0));
    let command = sound.cancel(SECOND, at(DriverState::Playing, 1_000));
    assert_eq!(command, Ok(Some(Command::Pause)));
    assert!(!sound.is_activated());
    // idempotent when paused already
    let command = sound.cancel(2 * SECOND, at(DriverState::Paused, 1_000));
    assert_eq!(command, Ok(None));
}

#[test]
fn cancel_reports_backend_that_cannot_pause() {
    let mut sound = sound(true, 0, ReenterBehavior::Backoff(0), 100_000);
    sound.activate(0, at(DriverState::Paused, 0));
    let stuck = Reading { state: DriverState::Playing, time: Some(1_000), can_pause: false };
    assert_eq!(sound.cancel(SECOND, stuck), Err(ErrorKind::NotPausable));
    assert!(!sound.is_activated());
}

#[test]
fn update_restarts_an_active_loop_without_seeking() {
    let mut sound = sound(true, 5 * SECOND, ReenterBehavior::Backoff(0), 100_000);
    // not active yet
    assert_eq!(sound.update(0, DriverState::Ended), None);
    sound.activate(0, at(DriverState::Paused, 0));
    sound.performed(Command::Play, true, 0).unwrap();
    // within the dirty window the play request is believed
    assert_eq!(sound.update(10 * MILLI, DriverState::Ended), None);
    assert_eq!(sound.update(SECOND, DriverState::Playing), None);
    assert_eq!(sound.update(SECOND, DriverState::Ended), Some(Command::Play));
    assert_eq!(sound.ensure_loop_if_active(SECOND, DriverState::Ended), Some(Command::Play));
    sound.cancel(2 * SECOND, at(DriverState::Ended, 100_000)).unwrap();
    assert_eq!(sound.update(3 * SECOND, DriverState::Ended), None);
}

#[test]
fn update_leaves_a_sound_that_plays_once_alone() {
    let mut sound = sound(false, 0, ReenterBehavior::Backoff(0), 100_000);
    sound.activate(0, at(DriverState::Paused, 0));
    assert_eq!(sound.update(SECOND, DriverState::Ended), None);
}

#[test]
fn loop_restarts_when_media_runs_out() {
    let mut deck = Deck::new(10_000);
    let mut sound = sound(true, 0, ReenterBehavior::Backoff(0), 10_000);
    activate(&mut sound, &mut deck).unwrap();
    deck.sleep(11 * SECOND);
    assert!(done(&sound, &deck).unwrap());
    update(&mut sound, &mut deck).unwrap();
    assert!(!done(&sound, &deck).unwrap());
    assert!(deck.running);
}

#[test]
fn done_follows_compensated_playing() {
    let mut sound = sound(false, 0, ReenterBehavior::Backoff(0), 100_000);
    assert!(sound.done(0, DriverState::Paused));
    assert!(!sound.done(0, DriverState::Playing));
    sound.performed(Command::Play, true, SECOND).unwrap();
    assert!(!sound.done(SECOND + MILLI, DriverState::Paused));
    assert!(sound.done(SECOND + 50 * MILLI, DriverState::Paused));
}

#[test]
fn refused_play_fails_activation_midway() {
    let mut sound = sound(false, 0, ReenterBehavior::Backoff(0), 100_000);
    let script = sound.activate(0, at(DriverState::Paused, 0));
    assert_eq!(script[1], Command::Play);
    assert_eq!(sound.performed(script[0], true, 0), Ok(()));
    assert_eq!(sound.performed(script[1], false, 0), Err(ErrorKind::PlaybackFailure));
    // no request was noted, so the backend's word counts
    assert!(sound.done(MILLI, DriverState::Paused));
}

#[test]
fn sounds_compare_by_configuration_and_activation() {
    let mut a = sound(true, SECOND, ReenterBehavior::Backoff(MILLI), 100_000);
    // same configuration, other media length: the player does not count
    let b = sound(true, SECOND, ReenterBehavior::Backoff(MILLI), 5_000);
    assert!(a == b);
    assert!(a != sound(false, SECOND, ReenterBehavior::Backoff(MILLI), 100_000));
    assert!(a != sound(true, 2 * SECOND, ReenterBehavior::Backoff(MILLI), 100_000));
    assert!(a != sound(true, SECOND, ReenterBehavior::Seek(MILLI), 100_000));
    a.performed(Command::Play, true, SECOND).unwrap();
    assert!(a == b);
    a.activate(0, at(DriverState::Paused, 0));
    assert!(a != b);
    let other_source = SoundSpec::new("other.mp3", true, SECOND, ReenterBehavior::Backoff(MILLI));
    assert!(b != Sound::from_spec(&other_source, Probe::Loaded(5_000)).unwrap());
    assert!(other_source == other_source.clone());
}
