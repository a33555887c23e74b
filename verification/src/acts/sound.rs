use crate::acts::backend::{Command, DriverState, Probe, Reading};
use crate::acts::player::{millis_to_nanos, time_between, Player, PlayerView, DIRTY_WINDOW};
use crate::error::ErrorKind;
use vstd::prelude::*;
use vstd::std_specs::cmp::PartialEqSpecImpl;

verus! {

/// Where a sound picks up when its state is entered again after it was
/// cancelled.
#[derive(Clone, Copy, Debug, PartialEq, Eq, Hash, Structural)]
pub enum ReenterBehavior {
    /// Go back by this many nanoseconds from where playback stood.
    Backoff(u128),
    /// Go to this many nanoseconds from the start, wherever playback stood.
    Seek(u128),
}

/// How one sound is configured, as a mathematical value.
pub struct SoundSpecView {
    pub source: Seq<char>,
    pub looping: bool,
    pub start_offset: nat,
    pub reenter_behavior: ReenterBehavior,
}

/// How one sound is configured: where its media comes from, whether it
/// repeats, where it starts, and where it picks up on re-entry.
#[derive(Debug)]
pub struct SoundSpec {
    source: String,
    looping: bool,
    start_offset: u128,
    reenter_behavior: ReenterBehavior,
}

impl View for SoundSpec {
    type V = SoundSpecView;

    closed spec fn view(&self) -> SoundSpecView {
        SoundSpecView {
            source: self.source@,
            looping: self.looping,
            start_offset: self.start_offset as nat,
            reenter_behavior: self.reenter_behavior,
        }
    }
}

impl Clone for SoundSpec {
    fn clone(&self) -> (copy: SoundSpec)
        ensures
            copy@ == self@,
    {
        SoundSpec {
            source: self.source.clone(),
            looping: self.looping,
            start_offset: self.start_offset,
            reenter_behavior: self.reenter_behavior,
        }
    }
}

impl PartialEq for SoundSpec {
    fn eq(&self, other: &SoundSpec) -> (equal: bool) {
        self.source == other.source && self.looping == other.looping && self.start_offset
            == other.start_offset && self.reenter_behavior == other.reenter_behavior
    }
}

impl PartialEqSpecImpl for SoundSpec {
    open spec fn obeys_eq_spec() -> bool {
        true
    }

    /// Two descriptions are equal if they say the same.
    open spec fn eq_spec(&self, other: &SoundSpec) -> bool {
        self@ == other@
    }
}

impl Eq for SoundSpec {

}

impl SoundSpec {
    /// Describes a sound. Times are in nanoseconds.
    pub fn new(
        source: &str,
        looping: bool,
        start_offset: u128,
        reenter_behavior: ReenterBehavior,
    ) -> (made: SoundSpec)
        ensures
            made@ == (SoundSpecView {
                source: source@,
                looping,
                start_offset: start_offset as nat,
                reenter_behavior,
            }),
    {
        SoundSpec { source: source.to_owned(), looping, start_offset, reenter_behavior }
    }

    /// Where the media comes from.
    pub fn source(&self) -> (source: &str)
        ensures
            source@ == self@.source,
    {
        self.source.as_str()
    }

    /// Whether playback starts over when the media ends.
    pub fn is_loop(&self) -> (looping: bool)
        ensures
            looping == self@.looping,
    {
        self.looping
    }

    /// Where playback starts on a cold entry, in nanoseconds from the start.
    pub fn start_offset(&self) -> (offset: u128)
        ensures
            offset == self@.start_offset,
    {
        self.start_offset
    }

    /// Where playback picks up on re-entry.
    pub fn reenter_behavior(&self) -> (behavior: ReenterBehavior)
        ensures
            behavior == self@.reenter_behavior,
    {
        self.reenter_behavior
    }
}

/// A backoff on looping media: the backoff, taken modulo the length of the
/// media, is subtracted from the played position; a backoff that reaches
/// before the start wraps around to the tail. Media of no length has nothing
/// to wrap around, so its played position stands.
pub open spec fn wrapping_backoff(backoff: nat, played: nat, duration: nat) -> nat {
    let wrapped = if duration > 0 {
        backoff % duration
    } else {
        0
    };
    if wrapped > played {
        (duration - (wrapped - played)) as nat
    } else {
        (played - wrapped) as nat
    }
}

/// A backoff on media that plays once: the backoff is subtracted from the
/// played position, but the result never lies before the start offset.
pub open spec fn clamped_backoff(backoff: nat, played: nat, start_offset: nat) -> nat {
    vstd::math::max(start_offset as int, played - backoff) as nat
}

impl SoundSpecView {
    /// Where playback should stand after a cold entry, given where it stood
    /// and how long the media is.
    pub open spec fn reenter_position(self, played: nat, duration: nat) -> nat {
        match self.reenter_behavior {
            ReenterBehavior::Backoff(backoff) => if self.looping {
                wrapping_backoff(backoff as nat, played, duration)
            } else {
                clamped_backoff(backoff as nat, played, self.start_offset)
            },
            ReenterBehavior::Seek(to) => to as nat,
        }
    }
}

/// A command that may be absent, as a script of at most one command.
pub open spec fn script_of(command: Option<Command>) -> Seq<Command> {
    match command {
        Some(command) => seq![command],
        None => Seq::empty(),
    }
}

/// Where playback stands, in milliseconds, once a backend that stood at
/// `position` has carried out `script`: at the last seek, if there is one.
pub open spec fn position_after(script: Seq<Command>, position: int) -> int
    decreases script.len(),
{
    if script.len() == 0 {
        position
    } else {
        match script.last() {
            Command::Seek(to) => to as int,
            _ => position_after(script.drop_last(), position),
        }
    }
}

/// What a [`Sound`] is made of.
pub struct SoundView {
    pub player: PlayerView,
    pub spec: SoundSpecView,
    /// Whether the last thing asked of the sound was to activate rather than
    /// to cancel.
    pub activated: bool,
}

impl SoundView {
    /// The rewind of a cold entry: a seek to the start offset, unless the
    /// sound was active already.
    pub open spec fn rewind_unless_already_active(self, was_active: bool) -> Option<Command> {
        if was_active {
            None
        } else {
            Some(Command::Seek(self.player.seek_millis(self.spec.start_offset) as i64))
        }
    }

    /// The seek that places a cold entry according to the re-entry
    /// behaviour; a warm entry has none.
    pub open spec fn seek_on_reenter(self, was_active: bool, time: Option<i64>) -> Option<
        Command,
    > {
        if was_active {
            None
        } else {
            Some(
                Command::Seek(
                    self.player.seek_millis(
                        self.spec.reenter_position(self.player.played(time), self.player.duration),
                    ) as i64,
                ),
            )
        }
    }

    /// The play request of an entry, unless playback counts as running.
    pub open spec fn resume(self, now: nat, state: DriverState) -> Option<Command> {
        if self.player.playing(now, state) {
            None
        } else {
            Some(Command::Play)
        }
    }

    /// Everything an activation asks of the backend, in order: rewind,
    /// resume, then place.
    pub open spec fn activation(self, now: nat, reading: Reading) -> Seq<Command> {
        script_of(self.rewind_unless_already_active(self.activated)) + script_of(
            self.resume(now, reading.state),
        ) + script_of(self.seek_on_reenter(self.activated, reading.time))
    }

    /// The restart that keeps an active loop going once its media has run
    /// out.
    pub open spec fn ensure_loop_if_active(self, now: nat, state: DriverState) -> Option<Command> {
        if self.activated && self.spec.looping && !self.player.playing(now, state) {
            Some(Command::Play)
        } else {
            None
        }
    }

    /// What a cancellation asks of the backend.
    pub open spec fn cancellation(self, now: nat, reading: Reading) -> Result<
        Option<Command>,
        ErrorKind,
    > {
        if !self.player.playing(now, reading.state) {
            Ok(None)
        } else if !reading.can_pause {
            Err(ErrorKind::NotPausable)
        } else {
            Ok(Some(Command::Pause))
        }
    }
}

/// Plays one media source in the background.
#[derive(Debug)]
pub struct Sound {
    player: Player,
    spec: SoundSpec,
    activated: bool,
}

impl View for Sound {
    type V = SoundView;

    closed spec fn view(&self) -> SoundView {
        SoundView { player: self.player@, spec: self.spec@, activated: self.activated }
    }
}

impl PartialEq for Sound {
    fn eq(&self, other: &Sound) -> (equal: bool) {
        self.spec == other.spec && self.activated == other.activated
    }
}

impl PartialEqSpecImpl for Sound {
    open spec fn obeys_eq_spec() -> bool {
        true
    }

    /// Two sounds are equal if they are configured alike and both active or
    /// both inactive; what their players know does not count.
    open spec fn eq_spec(&self, other: &Sound) -> bool {
        self@.spec == other@.spec && self@.activated == other@.activated
    }
}

impl Eq for Sound {

}

/// Appends a command to a script, if there is one.
fn push_command(script: &mut Vec<Command>, command: Option<Command>)
    ensures
        final(script)@ == old(script)@ + script_of(command),
{
    match command {
        Some(command) => {
            script.push(command);
        },
        None => {},
    }
}

impl Sound {
    #[verifier::type_invariant]
    closed spec fn inv(&self) -> bool {
        self.player@.wf()
    }

    /// Makes the sound that `spec` describes from the outcome of opening its
    /// source. The sound starts out inactive.
    pub fn from_spec(spec: &SoundSpec, probe: Probe) -> (made: Result<Sound, ErrorKind>)
        ensures
            match probe {
                Probe::Loaded(millis) => made matches Ok(sound) && sound@.player.wf() && sound@ == (
                SoundView {
                    player: PlayerView {
                        duration: millis_to_nanos(millis as int),
                        request: None,
                    },
                    spec: spec@,
                    activated: false,
                }),
                Probe::TimedOut => made matches Err(e) && e == ErrorKind::MediaLoadTimeout,
                Probe::Unavailable => made matches Err(e) && e == ErrorKind::MediaUnavailable,
            },
    {
        match Player::new(probe) {
            Ok(player) => Ok(Sound { player, spec: spec.clone(), activated: false }),
            Err(e) => Err(e),
        }
    }

    /// Whether the last thing asked of the sound was to activate.
    pub fn is_activated(&self) -> (activated: bool)
        ensures
            activated == self@.activated,
    {
        self.activated
    }

    /// The restart that keeps an active loop going: a play request if the
    /// sound is active, loops, and playback no longer counts as running. The
    /// position is left where the backend has it.
    pub fn ensure_loop_if_active(&self, now: u128, state: DriverState) -> (command: Option<Command>)
        ensures
            command == self@.ensure_loop_if_active(now as nat, state),
    {
        if self.activated && self.spec.is_loop() && !self.player.playing(now, state) {
            Some(Command::Play)
        } else {
            None
        }
    }

    /// The rewind of a cold entry: a seek to the start offset, unless the
    /// sound was active already.
    pub fn rewind_unless_already_active(&self, was_active: bool) -> (command: Option<Command>)
        ensures
            command == self@.rewind_unless_already_active(was_active),
    {
        if was_active {
            None
        } else {
            Some(self.player.seek(self.spec.start_offset()))
        }
    }

    /// The seek that places a cold entry, computed from the position `time`
    /// that the backend reported when the entry began. A warm entry, one
    /// with `was_active`, keeps going and gets no seek.
    pub fn seek_on_reenter(&self, was_active: bool, time: Option<i64>) -> (command: Option<Command>)
        ensures
            command == self@.seek_on_reenter(was_active, time),
            self@.player.wf(),
    {
        proof {
            use_type_invariant(self);
        }
        if was_active {
            None
        } else {
            let position: u128 = match (self.spec.is_loop(), self.spec.reenter_behavior()) {
                (true, ReenterBehavior::Backoff(backoff)) => {
                    let duration: u128 = self.player.duration();
                    let backoff: u128 = duration_mod(backoff, duration);
                    let played: u128 = self.player.played(time);
                    if backoff > played {
                        duration - (backoff - played)
                    } else {
                        played - backoff
                    }
                },
                (false, ReenterBehavior::Backoff(backoff)) => {
                    let start_offset: u128 = self.spec.start_offset();
                    let played: u128 = self.player.played(time);
                    if played >= backoff && played - backoff > start_offset {
                        played - backoff
                    } else {
                        start_offset
                    }
                },
                (_, ReenterBehavior::Seek(to)) => to,
            };
            Some(self.player.seek(position))
        }
    }

    /// Begins or resumes output. `reading` is what the backend reported
    /// when the entry began. The returned script is for the backend, in
    /// order; what becomes of each command is reported back through
    /// [`Sound::performed`].
    pub fn activate(&mut self, now: u128, reading: Reading) -> (script: Vec<Command>)
        ensures
            final(self)@ == (SoundView { activated: true, ..old(self)@ }),
            script@ == old(self)@.activation(now as nat, reading),
            old(self)@.player.wf(),
    {
        proof {
            use_type_invariant(&*self);
        }
        let was_active = self.activated;
        self.activated = true;
        let mut script: Vec<Command> = Vec::new();
        push_command(&mut script, self.rewind_unless_already_active(was_active));
        push_command(&mut script, self.player.play(now, reading.state));
        push_command(&mut script, self.seek_on_reenter(was_active, reading.time));
        script
    }

    /// Keeps a loop going; to be called on every tick.
    pub fn update(&self, now: u128, state: DriverState) -> (command: Option<Command>)
        ensures
            command == self@.ensure_loop_if_active(now as nat, state),
    {
        self.ensure_loop_if_active(now, state)
    }

    /// Whether the sound has nothing more to play right now.
    pub fn done(&self, now: u128, state: DriverState) -> (done: bool)
        ensures
            done == !self@.player.playing(now as nat, state),
    {
        !self.player.playing(now, state)
    }

    /// Stops output. The sound counts as inactive from here on, whether or
    /// not the backend can be paused, and playback keeps its position.
    pub fn cancel(&mut self, now: u128, reading: Reading) -> (command: Result<
        Option<Command>,
        ErrorKind,
    >)
        ensures
            final(self)@ == (SoundView { activated: false, ..old(self)@ }),
            command == old(self)@.cancellation(now as nat, reading),
    {
        proof {
            use_type_invariant(&*self);
        }
        self.activated = false;
        self.player.pause(now, reading)
    }

    /// Takes note of what became of a command of this sound. If the backend
    /// accepted it at `now`, a play or pause counts as requested from `now`
    /// on. If the backend refused it, nothing is noted, playback has failed,
    /// and the rest of the script the command came from is to be dropped.
    pub fn performed(&mut self, command: Command, accepted: bool, now: u128) -> (noted: Result<
        (),
        ErrorKind,
    >)
        ensures
            accepted ==> noted is Ok && final(self)@ == (SoundView {
                player: old(self)@.player.performed(command, now as nat),
                ..old(self)@
            }),
            !accepted ==> noted == Err::<(), ErrorKind>(ErrorKind::PlaybackFailure) && final(self)@
                == old(self)@,
    {
        proof {
            use_type_invariant(&*self);
        }
        self.player.performed(command, accepted, now)
    }
}

/// `duration` modulo `max_duration`; zero where `max_duration` is zero.
fn duration_mod(duration: u128, max_duration: u128) -> (rest: u128)
    ensures
        rest == if max_duration > 0 {
            duration % max_duration
        } else {
            0
        },
{
    if max_duration > 0 {
        duration % max_duration
    } else {
        0
    }
}

/// A cold entry of a sound that re-enters by seeking leaves playback at the
/// configured position, or at the end of media that is shorter, wherever
/// playback stood before.
pub proof fn law_seek_places_cold_entry(
    sound: SoundView,
    to: u128,
    now: nat,
    reading: Reading,
    position: int,
)
    requires
        sound.player.wf(),
        !sound.activated,
        sound.spec.reenter_behavior == ReenterBehavior::Seek(to),
    ensures
        sound.spec.reenter_position(sound.player.played(reading.time), sound.player.duration)
            == to,
        position_after(sound.activation(now, reading), position) == sound.player.seek_millis(
            to as nat,
        ),
        to <= sound.player.duration ==> position_after(sound.activation(now, reading), position)
            == to / 1_000_000,
{
}

/// A cold entry of a sound that plays once and re-enters by backing off
/// leaves playback at the played position less the backoff, but never before
/// the start offset.
pub proof fn law_backoff_places_cold_entry(
    sound: SoundView,
    backoff: u128,
    now: nat,
    reading: Reading,
    position: int,
)
    requires
        sound.player.wf(),
        !sound.activated,
        !sound.spec.looping,
        sound.spec.reenter_behavior == ReenterBehavior::Backoff(backoff),
    ensures
        ({
            let played = sound.player.played(reading.time);
            let target = vstd::math::max(sound.spec.start_offset as int, played - backoff);
            &&& sound.spec.reenter_position(played, sound.player.duration) == target
            &&& target >= sound.spec.start_offset
            &&& played < backoff ==> target == sound.spec.start_offset
            &&& position_after(sound.activation(now, reading), position)
                == sound.player.seek_millis(target as nat)
        }),
{
}

/// A cold entry of a looping sound that re-enters by backing off leaves
/// playback a whole number of media lengths away from the played position
/// less the backoff, and within the media if the played position was.
pub proof fn law_backoff_wraps_in_loop(
    sound: SoundView,
    backoff: u128,
    played: nat,
)
    requires
        sound.spec.looping,
        sound.spec.reenter_behavior == ReenterBehavior::Backoff(backoff),
        sound.player.duration > 0,
    ensures
        ({
            let duration = sound.player.duration as int;
            let target = sound.spec.reenter_position(played, sound.player.duration) as int;
            &&& (target - (played - backoff)) % duration == 0
            &&& played <= duration ==> target <= duration
        }),
{
    let duration = sound.player.duration as int;
    let target = sound.spec.reenter_position(played, sound.player.duration) as int;
    let whole = (backoff as int) / duration;
    vstd::arithmetic::div_mod::lemma_fundamental_div_mod(backoff as int, duration);
    if (backoff as int) % duration > played {
        assert(target - (played - backoff) == duration * (whole + 1)) by (nonlinear_arith)
            requires
                target == duration - ((backoff as int) % duration - played),
                backoff as int == duration * whole + (backoff as int) % duration,
        ;
        vstd::arithmetic::div_mod::lemma_mod_multiples_basic(whole + 1, duration);
        assert(duration * (whole + 1) == (whole + 1) * duration) by (nonlinear_arith);
    } else {
        assert(target - (played - backoff) == duration * whole) by (nonlinear_arith)
            requires
                target == played - (backoff as int) % duration,
                backoff as int == duration * whole + (backoff as int) % duration,
        ;
        vstd::arithmetic::div_mod::lemma_mod_multiples_basic(whole, duration);
        assert(duration * whole == whole * duration) by (nonlinear_arith);
    }
}

/// A script without a seek leaves playback where it stands.
pub proof fn lemma_no_seek_keeps_position(script: Seq<Command>, position: int)
    requires
        forall|i: int| 0 <= i < script.len() ==> !(#[trigger] script[i] is Seek),
    ensures
        position_after(script, position) == position,
    decreases script.len(),
{
    if script.len() > 0 {
        assert(!(script[script.len() - 1] is Seek));
        lemma_no_seek_keeps_position(script.drop_last(), position);
    }
}

/// A warm entry, the activation of a sound that is active already, asks for
/// no seek and so leaves playback where it stands.
pub proof fn law_warm_entry_keeps_position(
    sound: SoundView,
    now: nat,
    reading: Reading,
    position: int,
)
    requires
        sound.activated,
    ensures
        sound.activation(now, reading) == script_of(sound.resume(now, reading.state)),
        forall|i: int|
            0 <= i < sound.activation(now, reading).len() ==> !(
            #[trigger] sound.activation(now, reading)[i] is Seek),
        position_after(sound.activation(now, reading), position) == position,
{
    let script = sound.activation(now, reading);
    assert(script =~= script_of(sound.resume(now, reading.state)));
    lemma_no_seek_keeps_position(script, position);
}

/// A cancellation asks for no seek, so a cancelled sound keeps its position;
/// and when a sound that plays once and backs off by nothing is activated
/// again, playback resumes from that position, provided it lies between the
/// start offset and the end of the media.
pub proof fn law_cancel_then_activate_resumes(
    sound: SoundView,
    cancelled_at: nat,
    before: Reading,
    activated_at: nat,
    after: Reading,
    millis: i64,
)
    requires
        sound.player.wf(),
        !sound.spec.looping,
        sound.spec.reenter_behavior == ReenterBehavior::Backoff(0),
        after.time == Some(millis),
        sound.spec.start_offset <= millis * 1_000_000 <= sound.player.duration,
    ensures
        sound.cancellation(cancelled_at, before) matches Ok(command) ==> position_after(
            script_of(command),
            millis as int,
        ) == millis,
        position_after(
            (SoundView { activated: false, ..sound }).activation(activated_at, after),
            millis as int,
        ) == millis,
{
    if let Ok(command) = sound.cancellation(cancelled_at, before) {
        lemma_no_seek_keeps_position(script_of(command), millis as int);
    }
}

/// A cancellation takes effect at once: if nothing had to be paused, the
/// sound is done already; if a pause went out, the sound is done from then
/// on for as long as the dirty window lasts, even while the backend still
/// reports that it plays.
pub proof fn law_cancel_takes_effect_at_once(
    sound: SoundView,
    at: nat,
    reading: Reading,
    now: nat,
    state: DriverState,
)
    requires
        time_between(at, now) < DIRTY_WINDOW,
    ensures
        sound.cancellation(at, reading) == Ok::<Option<Command>, ErrorKind>(None)
            ==> !sound.player.playing(at, reading.state),
        sound.cancellation(at, reading) == Ok::<Option<Command>, ErrorKind>(Some(Command::Pause))
            ==> !sound.player.performed(Command::Pause, at).playing(now, state),
        sound.cancellation(at, reading) matches Ok(Some(command)) ==> command == Command::Pause,
{
}

} // verus!
