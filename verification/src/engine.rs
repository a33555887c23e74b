use crate::acts::player::time_between;
use crate::books::{Book, BookView};
use crate::error::ErrorKind;
use crate::senses::Input;
use crate::serve::req::{Request, RequestView};
use crate::states::{State, StateView};
use vstd::prelude::*;

verus! {

/// A change of the current state: the actuators of the state at `from` are
/// to be cancelled, then those of the state at `to` are to be activated.
#[derive(Clone, Copy, Debug, PartialEq, Eq, Hash, Structural)]
pub struct Switch {
    pub from: usize,
    pub to: usize,
}

/// What a request did to a run, and so what is left to do to the actuators.
#[derive(Debug)]
pub enum Effect {
    /// A new graph was taken up. The actuators of the state at `left`,
    /// which was current in the graph `replaced`, are to be cancelled, and
    /// those of the new current state are to be activated.
    Replaced { replaced: Book, left: usize },
    /// The graph was kept and the current state changed as the switch says.
    Switched(Switch),
    /// Nothing changed; these inputs are to be fed to the ticks to come, one
    /// per tick and in this order.
    Dialled(Vec<Input>),
}

/// Where a run through a graph stands, as a mathematical value.
pub struct EngineView {
    pub book: BookView,
    /// Index of the current state.
    pub current: nat,
    /// When the current state was entered, in nanoseconds on the caller's
    /// clock.
    pub enter_time: nat,
}

impl EngineView {
    /// The graph is sound and the current state is one of its states.
    pub open spec fn wf(self) -> bool {
        &&& self.book.wf()
        &&& self.current < self.book.states.len()
    }

    /// The current state.
    pub open spec fn state(self) -> StateView {
        self.book.states[self.current as int]
    }

    /// Where a tick at `now` leads, if anywhere. A terminal state leads
    /// nowhere; any other state leads where its rules say, given the time it
    /// has been current.
    pub open spec fn target(self, now: nat, input: Option<Input>, acts_done: bool) -> Option<
        usize,
    > {
        if self.state().terminal {
            None
        } else {
            self.state().transition(input, time_between(self.enter_time, now), acts_done)
        }
    }

    /// The run after the state at `to` was entered at `now`.
    pub open spec fn entered(self, to: nat, now: nat) -> EngineView {
        EngineView { current: to, enter_time: now, ..self }
    }
}

/// Whether every actuator of a state is done, given what each reported. An
/// actuator that failed to report counts as done.
pub open spec fn all_done(reports: Seq<Result<bool, ErrorKind>>) -> bool {
    forall|i: int| 0 <= i < reports.len() ==> #[trigger] reports[i] != Ok::<bool, ErrorKind>(false)
}

/// Whether every actuator of a state is done, given what each reported. An
/// actuator that failed to report counts as done.
pub fn acts_done(reports: &[Result<bool, ErrorKind>]) -> (done: bool)
    ensures
        done == all_done(reports@),
{
    let mut index: usize = 0;
    while index < reports.len()
        invariant
            index <= reports.len(),
            forall|i: int| 0 <= i < index ==> #[trigger] reports@[i] != Ok::<bool, ErrorKind>(false),
        decreases reports.len() - index,
    {
        match reports[index] {
            Ok(false) => {
                return false;
            },
            _ => {},
        }
        index += 1;
    }
    true
}

/// A run through a graph: the graph, the current state and when it was
/// entered.
#[derive(Debug)]
pub struct Engine {
    book: Book,
    current: usize,
    enter_time: u128,
}

impl View for Engine {
    type V = EngineView;

    closed spec fn view(&self) -> EngineView {
        EngineView {
            book: self.book@,
            current: self.current as nat,
            enter_time: self.enter_time as nat,
        }
    }
}

impl Engine {
    #[verifier::type_invariant]
    closed spec fn inv(&self) -> bool {
        self@.wf()
    }

    /// Starts a run through `book` at `now`, in the initial state of the
    /// graph.
    pub fn new(book: Book, now: u128) -> (engine: Engine)
        ensures
            engine@ == (EngineView {
                book: book@,
                current: book@.initial,
                enter_time: now as nat,
            }),
            engine@.wf(),
    {
        let current = book.initial();
        Engine { book, current, enter_time: now }
    }

    /// Index of the current state.
    pub fn current(&self) -> (current: usize)
        ensures
            current == self@.current,
            self@.wf(),
    {
        proof {
            use_type_invariant(self);
        }
        self.current
    }

    /// When the current state was entered.
    pub fn enter_time(&self) -> (enter_time: u128)
        ensures
            enter_time == self@.enter_time,
    {
        self.enter_time
    }

    /// The graph that is run through.
    pub fn book(&self) -> (book: &Book)
        ensures
            book@ == self@.book,
    {
        &self.book
    }

    /// The current state.
    pub fn state(&self) -> (state: &State)
        ensures
            state@ == self@.state(),
            self@.wf(),
    {
        proof {
            use_type_invariant(self);
        }
        &self.book.states()[self.current]
    }

    /// Advances the run by one tick at `now`, with at most one pending
    /// input and with what each actuator of the current state reported on
    /// whether it is done. If a rule of the current state applies, the run
    /// enters the target at `now` and the change is returned; else nothing
    /// changes.
    ///
    /// The actuators are asked whether they are done before the tick and
    /// are updated after it. An actuator that finishes in the update of one
    /// tick therefore completes its state in the next tick at the earliest.
    pub fn tick(
        &mut self,
        now: u128,
        input: Option<Input>,
        reports: &[Result<bool, ErrorKind>],
    ) -> (switch: Option<Switch>)
        ensures
            final(self)@.wf(),
            match old(self)@.target(now as nat, input, all_done(reports@)) {
                Some(to) => {
                    &&& switch == Some(Switch { from: old(self)@.current as usize, to })
                    &&& final(self)@ == old(self)@.entered(to as nat, now as nat)
                },
                None => switch is None && final(self)@ == old(self)@,
            },
    {
        proof {
            use_type_invariant(&*self);
        }
        let state = self.state();
        if state.is_terminal() {
            return None;
        }
        let elapsed: u128 = if now >= self.enter_time {
            now - self.enter_time
        } else {
            0
        };
        match state.transition(input, elapsed, acts_done(reports)) {
            Some(to) => {
                let from = self.current;
                self.current = to;
                self.enter_time = now;
                Some(Switch { from, to })
            },
            None => None,
        }
    }

    /// Replaces the graph and starts over at `now` in the initial state of
    /// the new graph. Returns the old graph and the index of the state that
    /// was current in it.
    pub fn run(&mut self, book: Book, now: u128) -> (replaced: (Book, usize))
        ensures
            final(self)@ == (EngineView {
                book: book@,
                current: book@.initial,
                enter_time: now as nat,
            }),
            final(self)@.wf(),
            replaced.0@ == old(self)@.book,
            replaced.1 == old(self)@.current,
    {
        let mut engine = Engine::new(book, now);
        std::mem::swap(self, &mut engine);
        (engine.book, engine.current)
    }

    /// Does at `now` what `request` asks for: takes up a new graph, starts
    /// over in the graph at hand, or hands back the inputs that were
    /// dialled.
    pub fn handle(&mut self, request: Request, now: u128) -> (effect: Effect)
        ensures
            final(self)@.wf(),
            match request@ {
                RequestView::Run(book) => {
                    &&& final(self)@ == (EngineView {
                        book,
                        current: book.initial,
                        enter_time: now as nat,
                    })
                    &&& effect matches Effect::Replaced { replaced, left }
                    &&& replaced@ == old(self)@.book
                    &&& left == old(self)@.current
                },
                RequestView::Reset => {
                    &&& final(self)@ == old(self)@.entered(old(self)@.book.initial, now as nat)
                    &&& effect == Effect::Switched(
                        Switch {
                            from: old(self)@.current as usize,
                            to: old(self)@.book.initial as usize,
                        },
                    )
                },
                RequestView::Dial(inputs) => {
                    &&& final(self)@ == old(self)@
                    &&& effect matches Effect::Dialled(dialled)
                    &&& dialled@ == inputs
                },
            },
    {
        proof {
            use_type_invariant(&*self);
        }
        match request {
            Request::Run(book) => {
                let (replaced, left) = self.run(book, now);
                Effect::Replaced { replaced, left }
            },
            Request::Reset => Effect::Switched(self.reset(now)),
            Request::Dial(inputs) => Effect::Dialled(inputs),
        }
    }

    /// Keeps the graph and starts over at `now` in its initial state.
    pub fn reset(&mut self, now: u128) -> (switch: Switch)
        ensures
            final(self)@ == old(self)@.entered(old(self)@.book.initial, now as nat),
            final(self)@.wf(),
            switch == (Switch {
                from: old(self)@.current as usize,
                to: old(self)@.book.initial as usize,
            }),
    {
        proof {
            use_type_invariant(&*self);
        }
        let from = self.current;
        let to = self.book.initial();
        self.current = to;
        self.enter_time = now;
        Switch { from, to }
    }
}

/// While a state that is not terminal is current, an input that it has a
/// transition for leads to the configured target, whether or not the
/// timeout has run out and whether or not the actuators are done.
pub proof fn law_input_takes_precedence(
    engine: EngineView,
    input: Input,
    now: nat,
    reports: Seq<Result<bool, ErrorKind>>,
)
    requires
        !engine.state().terminal,
        engine.state().input_transitions.contains_key(input),
    ensures
        engine.target(now, Some(input), all_done(reports)) == Some(
            engine.state().input_transitions[input],
        ),
{
}

/// While a state that is not terminal is current and no input arrives that
/// it has a transition for, the run leaves for the timeout target as soon as
/// more than the timeout has passed since the state was entered.
pub proof fn law_timeout_fires(
    engine: EngineView,
    input: Option<Input>,
    now: nat,
    reports: Seq<Result<bool, ErrorKind>>,
    after: nat,
    to: usize,
)
    requires
        !engine.state().terminal,
        engine.state().timeout_transition == Some((after, to)),
        input matches Some(input) ==> !engine.state().input_transitions.contains_key(input),
        now - engine.enter_time > after,
    ensures
        engine.target(now, input, all_done(reports)) == Some(to),
{
}

/// A completion target is reached only once every actuator is done. While
/// even one actuator reports that it is not done, a tick that is decided
/// neither by an input nor by the timeout leads nowhere, however much time
/// has passed; once all are done, such a tick leads to the completion
/// target.
pub proof fn law_completion_waits_for_all_acts(
    engine: EngineView,
    input: Option<Input>,
    now: nat,
    reports: Seq<Result<bool, ErrorKind>>,
    to: usize,
)
    requires
        !engine.state().terminal,
        engine.state().transition_end == Some(to),
        input matches Some(input) ==> !engine.state().input_transitions.contains_key(input),
        engine.state().transition_for_timeout(time_between(engine.enter_time, now)) is None,
    ensures
        all_done(reports) ==> engine.target(now, input, all_done(reports)) == Some(to),
        (exists|i: int| 0 <= i < reports.len() && reports[i] == Ok::<bool, ErrorKind>(false))
            ==> engine.target(now, input, all_done(reports)) is None,
        engine.state().timeout_transition is None && !all_done(reports) ==> forall|later: nat|
            (#[trigger] engine.target(later, input, all_done(reports))) is None,
{
}

/// A terminal state is never left by a tick.
pub proof fn law_terminal_state_stays(
    engine: EngineView,
    input: Option<Input>,
    now: nat,
    reports: Seq<Result<bool, ErrorKind>>,
)
    requires
        engine.state().terminal,
    ensures
        engine.target(now, input, all_done(reports)) is None,
{
}

/// In a sound graph every tick leads to a state of the graph.
pub proof fn law_targets_stay_in_graph(
    engine: EngineView,
    input: Option<Input>,
    now: nat,
    reports: Seq<Result<bool, ErrorKind>>,
)
    requires
        engine.wf(),
    ensures
        engine.target(now, input, all_done(reports)) matches Some(to) ==> to
            < engine.book.states.len(),
{
}

} // verus!
