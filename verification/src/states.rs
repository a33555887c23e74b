use crate::senses::Input;
use std::collections::HashMap;
use vstd::prelude::*;

verus! {

broadcast use vstd::std_specs::hash::group_hash_axioms;

/// One node of the graph, as a mathematical value.
pub struct StateView {
    /// Name of the state, not guaranteed to be unique.
    pub name: Seq<char>,
    /// What is spoken while the state is current.
    pub speech: Seq<char>,
    /// Which sound actuators belong to the state.
    pub sounds: Seq<usize>,
    /// Where each input leads.
    pub input_transitions: Map<Input, usize>,
    /// Where the state leads once it has been current for longer than the
    /// given number of nanoseconds.
    pub timeout_transition: Option<(nat, usize)>,
    /// Where the state leads once all of its actuators are done.
    pub transition_end: Option<usize>,
    /// For how many nanoseconds the bell rings.
    pub ring_time: Option<nat>,
    /// Whether the graph ends here.
    pub terminal: bool,
}

impl StateView {
    /// A state that has nothing configured.
    pub open spec fn empty() -> StateView {
        StateView {
            name: Seq::empty(),
            speech: Seq::empty(),
            sounds: Seq::empty(),
            input_transitions: Map::empty(),
            timeout_transition: None,
            transition_end: None,
            ring_time: None,
            terminal: false,
        }
    }

    /// Where `input` leads, if anywhere.
    pub open spec fn transition_for_input(self, input: Input) -> Option<usize> {
        if self.input_transitions.contains_key(input) {
            Some(self.input_transitions[input])
        } else {
            None
        }
    }

    /// Where the timeout leads after `elapsed` nanoseconds in the state, if
    /// it has run out.
    pub open spec fn transition_for_timeout(self, elapsed: nat) -> Option<usize> {
        match self.timeout_transition {
            Some((after, target)) => if elapsed > after {
                Some(target)
            } else {
                None
            },
            None => None,
        }
    }

    /// Where completion leads, given whether every actuator of the state is
    /// done.
    pub open spec fn transition_for_completion(self, acts_done: bool) -> Option<usize> {
        if acts_done {
            self.transition_end
        } else {
            None
        }
    }

    /// The transition to make on one tick, if any. The rules are tried in a
    /// fixed order and the first that applies wins: the pending input, then
    /// the timeout, then completion.
    pub open spec fn transition(
        self,
        input: Option<Input>,
        elapsed: nat,
        acts_done: bool,
    ) -> Option<usize> {
        if input is Some && self.transition_for_input(input->0) is Some {
            self.transition_for_input(input->0)
        } else if self.transition_for_timeout(elapsed) is Some {
            self.transition_for_timeout(elapsed)
        } else {
            self.transition_for_completion(acts_done)
        }
    }

    /// Every transition of the state leads to one of the first `count`
    /// states of a graph.
    pub open spec fn targets_within(self, count: nat) -> bool {
        &&& forall|input: Input| #[trigger]
            self.input_transitions.contains_key(input) ==> self.input_transitions[input] < count
        &&& self.timeout_transition matches Some((_, target)) ==> target < count
        &&& self.transition_end matches Some(target) ==> target < count
    }
}

/// One node of the graph: what it says and plays, and where it leads.
#[derive(Debug)]
pub struct State {
    name: String,
    speech: String,
    sounds: Vec<usize>,
    /// Targets by the code of the input that leads to them.
    input_transitions: HashMap<u16, usize>,
    timeout_transition: Option<(u128, usize)>,
    transition_end: Option<usize>,
    ring_time: Option<u128>,
    terminal: bool,
}

impl View for State {
    type V = StateView;

    closed spec fn view(&self) -> StateView {
        StateView {
            name: self.name@,
            speech: self.speech@,
            sounds: self.sounds@,
            input_transitions: Map::new(
                |input: Input| self.input_transitions@.contains_key(input.spec_code()),
                |input: Input| self.input_transitions@[input.spec_code()],
            ),
            timeout_transition: match self.timeout_transition {
                Some((after, target)) => Some((after as nat, target)),
                None => None,
            },
            transition_end: self.transition_end,
            ring_time: match self.ring_time {
                Some(time) => Some(time as nat),
                None => None,
            },
            terminal: self.terminal,
        }
    }
}

impl Default for State {
    fn default() -> (state: State)
        ensures
            state@ == StateView::empty(),
    {
        let state = State {
            name: String::new(),
            speech: String::new(),
            sounds: Vec::new(),
            input_transitions: HashMap::new(),
            timeout_transition: None,
            transition_end: None,
            ring_time: None,
            terminal: false,
        };
        assert(state@.input_transitions =~= Map::<Input, usize>::empty());
        state
    }
}

impl State {
    /// Starts building a state.
    pub fn builder() -> (builder: StateBuilder)
        ensures
            builder@ == StateView::empty(),
    {
        StateBuilder::new()
    }

    /// Name of the state, not guaranteed to be unique.
    pub fn name(&self) -> (name: &str)
        ensures
            name@ == self@.name,
    {
        self.name.as_str()
    }

    /// What is spoken while the state is current.
    pub fn speech(&self) -> (speech: &str)
        ensures
            speech@ == self@.speech,
    {
        self.speech.as_str()
    }

    /// For how many nanoseconds the bell rings, if it does.
    pub fn ring_time(&self) -> (time: Option<u128>)
        ensures
            match time {
                Some(time) => self@.ring_time == Some(time as nat),
                None => self@.ring_time is None,
            },
    {
        self.ring_time
    }

    /// Which sound actuators belong to the state.
    pub fn sounds(&self) -> (sounds: &[usize])
        ensures
            sounds@ == self@.sounds,
    {
        self.sounds.as_slice()
    }

    /// Where `input` leads, if anywhere.
    pub fn transition_for_input(&self, input: Input) -> (target: Option<usize>)
        ensures
            target == self@.transition_for_input(input),
    {
        match self.input_transitions.get(&input.code()) {
            Some(target) => Some(*target),
            None => None,
        }
    }

    /// Where the timeout leads after `elapsed` nanoseconds in the state, if
    /// there is a timeout and it has run out.
    pub fn transition_for_timeout(&self, elapsed: u128) -> (target: Option<usize>)
        ensures
            target == self@.transition_for_timeout(elapsed as nat),
    {
        if let Some((timeout_duration, timeout_target)) = self.timeout_transition {
            if elapsed > timeout_duration {
                return Some(timeout_target);
            }
        }
        None
    }

    /// Where the state leads once all of its actuators are done.
    pub fn transition_end(&self) -> (target: Option<usize>)
        ensures
            target == self@.transition_end,
    {
        self.transition_end
    }

    /// Whether the graph ends here.
    pub fn is_terminal(&self) -> (terminal: bool)
        ensures
            terminal == self@.terminal,
    {
        self.terminal
    }

    /// The transition to make on one tick, if any: by the pending input if
    /// the state has a transition for it, else by the timeout if it has run
    /// out, else by completion if every actuator of the state is done.
    pub fn transition(&self, input: Option<Input>, elapsed: u128, acts_done: bool) -> (target:
        Option<usize>)
        ensures
            target == self@.transition(input, elapsed as nat, acts_done),
    {
        if let Some(input) = input {
            if let Some(target) = self.transition_for_input(input) {
                return Some(target);
            }
        }
        if let Some(target) = self.transition_for_timeout(elapsed) {
            return Some(target);
        }
        if acts_done {
            self.transition_end
        } else {
            None
        }
    }

    /// Whether every transition of the state leads to one of the first
    /// `count` states of a graph.
    pub fn targets_within(&self, count: usize) -> (within: bool)
        ensures
            within == self@.targets_within(count as nat),
    {
        if let Some((_, target)) = self.timeout_transition {
            if target >= count {
                return false;
            }
        }
        if let Some(target) = self.transition_end {
            if target >= count {
                return false;
            }
        }
        let mut code: u16 = 0;
        while code <= 257
            invariant
                code <= 258,
                self@.timeout_transition matches Some((_, target)) ==> target < count,
                self@.transition_end matches Some(target) ==> target < count,
                forall|input: Input|
                    input.spec_code() < code && #[trigger] self@.input_transitions.contains_key(
                        input,
                    ) ==> self@.input_transitions[input] < count,
            decreases 258 - code,
        {
            if let Some(target) = self.input_transitions.get(&code) {
                if *target >= count {
                    proof {
                        let culprit = if code <= 255 {
                            Input::Digit(code as u8)
                        } else if code == 256 {
                            Input::PickUp
                        } else {
                            Input::HangUp
                        };
                        assert(self@.input_transitions.contains_key(culprit));
                    }
                    return false;
                }
            }
            code += 1;
        }
        true
    }
}

/// Accumulates the parts of a state and then yields the finished state.
pub struct StateBuilder {
    state: State,
}

impl View for StateBuilder {
    type V = StateView;

    closed spec fn view(&self) -> StateView {
        self.state@
    }
}

impl StateBuilder {
    /// A builder for a state that has nothing configured yet.
    pub fn new() -> (builder: StateBuilder)
        ensures
            builder@ == StateView::empty(),
    {
        StateBuilder { state: Default::default() }
    }

    /// Names the state.
    pub fn name(self, name: &str) -> (builder: StateBuilder)
        ensures
            builder@ == (StateView { name: name@, ..self@ }),
    {
        let mut builder = self;
        builder.state.name = name.to_owned();
        builder
    }

    /// Sets what is spoken while the state is current.
    pub fn speech(self, speech: &str) -> (builder: StateBuilder)
        ensures
            builder@ == (StateView { speech: speech@, ..self@ }),
    {
        let mut builder = self;
        builder.state.speech = speech.to_owned();
        builder
    }

    /// Makes `on_input` lead to the state at `transition_to`, in place of
    /// wherever it led before.
    pub fn input(self, on_input: Input, transition_to: usize) -> (builder: StateBuilder)
        ensures
            builder@ == (StateView {
                input_transitions: self@.input_transitions.insert(on_input, transition_to),
                ..self@
            }),
    {
        let mut builder = self;
        builder.state.input_transitions.insert(on_input.code(), transition_to);
        assert(builder@.input_transitions =~= self@.input_transitions.insert(
            on_input,
            transition_to,
        ));
        builder
    }

    /// Makes the state lead to the state at `transition_to` once it has been
    /// current for longer than `after_duration` nanoseconds.
    pub fn timeout(self, after_duration: u128, transition_to: usize) -> (builder: StateBuilder)
        ensures
            builder@ == (StateView {
                timeout_transition: Some((after_duration as nat, transition_to)),
                ..self@
            }),
    {
        let mut builder = self;
        builder.state.timeout_transition = Some((after_duration, transition_to));
        builder
    }

    /// Makes the state lead to the state at `transition_to` once all of its
    /// actuators are done.
    pub fn end(self, transition_to: usize) -> (builder: StateBuilder)
        ensures
            builder@ == (StateView { transition_end: Some(transition_to), ..self@ }),
    {
        let mut builder = self;
        builder.state.transition_end = Some(transition_to);
        builder
    }

    /// Sets whether the graph ends at the state.
    pub fn terminal(self, is_terminal: bool) -> (builder: StateBuilder)
        ensures
            builder@ == (StateView { terminal: is_terminal, ..self@ }),
    {
        let mut builder = self;
        builder.state.terminal = is_terminal;
        builder
    }

    /// Makes the bell ring for at most `max_duration` nanoseconds.
    pub fn ring_for(self, max_duration: u128) -> (builder: StateBuilder)
        ensures
            builder@ == (StateView { ring_time: Some(max_duration as nat), ..self@ }),
    {
        let mut builder = self;
        builder.state.ring_time = Some(max_duration);
        builder
    }

    /// Sets which sound actuators belong to the state.
    pub fn sounds(self, sounds: Vec<usize>) -> (builder: StateBuilder)
        ensures
            builder@ == (StateView { sounds: sounds@, ..self@ }),
    {
        let mut builder = self;
        builder.state.sounds = sounds;
        builder
    }

    /// The finished state.
    pub fn build(self) -> (state: State)
        ensures
            state@ == self@,
    {
        self.state
    }
}

/// An input that a state has a transition for decides the tick: it leads to
/// the configured target, whether or not the timeout has run out as well
/// and whether or not the actuators are done as well.
pub proof fn law_input_wins(state: StateView, input: Input, elapsed: nat, acts_done: bool)
    requires
        state.input_transitions.contains_key(input),
    ensures
        state.transition(Some(input), elapsed, acts_done) == Some(state.input_transitions[input]),
{
}

/// Without an input that the state has a transition for, a timeout that
/// has run out decides the tick: it leads to its target, whether or not
/// the actuators are done.
pub proof fn law_timeout_wins(
    state: StateView,
    input: Option<Input>,
    elapsed: nat,
    acts_done: bool,
    after: nat,
    to: usize,
)
    requires
        state.timeout_transition == Some((after, to)),
        input matches Some(input) ==> !state.input_transitions.contains_key(input),
        elapsed > after,
    ensures
        state.transition(input, elapsed, acts_done) == Some(to),
{
}

/// Completion decides a tick only if neither an input nor the timeout does,
/// and only once the actuators are done: then it leads to the completion
/// target, and until then the state stays current.
pub proof fn law_completion_comes_last(
    state: StateView,
    input: Option<Input>,
    elapsed: nat,
    acts_done: bool,
)
    requires
        input matches Some(input) ==> !state.input_transitions.contains_key(input),
        state.transition_for_timeout(elapsed) is None,
    ensures
        state.transition(input, elapsed, acts_done) == if acts_done {
            state.transition_end
        } else {
            None
        },
{
}

} // verus!
