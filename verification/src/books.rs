use crate::error::ErrorKind;
use crate::states::{State, StateView};
use vstd::prelude::*;

verus! {

/// A graph of states, as a mathematical value.
pub struct BookView {
    pub states: Seq<StateView>,
    /// Index of the state in which the graph starts.
    pub initial: nat,
}

impl BookView {
    /// The graph starts in one of its states, and every transition of every
    /// state leads to one of its states.
    pub open spec fn wf(self) -> bool {
        &&& self.initial < self.states.len()
        &&& forall|i: int|
            0 <= i < self.states.len() ==> (#[trigger] self.states[i]).targets_within(
                self.states.len(),
            )
    }
}

/// The mathematical values of a row of states.
pub open spec fn views_of(states: Seq<State>) -> Seq<StateView> {
    Seq::new(states.len(), |i: int| states[i]@)
}

/// A graph as it was put together, before anybody looked at where its
/// transitions lead.
#[derive(Debug)]
pub struct BookSpec {
    pub states: Vec<State>,
    /// Index of the state in which the graph starts.
    pub initial: usize,
}

impl View for BookSpec {
    type V = BookView;

    open spec fn view(&self) -> BookView {
        BookView { states: views_of(self.states@), initial: self.initial as nat }
    }
}

/// A graph of states in which every transition leads to a state of the
/// graph.
#[derive(Debug)]
pub struct Book {
    states: Vec<State>,
    initial: usize,
}

impl View for Book {
    type V = BookView;

    closed spec fn view(&self) -> BookView {
        BookView { states: views_of(self.states@), initial: self.initial as nat }
    }
}

impl Book {
    #[verifier::type_invariant]
    closed spec fn inv(&self) -> bool {
        self@.wf()
    }

    /// The states of the graph, in order.
    pub fn states(&self) -> (states: &[State])
        ensures
            views_of(states@) == self@.states,
            self@.wf(),
    {
        proof {
            use_type_invariant(self);
        }
        self.states.as_slice()
    }

    /// Index of the state in which the graph starts.
    pub fn initial(&self) -> (initial: usize)
        ensures
            initial == self@.initial,
            self@.wf(),
    {
        proof {
            use_type_invariant(self);
        }
        self.initial
    }

    /// The state at `index`, if the graph has that many states.
    pub fn state(&self, index: usize) -> (state: Option<&State>)
        ensures
            self@.wf(),
            match state {
                Some(state) => index < self@.states.len() && state@ == self@.states[index as int],
                None => index >= self@.states.len(),
            },
    {
        proof {
            use_type_invariant(self);
        }
        if index < self.states.len() {
            Some(&self.states[index])
        } else {
            None
        }
    }
}

/// Turns a graph as it was put together into a graph that can be run, or
/// refuses it if it starts outside of its states or one of its transitions
/// leads outside of them.
pub fn compile(spec: BookSpec) -> (compiled: Result<Book, ErrorKind>)
    ensures
        match compiled {
            Ok(book) => spec@.wf() && book@ == spec@,
            Err(e) => !spec@.wf() && e == ErrorKind::InvalidTransitionTarget,
        },
{
    let count = spec.states.len();
    if spec.initial >= count {
        return Err(ErrorKind::InvalidTransitionTarget);
    }
    let mut index: usize = 0;
    while index < count
        invariant
            index <= count,
            count == spec.states@.len(),
            spec.initial < count,
            forall|i: int|
                0 <= i < index ==> (#[trigger] spec@.states[i]).targets_within(count as nat),
        decreases count - index,
    {
        if !spec.states[index].targets_within(count) {
            assert(!spec@.states[index as int].targets_within(spec@.states.len()));
            return Err(ErrorKind::InvalidTransitionTarget);
        }
        index += 1;
    }
    assert(spec@.wf());
    Ok(Book { states: spec.states, initial: spec.initial })
}

} // verus!
