use crate::books::{compile, Book, BookSpec, BookView};
use crate::error::ErrorKind;
use crate::senses::Input;
use vstd::prelude::*;

verus! {

/// A request of a controlling application, as a mathematical value.
pub enum RequestView {
    Run(BookView),
    Reset,
    Dial(Seq<Input>),
}

/// A request of a controlling application: what the runtime is to do next.
#[derive(Debug)]
pub enum Request {
    /// End the graph that is running and run this one from its initial
    /// state.
    Run(Book),
    /// Keep the graph that is running but start over from its initial
    /// state.
    Reset,
    /// Feed these inputs to the runtime, one after the other.
    Dial(Vec<Input>),
}

impl View for Request {
    type V = RequestView;

    open spec fn view(&self) -> RequestView {
        match self {
            Request::Run(book) => RequestView::Run(book@),
            Request::Reset => RequestView::Reset,
            Request::Dial(inputs) => RequestView::Dial(inputs@),
        }
    }
}

impl Request {
    /// Finishes decoding a request from what reading its text gave: the
    /// parts of the request, or nothing if the text could not be read as a
    /// request at all.
    pub fn decode(parsed: Option<Spec>) -> (decoded: Result<Request, ErrorKind>)
        ensures
            match parsed {
                Some(spec) => match spec {
                    Spec::Run(book) => match decoded {
                        Ok(request) => book@.wf() && request@ == RequestView::Run(book@),
                        Err(e) => !book@.wf() && e == ErrorKind::InvalidTransitionTarget,
                    },
                    Spec::Reset => decoded matches Ok(request) && request@ == RequestView::Reset,
                    Spec::Dial(dial) => decoded matches Ok(request) && request@
                        == RequestView::Dial(dial_inputs(dial@)),
                },
                None => decoded matches Err(e) && e == ErrorKind::MalformedRequest,
            },
    {
        match parsed {
            Some(spec) => spec.compile(),
            None => Err(ErrorKind::MalformedRequest),
        }
    }
}

/// A request as it arrived, before its parts were looked at.
#[derive(Debug)]
pub enum Spec {
    /// Run this graph.
    Run(BookSpec),
    /// Start over.
    Reset,
    /// Dial these symbols: `0` to `9` are digits, `h` hangs up, `p` picks
    /// up, and every other character means nothing.
    Dial(String),
}

/// What one character of a dial string stands for, if anything.
pub open spec fn dial_symbol(symbol: char) -> Option<Input> {
    if '0' as u32 <= symbol as u32 <= '9' as u32 {
        Some(Input::Digit((symbol as u32 - '0' as u32) as u8))
    } else if symbol == 'h' {
        Some(Input::HangUp)
    } else if symbol == 'p' {
        Some(Input::PickUp)
    } else {
        None
    }
}

/// The inputs that a dial string stands for: one for each character that
/// stands for an input, in the order of the characters.
pub open spec fn dial_inputs(dial: Seq<char>) -> Seq<Input> {
    dial.filter_map(|symbol: char| dial_symbol(symbol))
}

/// What one character of a dial string stands for, if anything.
pub fn decode_symbol(symbol: char) -> (input: Option<Input>)
    ensures
        input == dial_symbol(symbol),
        input matches Some(input) ==> input.wf(),
{
    let point: u32 = symbol as u32;
    let zero: u32 = '0' as u32;
    let nine: u32 = '9' as u32;
    if zero <= point && point <= nine {
        Some(Input::Digit((point - zero) as u8))
    } else if symbol == 'h' {
        Some(Input::hang_up())
    } else if symbol == 'p' {
        Some(Input::pick_up())
    } else {
        None
    }
}

/// The inputs that a dial string stands for.
pub fn decode_dial(dial: &str) -> (inputs: Vec<Input>)
    ensures
        inputs@ == dial_inputs(dial@),
        forall|i: int| 0 <= i < inputs@.len() ==> (#[trigger] inputs@[i]).wf(),
{
    let mut inputs: Vec<Input> = Vec::new();
    for symbol in it: dial.chars()
        invariant
            it.seq() == dial@,
            inputs@ == dial_inputs(dial@.take(it.index())),
            forall|i: int| 0 <= i < inputs@.len() ==> (#[trigger] inputs@[i]).wf(),
    {
        proof {
            dial@.lemma_filter_map_take_succ(|symbol: char| dial_symbol(symbol), it.index());
        }
        match decode_symbol(symbol) {
            Some(input) => {
                inputs.push(input);
            },
            None => {},
        }
    }
    assert(dial@.take(dial@.len() as int) == dial@);
    inputs
}

impl Spec {
    /// Looks at the parts of a request and makes it ready for the runtime.
    /// A graph must be sound to be run; resetting and dialling cannot fail.
    pub fn compile(self) -> (compiled: Result<Request, ErrorKind>)
        ensures
            match self {
                Spec::Run(book) => match compiled {
                    Ok(request) => book@.wf() && request@ == RequestView::Run(book@),
                    Err(e) => !book@.wf() && e == ErrorKind::InvalidTransitionTarget,
                },
                Spec::Reset => compiled matches Ok(request) && request@ == RequestView::Reset,
                Spec::Dial(dial) => compiled matches Ok(request) && request@ == RequestView::Dial(
                    dial_inputs(dial@),
                ),
            },
    {
        match self {
            Spec::Run(book) => match compile(book) {
                Ok(book) => Ok(Request::Run(book)),
                Err(e) => Err(e),
            },
            Spec::Reset => Ok(Request::Reset),
            Spec::Dial(dial) => Ok(Request::Dial(decode_dial(dial.as_str()))),
        }
    }
}

/// The character that stands for an input in a dial string.
pub open spec fn symbol_of(input: Input) -> char {
    match input {
        Input::Digit(value) => (value as u32 + '0' as u32) as char,
        Input::HangUp => 'h',
        Input::PickUp => 'p',
    }
}

/// Reading a dial string part by part gives the same inputs as reading it
/// whole: what a string stands for is what its first part stands for followed
/// by what the rest stands for.
pub proof fn law_dial_reads_left_to_right(first: Seq<char>, rest: Seq<char>)
    ensures
        dial_inputs(first + rest) == dial_inputs(first) + dial_inputs(rest),
    decreases rest.len(),
{
    if rest.len() == 0 {
        assert(first + rest =~= first);
        assert(dial_inputs(first) + dial_inputs(rest) =~= dial_inputs(first));
    } else {
        law_dial_reads_left_to_right(first, rest.drop_last());
        assert((first + rest).drop_last() =~= first + rest.drop_last());
        assert(dial_inputs(first + rest) =~= dial_inputs(first) + dial_inputs(rest));
    }
}

/// A character that stands for nothing can be put anywhere into a dial
/// string, or taken out of it, without changing what the string stands for.
pub proof fn law_dial_drops_strangers(before: Seq<char>, stranger: char, after: Seq<char>)
    requires
        dial_symbol(stranger) is None,
    ensures
        dial_inputs(before + seq![stranger] + after) == dial_inputs(before + after),
{
    law_dial_reads_left_to_right(before + seq![stranger], after);
    law_dial_reads_left_to_right(before, seq![stranger]);
    law_dial_reads_left_to_right(before, after);
    Seq::lemma_filter_map_singleton(stranger, |symbol: char| dial_symbol(symbol));
    assert(dial_inputs(before) + Seq::<Input>::empty() =~= dial_inputs(before));
}

/// Writing inputs down as a dial string and reading the string again gives
/// the inputs back, in their order.
pub proof fn law_dial_round_trip(inputs: Seq<Input>)
    requires
        forall|i: int| 0 <= i < inputs.len() ==> (#[trigger] inputs[i]).wf(),
    ensures
        dial_inputs(inputs.map_values(|input: Input| symbol_of(input))) == inputs,
    decreases inputs.len(),
{
    let written = inputs.map_values(|input: Input| symbol_of(input));
    if inputs.len() == 0 {
        assert(dial_inputs(written) =~= inputs);
    } else {
        law_dial_round_trip(inputs.drop_last());
        assert(written.drop_last() =~= inputs.drop_last().map_values(
            |input: Input| symbol_of(input),
        ));
        assert(dial_symbol(symbol_of(inputs.last())) == Some(inputs.last()));
        assert(dial_inputs(written) =~= inputs);
    }
}

} // verus!
