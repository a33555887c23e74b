use crate::error::ErrorKind;
use vstd::prelude::*;

verus! {

/// Something a person did with the phone.
#[derive(Clone, Copy, Debug, PartialEq, Eq, Hash, Structural)]
pub enum Input {
    /// A dialled digit, zero to nine.
    Digit(u8),
    /// The receiver was lifted.
    PickUp,
    /// The receiver was put down.
    HangUp,
}

impl Input {
    /// A digit input carries a value from zero to nine.
    pub open spec fn wf(self) -> bool {
        self matches Input::Digit(d) ==> d <= 9
    }

    /// A number that tells inputs apart: no two inputs share one.
    pub open spec fn spec_code(self) -> u16 {
        match self {
            Input::Digit(d) => d as u16,
            Input::PickUp => 256,
            Input::HangUp => 257,
        }
    }

    /// A number that tells inputs apart: no two inputs share one.
    #[verifier::when_used_as_spec(spec_code)]
    pub fn code(self) -> (code: u16)
        ensures
            code == self.spec_code(),
            code <= 257,
    {
        match self {
            Input::Digit(d) => d as u16,
            Input::PickUp => 256,
            Input::HangUp => 257,
        }
    }

    /// The input for dialling `value`, if `value` is a digit.
    pub open spec fn spec_digit(value: int) -> Option<Input> {
        if 0 <= value <= 9 {
            Some(Input::Digit(value as u8))
        } else {
            None
        }
    }

    /// Makes the input for dialling `value`, which must be a single digit.
    pub fn digit(value: i32) -> (made: Result<Input, ErrorKind>)
        ensures
            made == match Input::spec_digit(value as int) {
                Some(input) => Ok::<Input, ErrorKind>(input),
                None => Err(ErrorKind::InputOutOfRange),
            },
            made matches Ok(input) ==> input.wf(),
    {
        if 0 <= value && value <= 9 {
            Ok(Input::Digit(value as u8))
        } else {
            Err(ErrorKind::InputOutOfRange)
        }
    }

    /// The input for lifting the receiver.
    pub fn pick_up() -> (made: Input)
        ensures
            made == Input::PickUp,
    {
        Input::PickUp
    }

    /// The input for putting the receiver down.
    pub fn hang_up() -> (made: Input)
        ensures
            made == Input::HangUp,
    {
        Input::HangUp
    }
}

} // verus!
