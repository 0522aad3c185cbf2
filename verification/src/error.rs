//! The closed set of failures a batch of rovers can end in.

use vstd::prelude::*;

verus! {

/// Everything that can go wrong while reading or replaying a batch.
///
/// Each variant carries exactly the values needed to point at the offending
/// piece of input.
#[allow(inconsistent_fields)]
#[derive(Debug, PartialEq)]
pub enum RoverError {
    /// The instruction text does not split into (start, instructions) pairs.
    InvalidInput,
    /// A line holds `got` whitespace-separated tokens instead of the expected number.
    TokenCount { got: usize },
    /// The token `value`, read for the coordinate `which`, is not a 16-bit decimal number.
    InvalidInt { which: &'static str, value: String },
    /// The heading token `value` is longer than one character.
    DirectionLen { value: String },
    /// The start position exceeds the grid on the axis `which`: `value` is above `max`.
    OutOfBoundsStartPosition { which: &'static str, max: u16, value: u16 },
    /// A forward move while facing `direction` would leave the grid.
    OutOfBoundsError { direction: String },
    /// `received` is none of `N`, `S`, `E`, `W`.
    DirectionError { received: char },
    /// `received` is none of `L`, `R`, `M`.
    InstructionError { received: char },
}

/// The mathematical content of a [`RoverError`]: texts become character
/// sequences and the token count an unbounded natural number.
#[allow(inconsistent_fields)]
pub enum RoverErrorView {
    InvalidInput,
    TokenCount { got: nat },
    InvalidInt { which: Seq<char>, value: Seq<char> },
    DirectionLen { value: Seq<char> },
    OutOfBoundsStartPosition { which: Seq<char>, max: u16, value: u16 },
    OutOfBoundsError { direction: Seq<char> },
    DirectionError { received: char },
    InstructionError { received: char },
}

impl View for RoverError {
    type V = RoverErrorView;

    open spec fn view(&self) -> RoverErrorView {
        match *self {
            RoverError::InvalidInput => RoverErrorView::InvalidInput,
            RoverError::TokenCount { got } => RoverErrorView::TokenCount { got: got as nat },
            RoverError::InvalidInt { which, value } => RoverErrorView::InvalidInt {
                which: which@,
                value: value@,
            },
            RoverError::DirectionLen { value } => RoverErrorView::DirectionLen { value: value@ },
            RoverError::OutOfBoundsStartPosition { which, max, value } => {
                RoverErrorView::OutOfBoundsStartPosition { which: which@, max, value }
            },
            RoverError::OutOfBoundsError { direction } => RoverErrorView::OutOfBoundsError {
                direction: direction@,
            },
            RoverError::DirectionError { received } => RoverErrorView::DirectionError { received },
            RoverError::InstructionError { received } => RoverErrorView::InstructionError {
                received,
            },
        }
    }
}

/// A fallible result with its error replaced by the error's view, so that it
/// can be compared with the outcome a specification function predicts.
pub open spec fn outcome<T>(r: Result<T, RoverError>) -> Result<T, RoverErrorView> {
    match r {
        Ok(v) => Ok(v),
        Err(e) => Err(e@),
    }
}

} // verus!
