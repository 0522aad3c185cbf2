//! The commands a rover understands.

use crate::error::{outcome, RoverError, RoverErrorView};
use vstd::prelude::*;
use vstd::std_specs::convert::TryFromSpecImpl;

verus! {

/// The sense of a quarter turn.
#[derive(Copy, Clone, Debug, PartialEq, Eq, Structural)]
pub enum Spin {
    Left,
    Right,
}

/// One command: move one unit ahead, or turn on the spot.
#[derive(Copy, Clone, Debug, PartialEq, Eq, Structural)]
pub enum Instruction {
    Forward,
    Pivot(Spin),
}

/// The command that the letter `c` stands for.
pub open spec fn parse_instruction(c: char) -> Result<Instruction, RoverErrorView> {
    if c == 'L' {
        Ok(Instruction::Pivot(Spin::Left))
    } else if c == 'R' {
        Ok(Instruction::Pivot(Spin::Right))
    } else if c == 'M' {
        Ok(Instruction::Forward)
    } else {
        Err(RoverErrorView::InstructionError { received: c })
    }
}

impl TryFrom<char> for Instruction {
    type Error = RoverError;

    /// Reads a command from its letter.
    fn try_from(value: char) -> (r: Result<Instruction, RoverError>)
        ensures
            outcome(r) == parse_instruction(value),
    {
        match value {
            'L' => Ok(Instruction::Pivot(Spin::Left)),
            'R' => Ok(Instruction::Pivot(Spin::Right)),
            'M' => Ok(Instruction::Forward),
            _ => Err(RoverError::InstructionError { received: value }),
        }
    }
}

impl TryFromSpecImpl<char> for Instruction {
    open spec fn obeys_try_from_spec() -> bool {
        true
    }

    open spec fn try_from_spec(v: char) -> Result<Self, RoverError> {
        match parse_instruction(v) {
            Ok(i) => Ok(i),
            Err(_) => Err(RoverError::InstructionError { received: v }),
        }
    }
}

} // verus!
