//! What a foreign host hands over and gets back, as plain values: two text
//! arguments that may be missing or ill-encoded, and a record that holds
//! either the report or an error message.

use crate::batch::texts;
use vstd::prelude::*;

verus! {

/// The ways in which the arguments of a foreign call can be unusable.
#[derive(Copy, Clone, Debug, PartialEq, Eq, Structural)]
pub enum CError {
    NullPointerTopRight,
    NullPointerInstruction,
    InvalidUTF8TopRight,
    InvalidUTF8Instruction,
}

/// One text argument as the host passed it.
#[derive(Debug, PartialEq)]
pub enum Argument {
    /// No text at all.
    Null,
    /// Bytes that are not UTF-8.
    NotUtf8,
    /// A proper text.
    Text(String),
}

/// The record that goes back to the host. One of the two texts is empty.
#[derive(Debug, PartialEq)]
pub struct CoordinatesResult {
    /// The report, one line per rover, or empty after a failure.
    pub result: String,
    /// The error message, or empty on success.
    pub error: String,
}

/// What is wrong with a pair of arguments, if anything. A missing argument is
/// reported before an ill-encoded one, and the corner before the instructions.
pub open spec fn argument_fault(top_right: Argument, instructions: Argument) -> Option<CError> {
    if top_right is Null {
        Some(CError::NullPointerTopRight)
    } else if instructions is Null {
        Some(CError::NullPointerInstruction)
    } else if top_right is NotUtf8 {
        Some(CError::InvalidUTF8TopRight)
    } else if instructions is NotUtf8 {
        Some(CError::InvalidUTF8Instruction)
    } else {
        None
    }
}

/// The lines `ls` as one text, with a line feed between neighbours.
pub open spec fn joined(ls: Seq<Seq<char>>) -> Seq<char>
    decreases ls.len(),
{
    if ls.len() == 0 {
        Seq::empty()
    } else if ls.len() == 1 {
        ls[0]
    } else {
        joined(ls.drop_last()) + seq!['\n'] + ls.last()
    }
}

/// Hands out the two texts if both arguments are usable, and says what is
/// wrong otherwise.
pub fn check_arguments(top_right: Argument, instructions: Argument) -> (r: Result<
    (String, String),
    CError,
>)
    ensures
        match argument_fault(top_right, instructions) {
            Some(fault) => r == Err::<(String, String), _>(fault),
            None => r matches Ok((corner, text)) && top_right == Argument::Text(corner)
                && instructions == Argument::Text(text),
        },
{
    match (top_right, instructions) {
        (Argument::Null, _) => Err(CError::NullPointerTopRight),
        (_, Argument::Null) => Err(CError::NullPointerInstruction),
        (Argument::NotUtf8, _) => Err(CError::InvalidUTF8TopRight),
        (_, Argument::NotUtf8) => Err(CError::InvalidUTF8Instruction),
        (Argument::Text(corner), Argument::Text(text)) => Ok((corner, text)),
    }
}

impl CoordinatesResult {
    /// The record for a batch that succeeded with the report `lines`.
    pub fn success(lines: &Vec<String>) -> (record: CoordinatesResult)
        ensures
            record.result@ == joined(texts(lines@)),
            record.error@ == Seq::<char>::empty(),
    {
        let mut result = String::new();
        let mut i: usize = 0;
        assert(texts(lines@).take(0) =~= Seq::empty());
        while i < lines.len()
            invariant
                i <= lines.len(),
                result@ == joined(texts(lines@).take(i as int)),
            decreases lines.len() - i,
        {
            let ghost done = texts(lines@).take(i as int);
            let ghost next = texts(lines@).take(i + 1);
            assert(next.drop_last() =~= done);
            assert(next.last() == lines[i as int]@);
            if i > 0 {
                proof {
                    reveal_strlit("\n");
                }
                result.append("\n");
            }
            result.append(lines[i].as_str());
            assert(result@ =~= joined(next));
            i += 1;
        }
        assert(texts(lines@).take(lines.len() as int) =~= texts(lines@));
        CoordinatesResult { result, error: String::new() }
    }

    /// The record for a call that failed with `message`.
    pub fn failure(message: String) -> (record: CoordinatesResult)
        ensures
            record.result@ == Seq::<char>::empty(),
            record.error@ == message@,
    {
        CoordinatesResult { result: String::new(), error: message }
    }
}

} // verus!
