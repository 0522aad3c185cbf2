//! Whole rovers and whole batches: from text to final positions.

use crate::error::{outcome, RoverError, RoverErrorView};
use crate::instruction::{parse_instruction, Instruction};
use crate::position::{parse_coordinates, parse_position, Coordinates, RoverPosition};
use crate::simulator::{placed, RoverInformation};
use crate::text::{find_lines, lines, selects, to_chars};
use vstd::prelude::*;

verus! {

/// The position reached from `position` by carrying out the letters of
/// `instructions` from left to right, or the failure of the first letter
/// that is no instruction or that asks for a move off the grid.
pub open spec fn replayed(
    position: RoverPosition,
    top_right: Coordinates,
    instructions: Seq<char>,
) -> Result<RoverPosition, RoverErrorView>
    decreases instructions.len(),
{
    if instructions.len() == 0 {
        Ok(position)
    } else {
        match parse_instruction(instructions[0]) {
            Err(e) => Err(e),
            Ok(instruction) => match position.stepped(top_right, instruction) {
                Err(e) => Err(e),
                Ok(next) => replayed(next, top_right, instructions.drop_first()),
            },
        }
    }
}

/// The final position of the rover that starts as the line `start` says and
/// then follows the line `instructions`, or the first failure on the way:
/// reading the start, placing the rover, replaying.
pub open spec fn rover_run(top_right: Coordinates, start: Seq<char>, instructions: Seq<char>)
    -> Result<RoverPosition, RoverErrorView> {
    match parse_position(start) {
        Err(e) => Err(e),
        Ok(position) => match placed(top_right, position) {
            Err(e) => Err(e),
            Ok(position) => replayed(position, top_right, instructions),
        },
    }
}

/// The outcome of rover number `i`, counted from zero, of a batch whose
/// lines are `ls`: its start is line `2 * i`, its instructions are the line
/// after.
pub open spec fn nth_run(top_right: Coordinates, ls: Seq<Seq<char>>, i: int) -> Result<
    RoverPosition,
    RoverErrorView,
> {
    rover_run(top_right, ls[2 * i], ls[2 * i + 1])
}

/// The reports on the first `count` rovers of a batch, in input order, or
/// the failure of the first rover among them that fails.
pub open spec fn reports(top_right: Coordinates, ls: Seq<Seq<char>>, count: nat) -> Result<
    Seq<Seq<char>>,
    RoverErrorView,
>
    decreases count,
{
    if count == 0 {
        Ok(Seq::empty())
    } else {
        match reports(top_right, ls, (count - 1) as nat) {
            Err(e) => Err(e),
            Ok(earlier) => match nth_run(top_right, ls, count - 1) {
                Err(e) => Err(e),
                Ok(position) => Ok(earlier.push(position.text())),
            },
        }
    }
}

/// The outcome of a whole batch. The instruction text must split into an
/// even number of lines, then the corner must read as coordinates, then
/// every rover must run to its end; the first of these to fail decides the
/// error, and no partial report is given.
pub open spec fn batch(top_right: Seq<char>, instructions: Seq<char>) -> Result<
    Seq<Seq<char>>,
    RoverErrorView,
> {
    let ls = lines(instructions);
    if ls.len() % 2 != 0 {
        Err(RoverErrorView::InvalidInput)
    } else {
        match parse_coordinates(top_right) {
            Err(e) => Err(e),
            Ok(corner) => reports(corner, ls, ls.len() / 2),
        }
    }
}

/// The character sequences of a list of texts.
pub open spec fn texts(v: Seq<String>) -> Seq<Seq<char>> {
    Seq::new(v.len(), |i: int| v[i]@)
}

/// A batch result as the outcome that [`batch`] speaks of.
pub open spec fn batch_outcome(r: Result<Vec<String>, RoverError>) -> Result<
    Seq<Seq<char>>,
    RoverErrorView,
> {
    match r {
        Ok(rovers) => Ok(texts(rovers@)),
        Err(e) => Err(e@),
    }
}

/// Once one of the first rovers has failed, taking more rovers into account
/// changes nothing.
pub proof fn lemma_failure_ends_batch(
    top_right: Coordinates,
    ls: Seq<Seq<char>>,
    count: nat,
    more: nat,
)
    requires
        count <= more,
        reports(top_right, ls, count) is Err,
    ensures
        reports(top_right, ls, more) == reports(top_right, ls, count),
    decreases more,
{
    if count < more {
        lemma_failure_ends_batch(top_right, ls, count, (more - 1) as nat);
    }
}

/// Runs one rover: reads its start position, places it on the grid up to
/// `top_right` and replays its instructions.
pub fn try_process_rover(
    top_right: Coordinates,
    starting_position: String,
    instructions: String,
) -> (r: Result<RoverPosition, RoverError>)
    ensures
        outcome(r) == rover_run(top_right, starting_position@, instructions@),
        r matches Ok(position) ==> position.current_location.within(top_right),
{
    let position = RoverPosition::try_from(starting_position)?;
    let mut rover_info = RoverInformation::try_new(top_right, position)?;
    assert(instructions@.skip(0) =~= instructions@);
    for c in it: instructions.as_str().chars()
        invariant
            it.seq() == instructions@,
            rover_info.top_right() == top_right,
            rover_run(top_right, starting_position@, instructions@) == replayed(
                rover_info.position(),
                top_right,
                instructions@.skip(it.index()),
            ),
    {
        assert(instructions@.skip(it.index()).drop_first() =~= instructions@.skip(it.index() + 1));
        let instruction = Instruction::try_from(c)?;
        rover_info.try_instruction(instruction)?;
    }
    Ok(rover_info.current_position())
}

/// Runs a batch: `top_right` holds the grid corner, `instructions` the
/// rovers, two lines each. Returns the final position of every rover as
/// text, in input order, or the first failure.
pub fn return_coordinates(top_right: String, instructions: String) -> (r: Result<
    Vec<String>,
    RoverError,
>)
    ensures
        batch_outcome(r) == batch(top_right@, instructions@),
{
    let text = instructions.as_str();
    let chars = to_chars(text);
    let parts = find_lines(chars.as_slice());
    if parts.len() % 2 != 0 {
        return Err(RoverError::InvalidInput);
    }
    let top_right_coordinates = Coordinates::try_from(top_right)?;
    let ghost ls = lines(instructions@);
    let mut rovers: Vec<String> = Vec::new();
    let mut i: usize = 0;
    assert(texts(rovers@) =~= Seq::empty());
    while i < parts.len()
        invariant
            text@ == instructions@,
            ls == lines(instructions@),
            parse_coordinates(top_right@) == Ok::<_, RoverErrorView>(top_right_coordinates),
            selects(text@, parts@, ls),
            parts.len() % 2 == 0,
            i % 2 == 0,
            i <= parts.len(),
            reports(top_right_coordinates, ls, (i / 2) as nat) == Ok::<_, RoverErrorView>(
                texts(rovers@),
            ),
        decreases parts.len() - i,
    {
        let starting_position = parts[i].copy_of(text);
        let instruction_str = parts[i + 1].copy_of(text);
        let rover_final_position = match try_process_rover(
            top_right_coordinates,
            starting_position,
            instruction_str,
        ) {
            Ok(position) => position,
            Err(e) => {
                proof {
                    assert(nth_run(top_right_coordinates, ls, i as int / 2) is Err);
                    lemma_failure_ends_batch(
                        top_right_coordinates,
                        ls,
                        (i / 2 + 1) as nat,
                        (parts.len() / 2) as nat,
                    );
                }
                return Err(e);
            },
        };
        let ghost earlier = texts(rovers@);
        rovers.push(rover_final_position.to_text());
        assert(texts(rovers@) =~= earlier.push(rover_final_position.text()));
        assert(nth_run(top_right_coordinates, ls, i as int / 2) == Ok::<_, RoverErrorView>(
            rover_final_position,
        ));
        i += 2;
    }
    Ok(rovers)
}

} // verus!
