//! What holds of every rover and every batch, proved from the definitions
//! that the contracts of the library use.

use crate::batch::{batch, batch_outcome, nth_run, replayed, reports, rover_run};
use crate::error::{outcome, RoverError, RoverErrorView};
use crate::instruction::{parse_instruction, Instruction, Spin};
use crate::position::{parse_coordinates, Coordinates, Direction, RoverPosition};
use crate::simulator::placed;
use crate::text::lines;
use vstd::prelude::*;

verus! {

/// Running the same rover twice gives the same outcome: the same final
/// position, written the same way, or the same failure.
pub proof fn rerun_gives_same_position(
    top_right: Coordinates,
    start: Seq<char>,
    instructions: Seq<char>,
    first: Result<RoverPosition, RoverError>,
    second: Result<RoverPosition, RoverError>,
)
    requires
        outcome(first) == rover_run(top_right, start, instructions),
        outcome(second) == rover_run(top_right, start, instructions),
    ensures
        outcome(first) == outcome(second),
        first matches Ok(p) ==> second matches Ok(q) && p.text() == q.text(),
{
}

/// Running the same batch twice gives the same outcome: the same report,
/// line for line, or the same failure.
pub proof fn rerun_gives_same_outcome(
    top_right: Seq<char>,
    instructions: Seq<char>,
    first: Result<Vec<String>, RoverError>,
    second: Result<Vec<String>, RoverError>,
)
    requires
        batch_outcome(first) == batch(top_right, instructions),
        batch_outcome(second) == batch(top_right, instructions),
    ensures
        batch_outcome(first) == batch_outcome(second),
{
}

/// A pivot never fails, whatever the grid and wherever the rover stands, and
/// it changes nothing but the heading.
pub proof fn pivot_never_fails(position: RoverPosition, top_right: Coordinates, spin: Spin)
    ensures
        position.stepped(top_right, Instruction::Pivot(spin)) == Ok::<_, RoverErrorView>(
            position.pivoted(spin),
        ),
        position.pivoted(spin).current_location == position.current_location,
{
}

/// A left turn undoes a right turn, and a right turn undoes a left turn.
pub proof fn opposite_pivots_cancel(position: RoverPosition)
    ensures
        position.pivoted(Spin::Left).pivoted(Spin::Right) == position,
        position.pivoted(Spin::Right).pivoted(Spin::Left) == position,
{
}

/// Four quarter turns in the same sense bring the heading back.
pub proof fn four_pivots_restore(position: RoverPosition, spin: Spin)
    ensures
        position.pivoted(spin).pivoted(spin).pivoted(spin).pivoted(spin) == position,
{
}

/// A right turn leads from north to east, from east to south, from south to
/// west and from west to north; a left turn leads the other way round.
pub proof fn pivots_follow_the_compass()
    ensures
        Direction::North.turned(Spin::Right) == Direction::East,
        Direction::East.turned(Spin::Right) == Direction::South,
        Direction::South.turned(Spin::Right) == Direction::West,
        Direction::West.turned(Spin::Right) == Direction::North,
        Direction::North.turned(Spin::Left) == Direction::West,
        Direction::West.turned(Spin::Left) == Direction::South,
        Direction::South.turned(Spin::Left) == Direction::East,
        Direction::East.turned(Spin::Left) == Direction::North,
{
}

/// A forward move by a rover that stands at the edge it faces fails, and the
/// failure names the heading.
pub proof fn forward_at_edge_fails(position: RoverPosition, top_right: Coordinates)
    requires
        position.blocked(top_right),
    ensures
        position.stepped(top_right, Instruction::Forward) == Err::<RoverPosition, _>(
            RoverErrorView::OutOfBoundsError { direction: seq![position.facing.code()] },
        ),
{
}

/// A forward move by a rover on the grid that does not stand at the edge it
/// faces succeeds: the rover keeps its heading, stays on the grid, and exactly
/// one coordinate changes, by exactly one.
pub proof fn forward_before_edge_succeeds(position: RoverPosition, top_right: Coordinates)
    requires
        position.current_location.within(top_right),
        !position.blocked(top_right),
    ensures
        position.stepped(top_right, Instruction::Forward) == Ok::<_, RoverErrorView>(
            position.ahead(),
        ),
        position.ahead().current_location.within(top_right),
        position.ahead().facing == position.facing,
        position.ahead().current_location.longitude - position.current_location.longitude
            == match position.facing {
            Direction::North => 1int,
            Direction::South => -1int,
            _ => 0int,
        },
        position.ahead().current_location.latitude - position.current_location.latitude
            == match position.facing {
            Direction::East => 1int,
            Direction::West => -1int,
            _ => 0int,
        },
{
}

/// A start position is accepted exactly when it is on the grid, and a
/// refusal reports a value above the limit it names.
pub proof fn placed_exactly_on_grid(top_right: Coordinates, position: RoverPosition)
    ensures
        match placed(top_right, position) {
            Ok(accepted) => accepted == position && position.current_location.within(top_right),
            Err(RoverErrorView::OutOfBoundsStartPosition { max, value, .. }) => value > max
                && !position.current_location.within(top_right),
            Err(_) => false,
        },
{
}

/// A rover that is on the grid is still on it after any instruction that
/// succeeds.
pub proof fn step_stays_on_grid(
    position: RoverPosition,
    top_right: Coordinates,
    instruction: Instruction,
)
    requires
        position.current_location.within(top_right),
    ensures
        position.stepped(top_right, instruction) matches Ok(next)
            ==> next.current_location.within(top_right),
{
}

/// A rover that starts on the grid ends on the grid, whatever it is told to do.
pub proof fn replay_stays_on_grid(
    position: RoverPosition,
    top_right: Coordinates,
    instructions: Seq<char>,
)
    requires
        position.current_location.within(top_right),
    ensures
        replayed(position, top_right, instructions) matches Ok(end)
            ==> end.current_location.within(top_right),
    decreases instructions.len(),
{
    if instructions.len() > 0 {
        if let Ok(instruction) = parse_instruction(instructions[0]) {
            if let Ok(next) = position.stepped(top_right, instruction) {
                replay_stays_on_grid(next, top_right, instructions.drop_first());
            }
        }
    }
}

/// A successful report holds one line for each rover, and line `i` is the
/// final position of rover `i` of the input.
pub proof fn reports_keep_input_order(
    top_right: Coordinates,
    ls: Seq<Seq<char>>,
    count: nat,
    report: Seq<Seq<char>>,
)
    requires
        reports(top_right, ls, count) == Ok::<_, RoverErrorView>(report),
    ensures
        report.len() == count,
        forall|i: int|
            0 <= i < count ==> (#[trigger] nth_run(top_right, ls, i) matches Ok(end)
                && report[i] == end.text()),
    decreases count,
{
    if count > 0 {
        let earlier = reports(top_right, ls, (count - 1) as nat)->Ok_0;
        reports_keep_input_order(top_right, ls, (count - 1) as nat, earlier);
    }
}

/// A report that fails does so with the failure of the first rover that
/// fails: every rover before it runs to its end.
pub proof fn reports_fail_with_first_failure(
    top_right: Coordinates,
    ls: Seq<Seq<char>>,
    count: nat,
    fault: RoverErrorView,
) -> (culprit: int)
    requires
        reports(top_right, ls, count) == Err::<Seq<Seq<char>>, _>(fault),
    ensures
        0 <= culprit < count,
        nth_run(top_right, ls, culprit) == Err::<RoverPosition, _>(fault),
        forall|i: int| 0 <= i < culprit ==> (#[trigger] nth_run(top_right, ls, i)) is Ok,
    decreases count,
{
    let before = reports(top_right, ls, (count - 1) as nat);
    match before {
        Err(_) => reports_fail_with_first_failure(top_right, ls, (count - 1) as nat, fault),
        Ok(earlier) => {
            reports_keep_input_order(top_right, ls, (count - 1) as nat, earlier);
            count - 1
        },
    }
}

/// A batch that succeeds reports on every pair of lines, in input order:
/// line `i` of the report is the final position of the rover that lines
/// `2 * i` and `2 * i + 1` of the input describe.
pub proof fn batch_keeps_input_order(
    top_right: Seq<char>,
    instructions: Seq<char>,
    report: Seq<Seq<char>>,
)
    requires
        batch(top_right, instructions) == Ok::<_, RoverErrorView>(report),
    ensures
        parse_coordinates(top_right) is Ok,
        2 * report.len() == lines(instructions).len(),
        forall|i: int|
            0 <= i < report.len() ==> (#[trigger] nth_run(
                parse_coordinates(top_right)->Ok_0,
                lines(instructions),
                i,
            ) matches Ok(end) && report[i] == end.text()),
{
    let ls = lines(instructions);
    reports_keep_input_order(parse_coordinates(top_right)->Ok_0, ls, ls.len() / 2, report);
}

/// Instruction text with an odd number of lines is refused as a whole,
/// whatever the lines and the corner hold.
pub proof fn odd_line_count_is_invalid_input(top_right: Seq<char>, instructions: Seq<char>)
    requires
        lines(instructions).len() % 2 == 1,
    ensures
        batch(top_right, instructions) == Err::<Seq<Seq<char>>, _>(RoverErrorView::InvalidInput),
{
}

/// A batch that succeeds holds at least one rover.
pub proof fn successful_batch_is_not_empty(
    top_right: Seq<char>,
    instructions: Seq<char>,
    report: Seq<Seq<char>>,
)
    requires
        batch(top_right, instructions) == Ok::<_, RoverErrorView>(report),
    ensures
        report.len() >= 1,
{
    batch_keeps_input_order(top_right, instructions, report);
}

} // verus!
