//! One rover on its grid: the state, and the two transitions that change it.

use crate::error::{RoverError, RoverErrorView};
use crate::instruction::{Instruction, Spin};
use crate::position::{Coordinates, Direction, RoverPosition};
use vstd::prelude::*;

verus! {

impl Direction {
    /// The number of clockwise quarter turns that lead from north to this heading.
    pub open spec fn quarter_turns(self) -> int {
        match self {
            Direction::North => 0,
            Direction::East => 1,
            Direction::South => 2,
            Direction::West => 3,
        }
    }

    /// The heading reached from north by `n` clockwise quarter turns; a
    /// negative `n` turns the other way.
    pub open spec fn from_quarter_turns(n: int) -> Direction {
        if n % 4 == 0 {
            Direction::North
        } else if n % 4 == 1 {
            Direction::East
        } else if n % 4 == 2 {
            Direction::South
        } else {
            Direction::West
        }
    }

    /// The heading after one quarter turn in the sense `spin`.
    pub open spec fn turned(self, spin: Spin) -> Direction {
        Direction::from_quarter_turns(self.quarter_turns() + spin.quarter_turns())
    }
}

impl Spin {
    /// The turn counted in clockwise quarter turns: one for right, minus one for left.
    pub open spec fn quarter_turns(self) -> int {
        match self {
            Spin::Right => 1,
            Spin::Left => -1,
        }
    }
}

impl RoverPosition {
    /// Whether the rover stands at the edge of the grid that it faces, so that
    /// it cannot move ahead.
    pub open spec fn blocked(self, top_right: Coordinates) -> bool {
        match self.facing {
            Direction::North => self.current_location.longitude == top_right.longitude,
            Direction::South => self.current_location.longitude == 0,
            Direction::East => self.current_location.latitude == top_right.latitude,
            Direction::West => self.current_location.latitude == 0,
        }
    }

    /// The position one unit ahead: north and south change the longitude, east
    /// and west the latitude.
    pub open spec fn ahead(self) -> RoverPosition {
        let Coordinates { latitude, longitude } = self.current_location;
        let current_location = match self.facing {
            Direction::North => Coordinates { latitude, longitude: (longitude + 1) as u16 },
            Direction::South => Coordinates { latitude, longitude: (longitude - 1) as u16 },
            Direction::East => Coordinates { latitude: (latitude + 1) as u16, longitude },
            Direction::West => Coordinates { latitude: (latitude - 1) as u16, longitude },
        };
        RoverPosition { current_location, facing: self.facing }
    }

    /// The position after a quarter turn on the spot.
    pub open spec fn pivoted(self, spin: Spin) -> RoverPosition {
        RoverPosition { current_location: self.current_location, facing: self.facing.turned(spin) }
    }

    /// The position after a forward move, or the failure of a move that would
    /// leave the grid.
    pub open spec fn moved(self, top_right: Coordinates) -> Result<
        RoverPosition,
        RoverErrorView,
    > {
        if self.blocked(top_right) {
            Err(RoverErrorView::OutOfBoundsError { direction: seq![self.facing.code()] })
        } else {
            Ok(self.ahead())
        }
    }

    /// The position after one instruction.
    pub open spec fn stepped(self, top_right: Coordinates, instruction: Instruction) -> Result<
        RoverPosition,
        RoverErrorView,
    > {
        match instruction {
            Instruction::Pivot(spin) => Ok(self.pivoted(spin)),
            Instruction::Forward => self.moved(top_right),
        }
    }
}

/// What placing a rover at `position` on the grid up to `top_right` yields:
/// the position itself, or a report of the first coordinate that exceeds the
/// grid, longitude before latitude.
pub open spec fn placed(top_right: Coordinates, position: RoverPosition) -> Result<
    RoverPosition,
    RoverErrorView,
> {
    let at = position.current_location;
    if at.longitude > top_right.longitude {
        Err(
            RoverErrorView::OutOfBoundsStartPosition {
                which: "longitude"@,
                max: top_right.longitude,
                value: at.longitude,
            },
        )
    } else if at.latitude > top_right.latitude {
        Err(
            RoverErrorView::OutOfBoundsStartPosition {
                which: "latitude"@,
                max: top_right.latitude,
                value: at.latitude,
            },
        )
    } else {
        Ok(position)
    }
}

/// A rover together with the grid it drives on. The rover is on the grid at
/// all times.
#[derive(Debug)]
pub struct RoverInformation {
    position: RoverPosition,
    top_right_location: Coordinates,
}

impl RoverInformation {
    #[verifier::type_invariant]
    spec fn on_grid(self) -> bool {
        self.position.current_location.within(self.top_right_location)
    }

    /// Where the rover stands and looks.
    pub closed spec fn position(self) -> RoverPosition {
        self.position
    }

    /// The top-right corner of the grid.
    pub closed spec fn top_right(self) -> Coordinates {
        self.top_right_location
    }

    /// Puts a rover that is known to stand on the grid under simulation.
    pub fn new(top_right: Coordinates, position: RoverPosition) -> (rover: RoverInformation)
        requires
            position.current_location.within(top_right),
        ensures
            rover.position() == position,
            rover.top_right() == top_right,
    {
        RoverInformation { position, top_right_location: top_right }
    }

    /// Puts a rover under simulation if its start position is on the grid.
    pub fn try_new(top_right: Coordinates, position: RoverPosition) -> (r: Result<
        RoverInformation,
        RoverError,
    >)
        ensures
            match placed(top_right, position) {
                Ok(_) => r matches Ok(rover) && rover.position() == position && rover.top_right()
                    == top_right,
                Err(fault) => r matches Err(e) && e@ == fault,
            },
    {
        if position.current_location.longitude > top_right.longitude {
            Err(
                RoverError::OutOfBoundsStartPosition {
                    which: "longitude",
                    value: position.current_location.longitude,
                    max: top_right.longitude,
                },
            )
        } else if position.current_location.latitude > top_right.latitude {
            Err(
                RoverError::OutOfBoundsStartPosition {
                    which: "latitude",
                    value: position.current_location.latitude,
                    max: top_right.latitude,
                },
            )
        } else {
            Ok(RoverInformation { position, top_right_location: top_right })
        }
    }

    /// The rover's current position, which is on the grid.
    pub fn current_position(&self) -> (position: RoverPosition)
        ensures
            position == self.position(),
            position.current_location.within(self.top_right()),
    {
        proof {
            use_type_invariant(self);
        }
        self.position
    }

    /// The top-right corner of the rover's grid.
    pub fn grid_corner(&self) -> (top_right: Coordinates)
        ensures
            top_right == self.top_right(),
    {
        self.top_right_location
    }

    /// Turns the rover a quarter turn on the spot.
    pub fn spin(&mut self, spin: Spin)
        ensures
            final(self).position() == old(self).position().pivoted(spin),
            final(self).top_right() == old(self).top_right(),
    {
        proof {
            use_type_invariant(&*self);
        }
        let new_facing = match (self.position.facing, spin) {
            (Direction::North, Spin::Right) => Direction::East,
            (Direction::North, Spin::Left) => Direction::West,
            (Direction::East, Spin::Right) => Direction::South,
            (Direction::East, Spin::Left) => Direction::North,
            (Direction::South, Spin::Right) => Direction::West,
            (Direction::South, Spin::Left) => Direction::East,
            (Direction::West, Spin::Right) => Direction::North,
            (Direction::West, Spin::Left) => Direction::South,
        };
        self.position.facing = new_facing;
    }

    /// Moves the rover one unit ahead, unless that would take it off the
    /// grid: then the rover stays where it is and the move is reported.
    pub fn try_move_forward(&mut self) -> (r: Result<(), RoverError>)
        ensures
            final(self).top_right() == old(self).top_right(),
            match old(self).position().moved(old(self).top_right()) {
                Ok(next) => r is Ok && final(self).position() == next,
                Err(fault) => r matches Err(e) && e@ == fault && final(self).position() == old(
                    self,
                ).position(),
            },
    {
        proof {
            use_type_invariant(&*self);
        }
        match self.position.facing {
            Direction::North => {
                if self.position.current_location.longitude == self.top_right_location.longitude {
                    Err(RoverError::OutOfBoundsError { direction: self.position.facing.into() })
                } else {
                    self.position.current_location.longitude += 1;
                    Ok(())
                }
            },
            Direction::South => {
                if self.position.current_location.longitude == 0 {
                    Err(RoverError::OutOfBoundsError { direction: self.position.facing.into() })
                } else {
                    self.position.current_location.longitude -= 1;
                    Ok(())
                }
            },
            Direction::East => {
                if self.position.current_location.latitude == self.top_right_location.latitude {
                    Err(RoverError::OutOfBoundsError { direction: self.position.facing.into() })
                } else {
                    self.position.current_location.latitude += 1;
                    Ok(())
                }
            },
            Direction::West => {
                if self.position.current_location.latitude == 0 {
                    Err(RoverError::OutOfBoundsError { direction: self.position.facing.into() })
                } else {
                    self.position.current_location.latitude -= 1;
                    Ok(())
                }
            },
        }
    }

    /// Carries out one instruction. A turn always succeeds; a forward move
    /// fails at the edge of the grid and then leaves the rover as it was.
    pub fn try_instruction(&mut self, instruction: Instruction) -> (r: Result<(), RoverError>)
        ensures
            final(self).top_right() == old(self).top_right(),
            match old(self).position().stepped(old(self).top_right(), instruction) {
                Ok(next) => r is Ok && final(self).position() == next,
                Err(fault) => r matches Err(e) && e@ == fault && final(self).position() == old(
                    self,
                ).position(),
            },
    {
        match instruction {
            Instruction::Pivot(spin) => {
                self.spin(spin);
                Ok(())
            },
            Instruction::Forward => self.try_move_forward(),
        }
    }
}

} // verus!
