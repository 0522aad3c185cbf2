//! Rovers on a rectangular grid.
//!
//! A batch is a grid corner and a text of alternating start-position and
//! instruction lines. Every rover is placed, its instructions are replayed
//! one character at a time, and the batch yields either the final position of
//! every rover, in input order, or the first failure.

pub mod batch;
pub mod boundary;
pub mod error;
pub mod instruction;
pub mod position;
pub mod round_trip;
pub mod simulator;
pub mod text;
pub mod theorems;

pub use batch::{return_coordinates, try_process_rover};
pub use boundary::{Argument, CError, CoordinatesResult};
pub use error::{RoverError, RoverErrorView};
pub use instruction::{Instruction, Spin};
pub use position::{Coordinates, Direction, RoverPosition};
pub use simulator::RoverInformation;
