use rover::{Coordinates, Direction, Instruction, RoverError, RoverInformation, RoverPosition, Spin};

const DIRECTIONS: [Direction; 4] =
    [Direction::North, Direction::East, Direction::South, Direction::West];

fn at(latitude: u16, longitude: u16, facing: Direction) -> RoverPosition {
    RoverPosition::new(Coordinates { latitude, longitude }, facing)
}

fn rover(corner: (u16, u16), position: RoverPosition) -> RoverInformation {
    RoverInformation::try_new(Coordinates { latitude: corner.0, longitude: corner.1 }, position)
        .unwrap()
}

#[test]
fn placing_checks_both_axes() {
    let corner = Coordinates { latitude: 4, longitude: 6 };
    for facing in DIRECTIONS {
        assert!(RoverInformation::try_new(corner, at(0, 0, facing)).is_ok());
        assert!(RoverInformation::try_new(corner, at(4, 6, facing)).is_ok());
        assert_eq!(
            RoverInformation::try_new(corner, at(4, 7, facing)).err(),
            Some(RoverError::OutOfBoundsStartPosition { which: "longitude", max: 6, value: 7 })
        );
        assert_eq!(
            RoverInformation::try_new(corner, at(5, 6, facing)).err(),
            Some(RoverError::OutOfBoundsStartPosition { which: "latitude", max: 4, value: 5 })
        );
        assert_eq!(
            RoverInformation::try_new(corner, at(9, 9, facing)).err(),
            Some(RoverError::OutOfBoundsStartPosition { which: "longitude", max: 6, value: 9 })
        );
    }
}

#[test]
fn placed_rover_keeps_position_and_corner() {
    let corner = Coordinates { latitude: 4, longitude: 6 };
    let info = RoverInformation::try_new(corner, at(3, 2, Direction::East)).unwrap();
    assert_eq!(info.current_position(), at(3, 2, Direction::East));
    assert_eq!(info.grid_corner(), corner);
    let info = RoverInformation::new(corner, at(4, 6, Direction::South));
    assert_eq!(info.current_position(), at(4, 6, Direction::South));
    assert_eq!(info.grid_corner(), corner);
}

#[test]
fn right_turns_go_clockwise() {
    let mut info = rover((5, 5), at(2, 3, Direction::North));
    for expected in [Direction::East, Direction::South, Direction::West, Direction::North] {
        info.spin(Spin::Right);
        assert_eq!(info.current_position(), at(2, 3, expected));
    }
}

#[test]
fn left_turns_go_counterclockwise() {
    let mut info = rover((5, 5), at(2, 3, Direction::North));
    for expected in [Direction::West, Direction::South, Direction::East, Direction::North] {
        info.spin(Spin::Left);
        assert_eq!(info.current_position(), at(2, 3, expected));
    }
}

#[test]
fn opposite_turns_cancel() {
    for facing in DIRECTIONS {
        let mut info = rover((5, 5), at(1, 1, facing));
        info.spin(Spin::Left);
        info.spin(Spin::Right);
        assert_eq!(info.current_position(), at(1, 1, facing));
        info.spin(Spin::Right);
        info.spin(Spin::Left);
        assert_eq!(info.current_position(), at(1, 1, facing));
    }
}

#[test]
fn four_turns_restore_the_heading() {
    for facing in DIRECTIONS {
        for spin in [Spin::Left, Spin::Right] {
            let mut info = rover((5, 5), at(1, 1, facing));
            for _ in 0..4 {
                assert_eq!(info.try_instruction(Instruction::Pivot(spin)), Ok(()));
            }
            assert_eq!(info.current_position(), at(1, 1, facing));
        }
    }
}

#[test]
fn forward_moves_one_unit() {
    let mut info = rover((5, 5), at(2, 3, Direction::North));
    assert_eq!(info.try_move_forward(), Ok(()));
    assert_eq!(info.current_position(), at(2, 4, Direction::North));
    let mut info = rover((5, 5), at(2, 3, Direction::South));
    assert_eq!(info.try_move_forward(), Ok(()));
    assert_eq!(info.current_position(), at(2, 2, Direction::South));
    let mut info = rover((5, 5), at(2, 3, Direction::East));
    assert_eq!(info.try_move_forward(), Ok(()));
    assert_eq!(info.current_position(), at(3, 3, Direction::East));
    let mut info = rover((5, 5), at(2, 3, Direction::West));
    assert_eq!(info.try_move_forward(), Ok(()));
    assert_eq!(info.current_position(), at(1, 3, Direction::West));
}

#[test]
fn forward_at_the_edge_fails_and_leaves_the_rover() {
    let cases = [
        (at(2, 5, Direction::North), "N"),
        (at(2, 0, Direction::South), "S"),
        (at(4, 3, Direction::East), "E"),
        (at(0, 3, Direction::West), "W"),
    ];
    for (start, letter) in cases {
        let mut info = rover((4, 5), start);
        assert_eq!(
            info.try_move_forward(),
            Err(RoverError::OutOfBoundsError { direction: letter.to_string() })
        );
        assert_eq!(info.current_position(), start);
        assert_eq!(
            info.try_instruction(Instruction::Forward),
            Err(RoverError::OutOfBoundsError { direction: letter.to_string() })
        );
        assert_eq!(info.current_position(), start);
    }
}

#[test]
fn forward_one_step_before_the_edge_succeeds_once() {
    let cases = [
        (at(2, 4, Direction::North), at(2, 5, Direction::North)),
        (at(2, 1, Direction::South), at(2, 0, Direction::South)),
        (at(3, 3, Direction::East), at(4, 3, Direction::East)),
        (at(1, 3, Direction::West), at(0, 3, Direction::West)),
    ];
    for (start, end) in cases {
        let mut info = rover((4, 5), start);
        assert_eq!(info.try_instruction(Instruction::Forward), Ok(()));
        assert_eq!(info.current_position(), end);
        assert!(info.try_instruction(Instruction::Forward).is_err());
        assert_eq!(info.current_position(), end);
    }
}

#[test]
fn rover_never_leaves_the_grid() {
    let corner = Coordinates { latitude: 2, longitude: 3 };
    let steps = "MMRMMLMMMMRRMLMMMMLMMMMMRMMMMMMRMMMMLLMMMM";
    for latitude in 0..=2u16 {
        for longitude in 0..=3u16 {
            for facing in DIRECTIONS {
                let mut info =
                    RoverInformation::try_new(corner, at(latitude, longitude, facing)).unwrap();
                for c in steps.chars() {
                    let _ = info.try_instruction(Instruction::try_from(c).unwrap());
                    let here = info.current_position().current_location;
                    assert!(here.latitude <= 2 && here.longitude <= 3);
                }
            }
        }
    }
}
