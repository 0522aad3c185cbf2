use rover::{Coordinates, Direction, Instruction, RoverError, RoverPosition, Spin};

fn position(text: &str) -> Result<RoverPosition, RoverError> {
    RoverPosition::try_from(text.to_string())
}

fn coordinates(text: &str) -> Result<Coordinates, RoverError> {
    Coordinates::try_from(text.to_string())
}

#[test]
fn position_is_read() {
    assert_eq!(
        position("1 2 N"),
        Ok(RoverPosition {
            current_location: Coordinates { latitude: 1, longitude: 2 },
            facing: Direction::North,
        })
    );
    assert_eq!(
        position("  65535\t0 \u{2003}W\n"),
        Ok(RoverPosition {
            current_location: Coordinates { latitude: 65535, longitude: 0 },
            facing: Direction::West,
        })
    );
    assert_eq!(
        position("+7 007 S"),
        Ok(RoverPosition {
            current_location: Coordinates { latitude: 7, longitude: 7 },
            facing: Direction::South,
        })
    );
    assert_eq!(
        position("3 4 E"),
        Ok(RoverPosition::new(Coordinates { latitude: 3, longitude: 4 }, Direction::East))
    );
}

#[test]
fn position_token_count() {
    assert_eq!(position("13N"), Err(RoverError::TokenCount { got: 1 }));
    assert_eq!(position(""), Err(RoverError::TokenCount { got: 0 }));
    assert_eq!(position(" \t "), Err(RoverError::TokenCount { got: 0 }));
    assert_eq!(position("1 3N"), Err(RoverError::TokenCount { got: 2 }));
    assert_eq!(position("1 3 N N"), Err(RoverError::TokenCount { got: 4 }));
    assert_eq!(position("a b c d e f g"), Err(RoverError::TokenCount { got: 7 }));
}

#[test]
fn position_invalid_int() {
    assert_eq!(
        position("WERF 3 N"),
        Err(RoverError::InvalidInt { which: "latitude", value: "WERF".to_string() })
    );
    assert_eq!(
        position("3 -1 N"),
        Err(RoverError::InvalidInt { which: "longitude", value: "-1".to_string() })
    );
    assert_eq!(
        position("65536 x N"),
        Err(RoverError::InvalidInt { which: "latitude", value: "65536".to_string() })
    );
    assert_eq!(
        position("1 1.0 NN"),
        Err(RoverError::InvalidInt { which: "longitude", value: "1.0".to_string() })
    );
    assert_eq!(
        position("\u{e9}t\u{e9} 3 N"),
        Err(RoverError::InvalidInt { which: "latitude", value: "\u{e9}t\u{e9}".to_string() })
    );
    assert_eq!(
        position("1 \u{663}\u{664} N"),
        Err(RoverError::InvalidInt { which: "longitude", value: "\u{663}\u{664}".to_string() })
    );
}

#[test]
fn position_direction_len() {
    assert_eq!(
        position("1 2 NE"),
        Err(RoverError::DirectionLen { value: "NE".to_string() })
    );
    assert_eq!(
        position("1 2 North"),
        Err(RoverError::DirectionLen { value: "North".to_string() })
    );
}

#[test]
fn position_direction_error() {
    assert_eq!(position("3 3 X"), Err(RoverError::DirectionError { received: 'X' }));
    assert_eq!(position("3 3 n"), Err(RoverError::DirectionError { received: 'n' }));
    assert_eq!(position("3 3 4"), Err(RoverError::DirectionError { received: '4' }));
    assert_eq!(position("3 3 \u{e9}"), Err(RoverError::DirectionError { received: '\u{e9}' }));
}

#[test]
fn coordinates_are_read() {
    assert_eq!(coordinates("5 5"), Ok(Coordinates { latitude: 5, longitude: 5 }));
    assert_eq!(coordinates(" 0\n65535 "), Ok(Coordinates { latitude: 0, longitude: 65535 }));
    assert_eq!(coordinates("+12 0034"), Ok(Coordinates { latitude: 12, longitude: 34 }));
}

#[test]
fn coordinates_are_refused() {
    assert_eq!(coordinates(""), Err(RoverError::TokenCount { got: 0 }));
    assert_eq!(coordinates("5"), Err(RoverError::TokenCount { got: 1 }));
    assert_eq!(coordinates("5 5 N"), Err(RoverError::TokenCount { got: 3 }));
    assert_eq!(coordinates("1 2 3 4 5"), Err(RoverError::TokenCount { got: 5 }));
    assert_eq!(
        coordinates("five 5"),
        Err(RoverError::InvalidInt { which: "latitude", value: "five".to_string() })
    );
    assert_eq!(
        coordinates("5 +"),
        Err(RoverError::InvalidInt { which: "longitude", value: "+".to_string() })
    );
    assert_eq!(
        coordinates("-0 x"),
        Err(RoverError::InvalidInt { which: "latitude", value: "-0".to_string() })
    );
    assert_eq!(
        coordinates("1 99999999999999999999999999"),
        Err(RoverError::InvalidInt {
            which: "longitude",
            value: "99999999999999999999999999".to_string()
        })
    );
}

#[test]
fn direction_letters() {
    assert_eq!(Direction::try_from('N'), Ok(Direction::North));
    assert_eq!(Direction::try_from('S'), Ok(Direction::South));
    assert_eq!(Direction::try_from('E'), Ok(Direction::East));
    assert_eq!(Direction::try_from('W'), Ok(Direction::West));
    for c in ['n', 'M', 'L', ' ', '0', '\u{0}', '\u{10ffff}'] {
        assert_eq!(Direction::try_from(c), Err(RoverError::DirectionError { received: c }));
    }
}

#[test]
fn direction_letter_round_trip() {
    for d in [Direction::North, Direction::South, Direction::East, Direction::West] {
        let letter = String::from(d);
        assert_eq!(letter.chars().count(), 1);
        assert_eq!(Direction::try_from(letter.chars().next().unwrap()), Ok(d));
    }
    assert_eq!(String::from(Direction::North), "N");
    assert_eq!(String::from(Direction::South), "S");
    assert_eq!(String::from(Direction::East), "E");
    assert_eq!(String::from(Direction::West), "W");
}

#[test]
fn instruction_letters() {
    assert_eq!(Instruction::try_from('L'), Ok(Instruction::Pivot(Spin::Left)));
    assert_eq!(Instruction::try_from('R'), Ok(Instruction::Pivot(Spin::Right)));
    assert_eq!(Instruction::try_from('M'), Ok(Instruction::Forward));
    for c in ['l', 'r', 'm', 'N', 'X', ' ', '\n'] {
        assert_eq!(Instruction::try_from(c), Err(RoverError::InstructionError { received: c }));
    }
}

#[test]
fn position_text() {
    let p = RoverPosition::new(Coordinates { latitude: 1, longitude: 3 }, Direction::North);
    assert_eq!(p.to_text(), "1 3 N");
    let p = RoverPosition::new(Coordinates { latitude: 0, longitude: 65535 }, Direction::West);
    assert_eq!(p.to_text(), "0 65535 W");
    let p = RoverPosition::new(Coordinates { latitude: 1200, longitude: 10 }, Direction::East);
    assert_eq!(p.to_text(), "1200 10 E");
}

#[test]
fn position_text_reads_back() {
    for latitude in [0u16, 1, 9, 10, 99, 100, 4321, 65535] {
        for longitude in [0u16, 7, 10, 101, 9999, 10000, 65534, 65535] {
            for facing in [Direction::North, Direction::South, Direction::East, Direction::West] {
                let p = RoverPosition::new(Coordinates { latitude, longitude }, facing);
                assert_eq!(RoverPosition::try_from(p.to_text()), Ok(p));
            }
        }
    }
}
