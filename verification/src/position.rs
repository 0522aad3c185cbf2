//! Places and headings on the grid, and how they are read from and written
//! to text.

use crate::error::{outcome, RoverError, RoverErrorView};
use crate::text::{
    decimal_digits, decimal_u16, find_tokens, read_u16, to_chars, tokens, write_u16, Span,
};
use vstd::prelude::*;
use vstd::slice::slice_subrange;
use vstd::std_specs::convert::{FromSpecImpl, TryFromSpecImpl};

verus! {

/// A place on the grid. Both coordinates count from the bottom-left corner,
/// which is `0 0`.
#[derive(Copy, Clone, Debug, PartialEq, Eq, Structural)]
pub struct Coordinates {
    pub latitude: u16,
    pub longitude: u16,
}

/// A compass heading.
#[derive(Copy, Clone, Debug, PartialEq, Eq, Structural)]
pub enum Direction {
    North,
    South,
    East,
    West,
}

/// Where a rover stands and where it looks.
#[derive(Copy, Clone, Debug, PartialEq, Eq, Structural)]
pub struct RoverPosition {
    pub current_location: Coordinates,
    pub facing: Direction,
}

impl Coordinates {
    /// Whether this place lies on the grid whose top-right corner is `top_right`.
    pub open spec fn within(self, top_right: Coordinates) -> bool {
        self.latitude <= top_right.latitude && self.longitude <= top_right.longitude
    }
}

impl Direction {
    /// The letter that stands for the heading.
    pub open spec fn code(self) -> char {
        match self {
            Direction::North => 'N',
            Direction::South => 'S',
            Direction::East => 'E',
            Direction::West => 'W',
        }
    }
}

impl RoverPosition {
    /// A rover at `current_location` that looks towards `facing`.
    pub fn new(current_location: Coordinates, facing: Direction) -> (position: RoverPosition)
        ensures
            position == (RoverPosition { current_location, facing }),
    {
        RoverPosition { current_location, facing }
    }

    /// The position as it is reported: latitude, longitude and heading letter,
    /// separated by single spaces.
    pub open spec fn text(self) -> Seq<char> {
        decimal_digits(self.current_location.latitude as nat) + seq![' '] + decimal_digits(
            self.current_location.longitude as nat,
        ) + seq![' ', self.facing.code()]
    }

    /// Writes the position out as text.
    pub fn to_text(&self) -> (line: String)
        ensures
            line@ == self.text(),
    {
        let mut line = String::new();
        write_u16(&mut line, self.current_location.latitude);
        proof {
            reveal_strlit(" ");
        }
        line.append(" ");
        write_u16(&mut line, self.current_location.longitude);
        line.append(" ");
        let letter: String = String::from(self.facing);
        line.append(letter.as_str());
        assert(line@ =~= self.text());
        line
    }
}

/// The heading that the letter `c` stands for.
pub open spec fn parse_direction(c: char) -> Result<Direction, RoverErrorView> {
    if c == 'N' {
        Ok(Direction::North)
    } else if c == 'S' {
        Ok(Direction::South)
    } else if c == 'E' {
        Ok(Direction::East)
    } else if c == 'W' {
        Ok(Direction::West)
    } else {
        Err(RoverErrorView::DirectionError { received: c })
    }
}

/// The grid corner written as `s`: exactly two tokens, latitude then
/// longitude, each a 16-bit decimal number. The first thing found wrong, in
/// that order, decides the error.
pub open spec fn parse_coordinates(s: Seq<char>) -> Result<Coordinates, RoverErrorView> {
    let t = tokens(s);
    if t.len() != 2 {
        Err(RoverErrorView::TokenCount { got: t.len() })
    } else if decimal_u16(t[0]) is None {
        Err(RoverErrorView::InvalidInt { which: "latitude"@, value: t[0] })
    } else if decimal_u16(t[1]) is None {
        Err(RoverErrorView::InvalidInt { which: "longitude"@, value: t[1] })
    } else {
        Ok(Coordinates { latitude: decimal_u16(t[0])->0, longitude: decimal_u16(t[1])->0 })
    }
}

/// The start position written as `s`: exactly three tokens, latitude,
/// longitude and a one-letter heading. The first thing found wrong, in that
/// order, decides the error.
pub open spec fn parse_position(s: Seq<char>) -> Result<RoverPosition, RoverErrorView> {
    let t = tokens(s);
    if t.len() != 3 {
        Err(RoverErrorView::TokenCount { got: t.len() })
    } else if decimal_u16(t[0]) is None {
        Err(RoverErrorView::InvalidInt { which: "latitude"@, value: t[0] })
    } else if decimal_u16(t[1]) is None {
        Err(RoverErrorView::InvalidInt { which: "longitude"@, value: t[1] })
    } else if t[2].len() != 1 {
        Err(RoverErrorView::DirectionLen { value: t[2] })
    } else {
        match parse_direction(t[2][0]) {
            Err(e) => Err(e),
            Ok(facing) => Ok(
                RoverPosition {
                    current_location: Coordinates {
                        latitude: decimal_u16(t[0])->0,
                        longitude: decimal_u16(t[1])->0,
                    },
                    facing,
                },
            ),
        }
    }
}

impl From<Direction> for String {
    /// The heading as its one-letter text.
    fn from(val: Direction) -> (letter: String)
        ensures
            letter@ == seq![val.code()],
    {
        proof {
            reveal_strlit("N");
            reveal_strlit("S");
            reveal_strlit("W");
            reveal_strlit("E");
        }
        let letter = match val {
            Direction::North => "N".to_owned(),
            Direction::South => "S".to_owned(),
            Direction::West => "W".to_owned(),
            Direction::East => "E".to_owned(),
        };
        assert(letter@ =~= seq![val.code()]);
        letter
    }
}

/// No specification function can build a text, so `from` obeys none: its own
/// contract gives the characters of the result.
impl FromSpecImpl<Direction> for String {
    open spec fn obeys_from_spec() -> bool {
        false
    }

    open spec fn from_spec(v: Direction) -> String {
        arbitrary()
    }
}

impl TryFrom<char> for Direction {
    type Error = RoverError;

    /// Reads a heading from its letter.
    fn try_from(value: char) -> (r: Result<Direction, RoverError>)
        ensures
            outcome(r) == parse_direction(value),
    {
        match value {
            'N' => Ok(Direction::North),
            'S' => Ok(Direction::South),
            'E' => Ok(Direction::East),
            'W' => Ok(Direction::West),
            other => Err(RoverError::DirectionError { received: other }),
        }
    }
}

impl TryFromSpecImpl<char> for Direction {
    open spec fn obeys_try_from_spec() -> bool {
        true
    }

    open spec fn try_from_spec(v: char) -> Result<Self, RoverError> {
        match parse_direction(v) {
            Ok(d) => Ok(d),
            Err(_) => Err(RoverError::DirectionError { received: v }),
        }
    }
}

/// Reads the token that `span` selects as the coordinate named `which`.
fn read_coordinate(line: &str, chars: &[char], span: Span, which: &'static str) -> (r: Result<
    u16,
    RoverError,
>)
    requires
        chars@ == line@,
        span.within(line@.len()),
    ensures
        match r {
            Ok(n) => decimal_u16(span.of(line@)) == Some(n),
            Err(e) => decimal_u16(span.of(line@)) is None && e@ == (RoverErrorView::InvalidInt {
                which: which@,
                value: span.of(line@),
            }),
        },
{
    match read_u16(slice_subrange(chars, span.start, span.end)) {
        Some(n) => Ok(n),
        None => Err(RoverError::InvalidInt { which, value: span.copy_of(line) }),
    }
}

impl TryFrom<String> for Coordinates {
    type Error = RoverError;

    /// Reads a grid corner: `<lat> <lon>`, e.g. "5 5".
    fn try_from(value: String) -> (r: Result<Coordinates, RoverError>)
        ensures
            outcome(r) == parse_coordinates(value@),
    {
        let line = value.as_str();
        let chars = to_chars(line);
        let spans = find_tokens(chars.as_slice());
        if spans.len() != 2 {
            return Err(RoverError::TokenCount { got: spans.len() });
        }
        let latitude = read_coordinate(line, chars.as_slice(), spans[0], "latitude")?;
        let longitude = read_coordinate(line, chars.as_slice(), spans[1], "longitude")?;
        Ok(Coordinates { latitude, longitude })
    }
}

/// An error may own a text, which no specification function can build, so
/// `try_from` obeys none: its own contract gives the outcome by its view.
impl TryFromSpecImpl<String> for Coordinates {
    open spec fn obeys_try_from_spec() -> bool {
        false
    }

    open spec fn try_from_spec(v: String) -> Result<Self, RoverError> {
        arbitrary()
    }
}

impl TryFrom<String> for RoverPosition {
    type Error = RoverError;

    /// Reads a start position: `<lat> <lon> <dir>`, e.g. "0 1 N".
    fn try_from(s: String) -> (r: Result<RoverPosition, RoverError>)
        ensures
            outcome(r) == parse_position(s@),
    {
        let line = s.as_str();
        let chars = to_chars(line);
        let spans = find_tokens(chars.as_slice());
        if spans.len() != 3 {
            return Err(RoverError::TokenCount { got: spans.len() });
        }
        let latitude = read_coordinate(line, chars.as_slice(), spans[0], "latitude")?;
        let longitude = read_coordinate(line, chars.as_slice(), spans[1], "longitude")?;
        let heading = spans[2];
        if heading.end - heading.start != 1 {
            return Err(RoverError::DirectionLen { value: heading.copy_of(line) });
        }
        let facing = Direction::try_from(chars[heading.start])?;
        Ok(RoverPosition { current_location: Coordinates { latitude, longitude }, facing })
    }
}

/// As for [`Coordinates`]: the contract of `try_from` gives the outcome by
/// its view.
impl TryFromSpecImpl<String> for RoverPosition {
    open spec fn obeys_try_from_spec() -> bool {
        false
    }

    open spec fn try_from_spec(v: String) -> Result<Self, RoverError> {
        arbitrary()
    }
}

} // verus!
