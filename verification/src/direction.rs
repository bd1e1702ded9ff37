//! Compass directions and the commands a player can give.

use vstd::prelude::*;

verus! {

/// The line that offers the way north.
pub const GO_NORTH: &'static str = "* Go (n)orth";

/// The line that offers the way east.
pub const GO_EAST: &'static str = "* Go (e)ast";

/// The line that offers the way south.
pub const GO_SOUTH: &'static str = "* Go (s)outh";

/// The line that offers the way west.
pub const GO_WEST: &'static str = "* Go (w)est";

/// One of the four ways out of a room.
#[derive(Clone, Copy, Debug, PartialEq, Eq, Structural)]
pub enum Direction {
    North,
    East,
    South,
    West,
}

/// What a player asks for on one line of input.
#[derive(Clone, Copy, Debug, PartialEq, Eq, Structural)]
pub enum Command {
    /// Leave the room by the exit in this direction.
    Go(Direction),
}

impl Direction {
    /// The direction that a single typed letter stands for, if any.
    /// Letters are matched as typed: upper case stands for nothing.
    pub open spec fn of_letter(c: char) -> Option<Direction> {
        if c == 'n' {
            Some(Direction::North)
        } else if c == 'e' {
            Some(Direction::East)
        } else if c == 's' {
            Some(Direction::South)
        } else if c == 'w' {
            Some(Direction::West)
        } else {
            None
        }
    }

    /// The direction that a whole token stands for: the token must be exactly
    /// one letter long.
    pub open spec fn of_token(token: Seq<char>) -> Option<Direction> {
        if token.len() == 1 {
            Self::of_letter(token[0])
        } else {
            None
        }
    }

    /// The line that offers this direction to the player. The letter in
    /// brackets is the one that `parse` reads.
    pub fn label(self) -> (text: &'static str)
        ensures
            text == match self {
                Direction::North => GO_NORTH,
                Direction::East => GO_EAST,
                Direction::South => GO_SOUTH,
                Direction::West => GO_WEST,
            },
    {
        match self {
            Direction::North => GO_NORTH,
            Direction::East => GO_EAST,
            Direction::South => GO_SOUTH,
            Direction::West => GO_WEST,
        }
    }

    /// Reads a token, already stripped of surrounding whitespace, as a
    /// direction: `"n"`, `"e"`, `"s"` or `"w"`.
    pub fn parse(token: &str) -> (found: Option<Direction>)
        ensures
            found == Self::of_token(token@),
    {
        if token.unicode_len() != 1 {
            return None;
        }
        let c = token.get_char(0);
        if c == 'n' {
            Some(Direction::North)
        } else if c == 'e' {
            Some(Direction::East)
        } else if c == 's' {
            Some(Direction::South)
        } else if c == 'w' {
            Some(Direction::West)
        } else {
            None
        }
    }
}

} // verus!
