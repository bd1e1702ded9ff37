//! One visit to a room: from the line a player typed to the room they stand
//! in next.

use vstd::prelude::*;
use crate::direction::{Command, Direction};
use crate::room::{lemma_exit_to_first, Room, RoomView};
use crate::world::{sound, World};

verus! {

/// A line of input without the whitespace around it.
pub uninterp spec fn trimmed(line: Seq<char>) -> Seq<char>;

/// Calls `str::trim`, which returns the slice of `line` left after removing
/// leading and trailing Unicode whitespace. Nothing is proved of it: the
/// contract only gives the result its name, `trimmed`.
#[verifier::external_body]
fn trim(line: &str) -> (token: &str)
    ensures
        token@ == trimmed(line@),
{
    line.trim()
}

impl RoomView {
    /// The command that a token gives in this room: the token must name a
    /// direction, and the room must have an exit that way.
    pub open spec fn command(self, token: Seq<char>) -> Option<Command> {
        match Direction::of_token(token) {
            Some(direction) => if self.can_go(direction) {
                Some(Command::Go(direction))
            } else {
                None
            },
            None => None,
        }
    }

    /// The room that a command leads to.
    pub open spec fn perform(self, command: Command) -> Option<usize> {
        match command {
            Command::Go(direction) => self.exit_to(direction),
        }
    }

    /// The room that a token leads to, or `None` where it gives no command
    /// here.
    pub open spec fn respond(self, token: Seq<char>) -> Option<usize> {
        match self.command(token) {
            Some(command) => self.perform(command),
            None => None,
        }
    }
}

impl Room {
    /// Reads a token, already stripped of surrounding whitespace, as a command
    /// for this room. A token that names no direction, or a direction in which
    /// the room has no exit, gives `None`.
    pub fn command(&self, token: &str) -> (given: Option<Command>)
        ensures
            given == self@.command(token@),
    {
        match Direction::parse(token) {
            Some(direction) => {
                if self.can_go(direction) {
                    Some(Command::Go(direction))
                } else {
                    None
                }
            },
            None => None,
        }
    }

    /// Carries out a command: the index of the room it leads to.
    pub fn perform(&self, command: Command) -> (next: Option<usize>)
        ensures
            next == self@.perform(command),
    {
        match command {
            Command::Go(direction) => self.exit_to(direction),
        }
    }

    /// Answers a token, already stripped of surrounding whitespace: the room
    /// it leads to, or `None` where the player has to be asked again.
    pub fn respond(&self, token: &str) -> (next: Option<usize>)
        ensures
            next == self@.respond(token@),
    {
        match self.command(token) {
            Some(command) => self.perform(command),
            None => None,
        }
    }
}

/// Answers one line typed in `room`. The line is stripped of surrounding
/// whitespace and read as a command. `Some` holds the index of the room the
/// player moves to; `None` means the line was no valid command and the player
/// stays.
pub fn enter(room: &Room, line: &str) -> (next: Option<usize>)
    ensures
        next == room@.respond(trimmed(line@)),
{
    room.respond(trim(line))
}

/// Where the player stands after typing `token` in room `at`: in the room the
/// token leads to, or still in `at` where it leads nowhere.
pub open spec fn step(rooms: Seq<RoomView>, at: int, token: Seq<char>) -> int {
    match rooms[at].respond(token) {
        Some(next) => next as int,
        None => at,
    }
}

/// How a game goes on from room `at` with the lines from index `from` on: the
/// room in which it stops and the number of lines read by then. It stops in a
/// room without exits, reading no further line, or when the lines run out.
pub open spec fn play(rooms: Seq<RoomView>, at: int, lines: Seq<&str>, from: nat) -> (int, nat)
    decreases lines.len() - from,
{
    if from >= lines.len() || rooms[at].is_escape() {
        (at, from)
    } else {
        play(rooms, step(rooms, at, trimmed(lines[from as int]@)), lines, from + 1)
    }
}

/// Where a scripted game stopped.
#[derive(Clone, Copy, Debug, PartialEq, Eq, Structural)]
pub struct Played {
    /// The room the player stands in at the end.
    pub room: usize,
    /// How many lines of the script were read.
    pub read: usize,
}

impl World {
    /// Answers one line typed in room `at` and returns the room the player
    /// stands in afterwards. A line that is no valid command there leaves the
    /// player in `at`.
    pub fn step(&self, at: usize, line: &str) -> (next: usize)
        requires
            at < self@.len(),
        ensures
            next == step(self@, at as int, trimmed(line@)),
            next < self@.len(),
    {
        let room = self.room(at);
        proof {
            lemma_step_stays_inside(self@, at as int, trimmed(line@));
        }
        match enter(room, line) {
            Some(next) => next,
            None => at,
        }
    }

    /// Plays a script from the start room: each line is answered in turn
    /// until the player stands in a room without exits or the script ends.
    pub fn run(&self, lines: &[&str]) -> (end: Played)
        ensures
            (end.room as int, end.read as nat) == play(self@, 0, lines@, 0),
            end.room < self@.len(),
            end.read <= lines@.len(),
    {
        let mut at: usize = self.start();
        let mut read: usize = 0;
        while read < lines.len() && !self.room(at).is_escape()
            invariant
                at < self@.len(),
                read <= lines@.len(),
                play(self@, at as int, lines@, read as nat) == play(self@, 0, lines@, 0),
            decreases lines@.len() - read,
        {
            at = self.step(at, lines[read]);
            read += 1;
        }
        Played { room: at, read }
    }
}

/// In a sound world every move ends in a room of the world.
pub proof fn lemma_step_stays_inside(rooms: Seq<RoomView>, at: int, token: Seq<char>)
    requires
        sound(rooms),
        0 <= at < rooms.len(),
    ensures
        0 <= step(rooms, at, token) < rooms.len(),
{
    if rooms[at].respond(token) is Some {
        let direction = Direction::of_token(token).unwrap();
        lemma_exit_leads_inside(rooms, at, direction);
    }
}

/// In a sound world an exit that can be taken leads to a room of the world,
/// and it is the only exit of its room in that direction.
pub proof fn lemma_exit_leads_inside(rooms: Seq<RoomView>, at: int, direction: Direction)
    requires
        sound(rooms),
        0 <= at < rooms.len(),
        rooms[at].can_go(direction),
    ensures
        rooms[at].exit_to(direction) is Some,
        rooms[at].exit_to(direction).unwrap() < rooms.len(),
        forall|i: int|
            0 <= i < rooms[at].exits.len() && #[trigger] rooms[at].exits[i].direction == direction
                ==> rooms[at].exit_to(direction) == Some(rooms[at].exits[i].target),
{
    let room = rooms[at];
    assert(room.distinct_exits());
    let first = choose|i: int| 0 <= i < room.exits.len() && room.exits[i].direction == direction;
    assert(room.leaves_by(first, direction));
    lemma_exit_to_first(room, first, direction);
    assert forall|i: int|
        0 <= i < room.exits.len() && #[trigger] room.exits[i].direction == direction implies i
        == first by {
        if i < first {
            assert(room.exits[i].direction != room.exits[first].direction);
        } else if first < i {
            assert(room.exits[first].direction != room.exits[i].direction);
        }
    }
}

/// A token that names no direction, or a direction in which the room has no
/// exit, is answered with `None` and leaves the player where they stand.
pub proof fn lemma_refused_token_stays(rooms: Seq<RoomView>, at: int, token: Seq<char>)
    requires
        Direction::of_token(token) is None || !rooms[at].can_go(
            Direction::of_token(token).unwrap(),
        ),
    ensures
        rooms[at].respond(token) is None,
        step(rooms, at, token) == at,
{
}

/// A token is answered with a move exactly when it names a direction in which
/// the room has an exit, and the move goes where that exit leads.
pub proof fn lemma_respond(room: RoomView, token: Seq<char>)
    ensures
        room.respond(token) is Some <==> Direction::of_token(token) is Some && room.can_go(
            Direction::of_token(token).unwrap(),
        ),
        room.respond(token) is Some ==> room.respond(token) == room.exit_to(
            Direction::of_token(token).unwrap(),
        ),
{
}

} // verus!
