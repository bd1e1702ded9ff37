//! Rooms and the exits that lead out of them.

use vstd::prelude::*;
use crate::direction::Direction;

verus! {

/// A one-way passage out of a room: the direction to walk in, and the index
/// of the room it leads to.
#[derive(Clone, Copy, Debug, PartialEq, Eq, Structural)]
pub struct Exit {
    pub direction: Direction,
    pub target: usize,
}

impl Exit {
    /// Whether this exit is the way out in `direction`.
    pub fn can_go(&self, direction: &Direction) -> (yes: bool)
        ensures
            yes == (self.direction == *direction),
    {
        self.direction == *direction
    }
}

/// A place in the world: some text to show, and the exits in the order in
/// which they are offered to the player.
#[derive(Debug)]
pub struct Room {
    pub description: String,
    pub exits: Vec<Exit>,
}

/// A room as contracts see it.
pub ghost struct RoomView {
    pub description: Seq<char>,
    pub exits: Seq<Exit>,
}

impl View for Room {
    type V = RoomView;

    open spec fn view(&self) -> RoomView {
        RoomView { description: self.description@, exits: self.exits@ }
    }
}

impl RoomView {
    /// The room has an exit in `direction`.
    pub open spec fn can_go(self, direction: Direction) -> bool {
        exists|i: int| 0 <= i < self.exits.len() && #[trigger] self.exits[i].direction == direction
    }

    /// Exit `i` is the first one in `direction`.
    pub open spec fn leaves_by(self, i: int, direction: Direction) -> bool {
        &&& 0 <= i < self.exits.len()
        &&& self.exits[i].direction == direction
        &&& forall|k: int| 0 <= k < i ==> #[trigger] self.exits[k].direction != direction
    }

    /// Where the first exit in `direction` leads, or `None` where the room has
    /// no such exit.
    pub open spec fn exit_to(self, direction: Direction) -> Option<usize> {
        if self.can_go(direction) {
            Some(self.exits[choose|i: int| self.leaves_by(i, direction)].target)
        } else {
            None
        }
    }

    /// The room has no way out: the game ends here.
    pub open spec fn is_escape(self) -> bool {
        self.exits.len() == 0
    }

    /// No two exits of the room share a direction.
    pub open spec fn distinct_exits(self) -> bool {
        forall|i: int, j: int|
            0 <= i < j < self.exits.len() ==> #[trigger] self.exits[i].direction
                != #[trigger] self.exits[j].direction
    }
}

/// At most one exit is the first in a given direction.
pub proof fn lemma_first_exit_unique(room: RoomView, i: int, j: int, direction: Direction)
    requires
        room.leaves_by(i, direction),
        room.leaves_by(j, direction),
    ensures
        i == j,
{
}

/// The first exit in a direction decides where `exit_to` leads.
pub proof fn lemma_exit_to_first(room: RoomView, i: int, direction: Direction)
    requires
        room.leaves_by(i, direction),
    ensures
        room.can_go(direction),
        room.exit_to(direction) == Some(room.exits[i].target),
{
    let j = choose|j: int| room.leaves_by(j, direction);
    lemma_first_exit_unique(room, i, j, direction);
}

impl Room {
    /// Whether the room has an exit in `direction`.
    pub fn can_go(&self, direction: Direction) -> (yes: bool)
        ensures
            yes == self@.can_go(direction),
    {
        let mut i: usize = 0;
        while i < self.exits.len()
            invariant
                i <= self.exits.len(),
                forall|k: int| 0 <= k < i ==> #[trigger] self.exits@[k].direction != direction,
            decreases self.exits.len() - i,
        {
            if self.exits[i].can_go(&direction) {
                return true;
            }
            i += 1;
        }
        false
    }

    /// The room that the exit in `direction` leads to. Where several exits
    /// share the direction the first one counts; where none has it the answer
    /// is `None`.
    pub fn exit_to(&self, direction: Direction) -> (found: Option<usize>)
        ensures
            found == self@.exit_to(direction),
            found is Some <==> self@.can_go(direction),
            found matches Some(target) ==> exists|i: int|
                self@.leaves_by(i, direction) && self@.exits[i].target == target,
    {
        let mut i: usize = 0;
        while i < self.exits.len()
            invariant
                i <= self.exits.len(),
                forall|k: int| 0 <= k < i ==> #[trigger] self.exits@[k].direction != direction,
            decreases self.exits.len() - i,
        {
            if self.exits[i].direction == direction {
                proof {
                    assert(self@.leaves_by(i as int, direction));
                    lemma_exit_to_first(self@, i as int, direction);
                }
                return Some(self.exits[i].target);
            }
            i += 1;
        }
        None
    }

    /// Whether the room is a way out of the game: it has no exits at all.
    pub fn is_escape(&self) -> (yes: bool)
        ensures
            yes == self@.is_escape(),
    {
        self.exits.len() == 0
    }
}

} // verus!
