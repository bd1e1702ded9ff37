//! The world: every room of the game, checked once when it is built.

use vstd::prelude::*;
use crate::room::{Room, RoomView};
use crate::story;

verus! {

/// Why a list of rooms was refused as a world.
#[derive(Clone, Copy, Debug, PartialEq, Eq, Structural)]
pub enum WorldError {
    /// The list is empty: there is no room to start in.
    NoRooms,
    /// Exit `exit` of room `room` leads to an index that is no room.
    DanglingExit { room: usize, exit: usize },
    /// Exit `exit` of room `room` repeats the direction of an earlier exit of
    /// the same room.
    RepeatedDirection { room: usize, exit: usize },
}

/// The rooms of a list as contracts see them.
pub open spec fn views(rooms: Seq<Room>) -> Seq<RoomView> {
    Seq::new(rooms.len(), |i: int| rooms[i]@)
}

/// Room `i` exists and has an exit `j`.
pub open spec fn exit_at(rooms: Seq<RoomView>, i: int, j: int) -> bool {
    0 <= i < rooms.len() && 0 <= j < rooms[i].exits.len()
}

/// Exit `j` of room `i` leads out of the list.
pub open spec fn dangling(rooms: Seq<RoomView>, i: int, j: int) -> bool {
    rooms[i].exits[j].target >= rooms.len()
}

/// Exit `j` of room `i` has the direction of an earlier exit of that room.
pub open spec fn repeated(rooms: Seq<RoomView>, i: int, j: int) -> bool {
    exists|k: int|
        0 <= k < j && #[trigger] rooms[i].exits[k].direction == rooms[i].exits[j].direction
}

/// Exit `j` of room `i` is at fault, and no exit before it is: neither one of
/// an earlier room, nor an earlier one of room `i`.
pub open spec fn first_fault_at(rooms: Seq<RoomView>, i: int, j: int) -> bool {
    &&& exit_at(rooms, i, j)
    &&& dangling(rooms, i, j) || repeated(rooms, i, j)
    &&& forall|a: int, b: int|
        #![trigger rooms[a].exits[b]]
        exit_at(rooms, a, b) && (a < i || (a == i && b < j)) ==> !dangling(rooms, a, b)
            && !repeated(rooms, a, b)
}

/// A list of rooms that can be played: there is a room to start in, every
/// exit leads to a room of the list, and no room has two exits in one
/// direction.
pub open spec fn sound(rooms: Seq<RoomView>) -> bool {
    &&& rooms.len() > 0
    &&& forall|i: int, j: int|
        #![trigger rooms[i].exits[j]]
        exit_at(rooms, i, j) ==> rooms[i].exits[j].target < rooms.len()
    &&& forall|i: int| 0 <= i < rooms.len() ==> (#[trigger] rooms[i]).distinct_exits()
}

/// `error` is what is wrong with the list: it names the first exit at fault,
/// and of an exit that both dangles and repeats a direction it says that it
/// dangles.
pub open spec fn rejects(rooms: Seq<RoomView>, error: WorldError) -> bool {
    match error {
        WorldError::NoRooms => rooms.len() == 0,
        WorldError::DanglingExit { room, exit } => {
            first_fault_at(rooms, room as int, exit as int) && dangling(
                rooms,
                room as int,
                exit as int,
            )
        },
        WorldError::RepeatedDirection { room, exit } => {
            first_fault_at(rooms, room as int, exit as int) && !dangling(
                rooms,
                room as int,
                exit as int,
            )
        },
    }
}

/// Whether exit `j` of `room` has the direction of an earlier exit of it.
fn repeats(room: &Room, j: usize) -> (yes: bool)
    requires
        j < room.exits.len(),
    ensures
        yes == exists|k: int|
            0 <= k < j && #[trigger] room@.exits[k].direction == room@.exits[j as int].direction,
{
    let mut k: usize = 0;
    while k < j
        invariant
            k <= j < room.exits.len(),
            forall|c: int|
                0 <= c < k ==> #[trigger] room@.exits[c].direction != room@.exits[j as int].direction,
        decreases j - k,
    {
        if room.exits[k].direction == room.exits[j].direction {
            return true;
        }
        k += 1;
    }
    false
}

/// The rooms of a game. A value of this type is always sound: it can only be
/// made by `World::new`, which checks the list, or by `World::adventure`.
#[derive(Debug)]
pub struct World {
    rooms: Vec<Room>,
}

impl View for World {
    type V = Seq<RoomView>;

    closed spec fn view(&self) -> Seq<RoomView> {
        views(self.rooms@)
    }
}

impl World {
    #[verifier::type_invariant]
    spec fn inv(&self) -> bool {
        sound(views(self.rooms@))
    }

    /// Checks a list of rooms and makes a world of it. The list is refused
    /// where it is not sound, with the first fault found going through the
    /// rooms in order and through each room's exits in order.
    pub fn new(rooms: Vec<Room>) -> (made: Result<World, WorldError>)
        ensures
            made is Ok <==> sound(views(rooms@)),
            match made {
                Ok(world) => world@ == views(rooms@),
                Err(error) => rejects(views(rooms@), error),
            },
    {
        let ghost all = views(rooms@);
        let count = rooms.len();
        if count == 0 {
            return Err(WorldError::NoRooms);
        }
        let mut i: usize = 0;
        while i < count
            invariant
                i <= count,
                count == rooms.len(),
                all == views(rooms@),
                forall|a: int, b: int|
                    #![trigger all[a].exits[b]]
                    exit_at(all, a, b) && a < i ==> !dangling(all, a, b) && !repeated(all, a, b),
            decreases count - i,
        {
            let room = &rooms[i];
            let mut j: usize = 0;
            while j < room.exits.len()
                invariant
                    i < count,
                    count == rooms.len(),
                    all == views(rooms@),
                    room@ == all[i as int],
                    j <= room.exits.len(),
                    forall|a: int, b: int|
                        #![trigger all[a].exits[b]]
                        exit_at(all, a, b) && (a < i || (a == i && b < j)) ==> !dangling(all, a, b)
                            && !repeated(all, a, b),
                decreases room.exits.len() - j,
            {
                let exit = room.exits[j];
                if exit.target >= count {
                    return Err(WorldError::DanglingExit { room: i, exit: j });
                }
                if repeats(room, j) {
                    return Err(WorldError::RepeatedDirection { room: i, exit: j });
                }
                j += 1;
            }
            i += 1;
        }
        Ok(World { rooms })
    }

    /// The world of the adventure that comes with the library.
    pub fn adventure() -> (world: World)
        ensures
            world@ == story::map(),
    {
        let rooms = story::rooms();
        proof {
            story::lemma_map_is_sound();
        }
        World { rooms }
    }

    /// The room in which a game starts: the first one.
    pub fn start(&self) -> (at: usize)
        ensures
            at == 0,
            at < self@.len(),
    {
        proof {
            use_type_invariant(self);
        }
        0
    }

    /// The number of rooms, which is never zero.
    pub fn len(&self) -> (count: usize)
        ensures
            count == self@.len(),
            sound(self@),
    {
        proof {
            use_type_invariant(self);
        }
        self.rooms.len()
    }

    /// The room at index `at`.
    pub fn room(&self, at: usize) -> (room: &Room)
        requires
            at < self@.len(),
        ensures
            room@ == self@[at as int],
            sound(self@),
    {
        proof {
            use_type_invariant(self);
        }
        &self.rooms[at]
    }
}

/// A list of rooms is refused for one reason only.
pub proof fn lemma_one_error(rooms: Seq<RoomView>, first: WorldError, second: WorldError)
    requires
        rejects(rooms, first),
        rejects(rooms, second),
    ensures
        first == second,
{
}

/// A list of rooms that is refused is not sound.
pub proof fn lemma_rejected_is_unsound(rooms: Seq<RoomView>, error: WorldError)
    requires
        rejects(rooms, error),
    ensures
        !sound(rooms),
{
}

} // verus!
