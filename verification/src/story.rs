//! The adventure that comes with the library: five rooms between a garage
//! and a phone booth.

use vstd::prelude::*;
use crate::direction::Direction;
use crate::room::{Exit, Room, RoomView};
use crate::world::{sound, views};

verus! {

/// What the player reads in the garage, where the game starts.
pub const GARAGE: &'static str =
    "You are a righteous member of the band WYLD RUSTACEANS standing in the garage where you practice. You are in danger of flunking most heinously if you don't find Rufus' time machine. Sean's House is to the south and the high school is to the east.";

/// What the player reads in front of the high school.
pub const HIGH_SCHOOL: &'static str =
    "You stand in front of the high school. Grades are posted in the window. Sean has a total score of 30%. He'll need to ace his history test to pass the class. There is a garage to the west and a Circle K to the south.";

/// What the player reads in Sean's house.
pub const SEANS_HOUSE: &'static str =
    "You walk into Sean's house. Sean's dad bellows: IF YOU FAIL THAT HISTORY CLASS, YOU'LL GO TO MILITARY SCHOOL. Bogus...";

/// What the player reads in front of the Circle K.
pub const CIRCLE_K: &'static str =
    "You stand in front of the Circle K. There is a school to the north and a phone booth to the south.";

/// What the player reads in the last room, which has no exits.
pub const DUNGEON_EXIT: &'static str = "Dungeon exit";

/// The five rooms and their exits.
pub open spec fn map() -> Seq<RoomView> {
    seq![
        RoomView {
            description: GARAGE@,
            exits: seq![
                Exit { direction: Direction::South, target: 2 },
                Exit { direction: Direction::East, target: 1 },
            ],
        },
        RoomView {
            description: HIGH_SCHOOL@,
            exits: seq![
                Exit { direction: Direction::West, target: 0 },
                Exit { direction: Direction::South, target: 3 },
            ],
        },
        RoomView {
            description: SEANS_HOUSE@,
            exits: seq![Exit { direction: Direction::North, target: 0 }],
        },
        RoomView {
            description: CIRCLE_K@,
            exits: seq![
                Exit { direction: Direction::North, target: 1 },
                Exit { direction: Direction::South, target: 4 },
            ],
        },
        RoomView { description: DUNGEON_EXIT@, exits: Seq::empty() },
    ]
}

/// Builds the five rooms.
pub fn rooms() -> (rooms: Vec<Room>)
    ensures
        views(rooms@) == map(),
{
    let rooms = vec![
        Room {
            description: GARAGE.to_owned(),
            exits: vec![
                Exit { direction: Direction::South, target: 2 },
                Exit { direction: Direction::East, target: 1 },
            ],
        },
        Room {
            description: HIGH_SCHOOL.to_owned(),
            exits: vec![
                Exit { direction: Direction::West, target: 0 },
                Exit { direction: Direction::South, target: 3 },
            ],
        },
        Room {
            description: SEANS_HOUSE.to_owned(),
            exits: vec![Exit { direction: Direction::North, target: 0 }],
        },
        Room {
            description: CIRCLE_K.to_owned(),
            exits: vec![
                Exit { direction: Direction::North, target: 1 },
                Exit { direction: Direction::South, target: 4 },
            ],
        },
        Room { description: DUNGEON_EXIT.to_owned(), exits: Vec::new() },
    ];
    assert forall|i: int| 0 <= i < 5 implies (#[trigger] rooms@[i])@ == map()[i] by {
        assert(rooms@[i].exits@ =~= map()[i].exits);
    }
    assert(views(rooms@) =~= map());
    rooms
}

/// The map can be played as it stands.
pub proof fn lemma_map_is_sound()
    ensures
        sound(map()),
{
}

} // verus!
