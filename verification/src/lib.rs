//! A small text adventure: a fixed graph of rooms joined by compass exits,
//! and the rules by which a typed line moves the player from room to room.
//!
//! The crate holds no input or output. A front end shows a room, reads a line
//! and hands it to the library; the answer says where the player stands next.

pub mod direction;
pub mod room;
pub mod game;
pub mod world;
pub mod story;
