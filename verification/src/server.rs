//! The plain values of a single-threaded chat: messages with the reactions
//! to them, users, and rooms that hold both.

pub mod message;
pub mod rooms;
pub mod users;
