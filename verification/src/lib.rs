//! Actor-style chat rooms. A directory creates rooms and routes commands to
//! them; each room owns a bounded message log and the reactions recorded
//! against it; each client talks to the directory through a menu-driven
//! session. Every actor is stated here as a verified step function from its
//! state and the next thing that reaches it to its new state and what is to
//! be done; the threads, channels and sockets around them are the caller's.
//!
//! - `chat_room`: one room, its log and its laws.
//! - `chat_room_manager`: the directory and its registry.
//! - `chat_server`: directory and rooms together, and the laws of the whole.
//! - `client`: one client's session, and the users' identifiers.
//! - `text`: numbers in decimal, and lines without the white space around.
//! - `server`: the plain messages, users and rooms of a single-threaded chat.
//! - `container_with_most_water`: a walk over a row of heights.

pub mod chat_room;
pub mod chat_room_manager;
pub mod chat_server;
pub mod client;
pub mod container_with_most_water;
pub mod server;
pub mod text;
