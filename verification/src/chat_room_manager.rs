//! The directory actor: the owner of the registry of rooms. It takes one
//! command at a time and decides what is to be done: start a room, hand a
//! command on to a room, announce an entry, or answer that a room is missing.
//! The rooms are numbered in the order of their creation, and the registry
//! maps each name to its room's number.

use crate::chat_room::RoomMessage;
use crate::text::decimal;
use crate::text::decimal_string;
use vstd::hash_map::StringHashMap;
use vstd::prelude::*;
use vstd::string::*;

verus! {

/// A command in the directory's inbox.
#[derive(Debug, Clone, PartialEq, Eq)]
pub enum ManagerMessage<R> {
    EnterRoom { user_id: usize, room_name: String },
    CreateRoom { room_name: String },
    RouteToRoom { room_name: String, message: RoomMessage<R> },
}

/// What the directory has decided on one command, for the loop around it to
/// carry out.
#[derive(Debug, Clone, PartialEq, Eq)]
pub enum ManagerAction<R> {
    /// Make it known that the user has entered the room.
    Announce { user_id: usize, room_name: String },
    /// Start the actor of a new room, which has this number.
    Spawn { room: usize },
    /// Put the command in the inbox of the room with this number.
    Forward { room: usize, message: RoomMessage<R> },
    /// Answer on this sink that there is no such room.
    RoomNotFound { sender: R },
    /// Nothing is to be done.
    Nothing,
}

/// What travels back on a reply sink: the rendered log of the room that was
/// asked, or the word that there is no such room.
#[derive(Debug, Clone, PartialEq, Eq)]
pub enum Reply {
    Messages(Vec<String>),
    RoomNotFound,
}

/// A registry as it must always be: finitely many names, the rooms numbered
/// from zero without a gap, no two names for one room.
pub open spec fn valid_registry(registry: Map<Seq<char>, usize>) -> bool {
    &&& registry.dom().finite()
    &&& forall|name: Seq<char>| #[trigger]
        registry.contains_key(name) ==> registry[name] < registry.len()
    &&& forall|a: Seq<char>, b: Seq<char>|
        registry.contains_key(a) && registry.contains_key(b) && #[trigger] registry[a]
            == #[trigger] registry[b] ==> a == b
}

/// The registry after one command: a new name is entered under the next
/// free number; nothing else changes it.
pub open spec fn registry_step<R>(
    registry: Map<Seq<char>, usize>,
    message: ManagerMessage<R>,
) -> Map<Seq<char>, usize> {
    match message {
        ManagerMessage::CreateRoom { room_name } => if registry.contains_key(room_name@) {
            registry
        } else {
            registry.insert(room_name@, registry.len() as usize)
        },
        _ => registry,
    }
}

/// What is to be done on one command.
pub open spec fn registry_action<R>(
    registry: Map<Seq<char>, usize>,
    message: ManagerMessage<R>,
) -> ManagerAction<R> {
    match message {
        ManagerMessage::EnterRoom { user_id, room_name } => ManagerAction::Announce {
            user_id,
            room_name,
        },
        ManagerMessage::CreateRoom { room_name } => if registry.contains_key(room_name@) {
            ManagerAction::Nothing
        } else {
            ManagerAction::Spawn { room: registry.len() as usize }
        },
        ManagerMessage::RouteToRoom { room_name, message } => if registry.contains_key(
            room_name@,
        ) {
            ManagerAction::Forward { room: registry[room_name@], message }
        } else {
            match message {
                RoomMessage::ShowRecentMessages { sender } => ManagerAction::RoomNotFound {
                    sender,
                },
                _ => ManagerAction::Nothing,
            }
        },
    }
}

/// The notice of an entry.
pub open spec fn entry_notice(user_id: usize, room_name: Seq<char>) -> Seq<char> {
    "User "@ + decimal(user_id as nat) + " entered room '"@ + room_name + "'."@
}

/// Writes the notice of an entry.
pub fn render_entry_notice(user_id: usize, room_name: &str) -> (notice: String)
    ensures
        notice@ == entry_notice(user_id, room_name@),
{
    let mut notice = String::from_str("User ");
    notice.append(decimal_string(user_id).as_str());
    notice.append(" entered room '");
    notice.append(room_name);
    notice.append("'.");
    notice
}

/// The directory: the registry of the rooms that were created.
pub struct ChatRoomManager {
    rooms: StringHashMap<usize>,
}

impl View for ChatRoomManager {
    type V = Map<Seq<char>, usize>;

    closed spec fn view(&self) -> Map<Seq<char>, usize> {
        self.rooms@
    }
}

impl ChatRoomManager {
    #[verifier::type_invariant]
    spec fn registry_is_valid(self) -> bool {
        valid_registry(self.rooms@)
    }

    /// A directory without rooms.
    pub fn new() -> (manager: Self)
        ensures
            manager@ == Map::<Seq<char>, usize>::empty(),
            valid_registry(manager@),
    {
        ChatRoomManager { rooms: StringHashMap::new() }
    }

    /// The number of rooms.
    pub fn room_count(&self) -> (n: usize)
        ensures
            n == self@.len(),
            valid_registry(self@),
    {
        proof {
            use_type_invariant(self);
        }
        self.rooms.len()
    }

    /// The number of the room with this name, if there is one.
    pub fn lookup(&self, room_name: &str) -> (room: Option<usize>)
        ensures
            valid_registry(self@),
            match room {
                Some(n) => self@.contains_key(room_name@) && self@[room_name@] == n,
                None => !self@.contains_key(room_name@),
            },
    {
        proof {
            use_type_invariant(self);
        }
        match self.rooms.get(room_name) {
            Some(n) => Some(*n),
            None => None,
        }
    }

    /// Takes one command from the inbox. A room is created only under a name
    /// that has none; a command for a room goes on to it unchanged; where
    /// there is no such room, a read is answered so, and a write is dropped.
    pub fn handle<R>(&mut self, message: ManagerMessage<R>) -> (action: ManagerAction<R>)
        ensures
            final(self)@ == registry_step(old(self)@, message),
            action == registry_action(old(self)@, message),
            valid_registry(old(self)@),
            valid_registry(final(self)@),
    {
        proof {
            use_type_invariant(&*self);
        }
        match message {
            ManagerMessage::EnterRoom { user_id, room_name } => ManagerAction::Announce {
                user_id,
                room_name,
            },
            ManagerMessage::CreateRoom { room_name } => {
                if self.rooms.contains_key(room_name.as_str()) {
                    ManagerAction::Nothing
                } else {
                    // The registry is taken out while it changes and put
                    // back valid.
                    let mut rooms: StringHashMap<usize> = StringHashMap::new();
                    std::mem::swap(&mut self.rooms, &mut rooms);
                    let room = rooms.len();
                    let ghost name = room_name@;
                    rooms.insert(room_name, room);
                    proof {
                        lemma_registry_grows(old(self)@, name);
                    }
                    std::mem::swap(&mut self.rooms, &mut rooms);
                    ManagerAction::Spawn { room }
                }
            },
            ManagerMessage::RouteToRoom { room_name, message } => {
                match self.rooms.get(room_name.as_str()) {
                    Some(room) => ManagerAction::Forward { room: *room, message },
                    None => match message {
                        RoomMessage::ShowRecentMessages { sender } => ManagerAction::RoomNotFound {
                            sender,
                        },
                        _ => ManagerAction::Nothing,
                    },
                }
            },
        }
    }
}

/// A valid registry stays valid when a new name is entered under the next
/// free number, and then holds one room more.
pub proof fn lemma_registry_grows(registry: Map<Seq<char>, usize>, name: Seq<char>)
    requires
        valid_registry(registry),
        !registry.contains_key(name),
        registry.len() <= usize::MAX,
    ensures
        valid_registry(registry.insert(name, registry.len() as usize)),
        registry.insert(name, registry.len() as usize).len() == registry.len() + 1,
{
    let grown = registry.insert(name, registry.len() as usize);
    assert(grown.dom() =~= registry.dom().insert(name));
}

/// The second of two creations under one name starts no room and leaves the
/// registry as the first left it.
pub proof fn law_second_creation_does_nothing<R>(
    registry: Map<Seq<char>, usize>,
    room_name: String,
    again: String,
)
    requires
        room_name@ == again@,
    ensures
        ({
            let once = registry_step(registry, ManagerMessage::<R>::CreateRoom { room_name });
            let second = ManagerMessage::<R>::CreateRoom { room_name: again };
            &&& registry_step(once, second) == once
            &&& registry_action(once, second) == ManagerAction::<R>::Nothing
        }),
{
}

/// A command for a name that is not in the registry leaves the registry as
/// it is; a read is then answered on its own sink that there is no such
/// room, and a write is dropped.
pub proof fn law_routing_miss<R>(
    registry: Map<Seq<char>, usize>,
    room_name: String,
    message: RoomMessage<R>,
)
    requires
        !registry.contains_key(room_name@),
    ensures
        registry_step(registry, ManagerMessage::RouteToRoom { room_name, message }) == registry,
        registry_action(registry, ManagerMessage::RouteToRoom { room_name, message }) == (
        match message {
            RoomMessage::ShowRecentMessages { sender } => ManagerAction::RoomNotFound { sender },
            _ => ManagerAction::Nothing,
        }),
{
}

/// One command leaves a valid registry valid, and adds at most one room.
pub proof fn lemma_registry_grows_by_step<R>(
    registry: Map<Seq<char>, usize>,
    message: ManagerMessage<R>,
)
    requires
        valid_registry(registry),
        registry.len() <= usize::MAX,
    ensures
        valid_registry(registry_step(registry, message)),
        registry_step(registry, message).len() == registry.len() + (if registry_action(
            registry,
            message,
        ) is Spawn {
            1nat
        } else {
            0nat
        }),
{
    match message {
        ManagerMessage::CreateRoom { room_name } => {
            if !registry.contains_key(room_name@) {
                lemma_registry_grows(registry, room_name@);
            }
        },
        _ => {},
    }
}

} // verus!
