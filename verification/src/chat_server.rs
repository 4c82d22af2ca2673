//! The directory and its rooms in one place, each command carried out to its
//! end before the next is taken. This is what the actors compute when their
//! inboxes are read in one fixed order; the laws of the whole are stated here.

use crate::chat_room::law_full_log_holds_last_sent;
use crate::chat_room::sent;
use crate::chat_room::snapshot;
use crate::chat_room::ChatRoom;
use crate::chat_room::RoomMessage;
use crate::chat_room::RoomState;
use crate::chat_room::LOG_CAPACITY;
use crate::chat_room_manager::valid_registry;
use crate::chat_room_manager::ChatRoomManager;
use crate::chat_room_manager::ManagerAction;
use crate::chat_room_manager::ManagerMessage;
use crate::chat_room_manager::Reply;
use crate::text::texts;
use vstd::prelude::*;

verus! {

/// What one command brings forth, for the caller to deliver.
#[derive(Debug, Clone, PartialEq, Eq)]
pub enum ServerOutput<R> {
    /// Make it known that the user has entered the room.
    Announce { user_id: usize, room_name: String },
    /// Send this reply on this sink.
    Answer { sender: R, reply: Reply },
    /// Nothing is to be delivered.
    Nothing,
}

/// An output as mathematics.
pub enum Outcome<R> {
    Announce { user_id: usize, room_name: Seq<char> },
    Messages { sender: R, lines: Seq<Seq<char>> },
    RoomNotFound { sender: R },
    Nothing,
}

impl<R> View for ServerOutput<R> {
    type V = Outcome<R>;

    open spec fn view(&self) -> Outcome<R> {
        match *self {
            ServerOutput::Announce { user_id, room_name } => Outcome::Announce {
                user_id,
                room_name: room_name@,
            },
            ServerOutput::Answer { sender, reply: Reply::Messages(lines) } => Outcome::Messages {
                sender,
                lines: texts(lines@),
            },
            ServerOutput::Answer { sender, reply: Reply::RoomNotFound } => Outcome::RoomNotFound {
                sender,
            },
            ServerOutput::Nothing => Outcome::Nothing,
        }
    }
}

/// The rooms after one command. A room is created empty, and only under a
/// name that has none; a command for a room changes that room and no other;
/// a command for a room that is not there changes nothing.
pub open spec fn server_step<R>(
    rooms: Map<Seq<char>, RoomState>,
    message: ManagerMessage<R>,
) -> Map<Seq<char>, RoomState> {
    match message {
        ManagerMessage::EnterRoom { user_id, room_name } => rooms,
        ManagerMessage::CreateRoom { room_name } => if rooms.contains_key(room_name@) {
            rooms
        } else {
            rooms.insert(room_name@, RoomState::empty())
        },
        ManagerMessage::RouteToRoom { room_name, message } => if rooms.contains_key(room_name@) {
            rooms.insert(room_name@, rooms[room_name@].step(message))
        } else {
            rooms
        },
    }
}

/// What one command brings forth. A read is always answered: with the
/// rendered log of its room, or with the word that the room is missing.
pub open spec fn server_outcome<R>(
    rooms: Map<Seq<char>, RoomState>,
    message: ManagerMessage<R>,
) -> Outcome<R> {
    match message {
        ManagerMessage::EnterRoom { user_id, room_name } => Outcome::Announce {
            user_id,
            room_name: room_name@,
        },
        ManagerMessage::CreateRoom { room_name } => Outcome::Nothing,
        ManagerMessage::RouteToRoom { room_name, message } => match message {
            RoomMessage::ShowRecentMessages { sender } => if rooms.contains_key(room_name@) {
                Outcome::Messages { sender, lines: snapshot(rooms[room_name@].log) }
            } else {
                Outcome::RoomNotFound { sender }
            },
            _ => Outcome::Nothing,
        },
    }
}

/// The rooms after the commands of `inbox`, taken in order.
pub open spec fn server_run<R>(
    rooms: Map<Seq<char>, RoomState>,
    inbox: Seq<ManagerMessage<R>>,
) -> Map<Seq<char>, RoomState>
    decreases inbox.len(),
{
    if inbox.len() == 0 {
        rooms
    } else {
        server_step(server_run(rooms, inbox.drop_last()), inbox.last())
    }
}

/// The commands that `inbox` holds for the room `name`, in the order of the
/// inbox.
pub open spec fn routed<R>(inbox: Seq<ManagerMessage<R>>, name: Seq<char>) -> Seq<RoomMessage<R>>
    decreases inbox.len(),
{
    if inbox.len() == 0 {
        Seq::empty()
    } else {
        match inbox.last() {
            ManagerMessage::RouteToRoom { room_name, message } if room_name@ == name => routed(
                inbox.drop_last(),
                name,
            ).push(message),
            _ => routed(inbox.drop_last(), name),
        }
    }
}

/// A room that is there stays there, and takes exactly the commands that
/// the directory's inbox holds for it, in the order of that inbox, whatever
/// else the inbox holds.
pub proof fn law_room_takes_its_commands_in_order<R>(
    rooms: Map<Seq<char>, RoomState>,
    inbox: Seq<ManagerMessage<R>>,
    name: Seq<char>,
)
    requires
        rooms.contains_key(name),
    ensures
        server_run(rooms, inbox).contains_key(name),
        server_run(rooms, inbox)[name] == rooms[name].run(routed(inbox, name)),
    decreases inbox.len(),
{
    if inbox.len() > 0 {
        law_room_takes_its_commands_in_order(rooms, inbox.drop_last(), name);
        match inbox.last() {
            ManagerMessage::RouteToRoom { room_name, message } => {
                if room_name@ == name {
                    assert(routed(inbox, name).drop_last() =~= routed(inbox.drop_last(), name));
                }
            },
            _ => {},
        }
    }
}

/// In every room, once at least `LOG_CAPACITY` messages were sent to it, the
/// log holds exactly the last `LOG_CAPACITY` of them, in the order sent.
pub proof fn law_every_room_keeps_the_last_sent<R>(
    rooms: Map<Seq<char>, RoomState>,
    inbox: Seq<ManagerMessage<R>>,
    name: Seq<char>,
)
    requires
        rooms.contains_key(name),
        rooms[name].log.len() <= LOG_CAPACITY,
        sent(routed(inbox, name)).len() >= LOG_CAPACITY,
    ensures
        server_run(rooms, inbox)[name].log.len() == LOG_CAPACITY,
        server_run(rooms, inbox)[name].log == sent(routed(inbox, name)).subrange(
            sent(routed(inbox, name)).len() - LOG_CAPACITY,
            sent(routed(inbox, name)).len() as int,
        ),
{
    law_room_takes_its_commands_in_order(rooms, inbox, name);
    law_full_log_holds_last_sent(rooms[name], routed(inbox, name));
}

/// Creating a room twice in a row is creating it once: the second command
/// adds no room and brings nothing forth, and a room that was there before
/// the first is left as it was, its log with it.
pub proof fn law_create_room_is_idempotent<R>(
    rooms: Map<Seq<char>, RoomState>,
    room_name: String,
    again: String,
)
    requires
        room_name@ == again@,
    ensures
        ({
            let once = server_step(rooms, ManagerMessage::<R>::CreateRoom { room_name });
            let second = ManagerMessage::<R>::CreateRoom { room_name: again };
            &&& once.contains_key(room_name@)
            &&& server_step(once, second) == once
            &&& server_outcome(once, second) == Outcome::<R>::Nothing
            &&& rooms.contains_key(room_name@) ==> once == rooms
            &&& !rooms.contains_key(room_name@) ==> once[room_name@] == RoomState::empty()
        }),
{
}

/// A command for a room that was never created changes nothing, and a read
/// among such commands is answered on its own sink with the word that the
/// room is missing: whoever waits for the reply gets one.
pub proof fn law_missing_room_is_answered<R>(
    rooms: Map<Seq<char>, RoomState>,
    room_name: String,
    message: RoomMessage<R>,
)
    requires
        !rooms.contains_key(room_name@),
    ensures
        server_step(rooms, ManagerMessage::RouteToRoom { room_name, message }) == rooms,
        match message {
            RoomMessage::ShowRecentMessages { sender } => server_outcome(
                rooms,
                ManagerMessage::RouteToRoom { room_name, message },
            ) == (Outcome::RoomNotFound { sender }),
            _ => server_outcome(rooms, ManagerMessage::RouteToRoom { room_name, message })
                == Outcome::<R>::Nothing,
        },
{
}

/// Every read is answered, on the sink that came with it, whether or not
/// its room is there.
pub proof fn law_every_read_is_answered<R>(
    rooms: Map<Seq<char>, RoomState>,
    room_name: String,
    sender: R,
)
    ensures
        ({
            let outcome = server_outcome(
                rooms,
                ManagerMessage::RouteToRoom {
                    room_name,
                    message: RoomMessage::ShowRecentMessages { sender },
                },
            );
            ||| outcome matches Outcome::Messages { sender: to, .. } && to == sender
            ||| outcome matches Outcome::RoomNotFound { sender: to } && to == sender
        }),
{
}

/// A command changes no room but the one it names.
pub proof fn law_rooms_are_independent<R>(
    rooms: Map<Seq<char>, RoomState>,
    message: ManagerMessage<R>,
    other: Seq<char>,
)
    requires
        rooms.contains_key(other),
        match message {
            ManagerMessage::EnterRoom { room_name, .. } => true,
            ManagerMessage::CreateRoom { room_name } => true,
            ManagerMessage::RouteToRoom { room_name, .. } => room_name@ != other,
        },
    ensures
        server_step(rooms, message).contains_key(other),
        server_step(rooms, message)[other] == rooms[other],
{
}

/// A directory together with the rooms that it has created.
pub struct ChatServer {
    manager: ChatRoomManager,
    rooms: Vec<ChatRoom>,
}

impl View for ChatServer {
    type V = Map<Seq<char>, RoomState>;

    closed spec fn view(&self) -> Map<Seq<char>, RoomState> {
        Map::new(
            |name: Seq<char>| self.manager@.contains_key(name),
            |name: Seq<char>| self.rooms@[self.manager@[name] as int]@,
        )
    }
}

impl ChatServer {
    #[verifier::type_invariant]
    spec fn one_room_per_number(self) -> bool {
        &&& valid_registry(self.manager@)
        &&& self.rooms@.len() == self.manager@.len()
    }

    /// A server without rooms.
    pub fn new() -> (server: Self)
        ensures
            server@ == Map::<Seq<char>, RoomState>::empty(),
    {
        let server = ChatServer { manager: ChatRoomManager::new(), rooms: Vec::new() };
        assert(server@ =~= Map::empty());
        server
    }

    /// Carries one command out: the directory decides, and where it hands
    /// the command to a room, that room takes it at once.
    pub fn dispatch<R>(&mut self, message: ManagerMessage<R>) -> (output: ServerOutput<R>)
        ensures
            final(self)@ == server_step(old(self)@, message),
            output@ == server_outcome(old(self)@, message),
    {
        proof {
            use_type_invariant(&*self);
        }
        // The directory and the rooms are taken out while they change and
        // put back when each number has its room again.
        let mut taken = ChatServer::new();
        std::mem::swap(self, &mut taken);
        let ChatServer { mut manager, mut rooms } = taken;
        let ghost before = manager@;
        assert(before.len() <= usize::MAX) by {
            assert(rooms.len() == rooms@.len());
        }
        let action = manager.handle(message);
        let output = match action {
            ManagerAction::Announce { user_id, room_name } => ServerOutput::Announce {
                user_id,
                room_name,
            },
            ManagerAction::Spawn { room } => {
                rooms.push(ChatRoom::new());
                ServerOutput::Nothing
            },
            ManagerAction::Forward { room, message } => {
                match rooms[room].handle(message) {
                    Some(reply) => ServerOutput::Answer {
                        sender: reply.sender,
                        reply: Reply::Messages(reply.messages),
                    },
                    None => ServerOutput::Nothing,
                }
            },
            ManagerAction::RoomNotFound { sender } => ServerOutput::Answer {
                sender,
                reply: Reply::RoomNotFound,
            },
            ManagerAction::Nothing => ServerOutput::Nothing,
        };
        proof {
            crate::chat_room_manager::lemma_registry_grows_by_step(before, message);
        }
        *self = ChatServer { manager, rooms };
        proof {
            let after = server_step(old(self)@, message);
            assert forall|name: Seq<char>| #[trigger] self@.contains_key(name) implies self@[name]
                == after[name] by {
                if before.contains_key(name) {
                    assert(before[name] < before.len());
                }
            }
            assert(self@ =~= after);
        }
        output
    }
}

} // verus!
