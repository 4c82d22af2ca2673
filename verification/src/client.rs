//! One client's session: the menu-driven dialogue, as a state machine from
//! the session's state and the next line that the client sent to the lines
//! to write back and the command to issue. Reading and writing the
//! connection, and waiting on a reply sink, are left to the caller.

use crate::chat_room::RoomMessage;
use crate::chat_room_manager::ManagerMessage;
use crate::chat_room_manager::Reply;
use crate::text::decimal;
use crate::text::decimal_string;
use crate::text::texts;
use crate::text::trim;
use crate::text::trimmed;
use vstd::prelude::*;
use vstd::string::*;

verus! {

/// The menu, written whenever the session waits for a choice.
pub const MENU: &'static str =
    "Options: \n1. Enter Room \n2. Create Room \n3. Send Message \n4. Show Recent Messages \n5. Exit";

/// The prompt for the name of a room that is there.
pub const ROOM_PROMPT: &'static str = "Enter room name:";

/// The prompt for the name of a room to create.
pub const NEW_ROOM_PROMPT: &'static str = "Enter new room name:";

/// The prompt for the text of a message.
pub const MESSAGE_PROMPT: &'static str = "Enter your message:";

/// The heading of a rendered log.
pub const RECENT_HEADING: &'static str = "Recent Messages:";

/// The answer where the room that was asked is missing.
pub const ROOM_MISSING: &'static str = "Room not found.";

/// The farewell.
pub const GOODBYE: &'static str = "Goodbye!";

/// The answer to a choice that the menu does not offer.
pub const INVALID_OPTION: &'static str = "Invalid Option.";

/// What a session waits for.
#[derive(Clone, Copy, PartialEq, Eq, Structural, Debug)]
pub enum Stage {
    /// A choice from the menu.
    Menu,
    /// The name of the room to enter.
    EnterRoomName,
    /// The name of the room to create.
    NewRoomName,
    /// The name of the room to send a message to.
    SendRoomName,
    /// The text of the message, the room being named.
    SendContent,
    /// The name of the room whose log to show.
    ShowRoomName,
    /// The reply to the read that was issued.
    AwaitingReply,
    /// Nothing: the session is over.
    Closed,
}

/// A session as mathematics: whose it is, what it waits for, and the room
/// named for the message that is being composed (empty otherwise).
pub struct SessionView {
    pub user_id: usize,
    pub stage: Stage,
    pub room_name: Seq<char>,
}

/// A command that a session issues, as mathematics.
pub enum Command {
    EnterRoom { user_id: usize, room_name: Seq<char> },
    CreateRoom { room_name: Seq<char> },
    SendMessage { user_id: usize, room_name: Seq<char>, content: Seq<char> },
    ShowRecentMessages { room_name: Seq<char> },
}

/// What one line, or one reply, leads to: the session afterwards, the lines
/// to write to the client, and the command to issue, if any.
pub struct Turn {
    pub session: SessionView,
    pub lines: Seq<Seq<char>>,
    pub command: Option<Command>,
}

/// The greeting of a new session.
pub open spec fn welcome_line(user_id: usize) -> Seq<char> {
    "Welcome User "@ + decimal(user_id as nat) + "!"@
}

impl SessionView {
    /// The session waiting for something else, with no room named.
    pub open spec fn at(self, stage: Stage) -> SessionView {
        SessionView { user_id: self.user_id, stage, room_name: Seq::empty() }
    }

    /// What the line `line` leads to. The line counts without the white
    /// space around it. A session that waits for a reply, or is over, takes
    /// no line.
    pub open spec fn on_line(self, line: Seq<char>) -> Turn {
        let entry = trimmed(line);
        match self.stage {
            Stage::Menu => if entry == seq!['1'] {
                Turn { session: self.at(Stage::EnterRoomName), lines: seq![ROOM_PROMPT@], command: None }
            } else if entry == seq!['2'] {
                Turn {
                    session: self.at(Stage::NewRoomName),
                    lines: seq![NEW_ROOM_PROMPT@],
                    command: None,
                }
            } else if entry == seq!['3'] {
                Turn { session: self.at(Stage::SendRoomName), lines: seq![ROOM_PROMPT@], command: None }
            } else if entry == seq!['4'] {
                Turn { session: self.at(Stage::ShowRoomName), lines: seq![ROOM_PROMPT@], command: None }
            } else if entry == seq!['5'] {
                Turn { session: self.at(Stage::Closed), lines: seq![GOODBYE@], command: None }
            } else {
                Turn {
                    session: self.at(Stage::Menu),
                    lines: seq![INVALID_OPTION@, MENU@],
                    command: None,
                }
            },
            Stage::EnterRoomName => Turn {
                session: self.at(Stage::Menu),
                lines: seq![MENU@],
                command: Some(Command::EnterRoom { user_id: self.user_id, room_name: entry }),
            },
            Stage::NewRoomName => Turn {
                session: self.at(Stage::Menu),
                lines: seq![MENU@],
                command: Some(Command::CreateRoom { room_name: entry }),
            },
            Stage::SendRoomName => Turn {
                session: SessionView {
                    user_id: self.user_id,
                    stage: Stage::SendContent,
                    room_name: entry,
                },
                lines: seq![MESSAGE_PROMPT@],
                command: None,
            },
            Stage::SendContent => Turn {
                session: self.at(Stage::Menu),
                lines: seq![MENU@],
                command: Some(
                    Command::SendMessage {
                        user_id: self.user_id,
                        room_name: self.room_name,
                        content: entry,
                    },
                ),
            },
            Stage::ShowRoomName => Turn {
                session: self.at(Stage::AwaitingReply),
                lines: Seq::empty(),
                command: Some(Command::ShowRecentMessages { room_name: entry }),
            },
            Stage::AwaitingReply | Stage::Closed => Turn {
                session: self,
                lines: Seq::empty(),
                command: None,
            },
        }
    }

    /// What the end of a wait for a reply leads to: the reply rendered, or
    /// nothing where none came, and the menu again. A session that does not
    /// wait for a reply takes none.
    pub open spec fn on_reply(self, reply: Option<Reply>) -> Turn {
        if self.stage == Stage::AwaitingReply {
            Turn {
                session: self.at(Stage::Menu),
                lines: match reply {
                    Some(Reply::Messages(messages)) => seq![RECENT_HEADING@] + texts(messages@)
                        + seq![MENU@],
                    Some(Reply::RoomNotFound) => seq![ROOM_MISSING@, MENU@],
                    None => seq![MENU@],
                },
                command: None,
            }
        } else {
            Turn { session: self, lines: Seq::empty(), command: None }
        }
    }
}

/// The identifiers of the users, handed out one for each accepted
/// connection: first 1, then 2, and so on.
pub struct UserIds {
    assigned: usize,
}

impl View for UserIds {
    type V = nat;

    /// The number of identifiers handed out so far.
    closed spec fn view(&self) -> nat {
        self.assigned as nat
    }
}

impl UserIds {
    /// No identifier handed out yet.
    pub fn new() -> (ids: Self)
        ensures
            ids@ == 0,
    {
        UserIds { assigned: 0 }
    }

    /// The next identifier: one more than the number handed out so far.
    /// `None`, and nothing changed, once the machine word is used up.
    pub fn assign(&mut self) -> (id: Option<usize>)
        ensures
            old(self)@ < usize::MAX ==> id == Some((old(self)@ + 1) as usize) && final(self)@
                == old(self)@ + 1,
            old(self)@ >= usize::MAX ==> id is None && final(self)@ == old(self)@,
    {
        if self.assigned < usize::MAX {
            self.assigned = self.assigned + 1;
            Some(self.assigned)
        } else {
            None
        }
    }
}

/// What a session asks of its caller.
#[derive(Debug, Clone, PartialEq, Eq)]
pub enum SessionRequest<R> {
    /// Put this command in the directory's inbox.
    Send(ManagerMessage<R>),
    /// Ask for the log of this room: make a reply sink, send the directory
    /// the read for this room with that sink in it, wait for the reply, and
    /// hand it to the session.
    Ask { room_name: String },
}

/// Whether `request` is the command `command`, with every field of it.
pub open spec fn carries<R>(request: Option<SessionRequest<R>>, command: Option<Command>) -> bool {
    match command {
        None => request is None,
        Some(Command::EnterRoom { user_id, room_name }) => {
            &&& request matches Some(
                SessionRequest::Send(ManagerMessage::EnterRoom { user_id: u, room_name: n }),
            )
            &&& u == user_id
            &&& n@ == room_name
        },
        Some(Command::CreateRoom { room_name }) => {
            &&& request matches Some(SessionRequest::Send(ManagerMessage::CreateRoom { room_name: n }))
            &&& n@ == room_name
        },
        Some(Command::SendMessage { user_id, room_name, content }) => {
            &&& request matches Some(
                SessionRequest::Send(
                    ManagerMessage::RouteToRoom {
                        room_name: n,
                        message: RoomMessage::SendMessage { user_id: u, content: c },
                    },
                ),
            )
            &&& u == user_id
            &&& n@ == room_name
            &&& c@ == content
        },
        Some(Command::ShowRecentMessages { room_name }) => {
            &&& request matches Some(SessionRequest::Ask { room_name: n })
            &&& n@ == room_name
        },
    }
}

/// What a session hands back on one line.
#[derive(Debug, Clone, PartialEq, Eq)]
pub struct SessionOutput<R> {
    /// The lines to write to the client, in order.
    pub lines: Vec<String>,
    /// What to do then.
    pub request: Option<SessionRequest<R>>,
}

/// One client's session.
pub struct Session {
    user_id: usize,
    stage: Stage,
    room_name: String,
}

impl View for Session {
    type V = SessionView;

    closed spec fn view(&self) -> SessionView {
        SessionView { user_id: self.user_id, stage: self.stage, room_name: self.room_name@ }
    }
}

/// Writes the greeting of a new session.
pub fn render_welcome(user_id: usize) -> (line: String)
    ensures
        line@ == welcome_line(user_id),
{
    let mut line = String::from_str("Welcome User ");
    line.append(decimal_string(user_id).as_str());
    line.append("!");
    line
}

fn one_line(text: &str) -> (lines: Vec<String>)
    ensures
        texts(lines@) == seq![text@],
{
    let mut lines: Vec<String> = Vec::new();
    lines.push(String::from_str(text));
    assert(texts(lines@) =~= seq![text@]);
    lines
}

fn two_lines(first: &str, second: &str) -> (lines: Vec<String>)
    ensures
        texts(lines@) == seq![first@, second@],
{
    let mut lines: Vec<String> = Vec::new();
    lines.push(String::from_str(first));
    lines.push(String::from_str(second));
    assert(texts(lines@) =~= seq![first@, second@]);
    lines
}

fn is_choice(entry: &str, digit: char) -> (b: bool)
    ensures
        b == (entry@ == seq![digit]),
{
    if entry.unicode_len() == 1 {
        let c = entry.get_char(0);
        assert(entry@ =~= seq![c]);
        c == digit
    } else {
        false
    }
}

impl Session {
    /// The session of the user `user_id`, and its first lines: the greeting
    /// and the menu.
    pub fn new(user_id: usize) -> (opened: (Self, Vec<String>))
        ensures
            opened.0@ == (SessionView { user_id, stage: Stage::Menu, room_name: Seq::empty() }),
            texts(opened.1@) == seq![welcome_line(user_id), MENU@],
    {
        let session = Session { user_id, stage: Stage::Menu, room_name: String::new() };
        let mut lines: Vec<String> = Vec::new();
        lines.push(render_welcome(user_id));
        lines.push(String::from_str(MENU));
        assert(texts(lines@) =~= seq![welcome_line(user_id), MENU@]);
        (session, lines)
    }

    /// The user whose session this is.
    pub fn user_id(&self) -> (id: usize)
        ensures
            id == self@.user_id,
    {
        self.user_id
    }

    /// What the session waits for.
    pub fn stage(&self) -> (stage: Stage)
        ensures
            stage == self@.stage,
    {
        self.stage
    }

    /// Whether the session is over.
    pub fn is_closed(&self) -> (closed: bool)
        ensures
            closed == (self@.stage == Stage::Closed),
    {
        self.stage == Stage::Closed
    }

    /// Takes the next line that the client sent.
    pub fn on_line<R>(&mut self, line: &str) -> (output: SessionOutput<R>)
        ensures
            final(self)@ == old(self)@.on_line(line@).session,
            texts(output.lines@) == old(self)@.on_line(line@).lines,
            carries(output.request, old(self)@.on_line(line@).command),
    {
        let entry = trim(line);
        match self.stage {
            Stage::Menu => {
                let lines = if is_choice(entry, '1') {
                    self.stage = Stage::EnterRoomName;
                    one_line(ROOM_PROMPT)
                } else if is_choice(entry, '2') {
                    self.stage = Stage::NewRoomName;
                    one_line(NEW_ROOM_PROMPT)
                } else if is_choice(entry, '3') {
                    self.stage = Stage::SendRoomName;
                    one_line(ROOM_PROMPT)
                } else if is_choice(entry, '4') {
                    self.stage = Stage::ShowRoomName;
                    one_line(ROOM_PROMPT)
                } else if is_choice(entry, '5') {
                    self.stage = Stage::Closed;
                    one_line(GOODBYE)
                } else {
                    two_lines(INVALID_OPTION, MENU)
                };
                self.room_name = String::new();
                SessionOutput { lines, request: None }
            },
            Stage::EnterRoomName => {
                self.stage = Stage::Menu;
                self.room_name = String::new();
                let message = ManagerMessage::EnterRoom {
                    user_id: self.user_id,
                    room_name: String::from_str(entry),
                };
                SessionOutput { lines: one_line(MENU), request: Some(SessionRequest::Send(message)) }
            },
            Stage::NewRoomName => {
                self.stage = Stage::Menu;
                self.room_name = String::new();
                let message = ManagerMessage::CreateRoom { room_name: String::from_str(entry) };
                SessionOutput { lines: one_line(MENU), request: Some(SessionRequest::Send(message)) }
            },
            Stage::SendRoomName => {
                self.stage = Stage::SendContent;
                self.room_name = String::from_str(entry);
                SessionOutput { lines: one_line(MESSAGE_PROMPT), request: None }
            },
            Stage::SendContent => {
                self.stage = Stage::Menu;
                let mut room_name = String::new();
                std::mem::swap(&mut self.room_name, &mut room_name);
                let message = ManagerMessage::RouteToRoom {
                    room_name,
                    message: RoomMessage::SendMessage {
                        user_id: self.user_id,
                        content: String::from_str(entry),
                    },
                };
                SessionOutput { lines: one_line(MENU), request: Some(SessionRequest::Send(message)) }
            },
            Stage::ShowRoomName => {
                self.stage = Stage::AwaitingReply;
                self.room_name = String::new();
                SessionOutput {
                    lines: Vec::new(),
                    request: Some(SessionRequest::Ask { room_name: String::from_str(entry) }),
                }
            },
            Stage::AwaitingReply | Stage::Closed => SessionOutput {
                lines: Vec::new(),
                request: None,
            },
        }
    }

    /// Takes the reply that the session waited for; `None` where the wait
    /// ended without one. Returns the lines to write to the client.
    pub fn on_reply(&mut self, reply: Option<Reply>) -> (lines: Vec<String>)
        ensures
            final(self)@ == old(self)@.on_reply(reply).session,
            texts(lines@) == old(self)@.on_reply(reply).lines,
    {
        if self.stage == Stage::AwaitingReply {
            self.stage = Stage::Menu;
            self.room_name = String::new();
            match reply {
                Some(Reply::Messages(messages)) => {
                    let mut lines = one_line(RECENT_HEADING);
                    let ghost all = messages@;
                    for message in it: messages.into_iter()
                        invariant
                            it.seq() == all,
                            texts(lines@) == seq![RECENT_HEADING@] + texts(all.take(it.index())),
                    {
                        let ghost shown = texts(all.take(it.index()));
                        assert(texts(all.take(it.index() + 1)) =~= shown.push(message@));
                        let ghost written = lines@;
                        lines.push(message);
                        assert(texts(lines@) =~= texts(written).push(message@));
                        assert(texts(lines@) =~= seq![RECENT_HEADING@] + texts(
                            all.take(it.index() + 1),
                        ));
                    }
                    assert(all.take(all.len() as int) =~= all);
                    lines.push(String::from_str(MENU));
                    assert(texts(lines@) =~= seq![RECENT_HEADING@] + texts(all) + seq![MENU@]);
                    lines
                },
                Some(Reply::RoomNotFound) => two_lines(ROOM_MISSING, MENU),
                None => one_line(MENU),
            }
        } else {
            Vec::new()
        }
    }
}

} // verus!
