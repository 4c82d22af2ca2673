//! One room's actor: the owner of a bounded message log and of the reactions
//! recorded against positions of that log. The room is a state machine from
//! its state and the next command of its inbox to its new state and, for a
//! read, the reply to send.

use crate::text::decimal;
use crate::text::decimal_string;
use crate::text::texts;
use std::collections::HashMap;
use std::collections::VecDeque;
use vstd::prelude::*;
use vstd::string::*;

verus! {

broadcast use vstd::std_specs::hash::group_hash_axioms;

/// The number of messages that a room retains.
pub const LOG_CAPACITY: usize = 10;

/// A command in a room's inbox. `R` is the sink on which the answer to a
/// read is sent back; the room hands it through untouched.
#[derive(Debug, Clone, PartialEq, Eq)]
pub enum RoomMessage<R> {
    SendMessage { user_id: usize, content: String },
    AddReaction { user_id: usize, message_index: usize, reaction: String },
    ShowRecentMessages { sender: R },
}

/// The answer to a read: the rendered log, and the sink it is owed to.
#[derive(Debug, Clone, PartialEq, Eq)]
pub struct RoomReply<R> {
    pub sender: R,
    pub messages: Vec<String>,
}

/// What a room holds, as mathematics: the retained messages, oldest first,
/// each an author and a text, and the reactions recorded against each
/// position, in the order in which they came.
pub struct RoomState {
    pub log: Seq<(usize, Seq<char>)>,
    pub reactions: Map<usize, Seq<(usize, Seq<char>)>>,
}

/// The last `LOG_CAPACITY` entries of `s`, or all of `s` where it has no more.
pub open spec fn retained<T>(s: Seq<T>) -> Seq<T> {
    if s.len() <= LOG_CAPACITY {
        s
    } else {
        s.subrange(s.len() - LOG_CAPACITY, s.len() as int)
    }
}

/// One line of a rendered log: the position, the author's tag and the text.
pub open spec fn message_line(position: nat, author: usize, content: Seq<char>) -> Seq<char> {
    decimal(position) + ": [User "@ + decimal(author as nat) + "] "@ + content
}

/// The rendered log: one line per message, positions counted from one.
pub open spec fn snapshot(log: Seq<(usize, Seq<char>)>) -> Seq<Seq<char>> {
    Seq::new(log.len(), |i: int| message_line((i + 1) as nat, log[i].0, log[i].1))
}

impl RoomState {
    /// The state of a room that has seen no command.
    pub open spec fn empty() -> RoomState {
        RoomState { log: Seq::empty(), reactions: Map::empty() }
    }

    /// The reactions recorded against `index`; none where there is no entry.
    pub open spec fn reactions_at(self, index: usize) -> Seq<(usize, Seq<char>)> {
        if self.reactions.contains_key(index) {
            self.reactions[index]
        } else {
            Seq::empty()
        }
    }

    /// The state after one command.
    pub open spec fn step<R>(self, message: RoomMessage<R>) -> RoomState {
        match message {
            RoomMessage::SendMessage { user_id, content } => RoomState {
                log: retained(self.log.push((user_id, content@))),
                reactions: self.reactions,
            },
            RoomMessage::AddReaction { user_id, message_index, reaction } => RoomState {
                log: self.log,
                reactions: self.reactions.insert(
                    message_index,
                    self.reactions_at(message_index).push((user_id, reaction@)),
                ),
            },
            RoomMessage::ShowRecentMessages { sender } => self,
        }
    }

    /// The reply that one command is owed: the rendered log for a read,
    /// nothing for a write.
    pub open spec fn reply<R>(self, message: RoomMessage<R>) -> Option<(R, Seq<Seq<char>>)> {
        match message {
            RoomMessage::ShowRecentMessages { sender } => Some((sender, snapshot(self.log))),
            _ => None,
        }
    }

    /// The state after the commands of `inbox`, taken in order.
    pub open spec fn run<R>(self, inbox: Seq<RoomMessage<R>>) -> RoomState
        decreases inbox.len(),
    {
        if inbox.len() == 0 {
            self
        } else {
            self.run(inbox.drop_last()).step(inbox.last())
        }
    }

    /// The replies owed to the commands of `inbox`, in order.
    pub open spec fn replies<R>(self, inbox: Seq<RoomMessage<R>>) -> Seq<(R, Seq<Seq<char>>)>
        decreases inbox.len(),
    {
        if inbox.len() == 0 {
            Seq::empty()
        } else {
            let before = self.replies(inbox.drop_last());
            match self.run(inbox.drop_last()).reply(inbox.last()) {
                Some(r) => before.push(r),
                None => before,
            }
        }
    }
}

/// The messages that the commands of `inbox` send, in the order of the inbox.
pub open spec fn sent<R>(inbox: Seq<RoomMessage<R>>) -> Seq<(usize, Seq<char>)>
    decreases inbox.len(),
{
    if inbox.len() == 0 {
        Seq::empty()
    } else {
        match inbox.last() {
            RoomMessage::SendMessage { user_id, content } => sent(inbox.drop_last()).push(
                (user_id, content@),
            ),
            _ => sent(inbox.drop_last()),
        }
    }
}

proof fn lemma_retained_push<T>(s: Seq<T>, item: T)
    ensures
        retained(retained(s).push(item)) == retained(s.push(item)),
{
    assert(retained(retained(s).push(item)) =~= retained(s.push(item)));
}

/// Whatever commands a room takes, and from however many senders they
/// come, its log is the tail of what it held followed by what was sent, in
/// the order in which the inbox delivered it: no message twice, none out of
/// order, none torn.
pub proof fn law_log_follows_arrival_order<R>(start: RoomState, inbox: Seq<RoomMessage<R>>)
    requires
        start.log.len() <= LOG_CAPACITY,
    ensures
        start.run(inbox).log == retained(start.log + sent(inbox)),
        start.run(inbox).log.len() <= LOG_CAPACITY,
    decreases inbox.len(),
{
    if inbox.len() == 0 {
        assert(start.log + sent(inbox) =~= start.log);
    } else {
        let earlier = inbox.drop_last();
        law_log_follows_arrival_order(start, earlier);
        match inbox.last() {
            RoomMessage::SendMessage { user_id, content } => {
                let post = (user_id, content@);
                lemma_retained_push(start.log + sent(earlier), post);
                assert((start.log + sent(earlier)).push(post) =~= start.log + sent(inbox));
            },
            _ => {},
        }
    }
}

/// Once at least `LOG_CAPACITY` messages were sent to a room, its log holds
/// exactly the last `LOG_CAPACITY` of them, in the order sent.
pub proof fn law_full_log_holds_last_sent<R>(start: RoomState, inbox: Seq<RoomMessage<R>>)
    requires
        start.log.len() <= LOG_CAPACITY,
        sent(inbox).len() >= LOG_CAPACITY,
    ensures
        start.run(inbox).log.len() == LOG_CAPACITY,
        start.run(inbox).log == sent(inbox).subrange(
            sent(inbox).len() - LOG_CAPACITY,
            sent(inbox).len() as int,
        ),
{
    law_log_follows_arrival_order(start, inbox);
    assert(retained(start.log + sent(inbox)) =~= sent(inbox).subrange(
        sent(inbox).len() - LOG_CAPACITY,
        sent(inbox).len() as int,
    ));
}

/// A reaction leaves the messages as they were: the log is the same, and a
/// read that follows is answered as one that came before would have been.
pub proof fn law_reaction_keeps_messages<R>(
    room: RoomState,
    user_id: usize,
    message_index: usize,
    reaction: String,
    sender: R,
)
    ensures
        room.step(
            RoomMessage::<R>::AddReaction { user_id, message_index, reaction },
        ).log == room.log,
        room.step(RoomMessage::<R>::AddReaction { user_id, message_index, reaction }).reply(
            RoomMessage::ShowRecentMessages { sender },
        ) == room.reply(RoomMessage::ShowRecentMessages { sender }),
{
}

/// A read leaves the room as it was.
pub proof fn law_read_changes_nothing<R>(room: RoomState, sender: R)
    ensures
        room.step(RoomMessage::ShowRecentMessages { sender }) == room,
{
}

/// A reply as mathematics: its sink, and the lines as sequences of characters.
pub open spec fn reply_view<R>(reply: Option<RoomReply<R>>) -> Option<(R, Seq<Seq<char>>)> {
    match reply {
        Some(r) => Some((r.sender, texts(r.messages@))),
        None => None,
    }
}

/// A list of replies as mathematics.
pub open spec fn replies_view<R>(replies: Seq<RoomReply<R>>) -> Seq<(R, Seq<Seq<char>>)> {
    replies.map_values(|r: RoomReply<R>| (r.sender, texts(r.messages@)))
}

/// Renders one line of a log.
pub fn render_line(position: usize, author: usize, content: &str) -> (line: String)
    ensures
        line@ == message_line(position as nat, author, content@),
{
    let mut line = decimal_string(position);
    line.append(": [User ");
    line.append(decimal_string(author).as_str());
    line.append("] ");
    line.append(content);
    line
}

/// A room: its retained messages and the reactions recorded against them.
pub struct ChatRoom {
    messages: VecDeque<(usize, String)>,
    reactions: HashMap<usize, Vec<(usize, String)>>,
}

/// An author with a text, the text as its characters.
pub open spec fn pair_view(pair: (usize, String)) -> (usize, Seq<char>) {
    (pair.0, pair.1@)
}

/// A list of authors with texts, each text as its characters.
pub open spec fn pairs_view(pairs: Seq<(usize, String)>) -> Seq<(usize, Seq<char>)> {
    pairs.map_values(|p: (usize, String)| pair_view(p))
}

impl View for ChatRoom {
    type V = RoomState;

    closed spec fn view(&self) -> RoomState {
        RoomState {
            log: pairs_view(self.messages@),
            reactions: Map::new(
                |k: usize| self.reactions@.contains_key(k),
                |k: usize| pairs_view(self.reactions@[k]@),
            ),
        }
    }
}

impl ChatRoom {
    #[verifier::type_invariant]
    spec fn within_capacity(self) -> bool {
        self.messages@.len() <= LOG_CAPACITY
    }

    /// A room with no message and no reaction.
    pub fn new() -> (room: Self)
        ensures
            room@ == RoomState::empty(),
    {
        let room = ChatRoom { messages: VecDeque::new(), reactions: HashMap::new() };
        assert(room@.log =~= Seq::empty());
        assert(room@.reactions =~= Map::empty());
        room
    }

    /// Takes one command from the inbox: a sent message joins the log, the
    /// oldest leaving first where the log is full; a reaction joins those
    /// recorded against its position, whether or not a message stands there;
    /// a read changes nothing and is answered with the rendered log.
    pub fn handle<R>(&mut self, message: RoomMessage<R>) -> (reply: Option<RoomReply<R>>)
        ensures
            final(self)@ == old(self)@.step(message),
            reply_view(reply) == old(self)@.reply(message),
    {
        proof {
            use_type_invariant(&*self);
        }
        match message {
            RoomMessage::SendMessage { user_id, content } => {
                // The log is taken out while it changes and put back when it
                // is within capacity again.
                let mut messages: VecDeque<(usize, String)> = VecDeque::new();
                std::mem::swap(&mut self.messages, &mut messages);
                if messages.len() == LOG_CAPACITY {
                    messages.pop_front();
                }
                messages.push_back((user_id, content));
                std::mem::swap(&mut self.messages, &mut messages);
                proof {
                    assert(self@.log =~= retained(old(self)@.log.push((user_id, content@))));
                    assert(self@.reactions =~= old(self)@.reactions);
                }
                None
            },
            RoomMessage::AddReaction { user_id, message_index, reaction } => {
                let mut reactions: HashMap<usize, Vec<(usize, String)>> = HashMap::new();
                std::mem::swap(&mut self.reactions, &mut reactions);
                let mut list = match reactions.remove(&message_index) {
                    Some(list) => list,
                    None => Vec::new(),
                };
                let ghost earlier = list@;
                assert(pairs_view(earlier) =~= old(self)@.reactions_at(message_index));
                list.push((user_id, reaction));
                assert(pairs_view(list@) =~= pairs_view(earlier).push((user_id, reaction@)));
                reactions.insert(message_index, list);
                std::mem::swap(&mut self.reactions, &mut reactions);
                proof {
                    assert(self@.log =~= old(self)@.log);
                    assert(self@.reactions =~= old(self)@.reactions.insert(
                        message_index,
                        old(self)@.reactions_at(message_index).push((user_id, reaction@)),
                    ));
                }
                None
            },
            RoomMessage::ShowRecentMessages { sender } => {
                let messages = self.recent_messages();
                Some(RoomReply { sender, messages })
            },
        }
    }

    /// Takes the commands of `inbox` in order, and returns the replies that
    /// the reads among them are owed, in that order.
    pub fn run<R>(&mut self, inbox: Vec<RoomMessage<R>>) -> (replies: Vec<RoomReply<R>>)
        ensures
            final(self)@ == old(self)@.run(inbox@),
            replies_view(replies@) == old(self)@.replies(inbox@),
    {
        let ghost start = self@;
        let ghost all = inbox@;
        let mut replies: Vec<RoomReply<R>> = Vec::new();
        assert(all.take(0) =~= Seq::empty());
        assert(replies_view(replies@) =~= Seq::empty());
        for message in it: inbox.into_iter()
            invariant
                it.seq() == all,
                self@ == start.run(all.take(it.index())),
                replies_view(replies@) == start.replies(all.take(it.index())),
        {
            let ghost done = all.take(it.index());
            let ghost next = all.take(it.index() + 1);
            assert(next.drop_last() =~= done);
            assert(next.last() == message);
            let ghost before = replies@;
            match self.handle(message) {
                Some(reply) => {
                    replies.push(reply);
                    assert(replies_view(replies@) =~= replies_view(before).push(
                        (reply.sender, texts(reply.messages@)),
                    ));
                },
                None => {},
            }
        }
        assert(all.take(all.len() as int) =~= all);
        replies
    }

    /// The rendered log: one line for each retained message, oldest first.
    pub fn recent_messages(&self) -> (lines: Vec<String>)
        ensures
            texts(lines@) == snapshot(self@.log),
    {
        proof {
            use_type_invariant(self);
        }
        let n = self.messages.len();
        let mut lines: Vec<String> = Vec::new();
        let mut i: usize = 0;
        while i < n
            invariant
                n == self.messages@.len(),
                n <= LOG_CAPACITY,
                i <= n,
                lines@.len() == i,
                forall|j: int|
                    0 <= j < i ==> (#[trigger] lines@[j])@ == message_line(
                        (j + 1) as nat,
                        self.messages@[j].0,
                        self.messages@[j].1@,
                    ),
            decreases n - i,
        {
            let entry = &self.messages[i];
            let line = render_line(i + 1, entry.0, entry.1.as_str());
            lines.push(line);
            i += 1;
        }
        assert(texts(lines@) =~= snapshot(self@.log));
        lines
    }

    /// The reactions recorded against the position `message_index`, in the
    /// order in which they came.
    pub fn reactions_at(&self, message_index: usize) -> (list: Vec<(usize, String)>)
        ensures
            pairs_view(list@) == self@.reactions_at(message_index),
    {
        let mut list: Vec<(usize, String)> = Vec::new();
        match self.reactions.get(&message_index) {
            Some(recorded) => {
                let mut i: usize = 0;
                while i < recorded.len()
                    invariant
                        i <= recorded.len(),
                        list@.len() == i,
                        forall|j: int|
                            0 <= j < i ==> pair_view(#[trigger] list@[j]) == pair_view(
                                recorded@[j],
                            ),
                    decreases recorded.len() - i,
                {
                    let entry = &recorded[i];
                    list.push((entry.0, entry.1.clone()));
                    i += 1;
                }
                assert(pairs_view(list@) =~= pairs_view(recorded@));
            },
            None => {
                assert(pairs_view(list@) =~= Seq::empty());
            },
        }
        list
    }

    /// The number of retained messages.
    pub fn len(&self) -> (n: usize)
        ensures
            n == self@.log.len(),
            n <= LOG_CAPACITY,
    {
        proof {
            use_type_invariant(self);
        }
        self.messages.len()
    }
}

} // verus!
