//! A room: its name, the users who joined it and the messages added to it.

use crate::server::message::reaction_lines;
use crate::server::message::with_reaction;
use crate::server::message::ChatMessage;
use crate::server::message::Message;
use crate::server::users::User;
use crate::text::texts;
use vstd::prelude::*;
use vstd::string::*;

verus! {

/// The heading of the list of a room's messages.
pub open spec fn room_heading(name: Seq<char>) -> Seq<char> {
    "Messaged in room '"@ + name + "':"@
}

/// The lines that show one message: its text, then its reactions.
pub open spec fn message_lines(message: ChatMessage) -> Seq<Seq<char>> {
    seq![message.content_view()] + reaction_lines(
        message.content_view(),
        message.reactions_view(),
    )
}

/// The lines that show these messages, one after the other.
pub open spec fn messages_lines(messages: Seq<ChatMessage>) -> Seq<Seq<char>>
    decreases messages.len(),
{
    if messages.len() == 0 {
        Seq::empty()
    } else {
        messages_lines(messages.drop_last()) + message_lines(messages.last())
    }
}

/// A room of the chat.
pub struct Room {
    pub name: String,
    pub users: Vec<User>,
    pub messages: Vec<ChatMessage>,
}

impl Room {
    /// A room of this name, without users and without messages.
    pub fn new(room_name: &str) -> (room: Self)
        ensures
            room.name@ == room_name@,
            room.users@.len() == 0,
            room.messages@.len() == 0,
    {
        Self { name: room_name.to_owned(), users: Vec::new(), messages: Vec::new() }
    }

    /// Lets `user` join: the user comes after those who joined before.
    pub fn add_user(&mut self, user: User)
        ensures
            final(self).users@ == old(self).users@.push(user),
            final(self).name == old(self).name,
            final(self).messages == old(self).messages,
    {
        self.users.push(user);
    }

    /// Adds a message with this text and no reaction after those added
    /// before.
    pub fn add_message(&mut self, content: &str)
        ensures
            final(self).messages@.len() == old(self).messages@.len() + 1,
            final(self).messages@.drop_last() == old(self).messages@,
            final(self).messages@.last().content_view() == content@,
            final(self).messages@.last().reactions_view() == Seq::<
                (Seq<char>, Seq<char>),
            >::empty(),
            final(self).name == old(self).name,
            final(self).users == old(self).users,
    {
        let message = ChatMessage::new(content);
        self.messages.push(message);
        assert(self.messages@.drop_last() =~= old(self).messages@);
    }

    /// Records the reaction of the user `username` to the message added
    /// last, and tells whether there was one: a room without messages stays
    /// as it is.
    pub fn react_to_last_message(&mut self, username: &str, reaction: &str) -> (reacted: bool)
        ensures
            reacted == (old(self).messages@.len() > 0),
            final(self).name == old(self).name,
            final(self).users == old(self).users,
            final(self).messages@.len() == old(self).messages@.len(),
            reacted ==> {
                &&& final(self).messages@.drop_last() == old(self).messages@.drop_last()
                &&& final(self).messages@.last().content_view() == old(
                    self,
                ).messages@.last().content_view()
                &&& final(self).messages@.last().reactions_view() == with_reaction(
                    old(self).messages@.last().reactions_view(),
                    username@,
                    reaction@,
                )
            },
            !reacted ==> final(self).messages == old(self).messages,
    {
        let count = self.messages.len();
        if count > 0 {
            self.messages[count - 1].react(username, reaction);
            assert(self.messages@.drop_last() =~= old(self).messages@.drop_last());
            true
        } else {
            false
        }
    }

    /// The lines that show the room: the heading, then each message with
    /// its reactions, in the order in which the messages were added.
    pub fn show_all_messages(&self) -> (lines: Vec<String>)
        ensures
            texts(lines@) == seq![room_heading(self.name@)] + messages_lines(self.messages@),
    {
        let mut lines: Vec<String> = Vec::new();
        let mut heading = String::from_str("Messaged in room '");
        heading.append(self.name.as_str());
        heading.append("':");
        lines.push(heading);
        assert(self.messages@.take(0) =~= Seq::empty());
        assert(texts(lines@) =~= seq![room_heading(self.name@)] + messages_lines(
            self.messages@.take(0),
        ));
        let mut i: usize = 0;
        while i < self.messages.len()
            invariant
                i <= self.messages@.len(),
                texts(lines@) == seq![room_heading(self.name@)] + messages_lines(
                    self.messages@.take(i as int),
                ),
            decreases self.messages@.len() - i,
        {
            let message = &self.messages[i];
            let ghost before = texts(lines@);
            let ghost written = lines@;
            lines.push(String::from_str(message.get_content()));
            assert(texts(lines@) =~= before.push(message.content_view()));
            let mut shown = message.show_reactions();
            let ghost with_text = lines@;
            let ghost reactions = shown@;
            lines.append(&mut shown);
            assert(texts(lines@) =~= texts(with_text) + texts(reactions));
            proof {
                let next = self.messages@.take(i + 1);
                assert(next.drop_last() =~= self.messages@.take(i as int));
                assert(next.last() == *message);
                assert(texts(lines@) =~= seq![room_heading(self.name@)] + messages_lines(next));
            }
            i += 1;
        }
        assert(self.messages@.take(i as int) =~= self.messages@);
        lines
    }
}

} // verus!
