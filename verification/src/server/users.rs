//! A user: a name under which messages are sent and reactions given.

use crate::server::message::with_reaction;
use crate::server::message::ChatMessage;
use crate::server::message::Message;
use vstd::prelude::*;
use vstd::string::*;

verus! {

/// A user of the chat.
pub struct User {
    pub username: String,
}

impl User {
    /// The user of this name.
    pub fn new(username: &str) -> (user: Self)
        ensures
            user.username@ == username@,
    {
        Self { username: username.to_owned() }
    }

    /// A new message with this text, without reactions.
    pub fn send_message(&self, content: &str) -> (message: ChatMessage)
        ensures
            message.content_view() == content@,
            message.reactions_view() == Seq::<(Seq<char>, Seq<char>)>::empty(),
    {
        ChatMessage::new(content)
    }

    /// Records this user's reaction to `message`; an earlier reaction of
    /// this user gives way to it.
    pub fn react_to_message(&self, message: &mut ChatMessage, reaction: &str)
        ensures
            final(message).content_view() == old(message).content_view(),
            final(message).reactions_view() == with_reaction(
                old(message).reactions_view(),
                self.username@,
                reaction@,
            ),
    {
        message.react(self.username.as_str(), reaction);
    }
}

} // verus!
