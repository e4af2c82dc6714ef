//! Inbound events, reduced to what the dispatcher reads.

use vstd::prelude::*;
use vstd::string::*;

verus! {

/// Where a forwarded message first came from, as far as the platform tells.
#[derive(Clone, Debug, PartialEq, Eq)]
pub enum Origin {
    /// A user whose account is visible.
    User { first_name: String },
    /// A user who hides the account behind a display name.
    HiddenUser { name: String },
    /// A chat, a channel, or anything else.
    Other,
}

/// The message that another message replies to.
#[derive(Clone, Debug, PartialEq, Eq)]
pub struct RepliedMessage {
    /// Its identifier in the chat of the reply.
    pub id: i64,
    /// Its forward origin, if it was forwarded.
    pub origin: Option<Origin>,
}

/// What a message replies to.
#[derive(Clone, Debug, PartialEq, Eq)]
pub enum ReplyTo {
    /// A message of the same chat.
    Message(RepliedMessage),
    /// Anything that is not a message.
    Other,
}

/// The user who sent a message.
#[derive(Clone, Debug, PartialEq, Eq)]
pub struct User {
    /// Whether the account is a bot.
    pub is_bot: bool,
    /// The first name, and the last name after a space if there is one.
    pub full_name: String,
}

/// One inbound message.
#[derive(Clone, Debug, PartialEq, Eq)]
pub struct Message {
    /// Its identifier in its chat.
    pub id: i64,
    /// The chat it was sent in.
    pub chat_id: i64,
    /// The user who sent it, if a user did.
    pub sender: Option<User>,
    /// What it replies to, if it is a reply.
    pub reply_to: Option<ReplyTo>,
    /// The name of the command it carries, slash included, if it is one.
    pub command: Option<String>,
}

/// A change of the reactions on one message.
#[derive(Clone, Debug, PartialEq, Eq)]
pub struct Reaction {
    /// The message that was reacted to.
    pub message_id: i64,
}

/// One inbound event.
#[derive(Clone, Debug, PartialEq, Eq)]
pub enum Update {
    /// A message, plain or command.
    Message(Message),
    /// A reaction update.
    MessageReaction(Reaction),
    /// Any other event.
    Other,
}

impl Message {
    /// The sender's full name; empty if no user sent the message.
    pub open spec fn full_name(&self) -> Seq<char> {
        match self.sender {
            Some(user) => user.full_name@,
            None => Seq::<char>::empty(),
        }
    }

    /// Whether a bot account sent the message.
    pub open spec fn from_bot(&self) -> bool {
        match self.sender {
            Some(user) => user.is_bot,
            None => false,
        }
    }

    /// The message that this one replies to, if it replies to a message.
    pub open spec fn replied(&self) -> Option<RepliedMessage> {
        match self.reply_to {
            Some(ReplyTo::Message(replied)) => Some(replied),
            _ => None,
        }
    }

    /// Whether the message carries the command of the given name.
    pub open spec fn has_command(&self, name: Seq<char>) -> bool {
        match self.command {
            Some(command) => command@ == name,
            None => false,
        }
    }

    /// Whether a bot account sent the message.
    pub fn is_from_bot(&self) -> (res: bool)
        ensures
            res == self.from_bot(),
    {
        match &self.sender {
            Some(user) => user.is_bot,
            None => false,
        }
    }

    /// The message that this one replies to, if it replies to a message.
    pub fn replied_message(&self) -> (res: Option<&RepliedMessage>)
        ensures
            match res {
                Some(replied) => self.replied() == Some(*replied),
                None => self.replied() is None,
            },
    {
        match &self.reply_to {
            Some(ReplyTo::Message(replied)) => Some(replied),
            _ => None,
        }
    }

    /// Whether the message carries the command of the given name.
    pub fn is_command(&self, name: &str) -> (res: bool)
        ensures
            res == self.has_command(name@),
    {
        match &self.command {
            Some(command) => *command == String::from_str(name),
            None => false,
        }
    }
}

} // verus!
