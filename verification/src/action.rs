//! What the relay asks the transport to do, and the texts it sends.

use crate::db::StorageError;
use crate::event::{Message, Origin};
use crate::ratelimit::Delay;
use crate::text::{decimal, decimal_text};
use vstd::prelude::*;
use vstd::string::*;
use vstd::utf8::*;

verus! {

/// How `/start` greets, before the user's name.
pub const GREETING: &'static str = "Hi!";

/// How `/start` goes on, after the user's name.
pub const INVITATION: &'static str = ", With this bot, you can converse with our admins.";

/// How `/help` answers, before the chat's identifier.
pub const HELP_PREFIX: &'static str = "Help! ";

/// What a banned user is told.
pub const BANNED_NOTICE: &'static str = "You are banned from using this bot";

/// What a user over the limit is told, before the time to wait.
pub const TIMEOUT_PREFIX: &'static str =
    "You have been timed out from sending anymore messages for ";

/// What the group is told when the target of a ban is unknown.
pub const UNKNOWN_TARGET_NOTICE: &'static str =
    "Failed to ban this user because it does not exists in the database";

/// What the group is told after a ban, before the user's name.
pub const BANNED_PREFIX: &'static str = "Banned user ";

/// A stretch of a text to be set in bold, counted in bytes.
#[derive(Clone, Copy, Debug, PartialEq, Eq, Structural)]
pub struct BoldSpan {
    pub offset: u32,
    pub length: u32,
}

/// One request to the transport.
#[derive(Clone, Debug, PartialEq, Eq)]
pub enum Action {
    /// Send a text to a chat.
    SendText { chat_id: i64, text: String, bold: Option<BoldSpan> },
    /// Copy a message from one chat to another, without a link to it.
    CopyMessage { to_chat: i64, from_chat: i64, message_id: i64 },
    /// Forward a message from one chat to another.
    ForwardMessage { to_chat: i64, from_chat: i64, message_id: i64 },
    /// Set the reaction on a message; the reaction itself is the event's.
    SetReaction { chat_id: i64, message_id: i64 },
}

/// An `Action` with its text as a sequence of characters.
pub enum ActionView {
    SendText { chat_id: i64, text: Seq<char>, bold: Option<BoldSpan> },
    CopyMessage { to_chat: i64, from_chat: i64, message_id: i64 },
    ForwardMessage { to_chat: i64, from_chat: i64, message_id: i64 },
    SetReaction { chat_id: i64, message_id: i64 },
}

impl View for Action {
    type V = ActionView;

    open spec fn view(&self) -> ActionView {
        match *self {
            Action::SendText { chat_id, text, bold } => ActionView::SendText {
                chat_id,
                text: text@,
                bold,
            },
            Action::CopyMessage { to_chat, from_chat, message_id } => ActionView::CopyMessage {
                to_chat,
                from_chat,
                message_id,
            },
            Action::ForwardMessage {
                to_chat,
                from_chat,
                message_id,
            } => ActionView::ForwardMessage { to_chat, from_chat, message_id },
            Action::SetReaction { chat_id, message_id } => ActionView::SetReaction {
                chat_id,
                message_id,
            },
        }
    }
}

/// What is still to be recorded once a forward has gone through: the user and
/// the message as numbered in the user's conversation.
#[derive(Clone, Copy, Debug, PartialEq, Eq, Structural)]
pub struct Pending {
    pub user_id: i64,
    pub dm_message_id: i64,
}

/// What is to be done about one event.
#[derive(Clone, Debug, PartialEq, Eq)]
pub enum Step {
    /// Nothing.
    Done,
    /// Perform the action; the event is then handled.
    Send(Action),
    /// Perform the action, a forward into the group, and record the message
    /// that it yields together with what is pending.
    Relay(Action, Pending),
}

/// A `Step` with its action viewed.
pub enum StepView {
    Done,
    Send(ActionView),
    Relay(ActionView, Pending),
}

impl View for Step {
    type V = StepView;

    open spec fn view(&self) -> StepView {
        match *self {
            Step::Done => StepView::Done,
            Step::Send(action) => StepView::Send(action@),
            Step::Relay(action, pending) => StepView::Relay(action@, pending),
        }
    }
}

/// Why an event could not be handled.
#[derive(Clone, Debug, PartialEq, Eq)]
pub enum RelayError {
    /// The store failed.
    Storage(StorageError),
    /// A ban named a message that has no correlation record. Nothing was
    /// written; the notice is for the chat that asked.
    UnknownTarget(Action),
}

/// A `RelayError` with its notice viewed.
pub enum RelayErrorView {
    Storage(StorageError),
    UnknownTarget(ActionView),
}

impl View for RelayError {
    type V = RelayErrorView;

    open spec fn view(&self) -> RelayErrorView {
        match *self {
            RelayError::Storage(error) => RelayErrorView::Storage(error),
            RelayError::UnknownTarget(notice) => RelayErrorView::UnknownTarget(notice@),
        }
    }
}

/// The view of what a handler returns.
pub open spec fn outcome_view(outcome: Result<Step, RelayError>) -> Result<
    StepView,
    RelayErrorView,
> {
    match outcome {
        Ok(step) => Ok(step@),
        Err(error) => Err(error@),
    }
}

/// A plain text for a chat.
pub open spec fn plain_text(chat_id: i64, text: Seq<char>) -> ActionView {
    ActionView::SendText { chat_id, text, bold: None }
}

/// The number of bytes that a text takes in UTF-8.
pub open spec fn byte_len(text: Seq<char>) -> nat {
    encode_utf8(text).len()
}

/// The answer to `/start`: the greeting, the sender's full name in bold, and
/// the invitation. The bold span is counted in bytes, each count cut to 32
/// bits.
pub open spec fn start_reply(message: &Message) -> ActionView {
    ActionView::SendText {
        chat_id: message.chat_id,
        text: GREETING@ + message.full_name() + INVITATION@,
        bold: Some(
            BoldSpan {
                offset: byte_len(GREETING@) as u32,
                length: byte_len(message.full_name()) as u32,
            },
        ),
    }
}

/// The answer to `/help`: the prefix and the chat's identifier.
pub open spec fn help_reply(message: &Message) -> ActionView {
    plain_text(message.chat_id, HELP_PREFIX@ + decimal_text(message.chat_id as int))
}

/// The name by which a banned user is reported: the display name or the first
/// name that the forward origin gives, else the user's identifier.
pub open spec fn target_name(origin: Option<Origin>, user_id: i64) -> Seq<char> {
    match origin {
        Some(Origin::HiddenUser { name }) => name@,
        Some(Origin::User { first_name }) => first_name@,
        _ => decimal_text(user_id as int),
    }
}

/// The report of a ban to the chat that asked for it.
pub open spec fn ban_report(chat_id: i64, origin: Option<Origin>, user_id: i64) -> ActionView {
    plain_text(chat_id, BANNED_PREFIX@ + target_name(origin, user_id))
}

/// The notice that the target of a ban is unknown.
pub open spec fn unknown_target_notice(chat_id: i64) -> ActionView {
    plain_text(chat_id, UNKNOWN_TARGET_NOTICE@)
}

/// The notice to a banned user.
pub open spec fn banned_notice(chat_id: i64) -> ActionView {
    plain_text(chat_id, BANNED_NOTICE@)
}

/// The notice to a user over the limit, given the time to wait as a text.
pub open spec fn timeout_notice(chat_id: i64, wait: Seq<char>) -> ActionView {
    plain_text(chat_id, TIMEOUT_PREFIX@ + wait)
}

/// The text that `Debug` writes for the `std::time::Duration` of the given
/// seconds and nanoseconds.
pub uninterp spec fn duration_debug_text(secs: u64, nanos: u32) -> Seq<char>;

/// Formats a `std::time::Duration`, made by `Duration::new` from the delay,
/// with `{:?}`. The result is that of `Debug` for `Duration`, which is a
/// function of the seconds and nanoseconds alone. With the nanoseconds under
/// one second, `Duration::new` carries nothing and cannot overflow.
#[verifier::external_body]
fn delay_text(delay: Delay) -> (text: String)
    requires
        delay.valid(),
    ensures
        text@ == duration_debug_text(delay.secs, delay.nanos),
{
    format!("{:?}", std::time::Duration::new(delay.secs, delay.nanos))
}

/// Builds a plain text for a chat.
pub fn send_plain(chat_id: i64, text: String) -> (action: Action)
    ensures
        action@ == plain_text(chat_id, text@),
{
    Action::SendText { chat_id, text, bold: None }
}

/// The number of bytes of a text, cut to 32 bits.
fn byte_count(text: &str) -> (count: u32)
    ensures
        count == byte_len(text@) as u32,
{
    #[verifier::truncate]
    (text.as_bytes().len() as u32)
}

/// Builds the answer to `/start`.
pub fn start(message: &Message) -> (action: Action)
    ensures
        action@ == start_reply(message),
{
    let mut text = String::from_str(GREETING);
    let offset = byte_count(GREETING);
    let length = match &message.sender {
        Some(user) => {
            text.append(user.full_name.as_str());
            byte_count(user.full_name.as_str())
        },
        None => 0,
    };
    text.append(INVITATION);
    Action::SendText { chat_id: message.chat_id, text, bold: Some(BoldSpan { offset, length }) }
}

/// Builds the answer to `/help`.
pub fn help(message: &Message) -> (action: Action)
    ensures
        action@ == help_reply(message),
{
    let text = String::from_str(HELP_PREFIX).concat(decimal(message.chat_id).as_str());
    send_plain(message.chat_id, text)
}

/// Builds the report of a ban for the chat that asked for it.
pub fn ban_reply(chat_id: i64, origin: &Option<Origin>, user_id: i64) -> (action: Action)
    ensures
        action@ == ban_report(chat_id, *origin, user_id),
{
    let mut text = String::from_str(BANNED_PREFIX);
    match origin {
        Some(Origin::HiddenUser { name }) => {
            text.append(name.as_str());
        },
        Some(Origin::User { first_name }) => {
            text.append(first_name.as_str());
        },
        _ => {
            text.append(decimal(user_id).as_str());
        },
    }
    send_plain(chat_id, text)
}

/// Builds the notice that the target of a ban is unknown.
pub fn unknown_target_reply(chat_id: i64) -> (action: Action)
    ensures
        action@ == unknown_target_notice(chat_id),
{
    send_plain(chat_id, String::from_str(UNKNOWN_TARGET_NOTICE))
}

/// Builds the notice to a banned user.
pub fn banned_reply(chat_id: i64) -> (action: Action)
    ensures
        action@ == banned_notice(chat_id),
{
    send_plain(chat_id, String::from_str(BANNED_NOTICE))
}

/// Builds the notice to a user over the limit from the time to wait, written
/// out.
pub fn timeout_reply(chat_id: i64, wait: &str) -> (action: Action)
    ensures
        action@ == timeout_notice(chat_id, wait@),
{
    send_plain(chat_id, String::from_str(TIMEOUT_PREFIX).concat(wait))
}

/// Builds the notice to a user over the limit: the time to wait is written as
/// `Debug` writes a `std::time::Duration`.
pub fn delay_reply(chat_id: i64, delay: Delay) -> (action: Action)
    requires
        delay.valid(),
    ensures
        action@ == timeout_notice(chat_id, duration_debug_text(delay.secs, delay.nanos)),
{
    let wait = delay_text(delay);
    timeout_reply(chat_id, wait.as_str())
}

} // verus!
