//! The dispatcher: classifies each inbound event and decides what the relay
//! does about it.
//!
//! Every event is handled on its own. Handling one event asks the store and
//! the limiter and yields at most one request to the transport. A forward
//! into the group is followed by `record_forward`, once the transport has
//! told which message the forward produced.

use crate::action::{
    ban_reply, ban_report, banned_notice, banned_reply, delay_reply, duration_debug_text, help,
    help_reply, outcome_view, start, start_reply, timeout_notice, unknown_target_notice,
    unknown_target_reply, Action, ActionView, Pending, RelayError, RelayErrorView, Step, StepView,
};
use crate::db::{get_from_message_id, insert_into, is_banned, InsertValues, StorageError};
use crate::event::{Message, Origin, Reaction, Update};
use crate::ratelimit::{asked_once, Delay, Limiter, Quota};
use vstd::prelude::*;

verus! {

/// The command that greets a user.
pub const START_COMMAND: &'static str = "/start";

/// The command that explains the bot.
pub const HELP_COMMAND: &'static str = "/help";

/// The command that bans the user behind a relayed message.
pub const BAN_COMMAND: &'static str = "/ban";

/// What the dispatcher is set up with: the group that user messages are
/// relayed into, and the limiter that admits them.
pub struct Relay {
    pub group_id: i64,
    pub limiter: Limiter,
}

/// The ways an event can go.
#[derive(Clone, Copy, Debug, PartialEq, Eq, Structural)]
pub enum Route {
    /// A reaction update: relayed to the user behind the message, if any.
    Reaction,
    /// The command `/start`, in any chat.
    Start,
    /// The command `/help`, in any chat.
    Help,
    /// The command `/ban`, in the group.
    Ban,
    /// Any other message in the group: relayed if it replies to a relayed
    /// message.
    GroupReply,
    /// Any other message in a private chat: relayed into the group.
    UserMessage,
    /// Everything else.
    Ignored,
}

/// The route of a message. A command that is not recognised where it stands
/// counts as no command. Private chats are those with a positive identifier.
pub open spec fn message_route(group_id: i64, message: &Message) -> Route {
    if message.has_command(START_COMMAND@) {
        Route::Start
    } else if message.has_command(HELP_COMMAND@) {
        Route::Help
    } else if message.chat_id == group_id {
        if message.has_command(BAN_COMMAND@) {
            Route::Ban
        } else {
            Route::GroupReply
        }
    } else if message.chat_id > 0 {
        Route::UserMessage
    } else {
        Route::Ignored
    }
}

/// The route of an event.
pub open spec fn route_of(group_id: i64, update: &Update) -> Route {
    match *update {
        Update::MessageReaction(_) => Route::Reaction,
        Update::Message(message) => message_route(group_id, &message),
        Update::Other => Route::Ignored,
    }
}

/// Classifies a message.
pub fn classify_message(group_id: i64, message: &Message) -> (route: Route)
    ensures
        route == message_route(group_id, message),
{
    if message.is_command(START_COMMAND) {
        Route::Start
    } else if message.is_command(HELP_COMMAND) {
        Route::Help
    } else if message.chat_id == group_id {
        if message.is_command(BAN_COMMAND) {
            Route::Ban
        } else {
            Route::GroupReply
        }
    } else if message.chat_id > 0 {
        Route::UserMessage
    } else {
        Route::Ignored
    }
}

/// Classifies an event. Every event has exactly one route.
pub fn classify(group_id: i64, update: &Update) -> (route: Route)
    ensures
        route == route_of(group_id, update),
{
    match update {
        Update::MessageReaction(_) => Route::Reaction,
        Update::Message(message) => classify_message(group_id, message),
        Update::Other => Route::Ignored,
    }
}

/// What the store may answer to a select or to a ban: its only failure is
/// `StorageError::IO`.
pub open spec fn without_conflict<T>(answer: Result<T, StorageError>) -> bool {
    answer matches Err(error) ==> error == StorageError::IO
}

/// What follows a reaction update, given the correlation record of the
/// message reacted to: with a record, the reaction is set on the user's own
/// message in the user's chat; without one, nothing is done.
pub open spec fn reaction_step(found: Option<(i64, i64)>) -> StepView {
    match found {
        Some((user_id, dm_message_id)) => StepView::Send(
            ActionView::SetReaction { chat_id: user_id, message_id: dm_message_id },
        ),
        None => StepView::Done,
    }
}

/// Decides what follows a reaction update.
pub fn reaction_decision(found: Option<(i64, i64)>) -> (step: Step)
    ensures
        step@ == reaction_step(found),
{
    match found {
        Some((user_id, dm_message_id)) => Step::Send(
            Action::SetReaction { chat_id: user_id, message_id: dm_message_id },
        ),
        None => Step::Done,
    }
}

/// What handling a reaction update returns for each answer of the store to
/// the lookup: the step that follows the record or its absence, and the
/// store's failure as the failure of the handling.
pub open spec fn reaction_result(looked_up: Result<Option<(i64, i64)>, StorageError>) -> Result<
    StepView,
    RelayErrorView,
> {
    match looked_up {
        Ok(found) => Ok(reaction_step(found)),
        Err(error) => Err(RelayErrorView::Storage(error)),
    }
}

/// Decides what `forward_reaction` returns once the lookup has run.
pub fn reaction_outcome(looked_up: Result<Option<(i64, i64)>, StorageError>) -> (res: Result<
    Step,
    RelayError,
>)
    ensures
        outcome_view(res) == reaction_result(looked_up),
{
    match looked_up {
        Ok(found) => Ok(reaction_decision(found)),
        Err(error) => Err(RelayError::Storage(error)),
    }
}

/// What `forward_reaction` may return: what `reaction_result` makes of some
/// answer of the store.
pub open spec fn reaction_handled(outcome: Result<StepView, RelayErrorView>) -> bool {
    exists|looked_up: Result<Option<(i64, i64)>, StorageError>|
        without_conflict(looked_up) && outcome == #[trigger] reaction_result(looked_up)
}

/// Relays a reaction update: looks up the message reacted to and, if it was
/// relayed, asks for the reaction on the user's own message. A failure of
/// the store is returned, not swallowed.
///
/// The record is the store's answer for the message reacted to, and
/// `reaction_result` says what is returned for each answer.
pub fn forward_reaction(db: &sqlite::ConnectionThreadSafe, reaction: &Reaction) -> (res: Result<
    Step,
    RelayError,
>)
    ensures
        reaction_handled(outcome_view(res)),
{
    let looked_up = get_from_message_id(db, reaction.message_id);
    reaction_outcome(looked_up)
}

/// What follows a message in the group, given the correlation record of the
/// message it replies to. A message from a bot is never relayed, whatever the
/// store holds. A reply to a relayed message is copied to the user behind
/// that message. Anything else is dropped.
pub open spec fn group_reply_step(
    group_id: i64,
    message: &Message,
    found: Option<(i64, i64)>,
) -> StepView {
    if message.from_bot() || message.replied() is None {
        StepView::Done
    } else {
        match found {
            Some((user_id, _)) => StepView::Send(
                ActionView::CopyMessage {
                    to_chat: user_id,
                    from_chat: group_id,
                    message_id: message.id,
                },
            ),
            None => StepView::Done,
        }
    }
}

/// Decides what follows a message in the group.
pub fn group_reply_decision(group_id: i64, message: &Message, found: Option<(i64, i64)>) -> (step:
    Step)
    ensures
        step@ == group_reply_step(group_id, message, found),
{
    if message.is_from_bot() || message.replied_message().is_none() {
        return Step::Done;
    }
    match found {
        Some((user_id, _)) => Step::Send(
            Action::CopyMessage { to_chat: user_id, from_chat: group_id, message_id: message.id },
        ),
        None => Step::Done,
    }
}

/// What handling a message in the group returns for each answer of the store
/// to the lookup. A message from a bot, or one that replies to no message, is
/// dropped whatever the store answers, a failure included: the store is not
/// asked. For any other message, the step follows the record or its absence,
/// and the store's failure is the failure of the handling.
pub open spec fn group_reply_result(
    group_id: i64,
    message: &Message,
    looked_up: Result<Option<(i64, i64)>, StorageError>,
) -> Result<StepView, RelayErrorView> {
    if message.from_bot() || message.replied() is None {
        Ok(StepView::Done)
    } else {
        match looked_up {
            Ok(found) => Ok(group_reply_step(group_id, message, found)),
            Err(error) => Err(RelayErrorView::Storage(error)),
        }
    }
}

/// Decides what `group_forward` returns once the lookup has run.
pub fn group_reply_outcome(
    group_id: i64,
    message: &Message,
    looked_up: Result<Option<(i64, i64)>, StorageError>,
) -> (res: Result<Step, RelayError>)
    ensures
        outcome_view(res) == group_reply_result(group_id, message, looked_up),
{
    if message.is_from_bot() || message.replied_message().is_none() {
        return Ok(Step::Done);
    }
    match looked_up {
        Ok(found) => Ok(group_reply_decision(group_id, message, found)),
        Err(error) => Err(RelayError::Storage(error)),
    }
}

/// What `group_forward` may return: what `group_reply_result` makes of some
/// answer of the store. Where the message is from a bot or replies to no
/// message, that is `Ok(Done)` and nothing else.
pub open spec fn group_reply_handled(
    group_id: i64,
    message: &Message,
    outcome: Result<StepView, RelayErrorView>,
) -> bool {
    exists|looked_up: Result<Option<(i64, i64)>, StorageError>|
        without_conflict(looked_up) && outcome == #[trigger] group_reply_result(
            group_id,
            message,
            looked_up,
        )
}

/// Relays a reply in the group to the user behind the message replied to. A
/// failure of the store is returned, not swallowed.
///
/// The record is the store's answer for the message replied to, and
/// `group_reply_result` says what is returned for each answer.
pub fn group_forward(db: &sqlite::ConnectionThreadSafe, group_id: i64, message: &Message) -> (res:
    Result<Step, RelayError>)
    ensures
        group_reply_handled(group_id, message, outcome_view(res)),
{
    if message.is_from_bot() {
        assert(outcome_view(Ok(Step::Done)) == group_reply_result(group_id, message, Ok(None)));
        return Ok(Step::Done);
    }
    let replied = match message.replied_message() {
        Some(replied) => replied,
        None => {
            assert(outcome_view(Ok(Step::Done)) == group_reply_result(
                group_id,
                message,
                Ok(None),
            ));
            return Ok(Step::Done);
        },
    };
    let looked_up = get_from_message_id(db, replied.id);
    group_reply_outcome(group_id, message, looked_up)
}

/// Whom a ban is for, given the correlation record of the message that the
/// command replies to: the user behind it. Without a record the ban fails,
/// with a notice for the chat that asked.
pub open spec fn ban_verdict(chat_id: i64, found: Option<(i64, i64)>) -> Result<
    i64,
    RelayErrorView,
> {
    match found {
        Some((user_id, _)) => Ok(user_id),
        None => Err(RelayErrorView::UnknownTarget(unknown_target_notice(chat_id))),
    }
}

/// Decides whom a ban is for.
pub fn ban_decision(chat_id: i64, found: Option<(i64, i64)>) -> (res: Result<i64, RelayError>)
    ensures
        match res {
            Ok(user_id) => ban_verdict(chat_id, found) == Ok::<i64, RelayErrorView>(user_id),
            Err(error) => ban_verdict(chat_id, found) == Err::<i64, RelayErrorView>(error@),
        },
{
    match found {
        Some((user_id, _)) => Ok(user_id),
        None => Err(RelayError::UnknownTarget(unknown_target_reply(chat_id))),
    }
}

/// Whom a ban is for, for each answer of the store to the lookup: the verdict
/// on the record or its absence, and the store's failure as the failure of
/// the ban.
pub open spec fn ban_target_result(
    chat_id: i64,
    looked_up: Result<Option<(i64, i64)>, StorageError>,
) -> Result<i64, RelayErrorView> {
    match looked_up {
        Ok(found) => ban_verdict(chat_id, found),
        Err(error) => Err(RelayErrorView::Storage(error)),
    }
}

/// Decides whom a ban is for once the lookup has run.
pub fn ban_target_outcome(
    chat_id: i64,
    looked_up: Result<Option<(i64, i64)>, StorageError>,
) -> (res: Result<i64, RelayError>)
    ensures
        match res {
            Ok(user_id) => ban_target_result(chat_id, looked_up) == Ok::<i64, RelayErrorView>(
                user_id,
            ),
            Err(error) => ban_target_result(chat_id, looked_up) == Err::<i64, RelayErrorView>(
                error@,
            ),
        },
{
    match looked_up {
        Ok(found) => ban_decision(chat_id, found),
        Err(error) => Err(RelayError::Storage(error)),
    }
}

/// What a ban returns for each answer of the store to the write: the report
/// of the ban where the write went through, and the store's failure as the
/// failure of the ban.
pub open spec fn ban_report_result(
    chat_id: i64,
    origin: Option<Origin>,
    user_id: i64,
    written: Result<(), StorageError>,
) -> Result<StepView, RelayErrorView> {
    match written {
        Ok(()) => Ok(StepView::Send(ban_report(chat_id, origin, user_id))),
        Err(error) => Err(RelayErrorView::Storage(error)),
    }
}

/// Decides what `ban` returns once the write has run.
pub fn ban_report_outcome(
    chat_id: i64,
    origin: &Option<Origin>,
    user_id: i64,
    written: Result<(), StorageError>,
) -> (res: Result<Step, RelayError>)
    ensures
        outcome_view(res) == ban_report_result(chat_id, *origin, user_id, written),
{
    match written {
        Ok(()) => Ok(Step::Send(ban_reply(chat_id, origin, user_id))),
        Err(error) => Err(RelayError::Storage(error)),
    }
}

/// What handling the command `/ban` returns for each pair of answers of the
/// store, to the lookup and to the write. A command that replies to no
/// message does nothing, whatever the answers. Otherwise the lookup decides
/// whom the ban is for, and where it names nobody or fails, the write is not
/// made and its answer counts for nothing.
pub open spec fn ban_command_result(
    message: &Message,
    looked_up: Result<Option<(i64, i64)>, StorageError>,
    written: Result<(), StorageError>,
) -> Result<StepView, RelayErrorView> {
    match message.replied() {
        None => Ok(StepView::Done),
        Some(replied) => match ban_target_result(message.chat_id, looked_up) {
            Ok(user_id) => ban_report_result(message.chat_id, replied.origin, user_id, written),
            Err(error) => Err(error),
        },
    }
}

/// What follows the command `/ban` once the store has answered the lookup:
/// what `ban_command_result` makes of that answer and of some answer of the
/// store to the write.
pub open spec fn looked_up_ban_handled(
    message: &Message,
    looked_up: Result<Option<(i64, i64)>, StorageError>,
    outcome: Result<StepView, RelayErrorView>,
) -> bool {
    exists|written: Result<(), StorageError>|
        without_conflict(written) && outcome == #[trigger] ban_command_result(
            message,
            looked_up,
            written,
        )
}

/// Goes on with the command `/ban` once the store has answered the lookup:
/// ends the handling where the lookup failed or found no record, and bans
/// the user behind the record where it found one.
pub fn ban_looked_up(
    db: &sqlite::ConnectionThreadSafe,
    message: &Message,
    looked_up: Result<Option<(i64, i64)>, StorageError>,
) -> (res: Result<Step, RelayError>)
    ensures
        looked_up_ban_handled(message, looked_up, outcome_view(res)),
{
    let replied = match message.replied_message() {
        Some(replied) => replied,
        None => {
            assert(outcome_view(Ok(Step::Done)) == ban_command_result(message, looked_up, Ok(())));
            return Ok(Step::Done);
        },
    };
    let user_id = match ban_target_outcome(message.chat_id, looked_up) {
        Ok(user_id) => user_id,
        Err(error) => {
            assert(outcome_view(Err(error)) == ban_command_result(message, looked_up, Ok(())));
            return Err(error);
        },
    };
    let written = crate::db::ban(db, user_id);
    let res = ban_report_outcome(message.chat_id, &replied.origin, user_id, written);
    assert(outcome_view(res) == ban_command_result(message, looked_up, written));
    res
}

/// What `ban` may return: what follows some answer of the store to the
/// lookup, as `looked_up_ban_handled` has it.
pub open spec fn ban_handled(message: &Message, outcome: Result<StepView, RelayErrorView>) -> bool {
    exists|looked_up: Result<Option<(i64, i64)>, StorageError>|
        without_conflict(looked_up) && #[trigger] looked_up_ban_handled(
            message,
            looked_up,
            outcome,
        )
}

/// Bans the user behind the message that the command replies to. The user is
/// found through the correlation record of that message. Without a record the
/// ban table is not touched. A failure of the store, in the lookup or in the
/// write, is returned, not swallowed.
///
/// The record and the outcome of the write are the store's, and
/// `ban_command_result` says what is returned for each pair of them.
pub fn ban(db: &sqlite::ConnectionThreadSafe, message: &Message) -> (res: Result<Step, RelayError>)
    ensures
        ban_handled(message, outcome_view(res)),
{
    let replied = match message.replied_message() {
        Some(replied) => replied,
        None => {
            assert(looked_up_ban_handled(message, Ok(None), outcome_view(Ok(Step::Done)))) by {
                assert(outcome_view(Ok(Step::Done)) == ban_command_result(
                    message,
                    Ok(None),
                    Ok(()),
                ));
            }
            return Ok(Step::Done);
        },
    };
    let looked_up = get_from_message_id(db, replied.id);
    ban_looked_up(db, message, looked_up)
}

/// What the ban registry's answer means for a user's message: a banned user
/// is told so and the handling stops there; for anyone else it goes on.
pub open spec fn ban_check_step(message: &Message, banned: bool) -> Option<StepView> {
    if banned {
        Some(StepView::Send(banned_notice(message.chat_id)))
    } else {
        None
    }
}

/// Decides whether the handling of a user's message stops at the ban check,
/// and with what step.
pub fn ban_check_decision(message: &Message, banned: bool) -> (stop: Option<Step>)
    ensures
        match stop {
            Some(step) => ban_check_step(message, banned) == Some(step@),
            None => ban_check_step(message, banned) is None,
        },
{
    if banned {
        Some(Step::Send(banned_reply(message.chat_id)))
    } else {
        None
    }
}

/// The forward of a user's message into the group.
pub open spec fn forward_into_group(group_id: i64, message: &Message) -> ActionView {
    ActionView::ForwardMessage {
        to_chat: group_id,
        from_chat: message.chat_id,
        message_id: message.id,
    }
}

/// What is to be recorded once that forward has gone through.
pub open spec fn pending_of(message: &Message) -> Pending {
    Pending { user_id: message.chat_id, dm_message_id: message.id }
}

/// What follows the limiter's answer for a user who is not banned, with the
/// user and the message that are pending: an admitted message is forwarded
/// from the user's chat into the group and is to be recorded; one over the
/// limit is not forwarded, and the user is told how long to wait.
pub open spec fn admission_of(group_id: i64, pending: Pending, admitted: Result<(), Delay>) -> StepView {
    match admitted {
        Ok(()) => StepView::Relay(
            ActionView::ForwardMessage {
                to_chat: group_id,
                from_chat: pending.user_id,
                message_id: pending.dm_message_id,
            },
            pending,
        ),
        Err(delay) => StepView::Send(
            timeout_notice(pending.user_id, duration_debug_text(delay.secs, delay.nanos)),
        ),
    }
}

/// Decides what follows the limiter's answer for a user who is not banned.
pub fn admission_for(group_id: i64, pending: Pending, admitted: Result<(), Delay>) -> (step: Step)
    requires
        admitted matches Err(delay) ==> delay.valid(),
    ensures
        step@ == admission_of(group_id, pending, admitted),
{
    match admitted {
        Ok(()) => Step::Relay(
            Action::ForwardMessage {
                to_chat: group_id,
                from_chat: pending.user_id,
                message_id: pending.dm_message_id,
            },
            pending,
        ),
        Err(delay) => Step::Send(delay_reply(pending.user_id, delay)),
    }
}

/// What follows a message of a user who is not banned, given the limiter's
/// answer: an admitted message is forwarded into the group and recorded;
/// one over the limit is not forwarded, and the user is told how long to
/// wait.
pub open spec fn admission_step(
    group_id: i64,
    message: &Message,
    admitted: Result<(), Delay>,
) -> StepView {
    admission_of(group_id, pending_of(message), admitted)
}

/// Decides what follows a message of a user who is not banned.
pub fn admission_decision(group_id: i64, message: &Message, admitted: Result<(), Delay>) -> (step:
    Step)
    requires
        admitted matches Err(delay) ==> delay.valid(),
    ensures
        step@ == admission_step(group_id, message, admitted),
{
    admission_for(
        group_id,
        Pending { user_id: message.chat_id, dm_message_id: message.id },
        admitted,
    )
}

/// Where the handling of a user's message ends at the ban check, for each
/// answer of the ban registry: in the registry's failure, or in the notice to
/// a banned user. `None` where the user is not banned: the handling goes on
/// to the limiter.
pub open spec fn ban_check_result(message: &Message, checked: Result<bool, StorageError>) -> Option<
    Result<StepView, RelayErrorView>,
> {
    match checked {
        Err(error) => Some(Err(RelayErrorView::Storage(error))),
        Ok(banned) => match ban_check_step(message, banned) {
            Some(step) => Some(Ok(step)),
            None => None,
        },
    }
}

/// Decides where the handling of a user's message stands once the ban
/// registry has answered.
pub fn ban_check_outcome(message: &Message, checked: Result<bool, StorageError>) -> (stop: Option<
    Result<Step, RelayError>,
>)
    ensures
        match stop {
            Some(res) => ban_check_result(message, checked) == Some(outcome_view(res)),
            None => ban_check_result(message, checked) is None,
        },
{
    match checked {
        Err(error) => Some(Err(RelayError::Storage(error))),
        Ok(banned) => match ban_check_decision(message, banned) {
            Some(step) => Some(Ok(step)),
            None => None,
        },
    }
}

/// What handling a user's message returns for each answer of the ban
/// registry and of the limiter. Where the handling ends at the ban check, the
/// limiter's answer counts for nothing: a banned user gets the ban notice and
/// nothing is forwarded, and the registry's failure is the failure of the
/// handling. For anyone else the step follows the limiter's answer.
pub open spec fn user_message_result(
    group_id: i64,
    message: &Message,
    checked: Result<bool, StorageError>,
    admitted: Result<(), Delay>,
) -> Result<StepView, RelayErrorView> {
    match ban_check_result(message, checked) {
        Some(res) => res,
        None => Ok(admission_step(group_id, message, admitted)),
    }
}

/// What follows a user's message once the ban registry has answered, and
/// what it does to the limiter: what `user_message_result` makes of that
/// answer and of some answer of the limiter. The limiter is asked only where
/// the handling does not end at the ban check, and then once and for this
/// user, as `asked_once` has it: it admits while the user has a token left,
/// takes tokens from nobody else, and names a wait that is not zero where it
/// refuses. Otherwise the limiter is left alone.
pub open spec fn checked_message_handled(
    group_id: i64,
    message: &Message,
    checked: Result<bool, StorageError>,
    before: Limiter,
    after: Limiter,
    outcome: Result<StepView, RelayErrorView>,
) -> bool {
    exists|admitted: Result<(), Delay>|
        {
            &&& outcome == #[trigger] user_message_result(group_id, message, checked, admitted)
            &&& if ban_check_result(message, checked) is None {
                asked_once(before, after, message.chat_id, admitted)
            } else {
                after == before
            }
        }
}

/// Goes on with a user's message once the ban registry has answered: ends
/// the handling where the registry failed or the user is banned, and asks the
/// limiter where not.
pub fn user_forward_checked(
    limiter: &mut Limiter,
    group_id: i64,
    message: &Message,
    checked: Result<bool, StorageError>,
) -> (res: Result<Step, RelayError>)
    ensures
        checked_message_handled(
            group_id,
            message,
            checked,
            *old(limiter),
            *final(limiter),
            outcome_view(res),
        ),
{
    match ban_check_outcome(message, checked) {
        Some(res) => {
            assert(outcome_view(res) == user_message_result(group_id, message, checked, Ok(())));
            res
        },
        None => {
            let admitted = limiter.wait(message.chat_id);
            let step = admission_decision(group_id, message, admitted);
            assert(outcome_view(Ok(step)) == user_message_result(
                group_id,
                message,
                checked,
                admitted,
            ));
            Ok(step)
        },
    }
}

/// What `user_forward` may return, and what it may do to the limiter: what
/// follows some answer of the ban registry, as `checked_message_handled` has
/// it.
pub open spec fn user_message_handled(
    group_id: i64,
    message: &Message,
    before: Limiter,
    after: Limiter,
    outcome: Result<StepView, RelayErrorView>,
) -> bool {
    exists|checked: Result<bool, StorageError>|
        without_conflict(checked) && #[trigger] checked_message_handled(
            group_id,
            message,
            checked,
            before,
            after,
            outcome,
        )
}

/// Relays a user's message into the group, unless the user is banned or over
/// the limit. The ban registry is asked first. A failure of the store is
/// returned, not swallowed.
///
/// The answers are the store's and the limiter's, and `user_message_result`
/// says what is returned for each pair of them.
pub fn user_forward(
    db: &sqlite::ConnectionThreadSafe,
    limiter: &mut Limiter,
    group_id: i64,
    message: &Message,
) -> (res: Result<Step, RelayError>)
    ensures
        user_message_handled(group_id, message, *old(limiter), *final(limiter), outcome_view(res)),
{
    let checked = is_banned(db, message.chat_id);
    user_forward_checked(limiter, group_id, message, checked)
}

/// The row that completes a relay: the message that the forward produced in
/// the group, with the user and the user's own message.
pub open spec fn relayed_row(pending: Pending, group_message_id: i64) -> InsertValues {
    InsertValues {
        message_id: group_message_id,
        user_id: pending.user_id,
        dm_message_id: pending.dm_message_id,
    }
}

/// Builds the row that completes a relay.
pub fn relayed(pending: Pending, group_message_id: i64) -> (values: InsertValues)
    ensures
        values == relayed_row(pending, group_message_id),
{
    InsertValues {
        message_id: group_message_id,
        user_id: pending.user_id,
        dm_message_id: pending.dm_message_id,
    }
}

/// What completing a relay returns for each result of the insert: success as
/// it is, and a failure of the store as the failure of the relay.
pub open spec fn recorded(inserted: Result<(), StorageError>) -> Result<(), RelayErrorView> {
    match inserted {
        Ok(()) => Ok(()),
        Err(error) => Err(RelayErrorView::Storage(error)),
    }
}

/// Decides what `record_forward` returns once the insert has run.
pub fn record_outcome(inserted: Result<(), StorageError>) -> (res: Result<(), RelayError>)
    ensures
        match res {
            Ok(()) => recorded(inserted) == Ok::<(), RelayErrorView>(()),
            Err(error) => recorded(inserted) == Err::<(), RelayErrorView>(error@),
        },
{
    match inserted {
        Ok(()) => Ok(()),
        Err(error) => Err(RelayError::Storage(error)),
    }
}

/// Completes a relay: records the message that the forward produced in the
/// group. To be called once for each `Step::Relay` whose forward went
/// through.
///
/// The outcome is the store's: the row is that of `relayed`, and `recorded`
/// says what is returned for each result of inserting it. Whatever that is,
/// an error is a failure of the store.
pub fn record_forward(
    db: &sqlite::ConnectionThreadSafe,
    pending: Pending,
    group_message_id: i64,
) -> (res: Result<(), RelayError>)
    ensures
        res matches Err(error) ==> error@ is Storage,
{
    record_outcome(insert_into(db, relayed(pending, group_message_id)))
}

/// What handling an event may return, and what it may do to the limiter.
/// Only a user's message that is not a command reaches the limiter.
pub open spec fn handled(
    group_id: i64,
    update: &Update,
    before: Limiter,
    after: Limiter,
    outcome: Result<StepView, RelayErrorView>,
) -> bool {
    match *update {
        Update::MessageReaction(_) => after == before && reaction_handled(outcome),
        Update::Other => after == before && outcome == Ok::<StepView, RelayErrorView>(
            StepView::Done,
        ),
        Update::Message(message) => match message_route(group_id, &message) {
            Route::Start => after == before && outcome == Ok::<StepView, RelayErrorView>(
                StepView::Send(start_reply(&message)),
            ),
            Route::Help => after == before && outcome == Ok::<StepView, RelayErrorView>(
                StepView::Send(help_reply(&message)),
            ),
            Route::Ban => after == before && ban_handled(&message, outcome),
            Route::GroupReply => after == before && group_reply_handled(
                group_id,
                &message,
                outcome,
            ),
            Route::UserMessage => user_message_handled(group_id, &message, before, after, outcome),
            _ => after == before && outcome == Ok::<StepView, RelayErrorView>(StepView::Done),
        },
    }
}

/// Where the handling of an event stands once the store has been asked and
/// before the limiter is.
#[derive(Debug, PartialEq, Eq)]
pub enum Begun {
    /// The handling has ended with this result. The limiter is not asked.
    Ended(Result<Step, RelayError>),
    /// The event is the message of a user who is not banned: the limiter is
    /// to be asked for that user, and the message is forwarded if admitted.
    Unbanned(Pending),
}

/// A `Begun` with its result viewed.
pub enum BegunView {
    Ended(Result<StepView, RelayErrorView>),
    Unbanned(Pending),
}

impl View for Begun {
    type V = BegunView;

    open spec fn view(&self) -> BegunView {
        match *self {
            Begun::Ended(res) => BegunView::Ended(outcome_view(res)),
            Begun::Unbanned(pending) => BegunView::Unbanned(pending),
        }
    }
}

/// Where the handling of a user's message stands for each answer of the ban
/// registry: ended in the registry's failure or in the notice to a banned
/// user, or waiting for the limiter.
pub open spec fn checked_begun(message: &Message, checked: Result<bool, StorageError>) -> BegunView {
    match ban_check_result(message, checked) {
        Some(res) => BegunView::Ended(res),
        None => BegunView::Unbanned(pending_of(message)),
    }
}

/// What `begin_update` may return. On every route but that of a user's
/// message the handling ends, with what the route's handler may return. A
/// user's message stands where `checked_begun` puts it for some answer of the
/// ban registry.
pub open spec fn begun(group_id: i64, update: &Update, begun: BegunView) -> bool {
    match *update {
        Update::MessageReaction(_) => begun matches BegunView::Ended(outcome) && reaction_handled(
            outcome,
        ),
        Update::Other => begun == BegunView::Ended(Ok(StepView::Done)),
        Update::Message(message) => match message_route(group_id, &message) {
            Route::Start => begun == BegunView::Ended(Ok(StepView::Send(start_reply(&message)))),
            Route::Help => begun == BegunView::Ended(Ok(StepView::Send(help_reply(&message)))),
            Route::Ban => begun matches BegunView::Ended(outcome) && ban_handled(
                &message,
                outcome,
            ),
            Route::GroupReply => begun matches BegunView::Ended(outcome) && group_reply_handled(
                group_id,
                &message,
                outcome,
            ),
            Route::UserMessage => exists|checked: Result<bool, StorageError>|
                without_conflict(checked) && begun == #[trigger] checked_begun(&message, checked),
            _ => begun == BegunView::Ended(Ok(StepView::Done)),
        },
    }
}

/// Begins the handling of one event: classifies it, takes its route, and asks
/// the store what the route needs. The limiter is not touched, so a caller
/// that shares one need not hold it while the store is asked.
pub fn begin_update(group_id: i64, db: &sqlite::ConnectionThreadSafe, update: &Update) -> (res:
    Begun)
    ensures
        begun(group_id, update, res@),
{
    match update {
        Update::MessageReaction(reaction) => Begun::Ended(forward_reaction(db, reaction)),
        Update::Other => Begun::Ended(Ok(Step::Done)),
        Update::Message(message) => match classify_message(group_id, message) {
            Route::Start => Begun::Ended(Ok(Step::Send(start(message)))),
            Route::Help => Begun::Ended(Ok(Step::Send(help(message)))),
            Route::Ban => Begun::Ended(ban(db, message)),
            Route::GroupReply => Begun::Ended(group_forward(db, group_id, message)),
            Route::UserMessage => {
                let checked = is_banned(db, message.chat_id);
                let res = match ban_check_outcome(message, checked) {
                    Some(res) => Begun::Ended(res),
                    None => Begun::Unbanned(
                        Pending { user_id: message.chat_id, dm_message_id: message.id },
                    ),
                };
                assert(res@ == checked_begun(message, checked));
                res
            },
            _ => Begun::Ended(Ok(Step::Done)),
        },
    }
}

/// What `finish_update` may return, and what it may do to the limiter. A
/// handling that has ended returns its result and leaves the limiter alone.
/// For the message of a user who is not banned the limiter is asked once, for
/// that user, as `asked_once` has it, and the step follows its answer.
pub open spec fn finished(
    group_id: i64,
    begun: BegunView,
    before: Limiter,
    after: Limiter,
    outcome: Result<StepView, RelayErrorView>,
) -> bool {
    match begun {
        BegunView::Ended(res) => outcome == res && after == before,
        BegunView::Unbanned(pending) => exists|admitted: Result<(), Delay>|
            {
                &&& outcome == Ok::<StepView, RelayErrorView>(
                    #[trigger] admission_of(group_id, pending, admitted),
                )
                &&& asked_once(before, after, pending.user_id, admitted)
            },
    }
}

/// Finishes the handling of one event that `begin_update` began: asks the
/// limiter where the handling waits for it. No store is asked, so the limiter
/// is held for the time of its own answer alone.
pub fn finish_update(limiter: &mut Limiter, group_id: i64, begun: Begun) -> (res: Result<
    Step,
    RelayError,
>)
    ensures
        finished(group_id, begun@, *old(limiter), *final(limiter), outcome_view(res)),
{
    match begun {
        Begun::Ended(res) => res,
        Begun::Unbanned(pending) => {
            let admitted = limiter.wait(pending.user_id);
            let step = admission_for(group_id, pending, admitted);
            assert(outcome_view(Ok(step)) == Ok::<StepView, RelayErrorView>(
                admission_of(group_id, pending, admitted),
            ));
            Ok(step)
        },
    }
}

/// Beginning and finishing is handling: what `finish_update` makes of what
/// `begin_update` returned for an event is what `handle_updates` may return
/// for it.
pub proof fn begun_and_finished_is_handled(
    group_id: i64,
    update: Update,
    stage: BegunView,
    before: Limiter,
    after: Limiter,
    outcome: Result<StepView, RelayErrorView>,
)
    requires
        begun(group_id, &update, stage),
        finished(group_id, stage, before, after, outcome),
    ensures
        handled(group_id, &update, before, after, outcome),
{
    if let Update::Message(message) = update {
        if message_route(group_id, &message) == Route::UserMessage {
            let checked = choose|checked: Result<bool, StorageError>|
                without_conflict(checked) && stage == #[trigger] checked_begun(&message, checked);
            match stage {
                BegunView::Ended(res) => {
                    assert(outcome == user_message_result(group_id, &message, checked, Ok(())));
                },
                BegunView::Unbanned(pending) => {
                    let admitted = choose|admitted: Result<(), Delay>|
                        {
                            &&& outcome == Ok::<StepView, RelayErrorView>(
                                #[trigger] admission_of(group_id, pending, admitted),
                            )
                            &&& asked_once(before, after, pending.user_id, admitted)
                        };
                    assert(outcome == user_message_result(group_id, &message, checked, admitted));
                },
            }
            assert(checked_message_handled(group_id, &message, checked, before, after, outcome));
        }
    }
}

/// Handles one event: classifies it, takes its route, asks the store what the
/// route needs, and asks the limiter where the event is the message of a user
/// who is not banned.
pub fn handle_updates(relay: &mut Relay, db: &sqlite::ConnectionThreadSafe, update: &Update) -> (res:
    Result<Step, RelayError>)
    ensures
        final(relay).group_id == old(relay).group_id,
        handled(
            old(relay).group_id,
            update,
            old(relay).limiter,
            final(relay).limiter,
            outcome_view(res),
        ),
{
    let stage = begin_update(relay.group_id, db, update);
    let ghost stage_view = stage@;
    let res = finish_update(&mut relay.limiter, relay.group_id, stage);
    proof {
        begun_and_finished_is_handled(
            relay.group_id,
            *update,
            stage_view,
            old(relay).limiter,
            relay.limiter,
            outcome_view(res),
        );
    }
    res
}

/// The request to the transport that an outcome carries, if it carries one.
pub open spec fn requested(outcome: Result<StepView, RelayErrorView>) -> Option<ActionView> {
    match outcome {
        Ok(StepView::Done) => None,
        Ok(StepView::Send(action)) => Some(action),
        Ok(StepView::Relay(action, _)) => Some(action),
        Err(RelayErrorView::Storage(_)) => None,
        Err(RelayErrorView::UnknownTarget(notice)) => Some(notice),
    }
}

/// A message in the group that a bot sent leads to no request at all,
/// whatever correlation record the store may hold for the message it replies
/// to.
pub proof fn bot_reply_is_dropped(group_id: i64, message: Message, found: Option<(i64, i64)>)
    requires
        message.from_bot(),
    ensures
        group_reply_step(group_id, &message, found) == StepView::Done,
{
}

/// No handling of a message that a bot sent, in any chat and on any route,
/// asks the transport to copy a message.
pub proof fn bot_message_is_never_copied(
    group_id: i64,
    message: Message,
    before: Limiter,
    after: Limiter,
    outcome: Result<StepView, RelayErrorView>,
)
    requires
        message.from_bot(),
        handled(group_id, &Update::Message(message), before, after, outcome),
    ensures
        !(requested(outcome) matches Some(action) && action is CopyMessage),
{
}

/// The command `/start` is always answered with the greeting, in whatever
/// chat it is sent and whatever the store and the limiter hold: the outcome
/// is one value, the limiter is not asked, and nothing is forwarded.
pub proof fn start_is_answered(
    group_id: i64,
    message: Message,
    before: Limiter,
    after: Limiter,
    outcome: Result<StepView, RelayErrorView>,
)
    requires
        message.has_command(START_COMMAND@),
        handled(group_id, &Update::Message(message), before, after, outcome),
    ensures
        outcome == Ok::<StepView, RelayErrorView>(StepView::Send(start_reply(&message))),
        requested(outcome) == Some(start_reply(&message)),
        !(start_reply(&message) is ForwardMessage),
        after == before,
{
}

/// A reaction to a message without a correlation record leads to no request.
pub proof fn unmapped_reaction_is_dropped()
    ensures
        reaction_step(None) == StepView::Done,
        requested(Ok(reaction_step(None))) is None,
{
}

/// Only a message in a private chat that carries no recognised command ever
/// reaches the limiter: on every other event the limiter stays as it was.
pub proof fn limiter_is_for_user_messages(
    group_id: i64,
    update: Update,
    before: Limiter,
    after: Limiter,
    outcome: Result<StepView, RelayErrorView>,
)
    requires
        handled(group_id, &update, before, after, outcome),
        route_of(group_id, &update) != Route::UserMessage,
    ensures
        after == before,
{
}

/// A forward into the group is asked for only on the route of a user's
/// message, and then it forwards that very message from the user's chat into
/// the group, with the user and the message pending to be recorded.
pub proof fn forward_is_for_user_messages(
    group_id: i64,
    update: Update,
    before: Limiter,
    after: Limiter,
    outcome: Result<StepView, RelayErrorView>,
)
    requires
        handled(group_id, &update, before, after, outcome),
        requested(outcome) matches Some(action) && action is ForwardMessage,
    ensures
        route_of(group_id, &update) == Route::UserMessage,
        update matches Update::Message(message) && outcome == Ok::<StepView, RelayErrorView>(
            StepView::Relay(forward_into_group(group_id, &message), pending_of(&message)),
        ),
{
}

/// A relayed message is answered to its sender. Let a user's message be
/// forwarded and its row be written under the message that the forward
/// produced. Where the store then answers a lookup with that row, a reply to
/// the forwarded message by anyone but a bot is copied to the chat the message
/// came from, and a reaction to it is set on the user's own message there.
pub proof fn relayed_message_is_answered_to_its_sender(
    group_id: i64,
    sent: Message,
    group_message_id: i64,
    answer: Message,
)
    requires
        !answer.from_bot(),
        answer.replied() is Some,
    ensures
        ({
            let row = relayed_row(pending_of(&sent), group_message_id);
            let found = Some((row.user_id, row.dm_message_id));
            &&& row.message_id == group_message_id
            &&& group_reply_step(group_id, &answer, found) == StepView::Send(
                ActionView::CopyMessage {
                    to_chat: sent.chat_id,
                    from_chat: group_id,
                    message_id: answer.id,
                },
            )
            &&& reaction_step(found) == StepView::Send(
                ActionView::SetReaction { chat_id: sent.chat_id, message_id: sent.id },
            )
        }),
{
}

/// A banned user is told so and nothing is forwarded: where the ban registry
/// answers that the user is banned, the handling of the user's message ends
/// in the ban notice, whatever the limiter would have answered.
pub proof fn banned_user_is_told_and_not_forwarded(
    group_id: i64,
    message: Message,
    admitted: Result<(), Delay>,
)
    ensures
        user_message_result(group_id, &message, Ok(true), admitted) == Ok::<
            StepView,
            RelayErrorView,
        >(StepView::Send(banned_notice(message.chat_id))),
        requested(user_message_result(group_id, &message, Ok(true), admitted)) == Some(
            banned_notice(message.chat_id),
        ),
        !(banned_notice(message.chat_id) is ForwardMessage),
{
}

/// A user who is not banned gets no ban notice: where the ban registry
/// answers that the user is not banned, the step follows the limiter's
/// answer.
pub proof fn unbanned_user_goes_on_to_the_limiter(
    group_id: i64,
    message: Message,
    admitted: Result<(), Delay>,
)
    ensures
        user_message_result(group_id, &message, Ok(false), admitted) == Ok::<
            StepView,
            RelayErrorView,
        >(admission_step(group_id, &message, admitted)),
{
}

/// A failure of the store is returned, not swallowed, and ends the handling
/// without a request to the transport. This holds of the lookup behind a
/// reaction, of the lookup behind a reply in the group that is to be
/// relayed, of the lookup and of the write behind a ban, of the ban check
/// before a user's message, and of the insert that completes a relay.
pub proof fn store_failure_is_returned(
    group_id: i64,
    message: Message,
    error: StorageError,
    found: (i64, i64),
    written: Result<(), StorageError>,
    admitted: Result<(), Delay>,
)
    ensures
        reaction_result(Err(error)) == Err::<StepView, RelayErrorView>(
            RelayErrorView::Storage(error),
        ),
        !message.from_bot() && message.replied() is Some ==> group_reply_result(
            group_id,
            &message,
            Err(error),
        ) == Err::<StepView, RelayErrorView>(RelayErrorView::Storage(error)),
        message.replied() is Some ==> ban_command_result(&message, Err(error), written) == Err::<
            StepView,
            RelayErrorView,
        >(RelayErrorView::Storage(error)),
        message.replied() is Some ==> ban_command_result(&message, Ok(Some(found)), Err(error))
            == Err::<StepView, RelayErrorView>(RelayErrorView::Storage(error)),
        user_message_result(group_id, &message, Err(error), admitted) == Err::<
            StepView,
            RelayErrorView,
        >(RelayErrorView::Storage(error)),
        recorded(Err(error)) == Err::<(), RelayErrorView>(RelayErrorView::Storage(error)),
        requested(Err(RelayErrorView::Storage(error))) is None,
{
}

/// A ban without a target writes nothing: where the lookup finds no record,
/// the ban ends in `UnknownTarget` with its notice, whatever the write would
/// have answered.
pub proof fn ban_without_target_fails(message: Message, written: Result<(), StorageError>)
    requires
        message.replied() is Some,
    ensures
        ban_command_result(&message, Ok(None), written) == Err::<StepView, RelayErrorView>(
            RelayErrorView::UnknownTarget(unknown_target_notice(message.chat_id)),
        ),
{
}

/// A user who is not banned and has a token left is forwarded: where the ban
/// registry answers that the user is not banned, and the user has a token
/// left, the message is forwarded into the group with its row pending,
/// whatever the clock reads. A user whom the limiter has not met has the
/// initial tokens, so with the relay's quota the first message of every user
/// is forwarded.
pub proof fn unbanned_user_with_tokens_is_forwarded(
    group_id: i64,
    message: Message,
    before: Limiter,
    after: Limiter,
    outcome: Result<StepView, RelayErrorView>,
)
    requires
        checked_message_handled(group_id, &message, Ok(false), before, after, outcome),
        before.tokens_of(message.chat_id) > 0,
    ensures
        outcome == Ok::<StepView, RelayErrorView>(
            StepView::Relay(forward_into_group(group_id, &message), pending_of(&message)),
        ),
        after.tokens_of(message.chat_id) + 1 >= before.tokens_of(message.chat_id),
{
}

/// The first message of a user who is not banned is forwarded: with a limiter
/// that no user has asked yet, and a quota that starts with a token, the
/// message is forwarded into the group with its row pending.
pub proof fn first_message_is_forwarded(
    group_id: i64,
    message: Message,
    quota: Quota,
    before: Limiter,
    after: Limiter,
    outcome: Result<StepView, RelayErrorView>,
)
    requires
        checked_message_handled(group_id, &message, Ok(false), before, after, outcome),
        before.fresh(quota),
        quota.initial > 0,
    ensures
        outcome == Ok::<StepView, RelayErrorView>(
            StepView::Relay(forward_into_group(group_id, &message), pending_of(&message)),
        ),
{
    unbanned_user_with_tokens_is_forwarded(group_id, message, before, after, outcome);
}

/// Handling an event takes tokens from nobody but the sender of a user's
/// message: the tokens of every other user are what they were, and where the
/// event is anything but a message, so are everyone's.
pub proof fn other_users_keep_their_tokens(
    group_id: i64,
    update: Update,
    before: Limiter,
    after: Limiter,
    outcome: Result<StepView, RelayErrorView>,
    other: i64,
)
    requires
        handled(group_id, &update, before, after, outcome),
        update matches Update::Message(message) ==> other != message.chat_id,
    ensures
        after.tokens_of(other) == before.tokens_of(other),
{
}

/// What the store and the limiter answer while one event is handled: the
/// store to the lookup of a record, to the write of a ban and to the ban
/// check, the limiter to the request for a token. A handling asks for some
/// of them only.
pub struct Answers {
    pub looked_up: Result<Option<(i64, i64)>, StorageError>,
    pub written: Result<(), StorageError>,
    pub checked: Result<bool, StorageError>,
    pub admitted: Result<(), Delay>,
}

/// What handling an event returns, for each event and for all that the store
/// and the limiter may answer: the result of the one route that the event
/// takes.
pub open spec fn update_result(group_id: i64, update: &Update, answers: Answers) -> Result<
    StepView,
    RelayErrorView,
> {
    match *update {
        Update::MessageReaction(_) => reaction_result(answers.looked_up),
        Update::Other => Ok(StepView::Done),
        Update::Message(message) => match message_route(group_id, &message) {
            Route::Start => Ok(StepView::Send(start_reply(&message))),
            Route::Help => Ok(StepView::Send(help_reply(&message))),
            Route::Ban => ban_command_result(&message, answers.looked_up, answers.written),
            Route::GroupReply => group_reply_result(group_id, &message, answers.looked_up),
            Route::UserMessage => user_message_result(
                group_id,
                &message,
                answers.checked,
                answers.admitted,
            ),
            _ => Ok(StepView::Done),
        },
    }
}

/// Handling is a function of the event and the answers: whatever
/// `handle_updates` returns is what `update_result` makes of the event and of
/// some answers of the store and the limiter.
pub proof fn handling_follows_the_answers(
    group_id: i64,
    update: Update,
    before: Limiter,
    after: Limiter,
    outcome: Result<StepView, RelayErrorView>,
)
    requires
        handled(group_id, &update, before, after, outcome),
    ensures
        exists|answers: Answers| outcome == #[trigger] update_result(group_id, &update, answers),
{
    match update {
        Update::MessageReaction(_) => {
            let looked_up = choose|looked_up: Result<Option<(i64, i64)>, StorageError>|
                without_conflict(looked_up) && outcome == #[trigger] reaction_result(looked_up);
            let answers = Answers {
                looked_up,
                written: Ok(()),
                checked: Ok(false),
                admitted: Ok(()),
            };
            assert(outcome == update_result(group_id, &update, answers));
        },
        Update::Other => {
            let answers = Answers {
                looked_up: Ok(None),
                written: Ok(()),
                checked: Ok(false),
                admitted: Ok(()),
            };
            assert(outcome == update_result(group_id, &update, answers));
        },
        Update::Message(message) => {
            match message_route(group_id, &message) {
                Route::Ban => {
                    let looked_up = choose|looked_up: Result<Option<(i64, i64)>, StorageError>|
                        without_conflict(looked_up) && #[trigger] looked_up_ban_handled(
                            &message,
                            looked_up,
                            outcome,
                        );
                    let written = choose|written: Result<(), StorageError>|
                        without_conflict(written) && outcome == #[trigger] ban_command_result(
                            &message,
                            looked_up,
                            written,
                        );
                    let answers = Answers { looked_up, written, checked: Ok(false), admitted: Ok(()) };
                    assert(outcome == update_result(group_id, &update, answers));
                },
                Route::GroupReply => {
                    let looked_up = choose|looked_up: Result<Option<(i64, i64)>, StorageError>|
                        without_conflict(looked_up) && outcome == #[trigger] group_reply_result(
                            group_id,
                            &message,
                            looked_up,
                        );
                    let answers = Answers {
                        looked_up,
                        written: Ok(()),
                        checked: Ok(false),
                        admitted: Ok(()),
                    };
                    assert(outcome == update_result(group_id, &update, answers));
                },
                Route::UserMessage => {
                    let checked = choose|checked: Result<bool, StorageError>|
                        without_conflict(checked) && #[trigger] checked_message_handled(
                            group_id,
                            &message,
                            checked,
                            before,
                            after,
                            outcome,
                        );
                    let admitted = choose|admitted: Result<(), Delay>|
                        outcome == #[trigger] user_message_result(
                            group_id,
                            &message,
                            checked,
                            admitted,
                        );
                    let answers = Answers { looked_up: Ok(None), written: Ok(()), checked, admitted };
                    assert(outcome == update_result(group_id, &update, answers));
                },
                _ => {
                    let answers = Answers {
                        looked_up: Ok(None),
                        written: Ok(()),
                        checked: Ok(false),
                        admitted: Ok(()),
                    };
                    assert(outcome == update_result(group_id, &update, answers));
                },
            }
        },
    }
}

/// Two runs on the same event with the same answers end alike: the same
/// result, and with it the same request to the transport, if any. Each run
/// takes the one route of the event.
pub proof fn same_answers_give_the_same_result(
    group_id: i64,
    update: Update,
    answers: Answers,
    first: Result<StepView, RelayErrorView>,
    second: Result<StepView, RelayErrorView>,
)
    requires
        first == update_result(group_id, &update, answers),
        second == update_result(group_id, &update, answers),
    ensures
        first == second,
        requested(first) == requested(second),
{
}

} // verus!
