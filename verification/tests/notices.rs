use relay_bot::action::{
    ban_reply, banned_reply, delay_reply, help, send_plain, start, timeout_reply,
    unknown_target_reply, Action, BoldSpan, BANNED_NOTICE, BANNED_PREFIX, GREETING, HELP_PREFIX,
    INVITATION, TIMEOUT_PREFIX, UNKNOWN_TARGET_NOTICE,
};
use relay_bot::event::{Message, Origin, User};
use relay_bot::ratelimit::Delay;

fn message_from(chat_id: i64, sender: Option<User>) -> Message {
    Message { id: 7, chat_id, sender, reply_to: None, command: Some(String::from("/start")) }
}

fn user(full_name: &str) -> User {
    User { is_bot: false, full_name: String::from(full_name) }
}

fn text(chat_id: i64, text: &str) -> Action {
    Action::SendText { chat_id, text: String::from(text), bold: None }
}

#[test]
fn wording_of_the_notices() {
    assert_eq!(GREETING, "Hi!");
    assert_eq!(INVITATION, ", With this bot, you can converse with our admins.");
    assert_eq!(HELP_PREFIX, "Help! ");
    assert_eq!(BANNED_NOTICE, "You are banned from using this bot");
    assert_eq!(TIMEOUT_PREFIX, "You have been timed out from sending anymore messages for ");
    assert_eq!(
        UNKNOWN_TARGET_NOTICE,
        "Failed to ban this user because it does not exists in the database"
    );
    assert_eq!(BANNED_PREFIX, "Banned user ");
}

#[test]
fn start_greets_by_name_in_bold() {
    let action = start(&message_from(42, Some(user("Ann Lee"))));
    assert_eq!(
        action,
        Action::SendText {
            chat_id: 42,
            text: String::from("Hi!Ann Lee, With this bot, you can converse with our admins."),
            bold: Some(BoldSpan { offset: 3, length: 7 }),
        }
    );
}

#[test]
fn start_counts_the_name_in_bytes() {
    let action = start(&message_from(42, Some(user("Zoë Ünal"))));
    assert_eq!(
        action,
        Action::SendText {
            chat_id: 42,
            text: String::from("Hi!Zoë Ünal, With this bot, you can converse with our admins."),
            bold: Some(BoldSpan { offset: 3, length: 10 }),
        }
    );
    let action = start(&message_from(42, Some(user("名前"))));
    match action {
        Action::SendText { bold, .. } => assert_eq!(bold, Some(BoldSpan { offset: 3, length: 6 })),
        _ => panic!("a text was expected"),
    }
}

#[test]
fn start_without_a_user_has_an_empty_name() {
    let action = start(&message_from(-100, None));
    assert_eq!(
        action,
        Action::SendText {
            chat_id: -100,
            text: String::from("Hi!, With this bot, you can converse with our admins."),
            bold: Some(BoldSpan { offset: 3, length: 0 }),
        }
    );
    let action = start(&message_from(5, Some(user(""))));
    assert_eq!(
        action,
        Action::SendText {
            chat_id: 5,
            text: String::from("Hi!, With this bot, you can converse with our admins."),
            bold: Some(BoldSpan { offset: 3, length: 0 }),
        }
    );
}

#[test]
fn help_names_the_chat() {
    assert_eq!(help(&message_from(42, None)), text(42, "Help! 42"));
    assert_eq!(help(&message_from(-1001234567890, None)), text(-1001234567890, "Help! -1001234567890"));
    assert_eq!(help(&message_from(0, Some(user("Ann")))), text(0, "Help! 0"));
}

#[test]
fn plain_text_has_no_bold_span() {
    assert_eq!(send_plain(9, String::from("hello")), text(9, "hello"));
    assert_eq!(send_plain(-9, String::new()), text(-9, ""));
}

#[test]
fn ban_report_prefers_the_name_of_the_origin() {
    let hidden = Some(Origin::HiddenUser { name: String::from("Mystery") });
    let visible = Some(Origin::User { first_name: String::from("Ann") });
    assert_eq!(ban_reply(-100, &hidden, 42), text(-100, "Banned user Mystery"));
    assert_eq!(ban_reply(-100, &visible, 42), text(-100, "Banned user Ann"));
    assert_eq!(ban_reply(-100, &Some(Origin::Other), 42), text(-100, "Banned user 42"));
    assert_eq!(ban_reply(-100, &None, 42), text(-100, "Banned user 42"));
    assert_eq!(ban_reply(-100, &None, -7), text(-100, "Banned user -7"));
}

#[test]
fn fixed_notices() {
    assert_eq!(banned_reply(42), text(42, "You are banned from using this bot"));
    assert_eq!(
        unknown_target_reply(-100),
        text(-100, "Failed to ban this user because it does not exists in the database")
    );
}

#[test]
fn timeout_notice_ends_in_the_wait() {
    assert_eq!(
        timeout_reply(42, "59.9s"),
        text(42, "You have been timed out from sending anymore messages for 59.9s")
    );
    assert_eq!(
        timeout_reply(42, ""),
        text(42, "You have been timed out from sending anymore messages for ")
    );
}

#[test]
fn wait_is_written_as_a_duration() {
    assert_eq!(
        delay_reply(42, Delay { secs: 2, nanos: 0 }),
        text(42, "You have been timed out from sending anymore messages for 2s")
    );
    assert_eq!(
        delay_reply(42, Delay { secs: 59, nanos: 500_000_000 }),
        text(42, "You have been timed out from sending anymore messages for 59.5s")
    );
    assert_eq!(
        delay_reply(42, Delay { secs: 0, nanos: 1 }),
        text(42, "You have been timed out from sending anymore messages for 1ns")
    );
    assert_eq!(
        delay_reply(42, Delay { secs: 0, nanos: 999_999_999 }),
        text(42, "You have been timed out from sending anymore messages for 999.999999ms")
    );
    for (secs, nanos) in [(0u64, 0u32), (1, 1), (60, 0), (3, 250_000), (u64::MAX, 999_999_999)] {
        assert_eq!(
            delay_reply(1, Delay { secs, nanos }),
            text(
                1,
                &format!(
                    "You have been timed out from sending anymore messages for {:?}",
                    std::time::Duration::new(secs, nanos)
                )
            )
        );
    }
}
