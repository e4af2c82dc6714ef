use relay_bot::event::{Message, Origin, RepliedMessage, ReplyTo, User};

fn message(sender: Option<User>, reply_to: Option<ReplyTo>, command: Option<&str>) -> Message {
    Message { id: 7, chat_id: 42, sender, reply_to, command: command.map(String::from) }
}

#[test]
fn sender_is_a_bot_only_if_flagged() {
    let bot = User { is_bot: true, full_name: String::from("Relay") };
    let human = User { is_bot: false, full_name: String::from("bot") };
    assert!(message(Some(bot), None, None).is_from_bot());
    assert!(!message(Some(human), None, None).is_from_bot());
    assert!(!message(None, None, None).is_from_bot());
}

#[test]
fn replied_message_is_found_only_in_a_reply_to_a_message() {
    let replied = RepliedMessage {
        id: 501,
        origin: Some(Origin::User { first_name: String::from("Ann") }),
    };
    let reply = message(None, Some(ReplyTo::Message(replied.clone())), None);
    assert_eq!(reply.replied_message(), Some(&replied));
    assert_eq!(message(None, Some(ReplyTo::Other), None).replied_message(), None);
    assert_eq!(message(None, None, None).replied_message(), None);
}

#[test]
fn command_is_compared_by_its_whole_name() {
    let start = message(None, None, Some("/start"));
    assert!(start.is_command("/start"));
    assert!(!start.is_command("/star"));
    assert!(!start.is_command("/start2"));
    assert!(!start.is_command("start"));
    assert!(!start.is_command("/help"));
    assert!(!start.is_command(""));
    assert!(!message(None, None, None).is_command("/start"));
    assert!(!message(None, None, None).is_command(""));
    assert!(message(None, None, Some("")).is_command(""));
}
