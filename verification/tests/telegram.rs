use keybot::telegram::{
    getParentMsgId, getUserFullname, getUsername, replyWithDelay, Message, MessageKind,
    MessageOrChannelPost, Request, User,
};

fn person(first: &str, last: Option<&str>, nick: Option<&str>) -> User {
    User {
        id: 1,
        first_name: first.to_string(),
        last_name: last.map(|s| s.to_string()),
        username: nick.map(|s| s.to_string()),
    }
}

fn message(to: Option<MessageOrChannelPost>) -> Message {
    Message {
        id: 10,
        from: person("Ann", None, None),
        date: 0,
        chat: -1,
        reply_to_message: to,
        kind: MessageKind::Other,
    }
}

#[test]
fn full_name_is_first_and_last_name() {
    assert_eq!(getUserFullname(&person("Ann", Some("Lee"), Some("ann"))), "Ann Lee");
    assert_eq!(getUserFullname(&person("Ann", None, Some("ann"))), "Ann");
}

#[test]
fn user_name_is_the_nick_name_or_the_full_name() {
    assert_eq!(getUsername(&person("Ann", Some("Lee"), Some("ann"))), "@ann");
    assert_eq!(getUsername(&person("Ann", Some("Lee"), None)), "Ann Lee");
    assert_eq!(getUsername(&person("Ann", None, None)), "Ann");
}

#[test]
fn parent_is_the_ordinary_message_replied_to() {
    assert_eq!(getParentMsgId(&message(Some(MessageOrChannelPost::Message { id: 5 }))), Some(5));
    assert_eq!(getParentMsgId(&message(Some(MessageOrChannelPost::ChannelPost { id: 5 }))), None);
    assert_eq!(getParentMsgId(&message(None)), None);
}

#[test]
fn reply_with_delay_keeps_what_it_is_given() {
    match replyWithDelay("hi".to_string(), 5, -1, 10_000) {
        Request::ReplyWithDelay { chat_id, text, reply_to_id, delay_ms } => {
            assert_eq!((chat_id, text.as_str(), reply_to_id, delay_ms), (-1, "hi", 5, 10_000));
        }
        _ => panic!("expected a delayed reply"),
    }
}
