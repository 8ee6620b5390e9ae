use keybot::bot_config::{ConfigParams, ConfigParamsGeneral, ConfigParamsReddit, ReactionPolicy};
use keybot::chat_db::initialize;
use keybot::error::Error;
use keybot::keybot::{RuntimeInfo, RuntimeStore};
use keybot::members::{
    botAmong, onChannelPost, onNewChatMembers, onUpdate, welcome, welcomeLink, welcomeOutcome,
    welcomeRequest,
};
use keybot::telegram::{
    Channel, ChannelPost, Message, MessageKind, MessageOrChannelPost, Request, UpdateKind, User,
};

fn settings(do_welcome: bool, greeting: &str) -> ConfigParams {
    ConfigParams {
        general: ConfigParamsGeneral {
            do_welcome,
            welcome: greeting.to_string(),
            token: "token".to_string(),
            username: "keybot".to_string(),
            group_id: Some(-100),
            policy: ReactionPolicy::PerTarget,
            weekly_waer_template: String::new(),
            weekly_waable_template: String::new(),
            monthly_waer_template: String::new(),
            monthly_waable_template: String::new(),
        },
        reddit: ConfigParamsReddit {
            client_id: "id".to_string(),
            client_secret: "secret".to_string(),
            daily_pic_caption: "${url}".to_string(),
        },
    }
}

fn member(id: i64, first: &str, last: Option<&str>, nick: Option<&str>) -> User {
    User {
        id,
        first_name: first.to_string(),
        last_name: last.map(|s| s.to_string()),
        username: nick.map(|s| s.to_string()),
    }
}

fn channel(id: i64) -> Channel {
    Channel { id, title: "Keyboards".to_string() }
}

fn empty_record_store() -> RuntimeStore {
    let mut store = RuntimeStore::new();
    assert!(RuntimeInfo::new().save(&mut store).is_ok());
    store
}

fn chats(store: &RuntimeStore) -> Vec<i64> {
    match RuntimeInfo::load(store) {
        Ok(info) => info.chatIds().clone(),
        Err(_) => panic!("the store holds a record"),
    }
}

fn texts(reqs: &Vec<Request>) -> Vec<(i64, String)> {
    reqs.iter()
        .map(|r| match r {
            Request::SendMessage { chat_id, text } => (*chat_id, text.clone()),
            _ => panic!("expected a message"),
        })
        .collect()
}

#[test]
fn welcome_greets_every_new_member() {
    let cfg = settings(true, "${user}, welcome! Say hi, ${user}.");
    let users = vec![member(1, "Ann", Some("Lee"), Some("ann")), member(2, "Bo", None, None)];
    match welcome(&cfg, &users, &channel(-5)) {
        Ok(reqs) => assert_eq!(
            texts(&reqs),
            vec![
                (-5, "tg://user?id=Ann Lee, welcome! Say hi, tg://user?id=Ann Lee.".to_string()),
                (-5, "tg://user?id=Bo, welcome! Say hi, tg://user?id=Bo.".to_string()),
            ]
        ),
        Err(_) => panic!("a greeting is set"),
    }
}

#[test]
fn welcome_of_nobody_sends_nothing() {
    let cfg = settings(true, "hi ${user}");
    assert!(matches!(welcome(&cfg, &Vec::new(), &channel(-5)), Ok(reqs) if reqs.is_empty()));
}

#[test]
fn welcome_without_greeting_is_an_error() {
    let cfg = settings(true, "");
    match welcome(&cfg, &vec![member(1, "Ann", None, None)], &channel(-5)) {
        Err(Error::RuntimeError(m)) => assert_eq!(m, "No welcome message set"),
        _ => panic!("expected an error"),
    }
}

#[test]
fn welcome_outcome_reports_a_failed_send() {
    assert!(welcomeOutcome(false).is_ok());
    match welcomeOutcome(true) {
        Err(Error::RuntimeError(m)) => assert_eq!(m, "Failed to welcome"),
        _ => panic!("expected an error"),
    }
}

#[test]
fn the_bot_is_found_by_its_nick_name() {
    let cfg = settings(true, "hi");
    assert!(botAmong(&cfg, &vec![member(1, "A", None, None), member(2, "K", None, Some("keybot"))]));
    assert!(!botAmong(&cfg, &vec![member(1, "keybot", None, Some("keybot2"))]));
    assert!(!botAmong(&cfg, &Vec::new()));
}

#[test]
fn the_bot_joining_registers_the_chat() {
    let cfg = settings(true, "hi ${user}");
    let mut store = empty_record_store();
    let users = vec![member(1, "Ann", None, None), member(2, "Key", None, Some("keybot"))];
    assert!(matches!(onNewChatMembers(&cfg, &users, &channel(-5), &mut store), Ok(r) if r.is_empty()));
    assert_eq!(chats(&store), vec![-5]);
    assert!(matches!(onNewChatMembers(&cfg, &users, &channel(-5), &mut store), Ok(r) if r.is_empty()));
    assert!(matches!(onNewChatMembers(&cfg, &users, &channel(-6), &mut store), Ok(r) if r.is_empty()));
    assert_eq!(chats(&store), vec![-5, -6]);
}

#[test]
fn the_bot_joining_needs_a_stored_record() {
    let cfg = settings(true, "hi ${user}");
    let mut store = RuntimeStore::new();
    let users = vec![member(2, "Key", None, Some("keybot"))];
    assert!(matches!(
        onNewChatMembers(&cfg, &users, &channel(-5), &mut store),
        Err(Error::NotFound(_))
    ));
    assert!(!RuntimeInfo::exist(&store));
}

#[test]
fn new_members_are_greeted_only_when_switched_on() {
    let users = vec![member(1, "Ann", None, None)];
    let mut store = empty_record_store();
    match onNewChatMembers(&settings(true, "hi ${user}"), &users, &channel(-5), &mut store) {
        Ok(reqs) => assert_eq!(texts(&reqs), vec![(-5, "hi tg://user?id=Ann".to_string())]),
        Err(_) => panic!("a greeting is set"),
    }
    assert!(matches!(
        onNewChatMembers(&settings(false, "hi ${user}"), &users, &channel(-5), &mut store),
        Ok(r) if r.is_empty()
    ));
    assert!(chats(&store).is_empty());
}

#[test]
fn a_channel_post_matters_only_as_a_notice_of_new_members() {
    let cfg = settings(true, "hi ${user}");
    let mut store = empty_record_store();
    let notice = ChannelPost {
        id: 1,
        date: 0,
        chat: channel(-5),
        kind: MessageKind::NewChatMembers { data: vec![member(1, "Ann", None, None)] },
    };
    match onChannelPost(&cfg, notice, &mut store) {
        Ok(reqs) => assert_eq!(texts(&reqs), vec![(-5, "hi tg://user?id=Ann".to_string())]),
        Err(_) => panic!("a greeting is set"),
    }
    let text = ChannelPost {
        id: 2,
        date: 0,
        chat: channel(-5),
        kind: MessageKind::Text { data: "哇".to_string() },
    };
    assert!(matches!(onChannelPost(&cfg, text, &mut store), Ok(r) if r.is_empty()));
}

#[test]
fn updates_are_routed_by_kind() {
    let cfg = settings(true, "hi ${user}");
    let mut log = initialize();
    let mut store = empty_record_store();
    assert!(matches!(
        onUpdate(&cfg, UpdateKind::Other, &mut log, &mut store),
        Ok(r) if r.is_empty()
    ));
    for k in 1..=3 {
        let msg = Message {
            id: k,
            from: member(7, "Ann", None, None),
            date: 100 + k,
            chat: -100,
            reply_to_message: Some(MessageOrChannelPost::Message { id: 500 }),
            kind: MessageKind::Text { data: "哇".to_string() },
        };
        match onUpdate(&cfg, UpdateKind::Message(msg), &mut log, &mut store) {
            Ok(reqs) => {
                assert_eq!(reqs.len(), if k == 3 { 1 } else { 0 });
                if k == 3 {
                    assert!(matches!(
                        reqs[0],
                        Request::ReplyWithDelay { reply_to_id: 500, chat_id: -100, .. }
                    ));
                }
            }
            Err(_) => panic!("the wa is valid"),
        }
    }
    let joined = ChannelPost {
        id: 9,
        date: 0,
        chat: channel(-5),
        kind: MessageKind::NewChatMembers { data: vec![member(2, "Key", None, Some("keybot"))] },
    };
    assert!(matches!(
        onUpdate(&cfg, UpdateKind::ChannelPost(joined), &mut log, &mut store),
        Ok(r) if r.is_empty()
    ));
    assert_eq!(chats(&store), vec![-5]);
    assert_eq!(log.count(500), 3);
}

#[test]
fn a_failed_update_leaves_the_next_one_untouched() {
    let cfg = settings(true, "hi ${user}");
    let mut log = initialize();
    let mut store = empty_record_store();
    let bad = Message {
        id: 1,
        from: member(7, "Ann", None, None),
        date: 100,
        chat: -100,
        reply_to_message: Some(MessageOrChannelPost::Message { id: 500 }),
        kind: MessageKind::Text { data: "哇".to_string() },
    };
    let again = Message {
        id: 1,
        from: member(8, "Bo", None, None),
        date: 101,
        chat: -100,
        reply_to_message: Some(MessageOrChannelPost::Message { id: 500 }),
        kind: MessageKind::Text { data: "哇".to_string() },
    };
    let next = Message {
        id: 2,
        from: member(8, "Bo", None, None),
        date: 102,
        chat: -100,
        reply_to_message: Some(MessageOrChannelPost::Message { id: 500 }),
        kind: MessageKind::Text { data: "哇".to_string() },
    };
    assert!(onUpdate(&cfg, UpdateKind::Message(bad), &mut log, &mut store).is_ok());
    assert!(onUpdate(&cfg, UpdateKind::Message(again), &mut log, &mut store).is_err());
    assert!(onUpdate(&cfg, UpdateKind::Message(next), &mut log, &mut store).is_ok());
    assert_eq!(log.count(500), 2);
}

#[test]
fn the_link_to_a_user_names_the_user_in_full() {
    assert_eq!(welcomeLink(&member(1, "Ann", Some("Lee"), Some("ann"))), "tg://user?id=Ann Lee");
    assert_eq!(welcomeLink(&member(2, "Bo", None, None)), "tg://user?id=Bo");
}

#[test]
fn a_greeting_is_a_message_to_the_chat() {
    match welcomeRequest(-5, "hi there".to_string()) {
        Request::SendMessage { chat_id, text } => {
            assert_eq!(chat_id, -5);
            assert_eq!(text, "hi there");
        }
        _ => panic!("expected a message"),
    }
}
