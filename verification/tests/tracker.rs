use keybot::bot_config::{ConfigParams, ConfigParamsGeneral, ConfigParamsReddit, ReactionPolicy};
use keybot::chat_db::{initialize, WaLog};
use keybot::error::Error;
use keybot::keybot::{
    onMessage, onTextReply, onTextReplyToMsg, onWaReply, trackDigest, trackPerTarget, waAnswer,
    RuntimeInfo, RuntimeStore, WA_THRESHOLD,
};
use keybot::telegram::{Message, MessageKind, MessageOrChannelPost, Request, User};

fn config(group_id: Option<i64>) -> ConfigParams {
    ConfigParams {
        general: ConfigParamsGeneral {
            do_welcome: true,
            welcome: "Hello ${user}".to_string(),
            token: "token".to_string(),
            username: "keybot".to_string(),
            group_id,
            policy: ReactionPolicy::PerTarget,
            weekly_waer_template: "${name}: ${count}".to_string(),
            weekly_waable_template: "${count}".to_string(),
            monthly_waer_template: "${name}: ${count}".to_string(),
            monthly_waable_template: "${count}".to_string(),
        },
        reddit: ConfigParamsReddit {
            client_id: "id".to_string(),
            client_secret: "secret".to_string(),
            daily_pic_caption: "Best: ${url}".to_string(),
        },
    }
}

fn user(id: i64, nick: Option<&str>) -> User {
    User {
        id,
        first_name: "Ann".to_string(),
        last_name: Some("Lee".to_string()),
        username: nick.map(|n| n.to_string()),
    }
}

fn reply(id: i64, chat: i64, text: &str, to: Option<MessageOrChannelPost>) -> Message {
    Message {
        id,
        from: user(7, Some("ann")),
        date: 1_600_000_000 + id,
        chat,
        reply_to_message: to,
        kind: MessageKind::Text { data: text.to_string() },
    }
}

fn wa_to(id: i64, chat: i64, target: i64) -> Message {
    reply(id, chat, "哇！好看", Some(MessageOrChannelPost::Message { id: target }))
}

fn store_with(info: &RuntimeInfo) -> RuntimeStore {
    let mut store = RuntimeStore::new();
    assert!(info.save(&mut store).is_ok());
    store
}

fn stored(store: &RuntimeStore) -> RuntimeInfo {
    match RuntimeInfo::load(store) {
        Ok(info) => info,
        Err(_) => panic!("the store holds a record"),
    }
}

fn digest_store(digest: i64) -> RuntimeStore {
    let mut info = RuntimeInfo::new();
    info.setDigestMessage(digest);
    store_with(&info)
}

#[test]
fn a_new_record_is_empty() {
    let info = RuntimeInfo::new();
    assert!(info.chatIds().is_empty());
    assert_eq!(info.lastMsgId(), None);
    assert_eq!(info.waCount(), 0);
}

#[test]
fn from_parts_keeps_a_valid_record() {
    match RuntimeInfo::fromParts(vec![-5, 9], Some(77), 2) {
        Ok(info) => {
            assert_eq!(info.chatIds(), &vec![-5, 9]);
            assert_eq!(info.lastMsgId(), Some(77));
            assert_eq!(info.waCount(), 2);
        }
        Err(_) => panic!("the record is valid"),
    }
}

#[test]
fn from_parts_refuses_a_corrupt_record() {
    match RuntimeInfo::fromParts(vec![1], None, 3) {
        Err(Error::DBError(m)) => assert_eq!(m, "Corrupt runtime info"),
        _ => panic!("a counter at the threshold is corrupt"),
    }
    assert!(matches!(RuntimeInfo::fromParts(vec![1, 2, 1], None, 0), Err(Error::DBError(_))));
}

#[test]
fn a_chat_is_registered_once() {
    let mut info = RuntimeInfo::new();
    assert!(info.registerChat(5));
    assert!(info.registerChat(6));
    assert!(!info.registerChat(5));
    assert_eq!(info.chatIds(), &vec![5, 6]);
}

#[test]
fn a_new_digest_resets_the_counter() {
    let mut info = RuntimeInfo::new();
    info.setDigestMessage(10);
    assert!(!info.countReaction());
    assert_eq!(info.waCount(), 1);
    info.setDigestMessage(11);
    assert_eq!(info.lastMsgId(), Some(11));
    assert_eq!(info.waCount(), 0);
}

#[test]
fn the_counter_runs_one_two_and_back_to_zero() {
    let mut info = RuntimeInfo::new();
    let mut seen = Vec::new();
    for _ in 0..7 {
        let fire = info.countReaction();
        seen.push((info.waCount(), fire));
        assert!(info.waCount() < WA_THRESHOLD);
    }
    assert_eq!(
        seen,
        vec![(1, false), (2, false), (0, true), (1, false), (2, false), (0, true), (1, false)]
    );
}

#[test]
fn an_empty_store_holds_no_record() {
    let store = RuntimeStore::new();
    assert!(!RuntimeInfo::exist(&store));
    match RuntimeInfo::load(&store) {
        Err(Error::NotFound(m)) => assert_eq!(m, "No runtime info"),
        _ => panic!("nothing was saved"),
    }
}

#[test]
fn loading_twice_gives_the_same_record() {
    let mut info = RuntimeInfo::new();
    info.registerChat(-100);
    info.setDigestMessage(55);
    info.countReaction();
    let store = store_with(&info);
    assert!(RuntimeInfo::exist(&store));
    let first = stored(&store);
    let second = stored(&store);
    assert_eq!(first.chatIds(), second.chatIds());
    assert_eq!(first.lastMsgId(), second.lastMsgId());
    assert_eq!(first.waCount(), second.waCount());
    assert_eq!(first.chatIds(), &vec![-100]);
    assert_eq!(first.lastMsgId(), Some(55));
    assert_eq!(first.waCount(), 1);
}

#[test]
fn saving_overwrites_the_whole_record() {
    let mut info = RuntimeInfo::new();
    info.registerChat(1);
    let mut store = store_with(&info);
    let mut other = RuntimeInfo::new();
    other.setDigestMessage(9);
    assert!(other.save(&mut store).is_ok());
    let back = stored(&store);
    assert!(back.chatIds().is_empty());
    assert_eq!(back.lastMsgId(), Some(9));
}

#[test]
fn per_target_fires_at_the_third_reaction_only() {
    let cfg = config(Some(-100));
    let mut log = initialize();
    let mut fired = Vec::new();
    for k in 1..=6 {
        let r = trackPerTarget(&cfg, &wa_to(k, -100, 500), &mut log);
        fired.push(r.ok());
    }
    assert_eq!(fired, vec![Some(None), Some(None), Some(Some(500)), Some(None), Some(None), Some(None)]);
    assert_eq!(log.count(500), 6);
}

#[test]
fn per_target_counts_each_target_apart() {
    let cfg = config(Some(-100));
    let mut log = initialize();
    assert_eq!(trackPerTarget(&cfg, &wa_to(1, -100, 500), &mut log).ok(), Some(None));
    assert_eq!(trackPerTarget(&cfg, &wa_to(2, -100, 600), &mut log).ok(), Some(None));
    assert_eq!(trackPerTarget(&cfg, &wa_to(3, -100, 500), &mut log).ok(), Some(None));
    assert_eq!(trackPerTarget(&cfg, &wa_to(4, -100, 600), &mut log).ok(), Some(None));
    assert_eq!(trackPerTarget(&cfg, &wa_to(5, -100, 600), &mut log).ok(), Some(Some(600)));
    assert_eq!(trackPerTarget(&cfg, &wa_to(6, -100, 500), &mut log).ok(), Some(Some(500)));
}

#[test]
fn per_target_records_who_reacted_and_when() {
    let cfg = config(Some(-100));
    let mut log = initialize();
    let msg = wa_to(3, -100, 500);
    assert!(trackPerTarget(&cfg, &msg, &mut log).is_ok());
    let row = log.row(0);
    assert_eq!(row.wa_to, 500);
    assert_eq!(row.id, 3);
    assert_eq!(row.waer, 7);
    assert_eq!(row.waer_name, "@ann");
    assert_eq!(row.time, 1_600_000_003);
}

#[test]
fn a_wa_outside_the_group_is_ignored() {
    let mut log = initialize();
    assert_eq!(trackPerTarget(&config(Some(-100)), &wa_to(1, -200, 500), &mut log).ok(), Some(None));
    assert_eq!(trackPerTarget(&config(None), &wa_to(2, -100, 500), &mut log).ok(), Some(None));
    assert_eq!(log.len(), 0);
    let mut store = digest_store(500);
    assert_eq!(trackDigest(&config(Some(-100)), &wa_to(1, -200, 500), &mut store).ok(), Some(None));
    assert_eq!(trackDigest(&config(None), &wa_to(2, -100, 500), &mut store).ok(), Some(None));
    assert_eq!(stored(&store).waCount(), 0);
}

#[test]
fn a_wa_that_replies_to_nothing_is_an_error() {
    let cfg = config(Some(-100));
    let mut log = initialize();
    match trackPerTarget(&cfg, &reply(1, -100, "哇", None), &mut log) {
        Err(Error::RuntimeError(m)) => assert_eq!(m, "Wa is not a reply"),
        _ => panic!("expected an error"),
    }
    let to_post = reply(2, -100, "哇", Some(MessageOrChannelPost::ChannelPost { id: 3 }));
    assert!(matches!(trackPerTarget(&cfg, &to_post, &mut log), Err(Error::RuntimeError(_))));
    assert_eq!(log.len(), 0);
    let mut store = digest_store(3);
    assert!(matches!(trackDigest(&cfg, &to_post, &mut store), Err(Error::RuntimeError(_))));
}

#[test]
fn a_repeated_wa_is_a_database_error() {
    let cfg = config(Some(-100));
    let mut log = initialize();
    assert!(trackPerTarget(&cfg, &wa_to(1, -100, 500), &mut log).is_ok());
    assert!(matches!(
        trackPerTarget(&cfg, &wa_to(1, -100, 500), &mut log),
        Err(Error::DBError(_))
    ));
    assert_eq!(log.count(500), 1);
}

#[test]
fn digest_policy_counts_replies_to_the_active_digest() {
    let cfg = config(Some(-100));
    let mut store = digest_store(900);
    let mut seen = Vec::new();
    for k in 1..=6 {
        let fired = trackDigest(&cfg, &wa_to(k, -100, 900), &mut store).ok();
        seen.push((stored(&store).waCount(), fired));
    }
    assert_eq!(
        seen,
        vec![
            (1, Some(None)),
            (2, Some(None)),
            (0, Some(Some(900))),
            (1, Some(None)),
            (2, Some(None)),
            (0, Some(Some(900))),
        ]
    );
    assert_eq!(stored(&store).lastMsgId(), Some(900));
}

#[test]
fn digest_policy_ignores_replies_to_other_messages() {
    let cfg = config(Some(-100));
    let mut store = digest_store(900);
    assert_eq!(trackDigest(&cfg, &wa_to(1, -100, 900), &mut store).ok(), Some(None));
    assert_eq!(trackDigest(&cfg, &wa_to(2, -100, 901), &mut store).ok(), Some(None));
    assert_eq!(stored(&store).waCount(), 1);
    let mut none_active = store_with(&RuntimeInfo::new());
    assert_eq!(trackDigest(&cfg, &wa_to(3, -100, 900), &mut none_active).ok(), Some(None));
    assert_eq!(stored(&none_active).waCount(), 0);
}

#[test]
fn digest_policy_needs_a_stored_record() {
    let cfg = config(Some(-100));
    let mut store = RuntimeStore::new();
    assert!(matches!(
        trackDigest(&cfg, &wa_to(1, -100, 900), &mut store),
        Err(Error::NotFound(_))
    ));
    assert!(!RuntimeInfo::exist(&store));
}

#[test]
fn wa_answer_is_a_delayed_reply() {
    match waAnswer(500, -100, 12_345) {
        Request::ReplyWithDelay { chat_id, text, reply_to_id, delay_ms } => {
            assert_eq!(chat_id, -100);
            assert_eq!(text, "哇！");
            assert_eq!(reply_to_id, 500);
            assert_eq!(delay_ms, 12_345);
        }
        _ => panic!("expected a delayed reply"),
    }
}

#[test]
fn on_wa_reply_draws_the_delay_within_its_bounds() {
    let cfg = config(Some(-100));
    for round in 0..200 {
        let mut log: WaLog = initialize();
        let mut store = RuntimeStore::new();
        let mut answers = Vec::new();
        for k in 1..=4 {
            let msg = wa_to(round * 10 + k, -100, 500);
            match onWaReply(&cfg, &msg, &mut log, &mut store) {
                Ok(answer) => answers.push(answer),
                Err(_) => panic!("the wa is valid"),
            }
        }
        assert!(answers[0].is_none() && answers[1].is_none() && answers[3].is_none());
        match &answers[2] {
            Some(Request::ReplyWithDelay { chat_id, text, reply_to_id, delay_ms }) => {
                assert_eq!(*chat_id, -100);
                assert_eq!(text, "哇！");
                assert_eq!(*reply_to_id, 500);
                assert!(10_000 <= *delay_ms && *delay_ms <= 600_000);
            }
            _ => panic!("the third wa asks for a reply"),
        }
        assert!(!RuntimeInfo::exist(&store));
    }
}

#[test]
fn on_wa_reply_follows_the_policy() {
    let mut digest_cfg = config(Some(-100));
    digest_cfg.general.policy = ReactionPolicy::DigestScoped;
    let mut log = initialize();
    let mut store = digest_store(900);
    for k in 1..=2 {
        let r = onWaReply(&digest_cfg, &wa_to(k, -100, 900), &mut log, &mut store);
        assert!(matches!(r, Ok(None)));
    }
    let r = onWaReply(&digest_cfg, &wa_to(3, -100, 900), &mut log, &mut store);
    match r {
        Ok(Some(Request::ReplyWithDelay { reply_to_id, chat_id, .. })) => {
            assert_eq!(reply_to_id, 900);
            assert_eq!(chat_id, -100);
        }
        _ => panic!("the third reply to the digest asks for a reply"),
    }
    assert_eq!(log.len(), 0);
    assert_eq!(stored(&store).waCount(), 0);
}

#[test]
fn only_texts_with_the_glyph_are_tracked() {
    let cfg = config(Some(-100));
    let mut log = initialize();
    let mut store = RuntimeStore::new();
    let to = Some(MessageOrChannelPost::Message { id: 500 });
    let plain = reply(1, -100, "nice 哇", to);
    assert!(matches!(
        onTextReplyToMsg(&cfg, &plain, &mut log, &mut store),
        Ok(None)
    ));
    assert_eq!(log.len(), 0);
    let wa = wa_to(2, -100, 500);
    assert!(matches!(
        onTextReplyToMsg(&cfg, &wa, &mut log, &mut store),
        Ok(None)
    ));
    assert_eq!(log.count(500), 1);
}

#[test]
fn a_reply_to_a_channel_post_is_ignored() {
    let cfg = config(Some(-100));
    let mut log = initialize();
    let mut store = RuntimeStore::new();
    let parent = MessageOrChannelPost::ChannelPost { id: 500 };
    let msg = reply(1, -100, "哇", Some(MessageOrChannelPost::ChannelPost { id: 500 }));
    assert!(matches!(
        onTextReply(&cfg, &msg, &parent, &mut log, &mut store),
        Ok(None)
    ));
    assert!(matches!(
        onMessage(&cfg, msg, &mut log, &mut store),
        Ok(None)
    ));
    assert_eq!(log.len(), 0);
}

#[test]
fn on_message_tracks_wa_replies_only() {
    let cfg = config(Some(-100));
    let mut log = initialize();
    let mut store = RuntimeStore::new();
    let not_a_reply = reply(1, -100, "哇", None);
    assert!(matches!(
        onMessage(&cfg, not_a_reply, &mut log, &mut store),
        Ok(None)
    ));
    let other_kind = Message {
        id: 2,
        from: user(7, None),
        date: 5,
        chat: -100,
        reply_to_message: Some(MessageOrChannelPost::Message { id: 500 }),
        kind: MessageKind::Other,
    };
    assert!(matches!(
        onMessage(&cfg, other_kind, &mut log, &mut store),
        Ok(None)
    ));
    assert_eq!(log.len(), 0);
    for k in 3..=4 {
        assert!(matches!(
            onMessage(&cfg, wa_to(k, -100, 500), &mut log, &mut store),
            Ok(None)
        ));
    }
    assert!(matches!(
        onMessage(&cfg, wa_to(5, -100, 500), &mut log, &mut store),
        Ok(Some(Request::ReplyWithDelay { reply_to_id: 500, .. }))
    ));
    assert_eq!(log.count(500), 3);
}
