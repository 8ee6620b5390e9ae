//! Membership events and the routing of updates: the bot notes the chats it
//! is added to, greets new members, and hands text replies to the tracker.
use vstd::prelude::*;
use vstd::string::*;

use crate::bot_config::ConfigParams;
use crate::chat_db::{WaEntry, WaLog};
use crate::error::Error;
use crate::keybot::{
    chat_registered, ignored, is_wa_reply, onMessage, wa_handled, RuntimeInfo, RuntimeInfoView,
    RuntimeStore,
};
use crate::telegram::{
    full_name, getUserFullname, Channel, ChannelPost, Message, MessageKind, Request, UpdateKind,
    User,
};
use crate::text::sameText;
use crate::utils::{key_pattern, keyIsValid, regex_compiles, regex_replaced, SimpleTemplate};

verus! {

/// The user is the bot itself: its nick name is the configured one.
pub open spec fn is_bot(config: ConfigParams, u: User) -> bool {
    u.username matches Some(nick) && nick@ == config.general.username@
}

/// The bot is one of the users.
pub open spec fn bot_among(config: ConfigParams, users: Seq<User>) -> bool {
    exists|i: int| 0 <= i < users.len() && is_bot(config, #[trigger] users[i])
}

/// The link to a user: `tg://user?id=` and the full name.
pub open spec fn welcome_link(u: User) -> Seq<char> {
    "tg://user?id="@ + full_name(u)
}

/// The greeting for one user: the template with the link to the user in
/// place of `${user}`.
pub open spec fn welcome_text(tplt: Seq<char>, u: User) -> Seq<char> {
    regex_replaced(key_pattern("user"@), tplt, welcome_link(u))
}

/// `req` sends `text` to `chat`.
pub open spec fn is_message(req: Request, chat: i64, text: Seq<char>) -> bool {
    req matches Request::SendMessage { chat_id, text: sent } && chat_id == chat && sent@ == text
}

/// `req` sends the greeting for `u` to `chat`.
pub open spec fn is_welcome(req: Request, chat: i64, tplt: Seq<char>, u: User) -> bool {
    is_message(req, chat, welcome_text(tplt, u))
}

/// The link to the user that stands for the user in a greeting.
pub fn welcomeLink(u: &User) -> (link: String)
    ensures
        link@ == welcome_link(*u),
{
    String::from_str("tg://user?id=").concat(getUserFullname(u).as_str())
}

/// The request that sends the greeting `text` to the chat.
pub fn welcomeRequest(chat_id: i64, text: String) -> (req: Request)
    ensures
        is_message(req, chat_id, text@),
{
    Request::SendMessage { chat_id, text }
}

/// What `welcome` answers: one greeting per user, in their order; an error
/// where no greeting is set or its placeholder cannot be looked for.
pub open spec fn welcome_answer(
    config: ConfigParams,
    users: Seq<User>,
    chat: Channel,
    r: Result<Vec<Request>, Error>,
) -> bool {
    if config.general.welcome@.len() == 0 {
        r matches Err(e) && e is RuntimeError && e.message() == "No welcome message set"@
    } else if !regex_compiles(key_pattern("user"@)) {
        r matches Err(e) && e is RuntimeError && e.message() == "Invalid welcome message"@
    } else {
        &&& r matches Ok(reqs)
        &&& reqs@.len() == users.len()
        &&& forall|i: int|
            0 <= i < users.len() ==> is_welcome(
                #[trigger] reqs@[i],
                chat.id,
                config.general.welcome@,
                users[i],
            )
    }
}

/// No request at all.
pub open spec fn nothing_to_send(r: Result<Vec<Request>, Error>) -> bool {
    r matches Ok(reqs) && reqs@.len() == 0
}

/// What `onNewChatMembers` does: where the bot is among the new members,
/// the chat is noted in the stored record and nobody is greeted; else the
/// store stays and the members are greeted if greeting is switched on.
pub open spec fn members_handled(
    config: ConfigParams,
    users: Seq<User>,
    chat: Channel,
    before: Option<RuntimeInfoView>,
    after: Option<RuntimeInfoView>,
    r: Result<Vec<Request>, Error>,
) -> bool {
    if bot_among(config, users) {
        match before {
            Some(v) => after == Some(chat_registered(v, chat.id)) && nothing_to_send(r),
            None => after is None && (r matches Err(e) && e is NotFound && e.message()
                == "No runtime info"@),
        }
    } else {
        &&& after == before
        &&& if config.general.do_welcome {
            welcome_answer(config, users, chat, r)
        } else {
            nothing_to_send(r)
        }
    }
}

/// What `onChannelPost` does: a notice of new members is handled as
/// `members_handled` says, any other post is passed over.
pub open spec fn post_handled(
    config: ConfigParams,
    post: ChannelPost,
    before: Option<RuntimeInfoView>,
    after: Option<RuntimeInfoView>,
    r: Result<Vec<Request>, Error>,
) -> bool {
    match post.kind {
        MessageKind::NewChatMembers { data } => members_handled(
            config,
            data@,
            post.chat,
            before,
            after,
            r,
        ),
        _ => after == before && nothing_to_send(r),
    }
}

/// The greetings for the new members of `chat`, one request each.
pub fn welcome(config: &ConfigParams, new_users: &Vec<User>, chat: &Channel) -> (r: Result<
    Vec<Request>,
    Error,
>)
    ensures
        welcome_answer(*config, new_users@, *chat, r),
{
    if config.general.welcome.as_str().is_empty() {
        return Err(Error::RuntimeError(String::from_str("No welcome message set")));
    }
    if !keyIsValid("user") {
        return Err(Error::RuntimeError(String::from_str("Invalid welcome message")));
    }
    let n = new_users.len();
    let mut reqs: Vec<Request> = Vec::new();
    let mut k: usize = 0;
    while k < n
        invariant
            n == new_users@.len(),
            k <= n,
            regex_compiles(key_pattern("user"@)),
            reqs@.len() == k,
            forall|i: int|
                0 <= i < k ==> is_welcome(
                    #[trigger] reqs@[i],
                    chat.id,
                    config.general.welcome@,
                    new_users@[i],
                ),
        decreases n - k,
    {
        let link = welcomeLink(&new_users[k]);
        let text = SimpleTemplate::new(config.general.welcome.as_str()).apply(
            "user",
            link.as_str(),
        ).result();
        reqs.push(welcomeRequest(chat.id, text));
        k += 1;
    }
    Ok(reqs)
}

/// How the greeting of new members ended, once every greeting was handed
/// to the platform: an error if any of them could not be sent.
pub fn welcomeOutcome(any_failed: bool) -> (r: Result<(), Error>)
    ensures
        r is Err <==> any_failed,
        r matches Err(e) ==> e is RuntimeError && e.message() == "Failed to welcome"@,
{
    if any_failed {
        Err(Error::RuntimeError(String::from_str("Failed to welcome")))
    } else {
        Ok(())
    }
}

/// Whether the bot is one of the users.
pub fn botAmong(config: &ConfigParams, users: &Vec<User>) -> (found: bool)
    ensures
        found == bot_among(*config, users@),
{
    let n = users.len();
    let mut k: usize = 0;
    while k < n
        invariant
            n == users@.len(),
            k <= n,
            forall|i: int| 0 <= i < k ==> !is_bot(*config, #[trigger] users@[i]),
        decreases n - k,
    {
        match &users[k].username {
            Some(nick) => {
                if sameText(nick.as_str(), config.general.username.as_str()) {
                    return true;
                }
            },
            None => {},
        }
        k += 1;
    }
    false
}

/// Handles the arrival of new members in `chat`.
pub fn onNewChatMembers(
    config: &ConfigParams,
    new_users: &Vec<User>,
    chat: &Channel,
    store: &mut RuntimeStore,
) -> (r: Result<Vec<Request>, Error>)
    requires
        old(store).wf(),
    ensures
        final(store).wf(),
        members_handled(*config, new_users@, *chat, old(store)@, final(store)@, r),
{
    if botAmong(config, new_users) {
        let mut info = match RuntimeInfo::load(store) {
            Ok(info) => info,
            Err(e) => {
                return Err(e);
            },
        };
        if info.registerChat(chat.id) {
            let _ = info.save(store);
        }
        Ok(Vec::new())
    } else if config.general.do_welcome {
        welcome(config, new_users, chat)
    } else {
        Ok(Vec::new())
    }
}

/// Handles a post in a channel: only a notice of new members matters.
pub fn onChannelPost(config: &ConfigParams, post: ChannelPost, store: &mut RuntimeStore) -> (r:
    Result<Vec<Request>, Error>)
    requires
        old(store).wf(),
    ensures
        final(store).wf(),
        post_handled(*config, post, old(store)@, final(store)@, r),
{
    match &post.kind {
        MessageKind::NewChatMembers { data } => onNewChatMembers(config, data, &post.chat, store),
        _ => Ok(Vec::new()),
    }
}

/// What `onMessage` does: a wa in reply to an ordinary message is tracked,
/// any other message is ignored.
pub open spec fn message_handled(
    config: ConfigParams,
    msg: Message,
    log_before: Seq<WaEntry>,
    log_after: Seq<WaEntry>,
    info_before: Option<RuntimeInfoView>,
    info_after: Option<RuntimeInfoView>,
    r: Result<Option<Request>, Error>,
) -> bool {
    if is_wa_reply(msg) {
        wa_handled(config, msg, log_before, log_after, info_before, info_after, r)
    } else {
        ignored(log_before, log_after, info_before, info_after, r)
    }
}

/// The one request of a list that holds one at most.
pub open spec fn at_most_one(r: Result<Vec<Request>, Error>) -> Result<Option<Request>, Error> {
    match r {
        Ok(reqs) => if reqs@.len() == 0 {
            Ok(None)
        } else {
            Ok(Some(reqs@[0]))
        },
        Err(e) => Err(e),
    }
}

/// What `onUpdate` does with each kind of update. An error concerns this
/// update alone: the stores are valid after it and the next update is
/// handled as if it had not happened.
pub open spec fn update_handled(
    config: ConfigParams,
    update: UpdateKind,
    log_before: Seq<WaEntry>,
    log_after: Seq<WaEntry>,
    info_before: Option<RuntimeInfoView>,
    info_after: Option<RuntimeInfoView>,
    r: Result<Vec<Request>, Error>,
) -> bool {
    match update {
        UpdateKind::Message(msg) => {
            &&& message_handled(
                config,
                msg,
                log_before,
                log_after,
                info_before,
                info_after,
                at_most_one(r),
            )
            &&& r matches Ok(reqs) ==> reqs@.len() <= 1
        },
        UpdateKind::ChannelPost(post) => log_after == log_before && post_handled(
            config,
            post,
            info_before,
            info_after,
            r,
        ),
        UpdateKind::Other => log_after == log_before && info_after == info_before
            && nothing_to_send(r),
    }
}

/// Routes one update of the platform's stream: a message to the reaction
/// tracker, a channel post to the membership rules. Returns the requests to
/// carry out, in order.
pub fn onUpdate(
    config: &ConfigParams,
    update: UpdateKind,
    log: &mut WaLog,
    store: &mut RuntimeStore,
) -> (r: Result<Vec<Request>, Error>)
    requires
        old(log).wf(),
        old(store).wf(),
    ensures
        final(log).wf(),
        final(store).wf(),
        update_handled(*config, update, old(log)@, final(log)@, old(store)@, final(store)@, r),
{
    match update {
        UpdateKind::Message(message) => {
            match onMessage(config, message, log, store) {
                Ok(Some(req)) => {
                    let mut reqs: Vec<Request> = Vec::new();
                    reqs.push(req);
                    Ok(reqs)
                },
                Ok(None) => Ok(Vec::new()),
                Err(e) => Err(e),
            }
        },
        UpdateKind::ChannelPost(post) => onChannelPost(config, post, store),
        UpdateKind::Other => Ok(Vec::new()),
    }
}

/// An update that ends in an error leaves both stores as they were: what
/// goes wrong with one update does not touch what the next one finds.
pub proof fn lemma_failed_update_changes_nothing(
    config: ConfigParams,
    update: UpdateKind,
    log_before: Seq<WaEntry>,
    log_after: Seq<WaEntry>,
    info_before: Option<RuntimeInfoView>,
    info_after: Option<RuntimeInfoView>,
    r: Result<Vec<Request>, Error>,
)
    requires
        update_handled(config, update, log_before, log_after, info_before, info_after, r),
        r is Err,
    ensures
        log_after == log_before,
        info_after == info_before,
{
}

} // verus!
