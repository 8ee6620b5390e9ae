//! The bot's rules: the runtime state record, reaction tracking under both
//! counting policies, and the routing of platform events.
use vstd::prelude::*;
use vstd::string::*;

use crate::bot_config::{ConfigParams, ReactionPolicy};
use crate::chat_db::{addWa, count_for, has_id, is_for, WaEntry, WaLog};
use crate::error::Error;
use crate::telegram::{
    display_name, drawBetween, getParentMsgId, getUsername, parent_msg_id, replyWithDelay,
    Message, MessageKind, MessageOrChannelPost, Request, DELAY_MAX_MS, DELAY_MIN_MS,
};
use crate::text::{hasPrefix, starts_with};

verus! {

/// The number of reactions at which the bot joins in.
pub const WA_THRESHOLD: u32 = 3;

/// What the runtime state record holds.
pub struct RuntimeInfoView {
    /// The chats the bot has been added to, each once.
    pub chat_id: Seq<i64>,
    /// The message that carried the last digest.
    pub last_msg_id: Option<i64>,
    /// Reactions to that message since it was sent or since the bot last
    /// joined in.
    pub wa_count: u32,
}

/// A record is valid when no chat occurs twice and the counter is below the
/// threshold.
pub open spec fn info_wf(v: RuntimeInfoView) -> bool {
    v.chat_id.no_duplicates() && v.wa_count < WA_THRESHOLD
}

/// The record of a process that has seen nothing yet.
pub open spec fn fresh_info() -> RuntimeInfoView {
    RuntimeInfoView { chat_id: Seq::empty(), last_msg_id: None, wa_count: 0 }
}

/// The record once the bot knows to be in `chat`.
pub open spec fn chat_registered(v: RuntimeInfoView, chat: i64) -> RuntimeInfoView {
    if v.chat_id.contains(chat) {
        v
    } else {
        RuntimeInfoView { chat_id: v.chat_id.push(chat), ..v }
    }
}

/// The record once the digest went out as message `msg_id`: that message is
/// the active one and the counter starts anew.
pub open spec fn digest_sent(v: RuntimeInfoView, msg_id: i64) -> RuntimeInfoView {
    RuntimeInfoView { last_msg_id: Some(msg_id), wa_count: 0, ..v }
}

/// Whether one more reaction to the active digest reaches the threshold.
pub open spec fn reaction_fires(v: RuntimeInfoView) -> bool {
    v.wa_count + 1 >= WA_THRESHOLD
}

/// The record after one more reaction to the active digest: the counter goes
/// up by one, or back to zero where it reaches the threshold.
pub open spec fn reaction_counted(v: RuntimeInfoView) -> RuntimeInfoView {
    RuntimeInfoView {
        wa_count: if reaction_fires(v) {
            0
        } else {
            (v.wa_count + 1) as u32
        },
        ..v
    }
}

/// Whatever the library does to a record keeps it valid, and the counter is
/// at zero whenever the active digest is another than before or the
/// threshold was reached.
pub proof fn lemma_counter_starts_anew(v: RuntimeInfoView, chat: i64, msg_id: i64)
    requires
        info_wf(v),
    ensures
        info_wf(chat_registered(v, chat)),
        info_wf(digest_sent(v, msg_id)),
        info_wf(reaction_counted(v)),
        chat_registered(v, chat).last_msg_id == v.last_msg_id,
        chat_registered(v, chat).wa_count == v.wa_count,
        digest_sent(v, msg_id).wa_count == 0,
        reaction_counted(v).last_msg_id == v.last_msg_id,
        reaction_fires(v) ==> reaction_counted(v).wa_count == 0,
{
    if !v.chat_id.contains(chat) {
        let grown = v.chat_id.push(chat);
        assert forall|i: int, j: int| 0 <= i < grown.len() && 0 <= j < grown.len() && i
            != j implies grown[i] != grown[j] by {
            if i < v.chat_id.len() && j < v.chat_id.len() {
                assert(v.chat_id[i] != v.chat_id[j]);
            } else if i < v.chat_id.len() {
                assert(v.chat_id.contains(v.chat_id[i]));
            } else {
                assert(v.chat_id.contains(v.chat_id[j]));
            }
        }
    }
}

/// The bot's session state: the chats it is in, the active digest message
/// and the reactions counted towards the next reply to it.
pub struct RuntimeInfo {
    chat_id: Vec<i64>,
    last_msg_id: Option<i64>,
    wa_count: u32,
}

impl View for RuntimeInfo {
    type V = RuntimeInfoView;

    closed spec fn view(&self) -> RuntimeInfoView {
        RuntimeInfoView {
            chat_id: self.chat_id@,
            last_msg_id: self.last_msg_id,
            wa_count: self.wa_count,
        }
    }
}

/// The place where the record survives a restart: empty, or holding the
/// record that was saved last.
pub struct RuntimeStore {
    slot: Option<RuntimeInfo>,
}

impl View for RuntimeStore {
    type V = Option<RuntimeInfoView>;

    closed spec fn view(&self) -> Option<RuntimeInfoView> {
        match self.slot {
            Some(info) => Some(info@),
            None => None,
        }
    }
}

impl RuntimeStore {
    /// What the store holds, if anything, is a valid record.
    pub open spec fn wf(&self) -> bool {
        self@ matches Some(v) ==> info_wf(v)
    }

    /// A store that holds nothing.
    pub fn new() -> (store: Self)
        ensures
            store@ is None,
            store.wf(),
    {
        RuntimeStore { slot: None }
    }
}

/// Whether `v` holds `x`.
fn holds(v: &Vec<i64>, x: i64) -> (found: bool)
    ensures
        found == v@.contains(x),
{
    let n = v.len();
    let mut k: usize = 0;
    while k < n
        invariant
            n == v@.len(),
            k <= n,
            forall|i: int| 0 <= i < k ==> v@[i] != x,
        decreases n - k,
    {
        if v[k] == x {
            return true;
        }
        k += 1;
    }
    false
}

/// A copy of `v`.
fn copyOf(v: &Vec<i64>) -> (w: Vec<i64>)
    ensures
        w@ == v@,
{
    let n = v.len();
    let mut w: Vec<i64> = Vec::new();
    let mut k: usize = 0;
    while k < n
        invariant
            n == v@.len(),
            k <= n,
            w@ == v@.take(k as int),
        decreases n - k,
    {
        w.push(v[k]);
        assert(v@.take(k + 1) =~= v@.take(k as int).push(v@[k as int]));
        k += 1;
    }
    assert(v@.take(n as int) =~= v@);
    w
}

/// Whether some value occurs twice in `v`.
fn repeats(v: &Vec<i64>) -> (found: bool)
    ensures
        found == !v@.no_duplicates(),
{
    let n = v.len();
    let mut k: usize = 0;
    while k < n
        invariant
            n == v@.len(),
            k <= n,
            forall|i: int, j: int| 0 <= i < j < k ==> v@[i] != v@[j],
        decreases n - k,
    {
        let mut m: usize = 0;
        while m < k
            invariant
                n == v@.len(),
                k < n,
                m <= k,
                forall|i: int| 0 <= i < m ==> v@[i] != v@[k as int],
            decreases k - m,
        {
            if v[m] == v[k] {
                return true;
            }
            m += 1;
        }
        k += 1;
    }
    false
}

impl RuntimeInfo {
    /// The record is valid.
    pub open spec fn wf(&self) -> bool {
        info_wf(self@)
    }

    /// The record of a process that has seen nothing yet.
    pub fn new() -> (info: Self)
        ensures
            info@ == fresh_info(),
            info.wf(),
    {
        Self { chat_id: Vec::new(), last_msg_id: None, wa_count: 0 }
    }

    /// The record with the given fields, as read back from storage. A record
    /// that names a chat twice or whose counter has reached the threshold is
    /// corrupt.
    pub fn fromParts(chat_id: Vec<i64>, last_msg_id: Option<i64>, wa_count: u32) -> (r: Result<
        Self,
        Error,
    >)
        ensures
            r is Ok <==> info_wf(RuntimeInfoView { chat_id: chat_id@, last_msg_id, wa_count }),
            r matches Ok(info) ==> info@ == (RuntimeInfoView {
                chat_id: chat_id@,
                last_msg_id,
                wa_count,
            }),
            r matches Err(e) ==> e is DBError && e.message() == "Corrupt runtime info"@,
    {
        if wa_count >= WA_THRESHOLD || repeats(&chat_id) {
            Err(Error::DBError(String::from_str("Corrupt runtime info")))
        } else {
            Ok(Self { chat_id, last_msg_id, wa_count })
        }
    }

    /// The chats the bot is in.
    pub fn chatIds(&self) -> (ids: &Vec<i64>)
        ensures
            ids@ == self@.chat_id,
    {
        &self.chat_id
    }

    /// The message that carried the last digest.
    pub fn lastMsgId(&self) -> (id: Option<i64>)
        ensures
            id == self@.last_msg_id,
    {
        self.last_msg_id
    }

    /// The reactions counted towards the next reply to the digest.
    pub fn waCount(&self) -> (n: u32)
        ensures
            n == self@.wa_count,
    {
        self.wa_count
    }

    /// Notes that the bot is in `chat`. Says whether that was news.
    pub fn registerChat(&mut self, chat: i64) -> (added: bool)
        requires
            old(self).wf(),
        ensures
            final(self).wf(),
            final(self)@ == chat_registered(old(self)@, chat),
            added == !old(self)@.chat_id.contains(chat),
    {
        if holds(&self.chat_id, chat) {
            false
        } else {
            self.chat_id.push(chat);
            true
        }
    }

    /// Notes that the digest went out as message `msg_id`.
    pub fn setDigestMessage(&mut self, msg_id: i64)
        requires
            old(self).wf(),
        ensures
            final(self).wf(),
            final(self)@ == digest_sent(old(self)@, msg_id),
    {
        self.last_msg_id = Some(msg_id);
        self.wa_count = 0;
    }

    /// Counts one reaction to the active digest. Says whether the threshold
    /// was reached; the counter then starts anew.
    pub fn countReaction(&mut self) -> (fire: bool)
        requires
            old(self).wf(),
        ensures
            final(self).wf(),
            final(self)@ == reaction_counted(old(self)@),
            fire == reaction_fires(old(self)@),
    {
        if self.wa_count + 1 >= WA_THRESHOLD {
            self.wa_count = 0;
            true
        } else {
            self.wa_count = self.wa_count + 1;
            false
        }
    }

    /// Whether the store holds a record.
    pub fn exist(store: &RuntimeStore) -> (found: bool)
        ensures
            found == store@ is Some,
    {
        store.slot.is_some()
    }

    /// The record that the store holds. The store is left as it is, so that
    /// loading again gives the same record.
    pub fn load(store: &RuntimeStore) -> (r: Result<Self, Error>)
        ensures
            r is Ok <==> store@ is Some,
            r matches Ok(info) ==> store@ == Some(info@),
            r matches Err(e) ==> e is NotFound && e.message() == "No runtime info"@,
    {
        match &store.slot {
            Some(info) => Ok(
                Self {
                    chat_id: copyOf(&info.chat_id),
                    last_msg_id: info.last_msg_id,
                    wa_count: info.wa_count,
                },
            ),
            None => Err(Error::NotFound(String::from_str("No runtime info"))),
        }
    }

    /// Puts the record in the store, in place of whatever was there.
    pub fn save(&self, store: &mut RuntimeStore) -> (r: Result<(), Error>)
        ensures
            r is Ok,
            final(store)@ == Some(self@),
            self.wf() ==> final(store).wf(),
    {
        store.slot = Some(
            Self {
                chat_id: copyOf(&self.chat_id),
                last_msg_id: self.last_msg_id,
                wa_count: self.wa_count,
            },
        );
        Ok(())
    }
}

/// A text is a wa when it begins with the glyph.
pub open spec fn is_wa_text(text: Seq<char>) -> bool {
    starts_with(text, "哇"@)
}

/// The message was sent in the one chat the bot is set up for.
pub open spec fn in_group(config: ConfigParams, msg: Message) -> bool {
    config.general.group_id == Some(msg.chat)
}

/// `e` is the row that records `msg` as a wa for `target`.
pub open spec fn is_wa_row(e: WaEntry, msg: Message, target: i64) -> bool {
    &&& e.wa_to == target
    &&& e.id == msg.id
    &&& e.waer == msg.from.id
    &&& e.waer_name@ == display_name(msg.from)
    &&& e.time == msg.date
}

/// The error for a wa that replies to nothing the bot can name.
pub open spec fn is_no_reply_error(e: Error) -> bool {
    e is RuntimeError && e.message() == "Wa is not a reply"@
}

/// What tracking a wa under the per-target policy does to the log, and
/// whether it asks for a reply, and to which message.
pub open spec fn per_target_tracked(
    config: ConfigParams,
    msg: Message,
    before: Seq<WaEntry>,
    after: Seq<WaEntry>,
    fired: Result<Option<i64>, Error>,
) -> bool {
    if !in_group(config, msg) {
        after == before && fired == Ok::<Option<i64>, Error>(None)
    } else {
        match parent_msg_id(msg) {
            None => after == before && fired is Err && is_no_reply_error(fired->Err_0),
            Some(target) => if has_id(before, msg.id) || count_for(before, target) >= u32::MAX {
                &&& after == before
                &&& fired is Err
                &&& fired->Err_0 is DBError
                &&& fired->Err_0.message() == "Failed to add a wa"@
            } else {
                &&& after.len() == before.len() + 1
                &&& after.drop_last() == before
                &&& is_wa_row(after.last(), msg, target)
                &&& fired == if count_for(after, target) == WA_THRESHOLD {
                    Ok::<Option<i64>, Error>(Some(target))
                } else {
                    Ok::<Option<i64>, Error>(None)
                }
            },
        }
    }
}

/// What tracking a wa under the digest-scoped policy does to the record,
/// and whether it asks for a reply, and to which message.
pub open spec fn digest_tracked(
    config: ConfigParams,
    msg: Message,
    before: RuntimeInfoView,
    after: RuntimeInfoView,
    fired: Result<Option<i64>, Error>,
) -> bool {
    if !in_group(config, msg) {
        after == before && fired == Ok::<Option<i64>, Error>(None)
    } else {
        match parent_msg_id(msg) {
            None => after == before && fired is Err && is_no_reply_error(fired->Err_0),
            Some(target) => if before.last_msg_id != Some(target) {
                after == before && fired == Ok::<Option<i64>, Error>(None)
            } else {
                &&& after == reaction_counted(before)
                &&& fired == if reaction_fires(before) {
                    Ok::<Option<i64>, Error>(Some(target))
                } else {
                    Ok::<Option<i64>, Error>(None)
                }
            },
        }
    }
}

/// Tracks the wa `msg` under the per-target policy: outside the group it is
/// ignored; else it is added to the log, and when its target then has
/// exactly `WA_THRESHOLD` reactions the target's id is returned.
pub fn trackPerTarget(config: &ConfigParams, msg: &Message, log: &mut WaLog) -> (fired: Result<
    Option<i64>,
    Error,
>)
    requires
        old(log).wf(),
    ensures
        final(log).wf(),
        per_target_tracked(*config, *msg, old(log)@, final(log)@, fired),
{
    match config.general.group_id {
        Some(correct_chat) => {
            if msg.chat != correct_chat {
                return Ok(None);
            }
        },
        None => {
            return Ok(None);
        },
    }
    let waable_id = match getParentMsgId(msg) {
        Some(id) => id,
        None => {
            return Err(Error::RuntimeError(String::from_str("Wa is not a reply")));
        },
    };
    let entry = WaEntry {
        wa_to: waable_id,
        id: msg.id,
        waer: msg.from.id,
        waer_name: getUsername(&msg.from),
        time: msg.date,
    };
    match addWa(log, entry) {
        Ok(wa_count) => {
            assert(log@.drop_last() =~= old(log)@);
            if wa_count == WA_THRESHOLD {
                Ok(Some(waable_id))
            } else {
                Ok(None)
            }
        },
        Err(e) => Err(e),
    }
}

/// What tracking a wa under the digest-scoped policy does to the store:
/// the record in it changes as `digest_tracked` says. An empty store stays
/// empty: a wa that would be counted finds no record, which is the error
/// `NotFound`; any other is answered as if nothing had been counted yet.
pub open spec fn digest_handled(
    config: ConfigParams,
    msg: Message,
    before: Option<RuntimeInfoView>,
    after: Option<RuntimeInfoView>,
    fired: Result<Option<i64>, Error>,
) -> bool {
    match before {
        Some(v) => after is Some && digest_tracked(config, msg, v, after->Some_0, fired),
        None => {
            &&& after is None
            &&& if !in_group(config, msg) {
                fired == Ok::<Option<i64>, Error>(None)
            } else if parent_msg_id(msg) is None {
                fired is Err && is_no_reply_error(fired->Err_0)
            } else {
                fired is Err && fired->Err_0 is NotFound && fired->Err_0.message()
                    == "No runtime info"@
            }
        },
    }
}

/// Tracks the wa `msg` under the digest-scoped policy: outside the group,
/// or as a reply to another message than the active digest, it is ignored;
/// else the counter in the stored record goes up, and when it reaches
/// `WA_THRESHOLD` it starts anew and the digest's id is returned.
pub fn trackDigest(config: &ConfigParams, msg: &Message, store: &mut RuntimeStore) -> (fired:
    Result<Option<i64>, Error>)
    requires
        old(store).wf(),
    ensures
        final(store).wf(),
        digest_handled(*config, *msg, old(store)@, final(store)@, fired),
{
    match config.general.group_id {
        Some(correct_chat) => {
            if msg.chat != correct_chat {
                return Ok(None);
            }
        },
        None => {
            return Ok(None);
        },
    }
    let target = match getParentMsgId(msg) {
        Some(id) => id,
        None => {
            return Err(Error::RuntimeError(String::from_str("Wa is not a reply")));
        },
    };
    let mut info = match RuntimeInfo::load(store) {
        Ok(info) => info,
        Err(e) => {
            return Err(e);
        },
    };
    match info.lastMsgId() {
        Some(active) => {
            if active != target {
                return Ok(None);
            }
        },
        None => {
            return Ok(None);
        },
    }
    let fire = info.countReaction();
    let _ = info.save(store);
    if fire {
        Ok(Some(target))
    } else {
        Ok(None)
    }
}

/// The target that a handler's answer asks to reply to, if any.
pub open spec fn fired_of(r: Result<Option<Request>, Error>) -> Result<Option<i64>, Error> {
    match r {
        Ok(Some(Request::ReplyWithDelay { reply_to_id, .. })) => Ok(Some(reply_to_id)),
        Ok(_) => Ok(None),
        Err(e) => Err(e),
    }
}

/// `req` is the bot's own wa: a delayed reply in `chat`, with the delay
/// within its bounds.
pub open spec fn is_wa_answer(req: Request, chat: i64) -> bool {
    &&& req matches Request::ReplyWithDelay { chat_id, text, delay_ms, .. }
    &&& chat_id == chat
    &&& text@ == "哇！"@
    &&& DELAY_MIN_MS <= delay_ms <= DELAY_MAX_MS
}

/// What handling the wa `msg` does under the configured policy: its store
/// changes as tracking says, the other store stays, and a request comes back
/// exactly when tracking asks for a reply.
pub open spec fn wa_handled(
    config: ConfigParams,
    msg: Message,
    log_before: Seq<WaEntry>,
    log_after: Seq<WaEntry>,
    info_before: Option<RuntimeInfoView>,
    info_after: Option<RuntimeInfoView>,
    r: Result<Option<Request>, Error>,
) -> bool {
    &&& match config.general.policy {
        ReactionPolicy::PerTarget => per_target_tracked(
            config,
            msg,
            log_before,
            log_after,
            fired_of(r),
        ) && info_after == info_before,
        ReactionPolicy::DigestScoped => digest_handled(
            config,
            msg,
            info_before,
            info_after,
            fired_of(r),
        ) && log_after == log_before,
    }
    &&& r matches Ok(Some(req)) ==> is_wa_answer(req, msg.chat)
}

/// Nothing changed and nothing is asked for.
pub open spec fn ignored(
    log_before: Seq<WaEntry>,
    log_after: Seq<WaEntry>,
    info_before: Option<RuntimeInfoView>,
    info_after: Option<RuntimeInfoView>,
    r: Result<Option<Request>, Error>,
) -> bool {
    log_after == log_before && info_after == info_before && r matches Ok(None)
}

/// The request that answers a crossed threshold: the bot's own wa as a
/// reply to `target` in `chat`, after `delay_ms` milliseconds.
pub fn waAnswer(target: i64, chat: i64, delay_ms: u64) -> (req: Request)
    ensures
        req matches Request::ReplyWithDelay { chat_id, text, reply_to_id, delay_ms: d } && chat_id
            == chat && text@ == "哇！"@ && reply_to_id == target && d == delay_ms,
{
    replyWithDelay(String::from_str("哇！"), target, chat, delay_ms)
}

/// Handles a wa: tracks it under the configured policy and, where the threshold is
/// crossed, asks for the bot's own wa after a delay drawn at random.
pub fn onWaReply(
    config: &ConfigParams,
    msg: &Message,
    log: &mut WaLog,
    store: &mut RuntimeStore,
) -> (r: Result<Option<Request>, Error>)
    requires
        old(log).wf(),
        old(store).wf(),
    ensures
        final(log).wf(),
        final(store).wf(),
        wa_handled(*config, *msg, old(log)@, final(log)@, old(store)@, final(store)@, r),
{
    let fired = match config.general.policy {
        ReactionPolicy::PerTarget => trackPerTarget(config, msg, log),
        ReactionPolicy::DigestScoped => trackDigest(config, msg, store),
    };
    match fired {
        Ok(Some(target)) => {
            let delay_ms = drawBetween(DELAY_MIN_MS, DELAY_MAX_MS + 1);
            Ok(Some(waAnswer(target, msg.chat, delay_ms)))
        },
        Ok(None) => Ok(None),
        Err(e) => Err(e),
    }
}

/// Whether `msg` is a text that begins with the glyph.
pub open spec fn is_wa(msg: Message) -> bool {
    msg.kind matches MessageKind::Text { data } && is_wa_text(data@)
}

/// Handles a text reply to an ordinary message: a wa is tracked, any other
/// text is ignored.
pub fn onTextReplyToMsg(
    config: &ConfigParams,
    msg: &Message,
    log: &mut WaLog,
    store: &mut RuntimeStore,
) -> (r: Result<Option<Request>, Error>)
    requires
        old(log).wf(),
        old(store).wf(),
    ensures
        final(log).wf(),
        final(store).wf(),
        if is_wa(*msg) {
            wa_handled(*config, *msg, old(log)@, final(log)@, old(store)@, final(store)@, r)
        } else {
            ignored(old(log)@, final(log)@, old(store)@, final(store)@, r)
        },
{
    if let MessageKind::Text { data } = &msg.kind {
        if hasPrefix(data.as_str(), "哇") {
            return onWaReply(config, msg, log, store);
        }
    }
    Ok(None)
}

/// Handles a text reply: one to an ordinary message goes on to
/// `onTextReplyToMsg`, one to a channel post is ignored.
pub fn onTextReply(
    config: &ConfigParams,
    msg: &Message,
    reply_to: &MessageOrChannelPost,
    log: &mut WaLog,
    store: &mut RuntimeStore,
) -> (r: Result<Option<Request>, Error>)
    requires
        old(log).wf(),
        old(store).wf(),
    ensures
        final(log).wf(),
        final(store).wf(),
        if reply_to is Message && is_wa(*msg) {
            wa_handled(*config, *msg, old(log)@, final(log)@, old(store)@, final(store)@, r)
        } else {
            ignored(old(log)@, final(log)@, old(store)@, final(store)@, r)
        },
{
    match reply_to {
        MessageOrChannelPost::Message { .. } => onTextReplyToMsg(config, msg, log, store),
        MessageOrChannelPost::ChannelPost { .. } => Ok(None),
    }
}

/// Whether `msg` is a wa in reply to an ordinary message: the one kind of
/// message the bot acts on.
pub open spec fn is_wa_reply(msg: Message) -> bool {
    is_wa(msg) && msg.reply_to_message matches Some(MessageOrChannelPost::Message { .. })
}

/// Handles an ordinary message: a text that replies to something goes on to
/// `onTextReply`, anything else is ignored.
pub fn onMessage(
    config: &ConfigParams,
    msg: Message,
    log: &mut WaLog,
    store: &mut RuntimeStore,
) -> (r: Result<Option<Request>, Error>)
    requires
        old(log).wf(),
        old(store).wf(),
    ensures
        final(log).wf(),
        final(store).wf(),
        if is_wa_reply(msg) {
            wa_handled(*config, msg, old(log)@, final(log)@, old(store)@, final(store)@, r)
        } else {
            ignored(old(log)@, final(log)@, old(store)@, final(store)@, r)
        },
{
    match &msg.kind {
        MessageKind::Text { .. } => {
            match &msg.reply_to_message {
                Some(reply_to) => onTextReply(config, &msg, reply_to, log, store),
                None => Ok(None),
            }
        },
        _ => Ok(None),
    }
}

/// Under the per-target policy a wa that is recorded asks for the bot's own
/// wa exactly when it is the third for its target: with two reactions stored
/// before it the reply is asked for, once, to the target and in the group;
/// with fewer, or with three or more, the row is stored all the same and
/// nothing is asked for. A wa is recorded when it is sent in the group as a
/// reply to an ordinary message, its id is new, and its target's count can
/// still go up.
pub proof fn lemma_reply_at_the_third_only(
    config: ConfigParams,
    msg: Message,
    target: i64,
    log_before: Seq<WaEntry>,
    log_after: Seq<WaEntry>,
    info_before: Option<RuntimeInfoView>,
    info_after: Option<RuntimeInfoView>,
    r: Result<Option<Request>, Error>,
)
    requires
        config.general.policy == ReactionPolicy::PerTarget,
        in_group(config, msg),
        parent_msg_id(msg) == Some(target),
        !has_id(log_before, msg.id),
        count_for(log_before, target) < u32::MAX,
        wa_handled(config, msg, log_before, log_after, info_before, info_after, r),
    ensures
        r is Ok,
        log_after.len() == log_before.len() + 1,
        log_after.drop_last() == log_before,
        is_wa_row(log_after.last(), msg, target),
        count_for(log_after, target) == count_for(log_before, target) + 1,
        info_after == info_before,
        r->Ok_0 is Some <==> count_for(log_before, target) == WA_THRESHOLD - 1,
        r matches Ok(Some(req)) ==> is_wa_answer(req, msg.chat) && fired_of(r) == Ok::<
            Option<i64>,
            Error,
        >(Some(target)),
{
    assert(log_after =~= log_after.drop_last().push(log_after.last()));
    log_before.lemma_filter_len_push(is_for(target), log_after.last());
}

/// Under the per-target policy, whether the reaction at position `k` of
/// `added`, recorded after `rows` and the reactions before it, asks for a
/// reply: its target then has exactly `WA_THRESHOLD` reactions.
pub open spec fn fires_at(rows: Seq<WaEntry>, added: Seq<WaEntry>, target: i64, k: int) -> bool {
    count_for(rows + added.take(k + 1), target) == WA_THRESHOLD
}

/// The per-target policy asks for one reply per target at most, and
/// precisely when the count goes from two to three: of reactions to one
/// target recorded one after another, the one that brings the count to
/// `WA_THRESHOLD` fires and no other does, neither before it nor after.
pub proof fn lemma_per_target_fires_once(rows: Seq<WaEntry>, added: Seq<WaEntry>, target: i64)
    requires
        forall|i: int| 0 <= i < added.len() ==> (#[trigger] added[i]).wa_to == target,
    ensures
        forall|k: int|
            0 <= k < added.len() ==> (#[trigger] fires_at(rows, added, target, k) <==> count_for(
                rows,
                target,
            ) + k == WA_THRESHOLD - 1),
        forall|k: int, m: int|
            0 <= k < added.len() && 0 <= m < added.len() && #[trigger] fires_at(
                rows,
                added,
                target,
                k,
            ) && #[trigger] fires_at(rows, added, target, m) ==> k == m,
{
    assert forall|k: int| 0 <= k < added.len() implies (#[trigger] fires_at(
        rows,
        added,
        target,
        k,
    ) <==> count_for(rows, target) + k == WA_THRESHOLD - 1) by {
        crate::chat_db::lemma_every_reaction_counted(rows, added.take(k + 1), target);
    }
}

/// The record after `n` reactions to the active digest, counted one after
/// another.
pub open spec fn counted_times(v: RuntimeInfoView, n: nat) -> RuntimeInfoView
    decreases n,
{
    if n == 0 {
        v
    } else {
        reaction_counted(counted_times(v, (n - 1) as nat))
    }
}

/// Counting on by one, modulo the threshold.
proof fn lemma_next_modulo(x: int)
    requires
        x >= 0,
    ensures
        0 <= x % 3 < 3,
        (x + 1) % 3 == if x % 3 == 2 {
            0
        } else {
            x % 3 + 1
        },
{
}

/// Under the digest-scoped policy the counter runs 1, 2, and back to 0 with
/// a reply at every third reaction: after `n` reactions it holds the old
/// count plus `n`, modulo `WA_THRESHOLD`; the last of them fires exactly when
/// that is zero; the record stays valid, so the counter is never above two;
/// and nothing else in the record changes.
pub proof fn lemma_digest_counter_cycles(v: RuntimeInfoView, n: nat)
    requires
        info_wf(v),
    ensures
        info_wf(counted_times(v, n)),
        counted_times(v, n).wa_count == (v.wa_count + n) % 3,
        counted_times(v, n).chat_id == v.chat_id,
        counted_times(v, n).last_msg_id == v.last_msg_id,
        n > 0 ==> (reaction_fires(counted_times(v, (n - 1) as nat)) <==> (v.wa_count + n) % 3 == 0),
    decreases n,
{
    if n == 0 {
        assert(v.wa_count % 3 == v.wa_count);
    } else {
        let before = counted_times(v, (n - 1) as nat);
        lemma_digest_counter_cycles(v, (n - 1) as nat);
        lemma_next_modulo(v.wa_count + n - 1);
        assert(before.wa_count == (v.wa_count + n - 1) % 3);
        assert(counted_times(v, n) == reaction_counted(before));
    }
}

} // verus!
