//! What the bot sees of the chat platform, as plain values: users, messages
//! and updates coming in, requests going out.
use vstd::prelude::*;
use vstd::string::*;

verus! {

/// A user of the chat platform.
pub struct User {
    pub id: i64,
    pub first_name: String,
    pub last_name: Option<String>,
    /// The nick name, without the `@`.
    pub username: Option<String>,
}

/// A channel, as far as the bot reads it.
pub struct Channel {
    pub id: i64,
    pub title: String,
}

/// What a message carries.
#[allow(inconsistent_fields)]
pub enum MessageKind {
    /// Plain text.
    Text { data: String },
    /// Notice that users have joined the chat.
    NewChatMembers { data: Vec<User> },
    /// Anything else.
    Other,
}

/// What a reply answers: an ordinary message or a post in a channel.
pub enum MessageOrChannelPost {
    Message { id: i64 },
    ChannelPost { id: i64 },
}

/// An ordinary message.
pub struct Message {
    pub id: i64,
    /// The sender.
    pub from: User,
    /// When it was sent, in seconds since the Unix epoch.
    pub date: i64,
    /// The id of the chat it was sent in.
    pub chat: i64,
    /// What it replies to, if it is a reply.
    pub reply_to_message: Option<MessageOrChannelPost>,
    pub kind: MessageKind,
}

/// A post in a channel.
pub struct ChannelPost {
    pub id: i64,
    /// When it was sent, in seconds since the Unix epoch.
    pub date: i64,
    pub chat: Channel,
    pub kind: MessageKind,
}

/// One event of the platform's update stream.
pub enum UpdateKind {
    Message(Message),
    ChannelPost(ChannelPost),
    /// An update of a kind the bot does not handle.
    Other,
}

/// A request for the platform, to be carried out by whoever holds the
/// connection.
pub enum Request {
    /// Send `text` to the chat.
    SendMessage { chat_id: i64, text: String },
    /// Send `text` to the chat as a reply to the message `reply_to_id`.
    SendReply { chat_id: i64, text: String, reply_to_id: i64 },
    /// Wait `delay_ms` milliseconds off the event path, then send `text` to
    /// the chat as a reply to the message `reply_to_id`.
    ReplyWithDelay { chat_id: i64, text: String, reply_to_id: i64, delay_ms: u64 },
    /// Send the photo at `uri` to the chat, with a caption.
    SendPhoto { chat_id: i64, uri: String, caption: String },
}

/// The shortest delay of a delayed reply, in milliseconds.
pub const DELAY_MIN_MS: u64 = 10_000;

/// The longest delay of a delayed reply, in milliseconds.
pub const DELAY_MAX_MS: u64 = 600_000;

/// The first name, and after a space the last name where there is one.
pub open spec fn full_name(u: User) -> Seq<char> {
    match u.last_name {
        Some(last) => u.first_name@ + " "@ + last@,
        None => u.first_name@,
    }
}

/// `@` and the nick name where there is one, else the full name.
pub open spec fn display_name(u: User) -> Seq<char> {
    match u.username {
        Some(nick) => "@"@ + nick@,
        None => full_name(u),
    }
}

/// The id of the ordinary message that `msg` replies to, if it replies to one.
pub open spec fn parent_msg_id(msg: Message) -> Option<i64> {
    match msg.reply_to_message {
        Some(MessageOrChannelPost::Message { id }) => Some(id),
        _ => None,
    }
}

/// Calls `rand::thread_rng()` and `Rng::gen_range` on it: a number drawn
/// uniformly from the half-open range from `low` up to `high`, so at least
/// `low` and less than `high`. Which number is not known. `gen_range`
/// panics where the range is empty, so that is left out.
#[verifier::external_body]
pub(crate) fn drawBetween(low: u64, high: u64) -> (r: u64)
    requires
        low < high,
    ensures
        low <= r < high,
{
    rand::Rng::gen_range(&mut rand::thread_rng(), low, high)
}

/// The reply `msg` to the message `reply_to_id` in the chat `chat_id`, to be
/// sent after `delay_ms` milliseconds without holding up the caller.
pub fn replyWithDelay(msg: String, reply_to_id: i64, chat_id: i64, delay_ms: u64) -> (r: Request)
    ensures
        r == (Request::ReplyWithDelay { chat_id, text: msg, reply_to_id, delay_ms }),
{
    Request::ReplyWithDelay { chat_id, text: msg, reply_to_id, delay_ms }
}

/// The user's full name.
pub fn getUserFullname(u: &User) -> (name: String)
    ensures
        name@ == full_name(*u),
{
    match &u.last_name {
        Some(last) => u.first_name.clone().concat(" ").concat(last.as_str()),
        None => u.first_name.clone(),
    }
}

/// The name the user goes by: the nick name behind an `@`, or the full name.
pub fn getUsername(u: &User) -> (name: String)
    ensures
        name@ == display_name(*u),
{
    match &u.username {
        Some(nick) => String::from_str("@").concat(nick.as_str()),
        None => getUserFullname(u),
    }
}

/// If `msg` is a reply to a message that is not a channel post, the id of
/// the message to which `msg` replies.
pub fn getParentMsgId(msg: &Message) -> (parent: Option<i64>)
    ensures
        parent == parent_msg_id(*msg),
{
    match &msg.reply_to_message {
        Some(MessageOrChannelPost::Message { id }) => Some(*id),
        _ => None,
    }
}

} // verus!
