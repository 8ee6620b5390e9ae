//! The bot's settings, and the limits the chat platform puts on photos.
use vstd::prelude::*;

verus! {

/// A photo whose width or height reaches this many pixels is resized first.
pub const TG_IMG_SIZE_LIMIT: u32 = 4096;

/// A photo file of this many bytes or more is resized first.
pub const TG_IMG_FILE_SIZE_LIMIT: u64 = 5 * 1024 * 1024;

/// The longest side, in pixels, of a resized photo.
pub const IMG_RESIZE_TARGET: u32 = 1024;

/// The JPEG quality of a resized photo.
pub const IMG_RESIZE_QUALITY: u32 = 92;

/// How reactions are counted.
#[derive(Debug, Clone, Copy, PartialEq, Eq, Structural)]
pub enum ReactionPolicy {
    /// Every reply with the glyph counts for the message it replies to, in
    /// the reaction log.
    PerTarget,
    /// Only replies to the active digest message count, in the runtime
    /// state record.
    DigestScoped,
}

/// Settings of the bot itself.
#[derive(Clone)]
pub struct ConfigParamsGeneral {
    /// Whether new members are greeted.
    pub do_welcome: bool,
    /// The greeting; `${user}` in it stands for the new member.
    pub welcome: String,
    /// The bot's token on the chat platform.
    pub token: String,
    /// The bot's own user name, without the `@`.
    pub username: String,
    /// The one chat in which reactions count and to which digests go.
    pub group_id: Option<i64>,
    /// How reactions are counted.
    pub policy: ReactionPolicy,
    /// The weekly top-reactor message; `${name}` and `${count}` are filled in.
    pub weekly_waer_template: String,
    /// The weekly top-target message; `${count}` is filled in.
    pub weekly_waable_template: String,
    /// The monthly top-reactor message; `${name}` and `${count}` are filled in.
    pub monthly_waer_template: String,
    /// The monthly top-target message; `${count}` is filled in.
    pub monthly_waable_template: String,
}

/// Settings for the feed.
#[derive(Clone)]
pub struct ConfigParamsReddit {
    /// The client id of the bot's feed application.
    pub client_id: String,
    /// The secret that goes with the client id.
    pub client_secret: String,
    /// The caption of the daily picture; `${url}` stands for the post.
    pub daily_pic_caption: String,
}

/// All settings.
#[derive(Clone)]
pub struct ConfigParams {
    pub general: ConfigParamsGeneral,
    pub reddit: ConfigParamsReddit,
}

} // verus!
