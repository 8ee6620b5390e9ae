//! The rules of a chat-group companion bot, proved.
//!
//! The bot counts "wa" replies and joins in when a message has drawn three
//! of them, sends a daily digest with the best picture of a feed, keeps
//! boards of who reacted most, and greets new members. This crate holds
//! what the bot decides; reading the network, the disk and the clock is
//! left to the program around it, which hands over plain values and carries
//! out the requests it gets back.
//!
//! - `chat_db`: the reaction log and its aggregate queries.
//! - `keybot`: the runtime state record and the reaction tracker.
//! - `members`: membership events and the routing of updates.
//! - `digest`: paging the feed, the posts of the last day, ranking and
//!   fallback.
//! - `leaderboard`: the weekly and monthly boards.
//! - `reddit`, `auth`, `simple_http_server`: the feed's posts, URLs and
//!   authorization callback.
//! - `photo`: sizes and plans for pictures.
//! - `telegram`, `bot_config`, `error`: the values passed around.
//! - `calendar`, `clock`, `text`, `utils`: time, strings and templates.
#![allow(non_snake_case)]

pub mod auth;
pub mod bot_config;
pub mod calendar;
pub mod chat_db;
pub mod clock;
pub mod digest;
pub mod error;
pub mod keybot;
pub mod leaderboard;
pub mod members;
pub mod photo;
pub mod reddit;
pub mod simple_http_server;
pub mod telegram;
pub mod text;
pub mod utils;
