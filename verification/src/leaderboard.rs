//! The weekly and monthly boards: who sent the most reactions and which
//! message got the most, each as a message for the group.
use vstd::prelude::*;
use vstd::string::*;

use crate::chat_db::{
    bestWaableAt, bestWaerAt, best_waer_overflows, is_best_waable_row, is_best_waer_row,
    lemma_best_rows_unique, waable_count, waer_count, window_empty, WaEntry, WaLog,
};
use crate::clock::utcNow;
use crate::error::Error;
use crate::telegram::Request;
use crate::text::{decimal, u32ToString};
use crate::utils::{key_pattern, keyIsValid, regex_compiles, regex_replaced, SimpleTemplate};

verus! {

/// The top-reactor message: the template with the name in place of
/// `${name}`, then the count in place of `${count}`.
pub open spec fn waer_text(tplt: Seq<char>, name: Seq<char>, count: nat) -> Seq<char> {
    regex_replaced(
        key_pattern("count"@),
        regex_replaced(key_pattern("name"@), tplt, name),
        decimal(count),
    )
}

/// The top-target message: the template with the count in place of
/// `${count}`.
pub open spec fn waable_text(tplt: Seq<char>, count: nat) -> Seq<char> {
    regex_replaced(key_pattern("count"@), tplt, decimal(count))
}

/// `req` sends `text` to `chat`.
pub open spec fn is_board_message(req: Request, chat: i64, text: Seq<char>) -> bool {
    req matches Request::SendMessage { chat_id, text: sent } && chat_id == chat && sent@ == text
}

/// `req` sends `text` to `chat` as a reply to the message `target`.
pub open spec fn is_board_reply(req: Request, chat: i64, text: Seq<char>, target: i64) -> bool {
    &&& req matches Request::SendReply { chat_id, text: sent, reply_to_id }
    &&& chat_id == chat
    &&& sent@ == text
    &&& reply_to_id == target
}

/// The request that sends the top-reactor board `text` to the chat.
pub fn waerRequest(chat_id: i64, text: String) -> (req: Request)
    ensures
        is_board_message(req, chat_id, text@),
{
    Request::SendMessage { chat_id, text }
}

/// The request that sends the top-target board `text` to the chat, as a
/// reply to the message `waable` that the board is about.
pub fn waableRequest(chat_id: i64, text: String, waable: i64) -> (req: Request)
    ensures
        is_board_reply(req, chat_id, text@, waable),
{
    Request::SendReply { chat_id, text, reply_to_id: waable }
}

/// The error for a template whose placeholders cannot be looked for.
pub open spec fn is_template_error(e: Error) -> bool {
    e is RuntimeError && e.message() == "Invalid message template"@
}

/// What the top-reactor board answers at time `now`: a message to the chat
/// that names the best row's sender and count; `NotFound` where the window
/// holds no reaction; a database error where the count does not fit its 32
/// bits.
pub open spec fn waer_board(
    rows: Seq<WaEntry>,
    chat: i64,
    now: i64,
    period: i64,
    tplt: Seq<char>,
    r: Result<Request, Error>,
) -> bool {
    if window_empty(rows, now, period) {
        r matches Err(e) && e is NotFound && e.message() == "No wa in this period"@
    } else if best_waer_overflows(rows, now, period) {
        r matches Err(e) && e is DBError && e.message() == "Failed to get wa count"@
    } else if !(regex_compiles(key_pattern("name"@)) && regex_compiles(key_pattern("count"@))) {
        r matches Err(e) && is_template_error(e)
    } else {
        &&& r matches Ok(req)
        &&& exists|i: int|
            #![trigger rows[i]]
            is_best_waer_row(rows, now, period, i) && is_board_message(
                req,
                chat,
                waer_text(tplt, rows[i].waer_name@, waer_count(rows, now, period, rows[i].waer)),
            )
    }
}

/// What the top-target board answers at time `now`: a reply to the best
/// row's target that tells its count; `NotFound` where the window holds no
/// reaction.
pub open spec fn waable_board(
    rows: Seq<WaEntry>,
    chat: i64,
    now: i64,
    period: i64,
    tplt: Seq<char>,
    r: Result<Request, Error>,
) -> bool {
    if window_empty(rows, now, period) {
        r matches Err(e) && e is NotFound && e.message() == "No wa in this period"@
    } else if !regex_compiles(key_pattern("count"@)) {
        r matches Err(e) && is_template_error(e)
    } else {
        &&& r matches Ok(req)
        &&& exists|i: int|
            #![trigger rows[i]]
            is_best_waable_row(rows, now, period, i) && is_board_reply(
                req,
                chat,
                waable_text(tplt, waable_count(rows, now, period, rows[i].wa_to)),
                rows[i].wa_to,
            )
    }
}

/// The message that names who did the most wa-s in the `time_period`
/// seconds before `now`.
pub fn sendBestWaerAt(log: &WaLog, chat_id: i64, now: i64, time_period: i64, msg_tplt: &str) -> (r:
    Result<Request, Error>)
    requires
        log.wf(),
    ensures
        waer_board(log@, chat_id, now, time_period, msg_tplt@, r),
{
    let (waer, count) = match bestWaerAt(log, now, time_period) {
        Ok(best) => best,
        Err(e) => {
            return Err(e);
        },
    };
    if !keyIsValid("name") || !keyIsValid("count") {
        return Err(Error::RuntimeError(String::from_str("Invalid message template")));
    }
    let text = SimpleTemplate::new(msg_tplt).apply("name", waer.as_str()).apply(
        "count",
        u32ToString(count).as_str(),
    ).result();
    Ok(waerRequest(chat_id, text))
}

/// The reply that marks the message with the most wa-s in the `time_period`
/// seconds before `now`.
pub fn sendBestWaableAt(log: &WaLog, chat_id: i64, now: i64, time_period: i64, msg_tplt: &str) -> (r:
    Result<Request, Error>)
    requires
        log.wf(),
    ensures
        waable_board(log@, chat_id, now, time_period, msg_tplt@, r),
{
    let (waable, count) = match bestWaableAt(log, now, time_period) {
        Ok(best) => best,
        Err(e) => {
            return Err(e);
        },
    };
    if !keyIsValid("count") {
        return Err(Error::RuntimeError(String::from_str("Invalid message template")));
    }
    let text = SimpleTemplate::new(msg_tplt).apply(
        "count",
        u32ToString(count).as_str(),
    ).result();
    Ok(waableRequest(chat_id, text, waable))
}

/// The message that names who did the most wa-s in the last `time_period`
/// seconds: as `sendBestWaerAt` for the time the clock shows.
pub fn sendBestWaer(log: &WaLog, chat_id: i64, time_period: i64, msg_tplt: &str) -> (r: Result<
    Request,
    Error,
>)
    requires
        log.wf(),
    ensures
        exists|now: i64| waer_board(log@, chat_id, now, time_period, msg_tplt@, r),
{
    let now = utcNow();
    sendBestWaerAt(log, chat_id, now, time_period, msg_tplt)
}

/// The reply that marks the message with the most wa-s in the last
/// `time_period` seconds: as `sendBestWaableAt` for the time the clock shows.
pub fn sendBestWaable(log: &WaLog, chat_id: i64, time_period: i64, msg_tplt: &str) -> (r: Result<
    Request,
    Error,
>)
    requires
        log.wf(),
    ensures
        exists|now: i64| waable_board(log@, chat_id, now, time_period, msg_tplt@, r),
{
    let now = utcNow();
    sendBestWaableAt(log, chat_id, now, time_period, msg_tplt)
}

} // verus!
