//! The interactive authorization with the feed, as far as it computes: what
//! is sent, and what the callback must bring back.
use vstd::prelude::*;
use vstd::string::*;

use crate::error::Error;
use crate::reddit::pairs_view;
use crate::simple_http_server::{has_key, value_of, QueryParams};
use crate::text::sameText;

verus! {

/// The port on which the callback is awaited.
pub const CALLBACK_PORT: u16 = 31416;

/// The address that the feed calls back.
pub open spec fn redirect_uri() -> Seq<char> {
    "http://localhost:31416/"@
}

/// What the bot asks to be allowed to do.
pub open spec fn scope() -> Seq<char> {
    "identity edit flair history mysubreddits privatemessages read report save submit subscribe vote wikiedit wikiread"@
}

/// The parameters of the page on which the user grants access.
pub fn authorizePayload(client_id: &str, state_str: &str) -> (payload: Vec<(String, String)>)
    ensures
        pairs_view(payload@) == seq![
            ("client_id"@, client_id@),
            ("response_type"@, "code"@),
            ("state"@, state_str@),
            ("redirect_uri"@, redirect_uri()),
            ("duration"@, "temporary"@),
            ("scope"@, scope()),
        ],
{
    let mut payload: Vec<(String, String)> = Vec::new();
    payload.push((String::from_str("client_id"), String::from_str(client_id)));
    payload.push((String::from_str("response_type"), String::from_str("code")));
    payload.push((String::from_str("state"), String::from_str(state_str)));
    payload.push((String::from_str("redirect_uri"), String::from_str("http://localhost:31416/")));
    payload.push((String::from_str("duration"), String::from_str("temporary")));
    payload.push(
        (
            String::from_str("scope"),
            String::from_str(
                "identity edit flair history mysubreddits privatemessages read report save submit subscribe vote wikiedit wikiread",
            ),
        ),
    );
    assert(pairs_view(payload@) =~= seq![
        ("client_id"@, client_id@),
        ("response_type"@, "code"@),
        ("state"@, state_str@),
        ("redirect_uri"@, redirect_uri()),
        ("duration"@, "temporary"@),
        ("scope"@, scope()),
    ]);
    payload
}

/// The parameters of the request that trades the code for a token.
pub fn tokenPayload(code: &str) -> (payload: Vec<(String, String)>)
    ensures
        pairs_view(payload@) == seq![
            ("grant_type"@, "authorization_code"@),
            ("code"@, code@),
            ("redirect_uri"@, redirect_uri()),
        ],
{
    let mut payload: Vec<(String, String)> = Vec::new();
    payload.push((String::from_str("grant_type"), String::from_str("authorization_code")));
    payload.push((String::from_str("code"), String::from_str(code)));
    payload.push((String::from_str("redirect_uri"), String::from_str("http://localhost:31416/")));
    assert(pairs_view(payload@) =~= seq![
        ("grant_type"@, "authorization_code"@),
        ("code"@, code@),
        ("redirect_uri"@, redirect_uri()),
    ]);
    payload
}

/// A callback can be judged when it reports an error, or else echoes a
/// state and, where that is the state sent out, brings a code.
pub open spec fn callback_complete(params: Seq<(Seq<char>, Seq<char>)>, state: Seq<char>) -> bool {
    has_key(params, "error"@) || (has_key(params, "state"@) && (value_of(params, "state"@) == Some(
        state,
    ) ==> has_key(params, "code"@)))
}

/// What the callback means: the feed's error where it reports one; an
/// error where the state is not the one sent out; else the code.
pub open spec fn callback_answer(
    params: Seq<(Seq<char>, Seq<char>)>,
    state: Seq<char>,
    r: Result<String, Error>,
) -> bool {
    if has_key(params, "error"@) {
        r matches Err(e) && e is RedditError && Some(e.message()) == match value_of(
            params,
            "error"@,
        ) {
            Some(reason) => Some("Failed to authenticate: "@ + reason),
            None => None,
        }
    } else if value_of(params, "state"@) != Some(state) {
        r matches Err(e) && e is RedditError && e.message() == "Invalid state string"@
    } else {
        r matches Ok(code) && Some(code@) == value_of(params, "code"@)
    }
}

/// The code that the callback brings, for the state `state_str` that was
/// sent out.
pub fn authorizationCode(params: &QueryParams, state_str: &str) -> (r: Result<String, Error>)
    requires
        params.wf(),
        callback_complete(params@, state_str@),
    ensures
        callback_answer(params@, state_str@, r),
{
    match params.get("error") {
        Some(reason) => {
            return Err(
                Error::RedditError(
                    String::from_str("Failed to authenticate: ").concat(reason.as_str()),
                ),
            );
        },
        None => {},
    }
    match params.get("state") {
        Some(echoed) => {
            if !sameText(echoed.as_str(), state_str) {
                return Err(Error::RedditError(String::from_str("Invalid state string")));
            }
        },
        None => {
            return Err(Error::RedditError(String::from_str("Invalid state string")));
        },
    }
    match params.get("code") {
        Some(code) => Ok(code.clone()),
        None => Err(Error::RedditError(String::from_str("Invalid state string"))),
    }
}

} // verus!
