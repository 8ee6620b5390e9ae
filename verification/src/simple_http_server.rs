//! The one-shot callback listener of the authorization flow, as far as it
//! computes: reading the query parameters out of the request it receives.
use vstd::prelude::*;
use vstd::slice::*;
use vstd::string::*;
use vstd::utf8::*;

use crate::error::Error;
use crate::reddit::pairs_view;
use crate::text::{sameText, utf8Text};

verus! {

/// What `reqwest::Url::parse` and `Url::query_pairs` make of a text: `None`
/// where the text does not parse as an absolute URL, else the pairs of key
/// and value in the URL's query part, decoded, in their order.
pub uninterp spec fn url_pairs(url: Seq<char>) -> Option<Seq<(Seq<char>, Seq<char>)>>;

/// Calls `reqwest::Url::parse` on the text and, where that succeeds,
/// `Url::query_pairs` on the URL, and collects what the iterator gives.
/// The result is `None` where the text is no absolute URL; else it holds
/// the decoded pairs in their order. Both depend on the text alone.
#[verifier::external_body]
pub(crate) fn urlQueryPairs(url: &str) -> (r: Option<Vec<(String, String)>>)
    ensures
        match url_pairs(url@) {
            Some(pairs) => r matches Some(v) && pairs_view(v@) == pairs,
            None => r is None,
        },
{
    match reqwest::Url::parse(url) {
        Ok(parsed) => Some(
            parsed.query_pairs().map(|pair| (pair.0.into_owned(), pair.1.into_owned())).collect(),
        ),
        Err(_) => None,
    }
}

/// The listener: the port it binds on the local host.
pub struct SimpleHttpServer {
    port: u16,
}

/// The request methods the listener knows of.
pub enum HttpMethod {
    GET,
    POST,
}

impl SimpleHttpServer {
    /// The port the listener binds.
    pub closed spec fn spec_port(self) -> u16 {
        self.port
    }

    /// A listener for the given port.
    pub fn new(port: u16) -> (server: Self)
        ensures
            server.spec_port() == port,
    {
        Self { port: port }
    }

    /// The port the listener binds.
    pub fn port(&self) -> (port: u16)
        ensures
            port == self.spec_port(),
    {
        self.port
    }

    /// What the listener shows to whoever calls back.
    pub fn contents() -> (text: &'static str)
        ensures
            text@ == "It's a trap!"@,
    {
        "It's a trap!"
    }

    /// The head of the listener's response, up to the contents.
    pub fn responseHead() -> (text: &'static str)
        ensures
            text@ == "HTTP/1.1 200 OK\r\nContent-Length: 12\r\n\r\n"@,
    {
        "HTTP/1.1 200 OK\r\nContent-Length: 12\r\n\r\n"
    }
}

/// Some pair has the key `key`.
pub open spec fn has_key(pairs: Seq<(Seq<char>, Seq<char>)>, key: Seq<char>) -> bool {
    exists|i: int| 0 <= i < pairs.len() && (#[trigger] pairs[i]).0 == key
}

/// No key occurs in two pairs.
pub open spec fn unique_keys(pairs: Seq<(Seq<char>, Seq<char>)>) -> bool {
    forall|i: int, j: int| 0 <= i < j < pairs.len() ==> pairs[i].0 != pairs[j].0
}

/// The value that goes with `key`, in pairs whose keys are unique.
pub open spec fn value_of(pairs: Seq<(Seq<char>, Seq<char>)>, key: Seq<char>) -> Option<Seq<char>> {
    if has_key(pairs, key) {
        Some(pairs[choose|i: int| 0 <= i < pairs.len() && (#[trigger] pairs[i]).0 == key].1)
    } else {
        None
    }
}

/// The value of the last pair with the key `key`: what is left when the
/// pairs are put into a map one after another.
pub open spec fn last_value(pairs: Seq<(Seq<char>, Seq<char>)>, key: Seq<char>) -> Option<
    Seq<char>,
>
    decreases pairs.len(),
{
    if pairs.len() == 0 {
        None
    } else if pairs.last().0 == key {
        Some(pairs.last().1)
    } else {
        last_value(pairs.drop_last(), key)
    }
}

/// Parameters by key, each key once.
pub struct QueryParams {
    pairs: Vec<(String, String)>,
}

impl View for QueryParams {
    type V = Seq<(Seq<char>, Seq<char>)>;

    closed spec fn view(&self) -> Seq<(Seq<char>, Seq<char>)> {
        pairs_view(self.pairs@)
    }
}

/// In pairs with unique keys, the pair at `i` gives the value of its key.
pub proof fn lemma_value_at(pairs: Seq<(Seq<char>, Seq<char>)>, i: int)
    requires
        unique_keys(pairs),
        0 <= i < pairs.len(),
    ensures
        value_of(pairs, pairs[i].0) == Some(pairs[i].1),
{
    assert(has_key(pairs, pairs[i].0));
}

impl QueryParams {
    /// No key occurs twice.
    pub open spec fn wf(&self) -> bool {
        unique_keys(self@)
    }

    /// No parameters.
    pub fn new() -> (params: Self)
        ensures
            params@.len() == 0,
            params.wf(),
    {
        let params = Self { pairs: Vec::new() };
        assert(params@ =~= Seq::empty());
        params
    }

    /// The number of parameters.
    pub fn len(&self) -> (n: usize)
        ensures
            n == self@.len(),
    {
        self.pairs.len()
    }

    /// The position of the pair with the key `key`.
    fn position(&self, key: &str) -> (at: Option<usize>)
        ensures
            match at {
                Some(i) => i < self@.len() && self@[i as int].0 == key@,
                None => !has_key(self@, key@),
            },
    {
        let n = self.pairs.len();
        let mut k: usize = 0;
        while k < n
            invariant
                n == self.pairs@.len(),
                k <= n,
                forall|i: int| 0 <= i < k ==> (#[trigger] self@[i]).0 != key@,
            decreases n - k,
        {
            if sameText(self.pairs[k].0.as_str(), key) {
                return Some(k);
            }
            k += 1;
        }
        None
    }

    /// Whether there is a parameter with the key `key`.
    pub fn contains_key(&self, key: &str) -> (found: bool)
        ensures
            found == has_key(self@, key@),
    {
        self.position(key).is_some()
    }

    /// The value of the parameter with the key `key`.
    pub fn get(&self, key: &str) -> (value: Option<&String>)
        requires
            self.wf(),
        ensures
            match value_of(self@, key@) {
                Some(v) => value matches Some(s) && s@ == v,
                None => value is None,
            },
    {
        match self.position(key) {
            Some(i) => {
                proof {
                    lemma_value_at(self@, i as int);
                }
                Some(&self.pairs[i].1)
            },
            None => None,
        }
    }

    /// Sets the parameter `key` to `value`, in place of the value it had.
    pub fn insert(&mut self, key: String, value: String)
        requires
            old(self).wf(),
        ensures
            final(self).wf(),
            forall|k: Seq<char>|
                #![trigger value_of(final(self)@, k)]
                value_of(final(self)@, k) == if k == key@ {
                    Some(value@)
                } else {
                    value_of(old(self)@, k)
                },
    {
        let ghost before = self@;
        let ghost kv = key@;
        let ghost vv = value@;
        let ghost at: int;
        match self.position(key.as_str()) {
            Some(i) => {
                self.pairs.set(i, (key, value));
                proof {
                    at = i as int;
                }
                assert(self@ =~= before.update(i as int, (kv, vv)));
            },
            None => {
                self.pairs.push((key, value));
                proof {
                    at = before.len() as int;
                }
                assert(self@ =~= before.push((kv, vv)));
            },
        }
        proof {
            let after = self@;
            assert(after[at] == (kv, vv));
            assert(forall|i: int| 0 <= i < after.len() && i != at ==> after[i] == before[i]);
            assert(unique_keys(after));
            assert forall|k: Seq<char>| #![trigger value_of(after, k)] value_of(after, k) == if k
                == kv {
                Some(vv)
            } else {
                value_of(before, k)
            } by {
                if k == kv {
                    lemma_value_at(after, at);
                } else if has_key(before, k) {
                    let i = choose|i: int| 0 <= i < before.len() && (#[trigger] before[i]).0 == k;
                    lemma_value_at(before, i);
                    assert(after[i] == before[i]);
                    lemma_value_at(after, i);
                } else if has_key(after, k) {
                    let i = choose|i: int| 0 <= i < after.len() && (#[trigger] after[i]).0 == k;
                    assert(before[i].0 == k);
                }
            }
        }
    }

    /// The parameters with the pairs put in one after another, so that of
    /// two pairs with the same key the later one stays.
    pub fn fromPairs(pairs: &Vec<(String, String)>) -> (params: Self)
        ensures
            params.wf(),
            forall|k: Seq<char>|
                #[trigger] value_of(params@, k) == last_value(pairs_view(pairs@), k),
    {
        let ghost all = pairs_view(pairs@);
        let n = pairs.len();
        let mut params = QueryParams::new();
        let mut j: usize = 0;
        assert forall|k: Seq<char>| #[trigger] value_of(params@, k) == last_value(all.take(0), k) by {
            assert(!has_key(params@, k));
        }
        while j < n
            invariant
                params.wf(),
                n == pairs@.len(),
                all == pairs_view(pairs@),
                j <= n,
                forall|k: Seq<char>| #[trigger] value_of(params@, k) == last_value(all.take(j as int), k),
            decreases n - j,
        {
            let ghost so_far = params@;
            params.insert(pairs[j].0.clone(), pairs[j].1.clone());
            proof {
                assert(all[j as int] == (pairs@[j as int].0@, pairs@[j as int].1@));
                assert(all.take(j + 1).drop_last() =~= all.take(j as int));
                assert(all.take(j + 1).last() == all[j as int]);
                assert forall|k: Seq<char>| #[trigger]
                    value_of(params@, k) == last_value(all.take(j + 1), k) by {
                    assert(value_of(so_far, k) == last_value(all.take(j as int), k));
                }
            }
            j += 1;
        }
        assert(all.take(n as int) =~= all);
        params
    }
}

/// `GET` and a space, in bytes.
pub open spec fn get_prefix() -> Seq<u8> {
    seq![0x47u8, 0x45u8, 0x54u8, 0x20u8]
}

/// A space and `HTTP/1.1`, in bytes.
pub open spec fn http_suffix() -> Seq<u8> {
    seq![0x20u8, 0x48u8, 0x54u8, 0x54u8, 0x50u8, 0x2Fu8, 0x31u8, 0x2Eu8, 0x31u8]
}

/// `req` holds the bytes `pat` at position `at`.
pub open spec fn bytes_at(req: Seq<u8>, at: int, pat: Seq<u8>) -> bool {
    0 <= at && at + pat.len() <= req.len() && req.subrange(at, at + pat.len()) == pat
}

/// The request target can end at `p`: the request begins with `GET` and a
/// space, a space and `HTTP/1.1` stand at `p`, and what lies between is
/// text without a line feed.
pub open spec fn is_target_end(req: Seq<u8>, p: int) -> bool {
    &&& bytes_at(req, 0, get_prefix())
    &&& 4 <= p
    &&& bytes_at(req, p, http_suffix())
    &&& valid_utf8(req.subrange(4, p))
    &&& forall|i: int| 4 <= i < p ==> req[i] != 0x0A
}

/// The request target ends at `p`: at the last place where it can.
pub open spec fn is_last_target_end(req: Seq<u8>, p: int) -> bool {
    is_target_end(req, p) && forall|q: int| p < q ==> !is_target_end(req, q)
}

/// What is answered for the request target `target`: the parameters of
/// `http://localhost` followed by the target, each key with the value of
/// its last occurrence; an error where that is no URL.
pub open spec fn target_answer(target: Seq<char>, r: Result<QueryParams, Error>) -> bool {
    match url_pairs("http://localhost"@ + target) {
        Some(pairs) => {
            &&& r matches Ok(params)
            &&& params.wf()
            &&& forall|k: Seq<char>| #[trigger] value_of(params@, k) == last_value(pairs, k)
        },
        None => r matches Err(e) && e is RuntimeError && e.message() == "invalid URL: "@ + (
        "http://localhost"@ + target),
    }
}

/// What is answered for the request `req`: the parameters of its target,
/// or an error where it has no request line of the form `GET`, target,
/// `HTTP/1.1`.
pub open spec fn query_answer(req: Seq<u8>, r: Result<QueryParams, Error>) -> bool {
    if exists|p: int| is_target_end(req, p) {
        forall|p: int|
            is_last_target_end(req, p) ==> target_answer(
                decode_utf8(#[trigger] req.subrange(4, p)),
                r,
            )
    } else {
        r matches Err(e) && e is HttpServerError && e.message() == "invalid request"@
    }
}

/// Whether `req` holds the bytes of `pat` at position `at`.
fn bytesMatch(req: &[u8], at: usize, pat: &Vec<u8>) -> (b: bool)
    ensures
        b == bytes_at(req@, at as int, pat@),
{
    let n = pat.len();
    if at > req.len() || n > req.len() - at {
        return false;
    }
    let mut k: usize = 0;
    while k < n
        invariant
            n == pat@.len(),
            at + n <= req@.len() <= usize::MAX,
            k <= n,
            forall|i: int| 0 <= i < k ==> req@[at + i] == pat@[i],
        decreases n - k,
    {
        if req[at + k] != pat[k] {
            assert(req@.subrange(at as int, at + n)[k as int] == req@[at + k]);
            return false;
        }
        k += 1;
    }
    assert(req@.subrange(at as int, at + n) =~= pat@);
    true
}

/// Whether no line feed stands from `from` up to `to`.
fn noLineFeed(req: &[u8], from: usize, to: usize) -> (b: bool)
    requires
        from <= to <= req@.len(),
    ensures
        b == forall|i: int| from <= i < to ==> req@[i] != 0x0A,
{
    let mut k = from;
    while k < to
        invariant
            from <= k <= to <= req@.len(),
            forall|i: int| from <= i < k ==> req@[i] != 0x0A,
        decreases to - k,
    {
        if req[k] == 0x0A {
            return false;
        }
        k += 1;
    }
    true
}

/// The target in the request line of `req`, which has the form `GET`,
/// target, `HTTP/1.1`: the text between the two, reaching as far as it can
/// within the line. `None` where the request does not begin with such a line.
pub fn requestTarget(req: &[u8]) -> (target: Option<&str>)
    ensures
        match target {
            Some(t) => exists|p: int|
                is_last_target_end(req@, p) && t@ == decode_utf8(#[trigger] req@.subrange(4, p)),
            None => forall|p: int| !is_target_end(req@, p),
        },
{
    let mut get: Vec<u8> = Vec::new();
    get.push(0x47);
    get.push(0x45);
    get.push(0x54);
    get.push(0x20);
    assert(get@ =~= get_prefix());
    let mut http: Vec<u8> = Vec::new();
    http.push(0x20);
    http.push(0x48);
    http.push(0x54);
    http.push(0x54);
    http.push(0x50);
    http.push(0x2F);
    http.push(0x31);
    http.push(0x2E);
    http.push(0x31);
    assert(http@ =~= http_suffix());
    let n = req.len();
    if n < 13 || !bytesMatch(req, 0, &get) {
        return None;
    }
    let mut p: usize = n - 9;
    loop
        invariant
            n == req@.len(),
            n >= 13,
            4 <= p <= n - 9,
            get@ == get_prefix(),
            http@ == http_suffix(),
            bytes_at(req@, 0, get_prefix()),
            forall|q: int| p < q ==> !is_target_end(req@, q),
        decreases p,
    {
        if bytesMatch(req, p, &http) && noLineFeed(req, 4, p) {
            match utf8Text(slice_subrange(req, 4, p)) {
                Some(target) => {
                    assert(is_last_target_end(req@, p as int));
                    return Some(target);
                },
                None => {},
            }
        }
        if p == 4 {
            return None;
        }
        p -= 1;
    }
}

/// The query parameters of the request `req`: those of the target in its
/// request line.
pub fn queryFromRequest(req: &[u8]) -> (r: Result<QueryParams, Error>)
    ensures
        query_answer(req@, r),
{
    match requestTarget(req) {
        Some(target) => {
            let url = String::from_str("http://localhost").concat(target);
            let r = match urlQueryPairs(url.as_str()) {
                Some(pairs) => Ok(QueryParams::fromPairs(&pairs)),
                None => Err(
                    Error::RuntimeError(String::from_str("invalid URL: ").concat(url.as_str())),
                ),
            };
            proof {
                let p = choose|p: int|
                    is_last_target_end(req@, p) && target@ == decode_utf8(
                        #[trigger] req@.subrange(4, p),
                    );
                assert(target_answer(decode_utf8(req@.subrange(4, p)), r));
                assert forall|q: int| is_last_target_end(req@, q) implies q == p by {}
            }
            r
        },
        None => Err(Error::HttpServerError(String::from_str("invalid request"))),
    }
}

} // verus!
