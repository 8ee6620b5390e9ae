//! The daily digest: which listings to ask for, which posts are of the last
//! day, which of them are candidates and in what order they are tried.
use vstd::prelude::*;
use vstd::string::*;

use crate::bot_config::ConfigParams;
use crate::clock::{utcNow, DAY_SECONDS};
use crate::error::Error;
use crate::keybot::{digest_sent, RuntimeInfo, RuntimeInfoView, RuntimeStore};
use crate::reddit::{links_to_itself, short_url, Post};
use crate::telegram::Request;
use crate::text::charsOf;
use crate::utils::{key_pattern, keyIsValid, regex_compiles, regex_replaced, SimpleTemplate};

verus! {

/// The post was made strictly less than a day before `now`.
pub open spec fn in_last_day(p: Post, now: i64) -> bool {
    p.time_create > now - DAY_SECONDS
}

/// Whether the post was made in the day before `now`.
pub fn isRecent(p: &Post, now: i64) -> (b: bool)
    ensures
        b == in_last_day(*p, now),
{
    (p.time_create as i128) > (now as i128) - (DAY_SECONDS as i128)
}

/// The cursor of the next listing to ask for, after `posts` have come in,
/// the last listing having brought `page_len` of them: the full name of the
/// last post, as long as that post is of the last day. No further listing is
/// asked for once the last post is older, or a listing came back empty.
pub open spec fn next_cursor(posts: Seq<Post>, page_len: nat, now: i64) -> Option<Seq<char>> {
    if page_len > 0 && posts.len() > 0 && in_last_day(posts.last(), now) {
        Some(posts.last().id@)
    } else {
        None
    }
}

/// The cursor of the next listing to ask for, if another one is needed.
pub fn nextListing(posts: &Vec<Post>, page_len: usize, now: i64) -> (after: Option<String>)
    ensures
        match next_cursor(posts@, page_len as nat, now) {
            Some(cursor) => after matches Some(s) && s@ == cursor,
            None => after is None,
        },
{
    let n = posts.len();
    if page_len > 0 && n > 0 && isRecent(&posts[n - 1], now) {
        Some(String::from_str(posts[n - 1].fullName()))
    } else {
        None
    }
}

/// The number of posts up to and including the last one that is of the last
/// day; zero where none is.
pub open spec fn window_end(posts: Seq<Post>, now: i64) -> nat
    decreases posts.len(),
{
    if posts.len() == 0 {
        0
    } else if in_last_day(posts.last(), now) {
        posts.len()
    } else {
        window_end(posts.drop_last(), now)
    }
}

/// The listing comes newest first.
pub open spec fn newest_first(posts: Seq<Post>) -> bool {
    forall|i: int, j: int|
        0 <= i <= j < posts.len() ==> posts[i].time_create >= posts[j].time_create
}

/// The cut falls right behind a post of the last day, and no post behind
/// the cut is of the last day.
pub proof fn lemma_window_end(posts: Seq<Post>, now: i64)
    ensures
        window_end(posts, now) <= posts.len(),
        window_end(posts, now) > 0 ==> in_last_day(posts[window_end(posts, now) - 1], now),
        forall|i: int| window_end(posts, now) <= i < posts.len() ==> !in_last_day(posts[i], now),
    decreases posts.len(),
{
    if posts.len() > 0 && !in_last_day(posts.last(), now) {
        let front = posts.drop_last();
        lemma_window_end(front, now);
        assert forall|i: int| window_end(posts, now) <= i < posts.len() implies !in_last_day(
            posts[i],
            now,
        ) by {
            if i < front.len() {
                assert(front[i] == posts[i]);
            }
        }
    }
}

/// Of a listing that comes newest first, the posts kept are exactly the
/// posts of the last day: every post before the cut is one, no post behind
/// it is, and the posts kept are the start of the listing, without a gap.
pub proof fn lemma_window_is_exact(posts: Seq<Post>, now: i64)
    requires
        newest_first(posts),
    ensures
        window_end(posts, now) <= posts.len(),
        forall|i: int| 0 <= i < posts.len() ==> (in_last_day(posts[i], now) <==> i < window_end(
            posts,
            now,
        )),
{
    lemma_window_end(posts, now);
}

/// The posts of the last day: the listing up to its last post that was made
/// within the day before `now`, older posts behind it dropped.
pub fn getRedditPostsToday(posts: Vec<Post>, now: i64) -> (today: Vec<Post>)
    ensures
        today@ == posts@.take(window_end(posts@, now) as int),
{
    let mut posts = posts;
    let ghost all = posts@;
    let mut k: usize = posts.len();
    assert(all.take(k as int) =~= all);
    while k > 0 && !isRecent(&posts[k - 1], now)
        invariant
            posts@ == all,
            k <= all.len(),
            window_end(all, now) == window_end(all.take(k as int), now),
        decreases k,
    {
        assert(all.take(k as int).drop_last() =~= all.take(k - 1));
        k -= 1;
    }
    posts.truncate(k);
    posts
}

/// The code of the character, with the letters `A` to `Z` counted as `a`
/// to `z`.
pub open spec fn lower_code(c: char) -> int {
    if 0x41 <= c as u32 <= 0x5A {
        c as u32 + 0x20
    } else {
        c as u32 as int
    }
}

/// `s` ends with `suffix`, upper and lower case of the letters `a` to `z`
/// taken as the same. The suffix is given in lower case.
pub open spec fn ends_with_ignoring_case(s: Seq<char>, suffix: Seq<char>) -> bool {
    &&& suffix.len() <= s.len()
    &&& forall|i: int|
        0 <= i < suffix.len() ==> lower_code(s[s.len() - suffix.len() + i]) == (
        #[trigger] suffix[i]) as u32
}

/// The link points at a picture: it ends in `.jpg`, `.jpeg` or `.png`, in
/// upper or lower case.
pub open spec fn is_image_link(link: Seq<char>) -> bool {
    ||| ends_with_ignoring_case(link, ".jpg"@)
    ||| ends_with_ignoring_case(link, ".jpeg"@)
    ||| ends_with_ignoring_case(link, ".png"@)
}

/// A post is a candidate for the digest when it links to a picture and not
/// to itself.
pub open spec fn is_candidate(p: Post) -> bool {
    !links_to_itself(p) && is_image_link(p.link@)
}

/// Whether `s` ends with `suffix`, the case of letters aside.
pub fn endsWithIgnoringCase(s: &Vec<char>, suffix: &str) -> (b: bool)
    ensures
        b == ends_with_ignoring_case(s@, suffix@),
{
    let tail = charsOf(suffix);
    let n = tail.len();
    if n > s.len() {
        return false;
    }
    let start = s.len() - n;
    let mut k: usize = 0;
    while k < n
        invariant
            n == tail@.len(),
            tail@ == suffix@,
            start + n == s@.len(),
            s@.len() <= usize::MAX,
            k <= n,
            forall|i: int| 0 <= i < k ==> lower_code(s@[start + i]) == (#[trigger] tail@[i]) as u32,
        decreases n - k,
    {
        let c = s[start + k] as u32;
        let low = if 0x41 <= c && c <= 0x5A {
            c + 0x20
        } else {
            c
        };
        if low != tail[k] as u32 {
            return false;
        }
        k += 1;
    }
    true
}

/// Whether the link points at a picture.
pub fn isImageLink(link: &str) -> (b: bool)
    ensures
        b == is_image_link(link@),
{
    let chars = charsOf(link);
    endsWithIgnoringCase(&chars, ".jpg") || endsWithIgnoringCase(&chars, ".jpeg")
        || endsWithIgnoringCase(&chars, ".png")
}

/// Whether the post is a candidate for the digest.
pub fn isCandidate(p: &Post) -> (b: bool)
    ensures
        b == is_candidate(*p),
{
    p.isLink() && isImageLink(p.link.as_str())
}

/// The post at `a` is tried before the post at `b`: it has the higher
/// score, or the same score and the later place in the listing.
pub open spec fn outranks(posts: Seq<Post>, a: int, b: int) -> bool {
    posts[a].score > posts[b].score || (posts[a].score == posts[b].score && a > b)
}

/// `order` is the ranking of `posts`: the places of all candidates and of
/// nothing else, each before every place that it outranks. There is exactly
/// one such order.
pub open spec fn is_ranking(posts: Seq<Post>, order: Seq<usize>) -> bool {
    &&& forall|k: int|
        0 <= k < order.len() ==> (#[trigger] order[k]) < posts.len() && is_candidate(
            posts[order[k] as int],
        )
    &&& forall|i: int|
        0 <= i < posts.len() && is_candidate(#[trigger] posts[i]) ==> order.contains(i as usize)
    &&& forall|k: int, m: int|
        0 <= k < m < order.len() ==> outranks(posts, order[k] as int, order[m] as int)
}

/// The places in `posts` of the candidates for the digest, best first: by
/// score, highest first, and among equal scores the later post first.
pub fn bestPosts(posts: &Vec<Post>) -> (order: Vec<usize>)
    ensures
        is_ranking(posts@, order@),
{
    let n = posts.len();
    let mut order: Vec<usize> = Vec::new();
    let mut i: usize = 0;
    while i < n
        invariant
            n == posts@.len(),
            i <= n,
            forall|k: int|
                0 <= k < order@.len() ==> (#[trigger] order@[k]) < i && is_candidate(
                    posts@[order@[k] as int],
                ),
            forall|j: int|
                0 <= j < i && is_candidate(#[trigger] posts@[j]) ==> order@.contains(j as usize),
            forall|k: int, m: int|
                0 <= k < m < order@.len() ==> outranks(posts@, order@[k] as int, order@[m] as int),
        decreases n - i,
    {
        if isCandidate(&posts[i]) {
            let len = order.len();
            let mut pos: usize = 0;
            while pos < len && posts[order[pos]].score > posts[i].score
                invariant
                    n == posts@.len(),
                    i < n,
                    len == order@.len(),
                    pos <= len,
                    forall|k: int| 0 <= k < len ==> (#[trigger] order@[k]) < i,
                    forall|k: int|
                        0 <= k < pos ==> posts@[(#[trigger] order@[k]) as int].score
                            > posts@[i as int].score,
                decreases len - pos,
            {
                pos += 1;
            }
            let ghost before = order@;
            order.insert(pos, i);
            proof {
                assert forall|k: int, m: int| 0 <= k < m < order@.len() implies outranks(
                    posts@,
                    order@[k] as int,
                    order@[m] as int,
                ) by {
                    if m < pos {
                        assert(order@[k] == before[k] && order@[m] == before[m]);
                    } else if m == pos {
                        assert(order@[k] == before[k]);
                    } else if k < pos {
                        assert(order@[k] == before[k] && order@[m] == before[m - 1]);
                    } else if k == pos {
                        assert(order@[m] == before[m - 1]);
                        if pos < m - 1 {
                            assert(outranks(posts@, before[pos as int] as int, before[m - 1] as int));
                        }
                    } else {
                        assert(order@[k] == before[k - 1] && order@[m] == before[m - 1]);
                    }
                }
                assert forall|j: int| 0 <= j < i + 1 && is_candidate(
                    #[trigger] posts@[j],
                ) implies order@.contains(j as usize) by {
                    if j == i {
                        assert(order@[pos as int] == j);
                    } else {
                        assert(before.contains(j as usize));
                        let k0 = choose|k: int| 0 <= k < before.len() && before[k] == j as usize;
                        if k0 < pos {
                            assert(order@[k0] == j);
                        } else {
                            assert(order@[k0 + 1] == j);
                        }
                    }
                }
                assert forall|k: int| 0 <= k < order@.len() implies (#[trigger] order@[k]) < i
                    + 1 && is_candidate(posts@[order@[k] as int]) by {
                    if k < pos {
                        assert(order@[k] == before[k]);
                    } else if k > pos {
                        assert(order@[k] == before[k - 1]);
                    }
                }
            }
        }
        i += 1;
    }
    order
}

/// Two rankings of the same posts are the same: the order in which the
/// candidates are tried is fixed by the posts alone.
pub proof fn lemma_ranking_unique(posts: Seq<Post>, a: Seq<usize>, b: Seq<usize>)
    requires
        is_ranking(posts, a),
        is_ranking(posts, b),
    ensures
        a == b,
{
    assert forall|k: int| 0 <= k < a.len() implies b.contains(#[trigger] a[k]) by {
        assert(is_candidate(posts[a[k] as int]));
    }
    assert forall|k: int| 0 <= k < b.len() implies a.contains(#[trigger] b[k]) by {
        assert(is_candidate(posts[b[k] as int]));
    }
    lemma_sorted_same_members(posts, a, b);
}

/// No place outranks itself, and of two places at most one outranks the
/// other.
proof fn lemma_outranks_one_way(posts: Seq<Post>, x: int, y: int)
    ensures
        !(outranks(posts, x, y) && outranks(posts, y, x)),
        !outranks(posts, x, x),
{
}

/// Two orders that hold the same places, each sorted by rank, are equal.
proof fn lemma_sorted_same_members(posts: Seq<Post>, a: Seq<usize>, b: Seq<usize>)
    requires
        forall|k: int, m: int| 0 <= k < m < a.len() ==> outranks(posts, a[k] as int, a[m] as int),
        forall|k: int, m: int| 0 <= k < m < b.len() ==> outranks(posts, b[k] as int, b[m] as int),
        forall|k: int| 0 <= k < a.len() ==> b.contains(#[trigger] a[k]),
        forall|k: int| 0 <= k < b.len() ==> a.contains(#[trigger] b[k]),
    ensures
        a == b,
    decreases a.len(),
{
    if a.len() == 0 {
        if b.len() > 0 {
            assert(a.contains(b[0]));
        }
        assert(a =~= b);
    } else if b.len() == 0 {
        assert(b.contains(a[0]));
    } else {
        let la = a[a.len() - 1];
        let lb = b[b.len() - 1];
        assert(b.contains(la));
        assert(a.contains(lb));
        let kb = choose|m: int| 0 <= m < b.len() && b[m] == la;
        let ka = choose|m: int| 0 <= m < a.len() && a[m] == lb;
        assert(la == lb) by {
            lemma_outranks_one_way(posts, la as int, lb as int);
            if kb < b.len() - 1 {
                assert(outranks(posts, b[kb] as int, b[b.len() - 1] as int));
                if ka < a.len() - 1 {
                    assert(outranks(posts, a[ka] as int, a[a.len() - 1] as int));
                }
            }
        }
        let a0 = a.drop_last();
        let b0 = b.drop_last();
        assert forall|k: int| 0 <= k < a0.len() implies b0.contains(#[trigger] a0[k]) by {
            assert(a0[k] == a[k]);
            assert(b.contains(a[k]));
            let m = choose|m: int| 0 <= m < b.len() && b[m] == a[k];
            assert(outranks(posts, a[k] as int, a[a.len() - 1] as int));
            lemma_outranks_one_way(posts, la as int, la as int);
            assert(m < b.len() - 1);
            assert(b0[m] == a0[k]);
        }
        assert forall|k: int| 0 <= k < b0.len() implies a0.contains(#[trigger] b0[k]) by {
            assert(b0[k] == b[k]);
            assert(a.contains(b[k]));
            let m = choose|m: int| 0 <= m < a.len() && a[m] == b[k];
            assert(outranks(posts, b[k] as int, b[b.len() - 1] as int));
            lemma_outranks_one_way(posts, lb as int, lb as int);
            assert(m < a.len() - 1);
            assert(a0[m] == b0[k]);
        }
        assert forall|k: int, m: int| 0 <= k < m < a0.len() implies outranks(
            posts,
            a0[k] as int,
            a0[m] as int,
        ) by {
            assert(a0[k] == a[k] && a0[m] == a[m]);
        }
        assert forall|k: int, m: int| 0 <= k < m < b0.len() implies outranks(
            posts,
            b0[k] as int,
            b0[m] as int,
        ) by {
            assert(b0[k] == b[k] && b0[m] == b[m]);
        }
        lemma_sorted_same_members(posts, a0, b0);
        assert(a =~= a0.push(la));
        assert(b =~= b0.push(lb));
    }
}

/// The place in `posts` of the candidate that is tried at attempt number
/// `attempt`, counted from zero: the one at that rank. None where the
/// ranking is used up.
pub open spec fn candidate_at(posts: Seq<Post>, order: Seq<usize>, attempt: nat) -> Option<int> {
    if attempt < order.len() && order[attempt as int] < posts.len() {
        Some(order[attempt as int] as int)
    } else {
        None
    }
}

/// The place in `posts` of the candidate that is tried at attempt number
/// `attempt`, the ranks before it having failed.
pub fn candidateAt(posts: &Vec<Post>, order: &Vec<usize>, attempt: usize) -> (at: Option<usize>)
    ensures
        match candidate_at(posts@, order@, attempt as nat) {
            Some(i) => at == Some(i as usize),
            None => at is None,
        },
{
    if attempt < order.len() && order[attempt] < posts.len() {
        Some(order[attempt])
    } else {
        None
    }
}

/// In a ranking, no later attempt is for a post with a higher score: the
/// candidates are tried by score, highest first.
pub proof fn lemma_attempts_by_score(posts: Seq<Post>, order: Seq<usize>, k: nat, m: nat)
    requires
        is_ranking(posts, order),
        k <= m < order.len(),
    ensures
        candidate_at(posts, order, k) == Some(order[k as int] as int),
        candidate_at(posts, order, m) == Some(order[m as int] as int),
        is_candidate(posts[order[k as int] as int]),
        posts[order[k as int] as int].score >= posts[order[m as int] as int].score,
        k < m ==> order[k as int] != order[m as int],
{
    if k < m {
        assert(outranks(posts, order[k as int] as int, order[m as int] as int));
    }
}

/// The caption of the picture of post `p`: the template with the post's
/// short address in place of `${url}`.
pub open spec fn caption_for(tplt: Seq<char>, p: Post) -> Seq<char> {
    regex_replaced(key_pattern("url"@), tplt, short_url(p))
}

/// `req` sends the picture that `p` links to, with the given caption, to
/// `chat`.
pub open spec fn is_photo_with(req: Request, chat: i64, p: Post, caption: Seq<char>) -> bool {
    &&& req matches Request::SendPhoto { chat_id, uri, caption: text }
    &&& chat_id == chat
    &&& uri@ == p.link@
    &&& text@ == caption
}

/// `req` sends the picture that `p` links to, with its caption, to `chat`.
pub open spec fn is_photo_of(req: Request, chat: i64, tplt: Seq<char>, p: Post) -> bool {
    is_photo_with(req, chat, p, caption_for(tplt, p))
}

/// The request that sends the picture that `post` links to, with the given
/// caption, to the chat.
pub fn photoRequest(chat_id: i64, post: &Post, caption: String) -> (req: Request)
    ensures
        is_photo_with(req, chat_id, *post, caption@),
{
    Request::SendPhoto { chat_id, uri: post.link.clone(), caption }
}

/// The error that ends a digest for which no candidate is left to try.
pub open spec fn is_delivery_failed(e: Error) -> bool {
    e is DigestDeliveryFailed && e.message() == "Failed to send best post"@
}

/// What is to be done at attempt number `attempt`, counted from zero: send
/// the picture of the candidate at that rank, or give up where the ranking
/// holds no such candidate.
pub open spec fn attempt_answer(
    posts: Seq<Post>,
    order: Seq<usize>,
    attempt: nat,
    chat: i64,
    tplt: Seq<char>,
    r: Result<Request, Error>,
) -> bool {
    match candidate_at(posts, order, attempt) {
        None => r matches Err(e) && is_delivery_failed(e),
        Some(i) => if regex_compiles(key_pattern("url"@)) {
            r matches Ok(req) && is_photo_of(req, chat, tplt, posts[i])
        } else {
            r matches Err(e) && e is RuntimeError && e.message() == "Invalid caption"@
        },
    }
}

/// The request that tries the candidate at rank `attempt`, the ranks before
/// it having failed; the error `DigestDeliveryFailed` once every candidate
/// has been tried.
pub fn trySendFirstPhotoFromPosts(
    posts: &Vec<Post>,
    order: &Vec<usize>,
    attempt: usize,
    chat_id: i64,
    caption_tplt: &str,
) -> (r: Result<Request, Error>)
    ensures
        attempt_answer(posts@, order@, attempt as nat, chat_id, caption_tplt@, r),
{
    let at = match candidateAt(posts, order, attempt) {
        Some(at) => at,
        None => {
            return Err(
                Error::DigestDeliveryFailed(String::from_str("Failed to send best post")),
            );
        },
    };
    if !keyIsValid("url") {
        return Err(Error::RuntimeError(String::from_str("Invalid caption")));
    }
    let best_post = &posts[at];
    let caption = SimpleTemplate::new(caption_tplt).apply(
        "url",
        best_post.shortUrl().as_str(),
    ).result();
    Ok(photoRequest(chat_id, best_post, caption))
}

/// What a delivered digest does to the store: the record in it names the
/// message as the active digest and its counter starts anew; a store
/// without a record stays empty and the error is `NotFound`.
pub open spec fn delivery_recorded(
    before: Option<RuntimeInfoView>,
    after: Option<RuntimeInfoView>,
    msg_id: i64,
    r: Result<i64, Error>,
) -> bool {
    match before {
        Some(v) => after == Some(digest_sent(v, msg_id)) && r == Ok::<i64, Error>(msg_id),
        None => after is None && (r matches Err(e) && e is NotFound && e.message()
            == "No runtime info"@),
    }
}

/// Records that the digest went out as message `msg_id`. The record is in
/// the store when this returns, before the caller can report success.
pub fn digestDelivered(store: &mut RuntimeStore, msg_id: i64) -> (r: Result<i64, Error>)
    requires
        old(store).wf(),
    ensures
        final(store).wf(),
        delivery_recorded(old(store)@, final(store)@, msg_id, r),
{
    let mut info = match RuntimeInfo::load(store) {
        Ok(info) => info,
        Err(e) => {
            return Err(e);
        },
    };
    info.setDigestMessage(msg_id);
    let _ = info.save(store);
    Ok(msg_id)
}

/// The state of one run of the digest.
pub struct DigestView {
    /// The chat the digest goes to.
    pub chat_id: i64,
    /// The caption template.
    pub caption: Seq<char>,
    /// The time of the run, in seconds since the Unix epoch.
    pub now: i64,
    /// While listing: the posts that have come in. Then: the posts of the
    /// last day.
    pub posts: Seq<Post>,
    /// Whether listings are still being asked for.
    pub listing: bool,
    /// Whether a listing has come in, and how many posts the last one held.
    pub last_page: Option<nat>,
    /// Once listing is over: the ranking of the posts.
    pub order: Seq<usize>,
    /// The number of candidates that were tried and failed.
    pub attempt: nat,
    /// Once a candidate was sent: the message that carries it.
    pub delivered: Option<i64>,
}

/// The cursor for the next listing, while the run is listing and has a
/// listing behind it.
pub open spec fn run_cursor(v: DigestView) -> Option<Seq<char>> {
    match v.last_page {
        Some(n) => next_cursor(v.posts, n, v.now),
        None => None,
    }
}

/// A run is valid when, while listing, it has something to ask for and
/// nothing tried or delivered, and afterwards holds the ranking of its
/// posts and has tried no more candidates than there are.
pub open spec fn run_wf(v: DigestView) -> bool {
    if v.listing {
        &&& v.last_page is Some ==> run_cursor(v) is Some
        &&& v.order.len() == 0
        &&& v.attempt == 0
        &&& v.delivered is None
    } else {
        is_ranking(v.posts, v.order) && v.attempt <= v.order.len()
    }
}

/// A candidate is being tried: listing is over, nothing was delivered yet
/// and the ranking is not used up.
pub open spec fn send_pending(v: DigestView) -> bool {
    !v.listing && v.delivered is None && v.attempt < v.order.len()
}

/// The place in the run's posts of the candidate that is being tried.
pub open spec fn run_candidate(v: DigestView) -> Option<int> {
    if send_pending(v) {
        candidate_at(v.posts, v.order, v.attempt)
    } else {
        None
    }
}

/// The run after a listing `page` has come in: the posts are added; when
/// the last of them is older than a day, or the page was empty, listing is
/// over, and the posts of the last day are kept and ranked.
pub open spec fn page_received(before: DigestView, page: Seq<Post>, after: DigestView) -> bool {
    let all = before.posts + page;
    if !before.listing {
        after == before
    } else if next_cursor(all, page.len(), before.now) is Some {
        after == (DigestView { posts: all, last_page: Some(page.len()), ..before })
    } else {
        &&& after.posts == all.take(window_end(all, before.now) as int)
        &&& is_ranking(after.posts, after.order)
        &&& after == (DigestView {
            posts: after.posts,
            order: after.order,
            listing: false,
            last_page: Some(page.len()),
            ..before
        })
    }
}

/// The run after the candidate that was being tried could not be sent: the
/// next candidate is up.
pub open spec fn send_failed(before: DigestView) -> DigestView {
    if send_pending(before) {
        DigestView { attempt: before.attempt + 1, ..before }
    } else {
        before
    }
}

/// The run after the candidate that was being tried went out as message
/// `msg_id`: the run is over.
pub open spec fn delivery_noted(before: DigestView, msg_id: i64) -> DigestView {
    if send_pending(before) {
        DigestView { delivered: Some(msg_id), ..before }
    } else {
        before
    }
}

/// What telling a run of a delivery answers and does to the store: where a
/// candidate was being tried, the store records the message as
/// `delivery_recorded` says; else nothing is recorded.
pub open spec fn delivery_answer(
    run: DigestView,
    before: Option<RuntimeInfoView>,
    after: Option<RuntimeInfoView>,
    msg_id: i64,
    r: Result<i64, Error>,
) -> bool {
    if send_pending(run) {
        delivery_recorded(before, after, msg_id, r)
    } else {
        after == before && (r matches Err(e) && e is RuntimeError && e.message()
            == "No candidate is being sent"@)
    }
}

/// What a run asks for.
pub enum DigestStep {
    /// List the subreddit, newest first, from the start or after the post
    /// with the given full name, and hand the posts to `page`.
    List { after: Option<String> },
    /// Carry out the request. On success call `delivered` with the id of
    /// the message; on failure call `sendFailed`. Then ask again.
    Send { request: Request },
    /// The digest cannot be delivered.
    Fail { error: Error },
    /// The digest went out as this message; nothing is left to do.
    Done { message_id: i64 },
}

/// What a run in state `v` asks for.
pub open spec fn step_of(v: DigestView, step: DigestStep) -> bool {
    if v.listing {
        match run_cursor(v) {
            Some(cursor) => step matches DigestStep::List { after: Some(s) } && s@ == cursor,
            None => step matches DigestStep::List { after: None },
        }
    } else if v.delivered is Some {
        step matches DigestStep::Done { message_id } && Some(message_id) == v.delivered
    } else {
        match step {
            DigestStep::Send { request } => attempt_answer(
                v.posts,
                v.order,
                v.attempt,
                v.chat_id,
                v.caption,
                Ok(request),
            ),
            DigestStep::Fail { error } => attempt_answer(
                v.posts,
                v.order,
                v.attempt,
                v.chat_id,
                v.caption,
                Err(error),
            ),
            _ => false,
        }
    }
}

/// One run of the digest: it lists the feed until the listing reaches back
/// a day, keeps the posts of the last day, ranks the candidates among them
/// and has them tried in rank order until one is delivered.
pub struct DigestRun {
    chat_id: i64,
    caption: String,
    now: i64,
    posts: Vec<Post>,
    listing: bool,
    last_page: Option<usize>,
    order: Vec<usize>,
    attempt: usize,
    delivered: Option<i64>,
}

impl View for DigestRun {
    type V = DigestView;

    closed spec fn view(&self) -> DigestView {
        DigestView {
            chat_id: self.chat_id,
            caption: self.caption@,
            now: self.now,
            posts: self.posts@,
            listing: self.listing,
            last_page: match self.last_page {
                Some(n) => Some(n as nat),
                None => None,
            },
            order: self.order@,
            attempt: self.attempt as nat,
            delivered: self.delivered,
        }
    }
}

/// The run that `startAt` makes for a configured group: nothing listed yet.
pub open spec fn fresh_run(config: ConfigParams, chat: i64, now: i64) -> DigestView {
    DigestView {
        chat_id: chat,
        caption: config.reddit.daily_pic_caption@,
        now,
        posts: Seq::empty(),
        listing: true,
        last_page: None,
        order: Seq::empty(),
        attempt: 0,
        delivered: None,
    }
}

/// What starting a run at time `now` gives: a fresh run for the configured
/// group, or `ConfigurationError` where no group is configured.
pub open spec fn run_started(config: ConfigParams, now: i64, r: Result<DigestRun, Error>) -> bool {
    match config.general.group_id {
        Some(chat) => r matches Ok(run) && run@ == fresh_run(config, chat, now),
        None => r matches Err(e) && e is ConfigurationError && e.message()
            == "No group ID specified"@,
    }
}

impl DigestRun {
    /// The run is valid.
    pub open spec fn wf(&self) -> bool {
        run_wf(self@)
    }

    /// Starts a run of the digest at time `now`. Nothing but the settings
    /// is read and no state is touched.
    pub fn startAt(config: &ConfigParams, now: i64) -> (r: Result<Self, Error>)
        ensures
            run_started(*config, now, r),
            r matches Ok(run) ==> run.wf(),
    {
        match config.general.group_id {
            Some(chat_id) => Ok(
                DigestRun {
                    chat_id,
                    caption: config.reddit.daily_pic_caption.clone(),
                    now,
                    posts: Vec::new(),
                    listing: true,
                    last_page: None,
                    order: Vec::new(),
                    attempt: 0,
                    delivered: None,
                },
            ),
            None => Err(Error::ConfigurationError(String::from_str("No group ID specified"))),
        }
    }

    /// The place in the run's posts of the candidate that is being tried,
    /// if one is.
    pub fn candidate(&self) -> (at: Option<usize>)
        ensures
            match run_candidate(self@) {
                Some(i) => at == Some(i as usize),
                None => at is None,
            },
    {
        if !self.listing && self.delivered.is_none() && self.attempt < self.order.len() {
            candidateAt(&self.posts, &self.order, self.attempt)
        } else {
            None
        }
    }

    /// What the run asks for next.
    pub fn step(&self) -> (step: DigestStep)
        requires
            self.wf(),
        ensures
            step_of(self@, step),
    {
        if self.listing {
            match self.last_page {
                Some(n) => DigestStep::List { after: nextListing(&self.posts, n, self.now) },
                None => DigestStep::List { after: None },
            }
        } else {
            match self.delivered {
                Some(message_id) => DigestStep::Done { message_id },
                None => match trySendFirstPhotoFromPosts(
                    &self.posts,
                    &self.order,
                    self.attempt,
                    self.chat_id,
                    self.caption.as_str(),
                ) {
                    Ok(request) => DigestStep::Send { request },
                    Err(error) => DigestStep::Fail { error },
                },
            }
        }
    }

    /// Takes in the posts of a listing, in the order in which they came.
    pub fn page(&mut self, page: Vec<Post>)
        requires
            old(self).wf(),
        ensures
            final(self).wf(),
            page_received(old(self)@, page@, final(self)@),
    {
        if !self.listing {
            return ;
        }
        let mut page = page;
        let page_len = page.len();
        self.posts.append(&mut page);
        self.last_page = Some(page_len);
        if nextListing(&self.posts, page_len, self.now).is_none() {
            let mut all: Vec<Post> = Vec::new();
            all.append(&mut self.posts);
            self.posts = getRedditPostsToday(all, self.now);
            self.order = bestPosts(&self.posts);
            self.listing = false;
        }
    }

    /// Notes that the candidate that was being tried could not be sent.
    pub fn sendFailed(&mut self)
        requires
            old(self).wf(),
        ensures
            final(self).wf(),
            final(self)@ == send_failed(old(self)@),
    {
        if !self.listing && self.delivered.is_none() && self.attempt < self.order.len() {
            self.attempt = self.attempt + 1;
        }
    }

    /// Notes that the candidate that was being tried went out as message
    /// `msg_id`, and records that message in the store as the active digest.
    /// The run is over whatever the store answers: no further candidate is
    /// tried. The record is in the store when this returns, before the
    /// caller can report success.
    pub fn delivered(&mut self, store: &mut RuntimeStore, msg_id: i64) -> (r: Result<i64, Error>)
        requires
            old(self).wf(),
            old(store).wf(),
        ensures
            final(self).wf(),
            final(store).wf(),
            final(self)@ == delivery_noted(old(self)@, msg_id),
            delivery_answer(old(self)@, old(store)@, final(store)@, msg_id, r),
    {
        if !self.listing && self.delivered.is_none() && self.attempt < self.order.len() {
            self.delivered = Some(msg_id);
            digestDelivered(store, msg_id)
        } else {
            Err(Error::RuntimeError(String::from_str("No candidate is being sent")))
        }
    }
}

/// Starts the digest of the last twenty-four hours, counted from the time
/// the clock shows: as `DigestRun::startAt` for that time.
pub fn sendBestRedditToday(config: &ConfigParams) -> (r: Result<DigestRun, Error>)
    ensures
        exists|now: i64| run_started(*config, now, r),
        r matches Ok(run) ==> run.wf(),
{
    let now = utcNow();
    DigestRun::startAt(config, now)
}

/// The run after `failures` sends have failed one after another.
pub open spec fn failed_times(v: DigestView, failures: nat) -> DigestView
    decreases failures,
{
    if failures == 0 {
        v
    } else {
        send_failed(failed_times(v, (failures - 1) as nat))
    }
}

/// Candidates are tried in rank order, each at most once: after `failures`
/// failed sends a run that has finished listing and delivered nothing is at
/// attempt number `failures`, so that the candidate being tried is the one at
/// that rank, or it has run out of candidates; the posts and their ranking
/// stay.
pub proof fn lemma_fallback_in_rank_order(v: DigestView, failures: nat)
    requires
        run_wf(v),
        !v.listing,
        v.delivered is None,
    ensures
        run_wf(failed_times(v, failures)),
        failed_times(v, failures) == (DigestView {
            attempt: if v.attempt + failures <= v.order.len() {
                v.attempt + failures
            } else {
                v.order.len()
            },
            ..v
        }),
        run_candidate(failed_times(v, failures)) == if v.attempt + failures < v.order.len() {
            Some(v.order[(v.attempt + failures) as int] as int)
        } else {
            None
        },
    decreases failures,
{
    if failures > 0 {
        lemma_fallback_in_rank_order(v, (failures - 1) as nat);
    }
}

/// The first candidate that is sent ends the run, and the candidates behind
/// it are never tried: once a delivery is noted, no candidate is being
/// tried, a failed send, a listing and another delivery change nothing, and
/// all the run asks for is to stop.
pub proof fn lemma_nothing_after_delivery(v: DigestView, msg_id: i64, page: Seq<Post>, other: i64)
    requires
        run_wf(v),
        send_pending(v),
    ensures
        run_wf(delivery_noted(v, msg_id)),
        delivery_noted(v, msg_id).delivered == Some(msg_id),
        run_candidate(delivery_noted(v, msg_id)) is None,
        send_failed(delivery_noted(v, msg_id)) == delivery_noted(v, msg_id),
        page_received(delivery_noted(v, msg_id), page, delivery_noted(v, msg_id)),
        delivery_noted(delivery_noted(v, msg_id), other) == delivery_noted(v, msg_id),
        forall|step: DigestStep|
            step_of(delivery_noted(v, msg_id), step) ==> step == (DigestStep::Done {
                message_id: msg_id,
            }),
{
}

} // verus!
