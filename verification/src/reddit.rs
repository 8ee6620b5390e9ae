//! The feed: its posts, its listing requests and the shape of its URLs.
use vstd::prelude::*;
use vstd::string::*;

use crate::error::Error;
use crate::text::{charsOccurAt, charsOf, decimal, hasPrefix, starts_with, u32ToString};

verus! {

/// What `reqwest::Url::parse` and `Url::query` make of a text: `None` where
/// the text does not parse as an absolute URL, else whether the URL has a
/// query part.
pub uninterp spec fn url_query_present(url: Seq<char>) -> Option<bool>;

/// Calls `reqwest::Url::parse` on the text and, where that succeeds,
/// `Url::query` on the URL. The result is `None` where the text is no
/// absolute URL; else it says whether a query part is there. Both depend on
/// the text alone.
#[verifier::external_body]
pub(crate) fn urlHasQuery(url: &str) -> (r: Option<bool>)
    ensures
        r == url_query_present(url@),
{
    match reqwest::Url::parse(url) {
        Ok(parsed) => Some(parsed.query().is_some()),
        Err(_) => None,
    }
}

/// The base of every request to the feed.
pub open spec fn url_base() -> Seq<char> {
    "https://oauth.reddit.com"@
}

/// The request URL made of `url_raw`, given whether it has a query part:
/// `raw_json=1` is added as a parameter, and the base is put in front unless
/// it is there already.
pub open spec fn with_raw_json(url_raw: Seq<char>, has_query: bool) -> Seq<char> {
    let marked = if has_query {
        url_raw + "&raw_json=1"@
    } else {
        url_raw + "?raw_json=1"@
    };
    if starts_with(url_raw, url_base()) {
        marked
    } else {
        url_base() + marked
    }
}

/// A session with the feed: the token it was given, and the credentials of
/// the application it was given to.
pub struct RedditQuerier {
    token: String,
    refresh_token: Option<String>,
    client_id: String,
    client_secret: String,
}

impl RedditQuerier {
    /// The base of every request to the feed.
    pub fn urlBase() -> (s: &'static str)
        ensures
            s@ == url_base(),
    {
        "https://oauth.reddit.com"
    }

    /// The name under which the bot introduces itself to the feed.
    pub fn userAgent() -> (s: &'static str)
        ensures
            s@ == "desktop:org.darksair.keybot:0.0.1 (by /u/darksair)"@,
    {
        "desktop:org.darksair.keybot:0.0.1 (by /u/darksair)"
    }

    /// The session that holds the given token.
    pub fn fromToken(
        token: String,
        refresh_token: Option<String>,
        client_id: &str,
        client_secret: &str,
    ) -> (q: Self)
        ensures
            q.token() == token@,
            q.refresh() == match refresh_token {
                Some(t) => Some(t@),
                None => None,
            },
            q.credentials() == (client_id@, client_secret@),
    {
        Self {
            token,
            refresh_token,
            client_id: String::from_str(client_id),
            client_secret: String::from_str(client_secret),
        }
    }

    /// The session's token.
    pub closed spec fn token(self) -> Seq<char> {
        self.token@
    }

    /// The token with which the session can be renewed, if it has one.
    pub closed spec fn refresh(self) -> Option<Seq<char>> {
        match self.refresh_token {
            Some(t) => Some(t@),
            None => None,
        }
    }

    /// The client id and secret of the session.
    pub closed spec fn credentials(self) -> (Seq<char>, Seq<char>) {
        (self.client_id@, self.client_secret@)
    }

    /// The session's token.
    pub fn accessToken(&self) -> (s: &str)
        ensures
            s@ == self.token(),
    {
        self.token.as_str()
    }

    /// The token with which the session can be renewed, if it has one.
    pub fn refreshToken(&self) -> (s: Option<&str>)
        ensures
            self.refresh() == match s {
                Some(t) => Some(t@),
                None => None,
            },
    {
        match &self.refresh_token {
            Some(t) => Some(t.as_str()),
            None => None,
        }
    }

    /// The client id of the session.
    pub fn clientId(&self) -> (s: &str)
        ensures
            s@ == self.credentials().0,
    {
        self.client_id.as_str()
    }

    /// The client secret of the session.
    pub fn clientSecret(&self) -> (s: &str)
        ensures
            s@ == self.credentials().1,
    {
        self.client_secret.as_str()
    }

    /// The value of the `Authorization` header of every query: `bearer` and
    /// the token.
    pub fn authorization(&self) -> (s: String)
        ensures
            s@ == "bearer "@ + self.token(),
    {
        String::from_str("bearer ").concat(self.token.as_str())
    }

    /// The request URL made of `url_raw`, given whether it has a query part.
    pub fn urlWithRawJson(url_raw: &str, has_query: bool) -> (url: String)
        ensures
            url@ == with_raw_json(url_raw@, has_query),
    {
        let marked = if has_query {
            String::from_str(url_raw).concat("&raw_json=1")
        } else {
            String::from_str(url_raw).concat("?raw_json=1")
        };
        if hasPrefix(url_raw, Self::urlBase()) {
            marked
        } else {
            String::from_str(Self::urlBase()).concat(marked.as_str())
        }
    }

    /// The request URL made of the path or URL `url_raw`. Whether it has a
    /// query part is decided by parsing it behind `http://localhost`; a text
    /// that does not parse there is refused.
    pub fn urlPreprocess(url_raw: &str) -> (r: Result<String, Error>)
        ensures
            match url_query_present("http://localhost"@ + url_raw@) {
                Some(has_query) => r matches Ok(url) && url@ == with_raw_json(url_raw@, has_query),
                None => r matches Err(e) && e is RedditError && e.message()
                    == "Failed to parse url "@ + url_raw@,
            },
    {
        let probe = String::from_str("http://localhost").concat(url_raw);
        match urlHasQuery(probe.as_str()) {
            Some(has_query) => Ok(Self::urlWithRawJson(url_raw, has_query)),
            None => Err(
                Error::RedditError(String::from_str("Failed to parse url ").concat(url_raw)),
            ),
        }
    }
}

/// A post of the feed, as it was when it was fetched.
pub struct Post {
    pub title: String,
    pub text: String,
    pub author: String,
    pub score: i32,
    /// The path of the post itself.
    pub url: String,
    /// The link in the post.
    pub link: String,
    pub hide_score: bool,
    /// The full name of the post, by which listings are paged.
    pub id: String,
    pub count_comments: u32,
    /// When the post was made, in seconds since the Unix epoch.
    pub time_create: i64,
    /// The name of the subreddit.
    pub sub: String,
}

/// The site that posts link to when they link to themselves.
pub open spec fn site() -> Seq<char> {
    "https://www.reddit.com"@
}

/// The start of every link to a post of the subreddit `sub`.
pub open spec fn comments_prefix(sub: Seq<char>) -> Seq<char> {
    site() + "/r/"@ + sub + "/comments"@
}

/// The post links to itself: its link is a link to a post of its own
/// subreddit, and what follows the site in it is the post's own path.
pub open spec fn links_to_itself(p: Post) -> bool {
    starts_with(p.link@, comments_prefix(p.sub@)) && p.link@.subrange(
        site().len() as int,
        p.link@.len() as int,
    ) == p.url@
}

/// The short address of the post.
pub open spec fn short_url(p: Post) -> Seq<char> {
    "https://reddit.com/r/"@ + p.sub@ + "/comments/"@ + p.id@ + "/"@
}

impl Post {
    /// A post with nothing in it, made at the epoch.
    pub fn new() -> (p: Self)
        ensures
            p.title@.len() == 0,
            p.text@.len() == 0,
            p.author@.len() == 0,
            p.score == 0,
            p.url@.len() == 0,
            p.link@.len() == 0,
            !p.hide_score,
            p.id@.len() == 0,
            p.count_comments == 0,
            p.time_create == 0,
            p.sub@.len() == 0,
    {
        Self {
            title: String::new(),
            text: String::new(),
            author: String::new(),
            score: 0,
            url: String::new(),
            link: String::new(),
            hide_score: false,
            id: String::new(),
            count_comments: 0,
            time_create: 0,
            sub: String::new(),
        }
    }

    /// The full name of the post.
    pub fn fullName(&self) -> (name: &str)
        ensures
            name@ == self.id@,
    {
        self.id.as_str()
    }

    /// Whether the post links to something else than itself.
    pub fn isLink(&self) -> (b: bool)
        ensures
            b == !links_to_itself(*self),
    {
        let prefix = String::from_str("https://www.reddit.com").concat("/r/").concat(
            self.sub.as_str(),
        ).concat("/comments");
        let link = charsOf(self.link.as_str());
        let head = charsOf(prefix.as_str());
        if charsOccurAt(&link, &head, 0) {
            let site_len = charsOf("https://www.reddit.com").len();
            let path = charsOf(self.url.as_str());
            if link.len() - site_len == path.len() && charsOccurAt(&link, &path, site_len) {
                return false;
            }
        }
        true
    }

    /// The post as it is shown when debugging: its path in braces.
    pub fn debugText(&self) -> (s: String)
        ensures
            s@ == "Post{"@ + self.url@ + "}"@,
    {
        String::from_str("Post{").concat(self.url.as_str()).concat("}")
    }

    /// The short address of the post.
    pub fn shortUrl(&self) -> (s: String)
        ensures
            s@ == short_url(*self),
    {
        String::from_str("https://reddit.com/r/").concat(self.sub.as_str()).concat(
            "/comments/",
        ).concat(self.id.as_str()).concat("/")
    }
}

/// The order in which a listing comes.
#[allow(non_camel_case_types)]
#[derive(Debug, Clone, Copy, PartialEq, Eq, Structural)]
pub enum PostSorting {
    hot,
    new,
}

impl PostSorting {
    /// The name of the order, as it stands in a listing's path.
    pub open spec fn name(self) -> Seq<char> {
        match self {
            PostSorting::hot => "hot"@,
            PostSorting::new => "new"@,
        }
    }

    /// The order with the number `x`: 0 for `hot`, 1 for `new`.
    pub fn from(x: u8) -> (r: Result<Self, String>)
        ensures
            x == 0 ==> r == Ok::<Self, String>(PostSorting::hot),
            x == 1 ==> r == Ok::<Self, String>(PostSorting::new),
            x > 1 ==> (r matches Err(m) && m@ == "Unknown convertion from "@ + decimal(x as nat)
                + " to PostSorting"@),
    {
        if x == 0 {
            Ok(PostSorting::hot)
        } else if x == 1 {
            Ok(PostSorting::new)
        } else {
            Err(
                String::from_str("Unknown convertion from ").concat(
                    u32ToString(x as u32).as_str(),
                ).concat(" to PostSorting"),
            )
        }
    }

    /// The name of the order.
    pub fn to_string(&self) -> (s: String)
        ensures
            s@ == self.name(),
    {
        match self {
            PostSorting::hot => String::from_str("hot"),
            PostSorting::new => String::from_str("new"),
        }
    }
}

/// A subreddit, by name.
pub struct Subreddit {
    name: String,
}

impl View for Subreddit {
    type V = Seq<char>;

    closed spec fn view(&self) -> Seq<char> {
        self.name@
    }
}

/// The path of a listing, before it is made a request URL.
pub open spec fn listing_path(sub: Seq<char>, sorting: PostSorting) -> Seq<char> {
    "/r/"@ + sub + "/"@ + sorting.name() + ".json"@
}

/// The parameters of a listing request: `g=GLOBAL`, then `before` and
/// `after` where they are given.
pub open spec fn listing_query(before: Option<&str>, after: Option<&str>) -> Seq<
    (Seq<char>, Seq<char>),
> {
    let base = seq![("g"@, "GLOBAL"@)];
    let with_before = match before {
        Some(id) => base.push(("before"@, id@)),
        None => base,
    };
    match after {
        Some(id) => with_before.push(("after"@, id@)),
        None => with_before,
    }
}

/// The pairs as sequences of characters.
pub open spec fn pairs_view(pairs: Seq<(String, String)>) -> Seq<(Seq<char>, Seq<char>)> {
    pairs.map_values(|p: (String, String)| (p.0@, p.1@))
}

impl Subreddit {
    /// The subreddit called `sub`.
    pub fn new(sub: &str) -> (s: Self)
        ensures
            s@ == sub@,
    {
        Self { name: String::from_str(sub) }
    }

    /// The path of the subreddit.
    pub fn urlName(&self) -> (path: String)
        ensures
            path@ == "/r/"@ + self@,
    {
        String::from_str("/r/").concat(self.name.as_str())
    }

    /// The request URL of a listing of the subreddit in the given order.
    pub fn listUrl(&self, sorting: PostSorting) -> (r: Result<String, Error>)
        ensures
            match url_query_present("http://localhost"@ + listing_path(self@, sorting)) {
                Some(has_query) => r matches Ok(url) && url@ == with_raw_json(
                    listing_path(self@, sorting),
                    has_query,
                ),
                None => r matches Err(e) && e is RedditError && e.message()
                    == "Failed to parse url "@ + listing_path(self@, sorting),
            },
    {
        let path = self.urlName().concat("/").concat(sorting.to_string().as_str()).concat(".json");
        RedditQuerier::urlPreprocess(path.as_str())
    }

    /// The parameters of a listing request for the posts before or after
    /// the given full names.
    pub fn listQuery(before: Option<&str>, after: Option<&str>) -> (query: Vec<(String, String)>)
        ensures
            pairs_view(query@) == listing_query(before, after),
    {
        let mut query: Vec<(String, String)> = Vec::new();
        query.push((String::from_str("g"), String::from_str("GLOBAL")));
        if let Some(before_id) = before {
            query.push((String::from_str("before"), String::from_str(before_id)));
        }
        if let Some(after_id) = after {
            query.push((String::from_str("after"), String::from_str(after_id)));
        }
        assert(pairs_view(query@) =~= listing_query(before, after));
        query
    }
}

} // verus!
