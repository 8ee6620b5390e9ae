//! Small tools: stripping white space and filling in message templates.
use vstd::prelude::*;
use vstd::string::*;

use crate::error::Error;
use crate::text::{charsOf, i32ToString, signed_decimal};

verus! {

/// Whether `regex::Regex::new` accepts the pattern.
pub uninterp spec fn regex_compiles(pattern: Seq<char>) -> bool;

/// What `regex::Regex::replace_all` makes of `haystack` with the replacement
/// `rep`, on the expression that `regex::Regex::new` makes of `pattern`.
pub uninterp spec fn regex_replaced(pattern: Seq<char>, haystack: Seq<char>, rep: Seq<char>) -> Seq<
    char,
>;

/// Calls `regex::Regex::new` on the pattern and, where that gives an
/// expression, `Regex::replace_all` on it with a string as the replacement:
/// every match in `haystack`, from left to right and without overlap, gives
/// way to the replacement, in which `$name` stands for a capture group. The
/// result is `None` exactly for the patterns that the regex crate refuses;
/// which those are is left to the crate. Else it depends on the pattern,
/// the haystack and the replacement alone.
#[verifier::external_body]
pub(crate) fn regexReplaceAllOf(pattern: &str, haystack: &str, rep: &str) -> (r: Option<String>)
    ensures
        r is Some <==> regex_compiles(pattern@),
        r matches Some(s) ==> s@ == regex_replaced(pattern@, haystack@, rep@),
{
    match regex::Regex::new(pattern) {
        Ok(re) => Some(re.replace_all(haystack, rep).into_owned()),
        Err(_) => None,
    }
}

/// The expression that finds the placeholder of `key`: `\$\{`, the key as it
/// is, and `\}`. A key is read as part of the expression, not as plain text.
pub open spec fn key_pattern(key: Seq<char>) -> Seq<char> {
    "\\$\\{"@ + key + "\\}"@
}

/// A text with placeholders of the form `${key}`.
pub struct SimpleTemplate {
    tplt: String,
}

impl View for SimpleTemplate {
    type V = Seq<char>;

    closed spec fn view(&self) -> Seq<char> {
        self.tplt@
    }
}

impl SimpleTemplate {
    /// The template with the text `s`.
    pub fn new(s: &str) -> (t: Self)
        ensures
            t@ == s@,
    {
        Self { tplt: String::from_str(s) }
    }

    /// The template with `value` in place of every placeholder of `key`.
    /// The key must make a valid expression; `tryApply` tests that first.
    pub fn apply(self, key: &str, value: &str) -> (t: Self)
        requires
            regex_compiles(key_pattern(key@)),
        ensures
            t@ == regex_replaced(key_pattern(key@), self@, value@),
    {
        let pattern = String::from_str("\\$\\{").concat(key).concat("\\}");
        match regexReplaceAllOf(pattern.as_str(), self.tplt.as_str(), value) {
            Some(tplt) => Self { tplt },
            None => self,
        }
    }

    /// As `apply`, where the key makes a valid expression; `None` where it
    /// does not.
    pub fn tryApply(self, key: &str, value: &str) -> (r: Option<Self>)
        ensures
            r is Some <==> regex_compiles(key_pattern(key@)),
            r matches Some(t) ==> t@ == regex_replaced(key_pattern(key@), self@, value@),
    {
        if keyIsValid(key) {
            Some(self.apply(key, value))
        } else {
            None
        }
    }

    /// The text of the template.
    pub fn result(self) -> (s: String)
        ensures
            s@ == self@,
    {
        self.tplt
    }
}

/// What the end of a command means: nothing to report where it succeeded;
/// else an error that names the program and the exit code, or says that
/// the program was terminated where it left no code.
pub open spec fn exit_answer(
    prog: Seq<char>,
    success: bool,
    code: Option<i32>,
    r: Result<(), Error>,
) -> bool {
    if success {
        r is Ok
    } else {
        &&& r matches Err(e)
        &&& e is RuntimeError
        &&& e.message() == match code {
            Some(c) => prog + " failed with "@ + signed_decimal(c as int),
            None => prog + " was terminated"@,
        }
    }
}

/// Judges how the command `prog` ended, from whether it reported success
/// and the exit code it left, if any.
pub fn exitOutcome(prog: &str, success: bool, code: Option<i32>) -> (r: Result<
    (),
    Error,
>)
    ensures
        exit_answer(prog@, success, code, r),
{
    if success {
        Ok(())
    } else {
        match code {
            Some(c) => Err(
                Error::RuntimeError(
                    String::from_str(prog).concat(" failed with ").concat(
                        i32ToString(c).as_str(),
                    ),
                ),
            ),
            None => Err(
                Error::RuntimeError(String::from_str(prog).concat(" was terminated")),
            ),
        }
    }
}

/// Whether `key` makes a valid expression, so that `apply` takes it. The
/// expression is tried on the empty text.
pub fn keyIsValid(key: &str) -> (valid: bool)
    ensures
        valid == regex_compiles(key_pattern(key@)),
{
    let pattern = String::from_str("\\$\\{").concat(key).concat("\\}");
    regexReplaceAllOf(pattern.as_str(), "", "").is_some()
}

/// The characters with the Unicode property White_Space.
pub open spec fn is_whitespace(c: char) -> bool {
    let u = c as u32;
    ||| 0x09 <= u <= 0x0D
    ||| u == 0x20
    ||| u == 0x85
    ||| u == 0xA0
    ||| u == 0x1680
    ||| 0x2000 <= u <= 0x200A
    ||| u == 0x2028
    ||| u == 0x2029
    ||| u == 0x202F
    ||| u == 0x205F
    ||| u == 0x3000
}

/// The number of bytes that the character takes in UTF-8.
pub open spec fn utf8_len(c: char) -> nat {
    let u = c as u32;
    if u < 0x80 {
        1
    } else if u < 0x800 {
        2
    } else if u < 0x10000 {
        3
    } else {
        4
    }
}

/// The position of the first character that is not white space; the length
/// of `s` where there is none.
pub open spec fn first_mark(s: Seq<char>) -> int
    decreases s.len(),
{
    if s.len() == 0 {
        0
    } else if !is_whitespace(s.first()) {
        0
    } else {
        first_mark(s.drop_first()) + 1
    }
}

/// The position of the last character that is not white space; -1 where
/// there is none.
pub open spec fn last_mark(s: Seq<char>) -> int
    decreases s.len(),
{
    if s.len() == 0 {
        -1
    } else if !is_whitespace(s.last()) {
        s.len() - 1
    } else {
        last_mark(s.drop_last())
    }
}

/// From the start of the character at `last` to the end of `s` there are
/// exactly two bytes: a character of two bytes at the very end, or one of
/// one byte with one more such character behind it.
pub open spec fn two_bytes_from(s: Seq<char>, last: int) -> bool {
    ||| last == s.len() - 1 && utf8_len(s[last]) == 2
    ||| last == s.len() - 2 && utf8_len(s[last]) == 1 && utf8_len(s[last + 1]) == 1
}

/// What `strip` makes of a text. The cut is made by bytes, one byte behind
/// the start of the last character that is not white space, so:
/// a text with at most one such position gives the empty text; a text that
/// starts with such a character and has two bytes from the last one on is
/// given back whole; any other text loses the white space at both ends.
pub open spec fn stripped(s: Seq<char>) -> Seq<char> {
    let first = first_mark(s);
    let last = last_mark(s);
    if last < 0 || first == last {
        Seq::empty()
    } else if first == 0 && two_bytes_from(s, last) {
        s
    } else {
        s.subrange(first, last + 1)
    }
}

/// The texts that `strip` can cut: where white space is to be cut off, the
/// last character that stays takes one byte, so that the cut falls between
/// two characters.
pub open spec fn strippable(s: Seq<char>) -> bool {
    let first = first_mark(s);
    let last = last_mark(s);
    ||| last < 0
    ||| first == last
    ||| first == 0 && two_bytes_from(s, last)
    ||| utf8_len(s[last]) == 1
}

/// Whether the character is white space.
pub fn isWhitespace(c: char) -> (b: bool)
    ensures
        b == is_whitespace(c),
{
    let u = c as u32;
    (0x09 <= u && u <= 0x0D) || u == 0x20 || u == 0x85 || u == 0xA0 || u == 0x1680 || (0x2000 <= u
        && u <= 0x200A) || u == 0x2028 || u == 0x2029 || u == 0x202F || u == 0x205F || u == 0x3000
}

/// The number of bytes that the character takes in UTF-8.
pub fn utf8Len(c: char) -> (n: usize)
    ensures
        n == utf8_len(c),
{
    let u = c as u32;
    if u < 0x80 {
        1
    } else if u < 0x800 {
        2
    } else if u < 0x10000 {
        3
    } else {
        4
    }
}

/// `k` is `first_mark(s)` when all before `k` is white space and `k` is the
/// end of `s` or no white space.
proof fn lemma_first_mark(s: Seq<char>, k: int)
    requires
        0 <= k <= s.len(),
        forall|j: int| 0 <= j < k ==> is_whitespace(s[j]),
        k < s.len() ==> !is_whitespace(s[k]),
    ensures
        first_mark(s) == k,
    decreases s.len(),
{
    if s.len() > 0 && k > 0 {
        let rest = s.drop_first();
        assert forall|j: int| 0 <= j < k - 1 implies is_whitespace(rest[j]) by {
            assert(rest[j] == s[j + 1]);
        }
        lemma_first_mark(rest, k - 1);
    }
}

/// `k` is `last_mark(s)` when all behind `k` is white space and `k` is -1
/// or no white space.
proof fn lemma_last_mark(s: Seq<char>, k: int)
    requires
        -1 <= k < s.len(),
        forall|j: int| k < j < s.len() ==> is_whitespace(s[j]),
        0 <= k ==> !is_whitespace(s[k]),
    ensures
        last_mark(s) == k,
    decreases s.len(),
{
    if s.len() > 0 && k < s.len() - 1 {
        let rest = s.drop_last();
        assert forall|j: int| k < j < rest.len() implies is_whitespace(rest[j]) by {
            assert(rest[j] == s[j]);
        }
        lemma_last_mark(rest, k);
    }
}

/// The text without the white space at its ends, as `stripped` says.
pub fn strip(s: String) -> (r: String)
    requires
        strippable(s@),
    ensures
        r@ == stripped(s@),
{
    let chars = charsOf(s.as_str());
    let n = chars.len();
    let mut first: usize = 0;
    while first < n && isWhitespace(chars[first])
        invariant
            n == chars@.len(),
            first <= n,
            forall|j: int| 0 <= j < first ==> is_whitespace(chars@[j]),
        decreases n - first,
    {
        first += 1;
    }
    proof {
        lemma_first_mark(chars@, first as int);
    }
    if first == n {
        proof {
            lemma_last_mark(chars@, -1);
        }
        return String::new();
    }
    let mut last: usize = n - 1;
    while last > first && isWhitespace(chars[last])
        invariant
            n == chars@.len(),
            first <= last < n,
            !is_whitespace(chars@[first as int]),
            forall|j: int| last < j < n ==> is_whitespace(chars@[j]),
        decreases last,
    {
        last -= 1;
    }
    proof {
        lemma_last_mark(chars@, last as int);
    }
    if first == last {
        String::new()
    } else if first == 0 && ((last == n - 1 && utf8Len(chars[last]) == 2) || (n - last == 2
        && utf8Len(chars[last]) == 1 && utf8Len(chars[last + 1]) == 1)) {
        s
    } else {
        String::from_str(s.as_str().substring_char(first, last + 1))
    }
}

} // verus!
