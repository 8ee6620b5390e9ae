//! Strings as sequences of characters: the few operations the bot's rules
//! need, each stated over `Seq<char>`.
use vstd::prelude::*;
use vstd::std_specs::iter::IteratorSpec;
use vstd::string::*;
use vstd::utf8::*;

verus! {

/// Calls `std::str::from_utf8`: the bytes as text where they are valid
/// UTF-8, the text being what they decode to; `None` where they are not.
#[verifier::external_body]
pub(crate) fn utf8Text(bytes: &[u8]) -> (r: Option<&str>)
    ensures
        r is Some <==> valid_utf8(bytes@),
        r matches Some(s) ==> s@ == decode_utf8(bytes@),
{
    std::str::from_utf8(bytes).ok()
}

/// `s` begins with `prefix`.
pub open spec fn starts_with(s: Seq<char>, prefix: Seq<char>) -> bool {
    prefix.len() <= s.len() && s.subrange(0, prefix.len() as int) == prefix
}

/// The characters of a string, in order.
pub fn charsOf(s: &str) -> (v: Vec<char>)
    ensures
        v@ == s@,
{
    broadcast use vstd::string::group_string_axioms;

    let mut v: Vec<char> = Vec::new();
    let mut it = s.chars();
    loop
        invariant
            it.obeys_prophetic_iter_laws(),
            v@ + it.remaining() == s@,
        decreases s@.len() - v@.len(),
    {
        match it.next() {
            Some(c) => {
                v.push(c);
            },
            None => {
                assert(v@ + it.remaining() =~= v@);
                return v;
            },
        }
    }
}

/// The one character that writes the digit `d`.
pub open spec fn digit_text(d: nat) -> Seq<char> {
    if d == 0 {
        "0"@
    } else if d == 1 {
        "1"@
    } else if d == 2 {
        "2"@
    } else if d == 3 {
        "3"@
    } else if d == 4 {
        "4"@
    } else if d == 5 {
        "5"@
    } else if d == 6 {
        "6"@
    } else if d == 7 {
        "7"@
    } else if d == 8 {
        "8"@
    } else {
        "9"@
    }
}

/// The number in decimal, without sign or leading zeros.
pub open spec fn decimal(n: nat) -> Seq<char>
    decreases n,
{
    if n < 10 {
        digit_text(n)
    } else {
        decimal(n / 10) + digit_text(n % 10)
    }
}

/// The text of a digit.
fn digitStr(d: u32) -> (s: &'static str)
    requires
        d < 10,
    ensures
        s@ == digit_text(d as nat),
{
    if d == 0 {
        "0"
    } else if d == 1 {
        "1"
    } else if d == 2 {
        "2"
    } else if d == 3 {
        "3"
    } else if d == 4 {
        "4"
    } else if d == 5 {
        "5"
    } else if d == 6 {
        "6"
    } else if d == 7 {
        "7"
    } else if d == 8 {
        "8"
    } else {
        "9"
    }
}

/// The number written in decimal.
pub fn u32ToString(n: u32) -> (s: String)
    ensures
        s@ == decimal(n as nat),
    decreases n,
{
    if n < 10 {
        String::from_str(digitStr(n))
    } else {
        u32ToString(n / 10).concat(digitStr(n % 10))
    }
}

/// The number in decimal, with a `-` in front where it is negative.
pub open spec fn signed_decimal(n: int) -> Seq<char> {
    if n < 0 {
        "-"@ + decimal((-n) as nat)
    } else {
        decimal(n as nat)
    }
}

/// The number written in decimal.
pub fn i32ToString(n: i32) -> (s: String)
    ensures
        s@ == signed_decimal(n as int),
{
    if n < 0 {
        let magnitude = (-(n as i64)) as u32;
        String::from_str("-").concat(u32ToString(magnitude).as_str())
    } else {
        u32ToString(n as u32)
    }
}

/// Whether `hay` holds `needle` at position `at`.
pub open spec fn occurs_at(hay: Seq<char>, needle: Seq<char>, at: int) -> bool {
    0 <= at && at + needle.len() <= hay.len() && hay.subrange(at, at + needle.len()) == needle
}

/// Whether `hay` holds `needle` at position `at`.
pub fn charsOccurAt(hay: &Vec<char>, needle: &Vec<char>, at: usize) -> (b: bool)
    ensures
        b == occurs_at(hay@, needle@, at as int),
{
    let n = needle.len();
    if at > hay.len() || n > hay.len() - at {
        return false;
    }
    let mut k: usize = 0;
    while k < n
        invariant
            n == needle@.len(),
            at + n <= hay@.len() <= usize::MAX,
            k <= n,
            forall|i: int| 0 <= i < k ==> hay@[at + i] == needle@[i],
        decreases n - k,
    {
        if hay[at + k] != needle[k] {
            assert(hay@.subrange(at as int, at + n)[k as int] == hay@[at + k]);
            return false;
        }
        k += 1;
    }
    assert(hay@.subrange(at as int, at + n) =~= needle@);
    true
}

/// Whether `s` begins with `prefix`.
pub fn hasPrefix(s: &str, prefix: &str) -> (b: bool)
    ensures
        b == starts_with(s@, prefix@),
{
    let hay = charsOf(s);
    let needle = charsOf(prefix);
    charsOccurAt(&hay, &needle, 0)
}

/// Whether the two strings hold the same characters.
pub fn sameText(a: &str, b: &str) -> (same: bool)
    ensures
        same == (a@ == b@),
{
    let x = charsOf(a);
    let y = charsOf(b);
    if x.len() != y.len() {
        return false;
    }
    let same = charsOccurAt(&x, &y, 0);
    assert(x@.subrange(0, x@.len() as int) =~= x@);
    same
}

/// The character is one of `0` to `9`.
pub open spec fn is_digit(c: char) -> bool {
    0x30 <= c as u32 <= 0x39
}

/// The number that the digit stands for; zero for any other character.
pub open spec fn digit_of(c: char) -> nat {
    if is_digit(c) {
        (c as u32 - 0x30) as nat
    } else {
        0
    }
}

/// Every character is a digit.
pub open spec fn all_digits(s: Seq<char>) -> bool {
    forall|i: int| 0 <= i < s.len() ==> is_digit(#[trigger] s[i])
}

/// The number that the digits write in decimal.
pub open spec fn decimal_value(s: Seq<char>) -> nat
    decreases s.len(),
{
    if s.len() == 0 {
        0
    } else {
        decimal_value(s.drop_last()) * 10 + digit_of(s.last())
    }
}

/// The text as an unsigned number of at most `max`: digits, one at least,
/// with a `+` in front of them or nothing, and nothing else. Any other text
/// is no number, and so is one that writes more than `max`.
pub open spec fn parsed_decimal(s: Seq<char>, max: nat) -> Option<nat> {
    let body = if s.len() > 0 && s[0] == '+' {
        s.drop_first()
    } else {
        s
    };
    if body.len() > 0 && all_digits(body) && decimal_value(body) <= max {
        Some(decimal_value(body))
    } else {
        None
    }
}

/// A number is at least what any start of its digits writes.
pub proof fn lemma_decimal_value_grows(s: Seq<char>, k: int)
    requires
        0 <= k <= s.len(),
    ensures
        decimal_value(s.take(k)) <= decimal_value(s),
    decreases s.len(),
{
    if k == s.len() {
        assert(s.take(k) =~= s);
    } else {
        assert(s.drop_last().take(k) =~= s.take(k));
        lemma_decimal_value_grows(s.drop_last(), k);
    }
}

/// The number that the characters from `from` up to `to` write, as
/// `parsed_decimal` reads them.
pub fn parseDecimal(chars: &Vec<char>, from: usize, to: usize, max: u64) -> (r: Option<u64>)
    requires
        from <= to <= chars@.len(),
    ensures
        match parsed_decimal(chars@.subrange(from as int, to as int), max as nat) {
            Some(n) => r == Some(n as u64),
            None => r is None,
        },
{
    let ghost s = chars@.subrange(from as int, to as int);
    let mut k = from;
    if k < to && chars[k] == '+' {
        k += 1;
    }
    let start = k;
    let ghost body = chars@.subrange(start as int, to as int);
    assert(body =~= if s.len() > 0 && s[0] == '+' {
        s.drop_first()
    } else {
        s
    });
    if start == to {
        return None;
    }
    let ghost goal = parsed_decimal(s, max as nat);
    let mut acc: u64 = 0;
    while k < to
        invariant
            start <= k <= to <= chars@.len(),
            body == chars@.subrange(start as int, to as int),
            goal == if all_digits(body) && decimal_value(body) <= max {
                Some(decimal_value(body))
            } else {
                None
            },
            goal == parsed_decimal(chars@.subrange(from as int, to as int), max as nat),
            all_digits(body.take(k - start)),
            acc == decimal_value(body.take(k - start)),
            acc <= max,
        decreases to - k,
    {
        let c = chars[k] as u32;
        assert(body[k - start] == chars@[k as int]);
        if c < 0x30 || c > 0x39 {
            return None;
        }
        let d = (c - 0x30) as u64;
        proof {
            assert(body.take(k - start + 1).drop_last() =~= body.take(k - start));
            lemma_decimal_value_grows(body, k - start + 1);
        }
        if d > max || acc > (max - d) / 10 {
            return None;
        }
        acc = acc * 10 + d;
        k += 1;
    }
    assert(body.take(body.len() as int) =~= body);
    Some(acc)
}

/// The first position from `from` on at which `c` stands; the length of `s`
/// where it stands nowhere.
pub open spec fn index_of(s: Seq<char>, c: char, from: int) -> int
    decreases s.len() - from,
{
    if from >= s.len() {
        s.len() as int
    } else if s[from] == c {
        from
    } else {
        index_of(s, c, from + 1)
    }
}

/// The first position from `from` on at which `c` stands.
pub fn findChar(chars: &Vec<char>, c: char, from: usize) -> (at: usize)
    requires
        from <= chars@.len(),
    ensures
        at == index_of(chars@, c, from as int),
        from <= at <= chars@.len(),
{
    let n = chars.len();
    let mut k = from;
    while k < n && chars[k] != c
        invariant
            n == chars@.len(),
            from <= k <= n,
            index_of(chars@, c, from as int) == index_of(chars@, c, k as int),
        decreases n - k,
    {
        k += 1;
    }
    k
}

} // verus!
