use keybot::error::Error;
use keybot::utils::{exitOutcome, isWhitespace, keyIsValid, strip, utf8Len, SimpleTemplate};

#[test]
fn testTemplate() {
    let t = SimpleTemplate::new("${user}，你已经是一个键盘侠啦！快来和大家打个招呼吧~");
    assert_eq!(
        &t.apply("user", "abc").result(),
        "abc，你已经是一个键盘侠啦！快来和大家打个招呼吧~"
    );
}

#[test]
fn template_replaces_every_placeholder() {
    let t = SimpleTemplate::new("${n} and ${n}, not ${m}");
    assert_eq!(t.apply("n", "x").result(), "x and x, not ${m}");
}

#[test]
fn template_without_placeholder_is_unchanged() {
    let t = SimpleTemplate::new("nothing here");
    assert_eq!(t.apply("user", "abc").result(), "nothing here");
}

#[test]
fn template_new_and_result_round_trip() {
    assert_eq!(SimpleTemplate::new("a ${b} c").result(), "a ${b} c");
}

#[test]
fn template_key_is_read_as_expression() {
    // The key is part of the expression: `a.c` also finds `${abc}`.
    let t = SimpleTemplate::new("${abc} ${a.c}");
    assert_eq!(t.apply("a.c", "x").result(), "x x");
}

#[test]
fn template_try_apply_refuses_invalid_key() {
    assert!(!keyIsValid("("));
    assert!(SimpleTemplate::new("${(}").tryApply("(", "x").is_none());
}

#[test]
fn template_try_apply_accepts_valid_key() {
    assert!(keyIsValid("count"));
    let r = SimpleTemplate::new("n=${count}").tryApply("count", "3");
    match r {
        Some(t) => assert_eq!(t.result(), "n=3"),
        None => panic!("a plain key must be accepted"),
    }
}

#[test]
fn strip_cuts_white_space_at_both_ends() {
    assert_eq!(strip("  hello  ".to_string()), "hello");
    assert_eq!(strip("\thello world\n\n".to_string()), "hello world");
    assert_eq!(strip("hello".to_string()), "hello");
    assert_eq!(strip(" a\u{e9}b ".to_string()), "a\u{e9}b");
}

#[test]
fn strip_of_nothing_but_white_space_is_empty() {
    assert_eq!(strip("".to_string()), "");
    assert_eq!(strip("   ".to_string()), "");
    assert_eq!(strip("\u{3000}\u{a0}".to_string()), "");
}

#[test]
fn strip_of_a_single_mark_is_empty() {
    assert_eq!(strip("a".to_string()), "");
    assert_eq!(strip(" a ".to_string()), "");
}

#[test]
fn strip_gives_back_a_text_with_two_bytes_from_its_last_mark() {
    assert_eq!(strip("ab ".to_string()), "ab ");
    assert_eq!(strip("a\u{e9}".to_string()), "a\u{e9}");
    assert_eq!(strip("ab  ".to_string()), "ab");
}

#[test]
fn white_space_is_the_unicode_property() {
    for code in 0u32..0x110000 {
        if let Some(c) = char::from_u32(code) {
            assert_eq!(isWhitespace(c), c.is_whitespace());
        }
    }
}

#[test]
fn utf8_len_is_the_encoded_length() {
    for code in 0u32..0x110000 {
        if let Some(c) = char::from_u32(code) {
            assert_eq!(utf8Len(c), c.len_utf8());
        }
    }
}

#[test]
fn exit_outcome_of_success_is_ok() {
    assert!(exitOutcome("curl", true, Some(0)).is_ok());
    assert!(exitOutcome("curl", true, None).is_ok());
}

#[test]
fn exit_outcome_names_program_and_code() {
    match exitOutcome("magick", false, Some(2)) {
        Err(Error::RuntimeError(m)) => assert_eq!(m, "magick failed with 2"),
        _ => panic!("expected a runtime error"),
    }
    match exitOutcome("magick", false, Some(-2147483648)) {
        Err(Error::RuntimeError(m)) => assert_eq!(m, "magick failed with -2147483648"),
        _ => panic!("expected a runtime error"),
    }
}

#[test]
fn exit_outcome_without_code_is_terminated() {
    match exitOutcome("magick", false, None) {
        Err(Error::RuntimeError(m)) => assert_eq!(m, "magick was terminated"),
        _ => panic!("expected a runtime error"),
    }
}

/// The cut made by bytes: from the first character that is no white space
/// to one byte behind the start of the last. `None` where that cut does not
/// fall between two characters.
fn cut_by_bytes(s: &str) -> Option<String> {
    let left = s.char_indices().find(|(_, c)| !c.is_whitespace()).map(|(i, _)| i).unwrap_or(0);
    let right =
        s.char_indices().rfind(|(_, c)| !c.is_whitespace()).map(|(i, _)| i + 1).unwrap_or(0);
    if right - left <= 1 {
        Some(String::new())
    } else if left == 0 && right == s.len() - 1 {
        Some(s.to_string())
    } else {
        s.get(left..right).map(|cut| cut.to_string())
    }
}

fn texts_up_to(alphabet: &[char], len: usize) -> Vec<String> {
    let mut all = vec![String::new()];
    let mut last = vec![String::new()];
    for _ in 0..len {
        let mut next = Vec::new();
        for text in &last {
            for c in alphabet {
                let mut longer = text.clone();
                longer.push(*c);
                next.push(longer);
            }
        }
        all.extend(next.iter().cloned());
        last = next;
    }
    all
}

#[test]
fn strip_cuts_as_the_cut_by_bytes() {
    let alphabet = [' ', 'a', '\u{e9}', '\u{597d}', '\u{3000}', '\n', '\u{1f600}', '\u{85}'];
    let mut tried = 0;
    for text in texts_up_to(&alphabet, 5) {
        if let Some(expected) = cut_by_bytes(&text) {
            assert_eq!(strip(text.clone()), expected, "for {:?}", text);
            tried += 1;
        }
    }
    assert!(tried > 10_000);
}
