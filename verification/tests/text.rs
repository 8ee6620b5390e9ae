use keybot::text::{
    charsOccurAt, charsOf, findChar, hasPrefix, i32ToString, parseDecimal, sameText, u32ToString,
};

#[test]
fn numbers_are_written_in_decimal() {
    for n in [0u32, 1, 9, 10, 11, 99, 100, 101, 1024, 65_535, 4_294_967_295] {
        assert_eq!(u32ToString(n), n.to_string());
    }
    for n in 0u32..2_000 {
        assert_eq!(u32ToString(n), n.to_string());
    }
    for n in [0i32, 1, -1, 9, -9, 10, -10, 2_147_483_647, -2_147_483_647, -2_147_483_648] {
        assert_eq!(i32ToString(n), n.to_string());
    }
}

#[test]
fn the_characters_of_a_text() {
    assert_eq!(charsOf(""), Vec::<char>::new());
    assert_eq!(charsOf("a\u{e9}\u{597d}"), vec!['a', '\u{e9}', '\u{597d}']);
}

#[test]
fn prefixes_and_equal_texts() {
    assert!(hasPrefix("哇！", "哇"));
    assert!(hasPrefix("abc", ""));
    assert!(hasPrefix("abc", "abc"));
    assert!(!hasPrefix("abc", "abcd"));
    assert!(!hasPrefix("abc", "b"));
    assert!(sameText("", ""));
    assert!(sameText("a\u{e9}", "a\u{e9}"));
    assert!(!sameText("ab", "abc"));
    assert!(!sameText("abc", "ab"));
    assert!(!sameText("abc", "abd"));
}

#[test]
fn a_needle_occurs_where_it_stands() {
    let hay: Vec<char> = "abcabc".chars().collect();
    let needle: Vec<char> = "bc".chars().collect();
    let found: Vec<usize> = (0..=8).filter(|at| charsOccurAt(&hay, &needle, *at)).collect();
    assert_eq!(found, vec![1, 4]);
    assert!(charsOccurAt(&hay, &Vec::new(), 6));
    assert!(!charsOccurAt(&hay, &Vec::new(), 7));
    assert!(!charsOccurAt(&hay, &needle, usize::MAX));
}

#[test]
fn a_character_is_found_from_a_place_on() {
    let text: Vec<char> = "axbxc".chars().collect();
    assert_eq!(findChar(&text, 'x', 0), 1);
    assert_eq!(findChar(&text, 'x', 1), 1);
    assert_eq!(findChar(&text, 'x', 2), 3);
    assert_eq!(findChar(&text, 'x', 4), 5);
    assert_eq!(findChar(&text, 'x', 5), 5);
    assert_eq!(findChar(&text, 'z', 0), 5);
}

#[test]
fn a_number_is_read_up_to_its_bound() {
    let text: Vec<char> = "x+0255y".chars().collect();
    assert_eq!(parseDecimal(&text, 1, 6, 255), Some(255));
    assert_eq!(parseDecimal(&text, 1, 6, 254), None);
    assert_eq!(parseDecimal(&text, 2, 6, 255), Some(255));
    assert_eq!(parseDecimal(&text, 2, 5, 255), Some(25));
    assert_eq!(parseDecimal(&text, 0, 6, 255), None);
    assert_eq!(parseDecimal(&text, 1, 7, 255), None);
    assert_eq!(parseDecimal(&text, 1, 2, 255), None);
    assert_eq!(parseDecimal(&text, 3, 3, 255), None);
    assert_eq!(parseDecimal(&text, 2, 3, 0), Some(0));
}
