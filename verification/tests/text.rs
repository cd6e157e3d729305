use portal::text::{
    append_chars, chars_of, contains, digit, equal_text, matches_at, push_decimal,
    push_signed_decimal, replace, string_of,
};

#[test]
fn chars_round_trip() {
    for s in ["", "a", "abc", "вебсервисы.рф", "a\u{10348}b"] {
        let chars = chars_of(s);
        assert_eq!(chars, s.chars().collect::<Vec<char>>());
        assert_eq!(string_of(&chars), s);
    }
}

#[test]
fn append_chars_appends() {
    let mut s = String::from("ab");
    append_chars(&mut s, &vec!['c', 'd']);
    assert_eq!(s, "abcd");
    append_chars(&mut s, &vec![]);
    assert_eq!(s, "abcd");
}

#[test]
fn contains_agrees_with_std() {
    let texts = ["", "a", "ab", "aab", "abab", "Mobile", "xMobil eMobile", "ааб", "./a./"];
    let patterns = ["", "a", "b", "ab", "ba", "aab", "Mobile", "б", "./", "abc"];
    for text in texts {
        for pattern in patterns {
            assert_eq!(contains(text, pattern), text.contains(pattern), "{text:?} {pattern:?}");
        }
    }
}

#[test]
fn matches_at_checks_one_place() {
    let text = chars_of("abcabc");
    let pattern = chars_of("bc");
    assert!(!matches_at(&text, &pattern, 0));
    assert!(matches_at(&text, &pattern, 1));
    assert!(matches_at(&text, &pattern, 4));
    assert!(!matches_at(&text, &pattern, 5));
    assert!(!matches_at(&text, &pattern, 6));
    assert!(matches_at(&text, &chars_of(""), 6));
}

#[test]
fn equal_text_compares_characters() {
    assert!(equal_text("", ""));
    assert!(equal_text("image", "image"));
    assert!(!equal_text("image", "images"));
    assert!(!equal_text("images", "image"));
    assert!(!equal_text("image", "imagE"));
    assert!(!equal_text("", "a"));
}

#[test]
fn replace_agrees_with_std() {
    let texts = ["", "a", "./media/1/", "a./b./c", "...//./", "aaa", "aaaa", "абв./"];
    let pairs = [("./", "/my/"), ("./", "/"), ("aa", "b"), ("a", ""), ("", "-"), ("б", "bb"), ("abc", "x")];
    for text in texts {
        for (from, to) in pairs {
            assert_eq!(replace(text, from, to), text.replace(from, to), "{text:?} {from:?} {to:?}");
        }
    }
}

#[test]
fn replace_exact_values() {
    assert_eq!(replace("./media/7/2024/3/9/", "./", "/my/"), "/my/media/7/2024/3/9/");
    assert_eq!(replace("./media/7/a./b", "./", "/"), "/media/7/a/b");
    assert_eq!(replace("ab", "", "-"), "-a-b-");
    assert_eq!(replace("aaa", "aa", "b"), "ba");
}

#[test]
fn digits() {
    let expected = ['0', '1', '2', '3', '4', '5', '6', '7', '8', '9'];
    for d in 0u8..10 {
        assert_eq!(digit(d), expected[d as usize]);
    }
}

#[test]
fn decimal_agrees_with_std() {
    for n in [0u64, 1, 9, 10, 11, 99, 100, 101, 2024, 4294967295, u64::MAX] {
        let mut out = String::from("x");
        push_decimal(&mut out, n);
        assert_eq!(out, format!("x{n}"));
    }
}

#[test]
fn signed_decimal_agrees_with_std() {
    for n in [0i64, 1, -1, 9, -9, 10, -10, 12345, -12345, i32::MAX as i64, i32::MIN as i64, i64::MAX, i64::MIN] {
        let mut out = String::new();
        push_signed_decimal(&mut out, n);
        assert_eq!(out, n.to_string());
    }
}
