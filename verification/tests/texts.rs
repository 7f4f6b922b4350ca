use finad::text::{
    collapse_spaces, contains, count_text, decimal_text, push_left_aligned, push_right_aligned,
    remove_char, same, skip_bytes, split, strip_prefix, take_bytes, trim, white_space,
};

fn chars(s: &str) -> Vec<char> {
    s.chars().collect()
}

#[test]
fn white_space_is_unicodes() {
    for n in 0u32..=0x10ffff {
        if let Some(c) = char::from_u32(n) {
            assert_eq!(white_space(c), c.is_whitespace(), "{:x}", n);
        }
    }
}

#[test]
fn texts_are_trimmed() {
    for s in ["", " ", "a", " a ", "\t\n a b \u{2003}", "\u{a0}x", "x\u{3000}", "  \n "] {
        assert_eq!(trim(s), s.trim());
    }
}

#[test]
fn texts_are_split() {
    for s in ["", "/", "a", "a/b", "a//b", "/a/", "01/02/26", "é/ü/ß"] {
        let expected: Vec<String> = s.split('/').map(|p| p.to_string()).collect();
        assert_eq!(split(s, '/'), expected);
    }
}

#[test]
fn white_space_collapses() {
    for s in ["", " ", "a  b", " a\n\nb\tc ", "one", "x \u{2003} y"] {
        let expected = s.split_whitespace().collect::<Vec<_>>().join(" ");
        assert_eq!(collapse_spaces(s), expected);
    }
}

#[test]
fn patterns_are_found() {
    for (hay, needle) in [
        ("", ""), ("", "a"), ("abc", ""), ("abc", "bc"), ("abc", "abcd"), ("aab", "ab"),
        ("ababac", "abac"), ("naïve", "ïv"),
    ] {
        assert_eq!(contains(&chars(hay), needle), hay.contains(needle), "{:?} {:?}", hay, needle);
    }
}

#[test]
fn characters_are_removed() {
    assert_eq!(remove_char("1,234,567.89", ','), "1234567.89");
    assert_eq!(remove_char("$5", '$'), "5");
    assert_eq!(remove_char("", ','), "");
}

#[test]
fn prefixes_are_stripped() {
    for s in ["Bearer x", "Bearer ", "Bearer", "bearer x", "", "xBearer "] {
        assert_eq!(
            strip_prefix(s, "Bearer "),
            s.strip_prefix("Bearer ").map(|t| t.to_string())
        );
    }
}

#[test]
fn texts_are_compared() {
    assert!(same("a", "a"));
    assert!(!same("a", "A"));
    assert!(same("", ""));
}

#[test]
fn numbers_are_written() {
    for n in [0i64, 7, 10, 99, 100, 12345, -1, -10, i64::MAX, i64::MIN] {
        assert_eq!(decimal_text(n), n.to_string());
    }
    for n in [0usize, 9, 10, 1_000_000] {
        assert_eq!(count_text(n), n.to_string());
    }
}

#[test]
fn texts_are_aligned() {
    for s in ["", "ab", "éé", "abcdefgh", "abcdefghij"] {
        let mut left = String::from(">");
        push_left_aligned(&mut left, s, 8);
        assert_eq!(left, format!(">{:<8}", s));
        let mut right = String::from(">");
        push_right_aligned(&mut right, s, 8);
        assert_eq!(right, format!(">{:>8}", s));
    }
}

#[test]
fn bytes_are_cut() {
    assert_eq!(take_bytes("héllo", 3), "hé");
    assert_eq!(skip_bytes("héllo", 3), "llo");
    assert_eq!(take_bytes("abc", 3), "abc");
    assert_eq!(skip_bytes("abc", 0), "abc");
}
