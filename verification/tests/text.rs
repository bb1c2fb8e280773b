use fast_flow::text::{
    chars_of, cut_after_last, cut_before, cut_suffix, find, has_char, is_space, matches_at,
    same_text, trim,
};

#[test]
fn chars_keep_their_order() {
    assert_eq!(chars_of("a\u{e9}b"), vec!['a', '\u{e9}', 'b']);
    assert_eq!(chars_of(""), Vec::<char>::new());
}

#[test]
fn white_space_is_what_std_calls_so() {
    let mut c: u32 = 0;
    while c < 0x3100 {
        if let Some(ch) = char::from_u32(c) {
            assert_eq!(is_space(ch), ch.is_whitespace(), "U+{:04X}", c);
        }
        c += 1;
    }
    assert!(!is_space('\u{feff}'));
    assert!(!is_space('\u{10ffff}'));
}

#[test]
fn trim_cuts_both_ends() {
    assert_eq!(trim("  a b \n"), "a b");
    assert_eq!(trim("ab"), "ab");
    assert_eq!(trim(""), "");
    assert_eq!(trim(" \t\r\n"), "");
    assert_eq!(trim("\u{a0}x\u{3000}"), "x");
}

#[test]
fn trim_agrees_with_std() {
    for s in ["", " ", "a", " a", "a ", " a ", "\t a b \n\n", "\u{2003}\u{e9}\u{2003}"] {
        assert_eq!(trim(s), s.trim());
    }
}

#[test]
fn find_gives_the_first_position() {
    let hay = chars_of("abcabc");
    assert_eq!(find(&hay, &chars_of("bc")), Some(1));
    assert_eq!(find(&hay, &chars_of("abcabc")), Some(0));
    assert_eq!(find(&hay, &chars_of("cb")), None);
    assert_eq!(find(&hay, &chars_of("abcabcd")), None);
    assert_eq!(find(&hay, &chars_of("")), Some(0));
    assert_eq!(find(&chars_of(""), &chars_of("")), Some(0));
    assert_eq!(find(&chars_of(""), &chars_of("a")), None);
}

#[test]
fn matches_at_checks_the_bounds() {
    let hay = chars_of("abc");
    assert!(matches_at(&hay, &chars_of("bc"), 1));
    assert!(!matches_at(&hay, &chars_of("bc"), 2));
    assert!(!matches_at(&hay, &chars_of("bc"), 3));
    assert!(!matches_at(&hay, &chars_of("bc"), 4));
    assert!(matches_at(&hay, &chars_of(""), 3));
    assert!(!matches_at(&hay, &chars_of(""), 4));
    assert!(!matches_at(&hay, &chars_of("a"), usize::MAX));
}

#[test]
fn cut_before_agrees_with_split() {
    for (s, p) in [
        ("abc123\trefs/heads/main", "refs"),
        ("no marker", "refs"),
        ("refs first", "refs"),
        ("", "refs"),
        ("my.app.config.json", "."),
        ("plain", "."),
        ("ref ref refs", "refs"),
    ] {
        assert_eq!(cut_before(s, p), s.split(p).next().unwrap());
    }
}

#[test]
fn cut_after_last_agrees_with_split() {
    for s in ["main.rs", "a.b.c", "plain", "", "dot.", ".hidden", "\u{e9}.\u{e9}"] {
        assert_eq!(cut_after_last(s, '.'), s.split('.').last().unwrap());
    }
}

#[test]
fn has_char_finds_any_position() {
    assert!(has_char("a.b", '.'));
    assert!(has_char(".", '.'));
    assert!(has_char("ab.", '.'));
    assert!(!has_char("ab", '.'));
    assert!(!has_char("", '.'));
}

#[test]
fn cut_suffix_agrees_with_std() {
    for (s, p) in [
        ("widget.git", ".git"),
        ("widget", ".git"),
        (".git", ".git"),
        ("git", ".git"),
        ("", ".git"),
        ("abc", ""),
        ("x.config.json", ".config.json"),
    ] {
        assert_eq!(cut_suffix(s, p), s.strip_suffix(p));
    }
}

#[test]
fn same_text_compares_characters() {
    assert!(same_text("abc", "abc"));
    assert!(same_text("", ""));
    assert!(!same_text("abc", "abd"));
    assert!(!same_text("abc", "ab"));
}
