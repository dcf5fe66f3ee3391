use sc_helper::build_sha;
use sc_helper::text::{
    chars_of, copy_texts, decimal, join, lines, same_text, trim, white_space, words,
};

fn strings(items: &[&str]) -> Vec<String> {
    items.iter().map(|s| s.to_string()).collect()
}

#[test]
fn white_space_is_as_in_std() {
    for n in 0..0x11_0000_u32 {
        if let Some(c) = char::from_u32(n) {
            assert_eq!(white_space(c), c.is_whitespace(), "{:x}", n);
        }
    }
}

#[test]
fn trim_is_as_in_std() {
    for s in ["", " ", " a", "a ", "\t a b \r\n", "\u{3000}x\u{a0}", "x", "\u{200b}x"] {
        assert_eq!(trim(s), s.trim());
    }
}

#[test]
fn lines_are_as_in_std() {
    for s in [
        "", "a", "a\n", "a\nb", "a\r\nb\r\n", "\n\n", "\r\n", "a\r", "a\rb\n", "a\r\r\n", "\n\r",
    ] {
        let want: Vec<String> = s.lines().map(|l| l.to_string()).collect();
        assert_eq!(lines(s), want, "{:?}", s);
    }
}

#[test]
fn words_are_as_in_std() {
    for s in ["", "  ", "a", " a  b\tc\n", "a\u{3000}b", "x y"] {
        let want: Vec<String> = s.split_whitespace().map(|w| w.to_string()).collect();
        assert_eq!(words(s), want, "{:?}", s);
    }
}

#[test]
fn join_puts_the_separator_between() {
    assert_eq!(join(&strings(&[]), "; "), "");
    assert_eq!(join(&strings(&["a"]), "; "), "a");
    assert_eq!(join(&strings(&["a", "", "b"]), "; "), "a; ; b");
}

#[test]
fn decimal_is_as_in_std() {
    for n in [0, 9, 10, 99, 100, 1048576, u64::MAX] {
        assert_eq!(decimal(n), n.to_string());
    }
}

#[test]
fn small_text_helpers() {
    assert_eq!(chars_of("a\u{e9}\u{1f600}"), vec!['a', '\u{e9}', '\u{1f600}']);
    assert!(same_text("dev", "dev"));
    assert!(!same_text("dev", "Dev"));
    assert_eq!(copy_texts(&strings(&["x", "y"])), strings(&["x", "y"]));
}

#[test]
fn build_is_the_commit_or_unknown() {
    assert_eq!(build_sha(Some("0123456789ab\n")), "0123456789ab");
    assert_eq!(build_sha(Some(" \n")), "unknown");
    assert_eq!(build_sha(None), "unknown");
}
