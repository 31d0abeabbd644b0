use cargo_wasix::text::{
    cat2, cat3, is_whitespace, join, replace_char, same, split_lines, split_words,
    starts_with, strip_matches, trim,
};

fn owned(items: &[&str]) -> Vec<String> {
    items.iter().map(|s| s.to_string()).collect()
}

#[test]
fn white_space_is_what_the_standard_library_says() {
    let mut c = 0u32;
    while c <= 0x10ffff {
        if let Some(ch) = char::from_u32(c) {
            assert_eq!(is_whitespace(ch), ch.is_whitespace(), "U+{:04X}", c);
        }
        c += 1;
    }
}

#[test]
fn trim_agrees_with_the_standard_library() {
    for s in ["", " ", "a", "  a b \t\n", "\u{a0}x\u{2003}", "x  ", "  x", "\r\n"] {
        assert_eq!(trim(s), s.trim());
    }
    assert_eq!(trim("  a b \t\n"), "a b");
}

#[test]
fn lines_agree_with_the_standard_library() {
    for s in ["", "\n", "a", "a\n", "a\nb", "a\r\nb\r", "a\n\nb\n", "\r\n\r\n", "x\ry\n", "\n\n"] {
        let want: Vec<String> = s.lines().map(|l| l.to_string()).collect();
        assert_eq!(split_lines(s), want, "{:?}", s);
    }
    assert_eq!(split_lines("a\nb\r\n\nc"), owned(&["a", "b", "", "c"]));
}

#[test]
fn words_agree_with_the_standard_library() {
    for s in ["", " ", "a", " a  b ", "wasm-bindgen 0.2.84 (registry+https://x)", "\ta\nb\u{3000}c"] {
        let want: Vec<String> = s.split_whitespace().map(|l| l.to_string()).collect();
        assert_eq!(split_words(s), want, "{:?}", s);
    }
}

#[test]
fn strings_are_compared_and_joined() {
    assert!(same("abc", "abc"));
    assert!(!same("abc", "abd"));
    assert!(!same("abc", "ab"));
    assert!(starts_with("--verbose", "--v"));
    assert!(starts_with("a", ""));
    assert!(!starts_with("a", "ab"));
    assert_eq!(cat2("a", "b"), "ab");
    assert_eq!(cat3("a", "b", "c"), "abc");
    assert_eq!(join(&owned(&["a", "b", "c"]), " "), "a b c");
    assert_eq!(join(&owned(&[]), " "), "");
    assert_eq!(join(&owned(&["a"]), ", "), "a");
}

#[test]
fn characters_are_replaced() {
    for (s, c, w) in [("a\nb\n", '\n', "\n    "), ("", 'x', "y"), ("a\\b", '\\', "\\\\"), ("xxx", 'x', "")] {
        assert_eq!(replace_char(s, c, w), s.replace(c, w));
    }
}

#[test]
fn repeated_ends_are_stripped() {
    for s in [
        "https://github.com/wasix-org/rust.git",
        "https://github.com/https://github.com/a.git.git",
        "a",
        "",
        ".git",
        "https://github.com/",
    ] {
        let want = s.trim_start_matches("https://github.com/").trim_end_matches(".git");
        assert_eq!(strip_matches(s, "https://github.com/", ".git"), want);
    }
    assert_eq!(strip_matches("aaa", "", ""), "aaa");
}

/// Every text of up to `len` characters out of `alphabet`.
fn short_texts(alphabet: &[char], len: usize) -> Vec<String> {
    let mut out = vec![String::new()];
    let mut last = vec![String::new()];
    for _ in 0..len {
        let mut next = vec![];
        for text in &last {
            for c in alphabet {
                let mut longer = text.clone();
                longer.push(*c);
                next.push(longer);
            }
        }
        out.extend(next.iter().cloned());
        last = next;
    }
    out
}

#[test]
fn every_short_text_is_cut_as_the_standard_library_cuts_it() {
    for s in short_texts(&['a', ' ', '\n', '\r', '\u{2003}'], 6) {
        let lines: Vec<String> = s.lines().map(|l| l.to_string()).collect();
        assert_eq!(split_lines(&s), lines, "{:?}", s);
        let words: Vec<String> = s.split_whitespace().map(|l| l.to_string()).collect();
        assert_eq!(split_words(&s), words, "{:?}", s);
        assert_eq!(trim(&s), s.trim(), "{:?}", s);
    }
}

#[test]
fn every_short_text_is_stripped_as_the_standard_library_strips_it() {
    for s in short_texts(&['a', 'b'], 8) {
        for (head, tail) in [("ab", "ba"), ("a", "a"), ("aa", "b"), ("", "ab"), ("b", "")] {
            let want = s.trim_start_matches(head).trim_end_matches(tail);
            assert_eq!(strip_matches(&s, head, tail), want, "{:?} {:?} {:?}", s, head, tail);
            assert_eq!(starts_with(&s, head), s.starts_with(head));
        }
        assert_eq!(replace_char(&s, 'a', "ba"), s.replace('a', "ba"));
    }
}
