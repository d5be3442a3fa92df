use postil_reviewer::chars::{
    begins_with, chars_of, decimal_text, finishes_with, head_of, is_blank, is_white_space, joined,
    pieces, rsearch_char, same_text, search_char_from, search_from, trimmed, without_end_slashes,
};
use postil_reviewer::text::limit_text;

#[test]
fn truncates_at_utf8_boundary() {
    assert_eq!(limit_text("éclair".to_string(), 1), "\n\n[diff truncated]");
    assert_eq!(
        limit_text("aéclair".to_string(), 2),
        "a\n\n[diff truncated]"
    );
}

#[test]
fn text_that_fits_is_left_alone() {
    assert_eq!(limit_text(String::new(), 0), "");
    assert_eq!(limit_text("abc".to_string(), 3), "abc");
    assert_eq!(limit_text("aé".to_string(), 3), "aé");
    assert_eq!(limit_text("abc".to_string(), usize::MAX), "abc");
}

#[test]
fn cut_falls_on_the_limit_where_a_character_ends_there() {
    assert_eq!(limit_text("abcd".to_string(), 2), "ab\n\n[diff truncated]");
    assert_eq!(limit_text("éé".to_string(), 2), "é\n\n[diff truncated]");
    assert_eq!(limit_text("abc".to_string(), 0), "\n\n[diff truncated]");
    assert_eq!(limit_text("x😀y".to_string(), 4), "x\n\n[diff truncated]");
    assert_eq!(limit_text("x😀y".to_string(), 5), "x😀\n\n[diff truncated]");
}

#[test]
fn kept_prefix_is_the_longest_that_fits() {
    let text: &str = "aé漢😀z";
    for limit in 0..text.len() {
        let cut: String = limit_text(text.to_string(), limit);
        let kept: &str = cut.strip_suffix("\n\n[diff truncated]").unwrap();
        assert!(text.starts_with(kept));
        assert!(kept.len() <= limit);
        let next: char = text[kept.len()..].chars().next().unwrap();
        assert!(kept.len() + next.len_utf8() > limit);
    }
}

#[test]
fn white_space_is_that_of_unicode() {
    for code in 0u32..=0x10ffff {
        if let Some(c) = char::from_u32(code) {
            assert_eq!(is_white_space(c), c.is_whitespace(), "{code:#x}");
        }
    }
}

#[test]
fn trimming_drops_white_space_on_both_sides() {
    for text in ["", " ", "a", " a b\t\n", "\u{a0}x\u{3000}", "\u{2003}\u{85}", "é "] {
        assert_eq!(trimmed(text), text.trim());
        assert_eq!(trimmed(trimmed(text)), trimmed(text));
        assert_eq!(is_blank(text), text.trim().is_empty());
    }
}

#[test]
fn searching_finds_first_and_last() {
    let s: Vec<char> = chars_of("a{b}c}");
    assert_eq!(search_char_from(&s, '{', 0), Some(1));
    assert_eq!(search_char_from(&s, '{', 2), None);
    assert_eq!(search_char_from(&s, 'a', 9), None);
    assert_eq!(rsearch_char(&s, '}'), Some(5));
    assert_eq!(rsearch_char(&s, 'x'), None);
    assert_eq!(search_from(&chars_of("aaab"), &chars_of("ab"), 0), Some(2));
    assert_eq!(search_from(&chars_of("ab"), &chars_of(""), 2), Some(2));
    assert_eq!(search_from(&chars_of("ab"), &chars_of(""), 3), None);
}

#[test]
fn beginnings_and_ends() {
    assert!(begins_with("!dist", "!"));
    assert!(!begins_with("dist!", "!"));
    assert!(finishes_with(".postil.json", ".json"));
    assert!(!finishes_with("json", ".json"));
    assert!(same_text("é", "é"));
    assert!(!same_text("e", "E"));
    assert_eq!(without_end_slashes("http://x//"), "http://x");
    assert_eq!(without_end_slashes("///"), "");
    assert_eq!(without_end_slashes("a/b"), "a/b");
    assert_eq!(head_of("héllo", 2), "hé");
    assert_eq!(head_of("h", 2), "h");
}

#[test]
fn splitting_and_joining() {
    assert_eq!(pieces("a,b,,c", ','), vec!["a", "b", "", "c"]);
    assert_eq!(pieces("", ','), vec![""]);
    assert_eq!(pieces(",", ','), vec!["", ""]);
    let parts: Vec<String> = vec!["a".to_string(), String::new(), "b".to_string()];
    assert_eq!(joined(&parts, "--"), "a----b");
    assert_eq!(joined(&Vec::new(), "--"), "");
}

#[test]
fn numerals_are_decimal() {
    for n in [0u64, 7, 9, 10, 42, 100, 1_234_567_890, u64::MAX] {
        assert_eq!(decimal_text(n), n.to_string());
    }
}
