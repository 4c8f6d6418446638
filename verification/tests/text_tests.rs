use mcp::text::{
    chars_of, contains, is_blank, is_white_space_char, join_text, replace, same_text,
    string_from_chars,
};
use mcp::tools::{output_texts, CommandOutput};

#[test]
fn replace_replaces_every_occurrence() {
    assert_eq!(replace("a-b-c", "-", "+"), "a+b+c");
}

#[test]
fn replace_takes_occurrences_left_to_right_without_overlap() {
    assert_eq!(replace("aaa", "aa", "b"), "ba");
    assert_eq!(replace("aaaa", "aa", "b"), "bb");
}

#[test]
fn replace_with_empty_pattern_inserts_everywhere() {
    assert_eq!(replace("abc", "", "x"), "xaxbxcx");
    assert_eq!(replace("", "", "x"), "x");
    assert_eq!(replace("abc", "", "x"), "abc".replace("", "x"));
}

#[test]
fn replace_matches_std_on_samples() {
    let samples = [
        ("hello world", "o", "0"),
        ("ééé", "é", "e"),
        ("line\nline\n", "\n", "\\n"),
        ("abcabc", "bc", ""),
        ("", "a", "b"),
        ("ab", "abc", "z"),
    ];
    for (s, p, r) in samples.iter() {
        assert_eq!(replace(s, p, r), s.replace(p, r));
    }
}

#[test]
fn replace_by_itself_changes_nothing() {
    assert_eq!(replace("banana", "an", "an"), "banana");
    assert_eq!(replace("banana", "", ""), "banana");
}

#[test]
fn replace_of_absent_pattern_changes_nothing() {
    assert_eq!(replace("banana", "x", "yyy"), "banana");
}

#[test]
fn contains_finds_substrings() {
    assert!(contains("hello", "ll"));
    assert!(contains("hello", "hello"));
    assert!(contains("hello", ""));
    assert!(contains("", ""));
    assert!(!contains("hello", "lo!"));
    assert!(!contains("", "a"));
}

#[test]
fn blank_texts_hold_only_whitespace() {
    assert!(is_blank(""));
    assert!(is_blank(" \t\r\n"));
    assert!(is_blank("\u{3000}\u{a0}"));
    assert!(!is_blank(" a "));
    assert!(!is_blank("\u{200b}"));
}

#[test]
fn whitespace_agrees_with_std() {
    for u in 0u32..=0x10ffff {
        if let Some(c) = char::from_u32(u) {
            assert_eq!(is_white_space_char(c), c.is_whitespace(), "at {:#x}", u);
        }
    }
}

#[test]
fn blank_agrees_with_trim() {
    for s in ["", " ", "x", " x ", "\n\t", "\u{2028}", "\u{85}a"].iter() {
        assert_eq!(is_blank(s), s.trim().is_empty());
    }
}

#[test]
fn output_is_decoded_as_utf8() {
    let out = CommandOutput {
        stdout: "héllo".as_bytes().to_vec(),
        stderr: vec![0x66, 0xff, 0x67],
        success: true,
        status: String::new(),
    };
    let (stdout, stderr) = output_texts(&out);
    assert_eq!(stdout, "héllo");
    assert_eq!(stderr, "f\u{fffd}g");
}

#[test]
fn chars_round_trip() {
    let v = chars_of("aé€😀");
    assert_eq!(v, vec!['a', 'é', '€', '😀']);
    assert_eq!(string_from_chars(&v), "aé€😀");
}

#[test]
fn concat_and_equality() {
    assert_eq!(join_text("ab", "cd"), "abcd");
    assert!(same_text("é", "é"));
    assert!(!same_text("e", "é"));
}
