use crust::strsplit::test_until_character;
use crust::strsplit::until_char;
use crust::strsplit::StrSplit;

fn pieces<'a>(haystack: &'a str, delimiter: &'a str, limit: usize) -> Vec<&'a str> {
    let mut split = StrSplit::new(haystack, delimiter);
    let mut found = Vec::new();
    while found.len() < limit {
        match split.next() {
            Some(piece) => found.push(piece),
            None => break,
        }
    }
    found
}

#[test]
fn splits_at_every_delimiter() {
    assert_eq!(pieces("a b c d e", " ", 100), vec!["a", "b", "c", "d", "e"]);
}

#[test]
fn delimiter_at_the_end_leaves_an_empty_piece() {
    assert_eq!(pieces("a b c d ", " ", 100), vec!["a", "b", "c", "d", ""]);
}

#[test]
fn text_without_delimiter_is_one_piece() {
    assert_eq!(pieces("hello", ", ", 100), vec!["hello"]);
}

#[test]
fn empty_text_is_one_empty_piece() {
    assert_eq!(pieces("", " ", 100), vec![""]);
}

#[test]
fn longer_delimiter_is_skipped_whole() {
    assert_eq!(pieces("one, two,three, ", ", ", 100), vec!["one", "two,three", ""]);
}

#[test]
fn splits_text_beyond_ascii() {
    assert_eq!(pieces("zażółć→gęślą→jaźń", "→", 100), vec!["zażółć", "gęślą", "jaźń"]);
}

#[test]
fn nothing_follows_the_last_piece() {
    let mut split = StrSplit::new("a,b", ",");
    assert_eq!(split.next(), Some("a"));
    assert_eq!(split.next(), Some("b"));
    assert_eq!(split.next(), None);
    assert_eq!(split.next(), None);
}

#[test]
fn empty_delimiter_yields_empty_pieces() {
    assert_eq!(pieces("ab", "", 3), vec!["", "", ""]);
}

#[test]
fn equal_splits_compare_equal() {
    assert_eq!(StrSplit::new("a b", " "), StrSplit::new("a b", " "));
    assert_ne!(StrSplit::new("a b", " "), StrSplit::new("a b", "b"));
}

#[test]
fn until_char_cuts_before_the_first_match() {
    assert_eq!(until_char("hello world", 'o'), "hell");
}

#[test]
fn until_char_keeps_text_without_match() {
    assert_eq!(until_char("hello world", 'x'), "hello world");
    assert_eq!(until_char("", 'x'), "");
}

#[test]
fn until_char_counts_characters_not_bytes() {
    assert_eq!(until_char("żółw i zając", 'i'), "żółw ");
    assert_eq!(until_char("żółw", 'ż'), "");
}

#[test]
fn until_character_check_runs() {
    test_until_character();
}
