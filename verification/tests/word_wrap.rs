use easy_flashcards::chars::chars_of;
use easy_flashcards::output::word_wrap::{SplitKeepWhitespace, WordWrap};

fn words(text: &str) -> Vec<String> {
    let mut split = SplitKeepWhitespace::new(text);
    let mut words = Vec::new();
    while let Some(word) = split.next() {
        words.push(word);
    }
    words
}

fn wrap(text: &str, max_length: usize) -> Vec<String> {
    let mut wrap = WordWrap::new(text, max_length);
    let mut lines = Vec::new();
    while let Some(line) = wrap.next() {
        lines.push(line);
    }
    lines
}

#[test]
fn chars_of_lists_the_characters() {
    assert_eq!(chars_of("aé😀"), ['a', 'é', '😀']);
    assert!(chars_of("").is_empty());
}

#[test]
fn split_keeps_the_white_space_before_each_word() {
    assert_eq!(words("one two  three"), ["one", " two", "  three"]);
    assert_eq!(words("  lead"), ["  lead"]);
    assert_eq!(words("tab\tsep\nline"), ["tab", "\tsep", "\nline"]);
}

#[test]
fn split_drops_trailing_white_space() {
    assert_eq!(words("one  "), ["one"]);
    assert_eq!(words("   "), Vec::<String>::new());
    assert_eq!(words(""), Vec::<String>::new());
}

#[test]
fn wrap_breaks_at_white_space() {
    assert_eq!(wrap("the quick brown fox", 10), ["the quick", "brown fox"]);
    assert_eq!(wrap("the quick brown fox", 9), ["the quick", "brown fox"]);
    assert_eq!(wrap("the quick brown fox", 8), ["the", "quick", "brown", "fox"]);
}

#[test]
fn wrap_keeps_a_text_that_fits() {
    assert_eq!(wrap("hello", 10), ["hello"]);
    assert_eq!(wrap("hello world", 11), ["hello world"]);
    assert_eq!(wrap("hi  ", 2), ["hi  "]);
}

#[test]
fn wrap_of_white_space_is_empty() {
    assert_eq!(wrap("", 5), Vec::<String>::new());
    assert_eq!(wrap("   \t", 5), Vec::<String>::new());
}

#[test]
fn wrap_hyphenates_a_word_that_is_too_long() {
    assert_eq!(wrap("abcdefghij", 4), ["abc-", "def-", "ghij"]);
    assert_eq!(wrap("ab cdefgh", 3), ["ab", "cd-", "ef-", "gh"]);
    assert_eq!(wrap("abc", 2), ["a-", "bc"]);
    assert_eq!(wrap("abcd", 2), ["a-", "b-", "cd"]);
}

#[test]
fn wrap_counts_characters_not_bytes() {
    assert_eq!(wrap("äöü äöü", 3), ["äöü", "äöü"]);
    assert_eq!(wrap("äöüäöü", 4), ["äöü-", "äöü"]);
}

#[test]
fn wrap_tells_how_much_is_left() {
    let mut wrap = WordWrap::new("the quick brown fox", 10);
    assert_eq!(wrap.remaining_text_len(), 19);
    assert_eq!(wrap.next().unwrap(), "the quick");
    assert_eq!(wrap.remaining_text_len(), 9);
    assert_eq!(wrap.next().unwrap(), "brown fox");
    assert_eq!(wrap.remaining_text_len(), 0);
    assert_eq!(wrap.next(), None);
    assert_eq!(wrap.next(), None);
}

#[test]
fn wrap_lines_are_no_longer_than_asked() {
    let text = "Lorem ipsum dolor sit amet, consectetur adipiscing elit, sed do eiusmod tempor";
    for max_length in 2..30 {
        let lines = wrap(text, max_length);
        assert!(lines.iter().all(|line| line.chars().count() <= max_length));
        let joined: String = lines.concat().chars().filter(|c| !c.is_whitespace() && *c != '-').collect();
        let plain: String = text.chars().filter(|c| !c.is_whitespace() && *c != '-').collect();
        assert_eq!(joined, plain);
    }
}
