use tuto::slices::{first_word, SPACE};

#[test]
fn first_word_of_hello_world() {
    let my_string = String::from("hello world !");
    let my_slice = &my_string[..];
    assert_eq!(first_word(my_slice), "hello");
}

#[test]
fn first_word_of_a_literal() {
    assert_eq!(first_word("hello world"), "hello");
}

#[test]
fn first_word_of_one_word_is_the_word() {
    assert_eq!(first_word("hello"), "hello");
}

#[test]
fn first_word_of_the_empty_string_is_empty() {
    assert_eq!(first_word(""), "");
}

#[test]
fn first_word_after_a_leading_space_is_empty() {
    assert_eq!(first_word(" hello"), "");
}

#[test]
fn first_word_of_spaces_is_empty() {
    assert_eq!(first_word(" "), "");
    assert_eq!(first_word("   "), "");
}

#[test]
fn first_word_stops_at_the_first_of_several_spaces() {
    assert_eq!(first_word("a  b"), "a");
    assert_eq!(first_word("one two three"), "one");
}

#[test]
fn first_word_leaves_out_a_trailing_space() {
    assert_eq!(first_word("hello "), "hello");
}

#[test]
fn first_word_of_one_character() {
    assert_eq!(first_word("a"), "a");
    assert_eq!(first_word("a b"), "a");
}

#[test]
fn first_word_keeps_tabs_and_line_breaks() {
    assert_eq!(first_word("a\tb c"), "a\tb");
    assert_eq!(first_word("a\nb c"), "a\nb");
    assert_eq!(first_word("a\r\nb"), "a\r\nb");
}

#[test]
fn first_word_keeps_other_kinds_of_space() {
    // U+00A0, the no-break space, and U+3000, the ideographic space.
    assert_eq!(first_word("a\u{a0}b c"), "a\u{a0}b");
    assert_eq!(first_word("a\u{3000}b c"), "a\u{3000}b");
}

#[test]
fn first_word_with_characters_of_two_bytes() {
    assert_eq!(first_word("h\u{e9}llo w\u{f6}rld"), "h\u{e9}llo");
    assert_eq!(first_word("h\u{e9}llo w\u{f6}rld").len(), 6);
}

#[test]
fn first_word_with_characters_of_three_bytes() {
    assert_eq!(first_word("\u{65e5}\u{672c}\u{8a9e} text"), "\u{65e5}\u{672c}\u{8a9e}");
}

#[test]
fn first_word_with_characters_of_four_bytes() {
    assert_eq!(first_word("\u{1f680} science"), "\u{1f680}");
    assert_eq!(first_word("\u{1f680}science"), "\u{1f680}science");
}

#[test]
fn first_word_with_a_character_just_below_and_above_the_space() {
    assert_eq!(first_word("\u{1f}\u{21} x"), "\u{1f}\u{21}");
}

#[test]
fn first_word_of_a_first_word_is_itself() {
    let text = "caf\u{e9} au lait";
    let word = first_word(text);
    assert_eq!(word, "caf\u{e9}");
    assert_eq!(first_word(word), word);
}

#[test]
fn first_word_is_a_prefix_without_a_space() {
    let texts = vec!["", " ", "a", "a b", "ab cd ef", "\u{e9}t\u{e9} chaud", "no-space"];
    for text in texts {
        let word = first_word(text);
        assert!(text.starts_with(word));
        assert!(!word.contains(' '));
        if word.len() < text.len() {
            assert_eq!(text.as_bytes()[word.len()], SPACE);
        }
    }
}

#[test]
fn first_word_borrows_and_leaves_the_string_usable() {
    let s = String::from("hello world");
    let hello = first_word(&s);
    let world: &str = &s[6..];
    assert_eq!(hello, "hello");
    assert_eq!(world, "world");
    assert_eq!(s, "hello world");
}

#[test]
fn the_space_byte_is_the_ascii_space() {
    assert_eq!(SPACE, b' ');
    assert_eq!(char::from(SPACE), ' ');
}
