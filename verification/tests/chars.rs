use easy_flashcards::chars::{
    char_at, chars_of, run_length, slice_text, text_le, text_of, trim_chars, trim_end_text, trim_text,
};
use easy_flashcards::flashcards::FlashcardText;
use easy_flashcards::output::text_box::{set_and_compare, MultiTextBox};
use easy_flashcards::output::{Color, Repeat, TerminalSettings, TextAlign};
use easy_flashcards::study::learn::world::{correct, text_failed, StartError, World, WorldType};
use easy_flashcards::flashcards::{CardSet, Flashcard, RecallSettings};
use easy_flashcards::vec2::{Rect, Vec2};

fn chars(text: &str) -> Vec<char> {
    text.chars().collect()
}

#[test]
fn texts_and_characters_convert() {
    assert_eq!(chars_of("añ😀"), chars("añ😀"));
    assert_eq!(text_of(&chars("añ😀")), "añ😀");
    assert_eq!(text_of(&Vec::new()), "");
    assert_eq!(char_at(&chars("abc"), 1), 'b');
    assert_eq!(slice_text(&chars("hello"), 1, 3), "el");
    assert_eq!(slice_text(&chars("hello"), 2, 2), "");
}

#[test]
fn runs_of_white_space_are_measured() {
    let line = chars("  ab \t c");
    assert_eq!(run_length(&line, 0, true), 2);
    assert_eq!(run_length(&line, 0, false), 0);
    assert_eq!(run_length(&line, 2, false), 2);
    assert_eq!(run_length(&line, 4, true), 3);
    assert_eq!(run_length(&line, 7, false), 1);
    assert_eq!(run_length(&line, 8, true), 0);
}

#[test]
fn trimming_takes_white_space_off() {
    assert_eq!(trim_text("  a b\t\n"), "a b");
    assert_eq!(trim_text("\u{a0}x\u{2003}"), "x");
    assert_eq!(trim_text("   "), "");
    assert_eq!(trim_text(""), "");
    assert_eq!(trim_text("x"), "x");
    assert_eq!(trim_chars(&chars(" ab ")), chars("ab"));
    assert_eq!(trim_end_text(" ab "), " ab");
    for text in ["", " ", " a", "a ", " a b ", "\ta\n", "é ", "a\u{1680}"] {
        assert_eq!(trim_text(text), text.trim());
        assert_eq!(trim_end_text(text), text.trim_end());
    }
}

#[test]
fn texts_are_ordered_by_code_point() {
    let texts = ["", "a", "A", "ab", "b", "é", "z", "😀", "a😀", "aé", "\u{7f}", "\u{80}", "\u{ffff}", "\u{10000}"];
    for a in texts {
        for b in texts {
            assert_eq!(text_le(a, b), a <= b, "{a:?} <= {b:?}");
        }
    }
}

#[test]
fn set_and_compare_sets_and_tells() {
    let mut value = 3;
    assert!(set_and_compare(&mut value, 3));
    assert!(!set_and_compare(&mut value, 4));
    assert_eq!(value, 4);
    let mut color = Color::Red;
    assert!(!set_and_compare(&mut color, Color::Green));
    assert!(set_and_compare(&mut color, Color::Green));
    assert_eq!(color, Color::Green);
}

#[test]
fn repeat_writes_its_character_over() {
    assert_eq!(Repeat('x', 3).to_text(), "xxx");
    assert_eq!(Repeat('═', 2).to_text(), "══");
    assert_eq!(Repeat('x', 0).to_text(), "");
}

#[test]
fn terminal_settings_chain() {
    let mut settings = TerminalSettings::new();
    settings.enable_raw_mode().enter_alternate_screen().hide_cursor();
    assert!(settings.raw_mode() && settings.alternate_screen() && settings.cursor_hidden());
    settings.show_cursor().leave_alternate_screen().disable_raw_mode();
    assert!(!settings.raw_mode() && !settings.alternate_screen() && !settings.cursor_hidden());
}

#[test]
fn card_texts_are_made_from_strings() {
    let text = FlashcardText::from("cat".to_string());
    assert_eq!(text.displayable(), ["cat".to_string()]);
    assert!(text.other_accepted().is_empty());
    let text = FlashcardText::from("dog");
    assert_eq!(text.displayable(), ["dog".to_string()]);
    let list: &[&str] = &["cat", "puss", "kitty"];
    let text = FlashcardText::from(list);
    assert_eq!(text.displayable(), ["cat".to_string(), "puss".to_string(), "kitty".to_string()]);
    assert!(text.other_accepted().is_empty());
    let none: &[&str] = &[];
    assert!(!FlashcardText::from(none).is_valid());
}

#[test]
fn vectors_are_added_by_coordinate() {
    assert_eq!(Vec2::new(1u16, 2u16) + Vec2::new(10, 20), Vec2::new(11, 22));
    assert_eq!(Vec2::new(10u16, 20u16) - Vec2::new(1, 2), Vec2::new(9, 18));
    assert_eq!(Vec2::new(3u16, 4u16) * Vec2::new(5, 6), Vec2::new(15, 24));
    assert_eq!(Vec2::new(80u16, 25u16) / Vec2::new(3, 2), Vec2::new(26, 12));
    assert_eq!(Vec2::from((7u16, 8u16)), Vec2::new(7, 8));
}

#[test]
fn item_changes_tell_what_to_draw() {
    let dims = Rect { pos: Vec2::new(0u16, 0u16), size: Vec2::new(40u16, 10u16) };
    let mut row = MultiTextBox::<4>::new(dims);
    let shown = row.clone();
    let changes = row.item_changes(&shown, 1);
    assert_eq!(changes.new_text, None);
    assert!(!changes.text_color_changed && !changes.redraw);
    assert_eq!(changes.new_align, TextAlign::center());
    row.set(1, "one".to_string());
    let changes = row.item_changes(&shown, 1);
    assert_eq!(changes.new_text, Some(Some("one".to_string())));
    assert!(!changes.text_color_changed && changes.redraw);
    assert!(!row.item_changes(&shown, 0).redraw);
    let with_text = row.clone();
    row.set_color(1, Color::Red);
    let changes = row.item_changes(&with_text, 1);
    assert_eq!(changes.new_text, None);
    assert!(changes.text_color_changed && changes.redraw);
    row.clear(1);
    assert_eq!(row.item_changes(&with_text, 1).new_text, Some(None));
}

#[test]
fn start_refuses_sets_that_cannot_be_studied() {
    let card = |term: &str, definition: &str| Flashcard {
        term: FlashcardText::new(term.to_string()),
        definition: FlashcardText::new(definition.to_string()),
    };
    let settings = RecallSettings { matching: true, text: false };
    let size = Vec2::new(80, 24);
    let empty = CardSet { recall_t: settings, recall_d: settings, cards: Vec::new() };
    assert_eq!(World::refusal(&empty), Some(StartError::NoCards));
    assert!(matches!(World::start(size, &empty, TerminalSettings::new()), Err(StartError::NoCards)));
    let broken = CardSet {
        recall_t: settings,
        recall_d: settings,
        cards: vec![card("a", "b"), Flashcard { term: FlashcardText::new("c".to_string()), definition: FlashcardText::empty() }],
    };
    assert_eq!(World::refusal(&broken), Some(StartError::CardWithoutText));
    assert!(matches!(World::start(size, &broken, TerminalSettings::new()), Err(StartError::CardWithoutText)));
    let fine = CardSet { recall_t: settings, recall_d: settings, cards: vec![card("a", "b")] };
    assert_eq!(World::refusal(&fine), None);
    let world = World::start(size, &fine, TerminalSettings::new()).unwrap();
    assert!(matches!(world.typ(), Some(WorldType::Matching { failed: false, .. })));
    assert_eq!(world.card_list().remaining_unstudied(), 2);
    let unused = CardSet {
        recall_t: RecallSettings::default(),
        recall_d: RecallSettings::default(),
        cards: vec![card("a", "b")],
    };
    let world = World::start(size, &unused, TerminalSettings::new()).unwrap();
    assert!(world.typ().is_none());
    assert_eq!(correct(), "Correct!  Press any key to continue");
    assert_eq!(text_failed(), "Incorrect!  Shift-Tab: typo, I know this");
}
