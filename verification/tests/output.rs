use easy_flashcards::input::text::TextInput;
use easy_flashcards::input::Key;
use easy_flashcards::output::text_box::{
    make_valid_dims, MultiOutlineType, MultiTextBox, OutlineType, TextBox,
};
use easy_flashcards::output::{
    ceil_char_boundary, decimal_text, floor_char_boundary, Color, Repeat, TerminalSettings, TextAlign,
    TextAlignH, TextAlignV,
};
use easy_flashcards::vec2::{Rect, Vec2};

fn rect(x: u16, y: u16, width: u16, height: u16) -> Rect<u16> {
    Rect { pos: Vec2::new(x, y), size: Vec2::new(width, height) }
}

#[test]
fn decimal_text_writes_numerals() {
    assert_eq!(decimal_text(0), "0");
    assert_eq!(decimal_text(9), "9");
    assert_eq!(decimal_text(10), "10");
    assert_eq!(decimal_text(4096), "4096");
    assert_eq!(decimal_text(u32::MAX as u64), "4294967295");
    assert_eq!(decimal_text(u64::MAX), "18446744073709551615");
}

#[test]
fn floor_char_boundary_steps_back_to_a_boundary() {
    let text = "aé😀b";
    assert_eq!(floor_char_boundary(text, 0), 0);
    assert_eq!(floor_char_boundary(text, 1), 1);
    assert_eq!(floor_char_boundary(text, 2), 1);
    assert_eq!(floor_char_boundary(text, 3), 3);
    assert_eq!(floor_char_boundary(text, 4), 3);
    assert_eq!(floor_char_boundary(text, 6), 3);
    assert_eq!(floor_char_boundary(text, 7), 7);
    assert_eq!(floor_char_boundary(text, 8), 8);
    assert_eq!(floor_char_boundary(text, 100), 8);
    assert_eq!(floor_char_boundary("", 3), 0);
}

#[test]
fn ceil_char_boundary_steps_on_to_a_boundary() {
    let text = "aé😀b";
    assert_eq!(ceil_char_boundary(text, 0), Some(0));
    assert_eq!(ceil_char_boundary(text, 2), Some(3));
    assert_eq!(ceil_char_boundary(text, 3), Some(3));
    assert_eq!(ceil_char_boundary(text, 4), Some(7));
    assert_eq!(ceil_char_boundary(text, 8), Some(8));
    assert_eq!(ceil_char_boundary(text, 9), None);
    assert_eq!(ceil_char_boundary("", 0), Some(0));
    assert_eq!(ceil_char_boundary("", 1), None);
}

#[test]
fn padding_depends_on_the_alignment() {
    assert_eq!(TextAlignH::Left.padding_for("abc", 10usize), 0);
    assert_eq!(TextAlignH::Center.padding_for("abc", 10usize), 3);
    assert_eq!(TextAlignH::Right.padding_for("abc", 10usize), 7);
    assert_eq!(TextAlignH::Center.padding_for("äöü", 4u16), 0);
    assert_eq!(TextAlignH::Right.padding_for("äöü", 3u16), 0);
    assert_eq!(TextAlignH::Left.padding_for("longer than the box", 3u16), 0);
}

#[test]
fn alignments_have_names() {
    assert_eq!(TextAlign::center(), TextAlign { h: TextAlignH::Center, v: TextAlignV::Center });
    assert_eq!(TextAlign::top_left(), TextAlign { h: TextAlignH::Left, v: TextAlignV::Top });
    assert_eq!(Repeat('x', 3), Repeat('x', 3));
}

#[test]
fn terminal_settings_note_the_modes() {
    let mut settings = TerminalSettings::new();
    assert!(!settings.alternate_screen() && !settings.cursor_hidden() && !settings.raw_mode());
    settings.enter_alternate_screen();
    settings.hide_cursor();
    settings.enable_raw_mode();
    assert!(settings.alternate_screen() && settings.cursor_hidden() && settings.raw_mode());
    settings.show_cursor();
    settings.leave_alternate_screen();
    settings.disable_raw_mode();
    assert!(!settings.alternate_screen() && !settings.cursor_hidden() && !settings.raw_mode());
    assert!(!settings.exiting_properly());
    let left = settings.clear();
    assert!(left.exiting_properly());
    assert!(!TerminalSettings::default().exiting_properly());
}

#[test]
fn outlines_are_made_of_box_characters() {
    assert_eq!(OutlineType::light().tl, '┌');
    assert_eq!(OutlineType::heavy().h, '━');
    assert_eq!(OutlineType::double().br, '╝');
    assert_eq!(OutlineType::erase().v, ' ');
    assert_eq!(MultiOutlineType::double_light().join_top, '╤');
    assert_eq!(MultiOutlineType::double_light().inner_v, '│');
    assert_eq!(MultiOutlineType::erase().join_bot, ' ');
}

#[test]
fn boxes_are_at_least_five_by_three() {
    assert_eq!(make_valid_dims(rect(1, 2, 0, 0)), rect(1, 2, 5, 3));
    assert_eq!(make_valid_dims(rect(1, 2, 9, 1)), rect(1, 2, 9, 3));
    assert_eq!(make_valid_dims(rect(1, 2, 9, 7)), rect(1, 2, 9, 7));
}

#[test]
fn text_box_holds_what_it_is_given() {
    let mut shown = TextBox::new(rect(2, 3, 1, 1));
    assert_eq!(shown.dims(), rect(2, 3, 5, 3));
    assert_eq!(shown.inner_size(), rect(3, 4, 3, 1));
    assert_eq!(*shown.get_text(), None);
    assert_eq!(shown.text_color(), Color::White);
    assert_eq!(shown.text_align(), TextAlign::center());
    shown.set_text("hi".to_string());
    shown.set_color(Color::Red);
    assert_eq!(shown.get_text().as_deref(), Some("hi"));
    assert_eq!(shown.text_color(), Color::Red);
    assert_eq!(shown.outline_color(), Color::Red);
    shown.set_text_color(Color::Blue);
    shown.set_outline_color(Color::Green);
    assert_eq!(shown.text_color(), Color::Blue);
    assert_eq!(shown.outline_color(), Color::Green);
    shown.add_outline(OutlineType::heavy());
    shown.add_outline(OutlineType::double());
    assert_eq!(shown.outline_type(), Some(OutlineType::heavy()));
    shown.set_outline(OutlineType::double());
    assert_eq!(shown.outline_type(), Some(OutlineType::double()));
    shown.clear_outline();
    shown.clear_text();
    assert_eq!(shown.outline_type(), None);
    assert_eq!(*shown.get_text(), None);
    shown.force_move_resize(rect(0, 0, 20, 10));
    assert_eq!(shown.dims(), rect(0, 0, 20, 10));
}

#[test]
fn row_of_boxes_shares_the_width() {
    let row = MultiTextBox::<4>::new(rect(4, 14, 82, 10));
    assert_eq!(row.item_size(), Vec2::new(19, 8));
    assert_eq!(row.corner_pos(), Vec2::new(4 + 0, 14));
    let row = MultiTextBox::<4>::new(rect(4, 14, 83, 10));
    assert_eq!(row.item_size(), Vec2::new(19, 8));
    assert_eq!(row.corner_pos(), Vec2::new(5, 14));
    let row = MultiTextBox::<4>::new(rect(4, 14, 84, 10));
    assert_eq!(row.corner_pos(), Vec2::new(5, 14));
    let tiny = MultiTextBox::<4>::new(rect(4, 0, 0, 0));
    assert_eq!(tiny.item_size(), Vec2::new(3, 1));
    assert_eq!(tiny.corner_pos(), Vec2::new(4, 0));
    assert_eq!(MultiTextBox::<4>::inner_dims_from_size(rect(0, 0, 25, 5)), rect(0, 0, 5, 3));
    assert_eq!(MultiTextBox::<4>::inner_dims_from_size(rect(1, 1, 31, 7)), rect(2, 1, 6, 5));
}

#[test]
fn row_of_boxes_holds_texts_and_colors() {
    let mut row = MultiTextBox::<4>::new(rect(0, 0, 40, 10));
    for i in 0..4 {
        assert_eq!(row.text(i), None);
        assert_eq!(row.color(i), Color::White);
        assert_eq!(row.align(i), TextAlign::center());
    }
    row.set(1, "one".to_string());
    row.set_color(1, Color::Green);
    row.set(3, "three".to_string());
    row.set_outline(MultiOutlineType::double_light());
    assert_eq!(row.text(1), Some(&"one".to_string()));
    assert_eq!(row.color(1), Color::Green);
    assert_eq!(row.text(0), None);
    assert_eq!(row.text(3), Some(&"three".to_string()));
    assert_eq!(row.color(3), Color::White);
    row.clear(3);
    assert_eq!(row.text(3), None);
    row.hide_all();
    assert_eq!(row.outline_type(), None);
    assert_eq!(row.outline_color(), Color::White);
    assert_eq!(row.text(1), None);
    assert_eq!(row.color(1), Color::Green);
    row.set_outline(MultiOutlineType::erase());
    row.clear_outline();
    assert_eq!(row.outline_type(), None);
    row.force_move_resize(rect(0, 0, 25, 5));
    assert_eq!(row.item_size(), Vec2::new(5, 3));
}

#[test]
fn text_input_edits_at_the_cursor() {
    let mut input = TextInput::new(rect(0, 0, 20, 3));
    for c in "helo".chars() {
        assert_eq!(input.read_input(Key::Char(c)), None);
    }
    assert_eq!(input.get_text(), "helo");
    assert_eq!(input.cursor_pos(), 4);
    input.read_input(Key::Left);
    input.read_input(Key::Char('l'));
    assert_eq!(input.get_text(), "hello");
    assert_eq!(input.cursor_pos(), 4);
    input.read_input(Key::Right);
    input.read_input(Key::Right);
    assert_eq!(input.cursor_pos(), 5);
    input.read_input(Key::Backspace);
    assert_eq!(input.get_text(), "hell");
    for _ in 0..10 {
        input.read_input(Key::Left);
    }
    assert_eq!(input.cursor_pos(), 0);
    input.read_input(Key::Backspace);
    assert_eq!(input.get_text(), "hell");
    input.read_input(Key::Delete);
    assert_eq!(input.get_text(), "ell");
    assert_eq!(input.cursor_pos(), 0);
    input.read_input(Key::Other);
    input.read_input(Key::BackTab);
    assert_eq!(input.get_text(), "ell");
    assert_eq!(input.read_input(Key::Enter), Some("ell".to_string()));
    assert_eq!(input.get_text(), "ell");
    for _ in 0..3 {
        input.read_input(Key::Right);
    }
    input.read_input(Key::Delete);
    assert_eq!(input.get_text(), "ell");
}

#[test]
fn text_input_handles_wide_characters() {
    let mut input = TextInput::new(rect(0, 0, 20, 3));
    for c in "aé😀".chars() {
        input.read_input(Key::Char(c));
    }
    assert_eq!(input.get_text(), "aé😀");
    input.read_input(Key::Left);
    input.read_input(Key::Backspace);
    assert_eq!(input.get_text(), "a😀");
    assert_eq!(input.cursor_pos(), 1);
}

#[test]
fn text_input_is_hidden_as_a_whole() {
    let mut input = TextInput::new(rect(1, 1, 2, 2));
    assert_eq!(input.dims(), rect(1, 1, 5, 3));
    assert_eq!(input.inner_size(), rect(2, 2, 3, 1));
    input.set_outline(OutlineType::double());
    input.read_input(Key::Char('x'));
    input.correct_answer_is("y".to_string());
    assert_eq!(input.correct_answer().as_deref(), Some("y"));
    input.hide_all();
    assert_eq!(input.outline_type(), None);
    assert_eq!(input.get_text(), "");
    assert_eq!(input.cursor_pos(), 0);
    assert_eq!(*input.correct_answer(), None);
    input.set_outline(OutlineType::light());
    input.clear_outline();
    input.read_input(Key::Char('x'));
    input.clear_text();
    input.correct_answer_is("z".to_string());
    input.clear_correct_answer();
    assert_eq!(input.get_text(), "");
    assert_eq!(*input.correct_answer(), None);
    input.force_move_resize(rect(3, 3, 30, 10));
    assert_eq!(input.dims(), rect(3, 3, 30, 10));
}
