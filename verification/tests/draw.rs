use easy_flashcards::input::text::{draw_diff_line, same_chars, Diff, TextInput};
use easy_flashcards::input::Key;
use easy_flashcards::chars::trim_end_text;
use easy_flashcards::output::draw::{
    draw_outline, draw_text, get_lines, overwrite_text, put, put_all, put_gaps, put_runs, shorten,
    Command,
};
use easy_flashcards::output::text_box::{
    copy_text, draw_multi_outline, same_text, MultiOutlineType, MultiTextBox, OutlineType, TextBox,
};
use easy_flashcards::output::{cap, Color, Repeat, TextAlign, TextAlignH, TextAlignV};
use easy_flashcards::study::learn::world::footer::{print_section, Footer, FooterColor};
use easy_flashcards::vec2::{Rect, Vec2};

fn rect(x: u16, y: u16, width: u16, height: u16) -> Rect<u16> {
    Rect { pos: Vec2::new(x, y), size: Vec2::new(width, height) }
}

fn print(text: &str) -> Command {
    Command::Print(text.to_string())
}

fn blanks(n: u16) -> Command {
    Command::PrintRepeat(Repeat(' ', n))
}

fn left_top() -> TextAlign {
    TextAlign::top_left()
}

#[test]
fn put_adds_commands() {
    let mut commands = vec![Command::ClearAll];
    put(&mut commands, Command::MoveDown(2));
    put_all(&mut commands, vec![Command::MoveRight(1), Command::PrintChar('x')]);
    put_runs(&mut commands, 2, '+', Repeat('-', 3));
    put_gaps(&mut commands, 1, '|', 4);
    assert_eq!(
        commands,
        [
            Command::ClearAll,
            Command::MoveDown(2),
            Command::MoveRight(1),
            Command::PrintChar('x'),
            Command::PrintChar('+'),
            Command::PrintRepeat(Repeat('-', 3)),
            Command::PrintChar('+'),
            Command::PrintRepeat(Repeat('-', 3)),
            Command::PrintChar('|'),
            Command::MoveRight(4),
        ]
    );
    assert_eq!(cap(7), 7);
    assert_eq!(cap(65535), 65535);
    assert_eq!(cap(65536), 65535);
}

#[test]
fn outline_is_drawn_row_by_row() {
    let commands = draw_outline(rect(2, 1, 5, 4), Color::Red, OutlineType::double());
    assert_eq!(
        commands,
        [
            Command::MoveTo(2, 1),
            Command::SetForegroundColor(Color::Red),
            Command::PrintChar('╔'),
            Command::PrintRepeat(Repeat('═', 3)),
            Command::PrintChar('╗'),
            Command::MoveDown(1),
            Command::MoveToColumn(2),
            Command::PrintChar('║'),
            Command::MoveRight(3),
            Command::PrintChar('║'),
            Command::MoveDown(1),
            Command::MoveToColumn(2),
            Command::PrintChar('║'),
            Command::MoveRight(3),
            Command::PrintChar('║'),
            Command::MoveDown(1),
            Command::MoveToColumn(2),
            Command::PrintChar('╚'),
            Command::PrintRepeat(Repeat('═', 3)),
            Command::PrintChar('╝'),
        ]
    );
    assert_eq!(draw_outline(rect(0, 0, 1, 1), Color::White, OutlineType::light()).len(), 10);
}

#[test]
fn multi_outline_has_joints_between_the_boxes() {
    let commands = draw_multi_outline(
        Vec2::new(1, 2),
        Vec2::new(3, 1),
        3,
        Color::White,
        MultiOutlineType::double_light(),
    );
    assert_eq!(
        commands,
        [
            Command::MoveTo(1, 2),
            Command::SetForegroundColor(Color::White),
            Command::PrintChar('╔'),
            Command::PrintRepeat(Repeat('═', 3)),
            Command::PrintChar('╤'),
            Command::PrintRepeat(Repeat('═', 3)),
            Command::PrintChar('╤'),
            Command::PrintRepeat(Repeat('═', 3)),
            Command::PrintChar('╗'),
            Command::MoveTo(1, 3),
            Command::PrintChar('║'),
            Command::MoveRight(3),
            Command::PrintChar('│'),
            Command::MoveRight(3),
            Command::PrintChar('│'),
            Command::MoveRight(3),
            Command::PrintChar('║'),
            Command::MoveTo(1, 4),
            Command::PrintChar('╚'),
            Command::PrintRepeat(Repeat('═', 3)),
            Command::PrintChar('╧'),
            Command::PrintRepeat(Repeat('═', 3)),
            Command::PrintChar('╧'),
            Command::PrintRepeat(Repeat('═', 3)),
            Command::PrintChar('╝'),
        ]
    );
}

#[test]
fn lines_start_at_the_top() {
    assert_eq!(get_lines(Vec2::new(9, 3), "the quick brown fox", TextAlignV::Top), ["the quick", "brown fox"]);
    assert_eq!(get_lines(Vec2::new(9, 1), "the quick brown fox", TextAlignV::Top), ["the quick"]);
    assert!(get_lines(Vec2::new(9, 0), "the quick brown fox", TextAlignV::Top).is_empty());
    assert!(get_lines(Vec2::new(9, 3), "", TextAlignV::Top).is_empty());
}

#[test]
fn lines_are_centred_or_set_to_the_bottom() {
    assert_eq!(get_lines(Vec2::new(9, 5), "the quick brown fox", TextAlignV::Center), ["", "the quick", "brown fox"]);
    assert_eq!(
        get_lines(Vec2::new(9, 5), "the quick brown fox", TextAlignV::Bottom),
        ["", "", "", "the quick", "brown fox"]
    );
    assert_eq!(get_lines(Vec2::new(9, 2), "the quick brown fox", TextAlignV::Center), ["the quick", "brown fox"]);
    assert_eq!(get_lines(Vec2::new(9, 4), "", TextAlignV::Center), ["", ""]);
}

#[test]
fn text_that_goes_on_ends_in_dots() {
    assert_eq!(get_lines(Vec2::new(9, 1), "the quick brown fox", TextAlignV::Center), ["the qu..."]);
    assert_eq!(get_lines(Vec2::new(9, 1), "the brown fox", TextAlignV::Bottom), ["the br..."]);
    assert_eq!(get_lines(Vec2::new(9, 2), "a b c d e f g h i j k", TextAlignV::Center), ["a b c d e", "f g h ..."]);
    assert_eq!(get_lines(Vec2::new(2, 1), "ab cd", TextAlignV::Center), ["..."]);
    assert_eq!(shorten("abcdef", 3), "abc...");
    assert_eq!(shorten("ab", 3), "ab...");
    assert_eq!(trim_end_text("ab \t "), "ab");
    assert_eq!(trim_end_text("  ab"), "  ab");
    assert_eq!(trim_end_text("   "), "");
}

#[test]
fn text_is_drawn_line_by_line() {
    let commands = draw_text(
        rect(10, 5, 9, 4),
        Color::Blue,
        "the quick brown",
        TextAlign { h: TextAlignH::Center, v: TextAlignV::Center },
    );
    assert_eq!(
        commands,
        [
            Command::SetForegroundColor(Color::Blue),
            Command::MoveTo(10, 6),
            print("the quick"),
            Command::MoveTo(12, 7),
            print("brown"),
        ]
    );
    let commands = draw_text(
        rect(10, 5, 9, 4),
        Color::Blue,
        "fox",
        TextAlign { h: TextAlignH::Right, v: TextAlignV::Bottom },
    );
    assert_eq!(commands, [Command::SetForegroundColor(Color::Blue), Command::MoveTo(16, 8), print("fox")]);
    assert_eq!(
        draw_text(rect(0, 0, 9, 4), Color::Blue, "  ", left_top()),
        [Command::SetForegroundColor(Color::Blue)]
    );
}

#[test]
fn overwrite_writes_what_has_changed() {
    let dims = rect(1, 1, 9, 3);
    assert_eq!(
        overwrite_text(dims, Color::White, "", left_top(), "fox", left_top(), false),
        [Command::SetForegroundColor(Color::White), Command::MoveTo(1, 1), print("fox")]
    );
    assert_eq!(
        overwrite_text(dims, Color::White, "fox", left_top(), "", left_top(), false),
        [Command::SetForegroundColor(Color::White), Command::MoveTo(1, 1), blanks(3)]
    );
    assert_eq!(
        overwrite_text(dims, Color::White, "fox", left_top(), "fox", left_top(), false),
        [Command::SetForegroundColor(Color::White)]
    );
    assert_eq!(
        overwrite_text(dims, Color::White, "fox", left_top(), "fox", left_top(), true),
        [Command::SetForegroundColor(Color::White), Command::MoveTo(1, 1), print("fox")]
    );
    assert_eq!(
        overwrite_text(dims, Color::White, "foxes", left_top(), "ox", left_top(), false),
        [Command::SetForegroundColor(Color::White), Command::MoveTo(1, 1), print("ox"), blanks(3)]
    );
}

#[test]
fn overwrite_blanks_what_a_shorter_centred_line_leaves() {
    let dims = rect(0, 0, 9, 1);
    let centred = TextAlign { h: TextAlignH::Center, v: TextAlignV::Top };
    assert_eq!(
        overwrite_text(dims, Color::White, "abcdefg", centred, "abc", centred, false),
        [
            Command::SetForegroundColor(Color::White),
            Command::MoveTo(1, 0),
            blanks(2),
            print("abc"),
            blanks(2),
        ]
    );
    assert_eq!(
        overwrite_text(dims, Color::White, "abc", centred, "abcdefg", centred, false),
        [Command::SetForegroundColor(Color::White), Command::MoveTo(1, 0), print("abcdefg")]
    );
}

#[test]
fn overwrite_goes_through_every_row() {
    let dims = rect(0, 4, 9, 2);
    assert_eq!(
        overwrite_text(dims, Color::White, "the quick brown", left_top(), "the slow brown fox", left_top(), false),
        [
            Command::SetForegroundColor(Color::White),
            Command::MoveTo(0, 4),
            print("the slow"),
            blanks(1),
            Command::MoveTo(0, 5),
            print("brown fox"),
        ]
    );
}

#[test]
fn diff_line_colours_each_mark() {
    let first = "cot x".to_string();
    let second = "cat".to_string();
    let grey = Color::Rgb { r: 128, g: 128, b: 128 };
    let pink = Color::Rgb { r: 255, g: 105, b: 180 };
    assert_eq!(
        draw_diff_line(3, 4, Some(&first), Some(&second)),
        [
            Command::MoveTo(3, 4),
            Command::SetForegroundColor(Color::White),
            Command::PrintChar('c'),
            Command::SetForegroundColor(Color::DarkRed),
            Command::PrintChar('o'),
            Command::SetForegroundColor(Color::White),
            Command::PrintChar('t'),
            Command::PrintChar(' '),
            Command::SetForegroundColor(pink),
            Command::PrintChar('x'),
        ]
    );
    assert_eq!(
        draw_diff_line(3, 4, Some(&second), Some(&first)),
        [
            Command::MoveTo(3, 4),
            Command::SetForegroundColor(Color::White),
            Command::PrintChar('c'),
            Command::SetForegroundColor(Color::DarkRed),
            Command::PrintChar('a'),
            Command::SetForegroundColor(Color::White),
            Command::PrintChar('t'),
            Command::PrintChar(' '),
            Command::SetForegroundColor(grey),
            Command::PrintChar('x'),
        ]
    );
    assert_eq!(
        draw_diff_line(3, 4, None, Some(&second)),
        [Command::MoveTo(3, 4), Command::SetForegroundColor(grey), print("cat")]
    );
    assert_eq!(
        draw_diff_line(3, 4, Some(&first), None),
        [Command::MoveTo(3, 4), Command::SetForegroundColor(pink), print("cot x")]
    );
    assert!(draw_diff_line(3, 4, None, None).is_empty());
    assert_eq!(Diff::Same.color(), Color::White);
    assert_eq!(Diff::Different.color(), Color::DarkRed);
}

#[test]
fn footer_sections_centre_their_counts() {
    let mut commands = Vec::new();
    print_section(&mut commands, 42, 7, Color::DarkGreen);
    assert_eq!(
        commands,
        [Command::SetBackgroundColor(Color::DarkGreen), blanks(2), print("42"), blanks(3)]
    );
    let mut commands = Vec::new();
    print_section(&mut commands, 12345, 3, Color::Black);
    assert_eq!(commands, [Command::SetBackgroundColor(Color::Black), blanks(0), print("123"), blanks(0)]);
    let mut commands = Vec::new();
    print_section(&mut commands, 0, 0, Color::Black);
    assert_eq!(commands, [Command::SetBackgroundColor(Color::Black), blanks(0), print(""), blanks(0)]);
}

#[test]
fn footer_is_drawn_from_green_to_black() {
    let mut footer = Footer::new(3, Vec2::new(20, 10));
    footer.move_item(FooterColor::Black, FooterColor::Green);
    assert_eq!(footer.counts(), [2, 0, 0, 1]);
    assert_eq!(
        footer.render([13, 0, 0, 6]),
        [
            Command::MoveTo(0, 9),
            Command::SetForegroundColor(Color::White),
            Command::SetBackgroundColor(Color::DarkGreen),
            blanks(2),
            print("1"),
            blanks(3),
            Command::SetBackgroundColor(Color::DarkYellow),
            blanks(0),
            print(""),
            blanks(0),
            Command::SetBackgroundColor(Color::DarkRed),
            blanks(0),
            print(""),
            blanks(0),
            Command::SetBackgroundColor(Color::Black),
            blanks(6),
            print("2"),
            blanks(6),
            blanks(1),
            Command::SetBackgroundColor(Color::Reset),
        ]
    );
}

#[test]
fn text_box_draws_and_updates() {
    let mut shown = TextBox::new(rect(0, 0, 9, 3));
    let before = shown.clone();
    assert!(shown.draw().is_empty());
    assert!(shown.update(&before).is_empty());
    shown.set_text("hi".to_string());
    assert_eq!(
        shown.update(&before),
        [Command::SetForegroundColor(Color::White), Command::MoveTo(3, 1), print("hi")]
    );
    assert_eq!(shown.draw(), shown.update(&before));
    let with_text = shown.clone();
    shown.set_outline(OutlineType::double());
    let commands = shown.update(&with_text);
    assert_eq!(commands, draw_outline(rect(0, 0, 9, 3), Color::White, OutlineType::double()));
    shown.set_text_color(Color::Green);
    let commands = shown.update(&with_text);
    assert_eq!(commands.len(), 15 + 3);
    assert_eq!(commands[15], Command::SetForegroundColor(Color::Green));
    assert_eq!(commands[17], print("hi"));
    let full = shown.clone();
    shown.clear_text();
    shown.clear_outline();
    let commands = shown.update(&full);
    assert_eq!(commands[..15], draw_outline(rect(0, 0, 9, 3), Color::White, OutlineType::erase()));
    assert_eq!(commands[15..], [Command::SetForegroundColor(Color::Green), Command::MoveTo(3, 1), blanks(2)]);
    let wiped = full.wipe();
    assert_eq!(wiped[..3], [Command::SetForegroundColor(Color::Green), Command::MoveTo(3, 1), blanks(2)]);
    assert_eq!(wiped[3..], draw_outline(rect(0, 0, 9, 3), Color::White, OutlineType::erase()));
    assert_eq!(copy_text(&Some("a".to_string())), Some("a".to_string()));
    assert!(same_text(&None, &None));
    assert!(!same_text(&None, &Some(String::new())));
    assert!(same_text(&Some("a".to_string()), &Some("a".to_string())));
    assert!(!same_text(&Some("a".to_string()), &Some("b".to_string())));
}

#[test]
fn row_of_boxes_draws_and_updates() {
    let mut row = MultiTextBox::<4>::new(rect(0, 0, 25, 5));
    let before = row.clone();
    assert!(row.draw().is_empty());
    assert!(row.update(&before).is_empty());
    assert_eq!(row.item_dims(0), rect(1, 1, 5, 3));
    assert_eq!(row.item_dims(3), rect(19, 1, 5, 3));
    row.set(2, "hi".to_string());
    assert_eq!(
        row.update(&before),
        [Command::SetForegroundColor(Color::White), Command::MoveTo(14, 2), print("hi")]
    );
    assert_eq!(row.draw(), row.update(&before));
    let with_text = row.clone();
    row.set_color(2, Color::Red);
    assert_eq!(
        row.update(&with_text),
        [Command::SetForegroundColor(Color::Red), Command::MoveTo(14, 2), print("hi")]
    );
    row.set_outline(MultiOutlineType::double_light());
    let commands = row.update(&with_text);
    let outline = draw_multi_outline(Vec2::new(0, 0), Vec2::new(5, 3), 4, Color::White, MultiOutlineType::double_light());
    assert_eq!(commands[..outline.len()], outline);
    assert_eq!(commands.len(), outline.len() + 3);
    let full = row.clone();
    row.hide_all();
    let commands = row.update(&full);
    let erased = draw_multi_outline(Vec2::new(0, 0), Vec2::new(5, 3), 4, Color::White, MultiOutlineType::erase());
    assert_eq!(commands[..erased.len()], erased);
    assert_eq!(commands[erased.len()..], [Command::SetForegroundColor(Color::Red), Command::MoveTo(14, 2), blanks(2)]);
}

#[test]
fn text_input_draws_what_is_typed() {
    let mut input = TextInput::new(rect(0, 0, 12, 4));
    let before = input.clone();
    assert_eq!(input.draw(), [Command::SetForegroundColor(Color::White)]);
    assert!(input.update(&before).is_empty());
    for c in "cot".chars() {
        input.read_input(Key::Char(c));
    }
    assert_eq!(
        input.update(&before),
        [Command::SetForegroundColor(Color::White), Command::MoveTo(1, 1), print("cot")]
    );
    assert_eq!(input.redraw_text(), input.update(&before));
    assert_eq!(
        before.update(&input),
        [Command::SetForegroundColor(Color::White), Command::MoveTo(1, 1), blanks(3)]
    );
    assert_eq!(input.erase_text(), before.update(&input));
    let typed = input.clone();
    input.set_outline(OutlineType::double());
    assert_eq!(input.update(&typed), draw_outline(rect(0, 0, 12, 4), Color::Reset, OutlineType::double()));
    assert!(same_chars(&vec!['a', 'b'], &vec!['a', 'b']));
    assert!(!same_chars(&vec!['a', 'b'], &vec!['a']));
    assert!(!same_chars(&vec!['a', 'b'], &vec!['a', 'c']));
}

#[test]
fn text_input_shows_the_right_answer_against_the_text() {
    let mut input = TextInput::new(rect(0, 0, 12, 4));
    for c in "cot".chars() {
        input.read_input(Key::Char(c));
    }
    let typed = input.clone();
    input.correct_answer_is("cat".to_string());
    let diff = input.redraw_text();
    assert_eq!(
        diff,
        [
            Command::MoveTo(1, 1),
            Command::SetForegroundColor(Color::White),
            Command::PrintChar('c'),
            Command::SetForegroundColor(Color::DarkRed),
            Command::PrintChar('o'),
            Command::SetForegroundColor(Color::White),
            Command::PrintChar('t'),
        ]
    );
    let mut expected = typed.erase_text();
    expected.extend(diff.clone());
    assert_eq!(input.update(&typed), expected);
    assert_eq!(input.erase_text(), [Command::MoveTo(1, 1), blanks(3)]);
    let wrong = input.clone();
    input.read_input(Key::Backspace);
    input.read_input(Key::Backspace);
    assert_eq!(
        input.update(&wrong),
        [
            Command::MoveTo(1, 1),
            Command::SetForegroundColor(Color::White),
            Command::PrintChar('c'),
            Command::SetForegroundColor(Color::Rgb { r: 128, g: 128, b: 128 }),
            Command::PrintChar('a'),
            Command::PrintChar('t'),
            blanks(2),
        ]
    );
    assert_eq!(input.overwrite_text(&wrong), input.update(&wrong));
}

#[test]
fn cursor_follows_the_text() {
    let mut input = TextInput::new(rect(2, 3, 12, 5));
    assert_eq!(input.go_to_cursor(), Command::MoveTo(3, 4));
    for c in "the quick".chars() {
        input.read_input(Key::Char(c));
    }
    assert_eq!(input.go_to_cursor(), Command::MoveTo(12, 4));
    input.read_input(Key::Left);
    input.read_input(Key::Left);
    assert_eq!(input.go_to_cursor(), Command::MoveTo(10, 4));
    for _ in 0..2 {
        input.read_input(Key::Right);
    }
    for c in " brown fox".chars() {
        input.read_input(Key::Char(c));
    }
    assert_eq!(input.get_text(), "the quick brown fox");
    assert_eq!(input.go_to_cursor(), Command::MoveTo(12, 5));
    for _ in 0..9 {
        input.read_input(Key::Left);
    }
    assert_eq!(input.go_to_cursor(), Command::MoveTo(3, 5));
    input.read_input(Key::Left);
    assert_eq!(input.go_to_cursor(), Command::MoveTo(12, 4));
}

#[test]
fn a_position_gives_the_command_that_moves_there() {
    assert_eq!(Vec2::new(7u16, 3u16).move_to(), Command::MoveTo(7, 3));
    assert_eq!(Vec2::<u16>::zero().move_to(), Command::MoveTo(0, 0));
}
