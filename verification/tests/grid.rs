use easy_flashcards::flashcards::Side;
use easy_flashcards::output::draw::Command;
use easy_flashcards::output::text_box::{OutlineType, TextBox};
use easy_flashcards::output::{Color, TextAlign};
use easy_flashcards::vec2::Rect;
use easy_flashcards::study::flashcards::grid::{outline_type, FlashcardGrid};
use easy_flashcards::vec2::Vec2;

#[test]
fn new_grid_is_empty() {
    let grid = FlashcardGrid::new(Vec2::new(3, 2));
    assert_eq!(grid.card_count(), Vec2::new(3, 2));
    assert_eq!(grid.card_size(), Vec2::new(5, 3));
    assert_eq!(grid.offset(), Vec2::new(0, 0));
    assert_eq!(grid.selected(), Vec2::new(0, 0));
    for i in 0..6 {
        assert_eq!(grid.card(i), None);
    }
}

#[test]
fn fill_from_cards_fills_and_empties() {
    let mut grid = FlashcardGrid::new(Vec2::new(2, 2));
    grid.fill_from_cards(&[("a", Side::Term), ("b", Side::Definition), ("c", Side::Term)]);
    assert_eq!(grid.card(0), Some(("a", Side::Term)));
    assert_eq!(grid.card(1), Some(("b", Side::Definition)));
    assert_eq!(grid.card(2), Some(("c", Side::Term)));
    assert_eq!(grid.card(3), None);
    grid.fill_from_cards(&[("z", Side::Term)]);
    assert_eq!(grid.card(0), Some(("z", Side::Term)));
    assert_eq!(grid.card(1), None);
    let many: Vec<(&str, Side)> = (0..10).map(|_| ("x", Side::Term)).collect();
    grid.fill_from_cards(&many);
    assert_eq!(grid.card(3), Some(("x", Side::Term)));
}

#[test]
fn fill_from_text_keeps_the_places_it_does_not_reach() {
    let mut grid = FlashcardGrid::new(Vec2::new(2, 2));
    grid.fill_from_cards(&[("a", Side::Definition), ("b", Side::Definition), ("c", Side::Definition)]);
    grid.fill_from_text(&["x", "y"]);
    assert_eq!(grid.card(0), Some(("x", Side::Term)));
    assert_eq!(grid.card(1), Some(("y", Side::Term)));
    assert_eq!(grid.card(2), Some(("c", Side::Definition)));
    assert_eq!(grid.card(3), None);
}

#[test]
fn size_to_shares_the_terminal() {
    let mut grid = FlashcardGrid::new(Vec2::new(3, 2));
    grid.size_to(Vec2::new(80, 25));
    assert_eq!(grid.card_size(), Vec2::new(26, 12));
    assert_eq!(grid.offset(), Vec2::new(1, 0));
    assert_eq!(grid.print_at(Vec2::new(2, 1)), Vec2::new(53, 12));
    grid.size_to(Vec2::new(14, 25));
    assert_eq!(grid.card_size(), Vec2::new(5, 3));
    assert_eq!(grid.offset(), Vec2::new(0, 0));
    grid.size_to(Vec2::new(15, 6));
    assert_eq!(grid.card_size(), Vec2::new(5, 3));
    assert_eq!(grid.offset(), Vec2::new(0, 0));
    assert_eq!(grid.print_at(Vec2::new(1, 1)), Vec2::new(5, 3));
}

#[test]
fn selection_can_be_moved() {
    let mut grid = FlashcardGrid::new(Vec2::new(3, 2));
    grid.set_selected(Vec2::new(2, 1));
    assert_eq!(grid.selected(), Vec2::new(2, 1));
    assert!(grid.is_selected(Vec2::new(2, 1)));
    assert!(!grid.is_selected(Vec2::new(1, 1)));
    grid.selected_mut().x = 0;
    assert_eq!(grid.selected(), Vec2::new(0, 1));
}

#[test]
fn selected_card_has_a_double_outline() {
    assert_eq!(outline_type(true), Some(OutlineType::double()));
    assert_eq!(outline_type(false), Some(OutlineType::heavy()));
}

#[test]
fn updater_changes_the_grid_it_holds() {
    let mut grid = FlashcardGrid::new(Vec2::new(2, 2));
    {
        let mut updater = easy_flashcards::study::flashcards::grid::FlashcardGridUpdater::new(&mut grid);
        assert_eq!(updater.card_count(), Vec2::new(2, 2));
        assert_eq!(updater.selected(), Vec2::new(0, 0));
        updater.set_selected(Vec2::new(1, 0));
        assert_eq!(updater.selected(), Vec2::new(1, 0));
        updater.selected_mut().y = 1;
        updater.fill_from_cards(&[("a", Side::Term)]);
    }
    assert_eq!(grid.selected(), Vec2::new(1, 1));
    assert_eq!(grid.card(0), Some(("a", Side::Term)));
    assert_eq!(grid.card(1), None);
}

fn card(dims: Rect<u16>, text: &str, color: Color, outline: OutlineType) -> TextBox {
    let mut shown = TextBox::new(dims);
    shown.set_color(color);
    shown.set_text(text.to_string());
    shown.set_outline(outline);
    shown
}

#[test]
fn grid_prints_its_cards() {
    let mut grid = FlashcardGrid::new(Vec2::new(2, 1));
    grid.size_to(Vec2::new(21, 5));
    assert_eq!(grid.print(), [Command::ClearAll]);
    assert!(grid.card_box(0).is_none());
    grid.fill_from_cards(&[("cat", Side::Term), ("Hund", Side::Definition)]);
    let first = card(
        Rect { pos: Vec2::new(0, 0), size: Vec2::new(10, 5) },
        "cat",
        Color::Blue,
        OutlineType::double(),
    );
    let second = card(
        Rect { pos: Vec2::new(10, 0), size: Vec2::new(10, 5) },
        "Hund",
        Color::Green,
        OutlineType::heavy(),
    );
    let shown = grid.card_box(1).unwrap();
    assert_eq!(shown.dims(), second.dims());
    assert_eq!(shown.get_text().as_deref(), Some("Hund"));
    assert_eq!(shown.text_color(), Color::Green);
    assert_eq!(shown.outline_color(), Color::Green);
    assert_eq!(shown.outline_type(), Some(OutlineType::heavy()));
    assert_eq!(shown.text_align(), TextAlign::center());
    let mut expected = vec![Command::ClearAll];
    expected.extend(first.draw());
    expected.extend(second.draw());
    assert_eq!(grid.print(), expected);
}

#[test]
fn grid_updates_what_has_changed() {
    let mut grid = FlashcardGrid::new(Vec2::new(2, 1));
    grid.size_to(Vec2::new(21, 5));
    let empty = FlashcardGrid::new(Vec2::new(2, 1));
    assert!(grid.update(&empty).is_empty());
    let mut before = FlashcardGrid::new(Vec2::new(2, 1));
    before.size_to(Vec2::new(21, 5));
    before.fill_from_cards(&[("cat", Side::Term), ("Hund", Side::Definition)]);
    grid.fill_from_cards(&[("cat", Side::Term)]);
    grid.set_selected(Vec2::new(1, 0));
    let dims = Rect { pos: Vec2::new(0, 0), size: Vec2::new(10, 5) };
    let old_first = card(dims, "cat", Color::Blue, OutlineType::double());
    let new_first = card(dims, "cat", Color::Blue, OutlineType::heavy());
    let old_second = card(
        Rect { pos: Vec2::new(10, 0), size: Vec2::new(10, 5) },
        "Hund",
        Color::Green,
        OutlineType::heavy(),
    );
    let mut expected = new_first.update(&old_first);
    expected.extend(old_second.wipe());
    assert_eq!(grid.update(&before), expected);
    let mut expected = old_first.update(&new_first);
    expected.extend(old_second.draw());
    assert_eq!(before.update(&grid), expected);
    assert!(grid.update(&grid).is_empty());
}
