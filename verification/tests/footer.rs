use easy_flashcards::study::learn::world::footer::{Footer, FooterColor};
use easy_flashcards::vec2::Vec2;

fn counts(footer: &Footer) -> [u32; 4] {
    [
        footer.count(FooterColor::Black),
        footer.count(FooterColor::Red),
        footer.count(FooterColor::Yellow),
        footer.count(FooterColor::Green),
    ]
}

#[test]
fn new_footer_is_all_black() {
    let footer = Footer::new(5, Vec2::new(80, 24));
    assert_eq!(counts(&footer), [5, 0, 0, 0]);
    assert_eq!(footer.width(), 80);
    assert_eq!(footer.row(), 23);
}

#[test]
fn footer_of_a_terminal_without_rows_sits_on_row_zero() {
    let footer = Footer::new(1, Vec2::new(10, 0));
    assert_eq!(footer.row(), 0);
}

#[test]
fn move_item_takes_from_one_bucket_and_gives_to_another() {
    let mut footer = Footer::new(3, Vec2::new(80, 24));
    footer.move_item(FooterColor::Black, FooterColor::Yellow);
    assert_eq!(counts(&footer), [2, 0, 1, 0]);
    footer.move_item(FooterColor::Yellow, FooterColor::Green);
    assert_eq!(counts(&footer), [2, 0, 0, 1]);
    footer.move_item(FooterColor::Black, FooterColor::Red);
    assert_eq!(counts(&footer), [1, 1, 0, 1]);
}

#[test]
fn move_item_within_a_bucket_changes_nothing() {
    let mut footer = Footer::new(u32::MAX, Vec2::new(80, 24));
    footer.move_item(FooterColor::Black, FooterColor::Black);
    assert_eq!(counts(&footer), [u32::MAX, 0, 0, 0]);
}

#[test]
fn move_item_keeps_the_total() {
    let mut footer = Footer::new(4, Vec2::new(80, 24));
    let moves = [
        (FooterColor::Black, FooterColor::Red),
        (FooterColor::Red, FooterColor::Yellow),
        (FooterColor::Black, FooterColor::Yellow),
        (FooterColor::Yellow, FooterColor::Green),
        (FooterColor::Yellow, FooterColor::Black),
    ];
    for (from, to) in moves {
        footer.move_item(from, to);
        assert_eq!(counts(&footer).iter().sum::<u32>(), 4);
    }
}

#[test]
fn resize_keeps_the_counts() {
    let mut footer = Footer::new(2, Vec2::new(80, 24));
    footer.move_item(FooterColor::Black, FooterColor::Green);
    footer.resize(Vec2::new(120, 40));
    assert_eq!(counts(&footer), [1, 0, 0, 1]);
    assert_eq!(footer.width(), 120);
    assert_eq!(footer.row(), 39);
}

#[test]
fn colors_are_ordered_from_unseen_to_mastered() {
    assert!(FooterColor::Black < FooterColor::Red);
    assert!(FooterColor::Red < FooterColor::Yellow);
    assert!(FooterColor::Yellow < FooterColor::Green);
    assert_eq!(FooterColor::Black.index(), 0);
    assert_eq!(FooterColor::Green.index(), 3);
}
