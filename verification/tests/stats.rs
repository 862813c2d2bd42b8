use easy_flashcards::flashcards::{Flashcard, FlashcardText, Side};
use easy_flashcards::output::Color;
use easy_flashcards::study::learn::world::card_list::fail_count::FailCount;
use easy_flashcards::study::learn::world::card_list::FailedItem;
use easy_flashcards::study::learn::world::stats::{
    fail_color, sections, sort_fails, table_head, table_line, tally_fails, FailLine, StatsLine,
};

fn count_of(n: u32) -> FailCount {
    let mut count = FailCount::zero();
    for _ in 0..n {
        count.inc();
    }
    count
}

fn line(count: u32, text: &str) -> FailLine {
    FailLine { count: count_of(count), text: text.to_string() }
}

fn shown(lines: &[FailLine]) -> Vec<(u8, &str)> {
    lines.iter().map(|line| (line.count.count(), line.text.as_str())).collect()
}

#[test]
fn stats_line_adds_the_sides() {
    assert_eq!(StatsLine::new([3, 4]), StatsLine { term: 3, definition: 4, total: 7 });
    let sum = StatsLine::sum(&StatsLine::new([1, 2]), &StatsLine::new([10, 20]));
    assert_eq!(sum, StatsLine { term: 11, definition: 22, total: 33 });
}

#[test]
fn sections_report_each_mode_and_their_sum() {
    let (matches, texts, total) = sections([3, 1], [2, 0], [5, 0], [1, 0]);
    assert_eq!(matches.made, StatsLine { term: 3, definition: 1, total: 4 });
    assert_eq!(matches.fails, StatsLine { term: 5, definition: 0, total: 5 });
    assert_eq!(texts.made, StatsLine { term: 2, definition: 0, total: 2 });
    assert_eq!(texts.fails, StatsLine { term: 1, definition: 0, total: 1 });
    let total = total.unwrap();
    assert_eq!(total.made, StatsLine { term: 5, definition: 1, total: 6 });
    assert_eq!(total.fails, StatsLine { term: 6, definition: 0, total: 6 });
}

#[test]
fn sections_leave_the_sum_out_if_a_mode_was_not_used() {
    let (matches, texts, total) = sections([3, 1], [0, 0], [5, 0], [0, 0]);
    assert!(matches.is_used());
    assert!(!texts.is_used());
    assert!(total.is_none());
    let (_, _, total) = sections([0, 0], [0, 2], [0, 0], [0, 0]);
    assert!(total.is_none());
    let (_, _, total) = sections([u32::MAX, u32::MAX], [u32::MAX, 1], [0, 0], [0, 0]);
    assert_eq!(total.unwrap().made.total, 3 * u32::MAX as u64 + 1);
}

#[test]
fn tally_fails_sums_by_mode_and_side() {
    let card = Flashcard {
        term: FlashcardText::new("cat".to_string()),
        definition: FlashcardText::new("Katze".to_string()),
    };
    let record = |side, matched, typed| FailedItem {
        card: &card,
        side,
        match_fails: count_of(matched),
        text_fails: count_of(typed),
    };
    let records = vec![
        record(Side::Term, 2, 1),
        record(Side::Definition, 0, 4),
        record(Side::Term, 255, 0),
        record(Side::Definition, 3, 3),
    ];
    let (matched, typed) = tally_fails(&records);
    assert_eq!(matched, [257, 3]);
    assert_eq!(typed, [1, 7]);
    assert_eq!(tally_fails(&Vec::new()), ([0, 0], [0, 0]));
    assert_eq!(records[0].total_fails().count(), 3);
    assert_eq!(records[2].total_fails().count(), 255);
}

#[test]
fn fail_color_depends_on_the_count() {
    assert_eq!(fail_color(1), Color::Grey);
    assert_eq!(fail_color(2), Color::Yellow);
    assert_eq!(fail_color(3), Color::Red);
    assert_eq!(fail_color(4), Color::Magenta);
    assert_eq!(fail_color(5), Color::Blue);
    assert_eq!(fail_color(6), Color::Cyan);
    assert_eq!(fail_color(255), Color::Cyan);
}

#[test]
fn sort_fails_orders_by_count_then_text() {
    let sorted = sort_fails(vec![
        line(3, "dog"),
        line(1, "zebra"),
        line(3, "cat"),
        line(2, "Bird"),
        line(1, "ant"),
        line(3, "cat"),
        line(2, "bird"),
        line(2, "bir"),
    ]);
    assert_eq!(
        shown(&sorted),
        [
            (1, "ant"),
            (1, "zebra"),
            (2, "Bird"),
            (2, "bir"),
            (2, "bird"),
            (3, "cat"),
            (3, "cat"),
            (3, "dog"),
        ]
    );
    assert!(sort_fails(Vec::new()).is_empty());
}

#[test]
fn sort_fails_orders_texts_by_code_point() {
    let sorted = sort_fails(vec![line(1, "é"), line(1, "z"), line(1, "😀"), line(1, "")]);
    assert_eq!(shown(&sorted), [(1, ""), (1, "z"), (1, "é"), (1, "😀")]);
    assert!(sorted[0].comes_first(&sorted[1]));
    assert!(!sorted[1].comes_first(&sorted[0]));
    assert!(sorted[1].comes_first(&sorted[1]));
}

#[test]
fn table_lines_are_set_in_columns() {
    assert_eq!(table_head(), "                |  total   |   term   |definition|");
    assert_eq!(
        StatsLine::new([3, 12]).to_text("Matches made:"),
        "Matches made:   |    15    |    3     |    12    |"
    );
    assert_eq!(
        table_line("Texts entered:", "100%", "NaN", "7%"),
        format!("{:15} |{:^10}|{:^10}|{:^10}|", "Texts entered:", "100%", "NaN", "7%")
    );
    assert_eq!(
        table_line("a tag that is too long", "12345678901", "", "1234567890"),
        format!("{:15} |{:^10}|{:^10}|{:^10}|", "a tag that is too long", "12345678901", "", "1234567890")
    );
    assert_eq!(
        StatsLine::new([u32::MAX as u64 * 255, 0]).to_text(""),
        format!("{:15} |{:^10}|{:^10}|{:^10}|", "", 1095216660225u64, 1095216660225u64, 0)
    );
}
