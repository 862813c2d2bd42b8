use easy_flashcards::flashcards::{CardSet, Flashcard, FlashcardText, RecallSettings, Side};
use easy_flashcards::input::Key;
use easy_flashcards::output::text_box::{MultiOutlineType, OutlineType};
use easy_flashcards::output::{Color, TerminalSettings};
use easy_flashcards::study::learn::world::card_list::StudyType;
use easy_flashcards::study::learn::world::footer::FooterColor;
use easy_flashcards::study::learn::world::{layout, World, WorldType};
use easy_flashcards::vec2::{Rect, Vec2};
use std::ops::ControlFlow;

fn card(term: &str, definition: &str) -> Flashcard {
    Flashcard {
        term: FlashcardText::new(term.to_string()),
        definition: FlashcardText::new(definition.to_string()),
    }
}

fn set(recall_t: (bool, bool), recall_d: (bool, bool), words: &[(&str, &str)]) -> CardSet {
    CardSet {
        recall_t: RecallSettings { matching: recall_t.0, text: recall_t.1 },
        recall_d: RecallSettings { matching: recall_d.0, text: recall_d.1 },
        cards: words.iter().map(|(term, definition)| card(term, definition)).collect(),
    }
}

fn animals() -> Vec<(&'static str, &'static str)> {
    vec![("cat", "Katze"), ("dog", "Hund"), ("bird", "Vogel"), ("fish", "Fisch"), ("horse", "Pferd")]
}

fn start(words: &CardSet) -> World<'_> {
    World::new(Vec2::new(80, 24), words, TerminalSettings::new())
}

fn counts(world: &World) -> [u32; 4] {
    let footer = world.footer();
    [
        footer.count(FooterColor::Black),
        footer.count(FooterColor::Red),
        footer.count(FooterColor::Yellow),
        footer.count(FooterColor::Green),
    ]
}

fn studying(world: &World) -> easy_flashcards::study::learn::world::card_list::Token {
    match world.typ() {
        Some(WorldType::Matching { studying, .. }) => *studying,
        Some(WorldType::Text { studying }) => *studying,
        Some(WorldType::TextFailed { studying, .. }) => *studying,
        _ => panic!("nothing is studied"),
    }
}

fn right_answer(world: &World) -> String {
    let item = &world.card_list()[studying(world)];
    item.card[item.side].display().to_string()
}

fn key_of(choice: usize) -> Key {
    Key::Char(['1', '2', '3', '4'][choice])
}

fn right_choice(world: &World) -> Key {
    let right = right_answer(world);
    let boxes = world.matching_answers_boxes();
    key_of((0..4).find(|i| boxes.text(*i) == Some(&right)).unwrap())
}

fn wrong_choice(world: &World) -> Key {
    let right = right_answer(world);
    let boxes = world.matching_answers_boxes();
    key_of((0..4).find(|i| boxes.text(*i) != Some(&right)).unwrap())
}

fn type_text(world: &mut World, text: &str) {
    for c in text.chars() {
        assert_eq!(world.key_pressed(Key::Char(c)), ControlFlow::Continue(()));
    }
}

#[test]
fn accepts_a_set_that_can_be_studied() {
    assert!(World::accepts(&set((true, false), (false, false), &animals())));
    assert!(World::accepts(&set((false, false), (false, false), &animals())));
    assert!(!World::accepts(&set((true, false), (false, false), &[])));
    let mut broken = set((true, false), (false, false), &animals());
    broken.cards.push(Flashcard { term: FlashcardText::empty(), definition: FlashcardText::empty() });
    assert!(!World::accepts(&broken));
}

#[test]
fn end_to_end_with_one_card_and_matching() {
    let words = set((true, false), (false, false), &[("cat", "Katze")]);
    let mut world = start(&words);
    let token = studying(&world);
    assert!(matches!(world.typ(), Some(WorldType::Matching { failed: false, .. })));
    assert_eq!(world.card_list()[token].next_study_type, StudyType::Matching(false));
    assert_eq!(world.card_list()[token].footer_color, FooterColor::Black);
    assert_eq!(counts(&world), [1, 0, 0, 0]);

    assert_eq!(world.key_pressed(Key::Char('1')), ControlFlow::Continue(()));
    assert!(matches!(world.typ(), Some(WorldType::WaitingForKeypress)));
    assert_eq!(world.card_list()[token].next_study_type, StudyType::Matching(true));
    assert_eq!(world.card_list()[token].footer_color, FooterColor::Yellow);
    assert_eq!(counts(&world), [0, 0, 1, 0]);

    assert_eq!(world.key_pressed(Key::Other), ControlFlow::Continue(()));
    assert!(matches!(world.typ(), Some(WorldType::Matching { failed: false, .. })));
    assert_eq!(world.key_pressed(Key::Char('3')), ControlFlow::Continue(()));
    assert_eq!(world.card_list().remaining_unstudied(), 0);
    assert_eq!(counts(&world), [0, 0, 0, 1]);
    assert!(world.card_list().next_unstudied(None).is_none());

    assert_eq!(world.key_pressed(Key::Other), ControlFlow::Break(()));
    assert!(world.typ().is_none());
    assert_eq!(world.key_pressed(Key::Other), ControlFlow::Break(()));
    assert_eq!(world.matches_made(), [2, 0]);
    assert_eq!(world.texts_entered(), [0, 0]);
}

#[test]
fn matching_question_shows_the_other_side_and_four_choices() {
    let words = set((true, false), (false, false), &animals());
    let world = start(&words);
    let item = &world.card_list()[studying(&world)];
    assert_eq!(item.side, Side::Term);
    let question = world.question_box().get_text().clone().unwrap();
    assert_eq!(question, item.card.definition.display());
    assert_eq!(world.question_box().text_color(), Color::White);
    assert_eq!(world.question_box().outline_type(), Some(OutlineType::double()));
    let boxes = world.matching_answers_boxes();
    assert_eq!(boxes.outline_type(), Some(MultiOutlineType::double_light()));
    let right = right_answer(&world);
    assert_eq!((0..4).filter(|i| boxes.text(*i) == Some(&right)).count(), 1);
    for i in 0..4 {
        assert_eq!(boxes.color(i), Color::White);
    }
    assert_eq!(world.text_input().outline_type(), None);
}

#[test]
fn keys_without_meaning_are_ignored_in_matching() {
    let words = set((true, false), (false, false), &animals());
    let mut world = start(&words);
    for key in [Key::Char('5'), Key::Char('0'), Key::Char('a'), Key::Enter, Key::BackTab, Key::Other] {
        assert_eq!(world.key_pressed(key), ControlFlow::Continue(()));
        assert!(matches!(world.typ(), Some(WorldType::Matching { failed: false, .. })));
    }
    assert_eq!(counts(&world), [5, 0, 0, 0]);
    assert_eq!(world.matches_made(), [0, 0]);
}

#[test]
fn wrong_choices_regress_once_and_fail_each_time() {
    let words = set((true, false), (false, false), &animals());
    let mut world = start(&words);
    let key = right_choice(&world);
    world.key_pressed(key);
    world.key_pressed(Key::Other);
    while world.card_list()[studying(&world)].next_study_type != StudyType::Matching(true) {
        let key = right_choice(&world);
        world.key_pressed(key);
        world.key_pressed(Key::Other);
    }
    let token = studying(&world);
    let before = counts(&world);
    let made = world.matches_made();

    let wrong = wrong_choice(&world);
    world.key_pressed(wrong);
    assert!(matches!(world.typ(), Some(WorldType::Matching { failed: true, .. })));
    assert_eq!(world.card_list()[token].next_study_type, StudyType::Matching(false));
    assert_eq!(world.card_list()[token].match_fails.count(), 1);
    assert_eq!(counts(&world), [before[0] + 1, before[1], before[2] - 1, before[3]]);
    assert_eq!(world.matches_made(), [made[0] + 1, made[1]]);
    let after_first = counts(&world);

    world.key_pressed(wrong);
    assert_eq!(world.card_list()[token].next_study_type, StudyType::Matching(false));
    assert_eq!(world.card_list()[token].match_fails.count(), 2);
    assert_eq!(counts(&world), after_first);
    assert_eq!(world.matches_made(), [made[0] + 1, made[1]]);

    let right = right_choice(&world);
    world.key_pressed(right);
    assert!(matches!(world.typ(), Some(WorldType::WaitingForKeypress)));
    assert_eq!(world.card_list()[token].next_study_type, StudyType::Matching(false));
    assert_eq!(counts(&world), after_first);
    assert_eq!(world.matches_made(), [made[0] + 1, made[1]]);
}

#[test]
fn choices_turn_green_or_red() {
    let words = set((true, false), (false, false), &animals());
    let mut world = start(&words);
    let wrong = wrong_choice(&world);
    let right = right_choice(&world);
    let index = |key: Key| match key {
        Key::Char(c) => c as usize - '1' as usize,
        _ => unreachable!(),
    };
    world.key_pressed(wrong);
    assert_eq!(world.matching_answers_boxes().color(index(wrong)), Color::Red);
    assert_eq!(world.matching_answers_boxes().color(index(right)), Color::White);
    world.key_pressed(right);
    assert_eq!(world.matching_answers_boxes().color(index(right)), Color::Green);
    assert_eq!(
        world.question_box().get_text().clone().unwrap(),
        "Correct!  Press any key to continue"
    );
    assert_eq!(world.question_box().text_color(), Color::Green);
}

#[test]
fn text_question_is_answered_by_typing() {
    let words = set((false, true), (false, false), &[("cat", "Katze")]);
    let mut world = start(&words);
    let token = studying(&world);
    assert!(matches!(world.typ(), Some(WorldType::Text { .. })));
    assert_eq!(world.question_box().get_text().clone().unwrap(), "Katze");
    assert_eq!(world.text_input().outline_type(), Some(OutlineType::double()));
    assert!(!world.term_settings().cursor_hidden());
    assert_eq!(world.matching_answers_boxes().outline_type(), None);

    type_text(&mut world, " CaT ");
    assert_eq!(world.text_input().get_text(), " CaT ");
    assert!(matches!(world.typ(), Some(WorldType::Text { .. })));
    assert_eq!(world.key_pressed(Key::Enter), ControlFlow::Continue(()));
    assert!(matches!(world.typ(), Some(WorldType::WaitingForKeypress)));
    assert_eq!(world.card_list()[token].next_study_type, StudyType::Text(true));
    assert_eq!(counts(&world), [0, 0, 1, 0]);
    assert_eq!(world.texts_entered(), [1, 0]);
    assert!(world.term_settings().cursor_hidden());

    world.key_pressed(Key::Other);
    assert!(matches!(world.typ(), Some(WorldType::Text { .. })));
    assert_eq!(world.text_input().get_text(), "");
    type_text(&mut world, "cat");
    world.key_pressed(Key::Enter);
    assert_eq!(counts(&world), [0, 0, 0, 1]);
    assert_eq!(world.key_pressed(Key::Other), ControlFlow::Break(()));
    assert_eq!(world.texts_entered(), [2, 0]);
}

#[test]
fn wrong_text_shows_the_answer_and_waits_for_the_right_text() {
    let words = set((false, true), (false, false), &[("cat", "Katze")]);
    let mut world = start(&words);
    let token = studying(&world);
    type_text(&mut world, "cat");
    world.key_pressed(Key::Enter);
    world.key_pressed(Key::Other);
    assert_eq!(world.card_list()[token].next_study_type, StudyType::Text(true));

    type_text(&mut world, "cow");
    world.key_pressed(Key::Enter);
    match world.typ() {
        Some(WorldType::TextFailed { hidden_question, .. }) => {
            assert_eq!(hidden_question.as_deref(), Some("Katze"));
        }
        other => panic!("unexpected state {other:?}"),
    }
    assert_eq!(
        world.question_box().get_text().clone().unwrap(),
        "Incorrect!  Shift-Tab: typo, I know this"
    );
    assert_eq!(world.question_box().text_color(), Color::Red);
    assert_eq!(world.text_input().correct_answer().as_deref(), Some("cat"));
    assert_eq!(world.card_list()[token].next_study_type, StudyType::Text(false));
    assert_eq!(world.card_list()[token].text_fails.count(), 1);
    assert_eq!(counts(&world), [1, 0, 0, 0]);
    assert_eq!(world.texts_entered(), [2, 0]);

    world.key_pressed(Key::Backspace);
    assert_eq!(world.question_box().get_text().clone().unwrap(), "Katze");
    assert_eq!(world.question_box().text_color(), Color::White);
    assert!(matches!(
        world.typ(),
        Some(WorldType::TextFailed { hidden_question: None, .. })
    ));
    world.key_pressed(Key::Backspace);
    assert_eq!(world.text_input().get_text(), "c");
    world.key_pressed(Key::Char('a'));
    assert!(matches!(world.typ(), Some(WorldType::TextFailed { .. })));
    assert_eq!(world.key_pressed(Key::Char('t')), ControlFlow::Continue(()));
    assert!(matches!(world.typ(), Some(WorldType::Text { .. })));
    assert_eq!(world.card_list()[studying(&world)].next_study_type, StudyType::Text(false));
    assert_eq!(world.card_list()[studying(&world)].text_fails.count(), 1);
    assert_eq!(counts(&world), [1, 0, 0, 0]);
    assert_eq!(world.texts_entered(), [2, 0]);
}

#[test]
fn override_after_a_wrong_text_progresses_twice() {
    let words = set((true, true), (false, false), &[("cat", "Katze")]);
    let mut world = start(&words);
    world.key_pressed(Key::Char('1'));
    world.key_pressed(Key::Other);
    assert!(matches!(world.typ(), Some(WorldType::Text { .. })));
    assert_eq!(counts(&world), [0, 1, 0, 0]);
    type_text(&mut world, "cow");
    world.key_pressed(Key::Enter);
    assert!(matches!(world.typ(), Some(WorldType::TextFailed { .. })));
    assert_eq!(counts(&world), [1, 0, 0, 0]);
    assert_eq!(world.key_pressed(Key::BackTab), ControlFlow::Continue(()));
    let token = studying(&world);
    assert!(matches!(world.typ(), Some(WorldType::Text { .. })));
    assert_eq!(world.card_list()[token].next_study_type, StudyType::Text(true));
    assert_eq!(counts(&world), [0, 0, 1, 0]);
    assert!(world.term_settings().cursor_hidden() || matches!(world.typ(), Some(WorldType::Text { .. })));
}

#[test]
fn override_at_the_last_stage_masters_the_item() {
    let words = set((false, true), (false, false), &[("cat", "Katze")]);
    let mut world = start(&words);
    type_text(&mut world, "cat");
    world.key_pressed(Key::Enter);
    world.key_pressed(Key::Other);
    type_text(&mut world, "cow");
    world.key_pressed(Key::Enter);
    assert_eq!(world.key_pressed(Key::BackTab), ControlFlow::Break(()));
    assert!(world.typ().is_none());
    assert_eq!(counts(&world), [0, 0, 0, 1]);
    let stats = world.stats();
    assert_eq!(stats.fails.len(), 1);
    assert_eq!(stats.fails[0].count.count(), 1);
    assert_eq!(stats.fails[0].text, "Katze");
}

#[test]
fn footer_total_is_kept_through_a_session() {
    let words = set((true, true), (true, false), &animals());
    let mut world = start(&words);
    let mut steps = 0u32;
    loop {
        assert_eq!(counts(&world).iter().sum::<u32>(), 10);
        let key = match world.typ() {
            Some(WorldType::Matching { .. }) => {
                if steps < 60 && steps % 4 == 1 {
                    wrong_choice(&world)
                } else {
                    right_choice(&world)
                }
            }
            Some(WorldType::Text { .. }) => {
                if world.text_input().get_text() == right_answer(&world) {
                    Key::Enter
                } else if steps < 60 && steps % 5 == 2 {
                    Key::Enter
                } else {
                    let answer = right_answer(&world);
                    let done = world.text_input().get_text().chars().count();
                    Key::Char(answer.chars().nth(done).unwrap())
                }
            }
            Some(WorldType::TextFailed { .. }) => {
                let answer = right_answer(&world);
                let typed = world.text_input().get_text();
                if answer.starts_with(&typed) {
                    Key::Char(answer.chars().nth(typed.chars().count()).unwrap())
                } else {
                    Key::Backspace
                }
            }
            Some(WorldType::WaitingForKeypress) => Key::Other,
            None => break,
        };
        steps += 1;
        assert!(steps < 10_000);
        if world.key_pressed(key) == ControlFlow::Break(()) {
            break;
        }
    }
    assert_eq!(counts(&world), [0, 0, 0, 10]);
    assert_eq!(world.card_list().remaining_unstudied(), 0);
}

#[test]
fn stats_tally_attempts_and_failures() {
    let words = set((true, false), (false, false), &[("cat", "Katze"), ("dog", "Hund")]);
    let mut world = start(&words);
    let wrong = wrong_choice(&world);
    world.key_pressed(wrong);
    world.key_pressed(wrong);
    let right = right_choice(&world);
    world.key_pressed(right);
    let stats = world.stats();
    assert_eq!(stats.matches.made.term, 1);
    assert_eq!(stats.matches.made.definition, 0);
    assert_eq!(stats.matches.made.total, 1);
    assert_eq!(stats.matches.fails.term, 2);
    assert_eq!(stats.matches.fails.total, 2);
    assert!(stats.matches.is_used());
    assert!(!stats.texts.is_used());
    assert_eq!(stats.texts.made.total, 0);
    assert!(stats.total.is_none());
    assert_eq!(stats.fails.len(), 1);
    assert_eq!(stats.fails[0].count.count(), 2);
}

#[test]
fn resize_moves_the_boxes_and_keeps_the_state() {
    let words = set((true, false), (false, false), &animals());
    let mut world = start(&words);
    let placed = layout(Vec2::new(80, 24));
    assert_eq!(world.question_box().dims(), placed.question);
    let question = world.question_box().get_text().clone();
    world.resize(Vec2::new(120, 50));
    let placed = layout(Vec2::new(120, 50));
    assert_eq!(world.question_box().dims(), placed.question);
    assert_eq!(world.text_input().dims(), placed.input);
    assert_eq!(world.footer().width(), 120);
    assert_eq!(world.footer().row(), 49);
    assert_eq!(*world.question_box().get_text(), question);
    assert_eq!(counts(&world), [5, 0, 0, 0]);
    assert!(matches!(world.typ(), Some(WorldType::Matching { .. })));
}

#[test]
fn layout_places_the_boxes() {
    let placed = layout(Vec2::new(90, 27));
    assert_eq!(placed.question, Rect { size: Vec2::new(30, 10), pos: Vec2::new(30, 2) });
    assert_eq!(placed.answers, Rect { size: Vec2::new(82, 10), pos: Vec2::new(4, 14) });
    assert_eq!(placed.input, Rect { size: Vec2::new(30, 10), pos: Vec2::new(30, 14) });
    let tiny = layout(Vec2::new(3, 2));
    assert_eq!(tiny.question, Rect { size: Vec2::new(1, 0), pos: Vec2::new(1, 2) });
    assert_eq!(tiny.answers, Rect { size: Vec2::new(0, 0), pos: Vec2::new(4, 0) });
}
