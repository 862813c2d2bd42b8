use easy_flashcards::flashcards::{CardSet, Flashcard, FlashcardText, RecallSettings, Side};
use easy_flashcards::study::learn::world::card_list::{CardList, FailedItem, StudyType, Token};
use easy_flashcards::study::learn::world::footer::{Footer, FooterColor};
use easy_flashcards::vec2::Vec2;

fn card(term: &str, definition: &str) -> Flashcard {
    Flashcard {
        term: FlashcardText::new(term.to_string()),
        definition: FlashcardText::new(definition.to_string()),
    }
}

fn set(recall_t: (bool, bool), recall_d: (bool, bool), words: &[(&str, &str)]) -> CardSet {
    CardSet {
        recall_t: RecallSettings { matching: recall_t.0, text: recall_t.1 },
        recall_d: RecallSettings { matching: recall_d.0, text: recall_d.1 },
        cards: words.iter().map(|(term, definition)| card(term, definition)).collect(),
    }
}

fn animals() -> Vec<(&'static str, &'static str)> {
    vec![("cat", "Katze"), ("dog", "Hund"), ("bird", "Vogel"), ("fish", "Fisch"), ("horse", "Pferd")]
}

fn counts(footer: &Footer) -> [u32; 4] {
    [
        footer.count(FooterColor::Black),
        footer.count(FooterColor::Red),
        footer.count(FooterColor::Yellow),
        footer.count(FooterColor::Green),
    ]
}

fn footer_for(list: &CardList) -> Footer {
    Footer::new(list.remaining_unstudied() as u32, Vec2::new(80, 24))
}

fn token_of(list: &CardList) -> Token {
    list.next_unstudied(None).unwrap().token()
}

#[test]
fn from_set_makes_an_item_for_each_card_and_used_side() {
    let words = set((true, false), (false, true), &animals());
    let list = CardList::from_set(&words);
    assert_eq!(list.remaining_unstudied(), 10);
    let words = set((true, true), (false, false), &animals());
    let list = CardList::from_set(&words);
    assert_eq!(list.remaining_unstudied(), 5);
}

#[test]
fn from_set_without_used_side_is_empty() {
    let words = set((false, false), (false, false), &animals());
    let list = CardList::from_set(&words);
    assert_eq!(list.remaining_unstudied(), 0);
    assert!(list.next_unstudied(None).is_none());
}

#[test]
fn from_set_seeds_every_item_at_the_entry_stage() {
    let words = set((true, true), (false, true), &animals());
    let list = CardList::from_set(&words);
    let mut seen_term = 0;
    let mut seen_definition = 0;
    for _ in 0..500 {
        let found = list.next_unstudied(None).unwrap();
        let item = found.item();
        assert_eq!(item.footer_color, FooterColor::Black);
        assert!(!item.match_fails.has_failed());
        assert!(!item.text_fails.has_failed());
        match item.side {
            Side::Term => {
                assert_eq!(item.next_study_type, StudyType::Matching(false));
                seen_term += 1;
            }
            Side::Definition => {
                assert_eq!(item.next_study_type, StudyType::Text(false));
                seen_definition += 1;
            }
        }
    }
    assert!(seen_term > 0);
    assert!(seen_definition > 0);
}

#[test]
fn next_unstudied_names_an_item_of_the_list() {
    let words = set((true, false), (false, false), &animals());
    let list = CardList::from_set(&words);
    for _ in 0..200 {
        let found = list.next_unstudied(None).unwrap();
        assert!(list.is_current(found.token()));
        let (item, token) = found.tup();
        assert_eq!(token, found.token());
        assert_eq!(item.side, Side::Term);
        assert_eq!(list[token].side, Side::Term);
    }
}

#[test]
fn next_unstudied_with_one_item_returns_it_again() {
    let words = set((true, false), (false, false), &[("cat", "Katze")]);
    let list = CardList::from_set(&words);
    let first = token_of(&list);
    for _ in 0..20 {
        assert_eq!(list.next_unstudied(Some(first)).unwrap().token(), first);
    }
}

#[test]
fn next_unstudied_mostly_avoids_the_last_item() {
    let words = set((true, false), (false, false), &animals());
    let list = CardList::from_set(&words);
    let mut last = token_of(&list);
    let mut repeats = 0;
    for _ in 0..1000 {
        let next = list.next_unstudied(Some(last)).unwrap().token();
        if next == last {
            repeats += 1;
        }
        last = next;
    }
    assert!(repeats < 10);
}

#[test]
fn progress_moves_an_item_and_the_footer() {
    let words = set((true, true), (false, false), &[("cat", "Katze")]);
    let mut list = CardList::from_set(&words);
    let mut footer = footer_for(&list);
    let token = token_of(&list);
    assert_eq!(counts(&footer), [1, 0, 0, 0]);
    list.progress(token, &mut footer);
    assert_eq!(list[token].next_study_type, StudyType::Text(false));
    assert_eq!(list[token].footer_color, FooterColor::Red);
    assert_eq!(counts(&footer), [0, 1, 0, 0]);
    list.progress(token, &mut footer);
    assert_eq!(list[token].next_study_type, StudyType::Text(true));
    assert_eq!(list[token].footer_color, FooterColor::Yellow);
    assert_eq!(counts(&footer), [0, 0, 1, 0]);
    list.progress(token, &mut footer);
    assert_eq!(list.remaining_unstudied(), 0);
    assert_eq!(counts(&footer), [0, 0, 0, 1]);
    assert!(list.next_unstudied(None).is_none());
}

#[test]
fn mastery_invalidates_tokens() {
    let words = set((true, false), (false, false), &animals());
    let mut list = CardList::from_set(&words);
    let mut footer = footer_for(&list);
    let token = token_of(&list);
    list.progress(token, &mut footer);
    assert!(list.is_current(token));
    list.progress(token, &mut footer);
    assert!(!list.is_current(token));
    assert_eq!(list.remaining_unstudied(), 4);
    let fresh = token_of(&list);
    assert!(list.is_current(fresh));
}

#[test]
fn regress_moves_an_item_back() {
    let words = set((true, true), (false, false), &[("cat", "Katze")]);
    let mut list = CardList::from_set(&words);
    let mut footer = footer_for(&list);
    let token = token_of(&list);
    list.regress(token, &mut footer);
    assert_eq!(list[token].next_study_type, StudyType::Matching(false));
    assert_eq!(counts(&footer), [1, 0, 0, 0]);
    list.progress(token, &mut footer);
    list.progress(token, &mut footer);
    list.regress(token, &mut footer);
    assert_eq!(list[token].next_study_type, StudyType::Text(false));
    assert_eq!(list[token].footer_color, FooterColor::Red);
    assert_eq!(counts(&footer), [0, 1, 0, 0]);
    list.regress(token, &mut footer);
    assert_eq!(list[token].next_study_type, StudyType::Matching(false));
    assert_eq!(list[token].footer_color, FooterColor::Black);
    assert_eq!(counts(&footer), [1, 0, 0, 0]);
}

#[test]
fn footer_total_stays_the_item_count() {
    let words = set((true, true), (true, false), &animals());
    let mut list = CardList::from_set(&words);
    let mut footer = footer_for(&list);
    let total = counts(&footer).iter().sum::<u32>();
    assert_eq!(total, 10);
    let mut step = 0u32;
    while let Some(found) = list.next_unstudied(None) {
        let token = found.token();
        if step % 3 == 2 {
            list.fail(token);
            list.regress(token, &mut footer);
        } else {
            list.progress(token, &mut footer);
        }
        step += 1;
        assert_eq!(counts(&footer).iter().sum::<u32>(), total);
        assert_eq!(
            footer.count(FooterColor::Green) as usize + list.remaining_unstudied(),
            total as usize
        );
    }
    assert_eq!(counts(&footer), [0, 0, 0, 10]);
}

#[test]
fn fail_counts_in_the_mode_of_the_stage() {
    let words = set((true, true), (false, false), &[("cat", "Katze")]);
    let mut list = CardList::from_set(&words);
    let mut footer = footer_for(&list);
    let token = token_of(&list);
    list.fail(token);
    list.fail(token);
    assert_eq!(list[token].match_fails.count(), 2);
    assert_eq!(list[token].text_fails.count(), 0);
    assert_eq!(list[token].next_study_type, StudyType::Matching(false));
    list.progress(token, &mut footer);
    list.fail(token);
    assert_eq!(list[token].match_fails.count(), 2);
    assert_eq!(list[token].text_fails.count(), 1);
}

#[test]
fn fails_lists_a_card_that_failed_once() {
    let words = set((true, false), (false, false), &[("cat", "Katze")]);
    let mut list = CardList::from_set(&words);
    let mut footer = footer_for(&list);
    let token = token_of(&list);
    list.fail(token);
    list.regress(token, &mut footer);
    list.progress(token, &mut footer);
    list.progress(token, &mut footer);
    assert_eq!(list.remaining_unstudied(), 0);
    let fails = list.fails();
    assert_eq!(fails.len(), 1);
    assert_eq!(fails[0].total_fails().count(), 1);
    assert_eq!(fails[0].side, Side::Term);
    assert_eq!(fails[0].card.term.display(), "cat");
}

#[test]
fn fails_leaves_out_a_card_mastered_without_failure() {
    let words = set((true, false), (false, false), &[("cat", "Katze")]);
    let mut list = CardList::from_set(&words);
    let mut footer = footer_for(&list);
    let token = token_of(&list);
    list.progress(token, &mut footer);
    list.progress(token, &mut footer);
    assert!(list.fails().is_empty());
}

#[test]
fn fails_includes_active_items_and_does_not_count_twice() {
    let words = set((true, false), (false, false), &[("cat", "Katze")]);
    let mut list = CardList::from_set(&words);
    let token = token_of(&list);
    list.fail(token);
    assert_eq!(list.fails().len(), 1);
    assert_eq!(list.fails().len(), 1);
    assert_eq!(list.remaining_unstudied(), 1);
}

#[test]
fn failed_item_is_made_from_an_item() {
    let words = set((true, true), (false, false), &[("cat", "Katze")]);
    let mut list = CardList::from_set(&words);
    let token = token_of(&list);
    list.fail(token);
    let record = FailedItem::from(&list[token]);
    assert_eq!(record.side, Side::Term);
    assert_eq!(record.match_fails.count(), 1);
    assert_eq!(record.text_fails.count(), 0);
    assert_eq!(record.total_fails().count(), 1);
}

#[test]
fn matching_answers_hold_the_right_answer() {
    let words = set((true, false), (true, false), &animals());
    let list = CardList::from_set(&words);
    for _ in 0..100 {
        let found = list.next_unstudied(None).unwrap();
        let item = found.item();
        let right = item.card[item.side].display().to_string();
        let answers = list.matching_answers_for(item);
        assert_eq!(answers.iter().filter(|answer| **answer == right).count(), 1);
        for answer in &answers {
            assert!(words.cards.iter().any(|card| card[item.side].display() == answer));
        }
    }
}

#[test]
fn matching_answers_are_shuffled() {
    let words = set((true, false), (false, false), &animals());
    let list = CardList::from_set(&words);
    let found = list.next_unstudied(None).unwrap();
    let item = found.item();
    let right = item.card[item.side].display().to_string();
    let mut places = [0u32; 4];
    for _ in 0..200 {
        let answers = list.matching_answers_for(item);
        let place = answers.iter().position(|answer| *answer == right).unwrap();
        places[place] += 1;
    }
    assert!(places.iter().all(|count| *count > 0));
}

#[test]
fn matching_answers_of_a_small_deck_repeat() {
    let words = set((true, false), (false, false), &[("cat", "Katze"), ("dog", "Hund")]);
    let list = CardList::from_set(&words);
    let found = list.next_unstudied(None).unwrap();
    let item = found.item();
    let right = item.card[item.side].display().to_string();
    let answers = list.matching_answers_for(item);
    assert_eq!(answers.len(), 4);
    assert!(answers.contains(&right));
    assert!(answers.iter().all(|answer| answer == "cat" || answer == "dog"));
}

#[test]
fn recall_settings_come_from_the_set() {
    let words = set((true, false), (false, true), &animals());
    let list = CardList::from_set(&words);
    assert_eq!(*list.recall_settings(Side::Term), RecallSettings { matching: true, text: false });
    assert_eq!(
        *list.recall_settings(Side::Definition),
        RecallSettings { matching: false, text: true }
    );
}

#[test]
fn another_place_is_drawn_only_for_the_item_asked_last() {
    let words = set((true, false), (false, false), &animals());
    let list = CardList::from_set(&words);
    let last = token_of(&list);
    let again = (0..5).filter(|&place| CardList::draws_again(place, Some(last), 1)).count();
    assert_eq!(again, 1);
    let again = (0..5).filter(|&place| CardList::draws_again(place, Some(last), 11)).count();
    assert_eq!(again, 1);
    let again = (0..5).filter(|&place| CardList::draws_again(place, Some(last), 12)).count();
    assert_eq!(again, 0);
    let again = (0..5).filter(|&place| CardList::draws_again(place, None, 1)).count();
    assert_eq!(again, 0);
}

#[test]
fn another_choice_is_drawn_only_for_a_text_chosen_before() {
    let chosen = vec!["Katze".to_string(), "Hund".to_string()];
    assert!(CardList::draws_another(&chosen, &"Katze".to_string(), 1));
    assert!(CardList::draws_another(&chosen, &"Hund".to_string(), 11));
    assert!(!CardList::draws_another(&chosen, &"Hund".to_string(), 12));
    assert!(!CardList::draws_another(&chosen, &"Vogel".to_string(), 1));
    assert!(!CardList::draws_another(&Vec::new(), &"Katze".to_string(), 1));
}
