use easy_flashcards::flashcards::RecallSettings;
use easy_flashcards::study::learn::world::card_list::StudyType;
use easy_flashcards::study::learn::world::footer::FooterColor;

fn settings(matching: bool, text: bool) -> RecallSettings {
    RecallSettings { matching, text }
}

fn answers_to_mastery(settings: &RecallSettings) -> u32 {
    let mut stage = StudyType::first(settings).unwrap();
    let mut answers = 1;
    while let (Some(next), _) = stage.progress(settings) {
        stage = next;
        answers += 1;
    }
    answers
}

#[test]
fn first_stage_prefers_matching() {
    assert_eq!(StudyType::first(&settings(false, false)), None);
    assert_eq!(StudyType::first(&settings(true, false)), Some(StudyType::Matching(false)));
    assert_eq!(StudyType::first(&settings(false, true)), Some(StudyType::Text(false)));
    assert_eq!(StudyType::first(&settings(true, true)), Some(StudyType::Matching(false)));
}

#[test]
fn both_modes_progress_through_three_stages() {
    let both = settings(true, true);
    let start = StudyType::first(&both).unwrap();
    assert_eq!(start, StudyType::Matching(false));
    let (second, color) = start.progress(&both);
    assert_eq!(second, Some(StudyType::Text(false)));
    assert_eq!(color, FooterColor::Red);
    let (third, color) = second.unwrap().progress(&both);
    assert_eq!(third, Some(StudyType::Text(true)));
    assert_eq!(color, FooterColor::Yellow);
    let (last, color) = third.unwrap().progress(&both);
    assert_eq!(last, None);
    assert_eq!(color, FooterColor::Green);
}

#[test]
fn matching_alone_progresses_through_two_stages() {
    let only = settings(true, false);
    assert_eq!(
        StudyType::Matching(false).progress(&only),
        (Some(StudyType::Matching(true)), FooterColor::Yellow)
    );
    assert_eq!(StudyType::Matching(true).progress(&only), (None, FooterColor::Green));
}

#[test]
fn text_alone_progresses_through_two_stages() {
    let only = settings(false, true);
    assert_eq!(
        StudyType::Text(false).progress(&only),
        (Some(StudyType::Text(true)), FooterColor::Yellow)
    );
    assert_eq!(StudyType::Text(true).progress(&only), (None, FooterColor::Green));
}

#[test]
fn mastery_takes_two_answers_with_one_mode_and_three_with_both() {
    assert_eq!(answers_to_mastery(&settings(true, false)), 2);
    assert_eq!(answers_to_mastery(&settings(false, true)), 2);
    assert_eq!(answers_to_mastery(&settings(true, true)), 3);
}

#[test]
fn regression_with_both_modes_is_asymmetric() {
    let both = settings(true, true);
    assert_eq!(
        StudyType::Text(false).regress(&both),
        Some((StudyType::Matching(false), FooterColor::Black))
    );
    assert_eq!(
        StudyType::Text(true).regress(&both),
        Some((StudyType::Text(false), FooterColor::Red))
    );
    assert_eq!(StudyType::Matching(false).regress(&both), None);
}

#[test]
fn regression_with_one_mode_drops_one_stage() {
    assert_eq!(
        StudyType::Matching(true).regress(&settings(true, false)),
        Some((StudyType::Matching(false), FooterColor::Black))
    );
    assert_eq!(
        StudyType::Text(true).regress(&settings(false, true)),
        Some((StudyType::Text(false), FooterColor::Black))
    );
}

#[test]
fn entry_stage_never_regresses() {
    assert_eq!(StudyType::Matching(false).regress(&settings(true, false)), None);
    assert_eq!(StudyType::Text(false).regress(&settings(false, true)), None);
    assert_eq!(StudyType::Matching(false).regress(&settings(true, true)), None);
}

#[test]
fn second_regression_changes_nothing_more() {
    let only = settings(true, false);
    let (back, _) = StudyType::Matching(true).regress(&only).unwrap();
    assert_eq!(back.regress(&only), None);
    let both = settings(true, true);
    let (back, _) = StudyType::Text(false).regress(&both).unwrap();
    assert_eq!(back.regress(&both), None);
}

#[test]
fn recall_settings_are_used_if_a_mode_is_on() {
    assert!(!settings(false, false).is_used());
    assert!(settings(true, false).is_used());
    assert!(settings(false, true).is_used());
    assert!(settings(true, true).is_used());
    assert_eq!(RecallSettings::default(), settings(false, false));
}
