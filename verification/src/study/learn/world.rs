//! The study session: what is asked at the moment, what a key press makes
//! of it, and the tallies for the report at the end.

pub mod card_list;
pub mod footer;
pub mod stats;

use self::card_list::{answer_draw, in_step, CardList, ListModel, StudyType, Token};
use self::footer::{Footer, FooterModel};
use self::stats::{FailLine, Stats};
use crate::chars::views;
use crate::flashcards::{matches_any, CardSet, Side};
use crate::input::text::{InputModel, TextInput};
use crate::input::Key;
use crate::output::text_box::{
    text_view, BoxModel, MultiOutlineType, MultiTextBox, OutlineType, RowModel, TextBox,
};
use crate::output::{Color, TerminalModel, TerminalSettings};
use crate::vec2::{Rect, Vec2};
use core::ops::ControlFlow;
use vstd::prelude::*;

verus! {

/// What the session waits for.
#[derive(Debug)]
pub enum WorldType {
    /// A choice among four answers; `failed` once a wrong one was made.
    Matching { studying: Token, failed: bool },
    /// A typed answer.
    Text { studying: Token },
    /// A typed answer after a wrong one; the question that the verdict took
    /// the place of is kept until the next key.
    TextFailed { studying: Token, hidden_question: Option<String> },
    /// Any key, after a right answer.
    WaitingForKeypress,
}

/// What is shown after a right answer.
pub open spec fn correct_message() -> Seq<char> {
    "Correct!  Press any key to continue"@
}

/// What is shown after a wrong typed answer.
pub open spec fn text_failed_message() -> Seq<char> {
    "Incorrect!  Shift-Tab: typo, I know this"@
}

/// Where the boxes of the study screen stand.
pub struct Layout {
    pub question: Rect<u16>,
    pub answers: Rect<u16>,
    pub input: Rect<u16>,
}

/// The height of the question box and of the answer boxes in a terminal of
/// the given height: half of what seven rows of padding leave.
pub open spec fn box_height(height: u16) -> int {
    if height >= 7 {
        (height - 7) / 2
    } else {
        0
    }
}

/// The row at which the lower boxes start.
pub open spec fn bottom_box_y(height: u16) -> int {
    if height - box_height(height) >= 3 {
        height - box_height(height) - 3
    } else {
        0
    }
}

/// The layout of the study screen in a terminal of the given size: the
/// question in the middle third at the top, the answers across the width
/// less a margin of four, the input below the question.
pub open spec fn layout_of(size: Vec2<u16>) -> Layout {
    let high = box_height(size.y) as u16;
    let low = bottom_box_y(size.y) as u16;
    Layout {
        question: Rect { size: Vec2 { x: size.x / 3, y: high }, pos: Vec2 { x: size.x / 3, y: 2 } },
        answers: Rect {
            size: Vec2 {
                x: if size.x >= 8 {
                    (size.x - 8) as u16
                } else {
                    0
                },
                y: high,
            },
            pos: Vec2 { x: 4, y: low },
        },
        input: Rect { size: Vec2 { x: size.x / 3, y: high }, pos: Vec2 { x: size.x / 3, y: low } },
    }
}

/// Lays the study screen out for a terminal of the given size.
pub fn layout(size: Vec2<u16>) -> (placed: Layout)
    ensures
        placed == layout_of(size),
        MultiTextBox::<4>::fits(placed.answers),
{
    let height_minus_padding = size.y.saturating_sub(7);
    let box_height = height_minus_padding / 2;
    let bottom_box_y = size.y.saturating_sub(box_height).saturating_sub(3);
    Layout {
        question: Rect { size: Vec2::new(size.x / 3, box_height), pos: Vec2::new(size.x / 3, 2) },
        answers: Rect {
            size: Vec2::new(size.x.saturating_sub(8), box_height),
            pos: Vec2::new(4, bottom_box_y),
        },
        input: Rect {
            size: Vec2::new(size.x / 3, box_height),
            pos: Vec2::new(size.x / 3, bottom_box_y),
        },
    }
}

/// What the session waits for, its texts as sequences of characters.
pub enum Pending {
    Matching { studying: Token, failed: bool },
    Text { studying: Token },
    TextFailed { studying: Token, hidden_question: Option<Seq<char>> },
    WaitingForKeypress,
}

impl View for WorldType {
    type V = Pending;

    open spec fn view(&self) -> Pending {
        match *self {
            WorldType::Matching { studying, failed } => Pending::Matching { studying, failed },
            WorldType::Text { studying } => Pending::Text { studying },
            WorldType::TextFailed { studying, hidden_question } => Pending::TextFailed {
                studying,
                hidden_question: text_view(hidden_question),
            },
            WorldType::WaitingForKeypress => Pending::WaitingForKeypress,
        }
    }
}

/// What may be pending, as a model.
pub open spec fn pending_view(typ: Option<WorldType>) -> Option<Pending> {
    match typ {
        Some(typ) => Some(typ@),
        None => None,
    }
}

/// The tallies with one more attempt on `side`.
pub open spec fn counted(tallies: Seq<u32>, side: Side) -> Seq<u32> {
    tallies.update(side.slot(), (tallies[side.slot()] + 1) as u32)
}

/// `answers` are four choices for a matching question about `card`: what
/// was drawn for them, in some order.
pub open spec fn mixed_draw(deck: CardSet, card: crate::flashcards::Flashcard, side: Side, answers: Seq<String>) -> bool {
    exists|drawn: Seq<String>| #[trigger]
        answer_draw(deck, card, side, drawn) && answers.to_multiset() == drawn.to_multiset()
}

/// What a study session stands for.
pub struct WorldModel<'a> {
    pub question_box: BoxModel,
    pub matching_answers_boxes: RowModel,
    pub text_input: InputModel,
    pub footer: FooterModel,
    pub card_list: ListModel<'a>,
    /// The set that is studied.
    pub deck: CardSet,
    pub term_settings: TerminalModel,
    /// The matching questions met, by side.
    pub matches_made: Seq<u32>,
    /// The typed answers entered, by side.
    pub texts_entered: Seq<u32>,
    pub typ: Option<Pending>,
}

impl<'a> WorldModel<'a> {
    /// The item that a token names.
    pub open spec fn item(self, token: Token) -> card_list::Item<'a> {
        self.card_list.items[token@]
    }

    /// The texts that count as right answers for an item.
    pub open spec fn answers_to(self, token: Token) -> Seq<Seq<char>> {
        self.item(token).card.on(self.item(token).side)@.all()
    }

    /// All but what is pending is in order: the list is well formed, the bar
    /// counts what the list holds, every card of the set can be shown, and
    /// the widgets are whole.
    pub open spec fn sound(self) -> bool {
        &&& self.card_list.wf(self.deck)
        &&& self.footer.wf()
        &&& in_step(self.card_list, self.footer)
        &&& self.deck.valid()
        &&& self.deck.cards.len() > 0
        &&& self.matching_answers_boxes.items.len() == 4
        &&& self.text_input.wf()
        &&& self.matches_made.len() == 2
        &&& self.texts_entered.len() == 2
    }

    /// What is pending fits the list: the item asked about is there, at a
    /// stage of the mode in which it is asked.
    pub open spec fn pending_fits(self) -> bool {
        match self.typ {
            Some(Pending::Matching { studying, failed }) => {
                &&& self.card_list.valid_token(studying)
                &&& self.item(studying).next_study_type is Matching
                &&& forall|i: int| 0 <= i < 4 ==> (#[trigger] self.matching_answers_boxes.items[i]).text is Some
            },
            Some(Pending::Text { studying }) => {
                &&& self.card_list.valid_token(studying)
                &&& self.item(studying).next_study_type is Text
            },
            Some(Pending::TextFailed { studying, hidden_question }) => {
                &&& self.card_list.valid_token(studying)
                &&& self.item(studying).next_study_type.spec_progress(
                    self.deck.settings(self.item(studying).side),
                ).0 is Some
            },
            _ => true,
        }
    }

    /// The session is sound and what is pending fits it.
    pub open spec fn wf(self) -> bool {
        self.sound() && self.pending_fits()
    }

    /// No tally of attempts is at its limit.
    pub open spec fn has_room(self) -> bool {
        &&& self.matches_made[0] < u32::MAX
        &&& self.matches_made[1] < u32::MAX
        &&& self.texts_entered[0] < u32::MAX
        &&& self.texts_entered[1] < u32::MAX
    }

    /// The session with another text in the question box.
    pub open spec fn says(self, text: Seq<char>, color: Color) -> WorldModel<'a> {
        WorldModel {
            question_box: BoxModel { text: Some(text), text_color: color, ..self.question_box },
            ..self
        }
    }

    /// The list and the bar after a right answer to the item.
    pub open spec fn progressed(self, token: Token) -> WorldModel<'a> {
        let item = self.item(token);
        WorldModel {
            card_list: self.card_list.progressed(token@, self.deck),
            footer: self.footer.moved(
                item.footer_color,
                item.next_study_type.spec_progress(self.deck.settings(item.side)).1,
            ),
            ..self
        }
    }

    /// The list and the bar after the first wrong answer to the item since
    /// it was shown.
    pub open spec fn regressed(self, token: Token) -> WorldModel<'a> {
        let item = self.item(token);
        WorldModel {
            card_list: self.card_list.regressed(token@, self.deck),
            footer: match item.next_study_type.spec_regress(self.deck.settings(item.side)) {
                Some((_, color)) => self.footer.moved(item.footer_color, color),
                None => self.footer,
            },
            ..self
        }
    }

    /// The list after a wrong answer to the item was counted.
    pub open spec fn failed(self, token: Token) -> WorldModel<'a> {
        WorldModel { card_list: self.card_list.failed(token@), ..self }
    }

    /// The session when the item at `token` is asked by matching, with the
    /// given question and choices.
    pub open spec fn asking_matching(self, token: Token, question: Seq<char>, answers: Seq<Seq<char>>) -> WorldModel<'a> {
        WorldModel {
            typ: Some(Pending::Matching { studying: token, failed: false }),
            text_input: self.text_input.hidden(),
            matching_answers_boxes: self.matching_answers_boxes.showing(
                MultiOutlineType::spec_double_light(),
                answers,
            ),
            ..self.says(question, Color::White)
        }
    }

    /// The session when the item at `token` is asked by typing, with the
    /// given question.
    pub open spec fn asking_text(self, token: Token, question: Seq<char>) -> WorldModel<'a> {
        WorldModel {
            typ: Some(Pending::Text { studying: token }),
            matching_answers_boxes: self.matching_answers_boxes.hidden(),
            text_input: InputModel {
                outline_type: Some(OutlineType::spec_double()),
                text: Seq::empty(),
                cursor: 0,
                correct_answer: None,
                ..self.text_input
            },
            term_settings: TerminalModel { cursor_hidden: false, ..self.term_settings },
            ..self.says(question, Color::White)
        }
    }

    /// A question may be put for the item at `token`: the item is still
    /// studied, and the question is a display text of the side of its card
    /// that is not asked for.
    pub open spec fn may_ask(self, token: Token, question: Seq<char>) -> bool {
        &&& self.card_list.valid_token(token)
        &&& self.item(token).card.on(self.item(token).side.flip())@.displayable.contains(question)
    }

    /// `after` is the session once some item of the list is asked: by
    /// matching, with four choices drawn for it, or by typing, as its stage
    /// says.
    pub open spec fn asks(self, after: WorldModel<'a>) -> bool {
        ||| exists|token: Token, question: Seq<char>, answers: Seq<String>|
            {
                &&& self.may_ask(token, question)
                &&& self.item(token).next_study_type is Matching
                &&& mixed_draw(self.deck, *self.item(token).card, self.item(token).side, answers)
                &&& after == #[trigger] self.asking_matching(token, question, views(answers))
            }
        ||| exists|token: Token, question: Seq<char>|
            {
                &&& self.may_ask(token, question)
                &&& self.item(token).next_study_type is Text
                &&& after == #[trigger] self.asking_text(token, question)
            }
    }

    /// `after` is the session once the next item is asked, or once nothing
    /// is pending because no item is left.
    pub open spec fn presents(self, after: WorldModel<'a>) -> bool {
        if self.card_list.items.len() == 0 {
            after == (WorldModel { typ: None, ..self })
        } else {
            self.asks(after)
        }
    }

    /// In a sound session the bar counts as many items as the study of the
    /// set started with.
    pub proof fn lemma_bar_total(self)
        requires
            self.sound(),
        ensures
            self.footer.total() == self.deck.item_count(),
            self.footer.total() == self.card_list.total(),
    {
        self.card_list.lemma_bar_counts_all(self.footer, self.deck);
    }

    /// A wrong choice that is not the first for its question is counted as
    /// a failure of the item and changes nothing else but the colour of the
    /// choice: the stage and the bucket of the item, the bar and the tally of
    /// attempts stay.
    pub proof fn lemma_later_wrong_choice(self, studying: Token, index: int)
        requires
            self.card_list.valid_token(studying),
        ensures
            self.chose_wrong(studying, true, index).card_list == self.card_list.failed(studying@),
            self.chose_wrong(studying, true, index).item(studying).next_study_type == self.item(
                studying,
            ).next_study_type,
            self.chose_wrong(studying, true, index).item(studying).footer_color == self.item(
                studying,
            ).footer_color,
            self.chose_wrong(studying, true, index).footer == self.footer,
            self.chose_wrong(studying, true, index).matches_made == self.matches_made,
            self.chose_wrong(studying, true, index).typ == Some(Pending::Matching { studying, failed: true }),
    {
    }

    /// A right choice after a wrong one leaves the item where the wrong one
    /// took it: only the first choice for a question moves the item.
    pub proof fn lemma_right_choice_after_wrong(self, studying: Token, index: int)
        ensures
            self.chose_right(studying, true, index).card_list == self.card_list,
            self.chose_right(studying, true, index).footer == self.footer,
            self.chose_right(studying, true, index).matches_made == self.matches_made,
    {
    }

    /// What is asked next does not depend on what was pending.
    pub proof fn lemma_presents_whatever_pends(self, typ: Option<Pending>, after: WorldModel<'a>)
        requires
            self.presents(after),
        ensures
            (WorldModel { typ, ..self }).presents(after),
    {
        let other = WorldModel { typ, ..self };
        if self.card_list.items.len() > 0 {
            if exists|token: Token, question: Seq<char>, answers: Seq<String>|
                {
                    &&& self.may_ask(token, question)
                    &&& self.item(token).next_study_type is Matching
                    &&& mixed_draw(self.deck, *self.item(token).card, self.item(token).side, answers)
                    &&& after == #[trigger] self.asking_matching(token, question, views(answers))
                } {
                let (token, question, answers) = choose|
                    token: Token,
                    question: Seq<char>,
                    answers: Seq<String>,
                |
                    {
                        &&& self.may_ask(token, question)
                        &&& self.item(token).next_study_type is Matching
                        &&& mixed_draw(self.deck, *self.item(token).card, self.item(token).side, answers)
                        &&& after == #[trigger] self.asking_matching(token, question, views(answers))
                    };
                assert(after == other.asking_matching(token, question, views(answers)));
            } else {
                let (token, question) = choose|token: Token, question: Seq<char>|
                    {
                        &&& self.may_ask(token, question)
                        &&& self.item(token).next_study_type is Text
                        &&& after == #[trigger] self.asking_text(token, question)
                    };
                assert(after == other.asking_text(token, question));
            }
        }
    }

    /// The session after choice `index` was made and was right: the choice
    /// turns green and the question box says so; unless a wrong choice was
    /// made before, the attempt is counted and the item moves on.
    pub open spec fn chose_right(self, studying: Token, failed: bool, index: int) -> WorldModel<'a> {
        let base = if failed {
            self
        } else {
            WorldModel {
                matches_made: counted(self.matches_made, self.item(studying).side),
                ..self.progressed(studying)
            }
        };
        WorldModel {
            typ: Some(Pending::WaitingForKeypress),
            matching_answers_boxes: base.matching_answers_boxes.with_color(index, Color::Green),
            ..base.says(correct_message(), Color::Green)
        }
    }

    /// The session after choice `index` was made and was wrong: the choice
    /// turns red and the failure is counted; if it is the first wrong choice,
    /// the attempt is counted too and the item falls back.
    pub open spec fn chose_wrong(self, studying: Token, failed: bool, index: int) -> WorldModel<'a> {
        let base = if failed {
            self.failed(studying)
        } else {
            WorldModel {
                matches_made: counted(self.matches_made, self.item(studying).side),
                ..self.failed(studying).regressed(studying)
            }
        };
        WorldModel {
            typ: Some(Pending::Matching { studying, failed: true }),
            matching_answers_boxes: base.matching_answers_boxes.with_color(index, Color::Red),
            ..base
        }
    }

    /// The session after the text typed was entered and was right.
    pub open spec fn entered_right(self, studying: Token) -> WorldModel<'a> {
        WorldModel {
            typ: Some(Pending::WaitingForKeypress),
            texts_entered: counted(self.texts_entered, self.item(studying).side),
            term_settings: TerminalModel { cursor_hidden: true, ..self.term_settings },
            ..self.progressed(studying).says(correct_message(), Color::Green)
        }
    }

    /// The session after the text typed was entered and was wrong; `shown`
    /// is the right answer that is put against it.
    pub open spec fn entered_wrong(self, studying: Token, shown: Seq<char>) -> WorldModel<'a> {
        WorldModel {
            typ: Some(Pending::TextFailed { studying, hidden_question: self.question_box.text }),
            texts_entered: counted(self.texts_entered, self.item(studying).side),
            text_input: InputModel { correct_answer: Some(shown), ..self.text_input },
            ..self.failed(studying).regressed(studying).says(text_failed_message(), Color::Red)
        }
    }

    /// The session after a key that is not the override, while a wrong
    /// answer is on show, up to the comparison of the text: the question is
    /// back where the verdict stood, and the key has worked on the text.
    pub open spec fn retyped(self, studying: Token, hidden_question: Option<Seq<char>>, key: Key) -> WorldModel<'a> {
        let restored = match hidden_question {
            Some(question) => self.says(question, Color::White),
            None => self,
        };
        WorldModel {
            typ: Some(Pending::TextFailed { studying, hidden_question: None }),
            text_input: self.text_input.after(key),
            ..restored
        }
    }

    /// The session with the cursor hidden.
    pub open spec fn cursor_hidden(self) -> WorldModel<'a> {
        WorldModel { term_settings: TerminalModel { cursor_hidden: true, ..self.term_settings }, ..self }
    }

    /// Which choice a key makes: the digits 1 to 4 make the choices 0 to 3.
    pub open spec fn choice_of(key: Key) -> Option<int> {
        match key {
            Key::Char(c) => if c == '1' {
                Some(0int)
            } else if c == '2' {
                Some(1int)
            } else if c == '3' {
                Some(2int)
            } else if c == '4' {
                Some(3int)
            } else {
                None
            },
            _ => None,
        }
    }

    /// `after` is what a key makes of the session, and `goes_on` whether the
    /// session goes on after it.
    pub open spec fn reacts(self, key: Key, after: WorldModel<'a>, goes_on: bool) -> bool {
        match self.typ {
            None => after == self && !goes_on,
            Some(Pending::WaitingForKeypress) => self.presents(after) && goes_on == (
            self.card_list.items.len() > 0),
            Some(Pending::Matching { studying, failed }) => goes_on && match Self::choice_of(key) {
                Some(index) => if matches_any(
                    self.answers_to(studying),
                    self.matching_answers_boxes.items[index].text->0,
                ) {
                    after == self.chose_right(studying, failed, index)
                } else {
                    after == self.chose_wrong(studying, failed, index)
                },
                None => after == self,
            },
            Some(Pending::Text { studying }) => goes_on && if key == Key::Enter {
                if matches_any(self.answers_to(studying), self.text_input.text) {
                    after == self.entered_right(studying)
                } else {
                    exists|shown: Seq<char>|
                        self.item(studying).card.on(self.item(studying).side)@.displayable.contains(shown)
                            && after == #[trigger] self.entered_wrong(studying, shown)
                }
            } else {
                after == (WorldModel { text_input: self.text_input.after(key), ..self })
            },
            Some(Pending::TextFailed { studying, hidden_question }) => if key == Key::BackTab {
                let moved = self.progressed(studying).progressed(studying).cursor_hidden();
                moved.presents(after) && goes_on == (moved.card_list.items.len() > 0)
            } else {
                let typed = self.retyped(studying, hidden_question, key);
                if matches_any(self.answers_to(studying), typed.text_input.text) {
                    typed.cursor_hidden().presents(after) && goes_on == (self.card_list.items.len() > 0)
                } else {
                    after == typed && goes_on
                }
            },
        }
    }
}

/// A study session.
#[derive(Debug)]
pub struct World<'a> {
    question_box: TextBox,
    matching_answers_boxes: MultiTextBox<4>,
    text_input: TextInput,
    footer: Footer,
    card_list: CardList<'a>,
    term_settings: TerminalSettings,
    matches_made: [u32; 2],
    texts_entered: [u32; 2],
    typ: Option<WorldType>,
}

impl<'a> View for World<'a> {
    type V = WorldModel<'a>;

    closed spec fn view(&self) -> WorldModel<'a> {
        WorldModel {
            question_box: self.question_box@,
            matching_answers_boxes: self.matching_answers_boxes@,
            text_input: self.text_input@,
            footer: self.footer@,
            card_list: self.card_list@,
            deck: self.card_list.deck(),
            term_settings: self.term_settings@,
            matches_made: self.matches_made@,
            texts_entered: self.texts_entered@,
            typ: pending_view(self.typ),
        }
    }
}

/// Why the study of a set is not started.
#[derive(Debug, Clone, Copy, PartialEq, Eq, Structural)]
pub enum StartError {
    /// The set has no card.
    NoCards,
    /// A card has a side with nothing to show.
    CardWithoutText,
    /// The set has more items than the bar can count.
    TooManyCards,
}

/// A set can be studied: it has a card, each card has something to show on
/// both sides, and the bar can count its items.
pub open spec fn studyable(set: CardSet) -> bool {
    &&& set.cards.len() > 0
    &&& set.valid()
    &&& set.item_count() <= u32::MAX
}

/// Why a set cannot be studied, if it cannot.
pub open spec fn refused(set: CardSet) -> Option<StartError> {
    if set.cards.len() == 0 {
        Some(StartError::NoCards)
    } else if !set.valid() {
        Some(StartError::CardWithoutText)
    } else if set.item_count() > u32::MAX {
        Some(StartError::TooManyCards)
    } else {
        None
    }
}

/// The text shown after a right answer.
pub fn correct() -> (text: String)
    ensures
        text@ == correct_message(),
{
    String::from_str("Correct!  Press any key to continue")
}

/// The text shown after a wrong typed answer.
pub fn text_failed() -> (text: String)
    ensures
        text@ == text_failed_message(),
{
    String::from_str("Incorrect!  Shift-Tab: typo, I know this")
}

impl<'a> World<'a> {
    /// What the session stands for is well formed.
    pub open spec fn wf(&self) -> bool {
        self@.wf()
    }

    /// Why a set cannot be studied, if it cannot.
    pub fn refusal(set: &CardSet) -> (why: Option<StartError>)
        ensures
            why == refused(*set),
    {
        let n = set.cards.len();
        if n == 0 {
            return Some(StartError::NoCards);
        }
        let mut i: usize = 0;
        while i < n
            invariant
                n == set.cards.len(),
                i <= n,
                forall|k: int| 0 <= k < i ==> (#[trigger] set.cards[k]).valid(),
            decreases n - i,
        {
            if !set.cards[i].is_valid() {
                return Some(StartError::CardWithoutText);
            }
            i = i + 1;
        }
        let limit: usize = 0xffff_ffff;
        let fits = if set.recall_t.is_used() && set.recall_d.is_used() {
            n <= limit / 2
        } else {
            !set.recall_t.is_used() && !set.recall_d.is_used() || n <= limit
        };
        if fits {
            None
        } else {
            Some(StartError::TooManyCards)
        }
    }

    /// Whether a set can be studied.
    pub fn accepts(set: &CardSet) -> (ok: bool)
        ensures
            ok == studyable(*set),
    {
        Self::refusal(set).is_none()
    }

    /// Starts the study of `set`, if it can be studied, and asks the first
    /// question; it is refused if it has no card, if a card has a side with
    /// nothing to show, or if it has more items than the bar can count.
    pub fn start(size: Vec2<u16>, set: &'a CardSet, term_settings: TerminalSettings) -> (started: Result<
        Self,
        StartError,
    >)
        ensures
            match started {
                Ok(world) => refused(*set) is None && world.wf() && exists|start: WorldModel<'a>| #[trigger]
                    Self::opens(start, size, *set, term_settings@) && start.presents(world@),
                Err(error) => refused(*set) == Some(error),
            },
    {
        match Self::refusal(set) {
            Some(error) => Err(error),
            None => Ok(Self::new(size, set, term_settings)),
        }
    }

    /// The session as it stands before the first question: the boxes laid
    /// out for the terminal, every item black, nothing counted, nothing
    /// pending.
    pub open spec fn opens(start: WorldModel<'a>, size: Vec2<u16>, set: CardSet, term_settings: TerminalModel) -> bool {
        &&& start.deck == set
        &&& CardList::starts(start.card_list, set)
        &&& start.footer.counts[footer::FooterColor::Black] == start.card_list.items.len()
        &&& start.footer.total() == start.card_list.items.len()
        &&& start.footer.width == size.x
        &&& start.footer.row == footer::bar_row(size.y)
        &&& start.question_box == (BoxModel {
            outline_type: Some(OutlineType::spec_double()),
            ..TextBox::spec_new(layout_of(size).question)
        })
        &&& start.matching_answers_boxes == MultiTextBox::<4>::spec_new(layout_of(size).answers)
        &&& start.text_input == TextInput::spec_new(layout_of(size).input)
        &&& start.term_settings == term_settings
        &&& start.matches_made == seq![0u32, 0u32]
        &&& start.texts_entered == seq![0u32, 0u32]
        &&& start.typ is None
    }

    /// Starts the study of `set` on a terminal of the given size and asks
    /// the first question.
    pub fn new(size: Vec2<u16>, set: &'a CardSet, term_settings: TerminalSettings) -> (world: Self)
        requires
            studyable(*set),
        ensures
            world.wf(),
            exists|start: WorldModel<'a>| #[trigger]
                Self::opens(start, size, *set, term_settings@) && start.presents(world@),
    {
        let card_list = CardList::from_set(set);
        let placed = layout(size);
        let mut question_box = TextBox::new(placed.question);
        question_box.set_outline(OutlineType::double());
        let count = card_list.remaining_unstudied();
        let footer = Footer::new(count as u32, size);
        proof {
            card_list::lemma_tally_all_black(card_list@.items, footer::FooterColor::Black);
            card_list::lemma_tally_all_black(card_list@.items, footer::FooterColor::Red);
            card_list::lemma_tally_all_black(card_list@.items, footer::FooterColor::Yellow);
            card_list::lemma_tally_all_black(card_list@.items, footer::FooterColor::Green);
        }
        let mut this = World {
            question_box,
            matching_answers_boxes: MultiTextBox::new(placed.answers),
            text_input: TextInput::new(placed.input),
            footer,
            card_list,
            term_settings,
            matches_made: [0, 0],
            texts_entered: [0, 0],
            typ: None,
        };
        proof {
            assert(Self::opens(this@, size, *set, term_settings@));
        }
        this.study_next();
        this
    }

    /// Asks the item at `token` by matching, with the given question and
    /// choices.
    pub fn ask_matching(&mut self, token: Token, question: String, answers: [String; 4])
        requires
            old(self)@.sound(),
            old(self)@.card_list.valid_token(token),
            old(self)@.item(token).next_study_type is Matching,
        ensures
            final(self)@ == old(self)@.asking_matching(token, question@, views(answers@)),
            final(self).wf(),
    {
        self.text_input.hide_all();
        self.question_box.set_text(question);
        self.question_box.set_text_color(Color::White);
        self.matching_answers_boxes.set(0, answers[0].clone());
        self.matching_answers_boxes.set_color(0, Color::White);
        self.matching_answers_boxes.set(1, answers[1].clone());
        self.matching_answers_boxes.set_color(1, Color::White);
        self.matching_answers_boxes.set(2, answers[2].clone());
        self.matching_answers_boxes.set_color(2, Color::White);
        self.matching_answers_boxes.set(3, answers[3].clone());
        self.matching_answers_boxes.set_color(3, Color::White);
        self.matching_answers_boxes.set_outline(MultiOutlineType::double_light());
        self.typ = Some(WorldType::Matching { studying: token, failed: false });
        proof {
            let want = old(self)@.asking_matching(token, question@, views(answers@));
            assert(self@.matching_answers_boxes.items =~= want.matching_answers_boxes.items);
        }
    }

    /// Asks the item at `token` by typing, with the given question.
    pub fn ask_text(&mut self, token: Token, question: String)
        requires
            old(self)@.sound(),
            old(self)@.card_list.valid_token(token),
            old(self)@.item(token).next_study_type is Text,
        ensures
            final(self)@ == old(self)@.asking_text(token, question@),
            final(self).wf(),
    {
        self.matching_answers_boxes.hide_all();
        self.question_box.set_text(question);
        self.question_box.set_text_color(Color::White);
        self.text_input.set_outline(OutlineType::double());
        self.text_input.clear_text();
        self.text_input.clear_correct_answer();
        self.term_settings.show_cursor();
        self.typ = Some(WorldType::Text { studying: token });
    }

    /// Asks the next item, drawn at random, or ends the session where none
    /// is left. Tells whether an item was asked.
    pub fn study_next(&mut self) -> (more: bool)
        requires
            old(self)@.sound(),
        ensures
            final(self).wf(),
            old(self)@.presents(final(self)@),
            more == (old(self)@.card_list.items.len() > 0),
    {
        let picked = match self.card_list.next_unstudied(None) {
            Some(found) => {
                let (item, token) = found.tup();
                Some((token, item.next_study_type, item.card, item.side))
            },
            None => None,
        };
        match picked {
            Some((token, stage, card, side)) => {
                let asked = core::ops::Not::not(side);
                let question = card[asked].display().to_owned();
                match stage {
                    StudyType::Matching(_) => {
                        let answers = self.card_list.matching_answers_for(&self.card_list[token]);
                        self.ask_matching(token, question, answers);
                    },
                    StudyType::Text(_) => {
                        self.ask_text(token, question);
                    },
                }
                true
            },
            None => {
                self.typ = None;
                false
            },
        }
    }

    /// Lays the session out for a terminal of another size.
    pub fn resize(&mut self, size: Vec2<u16>)
        requires
            old(self).wf(),
        ensures
            final(self).wf(),
            final(self)@ == (WorldModel {
                question_box: BoxModel {
                    dims: crate::output::text_box::valid_dims(layout_of(size).question),
                    ..old(self)@.question_box
                },
                matching_answers_boxes: RowModel {
                    corner_pos: crate::output::text_box::row_dims(layout_of(size).answers, 4).pos,
                    item_size: crate::output::text_box::row_dims(layout_of(size).answers, 4).size,
                    ..old(self)@.matching_answers_boxes
                },
                text_input: InputModel {
                    dims: crate::output::text_box::valid_dims(layout_of(size).input),
                    ..old(self)@.text_input
                },
                footer: FooterModel {
                    width: size.x as nat,
                    row: footer::bar_row(size.y),
                    ..old(self)@.footer
                },
                ..old(self)@
            }),
    {
        let placed = layout(size);
        self.question_box.force_move_resize(placed.question);
        self.matching_answers_boxes.force_move_resize(placed.answers);
        self.text_input.force_move_resize(placed.input);
        self.footer.resize(size);
    }

    /// Which of the four choices a key makes, if any: the digits 1 to 4 make
    /// the choices 0 to 3.
    pub fn choice(key: Key) -> (index: Option<usize>)
        ensures
            match index {
                Some(i) => WorldModel::choice_of(key) == Some(i as int) && i < 4,
                None => WorldModel::choice_of(key) is None,
            },
    {
        match key {
            Key::Char(c) => {
                if c == '1' {
                    Some(0)
                } else if c == '2' {
                    Some(1)
                } else if c == '3' {
                    Some(2)
                } else if c == '4' {
                    Some(3)
                } else {
                    None
                }
            },
            _ => None,
        }
    }

    /// Whether `answer` is right for the item at `token`.
    fn is_right(&self, token: Token, answer: &str) -> (right: bool)
        requires
            self@.card_list.valid_token(token),
        ensures
            right == matches_any(self@.answers_to(token), answer@),
    {
        let item = &self.card_list[token];
        let settings = self.card_list.recall_settings(item.side);
        item.card[item.side].contains(answer, settings)
    }

    /// Takes choice `index` for the matching question about `studying`;
    /// `failed` tells whether a wrong choice was made for it before.
    fn choose_answer(&mut self, studying: Token, failed: bool, index: usize)
        requires
            old(self)@.sound(),
            old(self)@.has_room(),
            (WorldModel { typ: Some(Pending::Matching { studying, failed }), ..old(self)@ }).pending_fits(),
            index < 4,
        ensures
            final(self).wf(),
            final(self)@ == if matches_any(
                old(self)@.answers_to(studying),
                old(self)@.matching_answers_boxes.items[index as int].text->0,
            ) {
                old(self)@.chose_right(studying, failed, index as int)
            } else {
                old(self)@.chose_wrong(studying, failed, index as int)
            },
    {
        let side = self.card_list[studying].side;
        let right = match self.matching_answers_boxes.text(index) {
            Some(text) => self.is_right(studying, text.as_str()),
            None => vstd::pervasive::unreached(),
        };
        if right {
            if !failed {
                self.matches_made[side.index()] = self.matches_made[side.index()] + 1;
                self.card_list.progress(studying, &mut self.footer);
            }
            self.typ = Some(WorldType::WaitingForKeypress);
            self.question_box.set_text(correct());
            self.question_box.set_text_color(Color::Green);
            self.matching_answers_boxes.set_color(index, Color::Green);
        } else {
            self.card_list.fail(studying);
            if !failed {
                self.matches_made[side.index()] = self.matches_made[side.index()] + 1;
                self.card_list.regress(studying, &mut self.footer);
            }
            self.typ = Some(WorldType::Matching { studying, failed: true });
            self.matching_answers_boxes.set_color(index, Color::Red);
        }
    }

    /// Takes the typed answer to the question about `studying` as right.
    fn accept_text(&mut self, studying: Token)
        requires
            old(self)@.sound(),
            old(self)@.has_room(),
            (WorldModel { typ: Some(Pending::Text { studying }), ..old(self)@ }).pending_fits(),
        ensures
            final(self).wf(),
            final(self)@ == old(self)@.entered_right(studying),
    {
        let side = self.card_list[studying].side;
        self.texts_entered[side.index()] = self.texts_entered[side.index()] + 1;
        self.card_list.progress(studying, &mut self.footer);
        self.question_box.set_text(correct());
        self.question_box.set_text_color(Color::Green);
        self.term_settings.hide_cursor();
        self.typ = Some(WorldType::WaitingForKeypress);
    }

    /// Takes the typed answer to the question about `studying` as wrong and
    /// puts `shown` against it as the right answer.
    pub fn reject_text(&mut self, studying: Token, shown: String)
        requires
            old(self)@.sound(),
            old(self)@.has_room(),
            (WorldModel { typ: Some(Pending::Text { studying }), ..old(self)@ }).pending_fits(),
        ensures
            final(self).wf(),
            final(self)@ == old(self)@.entered_wrong(studying, shown@),
    {
        let side = self.card_list[studying].side;
        self.texts_entered[side.index()] = self.texts_entered[side.index()] + 1;
        let hidden_question = match self.question_box.get_text() {
            Some(question) => Some(question.clone()),
            None => None,
        };
        self.question_box.set_text(text_failed());
        self.question_box.set_text_color(Color::Red);
        self.text_input.correct_answer_is(shown);
        self.card_list.fail(studying);
        self.card_list.regress(studying, &mut self.footer);
        self.typ = Some(WorldType::TextFailed { studying, hidden_question });
    }

    /// The session with something else pending.
    pub open spec fn pending(model: WorldModel<'a>, typ: Pending) -> WorldModel<'a> {
        WorldModel { typ: Some(typ), ..model }
    }

    /// Takes a key while a matching question is pending.
    fn press_matching(&mut self, studying: Token, failed: bool, event: Key)
        requires
            old(self)@.typ is None,
            Self::pending(old(self)@, Pending::Matching { studying, failed }).wf(),
            old(self)@.has_room(),
        ensures
            final(self).wf(),
            Self::pending(old(self)@, Pending::Matching { studying, failed }).reacts(event, final(self)@, true),
    {
        match Self::choice(event) {
            Some(index) => {
                self.choose_answer(studying, failed, index);
            },
            None => {
                self.typ = Some(WorldType::Matching { studying, failed });
            },
        }
    }

    /// Takes a key while a typed answer is pending.
    fn press_text(&mut self, studying: Token, event: Key)
        requires
            old(self)@.typ is None,
            Self::pending(old(self)@, Pending::Text { studying }).wf(),
            old(self)@.has_room(),
        ensures
            final(self).wf(),
            Self::pending(old(self)@, Pending::Text { studying }).reacts(event, final(self)@, true),
    {
        let ghost start = Self::pending(old(self)@, Pending::Text { studying });
        match self.text_input.read_input(event) {
            Some(answer) => {
                if self.is_right(studying, answer.as_str()) {
                    self.accept_text(studying);
                } else {
                    let item = &self.card_list[studying];
                    let shown = item.card[item.side].display().to_owned();
                    let ghost put = shown@;
                    self.reject_text(studying, shown);
                    assert(self@ == start.entered_wrong(studying, put));
                }
            },
            None => {
                self.typ = Some(WorldType::Text { studying });
            },
        }
    }

    /// Takes the override while a wrong typed answer is on show: the item
    /// moves on twice, and the next item is asked.
    fn press_override(&mut self, studying: Token, hidden_question: Ghost<Option<Seq<char>>>) -> (more: bool)
        requires
            old(self)@.typ is None,
            Self::pending(old(self)@, Pending::TextFailed { studying, hidden_question: hidden_question@ }).wf(),
        ensures
            final(self).wf(),
            Self::pending(old(self)@, Pending::TextFailed { studying, hidden_question: hidden_question@ }).reacts(
                Key::BackTab,
                final(self)@,
                more,
            ),
    {
        let ghost start = Self::pending(
            old(self)@,
            Pending::TextFailed { studying, hidden_question: hidden_question@ },
        );
        self.card_list.progress(studying, &mut self.footer);
        self.card_list.progress(studying, &mut self.footer);
        self.term_settings.hide_cursor();
        let ghost moved = start.progressed(studying).progressed(studying).cursor_hidden();
        let ghost before = self@;
        let more = self.study_next();
        proof {
            before.lemma_presents_whatever_pends(moved.typ, self@);
        }
        more
    }

    /// Takes another key than the override while a wrong typed answer is on
    /// show: the key works on the text, and once the text is right the next
    /// item is asked.
    fn press_retype(&mut self, studying: Token, hidden_question: Option<String>, event: Key) -> (more: bool)
        requires
            old(self)@.typ is None,
            Self::pending(
                old(self)@,
                Pending::TextFailed { studying, hidden_question: text_view(hidden_question) },
            ).wf(),
            event != Key::BackTab,
        ensures
            final(self).wf(),
            Self::pending(
                old(self)@,
                Pending::TextFailed { studying, hidden_question: text_view(hidden_question) },
            ).reacts(event, final(self)@, more),
    {
        let ghost start = Self::pending(
            old(self)@,
            Pending::TextFailed { studying, hidden_question: text_view(hidden_question) },
        );
        let ghost typed = start.retyped(studying, text_view(hidden_question), event);
        if let Some(question) = hidden_question {
            self.question_box.set_text(question);
            self.question_box.set_text_color(Color::White);
        }
        self.text_input.read_input(event);
        let text = self.text_input.get_text();
        if self.is_right(studying, text.as_str()) {
            self.term_settings.hide_cursor();
            let ghost before = self@;
            let more = self.study_next();
            proof {
                before.lemma_presents_whatever_pends(typed.typ, self@);
            }
            more
        } else {
            self.typ = Some(WorldType::TextFailed { studying, hidden_question: None });
            true
        }
    }

    /// Takes any key after a right answer: the next item is asked.
    fn press_waiting(&mut self) -> (more: bool)
        requires
            old(self)@.typ is None,
            old(self)@.sound(),
        ensures
            final(self).wf(),
            Self::pending(old(self)@, Pending::WaitingForKeypress).presents(final(self)@),
            more == (old(self)@.card_list.items.len() > 0),
    {
        let ghost before = self@;
        let more = self.study_next();
        proof {
            before.lemma_presents_whatever_pends(Some(Pending::WaitingForKeypress), self@);
        }
        more
    }

    /// Takes a key press. Tells whether the session goes on.
    pub fn key_pressed(&mut self, event: Key) -> (flow: ControlFlow<()>)
        requires
            old(self).wf(),
            old(self)@.has_room(),
        ensures
            final(self).wf(),
            old(self)@.reacts(event, final(self)@, flow is Continue),
    {
        let typ = self.typ.take();
        let more = match typ {
            Some(WorldType::Matching { studying, failed }) => {
                self.press_matching(studying, failed, event);
                true
            },
            Some(WorldType::Text { studying }) => {
                self.press_text(studying, event);
                true
            },
            Some(WorldType::TextFailed { studying, hidden_question }) => {
                if event == Key::BackTab {
                    self.press_override(studying, Ghost(text_view(hidden_question)))
                } else {
                    self.press_retype(studying, hidden_question, event)
                }
            },
            Some(WorldType::WaitingForKeypress) => {
                self.press_waiting()
            },
            None => {
                false
            },
        };
        if more {
            ControlFlow::Continue(())
        } else {
            ControlFlow::Break(())
        }
    }

    /// The box that holds the question or the verdict.
    pub fn question_box(&self) -> (shown: &TextBox)
        ensures
            shown@ == self@.question_box,
    {
        &self.question_box
    }

    /// The row of the four choices.
    pub fn matching_answers_boxes(&self) -> (shown: &MultiTextBox<4>)
        ensures
            shown@ == self@.matching_answers_boxes,
    {
        &self.matching_answers_boxes
    }

    /// The box in which the answer is typed.
    pub fn text_input(&self) -> (shown: &TextInput)
        ensures
            shown@ == self@.text_input,
    {
        &self.text_input
    }

    /// The progress bar.
    pub fn footer(&self) -> (shown: &Footer)
        ensures
            shown@ == self@.footer,
    {
        &self.footer
    }

    /// The items of the session.
    pub fn card_list(&self) -> (list: &CardList<'a>)
        ensures
            list@ == self@.card_list,
            list.deck() == self@.deck,
    {
        &self.card_list
    }

    /// The terminal modes that the session asks for.
    pub fn term_settings(&self) -> (settings: &TerminalSettings)
        ensures
            settings@ == self@.term_settings,
    {
        &self.term_settings
    }

    /// The matching questions met: for the term, then for the definition.
    pub fn matches_made(&self) -> (tally: [u32; 2])
        ensures
            tally@ == self@.matches_made,
    {
        self.matches_made
    }

    /// The typed answers entered: for the term, then for the definition.
    pub fn texts_entered(&self) -> (tally: [u32; 2])
        ensures
            tally@ == self@.texts_entered,
    {
        self.texts_entered
    }

    /// What the session waits for; nothing once it is over.
    pub fn typ(&self) -> (pending: &Option<WorldType>)
        ensures
            pending_view(*pending) == self@.typ,
    {
        &self.typ
    }

    /// Whether every tally of attempts can count one more.
    pub fn has_room(&self) -> (room: bool)
        ensures
            room == self@.has_room(),
    {
        self.matches_made[0] < u32::MAX && self.matches_made[1] < u32::MAX && self.texts_entered[0]
            < u32::MAX && self.texts_entered[1] < u32::MAX
    }

    /// Hands the terminal settings back when the session is over.
    pub fn into_term_settings(self) -> (settings: TerminalSettings)
        ensures
            settings@ == self@.term_settings,
    {
        self.term_settings
    }

    /// The records from which the report is made: those of the mastered
    /// items, then those of the items still studied.
    pub open spec fn records(model: WorldModel<'a>) -> Seq<card_list::FailedItem<'a>> {
        model.card_list.ledger + card_list::failing(model.card_list.items)
    }

    /// The figures of the report: the attempts and the wrong answers by mode
    /// and side, and the cards that were answered wrongly, each with a
    /// display text of the side that was shown, drawn at random, ordered by
    /// the number of wrong answers and then by text.
    pub fn stats(&self) -> (stats: Stats)
        requires
            self@.sound(),
        ensures
            (stats.matches, stats.texts, stats.total) == stats::sections_of(
                self@.matches_made,
                self@.texts_entered,
                seq![
                    stats::fail_sum(Self::records(self@), Side::Term, true) as u64,
                    stats::fail_sum(Self::records(self@), Side::Definition, true) as u64,
                ],
                seq![
                    stats::fail_sum(Self::records(self@), Side::Term, false) as u64,
                    stats::fail_sum(Self::records(self@), Side::Definition, false) as u64,
                ],
            ),
            stats::ordered(stats.fails@),
            exists|lines: Seq<FailLine>| #[trigger]
                stats::lists(lines, Self::records(self@)) && stats.fails@.to_multiset() == lines.to_multiset(),
    {
        let records = self.card_list.fails();
        proof {
            card_list::lemma_failing_failed(self@.card_list.items);
            self@.card_list.lemma_bar_counts_all(self@.footer, self@.deck);
            stats::lemma_fail_sum_bound(records@, Side::Term, true);
            stats::lemma_fail_sum_bound(records@, Side::Definition, true);
            stats::lemma_fail_sum_bound(records@, Side::Term, false);
            stats::lemma_fail_sum_bound(records@, Side::Definition, false);
        }
        let (match_fails, text_fails) = stats::tally_fails(&records);
        let (matches, texts, total) = stats::sections(
            self.matches_made,
            self.texts_entered,
            match_fails,
            text_fails,
        );
        let mut lines: Vec<FailLine> = Vec::new();
        let mut i: usize = 0;
        while i < records.len()
            invariant
                i <= records.len(),
                records@ == Self::records(self@),
                self@.sound(),
                stats::lists(lines@, records@.take(i as int)),
            decreases records.len() - i,
        {
            let record = &records[i];
            let count = record.total_fails();
            proof {
                self@.card_list.lemma_fails_are_failures(self@.deck, i as int);
                self@.card_list.lemma_records_of_the_deck(self@.deck, i as int);
            }
            if count.has_failed() {
                let shown = core::ops::Not::not(record.side);
                let text = record.card[shown].display().to_owned();
                lines.push(FailLine { count, text });
            }
            i = i + 1;
        }
        assert(records@.take(i as int) =~= records@);
        let fails = stats::sort_fails(lines);
        Stats { matches, texts, total, fails }
    }
}

} // verus!
