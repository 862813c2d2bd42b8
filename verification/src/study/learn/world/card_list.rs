//! The working set of study items: which stage each item is at, which one is
//! asked next, and what becomes of an item when it is answered.

pub mod fail_count;

use self::fail_count::{capped_sum, FailCount};
use super::footer::{Footer, FooterColor, FooterModel};
use crate::flashcards::{position_of, CardSet, Flashcard, RecallSettings, Side};
use crate::random::{index_below, pick, shuffle};
use vstd::prelude::*;

verus! {

/// The stage of a study item: the mode in which it is asked next, and
/// whether it has been answered in that mode once already.
///
/// With matching alone the stages are `Matching(false)`, `Matching(true)`;
/// with text alone `Text(false)`, `Text(true)`; with both
/// `Matching(false)`, `Text(false)`, `Text(true)`.
#[derive(Debug, Clone, Copy, Eq, PartialEq, Structural, Ord, PartialOrd)]
pub enum StudyType {
    Matching(bool),
    Text(bool),
}

impl StudyType {
    /// Whether a stage belongs to the progression that the settings give.
    pub open spec fn allowed(self, settings: RecallSettings) -> bool {
        match self {
            StudyType::Matching(false) => settings.matching,
            StudyType::Matching(true) => settings.matching && !settings.text,
            StudyType::Text(_) => settings.text,
        }
    }

    /// The bucket of an item that stands at this stage.
    pub open spec fn color(self, settings: RecallSettings) -> FooterColor {
        match self {
            StudyType::Matching(false) => FooterColor::Black,
            StudyType::Matching(true) => FooterColor::Yellow,
            StudyType::Text(false) => if settings.matching {
                FooterColor::Red
            } else {
                FooterColor::Black
            },
            StudyType::Text(true) => FooterColor::Yellow,
        }
    }

    /// The stage at which an item starts, if the settings ask for any study.
    pub open spec fn spec_first(settings: RecallSettings) -> Option<StudyType> {
        if settings.matching {
            Some(StudyType::Matching(false))
        } else if settings.text {
            Some(StudyType::Text(false))
        } else {
            None
        }
    }

    /// The stage that follows on a right answer, with the bucket it brings;
    /// no stage and green where the item is mastered.
    pub open spec fn spec_progress(self, settings: RecallSettings) -> (Option<StudyType>, FooterColor) {
        match self {
            StudyType::Matching(false) => if settings.text {
                (Some(StudyType::Text(false)), FooterColor::Red)
            } else {
                (Some(StudyType::Matching(true)), FooterColor::Yellow)
            },
            StudyType::Matching(true) => (None, FooterColor::Green),
            StudyType::Text(false) => (Some(StudyType::Text(true)), FooterColor::Yellow),
            StudyType::Text(true) => (None, FooterColor::Green),
        }
    }

    /// The stage to which a wrong answer sends an item, with its bucket;
    /// nothing where the item stays.
    pub open spec fn spec_regress(self, settings: RecallSettings) -> Option<(StudyType, FooterColor)> {
        match (self, settings.matching, settings.text) {
            (StudyType::Matching(true), true, false) => Some(
                (StudyType::Matching(false), FooterColor::Black),
            ),
            (StudyType::Text(true), false, true) => Some(
                (StudyType::Text(false), FooterColor::Black),
            ),
            (StudyType::Text(false), true, true) => Some(
                (StudyType::Matching(false), FooterColor::Black),
            ),
            (StudyType::Text(true), true, true) => Some((StudyType::Text(false), FooterColor::Red)),
            _ => None,
        }
    }

    /// How many right answers in a row take an item from this stage to
    /// mastery.
    pub open spec fn answers_to_mastery(self, settings: RecallSettings) -> nat {
        match self.spec_progress(settings).0 {
            None => 1,
            Some(second) => match second.spec_progress(settings).0 {
                None => 2,
                Some(third) => match third.spec_progress(settings).0 {
                    None => 3,
                    Some(_) => 4,
                },
            },
        }
    }

    /// The stage at which an item enters: matching where it is on, else text; none where neither is.
    pub fn first(recall_settings: &RecallSettings) -> (start: Option<StudyType>)
        ensures
            start == Self::spec_first(*recall_settings),
            start is Some <==> recall_settings.used(),
    {
        match (recall_settings.matching, recall_settings.text) {
            (false, false) => None,
            (true, _) => Some(StudyType::Matching(false)),
            (false, true) => Some(StudyType::Text(false)),
        }
    }

    /// The stage after a right answer, none after the last one, and the bucket that goes with it.
    pub fn progress(self, recall_settings: &RecallSettings) -> (next: (Option<StudyType>, FooterColor))
        requires
            self.allowed(*recall_settings),
        ensures
            next == self.spec_progress(*recall_settings),
            next.0 matches Some(stage) ==> stage.allowed(*recall_settings) && next.1 == stage.color(
                *recall_settings,
            ),
            next.0 is None <==> next.1 == FooterColor::Green,
    {
        match (self, recall_settings.matching, recall_settings.text) {
            (StudyType::Matching(false), true, false) => (
                Some(StudyType::Matching(true)),
                FooterColor::Yellow,
            ),
            (StudyType::Matching(true), true, false) => (None, FooterColor::Green),
            (StudyType::Text(false), false, true) => (Some(StudyType::Text(true)), FooterColor::Yellow),
            (StudyType::Text(true), false, true) => (None, FooterColor::Green),
            (StudyType::Matching(false), true, true) => (Some(StudyType::Text(false)), FooterColor::Red),
            (StudyType::Text(false), true, true) => (Some(StudyType::Text(true)), FooterColor::Yellow),
            (StudyType::Text(true), true, true) => (None, FooterColor::Green),
            _ => vstd::pervasive::unreached(),
        }
    }

    /// The stage to fall back to after a wrong answer, with its bucket; none where the stage has none.
    pub fn regress(self, recall_settings: &RecallSettings) -> (back: Option<(StudyType, FooterColor)>)
        ensures
            back == self.spec_regress(*recall_settings),
            self.allowed(*recall_settings) ==> (back matches Some((stage, color)) ==> stage.allowed(
                *recall_settings,
            ) && color == stage.color(*recall_settings)),
    {
        match (self, recall_settings.matching, recall_settings.text) {
            (StudyType::Matching(true), true, false) => Some(
                (StudyType::Matching(false), FooterColor::Black),
            ),
            (StudyType::Text(true), false, true) => Some((StudyType::Text(false), FooterColor::Black)),
            (StudyType::Text(false), true, true) => Some(
                (StudyType::Matching(false), FooterColor::Black),
            ),
            (StudyType::Text(true), true, true) => Some((StudyType::Text(false), FooterColor::Red)),
            _ => None,
        }
    }
}

/// A study item: one side of one card on its way to mastery.
#[derive(Debug)]
pub struct Item<'a> {
    pub card: &'a Flashcard,
    /// The side that is asked for.
    pub side: Side,
    pub next_study_type: StudyType,
    pub footer_color: FooterColor,
    pub match_fails: FailCount,
    pub text_fails: FailCount,
}

impl<'a> Item<'a> {
    /// Whether the item was ever answered wrongly.
    pub open spec fn has_failed(self) -> bool {
        self.match_fails@ > 0 || self.text_fails@ > 0
    }

    /// The item is about a card of the set and stands at a stage that the
    /// settings of its side allow, in the bucket of that stage.
    pub open spec fn consistent(self, deck: CardSet) -> bool {
        &&& deck.cards@.contains(*self.card)
        &&& self.next_study_type.allowed(deck.settings(self.side))
        &&& self.footer_color == self.next_study_type.color(deck.settings(self.side))
    }

    /// The item as it is made for `card` and `side` when a session starts.
    pub open spec fn fresh(self, card: Flashcard, side: Side, deck: CardSet) -> bool {
        &&& *self.card == card
        &&& self.side == side
        &&& Some(self.next_study_type) == StudyType::spec_first(deck.settings(side))
        &&& self.footer_color == FooterColor::Black
        &&& self.match_fails@ == 0
        &&& self.text_fails@ == 0
    }

    /// The item after a right answer that does not master it.
    pub open spec fn moved_to(self, stage: StudyType, color: FooterColor) -> Item<'a> {
        Item { next_study_type: stage, footer_color: color, ..self }
    }

    /// The item after one more wrong answer, counted in the mode of its
    /// stage.
    pub open spec fn failed(self) -> Item<'a> {
        match self.next_study_type {
            StudyType::Matching(_) => Item { match_fails: self.match_fails.incremented(), ..self },
            StudyType::Text(_) => Item { text_fails: self.text_fails.incremented(), ..self },
        }
    }
}

/// What is kept of a study item that was answered wrongly at least once.
#[derive(Debug, Clone, Copy)]
pub struct FailedItem<'a> {
    pub card: &'a Flashcard,
    pub side: Side,
    pub match_fails: FailCount,
    pub text_fails: FailCount,
}

impl<'a> FailedItem<'a> {
    /// The record of an item.
    pub open spec fn of(item: Item<'a>) -> FailedItem<'a> {
        FailedItem {
            card: item.card,
            side: item.side,
            match_fails: item.match_fails,
            text_fails: item.text_fails,
        }
    }

    /// Whether one of the two counts is above zero.
    pub open spec fn has_failed(self) -> bool {
        self.match_fails@ > 0 || self.text_fails@ > 0
    }

    /// The wrong answers in both modes together, held at 255.
    pub fn total_fails(&self) -> (total: FailCount)
        ensures
            total@ == capped_sum(self.match_fails@, self.text_fails@),
    {
        proof {
            fail_count::lemma_sum(self.match_fails, self.text_fails);
        }
        self.match_fails + self.text_fails
    }
}

impl<'a> From<&Item<'a>> for FailedItem<'a> {
    fn from(item: &Item<'a>) -> (record: FailedItem<'a>) {
        FailedItem {
            card: item.card,
            side: item.side,
            match_fails: item.match_fails,
            text_fails: item.text_fails,
        }
    }
}

impl<'a> vstd::std_specs::convert::FromSpecImpl<&Item<'a>> for FailedItem<'a> {
    open spec fn obeys_from_spec() -> bool {
        true
    }

    open spec fn from_spec(item: &Item<'a>) -> FailedItem<'a> {
        FailedItem::of(*item)
    }
}

/// A handle on an item of a card list. It holds until the list next loses an
/// item.
#[derive(Debug, Clone, Copy, PartialEq, Eq, Structural)]
pub struct Token {
    index: usize,
    epoch: usize,
}

impl View for Token {
    type V = int;

    /// The place of the item in the list.
    closed spec fn view(&self) -> int {
        self.index as int
    }
}

impl Token {
    /// How many items the list had lost when the token was handed out.
    pub closed spec fn epoch(self) -> nat {
        self.epoch as nat
    }
}

/// How many of `items` are in the bucket `color`.
pub open spec fn tally(items: Seq<Item>, color: FooterColor) -> nat
    decreases items.len(),
{
    if items.len() == 0 {
        0
    } else {
        tally(items.drop_last(), color) + if items.last().footer_color == color {
            1nat
        } else {
            0nat
        }
    }
}

/// The records of those of `items` that were answered wrongly, in order.
pub open spec fn failing<'a>(items: Seq<Item<'a>>) -> Seq<FailedItem<'a>>
    decreases items.len(),
{
    if items.len() == 0 {
        Seq::empty()
    } else if items.last().has_failed() {
        failing(items.drop_last()).push(FailedItem::of(items.last()))
    } else {
        failing(items.drop_last())
    }
}

/// Whether a place is drawn again after the draw that made `made` draws gave
/// `index`, where `last` was asked last.
pub open spec fn redrawn(index: usize, last: Option<Token>, made: u32) -> bool {
    match last {
        Some(token) => token@ == index && made < 12,
        None => false,
    }
}

/// Whether a choice is drawn again after the draw that made `made` draws gave
/// `candidate`, where `chosen` are the choices made before.
pub open spec fn choice_redrawn(chosen: Seq<String>, candidate: Seq<char>, made: u32) -> bool {
    made < 12 && exists|j: int| 0 <= j < chosen.len() && (#[trigger] chosen[j])@ == candidate
}

/// `text` is a display text of the given side of some card of `deck`.
pub open spec fn drawn_from(deck: CardSet, side: Side, text: Seq<char>) -> bool {
    exists|j: int| 0 <= j < deck.cards.len() && (#[trigger] deck.cards[j]).on(side)@.displayable.contains(text)
}

/// `drawn` is what is drawn for the choices of a matching question about
/// `card`: first a display text of the asked side of the card, then three
/// display texts of that side of cards of the set.
pub open spec fn answer_draw(deck: CardSet, card: Flashcard, side: Side, drawn: Seq<String>) -> bool {
    &&& drawn.len() == 4
    &&& card.on(side)@.displayable.contains(drawn[0]@)
    &&& forall|k: int| 1 <= k < 4 ==> drawn_from(deck, side, (#[trigger] drawn[k])@)
}

/// What a card list stands for.
pub struct ListModel<'a> {
    /// The items still studied.
    pub items: Seq<Item<'a>>,
    /// The records of the mastered items that were answered wrongly.
    pub ledger: Seq<FailedItem<'a>>,
    /// How many items were mastered.
    pub mastered: nat,
}

impl<'a> ListModel<'a> {
    /// Every item there ever was: studied or mastered.
    pub open spec fn total(self) -> nat {
        self.items.len() + self.mastered
    }

    /// Every item is consistent with the settings of its side, every record
    /// of the ledger is one of a failure of an item that was mastered, and
    /// the count of all items fits.
    pub open spec fn wf(self, deck: CardSet) -> bool {
        &&& self.total() == deck.item_count()
        &&& self.total() <= usize::MAX
        &&& self.ledger.len() <= self.mastered
        &&& forall|i: int| 0 <= i < self.items.len() ==> (#[trigger] self.items[i]).consistent(deck)
        &&& forall|i: int|
            0 <= i < self.ledger.len() ==> (#[trigger] self.ledger[i]).has_failed() && deck.cards@.contains(
                *self.ledger[i].card,
            )
    }

    /// The token names an item of the list and was handed out since the list
    /// last lost one.
    pub open spec fn valid_token(self, token: Token) -> bool {
        &&& 0 <= token@ < self.items.len()
        &&& token.epoch() == self.mastered
    }

    /// The list after the item at `i` was answered rightly.
    pub open spec fn progressed(self, i: int, deck: CardSet) -> ListModel<'a> {
        let item = self.items[i];
        match item.next_study_type.spec_progress(deck.settings(item.side)) {
            (Some(stage), color) => ListModel {
                items: self.items.update(i, item.moved_to(stage, color)),
                ..self
            },
            (None, _) => ListModel {
                items: self.items.update(i, self.items.last()).drop_last(),
                ledger: if item.has_failed() {
                    self.ledger.push(FailedItem::of(item))
                } else {
                    self.ledger
                },
                mastered: self.mastered + 1,
            },
        }
    }

    /// The list after a wrong answer was counted for the item at `i`.
    pub open spec fn failed(self, i: int) -> ListModel<'a> {
        ListModel { items: self.items.update(i, self.items[i].failed()), ..self }
    }

    /// The list after the item at `i` was answered wrongly for the first
    /// time since it was shown.
    pub open spec fn regressed(self, i: int, deck: CardSet) -> ListModel<'a> {
        let item = self.items[i];
        match item.next_study_type.spec_regress(deck.settings(item.side)) {
            Some((stage, color)) => ListModel {
                items: self.items.update(i, item.moved_to(stage, color)),
                ..self
            },
            None => self,
        }
    }
}

/// The bar counts what the list holds: each bucket as many as there are
/// items in it, and green those that were mastered.
pub open spec fn in_step(list: ListModel, footer: FooterModel) -> bool {
    &&& footer.counts[FooterColor::Black] == tally(list.items, FooterColor::Black)
    &&& footer.counts[FooterColor::Red] == tally(list.items, FooterColor::Red)
    &&& footer.counts[FooterColor::Yellow] == tally(list.items, FooterColor::Yellow)
    &&& footer.counts[FooterColor::Green] == tally(list.items, FooterColor::Green) + list.mastered
}

/// Replacing one item changes the tally by the two buckets involved.
pub proof fn lemma_tally_update(items: Seq<Item>, i: int, item: Item, color: FooterColor)
    requires
        0 <= i < items.len(),
    ensures
        tally(items.update(i, item), color) + (if items[i].footer_color == color {
            1nat
        } else {
            0nat
        }) == tally(items, color) + (if item.footer_color == color {
            1nat
        } else {
            0nat
        }),
    decreases items.len(),
{
    let changed = items.update(i, item);
    if i == items.len() - 1 {
        assert(changed.drop_last() =~= items.drop_last());
    } else {
        assert(changed.drop_last() =~= items.drop_last().update(i, item));
        lemma_tally_update(items.drop_last(), i, item, color);
    }
}

/// Taking one item out, the last filling its place, takes one from the tally
/// of its bucket.
pub proof fn lemma_tally_swap_remove(items: Seq<Item>, i: int, color: FooterColor)
    requires
        0 <= i < items.len(),
    ensures
        tally(items.update(i, items.last()).drop_last(), color) + (if items[i].footer_color
            == color {
            1nat
        } else {
            0nat
        }) == tally(items, color),
{
    let left = items.update(i, items.last()).drop_last();
    if i == items.len() - 1 {
        assert(left =~= items.drop_last());
    } else {
        assert(left =~= items.drop_last().update(i, items.last()));
        lemma_tally_update(items.drop_last(), i, items.last(), color);
    }
}

/// The tallies of the four buckets add up to the number of items.
pub proof fn lemma_tally_total(items: Seq<Item>)
    ensures
        tally(items, FooterColor::Black) + tally(items, FooterColor::Red) + tally(
            items,
            FooterColor::Yellow,
        ) + tally(items, FooterColor::Green) == items.len(),
    decreases items.len(),
{
    if items.len() > 0 {
        lemma_tally_total(items.drop_last());
    }
}

/// The bucket of an item of the list holds at least that item.
pub proof fn lemma_tally_positive(items: Seq<Item>, i: int)
    requires
        0 <= i < items.len(),
    ensures
        tally(items, items[i].footer_color) > 0,
    decreases items.len(),
{
    if i < items.len() - 1 {
        lemma_tally_positive(items.drop_last(), i);
    }
}

/// Where every item is black, black holds them all.
pub proof fn lemma_tally_all_black(items: Seq<Item>, color: FooterColor)
    requires
        forall|i: int| 0 <= i < items.len() ==> (#[trigger] items[i]).footer_color == FooterColor::Black,
    ensures
        tally(items, color) == if color == FooterColor::Black {
            items.len()
        } else {
            0
        },
    decreases items.len(),
{
    if items.len() > 0 {
        lemma_tally_all_black(items.drop_last(), color);
    }
}

/// No consistent item is green.
pub proof fn lemma_tally_no_green(items: Seq<Item>, deck: CardSet)
    requires
        forall|i: int| 0 <= i < items.len() ==> (#[trigger] items[i]).consistent(deck),
    ensures
        tally(items, FooterColor::Green) == 0,
    decreases items.len(),
{
    if items.len() > 0 {
        lemma_tally_no_green(items.drop_last(), deck);
    }
}

/// The items of a study session.
#[derive(Debug)]
pub struct CardList<'a> {
    cards: Vec<Item<'a>>,
    removed: Vec<FailedItem<'a>>,
    mastered: usize,
    set: &'a CardSet,
}

impl<'a> View for CardList<'a> {
    type V = ListModel<'a>;

    closed spec fn view(&self) -> ListModel<'a> {
        ListModel { items: self.cards@, ledger: self.removed@, mastered: self.mastered as nat }
    }
}

/// A token together with the list whose item it names.
#[derive(Debug)]
pub struct RefToken<'a, 'b> {
    list: &'a CardList<'b>,
    token: Token,
}

impl<'a, 'b> RefToken<'a, 'b> {
    /// The list that handed the token out.
    pub closed spec fn list(self) -> CardList<'b> {
        *self.list
    }

    /// The token held.
    pub closed spec fn spec_token(self) -> Token {
        self.token
    }

    /// The token names an item of its list.
    pub open spec fn wf(self) -> bool {
        self.list().valid_token(self.spec_token())
    }

    /// The token held.
    pub fn token(&self) -> (token: Token)
        ensures
            token == self.spec_token(),
    {
        self.token
    }

    /// The item that the token names.
    pub fn item(&self) -> (item: &Item<'b>)
        requires
            self.wf(),
        ensures
            *item == self.list()@.items[self.spec_token()@],
    {
        &self.list.cards[self.token.index]
    }

    /// The item that the token names, and the token.
    pub fn tup(&self) -> (pair: (&Item<'b>, Token))
        requires
            self.wf(),
        ensures
            *pair.0 == self.list()@.items[self.spec_token()@],
            pair.1 == self.spec_token(),
    {
        (self.item(), self.token())
    }
}

impl<'a> CardList<'a> {
    /// The set whose cards are studied.
    pub closed spec fn deck(&self) -> CardSet {
        *self.set
    }

    /// The list is well formed for its set.
    pub open spec fn wf(&self) -> bool {
        self@.wf(self.deck())
    }

    /// The token names an item of this list as it is now.
    pub open spec fn valid_token(&self, token: Token) -> bool {
        self@.valid_token(token)
    }

    /// What `from_set` makes of a set: an item for each card on each side
    /// that is used, the terms first.
    pub open spec fn starts(list: ListModel, deck: CardSet) -> bool {
        let n = deck.cards.len() as int;
        let t = if deck.recall_t.used() {
            n
        } else {
            0
        };
        let d = if deck.recall_d.used() {
            n
        } else {
            0
        };
        &&& list.items.len() == t + d
        &&& forall|i: int| 0 <= i < t ==> (#[trigger] list.items[i]).fresh(deck.cards[i], Side::Term, deck)
        &&& forall|i: int|
            t <= i < t + d ==> (#[trigger] list.items[i]).fresh(deck.cards[i - t], Side::Definition, deck)
        &&& list.ledger.len() == 0
        &&& list.mastered == 0
    }

    fn extend_cards(cards: &mut Vec<Item<'a>>, set: &'a CardSet, start: Option<StudyType>, side: Side)
        requires
            start == StudyType::spec_first(set.settings(side)),
        ensures
            start is None ==> final(cards)@ == old(cards)@,
            start is Some ==> final(cards)@.len() == old(cards)@.len() + set.cards.len(),
            start is Some ==> forall|i: int|
                0 <= i < old(cards)@.len() ==> final(cards)@[i] == old(cards)@[i],
            start is Some ==> forall|i: int|
                old(cards)@.len() <= i < final(cards)@.len() ==> (#[trigger] final(cards)@[i]).fresh(
                    set.cards[i - old(cards)@.len()],
                    side,
                    *set,
                ),
    {
        if let Some(next_study_type) = start {
            let mut i: usize = 0;
            while i < set.cards.len()
                invariant
                    i <= set.cards.len(),
                    Some(next_study_type) == StudyType::spec_first(set.settings(side)),
                    cards@.len() == old(cards)@.len() + i,
                    forall|k: int| 0 <= k < old(cards)@.len() ==> cards@[k] == old(cards)@[k],
                    forall|k: int|
                        old(cards)@.len() <= k < cards@.len() ==> (#[trigger] cards@[k]).fresh(
                            set.cards[k - old(cards)@.len()],
                            side,
                            *set,
                        ),
                decreases set.cards.len() - i,
            {
                cards.push(
                    Item {
                        card: &set.cards[i],
                        side,
                        next_study_type,
                        footer_color: FooterColor::Black,
                        match_fails: FailCount::zero(),
                        text_fails: FailCount::zero(),
                    },
                );
                i = i + 1;
            }
        }
    }

    /// The items with which the study of `set` starts.
    pub fn from_set(set: &'a CardSet) -> (list: Self)
        ensures
            list.wf(),
            list.deck() == *set,
            Self::starts(list@, *set),
    {
        let term_start = StudyType::first(&set.recall_t);
        let definition_start = StudyType::first(&set.recall_d);
        let mut cards: Vec<Item<'a>> = Vec::new();
        Self::extend_cards(&mut cards, set, term_start, Side::Term);
        Self::extend_cards(&mut cards, set, definition_start, Side::Definition);
        let count = cards.len();
        let list = CardList { removed: Vec::new(), cards, mastered: 0, set };
        assert(list@.total() == count);
        list
    }

    /// Whether a token names an item of this list as it is now.
    pub fn is_current(&self, token: Token) -> (current: bool)
        ensures
            current == self.valid_token(token),
    {
        token.index < self.cards.len() && token.epoch == self.mastered
    }

    /// Whether another place is drawn after the draw that made `made` draws
    /// gave `index`: it is where that is the place of the item asked last and
    /// fewer than twelve draws were made.
    pub fn draws_again(index: usize, last: Option<Token>, made: u32) -> (again: bool)
        ensures
            again == redrawn(index, last, made),
    {
        match last {
            Some(token) => token.index == index && made < 12,
            None => false,
        }
    }

    /// An item to ask next, drawn at random; none where no item is left. Up
    /// to twelve draws are made to get another item than `last`, so the item
    /// found is another one unless twelve draws in a row gave `last`; with one
    /// item in the list it is that item.
    pub fn next_unstudied(&self, last: Option<Token>) -> (next: Option<RefToken<'_, 'a>>)
        ensures
            next is None <==> self@.items.len() == 0,
            next matches Some(found) ==> found.list() == *self && found.wf(),
            next matches Some(found) ==> self@.items.len() == 1 ==> found.spec_token()@ == 0,
    {
        if self.cards.len() == 0 {
            None
        } else {
            let mut index: usize = index_below(self.cards.len());
            let mut made: u32 = 1;
            while Self::draws_again(index, last, made)
                invariant
                    self.cards.len() > 0,
                    index < self.cards.len(),
                    1 <= made <= 12,
                decreases 12 - made,
            {
                index = index_below(self.cards.len());
                made = made + 1;
            }
            Some(RefToken { list: self, token: Token { index, epoch: self.mastered } })
        }
    }

    /// Takes the item at `card` one stage on after a right answer. An item
    /// at its last stage leaves the list, the last item taking its place, and
    /// leaves a record in the ledger if it was ever answered wrongly; every
    /// token of the list then stops to hold.
    pub fn progress(&mut self, card: Token, footer: &mut Footer)
        requires
            old(self).wf(),
            old(self).valid_token(card),
            old(footer).wf(),
            in_step(old(self)@, old(footer)@),
        ensures
            final(self).wf(),
            final(footer).wf(),
            in_step(final(self)@, final(footer)@),
            final(self).deck() == old(self).deck(),
            final(self)@ == old(self)@.progressed(card@, old(self).deck()),
            final(self)@.total() == old(self)@.total(),
            final(footer)@ == bar_progressed(old(self)@, old(footer)@, card@, old(self).deck()),
            final(footer)@.total() == old(footer)@.total(),
    {
        let index = card.index;
        let item = &self.cards[index];
        let old_color = item.footer_color;
        proof {
            self@.lemma_progressed(footer@, index as int, self.deck());
        }
        let new_color = match item.next_study_type.progress(self.set.recall_settings(item.side)) {
            (Some(next_study_type), color) => {
                self.cards[index] = Item {
                    card: item.card,
                    side: item.side,
                    next_study_type,
                    footer_color: color,
                    match_fails: item.match_fails,
                    text_fails: item.text_fails,
                };
                color
            },
            (None, color) => {
                let gone = self.cards.swap_remove(index);
                if gone.match_fails.has_failed() || gone.text_fails.has_failed() {
                    self.removed.push(FailedItem::from(&gone));
                }
                self.mastered = self.mastered + 1;
                color
            },
        };
        footer.move_item(old_color, new_color);
    }

    /// Takes the item at `card` back after a wrong answer, as far as its
    /// stage has a stage to fall back to.
    pub fn regress(&mut self, card: Token, footer: &mut Footer)
        requires
            old(self).wf(),
            old(self).valid_token(card),
            old(footer).wf(),
            in_step(old(self)@, old(footer)@),
        ensures
            final(self).wf(),
            final(footer).wf(),
            in_step(final(self)@, final(footer)@),
            final(self).deck() == old(self).deck(),
            final(self)@ == old(self)@.regressed(card@, old(self).deck()),
            final(self).valid_token(card),
            final(footer)@ == bar_regressed(old(self)@, old(footer)@, card@, old(self).deck()),
            final(footer)@.total() == old(footer)@.total(),
    {
        let index = card.index;
        let item = &self.cards[index];
        let old_color = item.footer_color;
        proof {
            self@.lemma_regressed(footer@, index as int, self.deck());
        }
        if let Some((next_study_type, new_color)) = item.next_study_type.regress(
            self.set.recall_settings(item.side),
        ) {
            self.cards[index] = Item {
                card: item.card,
                side: item.side,
                next_study_type,
                footer_color: new_color,
                match_fails: item.match_fails,
                text_fails: item.text_fails,
            };
            footer.move_item(old_color, new_color);
        }
    }

    /// Counts a wrong answer for the item at `card`, in the mode of its
    /// stage.
    pub fn fail(&mut self, card: Token)
        requires
            old(self).wf(),
            old(self).valid_token(card),
        ensures
            final(self).wf(),
            final(self).deck() == old(self).deck(),
            final(self).valid_token(card),
            final(self)@ == old(self)@.failed(card@),
            final(self)@.items[card@].has_failed(),
            forall|footer: FooterModel| in_step(old(self)@, footer) ==> in_step(final(self)@, footer),
    {
        let index = card.index;
        let item = &self.cards[index];
        let mut match_fails = item.match_fails;
        let mut text_fails = item.text_fails;
        match item.next_study_type {
            StudyType::Matching(_) => match_fails.inc(),
            StudyType::Text(_) => text_fails.inc(),
        }
        let counted = Item {
            card: item.card,
            side: item.side,
            next_study_type: item.next_study_type,
            footer_color: item.footer_color,
            match_fails,
            text_fails,
        };
        self.cards[index] = counted;
        proof {
            broadcast use FailCount::lemma_incremented;

            assert forall|footer: FooterModel| in_step(old(self)@, footer) implies in_step(self@, footer) by {
                old(self)@.lemma_failed(footer, index as int, self.deck());
            }
        }
    }

    /// One display text of the asked side of a card of the set, both drawn
    /// at random.
    fn draw(&self, side: Side) -> (text: String)
        requires
            self.deck().cards.len() > 0,
            forall|j: int| 0 <= j < self.deck().cards.len() ==> (#[trigger] self.deck().cards[j]).on(side).valid(),
        ensures
            drawn_from(self.deck(), side, text@),
    {
        match pick(self.set.cards.as_slice()) {
            Some(card) => {
                card[side].display().to_owned()
            },
            None => vstd::pervasive::unreached(),
        }
    }

    /// Whether another text is drawn for a choice after the draw that made
    /// `made` draws gave `candidate`: it is where that text is among the
    /// choices made before and fewer than twelve draws were made.
    pub fn draws_another(chosen: &Vec<String>, candidate: &String, made: u32) -> (again: bool)
        ensures
            again == choice_redrawn(chosen@, candidate@, made),
    {
        made < 12 && position_of(chosen, candidate).is_some()
    }

    /// The four choices to show for an item that is asked by matching: a
    /// display text of the asked side of its card, and three display texts of
    /// that side of cards of the set, in an order drawn at random. Each of
    /// the three is drawn up to twelve times to get a text that is not among
    /// the choices made before it.
    pub fn matching_answers_for(&self, card: &Item<'a>) -> (answers: [String; 4])
        requires
            self.deck().cards.len() > 0,
            forall|j: int|
                0 <= j < self.deck().cards.len() ==> (#[trigger] self.deck().cards[j]).on(card.side).valid(),
            card.card.on(card.side).valid(),
        ensures
            exists|drawn: Seq<String>|
                answer_draw(self.deck(), *card.card, card.side, drawn) && answers@.to_multiset()
                    == drawn.to_multiset(),
            exists|k: int| 0 <= k < 4 && card.card.on(card.side)@.displayable.contains(#[trigger] answers@[k]@),
    {
        let side = card.side;
        let mut answers: Vec<String> = Vec::new();
        answers.push(card.card[side].display().to_owned());
        let mut i: usize = 1;
        while i < 4
            invariant
                1 <= i <= 4,
                answers@.len() == i,
                self.deck().cards.len() > 0,
                forall|j: int| 0 <= j < self.deck().cards.len() ==> (#[trigger] self.deck().cards[j]).on(side).valid(),
                card.card.on(side)@.displayable.contains(answers@[0]@),
                forall|k: int| 1 <= k < i ==> drawn_from(self.deck(), side, (#[trigger] answers@[k])@),
            decreases 4 - i,
        {
            let mut candidate = self.draw(side);
            let mut attempts: u32 = 1;
            while Self::draws_another(&answers, &candidate, attempts)
                invariant
                    attempts <= 12,
                    self.deck().cards.len() > 0,
                    forall|j: int|
                        0 <= j < self.deck().cards.len() ==> (#[trigger] self.deck().cards[j]).on(side).valid(),
                    drawn_from(self.deck(), side, candidate@),
                decreases 12 - attempts,
            {
                candidate = self.draw(side);
                attempts = attempts + 1;
            }
            answers.push(candidate);
            i = i + 1;
        }
        let ghost drawn = answers@;
        assert(answer_draw(self.deck(), *card.card, side, drawn));
        shuffle(&mut answers);
        proof {
            drawn.to_multiset_ensures();
            answers@.to_multiset_ensures();
            assert(drawn.to_multiset().count(drawn[0]) > 0);
        }
        let ghost mixed = answers@;
        let fourth = answers.pop().unwrap();
        let third = answers.pop().unwrap();
        let second = answers.pop().unwrap();
        let first = answers.pop().unwrap();
        let choices = [first, second, third, fourth];
        proof {
            assert(choices@ =~= mixed);
        }
        choices
    }

    /// The recall settings of the set for a side.
    pub fn recall_settings(&self, side: Side) -> (settings: &RecallSettings)
        ensures
            *settings == self.deck().settings(side),
    {
        self.set.recall_settings(side)
    }

    /// How many items are still studied.
    pub fn remaining_unstudied(&self) -> (n: usize)
        ensures
            n == self@.items.len(),
    {
        self.cards.len()
    }

    /// The records of every item that was answered wrongly: those of the
    /// mastered items first, as they were mastered, then those of the items
    /// still studied. The list is left as it is.
    pub fn fails(&self) -> (records: Vec<FailedItem<'a>>)
        ensures
            records@ == self@.ledger + failing(self@.items),
    {
        let mut records: Vec<FailedItem<'a>> = Vec::new();
        let mut i: usize = 0;
        while i < self.removed.len()
            invariant
                i <= self.removed.len(),
                records@ == self.removed@.take(i as int),
            decreases self.removed.len() - i,
        {
            records.push(self.removed[i]);
            i = i + 1;
        }
        let mut k: usize = 0;
        while k < self.cards.len()
            invariant
                k <= self.cards.len(),
                records@ == self.removed@ + failing(self.cards@.take(k as int)),
            decreases self.cards.len() - k,
        {
            let item = &self.cards[k];
            proof {
                let longer = self.cards@.take(k + 1);
                assert(longer.drop_last() =~= self.cards@.take(k as int));
            }
            if item.match_fails.has_failed() || item.text_fails.has_failed() {
                records.push(FailedItem::from(item));
            }
            k = k + 1;
        }
        assert(self.cards@.take(k as int) =~= self.cards@);
        records
    }
}

impl<'a> core::ops::Index<Token> for CardList<'a> {
    type Output = Item<'a>;

    fn index(&self, index: Token) -> (item: &Item<'a>)
        ensures
            *item == self@.items[index@],
    {
        &self.cards[index.index]
    }
}

impl<'a> vstd::std_specs::core::IndexSpecImpl<Token> for CardList<'a> {
    open spec fn index_req(&self, index: &Token) -> bool {
        self.valid_token(*index)
    }
}

/// Every way through the stages is two right answers long where one mode
/// is used, and three where both are.
pub proof fn lemma_answers_to_mastery(settings: RecallSettings)
    requires
        settings.used(),
    ensures
        StudyType::spec_first(settings) matches Some(start) && start.answers_to_mastery(settings) == (
        if settings.matching && settings.text {
            3nat
        } else {
            2nat
        }),
{
}

/// A right answer takes an item one stage nearer to mastery.
pub proof fn lemma_progress_nears_mastery(stage: StudyType, settings: RecallSettings)
    requires
        stage.allowed(settings),
    ensures
        match stage.spec_progress(settings).0 {
            Some(next) => next.answers_to_mastery(settings) + 1 == stage.answers_to_mastery(settings),
            None => stage.answers_to_mastery(settings) == 1,
        },
{
}

/// With both modes used a wrong answer at `Text(false)` costs two stages, at
/// `Text(true)` one, and at `Matching(false)` none.
pub proof fn lemma_regress_with_both_modes(settings: RecallSettings)
    requires
        settings.matching,
        settings.text,
    ensures
        StudyType::Text(false).spec_regress(settings) == Some(
            (StudyType::Matching(false), FooterColor::Black),
        ),
        StudyType::Text(true).spec_regress(settings) == Some((StudyType::Text(false), FooterColor::Red)),
        StudyType::Matching(false).spec_regress(settings) is None,
{
}

/// The stage at which an item starts is a floor: a wrong answer there leaves
/// the item where it is.
pub proof fn lemma_entry_stage_is_floor(settings: RecallSettings)
    requires
        settings.used(),
    ensures
        StudyType::spec_first(settings) matches Some(start) && start.spec_regress(settings) is None,
{
}

/// A stage to which a wrong answer leads is one from which a second wrong
/// answer leads no further, but for the last stage of the progression
/// through both modes, which has two stages below it.
pub proof fn lemma_regress_once(stage: StudyType, settings: RecallSettings)
    requires
        stage.allowed(settings),
        !(stage == StudyType::Text(true) && settings.matching && settings.text),
    ensures
        match stage.spec_regress(settings) {
            Some((back, _)) => back.spec_regress(settings) is None,
            None => true,
        },
{
}

/// The bucket that a right or a wrong answer brings is the bucket of the
/// stage it leads to.
pub proof fn lemma_color_follows_stage(stage: StudyType, settings: RecallSettings)
    requires
        stage.allowed(settings),
    ensures
        stage.spec_progress(settings).0 matches Some(next) ==> next.allowed(settings)
            && stage.spec_progress(settings).1 == next.color(settings),
        stage.spec_progress(settings).0 is None ==> stage.spec_progress(settings).1 == FooterColor::Green,
        stage.spec_regress(settings) matches Some((back, color)) ==> back.allowed(settings) && color
            == back.color(settings),
{
}

impl<'a> ListModel<'a> {
    /// A bar that is in step with a list counts every item there ever was:
    /// as many as the study of the set started with.
    pub proof fn lemma_bar_counts_all(self, footer: FooterModel, deck: CardSet)
        requires
            self.wf(deck),
            in_step(self, footer),
        ensures
            footer.total() == self.total(),
            footer.total() == deck.item_count(),
    {
        lemma_tally_total(self.items);
    }

    /// Right answers, wrong answers and counted failures leave the number of
    /// all items as it is.
    pub proof fn lemma_total_is_kept(self, i: int, deck: CardSet)
        requires
            self.wf(deck),
            0 <= i < self.items.len(),
        ensures
            self.progressed(i, deck).total() == self.total(),
            self.regressed(i, deck).total() == self.total(),
            self.failed(i).total() == self.total(),
    {
    }

    /// An item leaves the list only by a right answer at its last stage, and
    /// every token of the list then stops to hold; any other answer leaves
    /// every token as it was.
    pub proof fn lemma_tokens(self, i: int, deck: CardSet, token: Token)
        requires
            0 <= i < self.items.len(),
        ensures
            self.items[i].next_study_type.spec_progress(deck.settings(self.items[i].side)).0 is None ==> !(
            self.valid_token(token) && self.progressed(i, deck).valid_token(token)),
            self.items[i].next_study_type.spec_progress(deck.settings(self.items[i].side)).0 is Some
                ==> self.valid_token(token) == self.progressed(i, deck).valid_token(token),
            self.valid_token(token) == self.regressed(i, deck).valid_token(token),
            self.valid_token(token) == self.failed(i).valid_token(token),
    {
    }

    /// With one item left, every token that holds names it.
    pub proof fn lemma_single_item(self, token: Token)
        requires
            self.items.len() == 1,
            self.valid_token(token),
        ensures
            token@ == 0,
    {
    }

    /// A mastered item leaves a record exactly if it was ever answered
    /// wrongly, and the record holds its counts.
    pub proof fn lemma_ledger_on_mastery(self, i: int, deck: CardSet)
        requires
            0 <= i < self.items.len(),
            self.items[i].next_study_type.spec_progress(deck.settings(self.items[i].side)).0 is None,
        ensures
            self.items[i].has_failed() ==> self.progressed(i, deck).ledger == self.ledger.push(
                FailedItem::of(self.items[i]),
            ),
            !self.items[i].has_failed() ==> self.progressed(i, deck).ledger == self.ledger,
    {
    }

    /// Every record that `fails` hands out is about a card of the set.
    pub proof fn lemma_records_of_the_deck(self, deck: CardSet, i: int)
        requires
            self.wf(deck),
            0 <= i < (self.ledger + failing(self.items)).len(),
        ensures
            deck.cards@.contains(*(self.ledger + failing(self.items))[i].card),
    {
        lemma_failing_of_the_deck(self.items, deck);
    }

    /// Every record that `fails` hands out is one of an item that was
    /// answered wrongly.
    pub proof fn lemma_fails_are_failures(self, deck: CardSet, i: int)
        requires
            self.wf(deck),
            0 <= i < (self.ledger + failing(self.items)).len(),
        ensures
            (self.ledger + failing(self.items))[i].has_failed(),
    {
        lemma_failing_failed(self.items);
    }
}

/// The records of the failing items are records of failures, no more of
/// them than there are items.
pub proof fn lemma_failing_failed(items: Seq<Item>)
    ensures
        failing(items).len() <= items.len(),
        forall|i: int| 0 <= i < failing(items).len() ==> (#[trigger] failing(items)[i]).has_failed(),
    decreases items.len(),
{
    if items.len() > 0 {
        lemma_failing_failed(items.drop_last());
    }
}

/// The records of items about cards of the set are about cards of the set.
pub proof fn lemma_failing_of_the_deck(items: Seq<Item>, deck: CardSet)
    requires
        forall|i: int| 0 <= i < items.len() ==> (#[trigger] items[i]).consistent(deck),
    ensures
        forall|i: int| 0 <= i < failing(items).len() ==> deck.cards@.contains(*(#[trigger] failing(items)[i]).card),
    decreases items.len(),
{
    if items.len() > 0 {
        lemma_failing_of_the_deck(items.drop_last(), deck);
    }
}

/// An answer to an item of a list, or a wrong answer to it that is only
/// counted.
pub enum Answer {
    /// A right answer to the item at a place.
    Right(int),
    /// The first wrong answer to the item at a place since it was shown.
    Wrong(int),
    /// A wrong answer to the item at a place that is only counted.
    Counted(int),
}

impl Answer {
    /// The place of the item that is answered.
    pub open spec fn place(self) -> int {
        match self {
            Answer::Right(i) => i,
            Answer::Wrong(i) => i,
            Answer::Counted(i) => i,
        }
    }
}

/// The bar of a footer after the item at `i` of `list` was answered
/// rightly.
pub open spec fn bar_progressed(list: ListModel, footer: FooterModel, i: int, deck: CardSet) -> FooterModel {
    footer.moved(
        list.items[i].footer_color,
        list.items[i].next_study_type.spec_progress(deck.settings(list.items[i].side)).1,
    )
}

/// The bar of a footer after the item at `i` of `list` was answered wrongly
/// for the first time since it was shown.
pub open spec fn bar_regressed(list: ListModel, footer: FooterModel, i: int, deck: CardSet) -> FooterModel {
    match list.items[i].next_study_type.spec_regress(deck.settings(list.items[i].side)) {
        Some((_, color)) => footer.moved(list.items[i].footer_color, color),
        None => footer,
    }
}

impl<'a> ListModel<'a> {
    /// A right answer keeps the list well formed and the bar in step with
    /// it, and the bar counts as many as before.
    pub proof fn lemma_progressed(self, footer: FooterModel, i: int, deck: CardSet)
        requires
            self.wf(deck),
            footer.wf(),
            in_step(self, footer),
            0 <= i < self.items.len(),
        ensures
            footer.counts[self.items[i].footer_color] > 0,
            self.progressed(i, deck).wf(deck),
            bar_progressed(self, footer, i, deck).wf(),
            in_step(self.progressed(i, deck), bar_progressed(self, footer, i, deck)),
            bar_progressed(self, footer, i, deck).total() == footer.total(),
    {
        let item = self.items[i];
        match item.next_study_type.spec_progress(deck.settings(item.side)) {
            (Some(stage), color) => {
                let moved = item.moved_to(stage, color);
                lemma_tally_update(self.items, i, moved, FooterColor::Black);
                lemma_tally_update(self.items, i, moved, FooterColor::Red);
                lemma_tally_update(self.items, i, moved, FooterColor::Yellow);
                lemma_tally_update(self.items, i, moved, FooterColor::Green);
            },
            (None, _) => {
                lemma_tally_swap_remove(self.items, i, FooterColor::Black);
                lemma_tally_swap_remove(self.items, i, FooterColor::Red);
                lemma_tally_swap_remove(self.items, i, FooterColor::Yellow);
                lemma_tally_swap_remove(self.items, i, FooterColor::Green);
            },
        }
    }

    /// A wrong answer keeps the list well formed and the bar in step with
    /// it, and the bar counts as many as before.
    pub proof fn lemma_regressed(self, footer: FooterModel, i: int, deck: CardSet)
        requires
            self.wf(deck),
            footer.wf(),
            in_step(self, footer),
            0 <= i < self.items.len(),
        ensures
            footer.counts[self.items[i].footer_color] > 0,
            self.regressed(i, deck).wf(deck),
            bar_regressed(self, footer, i, deck).wf(),
            in_step(self.regressed(i, deck), bar_regressed(self, footer, i, deck)),
            bar_regressed(self, footer, i, deck).total() == footer.total(),
    {
        let item = self.items[i];
        lemma_tally_positive(self.items, i);
        match item.next_study_type.spec_regress(deck.settings(item.side)) {
            Some((stage, color)) => {
                let moved = item.moved_to(stage, color);
                lemma_tally_update(self.items, i, moved, FooterColor::Black);
                lemma_tally_update(self.items, i, moved, FooterColor::Red);
                lemma_tally_update(self.items, i, moved, FooterColor::Yellow);
                lemma_tally_update(self.items, i, moved, FooterColor::Green);
            },
            None => {},
        }
    }

    /// A counted failure keeps the list well formed and every bar in step
    /// with it that was.
    pub proof fn lemma_failed(self, footer: FooterModel, i: int, deck: CardSet)
        requires
            self.wf(deck),
            0 <= i < self.items.len(),
        ensures
            self.failed(i).wf(deck),
            self.failed(i).items[i].has_failed(),
            in_step(self, footer) ==> in_step(self.failed(i), footer),
    {
        broadcast use FailCount::lemma_incremented;

        let counted = self.items[i].failed();
        lemma_tally_update(self.items, i, counted, FooterColor::Black);
        lemma_tally_update(self.items, i, counted, FooterColor::Red);
        lemma_tally_update(self.items, i, counted, FooterColor::Yellow);
        lemma_tally_update(self.items, i, counted, FooterColor::Green);
    }

    /// The list and the bar after one answer; an answer to an item that is
    /// not there changes nothing.
    pub open spec fn answered(self, footer: FooterModel, deck: CardSet, answer: Answer) -> (
        ListModel<'a>,
        FooterModel,
    ) {
        let i = answer.place();
        if 0 <= i < self.items.len() {
            match answer {
                Answer::Right(_) => (self.progressed(i, deck), bar_progressed(self, footer, i, deck)),
                Answer::Wrong(_) => (self.regressed(i, deck), bar_regressed(self, footer, i, deck)),
                Answer::Counted(_) => (self.failed(i), footer),
            }
        } else {
            (self, footer)
        }
    }

    /// The list and the bar after a run of answers.
    pub open spec fn answered_all(self, footer: FooterModel, deck: CardSet, answers: Seq<Answer>) -> (
        ListModel<'a>,
        FooterModel,
    )
        decreases answers.len(),
    {
        if answers.len() == 0 {
            (self, footer)
        } else {
            let (list, bar) = self.answered_all(footer, deck, answers.drop_last());
            list.answered(bar, deck, answers.last())
        }
    }

    /// Whatever answers are given and in whatever order, the bar stays in
    /// step with the list and counts as many items as the study of the set
    /// started with.
    pub proof fn lemma_bar_counts_all_ever(self, footer: FooterModel, deck: CardSet, answers: Seq<Answer>)
        requires
            self.wf(deck),
            footer.wf(),
            in_step(self, footer),
        ensures
            self.answered_all(footer, deck, answers).0.wf(deck),
            self.answered_all(footer, deck, answers).1.wf(),
            in_step(self.answered_all(footer, deck, answers).0, self.answered_all(footer, deck, answers).1),
            self.answered_all(footer, deck, answers).1.total() == deck.item_count(),
            self.answered_all(footer, deck, answers).0.total() == deck.item_count(),
        decreases answers.len(),
    {
        if answers.len() == 0 {
            self.lemma_bar_counts_all(footer, deck);
        } else {
            self.lemma_bar_counts_all_ever(footer, deck, answers.drop_last());
            let (list, bar) = self.answered_all(footer, deck, answers.drop_last());
            let i = answers.last().place();
            if 0 <= i < list.items.len() {
                list.lemma_progressed(bar, i, deck);
                list.lemma_regressed(bar, i, deck);
                list.lemma_failed(bar, i, deck);
            }
            let (after, bar_after) = list.answered(bar, deck, answers.last());
        }
    }

    /// The list after the item at `i` was answered rightly `times` times in
    /// a row, as long as it was there.
    pub open spec fn progressed_times(self, i: int, deck: CardSet, times: nat) -> ListModel<'a>
        decreases times,
    {
        if times == 0 {
            self
        } else {
            let before = self.progressed_times(i, deck, (times - 1) as nat);
            if 0 <= i < before.items.len() && before.mastered == self.mastered {
                before.progressed(i, deck)
            } else {
                before
            }
        }
    }

    /// Right answers in a row master an item in as many answers as its
    /// stage is from mastery, and in no fewer: until then the item stays in
    /// the list, one stage further on with each answer.
    pub proof fn lemma_mastery_in_a_row(self, i: int, deck: CardSet, times: nat)
        requires
            self.wf(deck),
            0 <= i < self.items.len(),
            times <= self.items[i].next_study_type.answers_to_mastery(deck.settings(self.items[i].side)),
        ensures
            times < self.items[i].next_study_type.answers_to_mastery(deck.settings(self.items[i].side)) ==> {
                let after = self.progressed_times(i, deck, times);
                &&& after.mastered == self.mastered
                &&& after.items.len() == self.items.len()
                &&& after.items[i].card == self.items[i].card
                &&& after.items[i].side == self.items[i].side
                &&& after.items[i].next_study_type.allowed(deck.settings(self.items[i].side))
                &&& after.items[i].next_study_type.answers_to_mastery(deck.settings(self.items[i].side)) + times
                    == self.items[i].next_study_type.answers_to_mastery(deck.settings(self.items[i].side))
            },
            times == self.items[i].next_study_type.answers_to_mastery(deck.settings(self.items[i].side)) ==> {
                let after = self.progressed_times(i, deck, times);
                &&& after.mastered == self.mastered + 1
                &&& after.items.len() == self.items.len() - 1
            },
        decreases times,
    {
        if times > 0 {
            self.lemma_mastery_in_a_row(i, deck, (times - 1) as nat);
        }
    }
}

} // verus!
