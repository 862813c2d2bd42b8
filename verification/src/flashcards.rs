//! The flashcard model: sides, recall settings, card texts, cards and sets.

pub mod parse;

use crate::chars::{lowercase, to_lowercase, trim_text, trimmed};
use crate::output::Color;
use crate::random::pick;
use vstd::prelude::*;

verus! {

/// One face of a flashcard.
#[derive(Debug, Copy, Clone, PartialEq, Eq, Structural)]
pub enum Side {
    Term,
    Definition,
}

impl Side {
    /// The other face: `Term` for `Definition` and the reverse.
    pub open spec fn flip(self) -> Side {
        match self {
            Side::Term => Side::Definition,
            Side::Definition => Side::Term,
        }
    }

    /// Position of this side in a two-slot table: 0 for the term, 1 for the
    /// definition.
    pub open spec fn slot(self) -> int {
        match self {
            Side::Term => 0,
            Side::Definition => 1,
        }
    }

    /// The name of the side in messages.
    pub open spec fn name(self) -> Seq<char> {
        match self {
            Side::Term => "term"@,
            Side::Definition => "definition"@,
        }
    }

    /// Returns the slot of this side in a two-slot table.
    pub fn index(self) -> (i: usize)
        ensures
            i == self.slot(),
    {
        match self {
            Side::Term => 0,
            Side::Definition => 1,
        }
    }

    /// The colour in which the side is drawn: blue for the term, green for
    /// the definition.
    pub open spec fn spec_color(self) -> Color {
        match self {
            Side::Term => Color::Blue,
            Side::Definition => Color::Green,
        }
    }

    /// The colour in which the side is drawn.
    pub fn color(self) -> (color: Color)
        ensures
            color == self.spec_color(),
    {
        match self {
            Side::Term => Color::Blue,
            Side::Definition => Color::Green,
        }
    }

    /// The name of the side: `term` or `definition`.
    pub fn to_text(self) -> (text: String)
        ensures
            text@ == self.name(),
    {
        match self {
            Side::Term => String::from_str("term"),
            Side::Definition => String::from_str("definition"),
        }
    }
}

impl core::ops::Not for Side {
    type Output = Side;

    fn not(self) -> (other: Side) {
        match self {
            Side::Term => Side::Definition,
            Side::Definition => Side::Term,
        }
    }
}

impl vstd::std_specs::ops::NotSpecImpl for Side {
    open spec fn obeys_not_spec() -> bool {
        true
    }

    open spec fn not_req(self) -> bool {
        true
    }

    open spec fn not_spec(self) -> Side {
        self.flip()
    }
}

/// Which study modes apply when one side of the cards is recalled.
#[derive(Debug, Clone, Copy, PartialEq, Eq, Structural)]
pub struct RecallSettings {
    pub matching: bool,
    pub text: bool,
}

impl RecallSettings {
    /// True iff at least one of the two modes is switched on.
    pub open spec fn used(self) -> bool {
        self.matching || self.text
    }

    /// Whether one of the two modes is on.
    pub fn is_used(&self) -> (used: bool)
        ensures
            used == self.used(),
    {
        self.matching || self.text
    }
}

impl Default for RecallSettings {
    fn default() -> (settings: RecallSettings)
        ensures
            settings == (RecallSettings { matching: false, text: false }),
    {
        RecallSettings { matching: false, text: false }
    }
}

/// The variants of one card text, kept in a `smallvec::SmallVec` that holds
/// the first of them inline. The verifier does not look inside: what the
/// collection holds is `variants_of`, and it is handled through the
/// functions below, whose contracts say what the methods of `SmallVec` do.
#[verifier::external_body]
#[derive(Debug)]
pub struct Variants {
    items: smallvec::SmallVec<[String; 1]>,
}

/// The strings that a collection of variants holds, in order.
pub uninterp spec fn variants_of(v: Variants) -> Seq<Seq<char>>;

/// `SmallVec::new_const`: a collection that holds nothing.
#[verifier::external_body]
fn variants_new() -> (v: Variants)
    ensures
        variants_of(v) == Seq::<Seq<char>>::empty(),
{
    Variants { items: smallvec::SmallVec::new_const() }
}

/// `SmallVec::push`: the value is added behind the others. (Like `Vec::push`
/// it fails only where memory does.)
#[verifier::external_body]
fn variants_push(v: &mut Variants, value: String)
    ensures
        variants_of(*final(v)) == variants_of(*old(v)).push(value@),
{
    v.items.push(value)
}

/// `SmallVec::insert`: the value is put at `index` and what stood there or
/// behind it moves one place on. An index past the end panics.
#[verifier::external_body]
fn variants_insert(v: &mut Variants, index: usize, value: String)
    requires
        index <= variants_of(*old(v)).len(),
    ensures
        variants_of(*final(v)) == variants_of(*old(v)).insert(index as int, value@),
{
    v.items.insert(index, value)
}

/// `SmallVec::len`: how many values are held.
#[verifier::external_body]
fn variants_len(v: &Variants) -> (n: usize)
    ensures
        n == variants_of(*v).len(),
{
    v.items.len()
}

/// `SmallVec::as_slice`: the values as a slice, in order.
#[verifier::external_body]
fn variants_as_slice(v: &Variants) -> (items: &[String])
    ensures
        items.deep_view() == variants_of(*v),
{
    v.items.as_slice()
}

/// `SmallVec::clone`: a collection that holds equal values in the same order.
#[verifier::external_body]
fn variants_clone(v: &Variants) -> (copy: Variants)
    ensures
        variants_of(copy) == variants_of(*v),
{
    Variants { items: v.items.clone() }
}

/// What one side of a card says: the variants that may be shown, and further
/// ones that count as right answers but are never shown.
pub struct TextModel {
    pub displayable: Seq<Seq<char>>,
    pub accepted: Seq<Seq<char>>,
}

impl TextModel {
    /// Every variant, the displayable ones first.
    pub open spec fn all(self) -> Seq<Seq<char>> {
        self.displayable + self.accepted
    }
}

/// An answer as it is compared: trimmed, in lower case.
pub open spec fn normalized(text: Seq<char>) -> Seq<char> {
    lowercase(trimmed(text))
}

/// Whether `answer` is one of `variants` once both are normalised.
pub open spec fn matches_any(variants: Seq<Seq<char>>, answer: Seq<char>) -> bool {
    exists|i: int| 0 <= i < variants.len() && normalized(#[trigger] variants[i]) == normalized(answer)
}

/// The text of one side of a flashcard.
#[derive(Debug)]
pub struct FlashcardText {
    values: Variants,
    num_display: usize,
}

impl View for FlashcardText {
    type V = TextModel;

    closed spec fn view(&self) -> TextModel {
        let all = variants_of(self.values);
        let n = if self.num_display <= all.len() {
            self.num_display as int
        } else {
            all.len() as int
        };
        TextModel { displayable: all.take(n), accepted: all.skip(n) }
    }
}

/// Normalises an answer for comparison.
pub fn normalize(text: &str) -> (plain: String)
    ensures
        plain@ == normalized(text@),
{
    to_lowercase(trim_text(text).as_str())
}

/// The first place at which `wanted` stands in `texts`, if it stands there.
pub fn position_of(texts: &Vec<String>, wanted: &String) -> (found: Option<usize>)
    ensures
        match found {
            Some(i) => i < texts.len() && texts[i as int]@ == wanted@ && forall|j: int|
                0 <= j < i ==> texts[j]@ != wanted@,
            None => forall|j: int| 0 <= j < texts.len() ==> texts[j]@ != wanted@,
        },
{
    let mut i: usize = 0;
    while i < texts.len()
        invariant
            i <= texts.len(),
            forall|j: int| 0 <= j < i ==> texts[j]@ != wanted@,
        decreases texts.len() - i,
    {
        if texts[i] == *wanted {
            return Some(i);
        }
        i = i + 1;
    }
    None
}

impl FlashcardText {
    /// Number of leading variants that are displayable.
    fn split(&self) -> (n: usize)
        ensures
            n == self@.displayable.len(),
            n <= variants_of(self.values).len(),
            self@.displayable == variants_of(self.values).take(n as int),
            self@.accepted == variants_of(self.values).skip(n as int),
            self@.all() == variants_of(self.values),
    {
        let len = variants_len(&self.values);
        let n = if self.num_display <= len {
            self.num_display
        } else {
            len
        };
        n
    }

    /// A text with one variant, which is displayable.
    pub fn new(text: String) -> (made: FlashcardText)
        ensures
            made@.displayable == seq![text@],
            made@.accepted == Seq::<Seq<char>>::empty(),
    {
        let mut values = variants_new();
        variants_push(&mut values, text);
        let made = FlashcardText { values, num_display: 1 };
        made
    }

    /// A text without any variant.
    pub fn empty() -> (text: FlashcardText)
        ensures
            text@.displayable == Seq::<Seq<char>>::empty(),
            text@.accepted == Seq::<Seq<char>>::empty(),
    {
        let text = FlashcardText { values: variants_new(), num_display: 0 };
        text
    }

    /// A text can be studied if there is a variant to show.
    pub open spec fn valid(&self) -> bool {
        self@.displayable.len() > 0
    }

    /// Whether the text has a variant to show.
    pub fn is_valid(&self) -> (valid: bool)
        ensures
            valid == self.valid(),
    {
        self.split() > 0
    }

    /// Adds a variant that may be shown, behind those there are.
    pub fn push_display(&mut self, val: String)
        ensures
            final(self)@.displayable == old(self)@.displayable.push(val@),
            final(self)@.accepted == old(self)@.accepted,
    {
        let n = self.split();
        variants_insert(&mut self.values, n, val);
        let len = variants_len(&self.values);
        assert(n < len);
        self.num_display = n + 1;
    }

    /// Adds a variant that is accepted as an answer but never shown.
    pub fn push_accepted(&mut self, val: String)
        ensures
            final(self)@.displayable == old(self)@.displayable,
            final(self)@.accepted == old(self)@.accepted.push(val@),
    {
        let n = self.split();
        variants_push(&mut self.values, val);
        self.num_display = n;
    }

    /// The variants that may be shown.
    pub fn displayable(&self) -> (items: &[String])
        ensures
            items.deep_view() == self@.displayable,
    {
        let all = variants_as_slice(&self.values);
        let n = self.split();
        vstd::slice::slice_subrange(all, 0, n)
    }

    /// One of the variants that may be shown, picked at random.
    pub fn display(&self) -> (shown: &str)
        requires
            self.valid(),
        ensures
            self@.displayable.contains(shown@),
    {
        let items = self.displayable();
        match pick(items) {
            Some(shown) => {
                proof {
                    let i = choose|i: int| 0 <= i < items@.len() && items@[i] == *shown;
                    assert(items.deep_view()[i] == shown@);
                }
                shown.as_str()
            },
            None => vstd::pervasive::unreached(),
        }
    }

    /// The variants that are accepted but never shown.
    pub fn other_accepted(&self) -> (items: &[String])
        ensures
            items.deep_view() == self@.accepted,
    {
        let all = variants_as_slice(&self.values);
        let n = self.split();
        vstd::slice::slice_subrange(all, n, all.len())
    }

    /// Whether `answer` is right for this side: whether, trimmed and in lower
    /// case, it equals one of the variants, shown or not, treated alike. The
    /// recall settings have no part in it.
    pub fn contains(&self, answer: &str, recall_settings: &RecallSettings) -> (right: bool)
        ensures
            right == matches_any(self@.all(), answer@),
    {
        let all = variants_as_slice(&self.values);
        assert(self@.all() =~= variants_of(self.values));
        let wanted = normalize(answer);
        let mut plain: Vec<String> = Vec::new();
        let mut i: usize = 0;
        while i < all.len()
            invariant
                i <= all.len(),
                all.deep_view() == self@.all(),
                plain.len() == i,
                forall|j: int| 0 <= j < i ==> plain[j]@ == normalized(#[trigger] self@.all()[j]),
            decreases all.len() - i,
        {
            plain.push(normalize(all[i].as_str()));
            i = i + 1;
        }
        let found = position_of(&plain, &wanted);
        proof {
            match found {
                Some(k) => {
                    assert(normalized(self@.all()[k as int]) == normalized(answer@));
                },
                None => {},
            }
        }
        found.is_some()
    }
}

impl From<String> for FlashcardText {
    /// The text with `s` as its one variant, which is displayable.
    fn from(s: String) -> (text: FlashcardText)
        ensures
            text@.displayable == seq![s@],
            text@.accepted == Seq::<Seq<char>>::empty(),
    {
        FlashcardText::new(s)
    }
}

impl vstd::std_specs::convert::FromSpecImpl<String> for FlashcardText {
    open spec fn obeys_from_spec() -> bool {
        false
    }

    open spec fn from_spec(s: String) -> FlashcardText {
        arbitrary()
    }
}

impl<'a> From<&'a str> for FlashcardText {
    /// The text with `s` as its one variant, which is displayable.
    fn from(s: &'a str) -> (text: FlashcardText)
        ensures
            text@.displayable == seq![s@],
            text@.accepted == Seq::<Seq<char>>::empty(),
    {
        FlashcardText::new(s.to_owned())
    }
}

impl<'a> vstd::std_specs::convert::FromSpecImpl<&'a str> for FlashcardText {
    open spec fn obeys_from_spec() -> bool {
        false
    }

    open spec fn from_spec(s: &'a str) -> FlashcardText {
        arbitrary()
    }
}

impl<'a, 'b> From<&'a [&'b str]> for FlashcardText {
    /// The text with the strings of `list` as its variants, in order, all of
    /// them displayable.
    fn from(list: &'a [&'b str]) -> (text: FlashcardText)
        ensures
            text@.displayable == Seq::new(list@.len(), |i: int| list@[i]@),
            text@.accepted == Seq::<Seq<char>>::empty(),
    {
        let mut text = FlashcardText::empty();
        let mut i: usize = 0;
        while i < list.len()
            invariant
                i <= list@.len(),
                text@.displayable == Seq::new(i as nat, |k: int| list@[k]@),
                text@.accepted == Seq::<Seq<char>>::empty(),
            decreases list@.len() - i,
        {
            text.push_display(list[i].to_owned());
            i = i + 1;
        }
        text
    }
}

impl<'a, 'b> vstd::std_specs::convert::FromSpecImpl<&'a [&'b str]> for FlashcardText {
    open spec fn obeys_from_spec() -> bool {
        false
    }

    open spec fn from_spec(list: &'a [&'b str]) -> FlashcardText {
        arbitrary()
    }
}

impl Clone for FlashcardText {
    fn clone(&self) -> (copy: FlashcardText)
        ensures
            copy@ == self@,
    {
        let n = self.split();
        let copy = FlashcardText { values: variants_clone(&self.values), num_display: n };
        copy
    }
}

/// What a flashcard stands for: the texts of its two sides.
pub struct CardModel {
    pub term: TextModel,
    pub definition: TextModel,
}

/// A flashcard: a term and its definition.
#[derive(Debug, Clone)]
pub struct Flashcard {
    pub term: FlashcardText,
    pub definition: FlashcardText,
}

impl View for Flashcard {
    type V = CardModel;

    open spec fn view(&self) -> CardModel {
        CardModel { term: self.term@, definition: self.definition@ }
    }
}

impl Flashcard {
    /// The text on one side of the card.
    pub open spec fn on(self, side: Side) -> FlashcardText {
        match side {
            Side::Term => self.term,
            Side::Definition => self.definition,
        }
    }

    /// A card can be studied if both of its sides can.
    pub open spec fn valid(&self) -> bool {
        self.term.valid() && self.definition.valid()
    }

    /// A card whose sides hold nothing yet.
    pub fn empty() -> (card: Flashcard)
        ensures
            card.term@.all().len() == 0,
            card.definition@.all().len() == 0,
    {
        Flashcard { term: FlashcardText::empty(), definition: FlashcardText::empty() }
    }

    /// Whether both sides of the card have a variant to show.
    pub fn is_valid(&self) -> (valid: bool)
        ensures
            valid == self.valid(),
    {
        self.term.is_valid() && self.definition.is_valid()
    }
}

impl core::ops::Index<Side> for Flashcard {
    type Output = FlashcardText;

    fn index(&self, index: Side) -> (text: &FlashcardText)
        ensures
            *text == self.on(index),
    {
        match index {
            Side::Term => &self.term,
            Side::Definition => &self.definition,
        }
    }
}

impl vstd::std_specs::core::IndexSpecImpl<Side> for Flashcard {
    open spec fn index_req(&self, index: &Side) -> bool {
        true
    }
}

/// What a set of flashcards stands for.
pub struct SetModel {
    pub recall_t: RecallSettings,
    pub recall_d: RecallSettings,
    pub cards: Seq<CardModel>,
}

/// A set of flashcards with the recall settings of its two sides.
#[derive(Debug, Clone)]
pub struct CardSet {
    /// How the term is recalled.
    pub recall_t: RecallSettings,
    /// How the definition is recalled.
    pub recall_d: RecallSettings,
    pub cards: Vec<Flashcard>,
}

impl View for CardSet {
    type V = SetModel;

    open spec fn view(&self) -> SetModel {
        SetModel {
            recall_t: self.recall_t,
            recall_d: self.recall_d,
            cards: Seq::new(self.cards@.len(), |i: int| self.cards@[i]@),
        }
    }
}

impl CardSet {
    /// The recall settings that govern one side.
    pub open spec fn settings(self, side: Side) -> RecallSettings {
        match side {
            Side::Term => self.recall_t,
            Side::Definition => self.recall_d,
        }
    }

    /// How many items the study of the set starts with: one for each card
    /// on each side that is used.
    pub open spec fn item_count(self) -> int {
        (if self.recall_t.used() {
            self.cards.len() as int
        } else {
            0
        }) + (if self.recall_d.used() {
            self.cards.len() as int
        } else {
            0
        })
    }

    /// A set can be studied if each of its cards can.
    pub open spec fn valid(&self) -> bool {
        forall|i: int| 0 <= i < self.cards.len() ==> (#[trigger] self.cards[i]).valid()
    }

    /// The recall settings for a side.
    pub fn recall_settings(&self, side: Side) -> (settings: &RecallSettings)
        ensures
            *settings == self.settings(side),
    {
        match side {
            Side::Term => &self.recall_t,
            Side::Definition => &self.recall_d,
        }
    }
}

} // verus!
