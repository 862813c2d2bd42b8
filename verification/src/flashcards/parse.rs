//! Reading a set of flashcards from text.
//!
//! The text is read line by line, each line without the white space around
//! it. Empty lines part the text into blocks. A block whose first line starts
//! with `[` sets something: `[recall_t]` and `[recall_d]` switch on, for the
//! term and for the definition, the modes that the lines below them name,
//! `matching` or `text`. Any other block is a card: each of its lines is a
//! tag, a colon and a text, `T` and `D` for a term or a definition that may
//! be shown, `t` and `d` for one that is only accepted as an answer.

use crate::chars::{chars_of, debug_form, quoted, slice_text, text_of, trim_chars, trimmed};
use crate::output::{decimal, decimal_text};
use crate::flashcards::{
    CardModel, CardSet, Flashcard, RecallSettings, SetModel, Side, TextModel,
};
use vstd::prelude::*;

verus! {

/// What is wrong with a line of a block of recall settings.
#[derive(Debug)]
pub enum ParseRecallTypeError {
    UnknownSetting { name: String, line_number: u32 },
}

/// What is wrong with a card.
#[derive(Debug)]
pub enum ParseFlashcardItemError {
    MissingTag { line_number: u32 },
    UnknownTag { tag: String, line_number: u32 },
    MissingSide(Side),
}

/// What is wrong with a block.
#[derive(Debug)]
pub enum ParseBlockError {
    UnknownBlock { name: String, line_number: u32 },
    ParseRecallTypeErrors { errors: Vec<ParseRecallTypeError>, line_number: u32 },
    ParseFlashcardErrors { errors: Vec<ParseFlashcardItemError>, line_number: u32 },
}

/// A wrong line of recall settings, its text as characters.
pub enum RecallFault {
    UnknownSetting { name: Seq<char>, line_number: u32 },
}

/// A wrong card, its texts as characters.
pub enum ItemFault {
    MissingTag { line_number: u32 },
    UnknownTag { tag: Seq<char>, line_number: u32 },
    MissingSide(Side),
}

/// A wrong block, its texts as characters.
pub enum BlockFault {
    UnknownBlock { name: Seq<char>, line_number: u32 },
    ParseRecallTypeErrors { errors: Seq<RecallFault>, line_number: u32 },
    ParseFlashcardErrors { errors: Seq<ItemFault>, line_number: u32 },
}

impl View for ParseRecallTypeError {
    type V = RecallFault;

    open spec fn view(&self) -> RecallFault {
        match *self {
            ParseRecallTypeError::UnknownSetting { name, line_number } => RecallFault::UnknownSetting {
                name: name@,
                line_number,
            },
        }
    }
}

impl View for ParseFlashcardItemError {
    type V = ItemFault;

    open spec fn view(&self) -> ItemFault {
        match *self {
            ParseFlashcardItemError::MissingTag { line_number } => ItemFault::MissingTag { line_number },
            ParseFlashcardItemError::UnknownTag { tag, line_number } => ItemFault::UnknownTag {
                tag: tag@,
                line_number,
            },
            ParseFlashcardItemError::MissingSide(side) => ItemFault::MissingSide(side),
        }
    }
}

/// The faults that a vector of errors of recall settings stands for.
pub open spec fn recall_faults(errors: Seq<ParseRecallTypeError>) -> Seq<RecallFault> {
    Seq::new(errors.len(), |i: int| errors[i]@)
}

/// The faults that a vector of errors of a card stands for.
pub open spec fn item_faults(errors: Seq<ParseFlashcardItemError>) -> Seq<ItemFault> {
    Seq::new(errors.len(), |i: int| errors[i]@)
}

impl View for ParseBlockError {
    type V = BlockFault;

    open spec fn view(&self) -> BlockFault {
        match *self {
            ParseBlockError::UnknownBlock { name, line_number } => BlockFault::UnknownBlock {
                name: name@,
                line_number,
            },
            ParseBlockError::ParseRecallTypeErrors { errors, line_number } => BlockFault::ParseRecallTypeErrors {
                errors: recall_faults(errors@),
                line_number,
            },
            ParseBlockError::ParseFlashcardErrors { errors, line_number } => BlockFault::ParseFlashcardErrors {
                errors: item_faults(errors@),
                line_number,
            },
        }
    }
}

/// The faults that a vector of errors of blocks stands for.
pub open spec fn block_faults(errors: Seq<ParseBlockError>) -> Seq<BlockFault> {
    Seq::new(errors.len(), |i: int| errors[i]@)
}

/// Where the first line of `text` ends: at its first line feed, or at its
/// end.
pub open spec fn line_end(text: Seq<char>) -> nat
    decreases text.len(),
{
    if text.len() > 0 && text[0] != '\n' {
        1 + line_end(text.drop_first())
    } else {
        0
    }
}

/// The lines of `text`, without the line feeds that part them. A line feed
/// at the end of the text starts no further line.
pub open spec fn lines_of(text: Seq<char>) -> Seq<Seq<char>>
    decreases text.len(),
{
    if text.len() == 0 {
        Seq::empty()
    } else {
        let end = line_end(text);
        if end < text.len() {
            seq![text.take(end as int)] + lines_of(text.skip(end as int + 1))
        } else {
            seq![text]
        }
    }
}

/// The lines of `text`, each without the white space around it.
pub open spec fn trimmed_lines(text: Seq<char>) -> Seq<Seq<char>> {
    Seq::new(lines_of(text).len(), |i: int| trimmed(lines_of(text)[i]))
}

/// The number of the line at place `index`: the first line is line 1. The
/// numbers stop at the largest there is.
pub open spec fn line_number(index: int) -> u32 {
    if index + 1 > u32::MAX {
        u32::MAX
    } else {
        (index + 1) as u32
    }
}

/// The white space of ASCII: blank, tab, line feed, form feed and carriage
/// return.
pub open spec fn ascii_white_space(c: char) -> bool {
    c == ' ' || c == '\t' || c == '\n' || c == '\x0C' || c == '\r'
}

/// `text` without its first character, if that is ASCII white space.
pub open spec fn without_blank(text: Seq<char>) -> Seq<char> {
    if text.len() > 0 && ascii_white_space(text[0]) {
        text.drop_first()
    } else {
        text
    }
}

/// How many characters stand before the first colon of `line`; the length
/// of the line where it has no colon.
pub open spec fn tag_length(line: Seq<char>) -> nat
    decreases line.len(),
{
    if line.len() > 0 && line[0] != ':' {
        1 + tag_length(line.drop_first())
    } else {
        0
    }
}

/// What a line of a card says.
pub enum Item {
    /// A text of one side; it may be shown if `display`.
    Text { side: Side, display: bool, text: Seq<char> },
    Fault(ItemFault),
}

/// What the line `line` with the number `number` says of a card.
pub open spec fn item_of(line: Seq<char>, number: u32) -> Item {
    let colon = tag_length(line);
    if colon >= line.len() {
        Item::Fault(ItemFault::MissingTag { line_number: number })
    } else {
        let tag = line.take(colon as int);
        let text = without_blank(line.skip(colon as int + 1));
        if tag == seq!['T'] {
            Item::Text { side: Side::Term, display: true, text }
        } else if tag == seq!['D'] {
            Item::Text { side: Side::Definition, display: true, text }
        } else if tag == seq!['t'] {
            Item::Text { side: Side::Term, display: false, text }
        } else if tag == seq!['d'] {
            Item::Text { side: Side::Definition, display: false, text }
        } else {
            Item::Fault(ItemFault::UnknownTag { tag, line_number: number })
        }
    }
}

/// What the lines of a card have said so far.
pub struct CardDraft {
    pub term: TextModel,
    pub definition: TextModel,
    pub faults: Seq<ItemFault>,
}

impl TextModel {
    /// The text with one more variant.
    pub open spec fn with(self, display: bool, text: Seq<char>) -> TextModel {
        if display {
            TextModel { displayable: self.displayable.push(text), ..self }
        } else {
            TextModel { accepted: self.accepted.push(text), ..self }
        }
    }
}

impl CardDraft {
    /// A card of which nothing is read yet.
    pub open spec fn empty() -> CardDraft {
        CardDraft {
            term: TextModel { displayable: Seq::empty(), accepted: Seq::empty() },
            definition: TextModel { displayable: Seq::empty(), accepted: Seq::empty() },
            faults: Seq::empty(),
        }
    }

    /// The draft with what one more line says.
    pub open spec fn with(self, item: Item) -> CardDraft {
        match item {
            Item::Text { side: Side::Term, display, text } => CardDraft {
                term: self.term.with(display, text),
                ..self
            },
            Item::Text { side: Side::Definition, display, text } => CardDraft {
                definition: self.definition.with(display, text),
                ..self
            },
            Item::Fault(fault) => CardDraft { faults: self.faults.push(fault), ..self },
        }
    }

    /// The card is whole: no line was at fault and each side has a text to
    /// show.
    pub open spec fn whole(self) -> bool {
        self.faults.len() == 0 && self.term.displayable.len() > 0 && self.definition.displayable.len() > 0
    }

    /// Everything that is wrong with the card: the faults of its lines, then
    /// the sides that have no text to show.
    pub open spec fn all_faults(self) -> Seq<ItemFault> {
        self.faults + (if self.term.displayable.len() == 0 {
            seq![ItemFault::MissingSide(Side::Term)]
        } else {
            Seq::empty()
        }) + (if self.definition.displayable.len() == 0 {
            seq![ItemFault::MissingSide(Side::Definition)]
        } else {
            Seq::empty()
        })
    }
}

/// What the lines from `from` up to `to` say of a card.
pub open spec fn card_of(lines: Seq<Seq<char>>, from: int, to: int) -> CardDraft
    decreases to - from,
{
    if to <= from {
        CardDraft::empty()
    } else {
        card_of(lines, from, to - 1).with(item_of(lines[to - 1], line_number(to - 1)))
    }
}

/// What the lines of a block of recall settings have said so far.
pub struct SettingsDraft {
    pub matching: bool,
    pub text: bool,
    pub faults: Seq<RecallFault>,
}

impl SettingsDraft {
    /// The draft with what one more line says.
    pub open spec fn with(self, line: Seq<char>, number: u32) -> SettingsDraft {
        if line == "matching"@ {
            SettingsDraft { matching: true, ..self }
        } else if line == "text"@ {
            SettingsDraft { text: true, ..self }
        } else {
            SettingsDraft {
                faults: self.faults.push(RecallFault::UnknownSetting { name: line, line_number: number }),
                ..self
            }
        }
    }
}

/// What the lines from `from` up to `to` say of recall settings that
/// stand at `start`.
pub open spec fn settings_of(lines: Seq<Seq<char>>, from: int, to: int, start: RecallSettings) -> SettingsDraft
    decreases to - from,
{
    if to <= from {
        SettingsDraft { matching: start.matching, text: start.text, faults: Seq::empty() }
    } else {
        settings_of(lines, from, to - 1, start).with(lines[to - 1], line_number(to - 1))
    }
}

/// Where the block that starts at line `at` ends: at the next empty line or
/// at the end of the text.
pub open spec fn block_end(lines: Seq<Seq<char>>, at: int) -> int
    decreases lines.len() - at,
{
    if 0 <= at < lines.len() && lines[at].len() > 0 {
        block_end(lines, at + 1)
    } else {
        at
    }
}

/// A block ends at or behind its start, within the text, and at an empty
/// line if it ends before the end of the text; no line of it is empty.
pub proof fn lemma_block_end(lines: Seq<Seq<char>>, at: int)
    requires
        0 <= at <= lines.len(),
    ensures
        at <= block_end(lines, at) <= lines.len(),
        at < lines.len() && lines[at].len() > 0 ==> at < block_end(lines, at),
        block_end(lines, at) < lines.len() ==> lines[block_end(lines, at)].len() == 0,
        forall|i: int| at <= i < block_end(lines, at) ==> (#[trigger] lines[i]).len() > 0,
    decreases lines.len() - at,
{
    if at < lines.len() && lines[at].len() > 0 {
        lemma_block_end(lines, at + 1);
    }
}

/// What has been read of a set.
pub struct Draft {
    pub recall_t: RecallSettings,
    pub recall_d: RecallSettings,
    pub cards: Seq<CardModel>,
    pub faults: Seq<BlockFault>,
}

impl Draft {
    /// A set of which nothing is read yet.
    pub open spec fn empty() -> Draft {
        Draft {
            recall_t: RecallSettings { matching: false, text: false },
            recall_d: RecallSettings { matching: false, text: false },
            cards: Seq::empty(),
            faults: Seq::empty(),
        }
    }

    /// The draft with the recall settings of one side read from the block
    /// from `at` up to `end`.
    pub open spec fn with_settings(self, lines: Seq<Seq<char>>, at: int, end: int, side: Side) -> Draft {
        let read = settings_of(
            lines,
            at + 1,
            end,
            match side {
                Side::Term => self.recall_t,
                Side::Definition => self.recall_d,
            },
        );
        let settings = RecallSettings { matching: read.matching, text: read.text };
        let faults = if read.faults.len() > 0 {
            self.faults.push(
                BlockFault::ParseRecallTypeErrors { errors: read.faults, line_number: line_number(at) },
            )
        } else {
            self.faults
        };
        match side {
            Side::Term => Draft { recall_t: settings, faults, ..self },
            Side::Definition => Draft { recall_d: settings, faults, ..self },
        }
    }

    /// The draft with the block from `at` up to `end` read.
    pub open spec fn with_block(self, lines: Seq<Seq<char>>, at: int, end: int) -> Draft {
        if lines[at][0] == '[' {
            if lines[at] == "[recall_t]"@ {
                self.with_settings(lines, at, end, Side::Term)
            } else if lines[at] == "[recall_d]"@ {
                self.with_settings(lines, at, end, Side::Definition)
            } else {
                Draft {
                    faults: self.faults.push(
                        BlockFault::UnknownBlock { name: lines[at], line_number: line_number(at) },
                    ),
                    ..self
                }
            }
        } else {
            let card = card_of(lines, at, end);
            if card.whole() {
                Draft {
                    cards: self.cards.push(CardModel { term: card.term, definition: card.definition }),
                    ..self
                }
            } else {
                Draft {
                    faults: self.faults.push(
                        BlockFault::ParseFlashcardErrors {
                            errors: card.all_faults(),
                            line_number: line_number(at),
                        },
                    ),
                    ..self
                }
            }
        }
    }
}

/// What is read of a set from line `at` on, when `draft` was read before.
pub open spec fn read_from(lines: Seq<Seq<char>>, at: int, draft: Draft) -> Draft
    decreases lines.len() - at,
{
    if at < 0 || at >= lines.len() {
        draft
    } else if lines[at].len() == 0 {
        read_from(lines, at + 1, draft)
    } else {
        proof {
            lemma_block_end(lines, at);
        }
        read_from(lines, block_end(lines, at), draft.with_block(lines, at, block_end(lines, at)))
    }
}

/// What is read of a set from `text`.
pub open spec fn read(text: Seq<char>) -> Draft {
    read_from(trimmed_lines(text), 0, Draft::empty())
}

/// The outcome of reading a set: the set where no block was at fault, the
/// faults otherwise.
pub open spec fn outcome(draft: Draft) -> Result<SetModel, Seq<BlockFault>> {
    if draft.faults.len() == 0 {
        Ok(SetModel { recall_t: draft.recall_t, recall_d: draft.recall_d, cards: draft.cards })
    } else {
        Err(draft.faults)
    }
}

/// The characters of each of some lines.
pub open spec fn texts(lines: Seq<Vec<char>>) -> Seq<Seq<char>> {
    Seq::new(lines.len(), |i: int| lines[i]@)
}

/// The first line of the text behind `at`, and how the lines go on behind
/// it.
pub proof fn lemma_line_end_step(text: Seq<char>, at: int)
    requires
        0 <= at <= text.len(),
    ensures
        line_end(text.skip(at)) == if at < text.len() && text[at] != '\n' {
            1 + line_end(text.skip(at + 1))
        } else {
            0
        },
{
    if at < text.len() {
        assert(text.skip(at).drop_first() =~= text.skip(at + 1));
    }
}

/// The characters of `chars` from `from` up to `to`, without the white space
/// around them.
fn trim_line(chars: &Vec<char>, from: usize, to: usize) -> (line: Vec<char>)
    requires
        from <= to <= chars.len(),
    ensures
        line@ == trimmed(chars@.subrange(from as int, to as int)),
{
    let mut raw: Vec<char> = Vec::new();
    let mut i = from;
    while i < to
        invariant
            from <= i <= to <= chars.len(),
            raw@ == chars@.subrange(from as int, i as int),
        decreases to - i,
    {
        raw.push(chars[i]);
        i = i + 1;
    }
    trim_chars(&raw)
}

/// The lines that start behind `at` are the first of them and the lines
/// behind it.
pub proof fn lemma_lines_step(text: Seq<char>, at: int, end: int)
    requires
        0 <= at < text.len(),
        end == at + line_end(text.skip(at)),
        end <= text.len(),
    ensures
        lines_of(text.skip(at)) == seq![text.subrange(at, end)] + if end < text.len() {
            lines_of(text.skip(end + 1))
        } else {
            Seq::empty()
        },
{
    let rest = text.skip(at);
    assert(rest.take(end - at) =~= text.subrange(at, end));
    if end < text.len() {
        assert(rest.skip(end - at + 1) =~= text.skip(end + 1));
    }
}

/// The lines of a text, each without the white space around it.
pub fn split_lines(text: &str) -> (lines: Vec<Vec<char>>)
    ensures
        texts(lines@) == trimmed_lines(text@),
{
    let chars = chars_of(text);
    let mut lines: Vec<Vec<char>> = Vec::new();
    let ghost mut raw: Seq<Seq<char>> = Seq::empty();
    let mut at: usize = 0;
    proof {
        assert(chars@.skip(0) =~= chars@);
    }
    while at < chars.len()
        invariant
            at <= chars.len(),
            chars@ == text@,
            lines@.len() == raw.len(),
            raw + lines_of(chars@.skip(at as int)) == lines_of(chars@),
            forall|i: int| 0 <= i < raw.len() ==> (#[trigger] lines@[i])@ == trimmed(raw[i]),
        decreases chars.len() - at,
    {
        let mut end = at;
        while end < chars.len() && chars[end] != '\n'
            invariant
                at <= end <= chars.len(),
                line_end(chars@.skip(at as int)) == (end - at) + line_end(chars@.skip(end as int)),
            decreases chars.len() - end,
        {
            proof {
                lemma_line_end_step(chars@, end as int);
            }
            end = end + 1;
        }
        proof {
            lemma_lines_step(chars@, at as int, end as int);
        }
        lines.push(trim_line(&chars, at, end));
        proof {
            raw = raw.push(chars@.subrange(at as int, end as int));
        }
        at = if end < chars.len() {
            end + 1
        } else {
            end
        };
    }
    lines
}

/// The number of the line at place `index`.
pub fn number_of(index: usize) -> (number: u32)
    ensures
        number == line_number(index as int),
{
    if index >= 0xffff_ffff {
        0xffff_ffff
    } else {
        (index + 1) as u32
    }
}

/// Whether `line` spells `word`.
fn spells(line: &Vec<char>, word: &str) -> (same: bool)
    ensures
        same == (line@ == word@),
{
    let len = word.unicode_len();
    if line.len() != len {
        return false;
    }
    let mut i: usize = 0;
    while i < len
        invariant
            i <= len,
            len == word@.len(),
            len == line@.len(),
            forall|k: int| 0 <= k < i ==> line@[k] == word@[k],
        decreases len - i,
    {
        if line[i] != word.get_char(i) {
            return false;
        }
        i = i + 1;
    }
    assert(line@ =~= word@);
    true
}

/// The faults that are counted against a card so far, with its texts.
pub open spec fn draft_of(card: Flashcard, errors: Seq<ParseFlashcardItemError>) -> CardDraft {
    CardDraft { term: card.term@, definition: card.definition@, faults: item_faults(errors) }
}

/// The step of the tag length at one character.
proof fn lemma_tag_length_step(line: Seq<char>, at: int)
    requires
        0 <= at <= line.len(),
    ensures
        tag_length(line.skip(at)) == if at < line.len() && line[at] != ':' {
            1 + tag_length(line.skip(at + 1))
        } else {
            0
        },
{
    if at < line.len() {
        assert(line.skip(at).drop_first() =~= line.skip(at + 1));
    }
}

/// Reads one line of a card into the card, or into the errors against it.
fn parse_item(line: &Vec<char>, number: u32, card: &mut Flashcard, errors: &mut Vec<ParseFlashcardItemError>)
    ensures
        draft_of(*final(card), final(errors)@) == draft_of(*old(card), old(errors)@).with(
            item_of(line@, number),
        ),
{
    let mut colon: usize = 0;
    proof {
        assert(line@.skip(0) =~= line@);
    }
    while colon < line.len() && line[colon] != ':'
        invariant
            colon <= line.len(),
            tag_length(line@) == colon + tag_length(line@.skip(colon as int)),
        decreases line.len() - colon,
    {
        proof {
            lemma_tag_length_step(line@, colon as int);
        }
        colon = colon + 1;
    }
    let ghost before = item_faults(errors@);
    if colon >= line.len() {
        errors.push(ParseFlashcardItemError::MissingTag { line_number: number });
        assert(item_faults(errors@) =~= before.push(ItemFault::MissingTag { line_number: number }));
    } else {
        let start = if colon + 1 < line.len() && is_ascii_whitespace(line[colon + 1]) {
            colon + 2
        } else {
            colon + 1
        };
        let text = slice_text(line, start, line.len());
        proof {
            let rest = line@.skip(colon + 1);
            if rest.len() > 0 && ascii_white_space(rest[0]) {
                assert(rest.drop_first() =~= line@.subrange(start as int, line@.len() as int));
            }
            assert(line@.take(colon as int).len() == colon);
        }
        let tag: Option<char> = if colon == 1 {
            Some(line[0])
        } else {
            None
        };
        proof {
            if colon == 1 {
                assert(line@.take(1) =~= seq![line@[0]]);
            }
        }
        match tag {
            Some('T') => {
                card.term.push_display(text);
            },
            Some('D') => {
                card.definition.push_display(text);
            },
            Some('t') => {
                card.term.push_accepted(text);
            },
            Some('d') => {
                card.definition.push_accepted(text);
            },
            _ => {
                let tag = slice_text(line, 0, colon);
                errors.push(ParseFlashcardItemError::UnknownTag { tag, line_number: number });
                assert(item_faults(errors@) =~= before.push(
                    ItemFault::UnknownTag { tag: line@.take(colon as int), line_number: number },
                ));
            },
        }
    }
}

/// Whether a character is white space of ASCII.
pub fn is_ascii_whitespace(c: char) -> (white: bool)
    ensures
        white == ascii_white_space(c),
{
    c == ' ' || c == '\t' || c == '\n' || c == '\x0C' || c == '\r'
}

/// Reads the card that the lines from `at` up to `end` describe, or says
/// what is wrong with it.
pub fn flashcard_from_lines(lines: &Vec<Vec<char>>, at: usize, end: usize) -> (read: Result<
    Flashcard,
    Vec<ParseFlashcardItemError>,
>)
    requires
        at <= end <= lines.len(),
    ensures
        match read {
            Ok(card) => card_of(texts(lines@), at as int, end as int).whole() && card.term@ == card_of(
                texts(lines@),
                at as int,
                end as int,
            ).term && card.definition@ == card_of(texts(lines@), at as int, end as int).definition,
            Err(errors) => !card_of(texts(lines@), at as int, end as int).whole() && item_faults(errors@)
                == card_of(texts(lines@), at as int, end as int).all_faults(),
        },
{
    let mut card = Flashcard::empty();
    let mut errors: Vec<ParseFlashcardItemError> = Vec::new();
    let mut i = at;
    proof {
        assert(card.term@.accepted =~= Seq::<Seq<char>>::empty());
        assert(card.definition@.accepted =~= Seq::<Seq<char>>::empty());
        assert(item_faults(errors@) =~= Seq::<ItemFault>::empty());
    }
    while i < end
        invariant
            at <= i <= end <= lines.len(),
            draft_of(card, errors@) == card_of(texts(lines@), at as int, i as int),
        decreases end - i,
    {
        parse_item(&lines[i], number_of(i), &mut card, &mut errors);
        i = i + 1;
    }
    if errors.len() == 0 && card.is_valid() {
        Ok(card)
    } else {
        if !card.term.is_valid() {
            errors.push(ParseFlashcardItemError::MissingSide(Side::Term));
        }
        if !card.definition.is_valid() {
            errors.push(ParseFlashcardItemError::MissingSide(Side::Definition));
        }
        Err(errors)
    }
}

impl RecallSettings {
    /// Switches on the modes that the lines from `from` up to `to` name, and
    /// adds the fault of the block to `errors` if a line names none;
    /// `line_number` is the number of the line that heads the block.
    pub fn update_from_lines(
        &mut self,
        line_number: u32,
        lines: &Vec<Vec<char>>,
        from: usize,
        to: usize,
        errors: &mut Vec<ParseBlockError>,
    )
        requires
            from <= to <= lines.len(),
        ensures
            final(self).matching == settings_of(texts(lines@), from as int, to as int, *old(self)).matching,
            final(self).text == settings_of(texts(lines@), from as int, to as int, *old(self)).text,
            block_faults(final(errors)@) == if settings_of(
                texts(lines@),
                from as int,
                to as int,
                *old(self),
            ).faults.len() > 0 {
                block_faults(old(errors)@).push(
                    BlockFault::ParseRecallTypeErrors {
                        errors: settings_of(texts(lines@), from as int, to as int, *old(self)).faults,
                        line_number,
                    },
                )
            } else {
                block_faults(old(errors)@)
            },
    {
        let mut inner_errors: Vec<ParseRecallTypeError> = Vec::new();
        let mut i = from;
        proof {
            assert(recall_faults(inner_errors@) =~= Seq::<RecallFault>::empty());
        }
        while i < to
            invariant
                from <= i <= to <= lines.len(),
                (SettingsDraft {
                    matching: self.matching,
                    text: self.text,
                    faults: recall_faults(inner_errors@),
                }) == settings_of(texts(lines@), from as int, i as int, *old(self)),
            decreases to - i,
        {
            let line = &lines[i];
            let ghost before = recall_faults(inner_errors@);
            if spells(line, "matching") {
                self.matching = true;
            } else if spells(line, "text") {
                self.text = true;
            } else {
                let name = text_of(line);
                inner_errors.push(ParseRecallTypeError::UnknownSetting { name, line_number: number_of(i) });
                assert(recall_faults(inner_errors@) =~= before.push(
                    RecallFault::UnknownSetting { name: line@, line_number: self::line_number(i as int) },
                ));
            }
            i = i + 1;
        }
        if inner_errors.len() > 0 {
            errors.push(ParseBlockError::ParseRecallTypeErrors { errors: inner_errors, line_number });
        }
    }
}

/// What has been read of a set, as a draft.
pub open spec fn draft_so_far(
    recall_t: RecallSettings,
    recall_d: RecallSettings,
    cards: Seq<Flashcard>,
    errors: Seq<ParseBlockError>,
) -> Draft {
    Draft {
        recall_t,
        recall_d,
        cards: Seq::new(cards.len(), |i: int| cards[i]@),
        faults: block_faults(errors),
    }
}

impl CardSet {
    /// Reads a set from text. Every block that is at fault is reported, in
    /// the order of the text; a set is handed out only if none is.
    pub fn parse(s: &str) -> (read: Result<CardSet, Vec<ParseBlockError>>)
        ensures
            match read {
                Ok(set) => outcome(self::read(s@)) == Ok::<SetModel, Seq<BlockFault>>(set@),
                Err(errors) => outcome(self::read(s@)) == Err::<SetModel, Seq<BlockFault>>(
                    block_faults(errors@),
                ),
            },
    {
        let lines = split_lines(s);
        let mut recall_t = RecallSettings::default();
        let mut recall_d = RecallSettings::default();
        let mut cards: Vec<Flashcard> = Vec::new();
        let mut errors: Vec<ParseBlockError> = Vec::new();
        let mut at: usize = 0;
        proof {
            assert(draft_so_far(recall_t, recall_d, cards@, errors@).cards =~= Draft::empty().cards);
            assert(draft_so_far(recall_t, recall_d, cards@, errors@).faults =~= Draft::empty().faults);
        }
        while at < lines.len()
            invariant
                at <= lines.len(),
                texts(lines@) == trimmed_lines(s@),
                read_from(texts(lines@), at as int, draft_so_far(recall_t, recall_d, cards@, errors@))
                    == self::read(s@),
            decreases lines.len() - at,
        {
            if lines[at].len() == 0 {
                at = at + 1;
            } else {
                let ghost draft = draft_so_far(recall_t, recall_d, cards@, errors@);
                let mut end = at;
                while end < lines.len() && lines[end].len() > 0
                    invariant
                        at <= end <= lines.len(),
                        block_end(texts(lines@), at as int) == block_end(texts(lines@), end as int),
                    decreases lines.len() - end,
                {
                    end = end + 1;
                }
                let number = number_of(at);
                if lines[at][0] == '[' {
                    if spells(&lines[at], "[recall_t]") {
                        recall_t.update_from_lines(number, &lines, at + 1, end, &mut errors);
                    } else if spells(&lines[at], "[recall_d]") {
                        recall_d.update_from_lines(number, &lines, at + 1, end, &mut errors);
                    } else {
                        let ghost before = block_faults(errors@);
                        let name = text_of(&lines[at]);
                        errors.push(ParseBlockError::UnknownBlock { name, line_number: number });
                        assert(block_faults(errors@) =~= before.push(
                            BlockFault::UnknownBlock { name: lines@[at as int]@, line_number: number },
                        ));
                    }
                } else {
                    match flashcard_from_lines(&lines, at, end) {
                        Ok(card) => {
                            let ghost before = draft.cards;
                            cards.push(card);
                            assert(draft_so_far(recall_t, recall_d, cards@, errors@).cards =~= before.push(card@));
                        },
                        Err(err) => {
                            proof {
                                let card = card_of(texts(lines@), at as int, end as int);
                                assert(card.all_faults().len() > 0);
                            }
                            if err.len() > 0 {
                                let ghost before = block_faults(errors@);
                                let ghost inner = item_faults(err@);
                                errors.push(
                                    ParseBlockError::ParseFlashcardErrors { errors: err, line_number: number },
                                );
                                assert(block_faults(errors@) =~= before.push(
                                    BlockFault::ParseFlashcardErrors { errors: inner, line_number: number },
                                ));
                            }
                        },
                    }
                }
                at = end;
            }
        }
        if errors.len() == 0 {
            let set = CardSet { recall_t, recall_d, cards };
            Ok(set)
        } else {
            Err(errors)
        }
    }
}

impl core::str::FromStr for CardSet {
    type Err = Vec<ParseBlockError>;

    /// Reads a set from text, as `parse` does.
    fn from_str(s: &str) -> (read: Result<CardSet, Vec<ParseBlockError>>)
        ensures
            match read {
                Ok(set) => outcome(self::read(s@)) == Ok::<SetModel, Seq<BlockFault>>(set@),
                Err(errors) => outcome(self::read(s@)) == Err::<SetModel, Seq<BlockFault>>(
                    block_faults(errors@),
                ),
            },
    {
        CardSet::parse(s)
    }
}

impl RecallFault {
    /// The message that reports the fault.
    pub open spec fn message(self) -> Seq<char> {
        match self {
            RecallFault::UnknownSetting { name, line_number } => "Unknown setting "@ + debug_form(name)
                + " on line "@ + decimal(line_number as nat),
        }
    }
}

impl ItemFault {
    /// The message that reports the fault.
    pub open spec fn message(self) -> Seq<char> {
        match self {
            ItemFault::MissingTag { line_number } => "Missing tag on line "@ + decimal(line_number as nat),
            ItemFault::UnknownTag { tag, line_number } => "Unknown tag "@ + debug_form(tag) + " on line "@
                + decimal(line_number as nat),
            ItemFault::MissingSide(side) => "Missing "@ + side.name(),
        }
    }
}

/// The messages of the faults of a block of recall settings, each on a line
/// of its own, set in by two blanks.
pub open spec fn recall_lines(faults: Seq<RecallFault>) -> Seq<char>
    decreases faults.len(),
{
    if faults.len() == 0 {
        Seq::empty()
    } else {
        recall_lines(faults.drop_last()) + "  "@ + faults.last().message() + "\n"@
    }
}

/// The messages of the faults of a card, each on a line of its own, set in
/// by two blanks.
pub open spec fn item_lines(faults: Seq<ItemFault>) -> Seq<char>
    decreases faults.len(),
{
    if faults.len() == 0 {
        Seq::empty()
    } else {
        item_lines(faults.drop_last()) + "  "@ + faults.last().message() + "\n"@
    }
}

impl BlockFault {
    /// The message that reports the fault: a line that says where the block
    /// stands, and a line for each fault in it.
    pub open spec fn message(self) -> Seq<char> {
        match self {
            BlockFault::UnknownBlock { name, line_number } => "Unknown block "@ + debug_form(name)
                + " on line "@ + decimal(line_number as nat) + "\n"@,
            BlockFault::ParseRecallTypeErrors { errors, line_number } =>
                "Unable to parse recall settings on line "@ + decimal(line_number as nat) + ":\n"@
                    + recall_lines(errors),
            BlockFault::ParseFlashcardErrors { errors, line_number } => "Unable to parse flashcard on line "@
                + decimal(line_number as nat) + ":\n"@ + item_lines(errors),
        }
    }
}

impl ParseRecallTypeError {
    /// The message that reports the error.
    pub fn to_text(&self) -> (text: String)
        ensures
            text@ == self@.message(),
    {
        match self {
            ParseRecallTypeError::UnknownSetting { name, line_number } => {
                let mut text = String::from_str("Unknown setting ");
                text.append(quoted(name.as_str()).as_str());
                text.append(" on line ");
                text.append(decimal_text(*line_number as u64).as_str());
                text
            },
        }
    }
}

impl ParseFlashcardItemError {
    /// The message that reports the error.
    pub fn to_text(&self) -> (text: String)
        ensures
            text@ == self@.message(),
    {
        match self {
            ParseFlashcardItemError::MissingTag { line_number } => {
                let mut text = String::from_str("Missing tag on line ");
                text.append(decimal_text(*line_number as u64).as_str());
                text
            },
            ParseFlashcardItemError::UnknownTag { tag, line_number } => {
                let mut text = String::from_str("Unknown tag ");
                text.append(quoted(tag.as_str()).as_str());
                text.append(" on line ");
                text.append(decimal_text(*line_number as u64).as_str());
                text
            },
            ParseFlashcardItemError::MissingSide(side) => {
                let mut text = String::from_str("Missing ");
                text.append(side.to_text().as_str());
                text
            },
        }
    }
}

impl ParseBlockError {
    /// The message that reports the error.
    pub fn to_text(&self) -> (text: String)
        ensures
            text@ == self@.message(),
    {
        match self {
            ParseBlockError::UnknownBlock { name, line_number } => {
                let mut text = String::from_str("Unknown block ");
                text.append(quoted(name.as_str()).as_str());
                text.append(" on line ");
                text.append(decimal_text(*line_number as u64).as_str());
                text.append("\n");
                text
            },
            ParseBlockError::ParseRecallTypeErrors { errors, line_number } => {
                let mut text = String::from_str("Unable to parse recall settings on line ");
                text.append(decimal_text(*line_number as u64).as_str());
                text.append(":\n");
                let ghost head = text@;
                let mut i: usize = 0;
                while i < errors.len()
                    invariant
                        i <= errors.len(),
                        text@ == head + recall_lines(recall_faults(errors@).take(i as int)),
                    decreases errors.len() - i,
                {
                    proof {
                        let longer = recall_faults(errors@).take(i + 1);
                        assert(longer.drop_last() =~= recall_faults(errors@).take(i as int));
                    }
                    text.append("  ");
                    text.append(errors[i].to_text().as_str());
                    text.append("\n");
                    i = i + 1;
                }
                assert(recall_faults(errors@).take(i as int) =~= recall_faults(errors@));
                text
            },
            ParseBlockError::ParseFlashcardErrors { errors, line_number } => {
                let mut text = String::from_str("Unable to parse flashcard on line ");
                text.append(decimal_text(*line_number as u64).as_str());
                text.append(":\n");
                let ghost head = text@;
                let mut i: usize = 0;
                while i < errors.len()
                    invariant
                        i <= errors.len(),
                        text@ == head + item_lines(item_faults(errors@).take(i as int)),
                    decreases errors.len() - i,
                {
                    proof {
                        let longer = item_faults(errors@).take(i + 1);
                        assert(longer.drop_last() =~= item_faults(errors@).take(i as int));
                    }
                    text.append("  ");
                    text.append(errors[i].to_text().as_str());
                    text.append("\n");
                    i = i + 1;
                }
                assert(item_faults(errors@).take(i as int) =~= item_faults(errors@));
                text
            },
        }
    }
}

} // verus!
