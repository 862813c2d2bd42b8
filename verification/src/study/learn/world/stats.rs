//! The figures of the report that ends a study session.

use super::card_list::fail_count::{capped_sum, FailCount};
use super::card_list::FailedItem;
use crate::chars::{chars_of, lemma_lex_le_total, lex_le, text_le, text_of};
use crate::output::{decimal, decimal_text};
use crate::flashcards::Side;
use crate::output::Color;
use vstd::prelude::*;

verus! {

/// A figure for each side and for both together.
#[derive(Debug, Clone, Copy, PartialEq, Eq, Structural)]
pub struct StatsLine {
    pub term: u64,
    pub definition: u64,
    pub total: u64,
}

impl StatsLine {
    /// The line of a figure for the term and one for the definition.
    pub fn new(data: [u64; 2]) -> (line: Self)
        requires
            data[0] + data[1] <= u64::MAX,
        ensures
            line == (StatsLine {
                term: data[0],
                definition: data[1],
                total: (data[0] + data[1]) as u64,
            }),
    {
        let term = data[0];
        let definition = data[1];
        StatsLine { term, definition, total: term + definition }
    }

    /// The sums, figure by figure, of two lines.
    pub fn sum(a: &Self, b: &Self) -> (line: Self)
        requires
            a.term + b.term <= u64::MAX,
            a.definition + b.definition <= u64::MAX,
            a.total + b.total <= u64::MAX,
        ensures
            line == (StatsLine {
                term: (a.term + b.term) as u64,
                definition: (a.definition + b.definition) as u64,
                total: (a.total + b.total) as u64,
            }),
    {
        StatsLine {
            term: a.term + b.term,
            definition: a.definition + b.definition,
            total: a.total + b.total,
        }
    }
}

/// The attempts made in one mode and the failures among them.
#[derive(Debug, Clone, Copy, PartialEq, Eq, Structural)]
pub struct StatsSection {
    pub made: StatsLine,
    pub fails: StatsLine,
}

impl StatsSection {
    /// A mode was used if an attempt was made in it.
    pub open spec fn used(self) -> bool {
        self.made.total > 0
    }

    /// Whether anything was counted.
    pub fn is_used(&self) -> (used: bool)
        ensures
            used == self.used(),
    {
        self.made.total > 0
    }
}

/// The wrong answers that `records` hold for `side`, in matching or in
/// typing.
pub open spec fn fail_sum(records: Seq<FailedItem>, side: Side, matching: bool) -> nat
    decreases records.len(),
{
    if records.len() == 0 {
        0
    } else {
        let last = records.last();
        fail_sum(records.drop_last(), side, matching) + if last.side == side {
            if matching {
                last.match_fails@
            } else {
                last.text_fails@
            }
        } else {
            0
        }
    }
}

/// No record holds more than 255 wrong answers in a mode.
pub proof fn lemma_fail_sum_bound(records: Seq<FailedItem>, side: Side, matching: bool)
    ensures
        fail_sum(records, side, matching) <= 255 * records.len(),
    decreases records.len(),
{
    if records.len() > 0 {
        lemma_fail_sum_bound(records.drop_last(), side, matching);
        records.last().match_fails.lemma_bounded();
        records.last().text_fails.lemma_bounded();
    }
}

/// The wrong answers by mode and side: in matching and in typing, each for
/// the term and for the definition.
pub fn tally_fails(records: &Vec<FailedItem>) -> (sums: ([u64; 2], [u64; 2]))
    requires
        records.len() <= u32::MAX,
    ensures
        sums.0[0] == fail_sum(records@, Side::Term, true),
        sums.0[1] == fail_sum(records@, Side::Definition, true),
        sums.1[0] == fail_sum(records@, Side::Term, false),
        sums.1[1] == fail_sum(records@, Side::Definition, false),
{
    let mut match_fails: [u64; 2] = [0, 0];
    let mut text_fails: [u64; 2] = [0, 0];
    let mut i: usize = 0;
    while i < records.len()
        invariant
            i <= records.len(),
            records.len() <= u32::MAX,
            match_fails[0] == fail_sum(records@.take(i as int), Side::Term, true),
            match_fails[1] == fail_sum(records@.take(i as int), Side::Definition, true),
            text_fails[0] == fail_sum(records@.take(i as int), Side::Term, false),
            text_fails[1] == fail_sum(records@.take(i as int), Side::Definition, false),
        decreases records.len() - i,
    {
        let record = &records[i];
        proof {
            let longer = records@.take(i + 1);
            assert(longer.drop_last() =~= records@.take(i as int));
            lemma_fail_sum_bound(longer, Side::Term, true);
            lemma_fail_sum_bound(longer, Side::Definition, true);
            lemma_fail_sum_bound(longer, Side::Term, false);
            lemma_fail_sum_bound(longer, Side::Definition, false);
        }
        let slot = record.side.index();
        let matched: u64 = record.match_fails.count() as u64;
        let typed: u64 = record.text_fails.count() as u64;
        match_fails[slot] = match_fails[slot] + matched;
        text_fails[slot] = text_fails[slot] + typed;
        i = i + 1;
    }
    assert(records@.take(i as int) =~= records@);
    (match_fails, text_fails)
}

/// The colour in which a card with `count` wrong answers is listed.
pub fn fail_color(count: u8) -> (color: Color)
    requires
        count > 0,
    ensures
        color == match count {
            1 => Color::Grey,
            2 => Color::Yellow,
            3 => Color::Red,
            4 => Color::Magenta,
            5 => Color::Blue,
            _ => Color::Cyan,
        },
{
    if count == 1 {
        Color::Grey
    } else if count == 2 {
        Color::Yellow
    } else if count == 3 {
        Color::Red
    } else if count == 4 {
        Color::Magenta
    } else if count == 5 {
        Color::Blue
    } else {
        Color::Cyan
    }
}

/// A card in the list of failures: how often it was answered wrongly, and
/// the text by which it is listed.
#[derive(Debug)]
pub struct FailLine {
    pub count: FailCount,
    pub text: String,
}

impl FailLine {
    /// The order of the list: by count, and by text where the counts agree.
    pub open spec fn le(self, other: FailLine) -> bool {
        self.count@ < other.count@ || (self.count@ == other.count@ && lex_le(self.text@, other.text@))
    }

    /// Whether this line stands before `other` in the list or may stand on
    /// either side of it.
    pub fn comes_first(&self, other: &FailLine) -> (first: bool)
        ensures
            first == self.le(*other),
    {
        let mine = self.count.count();
        let theirs = other.count.count();
        mine < theirs || (mine == theirs && text_le(self.text.as_str(), other.text.as_str()))
    }
}

/// Each line stands before the next or may change places with it.
pub open spec fn ordered(lines: Seq<FailLine>) -> bool {
    forall|i: int| 0 <= i < lines.len() - 1 ==> (#[trigger] lines[i]).le(lines[i + 1])
}

/// Puts the lines in order: by count, and by text where the counts agree.
pub fn sort_fails(lines: Vec<FailLine>) -> (sorted: Vec<FailLine>)
    ensures
        ordered(sorted@),
        sorted@.to_multiset() == lines@.to_multiset(),
{
    let mut rest = lines;
    let mut sorted: Vec<FailLine> = Vec::new();
    proof {
        broadcast use vstd::seq_lib::group_to_multiset_ensures;

        assert(sorted@.to_multiset().add(rest@.to_multiset()) =~= lines@.to_multiset());
    }
    while rest.len() > 0
        invariant
            ordered(sorted@),
            sorted@.to_multiset().add(rest@.to_multiset()) == lines@.to_multiset(),
        decreases rest.len(),
    {
        let ghost rest_before = rest@;
        let ghost sorted_before = sorted@;
        let line = rest.pop().unwrap();
        let mut at: usize = sorted.len();
        while at > 0 && !sorted[at - 1].comes_first(&line)
            invariant
                at <= sorted.len(),
                at < sorted.len() ==> !sorted@[at as int].le(line),
            decreases at,
        {
            at = at - 1;
        }
        sorted.insert(at, line);
        proof {
            broadcast use vstd::seq_lib::group_to_multiset_ensures;

            assert(rest_before =~= rest@.push(line));
            assert forall|i: int| 0 <= i < sorted@.len() - 1 implies (#[trigger] sorted@[i]).le(
                sorted@[i + 1],
            ) by {
                if i == at {
                    lemma_lex_le_total(line.text@, sorted_before[at as int].text@);
                }
            }
        }
    }
    proof {
        broadcast use vstd::seq_lib::group_to_multiset_ensures;

        assert(sorted@.to_multiset() =~= lines@.to_multiset());
    }
    sorted
}

/// The figures of the report.
#[derive(Debug)]
pub struct Stats {
    /// The matching questions met and the wrong choices made.
    pub matches: StatsSection,
    /// The typed answers entered and the wrong ones among them.
    pub texts: StatsSection,
    /// Both modes together, where both were used.
    pub total: Option<StatsSection>,
    /// The cards that were answered wrongly, in the order of the list.
    pub fails: Vec<FailLine>,
}

/// The two figures of a tally as the data of a line.
pub open spec fn widened(tally: Seq<u32>) -> Seq<u64> {
    seq![tally[0] as u64, tally[1] as u64]
}

/// The line of two figures.
pub open spec fn line_of(data: Seq<u64>) -> StatsLine {
    StatsLine { term: data[0], definition: data[1], total: (data[0] + data[1]) as u64 }
}

/// The sections of the report for the given tallies: one for matching, one
/// for typing, and one for both together where both modes were used.
pub open spec fn sections_of(
    matches_made: Seq<u32>,
    texts_entered: Seq<u32>,
    match_fails: Seq<u64>,
    text_fails: Seq<u64>,
) -> (StatsSection, StatsSection, Option<StatsSection>) {
    let matches = StatsSection { made: line_of(widened(matches_made)), fails: line_of(match_fails) };
    let texts = StatsSection { made: line_of(widened(texts_entered)), fails: line_of(text_fails) };
    let total = if matches.used() && texts.used() {
        Some(
            StatsSection {
                made: StatsLine {
                    term: (matches.made.term + texts.made.term) as u64,
                    definition: (matches.made.definition + texts.made.definition) as u64,
                    total: (matches.made.total + texts.made.total) as u64,
                },
                fails: StatsLine {
                    term: (matches.fails.term + texts.fails.term) as u64,
                    definition: (matches.fails.definition + texts.fails.definition) as u64,
                    total: (matches.fails.total + texts.fails.total) as u64,
                },
            },
        )
    } else {
        None
    };
    (matches, texts, total)
}

/// The largest sum of wrong answers that the records of a session hold.
pub open spec fn fail_limit() -> int {
    255 * u32::MAX
}

/// Makes the sections of the report of the tallies.
pub fn sections(
    matches_made: [u32; 2],
    texts_entered: [u32; 2],
    match_fails: [u64; 2],
    text_fails: [u64; 2],
) -> (made: (StatsSection, StatsSection, Option<StatsSection>))
    requires
        match_fails[0] <= fail_limit(),
        match_fails[1] <= fail_limit(),
        text_fails[0] <= fail_limit(),
        text_fails[1] <= fail_limit(),
    ensures
        made == sections_of(matches_made@, texts_entered@, match_fails@, text_fails@),
{
    let matches = StatsSection {
        made: StatsLine::new([matches_made[0] as u64, matches_made[1] as u64]),
        fails: StatsLine::new(match_fails),
    };
    let texts = StatsSection {
        made: StatsLine::new([texts_entered[0] as u64, texts_entered[1] as u64]),
        fails: StatsLine::new(text_fails),
    };
    let total = if matches.is_used() && texts.is_used() {
        Some(
            StatsSection {
                made: StatsLine::sum(&matches.made, &texts.made),
                fails: StatsLine::sum(&matches.fails, &texts.fails),
            },
        )
    } else {
        None
    };
    (matches, texts, total)
}

/// `lines` list `records`: a line for each record, with the wrong answers of
/// both modes together and a display text of the side that was shown.
pub open spec fn lists(lines: Seq<FailLine>, records: Seq<FailedItem>) -> bool {
    &&& lines.len() == records.len()
    &&& forall|i: int|
        0 <= i < lines.len() ==> {
            &&& (#[trigger] lines[i]).count@ == capped_sum(records[i].match_fails@, records[i].text_fails@)
            &&& records[i].card.on(records[i].side.flip())@.displayable.contains(lines[i].text@)
        }
}

/// `text` with blanks behind it up to `width` characters; a longer text as
/// it is.
pub open spec fn padded_to(text: Seq<char>, width: nat) -> Seq<char> {
    if text.len() >= width {
        text
    } else {
        text + Seq::new((width - text.len()) as nat, |i: int| ' ')
    }
}

/// `text` in the middle of `width` characters, the odd blank behind it; a
/// longer text as it is.
pub open spec fn centred_in(text: Seq<char>, width: nat) -> Seq<char> {
    if text.len() >= width {
        text
    } else {
        let room = (width - text.len()) as nat;
        Seq::new(room / 2, |i: int| ' ') + text + Seq::new((room - room / 2) as nat, |i: int| ' ')
    }
}

/// A line of the table of the report: the tag in 15 columns, then the
/// figures for both sides together, for the term and for the definition, each
/// in the middle of 10 columns between bars.
pub open spec fn table_line_of(tag: Seq<char>, total: Seq<char>, term: Seq<char>, definition: Seq<char>) -> Seq<
    char,
> {
    padded_to(tag, 15) + " |"@ + centred_in(total, 10) + "|"@ + centred_in(term, 10) + "|"@ + centred_in(
        definition,
        10,
    ) + "|"@
}

/// Adds blanks to a vector of characters.
fn push_blanks(chars: &mut Vec<char>, count: usize)
    ensures
        final(chars)@ == old(chars)@ + Seq::new(count as nat, |i: int| ' '),
{
    let mut i: usize = 0;
    while i < count
        invariant
            i <= count,
            chars@ == old(chars)@ + Seq::new(i as nat, |k: int| ' '),
        decreases count - i,
    {
        chars.push(' ');
        i = i + 1;
    }
}

/// Adds `text` to a vector of characters, with blanks behind it up to
/// `width` characters.
fn push_padded(chars: &mut Vec<char>, text: &str, width: usize)
    ensures
        final(chars)@ == old(chars)@ + padded_to(text@, width as nat),
{
    let mut letters = chars_of(text);
    let length = letters.len();
    chars.append(&mut letters);
    if length < width {
        push_blanks(chars, width - length);
    }
}

/// Adds `text` to a vector of characters, in the middle of `width`
/// characters.
fn push_centred(chars: &mut Vec<char>, text: &str, width: usize)
    ensures
        final(chars)@ == old(chars)@ + centred_in(text@, width as nat),
{
    let mut letters = chars_of(text);
    let length = letters.len();
    if length < width {
        let room = width - length;
        push_blanks(chars, room / 2);
        chars.append(&mut letters);
        push_blanks(chars, room - room / 2);
    } else {
        chars.append(&mut letters);
    }
}

/// A line of the table of the report.
pub fn table_line(tag: &str, total: &str, term: &str, definition: &str) -> (line: String)
    ensures
        line@ == table_line_of(tag@, total@, term@, definition@),
{
    proof {
        reveal_strlit(" |");
        reveal_strlit("|");
    }
    let mut chars: Vec<char> = Vec::new();
    push_padded(&mut chars, tag, 15);
    chars.push(' ');
    chars.push('|');
    push_centred(&mut chars, total, 10);
    chars.push('|');
    push_centred(&mut chars, term, 10);
    chars.push('|');
    push_centred(&mut chars, definition, 10);
    chars.push('|');
    text_of(&chars)
}

/// The head of the table of the report.
pub fn table_head() -> (line: String)
    ensures
        line@ == table_line_of(""@, "total"@, "term"@, "definition"@),
{
    table_line("", "total", "term", "definition")
}

impl StatsLine {
    /// The line of the table that shows the figures under `tag`.
    pub fn to_text(&self, tag: &str) -> (line: String)
        ensures
            line@ == table_line_of(
                tag@,
                decimal(self.total as nat),
                decimal(self.term as nat),
                decimal(self.definition as nat),
            ),
    {
        table_line(
            tag,
            decimal_text(self.total).as_str(),
            decimal_text(self.term).as_str(),
            decimal_text(self.definition).as_str(),
        )
    }
}

} // verus!
