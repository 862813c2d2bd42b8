//! Breaking a text into lines at its white space.

use crate::chars::{
    chars_of, leading, lemma_leading_bound, lemma_trim_start, run_length, slice_text,
    text_of, trim_start_of,
};
use vstd::prelude::*;

verus! {

/// The length of the first word of `text` with the white space before it;
/// zero where `text` holds white space only.
pub open spec fn first_word(text: Seq<char>) -> nat {
    let blank = leading(text, true);
    let word = leading(text.skip(blank as int), false);
    if word == 0 {
        0
    } else {
        blank + word
    }
}

/// How many characters the words take that fit into `room` characters as a
/// whole, one after the other from the start of `text`.
pub open spec fn fitting(text: Seq<char>, room: nat) -> nat
    decreases room,
{
    let word = first_word(text);
    if word == 0 || word > room {
        0
    } else {
        word + fitting(text.skip(word as int), (room - word) as nat)
    }
}

/// The first word is no longer than the text.
pub proof fn lemma_first_word_bound(text: Seq<char>)
    ensures
        first_word(text) <= text.len(),
{
    lemma_leading_bound(text, true);
    lemma_leading_bound(text.skip(leading(text, true) as int), false);
}

/// The words that fit are no longer than the text and than the room.
pub proof fn lemma_fitting_bound(text: Seq<char>, room: nat)
    ensures
        fitting(text, room) <= text.len(),
        fitting(text, room) <= room,
    decreases room,
{
    let word = first_word(text);
    lemma_first_word_bound(text);
    if !(word == 0 || word > room) {
        lemma_fitting_bound(text.skip(word as int), (room - word) as nat);
    }
}

/// How long the first word behind `from` is, with the white space before
/// it.
fn word_length(chars: &Vec<char>, from: usize) -> (word: usize)
    requires
        from <= chars.len(),
    ensures
        word == first_word(chars@.skip(from as int)),
        from + word <= chars.len(),
{
    let blank = run_length(chars, from, true);
    let word = run_length(chars, from + blank, false);
    proof {
        assert(chars@.skip(from as int).skip(blank as int) =~= chars@.skip(from + blank));
    }
    if word == 0 {
        0
    } else {
        blank + word
    }
}

/// The words of a text, each with the white space before it.
pub struct SplitKeepWhitespace {
    text: Vec<char>,
    pos: usize,
}

impl View for SplitKeepWhitespace {
    type V = Seq<char>;

    /// The text that is left.
    closed spec fn view(&self) -> Seq<char> {
        self.text@.skip(self.pos as int)
    }
}

impl SplitKeepWhitespace {
    /// The place read from lies in the text.
    pub closed spec fn wf(&self) -> bool {
        self.pos <= self.text@.len()
    }

    /// The pieces of a text, none read yet.
    pub fn new(text: &str) -> (words: Self)
        ensures
            words.wf(),
            words@ == text@,
    {
        let words = SplitKeepWhitespace { text: chars_of(text), pos: 0 };
        words
    }

    /// The next word with the white space before it; none where only white
    /// space is left, which stays.
    pub fn next(&mut self) -> (word: Option<String>)
        requires
            old(self).wf(),
        ensures
            final(self).wf(),
            first_word(old(self)@) == 0 ==> word is None && final(self)@ == old(self)@,
            first_word(old(self)@) > 0 ==> word is Some && word->0@ == old(self)@.take(
                first_word(old(self)@) as int,
            ) && final(self)@ == old(self)@.skip(first_word(old(self)@) as int),
    {
        let length = word_length(&self.text, self.pos);
        if length == 0 {
            None
        } else {
            let word = slice_text(&self.text, self.pos, self.pos + length);
            self.pos = self.pos + length;
            Some(word)
        }
    }
}

/// What the next line takes from `text` and what is left, for lines of at
/// most `max_length` characters: the words that fit as a whole, the white
/// space behind them going with neither; of a first word that does not fit,
/// as much as leaves room for a hyphen, and the hyphen; the whole of a text
/// that fits; and nothing where only white space is left.
pub open spec fn next_line(text: Seq<char>, max_length: nat) -> Option<(Seq<char>, Seq<char>)> {
    let fits = fitting(text, max_length);
    let rest = text.skip(fits as int);
    if first_word(rest) > 0 {
        if fits > 0 {
            Some((text.take(fits as int), trim_start_of(rest)))
        } else {
            Some((text.take(max_length - 1).push('-'), text.skip(max_length - 1)))
        }
    } else if fits > 0 {
        Some((text, Seq::empty()))
    } else {
        None
    }
}

/// Every line takes something from the text.
pub proof fn lemma_next_line_shrinks(text: Seq<char>, max_length: nat)
    requires
        max_length >= 2,
    ensures
        next_line(text, max_length) matches Some((line, rest)) ==> rest.len() < text.len() && line.len() > 0,
{
    let fits = fitting(text, max_length);
    let rest = text.skip(fits as int);
    lemma_fitting_bound(text, max_length);
    lemma_first_word_bound(rest);
    if first_word(rest) > 0 {
        if fits > 0 {
            lemma_trim_start(rest);
        } else {
            assert(text.skip(0) =~= text);
        }
    }
}

/// The lines of a text that is broken at its white space.
pub struct WordWrap {
    text: Vec<char>,
    pos: usize,
    max_length: usize,
}

impl View for WordWrap {
    type V = Seq<char>;

    /// The text that is left.
    closed spec fn view(&self) -> Seq<char> {
        self.text@.skip(self.pos as int)
    }
}

impl WordWrap {
    /// The length that no line extends, but one that ends the text in white
    /// space.
    pub closed spec fn max_length(&self) -> nat {
        self.max_length as nat
    }

    /// The place read from lies in the text, and a line has room for a character.
    pub closed spec fn wf(&self) -> bool {
        self.pos <= self.text@.len() && self.max_length >= 2
    }

    /// The lines of `text`, none longer than `max_length`, which is 2 at
    /// least.
    pub fn new(text: &str, max_length: usize) -> (lines: Self)
        requires
            max_length >= 2,
        ensures
            lines.wf(),
            lines@ == text@,
            lines.max_length() == max_length,
    {
        let lines = WordWrap { text: chars_of(text), pos: 0, max_length };
        lines
    }

    /// How many characters are left.
    pub fn remaining_text_len(&self) -> (len: usize)
        requires
            self.wf(),
        ensures
            len == self@.len(),
    {
        self.text.len() - self.pos
    }

    /// The next line, if the text that is left holds more than white space.
    pub fn next(&mut self) -> (line: Option<String>)
        requires
            old(self).wf(),
        ensures
            final(self).wf(),
            final(self).max_length() == old(self).max_length(),
            match next_line(old(self)@, old(self).max_length()) {
                Some((taken, left)) => line is Some && line->0@ == taken && final(self)@ == left,
                None => line is None && final(self)@ == old(self)@,
            },
            final(self)@.len() <= old(self)@.len(),
            line is Some ==> final(self)@.len() < old(self)@.len(),
    {
        let ghost text = self@;
        let total = self.text.len();
        let mut len: usize = 0;
        let mut word: usize = word_length(&self.text, self.pos);
        proof {
            assert(text.skip(0) =~= text);
        }
        while word > 0 && word <= self.max_length - len
            invariant
                self.wf(),
                total == self.text@.len(),
                self.pos == old(self).pos,
                self.text == old(self).text,
                self.max_length == old(self).max_length,
                text == self@,
                len <= self.max_length,
                self.pos + len + word <= self.text@.len(),
                word == first_word(text.skip(len as int)),
                fitting(text, self.max_length as nat) == len + fitting(
                    text.skip(len as int),
                    (self.max_length - len) as nat,
                ),
            decreases self.text@.len() - self.pos - len,
        {
            proof {
                assert(text.skip(len as int).skip(word as int) =~= text.skip(len + word));
            }
            len = len + word;
            proof {
                assert(text.skip(len as int) =~= self.text@.skip(self.pos + len));
            }
            word = word_length(&self.text, self.pos + len);
        }
        proof {
            assert(text.skip(len as int) =~= self.text@.skip(self.pos + len));
        }
        if word > 0 {
            if len > 0 {
                let line = slice_text(&self.text, self.pos, self.pos + len);
                let blank = run_length(&self.text, self.pos + len, true);
                proof {
                    lemma_trim_start(text.skip(len as int));
                }
                self.pos = self.pos + len + blank;
                Some(line)
            } else {
                let cut = self.max_length - 1;
                let mut part: Vec<char> = Vec::new();
                let mut i: usize = 0;
                while i < cut
                    invariant
                        i <= cut,
                        total == self.text@.len(),
                        cut < self.text@.len() - self.pos,
                        self.pos == old(self).pos,
                        self.text == old(self).text,
                        part@ == self.text@.subrange(self.pos as int, self.pos + i),
                    decreases cut - i,
                {
                    part.push(self.text[self.pos + i]);
                    i = i + 1;
                }
                part.push('-');
                self.pos = self.pos + cut;
                Some(text_of(&part))
            }
        } else if len > 0 {
            let line = slice_text(&self.text, self.pos, self.text.len());
            self.pos = self.text.len();
            Some(line)
        } else {
            None
        }
    }
}

} // verus!
