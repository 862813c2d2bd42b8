//! Characters and texts: the classes of characters and the forms of texts
//! that the standard library defines, and the trimming, slicing and ordering
//! of texts that is built on them.

use vstd::prelude::*;

verus! {

/// Whether `c` has the Unicode property `White_Space`: what
/// `char::is_whitespace` returns for it.
pub uninterp spec fn white_space(c: char) -> bool;

/// `text` as the `Debug` form of a string shows it: between double quotes,
/// with what cannot be printed as it is escaped.
pub uninterp spec fn debug_form(text: Seq<char>) -> Seq<char>;

/// What `u16::from_str` makes of `text`: the number that the text is the
/// decimal numeral of, or the message of the error with which it fails.
pub uninterp spec fn parsed_u16(text: Seq<char>) -> Result<u16, Seq<char>>;

/// `text` in lower case: what `str::to_lowercase` returns for it.
pub uninterp spec fn lowercase(text: Seq<char>) -> Seq<char>;

/// `text` without its leading white space.
pub open spec fn trim_start_of(text: Seq<char>) -> Seq<char>
    decreases text.len(),
{
    if text.len() > 0 && white_space(text[0]) {
        trim_start_of(text.drop_first())
    } else {
        text
    }
}

/// `text` without its trailing white space.
pub open spec fn trim_end_of(text: Seq<char>) -> Seq<char>
    decreases text.len(),
{
    if text.len() > 0 && white_space(text.last()) {
        trim_end_of(text.drop_last())
    } else {
        text
    }
}

/// `text` without leading and trailing white space.
pub open spec fn trimmed(text: Seq<char>) -> Seq<char> {
    trim_end_of(trim_start_of(text))
}

/// Whether `a` comes before `b` or equals it when the two are compared
/// character by character, each character by its code point, a text that
/// ends coming before its continuations.
pub open spec fn lex_le(a: Seq<char>, b: Seq<char>) -> bool
    decreases a.len(),
{
    if a.len() == 0 {
        true
    } else if b.len() == 0 {
        false
    } else if a[0] != b[0] {
        (a[0] as u32) < (b[0] as u32)
    } else {
        lex_le(a.drop_first(), b.drop_first())
    }
}

/// Of two texts one comes before the other or equals it.
pub proof fn lemma_lex_le_total(a: Seq<char>, b: Seq<char>)
    ensures
        lex_le(a, b) || lex_le(b, a),
    decreases a.len(),
{
    if a.len() > 0 && b.len() > 0 {
        if a[0] == b[0] {
            lemma_lex_le_total(a.drop_first(), b.drop_first());
        } else {
            vstd::utf8::char_u32_cast(a[0], a[0] as u32);
            vstd::utf8::char_u32_cast(b[0], b[0] as u32);
        }
    }
}

/// The characters of each of some texts.
pub open spec fn views(texts: Seq<String>) -> Seq<Seq<char>> {
    Seq::new(texts.len(), |i: int| texts[i]@)
}

/// Trimming the end of a text that is all white space behind `end` takes
/// everything off behind `end` and the white space that ends the rest.
pub proof fn lemma_trim_end_any(text: Seq<char>, end: int)
    requires
        0 <= end <= text.len(),
        forall|i: int| end <= i < text.len() ==> white_space(#[trigger] text[i]),
    ensures
        trim_end_of(text) == trim_end_of(text.take(end)),
    decreases text.len() - end,
{
    if end < text.len() {
        lemma_trim_end_any(text.drop_last(), end);
        assert(text.drop_last().take(end) =~= text.take(end));
    } else {
        assert(text.take(end) =~= text);
    }
}

/// `char::is_whitespace`: whether the character has the Unicode property
/// `White_Space`.
#[verifier::external_body]
pub(crate) fn is_whitespace(c: char) -> (b: bool)
    ensures
        b == white_space(c),
{
    c.is_whitespace()
}

/// `str::to_lowercase`: the text in lower case, by the Unicode property
/// `Lowercase`.
#[verifier::external_body]
pub(crate) fn to_lowercase(text: &str) -> (lower: String)
    ensures
        lower@ == lowercase(text@),
{
    text.to_lowercase()
}

/// The `Debug` form of `str`: the text between double quotes, with the
/// characters escaped that `char::escape_debug` escapes.
#[verifier::external_body]
pub(crate) fn quoted(text: &str) -> (shown: String)
    ensures
        shown@ == debug_form(text@),
{
    format!("{:?}", text)
}

/// What a result with a message as its error stands for.
pub open spec fn number_view(parsed: Result<u16, String>) -> Result<u16, Seq<char>> {
    match parsed {
        Ok(n) => Ok(n),
        Err(message) => Err(message@),
    }
}

/// `u16::from_str`: the number that `text` is the decimal numeral of, or
/// the error that says why it is none, as the message it displays.
#[verifier::external_body]
pub(crate) fn parse_u16(text: &str) -> (parsed: Result<u16, String>)
    ensures
        number_view(parsed) == parsed_u16(text@),
{
    text.parse::<u16>().map_err(|e| e.to_string())
}

/// `String::push`: the character is added at the end.
#[verifier::external_body]
pub(crate) fn push_char(text: &mut String, c: char)
    ensures
        final(text)@ == old(text)@.push(c),
{
    text.push(c)
}

/// The character at place `i`.
pub fn char_at(chars: &Vec<char>, i: usize) -> (c: char)
    requires
        i < chars.len(),
    ensures
        c == chars@[i as int],
{
    chars[i]
}

/// The text that a vector of characters spells.
pub fn text_of(chars: &Vec<char>) -> (text: String)
    ensures
        text@ == chars@,
{
    let mut text = String::new();
    let mut i: usize = 0;
    while i < chars.len()
        invariant
            i <= chars.len(),
            text@ == chars@.take(i as int),
        decreases chars.len() - i,
    {
        push_char(&mut text, chars[i]);
        i = i + 1;
    }
    text
}

/// How many characters at the start of `text` are white space, if `white`,
/// or are not, if not `white`.
pub open spec fn leading(text: Seq<char>, white: bool) -> nat
    decreases text.len(),
{
    if text.len() > 0 && white_space(text[0]) == white {
        1 + leading(text.drop_first(), white)
    } else {
        0
    }
}

/// The leading run is no longer than the text.
pub proof fn lemma_leading_bound(text: Seq<char>, white: bool)
    ensures
        leading(text, white) <= text.len(),
    decreases text.len(),
{
    if text.len() > 0 && white_space(text[0]) == white {
        lemma_leading_bound(text.drop_first(), white);
    }
}

/// A run that goes on at `i` is one longer than the run behind it.
pub proof fn lemma_leading_step(text: Seq<char>, i: int, white: bool)
    requires
        0 <= i <= text.len(),
    ensures
        leading(text.skip(i), white) == if i < text.len() && white_space(text[i]) == white {
            1 + leading(text.skip(i + 1), white)
        } else {
            0
        },
{
    if i < text.len() {
        assert(text.skip(i).drop_first() =~= text.skip(i + 1));
    }
}

/// Trimming the start takes the leading white space off.
pub proof fn lemma_trim_start(text: Seq<char>)
    ensures
        trim_start_of(text) == text.skip(leading(text, true) as int),
    decreases text.len(),
{
    if text.len() > 0 && white_space(text[0]) {
        lemma_trim_start(text.drop_first());
        lemma_leading_bound(text.drop_first(), true);
    }
}

/// The characters of a text.
pub fn chars_of(text: &str) -> (chars: Vec<char>)
    ensures
        chars@ == text@,
{
    let mut chars: Vec<char> = Vec::new();
    for c in iter: text.chars()
        invariant
            iter.seq() == text@,
            chars@ == text@.take(iter.index() as int),
    {
        chars.push(c);
    }
    chars
}

/// How long the run of white space, or of other characters, is that starts
/// at `from`.
pub fn run_length(chars: &Vec<char>, from: usize, white: bool) -> (run: usize)
    requires
        from <= chars.len(),
    ensures
        run == leading(chars@.skip(from as int), white),
        from + run <= chars.len(),
{
    let mut at = from;
    while at < chars.len() && is_whitespace(chars[at]) == white
        invariant
            from <= at <= chars.len(),
            leading(chars@.skip(from as int), white) == (at - from) + leading(chars@.skip(at as int), white),
        decreases chars.len() - at,
    {
        proof {
            lemma_leading_step(chars@, at as int, white);
        }
        at = at + 1;
    }
    at - from
}

/// The characters of `chars` from `from` up to `to`, as a text.
pub fn slice_text(chars: &Vec<char>, from: usize, to: usize) -> (text: String)
    requires
        from <= to <= chars.len(),
    ensures
        text@ == chars@.subrange(from as int, to as int),
{
    let mut part: Vec<char> = Vec::new();
    let mut i = from;
    while i < to
        invariant
            from <= i <= to <= chars.len(),
            part@ == chars@.subrange(from as int, i as int),
        decreases to - i,
    {
        part.push(chars[i]);
        i = i + 1;
    }
    text_of(&part)
}

/// The text without the white space that ends it.
pub fn trim_end_text(text: &str) -> (trimmed: String)
    ensures
        trimmed@ == trim_end_of(text@),
{
    let chars = chars_of(text);
    let mut end = chars.len();
    while end > 0 && is_whitespace(chars[end - 1])
        invariant
            end <= chars.len(),
            forall|k: int| end <= k < chars@.len() ==> white_space(#[trigger] chars@[k]),
        decreases end,
    {
        end = end - 1;
    }
    proof {
        lemma_trim_end_any(chars@, end as int);
    }
    let kept = slice_text(&chars, 0, end);
    kept
}

/// The characters of `chars` without the white space around them.
pub fn trim_chars(chars: &Vec<char>) -> (inner: Vec<char>)
    ensures
        inner@ == trimmed(chars@),
{
    let start = run_length(chars, 0, true);
    proof {
        assert(chars@.skip(0) =~= chars@);
        lemma_trim_start(chars@);
    }
    let ghost rest = chars@.skip(start as int);
    let mut end = chars.len();
    while end > start && is_whitespace(chars[end - 1])
        invariant
            start <= end <= chars.len(),
            rest == chars@.skip(start as int),
            forall|k: int| end - start <= k < rest.len() ==> white_space(#[trigger] rest[k]),
        decreases end,
    {
        end = end - 1;
    }
    proof {
        lemma_trim_end_any(rest, end - start);
    }
    let mut inner: Vec<char> = Vec::new();
    let mut k = start;
    while k < end
        invariant
            start <= k <= end <= chars.len(),
            inner@ == chars@.subrange(start as int, k as int),
        decreases end - k,
    {
        inner.push(chars[k]);
        k = k + 1;
    }
    inner
}

/// The text without the white space around it.
pub fn trim_text(text: &str) -> (inner: String)
    ensures
        inner@ == trimmed(text@),
{
    text_of(&trim_chars(&chars_of(text)))
}

/// Whether `a` comes before `b` or equals it in the order of the code
/// points of their characters.
pub fn text_le(a: &str, b: &str) -> (le: bool)
    ensures
        le == lex_le(a@, b@),
{
    let a = chars_of(a);
    let b = chars_of(b);
    let mut i: usize = 0;
    proof {
        assert(a@.skip(0) =~= a@);
        assert(b@.skip(0) =~= b@);
    }
    while i < a.len() && i < b.len() && char_at(&a, i) == char_at(&b, i)
        invariant
            i <= a.len(),
            i <= b.len(),
            lex_le(a@, b@) == lex_le(a@.skip(i as int), b@.skip(i as int)),
        decreases a.len() - i,
    {
        proof {
            assert(a@.skip(i as int).drop_first() =~= a@.skip(i + 1));
            assert(b@.skip(i as int).drop_first() =~= b@.skip(i + 1));
        }
        i = i + 1;
    }
    if i >= a.len() {
        true
    } else if i >= b.len() {
        false
    } else {
        (char_at(&a, i) as u32) < (char_at(&b, i) as u32)
    }
}

} // verus!
