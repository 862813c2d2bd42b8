//! What the front end draws with: colours, alignments, padding and the
//! arithmetic of laying text out in a box.

pub mod draw;
pub mod text_box;
pub mod word_wrap;

use vstd::prelude::*;
use vstd::std_specs::convert::IntoSpec;
use vstd::string::StringSliceAdditionalSpecFns;
use vstd::utf8::{encode_utf8_valid_utf8, is_char_boundary, is_char_boundary_start_end_of_seq};

verus! {

/// A terminal colour, as far as the study screens use one.
#[derive(Debug, Clone, Copy, PartialEq, Eq, Structural)]
pub enum Color {
    Reset,
    Black,
    DarkRed,
    DarkGreen,
    DarkYellow,
    Red,
    Green,
    Yellow,
    Blue,
    Magenta,
    Cyan,
    White,
    Grey,
    Rgb { r: u8, g: u8, b: u8 },
}

/// The character of a decimal digit.
pub open spec fn digit_char(d: nat) -> char
    recommends
        d < 10,
{
    if d == 0 {
        '0'
    } else if d == 1 {
        '1'
    } else if d == 2 {
        '2'
    } else if d == 3 {
        '3'
    } else if d == 4 {
        '4'
    } else if d == 5 {
        '5'
    } else if d == 6 {
        '6'
    } else if d == 7 {
        '7'
    } else if d == 8 {
        '8'
    } else {
        '9'
    }
}

/// The decimal numeral of `n`, without leading zeros.
pub open spec fn decimal(n: nat) -> Seq<char>
    decreases n,
{
    if n < 10 {
        seq![digit_char(n)]
    } else {
        decimal(n / 10).push(digit_char(n % 10))
    }
}

fn digit_str(d: u64) -> (s: &'static str)
    requires
        d < 10,
    ensures
        s@ == seq![digit_char(d as nat)],
{
    proof {
        reveal_strlit("0");
        reveal_strlit("1");
        reveal_strlit("2");
        reveal_strlit("3");
        reveal_strlit("4");
        reveal_strlit("5");
        reveal_strlit("6");
        reveal_strlit("7");
        reveal_strlit("8");
        reveal_strlit("9");
    }
    let s = if d == 0 {
        "0"
    } else if d == 1 {
        "1"
    } else if d == 2 {
        "2"
    } else if d == 3 {
        "3"
    } else if d == 4 {
        "4"
    } else if d == 5 {
        "5"
    } else if d == 6 {
        "6"
    } else if d == 7 {
        "7"
    } else if d == 8 {
        "8"
    } else {
        "9"
    };
    s
}

/// Writes `n` as a decimal numeral.
pub fn decimal_text(n: u64) -> (text: String)
    ensures
        text@ == decimal(n as nat),
    decreases n,
{
    if n < 10 {
        String::from_str(digit_str(n))
    } else {
        let mut text = decimal_text(n / 10);
        text.append(digit_str(n % 10));
        text
    }
}

/// A character and how often it is written in a row.
#[derive(Debug, Clone, Copy, PartialEq, Eq, Structural)]
pub struct Repeat(pub char, pub u16);

impl Repeat {
    /// The text that is written: the character, as often as asked.
    pub open spec fn text(self) -> Seq<char> {
        Seq::new(self.1 as nat, |i: int| self.0)
    }

    /// The text that is written.
    pub fn to_text(&self) -> (text: String)
        ensures
            text@ == self.text(),
    {
        let mut chars: Vec<char> = Vec::new();
        let mut i: u16 = 0;
        while i < self.1
            invariant
                i <= self.1,
                chars@ == Seq::new(i as nat, |k: int| self.0),
            decreases self.1 - i,
        {
            chars.push(self.0);
            i = i + 1;
        }
        crate::chars::text_of(&chars)
    }
}

/// Which terminal modes are switched on, so that they can be switched off
/// again when the program leaves.
#[derive(Debug)]
pub struct TerminalSettings {
    alternate_screen: bool,
    cursor_hidden: bool,
    raw_mode: bool,
    exiting_properly: bool,
}

/// What terminal settings stand for.
pub struct TerminalModel {
    pub alternate_screen: bool,
    pub cursor_hidden: bool,
    pub raw_mode: bool,
    pub exiting_properly: bool,
}

impl View for TerminalSettings {
    type V = TerminalModel;

    closed spec fn view(&self) -> TerminalModel {
        TerminalModel {
            alternate_screen: self.alternate_screen,
            cursor_hidden: self.cursor_hidden,
            raw_mode: self.raw_mode,
            exiting_properly: self.exiting_properly,
        }
    }
}

impl TerminalSettings {
    /// The settings of a terminal that was not touched yet.
    pub fn new() -> (settings: Self)
        ensures
            settings@ == (TerminalModel {
                alternate_screen: false,
                cursor_hidden: false,
                raw_mode: false,
                exiting_properly: false,
            }),
    {
        TerminalSettings {
            alternate_screen: false,
            cursor_hidden: false,
            raw_mode: false,
            exiting_properly: false,
        }
    }

    /// Notes that the alternate screen is in use.
    pub fn enter_alternate_screen(&mut self) -> (this: &mut Self)
        ensures
            this@ == (TerminalModel { alternate_screen: true, ..old(self)@ }),
            *final(self) == *final(this),
    {
        self.alternate_screen = true;
        self
    }

    /// Notes that the alternate screen was left.
    pub fn leave_alternate_screen(&mut self) -> (this: &mut Self)
        ensures
            this@ == (TerminalModel { alternate_screen: false, ..old(self)@ }),
            *final(self) == *final(this),
    {
        self.alternate_screen = false;
        self
    }

    /// Notes that the cursor is hidden.
    pub fn hide_cursor(&mut self) -> (this: &mut Self)
        ensures
            this@ == (TerminalModel { cursor_hidden: true, ..old(self)@ }),
            *final(self) == *final(this),
    {
        self.cursor_hidden = true;
        self
    }

    /// Notes that the cursor is shown.
    pub fn show_cursor(&mut self) -> (this: &mut Self)
        ensures
            this@ == (TerminalModel { cursor_hidden: false, ..old(self)@ }),
            *final(self) == *final(this),
    {
        self.cursor_hidden = false;
        self
    }

    /// Notes that raw mode is on.
    pub fn enable_raw_mode(&mut self) -> (this: &mut Self)
        ensures
            this@ == (TerminalModel { raw_mode: true, ..old(self)@ }),
            *final(self) == *final(this),
    {
        self.raw_mode = true;
        self
    }

    /// Notes that raw mode is off.
    pub fn disable_raw_mode(&mut self) -> (this: &mut Self)
        ensures
            this@ == (TerminalModel { raw_mode: false, ..old(self)@ }),
            *final(self) == *final(this),
    {
        self.raw_mode = false;
        self
    }

    /// Ends the use of the terminal in good order: the settings as they are
    /// to be undone, marked as left properly.
    pub fn clear(self) -> (left: Self)
        ensures
            left@ == (TerminalModel { exiting_properly: true, ..self@ }),
    {
        let mut this = self;
        this.exiting_properly = true;
        this
    }

    /// Whether the alternate screen is in use.
    pub fn alternate_screen(&self) -> (on: bool)
        ensures
            on == self@.alternate_screen,
    {
        self.alternate_screen
    }

    /// Whether the cursor is hidden.
    pub fn cursor_hidden(&self) -> (hidden: bool)
        ensures
            hidden == self@.cursor_hidden,
    {
        self.cursor_hidden
    }

    /// Whether raw mode is on.
    pub fn raw_mode(&self) -> (on: bool)
        ensures
            on == self@.raw_mode,
    {
        self.raw_mode
    }

    /// Whether the program ends in order.
    pub fn exiting_properly(&self) -> (properly: bool)
        ensures
            properly == self@.exiting_properly,
    {
        self.exiting_properly
    }
}

impl Default for TerminalSettings {
    fn default() -> (settings: Self)
        ensures
            settings@ == (TerminalModel {
                alternate_screen: false,
                cursor_hidden: false,
                raw_mode: false,
                exiting_properly: false,
            }),
    {
        TerminalSettings::new()
    }
}

/// Where in its box a line of text stands from left to right.
#[derive(Debug, Clone, Copy, PartialEq, Eq, Structural)]
pub enum TextAlignH {
    Left,
    Center,
    Right,
}

/// Where in its box a text stands from top to bottom.
#[derive(Debug, Clone, Copy, PartialEq, Eq, Structural)]
pub enum TextAlignV {
    Top,
    Center,
    Bottom,
}

/// How a text is placed in its box.
#[derive(Debug, Clone, Copy, PartialEq, Eq, Structural)]
pub struct TextAlign {
    pub h: TextAlignH,
    pub v: TextAlignV,
}

impl TextAlign {
    /// In the middle of the box.
    pub fn center() -> (align: Self)
        ensures
            align == (TextAlign { h: TextAlignH::Center, v: TextAlignV::Center }),
    {
        TextAlign { h: TextAlignH::Center, v: TextAlignV::Center }
    }

    /// In the top left corner of the box.
    pub fn top_left() -> (align: Self)
        ensures
            align == (TextAlign { h: TextAlignH::Left, v: TextAlignV::Top }),
    {
        TextAlign { h: TextAlignH::Left, v: TextAlignV::Top }
    }
}

/// The byte offsets of `text` at which a character starts, and its end.
pub open spec fn boundary(text: &str, pos: int) -> bool {
    is_char_boundary(text.spec_bytes(), pos)
}

/// The last character boundary of `s` at or before `pos`.
pub fn floor_char_boundary(s: &str, pos: usize) -> (floor: usize)
    ensures
        floor <= pos,
        boundary(s, floor as int),
        forall|k: int| floor < k <= pos ==> !boundary(s, k),
{
    proof {
        encode_utf8_valid_utf8(s@);
        is_char_boundary_start_end_of_seq(s.spec_bytes());
    }
    let mut at = pos;
    while !s.is_char_boundary(at)
        invariant
            at <= pos,
            boundary(s, 0),
            forall|k: int| at < k <= pos ==> !boundary(s, k),
        decreases at,
    {
        at = at - 1;
    }
    at
}

/// The first character boundary of `s` at or after `pos`; none where `pos`
/// lies behind the end of `s`.
pub fn ceil_char_boundary(s: &str, pos: usize) -> (ceil: Option<usize>)
    ensures
        ceil is Some <==> pos <= s.spec_bytes().len(),
        ceil matches Some(at) ==> {
            &&& pos <= at <= s.spec_bytes().len()
            &&& boundary(s, at as int)
            &&& forall|k: int| pos <= k < at ==> !boundary(s, k)
        },
{
    proof {
        encode_utf8_valid_utf8(s@);
        is_char_boundary_start_end_of_seq(s.spec_bytes());
    }
    let len = s.as_bytes().len();
    if pos <= len {
        let mut at = pos;
        while !s.is_char_boundary(at)
            invariant
                pos <= at <= s.spec_bytes().len(),
                s.spec_bytes().len() <= usize::MAX,
                boundary(s, s.spec_bytes().len() as int),
                forall|k: int| pos <= k < at ==> !boundary(s, k),
            decreases s.spec_bytes().len() - at,
        {
            at = at + 1;
        }
        Some(at)
    } else {
        None
    }
}

/// `n`, or the largest `u16` where `n` is larger.
pub open spec fn capped(n: int) -> u16 {
    if n > u16::MAX {
        u16::MAX
    } else if n < 0 {
        0
    } else {
        n as u16
    }
}

/// Brings a length down to a `u16`.
pub fn cap(n: usize) -> (short: u16)
    ensures
        short == capped(n as int),
{
    if n > 0xffff {
        0xffff
    } else {
        n as u16
    }
}

impl TextAlignH {
    /// How far from the left edge of a box of the given width a line of the
    /// given length stands: not at all if it is set to the left or fills the
    /// box, by all the room it leaves if it is set to the right, and by half
    /// of it if it is centred.
    pub open spec fn padding(self, length: int, width: int) -> u16 {
        let room = if width >= length {
            width - length
        } else {
            0
        };
        match self {
            TextAlignH::Left => 0,
            TextAlignH::Center => capped(room / 2),
            TextAlignH::Right => capped(room),
        }
    }

    /// How many blanks stand before the line `s` in a box of the given
    /// width.
    pub fn padding_for<W: Into<usize>>(self, s: &str, width: W) -> (pad: u16)
        requires
            W::obeys_into_spec(),
        ensures
            pad == self.padding(s@.len() as int, width.into_spec() as int),
    {
        match self {
            TextAlignH::Left => 0,
            TextAlignH::Center => {
                let width: usize = width.into();
                let length = s.unicode_len();
                if width >= length {
                    cap((width - length) / 2)
                } else {
                    0
                }
            },
            TextAlignH::Right => {
                let width: usize = width.into();
                let length = s.unicode_len();
                if width >= length {
                    cap(width - length)
                } else {
                    0
                }
            },
        }
    }
}

} // verus!
