//! The progress bar at the foot of the screen: how many study items sit in
//! each mastery bucket.

use crate::output::draw::{ops, put, Command, Op};
use crate::chars::{chars_of, slice_text};
use crate::output::{decimal, decimal_text, Color, Repeat};
use crate::vec2::Vec2;
use vstd::prelude::*;

verus! {

/// The mastery bucket of a study item.
#[derive(Debug, Clone, Copy, PartialEq, Eq, Structural, PartialOrd, Ord)]
pub enum FooterColor {
    /// Not yet answered correctly.
    Black,
    /// Past the first stage of a two-mode progression.
    Red,
    /// One repetition short of mastery.
    Yellow,
    /// Mastered.
    Green,
}

impl FooterColor {
    /// Position of the bucket in the table of counts.
    pub open spec fn slot(self) -> int {
        match self {
            FooterColor::Black => 0,
            FooterColor::Red => 1,
            FooterColor::Yellow => 2,
            FooterColor::Green => 3,
        }
    }

    /// The place of the bucket among the four counts.
    pub fn index(self) -> (i: usize)
        ensures
            i == self.slot(),
    {
        match self {
            FooterColor::Black => 0,
            FooterColor::Red => 1,
            FooterColor::Yellow => 2,
            FooterColor::Green => 3,
        }
    }
}

/// What a footer stands for: the count of each bucket and where the bar is
/// drawn.
pub struct FooterModel {
    pub counts: Map<FooterColor, nat>,
    pub width: nat,
    pub row: nat,
}

impl FooterModel {
    /// The number of items over all buckets.
    pub open spec fn total(self) -> nat {
        self.counts[FooterColor::Black] + self.counts[FooterColor::Red]
            + self.counts[FooterColor::Yellow] + self.counts[FooterColor::Green]
    }

    /// The counters can hold the total.
    pub open spec fn wf(self) -> bool {
        self.total() <= u32::MAX
    }

    /// The counts after one item has left `curr` and entered `dst`.
    pub open spec fn moved(self, curr: FooterColor, dst: FooterColor) -> FooterModel {
        let taken = self.counts.insert(curr, (self.counts[curr] - 1) as nat);
        FooterModel { counts: taken.insert(dst, taken[dst] + 1), ..self }
    }
}

/// The row on which the bar is drawn in a terminal of the given height: the
/// last one.
pub open spec fn bar_row(height: u16) -> nat {
    if height == 0 {
        0
    } else {
        (height - 1) as nat
    }
}

/// The bar at the foot of the screen that counts the items by bucket.
#[derive(Debug)]
pub struct Footer {
    vals: [u32; 4],
    width: u16,
    y: u16,
}

impl View for Footer {
    type V = FooterModel;

    closed spec fn view(&self) -> FooterModel {
        FooterModel {
            counts: Map::new(|c: FooterColor| true, |c: FooterColor| self.vals[c.slot()] as nat),
            width: self.width as nat,
            row: self.y as nat,
        }
    }
}

impl Footer {
    /// The counters can hold the bar's total.
    pub open spec fn wf(&self) -> bool {
        self@.wf()
    }

    /// A bar of `count` items, all of them black.
    pub fn new(count: u32, term_size: Vec2<u16>) -> (footer: Footer)
        ensures
            footer.wf(),
            footer@.counts[FooterColor::Black] == count,
            footer@.counts[FooterColor::Red] == 0,
            footer@.counts[FooterColor::Yellow] == 0,
            footer@.counts[FooterColor::Green] == 0,
            footer@.total() == count,
            footer@.width == term_size.x,
            footer@.row == bar_row(term_size.y),
    {
        Footer { vals: [count, 0, 0, 0], width: term_size.x, y: term_size.y.saturating_sub(1) }
    }

    /// Moves one item from `curr` to `dst`.
    pub fn move_item(&mut self, curr: FooterColor, dst: FooterColor)
        requires
            old(self).wf(),
            old(self)@.counts[curr] > 0,
        ensures
            final(self)@ == old(self)@.moved(curr, dst),
            final(self)@.total() == old(self)@.total(),
            final(self).wf(),
    {
        let from = curr.index();
        let to = dst.index();
        self.vals[from] = self.vals[from] - 1;
        self.vals[to] = self.vals[to] + 1;
        assert(final(self)@.counts =~= old(self)@.moved(curr, dst).counts);
    }

    /// Takes the bar to the last row of a terminal of the given size; the
    /// counts stay.
    pub fn resize(&mut self, term_size: Vec2<u16>)
        ensures
            final(self)@.counts == old(self)@.counts,
            final(self)@.width == term_size.x,
            final(self)@.row == bar_row(term_size.y),
    {
        self.width = term_size.x;
        self.y = term_size.y.saturating_sub(1);
    }

    /// The number of items in one bucket.
    pub fn count(&self, color: FooterColor) -> (n: u32)
        ensures
            n == self@.counts[color],
    {
        self.vals[color.index()]
    }

    /// The width of the bar in columns.
    pub fn width(&self) -> (w: u16)
        ensures
            w == self@.width,
    {
        self.width
    }

    /// The row on which the bar is drawn.
    pub fn row(&self) -> (y: u16)
        ensures
            y == self@.row,
    {
        self.y
    }
}

/// The commands that draw the section of a bucket that holds `amount`
/// items, `width` columns wide: the number in the middle, cut down to the
/// width where it is longer, on the colour of the bucket.
pub open spec fn section_ops(amount: u32, width: u16, color: Color) -> Seq<Op> {
    let numeral = decimal(amount as nat);
    let shown = if numeral.len() > width {
        numeral.take(width as int)
    } else {
        numeral
    };
    let pad = width - shown.len();
    seq![
        Op::SetBackgroundColor(color),
        Op::PrintRepeat(Repeat(' ', (pad / 2) as u16)),
        Op::Print(shown),
        Op::PrintRepeat(Repeat(' ', (pad - pad / 2) as u16)),
    ]
}

/// Adds the commands that draw one section.
pub fn print_section(commands: &mut Vec<Command>, amount: u32, width: u16, color: Color)
    ensures
        ops(final(commands)@) == ops(old(commands)@) + section_ops(amount, width, color),
{
    let numeral = chars_of(decimal_text(amount as u64).as_str());
    let keep = if numeral.len() > width as usize {
        width as usize
    } else {
        numeral.len()
    };
    let shown = slice_text(&numeral, 0, keep);
    proof {
        assert(numeral@.take(numeral@.len() as int) =~= numeral@);
    }
    let pad = width - keep as u16;
    let left_pad = pad / 2;
    let right_pad = pad - left_pad;
    put(commands, Command::SetBackgroundColor(color));
    put(commands, Command::PrintRepeat(Repeat(' ', left_pad)));
    put(commands, Command::Print(shown));
    put(commands, Command::PrintRepeat(Repeat(' ', right_pad)));
}

impl FooterModel {
    /// What is left of the width of the bar beside sections of the given
    /// widths.
    pub open spec fn leftover(self, widths: Seq<u16>) -> int {
        let used = widths[0] + widths[1] + widths[2] + widths[3];
        if self.width >= used {
            self.width - used
        } else {
            0
        }
    }

    /// The commands that draw the bar with sections of the given widths, the
    /// widths in the order of the buckets: the sections from green back to
    /// black, and blanks for what is left of the width.
    pub open spec fn rendered(self, widths: Seq<u16>) -> Seq<Op> {
        seq![Op::MoveTo(0, self.row as u16), Op::SetForegroundColor(Color::White)] + section_ops(
            self.counts[FooterColor::Green] as u32,
            widths[3],
            Color::DarkGreen,
        ) + section_ops(self.counts[FooterColor::Yellow] as u32, widths[2], Color::DarkYellow) + section_ops(
            self.counts[FooterColor::Red] as u32,
            widths[1],
            Color::DarkRed,
        ) + section_ops(self.counts[FooterColor::Black] as u32, widths[0], Color::Black) + seq![
            Op::PrintRepeat(Repeat(' ', self.leftover(widths) as u16)),
            Op::SetBackgroundColor(Color::Reset),
        ]
    }
}

impl Footer {
    /// The commands that draw the bar with sections of the given widths, the
    /// widths in the order of the buckets.
    pub fn render(&self, widths: [u16; 4]) -> (commands: Vec<Command>)
        ensures
            ops(commands@) == self@.rendered(widths@),
    {
        let mut commands: Vec<Command> = Vec::new();
        put(&mut commands, Command::MoveTo(0, self.y));
        put(&mut commands, Command::SetForegroundColor(Color::White));
        print_section(&mut commands, self.vals[3], widths[3], Color::DarkGreen);
        print_section(&mut commands, self.vals[2], widths[2], Color::DarkYellow);
        print_section(&mut commands, self.vals[1], widths[1], Color::DarkRed);
        print_section(&mut commands, self.vals[0], widths[0], Color::Black);
        let leftover_width = self.width.saturating_sub(widths[3]).saturating_sub(widths[2]).saturating_sub(
            widths[1],
        ).saturating_sub(widths[0]);
        put(&mut commands, Command::PrintRepeat(Repeat(' ', leftover_width)));
        put(&mut commands, Command::SetBackgroundColor(Color::Reset));
        commands
    }

    /// The four counts, in the order of the buckets.
    pub fn counts(&self) -> (vals: [u32; 4])
        ensures
            vals[0] == self@.counts[FooterColor::Black],
            vals[1] == self@.counts[FooterColor::Red],
            vals[2] == self@.counts[FooterColor::Yellow],
            vals[3] == self@.counts[FooterColor::Green],
    {
        self.vals
    }
}

} // verus!
