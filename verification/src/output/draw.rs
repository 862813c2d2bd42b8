//! What is written to the terminal, as a list of commands, and the lists
//! that draw outlines and texts.

use crate::chars::{chars_of, slice_text, trim_end_of, trim_end_text, views};
use crate::output::text_box::OutlineType;
use crate::output::word_wrap::{next_line, WordWrap};
use crate::output::{cap, capped, Color, Repeat, TextAlign, TextAlignH, TextAlignV};
use crate::vec2::{plus_or_max, Rect, Vec2};
use vstd::prelude::*;

verus! {

/// A command to the terminal.
#[derive(Debug, Clone, PartialEq, Eq)]
pub enum Command {
    /// Takes the cursor to a column and a row.
    MoveTo(u16, u16),
    /// Takes the cursor down by some rows.
    MoveDown(u16),
    /// Takes the cursor right by some columns.
    MoveRight(u16),
    /// Takes the cursor to a column of its row.
    MoveToColumn(u16),
    SetForegroundColor(Color),
    SetBackgroundColor(Color),
    /// Writes a text at the cursor.
    Print(String),
    /// Writes a character at the cursor.
    PrintChar(char),
    /// Writes a character some times over at the cursor.
    PrintRepeat(Repeat),
    /// Wipes the screen.
    ClearAll,
}

/// A command to the terminal, its text as characters.
pub enum Op {
    MoveTo(u16, u16),
    MoveDown(u16),
    MoveRight(u16),
    MoveToColumn(u16),
    SetForegroundColor(Color),
    SetBackgroundColor(Color),
    Print(Seq<char>),
    PrintChar(char),
    PrintRepeat(Repeat),
    ClearAll,
}

impl View for Command {
    type V = Op;

    open spec fn view(&self) -> Op {
        match *self {
            Command::MoveTo(x, y) => Op::MoveTo(x, y),
            Command::MoveDown(n) => Op::MoveDown(n),
            Command::MoveRight(n) => Op::MoveRight(n),
            Command::MoveToColumn(x) => Op::MoveToColumn(x),
            Command::SetForegroundColor(color) => Op::SetForegroundColor(color),
            Command::SetBackgroundColor(color) => Op::SetBackgroundColor(color),
            Command::Print(text) => Op::Print(text@),
            Command::PrintChar(c) => Op::PrintChar(c),
            Command::PrintRepeat(repeat) => Op::PrintRepeat(repeat),
            Command::ClearAll => Op::ClearAll,
        }
    }
}

/// What a list of commands stands for.
pub open spec fn ops(commands: Seq<Command>) -> Seq<Op> {
    Seq::new(commands.len(), |i: int| commands[i]@)
}

/// Adds a command to a list.
pub fn put(commands: &mut Vec<Command>, command: Command)
    ensures
        ops(final(commands)@) == ops(old(commands)@).push(command@),
{
    commands.push(command);
}

/// Adds the commands of one list to another.
pub fn put_all(commands: &mut Vec<Command>, more: Vec<Command>)
    ensures
        ops(final(commands)@) == ops(old(commands)@) + ops(more@),
{
    let mut more = more;
    commands.append(&mut more);
}

/// `size - 2`, or zero for a size below two.
pub open spec fn inside(size: u16) -> u16 {
    if size >= 2 {
        (size - 2) as u16
    } else {
        0
    }
}

/// The commands that draw one of the middle rows of an outline.
pub open spec fn outline_row(dims: Rect<u16>, typ: OutlineType) -> Seq<Op> {
    seq![
        Op::MoveDown(1),
        Op::MoveToColumn(dims.pos.x),
        Op::PrintChar(typ.v),
        Op::MoveRight(inside(dims.size.x)),
        Op::PrintChar(typ.v),
    ]
}

/// The commands that draw `rows` middle rows of an outline.
pub open spec fn outline_rows(dims: Rect<u16>, typ: OutlineType, rows: nat) -> Seq<Op>
    decreases rows,
{
    if rows == 0 {
        Seq::empty()
    } else {
        outline_rows(dims, typ, (rows - 1) as nat) + outline_row(dims, typ)
    }
}

/// The commands that draw an outline around `dims`: the top row from the
/// corner, the middle rows each with its two sides, and the bottom row.
pub open spec fn outline_ops(dims: Rect<u16>, color: Color, typ: OutlineType) -> Seq<Op> {
    seq![
        Op::MoveTo(dims.pos.x, dims.pos.y),
        Op::SetForegroundColor(color),
        Op::PrintChar(typ.tl),
        Op::PrintRepeat(Repeat(typ.h, inside(dims.size.x))),
        Op::PrintChar(typ.tr),
    ] + outline_rows(dims, typ, inside(dims.size.y) as nat) + seq![
        Op::MoveDown(1),
        Op::MoveToColumn(dims.pos.x),
        Op::PrintChar(typ.bl),
        Op::PrintRepeat(Repeat(typ.h, inside(dims.size.x))),
        Op::PrintChar(typ.br),
    ]
}

/// The commands that draw an outline around `dims`.
pub fn draw_outline(dims: Rect<u16>, color: Color, typ: OutlineType) -> (commands: Vec<Command>)
    ensures
        ops(commands@) == outline_ops(dims, color, typ),
{
    let width = dims.size.x.saturating_sub(2);
    let height = dims.size.y.saturating_sub(2);
    let mut commands: Vec<Command> = Vec::new();
    put(&mut commands, Command::MoveTo(dims.pos.x, dims.pos.y));
    put(&mut commands, Command::SetForegroundColor(color));
    put(&mut commands, Command::PrintChar(typ.tl));
    put(&mut commands, Command::PrintRepeat(Repeat(typ.h, width)));
    put(&mut commands, Command::PrintChar(typ.tr));
    let ghost head = ops(commands@);
    let mut row: u16 = 0;
    while row < height
        invariant
            row <= height,
            width == inside(dims.size.x),
            ops(commands@) == head + outline_rows(dims, typ, row as nat),
        decreases height - row,
    {
        put(&mut commands, Command::MoveDown(1));
        put(&mut commands, Command::MoveToColumn(dims.pos.x));
        put(&mut commands, Command::PrintChar(typ.v));
        put(&mut commands, Command::MoveRight(width));
        put(&mut commands, Command::PrintChar(typ.v));
        row = row + 1;
    }
    put(&mut commands, Command::MoveDown(1));
    put(&mut commands, Command::MoveToColumn(dims.pos.x));
    put(&mut commands, Command::PrintChar(typ.bl));
    put(&mut commands, Command::PrintRepeat(Repeat(typ.h, width)));
    put(&mut commands, Command::PrintChar(typ.br));
    commands
}

/// The first lines of `text`, `count` at most, when it is broken into lines
/// of `width` characters, and the text that is left behind them.
pub open spec fn wrapped(text: Seq<char>, width: nat, count: nat) -> (Seq<Seq<char>>, Seq<char>)
    decreases count,
{
    if count == 0 {
        (Seq::empty(), text)
    } else {
        match next_line(text, width) {
            Some((line, rest)) => {
                let (more, left) = wrapped(rest, width, (count - 1) as nat);
                (seq![line] + more, left)
            },
            None => (Seq::empty(), text),
        }
    }
}

/// A line cut down to `room` characters, with three dots behind it.
pub open spec fn shortened(line: Seq<char>, room: int) -> Seq<char> {
    (if line.len() > room {
        line.take(room)
    } else {
        line
    }) + "..."@
}

/// `a - b`, or zero where `b` is the larger.
pub open spec fn less(a: int, b: int) -> int {
    if a >= b {
        a - b
    } else {
        0
    }
}

/// The lines in which `text` is shown in a box of the given size: as many
/// lines of the box as the text fills when it is broken at the width of the
/// box. Unless the text starts at the top, the last line ends in three dots
/// where the text goes on behind it, and empty lines come first, so that the
/// text stands in the middle or at the bottom.
pub open spec fn lines_for(size: Vec2<u16>, text: Seq<char>, align: TextAlignV) -> Seq<Seq<char>> {
    let (lines, rest) = wrapped(text, size.x as nat, size.y as nat);
    match align {
        TextAlignV::Top => lines,
        _ => {
            let shown = if lines.len() > 0 && next_line(rest, size.x as nat) is Some {
                lines.update(lines.len() - 1, shortened(lines.last(), less(size.x as int, 3)))
            } else {
                lines
            };
            let offset = match align {
                TextAlignV::Center => less(size.y as int, lines.len() as int) / 2,
                _ => less(size.y as int, lines.len() as int),
            };
            Seq::new(offset as nat, |i: int| Seq::<char>::empty()) + shown
        },
    }
}

/// Cuts a line down to `room` characters and puts three dots behind it.
pub fn shorten(line: &str, room: usize) -> (short: String)
    ensures
        short@ == shortened(line@, room as int),
{
    let chars = chars_of(line);
    let keep = if chars.len() > room {
        room
    } else {
        chars.len()
    };
    let mut short = slice_text(&chars, 0, keep);
    short.append("...");
    short
}

/// The lines in which `text` is shown in a box of the given size, which is
/// two columns wide at least.
pub fn get_lines(size: Vec2<u16>, text: &str, align: TextAlignV) -> (lines: Vec<String>)
    requires
        size.x >= 2,
    ensures
        views(lines@) == lines_for(size, text@, align),
        lines@.len() <= size.y,
{
    let mut wrap = WordWrap::new(text, size.x as usize);
    let mut lines: Vec<String> = Vec::new();
    let mut left: u16 = size.y;
    let ghost mut done = false;
    loop
        invariant_except_break
            !done,
        invariant
            wrap.wf(),
            wrap.max_length() == size.x,
            left <= size.y,
            lines@.len() == size.y - left,
            !done ==> wrapped(text@, size.x as nat, size.y as nat) == ({
                let (more, rest) = wrapped(wrap@, size.x as nat, left as nat);
                (views(lines@) + more, rest)
            }),
        ensures
            done,
            wrapped(text@, size.x as nat, size.y as nat) == (views(lines@), wrap@),
            lines@.len() <= size.y,
        decreases left,
    {
        if left == 0 {
            proof {
                done = true;
            }
            break ;
        }
        match wrap.next() {
            Some(line) => {
                lines.push(line);
                left = left - 1;
                proof {
                    let (more, rest) = wrapped(wrap@, size.x as nat, left as nat);
                }
            },
            None => {
                proof {
                    done = true;
                }
                break ;
            },
        }
    }
    match align {
        TextAlignV::Top => lines,
        _ => {
            let count = lines.len();
            if count > 0 && wrap.next().is_some() {
                let short = shorten(lines[count - 1].as_str(), (size.x as usize).saturating_sub(3));
                lines[count - 1] = short;
            }
            let room = (size.y as usize).saturating_sub(count);
            let offset = match align {
                TextAlignV::Center => room / 2,
                _ => room,
            };
            let mut placed: Vec<String> = Vec::new();
            while placed.len() < offset
                invariant
                    placed@.len() <= offset,
                    forall|i: int| 0 <= i < placed@.len() ==> (#[trigger] placed@[i])@ == Seq::<char>::empty(),
                decreases offset - placed@.len(),
            {
                placed.push(String::new());
            }
            placed.append(&mut lines);
            placed
        },
    }
}

/// The line at place `i`, if there is one and it is not empty.
pub open spec fn line_at(lines: Seq<Seq<char>>, i: int) -> Option<Seq<char>> {
    if 0 <= i < lines.len() && lines[i].len() > 0 {
        Some(lines[i])
    } else {
        None
    }
}

/// The commands that write the first `rows` of `lines` into the box `dims`,
/// each where its alignment puts it; empty lines are passed over.
pub open spec fn text_rows(dims: Rect<u16>, lines: Seq<Seq<char>>, align: TextAlignH, rows: int) -> Seq<Op>
    decreases rows,
{
    if rows <= 0 {
        Seq::empty()
    } else {
        text_rows(dims, lines, align, rows - 1) + match line_at(lines, rows - 1) {
            Some(line) => seq![
                Op::MoveTo(
                    plus_or_max(
                        dims.pos.x as int,
                        align.padding(line.len() as int, dims.size.x as int) as int,
                    ) as u16,
                    plus_or_max(dims.pos.y as int, rows - 1) as u16,
                ),
                Op::Print(line),
            ],
            None => Seq::empty(),
        }
    }
}

/// The commands that write `text` into the box `dims`.
pub open spec fn text_ops(dims: Rect<u16>, color: Color, text: Seq<char>, align: TextAlign) -> Seq<Op> {
    seq![Op::SetForegroundColor(color)] + text_rows(
        dims,
        lines_for(dims.size, text, align.v),
        align.h,
        lines_for(dims.size, text, align.v).len() as int,
    )
}

/// The commands that write `text` into the box `dims`, which is two columns
/// wide at least.
pub fn draw_text(dims: Rect<u16>, color: Color, text: &str, align: TextAlign) -> (commands: Vec<Command>)
    requires
        dims.size.x >= 2,
    ensures
        ops(commands@) == text_ops(dims, color, text@, align),
{
    let lines = get_lines(dims.size, text, align.v);
    let mut commands: Vec<Command> = Vec::new();
    put(&mut commands, Command::SetForegroundColor(color));
    let ghost head = ops(commands@);
    let mut index: usize = 0;
    while index < lines.len()
        invariant
            index <= lines@.len(),
            lines@.len() <= dims.size.y,
            ops(commands@) == head + text_rows(dims, views(lines@), align.h, index as int),
        decreases lines@.len() - index,
    {
        let line = &lines[index];
        if line.as_str().unicode_len() > 0 {
            let pad = align.h.padding_for(line.as_str(), dims.size.x);
            put(
                &mut commands,
                Command::MoveTo(dims.pos.x.saturating_add(pad), dims.pos.y.saturating_add(index as u16)),
            );
            put(&mut commands, Command::Print(line.clone()));
        }
        index = index + 1;
    }
    commands
}

/// How the change of one row of a box is written.
pub struct RowChange {
    /// Where the box stands.
    pub dims: Rect<u16>,
    /// How the line that stands there and the line that is to stand there
    /// are set.
    pub old_align: TextAlignH,
    pub new_align: TextAlignH,
    /// Whether a line is written again that has not changed.
    pub always_overwrite: bool,
    /// Which row of the box it is.
    pub row: int,
}

impl RowChange {
    /// The column at which a line with the given padding starts.
    pub open spec fn column(self, pad: u16) -> u16 {
        plus_or_max(self.dims.pos.x as int, pad as int) as u16
    }

    /// The row on the screen.
    pub open spec fn line(self) -> u16 {
        plus_or_max(self.dims.pos.y as int, self.row) as u16
    }

    /// The commands that write a line where none stands.
    pub open spec fn written(self, new: Seq<char>) -> Seq<Op> {
        seq![
            Op::MoveTo(
                self.column(self.new_align.padding(new.len() as int, self.dims.size.x as int)),
                self.line(),
            ),
            Op::Print(trim_end_of(new)),
        ]
    }

    /// The commands that blank a line.
    pub open spec fn blanked(self, old: Seq<char>) -> Seq<Op> {
        seq![
            Op::MoveTo(
                self.column(self.old_align.padding(trim_end_of(old).len() as int, self.dims.size.x as int)),
                self.line(),
            ),
            Op::PrintRepeat(Repeat(' ', capped(old.len() as int))),
        ]
    }

    /// The commands that write a line over another: nothing if the line has
    /// not changed and need not be written again; else blanks where the old
    /// line starts further left, the new line, and blanks as far as the old
    /// line reached further.
    pub open spec fn written_over(self, old: Seq<char>, new: Seq<char>) -> Seq<Op> {
        let width = self.dims.size.x as int;
        let old = trim_end_of(old);
        let new = trim_end_of(new);
        if self.always_overwrite || old != new {
            let old_pad = self.old_align.padding(old.len() as int, width);
            let new_pad = self.new_align.padding(new.len() as int, width);
            let old_len = plus_or_max(old_pad as int, capped(old.len() as int) as int);
            let new_len = plus_or_max(new_pad as int, capped(new.len() as int) as int);
            (if new_pad > old_pad {
                seq![
                    Op::MoveTo(self.column(old_pad), self.line()),
                    Op::PrintRepeat(Repeat(' ', (new_pad - old_pad) as u16)),
                ]
            } else {
                seq![Op::MoveTo(self.column(new_pad), self.line())]
            }) + seq![Op::Print(new)] + (if old_len > new_len {
                seq![Op::PrintRepeat(Repeat(' ', (old_len - new_len) as u16))]
            } else {
                Seq::empty()
            })
        } else {
            Seq::empty()
        }
    }

    /// The commands that put `new` where `old` stands.
    pub open spec fn ops(self, old: Option<Seq<char>>, new: Option<Seq<char>>) -> Seq<Op> {
        match (old, new) {
            (None, None) => Seq::empty(),
            (None, Some(new)) => self.written(new),
            (Some(old), None) => self.blanked(old),
            (Some(old), Some(new)) => self.written_over(old, new),
        }
    }
}

/// The commands that change the first `rows` rows of a box from the old
/// lines to the new ones.
pub open spec fn changed_rows(
    change: RowChange,
    old_lines: Seq<Seq<char>>,
    new_lines: Seq<Seq<char>>,
    rows: int,
) -> Seq<Op>
    decreases rows,
{
    if rows <= 0 {
        Seq::empty()
    } else {
        changed_rows(change, old_lines, new_lines, rows - 1) + (RowChange {
            row: rows - 1,
            ..change
        }).ops(line_at(old_lines, rows - 1), line_at(new_lines, rows - 1))
    }
}

/// The commands that put `new_text` into the box `dims` where `old_text`
/// stands, row by row.
pub open spec fn overwrite_ops(
    dims: Rect<u16>,
    color: Color,
    old_text: Seq<char>,
    old_align: TextAlign,
    new_text: Seq<char>,
    new_align: TextAlign,
    always_overwrite: bool,
) -> Seq<Op> {
    seq![Op::SetForegroundColor(color)] + changed_rows(
        RowChange { dims, old_align: old_align.h, new_align: new_align.h, always_overwrite, row: 0 },
        lines_for(dims.size, old_text, old_align.v),
        lines_for(dims.size, new_text, new_align.v),
        dims.size.y as int,
    )
}

/// The line at place `i`, if there is one and it is not empty.
fn line_of(lines: &Vec<String>, i: usize) -> (line: Option<&String>)
    ensures
        match line {
            Some(line) => line_at(views(lines@), i as int) == Some(line@),
            None => line_at(views(lines@), i as int) is None,
        },
{
    if i < lines.len() && lines[i].as_str().unicode_len() > 0 {
        Some(&lines[i])
    } else {
        None
    }
}

/// The commands that write a line over another.
fn write_over(
    commands: &mut Vec<Command>,
    dims: Rect<u16>,
    row: u16,
    was: &String,
    old_align: TextAlignH,
    now: &String,
    new_align: TextAlignH,
    always_overwrite: bool,
)
    ensures
        ops(final(commands)@) == ops(old(commands)@) + (RowChange {
            dims,
            old_align,
            new_align,
            always_overwrite,
            row: row as int,
        }).written_over(was@, now@),
{
    let y = dims.pos.y.saturating_add(row);
    let old_line = trim_end_text(was.as_str());
    let new_line = trim_end_text(now.as_str());
    if always_overwrite || old_line != new_line {
        let old_pad = old_align.padding_for(old_line.as_str(), dims.size.x);
        let new_pad = new_align.padding_for(new_line.as_str(), dims.size.x);
        let old_len = old_pad.saturating_add(cap(old_line.as_str().unicode_len()));
        let new_len = new_pad.saturating_add(cap(new_line.as_str().unicode_len()));
        if new_pad > old_pad {
            put(commands, Command::MoveTo(dims.pos.x.saturating_add(old_pad), y));
            put(commands, Command::PrintRepeat(Repeat(' ', new_pad - old_pad)));
        } else {
            put(commands, Command::MoveTo(dims.pos.x.saturating_add(new_pad), y));
        }
        put(commands, Command::Print(new_line));
        if old_len > new_len {
            put(commands, Command::PrintRepeat(Repeat(' ', old_len - new_len)));
        }
    }
}

/// The commands that write a line where none stands.
fn write_new(commands: &mut Vec<Command>, change: Ghost<RowChange>, dims: Rect<u16>, row: u16, now: &String, new_align: TextAlignH)
    requires
        change@.dims == dims,
        change@.row == row,
        change@.new_align == new_align,
    ensures
        ops(final(commands)@) == ops(old(commands)@) + change@.written(now@),
{
    let pad = new_align.padding_for(now.as_str(), dims.size.x);
    put(commands, Command::MoveTo(dims.pos.x.saturating_add(pad), dims.pos.y.saturating_add(row)));
    put(commands, Command::Print(trim_end_text(now.as_str())));
}

/// The commands that blank a line.
fn blank_old(commands: &mut Vec<Command>, change: Ghost<RowChange>, dims: Rect<u16>, row: u16, was: &String, old_align: TextAlignH)
    requires
        change@.dims == dims,
        change@.row == row,
        change@.old_align == old_align,
    ensures
        ops(final(commands)@) == ops(old(commands)@) + change@.blanked(was@),
{
    let trimmed = trim_end_text(was.as_str());
    let pad = old_align.padding_for(trimmed.as_str(), dims.size.x);
    put(commands, Command::MoveTo(dims.pos.x.saturating_add(pad), dims.pos.y.saturating_add(row)));
    put(commands, Command::PrintRepeat(Repeat(' ', cap(was.as_str().unicode_len()))));
}

/// The commands that put the line `now` where the line `was` stands, in the
/// row and with the alignments that `dims`, `row` and the alignments give.
fn overwrite_row(
    commands: &mut Vec<Command>,
    dims: Rect<u16>,
    row: u16,
    was: Option<&String>,
    old_align: TextAlignH,
    now: Option<&String>,
    new_align: TextAlignH,
    always_overwrite: bool,
)
    ensures
        ops(final(commands)@) == ops(old(commands)@) + (RowChange {
            dims,
            old_align,
            new_align,
            always_overwrite,
            row: row as int,
        }).ops(crate::output::text_box::text_ref_view(was), crate::output::text_box::text_ref_view(now)),
{
    let ghost change = RowChange { dims, old_align, new_align, always_overwrite, row: row as int };
    match (was, now) {
        (None, None) => {
        },
        (None, Some(new_line)) => {
            write_new(commands, Ghost(change), dims, row, new_line, new_align);
        },
        (Some(old_line), None) => {
            blank_old(commands, Ghost(change), dims, row, old_line, old_align);
        },
        (Some(old_line), Some(new_line)) => {
            write_over(commands, dims, row, old_line, old_align, new_line, new_align, always_overwrite);
        },
    }
}

/// The commands that put `new_text` into the box `dims` where `old_text`
/// stands. The box is two columns wide at least.
pub fn overwrite_text(
    dims: Rect<u16>,
    color: Color,
    old_text: &str,
    old_align: TextAlign,
    new_text: &str,
    new_align: TextAlign,
    always_overwrite: bool,
) -> (commands: Vec<Command>)
    requires
        dims.size.x >= 2,
    ensures
        ops(commands@) == overwrite_ops(
            dims,
            color,
            old_text@,
            old_align,
            new_text@,
            new_align,
            always_overwrite,
        ),
{
    let old_lines = get_lines(dims.size, old_text, old_align.v);
    let new_lines = get_lines(dims.size, new_text, new_align.v);
    let mut commands: Vec<Command> = Vec::new();
    put(&mut commands, Command::SetForegroundColor(color));
    let ghost head = ops(commands@);
    let ghost change = RowChange {
        dims,
        old_align: old_align.h,
        new_align: new_align.h,
        always_overwrite,
        row: 0,
    };
    let mut row: u16 = 0;
    while row < dims.size.y
        invariant
            row <= dims.size.y,
            change == (RowChange {
                dims,
                old_align: old_align.h,
                new_align: new_align.h,
                always_overwrite,
                row: 0,
            }),
            ops(commands@) == head + changed_rows(change, views(old_lines@), views(new_lines@), row as int),
        decreases dims.size.y - row,
    {
        let was = line_of(&old_lines, row as usize);
        let now = line_of(&new_lines, row as usize);
        overwrite_row(&mut commands, dims, row, was, old_align.h, now, new_align.h, always_overwrite);
        row = row + 1;
    }
    commands
}

/// Some commands, some times over.
pub open spec fn repeated(part: Seq<Op>, times: nat) -> Seq<Op>
    decreases times,
{
    if times == 0 {
        Seq::empty()
    } else {
        repeated(part, (times - 1) as nat) + part
    }
}

/// Adds a character and a run of another, some times over.
pub fn put_runs(commands: &mut Vec<Command>, times: u16, joint: char, run: Repeat)
    ensures
        ops(final(commands)@) == ops(old(commands)@) + repeated(
            seq![Op::PrintChar(joint), Op::PrintRepeat(run)],
            times as nat,
        ),
{
    let ghost part = seq![Op::PrintChar(joint), Op::PrintRepeat(run)];
    let ghost head = ops(commands@);
    let mut i: u16 = 0;
    while i < times
        invariant
            i <= times,
            part == seq![Op::PrintChar(joint), Op::PrintRepeat(run)],
            ops(commands@) == head + repeated(part, i as nat),
        decreases times - i,
    {
        put(commands, Command::PrintChar(joint));
        put(commands, Command::PrintRepeat(run));
        i = i + 1;
    }
}

/// Adds a character and a step to the right, some times over.
pub fn put_gaps(commands: &mut Vec<Command>, times: u16, joint: char, gap: u16)
    ensures
        ops(final(commands)@) == ops(old(commands)@) + repeated(
            seq![Op::PrintChar(joint), Op::MoveRight(gap)],
            times as nat,
        ),
{
    let ghost part = seq![Op::PrintChar(joint), Op::MoveRight(gap)];
    let ghost head = ops(commands@);
    let mut i: u16 = 0;
    while i < times
        invariant
            i <= times,
            part == seq![Op::PrintChar(joint), Op::MoveRight(gap)],
            ops(commands@) == head + repeated(part, i as nat),
        decreases times - i,
    {
        put(commands, Command::PrintChar(joint));
        put(commands, Command::MoveRight(gap));
        i = i + 1;
    }
}

} // verus!
