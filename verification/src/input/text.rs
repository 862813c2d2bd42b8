//! A line of text that is being typed.

use crate::chars::{char_at, chars_of, is_whitespace, text_of, trim_end_of, trim_end_text, views, white_space};
use crate::output::draw::{
    draw_outline, draw_text, get_lines, lines_for, ops, outline_ops, overwrite_ops, overwrite_text, put,
    put_all, text_ops, Command, Op,
};
use crate::output::word_wrap::{lemma_next_line_shrinks, next_line, WordWrap};
use crate::output::{cap, capped, Color, Repeat, TextAlign, TextAlignH, TextAlignV};
use crate::input::Key;
use crate::output::text_box::{
    copy_text, make_valid_dims, same_text, text_ref_view, text_view, valid_dims, OutlineType,
};
use crate::vec2::plus_or_max;
use crate::vec2::{Rect, Vec2};
use vstd::prelude::*;

verus! {

/// What a text input stands for.
pub struct InputModel {
    pub dims: Rect<u16>,
    pub outline_type: Option<OutlineType>,
    /// The characters typed.
    pub text: Seq<char>,
    /// Before which character the cursor stands; behind the last where it is
    /// the length of the text.
    pub cursor: int,
    /// The answer shown against the text.
    pub correct_answer: Option<Seq<char>>,
}

impl InputModel {
    /// The cursor stands in the text or at its end.
    pub open spec fn wf(self) -> bool {
        0 <= self.cursor <= self.text.len()
    }

    /// What a key makes of the input: a character is put in at the cursor,
    /// backspace takes out the character before it and delete the one at it,
    /// the arrows move it by one, and no other key changes anything.
    pub open spec fn after(self, key: Key) -> InputModel {
        match key {
            Key::Backspace => if self.cursor > 0 {
                InputModel { text: self.text.remove(self.cursor - 1), cursor: self.cursor - 1, ..self }
            } else {
                self
            },
            Key::Delete => if self.cursor < self.text.len() {
                InputModel { text: self.text.remove(self.cursor), ..self }
            } else {
                self
            },
            Key::Left => if self.cursor > 0 {
                InputModel { cursor: self.cursor - 1, ..self }
            } else {
                self
            },
            Key::Right => if self.cursor < self.text.len() {
                InputModel { cursor: self.cursor + 1, ..self }
            } else {
                self
            },
            Key::Char(c) => InputModel {
                text: self.text.insert(self.cursor, c),
                cursor: self.cursor + 1,
                ..self
            },
            _ => self,
        }
    }

    /// The input without outline, text and answer.
    pub open spec fn hidden(self) -> InputModel {
        InputModel { outline_type: None, text: Seq::empty(), cursor: 0, correct_answer: None, ..self }
    }
}

/// A box in which a line of text is typed.
#[derive(Debug)]
pub struct TextInput {
    dims: Rect<u16>,
    outline_type: Option<OutlineType>,
    text: Vec<char>,
    cursor_pos: usize,
    correct_answer: Option<String>,
}

impl View for TextInput {
    type V = InputModel;

    closed spec fn view(&self) -> InputModel {
        InputModel {
            dims: self.dims,
            outline_type: self.outline_type,
            text: self.text@,
            cursor: self.cursor_pos as int,
            correct_answer: text_view(self.correct_answer),
        }
    }
}

impl TextInput {
    /// What the input stands for is well formed.
    pub open spec fn wf(&self) -> bool {
        self@.wf()
    }

    /// An empty input without outline.
    pub open spec fn spec_new(dims: Rect<u16>) -> InputModel {
        InputModel {
            dims: valid_dims(dims),
            outline_type: None,
            text: Seq::empty(),
            cursor: 0,
            correct_answer: None,
        }
    }

    /// An empty input without outline.
    pub fn new(dims: Rect<u16>) -> (input: Self)
        ensures
            input.wf(),
            input@ == Self::spec_new(dims),
    {
        TextInput {
            dims: make_valid_dims(dims),
            outline_type: None,
            text: Vec::new(),
            cursor_pos: 0,
            correct_answer: None,
        }
    }

    /// Takes one key. Enter hands the text out and leaves it as it is; any
    /// other key edits the text or moves the cursor and hands nothing out.
    pub fn read_input(&mut self, code: Key) -> (entered: Option<String>)
        requires
            old(self).wf(),
        ensures
            final(self).wf(),
            final(self)@ == old(self)@.after(code),
            text_view(entered) == if code == Key::Enter {
                Some(old(self)@.text)
            } else {
                None
            },
    {
        match code {
            Key::Enter => Some(text_of(&self.text)),
            Key::Backspace => {
                if self.cursor_pos > 0 {
                    self.cursor_pos = self.cursor_pos - 1;
                    self.text.remove(self.cursor_pos);
                }
                None
            },
            Key::Delete => {
                if self.cursor_pos < self.text.len() {
                    self.text.remove(self.cursor_pos);
                }
                None
            },
            Key::Left => {
                if self.cursor_pos > 0 {
                    self.cursor_pos = self.cursor_pos - 1;
                }
                None
            },
            Key::Right => {
                if self.cursor_pos < self.text.len() {
                    self.cursor_pos = self.cursor_pos + 1;
                }
                None
            },
            Key::Char(c) => {
                self.text.insert(self.cursor_pos, c);
                let len = self.text.len();
                assert(self.cursor_pos < len);
                self.cursor_pos = self.cursor_pos + 1;
                None
            },
            _ => None,
        }
    }

    /// The text typed so far.
    pub fn get_text(&self) -> (text: String)
        ensures
            text@ == self@.text,
    {
        text_of(&self.text)
    }

    /// Before which character the cursor stands.
    pub fn cursor_pos(&self) -> (cursor: usize)
        ensures
            cursor == self@.cursor,
    {
        self.cursor_pos
    }

    /// Where the input stands and how large it is.
    pub fn dims(&self) -> (dims: Rect<u16>)
        ensures
            dims == self@.dims,
    {
        self.dims
    }

    /// The outline, where the input has one.
    pub fn outline_type(&self) -> (outline: Option<OutlineType>)
        ensures
            outline == self@.outline_type,
    {
        self.outline_type
    }

    /// The answer shown against the text, if one is.
    pub fn correct_answer(&self) -> (answer: &Option<String>)
        ensures
            text_view(*answer) == self@.correct_answer,
    {
        &self.correct_answer
    }

    /// The room inside the outline.
    pub fn inner_size(&self) -> (inner: Rect<u16>)
        ensures
            inner == self@.dims.shrunk(Vec2 { x: 1, y: 1 }),
    {
        self.dims.shrink_centered(Vec2::splat(1))
    }

    /// Gives the input an outline.
    pub fn set_outline(&mut self, outline: OutlineType)
        ensures
            final(self)@ == (InputModel { outline_type: Some(outline), ..old(self)@ }),
    {
        self.outline_type = Some(outline);
    }

    /// Takes the outline away.
    pub fn clear_outline(&mut self)
        ensures
            final(self)@ == (InputModel { outline_type: None, ..old(self)@ }),
    {
        self.outline_type = None;
    }

    /// Empties the text and takes the cursor to its start.
    pub fn clear_text(&mut self)
        ensures
            final(self)@ == (InputModel { text: Seq::empty(), cursor: 0, ..old(self)@ }),
            final(self).wf(),
    {
        self.text.clear();
        self.cursor_pos = 0;
    }

    /// Stops showing a right answer.
    pub fn clear_correct_answer(&mut self)
        ensures
            final(self)@ == (InputModel { correct_answer: None, ..old(self)@ }),
    {
        self.correct_answer = None;
    }

    /// Shows `answer` against the text.
    pub fn correct_answer_is(&mut self, answer: String)
        ensures
            final(self)@ == (InputModel { correct_answer: Some(answer@), ..old(self)@ }),
    {
        self.correct_answer = Some(answer);
    }

    /// Takes the outline, the text and the answer away.
    pub fn hide_all(&mut self)
        ensures
            final(self)@ == old(self)@.hidden(),
            final(self).wf(),
    {
        self.clear_outline();
        self.clear_text();
        self.clear_correct_answer();
    }

    /// Moves the input and gives it another size.
    pub fn force_move_resize(&mut self, new_dims: Rect<u16>)
        ensures
            final(self)@ == (InputModel { dims: valid_dims(new_dims), ..old(self)@ }),
    {
        self.dims = make_valid_dims(new_dims);
    }
}

/// How a character of the text typed compares with the character of the
/// right answer in its place.
#[derive(Debug, Clone, Copy, PartialEq, Eq, Structural)]
pub enum Diff {
    Same,
    Different,
    /// Only the text typed has a character there.
    FirstOnly,
    /// Only the right answer has a character there.
    SecondOnly,
}

impl Diff {
    /// The colour in which the character is shown.
    pub open spec fn spec_color(self) -> Color {
        match self {
            Diff::Same => Color::White,
            Diff::Different => Color::DarkRed,
            Diff::FirstOnly => Color::Rgb { r: 255, g: 105, b: 180 },
            Diff::SecondOnly => Color::Rgb { r: 128, g: 128, b: 128 },
        }
    }

    /// The colour in which the mark of the difference is drawn.
    pub fn color(self) -> (color: Color)
        ensures
            color == self.spec_color(),
    {
        match self {
            Diff::Same => Color::White,
            Diff::Different => Color::DarkRed,
            Diff::FirstOnly => Color::Rgb { r: 255, g: 105, b: 180 },
            Diff::SecondOnly => Color::Rgb { r: 128, g: 128, b: 128 },
        }
    }
}

/// The character at place `i` of `line`, if there is one and it is no white
/// space.
pub open spec fn mark_at(line: Seq<char>, i: int) -> Option<char> {
    if 0 <= i < line.len() && !white_space(line[i]) {
        Some(line[i])
    } else {
        None
    }
}

/// How the two lines compare at place `i`, and the character that shows
/// it; nothing where neither has a mark.
pub open spec fn diff_at(first: Seq<char>, second: Seq<char>, i: int) -> Option<(Diff, char)> {
    match (mark_at(first, i), mark_at(second, i)) {
        (None, None) => None,
        (None, Some(s)) => Some((Diff::SecondOnly, s)),
        (Some(f), None) => Some((Diff::FirstOnly, f)),
        (Some(f), Some(s)) => if f == s {
            Some((Diff::Same, f))
        } else {
            Some((Diff::Different, f))
        },
    }
}

/// The kind of the last comparison before place `upto` that showed a mark.
pub open spec fn last_diff(first: Seq<char>, second: Seq<char>, upto: int) -> Option<Diff>
    decreases upto,
{
    if upto <= 0 {
        None
    } else {
        match diff_at(first, second, upto - 1) {
            Some((diff, _)) => Some(diff),
            None => last_diff(first, second, upto - 1),
        }
    }
}

/// The commands that show the comparison of the two lines up to place
/// `upto`: each mark in the colour of its comparison, the colour set anew
/// only where it changes, and a blank where neither line has a mark.
pub open spec fn diff_marks(first: Seq<char>, second: Seq<char>, upto: int) -> Seq<Op>
    decreases upto,
{
    if upto <= 0 {
        Seq::empty()
    } else {
        diff_marks(first, second, upto - 1) + match diff_at(first, second, upto - 1) {
            None => seq![Op::PrintChar(' ')],
            Some((diff, mark)) => if last_diff(first, second, upto - 1) == Some(diff) {
                seq![Op::PrintChar(mark)]
            } else {
                seq![Op::SetForegroundColor(diff.spec_color()), Op::PrintChar(mark)]
            },
        }
    }
}

/// The longer of two lengths.
pub open spec fn longer(a: int, b: int) -> int {
    if a >= b {
        a
    } else {
        b
    }
}

/// The commands that show, from the cell at `x` and `y` on, how the line
/// typed compares with the line of the right answer; a line that has no
/// partner is shown whole in the colour of that.
pub open spec fn diff_line_ops(x: u16, y: u16, first: Option<Seq<char>>, second: Option<Seq<char>>) -> Seq<Op> {
    match (first, second) {
        (None, None) => Seq::empty(),
        (None, Some(line)) => seq![
            Op::MoveTo(x, y),
            Op::SetForegroundColor(Diff::SecondOnly.spec_color()),
            Op::Print(line),
        ],
        (Some(line), None) => seq![
            Op::MoveTo(x, y),
            Op::SetForegroundColor(Diff::FirstOnly.spec_color()),
            Op::Print(line),
        ],
        (Some(first), Some(second)) => seq![Op::MoveTo(x, y)] + diff_marks(
            trim_end_of(first),
            trim_end_of(second),
            longer(trim_end_of(first).len() as int, trim_end_of(second).len() as int),
        ),
    }
}

/// Whether a line has a mark at a place.
fn has_mark(line: &Vec<char>, i: usize) -> (has: bool)
    ensures
        has == mark_at(line@, i as int) is Some,
{
    i < line.len() && !is_whitespace(char_at(line, i))
}

/// The commands that write a mark, in another colour if one is given.
fn put_mark(commands: &mut Vec<Command>, color: Option<Color>, mark: char)
    ensures
        ops(final(commands)@) == ops(old(commands)@) + match color {
            Some(color) => seq![Op::SetForegroundColor(color), Op::PrintChar(mark)],
            None => seq![Op::PrintChar(mark)],
        },
{
    match color {
        Some(color) => {
            put(commands, Command::SetForegroundColor(color));
            put(commands, Command::PrintChar(mark));
        },
        None => {
            put(commands, Command::PrintChar(mark));
        },
    }
}

/// The commands that show how two lines compare, mark by mark.
fn draw_diff_marks(commands: &mut Vec<Command>, first: &Vec<char>, second: &Vec<char>)
    ensures
        ops(final(commands)@) == ops(old(commands)@) + diff_marks(
            first@,
            second@,
            longer(first@.len() as int, second@.len() as int),
        ),
{
    let length = if first.len() >= second.len() {
        first.len()
    } else {
        second.len()
    };
    let ghost head = ops(commands@);
    let mut last: Option<Diff> = None;
    let mut i: usize = 0;
    while i < length
        invariant
            i <= length,
            last == last_diff(first@, second@, i as int),
            ops(commands@) == head + diff_marks(first@, second@, i as int),
        decreases length - i,
    {
        let in_first = has_mark(first, i);
        let in_second = has_mark(second, i);
        if !in_first && !in_second {
            put_mark(commands, None, ' ');
        } else {
            let mark = if in_first {
                char_at(first, i)
            } else {
                char_at(second, i)
            };
            let diff = if !in_first {
                Diff::SecondOnly
            } else if !in_second {
                Diff::FirstOnly
            } else if mark == char_at(second, i) {
                Diff::Same
            } else {
                Diff::Different
            };
            let same = match last {
                Some(kind) => kind == diff,
                None => false,
            };
            put_mark(
                commands,
                if same {
                    None
                } else {
                    Some(diff.color())
                },
                mark,
            );
            last = Some(diff);
        }
        i = i + 1;
    }
}

/// The commands that show, from the cell at `x` and `y` on, how the line
/// typed compares with the line of the right answer.
pub fn draw_diff_line(x: u16, y: u16, first_line: Option<&String>, second_line: Option<&String>) -> (commands:
    Vec<Command>)
    ensures
        ops(commands@) == diff_line_ops(
            x,
            y,
            crate::output::text_box::text_ref_view(first_line),
            crate::output::text_box::text_ref_view(second_line),
        ),
{
    let mut commands: Vec<Command> = Vec::new();
    match (first_line, second_line) {
        (None, None) => {},
        (None, Some(line)) => {
            put(&mut commands, Command::MoveTo(x, y));
            put(&mut commands, Command::SetForegroundColor(Diff::SecondOnly.color()));
            put(&mut commands, Command::Print(line.clone()));
        },
        (Some(line), None) => {
            put(&mut commands, Command::MoveTo(x, y));
            put(&mut commands, Command::SetForegroundColor(Diff::FirstOnly.color()));
            put(&mut commands, Command::Print(line.clone()));
        },
        (Some(first), Some(second)) => {
            put(&mut commands, Command::MoveTo(x, y));
            let first = chars_of(trim_end_text(first.as_str()).as_str());
            let second = chars_of(trim_end_text(second.as_str()).as_str());
            draw_diff_marks(&mut commands, &first, &second);
        },
    }
    commands
}

/// The line at place `i`, if there is one.
pub open spec fn row_at(lines: Seq<Seq<char>>, i: int) -> Option<Seq<char>> {
    if 0 <= i < lines.len() {
        Some(lines[i])
    } else {
        None
    }
}

/// The line at place `i`, if there is one.
fn row_of(lines: &Vec<String>, i: usize) -> (line: Option<&String>)
    ensures
        text_ref_view(line) == row_at(views(lines@), i as int),
{
    if i < lines.len() {
        Some(&lines[i])
    } else {
        None
    }
}

/// The first `rows` rows of the comparison of a text with the right
/// answer, each line of the one against the line of the other.
pub open spec fn diff_rows(inner: Rect<u16>, typed: Seq<Seq<char>>, right: Seq<Seq<char>>, rows: int) -> Seq<Op>
    decreases rows,
{
    if rows <= 0 {
        Seq::empty()
    } else {
        diff_rows(inner, typed, right, rows - 1) + diff_line_ops(
            inner.pos.x,
            plus_or_max(inner.pos.y as int, rows - 1) as u16,
            row_at(typed, rows - 1),
            row_at(right, rows - 1),
        )
    }
}

/// The commands that blank one row of a comparison: as many blanks as the
/// longer of the two lines has characters.
pub open spec fn blank_row(x: u16, y: u16, first: Option<Seq<char>>, second: Option<Seq<char>>) -> Seq<Op> {
    if first is None && second is None {
        Seq::empty()
    } else {
        seq![
            Op::MoveTo(x, y),
            Op::PrintRepeat(
                Repeat(
                    ' ',
                    capped(
                        longer(
                            match first {
                                Some(line) => line.len() as int,
                                None => 0,
                            },
                            match second {
                                Some(line) => line.len() as int,
                                None => 0,
                            },
                        ),
                    ),
                ),
            ),
        ]
    }
}

/// The first `rows` rows of the blanking of a comparison.
pub open spec fn blank_rows(inner: Rect<u16>, typed: Seq<Seq<char>>, right: Seq<Seq<char>>, rows: int) -> Seq<Op>
    decreases rows,
{
    if rows <= 0 {
        Seq::empty()
    } else {
        blank_rows(inner, typed, right, rows - 1) + blank_row(
            inner.pos.x,
            plus_or_max(inner.pos.y as int, rows - 1) as u16,
            row_at(typed, rows - 1),
            row_at(right, rows - 1),
        )
    }
}

/// The commands that bring one row of a comparison up to date when the
/// line typed has changed from `old` to `new`: the comparison of the new
/// line is drawn, and blanks as far as the old line reached further.
pub open spec fn retyped_row(
    x: u16,
    y: u16,
    new: Option<Seq<char>>,
    old: Option<Seq<char>>,
    right: Option<Seq<char>>,
) -> Seq<Op> {
    if new == old {
        Seq::empty()
    } else {
        (if new is Some || right is Some {
            diff_line_ops(x, y, new, right)
        } else {
            seq![Op::MoveTo(x, y)]
        }) + match old {
            Some(old) => {
                let was = trim_end_of(old).len();
                let now = match new {
                    Some(new) => trim_end_of(new).len(),
                    None => 0,
                };
                if was >= now {
                    seq![Op::PrintRepeat(Repeat(' ', capped(was - now)))]
                } else {
                    Seq::empty()
                }
            },
            None => Seq::empty(),
        }
    }
}

/// The first `rows` rows of the update of a comparison.
pub open spec fn retyped_rows(
    inner: Rect<u16>,
    new: Seq<Seq<char>>,
    old: Seq<Seq<char>>,
    right: Seq<Seq<char>>,
    rows: int,
) -> Seq<Op>
    decreases rows,
{
    if rows <= 0 {
        Seq::empty()
    } else {
        retyped_rows(inner, new, old, right, rows - 1) + retyped_row(
            inner.pos.x,
            plus_or_max(inner.pos.y as int, rows - 1) as u16,
            row_at(new, rows - 1),
            row_at(old, rows - 1),
            row_at(right, rows - 1),
        )
    }
}

impl InputModel {
    /// The room inside the outline.
    pub open spec fn inner(self) -> Rect<u16> {
        self.dims.shrunk(Vec2 { x: 1, y: 1 })
    }

    /// The input is large enough for an outline and a text.
    pub open spec fn drawable(self) -> bool {
        self.dims.size.x >= 5 && self.dims.size.y >= 3
    }

    /// The lines in which a text stands in the input.
    pub open spec fn lines(self, text: Seq<char>) -> Seq<Seq<char>> {
        lines_for(self.inner().size, text, TextAlignV::Top)
    }

    /// The commands that write the text: against the right answer where one
    /// is shown, plainly where none is.
    pub open spec fn text_drawn(self) -> Seq<Op> {
        match self.correct_answer {
            Some(right) => diff_rows(
                self.inner(),
                self.lines(self.text),
                self.lines(right),
                self.inner().size.y as int,
            ),
            None => text_ops(
                self.inner(),
                Color::White,
                self.text,
                TextAlign { h: TextAlignH::Left, v: TextAlignV::Top },
            ),
        }
    }

    /// The commands that blank the text.
    pub open spec fn text_erased(self) -> Seq<Op> {
        match self.correct_answer {
            Some(right) => blank_rows(
                self.inner(),
                self.lines(self.text),
                self.lines(right),
                self.inner().size.y as int,
            ),
            None => overwrite_ops(
                self.inner(),
                Color::White,
                self.text,
                TextAlign { h: TextAlignH::Left, v: TextAlignV::Top },
                Seq::empty(),
                TextAlign { h: TextAlignH::Left, v: TextAlignV::Top },
                true,
            ),
        }
    }

    /// The commands that write the text where the text of `shown` stands,
    /// the right answer being the same for both.
    pub open spec fn text_retyped(self, shown: InputModel) -> Seq<Op> {
        match self.correct_answer {
            Some(right) => retyped_rows(
                self.inner(),
                self.lines(self.text),
                self.lines(shown.text),
                self.lines(right),
                self.inner().size.y as int,
            ),
            None => overwrite_ops(
                self.inner(),
                Color::White,
                shown.text,
                TextAlign { h: TextAlignH::Left, v: TextAlignV::Top },
                self.text,
                TextAlign { h: TextAlignH::Left, v: TextAlignV::Top },
                false,
            ),
        }
    }

    /// The commands that draw the input from nothing.
    pub open spec fn drawn(self) -> Seq<Op> {
        (match self.outline_type {
            Some(outline) => outline_ops(self.dims, Color::Reset, outline),
            None => Seq::empty(),
        }) + self.text_drawn()
    }

    /// The commands that make of a screen that shows `shown` one that shows
    /// this input, which stands where `shown` does: the outline is drawn if
    /// it has changed; the text is blanked and written anew if the right
    /// answer has changed, and written over the old one if only it has
    /// changed.
    pub open spec fn updated(self, shown: InputModel) -> Seq<Op> {
        (if self.outline_type != shown.outline_type {
            outline_ops(
                self.dims,
                Color::Reset,
                match self.outline_type {
                    Some(outline) => outline,
                    None => OutlineType { tl: ' ', tr: ' ', bl: ' ', br: ' ', h: ' ', v: ' ' },
                },
            )
        } else {
            Seq::empty()
        }) + (if self.correct_answer != shown.correct_answer {
            shown.text_erased() + self.text_drawn()
        } else if self.text != shown.text {
            self.text_retyped(shown)
        } else {
            Seq::empty()
        })
    }
}

/// The length of a line without the white space that ends it.
fn trimmed_length(line: &String) -> (length: usize)
    ensures
        length == trim_end_of(line@).len(),
{
    trim_end_text(line.as_str()).as_str().unicode_len()
}

/// Adds the commands that bring one row of a comparison up to date.
fn retype_row(
    commands: &mut Vec<Command>,
    x: u16,
    y: u16,
    now: Option<&String>,
    was: Option<&String>,
    right: Option<&String>,
)
    ensures
        ops(final(commands)@) == ops(old(commands)@) + retyped_row(
            x,
            y,
            text_ref_view(now),
            text_ref_view(was),
            text_ref_view(right),
        ),
{
    let same = match (now, was) {
        (Some(a), Some(b)) => *a == *b,
        (None, None) => true,
        _ => false,
    };
    if !same {
        if now.is_some() || right.is_some() {
            put_all(commands, draw_diff_line(x, y, now, right));
        } else {
            put(commands, Command::MoveTo(x, y));
        }
        if let Some(old_line) = was {
            let old_length = trimmed_length(old_line);
            let new_length = match now {
                Some(new_line) => trimmed_length(new_line),
                None => 0,
            };
            if old_length >= new_length {
                put(commands, Command::PrintRepeat(Repeat(' ', cap(old_length - new_length))));
            }
        }
    }
}

/// Adds the commands that blank one row of a comparison.
fn blank_one_row(commands: &mut Vec<Command>, x: u16, y: u16, first: Option<&String>, second: Option<&String>)
    ensures
        ops(final(commands)@) == ops(old(commands)@) + blank_row(
            x,
            y,
            text_ref_view(first),
            text_ref_view(second),
        ),
{
    if first.is_some() || second.is_some() {
        let a = match first {
            Some(line) => line.as_str().unicode_len(),
            None => 0,
        };
        let b = match second {
            Some(line) => line.as_str().unicode_len(),
            None => 0,
        };
        put(commands, Command::MoveTo(x, y));
        put(
            commands,
            Command::PrintRepeat(
                Repeat(
                    ' ',
                    cap(
                        if a >= b {
                            a
                        } else {
                            b
                        },
                    ),
                ),
            ),
        );
    }
}

impl TextInput {
    /// The input is large enough for an outline and a text.
    pub open spec fn drawable(&self) -> bool {
        self@.drawable()
    }

    /// The commands that write the text.
    pub fn redraw_text(&self) -> (commands: Vec<Command>)
        requires
            self.drawable(),
        ensures
            ops(commands@) == self@.text_drawn(),
    {
        let inner = self.inner_size();
        let text = text_of(&self.text);
        match &self.correct_answer {
            Some(correct_answer) => {
                let typed = get_lines(inner.size, text.as_str(), TextAlignV::Top);
                let right = get_lines(inner.size, correct_answer.as_str(), TextAlignV::Top);
                let mut commands: Vec<Command> = Vec::new();
                let mut row: u16 = 0;
                while row < inner.size.y
                    invariant
                        row <= inner.size.y,
                        ops(commands@) == diff_rows(inner, views(typed@), views(right@), row as int),
                    decreases inner.size.y - row,
                {
                    put_all(
                        &mut commands,
                        draw_diff_line(
                            inner.pos.x,
                            inner.pos.y.saturating_add(row),
                            row_of(&typed, row as usize),
                            row_of(&right, row as usize),
                        ),
                    );
                    row = row + 1;
                }
                commands
            },
            None => draw_text(inner, Color::White, text.as_str(), TextAlign::top_left()),
        }
    }

    /// The commands that blank the text.
    pub fn erase_text(&self) -> (commands: Vec<Command>)
        requires
            self.drawable(),
        ensures
            ops(commands@) == self@.text_erased(),
    {
        let inner = self.inner_size();
        let text = text_of(&self.text);
        match &self.correct_answer {
            Some(correct_answer) => {
                let typed = get_lines(inner.size, text.as_str(), TextAlignV::Top);
                let right = get_lines(inner.size, correct_answer.as_str(), TextAlignV::Top);
                let mut commands: Vec<Command> = Vec::new();
                let mut row: u16 = 0;
                while row < inner.size.y
                    invariant
                        row <= inner.size.y,
                        ops(commands@) == blank_rows(inner, views(typed@), views(right@), row as int),
                    decreases inner.size.y - row,
                {
                    blank_one_row(
                        &mut commands,
                        inner.pos.x,
                        inner.pos.y.saturating_add(row),
                        row_of(&typed, row as usize),
                        row_of(&right, row as usize),
                    );
                    row = row + 1;
                }
                commands
            },
            None => {
                proof {
                    reveal_strlit("");
                }
                overwrite_text(
                    inner,
                    Color::White,
                    text.as_str(),
                    TextAlign::top_left(),
                    "",
                    TextAlign::top_left(),
                    true,
                )
            },
        }
    }

    /// The commands that write the text where the text of `shown` stands,
    /// the right answer being the same for both.
    pub fn overwrite_text(&self, shown: &TextInput) -> (commands: Vec<Command>)
        requires
            self.drawable(),
        ensures
            ops(commands@) == self@.text_retyped(shown@),
    {
        let inner = self.inner_size();
        let text = text_of(&self.text);
        let old_text = text_of(&shown.text);
        match &self.correct_answer {
            Some(correct_answer) => {
                let typed = get_lines(inner.size, text.as_str(), TextAlignV::Top);
                let old = get_lines(inner.size, old_text.as_str(), TextAlignV::Top);
                let right = get_lines(inner.size, correct_answer.as_str(), TextAlignV::Top);
                let mut commands: Vec<Command> = Vec::new();
                let mut row: u16 = 0;
                while row < inner.size.y
                    invariant
                        row <= inner.size.y,
                        ops(commands@) == retyped_rows(
                            inner,
                            views(typed@),
                            views(old@),
                            views(right@),
                            row as int,
                        ),
                    decreases inner.size.y - row,
                {
                    retype_row(
                        &mut commands,
                        inner.pos.x,
                        inner.pos.y.saturating_add(row),
                        row_of(&typed, row as usize),
                        row_of(&old, row as usize),
                        row_of(&right, row as usize),
                    );
                    row = row + 1;
                }
                commands
            },
            None => overwrite_text(
                inner,
                Color::White,
                old_text.as_str(),
                TextAlign::top_left(),
                text.as_str(),
                TextAlign::top_left(),
                false,
            ),
        }
    }

    /// The commands that draw the input from nothing.
    pub fn draw(&self) -> (commands: Vec<Command>)
        requires
            self.drawable(),
        ensures
            ops(commands@) == self@.drawn(),
    {
        let mut commands: Vec<Command> = Vec::new();
        if let Some(outline_type) = self.outline_type {
            put_all(&mut commands, draw_outline(self.dims, Color::Reset, outline_type));
        }
        put_all(&mut commands, self.redraw_text());
        commands
    }

    /// The commands that make of a screen that shows `shown` one that shows
    /// this input.
    pub fn update(&self, shown: &TextInput) -> (commands: Vec<Command>)
        requires
            self.drawable(),
            shown.drawable(),
        ensures
            ops(commands@) == self@.updated(shown@),
    {
        let mut commands: Vec<Command> = Vec::new();
        if self.outline_type != shown.outline_type {
            let outline = match self.outline_type {
                Some(outline) => outline,
                None => OutlineType::erase(),
            };
            put_all(&mut commands, draw_outline(self.dims, Color::Reset, outline));
        }
        if !same_text(&self.correct_answer, &shown.correct_answer) {
            put_all(&mut commands, shown.erase_text());
            put_all(&mut commands, self.redraw_text());
        } else if !same_chars(&self.text, &shown.text) {
            put_all(&mut commands, self.overwrite_text(shown));
        }
        commands
    }
}

impl Clone for TextInput {
    fn clone(&self) -> (copy: TextInput)
        ensures
            copy@ == self@,
    {
        let mut text: Vec<char> = Vec::new();
        let mut i: usize = 0;
        while i < self.text.len()
            invariant
                i <= self.text@.len(),
                text@ == self.text@.take(i as int),
            decreases self.text@.len() - i,
        {
            text.push(self.text[i]);
            i = i + 1;
        }
        assert(self.text@.take(i as int) =~= self.text@);
        TextInput {
            dims: self.dims,
            outline_type: self.outline_type,
            text,
            cursor_pos: self.cursor_pos,
            correct_answer: copy_text(&self.correct_answer),
        }
    }
}

/// Whether two vectors hold the same characters.
pub fn same_chars(a: &Vec<char>, b: &Vec<char>) -> (same: bool)
    ensures
        same == (a@ == b@),
{
    if a.len() != b.len() {
        return false;
    }
    let mut i: usize = 0;
    while i < a.len()
        invariant
            i <= a.len(),
            a.len() == b.len(),
            forall|k: int| 0 <= k < i ==> a@[k] == b@[k],
        decreases a.len() - i,
    {
        if a[i] != b[i] {
            return false;
        }
        i = i + 1;
    }
    assert(a@ =~= b@);
    true
}

/// The column and the row, counted from the first cell of the text, at
/// which the cursor stands when it stands before character `cursor` of
/// `text` and the text is broken into lines of `width` characters: in the
/// first line that takes the character in, or in the last line, as far right
/// as the characters before it reach.
pub open spec fn cursor_cell(text: Seq<char>, width: nat, cursor: int, row: int) -> (int, int)
    decreases text.len(),
{
    if width < 2 {
        (cursor, row)
    } else {
        match next_line(text, width) {
            None => (0, row),
            Some((line, rest)) => {
                let used = text.len() - rest.len();
                if cursor < used || rest.len() == 0 {
                    (cursor, row)
                } else {
                    proof {
                        lemma_next_line_shrinks(text, width);
                    }
                    cursor_cell(rest, width, cursor - used, row + 1)
                }
            },
        }
    }
}

impl InputModel {
    /// The cell of the screen at which the cursor stands.
    pub open spec fn cursor_at(self) -> Op {
        let (column, row) = cursor_cell(self.text, self.inner().size.x as nat, self.cursor, 0);
        Op::MoveTo(capped(self.dims.pos.x + 1 + column), capped(self.dims.pos.y + 1 + row))
    }
}

impl TextInput {
    /// The command that takes the cursor of the terminal to the cursor of
    /// the input.
    pub fn go_to_cursor(&self) -> (command: Command)
        requires
            self.wf(),
            self.drawable(),
        ensures
            command@ == self@.cursor_at(),
    {
        let width = self.inner_size().size.x as usize;
        let text = text_of(&self.text);
        let mut wrap = WordWrap::new(text.as_str(), width);
        let mut last_len = wrap.remaining_text_len();
        let mut cursor_pos = self.cursor_pos;
        let mut row: usize = 0;
        let total = self.text.len();
        let ghost goal = cursor_cell(self@.text, width as nat, self@.cursor, 0);
        let ghost mut done = false;
        let mut column: usize = 0;
        loop
            invariant_except_break
                !done,
                last_len == wrap@.len(),
                row + wrap@.len() <= self.text@.len(),
                cursor_cell(wrap@, width as nat, cursor_pos as int, row as int) == goal,
            invariant
                wrap.wf(),
                wrap.max_length() == width,
                width >= 2,
                cursor_pos <= self.cursor_pos,
                total == self.text@.len(),
                row <= self.text@.len(),
            ensures
                done,
                goal == (column as int, row as int),
            decreases wrap@.len(),
        {
            match wrap.next() {
                Some(line) => {
                    let len = wrap.remaining_text_len();
                    let diff = last_len - len;
                    if cursor_pos < diff || len == 0 {
                        column = cursor_pos;
                        proof {
                            done = true;
                        }
                        break ;
                    }
                    last_len = len;
                    cursor_pos = cursor_pos - diff;
                    row = row + 1;
                },
                None => {
                    column = 0;
                    proof {
                        done = true;
                    }
                    break ;
                },
            }
        }
        let x: u128 = self.dims.pos.x as u128 + 1 + column as u128;
        let y: u128 = self.dims.pos.y as u128 + 1 + row as u128;
        Command::MoveTo(
            if x > 0xffff {
                0xffff
            } else {
                x as u16
            },
            if y > 0xffff {
                0xffff
            } else {
                y as u16
            },
        )
    }
}

} // verus!
