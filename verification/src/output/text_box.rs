//! Boxes of text: what they show and where they stand.

use crate::output::draw::{
    draw_outline, draw_text, ops, outline_ops, overwrite_ops, overwrite_text, put, put_all, put_gaps,
    put_runs, repeated, text_ops, Command, Op,
};
use crate::output::{capped, Color, Repeat, TextAlign, TextAlignH, TextAlignV};
use crate::vec2::plus_or_max;
use crate::vec2::{Rect, Vec2};
use vstd::prelude::*;
use vstd::std_specs::cmp::PartialEqSpec;

verus! {

/// The characters of which the outline of a box is drawn.
#[derive(Debug, Clone, Copy, PartialEq, Eq, Structural)]
pub struct OutlineType {
    pub tl: char,
    pub tr: char,
    pub bl: char,
    pub br: char,
    pub h: char,
    pub v: char,
}

impl OutlineType {
    /// An outline of light lines.
    pub fn light() -> (outline: Self)
        ensures
            outline == (OutlineType { tl: '┌', tr: '┐', bl: '└', br: '┘', h: '─', v: '│' }),
    {
        OutlineType { tl: '┌', tr: '┐', bl: '└', br: '┘', h: '─', v: '│' }
    }

    /// An outline of heavy lines.
    pub open spec fn spec_heavy() -> OutlineType {
        OutlineType { tl: '┏', tr: '┓', bl: '┗', br: '┛', h: '━', v: '┃' }
    }

    /// An outline of heavy lines.
    pub fn heavy() -> (outline: Self)
        ensures
            outline == Self::spec_heavy(),
    {
        OutlineType { tl: '┏', tr: '┓', bl: '┗', br: '┛', h: '━', v: '┃' }
    }

    /// An outline of double lines.
    pub open spec fn spec_double() -> OutlineType {
        OutlineType { tl: '╔', tr: '╗', bl: '╚', br: '╝', h: '═', v: '║' }
    }

    /// An outline of double lines.
    pub fn double() -> (outline: Self)
        ensures
            outline == Self::spec_double(),
    {
        OutlineType { tl: '╔', tr: '╗', bl: '╚', br: '╝', h: '═', v: '║' }
    }

    /// An outline of blanks, which wipes another out.
    pub fn erase() -> (outline: Self)
        ensures
            outline == (OutlineType { tl: ' ', tr: ' ', bl: ' ', br: ' ', h: ' ', v: ' ' }),
    {
        OutlineType { tl: ' ', tr: ' ', bl: ' ', br: ' ', h: ' ', v: ' ' }
    }
}

/// The characters of which the outline of a row of boxes is drawn.
#[derive(Debug, Clone, Copy, PartialEq, Eq, Structural)]
pub struct MultiOutlineType {
    pub tl: char,
    pub tr: char,
    pub bl: char,
    pub br: char,
    pub h: char,
    pub v: char,
    pub join_top: char,
    pub join_bot: char,
    pub inner_v: char,
}

impl MultiOutlineType {
    /// A double outline with light lines between the boxes.
    pub open spec fn spec_double_light() -> MultiOutlineType {
        MultiOutlineType {
            tl: '╔',
            tr: '╗',
            bl: '╚',
            br: '╝',
            h: '═',
            v: '║',
            join_top: '╤',
            join_bot: '╧',
            inner_v: '│',
        }
    }

    /// A double outline with light lines between the boxes.
    pub fn double_light() -> (outline: Self)
        ensures
            outline == Self::spec_double_light(),
    {
        MultiOutlineType {
            tl: '╔',
            tr: '╗',
            bl: '╚',
            br: '╝',
            h: '═',
            v: '║',
            join_top: '╤',
            join_bot: '╧',
            inner_v: '│',
        }
    }

    /// An outline of blanks, which wipes another out.
    pub fn erase() -> (outline: Self)
        ensures
            outline == (MultiOutlineType {
                tl: ' ',
                tr: ' ',
                bl: ' ',
                br: ' ',
                h: ' ',
                v: ' ',
                join_top: ' ',
                join_bot: ' ',
                inner_v: ' ',
            }),
    {
        MultiOutlineType {
            tl: ' ',
            tr: ' ',
            bl: ' ',
            br: ' ',
            h: ' ',
            v: ' ',
            join_top: ' ',
            join_bot: ' ',
            inner_v: ' ',
        }
    }
}

/// The least size of a box: room for an outline and one character.
pub open spec fn valid_dims(dims: Rect<u16>) -> Rect<u16> {
    Rect {
        pos: dims.pos,
        size: Vec2 {
            x: if dims.size.x >= 5 {
                dims.size.x
            } else {
                5
            },
            y: if dims.size.y >= 3 {
                dims.size.y
            } else {
                3
            },
        },
    }
}

/// Widens a rectangle to the least size of a box: 5 columns and 3 rows.
pub fn make_valid_dims(dims: Rect<u16>) -> (valid: Rect<u16>)
    ensures
        valid == valid_dims(dims),
{
    Rect {
        pos: dims.pos,
        size: Vec2 {
            x: if dims.size.x >= 5 {
                dims.size.x
            } else {
                5
            },
            y: if dims.size.y >= 3 {
                dims.size.y
            } else {
                3
            },
        },
    }
}

/// What a text box stands for.
pub struct BoxModel {
    pub dims: Rect<u16>,
    pub outline_type: Option<OutlineType>,
    pub outline_color: Color,
    pub text: Option<Seq<char>>,
    pub text_align: TextAlign,
    pub text_color: Color,
}

/// A box with an outline and a text in it.
#[derive(Debug)]
pub struct TextBox {
    dims: Rect<u16>,
    outline_type: Option<OutlineType>,
    outline_color: Color,
    text: Option<String>,
    text_align: TextAlign,
    text_color: Color,
}

/// The characters of a text that may be missing.
pub open spec fn text_view(text: Option<String>) -> Option<Seq<char>> {
    match text {
        Some(text) => Some(text@),
        None => None,
    }
}

/// The characters of a text that may be missing.
pub open spec fn text_ref_view(text: Option<&String>) -> Option<Seq<char>> {
    match text {
        Some(text) => Some(text@),
        None => None,
    }
}

impl View for TextBox {
    type V = BoxModel;

    closed spec fn view(&self) -> BoxModel {
        BoxModel {
            dims: self.dims,
            outline_type: self.outline_type,
            outline_color: self.outline_color,
            text: text_view(self.text),
            text_align: self.text_align,
            text_color: self.text_color,
        }
    }
}

impl TextBox {
    /// An empty box without outline, white, its text centred.
    pub open spec fn spec_new(dims: Rect<u16>) -> BoxModel {
        BoxModel {
            dims: valid_dims(dims),
            outline_type: None,
            outline_color: Color::White,
            text: None,
            text_align: TextAlign { h: TextAlignH::Center, v: TextAlignV::Center },
            text_color: Color::White,
        }
    }

    /// An empty box without outline, white, its text centred.
    pub fn new(dims: Rect<u16>) -> (made: Self)
        ensures
            made@ == Self::spec_new(dims),
    {
        TextBox {
            dims: make_valid_dims(dims),
            outline_type: None,
            outline_color: Color::White,
            text: None,
            text_align: TextAlign::center(),
            text_color: Color::White,
        }
    }

    /// Moves the box and gives it another size.
    pub fn force_move_resize(&mut self, new_dims: Rect<u16>)
        ensures
            final(self)@ == (BoxModel { dims: valid_dims(new_dims), ..old(self)@ }),
    {
        self.dims = make_valid_dims(new_dims);
    }

    /// The room inside the outline.
    pub fn inner_size(&self) -> (inner: Rect<u16>)
        ensures
            inner == self@.dims.shrunk(Vec2 { x: 1, y: 1 }),
    {
        self.dims.shrink_centered(Vec2::splat(1))
    }

    /// The text, where the box has one.
    pub fn get_text(&self) -> (text: &Option<String>)
        ensures
            text_view(*text) == self@.text,
    {
        &self.text
    }

    /// Where the box stands and how large it is.
    pub fn dims(&self) -> (dims: Rect<u16>)
        ensures
            dims == self@.dims,
    {
        self.dims
    }

    /// The outline, where the box has one.
    pub fn outline_type(&self) -> (outline: Option<OutlineType>)
        ensures
            outline == self@.outline_type,
    {
        self.outline_type
    }

    /// The colour of the outline.
    pub fn outline_color(&self) -> (color: Color)
        ensures
            color == self@.outline_color,
    {
        self.outline_color
    }

    /// How the text is aligned.
    pub fn text_align(&self) -> (align: TextAlign)
        ensures
            align == self@.text_align,
    {
        self.text_align
    }

    /// The colour of the text.
    pub fn text_color(&self) -> (color: Color)
        ensures
            color == self@.text_color,
    {
        self.text_color
    }

    /// Gives the box a text.
    pub fn set_text(&mut self, text: String)
        ensures
            final(self)@ == (BoxModel { text: Some(text@), ..old(self)@ }),
    {
        self.text = Some(text);
    }

    /// Takes the text away.
    pub fn clear_text(&mut self)
        ensures
            final(self)@ == (BoxModel { text: None, ..old(self)@ }),
    {
        self.text = None;
    }

    /// Sets the colour of the text.
    pub fn set_text_color(&mut self, color: Color)
        ensures
            final(self)@ == (BoxModel { text_color: color, ..old(self)@ }),
    {
        self.text_color = color;
    }

    /// Gives the box an outline.
    pub fn set_outline(&mut self, outline: OutlineType)
        ensures
            final(self)@ == (BoxModel { outline_type: Some(outline), ..old(self)@ }),
    {
        self.outline_type = Some(outline);
    }

    /// Gives the box an outline if it has none.
    pub fn add_outline(&mut self, outline: OutlineType)
        ensures
            final(self)@ == (BoxModel {
                outline_type: if old(self)@.outline_type is None {
                    Some(outline)
                } else {
                    old(self)@.outline_type
                },
                ..old(self)@
            }),
    {
        if self.outline_type.is_none() {
            self.outline_type = Some(outline);
        }
    }

    /// Takes the outline away.
    pub fn clear_outline(&mut self)
        ensures
            final(self)@ == (BoxModel { outline_type: None, ..old(self)@ }),
    {
        self.outline_type = None;
    }

    /// Sets the colour of the outline.
    pub fn set_outline_color(&mut self, color: Color)
        ensures
            final(self)@ == (BoxModel { outline_color: color, ..old(self)@ }),
    {
        self.outline_color = color;
    }

    /// Sets the colour of the text and of the outline.
    pub fn set_color(&mut self, color: Color)
        ensures
            final(self)@ == (BoxModel { text_color: color, outline_color: color, ..old(self)@ }),
    {
        self.text_color = color;
        self.outline_color = color;
    }
}

/// One box of a row of boxes.
#[derive(Debug)]
pub struct MultiTextBoxItem {
    text: Option<String>,
    align: TextAlign,
    color: Color,
}

/// What one box of a row stands for.
pub struct ItemModel {
    pub text: Option<Seq<char>>,
    pub align: TextAlign,
    pub color: Color,
}

impl View for MultiTextBoxItem {
    type V = ItemModel;

    closed spec fn view(&self) -> ItemModel {
        ItemModel { text: text_view(self.text), align: self.align, color: self.color }
    }
}

/// What a row of boxes stands for.
pub struct RowModel {
    /// Where the top left corner of the outline stands.
    pub corner_pos: Vec2<u16>,
    /// The room inside each box.
    pub item_size: Vec2<u16>,
    pub outline_type: Option<MultiOutlineType>,
    pub outline_color: Color,
    pub items: Seq<ItemModel>,
}

impl RowModel {
    /// The row with another text in the box at `index`.
    pub open spec fn with_text(self, index: int, text: Option<Seq<char>>) -> RowModel {
        RowModel { items: self.items.update(index, ItemModel { text, ..self.items[index] }), ..self }
    }

    /// The row with another colour in the box at `index`.
    pub open spec fn with_color(self, index: int, color: Color) -> RowModel {
        RowModel { items: self.items.update(index, ItemModel { color, ..self.items[index] }), ..self }
    }

    /// The row with the given outline and texts, the texts in white.
    pub open spec fn showing(self, outline: MultiOutlineType, texts: Seq<Seq<char>>) -> RowModel {
        RowModel {
            outline_type: Some(outline),
            items: Seq::new(
                self.items.len(),
                |i: int| ItemModel { text: Some(texts[i]), color: Color::White, ..self.items[i] },
            ),
            ..self
        }
    }

    /// The row without outline and without texts.
    pub open spec fn hidden(self) -> RowModel {
        RowModel {
            outline_type: None,
            items: Seq::new(self.items.len(), |i: int| ItemModel { text: None, ..self.items[i] }),
            ..self
        }
    }
}

/// The room that a row of `items` boxes has inside each box, and where the
/// corner of its outline stands, when the row is to fill `dims`: the lines of
/// the outline taken off, the width shared evenly, no box less than 3 by 1,
/// the whole centred on `dims`.
pub open spec fn row_dims(dims: Rect<u16>, items: int) -> Rect<u16> {
    let without_x = if dims.size.x >= items + 1 {
        dims.size.x - (items + 1)
    } else {
        0
    };
    let without_y = if dims.size.y >= 2 {
        dims.size.y - 2
    } else {
        0
    };
    let box_x = if without_x / items >= 3 {
        without_x / items
    } else {
        3
    };
    let box_y = if without_y >= 1 {
        without_y
    } else {
        1
    };
    let spare_x = if dims.size.x >= box_x * items + items + 1 {
        dims.size.x - (box_x * items + items + 1)
    } else {
        0
    };
    let spare_y = if dims.size.y >= box_y + 2 {
        dims.size.y - (box_y + 2)
    } else {
        0
    };
    Rect {
        pos: Vec2 { x: (spare_x / 2 + dims.pos.x) as u16, y: (spare_y / 2 + dims.pos.y) as u16 },
        size: Vec2 { x: box_x as u16, y: box_y as u16 },
    }
}

/// A row of boxes that share their inner outlines.
#[derive(Debug)]
pub struct MultiTextBox<const ITEMS: usize> {
    corner_pos: Vec2<u16>,
    item_size: Vec2<u16>,
    outline_type: Option<MultiOutlineType>,
    outline_color: Color,
    items: Vec<MultiTextBoxItem>,
}

impl<const ITEMS: usize> View for MultiTextBox<ITEMS> {
    type V = RowModel;

    closed spec fn view(&self) -> RowModel {
        RowModel {
            corner_pos: self.corner_pos,
            item_size: self.item_size,
            outline_type: self.outline_type,
            outline_color: self.outline_color,
            items: Seq::new(self.items@.len(), |i: int| self.items@[i]@),
        }
    }
}

impl<const ITEMS: usize> MultiTextBox<ITEMS> {
    /// The row has as many boxes as its type says.
    pub open spec fn wf(&self) -> bool {
        self@.items.len() == ITEMS
    }

    /// A rectangle for which the layout of a row can be computed: it lies
    /// within the coordinates there are, and the least row fits them.
    pub open spec fn fits(dims: Rect<u16>) -> bool {
        &&& 0 < ITEMS
        &&& 4 * ITEMS + 1 <= u16::MAX
        &&& dims.pos.x + dims.size.x <= u16::MAX
        &&& dims.pos.y + dims.size.y <= u16::MAX
    }

    /// The room inside each box of a row that fills `dims`, and the corner
    /// of the row.
    pub fn inner_dims_from_size(dims: Rect<u16>) -> (inner: Rect<u16>)
        requires
            Self::fits(dims),
        ensures
            inner == row_dims(dims, ITEMS as int),
    {
        let items: u32 = ITEMS as u32;
        let width: u32 = dims.size.x as u32;
        let height: u32 = dims.size.y as u32;
        let without_x: u32 = if width >= items + 1 {
            width - (items + 1)
        } else {
            0
        };
        let without_y: u32 = if height >= 2 {
            height - 2
        } else {
            0
        };
        let box_x: u32 = if without_x / items >= 3 {
            without_x / items
        } else {
            3
        };
        let box_y: u32 = if without_y >= 1 {
            without_y
        } else {
            1
        };
        assert(box_x * items <= 65535 * 3) by (nonlinear_arith)
            requires
                box_x == without_x / items || box_x == 3,
                0 < items <= 16383,
                without_x <= 65535,
        ;
        let used_x: u32 = box_x * items + items + 1;
        let spare_x: u32 = if width >= used_x {
            width - used_x
        } else {
            0
        };
        let spare_y: u32 = if height >= box_y + 2 {
            height - (box_y + 2)
        } else {
            0
        };
        Rect {
            pos: Vec2 {
                x: (spare_x / 2 + dims.pos.x as u32) as u16,
                y: (spare_y / 2 + dims.pos.y as u32) as u16,
            },
            size: Vec2 { x: box_x as u16, y: box_y as u16 },
        }
    }

    /// A row of empty boxes without outline, white, their texts centred.
    pub open spec fn spec_new(dims: Rect<u16>) -> RowModel {
        RowModel {
            corner_pos: row_dims(dims, ITEMS as int).pos,
            item_size: row_dims(dims, ITEMS as int).size,
            outline_type: None,
            outline_color: Color::White,
            items: Seq::new(
                ITEMS as nat,
                |i: int|
                    ItemModel {
                        text: None,
                        align: TextAlign { h: TextAlignH::Center, v: TextAlignV::Center },
                        color: Color::White,
                    },
            ),
        }
    }

    /// A row of empty boxes without outline, white, their texts centred.
    pub fn new(dims: Rect<u16>) -> (row: Self)
        requires
            Self::fits(dims),
        ensures
            row.wf(),
            row@ == Self::spec_new(dims),
    {
        let inner = Self::inner_dims_from_size(dims);
        let mut items: Vec<MultiTextBoxItem> = Vec::new();
        while items.len() < ITEMS
            invariant
                items@.len() <= ITEMS,
                forall|i: int|
                    0 <= i < items@.len() ==> (#[trigger] items@[i])@ == (ItemModel {
                        text: None,
                        align: TextAlign { h: TextAlignH::Center, v: TextAlignV::Center },
                        color: Color::White,
                    }),
            decreases ITEMS - items@.len(),
        {
            items.push(MultiTextBoxItem { text: None, align: TextAlign::center(), color: Color::White });
        }
        let row = MultiTextBox {
            corner_pos: inner.pos,
            item_size: inner.size,
            outline_type: None,
            outline_color: Color::White,
            items,
        };
        assert(row@.items =~= Self::spec_new(dims).items);
        row
    }

    /// Moves the row and gives it another size.
    pub fn force_move_resize(&mut self, new_dims: Rect<u16>)
        requires
            Self::fits(new_dims),
        ensures
            final(self)@ == (RowModel {
                corner_pos: row_dims(new_dims, ITEMS as int).pos,
                item_size: row_dims(new_dims, ITEMS as int).size,
                ..old(self)@
            }),
    {
        let inner = Self::inner_dims_from_size(new_dims);
        self.corner_pos = inner.pos;
        self.item_size = inner.size;
    }

    /// Takes the outline and every text away.
    pub fn hide_all(&mut self)
        ensures
            final(self)@ == old(self)@.hidden(),
    {
        self.outline_type = None;
        let mut i: usize = 0;
        while i < self.items.len()
            invariant
                i <= self.items@.len(),
                self.items@.len() == old(self).items@.len(),
                self.corner_pos == old(self).corner_pos,
                self.item_size == old(self).item_size,
                self.outline_color == old(self).outline_color,
                self.outline_type is None,
                forall|k: int|
                    0 <= k < i ==> (#[trigger] self.items@[k])@ == (ItemModel {
                        text: None,
                        ..old(self).items@[k]@
                    }),
                forall|k: int| i <= k < self.items@.len() ==> self.items@[k] == old(self).items@[k],
            decreases self.items@.len() - i,
        {
            let item = &self.items[i];
            let cleared = MultiTextBoxItem { text: None, align: item.align, color: item.color };
            self.items[i] = cleared;
            i = i + 1;
        }
        assert(final(self)@.items =~= old(self)@.hidden().items);
    }

    /// The text of the box at `index`.
    pub fn text(&self, index: usize) -> (text: Option<&String>)
        requires
            index < self@.items.len(),
        ensures
            match text {
                Some(text) => self@.items[index as int].text == Some(text@),
                None => self@.items[index as int].text is None,
            },
    {
        self.items[index].text.as_ref()
    }

    /// The colour of the box at `index`.
    pub fn color(&self, index: usize) -> (color: Color)
        requires
            index < self@.items.len(),
        ensures
            color == self@.items[index as int].color,
    {
        self.items[index].color
    }

    /// The alignment of the text in the box at `index`.
    pub fn align(&self, index: usize) -> (align: TextAlign)
        requires
            index < self@.items.len(),
        ensures
            align == self@.items[index as int].align,
    {
        self.items[index].align
    }

    /// The upper left corner of the row.
    pub fn corner_pos(&self) -> (pos: Vec2<u16>)
        ensures
            pos == self@.corner_pos,
    {
        self.corner_pos
    }

    /// The size of one box of the row, outline included.
    pub fn item_size(&self) -> (size: Vec2<u16>)
        ensures
            size == self@.item_size,
    {
        self.item_size
    }

    /// The outline, where the row has one.
    pub fn outline_type(&self) -> (outline: Option<MultiOutlineType>)
        ensures
            outline == self@.outline_type,
    {
        self.outline_type
    }

    /// The colour of the outline.
    pub fn outline_color(&self) -> (color: Color)
        ensures
            color == self@.outline_color,
    {
        self.outline_color
    }

    /// Gives the row an outline.
    pub fn set_outline(&mut self, outline: MultiOutlineType)
        ensures
            final(self)@ == (RowModel { outline_type: Some(outline), ..old(self)@ }),
    {
        self.outline_type = Some(outline);
    }

    /// Takes the outline away.
    pub fn clear_outline(&mut self)
        ensures
            final(self)@ == (RowModel { outline_type: None, ..old(self)@ }),
    {
        self.outline_type = None;
    }

    /// Puts a text into the box at `index`.
    pub fn set(&mut self, index: usize, text: String)
        requires
            index < old(self)@.items.len(),
        ensures
            final(self)@ == old(self)@.with_text(index as int, Some(text@)),
    {
        let item = &self.items[index];
        let changed = MultiTextBoxItem { text: Some(text), align: item.align, color: item.color };
        self.items[index] = changed;
        assert(final(self)@.items =~= old(self)@.with_text(index as int, Some(text@)).items);
    }

    /// Takes the text out of the box at `index`.
    pub fn clear(&mut self, index: usize)
        requires
            index < old(self)@.items.len(),
        ensures
            final(self)@ == old(self)@.with_text(index as int, None),
    {
        let item = &self.items[index];
        let changed = MultiTextBoxItem { text: None, align: item.align, color: item.color };
        self.items[index] = changed;
        assert(final(self)@.items =~= old(self)@.with_text(index as int, None).items);
    }

    /// Sets the colour of the text in the box at `index`.
    pub fn set_color(&mut self, index: usize, color: Color)
        requires
            index < old(self)@.items.len(),
        ensures
            final(self)@ == old(self)@.with_color(index as int, color),
    {
        let mut taken: Option<String> = None;
        core::mem::swap(&mut taken, &mut self.items[index].text);
        let changed = MultiTextBoxItem { text: taken, align: self.items[index].align, color };
        self.items[index] = changed;
        assert(final(self)@.items =~= old(self)@.with_color(index as int, color).items);
    }
}

/// The commands that draw one of the middle rows of the outline of a row
/// of boxes.
pub open spec fn multi_outline_row(
    corner_pos: Vec2<u16>,
    item_size: Vec2<u16>,
    item_count: u16,
    typ: MultiOutlineType,
    row: int,
) -> Seq<Op> {
    seq![
        Op::MoveTo(corner_pos.x, plus_or_max(corner_pos.y as int, row + 1) as u16),
        Op::PrintChar(typ.v),
        Op::MoveRight(item_size.x),
    ] + repeated(
        seq![Op::PrintChar(typ.inner_v), Op::MoveRight(item_size.x)],
        (if item_count >= 1 {
            item_count - 1
        } else {
            0
        }) as nat,
    ) + seq![Op::PrintChar(typ.v)]
}

/// The commands that draw the first `rows` middle rows.
pub open spec fn multi_outline_rows(
    corner_pos: Vec2<u16>,
    item_size: Vec2<u16>,
    item_count: u16,
    typ: MultiOutlineType,
    rows: int,
) -> Seq<Op>
    decreases rows,
{
    if rows <= 0 {
        Seq::empty()
    } else {
        multi_outline_rows(corner_pos, item_size, item_count, typ, rows - 1) + multi_outline_row(
            corner_pos,
            item_size,
            item_count,
            typ,
            rows - 1,
        )
    }
}

/// The commands that draw the outline of a row of `item_count` boxes whose
/// insides have the size `item_size`: the top row with a joint above each
/// inner line, the middle rows with the inner lines, and the bottom row.
pub open spec fn multi_outline_ops(
    corner_pos: Vec2<u16>,
    item_size: Vec2<u16>,
    item_count: u16,
    color: Color,
    typ: MultiOutlineType,
) -> Seq<Op> {
    let joints = (if item_count >= 1 {
        item_count - 1
    } else {
        0
    }) as nat;
    seq![
        Op::MoveTo(corner_pos.x, corner_pos.y),
        Op::SetForegroundColor(color),
        Op::PrintChar(typ.tl),
        Op::PrintRepeat(Repeat(typ.h, item_size.x)),
    ] + repeated(seq![Op::PrintChar(typ.join_top), Op::PrintRepeat(Repeat(typ.h, item_size.x))], joints)
        + seq![Op::PrintChar(typ.tr)] + multi_outline_rows(
        corner_pos,
        item_size,
        item_count,
        typ,
        item_size.y as int,
    ) + seq![
        Op::MoveTo(corner_pos.x, plus_or_max(corner_pos.y as int, item_size.y + 1) as u16),
        Op::PrintChar(typ.bl),
        Op::PrintRepeat(Repeat(typ.h, item_size.x)),
    ] + repeated(seq![Op::PrintChar(typ.join_bot), Op::PrintRepeat(Repeat(typ.h, item_size.x))], joints)
        + seq![Op::PrintChar(typ.br)]
}

/// The commands that draw the outline of a row of boxes.
pub fn draw_multi_outline(
    corner_pos: Vec2<u16>,
    item_size: Vec2<u16>,
    item_count: u16,
    color: Color,
    typ: MultiOutlineType,
) -> (commands: Vec<Command>)
    ensures
        ops(commands@) == multi_outline_ops(corner_pos, item_size, item_count, color, typ),
{
    let joints = item_count.saturating_sub(1);
    let mut commands: Vec<Command> = Vec::new();
    put(&mut commands, Command::MoveTo(corner_pos.x, corner_pos.y));
    put(&mut commands, Command::SetForegroundColor(color));
    put(&mut commands, Command::PrintChar(typ.tl));
    put(&mut commands, Command::PrintRepeat(Repeat(typ.h, item_size.x)));
    put_runs(&mut commands, joints, typ.join_top, Repeat(typ.h, item_size.x));
    put(&mut commands, Command::PrintChar(typ.tr));
    let ghost head = ops(commands@);
    let mut row: u16 = 0;
    while row < item_size.y
        invariant
            row <= item_size.y,
            joints == (if item_count >= 1 {
                item_count - 1
            } else {
                0
            }),
            ops(commands@) == head + multi_outline_rows(corner_pos, item_size, item_count, typ, row as int),
        decreases item_size.y - row,
    {
        put(&mut commands, Command::MoveTo(corner_pos.x, corner_pos.y.saturating_add(row + 1)));
        put(&mut commands, Command::PrintChar(typ.v));
        put(&mut commands, Command::MoveRight(item_size.x));
        put_gaps(&mut commands, joints, typ.inner_v, item_size.x);
        put(&mut commands, Command::PrintChar(typ.v));
        row = row + 1;
    }
    let bottom: u32 = corner_pos.y as u32 + item_size.y as u32 + 1;
    let bottom: u16 = if bottom > 0xffff {
        0xffff
    } else {
        bottom as u16
    };
    put(&mut commands, Command::MoveTo(corner_pos.x, bottom));
    put(&mut commands, Command::PrintChar(typ.bl));
    put(&mut commands, Command::PrintRepeat(Repeat(typ.h, item_size.x)));
    put_runs(&mut commands, joints, typ.join_bot, Repeat(typ.h, item_size.x));
    put(&mut commands, Command::PrintChar(typ.br));
    commands
}

/// Sets `dst` to `new` and tells whether the two compare equal.
pub fn set_and_compare<T: PartialEq>(dst: &mut T, new: T) -> (same: bool)
    ensures
        T::obeys_eq_spec() ==> same == (*old(dst)).eq_spec(&new),
        *final(dst) == new,
{
    let flag = *dst == new;
    *dst = new;
    flag
}

/// A copy of a text that may be missing.
pub fn copy_text(text: &Option<String>) -> (copy: Option<String>)
    ensures
        text_view(copy) == text_view(*text),
{
    match text {
        Some(text) => Some(text.clone()),
        None => None,
    }
}

impl Clone for TextBox {
    fn clone(&self) -> (copy: TextBox)
        ensures
            copy@ == self@,
    {
        TextBox {
            dims: self.dims,
            outline_type: self.outline_type,
            outline_color: self.outline_color,
            text: copy_text(&self.text),
            text_align: self.text_align,
            text_color: self.text_color,
        }
    }
}

impl Clone for MultiTextBoxItem {
    fn clone(&self) -> (copy: MultiTextBoxItem)
        ensures
            copy@ == self@,
    {
        MultiTextBoxItem { text: copy_text(&self.text), align: self.align, color: self.color }
    }
}

impl<const ITEMS: usize> Clone for MultiTextBox<ITEMS> {
    fn clone(&self) -> (copy: MultiTextBox<ITEMS>)
        ensures
            copy@ == self@,
    {
        let mut items: Vec<MultiTextBoxItem> = Vec::new();
        let mut i: usize = 0;
        while i < self.items.len()
            invariant
                i <= self.items@.len(),
                items@.len() == i,
                forall|k: int| 0 <= k < i ==> (#[trigger] items@[k])@ == self.items@[k]@,
            decreases self.items@.len() - i,
        {
            items.push(self.items[i].clone());
            i = i + 1;
        }
        let copy = MultiTextBox {
            corner_pos: self.corner_pos,
            item_size: self.item_size,
            outline_type: self.outline_type,
            outline_color: self.outline_color,
            items,
        };
        assert(copy@.items =~= self@.items);
        copy
    }
}

/// Whether two texts that may be missing are the same.
pub fn same_text(a: &Option<String>, b: &Option<String>) -> (same: bool)
    ensures
        same == (text_view(*a) == text_view(*b)),
{
    match (a, b) {
        (Some(a), Some(b)) => *a == *b,
        (None, None) => true,
        _ => false,
    }
}

impl BoxModel {
    /// The room inside the outline.
    pub open spec fn inner(self) -> Rect<u16> {
        self.dims.shrunk(Vec2 { x: 1, y: 1 })
    }

    /// The box is large enough for an outline and a text.
    pub open spec fn wf(self) -> bool {
        self.dims.size.x >= 5 && self.dims.size.y >= 3
    }

    /// The commands that draw the box from nothing.
    pub open spec fn drawn(self) -> Seq<Op> {
        (match self.outline_type {
            Some(outline) => outline_ops(self.dims, self.outline_color, outline),
            None => Seq::empty(),
        }) + (match self.text {
            Some(text) => text_ops(self.inner(), self.text_color, text, self.text_align),
            None => Seq::empty(),
        })
    }

    /// The commands that wipe the box off the screen.
    pub open spec fn wiped(self) -> Seq<Op> {
        (match self.text {
            Some(text) => overwrite_ops(
                self.inner(),
                self.text_color,
                text,
                self.text_align,
                Seq::empty(),
                TextAlign { h: TextAlignH::Left, v: TextAlignV::Top },
                true,
            ),
            None => Seq::empty(),
        }) + (match self.outline_type {
            Some(outline) => outline_ops(
                self.dims,
                self.outline_color,
                OutlineType { tl: ' ', tr: ' ', bl: ' ', br: ' ', h: ' ', v: ' ' },
            ),
            None => Seq::empty(),
        })
    }

    /// The commands that make of a screen that shows `shown` one that shows
    /// this box, which stands where `shown` does: the outline is drawn if it
    /// or its colour has changed, and the text is written if it or its colour
    /// has changed.
    pub open spec fn updated(self, shown: BoxModel) -> Seq<Op> {
        (if self.outline_type != shown.outline_type || self.outline_color != shown.outline_color {
            outline_ops(
                self.dims,
                self.outline_color,
                match self.outline_type {
                    Some(outline) => outline,
                    None => OutlineType { tl: ' ', tr: ' ', bl: ' ', br: ' ', h: ' ', v: ' ' },
                },
            )
        } else {
            Seq::empty()
        }) + (if self.text != shown.text || self.text_color != shown.text_color {
            match (shown.text, self.text) {
                (None, None) => Seq::empty(),
                (None, Some(new)) => text_ops(self.inner(), self.text_color, new, self.text_align),
                (Some(old), None) => overwrite_ops(
                    self.inner(),
                    self.text_color,
                    old,
                    shown.text_align,
                    Seq::empty(),
                    TextAlign { h: TextAlignH::Left, v: TextAlignV::Top },
                    self.text_color != shown.text_color,
                ),
                (Some(old), Some(new)) => overwrite_ops(
                    self.inner(),
                    self.text_color,
                    old,
                    shown.text_align,
                    new,
                    self.text_align,
                    self.text_color != shown.text_color,
                ),
            }
        } else {
            Seq::empty()
        })
    }
}

impl TextBox {
    /// The box is large enough for an outline and a text.
    pub open spec fn wf(&self) -> bool {
        self@.wf()
    }

    /// The commands that draw the box from nothing.
    pub fn draw(&self) -> (commands: Vec<Command>)
        requires
            self.wf(),
        ensures
            ops(commands@) == self@.drawn(),
    {
        let mut commands: Vec<Command> = Vec::new();
        if let Some(outline_type) = self.outline_type {
            put_all(&mut commands, draw_outline(self.dims, self.outline_color, outline_type));
        }
        if let Some(text) = &self.text {
            put_all(
                &mut commands,
                draw_text(self.inner_size(), self.text_color, text.as_str(), self.text_align),
            );
        }
        commands
    }

    /// The commands that wipe the box off the screen.
    pub fn wipe(&self) -> (commands: Vec<Command>)
        requires
            self.wf(),
        ensures
            ops(commands@) == self@.wiped(),
    {
        let mut commands: Vec<Command> = Vec::new();
        if let Some(old_text) = &self.text {
            proof {
                reveal_strlit("");
            }
            put_all(
                &mut commands,
                overwrite_text(
                    self.inner_size(),
                    self.text_color,
                    old_text.as_str(),
                    self.text_align,
                    "",
                    TextAlign::top_left(),
                    true,
                ),
            );
        }
        if self.outline_type.is_some() {
            put_all(&mut commands, draw_outline(self.dims, self.outline_color, OutlineType::erase()));
        }
        commands
    }

    /// The commands that make of a screen that shows `shown` one that shows
    /// this box.
    pub fn update(&self, shown: &TextBox) -> (commands: Vec<Command>)
        requires
            self.wf(),
        ensures
            ops(commands@) == self@.updated(shown@),
    {
        let mut commands: Vec<Command> = Vec::new();
        if self.outline_type != shown.outline_type || self.outline_color != shown.outline_color {
            let outline = match self.outline_type {
                Some(outline) => outline,
                None => OutlineType::erase(),
            };
            put_all(&mut commands, draw_outline(self.dims, self.outline_color, outline));
        }
        let color_changed = self.text_color != shown.text_color;
        if !same_text(&self.text, &shown.text) || color_changed {
            proof {
                reveal_strlit("");
            }
            match (&shown.text, &self.text) {
                (None, None) => {},
                (None, Some(new_text)) => {
                    put_all(
                        &mut commands,
                        draw_text(self.inner_size(), self.text_color, new_text.as_str(), self.text_align),
                    );
                },
                (Some(old_text), None) => {
                    put_all(
                        &mut commands,
                        overwrite_text(
                            self.inner_size(),
                            self.text_color,
                            old_text.as_str(),
                            shown.text_align,
                            "",
                            TextAlign::top_left(),
                            color_changed,
                        ),
                    );
                },
                (Some(old_text), Some(new_text)) => {
                    put_all(
                        &mut commands,
                        overwrite_text(
                            self.inner_size(),
                            self.text_color,
                            old_text.as_str(),
                            shown.text_align,
                            new_text.as_str(),
                            self.text_align,
                            color_changed,
                        ),
                    );
                },
            }
        }
        commands
    }
}

/// What has changed in one box of a row since it was last shown.
#[derive(Debug)]
pub struct MultiTextBoxItemChanges {
    /// The text that is to be shown, if it is another than before; it may
    /// be none.
    pub new_text: Option<Option<String>>,
    pub text_color_changed: bool,
    pub new_align: TextAlign,
    /// Whether the box is to be drawn again.
    pub redraw: bool,
}

/// What the changes of one box stand for.
pub struct ItemChanges {
    pub new_text: Option<Option<Seq<char>>>,
    pub text_color_changed: bool,
    pub new_align: TextAlign,
    pub redraw: bool,
}

impl View for MultiTextBoxItemChanges {
    type V = ItemChanges;

    open spec fn view(&self) -> ItemChanges {
        ItemChanges {
            new_text: match self.new_text {
                Some(text) => Some(text_view(text)),
                None => None,
            },
            text_color_changed: self.text_color_changed,
            new_align: self.new_align,
            redraw: self.redraw,
        }
    }
}

impl RowModel {
    /// What has changed in the box at `index` since the row was shown as
    /// `shown`.
    pub open spec fn item_changes(self, shown: RowModel, index: int) -> ItemChanges {
        let now = self.items[index];
        let was = shown.items[index];
        ItemChanges {
            new_text: if now.text != was.text {
                Some(now.text)
            } else {
                None
            },
            text_color_changed: now.color != was.color,
            new_align: now.align,
            redraw: now.text != was.text || now.color != was.color,
        }
    }

    /// Where the inside of the box at `index` stands.
    pub open spec fn item_dims(self, index: int) -> Rect<u16> {
        Rect {
            pos: Vec2 {
                x: capped(self.corner_pos.x + 1 + (self.item_size.x + 1) * index),
                y: capped(self.corner_pos.y + 1),
            },
            size: self.item_size,
        }
    }

    /// The commands that make of a screen that shows the box at `index` of
    /// `shown` one that shows the box at `index` of this row: the text is
    /// written if it or its colour has changed.
    pub open spec fn updated_item(self, shown: RowModel, index: int) -> Seq<Op> {
        let now = self.items[index];
        let was = shown.items[index];
        if now.text != was.text || now.color != was.color {
            match (was.text, now.text) {
                (None, None) => Seq::empty(),
                (None, Some(new)) => text_ops(self.item_dims(index), now.color, new, now.align),
                (Some(old), None) => overwrite_ops(
                    self.item_dims(index),
                    now.color,
                    old,
                    was.align,
                    Seq::empty(),
                    TextAlign { h: TextAlignH::Left, v: TextAlignV::Top },
                    now.color != was.color,
                ),
                (Some(old), Some(new)) => overwrite_ops(
                    self.item_dims(index),
                    now.color,
                    old,
                    was.align,
                    new,
                    now.align,
                    now.color != was.color,
                ),
            }
        } else {
            Seq::empty()
        }
    }

    /// The commands that update the first `count` boxes.
    pub open spec fn updated_items(self, shown: RowModel, count: int) -> Seq<Op>
        decreases count,
    {
        if count <= 0 {
            Seq::empty()
        } else {
            self.updated_items(shown, count - 1) + self.updated_item(shown, count - 1)
        }
    }

    /// The commands that make of a screen that shows `shown` one that shows
    /// this row, which stands where `shown` does: the outline is drawn if it
    /// or its colour has changed, then each box is updated.
    pub open spec fn updated(self, shown: RowModel) -> Seq<Op> {
        (if self.outline_type != shown.outline_type || self.outline_color != shown.outline_color {
            multi_outline_ops(
                self.corner_pos,
                self.item_size,
                capped(self.items.len() as int),
                self.outline_color,
                match self.outline_type {
                    Some(outline) => outline,
                    None => MultiOutlineType {
                        tl: ' ',
                        tr: ' ',
                        bl: ' ',
                        br: ' ',
                        h: ' ',
                        v: ' ',
                        join_top: ' ',
                        join_bot: ' ',
                        inner_v: ' ',
                    },
                },
            )
        } else {
            Seq::empty()
        }) + self.updated_items(shown, self.items.len() as int)
    }

    /// The commands that write the text of the box at `index`.
    pub open spec fn drawn_item(self, index: int) -> Seq<Op> {
        match self.items[index].text {
            Some(text) => text_ops(
                self.item_dims(index),
                self.items[index].color,
                text,
                self.items[index].align,
            ),
            None => Seq::empty(),
        }
    }

    /// The commands that write the texts of the first `count` boxes.
    pub open spec fn drawn_items(self, count: int) -> Seq<Op>
        decreases count,
    {
        if count <= 0 {
            Seq::empty()
        } else {
            self.drawn_items(count - 1) + self.drawn_item(count - 1)
        }
    }

    /// The commands that draw the row from nothing.
    pub open spec fn drawn(self) -> Seq<Op> {
        (match self.outline_type {
            Some(outline) => multi_outline_ops(
                self.corner_pos,
                self.item_size,
                capped(self.items.len() as int),
                self.outline_color,
                outline,
            ),
            None => Seq::empty(),
        }) + self.drawn_items(self.items.len() as int)
    }
}

impl<const ITEMS: usize> MultiTextBox<ITEMS> {
    /// Where the inside of the box at `index` stands.
    pub fn item_dims(&self, index: usize) -> (dims: Rect<u16>)
        ensures
            dims == self@.item_dims(index as int),
    {
        let step: u128 = self.item_size.x as u128 + 1;
        let index: u128 = index as u128;
        assert(step * index <= 0x1_0000 * 0xffff_ffff_ffff_ffff) by (nonlinear_arith)
            requires
                0 <= step <= 0x1_0000,
                0 <= index <= 0xffff_ffff_ffff_ffff,
        ;
        let x: u128 = self.corner_pos.x as u128 + 1 + step * index;
        let y: u32 = self.corner_pos.y as u32 + 1;
        Rect {
            pos: Vec2 {
                x: if x > 0xffff {
                    0xffff
                } else {
                    x as u16
                },
                y: if y > 0xffff {
                    0xffff
                } else {
                    y as u16
                },
            },
            size: self.item_size,
        }
    }

    /// What has changed in the box at `index` since the row was shown as
    /// `shown`.
    pub fn item_changes(&self, shown: &MultiTextBox<ITEMS>, index: usize) -> (changes: MultiTextBoxItemChanges)
        requires
            self.wf(),
            shown.wf(),
            index < ITEMS,
        ensures
            changes@ == self@.item_changes(shown@, index as int),
    {
        let now = &self.items[index];
        let was = &shown.items[index];
        let text_changed = !same_text(&now.text, &was.text);
        let text_color_changed = now.color != was.color;
        MultiTextBoxItemChanges {
            new_text: if text_changed {
                Some(copy_text(&now.text))
            } else {
                None
            },
            text_color_changed,
            new_align: now.align,
            redraw: text_changed || text_color_changed,
        }
    }

    /// The row can be drawn: it is whole, and its boxes are wide enough for
    /// a text.
    pub open spec fn drawable(&self) -> bool {
        self.wf() && self@.item_size.x >= 2
    }

    /// The commands that make of a screen that shows the box at `index` of
    /// `shown` one that shows the box at `index` of this row.
    fn update_item(&self, shown: &MultiTextBox<ITEMS>, index: usize) -> (commands: Vec<Command>)
        requires
            self.drawable(),
            shown.wf(),
            index < ITEMS,
        ensures
            ops(commands@) == self@.updated_item(shown@, index as int),
    {
        let now = &self.items[index];
        let was = &shown.items[index];
        let dims = self.item_dims(index);
        let changes = self.item_changes(shown, index);
        let color_changed = changes.text_color_changed;
        let mut commands: Vec<Command> = Vec::new();
        if changes.redraw {
            proof {
                reveal_strlit("");
            }
            match (&was.text, &now.text) {
                (None, None) => {},
                (None, Some(new_text)) => {
                    put_all(&mut commands, draw_text(dims, now.color, new_text.as_str(), now.align));
                },
                (Some(old_text), None) => {
                    put_all(
                        &mut commands,
                        overwrite_text(
                            dims,
                            now.color,
                            old_text.as_str(),
                            was.align,
                            "",
                            TextAlign::top_left(),
                            color_changed,
                        ),
                    );
                },
                (Some(old_text), Some(new_text)) => {
                    put_all(
                        &mut commands,
                        overwrite_text(
                            dims,
                            now.color,
                            old_text.as_str(),
                            was.align,
                            new_text.as_str(),
                            now.align,
                            color_changed,
                        ),
                    );
                },
            }
        }
        commands
    }

    /// The commands that make of a screen that shows `shown` one that shows
    /// this row.
    pub fn update(&self, shown: &MultiTextBox<ITEMS>) -> (commands: Vec<Command>)
        requires
            self.drawable(),
            shown.wf(),
        ensures
            ops(commands@) == self@.updated(shown@),
    {
        let mut commands: Vec<Command> = Vec::new();
        if self.outline_type != shown.outline_type || self.outline_color != shown.outline_color {
            let outline = match self.outline_type {
                Some(outline) => outline,
                None => MultiOutlineType::erase(),
            };
            put_all(
                &mut commands,
                draw_multi_outline(
                    self.corner_pos,
                    self.item_size,
                    crate::output::cap(self.items.len()),
                    self.outline_color,
                    outline,
                ),
            );
        }
        let ghost head = ops(commands@);
        let mut index: usize = 0;
        while index < ITEMS
            invariant
                index <= ITEMS,
                self.drawable(),
                shown.wf(),
                ops(commands@) == head + self@.updated_items(shown@, index as int),
            decreases ITEMS - index,
        {
            put_all(&mut commands, self.update_item(shown, index));
            index = index + 1;
        }
        commands
    }

    /// The commands that draw the row from nothing.
    pub fn draw(&self) -> (commands: Vec<Command>)
        requires
            self.drawable(),
        ensures
            ops(commands@) == self@.drawn(),
    {
        let mut commands: Vec<Command> = Vec::new();
        if let Some(outline_type) = self.outline_type {
            put_all(
                &mut commands,
                draw_multi_outline(
                    self.corner_pos,
                    self.item_size,
                    crate::output::cap(self.items.len()),
                    self.outline_color,
                    outline_type,
                ),
            );
        }
        let ghost head = ops(commands@);
        let mut index: usize = 0;
        while index < ITEMS
            invariant
                index <= ITEMS,
                self.drawable(),
                ops(commands@) == head + self@.drawn_items(index as int),
            decreases ITEMS - index,
        {
            let item = &self.items[index];
            if let Some(text) = &item.text {
                put_all(&mut commands, draw_text(self.item_dims(index), item.color, text.as_str(), item.align));
            }
            index = index + 1;
        }
        commands
    }
}

} // verus!
