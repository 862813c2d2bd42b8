//! A grid of cards, one of which is selected.

use crate::flashcards::Side;
use crate::output::draw::{ops, put, put_all, Command, Op};
use crate::output::text_box::{valid_dims, BoxModel, OutlineType, TextBox};
use crate::output::{capped, TextAlign, TextAlignH, TextAlignV};
use crate::vec2::Rect;
use crate::vec2::Vec2;
use vstd::prelude::*;

verus! {

/// What a grid of cards stands for.
pub struct GridModel<'a> {
    /// How many cards stand in a row and in a column.
    pub card_count: Vec2<u16>,
    /// The size of one card on the screen.
    pub card_size: Vec2<u16>,
    /// Where the top left card stands.
    pub offset: Vec2<u16>,
    /// The place of the selected card in the grid.
    pub selected: Vec2<u16>,
    /// The cards that can be seen, row by row; a place may be empty.
    pub cards: Seq<Option<(&'a str, Side)>>,
}

/// A grid of cards on the screen.
#[derive(Debug)]
pub struct FlashcardGrid<'a> {
    card_count: Vec2<u16>,
    card_size: Vec2<u16>,
    offset: Vec2<u16>,
    selected: Vec2<u16>,
    cards: Vec<Option<(&'a str, Side)>>,
}

impl<'a> View for FlashcardGrid<'a> {
    type V = GridModel<'a>;

    closed spec fn view(&self) -> GridModel<'a> {
        GridModel {
            card_count: self.card_count,
            card_size: self.card_size,
            offset: self.offset,
            selected: self.selected,
            cards: self.cards@,
        }
    }
}

/// The size of a card and the place of the first when `card_count` cards a
/// row and a column share a terminal of size `term_size`: the terminal is
/// shared evenly and what is left over is split between the two margins; if
/// that leaves a card less than 5 by 3, the cards have that size and stand
/// in the corner.
pub open spec fn grid_layout(term_size: Vec2<u16>, card_count: Vec2<u16>) -> (Vec2<u16>, Vec2<u16>) {
    let width = term_size.x / card_count.x;
    let height = term_size.y / card_count.y;
    if width >= 5 && height >= 3 {
        (
            Vec2 { x: width as u16, y: height as u16 },
            Vec2 {
                x: ((term_size.x - card_count.x * width) / 2) as u16,
                y: ((term_size.y - card_count.y * height) / 2) as u16,
            },
        )
    } else {
        (Vec2 { x: 5, y: 3 }, Vec2 { x: 0, y: 0 })
    }
}

/// The first `area` of `cards`, and empty places up to `area`.
pub open spec fn filled<'a>(cards: Seq<(&'a str, Side)>, area: int) -> Seq<Option<(&'a str, Side)>> {
    Seq::new(
        area as nat,
        |i: int|
            if i < cards.len() {
                Some(cards[i])
            } else {
                None
            },
    )
}

impl<'a> FlashcardGrid<'a> {
    /// The grid has a place for each card it can show.
    pub open spec fn wf(&self) -> bool {
        &&& self@.cards.len() == self@.card_count.x * self@.card_count.y
        &&& self@.card_count.x > 0
        &&& self@.card_count.y > 0
    }

    /// A grid of empty places, the first of them selected.
    pub fn new(card_count: Vec2<u16>) -> (grid: Self)
        requires
            card_count.x > 0,
            card_count.y > 0,
            card_count.x * card_count.y <= u16::MAX,
        ensures
            grid.wf(),
            grid@ == (GridModel {
                card_count,
                card_size: Vec2 { x: 5, y: 3 },
                offset: Vec2 { x: 0, y: 0 },
                selected: Vec2 { x: 0, y: 0 },
                cards: Seq::new((card_count.x * card_count.y) as nat, |i: int| None),
            }),
    {
        let area = card_count.area() as usize;
        let mut cards: Vec<Option<(&'a str, Side)>> = Vec::new();
        while cards.len() < area
            invariant
                cards@.len() <= area,
                forall|i: int| 0 <= i < cards@.len() ==> cards@[i] is None,
            decreases area - cards@.len(),
        {
            cards.push(None);
        }
        let grid = FlashcardGrid {
            card_count,
            card_size: Vec2::new(5, 3),
            offset: Vec2::zero(),
            selected: Vec2::zero(),
            cards,
        };
        assert(grid@.cards =~= Seq::new((card_count.x * card_count.y) as nat, |i: int| None));
        grid
    }

    /// Shows the first cards of `cards`, as many as the grid has places, and
    /// leaves the other places empty.
    pub fn fill_from_cards(&mut self, cards: &[(&'a str, Side)]) -> (this: &mut Self)
        requires
            old(self).wf(),
        ensures
            this.wf(),
            this@ == (GridModel { cards: filled(cards@, old(self)@.cards.len() as int), ..old(self)@ }),
            *final(self) == *final(this),
    {
        let area = self.cards.len();
        let mut i: usize = 0;
        while i < area
            invariant
                i <= area,
                area == self.cards@.len(),
                self.cards@.len() == old(self).cards@.len(),
                self.card_count == old(self).card_count,
                self.card_size == old(self).card_size,
                self.offset == old(self).offset,
                self.selected == old(self).selected,
                forall|k: int| 0 <= k < i ==> self.cards@[k] == filled(cards@, area as int)[k],
            decreases area - i,
        {
            self.cards[i] = if i < cards.len() {
                Some(cards[i])
            } else {
                None
            };
            i = i + 1;
        }
        assert(self.cards@ =~= filled(cards@, area as int));
        self
    }

    /// Shows the first texts of `texts` as terms, as many as the grid has
    /// places, and leaves the other places as they are.
    pub fn fill_from_text(&mut self, texts: &[&'a str]) -> (this: &mut Self)
        requires
            old(self).wf(),
        ensures
            this.wf(),
            this@.card_count == old(self)@.card_count,
            this@.card_size == old(self)@.card_size,
            this@.offset == old(self)@.offset,
            this@.selected == old(self)@.selected,
            this@.cards.len() == old(self)@.cards.len(),
            forall|k: int|
                0 <= k < old(self)@.cards.len() ==> this@.cards[k] == if k < texts@.len() {
                    Some((texts@[k], Side::Term))
                } else {
                    old(self)@.cards[k]
                },
            *final(self) == *final(this),
    {
        let area = self.cards.len();
        let mut i: usize = 0;
        while i < area && i < texts.len()
            invariant
                i <= area,
                i <= texts@.len(),
                area == self.cards@.len(),
                self.cards@.len() == old(self).cards@.len(),
                self.card_count == old(self).card_count,
                self.card_size == old(self).card_size,
                self.offset == old(self).offset,
                self.selected == old(self).selected,
                forall|k: int| 0 <= k < i ==> self.cards@[k] == Some((texts@[k], Side::Term)),
                forall|k: int| i <= k < area ==> self.cards@[k] == old(self).cards@[k],
            decreases area - i,
        {
            self.cards[i] = Some((texts[i], Side::Term));
            i = i + 1;
        }
        self
    }

    /// Lays the grid out for a terminal of the given size.
    pub fn size_to(&mut self, term_size: Vec2<u16>) -> (this: &mut Self)
        requires
            old(self).wf(),
        ensures
            this.wf(),
            this@ == (GridModel {
                card_size: grid_layout(term_size, old(self)@.card_count).0,
                offset: grid_layout(term_size, old(self)@.card_count).1,
                ..old(self)@
            }),
            *final(self) == *final(this),
    {
        let width = term_size.x / self.card_count.x;
        let height = term_size.y / self.card_count.y;
        if width >= 5 && height >= 3 {
            assert(self.card_count.x * width <= term_size.x) by (nonlinear_arith)
                requires
                    width == term_size.x / self.card_count.x,
                    self.card_count.x > 0,
            ;
            assert(self.card_count.y * height <= term_size.y) by (nonlinear_arith)
                requires
                    height == term_size.y / self.card_count.y,
                    self.card_count.y > 0,
            ;
            self.card_size = Vec2::new(width, height);
            self.offset = Vec2::new(
                (term_size.x - self.card_count.x * width) / 2,
                (term_size.y - self.card_count.y * height) / 2,
            );
        } else {
            self.card_size = Vec2::new(5, 3);
            self.offset = Vec2::zero();
        }
        self
    }

    /// Where on the screen the card at grid position `pos` stands.
    pub fn print_at(&self, pos: Vec2<u16>) -> (at: Vec2<u16>)
        requires
            pos.x * self@.card_size.x + self@.offset.x <= u16::MAX,
            pos.y * self@.card_size.y + self@.offset.y <= u16::MAX,
        ensures
            at == (Vec2 {
                x: (pos.x * self@.card_size.x + self@.offset.x) as u16,
                y: (pos.y * self@.card_size.y + self@.offset.y) as u16,
            }),
    {
        Vec2::new(pos.x * self.card_size.x + self.offset.x, pos.y * self.card_size.y + self.offset.y)
    }

    /// How many cards stand in a row and in a column.
    pub fn card_count(&self) -> (count: Vec2<u16>)
        ensures
            count == self@.card_count,
    {
        self.card_count
    }

    /// The size of one card on the screen.
    pub fn card_size(&self) -> (size: Vec2<u16>)
        ensures
            size == self@.card_size,
    {
        self.card_size
    }

    /// Where the top left card stands.
    pub fn offset(&self) -> (offset: Vec2<u16>)
        ensures
            offset == self@.offset,
    {
        self.offset
    }

    /// The place of the selected card.
    pub fn selected(&self) -> (selected: Vec2<u16>)
        ensures
            selected == self@.selected,
    {
        self.selected
    }

    /// The place of the selected card, to be changed.
    pub fn selected_mut(&mut self) -> (selected: &mut Vec2<u16>)
        ensures
            *selected == old(self)@.selected,
            final(self)@ == (GridModel { selected: *final(selected), ..old(self)@ }),
    {
        &mut self.selected
    }

    /// Selects the card at `selected`.
    pub fn set_selected(&mut self, selected: Vec2<u16>)
        ensures
            final(self)@ == (GridModel { selected, ..old(self)@ }),
    {
        self.selected = selected;
    }

    /// The card at the place `index` of the grid, if one is shown there.
    pub fn card(&self, index: usize) -> (card: Option<(&'a str, Side)>)
        requires
            index < self@.cards.len(),
        ensures
            card == self@.cards[index as int],
    {
        self.cards[index]
    }

    /// Whether the outline of the card at `pos` is the one of the selected
    /// card.
    pub fn is_selected(&self, pos: Vec2<u16>) -> (selected: bool)
        ensures
            selected == (pos == self@.selected),
    {
        pos == self.selected
    }
}

impl<'a> GridModel<'a> {
    /// The box in which the card at place `index` is shown, if one is shown
    /// there: it stands in its column and row, has the size of a card, but
    /// that of a box at least, a double outline if it is selected and a heavy
    /// one if not, and shows the text of the card in its middle, all in the
    /// colour of the side that is up.
    pub open spec fn box_at(self, index: int) -> Option<BoxModel> {
        match self.cards[index] {
            Some((text, side)) => Some(
                BoxModel {
                    dims: valid_dims(
                        Rect {
                            pos: Vec2 {
                                x: capped((index % self.card_count.x as int) * self.card_size.x + self.offset.x),
                                y: capped((index / self.card_count.x as int) * self.card_size.y + self.offset.y),
                            },
                            size: self.card_size,
                        },
                    ),
                    outline_type: Some(
                        if index == self.selected.y * self.card_count.x + self.selected.x {
                            OutlineType::spec_double()
                        } else {
                            OutlineType::spec_heavy()
                        },
                    ),
                    outline_color: side.spec_color(),
                    text: Some(text@),
                    text_align: TextAlign { h: TextAlignH::Center, v: TextAlignV::Center },
                    text_color: side.spec_color(),
                },
            ),
            None => None,
        }
    }

    /// The commands that draw the first `count` cards.
    pub open spec fn printed_cards(self, count: int) -> Seq<Op>
        decreases count,
    {
        if count <= 0 {
            Seq::empty()
        } else {
            self.printed_cards(count - 1) + match self.box_at(count - 1) {
                Some(shown) => shown.drawn(),
                None => Seq::empty(),
            }
        }
    }

    /// The commands that draw the grid on a screen that is wiped first.
    pub open spec fn printed(self) -> Seq<Op> {
        seq![Op::ClearAll] + self.printed_cards(self.cards.len() as int)
    }

    /// The commands that make of a screen that shows the card at place
    /// `index` of `shown` one that shows the card at that place of this grid:
    /// a card that has come is drawn, one that has gone is wiped, and one
    /// that has changed is drawn as far as it has.
    pub open spec fn updated_card(self, shown: GridModel<'a>, index: int) -> Seq<Op> {
        match (shown.box_at(index), self.box_at(index)) {
            (Some(old), Some(new)) => new.updated(old),
            (Some(old), None) => old.wiped(),
            (None, Some(new)) => new.drawn(),
            (None, None) => Seq::empty(),
        }
    }

    /// The commands that update the first `count` cards.
    pub open spec fn updated_cards(self, shown: GridModel<'a>, count: int) -> Seq<Op>
        decreases count,
    {
        if count <= 0 {
            Seq::empty()
        } else {
            self.updated_cards(shown, count - 1) + self.updated_card(shown, count - 1)
        }
    }
}

impl<'a> FlashcardGrid<'a> {
    /// The box in which the card at place `index` is shown, if one is shown
    /// there.
    pub fn card_box(&self, index: usize) -> (shown: Option<TextBox>)
        requires
            self.wf(),
            index < self@.cards.len(),
        ensures
            match shown {
                Some(shown) => self@.box_at(index as int) == Some(shown@) && shown.wf(),
                None => self@.box_at(index as int) is None,
            },
    {
        match self.cards[index] {
            Some((text, side)) => {
                let width = self.card_count.x as usize;
                let column = index % width;
                let row = index / width;
                assert(column * self.card_size.x <= 0xffff * 0xffff) by (nonlinear_arith)
                    requires
                        column <= 0xffff,
                        self.card_size.x <= 0xffff,
                ;
                assert(row * self.card_size.y <= 0xffff_ffff_ffff_ffff * 0xffff) by (nonlinear_arith)
                    requires
                        row <= 0xffff_ffff_ffff_ffff,
                        self.card_size.y <= 0xffff,
                ;
                let x: u128 = column as u128 * self.card_size.x as u128 + self.offset.x as u128;
                let y: u128 = row as u128 * self.card_size.y as u128 + self.offset.y as u128;
                let pos = Vec2 {
                    x: if x > 0xffff {
                        0xffff
                    } else {
                        x as u16
                    },
                    y: if y > 0xffff {
                        0xffff
                    } else {
                        y as u16
                    },
                };
                assert(self.selected.y * self.card_count.x <= 0xffff * 0xffff) by (nonlinear_arith)
                    requires
                        self.selected.y <= 0xffff,
                        self.card_count.x <= 0xffff,
                ;
                let selected = index as u128 == self.selected.y as u128 * self.card_count.x as u128
                    + self.selected.x as u128;
                let mut shown = TextBox::new(Rect { pos, size: self.card_size });
                shown.set_color(side.color());
                shown.set_text(text.to_owned());
                match outline_type(selected) {
                    Some(outline) => shown.set_outline(outline),
                    None => {},
                }
                Some(shown)
            },
            None => None,
        }
    }

    /// The commands that draw the grid on a screen that is wiped first.
    pub fn print(&self) -> (commands: Vec<Command>)
        requires
            self.wf(),
        ensures
            ops(commands@) == self@.printed(),
    {
        let mut commands: Vec<Command> = Vec::new();
        put(&mut commands, Command::ClearAll);
        let ghost head = ops(commands@);
        let mut index: usize = 0;
        while index < self.cards.len()
            invariant
                index <= self@.cards.len(),
                self.wf(),
                ops(commands@) == head + self@.printed_cards(index as int),
            decreases self@.cards.len() - index,
        {
            match self.card_box(index) {
                Some(shown) => {
                    put_all(&mut commands, shown.draw());
                },
                None => {
                },
            }
            index = index + 1;
        }
        commands
    }

    /// The commands that make of a screen that shows `shown` one that shows
    /// this grid, which has as many places.
    pub fn update(&self, shown: &FlashcardGrid<'a>) -> (commands: Vec<Command>)
        requires
            self.wf(),
            shown.wf(),
            shown@.cards.len() == self@.cards.len(),
        ensures
            ops(commands@) == self@.updated_cards(shown@, self@.cards.len() as int),
    {
        let mut commands: Vec<Command> = Vec::new();
        let mut index: usize = 0;
        while index < self.cards.len()
            invariant
                index <= self@.cards.len(),
                self.wf(),
                shown.wf(),
                shown@.cards.len() == self@.cards.len(),
                ops(commands@) == self@.updated_cards(shown@, index as int),
            decreases self@.cards.len() - index,
        {
            match (shown.card_box(index), self.card_box(index)) {
                (Some(old_box), Some(new_box)) => {
                    put_all(&mut commands, new_box.update(&old_box));
                },
                (Some(old_box), None) => {
                    put_all(&mut commands, old_box.wipe());
                },
                (None, Some(new_box)) => {
                    put_all(&mut commands, new_box.draw());
                },
                (None, None) => {
                },
            }
            index = index + 1;
        }
        commands
    }
}

/// The outline of a card: double where it is selected, heavy where not.
pub fn outline_type(selected: bool) -> (outline: Option<OutlineType>)
    ensures
        outline == Some(
            if selected {
                OutlineType::spec_double()
            } else {
                OutlineType::spec_heavy()
            },
        ),
{
    Some(
        match selected {
            true => OutlineType::double(),
            false => OutlineType::heavy(),
        },
    )
}

/// A grid that is being changed. The contracts speak of the grid that is
/// held, as it is and as it is when the changes are done.
pub struct FlashcardGridUpdater<'a, 'b>(pub &'b mut FlashcardGrid<'a>);

impl<'a, 'b> FlashcardGridUpdater<'a, 'b> {
    /// Takes a grid to change it.
    pub fn new(grid: &'b mut FlashcardGrid<'a>) -> (updater: Self)
        ensures
            *updater.0 == *old(grid),
            *final(updater.0) == *final(grid),
    {
        FlashcardGridUpdater(grid)
    }

    /// How many boxes the grid has, by columns and rows.
    pub fn card_count(&self) -> (count: Vec2<u16>)
        ensures
            count == (*old(self.0))@.card_count,
    {
        self.0.card_count
    }

    /// The box that is selected.
    pub fn selected(&self) -> (selected: Vec2<u16>)
        ensures
            selected == (*old(self.0))@.selected,
    {
        self.0.selected
    }

    /// The selected box, to be changed.
    pub fn selected_mut(&mut self) -> (selected: &mut Vec2<u16>)
        ensures
            *selected == (*old(self).0)@.selected,
            (*final(self).0)@ == (GridModel { selected: *final(selected), ..(*old(self).0)@ }),
            *final(final(self).0) == *final(old(self).0),
    {
        &mut self.0.selected
    }

    /// Selects a box.
    pub fn set_selected(&mut self, selected: Vec2<u16>)
        ensures
            (*final(self).0)@ == (GridModel { selected, ..(*old(self).0)@ }),
            *final(final(self).0) == *final(old(self).0),
    {
        self.0.selected = selected;
    }

    /// Shows the first cards of `cards`, as many as the grid has places.
    pub fn fill_from_cards(&mut self, cards: &[(&'a str, Side)])
        requires
            (*old(self).0).wf(),
        ensures
            (*final(self).0).wf(),
            (*final(self).0)@ == (GridModel {
                cards: filled(cards@, (*old(self).0)@.cards.len() as int),
                ..(*old(self).0)@
            }),
            *final(final(self).0) == *final(old(self).0),
    {
        self.0.fill_from_cards(cards);
    }
}

} // verus!
