//! Looking through a set as a grid of cards.

pub mod grid;

use crate::chars::{char_at, chars_of, parse_u16, parsed_u16, slice_text};
use crate::flashcards::{Flashcard, Side};
use crate::input::{Key, Move};
use crate::output::text_box::{copy_text, valid_dims, BoxModel, OutlineType, TextBox};
use crate::vec2::{Rect, Vec2};
use vstd::prelude::*;

verus! {

/// Where the card at place `i` of the grid stands in a terminal of size
/// `term_size` that `card_count` cards a row and a column share evenly, what
/// is left over split between the two margins.
pub open spec fn card_dims(term_size: Vec2<u16>, card_count: Vec2<u16>, i: int) -> Rect<u16> {
    let width = term_size.x / card_count.x;
    let height = term_size.y / card_count.y;
    Rect {
        pos: Vec2 {
            x: ((i % card_count.x as int) * width + (term_size.x - width * card_count.x) / 2) as u16,
            y: ((i / card_count.x as int) * height + (term_size.y - height * card_count.y) / 2) as u16,
        },
        size: Vec2 { x: width as u16, y: height as u16 },
    }
}

/// What a grid of cards that is looked through stands for.
pub struct ViewerModel {
    pub cards: Seq<Flashcard>,
    /// Which side of each card is up.
    pub sides: Seq<Side>,
    /// How many cards stand in a row and in a column.
    pub card_count: Vec2<u16>,
    /// How many rows of cards lie above the first row shown.
    pub scroll_dst: nat,
    /// The place of the selected card on the screen.
    pub selected_card: Vec2<u16>,
    /// The boxes on the screen, row by row.
    pub visible_cards: Seq<BoxModel>,
}

impl ViewerModel {
    /// How many boxes are on the screen.
    pub open spec fn area(self) -> int {
        self.card_count.x * self.card_count.y
    }

    /// Which card the box at place `i` shows when `scroll` rows lie above
    /// the screen.
    pub open spec fn card_at(self, i: int, scroll: nat) -> int {
        i + scroll * self.card_count.x
    }

    /// The place of the selected box.
    pub open spec fn selected_box(self) -> int {
        self.selected_card.y * self.card_count.x + self.selected_card.x
    }

    /// The card that is selected.
    pub open spec fn selected(self) -> int {
        self.card_at(self.selected_box(), self.scroll_dst)
    }

    /// The box at place `i` shows what it is to show when `scroll` rows lie
    /// above the screen: a display text of the side that is up of its card,
    /// in the colour of that side, in a heavy outline, or a double one where
    /// the card is selected; or nothing, where the cards have run out.
    pub open spec fn box_ok(self, i: int, scroll: nat) -> bool {
        let shown = self.visible_cards[i];
        let card = self.card_at(i, scroll);
        if card < self.cards.len() {
            &&& shown.text matches Some(text) && self.cards[card].on(self.sides[card])@.displayable.contains(text)
            &&& shown.text_color == self.sides[card].spec_color()
            &&& shown.outline_color == self.sides[card].spec_color()
            &&& shown.outline_type == Some(
                if i == self.selected_box() {
                    OutlineType::spec_double()
                } else {
                    OutlineType::spec_heavy()
                },
            )
        } else {
            shown.text is None && shown.outline_type is None
        }
    }

    /// The grid, the selection and the scrolling fit the cards.
    pub open spec fn fits(self) -> bool {
        &&& self.card_count.x > 0
        &&& self.card_count.y > 0
        &&& self.sides.len() == self.cards.len()
        &&& self.visible_cards.len() == self.area()
        &&& self.selected_card.x < self.card_count.x
        &&& self.selected_card.y < self.card_count.y
        &&& self.cards.len() > 0 ==> self.selected() < self.cards.len()
        &&& self.cards.len() == 0 ==> self.selected_card == (Vec2 { x: 0u16, y: 0u16 })
        &&& self.scroll_dst > 0 ==> (self.scroll_dst + self.card_count.y - 1) * self.card_count.x
            < self.cards.len()
        &&& forall|k: int| 0 <= k < self.cards.len() ==> (#[trigger] self.cards[k]).valid()
    }

    /// Every box shows what it is to show.
    pub open spec fn shows(self, scroll: nat) -> bool {
        forall|i: int| 0 <= i < self.visible_cards.len() ==> self.box_ok(i, scroll)
    }

    /// The boxes shown fit the grid, the selection and the cards.
    pub open spec fn wf(self) -> bool {
        self.fits() && self.shows(self.scroll_dst)
    }

    /// Where the selection stands and how many rows lie above the screen
    /// after a movement: the selection moves by one box if a card stands
    /// there, and where it would leave the screen upwards or downwards the
    /// screen scrolls by one row instead.
    pub open spec fn target(self, meant: Move) -> (Vec2<u16>, nat) {
        let at = self.selected_card;
        match meant {
            Move::Up => if at.y > 0 {
                (Vec2 { x: at.x, y: (at.y - 1) as u16 }, self.scroll_dst)
            } else if self.scroll_dst > 0 {
                (at, (self.scroll_dst - 1) as nat)
            } else {
                (at, self.scroll_dst)
            },
            Move::Down => if self.selected() + self.card_count.x < self.cards.len() {
                if at.y + 1 < self.card_count.y {
                    (Vec2 { x: at.x, y: (at.y + 1) as u16 }, self.scroll_dst)
                } else {
                    (at, self.scroll_dst + 1)
                }
            } else {
                (at, self.scroll_dst)
            },
            Move::Left => if at.x > 0 {
                (Vec2 { x: (at.x - 1) as u16, y: at.y }, self.scroll_dst)
            } else {
                (at, self.scroll_dst)
            },
            Move::Right => if at.x + 1 < self.card_count.x && self.selected() + 1 < self.cards.len() {
                (Vec2 { x: (at.x + 1) as u16, y: at.y }, self.scroll_dst)
            } else {
                (at, self.scroll_dst)
            },
            _ => (at, self.scroll_dst),
        }
    }

    /// The boxes stand where they stood.
    pub open spec fn keeps_places(self, after: ViewerModel) -> bool {
        forall|i: int|
            0 <= i < self.area() ==> (#[trigger] after.visible_cards[i]).dims == self.visible_cards[i].dims
    }

    /// `after` is what a movement makes of the grid: the cards are the same
    /// and stand where they stood, the selection and the scrolling are where
    /// the movement takes them, and every box shows what it is to show. A
    /// click turns the selected card over and leaves the other boxes as they
    /// are; any other movement leaves every card that stays on the screen
    /// with the text it was shown with.
    pub open spec fn steps(self, meant: Move, after: ViewerModel) -> bool {
        if meant == Move::Leave {
            after == self
        } else {
            &&& after.wf()
            &&& after.cards == self.cards
            &&& after.card_count == self.card_count
            &&& self.keeps_places(after)
            &&& (after.selected_card, after.scroll_dst) == self.target(meant)
            &&& if meant == Move::Click {
                &&& after.sides == self.sides.update(self.selected(), self.sides[self.selected()].flip())
                &&& forall|i: int|
                    0 <= i < self.area() && i != self.selected_box() ==> (#[trigger] after.visible_cards[i])
                        == self.visible_cards[i]
            } else {
                after.sides == self.sides && self.keeps_texts(after)
            }
        }
    }

    /// A card that stays on the screen keeps the text it is shown with.
    pub open spec fn keeps_texts(self, after: ViewerModel) -> bool {
        forall|i: int, j: int|
            0 <= i < self.area() && 0 <= j < self.area() && after.card_at(i, after.scroll_dst)
                == self.card_at(j, self.scroll_dst) && self.card_at(j, self.scroll_dst) < self.cards.len()
                ==> (#[trigger] after.visible_cards[i]).text == (#[trigger] self.visible_cards[j]).text
    }
}

/// A grid of cards that is looked through.
#[derive(Debug)]
pub struct Viewer<'a> {
    cards: &'a Vec<Flashcard>,
    sides: Vec<Side>,
    card_count: Vec2<u16>,
    scroll_dst: usize,
    selected_card: Vec2<u16>,
    visible_cards: Vec<TextBox>,
}

impl<'a> View for Viewer<'a> {
    type V = ViewerModel;

    closed spec fn view(&self) -> ViewerModel {
        ViewerModel {
            cards: self.cards@,
            sides: self.sides@,
            card_count: self.card_count,
            scroll_dst: self.scroll_dst as nat,
            selected_card: self.selected_card,
            visible_cards: Seq::new(self.visible_cards@.len(), |i: int| self.visible_cards@[i]@),
        }
    }
}

/// Where the card at place `i` of the grid stands.
pub fn dims_of(term_size: Vec2<u16>, card_count: Vec2<u16>, i: usize) -> (dims: Rect<u16>)
    requires
        card_count.x > 0,
        card_count.y > 0,
        i < card_count.x * card_count.y,
    ensures
        dims == card_dims(term_size, card_count, i as int),
{
    let width = term_size.x / card_count.x;
    let height = term_size.y / card_count.y;
    let across = i % card_count.x as usize;
    let down = i / card_count.x as usize;
    assert(down < card_count.y) by (nonlinear_arith)
        requires
            down == i / (card_count.x as usize),
            i < card_count.x * card_count.y,
            card_count.x > 0,
    ;
    let column = across as u16;
    let row = down as u16;
    assert(width * card_count.x <= term_size.x) by (nonlinear_arith)
        requires
            width == term_size.x / card_count.x,
            card_count.x > 0,
    ;
    assert(height * card_count.y <= term_size.y) by (nonlinear_arith)
        requires
            height == term_size.y / card_count.y,
            card_count.y > 0,
    ;
    assert(column * width + width <= width * card_count.x) by (nonlinear_arith)
        requires
            column < card_count.x,
    ;
    assert(row * height + height <= height * card_count.y) by (nonlinear_arith)
        requires
            row < card_count.y,
    ;
    Rect {
        pos: Vec2 {
            x: column * width + (term_size.x - width * card_count.x) / 2,
            y: row * height + (term_size.y - height * card_count.y) / 2,
        },
        size: Vec2 { x: width, y: height },
    }
}

impl<'a> Viewer<'a> {
    /// What the viewer stands for is well formed.
    pub open spec fn wf(&self) -> bool {
        self@.wf()
    }

    /// The place of the selected box.
    fn selected_box(&self) -> (place: usize)
        requires
            self@.fits(),
        ensures
            place == self@.selected_box(),
            place < self@.area(),
    {
        assert(self.selected_card.y * self.card_count.x + self.selected_card.x < self.card_count.x
            * self.card_count.y) by (nonlinear_arith)
            requires
                self.selected_card.x < self.card_count.x,
                self.selected_card.y < self.card_count.y,
        ;
        assert(self.card_count.x * self.card_count.y <= 0xffff * 0xffff) by (nonlinear_arith)
            requires
                self.card_count.x <= 0xffff,
                self.card_count.y <= 0xffff,
        ;
        self.selected_card.y as usize * self.card_count.x as usize + self.selected_card.x as usize
    }

    /// The card that the box at place `i` shows, if the cards reach that
    /// far.
    fn card_of(&self, i: usize, scroll: usize) -> (card: Option<usize>)
        requires
            self@.fits(),
            i < self@.area(),
        ensures
            match card {
                Some(card) => card == self@.card_at(i as int, scroll as nat) && card < self@.cards.len(),
                None => self@.card_at(i as int, scroll as nat) >= self@.cards.len(),
            },
    {
        assert(scroll * self.card_count.x <= 0xffff_ffff_ffff_ffff * 0xffff) by (nonlinear_arith)
            requires
                scroll <= 0xffff_ffff_ffff_ffff,
                self.card_count.x <= 0xffff,
        ;
        let card: u128 = i as u128 + scroll as u128 * self.card_count.x as u128;
        if card < self.cards.len() as u128 {
            Some(card as usize)
        } else {
            None
        }
    }

    /// Makes every box show what it is to show, the texts that stood on the
    /// screen when `old_scroll` rows lay above it staying with their cards.
    fn refill(&mut self, old_scroll: usize)
        requires
            old(self)@.fits(),
            old(self)@.shows(old_scroll as nat),
        ensures
            final(self)@.wf(),
            final(self)@.cards == old(self)@.cards,
            final(self)@.sides == old(self)@.sides,
            final(self)@.card_count == old(self)@.card_count,
            final(self)@.scroll_dst == old(self)@.scroll_dst,
            final(self)@.selected_card == old(self)@.selected_card,
            forall|i: int|
                0 <= i < old(self)@.area() ==> (#[trigger] final(self)@.visible_cards[i]).dims == old(
                    self,
                )@.visible_cards[i].dims,
            (ViewerModel { scroll_dst: old_scroll as nat, ..old(self)@ }).keeps_texts(final(self)@),
    {
        let area = self.visible_cards.len();
        let selected = self.selected_box();
        let width = self.card_count.x as usize;
        let mut filled: Vec<TextBox> = Vec::new();
        let mut i: usize = 0;
        while i < area
            invariant
                i <= area,
                area == self.visible_cards@.len(),
                area == self@.area(),
                self == old(self),
                self@.fits(),
                self@.shows(old_scroll as nat),
                selected == self@.selected_box(),
                width == self.card_count.x,
                filled@.len() == i,
                forall|k: int|
                    0 <= k < i ==> (ViewerModel {
                        visible_cards: Seq::new(area as nat, |n: int| (#[trigger] filled@[k])@),
                        ..self@
                    }).box_ok(k, self@.scroll_dst),
                forall|k: int| 0 <= k < i ==> (#[trigger] filled@[k])@.dims == self.visible_cards@[k]@.dims,
                forall|k: int, j: int|
                    0 <= k < i && 0 <= j < area && self@.card_at(k, self@.scroll_dst) == self@.card_at(
                        j,
                        old_scroll as nat,
                    ) && self@.card_at(j, old_scroll as nat) < self@.cards.len() ==> (
                    #[trigger] filled@[k])@.text == (#[trigger] self.visible_cards@[j])@.text,
            decreases area - i,
        {
            let was = &self.visible_cards[i];
            let mut shown = was.clone();
            shown.clear_text();
            shown.clear_outline();
            match self.card_of(i, self.scroll_dst) {
                Some(card) => {
                    let side = self.sides[card];
                    assert(old_scroll * width <= 0xffff_ffff_ffff_ffff * 0xffff) by (nonlinear_arith)
                        requires
                            old_scroll <= 0xffff_ffff_ffff_ffff,
                            width <= 0xffff,
                    ;
                    let above: u128 = old_scroll as u128 * width as u128;
                    let kept: Option<usize> = if card as u128 >= above && card as u128 - above < area as u128 {
                        Some((card as u128 - above) as usize)
                    } else {
                        None
                    };
                    match kept {
                        Some(from) => {
                            proof {
                                assert(self@.box_ok(from as int, old_scroll as nat));
                            }
                            match copy_text(self.visible_cards[from].get_text()) {
                                Some(text) => shown.set_text(text),
                                None => {},
                            }
                        },
                        None => {
                            shown.set_text(self.cards[card][side].display().to_owned());
                        },
                    }
                    shown.set_color(side.color());
                    shown.set_outline(
                        if i == selected {
                            OutlineType::double()
                        } else {
                            OutlineType::heavy()
                        },
                    );
                },
                None => {},
            }
            filled.push(shown);
            i = i + 1;
        }
        self.visible_cards = filled;
    }

    /// Moves the selection to another box, which shows a card.
    fn select(&mut self, to: Vec2<u16>)
        requires
            old(self)@.wf(),
            old(self)@.cards.len() > 0,
            to.x < old(self)@.card_count.x,
            to.y < old(self)@.card_count.y,
            (ViewerModel { selected_card: to, ..old(self)@ }).selected() < old(self)@.cards.len(),
        ensures
            final(self)@.wf(),
            final(self)@ == (ViewerModel {
                selected_card: to,
                visible_cards: final(self)@.visible_cards,
                ..old(self)@
            }),
            forall|i: int|
                0 <= i < old(self)@.area() ==> (#[trigger] final(self)@.visible_cards[i]).text == old(
                    self,
                )@.visible_cards[i].text && final(self)@.visible_cards[i].dims == old(
                    self,
                )@.visible_cards[i].dims,
    {
        let from = self.selected_box();
        self.visible_cards[from].set_outline(OutlineType::heavy());
        self.selected_card = to;
        let onto = self.selected_box();
        self.visible_cards[onto].set_outline(OutlineType::double());
        proof {
            assert forall|i: int| 0 <= i < self@.visible_cards.len() implies self@.box_ok(
                i,
                self@.scroll_dst,
            ) by {
                assert(old(self)@.box_ok(i, self@.scroll_dst));
            }
        }
    }

    /// Lays the cards out on a terminal of the given size, `card_count` in
    /// a row and in a column, the terms up, and selects the first.
    pub fn new(term_size: Vec2<u16>, card_count: Vec2<u16>, cards: &'a Vec<Flashcard>) -> (viewer: Self)
        requires
            card_count.x > 0,
            card_count.y > 0,
            forall|k: int| 0 <= k < cards.len() ==> (#[trigger] cards[k]).valid(),
        ensures
            viewer.wf(),
            viewer@.cards == cards@,
            viewer@.card_count == card_count,
            viewer@.scroll_dst == 0,
            viewer@.selected_card == (Vec2 { x: 0u16, y: 0u16 }),
            viewer@.sides == Seq::new(cards@.len(), |k: int| Side::Term),
            forall|i: int|
                0 <= i < viewer@.area() ==> (#[trigger] viewer@.visible_cards[i]).dims == valid_dims(
                    card_dims(term_size, card_count, i),
                ),
    {
        assert(card_count.x * card_count.y <= 0xffff * 0xffff) by (nonlinear_arith)
            requires
                card_count.x <= 0xffff,
                card_count.y <= 0xffff,
        ;
        let area = card_count.x as usize * card_count.y as usize;
        let mut sides: Vec<Side> = Vec::new();
        while sides.len() < cards.len()
            invariant
                sides@.len() <= cards@.len(),
                forall|k: int| 0 <= k < sides@.len() ==> sides@[k] == Side::Term,
            decreases cards@.len() - sides@.len(),
        {
            sides.push(Side::Term);
        }
        let mut visible_cards: Vec<TextBox> = Vec::new();
        let mut i: usize = 0;
        while i < area
            invariant
                i <= area,
                area == card_count.x * card_count.y,
                card_count.x > 0,
                card_count.y > 0,
                visible_cards@.len() == i,
                forall|k: int|
                    0 <= k < i ==> (#[trigger] visible_cards@[k])@ == TextBox::spec_new(
                        card_dims(term_size, card_count, k),
                    ),
            decreases area - i,
        {
            visible_cards.push(TextBox::new(dims_of(term_size, card_count, i)));
            i = i + 1;
        }
        let mut viewer = Viewer {
            cards,
            sides,
            card_count,
            scroll_dst: 0,
            selected_card: Vec2::zero(),
            visible_cards,
        };
        viewer.fill();
        viewer
    }

    /// Puts a card into every box that is to show one; the boxes are empty
    /// before.
    fn fill(&mut self)
        requires
            old(self)@.fits(),
            old(self)@.scroll_dst == 0,
            forall|i: int|
                0 <= i < old(self)@.area() ==> (#[trigger] old(self)@.visible_cards[i]).text is None && old(
                    self,
                )@.visible_cards[i].outline_type is None,
        ensures
            final(self)@.wf(),
            final(self)@.cards == old(self)@.cards,
            final(self)@.sides == old(self)@.sides,
            final(self)@.card_count == old(self)@.card_count,
            final(self)@.scroll_dst == old(self)@.scroll_dst,
            final(self)@.selected_card == old(self)@.selected_card,
            forall|i: int|
                0 <= i < old(self)@.area() ==> (#[trigger] final(self)@.visible_cards[i]).dims == old(
                    self,
                )@.visible_cards[i].dims,
    {
        assert(self.cards@.len() * self.card_count.x >= self.cards@.len()) by (nonlinear_arith)
            requires
                self.card_count.x >= 1,
                self.cards@.len() >= 0,
        ;
        let beyond = self.cards.len();
        self.refill(beyond);
    }

    /// Lays the cards out on a terminal of another size.
    pub fn resize(&mut self, term_size: Vec2<u16>)
        requires
            old(self).wf(),
        ensures
            final(self).wf(),
            final(self)@.cards == old(self)@.cards,
            final(self)@.sides == old(self)@.sides,
            final(self)@.card_count == old(self)@.card_count,
            final(self)@.scroll_dst == old(self)@.scroll_dst,
            final(self)@.selected_card == old(self)@.selected_card,
            forall|i: int|
                0 <= i < old(self)@.area() ==> (#[trigger] final(self)@.visible_cards[i]) == (BoxModel {
                    dims: valid_dims(card_dims(term_size, old(self)@.card_count, i)),
                    ..old(self)@.visible_cards[i]
                }),
    {
        let area = self.visible_cards.len();
        let mut i: usize = 0;
        while i < area
            invariant
                i <= area,
                area == self.visible_cards@.len(),
                area == old(self)@.area(),
                self.cards == old(self).cards,
                self.sides == old(self).sides,
                self.card_count == old(self).card_count,
                self.scroll_dst == old(self).scroll_dst,
                self.selected_card == old(self).selected_card,
                self.card_count.x > 0,
                self.card_count.y > 0,
                forall|k: int|
                    0 <= k < i ==> (#[trigger] self.visible_cards@[k])@ == (BoxModel {
                        dims: valid_dims(card_dims(term_size, self.card_count, k)),
                        ..old(self).visible_cards@[k]@
                    }),
                forall|k: int| i <= k < area ==> self.visible_cards@[k] == old(self).visible_cards@[k],
            decreases area - i,
        {
            let dims = dims_of(term_size, self.card_count, i);
            self.visible_cards[i].force_move_resize(dims);
            i = i + 1;
        }
        proof {
            assert forall|k: int| 0 <= k < self@.visible_cards.len() implies self@.box_ok(
                k,
                self@.scroll_dst,
            ) by {
                assert(old(self)@.box_ok(k, self@.scroll_dst));
            }
        }
    }

    /// Whether the card that stands `right` columns and `down` rows from the
    /// selected one is there.
    fn is_card(&self, right: u16, down: u16) -> (there: bool)
        requires
            self@.fits(),
            right <= 1,
            down <= 1,
        ensures
            there == (self@.selected() + down * self@.card_count.x + right < self@.cards.len()),
    {
        let place = self.selected_box();
        assert(self.scroll_dst * self.card_count.x <= 0xffff_ffff_ffff_ffff * 0xffff) by (nonlinear_arith)
            requires
                self.scroll_dst <= 0xffff_ffff_ffff_ffff,
                self.card_count.x <= 0xffff,
        ;
        assert(down * self.card_count.x <= 0xffff) by (nonlinear_arith)
            requires
                down <= 1,
                self.card_count.x <= 0xffff,
        ;
        let card: u128 = place as u128 + self.scroll_dst as u128 * self.card_count.x as u128 + down as u128
            * self.card_count.x as u128 + right as u128;
        card < self.cards.len() as u128
    }

    /// Moves the selection up, or scrolls up where the selection stands in
    /// the first row and rows lie above it.
    pub fn up(&mut self)
        requires
            old(self).wf(),
        ensures
            old(self)@.steps(Move::Up, final(self)@),
    {
        if self.selected_card.y > 0 {
            proof {
                assert((self.selected_card.y - 1) * self.card_count.x + self.selected_card.x
                    + self.scroll_dst * self.card_count.x <= self@.selected()) by (nonlinear_arith)
                    requires
                        self@.selected() == self.selected_card.y * self.card_count.x + self.selected_card.x
                            + self.scroll_dst * self.card_count.x,
                        self.card_count.x >= 0,
                ;
            }
            self.select(Vec2::new(self.selected_card.x, self.selected_card.y - 1));
        } else if self.scroll_dst > 0 {
            let old_scroll = self.scroll_dst;
            proof {
                assert((self.scroll_dst - 1 + self.card_count.y - 1) * self.card_count.x <= (self.scroll_dst
                    + self.card_count.y - 1) * self.card_count.x) by (nonlinear_arith)
                    requires
                        self.card_count.x >= 0,
                ;
                assert(self.selected_card.y * self.card_count.x + self.selected_card.x + (self.scroll_dst
                    - 1) * self.card_count.x <= self.selected_card.y * self.card_count.x
                    + self.selected_card.x + self.scroll_dst * self.card_count.x) by (nonlinear_arith)
                    requires
                        self.card_count.x >= 0,
                ;
            }
            self.scroll_dst = self.scroll_dst - 1;
            proof {
                assert forall|i: int| 0 <= i < self@.visible_cards.len() implies self@.box_ok(
                    i,
                    old_scroll as nat,
                ) by {
                    assert(old(self)@.box_ok(i, old_scroll as nat));
                }
            }
            self.refill(old_scroll);
        }
    }

    /// Moves the selection down, or scrolls down where the selection stands
    /// in the last row, if a card stands below the selected one.
    pub fn down(&mut self)
        requires
            old(self).wf(),
        ensures
            old(self)@.steps(Move::Down, final(self)@),
    {
        if self.is_card(0, 1) {
            if self.selected_card.y < self.card_count.y - 1 {
                proof {
                    assert((self.selected_card.y + 1) * self.card_count.x + self.selected_card.x
                        + self.scroll_dst * self.card_count.x == self@.selected() + self.card_count.x)
                        by (nonlinear_arith)
                        requires
                            self@.selected() == self.selected_card.y * self.card_count.x
                                + self.selected_card.x + self.scroll_dst * self.card_count.x,
                    ;
                }
                self.select(Vec2::new(self.selected_card.x, self.selected_card.y + 1));
            } else {
                let old_scroll = self.scroll_dst;
                proof {
                    assert(self.selected_card.y * self.card_count.x + self.selected_card.x + (self.scroll_dst
                        + 1) * self.card_count.x == self@.selected() + self.card_count.x) by (nonlinear_arith)
                        requires
                            self@.selected() == self.selected_card.y * self.card_count.x
                                + self.selected_card.x + self.scroll_dst * self.card_count.x,
                    ;
                    assert((self.scroll_dst + 1 + self.card_count.y - 1) * self.card_count.x
                        <= self@.selected() + self.card_count.x) by (nonlinear_arith)
                        requires
                            self@.selected() == self.selected_card.y * self.card_count.x
                                + self.selected_card.x + self.scroll_dst * self.card_count.x,
                            self.selected_card.y == self.card_count.y - 1,
                            self.selected_card.x >= 0,
                    ;
                }
                let count = self.cards.len();
                proof {
                    assert(self@.selected() + self.card_count.x < count);
                    assert(self.scroll_dst + 1 <= (self.scroll_dst + 1 + self.card_count.y - 1)
                        * self.card_count.x) by (nonlinear_arith)
                        requires
                            self.card_count.x >= 1,
                            self.card_count.y >= 1,
                            self.scroll_dst >= 0,
                    ;
                }
                self.scroll_dst = self.scroll_dst + 1;
                proof {
                    assert forall|i: int| 0 <= i < self@.visible_cards.len() implies self@.box_ok(
                        i,
                        old_scroll as nat,
                    ) by {
                        assert(old(self)@.box_ok(i, old_scroll as nat));
                    }
                }
                self.refill(old_scroll);
            }
        }
    }

    /// Moves the selection left, if it does not stand in the first column.
    pub fn left(&mut self)
        requires
            old(self).wf(),
        ensures
            old(self)@.steps(Move::Left, final(self)@),
    {
        if self.selected_card.x > 0 {
            self.select(Vec2::new(self.selected_card.x - 1, self.selected_card.y));
        }
    }

    /// Moves the selection right, if a card stands there.
    pub fn right(&mut self)
        requires
            old(self).wf(),
        ensures
            old(self)@.steps(Move::Right, final(self)@),
    {
        if self.selected_card.x < self.card_count.x - 1 && self.is_card(1, 0) {
            self.select(Vec2::new(self.selected_card.x + 1, self.selected_card.y));
        }
    }

    /// Turns the selected card over.
    pub fn click(&mut self)
        requires
            old(self).wf(),
            old(self)@.cards.len() > 0,
        ensures
            old(self)@.steps(Move::Click, final(self)@),
    {
        let place = self.selected_box();
        match self.card_of(place, self.scroll_dst) {
            Some(card) => {
                let side = core::ops::Not::not(self.sides[card]);
                self.sides[card] = side;
                let text = self.cards[card][side].display().to_owned();
                self.visible_cards[place].set_color(side.color());
                self.visible_cards[place].set_text(text);
                proof {
                    assert forall|i: int| 0 <= i < self@.visible_cards.len() implies self@.box_ok(
                        i,
                        self@.scroll_dst,
                    ) by {
                        assert(old(self)@.box_ok(i, self@.scroll_dst));
                    }
                }
            },
            None => {},
        }
    }

    /// Takes a key. Tells whether looking through the cards goes on.
    pub fn key_pressed(&mut self, key: Key) -> (goes_on: bool)
        requires
            old(self).wf(),
            old(self)@.cards.len() > 0,
        ensures
            old(self)@.steps(key.spec_movement(), final(self)@),
            goes_on == (key.spec_movement() != Move::Leave),
    {
        match key.movement() {
            Move::Up => {
                self.up();
                true
            },
            Move::Down => {
                self.down();
                true
            },
            Move::Left => {
                self.left();
                true
            },
            Move::Right => {
                self.right();
                true
            },
            Move::Click => {
                self.click();
                true
            },
            Move::Leave => false,
        }
    }

    /// How many boxes are on the screen.
    pub fn area(&self) -> (area: usize)
        ensures
            area == self@.visible_cards.len(),
    {
        self.visible_cards.len()
    }

    /// The box at place `i`.
    pub fn visible_card(&self, i: usize) -> (shown: &TextBox)
        requires
            i < self@.visible_cards.len(),
        ensures
            shown@ == self@.visible_cards[i as int],
    {
        &self.visible_cards[i]
    }

    /// How many boxes the grid has, by columns and rows.
    pub fn card_count(&self) -> (count: Vec2<u16>)
        ensures
            count == self@.card_count,
    {
        self.card_count
    }

    /// The box that is selected.
    pub fn selected_card(&self) -> (selected: Vec2<u16>)
        ensures
            selected == self@.selected_card,
    {
        self.selected_card
    }

    /// How many rows of cards are scrolled over.
    pub fn scroll_dst(&self) -> (rows: usize)
        ensures
            rows == self@.scroll_dst,
    {
        self.scroll_dst
    }

    /// Which side of a card is up.
    pub fn side(&self, card: usize) -> (side: Side)
        requires
            card < self@.sides.len(),
        ensures
            side == self@.sides[card as int],
    {
        self.sides[card]
    }
}

/// How many characters stand before the first `x` of `text`; the length of
/// the text where it has none.
pub open spec fn before_x(text: Seq<char>) -> nat
    decreases text.len(),
{
    if text.len() > 0 && text[0] != 'x' {
        1 + before_x(text.drop_first())
    } else {
        0
    }
}

/// What is said of a size that is no size.
pub open spec fn size_hint() -> Seq<char> {
    "expects inputs like \"1x1\""@
}

/// What is said of a size with a zero in it.
pub open spec fn size_too_small() -> Seq<char> {
    "Size must be at least 1x1"@
}

/// The size of `x` by `y`, if neither is zero.
pub open spec fn size_of(x: u16, y: u16) -> Result<Vec2<u16>, Seq<char>> {
    if x < 1 || y < 1 {
        Err(size_too_small())
    } else {
        Ok(Vec2 { x, y })
    }
}

/// The size that `text` names: two numbers with an `x` between them, the
/// first `x` of the text, neither of them zero.
pub open spec fn size_named(text: Seq<char>) -> Result<Vec2<u16>, Seq<char>> {
    let cut = before_x(text);
    if cut >= text.len() {
        Err(size_hint())
    } else {
        match parsed_u16(text.take(cut as int)) {
            Err(message) => Err(message),
            Ok(x) => match parsed_u16(text.skip(cut as int + 1)) {
                Err(message) => Err(message),
                Ok(y) => size_of(x, y),
            },
        }
    }
}

/// What a size or the message that says why there is none stands for.
pub open spec fn size_view(size: Result<Vec2<u16>, String>) -> Result<Vec2<u16>, Seq<char>> {
    match size {
        Ok(size) => Ok(size),
        Err(message) => Err(message@),
    }
}

/// The size of `x` by `y`, if neither is zero.
pub fn checked_size(x: u16, y: u16) -> (size: Result<Vec2<u16>, String>)
    ensures
        size_view(size) == size_of(x, y),
{
    if x < 1 || y < 1 {
        Err(String::from_str("Size must be at least 1x1"))
    } else {
        Ok(Vec2 { x, y })
    }
}

/// Reads a size such as `3x2`.
pub fn parse_size(s: &str) -> (size: Result<Vec2<u16>, String>)
    ensures
        size_view(size) == size_named(s@),
{
    let chars = chars_of(s);
    let mut cut: usize = 0;
    proof {
        assert(chars@.skip(0) =~= chars@);
    }
    while cut < chars.len() && char_at(&chars, cut) != 'x'
        invariant
            cut <= chars.len(),
            before_x(chars@) == cut + before_x(chars@.skip(cut as int)),
        decreases chars.len() - cut,
    {
        proof {
            assert(chars@.skip(cut as int).drop_first() =~= chars@.skip(cut + 1));
        }
        cut = cut + 1;
    }
    if cut >= chars.len() {
        return Err(String::from_str("expects inputs like \"1x1\""));
    }
    let left = slice_text(&chars, 0, cut);
    let right = slice_text(&chars, cut + 1, chars.len());
    match parse_u16(left.as_str()) {
        Err(message) => Err(message),
        Ok(x) => match parse_u16(right.as_str()) {
            Err(message) => Err(message),
            Ok(y) => checked_size(x, y),
        },
    }
}

} // verus!
