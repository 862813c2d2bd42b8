//! Pairs of coordinates and the rectangles built from them.

use crate::output::draw::{Command, Op};
use vstd::prelude::*;
use vstd::std_specs::convert::IntoSpec;
use vstd::std_specs::ops::{AddSpec, DivSpec, MulSpec, SubSpec};

verus! {

/// A pair of values of one type: a position, a size or a count per axis.
#[derive(Debug, Copy, Clone, PartialEq, Eq, Structural)]
pub struct Vec2<T: Copy> {
    pub x: T,
    pub y: T,
}

impl<T: Copy> Vec2<T> {
    /// The pair of `x` and `y`.
    pub fn new(x: T, y: T) -> (v: Self)
        ensures
            v == (Vec2 { x, y }),
    {
        Self { x, y }
    }

    /// The pair that holds `v` twice.
    pub fn splat(v: T) -> (both: Self)
        ensures
            both == (Vec2 { x: v, y: v }),
    {
        Self::new(v, v)
    }

    /// The pair with another first part.
    pub fn with_x(self, x: T) -> (v: Vec2<T>)
        ensures
            v == (Vec2 { x, y: self.y }),
    {
        Self { x, y: self.y }
    }

    /// The pair with another second part.
    pub fn with_y(self, y: T) -> (v: Vec2<T>)
        ensures
            v == (Vec2 { x: self.x, y }),
    {
        Self { x: self.x, y }
    }

    /// The two coordinates in a row.
    pub fn to_array(self) -> (pair: [T; 2])
        ensures
            pair@ == seq![self.x, self.y],
    {
        let pair = [self.x, self.y];
        pair
    }

    /// The pairs of the parts of two pairs.
    pub fn zip<U: Copy>(self, other: Vec2<U>) -> (pairs: Vec2<(T, U)>)
        ensures
            pairs == (Vec2 { x: (self.x, other.x), y: (self.y, other.y) }),
    {
        Vec2 { x: (self.x, other.x), y: (self.y, other.y) }
    }

    /// The pair of what `f` gives for each part.
    pub fn map<U: Copy, F: FnMut(T) -> U>(self, mut f: F) -> (v: Vec2<U>)
        requires
            f.requires((self.x,)),
            f.requires((self.y,)),
        ensures
            f.ensures((self.x,), v.x),
            f.ensures((self.y,), v.y),
    {
        Vec2 { x: f(self.x), y: f(self.y) }
    }

    /// The pair with `f` applied to its first part.
    pub fn map_x<F: FnOnce(T) -> T>(self, f: F) -> (v: Self)
        requires
            f.requires((self.x,)),
        ensures
            f.ensures((self.x,), v.x),
            v.y == self.y,
    {
        let mut this = self;
        this.x = f(self.x);
        this
    }

    /// The pair with `f` applied to its second part.
    pub fn map_y<F: FnOnce(T) -> T>(self, f: F) -> (v: Self)
        requires
            f.requires((self.y,)),
        ensures
            f.ensures((self.y,), v.y),
            v.x == self.x,
    {
        let mut this = self;
        this.y = f(self.y);
        this
    }

    /// The pair of what `f` gives for the parts of two pairs, part by part.
    pub fn join<U: Copy, O: Copy, F: FnMut(T, U) -> O>(self, other: Vec2<U>, mut f: F) -> (v: Vec2<O>)
        requires
            f.requires((self.x, other.x)),
            f.requires((self.y, other.y)),
        ensures
            f.ensures((self.x, other.x), v.x),
            f.ensures((self.y, other.y), v.y),
    {
        Vec2 { x: f(self.x, other.x), y: f(self.y, other.y) }
    }
}

impl<T: Copy> From<(T, T)> for Vec2<T> {
    fn from(pair: (T, T)) -> (v: Vec2<T>) {
        Vec2 { x: pair.0, y: pair.1 }
    }
}

impl<T: Copy> vstd::std_specs::convert::FromSpecImpl<(T, T)> for Vec2<T> {
    open spec fn obeys_from_spec() -> bool {
        true
    }

    open spec fn from_spec(pair: (T, T)) -> Vec2<T> {
        Vec2 { x: pair.0, y: pair.1 }
    }
}

impl<T: Copy + core::ops::Add<U, Output = O>, U: Copy, O: Copy> core::ops::Add<Vec2<U>> for Vec2<T> {
    type Output = Vec2<O>;

    fn add(self, rhs: Vec2<U>) -> (sum: Vec2<O>) {
        Vec2 { x: self.x + rhs.x, y: self.y + rhs.y }
    }
}

impl<T: Copy + core::ops::Add<U, Output = O>, U: Copy, O: Copy> vstd::std_specs::ops::AddSpecImpl<Vec2<U>> for Vec2<T> {
    open spec fn obeys_add_spec() -> bool {
        T::obeys_add_spec()
    }

    open spec fn add_req(self, rhs: Vec2<U>) -> bool {
        self.x.add_req(rhs.x) && self.y.add_req(rhs.y)
    }

    open spec fn add_spec(self, rhs: Vec2<U>) -> Vec2<O> {
        Vec2 { x: self.x.add_spec(rhs.x), y: self.y.add_spec(rhs.y) }
    }
}

impl<T: Copy + core::ops::Sub<U, Output = O>, U: Copy, O: Copy> core::ops::Sub<Vec2<U>> for Vec2<T> {
    type Output = Vec2<O>;

    fn sub(self, rhs: Vec2<U>) -> (difference: Vec2<O>) {
        Vec2 { x: self.x - rhs.x, y: self.y - rhs.y }
    }
}

impl<T: Copy + core::ops::Sub<U, Output = O>, U: Copy, O: Copy> vstd::std_specs::ops::SubSpecImpl<Vec2<U>> for Vec2<T> {
    open spec fn obeys_sub_spec() -> bool {
        T::obeys_sub_spec()
    }

    open spec fn sub_req(self, rhs: Vec2<U>) -> bool {
        self.x.sub_req(rhs.x) && self.y.sub_req(rhs.y)
    }

    open spec fn sub_spec(self, rhs: Vec2<U>) -> Vec2<O> {
        Vec2 { x: self.x.sub_spec(rhs.x), y: self.y.sub_spec(rhs.y) }
    }
}

impl<T: Copy + core::ops::Mul<U, Output = O>, U: Copy, O: Copy> core::ops::Mul<Vec2<U>> for Vec2<T> {
    type Output = Vec2<O>;

    fn mul(self, rhs: Vec2<U>) -> (product: Vec2<O>) {
        Vec2 { x: self.x * rhs.x, y: self.y * rhs.y }
    }
}

impl<T: Copy + core::ops::Mul<U, Output = O>, U: Copy, O: Copy> vstd::std_specs::ops::MulSpecImpl<Vec2<U>> for Vec2<T> {
    open spec fn obeys_mul_spec() -> bool {
        T::obeys_mul_spec()
    }

    open spec fn mul_req(self, rhs: Vec2<U>) -> bool {
        self.x.mul_req(rhs.x) && self.y.mul_req(rhs.y)
    }

    open spec fn mul_spec(self, rhs: Vec2<U>) -> Vec2<O> {
        Vec2 { x: self.x.mul_spec(rhs.x), y: self.y.mul_spec(rhs.y) }
    }
}

impl<T: Copy + core::ops::Div<U, Output = O>, U: Copy, O: Copy> core::ops::Div<Vec2<U>> for Vec2<T> {
    type Output = Vec2<O>;

    fn div(self, rhs: Vec2<U>) -> (quotient: Vec2<O>) {
        Vec2 { x: self.x / rhs.x, y: self.y / rhs.y }
    }
}

impl<T: Copy + core::ops::Div<U, Output = O>, U: Copy, O: Copy> vstd::std_specs::ops::DivSpecImpl<Vec2<U>> for Vec2<T> {
    open spec fn obeys_div_spec() -> bool {
        T::obeys_div_spec()
    }

    open spec fn div_req(self, rhs: Vec2<U>) -> bool {
        self.x.div_req(rhs.x) && self.y.div_req(rhs.y)
    }

    open spec fn div_spec(self, rhs: Vec2<U>) -> Vec2<O> {
        Vec2 { x: self.x.div_spec(rhs.x), y: self.y.div_spec(rhs.y) }
    }
}

impl<T: Copy + core::ops::Mul<Output = T>> Vec2<T> {
    /// The product of the two coordinates: the number of cells of a grid of
    /// this size.
    pub fn area(self) -> (cells: T)
        requires
            self.x.mul_req(self.y),
        ensures
            T::obeys_mul_spec() ==> cells == self.x.mul_spec(self.y),
    {
        self.x * self.y
    }
}

impl<T: Copy + Into<usize>> Vec2<T> {
    /// The place of the cell at this position in a grid of the given width
    /// that is stored row by row.
    pub open spec fn row_major(self, width: int) -> int {
        self.y.into_spec() * width + self.x.into_spec()
    }

    /// The place of the cell at this position in a grid of the given width
    /// that is stored row by row.
    pub fn index_row_major(self, width: usize) -> (index: usize)
        requires
            T::obeys_into_spec(),
            self.row_major(width as int) <= usize::MAX,
        ensures
            index == self.row_major(width as int),
    {
        let x: usize = self.x.into();
        let y: usize = self.y.into();
        y * width + x
    }
}

/// A type of coordinates with a step by which positions are walked.
pub trait DefaultStep {
    /// The step from one position to the next.
    spec fn step() -> Self where Self: Sized;

    /// The step from one position to the next.
    fn default_step() -> (step: Self) where Self: Sized
        ensures
            step == Self::step(),
    ;
}

impl DefaultStep for u16 {
    open spec fn step() -> u16 {
        1
    }

    fn default_step() -> (step: u16) {
        1
    }
}

/// The positions of a rectangle that are still to be walked, row by row.
#[derive(Debug, Clone, PartialEq, Eq)]
pub struct PositionsIter<T: Copy> {
    start_x: T,
    next: Option<Vec2<T>>,
    end: Vec2<T>,
    step: T,
}

/// The positions from `at` on, `at` among them, that are walked in the
/// rectangle whose columns start at `start_x` and that ends before `end`.
pub open spec fn positions_from(start_x: u16, at: Vec2<u16>, end: Vec2<u16>) -> Seq<Vec2<u16>>
    decreases end.y - at.y, end.x - at.x,
{
    if at.x < end.x && at.y < end.y && start_x < end.x {
        seq![at] + if at.x + 1 < end.x {
            positions_from(start_x, Vec2 { x: (at.x + 1) as u16, y: at.y }, end)
        } else if at.y + 1 < end.y {
            positions_from(start_x, Vec2 { x: start_x, y: (at.y + 1) as u16 }, end)
        } else {
            Seq::empty()
        }
    } else {
        Seq::empty()
    }
}

impl View for PositionsIter<u16> {
    type V = Seq<Vec2<u16>>;

    /// The positions that are still to come.
    closed spec fn view(&self) -> Seq<Vec2<u16>> {
        match self.next {
            Some(at) => positions_from(self.start_x, at, self.end),
            None => Seq::empty(),
        }
    }
}

impl PositionsIter<u16> {
    /// The position to come stands in the rectangle, and the step is one.
    pub closed spec fn wf(&self) -> bool {
        &&& self.step == 1
        &&& self.next matches Some(at) ==> self.start_x <= at.x < self.end.x && at.y < self.end.y
    }

    /// The next position, if one is left.
    pub fn next(&mut self) -> (position: Option<Vec2<u16>>)
        requires
            old(self).wf(),
        ensures
            final(self).wf(),
            old(self)@.len() == 0 ==> position is None && final(self)@ == old(self)@,
            old(self)@.len() > 0 ==> position == Some(old(self)@[0]) && final(self)@ == old(self)@.drop_first(),
    {
        let ret = self.next;
        self.next = if let Some(last) = self.next {
            let mut last = last;
            last.x = last.x + self.step;
            if last.x < self.end.x {
                Some(last)
            } else {
                last.y = last.y + self.step;
                if last.y < self.end.y {
                    last.x = self.start_x;
                    Some(last)
                } else {
                    None
                }
            }
        } else {
            None
        };
        ret
    }

    /// The positions that are left, in the order in which they come.
    pub fn collect(self) -> (positions: Vec<Vec2<u16>>)
        requires
            self.wf(),
        ensures
            positions@ == self@,
    {
        let mut this = self;
        let mut positions: Vec<Vec2<u16>> = Vec::new();
        loop
            invariant
                this.wf(),
                positions@ + this@ == self@,
            decreases this@.len(),
        {
            match this.next() {
                Some(position) => {
                    positions.push(position);
                },
                None => {
                    return positions;
                },
            }
        }
    }
}

impl Vec2<u16> {
    /// Both coordinates zero.
    pub fn zero() -> (v: Vec2<u16>)
        ensures
            v == (Vec2 { x: 0u16, y: 0u16 }),
    {
        Vec2 { x: 0, y: 0 }
    }

    /// The command that moves the cursor to this position.
    pub fn move_to(self) -> (command: Command)
        ensures
            command@ == Op::MoveTo(self.x, self.y),
    {
        Command::MoveTo(self.x, self.y)
    }

    /// The positions of the rectangle from this position up to `other`,
    /// which is left out, row by row.
    pub fn positions_between(self, other: Vec2<u16>) -> (positions: PositionsIter<u16>)
        ensures
            positions.wf(),
            positions@ == positions_from(self.x, self, other),
    {
        PositionsIter {
            start_x: self.x,
            next: if self.x < other.x && self.y < other.y {
                Some(self)
            } else {
                None
            },
            end: other,
            step: u16::default_step(),
        }
    }
}

/// A rectangle of terminal cells.
#[derive(Debug, Copy, Clone, PartialEq, Eq, Structural)]
pub struct Rect<T: Copy> {
    pub pos: Vec2<T>,
    pub size: Vec2<T>,
}

/// `a - b`, or zero where `b` is the larger.
pub open spec fn minus_or_zero(a: int, b: int) -> int {
    if a >= b {
        a - b
    } else {
        0
    }
}

/// `a + b`, or the largest `u16` where the sum is larger.
pub open spec fn plus_or_max(a: int, b: int) -> int {
    if a + b > u16::MAX {
        u16::MAX as int
    } else {
        a + b
    }
}

impl Rect<u16> {
    /// The rectangle that is left when a margin of `by` is taken off on every
    /// side; an axis too short for both margins shrinks to nothing.
    pub open spec fn shrunk(self, by: Vec2<u16>) -> Rect<u16> {
        Rect {
            pos: Vec2 {
                x: plus_or_max(self.pos.x as int, by.x as int) as u16,
                y: plus_or_max(self.pos.y as int, by.y as int) as u16,
            },
            size: Vec2 {
                x: minus_or_zero(minus_or_zero(self.size.x as int, by.x as int), by.x as int) as u16,
                y: minus_or_zero(minus_or_zero(self.size.y as int, by.y as int), by.y as int) as u16,
            },
        }
    }

    /// Takes a margin of `by` off on every side.
    pub fn shrink_centered(self, by: Vec2<u16>) -> (inner: Rect<u16>)
        ensures
            inner == self.shrunk(by),
    {
        Rect {
            pos: Vec2 {
                x: self.pos.x.saturating_add(by.x),
                y: self.pos.y.saturating_add(by.y),
            },
            size: Vec2 {
                x: self.size.x.saturating_sub(by.x).saturating_sub(by.x),
                y: self.size.y.saturating_sub(by.y).saturating_sub(by.y),
            },
        }
    }
}

} // verus!
