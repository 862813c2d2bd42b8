//! What the user enters.

pub mod text;

use vstd::prelude::*;

verus! {

/// A key press, as far as the study screens tell keys apart.
#[derive(Debug, Clone, Copy, PartialEq, Eq, Structural)]
pub enum Key {
    /// A key that stands for a character.
    Char(char),
    Enter,
    /// Shift and tab.
    BackTab,
    Backspace,
    Delete,
    Left,
    Right,
    Up,
    Down,
    /// Any other key.
    Other,
}

/// What a key means where cards are looked through.
#[derive(Debug, Clone, Copy, PartialEq, Eq, Structural)]
pub enum Move {
    Up,
    Down,
    Left,
    Right,
    /// Turns the selected card over.
    Click,
    /// Ends looking through the cards.
    Leave,
}

impl Key {
    /// What the key means where cards are looked through: the arrows and
    /// the letters `w`, `a`, `s`, `d` and `k`, `h`, `j`, `l`, small or
    /// capital, move the selection; the blank and enter turn the card over;
    /// any other key leaves.
    pub open spec fn spec_movement(self) -> Move {
        match self {
            Key::Up => Move::Up,
            Key::Down => Move::Down,
            Key::Left => Move::Left,
            Key::Right => Move::Right,
            Key::Enter => Move::Click,
            Key::Char(c) => if c == 'w' || c == 'W' || c == 'k' || c == 'K' {
                Move::Up
            } else if c == 's' || c == 'S' || c == 'j' || c == 'J' {
                Move::Down
            } else if c == 'a' || c == 'A' || c == 'h' || c == 'H' {
                Move::Left
            } else if c == 'd' || c == 'D' || c == 'l' || c == 'L' {
                Move::Right
            } else if c == ' ' {
                Move::Click
            } else {
                Move::Leave
            },
            _ => Move::Leave,
        }
    }

    /// What the key means where cards are looked through.
    pub fn movement(self) -> (meant: Move)
        ensures
            meant == self.spec_movement(),
    {
        match self {
            Key::Up => Move::Up,
            Key::Down => Move::Down,
            Key::Left => Move::Left,
            Key::Right => Move::Right,
            Key::Enter => Move::Click,
            Key::Char(c) => {
                if c == 'w' || c == 'W' || c == 'k' || c == 'K' {
                    Move::Up
                } else if c == 's' || c == 'S' || c == 'j' || c == 'J' {
                    Move::Down
                } else if c == 'a' || c == 'A' || c == 'h' || c == 'H' {
                    Move::Left
                } else if c == 'd' || c == 'D' || c == 'l' || c == 'L' {
                    Move::Right
                } else if c == ' ' {
                    Move::Click
                } else {
                    Move::Leave
                }
            },
            _ => Move::Leave,
        }
    }
}

} // verus!
