//! A square that is marked at most once.

use vstd::prelude::*;
use crate::square_value::SquareValue;

verus! {

/// One square of the board, holding a [`SquareValue`].
///
/// A square starts out empty and transitions to a mark exactly once:
/// every marking method demands that the square still be empty, so a
/// mark, once written, is never overwritten.
#[derive(Debug, PartialEq, Eq, Clone, Copy, Structural)]
pub struct Square {
    value: SquareValue,
}

impl View for Square {
    type V = SquareValue;

    closed spec fn view(&self) -> SquareValue {
        self.value
    }
}

impl Square {
    /// Creates a new, empty square.
    pub fn new() -> (r: Self)
        ensures
            r@ is Empty,
    {
        Self { value: SquareValue::Empty }
    }

    /// True exactly when the square carries no mark.
    pub fn is_empty(&self) -> (r: bool)
        ensures
            r == (self@ is Empty),
    {
        self.value == SquareValue::Empty
    }

    /// True exactly when the square carries an X mark.
    pub fn is_x(&self) -> (r: bool)
        ensures
            r == (self@ is X),
    {
        self.value == SquareValue::X
    }

    /// True exactly when the square carries an O mark.
    pub fn is_o(&self) -> (r: bool)
        ensures
            r == (self@ is O),
    {
        self.value == SquareValue::O
    }

    /// The current state of the square.
    pub fn get_value(&self) -> (r: &SquareValue)
        ensures
            *r == self@,
    {
        &self.value
    }

    /// Marks an empty square with the mark named by `value`: `"X"`
    /// marks it X and `"O"` marks it O.  No other text names a mark,
    /// and a square that already carries a mark accepts no further one,
    /// so both are excluded by the precondition.
    pub fn set_value(&mut self, value: &str)
        requires
            old(self)@ is Empty,
            value@ == "X"@ || value@ == "O"@,
        ensures
            value@ == "X"@ ==> final(self)@ is X,
            value@ == "O"@ ==> final(self)@ is O,
    {
        proof {
            reveal_strlit("X");
            reveal_strlit("O");
        }
        let c = value.get_char(0);
        if c == 'X' {
            self.value = SquareValue::X;
        } else {
            self.value = SquareValue::O;
        }
    }

    /// Marks an empty square with X.
    pub fn set_x(&mut self)
        requires
            old(self)@ is Empty,
        ensures
            final(self)@ is X,
    {
        self.set_value("X");
    }

    /// Marks an empty square with O.
    pub fn set_o(&mut self)
        requires
            old(self)@ is Empty,
        ensures
            final(self)@ is O,
    {
        self.set_value("O");
    }

    /// The fixed-width text of the square's state.
    pub fn label(&self) -> (r: &'static str)
        ensures
            r@ == self@.label_spec(),
    {
        self.value.label()
    }
}

impl Default for Square {
    /// A fresh square is empty.
    fn default() -> (r: Self)
        ensures
            r@ is Empty,
    {
        Self::new()
    }
}

} // verus!
