//! A square that takes its state directly.
//!
//! Unlike the guarded [`crate::Square`], whose marks are named by text,
//! this square is written with a [`SquareValue`] and may be cleared
//! back to empty and reused.  Marking still demands an empty square: a
//! second mark attempt on a non-empty square is rejected, never
//! overwrites.

use vstd::prelude::*;
use crate::square_value::SquareValue;

verus! {

/// One square written directly with a [`SquareValue`]: marked only
/// while empty, cleared and reused at will.
#[derive(Debug, PartialEq, Eq, Clone, Copy, Structural)]
pub struct Square {
    value: SquareValue,
}

impl View for Square {
    type V = SquareValue;

    closed spec fn view(&self) -> SquareValue {
        self.value
    }
}

impl Square {
    /// Creates a new, empty square.
    pub fn new() -> (r: Square)
        ensures
            r@ is Empty,
    {
        Square { value: SquareValue::Empty }
    }

    /// True exactly when the square carries no mark.
    pub fn is_empty(&self) -> (r: bool)
        ensures
            r == (self@ is Empty),
    {
        self.value == SquareValue::Empty
    }

    /// True exactly when the square carries an X mark.
    pub fn is_x(&self) -> (r: bool)
        ensures
            r == (self@ is X),
    {
        self.value == SquareValue::X
    }

    /// True exactly when the square carries an O mark.
    pub fn is_o(&self) -> (r: bool)
        ensures
            r == (self@ is O),
    {
        self.value == SquareValue::O
    }

    /// The current state of the square.
    pub fn get_value(&self) -> (r: SquareValue)
        ensures
            r == self@,
    {
        self.value
    }

    /// Stores `value` in an empty square.  A square that already
    /// carries a mark accepts no further one, so it is excluded by the
    /// precondition.
    pub fn set_value(&mut self, value: SquareValue)
        requires
            old(self)@ is Empty,
        ensures
            final(self)@ == value,
    {
        self.value = value;
    }

    /// Marks an empty square with X.
    pub fn set_x(&mut self)
        requires
            old(self)@ is Empty,
        ensures
            final(self)@ is X,
    {
        self.value = SquareValue::X;
    }

    /// Marks an empty square with O.
    pub fn set_o(&mut self)
        requires
            old(self)@ is Empty,
        ensures
            final(self)@ is O,
    {
        self.value = SquareValue::O;
    }

    /// Clears the square back to empty.
    pub fn set_empty(&mut self)
        ensures
            final(self)@ is Empty,
    {
        self.value = SquareValue::Empty;
    }

    /// The fixed-width text of the square's state.
    pub fn label(&self) -> (r: &'static str)
        ensures
            r@ == self@.label_spec(),
    {
        self.value.label()
    }
}

impl Default for Square {
    /// A fresh square is empty.
    fn default() -> (r: Self)
        ensures
            r@ is Empty,
    {
        Square::new()
    }
}

} // verus!
