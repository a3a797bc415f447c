//! The three-valued state of a square.

use vstd::prelude::*;

verus! {

/// The state of one square on the board: unmarked, marked by X, or
/// marked by O.
#[derive(Debug, PartialEq, Eq, Clone, Copy, Structural)]
pub enum SquareValue {
    /// No player has marked the square.
    Empty,
    /// The square carries an X mark.
    X,
    /// The square carries an O mark.
    O,
}

impl SquareValue {
    /// The fixed-width text of the state: each state renders as exactly
    /// three characters, with the mark (if any) in the middle.
    pub open spec fn label_spec(&self) -> Seq<char> {
        match self {
            SquareValue::X => " X "@,
            SquareValue::O => " O "@,
            SquareValue::Empty => "   "@,
        }
    }

    /// Renders the state as its three-character label.
    pub fn label(&self) -> (r: &'static str)
        ensures
            r@ == self.label_spec(),
    {
        match self {
            SquareValue::X => " X ",
            SquareValue::O => " O ",
            SquareValue::Empty => "   ",
        }
    }
}

} // verus!
