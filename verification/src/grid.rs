//! A 0-indexed 3x3 grid of symbol-marked squares.
//!
//! This is the other face of the guarded [`crate::Board`]: rows and
//! columns are numbered 0 to 2, and squares are marked with a player's
//! [`Symbol`].  Marking still demands an empty square — a second mark
//! attempt on a non-empty square is rejected, never overwrites — but a
//! square may be cleared back to empty and reused.

use vstd::prelude::*;
use crate::player::Symbol;
use crate::square_value::SquareValue;

verus! {

/// One square marked with a player's [`Symbol`]: marked only while
/// empty, cleared and reused at will.
#[derive(Debug, PartialEq, Eq, Clone, Copy, Structural)]
pub struct Square {
    value: SquareValue,
}

impl View for Square {
    type V = SquareValue;

    closed spec fn view(&self) -> SquareValue {
        self.value
    }
}

impl Square {
    /// Creates a new, empty square.
    pub fn new() -> (r: Square)
        ensures
            r@ is Empty,
    {
        Square { value: SquareValue::Empty }
    }

    /// True exactly when the square carries no mark.
    pub fn is_empty(&self) -> (r: bool)
        ensures
            r == (self@ is Empty),
    {
        self.value == SquareValue::Empty
    }

    /// True exactly when the square carries an X mark.
    pub fn is_x(&self) -> (r: bool)
        ensures
            r == (self@ is X),
    {
        self.value == SquareValue::X
    }

    /// True exactly when the square carries an O mark.
    pub fn is_o(&self) -> (r: bool)
        ensures
            r == (self@ is O),
    {
        self.value == SquareValue::O
    }

    /// The current state of the square.
    pub fn get_value(&self) -> (r: SquareValue)
        ensures
            r == self@,
    {
        self.value
    }

    /// Marks an empty square with the player's symbol: X for
    /// [`Symbol::X`] and O for [`Symbol::O`].  A square that already
    /// carries a mark accepts no further one, so it is excluded by the
    /// precondition.
    pub fn set_value(&mut self, value: Symbol)
        requires
            old(self)@ is Empty,
        ensures
            value is X ==> final(self)@ is X,
            value is O ==> final(self)@ is O,
    {
        match value {
            Symbol::X => self.value = SquareValue::X,
            Symbol::O => self.value = SquareValue::O,
        }
    }

    /// Marks an empty square with X.
    pub fn set_x(&mut self)
        requires
            old(self)@ is Empty,
        ensures
            final(self)@ is X,
    {
        self.value = SquareValue::X;
    }

    /// Marks an empty square with O.
    pub fn set_o(&mut self)
        requires
            old(self)@ is Empty,
        ensures
            final(self)@ is O,
    {
        self.value = SquareValue::O;
    }

    /// Clears the square back to empty.
    pub fn set_empty(&mut self)
        ensures
            final(self)@ is Empty,
    {
        self.value = SquareValue::Empty;
    }

    /// The fixed-width text of the square's state.
    pub fn label(&self) -> (r: &'static str)
        ensures
            r@ == self@.label_spec(),
    {
        self.value.label()
    }
}

impl Default for Square {
    /// A fresh square is empty.
    fn default() -> (r: Self)
        ensures
            r@ is Empty,
    {
        Square::new()
    }
}

/// A 3x3 grid of freely markable squares, viewed as three rows of
/// three square states and addressed with 0-indexed coordinates.
#[derive(Debug, PartialEq, Eq)]
pub struct Board {
    squares: [[Square; 3]; 3],
}

impl View for Board {
    type V = Seq<Seq<SquareValue>>;

    closed spec fn view(&self) -> Seq<Seq<SquareValue>> {
        Seq::new(3, |r: int| Seq::new(3, |c: int| self.squares@[r]@[c]@))
    }
}

impl Board {
    /// Creates a grid whose nine squares are all empty.
    pub fn new() -> (r: Board)
        ensures
            r@.len() == 3,
            forall|i: int| 0 <= i < 3 ==> (#[trigger] r@[i]).len() == 3,
            forall|i: int, j: int| 0 <= i < 3 && 0 <= j < 3 ==> r@[i][j] is Empty,
    {
        let empty = Square::new();
        let row = [empty; 3];
        let r = Board { squares: [row; 3] };
        proof {
            let filled_row = vstd::array::spec_array_fill_for_copy_type::<Square, 3>(empty);
            let filled = vstd::array::spec_array_fill_for_copy_type::<[Square; 3], 3>(row);
            assert forall|i: int, j: int| 0 <= i < 3 && 0 <= j < 3 implies r@[i][j] is Empty by {
                assert(filled@[i] == row);
                assert(filled_row@[j] == empty);
                assert(r.squares@[i]@[j] == empty);
            }
        }
        r
    }

    /// A grid always views as three rows of three square states.
    pub proof fn lemma_view_dims(&self)
        ensures
            self@.len() == 3,
            forall|i: int| 0 <= i < 3 ==> (#[trigger] self@[i]).len() == 3,
    {
    }

    /// The three squares of row `row`, left to right.
    pub fn get_row(&self, row: usize) -> (r: [Square; 3])
        requires
            row < 3,
        ensures
            r@[0]@ == self@[row as int][0],
            r@[1]@ == self@[row as int][1],
            r@[2]@ == self@[row as int][2],
    {
        [
            self.get_square(row, 0),
            self.get_square(row, 1),
            self.get_square(row, 2),
        ]
    }

    /// The three squares of column `column`, top to bottom.
    pub fn get_column(&self, column: usize) -> (r: [Square; 3])
        requires
            column < 3,
        ensures
            r@[0]@ == self@[0][column as int],
            r@[1]@ == self@[1][column as int],
            r@[2]@ == self@[2][column as int],
    {
        [
            self.get_square(0, column),
            self.get_square(1, column),
            self.get_square(2, column),
        ]
    }

    /// The three squares of a diagonal: `0` names the diagonal that
    /// leads from the top left to the bottom right, `1` the one that
    /// leads from the top right to the bottom left.  No other number
    /// names a diagonal, so it is excluded by the precondition.
    pub fn get_diagonal(&self, diagonal: usize) -> (r: [Square; 3])
        requires
            diagonal < 2,
        ensures
            diagonal == 0 ==> {
                &&& r@[0]@ == self@[0][0]
                &&& r@[1]@ == self@[1][1]
                &&& r@[2]@ == self@[2][2]
            },
            diagonal == 1 ==> {
                &&& r@[0]@ == self@[0][2]
                &&& r@[1]@ == self@[1][1]
                &&& r@[2]@ == self@[2][0]
            },
    {
        if diagonal == 0 {
            [
                self.get_square(0, 0),
                self.get_square(1, 1),
                self.get_square(2, 2),
            ]
        } else {
            [
                self.get_square(0, 2),
                self.get_square(1, 1),
                self.get_square(2, 0),
            ]
        }
    }

    /// The square at the 0-indexed coordinates `(row, column)`.
    pub fn get_square(&self, row: usize, column: usize) -> (r: Square)
        requires
            row < 3,
            column < 3,
        ensures
            r@ == self@[row as int][column as int],
    {
        self.squares[row][column]
    }

    /// The grid's text as the printed form shows it: three rows of
    /// three square labels joined with `|`, each row on a line of its
    /// own, with a line of dashes between the rows.
    pub open spec fn render_spec(&self) -> Seq<char> {
        self@[0][0].label_spec() + "|"@ + self@[0][1].label_spec() + "|"@
            + self@[0][2].label_spec() + "\n-----------\n"@ + self@[1][0].label_spec() + "|"@
            + self@[1][1].label_spec() + "|"@ + self@[1][2].label_spec() + "\n-----------\n"@
            + self@[2][0].label_spec() + "|"@ + self@[2][1].label_spec() + "|"@
            + self@[2][2].label_spec() + "\n"@
    }

    /// Renders the grid as its text.
    pub fn render(&self) -> (r: String)
        ensures
            r@ == self.render_spec(),
    {
        let mut s = String::new();
        s.append(self.get_square(0, 0).label());
        s.append("|");
        s.append(self.get_square(0, 1).label());
        s.append("|");
        s.append(self.get_square(0, 2).label());
        s.append("\n-----------\n");
        s.append(self.get_square(1, 0).label());
        s.append("|");
        s.append(self.get_square(1, 1).label());
        s.append("|");
        s.append(self.get_square(1, 2).label());
        s.append("\n-----------\n");
        s.append(self.get_square(2, 0).label());
        s.append("|");
        s.append(self.get_square(2, 1).label());
        s.append("|");
        s.append(self.get_square(2, 2).label());
        s.append("\n");
        proof {
            assert(s@ =~= self.render_spec());
        }
        s
    }
}

impl Default for Board {
    /// A fresh grid has nine empty squares.
    fn default() -> (r: Self)
        ensures
            r@.len() == 3,
            forall|i: int| 0 <= i < 3 ==> (#[trigger] r@[i]).len() == 3,
            forall|i: int, j: int| 0 <= i < 3 && 0 <= j < 3 ==> r@[i][j] is Empty,
    {
        Board::new()
    }
}

/// The ways a move on the free grid can be rejected.
#[derive(Debug)]
pub enum GameError {
    /// The addressed square was already played this game.
    SquareAlreadyPlayed,
    /// The coordinates name no square of the 3x3 grid.
    InvalidSquare,
    /// The game already has a winner.
    GameAlreadyWon,
}

impl GameError {
    /// The error's message text.
    pub open spec fn message_spec(&self) -> Seq<char> {
        match self {
            GameError::SquareAlreadyPlayed => "Square already played"@,
            GameError::InvalidSquare => "Invalid square"@,
            GameError::GameAlreadyWon => "Game already won"@,
        }
    }

    /// Renders the error as its message text.
    pub fn message(&self) -> (r: &'static str)
        ensures
            r@ == self.message_spec(),
    {
        match self {
            GameError::SquareAlreadyPlayed => "Square already played",
            GameError::InvalidSquare => "Invalid square",
            GameError::GameAlreadyWon => "Game already won",
        }
    }
}

} // verus!
