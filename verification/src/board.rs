//! The 3x3 board of guarded squares, addressed with 1-indexed
//! coordinates.

use vstd::prelude::*;
use crate::square::Square;
use crate::square_value::SquareValue;

verus! {

/// A Tic-Tac-Toe board: nine [`Square`]s laid out as three rows of
/// three columns.  Rows and columns are numbered 1 to 3, and the board
/// is viewed as the row-major sequence of its nine square states.
#[derive(Debug)]
pub struct Board {
    squares: [Square; 9],
}

impl View for Board {
    type V = Seq<SquareValue>;

    closed spec fn view(&self) -> Seq<SquareValue> {
        self.squares@.map_values(|s: Square| s@)
    }
}

impl Board {
    /// The row-major slot of the 1-indexed coordinates `(row, col)`.
    pub open spec fn slot(row: int, col: int) -> int {
        (row - 1) * 3 + (col - 1)
    }

    /// Both coordinates lie between 1 and 3.
    pub open spec fn in_range(row: int, col: int) -> bool {
        1 <= row <= 3 && 1 <= col <= 3
    }

    /// Creates a board whose nine squares are all empty.
    pub fn new() -> (r: Self)
        ensures
            r@.len() == 9,
            forall|i: int| 0 <= i < 9 ==> r@[i] is Empty,
    {
        let empty = Square::default();
        let r = Self { squares: [empty; 9] };
        proof {
            let filled = vstd::array::spec_array_fill_for_copy_type::<Square, 9>(empty);
            assert forall|i: int| 0 <= i < 9 implies r@[i] is Empty by {
                assert(filled@[i] == empty);
                assert(r.squares@[i] == empty);
            }
        }
        r
    }

    /// The square at the 1-indexed coordinates `(row, col)`.
    pub fn get_square(&self, row: usize, col: usize) -> (r: &Square)
        requires
            Self::in_range(row as int, col as int),
        ensures
            r@ == self@[Self::slot(row as int, col as int)],
    {
        let index = Self::translate_coordinates(row, col);
        &self.squares[index]
    }

    /// A mutable borrow of the square at the 1-indexed coordinates
    /// `(row, col)`; whatever the caller writes through it lands in
    /// that slot of the board, and no other slot changes.
    pub fn get_square_mut(&mut self, row: usize, col: usize) -> (r: &mut Square)
        requires
            Self::in_range(row as int, col as int),
        ensures
            (*r)@ == old(self)@[Self::slot(row as int, col as int)],
            final(self)@ == old(self)@.update(
                Self::slot(row as int, col as int),
                final(r)@,
            ),
    {
        let index = Self::translate_coordinates(row, col);
        &mut self.squares[index]
    }

    /// The three squares of row `row`, left to right.
    pub fn get_row(&self, row: usize) -> (r: [&Square; 3])
        requires
            1 <= row <= 3,
        ensures
            r@[0]@ == self@[Self::slot(row as int, 1)],
            r@[1]@ == self@[Self::slot(row as int, 2)],
            r@[2]@ == self@[Self::slot(row as int, 3)],
    {
        [
            self.get_square(row, 1),
            self.get_square(row, 2),
            self.get_square(row, 3),
        ]
    }

    /// The three squares of column `col`, top to bottom.
    pub fn get_column(&self, col: usize) -> (r: [&Square; 3])
        requires
            1 <= col <= 3,
        ensures
            r@[0]@ == self@[Self::slot(1, col as int)],
            r@[1]@ == self@[Self::slot(2, col as int)],
            r@[2]@ == self@[Self::slot(3, col as int)],
    {
        [
            self.get_square(1, col),
            self.get_square(2, col),
            self.get_square(3, col),
        ]
    }

    /// The three squares of a diagonal: `"l"` names the diagonal that
    /// leads from the top left to the bottom right, `"r"` the one that
    /// leads from the top right to the bottom left.  No other text
    /// names a diagonal, so it is excluded by the precondition.
    pub fn get_diagonal(&self, diagonal: &str) -> (r: [&Square; 3])
        requires
            diagonal@ == "l"@ || diagonal@ == "r"@,
        ensures
            diagonal@ == "l"@ ==> {
                &&& r@[0]@ == self@[Self::slot(1, 1)]
                &&& r@[1]@ == self@[Self::slot(2, 2)]
                &&& r@[2]@ == self@[Self::slot(3, 3)]
            },
            diagonal@ == "r"@ ==> {
                &&& r@[0]@ == self@[Self::slot(1, 3)]
                &&& r@[1]@ == self@[Self::slot(2, 2)]
                &&& r@[2]@ == self@[Self::slot(3, 1)]
            },
    {
        proof {
            reveal_strlit("l");
            reveal_strlit("r");
        }
        let c = diagonal.get_char(0);
        if c == 'l' {
            [
                self.get_square(1, 1),
                self.get_square(2, 2),
                self.get_square(3, 3),
            ]
        } else {
            [
                self.get_square(1, 3),
                self.get_square(2, 2),
                self.get_square(3, 1),
            ]
        }
    }

    /// The board's text: three rows of three square labels joined with
    /// `|`, the rows separated by a line of dashes.
    pub open spec fn render_spec(&self) -> Seq<char> {
        self@[0].label_spec() + "|"@ + self@[1].label_spec() + "|"@ + self@[2].label_spec()
            + "\n-----------\n"@ + self@[3].label_spec() + "|"@ + self@[4].label_spec() + "|"@
            + self@[5].label_spec() + "\n-----------\n"@ + self@[6].label_spec() + "|"@
            + self@[7].label_spec() + "|"@ + self@[8].label_spec()
    }

    /// A board always views as exactly nine square states.
    pub proof fn lemma_view_len(&self)
        ensures
            self@.len() == 9,
    {
        assert(self.squares@.len() == 9);
    }

    /// Renders the board as its grid text.
    pub fn render(&self) -> (r: String)
        ensures
            r@ == self.render_spec(),
    {
        let mut s = String::new();
        s.append(self.get_square(1, 1).label());
        s.append("|");
        s.append(self.get_square(1, 2).label());
        s.append("|");
        s.append(self.get_square(1, 3).label());
        s.append("\n-----------\n");
        s.append(self.get_square(2, 1).label());
        s.append("|");
        s.append(self.get_square(2, 2).label());
        s.append("|");
        s.append(self.get_square(2, 3).label());
        s.append("\n-----------\n");
        s.append(self.get_square(3, 1).label());
        s.append("|");
        s.append(self.get_square(3, 2).label());
        s.append("|");
        s.append(self.get_square(3, 3).label());
        proof {
            assert(s@ =~= self.render_spec());
        }
        s
    }

    fn translate_coordinates(row: usize, col: usize) -> (r: usize)
        requires
            Self::in_range(row as int, col as int),
        ensures
            r == Self::slot(row as int, col as int),
            r < 9,
    {
        let row_index = (row - 1) * 3;
        let col_index = col - 1;
        row_index + col_index
    }
}

impl Default for Board {
    /// A fresh board has nine empty squares.
    fn default() -> (r: Self)
        ensures
            r@.len() == 9,
            forall|i: int| 0 <= i < 9 ==> r@[i] is Empty,
    {
        Self::new()
    }
}

} // verus!
