//! Errors of the guarded game API.

use vstd::prelude::*;

verus! {

/// The ways a move or a query on the game can be rejected.
#[derive(Debug)]
pub enum GameError {
    /// The addressed square already carries an X mark.
    SquareAlreadyX,
    /// The addressed square already carries an O mark.
    SquareAlreadyO,
    /// The addressed square is not empty.
    SquareNotEmpty,
    /// The addressed square was already played this game.
    SquareAlreadyPlayed,
    /// The coordinates name no square of the 3x3 board.
    InvalidSquare,
    /// The game already has a winner.
    GameAlreadyWon,
    /// The named triple is neither a row, a column nor a diagonal.
    InvalidTriple,
}

impl GameError {
    /// The error's message text.
    pub open spec fn message_spec(&self) -> Seq<char> {
        match self {
            GameError::SquareAlreadyPlayed => "Square already played"@,
            GameError::InvalidSquare => "Invalid square"@,
            GameError::GameAlreadyWon => "Game already won"@,
            GameError::SquareAlreadyX => "Square already X"@,
            GameError::SquareAlreadyO => "Square already O"@,
            GameError::SquareNotEmpty => "Square not empty"@,
            GameError::InvalidTriple => "Invalid triple"@,
        }
    }

    /// Renders the error as its message text.
    pub fn message(&self) -> (r: &'static str)
        ensures
            r@ == self.message_spec(),
    {
        match self {
            GameError::SquareAlreadyPlayed => "Square already played",
            GameError::InvalidSquare => "Invalid square",
            GameError::GameAlreadyWon => "Game already won",
            GameError::SquareAlreadyX => "Square already X",
            GameError::SquareAlreadyO => "Square already O",
            GameError::SquareNotEmpty => "Square not empty",
            GameError::InvalidTriple => "Invalid triple",
        }
    }
}

} // verus!
