//! A game: two players, a board, and possibly a winner.

use vstd::prelude::*;
use crate::board::Board;
use crate::errors::GameError;
use crate::player::Player;
use crate::player::Symbol;
use crate::square_value::SquareValue;

verus! {

/// One game of Tic-Tac-Toe: the X player, the O player, the board they
/// play on, and the winner once there is one.
pub struct Game {
    player_x: Player,
    player_o: Player,
    board: Board,
    winner: Option<Player>,
}

impl Game {
    /// The states of the game's nine squares, row-major.
    pub closed spec fn board_spec(&self) -> Seq<SquareValue> {
        self.board@
    }

    /// The winner of the game, if one has been recorded.
    pub closed spec fn winner_spec(&self) -> Option<Player> {
        self.winner
    }

    /// The symbols of the X player and the O player, in that order.
    pub closed spec fn players_spec(&self) -> (Symbol, Symbol) {
        (self.player_x.symbol, self.player_o.symbol)
    }

    /// Creates a fresh game: an empty board, no winner, and the two
    /// players holding X and O.
    pub fn new() -> (r: Self)
        ensures
            r.board_spec().len() == 9,
            forall|i: int| 0 <= i < 9 ==> r.board_spec()[i] is Empty,
            r.winner_spec() is None,
            r.players_spec() == (Symbol::X, Symbol::O),
    {
        let current_player = Player { symbol: Symbol::X };
        let other_player = Player { symbol: Symbol::O };
        Self {
            player_x: current_player,
            player_o: other_player,
            board: Board::new(),
            winner: None,
        }
    }

    /// Plays the one move the game knows: an X mark on the centre
    /// square.  The centre must still be empty; every other square, the
    /// players and the winner are left as they were.
    pub fn play(&mut self) -> (r: Result<(), GameError>)
        requires
            old(self).board_spec()[Board::slot(2, 2)] is Empty,
        ensures
            r is Ok,
            final(self).board_spec() == old(self).board_spec().update(
                Board::slot(2, 2),
                SquareValue::X,
            ),
            final(self).winner_spec() == old(self).winner_spec(),
            final(self).players_spec() == old(self).players_spec(),
    {
        self.board.get_square_mut(2, 2).set_value("X");
        Ok(())
    }

    /// The winner of the game, if one has been recorded.
    pub fn winner(&self) -> (r: Option<Player>)
        ensures
            r == self.winner_spec(),
    {
        self.winner
    }

    /// The board the game is played on.
    pub fn board(&self) -> (r: &Board)
        ensures
            r@ == self.board_spec(),
    {
        &self.board
    }
}

impl Default for Game {
    /// A fresh game, as [`Game::new`] makes it.
    fn default() -> (r: Self)
        ensures
            r.board_spec().len() == 9,
            forall|i: int| 0 <= i < 9 ==> r.board_spec()[i] is Empty,
            r.winner_spec() is None,
            r.players_spec() == (Symbol::X, Symbol::O),
    {
        Self::new()
    }
}

} // verus!
