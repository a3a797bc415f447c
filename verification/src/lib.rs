//! A Tic-Tac-Toe board and square data model.
//!
//! The crate is a value-object layer for the classic 3x3 game: a
//! three-valued cell state ([`SquareValue`]), a square holding one such
//! state, and a 3x3 board of squares with row, column and diagonal
//! accessors.
//!
//! Two flavours of the model are offered.  In both, marking demands an
//! empty square — a second mark attempt on a non-empty square is
//! rejected, never overwrites:
//!
//! - The guarded flavour at the crate root ([`Square`], [`Board`],
//!   [`Game`]): marks are named by text, and a square, once marked,
//!   keeps its mark for the rest of the game.
//! - The direct flavour in [`plain`] and [`grid`]: squares take a
//!   [`SquareValue`] or a player's [`Symbol`] directly, and may be
//!   cleared back to empty and reused.

mod board;
mod errors;
mod game;
pub mod grid;
pub mod plain;
mod player;
mod square;
mod square_value;

pub use board::Board;
pub use errors::GameError;
pub use game::Game;
pub use player::Player;
pub use player::Symbol;
pub use square::Square;
pub use square_value::SquareValue;
