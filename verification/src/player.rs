//! The players and their symbols.

use vstd::prelude::*;

verus! {

/// The mark a player plays with.
#[derive(Debug, Clone, Copy, PartialEq, Eq, Structural)]
pub enum Symbol {
    /// The X symbol.
    X,
    /// The O symbol.
    O,
}

impl Symbol {
    /// The one-character text of the symbol.
    pub open spec fn label_spec(&self) -> Seq<char> {
        match self {
            Symbol::X => "X"@,
            Symbol::O => "O"@,
        }
    }

    /// Renders the symbol as its one-character text.
    pub fn label(&self) -> (r: &'static str)
        ensures
            r@ == self.label_spec(),
    {
        match self {
            Symbol::X => "X",
            Symbol::O => "O",
        }
    }
}

/// A player, identified by the symbol they play with.
#[derive(Debug, Clone, Copy)]
pub struct Player {
    /// The symbol of the player.
    pub symbol: Symbol,
}

impl Player {
    /// Creates the player of the symbol named by `symbol`: `"X"` or
    /// `"O"`.  No other text names a symbol, so it is excluded by the
    /// precondition.
    pub fn new(symbol: &str) -> (r: Self)
        requires
            symbol@ == "X"@ || symbol@ == "O"@,
        ensures
            symbol@ == "X"@ ==> r.symbol is X,
            symbol@ == "O"@ ==> r.symbol is O,
    {
        proof {
            reveal_strlit("X");
            reveal_strlit("O");
        }
        let c = symbol.get_char(0);
        if c == 'X' {
            Self { symbol: Symbol::X }
        } else {
            Self { symbol: Symbol::O }
        }
    }

    /// The player's text: the word `Player` followed by their symbol.
    pub open spec fn label_spec(&self) -> Seq<char> {
        "Player "@ + self.symbol.label_spec()
    }

    /// Renders the player as their text.
    pub fn label(&self) -> (r: String)
        ensures
            r@ == self.label_spec(),
    {
        let mut s = String::new();
        s.append("Player ");
        s.append(self.symbol.label());
        proof {
            assert(s@ =~= self.label_spec());
        }
        s
    }
}

} // verus!
