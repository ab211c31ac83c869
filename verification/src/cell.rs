//! The occupant of a single board cell.

use vstd::prelude::*;

verus! {

/// What one cell of the board holds: the first player's mark `X`,
/// the second player's mark `O`, or `Empty` for an unoccupied cell.
/// `Empty` is the neutral value and is never a winning mark.
#[derive(Copy, Clone, Debug, PartialEq, Eq, Structural)]
pub enum Cell {
    X,
    O,
    Empty,
}

impl Cell {
    /// The mark of the player who moves next: `X` and `O` map to each
    /// other, and `Empty` maps to itself.
    pub fn opposite(self) -> (r: Cell)
        ensures
            r == self.opposite_spec(),
    {
        match self {
            Cell::X => Cell::O,
            Cell::O => Cell::X,
            Cell::Empty => Cell::Empty,
        }
    }

    /// What `opposite` returns for each mark.
    pub open spec fn opposite_spec(self) -> Cell {
        match self {
            Cell::X => Cell::O,
            Cell::O => Cell::X,
            Cell::Empty => Cell::Empty,
        }
    }

    /// The single character that renders this cell in the board
    /// drawing: `'X'`, `'O'`, or a blank for `Empty`.
    pub open spec fn glyph_spec(self) -> char {
        match self {
            Cell::X => 'X',
            Cell::O => 'O',
            Cell::Empty => ' ',
        }
    }

    /// The one-character string that renders this cell.
    pub fn glyph(self) -> (r: &'static str)
        ensures
            r@ == seq![self.glyph_spec()],
    {
        proof {
            reveal_strlit("X");
            reveal_strlit("O");
            reveal_strlit(" ");
        }
        let r = match self {
            Cell::X => "X",
            Cell::O => "O",
            Cell::Empty => " ",
        };
        assert(r@ =~= seq![self.glyph_spec()]);
        r
    }
}

} // verus!
