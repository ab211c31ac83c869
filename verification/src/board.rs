//! The board: a fixed-size square grid of cells with win and draw
//! detection.

use vstd::prelude::*;

use crate::cell::Cell;

verus! {

/// Side length of the square board.
pub const BOARD_SIZE: usize = 3;

/// The complete game state: a `BOARD_SIZE` x `BOARD_SIZE` grid of
/// cells, stored row-major in a flat vector. The cell at row `r`,
/// column `c` sits at index `r * BOARD_SIZE + c`.
pub struct TicTacToe {
    board: Vec<Cell>,
}

/// The cell at row `r`, column `c` of the row-major grid `s`.
pub open spec fn cell_at(s: Seq<Cell>, r: int, c: int) -> Cell {
    s[r * (BOARD_SIZE as int) + c]
}

/// The grid holds exactly one cell per board position.
pub open spec fn grid_wf(s: Seq<Cell>) -> bool {
    s.len() == BOARD_SIZE * BOARD_SIZE
}

/// Every cell of the grid is occupied.
pub open spec fn is_full(s: Seq<Cell>) -> bool {
    forall|i: int| 0 <= i < s.len() ==> s[i] != Cell::Empty
}

/// Row `r` is a winning line: all of its cells carry the same
/// non-`Empty` mark.
pub open spec fn row_won(s: Seq<Cell>, r: int) -> bool {
    &&& cell_at(s, r, 0) != Cell::Empty
    &&& forall|c: int| 0 <= c < BOARD_SIZE ==> #[trigger] cell_at(s, r, c) == cell_at(s, r, 0)
}

/// Column `c` is a winning line: all of its cells carry the same
/// non-`Empty` mark.
pub open spec fn col_won(s: Seq<Cell>, c: int) -> bool {
    &&& cell_at(s, 0, c) != Cell::Empty
    &&& forall|r: int| 0 <= r < BOARD_SIZE ==> #[trigger] cell_at(s, r, c) == cell_at(s, 0, c)
}

/// The main diagonal (row index equal to column index) is a winning
/// line.
pub open spec fn diag_won(s: Seq<Cell>) -> bool {
    &&& cell_at(s, 0, 0) != Cell::Empty
    &&& forall|i: int| 0 <= i < BOARD_SIZE ==> #[trigger] cell_at(s, i, i) == cell_at(s, 0, 0)
}

/// The anti-diagonal (row index plus column index equal to
/// `BOARD_SIZE - 1`) is a winning line.
pub open spec fn anti_diag_won(s: Seq<Cell>) -> bool {
    &&& cell_at(s, 0, BOARD_SIZE - 1) != Cell::Empty
    &&& forall|i: int|
        0 <= i < BOARD_SIZE ==> #[trigger] cell_at(s, i, BOARD_SIZE - 1 - i) == cell_at(s, 0, BOARD_SIZE - 1)
}

/// The mark of the first winning row with index at least `r`, or
/// `Empty` if no row from `r` on is a winning line.
pub open spec fn first_row_winner_from(s: Seq<Cell>, r: int) -> Cell
    decreases BOARD_SIZE - r,
{
    if r < 0 || r >= BOARD_SIZE {
        Cell::Empty
    } else if row_won(s, r) {
        cell_at(s, r, 0)
    } else {
        first_row_winner_from(s, r + 1)
    }
}

/// The mark of the first winning column with index at least `c`, or
/// `Empty` if no column from `c` on is a winning line.
pub open spec fn first_col_winner_from(s: Seq<Cell>, c: int) -> Cell
    decreases BOARD_SIZE - c,
{
    if c < 0 || c >= BOARD_SIZE {
        Cell::Empty
    } else if col_won(s, c) {
        cell_at(s, 0, c)
    } else {
        first_col_winner_from(s, c + 1)
    }
}

/// The mark `winner` returns on grid `s`: the mark of the first
/// winning line in scan order -- rows in increasing row order, then
/// columns in increasing column order, then the main diagonal, then
/// the anti-diagonal -- or `Empty` when no line is complete.
pub open spec fn winner_of(s: Seq<Cell>) -> Cell {
    if first_row_winner_from(s, 0) != Cell::Empty {
        first_row_winner_from(s, 0)
    } else if first_col_winner_from(s, 0) != Cell::Empty {
        first_col_winner_from(s, 0)
    } else if diag_won(s) {
        cell_at(s, 0, 0)
    } else if anti_diag_won(s) {
        cell_at(s, 0, BOARD_SIZE - 1)
    } else {
        Cell::Empty
    }
}

/// The characters that render row `r` of grid `s`: the three cell
/// glyphs joined by `'|'`, closed by a newline.
pub open spec fn rendered_row(s: Seq<Cell>, r: int) -> Seq<char> {
    seq![
        cell_at(s, r, 0).glyph_spec(),
        '|',
        cell_at(s, r, 1).glyph_spec(),
        '|',
        cell_at(s, r, 2).glyph_spec(),
        '\n',
    ]
}

/// The separator line drawn between two board rows.
pub open spec fn rendered_separator() -> Seq<char> {
    seq!['-', '+', '-', '+', '-', '\n']
}

/// The characters of the whole board drawing: the rows in order,
/// with a separator line between consecutive rows.
pub open spec fn rendered_grid(s: Seq<Cell>) -> Seq<char> {
    rendered_row(s, 0) + rendered_separator() + rendered_row(s, 1) + rendered_separator()
        + rendered_row(s, 2)
}

impl View for TicTacToe {
    type V = Seq<Cell>;

    closed spec fn view(&self) -> Seq<Cell> {
        self.board@
    }
}

impl TicTacToe {
    /// A fresh board with every cell `Empty`.
    pub fn new() -> (r: TicTacToe)
        ensures
            grid_wf(r@),
            forall|i: int| 0 <= i < r@.len() ==> r@[i] == Cell::Empty,
    {
        let mut cells: Vec<Cell> = Vec::new();
        let mut i: usize = 0;
        while i < BOARD_SIZE * BOARD_SIZE
            invariant
                i <= BOARD_SIZE * BOARD_SIZE,
                cells@.len() == i,
                forall|j: int| 0 <= j < i ==> cells@[j] == Cell::Empty,
            decreases BOARD_SIZE * BOARD_SIZE - i,
        {
            cells.push(Cell::Empty);
            i += 1;
        }
        TicTacToe { board: cells }
    }

    /// A board holding the given cells, row-major.
    pub fn from_cells(cells: Vec<Cell>) -> (r: TicTacToe)
        requires
            grid_wf(cells@),
        ensures
            r@ == cells@,
    {
        TicTacToe { board: cells }
    }

    /// Place `mark` at the cell with linear index `index`, counted
    /// row-major: the cell at row `index / BOARD_SIZE`, column
    /// `index % BOARD_SIZE`. Overwrites whatever the cell held; no
    /// other cell changes. The caller must hand in an index that is
    /// already validated to be in range.
    pub fn place(&mut self, index: usize, mark: Cell)
        requires
            grid_wf(old(self)@),
            index < BOARD_SIZE * BOARD_SIZE,
        ensures
            final(self)@ == old(self)@.update(index as int, mark),
            cell_at(final(self)@, index as int / BOARD_SIZE as int, index as int % BOARD_SIZE as int)
                == mark,
    {
        self.board.set(index, mark);
        proof {
            let i = index as int;
            let n = BOARD_SIZE as int;
            assert(i == (i / n) * n + i % n) by (nonlinear_arith)
                requires n == BOARD_SIZE as int && 0 <= i;
        }
    }

    /// The cell at row `row`, column `col`.
    pub fn get(&self, row: usize, col: usize) -> (r: Cell)
        requires
            grid_wf(self@),
            row < BOARD_SIZE,
            col < BOARD_SIZE,
        ensures
            r == cell_at(self@, row as int, col as int),
    {
        self.board[row * BOARD_SIZE + col]
    }

    /// The text of one board row: the cell glyphs joined by `'|'`,
    /// closed by a newline.
    fn render_row(&self, row: usize) -> (out: String)
        requires
            grid_wf(self@),
            row < BOARD_SIZE,
        ensures
            out@ == rendered_row(self@, row as int),
    {
        proof {
            reveal_strlit("|");
            reveal_strlit("\n");
        }
        let mut out = String::new();
        out.append(self.board[row * BOARD_SIZE].glyph());
        out.append("|");
        out.append(self.board[row * BOARD_SIZE + 1].glyph());
        out.append("|");
        out.append(self.board[row * BOARD_SIZE + 2].glyph());
        out.append("\n");
        assert(out@ =~= rendered_row(self@, row as int));
        out
    }

    /// The board drawing as text: each row's cell glyphs joined by
    /// `'|'` and closed by a newline, with a `-+-+-` separator line
    /// between consecutive rows.
    pub fn render(&self) -> (out: String)
        requires
            grid_wf(self@),
        ensures
            out@ == rendered_grid(self@),
    {
        proof {
            reveal_strlit("-+-+-\n");
        }
        let mut out = self.render_row(0);
        out.append("-+-+-\n");
        let middle = self.render_row(1);
        out.append(middle.as_str());
        out.append("-+-+-\n");
        let last = self.render_row(2);
        out.append(last.as_str());
        assert(out@ =~= rendered_grid(self@));
        out
    }

    /// True iff every cell of the board is occupied.
    pub fn full(&self) -> (r: bool)
        ensures
            r == is_full(self@),
    {
        let mut i: usize = 0;
        while i < self.board.len()
            invariant
                i <= self.board@.len(),
                forall|j: int| 0 <= j < i ==> self.board@[j] != Cell::Empty,
            decreases self.board@.len() - i,
        {
            if self.board[i] == Cell::Empty {
                return false;
            }
            i += 1;
        }
        true
    }

    /// The mark that completed a winning line, or `Empty` if no line
    /// is complete. When several lines are complete at once, the
    /// first in scan order decides: rows in increasing row order,
    /// then columns in increasing column order, then the main
    /// diagonal, then the anti-diagonal.
    #[verifier::loop_isolation(false)]
    pub fn winner(&self) -> (w: Cell)
        requires
            grid_wf(self@),
        ensures
            w == winner_of(self@),
    {
        let ghost s = self@;
        // rows
        let mut y: usize = 0;
        while y < BOARD_SIZE
            invariant
                y <= BOARD_SIZE,
                first_row_winner_from(s, 0) == first_row_winner_from(s, y as int),
            decreases BOARD_SIZE - y,
        {
            let player = self.board[y * BOARD_SIZE];
            proof {
                assert(player == cell_at(s, y as int, 0));
            }
            if player != Cell::Empty {
                let mut uniform = true;
                let mut x: usize = 1;
                while x < BOARD_SIZE
                    invariant
                        1 <= x <= BOARD_SIZE,
                        uniform == (forall|c: int|
                            0 <= c < x ==> #[trigger] cell_at(s, y as int, c) == cell_at(s, y as int, 0)),
                    decreases BOARD_SIZE - x,
                {
                    let cur = self.board[y * BOARD_SIZE + x];
                    proof {
                        assert(cur == cell_at(s, y as int, x as int));
                    }
                    if cur != player {
                        uniform = false;
                    }
                    x += 1;
                }
                if uniform {
                    return player;
                }
            }
            y += 1;
        }
        // columns
        let mut x: usize = 0;
        while x < BOARD_SIZE
            invariant
                x <= BOARD_SIZE,
                first_row_winner_from(s, 0) == Cell::Empty,
                first_col_winner_from(s, 0) == first_col_winner_from(s, x as int),
            decreases BOARD_SIZE - x,
        {
            let player = self.board[x];
            proof {
                assert(player == cell_at(s, 0, x as int));
            }
            if player != Cell::Empty {
                let mut uniform = true;
                let mut y: usize = 1;
                while y < BOARD_SIZE
                    invariant
                        1 <= y <= BOARD_SIZE,
                        uniform == (forall|r: int|
                            0 <= r < y ==> #[trigger] cell_at(s, r, x as int) == cell_at(s, 0, x as int)),
                    decreases BOARD_SIZE - y,
                {
                    let cur = self.board[y * BOARD_SIZE + x];
                    proof {
                        assert(cur == cell_at(s, y as int, x as int));
                    }
                    if cur != player {
                        uniform = false;
                    }
                    y += 1;
                }
                if uniform {
                    return player;
                }
            }
            x += 1;
        }
        // main diagonal
        let player = self.board[0];
        proof {
            assert(player == cell_at(s, 0, 0));
        }
        if player != Cell::Empty {
            let mut uniform = true;
            let mut i: usize = 1;
            while i < BOARD_SIZE
                invariant
                    1 <= i <= BOARD_SIZE,
                    uniform == (forall|k: int| 0 <= k < i ==> #[trigger] cell_at(s, k, k) == cell_at(s, 0, 0)),
                decreases BOARD_SIZE - i,
            {
                let cur = self.board[i * BOARD_SIZE + i];
                proof {
                    assert(cur == cell_at(s, i as int, i as int));
                }
                if cur != player {
                    uniform = false;
                }
                i += 1;
            }
            if uniform {
                return player;
            }
        }
        // anti-diagonal
        let player = self.board[BOARD_SIZE - 1];
        proof {
            assert(player == cell_at(s, 0, BOARD_SIZE - 1));
        }
        if player != Cell::Empty {
            let mut uniform = true;
            let mut i: usize = 1;
            while i < BOARD_SIZE
                invariant
                    1 <= i <= BOARD_SIZE,
                    uniform == (forall|k: int|
                        0 <= k < i ==> #[trigger] cell_at(s, k, BOARD_SIZE - 1 - k) == cell_at(
                            s,
                            0,
                            BOARD_SIZE - 1,
                        )),
                decreases BOARD_SIZE - i,
            {
                let cur = self.board[i * BOARD_SIZE + (BOARD_SIZE - 1 - i)];
                proof {
                    assert(cur == cell_at(s, i as int, BOARD_SIZE - 1 - i));
                }
                if cur != player {
                    uniform = false;
                }
                i += 1;
            }
            if uniform {
                return player;
            }
        }
        Cell::Empty
    }
}

} // verus!
