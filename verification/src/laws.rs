//! Proofs of the board-level laws: which grids have a winner, and
//! which mark wins.

use vstd::prelude::*;

use crate::board::BOARD_SIZE;
use crate::board::anti_diag_won;
use crate::board::cell_at;
use crate::board::col_won;
use crate::board::diag_won;
use crate::board::first_col_winner_from;
use crate::board::first_row_winner_from;
use crate::board::grid_wf;
use crate::board::row_won;
use crate::board::winner_of;
use crate::cell::Cell;

verus! {

/// No row from `r` on is a winning line, so the row scan from `r`
/// finds nothing.
proof fn lemma_no_row_winner_from(s: Seq<Cell>, r: int)
    requires
        forall|r2: int| r <= r2 < BOARD_SIZE ==> !row_won(s, r2),
    ensures
        first_row_winner_from(s, r) == Cell::Empty,
    decreases BOARD_SIZE - r,
{
    if 0 <= r < BOARD_SIZE {
        lemma_no_row_winner_from(s, r + 1);
    }
}

/// No column from `c` on is a winning line, so the column scan from
/// `c` finds nothing.
proof fn lemma_no_col_winner_from(s: Seq<Cell>, c: int)
    requires
        forall|c2: int| c <= c2 < BOARD_SIZE ==> !col_won(s, c2),
    ensures
        first_col_winner_from(s, c) == Cell::Empty,
    decreases BOARD_SIZE - c,
{
    if 0 <= c < BOARD_SIZE {
        lemma_no_col_winner_from(s, c + 1);
    }
}

/// The row scan from `r0` skips the non-winning rows before the
/// winning row `r` and reports that row's mark.
proof fn lemma_first_row_winner(s: Seq<Cell>, r0: int, r: int)
    requires
        0 <= r0 <= r < BOARD_SIZE,
        forall|r2: int| r0 <= r2 < r ==> !row_won(s, r2),
        row_won(s, r),
    ensures
        first_row_winner_from(s, r0) == cell_at(s, r, 0),
    decreases r - r0,
{
    if r0 < r {
        lemma_first_row_winner(s, r0 + 1, r);
    }
}

/// The column scan from `c0` skips the non-winning columns before
/// the winning column `c` and reports that column's mark.
proof fn lemma_first_col_winner(s: Seq<Cell>, c0: int, c: int)
    requires
        0 <= c0 <= c < BOARD_SIZE,
        forall|c2: int| c0 <= c2 < c ==> !col_won(s, c2),
        col_won(s, c),
    ensures
        first_col_winner_from(s, c0) == cell_at(s, 0, c),
    decreases c - c0,
{
    if c0 < c {
        lemma_first_col_winner(s, c0 + 1, c);
    }
}

/// A board with no uniform non-empty row, column, or diagonal has no
/// winner.
pub proof fn lemma_no_line_no_winner(s: Seq<Cell>)
    requires
        grid_wf(s),
        forall|r: int| 0 <= r < BOARD_SIZE ==> !row_won(s, r),
        forall|c: int| 0 <= c < BOARD_SIZE ==> !col_won(s, c),
        !diag_won(s),
        !anti_diag_won(s),
    ensures
        winner_of(s) == Cell::Empty,
{
    lemma_no_row_winner_from(s, 0);
    lemma_no_col_winner_from(s, 0);
}

/// An all-empty board has no winner.
pub proof fn lemma_empty_board_no_winner(s: Seq<Cell>)
    requires
        grid_wf(s),
        forall|i: int| 0 <= i < s.len() ==> s[i] == Cell::Empty,
    ensures
        winner_of(s) == Cell::Empty,
{
    assert forall|r: int| 0 <= r < BOARD_SIZE implies !row_won(s, r) by {
        assert(cell_at(s, r, 0) == Cell::Empty);
    }
    assert forall|c: int| 0 <= c < BOARD_SIZE implies !col_won(s, c) by {
        assert(cell_at(s, 0, c) == Cell::Empty);
    }
    assert(cell_at(s, 0, 0) == Cell::Empty);
    assert(cell_at(s, 0, BOARD_SIZE - 1) == Cell::Empty);
    lemma_no_line_no_winner(s);
}

/// A board whose row `r` holds the non-empty mark `m` in every cell,
/// and `Empty` everywhere else, is won by `m`.
pub proof fn lemma_row_line_wins(s: Seq<Cell>, r: int, m: Cell)
    requires
        grid_wf(s),
        0 <= r < BOARD_SIZE,
        m != Cell::Empty,
        forall|r2: int, c: int|
            0 <= r2 < BOARD_SIZE && 0 <= c < BOARD_SIZE ==> #[trigger] cell_at(s, r2, c) == (
            if r2 == r {
                m
            } else {
                Cell::Empty
            }),
    ensures
        winner_of(s) == m,
{
    assert(row_won(s, r));
    assert forall|r2: int| 0 <= r2 < r implies !row_won(s, r2) by {
        assert(cell_at(s, r2, 0) == Cell::Empty);
    }
    lemma_first_row_winner(s, 0, r);
}

/// A board whose column `c` holds the non-empty mark `m` in every
/// cell, and `Empty` everywhere else, is won by `m`.
pub proof fn lemma_col_line_wins(s: Seq<Cell>, c: int, m: Cell)
    requires
        grid_wf(s),
        0 <= c < BOARD_SIZE,
        m != Cell::Empty,
        forall|r: int, c2: int|
            0 <= r < BOARD_SIZE && 0 <= c2 < BOARD_SIZE ==> #[trigger] cell_at(s, r, c2) == (
            if c2 == c {
                m
            } else {
                Cell::Empty
            }),
    ensures
        winner_of(s) == m,
{
    assert forall|r: int| 0 <= r < BOARD_SIZE implies !row_won(s, r) by {
        if c == 0 {
            assert(cell_at(s, r, 1) == Cell::Empty);
        } else {
            assert(cell_at(s, r, 0) == Cell::Empty);
        }
    }
    lemma_no_row_winner_from(s, 0);
    assert(col_won(s, c));
    assert forall|c2: int| 0 <= c2 < c implies !col_won(s, c2) by {
        assert(cell_at(s, 0, c2) == Cell::Empty);
    }
    lemma_first_col_winner(s, 0, c);
}

/// A board whose main diagonal holds the non-empty mark `m` in every
/// cell, and `Empty` everywhere else, is won by `m`.
pub proof fn lemma_diag_line_wins(s: Seq<Cell>, m: Cell)
    requires
        grid_wf(s),
        m != Cell::Empty,
        forall|r: int, c: int|
            0 <= r < BOARD_SIZE && 0 <= c < BOARD_SIZE ==> #[trigger] cell_at(s, r, c) == (
            if r == c {
                m
            } else {
                Cell::Empty
            }),
    ensures
        winner_of(s) == m,
{
    assert forall|r: int| 0 <= r < BOARD_SIZE implies !row_won(s, r) by {
        if r == 0 {
            assert(cell_at(s, 0, 1) == Cell::Empty);
        } else {
            assert(cell_at(s, r, 0) == Cell::Empty);
        }
    }
    assert forall|c: int| 0 <= c < BOARD_SIZE implies !col_won(s, c) by {
        if c == 0 {
            assert(cell_at(s, 1, 0) == Cell::Empty);
        } else {
            assert(cell_at(s, 0, c) == Cell::Empty);
        }
    }
    lemma_no_row_winner_from(s, 0);
    lemma_no_col_winner_from(s, 0);
    assert(diag_won(s));
}

/// A board whose anti-diagonal holds the non-empty mark `m` in every
/// cell, and `Empty` everywhere else, is won by `m`.
pub proof fn lemma_anti_diag_line_wins(s: Seq<Cell>, m: Cell)
    requires
        grid_wf(s),
        m != Cell::Empty,
        forall|r: int, c: int|
            0 <= r < BOARD_SIZE && 0 <= c < BOARD_SIZE ==> #[trigger] cell_at(s, r, c) == (
            if r + c == BOARD_SIZE - 1 {
                m
            } else {
                Cell::Empty
            }),
    ensures
        winner_of(s) == m,
{
    assert forall|r: int| 0 <= r < BOARD_SIZE implies !row_won(s, r) by {
        if r == BOARD_SIZE - 1 {
            assert(cell_at(s, r, 1) == Cell::Empty);
        } else {
            assert(cell_at(s, r, 0) == Cell::Empty);
        }
    }
    assert forall|c: int| 0 <= c < BOARD_SIZE implies !col_won(s, c) by {
        if c == BOARD_SIZE - 1 {
            assert(cell_at(s, 1, c) == Cell::Empty);
        } else {
            assert(cell_at(s, 0, c) == Cell::Empty);
        }
    }
    lemma_no_row_winner_from(s, 0);
    lemma_no_col_winner_from(s, 0);
    assert(cell_at(s, 0, 0) == Cell::Empty);
    assert(!diag_won(s));
    assert(anti_diag_won(s));
}

} // verus!
