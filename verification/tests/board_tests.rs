use tictactoe::board::TicTacToe;
use tictactoe::cell::Cell;
use tictactoe::cell::Cell::Empty;
use tictactoe::cell::Cell::O;
use tictactoe::cell::Cell::X;

fn board(cells: [Cell; 9]) -> TicTacToe {
    let mut v: Vec<Cell> = Vec::new();
    for c in cells {
        v.push(c);
    }
    TicTacToe::from_cells(v)
}

#[test]
fn test_full() {
    let b = board([X, X, X, O, X, O, X, Empty, O]);
    assert!(!b.full());
    let b = board([X, X, X, X, X, X, X, X, X]);
    assert!(b.full());
    let b = board([Empty; 9]);
    assert!(!b.full());
}

#[test]
fn test_winner() {
    // horizontal
    let b = board([X, Empty, X, X, X, X, Empty, Empty, Empty]);
    assert_eq!(b.winner(), X);
    let b = board([O, O, O, Empty, Empty, Empty, Empty, Empty, Empty]);
    assert_eq!(b.winner(), O);
    // vertical
    let b = board([X, O, X, X, Empty, X, X, O, Empty]);
    assert_eq!(b.winner(), X);
    let b = board([X, O, Empty, Empty, O, X, X, O, Empty]);
    assert_eq!(b.winner(), O);
    // diagonal \
    let b = board([X, O, O, O, X, O, O, O, X]);
    assert_eq!(b.winner(), X);
    let b = board([O, X, X, X, O, X, X, X, O]);
    assert_eq!(b.winner(), O);
    // diagonal /
    let b = board([O, O, X, O, X, O, X, O, X]);
    assert_eq!(b.winner(), X);
    let b = board([O, X, O, X, O, X, O, X, X]);
    assert_eq!(b.winner(), O);
    // no winner
    let b = board([X, O, X, X, O, X, O, X, O]);
    assert_eq!(b.winner(), Empty);
    let b = board([Empty; 9]);
    assert_eq!(b.winner(), Empty);
}

#[test]
fn test_full_detects_each_empty_cell() {
    for hole in 0..9 {
        let mut cells = [X; 9];
        cells[hole] = Empty;
        assert!(!board(cells).full());
    }
    assert!(board([O; 9]).full());
}

#[test]
fn test_new_board_is_empty_without_winner() {
    let b = TicTacToe::new();
    assert!(!b.full());
    assert_eq!(b.winner(), Empty);
    for row in 0..3 {
        for col in 0..3 {
            assert_eq!(b.get(row, col), Empty);
        }
    }
}

#[test]
fn test_each_row_wins() {
    for r in 0..3 {
        for mark in [X, O] {
            let mut cells = [Empty; 9];
            for c in 0..3 {
                cells[r * 3 + c] = mark;
            }
            assert_eq!(board(cells).winner(), mark);
        }
    }
}

#[test]
fn test_each_column_wins() {
    for c in 0..3 {
        for mark in [X, O] {
            let mut cells = [Empty; 9];
            for r in 0..3 {
                cells[r * 3 + c] = mark;
            }
            assert_eq!(board(cells).winner(), mark);
        }
    }
}

#[test]
fn test_main_diagonal_wins() {
    for mark in [X, O] {
        let mut cells = [Empty; 9];
        for i in 0..3 {
            cells[i * 3 + i] = mark;
        }
        assert_eq!(board(cells).winner(), mark);
    }
}

#[test]
fn test_anti_diagonal_wins() {
    for mark in [X, O] {
        let mut cells = [Empty; 9];
        for i in 0..3 {
            cells[i * 3 + (2 - i)] = mark;
        }
        assert_eq!(board(cells).winner(), mark);
    }
}

#[test]
fn test_draw_board_is_full_without_winner() {
    let b = board([X, O, X, X, O, X, O, X, O]);
    assert_eq!(b.winner(), Empty);
    assert!(b.full());
}

#[test]
fn test_opposite() {
    assert_eq!(X.opposite(), O);
    assert_eq!(O.opposite(), X);
    assert_eq!(Empty.opposite(), Empty);
}

#[test]
fn test_place_center_cell() {
    let mut b = TicTacToe::new();
    b.place(4, O);
    for row in 0..3 {
        for col in 0..3 {
            if row == 1 && col == 1 {
                assert_eq!(b.get(row, col), O);
            } else {
                assert_eq!(b.get(row, col), Empty);
            }
        }
    }
}

#[test]
fn test_place_overwrites_only_the_target() {
    let mut b = board([X, O, X, X, O, X, O, X, O]);
    b.place(0, O);
    assert_eq!(b.get(0, 0), O);
    assert_eq!(b.get(0, 1), O);
    assert_eq!(b.get(1, 0), X);
    assert_eq!(b.get(2, 2), O);
}

#[test]
fn test_glyphs() {
    assert_eq!(X.glyph(), "X");
    assert_eq!(O.glyph(), "O");
    assert_eq!(Empty.glyph(), " ");
}

#[test]
fn test_render_empty_board() {
    let b = TicTacToe::new();
    assert_eq!(b.render(), " | | \n-+-+-\n | | \n-+-+-\n | | \n");
}

#[test]
fn test_render_marked_board() {
    let b = board([X, O, X, X, O, X, O, X, O]);
    assert_eq!(b.render(), "X|O|X\n-+-+-\nX|O|X\n-+-+-\nO|X|O\n");
}
