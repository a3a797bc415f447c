use tictacrustle::grid;
use tictacrustle::Board;
use tictacrustle::Square;

#[test]
fn test_get_row() {
    let board = Board::default();
    assert_eq!(board.get_row(1), [&Square::default(); 3]);
    assert_eq!(board.get_row(2), [&Square::default(); 3]);
    assert_eq!(board.get_row(3), [&Square::default(); 3]);
}

#[test]
fn test_get_column() {
    let board = Board::default();
    assert_eq!(board.get_column(1), [&Square::default(); 3]);
    assert_eq!(board.get_column(2), [&Square::default(); 3]);
    assert_eq!(board.get_column(3), [&Square::default(); 3]);
}

#[test]
fn test_get_diagonal() {
    let board = Board::default();
    assert_eq!(board.get_diagonal("l"), [&Square::default(); 3]);
    assert_eq!(board.get_diagonal("r"), [&Square::default(); 3]);
}

#[test]
fn board_test_get_row() {
    let board = grid::Board::new();
    assert_eq!(
        board.get_row(0),
        [grid::Square::new(), grid::Square::new(), grid::Square::new()]
    );
    assert_eq!(
        board.get_row(1),
        [grid::Square::new(), grid::Square::new(), grid::Square::new()]
    );
    assert_eq!(
        board.get_row(2),
        [grid::Square::new(), grid::Square::new(), grid::Square::new()]
    );
}

#[test]
fn board_test_get_column() {
    let board = grid::Board::new();
    assert_eq!(
        board.get_column(0),
        [grid::Square::new(), grid::Square::new(), grid::Square::new()]
    );
    assert_eq!(
        board.get_column(1),
        [grid::Square::new(), grid::Square::new(), grid::Square::new()]
    );
    assert_eq!(
        board.get_column(2),
        [grid::Square::new(), grid::Square::new(), grid::Square::new()]
    );
}

#[test]
fn board_test_get_diagonal() {
    let board = grid::Board::new();
    assert_eq!(
        board.get_diagonal(0),
        [grid::Square::new(), grid::Square::new(), grid::Square::new()]
    );
    assert_eq!(
        board.get_diagonal(1),
        [grid::Square::new(), grid::Square::new(), grid::Square::new()]
    );
}

#[test]
fn board_get_square_mut_marks_one_slot() {
    let mut board = Board::new();
    board.get_square_mut(2, 2).set_x();
    assert!(board.get_square(2, 2).is_x());
    assert!(board.get_square(1, 1).is_empty());
    assert!(board.get_square(3, 3).is_empty());
}

#[test]
fn board_render_empty() {
    let board = Board::new();
    assert_eq!(
        board.render(),
        "   |   |   \n-----------\n   |   |   \n-----------\n   |   |   "
    );
}

#[test]
fn board_render_marked() {
    let mut board = Board::new();
    board.get_square_mut(2, 2).set_x();
    board.get_square_mut(1, 1).set_o();
    assert_eq!(
        board.render(),
        " O |   |   \n-----------\n   | X |   \n-----------\n   |   |   "
    );
}

#[test]
fn grid_board_render() {
    let board = grid::Board::new();
    assert_eq!(
        board.render(),
        "   |   |   \n-----------\n   |   |   \n-----------\n   |   |   \n"
    );
}

#[test]
fn grid_board_default_is_empty() {
    let board = grid::Board::default();
    assert!(board.get_square(0, 0).is_empty());
    assert!(board.get_square(2, 2).is_empty());
    assert_eq!(board, grid::Board::new());
}
