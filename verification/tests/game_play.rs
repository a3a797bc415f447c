use tictacrustle::grid;
use tictacrustle::Game;
use tictacrustle::GameError;
use tictacrustle::Player;
use tictacrustle::Square;
use tictacrustle::SquareValue;
use tictacrustle::Symbol;

#[test]
fn game_new_has_empty_board_and_no_winner() {
    let game = Game::new();
    assert!(game.winner().is_none());
    assert!(game.board().get_square(2, 2).is_empty());
    assert_eq!(
        game.board().render(),
        "   |   |   \n-----------\n   |   |   \n-----------\n   |   |   "
    );
}

#[test]
fn game_play_marks_the_centre() {
    let mut game = Game::new();
    let played = game.play();
    assert!(played.is_ok());
    assert!(game.board().get_square(2, 2).is_x());
    assert!(game.board().get_square(1, 1).is_empty());
}

#[test]
fn game_default_matches_new() {
    let game = Game::default();
    assert!(game.winner().is_none());
    assert!(game.board().get_square(1, 3).is_empty());
}

#[test]
fn player_new_x() {
    let player = Player::new("X");
    assert_eq!(player.symbol, Symbol::X);
}

#[test]
fn player_new_o() {
    let player = Player::new("O");
    assert_eq!(player.symbol, Symbol::O);
}

#[test]
fn player_label() {
    assert_eq!(Player::new("X").label(), "Player X");
    assert_eq!(Player::new("O").label(), "Player O");
}

#[test]
fn guarded_square_set_value_x() {
    let mut square = Square::new();
    square.set_value("X");
    assert_eq!(square.get_value(), &SquareValue::X);
    assert!(square.is_x());
    assert!(!square.is_o());
    assert!(!square.is_empty());
}

#[test]
fn guarded_square_set_value_o() {
    let mut square = Square::new();
    square.set_value("O");
    assert_eq!(square.get_value(), &SquareValue::O);
    assert!(square.is_o());
    assert!(!square.is_x());
}

#[test]
fn guarded_square_set_x_and_set_o() {
    let mut x_square = Square::new();
    x_square.set_x();
    assert!(x_square.is_x());
    let mut o_square = Square::new();
    o_square.set_o();
    assert!(o_square.is_o());
}

#[test]
fn guarded_square_label() {
    let mut square = Square::new();
    assert_eq!(square.label(), "   ");
    square.set_x();
    assert_eq!(square.label(), " X ");
}

#[test]
fn game_error_messages() {
    assert_eq!(GameError::SquareAlreadyPlayed.message(), "Square already played");
    assert_eq!(GameError::InvalidSquare.message(), "Invalid square");
    assert_eq!(GameError::GameAlreadyWon.message(), "Game already won");
    assert_eq!(GameError::SquareAlreadyX.message(), "Square already X");
    assert_eq!(GameError::SquareAlreadyO.message(), "Square already O");
    assert_eq!(GameError::SquareNotEmpty.message(), "Square not empty");
    assert_eq!(GameError::InvalidTriple.message(), "Invalid triple");
}

#[test]
fn grid_game_error_messages() {
    assert_eq!(
        grid::GameError::SquareAlreadyPlayed.message(),
        "Square already played"
    );
    assert_eq!(grid::GameError::InvalidSquare.message(), "Invalid square");
    assert_eq!(grid::GameError::GameAlreadyWon.message(), "Game already won");
}
