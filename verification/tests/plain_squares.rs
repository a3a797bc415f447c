use tictacrustle::plain::Square;
use tictacrustle::SquareValue;

#[test]
fn test_new() {
    let square = Square::new();
    assert_eq!(square.get_value(), SquareValue::Empty);
}

#[test]
fn test_is_empty() {
    let square = Square::new();
    assert_eq!(square.is_empty(), true);
}

#[test]
fn test_is_x() {
    let mut square = Square::new();
    square.set_x();
    assert_eq!(square.is_x(), true);
}

#[test]
fn test_is_o() {
    let mut square = Square::new();
    square.set_o();
    assert_eq!(square.is_o(), true);
}

#[test]
fn test_get_value() {
    let mut square = Square::new();
    square.set_x();
    assert_eq!(square.get_value(), SquareValue::X);
}

#[test]
fn test_set_value() {
    let mut square = Square::new();
    square.set_value(SquareValue::X);
    assert_eq!(square.get_value(), SquareValue::X);
}

#[test]
fn test_set_x() {
    let mut square = Square::new();
    square.set_x();
    assert_eq!(square.get_value(), SquareValue::X);
}

#[test]
fn test_set_o() {
    let mut square = Square::new();
    square.set_o();
    assert_eq!(square.get_value(), SquareValue::O);
}

#[test]
fn test_set_empty() {
    let mut square = Square::new();
    square.set_x();
    square.set_empty();
    assert_eq!(square.get_value(), SquareValue::Empty);
}

#[test]
fn plain_square_cleared_and_reused() {
    let mut square = Square::new();
    square.set_value(SquareValue::X);
    assert_eq!(square.get_value(), SquareValue::X);
    square.set_empty();
    assert!(square.is_empty());
    square.set_value(SquareValue::O);
    assert_eq!(square.get_value(), SquareValue::O);
}

#[test]
fn plain_square_default_is_empty() {
    let square = Square::default();
    assert_eq!(square.get_value(), SquareValue::Empty);
}

#[test]
fn plain_square_label() {
    let mut square = Square::new();
    assert_eq!(square.label(), "   ");
    square.set_o();
    assert_eq!(square.label(), " O ");
}
