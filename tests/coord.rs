use chess_tui::{Coord, CoordEvent};
use pleco::{File, Player, Rank, SQ};

#[test]
fn test_new() {
    let coord = Coord::new(4, 3, true);
    assert_eq!(coord.row, 3);
    assert_eq!(coord.col, 4);
    assert_eq!(coord.active, true);
}

#[test]
fn test_handle_event() {
    let mut coord = Coord::new(4, 3, true);
    coord.handle_event(CoordEvent::UP);
    assert_eq!(coord.row, 2);
    assert_eq!(coord.col, 4);

    coord.handle_event(CoordEvent::DOWN);
    assert_eq!(coord.row, 3);
    assert_eq!(coord.col, 4);

    coord.handle_event(CoordEvent::LEFT);
    assert_eq!(coord.row, 3);
    assert_eq!(coord.col, 3);

    coord.handle_event(CoordEvent::RIGHT);
    assert_eq!(coord.row, 3);
    assert_eq!(coord.col, 4);
}

#[test]
fn test_move_to() {
    let mut coord = Coord::new(6, 5, false);
    coord.move_to(3, 4);
    assert_eq!(coord.row, 3);
    assert_eq!(coord.col, 4);
}

#[test]
fn test_move_by() {
    let mut coord = Coord::new(6, 5, false);
    assert_eq!(coord.active, false);
    coord.move_by(3, 4, i8::MAX, 0);
    assert_eq!(coord.row, 8);
    assert_eq!(coord.col, 10);
}

#[test]
fn test_toggle_active() {
    let mut coord = Coord::new(6, 5, true);
    coord.toggle_active();
    assert_eq!(coord.active, false);
    coord.toggle_active();
    assert_eq!(coord.active, true);
}

#[test]
fn test_to_square() {
    let coord = Coord::new(6, 5, true);
    assert_eq!(coord.to_square(Player::White), SQ::make(File::G, Rank::R3));
    assert_eq!(coord.to_square(Player::Black), SQ::make(File::G, Rank::R6));
}

#[test]
fn test_is_on() {
    let coord = Coord::new(6, 5, true);
    assert!(coord.is_on(5, 6));
    assert!(!coord.is_on(5, 7));
    assert!(!coord.is_on(6, 6));
}

#[test]
fn test_is_valid() {
    assert!(Coord::new(0, 0, true).is_valid());
    assert!(Coord::new(7, 7, false).is_valid());
    assert!(!Coord::new(8, 0, true).is_valid());
    assert!(!Coord::new(0, 8, false).is_valid());
}

#[test]
fn test_display() {
    let coord = Coord::new(3, 2, true);
    assert_eq!(coord.to_string(), "3 2");
}

#[test]
fn display_of_negative_coordinate() {
    assert_eq!(Coord::new(-3, 12, true).to_string(), "-3 12");
}

#[test]
fn default_is_bottom_left_and_active() {
    let coord = Coord::default();
    assert_eq!((coord.row, coord.col, coord.active), (7, 0, true));
}

#[test]
fn movement_clamps_at_every_edge() {
    let mut coord = Coord::new(0, 0, true);
    for _ in 0..20 {
        coord.handle_event(CoordEvent::UP);
        coord.handle_event(CoordEvent::LEFT);
        assert!(coord.is_valid());
    }
    assert_eq!((coord.row, coord.col), (0, 0));
    for _ in 0..20 {
        coord.handle_event(CoordEvent::DOWN);
        coord.handle_event(CoordEvent::RIGHT);
        assert!(coord.is_valid());
    }
    assert_eq!((coord.row, coord.col), (7, 7));
}

#[test]
fn move_by_saturates_before_clamping() {
    let mut coord = Coord::new(100, 120, true);
    coord.move_by(100, 100, i8::MAX, i8::MIN);
    assert_eq!((coord.row, coord.col), (127, 127));
    coord.move_by(-128, -128, 5, 2);
    assert_eq!((coord.row, coord.col), (2, 2));
}

#[test]
fn move_by_min_wins_over_max() {
    let mut coord = Coord::new(4, 4, true);
    coord.move_by(0, 0, 1, 3);
    assert_eq!((coord.row, coord.col), (3, 3));
}
