//! Interaction core of a terminal chess front-end: a clamped grid cursor, the
//! selection state machine that turns confirmations into committed moves, the
//! key classifier, the terminal-size gate and the board-cell colouring rules.
//! Chess rules themselves come from the `pleco` engine.
pub mod coord;
pub mod engine;
pub mod app;
pub mod cell;
pub mod handler;

pub use app::{App, Log, LogEntry};
pub use cell::{piece_to_char, square_to_string, Cell, CellColor};
pub use coord::{Coord, CoordEvent};
pub use handler::{
    classify, handle_key_event, handle_resize_event, Command, Event, KeyCode, KeyInput,
    TerminalTooSmall, MIN_HEIGHT, MIN_WIDTH,
};
pub use engine::{
    dest_in_moves, get_current_player, get_dest, get_file, get_rank, get_src, is_capture,
    is_game_over, is_promo, move_to_square, moves_from_square, GameBoard, PromotionPiece,
};
