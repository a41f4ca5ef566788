use chess_tui::{
    classify, handle_key_event, handle_resize_event, moves_from_square, App, Cell, CellColor,
    Command, Coord, CoordEvent, Event, GameBoard, KeyCode, KeyInput, Log, LogEntry, PromotionPiece,
    TerminalTooSmall,
};
use pleco::{BitMove, PieceType, Player, SQ};

fn key(code: KeyCode) -> KeyInput {
    KeyInput { code, ctrl: false, press: true }
}

fn press(app: &mut App, code: KeyCode) {
    handle_key_event(key(code), app);
}

fn goto(app: &mut App, row: i8, col: i8) {
    while app.cursor_coord.row > row {
        press(app, KeyCode::Up);
    }
    while app.cursor_coord.row < row {
        press(app, KeyCode::Down);
    }
    while app.cursor_coord.col > col {
        press(app, KeyCode::Left);
    }
    while app.cursor_coord.col < col {
        press(app, KeyCode::Right);
    }
}

/// Plays from (row, col) to (row, col) in screen coordinates, White at the bottom.
fn play(app: &mut App, from: (i8, i8), to: (i8, i8)) {
    goto(app, from.0, from.1);
    press(app, KeyCode::Enter);
    goto(app, to.0, to.1);
    press(app, KeyCode::Enter);
}

fn last_move(app: &App) -> BitMove {
    BitMove::new(app.log.last().unwrap().mv)
}

#[test]
fn new_session_state() {
    let app = App::new();
    assert_eq!((app.cursor_coord.row, app.cursor_coord.col, app.cursor_coord.active), (7, 0, true));
    assert!(!app.selected_coord.active);
    assert!(app.moves_from_selected_coord.is_empty());
    assert_eq!(app.promotion_piece, PromotionPiece::Queen);
    assert!(app.log.is_empty());
    assert!(!app.block_inputs);
    assert!(app.is_running());
    assert_eq!(app.board.moves_played(), 0);
}

#[test]
fn confirm_at_home_square_caches_its_moves() {
    let mut app = App::default();
    press(&mut app, KeyCode::Enter);
    assert!(app.selected_coord.active);
    assert_eq!((app.selected_coord.row, app.selected_coord.col), (7, 0));
    let expected = moves_from_square(SQ::A1, &GameBoard::new());
    assert_eq!(app.moves_from_selected_coord, expected);
    assert_eq!(app.board.moves_played(), 0);
}

#[test]
fn confirm_on_a_pawn_caches_its_two_moves() {
    let mut app = App::new();
    press(&mut app, KeyCode::Up);
    press(&mut app, KeyCode::Char(' '));
    assert!(app.selected_coord.active);
    assert_eq!(app.moves_from_selected_coord.len(), 2);
    assert_eq!(app.board.moves_played(), 0);
}

#[test]
fn confirm_on_destination_commits_one_move() {
    let mut app = App::new();
    play(&mut app, (6, 4), (4, 4));
    assert_eq!(app.board.moves_played(), 1);
    assert!(!app.selected_coord.active);
    assert!(app.moves_from_selected_coord.is_empty());
    assert_eq!(app.log.len(), 1);
    assert_eq!(app.log[0].mover, Player::White);
    let m = last_move(&app);
    assert_eq!((m.get_src(), m.get_dest()), (SQ::E2, SQ::E4));
    press(&mut app, KeyCode::Left);
    assert!(app.moves_from_selected_coord.is_empty());
    play(&mut app, (1, 4), (3, 4));
    assert_eq!(app.log[1].mover, Player::Black);
    assert_eq!(app.board.moves_played(), 2);
}

#[test]
fn confirm_on_selection_cancels() {
    let mut app = App::new();
    goto(&mut app, 6, 4);
    press(&mut app, KeyCode::Enter);
    press(&mut app, KeyCode::Enter);
    assert!(!app.selected_coord.active);
    assert!(app.moves_from_selected_coord.is_empty());
    assert_eq!(app.board.moves_played(), 0);
    assert!(app.log.is_empty());
}

#[test]
fn confirm_elsewhere_retargets() {
    let mut app = App::new();
    goto(&mut app, 6, 4);
    press(&mut app, KeyCode::Enter);
    goto(&mut app, 7, 6);
    press(&mut app, KeyCode::Enter);
    assert!(app.selected_coord.active);
    assert_eq!((app.selected_coord.row, app.selected_coord.col), (7, 6));
    assert_eq!(app.moves_from_selected_coord, moves_from_square(SQ::G1, &app.board));
    assert_eq!(app.moves_from_selected_coord.len(), 2);
    assert_eq!(app.board.moves_played(), 0);
}

fn reach_promotion(app: &mut App) {
    play(app, (6, 1), (4, 1)); // b2-b4
    play(app, (1, 0), (3, 0)); // a7-a5
    play(app, (4, 1), (3, 0)); // b4xa5
    play(app, (1, 7), (2, 7)); // h7-h6
    play(app, (3, 0), (2, 0)); // a5-a6
    play(app, (2, 7), (3, 7)); // h6-h5
    play(app, (2, 0), (1, 1)); // a6xb7
    play(app, (3, 7), (4, 7)); // h5-h4
}

#[test]
fn promotion_uses_knight_when_picked() {
    let mut app = App::new();
    reach_promotion(&mut app);
    press(&mut app, KeyCode::Char('4'));
    assert_eq!(app.promotion_piece, PromotionPiece::Knight);
    assert_eq!(app.board.moves_played(), 8);
    play(&mut app, (1, 1), (0, 0)); // b7xa8=N
    let m = last_move(&app);
    assert!(m.is_promo());
    assert!(m.is_capture());
    assert_eq!(m.promo_piece(), PieceType::N);
    assert_eq!((m.get_src(), m.get_dest()), (SQ::B7, SQ::A8));
    assert_eq!(app.board.moves_played(), 9);
}

#[test]
fn promotion_defaults_to_queen() {
    let mut app = App::new();
    reach_promotion(&mut app);
    play(&mut app, (1, 1), (0, 2)); // b7xc8=Q
    let m = last_move(&app);
    assert!(m.is_promo());
    assert_eq!(m.promo_piece(), PieceType::Q);
}

#[test]
fn promotion_pick_keys_set_each_piece() {
    let mut app = App::new();
    press(&mut app, KeyCode::Char('2'));
    assert_eq!(app.promotion_piece, PromotionPiece::Rook);
    press(&mut app, KeyCode::Char('3'));
    assert_eq!(app.promotion_piece, PromotionPiece::Bishop);
    press(&mut app, KeyCode::Char('4'));
    assert_eq!(app.promotion_piece, PromotionPiece::Knight);
    press(&mut app, KeyCode::Char('1'));
    assert_eq!(app.promotion_piece, PromotionPiece::Queen);
    assert_eq!(app.board.moves_played(), 0);
}

fn fools_mate(app: &mut App) {
    play(app, (6, 5), (5, 5)); // f2-f3
    play(app, (1, 4), (3, 4)); // e7-e5
    play(app, (6, 6), (4, 6)); // g2-g4
    play(app, (0, 3), (4, 7)); // Qd8-h4#
}

#[test]
fn checkmate_blocks_inputs_until_reset() {
    let mut app = App::new();
    fools_mate(&mut app);
    assert!(app.board.checkmate());
    assert!(app.block_inputs);
    assert!(!app.cursor_coord.active);
    assert!(!app.selected_coord.active);
    let (row, col) = (app.cursor_coord.row, app.cursor_coord.col);
    press(&mut app, KeyCode::Down);
    press(&mut app, KeyCode::Enter);
    press(&mut app, KeyCode::Char('3'));
    assert_eq!((app.cursor_coord.row, app.cursor_coord.col), (row, col));
    assert!(!app.selected_coord.active);
    assert_eq!(app.promotion_piece, PromotionPiece::Queen);
    assert_eq!(app.board.moves_played(), 4);
    press(&mut app, KeyCode::Char('r'));
    assert!(!app.block_inputs);
    assert_eq!(app.board.moves_played(), 0);
}

#[test]
fn reset_restores_home_and_empties_log() {
    let mut app = App::new();
    press(&mut app, KeyCode::Char('2'));
    play(&mut app, (6, 4), (4, 4));
    goto(&mut app, 1, 3);
    press(&mut app, KeyCode::Enter);
    assert!(app.selected_coord.active);
    press(&mut app, KeyCode::Char('r'));
    assert_eq!((app.cursor_coord.row, app.cursor_coord.col, app.cursor_coord.active), (7, 0, true));
    assert!(!app.selected_coord.active);
    assert!(app.log.is_empty());
    assert!(app.moves_from_selected_coord.is_empty());
    assert_eq!(app.board.moves_played(), 0);
    assert_eq!(app.promotion_piece, PromotionPiece::Rook);
}

#[test]
fn reset_after_checkmate_reactivates_cursor() {
    let mut app = App::new();
    fools_mate(&mut app);
    app.reset();
    assert_eq!((app.cursor_coord.row, app.cursor_coord.col, app.cursor_coord.active), (7, 0, true));
    assert!(app.log.is_empty());
}

#[test]
fn quit_keys_stop_the_loop() {
    for code in [KeyCode::Esc, KeyCode::Char('q')] {
        let mut app = App::new();
        press(&mut app, code);
        assert!(!app.is_running());
    }
    let mut app = App::new();
    handle_key_event(KeyInput { code: KeyCode::Char('c'), ctrl: true, press: true }, &mut app);
    assert!(!app.is_running());
    let mut app = App::new();
    handle_key_event(KeyInput { code: KeyCode::Char('C'), ctrl: true, press: true }, &mut app);
    assert!(!app.is_running());
    let mut app = App::new();
    press(&mut app, KeyCode::Char('c'));
    assert!(app.is_running());
}

#[test]
fn classification_of_keys() {
    assert_eq!(classify(key(KeyCode::Char('w')), false), Command::Move(CoordEvent::UP));
    assert_eq!(classify(key(KeyCode::Char('s')), false), Command::Move(CoordEvent::DOWN));
    assert_eq!(classify(key(KeyCode::Char('a')), false), Command::Move(CoordEvent::LEFT));
    assert_eq!(classify(key(KeyCode::Right), false), Command::Move(CoordEvent::RIGHT));
    assert_eq!(classify(key(KeyCode::Enter), false), Command::Confirm);
    assert_eq!(classify(key(KeyCode::Char('x')), false), Command::Ignore);
    assert_eq!(classify(key(KeyCode::Other), false), Command::Ignore);
    assert_eq!(classify(key(KeyCode::Enter), true), Command::Ignore);
    assert_eq!(classify(key(KeyCode::Char('r')), true), Command::Reset);
    assert_eq!(classify(key(KeyCode::Esc), true), Command::Quit);
}

#[test]
fn resize_sets_the_fit_flag() {
    let mut app = App::new();
    handle_resize_event(&mut app, 80, 24);
    assert!(app.terminal_too_small);
    handle_resize_event(&mut app, 106, 24);
    assert!(!app.terminal_too_small);
    handle_resize_event(&mut app, 106, 23);
    assert!(app.terminal_too_small);
}

#[test]
fn events_route_to_handlers() {
    let mut app = App::new();
    app.handle_events(Event::Resize(80, 24));
    assert!(app.terminal_too_small);
    app.handle_events(Event::Tick);
    app.handle_events(Event::Mouse);
    app.handle_events(Event::Key(KeyInput { code: KeyCode::Up, ctrl: false, press: false }));
    assert_eq!(app.cursor_coord.row, 7);
    app.handle_events(Event::Key(key(KeyCode::Up)));
    assert_eq!(app.cursor_coord.row, 6);
}

#[test]
fn terminal_size_marks() {
    let t = TerminalTooSmall::default();
    assert!(t.width_fits(106));
    assert!(!t.width_fits(105));
    assert!(t.height_fits(24));
    assert!(!t.height_fits(23));
}

#[test]
fn log_is_shown_newest_first() {
    let a = LogEntry { mv: 1, mover: Player::White };
    let b = LogEntry { mv: 2, mover: Player::Black };
    let log = Log { log: vec![a, b] };
    assert_eq!(log.newest_first(), vec![b, a]);
}

#[test]
fn cell_colours() {
    let board = GameBoard::new();
    let moves = moves_from_square(SQ::E2, &board);
    let selected = Coord::new(4, 6, true);
    let cursor = Coord::new(4, 4, true);
    let w = Player::White;
    assert_eq!(Cell::new(&moves, selected, cursor, w, 6, 4).color, CellColor::Selected);
    assert_eq!(Cell::new(&moves, selected, cursor, w, 4, 4).color, CellColor::TargetUnderCursor);
    assert_eq!(Cell::new(&moves, selected, cursor, w, 5, 4).color, CellColor::TargetDark);
    assert_eq!(Cell::new(&moves, selected, cursor, w, 0, 0).color, CellColor::Light);
    assert_eq!(Cell::new(&moves, selected, cursor, w, 0, 1).color, CellColor::Dark);
    assert_eq!(Cell::new(&moves, selected, selected, w, 6, 4).color, CellColor::SelectedUnderCursor);
    let idle = Coord::new(4, 6, false);
    assert_eq!(Cell::new(&moves, idle, cursor, w, 4, 4).color, CellColor::Cursor);
    assert_eq!(Cell::new(&moves, idle, Coord::new(4, 4, false), w, 4, 4).color, CellColor::Light);
    assert_eq!(Cell::new(&moves, selected, Coord::new(0, 3, true), w, 3, 0).color, CellColor::Cursor);
    assert_eq!(Cell::new(&moves, idle, cursor, w, 6, 4).square, SQ::E2);
}

#[test]
fn move_number_and_side_to_move_follow_the_game() {
    let mut app = App::new();
    assert_eq!(app.move_number(), 1);
    assert_eq!(app.side_to_move(), Player::White);
    play(&mut app, (6, 4), (4, 4));
    assert_eq!(app.move_number(), 2);
    assert_eq!(app.side_to_move(), Player::Black);
    assert_eq!(app.side_to_move(), app.board.engine().turn());
}
