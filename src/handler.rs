use vstd::prelude::*;

use crate::app::{
    confirm_commits, confirm_post, lemma_with_promotion_piece, reset_post,
    square_at, App,
};
use crate::coord::{stepped, CoordEvent};
use crate::engine::{
    is_first_to, move_is_promo, promoted_piece, with_promotion, PromotionPiece,
};

verus! {

/// Narrowest terminal, in columns, that shows the board.
pub const MIN_WIDTH: u16 = 106;

/// Lowest terminal, in rows, that shows the board.
pub const MIN_HEIGHT: u16 = 24;

/// The key of a key event.
#[derive(Debug, Clone, Copy, PartialEq, Eq, Structural)]
pub enum KeyCode {
    Char(char),
    Up,
    Down,
    Left,
    Right,
    Enter,
    Esc,
    /// Any key the interaction does not use.
    Other,
}

/// A key event: the key, whether Control is the only modifier held, and whether
/// the key went down (rather than up or repeating).
#[derive(Debug, Clone, Copy, PartialEq, Eq, Structural)]
pub struct KeyInput {
    pub code: KeyCode,
    pub ctrl: bool,
    pub press: bool,
}

/// A terminal event, as the main loop receives it.
#[derive(Debug, Clone, Copy, PartialEq, Eq, Structural)]
pub enum Event {
    /// The timer fired.
    Tick,
    /// A key event.
    Key(KeyInput),
    /// A pointer event; ignored.
    Mouse,
    /// The terminal now has this width and height.
    Resize(u16, u16),
}

/// What a key asks of the interaction.
#[derive(Debug, Clone, Copy, PartialEq, Eq, Structural)]
pub enum Command {
    Reset,
    Quit,
    Move(CoordEvent),
    Confirm,
    Promote(PromotionPiece),
    Ignore,
}

/// The command of a key: reset and quit first, then nothing while inputs are
/// blocked, then movement, confirmation and promotion choice.
pub open spec fn command_of(key: KeyInput, blocked: bool) -> Command {
    match key.code {
        KeyCode::Char('r') => Command::Reset,
        KeyCode::Esc | KeyCode::Char('q') => Command::Quit,
        KeyCode::Char('c') if key.ctrl => Command::Quit,
        KeyCode::Char('C') if key.ctrl => Command::Quit,
        _ => if blocked {
            Command::Ignore
        } else {
            match key.code {
                KeyCode::Up | KeyCode::Char('w') => Command::Move(CoordEvent::UP),
                KeyCode::Down | KeyCode::Char('s') => Command::Move(CoordEvent::DOWN),
                KeyCode::Left | KeyCode::Char('a') => Command::Move(CoordEvent::LEFT),
                KeyCode::Right | KeyCode::Char('d') => Command::Move(CoordEvent::RIGHT),
                KeyCode::Enter | KeyCode::Char(' ') => Command::Confirm,
                KeyCode::Char('1') => Command::Promote(PromotionPiece::Queen),
                KeyCode::Char('2') => Command::Promote(PromotionPiece::Rook),
                KeyCode::Char('3') => Command::Promote(PromotionPiece::Bishop),
                KeyCode::Char('4') => Command::Promote(PromotionPiece::Knight),
                _ => Command::Ignore,
            }
        },
    }
}

/// The command of a key, given whether inputs are blocked.
pub fn classify(key: KeyInput, blocked: bool) -> (r: Command)
    ensures
        r == command_of(key, blocked),
{
    match key.code {
        KeyCode::Char('r') => Command::Reset,
        KeyCode::Esc | KeyCode::Char('q') => Command::Quit,
        KeyCode::Char('c') if key.ctrl => Command::Quit,
        KeyCode::Char('C') if key.ctrl => Command::Quit,
        _ => if blocked {
            Command::Ignore
        } else {
            match key.code {
                KeyCode::Up | KeyCode::Char('w') => Command::Move(CoordEvent::UP),
                KeyCode::Down | KeyCode::Char('s') => Command::Move(CoordEvent::DOWN),
                KeyCode::Left | KeyCode::Char('a') => Command::Move(CoordEvent::LEFT),
                KeyCode::Right | KeyCode::Char('d') => Command::Move(CoordEvent::RIGHT),
                KeyCode::Enter | KeyCode::Char(' ') => Command::Confirm,
                KeyCode::Char('1') => Command::Promote(PromotionPiece::Queen),
                KeyCode::Char('2') => Command::Promote(PromotionPiece::Rook),
                KeyCode::Char('3') => Command::Promote(PromotionPiece::Bishop),
                KeyCode::Char('4') => Command::Promote(PromotionPiece::Knight),
                _ => Command::Ignore,
            }
        },
    }
}

/// The state after command `c` from state `o`.
pub open spec fn command_post(o: App, c: Command, f: App) -> bool {
    match c {
        Command::Reset => reset_post(o, f),
        Command::Quit => f == App { running: false, ..o },
        Command::Move(e) => f == App { cursor_coord: stepped(o.cursor_coord, e), ..o },
        Command::Confirm => confirm_post(o, f),
        Command::Promote(p) => f == App { promotion_piece: p, ..o },
        Command::Ignore => f == o,
    }
}

/// Whether a terminal of this size is too small to show the board.
pub open spec fn too_small(width: int, height: int) -> bool {
    width < MIN_WIDTH || height < MIN_HEIGHT
}

/// The placeholder shown instead of the board when the terminal is too small;
/// it marks each dimension as large enough or not.
#[derive(Debug, Default)]
pub struct TerminalTooSmall {}

impl TerminalTooSmall {
    /// Whether the width is enough to show the board.
    pub fn width_fits(&self, width: u16) -> (r: bool)
        ensures
            r == (width >= MIN_WIDTH),
    {
        width >= MIN_WIDTH
    }

    /// Whether the height is enough to show the board.
    pub fn height_fits(&self, height: u16) -> (r: bool)
        ensures
            r == (height >= MIN_HEIGHT),
    {
        height >= MIN_HEIGHT
    }
}

/// Carries out the command of a key.
pub fn handle_key_event(key_event: KeyInput, app: &mut App)
    requires
        old(app).wf(),
    ensures
        final(app).wf(),
        command_post(*old(app), command_of(key_event, old(app).block_inputs), *final(app)),
{
    match classify(key_event, app.block_inputs) {
        Command::Reset => app.reset(),
        Command::Quit => app.quit(),
        Command::Move(e) => app.cursor_coord.handle_event(e),
        Command::Confirm => app.update_selected_coord(),
        Command::Promote(p) => app.set_promotion_piece(p),
        Command::Ignore => {},
    }
}

/// Records the terminal's new size in the too-small flag.
pub fn handle_resize_event(app: &mut App, width: u16, height: u16)
    ensures
        *final(app) == (App { terminal_too_small: too_small(width as int, height as int), ..*old(app) }),
{
    app.terminal_too_small = width < MIN_WIDTH || height < MIN_HEIGHT;
}

/// The state after event `e` from state `o`.
pub open spec fn event_post(o: App, e: Event, f: App) -> bool {
    match e {
        Event::Key(k) => if k.press {
            command_post(o, command_of(k, o.block_inputs), f)
        } else {
            f == o
        },
        Event::Resize(w, h) => f == App { terminal_too_small: too_small(w as int, h as int), ..o },
        _ => f == o,
    }
}

impl App {
    /// Updates the state from one event of the main loop: key presses become
    /// commands, resizes set the size flag, ticks and pointer events do nothing.
    pub fn handle_events(&mut self, event: Event)
        requires
            old(self).wf(),
        ensures
            final(self).wf(),
            event_post(*old(self), event, *final(self)),
    {
        match event {
            Event::Tick => self.tick(),
            Event::Key(key_event) => if key_event.press {
                handle_key_event(key_event, self)
            },
            Event::Resize(width, height) => handle_resize_event(self, width, height),
            Event::Mouse => {},
        }
    }
}

/// While inputs are blocked, every key but reset and quit leaves the state
/// exactly as it was; reset always unblocks.
pub proof fn lemma_blocked_ignores_commands(o: App, key: KeyInput, f: App)
    requires
        o.wf(),
        o.block_inputs,
        command_post(o, command_of(key, o.block_inputs), f),
    ensures
        command_of(key, o.block_inputs) != Command::Reset && command_of(key, o.block_inputs)
            != Command::Quit ==> f == o,
        command_of(key, o.block_inputs) == Command::Reset ==> !f.block_inputs,
{
}

/// With nothing selected the cache is empty, and it stays empty under every
/// command but a confirmation.
pub proof fn lemma_idle_cache_stays_empty(o: App, c: Command, f: App)
    requires
        o.wf(),
        !o.selected_coord.active,
        c != Command::Confirm,
        command_post(o, c, f),
    ensures
        o.moves_from_selected_coord@.len() == 0,
        f.moves_from_selected_coord@.len() == 0,
        !f.selected_coord.active,
{
}

/// Choosing a promotion piece leaves the board alone, and a promotion committed
/// afterwards promotes to exactly that piece.
pub proof fn lemma_promotion_uses_last_pick(o: App, p: PromotionPiece, mid: App, f: App)
    requires
        o.wf(),
        command_post(o, Command::Promote(p), mid),
        confirm_commits(mid),
        confirm_post(mid, f),
        move_is_promo(f.board@.last()),
    ensures
        mid.board == o.board,
        promoted_piece(f.board@.last()) == p,
{
    let m = f.board@.last();
    let sq = square_at(mid.cursor_coord, mid.main_player);
    let cached = mid.moves_from_selected_coord@;
    let i = choose|i: int|
        is_first_to(cached, sq, i) && m == (if move_is_promo(cached[i]) {
            with_promotion(cached[i], p)
        } else {
            cached[i]
        });
    lemma_with_promotion_piece(cached[i], p);
}

} // verus!
