use vstd::prelude::*;

use crate::coord::{on_board, Coord};
use crate::engine::{
    dest_in_moves, from_square, game_over_after, get_current_player, get_dest, get_src,
    has_dest, is_capture, is_first_to, is_game_over, is_promo, legal_after,
    lemma_from_square_members, move_dest, move_is_capture, move_is_promo, move_src,
    move_to_square, moves_from_square, moves_leave_square, mover_of, promo_code,
    promoted_piece, promotion_bits, promotion_move, promotions_complete, square_of,
    with_promotion, GameBoard, PromotionPiece, MAX_PLAYED,
};

verus! {

/// One committed move in the move log, with the player who made it.
#[derive(Debug, Clone, Copy, PartialEq)]
pub struct LogEntry {
    /// The move, in the engine's encoding.
    pub mv: u16,
    /// The player who made it.
    pub mover: pleco::Player,
}

/// The whole interaction state: cursor, selection, the legal moves cached for
/// the selection, the promotion choice, the board, the move log and the flags.
#[derive(Debug)]
pub struct App {
    /// Legal moves from the selected square; empty while nothing is selected.
    pub moves_from_selected_coord: Vec<u16>,
    /// The piece a pawn promotes to.
    pub promotion_piece: PromotionPiece,
    /// Whether the terminal is too small to show the board.
    pub terminal_too_small: bool,
    /// The selected coordinate; active while a square is selected.
    pub selected_coord: Coord,
    /// The cursor coordinate.
    pub cursor_coord: Coord,
    /// The player from whose side the board is viewed.
    pub main_player: pleco::Player,
    /// The board; it starts at the standard position and changes only by committed moves.
    pub board: GameBoard,
    /// Whether every command but reset and quit is ignored (the game is over).
    pub block_inputs: bool,
    /// The committed moves, oldest first.
    pub log: Vec<LogEntry>,
    /// Whether the main loop keeps running.
    pub running: bool,
}

/// The engine square under a coordinate.
pub open spec fn square_at(c: Coord, main_player: pleco::Player) -> int {
    square_of(c.row as int, c.col as int, main_player)
}

/// What the legal-move cache holds for a selection after the given moves: the
/// legal moves from the selected square while it is active, else nothing.
pub open spec fn cache_for(selected: Coord, main_player: pleco::Player, history: Seq<u16>) -> Seq<u16> {
    if selected.active {
        from_square(legal_after(history), square_at(selected, main_player))
    } else {
        Seq::empty()
    }
}

/// The move committed from `cached` when confirming on `square`: the first cached
/// move to that square, given the chosen promotion piece if it promotes.
pub open spec fn committed_move(cached: Seq<u16>, square: int, piece: PromotionPiece, m: u16) -> bool {
    exists|i: int|
        is_first_to(cached, square, i) && m == (if move_is_promo(cached[i]) {
            with_promotion(cached[i], piece)
        } else {
            cached[i]
        })
}

/// The board can record one more move.
pub open spec fn has_room(history: Seq<u16>) -> bool {
    history.len() < MAX_PLAYED
}

/// Whether a confirmation commits a move: a square is selected, the cursor is on
/// one of its legal destinations, and the board can record another move.
pub open spec fn confirm_commits(a: App) -> bool {
    &&& a.selected_coord.active
    &&& has_dest(a.moves_from_selected_coord@, square_at(a.cursor_coord, a.main_player))
    &&& has_room(a.board@)
}

impl Default for App {
    /// A fresh session, as `App::new`.
    fn default() -> (r: Self)
        ensures
            r.wf(),
            r.cursor_coord == home_cursor(),
            r.selected_coord == (Coord { row: 0, col: 0, active: false }),
            r.moves_from_selected_coord@.len() == 0,
            r.promotion_piece == PromotionPiece::Queen,
            !r.terminal_too_small,
            r.main_player == pleco::Player::White,
            r.board@ == Seq::<u16>::empty(),
            !r.block_inputs,
            r.log@.len() == 0,
            r.spec_running(),
    {
        Self::new()
    }
}

/// The move log as shown: newest entry first.
#[derive(Debug, Clone)]
pub struct Log {
    /// The entries, oldest first.
    pub log: Vec<LogEntry>,
}

impl Log {
    /// The entries in the order they are shown, newest first.
    pub fn newest_first(&self) -> (r: Vec<LogEntry>)
        ensures
            r@.len() == self.log@.len(),
            forall|i: int| 0 <= i < r@.len() ==> r@[i] == self.log@[self.log@.len() - 1 - i],
    {
        let mut r: Vec<LogEntry> = Vec::new();
        let mut i: usize = self.log.len();
        while i > 0
            invariant
                i <= self.log@.len(),
                r@.len() == self.log@.len() - i,
                forall|k: int| 0 <= k < r@.len() ==> r@[k] == self.log@[self.log@.len() - 1 - k],
            decreases i,
        {
            i = i - 1;
            r.push(self.log[i]);
        }
        r
    }
}

/// The cursor's home square: bottom-left, active.
pub open spec fn home_cursor() -> Coord {
    Coord { row: 7, col: 0, active: true }
}

/// `c` with its activity flag set to `active`.
pub open spec fn with_active(c: Coord, active: bool) -> Coord {
    Coord { active, ..c }
}

/// The state after a confirmation from state `o`: see `App::update_selected_coord`.
pub open spec fn confirm_post(o: App, f: App) -> bool {
    &&& f.wf()
    &&& f.promotion_piece == o.promotion_piece
    &&& f.terminal_too_small == o.terminal_too_small
    &&& f.main_player == o.main_player
    &&& f.running == o.running
    &&& {
        let h = o.board@;
        let sq = square_at(o.cursor_coord, o.main_player);
        let at_cursor = Coord { active: true, ..o.cursor_coord };
        if confirm_commits(o) {
            let m = f.board@.last();
            let over = game_over_after(f.board@);
            &&& f.board@ == h.push(m)
            &&& committed_move(o.moves_from_selected_coord@, sq, o.promotion_piece, m)
            &&& f.log@ == o.log@.push(
                LogEntry { mv: m, mover: mover_of(h.len() as int + 1) },
            )
            &&& f.selected_coord == with_active(o.selected_coord, false)
            &&& f.cursor_coord == (if over {
                with_active(o.cursor_coord, false)
            } else {
                o.cursor_coord
            })
            &&& f.block_inputs == (over || o.block_inputs)
        } else {
            &&& f.board == o.board
            &&& f.log == o.log
            &&& f.cursor_coord == o.cursor_coord
            &&& f.block_inputs == o.block_inputs
            &&& f.selected_coord == (if o.selected_coord.active
                && o.selected_coord.row == o.cursor_coord.row
                && o.selected_coord.col == o.cursor_coord.col {
                with_active(o.selected_coord, false)
            } else {
                at_cursor
            })
        }
    }
}

/// The state after a reset from state `o`: see `App::reset`.
pub open spec fn reset_post(o: App, f: App) -> bool {
    &&& f.wf()
    &&& f.cursor_coord == home_cursor()
    &&& f.selected_coord == (Coord { row: 7, col: 0, active: false })
    &&& f.moves_from_selected_coord@.len() == 0
    &&& f.board@ == Seq::<u16>::empty()
    &&& f.log@.len() == 0
    &&& !f.block_inputs
    &&& f.promotion_piece == o.promotion_piece
    &&& f.terminal_too_small == o.terminal_too_small
    &&& f.main_player == o.main_player
    &&& f.running == o.running
}

impl App {
    /// The state's invariant: both coordinates on the board and the cache equal
    /// to the legal moves of the current selection on the current board.
    pub open spec fn wf(&self) -> bool {
        &&& on_board(self.cursor_coord)
        &&& on_board(self.selected_coord)
        &&& self.moves_from_selected_coord@ == cache_for(
            self.selected_coord,
            self.main_player,
            self.board@,
        )
        &&& self.selected_coord.active ==> promotions_complete(legal_after(self.board@))
        &&& self.selected_coord.active ==> moves_leave_square(legal_after(self.board@))
    }

    /// Whether the main loop keeps running.
    pub open spec fn spec_running(&self) -> bool {
        self.running
    }

    /// Whether the main loop keeps running.
    pub fn is_running(&self) -> (r: bool)
        ensures
            r == self.spec_running(),
    {
        self.running
    }

    /// A fresh session: starting position, cursor home, nothing selected,
    /// promotion to queen, empty log, nothing blocked, viewed from White's side.
    pub fn new() -> (r: Self)
        ensures
            r.wf(),
            r.cursor_coord == home_cursor(),
            r.selected_coord == (Coord { row: 0, col: 0, active: false }),
            r.moves_from_selected_coord@.len() == 0,
            r.promotion_piece == PromotionPiece::Queen,
            !r.terminal_too_small,
            r.main_player == pleco::Player::White,
            r.board@ == Seq::<u16>::empty(),
            !r.block_inputs,
            r.log@.len() == 0,
            r.spec_running(),
    {
        App {
            selected_coord: Coord::new(0, 0, false),
            moves_from_selected_coord: Vec::new(),
            terminal_too_small: false,
            cursor_coord: Coord::default(),
            promotion_piece: PromotionPiece::Queen,
            main_player: pleco::Player::White,
            board: GameBoard::new(),
            log: Vec::new(),
            block_inputs: false,
            running: true,
        }
    }

    /// The number of the move to be made next, counting from 1.
    pub fn move_number(&self) -> (r: u32)
        ensures
            r == self.board@.len() + 1,
    {
        self.board.moves_played() as u32 + 1
    }

    /// The player who makes the next move.
    pub fn side_to_move(&self) -> (r: pleco::Player)
        ensures
            r == mover_of(self.board@.len() as int + 1),
    {
        let n = self.board.moves_played();
        if n % 2 == 0 {
            pleco::Player::White
        } else {
            pleco::Player::Black
        }
    }

    /// Handles a timer tick; nothing depends on time.
    pub fn tick(&self) {
    }

    /// Appends an entry to the move log.
    pub fn log(&mut self, entry: LogEntry)
        ensures
            final(self).log@ == old(self).log@.push(entry),
            final(self).board == old(self).board,
            final(self).cursor_coord == old(self).cursor_coord,
            final(self).selected_coord == old(self).selected_coord,
            final(self).moves_from_selected_coord == old(self).moves_from_selected_coord,
            final(self).promotion_piece == old(self).promotion_piece,
            final(self).terminal_too_small == old(self).terminal_too_small,
            final(self).main_player == old(self).main_player,
            final(self).block_inputs == old(self).block_inputs,
            final(self).spec_running() == old(self).spec_running(),
    {
        self.log.push(entry);
    }

    /// Starts a new game: cursor home and active, selection cleared, cache and
    /// log emptied, inputs unblocked, board back at the starting position. The
    /// promotion choice, the perspective and the size flag are kept.
    pub fn reset(&mut self)
        ensures
            reset_post(*old(self), *final(self)),
    {
        self.cursor_coord.move_to(7, 0);
        self.cursor_coord.active = true;
        self.selected_coord.move_to(7, 0);
        self.selected_coord.active = false;
        self.board = GameBoard::new();
        self.log.clear();
        self.moves_from_selected_coord.clear();
        self.block_inputs = false;
    }

    /// Commits the first cached move to the cursor's square (with the chosen
    /// promotion piece if it promotes), logs it with its mover, and deselects.
    /// When the game is then over, both coordinates go inactive and inputs block.
    /// The cache is left for the caller to recompute.
    pub fn handle_move(&mut self)
        requires
            old(self).wf(),
            confirm_commits(*old(self)),
        ensures
            ({
                let h = old(self).board@;
                let sq = square_at(old(self).cursor_coord, old(self).main_player);
                let m = final(self).board@.last();
                let over = game_over_after(final(self).board@);
                &&& final(self).board@ == h.push(m)
                &&& committed_move(old(self).moves_from_selected_coord@, sq, old(self).promotion_piece, m)
                &&& final(self).log@ == old(self).log@.push(
                    LogEntry { mv: m, mover: mover_of(h.len() as int + 1) },
                )
                &&& final(self).selected_coord == with_active(old(self).selected_coord, false)
                &&& final(self).cursor_coord == (if over {
                    with_active(old(self).cursor_coord, false)
                } else {
                    old(self).cursor_coord
                })
                &&& final(self).block_inputs == (over || old(self).block_inputs)
            }),
            final(self).moves_from_selected_coord == old(self).moves_from_selected_coord,
            final(self).promotion_piece == old(self).promotion_piece,
            final(self).terminal_too_small == old(self).terminal_too_small,
            final(self).main_player == old(self).main_player,
            final(self).spec_running() == old(self).spec_running(),
    {
        let ghost h = self.board@;
        let ghost cached = self.moves_from_selected_coord@;
        let ghost sq = square_at(self.cursor_coord, self.main_player);
        let square = self.cursor_coord.to_square(self.main_player);
        let first = move_to_square(square, &self.moves_from_selected_coord);
        let ghost i = choose|i: int| is_first_to(cached, sq, i) && first == cached[i];
        proof {
            lemma_from_square_members(
                legal_after(h),
                square_at(self.selected_coord, self.main_player),
            );
            assert(cached.contains(cached[i]));
            assert(legal_after(h).contains(first));
        }
        let mut player_move = first;
        if is_promo(first) {
            player_move = promotion_move(
                get_src(first),
                get_dest(first),
                is_capture(first),
                self.promotion_piece,
            );
            proof {
                assert(promotions_complete(legal_after(h)));
                let k = choose|k: int| 0 <= k < legal_after(h).len() && legal_after(h)[k] == first;
                assert(legal_after(h).contains(with_promotion(legal_after(h)[k], self.promotion_piece)));
            }
        }
        let mover = get_current_player(self.board.moves_played() + 1);
        self.log(LogEntry { mv: player_move, mover });
        self.board.apply(player_move);
        self.selected_coord.toggle_active();
        if is_game_over(&self.board) {
            self.selected_coord.active = false;
            self.cursor_coord.active = false;
            self.block_inputs = true;
        }
        proof {
            assert(self.board@.last() == player_move);
        }
    }

    /// Handles a confirmation. From no selection, the cursor's square becomes the
    /// selection. With a selection: when the cursor is on a legal destination (and
    /// the board's move counter has room) the move is committed and the selection cleared; else when the cursor is on the
    /// selection it is cancelled; else the selection moves to the cursor. The
    /// cache is then recomputed for the new selection.
    pub fn update_selected_coord(&mut self)
        requires
            old(self).wf(),
        ensures
            final(self).wf(),
            confirm_post(*old(self), *final(self)),
    {
        if self.selected_coord.active {
            let square = self.cursor_coord.to_square(self.main_player);
            if dest_in_moves(square, &self.moves_from_selected_coord) && self.board.moves_played()
                < MAX_PLAYED {
                self.handle_move();
            } else if self.selected_coord.is_on(self.cursor_coord.row, self.cursor_coord.col) {
                self.selected_coord.toggle_active();
            } else {
                self.selected_coord.move_to(self.cursor_coord.row, self.cursor_coord.col);
            }
        } else {
            self.selected_coord.move_to(self.cursor_coord.row, self.cursor_coord.col);
            self.selected_coord.toggle_active();
        }
        let square = self.selected_coord.to_square(self.main_player);
        let moves = moves_from_square(square, &self.board);
        if self.selected_coord.active {
            self.moves_from_selected_coord = moves;
        } else {
            self.moves_from_selected_coord = Vec::new();
        }
    }

    /// Stops the main loop after the current iteration.
    pub fn quit(&mut self)
        ensures
            !final(self).spec_running(),
            final(self).board == old(self).board,
            final(self).log == old(self).log,
            final(self).cursor_coord == old(self).cursor_coord,
            final(self).selected_coord == old(self).selected_coord,
            final(self).moves_from_selected_coord == old(self).moves_from_selected_coord,
            final(self).promotion_piece == old(self).promotion_piece,
            final(self).terminal_too_small == old(self).terminal_too_small,
            final(self).main_player == old(self).main_player,
            final(self).block_inputs == old(self).block_inputs,
    {
        self.running = false;
    }

    /// Sets the piece that later promotions turn into; nothing else changes.
    pub fn set_promotion_piece(&mut self, piece_type: PromotionPiece)
        ensures
            final(self).promotion_piece == piece_type,
            final(self).board == old(self).board,
            final(self).log == old(self).log,
            final(self).cursor_coord == old(self).cursor_coord,
            final(self).selected_coord == old(self).selected_coord,
            final(self).moves_from_selected_coord == old(self).moves_from_selected_coord,
            final(self).terminal_too_small == old(self).terminal_too_small,
            final(self).main_player == old(self).main_player,
            final(self).block_inputs == old(self).block_inputs,
            final(self).spec_running() == old(self).spec_running(),
    {
        self.promotion_piece = piece_type;
    }
}

/// A promotion move rebuilt for piece `p` is a promotion to exactly `p`.
pub proof fn lemma_with_promotion_piece(m: u16, p: PromotionPiece)
    ensures
        move_is_promo(with_promotion(m, p)),
        promoted_piece(with_promotion(m, p)) == p,
        move_src(with_promotion(m, p)) == move_src(m),
        move_dest(with_promotion(m, p)) == move_dest(m),
        move_is_capture(with_promotion(m, p)) == move_is_capture(m),
{
    let low = move_dest(m) * 64 + move_src(m);
    let k = 8 + (if move_is_capture(m) { 4int } else { 0 }) + promo_code(p);
    assert(0 <= low < 4096) by (nonlinear_arith)
        requires
            0 <= move_dest(m) < 64,
            0 <= move_src(m) < 64,
            low == move_dest(m) * 64 + move_src(m),
    ;
    let v = k * 4096 + low;
    assert(promotion_bits(move_src(m), move_dest(m), move_is_capture(m), p) == v);
    assert(v / 4096 == k && v % 4096 == low) by (nonlinear_arith)
        requires
            v == k * 4096 + low,
            0 <= low < 4096,
    ;
    assert(low / 64 == move_dest(m) && low % 64 == move_src(m)) by (nonlinear_arith)
        requires
            low == move_dest(m) * 64 + move_src(m),
            0 <= move_src(m) < 64,
            0 <= move_dest(m),
    ;
    assert(v / 64 == k * 64 + move_dest(m) && v % 64 == move_src(m)) by (nonlinear_arith)
        requires
            v == k * 4096 + move_dest(m) * 64 + move_src(m),
            0 <= move_src(m) < 64,
    ;
    assert(v / 16384 == (if move_is_capture(m) { 3int } else { 2 })) by (nonlinear_arith)
        requires
            v == k * 4096 + low,
            0 <= low < 4096,
            k == 8 + (if move_is_capture(m) { 4int } else { 0 }) + promo_code(p),
            0 <= promo_code(p) < 4,
    ;
    assert(with_promotion(m, p) as int == v);
}

/// Confirming with nothing selected selects the cursor's square, loads its
/// legal moves, and leaves the board as it was.
pub proof fn lemma_confirm_from_idle(o: App, f: App)
    requires
        o.wf(),
        !o.selected_coord.active,
        confirm_post(o, f),
    ensures
        f.selected_coord == (Coord { active: true, ..o.cursor_coord }),
        f.board == o.board,
        f.moves_from_selected_coord@ == from_square(
            legal_after(o.board@),
            square_at(o.cursor_coord, o.main_player),
        ),
{
}

/// Confirming on a legal destination commits exactly one move, deselects, and
/// leaves the cache empty; the cache then stays empty under every command but a
/// confirmation (see `lemma_idle_cache_stays_empty`).
pub proof fn lemma_confirm_commits_one_move(o: App, f: App)
    requires
        o.wf(),
        confirm_commits(o),
        confirm_post(o, f),
    ensures
        f.board@.len() == o.board@.len() + 1,
        f.board@.drop_last() == o.board@,
        committed_move(
            o.moves_from_selected_coord@,
            square_at(o.cursor_coord, o.main_player),
            o.promotion_piece,
            f.board@.last(),
        ),
        f.log@.len() == o.log@.len() + 1,
        !f.selected_coord.active,
        f.moves_from_selected_coord@.len() == 0,
{
    assert(f.board@.drop_last() == o.board@);
}

/// Confirming on the selected square cancels the selection and commits nothing.
pub proof fn lemma_confirm_on_selection_cancels(o: App, f: App)
    requires
        o.wf(),
        o.selected_coord.active,
        o.selected_coord.row == o.cursor_coord.row,
        o.selected_coord.col == o.cursor_coord.col,
        confirm_post(o, f),
    ensures
        !f.selected_coord.active,
        f.board == o.board,
        f.log == o.log,
        f.moves_from_selected_coord@.len() == 0,
{
    let h = o.board@;
    let sq = square_at(o.cursor_coord, o.main_player);
    let cached = o.moves_from_selected_coord@;
    lemma_from_square_members(legal_after(h), sq);
    if has_dest(cached, sq) {
        let i = choose|i: int| 0 <= i < cached.len() && move_dest(#[trigger] cached[i]) == sq;
        assert(legal_after(h).contains(cached[i]));
        let j = choose|j: int| 0 <= j < legal_after(h).len() && legal_after(h)[j] == cached[i];
        assert(move_src(legal_after(h)[j]) != move_dest(legal_after(h)[j]));
    }
}

/// Confirming elsewhere than on the selection or one of its destinations moves
/// the selection to the cursor, commits nothing, and caches the new square's moves.
pub proof fn lemma_confirm_elsewhere_retargets(o: App, f: App)
    requires
        o.wf(),
        o.selected_coord.active,
        !has_dest(o.moves_from_selected_coord@, square_at(o.cursor_coord, o.main_player)),
        !(o.selected_coord.row == o.cursor_coord.row && o.selected_coord.col
            == o.cursor_coord.col),
        confirm_post(o, f),
    ensures
        f.selected_coord == (Coord { active: true, ..o.cursor_coord }),
        f.board == o.board,
        f.log == o.log,
        f.moves_from_selected_coord@ == from_square(
            legal_after(o.board@),
            square_at(o.cursor_coord, o.main_player),
        ),
{
}

/// The cursor's home and an empty log after a reset, from any state at all.
pub proof fn lemma_reset_from_anywhere(o: App, f: App)
    requires
        reset_post(o, f),
    ensures
        f.cursor_coord == home_cursor(),
        f.log@.len() == 0,
        !f.selected_coord.active,
        !f.block_inputs,
        f.board@.len() == 0,
{
}

} // verus!
