use vstd::prelude::*;

use crate::engine::{get_file, get_rank, square_of};

verus! {

/// Highest row or column index of the board.
pub const BOARD_MAX: i8 = 7;

/// Lowest row or column index of the board.
pub const BOARD_MIN: i8 = 0;

/// A grid position with an activity flag.
#[derive(Debug, Clone, Copy, PartialEq, Eq, Structural)]
pub struct Coord {
    /// Row of the coordinate.
    pub row: i8,
    /// Column of the coordinate.
    pub col: i8,
    /// Whether the coordinate is active.
    pub active: bool,
}

/// A one-cell movement of a coordinate.
#[derive(Debug, Clone, Copy, PartialEq, Eq, Structural)]
pub enum CoordEvent {
    UP,
    DOWN,
    LEFT,
    RIGHT,
}

/// `v` saturated to the range of `i8`.
pub open spec fn saturate_i8(v: int) -> int {
    if v > 127 {
        127
    } else if v < -128 {
        -128
    } else {
        v
    }
}

/// `v` capped at `max`, then raised to `min` (so `min` wins when `min > max`).
pub open spec fn clamp(v: int, max: int, min: int) -> int {
    let capped = if v < max { v } else { max };
    if capped > min { capped } else { min }
}

/// The coordinate after moving by `(d_row, d_col)` with both axes clamped.
pub open spec fn moved_by(c: Coord, d_row: int, d_col: int, max: int, min: int) -> Coord {
    Coord {
        row: clamp(saturate_i8(c.row + d_row), max, min) as i8,
        col: clamp(saturate_i8(c.col + d_col), max, min) as i8,
        active: c.active,
    }
}

/// The row and column deltas of a movement event.
pub open spec fn event_delta(e: CoordEvent) -> (int, int) {
    match e {
        CoordEvent::UP => (-1, 0),
        CoordEvent::DOWN => (1, 0),
        CoordEvent::LEFT => (0, -1),
        CoordEvent::RIGHT => (0, 1),
    }
}

/// The coordinate after one movement event, clamped to the board.
pub open spec fn stepped(c: Coord, e: CoordEvent) -> Coord {
    moved_by(c, event_delta(e).0, event_delta(e).1, 7, 0)
}

/// Both row and column lie on the board.
pub open spec fn on_board(c: Coord) -> bool {
    0 <= c.row <= 7 && 0 <= c.col <= 7
}

/// Applies a sequence of movement events, first to last.
pub open spec fn stepped_all(c: Coord, es: Seq<CoordEvent>) -> Coord
    decreases es.len(),
{
    if es.len() == 0 {
        c
    } else {
        stepped(stepped_all(c, es.drop_last()), es.last())
    }
}

/// Decimal text of a natural number.
pub open spec fn decimal(n: nat) -> Seq<char>
    decreases n,
{
    let digits = seq!['0', '1', '2', '3', '4', '5', '6', '7', '8', '9'];
    if n < 10 {
        seq![digits[n as int]]
    } else {
        decimal(n / 10).push(digits[(n % 10) as int])
    }
}

/// Decimal text of an integer, with a leading minus sign when negative.
pub open spec fn int_text(v: int) -> Seq<char> {
    if v < 0 {
        seq!['-'] + decimal((-v) as nat)
    } else {
        decimal(v as nat)
    }
}

/// Relies on `format!` with `Display` for `i8`: decimal column, a space, decimal row.
#[verifier::external_body]
fn coord_text(col: i8, row: i8) -> (r: String)
    ensures
        r@ == int_text(col as int) + seq![' '] + int_text(row as int),
{
    format!("{} {}", col, row)
}

/// Adds `d` to `v`, saturating at the bounds of `i8`.
fn saturating_add_i8(v: i8, d: i8) -> (r: i8)
    ensures
        r as int == saturate_i8(v + d),
{
    let s: i16 = v as i16 + d as i16;
    if s > 127 {
        127
    } else if s < -128 {
        -128
    } else {
        s as i8
    }
}

/// Caps `v` at `max`, then raises it to `min`.
fn clamp_i8(v: i8, max: i8, min: i8) -> (r: i8)
    ensures
        r as int == clamp(v as int, max as int, min as int),
{
    let capped = if v < max { v } else { max };
    if capped > min { capped } else { min }
}

impl Coord {
    /// Creates a coordinate; note that the column comes first.
    pub fn new(col: i8, row: i8, active: bool) -> (r: Self)
        ensures
            r == (Coord { row, col, active }),
    {
        Coord { row, col, active }
    }

    /// Moves the coordinate one cell in the given direction, clamped to the board.
    pub fn handle_event(&mut self, event: CoordEvent)
        ensures
            *final(self) == stepped(*old(self), event),
    {
        match event {
            CoordEvent::UP => self.move_by(-1, 0, BOARD_MAX, BOARD_MIN),
            CoordEvent::DOWN => self.move_by(1, 0, BOARD_MAX, BOARD_MIN),
            CoordEvent::LEFT => self.move_by(0, -1, BOARD_MAX, BOARD_MIN),
            CoordEvent::RIGHT => self.move_by(0, 1, BOARD_MAX, BOARD_MIN),
        }
    }

    /// Places the coordinate at the given row and column, keeping the flag.
    pub fn move_to(&mut self, row: i8, col: i8)
        ensures
            *final(self) == (Coord { row, col, active: old(self).active }),
    {
        self.row = row;
        self.col = col;
    }

    /// Moves the coordinate by the given amounts; each axis saturates, then is
    /// capped at `max` and raised to `min` independently.
    pub fn move_by(&mut self, row: i8, col: i8, max: i8, min: i8)
        ensures
            *final(self) == moved_by(*old(self), row as int, col as int, max as int, min as int),
    {
        self.row = clamp_i8(saturating_add_i8(self.row, row), max, min);
        self.col = clamp_i8(saturating_add_i8(self.col, col), max, min);
    }

    /// Flips the activity flag.
    pub fn toggle_active(&mut self)
        ensures
            *final(self) == (Coord { active: !old(self).active, ..*old(self) }),
    {
        self.active = !self.active;
    }

    /// Whether the coordinate stands on the given row and column.
    pub fn is_on(&self, row: i8, col: i8) -> (r: bool)
        ensures
            r == (self.row == row && self.col == col),
    {
        self.row == row && self.col == col
    }

    /// Whether the coordinate lies on the board.
    pub fn is_valid(&self) -> (r: bool)
        ensures
            r == on_board(*self),
    {
        0 <= self.col && self.col < 8 && 0 <= self.row && self.row < 8
    }

    /// The engine square under this coordinate, seen from `main_player`'s side.
    pub fn to_square(&self, main_player: pleco::Player) -> (r: pleco::SQ)
        requires
            on_board(*self),
        ensures
            r.0 as int == square_of(self.row as int, self.col as int, main_player),
    {
        pleco::SQ::make(get_file(self.col as u8), get_rank(self.row as u8, main_player))
    }

    /// The column and the row in decimal, separated by a space.
    pub fn to_string(&self) -> (r: String)
        ensures
            r@ == int_text(self.col as int) + seq![' '] + int_text(self.row as int),
    {
        coord_text(self.col, self.row)
    }
}

impl Default for Coord {
    /// The cursor's home: bottom-left corner, active.
    fn default() -> (r: Self)
        ensures
            r == (Coord { row: 7, col: 0, active: true }),
    {
        Coord { row: 7, col: 0, active: true }
    }
}

/// Movement never leaves the board: from any on-board coordinate, every
/// sequence of movement events keeps row and column within `[0, 7]` at every step.
pub proof fn lemma_movement_stays_on_board(c: Coord, es: Seq<CoordEvent>)
    requires
        on_board(c),
    ensures
        forall|k: int| 0 <= k <= es.len() ==> on_board(#[trigger] stepped_all(c, es.take(k))),
    decreases es.len(),
{
    if es.len() > 0 {
        lemma_movement_stays_on_board(c, es.drop_last());
        assert forall|k: int| 0 <= k <= es.len() implies on_board(
            #[trigger] stepped_all(c, es.take(k)),
        ) by {
            if k < es.len() {
                assert(es.take(k) == es.drop_last().take(k));
            } else {
                assert(es.take(k) == es);
                assert(es.drop_last().take(es.len() - 1) == es.drop_last());
            }
        }
    }
}

} // verus!
