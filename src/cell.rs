use vstd::prelude::*;

use crate::coord::Coord;
use crate::engine::{dest_in_moves, get_file, get_rank, has_dest, square_of};

verus! {

/// The role a board cell is drawn in; the front-end picks a colour for each.
#[derive(Debug, Clone, Copy, PartialEq, Eq, Structural)]
pub enum CellColor {
    /// A light square with nothing on it to show.
    Light,
    /// A dark square with nothing on it to show.
    Dark,
    /// The selected square, with the cursor on it.
    SelectedUnderCursor,
    /// The selected square.
    Selected,
    /// A legal destination of the selection, with the cursor on it.
    TargetUnderCursor,
    /// A legal destination of the selection on a light square.
    TargetLight,
    /// A legal destination of the selection on a dark square.
    TargetDark,
    /// The cursor.
    Cursor,
}

/// One board cell: how it is drawn and which engine square it shows.
#[derive(Debug, Clone, Copy)]
pub struct Cell {
    pub color: CellColor,
    pub square: pleco::SQ,
}

/// How the cell at `row`, `col` is drawn. With a selection: the selected square,
/// then its destinations, then the cursor stand out; without one, only an
/// active cursor does. Light squares are those with an even `row + col`.
pub open spec fn cell_color(
    moves: Seq<u16>,
    selected: Coord,
    cursor: Coord,
    main_player: pleco::Player,
    row: int,
    col: int,
) -> CellColor {
    let light = (row + col) % 2 == 0;
    let under_cursor = cursor.row == row && cursor.col == col;
    let base = if light { CellColor::Light } else { CellColor::Dark };
    if selected.active {
        if selected.row == row && selected.col == col {
            if under_cursor { CellColor::SelectedUnderCursor } else { CellColor::Selected }
        } else if has_dest(moves, square_of(row, col, main_player)) {
            if under_cursor {
                CellColor::TargetUnderCursor
            } else if light {
                CellColor::TargetLight
            } else {
                CellColor::TargetDark
            }
        } else if under_cursor {
            CellColor::Cursor
        } else {
            base
        }
    } else if under_cursor && cursor.active {
        CellColor::Cursor
    } else {
        base
    }
}

impl Cell {
    /// The cell at `row`, `col` for the given selection, cursor and cached moves.
    pub fn new(
        moves_from_selected_coord: &Vec<u16>,
        selected_coord: Coord,
        cursor_coord: Coord,
        main_player: pleco::Player,
        row: usize,
        col: usize,
    ) -> (r: Self)
        requires
            row < 8,
            col < 8,
        ensures
            r.square.0 as int == square_of(row as int, col as int, main_player),
            r.color == cell_color(
                moves_from_selected_coord@,
                selected_coord,
                cursor_coord,
                main_player,
                row as int,
                col as int,
            ),
    {
        let square = pleco::SQ::make(get_file(col as u8), get_rank(row as u8, main_player));
        let light = (row + col) % 2 == 0;
        let mut color = if light { CellColor::Light } else { CellColor::Dark };
        let under_cursor = cursor_coord.is_on(row as i8, col as i8);
        if selected_coord.active {
            if selected_coord.is_on(row as i8, col as i8) {
                color = if under_cursor {
                    CellColor::SelectedUnderCursor
                } else {
                    CellColor::Selected
                };
            } else if dest_in_moves(square, moves_from_selected_coord) {
                color = if under_cursor {
                    CellColor::TargetUnderCursor
                } else if light {
                    CellColor::TargetLight
                } else {
                    CellColor::TargetDark
                };
            } else if under_cursor {
                color = CellColor::Cursor;
            }
        } else if under_cursor && cursor_coord.active {
            color = CellColor::Cursor;
        }
        Cell { color, square }
    }
}

/// The label drawn under a square: "A1" on a1, the file letter on the rest of the
/// first rank, the rank digit on the rest of the a-file, nothing elsewhere.
pub open spec fn square_label(sq: int) -> Seq<char> {
    if sq == 0 {
        seq!['A', '1']
    } else if 1 <= sq < 8 {
        seq![seq!['A', 'B', 'C', 'D', 'E', 'F', 'G', 'H'][sq]]
    } else if sq < 64 && sq % 8 == 0 {
        seq![seq!['1', '2', '3', '4', '5', '6', '7', '8'][sq / 8]]
    } else {
        Seq::empty()
    }
}

/// The label drawn under a square.
pub fn square_to_string(square: pleco::SQ) -> (r: &'static str)
    ensures
        r@ == square_label(square.0 as int),
{
    match square.0 {
        0 => {
            proof { reveal_strlit("A1"); }
            "A1"
        },
        1 => {
            proof { reveal_strlit("B"); }
            "B"
        },
        2 => {
            proof { reveal_strlit("C"); }
            "C"
        },
        3 => {
            proof { reveal_strlit("D"); }
            "D"
        },
        4 => {
            proof { reveal_strlit("E"); }
            "E"
        },
        5 => {
            proof { reveal_strlit("F"); }
            "F"
        },
        6 => {
            proof { reveal_strlit("G"); }
            "G"
        },
        7 => {
            proof { reveal_strlit("H"); }
            "H"
        },
        8 => {
            proof { reveal_strlit("2"); }
            "2"
        },
        16 => {
            proof { reveal_strlit("3"); }
            "3"
        },
        24 => {
            proof { reveal_strlit("4"); }
            "4"
        },
        32 => {
            proof { reveal_strlit("5"); }
            "5"
        },
        40 => {
            proof { reveal_strlit("6"); }
            "6"
        },
        48 => {
            proof { reveal_strlit("7"); }
            "7"
        },
        56 => {
            proof { reveal_strlit("8"); }
            "8"
        },
        _ => {
            proof { reveal_strlit(""); }
            ""
        },
    }
}

/// The chess glyph of a piece; nothing for an empty square.
pub open spec fn piece_glyph(piece: pleco::Piece) -> Seq<char> {
    match piece {
        pleco::Piece::WhiteKing => seq!['\u{2654}'],
        pleco::Piece::WhiteQueen => seq!['\u{2655}'],
        pleco::Piece::WhiteRook => seq!['\u{2656}'],
        pleco::Piece::WhiteBishop => seq!['\u{2657}'],
        pleco::Piece::WhiteKnight => seq!['\u{2658}'],
        pleco::Piece::WhitePawn => seq!['\u{2659}'],
        pleco::Piece::BlackKing => seq!['\u{265A}'],
        pleco::Piece::BlackQueen => seq!['\u{265B}'],
        pleco::Piece::BlackRook => seq!['\u{265C}'],
        pleco::Piece::BlackBishop => seq!['\u{265D}'],
        pleco::Piece::BlackKnight => seq!['\u{265E}'],
        pleco::Piece::BlackPawn => seq!['\u{265F}'],
        pleco::Piece::None => Seq::empty(),
    }
}

/// The chess glyph of a piece.
pub fn piece_to_char(piece: pleco::Piece) -> (r: &'static str)
    ensures
        r@ == piece_glyph(piece),
{
    match piece {
        pleco::Piece::WhiteKing => {
            proof { reveal_strlit("\u{2654}"); }
            "\u{2654}"
        },
        pleco::Piece::WhiteQueen => {
            proof { reveal_strlit("\u{2655}"); }
            "\u{2655}"
        },
        pleco::Piece::WhiteRook => {
            proof { reveal_strlit("\u{2656}"); }
            "\u{2656}"
        },
        pleco::Piece::WhiteBishop => {
            proof { reveal_strlit("\u{2657}"); }
            "\u{2657}"
        },
        pleco::Piece::WhiteKnight => {
            proof { reveal_strlit("\u{2658}"); }
            "\u{2658}"
        },
        pleco::Piece::WhitePawn => {
            proof { reveal_strlit("\u{2659}"); }
            "\u{2659}"
        },
        pleco::Piece::BlackKing => {
            proof { reveal_strlit("\u{265A}"); }
            "\u{265A}"
        },
        pleco::Piece::BlackQueen => {
            proof { reveal_strlit("\u{265B}"); }
            "\u{265B}"
        },
        pleco::Piece::BlackRook => {
            proof { reveal_strlit("\u{265C}"); }
            "\u{265C}"
        },
        pleco::Piece::BlackBishop => {
            proof { reveal_strlit("\u{265D}"); }
            "\u{265D}"
        },
        pleco::Piece::BlackKnight => {
            proof { reveal_strlit("\u{265E}"); }
            "\u{265E}"
        },
        pleco::Piece::BlackPawn => {
            proof { reveal_strlit("\u{265F}"); }
            "\u{265F}"
        },
        pleco::Piece::None => {
            proof { reveal_strlit(""); }
            ""
        },
    }
}

} // verus!
