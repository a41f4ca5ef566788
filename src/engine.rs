use vstd::prelude::*;

verus! {

/// The piece a pawn turns into on reaching the last rank.
#[derive(Debug, Clone, Copy, PartialEq, Eq, Structural)]
pub enum PromotionPiece {
    Queen,
    Rook,
    Bishop,
    Knight,
}

/// The engine's board, held opaque; what the logic needs of it is named below.
#[verifier::external_type_specification]
#[verifier::external_body]
pub struct ExBoard(pleco::Board);

/// The engine's side to move: a plain enum, its variants visible.
#[verifier::external_type_specification]
pub struct ExPlayer(pleco::Player);

/// The engine's board file: a plain enum, its variants visible.
#[verifier::external_type_specification]
pub struct ExFile(pleco::File);

/// The engine's board rank: a plain enum, its variants visible.
#[verifier::external_type_specification]
pub struct ExRank(pleco::Rank);

/// The engine's square: a public `u8`, `rank * 8 + file`.
#[verifier::external_type_specification]
pub struct ExSQ(pleco::SQ);

/// The engine's piece on a square: a plain enum, its variants visible.
#[verifier::external_type_specification]
pub struct ExPiece(pleco::Piece);

/// Index of a file, 0 for the a-file.
pub open spec fn file_index(f: pleco::File) -> int {
    match f {
        pleco::File::A => 0,
        pleco::File::B => 1,
        pleco::File::C => 2,
        pleco::File::D => 3,
        pleco::File::E => 4,
        pleco::File::F => 5,
        pleco::File::G => 6,
        pleco::File::H => 7,
    }
}

/// Index of a rank, 0 for the first rank.
pub open spec fn rank_index(r: pleco::Rank) -> int {
    match r {
        pleco::Rank::R1 => 0,
        pleco::Rank::R2 => 1,
        pleco::Rank::R3 => 2,
        pleco::Rank::R4 => 3,
        pleco::Rank::R5 => 4,
        pleco::Rank::R6 => 5,
        pleco::Rank::R7 => 6,
        pleco::Rank::R8 => 7,
    }
}

/// Relies on `pleco::SQ::make`: the square `rank * 8 + file`.
pub assume_specification[ pleco::SQ::make ](file: pleco::File, rank: pleco::Rank) -> (r: pleco::SQ)
    ensures
        r.0 as int == rank_index(rank) * 8 + file_index(file),
;

/// The moves applied to a board since the standard starting position, in order.
/// Every board this library handles is held in a `GameBoard`, which starts there
/// (`start_board`) and changes only by `apply_move`, so its position, and all that the engine reports of it,
/// follows from these moves.
pub uninterp spec fn played(b: pleco::Board) -> Seq<u16>;

/// The engine's legal moves, in the engine's order, after the given moves.
pub uninterp spec fn legal_after(history: Seq<u16>) -> Seq<u16>;

/// Whether the side to move is checkmated after the given moves.
pub uninterp spec fn checkmate_after(history: Seq<u16>) -> bool;

/// Whether the side to move is stalemated after the given moves (no legal move
/// without being in check, or the engine's fifty-move limit reached).
pub uninterp spec fn stalemate_after(history: Seq<u16>) -> bool;

/// Most moves a board takes. The engine's fifty-move counter is an `i16` that
/// grows by one with every move (and only resets on captures and pawn moves), so
/// from the starting position it never exceeds the number of moves played; below
/// this bound it cannot overflow.
pub const MAX_PLAYED: u16 = 32767;

// A move is the engine's 16-bit encoding: source square in bits 0..6,
// destination in bits 6..12, flags in bits 12..16 (bit 15 promotion, bit 14 capture,
// bits 12..14 the promotion piece: knight, bishop, rook, queen).

/// A game's board. It can only be made at the standard starting position and
/// changed by applying legal moves, so it is always described by the moves played.
#[derive(Debug)]
pub struct GameBoard {
    board: pleco::Board,
}

impl View for GameBoard {
    type V = Seq<u16>;

    /// The moves played on this board, in order.
    closed spec fn view(&self) -> Seq<u16> {
        played(self.board)
    }
}

impl GameBoard {
    /// A board at the standard starting position.
    pub fn new() -> (r: Self)
        ensures
            r@ == Seq::<u16>::empty(),
    {
        GameBoard { board: start_board() }
    }

    /// Plays a legal move.
    pub fn apply(&mut self, m: u16)
        requires
            legal_after(old(self)@).contains(m),
            old(self)@.len() < MAX_PLAYED,
        ensures
            final(self)@ == old(self)@.push(m),
    {
        apply_move(&mut self.board, m)
    }

    /// The number of moves played.
    pub fn moves_played(&self) -> (r: u16)
        ensures
            r as int == self@.len(),
    {
        moves_played(&self.board)
    }

    /// Whether the side to move is checkmated.
    pub fn checkmate(&self) -> (r: bool)
        ensures
            r == checkmate_after(self@),
    {
        is_checkmate(&self.board)
    }

    /// The engine's board, to read from.
    pub fn engine(&self) -> (r: &pleco::Board)
        ensures
            played(*r) == self@,
    {
        &self.board
    }
}

/// Source square of a move.
pub open spec fn move_src(m: u16) -> int {
    m as int % 64
}

/// Destination square of a move.
pub open spec fn move_dest(m: u16) -> int {
    (m as int / 64) % 64
}

/// Whether a move promotes a pawn.
pub open spec fn move_is_promo(m: u16) -> bool {
    m >= 32768
}

/// Whether a move captures.
pub open spec fn move_is_capture(m: u16) -> bool {
    (m as int / 16384) % 2 == 1
}

/// The engine's two-bit code of a promotion piece.
pub open spec fn promo_code(p: PromotionPiece) -> int {
    match p {
        PromotionPiece::Knight => 0,
        PromotionPiece::Bishop => 1,
        PromotionPiece::Rook => 2,
        PromotionPiece::Queen => 3,
    }
}

/// The promotion move from `src` to `dst` to piece `p`, capturing or not.
pub open spec fn promotion_bits(src: int, dst: int, capture: bool, p: PromotionPiece) -> int {
    (8 + (if capture { 4int } else { 0 }) + promo_code(p)) * 4096 + dst * 64 + src
}

/// The piece a promotion move promotes to.
pub open spec fn promoted_piece(m: u16) -> PromotionPiece {
    let code = (m as int / 4096) % 4;
    if code == 0 {
        PromotionPiece::Knight
    } else if code == 1 {
        PromotionPiece::Bishop
    } else if code == 2 {
        PromotionPiece::Rook
    } else {
        PromotionPiece::Queen
    }
}

/// `m` with its promotion piece replaced by `p`, all else kept.
pub open spec fn with_promotion(m: u16, p: PromotionPiece) -> u16 {
    promotion_bits(move_src(m), move_dest(m), move_is_capture(m), p) as u16
}

/// Every promotion in a move list comes with its three siblings that promote to
/// the other pieces.
pub open spec fn promotions_complete(ms: Seq<u16>) -> bool {
    forall|i: int, p: PromotionPiece|
        0 <= i < ms.len() && move_is_promo(#[trigger] ms[i]) ==> ms.contains(
            #[trigger] with_promotion(ms[i], p),
        )
}

/// No move starts and ends on the same square.
pub open spec fn moves_leave_square(ms: Seq<u16>) -> bool {
    forall|i: int| 0 <= i < ms.len() ==> move_src(#[trigger] ms[i]) != move_dest(ms[i])
}

/// Relies on `pleco::Board::default`: the standard starting position, no moves played.
#[verifier::external_body]
pub(crate) fn start_board() -> (r: pleco::Board)
    ensures
        played(r) == Seq::<u16>::empty(),
{
    pleco::Board::default()
}

/// Relies on `pleco::Board::generate_moves`: all legal moves of the position, each
/// promotion once per piece it may promote to, none from a square to itself (which
/// `Board::apply_move` asserts against); moves are handed out by `BitMove::get_raw`.
#[verifier::external_body]
pub(crate) fn legal_moves(b: &pleco::Board) -> (r: Vec<u16>)
    ensures
        r@ == legal_after(played(*b)),
        promotions_complete(r@),
        moves_leave_square(r@),
{
    b.generate_moves().iter().map(|m| m.get_raw()).collect()
}

/// Relies on `pleco::Board::apply_move`, which panics on a move that is not legal,
/// and adds one to its `i16` fifty-move counter and its `u16` move counter; with
/// fewer than `MAX_PLAYED` moves played from the starting position neither overflows.
#[verifier::external_body]
pub(crate) fn apply_move(b: &mut pleco::Board, m: u16)
    requires
        legal_after(played(*old(b))).contains(m),
        played(*old(b)).len() < MAX_PLAYED,
    ensures
        played(*final(b)) == played(*old(b)).push(m),
{
    b.apply_move(pleco::BitMove::new(m))
}

/// Relies on `pleco::Board::moves_played`: the number of moves applied.
#[verifier::external_body]
pub(crate) fn moves_played(b: &pleco::Board) -> (r: u16)
    ensures
        r as int == played(*b).len(),
{
    b.moves_played()
}

/// Relies on `pleco::Board::checkmate`.
#[verifier::external_body]
pub(crate) fn is_checkmate(b: &pleco::Board) -> (r: bool)
    ensures
        r == checkmate_after(played(*b)),
{
    b.checkmate()
}

/// Relies on `pleco::Board::stalemate`.
#[verifier::external_body]
pub(crate) fn is_stalemate(b: &pleco::Board) -> (r: bool)
    ensures
        r == stalemate_after(played(*b)),
{
    b.stalemate()
}

/// Relies on `pleco::BitMove::init` with `MoveFlag::Promotion`: flag bits
/// `8 + 4 * capture + piece code` above the destination and source squares.
#[verifier::external_body]
pub(crate) fn promotion_move(src: u8, dst: u8, capture: bool, piece: PromotionPiece) -> (r: u16)
    requires
        src < 64,
        dst < 64,
    ensures
        r as int == promotion_bits(src as int, dst as int, capture, piece),
{
    let prom = match piece {
        PromotionPiece::Queen => pleco::PieceType::Q,
        PromotionPiece::Rook => pleco::PieceType::R,
        PromotionPiece::Bishop => pleco::PieceType::B,
        PromotionPiece::Knight => pleco::PieceType::N,
    };
    let info = pleco::core::piece_move::PreMoveInfo {
        src: pleco::SQ(src),
        dst: pleco::SQ(dst),
        flags: pleco::core::piece_move::MoveFlag::Promotion { capture, prom },
    };
    pleco::BitMove::init(info).get_raw()
}

/// Source square of a move.
pub fn get_src(m: u16) -> (r: u8)
    ensures
        r as int == move_src(m),
{
    (m % 64) as u8
}

/// Destination square of a move.
pub fn get_dest(m: u16) -> (r: u8)
    ensures
        r as int == move_dest(m),
{
    ((m / 64) % 64) as u8
}

/// Whether a move promotes a pawn.
pub fn is_promo(m: u16) -> (r: bool)
    ensures
        r == move_is_promo(m),
{
    m >= 32768
}

/// Whether a move captures.
pub fn is_capture(m: u16) -> (r: bool)
    ensures
        r == move_is_capture(m),
{
    (m / 16384) % 2 == 1
}

/// The rank (0 = first rank) shown on a screen row, from a player's perspective:
/// row 0 is the far side of the board for that player.
pub open spec fn rank_of_row(row: int, main_player: pleco::Player) -> int {
    match main_player {
        pleco::Player::White => 7 - row,
        pleco::Player::Black => row,
    }
}

/// The engine square (`rank * 8 + file`) under a screen row and column.
pub open spec fn square_of(row: int, col: int, main_player: pleco::Player) -> int {
    rank_of_row(row, main_player) * 8 + col
}

/// The file of a screen column.
pub fn get_file(col: u8) -> (r: pleco::File)
    requires
        col < 8,
    ensures
        file_index(r) == col,
{
    match col {
        0 => pleco::File::A,
        1 => pleco::File::B,
        2 => pleco::File::C,
        3 => pleco::File::D,
        4 => pleco::File::E,
        5 => pleco::File::F,
        6 => pleco::File::G,
        _ => pleco::File::H,
    }
}

/// The rank of a screen row from the given perspective.
pub fn get_rank(row: u8, main_player: pleco::Player) -> (r: pleco::Rank)
    requires
        row < 8,
    ensures
        rank_index(r) == rank_of_row(row as int, main_player),
{
    match main_player {
        pleco::Player::Black => match row {
            0 => pleco::Rank::R1,
            1 => pleco::Rank::R2,
            2 => pleco::Rank::R3,
            3 => pleco::Rank::R4,
            4 => pleco::Rank::R5,
            5 => pleco::Rank::R6,
            6 => pleco::Rank::R7,
            _ => pleco::Rank::R8,
        },
        pleco::Player::White => match row {
            0 => pleco::Rank::R8,
            1 => pleco::Rank::R7,
            2 => pleco::Rank::R6,
            3 => pleco::Rank::R5,
            4 => pleco::Rank::R4,
            5 => pleco::Rank::R3,
            6 => pleco::Rank::R2,
            _ => pleco::Rank::R1,
        },
    }
}

/// The player who makes the given move number (counting from 1): odd numbers
/// are White's, even numbers Black's.
pub open spec fn mover_of(move_number: int) -> pleco::Player {
    if move_number % 2 == 1 {
        pleco::Player::White
    } else {
        pleco::Player::Black
    }
}

/// The player who makes the given move number.
pub fn get_current_player(moves_played: u16) -> (r: pleco::Player)
    ensures
        r == mover_of(moves_played as int),
{
    if moves_played % 2 == 1 {
        pleco::Player::White
    } else {
        pleco::Player::Black
    }
}

/// The moves of `ms` that start on `square`, in their order.
pub open spec fn from_square(ms: Seq<u16>, square: int) -> Seq<u16>
    decreases ms.len(),
{
    if ms.len() == 0 {
        ms
    } else if move_src(ms.last()) == square {
        from_square(ms.drop_last(), square).push(ms.last())
    } else {
        from_square(ms.drop_last(), square)
    }
}

/// Whether some move of `ms` ends on `square`.
pub open spec fn has_dest(ms: Seq<u16>, square: int) -> bool {
    exists|i: int| 0 <= i < ms.len() && move_dest(#[trigger] ms[i]) == square
}

/// Index of the first move of `ms` that ends on `square`.
pub open spec fn is_first_to(ms: Seq<u16>, square: int, i: int) -> bool {
    &&& 0 <= i < ms.len()
    &&& move_dest(ms[i]) == square
    &&& forall|j: int| 0 <= j < i ==> move_dest(#[trigger] ms[j]) != square
}

/// Each move of `from_square(ms, sq)` is a move of `ms` that starts on `sq`.
pub proof fn lemma_from_square_members(ms: Seq<u16>, square: int)
    ensures
        forall|k: int|
            0 <= k < from_square(ms, square).len() ==> ms.contains(
                #[trigger] from_square(ms, square)[k],
            ) && move_src(from_square(ms, square)[k]) == square,
    decreases ms.len(),
{
    if ms.len() > 0 {
        lemma_from_square_members(ms.drop_last(), square);
        let rest = from_square(ms.drop_last(), square);
        assert forall|k: int| 0 <= k < from_square(ms, square).len() implies ms.contains(
            #[trigger] from_square(ms, square)[k],
        ) && move_src(from_square(ms, square)[k]) == square by {
            if k < rest.len() {
                let x = rest[k];
                let j = choose|j: int| 0 <= j < ms.drop_last().len() && ms.drop_last()[j] == x;
                assert(ms[j] == x);
            } else {
                assert(ms[ms.len() - 1] == ms.last());
            }
        }
    }
}

/// The legal moves that start on `square`.
pub fn moves_from_square(square: pleco::SQ, board: &GameBoard) -> (r: Vec<u16>)
    ensures
        r@ == from_square(legal_after(board@), square.0 as int),
        promotions_complete(legal_after(board@)),
        moves_leave_square(legal_after(board@)),
{
    let all = legal_moves(&board.board);
    let mut r: Vec<u16> = Vec::new();
    let mut i: usize = 0;
    while i < all.len()
        invariant
            i <= all@.len(),
            all@ == legal_after(board@),
            r@ == from_square(all@.take(i as int), square.0 as int),
            promotions_complete(all@),
            moves_leave_square(all@),
        decreases all@.len() - i,
    {
        let m = all[i];
        assert(all@.take(i as int + 1).drop_last() == all@.take(i as int));
        if get_src(m) == square.0 {
            r.push(m);
        }
        i = i + 1;
    }
    assert(all@.take(all@.len() as int) == all@);
    r
}

/// Whether some move of `moves` ends on `dest`.
pub fn dest_in_moves(dest: pleco::SQ, moves: &Vec<u16>) -> (r: bool)
    ensures
        r == has_dest(moves@, dest.0 as int),
{
    let mut i: usize = 0;
    while i < moves.len()
        invariant
            i <= moves@.len(),
            forall|j: int| 0 <= j < i ==> move_dest(#[trigger] moves@[j]) != dest.0,
        decreases moves@.len() - i,
    {
        if get_dest(moves[i]) == dest.0 {
            return true;
        }
        i = i + 1;
    }
    false
}

/// The first move of `moves` that ends on `square`, which must exist.
pub fn move_to_square(square: pleco::SQ, moves: &Vec<u16>) -> (r: u16)
    requires
        has_dest(moves@, square.0 as int),
    ensures
        exists|i: int| is_first_to(moves@, square.0 as int, i) && r == moves@[i],
{
    let mut i: usize = 0;
    while i < moves.len()
        invariant
            i <= moves@.len(),
            has_dest(moves@, square.0 as int),
            forall|j: int| 0 <= j < i ==> move_dest(#[trigger] moves@[j]) != square.0,
        decreases moves@.len() - i,
    {
        if get_dest(moves[i]) == square.0 {
            assert(is_first_to(moves@, square.0 as int, i as int));
            return moves[i];
        }
        i = i + 1;
    }
    proof {
        let j = choose|j: int| 0 <= j < moves@.len() && move_dest(#[trigger] moves@[j]) == square.0;
        assert(move_dest(moves@[j]) != square.0);
    }
    moves[0]
}

/// Whether the game has ended in checkmate or stalemate.
pub open spec fn game_over_after(history: Seq<u16>) -> bool {
    checkmate_after(history) || stalemate_after(history)
}

/// Whether the game on the board has ended in checkmate or stalemate.
pub fn is_game_over(board: &GameBoard) -> (r: bool)
    ensures
        r == game_over_after(board@),
{
    is_checkmate(&board.board) || is_stalemate(&board.board)
}

} // verus!
