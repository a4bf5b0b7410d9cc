use crate::defaults::types::PieceType;
use crate::model::Piece;
use vstd::prelude::*;

verus! {

/// The player who owns the piece with the number `id` at the start:
/// player 0 owns the pieces 0 to 15, player 1 the pieces 16 to 31.
pub open spec fn setup_player(id: int) -> int {
    id / 16
}

/// The kind of the piece with the number `id` at the start. Of the sixteen
/// pieces of a player the first eight are pawns; two rooks, two knights,
/// two bishops, the queen and the king follow.
pub open spec fn setup_kind(id: int) -> PieceType {
    let k = id % 16;
    if k < 8 {
        PieceType::Pawn
    } else if k < 10 {
        PieceType::Rook
    } else if k < 12 {
        PieceType::Knight
    } else if k < 14 {
        PieceType::Bishop
    } else if k == 14 {
        PieceType::Queen
    } else {
        PieceType::King
    }
}

/// The row of the piece with the number `id` at the start: player 0 has
/// its pawns on row 1 and its other pieces on row 0, player 1 has its
/// pawns on row 6 and its other pieces on row 7.
pub open spec fn setup_row(id: int) -> int {
    if id % 16 < 8 {
        if id < 16 {
            1
        } else {
            6
        }
    } else {
        if id < 16 {
            0
        } else {
            7
        }
    }
}

/// The column of the piece with the number `id` at the start. The pawns
/// stand in the order of their numbers; the rooks stand on the columns 0
/// and 7, the knights on 1 and 6, the bishops on 2 and 5, the queen on 3
/// and the king on 4.
pub open spec fn setup_col(id: int) -> int {
    let k = id % 16;
    if k < 8 {
        k
    } else if k == 8 {
        0
    } else if k == 9 {
        7
    } else if k == 10 {
        1
    } else if k == 11 {
        6
    } else if k == 12 {
        2
    } else if k == 13 {
        5
    } else if k == 14 {
        3
    } else {
        4
    }
}

/// Whether `piece` is the piece with the number `id` as it stands at the
/// start.
pub open spec fn is_setup_piece(piece: Piece<2>, id: int) -> bool {
    &&& piece.id == id
    &&& piece.player == setup_player(id)
    &&& piece.sub_id is None
    &&& piece.ty == setup_kind(id).code()
    &&& piece.pos@ == seq![setup_row(id), setup_col(id)]
}

/// Whether `pieces` are the thirty-two pieces as they stand at the start.
pub open spec fn is_setup(pieces: Seq<Piece<2>>) -> bool {
    &&& pieces.len() == 32
    &&& forall|id: int| 0 <= id < 32 ==> is_setup_piece(#[trigger] pieces[id], id)
}

/// How many of the first `upto` pieces belong to `player`.
pub open spec fn owned_by(pieces: Seq<Piece<2>>, player: int, upto: int) -> nat
    decreases upto,
{
    if upto <= 0 {
        0
    } else if pieces[upto - 1].player == player {
        owned_by(pieces, player, upto - 1) + 1
    } else {
        owned_by(pieces, player, upto - 1)
    }
}

/// Of the first `upto` pieces at the start, player 0 owns all up to
/// sixteen and player 1 owns the rest.
proof fn lemma_setup_owners(pieces: Seq<Piece<2>>, upto: int)
    requires
        is_setup(pieces),
        0 <= upto <= 32,
    ensures
        owned_by(pieces, 0, upto) == if upto <= 16 { upto } else { 16 },
        owned_by(pieces, 1, upto) == if upto <= 16 { 0 } else { upto - 16 },
    decreases upto,
{
    if upto > 0 {
        lemma_setup_owners(pieces, upto - 1);
        assert(is_setup_piece(pieces[upto - 1], upto - 1));
    }
}

/// At the start each of the two players owns sixteen pieces; the pawns
/// of player 0 stand on row 1 and those of player 1 on row 6; both kings
/// stand on column 4; and behind the pawns stand, from column 0 to
/// column 7, rook, knight, bishop, queen, king, bishop, knight and rook.
pub proof fn lemma_setup(pieces: Seq<Piece<2>>)
    requires
        is_setup(pieces),
    ensures
        owned_by(pieces, 0, 32) == 16,
        owned_by(pieces, 1, 32) == 16,
        forall|id: int|
            0 <= id < 32 && (#[trigger] pieces[id]).ty == PieceType::Pawn.code() ==> pieces[id].pos@[0]
                == if pieces[id].player == 0 { 1int } else { 6int },
        forall|id: int|
            0 <= id < 32 && (#[trigger] pieces[id]).ty == PieceType::King.code()
                ==> pieces[id].pos@[1] == 4,
        forall|id: int|
            0 <= id < 32 && (#[trigger] pieces[id]).ty != PieceType::Pawn.code() ==> {
                let col = pieces[id].pos@[1];
                &&& pieces[id].pos@[0] == if pieces[id].player == 0 { 0int } else { 7int }
                &&& PieceType::of_code(pieces[id].ty as int) == if col == 0 || col == 7 {
                    PieceType::Rook
                } else if col == 1 || col == 6 {
                    PieceType::Knight
                } else if col == 2 || col == 5 {
                    PieceType::Bishop
                } else if col == 3 {
                    PieceType::Queen
                } else {
                    PieceType::King
                }
            },
{
    lemma_setup_owners(pieces, 32);
    assert forall|id: int| 0 <= id < 32 implies is_setup_piece(#[trigger] pieces[id], id) by {}
}

} // verus!
