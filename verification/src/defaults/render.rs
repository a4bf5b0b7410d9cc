use crate::defaults::types::PieceType;
use crate::model::Piece;
use vstd::prelude::*;

verus! {

/// The token of an empty light square.
pub open spec fn light_square() -> Seq<char> {
    "\u{2B1C}\u{FE0F}"@
}

/// The token of an empty dark square.
pub open spec fn dark_square() -> Seq<char> {
    "\u{2B1B}\u{FE0F}"@
}

/// The token of the empty square of `row` and `col`: light where the sum
/// of the two is even, dark where it is odd.
pub open spec fn background(row: int, col: int) -> Seq<char> {
    if (row + col) % 2 == 0 {
        light_square()
    } else {
        dark_square()
    }
}

/// The token of a piece of the given kind. Player 0 has one set of
/// tokens, every other player the second set.
pub open spec fn glyph(player: int, kind: PieceType) -> Seq<char> {
    if player == 0 {
        match kind {
            PieceType::King => "\u{1F633}"@,
            PieceType::Queen => "\u{1F607}"@,
            PieceType::Rook => "\u{1F91B}"@,
            PieceType::Bishop => "\u{1F925}"@,
            PieceType::Knight => "\u{1F40E}"@,
            PieceType::Pawn => "\u{1F975}"@,
        }
    } else {
        match kind {
            PieceType::King => "\u{1F608}"@,
            PieceType::Queen => "\u{1F479}"@,
            PieceType::Rook => "\u{1F91C}"@,
            PieceType::Bishop => "\u{1F47E}"@,
            PieceType::Knight => "\u{1F434}"@,
            PieceType::Pawn => "\u{1F976}"@,
        }
    }
}

/// The row on which a piece is drawn: its own row for player 0, and for
/// every other player the row counted from the far side of the board.
pub open spec fn shown_row(piece: Piece<2>) -> int {
    if piece.player == 0 {
        piece.pos@[0]
    } else {
        7 - piece.pos@[0]
    }
}

/// The index of the last of the first `upto` pieces that is drawn on the
/// square of `row` and `col`, or -1 where none is.
pub open spec fn top_piece(pieces: Seq<Piece<2>>, row: int, col: int, upto: int) -> int
    decreases upto,
{
    if upto <= 0 {
        -1
    } else if shown_row(pieces[upto - 1]) == row && pieces[upto - 1].pos@[1] == col {
        upto - 1
    } else {
        top_piece(pieces, row, col, upto - 1)
    }
}

/// What is drawn on the square of `row` and `col` once the first `upto`
/// pieces are on the board: the token of the last of them that is drawn
/// there, or the empty square.
pub open spec fn cell_text(pieces: Seq<Piece<2>>, row: int, col: int, upto: int) -> Seq<char> {
    let top = top_piece(pieces, row, col, upto);
    if top >= 0 {
        glyph(pieces[top].player as int, PieceType::of_code(pieces[top].ty as int))
    } else {
        background(row, col)
    }
}

/// The first `cols` squares of a row, drawn from column 0 on.
pub open spec fn row_text(pieces: Seq<Piece<2>>, row: int, cols: int) -> Seq<char>
    decreases cols,
{
    if cols <= 0 {
        Seq::<char>::empty()
    } else {
        row_text(pieces, row, cols - 1) + cell_text(pieces, row, cols - 1, pieces.len() as int)
    }
}

/// The first `rows` rows of the board, drawn from row 0 on: the eight
/// squares of each row and a line feed after them.
pub open spec fn board_text(pieces: Seq<Piece<2>>, rows: int) -> Seq<char>
    decreases rows,
{
    if rows <= 0 {
        Seq::<char>::empty()
    } else {
        board_text(pieces, rows - 1) + row_text(pieces, rows - 1, 8) + "\n"@
    }
}

/// Whether every piece has a kind and stands on one of the sixty-four
/// squares.
pub open spec fn drawable(pieces: Seq<Piece<2>>) -> bool {
    forall|i: int|
        0 <= i < pieces.len() ==> {
            &&& PieceType::is_code((#[trigger] pieces[i]).ty as int)
            &&& 0 <= pieces[i].pos@[0] < 8
            &&& 0 <= pieces[i].pos@[1] < 8
        }
}

/// The token of a piece of `player_id` whose kind has the number
/// `piece_id`.
pub fn piece_to_emoji(player_id: i32, piece_id: i32) -> (token: String)
    requires
        PieceType::is_code(piece_id as int),
    ensures
        token@ == glyph(player_id as int, PieceType::of_code(piece_id as int)),
{
    let piece = PieceType::from(piece_id);
    if player_id == 0 {
        match piece {
            PieceType::King => String::from_str("\u{1F633}"),
            PieceType::Queen => String::from_str("\u{1F607}"),
            PieceType::Rook => String::from_str("\u{1F91B}"),
            PieceType::Bishop => String::from_str("\u{1F925}"),
            PieceType::Knight => String::from_str("\u{1F40E}"),
            PieceType::Pawn => String::from_str("\u{1F975}"),
        }
    } else {
        match piece {
            PieceType::King => String::from_str("\u{1F608}"),
            PieceType::Queen => String::from_str("\u{1F479}"),
            PieceType::Rook => String::from_str("\u{1F91C}"),
            PieceType::Bishop => String::from_str("\u{1F47E}"),
            PieceType::Knight => String::from_str("\u{1F434}"),
            PieceType::Pawn => String::from_str("\u{1F976}"),
        }
    }
}

/// The sixty-four empty squares, row after row.
fn empty_board() -> (cells: Vec<String>)
    ensures
        cells.len() == 64,
        forall|i: int| 0 <= i < 64 ==> (#[trigger] cells[i])@ == background(i / 8, i % 8),
{
    let mut cells: Vec<String> = Vec::with_capacity(64);
    let mut index: usize = 0;
    while index < 64
        invariant
            index <= 64,
            cells.len() == index,
            forall|i: int| 0 <= i < index ==> (#[trigger] cells[i])@ == background(i / 8, i % 8),
        decreases 64 - index,
    {
        let row: usize = index / 8;
        let col: usize = index % 8;
        if (row + col) % 2 == 0 {
            cells.push(String::from_str("\u{2B1C}\u{FE0F}"));
        } else {
            cells.push(String::from_str("\u{2B1B}\u{FE0F}"));
        }
        index += 1;
    }
    cells
}

/// Draws the board with the given pieces on it: eight lines, one for each
/// row from row 0 on, each with the eight squares of the row from column
/// 0 on and a line feed after them. A piece that is drawn on the square
/// of an earlier piece hides it.
pub fn draw(pieces: &Vec<Piece<2>>) -> (text: String)
    requires
        drawable(pieces@),
    ensures
        text@ == board_text(pieces@, 8),
{
    let mut cells = empty_board();
    let mut k: usize = 0;
    while k < pieces.len()
        invariant
            k <= pieces.len(),
            drawable(pieces@),
            cells.len() == 64,
            forall|i: int|
                0 <= i < 64 ==> (#[trigger] cells[i])@ == cell_text(pieces@, i / 8, i % 8, k as int),
        decreases pieces.len() - k,
    {
        let piece = &pieces[k];
        let row: i32 = if piece.player == 0 {
            piece.pos.get(0)
        } else {
            7 - piece.pos.get(0)
        };
        let col: i32 = piece.pos.get(1);
        let at: usize = (8 * row + col) as usize;
        let token = piece_to_emoji(piece.player, piece.ty);
        cells.set(at, token);
        k += 1;
        proof {
            assert forall|i: int| 0 <= i < 64 implies (#[trigger] cells[i])@ == cell_text(
                pieces@,
                i / 8,
                i % 8,
                k as int,
            ) by {
                if i == at {
                    assert(i / 8 == row && i % 8 == col);
                } else {
                    assert(!(i / 8 == row && i % 8 == col));
                }
            }
        }
    }
    let mut text = String::new();
    let mut row: usize = 0;
    while row < 8
        invariant
            row <= 8,
            k == pieces.len(),
            cells.len() == 64,
            forall|i: int|
                0 <= i < 64 ==> (#[trigger] cells[i])@ == cell_text(pieces@, i / 8, i % 8, k as int),
            text@ == board_text(pieces@, row as int),
        decreases 8 - row,
    {
        let ghost before = text@;
        let mut col: usize = 0;
        while col < 8
            invariant
                col <= 8,
                row < 8,
                k == pieces.len(),
                cells.len() == 64,
                forall|i: int|
                    0 <= i < 64 ==> (#[trigger] cells[i])@ == cell_text(
                        pieces@,
                        i / 8,
                        i % 8,
                        k as int,
                    ),
                text@ == before + row_text(pieces@, row as int, col as int),
            decreases 8 - col,
        {
            let at: usize = 8 * row + col;
            proof {
                assert(at as int / 8 == row && at as int % 8 == col);
            }
            text.append(cells[at].as_str());
            col += 1;
            proof {
                assert(text@ =~= before + row_text(pieces@, row as int, col as int));
            }
        }
        text.append("\n");
        row += 1;
    }
    text
}

} // verus!
