use shess::defaults::normal::Default8x8;
use shess::defaults::types::PieceType;
use shess::discord::Discord;
use shess::{Backend, Game, Mode, Point};

#[test]
fn test() {
    let mut game: Game<Default8x8, Discord> = Game::new();
    let _ = game.next_move();
}

#[test]
fn setup_gives_each_player_sixteen_pieces() {
    let mode = Default8x8::new();
    assert_eq!(mode.pieces.len(), 32);
    assert_eq!(mode.pieces.iter().filter(|p| p.player == 0).count(), 16);
    assert_eq!(mode.pieces.iter().filter(|p| p.player == 1).count(), 16);
}

#[test]
fn setup_numbers_the_pieces_in_order() {
    let mode = Default8x8::new();
    for (index, piece) in mode.pieces.iter().enumerate() {
        assert_eq!(piece.id, index as i32);
        assert_eq!(piece.sub_id, None);
    }
}

#[test]
fn setup_puts_pawns_on_rows_one_and_six() {
    let mode = Default8x8::new();
    let pawn: i32 = PieceType::Pawn.into();
    let mut seen = 0;
    for piece in mode.pieces.iter().filter(|p| p.ty == pawn) {
        let row = if piece.player == 0 { 1 } else { 6 };
        assert_eq!(piece.pos.coords[0], row);
        seen += 1;
    }
    assert_eq!(seen, 16);
    for col in 0..8 {
        assert_eq!(mode.pieces[col].pos, Point::new([1, col as i32]));
        assert_eq!(mode.pieces[16 + col].pos, Point::new([6, col as i32]));
    }
}

#[test]
fn setup_puts_kings_on_column_four() {
    let mode = Default8x8::new();
    let king: i32 = PieceType::King.into();
    let kings: Vec<_> = mode.pieces.iter().filter(|p| p.ty == king).collect();
    assert_eq!(kings.len(), 2);
    assert_eq!(kings[0].pos, Point::new([0, 4]));
    assert_eq!(kings[0].id, 15);
    assert_eq!(kings[1].pos, Point::new([7, 4]));
    assert_eq!(kings[1].id, 31);
}

#[test]
fn setup_orders_the_back_rank() {
    let mode = Default8x8::new();
    let order = [
        PieceType::Rook,
        PieceType::Knight,
        PieceType::Bishop,
        PieceType::Queen,
        PieceType::King,
        PieceType::Bishop,
        PieceType::Knight,
        PieceType::Rook,
    ];
    for (player, row) in [(0, 0), (1, 7)] {
        for col in 0..8 {
            let found = mode.find_piece(Point::new([row, col as i32]));
            let code: i32 = order[col].into();
            let (owner, _, ty) = found.unwrap();
            assert_eq!(owner, player);
            assert_eq!(ty, code);
        }
    }
}

#[test]
fn setup_piece_numbers_of_the_back_rank() {
    let mode = Default8x8::new();
    let squares = [(8, 0), (9, 7), (10, 1), (11, 6), (12, 2), (13, 5), (14, 3), (15, 4)];
    for (id, col) in squares {
        assert_eq!(mode.pieces[id].pos, Point::new([0, col]));
        assert_eq!(mode.pieces[id + 16].pos, Point::new([7, col]));
        assert_eq!(mode.pieces[id].player, 0);
        assert_eq!(mode.pieces[id + 16].player, 1);
    }
}

#[test]
fn setup_starts_with_an_empty_log_and_nothing_staged() {
    let mode = Default8x8::new();
    assert!(mode.cache.all().is_empty());
    assert!(mode.next_move.is_none());
    assert_eq!(mode.board.start, Point::new([0, 0]));
    assert_eq!(mode.board.size, [8, 8]);
}

#[test]
fn roster_has_players_zero_and_one() {
    let mode = Default8x8::new();
    let players = mode.create_player();
    assert_eq!(players.len(), 2);
    assert_eq!(players[0].id, 0);
    assert_eq!(players[1].id, 1);
    assert_eq!(Default8x8::PLAYERS, 2);
    assert_eq!(Default8x8::STARTING_PLAYER, 0);
    assert_eq!(Default8x8::DIMENSIONS, 2);
}

#[test]
fn snapshot_lists_every_piece() {
    let mode = Default8x8::new();
    let (snapshot, side) = mode.board();
    assert_eq!(side, 8);
    assert_eq!(snapshot.len(), 32);
    for (index, entry) in snapshot.iter().enumerate() {
        assert_eq!(entry.piece_id, mode.pieces[index].id);
        assert_eq!(entry.player_id, mode.pieces[index].player);
        assert_eq!(entry.pos, mode.pieces[index].pos);
    }
}

#[test]
fn new_game_starts_with_player_zero() {
    let game: Game<Default8x8, Discord> = Game::new();
    assert_eq!(game.current_player, (0, 0));
    assert_eq!(game.players.len(), 2);
    assert!(game.backend.queue.is_empty());
    assert_eq!(game.backend.player_to_backend(0), Err(shess::GameError::UnknownPlayerId));
}
