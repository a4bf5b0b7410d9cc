use shess::defaults::command::{chars_of, find_first, group_in, number_in, read_command};
use shess::defaults::normal::Default8x8;
use shess::defaults::render::{draw, piece_to_emoji};
use shess::error::append_decimal;
use shess::{Board, GameError, Mode, Move, MoveCache, Piece, Player, Point};

#[test]
fn points_are_equal_where_all_coordinates_are() {
    assert_eq!(Point::new([1, 2]), Point::new([1, 2]));
    assert_ne!(Point::new([1, 2]), Point::new([2, 1]));
    assert_ne!(Point::new([1, 2, 3]), Point::new([1, 2, 4]));
    assert!(Point::new([5, -6, 7]).same_as(&Point::new([5, -6, 7])));
    assert!(!Point::new([5, -6, 7]).same_as(&Point::new([5, 6, 7])));
    assert!(Point::<0>::new([]).same_as(&Point::new([])));
    assert_eq!(Point::new([4, 9]).get(0), 4);
    assert_eq!(Point::new([4, 9]).get(1), 9);
}

#[test]
fn board_holds_from_its_origin_up_to_its_size() {
    let board = Board::new(Point::new([0, 0]), [8, 8]);
    assert!(board.contains(&Point::new([0, 0])));
    assert!(board.contains(&Point::new([7, 7])));
    assert!(!board.contains(&Point::new([8, 0])));
    assert!(!board.contains(&Point::new([0, 8])));
    assert!(!board.contains(&Point::new([-1, 0])));
    assert!(!board.contains(&Point::new([0, -1])));
}

#[test]
fn board_with_another_origin_ends_at_origin_plus_size() {
    let board = Board::new(Point::new([2, -3, 10]), [4, 3, 1]);
    assert!(board.contains(&Point::new([2, -3, 10])));
    assert!(board.contains(&Point::new([5, -1, 10])));
    assert!(!board.contains(&Point::new([6, -1, 10])));
    assert!(!board.contains(&Point::new([5, 0, 10])));
    assert!(!board.contains(&Point::new([5, -1, 11])));
    assert!(!board.contains(&Point::new([1, -3, 10])));
    let wide = Board::new(Point::new([i32::MAX - 1]), [i32::MAX]);
    assert!(wide.contains(&Point::new([i32::MAX])));
    assert!(!wide.contains(&Point::new([0])));
    let none = Board::new(Point::new([0]), [0]);
    assert!(!none.contains(&Point::new([0])));
}

#[test]
fn default_mode_checks_bounds_and_occupancy() {
    let mode = Default8x8::new();
    assert!(mode.check_bounds(Point::new([7, 0])));
    assert!(!mode.check_bounds(Point::new([8, 0])));
    assert!(mode.check_unoccupied(Point::new([0, 0])));
    assert!(mode.check_unoccupied(Point::new([6, 5])));
    assert!(!mode.check_unoccupied(Point::new([3, 3])));
    assert_eq!(mode.find_piece(Point::new([0, 4])), Some((0, 15, 5)));
    assert_eq!(mode.find_piece(Point::new([6, 7])), Some((1, 23, 0)));
    assert_eq!(mode.find_piece(Point::new([4, 4])), None);
}

#[test]
fn pieces_are_made_with_and_without_a_second_number() {
    let piece = Piece::new(1, 7, 3, Point::new([2, 5]));
    assert_eq!((piece.player, piece.id, piece.sub_id, piece.ty, piece.pos), (1, 7, None, 3, Point::new([2, 5])));
    let part = Piece::new_with_sub(0, 8, 2, 4, Point::new([1, 1, 1]));
    assert_eq!((part.player, part.id, part.sub_id, part.ty, part.pos), (0, 8, Some(2), 4, Point::new([1, 1, 1])));
    assert_eq!(Player::new(12).id, 12);
}

#[test]
fn log_appends_at_the_end() {
    let mut log: MoveCache<2> = MoveCache::new();
    assert!(log.all().is_empty());
    let first = Move { player_id: 0, piece_id: 3, from: None, to: Point::new([1, 1]) };
    let second = Move { player_id: 1, piece_id: 4, from: Some(Point::new([1, 1])), to: Point::new([2, 2]) };
    log.append(first);
    log.append(second);
    assert_eq!(log.all().len(), 2);
    assert_eq!(log.all()[0].piece_id, 3);
    assert_eq!(log.all()[0].from, None);
    assert_eq!(log.all()[1].piece_id, 4);
    assert_eq!(log.all()[1].from, Some(Point::new([1, 1])));
    let roomy: MoveCache<3> = MoveCache::new_with_capacity(64);
    assert!(roomy.all().is_empty());
}

#[test]
fn errors_have_their_words() {
    assert_eq!(GameError::EmptySquare(Point::new([0, 0])).message(), "Square: (0, 0) is empty");
    assert_eq!(GameError::EmptySquare(Point::new([-12, 305])).message(), "Square: (-12, 305) is empty");
    assert_eq!(
        GameError::EmptySquare(Point::new([i32::MIN, i32::MAX])).message(),
        "Square: (-2147483648, 2147483647) is empty"
    );
    assert_eq!(GameError::WrongPlayer.message(), "Not your figure");
    assert_eq!(GameError::OutOfBounds.message(), "Position is out of Bounds");
    assert_eq!(GameError::IllegalShape.message(), "Invalid Move");
    assert_eq!(GameError::OccupiedDestination.message(), "Already Occupied");
    assert_eq!(GameError::BackendEmpty.message(), "Empty");
    assert_eq!(GameError::NoStagedMove.message(), "No move is staged");
    assert_eq!(GameError::UnknownPlayerId.message(), "Unknown player");
    assert_eq!(GameError::MalformedCommand.message(), "Not a move");
}

#[test]
fn only_two_errors_end_the_session() {
    assert!(!GameError::NoStagedMove.is_recoverable());
    assert!(!GameError::UnknownPlayerId.is_recoverable());
    for error in [
        GameError::EmptySquare(Point::new([1, 1])),
        GameError::WrongPlayer,
        GameError::OutOfBounds,
        GameError::IllegalShape,
        GameError::OccupiedDestination,
        GameError::BackendEmpty,
        GameError::MalformedCommand,
    ] {
        assert!(error.is_recoverable());
    }
}

#[test]
fn integers_are_written_in_decimal() {
    for (n, expected) in [(0, "0"), (7, "7"), (10, "10"), (-1, "-1"), (1090, "1090"), (i32::MAX, "2147483647"), (i32::MIN, "-2147483648")] {
        let mut text = String::from("x");
        append_decimal(&mut text, n);
        assert_eq!(text, format!("x{}", expected));
        assert_eq!(text, format!("x{}", n));
    }
}

#[test]
fn command_parts_are_recognised() {
    let chars = chars_of("12 -7 -> +3 x");
    assert_eq!(chars.len(), 13);
    assert_eq!(chars[3], '-');
    assert_eq!(find_first(&chars, 0, 13, '>'), 7);
    assert_eq!(find_first(&chars, 0, 13, ' '), 2);
    assert_eq!(find_first(&chars, 3, 13, ' '), 5);
    assert_eq!(find_first(&chars, 0, 13, 'q'), 13);
    assert_eq!(find_first(&chars, 4, 4, '7'), 4);
    assert!(number_in(&chars, 0, 2));
    assert!(number_in(&chars, 3, 5));
    assert!(number_in(&chars, 9, 11));
    assert!(!number_in(&chars, 3, 4));
    assert!(!number_in(&chars, 0, 3));
    assert!(!number_in(&chars, 12, 13));
    assert!(!number_in(&chars, 5, 5));
    assert!(group_in(&chars, 0, 5));
    assert!(!group_in(&chars, 9, 13));
    assert!(!group_in(&chars, 0, 2));
    assert!(!group_in(&chars, 0, 6));
    assert_eq!(read_command("12 -7 -> +3 x"), None);
    assert_eq!(read_command("12 -7 -> +3 4"), Some((Point::new([12, -7]), Point::new([3, 4]))));
}

#[test]
fn tokens_depend_on_owner_and_kind() {
    assert_eq!(piece_to_emoji(0, 5), "\u{1F633}");
    assert_eq!(piece_to_emoji(0, 4), "\u{1F607}");
    assert_eq!(piece_to_emoji(0, 3), "\u{1F91B}");
    assert_eq!(piece_to_emoji(0, 2), "\u{1F925}");
    assert_eq!(piece_to_emoji(0, 1), "\u{1F40E}");
    assert_eq!(piece_to_emoji(0, 0), "\u{1F975}");
    assert_eq!(piece_to_emoji(1, 5), "\u{1F608}");
    assert_eq!(piece_to_emoji(1, 4), "\u{1F479}");
    assert_eq!(piece_to_emoji(1, 3), "\u{1F91C}");
    assert_eq!(piece_to_emoji(1, 2), "\u{1F47E}");
    assert_eq!(piece_to_emoji(1, 1), "\u{1F434}");
    assert_eq!(piece_to_emoji(1, 0), "\u{1F976}");
    assert_eq!(piece_to_emoji(3, 0), "\u{1F976}");
}

fn empty_rows(from: usize) -> String {
    let light = "\u{2B1C}\u{FE0F}";
    let dark = "\u{2B1B}\u{FE0F}";
    let mut text = String::new();
    for row in from..8 {
        for col in 0..8 {
            text.push_str(if (row + col) % 2 == 0 { light } else { dark });
        }
        text.push('\n');
    }
    text
}

#[test]
fn empty_board_alternates_light_and_dark() {
    let text = draw(&Vec::new());
    assert_eq!(text, empty_rows(0));
    assert_eq!(text.lines().count(), 8);
    assert!(text.starts_with("\u{2B1C}\u{FE0F}\u{2B1B}\u{FE0F}"));
}

#[test]
fn player_zero_is_drawn_on_its_own_rows() {
    let mode = Default8x8::new();
    let own: Vec<Piece<2>> = mode.pieces.iter().filter(|p| p.player == 0).copied().collect();
    let mut expected = String::from(
        "\u{1F91B}\u{1F40E}\u{1F925}\u{1F607}\u{1F633}\u{1F925}\u{1F40E}\u{1F91B}\n",
    );
    expected.push_str(&"\u{1F975}".repeat(8));
    expected.push('\n');
    expected.push_str(&empty_rows(2));
    assert_eq!(draw(&own), expected);
}

#[test]
fn start_of_a_game_is_drawn_with_the_second_player_on_top() {
    let mode = Default8x8::new();
    let mut expected = String::from(
        "\u{1F91C}\u{1F434}\u{1F47E}\u{1F479}\u{1F608}\u{1F47E}\u{1F434}\u{1F91C}\n",
    );
    expected.push_str(&"\u{1F976}".repeat(8));
    expected.push('\n');
    expected.push_str(&empty_rows(2));
    assert_eq!(mode.rendered_board(), expected);
}

#[test]
fn drawing_follows_a_committed_move() {
    let mut mode = Default8x8::new();
    assert_eq!(mode.next_move(String::from("6 0 -> 7 1"), 1), Ok(None));
    assert_eq!(mode.execute_move(1), Ok(()));
    let text = mode.rendered_board();
    let rows: Vec<&str> = text.lines().collect();
    assert_eq!(rows.len(), 8);
    assert_eq!(rows[0], "\u{1F91C}\u{1F434}\u{1F47E}\u{1F479}\u{1F608}\u{1F47E}\u{1F434}\u{1F91C}");
    assert_eq!(
        rows[1],
        "\u{1F975}\u{1F976}\u{1F976}\u{1F976}\u{1F976}\u{1F976}\u{1F976}\u{1F976}"
    );
}
