use shess::defaults::normal::Default8x8;
use shess::discord::Discord;
use shess::game::after_notice;
use shess::{Backend, Game, GameError, Player, PlayerSwap, Point, TurnOutcome};

fn game() -> Game<Default8x8, Discord> {
    Game::new()
}

#[test]
fn turn_without_input_asks_again() {
    let mut game = game();
    assert_eq!(game.next_move(), Ok(TurnOutcome::Retry(GameError::BackendEmpty)));
    assert_eq!(game.backend.queue, vec![String::from("Wrong Input")]);
    assert_eq!(game.current_player, (0, 0));
    assert!(game.mode.cache.all().is_empty());
}

#[test]
fn turn_with_a_legal_command_commits_and_passes_on() {
    let mut game = game();
    game.backend.queue.push(String::from("1 2 -> 1 3"));
    assert_eq!(game.next_move(), Ok(TurnOutcome::Completed));
    assert_eq!(game.current_player, (1, 1));
    assert_eq!(game.mode.pieces[2].pos, Point::new([1, 3]));
    assert_eq!(game.mode.cache.all().len(), 1);
    assert_eq!(game.mode.cache.all()[0].player_id, 0);
    assert!(game.mode.next_move.is_none());
    assert!(game.backend.queue.is_empty());
}

#[test]
fn turns_alternate_between_the_two_players() {
    let mut game = game();
    let commands = ["1 2 -> 1 3", "6 2 -> 6 3", "1 3 -> 1 4", "6 3 -> 6 4", "0 0 -> 0 1"];
    let mut order = vec![game.current_player];
    for command in commands {
        game.backend.queue.push(String::from(command));
        assert_eq!(game.next_move(), Ok(TurnOutcome::Completed));
        order.push(game.current_player);
    }
    assert_eq!(order, vec![(0, 0), (1, 1), (0, 0), (1, 1), (0, 0), (1, 1)]);
    assert_eq!(game.mode.cache.all().len(), 5);
}

#[test]
fn refused_command_is_reported_and_the_player_stays() {
    let mut game = game();
    game.backend.queue.push(String::from("1 2 -> 2 2"));
    assert_eq!(game.next_move(), Ok(TurnOutcome::Retry(GameError::IllegalShape)));
    assert_eq!(game.backend.queue, vec![String::from("Error in Move: Invalid Move")]);
    assert_eq!(game.current_player, (0, 0));
    assert!(game.mode.cache.all().is_empty());
    assert_eq!(game.mode.pieces[2].pos, Point::new([1, 2]));
}

#[test]
fn each_refusal_has_its_own_notice() {
    let cases = [
        ("3 3 -> 4 4", GameError::EmptySquare(Point::new([3, 3])), "Error in Move: Square: (3, 3) is empty"),
        ("6 0 -> 6 1", GameError::WrongPlayer, "Error in Move: Not your figure"),
        ("1 2 -> 1 8", GameError::OutOfBounds, "Error in Move: Position is out of Bounds"),
        ("1 2 -> 3 2", GameError::IllegalShape, "Error in Move: Invalid Move"),
        ("1 2 -> 2 3", GameError::OccupiedDestination, "Error in Move: Already Occupied"),
        ("hello", GameError::MalformedCommand, "Error in Move: Not a move"),
    ];
    for (command, error, notice) in cases {
        let mut game = game();
        game.backend.queue.push(String::from(command));
        assert_eq!(game.next_move(), Ok(TurnOutcome::Retry(error)));
        assert_eq!(game.backend.queue, vec![String::from(notice)]);
        assert_eq!(game.current_player, (0, 0));
    }
}

#[test]
fn take_turn_with_a_channel_error_asks_again() {
    let mut game = game();
    assert_eq!(
        game.take_turn(Err(GameError::BackendEmpty)),
        Ok(TurnOutcome::Retry(GameError::BackendEmpty))
    );
    assert_eq!(game.take_turn(Ok(None)), Ok(TurnOutcome::Retry(GameError::BackendEmpty)));
    assert_eq!(
        game.take_turn(Err(GameError::WrongPlayer)),
        Ok(TurnOutcome::Retry(GameError::WrongPlayer))
    );
    assert_eq!(
        game.backend.queue,
        vec![String::from("Wrong Input"), String::from("Wrong Input"), String::from("Wrong Input")]
    );
    assert_eq!(game.current_player, (0, 0));
}

#[test]
fn take_turn_with_a_text_plays_it() {
    let mut game = game();
    assert_eq!(
        game.take_turn(Ok(Some(String::from("0 0 -> 0 1")))),
        Ok(TurnOutcome::Completed)
    );
    assert_eq!(game.current_player, (1, 1));
    assert_eq!(game.mode.pieces[8].pos, Point::new([0, 1]));
    assert!(game.backend.queue.is_empty());
}

#[test]
fn notice_of_a_turn_without_input_is_read_as_the_next_input() {
    let mut game = game();
    assert_eq!(game.next_move(), Ok(TurnOutcome::Retry(GameError::BackendEmpty)));
    assert_eq!(game.next_move(), Ok(TurnOutcome::Retry(GameError::MalformedCommand)));
    assert_eq!(game.backend.queue, vec![String::from("Error in Move: Not a move")]);
}

#[test]
fn swap_forward_wraps_to_the_first_player() {
    let mut game = game();
    assert_eq!(game.swap_player(PlayerSwap::NextUp), Ok(()));
    assert_eq!(game.current_player, (1, 1));
    assert_eq!(game.swap_player(PlayerSwap::NextUp), Ok(()));
    assert_eq!(game.current_player, (0, 0));
}

#[test]
fn swap_forward_k_times_reaches_k_modulo_two() {
    let mut game = game();
    for k in 1..=9usize {
        assert_eq!(game.swap_player(PlayerSwap::NextUp), Ok(()));
        assert_eq!(game.current_player.1, k % 2);
        assert_eq!(game.current_player.0, (k % 2) as i32);
    }
}

#[test]
fn swap_forward_over_three_players() {
    let mut game = game();
    game.players.push(Player::new(9));
    let mut places = Vec::new();
    for _ in 0..7 {
        assert_eq!(game.swap_player(PlayerSwap::NextUp), Ok(()));
        places.push(game.current_player);
    }
    assert_eq!(places, vec![(1, 1), (9, 2), (0, 0), (1, 1), (9, 2), (0, 0), (1, 1)]);
}

#[test]
fn swap_backward_wraps_to_the_last_player() {
    let mut game = game();
    game.players.push(Player::new(9));
    assert_eq!(game.swap_player(PlayerSwap::NextDown), Ok(()));
    assert_eq!(game.current_player, (9, 2));
    assert_eq!(game.swap_player(PlayerSwap::NextDown), Ok(()));
    assert_eq!(game.current_player, (1, 1));
    assert_eq!(game.swap_player(PlayerSwap::NextDown), Ok(()));
    assert_eq!(game.current_player, (0, 0));
}

#[test]
fn swap_same_keeps_the_player() {
    let mut game = game();
    assert_eq!(game.swap_player(PlayerSwap::NextUp), Ok(()));
    assert_eq!(game.swap_player(PlayerSwap::Same), Ok(()));
    assert_eq!(game.current_player, (1, 1));
}

#[test]
fn swap_custom_jumps_to_the_player_with_that_number() {
    let mut game = game();
    game.players.push(Player::new(9));
    game.players.push(Player::new(1));
    assert_eq!(game.swap_player(PlayerSwap::Custom(9)), Ok(()));
    assert_eq!(game.current_player, (9, 2));
    assert_eq!(game.swap_player(PlayerSwap::Custom(1)), Ok(()));
    assert_eq!(game.current_player, (1, 1));
    assert_eq!(game.swap_player(PlayerSwap::Custom(0)), Ok(()));
    assert_eq!(game.current_player, (0, 0));
}

#[test]
fn swap_custom_to_an_unknown_player_fails() {
    let mut game = game();
    assert_eq!(game.swap_player(PlayerSwap::NextUp), Ok(()));
    assert_eq!(game.swap_player(PlayerSwap::Custom(5)), Err(GameError::UnknownPlayerId));
    assert_eq!(game.current_player, (1, 1));
}

#[test]
fn queue_hands_out_the_newest_text_first() {
    let mut backend = Discord::new();
    assert_eq!(backend.receive(), Err(GameError::BackendEmpty));
    assert_eq!(backend.send(String::from("first")), Ok(None));
    assert_eq!(backend.send(String::from("second")), Ok(None));
    assert_eq!(backend.queue, vec![String::from("first"), String::from("second")]);
    assert_eq!(backend.receive(), Ok(Some(String::from("second"))));
    assert_eq!(backend.receive(), Ok(Some(String::from("first"))));
    assert_eq!(backend.receive(), Err(GameError::BackendEmpty));
}

#[test]
fn channel_names_map_both_ways() {
    let mut backend = Discord::new();
    assert_eq!(backend.player_to_backend(0), Err(GameError::UnknownPlayerId));
    assert_eq!(backend.backend_to_player(700), Err(GameError::UnknownPlayerId));
    backend.set_player(0, 700);
    backend.set_player(1, 701);
    assert_eq!(backend.player_to_backend(0), Ok(700));
    assert_eq!(backend.player_to_backend(1), Ok(701));
    assert_eq!(backend.backend_to_player(700), Ok(0));
    assert_eq!(backend.backend_to_player(701), Ok(1));
    assert_eq!(backend.player_to_backend(2), Err(GameError::UnknownPlayerId));
    backend.set_player(0, 702);
    assert_eq!(backend.player_to_backend(0), Ok(702));
    assert_eq!(backend.backend_to_player(702), Ok(0));
    assert_eq!(backend.backend_to_player(700), Ok(0));
    assert!(backend.queue.is_empty());
}

#[test]
fn accepted_notice_asks_again_and_refused_notice_fails() {
    assert_eq!(
        after_notice(Ok(None), GameError::IllegalShape),
        Ok(TurnOutcome::Retry(GameError::IllegalShape))
    );
    assert_eq!(
        after_notice(Ok(Some(String::from("seen"))), GameError::BackendEmpty),
        Ok(TurnOutcome::Retry(GameError::BackendEmpty))
    );
    assert_eq!(
        after_notice(Err(GameError::BackendEmpty), GameError::IllegalShape),
        Err(GameError::BackendEmpty)
    );
    assert_eq!(
        after_notice(Err(GameError::WrongPlayer), GameError::OutOfBounds),
        Err(GameError::WrongPlayer)
    );
}
