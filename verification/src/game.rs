use crate::error::GameError;
use crate::mode::{Backend, Mode};
use crate::model::{Player, PlayerSwap};
use vstd::prelude::*;

verus! {

/// How a turn ended where the session goes on.
#[derive(Debug, Copy, Clone, PartialEq, Eq)]
pub enum TurnOutcome {
    /// A move was committed and the turn has passed on.
    Completed,
    /// Nothing was committed: the same player is to be asked again. The
    /// error says why.
    Retry(GameError),
}

/// A game: a rule set, a channel to the players, the roster, and the
/// player whose turn it is, by number and by place in the roster.
pub struct Game<M: Mode, B: Backend> {
    pub mode: M,
    pub backend: B,
    pub players: Vec<Player>,
    pub current_player: (i32, usize),
}

/// The place after `index` in a roster of `len` players; after the last
/// place comes the first.
pub open spec fn forward(len: int, index: int) -> int {
    if index + 1 < len {
        index + 1
    } else {
        0
    }
}

/// The place before `index` in a roster of `len` players; before the
/// first place comes the last.
pub open spec fn backward(len: int, index: int) -> int {
    if 1 <= index {
        index - 1
    } else {
        len - 1
    }
}

/// The first place at or after `from` that holds the player with the
/// number `id`, or the length of the roster where there is none.
pub open spec fn place_of(players: Seq<Player>, id: i32, from: int) -> int
    decreases players.len() - from,
{
    if from >= players.len() {
        players.len() as int
    } else if players[from].id == id {
        from
    } else {
        place_of(players, id, from + 1)
    }
}

/// `place_of` is the least place at or after `from` that holds the player
/// with the number `id`.
pub proof fn lemma_place_of(players: Seq<Player>, id: i32, from: int, found: int)
    requires
        0 <= from <= found <= players.len(),
        forall|i: int| from <= i < found ==> players[i].id != id,
        found < players.len() ==> players[found].id == id,
    ensures
        place_of(players, id, from) == found,
    decreases found - from,
{
    if from < found {
        lemma_place_of(players, id, from + 1, found);
    }
}

/// The place to which the turn passes from `index`, or `None` where it
/// is to pass to a player who is not in the roster.
pub open spec fn next_place(players: Seq<Player>, index: int, swap: PlayerSwap) -> Option<int> {
    match swap {
        PlayerSwap::NextUp => Some(forward(players.len() as int, index)),
        PlayerSwap::NextDown => Some(backward(players.len() as int, index)),
        PlayerSwap::Same => Some(index),
        PlayerSwap::Custom(id) => if place_of(players, id, 0) < players.len() {
            Some(place_of(players, id, 0))
        } else {
            None
        },
    }
}

/// The place that is reached from `index` by passing the turn forward
/// `times` times.
pub open spec fn forward_by(len: int, index: int, times: nat) -> int
    decreases times,
{
    if times == 0 {
        index
    } else {
        forward(len, forward_by(len, index, (times - 1) as nat))
    }
}

/// Passing the turn forward `times` times from the first place of a
/// roster leads to the place `times` modulo the length of the roster.
pub proof fn lemma_forward_cycles(len: int, times: nat)
    requires
        len > 0,
    ensures
        forward_by(len, 0, times) == times as int % len,
    decreases times,
{
    if times > 0 {
        lemma_forward_cycles(len, (times - 1) as nat);
        let before = (times - 1) as int;
        vstd::arithmetic::div_mod::lemma_fundamental_div_mod(before, len);
        vstd::arithmetic::div_mod::lemma_mod_bound(before, len);
        let quotient = before / len;
        assert(quotient * len == len * quotient) by (nonlinear_arith);
        if before % len + 1 < len {
            vstd::arithmetic::div_mod::lemma_fundamental_div_mod_converse(
                times as int,
                len,
                before / len,
                before % len + 1,
            );
        } else {
            assert((quotient + 1) * len == len * quotient + len) by (nonlinear_arith);
            vstd::arithmetic::div_mod::lemma_fundamental_div_mod_converse(
                times as int,
                len,
                before / len + 1,
                0,
            );
        }
    } else {
        vstd::arithmetic::div_mod::lemma_fundamental_div_mod_converse(0, len, 0, 0);
    }
}

/// In the roster of the two players 0 and 1 the turn goes 0, 1, 0, 1 and
/// so on: passing it forward `times` times from player 0 leads to the
/// place `times` modulo 2 and to the player with that number, and passing
/// it forward once more is what `NextUp` does there.
pub proof fn lemma_two_players_alternate(players: Seq<Player>, times: nat)
    requires
        players.len() == 2,
        players[0].id == 0,
        players[1].id == 1,
    ensures
        forward_by(2, 0, times) == times as int % 2,
        players[forward_by(2, 0, times)].id == times as int % 2,
        next_place(players, forward_by(2, 0, times), PlayerSwap::NextUp) == Some(
            forward_by(2, 0, times + 1),
        ),
{
    lemma_forward_cycles(2, times);
}

/// What a player is told where no input could be had.
pub open spec fn wrong_input_notice() -> Seq<char> {
    "Wrong Input"@
}

/// What a player is told where a command was refused.
pub open spec fn refusal_notice(error: GameError) -> Seq<char> {
    "Error in Move: "@ + error.text()
}

/// Whether the channel handed a text over.
pub open spec fn has_text(received: Result<Option<String>, GameError>) -> bool {
    match received {
        Ok(Some(_)) => true,
        _ => false,
    }
}

/// The text that the channel handed over.
pub open spec fn text_of(received: Result<Option<String>, GameError>) -> Seq<char>
    recommends
        has_text(received),
{
    match received {
        Ok(Some(text)) => text@,
        _ => Seq::<char>::empty(),
    }
}

/// The error that stands for an input that could not be had: the
/// channel's own error, or `BackendEmpty` where the channel answered
/// without a text.
pub open spec fn missing_input(received: Result<Option<String>, GameError>) -> GameError {
    match received {
        Err(error) => error,
        _ => GameError::BackendEmpty,
    }
}

impl<M: Mode, B: Backend> Game<M, B> {
    /// The invariant of a game: the rule set's state is valid, the roster
    /// is not empty, and the current player is the one at the current
    /// place of the roster.
    pub open spec fn well_formed(&self) -> bool {
        &&& M::valid(self.mode@)
        &&& self.players@.len() > 0
        &&& self.current_player.1 < self.players@.len()
        &&& self.current_player.0 == self.players@[self.current_player.1 as int].id
    }

    /// A game at its start: the rule set and the channel are new, the
    /// roster is the rule set's, and the turn is the first player's.
    pub fn new() -> (game: Self)
        ensures
            game.well_formed(),
            M::initial(game.mode@),
            !M::staged(game.mode@),
            game.backend.outbox() == Seq::<Seq<char>>::empty(),
            forall|player: i32| (#[trigger] game.backend.backend_id(player)) is None,
            forall|id: B::Id| (#[trigger] game.backend.player_id(id)) is None,
            game.players@.len() == M::PLAYERS,
            game.players@.len() == M::roster().len(),
            forall|place: int|
                0 <= place < game.players@.len() ==> (#[trigger] game.players@[place]).id
                    == M::roster()[place],
            game.current_player == (M::STARTING_PLAYER, 0usize),
    {
        let mode = M::new();
        let backend = B::new();
        let players = mode.create_player();
        Self { mode, backend, players, current_player: (M::STARTING_PLAYER, 0) }
    }

    /// The first place of the roster that holds the player with the
    /// number `id`, or the length of the roster where there is none.
    fn find_place(&self, id: i32) -> (place: usize)
        ensures
            place == place_of(self.players@, id, 0),
            place <= self.players@.len(),
            place < self.players@.len() ==> self.players@[place as int].id == id,
    {
        let mut place: usize = 0;
        while place < self.players.len() && self.players[place].id != id
            invariant
                place <= self.players@.len(),
                forall|i: int| 0 <= i < place ==> self.players@[i].id != id,
            decreases self.players@.len() - place,
        {
            place += 1;
        }
        proof {
            lemma_place_of(self.players@, id, 0, place as int);
        }
        place
    }

    /// Passes the turn on as `swap` says. Where it is to pass to a player
    /// who is not in the roster, this fails with `UnknownPlayerId` and
    /// the turn stays where it is.
    pub fn swap_player(&mut self, swap: PlayerSwap) -> (done: Result<(), GameError>)
        requires
            old(self).well_formed(),
        ensures
            final(self).well_formed(),
            final(self).mode == old(self).mode,
            final(self).backend == old(self).backend,
            final(self).players == old(self).players,
            match next_place(old(self).players@, old(self).current_player.1 as int, swap) {
                Some(place) => {
                    &&& done is Ok
                    &&& final(self).current_player.1 == place
                    &&& final(self).current_player.0 == old(self).players@[place].id
                },
                None => done == Err::<(), GameError>(GameError::UnknownPlayerId)
                    && final(self).current_player == old(self).current_player,
            },
    {
        let place: usize = match swap {
            PlayerSwap::NextUp => {
                if self.current_player.1 < self.players.len() - 1 {
                    self.current_player.1 + 1
                } else {
                    0
                }
            },
            PlayerSwap::NextDown => {
                if self.current_player.1 >= 1 {
                    self.current_player.1 - 1
                } else {
                    self.players.len() - 1
                }
            },
            PlayerSwap::Same => self.current_player.1,
            PlayerSwap::Custom(next) => {
                let found = self.find_place(next);
                if found >= self.players.len() {
                    return Err(GameError::UnknownPlayerId);
                }
                found
            },
        };
        self.current_player = (self.players[place].id, place);
        Ok(())
    }

    /// Whether a turn that came to nothing ended as it must: the rule
    /// set's state and the turn are as in `before`; and either the
    /// channel accepted `notice`, which is then the newest message of its
    /// outbox, and the turn is to be taken again because of `error`, or
    /// the channel refused it, its outbox is as before, and the turn has
    /// failed.
    pub open spec fn asked_again(
        before: &Self,
        after: &Self,
        notice: Seq<char>,
        error: GameError,
        outcome: Result<TurnOutcome, GameError>,
    ) -> bool {
        &&& after.mode@ == before.mode@
        &&& after.current_player == before.current_player
        &&& match outcome {
            Ok(turn) => turn == TurnOutcome::Retry(error) && after.backend.outbox()
                == before.backend.outbox().push(notice),
            Err(_) => after.backend.outbox() == before.backend.outbox(),
        }
    }

    /// Whether a turn with the command `text` ended as it must.
    ///
    /// Where the rule set refuses the command with an error that ends the
    /// session, the turn fails with that error and nothing has changed.
    /// Where it refuses the command with another error, the player is
    /// told `Error in Move: ` and the error's words, and the turn is to
    /// be taken again. Where it accepts the command, the staged move is
    /// committed for the current player, the channel is as before, and
    /// the turn passes on as the rule set says after the commit; where it
    /// is to pass to a player who is not in the roster, the turn stays
    /// and fails with `UnknownPlayerId`.
    pub open spec fn played(
        before: &Self,
        after: &Self,
        text: Seq<char>,
        outcome: Result<TurnOutcome, GameError>,
    ) -> bool {
        let player = before.current_player.0;
        match M::judge(before.mode@, text, player) {
            Err(error) => if error.recoverable() {
                Self::asked_again(before, after, refusal_notice(error), error, outcome)
            } else {
                &&& outcome == Err::<TurnOutcome, GameError>(error)
                &&& after.mode@ == before.mode@
                &&& after.backend == before.backend
                &&& after.current_player == before.current_player
            },
            Ok(_) => {
                let committed = M::committed(M::proposed(before.mode@, text, player), player);
                &&& after.mode@ == committed
                &&& after.backend == before.backend
                &&& match next_place(
                    before.players@,
                    before.current_player.1 as int,
                    M::policy(committed),
                ) {
                    Some(place) => {
                        &&& outcome == Ok::<TurnOutcome, GameError>(TurnOutcome::Completed)
                        &&& after.current_player.1 == place
                        &&& after.current_player.0 == before.players@[place].id
                    },
                    None => {
                        &&& outcome == Err::<TurnOutcome, GameError>(GameError::UnknownPlayerId)
                        &&& after.current_player == before.current_player
                    },
                }
            },
        }
    }

    /// Whether a turn with what the channel handed over ended as it
    /// must: as a turn with a command where it handed a text over, and
    /// else as a turn that came to nothing, of which the player is told
    /// `Wrong Input`.
    pub open spec fn ended(
        before: &Self,
        after: &Self,
        received: Result<Option<String>, GameError>,
        outcome: Result<TurnOutcome, GameError>,
    ) -> bool {
        if has_text(received) {
            Self::played(before, after, text_of(received), outcome)
        } else {
            Self::asked_again(
                before,
                after,
                wrong_input_notice(),
                missing_input(received),
                outcome,
            )
        }
    }

    /// This game with another channel in place of its own.
    pub open spec fn with_channel(self, channel: B) -> Self {
        Game {
            mode: self.mode,
            backend: channel,
            players: self.players,
            current_player: self.current_player,
        }
    }

    /// Tells the player that a turn came to nothing, with the given
    /// words, and reports the turn as one to be taken again.
    fn ask_again(&mut self, notice: String, error: GameError) -> (outcome: Result<
        TurnOutcome,
        GameError,
    >)
        ensures
            final(self).mode == old(self).mode,
            final(self).players == old(self).players,
            Self::asked_again(old(self), final(self), notice@, error, outcome),
    {
        let sent = self.backend.send(notice);
        after_notice(sent, error)
    }

    /// Takes one turn with what the channel handed over.
    ///
    /// Where no text was received, the player is told `Wrong Input` and
    /// the turn is to be taken again. Where a text was received, it is
    /// played as a command of the current player: a command that the rule
    /// set refuses moves nothing, and one that it accepts is committed
    /// and passes the turn on.
    pub fn take_turn(&mut self, received: Result<Option<String>, GameError>) -> (outcome: Result<
        TurnOutcome,
        GameError,
    >)
        requires
            old(self).well_formed(),
        ensures
            final(self).well_formed(),
            final(self).players == old(self).players,
            Self::ended(old(self), final(self), received, outcome),
    {
        let input = match received {
            Ok(Some(text)) => text,
            Ok(None) => {
                return self.ask_again(String::from_str("Wrong Input"), GameError::BackendEmpty);
            },
            Err(error) => {
                return self.ask_again(String::from_str("Wrong Input"), error);
            },
        };
        match self.mode.next_move(input, self.current_player.0) {
            Ok(_) => {},
            Err(error) => {
                if !error.is_recoverable() {
                    return Err(error);
                }
                let mut notice = String::from_str("Error in Move: ");
                notice.append(error.message().as_str());
                return self.ask_again(notice, error);
            },
        }
        match self.mode.execute_move(self.current_player.0) {
            Ok(_) => {},
            Err(error) => {
                return Err(error);
            },
        }
        match self.swap_player(self.mode.next_player()) {
            Ok(_) => Ok(TurnOutcome::Completed),
            Err(error) => Err(error),
        }
    }

    /// Takes one turn: asks the channel for input and takes the turn with
    /// what it hands over. What the channel hands over is for the channel
    /// to decide; whatever it was, the turn ended as `take_turn` ends with
    /// it, from the state in which the channel left the game.
    pub fn next_move(&mut self) -> (outcome: Result<TurnOutcome, GameError>)
        requires
            old(self).well_formed(),
        ensures
            final(self).well_formed(),
            final(self).players == old(self).players,
            exists|received: Result<Option<String>, GameError>, channel: B| #[trigger]
                Self::ended(&(*old(self)).with_channel(channel), final(self), received, outcome),
    {
        let received = self.backend.receive();
        let ghost before = *self;
        let ghost handed = received;
        let outcome = self.take_turn(received);
        proof {
            assert((*old(self)).with_channel(before.backend) == before);
            assert(Self::ended(
                &(*old(self)).with_channel(before.backend),
                self,
                handed,
                outcome,
            ));
        }
        outcome
    }
}

/// How a turn that came to nothing ends, given the channel's answer to
/// the notice: where the channel accepted the notice, the turn is to be
/// taken again because of `error`; where it refused the notice, the turn
/// fails with the channel's own error.
pub fn after_notice(sent: Result<Option<String>, GameError>, error: GameError) -> (outcome: Result<
    TurnOutcome,
    GameError,
>)
    ensures
        outcome == match sent {
            Ok(_) => Ok::<TurnOutcome, GameError>(TurnOutcome::Retry(error)),
            Err(failure) => Err::<TurnOutcome, GameError>(failure),
        },
{
    match sent {
        Ok(_) => Ok(TurnOutcome::Retry(error)),
        Err(failure) => Err(failure),
    }
}

} // verus!
