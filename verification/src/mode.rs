use crate::error::GameError;
use crate::model::{Player, PlayerSwap, RenderMove2D};
use vstd::prelude::*;

verus! {

/// A rule set: it sets the board up, judges a player's command and keeps
/// the move it accepted as the staged move, commits the staged move, shows
/// the board, and says who moves next.
///
/// What a rule set does is a function of its state, taken as the
/// mathematical value that its view gives: the spec functions of the trait
/// say what that function is, and the methods do what they say.
pub trait Mode: Sized + View {
    /// How many players take part.
    const PLAYERS: usize;

    /// The number of the player who moves first.
    const STARTING_PLAYER: i32;

    /// The number of axes of the board.
    const DIMENSIONS: usize;

    /// The invariant of the rule set's state.
    spec fn valid(state: Self::V) -> bool;

    /// Whether a state is one that a game starts from.
    spec fn initial(state: Self::V) -> bool;

    /// The numbers of the players, in the order of play.
    spec fn roster() -> Seq<i32>;

    /// Whether a move is staged.
    spec fn staged(state: Self::V) -> bool;

    /// Where every piece stands, one entry for each piece.
    spec fn placement(state: Self::V) -> Seq<RenderMove2D>;

    /// How the turn passes on after a commit that led to this state.
    spec fn policy(state: Self::V) -> PlayerSwap;

    /// The board as text.
    spec fn rendering(state: Self::V) -> Seq<char>;

    /// The answer to the command `input` of `player`.
    spec fn judge(state: Self::V, input: Seq<char>, player: i32) -> Result<
        Option<String>,
        GameError,
    >;

    /// The state after the command `input` of `player`.
    spec fn proposed(state: Self::V, input: Seq<char>, player: i32) -> Self::V;

    /// The state after a commit by `player`.
    spec fn committed(state: Self::V, player: i32) -> Self::V;

    /// The rule set at the start of a game, with nothing staged.
    fn new() -> (mode: Self)
        ensures
            Self::initial(mode@),
            Self::valid(mode@),
            !Self::staged(mode@),
    ;

    /// The players of the roster, in the order of play. The roster is not
    /// empty, and the player who moves first comes first.
    fn create_player(&self) -> (players: Vec<Player>)
        requires
            Self::valid(self@),
        ensures
            players.len() == Self::PLAYERS,
            players.len() > 0,
            players[0].id == Self::STARTING_PLAYER,
            players.len() == Self::roster().len(),
            forall|place: int|
                0 <= place < players.len() ==> (#[trigger] players[place]).id == Self::roster()[place],
    ;

    /// Judges a command of `player`. A command that is accepted becomes
    /// the staged move; one that is refused changes nothing. No piece
    /// moves either way.
    fn next_move(&mut self, input: String, player: i32) -> (answer: Result<
        Option<String>,
        GameError,
    >)
        requires
            Self::valid(old(self)@),
        ensures
            Self::valid(final(self)@),
            answer == Self::judge(old(self)@, input@, player),
            final(self)@ == Self::proposed(old(self)@, input@, player),
            Self::placement(final(self)@) == Self::placement(old(self)@),
            answer is Ok ==> Self::staged(final(self)@),
            answer is Err ==> final(self)@ == old(self)@,
    ;

    /// Commits the staged move and leaves nothing staged. Where no move
    /// is staged this fails with `NoStagedMove` and changes nothing.
    fn execute_move(&mut self, player: i32) -> (done: Result<(), GameError>)
        requires
            Self::valid(old(self)@),
        ensures
            Self::valid(final(self)@),
            final(self)@ == Self::committed(old(self)@, player),
            !Self::staged(final(self)@),
            Self::staged(old(self)@) ==> done is Ok,
            !Self::staged(old(self)@) ==> done == Err::<(), GameError>(GameError::NoStagedMove)
                && final(self)@ == old(self)@,
    ;

    /// Where every piece stands, and the length of the board's side.
    fn board(&self) -> (snapshot: (Vec<RenderMove2D>, usize))
        requires
            Self::valid(self@),
        ensures
            snapshot.0@ == Self::placement(self@),
    ;

    /// The board as text.
    fn rendered_board(&self) -> (text: String)
        requires
            Self::valid(self@),
        ensures
            text@ == Self::rendering(self@),
    ;

    /// How the turn passes on.
    fn next_player(&self) -> (swap: PlayerSwap)
        requires
            Self::valid(self@),
        ensures
            swap == Self::policy(self@),
    ;
}

/// A channel to the players: it takes messages for them and hands over
/// what they typed.
pub trait Backend: Sized {
    /// The name by which the channel knows a player.
    type Id;

    /// The messages that the channel has accepted and still holds, oldest
    /// first.
    spec fn outbox(&self) -> Seq<Seq<char>>;

    /// The channel's name for a player, where it has one.
    spec fn backend_id(&self, player: i32) -> Option<Self::Id>;

    /// The player behind one of the channel's names, where there is one.
    spec fn player_id(&self, id: Self::Id) -> Option<i32>;

    /// A channel that has accepted nothing yet and knows no player.
    fn new() -> (backend: Self)
        ensures
            backend.outbox() == Seq::<Seq<char>>::empty(),
            forall|player: i32| (#[trigger] backend.backend_id(player)) is None,
            forall|id: Self::Id| (#[trigger] backend.player_id(id)) is None,
    ;

    /// The next input, or an error where there is none.
    fn receive(&mut self) -> (input: Result<Option<String>, GameError>)
    ;

    /// Hands a message over. A message that the channel accepts is the
    /// newest in its outbox; one that it refuses changes nothing there.
    fn send(&mut self, msg: String) -> (answer: Result<Option<String>, GameError>)
        ensures
            answer is Ok ==> final(self).outbox() == old(self).outbox().push(msg@),
            answer is Err ==> final(self).outbox() == old(self).outbox(),
    ;

    /// The channel's name for a player; `UnknownPlayerId` where it has
    /// none.
    fn player_to_backend(&self, id: i32) -> (name: Result<Self::Id, GameError>)
        ensures
            match self.backend_id(id) {
                Some(known) => name == Ok::<Self::Id, GameError>(known),
                None => name == Err::<Self::Id, GameError>(GameError::UnknownPlayerId),
            },
    ;

    /// The player behind one of the channel's names; `UnknownPlayerId`
    /// where there is none.
    fn backend_to_player(&self, id: Self::Id) -> (player: Result<i32, GameError>)
        ensures
            match self.player_id(id) {
                Some(known) => player == Ok::<i32, GameError>(known),
                None => player == Err::<i32, GameError>(GameError::UnknownPlayerId),
            },
    ;
}

} // verus!
