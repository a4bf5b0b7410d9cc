use crate::defaults::normal::Position;
use crate::defaults::rules::{first_on, lemma_first_on_bounds, lemma_first_with_id, point2};
use crate::error::GameError;
use crate::model::Move;
use vstd::prelude::*;

verus! {

/// A proposal moves no piece and logs nothing, whether it is accepted or
/// refused; a refused proposal changes nothing at all; and an accepted
/// one stages the piece that stands on `start`, to go to `end`.
pub proof fn lemma_proposal_moves_nothing(
    position: Position,
    start: Seq<int>,
    end: Seq<int>,
    player: i32,
)
    ensures
        position.proposed(start, end, player).pieces == position.pieces,
        position.proposed(start, end, player).log == position.log,
        position.proposed(start, end, player).board == position.board,
        position.refusal(start, end, player) is Some ==> position.proposed(start, end, player)
            == position,
        position.refusal(start, end, player) is None ==> position.proposed(
            start,
            end,
            player,
        ).staged == Some((position.pieces[first_on(position.pieces, start, 0)].id, point2(end))),
{
}

/// A command moves no piece and logs nothing, whether it is accepted or
/// refused, and a refused command changes nothing at all.
pub proof fn lemma_command_moves_nothing(position: Position, text: Seq<char>, player: i32)
    ensures
        position.commanded(text, player).pieces == position.pieces,
        position.commanded(text, player).log == position.log,
        position.commanded(text, player).board == position.board,
        position.command_answer(text, player) is Err ==> position.commanded(text, player)
            == position,
{
}

/// A proposal and a commit keep the invariant of the rule set: every
/// piece stays on the board.
pub proof fn lemma_valid_kept(
    position: Position,
    start: Seq<int>,
    end: Seq<int>,
    player: i32,
    committer: i32,
)
    requires
        position.valid(),
    ensures
        position.proposed(start, end, player).valid(),
        position.committed(committer).valid(),
{
    lemma_first_on_bounds(position.pieces, start, 0);
    if position.refusal(start, end, player) is None {
        let found = first_on(position.pieces, start, 0);
        assert(position.pieces[found].id == found);
        assert(point2(end)@ =~= end);
    }
    if let Some((id, to)) = position.staged {
        lemma_first_with_id(position.pieces, id, 0, id as int);
    }
}

/// After an accepted proposal, a commit succeeds, the piece that stood
/// first on `start` stands on `end`, every other piece stands where it
/// stood, the move is the newest entry of the log, and nothing is staged.
pub proof fn lemma_commit_reaches_destination(
    position: Position,
    start: Seq<int>,
    end: Seq<int>,
    player: i32,
    committer: i32,
)
    requires
        position.valid(),
        position.refusal(start, end, player) is None,
    ensures
        ({
            let staged = position.proposed(start, end, player);
            let after = staged.committed(committer);
            let moving = first_on(position.pieces, start, 0);
            &&& staged.commit_answer() is Ok
            &&& after.staged is None
            &&& 0 <= moving < 32
            &&& after.pieces.len() == 32
            &&& after.pieces[moving].pos@ == end
            &&& forall|i: int| 0 <= i < 32 && i != moving ==> after.pieces[i] == position.pieces[i]
            &&& after.log == position.log.push(
                Move {
                    player_id: committer,
                    piece_id: moving as i32,
                    from: Some(position.pieces[moving].pos),
                    to: point2(end),
                },
            )
        }),
{
    lemma_first_on_bounds(position.pieces, start, 0);
    let moving = first_on(position.pieces, start, 0);
    assert(position.pieces[moving].id == moving);
    lemma_first_with_id(position.pieces, moving as i32, 0, moving);
    assert(point2(end)@ =~= end);
}

/// Whenever a move is committed, the staged piece stands on the staged
/// destination afterwards and nothing is staged.
pub proof fn lemma_commit_moves_staged_piece(position: Position, committer: i32)
    requires
        position.valid(),
        position.staged is Some,
    ensures
        position.commit_answer() is Ok,
        position.committed(committer).staged is None,
        position.staged matches Some((id, to)) ==> {
            &&& position.committed(committer).pieces[id as int].pos == to
            &&& position.committed(committer).log.last().to == to
        },
{
    let (id, to) = position.staged->0;
    lemma_first_with_id(position.pieces, id, 0, id as int);
}

/// A commit leaves nothing staged, so a commit that follows it without a
/// proposal in between fails with `NoStagedMove` and changes nothing.
pub proof fn lemma_second_commit_fails(position: Position, first: i32, second: i32)
    ensures
        position.committed(first).commit_answer() == Err::<(), GameError>(
            GameError::NoStagedMove,
        ),
        position.committed(first).committed(second) == position.committed(first),
{
}

/// On the board of the default rule set a square lies on the board where
/// its row and its column are both at least 0 and less than 8.
pub proof fn lemma_board_extent(position: Position, at: Seq<int>)
    requires
        position.valid(),
    ensures
        position.board.holds(at) <==> at.len() == 2 && 0 <= at[0] < 8 && 0 <= at[1] < 8,
{
    assert(position.board.start@[0] == 0 && position.board.start@[1] == 0);
    assert(position.board.size@[0] == 8 && position.board.size@[1] == 8);
    if at.len() == 2 && 0 <= at[0] < 8 && 0 <= at[1] < 8 {
        assert forall|axis: int| 0 <= axis < 2 implies position.board.start@[axis]
            <= #[trigger] at[axis] < position.board.start@[axis] + position.board.size[axis] by {
            assert(axis == 0 || axis == 1);
        }
    }
    if position.board.holds(at) {
        assert(position.board.start@[0] <= at[0] < position.board.start@[0]
            + position.board.size[0]);
        assert(position.board.start@[1] <= at[1] < position.board.start@[1]
            + position.board.size[1]);
    }
}

/// A player's move of an own piece to a square whose row or column is
/// less than 0 or more than 7 is refused with `OutOfBounds`, whatever the
/// shape of the step.
pub proof fn lemma_off_board_is_out_of_bounds(
    position: Position,
    start: Seq<int>,
    end: Seq<int>,
    player: i32,
)
    requires
        position.valid(),
        first_on(position.pieces, start, 0) < position.pieces.len(),
        position.pieces[first_on(position.pieces, start, 0)].player == player,
        !(0 <= end[0] < 8) || !(0 <= end[1] < 8),
    ensures
        position.refusal(start, end, player) == Some(GameError::OutOfBounds),
{
    lemma_board_extent(position, end);
}

} // verus!
