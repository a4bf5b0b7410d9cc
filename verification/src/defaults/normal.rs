use crate::cache::MoveCache;
use crate::defaults::command::{command_end, command_start, is_command, read_command};
use crate::defaults::render::{board_text, draw};
use crate::defaults::rules::{
    first_on, first_with_id, legal_shape, lemma_first_on, lemma_first_on_bounds,
    lemma_first_with_id, lemma_point2, point2,
};
use crate::defaults::setup::{
    is_setup, is_setup_piece, setup_col, setup_kind, setup_player, setup_row,
};
use crate::defaults::types::PieceType;
use crate::error::GameError;
use crate::mode::Mode;
use crate::model::{Board, Move, Piece, Player, PlayerSwap, RenderMove2D};
use crate::point::Point;
use vstd::prelude::*;

verus! {

/// The default rule set: two players on a board of eight rows and eight
/// columns, each with sixteen pieces.
pub struct Default8x8 {
    pub board: Board<2>,
    pub pieces: Vec<Piece<2>>,
    pub cache: MoveCache<2>,
    pub next_move: Option<(i32, Point<2>)>,
}

/// The state of the default rule set as a mathematical value.
pub struct Position {
    /// The extent of the board.
    pub board: Board<2>,
    /// The pieces, in the order of their numbers.
    pub pieces: Seq<Piece<2>>,
    /// The committed moves, oldest first.
    pub log: Seq<Move<2>>,
    /// The staged move: the number of a piece and its destination.
    pub staged: Option<(i32, Point<2>)>,
}

impl View for Default8x8 {
    type V = Position;

    open spec fn view(&self) -> Position {
        Position {
            board: self.board,
            pieces: self.pieces@,
            log: self.cache@,
            staged: self.next_move,
        }
    }
}

impl Position {
    /// The invariant of the rule set: the board has eight rows and eight
    /// columns from the origin; there are thirty-two pieces, each with
    /// its index as its number, with the owner and the kind that it had
    /// at the start, and on a square of the board; and a staged move
    /// names one of the pieces and a square on the board.
    pub open spec fn valid(self) -> bool {
        &&& self.board.start@ == seq![0int, 0int]
        &&& self.board.size@ == seq![8i32, 8i32]
        &&& self.pieces.len() == 32
        &&& forall|i: int|
            0 <= i < 32 ==> {
                &&& (#[trigger] self.pieces[i]).id == i
                &&& self.pieces[i].player == setup_player(i)
                &&& self.pieces[i].sub_id is None
                &&& self.pieces[i].ty == setup_kind(i).code()
                &&& self.board.holds(self.pieces[i].pos@)
            }
        &&& match self.staged {
            Some((id, to)) => 0 <= id < 32 && self.board.holds(to@),
            None => true,
        }
    }

    /// Whether the occupancy rule lets a move end on `at`: it does where
    /// a piece stands there.
    pub open spec fn admits(self, at: Seq<int>) -> bool {
        first_on(self.pieces, at, 0) < self.pieces.len()
    }

    /// Why the move of `player` from `start` to `end` is refused, or
    /// `None` where it is accepted. The tests are made in this order and
    /// the first that fails gives the error: a piece stands on `start`
    /// (the first of the pieces that do is the one that moves); it belongs
    /// to `player`; `end` lies on the board; the step has a shape that the
    /// piece's kind allows; the occupancy rule admits `end`.
    pub open spec fn refusal(self, start: Seq<int>, end: Seq<int>, player: i32) -> Option<
        GameError,
    > {
        let found = first_on(self.pieces, start, 0);
        if found >= self.pieces.len() {
            Some(GameError::EmptySquare(point2(start)))
        } else if self.pieces[found].player != player {
            Some(GameError::WrongPlayer)
        } else if !self.board.holds(end) {
            Some(GameError::OutOfBounds)
        } else if !legal_shape(PieceType::of_code(self.pieces[found].ty as int), start, end) {
            Some(GameError::IllegalShape)
        } else if !self.admits(end) {
            Some(GameError::OccupiedDestination)
        } else {
            None
        }
    }

    /// The state after `player` has proposed the move from `start` to
    /// `end`: unchanged where the move is refused; else with the moving
    /// piece's number and `end` as the staged move, and nothing else
    /// changed.
    pub open spec fn proposed(self, start: Seq<int>, end: Seq<int>, player: i32) -> Position {
        if self.refusal(start, end, player) is Some {
            self
        } else {
            Position {
                staged: Some((self.pieces[first_on(self.pieces, start, 0)].id, point2(end))),
                ..self
            }
        }
    }

    /// The answer to the proposal of `player` to move from `start` to
    /// `end`: the error where it is refused, an empty acknowledgement
    /// where it is accepted.
    pub open spec fn answer(self, start: Seq<int>, end: Seq<int>, player: i32) -> Result<
        Option<String>,
        GameError,
    > {
        match self.refusal(start, end, player) {
            Some(error) => Err(error),
            None => Ok(None),
        }
    }

    /// The state after the command `text` of `player`: unchanged where the
    /// text is no command, else as after the proposal that it stands for.
    pub open spec fn commanded(self, text: Seq<char>, player: i32) -> Position {
        if is_command(text) {
            self.proposed(command_start(text), command_end(text), player)
        } else {
            self
        }
    }

    /// The answer to the command `text` of `player`: `MalformedCommand`
    /// where the text is no command, else the answer to the proposal that
    /// it stands for.
    pub open spec fn command_answer(self, text: Seq<char>, player: i32) -> Result<
        Option<String>,
        GameError,
    > {
        if is_command(text) {
            self.answer(command_start(text), command_end(text), player)
        } else {
            Err(GameError::MalformedCommand)
        }
    }

    /// The move that a commit by `player` records: the staged piece goes
    /// from where it stands to the staged destination.
    pub open spec fn staged_move(self, player: i32) -> Move<2>
        recommends
            self.staged is Some,
    {
        let (id, to) = self.staged->0;
        Move {
            player_id: player,
            piece_id: id,
            from: Some(self.pieces[first_with_id(self.pieces, id, 0)].pos),
            to,
        }
    }

    /// The state after the staged move has been carried out and before it
    /// is logged: the staged piece stands on the staged destination and
    /// nothing is staged. Where nothing is staged the state is unchanged.
    pub open spec fn moved(self) -> Position {
        match self.staged {
            None => self,
            Some((id, to)) => {
                let index = first_with_id(self.pieces, id, 0);
                Position {
                    pieces: self.pieces.update(index, Piece { pos: to, ..self.pieces[index] }),
                    staged: None,
                    ..self
                }
            },
        }
    }

    /// The state after a commit by `player`: the staged move is carried
    /// out and is the newest entry of the log. Where nothing is staged
    /// the state is unchanged.
    pub open spec fn committed(self, player: i32) -> Position {
        match self.staged {
            None => self,
            Some(_) => Position { log: self.log.push(self.staged_move(player)), ..self.moved() },
        }
    }

    /// Where every piece stands: for each piece, in the order of the
    /// pieces, its owner, its number and its square.
    pub open spec fn placement(self) -> Seq<RenderMove2D> {
        Seq::new(
            self.pieces.len(),
            |i: int|
                RenderMove2D {
                    player_id: self.pieces[i].player,
                    piece_id: self.pieces[i].id,
                    pos: self.pieces[i].pos,
                },
        )
    }

    /// The answer to a commit: `NoStagedMove` where nothing is staged.
    pub open spec fn commit_answer(self) -> Result<(), GameError> {
        match self.staged {
            None => Err(GameError::NoStagedMove),
            Some(_) => Ok(()),
        }
    }
}

impl Default8x8 {
    /// The index of the first piece that stands on `pos`, or the number
    /// of pieces where none does.
    fn index_on(&self, pos: &Point<2>) -> (index: usize)
        ensures
            index == first_on(self.pieces@, pos@, 0),
            index <= self.pieces.len(),
            index < self.pieces.len() ==> self.pieces[index as int].pos@ == pos@,
    {
        let mut index: usize = 0;
        while index < self.pieces.len() && !self.pieces[index].pos.same_as(pos)
            invariant
                index <= self.pieces.len(),
                forall|i: int| 0 <= i < index ==> self.pieces[i].pos@ != pos@,
            decreases self.pieces.len() - index,
        {
            index += 1;
        }
        proof {
            lemma_first_on(self.pieces@, pos@, 0, index as int);
        }
        index
    }

    /// The owner, the number and the kind of the first piece that stands
    /// on `pos`, or `None` where the square is empty.
    pub fn find_piece(&self, pos: Point<2>) -> (found: Option<(i32, i32, i32)>)
        ensures
            found is Some <==> first_on(self.pieces@, pos@, 0) < self.pieces.len(),
            found is Some ==> {
                let piece = self.pieces[first_on(self.pieces@, pos@, 0)];
                found == Some((piece.player, piece.id, piece.ty))
            },
    {
        let index = self.index_on(&pos);
        if index < self.pieces.len() {
            let piece = &self.pieces[index];
            Some((piece.player, piece.id, piece.ty))
        } else {
            None
        }
    }

    /// Whether `point` lies on the board.
    pub fn check_bounds(&self, point: Point<2>) -> (inside: bool)
        ensures
            inside == self.board.holds(point@),
    {
        self.board.contains(&point)
    }

    /// Whether the occupancy rule lets a move end on `point`: it does
    /// where a piece stands there.
    pub fn check_unoccupied(&self, point: Point<2>) -> (admitted: bool)
        ensures
            admitted == self@.admits(point@),
    {
        self.index_on(&point) < self.pieces.len()
    }

    /// Whether a piece of the kind `pt` may go from `start` to `end`, by
    /// the shape of the step alone.
    pub fn check_valid_move(pt: PieceType, start: Point<2>, end: Point<2>) -> (legal: bool)
        ensures
            legal == legal_shape(pt, start@, end@),
    {
        let rows: i64 = start.get(0) as i64 - end.get(0) as i64;
        let cols: i64 = start.get(1) as i64 - end.get(1) as i64;
        let d_width: i64 = if rows < 0 { -rows } else { rows };
        let d_height: i64 = if cols < 0 { -cols } else { cols };
        match pt {
            PieceType::King => {
                proof {
                    assert(d_width * d_width + d_height * d_height == 1 <==> d_width + d_height
                        == 1) by (nonlinear_arith)
                        requires
                            d_width >= 0,
                            d_height >= 0,
                    ;
                }
                d_width + d_height == 1
            },
            PieceType::Queen => d_width == d_height || (d_width != 0 && d_height == 0) || (d_width
                == 0 && d_height != 0),
            PieceType::Rook => (d_width != 0 && d_height == 0) || (d_width == 0 && d_height != 0),
            PieceType::Bishop => d_width == d_height,
            PieceType::Knight => (d_width == 2 && d_height == 1) || d_height == 2 || d_width == 1,
            PieceType::Pawn => d_height == 1,
        }
    }

    /// Reads a move command: `Some` of the square it starts from and the
    /// square it leads to, or `None` where the text is no command.
    pub fn convert_input_to_move(input: &str) -> (squares: Option<(Point<2>, Point<2>)>)
        ensures
            squares is Some <==> is_command(input@),
            squares matches Some((start, end)) ==> start@ == command_start(input@) && end@
                == command_end(input@),
    {
        read_command(input)
    }

    /// Judges the move of `current_player` from `start` to `end` and
    /// stages it where it is accepted. No piece moves, and a refused move
    /// changes nothing.
    pub fn stage_move(&mut self, start: Point<2>, end: Point<2>, current_player: i32) -> (answer:
        Result<Option<String>, GameError>)
        requires
            old(self)@.valid(),
        ensures
            final(self)@.valid(),
            final(self)@ == old(self)@.proposed(start@, end@, current_player),
            answer == old(self)@.answer(start@, end@, current_player),
            answer is Err ==> *final(self) == *old(self),
    {
        proof {
            lemma_point2(start);
            lemma_point2(end);
        }
        let ghost found = first_on(self.pieces@, start@, 0);
        let (player_id, piece_id, piece_type) = match self.find_piece(start) {
            None => {
                return Err(GameError::EmptySquare(start));
            },
            Some(found) => found,
        };
        proof {
            lemma_first_on_bounds(self.pieces@, start@, 0);
            assert(self@.pieces[found].id == found);
        }
        if player_id != current_player {
            return Err(GameError::WrongPlayer);
        }
        if !self.check_bounds(end) {
            return Err(GameError::OutOfBounds);
        }
        if !Self::check_valid_move(PieceType::from(piece_type), start, end) {
            return Err(GameError::IllegalShape);
        }
        if !self.check_unoccupied(end) {
            return Err(GameError::OccupiedDestination);
        }
        self.next_move = Some((piece_id, end));
        Ok(None)
    }

    /// Judges a command of `current_player` and stages the move it stands
    /// for where that is accepted. No piece moves, and a refused command
    /// changes nothing.
    pub fn handle_input(&mut self, input: String, current_player: i32) -> (answer: Result<
        Option<String>,
        GameError,
    >)
        requires
            old(self)@.valid(),
        ensures
            final(self)@.valid(),
            final(self)@ == old(self)@.commanded(input@, current_player),
            answer == old(self)@.command_answer(input@, current_player),
            answer is Err ==> *final(self) == *old(self),
    {
        match Self::convert_input_to_move(input.as_str()) {
            None => Err(GameError::MalformedCommand),
            Some((start, end)) => self.stage_move(start, end, current_player),
        }
    }

    /// The index of the first piece with the number `id`, or the number
    /// of pieces where there is none.
    fn index_of_id(&self, id: i32) -> (index: usize)
        ensures
            index == first_with_id(self.pieces@, id, 0),
            index <= self.pieces.len(),
            index < self.pieces.len() ==> self.pieces[index as int].id == id,
    {
        let mut index: usize = 0;
        while index < self.pieces.len() && self.pieces[index].id != id
            invariant
                index <= self.pieces.len(),
                forall|i: int| 0 <= i < index ==> self.pieces[i].id != id,
            decreases self.pieces.len() - index,
        {
            index += 1;
        }
        proof {
            lemma_first_with_id(self.pieces@, id, 0, index as int);
        }
        index
    }

    /// Carries the staged move out for `player`: the staged piece goes to
    /// the staged destination, nothing stays staged, and the move is
    /// handed back. Where nothing is staged this fails with
    /// `NoStagedMove` and changes nothing.
    pub fn move_piece(&mut self, player: i32) -> (done: Result<Move<2>, GameError>)
        requires
            old(self)@.valid(),
        ensures
            final(self)@.valid(),
            final(self)@ == old(self)@.moved(),
            match old(self)@.staged {
                None => done == Err::<Move<2>, GameError>(GameError::NoStagedMove) && *final(self)
                    == *old(self),
                Some(_) => done == Ok::<Move<2>, GameError>(old(self)@.staged_move(player)),
            },
    {
        match self.next_move {
            None => Err(GameError::NoStagedMove),
            Some(next) => {
                let index = self.index_of_id(next.0);
                proof {
                    lemma_first_with_id(self.pieces@, next.0, 0, next.0 as int);
                }
                let mut piece = self.pieces[index];
                let mo = Move { player_id: player, piece_id: next.0, from: Some(piece.pos), to: next.1 };
                piece.pos = next.1;
                self.pieces.set(index, piece);
                self.next_move = None;
                proof {
                    assert(self@.pieces =~= old(self)@.moved().pieces);
                }
                Ok(mo)
            },
        }
    }

    /// Puts a new piece of `player` on the square of `row` and `col`. Its
    /// number is the number of pieces that were there before.
    fn put(&mut self, player: i32, kind: PieceType, row: i32, col: i32)
        requires
            old(self).pieces.len() < 32,
        ensures
            final(self).pieces@.len() == old(self).pieces@.len() + 1,
            final(self).pieces@.take(old(self).pieces@.len() as int) == old(self).pieces@,
            final(self).pieces@.last().id == old(self).pieces@.len(),
            final(self).pieces@.last().player == player,
            final(self).pieces@.last().sub_id is None,
            final(self).pieces@.last().ty == kind.code(),
            final(self).pieces@.last().pos@ == seq![row as int, col as int],
            final(self).board == old(self).board,
            final(self).cache == old(self).cache,
            final(self).next_move == old(self).next_move,
    {
        let id: i32 = self.pieces.len() as i32;
        let pos = Point::new([row, col]);
        proof {
            assert(pos@ =~= seq![row as int, col as int]);
        }
        self.pieces.push(Piece::new(player, id, kind.into(), pos));
        proof {
            assert(self.pieces@.take(old(self).pieces@.len() as int) =~= old(self).pieces@);
        }
    }

    /// Puts the sixteen pieces of `player` on the board: the pawns on
    /// `pawn_row`, the others on `back_row`.
    fn setup_side(&mut self, player: i32, pawn_row: i32, back_row: i32)
        requires
            old(self).pieces.len() == 16 * player,
            player == 0 || player == 1,
            pawn_row == setup_row(16 * player),
            back_row == setup_row(16 * player + 8),
            forall|id: int|
                0 <= id < 16 * player ==> is_setup_piece(#[trigger] old(self).pieces[id], id),
        ensures
            final(self).pieces.len() == 16 * player + 16,
            forall|id: int|
                0 <= id < 16 * player + 16 ==> is_setup_piece(#[trigger] final(self).pieces[id], id),
            final(self).board == old(self).board,
            final(self).cache == old(self).cache,
            final(self).next_move == old(self).next_move,
    {
        let mut col: i32 = 0;
        while col < 8
            invariant
                0 <= col <= 8,
                player == 0 || player == 1,
                pawn_row == setup_row(16 * player),
                self.pieces.len() == 16 * player + col,
                forall|id: int|
                    0 <= id < 16 * player + col ==> is_setup_piece(#[trigger] self.pieces[id], id),
                self.board == old(self).board,
                self.cache == old(self).cache,
                self.next_move == old(self).next_move,
            decreases 8 - col,
        {
            let ghost before = self.pieces@;
            self.put(player, PieceType::Pawn, pawn_row, col);
            proof {
                assert forall|id: int| 0 <= id < 16 * player + col + 1 implies is_setup_piece(
                    #[trigger] self.pieces[id],
                    id,
                ) by {
                    if id < 16 * player + col {
                        assert(self.pieces[id] == before[id]);
                    }
                }
            }
            col += 1;
        }
        self.place_back(player, PieceType::Rook, back_row, 0);
        self.place_back(player, PieceType::Rook, back_row, 7);
        self.place_back(player, PieceType::Knight, back_row, 1);
        self.place_back(player, PieceType::Knight, back_row, 6);
        self.place_back(player, PieceType::Bishop, back_row, 2);
        self.place_back(player, PieceType::Bishop, back_row, 5);
        self.place_back(player, PieceType::Queen, back_row, 3);
        self.place_back(player, PieceType::King, back_row, 4);
    }

    /// Puts one of the pieces behind the pawns on its square.
    fn place_back(&mut self, player: i32, kind: PieceType, row: i32, col: i32)
        requires
            player == 0 || player == 1,
            16 * player + 8 <= old(self).pieces.len() < 16 * player + 16,
            kind == setup_kind(old(self).pieces.len() as int),
            row == setup_row(old(self).pieces.len() as int),
            col == setup_col(old(self).pieces.len() as int),
            forall|id: int|
                0 <= id < old(self).pieces.len() ==> is_setup_piece(
                    #[trigger] old(self).pieces[id],
                    id,
                ),
        ensures
            final(self).pieces.len() == old(self).pieces.len() + 1,
            forall|id: int|
                0 <= id < final(self).pieces.len() ==> is_setup_piece(
                    #[trigger] final(self).pieces[id],
                    id,
                ),
            final(self).board == old(self).board,
            final(self).cache == old(self).cache,
            final(self).next_move == old(self).next_move,
    {
        let ghost before = self.pieces@;
        self.put(player, kind, row, col);
        proof {
            assert forall|id: int| 0 <= id < self.pieces.len() implies is_setup_piece(
                #[trigger] self.pieces[id],
                id,
            ) by {
                if id < before.len() {
                    assert(self.pieces[id] == before[id]);
                }
            }
        }
    }

    /// Sets the thirty-two pieces up as they stand at the start of a
    /// game, in place of the pieces that were there.
    pub fn default_setup(&mut self)
        ensures
            is_setup(final(self).pieces@),
            final(self).board == old(self).board,
            final(self).cache == old(self).cache,
            final(self).next_move == old(self).next_move,
    {
        self.pieces = Vec::with_capacity(32);
        self.setup_side(0, 1, 0);
        self.setup_side(1, 6, 7);
    }
}

/// The thirty-two pieces as they stand at the start, on the board of
/// eight rows and eight columns, make a valid state whatever the log
/// holds, as long as nothing is staged.
pub proof fn lemma_setup_is_valid(position: Position)
    requires
        is_setup(position.pieces),
        position.board.start@ == seq![0int, 0int],
        position.board.size@ == seq![8i32, 8i32],
        position.staged is None,
    ensures
        position.valid(),
{
    assert forall|i: int| 0 <= i < 32 implies {
        &&& (#[trigger] position.pieces[i]).id == i
        &&& position.pieces[i].player == setup_player(i)
        &&& position.pieces[i].sub_id is None
        &&& position.pieces[i].ty == setup_kind(i).code()
        &&& position.board.holds(position.pieces[i].pos@)
    } by {
        assert(is_setup_piece(position.pieces[i], i));
    }
}

impl Mode for Default8x8 {
    const PLAYERS: usize = 2;

    const STARTING_PLAYER: i32 = 0;

    const DIMENSIONS: usize = 2;

    open spec fn valid(state: Position) -> bool {
        state.valid()
    }

    open spec fn initial(state: Position) -> bool {
        &&& is_setup(state.pieces)
        &&& state.log == Seq::<Move<2>>::empty()
        &&& state.staged is None
    }

    open spec fn roster() -> Seq<i32> {
        seq![0i32, 1i32]
    }

    open spec fn staged(state: Position) -> bool {
        state.staged is Some
    }

    open spec fn placement(state: Position) -> Seq<RenderMove2D> {
        state.placement()
    }

    open spec fn policy(state: Position) -> PlayerSwap {
        PlayerSwap::NextUp
    }

    open spec fn rendering(state: Position) -> Seq<char> {
        board_text(state.pieces, 8)
    }

    open spec fn judge(state: Position, input: Seq<char>, player: i32) -> Result<
        Option<String>,
        GameError,
    > {
        state.command_answer(input, player)
    }

    open spec fn proposed(state: Position, input: Seq<char>, player: i32) -> Position {
        state.commanded(input, player)
    }

    open spec fn committed(state: Position, player: i32) -> Position {
        state.committed(player)
    }

    /// The rule set at the start of a game: the thirty-two pieces set
    /// up, an empty log, and nothing staged.
    fn new() -> (mode: Self) {
        let mut default = Self {
            board: Board::new(Point::new([0, 0]), [8, 8]),
            pieces: Vec::new(),
            cache: MoveCache::new_with_capacity(64),
            next_move: None,
        };
        default.default_setup();
        proof {
            assert(default.board.start@ =~= seq![0int, 0int]);
            assert(default.board.size@ =~= seq![8i32, 8i32]);
            lemma_setup_is_valid(default@);
        }
        default
    }

    /// The two players, 0 and 1, in this order.
    fn create_player(&self) -> (players: Vec<Player>) {
        let mut players: Vec<Player> = Vec::with_capacity(2);
        players.push(Player::new(0));
        players.push(Player::new(1));
        players
    }

    /// Judges a command of `player` and stages the move it stands for
    /// where that is accepted.
    fn next_move(&mut self, input: String, player: i32) -> (answer: Result<
        Option<String>,
        GameError,
    >)
    {
        self.handle_input(input, player)
    }

    /// Commits the staged move for `player`: the staged piece goes to the
    /// staged destination, the move is the newest entry of the log, and
    /// nothing stays staged.
    fn execute_move(&mut self, player: i32) -> (done: Result<(), GameError>)
        ensures
            done == old(self)@.commit_answer(),
    {
        match self.move_piece(player) {
            Err(error) => Err(error),
            Ok(mo) => {
                self.cache.append(mo);
                Ok(())
            },
        }
    }

    /// Where every piece stands, in the order of the pieces, and 8, the
    /// length of the board's side.
    fn board(&self) -> (snapshot: (Vec<RenderMove2D>, usize))
        ensures
            snapshot.1 == 8,
    {
        let mut moves: Vec<RenderMove2D> = Vec::with_capacity(64);
        let mut index: usize = 0;
        while index < self.pieces.len()
            invariant
                index <= self.pieces.len(),
                moves@ == self@.placement().take(index as int),
            decreases self.pieces.len() - index,
        {
            let piece = &self.pieces[index];
            moves.push(RenderMove2D { player_id: piece.player, piece_id: piece.id, pos: piece.pos });
            index += 1;
            proof {
                assert(moves@ =~= self@.placement().take(index as int));
            }
        }
        proof {
            assert(moves@ =~= self@.placement());
        }
        (moves, 8)
    }

    /// The board as text: eight lines, one for each row from row 0 on,
    /// each with the eight squares of the row and a line feed after them.
    /// An empty square is light where the sum of its row and column is
    /// even and dark where it is odd. A piece shows the token of its
    /// owner and kind; a piece of player 0 is drawn on its own row, every
    /// other piece on the row counted from the far side, and where
    /// several pieces are drawn on one square the last of them shows.
    fn rendered_board(&self) -> (text: String) {
        proof {
            assert forall|i: int| 0 <= i < self.pieces@.len() implies {
                &&& PieceType::is_code((#[trigger] self.pieces@[i]).ty as int)
                &&& 0 <= self.pieces@[i].pos@[0] < 8
                &&& 0 <= self.pieces@[i].pos@[1] < 8
            } by {
                assert(self@.pieces[i].id == i);
                assert(self.board.start@[0] == 0 && self.board.start@[1] == 0);
                assert(self.board.size@[0] == 8 && self.board.size@[1] == 8);
            }
        }
        draw(&self.pieces)
    }

    /// The turn always passes to the next player of the roster.
    fn next_player(&self) -> (swap: PlayerSwap) {
        PlayerSwap::NextUp
    }
}

/// The default rule set has two players, player 0 moves first, and its
/// board has two axes.
pub proof fn lemma_constants()
    ensures
        Default8x8::PLAYERS == 2,
        Default8x8::STARTING_PLAYER == 0,
        Default8x8::DIMENSIONS == 2,
{
}

} // verus!
