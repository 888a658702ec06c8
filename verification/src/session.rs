//! One session: two seats and the game that their occupants play.

use vstd::prelude::*;
use crate::board::{Board, Cell, CellIndex, GameState, GameStateView, Player};
use crate::handlers::{LeaveError, UpdateError};
use crate::ident::{fresh_id, is_random_uuid, SeatId, SessionId};

verus! {

/// How many of the two seats are taken, and which.
#[derive(Clone, Copy, Debug, PartialEq, Eq, Structural)]
pub enum SessionCapacity {
    Empty,
    OnlyPlayer1,
    OnlyPlayer2,
    Full,
}

impl SessionCapacity {
    /// Whether both seats are taken.
    pub open spec fn spec_is_full(&self) -> bool {
        *self == SessionCapacity::Full
    }

    /// Whether both seats are taken.
    #[verifier::when_used_as_spec(spec_is_full)]
    pub fn is_full(&self) -> (full: bool)
        ensures
            full == (*self == SessionCapacity::Full),
    {
        match self {
            SessionCapacity::Full => true,
            _ => false,
        }
    }

    /// Whether no seat is taken.
    pub open spec fn spec_is_empty(&self) -> bool {
        *self == SessionCapacity::Empty
    }

    /// Whether no seat is taken.
    #[verifier::when_used_as_spec(spec_is_empty)]
    pub fn is_empty(&self) -> (empty: bool)
        ensures
            empty == (*self == SessionCapacity::Empty),
    {
        match self {
            SessionCapacity::Empty => true,
            _ => false,
        }
    }
}

/// The capacity that two seats make: a function of which of them are taken,
/// not of who took them.
pub open spec fn capacity_of(seat1: Option<SeatId>, seat2: Option<SeatId>) -> SessionCapacity {
    match (seat1, seat2) {
        (None, None) => SessionCapacity::Empty,
        (Some(_), None) => SessionCapacity::OnlyPlayer1,
        (None, Some(_)) => SessionCapacity::OnlyPlayer2,
        (Some(_), Some(_)) => SessionCapacity::Full,
    }
}

/// A request to place a mark: the session, the seat that moves, the cell.
#[derive(Clone, Copy, Debug)]
pub struct TicTacToeUpdate {
    pub session_id: SessionId,
    pub player_id: SeatId,
    pub cell_index: CellIndex,
}

/// A session of two seats. The seats are changed through the methods only;
/// the game state is open to the caller.
#[derive(Clone, Copy, Debug)]
pub struct TicTacToeSession {
    pub state: GameState,
    player1_id: Option<SeatId>,
    player2_id: Option<SeatId>,
}

/// The mathematical value of a session.
pub struct SessionView {
    pub state: GameStateView,
    pub seat1: Option<SeatId>,
    pub seat2: Option<SeatId>,
}

impl SessionView {
    /// The session that nobody has joined and in which no move was made.
    pub open spec fn initial() -> SessionView {
        SessionView { state: GameStateView::initial(), seat1: None, seat2: None }
    }

    /// Whether the game state is valid. Holds of the view of every session.
    pub open spec fn is_valid(self) -> bool {
        self.state.is_valid()
    }

    /// The occupancy of the two seats.
    pub open spec fn capacity(self) -> SessionCapacity {
        capacity_of(self.seat1, self.seat2)
    }

    /// Whether a newcomer can take the first seat: the capacity is `Empty` or
    /// `OnlyPlayer2`.
    pub open spec fn has_first_seat_free(self) -> bool {
        self.capacity() == SessionCapacity::Empty || self.capacity() == SessionCapacity::OnlyPlayer2
    }

    /// Whether a newcomer can take the second seat and not the first: the
    /// capacity is `OnlyPlayer1`.
    pub open spec fn has_only_second_seat_free(self) -> bool {
        self.capacity() == SessionCapacity::OnlyPlayer1
    }

    /// The session after `seat` took the first seat, if that seat was free;
    /// the session itself, if it was taken.
    pub open spec fn with_player1(self, seat: SeatId) -> SessionView {
        if self.seat1 is None {
            SessionView { seat1: Some(seat), ..self }
        } else {
            self
        }
    }

    /// The session after `seat` took the second seat, if that seat was free;
    /// the session itself, if it was taken.
    pub open spec fn with_player2(self, seat: SeatId) -> SessionView {
        if self.seat2 is None {
            SessionView { seat2: Some(seat), ..self }
        } else {
            self
        }
    }

    /// The session with its first seat free.
    pub open spec fn without_player1(self) -> SessionView {
        SessionView { seat1: None, ..self }
    }

    /// The session with its second seat free.
    pub open spec fn without_player2(self) -> SessionView {
        SessionView { seat2: None, ..self }
    }

    /// What a move of `seat` to the cell at `position` is answered with:
    /// the mark to place, or the first of the checks that fails. The session
    /// must be full, the seat must be one of its two, it must be that seat's
    /// turn, and the cell must be empty. A winner that was already found does
    /// not stop the game: the move is judged as any other.
    pub open spec fn judge_move(self, seat: SeatId, position: int) -> Result<Cell, UpdateError> {
        if self.capacity() != SessionCapacity::Full {
            Err(UpdateError::SessionIsEmpty)
        } else if self.seat1 == Some(seat) {
            if !self.state.is_player1_turn {
                Err(UpdateError::ExpectedPlayer2Id)
            } else if self.state.board[position] != Cell::Empty {
                Err(UpdateError::CellAlreadyFull)
            } else {
                Ok(Cell::Mark1)
            }
        } else if self.seat2 == Some(seat) {
            if self.state.is_player1_turn {
                Err(UpdateError::ExpectedPlayer1Id)
            } else if self.state.board[position] != Cell::Empty {
                Err(UpdateError::CellAlreadyFull)
            } else {
                Ok(Cell::Mark2)
            }
        } else {
            Err(UpdateError::InvalidPlayerId)
        }
    }

    /// What a request of `seat` to leave is answered with: the session without
    /// that seat's occupant, or why nothing is released. A session without
    /// occupants cannot be left, and a request that names no seat matches
    /// neither seat.
    pub open spec fn judge_leave(self, seat: Option<SeatId>) -> Result<SessionView, LeaveError> {
        if self.capacity() == SessionCapacity::Empty {
            Err(LeaveError::Forbidden)
        } else if seat is Some && seat == self.seat1 {
            Ok(self.without_player1())
        } else if seat is Some && seat == self.seat2 {
            Ok(self.without_player2())
        } else {
            Err(LeaveError::InvalidSeat)
        }
    }

    /// The session after `mark` was placed at `position`, the turn passed on
    /// and `winner` was recorded.
    pub open spec fn placed(self, position: int, mark: Cell, winner: Option<Player>) -> SessionView {
        SessionView { state: self.state.placed(position, mark, winner), ..self }
    }
}

/// Whether `winner` is an answer that the game engine `winner_of` can give for
/// a board of these cells.
pub open spec fn engine_reports<F: Fn(Board) -> Option<Player>>(
    winner_of: F,
    cells: Seq<Cell>,
    winner: Option<Player>,
) -> bool {
    exists|board: Board| board@ == cells && #[trigger] call_ensures(winner_of, (board,), winner)
}

impl View for TicTacToeSession {
    type V = SessionView;

    closed spec fn view(&self) -> SessionView {
        SessionView { state: self.state@, seat1: self.player1_id, seat2: self.player2_id }
    }
}

impl Default for TicTacToeSession {
    fn default() -> (session: TicTacToeSession)
        ensures
            session@ == SessionView::initial(),
    {
        TicTacToeSession { state: GameState::default(), player1_id: None, player2_id: None }
    }
}

impl TicTacToeSession {
    /// The view of a session is valid.
    pub proof fn lemma_view_is_valid(self)
        ensures
            self@.is_valid(),
    {
    }

    /// The session with this game state and these occupants.
    pub fn from_parts(
        state: GameState,
        player1_id: Option<SeatId>,
        player2_id: Option<SeatId>,
    ) -> (session: TicTacToeSession)
        ensures
            session@ == (SessionView { state: state@, seat1: player1_id, seat2: player2_id }),
    {
        TicTacToeSession { state, player1_id, player2_id }
    }

    /// A copy of the game state.
    pub fn state(&self) -> (state: GameState)
        ensures
            state@ == self@.state,
    {
        self.state
    }

    /// Who holds the first seat.
    pub fn player1_id(&self) -> (seat: Option<SeatId>)
        ensures
            seat == self@.seat1,
    {
        self.player1_id
    }

    /// Who holds the second seat.
    pub fn player2_id(&self) -> (seat: Option<SeatId>)
        ensures
            seat == self@.seat2,
    {
        self.player2_id
    }

    /// The occupancy of the two seats. It is computed from the seats on every
    /// call, so it cannot disagree with them.
    pub fn capacity(&self) -> (capacity: SessionCapacity)
        ensures
            capacity == self@.capacity(),
            capacity.is_full() <==> self@.seat1 is Some && self@.seat2 is Some,
            capacity.is_empty() <==> self@.seat1 is None && self@.seat2 is None,
    {
        match (self.player1_id, self.player2_id) {
            (None, None) => SessionCapacity::Empty,
            (Some(_), None) => SessionCapacity::OnlyPlayer1,
            (None, Some(_)) => SessionCapacity::OnlyPlayer2,
            (Some(_), Some(_)) => SessionCapacity::Full,
        }
    }

    /// Gives the first seat to `seat` if it is free, and does nothing if it
    /// is taken.
    pub fn seat_player1(&mut self, seat: SeatId)
        ensures
            final(self)@ == old(self)@.with_player1(seat),
    {
        if self.player1_id.is_none() {
            self.player1_id = Some(seat);
        }
    }

    /// Gives the second seat to `seat` if it is free, and does nothing if it
    /// is taken.
    pub fn seat_player2(&mut self, seat: SeatId)
        ensures
            final(self)@ == old(self)@.with_player2(seat),
    {
        if self.player2_id.is_none() {
            self.player2_id = Some(seat);
        }
    }

    /// Gives the first seat to a newly drawn identifier if the seat is free,
    /// and does nothing if it is taken.
    pub fn add_player1(&mut self)
        ensures
            exists|seat: SeatId|
                is_random_uuid(seat) && final(self)@ == #[trigger] old(self)@.with_player1(seat),
    {
        let seat = fresh_id();
        self.seat_player1(seat);
    }

    /// Gives the second seat to a newly drawn identifier if the seat is free,
    /// and does nothing if it is taken.
    pub fn add_player2(&mut self)
        ensures
            exists|seat: SeatId|
                is_random_uuid(seat) && final(self)@ == #[trigger] old(self)@.with_player2(seat),
    {
        let seat = fresh_id();
        self.seat_player2(seat);
    }

    /// Answers a move of `seat` to the cell at `index` without making it: the
    /// mark that the seat would place, or why the move is refused.
    pub fn judge_move(&self, seat: SeatId, index: CellIndex) -> (verdict: Result<Cell, UpdateError>)
        ensures
            index.is_valid(),
            verdict == self@.judge_move(seat, index.position()),
    {
        let cell = self.state.board.get_cell(index);
        let (player1, player2) = match (self.player1_id, self.player2_id) {
            (Some(player1), Some(player2)) => (player1, player2),
            _ => {
                return Err(UpdateError::SessionIsEmpty);
            },
        };
        if player1 == seat {
            if !self.state.is_player1_turn {
                Err(UpdateError::ExpectedPlayer2Id)
            } else if !cell.is_empty() {
                Err(UpdateError::CellAlreadyFull)
            } else {
                Ok(Cell::Mark1)
            }
        } else if player2 == seat {
            if self.state.is_player1_turn {
                Err(UpdateError::ExpectedPlayer1Id)
            } else if !cell.is_empty() {
                Err(UpdateError::CellAlreadyFull)
            } else {
                Ok(Cell::Mark2)
            }
        } else {
            Err(UpdateError::InvalidPlayerId)
        }
    }

    /// Places `mark` at `index`, passes the turn on and records `winner`.
    /// Nothing is checked: `judge_move` says whether the move is allowed.
    pub fn place(&mut self, index: CellIndex, mark: Cell, winner: Option<Player>)
        ensures
            index.is_valid(),
            final(self)@ == old(self)@.placed(index.position(), mark, winner),
    {
        self.state.board.set_cell(index, mark);
        self.state.is_player1_turn = !self.state.is_player1_turn;
        self.state.winner = winner;
    }

    /// Makes the move of `seat` to the cell at `index` if `judge_move` allows
    /// it: the seat's mark is placed, the turn passes to the other seat, and
    /// the winner becomes what `winner_of` reports for the new board. A move
    /// that is refused changes nothing.
    pub fn play<F: Fn(Board) -> Option<Player>>(
        &mut self,
        seat: SeatId,
        index: CellIndex,
        winner_of: F,
    ) -> (outcome: Result<(), UpdateError>)
        requires
            forall|board: Board| call_requires(winner_of, (board,)),
        ensures
            match old(self)@.judge_move(seat, index.position()) {
                Err(reason) => {
                    &&& outcome == Err::<(), UpdateError>(reason)
                    &&& final(self)@ == old(self)@
                },
                Ok(mark) => {
                    &&& outcome is Ok
                    &&& index.is_valid()
                    &&& final(self)@ == old(self)@.placed(
                        index.position(),
                        mark,
                        final(self)@.state.winner,
                    )
                    &&& engine_reports(winner_of, final(self)@.state.board, final(self)@.state.winner)
                },
            },
    {
        match self.judge_move(seat, index) {
            Err(reason) => Err(reason),
            Ok(mark) => {
                let mut board = self.state.board;
                board.set_cell(index, mark);
                let winner = winner_of(board);
                self.place(index, mark, winner);
                Ok(())
            },
        }
    }

    /// Releases the seat that `seat` names, if the session has an occupant
    /// and `seat` is one of its two seats.
    pub fn leave(&mut self, seat: Option<SeatId>) -> (outcome: Result<(), LeaveError>)
        ensures
            match old(self)@.judge_leave(seat) {
                Ok(left) => outcome == Ok::<(), LeaveError>(()) && final(self)@ == left,
                Err(reason) => {
                    &&& outcome == Err::<(), LeaveError>(reason)
                    &&& final(self)@ == old(self)@
                },
            },
    {
        if self.capacity().is_empty() {
            return Err(LeaveError::Forbidden);
        }
        let seat = match seat {
            Some(seat) => seat,
            None => {
                return Err(LeaveError::InvalidSeat);
            },
        };
        if self.occupies_first(seat) {
            self.remove_player1();
            Ok(())
        } else if self.occupies_second(seat) {
            self.remove_player2();
            Ok(())
        } else {
            Err(LeaveError::InvalidSeat)
        }
    }

    /// Whether `seat` holds the first seat.
    pub fn occupies_first(&self, seat: SeatId) -> (yes: bool)
        ensures
            yes == (self@.seat1 == Some(seat)),
    {
        match self.player1_id {
            Some(player1) => player1 == seat,
            None => false,
        }
    }

    /// Whether `seat` holds the second seat.
    pub fn occupies_second(&self, seat: SeatId) -> (yes: bool)
        ensures
            yes == (self@.seat2 == Some(seat)),
    {
        match self.player2_id {
            Some(player2) => player2 == seat,
            None => false,
        }
    }

    /// Frees the first seat.
    pub fn remove_player1(&mut self)
        ensures
            final(self)@ == old(self)@.without_player1(),
    {
        if self.player1_id.is_some() {
            self.player1_id = None;
        }
    }

    /// Frees the second seat.
    pub fn remove_player2(&mut self)
        ensures
            final(self)@ == old(self)@.without_player2(),
    {
        if self.player2_id.is_some() {
            self.player2_id = None;
        }
    }
}

} // verus!
