//! The registry of sessions and the operations on it.
//!
//! Every operation takes the registry by reference, reads or changes at most
//! one session, and hands out copies: no reference into the registry leaves
//! this module.

use std::collections::HashMap;
use vstd::prelude::*;
use crate::board::{Board, Cell, Player};
use crate::ident::{fresh_id, is_random_uuid, SeatId, SessionId};
use crate::session::{
    engine_reports, SessionCapacity, SessionView, TicTacToeSession, TicTacToeUpdate,
};

verus! {

/// Why a move was refused.
#[derive(Clone, Copy, Debug, PartialEq, Eq, Structural)]
pub enum UpdateError {
    /// No session has the identifier.
    InvalidSessionId,
    /// The session has fewer than two occupants and cannot take moves yet.
    SessionIsEmpty,
    /// The first seat tried to move on the second seat's turn.
    ExpectedPlayer2Id,
    /// The second seat tried to move on the first seat's turn.
    ExpectedPlayer1Id,
    /// The identifier is neither of the session's seats.
    InvalidPlayerId,
    /// The cell already holds a mark.
    CellAlreadyFull,
}

/// Why a seat was not released.
#[derive(Clone, Copy, Debug, PartialEq, Eq, Structural)]
pub enum LeaveError {
    /// No session has the identifier.
    UnknownSession,
    /// The session has no occupant who could leave.
    Forbidden,
    /// The identifier is neither of the session's seats, or none was given.
    InvalidSeat,
}

/// Names the session to look up.
#[derive(Clone, Copy, Debug)]
pub struct SessionRequest {
    pub session_id: SessionId,
}

/// Names the session to leave and the seat that leaves it.
#[derive(Clone, Copy, Debug)]
pub struct LeaveRequest {
    pub session_id: SessionId,
    pub player_id: Option<SeatId>,
}

/// A seat that a newcomer can take.
#[derive(Clone, Copy, Debug, PartialEq, Eq, Structural)]
pub enum OpenSeat {
    /// The first seat of the session.
    First(SessionId),
    /// The second seat of the session.
    Second(SessionId),
}

/// All sessions, by identifier. The map is reached through the operations of
/// this module only. They take the registry by reference, so a registry that
/// is shared sits behind a lock, and each operation runs under it from its
/// first look at the registry to its last change.
pub struct Sessions {
    map: HashMap<SessionId, TicTacToeSession>,
}

impl View for Sessions {
    type V = Map<SessionId, SessionView>;

    closed spec fn view(&self) -> Map<SessionId, SessionView> {
        self.map@.map_values(|session: TicTacToeSession| session@)
    }
}

/// What a move is answered with in a registry: `InvalidSessionId` if the
/// session is unknown, else the verdict of the session.
pub open spec fn judge_update(
    sessions: Map<SessionId, SessionView>,
    update: TicTacToeUpdate,
) -> Result<Cell, UpdateError> {
    if !sessions.contains_key(update.session_id) {
        Err(UpdateError::InvalidSessionId)
    } else {
        sessions[update.session_id].judge_move(update.player_id, update.cell_index.position())
    }
}

/// The registry after an accepted move: the session of `update` holds `mark`
/// in the cell, the turn has passed on, and `winner` is recorded.
pub open spec fn after_update(
    sessions: Map<SessionId, SessionView>,
    update: TicTacToeUpdate,
    mark: Cell,
    winner: Option<Player>,
) -> Map<SessionId, SessionView> {
    sessions.insert(
        update.session_id,
        sessions[update.session_id].placed(update.cell_index.position(), mark, winner),
    )
}

/// Whether some session has its first seat free.
pub open spec fn has_open_first_seat(sessions: Map<SessionId, SessionView>) -> bool {
    exists|id: SessionId| #[trigger] sessions.contains_key(id) && sessions[id].has_first_seat_free()
}

/// Whether some session has its second seat free and its first seat taken.
pub open spec fn has_open_second_seat(sessions: Map<SessionId, SessionView>) -> bool {
    exists|id: SessionId| #[trigger]
        sessions.contains_key(id) && sessions[id].has_only_second_seat_free()
}

/// Whether `found` is a seat that matchmaking may hand out. A free first seat
/// goes before a free second seat; among several sessions with the same seat
/// free, any may be named. Nothing is found only if every session is full.
pub open spec fn is_open_seat(sessions: Map<SessionId, SessionView>, found: Option<OpenSeat>) -> bool {
    if has_open_first_seat(sessions) {
        found matches Some(OpenSeat::First(id)) && sessions.contains_key(id)
            && sessions[id].has_first_seat_free()
    } else if has_open_second_seat(sessions) {
        found matches Some(OpenSeat::Second(id)) && sessions.contains_key(id)
            && sessions[id].has_only_second_seat_free()
    } else {
        found is None
    }
}

/// Whether a join that was given the identifiers `seat` and `new_id` may lead
/// from `before` to `after` and answer with `id` and `session`.
///
/// The seat found by `is_open_seat` is taken by `seat`. Where none is free, a
/// session is created under `new_id` with `seat` in its first seat; it takes
/// the place of a session that had this identifier.
pub open spec fn is_join(
    before: Map<SessionId, SessionView>,
    after: Map<SessionId, SessionView>,
    id: SessionId,
    session: SessionView,
    seat: SeatId,
    new_id: SessionId,
) -> bool {
    &&& after == before.insert(id, session)
    &&& if has_open_first_seat(before) {
        &&& before.contains_key(id)
        &&& before[id].has_first_seat_free()
        &&& session == before[id].with_player1(seat)
    } else if has_open_second_seat(before) {
        &&& before.contains_key(id)
        &&& before[id].has_only_second_seat_free()
        &&& session == before[id].with_player2(seat)
    } else {
        &&& id == new_id
        &&& session == SessionView::initial().with_player1(seat)
    }
}

/// What a request to leave is answered with in a registry: the session as the
/// leaver leaves it behind, or why the seat is not released.
pub open spec fn judge_leave(
    sessions: Map<SessionId, SessionView>,
    request: LeaveRequest,
) -> Result<SessionView, LeaveError> {
    if !sessions.contains_key(request.session_id) {
        Err(LeaveError::UnknownSession)
    } else {
        sessions[request.session_id].judge_leave(request.player_id)
    }
}

/// The registry after a request to leave was answered: unchanged if it was
/// refused, without the session if its last occupant left, and else with the
/// session as the leaver left it behind.
pub open spec fn after_leave(
    sessions: Map<SessionId, SessionView>,
    request: LeaveRequest,
) -> Map<SessionId, SessionView> {
    match judge_leave(sessions, request) {
        Err(_) => sessions,
        Ok(left) => if left.capacity().is_empty() {
            sessions.remove(request.session_id)
        } else {
            sessions.insert(request.session_id, left)
        },
    }
}

/// Whether every session of the registry is valid. Holds of the view of
/// every `Sessions`.
pub open spec fn are_valid(sessions: Map<SessionId, SessionView>) -> bool {
    &&& sessions.dom().finite()
    &&& forall|id: SessionId| #[trigger] sessions.contains_key(id) ==> sessions[id].is_valid()
}

impl Sessions {
    /// The view of a registry is valid.
    pub proof fn lemma_view_is_valid(self)
        ensures
            are_valid(self@),
    {
        assert(self@.dom() =~= self.map@.dom());
        assert forall|id: SessionId| #[trigger] self@.contains_key(id) implies self@[id].is_valid() by {
            self.map@[id].lemma_view_is_valid();
        }
    }

    /// The registry without sessions.
    pub fn new() -> (sessions: Sessions)
        ensures
            sessions@ == Map::<SessionId, SessionView>::empty(),
    {
        let sessions = Sessions { map: HashMap::new() };
        sessions
    }

    /// The number of sessions.
    pub fn len(&self) -> (count: usize)
        ensures
            count == self@.len(),
            self@.dom().finite(),
    {
        assert(self@.dom() =~= self.map@.dom());
        self.map.len()
    }

    /// Looks for a seat to hand out: a free first seat if any session has
    /// one, else a free second seat.
    pub fn find_open_seat(&self) -> (found: Option<OpenSeat>)
        ensures
            is_open_seat(self@, found),
    {
        let mut second: Option<SessionId> = None;
        for key in it: self.map.keys()
            invariant
                forall|j: int|
                    0 <= j < it.index() ==> self@.contains_key(#[trigger] *it.seq()[j])
                        && !self@[*it.seq()[j]].has_first_seat_free(),
                match second {
                    Some(id) => self@.contains_key(id) && self@[id].has_only_second_seat_free(),
                    None => forall|j: int|
                        0 <= j < it.index() ==> !self@[#[trigger] *it.seq()[j]].has_only_second_seat_free(),
                },
        {
            let session = self.map.get(key).unwrap();
            assert(self@.contains_key(*key) && self@[*key] == session@);
            match session.capacity() {
                SessionCapacity::Empty | SessionCapacity::OnlyPlayer2 => {
                    return Some(OpenSeat::First(*key));
                },
                SessionCapacity::OnlyPlayer1 => {
                    if second.is_none() {
                        second = Some(*key);
                    }
                },
                SessionCapacity::Full => {},
            }
        }
        match second {
            Some(id) => Some(OpenSeat::Second(id)),
            None => None,
        }
    }
}

/// The text that names the endpoints.
pub fn handle_root() -> (text: &'static str)
    ensures
        text@ == "Endpoints are\nGET /get\nPUT /update\nPOST /join\nPUT /leave"@,
{
    "Endpoints are\nGET /get\nPUT /update\nPOST /join\nPUT /leave"
}

/// Seats a newcomer, with the identifiers that the caller drew: `seat` for
/// the seat, `new_id` for the session that is created if no seat is free.
pub fn handle_join_with(sessions: &mut Sessions, seat: SeatId, new_id: SessionId) -> (joined: (
    SessionId,
    TicTacToeSession,
))
    ensures
        is_join(old(sessions)@, final(sessions)@, joined.0, joined.1@, seat, new_id),
{
    let (id, session) = match sessions.find_open_seat() {
        Some(OpenSeat::First(id)) => {
            let mut session = *sessions.map.get(&id).unwrap();
            session.seat_player1(seat);
            (id, session)
        },
        Some(OpenSeat::Second(id)) => {
            let mut session = *sessions.map.get(&id).unwrap();
            session.seat_player2(seat);
            (id, session)
        },
        None => {
            let mut session = TicTacToeSession::default();
            session.seat_player1(seat);
            (new_id, session)
        },
    };
    sessions.map.insert(id, session);
    assert(sessions@ =~= old(sessions)@.insert(id, session@));
    (id, session)
}

/// Seats a newcomer. A free first seat is taken if any session has one, else
/// a free second seat; if every session is full, a session is created with
/// the newcomer in its first seat. The seat's identifier is newly drawn, and
/// so is that of a session that is created. The session, as it is after the
/// join, is returned with its identifier.
///
/// Which session is chosen among several with the same seat free is not
/// determined.
pub fn handle_join(sessions: &mut Sessions) -> (joined: (SessionId, TicTacToeSession))
    ensures
        exists|seat: SeatId, new_id: SessionId|
            is_random_uuid(seat) && is_random_uuid(new_id) && #[trigger] is_join(
                old(sessions)@,
                final(sessions)@,
                joined.0,
                joined.1@,
                seat,
                new_id,
            ),
{
    let new_id = fresh_id();
    let seat = fresh_id();
    handle_join_with(sessions, seat, new_id)
}

/// Looks a session up and returns a copy of it with its identifier, or
/// nothing if no session has the identifier.
pub fn handle_get_game(sessions: &Sessions, request: SessionRequest) -> (found: Option<
    (SessionId, TicTacToeSession),
>)
    ensures
        match found {
            Some((id, session)) => {
                &&& id == request.session_id
                &&& sessions@.contains_key(id)
                &&& session@ == sessions@[id]
            },
            None => !sessions@.contains_key(request.session_id),
        },
{
    match sessions.map.get(&request.session_id) {
        Some(session) => Some((request.session_id, *session)),
        None => None,
    }
}

/// Places a mark for a seat.
///
/// The move is refused with `InvalidSessionId` if the session is unknown, and
/// else with the first check of the session that fails: two occupants, a seat
/// of the session, that seat's turn, an empty cell. A refused move
/// leaves the registry as it was. An accepted move changes the one session:
/// the seat's mark is in the cell, the turn has passed on, and the winner is
/// what `winner_of` reported for the new board. The session's new value is
/// returned with its identifier.
///
/// A game that has a winner still takes moves.
pub fn handle_game_update<F: Fn(Board) -> Option<Player>>(
    sessions: &mut Sessions,
    update: TicTacToeUpdate,
    winner_of: F,
) -> (outcome: Result<(SessionId, TicTacToeSession), UpdateError>)
    requires
        forall|board: Board| call_requires(winner_of, (board,)),
    ensures
        match judge_update(old(sessions)@, update) {
            Err(reason) => {
                &&& outcome == Err::<(SessionId, TicTacToeSession), UpdateError>(reason)
                &&& final(sessions)@ == old(sessions)@
            },
            Ok(mark) => {
                &&& outcome matches Ok((id, session))
                &&& id == update.session_id
                &&& update.cell_index.is_valid()
                &&& engine_reports(winner_of, session@.state.board, session@.state.winner)
                &&& final(sessions)@ == after_update(
                    old(sessions)@,
                    update,
                    mark,
                    session@.state.winner,
                )
                &&& session@ == final(sessions)@[id]
            },
        },
{
    let mut session = match sessions.map.get(&update.session_id) {
        None => {
            return Err(UpdateError::InvalidSessionId);
        },
        Some(found) => *found,
    };
    match session.play(update.player_id, update.cell_index, winner_of) {
        Err(reason) => Err(reason),
        Ok(()) => {
            sessions.map.insert(update.session_id, session);
            Ok((update.session_id, session))
        },
    }
}

/// Releases a seat.
///
/// The request is refused with `UnknownSession` if no session has the
/// identifier, with `Forbidden` if the session has no occupant, and with
/// `InvalidSeat` if the seat named is neither of the session's two or no seat
/// is named. Else the seat is freed, and the session is removed from the
/// registry if its other seat is free as well. A refused request changes
/// nothing.
pub fn handle_leave(sessions: &mut Sessions, request: LeaveRequest) -> (outcome: Result<
    (),
    LeaveError,
>)
    ensures
        outcome == match judge_leave(old(sessions)@, request) {
            Ok(_) => Ok::<(), LeaveError>(()),
            Err(reason) => Err(reason),
        },
        final(sessions)@ == after_leave(old(sessions)@, request),
{
    let mut session = match sessions.map.get(&request.session_id) {
        None => {
            return Err(LeaveError::UnknownSession);
        },
        Some(found) => *found,
    };
    match session.leave(request.player_id) {
        Err(reason) => Err(reason),
        Ok(()) => {
            if session.capacity().is_empty() {
                sessions.map.remove(&request.session_id);
            } else {
                sessions.map.insert(request.session_id, session);
            }
            Ok(())
        },
    }
}

} // verus!
