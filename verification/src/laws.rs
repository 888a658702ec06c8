//! What holds of the operations taken together, stated over the views that
//! their contracts use.

use vstd::prelude::*;
use crate::board::{Cell, Player, BOARD_CELLS};
use crate::handlers::{
    after_leave, after_update, has_open_first_seat, has_open_second_seat, is_join, judge_leave,
    judge_update, LeaveError, LeaveRequest, UpdateError,
};
use crate::ident::{SeatId, SessionId};
use crate::session::{capacity_of, SessionCapacity, SessionView, TicTacToeUpdate};

verus! {

/// The capacity of a session names exactly which of its seats are taken: it
/// is `Full` if and only if both are, `OnlyPlayer1` if and only if the first
/// alone is, `OnlyPlayer2` if and only if the second alone is, and `Empty` if
/// and only if neither is.
pub proof fn lemma_capacity_matches_seats(session: SessionView)
    ensures
        session.capacity() == SessionCapacity::Full <==> session.seat1 is Some && session.seat2 is Some,
        session.capacity() == SessionCapacity::OnlyPlayer1 <==> session.seat1 is Some
            && session.seat2 is None,
        session.capacity() == SessionCapacity::OnlyPlayer2 <==> session.seat1 is None
            && session.seat2 is Some,
        session.capacity() == SessionCapacity::Empty <==> session.seat1 is None
            && session.seat2 is None,
{
}

/// The capacity does not depend on who holds a seat.
pub proof fn lemma_capacity_ignores_identity(
    seat1: Option<SeatId>,
    seat2: Option<SeatId>,
    other1: Option<SeatId>,
    other2: Option<SeatId>,
)
    requires
        seat1 is Some <==> other1 is Some,
        seat2 is Some <==> other2 is Some,
    ensures
        capacity_of(seat1, seat2) == capacity_of(other1, other2),
{
}

/// Whether both seats of every session are taken.
pub open spec fn all_full(sessions: Map<SessionId, SessionView>) -> bool {
    forall|id: SessionId| #[trigger]
        sessions.contains_key(id) ==> sessions[id].capacity() == SessionCapacity::Full
}

/// Whether a join into these sessions creates a session: no seat is free.
pub open spec fn creates_session(sessions: Map<SessionId, SessionView>) -> bool {
    !has_open_first_seat(sessions) && !has_open_second_seat(sessions)
}

/// Whether `after` can follow `before` by one join that, if it created a
/// session, had drawn an identifier for it that no session of `before` has.
pub open spec fn is_join_step(
    before: Map<SessionId, SessionView>,
    after: Map<SessionId, SessionView>,
) -> bool {
    exists|id: SessionId, session: SessionView, seat: SeatId, new_id: SessionId|
        #[trigger] is_join(before, after, id, session, seat, new_id) && (creates_session(before)
            ==> !before.contains_key(new_id))
}

/// Whether `run` holds the registry before and after each of a row of joins
/// that starts without sessions.
pub open spec fn is_join_run(run: Seq<Map<SessionId, SessionView>>) -> bool {
    &&& run.len() > 0
    &&& run[0] == Map::<SessionId, SessionView>::empty()
    &&& forall|i: int| 0 <= i < run.len() - 1 ==> #[trigger] is_join_step(run[i], run[i + 1])
}

/// What `joins` joins make of a registry without sessions: full sessions and,
/// after an odd number of joins, one session more that waits for its second
/// occupant.
pub open spec fn is_paired_up(sessions: Map<SessionId, SessionView>, joins: nat) -> bool {
    &&& sessions.dom().finite()
    &&& if joins % 2 == 0 {
        &&& all_full(sessions)
        &&& sessions.len() * 2 == joins
    } else {
        &&& sessions.len() * 2 == joins + 1
        &&& exists|waiting: SessionId|
            {
                &&& #[trigger] sessions.contains_key(waiting)
                &&& sessions[waiting].capacity() == SessionCapacity::OnlyPlayer1
                &&& all_full(sessions.remove(waiting))
            }
    }
}

/// One more join keeps the sessions paired up.
pub proof fn lemma_join_keeps_paired_up(
    before: Map<SessionId, SessionView>,
    after: Map<SessionId, SessionView>,
    joins: nat,
)
    requires
        is_paired_up(before, joins),
        is_join_step(before, after),
    ensures
        is_paired_up(after, joins + 1),
{
    let (id, session, seat, new_id) = choose|
        id: SessionId,
        session: SessionView,
        seat: SeatId,
        new_id: SessionId,
    |
        #[trigger] is_join(before, after, id, session, seat, new_id) && (creates_session(before)
            ==> !before.contains_key(new_id));
    if joins % 2 == 0 {
        // No seat is free, so a session is created; it is the one that waits.
        assert(after.remove(new_id) =~= before);
    } else {
        let waiting = choose|waiting: SessionId|
            {
                &&& #[trigger] before.contains_key(waiting)
                &&& before[waiting].capacity() == SessionCapacity::OnlyPlayer1
                &&& all_full(before.remove(waiting))
            };
        // Every session but the waiting one is full, so the newcomer takes
        // the second seat of the waiting one.
        assert forall|other: SessionId| #[trigger] before.contains_key(other) implies !before[other].has_first_seat_free() by {
            if other != waiting {
                assert(before.remove(waiting).contains_key(other));
            }
        }
        if id != waiting {
            assert(before.remove(waiting).contains_key(id));
        }
        assert forall|other: SessionId| #[trigger] after.contains_key(other) implies after[other].capacity()
            == SessionCapacity::Full by {
            if other != waiting {
                assert(before.remove(waiting).contains_key(other));
            }
        }
    }
}

/// After `count` joins into a registry without sessions, the sessions are
/// paired up.
pub proof fn lemma_join_run_paired_up(run: Seq<Map<SessionId, SessionView>>, count: nat)
    requires
        is_join_run(run),
        count < run.len(),
    ensures
        is_paired_up(run[count as int], count),
    decreases count,
{
    if count > 0 {
        lemma_join_run_paired_up(run, (count - 1) as nat);
        assert(is_join_step(run[count - 1], run[(count - 1) + 1]));
        lemma_join_keeps_paired_up(run[count - 1], run[count as int], (count - 1) as nat);
    }
}

/// Twice `pairs` joins into a registry without sessions leave exactly `pairs`
/// sessions, each of them full, provided that every session that was created
/// on the way got an identifier that was new to the registry.
pub proof fn lemma_join_saturation(run: Seq<Map<SessionId, SessionView>>, pairs: nat)
    requires
        is_join_run(run),
        run.len() == 2 * pairs + 1,
    ensures
        run.last().dom().finite(),
        run.last().len() == pairs,
        all_full(run.last()),
{
    lemma_join_run_paired_up(run, 2 * pairs);
}

/// An accepted move passes the turn to the other seat, whatever winner is
/// reported: the turn flag afterwards is the negation of the flag before.
/// The seat that moved is refused if it moves again at once, to whichever
/// cell: the first seat with `ExpectedPlayer2Id`, the second with
/// `ExpectedPlayer1Id`.
pub proof fn lemma_turn_alternates(
    sessions: Map<SessionId, SessionView>,
    update: TicTacToeUpdate,
    winner: Option<Player>,
    again: TicTacToeUpdate,
)
    requires
        judge_update(sessions, update) is Ok,
        again.session_id == update.session_id,
        again.player_id == update.player_id,
    ensures
        ({
            let mark = judge_update(sessions, update)->Ok_0;
            let after = after_update(sessions, update, mark, winner);
            &&& mark == sessions[update.session_id].state.to_move().mark()
            &&& after[update.session_id].state.is_player1_turn
                == !sessions[update.session_id].state.is_player1_turn
            &&& judge_update(after, again) == Err::<Cell, UpdateError>(
                if mark == Cell::Mark1 {
                    UpdateError::ExpectedPlayer2Id
                } else {
                    UpdateError::ExpectedPlayer1Id
                },
            )
        }),
{
}

/// A move changes one cell and no other: the cell was empty and holds the
/// mover's mark afterwards, and every cell that held a mark keeps it.
pub proof fn lemma_cells_keep_their_marks(
    sessions: Map<SessionId, SessionView>,
    update: TicTacToeUpdate,
    winner: Option<Player>,
    position: int,
)
    requires
        judge_update(sessions, update) is Ok,
        update.cell_index.is_valid(),
        sessions[update.session_id].is_valid(),
        0 <= position < BOARD_CELLS,
    ensures
        ({
            let mark = judge_update(sessions, update)->Ok_0;
            let before = sessions[update.session_id].state.board;
            let after = after_update(sessions, update, mark, winner)[update.session_id].state.board;
            &&& before[update.cell_index.position()] == Cell::Empty
            &&& mark != Cell::Empty
            &&& after.len() == before.len()
            &&& after[position] == if position == update.cell_index.position() {
                mark
            } else {
                before[position]
            }
            &&& before[position] != Cell::Empty ==> after[position] == before[position]
        }),
{
}

/// When both seats of a session are taken and the first seat leaves, only
/// that seat is freed and the session stays; when the second seat leaves
/// after it, the session is gone from the registry; and whoever asks to leave
/// it after that is refused with `UnknownSession`.
pub proof fn lemma_leave_teardown(
    sessions: Map<SessionId, SessionView>,
    id: SessionId,
    first: SeatId,
    second: SeatId,
    late: Option<SeatId>,
)
    requires
        sessions.contains_key(id),
        sessions[id].seat1 == Some(first),
        sessions[id].seat2 == Some(second),
    ensures
        ({
            let first_leaves = LeaveRequest { session_id: id, player_id: Some(first) };
            let second_leaves = LeaveRequest { session_id: id, player_id: Some(second) };
            let late_leaves = LeaveRequest { session_id: id, player_id: late };
            let half = after_leave(sessions, first_leaves);
            let gone = after_leave(half, second_leaves);
            &&& judge_leave(sessions, first_leaves) is Ok
            &&& half == sessions.insert(id, sessions[id].without_player1())
            &&& half[id].seat1 is None
            &&& half[id].seat2 == Some(second)
            &&& half[id].state == sessions[id].state
            &&& judge_leave(half, second_leaves) is Ok
            &&& gone == sessions.remove(id)
            &&& !gone.contains_key(id)
            &&& judge_leave(gone, late_leaves) == Err::<SessionView, LeaveError>(
                LeaveError::UnknownSession,
            )
            &&& after_leave(gone, late_leaves) == gone
        }),
{
}

/// A session without occupants cannot be left: whatever seat the request
/// names, and also if it names none, it is refused with `Forbidden` and the
/// registry stays as it is.
pub proof fn lemma_leave_empty_is_forbidden(
    sessions: Map<SessionId, SessionView>,
    request: LeaveRequest,
)
    requires
        sessions.contains_key(request.session_id),
        sessions[request.session_id].capacity() == SessionCapacity::Empty,
    ensures
        judge_leave(sessions, request) == Err::<SessionView, LeaveError>(LeaveError::Forbidden),
        after_leave(sessions, request) == sessions,
{
}

/// A leave removes a session exactly when it frees the last taken seat, and
/// no other session is touched.
pub proof fn lemma_leave_removes_with_last_occupant(
    sessions: Map<SessionId, SessionView>,
    request: LeaveRequest,
)
    requires
        judge_leave(sessions, request) is Ok,
    ensures
        ({
            let left = judge_leave(sessions, request)->Ok_0;
            let after = after_leave(sessions, request);
            &&& after.contains_key(request.session_id) <==> left.capacity() != SessionCapacity::Empty
            &&& after.contains_key(request.session_id) ==> after[request.session_id] == left
            &&& forall|other: SessionId|
                other != request.session_id ==> (after.contains_key(other) <==> #[trigger] sessions.contains_key(other))
                    && (sessions.contains_key(other) ==> after[other] == sessions[other])
        }),
{
}

/// Whether every session has an occupant.
pub open spec fn all_occupied(sessions: Map<SessionId, SessionView>) -> bool {
    forall|id: SessionId| #[trigger]
        sessions.contains_key(id) ==> sessions[id].capacity() != SessionCapacity::Empty
}

/// No operation leaves a session without occupants in the registry: if every
/// session has an occupant, that is still so after a join, after an accepted
/// move and after a leave, accepted or refused.
pub proof fn lemma_sessions_stay_occupied(
    sessions: Map<SessionId, SessionView>,
    update: TicTacToeUpdate,
    winner: Option<Player>,
    request: LeaveRequest,
)
    requires
        all_occupied(sessions),
    ensures
        forall|
            after: Map<SessionId, SessionView>,
            id: SessionId,
            session: SessionView,
            seat: SeatId,
            new_id: SessionId,
        | #[trigger] is_join(sessions, after, id, session, seat, new_id) ==> all_occupied(after),
        judge_update(sessions, update) matches Ok(mark) ==> all_occupied(
            after_update(sessions, update, mark, winner),
        ),
        all_occupied(after_leave(sessions, request)),
{
}

/// An identifier that no session has stays without a session, whatever is
/// asked of it: a move to it and a leave from it are refused as unknown and
/// change nothing, and a join does not bring it back unless it creates a
/// session and the very same identifier was drawn for that session. A join
/// adds no identifier but the one drawn for it, and that one only when it
/// creates a session.
pub proof fn lemma_no_resurrection(
    sessions: Map<SessionId, SessionView>,
    gone: SessionId,
    update: TicTacToeUpdate,
    request: LeaveRequest,
)
    requires
        !sessions.contains_key(gone),
        update.session_id == gone,
        request.session_id == gone,
    ensures
        judge_update(sessions, update) == Err::<Cell, UpdateError>(UpdateError::InvalidSessionId),
        judge_leave(sessions, request) == Err::<SessionView, LeaveError>(LeaveError::UnknownSession),
        after_leave(sessions, request) == sessions,
        forall|
            after: Map<SessionId, SessionView>,
            id: SessionId,
            session: SessionView,
            seat: SeatId,
            new_id: SessionId,
        | #[trigger]
            is_join(sessions, after, id, session, seat, new_id) ==> {
                &&& forall|other: SessionId| #[trigger]
                    after.contains_key(other) ==> sessions.contains_key(other) || other == new_id
                &&& after.contains_key(new_id) && !sessions.contains_key(new_id)
                    ==> creates_session(sessions) && id == new_id
                &&& !(creates_session(sessions) && new_id == gone) ==> id != gone
                    && !after.contains_key(gone)
            },
{
}

} // verus!
