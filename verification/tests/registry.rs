use game_sessions::board::{Board, Cell, CellIndex, Player};
use game_sessions::handlers::{
    handle_game_update, handle_get_game, handle_join, handle_join_with, handle_leave, handle_root,
    LeaveError, LeaveRequest, OpenSeat, SessionRequest, Sessions, UpdateError,
};
use game_sessions::session::{SessionCapacity, TicTacToeSession, TicTacToeUpdate};

fn no_winner(_board: Board) -> Option<Player> {
    None
}

/// Reports the player whose mark fills the cells 0, 1 and 2.
fn first_three(board: Board) -> Option<Player> {
    let marks = [0, 1, 2].map(|position| board.get_cell(CellIndex::new(position).unwrap()));
    if marks == [Cell::Mark1; 3] {
        Some(Player::Player1)
    } else if marks == [Cell::Mark2; 3] {
        Some(Player::Player2)
    } else {
        None
    }
}

fn update(session_id: u128, player_id: u128, position: usize) -> TicTacToeUpdate {
    TicTacToeUpdate { session_id, player_id, cell_index: CellIndex::new(position).unwrap() }
}

fn leave(session_id: u128, player_id: Option<u128>) -> LeaveRequest {
    LeaveRequest { session_id, player_id }
}

fn get(sessions: &Sessions, session_id: u128) -> Option<TicTacToeSession> {
    handle_get_game(sessions, SessionRequest { session_id }).map(|(_, session)| session)
}

/// A registry with the full session 100 (seats 10 and 11).
fn one_full_session() -> Sessions {
    let mut sessions = Sessions::new();
    handle_join_with(&mut sessions, 10, 100);
    handle_join_with(&mut sessions, 11, 101);
    sessions
}

#[test]
fn root_names_the_endpoints() {
    assert_eq!(handle_root(), "Endpoints are\nGET /get\nPUT /update\nPOST /join\nPUT /leave");
}

#[test]
fn a_new_registry_has_no_sessions() {
    let sessions = Sessions::new();
    assert_eq!(sessions.len(), 0);
    assert_eq!(sessions.find_open_seat(), None);
    assert!(handle_get_game(&sessions, SessionRequest { session_id: 0 }).is_none());
}

#[test]
fn three_joins_fill_one_session_and_open_another() {
    let mut sessions = Sessions::new();

    let (s1, first) = handle_join(&mut sessions);
    let a = first.player1_id().expect("the first join takes the first seat");
    assert_eq!(first.player2_id(), None);
    assert_eq!(first.capacity(), SessionCapacity::OnlyPlayer1);
    assert_eq!(sessions.len(), 1);

    let (same, second) = handle_join(&mut sessions);
    assert_eq!(same, s1);
    assert_eq!(second.player1_id(), Some(a));
    let b = second.player2_id().expect("the second join takes the second seat");
    assert_ne!(a, b);
    assert_eq!(second.capacity(), SessionCapacity::Full);
    assert_eq!(sessions.len(), 1);

    let (s2, third) = handle_join(&mut sessions);
    assert_ne!(s2, s1);
    let c = third.player1_id().expect("the third join opens a session");
    assert_ne!(c, a);
    assert_ne!(c, b);
    assert_eq!(third.player2_id(), None);
    assert_eq!(sessions.len(), 2);
}

#[test]
fn three_joins_with_given_identifiers() {
    let mut sessions = Sessions::new();

    let (s1, first) = handle_join_with(&mut sessions, 10, 100);
    assert_eq!(s1, 100);
    assert_eq!((first.player1_id(), first.player2_id()), (Some(10), None));
    assert_eq!(first.state.board, Board::new());
    assert!(first.state.is_player1_turn);
    assert_eq!(first.state.winner, None);

    let (same, second) = handle_join_with(&mut sessions, 11, 101);
    assert_eq!(same, 100);
    assert_eq!((second.player1_id(), second.player2_id()), (Some(10), Some(11)));
    assert!(handle_get_game(&sessions, SessionRequest { session_id: 101 }).is_none());

    let (s2, third) = handle_join_with(&mut sessions, 12, 102);
    assert_eq!(s2, 102);
    assert_eq!((third.player1_id(), third.player2_id()), (Some(12), None));
    assert_eq!(sessions.len(), 2);
}

#[test]
fn join_hands_out_random_uuids() {
    let mut sessions = Sessions::new();
    let (session_id, session) = handle_join(&mut sessions);
    let seat = session.player1_id().unwrap();
    for id in [session_id, seat] {
        let uuid = uuid::Uuid::from_u128(id);
        assert_eq!(uuid.get_version_num(), 4);
        assert_eq!(uuid.get_variant(), uuid::Variant::RFC4122);
    }
    assert_ne!(session_id, seat);
}

#[test]
fn twice_n_joins_make_n_full_sessions() {
    for pairs in 0..6usize {
        let mut sessions = Sessions::new();
        let mut ids = Vec::new();
        for _ in 0..2 * pairs {
            let (id, _) = handle_join(&mut sessions);
            if !ids.contains(&id) {
                ids.push(id);
            }
        }
        assert_eq!(sessions.len(), pairs);
        assert_eq!(ids.len(), pairs);
        for id in ids {
            assert_eq!(get(&sessions, id).unwrap().capacity(), SessionCapacity::Full);
        }
        assert_eq!(sessions.find_open_seat(), None);
    }
}

#[test]
fn a_free_first_seat_goes_before_a_free_second_seat() {
    let mut sessions = one_full_session();
    handle_join_with(&mut sessions, 12, 102);
    handle_join_with(&mut sessions, 13, 103);
    handle_join_with(&mut sessions, 14, 104);
    // 100 and 102 are full, 104 waits for its second occupant.
    assert_eq!(sessions.find_open_seat(), Some(OpenSeat::Second(104)));
    assert_eq!(handle_leave(&mut sessions, leave(100, Some(10))), Ok(()));
    // 100 has its first seat free, 104 its second.
    assert_eq!(sessions.find_open_seat(), Some(OpenSeat::First(100)));
    let (id, session) = handle_join_with(&mut sessions, 15, 105);
    assert_eq!(id, 100);
    assert_eq!((session.player1_id(), session.player2_id()), (Some(15), Some(11)));
    let (id, session) = handle_join_with(&mut sessions, 16, 106);
    assert_eq!(id, 104);
    assert_eq!((session.player1_id(), session.player2_id()), (Some(14), Some(16)));
    assert_eq!(sessions.len(), 3);
}

#[test]
fn a_seat_that_is_taken_again_gets_a_new_identifier() {
    let mut sessions = Sessions::new();
    let (id, _) = handle_join(&mut sessions);
    let (_, full) = handle_join(&mut sessions);
    let old = full.player1_id().unwrap();
    assert_eq!(handle_leave(&mut sessions, leave(id, Some(old))), Ok(()));
    let (again, session) = handle_join(&mut sessions);
    assert_eq!(again, id);
    assert_ne!(session.player1_id(), Some(old));
    assert_eq!(session.player2_id(), full.player2_id());
    assert_eq!(handle_leave(&mut sessions, leave(id, Some(old))), Err(LeaveError::InvalidSeat));
}

#[test]
fn a_join_with_a_used_identifier_replaces_the_session() {
    let mut sessions = one_full_session();
    let (id, session) = handle_join_with(&mut sessions, 12, 100);
    assert_eq!(id, 100);
    assert_eq!((session.player1_id(), session.player2_id()), (Some(12), None));
    assert_eq!(sessions.len(), 1);
}

#[test]
fn get_returns_a_copy_of_the_session() {
    let sessions = one_full_session();
    let (id, session) = handle_get_game(&sessions, SessionRequest { session_id: 100 }).unwrap();
    assert_eq!(id, 100);
    assert_eq!((session.player1_id(), session.player2_id()), (Some(10), Some(11)));
    assert!(handle_get_game(&sessions, SessionRequest { session_id: 99 }).is_none());
}

#[test]
fn move_then_same_seat_then_taken_cell() {
    let mut sessions = one_full_session();

    let (id, session) = handle_game_update(&mut sessions, update(100, 10, 0), no_winner).unwrap();
    assert_eq!(id, 100);
    assert_eq!(session.state.board.get_cell(CellIndex::new(0).unwrap()), Cell::Mark1);
    assert!(!session.state.is_player1_turn);

    assert_eq!(
        handle_game_update(&mut sessions, update(100, 10, 1), no_winner).unwrap_err(),
        UpdateError::ExpectedPlayer2Id
    );
    assert_eq!(
        handle_game_update(&mut sessions, update(100, 11, 0), no_winner).unwrap_err(),
        UpdateError::CellAlreadyFull
    );

    let stored = get(&sessions, 100).unwrap();
    assert_eq!(stored.state.board, session.state.board);
    assert!(!stored.state.is_player1_turn);
}

#[test]
fn the_turn_flag_flips_with_every_move() {
    let mut sessions = one_full_session();
    let mut expected = true;
    for (seat, position) in [(10, 4), (11, 0), (10, 8), (11, 2)] {
        assert_eq!(get(&sessions, 100).unwrap().state.is_player1_turn, expected);
        let (_, session) =
            handle_game_update(&mut sessions, update(100, seat, position), no_winner).unwrap();
        expected = !expected;
        assert_eq!(session.state.is_player1_turn, expected);
    }
}

#[test]
fn the_second_seat_cannot_move_twice_in_a_row() {
    let mut sessions = one_full_session();
    handle_game_update(&mut sessions, update(100, 10, 0), no_winner).unwrap();
    handle_game_update(&mut sessions, update(100, 11, 1), no_winner).unwrap();
    assert_eq!(
        handle_game_update(&mut sessions, update(100, 11, 2), no_winner).unwrap_err(),
        UpdateError::ExpectedPlayer1Id
    );
}

#[test]
fn the_second_seat_cannot_open_the_game() {
    let mut sessions = one_full_session();
    assert_eq!(
        handle_game_update(&mut sessions, update(100, 11, 0), no_winner).unwrap_err(),
        UpdateError::ExpectedPlayer1Id
    );
}

#[test]
fn every_refusal_of_a_move() {
    let mut sessions = one_full_session();
    handle_join_with(&mut sessions, 12, 102);

    assert_eq!(
        handle_game_update(&mut sessions, update(7, 10, 0), no_winner).unwrap_err(),
        UpdateError::InvalidSessionId
    );
    assert_eq!(
        handle_game_update(&mut sessions, update(102, 12, 0), no_winner).unwrap_err(),
        UpdateError::SessionIsEmpty
    );
    assert_eq!(
        handle_game_update(&mut sessions, update(100, 12, 0), no_winner).unwrap_err(),
        UpdateError::InvalidPlayerId
    );
    assert_eq!(
        handle_game_update(&mut sessions, update(100, 11, 0), no_winner).unwrap_err(),
        UpdateError::ExpectedPlayer1Id
    );
    handle_game_update(&mut sessions, update(100, 10, 0), no_winner).unwrap();
    assert_eq!(
        handle_game_update(&mut sessions, update(100, 10, 1), no_winner).unwrap_err(),
        UpdateError::ExpectedPlayer2Id
    );
    assert_eq!(
        handle_game_update(&mut sessions, update(100, 11, 0), no_winner).unwrap_err(),
        UpdateError::CellAlreadyFull
    );
}

#[test]
fn a_refused_move_leaves_the_registry_as_it_was() {
    let mut sessions = one_full_session();
    handle_game_update(&mut sessions, update(100, 10, 3), no_winner).unwrap();
    let before = get(&sessions, 100).unwrap();
    assert!(handle_game_update(&mut sessions, update(100, 10, 4), no_winner).is_err());
    assert!(handle_game_update(&mut sessions, update(100, 11, 3), no_winner).is_err());
    assert!(handle_game_update(&mut sessions, update(100, 99, 5), no_winner).is_err());
    let after = get(&sessions, 100).unwrap();
    assert_eq!(after.state.board, before.state.board);
    assert_eq!(after.state.is_player1_turn, before.state.is_player1_turn);
    assert_eq!(after.state.winner, before.state.winner);
    assert_eq!(sessions.len(), 1);
}

#[test]
fn a_move_touches_one_session_only() {
    let mut sessions = one_full_session();
    handle_join_with(&mut sessions, 12, 102);
    handle_join_with(&mut sessions, 13, 103);
    handle_game_update(&mut sessions, update(100, 10, 0), no_winner).unwrap();
    let other = get(&sessions, 102).unwrap();
    assert_eq!(other.state.board, Board::new());
    assert!(other.state.is_player1_turn);
}

#[test]
fn the_winner_is_what_the_engine_reports() {
    let mut sessions = one_full_session();
    let moves = [(10, 0), (11, 3), (10, 1), (11, 4)];
    for (seat, position) in moves {
        let (_, session) =
            handle_game_update(&mut sessions, update(100, seat, position), first_three).unwrap();
        assert_eq!(session.state.winner, None);
    }
    let (_, session) = handle_game_update(&mut sessions, update(100, 10, 2), first_three).unwrap();
    assert_eq!(session.state.winner, Some(Player::Player1));
    assert_eq!(get(&sessions, 100).unwrap().state.winner, Some(Player::Player1));
}

#[test]
fn a_decided_game_still_takes_moves() {
    let mut sessions = one_full_session();
    for (seat, position) in [(10, 0), (11, 3), (10, 1), (11, 4), (10, 2)] {
        handle_game_update(&mut sessions, update(100, seat, position), first_three).unwrap();
    }
    let (_, session) = handle_game_update(&mut sessions, update(100, 11, 5), first_three).unwrap();
    assert_eq!(session.state.board.get_cell(CellIndex::new(5).unwrap()), Cell::Mark2);
    assert_eq!(session.state.winner, Some(Player::Player1));
    assert!(session.state.is_player1_turn);
}

#[test]
fn a_mark_stays_where_it_was_placed() {
    let mut sessions = one_full_session();
    let moves = [(10, 0), (11, 1), (10, 2), (11, 3), (10, 4), (11, 5), (10, 6), (11, 7), (10, 8)];
    let mut expected = [Cell::Empty; 9];
    for (seat, position) in moves {
        let (_, session) =
            handle_game_update(&mut sessions, update(100, seat, position), no_winner).unwrap();
        expected[position] = if seat == 10 { Cell::Mark1 } else { Cell::Mark2 };
        assert_eq!(session.state.board.cells, expected);
    }
    for position in 0..9 {
        assert_eq!(
            handle_game_update(&mut sessions, update(100, 11, position), no_winner).unwrap_err(),
            UpdateError::CellAlreadyFull
        );
    }
}

#[test]
fn leave_tears_the_session_down_with_its_last_occupant() {
    let mut sessions = one_full_session();

    assert_eq!(handle_leave(&mut sessions, leave(100, Some(10))), Ok(()));
    let half = get(&sessions, 100).expect("the session stays while a seat is taken");
    assert_eq!((half.player1_id(), half.player2_id()), (None, Some(11)));

    assert_eq!(handle_leave(&mut sessions, leave(100, Some(11))), Ok(()));
    assert!(get(&sessions, 100).is_none());
    assert_eq!(sessions.len(), 0);

    assert_eq!(handle_leave(&mut sessions, leave(100, Some(10))), Err(LeaveError::UnknownSession));
    assert_eq!(handle_leave(&mut sessions, leave(100, Some(11))), Err(LeaveError::UnknownSession));
    assert_eq!(handle_leave(&mut sessions, leave(100, None)), Err(LeaveError::UnknownSession));
}

#[test]
fn every_refusal_of_a_leave() {
    let mut sessions = one_full_session();
    assert_eq!(handle_leave(&mut sessions, leave(7, Some(10))), Err(LeaveError::UnknownSession));
    assert_eq!(handle_leave(&mut sessions, leave(100, Some(12))), Err(LeaveError::InvalidSeat));
    assert_eq!(handle_leave(&mut sessions, leave(100, None)), Err(LeaveError::InvalidSeat));
    let mut empty = TicTacToeSession::default();
    assert_eq!(empty.leave(Some(10)), Err(LeaveError::Forbidden));
    let stored = get(&sessions, 100).unwrap();
    assert_eq!((stored.player1_id(), stored.player2_id()), (Some(10), Some(11)));
}

#[test]
fn a_leave_without_a_seat_is_refused_also_when_a_seat_is_free() {
    let mut sessions = one_full_session();
    assert_eq!(handle_leave(&mut sessions, leave(100, Some(10))), Ok(()));
    assert_eq!(handle_leave(&mut sessions, leave(100, None)), Err(LeaveError::InvalidSeat));
    let stored = get(&sessions, 100).unwrap();
    assert_eq!((stored.player1_id(), stored.player2_id()), (None, Some(11)));
}

#[test]
fn a_leave_keeps_the_game_state() {
    let mut sessions = one_full_session();
    handle_game_update(&mut sessions, update(100, 10, 4), no_winner).unwrap();
    assert_eq!(handle_leave(&mut sessions, leave(100, Some(11))), Ok(()));
    let stored = get(&sessions, 100).unwrap();
    assert_eq!(stored.state.board.get_cell(CellIndex::new(4).unwrap()), Cell::Mark1);
    assert!(!stored.state.is_player1_turn);
    assert_eq!(
        handle_game_update(&mut sessions, update(100, 10, 5), no_winner).unwrap_err(),
        UpdateError::SessionIsEmpty
    );
}

#[test]
fn a_removed_session_does_not_come_back() {
    let mut sessions = Sessions::new();
    let (old, _) = handle_join(&mut sessions);
    let (_, full) = handle_join(&mut sessions);
    let (a, b) = (full.player1_id().unwrap(), full.player2_id().unwrap());
    assert_eq!(handle_leave(&mut sessions, leave(old, Some(a))), Ok(()));
    assert_eq!(handle_leave(&mut sessions, leave(old, Some(b))), Ok(()));

    assert_eq!(
        handle_game_update(&mut sessions, update(old, a, 0), no_winner).unwrap_err(),
        UpdateError::InvalidSessionId
    );
    for _ in 0..4 {
        let (id, _) = handle_join(&mut sessions);
        assert_ne!(id, old);
        assert!(get(&sessions, old).is_none());
    }
    assert_eq!(
        handle_game_update(&mut sessions, update(old, a, 0), no_winner).unwrap_err(),
        UpdateError::InvalidSessionId
    );
    assert_eq!(handle_leave(&mut sessions, leave(old, Some(a))), Err(LeaveError::UnknownSession));
}
