use game_sessions::board::{Board, Cell, CellIndex, GameState, Player, BOARD_CELLS};

#[test]
fn cell_index_accepts_the_nine_cells() {
    for position in 0..BOARD_CELLS {
        let index = CellIndex::new(position).expect("a cell of the board");
        assert_eq!(index.get(), position);
    }
}

#[test]
fn cell_index_refuses_what_lies_beyond_the_board() {
    assert!(CellIndex::new(9).is_none());
    assert!(CellIndex::new(10).is_none());
    assert!(CellIndex::new(256).is_none());
    assert!(CellIndex::new(usize::MAX).is_none());
}

#[test]
fn new_board_is_empty() {
    let board = Board::new();
    for position in 0..BOARD_CELLS {
        let index = CellIndex::new(position).unwrap();
        assert_eq!(board.get_cell(index), Cell::Empty);
        assert!(board.get_cell(index).is_empty());
    }
}

#[test]
fn set_cell_changes_one_cell() {
    let mut board = Board::new();
    let four = CellIndex::new(4).unwrap();
    board.set_cell(four, Cell::Mark2);
    for position in 0..BOARD_CELLS {
        let expected = if position == 4 { Cell::Mark2 } else { Cell::Empty };
        assert_eq!(board.get_cell(CellIndex::new(position).unwrap()), expected);
    }
    assert_eq!(
        board.cells,
        [
            Cell::Empty,
            Cell::Empty,
            Cell::Empty,
            Cell::Empty,
            Cell::Mark2,
            Cell::Empty,
            Cell::Empty,
            Cell::Empty,
            Cell::Empty
        ]
    );
}

#[test]
fn only_the_empty_cell_is_empty() {
    assert!(Cell::Empty.is_empty());
    assert!(!Cell::Mark1.is_empty());
    assert!(!Cell::Mark2.is_empty());
}

#[test]
fn each_player_has_its_mark() {
    assert_eq!(Player::Player1.mark(), Cell::Mark1);
    assert_eq!(Player::Player2.mark(), Cell::Mark2);
}

#[test]
fn a_game_starts_empty_with_the_first_player_to_move() {
    let state = GameState::default();
    assert_eq!(state.board, Board::new());
    assert!(state.is_player1_turn);
    assert_eq!(state.winner, None);
}
