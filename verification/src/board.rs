//! The playing field as plain data: nine cells, the turn and the winner.
//!
//! Nothing here knows rows, columns or lines. A cell is read and written by
//! its index, and the winner is stored as the game engine reported it.

use vstd::prelude::*;

verus! {

/// The number of cells of a board.
pub const BOARD_CELLS: usize = 9;

/// One of the two players of a session. `Player1` holds the first seat.
#[derive(Clone, Copy, Debug, PartialEq, Eq, Structural)]
pub enum Player {
    Player1,
    Player2,
}

/// What a cell of the board holds.
#[derive(Clone, Copy, Debug, PartialEq, Eq, Structural)]
pub enum Cell {
    Empty,
    Mark1,
    Mark2,
}

impl Player {
    /// The mark that this player places.
    pub open spec fn spec_mark(self) -> Cell {
        match self {
            Player::Player1 => Cell::Mark1,
            Player::Player2 => Cell::Mark2,
        }
    }

    /// The mark that this player places.
    #[verifier::when_used_as_spec(spec_mark)]
    pub fn mark(self) -> (cell: Cell)
        ensures
            cell == self.spec_mark(),
    {
        match self {
            Player::Player1 => Cell::Mark1,
            Player::Player2 => Cell::Mark2,
        }
    }
}

impl Cell {
    /// Whether no mark was placed in the cell.
    pub open spec fn spec_is_empty(&self) -> bool {
        *self == Cell::Empty
    }

    /// Whether no mark was placed in the cell.
    #[verifier::when_used_as_spec(spec_is_empty)]
    pub fn is_empty(&self) -> (empty: bool)
        ensures
            empty == self.spec_is_empty(),
    {
        match self {
            Cell::Empty => true,
            _ => false,
        }
    }
}

/// Addresses one cell of a board. Every value of this type is below
/// `BOARD_CELLS`, so reading and writing a cell cannot fail.
#[derive(Clone, Copy, Debug, PartialEq, Eq)]
pub struct CellIndex {
    index: u8,
}

impl CellIndex {
    #[verifier::type_invariant]
    spec fn in_range(self) -> bool {
        self.index < BOARD_CELLS
    }

    /// The number of the cell that is addressed.
    pub closed spec fn position(self) -> int {
        self.index as int
    }

    /// Whether the index addresses a cell. Holds of every index that `new`
    /// returned.
    pub open spec fn is_valid(self) -> bool {
        0 <= self.position() < BOARD_CELLS
    }

    /// The index of cell number `position`, if the board has such a cell.
    pub fn new(position: usize) -> (index: Option<CellIndex>)
        ensures
            position < BOARD_CELLS ==> index is Some && index.unwrap().position() == position,
            position >= BOARD_CELLS ==> index is None,
    {
        if position < BOARD_CELLS {
            Some(CellIndex { index: position as u8 })
        } else {
            None
        }
    }

    /// The number of the cell that is addressed.
    pub fn get(self) -> (position: usize)
        ensures
            position == self.position(),
            self.is_valid(),
    {
        proof {
            use_type_invariant(&self);
        }
        self.index as usize
    }
}

/// The cells of a board, by index.
#[derive(Clone, Copy, Debug, PartialEq, Eq)]
pub struct Board {
    pub cells: [Cell; 9],
}

impl View for Board {
    type V = Seq<Cell>;

    open spec fn view(&self) -> Seq<Cell> {
        self.cells@
    }
}

/// The board on which no mark was placed.
pub open spec fn empty_board() -> Seq<Cell> {
    Seq::new(BOARD_CELLS as nat, |i: int| Cell::Empty)
}

impl Board {
    /// A board of empty cells.
    pub fn new() -> (board: Board)
        ensures
            board@ == empty_board(),
    {
        let board = Board { cells: [Cell::Empty; 9] };
        board
    }

    /// What the cell at `index` holds.
    pub fn get_cell(&self, index: CellIndex) -> (cell: Cell)
        ensures
            index.is_valid(),
            cell == self@[index.position()],
    {
        let position = index.get();
        self.cells[position]
    }

    /// Writes `value` into the cell at `index` and leaves the others as they
    /// are.
    pub fn set_cell(&mut self, index: CellIndex, value: Cell)
        ensures
            index.is_valid(),
            final(self)@ == old(self)@.update(index.position(), value),
    {
        let position = index.get();
        self.cells[position] = value;
    }
}

/// The state of one game: the board, whose turn it is, and the winner as the
/// game engine last reported it.
#[derive(Clone, Copy, Debug)]
pub struct GameState {
    pub board: Board,
    pub is_player1_turn: bool,
    pub winner: Option<Player>,
}

/// The mathematical value of a `GameState`.
pub struct GameStateView {
    pub board: Seq<Cell>,
    pub is_player1_turn: bool,
    pub winner: Option<Player>,
}

impl View for GameState {
    type V = GameStateView;

    open spec fn view(&self) -> GameStateView {
        GameStateView {
            board: self.board@,
            is_player1_turn: self.is_player1_turn,
            winner: self.winner,
        }
    }
}

impl GameStateView {
    /// Whether the board has its nine cells. Holds of the view of every
    /// `GameState`.
    pub open spec fn is_valid(self) -> bool {
        self.board.len() == BOARD_CELLS
    }

    /// The state before the first move: an empty board, the first player to
    /// move, no winner.
    pub open spec fn initial() -> GameStateView {
        GameStateView { board: empty_board(), is_player1_turn: true, winner: None }
    }

    /// The player who moves next.
    pub open spec fn to_move(self) -> Player {
        if self.is_player1_turn {
            Player::Player1
        } else {
            Player::Player2
        }
    }

    /// The state after `mark` was placed at `position` and the game engine
    /// reported `winner` for the board that results.
    pub open spec fn placed(self, position: int, mark: Cell, winner: Option<Player>) -> GameStateView {
        GameStateView {
            board: self.board.update(position, mark),
            is_player1_turn: !self.is_player1_turn,
            winner,
        }
    }
}

impl GameState {
    /// The view of a game state is valid.
    pub proof fn lemma_view_is_valid(self)
        ensures
            self@.is_valid(),
    {
    }
}

impl Default for GameState {
    fn default() -> (state: GameState)
        ensures
            state@ == GameStateView::initial(),
    {
        GameState { board: Board::new(), is_player1_turn: true, winner: None }
    }
}

} // verus!
