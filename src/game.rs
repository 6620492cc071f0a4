use vstd::prelude::*;

use crate::identity::Identity;

verus! {

/// The mark a player places on a cell.
#[derive(Clone, Copy, Debug, PartialEq, Eq, Structural)]
pub enum Sign {
    X,
    O,
}

/// Where a game stands: still being played, tied, or won by a player.
#[derive(Clone, Copy, Debug)]
pub enum GameState {
    Active,
    Tie,
    Won { winner: Identity },
}

/// Why a call was rejected. A rejected call changes nothing.
#[derive(Clone, Copy, Debug, PartialEq, Eq, Structural)]
pub enum TicTacToeError {
    TileOutOfBounds,
    TileAlreadySet,
    GameAlreadyOver,
    NotPlayersTurn,
    GameAlreadyStarted,
}

/// A cell of the board named by its row and column; either may be out of range.
#[derive(Clone, Copy, Debug, PartialEq, Eq, Structural)]
pub struct Tile {
    pub row: u8,
    pub column: u8,
}

/// Three rows of three cells, each empty or holding a sign.
pub type Board = [[Option<Sign>; 3]; 3];

/// One game: its two players, the turn counter (0 until the game is started),
/// the board and the state.
#[derive(Clone, Copy, Debug)]
pub struct Game {
    players: [Identity; 2],
    turn: u8,
    board: Board,
    state: GameState,
}

/// The mathematical model of a game.
pub struct GameView {
    pub players: [Identity; 2],
    pub turn: nat,
    pub board: Board,
    pub state: GameState,
}

/// The sign placed by the player with the given index: X for the first, O for the second.
pub open spec fn sign_of(index: int) -> Sign {
    if index == 0 {
        Sign::X
    } else {
        Sign::O
    }
}

/// Index of the player whose move is pending on a turn (turns count from 1).
pub open spec fn player_index(turn: int) -> int {
    (turn - 1) % 2
}

pub open spec fn cell_count(b: Board, row: int, column: int) -> int {
    if b[row][column] is Some {
        1int
    } else {
        0int
    }
}

/// How many cells of the board are occupied.
pub open spec fn occupied_count(b: Board) -> int {
    cell_count(b, 0, 0) + cell_count(b, 0, 1) + cell_count(b, 0, 2) + cell_count(b, 1, 0)
        + cell_count(b, 1, 1) + cell_count(b, 1, 2) + cell_count(b, 2, 0) + cell_count(b, 2, 1)
        + cell_count(b, 2, 2)
}

pub open spec fn is_empty_board(b: Board) -> bool {
    forall|i: int, j: int| 0 <= i < 3 && 0 <= j < 3 ==> #[trigger] b[i][j] is None
}

pub open spec fn is_full(b: Board) -> bool {
    forall|i: int, j: int| 0 <= i < 3 && 0 <= j < 3 ==> #[trigger] b[i][j] is Some
}

/// Three cells that are occupied and hold the same sign.
pub open spec fn trio_wins(b: Board, r0: int, c0: int, r1: int, c1: int, r2: int, c2: int) -> bool {
    b[r0][c0] is Some && b[r0][c0] == b[r1][c1] && b[r0][c0] == b[r2][c2]
}

pub open spec fn row_wins(b: Board, i: int) -> bool {
    trio_wins(b, i, 0, i, 1, i, 2)
}

pub open spec fn column_wins(b: Board, i: int) -> bool {
    trio_wins(b, 0, i, 1, i, 2, i)
}

/// Some row or column is a winning trio. Diagonals do not count as winning lines
/// in this rule set.
pub open spec fn has_winning_line(b: Board) -> bool {
    row_wins(b, 0) || row_wins(b, 1) || row_wins(b, 2) || column_wins(b, 0) || column_wins(b, 1)
        || column_wins(b, 2)
}

/// The state after evaluating the board: a win for `mover` if a line is complete,
/// otherwise a tie if the board is full, otherwise `prior` unchanged.
pub open spec fn evaluate(b: Board, mover: Identity, prior: GameState) -> GameState {
    if has_winning_line(b) {
        GameState::Won { winner: mover }
    } else if is_full(b) {
        GameState::Tie
    } else {
        prior
    }
}

/// `after` is `before` with the cell at (row, column) set to `s`.
pub open spec fn placed(before: Board, after: Board, row: int, column: int, s: Sign) -> bool {
    forall|i: int, j: int|
        0 <= i < 3 && 0 <= j < 3 ==> #[trigger] after[i][j] == (if i == row && j == column {
            Some(s)
        } else {
            before[i][j]
        })
}

impl GameView {
    pub open spec fn current_index(self) -> int {
        player_index(self.turn as int)
    }

    pub open spec fn current_player(self) -> Identity {
        self.players[self.current_index()]
    }

    /// The game's invariant: the turn counter stays within 0..=9; an unstarted game
    /// has an empty board; while active, the occupied cells number one less than the
    /// turn; and the state is what evaluating the board gives.
    pub open spec fn wf(self) -> bool {
        &&& self.turn <= 9
        &&& self.turn == 0 ==> is_empty_board(self.board) && self.state is Active
        &&& self.turn >= 1 ==> self.state == evaluate(
            self.board,
            self.current_player(),
            GameState::Active,
        )
        &&& self.turn >= 1 && self.state is Active ==> occupied_count(self.board) == self.turn - 1
    }

    /// What `start` does: on an unstarted game it sets the players, turn 1, an empty
    /// board and the active state; otherwise it fails and changes nothing.
    pub open spec fn start_post(
        self,
        players: [Identity; 2],
        post: GameView,
        r: Result<(), TicTacToeError>,
    ) -> bool {
        if self.turn == 0 {
            &&& r == Ok::<(), TicTacToeError>(())
            &&& post.players == players
            &&& post.turn == 1
            &&& is_empty_board(post.board)
            &&& post.state is Active
        } else {
            r == Err::<(), TicTacToeError>(TicTacToeError::GameAlreadyStarted) && post == self
        }
    }

    /// What `play` does on (row, column), checks in this order: a finished game,
    /// a cell off the board, an occupied cell. On success the current player's sign
    /// is placed, the board is evaluated, and the turn advances only if the game is
    /// still active.
    pub open spec fn play_post(
        self,
        row: int,
        column: int,
        post: GameView,
        r: Result<(), TicTacToeError>,
    ) -> bool {
        if !(self.state is Active) {
            r == Err::<(), TicTacToeError>(TicTacToeError::GameAlreadyOver) && post == self
        } else if !(0 <= row <= 2 && 0 <= column <= 2) {
            r == Err::<(), TicTacToeError>(TicTacToeError::TileOutOfBounds) && post == self
        } else if self.board[row][column] is Some {
            r == Err::<(), TicTacToeError>(TicTacToeError::TileAlreadySet) && post == self
        } else {
            &&& r == Ok::<(), TicTacToeError>(())
            &&& post.players == self.players
            &&& placed(self.board, post.board, row, column, sign_of(self.current_index()))
            &&& post.state == evaluate(post.board, self.current_player(), GameState::Active)
            &&& post.turn == if post.state is Active {
                self.turn + 1
            } else {
                self.turn
            }
        }
    }
}

impl View for Game {
    type V = GameView;

    closed spec fn view(&self) -> GameView {
        GameView {
            players: self.players,
            turn: self.turn as nat,
            board: self.board,
            state: self.state,
        }
    }
}

/// The occupied cells number 0 to 9: 9 exactly on a full board, 0 exactly on an
/// empty one.
pub proof fn lemma_count_bounds(b: Board)
    ensures
        0 <= occupied_count(b) <= 9,
        is_full(b) <==> occupied_count(b) == 9,
        is_empty_board(b) <==> occupied_count(b) == 0,
{
    if occupied_count(b) == 9 {
        assert forall|i: int, j: int| 0 <= i < 3 && 0 <= j < 3 implies #[trigger] b[i][j] is Some by {
            assert(i == 0 || i == 1 || i == 2);
            assert(j == 0 || j == 1 || j == 2);
        }
    }
    if occupied_count(b) == 0 {
        assert forall|i: int, j: int| 0 <= i < 3 && 0 <= j < 3 implies #[trigger] b[i][j] is None by {
            assert(i == 0 || i == 1 || i == 2);
            assert(j == 0 || j == 1 || j == 2);
        }
    }
    if is_full(b) {
        assert(b[0][0] is Some && b[0][1] is Some && b[0][2] is Some);
        assert(b[1][0] is Some && b[1][1] is Some && b[1][2] is Some);
        assert(b[2][0] is Some && b[2][1] is Some && b[2][2] is Some);
    }
    if is_empty_board(b) {
        assert(b[0][0] is None && b[0][1] is None && b[0][2] is None);
        assert(b[1][0] is None && b[1][1] is None && b[1][2] is None);
        assert(b[2][0] is None && b[2][1] is None && b[2][2] is None);
    }
}

proof fn lemma_placed_count(before: Board, after: Board, row: int, column: int, s: Sign)
    requires
        0 <= row < 3,
        0 <= column < 3,
        before[row][column] is None,
        placed(before, after, row, column, s),
    ensures
        occupied_count(after) == occupied_count(before) + 1,
{
    assert(after[0][0] == (if row == 0 && column == 0 { Some(s) } else { before[0][0] }));
    assert(after[0][1] == (if row == 0 && column == 1 { Some(s) } else { before[0][1] }));
    assert(after[0][2] == (if row == 0 && column == 2 { Some(s) } else { before[0][2] }));
    assert(after[1][0] == (if row == 1 && column == 0 { Some(s) } else { before[1][0] }));
    assert(after[1][1] == (if row == 1 && column == 1 { Some(s) } else { before[1][1] }));
    assert(after[1][2] == (if row == 1 && column == 2 { Some(s) } else { before[1][2] }));
    assert(after[2][0] == (if row == 2 && column == 0 { Some(s) } else { before[2][0] }));
    assert(after[2][1] == (if row == 2 && column == 1 { Some(s) } else { before[2][1] }));
    assert(after[2][2] == (if row == 2 && column == 2 { Some(s) } else { before[2][2] }));
}

fn cell_occupied(cell: Option<Sign>) -> (r: u8)
    ensures
        r == (if cell is Some { 1int } else { 0int }),
{
    if cell.is_some() {
        1
    } else {
        0
    }
}

/// Counts the occupied cells of a board.
fn occupied_cells(b: &Board) -> (r: u8)
    ensures
        r == occupied_count(*b),
{
    cell_occupied(b[0][0]) + cell_occupied(b[0][1]) + cell_occupied(b[0][2]) + cell_occupied(b[1][0])
        + cell_occupied(b[1][1]) + cell_occupied(b[1][2]) + cell_occupied(b[2][0]) + cell_occupied(
        b[2][1],
    ) + cell_occupied(b[2][2])
}

fn is_active_state(state: &GameState) -> (r: bool)
    ensures
        r == (*state is Active),
{
    match state {
        GameState::Active => true,
        _ => false,
    }
}

impl Sign {
    /// The sign of the player with the given index: X for 0, O for 1.
    pub fn from_index(index: usize) -> (r: Sign)
        requires
            index < 2,
        ensures
            r == sign_of(index as int),
    {
        if index == 0 {
            Sign::X
        } else {
            Sign::O
        }
    }
}

impl PartialEq for GameState {
    fn eq(&self, other: &GameState) -> (r: bool) {
        match self {
            GameState::Active => match other {
                GameState::Active => true,
                _ => false,
            },
            GameState::Tie => match other {
                GameState::Tie => true,
                _ => false,
            },
            GameState::Won { winner } => match other {
                GameState::Won { winner: w } => winner.same_as(w),
                _ => false,
            },
        }
    }
}

impl vstd::std_specs::cmp::PartialEqSpecImpl for GameState {
    open spec fn obeys_eq_spec() -> bool {
        true
    }

    open spec fn eq_spec(&self, other: &GameState) -> bool {
        *self == *other
    }
}

impl Eq for GameState {
}

impl Game {
    /// A game as its host storage creates it, before `start`: turn 0, empty board,
    /// active state, both player keys zero.
    pub fn new() -> (g: Game)
        ensures
            g@.wf(),
            g@.turn == 0,
            is_empty_board(g@.board),
            g@.state is Active,
            forall|k: int, i: int|
                0 <= k < 2 && 0 <= i < 32 ==> #[trigger] g@.players[k].0[i] == 0,
    {
        Game {
            players: [Identity([0u8; 32]), Identity([0u8; 32])],
            turn: 0,
            board: [[None, None, None], [None, None, None], [None, None, None]],
            state: GameState::Active,
        }
    }

    /// Starts the game between `players`; the first of them moves first.
    pub fn start(&mut self, players: [Identity; 2]) -> (r: Result<(), TicTacToeError>)
        requires
            old(self)@.wf(),
        ensures
            old(self)@.start_post(players, final(self)@, r),
            final(self)@.wf(),
    {
        if self.turn != 0 {
            return Err(TicTacToeError::GameAlreadyStarted);
        }
        self.players = players;
        self.turn = 1;
        self.board = [[None, None, None], [None, None, None], [None, None, None]];
        self.state = GameState::Active;
        proof {
            lemma_count_bounds(self.board);
        }
        Ok(())
    }

    pub fn is_active(&self) -> (r: bool)
        ensures
            r == (self@.state is Active),
    {
        is_active_state(&self.state)
    }

    /// Index of the player whose move is pending: 0 on odd turns, 1 on even ones.
    pub fn current_player_index(&self) -> (r: usize)
        requires
            self@.turn >= 1,
        ensures
            r as int == self@.current_index(),
            r < 2,
    {
        ((self.turn - 1) % 2) as usize
    }

    /// The player whose move is pending.
    pub fn current_player(&self) -> (r: Identity)
        requires
            self@.turn >= 1,
        ensures
            r == self@.current_player(),
    {
        self.players[self.current_player_index()]
    }

    /// Places the current player's sign on `tile`, then evaluates the board.
    pub fn play(&mut self, tile: &Tile) -> (r: Result<(), TicTacToeError>)
        requires
            old(self)@.wf(),
            old(self)@.turn >= 1,
        ensures
            old(self)@.play_post(tile.row as int, tile.column as int, final(self)@, r),
            final(self)@.wf(),
    {
        if !self.is_active() {
            return Err(TicTacToeError::GameAlreadyOver);
        }
        if tile.row > 2 || tile.column > 2 {
            return Err(TicTacToeError::TileOutOfBounds);
        }
        let row = tile.row as usize;
        let column = tile.column as usize;
        if self.board[row][column].is_some() {
            return Err(TicTacToeError::TileAlreadySet);
        }
        let ghost pre = self@;
        let sign = Sign::from_index(self.current_player_index());
        self.board[row][column] = Some(sign);
        proof {
            lemma_placed_count(pre.board, self.board, row as int, column as int, sign);
            lemma_count_bounds(self.board);
        }
        self.update_state();
        if self.is_active() {
            self.turn = self.turn + 1;
        }
        Ok(())
    }

    fn is_winning_trio(&self, trio: [(usize, usize); 3]) -> (r: bool)
        requires
            forall|k: int| 0 <= k < 3 ==> #[trigger] trio[k].0 < 3 && trio[k].1 < 3,
        ensures
            r == trio_wins(
                self.board,
                trio[0].0 as int,
                trio[0].1 as int,
                trio[1].0 as int,
                trio[1].1 as int,
                trio[2].0 as int,
                trio[2].1 as int,
            ),
    {
        let first = trio[0];
        let second = trio[1];
        let third = trio[2];
        self.board[first.0][first.1].is_some() && self.board[first.0][first.1]
            == self.board[second.0][second.1] && self.board[first.0][first.1]
            == self.board[third.0][third.1]
    }

    /// Evaluates the board: a completed row or column makes the current player the
    /// winner; otherwise a full board is a tie; otherwise the state is kept.
    pub fn update_state(&mut self)
        requires
            old(self)@.turn >= 1,
        ensures
            final(self)@ == (GameView {
                state: evaluate(old(self)@.board, old(self)@.current_player(), old(self)@.state),
                ..old(self)@
            }),
    {
        let mut i: usize = 0;
        while i <= 2
            invariant
                0 <= i <= 3,
                self@ == old(self)@,
                self@.turn >= 1,
                forall|k: int| 0 <= k < i ==> !row_wins(self.board, k) && !column_wins(self.board, k),
            decreases 3 - i,
        {
            if self.is_winning_trio([(i, 0), (i, 1), (i, 2)]) {
                self.state = GameState::Won { winner: self.current_player() };
                return;
            }
            if self.is_winning_trio([(0, i), (1, i), (2, i)]) {
                self.state = GameState::Won { winner: self.current_player() };
                return;
            }
            i = i + 1;
        }
        let mut row: usize = 0;
        while row <= 2
            invariant
                0 <= row <= 3,
                self@ == old(self)@,
                !has_winning_line(self.board),
                forall|a: int, b: int| 0 <= a < row && 0 <= b < 3 ==> #[trigger] self.board[a][b] is Some,
            decreases 3 - row,
        {
            let mut column: usize = 0;
            while column <= 2
                invariant
                    0 <= row < 3,
                    0 <= column <= 3,
                    self@ == old(self)@,
                    !has_winning_line(self.board),
                    forall|a: int, b: int| 0 <= a < row && 0 <= b < 3 ==> #[trigger] self.board[a][b] is Some,
                    forall|b: int| 0 <= b < column ==> #[trigger] self.board[row as int][b] is Some,
                decreases 3 - column,
            {
                if self.board[row][column].is_none() {
                    return;
                }
                column = column + 1;
            }
            row = row + 1;
        }
        self.state = GameState::Tie;
    }

    /// Rebuilds a game from its stored fields. It is `None` exactly when the fields
    /// break the game's invariant.
    pub fn from_parts(players: [Identity; 2], turn: u8, board: Board, state: GameState) -> (r:
        Option<Game>)
        ensures
            r is Some <==> (GameView { players, turn: turn as nat, board, state }).wf(),
            r is Some ==> r->0@ == (GameView { players, turn: turn as nat, board, state }),
    {
        proof {
            lemma_count_bounds(board);
        }
        if turn > 9 {
            return None;
        }
        let count = occupied_cells(&board);
        if turn == 0 {
            if count != 0 || !is_active_state(&state) {
                return None;
            }
            return Some(Game { players, turn, board, state });
        }
        let mut candidate = Game { players, turn, board, state: GameState::Active };
        candidate.update_state();
        if candidate.state != state {
            return None;
        }
        if candidate.is_active() && count as u16 + 1 != turn as u16 {
            return None;
        }
        Some(candidate)
    }

    /// The whole board, row by row.
    pub fn board(&self) -> (r: Board)
        ensures
            r == self@.board,
    {
        self.board
    }

    /// The turn counter: 0 before the game is started.
    pub fn turn(&self) -> (r: u8)
        ensures
            r as nat == self@.turn,
    {
        self.turn
    }

    pub fn state(&self) -> (r: GameState)
        ensures
            r == self@.state,
    {
        self.state
    }

    pub fn players(&self) -> (r: [Identity; 2])
        ensures
            r == self@.players,
    {
        self.players
    }

    /// What the cell at (row, column) holds.
    pub fn tile_at(&self, row: usize, column: usize) -> (r: Option<Sign>)
        requires
            row < 3,
            column < 3,
        ensures
            r == self@.board[row as int][column as int],
    {
        self.board[row][column]
    }
}

} // verus!
