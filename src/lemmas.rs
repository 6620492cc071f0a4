use vstd::prelude::*;

use crate::game::{
    evaluate, lemma_count_bounds, occupied_count, player_index, Board, GameState, GameView,
    TicTacToeError,
};
use crate::identity::Identity;

verus! {

/// A successful start leaves a well-formed game on turn 1, whose first move is
/// the first player's.
pub proof fn lemma_start_begins_turn_one(
    pre: GameView,
    players: [Identity; 2],
    post: GameView,
    r: Result<(), TicTacToeError>,
)
    requires
        pre.wf(),
        pre.turn == 0,
        pre.start_post(players, post, r),
    ensures
        r is Ok,
        post.turn == 1,
        post.current_player() == players[0],
        post.wf(),
{
    lemma_count_bounds(post.board);
}

/// Starting a game a second time fails with `GameAlreadyStarted` and leaves the
/// game as the first start left it.
pub proof fn lemma_second_start_fails(
    g0: GameView,
    first: [Identity; 2],
    g1: GameView,
    r1: Result<(), TicTacToeError>,
    second: [Identity; 2],
    g2: GameView,
    r2: Result<(), TicTacToeError>,
)
    requires
        g0.start_post(first, g1, r1),
        r1 is Ok,
        g1.start_post(second, g2, r2),
    ensures
        r2 == Err::<(), TicTacToeError>(TicTacToeError::GameAlreadyStarted),
        g2 == g1,
{
}

/// An accepted move turns exactly one empty cell into an occupied one and leaves
/// every other cell as it was.
pub proof fn lemma_move_fills_one_cell(
    pre: GameView,
    row: int,
    column: int,
    post: GameView,
    r: Result<(), TicTacToeError>,
)
    requires
        pre.wf(),
        pre.play_post(row, column, post, r),
        r is Ok,
    ensures
        0 <= row <= 2 && 0 <= column <= 2,
        pre.board[row][column] is None,
        post.board[row][column] is Some,
        forall|i: int, j: int|
            0 <= i < 3 && 0 <= j < 3 && !(i == row && j == column) ==> #[trigger] post.board[i][j]
                == pre.board[i][j],
        occupied_count(post.board) == occupied_count(pre.board) + 1,
{
    let s = post.board[row][column];
    assert(post.board[0][0] == (if row == 0 && column == 0 { s } else { pre.board[0][0] }));
    assert(post.board[0][1] == (if row == 0 && column == 1 { s } else { pre.board[0][1] }));
    assert(post.board[0][2] == (if row == 0 && column == 2 { s } else { pre.board[0][2] }));
    assert(post.board[1][0] == (if row == 1 && column == 0 { s } else { pre.board[1][0] }));
    assert(post.board[1][1] == (if row == 1 && column == 1 { s } else { pre.board[1][1] }));
    assert(post.board[1][2] == (if row == 1 && column == 2 { s } else { pre.board[1][2] }));
    assert(post.board[2][0] == (if row == 2 && column == 0 { s } else { pre.board[2][0] }));
    assert(post.board[2][1] == (if row == 2 && column == 1 { s } else { pre.board[2][1] }));
    assert(post.board[2][2] == (if row == 2 && column == 2 { s } else { pre.board[2][2] }));
}

/// Playing the same cell again, while the game is still active, fails with
/// `TileAlreadySet` and changes nothing.
pub proof fn lemma_same_tile_twice_fails(
    g0: GameView,
    row: int,
    column: int,
    g1: GameView,
    r1: Result<(), TicTacToeError>,
    g2: GameView,
    r2: Result<(), TicTacToeError>,
)
    requires
        g0.wf(),
        g0.play_post(row, column, g1, r1),
        r1 is Ok,
        g1.state is Active,
        g1.play_post(row, column, g2, r2),
    ensures
        r2 == Err::<(), TicTacToeError>(TicTacToeError::TileAlreadySet),
        g2 == g1,
{
    assert(g1.board[row][column] is Some);
}

/// Once a move has ended the game, every further move fails with
/// `GameAlreadyOver` and changes nothing.
pub proof fn lemma_no_move_after_end(
    g0: GameView,
    row0: int,
    column0: int,
    g1: GameView,
    r1: Result<(), TicTacToeError>,
    row1: int,
    column1: int,
    g2: GameView,
    r2: Result<(), TicTacToeError>,
)
    requires
        g0.play_post(row0, column0, g1, r1),
        !(g1.state is Active),
        g1.play_post(row1, column1, g2, r2),
    ensures
        r2 == Err::<(), TicTacToeError>(TicTacToeError::GameAlreadyOver),
        g2 == g1,
{
}

/// Evaluating a board a second time, with no move in between, gives the state
/// that the first evaluation gave; and on a well-formed started game, evaluation
/// gives the state already recorded.
pub proof fn lemma_evaluation_idempotent(b: Board, mover: Identity, prior: GameState, g: GameView)
    requires
        g.wf(),
        g.turn >= 1,
    ensures
        evaluate(b, mover, evaluate(b, mover, prior)) == evaluate(b, mover, prior),
        evaluate(g.board, g.current_player(), g.state) == g.state,
{
}

/// The player whose move is pending alternates: the first player on turns
/// 1, 3, 5, ..., the second on turns 2, 4, 6, ...
pub proof fn lemma_current_player_alternates(turn: int)
    requires
        turn >= 1,
    ensures
        player_index(turn) == (if turn % 2 == 1 { 0int } else { 1int }),
        player_index(turn + 1) == 1 - player_index(turn),
{
}

} // verus!
