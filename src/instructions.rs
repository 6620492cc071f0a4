use vstd::prelude::*;

use crate::game::{Game, TicTacToeError, Tile};
use crate::identity::Identity;

verus! {

/// Starts `game` between `player_one`, who moves first, and `player_two`.
pub fn setup_game(game: &mut Game, player_one: Identity, player_two: Identity) -> (r: Result<
    (),
    TicTacToeError,
>)
    requires
        old(game)@.wf(),
    ensures
        old(game)@.start_post([player_one, player_two], final(game)@, r),
        final(game)@.wf(),
{
    game.start([player_one, player_two])
}

/// A move by `player` on `tile`. It is refused with `NotPlayersTurn`, before any
/// other check and with nothing changed, unless `player` is the one whose move is
/// pending.
pub fn play(game: &mut Game, player: &Identity, tile: &Tile) -> (r: Result<(), TicTacToeError>)
    requires
        old(game)@.wf(),
        old(game)@.turn >= 1,
    ensures
        *player != old(game)@.current_player() ==> r == Err::<(), TicTacToeError>(
            TicTacToeError::NotPlayersTurn,
        ) && final(game)@ == old(game)@,
        *player == old(game)@.current_player() ==> old(game)@.play_post(
            tile.row as int,
            tile.column as int,
            final(game)@,
            r,
        ),
        final(game)@.wf(),
{
    let current = game.current_player();
    if !current.same_as(player) {
        return Err(TicTacToeError::NotPlayersTurn);
    }
    game.play(tile)
}

} // verus!
