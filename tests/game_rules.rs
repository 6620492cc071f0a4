use tic_tac_toe::game::{Game, GameState, Sign, TicTacToeError, Tile};
use tic_tac_toe::identity::Identity;
use tic_tac_toe::instructions::{play, setup_game};

fn first() -> Identity {
    Identity([1u8; 32])
}

fn second() -> Identity {
    Identity([2u8; 32])
}

fn tile(row: u8, column: u8) -> Tile {
    Tile { row, column }
}

fn started() -> Game {
    let mut g = Game::new();
    assert_eq!(setup_game(&mut g, first(), second()), Ok(()));
    g
}

fn occupied(g: &Game) -> usize {
    let mut n = 0;
    for r in 0..3 {
        for c in 0..3 {
            if g.tile_at(r, c).is_some() {
                n += 1;
            }
        }
    }
    n
}

#[test]
fn turn_is_zero_before_start_and_one_after() {
    let mut g = Game::new();
    assert_eq!(g.turn(), 0);
    assert_eq!(g.state(), GameState::Active);
    assert_eq!(g.start([first(), second()]), Ok(()));
    assert_eq!(g.turn(), 1);
    assert_eq!(g.players(), [first(), second()]);
    assert_eq!(g.state(), GameState::Active);
    assert_eq!(occupied(&g), 0);
    assert_eq!(g.current_player(), first());
}

#[test]
fn second_start_fails_and_changes_nothing() {
    let mut g = started();
    assert_eq!(g.play(&tile(1, 2)), Ok(()));
    let turn = g.turn();
    assert_eq!(
        g.start([second(), first()]),
        Err(TicTacToeError::GameAlreadyStarted)
    );
    assert_eq!(g.turn(), turn);
    assert_eq!(g.players(), [first(), second()]);
    assert_eq!(g.tile_at(1, 2), Some(Sign::X));
    assert_eq!(
        setup_game(&mut g, first(), second()),
        Err(TicTacToeError::GameAlreadyStarted)
    );
}

#[test]
fn accepted_move_fills_exactly_one_cell() {
    let mut g = started();
    assert_eq!(g.play(&tile(2, 1)), Ok(()));
    assert_eq!(occupied(&g), 1);
    assert_eq!(g.tile_at(2, 1), Some(Sign::X));
    assert_eq!(g.play(&tile(0, 0)), Ok(()));
    assert_eq!(occupied(&g), 2);
    assert_eq!(g.tile_at(0, 0), Some(Sign::O));
    assert_eq!(g.tile_at(2, 1), Some(Sign::X));
    assert_eq!(g.turn(), 3);
}

#[test]
fn same_tile_twice_is_rejected() {
    let mut g = started();
    assert_eq!(g.play(&tile(1, 1)), Ok(()));
    assert_eq!(g.play(&tile(1, 1)), Err(TicTacToeError::TileAlreadySet));
    assert_eq!(g.turn(), 2);
    assert_eq!(g.tile_at(1, 1), Some(Sign::X));
    assert_eq!(occupied(&g), 1);
}

#[test]
fn out_of_bounds_tile_is_rejected() {
    let mut g = started();
    for t in [tile(3, 0), tile(0, 3), tile(255, 255), tile(3, 1)] {
        assert_eq!(g.play(&t), Err(TicTacToeError::TileOutOfBounds));
        assert_eq!(g.turn(), 1);
        assert_eq!(occupied(&g), 0);
        assert_eq!(g.state(), GameState::Active);
    }
}

#[test]
fn scenario_top_row_win() {
    let mut g = started();
    assert_eq!(play(&mut g, &first(), &tile(0, 0)), Ok(()));
    assert_eq!(play(&mut g, &second(), &tile(1, 1)), Ok(()));
    assert_eq!(play(&mut g, &first(), &tile(0, 1)), Ok(()));
    assert_eq!(play(&mut g, &second(), &tile(1, 0)), Ok(()));
    assert_eq!(play(&mut g, &first(), &tile(0, 2)), Ok(()));
    assert_eq!(g.state(), GameState::Won { winner: first() });
    assert_eq!(g.turn(), 5);
    assert!(!g.is_active());
    assert_eq!(
        play(&mut g, &first(), &tile(2, 2)),
        Err(TicTacToeError::GameAlreadyOver)
    );
    assert_eq!(g.play(&tile(2, 2)), Err(TicTacToeError::GameAlreadyOver));
    assert_eq!(g.play(&tile(7, 7)), Err(TicTacToeError::GameAlreadyOver));
    assert_eq!(g.turn(), 5);
    assert_eq!(g.tile_at(2, 2), None);
}

#[test]
fn scenario_full_board_tie() {
    let mut g = started();
    let moves = [(0, 0), (0, 1), (0, 2), (1, 0), (1, 1), (1, 2), (2, 0), (2, 1), (2, 2)];
    for (k, (r, c)) in moves.iter().enumerate() {
        let who = if k % 2 == 0 { first() } else { second() };
        assert_eq!(g.state(), GameState::Active);
        assert_eq!(play(&mut g, &who, &tile(*r, *c)), Ok(()));
    }
    assert_eq!(g.state(), GameState::Tie);
    assert_eq!(g.turn(), 9);
    assert_eq!(occupied(&g), 9);
    assert_eq!(g.play(&tile(0, 0)), Err(TicTacToeError::GameAlreadyOver));
}

#[test]
fn tie_on_board_x_o_x_x_o_o_o_x_x() {
    let mut g = started();
    let moves = [(0, 0), (0, 1), (0, 2), (1, 1), (1, 0), (1, 2), (2, 1), (2, 0), (2, 2)];
    for (r, c) in moves {
        assert_eq!(g.state(), GameState::Active);
        assert_eq!(g.play(&tile(r, c)), Ok(()));
    }
    let expected = [
        [Sign::X, Sign::O, Sign::X],
        [Sign::X, Sign::O, Sign::O],
        [Sign::O, Sign::X, Sign::X],
    ];
    for r in 0..3 {
        for c in 0..3 {
            assert_eq!(g.tile_at(r, c), Some(expected[r][c]));
        }
    }
    assert_eq!(g.state(), GameState::Tie);
    assert_eq!(g.turn(), 9);
}

#[test]
fn current_player_alternates_with_turns() {
    let mut g = started();
    let cells = [(0, 0), (1, 1), (2, 2), (0, 1), (1, 0)];
    for (k, (r, c)) in cells.iter().enumerate() {
        let expected = if k % 2 == 0 { first() } else { second() };
        assert_eq!(g.turn() as usize, k + 1);
        assert_eq!(g.current_player_index(), k % 2);
        assert_eq!(g.current_player(), expected);
        assert_eq!(g.play(&tile(*r, *c)), Ok(()));
    }
}

#[test]
fn wrong_player_is_rejected() {
    let mut g = started();
    assert_eq!(
        play(&mut g, &second(), &tile(0, 0)),
        Err(TicTacToeError::NotPlayersTurn)
    );
    assert_eq!(g.turn(), 1);
    assert_eq!(occupied(&g), 0);
    assert_eq!(play(&mut g, &first(), &tile(0, 0)), Ok(()));
    assert_eq!(
        play(&mut g, &first(), &tile(0, 1)),
        Err(TicTacToeError::NotPlayersTurn)
    );
}

#[test]
fn column_win_and_no_diagonal_win() {
    let mut g = started();
    // X takes the main diagonal, which is not a winning line here.
    for (r, c) in [(0, 0), (0, 1), (1, 1), (0, 2), (2, 2)] {
        assert_eq!(g.play(&tile(r, c)), Ok(()));
    }
    assert_eq!(g.state(), GameState::Active);
    assert_eq!(g.turn(), 6);
    // O completes the first column.
    let mut h = started();
    for (r, c) in [(0, 1), (0, 0), (1, 1), (1, 0), (2, 2), (2, 0)] {
        assert_eq!(h.play(&tile(r, c)), Ok(()));
    }
    assert_eq!(h.state(), GameState::Won { winner: second() });
    assert_eq!(h.turn(), 6);
}

#[test]
fn evaluating_twice_gives_the_same_state() {
    let mut g = started();
    for (r, c) in [(0, 0), (1, 1), (0, 1), (1, 0), (0, 2)] {
        assert_eq!(g.play(&tile(r, c)), Ok(()));
    }
    let first = g.state();
    g.update_state();
    assert_eq!(g.state(), first);
    g.update_state();
    assert_eq!(g.state(), first);
    let mut h = started();
    assert_eq!(h.play(&tile(0, 0)), Ok(()));
    h.update_state();
    h.update_state();
    assert_eq!(h.state(), GameState::Active);
    assert_eq!(h.turn(), 2);
}

#[test]
fn sign_follows_player_index() {
    assert_eq!(Sign::from_index(0), Sign::X);
    assert_eq!(Sign::from_index(1), Sign::O);
}

#[test]
fn identities_compare_by_every_byte() {
    let mut b = [7u8; 32];
    assert!(Identity(b).same_as(&Identity([7u8; 32])));
    b[31] = 8;
    assert!(!Identity(b).same_as(&Identity([7u8; 32])));
    assert_ne!(Identity(b), Identity([7u8; 32]));
    assert_eq!(Identity(b), Identity(b));
}

fn empty_board() -> [[Option<Sign>; 3]; 3] {
    [[None; 3]; 3]
}

#[test]
fn stored_fields_are_checked_when_restored() {
    let players = [first(), second()];
    assert!(Game::from_parts(players, 0, empty_board(), GameState::Active).is_some());
    assert!(Game::from_parts(players, 10, empty_board(), GameState::Active).is_none());
    assert!(Game::from_parts(players, 0, empty_board(), GameState::Tie).is_none());
    let mut one = empty_board();
    one[1][1] = Some(Sign::X);
    assert!(Game::from_parts(players, 0, one, GameState::Active).is_none());
    assert!(Game::from_parts(players, 1, one, GameState::Active).is_none());
    let restored = Game::from_parts(players, 2, one, GameState::Active).unwrap();
    assert_eq!(restored.turn(), 2);
    assert_eq!(restored.current_player(), second());
    assert_eq!(restored.board(), one);
    let mut won = empty_board();
    won[0] = [Some(Sign::X); 3];
    won[1][0] = Some(Sign::O);
    won[1][1] = Some(Sign::O);
    assert!(Game::from_parts(players, 5, won, GameState::Won { winner: first() }).is_some());
    assert!(Game::from_parts(players, 5, won, GameState::Won { winner: second() }).is_none());
    assert!(Game::from_parts(players, 5, won, GameState::Active).is_none());
}

#[test]
fn restored_game_plays_on() {
    let mut g = started();
    assert_eq!(g.play(&tile(0, 0)), Ok(()));
    let mut h = Game::from_parts(g.players(), g.turn(), g.board(), g.state()).unwrap();
    assert_eq!(h.play(&tile(0, 0)), Err(TicTacToeError::TileAlreadySet));
    assert_eq!(h.play(&tile(2, 2)), Ok(()));
    assert_eq!(h.tile_at(2, 2), Some(Sign::O));
    assert_eq!(h.turn(), 3);
}
