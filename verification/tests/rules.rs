use tic_tac_toe::board::Board;
use tic_tac_toe::board::ValidMove;
use tic_tac_toe::game::Game;
use tic_tac_toe::game::Turn;
use tic_tac_toe::target::ColumnTarget;
use tic_tac_toe::target::RowTarget;
use tic_tac_toe::tile::TileFill;

const ROWS: [RowTarget; 3] = [RowTarget::Bottom, RowTarget::Center, RowTarget::Top];
const COLUMNS: [ColumnTarget; 3] = [ColumnTarget::Left, ColumnTarget::Center, ColumnTarget::Right];

/// The board with the given tiles, bottom row first, built move by move.
fn board_of(tiles: [[TileFill; 3]; 3]) -> Board {
    let mut board = Board::new();
    for row in 0..3 {
        for col in 0..3 {
            if tiles[row][col] != TileFill::Empty {
                let valid = ValidMove::new(&board, ROWS[row], COLUMNS[col]).unwrap();
                board = board.make_move(tiles[row][col], &valid);
            }
        }
    }
    board
}

/// The tiles of a board, bottom row first.
fn tiles_of(board: &Board) -> [[TileFill; 3]; 3] {
    let mut tiles = [[TileFill::Empty; 3]; 3];
    for row in 0..3 {
        for col in 0..3 {
            tiles[row][col] = board.tile_at(row, col);
        }
    }
    tiles
}

/// Plays the given selections in turn and returns what the last one led to.
fn play(selections: &[(RowTarget, ColumnTarget)]) -> Turn {
    let mut game = Game::new();
    let (last, before) = selections.split_last().unwrap();
    for (row, column) in before {
        let valid = game.make_move(*row, *column).unwrap();
        game = match game.next_turn(&valid) {
            Turn::InProgress(next) => next,
            _ => panic!("the game ended early"),
        };
    }
    let valid = game.make_move(last.0, last.1).unwrap();
    game.next_turn(&valid)
}

const X: TileFill = TileFill::X;
const O: TileFill = TileFill::O;
const E: TileFill = TileFill::Empty;

#[test]
fn new_board_is_empty() {
    assert_eq!(tiles_of(&Board::new()), [[E; 3]; 3]);
    assert_eq!(tiles_of(&Board::default()), [[E; 3]; 3]);
    assert!(!Board::new().is_complete());
    assert!(!Board::new().is_draw());
}

#[test]
fn selectors_map_to_indices() {
    assert_eq!(usize::from(&RowTarget::Bottom), 0);
    assert_eq!(usize::from(&RowTarget::Center), 1);
    assert_eq!(usize::from(&RowTarget::Top), 2);
    assert_eq!(usize::from(&ColumnTarget::Left), 0);
    assert_eq!(usize::from(&ColumnTarget::Center), 1);
    assert_eq!(usize::from(&ColumnTarget::Right), 2);
}

#[test]
fn selectors_reject_numbers_out_of_range() {
    for value in [0usize, 4, 5, 100, usize::MAX] {
        assert_eq!(RowTarget::try_from(value), Err(tic_tac_toe::target::INVALID_ROW));
        assert_eq!(ColumnTarget::try_from(value), Err(tic_tac_toe::target::INVALID_COLUMN));
    }
}

#[test]
fn validation_succeeds_exactly_on_empty_tiles() {
    let boards = [
        board_of([[E, E, E], [E, E, E], [E, E, E]]),
        board_of([[X, E, O], [E, O, E], [X, E, E]]),
        board_of([[X, O, X], [X, O, O], [O, X, X]]),
    ];
    for board in boards.iter() {
        for row in 0..3 {
            for col in 0..3 {
                let checked = ValidMove::new(board, ROWS[row], COLUMNS[col]);
                assert_eq!(checked.is_some(), board.tile_at(row, col) == E);
            }
        }
    }
}

#[test]
fn a_move_changes_exactly_its_tile() {
    let board = board_of([[X, E, O], [E, O, E], [X, E, E]]);
    let before = tiles_of(&board);
    for row in 0..3 {
        for col in 0..3 {
            if let Some(valid) = ValidMove::new(&board, ROWS[row], COLUMNS[col]) {
                for player in [X, O] {
                    let next = board.make_move(player, &valid);
                    assert_eq!(tiles_of(&board), before);
                    let after = tiles_of(&next);
                    for r in 0..3 {
                        for c in 0..3 {
                            assert_eq!(after[r][c] != before[r][c], r == row && c == col);
                        }
                    }
                    assert_eq!(after[row][col], player);
                }
            }
        }
    }
}

#[test]
fn a_move_is_valid_only_while_its_tile_is_empty() {
    let board = Board::new();
    let valid = ValidMove::new(&board, RowTarget::Center, ColumnTarget::Center).unwrap();
    assert!(valid.is_valid_for(&board));
    let next = board.make_move(X, &valid);
    assert!(!valid.is_valid_for(&next));
    let elsewhere = ValidMove::new(&next, RowTarget::Top, ColumnTarget::Left).unwrap();
    assert!(elsewhere.is_valid_for(&next));
    assert!(elsewhere.is_valid_for(&board));
}

#[test]
fn full_boards_without_a_line_are_draws() {
    let boards = [
        board_of([[X, O, X], [X, O, O], [O, X, X]]),
        board_of([[O, X, O], [O, X, X], [X, O, O]]),
        board_of([[X, O, X], [O, X, O], [O, X, O]]),
    ];
    for board in boards.iter() {
        assert!(board.is_draw());
        assert!(!board.is_complete());
    }
}

#[test]
fn a_full_board_with_a_line_is_full_and_complete() {
    let board = board_of([[X, O, X], [X, O, X], [X, O, X]]);
    assert!(board.is_draw());
    assert!(board.is_complete());
}

#[test]
fn every_line_of_one_player_completes_the_board() {
    let lines: [[(usize, usize); 3]; 8] = [
        [(0, 0), (0, 1), (0, 2)],
        [(1, 0), (1, 1), (1, 2)],
        [(2, 0), (2, 1), (2, 2)],
        [(0, 0), (1, 0), (2, 0)],
        [(0, 1), (1, 1), (2, 1)],
        [(0, 2), (1, 2), (2, 2)],
        [(0, 0), (1, 1), (2, 2)],
        [(0, 2), (1, 1), (2, 0)],
    ];
    for line in lines.iter() {
        for player in [X, O] {
            let mut tiles = [[E; 3]; 3];
            for (row, col) in line.iter() {
                tiles[*row][*col] = player;
            }
            assert!(board_of(tiles).is_complete());
            let (row, col) = line[1];
            tiles[row][col] = E;
            assert!(!board_of(tiles).is_complete());
            tiles[row][col] = player.get_next_player();
            assert!(!board_of(tiles).is_complete());
        }
    }
}

#[test]
fn a_board_with_an_empty_tile_is_no_draw() {
    for row in 0..3 {
        for col in 0..3 {
            let mut tiles = [[X, O, X], [X, O, O], [O, X, X]];
            tiles[row][col] = E;
            assert!(!board_of(tiles).is_draw());
        }
    }
}

#[test]
fn first_move_on_empty_board() {
    let board = Board::new();
    let valid = ValidMove::new(&board, RowTarget::Bottom, ColumnTarget::Left).unwrap();
    let next = board.make_move(X, &valid);
    assert_eq!(tiles_of(&next), [[X, E, E], [E, E, E], [E, E, E]]);
    assert!(!next.is_complete());
    assert!(!next.is_draw());
}

#[test]
fn occupied_tile_is_refused_and_nothing_changes() {
    let game = Game::new();
    let valid = game.make_move(RowTarget::Center, ColumnTarget::Center).unwrap();
    let game = match game.next_turn(&valid) {
        Turn::InProgress(next) => next,
        _ => panic!("the game ended early"),
    };
    let before = tiles_of(game.board());
    assert!(game.make_move(RowTarget::Center, ColumnTarget::Center).is_none());
    assert!(ValidMove::new(game.board(), RowTarget::Center, ColumnTarget::Center).is_none());
    assert_eq!(tiles_of(game.board()), before);
    assert_eq!(game.current_player(), X);
}

#[test]
fn a_new_game_starts_empty_with_o_to_move() {
    let game = Game::new();
    assert_eq!(tiles_of(game.board()), [[E; 3]; 3]);
    assert_eq!(game.current_player(), O);
}

#[test]
fn players_alternate() {
    let game = Game::new();
    let start = game.current_player();
    let valid = game.make_move(RowTarget::Bottom, ColumnTarget::Left).unwrap();
    let game = match game.next_turn(&valid) {
        Turn::InProgress(next) => next,
        _ => panic!("the game ended early"),
    };
    assert_eq!(game.current_player(), X);
    assert_ne!(game.current_player(), start);
    assert_eq!(tiles_of(game.board()), [[O, E, E], [E, E, E], [E, E, E]]);
    let valid = game.make_move(RowTarget::Top, ColumnTarget::Right).unwrap();
    let game = match game.next_turn(&valid) {
        Turn::InProgress(next) => next,
        _ => panic!("the game ended early"),
    };
    assert_eq!(game.current_player(), start);
    assert_eq!(tiles_of(game.board()), [[O, E, E], [E, E, E], [E, E, X]]);
}

#[test]
fn top_row_wins_for_the_first_player() {
    let turn = play(&[
        (RowTarget::Top, ColumnTarget::Left),
        (RowTarget::Bottom, ColumnTarget::Left),
        (RowTarget::Top, ColumnTarget::Center),
        (RowTarget::Center, ColumnTarget::Center),
        (RowTarget::Top, ColumnTarget::Right),
    ]);
    match turn {
        Turn::Win { player, board } => {
            assert_eq!(player, O);
            assert!(board.is_complete());
            assert_eq!(tiles_of(&board), [[X, E, E], [E, X, E], [O, O, O]]);
        },
        _ => panic!("the top row did not win"),
    }
}

#[test]
fn second_player_can_win() {
    let turn = play(&[
        (RowTarget::Top, ColumnTarget::Left),
        (RowTarget::Bottom, ColumnTarget::Left),
        (RowTarget::Top, ColumnTarget::Center),
        (RowTarget::Center, ColumnTarget::Center),
        (RowTarget::Center, ColumnTarget::Left),
        (RowTarget::Top, ColumnTarget::Right),
    ]);
    match turn {
        Turn::Win { player, board } => {
            assert_eq!(player, X);
            assert_eq!(tiles_of(&board), [[X, E, E], [O, X, E], [O, O, X]]);
        },
        _ => panic!("the diagonal did not win"),
    }
}

#[test]
fn full_board_without_a_line_ends_in_a_draw() {
    // O X O
    // O X X
    // X O O   (top row first; O moves first and makes five marks)
    let turn = play(&[
        (RowTarget::Top, ColumnTarget::Left),
        (RowTarget::Top, ColumnTarget::Center),
        (RowTarget::Top, ColumnTarget::Right),
        (RowTarget::Center, ColumnTarget::Center),
        (RowTarget::Center, ColumnTarget::Left),
        (RowTarget::Center, ColumnTarget::Right),
        (RowTarget::Bottom, ColumnTarget::Center),
        (RowTarget::Bottom, ColumnTarget::Left),
        (RowTarget::Bottom, ColumnTarget::Right),
    ]);
    match turn {
        Turn::Draw { board } => {
            assert!(board.is_draw());
            assert!(!board.is_complete());
            assert_eq!(tiles_of(&board), [[X, O, O], [O, X, X], [O, X, O]]);
        },
        _ => panic!("the full board was no draw"),
    }
}

#[test]
fn a_win_on_the_last_tile_is_a_win() {
    // O X O
    // X O X
    // X O O   (top row first); the last mark, in the middle, completes a
    // diagonal of O
    let turn = play(&[
        (RowTarget::Top, ColumnTarget::Left),
        (RowTarget::Top, ColumnTarget::Center),
        (RowTarget::Top, ColumnTarget::Right),
        (RowTarget::Center, ColumnTarget::Left),
        (RowTarget::Bottom, ColumnTarget::Center),
        (RowTarget::Center, ColumnTarget::Right),
        (RowTarget::Bottom, ColumnTarget::Right),
        (RowTarget::Bottom, ColumnTarget::Left),
        (RowTarget::Center, ColumnTarget::Center),
    ]);
    match turn {
        Turn::Win { player, board } => {
            assert_eq!(player, O);
            assert!(board.is_draw());
            assert!(board.is_complete());
            assert_eq!(tiles_of(&board), [[X, O, O], [X, O, X], [O, X, O]]);
        },
        _ => panic!("the last mark did not win"),
    }
}
