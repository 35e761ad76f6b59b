use tic_tac_toe::{CellState, Direction, Game};

const E: CellState = CellState::Empty;
const X: CellState = CellState::X;
const O: CellState = CellState::O;

fn is_mark(c: CellState) -> bool {
    c == CellState::X || c == CellState::O
}

fn count_marks(game: &Game) -> usize {
    game.cells().iter().filter(|c| is_mark(**c)).count()
}

#[test]
fn player_down_movement_works() {
    // P
    // XXX
    //
    let mut game = Game::from_cells([E, E, E, X, X, X, E, E, E], 0).unwrap();
    game.move_player(Direction::Down);
    //
    // XXX
    // P
    assert_eq!(game.player_position(), 6)
}

#[test]
fn player_complex_down_movement_works() {
    // P
    // XXX
    // OO
    let mut game = Game::from_cells([E, E, E, X, X, X, O, O, E], 0).unwrap();
    game.move_player(Direction::Down);
    //
    // XXX
    // OOP
    assert_eq!(game.player_position(), 8)
}

#[test]
fn player_up_movement_works() {
    //
    // XXX
    //   P
    let mut game = Game::from_cells([E, E, E, X, X, X, E, E, E], 8).unwrap();
    game.move_player(Direction::Up);
    //   P
    // XXX
    //
    assert_eq!(game.player_position(), 2)
}

#[test]
fn player_complex_up_movement_works() {
    //
    // XXX
    // OOP
    let mut game = Game::from_cells([E, E, E, X, X, X, O, O, E], 8).unwrap();
    game.move_player(Direction::Up);
    //   P
    // XXX
    // OO
    assert_eq!(game.player_position(), 2)
}

#[test]
fn computer_move_works() {
    let number_of_times_to_run = 100;
    for _ in 0..number_of_times_to_run {
        let mut game = Game::new();
        let mut game_state = game.cells();
        for _ in 0..3 {
            game.place_player_token();
            for (index, cell) in game_state.iter().enumerate() {
                if is_mark(*cell) {
                    assert_eq!(cell, &game.cell(index));
                }
            }
            game_state = game.cells();
            game.place_computer_token();
            for (index, cell) in game_state.iter().enumerate() {
                if is_mark(*cell) {
                    assert_eq!(cell, &game.cell(index));
                }
            }
            game_state = game.cells();
        }
    }
}

#[test]
fn new_game_is_empty_with_cursor_at_zero() {
    let game = Game::new();
    assert_eq!(game.cells(), [E; 9]);
    assert_eq!(game.player_position(), 0);
    assert!(!game.game_over());
}

#[test]
fn from_cells_rejects_bad_boards() {
    assert!(Game::from_cells([E; 9], 9).is_none());
    assert!(Game::from_cells([X, E, E, E, E, E, E, E, E], 0).is_none());
    assert!(Game::from_cells([E, CellState::Cursor, E, E, E, E, E, E, E], 0).is_none());
    assert!(Game::from_cells([X, E, E, E, E, E, E, E, E], 1).is_some());
}

#[test]
fn up_then_down_returns_on_empty_board() {
    for start in 3..9u8 {
        let mut game = Game::from_cells([E; 9], start).unwrap();
        game.move_player(Direction::Up);
        assert_eq!(game.player_position(), start - 3);
        game.move_player(Direction::Down);
        assert_eq!(game.player_position(), start);
    }
}

#[test]
fn left_then_right_returns_on_empty_board() {
    for start in [1u8, 2, 4, 5, 7, 8] {
        let mut game = Game::from_cells([E; 9], start).unwrap();
        game.move_player(Direction::Left);
        assert_eq!(game.player_position(), start - 1);
        game.move_player(Direction::Right);
        assert_eq!(game.player_position(), start);
    }
}

#[test]
fn moves_stop_at_the_edges() {
    let mut game = Game::from_cells([E; 9], 0).unwrap();
    game.move_player(Direction::Up);
    assert_eq!(game.player_position(), 0);
    game.move_player(Direction::Left);
    assert_eq!(game.player_position(), 0);
    let mut game = Game::from_cells([E; 9], 8).unwrap();
    game.move_player(Direction::Down);
    assert_eq!(game.player_position(), 8);
    game.move_player(Direction::Right);
    assert_eq!(game.player_position(), 8);
}

#[test]
fn left_and_right_skip_marks_within_the_row() {
    let mut game = Game::from_cells([E, X, X, E, E, E, E, E, E], 0).unwrap();
    game.move_player(Direction::Right);
    assert_eq!(game.player_position(), 0);
    let mut game = Game::from_cells([E, O, E, E, E, E, E, E, E], 0).unwrap();
    game.move_player(Direction::Right);
    assert_eq!(game.player_position(), 2);
    game.move_player(Direction::Left);
    assert_eq!(game.player_position(), 0);
    let mut game = Game::from_cells([X, O, E, E, E, E, E, E, E], 2).unwrap();
    game.move_player(Direction::Left);
    assert_eq!(game.player_position(), 2);
}

#[test]
fn down_with_no_empty_cell_below_stays() {
    let mut game = Game::from_cells([E, E, E, X, X, X, O, O, O], 1).unwrap();
    game.move_player(Direction::Down);
    assert_eq!(game.player_position(), 1);
}

#[test]
fn player_token_relocates_cursor_to_lowest_empty_cell() {
    let mut game = Game::from_cells([X, E, E, E, E, E, E, E, E], 4).unwrap();
    game.place_player_token();
    assert_eq!(game.cell(4), X);
    assert_eq!(game.player_position(), 1);
    assert!(!game.game_over());
}

#[test]
fn computer_token_on_cursor_cell_relocates_cursor() {
    let mut game = Game::from_cells([X, E, E, E, E, E, E, E, E], 1).unwrap();
    game.place_computer_token_at(1);
    assert_eq!(game.cell(1), O);
    assert_eq!(game.player_position(), 2);
    game.place_computer_token_at(5);
    assert_eq!(game.cell(5), O);
    assert_eq!(game.player_position(), 2);
}

#[test]
fn computer_token_at_marked_or_outside_cell_does_nothing() {
    let mut game = Game::from_cells([X, E, E, E, E, E, E, E, E], 1).unwrap();
    let before = game.cells();
    game.place_computer_token_at(0);
    game.place_computer_token_at(9);
    assert_eq!(game.cells(), before);
    assert_eq!(game.player_position(), 1);
}

#[test]
fn last_computer_token_ends_the_game() {
    let mut game = Game::from_cells([X, O, X, O, X, O, O, X, E], 8).unwrap();
    game.place_computer_token();
    assert_eq!(game.cell(8), O);
    assert!(game.game_over());
    assert_eq!(game.player_position(), 10);
}

#[test]
fn last_player_token_ends_the_game() {
    let mut game = Game::from_cells([X, O, X, O, X, O, O, X, E], 8).unwrap();
    game.place_player_token();
    assert_eq!(game.cell(8), X);
    assert!(game.game_over());
}

#[test]
fn computer_token_marks_exactly_one_free_cell() {
    for _ in 0..200 {
        let mut game = Game::from_cells([X, E, O, E, X, E, E, O, E], 3).unwrap();
        let before = game.cells();
        game.place_computer_token();
        let after = game.cells();
        let changed: Vec<usize> = (0..9).filter(|&i| before[i] != after[i]).collect();
        assert_eq!(changed.len(), 1);
        assert_eq!(before[changed[0]], E);
        assert_eq!(after[changed[0]], O);
    }
}

#[test]
fn computer_token_on_full_board_does_nothing() {
    let mut game = Game::from_cells([X, O, X, O, X, O, O, X, E], 8).unwrap();
    game.place_player_token();
    let before = game.cells();
    game.place_computer_token();
    assert_eq!(game.cells(), before);
}

#[test]
fn playing_until_full_ends_game_and_keeps_marks() {
    for _ in 0..100 {
        let mut game = Game::new();
        let mut turns = 0;
        while !game.game_over() {
            game.apply_game_logic();
            game.place_player_token();
            game.place_computer_token();
            turns += 1;
            assert!(turns <= 5);
        }
        assert_eq!(count_marks(&game), 9);
        let full = game.cells();
        game.apply_game_logic();
        game.move_player(Direction::Up);
        game.move_player(Direction::Left);
        game.place_player_token();
        game.place_computer_token();
        game.apply_game_logic();
        assert_eq!(game.cells(), full);
        assert!(game.game_over());
    }
}

#[test]
fn apply_game_logic_paints_one_cursor() {
    let mut game = Game::new();
    game.apply_game_logic();
    assert_eq!(game.cell(0), CellState::Cursor);
    game.move_player(Direction::Right);
    game.apply_game_logic();
    assert_eq!(game.cell(0), E);
    assert_eq!(game.cell(1), CellState::Cursor);
    game.place_player_token();
    game.apply_game_logic();
    assert_eq!(game.cell(1), X);
    assert_eq!(game.cell(0), CellState::Cursor);
    let cursors = game.cells().iter().filter(|c| **c == CellState::Cursor).count();
    assert_eq!(cursors, 1);
}

#[test]
fn moves_and_commits_after_game_over_do_nothing() {
    let mut game = Game::from_cells([X, O, X, O, X, O, O, X, E], 8).unwrap();
    game.place_player_token();
    assert!(game.game_over());
    game.move_player(Direction::Left);
    game.move_player(Direction::Up);
    assert_eq!(game.player_position(), 10);
}

#[test]
fn glyphs() {
    assert_eq!(X.glyph(), 'X');
    assert_eq!(O.glyph(), 'O');
    assert_eq!(E.glyph(), ' ');
    assert_eq!(CellState::Cursor.glyph(), '*');
}
