use tic_tac_toe::mark::Mark::{First as X, Second as O};
use tic_tac_toe::board::{evaluate_outcome, Board};
use tic_tac_toe::game::{apply_move, check_for_winner, turn, GameState, MoveError};
use tic_tac_toe::mark::{Mark, Outcome};
use tic_tac_toe::play::{
    announcement, new_game, parse_position, play_input, starting_player, ParseError, StepError,
};
use tic_tac_toe::render::{glyph, render_board, render_row};

fn play_all(first: Mark, moves: &[usize]) -> GameState {
    let mut state = GameState::new(first);
    for &p in moves {
        state = apply_move(state, p).expect("move accepted");
    }
    state
}

fn board_of(cells: [Mark; 9]) -> Board {
    Board { cells }
}

fn occupied(board: &Board) -> usize {
    board.cells.iter().filter(|m| **m != Mark::Empty).count()
}

#[test]
fn scenario_top_row_win_for_first() {
    let mut state = GameState::new(Mark::First);
    for &p in &[0usize, 3, 1, 4] {
        state = apply_move(state, p).unwrap();
        assert_eq!(state.outcome, Outcome::InProgress);
    }
    let end = apply_move(state, 2).unwrap();
    assert_eq!(end.outcome, Outcome::FirstWins);
    assert_eq!(end.active_player, Mark::First);
    assert_eq!(announcement(end.outcome), Some("X wins"));
}

#[test]
fn scenario_full_board_draw() {
    let before_last = play_all(Mark::First, &[0, 1, 2, 4, 3, 5, 7, 6]);
    assert_eq!(before_last.outcome, Outcome::InProgress);
    let end = apply_move(before_last, 8).unwrap();
    assert_eq!(end.outcome, Outcome::Draw);
    assert_eq!(occupied(&end.board), 9);
    assert_eq!(announcement(end.outcome), Some("Draw"));
}

#[test]
fn scenario_input_nine_is_out_of_range() {
    let state = GameState::new(Mark::Second);
    let (next, err) = play_input(state, "9");
    assert_eq!(err, Some(StepError::Parse(ParseError::OutOfRange)));
    assert_eq!(next, state);
    assert_eq!(next.active_player, Mark::Second);
}

#[test]
fn scenario_input_abc_is_malformed() {
    let state = play_all(Mark::First, &[4]);
    let (next, err) = play_input(state, "abc");
    assert_eq!(err, Some(StepError::Parse(ParseError::Malformed)));
    assert_eq!(next, state);
    assert_eq!(next.active_player, Mark::Second);
}

#[test]
fn play_input_accepts_a_move() {
    let state = GameState::new(Mark::First);
    let (next, err) = play_input(state, "4");
    assert_eq!(err, None);
    assert_eq!(next.board.cells[4], Mark::First);
    assert_eq!(next.active_player, Mark::Second);
}

#[test]
fn play_input_reports_occupied_cell() {
    let state = play_all(Mark::First, &[4]);
    let (next, err) = play_input(state, "4");
    assert_eq!(err, Some(StepError::Move(MoveError::CellOccupied)));
    assert_eq!(next, state);
}

#[test]
fn completed_line_wins_for_second() {
    // First: 0, 1, 8; Second: 2, 4, 6 completes the anti-diagonal.
    let state = play_all(Mark::First, &[0, 2, 1, 4, 8]);
    assert_eq!(state.active_player, Mark::Second);
    let end = apply_move(state, 6).unwrap();
    assert_eq!(end.outcome, Outcome::SecondWins);
    assert_eq!(end.active_player, Mark::Second);
    assert_eq!(announcement(end.outcome), Some("O wins"));
}

#[test]
fn every_line_is_detected() {
    let lines = [
        [0, 1, 2],
        [3, 4, 5],
        [6, 7, 8],
        [0, 3, 6],
        [1, 4, 7],
        [2, 5, 8],
        [0, 4, 8],
        [2, 4, 6],
    ];
    for line in lines {
        let mut cells = [Mark::Empty; 9];
        for i in line {
            cells[i] = Mark::Second;
        }
        let b = board_of(cells);
        assert_eq!(evaluate_outcome(&b, Mark::Second), Outcome::SecondWins);
        assert_eq!(evaluate_outcome(&b, Mark::First), Outcome::InProgress);
    }
}

#[test]
fn only_the_mover_is_checked() {
    let mut cells = [Mark::Empty; 9];
    cells[0] = Mark::First;
    cells[1] = Mark::First;
    cells[2] = Mark::First;
    let b = board_of(cells);
    assert_eq!(evaluate_outcome(&b, Mark::Second), Outcome::InProgress);
    assert_eq!(evaluate_outcome(&b, Mark::Empty), Outcome::InProgress);
}

#[test]
fn full_board_without_line_is_draw() {
    let b = board_of([X, O, X, X, O, O, O, X, X]);
    assert_eq!(evaluate_outcome(&b, Mark::First), Outcome::Draw);
    assert_eq!(evaluate_outcome(&b, Mark::Second), Outcome::Draw);
    assert_eq!(evaluate_outcome(&b, Mark::Empty), Outcome::Draw);
}

#[test]
fn full_board_with_line_is_a_win_not_a_draw() {
    let b = board_of([X, X, X, O, O, X, X, O, O]);
    assert_eq!(evaluate_outcome(&b, Mark::First), Outcome::FirstWins);
}

#[test]
fn empty_board_is_in_progress() {
    let b = Board::empty();
    assert_eq!(evaluate_outcome(&b, Mark::First), Outcome::InProgress);
    assert!(!b.is_full());
    assert!(!b.holds_line(Mark::First));
}

#[test]
fn move_adds_exactly_one_mark() {
    let mut state = GameState::new(Mark::Second);
    for (n, &p) in [8usize, 0, 4, 2].iter().enumerate() {
        let next = apply_move(state, p).unwrap();
        assert_eq!(next.board.cells.len(), 9);
        assert_eq!(occupied(&next.board), n + 1);
        assert_eq!(occupied(&next.board), occupied(&state.board) + 1);
        state = next;
    }
}

#[test]
fn out_of_range_move_is_rejected() {
    let state = play_all(Mark::First, &[0]);
    assert_eq!(apply_move(state, 9), Err(MoveError::OutOfRange));
    assert_eq!(apply_move(state, usize::MAX), Err(MoveError::OutOfRange));
    assert_eq!(turn(state, 9), None);
}

#[test]
fn occupied_move_is_rejected_every_time() {
    let state = play_all(Mark::First, &[0, 5]);
    let copy = state;
    let first = apply_move(state, 5);
    let second = apply_move(state, 5);
    assert_eq!(first, Err(MoveError::CellOccupied));
    assert_eq!(second, Err(MoveError::CellOccupied));
    assert_eq!(first, second);
    assert_eq!(state, copy);
}

#[test]
fn turns_alternate_until_decided() {
    let mut state = GameState::new(Mark::First);
    let moves = [0usize, 3, 1, 4];
    let mut expected = Mark::First;
    for &p in &moves {
        assert_eq!(state.active_player, expected);
        state = apply_move(state, p).unwrap();
        expected = if expected == Mark::First { Mark::Second } else { Mark::First };
    }
    assert_eq!(state.active_player, Mark::First);
    let end = apply_move(state, 2).unwrap();
    assert_eq!(end.active_player, Mark::First);
}

#[test]
fn turn_places_mark_only() {
    let state = GameState::new(Mark::Second);
    let next = turn(state, 7).unwrap();
    assert_eq!(next.board.cells[7], Mark::Second);
    assert_eq!(next.active_player, Mark::Second);
    assert_eq!(next.outcome, Outcome::InProgress);
    assert_eq!(turn(next, 7), None);
}

#[test]
fn check_for_winner_uses_active_player() {
    let mut state = GameState::new(Mark::First);
    state.board.cells[2] = Mark::First;
    state.board.cells[5] = Mark::First;
    state.board.cells[8] = Mark::First;
    assert_eq!(check_for_winner(state), Outcome::FirstWins);
    state.active_player = Mark::Second;
    assert_eq!(check_for_winner(state), Outcome::InProgress);
}

#[test]
fn outcome_from_mark() {
    assert_eq!(Outcome::from(Mark::First), Outcome::FirstWins);
    assert_eq!(Outcome::from(Mark::Second), Outcome::SecondWins);
    assert_eq!(Outcome::from(Mark::Empty), Outcome::InProgress);
    assert_eq!(Mark::First.opponent(), Mark::Second);
    assert_eq!(Mark::Second.opponent(), Mark::First);
}

#[test]
fn parse_positions() {
    assert_eq!(parse_position("0"), Ok(0));
    assert_eq!(parse_position("8"), Ok(8));
    assert_eq!(parse_position("007"), Ok(7));
    assert_eq!(parse_position("9"), Err(ParseError::OutOfRange));
    assert_eq!(parse_position("42"), Err(ParseError::OutOfRange));
    assert_eq!(
        parse_position("99999999999999999999999999"),
        Err(ParseError::OutOfRange)
    );
    assert_eq!(parse_position(""), Err(ParseError::Malformed));
    assert_eq!(parse_position("-1"), Err(ParseError::Malformed));
    assert_eq!(parse_position("3a"), Err(ParseError::Malformed));
    assert_eq!(parse_position("4 "), Err(ParseError::Malformed));
}

#[test]
fn render_empty_board() {
    let b = Board::empty();
    assert_eq!(render_row(&b, 0), "#|#|#   0 , 1 , 2");
    assert_eq!(
        render_board(&b),
        vec![
            "#|#|#   0 , 1 , 2".to_string(),
            "#|#|#   3 , 4 , 5".to_string(),
            "#|#|#   6 , 7 , 8".to_string(),
        ]
    );
}

#[test]
fn render_marks() {
    let state = play_all(Mark::First, &[0, 4, 8]);
    assert_eq!(
        render_board(&state.board),
        vec![
            "X|#|#   0 , 1 , 2".to_string(),
            "#|O|#   3 , 4 , 5".to_string(),
            "#|#|X   6 , 7 , 8".to_string(),
        ]
    );
    assert_eq!(glyph(Mark::Second), "O");
}

#[test]
fn announcement_in_progress_is_none() {
    assert_eq!(announcement(Outcome::InProgress), None);
}

#[test]
fn starting_player_from_draw() {
    assert_eq!(starting_player(0), Mark::First);
    assert_eq!(starting_player(1), Mark::Second);
}

#[test]
fn new_game_is_fresh() {
    for _ in 0..32 {
        let g = new_game();
        assert!(g.active_player == Mark::First || g.active_player == Mark::Second);
        assert_eq!(g.outcome, Outcome::InProgress);
        assert_eq!(g.board, Board::empty());
    }
}

