use vstd::prelude::*;

use crate::board::{evaluate_outcome, outcome_of, Board};
use crate::mark::{is_player, opponent_of, Mark, Outcome};

verus! {

/// Why a move was refused.
#[derive(Clone, Copy, Debug, PartialEq, Eq, Structural)]
pub enum MoveError {
    /// The position is not a cell index (0 to 8).
    OutOfRange,
    /// The target cell already holds a mark.
    CellOccupied,
}

/// A game: the board, whose turn it is, and how the game stands.
#[derive(Clone, Copy, Debug, PartialEq, Eq)]
pub struct GameState {
    pub board: Board,
    pub active_player: Mark,
    pub outcome: Outcome,
}

impl GameState {
    /// The active player is one of the two players.
    pub open spec fn wf(&self) -> bool {
        is_player(self.active_player)
    }

    /// A fresh game: empty board, `first` to move, nothing decided.
    pub fn new(first: Mark) -> (r: GameState)
        requires
            is_player(first),
        ensures
            r.wf(),
            forall|i: int| 0 <= i < 9 ==> r.board@[i] == Mark::Empty,
            r.active_player == first,
            r.outcome == Outcome::InProgress,
    {
        GameState { board: Board::empty(), active_player: first, outcome: Outcome::InProgress }
    }
}

/// Why `position` cannot be played in `state`, if it cannot.
pub open spec fn move_rejection(state: GameState, position: int) -> Option<MoveError> {
    if !(0 <= position < 9) {
        Some(MoveError::OutOfRange)
    } else if state.board@[position] != Mark::Empty {
        Some(MoveError::CellOccupied)
    } else {
        None
    }
}

/// The cells after `m` is placed at `position`.
pub open spec fn placed(cells: Seq<Mark>, position: int, m: Mark) -> Seq<Mark> {
    cells.update(position, m)
}

/// `after` is the state reached when the active player of `before` takes
/// `position`: the mark is placed, the outcome recomputed for the mover, and
/// the turn passes to the opponent only while the game goes on.
pub open spec fn is_move_result(before: GameState, position: int, after: GameState) -> bool {
    let cells = placed(before.board@, position, before.active_player);
    let outcome = outcome_of(cells, before.active_player);
    &&& after.board@ == cells
    &&& after.outcome == outcome
    &&& after.active_player == if outcome is InProgress {
        opponent_of(before.active_player)
    } else {
        before.active_player
    }
}

/// Places the active player's mark at `step`, leaving turn and outcome as
/// they were; `None` when `step` is no cell or the cell is taken.
pub fn turn(state: GameState, step: usize) -> (r: Option<GameState>)
    ensures
        r is Some <==> move_rejection(state, step as int) is None,
        r matches Some(s) ==> {
            &&& s.board@ == placed(state.board@, step as int, state.active_player)
            &&& s.active_player == state.active_player
            &&& s.outcome == state.outcome
        },
{
    if step < 9 && state.board.cells[step] == Mark::Empty {
        let mut next = state;
        next.board.cells[step] = state.active_player;
        Some(next)
    } else {
        None
    }
}

/// The outcome of `state` judged for its active player, who is taken to
/// have just moved.
pub fn check_for_winner(state: GameState) -> (r: Outcome)
    ensures
        r == outcome_of(state.board@, state.active_player),
{
    evaluate_outcome(&state.board, state.active_player)
}

/// Plays the active player's mark at `position` and returns the next state,
/// or the reason the move is refused; a refused move changes nothing.
pub fn apply_move(state: GameState, position: usize) -> (r: Result<GameState, MoveError>)
    requires
        state.wf(),
    ensures
        move_rejection(state, position as int) matches Some(e) ==> r == Err::<GameState, MoveError>(e),
        move_rejection(state, position as int) is None ==> (r matches Ok(s) && is_move_result(
            state,
            position as int,
            s,
        ) && s.wf()),
{
    if position >= 9 {
        return Err(MoveError::OutOfRange);
    }
    match turn(state, position) {
        None => Err(MoveError::CellOccupied),
        Some(mut next) => {
            next.outcome = check_for_winner(next);
            if next.outcome == Outcome::InProgress {
                next.active_player = next.active_player.opponent();
            }
            Ok(next)
        },
    }
}

} // verus!
