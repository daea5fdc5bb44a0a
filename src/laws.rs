use vstd::prelude::*;

use crate::board::{all_occupied, has_line, line_owned, occupied_count, outcome_of, Board};
use crate::game::{is_move_result, move_rejection, GameState, MoveError};
use crate::mark::{is_player, opponent_of, win_for, Mark, Outcome};

verus! {

/// When the player who just moved holds all three cells of a winning line,
/// the outcome is that player's win.
pub proof fn lemma_completed_line_wins(board: Board, mover: Mark, k: int)
    requires
        is_player(mover),
        0 <= k < 8,
        line_owned(board@, k, mover),
    ensures
        outcome_of(board@, mover) == win_for(mover),
{
}

/// A full board on which neither player holds a line is a draw, whoever
/// moved last.
pub proof fn lemma_full_board_without_line_is_draw(board: Board, last_mover: Mark)
    requires
        all_occupied(board@),
        !has_line(board@, Mark::First),
        !has_line(board@, Mark::Second),
    ensures
        outcome_of(board@, last_mover) == Outcome::Draw,
{
}

/// An accepted move keeps the nine cells and occupies exactly one more.
pub proof fn lemma_move_adds_one_mark(before: GameState, position: int, after: GameState)
    requires
        before.wf(),
        move_rejection(before, position) is None,
        is_move_result(before, position, after),
    ensures
        after.board@.len() == 9,
        occupied_count(after.board@) == occupied_count(before.board@) + 1,
{
}

/// While the game goes on, each accepted move hands the turn to the other
/// player; the move that decides the game leaves the turn where it was.
pub proof fn lemma_turns_alternate(before: GameState, position: int, after: GameState)
    requires
        before.wf(),
        move_rejection(before, position) is None,
        is_move_result(before, position, after),
    ensures
        after.wf(),
        after.outcome is InProgress ==> after.active_player == opponent_of(before.active_player)
            && after.active_player != before.active_player,
        !(after.outcome is InProgress) ==> after.active_player == before.active_player,
{
}

/// A move onto an occupied cell is refused as occupied, and since a refusal
/// leaves the state as it was, asking again is refused the same way.
pub proof fn lemma_occupied_rejection_repeats(state: GameState, position: int)
    requires
        0 <= position < 9,
        state.board@[position] != Mark::Empty,
    ensures
        move_rejection(state, position) == Some(MoveError::CellOccupied),
{
}

} // verus!
