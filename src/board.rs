use vstd::prelude::*;

use crate::mark::{is_player, win_for, Mark, Outcome};

verus! {

/// The 3x3 grid, in row-major order: cell `p` is at row `p / 3`, column `p % 3`.
#[derive(Clone, Copy, Debug, PartialEq, Eq)]
pub struct Board {
    pub cells: [Mark; 9],
}

impl View for Board {
    type V = Seq<Mark>;

    open spec fn view(&self) -> Seq<Mark> {
        self.cells@
    }
}

/// The cells of the `k`-th winning line: three rows, three columns, two diagonals.
pub open spec fn line_cells(k: int) -> (int, int, int) {
    if k == 0 {
        (0, 1, 2)
    } else if k == 1 {
        (3, 4, 5)
    } else if k == 2 {
        (6, 7, 8)
    } else if k == 3 {
        (0, 3, 6)
    } else if k == 4 {
        (1, 4, 7)
    } else if k == 5 {
        (2, 5, 8)
    } else if k == 6 {
        (0, 4, 8)
    } else {
        (2, 4, 6)
    }
}

/// All three cells of line `k` hold `m`.
pub open spec fn line_owned(cells: Seq<Mark>, k: int, m: Mark) -> bool {
    let (a, b, c) = line_cells(k);
    cells[a] == m && cells[b] == m && cells[c] == m
}

/// Some winning line is held entirely by `m`.
pub open spec fn has_line(cells: Seq<Mark>, m: Mark) -> bool {
    ||| line_owned(cells, 0, m)
    ||| line_owned(cells, 1, m)
    ||| line_owned(cells, 2, m)
    ||| line_owned(cells, 3, m)
    ||| line_owned(cells, 4, m)
    ||| line_owned(cells, 5, m)
    ||| line_owned(cells, 6, m)
    ||| line_owned(cells, 7, m)
}

/// No cell is empty.
pub open spec fn all_occupied(cells: Seq<Mark>) -> bool {
    forall|i: int| 0 <= i < 9 ==> cells[i] != Mark::Empty
}

/// The outcome once `last_mover` has moved: a win if that player holds a
/// line, else a draw on a full board, else the game goes on.
pub open spec fn outcome_of(cells: Seq<Mark>, last_mover: Mark) -> Outcome {
    if is_player(last_mover) && has_line(cells, last_mover) {
        win_for(last_mover)
    } else if all_occupied(cells) {
        Outcome::Draw
    } else {
        Outcome::InProgress
    }
}

/// 1 for an occupied cell, 0 for an empty one.
pub open spec fn occupied(m: Mark) -> nat {
    if m is Empty {
        0
    } else {
        1
    }
}

/// How many of the nine cells are occupied.
pub open spec fn occupied_count(cells: Seq<Mark>) -> nat {
    occupied(cells[0]) + occupied(cells[1]) + occupied(cells[2]) + occupied(cells[3])
        + occupied(cells[4]) + occupied(cells[5]) + occupied(cells[6]) + occupied(cells[7])
        + occupied(cells[8])
}

/// The cell indices of the `k`-th winning line.
fn line_at(k: usize) -> (r: (usize, usize, usize))
    requires
        k < 8,
    ensures
        (r.0 as int, r.1 as int, r.2 as int) == line_cells(k as int),
        r.0 < 9 && r.1 < 9 && r.2 < 9,
{
    match k {
        0 => (0, 1, 2),
        1 => (3, 4, 5),
        2 => (6, 7, 8),
        3 => (0, 3, 6),
        4 => (1, 4, 7),
        5 => (2, 5, 8),
        6 => (0, 4, 8),
        _ => (2, 4, 6),
    }
}

impl Board {
    /// A board with every cell empty.
    pub fn empty() -> (r: Board)
        ensures
            forall|i: int| 0 <= i < 9 ==> r@[i] == Mark::Empty,
            r@.len() == 9,
    {
        Board { cells: [Mark::Empty;9] }
    }

    /// The mark in cell `position`.
    pub fn cell(&self, position: usize) -> (r: Mark)
        requires
            position < 9,
        ensures
            r == self@[position as int],
    {
        self.cells[position]
    }

    /// Whether `m` holds all three cells of some winning line.
    pub fn holds_line(&self, m: Mark) -> (r: bool)
        ensures
            r == has_line(self@, m),
    {
        let mut k: usize = 0;
        while k < 8
            invariant
                k <= 8,
                forall|j: int| 0 <= j < k ==> !line_owned(self@, j, m),
            decreases 8 - k,
        {
            let (a, b, c) = line_at(k);
            if self.cells[a] == m && self.cells[b] == m && self.cells[c] == m {
                assert(line_owned(self@, k as int, m));
                return true;
            }
            k += 1;
        }
        false
    }

    /// Whether every cell is occupied.
    pub fn is_full(&self) -> (r: bool)
        ensures
            r == all_occupied(self@),
    {
        let mut i: usize = 0;
        while i < 9
            invariant
                i <= 9,
                forall|j: int| 0 <= j < i ==> self@[j] != Mark::Empty,
            decreases 9 - i,
        {
            if self.cells[i] == Mark::Empty {
                return false;
            }
            i += 1;
        }
        true
    }
}

/// The outcome after `last_mover` has moved on `board`. Only the mover's
/// lines are examined: a single move can complete a line for no one else.
pub fn evaluate_outcome(board: &Board, last_mover: Mark) -> (r: Outcome)
    ensures
        r == outcome_of(board@, last_mover),
{
    if last_mover != Mark::Empty && board.holds_line(last_mover) {
        Outcome::from(last_mover)
    } else if board.is_full() {
        Outcome::Draw
    } else {
        Outcome::InProgress
    }
}

} // verus!
