use vstd::prelude::*;
use vstd::string::*;

use crate::board::Board;
use crate::mark::Mark;

verus! {

/// The glyph printed for a cell.
pub open spec fn glyph_text(m: Mark) -> Seq<char> {
    match m {
        Mark::First => "X"@,
        Mark::Second => "O"@,
        Mark::Empty => "#"@,
    }
}

/// The index legend printed to the right of row `row`.
pub open spec fn legend_text(row: int) -> Seq<char> {
    if row == 0 {
        "   0 , 1 , 2"@
    } else if row == 1 {
        "   3 , 4 , 5"@
    } else {
        "   6 , 7 , 8"@
    }
}

/// One printed row: three glyphs separated by `|`, then the legend.
pub open spec fn row_text(cells: Seq<Mark>, row: int) -> Seq<char> {
    glyph_text(cells[3 * row]) + "|"@ + glyph_text(cells[3 * row + 1]) + "|"@ + glyph_text(
        cells[3 * row + 2],
    ) + legend_text(row)
}

/// The glyph of a cell: `X` for the first player, `O` for the second, `#` when empty.
pub fn glyph(m: Mark) -> (r: &'static str)
    ensures
        r@ == glyph_text(m),
{
    match m {
        Mark::First => "X",
        Mark::Second => "O",
        Mark::Empty => "#",
    }
}

fn legend(row: usize) -> (r: &'static str)
    requires
        row < 3,
    ensures
        r@ == legend_text(row as int),
{
    if row == 0 {
        "   0 , 1 , 2"
    } else if row == 1 {
        "   3 , 4 , 5"
    } else {
        "   6 , 7 , 8"
    }
}

/// The text of row `row` of the board, e.g. `#|#|#   0 , 1 , 2` when empty.
pub fn render_row(board: &Board, row: usize) -> (r: String)
    requires
        row < 3,
    ensures
        r@ == row_text(board@, row as int),
{
    let mut s = String::from_str(glyph(board.cells[3 * row]));
    s.append("|");
    s.append(glyph(board.cells[3 * row + 1]));
    s.append("|");
    s.append(glyph(board.cells[3 * row + 2]));
    s.append(legend(row));
    s
}

/// The three printed lines of the board, top row first.
pub fn render_board(board: &Board) -> (r: Vec<String>)
    ensures
        r@.len() == 3,
        forall|i: int| 0 <= i < 3 ==> (#[trigger] r@[i])@ == row_text(board@, i),
{
    let mut lines: Vec<String> = Vec::new();
    let mut row: usize = 0;
    while row < 3
        invariant
            row <= 3,
            lines@.len() == row,
            forall|i: int| 0 <= i < row ==> (#[trigger] lines@[i])@ == row_text(board@, i),
        decreases 3 - row,
    {
        lines.push(render_row(board, row));
        row += 1;
    }
    lines
}

} // verus!
