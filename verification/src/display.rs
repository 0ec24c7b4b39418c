//! The compute half of rendering: mapping the ball's track position to a
//! discrete column and laying out one row of cells.

use vstd::prelude::*;
use crate::game::TRACK;

verus! {

/// Width of the rendered track, in columns.
pub const COLUMNS: i64 = 64;

/// `n / TRACK` rounded to the nearest integer, halves away from zero.
pub open spec fn rounded_track_div(n: int) -> int {
    if n >= 0 {
        (n + TRACK / 2) / (TRACK as int)
    } else {
        -((-n + TRACK / 2) / (TRACK as int))
    }
}

/// The column nearest to the ball's position: `COLUMNS * ball` thousandths
/// of a column, rounded to the nearest whole column.
pub open spec fn column_of(ball: int) -> int {
    rounded_track_div(COLUMNS * ball)
}

/// Maps the ball's position to the nearest display column.
pub fn ball_column(ball: i64) -> (col: i64)
    requires
        COLUMNS * ball <= i64::MAX - TRACK / 2,
        -(i64::MAX - TRACK / 2) <= COLUMNS * ball,
    ensures
        col == column_of(ball as int),
{
    let n: i64 = COLUMNS * ball;
    if n >= 0 {
        (n + TRACK / 2) / TRACK
    } else {
        -((-n + TRACK / 2) / TRACK)
    }
}

/// The character a cell shows: the ball's marker in its column, blank
/// elsewhere.
pub open spec fn cell_char(i: int, col: int) -> char {
    if i == col {
        '@'
    } else {
        ' '
    }
}

/// One row of the track, `COLUMNS` cells wide, with the ball's marker in
/// the column nearest its position and every other cell blank. A ball
/// whose column falls outside the row leaves the row entirely blank.
pub fn render_row(ball: i64) -> (row: Vec<char>)
    requires
        COLUMNS * ball <= i64::MAX - TRACK / 2,
        -(i64::MAX - TRACK / 2) <= COLUMNS * ball,
    ensures
        row@.len() == COLUMNS,
        forall|j: int| 0 <= j < COLUMNS ==> row@[j] == cell_char(j, column_of(ball as int)),
{
    let col = ball_column(ball);
    let mut row: Vec<char> = Vec::new();
    let mut i: i64 = 0;
    while i < COLUMNS
        invariant
            0 <= i <= COLUMNS,
            row@.len() == i,
            col == column_of(ball as int),
            forall|j: int| 0 <= j < i ==> row@[j] == cell_char(j, col as int),
        decreases COLUMNS - i,
    {
        if i == col {
            row.push('@');
        } else {
            row.push(' ');
        }
        i = i + 1;
    }
    row
}

} // verus!
