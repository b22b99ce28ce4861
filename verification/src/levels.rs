//! Level layouts: which tier stands in which cell.

use vstd::prelude::*;

use crate::blocks::Block;

verus! {

/// Rows of a level.
pub const LEVEL_ROWS: usize = 10;

/// Columns of a level.
pub const LEVEL_COLUMNS: usize = 11;

/// The tier of every cell of a level, row by row from the top; `None` is an
/// empty cell.
pub type Level = [[Option<Block>; 11]; 10];

/// The tier that fills a whole row of the first level: four empty rows,
/// then silver, red, blue, orange, pink and green.
pub open spec fn level_1_row(row: int) -> Option<Block> {
    if row == 4 {
        Some(Block::Silver)
    } else if row == 5 {
        Some(Block::Red)
    } else if row == 6 {
        Some(Block::Blue)
    } else if row == 7 {
        Some(Block::Orange)
    } else if row == 8 {
        Some(Block::Pink)
    } else if row == 9 {
        Some(Block::Green)
    } else {
        None
    }
}

/// Whether every cell of `level` holds the tier of its row in the first
/// level.
pub open spec fn is_level_1(level: Level) -> bool {
    forall|row: int, column: int|
        0 <= row < LEVEL_ROWS && 0 <= column < LEVEL_COLUMNS ==> #[trigger] level@[row]@[column]
            == level_1_row(row)
}

/// The first level: every row is of one tier.
pub fn level_1() -> (level: Level)
    ensures
        is_level_1(level),
{
    [
        [None; 11],
        [None; 11],
        [None; 11],
        [None; 11],
        [Some(Block::Silver); 11],
        [Some(Block::Red); 11],
        [Some(Block::Blue); 11],
        [Some(Block::Orange); 11],
        [Some(Block::Pink); 11],
        [Some(Block::Green); 11],
    ]
}

} // verus!
