//! Board geometry: from a grid of cells to physical coordinates.
//!
//! A board of `n` cells along an axis is `n` tiles wide with a gap of one
//! unit between neighbouring tiles and around the outermost ones. Extents
//! are whole units. Coordinates are counted in half units, because the
//! centre of a board with an odd extent falls between two whole units.

use vstd::prelude::*;

verus! {

/// Width of a tile, in units.
pub const TILE_X_SIZE: u32 = 80;

/// Height of a tile, in units.
pub const TILE_Y_SIZE: u32 = 40;

/// Columns of the board that the game is played on.
pub const BOARD_COLUMNS: u8 = 11;

/// Rows of the board that the game is played on.
pub const BOARD_ROWS: u8 = 28;

/// The number of cells along each axis.
#[derive(Debug, Clone, Copy, PartialEq, Eq, Structural)]
pub struct Size {
    pub x: u8,
    pub y: u8,
}

/// The extent of the board along each axis, in units.
#[derive(Debug, Clone, Copy, PartialEq, Eq, Structural)]
pub struct Physical {
    pub x: u32,
    pub y: u32,
}

/// A place or an extent in the plane, both parts counted in half units.
#[derive(Debug, Clone, Copy, PartialEq, Eq, Structural)]
pub struct Point {
    pub x: i64,
    pub y: i64,
}

/// The board: its grid size and the physical extent that goes with it.
#[derive(Debug, Clone, Copy, PartialEq, Eq, Structural)]
pub struct Board {
    pub size: Size,
    pub physical: Physical,
}

/// The two axes of the board: `X` runs along the columns, `Y` along the
/// rows.
#[derive(Debug, Clone, Copy, PartialEq, Eq, Structural)]
pub enum Axis {
    X,
    Y,
}

/// The extent, in units, of `cells` tiles of `tile` units each with the gaps
/// between and around them.
pub open spec fn physical_extent(cells: u8, tile: u32) -> int {
    cells * tile + (cells + 1)
}

/// The size of a tile along `axis`, in units.
pub open spec fn tile_size(axis: Axis) -> int {
    match axis {
        Axis::X => TILE_X_SIZE as int,
        Axis::Y => TILE_Y_SIZE as int,
    }
}

impl Board {
    /// The physical extent is the one that the grid size asks for.
    pub open spec fn wf(&self) -> bool {
        &&& self.physical.x == physical_extent(self.size.x, TILE_X_SIZE)
        &&& self.physical.y == physical_extent(self.size.y, TILE_Y_SIZE)
    }

    /// The extent of the board along `axis`, in units.
    pub open spec fn extent(&self, axis: Axis) -> int {
        match axis {
            Axis::X => self.physical.x as int,
            Axis::Y => self.physical.y as int,
        }
    }

    /// The centre of cell `pos` along `axis`, measured from the centre of the
    /// board, in half units: minus half the extent, plus half a tile, plus
    /// `pos` tiles and `pos + 1` gaps.
    pub open spec fn cell_to_physical(&self, pos: u8, axis: Axis) -> int {
        tile_size(axis) - self.extent(axis) + 2 * (pos * tile_size(axis) + (pos + 1))
    }

    /// The centre of cell `pos` along `axis`, measured from the lower left
    /// corner of the board, in half units.
    pub open spec fn cell_center(&self, pos: u8, axis: Axis) -> int {
        self.extent(axis) + self.cell_to_physical(pos, axis)
    }

    /// The centre of the board, measured from its lower left corner.
    pub open spec fn center(&self) -> Point {
        Point { x: self.physical.x as i64, y: self.physical.y as i64 }
    }

    /// A board of `x_size` columns and `y_size` rows.
    pub fn new(x_size: u8, y_size: u8) -> (board: Self)
        ensures
            board.size == (Size { x: x_size, y: y_size }),
            board.physical.x == x_size * TILE_X_SIZE + (x_size + 1),
            board.physical.y == y_size * TILE_Y_SIZE + (y_size + 1),
            board.physical.x > 0,
            board.physical.y > 0,
            board.wf(),
    {
        let physical_x_size: u32 = x_size as u32 * TILE_X_SIZE + (x_size as u32 + 1);
        let physical_y_size: u32 = y_size as u32 * TILE_Y_SIZE + (y_size as u32 + 1);
        Board {
            size: Size { x: x_size, y: y_size },
            physical: Physical { x: physical_x_size, y: physical_y_size },
        }
    }

    /// The centre of cell `pos` along `axis`, measured from the centre of the
    /// board, in half units.
    pub fn u8_cell_to_physical(&self, pos: u8, axis: Axis) -> (coordinate: i64)
        ensures
            coordinate == self.cell_to_physical(pos, axis),
    {
        let (physical_size, tile_size): (u32, u32) = match axis {
            Axis::X => (self.physical.x, TILE_X_SIZE),
            Axis::Y => (self.physical.y, TILE_Y_SIZE),
        };
        let offset: i64 = tile_size as i64 - physical_size as i64;
        offset + 2 * (pos as i64 * tile_size as i64 + (pos as i64 + 1))
    }
}

/// Along either axis the coordinate of a cell grows strictly with its index.
pub proof fn cell_to_physical_is_monotonic(board: Board, low: u8, high: u8, axis: Axis)
    requires
        low < high,
    ensures
        board.cell_to_physical(low, axis) < board.cell_to_physical(high, axis),
{
    assert(low * tile_size(axis) <= high * tile_size(axis)) by (nonlinear_arith)
        requires
            low <= high,
            tile_size(axis) >= 0,
    ;
}

/// Neighbouring cells lie one tile and one gap apart.
pub proof fn cell_to_physical_step(board: Board, pos: u8, axis: Axis)
    requires
        pos < u8::MAX,
    ensures
        board.cell_to_physical((pos + 1) as u8, axis) - board.cell_to_physical(pos, axis) == 2
            * (tile_size(axis) + 1),
{
    assert((pos + 1) * tile_size(axis) == pos * tile_size(axis) + tile_size(axis))
        by (nonlinear_arith);
}

/// Measured from the lower left corner, a cell lies half a tile, `pos` tiles
/// and `pos + 1` gaps in, whatever the extent of the board: 41 units and 81
/// for every cell before it along the columns, 21 units and 41 for every
/// cell before it along the rows.
pub proof fn cell_center_is_fixed(board: Board, pos: u8, axis: Axis)
    ensures
        board.cell_center(pos, axis) == tile_size(axis) + 2 * (pos * tile_size(axis) + (pos + 1)),
        axis == Axis::X ==> board.cell_center(pos, axis) == 2 * (41 + 81 * pos),
        axis == Axis::Y ==> board.cell_center(pos, axis) == 2 * (21 + 41 * pos),
{
    let tile = tile_size(axis);
    assert(axis == Axis::X ==> pos * tile == 80 * pos) by (nonlinear_arith)
        requires
            axis == Axis::X ==> tile == 80,
    ;
    assert(axis == Axis::Y ==> pos * tile == 40 * pos) by (nonlinear_arith)
        requires
            axis == Axis::Y ==> tile == 40,
    ;
}

/// A board of at least `columns` columns and `rows` rows is at least as wide
/// and as high as the board of just that many.
pub proof fn larger_board_has_larger_extent(board: Board, columns: u8, rows: u8)
    requires
        board.wf(),
        board.size.x >= columns,
        board.size.y >= rows,
    ensures
        board.physical.x >= 81 * columns + 1,
        board.physical.y >= 41 * rows + 1,
{
    assert(board.size.x * TILE_X_SIZE == 80 * board.size.x) by (nonlinear_arith)
        requires
            TILE_X_SIZE == 80,
    ;
    assert(board.size.y * TILE_Y_SIZE == 40 * board.size.y) by (nonlinear_arith)
        requires
            TILE_Y_SIZE == 40,
    ;
}

} // verus!
