//! Requests to bring entities into the game or to take them out of it.
//!
//! The rules never touch the entities themselves: they answer with
//! commands, which the owner of the entities carries out after the tick.
//! What a spawn request puts into the world is given by its `write`.

use vstd::prelude::*;

use crate::blocks::{Block, Color};
use crate::board::{
    cell_center_is_fixed,
    larger_board_has_larger_extent,
    Axis,
    Board,
    Point,
    BOARD_COLUMNS,
    BOARD_ROWS,
    TILE_X_SIZE,
    TILE_Y_SIZE,
};
use crate::levels::{level_1, level_1_row, Level, LEVEL_COLUMNS, LEVEL_ROWS};
use crate::{Damage, Entity, Powerup};

verus! {

/// Radius of a ball, in half units.
pub const BALL_RADIUS: i64 = 20;

/// Radius of the capsule of a powerup, in half units.
pub const POWERUP_RADIUS: i64 = 20;

/// Half the length of the straight part of a powerup's capsule, in half
/// units.
pub const POWERUP_HALF_HEIGHT: i64 = 40;

/// The velocity that a powerup is given, in units per second: straight
/// down.
pub const POWERUP_VELOCITY_Y: i32 = -400;

/// A further ball, split off a ball in play: it starts where `source` is and
/// is steered by `x_diff`, in units, as if it had met the paddle that far
/// from the paddle's centre.
#[derive(Debug, Clone, Copy, PartialEq, Eq, Structural)]
pub struct SpawnBall {
    pub source: Entity,
    pub x_diff: i32,
}

/// A powerup of the given kind, dropped at `position`.
#[derive(Debug, Clone, Copy, PartialEq, Eq, Structural)]
pub struct SpawnPowerup {
    pub position: Point,
    pub powerup: Powerup,
}

/// The blocks of a level.
#[derive(Debug, Clone, Copy, PartialEq, Eq, Structural)]
pub struct SpawnLevel {
    pub level: usize,
}

/// A request raised by the rules during a tick.
#[derive(Debug, Clone, Copy, PartialEq, Eq, Structural)]
pub enum Command {
    /// Take the entity, and all that hangs on it, out of the game.
    Despawn(Entity),
    SpawnBall(SpawnBall),
    SpawnPowerup(SpawnPowerup),
    SpawnLevel(SpawnLevel),
}

/// What a split-off ball is made of.
#[derive(Debug, Clone, Copy, PartialEq, Eq, Structural)]
pub struct BallBundle {
    /// The ball whose place and vertical velocity the new ball takes over.
    pub source: Entity,
    /// The steering offset, in units.
    pub x_diff: i32,
    /// Radius of its shape and of its collider, in half units.
    pub radius: i64,
}

/// What a dropped powerup is made of.
#[derive(Debug, Clone, Copy, PartialEq, Eq, Structural)]
pub struct PowerupBundle {
    pub position: Point,
    pub powerup: Powerup,
    /// Radius of its capsule, in half units.
    pub radius: i64,
    /// Half the length of the straight part of its capsule, in half units.
    pub half_height: i64,
    /// Its velocity, in units per second.
    pub velocity_x: i32,
    pub velocity_y: i32,
}

/// What a block of a level is made of.
#[derive(Debug, Clone, Copy, PartialEq, Eq, Structural)]
pub struct BlockBundle {
    pub block: Block,
    pub color: Color,
    pub damage: Damage,
    /// Its centre.
    pub position: Point,
    /// Width and height of its sprite.
    pub size: Point,
    /// Half the width and half the height of its collider, which covers the
    /// tile exactly.
    pub half_extents: Point,
}

/// The block of cell (`row`, `column`) of a level: it stands on the centre
/// of row `BOARD_ROWS - row` and column `BOARD_COLUMNS - 1 - column` of the
/// board. So the columns of a level run from the rightmost column of the
/// board to the leftmost, and its rows run down from the row above the
/// board's topmost: the top row of a level has no row of the board to stand
/// in.
pub open spec fn block_at(board: Board, row: int, column: int, block: Block) -> BlockBundle {
    BlockBundle {
        block,
        color: block.spec_color(),
        damage: Damage(0),
        position: Point {
            x: board.cell_center((BOARD_COLUMNS - 1 - column) as u8, Axis::X) as i64,
            y: board.cell_center((BOARD_ROWS - row) as u8, Axis::Y) as i64,
        },
        size: Point { x: (2 * TILE_X_SIZE) as i64, y: (2 * TILE_Y_SIZE) as i64 },
        half_extents: Point { x: TILE_X_SIZE as i64, y: TILE_Y_SIZE as i64 },
    }
}

/// The blocks of the first `cells` cells of `level`, cells counted row by
/// row: one block for every cell that is not empty, in that order.
pub open spec fn level_blocks(board: Board, level: Level, cells: nat) -> Seq<BlockBundle>
    decreases cells,
{
    if cells == 0 {
        Seq::empty()
    } else {
        let before = level_blocks(board, level, (cells - 1) as nat);
        let row = (cells - 1) / LEVEL_COLUMNS as int;
        let column = (cells - 1) % LEVEL_COLUMNS as int;
        match level@[row]@[column] {
            Some(block) => before.push(block_at(board, row, column, block)),
            None => before,
        }
    }
}

/// The blocks of `level` on `board`, row by row.
pub fn spawn_blocks(level: &Level, board: &Board) -> (blocks: Vec<BlockBundle>)
    ensures
        blocks@ == level_blocks(*board, *level, (LEVEL_ROWS * LEVEL_COLUMNS) as nat),
{
    let mut blocks: Vec<BlockBundle> = Vec::new();
    let mut row_index: usize = 0;
    while row_index < LEVEL_ROWS
        invariant
            row_index <= LEVEL_ROWS,
            blocks@ == level_blocks(*board, *level, (row_index * LEVEL_COLUMNS) as nat),
        decreases LEVEL_ROWS - row_index,
    {
        let mut column_index: usize = 0;
        while column_index < LEVEL_COLUMNS
            invariant
                row_index < LEVEL_ROWS,
                column_index <= LEVEL_COLUMNS,
                blocks@ == level_blocks(
                    *board,
                    *level,
                    (row_index * LEVEL_COLUMNS + column_index) as nat,
                ),
            decreases LEVEL_COLUMNS - column_index,
        {
            if let Some(block) = level[row_index][column_index] {
                let x: i64 = board.physical.x as i64 + board.u8_cell_to_physical(
                    BOARD_COLUMNS - 1 - column_index as u8,
                    Axis::X,
                );
                let y: i64 = board.physical.y as i64 + board.u8_cell_to_physical(
                    BOARD_ROWS - row_index as u8,
                    Axis::Y,
                );
                blocks.push(
                    BlockBundle {
                        block,
                        color: block.color(),
                        damage: Damage(0),
                        position: Point { x, y },
                        size: Point { x: 2 * TILE_X_SIZE as i64, y: 2 * TILE_Y_SIZE as i64 },
                        half_extents: Point { x: TILE_X_SIZE as i64, y: TILE_Y_SIZE as i64 },
                    },
                );
            }
            column_index += 1;
        }
        row_index += 1;
    }
    blocks
}

impl SpawnBall {
    /// What the requested ball is made of.
    pub fn write(self) -> (ball: BallBundle)
        ensures
            ball == (BallBundle { source: self.source, x_diff: self.x_diff, radius: BALL_RADIUS }),
    {
        BallBundle { source: self.source, x_diff: self.x_diff, radius: BALL_RADIUS }
    }
}

impl SpawnPowerup {
    /// What the requested powerup is made of.
    pub fn write(self) -> (powerup: PowerupBundle)
        ensures
            powerup == (PowerupBundle {
                position: self.position,
                powerup: self.powerup,
                radius: POWERUP_RADIUS,
                half_height: POWERUP_HALF_HEIGHT,
                velocity_x: 0,
                velocity_y: POWERUP_VELOCITY_Y,
            }),
    {
        PowerupBundle {
            position: self.position,
            powerup: self.powerup,
            radius: POWERUP_RADIUS,
            half_height: POWERUP_HALF_HEIGHT,
            velocity_x: 0,
            velocity_y: POWERUP_VELOCITY_Y,
        }
    }
}

/// On a board of at least the columns and rows of the game's board, the
/// block of every cell of a level below the level's top row lies inside the
/// walls and at least one unit away from each of them.
pub proof fn block_keeps_off_the_walls(board: Board, row: int, column: int, block: Block)
    requires
        board.wf(),
        board.size.x >= BOARD_COLUMNS,
        board.size.y >= BOARD_ROWS,
        1 <= row < LEVEL_ROWS,
        0 <= column < LEVEL_COLUMNS,
    ensures
        ({
            let bundle = block_at(board, row, column, block);
            &&& 2 <= bundle.position.x - bundle.half_extents.x
            &&& bundle.position.x + bundle.half_extents.x <= 2 * board.physical.x - 2
            &&& 2 <= bundle.position.y - bundle.half_extents.y
            &&& bundle.position.y + bundle.half_extents.y <= 2 * board.physical.y - 2
        }),
{
    larger_board_has_larger_extent(board, BOARD_COLUMNS, BOARD_ROWS);
    cell_center_is_fixed(board, (BOARD_COLUMNS - 1 - column) as u8, Axis::X);
    cell_center_is_fixed(board, (BOARD_ROWS - row) as u8, Axis::Y);
}

/// The blocks of the first level on `board`: the six filled rows, from the
/// fifth row of the level down, eleven blocks each, row by row.
pub open spec fn first_level_blocks(board: Board) -> Seq<BlockBundle> {
    Seq::new(
        66,
        |k: int| block_at(board, 4 + k / 11, k % 11, level_1_row(4 + k / 11).unwrap()),
    )
}

impl SpawnLevel {
    /// The blocks that the request puts on `board`. Whatever `level` says,
    /// they are those of the first level.
    pub fn write(self, board: &Board) -> (blocks: Vec<BlockBundle>)
        ensures
            blocks@ == first_level_blocks(*board),
    {
        let level = level_1();
        let blocks = spawn_blocks(&level, board);
        proof {
            level_1_blocks(*board, level, 110);
            assert(blocks@ =~= first_level_blocks(*board));
        }
        blocks
    }
}

/// Every block of the first level stands on the centre of its cell: block
/// `k` in column `10 - k % 11` and row `24 - k / 11` of the board, that is
/// `41 + 81 * column` units from the left wall and `21 + 41 * row` units
/// from the lower one, whatever the extent of the board.
pub proof fn first_level_stands_in_its_cells(board: Board, k: int)
    requires
        0 <= k < 66,
    ensures
        first_level_blocks(board)[k].position.x == 2 * (41 + 81 * (10 - k % 11)),
        first_level_blocks(board)[k].position.y == 2 * (21 + 41 * (24 - k / 11)),
        first_level_blocks(board)[k].half_extents == (Point { x: 80, y: 40 }),
{
    let row = 4 + k / 11;
    let column = k % 11;
    cell_center_is_fixed(board, (BOARD_COLUMNS - 1 - column) as u8, Axis::X);
    cell_center_is_fixed(board, (BOARD_ROWS - row) as u8, Axis::Y);
}

/// On a board of at least the columns and rows of the game's board, every
/// block of the first level lies inside the walls and at least one unit
/// away from each of them.
pub proof fn first_level_keeps_off_the_walls(board: Board, k: int)
    requires
        board.wf(),
        board.size.x >= BOARD_COLUMNS,
        board.size.y >= BOARD_ROWS,
        0 <= k < 66,
    ensures
        ({
            let block = first_level_blocks(board)[k];
            &&& 2 <= block.position.x - block.half_extents.x
            &&& block.position.x + block.half_extents.x <= 2 * board.physical.x - 2
            &&& 2 <= block.position.y - block.half_extents.y
            &&& block.position.y + block.half_extents.y <= 2 * board.physical.y - 2
        }),
{
    block_keeps_off_the_walls(board, 4 + k / 11, k % 11, level_1_row(4 + k / 11).unwrap());
}

/// No two blocks of the first level touch: along one axis at least, their
/// centres are a whole block and a gap of one unit apart, or more.
pub proof fn first_level_keeps_its_gaps(board: Board, j: int, k: int)
    requires
        0 <= j < k < 66,
    ensures
        ({
            let one = first_level_blocks(board)[j];
            let other = first_level_blocks(board)[k];
            ||| one.position.x - other.position.x >= one.size.x + 2
            ||| other.position.x - one.position.x >= one.size.x + 2
            ||| one.position.y - other.position.y >= one.size.y + 2
        }),
{
    first_level_stands_in_its_cells(board, j);
    first_level_stands_in_its_cells(board, k);
}

/// The first level's blocks: none in the four empty rows, then one for every
/// cell.
proof fn level_1_blocks(board: Board, level: Level, cells: nat)
    requires
        crate::levels::is_level_1(level),
        cells <= 110,
    ensures
        level_blocks(board, level, cells).len() == if cells <= 44 {
            0
        } else {
            cells - 44
        },
        forall|k: int|
            0 <= k < cells - 44 ==> #[trigger] level_blocks(board, level, cells)[k] == block_at(
                board,
                4 + k / 11,
                k % 11,
                level_1_row(4 + k / 11).unwrap(),
            ),
    decreases cells,
{
    if cells > 0 {
        level_1_blocks(board, level, (cells - 1) as nat);
        let row = (cells - 1) / 11;
        let column = (cells - 1) % 11;
        assert(level@[row]@[column] == level_1_row(row));
    }
}

} // verus!
