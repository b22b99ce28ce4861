//! Setting the stage and laying out a fresh play session.
//!
//! A session starts with one ball, one paddle, the border of the playing
//! area, a despawn area beneath the paddle, and the blocks of the level.
//! Whatever an earlier session left is taken out first. All places derive
//! from the board; the paddle stands in a fixed row of it.

use vstd::prelude::*;

use crate::board::{cell_center_is_fixed, Axis, Board, Point};
use crate::custom_commands::{SpawnLevel, BALL_RADIUS};
use crate::Entity;

verus! {

/// The row of the board in which the paddle stands.
pub const PADDLE_ROW: u8 = 3;

/// How far above the paddle the ball starts, in half units.
pub const BALL_LIFT: i64 = 200;

/// How far the despawn area is pushed down, in half units, so that it lies
/// beneath the paddle and the two never meet.
pub const DESPAWN_DROP: i64 = 20;

/// Horizontal part of the velocity with which a ball is launched, in units
/// per second.
pub const LAUNCH_VELOCITY_X: i32 = 100;

/// Vertical part of the velocity with which a ball is launched, in units
/// per second.
pub const LAUNCH_VELOCITY_Y: i32 = 400;

/// The square of the speed that every steered ball is given: that of the
/// launch velocity.
pub const CANONICAL_SPEED_SQUARED: i32 = 170_000;

/// Width of the paddle, in half units.
pub const PADDLE_WIDTH: i64 = 400;

/// Height of the paddle, in half units.
pub const PADDLE_HEIGHT: i64 = 40;

/// Width of the line that draws the border, and the margin by which the
/// drawn border is larger than the playing area, in half units.
pub const BORDER_WIDTH: i64 = 20;

/// Width of the backdrop, in half units.
pub const BACKDROP_WIDTH: i64 = 7680;

/// Height of the backdrop, in half units.
pub const BACKDROP_HEIGHT: i64 = 4320;

/// By how much the camera scales the view.
pub const CAMERA_SCALE: u8 = 2;

/// The ball of a fresh session.
#[derive(Debug, Clone, Copy, PartialEq, Eq, Structural)]
pub struct BallStart {
    pub position: Point,
    /// Its velocity, in units per second.
    pub velocity_x: i32,
    pub velocity_y: i32,
    /// Radius of its shape and of its collider.
    pub radius: i64,
}

/// The paddle of a fresh session.
#[derive(Debug, Clone, Copy, PartialEq, Eq, Structural)]
pub struct PaddleStart {
    pub position: Point,
    /// Width and height of its sprite.
    pub size: Point,
    /// Half the width and half the height of its collider.
    pub half_extents: Point,
}

/// The four walls of the playing area.
#[derive(Debug, Clone, Copy, PartialEq, Eq)]
pub struct BorderStart {
    /// Centre of the drawn rectangle.
    pub center: Point,
    /// Width and height of the drawn rectangle.
    pub extents: Point,
    /// Width of the drawn line.
    pub line_width: i64,
    /// The corners of the walls, counter-clockwise from the origin.
    pub corners: [Point; 4],
    /// The walls, each by the numbers of the two corners it joins: a closed
    /// run through all four corners.
    pub walls: [[u32; 2]; 4],
}

/// The sensor beneath the paddle in which balls are lost.
#[derive(Debug, Clone, Copy, PartialEq, Eq, Structural)]
pub struct DespawnStart {
    pub position: Point,
    /// Half the width and half the height of its collider.
    pub half_extents: Point,
}

/// What entering play asks for, in the order in which it is carried out.
#[derive(Debug, PartialEq, Eq)]
pub struct NewGame {
    /// What is left of an earlier session.
    pub despawn: Vec<Entity>,
    pub ball: BallStart,
    pub paddle: PaddleStart,
    /// Width and height of the playing area, whose lower left corner is the
    /// origin.
    pub playing_area: Point,
    pub border: BorderStart,
    pub despawn_area: DespawnStart,
    pub level: SpawnLevel,
}

/// Where the camera looks and where the backdrop hangs.
#[derive(Debug, Clone, Copy, PartialEq, Eq, Structural)]
pub struct Stage {
    pub camera: Point,
    pub camera_scale: u8,
    pub backdrop: Point,
    pub backdrop_size: Point,
}

/// The launch velocity has the canonical speed.
pub proof fn launch_velocity_has_canonical_speed()
    ensures
        LAUNCH_VELOCITY_X * LAUNCH_VELOCITY_X + LAUNCH_VELOCITY_Y * LAUNCH_VELOCITY_Y
            == CANONICAL_SPEED_SQUARED,
{
}

/// The height at which the paddle stands: the centre of the paddle's row,
/// measured from the lower edge of the board, in half units.
pub open spec fn paddle_line(board: Board) -> int {
    board.cell_center(PADDLE_ROW, Axis::Y)
}

/// The paddle stands at the same height on every board: 144 units up.
pub proof fn paddle_line_is_fixed(board: Board)
    ensures
        paddle_line(board) == 288,
{
    cell_center_is_fixed(board, PADDLE_ROW, Axis::Y);
}

/// The camera looks at the centre of the board, and the backdrop hangs
/// there.
pub fn setup(board: &Board) -> (stage: Stage)
    ensures
        stage == (Stage {
            camera: board.center(),
            camera_scale: CAMERA_SCALE,
            backdrop: board.center(),
            backdrop_size: Point { x: BACKDROP_WIDTH, y: BACKDROP_HEIGHT },
        }),
{
    let center = Point { x: board.physical.x as i64, y: board.physical.y as i64 };
    Stage {
        camera: center,
        camera_scale: CAMERA_SCALE,
        backdrop: center,
        backdrop_size: Point { x: BACKDROP_WIDTH, y: BACKDROP_HEIGHT },
    }
}

/// Whether `game` is the fresh session on `board` that first takes out the
/// entities of `session`.
pub open spec fn is_new_game(game: NewGame, board: Board, session: Seq<Entity>) -> bool {
    &&& game.despawn@ == session
    &&& game.ball == (BallStart {
        position: Point { x: board.physical.x as i64, y: (paddle_line(board) + BALL_LIFT) as i64 },
        velocity_x: LAUNCH_VELOCITY_X,
        velocity_y: LAUNCH_VELOCITY_Y,
        radius: BALL_RADIUS,
    })
    &&& game.paddle == (PaddleStart {
        position: Point { x: board.physical.x as i64, y: paddle_line(board) as i64 },
        size: Point { x: PADDLE_WIDTH, y: PADDLE_HEIGHT },
        half_extents: Point { x: (PADDLE_WIDTH / 2) as i64, y: (PADDLE_HEIGHT / 2) as i64 },
    })
    &&& game.playing_area == (Point {
        x: (2 * board.physical.x) as i64,
        y: (2 * board.physical.y) as i64,
    })
    &&& game.border.center == board.center()
    &&& game.border.extents == (Point {
        x: (2 * board.physical.x + BORDER_WIDTH) as i64,
        y: (2 * board.physical.y + BORDER_WIDTH) as i64,
    })
    &&& game.border.line_width == BORDER_WIDTH
    &&& game.border.corners@ == seq![
        Point { x: 0, y: 0 },
        Point { x: game.playing_area.x, y: 0 },
        game.playing_area,
        Point { x: 0, y: game.playing_area.y },
    ]
    &&& forall|i: int|
        0 <= i < 4 ==> (#[trigger] game.border.walls@[i])@ == seq![i as u32, ((i + 1) % 4) as u32]
    &&& game.despawn_area == (DespawnStart {
        position: Point {
            x: board.physical.x as i64,
            y: (paddle_line(board) / 2 - DESPAWN_DROP) as i64,
        },
        half_extents: Point { x: board.physical.x as i64, y: (paddle_line(board) / 2) as i64 },
    })
    &&& game.level == (SpawnLevel { level: 1 })
}

/// Lays out a fresh session on `board`; `session` names the entities that
/// an earlier session left.
///
/// The ball and the paddle stand in the middle of the board, the paddle in
/// its row and the ball above it; the walls run round the playing area; the
/// despawn area spans the board beneath the paddle.
pub fn spawn_new_game(board: &Board, session: &Vec<Entity>) -> (game: NewGame)
    ensures
        is_new_game(game, *board, session@),
{
    let center_x: i64 = board.physical.x as i64;
    let paddle_y: i64 = board.physical.y as i64 + board.u8_cell_to_physical(PADDLE_ROW, Axis::Y);
    let area = Point { x: 2 * board.physical.x as i64, y: 2 * board.physical.y as i64 };
    NewGame {
        despawn: session.clone(),
        ball: BallStart {
            position: Point { x: center_x, y: paddle_y + BALL_LIFT },
            velocity_x: LAUNCH_VELOCITY_X,
            velocity_y: LAUNCH_VELOCITY_Y,
            radius: BALL_RADIUS,
        },
        paddle: PaddleStart {
            position: Point { x: center_x, y: paddle_y },
            size: Point { x: PADDLE_WIDTH, y: PADDLE_HEIGHT },
            half_extents: Point { x: PADDLE_WIDTH / 2, y: PADDLE_HEIGHT / 2 },
        },
        playing_area: area,
        border: BorderStart {
            center: Point { x: center_x, y: board.physical.y as i64 },
            extents: Point { x: area.x + BORDER_WIDTH, y: area.y + BORDER_WIDTH },
            line_width: BORDER_WIDTH,
            corners: [
                Point { x: 0, y: 0 },
                Point { x: area.x, y: 0 },
                area,
                Point { x: 0, y: area.y },
            ],
            walls: [[0, 1], [1, 2], [2, 3], [3, 0]],
        },
        despawn_area: DespawnStart {
            position: Point { x: center_x, y: paddle_y / 2 - DESPAWN_DROP },
            half_extents: Point { x: center_x, y: paddle_y / 2 },
        },
        level: SpawnLevel { level: 1 },
    }
}

} // verus!
