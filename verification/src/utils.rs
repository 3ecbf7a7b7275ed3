//! Components and helpers of the platformer revision: entity markers, the
//! visible grid's dimensions, and the mapping from screen coordinates to
//! world coordinates.

use vstd::prelude::*;

use crate::geometry::Vec2i;
use crate::shared::{UNIT, WINDOW_HEIGHT, WINDOW_WIDTH};

verus! {

/// Visible grid rows. The bottom row is zero; rows can also lie above or
/// below the visible ones.
pub const GRID_ROWS: u32 = 10;

/// Visible grid columns.
pub const GRID_COLS: u32 = 10;

/// Width of one grid cell, in subunits: the window split over the
/// columns.
pub const UNIT_WIDTH: i64 = 92 * UNIT;

/// Height of one grid cell, in subunits: the window split over the rows.
pub const UNIT_HEIGHT: i64 = 92 * UNIT;

/// Map a screen coordinate, measured from the window's bottom-left
/// corner, to the world coordinate measured from its centre.
pub fn screen_to_world(screen_coord: Vec2i) -> (w: Vec2i)
    requires
        screen_coord.wf(),
    ensures
        w.x == screen_coord.x - WINDOW_WIDTH as int / 2,
        w.y == screen_coord.y - WINDOW_HEIGHT as int / 2,
{
    Vec2i { x: screen_coord.x - WINDOW_WIDTH / 2, y: screen_coord.y - WINDOW_HEIGHT / 2 }
}

/// The last place the pointer was seen, in world coordinates.
#[derive(Debug)]
pub struct MouseLocation(pub Vec2i);

/// Marks the player's avatar.
pub struct Player;

/// Marks a solid obstacle.
pub struct Obstacle;

/// Marks a projectile.
pub struct Bullet;

/// Displacement per tick, in subunits.
#[derive(Debug)]
pub struct Velocity(pub Vec2i);

/// Change of velocity per tick, in subunits.
#[derive(Debug)]
pub struct Acceleration(pub Vec2i);

/// Marks one cell of the level grid.
#[derive(Default)]
pub struct Tile;

/// Which way the avatar faces or moves.
#[derive(Clone, Copy, PartialEq, Eq, Structural)]
pub enum Direction {
    LEFT,
    RIGHT,
    UP,
    DOWN,
}

/// What the avatar is doing.
#[derive(Clone, Copy, Debug, PartialEq, Eq, Structural)]
pub enum PlayerState {
    WALKING,
    RUNNING,
    IDLE,
    JUMPING,
}

} // verus!
