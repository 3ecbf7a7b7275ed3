//! The player's ship: its constants, movement and clamping, the torch
//! cooldowns it fires from, the hits it takes from alien bullets, and the
//! row of hearts that shows its health.

use vstd::prelude::*;

use crate::aliens::BulletState;
use crate::geometry::{coord_ok, spec_collide, collide, clamp_coord, Vec2i};
use crate::shared::{
    Bullet, Health, BOTTOM_WALL, LEFT_WALL, RIGHT_WALL, STEP_SCALE, TOP_WALL, UNIT, WALL_THICKNESS,
    WINDOW_WIDTH,
};

verus! {

pub const SHIP_WIDTH: i64 = 120 * UNIT;

pub const SHIP_HEIGHT: i64 = 80 * UNIT;

pub const SHIP_COLLISION_WIDTH: i64 = 110 * UNIT;

pub const SHIP_COLLISION_HEIGHT: i64 = 70 * UNIT;

pub const GAP_BETWEEN_SHIP_AND_FLOOR: i64 = 5 * UNIT;

/// World units per second.
pub const SHIP_SPEED: i64 = 450;

pub const SHOOTING_COOLDOWN_MS: u64 = 1200;

pub const SHIP_BULLET_WIDTH: i64 = 33 * UNIT;

pub const SHIP_BULLET_HEIGHT: i64 = 70 * UNIT;

pub const SHIP_BULLET_FLASH_WIDTH: i64 = 33 * UNIT;

pub const SHIP_BULLET_FLASH_HEIGHT: i64 = 70 * UNIT;

pub const INITIAL_HEALTH_POINTS: u32 = 8;

pub const SHIP_WALK_FRAME_DURATION_IN_MILLIS: u64 = 200;

pub const HIT_MARKER_WIDTH: i64 = 25 * UNIT;

pub const HIT_MARKER_HEIGHT: i64 = 25 * UNIT;

pub const HIT_MARKER_DURATION_MS: u64 = 750;

pub const HEART_WIDTH: i64 = 30 * UNIT;

pub const HEART_HEIGHT: i64 = 30 * UNIT;

pub const HEART_CORNER_OFFSET_X: i64 = 25 * UNIT;

pub const HEART_CORNER_OFFSET_Y: i64 = 25 * UNIT;

pub const HEART_PADDING_RIGHT: i64 = 10 * UNIT;

/// Marks the player's ship.
pub struct Ship;

/// The two claws the ship fires from.
#[derive(Clone, Copy, Debug, PartialEq, Eq, Structural)]
pub enum Torch {
    Left,
    Right,
}

/// What the ship's pilot is doing.
#[derive(Clone, Copy, Debug, PartialEq, Eq, Structural)]
pub enum FerrisState {
    WALKING,
    IDLE,
    DEAD,
}

/// One heart of the health display, numbered from one.
pub struct HealthDisplayHeart(pub u32);

/// Movement decision from the held keys: left wins over right, and either
/// sets the pilot walking; with neither held the pilot idles.
pub fn ship_direction(move_left: bool, move_right: bool) -> (r: (i64, FerrisState))
    ensures
        move_left ==> r.0 == -1 && r.1 == FerrisState::WALKING,
        !move_left && move_right ==> r.0 == 1 && r.1 == FerrisState::WALKING,
        !move_left && !move_right ==> r.0 == 0 && r.1 == FerrisState::IDLE,
{
    if move_left {
        (-1, FerrisState::WALKING)
    } else if move_right {
        (1, FerrisState::WALKING)
    } else {
        (0, FerrisState::IDLE)
    }
}

/// One tick of ship motion: advance by the chosen direction at ship
/// speed, then clamp so the collider stays between the walls.
pub fn update_ship_position(x: i64, direction: i64, collider_width: i64) -> (nx: i64)
    requires
        coord_ok(x),
        -1 <= direction <= 1,
        0 <= collider_width,
        collider_width + 2 * WALL_THICKNESS <= WINDOW_WIDTH,
    ensures
        ({
            let moved = x + direction * SHIP_SPEED * STEP_SCALE;
            let lo = LEFT_WALL + collider_width / 2 + WALL_THICKNESS;
            let hi = RIGHT_WALL - collider_width / 2 - WALL_THICKNESS;
            nx == if moved < lo {
                lo
            } else if moved > hi {
                hi
            } else {
                moved
            }
        }),
{
    let step = crate::shared::per_tick(SHIP_SPEED);
    proof {
        assert(SHIP_SPEED * STEP_SCALE == 45000) by (nonlinear_arith)
            requires
                SHIP_SPEED == 450i64,
                STEP_SCALE == 100i64,
        ;
        assert(direction * (SHIP_SPEED * STEP_SCALE) == direction * 45000);
    }
    let moved = if direction == 1 {
        x + step
    } else if direction == -1 {
        x - step
    } else {
        x
    };
    let lo = LEFT_WALL + collider_width / 2 + WALL_THICKNESS;
    let hi = RIGHT_WALL - collider_width / 2 - WALL_THICKNESS;
    clamp_coord(moved, lo, hi)
}

/// A torch fires when its cooldown has run down and its own key is held.
pub fn should_fire(
    cooldown_finished: bool,
    shoot_left: bool,
    shoot_right: bool,
    torch: Torch,
) -> (r: bool)
    ensures
        r == (cooldown_finished && ((shoot_left && torch is Left) || (shoot_right
            && torch is Right))),
{
    cooldown_finished && ((shoot_left && matches!(torch, Torch::Left)) || (shoot_right && matches!(
        torch,
        Torch::Right,
    )))
}

/// Offset of the left claw from the ship's centre.
pub fn get_left_claw_offset() -> (o: Vec2i)
    ensures
        o.x == -(SHIP_WIDTH as int / 2) + 10 * UNIT,
        o.y == 15 * UNIT,
{
    Vec2i { x: -(SHIP_WIDTH / 2) + 10 * UNIT, y: 15 * UNIT }
}

/// Offset of the right claw from the ship's centre.
pub fn get_right_claw_offset() -> (o: Vec2i)
    ensures
        o.x == SHIP_WIDTH as int / 2 - 10 * UNIT,
        o.y == 15 * UNIT,
{
    Vec2i { x: SHIP_WIDTH / 2 - 10 * UNIT, y: 15 * UNIT }
}

/// Where a ship bullet appears: the firing torch's offset from the ship's
/// centre.
pub fn ship_bullet_origin(ship_pos: Vec2i, torch_offset: Vec2i) -> (o: Vec2i)
    requires
        ship_pos.wf(),
        torch_offset.wf(),
    ensures
        o.x == ship_pos.x + torch_offset.x,
        o.y == ship_pos.y + torch_offset.y,
{
    Vec2i { x: ship_pos.x + torch_offset.x, y: ship_pos.y + torch_offset.y }
}

/// Where the ship first appears: centred, resting just above the floor.
pub fn ship_spawn_translation() -> (t: Vec2i)
    ensures
        t.x == 0,
        t.y == BOTTOM_WALL + GAP_BETWEEN_SHIP_AND_FLOOR + SHIP_HEIGHT as int / 2,
{
    Vec2i { x: 0, y: BOTTOM_WALL + GAP_BETWEEN_SHIP_AND_FLOOR + SHIP_HEIGHT / 2 }
}

/// An alien bullet at or above the ship's centre line that overlaps the
/// ship's collider strikes it.
pub open spec fn spec_bullet_threatens_ship(
    ship_pos: Vec2i,
    ship_size: Vec2i,
    b: BulletState,
) -> bool {
    &&& b.owner is Alien
    &&& b.pos.y >= ship_pos.y
    &&& spec_collide(ship_pos, ship_size, b.pos, b.size)
}

/// Index of the first bullet at or after `from` that strikes the ship.
pub open spec fn spec_ship_hit(
    ship_pos: Vec2i,
    ship_size: Vec2i,
    bullets: Seq<BulletState>,
    from: int,
) -> Option<int>
    decreases bullets.len() - from,
{
    if from < 0 || from >= bullets.len() {
        None
    } else if spec_bullet_threatens_ship(ship_pos, ship_size, bullets[from]) {
        Some(from)
    } else {
        spec_ship_hit(ship_pos, ship_size, bullets, from + 1)
    }
}

/// Find the first alien bullet that strikes the ship this tick, if any.
/// At most one bullet lands per tick.
pub fn check_for_ship_collisions(
    ship_pos: Vec2i,
    ship_size: Vec2i,
    bullets: &Vec<BulletState>,
) -> (hit: Option<usize>)
    requires
        ship_pos.wf(),
        ship_size.wf_size(),
        forall|k: int| 0 <= k < bullets@.len() ==> (#[trigger] bullets@[k]).wf(),
    ensures
        match spec_ship_hit(ship_pos, ship_size, bullets@, 0) {
            Some(j) => hit == Some(j as usize),
            None => hit is None,
        },
{
    let mut j: usize = 0;
    let mut hit: Option<usize> = None;
    while j < bullets.len() && hit.is_none()
        invariant
            0 <= j <= bullets@.len(),
            ship_pos.wf(),
            ship_size.wf_size(),
            forall|k: int| 0 <= k < bullets@.len() ==> (#[trigger] bullets@[k]).wf(),
            hit is None ==> spec_ship_hit(ship_pos, ship_size, bullets@, 0) == spec_ship_hit(
                ship_pos,
                ship_size,
                bullets@,
                j as int,
            ),
            hit matches Some(jj) ==> spec_ship_hit(ship_pos, ship_size, bullets@, 0) == Some(
                jj as int,
            ),
        decreases bullets@.len() - j,
    {
        let b = bullets[j];
        let is_alien_bullet = match b.owner {
            Bullet::Ship => false,
            Bullet::Alien => true,
        };
        if is_alien_bullet && b.pos.y >= ship_pos.y && collide(ship_pos, ship_size, b.pos, b.size) {
            proof {
                assert(spec_bullet_threatens_ship(ship_pos, ship_size, bullets@[j as int]));
                assert(spec_ship_hit(ship_pos, ship_size, bullets@, j as int) == Some(j as int));
            }
            hit = Some(j);
        } else {
            proof {
                assert(!spec_bullet_threatens_ship(ship_pos, ship_size, bullets@[j as int]));
                assert(spec_ship_hit(ship_pos, ship_size, bullets@, j as int) == spec_ship_hit(
                    ship_pos,
                    ship_size,
                    bullets@,
                    j as int + 1,
                ));
            }
        }
        j = j + 1;
    }
    proof {
        if hit is None {
            assert(spec_ship_hit(ship_pos, ship_size, bullets@, j as int) is None);
        }
    }
    hit
}

/// One bullet's damage: a point of health goes, and at zero the pilot is
/// dead; otherwise the pilot's state is left alone.
pub fn apply_ship_hit(health: &mut Health, state: &mut FerrisState)
    requires
        old(health).0 > 0,
    ensures
        final (health).0 == old(health).0 - 1,
        old(health).0 == 1 ==> *final (state) is DEAD,
        old(health).0 > 1 ==> *final (state) == *old(state),
{
    health.0 = health.0 - 1;
    if health.0 == 0 {
        *state = FerrisState::DEAD;
    }
}

/// Where the hit marker appears, relative to the ship: at the bullet,
/// shifted down a little.
pub fn hit_marker_offset(bullet_pos: Vec2i, ship_pos: Vec2i) -> (o: Vec2i)
    requires
        bullet_pos.wf(),
        ship_pos.wf(),
    ensures
        o.x == bullet_pos.x - ship_pos.x,
        o.y == bullet_pos.y - ship_pos.y - 20 * UNIT,
{
    Vec2i { x: bullet_pos.x - ship_pos.x, y: bullet_pos.y - ship_pos.y - 20 * UNIT }
}

/// Where heart number `i` (counted from zero) of the health display sits:
/// a row growing rightward from the top-left corner.
pub fn heart_translation(i: u32) -> (t: Vec2i)
    requires
        i <= 1000,
    ensures
        t.x == LEFT_WALL + HEART_CORNER_OFFSET_X + (HEART_PADDING_RIGHT + HEART_WIDTH) * i as int,
        t.y == TOP_WALL - HEART_CORNER_OFFSET_Y - HEART_HEIGHT,
{
    let gap = HEART_PADDING_RIGHT + HEART_WIDTH;
    proof {
        assert(0 <= gap * (i as i64) <= 240_000_000) by (nonlinear_arith)
            requires
                gap == 240_000i64,
                0 <= i <= 1000,
        ;
    }
    Vec2i {
        x: LEFT_WALL + HEART_CORNER_OFFSET_X + gap * (i as i64),
        y: TOP_WALL - HEART_CORNER_OFFSET_Y - HEART_HEIGHT,
    }
}

/// A heart disappears once its number exceeds the health left.
pub fn heart_should_despawn(display_number: u32, health: u32) -> (r: bool)
    ensures
        r == (display_number > health),
{
    display_number > health
}

} // verus!
