//! Values and components shared by every gameplay system: the playfield
//! constants, timers, cooldown duration generators, bullets and walls.
//!
//! Distances are fixed-point with `UNIT` subunits per world unit. `UNIT`
//! is divisible by the tick rate, so a speed of `v` world units per
//! second advances a position by exactly `v * STEP_SCALE` subunits each
//! tick. Durations are in milliseconds.

use vstd::prelude::*;

use crate::geometry::Vec2i;
use crate::rng::random_between;

verus! {

/// Subunits per world unit.
pub const UNIT: i64 = 6000;

/// Fixed updates per second.
pub const TICKS_PER_SECOND: i64 = 60;

/// Subunits travelled per tick by a body moving at one world unit per
/// second: `UNIT` split over `TICKS_PER_SECOND` ticks.
pub const STEP_SCALE: i64 = 100;

// window
pub const WINDOW_WIDTH: i64 = 920 * UNIT;

pub const WINDOW_HEIGHT: i64 = 920 * UNIT;

// walls
pub const BOTTOM_WALL: i64 = -460 * UNIT;

pub const TOP_WALL: i64 = 460 * UNIT;

pub const LEFT_WALL: i64 = -460 * UNIT;

pub const RIGHT_WALL: i64 = 460 * UNIT;

pub const WALL_THICKNESS: i64 = 10 * UNIT;

// bullets
pub const BULLET_WIDTH: i64 = 20 * UNIT;

pub const BULLET_HEIGHT: i64 = 40 * UNIT;

/// World units per second.
pub const SHIP_BULLET_SPEED: i64 = 350;

pub const SHIP_BULLET_INITIAL_GAP: i64 = 5 * UNIT;

// explosion
pub const EXPLOSION_FRAME_DURATION_IN_MILLIS: u64 = 20;

/// Frames in the explosion sheet.
pub const EXPLOSION_FRAME_COUNT: u32 = 25;

/// Displacement per tick, in subunits, of a body moving at
/// `units_per_second` world units per second.
pub fn per_tick(units_per_second: i64) -> (d: i64)
    requires
        -1_000_000 <= units_per_second <= 1_000_000,
    ensures
        d == units_per_second * STEP_SCALE,
{
    units_per_second * STEP_SCALE
}

/// Hit points of a ship.
#[derive(Debug, PartialEq, Eq, Structural)]
pub struct Health(pub u32);

/// The axis-aligned box, centred on its entity, used for overlap tests.
pub struct Collider {
    pub size: Vec2i,
}

/// Displacement per tick, in subunits.
pub struct Velocity(pub Vec2i);

/// Which side fired a bullet.
#[derive(Clone, Copy, Debug, PartialEq, Eq, Structural)]
pub enum Bullet {
    Ship,
    Alien,
}

/// A one-shot timer: it accumulates elapsed time up to its duration and
/// reports completion once the duration has been reached.
pub struct Timer {
    pub elapsed_ms: u64,
    pub duration_ms: u64,
}

impl Timer {
    pub fn new(duration_ms: u64) -> (t: Timer)
        ensures
            t.elapsed_ms == 0,
            t.duration_ms == duration_ms,
    {
        Timer { elapsed_ms: 0, duration_ms }
    }

    /// Advance the timer; elapsed time saturates at the duration.
    pub fn tick(&mut self, delta_ms: u64)
        ensures
            final (self).duration_ms == old(self).duration_ms,
            final (self).elapsed_ms == if old(self).elapsed_ms + delta_ms > old(self).duration_ms {
                old(self).duration_ms as int
            } else {
                old(self).elapsed_ms + delta_ms
            },
    {
        if delta_ms >= self.duration_ms || self.elapsed_ms >= self.duration_ms - delta_ms {
            self.elapsed_ms = self.duration_ms;
        } else {
            self.elapsed_ms = self.elapsed_ms + delta_ms;
        }
    }

    pub fn finished(&self) -> (r: bool)
        ensures
            r == (self.elapsed_ms >= self.duration_ms),
    {
        self.elapsed_ms >= self.duration_ms
    }

    pub fn reset(&mut self)
        ensures
            final (self).elapsed_ms == 0,
            final (self).duration_ms == old(self).duration_ms,
    {
        self.elapsed_ms = 0;
    }

    pub fn set_duration(&mut self, duration_ms: u64)
        ensures
            final (self).elapsed_ms == old(self).elapsed_ms,
            final (self).duration_ms == duration_ms,
    {
        self.duration_ms = duration_ms;
    }
}

/// A timer after which an entity is removed from the scene.
pub struct DespawnTimer(pub Timer);

impl DespawnTimer {
    pub fn from_millis(duration_ms: u64) -> (t: DespawnTimer)
        ensures
            t.0.elapsed_ms == 0,
            t.0.duration_ms == duration_ms,
    {
        DespawnTimer(Timer::new(duration_ms))
    }

    pub fn tick(&mut self, delta_ms: u64)
        ensures
            final (self).0.duration_ms == old(self).0.duration_ms,
            final (self).0.elapsed_ms == if old(self).0.elapsed_ms + delta_ms > old(
                self,
            ).0.duration_ms {
                old(self).0.duration_ms as int
            } else {
                old(self).0.elapsed_ms + delta_ms
            },
    {
        self.0.tick(delta_ms);
    }

    pub fn finished(&self) -> (r: bool)
        ensures
            r == (self.0.elapsed_ms >= self.0.duration_ms),
    {
        self.0.finished()
    }
}

/// A sampled delay in milliseconds at most `max_ms`; zero stays zero.
pub fn duration_at_most(max_ms: u64) -> (d: u64)
    ensures
        d <= max_ms,
        max_ms > 0 ==> d < max_ms,
{
    if max_ms == 0 {
        0
    } else {
        crate::rng::random_below(max_ms)
    }
}

/// A sampled delay in milliseconds between the two bounds, inclusive.
pub fn duration_between(min_ms: u64, max_ms: u64) -> (d: u64)
    requires
        min_ms <= max_ms,
        max_ms - min_ms < u64::MAX,
    ensures
        min_ms <= d <= max_ms,
{
    random_between(min_ms, max_ms)
}

/// A policy for drawing the next cooldown delay.
pub trait DurationGenerator {
    /// Bounds the policy may need to be usable.
    spec fn wf(&self) -> bool;

    /// Smallest delay the policy can produce.
    spec fn min_ms(&self) -> u64;

    /// Largest delay the policy can produce.
    spec fn max_ms(&self) -> u64;

    /// Draw a delay within the policy's bounds.
    fn sample(&self) -> (d: u64)
        requires
            self.wf(),
        ensures
            self.min_ms() <= d <= self.max_ms(),
    ;
}

/// Any delay up to the bound.
pub struct AtMost(pub u64);

impl DurationGenerator for AtMost {
    open spec fn wf(&self) -> bool {
        true
    }

    open spec fn min_ms(&self) -> u64 {
        0
    }

    open spec fn max_ms(&self) -> u64 {
        self.0
    }

    fn sample(&self) -> (d: u64)
        ensures
            self.min_ms() <= d <= self.max_ms(),
    {
        duration_at_most(self.0)
    }
}

/// Any delay between the two bounds, inclusive.
pub struct Between(pub u64, pub u64);

impl DurationGenerator for Between {
    open spec fn wf(&self) -> bool {
        self.0 <= self.1 && self.1 - self.0 < u64::MAX
    }

    open spec fn min_ms(&self) -> u64 {
        self.0
    }

    open spec fn max_ms(&self) -> u64 {
        self.1
    }

    fn sample(&self) -> (d: u64)
        ensures
            self.min_ms() <= d <= self.max_ms(),
    {
        duration_between(self.0, self.1)
    }
}

/// Always the same delay.
pub struct Fixed(pub u64);

impl DurationGenerator for Fixed {
    open spec fn wf(&self) -> bool {
        true
    }

    open spec fn min_ms(&self) -> u64 {
        self.0
    }

    open spec fn max_ms(&self) -> u64 {
        self.0
    }

    fn sample(&self) -> (d: u64)
        ensures
            self.min_ms() <= d <= self.max_ms(),
    {
        self.0
    }
}

/// The three delay policies the shooters use.
pub enum DurationType {
    AtMost(AtMost),
    Between(Between),
    Fixed(Fixed),
}

impl DurationGenerator for DurationType {
    open spec fn wf(&self) -> bool {
        match self {
            DurationType::AtMost(g) => g.wf(),
            DurationType::Between(g) => g.wf(),
            DurationType::Fixed(g) => g.wf(),
        }
    }

    open spec fn min_ms(&self) -> u64 {
        match self {
            DurationType::AtMost(g) => g.min_ms(),
            DurationType::Between(g) => g.min_ms(),
            DurationType::Fixed(g) => g.min_ms(),
        }
    }

    open spec fn max_ms(&self) -> u64 {
        match self {
            DurationType::AtMost(g) => g.max_ms(),
            DurationType::Between(g) => g.max_ms(),
            DurationType::Fixed(g) => g.max_ms(),
        }
    }

    fn sample(&self) -> (d: u64)
        ensures
            self.min_ms() <= d <= self.max_ms(),
    {
        match self {
            DurationType::AtMost(g) => g.sample(),
            DurationType::Between(g) => g.sample(),
            DurationType::Fixed(g) => g.sample(),
        }
    }
}

/// The timer that gates an entity's shots, together with the policy from
/// which each fresh delay is drawn.
pub struct ShootingCooldown {
    timer: Timer,
    duration: DurationType,
}

impl ShootingCooldown {
    pub closed spec fn spec_elapsed_ms(&self) -> u64 {
        self.timer.elapsed_ms
    }

    pub closed spec fn spec_duration_ms(&self) -> u64 {
        self.timer.duration_ms
    }

    pub closed spec fn spec_generator(&self) -> &DurationType {
        &self.duration
    }

    /// A cooldown that must first run down a freshly drawn delay.
    pub fn new(duration: DurationType) -> (c: ShootingCooldown)
        requires
            duration.wf(),
        ensures
            c.spec_elapsed_ms() == 0,
            duration.min_ms() <= c.spec_duration_ms() <= duration.max_ms(),
            c.spec_generator() == duration,
    {
        let sampled = duration.sample();
        ShootingCooldown { timer: Timer::new(sampled), duration }
    }

    /// A cooldown that is ready at once; the policy applies from the
    /// first reset on.
    pub fn new_finished(duration: DurationType) -> (c: ShootingCooldown)
        requires
            duration.wf(),
        ensures
            c.spec_elapsed_ms() == c.spec_duration_ms(),
            duration.min_ms() <= c.spec_duration_ms() <= duration.max_ms(),
            c.spec_generator() == duration,
    {
        let sampled = duration.sample();
        ShootingCooldown { timer: Timer { elapsed_ms: sampled, duration_ms: sampled }, duration }
    }

    pub fn tick(&mut self, delta_ms: u64)
        ensures
            final (self).spec_duration_ms() == old(self).spec_duration_ms(),
            final (self).spec_generator() == old(self).spec_generator(),
            final (self).spec_elapsed_ms() == if old(self).spec_elapsed_ms() + delta_ms > old(
                self,
            ).spec_duration_ms() {
                old(self).spec_duration_ms() as int
            } else {
                old(self).spec_elapsed_ms() + delta_ms
            },
    {
        self.timer.tick(delta_ms);
    }

    pub fn finished(&self) -> (r: bool)
        ensures
            r == (self.spec_elapsed_ms() >= self.spec_duration_ms()),
    {
        self.timer.finished()
    }

    /// Draw a fresh delay from the policy and start over.
    pub fn reset(&mut self)
        requires
            old(self).spec_generator().wf(),
        ensures
            final (self).spec_elapsed_ms() == 0,
            old(self).spec_generator().min_ms() <= final (self).spec_duration_ms() <= old(
                self,
            ).spec_generator().max_ms(),
            final (self).spec_generator() == old(self).spec_generator(),
    {
        let sampled = self.duration.sample();
        self.timer.set_duration(sampled);
        self.timer.reset();
    }
}

/// The four walls framing the playfield.
pub enum WallLocation {
    Left,
    Right,
    Bottom,
    Top,
}

impl WallLocation {
    /// Centre of the wall, in subunits.
    pub fn position(&self) -> (p: Vec2i)
        ensures
            p == match self {
                WallLocation::Left => Vec2i { x: LEFT_WALL, y: 0 },
                WallLocation::Right => Vec2i { x: RIGHT_WALL, y: 0 },
                WallLocation::Bottom => Vec2i { x: 0, y: BOTTOM_WALL },
                WallLocation::Top => Vec2i { x: 0, y: TOP_WALL },
            },
    {
        match self {
            WallLocation::Left => Vec2i { x: LEFT_WALL, y: 0 },
            WallLocation::Right => Vec2i { x: RIGHT_WALL, y: 0 },
            WallLocation::Bottom => Vec2i { x: 0, y: BOTTOM_WALL },
            WallLocation::Top => Vec2i { x: 0, y: TOP_WALL },
        }
    }

    /// Full extent of the wall, in subunits.
    pub fn size(&self) -> (s: Vec2i)
        ensures
            s == match self {
                WallLocation::Left | WallLocation::Right => Vec2i {
                    x: WALL_THICKNESS,
                    y: WINDOW_HEIGHT,
                },
                WallLocation::Bottom | WallLocation::Top => Vec2i {
                    x: WINDOW_WIDTH,
                    y: WALL_THICKNESS,
                },
            },
    {
        match self {
            WallLocation::Left | WallLocation::Right => Vec2i {
                x: WALL_THICKNESS,
                y: WINDOW_HEIGHT,
            },
            WallLocation::Bottom | WallLocation::Top => Vec2i {
                x: WINDOW_WIDTH,
                y: WALL_THICKNESS,
            },
        }
    }
}

/// Everything needed to place a fresh bullet in the scene.
#[derive(Clone, Copy)]
pub struct BulletSpawn {
    pub pos: Vec2i,
    /// Displacement per tick, in subunits.
    pub velocity: Vec2i,
    pub size: Vec2i,
    pub owner: Bullet,
}

impl BulletSpawn {
    pub open spec fn spec_new(
        translation: Vec2i,
        size: Vec2i,
        velocity: Vec2i,
        owner: Bullet,
    ) -> BulletSpawn {
        BulletSpawn { pos: translation, velocity, size, owner }
    }

    pub fn new(translation: Vec2i, size: Vec2i, velocity: Vec2i, owner: Bullet) -> (b: BulletSpawn)
        ensures
            b == BulletSpawn::spec_new(translation, size, velocity, owner),
    {
        BulletSpawn { pos: translation, velocity, size, owner }
    }

    /// An Aris bullet: standard size, falling straight down.
    pub open spec fn spec_from_aris(translation: Vec2i) -> BulletSpawn {
        BulletSpawn {
            pos: translation,
            velocity: Vec2i { x: 0, y: (-crate::aliens::ARIS_BULLET_SPEED * STEP_SCALE) as i64 },
            size: Vec2i { x: BULLET_WIDTH, y: BULLET_HEIGHT },
            owner: Bullet::Alien,
        }
    }

    pub fn from_aris(translation: Vec2i) -> (b: BulletSpawn)
        ensures
            b == BulletSpawn::spec_from_aris(translation),
    {
        BulletSpawn {
            pos: translation,
            velocity: Vec2i { x: 0, y: -crate::aliens::ARIS_BULLET_SPEED * STEP_SCALE },
            size: Vec2i { x: BULLET_WIDTH, y: BULLET_HEIGHT },
            owner: Bullet::Alien,
        }
    }

    /// A Rylo bullet: standard size, falling straight down.
    pub open spec fn spec_from_rylo(translation: Vec2i) -> BulletSpawn {
        BulletSpawn {
            pos: translation,
            velocity: Vec2i { x: 0, y: (-crate::aliens::RYLO_BULLET_SPEED * STEP_SCALE) as i64 },
            size: Vec2i { x: BULLET_WIDTH, y: BULLET_HEIGHT },
            owner: Bullet::Alien,
        }
    }

    pub fn from_rylo(translation: Vec2i) -> (b: BulletSpawn)
        ensures
            b == BulletSpawn::spec_from_rylo(translation),
    {
        BulletSpawn {
            pos: translation,
            velocity: Vec2i { x: 0, y: -crate::aliens::RYLO_BULLET_SPEED * STEP_SCALE },
            size: Vec2i { x: BULLET_WIDTH, y: BULLET_HEIGHT },
            owner: Bullet::Alien,
        }
    }

    /// A Zorg bullet: larger, with the velocity of its place in the
    /// volley.
    pub open spec fn spec_from_zorg(translation: Vec2i, velocity: Vec2i) -> BulletSpawn {
        BulletSpawn {
            pos: translation,
            velocity,
            size: Vec2i {
                x: crate::aliens::ZORG_BULLET_WIDTH,
                y: crate::aliens::ZORG_BULLET_HEIGHT,
            },
            owner: Bullet::Alien,
        }
    }

    pub fn from_zorg(translation: Vec2i, velocity: Vec2i) -> (b: BulletSpawn)
        ensures
            b == BulletSpawn::spec_from_zorg(translation, velocity),
    {
        BulletSpawn {
            pos: translation,
            velocity,
            size: Vec2i {
                x: crate::aliens::ZORG_BULLET_WIDTH,
                y: crate::aliens::ZORG_BULLET_HEIGHT,
            },
            owner: Bullet::Alien,
        }
    }

    /// A ship bullet: the ship's own calibre, climbing straight up.
    pub open spec fn spec_from_ship(translation: Vec2i) -> BulletSpawn {
        BulletSpawn {
            pos: translation,
            velocity: Vec2i { x: 0, y: (SHIP_BULLET_SPEED * STEP_SCALE) as i64 },
            size: Vec2i {
                x: crate::player::SHIP_BULLET_WIDTH,
                y: crate::player::SHIP_BULLET_HEIGHT,
            },
            owner: Bullet::Ship,
        }
    }

    pub fn from_ship(translation: Vec2i) -> (b: BulletSpawn)
        ensures
            b == BulletSpawn::spec_from_ship(translation),
    {
        BulletSpawn {
            pos: translation,
            velocity: Vec2i { x: 0, y: SHIP_BULLET_SPEED * STEP_SCALE },
            size: Vec2i {
                x: crate::player::SHIP_BULLET_WIDTH,
                y: crate::player::SHIP_BULLET_HEIGHT,
            },
            owner: Bullet::Ship,
        }
    }
}

} // verus!
