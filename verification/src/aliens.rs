//! The three enemy archetypes and the combat rules that involve them:
//! per-kind sizes, scores and cooldowns, the marching motion of the Aris
//! ranks, each archetype's way of firing, and the resolution of bullet
//! hits against the aliens on screen.

use vstd::prelude::*;

use crate::geometry::{collide, spec_collide, Vec2i};
use crate::rng::random_coin;
use crate::shared::{
    AtMost, Bullet, BulletSpawn, DurationGenerator, DurationType, ShootingCooldown, LEFT_WALL,
    RIGHT_WALL, STEP_SCALE, UNIT,
};

verus! {

// Aris ranks keep a gap to the walls and to one another, and odd rows
// stand offset by half an alien.
pub const ALIEN_ODD_ROW_OFFSET: i64 = 30 * UNIT;

pub const ALIEN_WALL_GAP_X: i64 = 20 * UNIT;

pub const ALIEN_WALL_GAP_Y: i64 = 20 * UNIT;

pub const ALIEN_ALIEN_GAP_X: i64 = 20 * UNIT;

pub const ALIEN_ALIEN_GAP_Y: i64 = 40 * UNIT;

/// Points for destroying an Aris.
pub const DESTROY_ALIEN_SCORE: u32 = 5;

pub const ALIEN_WALK_FRAME_DURATION_IN_MILLIS: u64 = 200;

pub const BULLET_FLASH_WIDTH: i64 = 35 * UNIT;

pub const BULLET_FLASH_HEIGHT: i64 = 35 * UNIT;

pub const BULLET_FLASH_DURATION_MS: u64 = 100;

// Aris
pub const ARIS_WIDTH: i64 = 60 * UNIT;

pub const ARIS_HEIGHT: i64 = 40 * UNIT;

/// World units per second.
pub const ARIS_SPEED: i64 = 75;

/// World units per second.
pub const ARIS_BULLET_SPEED: i64 = 300;

pub const ARIS_MAX_SHOOTING_COOLDOWN_MS: u64 = 10_000;

/// Rightward.
pub const ARIS_INITIAL_DIRECTION: i64 = 1;

// Rylo
pub const RYLO_WIDTH: i64 = 40 * UNIT;

pub const RYLO_HEIGHT: i64 = 40 * UNIT;

/// World units per second.
pub const RYLO_BULLET_SPEED: i64 = 300;

pub const RYLO_SCORE_VALUE: u32 = 10;

pub const RYLO_MAX_SHOOTING_COOLDOWN_MS: u64 = 10_000;

pub const RYLO_POSITION_TWEEN_COMPLETE: u64 = 1;

pub const RYLO_POSITION_DELAY_COMPLETE: u64 = 2;

pub const RYLO_POSITION_TWEEN_DELAY_MS: u64 = 10_000;

pub const RYLO_POSITION_TWEEN_DURATION_MS: u64 = 10_000;

// Zorg
pub const ZORG_WIDTH: i64 = 70 * UNIT;

pub const ZORG_HEIGHT: i64 = 60 * UNIT;

pub const ZORG_MAX_SHOOTING_COOLDOWN_MS: u64 = 15_000;

pub const ZORG_SCORE_VALUE: u32 = 20;

pub const ZORG_BULLET_WIDTH: i64 = 30 * UNIT;

pub const ZORG_BULLET_HEIGHT: i64 = 60 * UNIT;

/// World units per second.
pub const ZORG_BULLET_SPEED: i64 = 150;

/// The three enemy archetypes.
#[derive(Clone, Copy, Debug, PartialEq, Eq, Structural)]
pub enum AlienKind {
    Aris,
    Rylo,
    Zorg,
}

impl AlienKind {
    /// Points awarded for destroying an alien of this kind.
    pub open spec fn spec_score_value(self) -> u32 {
        match self {
            AlienKind::Aris => DESTROY_ALIEN_SCORE,
            AlienKind::Rylo => RYLO_SCORE_VALUE,
            AlienKind::Zorg => ZORG_SCORE_VALUE,
        }
    }

    pub fn score_value(self) -> (v: u32)
        ensures
            v == self.spec_score_value(),
    {
        match self {
            AlienKind::Aris => DESTROY_ALIEN_SCORE,
            AlienKind::Rylo => RYLO_SCORE_VALUE,
            AlienKind::Zorg => ZORG_SCORE_VALUE,
        }
    }

    /// Collider extent of this kind, in subunits.
    pub fn size(self) -> (s: Vec2i)
        ensures
            s == match self {
                AlienKind::Aris => Vec2i { x: ARIS_WIDTH, y: ARIS_HEIGHT },
                AlienKind::Rylo => Vec2i { x: RYLO_WIDTH, y: RYLO_HEIGHT },
                AlienKind::Zorg => Vec2i { x: ZORG_WIDTH, y: ZORG_HEIGHT },
            },
    {
        match self {
            AlienKind::Aris => Vec2i { x: ARIS_WIDTH, y: ARIS_HEIGHT },
            AlienKind::Rylo => Vec2i { x: RYLO_WIDTH, y: RYLO_HEIGHT },
            AlienKind::Zorg => Vec2i { x: ZORG_WIDTH, y: ZORG_HEIGHT },
        }
    }

    /// Longest delay this kind's shooting cooldown may draw.
    pub fn max_shooting_cooldown_ms(self) -> (d: u64)
        ensures
            d == match self {
                AlienKind::Aris => ARIS_MAX_SHOOTING_COOLDOWN_MS,
                AlienKind::Rylo => RYLO_MAX_SHOOTING_COOLDOWN_MS,
                AlienKind::Zorg => ZORG_MAX_SHOOTING_COOLDOWN_MS,
            },
    {
        match self {
            AlienKind::Aris => ARIS_MAX_SHOOTING_COOLDOWN_MS,
            AlienKind::Rylo => RYLO_MAX_SHOOTING_COOLDOWN_MS,
            AlienKind::Zorg => ZORG_MAX_SHOOTING_COOLDOWN_MS,
        }
    }

    /// Every archetype draws each cooldown delay uniformly up to its own
    /// bound.
    pub fn cooldown_generator(self) -> (g: DurationType)
        ensures
            g == DurationType::AtMost(
                AtMost(
                    match self {
                        AlienKind::Aris => ARIS_MAX_SHOOTING_COOLDOWN_MS,
                        AlienKind::Rylo => RYLO_MAX_SHOOTING_COOLDOWN_MS,
                        AlienKind::Zorg => ZORG_MAX_SHOOTING_COOLDOWN_MS,
                    },
                ),
            ),
            g.wf(),
    {
        DurationType::AtMost(AtMost(self.max_shooting_cooldown_ms()))
    }
}

/// Rank shift down when a row walks off an edge: half the vertical gap
/// plus half an alien.
pub const ALIEN_FORWARD_SHIFT: i64 = 40 * UNIT;

/// One tick of Aris motion: advance by the velocity; once the whole body
/// has left the field to a side, reverse course and step down one rank.
/// Returns the new position and velocity.
pub fn update_aris_motion(pos: Vec2i, vel: Vec2i, collider_size: Vec2i) -> (r: (Vec2i, Vec2i))
    requires
        pos.wf(),
        vel.wf(),
        collider_size.wf_size(),
    ensures
        ({
            let moved_x = pos.x + vel.x;
            let moved_y = pos.y + vel.y;
            let off_edge = moved_x + collider_size.x / 2 < LEFT_WALL || moved_x - collider_size.x
                / 2 > RIGHT_WALL;
            if off_edge {
                r.0.x == moved_x && r.0.y == moved_y - ALIEN_FORWARD_SHIFT && r.1.x == -vel.x
                    && r.1.y == vel.y
            } else {
                r.0.x == moved_x && r.0.y == moved_y && r.1 == vel
            }
        }),
{
    let moved = Vec2i { x: pos.x + vel.x, y: pos.y + vel.y };
    let left_most_side = moved.x - collider_size.x / 2;
    let right_most_side = moved.x + collider_size.x / 2;
    if right_most_side < LEFT_WALL || left_most_side > RIGHT_WALL {
        (
            Vec2i { x: moved.x, y: moved.y - ALIEN_FORWARD_SHIFT },
            Vec2i { x: -vel.x, y: vel.y },
        )
    } else {
        (moved, vel)
    }
}

/// If the cooldown has run down, draw a fresh delay and report that a
/// shot is due; otherwise leave the cooldown alone.
pub fn try_shoot(cooldown: &mut ShootingCooldown) -> (fired: bool)
    requires
        old(cooldown).spec_generator().wf(),
    ensures
        fired == (old(cooldown).spec_elapsed_ms() >= old(cooldown).spec_duration_ms()),
        final (cooldown).spec_generator() == old(cooldown).spec_generator(),
        fired ==> final (cooldown).spec_elapsed_ms() == 0 && old(
            cooldown,
        ).spec_generator().min_ms() <= final (cooldown).spec_duration_ms() <= old(
            cooldown,
        ).spec_generator().max_ms(),
        !fired ==> *final (cooldown) == *old(cooldown),
{
    if cooldown.finished() {
        cooldown.reset();
        true
    } else {
        false
    }
}

/// A shot fired from one side of an alien's body: the muzzle sits half an
/// Aris to the left or right and a quarter of an Aris below the centre.
pub struct SideShot {
    pub bullet: BulletSpawn,
    /// Which side the muzzle flash belongs on.
    pub from_right: bool,
}

pub open spec fn spec_side_shot_origin(pos: Vec2i, from_right: bool) -> Vec2i {
    Vec2i {
        x: if from_right {
            (pos.x + ARIS_WIDTH / 2) as i64
        } else {
            (pos.x - ARIS_WIDTH / 2) as i64
        },
        y: (pos.y - ARIS_HEIGHT / 4) as i64,
    }
}

/// An Aris shot from a side picked by a coin flip, falling straight down.
pub fn aris_shot(pos: Vec2i) -> (s: SideShot)
    requires
        pos.wf(),
    ensures
        s.bullet == BulletSpawn::spec_from_aris(spec_side_shot_origin(pos, s.from_right)),
{
    let from_right = random_coin();
    let origin = side_shot_origin(pos, from_right);
    SideShot { bullet: BulletSpawn::from_aris(origin), from_right }
}

/// A Rylo shot from a side picked by a coin flip, falling straight down.
pub fn rylo_shot(pos: Vec2i) -> (s: SideShot)
    requires
        pos.wf(),
    ensures
        s.bullet == BulletSpawn::spec_from_rylo(spec_side_shot_origin(pos, s.from_right)),
{
    let from_right = random_coin();
    let origin = side_shot_origin(pos, from_right);
    SideShot { bullet: BulletSpawn::from_rylo(origin), from_right }
}

fn side_shot_origin(pos: Vec2i, from_right: bool) -> (o: Vec2i)
    requires
        pos.wf(),
    ensures
        o == spec_side_shot_origin(pos, from_right),
{
    let offset = ARIS_WIDTH / 2;
    Vec2i {
        x: if from_right {
            pos.x + offset
        } else {
            pos.x - offset
        },
        y: pos.y - ARIS_HEIGHT / 4,
    }
}

/// Where the muzzle flash of a side shot sits, relative to the shooter.
pub fn flash_offset(from_right: bool) -> (o: Vec2i)
    ensures
        o.x == if from_right {
            ARIS_WIDTH as int / 2
        } else {
            -(ARIS_WIDTH as int / 2)
        },
        o.y == 0,
{
    if from_right {
        Vec2i { x: ARIS_WIDTH / 2, y: 0 }
    } else {
        Vec2i { x: -(ARIS_WIDTH / 2), y: 0 }
    }
}

/// The Zorg volley: three bullets at once, one straight down and one to
/// either side at three tenths of the bullet speed sideways and seven
/// tenths down.
pub fn zorg_volley(origin: Vec2i) -> (v: Vec<BulletSpawn>)
    requires
        origin.wf(),
    ensures
        v@.len() == 3,
        v@[0] == BulletSpawn::spec_from_zorg(
            origin,
            Vec2i { x: (-45 * STEP_SCALE) as i64, y: (-105 * STEP_SCALE) as i64 },
        ),
        v@[1] == BulletSpawn::spec_from_zorg(
            origin,
            Vec2i { x: 0, y: (-150 * STEP_SCALE) as i64 },
        ),
        v@[2] == BulletSpawn::spec_from_zorg(
            origin,
            Vec2i { x: (45 * STEP_SCALE) as i64, y: (-105 * STEP_SCALE) as i64 },
        ),
{
    let mut v: Vec<BulletSpawn> = Vec::new();
    v.push(BulletSpawn::from_zorg(origin, Vec2i { x: -45 * STEP_SCALE, y: -105 * STEP_SCALE }));
    v.push(BulletSpawn::from_zorg(origin, Vec2i { x: 0, y: -150 * STEP_SCALE }));
    v.push(BulletSpawn::from_zorg(origin, Vec2i { x: 45 * STEP_SCALE, y: -105 * STEP_SCALE }));
    v
}

/// An alien on screen, as the collision pass sees it.
#[derive(Clone, Copy)]
pub struct AlienState {
    pub kind: AlienKind,
    pub pos: Vec2i,
    pub size: Vec2i,
}

impl AlienState {
    pub open spec fn wf(self) -> bool {
        self.pos.wf() && self.size.wf_size()
    }
}

/// A bullet on screen, as the collision passes see it.
#[derive(Clone, Copy)]
pub struct BulletState {
    pub owner: Bullet,
    pub pos: Vec2i,
    pub size: Vec2i,
}

impl BulletState {
    pub open spec fn wf(self) -> bool {
        self.pos.wf() && self.size.wf_size()
    }
}

/// A resolved hit: which alien was destroyed and by which bullet.
#[derive(Clone, Copy, Debug, PartialEq, Eq, Structural)]
pub struct Hit {
    pub alien: usize,
    pub bullet: usize,
}

/// A ship bullet overlapping the alien destroys it.
pub open spec fn spec_bullet_hits(a: AlienState, b: BulletState) -> bool {
    b.owner is Ship && spec_collide(a.pos, a.size, b.pos, b.size)
}

/// Index of the first bullet at or after `from` that hits the alien.
pub open spec fn spec_first_hit(a: AlienState, bullets: Seq<BulletState>, from: int) -> Option<int>
    decreases bullets.len() - from,
{
    if from < 0 || from >= bullets.len() {
        None
    } else if spec_bullet_hits(a, bullets[from]) {
        Some(from)
    } else {
        spec_first_hit(a, bullets, from + 1)
    }
}

/// The hits of one combat pass, in order of the aliens: each alien struck
/// by some ship bullet is paired with the first such bullet.
pub open spec fn spec_hits(aliens: Seq<AlienState>, bullets: Seq<BulletState>, from: int) -> Seq<
    Hit,
>
    decreases aliens.len() - from,
{
    if from < 0 || from >= aliens.len() {
        Seq::empty()
    } else {
        (match spec_first_hit(aliens[from], bullets, 0) {
            Some(j) => seq![Hit { alien: from as usize, bullet: j as usize }],
            None => Seq::empty(),
        }) + spec_hits(aliens, bullets, from + 1)
    }
}

/// Total score awarded by one combat pass: the sum of the score values of
/// the aliens that were hit.
pub open spec fn spec_score_gain(aliens: Seq<AlienState>, bullets: Seq<BulletState>, from: int) -> int
    decreases aliens.len() - from,
{
    if from < 0 || from >= aliens.len() {
        0
    } else {
        (match spec_first_hit(aliens[from], bullets, 0) {
            Some(j) => aliens[from].kind.spec_score_value() as int,
            None => 0,
        }) + spec_score_gain(aliens, bullets, from + 1)
    }
}

/// Resolve one combat pass: every alien that overlaps a ship bullet is
/// destroyed by the first such bullet, and its score value is awarded.
/// Removal is deferred, as the engine defers despawns, so one bullet may
/// strike several aliens within a single pass.
pub fn resolve_alien_collisions(aliens: &Vec<AlienState>, bullets: &Vec<BulletState>) -> (r: (
    Vec<Hit>,
    u32,
))
    requires
        forall|k: int| 0 <= k < aliens@.len() ==> (#[trigger] aliens@[k]).wf(),
        forall|k: int| 0 <= k < bullets@.len() ==> (#[trigger] bullets@[k]).wf(),
        aliens@.len() <= 100_000,
    ensures
        r.0@ == spec_hits(aliens@, bullets@, 0),
        r.1 == spec_score_gain(aliens@, bullets@, 0),
{
    let mut hits: Vec<Hit> = Vec::new();
    let mut score: u32 = 0;
    let mut i: usize = 0;
    while i < aliens.len()
        invariant
            0 <= i <= aliens@.len(),
            aliens@.len() <= 100_000,
            forall|k: int| 0 <= k < aliens@.len() ==> (#[trigger] aliens@[k]).wf(),
            forall|k: int| 0 <= k < bullets@.len() ==> (#[trigger] bullets@[k]).wf(),
            spec_hits(aliens@, bullets@, 0) == hits@ + spec_hits(aliens@, bullets@, i as int),
            score + spec_score_gain(aliens@, bullets@, i as int) == spec_score_gain(
                aliens@,
                bullets@,
                0,
            ),
            score <= 20 * i,
        decreases aliens@.len() - i,
    {
        let alien = aliens[i];
        let mut j: usize = 0;
        let mut hit_j: Option<usize> = None;
        while j < bullets.len() && hit_j.is_none()
            invariant
                0 <= j <= bullets@.len(),
                alien == aliens@[i as int],
                i < aliens@.len(),
                forall|k: int| 0 <= k < aliens@.len() ==> (#[trigger] aliens@[k]).wf(),
                forall|k: int| 0 <= k < bullets@.len() ==> (#[trigger] bullets@[k]).wf(),
                hit_j is None ==> spec_first_hit(alien, bullets@, 0) == spec_first_hit(
                    alien,
                    bullets@,
                    j as int,
                ),
                hit_j matches Some(jj) ==> spec_first_hit(alien, bullets@, 0) == Some(jj as int),
            decreases bullets@.len() - j,
        {
            let b = bullets[j];
            let is_ship_bullet = match b.owner {
                Bullet::Ship => true,
                Bullet::Alien => false,
            };
            if is_ship_bullet && collide(alien.pos, alien.size, b.pos, b.size) {
                proof {
                    assert(spec_bullet_hits(alien, bullets@[j as int]));
                    assert(spec_first_hit(alien, bullets@, j as int) == Some(j as int));
                }
                hit_j = Some(j);
            } else {
                proof {
                    assert(!spec_bullet_hits(alien, bullets@[j as int]));
                    assert(spec_first_hit(alien, bullets@, j as int) == spec_first_hit(
                        alien,
                        bullets@,
                        j as int + 1,
                    ));
                }
            }
            j = j + 1;
        }
        let ghost first = spec_first_hit(alien, bullets@, 0);
        proof {
            if hit_j is None {
                assert(spec_first_hit(alien, bullets@, j as int) is None);
                assert(first is None);
            }
        }
        let ghost head: Seq<Hit> = match first {
            Some(jf) => seq![Hit { alien: i as usize, bullet: jf as usize }],
            None => Seq::empty(),
        };
        let ghost head_score: int = match first {
            Some(jf) => alien.kind.spec_score_value() as int,
            None => 0,
        };
        let ghost hits0 = hits@;
        let ghost score0 = score;
        match hit_j {
            Some(jj) => {
                hits.push(Hit { alien: i, bullet: jj });
                proof {
                    assert(alien.kind.spec_score_value() <= 20);
                }
                score = score + alien.kind.score_value();
            },
            None => {},
        }
        proof {
            assert(spec_hits(aliens@, bullets@, i as int) == head + spec_hits(
                aliens@,
                bullets@,
                i as int + 1,
            ));
            assert(spec_score_gain(aliens@, bullets@, i as int) == head_score + spec_score_gain(
                aliens@,
                bullets@,
                i as int + 1,
            ));
            assert(hits@ =~= hits0 + head);
            assert(hits@ + spec_hits(aliens@, bullets@, i as int + 1) =~= hits0 + (head
                + spec_hits(aliens@, bullets@, i as int + 1)));
            assert(score == score0 + head_score);
        }
        i = i + 1;
    }
    (hits, score)
}

/// The next interpolation of a Rylo's position, as the engine's animator
/// will run it: from where, to where, how long, and which completion
/// event it fires.
pub struct RyloTweenPlan {
    pub start: Vec2i,
    pub end: Vec2i,
    pub completion_id: u64,
    pub duration_ms: u64,
}

/// A Rylo alternates holding still and darting somewhere new. When its
/// travel tween completes it holds in place for a while; when its hold
/// completes it darts to a fresh random point in the upper half of the
/// field. Completion events of other tweens are not the Rylo's.
pub fn rylo_tween_after(tween_id: u64, translation: Vec2i) -> (t: Option<RyloTweenPlan>)
    requires
        translation.wf(),
    ensures
        tween_id == RYLO_POSITION_TWEEN_COMPLETE ==> match t {
            Some(p) => {
                &&& p.start == translation
                &&& p.end == translation
                &&& p.completion_id == RYLO_POSITION_DELAY_COMPLETE
                &&& 1000 <= p.duration_ms <= RYLO_POSITION_TWEEN_DELAY_MS
            },
            None => false,
        },
        tween_id == RYLO_POSITION_DELAY_COMPLETE ==> match t {
            Some(p) => {
                &&& p.start == translation
                &&& LEFT_WALL <= p.end.x < LEFT_WALL + crate::shared::WINDOW_WIDTH
                &&& crate::shared::BOTTOM_WALL + crate::shared::WINDOW_HEIGHT as int / 2
                    <= p.end.y < crate::shared::BOTTOM_WALL + crate::shared::WINDOW_HEIGHT as int
                    / 2 + crate::shared::WINDOW_HEIGHT as int / 2
                &&& p.completion_id == RYLO_POSITION_TWEEN_COMPLETE
                &&& 1000 <= p.duration_ms <= RYLO_POSITION_TWEEN_DURATION_MS
            },
            None => false,
        },
        tween_id != RYLO_POSITION_TWEEN_COMPLETE && tween_id != RYLO_POSITION_DELAY_COMPLETE
            ==> t is None,
{
    if tween_id == RYLO_POSITION_TWEEN_COMPLETE {
        let duration_ms = crate::shared::duration_between(1000, RYLO_POSITION_TWEEN_DELAY_MS);
        Some(
            RyloTweenPlan {
                start: translation,
                end: translation,
                completion_id: RYLO_POSITION_DELAY_COMPLETE,
                duration_ms,
            },
        )
    } else if tween_id == RYLO_POSITION_DELAY_COMPLETE {
        let duration_ms = crate::shared::duration_between(1000, RYLO_POSITION_TWEEN_DURATION_MS);
        let rx = crate::rng::random_below(crate::shared::WINDOW_WIDTH as u64);
        let half_height = crate::shared::WINDOW_HEIGHT / 2;
        let ry = crate::rng::random_below(half_height as u64);
        let end = Vec2i {
            x: crate::shared::LEFT_WALL + rx as i64,
            y: crate::shared::BOTTOM_WALL + half_height + ry as i64,
        };
        Some(
            RyloTweenPlan {
                start: translation,
                end,
                completion_id: RYLO_POSITION_TWEEN_COMPLETE,
                duration_ms,
            },
        )
    } else {
        None
    }
}

} // verus!

