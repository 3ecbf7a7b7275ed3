//! The victory screen: which key does what, and the celebratory burst of
//! bullets fired up from below the screen.

use vstd::prelude::*;

use crate::game::GameState;
use crate::geometry::Vec2i;
use crate::rng::random_below;
use crate::shared::{BOTTOM_WALL, LEFT_WALL, STEP_SCALE, UNIT, WINDOW_WIDTH};

verus! {

/// Marks everything belonging to the victory screen.
pub struct HallOfFame;

/// How long a celebration bullet stays in the scene.
pub const HOF_BULLET_DESPAWN_MS: u64 = 3000;

/// What the victory screen does with the held keys.
#[derive(Clone, Copy, Debug, PartialEq, Eq, Structural)]
pub enum HallOfFameAction {
    /// Back to the menu.
    GotoMenu,
    /// Fire a celebratory burst.
    Burst,
    /// Nothing held.
    Idle,
}

/// The victory screen's decision: the menu key wins over basking.
pub fn hall_of_fame_action(bask_in_glory: bool, menu: bool) -> (a: HallOfFameAction)
    ensures
        menu ==> a is GotoMenu,
        !menu && bask_in_glory ==> a is Burst,
        !menu && !bask_in_glory ==> a is Idle,
{
    if menu {
        HallOfFameAction::GotoMenu
    } else if bask_in_glory {
        HallOfFameAction::Burst
    } else {
        HallOfFameAction::Idle
    }
}

/// The menu key leaves the victory screen.
pub fn hall_of_fame_transition(a: HallOfFameAction) -> (next: Option<GameState>)
    ensures
        next == if a is GotoMenu {
            Some(GameState::Menu)
        } else {
            Option::<GameState>::None
        },
{
    match a {
        HallOfFameAction::GotoMenu => Some(GameState::Menu),
        _ => None,
    }
}

/// How many bullets one burst fires: up to a score of them.
pub fn hof_burst_count() -> (n: u64)
    ensures
        n < 20,
{
    random_below(20)
}

/// Where a celebration bullet starts: anywhere across the window's width,
/// well below the bottom edge.
pub fn hof_bullet_translation() -> (t: Vec2i)
    ensures
        LEFT_WALL <= t.x < LEFT_WALL + WINDOW_WIDTH,
        t.y == BOTTOM_WALL - 100 * UNIT,
{
    let rx = random_below(WINDOW_WIDTH as u64);
    Vec2i { x: LEFT_WALL + rx as i64, y: BOTTOM_WALL - 100 * UNIT }
}

/// How fast a celebration bullet climbs, in subunits per tick: between
/// half and one-and-a-half window heights per second, never below the
/// floor speed the screen guarantees.
pub fn hof_bullet_velocity() -> (v: Vec2i)
    ensures
        v.x == 0,
        460 * STEP_SCALE <= v.y < 1380 * STEP_SCALE,
{
    let units_per_second = 460 + random_below(920) as i64;
    let vy = crate::shared::per_tick(units_per_second);
    proof {
        assert(46_000 <= units_per_second * STEP_SCALE < 138_000) by (nonlinear_arith)
            requires
                STEP_SCALE == 100i64,
                460 <= units_per_second < 1380,
        ;
    }
    Vec2i { x: 0, y: vy }
}

/// Which of the nine celebration sprites a bullet wears.
pub fn hof_bullet_sprite_index() -> (i: u64)
    ensures
        i < 9,
{
    random_below(9)
}

} // verus!
