use rust_wars::game::{
    check_gameover, explosion_finished, menu_update, new_load_wave_timer, update_gameover_menu,
    update_load_wave, wave_action, GameState, Global, Scoreboard, WaveAction,
};
use rust_wars::geometry::Vec2i;
use rust_wars::hall_of_fame::{
    hall_of_fame_action, hall_of_fame_transition, hof_bullet_sprite_index, hof_bullet_translation,
    hof_bullet_velocity, hof_burst_count, HallOfFameAction,
};
use rust_wars::shared::{WallLocation, UNIT};
use rust_wars::utils::screen_to_world;

#[test]
fn a_fresh_game_has_no_wave() {
    let g = Global::new();
    let mut g = g;
    g.start_playing();
    assert_eq!(g.current_wave(), 0);
}

#[test]
fn clearing_waves_counts_up() {
    let mut g = Global::new();
    g.start_playing();
    g.wave_cleared();
    g.wave_cleared();
    assert_eq!(g.current_wave(), 2);
    g.reset();
    assert_eq!(g.current_wave(), 0);
}

#[test]
fn wave_end_advances_only_when_no_alien_remains() {
    let mut g = Global::new();
    g.start_playing();
    assert_eq!(g.check_wave_end(3), None);
    assert_eq!(g.current_wave(), 0);
    assert_eq!(g.check_wave_end(0), Some(GameState::LoadWaveState));
    assert_eq!(g.current_wave(), 1);
}

#[test]
fn scoreboard_accumulates() {
    let mut s = Scoreboard::new();
    s.add(5);
    s.add(20);
    assert_eq!(s.score, 25);
}

#[test]
fn waves_spawn_until_the_victory_wave() {
    assert_eq!(wave_action(0), WaveAction::Spawn(0));
    assert_eq!(wave_action(3), WaveAction::Spawn(3));
    assert_eq!(wave_action(4), WaveAction::Victory);
}

#[test]
fn game_ends_at_zero_health() {
    assert_eq!(check_gameover(GameState::Playing, 0), Some(GameState::GameOver));
    assert_eq!(check_gameover(GameState::Playing, 3), None);
    assert_eq!(check_gameover(GameState::GameOver, 0), None);
}

#[test]
fn menu_starts_a_game_on_the_play_key() {
    let mut g = Global::new();
    assert_eq!(menu_update(&mut g, false), None);
    let next = menu_update(&mut g, true);
    assert_eq!(next, Some(GameState::LoadWaveState));
    assert_eq!(g.current_wave(), 0);
}

#[test]
fn gameover_menu_prefers_menu_over_retry() {
    assert_eq!(update_gameover_menu(true, true), Some(GameState::Menu));
    assert_eq!(update_gameover_menu(true, false), Some(GameState::LoadWaveState));
    assert_eq!(update_gameover_menu(false, false), None);
}

#[test]
fn loading_screen_hands_over_to_play_when_its_timer_ends() {
    let mut t = new_load_wave_timer();
    assert_eq!(t.duration_ms, 5000);
    assert_eq!(update_load_wave(&mut t, 4999), None);
    assert_eq!(update_load_wave(&mut t, 1), Some(GameState::Playing));
}

#[test]
fn victory_screen_keys() {
    assert_eq!(hall_of_fame_action(true, true), HallOfFameAction::GotoMenu);
    assert_eq!(hall_of_fame_action(true, false), HallOfFameAction::Burst);
    assert_eq!(hall_of_fame_action(false, false), HallOfFameAction::Idle);
    assert_eq!(
        hall_of_fame_transition(HallOfFameAction::GotoMenu),
        Some(GameState::Menu)
    );
    assert_eq!(hall_of_fame_transition(HallOfFameAction::Burst), None);
    assert_eq!(hall_of_fame_transition(HallOfFameAction::Idle), None);
}

#[test]
fn celebration_bursts_stay_in_range() {
    for _ in 0..100 {
        assert!(hof_burst_count() < 20);
        assert!(hof_bullet_sprite_index() < 9);
        let t = hof_bullet_translation();
        assert!(t.x >= -460 * UNIT && t.x < 460 * UNIT);
        assert_eq!(t.y, -560 * UNIT);
        let v = hof_bullet_velocity();
        assert_eq!(v.x, 0);
        assert!(v.y >= 46_000 && v.y < 138_000);
    }
}

#[test]
fn explosions_end_on_the_last_frame() {
    assert!(explosion_finished(24));
    assert!(!explosion_finished(23));
    assert!(!explosion_finished(0));
}

#[test]
fn walls_frame_the_window() {
    let left = WallLocation::Left;
    assert_eq!(left.position(), Vec2i { x: -460 * UNIT, y: 0 });
    assert_eq!(left.size(), Vec2i { x: 10 * UNIT, y: 920 * UNIT });
    let top = WallLocation::Top;
    assert_eq!(top.position(), Vec2i { x: 0, y: 460 * UNIT });
    assert_eq!(top.size(), Vec2i { x: 920 * UNIT, y: 10 * UNIT });
}

#[test]
fn screen_coordinates_centre_on_the_window() {
    let w = screen_to_world(Vec2i { x: 460 * UNIT, y: 460 * UNIT });
    assert_eq!(w, Vec2i { x: 0, y: 0 });
    let w = screen_to_world(Vec2i { x: 0, y: 920 * UNIT });
    assert_eq!(w, Vec2i { x: -460 * UNIT, y: 460 * UNIT });
}
