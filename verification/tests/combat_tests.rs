use rust_wars::aliens::{
    aris_shot, resolve_alien_collisions, rylo_shot, rylo_tween_after, try_shoot,
    update_aris_motion, zorg_volley, AlienKind, AlienState, BulletState, Hit,
};
use rust_wars::geometry::{collide, translate, Vec2i};
use rust_wars::player::{
    apply_ship_hit, check_for_ship_collisions, get_left_claw_offset, get_right_claw_offset,
    heart_should_despawn, heart_translation, hit_marker_offset, ship_bullet_origin,
    ship_direction, ship_spawn_translation, should_fire, update_ship_position, FerrisState, Torch,
};
use rust_wars::shared::{
    AtMost, Bullet, BulletSpawn, DurationType, Fixed, Health, ShootingCooldown, UNIT,
};

fn v(x: i64, y: i64) -> Vec2i {
    Vec2i { x: x * UNIT, y: y * UNIT }
}

#[test]
fn boxes_collide_when_interiors_overlap() {
    assert!(collide(v(0, 0), v(2, 2), v(1, 0), v(2, 2)));
    assert!(collide(v(0, 0), v(2, 2), v(0, 0), v(2, 2)));
}

#[test]
fn touching_edges_do_not_collide() {
    assert!(!collide(v(0, 0), v(2, 2), v(2, 0), v(2, 2)));
    assert!(!collide(v(0, 0), v(2, 2), v(0, 2), v(2, 2)));
    assert!(!collide(v(0, 0), v(2, 2), v(5, 5), v(2, 2)));
}

#[test]
fn ship_bullet_destroys_overlapping_alien() {
    let aliens = vec![AlienState { kind: AlienKind::Aris, pos: v(0, 0), size: v(60, 40) }];
    let bullets = vec![
        BulletState { owner: Bullet::Alien, pos: v(0, 0), size: v(20, 40) },
        BulletState { owner: Bullet::Ship, pos: v(10, 0), size: v(20, 40) },
    ];
    let (hits, score) = resolve_alien_collisions(&aliens, &bullets);
    assert_eq!(hits, vec![Hit { alien: 0, bullet: 1 }]);
    assert_eq!(score, 5);
}

#[test]
fn alien_bullets_do_not_destroy_aliens() {
    let aliens = vec![AlienState { kind: AlienKind::Zorg, pos: v(0, 0), size: v(70, 60) }];
    let bullets = vec![BulletState { owner: Bullet::Alien, pos: v(0, 0), size: v(30, 60) }];
    let (hits, score) = resolve_alien_collisions(&aliens, &bullets);
    assert!(hits.is_empty());
    assert_eq!(score, 0);
}

#[test]
fn one_bullet_can_destroy_two_aliens_in_one_pass() {
    let aliens = vec![
        AlienState { kind: AlienKind::Rylo, pos: v(0, 0), size: v(40, 40) },
        AlienState { kind: AlienKind::Zorg, pos: v(5, 0), size: v(70, 60) },
    ];
    let bullets = vec![BulletState { owner: Bullet::Ship, pos: v(0, 0), size: v(20, 40) }];
    let (hits, score) = resolve_alien_collisions(&aliens, &bullets);
    assert_eq!(hits, vec![Hit { alien: 0, bullet: 0 }, Hit { alien: 1, bullet: 0 }]);
    assert_eq!(score, 10 + 20);
}

#[test]
fn each_alien_takes_the_first_overlapping_ship_bullet() {
    let aliens = vec![AlienState { kind: AlienKind::Aris, pos: v(0, 0), size: v(60, 40) }];
    let bullets = vec![
        BulletState { owner: Bullet::Ship, pos: v(400, 400), size: v(20, 40) },
        BulletState { owner: Bullet::Ship, pos: v(0, 0), size: v(20, 40) },
        BulletState { owner: Bullet::Ship, pos: v(1, 0), size: v(20, 40) },
    ];
    let (hits, _) = resolve_alien_collisions(&aliens, &bullets);
    assert_eq!(hits, vec![Hit { alien: 0, bullet: 1 }]);
}

#[test]
fn score_values_per_kind() {
    assert_eq!(AlienKind::Aris.score_value(), 5);
    assert_eq!(AlienKind::Rylo.score_value(), 10);
    assert_eq!(AlienKind::Zorg.score_value(), 20);
}

#[test]
fn ship_is_struck_by_first_alien_bullet_at_or_above_its_centre() {
    let ship = v(0, -415);
    let size = v(110, 70);
    let bullets = vec![
        BulletState { owner: Bullet::Ship, pos: v(0, -415), size: v(33, 70) },
        BulletState { owner: Bullet::Alien, pos: v(0, -430), size: v(20, 40) },
        BulletState { owner: Bullet::Alien, pos: v(0, -410), size: v(20, 40) },
    ];
    let hit = check_for_ship_collisions(ship, size, &bullets);
    assert_eq!(hit, Some(2));
}

#[test]
fn ship_untouched_when_no_alien_bullet_overlaps() {
    let ship = v(0, -415);
    let size = v(110, 70);
    let bullets = vec![BulletState { owner: Bullet::Alien, pos: v(300, 300), size: v(20, 40) }];
    assert_eq!(check_for_ship_collisions(ship, size, &bullets), None);
}

#[test]
fn damage_kills_at_zero_health() {
    let mut h = Health(2);
    let mut s = FerrisState::WALKING;
    apply_ship_hit(&mut h, &mut s);
    assert_eq!(h, Health(1));
    assert_eq!(s, FerrisState::WALKING);
    apply_ship_hit(&mut h, &mut s);
    assert_eq!(h, Health(0));
    assert_eq!(s, FerrisState::DEAD);
}

#[test]
fn aris_marches_by_its_velocity() {
    let (pos, vel) = update_aris_motion(v(0, 100), Vec2i { x: 7500, y: 0 }, v(60, 40));
    assert_eq!(pos, Vec2i { x: 7500, y: 100 * UNIT });
    assert_eq!(vel, Vec2i { x: 7500, y: 0 });
}

#[test]
fn aris_bounces_and_descends_past_the_wall() {
    // fully past the right wall: left-most side beyond the edge
    let start = Vec2i { x: 495 * UNIT, y: 100 * UNIT };
    let (pos, vel) = update_aris_motion(start, Vec2i { x: UNIT, y: 0 }, v(60, 40));
    assert_eq!(pos, Vec2i { x: 496 * UNIT, y: 60 * UNIT });
    assert_eq!(vel, Vec2i { x: -UNIT, y: 0 });
}

#[test]
fn zorg_volley_spreads_three_bullets() {
    let origin = v(10, 10);
    let volley = zorg_volley(origin);
    assert_eq!(volley.len(), 3);
    assert_eq!(volley[0].velocity, Vec2i { x: -4500, y: -10500 });
    assert_eq!(volley[1].velocity, Vec2i { x: 0, y: -15000 });
    assert_eq!(volley[2].velocity, Vec2i { x: 4500, y: -10500 });
    for b in &volley {
        assert_eq!(b.pos, origin);
        assert_eq!(b.size, v(30, 60));
        assert_eq!(b.owner, Bullet::Alien);
    }
}

#[test]
fn side_shots_leave_from_either_shoulder() {
    let pos = v(0, 0);
    for _ in 0..50 {
        let s = aris_shot(pos);
        assert!(s.bullet.pos.x == 30 * UNIT || s.bullet.pos.x == -30 * UNIT);
        assert_eq!(s.bullet.pos.y, -10 * UNIT);
        assert_eq!(s.bullet.velocity, Vec2i { x: 0, y: -30000 });
        assert_eq!(s.bullet.owner, Bullet::Alien);
        let s = rylo_shot(pos);
        assert!(s.bullet.pos.x == 30 * UNIT || s.bullet.pos.x == -30 * UNIT);
        assert_eq!(s.bullet.velocity, Vec2i { x: 0, y: -30000 });
    }
}

#[test]
fn bullet_spawns_have_their_calibre_and_course() {
    let b = BulletSpawn::from_ship(v(1, 2));
    assert_eq!(b.owner, Bullet::Ship);
    assert_eq!(b.size, v(33, 70));
    assert_eq!(b.velocity, Vec2i { x: 0, y: 35000 });
    let b = BulletSpawn::from_aris(v(1, 2));
    assert_eq!(b.owner, Bullet::Alien);
    assert_eq!(b.size, v(20, 40));
    assert_eq!(b.velocity, Vec2i { x: 0, y: -30000 });
}

#[test]
fn ship_moves_and_clamps_between_walls() {
    // 450 units per second is 45000 subunits per tick
    assert_eq!(update_ship_position(0, 1, 110 * UNIT), 45000);
    assert_eq!(update_ship_position(0, -1, 110 * UNIT), -45000);
    assert_eq!(update_ship_position(0, 0, 110 * UNIT), 0);
    let right_limit = 460 * UNIT - 55 * UNIT - 10 * UNIT;
    assert_eq!(update_ship_position(right_limit, 1, 110 * UNIT), right_limit);
    assert_eq!(update_ship_position(-right_limit, -1, 110 * UNIT), -right_limit);
}

#[test]
fn direction_keys_pick_course_and_state() {
    assert_eq!(ship_direction(true, false), (-1, FerrisState::WALKING));
    assert_eq!(ship_direction(true, true), (-1, FerrisState::WALKING));
    assert_eq!(ship_direction(false, true), (1, FerrisState::WALKING));
    assert_eq!(ship_direction(false, false), (0, FerrisState::IDLE));
}

#[test]
fn torches_fire_on_their_own_keys() {
    assert!(should_fire(true, true, false, Torch::Left));
    assert!(!should_fire(true, true, false, Torch::Right));
    assert!(should_fire(true, false, true, Torch::Right));
    assert!(!should_fire(false, true, true, Torch::Left));
}

#[test]
fn claws_sit_at_the_ship_shoulders() {
    let l = get_left_claw_offset();
    let r = get_right_claw_offset();
    assert_eq!(l, Vec2i { x: -50 * UNIT, y: 15 * UNIT });
    assert_eq!(r, Vec2i { x: 50 * UNIT, y: 15 * UNIT });
    let o = ship_bullet_origin(v(100, -415), l);
    assert_eq!(o, Vec2i { x: 50 * UNIT, y: -400 * UNIT });
}

#[test]
fn ship_spawns_above_the_floor() {
    assert_eq!(ship_spawn_translation(), Vec2i { x: 0, y: -415 * UNIT });
}

#[test]
fn hit_marker_sits_under_the_bullet() {
    let o = hit_marker_offset(v(10, -400), v(0, -415));
    assert_eq!(o, Vec2i { x: 10 * UNIT, y: -5 * UNIT });
}

#[test]
fn hearts_form_a_row_and_fall_with_health() {
    let h0 = heart_translation(0);
    let h1 = heart_translation(1);
    assert_eq!(h0, Vec2i { x: -435 * UNIT, y: 405 * UNIT });
    assert_eq!(h1.x - h0.x, 40 * UNIT);
    assert_eq!(h1.y, h0.y);
    assert!(heart_should_despawn(5, 4));
    assert!(!heart_should_despawn(4, 4));
    assert!(!heart_should_despawn(3, 4));
}

#[test]
fn a_finished_cooldown_fires_and_rearms() {
    let mut c = ShootingCooldown::new_finished(DurationType::Fixed(Fixed(500)));
    assert!(c.finished());
    assert!(try_shoot(&mut c));
    assert!(!c.finished());
    assert!(!try_shoot(&mut c));
    c.tick(500);
    assert!(try_shoot(&mut c));
}

#[test]
fn a_sampled_cooldown_stays_within_its_bound() {
    let c = ShootingCooldown::new(DurationType::AtMost(AtMost(10_000)));
    assert!(!c.finished() || c.finished());
    let mut c = c;
    c.tick(10_000);
    assert!(c.finished());
}

#[test]
fn rylo_tween_alternates_hold_and_dart() {
    let here = v(100, 200);
    let hold = rylo_tween_after(1, here).unwrap();
    assert_eq!(hold.start, here);
    assert_eq!(hold.end, here);
    assert_eq!(hold.completion_id, 2);
    assert!(hold.duration_ms >= 1000 && hold.duration_ms <= 10_000);
    let dart = rylo_tween_after(2, here).unwrap();
    assert_eq!(dart.start, here);
    assert_eq!(dart.completion_id, 1);
    assert!(dart.end.x >= -460 * UNIT && dart.end.x < 460 * UNIT);
    assert!(dart.end.y >= 0 && dart.end.y < 460 * UNIT);
    assert!(rylo_tween_after(7, here).is_none());
}

#[test]
fn translate_moves_by_one_tick() {
    let p = translate(v(1, 2), Vec2i { x: 100, y: -200 });
    assert_eq!(p, Vec2i { x: UNIT + 100, y: 2 * UNIT - 200 });
}
