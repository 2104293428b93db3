use lowrez_survival::animation::Rect;
use lowrez_survival::bats::{
    clean_bat_enemies, draw_bat_enemies, spawn_bat, spawn_bat_at, update_bat_enemies_colliding,
    update_bat_enemies_position, BatEnemy,
};
use lowrez_survival::bullets::Bullet;
use lowrez_survival::damage_popup::DamagePopup;
use lowrez_survival::enemies::{
    advance_enemy_animations, draw_enemies, draw_enemies_collider, shove, spawn_enemies,
    spawn_enemy_at,
    update_enemies_colliding, update_enemies_position, update_enemies_pushing, Enemies,
};
use lowrez_survival::player::Player;
use lowrez_survival::pool::retain_active;
use lowrez_survival::remnants::{draw_dead_enemies, update_dead_enemies, DeadEnemy};
use lowrez_survival::render::{Atlas, DrawKind};
use lowrez_survival::spatial::{Collider, Position};
use lowrez_survival::towers::{
    draw_tower_enemies, spawn_tower, spawn_tower_at, update_tower_enemies, TowerEnemy,
};

#[test]
fn ground_enemy_appears_with_two_points_of_health() {
    let e = Enemies::new(1000, 2000, 41_000);
    assert_eq!(e.position, Position { x: 1000, y: 2000 });
    assert_eq!(e.hp, 2000);
    assert!(e.alive);
    assert_eq!(e.get_given_xp(), 41_000);
    assert_eq!(e.collider, Collider { x: 72000, y: 90000, width: 8, height: 8, radius: 4000 });
    assert_eq!(e.curr_frame, Some(Rect::new(1000, 1000, 9000, 9000)));
    assert_eq!(e.anims.frames.len(), 4);
    assert_eq!(e.anims.frame_length, vec![200, 200, 200, 200]);
}

#[test]
fn ground_enemies_close_three_tenths_of_the_gap_a_second() {
    let mut pool = vec![Enemies::new(100_000, 0, 0), Enemies::new(0, -50_000, 0)];
    update_enemies_position(&mut pool, &0, &0, 1000);
    assert_eq!(pool[0].position, Position { x: 70_000, y: 0 });
    assert_eq!(pool[1].position, Position { x: 0, y: -35_000 });
    update_enemies_position(&mut pool, &0, &0, 16);
    assert_eq!(pool[0].position, Position { x: 69_664, y: 0 });
}

#[test]
fn ground_enemy_without_health_does_not_move() {
    let mut pool = vec![Enemies::new(100_000, 0, 0)];
    pool[0].hp = 0;
    update_enemies_position(&mut pool, &0, &0, 1000);
    assert_eq!(pool[0].position, Position { x: 100_000, y: 0 });
}

#[test]
fn two_enemies_four_apart_push_one_of_them_by_four() {
    let mut pool = vec![Enemies::new(0, 0, 7), Enemies::new(4000, 0, 9)];
    update_enemies_pushing(&mut pool);
    // the first moves away from the second along the line that joins them,
    // by the four pixels that are missing to eight; the second stays
    assert_eq!(pool[0].position, Position { x: -4000, y: 0 });
    assert_eq!(pool[1].position, Position { x: 4000, y: 0 });
    assert_eq!(pool[1].position.x - pool[0].position.x, 8000);
    assert_eq!(pool[0].given_xp, 7);
    assert_eq!(pool[1].given_xp, 9);
    assert_eq!(pool[0].hp, 2000);
    let mut upright = vec![Enemies::new(0, 0, 7), Enemies::new(0, 4000, 9)];
    update_enemies_pushing(&mut upright);
    assert_eq!(upright[0].position, Position { x: 0, y: -4000 });
    assert_eq!(upright[1].position, Position { x: 0, y: 4000 });
}

#[test]
fn shove_moves_away_along_the_joining_line() {
    let at = Position { x: 0, y: 0 };
    assert_eq!(shove(at, Position { x: 4000, y: 0 }), Position { x: -4000, y: 0 });
    assert_eq!(shove(at, Position { x: -4000, y: 0 }), Position { x: 4000, y: 0 });
    assert_eq!(shove(at, Position { x: 0, y: -1000 }), Position { x: 0, y: 7000 });
    // five apart on a slanted line: three more, split as the line is
    let to = shove(at, Position { x: 3000, y: 4000 });
    assert_eq!(to, Position { x: -1800, y: -2400 });
    assert_eq!((3000 - to.x, 4000 - to.y), (4800, 6400));
    // two enemies on one spot part vertically
    assert_eq!(shove(at, at), Position { x: 0, y: -8000 });
}

#[test]
fn enemies_eight_apart_do_not_push() {
    let mut pool = vec![Enemies::new(0, 0, 0), Enemies::new(8000, 0, 0)];
    update_enemies_pushing(&mut pool);
    assert_eq!(pool[0].position, Position { x: 0, y: 0 });
    assert_eq!(pool[1].position, Position { x: 8000, y: 0 });
}

#[test]
fn pushing_works_through_the_pool_in_order() {
    let mut pool = vec![
        Enemies::new(0, 0, 0),
        Enemies::new(0, 4000, 0),
        Enemies::new(6000, 0, 0),
    ];
    update_enemies_pushing(&mut pool);
    // the first is pushed off the second to (0, -4000), then off the third,
    // which is 7211 away then: sine 832, cosine 554, 789 missing
    assert_eq!(pool[0].position, Position { x: -656, y: -4437 });
    // the second is 7211 from the third as well: sine 832, cosine -554
    assert_eq!(pool[1].position, Position { x: -656, y: 4437 });
    assert_eq!(pool[2].position, Position { x: 6000, y: 0 });
    let mut none: Vec<Enemies> = Vec::new();
    update_enemies_pushing(&mut none);
    assert!(none.is_empty());
}

#[test]
fn touch_of_a_ground_enemy_costs_ten_points_once() {
    let pool = vec![Enemies::new(1000, 1000, 0), Enemies::new(2000, 0, 0)];
    let mut p = Player::new(0, 0, 0);
    let mut shake = 0;
    update_enemies_colliding(&pool, &mut p, &mut shake, 2000);
    assert_eq!(p.curr_hp, 90_000);
    assert_eq!(shake, 4000);
    assert_eq!(p.inv_timer.start_time, 2000);
    update_enemies_colliding(&pool, &mut p, &mut shake, 2100);
    assert_eq!(p.curr_hp, 90_000);
    assert_eq!(shake, 4000);
}

#[test]
fn touch_needs_contact_and_a_player_that_does_not_dash() {
    let far = vec![Enemies::new(8000, 0, 0)];
    let mut p = Player::new(0, 0, 0);
    let mut shake = 0;
    update_enemies_colliding(&far, &mut p, &mut shake, 2000);
    assert_eq!((p.curr_hp, shake), (100_000, 0));
    let near = vec![Enemies::new(7999, 0, 0)];
    p.is_dashing = true;
    update_enemies_colliding(&near, &mut p, &mut shake, 2000);
    assert_eq!((p.curr_hp, shake), (100_000, 0));
    p.is_dashing = false;
    update_enemies_colliding(&near, &mut p, &mut shake, 2000);
    assert_eq!((p.curr_hp, shake), (90_000, 4000));
}

#[test]
fn ground_enemies_are_drawn_facing_the_player() {
    let mut pool = vec![Enemies::new(5000, 1000, 0), Enemies::new(-5000, 2000, 0)];
    advance_enemy_animations(&mut pool, 200);
    assert_eq!(pool[0].curr_frame, Some(Rect::new(10000, 1000, 9000, 9000)));
    let commands = draw_enemies(&pool, 0);
    assert_eq!(commands.len(), 2);
    assert!(commands[0].flip_x);
    assert!(!commands[1].flip_x);
    assert_eq!((commands[0].x, commands[0].y, commands[0].w, commands[0].h), (5000, 1000, 9000, 9000));
    assert_eq!(
        commands[0].kind,
        DrawKind::Sprite { atlas: Atlas::Enemies, source: Some(Rect::new(10000, 1000, 9000, 9000)) }
    );
}

#[test]
fn ground_enemy_spawns_at_the_point_that_the_draws_name() {
    let mut pool = Vec::new();
    spawn_enemy_at(&mut pool, &128_000, &128_000, 41_000, 0, 1, 60);
    spawn_enemy_at(&mut pool, &128_000, &128_000, 41_000, 0, 0, 92);
    spawn_enemy_at(&mut pool, &128_000, &128_000, 41_000, 1, 1, 100);
    spawn_enemy_at(&mut pool, &128_000, &128_000, 41_000, -1, 1, 100);
    assert_eq!(pool[0].position, Position { x: 188_000, y: 128_000 });
    assert_eq!(pool[1].position, Position { x: 36_000, y: 128_000 });
    assert_eq!(pool[2].position, Position { x: 182_000, y: 212_100 });
    assert_eq!(pool[3].position, Position { x: 182_000, y: 43_900 });
    assert_eq!(pool[3].given_xp, 41_000);
}

#[test]
fn ground_enemies_spawn_round_the_player_by_chance() {
    let mut pool = Vec::new();
    for _ in 0..200 {
        spawn_enemies(&mut pool, &0, &0, 5_000);
    }
    assert_eq!(pool.len(), 200);
    let mut radii = std::collections::BTreeSet::new();
    let mut sides = std::collections::BTreeSet::new();
    for e in &pool {
        assert_eq!(e.given_xp, 5_000);
        let (x, y) = (e.position.x, e.position.y);
        let radius = if y == 0 {
            assert_eq!(x % 1000, 0);
            x.abs() / 1000
        } else {
            assert_eq!(x % 540, 0);
            assert_eq!(y.abs(), x.abs() / 540 * 841);
            x.abs() / 540
        };
        assert!((60..=92).contains(&radius));
        radii.insert(radius);
        sides.insert(x > 0);
    }
    assert!(radii.len() > 1);
    assert_eq!(sides.len(), 2);
}

#[test]
fn bat_flies_twenty_pixels_a_second_on_a_wave() {
    let mut pool = vec![BatEnemy::new(0, 50_000, 1, 0, 0), BatEnemy::new(0, 50_000, -1, 0, 0)];
    assert_eq!(pool[0].hp, 1000);
    assert_eq!(pool[0].initial_y, 50_000);
    update_bat_enemies_position(&mut pool, 500);
    assert_eq!(pool[0].x, 10_000);
    // a tenth of ten pixels is one radian: the cosine is 540 by the formula
    assert_eq!(pool[0].y, 50_000 + 25 * 540);
    assert_eq!(pool[1].x, -10_000);
    assert_eq!(pool[1].y, pool[0].y);
    for _ in 0..1000 {
        update_bat_enemies_position(&mut pool, 16);
        assert!((pool[0].y - 50_000).abs() <= 25_000);
    }
}

#[test]
fn bat_is_taken_away_after_ten_seconds() {
    let mut pool = vec![BatEnemy::new(0, 0, 1, 0, 500)];
    clean_bat_enemies(&mut pool, 10_499);
    assert!(pool[0].active);
    clean_bat_enemies(&mut pool, 10_500);
    assert!(!pool[0].active);
    retain_active(&mut pool);
    assert!(pool.is_empty());
}

#[test]
fn bat_that_crashes_into_the_player_loses_a_point() {
    let mut pool = vec![BatEnemy::new(1000, 1000, 1, 0, 0), BatEnemy::new(0, 0, 1, 0, 0)];
    let mut p = Player::new(0, 0, 0);
    let mut shake = 0;
    let mut popups: Vec<DamagePopup> = Vec::new();
    update_bat_enemies_colliding(&mut pool, &mut p, &mut shake, &mut popups, 1800);
    assert_eq!(p.curr_hp, 90_000);
    assert_eq!(shake, 5000);
    assert_eq!(pool[0].hp, 0);
    assert_eq!(pool[1].hp, 1000);
    assert_eq!(popups.len(), 1);
    assert_eq!(popups[0].amount, 1);
    assert_eq!(popups[0].pos, Position { x: 1000, y: 1000 });
    assert!(popups[0].active);
}

#[test]
fn bat_spawns_beside_the_player() {
    let mut pool = Vec::new();
    spawn_bat_at(&mut pool, 128_000, 100_000, 41_000, 0, 500, 7);
    spawn_bat_at(&mut pool, 128_000, 100_000, 41_000, 1, 1999, 7);
    assert_eq!((pool[0].x, pool[0].y, pool[0].x_dir), (192_000, 50_000, -1));
    assert_eq!((pool[1].x, pool[1].y, pool[1].x_dir), (64_000, 199_900, 1));
    assert_eq!(pool[1].clean_timer.start_time, 7);
    assert_eq!(pool[1].given_xp, 41_000);
    for _ in 0..100 {
        spawn_bat(&mut pool, 0, 1000, 3_000, 0);
    }
    let mut heights = std::collections::BTreeSet::new();
    for b in &pool[2..] {
        assert!(b.x == 64_000 || b.x == -64_000);
        assert_eq!(b.x_dir, if b.x > 0 { -1 } else { 1 });
        assert!((500..2000).contains(&b.y));
        heights.insert(b.y);
    }
    assert!(heights.len() > 1);
    let commands = draw_bat_enemies(&pool);
    assert_eq!(commands.len(), pool.len());
    assert_eq!(
        commands[0].kind,
        DrawKind::Sprite { atlas: Atlas::Enemies, source: Some(Rect::new(1000, 10000, 9000, 9000)) }
    );
}

#[test]
fn turret_shoots_at_a_player_in_range_once_a_second() {
    let mut t = TowerEnemy::new(0, 0, 0);
    let mut bullets: Vec<Bullet> = Vec::new();
    t.update(30_000, 40_000, &mut bullets, 999);
    assert!(bullets.is_empty());
    t.update(30_000, 40_000, &mut bullets, 1000);
    assert_eq!(
        bullets,
        vec![Bullet { x: 2000, y: 2000, dir_x: -600, dir_y: -800, active: true }]
    );
    assert_eq!(t.bullet_cooldown.start_time, 1000);
    t.update(30_000, 40_000, &mut bullets, 1500);
    assert_eq!(bullets.len(), 1);
    assert!(t.active);
}

#[test]
fn turret_holds_its_fire_while_the_player_is_out_of_range() {
    let mut t = TowerEnemy::new(0, 0, 0);
    let mut bullets: Vec<Bullet> = Vec::new();
    t.update(128_000, 0, &mut bullets, 2000);
    assert!(bullets.is_empty());
    assert_eq!(t.bullet_cooldown.start_time, 0);
    t.update(127_999, 0, &mut bullets, 2001);
    assert_eq!(bullets.len(), 1);
    assert_eq!((bullets[0].dir_x, bullets[0].dir_y), (-1000, 0));
}

#[test]
fn turret_is_gone_after_five_seconds() {
    let mut pool = vec![TowerEnemy::new(0, 0, 0), TowerEnemy::new(9000, 0, 3000)];
    let mut bullets: Vec<Bullet> = Vec::new();
    update_tower_enemies(&mut pool, &500_000, &500_000, &mut bullets, 5000);
    assert!(!pool[0].active);
    assert!(pool[1].active);
    assert!(bullets.is_empty());
    let commands = draw_tower_enemies(&pool);
    assert_eq!(commands.len(), 1);
    assert_eq!(commands[0].x, 9000);
    retain_active(&mut pool);
    assert_eq!(pool, vec![TowerEnemy::new(9000, 0, 3000)]);
}

#[test]
fn turret_is_set_up_thirty_two_pixels_off() {
    let mut pool = Vec::new();
    spawn_tower_at(&mut pool, 100_000, 100_000, 0, 42);
    spawn_tower_at(&mut pool, 100_000, 100_000, 1571, 42);
    spawn_tower_at(&mut pool, 100_000, 100_000, 3141, 42);
    assert_eq!((pool[0].x, pool[0].y), (132_000, 100_000));
    assert_eq!((pool[1].x, pool[1].y), (100_000, 132_000));
    assert_eq!((pool[2].x, pool[2].y), (68_000, 100_000));
    assert_eq!(pool[0], TowerEnemy::new(132_000, 100_000, 42));
    for _ in 0..100 {
        spawn_tower(&mut pool, 0, 0, 0);
    }
    let mut places = std::collections::BTreeSet::new();
    for t in &pool[3..] {
        let d2 = (t.x as i64) * (t.x as i64) + (t.y as i64) * (t.y as i64);
        assert!(d2 <= 32_100 * 32_100);
        assert!(d2 >= 31_000 * 31_000);
        places.insert((t.x, t.y));
    }
    assert!(places.len() > 1);
}

#[test]
fn remnant_drifts_away_from_the_player_and_goes_out() {
    let frame = Some(Rect::new(1000, 1000, 9000, 9000));
    let mut pool = vec![DeadEnemy::new(10_000, 0, frame), DeadEnemy::new(-10_000, 0, frame)];
    update_dead_enemies(&mut pool, &0, 100);
    // a tenth of the second is half of the way to full speed: eased to
    // three quarters of twenty pixels a second
    assert_eq!(pool[0].position, Position { x: 11_500, y: 0 });
    assert_eq!(pool[1].position, Position { x: -11_500, y: 0 });
    assert!(pool[0].active);
    let commands = draw_dead_enemies(&pool, &0);
    assert_eq!(commands.len(), 2);
    assert!(commands[0].flip_x);
    assert!(!commands[1].flip_x);
    assert_eq!(commands[0].kind, DrawKind::Sprite { atlas: Atlas::Enemies, source: frame });
    // 66 thousandths of the fading are done, which eases to 128
    assert_eq!(commands[0].tint.a, 872);
    update_dead_enemies(&mut pool, &0, 900);
    assert!(!pool[0].active);
    assert_eq!(pool[0].position, Position { x: 29_500, y: 0 });
    assert!(draw_dead_enemies(&pool, &0).is_empty());
    retain_active(&mut pool);
    assert!(pool.is_empty());
}

#[test]
fn ground_enemy_colliders_are_circles_round_their_middles() {
    let pool = vec![Enemies::new(0, 0, 0), Enemies::new(10_000, -4000, 0)];
    let commands = draw_enemies_collider(&pool);
    assert_eq!(commands.len(), 2);
    assert_eq!(commands[1].kind, DrawKind::Circle);
    assert_eq!((commands[1].x, commands[1].y, commands[1].w), (14_000, 0, 4000));
    assert_eq!(commands[0].tint.a, 235);
}
