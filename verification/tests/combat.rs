use lowrez_survival::bats::BatEnemy;
use lowrez_survival::bullets::{
    draw_bullets, draw_enemy_bullets, spawn_bullet, update_bullets, update_enemy_bullets, Bullet,
};
use lowrez_survival::combat::{bullet_damage_player, damage_enemy, kill_bat_enemies, kill_enemies};
use lowrez_survival::damage_popup::{draw_popups, update_popups, DamagePopup};
use lowrez_survival::enemies::Enemies;
use lowrez_survival::particles::{
    draw_particles, lerp_vec2, spawn_particle, travelled, update_particles, Jitter, Particle,
    ParticleType, Vec2,
};
use lowrez_survival::player::Player;
use lowrez_survival::pool::retain_active;
use lowrez_survival::remnants::DeadEnemy;
use lowrez_survival::render::{
    draw_map_cell, lerp, lerp_color, sprite_rect, Atlas, Color, DrawKind,
};
use lowrez_survival::animation::Rect;
use lowrez_survival::spatial::Position;

fn bullet(x: i32, y: i32) -> Bullet {
    Bullet { x, y, dir_x: 1000, dir_y: 0, active: true }
}

#[test]
fn bullet_hit_takes_the_players_damage_off_the_enemy() {
    let mut bullets = vec![bullet(2000, 2000), bullet(500_000, 0)];
    let mut enemies = vec![Enemies::new(0, 0, 41_000)];
    enemies[0].hp = 5000;
    let mut popups: Vec<DamagePopup> = Vec::new();
    let mut shake = 0;
    damage_enemy(&mut bullets, &mut enemies, &mut popups, &mut shake, &2000);
    assert_eq!(enemies[0].hp, 3000);
    assert!(!bullets[0].active);
    assert!(bullets[1].active);
    assert_eq!(shake, 1000);
    assert_eq!(popups.len(), 1);
    assert_eq!(popups[0].amount, 2);
    assert_eq!(popups[0].pos, Position { x: 0, y: 0 });
    assert_eq!(enemies[0].given_xp, 41_000);
}

#[test]
fn several_bullets_hit_in_one_frame_until_the_health_is_gone() {
    let mut bullets = vec![bullet(2000, 2000), bullet(2500, 2500), bullet(1500, 1500)];
    let mut enemies = vec![Enemies::new(0, 0, 0)];
    enemies[0].hp = 4000;
    let mut popups: Vec<DamagePopup> = Vec::new();
    let mut shake = 0;
    damage_enemy(&mut bullets, &mut enemies, &mut popups, &mut shake, &2000);
    assert_eq!(enemies[0].hp, 0);
    assert!(!bullets[0].active);
    assert!(!bullets[1].active);
    assert!(bullets[2].active);
    assert_eq!(popups.len(), 2);
    assert_eq!(shake, 2000);
}

#[test]
fn bullet_hit_needs_overlap_within_five_pixels_of_the_middle() {
    let mut bullets = vec![bullet(7000, 2000)];
    let mut enemies = vec![Enemies::new(0, 0, 0)];
    let mut popups: Vec<DamagePopup> = Vec::new();
    let mut shake = 0;
    damage_enemy(&mut bullets, &mut enemies, &mut popups, &mut shake, &2000);
    assert_eq!(enemies[0].hp, 2000);
    assert!(bullets[0].active);
    bullets[0].x = 6999;
    damage_enemy(&mut bullets, &mut enemies, &mut popups, &mut shake, &2000);
    assert_eq!(enemies[0].hp, 0);
    assert!(!bullets[0].active);
}

#[test]
fn one_bullet_can_hit_two_enemies_that_lie_on_one_another() {
    let mut bullets = vec![bullet(2000, 2000)];
    let mut enemies = vec![Enemies::new(0, 0, 0), Enemies::new(100, 100, 0)];
    let mut popups: Vec<DamagePopup> = Vec::new();
    let mut shake = 0;
    damage_enemy(&mut bullets, &mut enemies, &mut popups, &mut shake, &1500);
    assert_eq!(enemies[0].hp, 500);
    assert_eq!(enemies[1].hp, 500);
    assert_eq!(popups.len(), 2);
    assert_eq!(popups[1].pos, Position { x: 100, y: 100 });
    assert_eq!(popups[1].amount, 1);
}

#[test]
fn enemy_bullet_costs_the_player_ten_points() {
    let mut bullets = vec![bullet(500_000, 0), bullet(2000, 2000), bullet(2500, 2500)];
    let mut p = Player::new(0, 0, 0);
    let mut popups: Vec<DamagePopup> = Vec::new();
    let mut shake = 0;
    bullet_damage_player(&mut bullets, &mut p, &mut popups, &mut shake, 1800);
    assert_eq!(p.curr_hp, 90_000);
    assert!(bullets[0].active);
    assert!(!bullets[1].active);
    // the player is invulnerable by the time the third bullet has its turn
    assert!(bullets[2].active);
    assert_eq!(shake, 5000);
    assert_eq!(popups.len(), 1);
    assert_eq!(popups[0].amount, 10);
    assert_eq!(p.inv_timer.start_time, 1800);
}

#[test]
fn enemy_bullet_passes_a_dashing_player() {
    let mut bullets = vec![bullet(2000, 2000)];
    let mut p = Player::new(0, 0, 0);
    p.is_dashing = true;
    let mut popups: Vec<DamagePopup> = Vec::new();
    let mut shake = 0;
    bullet_damage_player(&mut bullets, &mut p, &mut popups, &mut shake, 1800);
    assert_eq!(p.curr_hp, 100_000);
    assert!(bullets[0].active);
    assert!(popups.is_empty());
    assert_eq!(shake, 0);
}

#[test]
fn kill_grants_the_worth_that_was_fixed_at_spawn() {
    let mut enemies = vec![Enemies::new(1000, 2000, 41_000), Enemies::new(0, 0, 7_000)];
    enemies[0].hp = 0;
    let mut xp = 10_000;
    let mut dead: Vec<DeadEnemy> = Vec::new();
    let mut kills = 14;
    let mut tier = 1;
    kill_enemies(&mut enemies, &mut xp, &mut dead, &mut kills, &mut tier);
    assert_eq!(xp, 51_000);
    assert_eq!(kills, 15);
    assert_eq!(tier, 2);
    assert!(!enemies[0].alive);
    assert!(enemies[1].alive);
    assert_eq!(enemies[0].given_xp, 41_000);
    assert_eq!(dead.len(), 1);
    assert_eq!(dead[0].position, Position { x: 1000, y: 2000 });
    assert_eq!(dead[0].curr_frame, enemies[0].curr_frame);
    assert!(dead[0].active);
    retain_active(&mut enemies);
    assert_eq!(enemies.len(), 1);
    assert_eq!(enemies[0].given_xp, 7_000);
}

#[test]
fn worth_of_a_living_enemy_outlasts_a_change_of_tier() {
    let mut director = lowrez_survival::director::Director::new(0);
    let mut enemies = vec![Enemies::new(0, 0, director.given_xp())];
    assert_eq!(enemies[0].given_xp, 41_000);
    for _ in 0..30 {
        director.record_kill();
    }
    assert_eq!(director.progression, 3);
    assert_eq!(director.given_xp(), 18_000);
    assert_eq!(enemies[0].given_xp, 41_000);
    enemies[0].hp = -1;
    let mut xp = 0;
    let mut dead: Vec<DeadEnemy> = Vec::new();
    kill_enemies(
        &mut enemies,
        &mut xp,
        &mut dead,
        &mut director.kill_count,
        &mut director.progression,
    );
    assert_eq!(xp, 41_000);
    assert_eq!(director.kill_count, 31);
}

#[test]
fn kill_of_a_bat_counts_like_any_other() {
    let mut bats = vec![BatEnemy::new(0, 0, 1, 12_000, 0), BatEnemy::new(5, 6, -1, 13_000, 0)];
    bats[1].hp = 0;
    let mut xp = 0;
    let mut dead: Vec<DeadEnemy> = Vec::new();
    let mut kills = 0;
    let mut tier = 1;
    kill_bat_enemies(&mut bats, &mut xp, &mut dead, &mut kills, &mut tier);
    assert_eq!((xp, kills, tier), (13_000, 1, 1));
    assert!(bats[0].active);
    assert!(!bats[1].active);
    assert_eq!(dead.len(), 1);
    assert_eq!(dead[0].position, Position { x: 5, y: 6 });
}

#[test]
fn bullets_fly_against_their_direction_and_trail_particles() {
    let mut bullets = vec![
        Bullet { x: 0, y: 0, dir_x: 600, dir_y: -800, active: true },
        Bullet { x: 0, y: 0, dir_x: 600, dir_y: -800, active: false },
    ];
    let mut particles: Vec<Particle> = Vec::new();
    update_bullets(&mut bullets, &mut particles, 1000, 77);
    assert_eq!((bullets[0].x, bullets[0].y), (-12_000, 16_000));
    assert_eq!((bullets[1].x, bullets[1].y), (0, 0));
    assert_eq!(particles.len(), 1);
    let p = particles[0];
    assert!((-12_000..-11_000).contains(&p.x));
    assert!((16_000..17_000).contains(&p.y));
    assert_eq!(p.lifetime.start_time, 77);
    assert_eq!(p.color_start, Color::from_rgba(251, 185, 84, 255));
    update_enemy_bullets(&mut bullets, &mut particles, 500, 78);
    assert_eq!((bullets[0].x, bullets[0].y), (-18_000, 24_000));
    assert_eq!(particles.len(), 2);
    assert_eq!(particles[1].color_start, Color::from_rgba(168, 132, 243, 255));
}

#[test]
fn player_bullet_is_aimed_at_the_nearest_enemy() {
    let enemies = vec![
        Enemies::new(60_000, 80_000, 0),
        Enemies::new(-30_000, -40_000, 0),
        Enemies::new(30_000, 40_000, 0),
        Enemies::new(0, 200_000, 0),
    ];
    let mut bullets = Vec::new();
    spawn_bullet(&mut bullets, &enemies, &0, &0);
    // the second and the third are equally near: the earlier one is aimed at
    assert_eq!(bullets, vec![Bullet { x: 2000, y: 2000, dir_x: 600, dir_y: 800, active: true }]);
}

#[test]
fn player_bullet_without_a_target_takes_the_diagonal() {
    let mut bullets = Vec::new();
    spawn_bullet(&mut bullets, &Vec::new(), &10_000, &20_000);
    assert_eq!(
        bullets,
        vec![Bullet { x: 12_000, y: 22_000, dir_x: 1000, dir_y: 1000, active: true }]
    );
    let far = vec![Enemies::new(138_000, 20_000, 0)];
    spawn_bullet(&mut bullets, &far, &10_000, &20_000);
    assert_eq!((bullets[1].dir_x, bullets[1].dir_y), (1000, 1000));
    let near = vec![Enemies::new(137_999, 20_000, 0)];
    spawn_bullet(&mut bullets, &near, &10_000, &20_000);
    assert_eq!((bullets[2].dir_x, bullets[2].dir_y), (-1000, 0));
}

#[test]
fn bullets_are_drawn_while_they_are_live() {
    let mut bullets = vec![bullet(1, 2), bullet(3, 4)];
    bullets[0].active = false;
    let own = draw_bullets(&bullets);
    assert_eq!(own.len(), 1);
    assert_eq!((own[0].x, own[0].y, own[0].w, own[0].h), (3, 4, 8000, 8000));
    assert_eq!(own[0].tint, Color::white());
    assert_eq!(
        own[0].kind,
        DrawKind::Sprite { atlas: Atlas::Main, source: Some(Rect::new(40000, 2000, 8000, 8000)) }
    );
    let hostile = draw_enemy_bullets(&bullets);
    assert_eq!(hostile[0].tint, Color::pink());
    retain_active(&mut bullets);
    assert_eq!(bullets, vec![bullet(3, 4)]);
}

#[test]
fn compaction_keeps_the_live_members_in_order() {
    let mut bullets: Vec<Bullet> = (0..10).map(|i| bullet(i, 0)).collect();
    for i in [0usize, 3, 4, 9] {
        bullets[i].active = false;
    }
    retain_active(&mut bullets);
    let xs: Vec<i32> = bullets.iter().map(|b| b.x).collect();
    assert_eq!(xs, vec![1, 2, 5, 6, 7, 8]);
    let mut empty: Vec<Bullet> = Vec::new();
    retain_active(&mut empty);
    assert!(empty.is_empty());
}

#[test]
fn particle_kinds_differ_in_look_and_life() {
    let j = Jitter { size_start: 100, size_end: 200, x: 300, y: 400 };
    let shot = Particle::new(ParticleType::ShotParticle, 1000, 2000, 5, j);
    assert_eq!((shot.x, shot.y), (1600, 2800));
    assert_eq!((shot.size_start, shot.size_end), (1600, 400));
    assert_eq!(shot.lifetime.duration, 500);
    assert_eq!(shot.velocity_start, Vec2 { x: 5000, y: 0 });
    assert_eq!(shot.texture, None);
    let dash = Particle::new(ParticleType::PlayerDashParticle, 1000, 2000, 5, j);
    assert_eq!((dash.x, dash.y), (1030, 2200));
    assert_eq!(dash.texture, Some(Atlas::Player));
    assert_eq!(dash.color_start, Color::new(1000, 1000, 1000, 300));
    let intro = Particle::new(ParticleType::IntroParticle, 0, 0, 5, j);
    assert_eq!((intro.x, intro.y), (150_000, 1_000_000));
    assert_eq!((intro.size_start, intro.size_end), (1800, 800));
    assert_eq!(intro.lifetime.duration, 10_000);
    assert_eq!(intro.velocity_end, Vec2 { x: 1000, y: 5000 });
    let hostile = Particle::new(ParticleType::EnemyShotParticle, 0, 0, 5, j);
    assert_eq!(hostile.color_end, Color::new(200, 200, 200, 100));
}

#[test]
fn particles_move_fade_and_go_out() {
    let j = Jitter { size_start: 0, size_end: 0, x: 0, y: 0 };
    let mut pool = vec![Particle::new(ParticleType::ShotParticle, 0, 0, 0, j)];
    update_particles(&mut pool, 100, 250);
    assert_eq!((pool[0].x, pool[0].y), (500, 0));
    assert!(pool[0].active);
    let commands = draw_particles(&pool, 250);
    assert_eq!(commands.len(), 1);
    assert_eq!(commands[0].kind, DrawKind::Rectangle);
    assert_eq!((commands[0].w, commands[0].h), (850, 850));
    assert_eq!(commands[0].tint, Color::new(592, 462, 264, 550));
    update_particles(&mut pool, 100, 500);
    assert!(!pool[0].active);
    assert_eq!(pool[0].x, 1000);
    assert!(draw_particles(&pool, 500).is_empty());
    update_particles(&mut pool, 100, 600);
    assert_eq!(pool[0].x, 1000);
    retain_active(&mut pool);
    assert!(pool.is_empty());
}

#[test]
fn spawned_particles_are_jittered_by_chance() {
    let mut pool = Vec::new();
    for _ in 0..50 {
        spawn_particle(&mut pool, 0, 0, ParticleType::ShotParticle, 9);
    }
    let mut places = std::collections::BTreeSet::new();
    for p in &pool {
        assert!((0..1000).contains(&p.x));
        assert!((0..1000).contains(&p.y));
        assert!((1500..2000).contains(&p.size_start));
        assert!((200..700).contains(&p.size_end));
        assert_eq!(p.lifetime.start_time, 9);
        places.insert((p.x, p.y));
    }
    assert!(places.len() > 1);
    spawn_particle(&mut pool, 0, 0, ParticleType::IntroParticle, 9);
    let intro = pool[50];
    assert!((1500..3000).contains(&intro.size_start));
    assert!((0..250_000).contains(&intro.x));
    assert!((0..1_250_000).contains(&intro.y));
}

#[test]
fn popup_rises_fades_and_goes_out_after_five_seconds() {
    let mut pool = vec![DamagePopup::new(10_000, 20_000, 2)];
    let first = draw_popups(&pool);
    assert_eq!(first.len(), 1);
    assert_eq!(first[0].kind, DrawKind::Loss { amount: 2 });
    assert_eq!((first[0].x, first[0].y), (8_000, 20_000));
    assert_eq!(first[0].tint, Color::new(1000, 1000, 0, 500));
    update_popups(&mut pool, 1000);
    let risen = draw_popups(&pool);
    assert_eq!(risen[0].y, 15_000);
    assert_eq!(risen[0].tint.a, 0);
    update_popups(&mut pool, 3999);
    assert!(pool[0].active);
    update_popups(&mut pool, 1);
    assert!(!pool[0].active);
    assert!(draw_popups(&pool).is_empty());
    retain_active(&mut pool);
    assert!(pool.is_empty());
}

#[test]
fn interpolation_is_linear_and_rounds_toward_zero() {
    assert_eq!(lerp(0, 1000, 250), 250);
    assert_eq!(lerp(1000, 0, 250), 750);
    assert_eq!(lerp(-3, 0, 500), -1);
    assert_eq!(lerp(10, 20, 0), 10);
    assert_eq!(lerp(10, 20, 1000), 20);
    assert_eq!(lerp(0, 100, 2000), 200);
    assert_eq!(
        lerp_vec2(Vec2 { x: 0, y: 1000 }, Vec2 { x: 1000, y: 0 }, 100),
        Vec2 { x: 100, y: 900 }
    );
    assert_eq!(
        lerp_color(Color::new(1000, 0, 0, 1000), Color::new(0, 0, 1000, 0), 500),
        Color::new(500, 0, 500, 500)
    );
    assert_eq!(travelled(5000, 100), 500);
    assert_eq!(travelled(-5000, 1), -5);
    assert_eq!(travelled(-999, 1), 0);
}

#[test]
fn colours_are_held_in_thousandths() {
    assert_eq!(Color::from_rgba(255, 0, 128, 51), Color::new(1000, 0, 501, 200));
    assert_eq!(Color::white(), Color::new(1000, 1000, 1000, 1000));
    assert_eq!(Color::red(), Color::new(1000, 0, 0, 1000));
    assert_eq!(Color::pink(), Color::new(1000, 430, 760, 1000));
}

#[test]
fn sprite_regions_lie_on_a_grid_of_five_columns() {
    assert_eq!(sprite_rect(0), Rect::new(3000, 3000, 5800, 5800));
    assert_eq!(sprite_rect(4), Rect::new(43_000, 3000, 5800, 5800));
    assert_eq!(sprite_rect(5), Rect::new(3000, 13_000, 5800, 5800));
    assert_eq!(sprite_rect(u32::MAX).y, i32::MAX);
    let cell = draw_map_cell(3, -2);
    assert_eq!((cell.x, cell.y, cell.w, cell.h), (24_000, -16_000, 8000, 8000));
    assert_eq!(
        cell.kind,
        DrawKind::Sprite { atlas: Atlas::Main, source: Some(Rect::new(32000, 2000, 7000, 7000)) }
    );
}
