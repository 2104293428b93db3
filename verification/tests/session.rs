use lowrez_survival::direction::HeldKeys;
use lowrez_survival::enemies::Enemies;
use lowrez_survival::pool::Pooled;
use lowrez_survival::session::{
    choose_upgrade_input, decayed, level_up_input, FrameInput, Session,
};
use lowrez_survival::stage::{InputSnapshot, LevelState};
use lowrez_survival::spatial::Position;
use lowrez_survival::stopwatch::Stopwatch;
use lowrez_survival::tween::{Easing, Keyframe, Tween};
use lowrez_survival::upgrade::Upgrade;

fn idle() -> InputSnapshot {
    InputSnapshot {
        keys: HeldKeys { up: false, down: false, left: false, right: false },
        dash: false,
        menu_left: false,
        menu_right: false,
        confirm: false,
        restart: false,
    }
}

fn confirm() -> InputSnapshot {
    InputSnapshot { confirm: true, ..idle() }
}

fn started() -> Session {
    let mut s = Session::new(0);
    s.frame(&confirm(), 16, 0);
    assert_eq!(s.level_state, LevelState::InGame);
    s
}

fn within_caps(s: &Session) -> bool {
    let tier = s.director.progression as usize;
    s.enemies.len() <= 5 * tier
        && s.bat_enemies.len() <= 2 * tier
        && s.tower_enemies.len() <= if tier >= 3 { 2 * tier } else { 0 }
}

#[test]
fn session_waits_in_front_of_the_title() {
    let mut s = Session::new(0);
    assert_eq!(s.level_state, LevelState::PreGame);
    for i in 0..10 {
        s.frame(&idle(), 16, 16 * i);
        assert_eq!(s.level_state, LevelState::PreGame);
    }
    assert_eq!(s.intro_particles.len(), 10);
    assert!(s.enemies.is_empty());
    assert_eq!(s.draw(160).len(), 10);
}

#[test]
fn confirm_begins_a_run_on_a_fresh_world() {
    let mut s = Session::new(0);
    s.player.curr_hp = 5;
    s.director.progression = 9;
    s.screen_shake_amount = 12_345;
    s.frame(&confirm(), 16, 1000);
    assert_eq!(s.level_state, LevelState::InGame);
    assert_eq!(s.player.position, Position { x: 128_000, y: 128_000 });
    assert_eq!(s.player.curr_hp, 100_000);
    assert_eq!(s.player.curr_xp, 0);
    assert_eq!(s.player.level, 1);
    assert_eq!(s.director.progression, 1);
    assert_eq!(s.director.kill_count, 0);
    assert_eq!(s.sw, Stopwatch::new());
    assert_eq!(s.screen_shake_amount, 0);
    assert!(s.enemies.is_empty() && s.bat_enemies.is_empty() && s.bullets.is_empty());
    assert_eq!(s.player.inv_timer.start_time, 1000);
}

#[test]
fn pools_stay_within_their_caps_for_any_number_of_frames() {
    let mut s = started();
    let mut now = 0;
    for i in 0..3000u64 {
        now += 16;
        let mut input = idle();
        input.keys.right = i % 7 < 3;
        input.keys.up = i % 11 < 5;
        input.dash = i % 100 == 0;
        input.confirm = true;
        s.frame(&input, 16, now);
        assert!(within_caps(&s));
        assert!(s.player.curr_hp >= 0 && s.player.curr_hp <= s.player.max_hp);
        assert!(s.player.curr_xp >= 0 && s.player.curr_xp < s.player.max_xp);
    }
}

#[test]
fn pools_fill_up_to_their_caps_one_enemy_a_frame() {
    let mut s = started();
    for i in 1..=5usize {
        s.frame(&idle(), 1, i as u64);
        assert_eq!(s.enemies.len(), i);
        assert_eq!(s.bat_enemies.len(), i.min(2));
        assert!(s.tower_enemies.is_empty());
    }
    s.frame(&idle(), 1, 6);
    assert_eq!(s.enemies.len(), 5);
    for e in &s.enemies {
        assert_eq!(e.given_xp, 41_000);
    }
    s.director.progression = 3;
    s.frame(&idle(), 1, 7);
    assert_eq!(s.enemies.len(), 6);
    assert_eq!(s.bat_enemies.len(), 3);
    assert_eq!(s.tower_enemies.len(), 1);
    assert_eq!(s.enemies[5].given_xp, 50_000 - 5_000 - 12_000);
    assert_eq!(s.enemies[0].given_xp, 41_000);
}

#[test]
fn run_of_many_frames_keeps_the_session_sound() {
    let mut s = started();
    let frames: Vec<FrameInput> = (1..=500u64)
        .map(|i| FrameInput { input: confirm(), delta: 33, now: 33 * i })
        .collect();
    s.run_frames(&frames);
    assert!(within_caps(&s));
    assert!(s.player.curr_hp >= 0 && s.player.curr_hp <= s.player.max_hp);
    assert!(s.player.curr_xp < s.player.max_xp);
}

#[test]
fn full_bar_of_experience_leads_to_the_level_up_screen() {
    let mut s = started();
    s.player.curr_xp = 95_000;
    let mut doomed = Enemies::new(0, 0, 10_000);
    doomed.hp = 0;
    s.enemies.push(doomed);
    s.frame(&idle(), 16, 16);
    assert_eq!(s.level_state, LevelState::LevelUp);
    assert_eq!(s.player.curr_xp, 0);
    assert_eq!(s.player.level, 2);
    assert_eq!(s.director.kill_count, 1);
    assert_eq!(s.upgrades.len(), 2);
    assert_ne!(s.upgrades[0], s.upgrades[1]);
    assert_eq!(s.dead_enemies.len(), 1);
    assert!(s.enemies.iter().all(|e| e.live()));
}

#[test]
fn level_up_screen_applies_exactly_the_chosen_offer() {
    let mut s = started();
    s.level_state = LevelState::LevelUp;
    s.upgrades = vec![Upgrade::SpeedUpgrade, Upgrade::RecoveryUpgrade];
    s.sw.tick(500);
    let right = InputSnapshot { menu_right: true, ..idle() };
    s.frame(&right, 16, 100);
    assert_eq!(s.level_state, LevelState::LevelUp);
    assert_eq!(s.choosen_upgrade_index, 1);
    assert!(s.sw.paused());
    assert_eq!(s.sw.elapsed(), 500);
    assert_eq!(s.player.regen, 1000);
    s.frame(&confirm(), 16, 116);
    assert_eq!(s.level_state, LevelState::InGame);
    assert_eq!(s.player.regen, 3000);
    assert_eq!(s.player.speed_bonus, 1000);
    assert!(!s.sw.paused());
    s.frame(&idle(), 16, 132);
    assert_eq!(s.choosen_upgrade_index, 0);
    assert_eq!(s.sw.elapsed(), 516);
    assert_eq!(s.player.regen, 3000);
}

#[test]
fn menu_buttons_move_between_the_two_offers() {
    let mut t = Tween::over_millis(vec![Keyframe::new(0, 0, Easing::EaseOut)], 1000, true);
    t.update(300);
    let mut index = 0;
    choose_upgrade_input(&mut index, &mut t, true, false);
    assert_eq!((index, t.elapsed), (0, 300));
    choose_upgrade_input(&mut index, &mut t, false, true);
    assert_eq!((index, t.elapsed), (1, 0));
    t.update(300);
    choose_upgrade_input(&mut index, &mut t, false, true);
    assert_eq!((index, t.elapsed), (1, 300));
    choose_upgrade_input(&mut index, &mut t, true, true);
    assert_eq!((index, t.elapsed), (1, 300));
    choose_upgrade_input(&mut index, &mut t, true, false);
    assert_eq!((index, t.elapsed), (0, 0));
    t.update(300);
    choose_upgrade_input(&mut index, &mut t, true, true);
    assert_eq!((index, t.elapsed), (0, 0));
    assert_eq!(level_up_input(true), Some(LevelState::InGame));
    assert_eq!(level_up_input(false), None);
}

#[test]
fn death_clears_the_field_and_leads_back_to_the_title() {
    let mut s = started();
    for i in 1..=5u64 {
        s.frame(&idle(), 16, 16 * i);
    }
    assert!(!s.enemies.is_empty());
    s.player.curr_hp = 0;
    let mut now = 80;
    s.frame(&idle(), 1000, now + 1000);
    now += 1000;
    assert_eq!(s.level_state, LevelState::InGame);
    assert!(!s.player.active);
    assert_eq!(s.player.curr_hp, 0);
    assert_eq!(s.player.position, Position { x: -999_000, y: -999_000 });
    assert!(s.enemies.is_empty() && s.bat_enemies.is_empty() && s.bullets.is_empty());
    assert!(s.dead_enemies.is_empty() && s.particles.is_empty() && s.damage_popups.is_empty());
    assert!(s.sw.paused());
    let stopped = s.sw.elapsed();
    s.frame(&idle(), 999, now + 999);
    assert_eq!(s.level_state, LevelState::InGame);
    s.frame(&idle(), 1, now + 1000);
    assert_eq!(s.level_state, LevelState::PreGame);
    assert_eq!(s.sw.elapsed(), stopped);
    assert!(s.enemies.is_empty());
    s.frame(&confirm(), 16, now + 2000);
    assert_eq!(s.level_state, LevelState::InGame);
    assert!(s.player.active);
    assert_eq!(s.player.curr_hp, 100_000);
}

#[test]
fn outlasting_the_run_leads_to_the_summary() {
    let mut s = started();
    s.sw.tick(239_990);
    s.frame(&idle(), 10, 10);
    assert_eq!(s.sw.elapsed(), 240_000);
    assert!(!s.enemies.is_empty());
    s.frame(&idle(), 10, 20);
    assert_eq!(s.sw.elapsed(), 240_010);
    assert!(s.enemies.is_empty() && s.bat_enemies.is_empty() && s.particles.is_empty());
    assert_eq!(s.level_state, LevelState::InGame);
    let mut now = 20;
    while s.sw.elapsed() <= 248_000 {
        now += 1000;
        s.frame(&idle(), 1000, now);
        assert_eq!(s.level_state, LevelState::InGame);
        assert!(s.enemies.is_empty());
    }
    // the wipe takes five seconds, the first of which has gone by
    assert_eq!(s.tweener.elapsed, 1000);
    for _ in 0..3 {
        now += 1000;
        s.frame(&idle(), 1000, now);
        assert_eq!(s.level_state, LevelState::InGame);
    }
    now += 1000;
    s.frame(&idle(), 1000, now);
    assert_eq!(s.level_state, LevelState::StageCleared);
    s.frame(&idle(), 16, now + 16);
    assert_eq!(s.level_state, LevelState::StageCleared);
    s.frame(&InputSnapshot { restart: true, ..idle() }, 16, now + 32);
    assert_eq!(s.level_state, LevelState::PreGame);
}

#[test]
fn player_walks_shoots_and_is_drawn_in_a_run() {
    let mut s = started();
    let right = InputSnapshot {
        keys: HeldKeys { up: false, down: false, left: false, right: true },
        ..idle()
    };
    s.frame(&right, 100, 100);
    assert_eq!(s.player.position, Position { x: 129_000, y: 128_000 });
    assert!(s.bullets.is_empty());
    s.frame(&right, 600, 700);
    assert_eq!(s.player.position, Position { x: 135_000, y: 128_000 });
    assert_eq!(s.bullets.len(), 1);
    assert_eq!(s.director.bullet_cooldown.duration, 3000);
    assert_eq!(s.director.bullet_cooldown.start_time, 700);
    let commands = s.draw(700);
    let live_particles = s.particles.iter().filter(|p| p.live()).count();
    assert_eq!(
        commands.len(),
        live_particles + 1 + s.enemies.len() + s.bat_enemies.len() + s.bullets.len()
    );
    assert_eq!((commands[live_particles].x, commands[live_particles].y), (135_000, 128_000));
}

#[test]
fn dash_moves_the_player_and_leaves_a_wake() {
    let mut s = started();
    let dash = InputSnapshot {
        keys: HeldKeys { up: true, down: false, left: false, right: false },
        dash: true,
        ..idle()
    };
    s.frame(&dash, 100, 100);
    assert!(s.player.is_dashing);
    assert_eq!(s.player.position, Position { x: 128_000, y: 124_000 });
    assert_eq!(s.particles.len(), 1);
    assert_eq!(s.particles[0].texture, Some(lowrez_survival::render::Atlas::Player));
    s.frame(&idle(), 500, 600);
    assert!(!s.player.is_dashing);
    assert_eq!(s.player.position, Position { x: 128_000, y: 104_000 });
}

#[test]
fn screen_shake_dies_down_by_six_hundredths_a_frame() {
    assert_eq!(decayed(4000), 3760);
    assert_eq!(decayed(-100), -94);
    assert_eq!(decayed(1), 0);
    assert_eq!(decayed(i64::MAX), i64::MAX / 100 * 94 + (i64::MAX % 100) * 94 / 100);
    let mut s = Session::new(0);
    s.screen_shake_amount = 1000;
    s.frame(&idle(), 16, 16);
    assert_eq!(s.screen_shake_amount, 940);
}

#[test]
fn session_soundness_can_be_asked_for() {
    let mut s = started();
    assert!(s.is_sound());
    for i in 1..=50u64 {
        s.frame(&idle(), 16, 16 * i);
        assert!(s.is_sound());
    }
    s.enemies.push(Enemies::new(0, 0, 0));
    assert!(!s.is_sound());
    s.enemies.pop();
    assert!(s.is_sound());
    s.upgrades.pop();
    assert!(!s.is_sound());
}

#[test]
fn level_up_screen_shows_the_colliders() {
    let mut s = started();
    for i in 1..=3u64 {
        s.frame(&idle(), 16, 16 * i);
    }
    s.level_state = LevelState::LevelUp;
    let commands = s.draw(100);
    assert_eq!(commands.len(), 1 + 2 * s.enemies.len() + s.bullets.len());
    assert_eq!(commands[1 + s.enemies.len()].kind, lowrez_survival::render::DrawKind::Circle);
    s.level_state = LevelState::StageCleared;
    assert!(s.draw(100).is_empty());
}

#[test]
fn nothing_spawns_once_the_run_is_won() {
    let mut s = started();
    s.sw.tick(240_000);
    for i in 1..=10u64 {
        s.frame(&idle(), 16, 16 * i);
        assert!(s.enemies.is_empty());
        assert!(s.bat_enemies.is_empty());
    }
    assert_eq!(s.level_state, LevelState::InGame);
    assert!(s.player.active);
}
