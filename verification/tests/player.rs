use lowrez_survival::animation::Rect;
use lowrez_survival::direction::{axis, get_direction, Direction, HeldKeys};
use lowrez_survival::player::{damage_player, draw_player_collider, move_player, Player};
use lowrez_survival::render::{Atlas, Color, DrawKind};
use lowrez_survival::session::{award_xp, level_up_player, resolve_level_up};
use lowrez_survival::stage::LevelState;
use lowrez_survival::spatial::Position;

fn keys(up: bool, down: bool, left: bool, right: bool) -> HeldKeys {
    HeldKeys { up, down, left, right }
}

#[test]
fn player_takes_ten_damage_once_invulnerability_has_expired() {
    let mut p = Player::new(100_000, 100_000, 0);
    assert_eq!(p.curr_hp, 100_000);
    assert_eq!(p.max_hp, 100_000);
    let now = 1800;
    assert!(p.inv_timer.finished(now));
    assert!(p.take_damage(10_000, now));
    assert_eq!(p.curr_hp, 90_000);
    assert!(!p.inv_timer.finished(now));
    assert_eq!(p.inv_timer.start_time, now);
    assert_eq!(p.get_position(), Position { x: 100_000, y: 100_000 });
}

#[test]
fn player_is_not_hurt_while_invulnerable() {
    let mut p = Player::new(0, 0, 0);
    assert!(p.take_damage(10_000, 2000));
    assert!(!p.take_damage(10_000, 2001));
    assert!(!p.take_damage(10_000, 3799));
    assert_eq!(p.curr_hp, 90_000);
    assert!(p.take_damage(10_000, 3800));
    assert_eq!(p.curr_hp, 80_000);
}

#[test]
fn player_is_not_hurt_while_dashing_or_dead() {
    let mut p = Player::new(0, 0, 0);
    p.is_dashing = true;
    assert!(!p.take_damage(10_000, 5000));
    assert_eq!(p.curr_hp, 100_000);
    p.is_dashing = false;
    p.die();
    assert!(!p.take_damage(10_000, 5000));
    assert_eq!(p.curr_hp, 0);
    assert!(!p.active);
    assert_eq!(p.position, Position { x: -999_000, y: -999_000 });
}

#[test]
fn health_stays_between_nothing_and_full() {
    for hp in [0i64, 1, 5_000, 100_000] {
        for d in [i64::MIN, -200_000, -1, 0, 1, 4_999, 5_000, 5_001, 100_000, i64::MAX] {
            let left = damage_player(hp, 100_000, d);
            assert!(left >= 0);
            assert!(left <= 100_000);
        }
    }
    assert_eq!(damage_player(5_000, 100_000, 10_000), 0);
    assert_eq!(damage_player(50_000, 100_000, 10_000), 40_000);
    assert_eq!(damage_player(50_000, 100_000, -70_000), 100_000);
    let mut p = Player::new(0, 0, 0);
    p.curr_hp = 5_000;
    assert!(p.take_damage(10_000, 9999));
    assert_eq!(p.curr_hp, 0);
}

#[test]
fn health_returns_when_the_regeneration_timer_runs_out() {
    let mut p = Player::new(0, 0, 0);
    p.curr_hp = 50_000;
    p.regenerate(4999);
    assert_eq!(p.curr_hp, 50_000);
    p.regenerate(5000);
    assert_eq!(p.curr_hp, 51_000);
    assert_eq!(p.regen_timer.start_time, 5000);
    p.curr_hp = 99_500;
    p.regenerate(10_000);
    assert_eq!(p.curr_hp, 100_000);
}

#[test]
fn experience_rolls_over_to_exactly_zero() {
    let mut p = Player::new(0, 0, 0);
    p.curr_xp = 95_000;
    p.gain_xp(10_000);
    let mut state = LevelState::InGame;
    assert!(resolve_level_up(&mut p, &mut state));
    assert_eq!(p.curr_xp, 0);
    assert_eq!(p.level, 2);
    assert_eq!(state, LevelState::LevelUp);
}

#[test]
fn experience_below_the_bar_does_not_level_up() {
    let mut p = Player::new(0, 0, 0);
    p.curr_xp = 80_000;
    p.gain_xp(19_999);
    let mut state = LevelState::InGame;
    assert!(!resolve_level_up(&mut p, &mut state));
    assert_eq!(p.curr_xp, 99_999);
    assert_eq!(p.level, 1);
    assert_eq!(state, LevelState::InGame);
    p.gain_xp(1);
    assert!(resolve_level_up(&mut p, &mut state));
    assert_eq!(p.curr_xp, 0);
}

#[test]
fn experience_is_never_taken_away_by_a_gain() {
    let mut p = Player::new(0, 0, 0);
    p.curr_xp = 10;
    p.gain_xp(-500);
    assert_eq!(p.curr_xp, 10);
    p.gain_xp(i64::MAX);
    assert_eq!(p.curr_xp, i64::MAX);
}

#[test]
fn level_up_resets_the_loose_values() {
    let mut xp = 123_456;
    let mut level = 7;
    let mut state = LevelState::InGame;
    level_up_player(&mut xp, &mut level, &mut state);
    assert_eq!((xp, level, state), (0, 8, LevelState::LevelUp));
    let mut top = u32::MAX;
    level_up_player(&mut xp, &mut top, &mut state);
    assert_eq!(top, u32::MAX);
}

#[test]
fn walking_covers_ten_pixels_a_second() {
    let mut p = Player::new(0, 0, 0);
    p.move_me(1000, keys(false, false, false, true));
    assert_eq!(p.position, Position { x: 10_000, y: 0 });
    assert!(!p.flip_x);
    p.move_me(500, keys(false, false, true, false));
    assert_eq!(p.position, Position { x: 5_000, y: 0 });
    assert!(p.flip_x);
    p.move_me(1000, keys(true, false, false, false));
    assert_eq!(p.position, Position { x: 5_000, y: -10_000 });
    assert!(p.flip_x);
    p.move_me(1000, keys(false, true, false, false));
    assert_eq!(p.position, Position { x: 5_000, y: 0 });
}

#[test]
fn walking_diagonally_is_no_faster() {
    let mut p = Player::new(0, 0, 0);
    p.move_me(1000, keys(false, true, false, true));
    assert_eq!(p.position, Position { x: 7_071, y: 7_071 });
}

#[test]
fn walking_without_keys_stays_put() {
    let mut p = Player::new(3, 4, 0);
    p.move_me(1000, keys(false, false, false, false));
    assert_eq!(p.position, Position { x: 3, y: 4 });
    p.move_me(1000, keys(true, true, true, true));
    assert_eq!(p.position, Position { x: 3, y: 4 });
}

#[test]
fn walking_scales_with_the_speed_bonus() {
    let mut p = Player::new(0, 0, 0);
    p.speed_bonus = 1100;
    p.move_me(16, keys(false, false, false, true));
    assert_eq!(p.position.x, 176);
}

#[test]
fn walking_stops_at_the_end_of_the_number_range() {
    let mut p = Player::new(i32::MAX - 5, 0, 0);
    p.move_me(1000, keys(false, false, false, true));
    assert_eq!(p.position.x, i32::MAX);
}

#[test]
fn loose_values_walk_like_the_player() {
    let (mut x, mut y, mut flip) = (0, 0, false);
    move_player(&mut x, &mut y, &mut flip, &1000, 1000, keys(true, false, true, false));
    assert_eq!((x, y, flip), (-7_071, -7_071, true));
}

#[test]
fn axis_is_the_difference_of_its_keys() {
    assert_eq!(axis(false, false), 0);
    assert_eq!(axis(true, false), -1);
    assert_eq!(axis(false, true), 1);
    assert_eq!(axis(true, true), 0);
}

#[test]
fn direction_follows_the_held_keys() {
    assert_eq!(get_direction(keys(false, false, false, false)), None);
    assert_eq!(get_direction(keys(true, false, false, false)), Some(Direction::Up));
    assert_eq!(get_direction(keys(false, true, false, false)), Some(Direction::Down));
    assert_eq!(get_direction(keys(false, false, true, false)), Some(Direction::Left));
    assert_eq!(get_direction(keys(false, false, false, true)), Some(Direction::Right));
    assert_eq!(get_direction(keys(true, false, true, false)), Some(Direction::UpLeft));
    assert_eq!(get_direction(keys(true, false, false, true)), Some(Direction::UpRight));
    assert_eq!(get_direction(keys(false, true, true, false)), Some(Direction::DownLeft));
    assert_eq!(get_direction(keys(false, true, false, true)), Some(Direction::DownRight));
    // of two opposite keys the one toward the larger coordinate wins
    assert_eq!(get_direction(keys(true, true, true, true)), Some(Direction::DownRight));
}

#[test]
fn dash_carries_the_player_until_its_timer_runs_out() {
    let mut p = Player::new(0, 0, 0);
    p.begin_dash(true, keys(false, false, false, true), 1000);
    assert!(p.is_dashing);
    assert_eq!(p.dash_direction, Some(Direction::Right));
    p.dash(250, 1250);
    assert_eq!(p.position, Position { x: 10_000, y: 0 });
    assert!(p.is_dashing);
    p.dash(250, 1500);
    assert_eq!(p.position, Position { x: 20_000, y: 0 });
    assert!(!p.is_dashing);
    p.dash(250, 1750);
    assert_eq!(p.position, Position { x: 20_000, y: 0 });
}

#[test]
fn dash_needs_a_direction() {
    let mut p = Player::new(0, 0, 0);
    p.begin_dash(true, keys(false, false, false, false), 1000);
    assert!(!p.is_dashing);
    p.begin_dash(false, keys(true, false, false, false), 1000);
    assert!(!p.is_dashing);
}

#[test]
fn dash_along_a_diagonal_covers_both_axes() {
    let mut p = Player::new(0, 0, 0);
    p.begin_dash(true, keys(true, false, true, false), 0);
    p.dash(100, 100);
    assert_eq!(p.position, Position { x: -2_828, y: -2_828 });
}

#[test]
fn player_is_painted_red_while_invulnerable() {
    let mut p = Player::new(1000, 2000, 0);
    let frame = Some(Rect::new(1000, 1000, 9000, 9000));
    let calm = p.draw(frame, 1800);
    assert_eq!(calm.tint, Color::white());
    assert_eq!(calm.kind, DrawKind::Sprite { atlas: Atlas::Player, source: frame });
    assert_eq!((calm.x, calm.y, calm.w, calm.h, calm.flip_x), (1000, 2000, 8000, 8000, false));
    assert!(p.take_damage(10_000, 1800));
    assert_eq!(p.draw(frame, 1900).tint, Color::red());
    assert_eq!(p.draw(frame, 3600).tint, Color::white());
}

#[test]
fn ten_points_on_ninety_five_of_a_hundred_level_the_player_up() {
    let mut p = Player::new(0, 0, 0);
    p.curr_xp = 95_000;
    assert_eq!(p.max_xp, 100_000);
    let mut state = LevelState::InGame;
    assert!(award_xp(&mut p, 10_000, &mut state));
    assert_eq!(p.curr_xp, 0);
    assert_eq!(p.level, 2);
    assert_eq!(state, LevelState::LevelUp);
}

#[test]
fn award_below_the_bar_is_kept() {
    let mut p = Player::new(0, 0, 0);
    let mut state = LevelState::InGame;
    assert!(!award_xp(&mut p, 41_000, &mut state));
    assert!(!award_xp(&mut p, 41_000, &mut state));
    assert_eq!(p.curr_xp, 82_000);
    assert_eq!(state, LevelState::InGame);
    assert!(award_xp(&mut p, 18_000, &mut state));
    assert_eq!((p.curr_xp, p.level), (0, 2));
}

#[test]
fn player_soundness_can_be_asked_for() {
    let mut p = Player::new(0, 0, 0);
    assert!(p.is_wf());
    p.curr_hp = p.max_hp + 1;
    assert!(!p.is_wf());
    p.curr_hp = -1;
    assert!(!p.is_wf());
    p.curr_hp = 0;
    assert!(p.is_wf());
    p.anims.frame_length[2] = 0;
    assert!(!p.is_wf());
}

#[test]
fn player_collider_is_a_circle_round_the_middle() {
    let c = draw_player_collider(1000, 2000);
    assert_eq!(c.kind, DrawKind::Circle);
    assert_eq!((c.x, c.y, c.w, c.h), (5000, 6000, 4000, 4000));
    assert_eq!(c.tint, Color::new(1000, 0, 0, 470));
}
