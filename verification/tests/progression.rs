use lowrez_survival::director::{update_given_xp, update_progress_level, Director};
use lowrez_survival::player::Player;
use lowrez_survival::upgrade::{pick_random_upgrades, upgrade_at, upgrades_from_draws, Upgrade};

#[test]
fn spawned_enemy_is_worth_forty_one_at_the_start() {
    let d = Director::new(0);
    assert_eq!(d.base_given_xp, 50_000);
    assert_eq!(d.kill_count, 0);
    assert_eq!(d.progression, 1);
    assert_eq!(d.given_xp(), 41_000);
}

#[test]
fn spawned_worth_falls_with_kills_and_tiers() {
    let mut d = Director::new(0);
    d.kill_count = 10;
    d.progression = 2;
    assert_eq!(d.given_xp(), 32_000);
    d.kill_count = 3;
    d.progression = 1;
    assert_eq!(d.given_xp(), 39_500);
}

#[test]
fn spawned_worth_is_never_under_three() {
    let mut d = Director::new(0);
    d.kill_count = 1000;
    assert_eq!(d.given_xp(), 3_000);
    d.kill_count = u64::MAX;
    d.progression = u32::MAX;
    d.base_given_xp = i64::MIN;
    assert_eq!(d.given_xp(), 3_000);
    d.kill_count = 0;
    d.progression = 0;
    d.base_given_xp = 3_334;
    assert_eq!(d.given_xp(), 3_001);
    d.base_given_xp = 3_332;
    assert_eq!(d.given_xp(), 3_000);
}

#[test]
fn tier_rises_every_fifteenth_kill() {
    let mut d = Director::new(0);
    for kill in 1..=45u64 {
        d.record_kill();
        assert_eq!(d.kill_count, kill);
        assert_eq!(d.progression as u64, 1 + kill / 15);
    }
}

#[test]
fn tier_is_left_alone_between_multiples_of_fifteen() {
    let mut tier = 4;
    update_progress_level(&mut tier, 0);
    assert_eq!(tier, 4);
    update_progress_level(&mut tier, 14);
    assert_eq!(tier, 4);
    update_progress_level(&mut tier, 15);
    assert_eq!(tier, 5);
    update_progress_level(&mut tier, 16);
    assert_eq!(tier, 5);
    let mut top = u32::MAX;
    update_progress_level(&mut top, 30);
    assert_eq!(top, u32::MAX);
}

#[test]
fn base_experience_decays_by_a_tenth_and_a_fifth_per_kill() {
    let mut base = 50_000;
    update_given_xp(&mut base, 0);
    assert_eq!(base, 45_000);
    let mut base = 50_000;
    update_given_xp(&mut base, 10);
    assert_eq!(base, 43_000);
    let mut base = 50_000;
    let mut last = base;
    for kills in 0..100 {
        update_given_xp(&mut base, kills);
        assert!(3_000 <= base && base <= last);
        last = base;
    }
    assert_eq!(base, 3_000);
}

#[test]
fn base_experience_is_held_at_three_points() {
    let mut base = 3_000;
    update_given_xp(&mut base, 0);
    assert_eq!(base, 3_000);
    let mut base = 3_334;
    update_given_xp(&mut base, 0);
    assert_eq!(base, 3_001);
    let mut base = 3_334;
    update_given_xp(&mut base, 1);
    assert_eq!(base, 3_000);
    let mut base = -55;
    update_given_xp(&mut base, 0);
    assert_eq!(base, 3_000);
    let mut base = i64::MAX;
    update_given_xp(&mut base, u64::MAX);
    assert_eq!(base, 3_000);
    let mut base = i64::MIN;
    update_given_xp(&mut base, 0);
    assert_eq!(base, 3_000);
}

#[test]
fn kills_leave_the_base_experience_alone() {
    let mut d = Director::new(0);
    for _ in 0..40 {
        d.record_kill();
    }
    assert_eq!(d.base_given_xp, 50_000);
}

#[test]
fn seeding_steps_the_state_twice_round_the_seed() {
    const MULTIPLIER: u64 = 6364136223846793005;
    for (seed, inc) in [(0u64, 0u64), (1, 1), (42, 54), (u64::MAX, u64::MAX), (1 << 63, 7)] {
        let stream = (inc << 1) | 1;
        let first = 0u64.wrapping_mul(MULTIPLIER).wrapping_add(stream);
        let state = first.wrapping_add(seed).wrapping_mul(MULTIPLIER).wrapping_add(stream);
        let gen = randomize::PCG32::seed(seed, inc);
        assert_eq!((gen.state, gen.inc), (state, stream));
        assert_eq!(stream % 2, 1);
    }
}

#[test]
fn caps_follow_the_tier() {
    let mut d = Director::new(0);
    assert!(d.ground_room(4));
    assert!(!d.ground_room(5));
    assert!(d.flying_room(1));
    assert!(!d.flying_room(2));
    assert!(!d.turret_room(0));
    d.progression = 2;
    assert!(!d.turret_room(0));
    d.progression = 3;
    assert!(d.ground_room(14));
    assert!(!d.ground_room(15));
    assert!(d.flying_room(5));
    assert!(!d.flying_room(6));
    assert!(d.turret_room(5));
    assert!(!d.turret_room(6));
}

#[test]
fn shot_wait_is_three_seconds_times_the_bonus() {
    let mut d = Director::new(0);
    assert_eq!(d.shot_wait_millis(), 3000);
    d.bullet_cooldown_bonus = 900;
    assert_eq!(d.shot_wait_millis(), 2700);
    d.bullet_cooldown_bonus = 0;
    assert_eq!(d.shot_wait_millis(), 0);
    d.bullet_cooldown_bonus = -100;
    assert_eq!(d.shot_wait_millis(), 0);
    d.bullet_cooldown_bonus = i64::MAX;
    assert_eq!(d.shot_wait_millis(), u64::MAX);
}

#[test]
fn catalog_holds_six_upgrades() {
    assert_eq!(upgrade_at(0), Upgrade::SpeedUpgrade);
    assert_eq!(upgrade_at(1), Upgrade::DashUpgrade);
    assert_eq!(upgrade_at(2), Upgrade::FasterRecoveryUpgrade);
    assert_eq!(upgrade_at(3), Upgrade::IframeUpgrade);
    assert_eq!(upgrade_at(4), Upgrade::RecoveryUpgrade);
    assert_eq!(upgrade_at(5), Upgrade::FireRateUpgrade);
    assert_eq!(upgrade_at(6), Upgrade::FireRateUpgrade);
}

#[test]
fn two_draws_give_two_different_offers() {
    for first in 0..=5u32 {
        for second in 0..=4u32 {
            let picked = upgrades_from_draws(first, second);
            assert_eq!(picked.len(), 2);
            assert_ne!(picked[0], picked[1]);
            assert_eq!(picked[0], upgrade_at(first));
        }
    }
    assert_eq!(
        upgrades_from_draws(0, 0),
        vec![Upgrade::SpeedUpgrade, Upgrade::DashUpgrade]
    );
    assert_eq!(
        upgrades_from_draws(3, 2),
        vec![Upgrade::IframeUpgrade, Upgrade::FasterRecoveryUpgrade]
    );
    assert_eq!(
        upgrades_from_draws(3, 3),
        vec![Upgrade::IframeUpgrade, Upgrade::RecoveryUpgrade]
    );
}

#[test]
fn offers_follow_the_seeded_generator() {
    let mut seen_first = [false; 6];
    for seed in 0..200u64 {
        let picked = pick_random_upgrades(seed, seed);
        assert_eq!(picked.len(), 2);
        assert_ne!(picked[0], picked[1]);
        assert_eq!(picked, pick_random_upgrades(seed, seed));
        let mut gen = randomize::PCG32::seed(seed, seed);
        let first = randomize::RandRangeU32::new(0, 5).sample(&mut gen);
        let second = randomize::RandRangeU32::new(0, 4).sample(&mut gen);
        assert_eq!(picked, upgrades_from_draws(first, second));
        seen_first[first as usize] = true;
    }
    assert!(seen_first.iter().all(|s| *s));
}

#[test]
fn each_upgrade_changes_its_own_stat() {
    let fresh = || (Player::new(0, 0, 0), Director::new(0));

    let (mut p, mut d) = fresh();
    Upgrade::SpeedUpgrade.apply(&mut p, &mut d);
    assert_eq!(p.speed_bonus, 1100);
    assert_eq!(d, Director::new(0));

    let (mut p, mut d) = fresh();
    Upgrade::FireRateUpgrade.apply(&mut p, &mut d);
    assert_eq!(d.bullet_cooldown_bonus, 900);
    assert_eq!(p.speed_bonus, 1000);

    let (mut p, mut d) = fresh();
    Upgrade::RecoveryUpgrade.apply(&mut p, &mut d);
    assert_eq!(p.regen, 3000);

    let (mut p, mut d) = fresh();
    Upgrade::DashUpgrade.apply(&mut p, &mut d);
    assert_eq!(p.dash_speed, 42_000);
    Upgrade::DashUpgrade.apply(&mut p, &mut d);
    assert_eq!(p.dash_speed, 44_100);

    let (mut p, mut d) = fresh();
    Upgrade::FasterRecoveryUpgrade.apply(&mut p, &mut d);
    assert_eq!(p.regen_timer.duration, 4750);
    assert_eq!(p.regen_timer.start_time, 0);

    let (mut p, mut d) = fresh();
    Upgrade::IframeUpgrade.apply(&mut p, &mut d);
    assert_eq!(p.inv_timer.duration, 1980);
    assert_eq!(p.curr_hp, 100_000);
}

#[test]
fn upgrades_are_known_by_name() {
    assert_eq!(Upgrade::SpeedUpgrade.get_name(), "Speed");
    assert_eq!(Upgrade::FireRateUpgrade.get_name(), "FireRate");
    assert_eq!(Upgrade::RecoveryUpgrade.get_name(), "Recovery");
    assert_eq!(Upgrade::DashUpgrade.get_name(), "Dash");
    assert_eq!(Upgrade::FasterRecoveryUpgrade.get_name(), "FasterRecovery");
    assert_eq!(Upgrade::IframeUpgrade.get_name(), "MoreIframes");
}
