//! Combat resolution: bullets against enemies, bullets against the player,
//! and what a kill brings.

use vstd::prelude::*;
use crate::animation::Rect;
use crate::bats::BatEnemy;
use crate::bullets::Bullet;
use crate::damage_popup::{lemma_popped_push, popped, DamagePopup, Mark};
use crate::director::{clamp_i64, saturate_i64, tier_after_kill, update_progress_level};
use crate::enemies::{add_shake, shake_plus, Enemies, BLOW_SHAKE, CONTACT_DAMAGE, HIT_SHAKE};
use crate::fixed::{abs, clamp_i32, saturate};
use crate::player::Player;
use crate::remnants::DeadEnemy;
use crate::spatial::{col, collides, Position};

verus! {

/// The distance under which a bullet hits, in thousandths of a pixel.
pub const HIT_RADIUS: i32 = 5000;

/// The middle of a body whose corner is at `at`: two pixels right of and
/// below it.
pub open spec fn middle(at: Position) -> Position {
    Position { x: clamp_i32(at.x + 2000) as i32, y: clamp_i32(at.y + 2000) as i32 }
}

fn middle_of(at: Position) -> (m: Position)
    ensures
        m == middle(at),
{
    Position { x: saturate(at.x as i128 + 2000), y: saturate(at.y as i128 + 2000) }
}

/// The bullet overlaps the body whose corner is at `at`.
pub open spec fn bullet_hits(b: Bullet, at: Position) -> bool {
    collides(b.position(), middle(at), 5000)
}

/// The health that is left of `hp` to an enemy at `at` after the first
/// `upto` bullets: each bullet that overlaps an enemy with health left takes
/// `dmg` off.
pub open spec fn hp_after(hp: i64, at: Position, bullets: Seq<Bullet>, dmg: i64, upto: int) -> i64
    decreases upto,
{
    if upto <= 0 || upto > bullets.len() {
        hp
    } else {
        let h = hp_after(hp, at, bullets, dmg, upto - 1);
        if bullet_hits(bullets[upto - 1], at) && h > 0 {
            clamp_i64(h - dmg) as i64
        } else {
            h
        }
    }
}

/// The bullet at place `j` spends itself on the enemy `e`.
pub open spec fn spends(e: Enemies, bullets: Seq<Bullet>, dmg: i64, j: int) -> bool {
    bullet_hits(bullets[j], e.position) && hp_after(e.hp, e.position, bullets, dmg, j) > 0
}

/// The bullet at place `j` spends itself on one of the first `upto`
/// enemies.
pub open spec fn spent_on(enemies: Seq<Enemies>, upto: int, bullets: Seq<Bullet>, dmg: i64, j: int) -> bool
    decreases upto,
{
    if upto <= 0 || upto > enemies.len() {
        false
    } else {
        spent_on(enemies, upto - 1, bullets, dmg, j) || spends(enemies[upto - 1], bullets, dmg, j)
    }
}

/// The number that a popup shows for a hit of `dmg`: its size in whole
/// points.
pub open spec fn loss_shown(dmg: i64) -> int {
    clamp_i32(abs(dmg as int) / 1000)
}

/// The losses to show over the enemy `e` for the first `upto` bullets.
pub open spec fn marks_over(e: Enemies, bullets: Seq<Bullet>, dmg: i64, upto: int) -> Seq<Mark>
    decreases upto,
{
    if upto <= 0 || upto > bullets.len() {
        Seq::empty()
    } else if spends(e, bullets, dmg, upto - 1) {
        marks_over(e, bullets, dmg, upto - 1).push(
            Mark { x: e.position.x, y: e.position.y, amount: loss_shown(dmg) as i32 },
        )
    } else {
        marks_over(e, bullets, dmg, upto - 1)
    }
}

/// The losses to show for the first `upto` enemies, enemy by enemy.
pub open spec fn hit_marks(enemies: Seq<Enemies>, upto: int, bullets: Seq<Bullet>, dmg: i64) -> Seq<Mark>
    decreases upto,
{
    if upto <= 0 || upto > enemies.len() {
        Seq::empty()
    } else {
        hit_marks(enemies, upto - 1, bullets, dmg) + marks_over(
            enemies[upto - 1],
            bullets,
            dmg,
            bullets.len() as int,
        )
    }
}

/// The screen shake after `hits` more hits, one unit each.
pub open spec fn shaken(shake: i64, hits: nat) -> i64
    decreases hits,
{
    if hits == 0 {
        shake
    } else {
        shake_plus(shaken(shake, (hits - 1) as nat), 1000)
    }
}

fn shown_loss(dmg: i64) -> (amount: i32)
    ensures
        amount == loss_shown(dmg),
{
    let size: i128 = if dmg < 0 {
        -(dmg as i128)
    } else {
        dmg as i128
    };
    saturate(size / 1000)
}

/// Lets every bullet that overlaps an enemy with health left hit it: the
/// bullet is spent, the enemy loses the player's damage, a popup shows the
/// loss and the screen shakes a little more.
pub fn damage_enemy(
    bullets: &mut Vec<Bullet>,
    enemies: &mut Vec<Enemies>,
    dmg_pop: &mut Vec<DamagePopup>,
    screen_shake_amount: &mut i64,
    player_dmg: &i64,
)
    ensures
        final(enemies)@.len() == old(enemies)@.len(),
        forall|i: int|
            0 <= i < old(enemies)@.len() ==> #[trigger] final(enemies)@[i] == (Enemies {
                hp: hp_after(
                    old(enemies)@[i].hp,
                    old(enemies)@[i].position,
                    old(bullets)@,
                    *player_dmg,
                    old(bullets)@.len() as int,
                ),
                ..old(enemies)@[i]
            }),
        final(bullets)@.len() == old(bullets)@.len(),
        forall|j: int|
            0 <= j < old(bullets)@.len() ==> #[trigger] final(bullets)@[j] == (Bullet {
                active: old(bullets)@[j].active && !spent_on(
                    old(enemies)@,
                    old(enemies)@.len() as int,
                    old(bullets)@,
                    *player_dmg,
                    j,
                ),
                ..old(bullets)@[j]
            }),
        popped(
            old(dmg_pop)@,
            final(dmg_pop)@,
            hit_marks(old(enemies)@, old(enemies)@.len() as int, old(bullets)@, *player_dmg),
        ),
        *final(screen_shake_amount) == shaken(
            *old(screen_shake_amount),
            hit_marks(old(enemies)@, old(enemies)@.len() as int, old(bullets)@, *player_dmg).len(),
        ),
{
    let ghost es = enemies@;
    let ghost bs = bullets@;
    let ghost dmg = *player_dmg;
    let ne: usize = enemies.len();
    let nb: usize = bullets.len();
    let amount: i32 = shown_loss(*player_dmg);
    let mut i: usize = 0;
    assert(dmg_pop@.take(dmg_pop@.len() as int) =~= dmg_pop@);
    while i < ne
        invariant
            i <= ne,
            ne == enemies@.len(),
            nb == bullets@.len(),
            es == old(enemies)@,
            bs == old(bullets)@,
            es.len() == ne,
            bs.len() == nb,
            dmg == *player_dmg,
            amount == loss_shown(dmg),
            forall|k: int|
                0 <= k < i ==> #[trigger] enemies@[k] == (Enemies {
                    hp: hp_after(es[k].hp, es[k].position, bs, dmg, nb as int),
                    ..es[k]
                }),
            forall|k: int| i <= k < ne ==> #[trigger] enemies@[k] == es[k],
            forall|j: int|
                0 <= j < nb ==> #[trigger] bullets@[j] == (Bullet {
                    active: bs[j].active && !spent_on(es, i as int, bs, dmg, j),
                    ..bs[j]
                }),
            popped(old(dmg_pop)@, dmg_pop@, hit_marks(es, i as int, bs, dmg)),
            *screen_shake_amount == shaken(
                *old(screen_shake_amount),
                hit_marks(es, i as int, bs, dmg).len(),
            ),
        decreases ne - i,
    {
        let at: Position = enemies[i].position;
        let target: Position = middle_of(at);
        let mut hp: i64 = enemies[i].hp;
        let mut j: usize = 0;
        let ghost e = es[i as int];
        let ghost base = hit_marks(es, i as int, bs, dmg);
        assert(base + marks_over(e, bs, dmg, 0) =~= base);
        while j < nb
            invariant
                i < ne,
                j <= nb,
                ne == enemies@.len(),
                nb == bullets@.len(),
                es.len() == ne,
                bs.len() == nb,
                e == es[i as int],
                at == e.position,
                target == middle(at),
                dmg == *player_dmg,
                amount == loss_shown(dmg),
                base == hit_marks(es, i as int, bs, dmg),
                hp == hp_after(e.hp, at, bs, dmg, j as int),
                forall|k: int| i <= k < ne ==> #[trigger] enemies@[k] == es[k],
                forall|m: int|
                    0 <= m < j ==> #[trigger] bullets@[m] == (Bullet {
                        active: bs[m].active && !spent_on(es, i + 1, bs, dmg, m),
                        ..bs[m]
                    }),
                forall|m: int|
                    j <= m < nb ==> #[trigger] bullets@[m] == (Bullet {
                        active: bs[m].active && !spent_on(es, i as int, bs, dmg, m),
                        ..bs[m]
                    }),
                popped(old(dmg_pop)@, dmg_pop@, base + marks_over(e, bs, dmg, j as int)),
                *screen_shake_amount == shaken(
                    *old(screen_shake_amount),
                    (base + marks_over(e, bs, dmg, j as int)).len(),
                ),
            decreases nb - j,
        {
            let b: Position = Position { x: bullets[j].x, y: bullets[j].y };
            let ghost marks = base + marks_over(e, bs, dmg, j as int);
            if col(b, target, HIT_RADIUS) && hp > 0 {
                bullets[j].active = false;
                let popup = DamagePopup::new(at.x, at.y, amount);
                let ghost m = Mark { x: at.x, y: at.y, amount };
                proof {
                    lemma_popped_push(old(dmg_pop)@, dmg_pop@, marks, popup, m);
                    assert(marks.push(m) =~= base + marks_over(e, bs, dmg, j + 1));
                }
                dmg_pop.push(popup);
                *screen_shake_amount = add_shake(*screen_shake_amount, HIT_SHAKE);
                hp = saturate_i64(hp as i128 - *player_dmg as i128);
            }
            j += 1;
        }
        enemies[i].hp = hp;
        i += 1;
    }
}

/// A bullet at `b` lands on the player `p` at `now`.
pub open spec fn shot_lands(p: Player, b: Bullet, now: u64) -> bool {
    bullet_hits(b, p.position) && p.vulnerable_at(now)
}

/// The player and the screen shake after the first `upto` bullets of the
/// enemies, each taken in its turn: a bullet that lands takes ten points
/// of health, begins the invulnerability and adds five to the shake.
pub open spec fn after_shots(bullets: Seq<Bullet>, upto: int, p: Player, shake: i64, now: u64) -> (
    Player,
    i64,
)
    decreases upto,
{
    if upto <= 0 || upto > bullets.len() {
        (p, shake)
    } else {
        let before = after_shots(bullets, upto - 1, p, shake, now);
        if shot_lands(before.0, bullets[upto - 1], now) {
            (before.0.struck(10_000, now), shake_plus(shake_plus(before.1, 1000), 4000))
        } else {
            before
        }
    }
}

/// The losses to show after the first `upto` bullets of the enemies: ten
/// points over the player for each bullet that landed.
pub open spec fn shot_marks(bullets: Seq<Bullet>, upto: int, p: Player, shake: i64, now: u64) -> Seq<
    Mark,
>
    decreases upto,
{
    if upto <= 0 || upto > bullets.len() {
        Seq::empty()
    } else if shot_lands(after_shots(bullets, upto - 1, p, shake, now).0, bullets[upto - 1], now) {
        shot_marks(bullets, upto - 1, p, shake, now).push(
            Mark { x: p.position.x, y: p.position.y, amount: 10 },
        )
    } else {
        shot_marks(bullets, upto - 1, p, shake, now)
    }
}

/// Shots leave a sound player sound and change nothing of it but its
/// health, which does not grow, and its invulnerability.
pub proof fn lemma_shots_hurt(bullets: Seq<Bullet>, upto: int, p: Player, shake: i64, now: u64)
    requires
        p.wf(),
    ensures
        after_shots(bullets, upto, p, shake, now).0.wf(),
        after_shots(bullets, upto, p, shake, now).0.hurt_from(p),
    decreases upto,
{
    if !(upto <= 0 || upto > bullets.len()) {
        lemma_shots_hurt(bullets, upto - 1, p, shake, now);
        crate::player::lemma_struck(after_shots(bullets, upto - 1, p, shake, now).0, 10_000, now);
    }
}

/// Lets every bullet of the enemies that overlaps a vulnerable player hit
/// it; the bullet is spent and a popup shows the loss.
pub fn bullet_damage_player(
    bullets: &mut Vec<Bullet>,
    player: &mut Player,
    dmg_pop: &mut Vec<DamagePopup>,
    screen_shake_amount: &mut i64,
    now: u64,
)
    requires
        old(player).wf(),
    ensures
        final(player).wf(),
        final(player).hurt_from(*old(player)),
        (*final(player), *final(screen_shake_amount)) == after_shots(
            old(bullets)@,
            old(bullets)@.len() as int,
            *old(player),
            *old(screen_shake_amount),
            now,
        ),
        final(bullets)@.len() == old(bullets)@.len(),
        forall|j: int|
            0 <= j < old(bullets)@.len() ==> #[trigger] final(bullets)@[j] == (Bullet {
                active: old(bullets)@[j].active && !shot_lands(
                    after_shots(old(bullets)@, j, *old(player), *old(screen_shake_amount), now).0,
                    old(bullets)@[j],
                    now,
                ),
                ..old(bullets)@[j]
            }),
        popped(
            old(dmg_pop)@,
            final(dmg_pop)@,
            shot_marks(
                old(bullets)@,
                old(bullets)@.len() as int,
                *old(player),
                *old(screen_shake_amount),
                now,
            ),
        ),
{
    let ghost bs = bullets@;
    let ghost p_start = *player;
    let ghost s_start = *screen_shake_amount;
    let n: usize = bullets.len();
    let target: Position = middle_of(player.position);
    let at: Position = player.position;
    let mut j: usize = 0;
    proof {
        lemma_shots_hurt(bs, n as int, p_start, s_start, now);
    }
    assert(dmg_pop@.take(dmg_pop@.len() as int) =~= dmg_pop@);
    while j < n
        invariant
            j <= n,
            n == bullets@.len(),
            bs == old(bullets)@,
            bs.len() == n,
            p_start == *old(player),
            s_start == *old(screen_shake_amount),
            p_start.wf(),
            player.wf(),
            at == p_start.position,
            target == middle(at),
            (*player, *screen_shake_amount) == after_shots(bs, j as int, p_start, s_start, now),
            forall|m: int|
                0 <= m < j ==> #[trigger] bullets@[m] == (Bullet {
                    active: bs[m].active && !shot_lands(after_shots(bs, m, p_start, s_start, now).0, bs[m], now),
                    ..bs[m]
                }),
            forall|m: int| j <= m < n ==> #[trigger] bullets@[m] == bs[m],
            popped(old(dmg_pop)@, dmg_pop@, shot_marks(bs, j as int, p_start, s_start, now)),
        decreases n - j,
    {
        proof {
            lemma_shots_hurt(bs, j as int, p_start, s_start, now);
        }
        let b: Position = Position { x: bullets[j].x, y: bullets[j].y };
        if col(b, target, HIT_RADIUS) {
            if player.vulnerable(now) {
                bullets[j].active = false;
                let popup = DamagePopup::new(at.x, at.y, 10);
                proof {
                    lemma_popped_push(
                        old(dmg_pop)@,
                        dmg_pop@,
                        shot_marks(bs, j as int, p_start, s_start, now),
                        popup,
                        Mark { x: at.x, y: at.y, amount: 10 },
                    );
                }
                dmg_pop.push(popup);
                *screen_shake_amount = add_shake(*screen_shake_amount, HIT_SHAKE);
                player.take_damage(CONTACT_DAMAGE, now);
                *screen_shake_amount = add_shake(*screen_shake_amount, BLOW_SHAKE);
            }
        }
        j += 1;
    }
}

/// What the kills of a frame have brought: the player's experience, the
/// kill count and the tier.
pub struct Tally {
    pub xp: i64,
    pub kills: u64,
    pub tier: u32,
}

/// A kill of an enemy that was left as `frame` at `(x, y)`.
pub struct Grave {
    pub x: i32,
    pub y: i32,
    pub frame: Option<Rect>,
}

/// The tally after one more kill that is worth `given_xp`: the experience
/// grows by just that, the count by one, and the tier where it is due.
pub open spec fn rewarded(t: Tally, given_xp: i64) -> Tally {
    let kills = if t.kills < u64::MAX {
        (t.kills + 1) as u64
    } else {
        t.kills
    };
    Tally { xp: clamp_i64(t.xp + given_xp) as i64, kills, tier: tier_after_kill(t.tier, kills) }
}

/// `after` is `before` with one fresh remnant for each of `graves` behind
/// it, in their order.
pub open spec fn buried(before: Seq<DeadEnemy>, after: Seq<DeadEnemy>, graves: Seq<Grave>) -> bool {
    &&& after.len() == before.len() + graves.len()
    &&& after.take(before.len() as int) == before
    &&& forall|k: int|
        0 <= k < graves.len() ==> (#[trigger] after[before.len() + k]).fresh(
            graves[k].x,
            graves[k].y,
            graves[k].frame,
        )
}

proof fn lemma_buried_push(
    before: Seq<DeadEnemy>,
    after: Seq<DeadEnemy>,
    graves: Seq<Grave>,
    d: DeadEnemy,
    g: Grave,
)
    requires
        buried(before, after, graves),
        d.fresh(g.x, g.y, g.frame),
    ensures
        buried(before, after.push(d), graves.push(g)),
{
    let after2 = after.push(d);
    let graves2 = graves.push(g);
    assert(after2.take(before.len() as int) =~= after.take(before.len() as int));
    assert forall|k: int| 0 <= k < graves2.len() implies (#[trigger] after2[before.len() + k]).fresh(
        graves2[k].x,
        graves2[k].y,
        graves2[k].frame,
    ) by {
        if k < graves.len() {
            assert(after2[before.len() + k] == after[before.len() + k]);
        }
    }
}

/// The tally after the kills among the first `upto` ground enemies: every
/// enemy without health is a kill.
pub open spec fn ground_tally(enemies: Seq<Enemies>, upto: int, t: Tally) -> Tally
    decreases upto,
{
    if upto <= 0 || upto > enemies.len() {
        t
    } else if enemies[upto - 1].hp <= 0 {
        rewarded(ground_tally(enemies, upto - 1, t), enemies[upto - 1].given_xp)
    } else {
        ground_tally(enemies, upto - 1, t)
    }
}

/// The kills among the first `upto` ground enemies.
pub open spec fn ground_graves(enemies: Seq<Enemies>, upto: int) -> Seq<Grave>
    decreases upto,
{
    if upto <= 0 || upto > enemies.len() {
        Seq::empty()
    } else if enemies[upto - 1].hp <= 0 {
        ground_graves(enemies, upto - 1).push(
            Grave {
                x: enemies[upto - 1].position.x,
                y: enemies[upto - 1].position.y,
                frame: enemies[upto - 1].curr_frame,
            },
        )
    } else {
        ground_graves(enemies, upto - 1)
    }
}

/// The tally after the kills among the first `upto` flying enemies.
pub open spec fn flying_tally(enemies: Seq<BatEnemy>, upto: int, t: Tally) -> Tally
    decreases upto,
{
    if upto <= 0 || upto > enemies.len() {
        t
    } else if enemies[upto - 1].hp <= 0 {
        rewarded(flying_tally(enemies, upto - 1, t), enemies[upto - 1].given_xp)
    } else {
        flying_tally(enemies, upto - 1, t)
    }
}

/// The kills among the first `upto` flying enemies.
pub open spec fn flying_graves(enemies: Seq<BatEnemy>, upto: int) -> Seq<Grave>
    decreases upto,
{
    if upto <= 0 || upto > enemies.len() {
        Seq::empty()
    } else if enemies[upto - 1].hp <= 0 {
        flying_graves(enemies, upto - 1).push(
            Grave { x: enemies[upto - 1].x, y: enemies[upto - 1].y, frame: enemies[upto - 1].curr_frame },
        )
    } else {
        flying_graves(enemies, upto - 1)
    }
}

fn reward(player_xp: &mut i64, kill_count: &mut u64, progression: &mut u32, given_xp: i64)
    ensures
        (Tally { xp: *final(player_xp), kills: *final(kill_count), tier: *final(progression) })
            == rewarded(
            Tally { xp: *old(player_xp), kills: *old(kill_count), tier: *old(progression) },
            given_xp,
        ),
        *final(progression) >= *old(progression),
{
    *player_xp = saturate_i64(*player_xp as i128 + given_xp as i128);
    if *kill_count < u64::MAX {
        *kill_count = *kill_count + 1;
    }
    update_progress_level(progression, *kill_count);
}

/// Resolves the kills among the ground enemies: every enemy without health
/// is marked dead, gives the player the experience that it was worth when
/// it appeared, counts as a kill toward the tier, and leaves a remnant.
pub fn kill_enemies(
    enemies: &mut Vec<Enemies>,
    player_xp: &mut i64,
    dead_enemies: &mut Vec<DeadEnemy>,
    kill_count: &mut u64,
    progression: &mut u32,
)
    ensures
        final(enemies)@.len() == old(enemies)@.len(),
        forall|i: int|
            0 <= i < old(enemies)@.len() ==> #[trigger] final(enemies)@[i] == (Enemies {
                alive: old(enemies)@[i].alive && old(enemies)@[i].hp > 0,
                ..old(enemies)@[i]
            }),
        (Tally { xp: *final(player_xp), kills: *final(kill_count), tier: *final(progression) })
            == ground_tally(
            old(enemies)@,
            old(enemies)@.len() as int,
            Tally { xp: *old(player_xp), kills: *old(kill_count), tier: *old(progression) },
        ),
        *final(progression) >= *old(progression),
        buried(
            old(dead_enemies)@,
            final(dead_enemies)@,
            ground_graves(old(enemies)@, old(enemies)@.len() as int),
        ),
{
    let ghost es = enemies@;
    let ghost t_start = Tally { xp: *player_xp, kills: *kill_count, tier: *progression };
    let n: usize = enemies.len();
    let mut i: usize = 0;
    assert(dead_enemies@.take(dead_enemies@.len() as int) =~= dead_enemies@);
    while i < n
        invariant
            i <= n,
            n == enemies@.len(),
            es == old(enemies)@,
            es.len() == n,
            t_start == (Tally { xp: *old(player_xp), kills: *old(kill_count), tier: *old(progression) }),
            forall|k: int|
                0 <= k < i ==> #[trigger] enemies@[k] == (Enemies {
                    alive: es[k].alive && es[k].hp > 0,
                    ..es[k]
                }),
            forall|k: int| i <= k < n ==> #[trigger] enemies@[k] == es[k],
            (Tally { xp: *player_xp, kills: *kill_count, tier: *progression }) == ground_tally(
                es,
                i as int,
                t_start,
            ),
            *progression >= *old(progression),
            buried(old(dead_enemies)@, dead_enemies@, ground_graves(es, i as int)),
        decreases n - i,
    {
        if enemies[i].hp <= 0 {
            enemies[i].alive = false;
            reward(player_xp, kill_count, progression, enemies[i].get_given_xp());
            let at: Position = enemies[i].position;
            let frame: Option<Rect> = enemies[i].curr_frame;
            let remnant = DeadEnemy::new(at.x, at.y, frame);
            proof {
                lemma_buried_push(
                    old(dead_enemies)@,
                    dead_enemies@,
                    ground_graves(es, i as int),
                    remnant,
                    Grave { x: at.x, y: at.y, frame },
                );
            }
            dead_enemies.push(remnant);
        }
        i += 1;
    }
}

/// Resolves the kills among the flying enemies, as `kill_enemies` does
/// among the ground enemies.
pub fn kill_bat_enemies(
    enemies: &mut Vec<BatEnemy>,
    player_xp: &mut i64,
    dead_enemies: &mut Vec<DeadEnemy>,
    kill_count: &mut u64,
    progression: &mut u32,
)
    ensures
        final(enemies)@.len() == old(enemies)@.len(),
        forall|i: int|
            0 <= i < old(enemies)@.len() ==> #[trigger] final(enemies)@[i] == (BatEnemy {
                active: old(enemies)@[i].active && old(enemies)@[i].hp > 0,
                ..old(enemies)@[i]
            }),
        (Tally { xp: *final(player_xp), kills: *final(kill_count), tier: *final(progression) })
            == flying_tally(
            old(enemies)@,
            old(enemies)@.len() as int,
            Tally { xp: *old(player_xp), kills: *old(kill_count), tier: *old(progression) },
        ),
        *final(progression) >= *old(progression),
        buried(
            old(dead_enemies)@,
            final(dead_enemies)@,
            flying_graves(old(enemies)@, old(enemies)@.len() as int),
        ),
{
    let ghost es = enemies@;
    let ghost t_start = Tally { xp: *player_xp, kills: *kill_count, tier: *progression };
    let n: usize = enemies.len();
    let mut i: usize = 0;
    assert(dead_enemies@.take(dead_enemies@.len() as int) =~= dead_enemies@);
    while i < n
        invariant
            i <= n,
            n == enemies@.len(),
            es == old(enemies)@,
            es.len() == n,
            t_start == (Tally { xp: *old(player_xp), kills: *old(kill_count), tier: *old(progression) }),
            forall|k: int|
                0 <= k < i ==> #[trigger] enemies@[k] == (BatEnemy {
                    active: es[k].active && es[k].hp > 0,
                    ..es[k]
                }),
            forall|k: int| i <= k < n ==> #[trigger] enemies@[k] == es[k],
            (Tally { xp: *player_xp, kills: *kill_count, tier: *progression }) == flying_tally(
                es,
                i as int,
                t_start,
            ),
            *progression >= *old(progression),
            buried(old(dead_enemies)@, dead_enemies@, flying_graves(es, i as int)),
        decreases n - i,
    {
        if enemies[i].hp <= 0 {
            enemies[i].active = false;
            reward(player_xp, kill_count, progression, enemies[i].given_xp);
            let x: i32 = enemies[i].x;
            let y: i32 = enemies[i].y;
            let frame: Option<Rect> = enemies[i].curr_frame;
            let remnant = DeadEnemy::new(x, y, frame);
            proof {
                lemma_buried_push(
                    old(dead_enemies)@,
                    dead_enemies@,
                    flying_graves(es, i as int),
                    remnant,
                    Grave { x, y, frame },
                );
            }
            dead_enemies.push(remnant);
        }
        i += 1;
    }
}

/// Whatever happens to a ground enemy between its appearance and its
/// death leaves what its kill is worth as it was, and the kill grants the
/// player just that, whatever the tier has become since.
pub proof fn lemma_given_xp_is_fixed(
    e: Enemies,
    target: Position,
    delta: u32,
    millis: u64,
    bullets: Seq<Bullet>,
    dmg: i64,
    others: Seq<Enemies>,
    t: Tally,
)
    ensures
        e.homed(target, delta).given_xp == e.given_xp,
        e.animated(millis).given_xp == e.given_xp,
        (Enemies {
            position: crate::enemies::shoved_along(e.position, others, 0),
            ..e
        }).given_xp == e.given_xp,
        (Enemies {
            hp: hp_after(e.hp, e.position, bullets, dmg, bullets.len() as int),
            ..e
        }).given_xp == e.given_xp,
        e.hp <= 0 ==> ground_tally(seq![e], 1, t).xp == clamp_i64(t.xp + e.given_xp),
        e.hp > 0 ==> ground_tally(seq![e], 1, t).xp == t.xp,
{
    assert(ground_tally(seq![e], 0, t) == t);
}

/// The same for a flying enemy.
pub proof fn lemma_bat_given_xp_is_fixed(e: BatEnemy, delta: u32, millis: u64, now: u64, t: Tally)
    ensures
        e.flown(delta).given_xp == e.given_xp,
        e.animated(millis).given_xp == e.given_xp,
        e.cleaned(now).given_xp == e.given_xp,
        e.hp <= 0 ==> flying_tally(seq![e], 1, t).xp == clamp_i64(t.xp + e.given_xp),
        e.hp > 0 ==> flying_tally(seq![e], 1, t).xp == t.xp,
{
    assert(flying_tally(seq![e], 0, t) == t);
}

} // verus!
