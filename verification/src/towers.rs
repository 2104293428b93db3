//! Turrets: they stand still, shoot at a player in range once a second, and
//! are gone after five seconds.

use vstd::prelude::*;
use crate::animation::Rect;
use crate::bullets::{fired, Bullet, AIM_RANGE};
use crate::fixed::{clamp_i32, cos_milli, cosine, saturate};
use crate::pool::Pooled;
use crate::random::random_in_range;
use crate::render::{Atlas, Color, DrawCommand, DrawKind};
use crate::spatial::{capped_distance, dist, normalized, unit_vector, Position};
use crate::timer::Timer;

verus! {

/// A turret.
#[derive(Clone, Copy, Debug, PartialEq, Eq, Structural)]
pub struct TowerEnemy {
    pub x: i32,
    pub y: i32,
    /// The wait between two shots.
    pub bullet_cooldown: Timer,
    /// The time that the turret stands for.
    pub activity_cooldown: Timer,
    pub active: bool,
}

impl TowerEnemy {
    /// Where the turret stands.
    pub open spec fn position(&self) -> Position {
        Position { x: self.x, y: self.y }
    }

    /// A turret at `(x, y)` that was set up at `now`.
    pub fn new(x: i32, y: i32, now: u64) -> (t: TowerEnemy)
        ensures
            t == (TowerEnemy {
                x,
                y,
                bullet_cooldown: Timer { duration: 1000, start_time: now },
                activity_cooldown: Timer { duration: 5000, start_time: now },
                active: true,
            }),
    {
        TowerEnemy {
            x,
            y,
            bullet_cooldown: Timer::new(1000, now),
            activity_cooldown: Timer::new(5000, now),
            active: true,
        }
    }

    /// The turret shoots at `now` at a player who stands at `player`: its
    /// wait is over and the player is in range.
    pub open spec fn fires(&self, player: Position, now: u64) -> bool {
        self.bullet_cooldown.finished_at(now) && capped_distance(self.position(), player, 128000)
            < 128000
    }

    /// The bullet that the turret shoots at a player who stands at `player`.
    pub open spec fn shot(&self, player: Position) -> Bullet {
        fired(self.x, self.y, normalized(self.x - player.x, self.y - player.y))
    }

    /// The turret after its turn at `now`: a shot begins a new wait, and
    /// the end of its time takes the turret away.
    pub open spec fn updated(self, player: Position, now: u64) -> TowerEnemy {
        TowerEnemy {
            bullet_cooldown: if self.fires(player, now) {
                Timer { duration: self.bullet_cooldown.duration, start_time: now }
            } else {
                self.bullet_cooldown
            },
            active: self.active && !self.activity_cooldown.finished_at(now),
            ..self
        }
    }

    /// Gives the turret its turn at `now` against a player who stands at
    /// `(player_x, player_y)`.
    pub fn update(&mut self, player_x: i32, player_y: i32, bullets: &mut Vec<Bullet>, now: u64)
        ensures
            *final(self) == old(self).updated(Position { x: player_x, y: player_y }, now),
            final(bullets)@ == if old(self).fires(Position { x: player_x, y: player_y }, now) {
                old(bullets)@.push(old(self).shot(Position { x: player_x, y: player_y }))
            } else {
                old(bullets)@
            },
    {
        let player = Position { x: player_x, y: player_y };
        let at = Position { x: self.x, y: self.y };
        if self.bullet_cooldown.finished(now) {
            let d: i32 = dist(at, player, AIM_RANGE);
            if d < AIM_RANGE {
                let dir: (i32, i32) = unit_vector(player, at);
                bullets.push(
                    Bullet {
                        x: saturate(self.x as i128 + 2000),
                        y: saturate(self.y as i128 + 2000),
                        dir_x: dir.0,
                        dir_y: dir.1,
                        active: true,
                    },
                );
                self.bullet_cooldown.restart(now);
            }
        }
        if self.activity_cooldown.finished(now) {
            self.active = false;
        }
    }

    /// The command that paints the turret.
    pub open spec fn drawn(self) -> DrawCommand {
        DrawCommand {
            kind: DrawKind::Sprite {
                atlas: Atlas::Enemies,
                source: Some(Rect { x: 1000, y: 20000, w: 9000, h: 9000 }),
            },
            x: self.x,
            y: self.y,
            w: 9000,
            h: 9000,
            flip_x: false,
            tint: Color { r: 1000, g: 1000, b: 1000, a: 1000 },
        }
    }
}

impl Pooled for TowerEnemy {
    open spec fn live_spec(&self) -> bool {
        self.active
    }

    fn live(&self) -> (b: bool) {
        self.active
    }
}

/// The bullets that the first `upto` turrets shoot at `now`, in their
/// order.
pub open spec fn shots(towers: Seq<TowerEnemy>, upto: int, player: Position, now: u64) -> Seq<Bullet>
    decreases upto,
{
    if upto <= 0 || upto > towers.len() {
        Seq::empty()
    } else if towers[upto - 1].fires(player, now) {
        shots(towers, upto - 1, player, now).push(towers[upto - 1].shot(player))
    } else {
        shots(towers, upto - 1, player, now)
    }
}

/// Gives every turret its turn.
pub fn update_tower_enemies(
    enemies: &mut Vec<TowerEnemy>,
    player_x: &i32,
    player_y: &i32,
    bullets: &mut Vec<Bullet>,
    now: u64,
)
    ensures
        final(enemies)@.len() == old(enemies)@.len(),
        forall|i: int|
            0 <= i < old(enemies)@.len() ==> #[trigger] final(enemies)@[i] == old(
                enemies
            )@[i].updated(Position { x: *player_x, y: *player_y }, now),
        final(bullets)@ == old(bullets)@ + shots(
            old(enemies)@,
            old(enemies)@.len() as int,
            Position { x: *player_x, y: *player_y },
            now,
        ),
{
    let ghost player = Position { x: *player_x, y: *player_y };
    let n: usize = enemies.len();
    let mut i: usize = 0;
    assert(bullets@ =~= old(bullets)@ + shots(old(enemies)@, 0, player, now));
    while i < n
        invariant
            i <= n,
            n == enemies@.len(),
            n == old(enemies)@.len(),
            player == (Position { x: *player_x, y: *player_y }),
            forall|k: int|
                0 <= k < i ==> #[trigger] enemies@[k] == old(enemies)@[k].updated(player, now),
            forall|k: int| i <= k < n ==> #[trigger] enemies@[k] == old(enemies)@[k],
            bullets@ == old(bullets)@ + shots(old(enemies)@, i as int, player, now),
        decreases n - i,
    {
        enemies[i].update(*player_x, *player_y, bullets, now);
        i += 1;
        assert(bullets@ =~= old(bullets)@ + shots(old(enemies)@, i as int, player, now));
    }
}

/// The commands for the standing turrets of `s`, in their order.
pub open spec fn painted_towers(s: Seq<TowerEnemy>) -> Seq<DrawCommand> {
    s.filter_map(
        |t: TowerEnemy|
            if t.active {
                Some(t.drawn())
            } else {
                None
            },
    )
}

/// What there is to paint of the pool: the turrets that still stand.
pub fn draw_tower_enemies(enemies: &Vec<TowerEnemy>) -> (commands: Vec<DrawCommand>)
    ensures
        commands@ == painted_towers(enemies@),
{
    let ghost f = |t: TowerEnemy|
        if t.active {
            Some(t.drawn())
        } else {
            None
        };
    let mut commands: Vec<DrawCommand> = Vec::new();
    let n: usize = enemies.len();
    let mut i: usize = 0;
    assert(enemies@.take(0).filter_map(f) =~= Seq::<DrawCommand>::empty());
    while i < n
        invariant
            i <= n,
            n == enemies@.len(),
            f == |t: TowerEnemy|
                if t.active {
                    Some(t.drawn())
                } else {
                    None
                },
            commands@ == enemies@.take(i as int).filter_map(f),
        decreases n - i,
    {
        proof {
            enemies@.lemma_filter_map_take_succ(f, i as int);
        }
        if enemies[i].active {
            commands.push(
                DrawCommand {
                    kind: DrawKind::Sprite {
                        atlas: Atlas::Enemies,
                        source: Some(Rect::new(1000, 20000, 9000, 9000)),
                    },
                    x: enemies[i].x,
                    y: enemies[i].y,
                    w: 9000,
                    h: 9000,
                    flip_x: false,
                    tint: Color::white(),
                },
            );
        }
        i += 1;
    }
    assert(enemies@.take(n as int) =~= enemies@);
    commands
}

/// Where a turret is set up for a player at `(px, py)`: thirty-two pixels
/// off, at `angle` thousandths of a radian.
pub open spec fn tower_spawn_point(px: i32, py: i32, angle: i32) -> Position {
    Position {
        x: clamp_i32(px + 32 * cosine(angle as int)) as i32,
        y: clamp_i32(py + 32 * cosine(angle - 1571)) as i32,
    }
}

/// Sets a turret up at the spawn point that `angle` names.
pub fn spawn_tower_at(enemies: &mut Vec<TowerEnemy>, player_pos_x: i32, player_pos_y: i32, angle: i32, now: u64)
    ensures
        final(enemies)@ == old(enemies)@.push(
            TowerEnemy {
                x: tower_spawn_point(player_pos_x, player_pos_y, angle).x,
                y: tower_spawn_point(player_pos_x, player_pos_y, angle).y,
                bullet_cooldown: Timer { duration: 1000, start_time: now },
                activity_cooldown: Timer { duration: 5000, start_time: now },
                active: true,
            },
        ),
{
    let c: i32 = cos_milli(angle as i64);
    let s: i32 = cos_milli(angle as i64 - 1571);
    let x: i32 = saturate(player_pos_x as i128 + 32 * (c as i128));
    let y: i32 = saturate(player_pos_y as i128 + 32 * (s as i128));
    enemies.push(TowerEnemy::new(x, y, now));
}

/// Sets a turret up on the circle of thirty-two pixels round the player, at
/// an angle that chance picks.
pub fn spawn_tower(enemies: &mut Vec<TowerEnemy>, player_pos_x: i32, player_pos_y: i32, now: u64)
    ensures
        exists|angle: i32|
            0 <= angle < 6283 && final(enemies)@ == old(enemies)@.push(
                TowerEnemy {
                    x: (#[trigger] tower_spawn_point(player_pos_x, player_pos_y, angle)).x,
                    y: tower_spawn_point(player_pos_x, player_pos_y, angle).y,
                    bullet_cooldown: Timer { duration: 1000, start_time: now },
                    activity_cooldown: Timer { duration: 5000, start_time: now },
                    active: true,
                },
            ),
        final(enemies)@.len() == old(enemies)@.len() + 1,
{
    let angle: i32 = random_in_range(0, 6283);
    spawn_tower_at(enemies, player_pos_x, player_pos_y, angle, now);
}

} // verus!
