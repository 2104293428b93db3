//! The player: where it stands, what it has left, and the modes that it
//! passes through.

use vstd::prelude::*;
use crate::animation::{Animation, Rect};
use crate::direction::{axis, axis_of, Direction, HeldKeys};
use crate::fixed::{clamp_i32, lemma_trunc_div_bound, saturate, trunc_div};
use crate::render::{Atlas, Color, DrawCommand, DrawKind};
use crate::spatial::Position;
use crate::timer::Timer;

verus! {

/// One component of a diagonal unit step, in ten-thousandths.
pub const DIAGONAL: i64 = 7071;

/// Side of the player's sprite on screen, in thousandths of a pixel.
pub const PLAYER_SIZE: i32 = 8000;

pub struct Player {
    pub position: Position,
    pub max_hp: i64,
    pub curr_hp: i64,
    pub max_xp: i64,
    pub curr_xp: i64,
    pub level: u32,
    pub flip_x: bool,
    /// Walking speed as a share of the usual ten pixels a second.
    pub speed_bonus: i32,
    /// Health that returns whenever the regeneration timer runs out.
    pub regen: i64,
    pub regen_timer: Timer,
    /// While this timer runs, nothing hurts the player.
    pub inv_timer: Timer,
    /// What one of the player's bullets takes off an enemy.
    pub curr_dmg: i64,
    pub is_dashing: bool,
    pub dash_direction: Option<Direction>,
    pub dashing_timer: Timer,
    /// Dash speed in thousandths of a pixel a second.
    pub dash_speed: i32,
    /// False while the player is dead.
    pub active: bool,
    pub anims: Animation,
}

/// `v` brought into `[lo, hi]`.
pub open spec fn clamp(v: int, lo: int, hi: int) -> int {
    if v < lo {
        lo
    } else if v > hi {
        hi
    } else {
        v
    }
}

/// How far one axis carries the player in `delta` milliseconds: ten pixels a
/// second times the speed bonus, along a unit vector.
pub open spec fn walk_step(pull: int, diagonal: bool, delta: int, bonus: int) -> int {
    trunc_div(pull * (if diagonal { 7071int } else { 10000int }) * delta * bonus, 1_000_000)
}

/// How far a dash carries the player along one axis in `delta`
/// milliseconds.
pub open spec fn dash_step(diagonal: bool, delta: int, speed: int) -> int {
    trunc_div((if diagonal { 7071int } else { 10000int }) * delta * speed, 10_000_000)
}

/// The horizontal sign of a dash direction.
pub open spec fn dash_sign_x(dir: Direction) -> int {
    match dir {
        Direction::Left | Direction::UpLeft | Direction::DownLeft => -1,
        Direction::Right | Direction::UpRight | Direction::DownRight => 1,
        _ => 0,
    }
}

/// The vertical sign of a dash direction, positive downward.
pub open spec fn dash_sign_y(dir: Direction) -> int {
    match dir {
        Direction::Up | Direction::UpLeft | Direction::UpRight => -1,
        Direction::Down | Direction::DownLeft | Direction::DownRight => 1,
        _ => 0,
    }
}

/// The four frames of the idle animation.
pub open spec fn idle_frames() -> Seq<Rect> {
    seq![
        Rect { x: 1000, y: 1000, w: 9000, h: 9000 },
        Rect { x: 10000, y: 1000, w: 9000, h: 9000 },
        Rect { x: 19000, y: 1000, w: 9000, h: 9000 },
        Rect { x: 28000, y: 1000, w: 9000, h: 9000 },
    ]
}

/// The animation is at its beginning, shows `frames` for a fifth of a
/// second each, and repeats.
pub open spec fn loops_from_start(a: Animation, frames: Seq<Rect>) -> bool {
    &&& a.wf()
    &&& a.frames@ == frames
    &&& a.frame_length@ == Seq::new(frames.len(), |i: int| 200u64)
    &&& a.anim_duration == 0
    &&& a.current_frame == 0
    &&& a.current_frame_length == 200
    &&& a.repeating
}

/// The idle animation of the player and of the ground enemies.
pub fn idle_animation() -> (a: Animation)
    ensures
        loops_from_start(a, idle_frames()),
{
    let mut frames: Vec<Rect> = Vec::new();
    frames.push(Rect::new(1000, 1000, 9000, 9000));
    frames.push(Rect::new(10000, 1000, 9000, 9000));
    frames.push(Rect::new(19000, 1000, 9000, 9000));
    frames.push(Rect::new(28000, 1000, 9000, 9000));
    assert(frames@ =~= idle_frames());
    Animation::strip(frames, 200, true)
}

fn step_along(pull: i32, diagonal: bool, delta: u32, bonus: i32) -> (s: i128)
    requires
        -1 <= pull <= 1,
    ensures
        s == walk_step(pull as int, diagonal, delta as int, bonus as int),
        -92233720388247388979200000 <= s <= 92233720388247388979200000,
{
    let k: i128 = if diagonal {
        7071
    } else {
        10000
    };
    let pk: i128 = (pull as i128) * k;
    assert(-10000 <= pk <= 10000);
    assert(-42949672950000 <= pk * delta <= 42949672950000) by (nonlinear_arith)
        requires
            -10000 <= pk <= 10000,
            0 <= delta <= 4294967295,
    ;
    let pkd: i128 = pk * (delta as i128);
    assert(-92233720388247388979200000 <= pkd * bonus <= 92233720388247388979200000)
        by (nonlinear_arith)
        requires
            -42949672950000 <= pkd <= 42949672950000,
            -2147483648 <= bonus <= 2147483648,
    ;
    let n: i128 = pkd * (bonus as i128);
    proof {
        lemma_trunc_div_bound(n as int, 1_000_000, 92233720388247388979200000);
    }
    if n >= 0 {
        n / 1_000_000
    } else {
        -((-n) / 1_000_000)
    }
}

fn dash_along(diagonal: bool, delta: u32, speed: i32) -> (s: i128)
    ensures
        s == dash_step(diagonal, delta as int, speed as int),
        -92233720388247388979200000 <= s <= 92233720388247388979200000,
{
    let k: i128 = if diagonal {
        7071
    } else {
        10000
    };
    let kd: i128 = k * (delta as i128);
    assert(-92233720388247388979200000 <= kd * speed <= 92233720388247388979200000)
        by (nonlinear_arith)
        requires
            0 <= kd <= 42949672950000,
            -2147483648 <= speed <= 2147483648,
    ;
    let n: i128 = kd * (speed as i128);
    proof {
        lemma_trunc_div_bound(n as int, 10_000_000, 92233720388247388979200000);
    }
    if n >= 0 {
        n / 10_000_000
    } else {
        -((-n) / 10_000_000)
    }
}

impl Player {
    /// Health and experience lie in their ranges, and the animation is
    /// sound.
    pub open spec fn wf(&self) -> bool {
        &&& 0 <= self.curr_hp <= self.max_hp
        &&& 0 <= self.curr_xp
        &&& 0 < self.max_xp
        &&& self.anims.wf()
    }

    /// Tells whether the player is sound.
    pub fn is_wf(&self) -> (b: bool)
        ensures
            b == self.wf(),
    {
        0 <= self.curr_hp && self.curr_hp <= self.max_hp && 0 <= self.curr_xp && 0 < self.max_xp
            && self.anims.is_wf()
    }

    /// The player is as it stands at `(x, y)` at the start of a run that
    /// begins at `now`: at full health, without experience, at level one,
    /// with every stat at its first value and every timer just started.
    pub open spec fn fresh(&self, x: i32, y: i32, now: u64) -> bool {
        &&& self.position == (Position { x, y })
        &&& self.max_hp == 100_000
        &&& self.curr_hp == 100_000
        &&& self.max_xp == 100_000
        &&& self.curr_xp == 0
        &&& self.level == 1
        &&& !self.flip_x
        &&& self.speed_bonus == 1000
        &&& self.regen == 1000
        &&& self.regen_timer == (Timer { duration: 5000, start_time: now })
        &&& self.inv_timer == (Timer { duration: 1800, start_time: now })
        &&& self.curr_dmg == 2000
        &&& !self.is_dashing
        &&& self.dash_direction is None
        &&& self.dashing_timer == (Timer { duration: 500, start_time: now })
        &&& self.dash_speed == 40_000
        &&& self.active
        &&& loops_from_start(self.anims, idle_frames())
    }

    /// The player at the start of a run.
    pub fn new(x: i32, y: i32, now: u64) -> (p: Player)
        ensures
            p.wf(),
            p.fresh(x, y, now),
    {
        Player {
            position: Position { x, y },
            max_hp: 100_000,
            curr_hp: 100_000,
            max_xp: 100_000,
            curr_xp: 0,
            level: 1,
            flip_x: false,
            speed_bonus: 1000,
            regen: 1000,
            regen_timer: Timer::new(5000, now),
            inv_timer: Timer::new(1800, now),
            curr_dmg: 2000,
            is_dashing: false,
            dash_direction: None,
            dashing_timer: Timer::new(500, now),
            dash_speed: 40_000,
            active: true,
            anims: idle_animation(),
        }
    }

    pub fn get_position(&self) -> (p: Position)
        ensures
            p == self.position,
    {
        self.position
    }

    /// Where `delta` milliseconds of walking with the held keys lead.
    pub open spec fn walked(&self, delta: u32, keys: HeldKeys) -> Position {
        let a = axis_of(keys.left, keys.right);
        let b = axis_of(keys.down, keys.up);
        let diagonal = a != 0 && b != 0;
        Position {
            x: clamp_i32(self.position.x + walk_step(a, diagonal, delta as int, self.speed_bonus as int)) as i32,
            y: clamp_i32(self.position.y - walk_step(b, diagonal, delta as int, self.speed_bonus as int)) as i32,
        }
    }

    /// Which way the player looks after the keys: left for the left key
    /// alone, right for the right key alone, else as before.
    pub open spec fn facing(&self, keys: HeldKeys) -> bool {
        let a = axis_of(keys.left, keys.right);
        if a == -1 {
            true
        } else if a == 1 {
            false
        } else {
            self.flip_x
        }
    }

    /// Walks for `delta` milliseconds in the direction of the held keys.
    pub fn move_me(&mut self, delta: u32, keys: HeldKeys)
        ensures
            *final(self) == (Player {
                position: old(self).walked(delta, keys),
                flip_x: old(self).facing(keys),
                ..*old(self)
            }),
    {
        let mut x: i32 = self.position.x;
        let mut y: i32 = self.position.y;
        let mut flip_x: bool = self.flip_x;
        move_player(&mut x, &mut y, &mut flip_x, &self.speed_bonus, delta, keys);
        self.position.x = x;
        self.position.y = y;
        self.flip_x = flip_x;
    }

    /// Something that touches the player at `now` hurts it: it is alive, it
    /// does not dash, and its invulnerability has run out.
    pub open spec fn vulnerable_at(&self, now: u64) -> bool {
        self.active && self.curr_hp > 0 && !self.is_dashing && self.inv_timer.finished_at(now)
    }

    pub fn vulnerable(&self, now: u64) -> (v: bool)
        ensures
            v == self.vulnerable_at(now),
    {
        self.active && self.curr_hp > 0 && !self.is_dashing && self.inv_timer.finished(now)
    }

    /// The player after a blow of `amount` at `now`: a vulnerable player
    /// loses that much health, never more than it has nor below nothing
    /// gained above its full health, and is invulnerable from `now` on; any
    /// other player is left as it is.
    pub open spec fn struck(&self, amount: i64, now: u64) -> Player {
        if self.vulnerable_at(now) {
            Player {
                curr_hp: clamp(self.curr_hp - amount, 0, self.max_hp as int) as i64,
                inv_timer: Timer { duration: self.inv_timer.duration, start_time: now },
                ..*self
            }
        } else {
            *self
        }
    }

    /// `self` is `before` but for its health, which is no more than it
    /// was, and its invulnerability.
    pub open spec fn hurt_from(&self, before: Player) -> bool {
        &&& *self == (Player { curr_hp: self.curr_hp, inv_timer: self.inv_timer, ..before })
        &&& self.curr_hp <= before.curr_hp
        &&& self.inv_timer.duration == before.inv_timer.duration
    }

    /// Deals a blow of `amount` to the player at `now` and tells whether it
    /// landed.
    pub fn take_damage(&mut self, amount: i64, now: u64) -> (landed: bool)
        requires
            old(self).wf(),
        ensures
            final(self).wf(),
            landed == old(self).vulnerable_at(now),
            *final(self) == old(self).struck(amount, now),
            0 <= final(self).curr_hp <= final(self).max_hp,
            landed && old(self).inv_timer.duration > 0 ==> !final(self).vulnerable_at(now),
    {
        if self.vulnerable(now) {
            self.curr_hp = damage_player(self.curr_hp, self.max_hp, amount);
            self.inv_timer.restart(now);
            true
        } else {
            false
        }
    }

    /// The player after its health has had the chance to return at `now`:
    /// where the regeneration timer has run out and the player lives, the
    /// regeneration is added, up to full health, and the timer starts anew.
    pub open spec fn regenerated(&self, now: u64) -> Player {
        if self.regen_timer.finished_at(now) && self.active {
            Player {
                curr_hp: clamp(self.curr_hp + self.regen, 0, self.max_hp as int) as i64,
                regen_timer: Timer { duration: self.regen_timer.duration, start_time: now },
                ..*self
            }
        } else {
            *self
        }
    }

    pub fn regenerate(&mut self, now: u64)
        requires
            old(self).wf(),
        ensures
            final(self).wf(),
            *final(self) == old(self).regenerated(now),
    {
        if self.regen_timer.finished(now) && self.active {
            let v: i128 = self.curr_hp as i128 + self.regen as i128;
            self.curr_hp = if v < 0 {
                0
            } else if v > self.max_hp as i128 {
                self.max_hp
            } else {
                v as i64
            };
            self.regen_timer.restart(now);
        }
    }

    /// The player after the dash key: where it is pressed, the player does
    /// not dash yet and the held keys name a direction, a dash begins at
    /// `now` in that direction. The direction asked for is remembered
    /// either way.
    pub open spec fn dash_begun(&self, pressed: bool, keys: HeldKeys, now: u64) -> Player {
        if pressed && !self.is_dashing {
            let dir = crate::direction::direction_of(
                crate::direction::pull_x(keys),
                crate::direction::pull_y(keys),
            );
            if dir is Some {
                Player {
                    dash_direction: dir,
                    is_dashing: true,
                    dashing_timer: Timer { duration: self.dashing_timer.duration, start_time: now },
                    ..*self
                }
            } else {
                Player { dash_direction: dir, ..*self }
            }
        } else {
            *self
        }
    }

    pub fn begin_dash(&mut self, pressed: bool, keys: HeldKeys, now: u64)
        ensures
            *final(self) == old(self).dash_begun(pressed, keys, now),
    {
        if pressed && !self.is_dashing {
            self.dash_direction = crate::direction::get_direction(keys);
            if self.dash_direction.is_some() {
                self.dashing_timer.restart(now);
                self.is_dashing = true;
            }
        }
    }

    /// Where `delta` milliseconds of dashing lead.
    pub open spec fn dashed_to(&self, delta: u32) -> Position {
        match self.dash_direction {
            Some(dir) => {
                let diagonal = dash_sign_x(dir) != 0 && dash_sign_y(dir) != 0;
                let far = dash_step(diagonal, delta as int, self.dash_speed as int);
                Position {
                    x: clamp_i32(self.position.x + dash_sign_x(dir) * far) as i32,
                    y: clamp_i32(self.position.y + dash_sign_y(dir) * far) as i32,
                }
            },
            None => self.position,
        }
    }

    /// The player after `delta` milliseconds of a frame that ends at `now`:
    /// a dashing player is carried along its direction, and stops dashing
    /// where the dash timer has run out.
    pub open spec fn dashed(&self, delta: u32, now: u64) -> Player {
        if self.is_dashing {
            Player {
                position: self.dashed_to(delta),
                is_dashing: !self.dashing_timer.finished_at(now),
                ..*self
            }
        } else {
            *self
        }
    }

    pub fn dash(&mut self, delta: u32, now: u64)
        ensures
            *final(self) == old(self).dashed(delta, now),
    {
        if self.is_dashing {
            match self.dash_direction {
                Some(dir) => {
                    let sx: i128 = match dir {
                        Direction::Left | Direction::UpLeft | Direction::DownLeft => -1,
                        Direction::Right | Direction::UpRight | Direction::DownRight => 1,
                        _ => 0,
                    };
                    let sy: i128 = match dir {
                        Direction::Up | Direction::UpLeft | Direction::UpRight => -1,
                        Direction::Down | Direction::DownLeft | Direction::DownRight => 1,
                        _ => 0,
                    };
                    let far: i128 = dash_along(sx != 0 && sy != 0, delta, self.dash_speed);
                    self.position.x = saturate(self.position.x as i128 + sx * far);
                    self.position.y = saturate(self.position.y as i128 + sy * far);
                },
                None => {},
            }
            if self.dashing_timer.finished(now) {
                self.is_dashing = false;
            }
        }
    }

    /// Adds `gained` experience, which does not take any away.
    pub fn gain_xp(&mut self, gained: i64)
        requires
            old(self).wf(),
        ensures
            final(self).wf(),
            *final(self) == (Player {
                curr_xp: clamp(old(self).curr_xp + if gained > 0 { gained as int } else { 0 }, 0, i64::MAX as int) as i64,
                ..*old(self)
            }),
    {
        if gained > 0 {
            if self.curr_xp > i64::MAX - gained {
                self.curr_xp = i64::MAX;
            } else {
                self.curr_xp = self.curr_xp + gained;
            }
        }
    }

    /// The experience has reached what the next level asks for.
    pub open spec fn xp_full(&self) -> bool {
        self.curr_xp >= self.max_xp
    }

    /// The player as it dies: without health, inactive, and parked far off
    /// the field.
    pub open spec fn dead(&self) -> Player {
        Player {
            curr_hp: 0,
            active: false,
            position: Position { x: -999_000i32, y: -999_000i32 },
            ..*self
        }
    }

    pub fn die(&mut self)
        requires
            old(self).wf(),
        ensures
            final(self).wf(),
            *final(self) == old(self).dead(),
    {
        self.curr_hp = 0;
        self.active = false;
        self.position = Position { x: -999_000, y: -999_000 };
    }

    /// The command that paints the player: its sprite at its place, red
    /// while the invulnerability runs.
    pub open spec fn drawn(&self, frame: Option<Rect>, now: u64) -> DrawCommand {
        DrawCommand {
            kind: DrawKind::Sprite { atlas: Atlas::Player, source: frame },
            x: self.position.x,
            y: self.position.y,
            w: 8000,
            h: 8000,
            flip_x: self.flip_x,
            tint: if self.inv_timer.value_at(now) != 1000 {
                Color { r: 1000, g: 0, b: 0, a: 1000 }
            } else {
                Color { r: 1000, g: 1000, b: 1000, a: 1000 }
            },
        }
    }

    pub fn draw(&self, frame: Option<Rect>, now: u64) -> (c: DrawCommand)
        ensures
            c == self.drawn(frame, now),
    {
        let tint = if self.inv_timer.value(now) != 1000 {
            Color::red()
        } else {
            Color::white()
        };
        DrawCommand {
            kind: DrawKind::Sprite { atlas: Atlas::Player, source: frame },
            x: self.position.x,
            y: self.position.y,
            w: PLAYER_SIZE,
            h: PLAYER_SIZE,
            flip_x: self.flip_x,
            tint,
        }
    }
}

/// A blow that takes something off leaves a sound player sound, and
/// changes nothing but its health, which does not grow, and its
/// invulnerability.
pub proof fn lemma_struck(p: Player, amount: i64, now: u64)
    requires
        p.wf(),
        amount >= 0,
    ensures
        p.struck(amount, now).wf(),
        p.struck(amount, now).hurt_from(p),
{
}

/// The command that paints the collider of a player at `(x, y)`: a red
/// circle of four pixels round the middle of its body.
pub fn draw_player_collider(x: i32, y: i32) -> (c: DrawCommand)
    ensures
        c == (DrawCommand {
            kind: DrawKind::Circle,
            x: clamp_i32(x + 4000) as i32,
            y: clamp_i32(y + 4000) as i32,
            w: 4000,
            h: 4000,
            flip_x: false,
            tint: Color { r: 1000, g: 0, b: 0, a: 470 },
        }),
{
    DrawCommand {
        kind: DrawKind::Circle,
        x: saturate(x as i128 + 4000),
        y: saturate(y as i128 + 4000),
        w: 4000,
        h: 4000,
        flip_x: false,
        tint: Color::from_rgba(255, 0, 0, 120),
    }
}

/// Whatever a blow takes or gives, the health that is left lies between
/// nothing and full.
pub proof fn lemma_health_clamped(hp: i64, amount: i64, max_hp: i64)
    requires
        0 <= max_hp,
    ensures
        0 <= clamp(hp - amount, 0, max_hp as int) <= max_hp,
{
}

/// Experience that fills the bar leads to a level-up that leaves exactly
/// none of it.
pub proof fn lemma_xp_rolls_over(p: Player, gained: i64)
    requires
        p.wf(),
        gained >= 0,
        p.curr_xp + gained >= p.max_xp,
    ensures
        ({
            let xp = clamp(p.curr_xp + gained, 0, i64::MAX as int) as i64;
            (Player { curr_xp: xp, ..p }).xp_full()
        }),
{
}

/// Health `hp` after a blow of `amount`, kept between nothing and `max_hp`.
pub fn damage_player(hp: i64, max_hp: i64, amount: i64) -> (left: i64)
    requires
        0 <= max_hp,
    ensures
        left == clamp(hp - amount, 0, max_hp as int),
        0 <= left <= max_hp,
{
    let v: i128 = hp as i128 - amount as i128;
    if v < 0 {
        0
    } else if v > max_hp as i128 {
        max_hp
    } else {
        v as i64
    }
}

/// Walks a player that is held as loose values: see `Player::move_me`.
pub fn move_player(x: &mut i32, y: &mut i32, flip_x: &mut bool, speed: &i32, delta: u32, keys: HeldKeys)
    ensures
        *final(x) == clamp_i32(
            *old(x) + walk_step(
                axis_of(keys.left, keys.right),
                axis_of(keys.left, keys.right) != 0 && axis_of(keys.down, keys.up) != 0,
                delta as int,
                *speed as int,
            ),
        ),
        *final(y) == clamp_i32(
            *old(y) - walk_step(
                axis_of(keys.down, keys.up),
                axis_of(keys.left, keys.right) != 0 && axis_of(keys.down, keys.up) != 0,
                delta as int,
                *speed as int,
            ),
        ),
        *final(flip_x) == if axis_of(keys.left, keys.right) == -1 {
            true
        } else if axis_of(keys.left, keys.right) == 1 {
            false
        } else {
            *old(flip_x)
        },
{
    let a: i32 = axis(keys.left, keys.right);
    let b: i32 = axis(keys.down, keys.up);
    let diagonal: bool = a != 0 && b != 0;
    let dx: i128 = step_along(a, diagonal, delta, *speed);
    let dy: i128 = step_along(b, diagonal, delta, *speed);
    *x = saturate(*x as i128 + dx);
    *y = saturate(*y as i128 - dy);
    if a == -1 {
        *flip_x = true;
    }
    if a == 1 {
        *flip_x = false;
    }
}

} // verus!
