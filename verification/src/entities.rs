//! The game's cast: the shared session state, the thief, the police, the
//! USB pickups, the computer props, the download progress bars, and the
//! two-state machine they all live under.

use vstd::prelude::*;
use crate::geom::{Vec2I, in_range, POS_LIMIT};
use crate::motion::SPEED_LIMIT;
use crate::timer::Timer;

verus! {

/// Default shared enemy speed, in milli-units per second (60 units/s).
pub const ENEMY_SPEED_DEFAULT: i64 = 60_000;

/// How much one "increase enemy speed" popup command adds, in milli-units
/// per second (1 unit/s).
pub const SPEED_INCREMENT: i64 = 1_000;

/// Base player speed, in milli-units per second (240 units/s).
pub const PLAYER_SPEED: i64 = 240_000;

/// Speed multiplier while a dash is active.
pub const DASH_MULT: i64 = 4;

/// One-shot cooldown between dashes, in milliseconds.
pub const DASH_COOLDOWN_MS: u64 = 800;

/// One-shot length of a dash, in milliseconds.
pub const DASH_DURATION_MS: u64 = 100;

/// Enemy re-target periods are drawn from `[RETARGET_MIN_MS, RETARGET_MAX_MS)`.
pub const RETARGET_MIN_MS: i64 = 1_000;

/// Exclusive upper bound of the re-target period draw.
pub const RETARGET_MAX_MS: i64 = 10_000;

/// Repeating period of a download progress tick, in milliseconds (0.25 s).
pub const PROGRESS_TICK_MS: u64 = 250;

/// Repeating period of the popup coin flip, in milliseconds (3 s).
pub const POPUP_TICK_MS: u64 = 3_000;

/// Download progress is clamped to `[0, PROGRESS_MAX]`.
pub const PROGRESS_MAX: u32 = 100;

/// Local offset of a carried pickup from the player, in milli-units
/// (30, 30 units).
pub const CARRY_OFFSET: i64 = 30_000;

/// A progress bar hangs this far above its prop, in milli-units (50 units).
pub const BAR_OFFSET_Y: i64 = 50_000;

/// Number of enemies a fresh session starts with.
pub const STARTING_ENEMIES: u32 = 2;

/// Number of prop/pickup pairs a fresh session starts with.
pub const STARTING_ITEMS: u32 = 2;

/// The two states of the game: playing, or looking at the game-over
/// screen.
#[derive(Clone, Copy, PartialEq, Eq, Structural, Debug)]
pub enum GameState {
    InGame,
    GameOver,
}

/// Session-wide shared state: the speed every enemy steers with, and the
/// score. Created on entering `InGame`, dropped on leaving it.
#[derive(Clone, Copy, PartialEq, Eq, Structural, Debug)]
pub struct Common {
    pub enemy_speed: i64,
    pub score: u32,
}

impl Common {
    /// Shared state the simulation can run with: a non-negative bounded
    /// enemy speed.
    pub open spec fn wf(self) -> bool {
        0 <= self.enemy_speed <= SPEED_LIMIT
    }
}

impl Default for Common {
    /// A fresh session: default enemy speed, no score.
    fn default() -> (c: Common)
        ensures
            c == (Common { enemy_speed: ENEMY_SPEED_DEFAULT, score: 0 }),
            c.wf(),
    {
        Common { enemy_speed: ENEMY_SPEED_DEFAULT, score: 0 }
    }
}

/// The thief. Carrying is not stored here: it is derived from the pickups
/// (a carried pickup rides with the player).
#[derive(Clone, Copy, PartialEq, Eq, Structural, Debug)]
pub struct Player {
    pub pos: Vec2I,
    pub vel: Vec2I,
    pub dash_cooldown: Timer,
    pub dash_duration: Timer,
}

impl Player {
    /// A player the simulation can step: sound one-shot dash timers of the
    /// fixed dash durations.
    pub open spec fn wf(self) -> bool {
        &&& self.dash_cooldown.wf()
        &&& self.dash_duration.wf()
        &&& !self.dash_cooldown.repeating
        &&& !self.dash_duration.repeating
        &&& self.dash_cooldown.duration_ms == DASH_COOLDOWN_MS
        &&& self.dash_duration.duration_ms == DASH_DURATION_MS
    }
}

impl Default for Player {
    /// A fresh player at the origin, at rest, with both dash timers
    /// starting their countdown.
    fn default() -> (p: Player)
        ensures
            p.pos == (Vec2I { x: 0, y: 0 }),
            p.vel == (Vec2I { x: 0, y: 0 }),
            p.dash_cooldown == (Timer {
                duration_ms: DASH_COOLDOWN_MS,
                elapsed_ms: 0,
                repeating: false,
            }),
            p.dash_duration == (Timer {
                duration_ms: DASH_DURATION_MS,
                elapsed_ms: 0,
                repeating: false,
            }),
            p.wf(),
    {
        Player {
            pos: Vec2I { x: 0, y: 0 },
            vel: Vec2I { x: 0, y: 0 },
            dash_cooldown: Timer::new(DASH_COOLDOWN_MS, false),
            dash_duration: Timer::new(DASH_DURATION_MS, false),
        }
    }
}

/// A police officer: position, velocity, the goal it wanders toward, and
/// the repeating clock that picks a new goal.
#[derive(Clone, Copy, PartialEq, Eq, Structural, Debug)]
pub struct Enemy {
    pub pos: Vec2I,
    pub vel: Vec2I,
    pub goal: Vec2I,
    pub change_goal: Timer,
}

impl Enemy {
    /// An enemy the simulation can step: a sound repeating re-target
    /// timer. Bounds on its coordinates are the frame functions' own
    /// preconditions, since one frame can carry them past any fixed bound.
    pub open spec fn wf(self) -> bool {
        &&& self.change_goal.wf()
        &&& self.change_goal.repeating
    }

    /// Makes an enemy at `pos` wandering toward `goal`, re-targeting every
    /// `period_ms` milliseconds.
    pub fn new(pos: Vec2I, goal: Vec2I, period_ms: u64) -> (e: Enemy)
        requires
            RETARGET_MIN_MS <= period_ms < RETARGET_MAX_MS,
            in_range(pos, POS_LIMIT),
            in_range(goal, POS_LIMIT),
        ensures
            e.pos == pos,
            e.goal == goal,
            e.vel == (Vec2I { x: 0, y: 0 }),
            e.change_goal == (Timer { duration_ms: period_ms, elapsed_ms: 0, repeating: true }),
            e.wf(),
    {
        Enemy {
            pos,
            vel: Vec2I { x: 0, y: 0 },
            goal,
            change_goal: Timer::new(period_ms, true),
        }
    }
}

impl Default for Enemy {
    /// An enemy at the origin, at rest, aiming at the origin, with a
    /// randomly drawn re-target period.
    fn default() -> (e: Enemy)
        ensures
            e.pos == (Vec2I { x: 0, y: 0 }),
            e.vel == (Vec2I { x: 0, y: 0 }),
            e.goal == (Vec2I { x: 0, y: 0 }),
            e.change_goal.repeating,
            e.change_goal.elapsed_ms == 0,
            RETARGET_MIN_MS <= e.change_goal.duration_ms < RETARGET_MAX_MS,
            e.wf(),
    {
        let period: i64 = crate::rng::gen_range_i64(RETARGET_MIN_MS, RETARGET_MAX_MS);
        Enemy {
            pos: Vec2I { x: 0, y: 0 },
            vel: Vec2I { x: 0, y: 0 },
            goal: Vec2I { x: 0, y: 0 },
            change_goal: Timer::new(period as u64, true),
        }
    }
}

/// A USB stick. While carried it rides with the player and `pos` is its
/// local offset from the player; otherwise `pos` is its place in the
/// world.
#[derive(Clone, Copy, PartialEq, Eq, Structural, Debug)]
pub struct Pickup {
    pub pos: Vec2I,
    pub carried: bool,
}

/// The position a pickup occupies in the world, resolving a carried
/// pickup's offset against the player carrying it.
pub open spec fn pickup_world_pos(p: Pickup, player_pos: Vec2I) -> Vec2I {
    if p.carried {
        Vec2I { x: (player_pos.x + p.pos.x) as i64, y: (player_pos.y + p.pos.y) as i64 }
    } else {
        p.pos
    }
}

/// A computer: the stationary delivery target.
#[derive(Clone, Copy, PartialEq, Eq, Structural, Debug)]
pub struct Prop {
    pub pos: Vec2I,
}

/// A running download, anchored above its prop: progress counts 0 to 100
/// on a quarter-second clock, and a separate three-second clock gives each
/// of its ticks a coin-flip chance to raise a popup.
#[derive(Clone, Copy, PartialEq, Eq, Structural, Debug)]
pub struct ProgressBar {
    pub pos: Vec2I,
    pub timer: Timer,
    pub timer_popups: Timer,
    pub progress: u32,
}

impl ProgressBar {
    /// A bar the simulation can step: both clocks sound and repeating with
    /// the fixed periods, progress within range.
    pub open spec fn wf(self) -> bool {
        &&& self.timer.wf()
        &&& self.timer.repeating
        &&& self.timer.duration_ms == PROGRESS_TICK_MS
        &&& self.timer_popups.wf()
        &&& self.timer_popups.repeating
        &&& self.timer_popups.duration_ms == POPUP_TICK_MS
        &&& self.progress <= PROGRESS_MAX
    }
}

impl Default for ProgressBar {
    /// A download that just began: progress zero, both clocks starting.
    fn default() -> (b: ProgressBar)
        ensures
            b.pos == (Vec2I { x: 0, y: 0 }),
            b.timer == (Timer { duration_ms: PROGRESS_TICK_MS, elapsed_ms: 0, repeating: true }),
            b.timer_popups == (Timer { duration_ms: POPUP_TICK_MS, elapsed_ms: 0, repeating: true }),
            b.progress == 0,
            b.wf(),
    {
        ProgressBar {
            pos: Vec2I { x: 0, y: 0 },
            timer: Timer::new(PROGRESS_TICK_MS, true),
            timer_popups: Timer::new(POPUP_TICK_MS, true),
            progress: 0,
        }
    }
}

} // verus!
