//! The session itself: every live game object, the two-state machine over
//! them, and the systems that advance one frame — steering, movement,
//! boundary correction, collision handling, pickup and delivery, download
//! progress, and the popup command effects.

use vstd::prelude::*;
use crate::entities::{Common, Enemy, GameState, Pickup, Player, ProgressBar, Prop, pickup_world_pos};
use crate::entities::{BAR_OFFSET_Y, CARRY_OFFSET, PROGRESS_MAX, RETARGET_MAX_MS, RETARGET_MIN_MS, SPEED_INCREMENT, STARTING_ENEMIES, STARTING_ITEMS};
use crate::geom::{Vec2I, WindowSize, in_range, in_window, spec_collides, window_wf};
use crate::geom::{spec_bottom, spec_left, spec_right, spec_top};
use crate::geom::{COORD_LIMIT, POS_LIMIT};
use crate::geom::collides;
use crate::fixed::abs_int;
use crate::motion::{drag_vel, integrate_pos, pull_vel, steer_delta};
use crate::motion::{apply_drag, integrate, pull_inside, steer};
use crate::motion::{DT_LIMIT_MS, SPEED_LIMIT, VEL_LIMIT, VEL_PEAK};
use crate::input::{InputState, check_restart, keyboard_input, spec_dash_cooldown_after, spec_dash_duration_after, spec_vel_after_input, spec_wants_restart};
use crate::popups::{PopupCommand, PopupRequest, popup_request_wf, insert_random_popup};
use crate::rng::{gen_range_i64, random_bool};
use crate::timer::Timer;

verus! {

/// Loose bound on positions of the stationary scenery (pickups, props,
/// bars) and on positions after one frame of movement.
pub const POS_SOFT: i64 = 200_000_000_000;

/// Everything a session holds: the state machine, the shared state, the
/// cast, the one-shot event queues drained once per frame, the outbound
/// popup requests, and whether the game-over screen is up.
pub struct World {
    pub state: GameState,
    pub common: Common,
    pub player: Player,
    pub enemies: Vec<Enemy>,
    pub pickups: Vec<Pickup>,
    pub props: Vec<Prop>,
    pub bars: Vec<ProgressBar>,
    /// Queued requests to spawn one prop/pickup pair each.
    pub item_events: u32,
    /// Queued requests to spawn one enemy each.
    pub enemy_events: u32,
    /// Outbound requests for the popup collaborator, drained by the caller.
    pub popup_requests: Vec<PopupRequest>,
    /// The game-over banner and restart button are on screen.
    pub game_over_ui: bool,
}

impl World {
    /// At most one pickup is carried, and a carried pickup rides at the
    /// fixed local offset from the player.
    pub open spec fn carry_wf(self) -> bool {
        &&& forall|i: int, j: int|
            0 <= i < self.pickups@.len() && 0 <= j < self.pickups@.len()
                && self.pickups@[i].carried && self.pickups@[j].carried ==> i == j
        &&& forall|i: int|
            0 <= i < self.pickups@.len() && self.pickups@[i].carried
                ==> self.pickups@[i].pos == (Vec2I { x: CARRY_OFFSET, y: CARRY_OFFSET })
    }

    /// A session the simulation can step: sound shared state, sound
    /// timers everywhere, progress in range, and a sound carry relation.
    pub open spec fn wf(self) -> bool {
        &&& self.common.wf()
        &&& self.player.wf()
        &&& forall|i: int| 0 <= i < self.enemies@.len() ==> self.enemies@[i].wf()
        &&& forall|i: int| 0 <= i < self.bars@.len() ==> self.bars@[i].wf()
        &&& self.carry_wf()
    }

    /// The coordinate bounds one frame step asks for: every mover and
    /// every piece of scenery within steering range.
    pub open spec fn step_bounds(self) -> bool {
        &&& in_range(self.player.pos, POS_LIMIT)
        &&& in_range(self.player.vel, VEL_LIMIT)
        &&& forall|i: int|
            0 <= i < self.enemies@.len() ==> in_range(#[trigger] self.enemies@[i].pos, POS_LIMIT)
                && in_range(self.enemies@[i].vel, VEL_LIMIT) && in_range(
                self.enemies@[i].goal,
                POS_LIMIT,
            )
        &&& forall|i: int| 0 <= i < self.pickups@.len() ==> in_range(
            #[trigger] self.pickups@[i].pos,
            POS_LIMIT,
        )
        &&& forall|i: int| 0 <= i < self.props@.len() ==> in_range(
            #[trigger] self.props@[i].pos,
            POS_LIMIT,
        )
    }

    /// The player is carrying a pickup.
    pub open spec fn spec_is_carrying(self) -> bool {
        exists|i: int| 0 <= i < self.pickups@.len() && self.pickups@[i].carried
    }

    /// Whether the player is carrying a pickup.
    pub fn is_carrying(&self) -> (r: bool)
        ensures
            r == self.spec_is_carrying(),
    {
        let mut i: usize = 0;
        while i < self.pickups.len()
            invariant
                i <= self.pickups@.len(),
                forall|j: int| 0 <= j < i ==> !self.pickups@[j].carried,
            decreases self.pickups@.len() - i,
        {
            if self.pickups[i].carried {
                return true;
            }
            i = i + 1;
        }
        false
    }
}

/// A uniformly random position inside the window rectangle, as fresh
/// goals and scenery spawns use it: each coordinate is drawn from the
/// half-open range from the low edge to the high edge.
pub fn random_window_position(win: WindowSize) -> (p: Vec2I)
    requires
        window_wf(win),
    ensures
        spec_left(win) <= p.x < spec_right(win),
        spec_bottom(win) <= p.y < spec_top(win),
        in_window(p, win),
        in_range(p, POS_LIMIT),
{
    let right: i64 = win.width / 2;
    let top: i64 = win.height / 2;
    let x: i64 = gen_range_i64(-right, right);
    let y: i64 = gen_range_i64(-top, top);
    Vec2I { x, y }
}

/// The velocity an enemy steers to this frame: its old velocity plus the
/// steering force toward `goal`.
pub open spec fn vel_steered(e: Enemy, goal: Vec2I, speed: i64) -> Vec2I {
    Vec2I {
        x: (e.vel.x + steer_delta(e.pos, goal, speed).x) as i64,
        y: (e.vel.y + steer_delta(e.pos, goal, speed).y) as i64,
    }
}

/// One frame of wandering for every enemy: an enemy whose re-target clock
/// completes draws a fresh goal inside the window, and every enemy whose
/// goal lies beyond the six-unit margin accumulates a steering force
/// toward it, scaled by the shared speed. Positions are not moved here.
pub fn update_enemies(enemies: &mut Vec<Enemy>, dt_ms: u64, win: WindowSize, speed: i64)
    requires
        forall|i: int| 0 <= i < old(enemies)@.len() ==> (#[trigger] old(enemies)@[i]).wf()
            && in_range(old(enemies)@[i].pos, POS_LIMIT) && in_range(
            old(enemies)@[i].goal,
            POS_LIMIT,
        ) && in_range(old(enemies)@[i].vel, VEL_LIMIT),
        window_wf(win),
        0 <= speed <= SPEED_LIMIT,
        dt_ms <= DT_LIMIT_MS,
    ensures
        final(enemies)@.len() == old(enemies)@.len(),
        forall|i: int|
            0 <= i < old(enemies)@.len() ==> {
                let e0 = old(enemies)@[i];
                let e1 = #[trigger] final(enemies)@[i];
                &&& e1.pos == e0.pos
                &&& e1.change_goal == e0.change_goal.spec_after(dt_ms)
                &&& (if e0.change_goal.spec_fires(dt_ms) {
                    in_window(e1.goal, win)
                } else {
                    e1.goal == e0.goal
                })
                &&& e1.vel == vel_steered(e0, e1.goal, speed)
                &&& e1.wf()
                &&& in_range(e1.goal, POS_LIMIT)
                &&& in_range(e1.vel, VEL_PEAK)
            },
{
    let mut i: usize = 0;
    while i < enemies.len()
        invariant
            forall|j: int| i <= j < enemies@.len() ==> enemies@[j] == old(enemies)@[j],
            enemies@.len() == old(enemies)@.len(),
            forall|j: int| 0 <= j < old(enemies)@.len() ==> (#[trigger] old(enemies)@[j]).wf()
                && in_range(old(enemies)@[j].pos, POS_LIMIT) && in_range(
                old(enemies)@[j].goal,
                POS_LIMIT,
            ) && in_range(old(enemies)@[j].vel, VEL_LIMIT),
            forall|j: int|
                0 <= j < i ==> {
                    let e0 = old(enemies)@[j];
                    let e1 = #[trigger] enemies@[j];
                    &&& e1.pos == e0.pos
                    &&& e1.change_goal == e0.change_goal.spec_after(dt_ms)
                    &&& (if e0.change_goal.spec_fires(dt_ms) {
                        in_window(e1.goal, win)
                    } else {
                        e1.goal == e0.goal
                    })
                    &&& e1.vel == vel_steered(e0, e1.goal, speed)
                    &&& e1.wf()
                    &&& in_range(e1.goal, POS_LIMIT)
                    &&& in_range(e1.vel, VEL_PEAK)
                },
            window_wf(win),
            0 <= speed <= SPEED_LIMIT,
            dt_ms <= DT_LIMIT_MS,
        decreases enemies@.len() - i,
    {
        let mut e: Enemy = enemies[i];
        let fired: bool = e.change_goal.tick(dt_ms);
        if fired {
            e.goal = random_window_position(win);
        }
        let delta: Vec2I = steer(e.pos, e.goal, speed);
        e.vel = Vec2I { x: e.vel.x + delta.x, y: e.vel.y + delta.y };
        enemies.set(i, e);
        i = i + 1;
    }
}

/// Bound on a position after one frame of movement from within
/// `POS_LIMIT`.
pub const POS_MOVED: i64 = 130_000_000_000;

/// Bound on a velocity right after drag.
pub const VEL_HALF: i64 = 1_051_000_000;

/// One frame of movement for the player and every enemy: each position
/// advances along its velocity, then each velocity suffers drag — halved,
/// or snapped to zero at or below the minimum speed. Goals, timers and
/// everything else stay put.
pub fn apply_velocity(player: &mut Player, enemies: &mut Vec<Enemy>, dt_ms: u64)
    requires
        in_range(old(player).pos, POS_LIMIT),
        in_range(old(player).vel, VEL_PEAK),
        forall|i: int| 0 <= i < old(enemies)@.len() ==> in_range(
            (#[trigger] old(enemies)@[i]).pos,
            POS_LIMIT,
        ) && in_range(old(enemies)@[i].vel, VEL_PEAK),
        dt_ms <= DT_LIMIT_MS,
    ensures
        final(player).pos == integrate_pos(old(player).pos, old(player).vel, dt_ms),
        final(player).vel == drag_vel(old(player).vel),
        final(player).dash_cooldown == old(player).dash_cooldown,
        final(player).dash_duration == old(player).dash_duration,
        in_range(final(player).pos, POS_MOVED),
        in_range(final(player).vel, VEL_HALF),
        final(enemies)@.len() == old(enemies)@.len(),
        forall|i: int|
            0 <= i < old(enemies)@.len() ==> {
                let e0 = old(enemies)@[i];
                let e1 = #[trigger] final(enemies)@[i];
                &&& e1.pos == integrate_pos(e0.pos, e0.vel, dt_ms)
                &&& e1.vel == drag_vel(e0.vel)
                &&& e1.goal == e0.goal
                &&& e1.change_goal == e0.change_goal
                &&& in_range(e1.pos, POS_MOVED)
                &&& in_range(e1.vel, VEL_HALF)
            },
{
    proof {
        lemma_moved_in_bounds(old(player).pos, old(player).vel, dt_ms);
    }
    player.pos = integrate(player.pos, player.vel, dt_ms);
    player.vel = apply_drag(player.vel);
    let mut i: usize = 0;
    while i < enemies.len()
        invariant
            enemies@.len() == old(enemies)@.len(),
            forall|j: int| i <= j < enemies@.len() ==> enemies@[j] == old(enemies)@[j],
            forall|j: int| 0 <= j < old(enemies)@.len() ==> in_range(
                (#[trigger] old(enemies)@[j]).pos,
                POS_LIMIT,
            ) && in_range(old(enemies)@[j].vel, VEL_PEAK),
            forall|j: int|
                0 <= j < i ==> {
                    let e0 = old(enemies)@[j];
                    let e1 = #[trigger] enemies@[j];
                    &&& e1.pos == integrate_pos(e0.pos, e0.vel, dt_ms)
                    &&& e1.vel == drag_vel(e0.vel)
                    &&& e1.goal == e0.goal
                    &&& e1.change_goal == e0.change_goal
                    &&& in_range(e1.pos, POS_MOVED)
                    &&& in_range(e1.vel, VEL_HALF)
                },
            dt_ms <= DT_LIMIT_MS,
        decreases enemies@.len() - i,
    {
        let mut e: Enemy = enemies[i];
        proof {
            lemma_moved_in_bounds(e.pos, e.vel, dt_ms);
        }
        e.pos = integrate(e.pos, e.vel, dt_ms);
        e.vel = apply_drag(e.vel);
        enemies.set(i, e);
        i = i + 1;
    }
}

/// One frame of movement from within the steering bounds stays within
/// `POS_MOVED`.
proof fn lemma_moved_in_bounds(p: Vec2I, v: Vec2I, dt_ms: u64)
    requires
        in_range(p, POS_LIMIT),
        in_range(v, VEL_PEAK),
        dt_ms <= DT_LIMIT_MS,
    ensures
        abs_int(p.x as int) + abs_int(v.x as int) * dt_ms / 1000 <= POS_MOVED,
        abs_int(p.y as int) + abs_int(v.y as int) * dt_ms / 1000 <= POS_MOVED,
{
    assert(abs_int(v.x as int) * dt_ms <= VEL_PEAK * DT_LIMIT_MS) by (nonlinear_arith)
        requires
            0 <= abs_int(v.x as int) <= VEL_PEAK,
            0 <= dt_ms <= DT_LIMIT_MS,
    ;
    assert(abs_int(v.y as int) * dt_ms <= VEL_PEAK * DT_LIMIT_MS) by (nonlinear_arith)
        requires
            0 <= abs_int(v.y as int) <= VEL_PEAK,
            0 <= dt_ms <= DT_LIMIT_MS,
    ;
}

/// One frame of boundary correction for the player and every enemy: on
/// each axis on which an entity sits strictly outside the window
/// rectangle, the constant pull-back impulse is added to its velocity
/// toward the inside; axes already satisfied keep their velocity.
/// Positions are untouched.
pub fn pull_inside_bounds(player: &mut Player, enemies: &mut Vec<Enemy>, win: WindowSize)
    requires
        in_range(old(player).pos, COORD_LIMIT),
        in_range(old(player).vel, COORD_LIMIT),
        forall|i: int| 0 <= i < old(enemies)@.len() ==> in_range(
            (#[trigger] old(enemies)@[i]).pos,
            COORD_LIMIT,
        ) && in_range(old(enemies)@[i].vel, COORD_LIMIT),
        window_wf(win),
    ensures
        final(player).pos == old(player).pos,
        final(player).vel == pull_vel(old(player).pos, old(player).vel, win),
        final(player).dash_cooldown == old(player).dash_cooldown,
        final(player).dash_duration == old(player).dash_duration,
        final(enemies)@.len() == old(enemies)@.len(),
        forall|i: int|
            0 <= i < old(enemies)@.len() ==> {
                let e0 = old(enemies)@[i];
                let e1 = #[trigger] final(enemies)@[i];
                &&& e1.pos == e0.pos
                &&& e1.vel == pull_vel(e0.pos, e0.vel, win)
                &&& e1.goal == e0.goal
                &&& e1.change_goal == e0.change_goal
            },
{
    player.vel = pull_inside(player.pos, player.vel, win);
    let mut i: usize = 0;
    while i < enemies.len()
        invariant
            enemies@.len() == old(enemies)@.len(),
            forall|j: int| i <= j < enemies@.len() ==> enemies@[j] == old(enemies)@[j],
            forall|j: int| 0 <= j < old(enemies)@.len() ==> in_range(
                (#[trigger] old(enemies)@[j]).pos,
                COORD_LIMIT,
            ) && in_range(old(enemies)@[j].vel, COORD_LIMIT),
            forall|j: int|
                0 <= j < i ==> {
                    let e0 = old(enemies)@[j];
                    let e1 = #[trigger] enemies@[j];
                    &&& e1.pos == e0.pos
                    &&& e1.vel == pull_vel(e0.pos, e0.vel, win)
                    &&& e1.goal == e0.goal
                    &&& e1.change_goal == e0.change_goal
                },
            window_wf(win),
        decreases enemies@.len() - i,
    {
        let mut e: Enemy = enemies[i];
        e.vel = pull_inside(e.pos, e.vel, win);
        enemies.set(i, e);
        i = i + 1;
    }
}

impl World {
    /// Some enemy's bounding box overlaps the player's.
    pub open spec fn spec_enemy_hit(self) -> bool {
        exists|i: int|
            0 <= i < self.enemies@.len() && spec_collides(
                self.player.pos,
                self.enemies@[i].pos,
            )
    }

    /// The game-over check: the session moves to `GameOver` exactly when
    /// some enemy's bounding box overlaps the player's this frame, and
    /// stays as it was on every non-overlapping frame. Nothing else
    /// changes.
    pub fn check_game_over(&mut self) -> (hit: bool)
        requires
            in_range(old(self).player.pos, COORD_LIMIT),
            forall|i: int| 0 <= i < old(self).enemies@.len() ==> in_range(
                (#[trigger] old(self).enemies@[i]).pos,
                COORD_LIMIT,
            ),
        ensures
            hit == old(self).spec_enemy_hit(),
            final(self).state == (if hit {
                GameState::GameOver
            } else {
                old(self).state
            }),
            *final(self) == (World { state: final(self).state, ..*old(self) }),
    {
        let mut i: usize = 0;
        while i < self.enemies.len()
            invariant
                i <= self.enemies@.len(),
                *self == *old(self),
                forall|j: int| 0 <= j < i ==> !spec_collides(
                    self.player.pos,
                    #[trigger] self.enemies@[j].pos,
                ),
                in_range(self.player.pos, COORD_LIMIT),
                forall|j: int| 0 <= j < self.enemies@.len() ==> in_range(
                    (#[trigger] self.enemies@[j]).pos,
                    COORD_LIMIT,
                ),
            decreases self.enemies@.len() - i,
        {
            if collides(self.player.pos, self.enemies[i].pos) {
                self.state = GameState::GameOver;
                return true;
            }
            i = i + 1;
        }
        false
    }
}

/// Index of the first pickup at or after `n` that is free (not carried)
/// and overlaps the player's box, or -1 if there is none.
pub open spec fn first_free_hit_from(player_pos: Vec2I, ps: Seq<Pickup>, n: int) -> int
    decreases ps.len() - n,
{
    if n < 0 || n >= ps.len() {
        -1
    } else if !ps[n].carried && spec_collides(player_pos, ps[n].pos) {
        n
    } else {
        first_free_hit_from(player_pos, ps, n + 1)
    }
}

/// Index of the first free pickup overlapping the player's box, or -1.
pub open spec fn first_free_hit(player_pos: Vec2I, ps: Seq<Pickup>) -> int {
    first_free_hit_from(player_pos, ps, 0)
}

/// Index of the first prop at or after `n` whose box overlaps `pos`, or -1.
pub open spec fn first_prop_hit_from(pos: Vec2I, props: Seq<Prop>, n: int) -> int
    decreases props.len() - n,
{
    if n < 0 || n >= props.len() {
        -1
    } else if spec_collides(pos, props[n].pos) {
        n
    } else {
        first_prop_hit_from(pos, props, n + 1)
    }
}

/// Index of the first prop whose box overlaps `pos`, or -1.
pub open spec fn first_prop_hit(pos: Vec2I, props: Seq<Prop>) -> int {
    first_prop_hit_from(pos, props, 0)
}

/// Index of the first pickup at or after `n` whose world position
/// overlaps some prop, or -1.
pub open spec fn first_delivery_from(
    ps: Seq<Pickup>,
    props: Seq<Prop>,
    player_pos: Vec2I,
    n: int,
) -> int
    decreases ps.len() - n,
{
    if n < 0 || n >= ps.len() {
        -1
    } else if first_prop_hit(pickup_world_pos(ps[n], player_pos), props) >= 0 {
        n
    } else {
        first_delivery_from(ps, props, player_pos, n + 1)
    }
}

/// Index of the first pickup whose world position overlaps some prop, or
/// -1.
pub open spec fn first_delivery(ps: Seq<Pickup>, props: Seq<Prop>, player_pos: Vec2I) -> int {
    first_delivery_from(ps, props, player_pos, 0)
}

/// A first-free-hit index is -1 or a real index from `n` on, and a real
/// one names a free pickup overlapping the player.
pub proof fn lemma_first_free_hit_range(player_pos: Vec2I, ps: Seq<Pickup>, n: int)
    requires
        0 <= n,
    ensures
        first_free_hit_from(player_pos, ps, n) == -1 || n <= first_free_hit_from(
            player_pos,
            ps,
            n,
        ) < ps.len(),
        first_free_hit_from(player_pos, ps, n) >= 0 ==> {
            let f = first_free_hit_from(player_pos, ps, n);
            !ps[f].carried && spec_collides(player_pos, ps[f].pos)
        },
    decreases ps.len() - n,
{
    if n < ps.len() && !(!ps[n].carried && spec_collides(player_pos, ps[n].pos)) {
        lemma_first_free_hit_range(player_pos, ps, n + 1);
    }
}

/// A first-prop-hit index is -1 or a real index from `n` on, and a real
/// one names a prop overlapping `pos`.
pub proof fn lemma_first_prop_hit_range(pos: Vec2I, props: Seq<Prop>, n: int)
    requires
        0 <= n,
    ensures
        first_prop_hit_from(pos, props, n) == -1 || n <= first_prop_hit_from(pos, props, n)
            < props.len(),
        first_prop_hit_from(pos, props, n) >= 0 ==> spec_collides(
            pos,
            props[first_prop_hit_from(pos, props, n)].pos,
        ),
    decreases props.len() - n,
{
    if n < props.len() && !spec_collides(pos, props[n].pos) {
        lemma_first_prop_hit_range(pos, props, n + 1);
    }
}

/// A first-delivery index is -1 or a real index from `n` on, and a real
/// one names a pickup whose world position hits some prop.
pub proof fn lemma_first_delivery_range(ps: Seq<Pickup>, props: Seq<Prop>, player_pos: Vec2I, n: int)
    requires
        0 <= n,
    ensures
        first_delivery_from(ps, props, player_pos, n) == -1 || n <= first_delivery_from(
            ps,
            props,
            player_pos,
            n,
        ) < ps.len(),
        first_delivery_from(ps, props, player_pos, n) >= 0 ==> first_prop_hit(
            pickup_world_pos(ps[first_delivery_from(ps, props, player_pos, n)], player_pos),
            props,
        ) >= 0,
    decreases ps.len() - n,
{
    if n < ps.len() && !(first_prop_hit(pickup_world_pos(ps[n], player_pos), props) >= 0) {
        lemma_first_delivery_range(ps, props, player_pos, n + 1);
    }
}

/// The bar a delivery at `prop_pos` creates: progress zero, fresh clocks,
/// anchored 50 units above the prop.
pub open spec fn spec_new_bar(prop_pos: Vec2I) -> ProgressBar {
    ProgressBar {
        pos: Vec2I { x: prop_pos.x, y: (prop_pos.y + BAR_OFFSET_Y) as i64 },
        timer: Timer {
            duration_ms: crate::entities::PROGRESS_TICK_MS,
            elapsed_ms: 0,
            repeating: true,
        },
        timer_popups: Timer {
            duration_ms: crate::entities::POPUP_TICK_MS,
            elapsed_ms: 0,
            repeating: true,
        },
        progress: 0,
    }
}

impl World {
    /// The pickup step: if the player is not already carrying, the first
    /// free pickup whose box overlaps the player's becomes carried and
    /// snaps to the fixed local offset from the player; every other
    /// pickup, and everything else, stays as it was.
    pub fn pick_up_usb(&mut self)
        requires
            in_range(old(self).player.pos, COORD_LIMIT),
            forall|i: int| 0 <= i < old(self).pickups@.len() ==> in_range(
                (#[trigger] old(self).pickups@[i]).pos,
                COORD_LIMIT,
            ),
        ensures
            ({
                let f = first_free_hit(old(self).player.pos, old(self).pickups@);
                if old(self).spec_is_carrying() || f < 0 {
                    final(self).pickups@ == old(self).pickups@
                } else {
                    final(self).pickups@ == old(self).pickups@.update(
                        f,
                        Pickup { pos: Vec2I { x: CARRY_OFFSET, y: CARRY_OFFSET }, carried: true },
                    )
                }
            }),
            *final(self) == (World { pickups: final(self).pickups, ..*old(self) }),
    {
        if self.is_carrying() {
            return ;
        }
        let player_pos: Vec2I = self.player.pos;
        let mut i: usize = 0;
        while i < self.pickups.len()
            invariant
                i <= self.pickups@.len(),
                *self == *old(self),
                !self.spec_is_carrying(),
                player_pos == self.player.pos,
                in_range(self.player.pos, COORD_LIMIT),
                forall|k: int| 0 <= k < self.pickups@.len() ==> in_range(
                    (#[trigger] self.pickups@[k]).pos,
                    COORD_LIMIT,
                ),
                first_free_hit(player_pos, self.pickups@) == first_free_hit_from(
                    player_pos,
                    self.pickups@,
                    i as int,
                ),
            decreases self.pickups@.len() - i,
        {
            let p: Pickup = self.pickups[i];
            if !p.carried && collides(player_pos, p.pos) {
                self.pickups.set(
                    i,
                    Pickup { pos: Vec2I { x: CARRY_OFFSET, y: CARRY_OFFSET }, carried: true },
                );
                return ;
            }
            i = i + 1;
        }
    }

    /// The delivery step: the first pickup whose world position (carried
    /// pickups ride with the player) overlaps some prop is consumed, and a
    /// fresh download bar appears 50 units above the first prop it
    /// overlapped; at most one delivery happens per frame, and with no
    /// overlapping pair nothing changes.
    pub fn insert_usb(&mut self)
        requires
            in_range(old(self).player.pos, POS_SOFT),
            forall|i: int| 0 <= i < old(self).pickups@.len() ==> in_range(
                (#[trigger] old(self).pickups@[i]).pos,
                POS_SOFT,
            ),
            forall|i: int| 0 <= i < old(self).props@.len() ==> in_range(
                (#[trigger] old(self).props@[i]).pos,
                POS_SOFT,
            ),
        ensures
            ({
                let di = first_delivery(old(self).pickups@, old(self).props@, old(self).player.pos);
                if di < 0 {
                    final(self).pickups@ == old(self).pickups@ && final(self).bars@ == old(
                        self,
                    ).bars@
                } else {
                    let wp = pickup_world_pos(old(self).pickups@[di], old(self).player.pos);
                    let pj = first_prop_hit(wp, old(self).props@);
                    final(self).pickups@ == old(self).pickups@.remove(di) && final(self).bars@
                        == old(self).bars@.push(spec_new_bar(old(self).props@[pj].pos))
                }
            }),
            *final(self) == (World {
                pickups: final(self).pickups,
                bars: final(self).bars,
                ..*old(self)
            }),
    {
        let player_pos: Vec2I = self.player.pos;
        let mut i: usize = 0;
        while i < self.pickups.len()
            invariant
                i <= self.pickups@.len(),
                *self == *old(self),
                player_pos == self.player.pos,
                in_range(self.player.pos, POS_SOFT),
                forall|k: int| 0 <= k < self.pickups@.len() ==> in_range(
                    (#[trigger] self.pickups@[k]).pos,
                    POS_SOFT,
                ),
                forall|k: int| 0 <= k < self.props@.len() ==> in_range(
                    (#[trigger] self.props@[k]).pos,
                    POS_SOFT,
                ),
                first_delivery(self.pickups@, self.props@, player_pos) == first_delivery_from(
                    self.pickups@,
                    self.props@,
                    player_pos,
                    i as int,
                ),
            decreases self.pickups@.len() - i,
        {
            let p: Pickup = self.pickups[i];
            let world_pos: Vec2I = if p.carried {
                Vec2I { x: player_pos.x + p.pos.x, y: player_pos.y + p.pos.y }
            } else {
                p.pos
            };
            let mut j: usize = 0;
            while j < self.props.len()
                invariant
                    j <= self.props@.len(),
                    *self == *old(self),
                    i < self.pickups@.len(),
                    player_pos == self.player.pos,
                    p == self.pickups@[i as int],
                    world_pos == pickup_world_pos(p, player_pos),
                    in_range(world_pos, COORD_LIMIT),
                    forall|k: int| 0 <= k < self.props@.len() ==> in_range(
                        (#[trigger] self.props@[k]).pos,
                        POS_SOFT,
                    ),
                    first_prop_hit(world_pos, self.props@) == first_prop_hit_from(
                        world_pos,
                        self.props@,
                        j as int,
                    ),
                    first_delivery(self.pickups@, self.props@, player_pos) == first_delivery_from(
                        self.pickups@,
                        self.props@,
                        player_pos,
                        i as int,
                    ),
                decreases self.props@.len() - j,
            {
                let prop_pos: Vec2I = self.props[j].pos;
                if collides(world_pos, prop_pos) {
                    proof {
                        assert(first_prop_hit_from(world_pos, self.props@, j as int) == j as int);
                        assert(first_delivery_from(self.pickups@, self.props@, player_pos, i as int)
                            == i as int);
                    }
                    self.pickups.remove(i);
                    let mut bar: ProgressBar = ProgressBar::default();
                    bar.pos = Vec2I { x: prop_pos.x, y: prop_pos.y + BAR_OFFSET_Y };
                    self.bars.push(bar);
                    proof {
                        assert(bar == spec_new_bar(prop_pos));
                    }
                    return ;
                }
                j = j + 1;
            }
            i = i + 1;
        }
    }
}

/// One frame of a download bar: both clocks advance, and a completed
/// progress tick raises progress by exactly one while it is below the
/// maximum — at the maximum, progress stays put (the tick scores
/// instead).
pub open spec fn bar_after(b: ProgressBar, dt_ms: u64) -> ProgressBar {
    ProgressBar {
        pos: b.pos,
        timer: b.timer.spec_after(dt_ms),
        timer_popups: b.timer_popups.spec_after(dt_ms),
        progress: if b.timer.spec_fires(dt_ms) && b.progress != PROGRESS_MAX {
            (b.progress + 1) as u32
        } else {
            b.progress
        },
    }
}

/// How many of the first `n` bars score this frame: one point for each
/// bar whose progress tick completes while its progress already sits at
/// the maximum.
pub open spec fn spec_score_gain(bars: Seq<ProgressBar>, dt_ms: u64, n: int) -> int
    decreases n,
{
    if n <= 0 {
        0
    } else {
        spec_score_gain(bars, dt_ms, n - 1) + if bars[n - 1].timer.spec_fires(dt_ms) && bars[n
            - 1].progress == PROGRESS_MAX {
            1int
        } else {
            0int
        }
    }
}

/// The score gain over `n` bars is between zero and `n`.
pub proof fn lemma_score_gain_bound(bars: Seq<ProgressBar>, dt_ms: u64, n: int)
    requires
        n >= 0,
    ensures
        0 <= spec_score_gain(bars, dt_ms, n) <= n,
    decreases n,
{
    if n > 0 {
        lemma_score_gain_bound(bars, dt_ms, n - 1);
    }
}

/// How many of the first `n` commands equal `c`.
pub open spec fn count_cmd(cmds: Seq<PopupCommand>, c: PopupCommand, n: int) -> int
    decreases n,
{
    if n <= 0 {
        0
    } else {
        count_cmd(cmds, c, n - 1) + if cmds[n - 1] == c {
            1int
        } else {
            0int
        }
    }
}

/// The count of any command over `n` commands is between zero and `n`.
pub proof fn lemma_count_cmd_bound(cmds: Seq<PopupCommand>, c: PopupCommand, n: int)
    requires
        n >= 0,
    ensures
        0 <= count_cmd(cmds, c, n) <= n,
    decreases n,
{
    if n > 0 {
        lemma_count_cmd_bound(cmds, c, n - 1);
    }
}

impl World {
    /// The progress and score step. Each download bar advances its
    /// quarter-second clock; a completed tick raises its progress by
    /// exactly one while below 100, and adds one to the score instead once
    /// progress sits at 100 — so progress never exceeds 100. Each bar's
    /// three-second popup clock gets, on completion, a coin-flip chance to
    /// queue one popup request; the requests already queued stay.
    pub fn update_progress_and_spawn_popups(&mut self, dt_ms: u64)
        requires
            forall|i: int| 0 <= i < old(self).bars@.len() ==> (#[trigger] old(self).bars@[i]).wf(),
            old(self).common.score + old(self).bars@.len() <= u32::MAX,
            dt_ms <= DT_LIMIT_MS,
        ensures
            final(self).bars@.len() == old(self).bars@.len(),
            forall|i: int| 0 <= i < old(self).bars@.len() ==> (#[trigger] final(self).bars@[i])
                == bar_after(old(self).bars@[i], dt_ms),
            forall|i: int| 0 <= i < final(self).bars@.len() ==> (#[trigger] final(self).bars@[i]).wf(),
            final(self).common.score == old(self).common.score + spec_score_gain(
                old(self).bars@,
                dt_ms,
                old(self).bars@.len() as int,
            ),
            final(self).common.enemy_speed == old(self).common.enemy_speed,
            old(self).popup_requests@.is_prefix_of(final(self).popup_requests@),
            final(self).popup_requests@.len() <= old(self).popup_requests@.len() + old(
                self,
            ).bars@.len(),
            forall|j: int|
                old(self).popup_requests@.len() <= j < final(self).popup_requests@.len()
                    ==> popup_request_wf(#[trigger] final(self).popup_requests@[j]),
            *final(self) == (World {
                bars: final(self).bars,
                common: final(self).common,
                popup_requests: final(self).popup_requests,
                ..*old(self)
            }),
    {
        let ghost bars0 = self.bars@;
        let mut i: usize = 0;
        while i < self.bars.len()
            invariant
                i <= bars0.len(),
                self.bars@.len() == bars0.len(),
                bars0 == old(self).bars@,
                forall|j: int| 0 <= j < bars0.len() ==> (#[trigger] bars0[j]).wf(),
                forall|j: int| i <= j < bars0.len() ==> self.bars@[j] == bars0[j],
                forall|j: int| 0 <= j < i ==> (#[trigger] self.bars@[j]) == bar_after(
                    bars0[j],
                    dt_ms,
                ),
                forall|j: int| 0 <= j < i ==> (#[trigger] self.bars@[j]).wf(),
                self.common.score == old(self).common.score + spec_score_gain(
                    bars0,
                    dt_ms,
                    i as int,
                ),
                old(self).common.score + bars0.len() <= u32::MAX,
                self.common.enemy_speed == old(self).common.enemy_speed,
                old(self).popup_requests@.is_prefix_of(self.popup_requests@),
                self.popup_requests@.len() <= old(self).popup_requests@.len() + i,
                forall|j: int|
                    old(self).popup_requests@.len() <= j < self.popup_requests@.len()
                        ==> popup_request_wf(#[trigger] self.popup_requests@[j]),
                *self == (World {
                    bars: self.bars,
                    common: self.common,
                    popup_requests: self.popup_requests,
                    ..*old(self)
                }),
                dt_ms <= DT_LIMIT_MS,
            decreases bars0.len() - i,
        {
            proof {
                lemma_score_gain_bound(bars0, dt_ms, i as int);
            }
            let mut b: ProgressBar = self.bars[i];
            proof {
                assert(b == bars0[i as int]);
                assert(b.wf());
            }
            let fired: bool = b.timer.tick(dt_ms);
            if fired {
                if b.progress == PROGRESS_MAX {
                    self.common.score = self.common.score + 1;
                } else {
                    b.progress = b.progress + 1;
                }
            }
            let popup_fired: bool = b.timer_popups.tick(dt_ms);
            if popup_fired && random_bool() {
                insert_random_popup(&mut self.popup_requests);
                proof {
                    assert(old(self).popup_requests@.is_prefix_of(self.popup_requests@));
                }
            }
            self.bars.set(i, b);
            i = i + 1;
        }
    }

    /// The popup command effects, applied in order: each `AddCop` queues
    /// one enemy spawn, each `IncreaseCopSpeed` raises the shared speed by
    /// exactly one unit per second (so two in one frame raise it by two),
    /// and any `CopsTargetPlayer` snaps every live enemy's goal to the
    /// player's current position once — with no enemies alive that is a
    /// no-op. Nothing else changes.
    pub fn handle_popup_events(&mut self, commands: &Vec<PopupCommand>)
        requires
            old(self).common.enemy_speed >= 0,
            old(self).common.enemy_speed + SPEED_INCREMENT * commands@.len() <= SPEED_LIMIT,
            old(self).enemy_events + commands@.len() <= u32::MAX,
        ensures
            final(self).common.enemy_speed == old(self).common.enemy_speed + SPEED_INCREMENT
                * count_cmd(commands@, PopupCommand::IncreaseCopSpeed, commands@.len() as int),
            final(self).common.score == old(self).common.score,
            final(self).enemy_events == old(self).enemy_events + count_cmd(
                commands@,
                PopupCommand::AddCop,
                commands@.len() as int,
            ),
            final(self).enemies@.len() == old(self).enemies@.len(),
            forall|i: int|
                0 <= i < old(self).enemies@.len() ==> {
                    let e0 = old(self).enemies@[i];
                    let e1 = #[trigger] final(self).enemies@[i];
                    &&& e1.pos == e0.pos
                    &&& e1.vel == e0.vel
                    &&& e1.change_goal == e0.change_goal
                    &&& e1.goal == (if count_cmd(
                        commands@,
                        PopupCommand::CopsTargetPlayer,
                        commands@.len() as int,
                    ) > 0 {
                        old(self).player.pos
                    } else {
                        e0.goal
                    })
                },
            *final(self) == (World {
                common: final(self).common,
                enemy_events: final(self).enemy_events,
                enemies: final(self).enemies,
                ..*old(self)
            }),
    {
        let mut j: usize = 0;
        while j < commands.len()
            invariant
                j <= commands@.len(),
                self.common.enemy_speed == old(self).common.enemy_speed + SPEED_INCREMENT
                    * count_cmd(commands@, PopupCommand::IncreaseCopSpeed, j as int),
                self.common.score == old(self).common.score,
                self.enemy_events == old(self).enemy_events + count_cmd(
                    commands@,
                    PopupCommand::AddCop,
                    j as int,
                ),
                self.enemies@.len() == old(self).enemies@.len(),
                forall|i: int|
                    0 <= i < old(self).enemies@.len() ==> {
                        let e0 = old(self).enemies@[i];
                        let e1 = #[trigger] self.enemies@[i];
                        &&& e1.pos == e0.pos
                        &&& e1.vel == e0.vel
                        &&& e1.change_goal == e0.change_goal
                        &&& e1.goal == (if count_cmd(
                            commands@,
                            PopupCommand::CopsTargetPlayer,
                            j as int,
                        ) > 0 {
                            old(self).player.pos
                        } else {
                            e0.goal
                        })
                    },
                *self == (World {
                    common: self.common,
                    enemy_events: self.enemy_events,
                    enemies: self.enemies,
                    ..*old(self)
                }),
                old(self).common.enemy_speed >= 0,
                old(self).common.enemy_speed + SPEED_INCREMENT * commands@.len() <= SPEED_LIMIT,
                old(self).enemy_events + commands@.len() <= u32::MAX,
            decreases commands@.len() - j,
        {
            proof {
                lemma_count_cmd_bound(commands@, PopupCommand::IncreaseCopSpeed, j as int);
                lemma_count_cmd_bound(commands@, PopupCommand::AddCop, j as int);
                lemma_count_cmd_bound(commands@, PopupCommand::CopsTargetPlayer, j as int);
                assert(SPEED_INCREMENT * count_cmd(
                    commands@,
                    PopupCommand::IncreaseCopSpeed,
                    j as int,
                ) <= SPEED_INCREMENT * commands@.len() && SPEED_INCREMENT * (count_cmd(
                    commands@,
                    PopupCommand::IncreaseCopSpeed,
                    j as int,
                ) + 1) <= SPEED_INCREMENT * commands@.len()) by (nonlinear_arith)
                    requires
                        0 <= count_cmd(commands@, PopupCommand::IncreaseCopSpeed, j as int) <= j,
                        j < commands@.len(),
                        SPEED_INCREMENT > 0,
                ;
            }
            let cmd: PopupCommand = commands[j];
            match cmd {
                PopupCommand::AddCop => {
                    self.enemy_events = self.enemy_events + 1;
                },
                PopupCommand::CopsTargetPlayer => {
                    let ghost pre = *self;
                    proof {
                        assert(pre == (World {
                            common: pre.common,
                            enemy_events: pre.enemy_events,
                            enemies: pre.enemies,
                            ..*old(self)
                        }));
                        assert(pre.common.score == old(self).common.score);
                        assert(pre.common.enemy_speed == old(self).common.enemy_speed
                            + SPEED_INCREMENT * count_cmd(
                            commands@,
                            PopupCommand::IncreaseCopSpeed,
                            j as int,
                        ));
                        assert(pre.enemy_events == old(self).enemy_events + count_cmd(
                            commands@,
                            PopupCommand::AddCop,
                            j as int,
                        ));
                        assert(forall|i: int|
                            0 <= i < old(self).enemies@.len() ==> {
                                let e0 = old(self).enemies@[i];
                                let e1 = #[trigger] pre.enemies@[i];
                                e1.pos == e0.pos && e1.vel == e0.vel && e1.change_goal
                                    == e0.change_goal
                            });
                    }
                    let target: Vec2I = self.player.pos;
                    let mut k: usize = 0;
                    while k < self.enemies.len()
                        invariant
                            k <= self.enemies@.len(),
                            self.enemies@.len() == pre.enemies@.len(),
                            target == pre.player.pos,
                            forall|i: int|
                                0 <= i < self.enemies@.len() ==> {
                                    let e0 = pre.enemies@[i];
                                    let e1 = #[trigger] self.enemies@[i];
                                    &&& e1.pos == e0.pos
                                    &&& e1.vel == e0.vel
                                    &&& e1.change_goal == e0.change_goal
                                },
                            forall|i: int| 0 <= i < k ==> (#[trigger] self.enemies@[i]).goal
                                == target,
                            *self == (World { enemies: self.enemies, ..pre }),
                        decreases self.enemies@.len() - k,
                    {
                        let mut e: Enemy = self.enemies[k];
                        e.goal = target;
                        self.enemies.set(k, e);
                        k = k + 1;
                    }
                },
                PopupCommand::IncreaseCopSpeed => {
                    self.common.enemy_speed = self.common.enemy_speed + SPEED_INCREMENT;
                },
            }
            j = j + 1;
        }
    }
}

/// The corner every fresh enemy spawns at: the window's lower-left.
pub open spec fn spec_spawn_corner(win: WindowSize) -> Vec2I {
    Vec2I { x: (-(win.width / 2)) as i64, y: (-(win.height / 2)) as i64 }
}

/// A just-spawned enemy: parked at the spawn corner at rest, goal inside
/// the window, re-target period somewhere in the random draw's range and
/// not yet elapsed.
pub open spec fn spawned_enemy_wf(e: Enemy, win: WindowSize) -> bool {
    &&& e.pos == spec_spawn_corner(win)
    &&& e.vel == (Vec2I { x: 0, y: 0 })
    &&& in_window(e.goal, win)
    &&& e.change_goal.repeating
    &&& e.change_goal.elapsed_ms == 0
    &&& RETARGET_MIN_MS <= e.change_goal.duration_ms < RETARGET_MAX_MS
    &&& e.wf()
}

impl World {
    /// The enemy spawner: drains the queued enemy-spawn requests, adding
    /// one enemy per request at the window's lower-left corner, at rest,
    /// with a random goal inside the window and a random re-target period.
    /// The enemies already alive stay exactly as they were.
    pub fn add_enemy(&mut self, win: WindowSize)
        requires
            window_wf(win),
        ensures
            final(self).enemy_events == 0,
            final(self).enemies@.len() == old(self).enemies@.len() + old(self).enemy_events,
            forall|i: int| 0 <= i < old(self).enemies@.len() ==> (#[trigger] final(self).enemies@[i])
                == old(self).enemies@[i],
            forall|i: int|
                old(self).enemies@.len() <= i < final(self).enemies@.len() ==> spawned_enemy_wf(
                    #[trigger] final(self).enemies@[i],
                    win,
                ),
            *final(self) == (World {
                enemies: final(self).enemies,
                enemy_events: final(self).enemy_events,
                ..*old(self)
            }),
    {
        let corner: Vec2I = Vec2I { x: -(win.width / 2), y: -(win.height / 2) };
        while self.enemy_events > 0
            invariant
                window_wf(win),
                corner == spec_spawn_corner(win),
                self.enemy_events <= old(self).enemy_events,
                self.enemies@.len() + self.enemy_events == old(self).enemies@.len() + old(
                    self,
                ).enemy_events,
                forall|i: int| 0 <= i < old(self).enemies@.len() ==> (#[trigger] self.enemies@[i])
                    == old(self).enemies@[i],
                forall|i: int|
                    old(self).enemies@.len() <= i < self.enemies@.len() ==> spawned_enemy_wf(
                        #[trigger] self.enemies@[i],
                        win,
                    ),
                *self == (World {
                    enemies: self.enemies,
                    enemy_events: self.enemy_events,
                    ..*old(self)
                }),
            decreases self.enemy_events,
        {
            let goal: Vec2I = random_window_position(win);
            let period: i64 = gen_range_i64(RETARGET_MIN_MS, RETARGET_MAX_MS);
            let e: Enemy = Enemy::new(corner, goal, period as u64);
            self.enemies.push(e);
            self.enemy_events = self.enemy_events - 1;
        }
    }

    /// The scenery spawner: drains the queued item requests, adding one
    /// prop and one pickup per request, each at its own random position
    /// inside the window, the pickup free. What was already standing
    /// stays exactly as it was.
    pub fn handle_item_events(&mut self, win: WindowSize)
        requires
            window_wf(win),
        ensures
            final(self).item_events == 0,
            final(self).props@.len() == old(self).props@.len() + old(self).item_events,
            final(self).pickups@.len() == old(self).pickups@.len() + old(self).item_events,
            forall|i: int| 0 <= i < old(self).props@.len() ==> (#[trigger] final(self).props@[i])
                == old(self).props@[i],
            forall|i: int| 0 <= i < old(self).pickups@.len() ==> (#[trigger] final(self).pickups@[i])
                == old(self).pickups@[i],
            forall|i: int|
                old(self).props@.len() <= i < final(self).props@.len() ==> in_window(
                    (#[trigger] final(self).props@[i]).pos,
                    win,
                ) && in_range(final(self).props@[i].pos, POS_LIMIT),
            forall|i: int|
                old(self).pickups@.len() <= i < final(self).pickups@.len() ==> in_window(
                    (#[trigger] final(self).pickups@[i]).pos,
                    win,
                ) && in_range(final(self).pickups@[i].pos, POS_LIMIT)
                    && !final(self).pickups@[i].carried,
            *final(self) == (World {
                props: final(self).props,
                pickups: final(self).pickups,
                item_events: final(self).item_events,
                ..*old(self)
            }),
    {
        while self.item_events > 0
            invariant
                window_wf(win),
                self.item_events <= old(self).item_events,
                self.props@.len() + self.item_events == old(self).props@.len() + old(
                    self,
                ).item_events,
                self.pickups@.len() + self.item_events == old(self).pickups@.len() + old(
                    self,
                ).item_events,
                forall|i: int| 0 <= i < old(self).props@.len() ==> (#[trigger] self.props@[i]) == old(self).props@[i],
                forall|i: int| 0 <= i < old(self).pickups@.len() ==> (#[trigger] self.pickups@[i])
                    == old(self).pickups@[i],
                forall|i: int|
                    old(self).props@.len() <= i < self.props@.len() ==> in_window(
                        (#[trigger] self.props@[i]).pos,
                        win,
                    ) && in_range(self.props@[i].pos, POS_LIMIT),
                forall|i: int|
                    old(self).pickups@.len() <= i < self.pickups@.len() ==> in_window(
                        (#[trigger] self.pickups@[i]).pos,
                        win,
                    ) && in_range(self.pickups@[i].pos, POS_LIMIT) && !self.pickups@[i].carried,
                *self == (World {
                    props: self.props,
                    pickups: self.pickups,
                    item_events: self.item_events,
                    ..*old(self)
                }),
            decreases self.item_events,
        {
            let prop_pos: Vec2I = random_window_position(win);
            self.props.push(Prop { pos: prop_pos });
            let pickup_pos: Vec2I = random_window_position(win);
            self.pickups.push(Pickup { pos: pickup_pos, carried: false });
            self.item_events = self.item_events - 1;
        }
    }

    /// The enter action of `InGame`: fresh shared state, a fresh player,
    /// and spawn requests for the starting scenery (two prop/pickup
    /// pairs) and the two starting enemies, queued for the spawners.
    pub fn spawn(&mut self)
        requires
            old(self).item_events + STARTING_ITEMS <= u32::MAX,
            old(self).enemy_events + STARTING_ENEMIES <= u32::MAX,
        ensures
            final(self).common == (Common {
                enemy_speed: crate::entities::ENEMY_SPEED_DEFAULT,
                score: 0,
            }),
            final(self).player == spec_default_player(),
            final(self).item_events == old(self).item_events + STARTING_ITEMS,
            final(self).enemy_events == old(self).enemy_events + STARTING_ENEMIES,
            *final(self) == (World {
                common: final(self).common,
                player: final(self).player,
                item_events: final(self).item_events,
                enemy_events: final(self).enemy_events,
                ..*old(self)
            }),
    {
        self.common = Common::default();
        self.player = Player::default();
        self.item_events = self.item_events + STARTING_ITEMS;
        self.enemy_events = self.enemy_events + STARTING_ENEMIES;
    }

    /// The despawn pass of a restart: every gameplay entity (pickups,
    /// props, enemies) is removed, and with them the spawn requests still
    /// queued for the session that ended. The shared state is replaced on
    /// the next enter action; bars and the player are handled there too.
    pub fn despawn(&mut self)
        ensures
            final(self).pickups@.len() == 0,
            final(self).props@.len() == 0,
            final(self).enemies@.len() == 0,
            final(self).item_events == 0,
            final(self).enemy_events == 0,
            *final(self) == (World {
                pickups: final(self).pickups,
                props: final(self).props,
                enemies: final(self).enemies,
                item_events: 0,
                enemy_events: 0,
                ..*old(self)
            }),
    {
        self.pickups = Vec::new();
        self.props = Vec::new();
        self.enemies = Vec::new();
        self.item_events = 0;
        self.enemy_events = 0;
    }

    /// The enter action of `GameOver`: the banner and restart button go
    /// up.
    pub fn game_over_spawn(&mut self)
        ensures
            *final(self) == (World { game_over_ui: true, ..*old(self) }),
    {
        self.game_over_ui = true;
    }

    /// The exit action of `GameOver`: everything tagged for that screen
    /// is taken down.
    pub fn game_over_despawn(&mut self)
        ensures
            *final(self) == (World { game_over_ui: false, ..*old(self) }),
    {
        self.game_over_ui = false;
    }
}

/// The player a session starts with.
pub open spec fn spec_default_player() -> Player {
    Player {
        pos: Vec2I { x: 0, y: 0 },
        vel: Vec2I { x: 0, y: 0 },
        dash_cooldown: Timer {
            duration_ms: crate::entities::DASH_COOLDOWN_MS,
            elapsed_ms: 0,
            repeating: false,
        },
        dash_duration: Timer {
            duration_ms: crate::entities::DASH_DURATION_MS,
            elapsed_ms: 0,
            repeating: false,
        },
    }
}


impl World {
    /// The restart transition, `GameOver` to `InGame`, with both states'
    /// exit and enter actions: the game-over screen comes down, every
    /// gameplay entity and stale spawn request of the ended session is
    /// dropped, and a fresh session is seeded — default shared state
    /// (score zero, default enemy speed), a fresh player at the origin,
    /// two prop/pickup pairs and two enemies. Download bars and queued
    /// popup requests are what the engine leaves standing; they stay.
    pub fn restart_session(&mut self, win: WindowSize)
        requires
            window_wf(win),
        ensures
            final(self).state is InGame,
            !final(self).game_over_ui,
            final(self).common == (Common {
                enemy_speed: crate::entities::ENEMY_SPEED_DEFAULT,
                score: 0,
            }),
            final(self).player == spec_default_player(),
            final(self).pickups@.len() == STARTING_ITEMS,
            final(self).props@.len() == STARTING_ITEMS,
            final(self).enemies@.len() == STARTING_ENEMIES,
            forall|i: int|
                0 <= i < final(self).pickups@.len() ==> in_window(
                    (#[trigger] final(self).pickups@[i]).pos,
                    win,
                ) && !final(self).pickups@[i].carried,
            forall|i: int| 0 <= i < final(self).props@.len() ==> in_window(
                (#[trigger] final(self).props@[i]).pos,
                win,
            ),
            forall|i: int| 0 <= i < final(self).enemies@.len() ==> spawned_enemy_wf(
                #[trigger] final(self).enemies@[i],
                win,
            ),
            final(self).item_events == 0,
            final(self).enemy_events == 0,
            final(self).bars == old(self).bars,
            final(self).popup_requests == old(self).popup_requests,
            (forall|i: int|
                0 <= i < old(self).bars@.len() ==> (#[trigger] old(self).bars@[i]).wf())
                ==> final(self).wf(),
            final(self).step_bounds(),
    {
        self.game_over_despawn();
        self.state = GameState::InGame;
        self.despawn();
        self.spawn();
        self.handle_item_events(win);
        self.add_enemy(win);
    }

    /// A fresh session over an empty scene: the enter action of `InGame`
    /// run on nothing — two prop/pickup pairs, two enemies, a player at
    /// the origin, no score, no bars, no pending requests.
    pub fn new(win: WindowSize) -> (w: World)
        requires
            window_wf(win),
        ensures
            w.state is InGame,
            !w.game_over_ui,
            w.common == (Common { enemy_speed: crate::entities::ENEMY_SPEED_DEFAULT, score: 0 }),
            w.player == spec_default_player(),
            w.pickups@.len() == STARTING_ITEMS,
            w.props@.len() == STARTING_ITEMS,
            w.enemies@.len() == STARTING_ENEMIES,
            forall|i: int|
                0 <= i < w.pickups@.len() ==> in_window((#[trigger] w.pickups@[i]).pos, win)
                    && !w.pickups@[i].carried,
            forall|i: int| 0 <= i < w.props@.len() ==> in_window(
                (#[trigger] w.props@[i]).pos,
                win,
            ),
            forall|i: int| 0 <= i < w.enemies@.len() ==> spawned_enemy_wf(
                #[trigger] w.enemies@[i],
                win,
            ),
            w.bars@.len() == 0,
            w.popup_requests@.len() == 0,
            w.item_events == 0,
            w.enemy_events == 0,
            w.wf(),
            w.step_bounds(),
    {
        let mut w = World {
            state: GameState::InGame,
            common: Common::default(),
            player: Player::default(),
            enemies: Vec::new(),
            pickups: Vec::new(),
            props: Vec::new(),
            bars: Vec::new(),
            item_events: 0,
            enemy_events: 0,
            popup_requests: Vec::new(),
            game_over_ui: false,
        };
        w.restart_session(win);
        w
    }
}


/// Where a frame's pickups stand after the pickup step: if the player was
/// not carrying and some free pickup overlapped the player, the first
/// such is now carried at the fixed offset.
pub open spec fn spec_pickups_mid(w0: World, player_pos: Vec2I) -> Seq<Pickup> {
    let f = first_free_hit(player_pos, w0.pickups@);
    if w0.spec_is_carrying() || f < 0 {
        w0.pickups@
    } else {
        w0.pickups@.update(f, Pickup { pos: Vec2I { x: CARRY_OFFSET, y: CARRY_OFFSET }, carried: true })
    }
}

/// Where a frame's pickups stand after the delivery step: the first
/// pickup overlapping a prop, if any, is gone.
pub open spec fn spec_pickups_del(pickups_mid: Seq<Pickup>, props: Seq<Prop>, player_pos: Vec2I) -> Seq<Pickup> {
    let di = first_delivery(pickups_mid, props, player_pos);
    if di < 0 {
        pickups_mid
    } else {
        pickups_mid.remove(di)
    }
}

/// Where a frame's bars stand after the delivery step: one fresh bar
/// above the hit prop if a delivery happened.
pub open spec fn spec_bars_mid(bars: Seq<ProgressBar>, pickups_mid: Seq<Pickup>, props: Seq<Prop>, player_pos: Vec2I) -> Seq<ProgressBar> {
    let di = first_delivery(pickups_mid, props, player_pos);
    if di < 0 {
        bars
    } else {
        let pj = first_prop_hit(pickup_world_pos(pickups_mid[di], player_pos), props);
        bars.push(spec_new_bar(props[pj].pos))
    }
}

/// One live enemy across one whole `InGame` frame: for some goal `g` —
/// the old one, or a fresh random one inside the window if its re-target
/// clock completed — the enemy steered toward `g`, moved, suffered drag
/// and pull-back, and finally kept `g` or snapped to the frame's popup
/// target.
pub open spec fn enemy_frame_rel(
    e0: Enemy,
    e1: Enemy,
    speed: i64,
    dt_ms: u64,
    win: WindowSize,
    target: Option<Vec2I>,
) -> bool {
    exists|g: Vec2I|
        #![trigger vel_steered(e0, g, speed)]
        {
            let vs = vel_steered(e0, g, speed);
            &&& (if e0.change_goal.spec_fires(dt_ms) {
                in_window(g, win)
            } else {
                g == e0.goal
            })
            &&& e1.pos == integrate_pos(e0.pos, vs, dt_ms)
            &&& e1.vel == pull_vel(e1.pos, drag_vel(vs), win)
            &&& e1.change_goal == e0.change_goal.spec_after(dt_ms)
            &&& e1.goal == (match target {
                Some(p) => p,
                None => g,
            })
        }
}

/// The player as one whole `InGame` frame leaves it: keyboard steering
/// and the dash policy, then integration, drag, and boundary pull-back.
pub open spec fn spec_player_after_frame(p: Player, i: InputState, dt_ms: u64, win: WindowSize) -> Player {
    let v1 = spec_vel_after_input(p, i, dt_ms);
    let pos1 = integrate_pos(p.pos, v1, dt_ms);
    Player {
        pos: pos1,
        vel: pull_vel(pos1, drag_vel(v1), win),
        dash_cooldown: spec_dash_cooldown_after(p, i, dt_ms),
        dash_duration: spec_dash_duration_after(p, i, dt_ms),
    }
}

impl World {
    /// One frame on the game-over screen: restart input — the dash key,
    /// the confirm key, the R key, or a press of the restart button —
    /// fires the restart transition with its full reset; any other frame
    /// changes nothing.
    pub fn step_game_over(&mut self, input: &InputState, win: WindowSize)
        requires
            window_wf(win),
        ensures
            !spec_wants_restart(*input) ==> *final(self) == *old(self),
            spec_wants_restart(*input) ==> {
                &&& final(self).state is InGame
                &&& !final(self).game_over_ui
                &&& final(self).common == (Common {
                    enemy_speed: crate::entities::ENEMY_SPEED_DEFAULT,
                    score: 0,
                })
                &&& final(self).player == spec_default_player()
                &&& final(self).pickups@.len() == STARTING_ITEMS
                &&& final(self).props@.len() == STARTING_ITEMS
                &&& final(self).enemies@.len() == STARTING_ENEMIES
                &&& final(self).item_events == 0
                &&& final(self).enemy_events == 0
                &&& final(self).bars == old(self).bars
                &&& final(self).popup_requests == old(self).popup_requests
                &&& final(self).step_bounds()
            },
    {
        if check_restart(input) {
            self.restart_session(win);
        }
    }
}


impl World {
    /// One full frame while playing, in a fixed order:
    /// keyboard and enemy steering, then integration and drag, then
    /// boundary pull-back, then the collision decisions — game over,
    /// pickup, delivery — then progress and score, then the spawn
    /// queues, and this frame's popup choices last. The session moves to
    /// `GameOver` exactly when some enemy alive at frame start overlaps
    /// the player at this frame's post-movement positions; enemies
    /// spawned this frame stand at the corner and are not checked until
    /// they move.
    #[verifier::rlimit(100)]
    pub fn step_in_game(
        &mut self,
        input: &InputState,
        commands: &Vec<PopupCommand>,
        dt_ms: u64,
        win: WindowSize,
    )
        requires
            old(self).state is InGame,
            old(self).wf(),
            old(self).step_bounds(),
            window_wf(win),
            dt_ms <= DT_LIMIT_MS,
            old(self).common.score + old(self).bars@.len() + 1 <= u32::MAX,
            old(self).common.enemy_speed + SPEED_INCREMENT * commands@.len() <= SPEED_LIMIT,
            commands@.len() <= u32::MAX,
        ensures
            final(self).wf(),
            final(self).player == spec_player_after_frame(old(self).player, *input, dt_ms, win),
            in_range(final(self).player.pos, POS_MOVED),
            in_range(final(self).player.vel, VEL_LIMIT),
            ({
                let hit = exists|i: int|
                    0 <= i < old(self).enemies@.len() && spec_collides(
                        final(self).player.pos,
                        (#[trigger] final(self).enemies@[i]).pos,
                    );
                &&& final(self).state == (if hit {
                    GameState::GameOver
                } else {
                    GameState::InGame
                })
                &&& final(self).game_over_ui == (old(self).game_over_ui || hit)
            }),
            final(self).enemies@.len() == old(self).enemies@.len() + old(self).enemy_events,
            forall|i: int| 0 <= i < old(self).enemies@.len() ==> enemy_frame_rel(
                old(self).enemies@[i],
                #[trigger] final(self).enemies@[i],
                old(self).common.enemy_speed,
                dt_ms,
                win,
                if count_cmd(commands@, PopupCommand::CopsTargetPlayer, commands@.len() as int)
                    > 0 {
                    Some(final(self).player.pos)
                } else {
                    None
                },
            ),
            forall|i: int|
                0 <= i < old(self).enemies@.len() ==> in_range(
                    (#[trigger] final(self).enemies@[i]).pos,
                    POS_MOVED,
                ) && in_range(final(self).enemies@[i].vel, VEL_LIMIT),
            forall|i: int|
                old(self).enemies@.len() <= i < final(self).enemies@.len() ==> {
                    let e1 = #[trigger] final(self).enemies@[i];
                    &&& e1.pos == spec_spawn_corner(win)
                    &&& e1.vel == (Vec2I { x: 0, y: 0 })
                    &&& e1.change_goal.repeating
                    &&& e1.change_goal.elapsed_ms == 0
                    &&& RETARGET_MIN_MS <= e1.change_goal.duration_ms < RETARGET_MAX_MS
                    &&& (if count_cmd(
                        commands@,
                        PopupCommand::CopsTargetPlayer,
                        commands@.len() as int,
                    ) > 0 {
                        e1.goal == final(self).player.pos
                    } else {
                        in_window(e1.goal, win)
                    })
                },
            ({
                let pm = spec_pickups_mid(*old(self), final(self).player.pos);
                let pd = spec_pickups_del(pm, old(self).props@, final(self).player.pos);
                let bm = spec_bars_mid(
                    old(self).bars@,
                    pm,
                    old(self).props@,
                    final(self).player.pos,
                );
                &&& final(self).pickups@.len() == pd.len() + old(self).item_events
                &&& (forall|i: int| 0 <= i < pd.len() ==> (#[trigger] final(self).pickups@[i])
                    == pd[i])
                &&& (forall|i: int|
                    pd.len() <= i < final(self).pickups@.len() ==> in_window(
                        (#[trigger] final(self).pickups@[i]).pos,
                        win,
                    ) && !final(self).pickups@[i].carried)
                &&& final(self).bars@.len() == bm.len()
                &&& (forall|i: int| 0 <= i < bm.len() ==> (#[trigger] final(self).bars@[i])
                    == bar_after(bm[i], dt_ms))
                &&& final(self).common.score == old(self).common.score + spec_score_gain(
                    bm,
                    dt_ms,
                    bm.len() as int,
                )
                &&& old(self).popup_requests@.is_prefix_of(final(self).popup_requests@)
                &&& final(self).popup_requests@.len() <= old(self).popup_requests@.len()
                    + bm.len()
            }),
            forall|j: int|
                old(self).popup_requests@.len() <= j < final(self).popup_requests@.len()
                    ==> popup_request_wf(#[trigger] final(self).popup_requests@[j]),
            final(self).props@.len() == old(self).props@.len() + old(self).item_events,
            forall|i: int| 0 <= i < old(self).props@.len() ==> (#[trigger] final(self).props@[i])
                == old(self).props@[i],
            forall|i: int|
                old(self).props@.len() <= i < final(self).props@.len() ==> in_window(
                    (#[trigger] final(self).props@[i]).pos,
                    win,
                ),
            final(self).common.enemy_speed == old(self).common.enemy_speed + SPEED_INCREMENT
                * count_cmd(commands@, PopupCommand::IncreaseCopSpeed, commands@.len() as int),
            final(self).item_events == 0,
            final(self).enemy_events == count_cmd(
                commands@,
                PopupCommand::AddCop,
                commands@.len() as int,
            ),
    {
        keyboard_input(&mut self.player, input, dt_ms);
        let speed0: i64 = self.common.enemy_speed;
        update_enemies(&mut self.enemies, dt_ms, win, speed0);
        let ghost w2 = *self;
        apply_velocity(&mut self.player, &mut self.enemies, dt_ms);
        let ghost w3 = *self;
        pull_inside_bounds(&mut self.player, &mut self.enemies, win);
        let ghost w4 = *self;
        let hit: bool = self.check_game_over();
        if hit {
            self.game_over_spawn();
        }
        let ghost w5 = *self;
        self.pick_up_usb();
        proof {
            lemma_first_free_hit_range(w5.player.pos, w5.pickups@, 0);
            assert forall|i: int| 0 <= i < self.pickups@.len() implies in_range(
                (#[trigger] self.pickups@[i]).pos,
                POS_SOFT,
            ) by {
                let f = first_free_hit(w5.player.pos, w5.pickups@);
                if w5.spec_is_carrying() || f < 0 {
                    assert(self.pickups@[i] == old(self).pickups@[i]);
                } else if i != f {
                    assert(self.pickups@[i] == old(self).pickups@[i]);
                }
            }
        }
        self.insert_usb();
        self.update_progress_and_spawn_popups(dt_ms);
        self.handle_item_events(win);
        self.add_enemy(win);
        let ghost w10 = *self;
        self.handle_popup_events(commands);
        proof {
            let n0 = old(self).enemies@.len() as int;
            let speed_g = old(self).common.enemy_speed;
            assert forall|i: int| 0 <= i < old(self).enemies@.len() implies enemy_frame_rel(
                old(self).enemies@[i],
                #[trigger] self.enemies@[i],
                old(self).common.enemy_speed,
                dt_ms,
                win,
                if count_cmd(commands@, PopupCommand::CopsTargetPlayer, commands@.len() as int)
                    > 0 {
                    Some(self.player.pos)
                } else {
                    None
                },
            ) by {
                let e0 = old(self).enemies@[i];
                let g = w2.enemies@[i].goal;
                let vs = vel_steered(e0, g, speed_g);
                assert(w2.enemies@[i].vel == vs);
                assert(w3.enemies@[i].pos == integrate_pos(e0.pos, vs, dt_ms));
                assert(w3.enemies@[i].vel == drag_vel(vs));
                assert(w4.enemies@[i].pos == w3.enemies@[i].pos);
                assert(w4.enemies@[i].vel == pull_vel(w4.enemies@[i].pos, drag_vel(vs), win));
                assert(w4.enemies@[i].change_goal == e0.change_goal.spec_after(dt_ms));
                assert(w4.enemies@[i].goal == g);
                assert(w10.enemies@[i] == w4.enemies@[i]);
                assert(self.enemies@[i].pos == w10.enemies@[i].pos);
                assert(self.enemies@[i].vel == w10.enemies@[i].vel);
                assert(self.enemies@[i].change_goal == w10.enemies@[i].change_goal);
                assert(self.enemies@[i].goal == (if count_cmd(
                    commands@,
                    PopupCommand::CopsTargetPlayer,
                    commands@.len() as int,
                ) > 0 {
                    w10.player.pos
                } else {
                    g
                }));
                assert(self.player == w10.player);
            }
            assert(self.player == w4.player);
            assert forall|i: int|
                0 <= i < n0 implies ((#[trigger] self.enemies@[i]).pos == w4.enemies@[i].pos) by {
                assert(w10.enemies@[i] == w4.enemies@[i]);
            }
            if w4.spec_enemy_hit() {
                let i = choose|i: int|
                    0 <= i < w4.enemies@.len() && spec_collides(
                        w4.player.pos,
                        w4.enemies@[i].pos,
                    );
                assert(spec_collides(self.player.pos, self.enemies@[i].pos));
            }
            if exists|i: int|
                0 <= i < n0 && spec_collides(
                    self.player.pos,
                    (#[trigger] self.enemies@[i]).pos,
                ) {
                let i = choose|i: int|
                    0 <= i < n0 && spec_collides(
                        self.player.pos,
                        (#[trigger] self.enemies@[i]).pos,
                    );
                assert(spec_collides(w4.player.pos, w4.enemies@[i].pos));
                assert(w4.spec_enemy_hit());
            }
            let pm = spec_pickups_mid(*old(self), self.player.pos);
            let pd = spec_pickups_del(pm, old(self).props@, self.player.pos);
            let offset = Vec2I { x: CARRY_OFFSET, y: CARRY_OFFSET };
            let di = first_delivery(pm, old(self).props@, self.player.pos);
            let f0 = first_free_hit(self.player.pos, old(self).pickups@);
            lemma_first_free_hit_range(w5.player.pos, w5.pickups@, 0);
            assert forall|j: int|
                0 <= j < pm.len() && (#[trigger] pm[j]).carried implies pm[j].pos == offset by {
                if old(self).spec_is_carrying() || f0 < 0 {
                    assert(pm[j] == old(self).pickups@[j]);
                } else if j != f0 {
                    assert(pm[j] == old(self).pickups@[j]);
                }
            }
            assert forall|a: int, b: int|
                0 <= a < pm.len() && 0 <= b < pm.len() && (#[trigger] pm[a]).carried && (
                #[trigger] pm[b]).carried implies a == b by {
                if old(self).spec_is_carrying() || f0 < 0 {
                    assert(pm[a] == old(self).pickups@[a]);
                    assert(pm[b] == old(self).pickups@[b]);
                } else {
                    if a != f0 {
                        assert(pm[a] == old(self).pickups@[a]);
                    }
                    if b != f0 {
                        assert(pm[b] == old(self).pickups@[b]);
                    }
                }
            }
            lemma_first_delivery_range(pm, old(self).props@, self.player.pos, 0);
            if di >= 0 {
                assert forall|a: int| 0 <= a < pd.len() implies #[trigger] pd[a] == (if a < di {
                    pm[a]
                } else {
                    pm[a + 1]
                }) by {
                    assert(pd =~= pm.remove(di));
                }
            }
            assert(forall|j: int|
                0 <= j < pd.len() && (#[trigger] pd[j]).carried ==> pd[j].pos == offset);
            assert(forall|a: int, b: int|
                0 <= a < pd.len() && 0 <= b < pd.len() && (#[trigger] pd[a]).carried && (
                #[trigger] pd[b]).carried ==> a == b);
            assert forall|i: int| 0 <= i < self.enemies@.len() implies (
            #[trigger] self.enemies@[i]).wf() by {
                if i < n0 {
                    assert(self.enemies@[i].change_goal == w2.enemies@[i].change_goal);
                    assert(w2.enemies@[i].wf());
                } else {
                    assert(spawned_enemy_wf(w10.enemies@[i], win));
                    assert(self.enemies@[i].change_goal == w10.enemies@[i].change_goal);
                }
            }
            lemma_count_cmd_bound(
                commands@,
                PopupCommand::IncreaseCopSpeed,
                commands@.len() as int,
            );
            assert(SPEED_INCREMENT * count_cmd(
                commands@,
                PopupCommand::IncreaseCopSpeed,
                commands@.len() as int,
            ) <= SPEED_INCREMENT * commands@.len() && 0 <= SPEED_INCREMENT * count_cmd(
                commands@,
                PopupCommand::IncreaseCopSpeed,
                commands@.len() as int,
            )) by (nonlinear_arith)
                requires
                    0 <= count_cmd(
                        commands@,
                        PopupCommand::IncreaseCopSpeed,
                        commands@.len() as int,
                    ) <= commands@.len(),
                    SPEED_INCREMENT > 0,
            ;
            assert(self.common.wf());
            assert(self.player.wf());
        }
    }
}

/// One progress tick moves progress by exactly one: a bar whose
/// quarter-second clock completes this frame gains exactly one point of
/// progress while below the maximum and none at it, a bar whose clock
/// does not complete keeps its progress, and progress never leaves
/// `[0, PROGRESS_MAX]`.
pub proof fn lemma_progress_step(b: ProgressBar, dt_ms: u64)
    requires
        b.wf(),
    ensures
        b.timer.spec_fires(dt_ms) && b.progress < PROGRESS_MAX ==> bar_after(b, dt_ms).progress
            == b.progress + 1,
        b.timer.spec_fires(dt_ms) && b.progress == PROGRESS_MAX ==> bar_after(b, dt_ms).progress
            == b.progress,
        !b.timer.spec_fires(dt_ms) ==> bar_after(b, dt_ms).progress == b.progress,
        bar_after(b, dt_ms).progress <= PROGRESS_MAX,
        bar_after(b, dt_ms).wf(),
{
}

} // verus!
