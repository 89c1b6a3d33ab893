//! What the keyboard and the restart button feed the simulation each
//! frame, and what the player does with it: 8-way digital movement with a
//! fixed angle table, the dash with its use-it-or-lose-it cooldown, and
//! the restart triggers on the game-over screen.

use vstd::prelude::*;
use crate::entities::{Player, DASH_MULT, PLAYER_SPEED};
use crate::fixed::{div_trunc, div_trunc_i64};
use crate::geom::{Vec2I, in_range};
use crate::motion::VEL_LIMIT;
use crate::timer::Timer;

verus! {

/// Fixed-point length of a diagonal unit-vector component (√2/2 in
/// milli-units).
pub const DIAG: i64 = 707;

/// Fixed-point length of a cardinal unit-vector component.
pub const UNIT: i64 = 1000;

/// The interaction state of the restart button on the game-over screen.
#[derive(Clone, Copy, PartialEq, Eq, Structural, Debug)]
pub enum ButtonInteraction {
    Pressed,
    Hovered,
    Idle,
}

/// The held keys and button state of one frame.
#[derive(Clone, Copy, PartialEq, Eq, Structural, Debug)]
pub struct InputState {
    /// Up arrow or W.
    pub up: bool,
    /// Down arrow or S.
    pub down: bool,
    /// Left arrow or A.
    pub left: bool,
    /// Right arrow or D.
    pub right: bool,
    /// Space: dash while playing, restart on the game-over screen.
    pub space: bool,
    /// Enter.
    pub enter: bool,
    /// The R key.
    pub key_r: bool,
    /// The restart button.
    pub button: ButtonInteraction,
}

impl InputState {
    /// A frame with nothing held.
    pub fn none() -> (i: InputState)
        ensures
            i == (InputState {
                up: false,
                down: false,
                left: false,
                right: false,
                space: false,
                enter: false,
                key_r: false,
                button: ButtonInteraction::Idle,
            }),
    {
        InputState {
            up: false,
            down: false,
            left: false,
            right: false,
            space: false,
            enter: false,
            key_r: false,
            button: ButtonInteraction::Idle,
        }
    }
}

/// The unit direction the held movement keys ask for: one of the four
/// cardinals, one of the four diagonals, or zero for any conflicting or
/// empty combination.
pub open spec fn move_dir(up: bool, down: bool, left: bool, right: bool) -> Vec2I {
    match (up, down, left, right) {
        (false, true, false, false) => Vec2I { x: 0, y: (-UNIT) as i64 },
        (true, false, false, false) => Vec2I { x: 0, y: UNIT },
        (false, false, true, false) => Vec2I { x: (-UNIT) as i64, y: 0 },
        (false, false, false, true) => Vec2I { x: UNIT, y: 0 },
        (true, false, true, false) => Vec2I { x: (-DIAG) as i64, y: DIAG },
        (true, false, false, true) => Vec2I { x: DIAG, y: DIAG },
        (false, true, true, false) => Vec2I { x: (-DIAG) as i64, y: (-DIAG) as i64 },
        (false, true, false, true) => Vec2I { x: DIAG, y: (-DIAG) as i64 },
        _ => Vec2I { x: 0, y: 0 },
    }
}

/// The dash cooldown as it stands after one frame of input: ticked, and
/// restarted whenever the dash key is pressed.
pub open spec fn spec_dash_cooldown_after(p: Player, i: InputState, dt_ms: u64) -> Timer {
    let ticked = p.dash_cooldown.spec_after(dt_ms);
    if i.space {
        Timer { elapsed_ms: 0, ..ticked }
    } else {
        ticked
    }
}

/// The dash duration as it stands after one frame of input: ticked, and
/// restarted only when the dash key is pressed while the cooldown had
/// already run out.
pub open spec fn spec_dash_duration_after(p: Player, i: InputState, dt_ms: u64) -> Timer {
    let ticked = p.dash_duration.spec_after(dt_ms);
    if i.space && p.dash_cooldown.spec_after(dt_ms).spec_finished() {
        Timer { elapsed_ms: 0, ..ticked }
    } else {
        ticked
    }
}

/// The speed the player moves with this frame: the base speed, or four
/// times it while the dash duration is still running.
pub open spec fn spec_player_speed(p: Player, i: InputState, dt_ms: u64) -> i64 {
    if spec_dash_duration_after(p, i, dt_ms).spec_finished() {
        PLAYER_SPEED
    } else {
        (PLAYER_SPEED * DASH_MULT) as i64
    }
}

/// The player's velocity after one frame of keyboard steering: the held
/// direction scaled by this frame's speed, added on.
pub open spec fn spec_vel_after_input(p: Player, i: InputState, dt_ms: u64) -> Vec2I {
    let dir = move_dir(i.up, i.down, i.left, i.right);
    let speed = spec_player_speed(p, i, dt_ms);
    Vec2I {
        x: (p.vel.x + div_trunc(dir.x * speed, 1000)) as i64,
        y: (p.vel.y + div_trunc(dir.y * speed, 1000)) as i64,
    }
}

/// One frame of keyboard input on the player: advances both dash timers,
/// applies the dash-key policy (pressing always restarts the cooldown, and
/// grants a dash only if the cooldown had finished), and adds the chosen
/// direction times this frame's speed to the velocity. The position is
/// untouched.
pub fn keyboard_input(p: &mut Player, input: &InputState, dt_ms: u64)
    requires
        old(p).wf(),
        in_range(old(p).vel, VEL_LIMIT),
        dt_ms <= 1_000_000_000,
    ensures
        final(p).wf(),
        final(p).pos == old(p).pos,
        final(p).dash_cooldown == spec_dash_cooldown_after(*old(p), *input, dt_ms),
        final(p).dash_duration == spec_dash_duration_after(*old(p), *input, dt_ms),
        final(p).vel == spec_vel_after_input(*old(p), *input, dt_ms),
        in_range(final(p).vel, (VEL_LIMIT + PLAYER_SPEED * DASH_MULT) as i64),
{
    p.dash_cooldown.tick(dt_ms);
    p.dash_duration.tick(dt_ms);

    if input.space {
        if p.dash_cooldown.finished() {
            p.dash_duration.reset();
        }
        p.dash_cooldown.reset();
    }

    let speed: i64 = if p.dash_duration.finished() {
        PLAYER_SPEED
    } else {
        PLAYER_SPEED * DASH_MULT
    };

    let dir: Vec2I = match (input.up, input.down, input.left, input.right) {
        (false, true, false, false) => Vec2I { x: 0, y: -UNIT },
        (true, false, false, false) => Vec2I { x: 0, y: UNIT },
        (false, false, true, false) => Vec2I { x: -UNIT, y: 0 },
        (false, false, false, true) => Vec2I { x: UNIT, y: 0 },
        (true, false, true, false) => Vec2I { x: -DIAG, y: DIAG },
        (true, false, false, true) => Vec2I { x: DIAG, y: DIAG },
        (false, true, true, false) => Vec2I { x: -DIAG, y: -DIAG },
        (false, true, false, true) => Vec2I { x: DIAG, y: -DIAG },
        _ => Vec2I { x: 0, y: 0 },
    };

    p.vel.x = p.vel.x + div_trunc_i64(dir.x * speed, 1000);
    p.vel.y = p.vel.y + div_trunc_i64(dir.y * speed, 1000);
}

/// The player asked to restart: the dash key, the confirm key, the R key,
/// or a press of the restart button.
pub open spec fn spec_wants_restart(i: InputState) -> bool {
    i.space || i.enter || i.key_r || i.button is Pressed
}

/// Reads the restart triggers of the game-over screen.
pub fn check_restart(input: &InputState) -> (r: bool)
    ensures
        r == spec_wants_restart(*input),
{
    input.space || input.enter || input.key_r || matches!(input.button, ButtonInteraction::Pressed)
}

} // verus!
