use crime_download::entities::{Enemy, Player};
use crime_download::geom::{Vec2I, WindowSize};
use crime_download::timer::Timer;
use crime_download::world::{apply_velocity, pull_inside_bounds, update_enemies};

/// An enemy goal-seeking across an 800-by-600 window converges: after
/// enough frames its distance to the goal falls under the six-unit
/// margin, and with no steering left its velocity decays all the way to
/// zero.
#[test]
fn wandering_enemy_converges_on_goal_and_settles() {
    let win = WindowSize { width: 800_000, height: 600_000 };
    let mut player = Player::default();
    let mut enemies = vec![Enemy {
        pos: Vec2I { x: -400_000, y: -300_000 },
        vel: Vec2I { x: 0, y: 0 },
        goal: Vec2I { x: 120_000, y: 90_000 },
        // a re-target period far longer than the test, so the goal is fixed
        change_goal: Timer { duration_ms: 1_000_000_000, elapsed_ms: 0, repeating: true },
    }];

    for _ in 0..2_000 {
        update_enemies(&mut enemies, 16, win, 60_000);
        apply_velocity(&mut player, &mut enemies, 16);
        pull_inside_bounds(&mut player, &mut enemies, win);
    }

    let e = &enemies[0];
    let dx: i64 = e.goal.x - e.pos.x;
    let dy: i64 = e.goal.y - e.pos.y;
    assert!(dx * dx + dy * dy <= 36_000_000, "still {} milli-units off", (dx * dx + dy * dy));
    assert_eq!(e.vel, Vec2I { x: 0, y: 0 });
    // the goal never moved, and the player was never touched
    assert_eq!(e.goal, Vec2I { x: 120_000, y: 90_000 });
    assert_eq!(player.pos, Vec2I { x: 0, y: 0 });
}
