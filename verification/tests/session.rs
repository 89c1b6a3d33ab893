use crime_download::entities::{Common, Enemy, GameState, Pickup, Player, ProgressBar, Prop};
use crime_download::geom::{Vec2I, WindowSize};
use crime_download::input::{ButtonInteraction, InputState};
use crime_download::popups::{popup_by_prompt, insert_random_popup, PopupCommand};
use crime_download::timer::Timer;
use crime_download::world::{random_window_position, World};

fn win800x600() -> WindowSize {
    WindowSize { width: 800_000, height: 600_000 }
}

fn empty_world() -> World {
    World {
        state: GameState::InGame,
        common: Common::default(),
        player: Player::default(),
        enemies: Vec::new(),
        pickups: Vec::new(),
        props: Vec::new(),
        bars: Vec::new(),
        item_events: 0,
        enemy_events: 0,
        popup_requests: Vec::new(),
        game_over_ui: false,
    }
}

fn enemy_at(x: i64, y: i64) -> Enemy {
    Enemy {
        pos: Vec2I { x, y },
        vel: Vec2I { x: 0, y: 0 },
        goal: Vec2I { x, y },
        change_goal: Timer::new(5_000, true),
    }
}

#[test]
fn progress_increments_by_one_per_quarter_second() {
    let mut w = empty_world();
    w.bars.push(ProgressBar::default());
    w.update_progress_and_spawn_popups(250);
    assert_eq!(w.bars[0].progress, 1);
    assert_eq!(w.common.score, 0);
    // accumulated time: two 125 ms frames make one tick
    w.update_progress_and_spawn_popups(125);
    assert_eq!(w.bars[0].progress, 1);
    w.update_progress_and_spawn_popups(125);
    assert_eq!(w.bars[0].progress, 2);
}

#[test]
fn progress_caps_at_hundred_then_scores() {
    let mut w = empty_world();
    let mut bar = ProgressBar::default();
    bar.progress = 99;
    w.bars.push(bar);
    w.update_progress_and_spawn_popups(250);
    assert_eq!(w.bars[0].progress, 100);
    assert_eq!(w.common.score, 0);
    // at the maximum, each tick scores instead and progress stays put
    w.update_progress_and_spawn_popups(250);
    assert_eq!(w.bars[0].progress, 100);
    assert_eq!(w.common.score, 1);
    w.update_progress_and_spawn_popups(250);
    assert_eq!(w.bars[0].progress, 100);
    assert_eq!(w.common.score, 2);
}

#[test]
fn game_over_exactly_on_overlap() {
    let mut w = empty_world();
    w.enemies.push(enemy_at(49_999, 0));
    let hit = w.check_game_over();
    assert!(hit);
    assert_eq!(w.state, GameState::GameOver);

    // boundary touch at exactly 50 units is no collision
    let mut w = empty_world();
    w.enemies.push(enemy_at(50_000, 0));
    let hit = w.check_game_over();
    assert!(!hit);
    assert_eq!(w.state, GameState::InGame);
}

#[test]
fn game_over_with_no_enemies_is_a_no_op() {
    let mut w = empty_world();
    assert!(!w.check_game_over());
    assert_eq!(w.state, GameState::InGame);
}

#[test]
fn fresh_session_has_starting_cast() {
    let w = World::new(win800x600());
    assert_eq!(w.state, GameState::InGame);
    assert_eq!(w.common.score, 0);
    assert_eq!(w.common.enemy_speed, 60_000);
    assert_eq!(w.pickups.len(), 2);
    assert_eq!(w.props.len(), 2);
    assert_eq!(w.enemies.len(), 2);
    assert!(w.pickups.iter().all(|p| !p.carried));
    assert_eq!(w.bars.len(), 0);
    assert!(!w.game_over_ui);
}

#[test]
fn restart_fully_resets_the_session() {
    let win = win800x600();
    let mut w = World::new(win);
    // a session that went badly: score, inflated speed, game over screen up
    w.common.score = 7;
    w.common.enemy_speed = 75_000;
    w.state = GameState::GameOver;
    w.game_over_ui = true;
    w.enemies.push(enemy_at(0, 0));
    let mut input = InputState::none();
    input.key_r = true;
    w.step_game_over(&input, win);
    assert_eq!(w.state, GameState::InGame);
    assert!(!w.game_over_ui);
    assert_eq!(w.common.score, 0);
    assert_eq!(w.common.enemy_speed, 60_000);
    assert_eq!(w.pickups.len(), 2);
    assert_eq!(w.props.len(), 2);
    assert_eq!(w.enemies.len(), 2);
    assert_eq!(w.item_events, 0);
    assert_eq!(w.enemy_events, 0);
}

#[test]
fn game_over_frame_without_restart_changes_nothing() {
    let win = win800x600();
    let mut w = empty_world();
    w.state = GameState::GameOver;
    w.game_over_ui = true;
    w.common.score = 3;
    w.step_game_over(&InputState::none(), win);
    assert_eq!(w.state, GameState::GameOver);
    assert!(w.game_over_ui);
    assert_eq!(w.common.score, 3);
}

#[test]
fn pickup_becomes_carried_at_fixed_offset() {
    let mut w = empty_world();
    w.pickups.push(Pickup { pos: Vec2I { x: 10_000, y: 10_000 }, carried: false });
    w.pick_up_usb();
    assert!(w.pickups[0].carried);
    assert_eq!(w.pickups[0].pos, Vec2I { x: 30_000, y: 30_000 });
}

#[test]
fn no_second_pickup_while_carrying() {
    let mut w = empty_world();
    w.pickups.push(Pickup { pos: Vec2I { x: 30_000, y: 30_000 }, carried: true });
    w.pickups.push(Pickup { pos: Vec2I { x: 0, y: 0 }, carried: false });
    w.pick_up_usb();
    assert!(!w.pickups[1].carried);
    assert_eq!(w.pickups[1].pos, Vec2I { x: 0, y: 0 });
}

#[test]
fn pickup_out_of_reach_stays_free() {
    let mut w = empty_world();
    w.pickups.push(Pickup { pos: Vec2I { x: 90_000, y: 0 }, carried: false });
    w.pick_up_usb();
    assert!(!w.pickups[0].carried);
}

#[test]
fn delivery_consumes_pickup_and_spawns_bar() {
    let mut w = empty_world();
    // carried pickup rides at (30, 30) from the player at the origin
    w.pickups.push(Pickup { pos: Vec2I { x: 30_000, y: 30_000 }, carried: true });
    w.props.push(Prop { pos: Vec2I { x: 50_000, y: 50_000 } });
    w.insert_usb();
    assert_eq!(w.pickups.len(), 0);
    assert_eq!(w.bars.len(), 1);
    // the bar hangs 50 units above the prop, download at zero
    assert_eq!(w.bars[0].pos, Vec2I { x: 50_000, y: 100_000 });
    assert_eq!(w.bars[0].progress, 0);
    assert_eq!(w.bars[0].timer.elapsed_ms, 0);
    assert_eq!(w.bars[0].timer_popups.elapsed_ms, 0);
}

#[test]
fn no_delivery_when_no_prop_overlaps() {
    let mut w = empty_world();
    w.pickups.push(Pickup { pos: Vec2I { x: 30_000, y: 30_000 }, carried: true });
    w.props.push(Prop { pos: Vec2I { x: 200_000, y: 0 } });
    w.insert_usb();
    assert_eq!(w.pickups.len(), 1);
    assert_eq!(w.bars.len(), 0);
}

#[test]
fn speed_command_twice_adds_exactly_two_units() {
    let mut w = empty_world();
    let cmds = vec![PopupCommand::IncreaseCopSpeed, PopupCommand::IncreaseCopSpeed];
    w.handle_popup_events(&cmds);
    assert_eq!(w.common.enemy_speed, 62_000);
}

#[test]
fn add_cop_commands_queue_enemy_spawns() {
    let mut w = empty_world();
    let cmds = vec![PopupCommand::AddCop, PopupCommand::IncreaseCopSpeed, PopupCommand::AddCop];
    w.handle_popup_events(&cmds);
    assert_eq!(w.enemy_events, 2);
    assert_eq!(w.common.enemy_speed, 61_000);
}

#[test]
fn retarget_command_snaps_all_goals_to_player() {
    let mut w = empty_world();
    w.player.pos = Vec2I { x: 123_000, y: -45_000 };
    w.enemies.push(enemy_at(0, 0));
    w.enemies.push(enemy_at(200_000, 200_000));
    let cmds = vec![PopupCommand::CopsTargetPlayer];
    w.handle_popup_events(&cmds);
    assert_eq!(w.enemies[0].goal, Vec2I { x: 123_000, y: -45_000 });
    assert_eq!(w.enemies[1].goal, Vec2I { x: 123_000, y: -45_000 });
    // positions and velocities are untouched
    assert_eq!(w.enemies[0].pos, Vec2I { x: 0, y: 0 });
    assert_eq!(w.enemies[1].pos, Vec2I { x: 200_000, y: 200_000 });
}

#[test]
fn retarget_with_no_enemies_is_a_no_op() {
    let mut w = empty_world();
    let cmds = vec![PopupCommand::CopsTargetPlayer];
    w.handle_popup_events(&cmds);
    assert_eq!(w.enemies.len(), 0);
}

#[test]
fn enemy_spawner_drains_queue_at_corner() {
    let win = win800x600();
    let mut w = empty_world();
    w.enemy_events = 3;
    w.add_enemy(win);
    assert_eq!(w.enemy_events, 0);
    assert_eq!(w.enemies.len(), 3);
    for e in w.enemies.iter() {
        assert_eq!(e.pos, Vec2I { x: -400_000, y: -300_000 });
        assert_eq!(e.vel, Vec2I { x: 0, y: 0 });
        assert!(-400_000 <= e.goal.x && e.goal.x <= 400_000);
        assert!(-300_000 <= e.goal.y && e.goal.y <= 300_000);
        assert!(1_000 <= e.change_goal.duration_ms && e.change_goal.duration_ms < 10_000);
        assert!(e.change_goal.repeating);
    }
}

#[test]
fn item_spawner_places_pairs_in_window() {
    let win = win800x600();
    let mut w = empty_world();
    w.item_events = 2;
    w.handle_item_events(win);
    assert_eq!(w.item_events, 0);
    assert_eq!(w.props.len(), 2);
    assert_eq!(w.pickups.len(), 2);
    for p in w.props.iter() {
        assert!(-400_000 <= p.pos.x && p.pos.x <= 400_000);
        assert!(-300_000 <= p.pos.y && p.pos.y <= 300_000);
    }
    for p in w.pickups.iter() {
        assert!(!p.carried);
        assert!(-400_000 <= p.pos.x && p.pos.x <= 400_000);
        assert!(-300_000 <= p.pos.y && p.pos.y <= 300_000);
    }
}

#[test]
fn random_popup_request_is_well_formed() {
    let mut q = Vec::new();
    let r = insert_random_popup(&mut q);
    assert_eq!(q.len(), 1);
    assert!(r.prompt < 6);
    assert!(r.location < 9);
    let (command, on_confirm) = popup_by_prompt(r.prompt);
    assert_eq!(r.command, command);
    assert_eq!(r.on_confirm, on_confirm);
}

#[test]
fn random_position_is_inside_window() {
    let win = win800x600();
    for _ in 0..50 {
        let p = random_window_position(win);
        assert!(-400_000 <= p.x && p.x < 400_000);
        assert!(-300_000 <= p.y && p.y < 300_000);
    }
}

#[test]
fn quiet_frame_keeps_playing() {
    let win = win800x600();
    let mut w = World::new(win);
    let cmds: Vec<PopupCommand> = Vec::new();
    w.step_in_game(&InputState::none(), &cmds, 16, win);
    assert_eq!(w.state, GameState::InGame);
    assert!(!w.game_over_ui);
    assert_eq!(w.item_events, 0);
    assert_eq!(w.enemy_events, 0);
    assert_eq!(w.props.len(), 2);
    assert_eq!(w.enemies.len(), 2);
}

#[test]
fn is_carrying_reflects_pickups() {
    let mut w = empty_world();
    assert!(!w.is_carrying());
    w.pickups.push(Pickup { pos: Vec2I { x: 0, y: 0 }, carried: false });
    assert!(!w.is_carrying());
    w.pickups.push(Pickup { pos: Vec2I { x: 30_000, y: 30_000 }, carried: true });
    assert!(w.is_carrying());
}

#[test]
fn button_states_besides_pressed_do_not_restart() {
    let win = win800x600();
    let mut w = empty_world();
    w.state = GameState::GameOver;
    let mut input = InputState::none();
    input.button = ButtonInteraction::Hovered;
    w.step_game_over(&input, win);
    assert_eq!(w.state, GameState::GameOver);
}

#[test]
fn random_positions_vary() {
    let win = win800x600();
    let mut xs: Vec<i64> = Vec::new();
    for _ in 0..100 {
        xs.push(random_window_position(win).x);
    }
    let first = xs[0];
    assert!(xs.iter().any(|x| *x != first), "a hundred draws all identical");
}

#[test]
fn random_popups_vary() {
    let mut q = Vec::new();
    for _ in 0..100 {
        insert_random_popup(&mut q);
    }
    let first = (q[0].prompt, q[0].location);
    assert!(
        q.iter().any(|r| (r.prompt, r.location) != first),
        "a hundred popup draws all identical"
    );
}
