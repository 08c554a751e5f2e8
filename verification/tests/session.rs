use obstacle_run::game::{FrameInput, GameState, Phase};
use obstacle_run::obstacle::{Obstacle, ObstacleKind};
use obstacle_run::textfmt::{fail_message_text, score_label};

fn quiet_input() -> FrameInput {
    FrameInput {
        dt_ms: 0,
        jump_held: false,
        mouse_pressed: false,
        mouse_x: 0,
        mouse_y: 0,
        restart_pressed: false,
        view_w: 800,
        view_h: 600,
    }
}

#[test]
fn click_inside_start_control_begins_play() {
    let mut g = GameState::new(800, 600);
    assert_eq!(g.phase, Phase::Idle);
    let mut input = quiet_input();
    input.mouse_pressed = true;
    input.mouse_x = 400_000;
    input.mouse_y = 300_000;
    g.update(&input);
    assert_eq!(g.phase, Phase::Playing);
}

#[test]
fn click_outside_start_control_is_ignored() {
    let mut g = GameState::new(800, 600);
    let mut input = quiet_input();
    input.mouse_pressed = true;
    input.mouse_x = 700_000;
    input.mouse_y = 300_000;
    g.update(&input);
    assert_eq!(g.phase, Phase::Idle);
    assert_eq!(g.distance, 0);
    assert!(g.obstacles.is_empty());
}

#[test]
fn full_run_start_fail_restart() {
    let mut g = GameState::new(800, 600);

    // Idle -> Playing by a click in the centred start control
    let mut click = quiet_input();
    click.mouse_pressed = true;
    click.mouse_x = 400_000;
    click.mouse_y = 300_000;
    g.update(&click);
    assert_eq!(g.phase, Phase::Playing);

    // force an obstacle onto the body's hitbox; with dt 0 nothing moves
    g.obstacles.push(Obstacle {
        kind: ObstacleKind::Horizontal,
        pos_x: 80_000,
        pos_y: 480_000,
        width: 50_000,
        height: 50_000,
    });
    g.update(&quiet_input());
    assert_eq!(g.phase, Phase::Failed);
    assert_eq!(
        g.fail_message,
        "You hit an obstacle! You travelled 0.00 meters. Press 'S' to restart."
    );
    assert_eq!(g.obstacles.len(), 1);

    // Failed -> Idle on the restart key: a session equal to a fresh one
    let mut restart = quiet_input();
    restart.restart_pressed = true;
    g.update(&restart);
    let fresh = GameState::new(800, 600);
    assert_eq!(g.phase, fresh.phase);
    assert_eq!(g.distance, fresh.distance);
    assert_eq!(g.fail_message, fresh.fail_message);
    assert!(g.obstacles.is_empty());
    assert_eq!(g.player, fresh.player);
    assert_eq!(g.start_button.pos_x, fresh.start_button.pos_x);
    assert_eq!(g.start_button.pos_y, fresh.start_button.pos_y);
    assert_eq!(g.start_button.width, fresh.start_button.width);
    assert_eq!(g.start_button.height, fresh.start_button.height);
    assert_eq!(g.start_button.label, "Start");
}

#[test]
fn failed_session_without_restart_is_unchanged() {
    let mut g = GameState::new(800, 600);
    let mut click = quiet_input();
    click.mouse_pressed = true;
    click.mouse_x = 400_000;
    click.mouse_y = 300_000;
    g.update(&click);
    g.obstacles.push(Obstacle {
        kind: ObstacleKind::Horizontal,
        pos_x: 80_000,
        pos_y: 480_000,
        width: 50_000,
        height: 50_000,
    });
    g.update(&quiet_input());
    assert_eq!(g.phase, Phase::Failed);

    let before_player = g.player;
    let before_distance = g.distance;
    let before_message = g.fail_message.clone();
    let before_obstacles = g.obstacles.clone();
    // all manner of input, but no restart key
    let mut noisy = quiet_input();
    noisy.dt_ms = 500;
    noisy.jump_held = true;
    noisy.mouse_pressed = true;
    noisy.mouse_x = 400_000;
    noisy.mouse_y = 300_000;
    g.update(&noisy);
    assert_eq!(g.phase, Phase::Failed);
    assert_eq!(g.player, before_player);
    assert_eq!(g.distance, before_distance);
    assert_eq!(g.fail_message, before_message);
    assert_eq!(g.obstacles, before_obstacles);
}

#[test]
fn playing_frame_accumulates_distance_and_grounds_body() {
    macroquad::rand::srand(3);
    let mut g = GameState::new(800, 600);
    let mut click = quiet_input();
    click.mouse_pressed = true;
    click.mouse_x = 400_000;
    click.mouse_y = 300_000;
    g.update(&click);

    let mut frame = quiet_input();
    frame.dt_ms = 500;
    g.update(&frame);
    // distance runs at 2 px/s: 500 ms gives 1000 milli-px
    assert_eq!(g.distance, 1000);
    // half a second of gravity drops the body from 500 px to the floor
    assert!(g.player.grounded);
    assert_eq!(g.player.pos_y, 550_000);
    // at most the one random spawn may have happened
    assert!(g.obstacles.len() <= 1);
    assert_eq!(g.phase, Phase::Playing);
}

#[test]
fn score_label_formats_two_decimals() {
    assert_eq!(score_label(0), "0.00m");
    assert_eq!(score_label(999), "0.99m");
    assert_eq!(score_label(1_000), "1.00m");
    assert_eq!(score_label(12_345), "12.34m");
    assert_eq!(score_label(12_349), "12.34m");
    assert_eq!(score_label(1_000_000), "1000.00m");
}

#[test]
fn fail_message_embeds_frozen_distance() {
    assert_eq!(
        fail_message_text(32),
        "You hit an obstacle! You travelled 0.03 meters. Press 'S' to restart."
    );
    assert_eq!(
        fail_message_text(123_456),
        "You hit an obstacle! You travelled 123.45 meters. Press 'S' to restart."
    );
}
