use flappy::render::RenderCommand;
use flappy::session::GameMode;
use flappy::session::GameSession;
use flappy::session::InputEvent;

#[test]
fn new_session_starts_in_menu() {
    let s = GameSession::new();
    assert_eq!(s.mode, GameMode::Menu);
    assert_eq!(s.player.world_x, 5);
    assert_eq!(s.player.y, 25);
    assert_eq!(s.player.velocity, 0);
    assert_eq!(s.score, 0);
    assert_eq!(s.obstacles.len(), 0);
    assert_eq!(s.accumulated_time_micros, 0);
}

#[test]
fn one_step_in_playing_mode() {
    // Fresh session in Playing mode, score 0, player at (5, 25); one
    // physics step with no flap.
    let mut s = GameSession::new();
    s.restart();
    assert_eq!(s.mode, GameMode::Playing);
    assert_eq!(s.score, 0);
    s.play(InputEvent::Other, 80_000);
    assert_eq!(s.player.velocity, 1);
    assert_eq!(s.player.y, 26);
    assert_eq!(s.player.world_x, 6);
}

#[test]
fn at_most_one_step_per_call() {
    // Even a huge elapsed time fires a single physics step and resets the
    // accumulator; steps are not caught up in a loop.
    let mut s = GameSession::new();
    s.restart();
    s.play(InputEvent::Other, 1_000_000);
    assert_eq!(s.player.world_x, 6);
    assert_eq!(s.accumulated_time_micros, 0);
}

#[test]
fn accumulator_boundary() {
    // Exactly 75 ms does not exceed the threshold; one more microsecond
    // does.
    let mut s = GameSession::new();
    s.restart();
    s.play(InputEvent::Other, 75_000);
    assert_eq!(s.player.world_x, 5);
    assert_eq!(s.accumulated_time_micros, 75_000);
    s.play(InputEvent::Other, 1);
    assert_eq!(s.player.world_x, 6);
    assert_eq!(s.accumulated_time_micros, 0);
}

#[test]
fn spawn_into_empty_stream() {
    // Score 0, empty obstacle sequence, player at column 5: the spawn step
    // makes exactly one obstacle, one screen width ahead.
    let mut s = GameSession::new();
    s.restart();
    s.push_obstacle();
    assert_eq!(s.obstacles.len(), 1);
    assert_eq!(s.obstacles[0].world_x, 85);
    assert_eq!(s.obstacles[0].gap_size, 20);
    assert!(s.obstacles[0].gap_center_y >= 10);
    assert!(s.obstacles[0].gap_center_y < 40);
}

#[test]
fn spawn_keeps_columns_strictly_ascending() {
    let mut s = GameSession::new();
    s.restart();
    s.push_obstacle();
    // One column of forward scroll brings the first obstacle into the spawn
    // window; the next one must land strictly beyond it and at least a
    // screen width ahead of the player.
    s.player.world_x = 6;
    s.push_obstacle();
    assert_eq!(s.obstacles.len(), 2);
    assert!(s.obstacles[1].world_x > s.obstacles[0].world_x);
    assert!(s.obstacles[1].world_x >= s.player.world_x + 80);
    // The second obstacle is out of the spawn window, so nothing more
    // spawns.
    s.push_obstacle();
    assert_eq!(s.obstacles.len(), 2);
}

#[test]
fn eviction_scores_once_per_obstacle() {
    let mut s = GameSession::new();
    s.restart();
    s.push_obstacle();
    assert_eq!(s.obstacles[0].world_x, 85);
    // Move the player past the obstacle; the next update evicts it and
    // scores exactly once.
    s.player.world_x = 86;
    s.play(InputEvent::Other, 0);
    assert_eq!(s.score, 1);
    // The evicted obstacle is gone; a fresh one spawned ahead.
    assert_eq!(s.obstacles.len(), 1);
    assert_eq!(s.obstacles[0].world_x, 166);
    // No eviction on the next update: the score stays.
    s.play(InputEvent::Other, 0);
    assert_eq!(s.score, 1);
}

#[test]
fn pop_obstacle_only_removes_passed_obstacles() {
    let mut s = GameSession::new();
    s.restart();
    s.push_obstacle();
    assert!(!s.pop_obstacle());
    assert_eq!(s.obstacles.len(), 1);
    s.player.world_x = 86;
    assert!(s.pop_obstacle());
    assert_eq!(s.obstacles.len(), 0);
}

#[test]
fn falling_out_of_bounds_ends_round() {
    // player.y set to 51 (> screen height 50): mode becomes Over on the
    // next update.
    let mut s = GameSession::new();
    s.restart();
    s.player.y = 51;
    s.play(InputEvent::Other, 0);
    assert_eq!(s.mode, GameMode::Over);
}

#[test]
fn collision_ends_round() {
    let mut s = GameSession::new();
    s.restart();
    s.push_obstacle();
    let gap_center = s.obstacles[0].gap_center_y;
    // Stand in the obstacle's column, just below the gap (half-height is
    // 20/2 = 10 at score 0).
    s.player.world_x = 85;
    s.player.y = gap_center + 11;
    s.play(InputEvent::Other, 0);
    assert_eq!(s.mode, GameMode::Over);
}

#[test]
fn passing_through_the_gap_is_safe() {
    let mut s = GameSession::new();
    s.restart();
    s.push_obstacle();
    let gap_center = s.obstacles[0].gap_center_y;
    s.player.world_x = 85;
    s.player.y = gap_center;
    s.play(InputEvent::Other, 0);
    assert_eq!(s.mode, GameMode::Playing);
}

#[test]
fn restart_after_over_resets_session() {
    let mut s = GameSession::new();
    s.restart();
    s.player.y = 51;
    s.play(InputEvent::Other, 0);
    assert_eq!(s.mode, GameMode::Over);
    // Start input on the game-over screen begins a fresh round.
    let (_cmds, quit) = s.tick(InputEvent::Start, 0);
    assert!(!quit);
    assert_eq!(s.mode, GameMode::Playing);
    assert_eq!(s.score, 0);
    assert_eq!(s.obstacles.len(), 0);
    assert_eq!(s.player.world_x, 5);
    assert_eq!(s.player.y, 25);
    assert_eq!(s.player.velocity, 0);
    assert_eq!(s.accumulated_time_micros, 0);
}

#[test]
fn flap_applies_before_the_next_step() {
    let mut s = GameSession::new();
    s.restart();
    // The jump arrives on a frame without a physics step; the flap still
    // takes effect at once.
    s.play(InputEvent::Jump, 0);
    assert_eq!(s.player.velocity, -2);
    assert_eq!(s.player.y, 25);
    // The next step applies gravity to the flapped speed.
    s.play(InputEvent::Other, 80_000);
    assert_eq!(s.player.velocity, -1);
    assert_eq!(s.player.y, 24);
}

#[test]
fn quit_is_requested_from_menu_and_over() {
    let mut s = GameSession::new();
    let (_cmds, quit) = s.tick(InputEvent::Quit, 0);
    assert!(quit);
    assert_eq!(s.mode, GameMode::Menu);
    let mut t = GameSession::new();
    t.restart();
    t.player.y = 51;
    t.play(InputEvent::Other, 0);
    let (_cmds, quit_over) = t.tick(InputEvent::Quit, 0);
    assert!(quit_over);
    assert_eq!(t.mode, GameMode::Over);
    // Quit is ignored while playing.
    let mut u = GameSession::new();
    u.restart();
    let (_cmds, quit_play) = u.tick(InputEvent::Quit, 0);
    assert!(!quit_play);
    assert_eq!(u.mode, GameMode::Playing);
}

#[test]
fn score_never_decreases_while_playing() {
    let mut s = GameSession::new();
    s.restart();
    let mut last = s.score;
    for _ in 0..200 {
        if s.mode != GameMode::Playing {
            break;
        }
        s.play(InputEvent::Jump, 80_000);
        assert!(s.score >= last);
        last = s.score;
    }
}

#[test]
fn menu_screen_and_transitions() {
    let mut s = GameSession::new();
    let (cmds, quit) = s.tick(InputEvent::Other, 0);
    assert!(!quit);
    assert_eq!(s.mode, GameMode::Menu);
    assert_eq!(cmds.len(), 6);
    assert!(matches!(cmds[0], RenderCommand::ClearScreen));
    match &cmds[1] {
        RenderCommand::PrintText { col: 1, row: 1, text } => assert_eq!(text.as_str(), "ola bb!"),
        other => panic!("unexpected command: {:?}", other),
    }
    assert!(matches!(cmds[2], RenderCommand::ClearScreen));
    match &cmds[3] {
        RenderCommand::PrintCentered { row: 4, text } => {
            assert_eq!(text.as_str(), "Welcome to bb game!")
        },
        other => panic!("unexpected command: {:?}", other),
    }
    match &cmds[4] {
        RenderCommand::PrintCentered { row: 6, text } => {
            assert_eq!(text.as_str(), "Press [P] to start")
        },
        other => panic!("unexpected command: {:?}", other),
    }
    match &cmds[5] {
        RenderCommand::PrintCentered { row: 9, text } => {
            assert_eq!(text.as_str(), "Press [Q] to exit")
        },
        other => panic!("unexpected command: {:?}", other),
    }
    let (_cmds, started) = s.tick(InputEvent::Start, 0);
    assert!(!started);
    assert_eq!(s.mode, GameMode::Playing);
}

#[test]
fn game_over_screen() {
    let mut s = GameSession::new();
    s.restart();
    s.player.y = 51;
    s.play(InputEvent::Other, 0);
    assert_eq!(s.mode, GameMode::Over);
    let (cmds, quit) = s.tick(InputEvent::Other, 0);
    assert!(!quit);
    assert_eq!(s.mode, GameMode::Over);
    assert_eq!(cmds.len(), 6);
    match &cmds[3] {
        RenderCommand::PrintCentered { row: 5, text } => {
            assert_eq!(text.as_str(), "You are dead!.. Score: 0..!")
        },
        other => panic!("unexpected command: {:?}", other),
    }
}
