use pong::app::App;
use pong::direction::Direction;
use pong::input::{InputEvent, KeyCode};
use pong::menu::{CurrentScreen, CurrentSelection};

fn in_game() -> App {
    let mut app = App::new();
    app.handle_input(InputEvent::Press(KeyCode::Enter));
    assert!(matches!(app.current_screen, CurrentScreen::InGame));
    app
}

#[test]
fn new_session_starts_in_menu() {
    let app = App::new();
    assert!(matches!(app.current_screen, CurrentScreen::StartMenu));
    assert!(matches!(app.current_selection, Some(CurrentSelection::NewGame)));
    assert!(!app.should_exit());
    assert_eq!(app.tick_count, 0);
    assert_eq!(app.ball.x, 10);
    assert_eq!(app.ball.y, 10);
    assert_eq!(app.ball.radius, 5);
    assert_eq!(app.p1.lifes, 3);
    assert_eq!(app.p2.lifes, 3);
    assert_eq!(app.p1.paddle.x, 10);
    assert_eq!(app.p2.paddle.x, 190);
    assert_eq!(app.p1.paddle.y, 10);
    assert_eq!(app.p2.paddle.y, 10);
    assert_eq!(app.playground.right, 200);
    assert_eq!(app.playground.bottom, 100);
}

#[test]
fn selection_toggles_with_either_control_set() {
    let mut app = App::new();
    app.handle_input(InputEvent::Press(KeyCode::Down));
    assert!(matches!(app.current_selection, Some(CurrentSelection::Exit)));
    app.handle_input(InputEvent::Press(KeyCode::Up));
    assert!(matches!(app.current_selection, Some(CurrentSelection::NewGame)));
    app.handle_input(InputEvent::Press(KeyCode::CharW));
    assert!(matches!(app.current_selection, Some(CurrentSelection::Exit)));
    app.handle_input(InputEvent::Press(KeyCode::CharS));
    assert!(matches!(app.current_selection, Some(CurrentSelection::NewGame)));
    assert!(matches!(app.current_screen, CurrentScreen::StartMenu));
    assert!(!app.should_exit());
}

#[test]
fn confirm_new_game_enters_play_with_lives_intact() {
    let mut app = App::new();
    app.handle_input(InputEvent::Press(KeyCode::Enter));
    assert!(matches!(app.current_screen, CurrentScreen::InGame));
    assert!(matches!(app.current_selection, Some(CurrentSelection::NewGame)));
    assert_eq!(app.p1.lifes, 3);
    assert_eq!(app.p2.lifes, 3);
    assert!(!app.should_exit());
}

#[test]
fn confirm_exit_signals_exit_and_clears_selection() {
    let mut app = App::new();
    app.handle_input(InputEvent::Press(KeyCode::Down));
    app.handle_input(InputEvent::Press(KeyCode::Enter));
    assert!(app.should_exit());
    assert!(app.current_selection.is_none());
    assert!(matches!(app.current_screen, CurrentScreen::StartMenu));
}

#[test]
fn quit_key_in_menu_exits_and_in_game_returns_to_menu() {
    let mut app = App::new();
    app.handle_input(InputEvent::Press(KeyCode::CharQ));
    assert!(app.should_exit());

    let mut app = in_game();
    app.handle_input(InputEvent::Press(KeyCode::CharQ));
    assert!(matches!(app.current_screen, CurrentScreen::StartMenu));
    assert!(!app.should_exit());
}

#[test]
fn unrecognized_key_is_a_no_op() {
    let mut app = App::new();
    app.handle_input(InputEvent::Press(KeyCode::Other));
    app.handle_input(InputEvent::Release(KeyCode::Other));
    assert!(matches!(app.current_screen, CurrentScreen::StartMenu));
    assert!(matches!(app.current_selection, Some(CurrentSelection::NewGame)));
    assert!(!app.should_exit());
    assert_eq!(app.tick_count, 0);
}

#[test]
fn opposite_keys_cancel() {
    let mut app = in_game();
    app.handle_input(InputEvent::Press(KeyCode::CharW));
    assert!(matches!(app.p1.direction, Direction::Up));
    app.handle_input(InputEvent::Press(KeyCode::CharS));
    assert!(matches!(app.p1.direction, Direction::Na));

    app.handle_input(InputEvent::Press(KeyCode::Up));
    assert!(matches!(app.p2.direction, Direction::Up));
    app.handle_input(InputEvent::Press(KeyCode::Down));
    assert!(matches!(app.p2.direction, Direction::Na));
}

#[test]
fn release_always_cancels() {
    let mut app = in_game();
    // Releasing the held key stops the paddle.
    app.handle_input(InputEvent::Press(KeyCode::CharW));
    assert!(matches!(app.p1.direction, Direction::Up));
    app.handle_input(InputEvent::Release(KeyCode::CharW));
    assert!(matches!(app.p1.direction, Direction::Na));
    // Releasing either key while the other is conceptually still held
    // also leaves the paddle stopped (documented simplification).
    app.handle_input(InputEvent::Press(KeyCode::Up));
    app.handle_input(InputEvent::Press(KeyCode::Down));
    assert!(matches!(app.p2.direction, Direction::Na));
    app.handle_input(InputEvent::Release(KeyCode::Up));
    assert!(matches!(app.p2.direction, Direction::Na));
}

#[test]
fn menu_directional_keys_do_not_steer_paddles_in_game() {
    let mut app = in_game();
    app.handle_input(InputEvent::Press(KeyCode::Up));
    assert!(matches!(app.p1.direction, Direction::Na));
    assert!(matches!(app.p2.direction, Direction::Up));
    assert!(matches!(app.current_selection, Some(CurrentSelection::NewGame)));
}

#[test]
fn paddles_clamp_at_both_ends() {
    let mut app = in_game();
    app.handle_input(InputEvent::Press(KeyCode::CharW));
    app.handle_input(InputEvent::Press(KeyCode::Up));
    for _ in 0..200 {
        app.on_tick();
        assert!(0 <= app.p1.paddle.y && app.p1.paddle.y <= 80);
        assert!(0 <= app.p2.paddle.y && app.p2.paddle.y <= 80);
    }
    assert_eq!(app.p1.paddle.y, 80);
    assert_eq!(app.p2.paddle.y, 80);

    app.handle_input(InputEvent::Release(KeyCode::CharW));
    app.handle_input(InputEvent::Press(KeyCode::CharS));
    app.handle_input(InputEvent::Release(KeyCode::Up));
    app.handle_input(InputEvent::Press(KeyCode::Down));
    for _ in 0..200 {
        app.on_tick();
        assert!(0 <= app.p1.paddle.y && app.p1.paddle.y <= 80);
        assert!(0 <= app.p2.paddle.y && app.p2.paddle.y <= 80);
    }
    assert_eq!(app.p1.paddle.y, 0);
    assert_eq!(app.p2.paddle.y, 0);
}

#[test]
fn menu_tick_advances_counter_without_physics() {
    let mut app = App::new();
    app.on_tick();
    assert_eq!(app.tick_count, 1);
    assert_eq!(app.ball.x, 10);
    assert_eq!(app.ball.y, 10);
    assert_eq!(app.p1.lifes, 3);
}

#[test]
fn first_in_game_tick_moves_ball_diagonally() {
    let mut app = in_game();
    app.on_tick();
    assert_eq!(app.tick_count, 1);
    assert_eq!(app.ball.x, 11);
    assert_eq!(app.ball.y, 11);
    assert_eq!(app.p1.lifes, 3);
    assert_eq!(app.p2.lifes, 3);
}

#[test]
fn bottom_wall_bounce_reflects_vy() {
    let mut app = in_game();
    app.ball.x = 100;
    app.ball.y = 96;
    app.vx = 1;
    app.vy = 1;
    app.on_tick();
    assert_eq!(app.vy, -1);
    assert_eq!(app.ball.y, 95);
    assert_eq!(app.ball.x, 101);
    assert_eq!(app.vx, 1);
}

#[test]
fn top_wall_bounce_reflects_vy() {
    let mut app = in_game();
    app.ball.x = 100;
    app.ball.y = 4;
    app.vx = 1;
    app.vy = -1;
    app.on_tick();
    assert_eq!(app.vy, 1);
    assert_eq!(app.ball.y, 5);
}

#[test]
fn paddle_bounce_mirrors_vx_only() {
    let mut app = in_game();
    // Player 1's paddle spans heights (10, 30); the ball's center is
    // inside it and its leading edge has reached the paddle's rail.
    app.ball.x = 14;
    app.ball.y = 15;
    app.vx = -1;
    app.vy = 1;
    app.on_tick();
    assert_eq!(app.vx, 1);
    assert_eq!(app.vy, 1);
    assert_eq!(app.ball.x, 15);
    assert_eq!(app.p1.lifes, 3);
}

#[test]
fn paddle_span_is_exclusive_at_its_edge() {
    let mut app = in_game();
    // Ball center exactly at the paddle's lower edge: no bounce.
    app.ball.x = 14;
    app.ball.y = 10;
    app.vx = -1;
    app.vy = 1;
    app.on_tick();
    assert_eq!(app.vx, -1);
    assert_eq!(app.ball.x, 13);
}

// Scoring is edge-triggered: a crossing scores only while the ball still
// moves outward, so a ball lingering past the boundary cannot drain lives
// tick after tick.
#[test]
fn left_crossing_scores_exactly_once() {
    let mut app = in_game();
    app.ball.x = 2;
    app.ball.y = 50;
    app.vx = -1;
    app.vy = 1;
    app.on_tick();
    assert_eq!(app.p1.lifes, 2);
    assert_eq!(app.vx, 1);
    // The ball lingers past the edge for a few more ticks while moving
    // back in; no further life is taken.
    for _ in 0..5 {
        app.on_tick();
        assert_eq!(app.p1.lifes, 2);
    }
    assert!(!app.should_exit());
}

#[test]
fn right_crossing_scores_against_player_2() {
    let mut app = in_game();
    app.ball.x = 198;
    app.ball.y = 50;
    app.vx = 1;
    app.vy = 1;
    app.on_tick();
    assert_eq!(app.p2.lifes, 2);
    assert_eq!(app.vx, -1);
    assert_eq!(app.p1.lifes, 3);
}

#[test]
fn repeated_left_crossings_end_the_session() {
    let mut app = in_game();
    app.ball.y = 50;
    for expected in [2u64, 1, 0] {
        app.ball.x = 2;
        app.vx = -1;
        app.on_tick();
        assert_eq!(app.p1.lifes, expected);
    }
    assert!(app.should_exit());
}

#[test]
fn losing_last_life_sets_exit() {
    let mut app = in_game();
    app.ball.x = 2;
    app.ball.y = 50;
    app.vx = -1;
    app.p1.lifes = 1;
    app.on_tick();
    assert_eq!(app.p1.lifes, 0);
    assert!(app.should_exit());
}

#[test]
fn direction_add_combines_held_directions() {
    assert!(matches!(Direction::Up.add(Direction::Up), Direction::Na));
    assert!(matches!(Direction::Up.add(Direction::Down), Direction::Na));
    assert!(matches!(Direction::Down.add(Direction::Up), Direction::Na));
    assert!(matches!(Direction::Down.add(Direction::Down), Direction::Na));
    assert!(matches!(Direction::Up.add(Direction::Na), Direction::Up));
    assert!(matches!(Direction::Na.add(Direction::Up), Direction::Up));
    assert!(matches!(Direction::Down.add(Direction::Na), Direction::Down));
    assert!(matches!(Direction::Na.add(Direction::Down), Direction::Down));
    assert!(matches!(Direction::Na.add(Direction::Na), Direction::Na));
}

#[test]
fn thousand_ticks_without_input() {
    let mut app = App::new();
    app.handle_input(InputEvent::Press(KeyCode::Enter));
    assert!(matches!(app.current_screen, CurrentScreen::InGame));
    assert!(matches!(app.current_selection, Some(CurrentSelection::NewGame)));
    let mut px = app.ball.x;
    let mut py = app.ball.y;
    for _ in 0..1000 {
        app.on_tick();
        // One unit per axis per tick, whatever reflections happened.
        assert_eq!((app.ball.x - px).abs(), 1);
        assert_eq!((app.ball.y - py).abs(), 1);
        px = app.ball.x;
        py = app.ball.y;
    }
    assert_eq!(app.tick_count, 1000);
    assert_eq!(app.p1.lifes, 3);
    assert_eq!(app.p2.lifes, 3);
    assert!(!app.should_exit());
    assert!(matches!(app.current_selection, Some(CurrentSelection::NewGame)));
    assert_eq!(app.ball.x, 116);
    assert_eq!(app.ball.y, 90);
}
