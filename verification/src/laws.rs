//! The guarantees the game core gives, stated and proved over the
//! spec-level transition functions of [`App`]: menu toggling, the
//! menu-to-game transition, paddle clamping, opposite-key cancellation,
//! wall bounce, single scoring per crossing, and the win condition.

use vstd::prelude::*;
use crate::app::App;
use crate::constants::{COORD_LIMIT, PADDLE_HEIGHT, PLAYGROUND_BOTTOM};
use crate::direction::Direction;
use crate::input::{InputEvent, KeyCode};
use crate::menu::{toggled, CurrentScreen, CurrentSelection};

verus! {

/// One thing the outer loop can do to a session: feed it an input event,
/// or advance it one tick.
#[derive(Clone, Copy, PartialEq, Eq, Structural, Debug)]
pub enum SessionStep {
    Input(InputEvent),
    Tick,
}

/// State after one step of the outer loop.
pub open spec fn session_step(s: App, step: SessionStep) -> App {
    match step {
        SessionStep::Input(event) => App::input_step(s, event),
        SessionStep::Tick => App::tick_step(s),
    }
}

/// State after a whole sequence of steps, first step first.
pub open spec fn run_steps(s: App, steps: Seq<SessionStep>) -> App
    decreases steps.len(),
{
    if steps.len() == 0 {
        s
    } else {
        run_steps(session_step(s, steps[0]), steps.skip(1))
    }
}

/// State after a whole sequence of input events, first event first.
pub open spec fn run_inputs(s: App, events: Seq<InputEvent>) -> App
    decreases events.len(),
{
    if events.len() == 0 {
        s
    } else {
        run_inputs(App::input_step(s, events[0]), events.skip(1))
    }
}

/// The event is a press of one of the four directional keys.
pub open spec fn is_directional_press(event: InputEvent) -> bool {
    match event {
        InputEvent::Press(code) => code.is_directional(),
        InputEvent::Release(_) => false,
    }
}

/// No single step can make a well-formed session ill-formed.
pub proof fn lemma_step_preserves_wf(s: App, step: SessionStep)
    requires
        s.wf(),
    ensures
        session_step(s, step).wf(),
{
}

/// No sequence of inputs and ticks can make a well-formed session
/// ill-formed.
pub proof fn lemma_wf_preserved(s: App, steps: Seq<SessionStep>)
    requires
        s.wf(),
    ensures
        run_steps(s, steps).wf(),
    decreases steps.len(),
{
    if steps.len() > 0 {
        lemma_step_preserves_wf(s, steps[0]);
        lemma_wf_preserved(session_step(s, steps[0]), steps.skip(1));
    }
}

/// Paddle clamp: under any sequence of inputs and ticks, each paddle
/// stays within `[0, PLAYGROUND_BOTTOM - PADDLE_HEIGHT]`.
pub proof fn lemma_paddles_stay_clamped(s: App, steps: Seq<SessionStep>)
    requires
        s.wf(),
    ensures
        0 <= run_steps(s, steps).p1.paddle.y <= PLAYGROUND_BOTTOM - PADDLE_HEIGHT,
        0 <= run_steps(s, steps).p2.paddle.y <= PLAYGROUND_BOTTOM - PADDLE_HEIGHT,
{
    lemma_wf_preserved(s, steps);
}

/// While the start menu is shown, a directional key press flips the
/// selection between its two entries and stays on the menu.
pub proof fn lemma_menu_press_toggles(s: App, code: KeyCode)
    requires
        s.current_screen == CurrentScreen::StartMenu,
        code.is_directional(),
    ensures
        ({
            let t = App::input_step(s, InputEvent::Press(code));
            &&& t.current_screen == CurrentScreen::StartMenu
            &&& t.current_selection == toggled(s.current_selection)
        }),
{
}

/// Selection toggling under whole sequences: any run of directional key
/// presses on the start menu leaves the screen on the menu and lands on
/// the starting selection after an even number of presses, on the other
/// entry after an odd number.
pub proof fn lemma_menu_presses_alternate(s: App, events: Seq<InputEvent>)
    requires
        s.current_screen == CurrentScreen::StartMenu,
        s.current_selection == Some(CurrentSelection::NewGame) || s.current_selection == Some(
            CurrentSelection::Exit,
        ),
        forall|i: int| 0 <= i < events.len() ==> is_directional_press(#[trigger] events[i]),
    ensures
        ({
            let t = run_inputs(s, events);
            &&& t.current_screen == CurrentScreen::StartMenu
            &&& t.current_selection == (if events.len() % 2 == 0 {
                s.current_selection
            } else {
                toggled(s.current_selection)
            })
        }),
    decreases events.len(),
{
    if events.len() > 0 {
        lemma_menu_presses_alternate(App::input_step(s, events[0]), events.skip(1));
    }
}

/// Selection toggling from the start: beginning at "New Game", the
/// selection strictly alternates between "New Game" and "Exit" with each
/// directional press.
pub proof fn lemma_selection_alternates_from_new_game(s: App, events: Seq<InputEvent>)
    requires
        s.current_screen == CurrentScreen::StartMenu,
        s.current_selection == Some(CurrentSelection::NewGame),
        forall|i: int| 0 <= i < events.len() ==> is_directional_press(#[trigger] events[i]),
    ensures
        run_inputs(s, events).current_selection == (if events.len() % 2 == 0 {
            Some(CurrentSelection::NewGame)
        } else {
            Some(CurrentSelection::Exit)
        }),
{
    lemma_menu_presses_alternate(s, events);
}

/// Menu-to-game transition: confirming with "New Game" selected always
/// starts play, keeps the selection, and leaves both players — lives
/// included — untouched.
pub proof fn lemma_confirm_new_game_starts_play(s: App)
    requires
        s.current_screen == CurrentScreen::StartMenu,
        s.current_selection == Some(CurrentSelection::NewGame),
    ensures
        ({
            let t = App::input_step(s, InputEvent::Press(KeyCode::Enter));
            &&& t.current_screen == CurrentScreen::InGame
            &&& t.current_selection == Some(CurrentSelection::NewGame)
            &&& t.p1 == s.p1
            &&& t.p2 == s.p2
            &&& t.p1.lifes == s.p1.lifes
            &&& t.p2.lifes == s.p2.lifes
        }),
{
}

/// Opposite-key cancel for player 1: pressing W and then S without a
/// release in between leaves the paddle with no intent.
pub proof fn lemma_opposite_keys_cancel_p1(s: App)
    requires
        s.current_screen == CurrentScreen::InGame,
        s.p1.direction != Direction::Down,
    ensures
        App::input_step(
            App::input_step(s, InputEvent::Press(KeyCode::CharW)),
            InputEvent::Press(KeyCode::CharS),
        ).p1.direction == Direction::Na,
{
}

/// Opposite-key cancel for player 2, with the arrow keys.
pub proof fn lemma_opposite_keys_cancel_p2(s: App)
    requires
        s.current_screen == CurrentScreen::InGame,
        s.p2.direction != Direction::Down,
    ensures
        App::input_step(
            App::input_step(s, InputEvent::Press(KeyCode::Up)),
            InputEvent::Press(KeyCode::Down),
        ).p2.direction == Direction::Na,
{
}

/// Releasing a directional key always stops the addressed paddle, no
/// matter which keys are conceptually still held.
pub proof fn lemma_release_always_cancels(s: App, code: KeyCode)
    requires
        s.current_screen == CurrentScreen::InGame,
        code.is_directional(),
    ensures
        code == KeyCode::CharW || code == KeyCode::CharS ==> App::input_step(
            s,
            InputEvent::Release(code),
        ).p1.direction == Direction::Na,
        code == KeyCode::Up || code == KeyCode::Down ==> App::input_step(
            s,
            InputEvent::Release(code),
        ).p2.direction == Direction::Na,
{
}

/// Wall bounce: a ball moving down the screen (`vy == 1`) that overlaps
/// the bottom edge leaves the next tick with `vy == -1`, its height
/// changed by exactly that one reflected unit.
pub proof fn lemma_bottom_wall_bounce(s: App)
    requires
        s.wf(),
        s.current_screen == CurrentScreen::InGame,
        s.vy == 1,
        s.ball.y + s.ball.radius > s.playground.bottom,
        -COORD_LIMIT <= s.ball.x <= COORD_LIMIT,
        -COORD_LIMIT <= s.ball.y <= COORD_LIMIT,
    ensures
        App::tick_step(s).vy == -1,
        App::tick_step(s).ball.y == s.ball.y - 1,
{
}

/// A ball moving right never scores against player 1, however long it
/// lingers past the left edge.
pub proof fn lemma_no_left_score_moving_right(s: App)
    requires
        s.vx > 0,
    ensures
        App::tick_step(s).p1.lifes == s.p1.lifes,
{
}

/// Scoring fires exactly once per boundary crossing: the tick in which
/// the ball crosses the left edge takes exactly one life from player 1
/// and turns the ball around, and the following tick — with the ball
/// still near the edge — takes none.
pub proof fn lemma_left_crossing_scores_once(s: App)
    requires
        s.wf(),
        s.current_screen == CurrentScreen::InGame,
        s.ball.x - s.ball.radius < s.playground.left,
        s.vx == -1,
        s.p1.lifes > 1,
        -COORD_LIMIT <= s.ball.x <= COORD_LIMIT,
        -COORD_LIMIT <= s.ball.y <= COORD_LIMIT,
    ensures
        ({
            let t = App::tick_step(s);
            let u = App::tick_step(t);
            &&& t.p1.lifes == s.p1.lifes - 1
            &&& t.vx == 1
            &&& u.p1.lifes == t.p1.lifes
        }),
{
}

/// Win condition: a left-edge crossing that takes player 1's last life
/// ends the session.
pub proof fn lemma_last_life_ends_session(s: App)
    requires
        s.wf(),
        s.current_screen == CurrentScreen::InGame,
        s.ball.x - s.ball.radius < s.playground.left,
        s.vx < 0,
        s.p1.lifes == 1,
    ensures
        App::tick_step(s).p1.lifes == 0,
        App::tick_step(s).exit,
{
}

} // verus!
