//! The game session: the single aggregate owning the screen state machine,
//! both players, the ball, and the tick counter.  `handle_input` consumes
//! decoded key events; `on_tick` advances the simulation one fixed-rate
//! step.  Both are specified exactly by the spec-level transition functions
//! `input_step` and `tick_step`, so every observable effect of an event or
//! a tick is pinned down.

use vstd::prelude::*;
use crate::constants::{
    BALL_RADIUS, BALL_START_X, BALL_START_Y, COORD_LIMIT, P1_PADDLE_X, P2_PADDLE_X,
    PADDLE_HEIGHT, PADDLE_START_Y, PADDLE_WIDTH, PLAYGROUND_BOTTOM, PLAYGROUND_LEFT,
    PLAYGROUND_RIGHT, PLAYGROUND_TOP, STARTING_LIFES,
};
use crate::direction::Direction;
use crate::input::{InputEvent, KeyCode};
use crate::menu::{toggled, CurrentScreen, CurrentSelection};
use crate::player::{stepped_y, Paddle, Player};
use crate::playground::{Ball, Playground};

verus! {

/// The whole game state.
pub struct App {
    pub tick_count: u64,
    pub current_screen: CurrentScreen,
    pub current_selection: Option<CurrentSelection>,
    pub exit: bool,
    pub ball: Ball,
    pub playground: Playground,
    pub vx: i64,
    pub vy: i64,
    pub p1: Player,
    pub p2: Player,
}

impl App {
    /// Invariant of a session: the fixed geometry is in place, both
    /// players are valid and on their rails, the ball moves one unit per
    /// axis per tick, a player without lives means the session has ended,
    /// a cleared selection only occurs once exit is confirmed, and during
    /// play the selection is still the "New Game" entry it was confirmed
    /// with.
    pub open spec fn wf(self) -> bool {
        &&& self.playground == (Playground {
            left: PLAYGROUND_LEFT,
            top: PLAYGROUND_TOP,
            right: PLAYGROUND_RIGHT,
            bottom: PLAYGROUND_BOTTOM,
        })
        &&& self.ball.radius == BALL_RADIUS
        &&& self.p1.wf()
        &&& self.p2.wf()
        &&& self.p1.paddle.x == P1_PADDLE_X
        &&& self.p2.paddle.x == P2_PADDLE_X
        &&& (self.vx == 1 || self.vx == -1)
        &&& (self.vy == 1 || self.vy == -1)
        &&& (self.p1.lifes == 0 ==> self.exit)
        &&& (self.p2.lifes == 0 ==> self.exit)
        &&& (self.current_selection == None::<CurrentSelection> ==> self.exit)
        &&& (self.current_screen == CurrentScreen::InGame ==> self.current_selection == Some(
            CurrentSelection::NewGame,
        ))
    }

    /// The state a fresh session starts in.
    pub open spec fn init() -> App {
        App {
            tick_count: 0,
            current_screen: CurrentScreen::StartMenu,
            current_selection: Some(CurrentSelection::NewGame),
            exit: false,
            ball: Ball { x: BALL_START_X, y: BALL_START_Y, radius: BALL_RADIUS },
            playground: Playground {
                left: PLAYGROUND_LEFT,
                top: PLAYGROUND_TOP,
                right: PLAYGROUND_RIGHT,
                bottom: PLAYGROUND_BOTTOM,
            },
            vx: 1,
            vy: 1,
            p1: Player {
                paddle: Paddle {
                    x: P1_PADDLE_X,
                    y: PADDLE_START_Y,
                    width: PADDLE_WIDTH,
                    height: PADDLE_HEIGHT,
                },
                lifes: STARTING_LIFES,
                starting_lifes: STARTING_LIFES,
                direction: Direction::Na,
            },
            p2: Player {
                paddle: Paddle {
                    x: P2_PADDLE_X,
                    y: PADDLE_START_Y,
                    width: PADDLE_WIDTH,
                    height: PADDLE_HEIGHT,
                },
                lifes: STARTING_LIFES,
                starting_lifes: STARTING_LIFES,
                direction: Direction::Na,
            },
        }
    }

    // ------------------------------------------------------------------
    // Input transitions
    // ------------------------------------------------------------------

    /// State after pressing a directional key: during play it updates the
    /// addressed paddle's intent (opposing keys cancel), in the menu it
    /// flips the selection.
    pub open spec fn direction_press_step(s: App, code: KeyCode) -> App {
        if s.current_screen == CurrentScreen::InGame {
            match code {
                KeyCode::CharW => App {
                    p1: Player { direction: s.p1.direction.pressed(Direction::Up), ..s.p1 },
                    ..s
                },
                KeyCode::CharS => App {
                    p1: Player { direction: s.p1.direction.pressed(Direction::Down), ..s.p1 },
                    ..s
                },
                KeyCode::Up => App {
                    p2: Player { direction: s.p2.direction.pressed(Direction::Up), ..s.p2 },
                    ..s
                },
                KeyCode::Down => App {
                    p2: Player { direction: s.p2.direction.pressed(Direction::Down), ..s.p2 },
                    ..s
                },
                _ => s,
            }
        } else {
            App { current_selection: toggled(s.current_selection), ..s }
        }
    }

    /// State after confirming with Enter: only the menu reacts.  "New
    /// Game" starts play (the selection is kept), "Exit" clears the
    /// selection and signals exit.
    pub open spec fn selection_step(s: App) -> App {
        if s.current_screen == CurrentScreen::StartMenu {
            match s.current_selection {
                Some(CurrentSelection::NewGame) => App {
                    current_screen: CurrentScreen::InGame,
                    ..s
                },
                Some(CurrentSelection::Exit) => App {
                    current_selection: None,
                    exit: true,
                    ..s
                },
                None => s,
            }
        } else {
            s
        }
    }

    /// State after pressing Q: during play, back to the menu; in the
    /// menu, signal exit.
    pub open spec fn quit_step(s: App) -> App {
        if s.current_screen == CurrentScreen::InGame {
            App { current_screen: CurrentScreen::StartMenu, ..s }
        } else {
            App { exit: true, ..s }
        }
    }

    /// State after one key press.
    pub open spec fn press_step(s: App, code: KeyCode) -> App {
        match code {
            KeyCode::CharQ => Self::quit_step(s),
            KeyCode::Enter => Self::selection_step(s),
            KeyCode::Up | KeyCode::Down | KeyCode::CharW | KeyCode::CharS =>
                Self::direction_press_step(s, code),
            KeyCode::Other => s,
        }
    }

    /// State after one key release: releasing a directional key during
    /// play always cancels the addressed paddle's intent; everything else
    /// is a no-op.
    pub open spec fn release_step(s: App, code: KeyCode) -> App {
        if s.current_screen == CurrentScreen::InGame {
            match code {
                KeyCode::CharW | KeyCode::CharS => App {
                    p1: Player { direction: Direction::Na, ..s.p1 },
                    ..s
                },
                KeyCode::Up | KeyCode::Down => App {
                    p2: Player { direction: Direction::Na, ..s.p2 },
                    ..s
                },
                _ => s,
            }
        } else {
            s
        }
    }

    /// State after one input event.
    pub open spec fn input_step(s: App, event: InputEvent) -> App {
        match event {
            InputEvent::Press(code) => Self::press_step(s, code),
            InputEvent::Release(code) => Self::release_step(s, code),
        }
    }

    // ------------------------------------------------------------------
    // Tick transitions
    // ------------------------------------------------------------------

    /// The ball has crossed the left edge while moving left.  The
    /// direction guard makes a crossing score exactly once: the score
    /// flips the ball's direction, and a ball still past the edge but
    /// moving back in does not score again.
    pub open spec fn scores_left(s: App) -> bool {
        s.ball.x - s.ball.radius < s.playground.left && s.vx < 0
    }

    /// The ball has crossed the right edge while moving right.
    pub open spec fn scores_right(s: App) -> bool {
        s.ball.x + s.ball.radius > s.playground.right && s.vx > 0
    }

    /// The ball's leading edge has reached player 1's paddle while moving
    /// left, with the ball's center strictly inside the paddle's vertical
    /// span.  `p1y` is the paddle height after this tick's paddle motion,
    /// and `vx` the horizontal velocity after this tick's scoring.
    pub open spec fn hits_left_paddle(s: App, p1y: int, vx: int) -> bool {
        &&& s.ball.x - s.ball.radius < s.p1.paddle.x
        &&& p1y < s.ball.y < p1y + s.p1.paddle.height
        &&& vx < 0
    }

    /// The mirrored check against player 2's paddle.
    pub open spec fn hits_right_paddle(s: App, p2y: int, vx: int) -> bool {
        &&& s.ball.x + s.ball.radius > s.p2.paddle.x
        &&& p2y < s.ball.y < p2y + s.p2.paddle.height
        &&& vx > 0
    }

    /// The ball overlaps the top or bottom edge of the play field.
    pub open spec fn hits_wall(s: App) -> bool {
        s.ball.y - s.ball.radius < s.playground.top
            || s.ball.y + s.ball.radius > s.playground.bottom
    }

    /// One tick of physics, in order: paddle motion, scoring at the left
    /// and right edges, paddle bounce, wall bounce, and integration of
    /// the ball's position.  A score takes one life from the defending
    /// player; losing the last life ends the session, otherwise the
    /// ball's horizontal direction is inverted as a simplified restart.
    pub open spec fn physics_step(s: App) -> App {
        let p1y: int = stepped_y(s.p1.paddle.y as int, s.p1.direction);
        let p2y: int = stepped_y(s.p2.paddle.y as int, s.p2.direction);
        let scored_left = Self::scores_left(s) && s.p1.lifes > 0;
        let scored_right = Self::scores_right(s) && s.p2.lifes > 0;
        let lifes1: u64 = if scored_left { (s.p1.lifes - 1) as u64 } else { s.p1.lifes };
        let lifes2: u64 = if scored_right { (s.p2.lifes - 1) as u64 } else { s.p2.lifes };
        let exit = s.exit || (scored_left && s.p1.lifes == 1) || (scored_right && s.p2.lifes
            == 1);
        let vx_scored: int = if (scored_left && s.p1.lifes > 1) || (scored_right && s.p2.lifes
            > 1) {
            -(s.vx as int)
        } else {
            s.vx as int
        };
        let vx_new: int = if Self::hits_left_paddle(s, p1y, vx_scored) || Self::hits_right_paddle(
            s,
            p2y,
            vx_scored,
        ) {
            -vx_scored
        } else {
            vx_scored
        };
        let vy_new: int = if Self::hits_wall(s) {
            -(s.vy as int)
        } else {
            s.vy as int
        };
        App {
            ball: Ball {
                x: (s.ball.x + vx_new) as i64,
                y: (s.ball.y + vy_new) as i64,
                radius: s.ball.radius,
            },
            vx: vx_new as i64,
            vy: vy_new as i64,
            p1: Player {
                paddle: Paddle { y: p1y as i64, ..s.p1.paddle },
                lifes: lifes1,
                ..s.p1
            },
            p2: Player {
                paddle: Paddle { y: p2y as i64, ..s.p2.paddle },
                lifes: lifes2,
                ..s.p2
            },
            exit,
            ..s
        }
    }

    /// State after one tick: the tick counter always advances; physics
    /// runs only during play.
    pub open spec fn tick_step(s: App) -> App {
        let ticked = App { tick_count: (s.tick_count + 1) as u64, ..s };
        if s.current_screen == CurrentScreen::InGame {
            Self::physics_step(ticked)
        } else {
            ticked
        }
    }

    // ------------------------------------------------------------------
    // Executable interface
    // ------------------------------------------------------------------

    /// A fresh session: start menu with "New Game" highlighted, both
    /// players at full lives, the ball at its starting position and
    /// velocity.
    pub fn new() -> (app: App)
        ensures
            app == App::init(),
            app.wf(),
    {
        App {
            playground: Playground {
                left: PLAYGROUND_LEFT,
                top: PLAYGROUND_TOP,
                right: PLAYGROUND_RIGHT,
                bottom: PLAYGROUND_BOTTOM,
            },
            vx: 1,
            vy: 1,
            ball: Ball { x: BALL_START_X, y: BALL_START_Y, radius: BALL_RADIUS },
            tick_count: 0,
            current_screen: CurrentScreen::StartMenu,
            current_selection: Some(CurrentSelection::NewGame),
            exit: false,
            p1: Player::new(P1_PADDLE_X),
            p2: Player::new(P2_PADDLE_X),
        }
    }

    /// Whether the outer loop should stop.
    pub fn should_exit(&self) -> (b: bool)
        ensures
            b == self.exit,
    {
        self.exit
    }

    /// Signal exit: observed by the outer loop at its next iteration.
    fn exit(&mut self)
        ensures
            *final(self) == (App { exit: true, ..*old(self) }),
    {
        self.exit = true;
    }

    /// Q pressed: during play, back to the start menu; in the menu, quit.
    fn handle_q_event(&mut self)
        ensures
            *final(self) == Self::quit_step(*old(self)),
    {
        if self.current_screen == CurrentScreen::InGame {
            self.current_screen = CurrentScreen::StartMenu;
        } else {
            self.exit();
        }
    }

    /// Enter pressed: confirm the highlighted menu entry.
    fn handle_selection_event(&mut self)
        ensures
            *final(self) == Self::selection_step(*old(self)),
    {
        if self.current_screen == CurrentScreen::StartMenu {
            match self.current_selection {
                Some(CurrentSelection::NewGame) => {
                    self.current_screen = CurrentScreen::InGame;
                },
                Some(CurrentSelection::Exit) => {
                    self.current_selection = None;
                    self.exit();
                },
                None => {},
            }
        }
    }

    /// A directional key pressed: steer a paddle during play, flip the
    /// menu selection otherwise.
    fn handle_direction_press_event(&mut self, code: KeyCode)
        ensures
            *final(self) == Self::direction_press_step(*old(self), code),
    {
        match self.current_screen {
            CurrentScreen::InGame => {
                match code {
                    KeyCode::CharW => {
                        self.p1.direction = if self.p1.direction == Direction::Down {
                            Direction::Na
                        } else {
                            Direction::Up
                        };
                    },
                    KeyCode::CharS => {
                        self.p1.direction = if self.p1.direction == Direction::Up {
                            Direction::Na
                        } else {
                            Direction::Down
                        };
                    },
                    KeyCode::Up => {
                        self.p2.direction = if self.p2.direction == Direction::Down {
                            Direction::Na
                        } else {
                            Direction::Up
                        };
                    },
                    KeyCode::Down => {
                        self.p2.direction = if self.p2.direction == Direction::Up {
                            Direction::Na
                        } else {
                            Direction::Down
                        };
                    },
                    _ => {},
                }
            },
            CurrentScreen::StartMenu => {
                match self.current_selection {
                    Some(CurrentSelection::NewGame) => {
                        self.current_selection = Some(CurrentSelection::Exit);
                    },
                    Some(CurrentSelection::Exit) => {
                        self.current_selection = Some(CurrentSelection::NewGame);
                    },
                    None => {},
                }
            },
        }
    }

    /// A directional key released: during play the addressed paddle
    /// stops unconditionally, even if the opposite key is still held.
    fn handle_direction_release_event(&mut self, code: KeyCode)
        ensures
            *final(self) == Self::release_step(*old(self), code),
    {
        if self.current_screen == CurrentScreen::InGame {
            match code {
                KeyCode::CharW | KeyCode::CharS => {
                    self.p1.direction = Direction::Na;
                },
                KeyCode::Up | KeyCode::Down => {
                    self.p2.direction = Direction::Na;
                },
                _ => {},
            }
        }
    }

    /// A key pressed: route by key.
    fn handle_key_event(&mut self, code: KeyCode)
        ensures
            *final(self) == Self::press_step(*old(self), code),
    {
        match code {
            KeyCode::CharQ => self.handle_q_event(),
            KeyCode::Enter => self.handle_selection_event(),
            KeyCode::Up => self.handle_direction_press_event(code),
            KeyCode::Down => self.handle_direction_press_event(code),
            KeyCode::CharW => self.handle_direction_press_event(code),
            KeyCode::CharS => self.handle_direction_press_event(code),
            KeyCode::Other => {},
        }
    }

    /// Consume one decoded input event.  Total: unrecognized keys are
    /// no-ops, and no input can make the state ill-formed.
    pub fn handle_input(&mut self, event: InputEvent)
        ensures
            *final(self) == Self::input_step(*old(self), event),
            old(self).wf() ==> final(self).wf(),
    {
        match event {
            InputEvent::Press(code) => self.handle_key_event(code),
            InputEvent::Release(code) => self.handle_direction_release_event(code),
        }
    }

    /// Advance the simulation by one fixed-rate tick.
    pub fn on_tick(&mut self)
        requires
            old(self).wf(),
            old(self).tick_count < u64::MAX,
            -COORD_LIMIT <= old(self).ball.x <= COORD_LIMIT,
            -COORD_LIMIT <= old(self).ball.y <= COORD_LIMIT,
        ensures
            *final(self) == Self::tick_step(*old(self)),
            final(self).wf(),
    {
        self.tick_count = self.tick_count + 1;

        if self.current_screen == CurrentScreen::StartMenu {
            return;
        }

        // Move paddles.
        self.p1.apply_direction();
        self.p2.apply_direction();

        // Scoring at the left and right edges.  The direction guard
        // (`vx < 0` / `vx > 0`) makes a crossing score exactly once.
        if self.ball.x - self.ball.radius < self.playground.left && self.vx < 0 {
            if self.p1.lifes > 0 {
                self.p1.lifes = self.p1.lifes - 1;
                if self.p1.lifes < 1 {
                    // Player 2 wins.
                    self.exit();
                } else {
                    self.vx = -self.vx;
                }
            }
        }

        if self.ball.x + self.ball.radius > self.playground.right && self.vx > 0 {
            if self.p2.lifes > 0 {
                self.p2.lifes = self.p2.lifes - 1;
                if self.p2.lifes < 1 {
                    // Player 1 wins.
                    self.exit();
                } else {
                    self.vx = -self.vx;
                }
            }
        }

        // Paddle bounce: mirror the horizontal velocity, leaving speed
        // and vertical velocity unchanged.
        if self.ball.x - self.ball.radius < self.p1.paddle.x && self.p1.paddle.y < self.ball.y
            && self.ball.y < self.p1.paddle.y + self.p1.paddle.height && self.vx < 0 {
            self.vx = -self.vx;
        }
        if self.ball.x + self.ball.radius > self.p2.paddle.x && self.p2.paddle.y < self.ball.y
            && self.ball.y < self.p2.paddle.y + self.p2.paddle.height && self.vx > 0 {
            self.vx = -self.vx;
        }

        // Wall bounce at the top and bottom edges.
        if self.ball.y - self.ball.radius < self.playground.top || self.ball.y
            + self.ball.radius > self.playground.bottom {
            self.vy = -self.vy;
        }

        // Integrate the ball's position.
        self.ball.x = self.ball.x + self.vx;
        self.ball.y = self.ball.y + self.vy;
    }
}

} // verus!
