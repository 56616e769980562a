//! The game: menu, play and game over, and what each tick and each action does.

use crate::draw::{ops, DrawCommand, DrawOp, Output, Style};
use crate::food::{first_free_cell, free_cell, has_free_cell, is_free};
use crate::geometry::{Direction, Point, Rectangle};
use crate::input::Action;
use crate::random::random_in;
use crate::snake::{Snake, SnakeModel, START_COLUMN, START_ROW};
use crate::text::{decimal, push_decimal};
use vstd::prelude::*;

verus! {

/// The left column of the arena.
pub const ARENA_LEFT: u16 = 30;

/// The top row of the arena.
pub const ARENA_TOP: u16 = 30;

/// The right column of the arena.
pub const ARENA_RIGHT: u16 = 100;

/// The bottom row of the arena.
pub const ARENA_BOTTOM: u16 = 60;

/// The column of the first piece of food of a session.
pub const FIRST_FOOD_COLUMN: u16 = 40;

/// The row of the first piece of food of a session.
pub const FIRST_FOOD_ROW: u16 = 45;

/// How far the menu and the game-over text stand from the arena's top left
/// corner, in columns and in rows.
pub const TEXT_OFFSET: u16 = 10;

/// How many cells are drawn at random for a new piece of food before the
/// arena is searched row by row. The bound is there for termination only: a
/// draw fails with the share of the arena that the snake covers, so on an
/// arena with room to play the search is not reached in practice.
pub const FOOD_DRAWS: u32 = 1_000_000;

/// The screens of the game. Exactly one is active at a time.
#[derive(Clone, Copy, Debug, PartialEq, Eq, Structural)]
pub enum GameState {
    Menu,
    Play,
    GameOver,
}

/// A session of the game.
#[derive(Clone, Debug, PartialEq, Eq)]
pub struct Game {
    /// The commands queued for the frame being composed.
    pub output: Output,
    /// The arena. Its border cells are walls.
    pub frame: Rectangle,
    pub snake: Snake,
    /// The number of meals of the session.
    pub score: usize,
    pub state: GameState,
    pub food: Point,
}

/// A session of the game as a mathematical value.
pub ghost struct GameModel {
    pub pending: Seq<DrawOp>,
    pub frame: Rectangle,
    pub snake: SnakeModel,
    pub score: nat,
    pub state: GameState,
    pub food: Point,
}

impl View for Game {
    type V = GameModel;

    open spec fn view(&self) -> GameModel {
        GameModel {
            pending: self.output@,
            frame: self.frame,
            snake: self.snake@,
            score: self.score as nat,
            state: self.state,
            food: self.food,
        }
    }
}

/// Whether `action` lets the session go on. Only quitting ends it.
pub open spec fn keeps_running(action: Action) -> bool {
    action != Action::Quit
}

/// The direction that a movement action asks for.
pub open spec fn requested_direction(action: Action) -> Option<Direction> {
    match action {
        Action::MoveUp => Some(Direction::Up),
        Action::MoveDown => Some(Direction::Down),
        Action::MoveLeft => Some(Direction::Left),
        Action::MoveRight => Some(Direction::Right),
        _ => None,
    }
}

/// The score line shown above the arena.
pub open spec fn score_line(score: nat) -> Seq<char> {
    "Score: "@ + decimal(score)
}

/// The first line of the game-over text.
pub open spec fn game_over_line(score: nat) -> Seq<char> {
    "Game over! Score: "@ + decimal(score)
}

impl GameModel {
    /// A fresh session: the menu, the arena from (30, 30) to (100, 60), the
    /// snake of a fresh round, no meals yet, food at (40, 45), nothing queued.
    pub open spec fn initial() -> GameModel {
        GameModel {
            pending: Seq::empty(),
            frame: Rectangle {
                top_left: (ARENA_LEFT, ARENA_TOP),
                bottom_right: (ARENA_RIGHT, ARENA_BOTTOM),
            },
            snake: SnakeModel::initial(),
            score: 0,
            state: GameState::Menu,
            food: Point { x: FIRST_FOOD_COLUMN, y: FIRST_FOOD_ROW },
        }
    }

    /// Whether the score line above the arena and the text block inside it
    /// have coordinates on the grid.
    pub open spec fn text_fits(self) -> bool {
        &&& self.frame.top() >= 1
        &&& self.frame.left() + TEXT_OFFSET <= u16::MAX
        &&& self.frame.top() + TEXT_OFFSET + 3 <= u16::MAX
    }

    /// What holds of a session between ticks: no command is pending, the arena
    /// is a rectangle that has room for the text and for the head of a fresh
    /// snake, the snake is well formed, the food lies inside the arena, and
    /// until the game is over so does the head.
    pub open spec fn wf(self) -> bool {
        &&& self.pending.len() == 0
        &&& self.frame.wf()
        &&& self.text_fits()
        &&& self.frame.strictly_contains(SnakeModel::initial().head())
        &&& self.snake.wf()
        &&& self.frame.strictly_contains(self.food)
        &&& self.state != GameState::GameOver ==> self.frame.strictly_contains(self.snake.head())
    }

    /// Whether the snake is dead where it stands: its head on a wall or
    /// beyond, or on its own body.
    pub open spec fn collides(self) -> bool {
        self.frame.hits_wall(self.snake.head()) || self.snake.bites_itself()
    }

    /// The session after the collision rule: over if the snake collides,
    /// unchanged if not.
    pub open spec fn after_collisions(self) -> GameModel {
        if self.collides() {
            GameModel { state: GameState::GameOver, ..self }
        } else {
            self
        }
    }

    /// The session after the snake's move.
    pub open spec fn advanced(self) -> GameModel {
        GameModel { snake: self.snake.advance(), ..self }
    }

    /// Whether the head lies on the food.
    pub open spec fn feeds(self) -> bool {
        self.snake.head() == self.food
    }

    /// Whether `p` is a cell for food: inside the arena and not under the snake.
    pub open spec fn free(self, p: Point) -> bool {
        free_cell(self.frame, self.snake, p)
    }

    /// Whether a meal can be served: a cell is left for the next piece of
    /// food, and the score can still be counted up.
    pub open spec fn can_feed(self) -> bool {
        has_free_cell(self.frame, self.snake) && self.score < usize::MAX
    }

    /// The session after a meal that put the next piece of food on `food`:
    /// the snake is marked for growth and the score is one higher.
    pub open spec fn fed(self, food: Point) -> GameModel {
        GameModel { food, snake: self.snake.growing(), score: self.score + 1, ..self }
    }

    /// Whether `next` is the session after the feeding rule. If the head lies
    /// on the food, `next` is the session after a meal, with its food on some
    /// cell that was free; which one is left to chance. If not, nothing changes.
    pub open spec fn feeding(self, next: GameModel) -> bool {
        if self.feeds() {
            self.free(next.food) && next == self.fed(next.food)
        } else {
            next == self
        }
    }

    /// Whether the next tick can be carried out: if it ends in a meal, the
    /// meal can be served.
    pub open spec fn can_run(self) -> bool {
        self.state == GameState::Play && self.advanced().feeds() ==> self.advanced().can_feed()
    }

    /// Whether `next` is the session after the simulation of one tick. Only a
    /// round in play is simulated: the snake moves, then the collision rule is
    /// applied, then the feeding rule. The menu and the game-over screen stand
    /// still.
    pub open spec fn simulating(self, next: GameModel) -> bool {
        if self.state == GameState::Play {
            self.advanced().after_collisions().feeding(next)
        } else {
            next == self
        }
    }

    /// The session after an action of the player.
    ///
    /// Starting leads from the menu into play and clears the score.
    /// Restarting leads from game over into play with a fresh snake and the
    /// score kept. A movement action turns the snake, unless the game is over.
    /// Everything else changes nothing.
    pub open spec fn applied(self, action: Action) -> GameModel {
        match action {
            Action::StartGame => if self.state == GameState::Menu {
                GameModel { state: GameState::Play, score: 0, ..self }
            } else {
                self
            },
            Action::Restart => if self.state == GameState::GameOver {
                GameModel { state: GameState::Play, snake: SnakeModel::initial(), ..self }
            } else {
                self
            },
            Action::MoveUp | Action::MoveDown | Action::MoveLeft | Action::MoveRight => if self.state
                != GameState::GameOver {
                GameModel {
                    snake: self.snake.turned(requested_direction(action).unwrap()),
                    ..self
                }
            } else {
                self
            },
            Action::Tick | Action::Quit => self,
        }
    }

    /// The column at which the menu and the game-over text start.
    pub open spec fn text_column(self) -> u16 {
        (self.frame.left() + TEXT_OFFSET) as u16
    }

    /// The row of line `line` of the menu or the game-over text.
    pub open spec fn text_row(self, line: int) -> u16 {
        (self.frame.top() + TEXT_OFFSET + line) as u16
    }

    /// What every frame starts with: clear the screen, hide the cursor, the
    /// score line one row above the arena's top left corner, the arena's frame.
    pub open spec fn heading(self) -> Seq<DrawOp> {
        seq![
            DrawOp::ClearScreen,
            DrawOp::HideCursor,
            DrawOp::MoveTo { col: self.frame.left(), row: (self.frame.top() - 1) as u16 },
            DrawOp::Text { style: Style::Plain, text: score_line(self.score) },
        ] + self.frame.border()
    }

    /// The four lines of the menu, one below the other inside the arena.
    pub open spec fn menu_text(self) -> Seq<DrawOp> {
        seq![
            DrawOp::MoveTo { col: self.text_column(), row: self.text_row(0) },
            DrawOp::Text { style: Style::Plain, text: "Welcome to snake in RUST in the terminal"@ },
            DrawOp::MoveTo { col: self.text_column(), row: self.text_row(1) },
            DrawOp::Text { style: Style::Plain, text: "h/j/k/l or arrow keys to move"@ },
            DrawOp::MoveTo { col: self.text_column(), row: self.text_row(2) },
            DrawOp::Text { style: Style::Plain, text: "SPACE to start game"@ },
            DrawOp::MoveTo { col: self.text_column(), row: self.text_row(3) },
            DrawOp::Text { style: Style::Plain, text: "q to quit"@ },
        ]
    }

    /// The two lines shown when the game is over: the score reached and the
    /// question whether to play again.
    pub open spec fn game_over_text(self) -> Seq<DrawOp> {
        seq![
            DrawOp::MoveTo { col: self.text_column(), row: self.text_row(0) },
            DrawOp::Text { style: Style::Plain, text: game_over_line(self.score) },
            DrawOp::MoveTo { col: self.text_column(), row: self.text_row(1) },
            DrawOp::Text { style: Style::Plain, text: "Play again? Y/N"@ },
        ]
    }

    /// The food: a plain `@` on its cell.
    pub open spec fn food_picture(self) -> Seq<DrawOp> {
        seq![
            DrawOp::MoveTo { col: self.food.x, row: self.food.y },
            DrawOp::Text { style: Style::Plain, text: "@"@ },
        ]
    }

    /// The frame of the menu.
    pub open spec fn menu_screen(self) -> Seq<DrawOp> {
        self.heading() + self.menu_text()
    }

    /// The frame of a round in play: the snake, then the food.
    pub open spec fn play_screen(self) -> Seq<DrawOp> {
        self.heading() + self.snake.picture() + self.food_picture()
    }

    /// The frame shown when the game is over.
    pub open spec fn game_over_screen(self) -> Seq<DrawOp> {
        self.heading() + self.game_over_text()
    }

    /// The frame of the session as it stands. It depends on nothing but the
    /// arena, the score, the snake, the food and the active screen.
    pub open spec fn screen(self) -> Seq<DrawOp> {
        match self.state {
            GameState::Menu => self.menu_screen(),
            GameState::Play => self.play_screen(),
            GameState::GameOver => self.game_over_screen(),
        }
    }

    /// The session with `commands` queued behind those already pending.
    pub open spec fn queued(self, commands: Seq<DrawOp>) -> GameModel {
        GameModel { pending: self.pending + commands, ..self }
    }
}

impl Game {
    /// A fresh session.
    pub fn new() -> (game: Self)
        ensures
            game@ == GameModel::initial(),
            game@.wf(),
    {
        Self {
            output: Output::new(),
            frame: Rectangle::new((ARENA_LEFT, ARENA_TOP), (ARENA_RIGHT, ARENA_BOTTOM)),
            snake: Snake::new(),
            score: 0,
            state: GameState::Menu,
            food: Point::new(FIRST_FOOD_COLUMN, FIRST_FOOD_ROW),
        }
    }

    /// Whether the session is as it should be between ticks.
    pub fn is_valid(&self) -> (valid: bool)
        ensures
            valid == self@.wf(),
    {
        self.output.content.len() == 0 && self.frame.top_left.0 <= self.frame.bottom_right.0
            && self.frame.top_left.1 <= self.frame.bottom_right.1 && self.frame.top_left.1 >= 1
            && self.frame.top_left.0 <= u16::MAX - TEXT_OFFSET && self.frame.top_left.1 <= u16::MAX
            - TEXT_OFFSET - 3 && self.frame.encloses(Point::new(START_COLUMN, START_ROW))
            && self.snake.is_valid() && self.frame.encloses(self.food) && (self.state
            == GameState::GameOver || self.frame.encloses(self.snake.head()))
    }

    /// Queues what every frame starts with.
    fn heading(&mut self)
        requires
            old(self)@.frame.wf(),
            old(self)@.text_fits(),
        ensures
            final(self)@ == old(self)@.queued(old(self)@.heading()),
    {
        let mut text = "Score: ".to_owned();
        push_decimal(&mut text, self.score);
        self.output.write(DrawCommand::ClearScreen);
        self.output.write(DrawCommand::HideCursor);
        self.output.move_to(self.frame.top_left.0, self.frame.top_left.1 - 1);
        self.output.print(Style::Plain, text);
        self.frame.render(&mut self.output);
        assert(self@.pending =~= old(self)@.pending + old(self)@.heading());
    }

    /// Queues the frame of the menu.
    pub fn menu(&mut self)
        requires
            old(self)@.frame.wf(),
            old(self)@.text_fits(),
        ensures
            final(self)@ == old(self)@.queued(old(self)@.menu_screen()),
    {
        self.heading();
        let col = self.frame.top_left.0 + TEXT_OFFSET;
        let row = self.frame.top_left.1 + TEXT_OFFSET;
        self.output.move_to(col, row);
        self.output.print(Style::Plain, "Welcome to snake in RUST in the terminal".to_owned());
        self.output.move_to(col, row + 1);
        self.output.print(Style::Plain, "h/j/k/l or arrow keys to move".to_owned());
        self.output.move_to(col, row + 2);
        self.output.print(Style::Plain, "SPACE to start game".to_owned());
        self.output.move_to(col, row + 3);
        self.output.print(Style::Plain, "q to quit".to_owned());
        assert(self@.pending =~= old(self)@.pending + old(self)@.menu_screen());
    }

    /// Queues the frame shown when the game is over.
    pub fn game_over(&mut self)
        requires
            old(self)@.frame.wf(),
            old(self)@.text_fits(),
        ensures
            final(self)@ == old(self)@.queued(old(self)@.game_over_screen()),
    {
        self.heading();
        let col = self.frame.top_left.0 + TEXT_OFFSET;
        let row = self.frame.top_left.1 + TEXT_OFFSET;
        let mut text = "Game over! Score: ".to_owned();
        push_decimal(&mut text, self.score);
        self.output.move_to(col, row);
        self.output.print(Style::Plain, text);
        self.output.move_to(col, row + 1);
        self.output.print(Style::Plain, "Play again? Y/N".to_owned());
        assert(self@.pending =~= old(self)@.pending + old(self)@.game_over_screen());
    }

    /// Queues the frame of a round in play.
    pub fn tick(&mut self)
        requires
            old(self)@.frame.wf(),
            old(self)@.text_fits(),
        ensures
            final(self)@ == old(self)@.queued(old(self)@.play_screen()),
    {
        self.heading();
        self.snake.render(&mut self.output);
        self.output.move_to(self.food.x, self.food.y);
        self.output.print(Style::Plain, "@".to_owned());
        assert(self@.pending =~= old(self)@.pending + old(self)@.play_screen());
    }

    /// Ends the game if the snake collides: if its head touches or crosses a
    /// wall, or lies on a cell of its body other than the tail.
    pub fn check_collisions(&mut self)
        requires
            old(self)@.snake.body.len() >= 1,
        ensures
            final(self)@ == old(self)@.after_collisions(),
    {
        let head = self.snake.head();
        if head.x <= self.frame.top_left.0 {
            self.state = GameState::GameOver;
        }
        if head.x >= self.frame.bottom_right.0 {
            self.state = GameState::GameOver;
        }
        if head.y <= self.frame.top_left.1 {
            self.state = GameState::GameOver;
        }
        if head.y >= self.frame.bottom_right.1 {
            self.state = GameState::GameOver;
        }
        let ghost wall = self@.frame.hits_wall(head);
        let last = self.snake.body.len() - 1;
        let mut i: usize = 1;
        while i < last
            invariant
                1 <= i,
                last == self.snake.body@.len() - 1,
                self.snake == old(self).snake,
                self.frame == old(self).frame,
                self.food == old(self).food,
                self.score == old(self).score,
                self.output == old(self).output,
                head == self.snake.body@[0],
                self.state == if wall || exists|k: int|
                    1 <= k < i && k < last && #[trigger] self.snake.body@[k] == head {
                    GameState::GameOver
                } else {
                    old(self).state
                },
            decreases last - i,
        {
            let part = self.snake.body[i];
            if head.x == part.x && head.y == part.y {
                self.state = GameState::GameOver;
            }
            i += 1;
        }
    }

    /// Picks the cell of the next piece of food: a cell inside the arena, off
    /// its border, that the snake does not cover.
    ///
    /// Cells inside the arena are drawn at random until one is free. Should a
    /// long run of draws all fail, the first free cell in reading order is taken.
    pub fn place_new_food(&self) -> (food: Point)
        requires
            has_free_cell(self@.frame, self@.snake),
        ensures
            self@.free(food),
    {
        let left = self.frame.top_left.0;
        let top = self.frame.top_left.1;
        let right = self.frame.bottom_right.0;
        let bottom = self.frame.bottom_right.1;
        proof {
            let witness = choose|p: Point| free_cell(self@.frame, self@.snake, p);
            assert(left < witness.x < right && top < witness.y < bottom);
        }
        let mut draws: u32 = 0;
        while draws < FOOD_DRAWS
            invariant
                left == self.frame.left(),
                top == self.frame.top(),
                right == self.frame.right(),
                bottom == self.frame.bottom(),
                left + 1 < right,
                top + 1 < bottom,
            decreases FOOD_DRAWS - draws,
        {
            let candidate = Point::new(random_in(left + 1, right), random_in(top + 1, bottom));
            if is_free(&self.frame, &self.snake, candidate) {
                return candidate;
            }
            draws += 1;
        }
        match first_free_cell(&self.frame, &self.snake) {
            Some(cell) => cell,
            None => vstd::pervasive::unreached(),
        }
    }

    /// Serves a meal if the head lies on the food: the food moves to a free
    /// cell, the snake is marked for growth, and the score goes up by one.
    pub fn feed_snake(&mut self)
        requires
            old(self)@.snake.body.len() >= 1,
            old(self)@.feeds() ==> old(self)@.can_feed(),
        ensures
            old(self)@.feeding(final(self)@),
    {
        if self.snake.head() == self.food {
            self.food = self.place_new_food();
            self.snake.grow();
            self.score += 1;
        }
    }

    /// Whether the next tick can be carried out.
    pub fn can_run(&self) -> (ok: bool)
        requires
            self@.wf(),
        ensures
            ok == self@.can_run(),
    {
        if self.state != GameState::Play {
            return true;
        }
        let mut ahead = Snake {
            body: self.snake.body.clone(),
            direction: self.snake.direction,
            grow: self.snake.grow,
        };
        ahead.slither();
        if ahead.head() != self.food {
            return true;
        }
        self.score < usize::MAX && first_free_cell(&self.frame, &ahead).is_some()
    }

    /// One tick: simulates the round if one is in play, composes the frame of
    /// the session as it then stands, and hands the frame out for painting.
    pub fn run(&mut self) -> (frame: Vec<DrawCommand>)
        requires
            old(self)@.wf(),
            old(self)@.can_run(),
        ensures
            old(self)@.simulating(final(self)@),
            ops(frame@) == final(self)@.screen(),
            final(self)@.wf(),
    {
        if self.state == GameState::Play {
            self.snake.slither();
            self.check_collisions();
            self.feed_snake();
        }
        let ghost simulated = self@;
        match self.state {
            GameState::Menu => self.menu(),
            GameState::Play => self.tick(),
            GameState::GameOver => self.game_over(),
        };
        let frame = self.output.flush();
        assert(self@.pending =~= simulated.pending);
        frame
    }

    /// One tick, if it can be carried out: `None`, and nothing changed, if the
    /// session is out of shape or the tick would end in a meal that cannot be
    /// served.
    pub fn try_run(&mut self) -> (frame: Option<Vec<DrawCommand>>)
        ensures
            frame is Some <==> old(self)@.wf() && old(self)@.can_run(),
            match frame {
                Some(commands) => {
                    &&& old(self)@.simulating(final(self)@)
                    &&& ops(commands@) == final(self)@.screen()
                    &&& final(self)@.wf()
                },
                None => *final(self) == *old(self),
            },
    {
        if self.is_valid() && self.can_run() {
            Some(self.run())
        } else {
            None
        }
    }

    /// Carries out an action of the player and says whether the session goes on.
    pub fn process_keypress(&mut self, action: Action) -> (go_on: bool)
        ensures
            go_on == keeps_running(action),
            final(self)@ == old(self)@.applied(action),
            old(self)@.wf() ==> final(self)@.wf(),
    {
        match action {
            Action::Quit => return false,
            Action::StartGame => {
                if self.state == GameState::Menu {
                    self.state = GameState::Play;
                    self.score = 0;
                }
                return true
            },
            Action::Restart => {
                if self.state == GameState::GameOver {
                    self.snake = Snake::new();
                    self.state = GameState::Play;
                }
                return true
            },
            Action::MoveUp => {
                if self.state != GameState::GameOver {
                    self.snake.direction = self.snake.direction.turn(Direction::Up);
                }
                return true
            },
            Action::MoveDown => {
                if self.state != GameState::GameOver {
                    self.snake.direction = self.snake.direction.turn(Direction::Down);
                }
                return true
            },
            Action::MoveLeft => {
                if self.state != GameState::GameOver {
                    self.snake.direction = self.snake.direction.turn(Direction::Left);
                }
                return true
            },
            Action::MoveRight => {
                if self.state != GameState::GameOver {
                    self.snake.direction = self.snake.direction.turn(Direction::Right);
                }
                return true
            },
            _ => return true,
        }
    }
}

} // verus!
