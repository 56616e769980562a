use snake_game::draw::{DrawCommand, Output, Style};
use snake_game::game::{
    Game, GameState, ARENA_BOTTOM, ARENA_LEFT, ARENA_RIGHT, ARENA_TOP, FIRST_FOOD_COLUMN,
    FIRST_FOOD_ROW, TEXT_OFFSET,
};
use snake_game::geometry::{Direction, Point, Rectangle};
use snake_game::input::Action;
use snake_game::snake::Snake;

fn arena() -> Rectangle {
    Rectangle::new((30, 30), (100, 60))
}

fn cells(xs: std::ops::Range<u16>, y: u16) -> Vec<Point> {
    xs.map(|x| Point { x, y }).collect()
}

fn game(body: Vec<Point>, direction: Direction, state: GameState, food: Point) -> Game {
    Game {
        output: Output::new(),
        frame: arena(),
        snake: Snake { body, direction, grow: false },
        score: 0,
        state,
        food,
    }
}

fn playing(body: Vec<Point>, direction: Direction) -> Game {
    game(body, direction, GameState::Play, Point::new(40, 45))
}

fn plain_text(text: &str) -> DrawCommand {
    DrawCommand::Text { style: Style::Plain, text: String::from(text) }
}

fn reverse_text(text: &str) -> DrawCommand {
    DrawCommand::Text { style: Style::Reverse, text: String::from(text) }
}

fn cursor_at(col: u16, row: u16) -> DrawCommand {
    DrawCommand::MoveTo { col, row }
}

fn heading(score: &str) -> Vec<DrawCommand> {
    let run = " ".repeat(70);
    let mut frame = vec![
        DrawCommand::ClearScreen,
        DrawCommand::HideCursor,
        cursor_at(30, 29),
        plain_text(score),
        cursor_at(30, 30),
        reverse_text(&run),
        cursor_at(30, 60),
        reverse_text(&run),
    ];
    for y in 30..=60 {
        frame.push(cursor_at(30, y));
        frame.push(reverse_text(" "));
        frame.push(cursor_at(100, y));
        frame.push(reverse_text(" "));
    }
    frame
}

#[test]
fn a_new_game_shows_the_menu() {
    let g = Game::new();
    assert_eq!(g.state, GameState::Menu);
    assert_eq!(g.score, 0);
    assert_eq!(g.frame, arena());
    assert_eq!(g.food, Point::new(40, 45));
    assert_eq!(g.snake, Snake::new());
    assert!(g.output.content.is_empty());
    assert!(g.is_valid());
}

#[test]
fn the_constants_of_the_arena() {
    assert_eq!((ARENA_LEFT, ARENA_TOP), (30, 30));
    assert_eq!((ARENA_RIGHT, ARENA_BOTTOM), (100, 60));
    assert_eq!((FIRST_FOOD_COLUMN, FIRST_FOOD_ROW), (40, 45));
    assert_eq!(TEXT_OFFSET, 10);
}

#[test]
fn start_leads_from_the_menu_into_play() {
    let mut g = Game::new();
    assert!(g.process_keypress(Action::StartGame));
    assert_eq!(g.state, GameState::Play);
    let before = g.clone();
    assert!(g.process_keypress(Action::StartGame));
    assert_eq!(g.state, GameState::Play);
    assert_eq!(g, before);
}

#[test]
fn start_does_nothing_when_the_game_is_over() {
    let mut g = game(cells(30..43, 50), Direction::Left, GameState::GameOver, Point::new(40, 45));
    let before = g.clone();
    assert!(g.process_keypress(Action::StartGame));
    assert_eq!(g, before);
}

#[test]
fn start_clears_the_score() {
    let mut g = Game::new();
    g.score = 5;
    assert!(g.process_keypress(Action::StartGame));
    assert_eq!(g.score, 0);
    assert_eq!(g.state, GameState::Play);
}

#[test]
fn a_head_that_reaches_the_left_wall_ends_the_game() {
    let mut g = playing(cells(31..44, 50), Direction::Left);
    assert!(g.is_valid());
    assert!(g.can_run());
    g.run();
    assert_eq!(g.snake.head(), Point::new(30, 50));
    assert_eq!(g.state, GameState::GameOver);
    assert!(g.is_valid());
}

#[test]
fn a_meal_scores_and_moves_the_food() {
    let mut g = playing(cells(41..54, 45), Direction::Left);
    g.score = 3;
    assert!(g.is_valid());
    assert!(g.can_run());
    g.run();
    assert_eq!(g.snake.head(), Point::new(40, 45));
    assert_eq!(g.score, 4);
    assert!(g.snake.grow);
    assert_eq!(g.snake.body.len(), 13);
    assert_ne!(g.food, Point::new(40, 45));
    assert!(!g.snake.occupies(g.food));
    assert!(g.frame.encloses(g.food));
    assert_eq!(g.state, GameState::Play);
    assert!(g.is_valid());
}

#[test]
fn the_body_grows_on_the_tick_after_the_meal() {
    let mut g = playing(cells(41..54, 45), Direction::Left);
    g.run();
    assert_eq!(g.score, 1);
    assert_eq!(g.snake.body, cells(40..53, 45));
    g.food = Point::new(35, 35);
    g.run();
    assert_eq!(g.snake.body, cells(39..53, 45));
    assert!(!g.snake.grow);
    assert_eq!(g.score, 1);
    g.run();
    assert_eq!(g.snake.body, cells(38..52, 45));
}

#[test]
fn a_tick_without_a_meal_keeps_the_length() {
    let mut g = playing(cells(60..73, 50), Direction::Left);
    g.run();
    assert_eq!(g.snake.body, cells(59..72, 50));
    assert_eq!(g.score, 0);
    assert_eq!(g.food, Point::new(40, 45));
    assert_eq!(g.state, GameState::Play);
    assert!(g.process_keypress(Action::MoveUp));
    g.run();
    assert_eq!(g.snake.head(), Point::new(59, 49));
    assert_eq!(g.snake.body.len(), 13);
    assert!(g.process_keypress(Action::MoveRight));
    g.run();
    assert_eq!(g.snake.head(), Point::new(60, 49));
    assert!(g.process_keypress(Action::MoveDown));
    g.run();
    assert_eq!(g.snake.head(), Point::new(60, 50));
    assert_eq!(g.state, GameState::GameOver);
}

#[test]
fn the_menu_stands_still() {
    let mut g = Game::new();
    for _ in 0..40 {
        assert!(g.can_run());
        g.run();
    }
    assert_eq!(g.snake, Snake::new());
    assert_eq!(g.state, GameState::Menu);
    assert_eq!(g.score, 0);
    assert_eq!(g.food, Point::new(40, 45));
}

#[test]
fn a_finished_game_stands_still() {
    let mut g = playing(cells(31..44, 50), Direction::Left);
    g.run();
    assert_eq!(g.state, GameState::GameOver);
    let body = g.snake.body.clone();
    for _ in 0..40 {
        assert!(g.can_run());
        g.run();
    }
    assert_eq!(g.snake.body, body);
    assert_eq!(g.state, GameState::GameOver);
}

#[test]
fn every_wall_ends_the_game() {
    let heads = [
        Point::new(30, 45),
        Point::new(100, 45),
        Point::new(45, 30),
        Point::new(45, 60),
        Point::new(30, 30),
        Point::new(100, 60),
        Point::new(29, 45),
        Point::new(101, 45),
        Point::new(45, 29),
        Point::new(45, 61),
        Point::new(0, 0),
    ];
    for head in heads {
        let mut g = playing(vec![head], Direction::Left);
        g.check_collisions();
        assert_eq!(g.state, GameState::GameOver);
        let mut g = game(vec![head], Direction::Left, GameState::Menu, Point::new(40, 45));
        g.check_collisions();
        assert_eq!(g.state, GameState::GameOver);
    }
}

#[test]
fn a_head_off_the_walls_does_not_end_the_game() {
    for head in [Point::new(31, 31), Point::new(99, 59), Point::new(31, 59), Point::new(99, 31)] {
        let mut g = playing(vec![head], Direction::Left);
        let before = g.clone();
        g.check_collisions();
        assert_eq!(g, before);
    }
}

fn coil() -> Vec<Point> {
    vec![
        Point::new(50, 50),
        Point::new(50, 51),
        Point::new(51, 51),
        Point::new(51, 50),
        Point::new(50, 50),
    ]
}

#[test]
fn a_head_on_the_body_ends_the_game() {
    let mut body = coil();
    body.push(Point::new(49, 50));
    let mut g = playing(body, Direction::Down);
    g.check_collisions();
    assert_eq!(g.state, GameState::GameOver);
    let mut g = playing(
        vec![Point::new(50, 50), Point::new(50, 50), Point::new(50, 51)],
        Direction::Down,
    );
    g.check_collisions();
    assert_eq!(g.state, GameState::GameOver);
}

#[test]
fn a_head_on_the_tail_does_not_end_the_game() {
    let mut g = playing(coil(), Direction::Down);
    let before = g.clone();
    g.check_collisions();
    assert_eq!(g.state, GameState::Play);
    assert_eq!(g, before);
    let mut g = playing(vec![Point::new(50, 50), Point::new(50, 50)], Direction::Down);
    g.check_collisions();
    assert_eq!(g.state, GameState::Play);
}

#[test]
fn the_collision_rule_never_revives_a_game() {
    let mut g = game(cells(60..73, 50), Direction::Left, GameState::GameOver, Point::new(40, 45));
    g.check_collisions();
    assert_eq!(g.state, GameState::GameOver);
}

#[test]
fn biting_the_body_in_play_ends_the_game() {
    let mut body = vec![
        Point::new(50, 50),
        Point::new(49, 50),
        Point::new(49, 51),
        Point::new(50, 51),
        Point::new(51, 51),
        Point::new(52, 51),
    ];
    body.push(Point::new(53, 51));
    let mut g = playing(body, Direction::Down);
    assert!(g.is_valid());
    g.run();
    assert_eq!(g.snake.head(), Point::new(50, 51));
    assert_eq!(g.state, GameState::GameOver);
}

#[test]
fn no_meal_without_the_head_on_the_food() {
    let mut g = playing(cells(60..73, 50), Direction::Left);
    g.score = 2;
    let before = g.clone();
    g.feed_snake();
    assert_eq!(g, before);
}

#[test]
fn every_meal_puts_the_food_on_a_free_cell() {
    for _ in 0..300 {
        let mut g = playing(cells(60..73, 50), Direction::Left);
        g.food = Point::new(60, 50);
        g.score = 7;
        g.feed_snake();
        assert_eq!(g.score, 8);
        assert!(g.snake.grow);
        assert_eq!(g.snake.body, cells(60..73, 50));
        assert!(g.frame.encloses(g.food));
        assert!(!g.snake.occupies(g.food));
        assert_eq!(g.state, GameState::Play);
    }
}

#[test]
fn new_food_is_drawn_at_random() {
    let g = Game::new();
    let first = g.place_new_food();
    let mut moved = false;
    let mut columns = std::collections::BTreeSet::new();
    let mut rows = std::collections::BTreeSet::new();
    for _ in 0..400 {
        let food = g.place_new_food();
        assert!(g.frame.encloses(food));
        assert!(!g.snake.occupies(food));
        moved = moved || food != first;
        columns.insert(food.x);
        rows.insert(food.y);
    }
    assert!(moved);
    assert!(columns.len() > 10);
    assert!(rows.len() > 10);
}

#[test]
fn new_food_reaches_the_last_cells_inside_the_arena() {
    let mut g = Game::new();
    g.frame = Rectangle::new((0, 0), (3, 3));
    g.snake = Snake { body: vec![Point::new(1, 1)], direction: Direction::Left, grow: false };
    let mut seen = std::collections::BTreeSet::new();
    for _ in 0..400 {
        let food = g.place_new_food();
        seen.insert((food.x, food.y));
    }
    let expected: std::collections::BTreeSet<(u16, u16)> =
        [(2, 1), (1, 2), (2, 2)].into_iter().collect();
    assert_eq!(seen, expected);
}

#[test]
fn new_food_takes_the_only_free_cell() {
    let mut g = Game::new();
    g.frame = Rectangle::new((0, 0), (3, 3));
    g.snake = Snake {
        body: vec![Point::new(1, 1), Point::new(2, 1), Point::new(2, 2)],
        direction: Direction::Left,
        grow: false,
    };
    for _ in 0..20 {
        assert_eq!(g.place_new_food(), Point::new(1, 2));
    }
}

fn crowded(grow: bool) -> Game {
    Game {
        output: Output::new(),
        frame: Rectangle::new((58, 48), (62, 52)),
        snake: Snake {
            body: vec![
                Point::new(60, 49),
                Point::new(61, 49),
                Point::new(61, 50),
                Point::new(60, 50),
                Point::new(59, 50),
                Point::new(59, 51),
                Point::new(60, 51),
                Point::new(61, 51),
            ],
            direction: Direction::Left,
            grow,
        },
        score: 0,
        state: GameState::Play,
        food: Point::new(59, 49),
    }
}

#[test]
fn a_meal_on_the_last_free_cell_puts_the_food_where_the_tail_was() {
    let mut g = crowded(false);
    assert!(g.is_valid());
    assert!(g.can_run());
    g.run();
    assert_eq!(g.snake.head(), Point::new(59, 49));
    assert_eq!(g.food, Point::new(61, 51));
    assert_eq!(g.score, 1);
    assert!(g.snake.grow);
    assert_eq!(g.state, GameState::Play);
    assert!(g.is_valid());
}

#[test]
fn a_tick_cannot_run_when_no_cell_is_left_for_food() {
    let g = crowded(true);
    assert!(g.is_valid());
    assert!(!g.can_run());
}

#[test]
fn a_tick_cannot_run_when_the_score_cannot_go_up() {
    let mut g = playing(cells(41..54, 45), Direction::Left);
    g.score = usize::MAX;
    assert!(g.is_valid());
    assert!(!g.can_run());
    g.food = Point::new(35, 35);
    assert!(g.can_run());
    g.food = Point::new(40, 45);
    g.state = GameState::Menu;
    assert!(g.can_run());
    g.state = GameState::GameOver;
    assert!(g.can_run());
    g.state = GameState::Play;
    g.score = usize::MAX - 1;
    assert!(g.can_run());
    g.run();
    assert_eq!(g.score, usize::MAX);
}

#[test]
fn quit_ends_the_session_and_changes_nothing() {
    for state in [GameState::Menu, GameState::Play, GameState::GameOver] {
        let mut g = game(cells(60..73, 50), Direction::Left, state, Point::new(40, 45));
        let before = g.clone();
        assert!(!g.process_keypress(Action::Quit));
        assert_eq!(g, before);
    }
}

#[test]
fn a_tick_changes_nothing() {
    for state in [GameState::Menu, GameState::Play, GameState::GameOver] {
        let mut g = game(cells(60..73, 50), Direction::Left, state, Point::new(40, 45));
        let before = g.clone();
        assert!(g.process_keypress(Action::Tick));
        assert_eq!(g, before);
    }
}

#[test]
fn every_action_but_quit_keeps_the_session_running() {
    let actions = [
        Action::Tick,
        Action::StartGame,
        Action::Restart,
        Action::MoveUp,
        Action::MoveDown,
        Action::MoveLeft,
        Action::MoveRight,
    ];
    for action in actions {
        let mut g = Game::new();
        assert!(g.process_keypress(action));
        assert!(g.is_valid());
    }
}

#[test]
fn movement_turns_the_snake_across_its_axis_only() {
    let mut g = playing(cells(60..73, 50), Direction::Left);
    assert!(g.process_keypress(Action::MoveRight));
    assert_eq!(g.snake.direction, Direction::Left);
    assert!(g.process_keypress(Action::MoveLeft));
    assert_eq!(g.snake.direction, Direction::Left);
    assert!(g.process_keypress(Action::MoveUp));
    assert_eq!(g.snake.direction, Direction::Up);
    assert!(g.process_keypress(Action::MoveDown));
    assert_eq!(g.snake.direction, Direction::Up);
    assert!(g.process_keypress(Action::MoveUp));
    assert_eq!(g.snake.direction, Direction::Up);
    assert!(g.process_keypress(Action::MoveRight));
    assert_eq!(g.snake.direction, Direction::Right);
    assert!(g.process_keypress(Action::MoveLeft));
    assert_eq!(g.snake.direction, Direction::Right);
    assert!(g.process_keypress(Action::MoveDown));
    assert_eq!(g.snake.direction, Direction::Down);
    assert!(g.process_keypress(Action::MoveLeft));
    assert_eq!(g.snake.direction, Direction::Left);
    assert_eq!(g.snake.body, cells(60..73, 50));
    assert_eq!(g.state, GameState::Play);
}

#[test]
fn movement_in_the_menu_shows_once_play_begins() {
    let mut g = Game::new();
    assert!(g.process_keypress(Action::MoveDown));
    assert_eq!(g.snake.direction, Direction::Down);
    g.run();
    assert_eq!(g.snake.body, cells(60..73, 50));
    assert!(g.process_keypress(Action::StartGame));
    g.run();
    assert_eq!(g.snake.head(), Point::new(60, 51));
}

#[test]
fn movement_does_nothing_when_the_game_is_over() {
    let actions = [Action::MoveUp, Action::MoveDown, Action::MoveLeft, Action::MoveRight];
    for action in actions {
        let mut g = game(cells(30..43, 50), Direction::Left, GameState::GameOver, Point::new(40, 45));
        let before = g.clone();
        assert!(g.process_keypress(action));
        assert_eq!(g, before);
    }
}

#[test]
fn restart_brings_a_fresh_snake() {
    let mut g = game(
        vec![Point::new(45, 30), Point::new(45, 31), Point::new(46, 31)],
        Direction::Up,
        GameState::GameOver,
        Point::new(77, 33),
    );
    g.score = 9;
    g.snake.grow = true;
    assert!(g.process_keypress(Action::Restart));
    assert_eq!(g.state, GameState::Play);
    assert_eq!(g.snake.body, cells(60..73, 50));
    assert_eq!(g.snake.body.len(), 13);
    assert_eq!(g.snake.direction, Direction::Left);
    assert!(!g.snake.grow);
    assert_eq!(g.score, 9);
    assert_eq!(g.food, Point::new(77, 33));
    assert!(g.is_valid());
}

#[test]
fn restart_does_nothing_unless_the_game_is_over() {
    for state in [GameState::Menu, GameState::Play] {
        let mut g = game(cells(50..55, 40), Direction::Up, state, Point::new(40, 45));
        let before = g.clone();
        assert!(g.process_keypress(Action::Restart));
        assert_eq!(g, before);
    }
}

#[test]
fn the_frame_of_the_menu() {
    let mut g = Game::new();
    let frame = g.run();
    let mut expected = heading("Score: 0");
    expected.extend([
        cursor_at(40, 40),
        plain_text("Welcome to snake in RUST in the terminal"),
        cursor_at(40, 41),
        plain_text("h/j/k/l or arrow keys to move"),
        cursor_at(40, 42),
        plain_text("SPACE to start game"),
        cursor_at(40, 43),
        plain_text("q to quit"),
    ]);
    assert_eq!(frame, expected);
    assert!(g.output.content.is_empty());
}

#[test]
fn the_frame_of_a_round_in_play() {
    let mut g = playing(vec![Point::new(51, 40), Point::new(52, 40), Point::new(52, 41)], Direction::Left);
    g.score = 12;
    let frame = g.run();
    let mut expected = heading("Score: 12");
    expected.extend([
        cursor_at(50, 40),
        plain_text("#"),
        cursor_at(51, 40),
        plain_text("#"),
        cursor_at(52, 40),
        plain_text("#"),
        cursor_at(40, 45),
        plain_text("@"),
    ]);
    assert_eq!(frame, expected);
    assert!(g.output.content.is_empty());
}

#[test]
fn the_frame_of_a_finished_game() {
    let mut g = game(cells(30..43, 50), Direction::Left, GameState::GameOver, Point::new(40, 45));
    g.score = 105;
    let frame = g.run();
    let mut expected = heading("Score: 105");
    expected.extend([
        cursor_at(40, 40),
        plain_text("Game over! Score: 105"),
        cursor_at(40, 41),
        plain_text("Play again? Y/N"),
    ]);
    assert_eq!(frame, expected);
}

#[test]
fn the_frame_shows_the_session_after_the_tick() {
    let mut g = playing(cells(31..44, 50), Direction::Left);
    let frame = g.run();
    let mut expected = heading("Score: 0");
    expected.extend([
        cursor_at(40, 40),
        plain_text("Game over! Score: 0"),
        cursor_at(40, 41),
        plain_text("Play again? Y/N"),
    ]);
    assert_eq!(frame, expected);
}

#[test]
fn the_screens_can_be_queued_one_by_one() {
    let mut g = Game::new();
    g.menu();
    let menu = g.output.flush();
    assert_eq!(menu.len(), 8 + 4 * 31 + 8);
    assert_eq!(menu[0], DrawCommand::ClearScreen);
    assert_eq!(menu[3], plain_text("Score: 0"));
    g.tick();
    let play = g.output.flush();
    assert_eq!(play.len(), 8 + 4 * 31 + 2 * 13 + 2);
    assert_eq!(play[play.len() - 1], plain_text("@"));
    assert_eq!(play[play.len() - 2], cursor_at(40, 45));
    g.game_over();
    let over = g.output.flush();
    assert_eq!(over.len(), 8 + 4 * 31 + 4);
    assert_eq!(over[over.len() - 1], plain_text("Play again? Y/N"));
    g.menu();
    g.game_over();
    assert_eq!(g.output.flush().len(), menu.len() + over.len());
}

#[test]
fn a_session_that_is_out_of_shape_is_not_valid() {
    let mut g = Game::new();
    g.output.write(DrawCommand::ClearScreen);
    assert!(!g.is_valid());
    let mut g = Game::new();
    g.snake.body.clear();
    assert!(!g.is_valid());
    let mut g = Game::new();
    g.food = Point::new(30, 45);
    assert!(!g.is_valid());
    let mut g = Game::new();
    g.frame = Rectangle::new((30, 0), (100, 60));
    assert!(!g.is_valid());
    let mut g = Game::new();
    g.frame = Rectangle::new((30, 30), (59, 60));
    assert!(!g.is_valid());
    let mut g = playing(cells(30..43, 50), Direction::Left);
    assert!(!g.is_valid());
    g.state = GameState::GameOver;
    assert!(g.is_valid());
}

#[test]
fn a_whole_round() {
    let mut g = Game::new();
    assert!(g.process_keypress(Action::StartGame));
    let mut ticks = 0;
    while g.state == GameState::Play {
        assert!(g.is_valid());
        assert!(g.can_run());
        let frame = g.run();
        assert!(!frame.is_empty());
        ticks += 1;
        assert!(ticks <= 30);
    }
    assert_eq!(ticks, 30);
    assert_eq!(g.state, GameState::GameOver);
    assert_eq!(g.snake.head(), Point::new(30, 50));
    assert_eq!(g.score, 0);
    assert!(g.process_keypress(Action::Restart));
    assert_eq!(g.state, GameState::Play);
    assert_eq!(g.snake, Snake::new());
    assert!(g.is_valid());
    assert!(!g.process_keypress(Action::Quit));
}

#[test]
fn try_run_runs_a_tick_that_can_run() {
    let mut g = playing(cells(60..73, 50), Direction::Left);
    let mut twin = g.clone();
    let frame = g.try_run();
    assert_eq!(frame, Some(twin.run()));
    assert_eq!(g, twin);
    assert_eq!(g.snake.head(), Point::new(59, 50));
}

#[test]
fn try_run_refuses_a_meal_that_cannot_be_served() {
    let mut g = crowded(true);
    let before = g.clone();
    assert_eq!(g.try_run(), None);
    assert_eq!(g, before);
    let mut g = playing(cells(41..54, 45), Direction::Left);
    g.score = usize::MAX;
    let before = g.clone();
    assert_eq!(g.try_run(), None);
    assert_eq!(g, before);
}

#[test]
fn try_run_refuses_a_session_that_is_out_of_shape() {
    let mut g = playing(vec![Point::new(60, 50), Point::new(62, 50)], Direction::Left);
    let before = g.clone();
    assert_eq!(g.try_run(), None);
    assert_eq!(g, before);
    let mut g = Game::new();
    g.output.write(DrawCommand::HideCursor);
    assert_eq!(g.try_run(), None);
    assert_eq!(g.output.content.len(), 1);
}
