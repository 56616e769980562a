//! What the rules of the game add up to, stated over the models and proved.

use crate::food::{inside_cells, lemma_room_for_food};
use crate::game::{requested_direction, GameModel, GameState};
use crate::geometry::{Direction, Point};
use crate::input::Action;
use crate::snake::{SnakeModel, START_COLUMN, START_LENGTH, START_ROW};
use vstd::prelude::*;

verus! {

/// A fresh session is as it should be between ticks, and so is the snake of
/// a fresh round, whose head is on the start cell.
pub proof fn law_fresh_session()
    ensures
        GameModel::initial().wf(),
        SnakeModel::initial().wf(),
        SnakeModel::initial().head() == (Point { x: START_COLUMN, y: START_ROW }),
{
}

/// A tick leaves a session as it should be between ticks: the snake well
/// formed, the food inside the arena, and the head inside it for as long as
/// the game is not over.
pub proof fn law_tick_keeps_shape(before: GameModel, after: GameModel)
    requires
        before.wf(),
        before.simulating(after),
    ensures
        after.wf(),
{
}

/// An action of the player leaves a session as it should be between ticks.
pub proof fn law_action_keeps_shape(game: GameModel, action: Action)
    requires
        game.wf(),
    ensures
        game.applied(action).wf(),
{
}

/// A tick of a round in play that ends without a meal puts the head exactly
/// one cell further in the direction the snake faces. It keeps the length of
/// the body, unless growth was pending from an earlier meal: then the body is
/// one cell longer.
pub proof fn law_tick_without_meal(before: GameModel, after: GameModel)
    requires
        before.wf(),
        before.state == GameState::Play,
        before.simulating(after),
        !before.advanced().feeds(),
    ensures
        !before.snake.grow ==> after.snake.body.len() == before.snake.body.len(),
        before.snake.grow ==> after.snake.body.len() == before.snake.body.len() + 1,
        after.snake.head() == before.snake.head().step(before.snake.direction),
        after.snake.head().adjacent(before.snake.head()),
        match before.snake.direction {
            Direction::Up => after.snake.head().x == before.snake.head().x && after.snake.head().y
                == before.snake.head().y - 1,
            Direction::Down => after.snake.head().x == before.snake.head().x
                && after.snake.head().y == before.snake.head().y + 1,
            Direction::Left => after.snake.head().x == before.snake.head().x - 1
                && after.snake.head().y == before.snake.head().y,
            Direction::Right => after.snake.head().x == before.snake.head().x + 1
                && after.snake.head().y == before.snake.head().y,
        },
        after.score == before.score,
        after.food == before.food,
{
}

/// A meal raises the score by exactly one and moves the food to a cell inside
/// the arena that no cell of the body covers, so to another cell than before.
/// The body is as long after the meal as before it; the snake is marked for
/// growth, and its next move makes the body exactly one cell longer.
pub proof fn law_meal(before: GameModel, after: GameModel)
    requires
        before.snake.body.len() >= 1,
        before.feeds(),
        before.feeding(after),
    ensures
        after.score == before.score + 1,
        before.frame.strictly_contains(after.food),
        forall|i: int| 0 <= i < after.snake.body.len() ==> after.snake.body[i] != after.food,
        after.food != before.food,
        after.snake.body == before.snake.body,
        after.snake.grow,
        after.snake.advance().body.len() == before.snake.body.len() + 1,
{
}

/// When a tick of a round in play ends in a meal and the round goes on, the
/// tick of the meal counts the score up and the tick after it lengthens the
/// body by exactly one cell.
pub proof fn law_growth_follows_meal(before: GameModel, fed: GameModel, after: GameModel)
    requires
        before.wf(),
        before.state == GameState::Play,
        before.advanced().feeds(),
        before.simulating(fed),
        fed.state == GameState::Play,
        fed.simulating(after),
    ensures
        fed.score == before.score + 1,
        !before.snake.grow ==> fed.snake.body.len() == before.snake.body.len(),
        after.snake.body.len() == fed.snake.body.len() + 1,
{
}

/// A tick can always be carried out while the snake, one cell longer than it
/// is, has fewer cells than the arena has inside, and the score is below the
/// largest number that can be counted.
pub proof fn law_room_to_play(game: GameModel)
    requires
        game.wf(),
        game.snake.body.len() + 1 < inside_cells(game.frame),
        game.score < usize::MAX,
    ensures
        game.can_run(),
{
    lemma_room_for_food(game.frame, game.advanced().snake);
}

/// A head in the column of the left or the right wall, or in the row of the
/// top or the bottom wall, ends the game when the collision rule is applied.
pub proof fn law_wall_ends_game(game: GameModel)
    requires
        game.snake.head().x == game.frame.left() || game.snake.head().x == game.frame.right()
            || game.snake.head().y == game.frame.top() || game.snake.head().y
            == game.frame.bottom(),
    ensures
        game.after_collisions().state == GameState::GameOver,
{
}

/// A head on the cell of body index `i`, from the neck to the cell before the
/// tail, ends the game when the collision rule is applied.
pub proof fn law_bite_ends_game(game: GameModel, i: int)
    requires
        1 <= i <= game.snake.body.len() - 2,
        game.snake.body[i] == game.snake.head(),
    ensures
        game.after_collisions().state == GameState::GameOver,
{
}

/// The tail does not count for the collision rule: a head that is off the
/// walls and off every cell from the neck to the cell before the tail leaves
/// the session as it is, whatever cell the tail is on, the head's included.
pub proof fn law_tail_is_spared(game: GameModel)
    requires
        game.snake.body.len() >= 1,
        game.frame.strictly_contains(game.snake.head()),
        forall|i: int| 1 <= i <= game.snake.body.len() - 2 ==> game.snake.body[i] != game.snake.head(),
    ensures
        game.after_collisions() == game,
{
}

/// A request to turn is taken exactly when it is orthogonal to the direction
/// faced. A request for the direction faced or for its opposite changes nothing.
pub proof fn law_turn(current: Direction, requested: Direction)
    ensures
        current.orthogonal(requested) <==> requested != current && requested != current.opposite(),
        current.orthogonal(requested) ==> current.turned(requested) == requested,
        !current.orthogonal(requested) ==> current.turned(requested) == current,
{
}

/// A movement action changes nothing but the direction the snake faces, and
/// that only if the game is not over and the direction asked for is
/// orthogonal to the one faced. Then the snake faces the direction asked for.
pub proof fn law_steering(game: GameModel, action: Action)
    requires
        requested_direction(action) is Some,
    ensures
        game.applied(action).snake.direction == if game.state != GameState::GameOver
            && game.snake.direction.orthogonal(requested_direction(action).unwrap()) {
            requested_direction(action).unwrap()
        } else {
            game.snake.direction
        },
        game.applied(action).snake.body == game.snake.body,
        game.applied(action).snake.grow == game.snake.grow,
        game.applied(action).state == game.state,
        game.applied(action).score == game.score,
        game.applied(action).food == game.food,
{
}

/// Starting leads from the menu into play. In play, and when the game is
/// over, it changes nothing.
pub proof fn law_start(game: GameModel)
    ensures
        game.state == GameState::Menu ==> game.applied(Action::StartGame).state == GameState::Play,
        game.state != GameState::Menu ==> game.applied(Action::StartGame) == game,
        game.applied(Action::StartGame).snake == game.snake,
        game.applied(Action::StartGame).food == game.food,
{
}

/// Restarting when the game is over leads into play with the snake of a
/// fresh round: thirteen cells side by side in one row, the head at the left
/// end, facing left. Score and food stay as they are.
pub proof fn law_restart(game: GameModel)
    requires
        game.state == GameState::GameOver,
    ensures
        game.applied(Action::Restart).state == GameState::Play,
        game.applied(Action::Restart).snake.body.len() == START_LENGTH,
        forall|i: int|
            0 <= i < START_LENGTH ==> #[trigger] game.applied(Action::Restart).snake.body[i] == (Point {
                x: (START_COLUMN + i) as u16,
                y: START_ROW,
            }),
        game.applied(Action::Restart).snake.direction == Direction::Left,
        !game.applied(Action::Restart).snake.grow,
        game.applied(Action::Restart).snake.wf(),
        game.applied(Action::Restart).score == game.score,
        game.applied(Action::Restart).food == game.food,
{
}

} // verus!
