//! The snake: an ordered body of cells, head first, that moves one cell per tick.

use crate::draw::{DrawOp, Output, Style};
use crate::geometry::{Direction, Point};
use vstd::prelude::*;

verus! {

/// The number of cells of a snake at the start of a round.
pub const START_LENGTH: usize = 13;

/// The column of the head at the start of a round.
pub const START_COLUMN: u16 = 60;

/// The row of the whole snake at the start of a round.
pub const START_ROW: u16 = 50;

/// The snake. `body` lists its cells from the head to the tail; `grow` is set
/// between a meal and the next move, which then keeps the tail.
#[derive(Clone, Debug, PartialEq, Eq)]
pub struct Snake {
    pub body: Vec<Point>,
    pub direction: Direction,
    pub grow: bool,
}

/// The snake as a mathematical value.
pub ghost struct SnakeModel {
    pub body: Seq<Point>,
    pub direction: Direction,
    pub grow: bool,
}

impl View for Snake {
    type V = SnakeModel;

    open spec fn view(&self) -> SnakeModel {
        SnakeModel { body: self.body@, direction: self.direction, grow: self.grow }
    }
}

impl SnakeModel {
    /// The snake of a fresh round: thirteen cells in one row, the head at the
    /// left end, facing left, not growing.
    pub open spec fn initial() -> SnakeModel {
        SnakeModel {
            body: Seq::new(
                START_LENGTH as nat,
                |i: int| Point { x: (START_COLUMN + i) as u16, y: START_ROW },
            ),
            direction: Direction::Left,
            grow: false,
        }
    }

    /// Every snake has a head, and each cell of its body lies next to the one
    /// before it.
    pub open spec fn wf(self) -> bool {
        &&& self.body.len() >= 1
        &&& forall|i: int|
            0 <= i < self.body.len() - 1 ==> (#[trigger] self.body[i]).adjacent(self.body[i + 1])
    }

    /// The first cell of the body.
    pub open spec fn head(self) -> Point {
        self.body[0]
    }

    /// Whether `p` is one of the cells of the body.
    pub open spec fn occupies(self, p: Point) -> bool {
        self.body.contains(p)
    }

    /// Whether the head lies on a cell of the body between the neck and the
    /// cell before the tail, both counted. The tail itself does not count.
    pub open spec fn bites_itself(self) -> bool {
        exists|i: int| 1 <= i < self.body.len() - 1 && #[trigger] self.body[i] == self.head()
    }

    /// Whether the cell ahead of the head is still on the grid.
    pub open spec fn can_advance(self) -> bool {
        self.head().can_step(self.direction)
    }

    /// The snake after one move in direction `d`: a new head one cell from the
    /// old one, the rest following. The tail cell is given up unless the snake
    /// is growing, and the move uses the growth up.
    pub open spec fn moved(self, d: Direction) -> SnakeModel {
        SnakeModel {
            body: seq![self.head().step(d)] + (if self.grow {
                self.body
            } else {
                self.body.drop_last()
            }),
            direction: self.direction,
            grow: false,
        }
    }

    /// The snake after one move in the direction it faces.
    pub open spec fn advance(self) -> SnakeModel {
        self.moved(self.direction)
    }

    /// The snake with growth pending.
    pub open spec fn growing(self) -> SnakeModel {
        SnakeModel { grow: true, ..self }
    }

    /// The snake after a request to face `requested`.
    pub open spec fn turned(self, requested: Direction) -> SnakeModel {
        SnakeModel { direction: self.direction.turned(requested), ..self }
    }

    /// The `k`-th command of the snake's picture. Each cell takes two commands:
    /// move to the cell, write the glyph.
    pub open spec fn cell_op(self, k: int) -> DrawOp {
        if k % 2 == 0 {
            DrawOp::MoveTo { col: self.body[k / 2].x, row: self.body[k / 2].y }
        } else {
            DrawOp::Text { style: Style::Plain, text: "#"@ }
        }
    }

    /// The picture of the first `cells` cells of the body, from the head on.
    pub open spec fn picture_of(self, cells: nat) -> Seq<DrawOp> {
        Seq::new(2 * cells, |k: int| self.cell_op(k))
    }

    /// The picture of the snake: a plain `#` on every cell of the body, head first.
    pub open spec fn picture(self) -> Seq<DrawOp> {
        self.picture_of(self.body.len())
    }
}

/// A move keeps a well-formed snake well formed.
pub proof fn lemma_move_keeps_wf(snake: SnakeModel, d: Direction)
    requires
        snake.wf(),
        snake.head().can_step(d),
    ensures
        snake.moved(d).wf(),
{
    let next = snake.moved(d);
    assert forall|i: int| 0 <= i < next.body.len() - 1 implies (#[trigger] next.body[i]).adjacent(
        next.body[i + 1],
    ) by {
        if i > 0 {
            assert(snake.body[i - 1].adjacent(snake.body[i - 1 + 1]));
        }
    }
}

impl Snake {
    /// The snake of a fresh round.
    pub fn new() -> (snake: Self)
        ensures
            snake@ == SnakeModel::initial(),
    {
        let mut body: Vec<Point> = Vec::new();
        let mut i: u16 = 0;
        while i < START_LENGTH as u16
            invariant
                i <= START_LENGTH,
                body@.len() == i,
                forall|k: int| 0 <= k < i ==> body@[k] == (Point { x: (START_COLUMN + k) as u16, y: START_ROW }),
            decreases START_LENGTH - i,
        {
            body.push(Point::new(START_COLUMN + i, START_ROW));
            i += 1;
        }
        let snake = Self { direction: Direction::Left, grow: false, body };
        assert(snake@.body =~= SnakeModel::initial().body);
        snake
    }

    /// Whether the snake is well formed.
    pub fn is_valid(&self) -> (valid: bool)
        ensures
            valid == self@.wf(),
    {
        if self.body.len() == 0 {
            return false;
        }
        let mut i: usize = 1;
        while i < self.body.len()
            invariant
                1 <= i <= self.body@.len(),
                forall|k: int| 0 <= k < i - 1 ==> (#[trigger] self.body@[k]).adjacent(self.body@[k + 1]),
            decreases self.body@.len() - i,
        {
            if !self.body[i - 1].is_adjacent(self.body[i]) {
                return false;
            }
            i += 1;
        }
        true
    }

    /// Marks the snake for growth at its next move.
    pub fn grow(&mut self)
        ensures
            final(self)@ == old(self)@.growing(),
    {
        self.grow = true
    }

    /// The cell of the head.
    pub fn head(&self) -> (p: Point)
        requires
            self@.body.len() >= 1,
        ensures
            p == self@.head(),
    {
        self.body[0]
    }

    /// Whether `p` is one of the cells of the body.
    pub fn occupies(&self, p: Point) -> (hit: bool)
        ensures
            hit == self@.occupies(p),
    {
        let mut i: usize = 0;
        while i < self.body.len()
            invariant
                i <= self.body@.len(),
                forall|k: int| 0 <= k < i ==> self.body@[k] != p,
            decreases self.body@.len() - i,
        {
            if self.body[i].x == p.x && self.body[i].y == p.y {
                return true;
            }
            i += 1;
        }
        false
    }

    /// Queues the commands that draw the snake.
    pub fn render(&self, output: &mut Output)
        ensures
            final(output)@ == old(output)@ + self@.picture(),
    {
        let mut i: usize = 0;
        while i < self.body.len()
            invariant
                i <= self.body@.len(),
                output@ == old(output)@ + self@.picture_of(i as nat),
            decreases self.body@.len() - i,
        {
            let ghost before = output@;
            let point = self.body[i];
            output.move_to(point.x, point.y);
            output.print(Style::Plain, "#".to_owned());
            assert(output@ =~= before + seq![self@.cell_op(2 * i), self@.cell_op(2 * i + 1)]);
            assert(self@.picture_of(i as nat) + seq![self@.cell_op(2 * i), self@.cell_op(2 * i + 1)]
                =~= self@.picture_of((i + 1) as nat));
            i += 1;
        }
    }

    /// Moves the snake one cell in the direction it faces.
    pub fn slither(&mut self)
        requires
            old(self)@.body.len() >= 1,
            old(self)@.can_advance(),
        ensures
            final(self)@ == old(self)@.advance(),
            old(self)@.wf() ==> final(self)@.wf(),
    {
        proof {
            if self@.wf() {
                lemma_move_keeps_wf(self@, self.direction);
            }
        }
        match self.direction {
            Direction::Up => self.move_up(),
            Direction::Down => self.move_down(),
            Direction::Left => self.move_left(),
            Direction::Right => self.move_right(),
        }
    }

    /// Puts `head` in front of the body and, unless the snake is growing,
    /// gives up the tail cell.
    fn push_head(&mut self, head: Point)
        requires
            old(self)@.body.len() >= 1,
        ensures
            final(self)@ == (SnakeModel {
                body: seq![head] + (if old(self)@.grow {
                    old(self)@.body
                } else {
                    old(self)@.body.drop_last()
                }),
                direction: old(self)@.direction,
                grow: false,
            }),
    {
        self.body.insert(0, head);
        if !self.grow {
            self.body.pop();
            assert(self.body@ =~= seq![head] + old(self)@.body.drop_last());
        } else {
            self.grow = false;
            assert(self.body@ =~= seq![head] + old(self)@.body);
        }
    }

    /// Moves the snake one cell to the left.
    pub fn move_left(&mut self)
        requires
            old(self)@.body.len() >= 1,
            old(self)@.head().can_step(Direction::Left),
        ensures
            final(self)@ == old(self)@.moved(Direction::Left),
    {
        let head = self.body[0];
        self.push_head(Point::new(head.x - 1, head.y));
    }

    /// Moves the snake one cell to the right.
    pub fn move_right(&mut self)
        requires
            old(self)@.body.len() >= 1,
            old(self)@.head().can_step(Direction::Right),
        ensures
            final(self)@ == old(self)@.moved(Direction::Right),
    {
        let head = self.body[0];
        self.push_head(Point::new(head.x + 1, head.y));
    }

    /// Moves the snake one cell up.
    pub fn move_up(&mut self)
        requires
            old(self)@.body.len() >= 1,
            old(self)@.head().can_step(Direction::Up),
        ensures
            final(self)@ == old(self)@.moved(Direction::Up),
    {
        let head = self.body[0];
        self.push_head(Point::new(head.x, head.y - 1));
    }

    /// Moves the snake one cell down.
    pub fn move_down(&mut self)
        requires
            old(self)@.body.len() >= 1,
            old(self)@.head().can_step(Direction::Down),
        ensures
            final(self)@ == old(self)@.moved(Direction::Down),
    {
        let head = self.body[0];
        self.push_head(Point::new(head.x, head.y + 1));
    }
}

} // verus!
