//! Cells, directions and the rectangle that bounds the arena.

use crate::draw::{DrawOp, Output, Style};
use crate::text::{blank_run, blanks};
use vstd::prelude::*;

verus! {

/// A cell of the terminal grid: column `x`, row `y`.
#[derive(Clone, Copy, Debug, PartialEq, Eq, Structural)]
pub struct Point {
    pub x: u16,
    pub y: u16,
}

/// The four directions a snake can face.
#[derive(Clone, Copy, Debug, PartialEq, Eq, Structural)]
pub enum Direction {
    Right,
    Left,
    Up,
    Down,
}

impl Direction {
    /// Left and right run along the horizontal axis, up and down along the vertical one.
    pub open spec fn is_horizontal(self) -> bool {
        self == Direction::Left || self == Direction::Right
    }

    /// The direction that points the other way.
    pub open spec fn opposite(self) -> Direction {
        match self {
            Direction::Right => Direction::Left,
            Direction::Left => Direction::Right,
            Direction::Up => Direction::Down,
            Direction::Down => Direction::Up,
        }
    }

    /// Two directions are orthogonal when they run along different axes.
    pub open spec fn orthogonal(self, other: Direction) -> bool {
        self.is_horizontal() != other.is_horizontal()
    }

    /// The direction faced after a request to face `requested`: the request is
    /// taken when it is orthogonal to the current direction and ignored otherwise,
    /// so a snake never reverses into its own neck.
    pub open spec fn turned(self, requested: Direction) -> Direction {
        if self.orthogonal(requested) {
            requested
        } else {
            self
        }
    }

    /// Answers a request to face `requested`.
    pub fn turn(self, requested: Direction) -> (next: Direction)
        ensures
            next == self.turned(requested),
    {
        match self {
            Direction::Left | Direction::Right => match requested {
                Direction::Up | Direction::Down => requested,
                _ => self,
            },
            Direction::Up | Direction::Down => match requested {
                Direction::Left | Direction::Right => requested,
                _ => self,
            },
        }
    }
}

impl Point {
    /// The cell in column `x` of row `y`.
    pub fn new(x: u16, y: u16) -> (p: Self)
        ensures
            p == (Point { x, y }),
    {
        Self { x, y }
    }

    /// Whether the neighbour of this cell in direction `d` is still on the grid.
    pub open spec fn can_step(self, d: Direction) -> bool {
        match d {
            Direction::Up => self.y > 0,
            Direction::Down => self.y < u16::MAX,
            Direction::Left => self.x > 0,
            Direction::Right => self.x < u16::MAX,
        }
    }

    /// The neighbour of this cell in direction `d`. Rows grow downwards, so up
    /// is `y - 1`. Meaningful where `can_step` holds.
    pub open spec fn step(self, d: Direction) -> Point
        recommends
            self.can_step(d),
    {
        match d {
            Direction::Up => Point { x: self.x, y: (self.y - 1) as u16 },
            Direction::Down => Point { x: self.x, y: (self.y + 1) as u16 },
            Direction::Left => Point { x: (self.x - 1) as u16, y: self.y },
            Direction::Right => Point { x: (self.x + 1) as u16, y: self.y },
        }
    }

    /// Two cells are adjacent when they are exactly one cell apart along one axis.
    pub open spec fn adjacent(self, other: Point) -> bool {
        ||| self.x == other.x && (self.y - other.y == 1 || other.y - self.y == 1)
        ||| self.y == other.y && (self.x - other.x == 1 || other.x - self.x == 1)
    }

    /// Whether `other` is exactly one cell away along one axis.
    pub fn is_adjacent(&self, other: Point) -> (next_to: bool)
        ensures
            next_to == self.adjacent(other),
    {
        (self.x == other.x && ((self.y > other.y && self.y - other.y == 1) || (other.y > self.y
            && other.y - self.y == 1))) || (self.y == other.y && ((self.x > other.x && self.x
            - other.x == 1) || (other.x > self.x && other.x - self.x == 1)))
    }
}

/// An axis-aligned rectangle of the grid, given by two opposite corners, each
/// as (column, row). Its border cells are the walls of the arena.
#[derive(Clone, Copy, Debug, PartialEq, Eq)]
pub struct Rectangle {
    pub top_left: (u16, u16),
    pub bottom_right: (u16, u16),
}

impl Rectangle {
    /// The rectangle with the given corners.
    pub fn new(top_left: (u16, u16), bottom_right: (u16, u16)) -> (r: Self)
        ensures
            r.top_left == top_left,
            r.bottom_right == bottom_right,
    {
        Self { top_left, bottom_right }
    }

    /// The column of the left wall.
    pub open spec fn left(self) -> u16 {
        self.top_left.0
    }

    /// The row of the top wall.
    pub open spec fn top(self) -> u16 {
        self.top_left.1
    }

    /// The column of the right wall.
    pub open spec fn right(self) -> u16 {
        self.bottom_right.0
    }

    /// The row of the bottom wall.
    pub open spec fn bottom(self) -> u16 {
        self.bottom_right.1
    }

    /// The first corner is the top left one and the second the bottom right one.
    pub open spec fn wf(self) -> bool {
        self.left() <= self.right() && self.top() <= self.bottom()
    }

    /// Whether `p` lies inside the rectangle and off its border.
    pub open spec fn strictly_contains(self, p: Point) -> bool {
        self.left() < p.x < self.right() && self.top() < p.y < self.bottom()
    }

    /// Whether `p` touches the border or lies beyond it.
    pub open spec fn hits_wall(self, p: Point) -> bool {
        p.x <= self.left() || p.x >= self.right() || p.y <= self.top() || p.y >= self.bottom()
    }

    /// Whether `p` lies inside the rectangle and off its border.
    pub fn encloses(&self, p: Point) -> (inside: bool)
        ensures
            inside == self.strictly_contains(p),
            inside == !self.hits_wall(p),
    {
        self.top_left.0 < p.x && p.x < self.bottom_right.0 && self.top_left.1 < p.y && p.y
            < self.bottom_right.1
    }

    /// The width of the top and bottom edges as drawn: from the left column up
    /// to, and without, the right one, which the right side fills in.
    pub open spec fn run_width(self) -> nat {
        (self.right() - self.left()) as nat
    }

    /// The two horizontal edges: a run of reverse-video blanks along the top
    /// row and one along the bottom row.
    pub open spec fn edges(self) -> Seq<DrawOp> {
        seq![
            DrawOp::MoveTo { col: self.left(), row: self.top() },
            DrawOp::Text { style: Style::Reverse, text: blanks(self.run_width()) },
            DrawOp::MoveTo { col: self.left(), row: self.bottom() },
            DrawOp::Text { style: Style::Reverse, text: blanks(self.run_width()) },
        ]
    }

    /// The `k`-th command of the two sides. Each row takes four commands: move
    /// to its left cell, a reverse-video blank, move to its right cell, a
    /// reverse-video blank.
    pub open spec fn side_op(self, k: int) -> DrawOp {
        let row = (self.top() + k / 4) as u16;
        if k % 4 == 0 {
            DrawOp::MoveTo { col: self.left(), row }
        } else if k % 4 == 2 {
            DrawOp::MoveTo { col: self.right(), row }
        } else {
            DrawOp::Text { style: Style::Reverse, text: blanks(1) }
        }
    }

    /// The two sides over the first `rows` rows, from the top row down.
    pub open spec fn sides(self, rows: nat) -> Seq<DrawOp> {
        Seq::new(4 * rows, |k: int| self.side_op(k))
    }

    /// The number of rows from the top row to the bottom row, both counted.
    pub open spec fn height(self) -> nat {
        (self.bottom() - self.top() + 1) as nat
    }

    /// The hollow frame: both edges, then both sides over every row from the
    /// top row to the bottom row, all in reverse video.
    pub open spec fn border(self) -> Seq<DrawOp> {
        self.edges() + self.sides(self.height())
    }

    /// Queues the commands that draw the hollow frame.
    pub fn render(&self, output: &mut Output)
        requires
            self.wf(),
        ensures
            final(output)@ == old(output)@ + self.border(),
    {
        let left = self.top_left.0;
        let top = self.top_left.1;
        let right = self.bottom_right.0;
        let bottom = self.bottom_right.1;
        output.move_to(left, top);
        output.print(Style::Reverse, blank_run(right - left));
        output.move_to(left, bottom);
        output.print(Style::Reverse, blank_run(right - left));
        assert(output@ =~= old(output)@ + self.edges());
        let mut row: u32 = top as u32;
        while row <= bottom as u32
            invariant
                top == self.top(),
                left == self.left(),
                right == self.right(),
                bottom == self.bottom(),
                top <= row <= bottom + 1,
                output@ == old(output)@ + self.edges() + self.sides((row - top) as nat),
            decreases bottom + 1 - row,
        {
            let ghost before = output@;
            let ghost done = (row - top) as int;
            output.move_to(left, row as u16);
            output.print(Style::Reverse, blank_run(1));
            output.move_to(right, row as u16);
            output.print(Style::Reverse, blank_run(1));
            assert(output@ =~= before + seq![
                self.side_op(4 * done),
                self.side_op(4 * done + 1),
                self.side_op(4 * done + 2),
                self.side_op(4 * done + 3),
            ]);
            assert(self.sides(done as nat) + seq![
                self.side_op(4 * done),
                self.side_op(4 * done + 1),
                self.side_op(4 * done + 2),
                self.side_op(4 * done + 3),
            ] =~= self.sides((done + 1) as nat));
            row += 1;
        }
    }
}

} // verus!
