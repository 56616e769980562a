//! Where food may be put: on the cells inside the arena that the snake does not cover.

use crate::geometry::{Point, Rectangle};
use crate::snake::{Snake, SnakeModel};
use vstd::prelude::*;
use vstd::set_lib::{lemma_len_subset, lemma_set_disjoint_lens};

verus! {

/// Whether `p` is a cell for food: inside the arena, off its border, and not
/// a cell of the snake.
pub open spec fn free_cell(frame: Rectangle, snake: SnakeModel, p: Point) -> bool {
    frame.strictly_contains(p) && !snake.occupies(p)
}

/// Whether the arena has any cell left for food.
pub open spec fn has_free_cell(frame: Rectangle, snake: SnakeModel) -> bool {
    exists|p: Point| free_cell(frame, snake, p)
}

/// Whether `p` comes before `q` when the grid is read row by row from the
/// top, each row from the left.
pub open spec fn reads_before(p: Point, q: Point) -> bool {
    p.y < q.y || (p.y == q.y && p.x < q.x)
}

/// The number of cells in one row inside the arena.
pub open spec fn inside_width(frame: Rectangle) -> nat {
    if frame.left() < frame.right() {
        (frame.right() - frame.left() - 1) as nat
    } else {
        0
    }
}

/// The number of rows inside the arena.
pub open spec fn inside_height(frame: Rectangle) -> nat {
    if frame.top() < frame.bottom() {
        (frame.bottom() - frame.top() - 1) as nat
    } else {
        0
    }
}

/// The number of cells inside the arena.
pub open spec fn inside_cells(frame: Rectangle) -> nat {
    inside_width(frame) * inside_height(frame)
}

/// The first `cols` cells inside the arena of row `y`.
spec fn row_cells(frame: Rectangle, y: int, cols: int) -> Set<Point> {
    Set::new(|p: Point| p.y == y && frame.left() < p.x <= frame.left() + cols)
}

/// The cells of the first `rows` rows inside the arena.
spec fn grid_cells(frame: Rectangle, rows: int) -> Set<Point> {
    Set::new(|p: Point| frame.left() < p.x < frame.right() && frame.top() < p.y <= frame.top() + rows)
}

/// A row of `cols` cells has `cols` cells.
proof fn lemma_row_cells(frame: Rectangle, y: int, cols: int)
    requires
        0 <= y <= u16::MAX,
        0 <= cols <= inside_width(frame),
    ensures
        row_cells(frame, y, cols).finite(),
        row_cells(frame, y, cols).len() == cols,
    decreases cols,
{
    if cols == 0 {
        assert(row_cells(frame, y, cols) =~= Set::<Point>::empty());
    } else {
        lemma_row_cells(frame, y, cols - 1);
        let last = Point { x: (frame.left() + cols) as u16, y: y as u16 };
        assert(row_cells(frame, y, cols) =~= row_cells(frame, y, cols - 1).insert(last));
    }
}

/// A grid of `rows` rows has `rows` times the cells of one row.
proof fn lemma_grid_cells(frame: Rectangle, rows: int)
    requires
        0 <= rows <= inside_height(frame),
    ensures
        grid_cells(frame, rows).finite(),
        grid_cells(frame, rows).len() == rows * inside_width(frame),
    decreases rows,
{
    let width = inside_width(frame) as int;
    if rows == 0 {
        assert(grid_cells(frame, rows) =~= Set::<Point>::empty());
    } else {
        lemma_grid_cells(frame, rows - 1);
        lemma_row_cells(frame, frame.top() + rows, width);
        let above = grid_cells(frame, rows - 1);
        let row = row_cells(frame, frame.top() + rows, width);
        assert(grid_cells(frame, rows) =~= above + row);
        assert(above.disjoint(row));
        lemma_set_disjoint_lens(above, row);
        assert((rows - 1) * width + width == rows * width) by (nonlinear_arith);
    }
}

/// A snake with fewer cells than the arena has inside leaves a cell for food.
pub proof fn lemma_room_for_food(frame: Rectangle, snake: SnakeModel)
    requires
        snake.body.len() < inside_cells(frame),
    ensures
        has_free_cell(frame, snake),
{
    if !has_free_cell(frame, snake) {
        assert(inside_width(frame) > 0 && inside_height(frame) > 0) by (nonlinear_arith)
            requires
                0 < inside_width(frame) * inside_height(frame),
        ;
        let rows = inside_height(frame) as int;
        let inside = grid_cells(frame, rows);
        let covered = snake.body.to_set();
        lemma_grid_cells(frame, rows);
        snake.body.lemma_cardinality_of_set();
        assert forall|p: Point| inside.contains(p) implies covered.contains(p) by {
            assert(!free_cell(frame, snake, p));
        }
        lemma_len_subset(inside, covered);
        assert(inside_height(frame) * inside_width(frame) == inside_width(frame) * inside_height(
            frame,
        )) by (nonlinear_arith);
    }
}

/// Whether `candidate` is a cell for food.
pub fn is_free(frame: &Rectangle, snake: &Snake, candidate: Point) -> (free: bool)
    ensures
        free == free_cell(*frame, snake@, candidate),
{
    frame.encloses(candidate) && !snake.occupies(candidate)
}

/// The first cell for food when the arena is read row by row from the top,
/// each row from the left, or `None` when the snake covers every cell inside
/// the arena.
pub fn first_free_cell(frame: &Rectangle, snake: &Snake) -> (found: Option<Point>)
    ensures
        match found {
            Some(p) => free_cell(*frame, snake@, p) && forall|q: Point|
                #[trigger] free_cell(*frame, snake@, q) ==> !reads_before(q, p),
            None => !has_free_cell(*frame, snake@),
        },
{
    let left = frame.top_left.0;
    let top = frame.top_left.1;
    let right = frame.bottom_right.0;
    let bottom = frame.bottom_right.1;
    if top >= bottom || left >= right {
        return None;
    }
    let mut y: u16 = top + 1;
    while y < bottom
        invariant
            left == frame.left(),
            top == frame.top(),
            right == frame.right(),
            bottom == frame.bottom(),
            left < right,
            top < y <= bottom,
            forall|q: Point| #[trigger] free_cell(*frame, snake@, q) ==> q.y >= y,
        decreases bottom - y,
    {
        let mut x: u16 = left + 1;
        while x < right
            invariant
                left == frame.left(),
                top == frame.top(),
                right == frame.right(),
                bottom == frame.bottom(),
                left < x <= right,
                top < y < bottom,
                forall|q: Point|
                    #[trigger] free_cell(*frame, snake@, q) ==> q.y > y || (q.y == y && q.x >= x),
            decreases right - x,
        {
            let p = Point::new(x, y);
            if !snake.occupies(p) {
                return Some(p);
            }
            x += 1;
        }
        y += 1;
    }
    None
}

} // verus!
