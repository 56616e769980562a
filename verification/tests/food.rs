use snake_game::food::{first_free_cell, is_free};
use snake_game::geometry::{Direction, Point, Rectangle};
use snake_game::snake::Snake;

fn snake_on(body: Vec<Point>) -> Snake {
    Snake { body, direction: Direction::Left, grow: false }
}

#[test]
fn a_cell_under_the_snake_is_not_free() {
    let frame = Rectangle::new((30, 30), (100, 60));
    let s = Snake::new();
    assert!(!is_free(&frame, &s, Point::new(60, 50)));
    assert!(!is_free(&frame, &s, Point::new(72, 50)));
    assert!(is_free(&frame, &s, Point::new(59, 50)));
    assert!(is_free(&frame, &s, Point::new(40, 45)));
}

#[test]
fn a_cell_on_the_border_is_not_free() {
    let frame = Rectangle::new((30, 30), (100, 60));
    let s = Snake::new();
    assert!(!is_free(&frame, &s, Point::new(30, 45)));
    assert!(!is_free(&frame, &s, Point::new(100, 45)));
    assert!(!is_free(&frame, &s, Point::new(45, 30)));
    assert!(!is_free(&frame, &s, Point::new(45, 60)));
    assert!(!is_free(&frame, &s, Point::new(10, 10)));
    assert!(is_free(&frame, &s, Point::new(31, 31)));
    assert!(is_free(&frame, &s, Point::new(99, 59)));
}

#[test]
fn the_first_free_cell_is_the_top_left_one() {
    let frame = Rectangle::new((30, 30), (100, 60));
    assert_eq!(first_free_cell(&frame, &Snake::new()), Some(Point::new(31, 31)));
}

#[test]
fn the_first_free_cell_skips_the_snake() {
    let frame = Rectangle::new((0, 0), (4, 3));
    let s = snake_on(vec![Point::new(1, 1), Point::new(2, 1)]);
    assert_eq!(first_free_cell(&frame, &s), Some(Point::new(3, 1)));
    let s = snake_on(vec![Point::new(1, 1), Point::new(2, 1), Point::new(3, 1)]);
    assert_eq!(first_free_cell(&frame, &s), Some(Point::new(1, 2)));
    let s = snake_on(vec![Point::new(1, 1), Point::new(2, 1), Point::new(3, 1), Point::new(3, 2), Point::new(2, 2)]);
    assert_eq!(first_free_cell(&frame, &s), Some(Point::new(1, 2)));
}

#[test]
fn a_covered_arena_has_no_free_cell() {
    let frame = Rectangle::new((0, 0), (3, 3));
    let s = snake_on(vec![Point::new(1, 1), Point::new(2, 1), Point::new(2, 2), Point::new(1, 2)]);
    assert_eq!(first_free_cell(&frame, &s), None);
}

#[test]
fn an_arena_without_an_inside_has_no_free_cell() {
    let s = snake_on(vec![Point::new(50, 50)]);
    assert_eq!(first_free_cell(&Rectangle::new((0, 0), (1, 9)), &s), None);
    assert_eq!(first_free_cell(&Rectangle::new((0, 0), (9, 1)), &s), None);
    assert_eq!(first_free_cell(&Rectangle::new((5, 5), (5, 5)), &s), None);
    assert_eq!(first_free_cell(&Rectangle::new((9, 9), (0, 0)), &s), None);
    assert_eq!(
        first_free_cell(&Rectangle::new((u16::MAX, u16::MAX), (u16::MAX, u16::MAX)), &s),
        None
    );
    assert_eq!(first_free_cell(&Rectangle::new((0, 0), (2, 2)), &s), Some(Point::new(1, 1)));
}
