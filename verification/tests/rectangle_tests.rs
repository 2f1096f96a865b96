use grid_shapes::rectangle::Rectangle;
use grid_shapes::units::{Coordinate, Size};

fn size() -> Size {
    Size::new(5, 10)
}

fn min() -> Coordinate {
    Coordinate::new(-2, 0)
}

fn max() -> Coordinate {
    Coordinate::new(2, 9)
}

fn rect_from_size() -> Rectangle {
    Rectangle::from_size(min(), size())
}

fn rect_from_corners() -> Rectangle {
    Rectangle::from_corners(min(), max())
}

fn rect_new() -> Rectangle {
    Rectangle::new(min().x, min().y, max().x, max().y)
}

#[test]
fn mod_test_from_size() {
    let rect = rect_from_size();
    assert_eq!(rect.right(), max().x);
    assert_eq!(rect.top(), max().y);
}

#[test]
fn mod_test_from_corners() {
    let rect = rect_from_corners();
    assert_eq!(rect.size(), size());
}

#[test]
fn mod_test_new() {
    let rect = rect_new();
    assert_eq!(rect.size(), size());
}

#[test]
fn mod_test_size() {
    let rect = rect_from_size();
    assert_eq!(rect.size(), size());
}

#[test]
fn mod_test_width() {
    let rect = rect_from_size();
    assert_eq!(rect.width(), size().width());
}

#[test]
fn mod_test_height() {
    let rect = rect_from_size();
    assert_eq!(rect.height(), size().height());
}

#[test]
fn mod_test_min() {
    let rect = rect_from_size();
    assert_eq!(rect.min(), min());
}

#[test]
fn mod_test_max() {
    let rect = rect_from_size();
    assert_eq!(rect.max(), max());
}

#[test]
fn mod_test_left() {
    let rect = rect_from_size();
    assert_eq!(rect.left(), min().x);
}

#[test]
fn mod_test_right() {
    let rect = rect_from_size();
    assert_eq!(rect.right(), max().x);
}

#[test]
fn mod_test_top() {
    let rect = rect_from_size();
    assert_eq!(rect.top(), max().y);
}

#[test]
fn mod_test_bottom() {
    let rect = rect_from_size();
    assert_eq!(rect.bottom(), min().y);
}

#[test]
fn mod_test_is_square() {
    let rect = Rectangle::new(0, 0, 10, 10);
    assert!(rect.is_square());

    let rect = Rectangle::new(0, 0, 10, 20);
    assert!(!rect.is_square());
}

#[test]
fn mod_test_intersects() {
    let rect1 = Rectangle::new(0, 0, 10, 10);
    let rect2 = Rectangle::new(5, 5, 15, 15);
    assert!(rect1.intersects(rect2));

    let rect1 = Rectangle::new(0, 0, 10, 10);
    let rect2 = Rectangle::new(11, 11, 20, 20);
    assert!(!rect1.intersects(rect2));
}

#[test]
fn mod_test_for_each() {
    let rect = Rectangle::new(0, 0, 1, 1);
    let mut points = Vec::new();
    for point in rect.points() {
        points.push(point);
    }
    assert_eq!(
        points,
        vec![
            Coordinate::new(0, 0),
            Coordinate::new(1, 0),
            Coordinate::new(0, 1),
            Coordinate::new(1, 1)
        ]
    );
}

#[test]
fn mod_test_into_iter() {
    let rect = Rectangle::new(0, 0, 1, 1);
    let mut it = rect.into_iter();
    let mut points: Vec<Coordinate> = Vec::new();
    while let Some(point) = it.next() {
        points.push(point);
    }
    assert_eq!(
        points,
        vec![
            Coordinate::new(0, 0),
            Coordinate::new(1, 0),
            Coordinate::new(0, 1),
            Coordinate::new(1, 1),
        ]
    )
}
