use std::collections::HashSet;

use grid_shapes::circle::Circle;
use grid_shapes::line::Line;
use grid_shapes::linear::LinearIter;
use grid_shapes::octant::Octant;
use grid_shapes::rectangle::Rectangle;
use grid_shapes::units::{Coordinate, Size};

fn c(x: i32, y: i32) -> Coordinate {
    Coordinate::new(x, y)
}

#[test]
fn test_bresenham_shallow_line() {
    let points = Line::new(c(0, 0), c(3, 1)).points();
    assert_eq!(points, vec![c(0, 0), c(1, 0), c(2, 0), c(3, 1)]);
}

#[test]
fn test_bresenham_negative_diagonal() {
    let points = Line::new(c(0, 0), c(-2, -2)).points();
    assert_eq!(points, vec![c(0, 0), c(-1, -1), c(-2, -2)]);
}

#[test]
fn test_bresenham_vertical_down() {
    let points = Line::new(c(4, 1), c(4, -2)).points();
    assert_eq!(points, vec![c(4, 1), c(4, 0), c(4, -1), c(4, -2)]);
}

#[test]
fn test_bresenham_degenerate_line() {
    let line = Line::new(c(5, 5), c(5, 5));
    assert_eq!(line.len(), 1);
    assert_eq!(line.points(), vec![c(5, 5)]);
}

#[test]
fn test_line_len_matches_count() {
    for &(sx, sy, ex, ey) in &[(0, 0, 7, 3), (2, -5, -4, 1), (3, 3, 3, 3), (-1, 0, -1, 9)] {
        let line = Line::new(c(sx, sy), c(ex, ey));
        assert_eq!(line.len() as usize, line.points().len());
        let dx = (ex - sx).abs();
        let dy = (ey - sy).abs();
        assert_eq!(line.len(), dx.max(dy) as u32 + 1);
    }
}

#[test]
fn test_tunnel_horizontal_vertical_exact() {
    let line = Line::new(c(0, 0), c(3, 2));
    let points = line.tunnel_horizontal_vertical_points();
    assert_eq!(
        points,
        vec![c(0, 0), c(1, 0), c(2, 0), c(3, 0), c(3, 0), c(3, 1), c(3, 2)]
    );
}

#[test]
fn test_tunnel_vertical_horizontal_exact() {
    let line = Line::new(c(0, 0), c(3, 2));
    let points = line.tunnel_vertical_horizontal_points();
    assert_eq!(
        points,
        vec![c(0, 0), c(0, 1), c(0, 2), c(0, 2), c(1, 2), c(2, 2), c(3, 2)]
    );
}

#[test]
fn test_tunnel_descending_count() {
    let line = Line::new(c(3, 2), c(0, 0));
    assert_eq!(line.tunnel_horizontal_vertical_points().len(), 7);
    assert_eq!(line.tunnel_vertical_horizontal_points().len(), 7);
}

#[test]
fn test_linear_iter_normalizes() {
    let mut it = LinearIter::new(5, 2);
    let mut got = Vec::new();
    while let Some(v) = it.next() {
        got.push(v);
    }
    assert_eq!(got, vec![2, 3, 4, 5]);
}

#[test]
fn test_octant_roundtrip() {
    for tag in 0..8u8 {
        let octant = Octant(tag);
        let p = c(3, -7);
        let offset = octant.to_offset(p);
        assert_eq!(octant.from_offset(offset), p);
    }
}

#[test]
fn test_rectangle_normalization() {
    let rect = Rectangle::new(-2, 0, 2, 9);
    assert_eq!(rect.size(), Size::new(5, 10));
    assert_eq!(rect.min(), c(-2, 0));
    assert_eq!(rect.max(), c(2, 9));
}

#[test]
fn test_rectangle_center() {
    assert_eq!(Rectangle::new(0, 0, 4, 4).center(), c(2, 2));
    assert_eq!(Rectangle::new(0, 0, 3, 3).center(), c(1, 1));
    assert_eq!(Rectangle::new(-5, -5, 0, 0).center(), c(-2, -2));
}

#[test]
fn test_rectangle_zero_size_is_empty() {
    assert_eq!(Rectangle::from_size(c(0, 0), Size::new(0, 5)).points(), vec![]);
    assert_eq!(Rectangle::from_size(c(0, 0), Size::new(3, 0)).points(), vec![]);
    assert_eq!(
        Rectangle::from_size(c(0, 0), Size::new(0, 5)).border_points(),
        vec![]
    );
}

#[test]
fn test_rectangle_border_exact() {
    let border = Rectangle::new(0, 0, 2, 2).border_points();
    assert_eq!(
        border,
        vec![
            c(0, 0),
            c(1, 0),
            c(2, 0),
            c(0, 1),
            c(2, 1),
            c(0, 2),
            c(1, 2),
            c(2, 2)
        ]
    );
}

#[test]
fn test_rectangle_border_single_column() {
    let border = Rectangle::from_size(c(0, 0), Size::new(1, 3)).border_points();
    assert_eq!(border, vec![c(0, 0), c(0, 1), c(0, 2)]);
}

#[test]
fn test_rectangle_border_degenerates_to_fill() {
    let thin = Rectangle::from_size(c(1, 1), Size::new(2, 3));
    assert_eq!(thin.border_points(), thin.points());
    let flat = Rectangle::from_size(c(0, 0), Size::new(4, 2));
    assert_eq!(flat.border_points(), flat.points());
}

#[test]
fn test_circle_degenerate_radius_zero() {
    let circle = Circle::new(c(7, -3), 0);
    assert_eq!(circle.points(), vec![c(7, -3)]);
    assert_eq!(circle.circumference_points(), vec![c(7, -3)]);
    assert_eq!(circle.get_count(), 1);
}

#[test]
fn test_circle_counts() {
    assert_eq!(Circle::new(c(0, 0), 1).get_count(), 5);
    assert_eq!(Circle::new(c(0, 0), 2).get_count(), 13);
}

#[test]
fn test_circle_circumference_radius_one() {
    let points = Circle::new(c(0, 0), 1).circumference_points();
    assert_eq!(points, vec![c(0, 1), c(0, -1), c(1, 0), c(-1, 0)]);
}

#[test]
fn test_circle_no_duplicates() {
    for radius in 0..=50u32 {
        let circle = Circle::new(c(3, -2), radius);
        let filled = circle.points();
        let filled_set: HashSet<Coordinate> = filled.iter().copied().collect();
        assert_eq!(filled_set.len(), filled.len());
        let ring = circle.circumference_points();
        let ring_set: HashSet<Coordinate> = ring.iter().copied().collect();
        assert_eq!(ring_set.len(), ring.len());
    }
}

#[test]
fn test_circle_fill_superset_of_circumference() {
    for radius in 0..=50u32 {
        let circle = Circle::new(c(-1, 4), radius);
        let filled: HashSet<Coordinate> = circle.points().into_iter().collect();
        for point in circle.circumference_points() {
            assert!(filled.contains(&point));
        }
    }
}

#[test]
fn test_circle_contains_matches_iteration() {
    let circle = Circle::new(c(0, 0), 2);
    let produced: HashSet<Coordinate> = circle.points().into_iter().collect();
    for x in -4..=4 {
        for y in -4..=4 {
            assert_eq!(circle.contains(c(x, y)), produced.contains(&c(x, y)));
        }
    }
}

#[test]
fn test_circle_aabb() {
    let circle = Circle::new(c(1, 2), 3);
    assert_eq!(circle.aabb(), Rectangle::new(-2, -1, 4, 5));
    let dot = Circle::new(c(0, 0), 0);
    assert_eq!(dot.aabb(), Rectangle::new(0, 0, 0, 0));
}

#[test]
fn test_circle_extreme_points() {
    let circle = Circle::new(c(10, 20), 4);
    assert_eq!(circle.left(), c(6, 20));
    assert_eq!(circle.right(), c(14, 20));
    assert_eq!(circle.top(), c(10, 24));
    assert_eq!(circle.bottom(), c(10, 16));
}

#[test]
fn test_line_aabb() {
    let rect = Line::new(c(3, 1), c(0, 2)).aabb();
    assert_eq!(rect, Rectangle::new(0, 1, 3, 2));
}

#[test]
fn test_defaults() {
    assert_eq!(Line::default(), Line::new(c(0, 0), c(1, 0)));
    assert_eq!(
        Rectangle::default(),
        Rectangle::from_size(c(0, 0), Size::new(1, 1))
    );
    assert_eq!(Circle::default(), Circle::new(c(0, 0), 1));
    assert_eq!(Coordinate::default(), c(0, 0));
    assert_eq!(Size::default(), Size::new(1, 1));
}
