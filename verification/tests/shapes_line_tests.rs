use grid_shapes::line::Line;
use grid_shapes::units::Coordinate;

fn start() -> Coordinate {
    Coordinate::new(0, 0)
}

fn end() -> Coordinate {
    Coordinate::new(2, 2)
}

fn len() -> u32 {
    3
}

fn line_new() -> Line {
    Line::new(start(), end())
}

#[test]
fn line_test_new() {
    let line = line_new();
    assert_eq!(line.start(), start());
    assert_eq!(line.end(), end());
}

#[test]
fn line_test_len() {
    let line = line_new();
    assert_eq!(line.len(), len())
}

#[test]
fn line_test_for_each() {
    let line = line_new();
    let mut points = Vec::new();
    for point in line.points() {
        points.push(point);
    }
    assert_eq!(
        points,
        vec![Coordinate::new(0, 0), Coordinate::new(1, 1), Coordinate::new(2, 2)]
    );
}

#[test]
fn line_test_into_iter() {
    let line = line_new();
    let mut it = line.into_iter();
    let mut points: Vec<Coordinate> = Vec::new();
    while let Some(point) = it.next() {
        points.push(point);
    }
    assert_eq!(
        points,
        vec![Coordinate::new(0, 0), Coordinate::new(1, 1), Coordinate::new(2, 2)]
    );
}
