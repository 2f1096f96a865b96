//! A 2D discrete-grid geometry library: lines, circles and rectangles
//! rasterized into sequences of integer grid coordinates, with each
//! rasterizer's output pinned down by its contract.

pub mod bresenham;
pub mod circle;
pub mod circle_iters;
pub mod dedup;
pub mod lemmas;
pub mod line;
pub mod linear;
pub mod octant;
pub mod rect_iters;
pub mod rectangle;
pub mod tunnel;
pub mod units;

pub use circle::Circle;
pub use line::Line;
pub use rectangle::Rectangle;
pub use units::{Coordinate, Size};
