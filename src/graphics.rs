//! Plain values shared with drawing code: colors and rectangles.
mod color;
mod rectangle;

pub use self::color::Color;
pub use self::rectangle::Rectangle;
