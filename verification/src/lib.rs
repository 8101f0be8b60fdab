//! A cursor-addressed monospaced text renderer for rectangular pixel
//! surfaces.
//!
//! The terminal consumes a stream of ASCII bytes and turns it into glyph and
//! erase operations on an abstract drawable surface, while it keeps the
//! cursor inside the usable rectangle: horizontal overflow wraps to the next
//! line, vertical overflow wraps back to the top row, and backspace clamps at
//! the left edge.

pub mod laws;
pub mod model;
pub mod pin;
pub mod point;
pub mod style;
pub mod surface;
pub mod terminal;

pub use point::Point;
pub use point::SpecPoint;
pub use style::Rgb;
pub use style::TextStyle;
pub use surface::DrawError;
pub use surface::DrawOp;
pub use surface::RecordingSurface;
pub use surface::RejectingSurface;
pub use surface::Surface;
pub use terminal::TermError;
pub use terminal::Terminal;
pub use terminal::TerminalBuilder;
