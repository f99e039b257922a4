//! A wall clock for a fixed-size monochrome dot-matrix sign.
//!
//! The crate turns a wall-clock reading into the strings a sign shows, lays
//! those strings out with bitmap fonts on a pixel page, and decides when the
//! page has to be drawn again so that it changes on the minute.

pub mod clock;
pub mod compose;
pub mod font;
pub mod format;
pub mod glyph;
pub mod options;
pub mod page;
pub mod raster;
pub mod scheduler;
pub mod timestamp;

pub use clock::Clock;
pub use compose::Fonts;
pub use options::Options;
