//! Terminal text decoration: ANSI style and 24-bit color wrapping for
//! strings, a full-width horizontal rule, and rudimentary centering based
//! on the terminal's column count.

pub mod ansi;
pub mod colors;
pub mod numerals;
pub mod strip;
pub mod styles;
pub mod term;

pub use ansi::StyleKind;
pub use colors::ColorMode;
pub use colors::CynthiaColors;
pub use styles::CynthiaStyles;
pub use term::horizline;
