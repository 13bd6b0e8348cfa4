//! Styled terminal text: a `Style` describes colours and attributes, and the
//! library turns it into the ANSI Select Graphic Rendition escape sequences
//! that a terminal reads before and after a piece of text.

pub mod decimal;
pub mod colour;
pub mod style;
pub mod ansi;
pub mod laws;

pub use ansi::RESET;
pub use colour::Colour;
pub use style::Style;
