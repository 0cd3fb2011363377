//! Renders highlighted text for a terminal.
//!
//! A region is a span of text with one style: a foreground colour of the
//! Solarized palette and the font flags bold, italic and underline. Each
//! region becomes a run of ANSI escape sequences around its text. Only the
//! colours that every terminal theme defines are used, so that the output
//! reads well on light and on dark backgrounds alike.

pub mod escape;
pub mod palette;
pub mod style;
pub mod writer;
