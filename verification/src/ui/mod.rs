//! Presentation: themes, the box around a translation, terminal layout and
//! the interactive confirmation.
pub mod layout;
pub mod prompt;
pub mod theme;
pub mod box_draw;
