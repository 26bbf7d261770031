//! Input translation: keyboard keysyms and pointer events.

pub mod keyboard;
pub mod pointer;
