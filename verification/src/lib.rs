//! Decision logic of a Wayland layer-shell surface that hosts a small
//! counter program: the counter itself, the translation of keyboard and
//! pointer input into program events, and the surface's input state.

pub mod counter;
pub mod input;
pub mod sctk;
