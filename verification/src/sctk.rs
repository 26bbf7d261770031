//! The layer surface's state machine.

pub mod layer_surface;
