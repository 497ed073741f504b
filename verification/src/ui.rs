//! Pieces of the user interface.

pub mod render;
