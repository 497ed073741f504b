//! Shapes that the user interface draws.

pub mod adaptive;
