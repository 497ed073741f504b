//! Draw-call batching for a 2D renderer: primitives are packed into
//! fixed-capacity batches, and a controller spreads a frame's primitives
//! over as many batches as it takes. Beside it stand the input dispatch and
//! the window bookkeeping that drive a frame.

pub mod input;
pub mod rendering;
pub mod ui;
pub mod window;
