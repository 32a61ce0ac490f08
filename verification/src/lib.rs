//! An interactive rectangle-drawing tool: a pointer-drag state machine that
//! builds a preview shape, commits a finished shape to the caller, and plans
//! the stroke commands that render a shape onto a drawing context.

pub mod math;
pub mod rectangle;
pub mod sketch_board;
pub mod style;
pub mod tools;
