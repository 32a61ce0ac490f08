//! What a tool hands back to the host: the outcome of handling one event,
//! and the drawing commands that render a shape.

use vstd::prelude::*;
use crate::math::Vec2D;
use crate::rectangle::Rectangle;
use crate::style::{Color, Size};

verus! {

/// The outcome of handling one event, returned to the host after every call.
#[derive(Clone, Copy, Debug, PartialEq)]
pub enum ToolUpdateResult {
    /// Nothing changed; no redraw is needed.
    Unmodified,
    /// The preview changed (created, updated or removed); the host must
    /// re-render the overlay, but nothing was committed.
    Redraw,
    /// A finished, independently owned shape for the host to insert into the
    /// document; the tool is idle again.
    Commit(Rectangle),
}

/// One drawing command against a 2D context. Rendering a shape yields a
/// sequence of these; the host replays them, in order, on its backend.
/// Coordinates and displacements carry the same 64-bit component encodings
/// as everywhere else; the host decodes them for its context.
#[derive(Clone, Copy, Debug, PartialEq)]
pub enum DrawOp {
    /// Save the drawing-context state.
    Save,
    /// Set the stroke width from a width class.
    SetLineWidth(Size),
    /// Set the stroke color and alpha.
    SetSourceColor(Color),
    /// Build an axis-aligned rectangle path anchored at `top_left` whose
    /// width and height are the components of `size`. Negative components
    /// are deliberate: they draw the rectangle on the opposite side of the
    /// anchor, so a drag may run in any direction.
    RectPath { top_left: Vec2D, size: Vec2D },
    /// Stroke the current path without filling it.
    Stroke,
    /// Restore the drawing-context state saved before.
    Restore,
}

} // verus!
