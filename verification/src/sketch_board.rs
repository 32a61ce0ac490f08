//! The events the host delivers to a tool: pointer events, key events, and
//! style changes, plus the combined event type used to reason about whole
//! event sequences.

use vstd::prelude::*;
use crate::math::Vec2D;
use crate::style::Style;

verus! {

/// What kind of pointer interaction a mouse event reports.
#[derive(Clone, Copy, Debug, PartialEq, Eq, Structural)]
pub enum MouseEventType {
    /// The pointer went down: a drag gesture starts here.
    BeginDrag,
    /// The pointer moved while dragging.
    UpdateDrag,
    /// The pointer went up: the drag gesture ends here.
    EndDrag,
    /// A click without a drag; this tool ignores it.
    Click,
}

/// A pointer event: where it happened and what kind it is.
#[derive(Clone, Copy, Debug, PartialEq, Eq, Structural)]
pub struct MouseEventMsg {
    pub pos: Vec2D,
    pub type_: MouseEventType,
}

/// The keys a tool can react to. Only Escape means anything to the rectangle
/// tool; every other key is delivered as `Other`.
#[derive(Clone, Copy, Debug, PartialEq, Eq, Structural)]
pub enum Key {
    Escape,
    Other,
}

/// A key event.
#[derive(Clone, Copy, Debug, PartialEq, Eq, Structural)]
pub struct KeyEventMsg {
    pub key: Key,
}

/// Any single event the host can deliver to the tool, as one type, so that
/// properties of whole event sequences can be stated and proved.
#[derive(Clone, Copy, Debug, PartialEq, Eq, Structural)]
pub enum ToolEvent {
    Mouse(MouseEventMsg),
    Key(KeyEventMsg),
    StyleChange(Style),
}

} // verus!
