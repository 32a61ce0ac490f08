//! The rectangle shape and the drag-gesture state machine that builds it.
//!
//! A `Rectangle` is an anchor, an optional displacement and a frozen style;
//! rendering it is planned as a sequence of drawing commands. A
//! `RectangleTool` owns at most one in-progress rectangle and the active
//! style, consumes pointer, key and style events, and reports after each
//! event whether nothing changed, the preview must be redrawn, or a finished
//! shape is committed. Every transition is a total function of the current
//! state and the event; the transition table lives in the spec functions
//! below, and the handlers are proved to follow it exactly.

use vstd::prelude::*;
use crate::math::Vec2D;
use crate::sketch_board::{Key, KeyEventMsg, MouseEventMsg, MouseEventType, ToolEvent};
use crate::style::Style;
use crate::tools::{DrawOp, ToolUpdateResult};

verus! {

/// An axis-aligned rectangle: the corner where the drag started, the
/// displacement to the opposite corner (`None` until the first drag update),
/// and the style copied from the tool when the drag began.
#[derive(Clone, Copy, Debug, PartialEq)]
pub struct Rectangle {
    pub top_left: Vec2D,
    pub size: Option<Vec2D>,
    pub style: Style,
}

impl Rectangle {
    /// The commands that render this rectangle. A placeholder without a size
    /// renders as nothing; otherwise the plan saves the context state, sets
    /// the stroke width and color from the frozen style, builds one rectangle
    /// path at the anchor with the stored displacement, strokes it, and
    /// restores the context state.
    pub open spec fn spec_draw_commands(self) -> Seq<DrawOp> {
        match self.size {
            None => Seq::<DrawOp>::empty(),
            Some(size) => seq![
                DrawOp::Save,
                DrawOp::SetLineWidth(self.style.size),
                DrawOp::SetSourceColor(self.style.color),
                DrawOp::RectPath { top_left: self.top_left, size: size },
                DrawOp::Stroke,
                DrawOp::Restore,
            ],
        }
    }

    /// Plans the rendering of this rectangle. The host replays the returned
    /// commands, in order, on its drawing context; an empty plan means the
    /// shape draws nothing at all.
    pub fn draw_commands(&self) -> (ops: Vec<DrawOp>)
        ensures
            ops@ == self.spec_draw_commands(),
    {
        let mut ops: Vec<DrawOp> = Vec::new();
        let size = match self.size {
            Some(size) => size,
            None => {
                return ops;
            },
        };
        ops.push(DrawOp::Save);
        ops.push(DrawOp::SetLineWidth(self.style.size));
        ops.push(DrawOp::SetSourceColor(self.style.color));
        ops.push(DrawOp::RectPath { top_left: self.top_left, size: size });
        ops.push(DrawOp::Stroke);
        ops.push(DrawOp::Restore);
        proof {
            assert(ops@ =~= self.spec_draw_commands());
        }
        ops
    }
}

/// The drag-gesture state machine. `rectangle` is the in-progress preview
/// shape: `None` means the tool is idle, `Some` means a drag is under way.
/// `style` is the currently active style, copied into each new shape.
pub struct RectangleTool {
    pub rectangle: Option<Rectangle>,
    pub style: Style,
}

impl RectangleTool {
    /// True when a drag gesture is under way.
    pub open spec fn dragging(self) -> bool {
        self.rectangle is Some
    }

    /// The transition for a pointer event: the state after the event and the
    /// outcome reported to the host.
    ///
    /// - `BeginDrag` starts a fresh shape at the event position, sized `None`,
    ///   with the active style; an in-progress shape is simply overwritten.
    /// - `UpdateDrag` while dragging sets the shape's size to the event
    ///   position, except that the zero sentinel means "no meaningful
    ///   position yet" and leaves everything untouched.
    /// - `EndDrag` while dragging ends the gesture: the zero sentinel
    ///   discards the shape, any other position commits the shape with its
    ///   size fixed to that position.
    /// - Everything else, including drag events while idle, changes nothing.
    pub open spec fn spec_handle_mouse(self, event: MouseEventMsg) -> (RectangleTool, ToolUpdateResult) {
        match event.type_ {
            MouseEventType::BeginDrag => (
                RectangleTool {
                    rectangle: Some(
                        Rectangle { top_left: event.pos, size: None, style: self.style },
                    ),
                    style: self.style,
                },
                ToolUpdateResult::Redraw,
            ),
            MouseEventType::EndDrag => match self.rectangle {
                Some(rect) => if event.pos.is_zero() {
                    (RectangleTool { rectangle: None, style: self.style }, ToolUpdateResult::Redraw)
                } else {
                    (
                        RectangleTool { rectangle: None, style: self.style },
                        ToolUpdateResult::Commit(
                            Rectangle { size: Some(event.pos), ..rect },
                        ),
                    )
                },
                None => (self, ToolUpdateResult::Unmodified),
            },
            MouseEventType::UpdateDrag => match self.rectangle {
                Some(rect) => if event.pos.is_zero() {
                    (self, ToolUpdateResult::Unmodified)
                } else {
                    (
                        RectangleTool {
                            rectangle: Some(Rectangle { size: Some(event.pos), ..rect }),
                            style: self.style,
                        },
                        ToolUpdateResult::Redraw,
                    )
                },
                None => (self, ToolUpdateResult::Unmodified),
            },
            MouseEventType::Click => (self, ToolUpdateResult::Unmodified),
        }
    }

    /// The transition for a key event: Escape while dragging discards the
    /// preview shape; every other combination changes nothing.
    pub open spec fn spec_handle_key(self, event: KeyEventMsg) -> (RectangleTool, ToolUpdateResult) {
        if event.key is Escape && self.rectangle is Some {
            (RectangleTool { rectangle: None, style: self.style }, ToolUpdateResult::Redraw)
        } else {
            (self, ToolUpdateResult::Unmodified)
        }
    }

    /// The transition for a style change: the active style is replaced, an
    /// in-progress shape keeps the style it was created with, and the host
    /// need not redraw.
    pub open spec fn spec_handle_style(self, style: Style) -> (RectangleTool, ToolUpdateResult) {
        (RectangleTool { rectangle: self.rectangle, style: style }, ToolUpdateResult::Unmodified)
    }

    /// One step of the machine on any event the host can deliver.
    pub open spec fn spec_step(self, event: ToolEvent) -> (RectangleTool, ToolUpdateResult) {
        match event {
            ToolEvent::Mouse(m) => self.spec_handle_mouse(m),
            ToolEvent::Key(k) => self.spec_handle_key(k),
            ToolEvent::StyleChange(s) => self.spec_handle_style(s),
        }
    }

    /// The state after a whole sequence of events, first event first.
    pub open spec fn spec_run(self, events: Seq<ToolEvent>) -> RectangleTool
        decreases events.len(),
    {
        if events.len() == 0 {
            self
        } else {
            self.spec_step(events[0]).0.spec_run(events.drop_first())
        }
    }

    /// The outcome reported for each event of a sequence, in order.
    pub open spec fn spec_outcomes(self, events: Seq<ToolEvent>) -> Seq<ToolUpdateResult>
        decreases events.len(),
    {
        if events.len() == 0 {
            Seq::<ToolUpdateResult>::empty()
        } else {
            seq![self.spec_step(events[0]).1] + self.spec_step(events[0]).0.spec_outcomes(
                events.drop_first(),
            )
        }
    }

    /// Handles one pointer event, exactly as the transition table
    /// `spec_handle_mouse` says.
    pub fn handle_mouse_event(&mut self, event: MouseEventMsg) -> (result: ToolUpdateResult)
        ensures
            (*final(self), result) == old(self).spec_handle_mouse(event),
    {
        match event.type_ {
            MouseEventType::BeginDrag => {
                self.rectangle = Some(
                    Rectangle { top_left: event.pos, size: None, style: self.style },
                );
                ToolUpdateResult::Redraw
            },
            MouseEventType::EndDrag => {
                match self.rectangle {
                    Some(rect) => {
                        if event.pos.is_zero() {
                            self.rectangle = None;
                            ToolUpdateResult::Redraw
                        } else {
                            let finished = Rectangle { size: Some(event.pos), ..rect };
                            self.rectangle = None;
                            ToolUpdateResult::Commit(finished)
                        }
                    },
                    None => ToolUpdateResult::Unmodified,
                }
            },
            MouseEventType::UpdateDrag => {
                match self.rectangle {
                    Some(rect) => {
                        if event.pos.is_zero() {
                            ToolUpdateResult::Unmodified
                        } else {
                            self.rectangle = Some(Rectangle { size: Some(event.pos), ..rect });
                            ToolUpdateResult::Redraw
                        }
                    },
                    None => ToolUpdateResult::Unmodified,
                }
            },
            MouseEventType::Click => ToolUpdateResult::Unmodified,
        }
    }

    /// Handles one key event, exactly as `spec_handle_key` says.
    pub fn handle_key_event(&mut self, event: KeyEventMsg) -> (result: ToolUpdateResult)
        ensures
            (*final(self), result) == old(self).spec_handle_key(event),
    {
        match event.key {
            Key::Escape => {
                match self.rectangle {
                    Some(_) => {
                        self.rectangle = None;
                        ToolUpdateResult::Redraw
                    },
                    None => ToolUpdateResult::Unmodified,
                }
            },
            Key::Other => ToolUpdateResult::Unmodified,
        }
    }

    /// Replaces the active style, exactly as `spec_handle_style` says.
    pub fn handle_style_event(&mut self, style: Style) -> (result: ToolUpdateResult)
        ensures
            (*final(self), result) == old(self).spec_handle_style(style),
    {
        self.style = style;
        ToolUpdateResult::Unmodified
    }

    /// A read-only view of the in-progress shape, for the host's live
    /// preview overlay: the shape while dragging, nothing while idle.
    pub fn get_drawable(&self) -> (drawable: Option<&Rectangle>)
        ensures
            match drawable {
                Some(rect) => self.rectangle == Some(*rect),
                None => self.rectangle is None,
            },
    {
        match &self.rectangle {
            Some(rect) => Some(rect),
            None => None,
        }
    }
}

/// True of an event that starts a drag gesture.
pub open spec fn is_begin_drag(event: ToolEvent) -> bool {
    event matches ToolEvent::Mouse(m) && m.type_ is BeginDrag
}

/// True of an event that neither starts nor ends nor cancels a drag gesture:
/// drag updates, plain clicks, keys other than Escape, and style changes.
pub open spec fn is_mid_gesture_event(event: ToolEvent) -> bool {
    match event {
        ToolEvent::Mouse(m) => m.type_ is UpdateDrag || m.type_ is Click,
        ToolEvent::Key(k) => k.key is Other,
        ToolEvent::StyleChange(_) => true,
    }
}

/// The event sequence of consecutive drag updates through the given positions.
pub open spec fn update_events(positions: Seq<Vec2D>) -> Seq<ToolEvent> {
    positions.map_values(
        |p: Vec2D| ToolEvent::Mouse(MouseEventMsg { pos: p, type_: MouseEventType::UpdateDrag }),
    )
}

/// As long as no event starts a drag, an idle tool stays idle and reports
/// `Unmodified` for every single event, style changes included.
pub proof fn lemma_idle_without_begin_drag(tool: RectangleTool, events: Seq<ToolEvent>)
    requires
        !tool.dragging(),
        forall|i: int| 0 <= i < events.len() ==> !is_begin_drag(#[trigger] events[i]),
    ensures
        !tool.spec_run(events).dragging(),
        tool.spec_outcomes(events).len() == events.len(),
        forall|i: int|
            0 <= i < events.len() ==> #[trigger] tool.spec_outcomes(events)[i]
                == ToolUpdateResult::Unmodified,
    decreases events.len(),
{
    if events.len() > 0 {
        let (next, outcome) = tool.spec_step(events[0]);
        assert(!is_begin_drag(events[0]));
        assert(!next.dragging() && outcome == ToolUpdateResult::Unmodified);
        let tail = events.drop_first();
        assert(forall|i: int| 0 <= i < tail.len() ==> !is_begin_drag(#[trigger] tail[i])) by {
            assert(forall|i: int| 0 <= i < tail.len() ==> #[trigger] tail[i] == events[i + 1]);
        }
        lemma_idle_without_begin_drag(next, tail);
    }
}

/// Starting a drag always succeeds, from any state: the tool holds a fresh
/// shape anchored at the event position, not yet sized, in the currently
/// active style — nothing carries over from a shape that was in progress —
/// and the host is told to redraw.
pub proof fn lemma_begin_drag_starts_fresh(tool: RectangleTool, pos: Vec2D)
    ensures
        ({
            let (after, outcome) = tool.spec_handle_mouse(
                MouseEventMsg { pos: pos, type_: MouseEventType::BeginDrag },
            );
            &&& after.dragging()
            &&& after.rectangle == Some((Rectangle { top_left: pos, size: None, style: tool.style }))
            &&& after.style == tool.style
            &&& outcome == ToolUpdateResult::Redraw
        }),
{
}

/// A drag update at the zero sentinel is ignored entirely: the tool, its
/// in-progress shape included, is exactly what it was, and the host is told
/// nothing changed.
pub proof fn lemma_update_drag_zero_is_ignored(tool: RectangleTool, event: MouseEventMsg)
    requires
        tool.dragging(),
        event.type_ is UpdateDrag,
        event.pos.is_zero(),
    ensures
        tool.spec_handle_mouse(event) == (tool, ToolUpdateResult::Unmodified),
{
}

/// Consecutive non-zero drag updates are last-write-wins: after the whole
/// run the tool is still dragging, the shape's size is exactly the last
/// position, its anchor and frozen style are untouched, and every update was
/// answered with `Redraw`.
pub proof fn lemma_update_drag_last_write_wins(tool: RectangleTool, positions: Seq<Vec2D>)
    requires
        tool.dragging(),
        positions.len() > 0,
        forall|i: int| 0 <= i < positions.len() ==> !(#[trigger] positions[i]).is_zero(),
    ensures
        ({
            let after = tool.spec_run(update_events(positions));
            &&& after.dragging()
            &&& after.rectangle->0.size == Some(positions.last())
            &&& after.rectangle->0.top_left == tool.rectangle->0.top_left
            &&& after.rectangle->0.style == tool.rectangle->0.style
            &&& after.style == tool.style
        }),
        tool.spec_outcomes(update_events(positions)).len() == positions.len(),
        forall|i: int|
            0 <= i < positions.len() ==> #[trigger] tool.spec_outcomes(update_events(positions))[i]
                == ToolUpdateResult::Redraw,
    decreases positions.len(),
{
    let events = update_events(positions);
    assert(events[0] == ToolEvent::Mouse(
        MouseEventMsg { pos: positions[0], type_: MouseEventType::UpdateDrag },
    ));
    let (next, outcome) = tool.spec_step(events[0]);
    assert(next.dragging() && outcome == ToolUpdateResult::Redraw);
    if positions.len() == 1 {
        assert(events.drop_first().len() == 0);
        assert(next.spec_run(events.drop_first()) == next);
        assert(next.spec_outcomes(events.drop_first()) =~= Seq::<ToolUpdateResult>::empty());
        assert(tool.spec_run(events) == next);
        assert(tool.spec_outcomes(events) =~= seq![outcome]);
    } else {
        let tail = positions.drop_first();
        assert(events.drop_first() =~= update_events(tail));
        assert(forall|i: int| 0 <= i < tail.len() ==> !(#[trigger] tail[i]).is_zero()) by {
            assert(forall|i: int| 0 <= i < tail.len() ==> #[trigger] tail[i] == positions[i + 1]);
        }
        lemma_update_drag_last_write_wins(next, tail);
        assert(tail.last() == positions.last());
    }
}

/// Ending a drag at the zero sentinel produces nothing: the shape is
/// discarded, the tool is idle, and the host is told to redraw — not to
/// commit.
pub proof fn lemma_end_drag_zero_discards(tool: RectangleTool, event: MouseEventMsg)
    requires
        tool.dragging(),
        event.type_ is EndDrag,
        event.pos.is_zero(),
    ensures
        ({
            let (after, outcome) = tool.spec_handle_mouse(event);
            &&& !after.dragging()
            &&& after.style == tool.style
            &&& outcome == ToolUpdateResult::Redraw
        }),
{
}

/// Ending a drag anywhere but the zero sentinel commits: the committed shape
/// keeps the in-progress shape's anchor and frozen style and is sized by the
/// end position, and the tool is idle afterwards.
pub proof fn lemma_end_drag_commits(tool: RectangleTool, event: MouseEventMsg)
    requires
        tool.dragging(),
        event.type_ is EndDrag,
        !event.pos.is_zero(),
    ensures
        ({
            let (after, outcome) = tool.spec_handle_mouse(event);
            &&& !after.dragging()
            &&& after.style == tool.style
            &&& outcome == ToolUpdateResult::Commit(
                (Rectangle {
                    top_left: tool.rectangle->0.top_left,
                    size: Some(event.pos),
                    style: tool.rectangle->0.style,
                }),
            )
        }),
{
}

/// While a drag is under way, drag updates, clicks, other keys and style
/// changes keep the gesture alive and never touch the shape's anchor or its
/// frozen style.
pub proof fn lemma_mid_gesture_keeps_anchor_and_style(tool: RectangleTool, events: Seq<ToolEvent>)
    requires
        tool.dragging(),
        forall|i: int| 0 <= i < events.len() ==> is_mid_gesture_event(#[trigger] events[i]),
    ensures
        ({
            let after = tool.spec_run(events);
            &&& after.dragging()
            &&& after.rectangle->0.top_left == tool.rectangle->0.top_left
            &&& after.rectangle->0.style == tool.rectangle->0.style
        }),
    decreases events.len(),
{
    if events.len() > 0 {
        let (next, _) = tool.spec_step(events[0]);
        assert(is_mid_gesture_event(events[0]));
        assert(next.dragging());
        let tail = events.drop_first();
        assert(forall|i: int| 0 <= i < tail.len() ==> is_mid_gesture_event(#[trigger] tail[i])) by {
            assert(forall|i: int| 0 <= i < tail.len() ==> #[trigger] tail[i] == events[i + 1]);
        }
        lemma_mid_gesture_keeps_anchor_and_style(next, tail);
    }
}

/// A whole gesture, end to end: after BeginDrag at one position, any run of
/// drag updates, clicks, other keys and style changes, and a non-zero
/// EndDrag, the committed shape is anchored at the BeginDrag position, sized
/// by the EndDrag position, and styled with the style that was active when
/// the drag began — later style changes notwithstanding — and the tool is
/// idle again.
pub proof fn lemma_gesture_commits_begin_state(
    tool: RectangleTool,
    begin_pos: Vec2D,
    mid: Seq<ToolEvent>,
    end_pos: Vec2D,
)
    requires
        forall|i: int| 0 <= i < mid.len() ==> is_mid_gesture_event(#[trigger] mid[i]),
        !end_pos.is_zero(),
    ensures
        ({
            let started = tool.spec_handle_mouse(
                MouseEventMsg { pos: begin_pos, type_: MouseEventType::BeginDrag },
            ).0;
            let dragged = started.spec_run(mid);
            let (after, outcome) = dragged.spec_handle_mouse(
                MouseEventMsg { pos: end_pos, type_: MouseEventType::EndDrag },
            );
            &&& outcome == ToolUpdateResult::Commit(
                (Rectangle { top_left: begin_pos, size: Some(end_pos), style: tool.style }),
            )
            &&& !after.dragging()
        }),
{
    let started = tool.spec_handle_mouse(
        MouseEventMsg { pos: begin_pos, type_: MouseEventType::BeginDrag },
    ).0;
    lemma_mid_gesture_keeps_anchor_and_style(started, mid);
    let dragged = started.spec_run(mid);
    lemma_end_drag_commits(
        dragged,
        MouseEventMsg { pos: end_pos, type_: MouseEventType::EndDrag },
    );
}

/// Escape cancels whatever drag is under way and does nothing when idle; a
/// second Escape right after a first is always a no-op, so repeating it is
/// idempotent.
pub proof fn lemma_escape(tool: RectangleTool, event: KeyEventMsg)
    requires
        event.key is Escape,
    ensures
        ({
            let (after, outcome) = tool.spec_handle_key(event);
            &&& !after.dragging()
            &&& after.style == tool.style
            &&& tool.dragging() ==> outcome == ToolUpdateResult::Redraw
            &&& !tool.dragging() ==> after == tool && outcome == ToolUpdateResult::Unmodified
            &&& after.spec_handle_key(event) == (after, ToolUpdateResult::Unmodified)
        }),
{
}

impl Default for RectangleTool {
    /// A fresh tool: idle, with the default style active.
    fn default() -> (tool: Self)
        ensures
            !tool.dragging(),
            tool.rectangle is None,
            tool.style == Style::spec_default(),
    {
        RectangleTool { rectangle: None, style: Style::default() }
    }
}

} // verus!
