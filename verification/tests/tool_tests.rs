use rectangle_tool::math::Vec2D;
use rectangle_tool::rectangle::RectangleTool;
use rectangle_tool::sketch_board::{Key, KeyEventMsg, MouseEventMsg, MouseEventType};
use rectangle_tool::style::{Color, Size, Style};
use rectangle_tool::tools::ToolUpdateResult;

fn pos(x: f64, y: f64) -> Vec2D {
    Vec2D { x: x.to_bits(), y: y.to_bits() }
}

fn mouse(x: f64, y: f64, type_: MouseEventType) -> MouseEventMsg {
    MouseEventMsg { pos: pos(x, y), type_ }
}

fn escape() -> KeyEventMsg {
    KeyEventMsg { key: Key::Escape }
}

#[test]
fn idle_tool_ignores_everything_but_begin_drag() {
    let mut tool = RectangleTool::default();
    let events = [
        mouse(3.0, 4.0, MouseEventType::UpdateDrag),
        mouse(3.0, 4.0, MouseEventType::EndDrag),
        mouse(0.0, 0.0, MouseEventType::EndDrag),
        mouse(3.0, 4.0, MouseEventType::Click),
    ];
    for event in events {
        assert_eq!(tool.handle_mouse_event(event), ToolUpdateResult::Unmodified);
        assert!(tool.get_drawable().is_none());
    }
    assert_eq!(tool.handle_key_event(escape()), ToolUpdateResult::Unmodified);
    assert_eq!(
        tool.handle_key_event(KeyEventMsg { key: Key::Other }),
        ToolUpdateResult::Unmodified
    );
    assert!(tool.get_drawable().is_none());
}

#[test]
fn idle_style_change_is_unmodified_but_changes_style() {
    let mut tool = RectangleTool::default();
    let blue = Style { color: Color::new(0, 0, 255, 255), size: Size::Large };
    assert_eq!(tool.handle_style_event(blue), ToolUpdateResult::Unmodified);
    assert!(tool.get_drawable().is_none());
    assert_eq!(tool.style, blue);
}

#[test]
fn begin_drag_starts_dragging_and_redraws() {
    let mut tool = RectangleTool::default();
    let result = tool.handle_mouse_event(mouse(5.0, 6.0, MouseEventType::BeginDrag));
    assert_eq!(result, ToolUpdateResult::Redraw);
    let shape = tool.get_drawable().expect("a drag should be in progress");
    assert_eq!(shape.top_left, pos(5.0, 6.0));
    assert_eq!(shape.size, None);
    assert_eq!(shape.style, Style::default());
}

#[test]
fn begin_drag_while_dragging_overwrites_with_fresh_shape() {
    let mut tool = RectangleTool::default();
    tool.handle_mouse_event(mouse(5.0, 6.0, MouseEventType::BeginDrag));
    tool.handle_mouse_event(mouse(9.0, 9.0, MouseEventType::UpdateDrag));
    let result = tool.handle_mouse_event(mouse(7.0, 8.0, MouseEventType::BeginDrag));
    assert_eq!(result, ToolUpdateResult::Redraw);
    let shape = tool.get_drawable().expect("a drag should be in progress");
    assert_eq!(shape.top_left, pos(7.0, 8.0));
    assert_eq!(shape.size, None, "no carry-over of the prior size");
}

#[test]
fn update_drag_at_zero_sentinel_is_ignored() {
    let mut tool = RectangleTool::default();
    tool.handle_mouse_event(mouse(5.0, 6.0, MouseEventType::BeginDrag));
    tool.handle_mouse_event(mouse(9.0, 9.0, MouseEventType::UpdateDrag));
    let result = tool.handle_mouse_event(mouse(0.0, 0.0, MouseEventType::UpdateDrag));
    assert_eq!(result, ToolUpdateResult::Unmodified);
    let shape = tool.get_drawable().expect("a drag should be in progress");
    assert_eq!(shape.size, Some(pos(9.0, 9.0)), "the shape is untouched");
}

#[test]
fn update_drag_at_negative_zero_is_ignored_too() {
    let mut tool = RectangleTool::default();
    tool.handle_mouse_event(mouse(5.0, 6.0, MouseEventType::BeginDrag));
    let result = tool.handle_mouse_event(mouse(-0.0, 0.0, MouseEventType::UpdateDrag));
    assert_eq!(result, ToolUpdateResult::Unmodified);
    let shape = tool.get_drawable().expect("a drag should be in progress");
    assert_eq!(shape.size, None);
}

#[test]
fn consecutive_updates_are_last_write_wins() {
    let mut tool = RectangleTool::default();
    tool.handle_mouse_event(mouse(1.0, 1.0, MouseEventType::BeginDrag));
    let positions = [(2.0, 3.0), (4.0, 5.0), (6.0, 7.0), (8.0, 9.0)];
    for (x, y) in positions {
        let result = tool.handle_mouse_event(mouse(x, y, MouseEventType::UpdateDrag));
        assert_eq!(result, ToolUpdateResult::Redraw);
    }
    let shape = tool.get_drawable().expect("a drag should be in progress");
    assert_eq!(shape.top_left, pos(1.0, 1.0));
    assert_eq!(shape.size, Some(pos(8.0, 9.0)));
}

#[test]
fn end_drag_at_zero_sentinel_discards_the_gesture() {
    let mut tool = RectangleTool::default();
    tool.handle_mouse_event(mouse(5.0, 6.0, MouseEventType::BeginDrag));
    tool.handle_mouse_event(mouse(9.0, 9.0, MouseEventType::UpdateDrag));
    let result = tool.handle_mouse_event(mouse(0.0, 0.0, MouseEventType::EndDrag));
    assert_eq!(result, ToolUpdateResult::Redraw, "discarded, not committed");
    assert!(tool.get_drawable().is_none());
}

#[test]
fn end_drag_commits_with_the_style_frozen_at_begin_time() {
    let mut tool = RectangleTool::default();
    let red = Style { color: Color::new(255, 0, 0, 255), size: Size::Small };
    let blue = Style { color: Color::new(0, 0, 255, 128), size: Size::Large };
    tool.handle_style_event(red);
    tool.handle_mouse_event(mouse(5.0, 6.0, MouseEventType::BeginDrag));
    tool.handle_style_event(blue);
    let result = tool.handle_mouse_event(mouse(11.0, 12.0, MouseEventType::EndDrag));
    match result {
        ToolUpdateResult::Commit(shape) => {
            assert_eq!(shape.top_left, pos(5.0, 6.0));
            assert_eq!(shape.size, Some(pos(11.0, 12.0)));
            assert_eq!(shape.style, red, "later style changes do not bleed in");
        }
        other => panic!("expected a commit, got {:?}", other),
    }
    assert!(tool.get_drawable().is_none());
    assert_eq!(tool.style, blue, "the active style itself did change");
}

#[test]
fn escape_cancels_a_drag_and_is_idempotent() {
    let mut tool = RectangleTool::default();
    tool.handle_mouse_event(mouse(5.0, 6.0, MouseEventType::BeginDrag));
    assert_eq!(tool.handle_key_event(escape()), ToolUpdateResult::Redraw);
    assert!(tool.get_drawable().is_none());
    assert_eq!(tool.handle_key_event(escape()), ToolUpdateResult::Unmodified);
    assert_eq!(tool.handle_key_event(escape()), ToolUpdateResult::Unmodified);
    assert!(tool.get_drawable().is_none());
}

#[test]
fn other_keys_do_nothing_while_dragging() {
    let mut tool = RectangleTool::default();
    tool.handle_mouse_event(mouse(5.0, 6.0, MouseEventType::BeginDrag));
    let result = tool.handle_key_event(KeyEventMsg { key: Key::Other });
    assert_eq!(result, ToolUpdateResult::Unmodified);
    assert!(tool.get_drawable().is_some());
}

#[test]
fn full_gesture_end_to_end() {
    let mut tool = RectangleTool::default();
    let begin = tool.handle_mouse_event(mouse(10.0, 10.0, MouseEventType::BeginDrag));
    assert_eq!(begin, ToolUpdateResult::Redraw);
    let update = tool.handle_mouse_event(mouse(40.0, 25.0, MouseEventType::UpdateDrag));
    assert_eq!(update, ToolUpdateResult::Redraw);
    let end = tool.handle_mouse_event(mouse(40.0, 25.0, MouseEventType::EndDrag));
    match end {
        ToolUpdateResult::Commit(shape) => {
            assert_eq!(shape.top_left, pos(10.0, 10.0));
            assert_eq!(shape.size, Some(pos(40.0, 25.0)));
        }
        other => panic!("expected a commit, got {:?}", other),
    }
    assert!(tool.get_drawable().is_none());
    let again = tool.handle_mouse_event(mouse(1.0, 2.0, MouseEventType::BeginDrag));
    assert_eq!(again, ToolUpdateResult::Redraw);
    assert!(tool.get_drawable().is_some());
}

#[test]
fn default_tool_is_idle_with_the_default_style() {
    let tool = RectangleTool::default();
    assert!(tool.get_drawable().is_none());
    assert_eq!(tool.style, Style::default());
}
