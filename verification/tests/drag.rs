use rect_clip::common::Point;
use rect_clip::drag_and_drop::{is_point_in_circle, DragAndDrop};

#[test]
fn nothing_is_dragged_initially() {
    let dd = DragAndDrop::new();
    assert_eq!(dd.is_dragging(), None);
}

#[test]
fn hover_then_press_starts_a_drag() {
    let mut dd = DragAndDrop::new();
    dd.set_hovering(Some(2));
    assert_eq!(dd.is_dragging(), None);
    dd.set_mouse_pressed(true);
    assert_eq!(dd.is_dragging(), Some(2));
}

#[test]
fn press_without_hover_drags_nothing() {
    let mut dd = DragAndDrop::new();
    dd.set_mouse_pressed(true);
    assert_eq!(dd.is_dragging(), None);
}

#[test]
fn the_dragged_point_is_locked_until_release() {
    let mut dd = DragAndDrop::new();
    dd.set_hovering(Some(1));
    dd.set_mouse_pressed(true);
    // The cursor slips off the point mid-drag: the lock holds.
    dd.set_hovering(None);
    assert_eq!(dd.is_dragging(), Some(1));
    dd.set_hovering(Some(3));
    assert_eq!(dd.is_dragging(), Some(1));
    // After release, hovering is tracked again.
    dd.set_mouse_pressed(false);
    assert_eq!(dd.is_dragging(), None);
    dd.set_hovering(Some(3));
    dd.set_mouse_pressed(true);
    assert_eq!(dd.is_dragging(), Some(3));
}

#[test]
fn hover_updates_while_the_button_is_up() {
    let mut dd = DragAndDrop::new();
    dd.set_hovering(Some(0));
    dd.set_hovering(Some(4));
    dd.set_mouse_pressed(true);
    assert_eq!(dd.is_dragging(), Some(4));
}

#[test]
fn circle_membership_is_exact() {
    let center = Point::new(0, 0);
    assert!(is_point_in_circle(&Point::new(3, 4), &center, 5));
    assert!(!is_point_in_circle(&Point::new(4, 4), &center, 5));
    assert!(is_point_in_circle(&Point::new(0, 0), &center, 0));
    let off = Point::new(100, -50);
    assert!(is_point_in_circle(&Point::new(103, -54), &off, 5));
    assert!(!is_point_in_circle(&Point::new(106, -50), &off, 5));
}
