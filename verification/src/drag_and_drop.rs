//! Drag-and-drop bookkeeping for a set of control points: which point the
//! cursor hovers over, whether the button is down, and which point is being
//! dragged.

use vstd::prelude::*;

verus! {

use crate::common::Point;
use crate::math::lemma_mul_bound;

/// Tracks hovering and button state across frames. A point index locked by
/// hovering stays locked while the button is held, so a fast drag cannot
/// lose its point.
pub struct DragAndDrop {
    pub is_hovering: bool,
    pub mouse_pressed: bool,
    pub control_point_index: Option<u32>,
}

impl DragAndDrop {
    /// The idle state: nothing hovered, button up, no point selected.
    pub fn new() -> (r: Self)
        ensures
            !r.is_hovering,
            !r.mouse_pressed,
            r.control_point_index is None,
    {
        DragAndDrop { is_hovering: false, mouse_pressed: false, control_point_index: None }
    }

    /// Record what the cursor hovers over this frame. Ignored while a drag
    /// is in progress (hovering with the button down), so the dragged point
    /// cannot change mid-drag.
    pub fn set_hovering(&mut self, point_index: Option<u32>)
        ensures
            old(self).is_hovering && old(self).mouse_pressed ==> *final(self) == *old(self),
            !(old(self).is_hovering && old(self).mouse_pressed) ==> final(self).is_hovering == (
            point_index is Some) && final(self).control_point_index == point_index,
            final(self).mouse_pressed == old(self).mouse_pressed,
    {
        if self.is_hovering && self.mouse_pressed {
            return ;
        }
        if let Some(point_index) = point_index {
            self.is_hovering = true;
            self.control_point_index = Some(point_index);
        } else {
            self.is_hovering = false;
            self.control_point_index = None;
        }
    }

    /// Record the button state.
    pub fn set_mouse_pressed(&mut self, mouse_pressed: bool)
        ensures
            final(self).mouse_pressed == mouse_pressed,
            final(self).is_hovering == old(self).is_hovering,
            final(self).control_point_index == old(self).control_point_index,
    {
        self.mouse_pressed = mouse_pressed;
    }

    /// The index of the point being dragged: the locked hover point while
    /// the button is down, nothing otherwise.
    pub fn is_dragging(&self) -> (r: Option<u32>)
        ensures
            r == (if self.mouse_pressed {
                self.control_point_index
            } else {
                None::<u32>
            }),
    {
        if self.mouse_pressed {
            self.control_point_index
        } else {
            None
        }
    }
}

/// Whether `point` lies within (or on) the circle around `circle_center`
/// with the given radius, by exact squared distances.
pub fn is_point_in_circle(point: &Point, circle_center: &Point, radius: i32) -> (r: bool)
    ensures
        r == ((point.x - circle_center.x) * (point.x - circle_center.x) + (point.y
            - circle_center.y) * (point.y - circle_center.y) <= radius * radius),
{
    let x = (point.x as i128) - (circle_center.x as i128);
    let y = (point.y as i128) - (circle_center.y as i128);
    let r128 = radius as i128;
    proof {
        lemma_mul_bound(x as int, x as int, 0x1_0000_0000, 0x1_0000_0000);
        lemma_mul_bound(y as int, y as int, 0x1_0000_0000, 0x1_0000_0000);
        lemma_mul_bound(r128 as int, r128 as int, 0x1_0000_0000, 0x1_0000_0000);
    }
    x * x + y * y <= r128 * r128
}

} // verus!
