//! Shared value types: points, segments, clipping outcomes, colors.

use vstd::prelude::*;

verus! {

/// A 2-D coordinate in the centered selection space (y increases upward).
/// Equality is component-wise and exact.
#[derive(Clone, Copy, PartialEq, Eq, Structural, Debug)]
pub struct Point {
    pub x: i32,
    pub y: i32,
}

impl Point {
    pub fn new(x: i32, y: i32) -> (p: Point)
        ensures
            p.x == x,
            p.y == y,
    {
        Point { x, y }
    }
}

/// An ordered pair of endpoints. Direction matters only for parametrization,
/// never for classification.
pub type Line = (Point, Point);

/// How a segment relates to a selection rectangle.
#[derive(Clone, Copy, PartialEq, Eq, Debug)]
pub enum LineClipping {
    Inside,
    Outside,
    PartlyInside(Line),
}

/// An RGB color; the renderer decides how to interpret the channels.
#[derive(Clone, Copy, PartialEq, Eq, Structural, Debug)]
pub struct Color {
    pub r: u8,
    pub g: u8,
    pub b: u8,
}

/// Draw colors for every clipping outcome plus the selection outline.
#[derive(Clone, Copy, PartialEq, Eq, Structural, Debug)]
pub struct ColorConfig {
    /// The selection rectangle's own outline.
    pub selection_outline: Color,
    /// A segment fully inside the selection.
    pub inside: Color,
    /// A segment fully outside the selection.
    pub outside: Color,
    /// The visible sub-segment of a partly covered segment.
    pub partial: Color,
}

/// A mouse-button state change.
#[derive(Clone, Copy, PartialEq, Eq, Structural, Debug)]
pub enum ButtonAction {
    Press,
    Release,
}

} // verus!
