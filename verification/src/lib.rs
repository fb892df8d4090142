//! Rectangle-selection line clipping.
//!
//! An axis-aligned selection rectangle is built interactively from mouse
//! events; every candidate line segment is then classified against it as
//! fully inside, fully outside, or partly inside with an exact visible
//! sub-segment (outcode-based clipping with explicit boundary-intersection
//! resolution). Coordinates are integers: all geometry here is exact, and
//! scaling in and out of a pixel space is the caller's concern.

pub mod common;
pub mod coordinate_converter;
pub mod drag_and_drop;
pub mod lines_manager;
pub mod math;
pub mod selection;
