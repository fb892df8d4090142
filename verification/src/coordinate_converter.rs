//! Clamped conversions between the coordinate spaces of a viewport.
//!
//! Three spaces share the viewport: top-left pixel space (origin in the
//! top-left corner, y growing downward), centered pixel space (origin in the
//! viewport center, y growing upward), and centered normalized space, where
//! the half-extent of the viewport maps to [`NORMALIZED_ONE`] fixed-point
//! units. Every conversion first saturates its input into the source space's
//! bounds and then applies the linear map; out-of-range input is never an
//! error.

use vstd::prelude::*;

verus! {

use crate::math::{clamp, clamp_i32, div_trunc, lemma_div_trunc_scale_sym};

/// The fixed-point value that stands for 1.0 in centered normalized space.
pub const NORMALIZED_ONE: i32 = 65536;

/// The rectangle of valid coordinates of one space, as its extreme values
/// on both axes.
pub struct Bounds {
    pub x_right: i32,
    pub x_left: i32,
    pub y_top: i32,
    pub y_bottom: i32,
}

impl Bounds {
    /// Centered pixel space: both axes run over `[-extent/2, extent/2]`.
    pub fn new_centered_p(window_width: u32, window_height: u32) -> (r: Self)
        requires
            window_width <= i32::MAX,
            window_height <= i32::MAX,
        ensures
            r.x_right == window_width as int / 2,
            r.x_left == -(window_width as int / 2),
            r.y_top == window_height as int / 2,
            r.y_bottom == -(window_height as int / 2),
    {
        let half_w = (window_width / 2) as i32;
        let half_h = (window_height / 2) as i32;
        Self { x_right: half_w, x_left: -half_w, y_top: half_h, y_bottom: -half_h }
    }

    /// Centered normalized space: both axes run over `[-1, 1]` in
    /// fixed-point units.
    pub fn new_centered_n() -> (r: Self)
        ensures
            r.x_right == NORMALIZED_ONE,
            r.x_left == -NORMALIZED_ONE,
            r.y_top == NORMALIZED_ONE,
            r.y_bottom == -NORMALIZED_ONE,
    {
        Self {
            x_right: NORMALIZED_ONE,
            x_left: -NORMALIZED_ONE,
            y_top: NORMALIZED_ONE,
            y_bottom: -NORMALIZED_ONE,
        }
    }

    /// Top-left pixel space: x runs over `[0, width]`, y over `[0, height]`.
    pub fn new_top_left_p(window_width: u32, window_height: u32) -> (r: Self)
        requires
            window_width <= i32::MAX,
            window_height <= i32::MAX,
        ensures
            r.x_right == window_width,
            r.x_left == 0,
            r.y_top == window_height,
            r.y_bottom == 0,
    {
        Self {
            x_right: window_width as i32,
            x_left: 0,
            y_top: window_height as i32,
            y_bottom: 0,
        }
    }
}

/// Conversions between the three coordinate spaces of one viewport,
/// captured at construction. Pure functions of immutable state.
pub struct CoordinateConverter {
    pub window_width: u32,
    pub window_height: u32,
    pub centered_pixel_bounds: Bounds,
    pub centered_normalized_bounds: Bounds,
    pub top_left_pixel_bounds: Bounds,
}

impl CoordinateConverter {
    /// Half the viewport width, the x half-extent of centered pixel space.
    pub open spec fn half_w(self) -> int {
        self.window_width as int / 2
    }

    /// Half the viewport height, the y half-extent of centered pixel space.
    pub open spec fn half_h(self) -> int {
        self.window_height as int / 2
    }

    /// A usable viewport (both half-extents positive) with bounds that
    /// agree with its dimensions.
    pub open spec fn wf(self) -> bool {
        &&& 2 <= self.window_width <= i32::MAX
        &&& 2 <= self.window_height <= i32::MAX
        &&& self.centered_pixel_bounds.x_right == self.half_w()
        &&& self.centered_pixel_bounds.x_left == -self.half_w()
        &&& self.centered_pixel_bounds.y_top == self.half_h()
        &&& self.centered_pixel_bounds.y_bottom == -self.half_h()
        &&& self.centered_normalized_bounds.x_right == NORMALIZED_ONE
        &&& self.centered_normalized_bounds.x_left == -NORMALIZED_ONE
        &&& self.centered_normalized_bounds.y_top == NORMALIZED_ONE
        &&& self.centered_normalized_bounds.y_bottom == -NORMALIZED_ONE
        &&& self.top_left_pixel_bounds.x_right == self.window_width
        &&& self.top_left_pixel_bounds.x_left == 0
        &&& self.top_left_pixel_bounds.y_top == self.window_height
        &&& self.top_left_pixel_bounds.y_bottom == 0
    }

    /// Capture a viewport's dimensions. A viewport narrower or shorter than
    /// two pixels has no usable centered space.
    pub fn new(window_width: u32, window_height: u32) -> (r: Self)
        requires
            2 <= window_width <= i32::MAX,
            2 <= window_height <= i32::MAX,
        ensures
            r.wf(),
            r.window_width == window_width,
            r.window_height == window_height,
    {
        Self {
            window_width,
            window_height,
            centered_pixel_bounds: Bounds::new_centered_p(window_width, window_height),
            centered_normalized_bounds: Bounds::new_centered_n(),
            top_left_pixel_bounds: Bounds::new_top_left_p(window_width, window_height),
        }
    }

    fn x_centered_pixel_bounded(&self, x: i32) -> (r: i32)
        requires
            self.wf(),
        ensures
            r == clamp(x as int, -self.half_w(), self.half_w()),
    {
        clamp_i32(x, self.centered_pixel_bounds.x_left, self.centered_pixel_bounds.x_right)
    }

    fn y_centered_pixel_bounded(&self, y: i32) -> (r: i32)
        requires
            self.wf(),
        ensures
            r == clamp(y as int, -self.half_h(), self.half_h()),
    {
        clamp_i32(y, self.centered_pixel_bounds.y_bottom, self.centered_pixel_bounds.y_top)
    }

    fn x_centered_normalized_bounded(&self, x: i32) -> (r: i32)
        requires
            self.wf(),
        ensures
            r == clamp(x as int, -NORMALIZED_ONE as int, NORMALIZED_ONE as int),
    {
        clamp_i32(
            x,
            self.centered_normalized_bounds.x_left,
            self.centered_normalized_bounds.x_right,
        )
    }

    fn y_centered_normalized_bounded(&self, y: i32) -> (r: i32)
        requires
            self.wf(),
        ensures
            r == clamp(y as int, -NORMALIZED_ONE as int, NORMALIZED_ONE as int),
    {
        clamp_i32(
            y,
            self.centered_normalized_bounds.y_bottom,
            self.centered_normalized_bounds.y_top,
        )
    }

    fn x_top_left_pixel_bounded(&self, x: i32) -> (r: i32)
        requires
            self.wf(),
        ensures
            r == clamp(x as int, 0, self.window_width as int),
    {
        clamp_i32(x, self.top_left_pixel_bounds.x_left, self.top_left_pixel_bounds.x_right)
    }

    fn y_top_left_pixel_bounded(&self, y: i32) -> (r: i32)
        requires
            self.wf(),
        ensures
            r == clamp(y as int, 0, self.window_height as int),
    {
        clamp_i32(y, self.top_left_pixel_bounds.y_bottom, self.top_left_pixel_bounds.y_top)
    }

    /// What converting centered normalized x to centered pixel x returns.
    pub open spec fn spec_x_centered_n_to_p(self, x: int) -> int {
        div_trunc(clamp(x, -NORMALIZED_ONE as int, NORMALIZED_ONE as int) * self.half_w(),
            NORMALIZED_ONE as int)
    }

    /// What converting centered normalized y to centered pixel y returns.
    pub open spec fn spec_y_centered_n_to_p(self, y: int) -> int {
        div_trunc(clamp(y, -NORMALIZED_ONE as int, NORMALIZED_ONE as int) * self.half_h(),
            NORMALIZED_ONE as int)
    }

    /// What converting centered pixel x to centered normalized x returns.
    pub open spec fn spec_x_centered_p_to_n(self, x: int) -> int {
        div_trunc(clamp(x, -self.half_w(), self.half_w()) * NORMALIZED_ONE as int, self.half_w())
    }

    /// What converting centered pixel y to centered normalized y returns.
    pub open spec fn spec_y_centered_p_to_n(self, y: int) -> int {
        div_trunc(clamp(y, -self.half_h(), self.half_h()) * NORMALIZED_ONE as int, self.half_h())
    }

    /// What converting top-left pixel x to centered pixel x returns.
    pub open spec fn spec_x_top_left_to_centered_p(self, x: int) -> int {
        clamp(x, 0, self.window_width as int) - self.half_w()
    }

    /// What converting top-left pixel y to centered pixel y returns; the
    /// one axis pair where the direction flips.
    pub open spec fn spec_y_top_left_to_centered_p(self, y: int) -> int {
        self.half_h() - clamp(y, 0, self.window_height as int)
    }

    /// What converting centered pixel x to top-left pixel x returns.
    pub open spec fn spec_x_centered_to_top_left_p(self, x: int) -> int {
        clamp(x, -self.half_w(), self.half_w()) + self.half_w()
    }

    /// What converting centered pixel y to top-left pixel y returns.
    pub open spec fn spec_y_centered_to_top_left_p(self, y: int) -> int {
        self.half_h() - clamp(y, -self.half_h(), self.half_h())
    }

    /// Centered normalized x to centered pixel x: scale by the half-extent.
    pub fn x_centered_n_to_p(&self, x_normalized: i32) -> (r: i32)
        requires
            self.wf(),
        ensures
            r == self.spec_x_centered_n_to_p(x_normalized as int),
            -self.half_w() <= r <= self.half_w(),
    {
        let bounded = self.x_centered_normalized_bounded(x_normalized) as i64;
        let half_w = (self.window_width / 2) as i64;
        proof {
            lemma_div_trunc_scale_sym(bounded as int, NORMALIZED_ONE as int, self.half_w());
        }
        ((bounded * half_w) / (NORMALIZED_ONE as i64)) as i32
    }

    /// Centered normalized y to centered pixel y: scale by the half-extent.
    pub fn y_centered_n_to_p(&self, y_normalized: i32) -> (r: i32)
        requires
            self.wf(),
        ensures
            r == self.spec_y_centered_n_to_p(y_normalized as int),
            -self.half_h() <= r <= self.half_h(),
    {
        let bounded = self.y_centered_normalized_bounded(y_normalized) as i64;
        let half_h = (self.window_height / 2) as i64;
        proof {
            lemma_div_trunc_scale_sym(bounded as int, NORMALIZED_ONE as int, self.half_h());
        }
        ((bounded * half_h) / (NORMALIZED_ONE as i64)) as i32
    }

    /// Centered pixel x to centered normalized x: divide by the half-extent.
    pub fn x_centered_p_to_n(&self, x_pixels: i32) -> (r: i32)
        requires
            self.wf(),
        ensures
            r == self.spec_x_centered_p_to_n(x_pixels as int),
            -NORMALIZED_ONE <= r <= NORMALIZED_ONE,
    {
        let bounded = self.x_centered_pixel_bounded(x_pixels) as i64;
        let half_w = (self.window_width / 2) as i64;
        proof {
            lemma_div_trunc_scale_sym(bounded as int, self.half_w(), NORMALIZED_ONE as int);
        }
        ((bounded * (NORMALIZED_ONE as i64)) / half_w) as i32
    }

    /// Centered pixel y to centered normalized y: divide by the half-extent.
    pub fn y_centered_p_to_n(&self, y_pixels: i32) -> (r: i32)
        requires
            self.wf(),
        ensures
            r == self.spec_y_centered_p_to_n(y_pixels as int),
            -NORMALIZED_ONE <= r <= NORMALIZED_ONE,
    {
        let bounded = self.y_centered_pixel_bounded(y_pixels) as i64;
        let half_h = (self.window_height / 2) as i64;
        proof {
            lemma_div_trunc_scale_sym(bounded as int, self.half_h(), NORMALIZED_ONE as int);
        }
        ((bounded * (NORMALIZED_ONE as i64)) / half_h) as i32
    }

    /// Top-left pixel x to centered pixel x: shift by the half-extent.
    pub fn x_top_left_to_centered_p(&self, x_pixels: i32) -> (r: i32)
        requires
            self.wf(),
        ensures
            r == self.spec_x_top_left_to_centered_p(x_pixels as int),
    {
        let bounded = self.x_top_left_pixel_bounded(x_pixels);
        bounded - (self.window_width / 2) as i32
    }

    /// Top-left pixel y to centered pixel y: shift by the half-extent and
    /// flip the direction, so that the centered y grows upward.
    pub fn y_top_left_to_centered_p(&self, y_pixels: i32) -> (r: i32)
        requires
            self.wf(),
        ensures
            r == self.spec_y_top_left_to_centered_p(y_pixels as int),
    {
        let bounded = self.y_top_left_pixel_bounded(y_pixels);
        (self.window_height / 2) as i32 - bounded
    }

    /// Centered pixel x to top-left pixel x: the inverse shift.
    pub fn x_centered_to_top_left_p(&self, x_pixels: i32) -> (r: i32)
        requires
            self.wf(),
        ensures
            r == self.spec_x_centered_to_top_left_p(x_pixels as int),
    {
        let bounded = self.x_centered_pixel_bounded(x_pixels);
        bounded + (self.window_width / 2) as i32
    }

    /// Centered pixel y to top-left pixel y: the inverse shift and flip.
    pub fn y_centered_to_top_left_p(&self, y_pixels: i32) -> (r: i32)
        requires
            self.wf(),
        ensures
            r == self.spec_y_centered_to_top_left_p(y_pixels as int),
    {
        let bounded = self.y_centered_pixel_bounded(y_pixels);
        (self.window_height / 2) as i32 - bounded
    }
}

/// Law: converting a top-left pixel x through centered space and back is the
/// identity on the clamped range `[0, 2 * (width / 2)]`.
pub proof fn lemma_top_left_round_trip_x(cc: CoordinateConverter, x: int)
    requires
        cc.wf(),
        0 <= x <= 2 * cc.half_w(),
    ensures
        cc.spec_x_centered_to_top_left_p(cc.spec_x_top_left_to_centered_p(x)) == x,
{
}

/// Law: converting a top-left pixel y through centered space and back is the
/// identity on the clamped range `[0, 2 * (height / 2)]`.
pub proof fn lemma_top_left_round_trip_y(cc: CoordinateConverter, y: int)
    requires
        cc.wf(),
        0 <= y <= 2 * cc.half_h(),
    ensures
        cc.spec_y_centered_to_top_left_p(cc.spec_y_top_left_to_centered_p(y)) == y,
{
}

/// Law: converting a centered pixel x to top-left space and back is the
/// identity on the half-extent range.
pub proof fn lemma_centered_round_trip_x(cc: CoordinateConverter, x: int)
    requires
        cc.wf(),
        -cc.half_w() <= x <= cc.half_w(),
    ensures
        cc.spec_x_top_left_to_centered_p(cc.spec_x_centered_to_top_left_p(x)) == x,
{
}

/// Law: converting a centered pixel y to top-left space and back is the
/// identity on the half-extent range.
pub proof fn lemma_centered_round_trip_y(cc: CoordinateConverter, y: int)
    requires
        cc.wf(),
        -cc.half_h() <= y <= cc.half_h(),
    ensures
        cc.spec_y_top_left_to_centered_p(cc.spec_y_centered_to_top_left_p(y)) == y,
{
}

/// Law: out-of-range input saturates. Converting any top-left pixel x beyond
/// the right viewport edge equals converting the edge itself, and likewise
/// below zero on the left.
pub proof fn lemma_top_left_clamps_x(cc: CoordinateConverter, x: int)
    requires
        cc.wf(),
    ensures
        x > cc.window_width ==> cc.spec_x_top_left_to_centered_p(x)
            == cc.spec_x_top_left_to_centered_p(cc.window_width as int),
        x < 0 ==> cc.spec_x_top_left_to_centered_p(x) == cc.spec_x_top_left_to_centered_p(0),
{
}

/// Law: out-of-range input saturates on the y axis as well.
pub proof fn lemma_top_left_clamps_y(cc: CoordinateConverter, y: int)
    requires
        cc.wf(),
    ensures
        y > cc.window_height ==> cc.spec_y_top_left_to_centered_p(y)
            == cc.spec_y_top_left_to_centered_p(cc.window_height as int),
        y < 0 ==> cc.spec_y_top_left_to_centered_p(y) == cc.spec_y_top_left_to_centered_p(0),
{
}

} // verus!
