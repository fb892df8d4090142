//! The rectangle selection and its clipping engine.
//!
//! A selection is built from two opposite corner points, normalized into a
//! clockwise corner array plus four border coordinates. Segments are
//! classified against it by outcodes first (trivial accept and reject) and by
//! exact boundary-intersection resolution where outcodes alone cannot decide.

use vstd::prelude::*;

verus! {

use crate::common::{ButtonAction, Line, LineClipping, Point};
use crate::math::{div_trunc, lemma_div_trunc_close, lemma_div_trunc_scale, lemma_mul_bound};

/// An axis-aligned rectangle built from one completed drag gesture.
/// Immutable once constructed.
pub struct RectangleSelection {
    /// The corners, clockwise from top-left.
    pub points: [Point; 4],
    /// Border coordinates: left, right, top, bottom.
    pub borders: (i32, i32, i32, i32),
}

impl RectangleSelection {
    /// The left border coordinate.
    pub open spec fn left(self) -> int {
        self.borders.0 as int
    }

    /// The right border coordinate.
    pub open spec fn right(self) -> int {
        self.borders.1 as int
    }

    /// The top border coordinate (y increases upward).
    pub open spec fn top(self) -> int {
        self.borders.2 as int
    }

    /// The bottom border coordinate.
    pub open spec fn bottom(self) -> int {
        self.borders.3 as int
    }

    /// The borders a selection over corner points `a` and `b` has:
    /// left, right, top, bottom.
    pub open spec fn borders_from(a: Point, b: Point) -> (i32, i32, i32, i32) {
        (
            (if a.x <= b.x {
                a.x
            } else {
                b.x
            }),
            (if a.x <= b.x {
                b.x
            } else {
                a.x
            }),
            (if a.y >= b.y {
                a.y
            } else {
                b.y
            }),
            (if a.y >= b.y {
                b.y
            } else {
                a.y
            }),
        )
    }

    /// The corner array that belongs to a border tuple: top-left, top-right,
    /// bottom-right, bottom-left.
    pub open spec fn corners_of(borders: (i32, i32, i32, i32)) -> [Point; 4] {
        [
            (Point { x: borders.0, y: borders.2 }),
            (Point { x: borders.1, y: borders.2 }),
            (Point { x: borders.1, y: borders.3 }),
            (Point { x: borders.0, y: borders.3 }),
        ]
    }

    /// Internal consistency: ordered borders, and corners read off them.
    pub open spec fn wf(self) -> bool {
        &&& self.left() <= self.right()
        &&& self.bottom() <= self.top()
        &&& self.points == Self::corners_of(self.borders)
    }

    /// `p` lies on or within all four borders.
    pub open spec fn point_within(self, p: Point) -> bool {
        self.left() <= p.x <= self.right() && self.bottom() <= p.y <= self.top()
    }

    /// `p` lies strictly within all four borders.
    pub open spec fn point_strictly_within(self, p: Point) -> bool {
        self.left() < p.x < self.right() && self.bottom() < p.y < self.top()
    }

    /// Both endpoints of `line` violate one common border.
    pub open spec fn share_violated_border(self, line: Line) -> bool {
        ||| line.0.x < self.left() && line.1.x < self.left()
        ||| line.0.x > self.right() && line.1.x > self.right()
        ||| line.0.y < self.bottom() && line.1.y < self.bottom()
        ||| line.0.y > self.top() && line.1.y > self.top()
    }

    /// The outcode of `p`: bit 3 set when `p` is left of the left border,
    /// bit 2 when right of the right border, bit 1 when below the bottom
    /// border, bit 0 when above the top border.
    pub open spec fn outcode(self, p: Point) -> u8 {
        (if p.x < self.left() {
            8u8
        } else {
            0u8
        }) | (if p.x > self.right() {
            4u8
        } else {
            0u8
        }) | (if p.y < self.bottom() {
            2u8
        } else {
            0u8
        }) | (if p.y > self.top() {
            1u8
        } else {
            0u8
        })
    }

    /// An outcode is zero exactly when the point is within all four borders.
    proof fn lemma_outcode_zero(self, p: Point)
        ensures
            self.outcode(p) == 0 <==> self.point_within(p),
    {
        assert(forall|a: u8, b: u8, c: u8, d: u8|
            a | b | c | d == 0 <==> (a == 0 && b == 0 && c == 0 && d == 0)) by (bit_vector);
    }

    /// Two outcodes share a bit exactly when the two points violate a
    /// common border.
    proof fn lemma_outcode_and(self, line: Line)
        ensures
            self.outcode(line.0) & self.outcode(line.1) != 0 <==> self.share_violated_border(
                line,
            ),
    {
        assert(forall|a1: u8, b1: u8, c1: u8, d1: u8, a2: u8, b2: u8, c2: u8, d2: u8|
            (a1 == 0 || a1 == 8) && (b1 == 0 || b1 == 4) && (c1 == 0 || c1 == 2) && (d1 == 0 || d1
                == 1) && (a2 == 0 || a2 == 8) && (b2 == 0 || b2 == 4) && (c2 == 0 || c2 == 2) && (
            d2 == 0 || d2 == 1) ==> (((a1 | b1 | c1 | d1) & (a2 | b2 | c2 | d2) != 0) <==> ((a1
                == 8 && a2 == 8) || (b1 == 4 && b2 == 4) || (c1 == 2 && c2 == 2) || (d1 == 1 && d2
                == 1)))) by (bit_vector);
    }

    /// Build a selection from two opposite corner points, in either order.
    /// The other two corners are synthesized, the borders read off the
    /// extremes.
    pub fn new(first: Point, second: Point) -> (r: Self)
        ensures
            r.borders == Self::borders_from(first, second),
            r.wf(),
    {
        let l = if first.x <= second.x {
            first.x
        } else {
            second.x
        };
        let rt = if first.x <= second.x {
            second.x
        } else {
            first.x
        };
        let t = if first.y >= second.y {
            first.y
        } else {
            second.y
        };
        let b = if first.y >= second.y {
            second.y
        } else {
            first.y
        };
        RectangleSelection {
            points: [
                Point { x: l, y: t },
                Point { x: rt, y: t },
                Point { x: rt, y: b },
                Point { x: l, y: b },
            ],
            borders: (l, rt, t, b),
        }
    }

    /// The four border coordinates: left, right, top, bottom.
    pub fn borders(&self) -> (r: (i32, i32, i32, i32))
        ensures
            r == self.borders,
    {
        self.borders
    }

    /// The outcode of `point` against this selection's borders.
    fn clipping_byte_code(&self, point: &Point) -> (code: u8)
        ensures
            code == self.outcode(*point),
    {
        let (l, r, t, b) = self.borders;
        let c_left: u8 = if point.x < l {
            8
        } else {
            0
        };
        let c_right: u8 = if point.x > r {
            4
        } else {
            0
        };
        let c_bottom: u8 = if point.y < b {
            2
        } else {
            0
        };
        let c_top: u8 = if point.y > t {
            1
        } else {
            0
        };
        c_left | c_right | c_bottom | c_top
    }

    /// Classification by outcodes alone, where they decide.
    pub open spec fn trivial_spec(self, line: Line) -> Option<LineClipping> {
        if self.outcode(line.0) | self.outcode(line.1) == 0 {
            Some(LineClipping::Inside)
        } else if self.outcode(line.0) & self.outcode(line.1) != 0 {
            Some(LineClipping::Outside)
        } else {
            None
        }
    }

    /// Trivial accept (both outcodes zero: both endpoints within all
    /// borders) or trivial reject (a common violated border). Anything
    /// else is left to boundary-intersection resolution.
    fn trivial_clipping_check(&self, line: &Line) -> (r: Option<LineClipping>)
        ensures
            r == self.trivial_spec(*line),
    {
        let start_byte_code = self.clipping_byte_code(&line.0);
        let end_byte_code = self.clipping_byte_code(&line.1);
        if start_byte_code | end_byte_code == 0u8 {
            Some(LineClipping::Inside)
        } else if start_byte_code & end_byte_code != 0u8 {
            Some(LineClipping::Outside)
        } else {
            None
        }
    }

    /// The qualifying intersections of `line` with the four border lines, in
    /// the fixed test order left, right, top, bottom.
    pub open spec fn candidates(self, line: Line) -> Seq<Point> {
        opt_seq(v_candidate(self.left(), self.bottom(), self.top(), line)) + opt_seq(
            v_candidate(self.right(), self.bottom(), self.top(), line),
        ) + opt_seq(h_candidate(self.top(), self.left(), self.right(), line)) + opt_seq(
            h_candidate(self.bottom(), self.left(), self.right(), line),
        )
    }

    /// Classification by boundary-intersection resolution: no qualifying
    /// boundary point rejects the segment; two give the visible sub-segment
    /// in discovery order; one pairs with the interior original endpoint.
    pub open spec fn complex_spec(self, line: Line) -> LineClipping {
        let cs = self.candidates(line);
        if cs.len() == 0 {
            LineClipping::Outside
        } else if cs.len() == 1 {
            if self.outcode(line.0) == 0 {
                LineClipping::PartlyInside((line.0, cs[0]))
            } else {
                LineClipping::PartlyInside((cs[0], line.1))
            }
        } else {
            LineClipping::PartlyInside((cs[0], cs[1]))
        }
    }

    /// What `clipping_check` returns: the trivial outcode test where it
    /// decides, boundary-intersection resolution everywhere else.
    pub open spec fn classify_spec(self, line: Line) -> LineClipping {
        match self.trivial_spec(line) {
            Some(c) => c,
            None => self.complex_spec(line),
        }
    }

    fn complex_clipping_check(&self, line: &Line) -> (res: LineClipping)
        ensures
            res == self.complex_spec(*line),
    {
        let (l, r, t, b) = self.borders;
        let mut cands: Vec<Point> = Vec::new();
        if let Some(p) = solve_vertical(l, b, t, line) {
            cands.push(p);
        }
        proof {
            assert(cands@ =~= opt_seq(v_candidate(self.left(), self.bottom(), self.top(), *line)));
        }
        if let Some(p) = solve_vertical(r, b, t, line) {
            cands.push(p);
        }
        proof {
            assert(cands@ =~= opt_seq(v_candidate(self.left(), self.bottom(), self.top(), *line))
                + opt_seq(v_candidate(self.right(), self.bottom(), self.top(), *line)));
        }
        if let Some(p) = solve_horizontal(t, l, r, line) {
            cands.push(p);
        }
        if let Some(p) = solve_horizontal(b, l, r, line) {
            cands.push(p);
        }
        proof {
            assert(cands@ =~= self.candidates(*line));
        }
        if cands.len() == 0 {
            LineClipping::Outside
        } else if cands.len() == 1 {
            if self.clipping_byte_code(&line.0) == 0u8 {
                LineClipping::PartlyInside((line.0, cands[0]))
            } else {
                LineClipping::PartlyInside((cands[0], line.1))
            }
        } else {
            LineClipping::PartlyInside((cands[0], cands[1]))
        }
    }

    /// Classify `line` against this selection: `Inside` exactly when both
    /// endpoints are within all four borders; `Outside` when the segment
    /// provably misses the rectangle; `PartlyInside` with the visible
    /// sub-segment otherwise.
    pub fn clipping_check(&self, line: &Line) -> (res: LineClipping)
        ensures
            res == self.classify_spec(*line),
            res is Inside <==> (self.point_within(line.0) && self.point_within(line.1)),
            self.share_violated_border(*line) ==> res is Outside,
            self.point_strictly_within(line.0) && self.point_strictly_within(line.1) ==> res
                is Inside,
    {
        proof {
            self.lemma_outcode_zero(line.0);
            self.lemma_outcode_zero(line.1);
            self.lemma_outcode_and(*line);
            assert(forall|a: u8, b: u8| a | b == 0 <==> (a == 0 && b == 0)) by (bit_vector);
        }
        if let Some(clipping) = self.trivial_clipping_check(line) {
            clipping
        } else {
            self.complex_clipping_check(line)
        }
    }
}

impl RectangleSelection {
    /// The four outline segments, consecutive corners connected cyclically,
    /// clockwise from top-left. The renderer draws them in the configured
    /// selection-outline color.
    pub fn draw(&self) -> (segs: [Line; 4])
        ensures
            segs@ == seq![
                (self.points[0], self.points[1]),
                (self.points[1], self.points[2]),
                (self.points[2], self.points[3]),
                (self.points[3], self.points[0]),
            ],
    {
        let segs: [Line; 4] = [
            (self.points[0], self.points[1]),
            (self.points[1], self.points[2]),
            (self.points[2], self.points[3]),
            (self.points[3], self.points[0]),
        ];
        proof {
            assert(segs@ =~= seq![
                (self.points[0], self.points[1]),
                (self.points[1], self.points[2]),
                (self.points[2], self.points[3]),
                (self.points[3], self.points[0]),
            ]);
        }
        segs
    }
}

/// Law: classification is idempotent. `clipping_check` ensures its result
/// equals `classify_spec` of its inputs alone, so any two outcomes its
/// contract allows for identical inputs — in particular those of two calls
/// on the same selection and segment — are equal.
pub proof fn lemma_classify_idempotent(
    sel: RectangleSelection,
    line: Line,
    first: LineClipping,
    second: LineClipping,
)
    requires
        first == sel.classify_spec(line),
        second == sel.classify_spec(line),
    ensures
        first == second,
{
}

proof fn lemma_v_candidate_within(c: int, lo: int, hi: int, line: Line)
    requires
        i32::MIN <= c <= i32::MAX,
        v_candidate(c, lo, hi, line) is Some,
    ensures
        v_candidate(c, lo, hi, line).unwrap().x == c,
        lo <= v_candidate(c, lo, hi, line).unwrap().y <= hi,
{
    let sy = line.0.y as int;
    let dx = line.1.x - line.0.x;
    let dy = line.1.y - line.0.y;
    let den = if dx >= 0 {
        dx as int
    } else {
        -(dx as int)
    };
    let num = if dx >= 0 {
        c - line.0.x
    } else {
        line.0.x - c
    };
    let a = num * dy;
    let q = div_trunc(a, den);
    lemma_div_trunc_scale(num, den, dy as int);
    lemma_div_trunc_close(a, den);
    assert(lo <= sy + q <= hi) by (nonlinear_arith)
        requires
            0 < den,
            lo * den < sy * den + a < hi * den,
            a - den < den * q < a + den,
    ;
}

proof fn lemma_h_candidate_within(c: int, lo: int, hi: int, line: Line)
    requires
        i32::MIN <= c <= i32::MAX,
        h_candidate(c, lo, hi, line) is Some,
    ensures
        h_candidate(c, lo, hi, line).unwrap().y == c,
        lo <= h_candidate(c, lo, hi, line).unwrap().x <= hi,
{
    let sx = line.0.x as int;
    let dx = line.1.x - line.0.x;
    let dy = line.1.y - line.0.y;
    let den = if dy >= 0 {
        dy as int
    } else {
        -(dy as int)
    };
    let num = if dy >= 0 {
        c - line.0.y
    } else {
        line.0.y - c
    };
    let a = num * dx;
    let q = div_trunc(a, den);
    lemma_div_trunc_scale(num, den, dx as int);
    lemma_div_trunc_close(a, den);
    assert(lo <= sx + q <= hi) by (nonlinear_arith)
        requires
            0 < den,
            lo * den < sx * den + a < hi * den,
            a - den < den * q < a + den,
    ;
}

/// Law: every qualifying boundary point lies within the selection — exactly
/// on its border line and, after rounding, still between that border's
/// extremes. With it, a `PartlyInside` outcome of two boundary points has
/// both sub-segment endpoints within the selection.
pub proof fn lemma_candidates_within(sel: RectangleSelection, line: Line)
    requires
        sel.wf(),
    ensures
        forall|i: int|
            0 <= i < sel.candidates(line).len() ==> sel.point_within(
                #[trigger] sel.candidates(line)[i],
            ),
{
    let o1 = v_candidate(sel.left(), sel.bottom(), sel.top(), line);
    let o2 = v_candidate(sel.right(), sel.bottom(), sel.top(), line);
    let o3 = h_candidate(sel.top(), sel.left(), sel.right(), line);
    let o4 = h_candidate(sel.bottom(), sel.left(), sel.right(), line);
    if o1 is Some {
        lemma_v_candidate_within(sel.left(), sel.bottom(), sel.top(), line);
    }
    if o2 is Some {
        lemma_v_candidate_within(sel.right(), sel.bottom(), sel.top(), line);
    }
    if o3 is Some {
        lemma_h_candidate_within(sel.top(), sel.left(), sel.right(), line);
    }
    if o4 is Some {
        lemma_h_candidate_within(sel.bottom(), sel.left(), sel.right(), line);
    }
    assert forall|i: int| 0 <= i < sel.candidates(line).len() implies sel.point_within(
        #[trigger] sel.candidates(line)[i],
    ) by {
        let cs = sel.candidates(line);
        assert(cs[i] == o1.unwrap() || cs[i] == o2.unwrap() || cs[i] == o3.unwrap() || cs[i]
            == o4.unwrap());
    }
}

/// Law: the selection's borders do not depend on the order in which the two
/// corner points are given. `RectangleSelection::new(p, q)` and
/// `RectangleSelection::new(q, p)` have equal left, right, top and bottom
/// borders (and, with them, equal corner arrays).
pub proof fn lemma_borders_order_invariant(p: Point, q: Point)
    ensures
        RectangleSelection::borders_from(p, q) == RectangleSelection::borders_from(q, p),
{
}

/// The state machine that accumulates a drag gesture: a start point set on
/// press, an end point tracking the cursor while the button is held, and the
/// button state itself.
pub struct RectangleSelectionBuilder {
    pub start_point: Option<Point>,
    pub end_point: Option<Point>,
    pub is_pressed: bool,
}

impl RectangleSelectionBuilder {
    /// The idle state: no points recorded, button up.
    pub fn new() -> (r: Self)
        ensures
            r.start_point is None,
            r.end_point is None,
            !r.is_pressed,
    {
        Self { start_point: None, end_point: None, is_pressed: false }
    }

    /// The state after one cursor update: a press restarts the gesture at
    /// the cursor, a release only lowers the button, and while the button is
    /// down the end point tracks the cursor.
    pub open spec fn updated(self, cursor: Point, action: Option<ButtonAction>) -> Self {
        let after_button = match action {
            Some(ButtonAction::Press) => (RectangleSelectionBuilder {
                start_point: Some(cursor),
                end_point: None,
                is_pressed: true,
            }),
            Some(ButtonAction::Release) => (RectangleSelectionBuilder {
                is_pressed: false,
                ..self
            }),
            None => self,
        };
        if after_button.is_pressed {
            RectangleSelectionBuilder { end_point: Some(cursor), ..after_button }
        } else {
            after_button
        }
    }

    /// Apply one frame event: an optional button state change, then drag
    /// tracking. Events must be applied in arrival order.
    pub fn update_cursor(&mut self, cursor: Point, action: Option<ButtonAction>)
        ensures
            *final(self) == old(self).updated(cursor, action),
            action == Some(ButtonAction::Press) ==> final(self).start_point == Some(cursor)
                && final(self).end_point == Some(cursor) && final(self).is_pressed,
            action == Some(ButtonAction::Release) ==> !final(self).is_pressed
                && final(self).start_point == old(self).start_point
                && final(self).end_point == old(self).end_point,
            action is None ==> final(self).start_point == old(self).start_point
                && final(self).is_pressed == old(self).is_pressed
                && final(self).end_point == (if old(self).is_pressed {
                Some(cursor)
            } else {
                old(self).end_point
            }),
    {
        if let Some(action) = action {
            match action {
                ButtonAction::Press => self.mouse_pressed(cursor),
                ButtonAction::Release => self.mouse_released(),
            }
        }
        if self.is_pressed {
            self.end_point = Some(cursor);
        }
    }

    fn mouse_pressed(&mut self, cursor: Point)
        ensures
            final(self).start_point == Some(cursor),
            final(self).end_point is None,
            final(self).is_pressed,
    {
        self.start_point = Some(cursor);
        self.end_point = None;
        self.is_pressed = true;
    }

    fn mouse_released(&mut self)
        ensures
            !final(self).is_pressed,
            final(self).start_point == old(self).start_point,
            final(self).end_point == old(self).end_point,
    {
        self.is_pressed = false;
    }

    /// The selection the recorded gesture describes, once a start and an end
    /// point both exist. Side-effect free: repeated calls on the same state
    /// return the same selection.
    pub fn build(&self) -> (r: Option<RectangleSelection>)
        ensures
            r is Some <==> (self.start_point is Some && self.end_point is Some),
            r == (if self.start_point is Some && self.end_point is Some {
                Some(
                    (RectangleSelection {
                        points: RectangleSelection::corners_of(
                            RectangleSelection::borders_from(
                                self.start_point.unwrap(),
                                self.end_point.unwrap(),
                            ),
                        ),
                        borders: RectangleSelection::borders_from(
                            self.start_point.unwrap(),
                            self.end_point.unwrap(),
                        ),
                    }),
                )
            } else {
                None
            }),
            r is Some ==> r.unwrap().wf(),
    {
        if self.start_point.is_some() && self.end_point.is_some() {
            Some(RectangleSelection::new(self.start_point.unwrap(), self.end_point.unwrap()))
        } else {
            None
        }
    }
}

/// A point option as a sequence of zero or one points.
pub open spec fn opt_seq(o: Option<Point>) -> Seq<Point> {
    match o {
        Some(p) => seq![p],
        None => Seq::empty(),
    }
}

/// The qualifying intersection of `line` with the vertical border line
/// `x == c`, if any: the segment, parametrized as `start + t * (end - start)`
/// for `t` in `[0, 1]`, crosses `x == c` at a point whose y-coordinate lies
/// strictly between `lo` and `hi`. A segment parallel to the border never
/// qualifies. The returned y-coordinate is the exact rational intersection
/// rounded toward the start point.
pub open spec fn v_candidate(c: int, lo: int, hi: int, line: Line) -> Option<Point> {
    let sx = line.0.x as int;
    let sy = line.0.y as int;
    let ex = line.1.x as int;
    let ey = line.1.y as int;
    let dx = ex - sx;
    let dy = ey - sy;
    if dx == 0 {
        None
    } else {
        let den = if dx >= 0 {
            dx
        } else {
            -dx
        };
        let num = if dx >= 0 {
            c - sx
        } else {
            sx - c
        };
        let ynum = sy * den + num * dy;
        if 0 <= num <= den && lo * den < ynum && ynum < hi * den {
            Some((Point { x: c as i32, y: (sy + div_trunc(num * dy, den)) as i32 }))
        } else {
            None
        }
    }
}

/// The qualifying intersection of `line` with the horizontal border line
/// `y == c`, if any; the mirror image of `v_candidate`.
pub open spec fn h_candidate(c: int, lo: int, hi: int, line: Line) -> Option<Point> {
    let sx = line.0.x as int;
    let sy = line.0.y as int;
    let ex = line.1.x as int;
    let ey = line.1.y as int;
    let dx = ex - sx;
    let dy = ey - sy;
    if dy == 0 {
        None
    } else {
        let den = if dy >= 0 {
            dy
        } else {
            -dy
        };
        let num = if dy >= 0 {
            c - sy
        } else {
            sy - c
        };
        let xnum = sx * den + num * dx;
        if 0 <= num <= den && lo * den < xnum && xnum < hi * den {
            Some((Point { x: (sx + div_trunc(num * dx, den)) as i32, y: c as i32 }))
        } else {
            None
        }
    }
}

/// Bound within which every i32 value lies, used to rule out overflow of
/// the i128 intermediates below.
spec fn i32_bound() -> int {
    0x1_0000_0000
}

fn solve_vertical(c: i32, lo: i32, hi: i32, line: &Line) -> (res: Option<Point>)
    ensures
        res == v_candidate(c as int, lo as int, hi as int, *line),
{
    let sx = line.0.x as i128;
    let sy = line.0.y as i128;
    let ex = line.1.x as i128;
    let ey = line.1.y as i128;
    let dx = ex - sx;
    let dy = ey - sy;
    if dx == 0 {
        return None;
    }
    let den = if dx >= 0 {
        dx
    } else {
        -dx
    };
    let num = if dx >= 0 {
        (c as i128) - sx
    } else {
        sx - (c as i128)
    };
    proof {
        lemma_mul_bound(sy as int, den as int, i32_bound(), i32_bound());
        lemma_mul_bound(num as int, dy as int, i32_bound(), i32_bound());
        lemma_mul_bound(lo as int, den as int, i32_bound(), i32_bound());
        lemma_mul_bound(hi as int, den as int, i32_bound(), i32_bound());
    }
    let ynum = sy * den + num * dy;
    if 0 <= num && num <= den && (lo as i128) * den < ynum && ynum < (hi as i128) * den {
        let q = (num * dy) / den;
        proof {
            lemma_div_trunc_scale(num as int, den as int, dy as int);
        }
        Some(Point { x: c, y: (sy + q) as i32 })
    } else {
        None
    }
}

fn solve_horizontal(c: i32, lo: i32, hi: i32, line: &Line) -> (res: Option<Point>)
    ensures
        res == h_candidate(c as int, lo as int, hi as int, *line),
{
    let sx = line.0.x as i128;
    let sy = line.0.y as i128;
    let ex = line.1.x as i128;
    let ey = line.1.y as i128;
    let dx = ex - sx;
    let dy = ey - sy;
    if dy == 0 {
        return None;
    }
    let den = if dy >= 0 {
        dy
    } else {
        -dy
    };
    let num = if dy >= 0 {
        (c as i128) - sy
    } else {
        sy - (c as i128)
    };
    proof {
        lemma_mul_bound(sx as int, den as int, i32_bound(), i32_bound());
        lemma_mul_bound(num as int, dx as int, i32_bound(), i32_bound());
        lemma_mul_bound(lo as int, den as int, i32_bound(), i32_bound());
        lemma_mul_bound(hi as int, den as int, i32_bound(), i32_bound());
    }
    let xnum = sx * den + num * dx;
    if 0 <= num && num <= den && (lo as i128) * den < xnum && xnum < (hi as i128) * den {
        let q = (num * dx) / den;
        proof {
            lemma_div_trunc_scale(num as int, den as int, dx as int);
        }
        Some(Point { x: (sx + q) as i32, y: c })
    } else {
        None
    }
}

} // verus!
