//! The candidate segment population and its per-frame draw plan.
//!
//! The manager owns a set of randomly generated segments inside a draw area
//! and, given a selection, dispatches each to the clipping engine and picks
//! a draw color per outcome. Drawing itself is the renderer's job: the plan
//! is returned as a list of segment/color pairs in draw order.

use vstd::prelude::*;

verus! {

use crate::common::{Color, ColorConfig, Line, LineClipping, Point};
use crate::selection::RectangleSelection;

use rand::Rng;

/// Relies on rand::Rng::gen_range over a half-open range on the
/// thread-local generator: the sample lies in `[lo, hi)`. An empty range
/// would panic, which the precondition rules out.
#[verifier::external_body]
fn random_in_range(lo: i32, hi: i32) -> (r: i32)
    requires
        lo < hi,
    ensures
        lo <= r < hi,
{
    rand::thread_rng().gen_range(lo..hi)
}

/// Owns the candidate segments, the draw area they are generated in, and
/// the draw colors. The segment population changes only through
/// `set_lines_count`.
pub struct LinesManager {
    pub lines_count: u32,
    pub lines: Vec<Line>,
    pub x_lo: i32,
    pub x_hi: i32,
    pub y_lo: i32,
    pub y_hi: i32,
    pub colors: ColorConfig,
}

impl LinesManager {
    /// Both generation ranges are nonempty.
    pub open spec fn area_nonempty(self) -> bool {
        self.x_lo < self.x_hi && self.y_lo < self.y_hi
    }

    /// `p` lies in the draw area (half-open on the high edges, as the
    /// generation ranges are).
    pub open spec fn point_in_area(self, p: Point) -> bool {
        self.x_lo <= p.x < self.x_hi && self.y_lo <= p.y < self.y_hi
    }

    /// Both endpoints of `l` lie in the draw area.
    pub open spec fn line_in_area(self, l: Line) -> bool {
        self.point_in_area(l.0) && self.point_in_area(l.1)
    }

    /// An empty manager: no segments, an empty draw area, the given colors.
    pub fn new(colors: ColorConfig) -> (r: Self)
        ensures
            r.lines_count == 0,
            r.lines@.len() == 0,
            r.x_lo == 0 && r.x_hi == 0 && r.y_lo == 0 && r.y_hi == 0,
            r.colors == colors,
    {
        LinesManager {
            lines_count: 0,
            lines: Vec::new(),
            x_lo: 0,
            x_hi: 0,
            y_lo: 0,
            y_hi: 0,
            colors,
        }
    }

    /// Center the draw area on the origin with the given extents. Existing
    /// segments are kept; only newly generated ones use the new area.
    pub fn set_draw_area_size(&mut self, width: u32, height: u32)
        ensures
            final(self).x_lo == -(width as int / 2) && final(self).x_hi == width as int / 2,
            final(self).y_lo == -(height as int / 2) && final(self).y_hi == height as int / 2,
            final(self).lines == old(self).lines,
            final(self).lines_count == old(self).lines_count,
            final(self).colors == old(self).colors,
    {
        let x_abs = (width / 2) as i32;
        let y_abs = (height / 2) as i32;
        self.x_lo = -x_abs;
        self.x_hi = x_abs;
        self.y_lo = -y_abs;
        self.y_hi = y_abs;
    }

    /// Set the population size and regenerate the segments inside the draw
    /// area. Generating into an empty area is only possible for an empty
    /// population.
    pub fn set_lines_count(&mut self, lines_count: u32)
        requires
            lines_count == 0 || old(self).area_nonempty(),
        ensures
            final(self).lines_count == lines_count,
            final(self).lines@.len() == lines_count,
            forall|i: int|
                0 <= i < final(self).lines@.len() ==> final(self).line_in_area(
                    #[trigger] final(self).lines@[i],
                ),
            final(self).x_lo == old(self).x_lo && final(self).x_hi == old(self).x_hi,
            final(self).y_lo == old(self).y_lo && final(self).y_hi == old(self).y_hi,
            final(self).colors == old(self).colors,
    {
        self.lines_count = lines_count;
        self.generate_lines();
    }

    fn generate_lines(&mut self)
        requires
            old(self).lines_count == 0 || old(self).area_nonempty(),
        ensures
            final(self).lines@.len() == old(self).lines_count,
            forall|i: int|
                0 <= i < final(self).lines@.len() ==> final(self).line_in_area(
                    #[trigger] final(self).lines@[i],
                ),
            final(self).lines_count == old(self).lines_count,
            final(self).x_lo == old(self).x_lo && final(self).x_hi == old(self).x_hi,
            final(self).y_lo == old(self).y_lo && final(self).y_hi == old(self).y_hi,
            final(self).colors == old(self).colors,
    {
        let mut lines: Vec<Line> = Vec::new();
        let count = self.lines_count;
        if count > 0 {
            let mut i: u32 = 0;
            while i < count
                invariant
                    i <= count,
                    lines@.len() == i,
                    self.area_nonempty(),
                    forall|j: int|
                        0 <= j < lines@.len() ==> self.line_in_area(#[trigger] lines@[j]),
                decreases count - i,
            {
                let start = Point {
                    x: random_in_range(self.x_lo, self.x_hi),
                    y: random_in_range(self.y_lo, self.y_hi),
                };
                let end = Point {
                    x: random_in_range(self.x_lo, self.x_hi),
                    y: random_in_range(self.y_lo, self.y_hi),
                };
                lines.push((start, end));
                i = i + 1;
            }
        }
        self.lines = lines;
    }

    /// The draw plan without a selection: every segment in the default
    /// (outside) color, in population order.
    pub fn draw(&self) -> (cmds: Vec<(Line, Color)>)
        ensures
            cmds@.len() == self.lines@.len(),
            forall|i: int|
                0 <= i < cmds@.len() ==> #[trigger] cmds@[i] == (self.lines@[i],
                self.colors.outside),
    {
        let mut cmds: Vec<(Line, Color)> = Vec::new();
        let mut i: usize = 0;
        while i < self.lines.len()
            invariant
                i <= self.lines@.len(),
                cmds@.len() == i,
                forall|j: int|
                    0 <= j < cmds@.len() ==> #[trigger] cmds@[j] == (self.lines@[j],
                    self.colors.outside),
            decreases self.lines@.len() - i,
        {
            cmds.push((self.lines[i], self.colors.outside));
            i = i + 1;
        }
        cmds
    }

    /// The draw plan against a selection: segments in population order, each
    /// colored by its clipping outcome, a partly covered segment followed by
    /// its visible sub-segment.
    pub fn draw_with_selection_check(&self, selection: &RectangleSelection) -> (cmds: Vec<
        (Line, Color),
    >)
        ensures
            cmds@ == draw_plan(self.lines@, *selection, self.colors),
    {
        let mut cmds: Vec<(Line, Color)> = Vec::new();
        let mut i: usize = 0;
        while i < self.lines.len()
            invariant
                i <= self.lines@.len(),
                cmds@ == draw_plan(self.lines@.take(i as int), *selection, self.colors),
            decreases self.lines@.len() - i,
        {
            let line = self.lines[i];
            match selection.clipping_check(&line) {
                LineClipping::Inside => {
                    cmds.push((line, self.colors.inside));
                },
                LineClipping::PartlyInside(part) => {
                    cmds.push((line, self.colors.outside));
                    cmds.push((part, self.colors.partial));
                },
                LineClipping::Outside => {
                    cmds.push((line, self.colors.outside));
                },
            }
            proof {
                assert(self.lines@.take(i as int + 1).drop_last() =~= self.lines@.take(i as int));
                assert(self.lines@.take(i as int + 1).last() == self.lines@[i as int]);
                assert(cmds@ =~= draw_plan(
                    self.lines@.take(i as int + 1),
                    *selection,
                    self.colors,
                ));
            }
            i = i + 1;
        }
        proof {
            assert(self.lines@.take(self.lines@.len() as int) =~= self.lines@);
        }
        cmds
    }
}

/// The draw commands one segment contributes to the plan, by its clipping
/// outcome.
pub open spec fn cmds_for(line: Line, selection: RectangleSelection, colors: ColorConfig) -> Seq<
    (Line, Color),
> {
    match selection.classify_spec(line) {
        LineClipping::Inside => seq![(line, colors.inside)],
        LineClipping::Outside => seq![(line, colors.outside)],
        LineClipping::PartlyInside(part) => seq![(line, colors.outside), (part, colors.partial)],
    }
}

/// The draw plan for a segment population: each segment's commands in
/// population order.
pub open spec fn draw_plan(
    lines: Seq<Line>,
    selection: RectangleSelection,
    colors: ColorConfig,
) -> Seq<(Line, Color)>
    decreases lines.len(),
{
    if lines.len() == 0 {
        Seq::empty()
    } else {
        draw_plan(lines.drop_last(), selection, colors) + cmds_for(lines.last(), selection, colors)
    }
}

} // verus!
