use rect_clip::common::{LineClipping, Point};
use rect_clip::selection::RectangleSelection;

fn p(x: i32, y: i32) -> Point {
    Point::new(x, y)
}

/// The rectangle every scenario here uses: borders left=-10, right=10,
/// top=10, bottom=-10.
fn unit_rect() -> RectangleSelection {
    RectangleSelection::new(p(-10, -10), p(10, 10))
}

#[test]
fn crossing_left_and_right_is_partly_inside() {
    let sel = unit_rect();
    let line = (p(-20, 0), p(20, 0));
    let res = sel.clipping_check(&line);
    assert_eq!(res, LineClipping::PartlyInside((p(-10, 0), p(10, 0))));
}

#[test]
fn both_endpoints_sharing_violated_borders_is_outside() {
    let sel = unit_rect();
    // Both endpoints are left of the left border and above the top border.
    let line = (p(-20, 20), p(-11, 11));
    assert_eq!(sel.clipping_check(&line), LineClipping::Outside);
}

#[test]
fn both_endpoints_strictly_inside_is_inside() {
    let sel = unit_rect();
    let line = (p(0, 0), p(5, 5));
    assert_eq!(sel.clipping_check(&line), LineClipping::Inside);
}

#[test]
fn single_interior_endpoint_is_partly_inside() {
    let sel = unit_rect();
    let line = (p(0, 0), p(20, 0));
    let res = sel.clipping_check(&line);
    assert_eq!(res, LineClipping::PartlyInside((p(0, 0), p(10, 0))));
}

#[test]
fn single_interior_endpoint_at_segment_end() {
    let sel = unit_rect();
    // The interior endpoint is the segment's end, so the sub-segment runs
    // from the boundary point to the original end point.
    let line = (p(20, 0), p(0, 0));
    let res = sel.clipping_check(&line);
    assert_eq!(res, LineClipping::PartlyInside((p(10, 0), p(0, 0))));
}

#[test]
fn classification_is_idempotent() {
    let sel = unit_rect();
    let lines = [
        (p(-20, 0), p(20, 0)),
        (p(0, 0), p(5, 5)),
        (p(-20, 20), p(-11, 11)),
        (p(0, 0), p(20, 0)),
        (p(3, -17), p(3, 42)),
    ];
    for line in &lines {
        let first = sel.clipping_check(line);
        let second = sel.clipping_check(line);
        assert_eq!(first, second);
    }
}

#[test]
fn crossing_top_and_bottom_of_narrow_rectangle() {
    // A narrow, tall rectangle crossed vertically: both endpoints outside,
    // no border violated by both, both intersections needed.
    let sel = RectangleSelection::new(p(-2, -10), p(2, 10));
    let line = (p(0, -30), p(0, 30));
    let res = sel.clipping_check(&line);
    assert_eq!(res, LineClipping::PartlyInside((p(0, 10), p(0, -10))));
}

#[test]
fn slanted_segment_crossing_left_and_top() {
    let sel = unit_rect();
    let line = (p(-20, -5), p(0, 15));
    let res = sel.clipping_check(&line);
    // Crosses x=-10 at y=5, then y=10 at x=-5, in border test order
    // left before top.
    assert_eq!(res, LineClipping::PartlyInside((p(-10, 5), p(-5, 10))));
}

#[test]
fn fractional_intersections_round_toward_the_start_point() {
    let sel = unit_rect();
    let line = (p(-15, 1), p(15, 11));
    // Exact crossings are at y = 8/3 and y = 28/3; each is rounded toward
    // the segment's start.
    let res = sel.clipping_check(&line);
    assert_eq!(res, LineClipping::PartlyInside((p(-10, 2), p(10, 9))));
}

#[test]
fn segment_near_but_not_through_is_outside() {
    let sel = unit_rect();
    // Endpoints violate different borders (left vs top), but the segment
    // passes just above the top-left corner without entering.
    let line = (p(-15, 6), p(-5, 16));
    assert_eq!(sel.clipping_check(&line), LineClipping::Outside);
}

#[test]
fn segment_through_the_corner_point_is_outside() {
    let sel = unit_rect();
    // Crosses exactly the top-left corner: the crossing lies on no border's
    // open extent, so no boundary point qualifies.
    let line = (p(-15, 5), p(-5, 15));
    assert_eq!(sel.clipping_check(&line), LineClipping::Outside);
}

#[test]
fn degenerate_segment_inside_and_outside() {
    let sel = unit_rect();
    let point_segment = (p(3, 3), p(3, 3));
    assert_eq!(sel.clipping_check(&point_segment), LineClipping::Inside);
    let far_point_segment = (p(30, 30), p(30, 30));
    assert_eq!(sel.clipping_check(&far_point_segment), LineClipping::Outside);
}

#[test]
fn degenerate_selection_does_not_crash() {
    // A click without movement: the selection collapses to a point.
    let sel = RectangleSelection::new(p(5, 5), p(5, 5));
    assert_eq!(sel.borders(), (5, 5, 5, 5));
    // A segment through the degenerate rectangle's point.
    let through = (p(0, 0), p(10, 10));
    assert_eq!(sel.clipping_check(&through), LineClipping::Outside);
    // The point itself is within all (equal) borders.
    let on_it = (p(5, 5), p(5, 5));
    assert_eq!(sel.clipping_check(&on_it), LineClipping::Inside);
    // A segment well away from it.
    let away = (p(20, 20), p(30, 20));
    assert_eq!(sel.clipping_check(&away), LineClipping::Outside);
}

#[test]
fn endpoints_on_the_border_count_as_within() {
    let sel = unit_rect();
    // Outcodes are zero on the borders themselves: non-strict containment.
    let line = (p(-10, 0), p(10, 10));
    assert_eq!(sel.clipping_check(&line), LineClipping::Inside);
}
