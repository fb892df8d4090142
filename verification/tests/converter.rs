use rect_clip::coordinate_converter::{Bounds, CoordinateConverter, NORMALIZED_ONE};

#[test]
fn viewport_center_round_trips_to_the_origin() {
    let cc = CoordinateConverter::new(800, 600);
    let cx = cc.x_top_left_to_centered_p(400);
    let cy = cc.y_top_left_to_centered_p(300);
    assert_eq!((cx, cy), (0, 0));
    assert_eq!(cc.x_centered_to_top_left_p(cx), 400);
    assert_eq!(cc.y_centered_to_top_left_p(cy), 300);
}

#[test]
fn out_of_range_input_saturates_to_the_bound() {
    let cc = CoordinateConverter::new(800, 600);
    assert_eq!(
        cc.x_top_left_to_centered_p(10000),
        cc.x_top_left_to_centered_p(800)
    );
    assert_eq!(cc.x_top_left_to_centered_p(10000), 400);
    assert_eq!(cc.x_top_left_to_centered_p(-25), cc.x_top_left_to_centered_p(0));
    assert_eq!(cc.y_top_left_to_centered_p(-1), cc.y_top_left_to_centered_p(0));
}

#[test]
fn top_left_y_flips_direction() {
    let cc = CoordinateConverter::new(800, 600);
    assert_eq!(cc.y_top_left_to_centered_p(0), 300);
    assert_eq!(cc.y_top_left_to_centered_p(600), -300);
    assert_eq!(cc.y_centered_to_top_left_p(300), 0);
    assert_eq!(cc.y_centered_to_top_left_p(-300), 600);
}

#[test]
fn corners_round_trip() {
    let cc = CoordinateConverter::new(800, 600);
    for &(x, y) in &[(0, 0), (800, 600), (0, 600), (800, 0), (123, 456)] {
        let cx = cc.x_top_left_to_centered_p(x);
        let cy = cc.y_top_left_to_centered_p(y);
        assert_eq!(cc.x_centered_to_top_left_p(cx), x);
        assert_eq!(cc.y_centered_to_top_left_p(cy), y);
    }
}

#[test]
fn normalized_conversions_scale_by_the_half_extent() {
    let cc = CoordinateConverter::new(800, 600);
    assert_eq!(cc.x_centered_p_to_n(400), NORMALIZED_ONE);
    assert_eq!(cc.x_centered_p_to_n(-400), -NORMALIZED_ONE);
    assert_eq!(cc.x_centered_p_to_n(200), NORMALIZED_ONE / 2);
    assert_eq!(cc.x_centered_p_to_n(0), 0);
    assert_eq!(cc.y_centered_p_to_n(300), NORMALIZED_ONE);
    assert_eq!(cc.y_centered_p_to_n(-150), -NORMALIZED_ONE / 2);

    assert_eq!(cc.x_centered_n_to_p(NORMALIZED_ONE), 400);
    assert_eq!(cc.x_centered_n_to_p(-NORMALIZED_ONE / 2), -200);
    assert_eq!(cc.y_centered_n_to_p(NORMALIZED_ONE), 300);
    assert_eq!(cc.y_centered_n_to_p(0), 0);
}

#[test]
fn normalized_conversions_saturate() {
    let cc = CoordinateConverter::new(800, 600);
    // Centered pixel input beyond the half-extent clamps to it.
    assert_eq!(cc.x_centered_p_to_n(40000), NORMALIZED_ONE);
    assert_eq!(cc.y_centered_p_to_n(-40000), -NORMALIZED_ONE);
    // Normalized input beyond one clamps to one.
    assert_eq!(cc.x_centered_n_to_p(NORMALIZED_ONE * 3), 400);
    assert_eq!(cc.y_centered_n_to_p(i32::MIN / 2), -300);
}

#[test]
fn truncating_scale_rounds_toward_zero() {
    let cc = CoordinateConverter::new(10, 10);
    // half-extent 5: 2 pixels are 2/5 of one, truncated from 26214.4.
    assert_eq!(cc.x_centered_p_to_n(2), NORMALIZED_ONE * 2 / 5);
    assert_eq!(cc.x_centered_p_to_n(-2), -(NORMALIZED_ONE * 2 / 5));
}

#[test]
fn bounds_constructors_describe_their_spaces() {
    let c = Bounds::new_centered_p(800, 600);
    assert_eq!((c.x_left, c.x_right, c.y_bottom, c.y_top), (-400, 400, -300, 300));
    let n = Bounds::new_centered_n();
    assert_eq!(
        (n.x_left, n.x_right, n.y_bottom, n.y_top),
        (-NORMALIZED_ONE, NORMALIZED_ONE, -NORMALIZED_ONE, NORMALIZED_ONE)
    );
    let t = Bounds::new_top_left_p(800, 600);
    assert_eq!((t.x_left, t.x_right, t.y_bottom, t.y_top), (0, 800, 0, 600));
}

#[test]
fn odd_extents_use_the_floored_half() {
    let cc = CoordinateConverter::new(801, 601);
    assert_eq!(cc.x_top_left_to_centered_p(400), 0);
    assert_eq!(cc.y_top_left_to_centered_p(300), 0);
    assert_eq!(cc.x_top_left_to_centered_p(801), 401);
}
