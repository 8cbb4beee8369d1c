use lgfx::datum::{
    anchor_origin, textdatum_baseline_center, textdatum_baseline_left, textdatum_baseline_right,
    textdatum_bottom_center, textdatum_bottom_left, textdatum_bottom_right,
    textdatum_middle_center, textdatum_middle_centre, textdatum_middle_left,
    textdatum_middle_right, textdatum_top_center, textdatum_top_centre, textdatum_top_left,
    textdatum_top_right,
};

#[test]
fn anchor_values() {
    assert_eq!(textdatum_top_left, 0);
    assert_eq!(textdatum_top_center, 1);
    assert_eq!(textdatum_top_centre, 1);
    assert_eq!(textdatum_top_right, 2);
    assert_eq!(textdatum_middle_left, 4);
    assert_eq!(textdatum_middle_center, 5);
    assert_eq!(textdatum_middle_centre, 5);
    assert_eq!(textdatum_middle_right, 6);
    assert_eq!(textdatum_bottom_left, 8);
    assert_eq!(textdatum_bottom_center, 9);
    assert_eq!(textdatum_bottom_right, 10);
    assert_eq!(textdatum_baseline_left, 16);
    assert_eq!(textdatum_baseline_center, 17);
    assert_eq!(textdatum_baseline_right, 18);
}

#[test]
fn top_left_only_takes_the_offset() {
    assert_eq!(anchor_origin(textdatum_top_left, 100, 50, 21, 13, 9, 0), Some((100, 50)));
    assert_eq!(anchor_origin(textdatum_top_left, 100, 50, 21, 13, 9, 3), Some((100, 47)));
    assert_eq!(anchor_origin(textdatum_top_left, 100, 50, 21, 13, 9, -3), Some((100, 53)));
}

#[test]
fn horizontal_anchors() {
    assert_eq!(anchor_origin(textdatum_top_center, 100, 50, 21, 13, 9, 0), Some((90, 50)));
    assert_eq!(anchor_origin(textdatum_top_right, 100, 50, 21, 13, 9, 0), Some((79, 50)));
    assert_eq!(anchor_origin(textdatum_top_center, 100, 50, -21, 13, 9, 0), Some((111, 50)));
}

#[test]
fn vertical_anchors() {
    assert_eq!(anchor_origin(textdatum_middle_left, 100, 50, 21, 13, 9, 0), Some((100, 44)));
    assert_eq!(anchor_origin(textdatum_bottom_left, 100, 50, 21, 13, 9, 0), Some((100, 37)));
    assert_eq!(anchor_origin(textdatum_baseline_left, 100, 50, 21, 13, 9, 0), Some((100, 41)));
    assert_eq!(anchor_origin(textdatum_baseline_left, 100, 50, 21, 13, 9, 2), Some((100, 39)));
}

#[test]
fn combined_anchors() {
    assert_eq!(anchor_origin(textdatum_middle_center, 100, 50, 21, 13, 9, 1), Some((90, 43)));
    assert_eq!(anchor_origin(textdatum_bottom_right, 100, 50, 21, 13, 9, 1), Some((79, 36)));
    assert_eq!(anchor_origin(textdatum_baseline_center, 100, 50, 21, 13, 9, 1), Some((90, 40)));
    assert_eq!(anchor_origin(textdatum_bottom_center, 0, 0, 20, 12, 9, 0), Some((-10, -12)));
    assert_eq!(anchor_origin(textdatum_middle_right, 0, 0, 20, 12, 9, 0), Some((-20, -6)));
    assert_eq!(anchor_origin(textdatum_baseline_right, 0, 0, 20, 12, 9, 0), Some((-20, -9)));
}

#[test]
fn middle_counts_before_bottom_and_centre_before_right() {
    assert_eq!(anchor_origin(4 | 8, 0, 50, 0, 13, 9, 0), Some((0, 44)));
    assert_eq!(anchor_origin(8 | 16, 0, 50, 0, 13, 9, 0), Some((0, 37)));
    assert_eq!(anchor_origin(1 | 2, 100, 0, 21, 0, 0, 0), Some((90, 0)));
}

#[test]
fn left_and_right_anchor_meet() {
    for (x, w) in [(0, 0), (10, 20), (-5, 7), (1000, 333)] {
        assert_eq!(
            anchor_origin(textdatum_top_left, x, 9, w, 12, 3, 1),
            anchor_origin(textdatum_top_right, x + w, 9, w, 12, 3, 1)
        );
    }
}

#[test]
fn corner_outside_the_coordinates_is_refused() {
    assert_eq!(anchor_origin(textdatum_top_right, i32::MIN, 0, 1, 0, 0, 0), None);
    assert_eq!(anchor_origin(textdatum_top_left, 0, i32::MIN, 0, 0, 0, 1), None);
    assert_eq!(anchor_origin(textdatum_top_left, 0, i32::MAX, 0, 0, 0, -1), None);
    assert_eq!(anchor_origin(textdatum_bottom_left, 0, i32::MIN, 0, 1, 0, 0), None);
    assert_eq!(
        anchor_origin(textdatum_top_right, i32::MIN, 0, 0, 0, 0, 0),
        Some((i32::MIN, 0))
    );
}
