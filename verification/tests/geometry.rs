use libwmgr::geometry::{
    flip_frame_y, frame_contains_point, Point, Rect, Size, COORD_LIMIT, SCREEN_LIMIT,
    UNITS_PER_POINT,
};

fn rect(x: i64, y: i64, width: i64, height: i64) -> Rect {
    Rect { origin: Point { x, y }, size: Size { width, height } }
}

#[test]
fn flip_measures_from_the_opposite_edge() {
    // A 25-high menu bar at the top of a 1080-high screen: its usable area
    // starts at 0 and is 1055 high, measured from the bottom.
    assert_eq!(flip_frame_y(1080, 1055, 0), 25);
    assert_eq!(flip_frame_y(1080, 1080, 0), 0);
    assert_eq!(flip_frame_y(1080, 900, -900), 1080);
    assert_eq!(flip_frame_y(1080, 900, 1080), -900);
}

#[test]
fn flip_twice_is_identity() {
    for &(h, fh, y) in &[(1080, 1055, 0), (1080, 900, -900), (0, 0, 0), (1440, 10, 77), (900, 300, -5)] {
        assert_eq!(flip_frame_y(h, fh, flip_frame_y(h, fh, y)), y);
    }
}

#[test]
fn flipped_rect_keeps_x_and_size() {
    let r = rect(1920, -120, 1280, 1024);
    let f = r.flipped(1080);
    assert_eq!(f, rect(1920, 1080 - (-120 + 1024), 1280, 1024));
    assert_eq!(f.origin.y, 176);
}

#[test]
fn containment_includes_top_left_corner() {
    let r = rect(10, 20, 100, 50);
    assert!(frame_contains_point(&r, &Point { x: 10, y: 20 }));
    assert!(frame_contains_point(&r, &Point { x: 109, y: 69 }));
    assert!(frame_contains_point(&r, &Point { x: 50, y: 40 }));
}

#[test]
fn containment_excludes_right_and_bottom_edges() {
    let r = rect(10, 20, 100, 50);
    assert!(!frame_contains_point(&r, &Point { x: 110, y: 20 }));
    assert!(!frame_contains_point(&r, &Point { x: 110, y: 40 }));
    assert!(!frame_contains_point(&r, &Point { x: 10, y: 70 }));
    assert!(!frame_contains_point(&r, &Point { x: 50, y: 70 }));
    assert!(!frame_contains_point(&r, &Point { x: 110, y: 70 }));
}

#[test]
fn containment_excludes_points_before_the_origin() {
    let r = rect(10, 20, 100, 50);
    assert!(!frame_contains_point(&r, &Point { x: 9, y: 20 }));
    assert!(!frame_contains_point(&r, &Point { x: 10, y: 19 }));
}

#[test]
fn empty_rect_contains_nothing() {
    let r = rect(10, 20, 0, 50);
    assert!(!frame_contains_point(&r, &Point { x: 10, y: 20 }));
    let r = rect(10, 20, 100, 0);
    assert!(!frame_contains_point(&r, &Point { x: 10, y: 20 }));
}

#[test]
fn boundary_point_belongs_to_the_neighbour_only() {
    let left = rect(0, 0, 1920, 1080);
    let right = rect(1920, 0, 1280, 1024);
    let p = Point { x: 1920, y: 500 };
    assert!(!frame_contains_point(&left, &p));
    assert!(frame_contains_point(&right, &p));
}

#[test]
fn containment_at_the_limits_of_the_coordinate_type() {
    let r = rect(i64::MAX - 1, i64::MAX - 1, 5, 5);
    assert!(frame_contains_point(&r, &Point { x: i64::MAX, y: i64::MAX }));
    let r = rect(i64::MIN, i64::MIN, 1, 1);
    assert!(frame_contains_point(&r, &Point { x: i64::MIN, y: i64::MIN }));
    assert!(!frame_contains_point(&r, &Point { x: i64::MIN + 1, y: i64::MIN }));
}

#[test]
fn new_accepts_what_is_well_formed() {
    assert_eq!(Rect::new(0, 0, 1000, 800), Some(rect(0, 0, 1000, 800)));
    assert_eq!(Rect::new(-5, 7, 0, 0), Some(rect(-5, 7, 0, 0)));
    assert_eq!(
        Rect::new(-COORD_LIMIT, -COORD_LIMIT, 2 * COORD_LIMIT, 2 * COORD_LIMIT),
        Some(rect(-COORD_LIMIT, -COORD_LIMIT, 2 * COORD_LIMIT, 2 * COORD_LIMIT))
    );
}

#[test]
fn new_rejects_negative_extent_and_far_edges() {
    assert_eq!(Rect::new(0, 0, -1, 800), None);
    assert_eq!(Rect::new(0, 0, 1000, -1), None);
    assert_eq!(Rect::new(COORD_LIMIT, 0, 1, 1), None);
    assert_eq!(Rect::new(0, -COORD_LIMIT - 1, 1, 1), None);
    assert_eq!(Rect::new(0, 0, COORD_LIMIT + 1, 1), None);
    assert_eq!(Rect::new(i64::MAX, i64::MAX, i64::MAX, i64::MAX), None);
    assert_eq!(Rect::new(i64::MIN, 0, 0, 0), None);
}

#[test]
fn run_time_tests_of_well_formedness() {
    assert!(rect(0, 0, 1000, 800).is_wf());
    assert!(!rect(0, 0, -1, 800).is_wf());
    assert!(rect(0, 0, SCREEN_LIMIT, SCREEN_LIMIT).is_screen_wf());
    assert!(!rect(1, 0, SCREEN_LIMIT, 10).is_screen_wf());
    assert!(rect(1, 0, SCREEN_LIMIT, 10).is_wf());
}

#[test]
fn a_point_is_120_units() {
    assert_eq!(UNITS_PER_POINT, 120);
    for den in [1, 2, 3, 4, 5, 6, 8, 10] {
        assert_eq!(UNITS_PER_POINT % den, 0);
    }
}

#[test]
fn a_usable_area_measures_whole_points() {
    assert!(rect(7, -3, 1200, 960).is_usable_wf());
    assert!(rect(0, 0, 0, 0).is_usable_wf());
    assert!(!rect(0, 0, 1201, 960).is_usable_wf());
    assert!(!rect(0, 0, 1200, 60).is_usable_wf());
    assert!(!rect(0, 0, -120, 120).is_usable_wf());
}
