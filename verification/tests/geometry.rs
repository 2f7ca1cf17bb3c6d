use drone_tracking::geometry::{capture_screen, Rect, ScreenGeometry};

#[test]
fn rect_new_keeps_its_arguments() {
    let r = Rect::new(3, -4, 10, 20).unwrap();
    assert_eq!((r.x, r.y, r.width, r.height), (3, -4, 10, 20));
    assert_eq!(r.array, [0, 0, 0, 0]);
    assert!(r.is_well_formed());
}

#[test]
fn rect_new_refuses_negative_extents() {
    assert!(Rect::new(0, 0, -1, 5).is_none());
    assert!(Rect::new(0, 0, 5, -1).is_none());
    assert!(Rect::new(0, 0, 0, 0).is_some());
}

#[test]
fn empty_rect_is_no_target() {
    let r = Rect::empty();
    assert_eq!((r.x, r.y, r.width, r.height), (0, 0, 0, 0));
    assert!(r.has_no_area());
    assert!(Rect::new(5, 5, 0, 9).unwrap().has_no_area());
    assert!(Rect::new(5, 5, 9, 0).unwrap().has_no_area());
    assert!(!Rect::new(5, 5, 1, 1).unwrap().has_no_area());
}

#[test]
fn to_array_stages_the_fields() {
    let mut r = Rect::new(1, 2, 3, 4).unwrap();
    r.to_array();
    assert_eq!(r.array, [1, 2, 3, 4]);
    assert_eq!((r.x, r.y, r.width, r.height), (1, 2, 3, 4));
}

#[test]
fn from_array_loads_own_staged_values() {
    let mut r = Rect::new(1, 2, 3, 4).unwrap();
    r.array = [10, 20, 30, 40];
    assert!(r.from_array(None));
    assert_eq!((r.x, r.y, r.width, r.height), (10, 20, 30, 40));
    assert_eq!(r.array, [10, 20, 30, 40]);
}

#[test]
fn from_array_loads_staged_values_of_other() {
    let mut other = Rect::new(7, 8, 9, 10).unwrap();
    other.array = [-5, 6, 70, 80];
    let mut r = Rect::new(1, 2, 3, 4).unwrap();
    r.array = [11, 12, 13, 14];
    assert!(r.from_array(Some(&other)));
    // The staged values of the other box are loaded, not its fields.
    assert_eq!((r.x, r.y, r.width, r.height), (-5, 6, 70, 80));
    // The own staging area is not touched.
    assert_eq!(r.array, [11, 12, 13, 14]);
}

#[test]
fn from_array_refuses_negative_extents() {
    let mut r = Rect::new(1, 2, 3, 4).unwrap();
    r.array = [10, 20, -30, 40];
    assert!(!r.from_array(None));
    assert_eq!((r.x, r.y, r.width, r.height), (1, 2, 3, 4));
    r.array = [10, 20, 30, -1];
    assert!(!r.from_array(None));
    assert_eq!((r.x, r.y, r.width, r.height), (1, 2, 3, 4));
    assert_eq!(r.array, [10, 20, 30, -1]);
}

#[test]
fn to_array_then_from_array_is_identity() {
    let mut r = Rect::new(-3, 9, 17, 1).unwrap();
    r.to_array();
    let mut copy = Rect::empty();
    assert!(copy.from_array(Some(&r)));
    assert_eq!((copy.x, copy.y, copy.width, copy.height), (-3, 9, 17, 1));
}

#[test]
fn center_containment_excludes_right_and_bottom_edges() {
    let outer = Rect::new(10, 10, 10, 10).unwrap();
    // Centers at (10, 10), (19, 19), (20, 15), (15, 20), (9, 15).
    assert!(outer.holds_center_of(&Rect::new(10, 10, 0, 0).unwrap()));
    assert!(outer.holds_center_of(&Rect::new(19, 19, 0, 0).unwrap()));
    assert!(!outer.holds_center_of(&Rect::new(20, 15, 0, 0).unwrap()));
    assert!(!outer.holds_center_of(&Rect::new(15, 20, 0, 0).unwrap()));
    assert!(!outer.holds_center_of(&Rect::new(9, 15, 0, 0).unwrap()));
}

#[test]
fn center_is_taken_with_integer_halves() {
    let outer = Rect::new(0, 0, 6, 6).unwrap();
    // Width 11 has half 5: center (5, 5) is inside.
    assert!(outer.holds_center_of(&Rect::new(0, 0, 11, 11).unwrap()));
    // Width 12 has half 6: center (6, 6) is on the excluded edge.
    assert!(!outer.holds_center_of(&Rect::new(0, 0, 12, 12).unwrap()));
}

#[test]
fn empty_box_contains_no_center() {
    let outer = Rect::new(5, 5, 0, 0).unwrap();
    assert!(!outer.holds_center_of(&Rect::new(5, 5, 0, 0).unwrap()));
}

#[test]
fn center_containment_at_the_limits_of_the_coordinates() {
    let outer = Rect::new(i32::MAX - 1, i32::MAX - 1, i32::MAX, i32::MAX).unwrap();
    let inner = Rect::new(i32::MAX, i32::MAX, i32::MAX, i32::MAX).unwrap();
    assert!(outer.holds_center_of(&inner));
    let far = Rect::new(i32::MIN, i32::MIN, 0, 0).unwrap();
    assert!(!outer.holds_center_of(&far));
}

#[test]
fn pixel_area_is_the_product_of_the_extents() {
    assert_eq!(Rect::new(0, 0, 640, 480).unwrap().pixel_area(), 307_200);
    assert_eq!(Rect::new(9, 9, 0, 480).unwrap().pixel_area(), 0);
    assert_eq!(
        Rect::new(0, 0, i32::MAX, i32::MAX).unwrap().pixel_area(),
        4_611_686_014_132_420_609
    );
}

#[test]
fn screen_needs_pixels() {
    assert!(ScreenGeometry::new(0, 480).is_none());
    assert!(ScreenGeometry::new(640, 0).is_none());
    let s = ScreenGeometry::new(640, 480).unwrap();
    assert_eq!((s.width, s.height), (640, 480));
}

#[test]
fn screen_is_captured_once() {
    let none = capture_screen(None, 0, 480);
    assert_eq!(none, None);
    let first = capture_screen(none, 640, 480);
    assert_eq!(first, Some(ScreenGeometry { width: 640, height: 480 }));
    let second = capture_screen(first, 1280, 720);
    assert_eq!(second, Some(ScreenGeometry { width: 640, height: 480 }));
    let third = capture_screen(second, 0, 0);
    assert_eq!(third, Some(ScreenGeometry { width: 640, height: 480 }));
}
