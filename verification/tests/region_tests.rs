use polaroid::region::Bound2;

#[test]
fn corners_in_any_order_give_one_region() {
    let a = Bound2::new((10, 40), (30, 5));
    let b = Bound2::new((30, 5), (10, 40));
    assert_eq!(a.min, (10, 5));
    assert_eq!(a.max, (30, 40));
    assert_eq!(a.min, b.min);
    assert_eq!(a.max, b.max);
}

#[test]
fn rect_is_anchor_and_extent() {
    let r = Bound2::new((7, -3), (-5, 9));
    assert_eq!(r.rect(), (-5, -3, 12, 12));
    assert_eq!(r.get_width(), 12);
    assert_eq!(r.get_height(), 12);
    assert!(!r.empty());
}

#[test]
fn default_region_is_empty_and_normalized() {
    let r = Bound2::default();
    assert_eq!(r.min, (0, 0));
    assert_eq!(r.max, (0, 0));
    assert!(r.min.0 <= r.max.0 && r.min.1 <= r.max.1);
    assert_eq!(r.get_width(), 0);
    assert_eq!(r.get_height(), 0);
    assert_eq!(r.rect(), (0, 0, 0, 0));
    assert!(r.empty());
}

#[test]
fn a_region_with_max_before_min_has_no_extent() {
    let r = Bound2 { min: (0, 0), max: (-1, -1) };
    assert_eq!(r.get_width(), 0);
    assert_eq!(r.get_height(), 0);
    assert!(r.empty());
}

#[test]
fn extent_spans_the_whole_coordinate_range() {
    let r = Bound2::new((i32::MIN, i32::MIN), (i32::MAX, i32::MAX));
    assert_eq!(r.get_width(), u32::MAX);
    assert_eq!(r.get_height(), u32::MAX);
}

#[test]
fn a_line_is_empty() {
    assert!(Bound2::new((3, 3), (3, 90)).empty());
    assert!(Bound2::new((3, 3), (90, 3)).empty());
    assert!(Bound2::new((3, 3), (3, 3)).empty());
}
