use infinite_runner::collision::BoundingBox;
use infinite_runner::fixed::{narrow, sat_add, sat_inc, sat_mul, sat_scale, sat_sub};
use infinite_runner::{AddScalar, AddVector, MultiplyScalar, Vector2};

#[test]
fn sat_add_is_exact_in_range() {
    assert_eq!(sat_add(872_000, -13_500), 858_500);
    assert_eq!(sat_add(-8_000, -100), -8_100);
    assert_eq!(sat_add(0, 0), 0);
}

#[test]
fn sat_add_sticks_at_both_ends() {
    assert_eq!(sat_add(i64::MAX, 1), i64::MAX);
    assert_eq!(sat_add(i64::MAX - 1, 1), i64::MAX);
    assert_eq!(sat_add(i64::MIN, -1), i64::MIN);
    assert_eq!(sat_add(i64::MIN, i64::MIN), i64::MIN);
    assert_eq!(sat_add(i64::MAX, i64::MIN), -1);
}

#[test]
fn sat_sub_is_exact_in_range_and_sticks() {
    assert_eq!(sat_sub(1_000_000, 128_000), 872_000);
    assert_eq!(sat_sub(i64::MIN, 1), i64::MIN);
    assert_eq!(sat_sub(i64::MAX, -1), i64::MAX);
    assert_eq!(sat_sub(0, i64::MIN), i64::MAX);
}

#[test]
fn sat_mul_is_exact_in_range_and_sticks() {
    assert_eq!(sat_mul(128, 1_000), 128_000);
    assert_eq!(sat_mul(-7, 6), -42);
    assert_eq!(sat_mul(i64::MAX, 0), 0);
    assert_eq!(sat_mul(i64::MAX, 2), i64::MAX);
    assert_eq!(sat_mul(i64::MAX, -2), i64::MIN);
    assert_eq!(sat_mul(i64::MIN, i64::MIN), i64::MAX);
    assert_eq!(sat_mul(i64::MIN, -1), i64::MAX);
}

#[test]
fn sat_scale_multiplies_a_count_by_a_length() {
    assert_eq!(sat_scale(0, 500_000), 0);
    assert_eq!(sat_scale(2, 500_000), 1_000_000);
    assert_eq!(sat_scale(3, -500_000), -1_500_000);
    assert_eq!(sat_scale(usize::MAX, 1), i64::MAX);
    assert_eq!(sat_scale(usize::MAX, i64::MIN), i64::MIN);
    assert_eq!(sat_scale(usize::MAX, 0), 0);
}

#[test]
fn narrow_brings_wide_values_into_range() {
    assert_eq!(narrow(5), 5);
    assert_eq!(narrow(i64::MAX as i128 + 1), i64::MAX);
    assert_eq!(narrow(i64::MIN as i128 - 1), i64::MIN);
    assert_eq!(narrow(i128::MAX), i64::MAX);
    assert_eq!(narrow(i128::MIN), i64::MIN);
}

#[test]
fn sat_inc_counts_and_sticks() {
    assert_eq!(sat_inc(0), 1);
    assert_eq!(sat_inc(41), 42);
    assert_eq!(sat_inc(u64::MAX - 1), u64::MAX);
    assert_eq!(sat_inc(u64::MAX), u64::MAX);
}

#[test]
fn vector_new_keeps_its_components() {
    let v = Vector2::new(3, -4);
    assert_eq!(v.x, 3);
    assert_eq!(v.y, -4);
    assert_eq!(v, Vector2 { x: 3, y: -4 });
}

#[test]
fn add_vector_adds_component_by_component() {
    let mut v = Vector2 { x: 50_000, y: 872_000 };
    v.add_vector(&Vector2 { x: -8_000, y: 500 });
    assert_eq!(v, Vector2 { x: 42_000, y: 872_500 });
}

#[test]
fn add_vector_saturates_each_component_alone() {
    let mut v = Vector2 { x: i64::MAX, y: i64::MIN };
    v.add_vector(&Vector2 { x: 10, y: -10 });
    assert_eq!(v, Vector2 { x: i64::MAX, y: i64::MIN });
    let mut w = Vector2 { x: i64::MAX, y: 5 };
    w.add_vector(&Vector2 { x: 1, y: 1 });
    assert_eq!(w, Vector2 { x: i64::MAX, y: 6 });
}

#[test]
fn add_scalar_adds_to_both_components() {
    let mut v = Vector2 { x: 1, y: -1 };
    v.add(10);
    assert_eq!(v, Vector2 { x: 11, y: 9 });
    let mut w = Vector2 { x: i64::MAX, y: 0 };
    w.add(1);
    assert_eq!(w, Vector2 { x: i64::MAX, y: 1 });
}

#[test]
fn multiply_scales_both_components() {
    let mut v = Vector2 { x: 3, y: -14_000 };
    v.multiply(2);
    assert_eq!(v, Vector2 { x: 6, y: -28_000 });
    v.multiply(0);
    assert_eq!(v, Vector2 { x: 0, y: 0 });
    let mut w = Vector2 { x: i64::MIN, y: i64::MAX };
    w.multiply(-1);
    assert_eq!(w, Vector2 { x: i64::MAX, y: -i64::MAX });
}

#[test]
fn boxes_overlap_when_they_share_area() {
    let a = BoundingBox { x: 0, y: 0, width: 10, height: 10 };
    let b = BoundingBox { x: 5, y: 5, width: 10, height: 10 };
    assert!(a.is_overlapping(&b));
    assert!(b.is_overlapping(&a));
}

#[test]
fn boxes_that_touch_along_an_edge_do_not_overlap() {
    let a = BoundingBox { x: 0, y: 0, width: 10, height: 10 };
    let right = BoundingBox { x: 10, y: 0, width: 10, height: 10 };
    let below = BoundingBox { x: 0, y: 10, width: 10, height: 10 };
    assert!(!a.is_overlapping(&right));
    assert!(!right.is_overlapping(&a));
    assert!(!a.is_overlapping(&below));
    assert!(!below.is_overlapping(&a));
    let nearly = BoundingBox { x: 9, y: 9, width: 10, height: 10 };
    assert!(a.is_overlapping(&nearly));
}

#[test]
fn boxes_must_overlap_on_both_axes() {
    let a = BoundingBox { x: 0, y: 0, width: 10, height: 10 };
    let beside = BoundingBox { x: 20, y: 0, width: 10, height: 10 };
    let above = BoundingBox { x: 0, y: -20, width: 10, height: 10 };
    assert!(!a.is_overlapping(&beside));
    assert!(!a.is_overlapping(&above));
}

#[test]
fn overlap_test_does_not_overflow_at_the_ends_of_the_range() {
    let a = BoundingBox { x: i64::MAX, y: i64::MAX, width: i64::MAX, height: i64::MAX };
    let b = BoundingBox { x: i64::MIN, y: i64::MIN, width: i64::MAX, height: i64::MAX };
    assert!(a.is_overlapping(&a));
    assert!(!a.is_overlapping(&b));
    assert!(!b.is_overlapping(&a));
}

#[test]
fn bounding_box_new_takes_the_corner_from_the_location() {
    let b = BoundingBox::new(Vector2 { x: 3, y: 4 }, 5, 6);
    assert_eq!(b, BoundingBox { x: 3, y: 4, width: 5, height: 6 });
}
