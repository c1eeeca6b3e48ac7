use robust_orientation::orientation::{
    orientation_2d, orientation_2d_checked, orientation_3d, orientation_3d_checked,
};
use robust_orientation::point::{Point2, Point3, MAX_COORD_2D, MAX_COORD_3D};

fn p2(x: i64, y: i64) -> Point2 {
    Point2 { x, y }
}

fn p3(x: i64, y: i64, z: i64) -> Point3 {
    Point3 { x, y, z }
}

#[test]
fn test_ro() {
    assert!(true);
}

#[test]
fn counterclockwise_is_negative() {
    assert!(orientation_2d(p2(0, 0), p2(1, 0), p2(0, 1)) < 0);
    assert_eq!(orientation_2d(p2(0, 0), p2(1, 0), p2(0, 1)), -1);
}

#[test]
fn clockwise_is_positive() {
    assert!(orientation_2d(p2(0, 0), p2(1, 0), p2(0, -1)) > 0);
    assert_eq!(orientation_2d(p2(0, 0), p2(1, 0), p2(0, -1)), 1);
}

#[test]
fn collinear_is_exactly_zero() {
    assert_eq!(orientation_2d(p2(0, 0), p2(2, 2), p2(1, 1)), 0);
    assert_eq!(orientation_2d(p2(1, 2), p2(3, 6), p2(5, 10)), 0);
    assert_eq!(orientation_2d(p2(-7, 3), p2(-7, 900), p2(-7, -41)), 0);
}

#[test]
fn repeated_points_are_degenerate() {
    assert_eq!(orientation_2d(p2(4, 9), p2(4, 9), p2(-3, 17)), 0);
    assert_eq!(orientation_2d(p2(4, 9), p2(-3, 17), p2(-3, 17)), 0);
    assert_eq!(
        orientation_3d(p3(1, 2, 3), p3(1, 2, 3), p3(0, 5, -2), p3(8, 8, 8)),
        0
    );
}

#[test]
fn tetrahedron_above_plane_is_negative() {
    let det = orientation_3d(p3(0, 0, 0), p3(1, 0, 0), p3(0, 1, 0), p3(0, 0, 1));
    assert!(det < 0);
    assert_eq!(det, -1);
}

#[test]
fn coplanar_is_exactly_zero() {
    assert_eq!(
        orientation_3d(p3(0, 0, 0), p3(1, 0, 0), p3(0, 1, 0), p3(3, -5, 0)),
        0
    );
    assert_eq!(
        orientation_3d(p3(0, 0, 1), p3(2, 0, 1), p3(0, 2, 1), p3(1, 1, 1)),
        0
    );
}

#[test]
fn one_unit_off_a_long_diagonal_keeps_the_exact_sign() {
    // One unit above the line y == x at half the span of the segment: the
    // true determinant is exactly -2^52, and the result matches it.
    let span: i64 = 1 << 52;
    let half: i64 = 1 << 51;
    let above = orientation_2d(p2(0, 0), p2(span, span), p2(half, half + 1));
    assert_eq!(above, -(1i128 << 52));
    let below = orientation_2d(p2(0, 0), p2(span, span), p2(half, half - 1));
    assert_eq!(below, 1i128 << 52);
}

#[test]
fn shrinking_perturbations_keep_the_reference_sign() {
    // Query points converge toward exact collinearity from above; at every
    // step the result equals the exact reference value -k * 2^40, so the
    // sign never flips on the way down.
    let big: i64 = 1 << 40;
    let mid: i64 = 1 << 20;
    let mut k: i64 = 1 << 19;
    while k >= 1 {
        let det = orientation_2d(p2(0, 0), p2(big, big), p2(mid, mid + k));
        assert_eq!(det, -(k as i128) * (1i128 << 40));
        k /= 2;
    }
}

#[test]
fn swapping_endpoints_negates_the_result() {
    let triples = [
        (p2(0, 0), p2(1, 0), p2(0, 1)),
        (p2(3, -2), p2(14, 9), p2(-6, 41)),
        (p2(0, 0), p2(2, 2), p2(1, 1)),
        (p2(-100, 55), p2(1000, -3), p2(17, 17)),
    ];
    for (a, b, c) in triples {
        assert_eq!(orientation_2d(a, b, c), -orientation_2d(b, a, c));
    }
}

#[test]
fn positive_scaling_keeps_the_sign() {
    let a = p2(3, -2);
    let b = p2(14, 9);
    let c = p2(-6, 41);
    let base = orientation_2d(a, b, c);
    let s: i64 = 3;
    let scaled = orientation_2d(
        p2(s * a.x, s * a.y),
        p2(s * b.x, s * b.y),
        p2(s * c.x, s * c.y),
    );
    assert_eq!(scaled, (s as i128) * (s as i128) * base);
    assert_eq!(scaled > 0, base > 0);
    assert_eq!(scaled < 0, base < 0);
}

#[test]
fn extreme_planar_coordinates_stay_exact() {
    let m = MAX_COORD_2D;
    let det = orientation_2d(p2(-m, -m), p2(m, -m), p2(0, m));
    // (ay - cy) * (bx - cx) - (ax - cx) * (by - cy) with the values above is
    // (-2m) * m - (-m) * (-2m) == -4 * m * m == -2^124.
    assert_eq!(det, -(1i128 << 124));
}

#[test]
fn extreme_spatial_coordinates_stay_exact() {
    let m = MAX_COORD_3D;
    let det = orientation_3d(p3(0, 0, 0), p3(m, 0, 0), p3(0, m, 0), p3(0, 0, m));
    assert_eq!(det, -(1i128 << 120));
}

#[test]
fn checked_accepts_in_range_points() {
    assert_eq!(
        orientation_2d_checked(p2(0, 0), p2(1, 0), p2(0, 1)),
        Some(-1)
    );
    assert_eq!(
        orientation_3d_checked(p3(0, 0, 0), p3(1, 0, 0), p3(0, 1, 0), p3(0, 0, 1)),
        Some(-1)
    );
}

#[test]
fn checked_rejects_out_of_range_points() {
    assert_eq!(
        orientation_2d_checked(p2(MAX_COORD_2D + 1, 0), p2(1, 0), p2(0, 1)),
        None
    );
    assert_eq!(
        orientation_2d_checked(p2(0, 0), p2(1, -MAX_COORD_2D - 1), p2(0, 1)),
        None
    );
    assert_eq!(
        orientation_3d_checked(
            p3(0, 0, 0),
            p3(1, 0, 0),
            p3(0, 1, 0),
            p3(0, 0, MAX_COORD_3D + 1)
        ),
        None
    );
}
