use vstd::prelude::*;

use crate::point::{Point2, Point3, MAX_COORD_2D, MAX_COORD_3D};

verus! {

/// The planar orientation determinant: twice the signed area of the triangle
/// `(a, b, c)`, written over the coordinates as integers.
pub open spec fn det_2d(ax: int, ay: int, bx: int, by: int, cx: int, cy: int) -> int {
    (ay - cy) * (bx - cx) - (ax - cx) * (by - cy)
}

/// The spatial orientation determinant: six times the signed volume of the
/// tetrahedron `(a, b, c, d)`, expanded along the row of the query point `d`.
pub open spec fn det_3d(
    ax: int, ay: int, az: int,
    bx: int, by: int, bz: int,
    cx: int, cy: int, cz: int,
    dx: int, dy: int, dz: int,
) -> int {
    (az - dz) * ((bx - dx) * (cy - dy) - (cx - dx) * (by - dy))
        + (bz - dz) * ((cx - dx) * (ay - dy) - (ax - dx) * (cy - dy))
        + (cz - dz) * ((ax - dx) * (by - dy) - (bx - dx) * (ay - dy))
}

/// A product of two factors is bounded by the product of bounds on the
/// factors.
proof fn lemma_mul_bound(x: int, y: int, mx: int, my: int) by (nonlinear_arith)
    requires
        0 <= mx,
        0 <= my,
        -mx <= x <= mx,
        -my <= y <= my,
    ensures
        -(mx * my) <= x * y <= mx * my,
{
}

/// Orientation of `c` relative to the directed segment from `a` to `b`.
///
/// Returns the exact planar determinant:
/// - negative: `a`, `b`, `c` turn counterclockwise (`c` is left of `a -> b`);
/// - positive: they turn clockwise (`c` is right of `a -> b`);
/// - zero: the three points are exactly collinear.
pub fn orientation_2d(a: Point2, b: Point2, c: Point2) -> (det: i128)
    requires
        a.in_range(),
        b.in_range(),
        c.in_range(),
    ensures
        det == det_2d(a.x as int, a.y as int, b.x as int, b.y as int, c.x as int, c.y as int),
{
    let acy: i128 = (a.y as i128) - (c.y as i128);
    let bcx: i128 = (b.x as i128) - (c.x as i128);
    let acx: i128 = (a.x as i128) - (c.x as i128);
    let bcy: i128 = (b.y as i128) - (c.y as i128);
    proof {
        lemma_mul_bound(acy as int, bcx as int, 2 * MAX_COORD_2D as int, 2 * MAX_COORD_2D as int);
        lemma_mul_bound(acx as int, bcy as int, 2 * MAX_COORD_2D as int, 2 * MAX_COORD_2D as int);
    }
    let l: i128 = acy * bcx;
    let r: i128 = acx * bcy;
    l - r
}

/// Orientation of `d` relative to the plane through `a`, `b`, `c`.
///
/// Returns the exact spatial determinant:
/// - negative: `d` is on the counterclockwise side of the plane (the side
///   from which `a`, `b`, `c` appear counterclockwise);
/// - positive: `d` is on the clockwise side;
/// - zero: the four points are exactly coplanar.
pub fn orientation_3d(a: Point3, b: Point3, c: Point3, d: Point3) -> (det: i128)
    requires
        a.in_range(),
        b.in_range(),
        c.in_range(),
        d.in_range(),
    ensures
        det == det_3d(
            a.x as int, a.y as int, a.z as int,
            b.x as int, b.y as int, b.z as int,
            c.x as int, c.y as int, c.z as int,
            d.x as int, d.y as int, d.z as int,
        ),
{
    let adx: i128 = (a.x as i128) - (d.x as i128);
    let bdx: i128 = (b.x as i128) - (d.x as i128);
    let cdx: i128 = (c.x as i128) - (d.x as i128);
    let ady: i128 = (a.y as i128) - (d.y as i128);
    let bdy: i128 = (b.y as i128) - (d.y as i128);
    let cdy: i128 = (c.y as i128) - (d.y as i128);
    let adz: i128 = (a.z as i128) - (d.z as i128);
    let bdz: i128 = (b.z as i128) - (d.z as i128);
    let cdz: i128 = (c.z as i128) - (d.z as i128);
    proof {
        let md: int = 2 * MAX_COORD_3D as int;
        lemma_mul_bound(bdx as int, cdy as int, md, md);
        lemma_mul_bound(cdx as int, bdy as int, md, md);
        lemma_mul_bound(cdx as int, ady as int, md, md);
        lemma_mul_bound(adx as int, cdy as int, md, md);
        lemma_mul_bound(adx as int, bdy as int, md, md);
        lemma_mul_bound(bdx as int, ady as int, md, md);
    }
    let bdxcdy: i128 = bdx * cdy;
    let cdxbdy: i128 = cdx * bdy;
    let cdxady: i128 = cdx * ady;
    let adxcdy: i128 = adx * cdy;
    let adxbdy: i128 = adx * bdy;
    let bdxady: i128 = bdx * ady;
    let minor_a: i128 = bdxcdy - cdxbdy;
    let minor_b: i128 = cdxady - adxcdy;
    let minor_c: i128 = adxbdy - bdxady;
    proof {
        let md: int = 2 * MAX_COORD_3D as int;
        lemma_mul_bound(adz as int, minor_a as int, md, 2 * md * md);
        lemma_mul_bound(bdz as int, minor_b as int, md, 2 * md * md);
        lemma_mul_bound(cdz as int, minor_c as int, md, 2 * md * md);
    }
    adz * minor_a + bdz * minor_b + cdz * minor_c
}

/// Orientation of `c` relative to the directed segment from `a` to `b`, for
/// points whose coordinates are only known at run time.
///
/// Returns the exact planar determinant whenever every coordinate is within
/// the accepted range, and `None` — never a wrong sign — otherwise.
pub fn orientation_2d_checked(a: Point2, b: Point2, c: Point2) -> (r: Option<i128>)
    ensures
        match r {
            Some(det) => {
                &&& a.in_range() && b.in_range() && c.in_range()
                &&& det == det_2d(
                    a.x as int, a.y as int, b.x as int, b.y as int, c.x as int, c.y as int)
            },
            None => !(a.in_range() && b.in_range() && c.in_range()),
        },
{
    if a.is_in_range() && b.is_in_range() && c.is_in_range() {
        Some(orientation_2d(a, b, c))
    } else {
        None
    }
}

/// Orientation of `d` relative to the plane through `a`, `b`, `c`, for
/// points whose coordinates are only known at run time.
///
/// Returns the exact spatial determinant whenever every coordinate is within
/// the accepted range, and `None` — never a wrong sign — otherwise.
pub fn orientation_3d_checked(a: Point3, b: Point3, c: Point3, d: Point3) -> (r: Option<i128>)
    ensures
        match r {
            Some(det) => {
                &&& a.in_range() && b.in_range() && c.in_range() && d.in_range()
                &&& det == det_3d(
                    a.x as int, a.y as int, a.z as int,
                    b.x as int, b.y as int, b.z as int,
                    c.x as int, c.y as int, c.z as int,
                    d.x as int, d.y as int, d.z as int,
                )
            },
            None => !(a.in_range() && b.in_range() && c.in_range() && d.in_range()),
        },
{
    if a.is_in_range() && b.is_in_range() && c.is_in_range() && d.is_in_range() {
        Some(orientation_3d(a, b, c, d))
    } else {
        None
    }
}

/// Swapping the two endpoints of the directed segment negates the planar
/// determinant exactly, so the two orientations always have opposite signs
/// (and are both zero exactly on collinear input).
pub proof fn lemma_det_2d_antisymmetric(ax: int, ay: int, bx: int, by: int, cx: int, cy: int)
    ensures
        det_2d(ax, ay, bx, by, cx, cy) == -det_2d(bx, by, ax, ay, cx, cy),
{
    assert((ay - cy) * (bx - cx) - (ax - cx) * (by - cy)
        == -((by - cy) * (ax - cx) - (bx - cx) * (ay - cy))) by (nonlinear_arith);
}

/// Three points that lie exactly on a common line — the edge vectors
/// `b - a` and `c - a` have a vanishing cross product — give a planar
/// determinant of exactly zero.
pub proof fn lemma_collinear_det_2d_zero(ax: int, ay: int, bx: int, by: int, cx: int, cy: int)
    requires
        (bx - ax) * (cy - ay) == (by - ay) * (cx - ax),
    ensures
        det_2d(ax, ay, bx, by, cx, cy) == 0,
{
    assert((ay - cy) * (bx - cx) - (ax - cx) * (by - cy)
        == -((bx - ax) * (cy - ay) - (by - ay) * (cx - ax))) by (nonlinear_arith)
        requires
            (bx - ax) * (cy - ay) == (by - ay) * (cx - ax),
    ;
}

/// Multiplication distributes over a difference of two scaled terms.
proof fn lemma_scale_diff(s: int, p: int, q: int) by (nonlinear_arith)
    ensures
        s * p - s * q == s * (p - q),
{
}

/// Pulling a common factor out of both sides of a product collects it as a
/// square.
proof fn lemma_scale_factor(s: int, p: int, q: int) by (nonlinear_arith)
    ensures
        (s * p) * (s * q) == s * s * (p * q),
{
}

/// Scaling all three points by the same factor `s` about the origin
/// multiplies the planar determinant by `s * s`; for positive `s` the sign
/// of the determinant is therefore unchanged.
pub proof fn lemma_det_2d_scale(
    ax: int, ay: int, bx: int, by: int, cx: int, cy: int, s: int,
)
    ensures
        det_2d(s * ax, s * ay, s * bx, s * by, s * cx, s * cy)
            == s * s * det_2d(ax, ay, bx, by, cx, cy),
        s > 0 ==> (det_2d(s * ax, s * ay, s * bx, s * by, s * cx, s * cy) > 0
            <==> det_2d(ax, ay, bx, by, cx, cy) > 0),
        s > 0 ==> (det_2d(s * ax, s * ay, s * bx, s * by, s * cx, s * cy) < 0
            <==> det_2d(ax, ay, bx, by, cx, cy) < 0),
        s > 0 ==> (det_2d(s * ax, s * ay, s * bx, s * by, s * cx, s * cy) == 0
            <==> det_2d(ax, ay, bx, by, cx, cy) == 0),
{
    let d = det_2d(ax, ay, bx, by, cx, cy);
    lemma_scale_diff(s, ay, cy);
    lemma_scale_diff(s, bx, cx);
    lemma_scale_diff(s, ax, cx);
    lemma_scale_diff(s, by, cy);
    lemma_scale_factor(s, ay - cy, bx - cx);
    lemma_scale_factor(s, ax - cx, by - cy);
    lemma_scale_diff(s * s, (ay - cy) * (bx - cx), (ax - cx) * (by - cy));
    assert(s > 0 ==> (s * s * d > 0 <==> d > 0)) by (nonlinear_arith);
    assert(s > 0 ==> (s * s * d < 0 <==> d < 0)) by (nonlinear_arith);
    assert(s > 0 ==> (s * s * d == 0 <==> d == 0)) by (nonlinear_arith);
}

} // verus!
