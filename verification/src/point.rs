use vstd::prelude::*;

verus! {

/// Largest coordinate magnitude accepted by the planar predicate.
///
/// With every coordinate bounded by `2^61`, each coordinate difference is at
/// most `2^62` in magnitude, each product of two differences at most `2^124`,
/// and the determinant at most `2^125`, which fits an `i128`.
pub const MAX_COORD_2D: i64 = 0x2000_0000_0000_0000;

/// Largest coordinate magnitude accepted by the spatial predicate.
///
/// With every coordinate bounded by `2^40`, each coordinate difference is at
/// most `2^41`, each two-by-two minor at most `2^83`, each minor scaled by a
/// third difference at most `2^124`, and the three-term determinant at most
/// `3 * 2^124`, which fits an `i128`.
pub const MAX_COORD_3D: i64 = 0x100_0000_0000;

/// A point in the plane with exact integer coordinates.
///
/// Points are plain caller-owned values; no function of this crate mutates a
/// point it is given.
#[derive(Clone, Copy, PartialEq, Eq, Structural, Debug)]
pub struct Point2 {
    pub x: i64,
    pub y: i64,
}

/// A point in space with exact integer coordinates.
///
/// Points are plain caller-owned values; no function of this crate mutates a
/// point it is given.
#[derive(Clone, Copy, PartialEq, Eq, Structural, Debug)]
pub struct Point3 {
    pub x: i64,
    pub y: i64,
    pub z: i64,
}

impl Point2 {
    /// Both coordinates are small enough for the planar determinant to be
    /// computed in `i128` without overflow.
    pub open spec fn in_range(self) -> bool {
        &&& -MAX_COORD_2D <= self.x <= MAX_COORD_2D
        &&& -MAX_COORD_2D <= self.y <= MAX_COORD_2D
    }

    /// Decides `in_range` for a point whose coordinates are only known at
    /// run time.
    pub fn is_in_range(&self) -> (r: bool)
        ensures
            r == self.in_range(),
    {
        -MAX_COORD_2D <= self.x && self.x <= MAX_COORD_2D
            && -MAX_COORD_2D <= self.y && self.y <= MAX_COORD_2D
    }
}

impl Point3 {
    /// All three coordinates are small enough for the spatial determinant to
    /// be computed in `i128` without overflow.
    pub open spec fn in_range(self) -> bool {
        &&& -MAX_COORD_3D <= self.x <= MAX_COORD_3D
        &&& -MAX_COORD_3D <= self.y <= MAX_COORD_3D
        &&& -MAX_COORD_3D <= self.z <= MAX_COORD_3D
    }

    /// Decides `in_range` for a point whose coordinates are only known at
    /// run time.
    pub fn is_in_range(&self) -> (r: bool)
        ensures
            r == self.in_range(),
    {
        -MAX_COORD_3D <= self.x && self.x <= MAX_COORD_3D
            && -MAX_COORD_3D <= self.y && self.y <= MAX_COORD_3D
            && -MAX_COORD_3D <= self.z && self.z <= MAX_COORD_3D
    }
}

} // verus!
