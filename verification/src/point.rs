//! Three-dimensional points over any ordered coordinate type.

use vstd::prelude::*;
use vstd::std_specs::cmp::{OrdSpec, PartialOrdSpec};
use core::cmp::Ordering;
use crate::cube::Cube;

verus! {

/// A point with three coordinates of the same type.
#[derive(Default, PartialEq, Eq, Hash, Clone, Debug)]
pub struct Point3D<T: Copy> {
    pub x: T,
    pub y: T,
    pub z: T,
}

/// The smaller of two values, and the first where neither is smaller.
pub open spec fn spec_min_of<T: Ord>(a: T, b: T) -> T {
    match b.cmp_spec(&a) {
        Ordering::Less => b,
        _ => a,
    }
}

/// The larger of two values, and the second where neither is larger.
pub open spec fn spec_max_of<T: Ord>(a: T, b: T) -> T {
    match b.cmp_spec(&a) {
        Ordering::Less => a,
        _ => b,
    }
}

/// Whether `a` is at most `b`.
pub open spec fn spec_at_most<T: Ord>(a: T, b: T) -> bool {
    a.partial_cmp_spec(&b) matches Some(Ordering::Less | Ordering::Equal)
}

impl<T: Copy + Ord> Point3D<T> {
    /// The point whose every coordinate is the smaller of the two.
    pub fn min(&self, other: &Point3D<T>) -> (r: Self)
        ensures
            T::obeys_cmp_spec() ==> r.x == spec_min_of(self.x, other.x),
            T::obeys_cmp_spec() ==> r.y == spec_min_of(self.y, other.y),
            T::obeys_cmp_spec() ==> r.z == spec_min_of(self.z, other.z),
    {
        Point3D { x: self.x.min(other.x), y: self.y.min(other.y), z: self.z.min(other.z) }
    }

    /// The point whose every coordinate is the larger of the two.
    pub fn max(&self, other: &Point3D<T>) -> (r: Self)
        ensures
            T::obeys_cmp_spec() ==> r.x == spec_max_of(self.x, other.x),
            T::obeys_cmp_spec() ==> r.y == spec_max_of(self.y, other.y),
            T::obeys_cmp_spec() ==> r.z == spec_max_of(self.z, other.z),
    {
        Point3D { x: self.x.max(other.x), y: self.y.max(other.y), z: self.z.max(other.z) }
    }

    /// The two corners of the smallest box that holds both points.
    pub fn min_max(&self, other: &Point3D<T>) -> (r: (Self, Self))
        ensures
            T::obeys_cmp_spec() ==> r.0.x == spec_min_of(self.x, other.x),
            T::obeys_cmp_spec() ==> r.0.y == spec_min_of(self.y, other.y),
            T::obeys_cmp_spec() ==> r.0.z == spec_min_of(self.z, other.z),
            T::obeys_cmp_spec() ==> r.1.x == spec_max_of(self.x, other.x),
            T::obeys_cmp_spec() ==> r.1.y == spec_max_of(self.y, other.y),
            T::obeys_cmp_spec() ==> r.1.z == spec_max_of(self.z, other.z),
    {
        (self.min(other), self.max(other))
    }

    /// Whether the point lies in the box, its faces included.
    pub fn is_inside_of_cube(&self, cube: &Cube<T>) -> (r: bool)
        ensures
            T::obeys_partial_cmp_spec() ==> r == (spec_at_most(cube.min.x, self.x) && spec_at_most(
                self.x,
                cube.max.x,
            ) && spec_at_most(cube.min.y, self.y) && spec_at_most(self.y, cube.max.y)
                && spec_at_most(cube.min.z, self.z) && spec_at_most(self.z, cube.max.z)),
    {
        cube.min.x <= self.x && self.x <= cube.max.x && cube.min.y <= self.y && self.y
            <= cube.max.y && cube.min.z <= self.z && self.z <= cube.max.z
    }
}

} // verus!
