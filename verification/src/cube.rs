//! Axis-aligned boxes.

use vstd::prelude::*;
use vstd::std_specs::cmp::OrdSpec;
use crate::point::{Point3D, spec_max_of, spec_min_of};

verus! {

/// An axis-aligned box, given by its smallest and its largest corner.
pub struct Cube<T: Copy + Ord> {
    pub min: Point3D<T>,
    pub max: Point3D<T>,
}

impl<T: Copy + Ord> Cube<T> {
    /// The smallest box that holds both points, whichever way round they
    /// are given.
    pub fn from_points(min: Point3D<T>, max: Point3D<T>) -> (r: Self)
        ensures
            T::obeys_cmp_spec() ==> r.min.x == spec_min_of(min.x, max.x),
            T::obeys_cmp_spec() ==> r.min.y == spec_min_of(min.y, max.y),
            T::obeys_cmp_spec() ==> r.min.z == spec_min_of(min.z, max.z),
            T::obeys_cmp_spec() ==> r.max.x == spec_max_of(min.x, max.x),
            T::obeys_cmp_spec() ==> r.max.y == spec_max_of(min.y, max.y),
            T::obeys_cmp_spec() ==> r.max.z == spec_max_of(min.z, max.z),
    {
        let (min, max) = min.min_max(&max);
        Cube { min, max }
    }
}

} // verus!
