//! Bounding boxes in WGS84 degrees.

use core::ops::{Add, Sub};
use vstd::prelude::*;
use vstd::std_specs::ops::{AddSpec, SubSpec};

verus! {

/// A rectangular filter region, four coordinates in degrees.
///
/// `C` is the number type the engine speaks. The box is a plain value: it
/// enforces nothing, so `west` may exceed `east`, and the engine alone decides
/// what a degenerate box means.
#[derive(Debug, Clone, Copy, PartialEq)]
pub struct BoundingBox<C> {
    pub west: C,
    pub south: C,
    pub east: C,
    pub north: C,
}

impl<C> BoundingBox<C> {
    /// The box with the given edges, taken as they are.
    pub fn new(west: C, south: C, east: C, north: C) -> (bbox: Self)
        ensures
            bbox.west == west,
            bbox.south == south,
            bbox.east == east,
            bbox.north == north,
    {
        BoundingBox { west, south, east, north }
    }
}

impl<C: Copy + Add<Output = C> + Sub<Output = C>> BoundingBox<C> {
    /// The square box around `(lon, lat)` that reaches `radius_deg` degrees in
    /// each direction. The radius is in coordinate degrees, not a distance on
    /// the ground.
    pub fn from_center(lon: C, lat: C, radius_deg: C) -> (bbox: Self)
        requires
            lon.sub_req(radius_deg),
            lat.sub_req(radius_deg),
            lon.add_req(radius_deg),
            lat.add_req(radius_deg),
        ensures
            C::obeys_sub_spec() ==> bbox.west == lon.sub_spec(radius_deg),
            C::obeys_sub_spec() ==> bbox.south == lat.sub_spec(radius_deg),
            C::obeys_add_spec() ==> bbox.east == lon.add_spec(radius_deg),
            C::obeys_add_spec() ==> bbox.north == lat.add_spec(radius_deg),
    {
        BoundingBox {
            west: lon - radius_deg,
            south: lat - radius_deg,
            east: lon + radius_deg,
            north: lat + radius_deg,
        }
    }
}

} // verus!
