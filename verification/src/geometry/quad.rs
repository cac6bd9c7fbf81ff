//! The rectangles the meshing algorithms emit.

use vstd::prelude::*;

verus! {

/// The minimum voxel and size of a quad, without an orientation.  To get the
/// actual corners of the quad, combine it with an
/// [`OrientedBlockFace`](crate::OrientedBlockFace).
#[derive(Clone, Copy, Debug, Eq, PartialEq)]
pub struct UnorientedQuad<V: Copy> {
    /// The minimum voxel in the quad.
    pub minimum: [u32; 3],
    /// Width of the quad, along the face's U axis.
    pub width: u32,
    /// Height of the quad, along the face's V axis.
    pub height: u32,
    /// The voxel that produced the quad.
    pub voxel: V,
}

/// A quad covering a single voxel (just a single block face), without an
/// orientation.
#[derive(Clone, Copy, Debug, Eq, PartialEq)]
pub struct UnorientedUnitQuad<V: Copy> {
    /// The minimum voxel in the quad.
    pub minimum: [u32; 3],
    /// The voxel that produced the quad.
    pub voxel: V,
}

impl<V: Copy> From<UnorientedUnitQuad<V>> for UnorientedQuad<V> {
    /// Widens a unit quad into a 1-by-1 [`UnorientedQuad`].
    fn from(unit: UnorientedUnitQuad<V>) -> (q: Self) {
        UnorientedQuad { minimum: unit.minimum, width: 1, height: 1, voxel: unit.voxel }
    }
}

impl<V: Copy> vstd::std_specs::convert::FromSpecImpl<UnorientedUnitQuad<V>> for UnorientedQuad<V> {
    open spec fn obeys_from_spec() -> bool {
        true
    }

    open spec fn from_spec(unit: UnorientedUnitQuad<V>) -> Self {
        UnorientedQuad { minimum: unit.minimum, width: 1, height: 1, voxel: unit.voxel }
    }
}

} // verus!
