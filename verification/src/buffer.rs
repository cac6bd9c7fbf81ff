//! Caller-owned, reusable output buffers for the meshing algorithms.

use vstd::prelude::*;

use crate::geometry::quad::{UnorientedQuad, UnorientedUnitQuad};

verus! {

/// Six independent groups of merged quads, one per block face.  We rely on
/// [`OrientedBlockFace`](crate::OrientedBlockFace) metadata to interpret
/// them; insertion order is the sweep discovery order.
pub struct QuadBuffer<V: Copy> {
    /// A group of quads for each block face.
    pub groups: [Vec<UnorientedQuad<V>>; 6],
}

impl<V: Copy> QuadBuffer<V> {
    /// The total quad count across all six groups.
    pub open spec fn total_quads(&self) -> nat {
        self.groups[0]@.len() + self.groups[1]@.len() + self.groups[2]@.len()
            + self.groups[3]@.len() + self.groups[4]@.len() + self.groups[5]@.len()
    }

    /// Builds a buffer with six empty groups.
    pub fn new() -> (b: Self)
        ensures
            forall|i: int| 0 <= i < 6 ==> b.groups[i]@.len() == 0,
    {
        QuadBuffer {
            groups: [Vec::new(), Vec::new(), Vec::new(), Vec::new(), Vec::new(), Vec::new()],
        }
    }

    /// Clears all six groups.
    pub fn reset(&mut self)
        ensures
            forall|i: int| 0 <= i < 6 ==> final(self).groups[i]@.len() == 0,
    {
        self.groups[0].clear();
        self.groups[1].clear();
        self.groups[2].clear();
        self.groups[3].clear();
        self.groups[4].clear();
        self.groups[5].clear();
    }

    /// Returns the total count of quads across all groups.
    pub fn num_quads(&self) -> (n: usize)
        requires
            self.total_quads() <= usize::MAX,
        ensures
            n == self.total_quads(),
    {
        self.groups[0].len() + self.groups[1].len() + self.groups[2].len()
            + self.groups[3].len() + self.groups[4].len() + self.groups[5].len()
    }
}

/// Six independent groups of unit quads, one per block face, as emitted by
/// [`visible_block_faces`](crate::visible_block_faces).
pub struct UnitQuadBuffer<V: Copy> {
    /// A group of unit quads for each block face.
    pub groups: [Vec<UnorientedUnitQuad<V>>; 6],
}

impl<V: Copy> UnitQuadBuffer<V> {
    /// The total quad count across all six groups.
    pub open spec fn total_quads(&self) -> nat {
        self.groups[0]@.len() + self.groups[1]@.len() + self.groups[2]@.len()
            + self.groups[3]@.len() + self.groups[4]@.len() + self.groups[5]@.len()
    }

    /// Builds a buffer with six empty groups.
    pub fn new() -> (b: Self)
        ensures
            forall|i: int| 0 <= i < 6 ==> b.groups[i]@.len() == 0,
    {
        UnitQuadBuffer {
            groups: [Vec::new(), Vec::new(), Vec::new(), Vec::new(), Vec::new(), Vec::new()],
        }
    }

    /// Clears all six groups.
    pub fn reset(&mut self)
        ensures
            forall|i: int| 0 <= i < 6 ==> final(self).groups[i]@.len() == 0,
    {
        self.groups[0].clear();
        self.groups[1].clear();
        self.groups[2].clear();
        self.groups[3].clear();
        self.groups[4].clear();
        self.groups[5].clear();
    }

    /// Returns the total count of quads across all groups.
    pub fn num_quads(&self) -> (n: usize)
        requires
            self.total_quads() <= usize::MAX,
        ensures
            n == self.total_quads(),
    {
        self.groups[0].len() + self.groups[1].len() + self.groups[2].len()
            + self.groups[3].len() + self.groups[4].len() + self.groups[5].len()
    }
}

} // verus!
