//! Ready-made voxel types for callers and tests that do not need a custom
//! voxel representation.

use vstd::prelude::*;

use crate::greedy::MergeVoxel;
use crate::{Voxel, VoxelVisibility};

verus! {

/// The simplest voxel: full or empty.  A full voxel is opaque, merges with
/// every other full voxel, and exposes one texture.
#[derive(Clone, Copy, Debug, Eq, PartialEq, Structural)]
pub struct BoolVoxel(pub bool);

impl Voxel for BoolVoxel {
    open spec fn visibility(&self) -> VoxelVisibility {
        if self.0 {
            VoxelVisibility::Opaque
        } else {
            VoxelVisibility::Empty
        }
    }

    fn get_visibility(&self) -> (v: VoxelVisibility) {
        if self.0 {
            VoxelVisibility::Opaque
        } else {
            VoxelVisibility::Empty
        }
    }
}

impl MergeVoxel for BoolVoxel {
    type MergeValue = bool;

    type MergeValueFacingNeighbour = bool;

    open spec fn merge_value_spec(&self) -> bool {
        self.0
    }

    open spec fn merge_value_facing_neighbour_spec(&self) -> bool {
        true
    }

    fn merge_value(&self) -> (v: bool) {
        self.0
    }

    fn merge_value_facing_neighbour(&self) -> (v: bool) {
        true
    }

    fn merge_values_equal(a: &bool, b: &bool) -> (r: bool) {
        *a == *b
    }

    fn merge_values_facing_neighbour_equal(a: &bool, b: &bool) -> (r: bool) {
        *a == *b
    }
}

impl crate::VoxelFrom<bool> for BoolVoxel {
    open spec fn view_spec(t: bool) -> BoolVoxel {
        BoolVoxel(t)
    }

    fn from_voxel(t: &bool) -> (v: BoolVoxel) {
        BoolVoxel(*t)
    }
}

/// A voxel with an explicit visibility class and a material identifier.
/// Quads only merge cells of equal material, and only across boundaries
/// whose facing neighbours have equal material.
#[derive(Clone, Copy, Debug, Eq, PartialEq, Structural)]
pub struct MaterialVoxel {
    /// The visibility class of the voxel.
    pub vis: VoxelVisibility,
    /// The material identifier that partitions greedy merges.
    pub material: u32,
}

impl Voxel for MaterialVoxel {
    open spec fn visibility(&self) -> VoxelVisibility {
        self.vis
    }

    fn get_visibility(&self) -> (v: VoxelVisibility) {
        self.vis
    }
}

impl MergeVoxel for MaterialVoxel {
    type MergeValue = u32;

    type MergeValueFacingNeighbour = u32;

    open spec fn merge_value_spec(&self) -> u32 {
        self.material
    }

    open spec fn merge_value_facing_neighbour_spec(&self) -> u32 {
        self.material
    }

    fn merge_value(&self) -> (v: u32) {
        self.material
    }

    fn merge_value_facing_neighbour(&self) -> (v: u32) {
        self.material
    }

    fn merge_values_equal(a: &u32, b: &u32) -> (r: bool) {
        *a == *b
    }

    fn merge_values_facing_neighbour_equal(a: &u32, b: &u32) -> (r: bool) {
        *a == *b
    }
}

} // verus!
