//! Fast algorithms for generating voxel block meshes, with machine-checked
//! contracts.
//!
//! Two algorithms are included:
//! - [`visible_block_faces`]: emits one unit quad per visible block face.
//! - [`greedy_quads`]: merges adjacent faces of equal material into maximal
//!   rectangles, producing far fewer quads for the same covered area.
//!
//! Both algorithms run over a flat voxel buffer addressed through a
//! [`GridShape`] linearization, sweep only the interior of the caller's query
//! region (one cell of padding is kept for neighbour lookups), and write into
//! caller-owned, reusable output buffers.

use vstd::prelude::*;

mod bounds;
mod buffer;
mod geometry;
mod greedy;
mod properties;
mod shape;
mod simple;
mod visibility;
mod voxels;

pub use bounds::{assert_in_bounds, extent_valid, in_bounds, MeshError};
pub use buffer::{QuadBuffer, UnitQuadBuffer};
pub use geometry::axis::{Axis, AxisPermutation, SignedAxis};
pub use geometry::face::{quad_indices, OrientedBlockFace};
pub use geometry::quad::{UnorientedQuad, UnorientedUnitQuad};
pub use geometry::{right_handed_y_up_config, QuadCoordinateConfig};
pub use greedy::merge_strategy::{strides_ok, FaceStrides, MergeStrategy, VoxelMerger};
pub use greedy::{
    covered_by, greedy_face_valid, greedy_group_extended, greedy_quad_ok, greedy_quads,
    greedy_quads_with_merge_strategy, quad_covers, GreedyQuadsBuffer, MergeVoxel,
};
pub use properties::{
    greedy_covered_set, lemma_area_conservation, lemma_coverage_equivalence, lemma_empty_input,
    lemma_material_partitioning, lemma_translucent_pair_not_meshed, quad_cell_set, sum_areas,
    unit_cell_set, visible_cell_set,
};
pub use shape::GridShape;
pub use simple::{
    simple_face_valid, simple_group_extended, unit_quad_ok, viewed, visible_block_faces,
    visible_block_faces_with_voxel_view,
};
pub use visibility::{cell_at, face_visible, in_interior, neighbor_coord};
pub use voxels::{BoolVoxel, MaterialVoxel};

verus! {

/// Describes how a voxel influences mesh generation.
#[derive(Debug, Clone, Copy, PartialEq, Eq, Structural)]
pub enum VoxelVisibility {
    /// This voxel should not produce any geometry.
    Empty,
    /// Should produce geometry, and also light can pass through.
    Translucent,
    /// Light cannot pass through this voxel.
    Opaque,
}

/// Implement on your voxel types to inform the library how to generate
/// geometry for this voxel.
///
/// The specification-level [`Voxel::visibility`] pins down what the executable
/// [`Voxel::get_visibility`] returns, so that the meshing contracts can speak
/// about the visibility of every cell of a buffer.
pub trait Voxel {
    /// The visibility class of this voxel, as a specification-level value.
    spec fn visibility(&self) -> VoxelVisibility;

    /// Returns the visibility class of this voxel.
    fn get_visibility(&self) -> (v: VoxelVisibility)
        ensures
            v == self.visibility(),
    ;
}

/// A voxel view: how to read a stored value of type `T` as a voxel of type
/// `Self`.  Used to mesh the same buffer several times with different sets
/// of voxels considered visible.  Every voxel type views itself unchanged.
pub trait VoxelFrom<T>: Voxel + Sized {
    /// The voxel this view assigns to the stored value `t`.
    spec fn view_spec(t: T) -> Self;

    /// Builds the view voxel for the stored value `t`.
    fn from_voxel(t: &T) -> (v: Self)
        ensures
            v == Self::view_spec(*t),
    ;
}

impl<T: Voxel + Copy> VoxelFrom<T> for T {
    open spec fn view_spec(t: T) -> T {
        t
    }

    fn from_voxel(t: &T) -> (v: T) {
        *t
    }
}

} // verus!
