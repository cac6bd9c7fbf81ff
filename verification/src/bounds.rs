//! The precondition check run at entry to every meshing operation.

use vstd::prelude::*;

use crate::shape::{size_spec, GridShape};

verus! {

/// The two ways a meshing call can reject its inputs before touching any
/// buffer.
#[derive(Clone, Copy, Debug, Eq, PartialEq, Structural)]
pub enum MeshError {
    /// The declared shape's element count exceeds the voxel buffer length.
    BufferTooSmall,
    /// The shape's own dimensions or the query region have non-positive size
    /// on some axis, or the query region is not contained in the shape.
    InvalidExtent,
}

/// Whether the query region `[min, max]` has strictly positive size on every
/// axis and lies inside a grid with the dimensions `dims`, leaving the
/// one-cell halo the meshing kernels read.
pub open spec fn extent_valid(dims: [u32; 3], min: [u32; 3], max: [u32; 3]) -> bool {
    &&& min[0] < max[0] && max[0] < dims[0]
    &&& min[1] < max[1] && max[1] < dims[1]
    &&& min[2] < max[2] && max[2] < dims[2]
}

/// The full precondition of the meshing algorithms: the buffer covers the
/// shape, and the query region is a valid extent inside it.
pub open spec fn in_bounds(voxel_len: int, dims: [u32; 3], min: [u32; 3], max: [u32; 3]) -> bool {
    &&& size_spec(dims) <= voxel_len
    &&& extent_valid(dims, min, max)
}

/// Checks the preconditions shared by both meshing algorithms: the voxel
/// buffer must hold at least the shape's element count, and the query region
/// `[min, max]` must have positive size on every axis and stay inside the
/// shape's dimensions.
///
/// Returns exactly which precondition failed; the algorithms reject their
/// inputs with the same classification.
pub fn assert_in_bounds<T>(
    voxels: &[T],
    voxels_shape: &GridShape,
    min: [u32; 3],
    max: [u32; 3],
) -> (r: Result<(), MeshError>)
    ensures
        r is Ok <==> in_bounds(voxels@.len() as int, voxels_shape.dims_spec(), min, max),
        r == Err::<(), MeshError>(MeshError::BufferTooSmall) <==> (voxels@.len() < size_spec(
            voxels_shape.dims_spec(),
        )),
        r == Err::<(), MeshError>(MeshError::InvalidExtent) <==> (voxels@.len() >= size_spec(
            voxels_shape.dims_spec(),
        ) && !extent_valid(voxels_shape.dims_spec(), min, max)),
{
    let size = voxels_shape.size();
    if voxels.len() < size as usize {
        return Err(MeshError::BufferTooSmall);
    }
    let dims = voxels_shape.as_array();
    if min[0] < max[0] && max[0] < dims[0] && min[1] < max[1] && max[1] < dims[1] && min[2]
        < max[2] && max[2] < dims[2] {
        Ok(())
    } else {
        Err(MeshError::InvalidExtent)
    }
}

} // verus!
