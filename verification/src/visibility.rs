//! The face visibility rule shared by both meshing algorithms.

use vstd::prelude::*;

use crate::geometry::face::OrientedBlockFace;
use crate::shape::{axis_shift, in_dims, linearize_spec, size_spec, Coord};
use crate::{Voxel, VoxelVisibility};

verus! {

/// The cell on the other side of the face of `c` being considered: one step
/// along the face's normal axis, in the direction of its sign.
pub open spec fn neighbor_coord(face: OrientedBlockFace, c: Coord) -> Coord {
    axis_shift(c, face.n_axis(), face.sign_int())
}

/// Whether the cell at `c` shows a visible face toward `face`'s direction:
/// the cell itself must produce geometry, and the neighbour it faces must not
/// occlude it.  A face between two translucent cells is deliberately not
/// meshed, and an opaque neighbour occludes everything.
pub open spec fn face_visible<T: Voxel>(
    vox: Seq<T>,
    dims: [u32; 3],
    face: OrientedBlockFace,
    c: Coord,
) -> bool {
    let own = vox[linearize_spec(dims, c)].visibility();
    let nb = vox[linearize_spec(dims, neighbor_coord(face, c))].visibility();
    &&& own != VoxelVisibility::Empty
    &&& match nb {
        VoxelVisibility::Empty => true,
        VoxelVisibility::Translucent => own == VoxelVisibility::Opaque,
        VoxelVisibility::Opaque => false,
    }
}

/// Whether `c` lies in the interior of the query region `[min, max]`: the
/// region shrunk by one cell on every side, so that a one-cell halo is
/// available for neighbour lookups.
pub open spec fn in_interior(min: [u32; 3], max: [u32; 3], c: Coord) -> bool {
    &&& min[0] + 1 <= c.0 <= max[0] - 1
    &&& min[1] + 1 <= c.1 <= max[1] - 1
    &&& min[2] + 1 <= c.2 <= max[2] - 1
}

/// The cell `iu` steps along the face's U axis and `iv` steps along its V
/// axis from `base`: how a quad's rectangle is laid out on the face plane.
pub open spec fn cell_at(face: OrientedBlockFace, base: Coord, iu: int, iv: int) -> Coord {
    axis_shift(axis_shift(base, face.u_axis(), iu), face.v_axis(), iv)
}

/// Shifts along two distinct axes commute.
pub proof fn lemma_axis_shift_commutes(
    c: Coord,
    a1: crate::geometry::axis::Axis,
    d1: int,
    a2: crate::geometry::axis::Axis,
    d2: int,
)
    requires
        a1 != a2,
    ensures
        axis_shift(axis_shift(c, a1, d1), a2, d2) == axis_shift(axis_shift(c, a2, d2), a1, d1),
{
}

/// Every cell of a rectangle grown from an interior base cell within the
/// query region stays in the interior, and so does its facing neighbour.
pub proof fn lemma_cell_at_interior(
    dims: [u32; 3],
    min: [u32; 3],
    max: [u32; 3],
    face: OrientedBlockFace,
    base: Coord,
    w: int,
    h: int,
    iu: int,
    iv: int,
)
    requires
        crate::bounds::extent_valid(dims, min, max),
        in_interior(min, max, base),
        crate::shape::axis_val(base, face.u_axis()) + w <= crate::shape::axis_val(
            crate::shape::pt(max),
            face.u_axis(),
        ),
        crate::shape::axis_val(base, face.v_axis()) + h <= crate::shape::axis_val(
            crate::shape::pt(max),
            face.v_axis(),
        ),
        0 <= iu < w,
        0 <= iv < h,
    ensures
        in_interior(min, max, cell_at(face, base, iu, iv)),
        in_dims(dims, cell_at(face, base, iu, iv)),
        in_dims(dims, neighbor_coord(face, cell_at(face, base, iu, iv))),
{
    crate::geometry::axis::lemma_axes_distinct(face.permutation);
    lemma_interior_in_dims(dims, min, max, face, cell_at(face, base, iu, iv));
}

/// An interior cell, and its facing neighbour for any face, lie inside the
/// shape's dimensions.
pub proof fn lemma_interior_in_dims(
    dims: [u32; 3],
    min: [u32; 3],
    max: [u32; 3],
    face: OrientedBlockFace,
    c: Coord,
)
    requires
        crate::bounds::extent_valid(dims, min, max),
        in_interior(min, max, c),
    ensures
        in_dims(dims, c),
        in_dims(dims, neighbor_coord(face, c)),
{
}

} // verus!
