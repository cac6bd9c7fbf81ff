//! The pluggable policy that decides how far a greedy quad may grow.

use vstd::prelude::*;

use crate::geometry::face::OrientedBlockFace;
use crate::greedy::{face_needs_mesh, MergeVoxel};
use crate::shape::{
    axis_shift, axis_val, coord_get, coord_set, in_dims, linearize_spec, pt, size_spec,
    stride_spec, Coord, GridShape,
};
use crate::bounds::in_bounds;
use crate::visibility::{cell_at, face_visible, in_interior, neighbor_coord};
use crate::Voxel;

verus! {

/// The constant offset deltas of one cell of movement along a face's normal,
/// U and V axes, precomputed from the shape's linearization.  The sweep and
/// the merge strategies step through the flat buffer with these, using
/// checked arithmetic; bounds validation guarantees every step stays inside
/// the buffer.
pub struct FaceStrides {
    /// The offset delta of one step along the face's normal axis.
    pub n_stride: u32,
    /// The offset delta of one step along the face's U axis.
    pub u_stride: u32,
    /// The offset delta of one step along the face's V axis.
    pub v_stride: u32,
}

/// Whether `s` holds the strides of `face`'s axes under `dims`.
pub open spec fn strides_ok(dims: [u32; 3], face: OrientedBlockFace, s: FaceStrides) -> bool {
    &&& s.n_stride == stride_spec(dims, face.n_axis())
    &&& s.u_stride == stride_spec(dims, face.u_axis())
    &&& s.v_stride == stride_spec(dims, face.v_axis())
}

/// Whether the cell `c` may join a quad started at the cell `base` under
/// the built-in merge rule: the cell's face is visible, the cell has not
/// been claimed by an earlier quad, the cell's merge value matches the start
/// cell's, and the facing neighbours' merge values match as well.
pub open spec fn merge_grow_ok<T: MergeVoxel + Copy>(
    vox: Seq<T>,
    dims: [u32; 3],
    face: OrientedBlockFace,
    visited: Seq<bool>,
    base: Coord,
    c: Coord,
) -> bool {
    &&& face_visible(vox, dims, face, c)
    &&& !visited[linearize_spec(dims, c)]
    &&& vox[linearize_spec(dims, c)].merge_value_spec() == vox[linearize_spec(
        dims,
        base,
    )].merge_value_spec()
    &&& vox[linearize_spec(dims, neighbor_coord(face, c))].merge_value_facing_neighbour_spec()
        == vox[linearize_spec(
        dims,
        neighbor_coord(face, base),
    )].merge_value_facing_neighbour_spec()
}

/// A strategy for merging cube faces into quads.
///
/// [`find_quad`](MergeStrategy::find_quad) returns the width and height of
/// the quad to construct from a given start cell.  Its contract promises
/// that every cell of the returned rectangle is visible, unclaimed, and
/// accepted by [`can_merge`](MergeStrategy::can_merge) against the start
/// cell, and that neither the width nor the height could have grown further.
pub trait MergeStrategy {
    /// The voxel type the strategy merges.
    type Voxel: Voxel + Copy;

    /// Whether the cell voxel `c`, whose facing neighbour is `c_nb`, may
    /// join a quad started at the voxel `start`, whose facing neighbour is
    /// `start_nb`.
    spec fn can_merge(
        start: Self::Voxel,
        start_nb: Self::Voxel,
        c: Self::Voxel,
        c_nb: Self::Voxel,
    ) -> bool;

    /// Returns the width and height of the quad that should be constructed
    /// from the start cell `quad_min`, whose flat offset is `min_index`.
    ///
    /// `max_width` and `max_height` bound the quad so it stays inside the
    /// current slice of the interior of `[min, max]`.
    fn find_quad(
        voxels: &[Self::Voxel],
        visited: &Vec<bool>,
        shape: &GridShape,
        face: &OrientedBlockFace,
        strides: &FaceStrides,
        min: [u32; 3],
        max: [u32; 3],
        quad_min: [u32; 3],
        min_index: u32,
        max_width: u32,
        max_height: u32,
    ) -> (wh: (u32, u32))
        requires
            in_bounds(voxels@.len() as int, shape.dims_spec(), min, max),
            size_spec(shape.dims_spec()) <= u32::MAX,
            visited@.len() >= size_spec(shape.dims_spec()),
            strides_ok(shape.dims_spec(), *face, *strides),
            in_interior(min, max, pt(quad_min)),
            min_index == linearize_spec(shape.dims_spec(), pt(quad_min)),
            1 <= max_width,
            1 <= max_height,
            axis_val(pt(quad_min), face.u_axis()) + max_width <= axis_val(pt(max), face.u_axis()),
            axis_val(pt(quad_min), face.v_axis()) + max_height <= axis_val(
                pt(max),
                face.v_axis(),
            ),
            face_visible(voxels@, shape.dims_spec(), *face, pt(quad_min)),
            !visited@[min_index as int],
        ensures
            1 <= wh.0 <= max_width,
            1 <= wh.1 <= max_height,
            forall|iu: int, iv: int|
                0 <= iu < wh.0 && 0 <= iv < wh.1 ==> {
                    let c = #[trigger] cell_at(*face, pt(quad_min), iu, iv);
                    &&& face_visible(voxels@, shape.dims_spec(), *face, c)
                    &&& !visited@[linearize_spec(shape.dims_spec(), c)]
                    &&& Self::can_merge(
                        voxels@[linearize_spec(shape.dims_spec(), pt(quad_min))],
                        voxels@[linearize_spec(
                            shape.dims_spec(),
                            neighbor_coord(*face, pt(quad_min)),
                        )],
                        voxels@[linearize_spec(shape.dims_spec(), c)],
                        voxels@[linearize_spec(shape.dims_spec(), neighbor_coord(*face, c))],
                    )
                },
            wh.0 < max_width ==> ({
                let c = cell_at(*face, pt(quad_min), wh.0 as int, 0);
                !(face_visible(voxels@, shape.dims_spec(), *face, c) && !visited@[linearize_spec(
                    shape.dims_spec(),
                    c,
                )] && Self::can_merge(
                    voxels@[linearize_spec(shape.dims_spec(), pt(quad_min))],
                    voxels@[linearize_spec(
                        shape.dims_spec(),
                        neighbor_coord(*face, pt(quad_min)),
                    )],
                    voxels@[linearize_spec(shape.dims_spec(), c)],
                    voxels@[linearize_spec(shape.dims_spec(), neighbor_coord(*face, c))],
                ))
            }),
            wh.1 < max_height ==> exists|iu: int|
                0 <= iu < wh.0 && ({
                    let c = #[trigger] cell_at(*face, pt(quad_min), iu, wh.1 as int);
                    !(face_visible(voxels@, shape.dims_spec(), *face, c)
                        && !visited@[linearize_spec(shape.dims_spec(), c)] && Self::can_merge(
                        voxels@[linearize_spec(shape.dims_spec(), pt(quad_min))],
                        voxels@[linearize_spec(
                            shape.dims_spec(),
                            neighbor_coord(*face, pt(quad_min)),
                        )],
                        voxels@[linearize_spec(shape.dims_spec(), c)],
                        voxels@[linearize_spec(shape.dims_spec(), neighbor_coord(*face, c))],
                    ))
                }),
    ;
}

/// Computes the flat offset of the cell facing `c` across the face: one
/// stride along the normal axis, toward the normal's sign.
pub(crate) fn neighbor_index(
    idx: u32,
    n_stride: u32,
    face: &OrientedBlockFace,
    shape: &GridShape,
    Ghost(c): Ghost<Coord>,
) -> (r: u32)
    requires
        size_spec(shape.dims_spec()) <= u32::MAX,
        in_dims(shape.dims_spec(), c),
        in_dims(shape.dims_spec(), neighbor_coord(*face, c)),
        idx == linearize_spec(shape.dims_spec(), c),
        n_stride == stride_spec(shape.dims_spec(), face.n_axis()),
    ensures
        r == linearize_spec(shape.dims_spec(), neighbor_coord(*face, c)),
        r < size_spec(shape.dims_spec()),
{
    proof {
        let dims = shape.dims_spec();
        crate::shape::lemma_linearize_step(dims, c, face.n_axis(), face.sign_int());
        crate::shape::lemma_linearize_bound(dims, c);
        crate::shape::lemma_linearize_bound(dims, neighbor_coord(*face, c));
    }
    if face.n_sign_positive {
        idx + n_stride
    } else {
        idx - n_stride
    }
}

/// The built-in merge strategy: merges cells whose voxels share a merge
/// value and whose facing neighbours share a facing-neighbour merge value.
pub struct VoxelMerger<T> {
    marker: core::marker::PhantomData<T>,
}

impl<T: MergeVoxel + Copy> MergeStrategy for VoxelMerger<T> {
    type Voxel = T;

    open spec fn can_merge(start: T, start_nb: T, c: T, c_nb: T) -> bool {
        &&& c.merge_value_spec() == start.merge_value_spec()
        &&& c_nb.merge_value_facing_neighbour_spec() == start_nb.merge_value_facing_neighbour_spec()
    }

    fn find_quad(
        voxels: &[T],
        visited: &Vec<bool>,
        shape: &GridShape,
        face: &OrientedBlockFace,
        strides: &FaceStrides,
        min: [u32; 3],
        max: [u32; 3],
        quad_min: [u32; 3],
        min_index: u32,
        max_width: u32,
        max_height: u32,
    ) -> (wh: (u32, u32)) {
        let ghost dims = shape.dims_spec();
        let ghost base = pt(quad_min);
        proof {
            crate::geometry::axis::lemma_axes_distinct(face.permutation);
            crate::visibility::lemma_interior_in_dims(dims, min, max, *face, base);
            crate::shape::lemma_linearize_bound(dims, base);
            crate::shape::lemma_linearize_bound(dims, neighbor_coord(*face, base));
        }
        // Greedily search for the biggest visible quad whose merge values
        // all match the start cell's.
        let nb_index = neighbor_index(min_index, strides.n_stride, face, shape, Ghost(base));
        let quad_value = voxels[min_index as usize].merge_value();
        let quad_neighbour_value = voxels[nb_index as usize].merge_value_facing_neighbour();

        // Start by finding the widest quad in the U direction.
        let quad_width = Self::get_row_width(
            voxels,
            visited,
            shape,
            face,
            strides,
            &quad_value,
            &quad_neighbour_value,
            quad_min,
            min_index,
            max_width,
            Ghost(min),
            Ghost(max),
            Ghost(base),
        );
        proof {
            // The start cell itself satisfies the growth conditions, so the
            // first row cannot be empty: a zero width would contradict the
            // row walk's maximality at the start cell.
            assert(cell_at(*face, base, 0, 0) == base);
            assert(axis_shift(base, face.u_axis(), 0) == base);
            assert(merge_grow_ok::<T>(voxels@, dims, *face, visited@, base, base));
            assert(1 <= quad_width);
        }

        // Now see how tall we can make the quad in the V direction without
        // changing the width.
        let axes = face.permutation.axes();
        let v_axis = axes[2];
        let mut quad_height: u32 = 1;
        let mut row = coord_set(quad_min, v_axis, coord_get(quad_min, v_axis) + 1);
        proof {
                crate::geometry::axis::lemma_axes_distinct(face.permutation);
            crate::shape::lemma_linearize_step(dims, base, face.v_axis(), 1);
            assert(in_dims(dims, axis_shift(base, face.v_axis(), 1)));
            crate::shape::lemma_linearize_bound(dims, axis_shift(base, face.v_axis(), 1));
        }
        let mut row_index = min_index + strides.v_stride;
        let mut blocked = false;
        while quad_height < max_height && !blocked
            invariant
                in_bounds(voxels@.len() as int, dims, min, max),
                size_spec(dims) <= u32::MAX,
                visited@.len() >= size_spec(dims),
                dims == shape.dims_spec(),
                strides_ok(dims, *face, *strides),
                base == pt(quad_min),
                in_interior(min, max, base),
                axis_val(base, face.u_axis()) + max_width <= axis_val(pt(max), face.u_axis()),
                axis_val(base, face.v_axis()) + max_height <= axis_val(pt(max), face.v_axis()),
                quad_value == voxels@[linearize_spec(dims, base)].merge_value_spec(),
                quad_neighbour_value == voxels@[linearize_spec(
                    dims,
                    neighbor_coord(*face, base),
                )].merge_value_facing_neighbour_spec(),
                v_axis == face.v_axis(),
                1 <= quad_width <= max_width,
                1 <= quad_height <= max_height,
                pt(row) == axis_shift(base, face.v_axis(), quad_height as int),
                row_index == linearize_spec(dims, pt(row)),
                forall|iu: int, iv: int|
                    0 <= iu < quad_width && 0 <= iv < quad_height ==> merge_grow_ok::<T>(
                        voxels@,
                        dims,
                        *face,
                        visited@,
                        base,
                        #[trigger] cell_at(*face, base, iu, iv),
                    ),
                blocked ==> quad_height < max_height && exists|iu: int|
                    0 <= iu < quad_width && !merge_grow_ok::<T>(
                        voxels@,
                        dims,
                        *face,
                        visited@,
                        base,
                        #[trigger] cell_at(*face, base, iu, quad_height as int),
                    ),
            decreases max_height - quad_height + (if blocked {
                0int
            } else {
                1int
            }),
        {
            proof {
                crate::geometry::axis::lemma_axes_distinct(face.permutation);
                crate::visibility::lemma_cell_at_interior(
                    dims,
                    min,
                    max,
                    *face,
                    base,
                    1,
                    max_height as int,
                    0,
                    quad_height as int,
                );
                assert(cell_at(*face, base, 0, quad_height as int) == pt(row));
            }
            let row_width = Self::get_row_width(
                voxels,
                visited,
                shape,
                face,
                strides,
                &quad_value,
                &quad_neighbour_value,
                row,
                row_index,
                quad_width,
                Ghost(min),
                Ghost(max),
                Ghost(base),
            );
            if row_width < quad_width {
                proof {
                    let witness = axis_shift(pt(row), face.u_axis(), row_width as int);
                    crate::visibility::lemma_axis_shift_commutes(
                        base,
                        face.u_axis(),
                        row_width as int,
                        face.v_axis(),
                        quad_height as int,
                    );
                    assert(witness == cell_at(*face, base, row_width as int, quad_height as int));
                }
                blocked = true;
            } else {
                proof {
                    assert forall|iu: int, iv: int|
                        0 <= iu < quad_width && 0 <= iv < quad_height + 1 implies merge_grow_ok::<T>(
                        voxels@,
                        dims,
                        *face,
                        visited@,
                        base,
                        #[trigger] cell_at(*face, base, iu, iv),
                    ) by {
                        if iv == quad_height {
                            crate::visibility::lemma_axis_shift_commutes(
                                base,
                                face.u_axis(),
                                iu,
                                face.v_axis(),
                                quad_height as int,
                            );
                            assert(cell_at(*face, base, iu, iv) == axis_shift(
                                pt(row),
                                face.u_axis(),
                                iu,
                            ));
                        }
                    }
                                crate::shape::lemma_linearize_step(dims, pt(row), face.v_axis(), 1);
                    crate::visibility::lemma_cell_at_interior(
                        dims,
                        min,
                        max,
                        *face,
                        base,
                        1,
                        max_height as int,
                        0,
                        quad_height as int,
                    );
                    crate::shape::lemma_linearize_bound(
                        dims,
                        axis_shift(pt(row), face.v_axis(), 1),
                    );
                    assert(axis_shift(pt(row), face.v_axis(), 1) == axis_shift(
                        base,
                        face.v_axis(),
                        quad_height + 1,
                    ));
                    assert(in_dims(dims, axis_shift(pt(row), face.v_axis(), 1)));
                }
                quad_height = quad_height + 1;
                row = coord_set(row, v_axis, coord_get(row, v_axis) + 1);
                row_index = row_index + strides.v_stride;
            }
        }
        (quad_width, quad_height)
    }
}

impl<T: MergeVoxel + Copy> VoxelMerger<T> {
    /// Walks one row along the face's U axis, counting how many consecutive
    /// cells still satisfy the growth conditions against the quad's start
    /// cell, up to `max_width`.
    fn get_row_width(
        voxels: &[T],
        visited: &Vec<bool>,
        shape: &GridShape,
        face: &OrientedBlockFace,
        strides: &FaceStrides,
        quad_merge_voxel_value: &T::MergeValue,
        quad_merge_voxel_value_facing_neighbour: &T::MergeValueFacingNeighbour,
        row_start: [u32; 3],
        start_index: u32,
        max_width: u32,
        Ghost(min): Ghost<[u32; 3]>,
        Ghost(max): Ghost<[u32; 3]>,
        Ghost(base): Ghost<Coord>,
    ) -> (w: u32)
        requires
            in_bounds(voxels@.len() as int, shape.dims_spec(), min, max),
            size_spec(shape.dims_spec()) <= u32::MAX,
            visited@.len() >= size_spec(shape.dims_spec()),
            strides_ok(shape.dims_spec(), *face, *strides),
            in_interior(min, max, pt(row_start)),
            in_dims(shape.dims_spec(), base),
            in_dims(shape.dims_spec(), neighbor_coord(*face, base)),
            start_index == linearize_spec(shape.dims_spec(), pt(row_start)),
            1 <= max_width,
            axis_val(pt(row_start), face.u_axis()) + max_width <= axis_val(
                pt(max),
                face.u_axis(),
            ),
            *quad_merge_voxel_value == voxels@[linearize_spec(
                shape.dims_spec(),
                base,
            )].merge_value_spec(),
            *quad_merge_voxel_value_facing_neighbour == voxels@[linearize_spec(
                shape.dims_spec(),
                neighbor_coord(*face, base),
            )].merge_value_facing_neighbour_spec(),
        ensures
            w <= max_width,
            forall|k: int|
                0 <= k < w ==> merge_grow_ok::<T>(
                    voxels@,
                    shape.dims_spec(),
                    *face,
                    visited@,
                    base,
                    #[trigger] axis_shift(pt(row_start), face.u_axis(), k),
                ),
            w < max_width ==> !merge_grow_ok::<T>(
                voxels@,
                shape.dims_spec(),
                *face,
                visited@,
                base,
                axis_shift(pt(row_start), face.u_axis(), w as int),
            ),
    {
        let ghost dims = shape.dims_spec();
        let axes = face.permutation.axes();
        let u_axis = axes[1];
        let mut quad_width: u32 = 0;
        let mut cell = row_start;
        let mut row_index = start_index;
        let mut blocked = false;
        while quad_width < max_width && !blocked
            invariant
                in_bounds(voxels@.len() as int, dims, min, max),
                size_spec(dims) <= u32::MAX,
                visited@.len() >= size_spec(dims),
                dims == shape.dims_spec(),
                strides_ok(dims, *face, *strides),
                in_interior(min, max, pt(row_start)),
                in_dims(dims, base),
                in_dims(dims, neighbor_coord(*face, base)),
                u_axis == face.u_axis(),
                1 <= max_width,
                axis_val(pt(row_start), face.u_axis()) + max_width <= axis_val(
                    pt(max),
                    face.u_axis(),
                ),
                *quad_merge_voxel_value == voxels@[linearize_spec(
                    dims,
                    base,
                )].merge_value_spec(),
                *quad_merge_voxel_value_facing_neighbour == voxels@[linearize_spec(
                    dims,
                    neighbor_coord(*face, base),
                )].merge_value_facing_neighbour_spec(),
                0 <= quad_width <= max_width,
                pt(cell) == axis_shift(pt(row_start), face.u_axis(), quad_width as int),
                row_index == linearize_spec(dims, pt(cell)),
                forall|k: int|
                    0 <= k < quad_width ==> merge_grow_ok::<T>(
                        voxels@,
                        dims,
                        *face,
                        visited@,
                        base,
                        #[trigger] axis_shift(pt(row_start), face.u_axis(), k),
                    ),
                blocked ==> quad_width < max_width && !merge_grow_ok::<T>(
                    voxels@,
                    dims,
                    *face,
                    visited@,
                    base,
                    axis_shift(pt(row_start), face.u_axis(), quad_width as int),
                ),
            decreases max_width - quad_width + (if blocked {
                0int
            } else {
                1int
            }),
        {
            proof {
                crate::geometry::axis::lemma_axes_distinct(face.permutation);
                crate::visibility::lemma_cell_at_interior(
                    dims,
                    min,
                    max,
                    *face,
                    pt(row_start),
                    max_width as int,
                    1,
                    quad_width as int,
                    0,
                );
                assert(cell_at(*face, pt(row_start), quad_width as int, 0) == pt(cell));
                crate::shape::lemma_linearize_bound(dims, pt(cell));
                crate::shape::lemma_linearize_bound(dims, neighbor_coord(*face, pt(cell)));
            }
            let nb_index = neighbor_index(
                row_index,
                strides.n_stride,
                face,
                shape,
                Ghost(pt(cell)),
            );
            let voxel = voxels[row_index as usize];
            let neighbour = voxels[nb_index as usize];
            if !face_needs_mesh(
                voxels,
                visited,
                row_index,
                nb_index,
                Ghost(dims),
                Ghost(pt(cell)),
                Ghost(*face),
            ) {
                blocked = true;
            } else if !T::merge_values_equal(&voxel.merge_value(), quad_merge_voxel_value)
                || !T::merge_values_facing_neighbour_equal(
                &neighbour.merge_value_facing_neighbour(),
                quad_merge_voxel_value_facing_neighbour,
            ) {
                // The voxel needs to be non-empty and match the quad merge
                // value.
                blocked = true;
            } else {
                proof {
                                crate::shape::lemma_linearize_step(dims, pt(cell), face.u_axis(), 1);
                    assert(axis_shift(pt(cell), face.u_axis(), 1) == axis_shift(
                        pt(row_start),
                        face.u_axis(),
                        quad_width + 1,
                    ));
                    assert(in_dims(dims, axis_shift(pt(cell), face.u_axis(), 1)));
                    crate::shape::lemma_linearize_bound(
                        dims,
                        axis_shift(pt(cell), face.u_axis(), 1),
                    );
                }
                quad_width = quad_width + 1;
                cell = coord_set(cell, u_axis, coord_get(cell, u_axis) + 1);
                row_index = row_index + strides.u_stride;
            }
        }
        quad_width
    }
}

} // verus!
