//! A fast and simple meshing algorithm that produces a single quad for every
//! visible face of a block.

use vstd::prelude::*;

use crate::bounds::{assert_in_bounds, extent_valid, in_bounds, MeshError};
use crate::buffer::UnitQuadBuffer;
use crate::geometry::face::OrientedBlockFace;
use crate::geometry::quad::UnorientedUnitQuad;
use crate::shape::{
    coord_get, coord_set, in_dims, linearize_spec, pt, raster_lt, size_spec, Coord, GridShape,
};
use crate::visibility::{face_visible, in_interior, lemma_interior_in_dims, neighbor_coord};
use crate::{Voxel, VoxelFrom, VoxelVisibility};

verus! {

/// Whether one emitted unit quad is right for its face: its cell lies in the
/// interior of the query region, that cell's face really is visible, and the
/// quad carries the voxel that produced it.
pub open spec fn unit_quad_ok<T: Voxel + Copy>(
    vox: Seq<T>,
    dims: [u32; 3],
    min: [u32; 3],
    max: [u32; 3],
    face: OrientedBlockFace,
    q: UnorientedUnitQuad<T>,
) -> bool {
    &&& in_interior(min, max, pt(q.minimum))
    &&& face_visible(vox, dims, face, pt(q.minimum))
    &&& q.voxel == vox[linearize_spec(dims, pt(q.minimum))]
}

/// What [`visible_block_faces`] guarantees of the quads it appends to one
/// face's group: every entry is a visible interior cell, the entries come in
/// strictly increasing raster order (so no cell appears twice), and every
/// visible interior cell appears.
pub open spec fn simple_face_valid<T: Voxel + Copy>(
    vox: Seq<T>,
    dims: [u32; 3],
    min: [u32; 3],
    max: [u32; 3],
    face: OrientedBlockFace,
    qs: Seq<UnorientedUnitQuad<T>>,
) -> bool {
    &&& forall|k: int|
        0 <= k < qs.len() ==> unit_quad_ok(vox, dims, min, max, face, #[trigger] qs[k])
    &&& forall|k1: int, k2: int|
        0 <= k1 < k2 < qs.len() ==> raster_lt(
            pt(#[trigger] qs[k1].minimum),
            pt(#[trigger] qs[k2].minimum),
        )
    &&& forall|c: Coord|
        in_interior(min, max, c) && #[trigger] face_visible(vox, dims, face, c) ==> exists|k: int|
            0 <= k < qs.len() && pt(#[trigger] qs[k].minimum) == c
}

/// Whether `new_g` extends `old_g` by exactly the quads that
/// [`visible_block_faces`] owes one face.
pub open spec fn simple_group_extended<T: Voxel + Copy>(
    vox: Seq<T>,
    dims: [u32; 3],
    min: [u32; 3],
    max: [u32; 3],
    face: OrientedBlockFace,
    old_g: Seq<UnorientedUnitQuad<T>>,
    new_g: Seq<UnorientedUnitQuad<T>>,
) -> bool {
    &&& new_g.len() >= old_g.len()
    &&& new_g.subrange(0, old_g.len() as int) == old_g
    &&& simple_face_valid(vox, dims, min, max, face, new_g.skip(old_g.len() as int))
}

/// The voxel sequence a view type `V` reads out of a stored buffer.
pub open spec fn viewed<T, V: VoxelFrom<T>>(vox: Seq<T>) -> Seq<V> {
    vox.map_values(|t: T| V::view_spec(t))
}

/// The sweep invariant of one face's pass: the group's old contents are a
/// prefix; the appended quads are valid, raster-ordered and all rastered
/// before the marker `m`; and every visible interior cell rastered before
/// `m` has been appended.
spec fn sweep_inv<T: Voxel + Copy>(
    vox: Seq<T>,
    dims: [u32; 3],
    min: [u32; 3],
    max: [u32; 3],
    face: OrientedBlockFace,
    old_g: Seq<UnorientedUnitQuad<T>>,
    g: Seq<UnorientedUnitQuad<T>>,
    m: Coord,
) -> bool {
    &&& g.len() >= old_g.len()
    &&& g.subrange(0, old_g.len() as int) == old_g
    &&& forall|k: int|
        old_g.len() <= k < g.len() ==> unit_quad_ok(vox, dims, min, max, face, #[trigger] g[k])
    &&& forall|k: int| old_g.len() <= k < g.len() ==> raster_lt(pt(#[trigger] g[k].minimum), m)
    &&& forall|k1: int, k2: int|
        old_g.len() <= k1 < k2 < g.len() ==> raster_lt(
            pt(#[trigger] g[k1].minimum),
            pt(#[trigger] g[k2].minimum),
        )
    &&& forall|c: Coord|
        in_interior(min, max, c) && raster_lt(c, m) && #[trigger] face_visible(vox, dims, face, c)
            ==> exists|k: int|
            old_g.len() <= k < g.len() && pt(#[trigger] g[k].minimum) == c
}

/// Sweeps the interior of `[min, max]` for one face and appends a unit quad
/// for every cell whose face, read through the view `V`, is visible, in
/// raster order.
fn simple_quads_for_face<T: Copy, V: VoxelFrom<T> + Copy>(
    voxels: &[T],
    shape: &GridShape,
    min: [u32; 3],
    max: [u32; 3],
    face: &OrientedBlockFace,
    group: &mut Vec<UnorientedUnitQuad<V>>,
)
    requires
        in_bounds(voxels@.len() as int, shape.dims_spec(), min, max),
    ensures
        simple_group_extended(
            viewed::<T, V>(voxels@),
            shape.dims_spec(),
            min,
            max,
            *face,
            old(group)@,
            final(group)@,
        ),
{
    let ghost dims = shape.dims_spec();
    let ghost old_g = old(group)@;
    let ghost vvox: Seq<V> = viewed::<T, V>(voxels@);
    let axes = face.permutation.axes();
    let n_axis = axes[0];
    proof {
        assert(group@.subrange(0, old_g.len() as int) =~= old_g);
    }
    let mut z = min[2] + 1;
    while z < max[2]
        invariant
            in_bounds(voxels@.len() as int, shape.dims_spec(), min, max),
            vvox == viewed::<T, V>(voxels@),
            dims == shape.dims_spec(),
            n_axis == face.n_axis(),
            min[2] + 1 <= z <= max[2],
            sweep_inv(
                vvox,
                dims,
                min,
                max,
                *face,
                old_g,
                group@,
                (min[0] + 1 as int, min[1] + 1 as int, z as int),
            ),
        decreases max[2] - z,
    {
        let mut y = min[1] + 1;
        while y < max[1]
            invariant
                in_bounds(voxels@.len() as int, shape.dims_spec(), min, max),
                vvox == viewed::<T, V>(voxels@),
                dims == shape.dims_spec(),
                n_axis == face.n_axis(),
                min[2] + 1 <= z < max[2],
                min[1] + 1 <= y <= max[1],
                sweep_inv(
                    vvox,
                    dims,
                    min,
                    max,
                    *face,
                    old_g,
                    group@,
                    (min[0] + 1 as int, y as int, z as int),
                ),
            decreases max[1] - y,
        {
            let mut x = min[0] + 1;
            while x < max[0]
                invariant
                    in_bounds(voxels@.len() as int, shape.dims_spec(), min, max),
                    vvox == viewed::<T, V>(voxels@),
                    dims == shape.dims_spec(),
                    n_axis == face.n_axis(),
                    min[2] + 1 <= z < max[2],
                    min[1] + 1 <= y < max[1],
                    min[0] + 1 <= x <= max[0],
                    sweep_inv(
                        vvox,
                        dims,
                        min,
                        max,
                        *face,
                        old_g,
                        group@,
                        (x as int, y as int, z as int),
                    ),
                decreases max[0] - x,
            {
                let p = [x, y, z];
                proof {
                    lemma_interior_in_dims(dims, min, max, *face, pt(p));
                    crate::shape::lemma_linearize_bound(dims, pt(p));
                    crate::shape::lemma_linearize_bound(dims, neighbor_coord(*face, pt(p)));
                }
                let idx = shape.linearize(p);
                let p_voxel = V::from_voxel(&voxels[idx as usize]);
                proof {
                    assert(p_voxel == vvox[idx as int]);
                }
                let vis = p_voxel.get_visibility();
                if vis != VoxelVisibility::Empty {
                    let pn = coord_get(p, n_axis);
                    let np = if face.n_sign_positive {
                        coord_set(p, n_axis, pn + 1)
                    } else {
                        coord_set(p, n_axis, pn - 1)
                    };
                    let nidx = shape.linearize(np);
                    let n_voxel = V::from_voxel(&voxels[nidx as usize]);
                    proof {
                        assert(n_voxel == vvox[nidx as int]);
                    }
                    let n_vis = n_voxel.get_visibility();
                    let needs_mesh = match n_vis {
                        VoxelVisibility::Empty => true,
                        VoxelVisibility::Translucent => vis == VoxelVisibility::Opaque,
                        VoxelVisibility::Opaque => false,
                    };
                    if needs_mesh {
                        let ghost before = group@;
                        group.push(UnorientedUnitQuad { minimum: p, voxel: p_voxel });
                        proof {
                            lemma_after_push(
                                vvox,
                                dims,
                                min,
                                max,
                                *face,
                                old_g,
                                before,
                                group@,
                                (x as int, y as int, z as int),
                            );
                        }
                    } else {
                        assert(!face_visible(vvox, dims, *face, pt(p)));
                    }
                } else {
                    assert(!face_visible(vvox, dims, *face, pt(p)));
                }
                x = x + 1;
            }
            y = y + 1;
        }
        z = z + 1;
    }
    proof {
        lemma_sweep_complete(vvox, dims, min, max, *face, old_g, group@);
    }
}

/// After one push of the quad for the marker cell itself, the sweep
/// invariant advances to the next raster cell.
proof fn lemma_after_push<T: Voxel + Copy>(
    vox: Seq<T>,
    dims: [u32; 3],
    min: [u32; 3],
    max: [u32; 3],
    face: OrientedBlockFace,
    old_g: Seq<UnorientedUnitQuad<T>>,
    before: Seq<UnorientedUnitQuad<T>>,
    after: Seq<UnorientedUnitQuad<T>>,
    m: Coord,
)
    requires
        sweep_inv(vox, dims, min, max, face, old_g, before, m),
        after == before.push(
            UnorientedUnitQuad { minimum: [m.0 as u32, m.1 as u32, m.2 as u32], voxel: vox[linearize_spec(dims, m)] },
        ),
        in_interior(min, max, m),
        face_visible(vox, dims, face, m),
        0 <= m.0 <= u32::MAX && 0 <= m.1 <= u32::MAX && 0 <= m.2 <= u32::MAX,
    ensures
        sweep_inv(vox, dims, min, max, face, old_g, after, (m.0 + 1, m.1, m.2)),
{
    let m2 = (m.0 + 1, m.1, m.2);
    assert(after.subrange(0, old_g.len() as int) =~= old_g);
    let q = after[after.len() - 1];
    assert(pt(q.minimum) == m);
    assert forall|c: Coord|
        in_interior(min, max, c) && raster_lt(c, m2) && #[trigger] face_visible(
            vox,
            dims,
            face,
            c,
        ) implies exists|k: int|
        old_g.len() <= k < after.len() && pt(#[trigger] after[k].minimum) == c by {
        if c == m {
            assert(pt(after[after.len() - 1].minimum) == c);
        } else {
            assert(raster_lt(c, m));
            let k0 = choose|k0: int|
                old_g.len() <= k0 < before.len() && pt(#[trigger] before[k0].minimum) == c;
            assert(after[k0] == before[k0]);
            assert(pt(after[k0].minimum) == c);
        }
    }
}

/// At the end of the sweep everything rastered before the final marker has
/// been emitted, which is the whole interior: the appended entries form a
/// valid simple group.
proof fn lemma_sweep_complete<T: Voxel + Copy>(
    vox: Seq<T>,
    dims: [u32; 3],
    min: [u32; 3],
    max: [u32; 3],
    face: OrientedBlockFace,
    old_g: Seq<UnorientedUnitQuad<T>>,
    g: Seq<UnorientedUnitQuad<T>>,
)
    requires
        min[2] < max[2],
        sweep_inv(
            vox,
            dims,
            min,
            max,
            face,
            old_g,
            g,
            (min[0] + 1 as int, min[1] + 1 as int, max[2] as int),
        ),
    ensures
        simple_group_extended(vox, dims, min, max, face, old_g, g),
{
    let m = (min[0] + 1 as int, min[1] + 1 as int, max[2] as int);
    let sk = g.skip(old_g.len() as int);
    assert forall|k: int| 0 <= k < sk.len() implies unit_quad_ok(
        vox,
        dims,
        min,
        max,
        face,
        #[trigger] sk[k],
    ) by {
        assert(sk[k] == g[old_g.len() + k]);
    }
    assert forall|k1: int, k2: int| 0 <= k1 < k2 < sk.len() implies raster_lt(
        pt(#[trigger] sk[k1].minimum),
        pt(#[trigger] sk[k2].minimum),
    ) by {
        assert(sk[k1] == g[old_g.len() + k1]);
        assert(sk[k2] == g[old_g.len() + k2]);
    }
    assert forall|c: Coord|
        in_interior(min, max, c) && #[trigger] face_visible(vox, dims, face, c) implies exists|
        k: int,
    | 0 <= k < sk.len() && pt(#[trigger] sk[k].minimum) == c by {
        assert(raster_lt(c, m));
        assert(exists|k0: int|
            old_g.len() <= k0 < g.len() && pt(#[trigger] g[k0].minimum) == c);
        let k0 = choose|k0: int|
            old_g.len() <= k0 < g.len() && pt(#[trigger] g[k0].minimum) == c;
        assert(sk[k0 - old_g.len()] == g[k0]);
        assert(pt(sk[k0 - old_g.len()].minimum) == c);
    }
}

/// A fast and simple meshing algorithm that produces a single quad for every
/// visible face of a block in the interior of `[min, max]`.
///
/// This is faster than [`greedy_quads`](crate::greedy_quads) but it produces
/// many more quads.  The quads for each face are appended to that face's
/// group of `output` in raster order; exactly the visible interior cells are
/// emitted, and inputs that fail the precondition check are rejected without
/// touching `output`.
pub fn visible_block_faces<T: Voxel + Copy>(
    voxels: &[T],
    voxels_shape: &GridShape,
    min: [u32; 3],
    max: [u32; 3],
    faces: &[OrientedBlockFace; 6],
    output: &mut UnitQuadBuffer<T>,
) -> (r: Result<(), MeshError>)
    ensures
        r is Ok <==> in_bounds(voxels@.len() as int, voxels_shape.dims_spec(), min, max),
        r == Err::<(), MeshError>(MeshError::BufferTooSmall) <==> voxels@.len() < size_spec(
            voxels_shape.dims_spec(),
        ),
        r == Err::<(), MeshError>(MeshError::InvalidExtent) <==> (voxels@.len() >= size_spec(
            voxels_shape.dims_spec(),
        ) && !extent_valid(voxels_shape.dims_spec(), min, max)),
        r is Err ==> *final(output) == *old(output),
        r is Ok ==> forall|f: int|
            0 <= f < 6 ==> simple_group_extended(
                voxels@,
                voxels_shape.dims_spec(),
                min,
                max,
                faces[f],
                old(output).groups[f]@,
                final(output).groups[f]@,
            ),
{
    let r = visible_block_faces_with_voxel_view::<T, T>(
        voxels,
        voxels_shape,
        min,
        max,
        faces,
        output,
    );
    proof {
        lemma_viewed_by_self(voxels@);
    }
    r
}

/// Every voxel type views a buffer of itself unchanged.
proof fn lemma_viewed_by_self<T: Voxel + Copy>(vox: Seq<T>)
    ensures
        viewed::<T, T>(vox) == vox,
{
    assert forall|i: int| 0 <= i < vox.len() implies viewed::<T, T>(vox)[i] == vox[i] by {
        lemma_view_spec_self::<T>(vox[i]);
    }
    assert(viewed::<T, T>(vox) =~= vox);
}

/// The blanket identity view reads each value back unchanged.
proof fn lemma_view_spec_self<T: Voxel + Copy>(t: T)
    ensures
        <T as VoxelFrom<T>>::view_spec(t) == t,
{
}

/// Same as [`visible_block_faces`], with the additional ability to
/// interpret the stored values as some other voxel type.  Use this to mesh
/// the same buffer multiple times with different sets of voxels being
/// visible.
///
/// The emitted quads are exactly the visible interior cells of the buffer
/// as read through the view `V`, in raster order per face group.
pub fn visible_block_faces_with_voxel_view<T: Copy, V: VoxelFrom<T> + Copy>(
    voxels: &[T],
    voxels_shape: &GridShape,
    min: [u32; 3],
    max: [u32; 3],
    faces: &[OrientedBlockFace; 6],
    output: &mut UnitQuadBuffer<V>,
) -> (r: Result<(), MeshError>)
    ensures
        r is Ok <==> in_bounds(voxels@.len() as int, voxels_shape.dims_spec(), min, max),
        r == Err::<(), MeshError>(MeshError::BufferTooSmall) <==> voxels@.len() < size_spec(
            voxels_shape.dims_spec(),
        ),
        r == Err::<(), MeshError>(MeshError::InvalidExtent) <==> (voxels@.len() >= size_spec(
            voxels_shape.dims_spec(),
        ) && !extent_valid(voxels_shape.dims_spec(), min, max)),
        r is Err ==> *final(output) == *old(output),
        r is Ok ==> forall|f: int|
            0 <= f < 6 ==> simple_group_extended(
                viewed::<T, V>(voxels@),
                voxels_shape.dims_spec(),
                min,
                max,
                faces[f],
                old(output).groups[f]@,
                final(output).groups[f]@,
            ),
{
    match assert_in_bounds(voxels, voxels_shape, min, max) {
        Err(e) => {
            return Err(e);
        },
        Ok(()) => {},
    }
    simple_quads_for_face::<T, V>(voxels, voxels_shape, min, max, &faces[0], &mut output.groups[0]);
    simple_quads_for_face::<T, V>(voxels, voxels_shape, min, max, &faces[1], &mut output.groups[1]);
    simple_quads_for_face::<T, V>(voxels, voxels_shape, min, max, &faces[2], &mut output.groups[2]);
    simple_quads_for_face::<T, V>(voxels, voxels_shape, min, max, &faces[3], &mut output.groups[3]);
    simple_quads_for_face::<T, V>(voxels, voxels_shape, min, max, &faces[4], &mut output.groups[4]);
    simple_quads_for_face::<T, V>(voxels, voxels_shape, min, max, &faces[5], &mut output.groups[5]);
    Ok(())
}

} // verus!
