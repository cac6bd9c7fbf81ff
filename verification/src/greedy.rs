//! The greedy meshing engine: merges adjacent same-material visible faces
//! into maximal rectangles.

use vstd::prelude::*;

use crate::bounds::{assert_in_bounds, extent_valid, in_bounds, MeshError};
use crate::buffer::QuadBuffer;
use crate::geometry::face::OrientedBlockFace;
use crate::geometry::quad::UnorientedQuad;
use crate::shape::{
    axis_val, coord_get, coord_set, in_dims, linearize_spec, pt, size_spec, Coord, GridShape,
};
use crate::visibility::{cell_at, face_visible, in_interior, neighbor_coord};
use crate::{Voxel, VoxelVisibility};

pub mod merge_strategy;

use merge_strategy::{strides_ok, FaceStrides, MergeStrategy, VoxelMerger};

verus! {

/// Implement on voxel types that can participate in greedy merging.
///
/// The merge value partitions quads: two cells only land in the same quad
/// when their merge values agree, and when the values of the neighbours
/// their faces look at agree as well.  The specification-level functions pin
/// the executable ones down, and the equality deciders are what lets the
/// engine compare values of the associated types.
pub trait MergeVoxel: Voxel {
    /// The equality-comparable key that partitions greedy merges.  This
    /// value will be constant for all voxels in the same quad; often it is
    /// some material identifier so that the same texture can be used for a
    /// full quad.
    type MergeValue;

    /// The equality-comparable key describing what this voxel's occluded or
    /// occluding neighbour represents, used to prevent merging across
    /// differently-typed boundaries.
    type MergeValueFacingNeighbour;

    /// The merge value of this voxel, as a specification-level value.
    spec fn merge_value_spec(&self) -> Self::MergeValue;

    /// The facing-neighbour merge value of this voxel, as a
    /// specification-level value.
    spec fn merge_value_facing_neighbour_spec(&self) -> Self::MergeValueFacingNeighbour;

    /// Returns the value used to determine whether this voxel can join a
    /// given quad in the mesh.
    fn merge_value(&self) -> (v: Self::MergeValue)
        ensures
            v == self.merge_value_spec(),
    ;

    /// Returns the value compared across the boundary this voxel's face
    /// looks at.
    fn merge_value_facing_neighbour(&self) -> (v: Self::MergeValueFacingNeighbour)
        ensures
            v == self.merge_value_facing_neighbour_spec(),
    ;

    /// Decides equality of two merge values.
    fn merge_values_equal(a: &Self::MergeValue, b: &Self::MergeValue) -> (r: bool)
        ensures
            r == (a == b),
    ;

    /// Decides equality of two facing-neighbour merge values.
    fn merge_values_facing_neighbour_equal(
        a: &Self::MergeValueFacingNeighbour,
        b: &Self::MergeValueFacingNeighbour,
    ) -> (r: bool)
        ensures
            r == (a == b),
    ;
}

/// Returns true iff the face of the cell `c` (at flat offset `idx`, facing
/// the cell at flat offset `nidx`) still needs to be meshed: it has not been
/// claimed by an earlier quad, and it is visible under the rule of
/// [`face_visible`].
pub(crate) fn face_needs_mesh<T: Voxel + Copy>(
    voxels: &[T],
    visited: &Vec<bool>,
    idx: u32,
    nidx: u32,
    Ghost(dims): Ghost<[u32; 3]>,
    Ghost(c): Ghost<Coord>,
    Ghost(face): Ghost<OrientedBlockFace>,
) -> (r: bool)
    requires
        in_dims(dims, c),
        in_dims(dims, neighbor_coord(face, c)),
        idx == linearize_spec(dims, c),
        nidx == linearize_spec(dims, neighbor_coord(face, c)),
        voxels@.len() >= size_spec(dims),
        visited@.len() >= size_spec(dims),
    ensures
        r == (face_visible(voxels@, dims, face, c) && !visited@[idx as int]),
{
    proof {
        crate::shape::lemma_linearize_bound(dims, c);
        crate::shape::lemma_linearize_bound(dims, neighbor_coord(face, c));
    }
    let vis = voxels[idx as usize].get_visibility();
    if vis == VoxelVisibility::Empty || visited[idx as usize] {
        return false;
    }
    match voxels[nidx as usize].get_visibility() {
        VoxelVisibility::Empty => true,
        VoxelVisibility::Translucent => vis == VoxelVisibility::Opaque,
        VoxelVisibility::Opaque => false,
    }
}

/// Contains the output from the [`greedy_quads`] algorithm, plus the visited
/// bitmap the sweep reuses between calls to avoid reallocations.
pub struct GreedyQuadsBuffer<V: Copy> {
    /// The merged quads, grouped per face.
    pub quads: QuadBuffer<V>,
    /// A single array is used for the visited mask because it allows us to
    /// index by the same strides as the voxels array.  It also only requires
    /// a single allocation; the sweep re-zeroes it for every face.
    pub visited: Vec<bool>,
}

impl<V: Copy> GreedyQuadsBuffer<V> {
    /// Builds a buffer whose visited bitmap covers `size` voxels.
    pub fn new(size: usize) -> (b: Self)
        ensures
            forall|i: int| 0 <= i < 6 ==> b.quads.groups[i]@.len() == 0,
            b.visited@.len() == size,
    {
        GreedyQuadsBuffer { quads: QuadBuffer::new(), visited: filled_false(size) }
    }

    /// Clears the quad groups and resizes the visited bitmap to `size`
    /// voxels, reallocating it only when the size changed.
    pub fn reset(&mut self, size: usize)
        ensures
            forall|i: int| 0 <= i < 6 ==> final(self).quads.groups[i]@.len() == 0,
            final(self).visited@.len() == size,
    {
        self.quads.reset();

        if size != self.visited.len() {
            self.visited = filled_false(size);
        }
    }
}

/// Builds a vector of `n` `false` flags.
fn filled_false(n: usize) -> (v: Vec<bool>)
    ensures
        v@.len() == n,
        forall|i: int| 0 <= i < n ==> !v@[i],
{
    let mut v: Vec<bool> = Vec::new();
    let mut i: usize = 0;
    while i < n
        invariant
            i <= n,
            v@.len() == i,
            forall|j: int| 0 <= j < i ==> !v@[j],
        decreases n - i,
    {
        v.push(false);
        i = i + 1;
    }
    v
}

/// Whether one emitted greedy quad is right for its face under the merge
/// strategy `M`: it starts at an interior cell, its rectangle stays inside
/// the interior of `[min, max]`, it carries the voxel of its start cell, and
/// every cell it covers is a visible interior cell whose voxel pair the
/// strategy accepts against the start cell.
pub open spec fn greedy_quad_ok<M: MergeStrategy>(
    vox: Seq<M::Voxel>,
    dims: [u32; 3],
    min: [u32; 3],
    max: [u32; 3],
    face: OrientedBlockFace,
    q: UnorientedQuad<M::Voxel>,
) -> bool {
    let base = pt(q.minimum);
    &&& in_interior(min, max, base)
    &&& 1 <= q.width
    &&& 1 <= q.height
    &&& axis_val(base, face.u_axis()) + q.width <= axis_val(pt(max), face.u_axis())
    &&& axis_val(base, face.v_axis()) + q.height <= axis_val(pt(max), face.v_axis())
    &&& q.voxel == vox[linearize_spec(dims, base)]
    &&& forall|iu: int, iv: int|
        0 <= iu < q.width && 0 <= iv < q.height ==> {
            let c = #[trigger] cell_at(face, base, iu, iv);
            &&& in_interior(min, max, c)
            &&& face_visible(vox, dims, face, c)
            &&& M::can_merge(
                vox[linearize_spec(dims, base)],
                vox[linearize_spec(dims, neighbor_coord(face, base))],
                vox[linearize_spec(dims, c)],
                vox[linearize_spec(dims, neighbor_coord(face, c))],
            )
        }
}

/// Whether the quad `q`, interpreted on `face`, covers the cell `c`.
pub open spec fn quad_covers<V: Copy>(face: OrientedBlockFace, q: UnorientedQuad<V>, c: Coord) -> bool {
    exists|iu: int, iv: int|
        0 <= iu < q.width && 0 <= iv < q.height && c == #[trigger] cell_at(face, pt(q.minimum), iu, iv)
}

/// Whether some quad of `qs` with index at least `lo` covers the cell `c`.
pub open spec fn covered_by<V: Copy>(
    face: OrientedBlockFace,
    qs: Seq<UnorientedQuad<V>>,
    lo: int,
    c: Coord,
) -> bool {
    exists|k: int| lo <= k < qs.len() && quad_covers(face, #[trigger] qs[k], c)
}

/// What [`greedy_quads`] guarantees of the quads it emits into one face's
/// group: every quad is a valid merged rectangle under the strategy `M`,
/// no two quads overlap, and together they cover exactly the visible
/// interior cells of that face.
pub open spec fn greedy_face_valid<M: MergeStrategy>(
    vox: Seq<M::Voxel>,
    dims: [u32; 3],
    min: [u32; 3],
    max: [u32; 3],
    face: OrientedBlockFace,
    qs: Seq<UnorientedQuad<M::Voxel>>,
) -> bool {
    &&& forall|k: int|
        0 <= k < qs.len() ==> greedy_quad_ok::<M>(vox, dims, min, max, face, #[trigger] qs[k])
    &&& forall|k1: int, k2: int, c: Coord|
        #![trigger quad_covers(face, qs[k1], c), quad_covers(face, qs[k2], c)]
        0 <= k1 < k2 < qs.len() ==> !(quad_covers(face, qs[k1], c) && quad_covers(
            face,
            qs[k2],
            c,
        ))
    &&& forall|c: Coord|
        in_interior(min, max, c) && #[trigger] face_visible(vox, dims, face, c) ==> covered_by(
            face,
            qs,
            0,
            c,
        )
}

/// Whether the pair `(a, b)` lies in the already-marked part of a
/// `w`-by-`h` rectangle whose fill has reached row `mv`, column `mu`.
spec fn marked(w: int, h: int, mv: int, mu: int, a: int, b: int) -> bool {
    &&& 0 <= a < w
    &&& 0 <= b < h
    &&& (b < mv || (b == mv && a < mu))
}

/// Marks every cell of the `w`-by-`h` rectangle based at `base` as visited,
/// and touches nothing else.
fn mark_rect(
    visited: &mut Vec<bool>,
    shape: &GridShape,
    face: &OrientedBlockFace,
    base: [u32; 3],
    w: u32,
    h: u32,
    Ghost(min): Ghost<[u32; 3]>,
    Ghost(max): Ghost<[u32; 3]>,
)
    requires
        extent_valid(shape.dims_spec(), min, max),
        old(visited)@.len() >= size_spec(shape.dims_spec()),
        in_interior(min, max, pt(base)),
        1 <= w,
        1 <= h,
        axis_val(pt(base), face.u_axis()) + w <= axis_val(pt(max), face.u_axis()),
        axis_val(pt(base), face.v_axis()) + h <= axis_val(pt(max), face.v_axis()),
    ensures
        final(visited)@.len() == old(visited)@.len(),
        forall|j: int| 0 <= j < final(visited)@.len() && old(visited)@[j] ==> final(visited)@[j],
        forall|iu: int, iv: int|
            0 <= iu < w && 0 <= iv < h ==> final(visited)@[linearize_spec(
                shape.dims_spec(),
                #[trigger] cell_at(*face, pt(base), iu, iv),
            )],
        forall|j: int|
            0 <= j < final(visited)@.len() && final(visited)@[j] && !old(visited)@[j]
                ==> exists|iu: int, iv: int|
                0 <= iu < w && 0 <= iv < h && j == linearize_spec(
                    shape.dims_spec(),
                    #[trigger] cell_at(*face, pt(base), iu, iv),
                ),
{
    let ghost dims = shape.dims_spec();
    let ghost old_vis = old(visited)@;
    let axes = face.permutation.axes();
    let u_axis = axes[1];
    let v_axis = axes[2];
    proof {
        crate::geometry::axis::lemma_axes_distinct(face.permutation);
    }
    let mut iv: u32 = 0;
    while iv < h
        invariant
            extent_valid(dims, min, max),
            dims == shape.dims_spec(),
            u_axis == face.u_axis(),
            v_axis == face.v_axis(),
            in_interior(min, max, pt(base)),
            1 <= w,
            1 <= h,
            iv <= h,
            axis_val(pt(base), face.u_axis()) + w <= axis_val(pt(max), face.u_axis()),
            axis_val(pt(base), face.v_axis()) + h <= axis_val(pt(max), face.v_axis()),
            visited@.len() == old_vis.len(),
            old_vis.len() >= size_spec(dims),
            forall|j: int| 0 <= j < visited@.len() && old_vis[j] ==> visited@[j],
            forall|a: int, b: int|
                marked(w as int, h as int, iv as int, 0, a, b) ==> visited@[linearize_spec(
                    dims,
                    #[trigger] cell_at(*face, pt(base), a, b),
                )],
            forall|j: int|
                0 <= j < visited@.len() && visited@[j] && !old_vis[j] ==> exists|a: int, b: int|
                    marked(w as int, h as int, iv as int, 0, a, b) && j == linearize_spec(
                        dims,
                        #[trigger] cell_at(*face, pt(base), a, b),
                    ),
        decreases h - iv,
    {
        let row = coord_set(base, v_axis, coord_get(base, v_axis) + iv);
        let mut iu: u32 = 0;
        while iu < w
            invariant
                extent_valid(dims, min, max),
                dims == shape.dims_spec(),
                u_axis == face.u_axis(),
                v_axis == face.v_axis(),
                in_interior(min, max, pt(base)),
                1 <= w,
                1 <= h,
                iv < h,
                iu <= w,
                axis_val(pt(base), face.u_axis()) + w <= axis_val(pt(max), face.u_axis()),
                axis_val(pt(base), face.v_axis()) + h <= axis_val(pt(max), face.v_axis()),
                pt(row) == crate::shape::axis_shift(pt(base), face.v_axis(), iv as int),
                visited@.len() == old_vis.len(),
                old_vis.len() >= size_spec(dims),
                forall|j: int| 0 <= j < visited@.len() && old_vis[j] ==> visited@[j],
                forall|a: int, b: int|
                    marked(w as int, h as int, iv as int, iu as int, a, b)
                        ==> visited@[linearize_spec(
                        dims,
                        #[trigger] cell_at(*face, pt(base), a, b),
                    )],
                forall|j: int|
                    0 <= j < visited@.len() && visited@[j] && !old_vis[j] ==> exists|
                        a: int,
                        b: int,
                    |
                        marked(w as int, h as int, iv as int, iu as int, a, b) && j
                            == linearize_spec(
                            dims,
                            #[trigger] cell_at(*face, pt(base), a, b),
                        ),
            decreases w - iu,
        {
            let cell = coord_set(row, u_axis, coord_get(row, u_axis) + iu);
            proof {
                crate::visibility::lemma_axis_shift_commutes(
                    pt(base),
                    face.v_axis(),
                    iv as int,
                    face.u_axis(),
                    iu as int,
                );
                assert(pt(cell) == cell_at(*face, pt(base), iu as int, iv as int));
                crate::visibility::lemma_cell_at_interior(
                    dims,
                    min,
                    max,
                    *face,
                    pt(base),
                    w as int,
                    h as int,
                    iu as int,
                    iv as int,
                );
                crate::shape::lemma_linearize_bound(dims, pt(cell));
            }
            let idx = shape.linearize(cell);
            let ghost before = visited@;
            visited[idx as usize] = true;
            proof {
                assert forall|a: int, b: int|
                    marked(w as int, h as int, iv as int, iu + 1, a, b)
                        implies visited@[linearize_spec(
                    dims,
                    #[trigger] cell_at(*face, pt(base), a, b),
                )] by {
                    if a == iu && b == iv {
                        assert(visited@[idx as int]);
                    } else {
                        assert(marked(w as int, h as int, iv as int, iu as int, a, b));
                        crate::visibility::lemma_cell_at_interior(
                            dims,
                            min,
                            max,
                            *face,
                            pt(base),
                            w as int,
                            h as int,
                            a,
                            b,
                        );
                        crate::shape::lemma_linearize_bound(
                            dims,
                            cell_at(*face, pt(base), a, b),
                        );
                        assert(before[linearize_spec(dims, cell_at(*face, pt(base), a, b))]);
                    }
                }
                assert forall|j: int|
                    0 <= j < visited@.len() && visited@[j] && !old_vis[j] implies exists|
                    a: int,
                    b: int,
                |
                    marked(w as int, h as int, iv as int, iu + 1, a, b) && j == linearize_spec(
                        dims,
                        #[trigger] cell_at(*face, pt(base), a, b),
                    ) by {
                    if j == idx as int {
                        assert(marked(w as int, h as int, iv as int, iu + 1, iu as int, iv as int)
                            && j == linearize_spec(
                            dims,
                            cell_at(*face, pt(base), iu as int, iv as int),
                        ));
                    } else {
                        assert(before[j] && !old_vis[j]);
                        let (a0, b0) = choose|a: int, b: int|
                            marked(w as int, h as int, iv as int, iu as int, a, b) && j
                                == linearize_spec(
                                dims,
                                #[trigger] cell_at(*face, pt(base), a, b),
                            );
                        assert(marked(w as int, h as int, iv as int, iu + 1, a0, b0) && j
                            == linearize_spec(dims, cell_at(*face, pt(base), a0, b0)));
                    }
                }
            }
            iu = iu + 1;
        }
        proof {
            assert forall|a: int, b: int|
                marked(w as int, h as int, iv + 1, 0, a, b) implies visited@[linearize_spec(
                dims,
                #[trigger] cell_at(*face, pt(base), a, b),
            )] by {
                assert(marked(w as int, h as int, iv as int, w as int, a, b));
            }
            assert forall|j: int|
                0 <= j < visited@.len() && visited@[j] && !old_vis[j] implies exists|
                a: int,
                b: int,
            |
                marked(w as int, h as int, iv + 1, 0, a, b) && j == linearize_spec(
                    dims,
                    #[trigger] cell_at(*face, pt(base), a, b),
                ) by {
                let (a0, b0) = choose|a: int, b: int|
                    marked(w as int, h as int, iv as int, w as int, a, b) && j == linearize_spec(
                        dims,
                        #[trigger] cell_at(*face, pt(base), a, b),
                    );
                assert(marked(w as int, h as int, iv + 1, 0, a0, b0) && j == linearize_spec(
                    dims,
                    cell_at(*face, pt(base), a0, b0),
                ));
            }
        }
        iv = iv + 1;
    }
    proof {
        assert forall|j: int|
            0 <= j < visited@.len() && visited@[j] && !old_vis[j] implies exists|iu: int, iv: int|
            0 <= iu < w && 0 <= iv < h && j == linearize_spec(
                dims,
                #[trigger] cell_at(*face, pt(base), iu, iv),
            ) by {
            let (a0, b0) = choose|a: int, b: int|
                marked(w as int, h as int, h as int, 0, a, b) && j == linearize_spec(
                    dims,
                    #[trigger] cell_at(*face, pt(base), a, b),
                );
            assert(0 <= a0 < w && 0 <= b0 < h && j == linearize_spec(
                dims,
                cell_at(*face, pt(base), a0, b0),
            ));
        }
    }
}

/// Whether the cell `c` comes strictly before the face-local raster marker
/// `(mn, mv, mu)`: lexicographic on (normal slice, V row, U column).
pub open spec fn face_raster_lt(face: OrientedBlockFace, c: Coord, mn: int, mv: int, mu: int) -> bool {
    ||| axis_val(c, face.n_axis()) < mn
    ||| (axis_val(c, face.n_axis()) == mn && axis_val(c, face.v_axis()) < mv)
    ||| (axis_val(c, face.n_axis()) == mn && axis_val(c, face.v_axis()) == mv && axis_val(
        c,
        face.u_axis(),
    ) < mu)
}

/// A coordinate is determined by its components on the three axes of any
/// permutation.
proof fn lemma_axis_vals_determine(p: crate::geometry::axis::AxisPermutation, c1: Coord, c2: Coord)
    requires
        axis_val(c1, p.axes_spec()[0]) == axis_val(c2, p.axes_spec()[0]),
        axis_val(c1, p.axes_spec()[1]) == axis_val(c2, p.axes_spec()[1]),
        axis_val(c1, p.axes_spec()[2]) == axis_val(c2, p.axes_spec()[2]),
    ensures
        c1 == c2,
{
}

/// The sweep invariant of one face's greedy pass: the group's old contents
/// are a prefix; the appended quads are valid and pairwise disjoint; an
/// interior cell is marked visited exactly when some appended quad covers
/// it; and every visible interior cell rastered before the face-local
/// marker `(mn, mv, mu)` is covered.
spec fn greedy_sweep_inv<M: MergeStrategy>(
    vox: Seq<M::Voxel>,
    dims: [u32; 3],
    min: [u32; 3],
    max: [u32; 3],
    face: OrientedBlockFace,
    old_g: Seq<UnorientedQuad<M::Voxel>>,
    g: Seq<UnorientedQuad<M::Voxel>>,
    vis: Seq<bool>,
    mn: int,
    mv: int,
    mu: int,
) -> bool {
    &&& g.len() >= old_g.len()
    &&& g.subrange(0, old_g.len() as int) == old_g
    &&& forall|k: int|
        old_g.len() <= k < g.len() ==> greedy_quad_ok::<M>(vox, dims, min, max, face, #[trigger] g[k])
    &&& forall|k1: int, k2: int, c: Coord|
        #![trigger quad_covers(face, g[k1], c), quad_covers(face, g[k2], c)]
        old_g.len() <= k1 < k2 < g.len() ==> !(quad_covers(face, g[k1], c) && quad_covers(
            face,
            g[k2],
            c,
        ))
    &&& forall|c: Coord|
        #![trigger linearize_spec(dims, c)]
        in_interior(min, max, c) ==> (vis[linearize_spec(dims, c)] <==> covered_by(
            face,
            g,
            old_g.len() as int,
            c,
        ))
    &&& forall|c: Coord|
        in_interior(min, max, c) && face_raster_lt(face, c, mn, mv, mu) && #[trigger] face_visible(
            vox,
            dims,
            face,
            c,
        ) ==> vis[linearize_spec(dims, c)]
}

/// Emitting one quad found by the merge strategy, and marking its rectangle
/// visited, advances the greedy sweep invariant past the start cell.
proof fn lemma_greedy_after_emit<M: MergeStrategy>(
    vox: Seq<M::Voxel>,
    dims: [u32; 3],
    min: [u32; 3],
    max: [u32; 3],
    face: OrientedBlockFace,
    old_g: Seq<UnorientedQuad<M::Voxel>>,
    g1: Seq<UnorientedQuad<M::Voxel>>,
    g2: Seq<UnorientedQuad<M::Voxel>>,
    vis0: Seq<bool>,
    vis1: Seq<bool>,
    q: UnorientedQuad<M::Voxel>,
    mn: int,
    mv: int,
    mu: int,
)
    requires
        extent_valid(dims, min, max),
        vis0.len() >= size_spec(dims),
        greedy_sweep_inv::<M>(vox, dims, min, max, face, old_g, g1, vis0, mn, mv, mu),
        g2 == g1.push(q),
        // the quad the strategy found, starting at the marker cell
        in_interior(min, max, pt(q.minimum)),
        axis_val(pt(q.minimum), face.n_axis()) == mn,
        axis_val(pt(q.minimum), face.v_axis()) == mv,
        axis_val(pt(q.minimum), face.u_axis()) == mu,
        1 <= q.width,
        1 <= q.height,
        axis_val(pt(q.minimum), face.u_axis()) + q.width <= axis_val(pt(max), face.u_axis()),
        axis_val(pt(q.minimum), face.v_axis()) + q.height <= axis_val(pt(max), face.v_axis()),
        q.voxel == vox[linearize_spec(dims, pt(q.minimum))],
        forall|iu: int, iv: int|
            0 <= iu < q.width && 0 <= iv < q.height ==> {
                let c = #[trigger] cell_at(face, pt(q.minimum), iu, iv);
                &&& face_visible(vox, dims, face, c)
                &&& !vis0[linearize_spec(dims, c)]
                &&& M::can_merge(
                    vox[linearize_spec(dims, pt(q.minimum))],
                    vox[linearize_spec(dims, neighbor_coord(face, pt(q.minimum)))],
                    vox[linearize_spec(dims, c)],
                    vox[linearize_spec(dims, neighbor_coord(face, c))],
                )
            },
        // how marking the rectangle changed the bitmap
        vis1.len() == vis0.len(),
        forall|j: int| 0 <= j < vis1.len() && vis0[j] ==> vis1[j],
        forall|iu: int, iv: int|
            0 <= iu < q.width && 0 <= iv < q.height ==> vis1[linearize_spec(
                dims,
                #[trigger] cell_at(face, pt(q.minimum), iu, iv),
            )],
        forall|j: int|
            0 <= j < vis1.len() && vis1[j] && !vis0[j] ==> exists|iu: int, iv: int|
                0 <= iu < q.width && 0 <= iv < q.height && j == linearize_spec(
                    dims,
                    #[trigger] cell_at(face, pt(q.minimum), iu, iv),
                ),
    ensures
        greedy_sweep_inv::<M>(vox, dims, min, max, face, old_g, g2, vis1, mn, mv, mu + 1),
{
    let base = pt(q.minimum);
    let lo = old_g.len() as int;
    assert(g2.subrange(0, lo) =~= old_g);
    assert(g2[g2.len() - 1] == q);

    // Every cell of the new quad is a visible interior cell that was not
    // yet visited, so the quad is valid and disjoint from all earlier ones.
    assert forall|iu: int, iv: int| 0 <= iu < q.width && 0 <= iv < q.height implies {
        let c = #[trigger] cell_at(face, base, iu, iv);
        &&& in_interior(min, max, c)
        &&& face_visible(vox, dims, face, c)
        &&& !vis0[linearize_spec(dims, c)]
    } by {
        crate::visibility::lemma_cell_at_interior(
            dims,
            min,
            max,
            face,
            base,
            q.width as int,
            q.height as int,
            iu,
            iv,
        );
    }
    assert(greedy_quad_ok::<M>(vox, dims, min, max, face, q));

    // Validity of every appended quad.
    assert forall|k: int| lo <= k < g2.len() implies greedy_quad_ok::<M>(
        vox,
        dims,
        min,
        max,
        face,
        #[trigger] g2[k],
    ) by {
        if k < g1.len() {
            assert(g2[k] == g1[k]);
        }
    }

    // Disjointness: the new quad's cells were unvisited, while every cell
    // covered by an earlier quad was visited.
    assert forall|k1: int, k2: int, c: Coord|
        #![trigger quad_covers(face, g2[k1], c), quad_covers(face, g2[k2], c)]
        lo <= k1 < k2 < g2.len() implies !(quad_covers(face, g2[k1], c) && quad_covers(
        face,
        g2[k2],
        c,
    )) by {
        if quad_covers(face, g2[k1], c) && quad_covers(face, g2[k2], c) {
            if k2 < g1.len() {
                assert(g2[k1] == g1[k1]);
                assert(g2[k2] == g1[k2]);
                assert(!(quad_covers(face, g1[k1], c) && quad_covers(face, g1[k2], c)));
            } else {
                // k2 is the new quad: c lies in its rectangle, hence was
                // unvisited; but it is covered by the earlier quad k1,
                // hence was visited.
                assert(g2[k2] == q);
                assert(g2[k1] == g1[k1]);
                let (iu, iv) = choose|iu: int, iv: int|
                    0 <= iu < q.width && 0 <= iv < q.height && c == #[trigger] cell_at(
                        face,
                        base,
                        iu,
                        iv,
                    );
                assert(!vis0[linearize_spec(dims, c)]);
                assert(covered_by(face, g1, lo, c)) by {
                    assert(quad_covers(face, g1[k1], c));
                }
                assert(vis0[linearize_spec(dims, c)]);
            }
        }
    }

    // The visited bitmap still mirrors coverage.
    assert forall|c: Coord|
        #![trigger linearize_spec(dims, c)]
        in_interior(min, max, c) implies (vis1[linearize_spec(dims, c)] <==> covered_by(
        face,
        g2,
        lo,
        c,
    )) by {
        crate::visibility::lemma_interior_in_dims(dims, min, max, face, c);
        crate::shape::lemma_linearize_bound(dims, c);
        if vis1[linearize_spec(dims, c)] {
            if vis0[linearize_spec(dims, c)] {
                let k = choose|k: int| lo <= k < g1.len() && quad_covers(face, #[trigger] g1[k], c);
                assert(g2[k] == g1[k]);
                assert(quad_covers(face, g2[k], c));
            } else {
                let (iu, iv) = choose|iu: int, iv: int|
                    0 <= iu < q.width && 0 <= iv < q.height && linearize_spec(dims, c)
                        == linearize_spec(dims, #[trigger] cell_at(face, base, iu, iv));
                crate::visibility::lemma_cell_at_interior(
                    dims,
                    min,
                    max,
                    face,
                    base,
                    q.width as int,
                    q.height as int,
                    iu,
                    iv,
                );
                crate::shape::lemma_linearize_injective(dims, c, cell_at(face, base, iu, iv));
                assert(quad_covers(face, q, c));
                assert(quad_covers(face, g2[g2.len() - 1], c));
            }
        }
        if covered_by(face, g2, lo, c) {
            let k = choose|k: int| lo <= k < g2.len() && quad_covers(face, #[trigger] g2[k], c);
            if k < g1.len() {
                assert(g2[k] == g1[k]);
                assert(quad_covers(face, g1[k], c));
                assert(vis0[linearize_spec(dims, c)]);
            } else {
                assert(g2[k] == q);
                let (iu, iv) = choose|iu: int, iv: int|
                    0 <= iu < q.width && 0 <= iv < q.height && c == #[trigger] cell_at(
                        face,
                        base,
                        iu,
                        iv,
                    );
                assert(vis1[linearize_spec(dims, cell_at(face, base, iu, iv))]);
            }
        }
    }

    // Progress: everything before the new marker is covered.
    assert forall|c: Coord|
        in_interior(min, max, c) && face_raster_lt(face, c, mn, mv, mu + 1)
            && #[trigger] face_visible(vox, dims, face, c) implies vis1[linearize_spec(
        dims,
        c,
    )] by {
        crate::visibility::lemma_interior_in_dims(dims, min, max, face, c);
        crate::shape::lemma_linearize_bound(dims, c);
        if face_raster_lt(face, c, mn, mv, mu) {
            assert(vis0[linearize_spec(dims, c)]);
        } else {
            crate::geometry::axis::lemma_axes_distinct(face.permutation);
            lemma_axis_vals_determine(face.permutation, c, base);
            assert(c == base);
            assert(cell_at(face, base, 0, 0) == base);
            assert(vis1[linearize_spec(dims, cell_at(face, base, 0, 0))]);
        }
    }
}

/// At the end of the sweep the marker has passed the whole interior, so the
/// appended quads cover exactly the visible cells: the appended entries form
/// a valid greedy group.
proof fn lemma_greedy_sweep_complete<M: MergeStrategy>(
    vox: Seq<M::Voxel>,
    dims: [u32; 3],
    min: [u32; 3],
    max: [u32; 3],
    face: OrientedBlockFace,
    old_g: Seq<UnorientedQuad<M::Voxel>>,
    g: Seq<UnorientedQuad<M::Voxel>>,
    vis: Seq<bool>,
)
    requires
        extent_valid(dims, min, max),
        vis.len() >= size_spec(dims),
        greedy_sweep_inv::<M>(
            vox,
            dims,
            min,
            max,
            face,
            old_g,
            g,
            vis,
            axis_val(pt(max), face.n_axis()),
            axis_val(pt(min), face.v_axis()) + 1,
            axis_val(pt(min), face.u_axis()) + 1,
        ),
    ensures
        greedy_face_valid::<M>(vox, dims, min, max, face, g.skip(old_g.len() as int)),
{
    let lo = old_g.len() as int;
    let sk = g.skip(lo);
    assert forall|k: int| 0 <= k < sk.len() implies greedy_quad_ok::<M>(
        vox,
        dims,
        min,
        max,
        face,
        #[trigger] sk[k],
    ) by {
        assert(sk[k] == g[lo + k]);
    }
    assert forall|k1: int, k2: int, c: Coord|
        #![trigger quad_covers(face, sk[k1], c), quad_covers(face, sk[k2], c)]
        0 <= k1 < k2 < sk.len() implies !(quad_covers(face, sk[k1], c) && quad_covers(
        face,
        sk[k2],
        c,
    )) by {
        assert(sk[k1] == g[lo + k1]);
        assert(sk[k2] == g[lo + k2]);
        assert(!(quad_covers(face, g[lo + k1], c) && quad_covers(face, g[lo + k2], c)));
    }
    assert forall|c: Coord|
        in_interior(min, max, c) && #[trigger] face_visible(vox, dims, face, c) implies covered_by(
        face,
        sk,
        0,
        c,
    ) by {
        assert(face_raster_lt(
            face,
            c,
            axis_val(pt(max), face.n_axis()),
            axis_val(pt(min), face.v_axis()) + 1,
            axis_val(pt(min), face.u_axis()) + 1,
        ));
        assert(vis[linearize_spec(dims, c)]);
        assert(covered_by(face, g, lo, c));
        let k = choose|k: int| lo <= k < g.len() && quad_covers(face, #[trigger] g[k], c);
        assert(sk[k - lo] == g[k]);
        assert(quad_covers(face, sk[k - lo], c));
    }
}

/// Whether `new_g` extends `old_g` by exactly the quads [`greedy_quads`]
/// owes one face under the merge strategy `M`.
pub open spec fn greedy_group_extended<M: MergeStrategy>(
    vox: Seq<M::Voxel>,
    dims: [u32; 3],
    min: [u32; 3],
    max: [u32; 3],
    face: OrientedBlockFace,
    old_g: Seq<UnorientedQuad<M::Voxel>>,
    new_g: Seq<UnorientedQuad<M::Voxel>>,
) -> bool {
    &&& new_g.len() >= old_g.len()
    &&& new_g.subrange(0, old_g.len() as int) == old_g
    &&& greedy_face_valid::<M>(vox, dims, min, max, face, new_g.skip(old_g.len() as int))
}

/// Sets every flag of the visited bitmap back to `false`.
fn zero_visited(visited: &mut Vec<bool>)
    ensures
        final(visited)@.len() == old(visited)@.len(),
        forall|j: int| 0 <= j < final(visited)@.len() ==> !final(visited)@[j],
{
    let n = visited.len();
    let mut i: usize = 0;
    while i < n
        invariant
            i <= n,
            visited@.len() == n,
            forall|j: int| 0 <= j < i ==> !visited@[j],
        decreases n - i,
    {
        visited[i] = false;
        i = i + 1;
    }
}

/// Sweeps the interior of `[min, max]` for one face, greedily merging
/// visible faces into maximal rectangles under the merge strategy `M`, and
/// appends the resulting quads to `quads`.
#[verifier::rlimit(30)]
fn greedy_quads_for_face<M: MergeStrategy>(
    voxels: &[M::Voxel],
    shape: &GridShape,
    min: [u32; 3],
    max: [u32; 3],
    face: &OrientedBlockFace,
    visited: &mut Vec<bool>,
    quads: &mut Vec<UnorientedQuad<M::Voxel>>,
)
    requires
        in_bounds(voxels@.len() as int, shape.dims_spec(), min, max),
        old(visited)@.len() >= size_spec(shape.dims_spec()),
    ensures
        final(visited)@.len() == old(visited)@.len(),
        greedy_group_extended::<M>(
            voxels@,
            shape.dims_spec(),
            min,
            max,
            *face,
            old(quads)@,
            final(quads)@,
        ),
{
    let ghost dims = shape.dims_spec();
    let ghost old_g = old(quads)@;
    let ghost vlen = old(visited)@.len();
    let total = shape.size();
    proof {
        assert(size_spec(dims) <= u32::MAX);
        assert(quads@.subrange(0, old_g.len() as int) =~= old_g);
        crate::geometry::axis::lemma_axes_distinct(face.permutation);
    }
    zero_visited(visited);
    let axes = face.permutation.axes();
    let n_axis = axes[0];
    let u_axis = axes[1];
    let v_axis = axes[2];
    let strides = FaceStrides {
        n_stride: shape.stride(n_axis),
        u_stride: shape.stride(u_axis),
        v_stride: shape.stride(v_axis),
    };
    proof {
        assert(strides_ok(dims, *face, strides));
        assert forall|c2: Coord|
            #![trigger linearize_spec(dims, c2)]
            in_interior(min, max, c2) implies (!visited@[linearize_spec(dims, c2)]
            && !covered_by(*face, quads@, old_g.len() as int, c2)) by {
            crate::visibility::lemma_interior_in_dims(dims, min, max, *face, c2);
            crate::shape::lemma_linearize_bound(dims, c2);
            if covered_by(*face, quads@, old_g.len() as int, c2) {
                let k = choose|k: int|
                    old_g.len() <= k < quads@.len() && quad_covers(*face, #[trigger] quads@[k], c2);
            }
        }
    }
    let n_lo = coord_get(min, n_axis) + 1;
    let n_hi = coord_get(max, n_axis);
    let u_lo = coord_get(min, u_axis) + 1;
    let u_hi = coord_get(max, u_axis);
    let v_lo = coord_get(min, v_axis) + 1;
    let v_hi = coord_get(max, v_axis);
    let mut ni = n_lo;
    while ni < n_hi
        invariant
            in_bounds(voxels@.len() as int, dims, min, max),
            dims == shape.dims_spec(),
            size_spec(dims) <= u32::MAX,
            visited@.len() == vlen,
            vlen >= size_spec(dims),
            n_axis == face.n_axis(),
            u_axis == face.u_axis(),
            v_axis == face.v_axis(),
            strides_ok(dims, *face, strides),
            n_lo == axis_val(pt(min), face.n_axis()) + 1,
            n_hi == axis_val(pt(max), face.n_axis()),
            u_lo == axis_val(pt(min), face.u_axis()) + 1,
            u_hi == axis_val(pt(max), face.u_axis()),
            v_lo == axis_val(pt(min), face.v_axis()) + 1,
            v_hi == axis_val(pt(max), face.v_axis()),
            n_lo <= ni <= n_hi,
            greedy_sweep_inv::<M>(
                voxels@,
                dims,
                min,
                max,
                *face,
                old_g,
                quads@,
                visited@,
                ni as int,
                v_lo as int,
                u_lo as int,
            ),
        decreases n_hi - ni,
    {
        let mut vi = v_lo;
        while vi < v_hi
            invariant
                in_bounds(voxels@.len() as int, dims, min, max),
                dims == shape.dims_spec(),
                size_spec(dims) <= u32::MAX,
                visited@.len() == vlen,
                vlen >= size_spec(dims),
                n_axis == face.n_axis(),
                u_axis == face.u_axis(),
                v_axis == face.v_axis(),
                strides_ok(dims, *face, strides),
                n_lo == axis_val(pt(min), face.n_axis()) + 1,
                n_hi == axis_val(pt(max), face.n_axis()),
                u_lo == axis_val(pt(min), face.u_axis()) + 1,
                u_hi == axis_val(pt(max), face.u_axis()),
                v_lo == axis_val(pt(min), face.v_axis()) + 1,
                v_hi == axis_val(pt(max), face.v_axis()),
                n_lo <= ni < n_hi,
                v_lo <= vi <= v_hi,
                greedy_sweep_inv::<M>(
                    voxels@,
                    dims,
                    min,
                    max,
                    *face,
                    old_g,
                    quads@,
                    visited@,
                    ni as int,
                    vi as int,
                    u_lo as int,
                ),
            decreases v_hi - vi,
        {
            let mut ui = u_lo;
            while ui < u_hi
                invariant
                    in_bounds(voxels@.len() as int, dims, min, max),
                    dims == shape.dims_spec(),
                    size_spec(dims) <= u32::MAX,
                    visited@.len() == vlen,
                    vlen >= size_spec(dims),
                    n_axis == face.n_axis(),
                    u_axis == face.u_axis(),
                    v_axis == face.v_axis(),
                    strides_ok(dims, *face, strides),
                    n_lo == axis_val(pt(min), face.n_axis()) + 1,
                    n_hi == axis_val(pt(max), face.n_axis()),
                    u_lo == axis_val(pt(min), face.u_axis()) + 1,
                    u_hi == axis_val(pt(max), face.u_axis()),
                    v_lo == axis_val(pt(min), face.v_axis()) + 1,
                    v_hi == axis_val(pt(max), face.v_axis()),
                    n_lo <= ni < n_hi,
                    v_lo <= vi < v_hi,
                    u_lo <= ui <= u_hi,
                    greedy_sweep_inv::<M>(
                        voxels@,
                        dims,
                        min,
                        max,
                        *face,
                        old_g,
                        quads@,
                        visited@,
                        ni as int,
                        vi as int,
                        ui as int,
                    ),
                decreases u_hi - ui,
            {
                let p = coord_set(coord_set(coord_set(min, n_axis, ni), u_axis, ui), v_axis, vi);
                let ghost c = pt(p);
                proof {
                    assert(axis_val(c, face.n_axis()) == ni && axis_val(c, face.u_axis()) == ui
                        && axis_val(c, face.v_axis()) == vi);
                    assert(in_interior(min, max, c));
                    crate::visibility::lemma_interior_in_dims(dims, min, max, *face, c);
                    crate::shape::lemma_linearize_bound(dims, c);
                    crate::shape::lemma_linearize_bound(dims, neighbor_coord(*face, c));
                }
                let idx = shape.linearize(p);
                let nidx = merge_strategy::neighbor_index(
                    idx,
                    strides.n_stride,
                    face,
                    shape,
                    Ghost(c),
                );
                if face_needs_mesh(voxels, visited, idx, nidx, Ghost(dims), Ghost(c), Ghost(*face)) {
                    let max_width = u_hi - ui;
                    let max_height = v_hi - vi;
                    let wh = M::find_quad(
                        voxels,
                        visited,
                        shape,
                        face,
                        &strides,
                        min,
                        max,
                        p,
                        idx,
                        max_width,
                        max_height,
                    );
                    let quad_width = wh.0;
                    let quad_height = wh.1;
                    let ghost vis0 = visited@;
                    mark_rect(
                        visited,
                        shape,
                        face,
                        p,
                        quad_width,
                        quad_height,
                        Ghost(min),
                        Ghost(max),
                    );
                    let quad = UnorientedQuad {
                        minimum: p,
                        width: quad_width,
                        height: quad_height,
                        voxel: voxels[idx as usize],
                    };
                    let ghost g1 = quads@;
                    quads.push(quad);
                    proof {
                        assert(quad.minimum == p && pt(quad.minimum) == c);
                        lemma_greedy_after_emit::<M>(
                            voxels@,
                            dims,
                            min,
                            max,
                            *face,
                            old_g,
                            g1,
                            quads@,
                            vis0,
                            visited@,
                            quad,
                            ni as int,
                            vi as int,
                            ui as int,
                        );
                    }
                } else {
                    proof {
                        assert forall|c2: Coord|
                            in_interior(min, max, c2) && face_raster_lt(
                                *face,
                                c2,
                                ni as int,
                                vi as int,
                                ui + 1,
                            ) && #[trigger] face_visible(voxels@, dims, *face, c2)
                            implies visited@[linearize_spec(dims, c2)] by {
                            if !face_raster_lt(*face, c2, ni as int, vi as int, ui as int) {
                                lemma_axis_vals_determine(face.permutation, c2, c);
                                assert(c2 == c);
                            }
                        }
                    }
                }
                ui = ui + 1;
            }
            vi = vi + 1;
        }
        ni = ni + 1;
    }
    proof {
        lemma_greedy_sweep_complete::<M>(
            voxels@,
            dims,
            min,
            max,
            *face,
            old_g,
            quads@,
            visited@,
        );
    }
}

/// Runs the greedy meshing algorithm with a custom quad merging strategy.
///
/// Clears `output`, then sweeps each of the six faces over the interior of
/// `[min, max]`, growing maximal rectangles under the strategy `M`.  On
/// success each face group holds valid, pairwise-disjoint quads that cover
/// exactly that face's visible interior cells; inputs that fail the
/// precondition check are rejected without touching `output`.
pub fn greedy_quads_with_merge_strategy<M: MergeStrategy>(
    voxels: &[M::Voxel],
    voxels_shape: &GridShape,
    min: [u32; 3],
    max: [u32; 3],
    faces: &[OrientedBlockFace; 6],
    output: &mut GreedyQuadsBuffer<M::Voxel>,
) -> (r: Result<(), MeshError>)
    ensures
        r is Ok <==> in_bounds(voxels@.len() as int, voxels_shape.dims_spec(), min, max),
        r == Err::<(), MeshError>(MeshError::BufferTooSmall) <==> voxels@.len() < size_spec(
            voxels_shape.dims_spec(),
        ),
        r == Err::<(), MeshError>(MeshError::InvalidExtent) <==> (voxels@.len() >= size_spec(
            voxels_shape.dims_spec(),
        ) && !extent_valid(voxels_shape.dims_spec(), min, max)),
        r is Err ==> *final(output) == *old(output),
        r is Ok ==> final(output).visited@.len() == voxels@.len(),
        r is Ok ==> forall|f: int|
            0 <= f < 6 ==> greedy_face_valid::<M>(
                voxels@,
                voxels_shape.dims_spec(),
                min,
                max,
                faces[f],
                final(output).quads.groups[f]@,
            ),
{
    match assert_in_bounds(voxels, voxels_shape, min, max) {
        Err(e) => {
            return Err(e);
        },
        Ok(()) => {},
    }

    output.reset(voxels.len());

    greedy_quads_for_face::<M>(
        voxels,
        voxels_shape,
        min,
        max,
        &faces[0],
        &mut output.visited,
        &mut output.quads.groups[0],
    );
    greedy_quads_for_face::<M>(
        voxels,
        voxels_shape,
        min,
        max,
        &faces[1],
        &mut output.visited,
        &mut output.quads.groups[1],
    );
    greedy_quads_for_face::<M>(
        voxels,
        voxels_shape,
        min,
        max,
        &faces[2],
        &mut output.visited,
        &mut output.quads.groups[2],
    );
    greedy_quads_for_face::<M>(
        voxels,
        voxels_shape,
        min,
        max,
        &faces[3],
        &mut output.visited,
        &mut output.quads.groups[3],
    );
    greedy_quads_for_face::<M>(
        voxels,
        voxels_shape,
        min,
        max,
        &faces[4],
        &mut output.visited,
        &mut output.quads.groups[4],
    );
    greedy_quads_for_face::<M>(
        voxels,
        voxels_shape,
        min,
        max,
        &faces[5],
        &mut output.visited,
        &mut output.quads.groups[5],
    );
    proof {
        assert forall|f: int| 0 <= f < 6 implies greedy_face_valid::<M>(
            voxels@,
            voxels_shape.dims_spec(),
            min,
            max,
            faces[f],
            output.quads.groups[f]@,
        ) by {
            assert(output.quads.groups[f]@.skip(0) =~= output.quads.groups[f]@);
        }
    }
    Ok(())
}

/// The "greedy meshing" algorithm: merges adjacent visible faces that share
/// a merge value into maximal rectangles.
///
/// All visible faces of voxels on the interior of `[min, max]` will be part
/// of exactly one [`UnorientedQuad`] returned via `output`, and every cell
/// of every quad carries the same merge value as the quad's minimum cell,
/// and a facing neighbour with the same facing-neighbour merge value.  A
/// 3x3x3 kernel is applied to each point on the interior, hence the extra
/// padding required on the boundary.  Inputs that fail the precondition
/// check are rejected without touching `output`.
pub fn greedy_quads<T: MergeVoxel + Copy>(
    voxels: &[T],
    voxels_shape: &GridShape,
    min: [u32; 3],
    max: [u32; 3],
    faces: &[OrientedBlockFace; 6],
    output: &mut GreedyQuadsBuffer<T>,
) -> (r: Result<(), MeshError>)
    ensures
        r is Ok <==> in_bounds(voxels@.len() as int, voxels_shape.dims_spec(), min, max),
        r == Err::<(), MeshError>(MeshError::BufferTooSmall) <==> voxels@.len() < size_spec(
            voxels_shape.dims_spec(),
        ),
        r == Err::<(), MeshError>(MeshError::InvalidExtent) <==> (voxels@.len() >= size_spec(
            voxels_shape.dims_spec(),
        ) && !extent_valid(voxels_shape.dims_spec(), min, max)),
        r is Err ==> *final(output) == *old(output),
        r is Ok ==> final(output).visited@.len() == voxels@.len(),
        r is Ok ==> forall|f: int|
            0 <= f < 6 ==> greedy_face_valid::<VoxelMerger<T>>(
                voxels@,
                voxels_shape.dims_spec(),
                min,
                max,
                faces[f],
                final(output).quads.groups[f]@,
            ),
{
    greedy_quads_with_merge_strategy::<VoxelMerger<T>>(
        voxels,
        voxels_shape,
        min,
        max,
        faces,
        output,
    )
}

} // verus!
