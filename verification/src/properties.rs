//! The laws that tie the two meshing algorithms together: greedy merging
//! changes the quad count, never the covered cells nor the covered area.

use vstd::prelude::*;

use crate::geometry::face::OrientedBlockFace;
use crate::geometry::quad::{UnorientedQuad, UnorientedUnitQuad};
use crate::greedy::merge_strategy::{MergeStrategy, VoxelMerger};
use crate::greedy::{covered_by, greedy_face_valid, quad_covers, MergeVoxel};
use crate::shape::{in_dims, linearize_spec, pt, size_spec, Coord};
use crate::simple::simple_face_valid;
use crate::visibility::{cell_at, face_visible, in_interior, neighbor_coord};
use crate::{Voxel, VoxelVisibility};

verus! {

/// The set of interior cells whose face toward `face`'s direction is
/// visible: what both algorithms are required to emit, no more and no less.
pub open spec fn visible_cell_set<T: Voxel>(
    vox: Seq<T>,
    dims: [u32; 3],
    min: [u32; 3],
    max: [u32; 3],
    face: OrientedBlockFace,
) -> Set<Coord> {
    Set::new(|c: Coord| in_interior(min, max, c) && face_visible(vox, dims, face, c))
}

/// The set of cells covered by some quad of `qs` on `face`.
pub open spec fn greedy_covered_set<V: Copy>(
    face: OrientedBlockFace,
    qs: Seq<UnorientedQuad<V>>,
) -> Set<Coord> {
    Set::new(|c: Coord| covered_by(face, qs, 0, c))
}

/// The set of cells covered by one quad of `qs` on `face`.
pub open spec fn quad_cell_set<V: Copy>(face: OrientedBlockFace, q: UnorientedQuad<V>) -> Set<
    Coord,
> {
    Set::new(|c: Coord| quad_covers(face, q, c))
}

/// The set of cells at which the simple algorithm emitted a unit quad.
pub open spec fn unit_cell_set<V: Copy>(qs: Seq<UnorientedUnitQuad<V>>) -> Set<Coord> {
    qs.map_values(|q: UnorientedUnitQuad<V>| pt(q.minimum)).to_set()
}

/// The total covered area of a group of quads: the sum of `width * height`
/// over its entries.
pub open spec fn sum_areas<V: Copy>(qs: Seq<UnorientedQuad<V>>) -> int
    decreases qs.len(),
{
    if qs.len() == 0 {
        0
    } else {
        sum_areas(qs.drop_last()) + qs.last().width * qs.last().height
    }
}

/// Coverage equivalence: expanding every greedy quad into its covered unit
/// cells yields exactly the same cell set as the simple algorithm on the
/// same input — greedy merging changes the quad count, never the covered
/// set, and both equal the visible interior cells.
pub proof fn lemma_coverage_equivalence<M: MergeStrategy>(
    vox: Seq<M::Voxel>,
    dims: [u32; 3],
    min: [u32; 3],
    max: [u32; 3],
    face: OrientedBlockFace,
    merged: Seq<UnorientedQuad<M::Voxel>>,
    units: Seq<UnorientedUnitQuad<M::Voxel>>,
)
    requires
        greedy_face_valid::<M>(vox, dims, min, max, face, merged),
        simple_face_valid(vox, dims, min, max, face, units),
    ensures
        greedy_covered_set(face, merged) == visible_cell_set(vox, dims, min, max, face),
        unit_cell_set(units) == visible_cell_set(vox, dims, min, max, face),
{
    let visible = visible_cell_set(vox, dims, min, max, face);
    assert forall|c: Coord| greedy_covered_set(face, merged).contains(c) implies visible.contains(
        c,
    ) by {
        let k = choose|k: int| 0 <= k < merged.len() && quad_covers(face, #[trigger] merged[k], c);
        let q = merged[k];
        let (iu, iv) = choose|iu: int, iv: int|
            0 <= iu < q.width && 0 <= iv < q.height && c == #[trigger] cell_at(
                face,
                pt(q.minimum),
                iu,
                iv,
            );
    }
    assert(greedy_covered_set(face, merged) =~= visible);
    let cells = units.map_values(|q: UnorientedUnitQuad<M::Voxel>| pt(q.minimum));
    assert forall|c: Coord| unit_cell_set(units).contains(c) implies visible.contains(c) by {
        let k = choose|k: int| 0 <= k < cells.len() && cells[k] == c;
        assert(pt(units[k].minimum) == c);
    }
    assert forall|c: Coord| visible.contains(c) implies unit_cell_set(units).contains(c) by {
        let k = choose|k: int| 0 <= k < units.len() && pt(#[trigger] units[k].minimum) == c;
        assert(cells[k] == c);
        assert(cells.contains(c));
    }
    assert(unit_cell_set(units) =~= visible);
}

/// One quad covers exactly `width * height` cells.
proof fn lemma_quad_cell_count<V: Copy>(face: OrientedBlockFace, q: UnorientedQuad<V>)
    requires
        1 <= q.width,
        1 <= q.height,
    ensures
        quad_cell_set(face, q).finite(),
        quad_cell_set(face, q).len() == q.width * q.height,
{
    let base = pt(q.minimum);
    let w = q.width as int;
    let h = q.height as int;
    let range = vstd::set_lib::set_int_range(0, w * h);
    let f = |k: int| cell_at(face, base, k % w, k / w);
    crate::geometry::axis::lemma_axes_distinct(face.permutation);
    assert(w * h >= 1 && w * h >= w && w * h >= h) by (nonlinear_arith)
        requires
            w >= 1,
            h >= 1,
    ;
    vstd::set_lib::lemma_int_range(0, w * h);
    assert forall|k: int| range.contains(k) implies quad_cell_set(face, q).contains(
        #[trigger] f(k),
    ) by {
        vstd::arithmetic::div_mod::lemma_fundamental_div_mod(k, w);
        vstd::arithmetic::div_mod::lemma_mod_bound(k, w);
        assert(k / w < h) by (nonlinear_arith)
            requires
                k == w * (k / w) + k % w,
                0 <= k % w,
                k < w * h,
                w >= 1,
                k / w >= 0,
        ;
        assert(quad_covers(face, q, cell_at(face, base, k % w, k / w)));
    }
    assert(vstd::relations::injective_on(f, range)) by {
        assert forall|k1: int, k2: int|
            #![trigger range.contains(k1), range.contains(k2)]
            range.contains(k1) && range.contains(k2) && f(k1) == f(k2) implies k1 == k2 by {
            vstd::arithmetic::div_mod::lemma_fundamental_div_mod(k1, w);
            vstd::arithmetic::div_mod::lemma_mod_bound(k1, w);
            vstd::arithmetic::div_mod::lemma_fundamental_div_mod(k2, w);
            vstd::arithmetic::div_mod::lemma_mod_bound(k2, w);
            assert(cell_at(face, base, k1 % w, k1 / w) == cell_at(face, base, k2 % w, k2 / w));
            assert(k1 % w == k2 % w && k1 / w == k2 / w);
        }
    }
    assert forall|c: Coord| quad_cell_set(face, q).contains(c) implies range.map(f).contains(
        c,
    ) by {
        let (iu, iv) = choose|iu: int, iv: int|
            0 <= iu < q.width && 0 <= iv < q.height && c == #[trigger] cell_at(face, base, iu, iv);
        let k = iu + w * iv;
        assert(0 <= k < w * h) by (nonlinear_arith)
            requires
                0 <= iu < w,
                0 <= iv < h,
                k == iu + w * iv,
        ;
        vstd::arithmetic::div_mod::lemma_fundamental_div_mod_converse(k, w, iv, iu);
        assert(f(k) == c);
        assert(range.contains(k));
    }
    assert(range.map(f) =~= quad_cell_set(face, q));
    vstd::set_lib::lemma_map_size(range, quad_cell_set(face, q), f);
}

/// The cells covered by pairwise-disjoint quads number exactly the sum of
/// the quads' areas.
proof fn lemma_disjoint_quads_area<V: Copy>(face: OrientedBlockFace, qs: Seq<UnorientedQuad<V>>)
    requires
        forall|k: int| 0 <= k < qs.len() ==> 1 <= #[trigger] qs[k].width && 1 <= qs[k].height,
        forall|k1: int, k2: int, c: Coord|
            #![trigger quad_covers(face, qs[k1], c), quad_covers(face, qs[k2], c)]
            0 <= k1 < k2 < qs.len() ==> !(quad_covers(face, qs[k1], c) && quad_covers(
                face,
                qs[k2],
                c,
            )),
    ensures
        greedy_covered_set(face, qs).finite(),
        greedy_covered_set(face, qs).len() == sum_areas(qs),
    decreases qs.len(),
{
    if qs.len() == 0 {
        assert(greedy_covered_set(face, qs) =~= Set::<Coord>::empty()) by {
            assert forall|c: Coord| !greedy_covered_set(face, qs).contains(c) by {
                if covered_by(face, qs, 0, c) {
                    let k = choose|k: int| 0 <= k < qs.len() && quad_covers(face, #[trigger] qs[k], c);
                }
            }
        }
    } else {
        let prefix = qs.drop_last();
        let q = qs.last();
        assert forall|k: int| 0 <= k < prefix.len() implies 1 <= #[trigger] prefix[k].width && 1
            <= prefix[k].height by {
            assert(prefix[k] == qs[k]);
        }
        assert forall|k1: int, k2: int, c: Coord|
            #![trigger quad_covers(face, prefix[k1], c), quad_covers(face, prefix[k2], c)]
            0 <= k1 < k2 < prefix.len() implies !(quad_covers(face, prefix[k1], c) && quad_covers(
            face,
            prefix[k2],
            c,
        )) by {
            assert(prefix[k1] == qs[k1]);
            assert(prefix[k2] == qs[k2]);
            assert(!(quad_covers(face, qs[k1], c) && quad_covers(face, qs[k2], c)));
        }
        lemma_disjoint_quads_area(face, prefix);
        lemma_quad_cell_count(face, q);
        let before = greedy_covered_set(face, prefix);
        let own = quad_cell_set(face, q);
        assert(greedy_covered_set(face, qs) =~= before + own) by {
            assert forall|c: Coord|
                greedy_covered_set(face, qs).contains(c) implies (before + own).contains(c) by {
                let k = choose|k: int| 0 <= k < qs.len() && quad_covers(face, #[trigger] qs[k], c);
                if k < prefix.len() {
                    assert(prefix[k] == qs[k]);
                    assert(quad_covers(face, prefix[k], c));
                } else {
                    assert(qs[k] == q);
                }
            }
            assert forall|c: Coord|
                (before + own).contains(c) implies greedy_covered_set(face, qs).contains(c) by {
                if before.contains(c) {
                    let k = choose|k: int|
                        0 <= k < prefix.len() && quad_covers(face, #[trigger] prefix[k], c);
                    assert(prefix[k] == qs[k]);
                    assert(quad_covers(face, qs[k], c));
                } else {
                    assert(quad_covers(face, qs[qs.len() - 1], c));
                }
            }
        }
        assert(before.disjoint(own)) by {
            assert forall|c: Coord| before.contains(c) implies !own.contains(c) by {
                let k = choose|k: int|
                    0 <= k < prefix.len() && quad_covers(face, #[trigger] prefix[k], c);
                assert(prefix[k] == qs[k]);
                if quad_covers(face, q, c) {
                    assert(quad_covers(face, qs[k], c) && quad_covers(face, qs[qs.len() - 1], c));
                }
            }
        }
        vstd::set_lib::lemma_set_disjoint_lens(before, own);
    }
}

/// Area conservation: for each face, the sum of `width * height` over the
/// greedy quads equals the simple algorithm's unit-quad count for that face.
pub proof fn lemma_area_conservation<M: MergeStrategy>(
    vox: Seq<M::Voxel>,
    dims: [u32; 3],
    min: [u32; 3],
    max: [u32; 3],
    face: OrientedBlockFace,
    merged: Seq<UnorientedQuad<M::Voxel>>,
    units: Seq<UnorientedUnitQuad<M::Voxel>>,
)
    requires
        greedy_face_valid::<M>(vox, dims, min, max, face, merged),
        simple_face_valid(vox, dims, min, max, face, units),
    ensures
        sum_areas(merged) == units.len(),
{
    lemma_coverage_equivalence::<M>(vox, dims, min, max, face, merged, units);
    assert forall|k: int| 0 <= k < merged.len() implies 1 <= #[trigger] merged[k].width && 1
        <= merged[k].height by {
        assert(crate::greedy::greedy_quad_ok::<M>(vox, dims, min, max, face, merged[k]));
    }
    lemma_disjoint_quads_area(face, merged);
    let cells = units.map_values(|q: UnorientedUnitQuad<M::Voxel>| pt(q.minimum));
    assert(cells.no_duplicates()) by {
        assert forall|k1: int, k2: int|
            0 <= k1 < cells.len() && 0 <= k2 < cells.len() && k1 != k2 implies #[trigger] cells[k1]
            != #[trigger] cells[k2] by {
            if k1 < k2 {
                assert(crate::shape::raster_lt(pt(units[k1].minimum), pt(units[k2].minimum)));
            } else {
                assert(crate::shape::raster_lt(pt(units[k2].minimum), pt(units[k1].minimum)));
            }
        }
    }
    cells.unique_seq_to_set();
}

/// Empty input: a buffer whose voxels are all empty yields no quads from
/// either algorithm, on any face.
pub proof fn lemma_empty_input<M: MergeStrategy>(
    vox: Seq<M::Voxel>,
    dims: [u32; 3],
    min: [u32; 3],
    max: [u32; 3],
    face: OrientedBlockFace,
    merged: Seq<UnorientedQuad<M::Voxel>>,
    units: Seq<UnorientedUnitQuad<M::Voxel>>,
)
    requires
        crate::bounds::in_bounds(vox.len() as int, dims, min, max),
        forall|i: int| 0 <= i < vox.len() ==> #[trigger] vox[i].visibility()
            == VoxelVisibility::Empty,
        greedy_face_valid::<M>(vox, dims, min, max, face, merged),
        simple_face_valid(vox, dims, min, max, face, units),
    ensures
        merged.len() == 0,
        units.len() == 0,
{
    if merged.len() > 0 {
        let q = merged[0];
        assert(crate::greedy::greedy_quad_ok::<M>(vox, dims, min, max, face, q));
        let c = cell_at(face, pt(q.minimum), 0, 0);
        assert(in_interior(min, max, c) && face_visible(vox, dims, face, c));
        crate::visibility::lemma_interior_in_dims(dims, min, max, face, c);
        crate::shape::lemma_linearize_bound(dims, c);
        assert(vox[linearize_spec(dims, c)].visibility() == VoxelVisibility::Empty);
    }
    if units.len() > 0 {
        let c = pt(units[0].minimum);
        assert(crate::simple::unit_quad_ok(vox, dims, min, max, face, units[0]));
        crate::visibility::lemma_interior_in_dims(dims, min, max, face, c);
        crate::shape::lemma_linearize_bound(dims, c);
        assert(vox[linearize_spec(dims, c)].visibility() == VoxelVisibility::Empty);
    }
}

/// Every entry of a valid greedy group is a valid quad.  Extracting the
/// fact through a lemma keeps the instantiation of the strategy parameter in
/// one place.
proof fn lemma_face_entry_ok<M: MergeStrategy>(
    vox: Seq<M::Voxel>,
    dims: [u32; 3],
    min: [u32; 3],
    max: [u32; 3],
    face: OrientedBlockFace,
    merged: Seq<UnorientedQuad<M::Voxel>>,
    k: int,
)
    requires
        greedy_face_valid::<M>(vox, dims, min, max, face, merged),
        0 <= k < merged.len(),
    ensures
        crate::greedy::greedy_quad_ok::<M>(vox, dims, min, max, face, merged[k]),
{
}

/// Material partitioning: all cells of one greedy quad share one merge
/// value, so two adjacent cells with differing merge values never merge into
/// one quad.
pub proof fn lemma_material_partitioning<T: MergeVoxel + Copy>(
    vox: Seq<T>,
    dims: [u32; 3],
    min: [u32; 3],
    max: [u32; 3],
    face: OrientedBlockFace,
    merged: Seq<UnorientedQuad<T>>,
    k: int,
    c1: Coord,
    c2: Coord,
)
    requires
        greedy_face_valid::<VoxelMerger<T>>(vox, dims, min, max, face, merged),
        0 <= k < merged.len(),
        quad_covers(face, merged[k], c1),
        quad_covers(face, merged[k], c2),
    ensures
        vox[linearize_spec(dims, c1)].merge_value_spec() == vox[linearize_spec(
            dims,
            c2,
        )].merge_value_spec(),
{
    lemma_face_entry_ok::<VoxelMerger<T>>(vox, dims, min, max, face, merged, k);
    let q = merged[k];
    let (iu1, iv1) = choose|iu: int, iv: int|
        0 <= iu < q.width && 0 <= iv < q.height && c1 == #[trigger] cell_at(
            face,
            pt(q.minimum),
            iu,
            iv,
        );
    let (iu2, iv2) = choose|iu: int, iv: int|
        0 <= iu < q.width && 0 <= iv < q.height && c2 == #[trigger] cell_at(
            face,
            pt(q.minimum),
            iu,
            iv,
        );
}

/// Translucent-translucent non-meshing: two adjacent translucent cells never
/// generate a face between them, even though neither is opaque — neither
/// algorithm emits anything at such a cell.
pub proof fn lemma_translucent_pair_not_meshed<M: MergeStrategy>(
    vox: Seq<M::Voxel>,
    dims: [u32; 3],
    min: [u32; 3],
    max: [u32; 3],
    face: OrientedBlockFace,
    merged: Seq<UnorientedQuad<M::Voxel>>,
    units: Seq<UnorientedUnitQuad<M::Voxel>>,
    c: Coord,
)
    requires
        greedy_face_valid::<M>(vox, dims, min, max, face, merged),
        simple_face_valid(vox, dims, min, max, face, units),
        vox[linearize_spec(dims, c)].visibility() == VoxelVisibility::Translucent,
        vox[linearize_spec(dims, neighbor_coord(face, c))].visibility()
            == VoxelVisibility::Translucent,
    ensures
        !face_visible(vox, dims, face, c),
        !covered_by(face, merged, 0, c),
        forall|k: int| 0 <= k < units.len() ==> pt(#[trigger] units[k].minimum) != c,
{
    if covered_by(face, merged, 0, c) {
        let k = choose|k: int| 0 <= k < merged.len() && quad_covers(face, #[trigger] merged[k], c);
        let q = merged[k];
        assert(crate::greedy::greedy_quad_ok::<M>(vox, dims, min, max, face, q));
        let (iu, iv) = choose|iu: int, iv: int|
            0 <= iu < q.width && 0 <= iv < q.height && c == #[trigger] cell_at(
                face,
                pt(q.minimum),
                iu,
                iv,
            );
        assert(face_visible(vox, dims, face, c));
    }
    assert forall|k: int| 0 <= k < units.len() implies pt(#[trigger] units[k].minimum) != c by {
        assert(crate::simple::unit_quad_ok(vox, dims, min, max, face, units[k]));
    }
}

} // verus!
