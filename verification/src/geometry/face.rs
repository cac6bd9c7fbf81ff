//! Oriented cube faces and the geometry derived from them.

use vstd::prelude::*;

use crate::geometry::axis::{Axis, AxisPermutation, SignedAxis};
use crate::geometry::quad::UnorientedQuad;
use crate::shape::{axis_shift, axis_val, coord_get, coord_set, pt, Coord};

verus! {

/// Metadata that's used to aid in the geometric calculations for one of the
/// six possible cube faces: which world axis plays the role of the normal
/// (and with which sign), and which world axes span the face plane.
#[derive(Clone, Copy, Debug, Eq, PartialEq, Structural)]
pub struct OrientedBlockFace {
    /// True when the face's normal points toward the positive direction of
    /// its normal axis.
    pub n_sign_positive: bool,
    /// Determines the `{N, U, V} <--> {X, Y, Z}` relation.
    pub permutation: AxisPermutation,
}

impl OrientedBlockFace {
    /// The sign of the face normal: `1` or `-1`.
    pub open spec fn sign_int(&self) -> int {
        if self.n_sign_positive {
            1
        } else {
            -1
        }
    }

    /// The world axis that plays the role of the face normal.
    pub open spec fn n_axis(&self) -> Axis {
        self.permutation.axes_spec()[0]
    }

    /// The world axis that plays the role of U on the face plane.
    pub open spec fn u_axis(&self) -> Axis {
        self.permutation.axes_spec()[1]
    }

    /// The world axis that plays the role of V on the face plane.
    pub open spec fn v_axis(&self) -> Axis {
        self.permutation.axes_spec()[2]
    }

    /// Builds the face with the given normal sign and permutation.
    pub fn new(n_sign: i32, permutation: AxisPermutation) -> (f: OrientedBlockFace)
        requires
            n_sign == 1 || n_sign == -1,
        ensures
            f.sign_int() == n_sign,
            f.permutation == permutation,
    {
        OrientedBlockFace { n_sign_positive: n_sign > 0, permutation }
    }

    /// The cube face pointing along `normal`, using axes with an even
    /// permutation.
    pub fn canonical(normal: SignedAxis) -> (f: OrientedBlockFace)
        ensures
            f.sign_int() == normal.signum_spec(),
            f.permutation == AxisPermutation::even_with_normal_axis_spec(
                normal.unsigned_axis_spec(),
            ),
            f.n_axis() == normal.unsigned_axis_spec(),
    {
        OrientedBlockFace::new(
            normal.signum(),
            AxisPermutation::even_with_normal_axis(normal.unsigned_axis()),
        )
    }

    /// Returns the sign of the face normal: `1` or `-1`.
    pub fn n_sign(&self) -> (s: i32)
        ensures
            s == self.sign_int(),
    {
        if self.n_sign_positive {
            1
        } else {
            -1
        }
    }

    /// Returns the `{N, U, V} <--> {X, Y, Z}` permutation of the face.
    pub fn permutation(&self) -> (p: AxisPermutation)
        ensures
            p == self.permutation,
    {
        self.permutation
    }

    /// The signed unit normal vector of the face.
    pub open spec fn signed_normal_spec(&self) -> [i32; 3] {
        SignedAxis::new_spec(self.sign_int(), self.n_axis()).unit_vector_spec()
    }

    /// Returns the signed unit normal vector of the face.
    pub fn signed_normal(&self) -> (v: [i32; 3])
        ensures
            v == self.signed_normal_spec(),
    {
        let axes = self.permutation.axes();
        SignedAxis::new(self.n_sign(), axes[0]).get_unit_vector()
    }

    /// The lattice corner a quad's vertices grow from: the quad's minimum,
    /// pushed one cell along the normal axis when the normal points in the
    /// positive direction, so that the quad sits on the outward face of the
    /// voxel cube rather than its center.
    pub open spec fn quad_base<V: Copy>(&self, q: UnorientedQuad<V>) -> Coord {
        if self.n_sign_positive {
            axis_shift(pt(q.minimum), self.n_axis(), 1)
        } else {
            pt(q.minimum)
        }
    }

    /// The lattice position `du` cells along U and `dv` cells along V from
    /// the quad's base corner.
    pub open spec fn corner_spec<V: Copy>(&self, q: UnorientedQuad<V>, du: int, dv: int) -> Coord {
        axis_shift(axis_shift(self.quad_base(q), self.u_axis(), du), self.v_axis(), dv)
    }

    /// Returns the four lattice corners of the quad, in the order
    /// `[minU-minV, maxU-minV, minU-maxV, maxU-maxV]`.
    ///
    /// This order is natural when UV coordinates have `(0, 0)` at the bottom
    /// left; when `(0, 0)` is at the top left, V must be flipped.
    pub fn quad_corners<V: Copy>(&self, quad: &UnorientedQuad<V>) -> (c: [[u32; 3]; 4])
        requires
            axis_val(pt(quad.minimum), self.n_axis()) + 1 <= u32::MAX,
            axis_val(pt(quad.minimum), self.u_axis()) + quad.width <= u32::MAX,
            axis_val(pt(quad.minimum), self.v_axis()) + quad.height <= u32::MAX,
        ensures
            pt(c[0]) == self.corner_spec(*quad, 0, 0),
            pt(c[1]) == self.corner_spec(*quad, quad.width as int, 0),
            pt(c[2]) == self.corner_spec(*quad, 0, quad.height as int),
            pt(c[3]) == self.corner_spec(*quad, quad.width as int, quad.height as int),
    {
        proof {
            crate::geometry::axis::lemma_axes_distinct(self.permutation);
        }
        let axes = self.permutation.axes();
        let base = if self.n_sign_positive {
            coord_set(quad.minimum, axes[0], coord_get(quad.minimum, axes[0]) + 1)
        } else {
            quad.minimum
        };
        let maxu_minv = coord_set(base, axes[1], coord_get(base, axes[1]) + quad.width);
        let minu_maxv = coord_set(base, axes[2], coord_get(base, axes[2]) + quad.height);
        let maxu_maxv = coord_set(
            maxu_minv,
            axes[2],
            coord_get(maxu_minv, axes[2]) + quad.height,
        );
        [base, maxu_minv, minu_maxv, maxu_maxv]
    }

    /// Whether the two triangles of a quad on this face are wound
    /// counter-clockwise: the winding follows the sign of
    /// `n_sign * permutation parity`, so that every face is front-facing
    /// outward under any handedness.
    pub open spec fn winding_counter_clockwise(&self) -> bool {
        self.sign_int() * self.permutation.sign_spec() > 0
    }

    /// Returns the six vertex indices of a quad's two mesh triangles,
    /// starting at the vertex index `start`.
    pub fn quad_mesh_indices(&self, start: u32) -> (ix: [u32; 6])
        requires
            start + 3 <= u32::MAX,
        ensures
            indices_view(ix) == quad_indices_spec(start, self.winding_counter_clockwise()),
    {
        quad_indices(start, self.n_sign() * self.permutation.sign() > 0)
    }

    /// Whether the U texel direction of this face must be mirrored under the
    /// convention whose flipped axis is `u_flip_face`.
    pub open spec fn u_flipped(&self, u_flip_face: Axis) -> bool {
        if self.sign_int() < 0 {
            u_flip_face != self.n_axis()
        } else {
            u_flip_face == self.n_axis()
        }
    }

    /// Returns the UV coordinates of the four corners of the quad, in the
    /// same order as [`OrientedBlockFace::quad_corners`], scaled to
    /// `(width, height)` texels.
    ///
    /// `u_flip_face` should correspond to the field on
    /// [`QuadCoordinateConfig`](crate::QuadCoordinateConfig); `flip_v` is for
    /// conventions whose `(0, 0)` texel sits at the top left.
    pub fn tex_coords<V: Copy>(
        &self,
        u_flip_face: Axis,
        flip_v: bool,
        quad: &UnorientedQuad<V>,
    ) -> (t: [[u32; 2]; 4])
        ensures
            t == tex_coords_spec(
                self.u_flipped(u_flip_face),
                flip_v,
                quad.width,
                quad.height,
            ),
    {
        let axes = self.permutation.axes();
        let flip_u = if self.n_sign() < 0 {
            u_flip_face != axes[0]
        } else {
            u_flip_face == axes[0]
        };
        let w = quad.width;
        let h = quad.height;
        match (flip_u, flip_v) {
            (false, false) => [[0, 0], [w, 0], [0, h], [w, h]],
            (true, false) => [[w, 0], [0, 0], [w, h], [0, h]],
            (false, true) => [[0, h], [w, h], [0, 0], [w, 0]],
            (true, true) => [[w, h], [0, h], [w, 0], [0, 0]],
        }
    }
}

/// The UV corners of a `w`-by-`h` quad under the given mirroring flags, in
/// the corner order of [`OrientedBlockFace::quad_corners`].
pub open spec fn tex_coords_spec(flip_u: bool, flip_v: bool, w: u32, h: u32) -> [[u32; 2]; 4] {
    match (flip_u, flip_v) {
        (false, false) => [[0u32, 0u32], [w, 0u32], [0u32, h], [w, h]],
        (true, false) => [[w, 0u32], [0u32, 0u32], [w, h], [0u32, h]],
        (false, true) => [[0u32, h], [w, h], [0u32, 0u32], [w, 0u32]],
        (true, true) => [[w, h], [0u32, h], [w, 0u32], [0u32, 0u32]],
    }
}

/// The vertex indices of a quad's two triangles under the given winding,
/// starting at `start`.
pub open spec fn quad_indices_spec(start: u32, counter_clockwise: bool) -> Seq<int> {
    if counter_clockwise {
        seq![start as int, start + 1, start + 2, start + 1, start + 3, start + 2]
    } else {
        seq![start as int, start + 2, start + 1, start + 1, start + 2, start + 3]
    }
}

/// The view of a six-entry index array, as mathematical integers.
pub open spec fn indices_view(ix: [u32; 6]) -> Seq<int> {
    ix@.map_values(|v: u32| v as int)
}

/// Returns the vertex indices for a single quad (two triangles).  The
/// triangles may have either clockwise or counter-clockwise winding; `start`
/// is the first index.
pub fn quad_indices(start: u32, counter_clockwise: bool) -> (ix: [u32; 6])
    requires
        start + 3 <= u32::MAX,
    ensures
        indices_view(ix) == quad_indices_spec(start, counter_clockwise),
{
    let ix = if counter_clockwise {
        [start, start + 1, start + 2, start + 1, start + 3, start + 2]
    } else {
        [start, start + 2, start + 1, start + 1, start + 2, start + 3]
    };
    proof {
        assert(indices_view(ix) =~= quad_indices_spec(start, counter_clockwise));
    }
    ix
}

} // verus!
