//! Voxel geometry and coordinate systems.
//!
//! The meshing algorithms work in a face-local `{N, U, V}` space: for each of
//! the six cube faces, one world axis plays the role of the face normal and
//! the other two span the face plane.  An [`axis::AxisPermutation`] records
//! which world axis plays which role, and a [`face::OrientedBlockFace`]
//! combines a permutation with a normal sign to describe one oriented face.
//! Six oriented faces together with a texture-flip axis form a
//! [`QuadCoordinateConfig`], which captures one complete coordinate and
//! handedness convention.

use vstd::prelude::*;

pub mod axis;
pub mod face;
pub mod quad;

use axis::{Axis, AxisPermutation};
use face::OrientedBlockFace;

verus! {

/// A configuration of XYZ --> NUV axis mappings and orientations of the cube
/// faces for a given coordinate system.
#[derive(Clone)]
pub struct QuadCoordinateConfig {
    /// The six oriented faces, one per signed axis.
    pub faces: [OrientedBlockFace; 6],
    /// For a given coordinate system, one of the two axes that isn't UP must
    /// be flipped in the U texel coordinate direction to avoid incorrect
    /// texture mirroring.  For example, in a right-handed coordinate system
    /// with +Y pointing up, this should be [`Axis::X`], because those faces
    /// need their U coordinates flipped relative to the other faces.
    pub u_flip_face: Axis,
}

/// The six faces of the right-handed, Y-up convention: the three negative
/// faces then the three positive ones, each using the permutation that keeps
/// Y in the V direction whenever Y is not the normal.
pub open spec fn right_handed_y_up_faces() -> [OrientedBlockFace; 6] {
    [
        OrientedBlockFace { n_sign_positive: false, permutation: AxisPermutation::Xzy },
        OrientedBlockFace { n_sign_positive: false, permutation: AxisPermutation::Yzx },
        OrientedBlockFace { n_sign_positive: false, permutation: AxisPermutation::Zxy },
        OrientedBlockFace { n_sign_positive: true, permutation: AxisPermutation::Xzy },
        OrientedBlockFace { n_sign_positive: true, permutation: AxisPermutation::Yzx },
        OrientedBlockFace { n_sign_positive: true, permutation: AxisPermutation::Zxy },
    ]
}

/// Returns the coordinate configuration for a right-handed coordinate system
/// with Y up.
pub fn right_handed_y_up_config() -> (c: QuadCoordinateConfig)
    ensures
        c.faces == right_handed_y_up_faces(),
        c.u_flip_face == Axis::X,
{
    QuadCoordinateConfig {
        // Y is always in the V direction when it's not the normal.  When Y is
        // the normal, right-handedness determines that we must use Yzx
        // permutations.
        faces: [
            OrientedBlockFace::new(-1, AxisPermutation::Xzy),
            OrientedBlockFace::new(-1, AxisPermutation::Yzx),
            OrientedBlockFace::new(-1, AxisPermutation::Zxy),
            OrientedBlockFace::new(1, AxisPermutation::Xzy),
            OrientedBlockFace::new(1, AxisPermutation::Yzx),
            OrientedBlockFace::new(1, AxisPermutation::Zxy),
        ],
        u_flip_face: Axis::X,
    }
}

} // verus!
