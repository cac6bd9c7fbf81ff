//! The three world axes, their six orderings, and the six signed directions.

use vstd::prelude::*;

verus! {

/// Either the X, Y, or Z axis.
#[derive(Clone, Copy, Debug, Eq, PartialEq, Structural)]
pub enum Axis {
    X,
    Y,
    Z,
}

impl Axis {
    /// The index for a point's component on this axis.
    pub open spec fn index_spec(&self) -> int {
        match self {
            Axis::X => 0,
            Axis::Y => 1,
            Axis::Z => 2,
        }
    }

    /// The index for a point's component on this axis.
    pub fn index(&self) -> (i: usize)
        ensures
            i == self.index_spec(),
            i < 3,
    {
        match self {
            Axis::X => 0,
            Axis::Y => 1,
            Axis::Z => 2,
        }
    }

    /// The unit vector along this axis.
    pub open spec fn unit_vector_spec(&self) -> [u32; 3] {
        match self {
            Axis::X => [1u32, 0u32, 0u32],
            Axis::Y => [0u32, 1u32, 0u32],
            Axis::Z => [0u32, 0u32, 1u32],
        }
    }

    /// The unit vector along this axis.
    pub fn get_unit_vector(&self) -> (v: [u32; 3])
        ensures
            v == self.unit_vector_spec(),
    {
        match self {
            Axis::X => [1, 0, 0],
            Axis::Y => [0, 1, 0],
            Axis::Z => [0, 0, 1],
        }
    }
}

/// One of the six possible `{N, U, V}` --> `{X, Y, Z}` mappings.
///
/// This can be combined with a `-1` or `+1` sign for the **N**ormal axis to
/// make an [`OrientedBlockFace`](crate::OrientedBlockFace).
///
/// The even permutations are `Xyz`, `Zxy` and `Yzx`; the odd ones are `Zyx`,
/// `Xzy` and `Yxz`.  The parity drives the triangle winding of a face.
#[derive(Clone, Copy, Debug, Eq, PartialEq, Structural)]
pub enum AxisPermutation {
    /// Even permutation `(X, Y, Z)`.
    Xyz,
    /// Even permutation `(Z, X, Y)`.
    Zxy,
    /// Even permutation `(Y, Z, X)`.
    Yzx,
    /// Odd permutation `(Z, Y, X)`.
    Zyx,
    /// Odd permutation `(X, Z, Y)`.
    Xzy,
    /// Odd permutation `(Y, X, Z)`.
    Yxz,
}

impl AxisPermutation {
    /// The even permutation whose first axis is `axis`.
    pub open spec fn even_with_normal_axis_spec(axis: Axis) -> AxisPermutation {
        match axis {
            Axis::X => AxisPermutation::Xyz,
            Axis::Y => AxisPermutation::Yzx,
            Axis::Z => AxisPermutation::Zxy,
        }
    }

    /// The even permutation whose first axis is `axis`.
    pub fn even_with_normal_axis(axis: Axis) -> (p: AxisPermutation)
        ensures
            p == AxisPermutation::even_with_normal_axis_spec(axis),
            p.axes_spec()[0] == axis,
            p.sign_spec() == 1,
    {
        match axis {
            Axis::X => AxisPermutation::Xyz,
            Axis::Y => AxisPermutation::Yzx,
            Axis::Z => AxisPermutation::Zxy,
        }
    }

    /// The odd permutation whose first axis is `axis`.
    pub open spec fn odd_with_normal_axis_spec(axis: Axis) -> AxisPermutation {
        match axis {
            Axis::X => AxisPermutation::Xzy,
            Axis::Y => AxisPermutation::Yxz,
            Axis::Z => AxisPermutation::Zyx,
        }
    }

    /// The odd permutation whose first axis is `axis`.
    pub fn odd_with_normal_axis(axis: Axis) -> (p: AxisPermutation)
        ensures
            p == AxisPermutation::odd_with_normal_axis_spec(axis),
            p.axes_spec()[0] == axis,
            p.sign_spec() == -1,
    {
        match axis {
            Axis::X => AxisPermutation::Xzy,
            Axis::Y => AxisPermutation::Yxz,
            Axis::Z => AxisPermutation::Zyx,
        }
    }

    /// The parity of the permutation: `1` if even, `-1` if odd.
    pub open spec fn sign_spec(&self) -> int {
        match self {
            AxisPermutation::Xyz => 1,
            AxisPermutation::Zxy => 1,
            AxisPermutation::Yzx => 1,
            AxisPermutation::Zyx => -1,
            AxisPermutation::Xzy => -1,
            AxisPermutation::Yxz => -1,
        }
    }

    /// The parity of the permutation: `1` if even, `-1` if odd.
    pub fn sign(&self) -> (s: i32)
        ensures
            s == self.sign_spec(),
    {
        match self {
            AxisPermutation::Xyz => 1,
            AxisPermutation::Zxy => 1,
            AxisPermutation::Yzx => 1,
            AxisPermutation::Zyx => -1,
            AxisPermutation::Xzy => -1,
            AxisPermutation::Yxz => -1,
        }
    }

    /// The axes in the order specified by the permutation.
    pub open spec fn axes_spec(&self) -> [Axis; 3] {
        match self {
            AxisPermutation::Xyz => [Axis::X, Axis::Y, Axis::Z],
            AxisPermutation::Zxy => [Axis::Z, Axis::X, Axis::Y],
            AxisPermutation::Yzx => [Axis::Y, Axis::Z, Axis::X],
            AxisPermutation::Zyx => [Axis::Z, Axis::Y, Axis::X],
            AxisPermutation::Xzy => [Axis::X, Axis::Z, Axis::Y],
            AxisPermutation::Yxz => [Axis::Y, Axis::X, Axis::Z],
        }
    }

    /// Returns the axes in the order specified by the permutation.
    pub fn axes(&self) -> (a: [Axis; 3])
        ensures
            a == self.axes_spec(),
    {
        match self {
            AxisPermutation::Xyz => [Axis::X, Axis::Y, Axis::Z],
            AxisPermutation::Zxy => [Axis::Z, Axis::X, Axis::Y],
            AxisPermutation::Yzx => [Axis::Y, Axis::Z, Axis::X],
            AxisPermutation::Zyx => [Axis::Z, Axis::Y, Axis::X],
            AxisPermutation::Xzy => [Axis::X, Axis::Z, Axis::Y],
            AxisPermutation::Yxz => [Axis::Y, Axis::X, Axis::Z],
        }
    }
}

/// Every permutation really permutes the axes: the three axes it lists are
/// pairwise distinct.
pub proof fn lemma_axes_distinct(p: AxisPermutation)
    ensures
        p.axes_spec()[0] != p.axes_spec()[1],
        p.axes_spec()[0] != p.axes_spec()[2],
        p.axes_spec()[1] != p.axes_spec()[2],
{
}

/// Either the -X, +X, -Y, +Y, -Z, or +Z direction.
#[derive(Clone, Copy, Debug, Eq, PartialEq, Structural)]
pub enum SignedAxis {
    /// The -X direction.
    NegX,
    /// The +X direction.
    PosX,
    /// The -Y direction.
    NegY,
    /// The +Y direction.
    PosY,
    /// The -Z direction.
    NegZ,
    /// The +Z direction.
    PosZ,
}

impl SignedAxis {
    /// The signed direction with the sign of `sign` along `axis`.
    pub open spec fn new_spec(sign: int, axis: Axis) -> SignedAxis {
        match (sign > 0, axis) {
            (false, Axis::X) => SignedAxis::NegX,
            (false, Axis::Y) => SignedAxis::NegY,
            (false, Axis::Z) => SignedAxis::NegZ,
            (true, Axis::X) => SignedAxis::PosX,
            (true, Axis::Y) => SignedAxis::PosY,
            (true, Axis::Z) => SignedAxis::PosZ,
        }
    }

    /// Builds the signed direction with the sign of `sign` along `axis`.
    pub fn new(sign: i32, axis: Axis) -> (s: SignedAxis)
        requires
            sign != 0,
        ensures
            s == SignedAxis::new_spec(sign as int, axis),
            s.unsigned_axis_spec() == axis,
    {
        match (sign > 0, axis) {
            (false, Axis::X) => SignedAxis::NegX,
            (false, Axis::Y) => SignedAxis::NegY,
            (false, Axis::Z) => SignedAxis::NegZ,
            (true, Axis::X) => SignedAxis::PosX,
            (true, Axis::Y) => SignedAxis::PosY,
            (true, Axis::Z) => SignedAxis::PosZ,
        }
    }

    /// The axis of this direction, without its sign.
    pub open spec fn unsigned_axis_spec(&self) -> Axis {
        match self {
            SignedAxis::NegX => Axis::X,
            SignedAxis::NegY => Axis::Y,
            SignedAxis::NegZ => Axis::Z,
            SignedAxis::PosX => Axis::X,
            SignedAxis::PosY => Axis::Y,
            SignedAxis::PosZ => Axis::Z,
        }
    }

    /// Returns the axis of this direction, without its sign.
    pub fn unsigned_axis(&self) -> (a: Axis)
        ensures
            a == self.unsigned_axis_spec(),
    {
        match self {
            SignedAxis::NegX => Axis::X,
            SignedAxis::NegY => Axis::Y,
            SignedAxis::NegZ => Axis::Z,
            SignedAxis::PosX => Axis::X,
            SignedAxis::PosY => Axis::Y,
            SignedAxis::PosZ => Axis::Z,
        }
    }

    /// The sign of this direction: `1` or `-1`.
    pub open spec fn signum_spec(&self) -> int {
        match self {
            SignedAxis::NegX => -1,
            SignedAxis::NegY => -1,
            SignedAxis::NegZ => -1,
            SignedAxis::PosX => 1,
            SignedAxis::PosY => 1,
            SignedAxis::PosZ => 1,
        }
    }

    /// Returns the sign of this direction: `1` or `-1`.
    pub fn signum(&self) -> (s: i32)
        ensures
            s == self.signum_spec(),
            s == 1 || s == -1,
    {
        match self {
            SignedAxis::NegX => -1,
            SignedAxis::NegY => -1,
            SignedAxis::NegZ => -1,
            SignedAxis::PosX => 1,
            SignedAxis::PosY => 1,
            SignedAxis::PosZ => 1,
        }
    }

    /// The signed unit vector of this direction.
    pub open spec fn unit_vector_spec(&self) -> [i32; 3] {
        match self {
            SignedAxis::NegX => [-1i32, 0i32, 0i32],
            SignedAxis::NegY => [0i32, -1i32, 0i32],
            SignedAxis::NegZ => [0i32, 0i32, -1i32],
            SignedAxis::PosX => [1i32, 0i32, 0i32],
            SignedAxis::PosY => [0i32, 1i32, 0i32],
            SignedAxis::PosZ => [0i32, 0i32, 1i32],
        }
    }

    /// Returns the signed unit vector of this direction.
    pub fn get_unit_vector(&self) -> (v: [i32; 3])
        ensures
            v == self.unit_vector_spec(),
    {
        match self {
            SignedAxis::NegX => [-1, 0, 0],
            SignedAxis::NegY => [0, -1, 0],
            SignedAxis::NegZ => [0, 0, -1],
            SignedAxis::PosX => [1, 0, 0],
            SignedAxis::PosY => [0, 1, 0],
            SignedAxis::PosZ => [0, 0, 1],
        }
    }

    /// Recovers a signed direction from a non-zero vector that lies on a
    /// single axis, or returns `None` for a vector with more than one
    /// non-zero component.
    pub fn from_vector(v: [i32; 3]) -> (s: Option<SignedAxis>)
        requires
            !(v[0] == 0 && v[1] == 0 && v[2] == 0),
        ensures
            s == if v[1] == 0 && v[2] == 0 {
                Some(SignedAxis::new_spec(v[0] as int, Axis::X))
            } else if v[0] == 0 && v[2] == 0 {
                Some(SignedAxis::new_spec(v[1] as int, Axis::Y))
            } else if v[0] == 0 && v[1] == 0 {
                Some(SignedAxis::new_spec(v[2] as int, Axis::Z))
            } else {
                None::<SignedAxis>
            },
    {
        if v[1] == 0 && v[2] == 0 {
            Some(SignedAxis::new(v[0], Axis::X))
        } else if v[0] == 0 && v[2] == 0 {
            Some(SignedAxis::new(v[1], Axis::Y))
        } else if v[0] == 0 && v[1] == 0 {
            Some(SignedAxis::new(v[2], Axis::Z))
        } else {
            None
        }
    }
}

} // verus!
