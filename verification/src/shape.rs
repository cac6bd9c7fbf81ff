//! The linearization of a 3D voxel grid into a flat buffer.
//!
//! A [`GridShape`] maps every coordinate inside its per-axis dimensions to a
//! distinct offset of a flat buffer, in row-major order (the X component
//! varies fastest).  The mapping, its inverse and its element count are all
//! specified exactly, and the injectivity and range lemmas below are what the
//! meshing algorithms rely on to prove that every buffer access they make is
//! in bounds.

use vstd::prelude::*;

use crate::geometry::axis::Axis;

verus! {

/// A specification-level coordinate: one integer per axis, in `(x, y, z)`
/// order.
pub type Coord = (int, int, int);

/// The specification-level coordinate of an `[x, y, z]` point.
pub open spec fn pt(p: [u32; 3]) -> Coord {
    (p[0] as int, p[1] as int, p[2] as int)
}

/// The component of `c` on the axis `a`.
pub open spec fn axis_val(c: Coord, a: Axis) -> int {
    match a {
        Axis::X => c.0,
        Axis::Y => c.1,
        Axis::Z => c.2,
    }
}

/// `c` moved by `d` cells along the axis `a`.
pub open spec fn axis_shift(c: Coord, a: Axis, d: int) -> Coord {
    match a {
        Axis::X => (c.0 + d, c.1, c.2),
        Axis::Y => (c.0, c.1 + d, c.2),
        Axis::Z => (c.0, c.1, c.2 + d),
    }
}

/// Whether `c` lies inside a grid with the dimensions `dims`.
pub open spec fn in_dims(dims: [u32; 3], c: Coord) -> bool {
    &&& 0 <= c.0 < dims[0]
    &&& 0 <= c.1 < dims[1]
    &&& 0 <= c.2 < dims[2]
}

/// The total element count of a grid with the dimensions `dims`.
pub open spec fn size_spec(dims: [u32; 3]) -> int {
    dims[0] * dims[1] * dims[2]
}

/// The row-major flat offset of the coordinate `c` in a grid with the
/// dimensions `dims`.
pub open spec fn linearize_spec(dims: [u32; 3], c: Coord) -> int {
    c.0 + dims[0] * (c.1 + dims[1] * c.2)
}

/// The constant offset delta of a unit step along the axis `a`.
pub open spec fn stride_spec(dims: [u32; 3], a: Axis) -> int {
    match a {
        Axis::X => 1,
        Axis::Y => dims[0] as int,
        Axis::Z => dims[0] * dims[1],
    }
}

/// Every coordinate inside the dimensions linearizes into `[0, size)`.
pub proof fn lemma_linearize_bound(dims: [u32; 3], c: Coord)
    requires
        in_dims(dims, c),
    ensures
        0 <= linearize_spec(dims, c) < size_spec(dims),
{
    assert(0 <= c.0 + dims[0] * (c.1 + dims[1] * c.2) < dims[0] * dims[1] * dims[2])
        by (nonlinear_arith)
        requires
            0 <= c.0 < dims[0],
            0 <= c.1 < dims[1],
            0 <= c.2 < dims[2],
    ;
}

/// The linearization is injective on the coordinates inside the dimensions:
/// distinct cells never share a buffer offset.
pub proof fn lemma_linearize_injective(dims: [u32; 3], c1: Coord, c2: Coord)
    requires
        in_dims(dims, c1),
        in_dims(dims, c2),
        linearize_spec(dims, c1) == linearize_spec(dims, c2),
    ensures
        c1 == c2,
{
    let r1 = c1.1 + dims[1] * c1.2;
    let r2 = c2.1 + dims[1] * c2.2;
    assert(c1.0 == c2.0 && r1 == r2) by (nonlinear_arith)
        requires
            0 <= c1.0 < dims[0],
            0 <= c2.0 < dims[0],
            c1.0 + dims[0] * r1 == c2.0 + dims[0] * r2,
    ;
    assert(c1.1 == c2.1 && c1.2 == c2.2) by (nonlinear_arith)
        requires
            0 <= c1.1 < dims[1],
            0 <= c2.1 < dims[1],
            c1.1 + dims[1] * c1.2 == c2.1 + dims[1] * c2.2,
    ;
}

/// Moving `d` cells along an axis moves the flat offset by `d` strides.
pub proof fn lemma_linearize_step(dims: [u32; 3], c: Coord, a: Axis, d: int)
    ensures
        linearize_spec(dims, axis_shift(c, a, d)) == linearize_spec(dims, c) + d * stride_spec(
            dims,
            a,
        ),
{
    match a {
        Axis::X => {},
        Axis::Y => {
            assert((c.0 + dims[0] * ((c.1 + d) + dims[1] * c.2)) == (c.0 + dims[0] * (c.1 + dims[1]
                * c.2)) + d * dims[0]) by (nonlinear_arith);
        },
        Axis::Z => {
            assert((c.0 + dims[0] * (c.1 + dims[1] * (c.2 + d))) == (c.0 + dims[0] * (c.1 + dims[1]
                * c.2)) + d * (dims[0] * dims[1])) by (nonlinear_arith);
        },
    }
}

/// Whether `c1` comes strictly before `c2` in the row-major raster order:
/// lexicographic on `(z, y, x)`.
pub open spec fn raster_lt(c1: Coord, c2: Coord) -> bool {
    ||| c1.2 < c2.2
    ||| (c1.2 == c2.2 && c1.1 < c2.1)
    ||| (c1.2 == c2.2 && c1.1 == c2.1 && c1.0 < c2.0)
}

/// A caller-facing description of how a dense 3D voxel grid is addressed: a
/// bijection between the coordinates inside `dims` and the flat buffer
/// offsets `[0, size)`, in row-major order.
pub struct GridShape {
    dims: [u32; 3],
}

impl GridShape {
    /// All offsets produced by the shape fit in `u32`, like the flat buffer
    /// indices the meshing algorithms compute from them.
    #[verifier::type_invariant]
    spec fn wf(self) -> bool {
        size_spec(self.dims) <= u32::MAX
    }

    /// The per-axis dimensions of the shape.
    pub closed spec fn dims_spec(&self) -> [u32; 3] {
        self.dims
    }

    /// Builds the shape with the given per-axis dimensions, or returns `None`
    /// when the grid's element count would not fit in `u32`.
    pub fn new(dims: [u32; 3]) -> (r: Option<GridShape>)
        ensures
            r is Some <==> size_spec(dims) <= u32::MAX,
            r is Some ==> r->Some_0.dims_spec() == dims,
    {
        proof {
            lemma_u32_products_fit(dims[0] as int, dims[1] as int);
        }
        let d01: u64 = (dims[0] as u64) * (dims[1] as u64);
        if dims[2] == 0 {
            proof {
                assert(size_spec(dims) == 0) by (nonlinear_arith)
                    requires
                        dims[2] == 0,
                ;
            }
            Some(GridShape { dims })
        } else if d01 > u32::MAX as u64 {
            proof {
                assert(dims[0] * dims[1] * dims[2] >= dims[0] * dims[1]) by (nonlinear_arith)
                    requires
                        dims[2] >= 1,
                        dims[0] * dims[1] >= 0,
                ;
            }
            None
        } else {
            proof {
                lemma_u32_products_fit(d01 as int, dims[2] as int);
                assert(d01 * dims[2] == size_spec(dims)) by (nonlinear_arith)
                    requires
                        d01 == dims[0] * dims[1],
                ;
            }
            let total: u64 = d01 * (dims[2] as u64);
            if total > u32::MAX as u64 {
                None
            } else {
                Some(GridShape { dims })
            }
        }
    }

    /// Returns the per-axis dimensions of the shape.
    pub fn as_array(&self) -> (d: [u32; 3])
        ensures
            d == self.dims_spec(),
    {
        self.dims
    }

    /// Returns the total element count a buffer addressed by this shape must
    /// hold.
    pub fn size(&self) -> (s: u32)
        ensures
            s == size_spec(self.dims_spec()),
    {
        proof {
            use_type_invariant(&*self);
            lemma_u32_products_fit(self.dims[0] as int, self.dims[1] as int);
        }
        let d01: u64 = (self.dims[0] as u64) * (self.dims[1] as u64);
        proof {
            assert(d01 * self.dims[2] == size_spec(self.dims) && size_spec(self.dims) >= 0)
                by (nonlinear_arith)
                requires
                    d01 == self.dims[0] * self.dims[1],
            ;
        }
        (d01 * (self.dims[2] as u64)) as u32
    }

    /// Returns the row-major flat offset of the coordinate `p`.
    pub fn linearize(&self, p: [u32; 3]) -> (i: u32)
        requires
            in_dims(self.dims_spec(), pt(p)),
        ensures
            i == linearize_spec(self.dims_spec(), pt(p)),
    {
        proof {
            use_type_invariant(&*self);
            lemma_linearize_bound(self.dims, pt(p));
            lemma_u32_products_fit(self.dims[1] as int, p[2] as int);
        }
        let inner: u64 = (p[1] as u64) + (self.dims[1] as u64) * (p[2] as u64);
        let flat: u64 = (p[0] as u64) + (self.dims[0] as u64) * inner;
        flat as u32
    }

    /// Returns the constant offset delta of one cell of movement along the
    /// axis `a`.
    pub fn stride(&self, a: Axis) -> (s: u32)
        requires
            1 <= self.dims_spec()[2],
        ensures
            s == stride_spec(self.dims_spec(), a),
    {
        proof {
            use_type_invariant(&*self);
        }
        match a {
            Axis::X => 1,
            Axis::Y => self.dims[0],
            Axis::Z => {
                proof {
                    lemma_u32_products_fit(self.dims[0] as int, self.dims[1] as int);
                    assert(self.dims[0] * self.dims[1] <= size_spec(self.dims))
                        by (nonlinear_arith)
                        requires
                            self.dims[2] >= 1,
                            size_spec(self.dims) == self.dims[0] * self.dims[1] * self.dims[2],
                    ;
                }
                ((self.dims[0] as u64) * (self.dims[1] as u64)) as u32
            },
        }
    }

    /// Returns the coordinate whose row-major flat offset is `i`: the inverse
    /// of [`GridShape::linearize`].
    pub fn delinearize(&self, i: u32) -> (p: [u32; 3])
        requires
            i < size_spec(self.dims_spec()),
        ensures
            in_dims(self.dims_spec(), pt(p)),
            linearize_spec(self.dims_spec(), pt(p)) == i,
    {
        proof {
            use_type_invariant(&*self);
            assert(self.dims[0] >= 1 && self.dims[1] >= 1 && self.dims[2] >= 1)
                by (nonlinear_arith)
                requires
                    self.dims[0] * self.dims[1] * self.dims[2] > i,
                    i >= 0,
            ;
        }
        let x = i % self.dims[0];
        let rest = i / self.dims[0];
        let y = rest % self.dims[1];
        let z = rest / self.dims[1];
        proof {
            let d0 = self.dims[0] as int;
            let d1 = self.dims[1] as int;
            let d2 = self.dims[2] as int;
            vstd::arithmetic::div_mod::lemma_fundamental_div_mod(i as int, d0);
            vstd::arithmetic::div_mod::lemma_mod_bound(i as int, d0);
            vstd::arithmetic::div_mod::lemma_fundamental_div_mod(rest as int, d1);
            vstd::arithmetic::div_mod::lemma_mod_bound(rest as int, d1);
            assert(size_spec(self.dims) == d0 * (d1 * d2)) by (nonlinear_arith)
                requires
                    size_spec(self.dims) == (d0 * d1) * d2,
            ;
            assert(rest < d1 * d2) by (nonlinear_arith)
                requires
                    i == d0 * rest + x,
                    i < d0 * (d1 * d2),
                    0 <= x,
                    d0 >= 1,
                    rest >= 0,
                    d1 * d2 >= 0,
            ;
            assert(z < d2) by (nonlinear_arith)
                requires
                    rest == d1 * z + y,
                    rest < d1 * d2,
                    0 <= y,
                    d1 >= 1,
                    z >= 0,
            ;
            assert(x + d0 * (y + d1 * z) == i) by (nonlinear_arith)
                requires
                    i == d0 * rest + x,
                    rest == d1 * z + y,
            ;
        }
        [x, y, z]
    }
}

/// Products of two values that each fit in `u32` stay comfortably inside
/// `u64` arithmetic.
proof fn lemma_u32_products_fit(a: int, b: int)
    requires
        0 <= a <= u32::MAX,
        0 <= b <= u32::MAX,
    ensures
        0 <= a * b <= 0xffff_fffe_0000_0001,
{
    assert(a * b <= 0xffff_fffe_0000_0001 && a * b >= 0) by (nonlinear_arith)
        requires
            0 <= a <= 0xffff_ffff,
            0 <= b <= 0xffff_ffff,
    ;
}

/// Reads the component of `p` on the axis `a`.
pub fn coord_get(p: [u32; 3], a: Axis) -> (v: u32)
    ensures
        v == axis_val(pt(p), a),
{
    match a {
        Axis::X => p[0],
        Axis::Y => p[1],
        Axis::Z => p[2],
    }
}

/// Replaces the component of `p` on the axis `a` with `v`.
pub fn coord_set(p: [u32; 3], a: Axis, v: u32) -> (q: [u32; 3])
    ensures
        pt(q) == axis_shift(pt(p), a, v - axis_val(pt(p), a)),
        axis_val(pt(q), a) == v,
{
    match a {
        Axis::X => [v, p[1], p[2]],
        Axis::Y => [p[0], v, p[2]],
        Axis::Z => [p[0], p[1], v],
    }
}

} // verus!
