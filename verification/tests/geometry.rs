//! Tests for the coordinate frame, the shape linearization, the quad
//! geometry and the output buffers.

use block_mesh::{
    quad_indices, Axis, AxisPermutation, BoolVoxel, GreedyQuadsBuffer, GridShape, MaterialVoxel,
    OrientedBlockFace, QuadBuffer, SignedAxis, UnitQuadBuffer, UnorientedQuad, UnorientedUnitQuad,
    Voxel, VoxelVisibility,
};

#[test]
fn axis_index_and_unit_vectors() {
    assert_eq!(Axis::X.index(), 0);
    assert_eq!(Axis::Y.index(), 1);
    assert_eq!(Axis::Z.index(), 2);
    assert_eq!(Axis::X.get_unit_vector(), [1, 0, 0]);
    assert_eq!(Axis::Y.get_unit_vector(), [0, 1, 0]);
    assert_eq!(Axis::Z.get_unit_vector(), [0, 0, 1]);
}

#[test]
fn permutation_axes_order() {
    assert_eq!(AxisPermutation::Xyz.axes(), [Axis::X, Axis::Y, Axis::Z]);
    assert_eq!(AxisPermutation::Zxy.axes(), [Axis::Z, Axis::X, Axis::Y]);
    assert_eq!(AxisPermutation::Yzx.axes(), [Axis::Y, Axis::Z, Axis::X]);
    assert_eq!(AxisPermutation::Zyx.axes(), [Axis::Z, Axis::Y, Axis::X]);
    assert_eq!(AxisPermutation::Xzy.axes(), [Axis::X, Axis::Z, Axis::Y]);
    assert_eq!(AxisPermutation::Yxz.axes(), [Axis::Y, Axis::X, Axis::Z]);
}

#[test]
fn permutation_parity() {
    assert_eq!(AxisPermutation::Xyz.sign(), 1);
    assert_eq!(AxisPermutation::Zxy.sign(), 1);
    assert_eq!(AxisPermutation::Yzx.sign(), 1);
    assert_eq!(AxisPermutation::Zyx.sign(), -1);
    assert_eq!(AxisPermutation::Xzy.sign(), -1);
    assert_eq!(AxisPermutation::Yxz.sign(), -1);
    assert_eq!(AxisPermutation::even_with_normal_axis(Axis::Y), AxisPermutation::Yzx);
    assert_eq!(AxisPermutation::odd_with_normal_axis(Axis::Y), AxisPermutation::Yxz);
}

#[test]
fn signed_axis_round_trips() {
    assert_eq!(SignedAxis::new(1, Axis::X), SignedAxis::PosX);
    assert_eq!(SignedAxis::new(-3, Axis::Z), SignedAxis::NegZ);
    assert_eq!(SignedAxis::PosY.unsigned_axis(), Axis::Y);
    assert_eq!(SignedAxis::NegY.signum(), -1);
    assert_eq!(SignedAxis::PosZ.signum(), 1);
    assert_eq!(SignedAxis::NegX.get_unit_vector(), [-1, 0, 0]);
    assert_eq!(SignedAxis::PosZ.get_unit_vector(), [0, 0, 1]);
    assert_eq!(SignedAxis::from_vector([0, 0, 5]), Some(SignedAxis::PosZ));
    assert_eq!(SignedAxis::from_vector([0, -2, 0]), Some(SignedAxis::NegY));
    assert_eq!(SignedAxis::from_vector([1, 1, 0]), None);
}

#[test]
fn canonical_faces() {
    let f = OrientedBlockFace::canonical(SignedAxis::NegY);
    assert_eq!(f.n_sign(), -1);
    assert_eq!(f.permutation(), AxisPermutation::Yzx);
    assert_eq!(f.signed_normal(), [0, -1, 0]);
    let g = OrientedBlockFace::canonical(SignedAxis::PosZ);
    assert_eq!(g.n_sign(), 1);
    assert_eq!(g.signed_normal(), [0, 0, 1]);
}

#[test]
fn quad_corners_positive_normal_offsets_by_one() {
    // Normal axis X (positive), U axis Z, V axis Y.
    let face = OrientedBlockFace::new(1, AxisPermutation::Xzy);
    let quad: UnorientedQuad<BoolVoxel> = UnorientedQuad {
        minimum: [2, 3, 4],
        width: 2,
        height: 3,
        voxel: BoolVoxel(true),
    };
    let corners = face.quad_corners(&quad);
    assert_eq!(corners, [[3, 3, 4], [3, 3, 6], [3, 6, 4], [3, 6, 6]]);
}

#[test]
fn quad_corners_negative_normal_stays() {
    let face = OrientedBlockFace::new(-1, AxisPermutation::Xzy);
    let quad: UnorientedQuad<BoolVoxel> = UnorientedQuad {
        minimum: [2, 3, 4],
        width: 1,
        height: 1,
        voxel: BoolVoxel(true),
    };
    let corners = face.quad_corners(&quad);
    assert_eq!(corners, [[2, 3, 4], [2, 3, 5], [2, 4, 4], [2, 4, 5]]);
}

#[test]
fn quad_indices_windings() {
    assert_eq!(quad_indices(0, true), [0, 1, 2, 1, 3, 2]);
    assert_eq!(quad_indices(4, false), [4, 6, 5, 5, 6, 7]);
    // n_sign = 1 and an odd permutation wind clockwise.
    let face = OrientedBlockFace::new(1, AxisPermutation::Xzy);
    assert_eq!(face.quad_mesh_indices(8), [8, 10, 9, 9, 10, 11]);
    // n_sign = -1 and an odd permutation wind counter-clockwise.
    let face = OrientedBlockFace::new(-1, AxisPermutation::Xzy);
    assert_eq!(face.quad_mesh_indices(0), [0, 1, 2, 1, 3, 2]);
}

#[test]
fn tex_coords_flip_rules() {
    let quad: UnorientedQuad<BoolVoxel> = UnorientedQuad {
        minimum: [0, 0, 0],
        width: 3,
        height: 2,
        voxel: BoolVoxel(true),
    };
    // +X face with u_flip_face = X: U is mirrored.
    let face = OrientedBlockFace::new(1, AxisPermutation::Xzy);
    assert_eq!(
        face.tex_coords(Axis::X, false, &quad),
        [[3, 0], [0, 0], [3, 2], [0, 2]]
    );
    // -X face with u_flip_face = X: not mirrored.
    let face = OrientedBlockFace::new(-1, AxisPermutation::Xzy);
    assert_eq!(
        face.tex_coords(Axis::X, false, &quad),
        [[0, 0], [3, 0], [0, 2], [3, 2]]
    );
    // V flipped.
    assert_eq!(
        face.tex_coords(Axis::X, true, &quad),
        [[0, 2], [3, 2], [0, 0], [3, 0]]
    );
}

#[test]
fn right_handed_y_up_layout() {
    let config = block_mesh::right_handed_y_up_config();
    assert_eq!(config.u_flip_face, Axis::X);
    let signs: Vec<i32> = config.faces.iter().map(|f| f.n_sign()).collect();
    assert_eq!(signs, vec![-1, -1, -1, 1, 1, 1]);
    let perms: Vec<AxisPermutation> = config.faces.iter().map(|f| f.permutation()).collect();
    assert_eq!(
        perms,
        vec![
            AxisPermutation::Xzy,
            AxisPermutation::Yzx,
            AxisPermutation::Zxy,
            AxisPermutation::Xzy,
            AxisPermutation::Yzx,
            AxisPermutation::Zxy,
        ]
    );
    // Each face's normal axis matches its position in the array.
    for (i, f) in config.faces.iter().enumerate() {
        assert_eq!(f.permutation().axes()[0].index(), i % 3);
    }
}

#[test]
fn grid_shape_linearize_round_trip() {
    let shape = GridShape::new([4, 3, 2]).unwrap();
    assert_eq!(shape.size(), 24);
    assert_eq!(shape.as_array(), [4, 3, 2]);
    assert_eq!(shape.linearize([0, 0, 0]), 0);
    assert_eq!(shape.linearize([1, 2, 1]), 21);
    assert_eq!(shape.linearize([3, 2, 1]), 23);
    assert_eq!(shape.delinearize(21), [1, 2, 1]);
    for i in 0..24 {
        assert_eq!(shape.linearize(shape.delinearize(i)), i);
    }
}

#[test]
fn grid_shape_rejects_huge_grids() {
    assert!(GridShape::new([65536, 65536, 2]).is_none());
    assert!(GridShape::new([4096, 4096, 256]).is_none());
    // A zero dimension keeps the element count at zero, however large the
    // other dimensions are.
    let flat = GridShape::new([70000, 70000, 0]).unwrap();
    assert_eq!(flat.size(), 0);
}

#[test]
fn buffers_start_empty_and_reset() {
    let mut quads: QuadBuffer<BoolVoxel> = QuadBuffer::new();
    assert_eq!(quads.num_quads(), 0);
    quads.groups[2].push(UnorientedQuad {
        minimum: [0, 0, 0],
        width: 1,
        height: 1,
        voxel: BoolVoxel(true),
    });
    assert_eq!(quads.num_quads(), 1);
    quads.reset();
    assert_eq!(quads.num_quads(), 0);

    let mut units: UnitQuadBuffer<BoolVoxel> = UnitQuadBuffer::new();
    assert_eq!(units.num_quads(), 0);
    units.groups[5].push(UnorientedUnitQuad { minimum: [1, 2, 3], voxel: BoolVoxel(true) });
    assert_eq!(units.num_quads(), 1);
    units.reset();
    assert_eq!(units.num_quads(), 0);

    let mut greedy: GreedyQuadsBuffer<BoolVoxel> = GreedyQuadsBuffer::new(8);
    assert_eq!(greedy.visited.len(), 8);
    greedy.reset(27);
    assert_eq!(greedy.visited.len(), 27);
    assert_eq!(greedy.quads.num_quads(), 0);
}

#[test]
fn unit_quad_widens_to_quad() {
    let unit = UnorientedUnitQuad { minimum: [7, 8, 9], voxel: BoolVoxel(true) };
    let quad: UnorientedQuad<BoolVoxel> = UnorientedQuad::from(unit);
    assert_eq!(quad.minimum, [7, 8, 9]);
    assert_eq!(quad.width, 1);
    assert_eq!(quad.height, 1);
    assert_eq!(quad.voxel, BoolVoxel(true));
}

#[test]
fn sample_voxel_visibility() {
    assert_eq!(BoolVoxel(false).get_visibility(), VoxelVisibility::Empty);
    assert_eq!(BoolVoxel(true).get_visibility(), VoxelVisibility::Opaque);
    let glass = MaterialVoxel { vis: VoxelVisibility::Translucent, material: 7 };
    assert_eq!(glass.get_visibility(), VoxelVisibility::Translucent);
}
