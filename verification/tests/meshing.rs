//! Tests for the two meshing algorithms and the properties that tie them
//! together.

use block_mesh::{
    assert_in_bounds, greedy_quads, right_handed_y_up_config, visible_block_faces, BoolVoxel,
    GreedyQuadsBuffer, GridShape, MaterialVoxel, MeshError, OrientedBlockFace, UnitQuadBuffer,
    UnorientedQuad, VoxelVisibility,
};

/// Expands one greedy quad into the cells it covers.
fn covered_cells<V: Copy>(face: &OrientedBlockFace, q: &UnorientedQuad<V>) -> Vec<[u32; 3]> {
    let axes = face.permutation().axes();
    let iu = axes[1].index();
    let iv = axes[2].index();
    let mut cells = Vec::new();
    for du in 0..q.width {
        for dv in 0..q.height {
            let mut c = q.minimum;
            c[iu] += du;
            c[iv] += dv;
            cells.push(c);
        }
    }
    cells
}

fn fill_box(voxels: &mut [BoolVoxel], shape: &GridShape, lo: [u32; 3], hi: [u32; 3]) {
    for x in lo[0]..=hi[0] {
        for y in lo[1]..=hi[1] {
            for z in lo[2]..=hi[2] {
                voxels[shape.linearize([x, y, z]) as usize] = BoolVoxel(true);
            }
        }
    }
}

#[test]
fn empty_input_yields_no_quads() {
    let shape = GridShape::new([8, 8, 8]).unwrap();
    let voxels = vec![BoolVoxel(false); shape.size() as usize];
    let config = right_handed_y_up_config();

    let mut units = UnitQuadBuffer::new();
    let r = visible_block_faces(&voxels, &shape, [0; 3], [7; 3], &config.faces, &mut units);
    assert!(r.is_ok());
    assert_eq!(units.num_quads(), 0);

    let mut merged = GreedyQuadsBuffer::new(voxels.len());
    let r = greedy_quads(&voxels, &shape, [0; 3], [7; 3], &config.faces, &mut merged);
    assert!(r.is_ok());
    assert_eq!(merged.quads.num_quads(), 0);
}

#[test]
fn solid_cube_meshes_to_six_full_quads() {
    // A 20x20x20 opaque region centered with a one-cell empty boundary in a
    // 22x22x22 grid.
    let shape = GridShape::new([22, 22, 22]).unwrap();
    let mut voxels = vec![BoolVoxel(false); shape.size() as usize];
    fill_box(&mut voxels, &shape, [1, 1, 1], [20, 20, 20]);
    let config = right_handed_y_up_config();

    let mut merged = GreedyQuadsBuffer::new(voxels.len());
    let r = greedy_quads(&voxels, &shape, [0; 3], [21; 3], &config.faces, &mut merged);
    assert!(r.is_ok());
    assert_eq!(merged.quads.num_quads(), 6);
    for group in merged.quads.groups.iter() {
        assert_eq!(group.len(), 1);
        assert_eq!(group[0].width, 20);
        assert_eq!(group[0].height, 20);
    }

    let mut units = UnitQuadBuffer::new();
    let r = visible_block_faces(&voxels, &shape, [0; 3], [21; 3], &config.faces, &mut units);
    assert!(r.is_ok());
    assert_eq!(units.num_quads(), 2400);
    for group in units.groups.iter() {
        assert_eq!(group.len(), 400);
    }
}

#[test]
fn coverage_and_area_match_between_algorithms() {
    // An irregular scene: a plate, a tower and a loose cell.
    let shape = GridShape::new([12, 12, 12]).unwrap();
    let mut voxels = vec![BoolVoxel(false); shape.size() as usize];
    fill_box(&mut voxels, &shape, [1, 1, 1], [8, 1, 8]);
    fill_box(&mut voxels, &shape, [3, 2, 3], [4, 9, 4]);
    fill_box(&mut voxels, &shape, [7, 4, 7], [7, 4, 7]);
    let config = right_handed_y_up_config();

    let mut merged = GreedyQuadsBuffer::new(voxels.len());
    greedy_quads(&voxels, &shape, [0; 3], [11; 3], &config.faces, &mut merged).unwrap();
    let mut units = UnitQuadBuffer::new();
    visible_block_faces(&voxels, &shape, [0; 3], [11; 3], &config.faces, &mut units).unwrap();

    for f in 0..6 {
        // Expanding every greedy quad into its covered unit cells yields
        // exactly the unit cells of the simple algorithm.
        let mut greedy_cells: Vec<[u32; 3]> = Vec::new();
        for q in merged.quads.groups[f].iter() {
            greedy_cells.extend(covered_cells(&config.faces[f], q));
        }
        let mut unit_cells: Vec<[u32; 3]> =
            units.groups[f].iter().map(|q| q.minimum).collect();
        greedy_cells.sort();
        unit_cells.sort();
        assert_eq!(greedy_cells, unit_cells);
        // No cell is covered twice.
        for pair in greedy_cells.windows(2) {
            assert_ne!(pair[0], pair[1]);
        }
        // Area conservation: the summed quad areas equal the unit count.
        let area: u64 = merged.quads.groups[f]
            .iter()
            .map(|q| q.width as u64 * q.height as u64)
            .sum();
        assert_eq!(area, units.groups[f].len() as u64);
    }
    // The scene is non-trivial and merging really reduced the quad count.
    assert!(units.num_quads() > 0);
    assert!(merged.quads.num_quads() < units.num_quads());
}

#[test]
fn differing_materials_never_merge() {
    let shape = GridShape::new([4, 3, 3]).unwrap();
    let empty = MaterialVoxel { vis: VoxelVisibility::Empty, material: 0 };
    let mut voxels = vec![empty; shape.size() as usize];
    voxels[shape.linearize([1, 1, 1]) as usize] =
        MaterialVoxel { vis: VoxelVisibility::Opaque, material: 1 };
    voxels[shape.linearize([2, 1, 1]) as usize] =
        MaterialVoxel { vis: VoxelVisibility::Opaque, material: 2 };
    let config = right_handed_y_up_config();

    let mut merged = GreedyQuadsBuffer::new(voxels.len());
    greedy_quads(&voxels, &shape, [0; 3], [3, 2, 2], &config.faces, &mut merged).unwrap();
    // Ten faces are visible (the two shared ones are occluded), and none of
    // them merged: every quad is a unit quad.
    assert_eq!(merged.quads.num_quads(), 10);
    for group in merged.quads.groups.iter() {
        for q in group.iter() {
            assert_eq!((q.width, q.height), (1, 1));
        }
    }
}

#[test]
fn equal_materials_merge() {
    let shape = GridShape::new([4, 3, 3]).unwrap();
    let empty = MaterialVoxel { vis: VoxelVisibility::Empty, material: 0 };
    let mut voxels = vec![empty; shape.size() as usize];
    voxels[shape.linearize([1, 1, 1]) as usize] =
        MaterialVoxel { vis: VoxelVisibility::Opaque, material: 1 };
    voxels[shape.linearize([2, 1, 1]) as usize] =
        MaterialVoxel { vis: VoxelVisibility::Opaque, material: 1 };
    let config = right_handed_y_up_config();

    let mut merged = GreedyQuadsBuffer::new(voxels.len());
    greedy_quads(&voxels, &shape, [0; 3], [3, 2, 2], &config.faces, &mut merged).unwrap();
    // The four lateral direction pairs merge into one 2x1 quad each; the
    // two X-cap faces stay unit quads.
    assert_eq!(merged.quads.num_quads(), 6);
    let mut areas: Vec<u32> = Vec::new();
    for group in merged.quads.groups.iter() {
        for q in group.iter() {
            areas.push(q.width * q.height);
        }
    }
    areas.sort();
    assert_eq!(areas, vec![1, 1, 2, 2, 2, 2]);
}

#[test]
fn translucent_pair_generates_no_face_between() {
    let shape = GridShape::new([4, 3, 3]).unwrap();
    let empty = MaterialVoxel { vis: VoxelVisibility::Empty, material: 0 };
    let glass = MaterialVoxel { vis: VoxelVisibility::Translucent, material: 1 };
    let mut voxels = vec![empty; shape.size() as usize];
    voxels[shape.linearize([1, 1, 1]) as usize] = glass;
    voxels[shape.linearize([2, 1, 1]) as usize] = glass;
    let config = right_handed_y_up_config();

    let mut units = UnitQuadBuffer::new();
    visible_block_faces(&voxels, &shape, [0; 3], [3, 2, 2], &config.faces, &mut units).unwrap();
    // Faces toward empty space are emitted...
    assert!(units.groups[0].iter().any(|q| q.minimum == [1, 1, 1]));
    assert!(units.groups[3].iter().any(|q| q.minimum == [2, 1, 1]));
    // ...but no face between the two translucent cells, in either direction.
    assert!(!units.groups[3].iter().any(|q| q.minimum == [1, 1, 1]));
    assert!(!units.groups[0].iter().any(|q| q.minimum == [2, 1, 1]));
    assert_eq!(units.num_quads(), 10);

    let mut merged = GreedyQuadsBuffer::new(voxels.len());
    greedy_quads(&voxels, &shape, [0; 3], [3, 2, 2], &config.faces, &mut merged).unwrap();
    assert!(!merged.quads.groups[3].iter().any(|q| q.minimum == [1, 1, 1]));
    assert!(!merged.quads.groups[0].iter().any(|q| q.minimum == [2, 1, 1]));
}

#[test]
fn translucent_face_needs_opaque_cell() {
    // An opaque cell behind a translucent one: the opaque cell's face
    // toward the translucent neighbour is emitted, the translucent cell's
    // face toward the opaque neighbour is not.
    let shape = GridShape::new([4, 3, 3]).unwrap();
    let empty = MaterialVoxel { vis: VoxelVisibility::Empty, material: 0 };
    let mut voxels = vec![empty; shape.size() as usize];
    voxels[shape.linearize([1, 1, 1]) as usize] =
        MaterialVoxel { vis: VoxelVisibility::Opaque, material: 1 };
    voxels[shape.linearize([2, 1, 1]) as usize] =
        MaterialVoxel { vis: VoxelVisibility::Translucent, material: 2 };
    let config = right_handed_y_up_config();

    let mut units = UnitQuadBuffer::new();
    visible_block_faces(&voxels, &shape, [0; 3], [3, 2, 2], &config.faces, &mut units).unwrap();
    // +X face of the opaque cell is visible through the glass.
    assert!(units.groups[3].iter().any(|q| q.minimum == [1, 1, 1]));
    // -X face of the glass cell is occluded by the opaque cell.
    assert!(!units.groups[0].iter().any(|q| q.minimum == [2, 1, 1]));
}

#[test]
fn greedy_rejects_max_out_of_bounds() {
    let shape = GridShape::new([34, 34, 34]).unwrap();
    let samples = vec![BoolVoxel(false); shape.size() as usize];
    let config = right_handed_y_up_config();
    let mut buffer = GreedyQuadsBuffer::new(samples.len());
    let r = greedy_quads(&samples, &shape, [0; 3], [34, 33, 33], &config.faces, &mut buffer);
    assert_eq!(r, Err(MeshError::InvalidExtent));
}

#[test]
fn greedy_rejects_min_out_of_bounds() {
    let shape = GridShape::new([34, 34, 34]).unwrap();
    let samples = vec![BoolVoxel(false); shape.size() as usize];
    let config = right_handed_y_up_config();
    let mut buffer = GreedyQuadsBuffer::new(samples.len());
    let r = greedy_quads(&samples, &shape, [0, 34, 0], [33; 3], &config.faces, &mut buffer);
    assert_eq!(r, Err(MeshError::InvalidExtent));
}

#[test]
fn simple_rejects_max_out_of_bounds() {
    let shape = GridShape::new([34, 34, 34]).unwrap();
    let samples = vec![BoolVoxel(false); shape.size() as usize];
    let config = right_handed_y_up_config();
    let mut buffer = UnitQuadBuffer::new();
    let r = visible_block_faces(&samples, &shape, [0; 3], [34, 33, 33], &config.faces, &mut buffer);
    assert_eq!(r, Err(MeshError::InvalidExtent));
    assert_eq!(buffer.num_quads(), 0);
}

#[test]
fn simple_rejects_min_out_of_bounds() {
    let shape = GridShape::new([34, 34, 34]).unwrap();
    let samples = vec![BoolVoxel(false); shape.size() as usize];
    let config = right_handed_y_up_config();
    let mut buffer = UnitQuadBuffer::new();
    let r = visible_block_faces(&samples, &shape, [0, 34, 0], [33; 3], &config.faces, &mut buffer);
    assert_eq!(r, Err(MeshError::InvalidExtent));
}

#[test]
fn degenerate_extent_is_rejected() {
    // A min coordinate equal to the max coordinate fails the positivity
    // check, for both algorithms.
    let shape = GridShape::new([8, 8, 8]).unwrap();
    let samples = vec![BoolVoxel(false); shape.size() as usize];
    let config = right_handed_y_up_config();
    let mut units = UnitQuadBuffer::new();
    let r = visible_block_faces(&samples, &shape, [2, 2, 2], [2, 7, 7], &config.faces, &mut units);
    assert_eq!(r, Err(MeshError::InvalidExtent));
    let mut merged = GreedyQuadsBuffer::new(samples.len());
    let r = greedy_quads(&samples, &shape, [2, 2, 2], [2, 7, 7], &config.faces, &mut merged);
    assert_eq!(r, Err(MeshError::InvalidExtent));
}

#[test]
fn short_buffer_is_rejected() {
    let shape = GridShape::new([8, 8, 8]).unwrap();
    let samples = vec![BoolVoxel(false); 100];
    let config = right_handed_y_up_config();
    let mut units = UnitQuadBuffer::new();
    let r = visible_block_faces(&samples, &shape, [0; 3], [7; 3], &config.faces, &mut units);
    assert_eq!(r, Err(MeshError::BufferTooSmall));
    let mut merged = GreedyQuadsBuffer::new(samples.len());
    let r = greedy_quads(&samples, &shape, [0; 3], [7; 3], &config.faces, &mut merged);
    assert_eq!(r, Err(MeshError::BufferTooSmall));
    assert_eq!(assert_in_bounds(&samples, &shape, [0; 3], [7; 3]), Err(MeshError::BufferTooSmall));
}

#[test]
fn assert_in_bounds_accepts_valid_queries() {
    let shape = GridShape::new([8, 8, 8]).unwrap();
    let samples = vec![BoolVoxel(false); shape.size() as usize];
    assert_eq!(assert_in_bounds(&samples, &shape, [0; 3], [7; 3]), Ok(()));
    assert_eq!(assert_in_bounds(&samples, &shape, [1, 2, 3], [4, 5, 6]), Ok(()));
    assert_eq!(
        assert_in_bounds(&samples, &shape, [0; 3], [8, 7, 7]),
        Err(MeshError::InvalidExtent)
    );
}

#[test]
fn buffers_are_reusable_between_calls() {
    let shape = GridShape::new([6, 6, 6]).unwrap();
    let mut voxels = vec![BoolVoxel(false); shape.size() as usize];
    fill_box(&mut voxels, &shape, [2, 2, 2], [3, 3, 3]);
    let config = right_handed_y_up_config();

    let mut merged = GreedyQuadsBuffer::new(voxels.len());
    greedy_quads(&voxels, &shape, [0; 3], [5; 3], &config.faces, &mut merged).unwrap();
    let first = merged.quads.num_quads();
    assert_eq!(first, 6);
    // A second run over the same input resets the buffer rather than
    // accumulating.
    greedy_quads(&voxels, &shape, [0; 3], [5; 3], &config.faces, &mut merged).unwrap();
    assert_eq!(merged.quads.num_quads(), first);

    // The simple algorithm appends: the caller resets.
    let mut units = UnitQuadBuffer::new();
    visible_block_faces(&voxels, &shape, [0; 3], [5; 3], &config.faces, &mut units).unwrap();
    let once = units.num_quads();
    visible_block_faces(&voxels, &shape, [0; 3], [5; 3], &config.faces, &mut units).unwrap();
    assert_eq!(units.num_quads(), 2 * once);
    units.reset();
    assert_eq!(units.num_quads(), 0);
}

#[test]
fn simple_emits_in_raster_order() {
    let shape = GridShape::new([5, 5, 5]).unwrap();
    let mut voxels = vec![BoolVoxel(false); shape.size() as usize];
    fill_box(&mut voxels, &shape, [1, 1, 1], [3, 3, 3]);
    let config = right_handed_y_up_config();
    let mut units = UnitQuadBuffer::new();
    visible_block_faces(&voxels, &shape, [0; 3], [4; 3], &config.faces, &mut units).unwrap();
    for group in units.groups.iter() {
        for pair in group.windows(2) {
            let a = shape.linearize(pair[0].minimum);
            let b = shape.linearize(pair[1].minimum);
            assert!(a < b);
        }
    }
}

#[test]
fn voxel_view_reads_plain_bools() {
    // A plain `bool` buffer meshed through the `BoolVoxel` view.
    let shape = GridShape::new([5, 5, 5]).unwrap();
    let mut bools = vec![false; shape.size() as usize];
    bools[shape.linearize([2, 2, 2]) as usize] = true;
    let config = right_handed_y_up_config();
    let mut units: UnitQuadBuffer<BoolVoxel> = UnitQuadBuffer::new();
    let r = block_mesh::visible_block_faces_with_voxel_view::<bool, BoolVoxel>(
        &bools,
        &shape,
        [0; 3],
        [4; 3],
        &config.faces,
        &mut units,
    );
    assert!(r.is_ok());
    assert_eq!(units.num_quads(), 6);
    for group in units.groups.iter() {
        assert_eq!(group.len(), 1);
        assert_eq!(group[0].minimum, [2, 2, 2]);
        assert_eq!(group[0].voxel, BoolVoxel(true));
    }
}

#[test]
fn identity_view_matches_direct_meshing() {
    let shape = GridShape::new([6, 6, 6]).unwrap();
    let mut voxels = vec![BoolVoxel(false); shape.size() as usize];
    fill_box(&mut voxels, &shape, [1, 1, 1], [4, 2, 3]);
    let config = right_handed_y_up_config();

    let mut direct = UnitQuadBuffer::new();
    visible_block_faces(&voxels, &shape, [0; 3], [5; 3], &config.faces, &mut direct).unwrap();
    let mut through_view: UnitQuadBuffer<BoolVoxel> = UnitQuadBuffer::new();
    block_mesh::visible_block_faces_with_voxel_view::<BoolVoxel, BoolVoxel>(
        &voxels,
        &shape,
        [0; 3],
        [5; 3],
        &config.faces,
        &mut through_view,
    )
    .unwrap();
    for f in 0..6 {
        assert_eq!(direct.groups[f], through_view.groups[f]);
    }
}
