use voxel_terrain::chunk::{Block, BlockKind, Chunk, ChunkDims, ConfigError};
use voxel_terrain::constants::{face_table, FaceKind, Vector, VertexIndex, CHUNK_HEIGHT, CHUNK_LENGTH, CHUNK_WIDTH};
use voxel_terrain::mesh::{generate_cube_mesh, generate_mesh, ChunkMeshGenerator, MeshData};
use voxel_terrain::world::WorldRegistry;

fn dims(w: u64, l: u64, h: u64) -> ChunkDims {
    ChunkDims::new(w, l, h).unwrap()
}

fn air_chunk(d: ChunkDims) -> Chunk {
    let size = (d.width * d.length * d.height) as usize;
    Chunk { dims: d, voxels: vec![Block::new(BlockKind::AIR, false); size] }
}

fn single_voxel_chunk() -> Chunk {
    let d = dims(4, 4, 4);
    let mut c = air_chunk(d);
    let i = Chunk::get_index(&d, (1, 1, 1));
    c.voxels[i] = Block::new(BlockKind::GRASS, false);
    c
}

fn is_unit_axis(n: (i64, i64, i64)) -> bool {
    [(1, 0, 0), (-1, 0, 0), (0, 1, 0), (0, -1, 0), (0, 0, 1), (0, 0, -1)].contains(&n)
}

#[test]
fn index_coordinate_round_trip() {
    for d in [dims(4, 4, 4), dims(3, 3, 7), dims(CHUNK_WIDTH, CHUNK_LENGTH, 8)] {
        let size = d.width * d.length * d.height;
        for i in 0..size {
            let (x, y, z) = Chunk::get_local_coord(&d, i);
            assert!(x < d.width && y < d.height && z < d.length);
            assert_eq!(Chunk::get_index(&d, (x, y, z)) as u64, i);
        }
        for y in 0..d.height {
            for z in 0..d.length {
                for x in 0..d.width {
                    let i = Chunk::get_index(&d, (x, y, z)) as u64;
                    assert_eq!(Chunk::get_local_coord(&d, i), (x, y, z));
                }
            }
        }
    }
}

#[test]
fn index_formula_values() {
    let d = dims(CHUNK_WIDTH, CHUNK_LENGTH, CHUNK_HEIGHT);
    assert_eq!(Chunk::get_index(&d, (3, 2, 5)), 2 * 64 * 64 + 5 * 64 + 3);
    assert_eq!(Chunk::get_local_coord(&d, 2 * 64 * 64 + 5 * 64 + 3), (3, 2, 5));
    assert_eq!(Chunk::get_local_coord(&d, 64 * 64 * 256 - 1), (63, 255, 63));
}

#[test]
fn generate_is_deterministic() {
    let d = dims(8, 8, 16);
    let heights: Vec<i64> = (0..64).map(|c| (c * 7 % 19) as i64 - 2).collect();
    let a = Chunk::generate(&d, &heights);
    let b = Chunk::generate(&d, &heights);
    assert_eq!(a.voxels, b.voxels);
    assert_eq!(a.dims, b.dims);
}

#[test]
fn generate_fills_below_column_height() {
    let d = dims(2, 2, 4);
    let heights: Vec<i64> = vec![2, 0, -3, 9];
    let c = Chunk::generate(&d, &heights);
    assert_eq!(c.voxels.len(), 16);
    for y in 0..4u64 {
        for z in 0..2u64 {
            for x in 0..2u64 {
                let b = c.get_voxel((x as i64, y as i64, z as i64)).unwrap();
                let h = heights[(z * 2 + x) as usize];
                let want = if (y as i64) < h { BlockKind::GRASS } else { BlockKind::AIR };
                assert_eq!(b.kind, want);
                assert!(!b.is_placed);
            }
        }
    }
    assert_eq!(c.get_voxel((0, 1, 0)).unwrap().kind, BlockKind::GRASS);
    assert_eq!(c.get_voxel((0, 2, 0)).unwrap().kind, BlockKind::AIR);
    assert_eq!(c.get_voxel((1, 3, 1)).unwrap().kind, BlockKind::GRASS);
}

#[test]
fn new_chunk_is_unplaced_grass() {
    let d = dims(4, 4, 2);
    let c = Chunk::new(&d);
    assert_eq!(c.voxels.len(), 32);
    assert!(c.voxels.iter().all(|b| *b == Block::new(BlockKind::GRASS, false)));
}

#[test]
fn get_voxel_outside_is_none() {
    let c = single_voxel_chunk();
    assert!(c.get_voxel((-1, 0, 0)).is_none());
    assert!(c.get_voxel((0, -1, 0)).is_none());
    assert!(c.get_voxel((0, 0, -1)).is_none());
    assert!(c.get_voxel((4, 0, 0)).is_none());
    assert!(c.get_voxel((0, 4, 0)).is_none());
    assert!(c.get_voxel((0, 0, 4)).is_none());
    assert_eq!(c.get_voxel((1, 1, 1)).unwrap().kind, BlockKind::GRASS);
    assert_eq!(c.get_voxel((3, 3, 3)).unwrap().kind, BlockKind::AIR);
}

#[test]
fn dims_rejections() {
    assert_eq!(ChunkDims::new(0, 4, 4), Err(ConfigError::ZeroDimension));
    assert_eq!(ChunkDims::new(4, 0, 4), Err(ConfigError::ZeroDimension));
    assert_eq!(ChunkDims::new(4, 4, 0), Err(ConfigError::ZeroDimension));
    assert_eq!(ChunkDims::new(4, 5, 4), Err(ConfigError::NotSquare));
    assert_eq!(ChunkDims::new(1 << 14, 1 << 14, 1 << 10), Err(ConfigError::TooLarge));
    assert_eq!(ChunkDims::new(u64::MAX, u64::MAX, 1), Err(ConfigError::TooLarge));
    assert_eq!(ChunkDims::new(1 << 13, 1 << 13, 2), Ok(ChunkDims { width: 1 << 13, length: 1 << 13, height: 2 }));
    assert_eq!(
        ChunkDims::new(64, 64, 256),
        Ok(ChunkDims { width: 64, length: 64, height: 256 })
    );
}

#[test]
fn all_air_chunk_meshes_to_nothing() {
    let d = dims(4, 4, 4);
    let heights: Vec<i64> = vec![0; 16];
    let c = Chunk::generate(&d, &heights);
    for optimized in [true, false] {
        let m: MeshData = generate_mesh(&c, optimized).build();
        assert_eq!(m.face_count, 0);
        assert!(m.positions.is_empty());
        assert!(m.normals.is_empty());
        assert!(m.uvs.is_empty());
        assert!(m.indices.is_empty());
    }
}

#[test]
fn enclosed_voxel_emits_no_faces() {
    // Only the 54 outer faces of a solid 3x3x3 block are visible.
    let d = dims(3, 3, 3);
    let c = Chunk::new(&d);
    let m = generate_mesh(&c, true).build();
    assert_eq!(m.face_count, 54);
    assert_eq!(m.positions.len(), 216);
    assert_eq!(m.indices.len(), 324);
    // Without culling every voxel emits all six faces.
    let all = generate_mesh(&c, false).build();
    assert_eq!(all.face_count, 162);
}

#[test]
fn isolated_voxel_end_to_end() {
    let c = single_voxel_chunk();
    let m = generate_mesh(&c, true).build();
    assert_eq!(m.face_count, 6);
    assert_eq!(m.positions.len(), 24);
    assert_eq!(m.normals.len(), 24);
    assert_eq!(m.uvs.len(), 24);
    assert_eq!(m.indices.len(), 36);
    assert!(m.normals.iter().all(|n| is_unit_axis(*n)));
    // Faces come in table order: Left, Right, Front, Back, Top, Bottom.
    let expected = [(-1, 0, 0), (1, 0, 0), (0, 0, 1), (0, 0, -1), (0, 1, 0), (0, -1, 0)];
    for f in 0..6 {
        for v in 0..4 {
            assert_eq!(m.normals[4 * f + v], expected[f]);
        }
    }
}

#[test]
fn isolated_voxel_at_corner_is_exposed_at_boundary() {
    let d = dims(4, 4, 4);
    let mut c = air_chunk(d);
    c.voxels[0] = Block::new(BlockKind::GRASS, false);
    let m = generate_mesh(&c, true).build();
    assert_eq!(m.face_count, 6);
}

#[test]
fn triangle_pattern_per_face() {
    let m = generate_mesh(&single_voxel_chunk(), true).build();
    for f in 0..6u32 {
        let s = (6 * f) as usize;
        assert_eq!(&m.indices[s..s + 6], &[4 * f, 4 * f + 1, 4 * f + 2, 4 * f + 2, 4 * f + 1, 4 * f + 3]);
    }
}

#[test]
fn texture_lookup() {
    assert_eq!(BlockKind::GRASS.get_tex_coord(&FaceKind::Top), (14, 10));
    assert_eq!(BlockKind::GRASS.get_tex_coord(&FaceKind::Bottom), (2, 5));
    assert_eq!(BlockKind::GRASS.get_tex_coord(&FaceKind::Left), (1, 10));
    assert_eq!(BlockKind::GRASS.get_tex_coord(&FaceKind::Right), (1, 10));
    assert_eq!(BlockKind::GRASS.get_tex_coord(&FaceKind::Front), (1, 10));
    assert_eq!(BlockKind::GRASS.get_tex_coord(&FaceKind::Back), (1, 10));
    for k in 0..6 {
        assert_eq!(BlockKind::AIR.get_tex_coord(&FaceKind::get_face(k)), (22, 0));
    }
    let info = BlockKind::GRASS.tiles();
    assert_eq!((info.top, info.sides, info.bottom), ((14, 10), (1, 10), (2, 5)));
}

#[test]
fn face_kind_ordinals() {
    let kinds = [FaceKind::Left, FaceKind::Right, FaceKind::Front, FaceKind::Back, FaceKind::Top, FaceKind::Bottom];
    for (i, k) in kinds.iter().enumerate() {
        assert_eq!(k.value(), i);
        assert_eq!(FaceKind::get_face(i), *k);
    }
    assert_eq!(FaceKind::get_face(6), FaceKind::Bottom);
    assert_eq!(FaceKind::get_face(100), FaceKind::Bottom);
}

#[test]
fn face_table_entries() {
    let top = face_table(FaceKind::Top);
    assert_eq!(top.kind, FaceKind::Top);
    assert_eq!(top.normal, (0, 1, 0));
    assert_eq!(top.vertex(VertexIndex::BottomLeft).position, (-1, 1, 1));
    assert_eq!(top.vertex(VertexIndex::TopRight).position, (1, 1, -1));
    assert_eq!(top.vertex(VertexIndex::BottomRight).uv, (1, 1));
    assert_eq!(top.vertex(VertexIndex::TopLeft).uv, (0, 0));
    let back = face_table(FaceKind::Back);
    assert_eq!(Vector::Z.of(back.normal), -1);
    assert_eq!(Vector::X.of(back.normal), 0);
    assert_eq!(back.vertex(VertexIndex::BottomLeft).position, (1, -1, -1));
}

#[test]
fn add_face_values() {
    let d = dims(CHUNK_WIDTH, CHUNK_LENGTH, CHUNK_HEIGHT);
    let mut b = ChunkMeshGenerator::new(&d);
    assert_eq!((b.x_offset, b.z_offset), (32, 32));
    b.add_face((0, 0, 0), &FaceKind::Left, &BlockKind::GRASS);
    b.add_face((3, 5, 7), &FaceKind::Top, &BlockKind::GRASS);
    assert_eq!(b.face_count, 2);
    // Half-voxel units: -0.5 + 0 - 32 is -65 halves.
    assert_eq!(b.vertices[0], (-65, -1, -65));
    assert_eq!(b.vertices[3], (-65, 1, -63));
    // Atlas texels: (0 + 1) * 32 and (1 + 10) * 32.
    assert_eq!(b.uvs[0], (32, 352));
    assert_eq!(b.uvs[3], (64, 320));
    assert_eq!(b.normals[0], (-1, 0, 0));
    // Top face of (3, 5, 7): bottom-left corner at (-0.5 + 3 - 32, 0.5 + 5, 0.5 + 7 - 32).
    assert_eq!(b.vertices[4], (-59, 11, -49));
    assert_eq!(b.uvs[4], (448, 352));
    assert_eq!(b.normals[4], (0, 1, 0));
    assert_eq!(b.indicies, vec![0, 1, 2, 2, 1, 3, 4, 5, 6, 6, 5, 7]);
    let m = b.build();
    assert_eq!(m.face_count, 2);
    assert_eq!(m.positions.len(), 8);
}

#[test]
fn air_block_uses_fallback_tile() {
    let d = dims(4, 4, 4);
    let mut b = ChunkMeshGenerator::new(&d);
    b.add_face((1, 1, 1), &FaceKind::Front, &BlockKind::AIR);
    assert_eq!(b.uvs[0], (22 * 32, 32));
    assert_eq!(b.uvs[1], (23 * 32, 32));
}

#[test]
fn registry_generates_and_places_chunks() {
    let d = dims(4, 4, 4);
    let good: Vec<i64> = vec![1; 16];
    let bad: Vec<i64> = vec![1; 3];
    let maps = vec![good.clone(), good.clone(), bad, good.clone(), good.clone(), good];
    let world = WorldRegistry::generate(&d, 2, 3, &maps);
    let coords: Vec<(u64, u64)> = world.chunks.iter().map(|e| (e.x, e.z)).collect();
    assert_eq!(coords, vec![(0, 0), (0, 1), (1, 0), (1, 1), (1, 2)]);
    assert_eq!(world.failures.len(), 1);
    assert_eq!((world.failures[0].x, world.failures[0].z), (0, 2));
    assert_eq!(world.failures[0].error, ConfigError::HeightmapSize);

    let meshes = world.mesh_all(true);
    assert_eq!(meshes.len(), 5);
    // A flat layer one voxel thick: 16 tops, 16 bottoms, 16 side faces.
    assert!(meshes.iter().all(|m| m.mesh.face_count == 48));
    // Chunk (1, 2): x = 1 * 4 - 2, z = 2 * 4 - 4, in half voxels.
    let last = &meshes[4];
    assert_eq!((last.x, last.z), (1, 2));
    assert_eq!(last.offset, (4, 0, 8));
    assert_eq!(meshes[0].offset, (-4, 0, -8));
}

#[test]
fn cube_mesh_has_six_faces_in_order() {
    let d = dims(CHUNK_WIDTH, CHUNK_LENGTH, CHUNK_HEIGHT);
    let b = generate_cube_mesh(&d);
    assert_eq!(b.face_count, 6);
    let normals: Vec<(i64, i64, i64)> = (0..6).map(|f| b.normals[4 * f]).collect();
    assert_eq!(normals, vec![(0, 0, 1), (0, 0, -1), (-1, 0, 0), (1, 0, 0), (0, 1, 0), (0, -1, 0)]);
    assert_eq!(b.uvs[16], (14 * 32, 11 * 32));
    assert_eq!(b.uvs[20], (2 * 32, 6 * 32));
    assert_eq!(b.indicies.len(), 36);
}

#[test]
fn unoptimized_single_voxel_emits_six_faces() {
    let m = generate_mesh(&single_voxel_chunk(), false).build();
    assert_eq!(m.face_count, 6);
    assert_eq!(m.indices.len(), 36);
}

#[test]
fn empty_region_has_no_chunks() {
    let d = dims(4, 4, 4);
    let world = WorldRegistry::generate(&d, 0, 3, &Vec::new());
    assert!(world.chunks.is_empty());
    assert!(world.failures.is_empty());
    assert!(world.mesh_all(true).is_empty());
}
