use vstd::prelude::*;
use vstd::arithmetic::div_mod::lemma_fundamental_div_mod_converse;
use crate::chunk::{
    decode, lemma_dims_bounds, lemma_encode_decode, voxel_at, Block, BlockKind, Chunk, ChunkDims,
    tex_coord,
};
use crate::constants::{
    corner_position, corner_uv, face_at, is_unit_axis, face_table, normal_of, triangle_index, triangle_offset,
    FaceKind, Vector, ATLAS_OFFSET, MAX_FACES, MAX_VOXELS,
};

verus! {

/// One emitted face: the voxel's local coordinate, which face, and the voxel's kind.
pub struct Quad {
    pub x: int,
    pub y: int,
    pub z: int,
    pub face: FaceKind,
    pub block: BlockKind,
}

/// Accumulates the vertex, normal, texture and index buffers of a mesh, one quad at a time.
///
/// Positions are in half voxels, texture coordinates in atlas texels.
pub struct ChunkMeshGenerator {
    pub face_count: u32,
    /// Subtracted from every x coordinate before it is doubled.
    pub x_offset: u64,
    /// Subtracted from every z coordinate before it is doubled.
    pub z_offset: u64,
    pub vertices: Vec<(i64, i64, i64)>,
    pub indicies: Vec<u32>,
    pub normals: Vec<(i64, i64, i64)>,
    pub uvs: Vec<(u64, u64)>,
    /// The quads added so far, in order.
    pub quads: Ghost<Seq<Quad>>,
}

/// The finished buffers of a mesh, handed to a renderer as they are.
pub struct MeshData {
    pub face_count: u32,
    pub positions: Vec<(i64, i64, i64)>,
    pub normals: Vec<(i64, i64, i64)>,
    pub uvs: Vec<(u64, u64)>,
    pub indices: Vec<u32>,
}

/// A position triple seen as integers.
pub open spec fn int3(v: (i64, i64, i64)) -> (int, int, int) {
    (v.0 as int, v.1 as int, v.2 as int)
}

/// A texture coordinate pair seen as integers.
pub open spec fn int2(v: (u64, u64)) -> (int, int) {
    (v.0 as int, v.1 as int)
}

/// Position, in half voxels, of vertex `j` of quad `q`, centred by `xo` on x and `zo` on z.
pub open spec fn quad_position(q: Quad, j: int, xo: int, zo: int) -> (int, int, int) {
    let c = corner_position(q.face, j);
    (c.0 + 2 * (q.x - xo), c.1 + 2 * q.y, c.2 + 2 * (q.z - zo))
}

/// Texture coordinate, in atlas texels, of vertex `j` of quad `q`.
pub open spec fn quad_uv(q: Quad, j: int) -> (int, int) {
    let t = tex_coord(q.block, q.face);
    let c = corner_uv(j);
    ((c.0 + t.0) * ATLAS_OFFSET, (c.1 + t.1) * ATLAS_OFFSET)
}

/// The buffers are the mesh of `quads`: four vertices and six indices per quad, in order,
/// positions centred by `xo` on x and `zo` on z.
pub open spec fn buffers_match(
    quads: Seq<Quad>,
    xo: int,
    zo: int,
    vertices: Seq<(i64, i64, i64)>,
    normals: Seq<(i64, i64, i64)>,
    uvs: Seq<(u64, u64)>,
    indices: Seq<u32>,
) -> bool {
    let n = quads.len();
    &&& vertices.len() == 4 * n
    &&& normals.len() == 4 * n
    &&& uvs.len() == 4 * n
    &&& indices.len() == 6 * n
    &&& forall|i: int|
        0 <= i < 4 * n ==> #[trigger] int3(vertices[i]) == quad_position(quads[i / 4], i % 4, xo, zo)
    &&& forall|i: int| 0 <= i < 4 * n ==> #[trigger] normals[i] == normal_of(quads[i / 4].face)
    &&& forall|i: int| 0 <= i < 4 * n ==> #[trigger] int2(uvs[i]) == quad_uv(quads[i / 4], i % 4)
    &&& forall|i: int|
        0 <= i < 6 * n ==> #[trigger] indices[i] == 4 * (i / 6) + triangle_offset(i % 6)
}

impl ChunkMeshGenerator {
    /// The buffers hold exactly the mesh of the quads in `quads`.
    pub open spec fn wf(&self) -> bool {
        &&& self.face_count == self.quads@.len()
        &&& self.x_offset <= MAX_VOXELS
        &&& self.z_offset <= MAX_VOXELS
        &&& buffers_match(
            self.quads@,
            self.x_offset as int,
            self.z_offset as int,
            self.vertices@,
            self.normals@,
            self.uvs@,
            self.indicies@,
        )
    }

    /// An empty builder for chunks of extents `dims`, centred on half their length along x
    /// and half their width along z.
    pub fn new(dims: &ChunkDims) -> (r: ChunkMeshGenerator)
        requires
            dims.valid(),
        ensures
            r.wf(),
            r.quads@ == Seq::<Quad>::empty(),
            r.x_offset == dims.length / 2,
            r.z_offset == dims.width / 2,
    {
        proof {
            lemma_dims_bounds(*dims);
        }
        ChunkMeshGenerator {
            face_count: 0,
            x_offset: dims.length / 2,
            z_offset: dims.width / 2,
            vertices: Vec::new(),
            indicies: Vec::new(),
            normals: Vec::new(),
            uvs: Vec::new(),
            quads: Ghost(Seq::empty()),
        }
    }

    /// Appends face `face_kind` of the voxel at `coord`, textured for `block_kind`.
    pub fn add_face(&mut self, coord: (u64, u64, u64), face_kind: &FaceKind, block_kind: &BlockKind)
        requires
            old(self).wf(),
            old(self).face_count < MAX_FACES,
            coord.0 <= MAX_VOXELS,
            coord.1 <= MAX_VOXELS,
            coord.2 <= MAX_VOXELS,
        ensures
            final(self).wf(),
            final(self).quads@ == old(self).quads@.push(
                Quad {
                    x: coord.0 as int,
                    y: coord.1 as int,
                    z: coord.2 as int,
                    face: *face_kind,
                    block: *block_kind,
                },
            ),
            final(self).x_offset == old(self).x_offset,
            final(self).z_offset == old(self).z_offset,
    {
        let ghost q = Quad {
            x: coord.0 as int,
            y: coord.1 as int,
            z: coord.2 as int,
            face: *face_kind,
            block: *block_kind,
        };
        let ghost quads = self.quads@.push(q);
        let ghost n = self.quads@.len() as int;
        let face = face_table(*face_kind);
        let tex = block_kind.get_tex_coord(face_kind);
        let (x, y, z) = coord;
        let mut j: usize = 0;
        while j < 4
            invariant
                face.is_table_entry(*face_kind),
                tex == tex_coord(*block_kind, *face_kind),
                quads == old(self).quads@.push(q),
                q == (Quad {
                    x: coord.0 as int,
                    y: coord.1 as int,
                    z: coord.2 as int,
                    face: *face_kind,
                    block: *block_kind,
                }),
                n == old(self).quads@.len(),
                quads.len() == n + 1,
                old(self).wf(),
                self.x_offset == old(self).x_offset,
                self.z_offset == old(self).z_offset,
                self.quads == old(self).quads,
                self.face_count == old(self).face_count,
                self.indicies == old(self).indicies,
                coord == (x, y, z),
                x <= MAX_VOXELS,
                y <= MAX_VOXELS,
                z <= MAX_VOXELS,
                j <= 4,
                self.vertices@.len() == 4 * n + j,
                self.normals@.len() == 4 * n + j,
                self.uvs@.len() == 4 * n + j,
                forall|i: int|
                    0 <= i < 4 * n + j ==> #[trigger] int3(self.vertices@[i]) == quad_position(
                        quads[i / 4],
                        i % 4,
                        self.x_offset as int,
                        self.z_offset as int,
                    ),
                forall|i: int|
                    0 <= i < 4 * n + j ==> #[trigger] self.normals@[i] == normal_of(
                        quads[i / 4].face,
                    ),
                forall|i: int|
                    0 <= i < 4 * n + j ==> #[trigger] int2(self.uvs@[i]) == quad_uv(
                        quads[i / 4],
                        i % 4,
                    ),
            decreases 4 - j,
        {
            let vert = face.vertices[j];
            let px: i64 = vert.position.0 + 2 * (x as i64 - self.x_offset as i64);
            let py: i64 = vert.position.1 + 2 * (y as i64);
            let pz: i64 = vert.position.2 + 2 * (z as i64 - self.z_offset as i64);
            let u: u64 = (vert.uv.0 + tex.0) * ATLAS_OFFSET;
            let v: u64 = (vert.uv.1 + tex.1) * ATLAS_OFFSET;
            self.vertices.push((px, py, pz));
            self.normals.push(face.normal);
            self.uvs.push((u, v));
            proof {
                let k = 4 * n + j;
                assert(k / 4 == n && k % 4 == j as int);
                assert(int2(self.uvs@[k]) == quad_uv(quads[n], j as int));
                assert(int3(self.vertices@[k]) == quad_position(
                    quads[n],
                    j as int,
                    self.x_offset as int,
                    self.z_offset as int,
                ));
                assert forall|i: int| 0 <= i < 4 * n + j + 1 implies #[trigger] int3(
                    self.vertices@[i],
                ) == quad_position(
                    quads[i / 4],
                    i % 4,
                    self.x_offset as int,
                    self.z_offset as int,
                ) && self.normals@[i] == normal_of(quads[i / 4].face) && int2(self.uvs@[i])
                    == quad_uv(quads[i / 4], i % 4) by {
                    if i < 4 * n {
                        assert(i / 4 < n);
                    }
                }
            }
            j = j + 1;
        }
        let offset: u32 = 4 * self.face_count;
        let mut k: usize = 0;
        while k < 6
            invariant
                quads == old(self).quads@.push(q),
                n == old(self).quads@.len(),
                old(self).wf(),
                n < MAX_FACES,
                self.face_count == n,
                self.quads == old(self).quads,
                self.x_offset == old(self).x_offset,
                self.z_offset == old(self).z_offset,
                self.vertices@.len() == 4 * n + 4,
                self.normals@.len() == 4 * n + 4,
                self.uvs@.len() == 4 * n + 4,
                forall|i: int|
                    0 <= i < 4 * n + 4 ==> #[trigger] int3(self.vertices@[i]) == quad_position(
                        quads[i / 4],
                        i % 4,
                        self.x_offset as int,
                        self.z_offset as int,
                    ),
                forall|i: int|
                    0 <= i < 4 * n + 4 ==> #[trigger] self.normals@[i] == normal_of(
                        quads[i / 4].face,
                    ),
                forall|i: int|
                    0 <= i < 4 * n + 4 ==> #[trigger] int2(self.uvs@[i]) == quad_uv(
                        quads[i / 4],
                        i % 4,
                    ),
                offset == 4 * n,
                k <= 6,
                self.indicies@.len() == 6 * n + k,
                forall|i: int|
                    0 <= i < 6 * n + k ==> #[trigger] self.indicies@[i] == 4 * (i / 6)
                        + triangle_offset(i % 6),
            decreases 6 - k,
        {
            let t = triangle_index(k);
            self.indicies.push(offset + t);
            proof {
                let m = 6 * n + k;
                assert(m / 6 == n && m % 6 == k as int);
                assert forall|i: int| 0 <= i < 6 * n + k + 1 implies #[trigger] self.indicies@[i]
                    == 4 * (i / 6) + triangle_offset(i % 6) by {
                    if i < 6 * n {
                        assert(i / 6 < n);
                    }
                }
            }
            k = k + 1;
        }
        self.face_count = self.face_count + 1;
        self.quads = Ghost(quads);
    }

    /// Hands the buffers over as a finished mesh.
    pub fn build(self) -> (r: MeshData)
        ensures
            r.face_count == self.face_count,
            r.positions@ == self.vertices@,
            r.normals@ == self.normals@,
            r.uvs@ == self.uvs@,
            r.indices@ == self.indicies@,
    {
        MeshData {
            face_count: self.face_count,
            positions: self.vertices,
            normals: self.normals,
            uvs: self.uvs,
            indices: self.indicies,
        }
    }
}


/// The voxel across face `k` of the voxel at index `i`, or `None` past the chunk's edge.
pub open spec fn neighbor_of(c: Chunk, i: int, k: FaceKind) -> Option<Block> {
    let (x, y, z) = decode(c.dims, i);
    let n = normal_of(k);
    voxel_at(c, x + n.0, y + n.1, z + n.2)
}

/// Face `k` of voxel `i` is visible: its neighbour is air or lies outside the chunk.
pub open spec fn face_exposed(c: Chunk, i: int, k: FaceKind) -> bool {
    match neighbor_of(c, i, k) {
        Some(b) => b.kind == BlockKind::AIR,
        None => true,
    }
}

/// Whether meshing emits face `k` of voxel `i`: the voxel is solid and, when culling,
/// the face is visible.
pub open spec fn emits(c: Chunk, optimized: bool, i: int, k: FaceKind) -> bool {
    &&& c.voxels@[i].kind != BlockKind::AIR
    &&& (!optimized || face_exposed(c, i, k))
}

/// The quad for face `k` of voxel `i`.
pub open spec fn quad_of(c: Chunk, i: int, k: FaceKind) -> Quad {
    let (x, y, z) = decode(c.dims, i);
    Quad { x, y, z, face: k, block: c.voxels@[i].kind }
}

/// The quads emitted for the first `f` faces, in table order, of voxel `i`.
pub open spec fn voxel_faces_upto(c: Chunk, optimized: bool, i: int, f: nat) -> Seq<Quad>
    decreases f,
{
    if f == 0 {
        Seq::empty()
    } else {
        let k = face_at(f - 1);
        let prev = voxel_faces_upto(c, optimized, i, (f - 1) as nat);
        if emits(c, optimized, i, k) {
            prev.push(quad_of(c, i, k))
        } else {
            prev
        }
    }
}

/// The quads emitted for voxel `i`.
pub open spec fn voxel_faces(c: Chunk, optimized: bool, i: int) -> Seq<Quad> {
    voxel_faces_upto(c, optimized, i, 6)
}

/// The quads emitted for the first `n` voxels, in index order.
pub open spec fn chunk_faces_upto(c: Chunk, optimized: bool, n: nat) -> Seq<Quad>
    decreases n,
{
    if n == 0 {
        Seq::empty()
    } else {
        chunk_faces_upto(c, optimized, (n - 1) as nat) + voxel_faces(c, optimized, n - 1)
    }
}

/// The quads emitted for the whole chunk.
pub open spec fn chunk_faces(c: Chunk, optimized: bool) -> Seq<Quad> {
    chunk_faces_upto(c, optimized, c.dims.volume() as nat)
}

/// Walks the voxels of `chunk` in index order and, for each solid voxel, adds each face
/// in table order that is emitted: every face when `optimized` is false, otherwise only
/// faces whose neighbour is air or outside the chunk.
pub fn generate_mesh(chunk: &Chunk, optimized: bool) -> (r: ChunkMeshGenerator)
    requires
        chunk.wf(),
    ensures
        r.wf(),
        r.quads@ == chunk_faces(*chunk, optimized),
        r.x_offset == chunk.dims.length / 2,
        r.z_offset == chunk.dims.width / 2,
{
    proof {
        lemma_dims_bounds(chunk.dims);
    }
    let size: u64 = chunk.dims.width * chunk.dims.length * chunk.dims.height;
    let mut generator = ChunkMeshGenerator::new(&chunk.dims);
    let mut i: u64 = 0;
    while i < size
        invariant
            chunk.wf(),
            size == chunk.dims.volume(),
            size <= MAX_VOXELS,
            chunk.dims.width <= MAX_VOXELS,
            chunk.dims.length <= MAX_VOXELS,
            chunk.dims.height <= MAX_VOXELS,
            i <= size,
            generator.wf(),
            generator.quads@ == chunk_faces_upto(*chunk, optimized, i as nat),
            generator.quads@.len() <= 6 * i,
            generator.x_offset == chunk.dims.length / 2,
            generator.z_offset == chunk.dims.width / 2,
        decreases size - i,
    {
        let voxel: Block = chunk.voxels[i as usize];
        let (x, y, z) = Chunk::get_local_coord(&chunk.dims, i);
        proof {
            lemma_encode_decode(chunk.dims, i as int);
        }
        let mut f: usize = 0;
        while f < 6
            invariant
                chunk.wf(),
                size == chunk.dims.volume(),
                size <= MAX_VOXELS,
                i < size,
                voxel == chunk.voxels@[i as int],
                (x as int, y as int, z as int) == decode(chunk.dims, i as int),
                chunk.dims.width <= MAX_VOXELS,
                chunk.dims.length <= MAX_VOXELS,
                chunk.dims.height <= MAX_VOXELS,
                x < chunk.dims.width,
                y < chunk.dims.height,
                z < chunk.dims.length,
                f <= 6,
                generator.wf(),
                generator.quads@ == chunk_faces_upto(*chunk, optimized, i as nat) + voxel_faces_upto(
                    *chunk,
                    optimized,
                    i as int,
                    f as nat,
                ),
                generator.quads@.len() <= 6 * i + f,
                generator.x_offset == chunk.dims.length / 2,
                generator.z_offset == chunk.dims.width / 2,
            decreases 6 - f,
        {
            let kind = FaceKind::get_face(f);
            let emit: bool = if voxel.kind == BlockKind::AIR {
                false
            } else if !optimized {
                true
            } else {
                let face = face_table(kind);
                let nx: i64 = x as i64 + Vector::X.of(face.normal);
                let ny: i64 = y as i64 + Vector::Y.of(face.normal);
                let nz: i64 = z as i64 + Vector::Z.of(face.normal);
                match chunk.get_voxel((nx, ny, nz)) {
                    Some(b) => b.kind == BlockKind::AIR,
                    None => true,
                }
            };
            assert(emit == emits(*chunk, optimized, i as int, face_at(f as int)));
            if emit {
                generator.add_face((x, y, z), &kind, &voxel.kind);
            }
            proof {
                let prefix = chunk_faces_upto(*chunk, optimized, i as nat);
                let before = voxel_faces_upto(*chunk, optimized, i as int, f as nat);
                if emit {
                    assert(prefix + before.push(quad_of(*chunk, i as int, kind)) =~= (prefix
                        + before).push(quad_of(*chunk, i as int, kind)));
                }
            }
            f = f + 1;
        }
        i = i + 1;
    }
    generator
}

/// A grass cube at the local origin: its Front, Back, Left, Right, Top and Bottom faces,
/// in that order.
pub fn generate_cube_mesh(dims: &ChunkDims) -> (r: ChunkMeshGenerator)
    requires
        dims.valid(),
    ensures
        r.wf(),
        r.x_offset == dims.length / 2,
        r.z_offset == dims.width / 2,
        r.quads@ == seq![
            cube_quad(FaceKind::Front),
            cube_quad(FaceKind::Back),
            cube_quad(FaceKind::Left),
            cube_quad(FaceKind::Right),
            cube_quad(FaceKind::Top),
            cube_quad(FaceKind::Bottom),
        ],
{
    let mut generator = ChunkMeshGenerator::new(dims);
    generator.add_face((0, 0, 0), &FaceKind::Front, &BlockKind::GRASS);
    generator.add_face((0, 0, 0), &FaceKind::Back, &BlockKind::GRASS);
    generator.add_face((0, 0, 0), &FaceKind::Left, &BlockKind::GRASS);
    generator.add_face((0, 0, 0), &FaceKind::Right, &BlockKind::GRASS);
    generator.add_face((0, 0, 0), &FaceKind::Top, &BlockKind::GRASS);
    generator.add_face((0, 0, 0), &FaceKind::Bottom, &BlockKind::GRASS);
    assert(generator.quads@ =~= seq![
        cube_quad(FaceKind::Front),
        cube_quad(FaceKind::Back),
        cube_quad(FaceKind::Left),
        cube_quad(FaceKind::Right),
        cube_quad(FaceKind::Top),
        cube_quad(FaceKind::Bottom),
    ]);
    generator
}

/// Face `k` of a grass voxel at the local origin.
pub open spec fn cube_quad(k: FaceKind) -> Quad {
    Quad { x: 0, y: 0, z: 0, face: k, block: BlockKind::GRASS }
}

/// No voxel of an all-air prefix emits a face.
proof fn lemma_air_prefix_no_faces(c: Chunk, optimized: bool, n: nat)
    requires
        c.wf(),
        n <= c.dims.volume(),
        forall|i: int| 0 <= i < c.voxels@.len() ==> #[trigger] c.voxels@[i].kind == BlockKind::AIR,
    ensures
        chunk_faces_upto(c, optimized, n).len() == 0,
    decreases n,
{
    if n > 0 {
        lemma_air_prefix_no_faces(c, optimized, (n - 1) as nat);
        reveal_with_fuel(voxel_faces_upto, 7);
        assert(c.voxels@[n - 1].kind == BlockKind::AIR);
    }
}

/// A chunk that holds only air meshes to no faces, hence no vertices and no indices.
pub proof fn lemma_all_air_no_faces(c: Chunk, optimized: bool)
    requires
        c.wf(),
        forall|i: int| 0 <= i < c.voxels@.len() ==> #[trigger] c.voxels@[i].kind == BlockKind::AIR,
    ensures
        chunk_faces(c, optimized).len() == 0,
{
    lemma_air_prefix_no_faces(c, optimized, c.dims.volume() as nat);
}

/// A voxel whose six neighbours are all inside the chunk and solid emits no face.
pub proof fn lemma_enclosed_voxel_no_faces(c: Chunk, i: int)
    requires
        c.wf(),
        0 <= i < c.dims.volume(),
        forall|k: FaceKind| #[trigger]
            neighbor_of(c, i, k) matches Some(b) && b.kind != BlockKind::AIR,
    ensures
        voxel_faces(c, true, i).len() == 0,
{
    reveal_with_fuel(voxel_faces_upto, 7);
    assert(neighbor_of(c, i, FaceKind::Left) is Some);
    assert(neighbor_of(c, i, FaceKind::Right) is Some);
    assert(neighbor_of(c, i, FaceKind::Front) is Some);
    assert(neighbor_of(c, i, FaceKind::Back) is Some);
    assert(neighbor_of(c, i, FaceKind::Top) is Some);
    assert(neighbor_of(c, i, FaceKind::Bottom) is Some);
}

/// A solid voxel whose six neighbours are each air or outside the chunk emits all six
/// faces, one per table entry in table order.
pub proof fn lemma_isolated_voxel_six_faces(c: Chunk, i: int)
    requires
        c.wf(),
        0 <= i < c.dims.volume(),
        c.voxels@[i].kind != BlockKind::AIR,
        forall|k: FaceKind| #[trigger] face_exposed(c, i, k),
    ensures
        voxel_faces(c, true, i).len() == 6,
        forall|f: int| 0 <= f < 6 ==> #[trigger] voxel_faces(c, true, i)[f] == quad_of(c, i, face_at(f)),
{
    reveal_with_fuel(voxel_faces_upto, 7);
    assert(face_exposed(c, i, FaceKind::Left));
    assert(face_exposed(c, i, FaceKind::Right));
    assert(face_exposed(c, i, FaceKind::Front));
    assert(face_exposed(c, i, FaceKind::Back));
    assert(face_exposed(c, i, FaceKind::Top));
    assert(face_exposed(c, i, FaceKind::Bottom));
}

/// Without culling, every solid voxel emits all six faces.
pub proof fn lemma_unoptimized_six_faces(c: Chunk, i: int)
    requires
        c.wf(),
        0 <= i < c.dims.volume(),
        c.voxels@[i].kind != BlockKind::AIR,
    ensures
        voxel_faces(c, false, i).len() == 6,
{
    reveal_with_fuel(voxel_faces_upto, 7);
}

/// The six indices of the `f`-th face are `4f, 4f+1, 4f+2, 4f+2, 4f+1, 4f+3`.
pub proof fn lemma_triangle_pattern(m: ChunkMeshGenerator, f: int)
    requires
        m.wf(),
        0 <= f < m.face_count,
    ensures
        m.indicies@[6 * f] == 4 * f,
        m.indicies@[6 * f + 1] == 4 * f + 1,
        m.indicies@[6 * f + 2] == 4 * f + 2,
        m.indicies@[6 * f + 3] == 4 * f + 2,
        m.indicies@[6 * f + 4] == 4 * f + 1,
        m.indicies@[6 * f + 5] == 4 * f + 3,
{
    lemma_fundamental_div_mod_converse(6 * f, 6, f, 0);
    lemma_fundamental_div_mod_converse(6 * f + 1, 6, f, 1);
    lemma_fundamental_div_mod_converse(6 * f + 2, 6, f, 2);
    lemma_fundamental_div_mod_converse(6 * f + 3, 6, f, 3);
    lemma_fundamental_div_mod_converse(6 * f + 4, 6, f, 4);
    lemma_fundamental_div_mod_converse(6 * f + 5, 6, f, 5);
    assert(m.indicies@[6 * f] == 4 * ((6 * f) / 6) + triangle_offset((6 * f) % 6));
    assert(m.indicies@[6 * f + 1] == 4 * ((6 * f + 1) / 6) + triangle_offset((6 * f + 1) % 6));
    assert(m.indicies@[6 * f + 2] == 4 * ((6 * f + 2) / 6) + triangle_offset((6 * f + 2) % 6));
    assert(m.indicies@[6 * f + 3] == 4 * ((6 * f + 3) / 6) + triangle_offset((6 * f + 3) % 6));
    assert(m.indicies@[6 * f + 4] == 4 * ((6 * f + 4) / 6) + triangle_offset((6 * f + 4) % 6));
    assert(m.indicies@[6 * f + 5] == 4 * ((6 * f + 5) / 6) + triangle_offset((6 * f + 5) % 6));
}

/// Every normal in a well-formed mesh is one of the six axis-aligned unit vectors.
pub proof fn lemma_normals_axis_aligned(m: ChunkMeshGenerator, i: int)
    requires
        m.wf(),
        0 <= i < m.normals@.len(),
    ensures
        is_unit_axis(m.normals@[i]),
{
    let k = m.quads@[i / 4].face;
    assert(m.normals@[i] == normal_of(k));
}
} // verus!
