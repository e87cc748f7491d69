use vstd::prelude::*;
use vstd::arithmetic::div_mod::{lemma_fundamental_div_mod, lemma_mod_pos_bound, lemma_multiply_divide_lt};
use crate::chunk::{lemma_dims_bounds, terrain_of, Chunk, ChunkDims, ConfigError};
use crate::constants::MAX_VOXELS;
use crate::mesh::{buffers_match, int3, chunk_faces, generate_mesh, MeshData};

verus! {

/// A generated chunk and its chunk coordinate.
pub struct ChunkEntry {
    pub x: u64,
    pub z: u64,
    pub chunk: Chunk,
}

/// A chunk coordinate whose chunk could not be generated, and why.
#[derive(Clone, Copy, Debug, PartialEq, Eq, Structural)]
pub struct ChunkFailure {
    pub x: u64,
    pub z: u64,
    pub error: ConfigError,
}

/// The mesh of one chunk and where it is placed in the world.
pub struct ChunkMesh {
    pub x: u64,
    pub z: u64,
    /// World translation of the chunk, in half voxels.
    pub offset: (i64, i64, i64),
    pub mesh: MeshData,
}

/// The chunks of a rectangular region, generated once and never replaced.
pub struct WorldRegistry {
    pub dims: ChunkDims,
    pub chunks: Vec<ChunkEntry>,
    pub failures: Vec<ChunkFailure>,
}

/// Chunk coordinate of the `k`-th slot of a region `depth` chunks deep, walked x-major.
pub open spec fn slot_coord(depth: int, k: int) -> (int, int) {
    (k / depth, k % depth)
}

/// Whether a height map has one entry per column of a chunk.
pub open spec fn heightmap_fits(d: ChunkDims, h: Seq<i64>) -> bool {
    h.len() == d.width * d.length
}

/// The slots among the first `n` whose height map fits, in order.
pub open spec fn fitting_slots(d: ChunkDims, maps: Seq<Vec<i64>>, n: nat) -> Seq<int>
    decreases n,
{
    if n == 0 {
        Seq::empty()
    } else {
        let prev = fitting_slots(d, maps, (n - 1) as nat);
        if heightmap_fits(d, maps[n - 1]@) {
            prev.push(n - 1)
        } else {
            prev
        }
    }
}

/// The slots among the first `n` whose height map does not fit, in order.
pub open spec fn failing_slots(d: ChunkDims, maps: Seq<Vec<i64>>, n: nat) -> Seq<int>
    decreases n,
{
    if n == 0 {
        Seq::empty()
    } else {
        let prev = failing_slots(d, maps, (n - 1) as nat);
        if heightmap_fits(d, maps[n - 1]@) {
            prev
        } else {
            prev.push(n - 1)
        }
    }
}

/// `chunks` holds, in order, one entry per slot among the first `n` whose height map
/// fits: the slot's chunk coordinate and the terrain generated from its height map.
pub open spec fn chunks_listed(
    d: ChunkDims,
    depth: int,
    maps: Seq<Vec<i64>>,
    n: nat,
    chunks: Seq<ChunkEntry>,
) -> bool {
    &&& chunks.len() == fitting_slots(d, maps, n).len()
    &&& forall|j: int|
        0 <= j < chunks.len() ==> {
            let s = #[trigger] fitting_slots(d, maps, n)[j];
            &&& (chunks[j].x as int, chunks[j].z as int) == slot_coord(depth, s)
            &&& chunks[j].chunk.voxels@ == terrain_of(d, maps[s]@)
        }
}

/// `failures` holds, in order, one entry per slot among the first `n` whose height map
/// does not fit: the slot's chunk coordinate and `HeightmapSize`.
pub open spec fn failures_listed(
    d: ChunkDims,
    depth: int,
    maps: Seq<Vec<i64>>,
    n: nat,
    failures: Seq<ChunkFailure>,
) -> bool {
    &&& failures.len() == failing_slots(d, maps, n).len()
    &&& forall|j: int|
        0 <= j < failures.len() ==> {
            let s = #[trigger] failing_slots(d, maps, n)[j];
            &&& (failures[j].x as int, failures[j].z as int) == slot_coord(depth, s)
            &&& failures[j].error == ConfigError::HeightmapSize
        }
}

/// World translation, in half voxels, of chunk `(x, z)`: `x * width - width / 2` along x,
/// zero along y, `z * length - length` along z.
pub open spec fn placement(d: ChunkDims, x: int, z: int) -> (int, int, int) {
    (2 * (x * d.width) - d.width, 0, 2 * (z * d.length) - 2 * d.length)
}

impl WorldRegistry {
    /// Every stored chunk is well formed, has the registry's extents, and lies in a
    /// region of at most `MAX_VOXELS` by `MAX_VOXELS` chunks.
    pub open spec fn wf(&self) -> bool {
        &&& self.dims.valid()
        &&& forall|j: int|
            0 <= j < self.chunks@.len() ==> {
                &&& #[trigger] self.chunks@[j].chunk.wf()
                &&& self.chunks@[j].chunk.dims == self.dims
                &&& self.chunks@[j].x <= MAX_VOXELS
                &&& self.chunks@[j].z <= MAX_VOXELS
            }
    }

    /// Generates the chunks of a region `width_chunks` by `depth_chunks`, walking x-major:
    /// slot `k` is chunk `(k / depth_chunks, k % depth_chunks)` and is filled from
    /// `heightmaps[k]`. A slot whose height map does not fit is recorded as a failure and
    /// the others go on.
    pub fn generate(
        dims: &ChunkDims,
        width_chunks: u64,
        depth_chunks: u64,
        heightmaps: &Vec<Vec<i64>>,
    ) -> (r: WorldRegistry)
        requires
            dims.valid(),
            width_chunks <= MAX_VOXELS,
            depth_chunks <= MAX_VOXELS,
            heightmaps@.len() == width_chunks * depth_chunks,
        ensures
            r.wf(),
            r.dims == *dims,
            chunks_listed(*dims, depth_chunks as int, heightmaps@, heightmaps@.len(), r.chunks@),
            failures_listed(*dims, depth_chunks as int, heightmaps@, heightmaps@.len(), r.failures@),
    {
        proof {
            lemma_dims_bounds(*dims);
        }
        let columns: u64 = dims.width * dims.length;
        let slots: usize = heightmaps.len();
        let mut chunks: Vec<ChunkEntry> = Vec::new();
        let mut failures: Vec<ChunkFailure> = Vec::new();
        let mut k: usize = 0;
        while k < slots
            invariant
                dims.valid(),
                columns == dims.width * dims.length,
                width_chunks <= MAX_VOXELS,
                depth_chunks <= MAX_VOXELS,
                slots == heightmaps@.len(),
                heightmaps@.len() == width_chunks * depth_chunks,
                k <= slots,
                forall|j: int|
                    0 <= j < chunks@.len() ==> {
                        &&& #[trigger] chunks@[j].chunk.wf()
                        &&& chunks@[j].chunk.dims == *dims
                        &&& chunks@[j].x <= MAX_VOXELS
                        &&& chunks@[j].z <= MAX_VOXELS
                    },
                chunks_listed(*dims, depth_chunks as int, heightmaps@, k as nat, chunks@),
                failures_listed(*dims, depth_chunks as int, heightmaps@, k as nat, failures@),
            decreases slots - k,
        {
            proof {
                assert(depth_chunks > 0) by (nonlinear_arith)
                    requires
                        k < width_chunks * depth_chunks,
                ;
                lemma_fundamental_div_mod(k as int, depth_chunks as int);
                lemma_mod_pos_bound(k as int, depth_chunks as int);
                assert(k < depth_chunks * width_chunks) by (nonlinear_arith)
                    requires
                        k < width_chunks * depth_chunks,
                ;
                lemma_multiply_divide_lt(k as int, depth_chunks as int, width_chunks as int);
                let ki = k as int;
                let di = depth_chunks as int;
                assert(ki / di >= 0) by (nonlinear_arith)
                    requires
                        ki == di * (ki / di) + ki % di,
                        ki % di < di,
                        ki >= 0,
                        di > 0,
                ;
            }
            let x: u64 = k as u64 / depth_chunks;
            let z: u64 = k as u64 % depth_chunks;
            let heights: &Vec<i64> = &heightmaps[k];
            let ghost prev_fit = fitting_slots(*dims, heightmaps@, k as nat);
            let ghost prev_fail = failing_slots(*dims, heightmaps@, k as nat);
            if heights.len() as u64 == columns {
                let chunk = Chunk::generate(dims, heights);
                chunks.push(ChunkEntry { x, z, chunk });
                assert(x <= MAX_VOXELS && z <= MAX_VOXELS);
                assert(chunks@[chunks@.len() - 1].chunk.wf());
                assert(fitting_slots(*dims, heightmaps@, (k + 1) as nat) == prev_fit.push(k as int));
                assert(failing_slots(*dims, heightmaps@, (k + 1) as nat) == prev_fail);
            } else {
                failures.push(ChunkFailure { x, z, error: ConfigError::HeightmapSize });
                assert(fitting_slots(*dims, heightmaps@, (k + 1) as nat) == prev_fit);
                assert(failing_slots(*dims, heightmaps@, (k + 1) as nat) == prev_fail.push(k as int));
            }
            k = k + 1;
        }
        assert(k as nat == heightmaps@.len());
        WorldRegistry { dims: *dims, chunks, failures }
    }

    /// Meshes every stored chunk, in order, and places each at its chunk coordinate.
    pub fn mesh_all(&self, optimized: bool) -> (r: Vec<ChunkMesh>)
        requires
            self.wf(),
        ensures
            r@.len() == self.chunks@.len(),
            forall|j: int|
                0 <= j < r@.len() ==> {
                    let e = #[trigger] self.chunks@[j];
                    let m = r@[j];
                    &&& m.x == e.x
                    &&& m.z == e.z
                    &&& int3(m.offset) == placement(self.dims, e.x as int, e.z as int)
                    &&& m.mesh.face_count == chunk_faces(e.chunk, optimized).len()
                    &&& buffers_match(
                        chunk_faces(e.chunk, optimized),
                        (self.dims.length / 2) as int,
                        (self.dims.width / 2) as int,
                        m.mesh.positions@,
                        m.mesh.normals@,
                        m.mesh.uvs@,
                        m.mesh.indices@,
                    )
                },
    {
        proof {
            lemma_dims_bounds(self.dims);
        }
        let mut meshes: Vec<ChunkMesh> = Vec::new();
        let mut j: usize = 0;
        while j < self.chunks.len()
            invariant
                self.wf(),
                self.dims.width <= MAX_VOXELS,
                self.dims.length <= MAX_VOXELS,
                j <= self.chunks@.len(),
                meshes@.len() == j,
                forall|i: int|
                    0 <= i < j ==> {
                        let e = #[trigger] self.chunks@[i];
                        let m = meshes@[i];
                        &&& m.x == e.x
                        &&& m.z == e.z
                        &&& int3(m.offset) == placement(self.dims, e.x as int, e.z as int)
                        &&& m.mesh.face_count == chunk_faces(e.chunk, optimized).len()
                        &&& buffers_match(
                            chunk_faces(e.chunk, optimized),
                            (self.dims.length / 2) as int,
                            (self.dims.width / 2) as int,
                            m.mesh.positions@,
                            m.mesh.normals@,
                            m.mesh.uvs@,
                            m.mesh.indices@,
                        )
                    },
            decreases self.chunks@.len() - j,
        {
            let entry = &self.chunks[j];
            assert(entry.chunk.wf());
            let generator = generate_mesh(&entry.chunk, optimized);
            let mesh = generator.build();
            let w: i64 = self.dims.width as i64;
            let l: i64 = self.dims.length as i64;
            proof {
                assert(entry.x * self.dims.width <= MAX_VOXELS * MAX_VOXELS) by (nonlinear_arith)
                    requires
                        entry.x <= MAX_VOXELS,
                        self.dims.width <= MAX_VOXELS,
                ;
                assert(entry.z * self.dims.length <= MAX_VOXELS * MAX_VOXELS) by (nonlinear_arith)
                    requires
                        entry.z <= MAX_VOXELS,
                        self.dims.length <= MAX_VOXELS,
                ;
            }
            let ox: i64 = 2 * (entry.x as i64 * w) - w;
            let oz: i64 = 2 * (entry.z as i64 * l) - 2 * l;
            meshes.push(ChunkMesh { x: entry.x, z: entry.z, offset: (ox, 0, oz), mesh });
            j = j + 1;
        }
        meshes
    }
}

} // verus!
