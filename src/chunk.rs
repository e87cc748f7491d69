use vstd::prelude::*;
use vstd::arithmetic::div_mod::{
    lemma_fundamental_div_mod,
    lemma_fundamental_div_mod_converse,
    lemma_mod_pos_bound,
    lemma_multiply_divide_lt,
};
use crate::constants::{FaceKind, MAX_VOXELS};

verus! {

/// Why a chunk configuration was rejected.
#[derive(Clone, Copy, Debug, PartialEq, Eq, Structural)]
pub enum ConfigError {
    /// One of the three extents is zero.
    ZeroDimension,
    /// Width and length differ, so the index mapping would not be one to one.
    NotSquare,
    /// The chunk would hold more than `MAX_VOXELS` voxels.
    TooLarge,
    /// A height map does not hold one height per column.
    HeightmapSize,
}

/// The extents of a chunk: `width` along x, `length` along z, `height` along y.
#[derive(Clone, Copy, Debug, PartialEq, Eq, Structural)]
pub struct ChunkDims {
    pub width: u64,
    pub length: u64,
    pub height: u64,
}

/// What a voxel is made of.
#[derive(Clone, Copy, Debug, PartialEq, Eq, Structural)]
pub enum BlockKind {
    AIR,
    GRASS,
}

/// One voxel of a chunk.
#[derive(Clone, Copy, Debug, PartialEq, Eq, Structural)]
pub struct Block {
    pub kind: BlockKind,
    pub is_placed: bool,
}

/// Atlas tiles of a block kind: one for the top, one for the four sides, one for the bottom.
#[derive(Clone, Copy, Debug)]
pub struct BlockInfo {
    pub top: (u64, u64),
    pub sides: (u64, u64),
    pub bottom: (u64, u64),
}

/// A fixed-size grid of voxels, stored flat in `voxels`.
#[derive(Debug)]
pub struct Chunk {
    pub dims: ChunkDims,
    pub voxels: Vec<Block>,
}

impl ChunkDims {
    /// Number of voxels in a chunk of these extents.
    pub open spec fn volume(&self) -> int {
        self.width * self.length * self.height
    }

    /// Extents that a chunk can be built with.
    pub open spec fn valid(&self) -> bool {
        &&& self.width > 0
        &&& self.length > 0
        &&& self.height > 0
        &&& self.width == self.length
        &&& self.volume() <= MAX_VOXELS
    }

    /// Checks a configuration triple and returns it as chunk extents.
    pub fn new(width: u64, length: u64, height: u64) -> (r: Result<ChunkDims, ConfigError>)
        ensures
            (width == 0 || length == 0 || height == 0) <==> r == Err::<ChunkDims, ConfigError>(
                ConfigError::ZeroDimension,
            ),
            r == Err::<ChunkDims, ConfigError>(ConfigError::NotSquare) <==> (width > 0 && length
                > 0 && height > 0 && width != length),
            r == Err::<ChunkDims, ConfigError>(ConfigError::TooLarge) <==> (width > 0 && length
                > 0 && height > 0 && width == length && width * length * height > MAX_VOXELS),
            r is Ok <==> (ChunkDims { width, length, height }).valid(),
            r is Ok ==> r->Ok_0 == (ChunkDims { width, length, height }),
    {
        if width == 0 || length == 0 || height == 0 {
            return Err(ConfigError::ZeroDimension);
        }
        if width != length {
            return Err(ConfigError::NotSquare);
        }
        if width > MAX_VOXELS || length > MAX_VOXELS {
            assert(width * length * height > MAX_VOXELS) by (nonlinear_arith)
                requires
                    width > MAX_VOXELS || length > MAX_VOXELS,
                    width >= 1,
                    length >= 1,
                    height >= 1,
            ;
            return Err(ConfigError::TooLarge);
        }
        assert(width * length <= MAX_VOXELS * MAX_VOXELS) by (nonlinear_arith)
            requires
                width <= MAX_VOXELS,
                length <= MAX_VOXELS,
        ;
        let area: u64 = width * length;
        if area > MAX_VOXELS {
            assert(width * length * height > MAX_VOXELS) by (nonlinear_arith)
                requires
                    width * length > MAX_VOXELS,
                    height >= 1,
            ;
            return Err(ConfigError::TooLarge);
        }
        if height > MAX_VOXELS {
            assert(width * length * height > MAX_VOXELS) by (nonlinear_arith)
                requires
                    height > MAX_VOXELS,
                    width >= 1,
                    length >= 1,
            ;
            return Err(ConfigError::TooLarge);
        }
        assert(area * height <= MAX_VOXELS * MAX_VOXELS) by (nonlinear_arith)
            requires
                area <= MAX_VOXELS,
                height <= MAX_VOXELS,
        ;
        let volume: u64 = area * height;
        if volume > MAX_VOXELS {
            return Err(ConfigError::TooLarge);
        }
        Ok(ChunkDims { width, length, height })
    }
}

/// Linear index of the voxel at `(x, y, z)`.
pub open spec fn encode(d: ChunkDims, x: int, y: int, z: int) -> int {
    y * d.width * d.length + z * d.width + x
}

/// Local coordinate `(x, y, z)` of the voxel at linear index `i`.
pub open spec fn decode(d: ChunkDims, i: int) -> (int, int, int) {
    let y = i / (d.width * d.length);
    let rem = i - y * (d.width * d.length);
    (rem % d.width as int, y, rem / d.length as int)
}

/// Whether `(x, y, z)` lies inside a chunk of extents `d`.
pub open spec fn in_bounds(d: ChunkDims, x: int, y: int, z: int) -> bool {
    &&& 0 <= x < d.width
    &&& 0 <= y < d.height
    &&& 0 <= z < d.length
}

/// Index of the column `(x, z)` in a height map of `width * length` entries.
pub open spec fn column_index(d: ChunkDims, x: int, z: int) -> int {
    z * d.width + x
}

/// Valid extents keep every partial product of the volume within `MAX_VOXELS`.
pub proof fn lemma_dims_bounds(d: ChunkDims)
    requires
        d.valid(),
    ensures
        0 < d.width <= d.width * d.length,
        d.width * d.length <= d.volume() <= MAX_VOXELS,
        d.width * d.length * d.height == (d.width * d.length) * d.height,
        d.width <= MAX_VOXELS,
        d.length <= MAX_VOXELS,
        d.height <= MAX_VOXELS,
{
    let w = d.width as int;
    let l = d.length as int;
    let h = d.height as int;
    assert(0 < w <= w * l <= w * l * h && l <= w * l && h <= w * l * h) by (nonlinear_arith)
        requires
            w > 0,
            l > 0,
            h > 0,
    ;
}

/// An in-bounds coordinate encodes to an index inside the chunk.
pub proof fn lemma_encode_in_range(d: ChunkDims, x: int, y: int, z: int)
    requires
        in_bounds(d, x, y, z),
    ensures
        0 <= column_index(d, x, z) < d.width * d.length,
        0 <= encode(d, x, y, z) < d.volume(),
        encode(d, x, y, z) == y * (d.width * d.length) + column_index(d, x, z),
{
    let w = d.width as int;
    let l = d.length as int;
    let h = d.height as int;
    assert(0 <= z * w + x < w * l) by (nonlinear_arith)
        requires
            0 <= x < w,
            0 <= z < l,
    ;
    assert(y * w * l == y * (w * l)) by (nonlinear_arith);
    assert(0 <= y * (w * l) + (z * w + x) < w * l * h) by (nonlinear_arith)
        requires
            0 <= z * w + x < w * l,
            0 <= y < h,
    ;
}

/// Decoding the index of an in-bounds coordinate gives the coordinate back.
pub proof fn lemma_decode_encode(d: ChunkDims, x: int, y: int, z: int)
    requires
        d.valid(),
        in_bounds(d, x, y, z),
    ensures
        decode(d, encode(d, x, y, z)) == (x, y, z),
{
    let w = d.width as int;
    let l = d.length as int;
    let i = encode(d, x, y, z);
    lemma_encode_in_range(d, x, y, z);
    assert(w * l > 0) by (nonlinear_arith)
        requires
            w > 0,
            l > 0,
    ;
    lemma_fundamental_div_mod_converse(i, w * l, y, z * w + x);
    assert(i == y * (w * l) + (z * w + x));
    assert(i / (w * l) == y);
    assert(i - y * (w * l) == z * w + x);
    lemma_fundamental_div_mod_converse(z * w + x, w, z, x);
    assert((z * w + x) / l == z);
}

/// Every index inside the chunk decodes to an in-bounds coordinate that encodes back to it.
pub proof fn lemma_encode_decode(d: ChunkDims, i: int)
    requires
        d.valid(),
        0 <= i < d.volume(),
    ensures
        in_bounds(d, decode(d, i).0, decode(d, i).1, decode(d, i).2),
        encode(d, decode(d, i).0, decode(d, i).1, decode(d, i).2) == i,
{
    let w = d.width as int;
    let l = d.length as int;
    let h = d.height as int;
    let wl = w * l;
    assert(wl > 0) by (nonlinear_arith)
        requires
            w > 0,
            l > 0,
            wl == w * l,
    ;
    lemma_fundamental_div_mod(i, wl);
    lemma_mod_pos_bound(i, wl);
    let y = i / wl;
    let rem = i - y * wl;
    assert(rem == i % wl) by (nonlinear_arith)
        requires
            i == wl * (i / wl) + i % wl,
            y == i / wl,
            rem == i - y * wl,
    ;
    assert(0 <= y) by (nonlinear_arith)
        requires
            i == wl * y + rem,
            0 <= rem < wl,
            i >= 0,
    ;
    assert(i < wl * h) by (nonlinear_arith)
        requires
            i < w * l * h,
            wl == w * l,
    ;
    lemma_multiply_divide_lt(i, wl, h);
    lemma_fundamental_div_mod(rem, w);
    lemma_mod_pos_bound(rem, w);
    assert(rem < w * l);
    lemma_multiply_divide_lt(rem, w, l);
    assert(0 <= rem / w) by (nonlinear_arith)
        requires
            rem == w * (rem / w) + rem % w,
            0 <= rem % w < w,
            rem >= 0,
    ;
    assert(y * w * l == y * wl) by (nonlinear_arith)
        requires
            wl == w * l,
    ;
    assert(rem == (rem / w) * w + rem % w) by (nonlinear_arith)
        requires
            rem == w * (rem / w) + rem % w,
    ;
}

/// The block at `(x, y, z)`, or `None` when the coordinate is outside the chunk.
pub open spec fn voxel_at(c: Chunk, x: int, y: int, z: int) -> Option<Block> {
    if in_bounds(c.dims, x, y, z) {
        Some(c.voxels@[encode(c.dims, x, y, z)])
    } else {
        None
    }
}

/// The voxel that terrain generation puts at index `i`: solid below its column's height.
pub open spec fn terrain_block(d: ChunkDims, heights: Seq<i64>, i: int) -> Block {
    let (x, y, z) = decode(d, i);
    Block {
        kind: if y < heights[column_index(d, x, z)] {
            BlockKind::GRASS
        } else {
            BlockKind::AIR
        },
        is_placed: false,
    }
}

/// All voxels of a chunk generated from the column heights `heights`.
pub open spec fn terrain_of(d: ChunkDims, heights: Seq<i64>) -> Seq<Block> {
    Seq::new(d.volume() as nat, |i: int| terrain_block(d, heights, i))
}

/// Atlas tile of face `f` of a block of kind `k`.
pub open spec fn tex_coord(k: BlockKind, f: FaceKind) -> (u64, u64) {
    match k {
        BlockKind::GRASS => match f {
            FaceKind::Top => (14u64, 10u64),
            FaceKind::Bottom => (2u64, 5u64),
            _ => (1u64, 10u64),
        },
        _ => (22u64, 0u64),
    }
}

impl Block {
    /// A voxel of kind `kind`.
    pub fn new(kind: BlockKind, is_placed: bool) -> (r: Block)
        ensures
            r == (Block { kind, is_placed }),
    {
        Block { kind, is_placed }
    }
}

impl BlockKind {
    /// The atlas tiles of this kind.
    pub fn tiles(&self) -> (r: BlockInfo)
        ensures
            r.top == tex_coord(*self, FaceKind::Top),
            r.bottom == tex_coord(*self, FaceKind::Bottom),
            r.sides == tex_coord(*self, FaceKind::Left),
    {
        match self {
            BlockKind::GRASS => BlockInfo { top: (14, 10), sides: (1, 10), bottom: (2, 5) },
            _ => BlockInfo { top: (22, 0), sides: (22, 0), bottom: (22, 0) },
        }
    }

    /// The atlas tile shown on face `face` of a block of this kind.
    pub fn get_tex_coord(&self, face: &FaceKind) -> (r: (u64, u64))
        ensures
            r == tex_coord(*self, *face),
    {
        let info = self.tiles();
        match face {
            FaceKind::Top => info.top,
            FaceKind::Bottom => info.bottom,
            _ => info.sides,
        }
    }
}

impl Chunk {
    /// The voxel count matches the extents.
    pub open spec fn wf(&self) -> bool {
        &&& self.dims.valid()
        &&& self.voxels@.len() == self.dims.volume()
    }

    /// A chunk of extents `dims` filled with unplaced grass.
    pub fn new(dims: &ChunkDims) -> (r: Chunk)
        requires
            dims.valid(),
        ensures
            r.wf(),
            r.dims == *dims,
            forall|i: int|
                0 <= i < r.voxels@.len() ==> #[trigger] r.voxels@[i] == (Block {
                    kind: BlockKind::GRASS,
                    is_placed: false,
                }),
    {
        proof {
            lemma_dims_bounds(*dims);
        }
        let size: u64 = dims.width * dims.length * dims.height;
        let mut voxels: Vec<Block> = Vec::new();
        let mut i: u64 = 0;
        while i < size
            invariant
                size == dims.volume(),
                i <= size,
                voxels@.len() == i,
                forall|j: int|
                    0 <= j < voxels@.len() ==> #[trigger] voxels@[j] == (Block {
                        kind: BlockKind::GRASS,
                        is_placed: false,
                    }),
            decreases size - i,
        {
            voxels.push(Block { kind: BlockKind::GRASS, is_placed: false });
            i = i + 1;
        }
        Chunk { dims: *dims, voxels }
    }

    /// Linear index of the in-bounds coordinate `coord`.
    pub fn get_index(dims: &ChunkDims, coord: (u64, u64, u64)) -> (r: usize)
        requires
            dims.valid(),
            in_bounds(*dims, coord.0 as int, coord.1 as int, coord.2 as int),
        ensures
            r == encode(*dims, coord.0 as int, coord.1 as int, coord.2 as int),
            r < dims.volume(),
    {
        let (x, y, z) = coord;
        proof {
            lemma_dims_bounds(*dims);
            lemma_encode_in_range(*dims, x as int, y as int, z as int);
        }
        let area: u64 = dims.width * dims.length;
        let column: u64 = z * dims.width + x;
        (y * area + column) as usize
    }

    /// Local coordinate of the voxel at linear index `index`.
    pub fn get_local_coord(dims: &ChunkDims, index: u64) -> (r: (u64, u64, u64))
        requires
            dims.valid(),
        ensures
            (r.0 as int, r.1 as int, r.2 as int) == decode(*dims, index as int),
    {
        proof {
            lemma_dims_bounds(*dims);
        }
        let area: u64 = dims.width * dims.length;
        proof {
            lemma_fundamental_div_mod(index as int, area as int);
            lemma_mod_pos_bound(index as int, area as int);
            assert((index / area) * area <= index) by (nonlinear_arith)
                requires
                    index == area * (index / area) + index % area,
                    index % area >= 0,
            ;
        }
        let y: u64 = index / area;
        let rem: u64 = index - y * area;
        let x: u64 = rem % dims.width;
        let z: u64 = rem / dims.length;
        (x, y, z)
    }

    /// The block at `coord`, or `None` when `coord` lies outside the chunk.
    pub fn get_voxel(&self, coord: (i64, i64, i64)) -> (r: Option<&Block>)
        requires
            self.wf(),
        ensures
            r is None <==> voxel_at(*self, coord.0 as int, coord.1 as int, coord.2 as int) is None,
            r is Some ==> voxel_at(*self, coord.0 as int, coord.1 as int, coord.2 as int) == Some(
                *r->Some_0,
            ),
    {
        let (x, y, z) = coord;
        if x < 0 || y < 0 || z < 0 {
            return None;
        }
        if x as u64 >= self.dims.width || y as u64 >= self.dims.height || z as u64
            >= self.dims.length {
            return None;
        }
        let index = Self::get_index(&self.dims, (x as u64, y as u64, z as u64));
        Some(&self.voxels[index])
    }

    /// Fills a chunk from per-column heights: a voxel is grass when its `y` is below
    /// `heights[z * width + x]`, air otherwise.
    pub fn generate(dims: &ChunkDims, heights: &Vec<i64>) -> (r: Chunk)
        requires
            dims.valid(),
            heights@.len() == dims.width * dims.length,
        ensures
            r.wf(),
            r.dims == *dims,
            r.voxels@ == terrain_of(*dims, heights@),
    {
        proof {
            lemma_dims_bounds(*dims);
        }
        let size: u64 = dims.width * dims.length * dims.height;
        let mut voxels: Vec<Block> = Vec::new();
        let mut i: u64 = 0;
        while i < size
            invariant
                dims.valid(),
                heights@.len() == dims.width * dims.length,
                size == dims.volume(),
                i <= size,
                voxels@.len() == i,
                forall|j: int|
                    0 <= j < voxels@.len() ==> #[trigger] voxels@[j] == terrain_block(
                        *dims,
                        heights@,
                        j,
                    ),
            decreases size - i,
        {
            let (x, y, z) = Self::get_local_coord(dims, i);
            proof {
                lemma_encode_decode(*dims, i as int);
                lemma_encode_in_range(*dims, x as int, y as int, z as int);
            }
            let column: usize = (z * dims.width + x) as usize;
            let height: i64 = heights[column];
            let kind = if (y as i128) < (height as i128) {
                BlockKind::GRASS
            } else {
                BlockKind::AIR
            };
            voxels.push(Block { kind, is_placed: false });
            i = i + 1;
        }
        assert(voxels@ =~= terrain_of(*dims, heights@));
        Chunk { dims: *dims, voxels }
    }
}

/// Decoding and encoding are mutually inverse on the chunk's coordinates and indices.
pub proof fn lemma_index_coordinate_bijection(d: ChunkDims, x: int, y: int, z: int, i: int)
    requires
        d.valid(),
    ensures
        in_bounds(d, x, y, z) ==> decode(d, encode(d, x, y, z)) == (x, y, z),
        0 <= i < d.volume() ==> encode(d, decode(d, i).0, decode(d, i).1, decode(d, i).2) == i,
{
    if in_bounds(d, x, y, z) {
        lemma_decode_encode(d, x, y, z);
    }
    if 0 <= i < d.volume() {
        lemma_encode_decode(d, i);
    }
}

/// Two chunks generated from the same extents and column heights hold the same voxels.
pub proof fn lemma_generate_deterministic(d: ChunkDims, heights: Seq<i64>, a: Chunk, b: Chunk)
    requires
        a.dims == d,
        b.dims == d,
        a.voxels@ == terrain_of(d, heights),
        b.voxels@ == terrain_of(d, heights),
    ensures
        a.dims == b.dims,
        a.voxels@ == b.voxels@,
{
}

/// In a generated chunk, the voxel at an in-bounds `(x, y, z)` is grass exactly when
/// `y` is below the height of column `(x, z)`.
pub proof fn lemma_terrain_height_field(c: Chunk, heights: Seq<i64>, x: int, y: int, z: int)
    requires
        c.wf(),
        heights.len() == c.dims.width * c.dims.length,
        c.voxels@ == terrain_of(c.dims, heights),
        in_bounds(c.dims, x, y, z),
    ensures
        voxel_at(c, x, y, z) matches Some(b) && (b.kind == BlockKind::GRASS <==> y
            < heights[column_index(c.dims, x, z)]) && !b.is_placed,
{
    lemma_encode_in_range(c.dims, x, y, z);
    lemma_decode_encode(c.dims, x, y, z);
}

} // verus!
