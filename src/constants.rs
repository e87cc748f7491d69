use vstd::prelude::*;

verus! {

/// Edge length of one atlas tile, in texels.
pub const ATLAS_OFFSET: u64 = 32;

/// Width of the texture atlas, in texels.
pub const ATLAS_WIDTH: u64 = 1024;

/// Height of the texture atlas, in texels.
pub const ATLAS_HEIGHT: u64 = 1024;

/// Default chunk extent along x.
pub const CHUNK_WIDTH: u64 = 64;

/// Default chunk extent along z.
pub const CHUNK_LENGTH: u64 = 64;

/// Default chunk extent along y.
pub const CHUNK_HEIGHT: u64 = 256;

/// Largest number of voxels a chunk may hold, so that every mesh index fits in a `u32`.
pub const MAX_VOXELS: u64 = 134217728;

/// Largest number of faces a mesh builder accepts (six per voxel).
pub const MAX_FACES: u32 = 805306368;

/// Whether meshing culls faces hidden by a solid neighbour.
pub const OPTIMIZED_MESH: bool = true;

/// The six faces of a unit cube.
#[derive(Clone, Copy, Debug, PartialEq, Eq, Structural)]
pub enum FaceKind {
    Left,
    Right,
    Front,
    Back,
    Top,
    Bottom,
}

/// The four corners of a face, in the order they are appended to a mesh.
#[derive(Clone, Copy, Debug, PartialEq, Eq, Structural)]
pub enum VertexIndex {
    BottomLeft,
    BottomRight,
    TopLeft,
    TopRight,
}

/// The three axes of a position triple.
#[derive(Clone, Copy, Debug, PartialEq, Eq, Structural)]
pub enum Vector {
    X,
    Y,
    Z,
}

/// A template vertex of a unit cube face.
///
/// `position` is measured in half voxels from the cube's centre, so each
/// component is -1 or 1; `uv` is the corner of the tile, each component 0 or 1.
#[derive(Clone, Copy, Debug)]
pub struct Vertex {
    pub position: (i64, i64, i64),
    pub uv: (u64, u64),
}

/// A face of the unit cube: its kind, outward unit normal and four corners.
#[derive(Clone, Copy, Debug)]
pub struct Face {
    pub kind: FaceKind,
    pub normal: (i64, i64, i64),
    pub vertices: [Vertex; 4],
}

/// Position of face `k` in the table, 0 to 5.
pub open spec fn face_ordinal(k: FaceKind) -> nat {
    match k {
        FaceKind::Left => 0,
        FaceKind::Right => 1,
        FaceKind::Front => 2,
        FaceKind::Back => 3,
        FaceKind::Top => 4,
        FaceKind::Bottom => 5,
    }
}

/// The face at position `i` of the table; positions past the end give `Bottom`.
pub open spec fn face_at(i: int) -> FaceKind {
    if i == 0 {
        FaceKind::Left
    } else if i == 1 {
        FaceKind::Right
    } else if i == 2 {
        FaceKind::Front
    } else if i == 3 {
        FaceKind::Back
    } else if i == 4 {
        FaceKind::Top
    } else {
        FaceKind::Bottom
    }
}

/// Outward unit normal of face `k`.
pub open spec fn normal_of(k: FaceKind) -> (i64, i64, i64) {
    match k {
        FaceKind::Left => (-1i64, 0i64, 0i64),
        FaceKind::Right => (1i64, 0i64, 0i64),
        FaceKind::Front => (0i64, 0i64, 1i64),
        FaceKind::Back => (0i64, 0i64, -1i64),
        FaceKind::Top => (0i64, 1i64, 0i64),
        FaceKind::Bottom => (0i64, -1i64, 0i64),
    }
}

/// True of the six axis-aligned unit vectors.
pub open spec fn is_unit_axis(n: (i64, i64, i64)) -> bool {
    ||| n == (1i64, 0i64, 0i64)
    ||| n == (-1i64, 0i64, 0i64)
    ||| n == (0i64, 1i64, 0i64)
    ||| n == (0i64, -1i64, 0i64)
    ||| n == (0i64, 0i64, 1i64)
    ||| n == (0i64, 0i64, -1i64)
}

/// Tile corner of the `j`-th vertex of any face: bottom-left, bottom-right, top-left, top-right.
pub open spec fn corner_uv(j: int) -> (u64, u64) {
    if j == 0 {
        (0, 1)
    } else if j == 1 {
        (1, 1)
    } else if j == 2 {
        (0, 0)
    } else {
        (1, 0)
    }
}

/// Position, in half voxels, of the `j`-th vertex of face `k`.
pub open spec fn corner_position(k: FaceKind, j: int) -> (i64, i64, i64) {
    match k {
        FaceKind::Left => if j == 0 {
            (-1i64, -1i64, -1i64)
        } else if j == 1 {
            (-1i64, -1i64, 1i64)
        } else if j == 2 {
            (-1i64, 1i64, -1i64)
        } else {
            (-1i64, 1i64, 1i64)
        },
        FaceKind::Right => if j == 0 {
            (1i64, -1i64, 1i64)
        } else if j == 1 {
            (1i64, -1i64, -1i64)
        } else if j == 2 {
            (1i64, 1i64, 1i64)
        } else {
            (1i64, 1i64, -1i64)
        },
        FaceKind::Front => if j == 0 {
            (-1i64, -1i64, 1i64)
        } else if j == 1 {
            (1i64, -1i64, 1i64)
        } else if j == 2 {
            (-1i64, 1i64, 1i64)
        } else {
            (1i64, 1i64, 1i64)
        },
        FaceKind::Back => if j == 0 {
            (1i64, -1i64, -1i64)
        } else if j == 1 {
            (-1i64, -1i64, -1i64)
        } else if j == 2 {
            (1i64, 1i64, -1i64)
        } else {
            (-1i64, 1i64, -1i64)
        },
        FaceKind::Top => if j == 0 {
            (-1i64, 1i64, 1i64)
        } else if j == 1 {
            (1i64, 1i64, 1i64)
        } else if j == 2 {
            (-1i64, 1i64, -1i64)
        } else {
            (1i64, 1i64, -1i64)
        },
        FaceKind::Bottom => if j == 0 {
            (-1i64, -1i64, -1i64)
        } else if j == 1 {
            (1i64, -1i64, -1i64)
        } else if j == 2 {
            (-1i64, -1i64, 1i64)
        } else {
            (1i64, -1i64, 1i64)
        },
    }
}

/// The `j`-th template vertex of face `k`.
pub open spec fn vertex_of(k: FaceKind, j: int) -> Vertex {
    Vertex { position: corner_position(k, j), uv: corner_uv(j) }
}

/// Offset of the `k`-th index of a quad from the quad's first vertex: `0, 1, 2, 2, 1, 3`.
pub open spec fn triangle_offset(k: int) -> int {
    if k == 0 {
        0
    } else if k == 1 {
        1
    } else if k == 2 {
        2
    } else if k == 3 {
        2
    } else if k == 4 {
        1
    } else {
        3
    }
}

/// The `k`-th entry of the quad index pattern.
pub fn triangle_index(k: usize) -> (r: u32)
    requires
        k < 6,
    ensures
        r == triangle_offset(k as int),
{
    if k == 0 {
        0
    } else if k == 1 {
        1
    } else if k == 2 {
        2
    } else if k == 3 {
        2
    } else if k == 4 {
        1
    } else {
        3
    }
}

impl FaceKind {
    /// Position of this face in the table.
    pub fn value(&self) -> (r: usize)
        ensures
            r == face_ordinal(*self),
    {
        match self {
            FaceKind::Left => 0,
            FaceKind::Right => 1,
            FaceKind::Front => 2,
            FaceKind::Back => 3,
            FaceKind::Top => 4,
            FaceKind::Bottom => 5,
        }
    }

    /// The face at position `index` of the table; an index past the end gives `Bottom`.
    pub fn get_face(index: usize) -> (r: FaceKind)
        ensures
            r == face_at(index as int),
    {
        match index {
            0 => FaceKind::Left,
            1 => FaceKind::Right,
            2 => FaceKind::Front,
            3 => FaceKind::Back,
            4 => FaceKind::Top,
            _ => FaceKind::Bottom,
        }
    }
}

/// Looking a face up by its own position gives the face back.
pub proof fn lemma_face_index_round_trip(k: FaceKind)
    ensures
        face_at(face_ordinal(k) as int) == k,
        face_ordinal(k) < 6,
{
}

impl VertexIndex {
    /// Position of this corner among a face's four vertices.
    pub fn value(&self) -> (r: usize)
        ensures
            r < 4,
            r == vertex_ordinal(*self),
    {
        match self {
            VertexIndex::BottomLeft => 0,
            VertexIndex::BottomRight => 1,
            VertexIndex::TopLeft => 2,
            VertexIndex::TopRight => 3,
        }
    }
}

/// Position of corner `v` among a face's four vertices.
pub open spec fn vertex_ordinal(v: VertexIndex) -> nat {
    match v {
        VertexIndex::BottomLeft => 0,
        VertexIndex::BottomRight => 1,
        VertexIndex::TopLeft => 2,
        VertexIndex::TopRight => 3,
    }
}

/// Component `a` of the triple `t`.
pub open spec fn component(t: (i64, i64, i64), a: Vector) -> i64 {
    match a {
        Vector::X => t.0,
        Vector::Y => t.1,
        Vector::Z => t.2,
    }
}

impl Vector {
    /// Selects this axis's component of `t`.
    pub fn of(&self, t: (i64, i64, i64)) -> (r: i64)
        ensures
            r == component(t, *self),
    {
        match self {
            Vector::X => t.0,
            Vector::Y => t.1,
            Vector::Z => t.2,
        }
    }
}

impl Face {
    /// The spec-level description of a face table entry for `k`.
    pub open spec fn is_table_entry(&self, k: FaceKind) -> bool {
        &&& self.kind == k
        &&& self.normal == normal_of(k)
        &&& forall|j: int| 0 <= j < 4 ==> #[trigger] self.vertices@[j] == vertex_of(k, j)
    }

    /// The corner `which` of this face.
    pub fn vertex(&self, which: VertexIndex) -> (r: Vertex)
        ensures
            r == self.vertices@[vertex_ordinal(which) as int],
    {
        self.vertices[which.value()]
    }
}

/// The table entry of face `kind`: its normal and its four template vertices.
pub fn face_table(kind: FaceKind) -> (f: Face)
    ensures
        f.is_table_entry(kind),
{
    let vertices: [Vertex; 4] = match kind {
        FaceKind::Left => [
            Vertex { position: (-1, -1, -1), uv: (0, 1) },
            Vertex { position: (-1, -1, 1), uv: (1, 1) },
            Vertex { position: (-1, 1, -1), uv: (0, 0) },
            Vertex { position: (-1, 1, 1), uv: (1, 0) },
        ],
        FaceKind::Right => [
            Vertex { position: (1, -1, 1), uv: (0, 1) },
            Vertex { position: (1, -1, -1), uv: (1, 1) },
            Vertex { position: (1, 1, 1), uv: (0, 0) },
            Vertex { position: (1, 1, -1), uv: (1, 0) },
        ],
        FaceKind::Front => [
            Vertex { position: (-1, -1, 1), uv: (0, 1) },
            Vertex { position: (1, -1, 1), uv: (1, 1) },
            Vertex { position: (-1, 1, 1), uv: (0, 0) },
            Vertex { position: (1, 1, 1), uv: (1, 0) },
        ],
        FaceKind::Back => [
            Vertex { position: (1, -1, -1), uv: (0, 1) },
            Vertex { position: (-1, -1, -1), uv: (1, 1) },
            Vertex { position: (1, 1, -1), uv: (0, 0) },
            Vertex { position: (-1, 1, -1), uv: (1, 0) },
        ],
        FaceKind::Top => [
            Vertex { position: (-1, 1, 1), uv: (0, 1) },
            Vertex { position: (1, 1, 1), uv: (1, 1) },
            Vertex { position: (-1, 1, -1), uv: (0, 0) },
            Vertex { position: (1, 1, -1), uv: (1, 0) },
        ],
        FaceKind::Bottom => [
            Vertex { position: (-1, -1, -1), uv: (0, 1) },
            Vertex { position: (1, -1, -1), uv: (1, 1) },
            Vertex { position: (-1, -1, 1), uv: (0, 0) },
            Vertex { position: (1, -1, 1), uv: (1, 0) },
        ],
    };
    let normal: (i64, i64, i64) = match kind {
        FaceKind::Left => (-1, 0, 0),
        FaceKind::Right => (1, 0, 0),
        FaceKind::Front => (0, 0, 1),
        FaceKind::Back => (0, 0, -1),
        FaceKind::Top => (0, 1, 0),
        FaceKind::Bottom => (0, -1, 0),
    };
    let f = Face { kind, normal, vertices };
    assert(f.vertices@[0] == vertex_of(kind, 0));
    assert(f.vertices@[1] == vertex_of(kind, 1));
    assert(f.vertices@[2] == vertex_of(kind, 2));
    assert(f.vertices@[3] == vertex_of(kind, 3));
    f
}

} // verus!
