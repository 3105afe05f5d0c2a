//! Triangulation of an engine mesh's index buffer.
//!
//! The engine stores a mesh's connectivity as a flat index buffer together
//! with a primitive topology; the acoustic scene wants an explicit triangle
//! list. A triangle list is cut into consecutive chunks of three, a triangle
//! strip into overlapping windows of three with every second triangle's first
//! two corners swapped to keep a consistent winding. Any other topology
//! cannot become audio geometry and is rejected.

use crate::phonon_mesh::material::PhononMaterial;
use vstd::prelude::*;

verus! {

/// A mesh's index buffer, in either of the two widths the engine uses.
#[derive(PartialEq, Debug)]
pub enum MeshIndices {
    U16(Vec<u16>),
    U32(Vec<u32>),
}

/// How a mesh's index buffer assembles vertices into primitives. Mirrors the
/// engine's own topology setting; only the two triangle forms can be turned
/// into audio geometry.
#[derive(Clone, Copy, PartialEq, Eq, Structural, Debug)]
pub enum PrimitiveTopology {
    PointList,
    LineList,
    LineStrip,
    TriangleList,
    TriangleStrip,
}

/// One triangle of audio geometry: three indices into the vertex buffer.
#[derive(Clone, Copy, PartialEq, Eq, Structural, Debug)]
pub struct Triangle {
    pub v0: u32,
    pub v1: u32,
    pub v2: u32,
}

/// Why a mesh could not become audio geometry.
#[derive(Clone, Copy, PartialEq, Eq, Structural, Debug)]
pub enum AudioMeshError {
    /// The mesh carries no position attribute in the three-float format.
    NoVertices,
    /// The mesh's topology is not one of the two triangle forms.
    NonTrianglePrimitiveTopology(PrimitiveTopology),
}

/// An engine mesh reduced to the plain values the conversion reads: its
/// index buffer, its topology, and how many three-float vertex positions it
/// carries (`None` when the position attribute is absent or in some other
/// format).
#[derive(PartialEq, Debug)]
pub struct MeshData {
    pub indices: Option<MeshIndices>,
    pub topology: PrimitiveTopology,
    pub positions: Option<usize>,
}

/// Audio geometry ready for the acoustic scene: triangles over a vertex
/// buffer of `vertex_count` positions, all tagged with the one material of
/// the mesh. Entry `i` of `material_indices` names the material of triangle
/// `i`; with a single material every entry is zero.
#[derive(Debug)]
pub struct AudioMesh {
    pub triangles: Vec<Triangle>,
    pub material_indices: Vec<u32>,
    pub material: PhononMaterial,
    pub vertex_count: usize,
}

/// A 16-bit index buffer widened to 32 bits, value for value.
pub open spec fn widened_indices(s: Seq<u16>) -> Seq<u32> {
    s.map_values(|x: u16| x as u32)
}

/// The values of an index buffer, as 32-bit indices.
pub open spec fn index_values(ix: MeshIndices) -> Seq<u32> {
    match ix {
        MeshIndices::U16(v) => widened_indices(v@),
        MeshIndices::U32(v) => v@,
    }
}

/// Triangle `i` of a triangle list: the `i`-th chunk of three indices.
pub open spec fn list_triangle(s: Seq<u32>, i: int) -> Triangle {
    Triangle { v0: s[3 * i], v1: s[3 * i + 1], v2: s[3 * i + 2] }
}

/// A triangle list cut into triangles; a trailing chunk of fewer than three
/// indices is dropped.
pub open spec fn list_triangles(s: Seq<u32>) -> Seq<Triangle> {
    Seq::new(s.len() / 3, |i: int| list_triangle(s, i))
}

/// Triangle `i` of a triangle strip: the window of three indices starting at
/// `i`, with the first two corners swapped on every second triangle so that
/// all triangles wind the same way.
pub open spec fn strip_triangle(s: Seq<u32>, i: int) -> Triangle {
    if (i + 1) % 2 == 0 {
        Triangle { v0: s[i + 1], v1: s[i], v2: s[i + 2] }
    } else {
        Triangle { v0: s[i], v1: s[i + 1], v2: s[i + 2] }
    }
}

/// How many triangles a strip of `n` indices yields.
pub open spec fn strip_triangle_count(n: nat) -> nat {
    if n < 3 {
        0
    } else {
        (n - 2) as nat
    }
}

/// A triangle strip cut into triangles.
pub open spec fn strip_triangles(s: Seq<u32>) -> Seq<Triangle> {
    Seq::new(strip_triangle_count(s.len()), |i: int| strip_triangle(s, i))
}

/// What triangulating a mesh yields: no index buffer means no triangles, a
/// triangle list or strip is cut as above, and any other topology is
/// rejected. The topology is examined only when an index buffer is present,
/// exactly as the conversion behaves.
pub open spec fn triangulation(indices: Option<MeshIndices>, topology: PrimitiveTopology) -> Result<
    Seq<Triangle>,
    AudioMeshError,
> {
    match indices {
        Option::None => Result::Ok(Seq::empty()),
        Option::Some(ix) => match topology {
            PrimitiveTopology::TriangleList => Result::Ok(list_triangles(index_values(ix))),
            PrimitiveTopology::TriangleStrip => Result::Ok(strip_triangles(index_values(ix))),
            _ => Result::Err(AudioMeshError::NonTrianglePrimitiveTopology(topology)),
        },
    }
}

/// Material indices for `n` triangles that all use material zero.
pub open spec fn generic_material_indices(n: nat) -> Seq<u32> {
    Seq::new(n, |i: int| 0u32)
}

/// The values of an index buffer as a fresh 32-bit vector.
fn index_values_vec(ix: &MeshIndices) -> (r: Vec<u32>)
    ensures
        r@ == index_values(*ix),
{
    match ix {
        MeshIndices::U16(v) => {
            let mut r: Vec<u32> = Vec::new();
            let mut i: usize = 0;
            while i < v.len()
                invariant
                    i <= v@.len(),
                    r@.len() == i,
                    forall|j: int| 0 <= j < i ==> r@[j] == v@[j] as u32,
                decreases v@.len() - i,
            {
                r.push(v[i] as u32);
                i = i + 1;
            }
            proof {
                assert(r@ =~= widened_indices(v@));
            }
            r
        },
        MeshIndices::U32(v) => {
            let mut r: Vec<u32> = Vec::new();
            let mut i: usize = 0;
            while i < v.len()
                invariant
                    i <= v@.len(),
                    r@.len() == i,
                    forall|j: int| 0 <= j < i ==> r@[j] == v@[j],
                decreases v@.len() - i,
            {
                r.push(v[i]);
                i = i + 1;
            }
            proof {
                assert(r@ =~= v@);
            }
            r
        },
    }
}

/// Cuts a triangle list's index buffer into triangles.
fn cut_triangle_list(ix: &Vec<u32>) -> (r: Vec<Triangle>)
    ensures
        r@ == list_triangles(ix@),
{
    let n: usize = ix.len() / 3;
    let mut r: Vec<Triangle> = Vec::new();
    let mut t: usize = 0;
    while t < n
        invariant
            ix@.len() <= usize::MAX,
            n == ix@.len() / 3,
            t <= n,
            r@.len() == t,
            forall|j: int| 0 <= j < t ==> r@[j] == list_triangle(ix@, j),
        decreases n - t,
    {
        proof {
            assert(3 * n <= ix@.len()) by {
                vstd::arithmetic::div_mod::lemma_fundamental_div_mod(ix@.len() as int, 3);
            };
            assert(3 * t + 2 < ix@.len());
        }
        let tri = Triangle { v0: ix[3 * t], v1: ix[3 * t + 1], v2: ix[3 * t + 2] };
        r.push(tri);
        t = t + 1;
    }
    proof {
        assert(r@ =~= list_triangles(ix@));
    }
    r
}

/// Cuts a triangle strip's index buffer into triangles, swapping the first
/// two corners of every second triangle.
fn cut_triangle_strip(ix: &Vec<u32>) -> (r: Vec<Triangle>)
    ensures
        r@ == strip_triangles(ix@),
{
    let mut r: Vec<Triangle> = Vec::new();
    if ix.len() < 3 {
        proof {
            assert(r@ =~= strip_triangles(ix@));
        }
        return r;
    }
    let n: usize = ix.len() - 2;
    let mut t: usize = 0;
    while t < n
        invariant
            3 <= ix@.len(),
            ix@.len() <= usize::MAX,
            n == ix@.len() - 2,
            t <= n,
            r@.len() == t,
            forall|j: int| 0 <= j < t ==> r@[j] == strip_triangle(ix@, j),
        decreases n - t,
    {
        proof {
            assert(t + 2 < ix@.len());
        }
        let tri = if (t + 1) % 2 == 0 {
            Triangle { v0: ix[t + 1], v1: ix[t], v2: ix[t + 2] }
        } else {
            Triangle { v0: ix[t], v1: ix[t + 1], v2: ix[t + 2] }
        };
        r.push(tri);
        t = t + 1;
    }
    proof {
        assert(r@ =~= strip_triangles(ix@));
    }
    r
}

/// Material indices for `count` triangles that all use material zero.
fn material_indices_vec(count: usize) -> (r: Vec<u32>)
    ensures
        r@ == generic_material_indices(count as nat),
{
    let mut r: Vec<u32> = Vec::new();
    let mut i: usize = 0;
    while i < count
        invariant
            i <= count,
            r@.len() == i,
            forall|j: int| 0 <= j < i ==> r@[j] == 0u32,
        decreases count - i,
    {
        r.push(0u32);
        i = i + 1;
    }
    proof {
        assert(r@ =~= generic_material_indices(count as nat));
    }
    r
}

/// Converts a mesh, handed over as plain values, into audio geometry with
/// the requested material. Succeeds exactly when the index buffer (if any)
/// is in a triangle topology and the mesh carries three-float positions; the
/// topology is checked first, as its error takes precedence.
pub fn audio_mesh_from_mesh_data(data: &MeshData, material: PhononMaterial) -> (r: Result<
    AudioMesh,
    AudioMeshError,
>)
    ensures
        match r {
            Result::Ok(m) => {
                &&& triangulation(data.indices, data.topology) matches Result::Ok(ts)
                    && m.triangles@ == ts
                &&& data.positions matches Option::Some(count) && m.vertex_count == count
                &&& m.material_indices@ == generic_material_indices(m.triangles@.len())
                &&& m.material == material
            },
            Result::Err(e) => match e {
                AudioMeshError::NoVertices => {
                    &&& triangulation(data.indices, data.topology) is Ok
                    &&& data.positions is None
                },
                AudioMeshError::NonTrianglePrimitiveTopology(t) => {
                    &&& triangulation(data.indices, data.topology) == Result::<
                        Seq<Triangle>,
                        AudioMeshError,
                    >::Err(AudioMeshError::NonTrianglePrimitiveTopology(t))
                    &&& t == data.topology
                },
            },
        },
{
    let triangles: Vec<Triangle> = match &data.indices {
        Option::Some(ix) => {
            let values = index_values_vec(ix);
            match data.topology {
                PrimitiveTopology::TriangleList => cut_triangle_list(&values),
                PrimitiveTopology::TriangleStrip => cut_triangle_strip(&values),
                _ => {
                    return Result::Err(
                        AudioMeshError::NonTrianglePrimitiveTopology(data.topology),
                    );
                },
            }
        },
        Option::None => Vec::new(),
    };
    let vertex_count: usize = match data.positions {
        Option::Some(count) => count,
        Option::None => {
            return Result::Err(AudioMeshError::NoVertices);
        },
    };
    let count = triangles.len();
    let material_indices = material_indices_vec(count);
    Result::Ok(AudioMesh { triangles, material_indices, material, vertex_count })
}

} // verus!
