//! Instancing of converted meshes in the acoustic scene.
//!
//! Converting an engine mesh into acoustic geometry is done once per
//! distinct pair of mesh and material: the converted sub-scene is cached
//! under that pair, and every further entity with the same mesh and material
//! only instances the cached sub-scene. The cache is an association list
//! with unique keys, seen through a `Map` view; the cached value itself (the
//! native sub-scene) stays opaque to the cache, which is generic over it.
//!
//! The module also carries the conversions from the mesh module's index
//! types into the word widths the simulation library takes.

use crate::phonon_mesh::material::PhononMaterial;
use crate::phonon_mesh::mesh::Triangle;
use vstd::prelude::*;

verus! {

/// What a converted mesh is cached under: the identity of the engine's mesh
/// asset and the acoustic material it was converted with. The same mesh
/// converted with two materials yields two distinct sub-scenes.
#[derive(Clone, Copy, PartialEq, Eq, Structural, Debug)]
pub struct MeshKey {
    /// The engine-side identity of the mesh asset.
    pub mesh_id: u64,
    /// The material the triangles were tagged with.
    pub material: PhononMaterial,
}

/// The sub-scenes of the meshes converted so far, keyed by mesh and
/// material. `V` is the handle type of the native sub-scene.
pub struct StaticMeshes<V> {
    entries: Vec<(MeshKey, V)>,
}

/// The association list `s`, read back to front, as a map.
spec fn entries_map<V>(s: Seq<(MeshKey, V)>) -> Map<MeshKey, V>
    decreases s.len(),
{
    if s.len() == 0 {
        Map::empty()
    } else {
        entries_map(s.drop_last()).insert(s.last().0, s.last().1)
    }
}

/// A key is in the map exactly when some entry carries it.
proof fn lemma_entries_map_contains<V>(s: Seq<(MeshKey, V)>, key: MeshKey)
    ensures
        entries_map(s).contains_key(key) <==> exists|i: int|
            0 <= i < s.len() && (#[trigger] s[i]).0 == key,
    decreases s.len(),
{
    if s.len() > 0 {
        lemma_entries_map_contains(s.drop_last(), key);
        if s.last().0 == key {
            assert(s[s.len() - 1].0 == key);
        } else {
            if exists|i: int| 0 <= i < s.len() && (#[trigger] s[i]).0 == key {
                let i = choose|i: int| 0 <= i < s.len() && (#[trigger] s[i]).0 == key;
                assert(s.drop_last()[i] == s[i]);
            }
            if entries_map(s.drop_last()).contains_key(key) {
                let i = choose|i: int|
                    0 <= i < s.drop_last().len() && (#[trigger] s.drop_last()[i]).0 == key;
                assert(s[i] == s.drop_last()[i]);
            }
        }
    }
}

/// With pairwise distinct keys, the entry that carries a key decides what
/// the map holds under it.
proof fn lemma_entries_map_value<V>(s: Seq<(MeshKey, V)>, i: int)
    requires
        0 <= i < s.len(),
        forall|p: int, q: int| 0 <= p < q < s.len() ==> (#[trigger] s[p]).0 != (#[trigger] s[q]).0,
    ensures
        entries_map(s).contains_key(s[i].0),
        entries_map(s)[s[i].0] == s[i].1,
    decreases s.len(),
{
    if i < s.len() - 1 {
        assert(s[i].0 != s[s.len() - 1].0);
        assert(forall|p: int, q: int|
            0 <= p < q < s.drop_last().len() ==> (#[trigger] s.drop_last()[p]).0 != (
            #[trigger] s.drop_last()[q]).0);
        lemma_entries_map_value(s.drop_last(), i);
        assert(s.drop_last()[i] == s[i]);
    }
}

impl<V> StaticMeshes<V> {
    /// The cache seen as a map from key to cached sub-scene.
    pub closed spec fn view(&self) -> Map<MeshKey, V> {
        entries_map(self.entries@)
    }

    /// No two entries carry the same key.
    pub closed spec fn wf(&self) -> bool {
        forall|p: int, q: int|
            0 <= p < q < self.entries@.len() ==> (#[trigger] self.entries@[p]).0 != (
            #[trigger] self.entries@[q]).0
    }

    /// An empty cache: nothing has been converted yet.
    pub fn new() -> (r: Self)
        ensures
            r.wf(),
            r@ == Map::<MeshKey, V>::empty(),
    {
        StaticMeshes { entries: Vec::new() }
    }

    /// The sub-scene cached under `key`, if that mesh and material were
    /// converted before.
    pub fn get(&self, key: MeshKey) -> (r: Option<&V>)
        requires
            self.wf(),
        ensures
            match r {
                Option::Some(v) => self@.contains_key(key) && *v == self@[key],
                Option::None => !self@.contains_key(key),
            },
    {
        let n = self.entries.len();
        let mut i: usize = 0;
        while i < n
            invariant
                self.wf(),
                n == self.entries@.len(),
                i <= n,
                forall|j: int| 0 <= j < i ==> (#[trigger] self.entries@[j]).0 != key,
            decreases n - i,
        {
            if self.entries[i].0 == key {
                proof {
                    lemma_entries_map_value(self.entries@, i as int);
                }
                return Option::Some(&self.entries[i].1);
            }
            i = i + 1;
        }
        proof {
            lemma_entries_map_contains(self.entries@, key);
        }
        Option::None
    }

    /// Caches the sub-scene of a mesh and material converted for the first
    /// time. Afterwards the cache holds exactly what it held before, plus
    /// `value` under `key`.
    pub fn insert(&mut self, key: MeshKey, value: V)
        requires
            old(self).wf(),
            !old(self)@.contains_key(key),
        ensures
            final(self).wf(),
            final(self)@ == old(self)@.insert(key, value),
    {
        proof {
            lemma_entries_map_contains(self.entries@, key);
        }
        self.entries.push((key, value));
        proof {
            assert(self.entries@.drop_last() =~= old(self).entries@);
            assert(self.entries@.last() == (key, value));
        }
    }
}

/// The next step for an entity whose mesh should enter the acoustic scene:
/// either its mesh and material were converted before and the cached
/// sub-scene is instanced again, or the mesh asset is loaded and is
/// converted and cached first, or the asset is not loaded and nothing can be
/// done.
#[derive(Clone, Copy, PartialEq, Eq, Structural, Debug)]
pub enum InstancingPlan {
    ReuseCachedScene,
    ConvertAndCache,
    MeshUnavailable,
}

/// Decides how an instanced mesh for `key` is to be made: reuse beats
/// conversion, and conversion is possible only while the mesh asset is
/// loaded.
pub fn plan_instanced_mesh<V>(cache: &StaticMeshes<V>, key: MeshKey, mesh_available: bool) -> (p:
    InstancingPlan)
    requires
        cache.wf(),
    ensures
        p is ReuseCachedScene <==> cache@.contains_key(key),
        p is ConvertAndCache <==> !cache@.contains_key(key) && mesh_available,
        p is MeshUnavailable <==> !cache@.contains_key(key) && !mesh_available,
{
    if cache.get(key).is_some() {
        InstancingPlan::ReuseCachedScene
    } else if mesh_available {
        InstancingPlan::ConvertAndCache
    } else {
        InstancingPlan::MeshUnavailable
    }
}

/// A triangle in the index format of the simulation library, whose corners
/// are signed 32-bit indices.
#[derive(Clone, Copy, PartialEq, Eq, Structural, Debug)]
pub struct SignedTriangle {
    pub v0: i32,
    pub v1: i32,
    pub v2: i32,
}

/// Triangles in the index format of the simulation library: each corner
/// index reinterpreted as a signed 32-bit value.
pub fn audionimbus_triangles(input: Vec<Triangle>) -> (r: Vec<SignedTriangle>)
    ensures
        r@.len() == input@.len(),
        forall|i: int|
            0 <= i < input@.len() ==> r@[i] == (SignedTriangle {
                v0: input@[i].v0 as i32,
                v1: input@[i].v1 as i32,
                v2: input@[i].v2 as i32,
            }),
{
    let mut r: Vec<SignedTriangle> = Vec::new();
    let mut i: usize = 0;
    while i < input.len()
        invariant
            i <= input@.len(),
            r@.len() == i,
            forall|j: int|
                0 <= j < i ==> r@[j] == (SignedTriangle {
                    v0: input@[j].v0 as i32,
                    v1: input@[j].v1 as i32,
                    v2: input@[j].v2 as i32,
                }),
        decreases input@.len() - i,
    {
        let t = input[i];
        r.push(SignedTriangle { v0: t.v0 as i32, v1: t.v1 as i32, v2: t.v2 as i32 });
        i = i + 1;
    }
    r
}

/// Material indices in the word width of the simulation library.
pub fn audionimbus_material_indices(input: Vec<u32>) -> (r: Vec<usize>)
    ensures
        r@.len() == input@.len(),
        forall|i: int| 0 <= i < input@.len() ==> r@[i] == input@[i] as usize,
{
    let mut r: Vec<usize> = Vec::new();
    let mut i: usize = 0;
    while i < input.len()
        invariant
            i <= input@.len(),
            r@.len() == i,
            forall|j: int| 0 <= j < i ==> r@[j] == input@[j] as usize,
        decreases input@.len() - i,
    {
        r.push(input[i] as usize);
        i = i + 1;
    }
    r
}

} // verus!
