use bevy_fmod_phonon::phonon_mesh::instancing::{
    audionimbus_material_indices, audionimbus_triangles, plan_instanced_mesh, InstancingPlan,
    MeshKey, SignedTriangle, StaticMeshes,
};
use bevy_fmod_phonon::phonon_mesh::material::PhononMaterial;
use bevy_fmod_phonon::phonon_mesh::mesh::{
    audio_mesh_from_mesh_data, AudioMeshError, MeshData, MeshIndices, PrimitiveTopology, Triangle,
};

fn tri(v0: u32, v1: u32, v2: u32) -> Triangle {
    Triangle { v0, v1, v2 }
}

#[test]
fn triangle_list_is_cut_into_chunks_of_three() {
    let data = MeshData {
        indices: Some(MeshIndices::U32(vec![0, 1, 2, 3, 4, 5])),
        topology: PrimitiveTopology::TriangleList,
        positions: Some(6),
    };
    let mesh = audio_mesh_from_mesh_data(&data, PhononMaterial::Generic).unwrap();
    assert_eq!(mesh.triangles, vec![tri(0, 1, 2), tri(3, 4, 5)]);
    assert_eq!(mesh.material_indices, vec![0, 0]);
    assert_eq!(mesh.material, PhononMaterial::Generic);
    assert_eq!(mesh.vertex_count, 6);
}

#[test]
fn triangle_list_drops_a_trailing_partial_chunk() {
    let data = MeshData {
        indices: Some(MeshIndices::U32(vec![0, 1, 2, 3, 4, 5, 6])),
        topology: PrimitiveTopology::TriangleList,
        positions: Some(7),
    };
    let mesh = audio_mesh_from_mesh_data(&data, PhononMaterial::Generic).unwrap();
    assert_eq!(mesh.triangles, vec![tri(0, 1, 2), tri(3, 4, 5)]);
}

#[test]
fn triangle_strip_swaps_every_second_triangle() {
    let data = MeshData {
        indices: Some(MeshIndices::U32(vec![0, 1, 2, 3, 4])),
        topology: PrimitiveTopology::TriangleStrip,
        positions: Some(5),
    };
    let mesh = audio_mesh_from_mesh_data(&data, PhononMaterial::Generic).unwrap();
    assert_eq!(mesh.triangles, vec![tri(0, 1, 2), tri(2, 1, 3), tri(2, 3, 4)]);
    assert_eq!(mesh.material_indices, vec![0, 0, 0]);
}

#[test]
fn triangle_strip_shorter_than_three_yields_nothing() {
    let data = MeshData {
        indices: Some(MeshIndices::U32(vec![0, 1])),
        topology: PrimitiveTopology::TriangleStrip,
        positions: Some(2),
    };
    let mesh = audio_mesh_from_mesh_data(&data, PhononMaterial::Generic).unwrap();
    assert_eq!(mesh.triangles, vec![]);
    assert_eq!(mesh.material_indices, vec![]);
}

#[test]
fn sixteen_bit_indices_are_widened() {
    let data = MeshData {
        indices: Some(MeshIndices::U16(vec![65535, 1, 2])),
        topology: PrimitiveTopology::TriangleList,
        positions: Some(3),
    };
    let mesh = audio_mesh_from_mesh_data(&data, PhononMaterial::Wood).unwrap();
    assert_eq!(mesh.triangles, vec![tri(65535, 1, 2)]);
    assert_eq!(mesh.material, PhononMaterial::Wood);
}

#[test]
fn a_mesh_without_an_index_buffer_has_no_triangles() {
    let data = MeshData {
        indices: None,
        topology: PrimitiveTopology::LineList,
        positions: Some(4),
    };
    let mesh = audio_mesh_from_mesh_data(&data, PhononMaterial::Generic).unwrap();
    assert_eq!(mesh.triangles, vec![]);
    assert_eq!(mesh.material_indices, vec![]);
    assert_eq!(mesh.vertex_count, 4);
}

#[test]
fn a_non_triangle_topology_is_rejected() {
    let data = MeshData {
        indices: Some(MeshIndices::U32(vec![0, 1, 2])),
        topology: PrimitiveTopology::LineStrip,
        positions: Some(3),
    };
    let err = audio_mesh_from_mesh_data(&data, PhononMaterial::Generic).unwrap_err();
    assert_eq!(
        err,
        AudioMeshError::NonTrianglePrimitiveTopology(PrimitiveTopology::LineStrip)
    );
}

#[test]
fn missing_positions_are_rejected() {
    let data = MeshData {
        indices: Some(MeshIndices::U32(vec![0, 1, 2])),
        topology: PrimitiveTopology::TriangleList,
        positions: None,
    };
    let err = audio_mesh_from_mesh_data(&data, PhononMaterial::Generic).unwrap_err();
    assert_eq!(err, AudioMeshError::NoVertices);
}

#[test]
fn the_topology_error_takes_precedence_over_missing_positions() {
    let data = MeshData {
        indices: Some(MeshIndices::U32(vec![0])),
        topology: PrimitiveTopology::PointList,
        positions: None,
    };
    let err = audio_mesh_from_mesh_data(&data, PhononMaterial::Generic).unwrap_err();
    assert_eq!(
        err,
        AudioMeshError::NonTrianglePrimitiveTopology(PrimitiveTopology::PointList)
    );
}

#[test]
fn the_cache_returns_what_was_inserted_under_the_same_key() {
    let mut cache: StaticMeshes<u32> = StaticMeshes::new();
    let glass_key = MeshKey { mesh_id: 7, material: PhononMaterial::Glass };
    let generic_key = MeshKey { mesh_id: 7, material: PhononMaterial::Generic };
    assert!(cache.get(glass_key).is_none());
    cache.insert(glass_key, 42);
    assert_eq!(cache.get(glass_key), Some(&42));
    assert!(cache.get(generic_key).is_none());
    cache.insert(generic_key, 11);
    assert_eq!(cache.get(glass_key), Some(&42));
    assert_eq!(cache.get(generic_key), Some(&11));
}

#[test]
fn the_plan_reuses_a_cached_scene_and_converts_otherwise() {
    let mut cache: StaticMeshes<u32> = StaticMeshes::new();
    let key = MeshKey { mesh_id: 1, material: PhononMaterial::Generic };
    let other = MeshKey { mesh_id: 2, material: PhononMaterial::Generic };
    assert_eq!(plan_instanced_mesh(&cache, key, true), InstancingPlan::ConvertAndCache);
    assert_eq!(plan_instanced_mesh(&cache, key, false), InstancingPlan::MeshUnavailable);
    cache.insert(key, 5);
    assert_eq!(plan_instanced_mesh(&cache, key, false), InstancingPlan::ReuseCachedScene);
    assert_eq!(plan_instanced_mesh(&cache, other, true), InstancingPlan::ConvertAndCache);
}

#[test]
fn material_indices_are_converted_value_for_value() {
    let out = audionimbus_material_indices(vec![5, 0, 123]);
    assert_eq!(out, vec![5usize, 0, 123]);
}

#[test]
fn triangles_are_reinterpreted_as_signed_indices() {
    let out = audionimbus_triangles(vec![tri(0, 1, 2), tri(4294967295, 2147483648, 3)]);
    assert_eq!(
        out,
        vec![
            SignedTriangle { v0: 0, v1: 1, v2: 2 },
            SignedTriangle { v0: -1, v1: -2147483648, v2: 3 },
        ]
    );
}

#[test]
fn the_default_material_is_the_generic_preset() {
    assert_eq!(PhononMaterial::default(), PhononMaterial::Generic);
}
