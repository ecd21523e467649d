use russimp::metadata::{MetadataType, TagPayload, TaggedEntry, TEXT_TAG};
use russimp::scene::{
    ImportOutcome, PostProcessSteps, RawMetaData, RawSceneData, Scene, combine_flags,
};
use russimp::RussimpError;

#[test]
fn each_flag_has_its_engine_bit() {
    assert_eq!(PostProcessSteps::CalcTangentSpace.bits(), 0x1);
    assert_eq!(PostProcessSteps::JoinIdenticalVertices.bits(), 0x2);
    assert_eq!(PostProcessSteps::Triangulate.bits(), 0x8);
    assert_eq!(PostProcessSteps::SortByPType.bits(), 0x8000);
    assert_eq!(PostProcessSteps::GenBoundingBoxes.bits(), 0x80000000);
}

#[test]
fn flags_combine_by_bitwise_or() {
    assert_eq!(combine_flags(&Vec::new()), 0);
    let flags = vec![
        PostProcessSteps::CalcTangentSpace,
        PostProcessSteps::Triangulate,
        PostProcessSteps::JoinIdenticalVertices,
        PostProcessSteps::SortByPType,
    ];
    assert_eq!(combine_flags(&flags), 0x800B);
    // A repeated option changes nothing: its bit is already set.
    let doubled = vec![
        PostProcessSteps::Triangulate,
        PostProcessSteps::Triangulate,
        PostProcessSteps::CalcTangentSpace,
    ];
    assert_eq!(combine_flags(&doubled), 0x9);
}

#[test]
fn failed_import_surfaces_the_engine_text() {
    let outcome = ImportOutcome::Failure("Unable to open file box.blend".to_string());
    let r = Scene::from(outcome);
    assert_eq!(
        r,
        Err(RussimpError::Import(
            "Unable to open file box.blend".to_string()
        ))
    );
}

#[test]
fn scene_without_metadata_block_has_none() {
    let outcome = ImportOutcome::Success(RawSceneData {
        num_materials: 1,
        num_meshes: 1,
        metadata: None,
    });
    let scene = Scene::from(outcome).unwrap();
    assert_eq!(scene.num_materials, 1);
    assert_eq!(scene.num_meshes, 1);
    assert!(scene.metadata.is_none());
}

#[test]
fn scene_keeps_counts_and_decodes_metadata() {
    let outcome = ImportOutcome::Success(RawSceneData {
        num_materials: 2,
        num_meshes: 5,
        metadata: Some(RawMetaData {
            keys: vec!["SourceAsset_Format".to_string()],
            entries: vec![TaggedEntry {
                tag: TEXT_TAG,
                payload: TagPayload::Text(b"Blender 3D".to_vec()),
            }],
        }),
    });
    let scene = Scene::from(outcome).unwrap();
    assert_eq!(scene.num_materials, 2);
    assert_eq!(scene.num_meshes, 5);
    let map = scene.metadata.unwrap();
    assert_eq!(map.keys, vec!["SourceAsset_Format".to_string()]);
    assert_eq!(map.values.len(), 1);
    assert_eq!(
        map.values[0].data,
        Ok(MetadataType::String("Blender 3D".to_string()))
    );
}
