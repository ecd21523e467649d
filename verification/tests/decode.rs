use russimp::metadata::{
    DecoderKind, MetaData, MetaDataEntry, MetadataType, TagPayload, TaggedEntry, Vector3d,
    cast_text, cast_vector3d, select_decoder, TEXT_TAG, VECTOR3D_TAG,
};
use russimp::RussimpError;

#[test]
fn selecting_by_priority_over_full_tag_patterns() {
    assert_eq!(select_decoder(VECTOR3D_TAG), Some(DecoderKind::Vector3d));
    assert_eq!(select_decoder(TEXT_TAG), Some(DecoderKind::Text));
    // A mask carrying both full patterns goes to the vector decoder, which
    // stands first in the priority order.
    assert_eq!(
        select_decoder(TEXT_TAG | VECTOR3D_TAG),
        Some(DecoderKind::Vector3d)
    );
    // The unrecognized scalar kinds (boolean, integers, floating scalars)
    // cover neither pattern and fall through.
    assert_eq!(select_decoder(0), None);
    assert_eq!(select_decoder(1), None);
    assert_eq!(select_decoder(2), None);
    assert_eq!(select_decoder(3), None);
    assert_eq!(select_decoder(4), None);
    assert_eq!(select_decoder(8), None);
}

#[test]
fn vector_payload_is_kept_untransformed() {
    let v = Vector3d {
        x: 1.5f32.to_bits(),
        y: (-2.0f32).to_bits(),
        z: 0.0f32.to_bits(),
    };
    let r = cast_vector3d(Some(v));
    assert_eq!(r, Ok(MetadataType::Vector3d(v)));
}

#[test]
fn vector_without_payload_reports_null_data() {
    let r = cast_vector3d(None);
    assert_eq!(
        r,
        Err(RussimpError::MetadataError("data is null".to_string()))
    );
}

#[test]
fn text_payload_is_decoded_exactly() {
    let r = cast_text(&b"  hello world  ".to_vec());
    assert_eq!(r, Ok(MetadataType::String("  hello world  ".to_string())));
}

#[test]
fn multibyte_text_is_decoded_not_copied() {
    // Two bytes, one character: decoding really runs.
    let r = cast_text(&vec![0xC3, 0xA9]);
    assert_eq!(r, Ok(MetadataType::String("\u{e9}".to_string())));
}

#[test]
fn invalid_text_reports_encoding_error() {
    let r = cast_text(&vec![0xFF, 0x68, 0x69]);
    assert!(matches!(r, Err(RussimpError::Encoding(_))));
}

#[test]
fn casting_an_entry_runs_the_selected_decoder() {
    let v = Vector3d { x: 1, y: 2, z: 3 };
    let vector_entry = TaggedEntry {
        tag: VECTOR3D_TAG,
        payload: TagPayload::Vector3d(v),
    };
    assert_eq!(
        MetaDataEntry::cast_data(&vector_entry),
        Ok(MetadataType::Vector3d(v))
    );

    let text_entry = TaggedEntry {
        tag: TEXT_TAG,
        payload: TagPayload::Text(b"camera".to_vec()),
    };
    assert_eq!(
        MetaDataEntry::cast_data(&text_entry),
        Ok(MetadataType::String("camera".to_string()))
    );

    let null_entry = TaggedEntry {
        tag: VECTOR3D_TAG,
        payload: TagPayload::Absent,
    };
    assert_eq!(
        MetaDataEntry::cast_data(&null_entry),
        Err(RussimpError::MetadataError("data is null".to_string()))
    );
}

#[test]
fn unrecognized_tag_fails_without_panicking() {
    // Tag values the engine uses for variants this version deliberately
    // does not decode, and one no variant uses at all.
    for tag in [0, 1, 2, 3, 4, 8] {
        let entry = TaggedEntry {
            tag,
            payload: TagPayload::Absent,
        };
        assert_eq!(
            MetaDataEntry::cast_data(&entry),
            Err(RussimpError::MetadataError(
                "could not find caster for metadata type".to_string()
            ))
        );
    }
}

#[test]
fn projection_keeps_keys_and_decodes_each_slot() {
    let keys = vec!["a".to_string(), "b".to_string(), "a".to_string()];
    let entries = vec![
        TaggedEntry {
            tag: VECTOR3D_TAG,
            payload: TagPayload::Vector3d(Vector3d { x: 7, y: 8, z: 9 }),
        },
        TaggedEntry {
            tag: 8,
            payload: TagPayload::Absent,
        },
        TaggedEntry {
            tag: TEXT_TAG,
            payload: TagPayload::Text(b"ok".to_vec()),
        },
    ];
    let map = MetaData::project(keys, &entries);

    // Duplicate keys are legal and kept in position.
    assert_eq!(
        map.keys,
        vec!["a".to_string(), "b".to_string(), "a".to_string()]
    );
    assert_eq!(map.values.len(), 3);
    assert_eq!(map.values[0].tag, VECTOR3D_TAG);
    assert_eq!(
        map.values[0].data,
        Ok(MetadataType::Vector3d(Vector3d { x: 7, y: 8, z: 9 }))
    );
    // The malformed slot fails alone; its neighbors stay intact.
    assert!(matches!(
        map.values[1].data,
        Err(RussimpError::MetadataError(_))
    ));
    assert_eq!(map.values[2].data, Ok(MetadataType::String("ok".to_string())));
}

#[test]
fn empty_arrays_project_to_an_empty_map() {
    let map = MetaData::project(Vec::new(), &Vec::new());
    assert!(map.keys.is_empty());
    assert!(map.values.is_empty());
}

#[test]
fn re_reading_decoded_values_is_identical() {
    let entry = TaggedEntry {
        tag: TEXT_TAG,
        payload: TagPayload::Text(b"stable".to_vec()),
    };
    let first = MetaDataEntry::cast_data(&entry);
    let second = MetaDataEntry::cast_data(&entry);
    assert_eq!(first, second);

    let make_entries = || {
        vec![TaggedEntry {
            tag: VECTOR3D_TAG,
            payload: TagPayload::Vector3d(Vector3d { x: 1, y: 2, z: 3 }),
        }]
    };
    let m1 = MetaData::project(vec!["k".to_string()], &make_entries());
    let m2 = MetaData::project(vec!["k".to_string()], &make_entries());
    assert_eq!(m1, m2);
}
