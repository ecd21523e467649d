//! Decoding of self-describing tagged metadata entries, and the projection
//! of the foreign parallel key/value arrays into a typed map.
//!
//! A foreign metadata entry carries a bitmask type tag and an address whose
//! meaning is determined by the tag.  The tag is not guaranteed to have a
//! single bit set, so decoding runs an explicit priority order over the
//! recognized kinds and the first whose full bit pattern the tag covers
//! wins; an entry none of them claims fails with a typed error.

use crate::{RussimpError, Russult};
use vstd::prelude::*;
use vstd::utf8::{decode_utf8, valid_utf8};

verus! {

/// Tag bit of a text entry (the engine's string metadata type).
pub const TEXT_TAG: u32 = 5;

/// Tag bit of a three-component vector entry.
pub const VECTOR3D_TAG: u32 = 6;

/// A recognized kind of tagged entry, in decode priority order: vectors are
/// claimed first, then text.  The remaining kinds the foreign engine can tag
/// (boolean, integer, floating scalars) are deliberately not decoded; they
/// fall through to the unrecognized-tag failure.
#[derive(Debug, Clone, Copy, PartialEq, Eq, Structural)]
pub enum DecoderKind {
    Vector3d,
    Text,
}

/// The vector decoder claims every tag whose mask covers its own bits.
pub open spec fn can_cast_vector3d(tag: u32) -> bool {
    tag & VECTOR3D_TAG == VECTOR3D_TAG
}

/// The text decoder claims every tag whose mask covers its own bits.
pub open spec fn can_cast_text(tag: u32) -> bool {
    tag & TEXT_TAG == TEXT_TAG
}

/// First-match-wins over the priority order: vector first, then text.
pub open spec fn spec_select_decoder(tag: u32) -> Option<DecoderKind> {
    if can_cast_vector3d(tag) {
        Some(DecoderKind::Vector3d)
    } else if can_cast_text(tag) {
        Some(DecoderKind::Text)
    } else {
        None
    }
}

/// Picks the decoder whose capability matches the tag, by priority, or
/// reports that none does.  Drives which read of the foreign payload is
/// meaningful for this entry.
pub fn select_decoder(tag: u32) -> (r: Option<DecoderKind>)
    ensures
        r == spec_select_decoder(tag),
{
    if tag & VECTOR3D_TAG == VECTOR3D_TAG {
        Some(DecoderKind::Vector3d)
    } else if tag & TEXT_TAG == TEXT_TAG {
        Some(DecoderKind::Text)
    } else {
        None
    }
}

/// A three-component vector read out of foreign memory.  Each component is
/// the raw bit pattern of one single-precision component, kept exactly as it
/// stands in the foreign array: this layer transforms nothing.
#[derive(Debug, Clone, Copy, PartialEq, Eq, Structural)]
pub struct Vector3d {
    pub x: u32,
    pub y: u32,
    pub z: u32,
}

/// A decoded metadata value: one of the closed set of recognized variants.
/// Text owns its copy of the foreign bytes; a vector carries the raw
/// component bit patterns.
#[derive(Debug, PartialEq, Eq)]
pub enum MetadataType {
    String(String),
    Vector3d(Vector3d),
}

/// What stood behind a tagged entry's data address, read according to the
/// decoder its tag selects: nothing (the address was null), the raw vector
/// components, or the bytes of a text payload.
#[derive(Debug, PartialEq, Eq)]
pub enum TagPayload {
    Absent,
    Vector3d(Vector3d),
    Text(Vec<u8>),
}

/// A self-describing foreign metadata entry as this layer sees it: the
/// bitmask type tag, and the payload read from its data address.
#[derive(Debug, PartialEq, Eq)]
pub struct TaggedEntry {
    pub tag: u32,
    pub payload: TagPayload,
}

/// What decoding a tagged entry must return.  The decoder the tag selects
/// (first match over the priority order) decides the variant: a vector
/// payload is returned untransformed; text bytes are returned exactly as
/// their decoding when validly encoded and fail with an encoding error
/// otherwise; a missing payload where data was expected, and a tag no
/// decoder claims, each fail with the matching typed error.
pub open spec fn decodes_to(entry: TaggedEntry, r: Russult<MetadataType>) -> bool {
    match spec_select_decoder(entry.tag) {
        Some(DecoderKind::Vector3d) => match entry.payload {
            TagPayload::Vector3d(v) => r == Ok::<MetadataType, RussimpError>(
                MetadataType::Vector3d(v),
            ),
            _ => r matches Err(RussimpError::MetadataError(m)) && m@ == "data is null"@,
        },
        Some(DecoderKind::Text) => match entry.payload {
            TagPayload::Text(bytes) => if valid_utf8(bytes@) {
                r matches Ok(MetadataType::String(s)) && s@ == decode_utf8(bytes@)
            } else {
                r matches Err(RussimpError::Encoding(m)) && m@ == "invalid utf-8 sequence"@
            },
            _ => r matches Err(RussimpError::MetadataError(m)) && m@ == "data is null"@,
        },
        None => r matches Err(RussimpError::MetadataError(m)) && m@
            == "could not find caster for metadata type"@,
    }
}

/// Relies on `core::str::from_utf8` from std: it succeeds exactly when the
/// bytes are valid UTF-8, and then returns the text those bytes encode.
#[verifier::external_body]
fn bytes_to_str(bytes: &[u8]) -> (r: Option<&str>)
    ensures
        r is Some <==> valid_utf8(bytes@),
        r matches Some(s) ==> s@ == decode_utf8(bytes@),
{
    match core::str::from_utf8(bytes) {
        Ok(s) => Some(s),
        Err(_) => None,
    }
}

/// Decodes a text payload: the decoded bytes exactly, with no trimming or
/// normalization, or an encoding error when the bytes are not valid text.
pub fn cast_text(bytes: &Vec<u8>) -> (r: Russult<MetadataType>)
    ensures
        valid_utf8(bytes@) ==> (r matches Ok(MetadataType::String(s)) && s@ == decode_utf8(
            bytes@,
        )),
        !valid_utf8(bytes@) ==> (r matches Err(RussimpError::Encoding(m)) && m@
            == "invalid utf-8 sequence"@),
{
    match bytes_to_str(bytes.as_slice()) {
        Some(s) => Ok(MetadataType::String(s.to_owned())),
        None => Err(RussimpError::Encoding("invalid utf-8 sequence".to_owned())),
    }
}

/// Decodes a vector payload: the raw components untransformed, or the
/// null-payload error when the data address held nothing.
pub fn cast_vector3d(data: Option<Vector3d>) -> (r: Russult<MetadataType>)
    ensures
        data matches Some(v) ==> r == Ok::<MetadataType, RussimpError>(
            MetadataType::Vector3d(v),
        ),
        data is None ==> (r matches Err(RussimpError::MetadataError(m)) && m@
            == "data is null"@),
{
    match data {
        Some(v) => Ok(MetadataType::Vector3d(v)),
        None => Err(RussimpError::MetadataError("data is null".to_owned())),
    }
}

/// One slot of the metadata map: the tag the foreign entry carried, and the
/// decoded value or the per-entry error.  A failed slot is isolated; it
/// blocks nothing else.
#[derive(Debug, PartialEq, Eq)]
pub struct MetaDataEntry {
    pub tag: u32,
    pub data: Russult<MetadataType>,
}

/// A decoded slot stands for a foreign entry when it kept its tag and its
/// value is what decoding that entry must return.
pub open spec fn entry_projects(entry: TaggedEntry, slot: MetaDataEntry) -> bool {
    slot.tag == entry.tag && decodes_to(entry, slot.data)
}

impl MetaDataEntry {
    /// Decodes one tagged entry: runs the priority order over the recognized
    /// decoders and invokes the first whose capability matches the tag, or
    /// fails when none does.
    pub fn cast_data(entry: &TaggedEntry) -> (r: Russult<MetadataType>)
        ensures
            decodes_to(*entry, r),
    {
        match select_decoder(entry.tag) {
            Some(DecoderKind::Vector3d) => match &entry.payload {
                TagPayload::Vector3d(v) => cast_vector3d(Some(*v)),
                _ => cast_vector3d(None),
            },
            Some(DecoderKind::Text) => match &entry.payload {
                TagPayload::Text(bytes) => cast_text(bytes),
                _ => Err(RussimpError::MetadataError("data is null".to_owned())),
            },
            None => Err(
                RussimpError::MetadataError(
                    "could not find caster for metadata type".to_owned(),
                ),
            ),
        }
    }

    /// Builds the map slot for one foreign entry: the tag, and the decoded
    /// value or its per-entry error.
    pub fn from_raw(entry: &TaggedEntry) -> (r: MetaDataEntry)
        ensures
            entry_projects(*entry, r),
    {
        MetaDataEntry { tag: entry.tag, data: MetaDataEntry::cast_data(entry) }
    }
}

/// The typed metadata map: parallel ordered sequences of owned keys and
/// decoded slots, indices aligned one to one.  Duplicate keys are legal and
/// kept in position; order is the foreign array order.
#[derive(Debug, PartialEq, Eq)]
pub struct MetaData {
    pub keys: Vec<String>,
    pub values: Vec<MetaDataEntry>,
}

impl MetaData {
    /// The map is well formed when its two sequences stay aligned.
    pub open spec fn wf(self) -> bool {
        self.keys@.len() == self.values@.len()
    }

    /// Projects the foreign parallel arrays: the keys are kept as handed in,
    /// and every tagged entry is decoded into the slot at its own index.  A
    /// slot whose entry fails to decode holds that failure; the others are
    /// untouched.
    pub fn project(keys: Vec<String>, entries: &Vec<TaggedEntry>) -> (r: MetaData)
        requires
            keys@.len() == entries@.len(),
        ensures
            r.wf(),
            r.keys == keys,
            r.values@.len() == entries@.len(),
            forall|i: int|
                0 <= i < entries@.len() ==> entry_projects(
                    entries@[i],
                    #[trigger] r.values@[i],
                ),
    {
        let mut values: Vec<MetaDataEntry> = Vec::new();
        let mut i: usize = 0;
        while i < entries.len()
            invariant
                i <= entries@.len(),
                values@.len() == i,
                forall|j: int|
                    0 <= j < i ==> entry_projects(entries@[j], #[trigger] values@[j]),
            decreases entries@.len() - i,
        {
            values.push(MetaDataEntry::from_raw(&entries[i]));
            i = i + 1;
        }
        MetaData { keys, values }
    }
}

/// A tagged entry the vector decoder claims, with a payload at its data
/// address, always decodes to a vector whose three components are the
/// foreign memory's raw values, with no transformation.
pub proof fn lemma_vector_decode(entry: TaggedEntry, v: Vector3d, r: Russult<MetadataType>)
    requires
        decodes_to(entry, r),
        can_cast_vector3d(entry.tag),
        entry.payload == TagPayload::Vector3d(v),
    ensures
        r == Ok::<MetadataType, RussimpError>(MetadataType::Vector3d(v)),
{
}

/// A tagged entry the text decoder claims (its tag covers the text tag's
/// bits but not the vector tag's, which takes priority), whose bytes form
/// validly encoded text, always decodes to that text exactly: no trimming,
/// no normalization.
pub proof fn lemma_text_decode(entry: TaggedEntry, bytes: Seq<u8>, r: Russult<MetadataType>)
    requires
        decodes_to(entry, r),
        can_cast_text(entry.tag),
        !can_cast_vector3d(entry.tag),
        entry.payload matches TagPayload::Text(b) && b@ == bytes,
        valid_utf8(bytes),
    ensures
        r matches Ok(MetadataType::String(s)) && s@ == decode_utf8(bytes),
{
}

/// A tagged entry no decoder claims always fails with the unrecognized-tag
/// error, and with nothing else: decoding never panics and never touches a
/// neighboring entry.
pub proof fn lemma_unrecognized_tag(entry: TaggedEntry, r: Russult<MetadataType>)
    requires
        decodes_to(entry, r),
        !can_cast_vector3d(entry.tag),
        !can_cast_text(entry.tag),
    ensures
        r matches Err(RussimpError::MetadataError(m)) && m@
            == "could not find caster for metadata type"@,
{
}

/// Two decoded values carry the same content: equal text, or equal raw
/// vector components.
pub open spec fn decoded_value_eq(a: MetadataType, b: MetadataType) -> bool {
    match (a, b) {
        (MetadataType::String(s1), MetadataType::String(s2)) => s1@ == s2@,
        (MetadataType::Vector3d(v1), MetadataType::Vector3d(v2)) => v1 == v2,
        _ => false,
    }
}

/// Two failures carry the same error: the same variant with the same text.
pub open spec fn error_eq(a: RussimpError, b: RussimpError) -> bool {
    match (a, b) {
        (RussimpError::Import(m1), RussimpError::Import(m2)) => m1@ == m2@,
        (RussimpError::MetadataError(m1), RussimpError::MetadataError(m2)) => m1@ == m2@,
        (RussimpError::Encoding(m1), RussimpError::Encoding(m2)) => m1@ == m2@,
        _ => false,
    }
}

/// Two decode results agree: they succeed on exactly the same entries, when
/// both succeed they carry the same content, and when both fail they carry
/// the same error.
pub open spec fn decode_agrees(r1: Russult<MetadataType>, r2: Russult<MetadataType>) -> bool {
    &&& r1 is Ok <==> r2 is Ok
    &&& match (r1, r2) {
        (Ok(v1), Ok(v2)) => decoded_value_eq(v1, v2),
        (Err(e1), Err(e2)) => error_eq(e1, e2),
        _ => true,
    }
}

/// Decoding is a function of the entry alone: any two results of decoding
/// one tagged entry succeed together, carry identical content when they
/// succeed, and carry the same error when they fail.  Re-reading a decoded
/// value can therefore never show a different one.
pub proof fn lemma_decode_deterministic(
    entry: TaggedEntry,
    r1: Russult<MetadataType>,
    r2: Russult<MetadataType>,
)
    requires
        decodes_to(entry, r1),
        decodes_to(entry, r2),
    ensures
        decode_agrees(r1, r2),
{
}

/// Projection is a function of the foreign arrays alone: any two projected
/// slot sequences of one entry sequence keep the same tags and agree slot by
/// slot on the decoded content.  Re-reading a projected sequence can
/// therefore never show a different one.
pub proof fn lemma_projection_deterministic(
    entries: Seq<TaggedEntry>,
    v1: Seq<MetaDataEntry>,
    v2: Seq<MetaDataEntry>,
)
    requires
        v1.len() == entries.len(),
        v2.len() == entries.len(),
        forall|i: int| 0 <= i < entries.len() ==> entry_projects(entries[i], #[trigger] v1[i]),
        forall|i: int| 0 <= i < entries.len() ==> entry_projects(entries[i], #[trigger] v2[i]),
    ensures
        forall|i: int|
            0 <= i < entries.len() ==> (#[trigger] v1[i]).tag == v2[i].tag && decode_agrees(
                v1[i].data,
                v2[i].data,
            ),
{
    assert forall|i: int|
        0 <= i < entries.len() implies (#[trigger] v1[i]).tag == v2[i].tag && decode_agrees(
        v1[i].data,
        v2[i].data,
    ) by {
        lemma_decode_deterministic(entries[i], v1[i].data, v2[i].data);
    }
}

} // verus!
