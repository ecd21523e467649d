//! The scene value built from the outcome of an import call, and the
//! post-process options the caller hands to the engine.
//!
//! The import call itself is foreign: it reads a model file and either hands
//! back a root with its element counts and an optional metadata block, or
//! fails with the engine's diagnostic text.  The unverified rim makes that
//! call, reads the foreign structures into plain values, and hands them in
//! as an [`ImportOutcome`]; everything derived from the outcome is computed
//! here, eagerly, so no later read of a scene can fail.

use crate::metadata::{
    MetaData, TaggedEntry, decode_agrees, entry_projects, lemma_projection_deterministic,
};
use crate::{RussimpError, Russult};
use vstd::prelude::*;

verus! {

/// Independent post-processing options of the import engine; each is a
/// distinct bit of the flag word the engine takes.
#[derive(Debug, Clone, Copy, PartialEq, Eq, Structural)]
pub enum PostProcessSteps {
    CalcTangentSpace,
    JoinIdenticalVertices,
    MakeLeftHanded,
    Triangulate,
    RemoveComponent,
    GenNormals,
    GenSmoothNormals,
    SplitLargeMeshes,
    PreTransformVertices,
    LimitBoneWeights,
    ValidateDataStructure,
    ImproveCacheLocality,
    RemoveRedundantMaterials,
    FixInfacingNormals,
    SortByPType,
    FindDegenerates,
    FindInvalidData,
    GenUVCoords,
    TransformUVCoords,
    FindInstances,
    OptimizeMeshes,
    OptimizeGraph,
    FlipUVs,
    FlipWindingOrder,
    SplitByBoneCount,
    Debone,
    GlobalScale,
    EmbedTextures,
    ForceGenNormals,
    DropNormals,
    GenBoundingBoxes,
}

/// The engine's bit for each option.
pub open spec fn spec_bits(step: PostProcessSteps) -> u32 {
    match step {
        PostProcessSteps::CalcTangentSpace => 0x1,
        PostProcessSteps::JoinIdenticalVertices => 0x2,
        PostProcessSteps::MakeLeftHanded => 0x4,
        PostProcessSteps::Triangulate => 0x8,
        PostProcessSteps::RemoveComponent => 0x10,
        PostProcessSteps::GenNormals => 0x20,
        PostProcessSteps::GenSmoothNormals => 0x40,
        PostProcessSteps::SplitLargeMeshes => 0x80,
        PostProcessSteps::PreTransformVertices => 0x100,
        PostProcessSteps::LimitBoneWeights => 0x200,
        PostProcessSteps::ValidateDataStructure => 0x400,
        PostProcessSteps::ImproveCacheLocality => 0x800,
        PostProcessSteps::RemoveRedundantMaterials => 0x1000,
        PostProcessSteps::FixInfacingNormals => 0x2000,
        PostProcessSteps::SortByPType => 0x8000,
        PostProcessSteps::FindDegenerates => 0x10000,
        PostProcessSteps::FindInvalidData => 0x20000,
        PostProcessSteps::GenUVCoords => 0x40000,
        PostProcessSteps::TransformUVCoords => 0x80000,
        PostProcessSteps::FindInstances => 0x100000,
        PostProcessSteps::OptimizeMeshes => 0x200000,
        PostProcessSteps::OptimizeGraph => 0x400000,
        PostProcessSteps::FlipUVs => 0x800000,
        PostProcessSteps::FlipWindingOrder => 0x1000000,
        PostProcessSteps::SplitByBoneCount => 0x2000000,
        PostProcessSteps::Debone => 0x4000000,
        PostProcessSteps::GlobalScale => 0x8000000,
        PostProcessSteps::EmbedTextures => 0x10000000,
        PostProcessSteps::ForceGenNormals => 0x20000000,
        PostProcessSteps::DropNormals => 0x40000000,
        PostProcessSteps::GenBoundingBoxes => 0x80000000,
    }
}

impl PostProcessSteps {
    /// The engine's bit for this option.
    pub fn bits(&self) -> (r: u32)
        ensures
            r == spec_bits(*self),
    {
        match self {
            PostProcessSteps::CalcTangentSpace => 0x1,
            PostProcessSteps::JoinIdenticalVertices => 0x2,
            PostProcessSteps::MakeLeftHanded => 0x4,
            PostProcessSteps::Triangulate => 0x8,
            PostProcessSteps::RemoveComponent => 0x10,
            PostProcessSteps::GenNormals => 0x20,
            PostProcessSteps::GenSmoothNormals => 0x40,
            PostProcessSteps::SplitLargeMeshes => 0x80,
            PostProcessSteps::PreTransformVertices => 0x100,
            PostProcessSteps::LimitBoneWeights => 0x200,
            PostProcessSteps::ValidateDataStructure => 0x400,
            PostProcessSteps::ImproveCacheLocality => 0x800,
            PostProcessSteps::RemoveRedundantMaterials => 0x1000,
            PostProcessSteps::FixInfacingNormals => 0x2000,
            PostProcessSteps::SortByPType => 0x8000,
            PostProcessSteps::FindDegenerates => 0x10000,
            PostProcessSteps::FindInvalidData => 0x20000,
            PostProcessSteps::GenUVCoords => 0x40000,
            PostProcessSteps::TransformUVCoords => 0x80000,
            PostProcessSteps::FindInstances => 0x100000,
            PostProcessSteps::OptimizeMeshes => 0x200000,
            PostProcessSteps::OptimizeGraph => 0x400000,
            PostProcessSteps::FlipUVs => 0x800000,
            PostProcessSteps::FlipWindingOrder => 0x1000000,
            PostProcessSteps::SplitByBoneCount => 0x2000000,
            PostProcessSteps::Debone => 0x4000000,
            PostProcessSteps::GlobalScale => 0x8000000,
            PostProcessSteps::EmbedTextures => 0x10000000,
            PostProcessSteps::ForceGenNormals => 0x20000000,
            PostProcessSteps::DropNormals => 0x40000000,
            PostProcessSteps::GenBoundingBoxes => 0x80000000,
        }
    }
}

/// The flag word of a sequence of options: their bits combined left to right
/// by bitwise or.
pub open spec fn spec_combine_flags(steps: Seq<PostProcessSteps>) -> u32
    decreases steps.len(),
{
    if steps.len() == 0 {
        0
    } else {
        spec_combine_flags(steps.drop_last()) | spec_bits(steps.last())
    }
}

/// Combines a caller's set of options into the single flag word the engine
/// takes.
pub fn combine_flags(flags: &Vec<PostProcessSteps>) -> (r: u32)
    ensures
        r == spec_combine_flags(flags@),
{
    let mut acc: u32 = 0;
    let mut i: usize = 0;
    while i < flags.len()
        invariant
            i <= flags.len(),
            acc == spec_combine_flags(flags@.take(i as int)),
        decreases flags.len() - i,
    {
        acc = acc | flags[i].bits();
        proof {
            assert(flags@.take(i + 1).drop_last() =~= flags@.take(i as int));
        }
        i = i + 1;
    }
    proof {
        assert(flags@.take(flags@.len() as int) =~= flags@);
    }
    acc
}

/// The foreign metadata block as read out of the root: the owned copies of
/// the keys, and the tagged entries of the parallel value array.  Both
/// arrays share the foreign count, so the sequences have one length.
#[derive(Debug, PartialEq, Eq)]
pub struct RawMetaData {
    pub keys: Vec<String>,
    pub entries: Vec<TaggedEntry>,
}

/// What a successful import reported: the element counts of the root's
/// arrays, and the metadata block when the root carried one.
#[derive(Debug, PartialEq, Eq)]
pub struct RawSceneData {
    pub num_materials: u32,
    pub num_meshes: u32,
    pub metadata: Option<RawMetaData>,
}

/// The outcome of one import call: the engine either returned a null root
/// and its diagnostic text, or a live root whose contents were read into
/// plain values.
#[derive(Debug, PartialEq, Eq)]
pub enum ImportOutcome {
    Failure(String),
    Success(RawSceneData),
}

/// The projected scene: the element counts the import reported, and the
/// fully decoded metadata map when a block was present.  All of it is
/// computed once, at construction; nothing here mutates afterwards.
#[derive(Debug, PartialEq, Eq)]
pub struct Scene {
    pub num_materials: u32,
    pub num_meshes: u32,
    pub metadata: Option<MetaData>,
}

/// A well-formed outcome: a metadata block's two parallel arrays share one
/// length, since both are read with the block's one count.  A failed import
/// carries nothing to align.
pub open spec fn outcome_wf(outcome: ImportOutcome) -> bool {
    match outcome {
        ImportOutcome::Failure(_) => true,
        ImportOutcome::Success(data) => match data.metadata {
            None => true,
            Some(raw) => raw.keys@.len() == raw.entries@.len(),
        },
    }
}

/// A scene stands for a successful import when it kept both counts and its
/// metadata map projects the raw block: none for none, and otherwise the
/// keys as handed in with every entry decoded into its own slot.
pub open spec fn scene_projects(data: RawSceneData, s: Scene) -> bool {
    &&& s.num_materials == data.num_materials
    &&& s.num_meshes == data.num_meshes
    &&& match data.metadata {
        None => s.metadata is None,
        Some(raw) => s.metadata matches Some(md) && {
            &&& md.wf()
            &&& md.keys == raw.keys
            &&& md.values@.len() == raw.entries@.len()
            &&& forall|i: int|
                0 <= i < raw.entries@.len() ==> entry_projects(
                    raw.entries@[i],
                    #[trigger] md.values@[i],
                )
        },
    }
}

/// Projecting an import's data is a function of that data alone: any two
/// scenes standing for one successful import carry the same counts, agree on
/// whether a metadata block was present, and their metadata maps keep the
/// same keys and agree slot by slot on the decoded content.  Re-reading a
/// projected scene can therefore never show a different one.
pub proof fn lemma_scene_deterministic(data: RawSceneData, s1: Scene, s2: Scene)
    requires
        scene_projects(data, s1),
        scene_projects(data, s2),
    ensures
        s1.num_materials == s2.num_materials,
        s1.num_meshes == s2.num_meshes,
        s1.metadata is Some <==> s2.metadata is Some,
        match (s1.metadata, s2.metadata) {
            (Some(m1), Some(m2)) => {
                &&& m1.keys == m2.keys
                &&& m1.values@.len() == m2.values@.len()
                &&& forall|i: int|
                    0 <= i < m1.values@.len() ==> (#[trigger] m1.values@[i]).tag
                        == m2.values@[i].tag && decode_agrees(
                        m1.values@[i].data,
                        m2.values@[i].data,
                    )
            },
            _ => true,
        },
{
    match data.metadata {
        None => {},
        Some(raw) => {
            let m1 = s1.metadata->Some_0;
            let m2 = s2.metadata->Some_0;
            lemma_projection_deterministic(raw.entries@, m1.values@, m2.values@);
        },
    }
}

impl Scene {
    /// Builds the scene a finished import call yields.  A failed import
    /// (null root) becomes the import error carrying the engine's text, and
    /// no scene; a successful one becomes a scene that projects the data
    /// the root reported, metadata decoded per entry.
    pub fn from(outcome: ImportOutcome) -> (r: Russult<Scene>)
        requires
            outcome_wf(outcome),
        ensures
            outcome matches ImportOutcome::Failure(msg) ==> (r matches Err(
                RussimpError::Import(m),
            ) && m@ == msg@),
            outcome matches ImportOutcome::Success(data) ==> (r matches Ok(s)
                && scene_projects(data, s)),
    {
        match outcome {
            ImportOutcome::Failure(msg) => Err(RussimpError::Import(msg)),
            ImportOutcome::Success(data) => {
                let metadata = match data.metadata {
                    None => None,
                    Some(raw) => Some(MetaData::project(raw.keys, &raw.entries)),
                };
                Ok(
                    Scene {
                        num_materials: data.num_materials,
                        num_meshes: data.num_meshes,
                        metadata,
                    },
                )
            },
        }
    }
}

} // verus!
