//! Shader-stage classification.
//!
//! The compilation engine identifies the pipeline stage of a shader by a
//! small integer. `ShaderType` is the caller-facing enumeration of stages;
//! `stage_of` resolves each variant to the engine's stage identifier.

use vstd::prelude::*;

verus! {

/// Type of shader.
#[derive(Debug, Clone, PartialEq, Eq, Structural)]
pub enum ShaderType {
    Vertex,
    Fragment,
    Geometry,
    TessellationControl,
    TessellationEvaluation,
    Compute,
}

/// The engine's stage identifier for each shader type.
pub open spec fn spec_stage_of(ty: ShaderType) -> u32 {
    match ty {
        ShaderType::Vertex => 0,
        ShaderType::TessellationControl => 1,
        ShaderType::TessellationEvaluation => 2,
        ShaderType::Geometry => 3,
        ShaderType::Fragment => 4,
        ShaderType::Compute => 5,
    }
}

/// Total classifier from shader type to the engine's stage identifier.
pub fn stage_of(ty: &ShaderType) -> (stage: u32)
    ensures
        stage == spec_stage_of(*ty),
{
    match ty {
        ShaderType::Vertex => 0,
        ShaderType::TessellationControl => 1,
        ShaderType::TessellationEvaluation => 2,
        ShaderType::Geometry => 3,
        ShaderType::Fragment => 4,
        ShaderType::Compute => 5,
    }
}

/// The classifier is injective: distinct shader types resolve to distinct
/// engine stage identifiers.
pub proof fn lemma_stage_of_injective(a: ShaderType, b: ShaderType)
    ensures
        spec_stage_of(a) == spec_stage_of(b) ==> a == b,
{
}

} // verus!
