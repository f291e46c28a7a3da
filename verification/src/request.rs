//! The engine's compile-input record.
//!
//! Every compile hands the engine one request: the (possibly
//! preamble-spliced) source text, the resolved stage identifier, a fixed
//! target configuration, and the fixed resource-limits table. The target
//! configuration is exposed as an explicit record rather than literals
//! buried in the pipeline, but this library always supplies the same one:
//! GLSL source, SPIR-V 1.0 for a Vulkan 1.0 client, default GLSL version
//! 100 with no forced profile, and default + SPIR-V-rules + Vulkan-rules
//! message flags.

use crate::limits::spec_default_limits;
use crate::limits::default_resource_limits;
use crate::limits::ResourceLimits;
use crate::preamble::defs_view;
use crate::preamble::prepare_source;
use crate::preamble::prepared_source;
use crate::stage::spec_stage_of;
use crate::stage::stage_of;
use crate::stage::ShaderType;
use vstd::prelude::*;

verus! {

/// The fixed compile-target configuration, in the engine's identifier
/// encoding.
#[derive(Debug, Clone, Copy, PartialEq, Eq, Structural)]
pub struct TargetConfig {
    /// Source language identifier; GLSL.
    pub source_language: i32,
    /// Target client identifier; Vulkan.
    pub client: i32,
    /// Target client version identifier; Vulkan 1.0.
    pub client_version: i32,
    /// Target language identifier; SPIR-V.
    pub target_language: i32,
    /// Target language version identifier; SPIR-V 1.0.
    pub target_language_version: i32,
    /// GLSL version assumed for sources without a `#version` directive.
    pub default_version: i32,
    /// Profile assumed alongside the default version; no profile.
    pub default_profile: i32,
    /// Whether the default version and profile override the source's own.
    pub force_default_version_and_profile: i32,
    /// Whether forward-compatible checking is requested.
    pub forward_compatible: i32,
    /// Message flags for preprocess and parse: default, SPIR-V rules and
    /// Vulkan rules.
    pub messages: i32,
    /// Message flags for link: SPIR-V rules and Vulkan rules.
    pub link_messages: i32,
}

/// The one target configuration this library ever supplies: SPIR-V 1.0 for
/// a Vulkan 1.0 client from GLSL source, default version 100, no forced
/// profile, default + SPIR-V-rules + Vulkan-rules messages.
pub open spec fn spec_default_config() -> TargetConfig {
    TargetConfig {
        source_language: 1,
        client: 1,
        client_version: 0x400000,
        target_language: 1,
        target_language_version: 0x10000,
        default_version: 100,
        default_profile: 1,
        force_default_version_and_profile: 0,
        forward_compatible: 0,
        messages: 0x18,
        link_messages: 0x18,
    }
}

/// The fixed target configuration handed to every compile.
pub fn default_target_config() -> (config: TargetConfig)
    ensures
        config == spec_default_config(),
{
    TargetConfig {
        source_language: 1,
        client: 1,
        client_version: 0x400000,
        target_language: 1,
        target_language_version: 0x10000,
        default_version: 100,
        default_profile: 1,
        force_default_version_and_profile: 0,
        forward_compatible: 0,
        messages: 0x18,
        link_messages: 0x18,
    }
}

/// Everything the engine needs to compile one shader.
#[derive(Debug)]
pub struct CompileRequest {
    /// The source text, with the macro preamble already spliced in.
    pub source: String,
    /// The engine's identifier for the shader's stage.
    pub stage: u32,
    /// The fixed target configuration.
    pub config: TargetConfig,
    /// The fixed resource-limits table.
    pub limits: ResourceLimits,
}

/// Builds the engine's compile-input record: the preamble-spliced source,
/// the resolved stage, and the fixed target configuration and resource
/// limits.
pub fn build_request(code: &str, ty: &ShaderType, shader_defs: Option<&[String]>) -> (request:
    CompileRequest)
    ensures
        request.source@ == prepared_source(code@, defs_view(shader_defs)),
        request.stage == spec_stage_of(*ty),
        request.config == spec_default_config(),
        request.limits == spec_default_limits(),
{
    CompileRequest {
        source: prepare_source(code, shader_defs),
        stage: stage_of(ty),
        config: default_target_config(),
        limits: default_resource_limits(),
    }
}

} // verus!
