use glsl_to_spirv::compile;
use glsl_to_spirv::compile_sequence;
use glsl_to_spirv::default_resource_limits;
use glsl_to_spirv::default_target_config;
use glsl_to_spirv::stage_of;
use glsl_to_spirv::ShaderType;

#[test]
fn stage_identifiers_match_the_engine() {
    assert_eq!(stage_of(&ShaderType::Vertex), 0);
    assert_eq!(stage_of(&ShaderType::TessellationControl), 1);
    assert_eq!(stage_of(&ShaderType::TessellationEvaluation), 2);
    assert_eq!(stage_of(&ShaderType::Geometry), 3);
    assert_eq!(stage_of(&ShaderType::Fragment), 4);
    assert_eq!(stage_of(&ShaderType::Compute), 5);
}

#[test]
fn stage_identifiers_are_distinct() {
    let all = [
        ShaderType::Vertex,
        ShaderType::Fragment,
        ShaderType::Geometry,
        ShaderType::TessellationControl,
        ShaderType::TessellationEvaluation,
        ShaderType::Compute,
    ];
    for a in &all {
        for b in &all {
            if a != b {
                assert_ne!(stage_of(a), stage_of(b));
            }
        }
    }
}

#[test]
fn request_carries_spliced_source_and_stage() {
    let defs = vec!["FOO=1".to_string()];
    let c = compile("#version 450\nvoid main() {}\n", ShaderType::Fragment, Some(&defs));
    assert_eq!(c.request.source, "#version 450\n#define FOO 1\nvoid main() {}\n");
    assert_eq!(c.request.stage, 4);
    assert_eq!(c.request.config, default_target_config());
    assert_eq!(c.request.limits, default_resource_limits());
}

#[test]
fn target_config_is_vulkan_1_0_spirv_1_0() {
    let config = default_target_config();
    assert_eq!(config.source_language, 1);
    assert_eq!(config.client, 1);
    assert_eq!(config.client_version, 1 << 22);
    assert_eq!(config.target_language, 1);
    assert_eq!(config.target_language_version, 1 << 16);
    assert_eq!(config.default_version, 100);
    assert_eq!(config.default_profile, 1);
    assert_eq!(config.force_default_version_and_profile, 0);
    assert_eq!(config.forward_compatible, 0);
    assert_eq!(config.messages, (1 << 3) | (1 << 4));
    assert_eq!(config.link_messages, (1 << 3) | (1 << 4));
}

#[test]
fn resource_limits_match_the_published_defaults() {
    let limits = default_resource_limits();
    assert_eq!(limits.max_lights, 32);
    assert_eq!(limits.max_clip_planes, 6);
    assert_eq!(limits.max_texture_units, 32);
    assert_eq!(limits.max_vertex_attribs, 64);
    assert_eq!(limits.max_combined_texture_image_units, 80);
    assert_eq!(limits.min_program_texel_offset, -8);
    assert_eq!(limits.max_program_texel_offset, 7);
    assert_eq!(limits.max_compute_work_group_count_x, 65535);
    assert_eq!(limits.max_compute_work_group_size_x, 1024);
    assert_eq!(limits.max_compute_work_group_size_z, 64);
    assert_eq!(limits.max_geometry_output_vertices, 256);
    assert_eq!(limits.max_atomic_counter_buffer_size, 16384);
    assert_eq!(limits.max_samples, 4);
    assert_eq!(limits.max_mesh_view_count_nv, 4);
    assert!(limits.limits.non_inductive_for_loops);
    assert!(limits.limits.while_loops);
    assert!(limits.limits.do_while_loops);
    assert!(limits.limits.general_uniform_indexing);
    assert!(limits.limits.general_attribute_matrix_vector_indexing);
    assert!(limits.limits.general_varying_indexing);
    assert!(limits.limits.general_sampler_indexing);
    assert!(limits.limits.general_variable_indexing);
    assert!(limits.limits.general_constant_matrix_vector_indexing);
}

#[test]
fn sequence_entry_matches_single_shader_compile() {
    let defs = vec!["FOO=1".to_string()];
    let shaders = vec![(
        "#version 450\nvoid main() {}\n".to_string(),
        ShaderType::Vertex,
    )];
    let a = compile_sequence(&shaders, Some(&defs));
    let b = compile("#version 450\nvoid main() {}\n", ShaderType::Vertex, Some(&defs));
    assert_eq!(a.request.source, b.request.source);
    assert_eq!(a.request.stage, b.request.stage);
    assert_eq!(a.request.config, b.request.config);
    assert_eq!(a.request.limits, b.request.limits);
}

#[test]
fn resource_limits_are_identical_for_every_compile() {
    let a = compile("x", ShaderType::Vertex, None);
    let b = compile("y", ShaderType::Compute, None);
    assert_eq!(a.request.limits, b.request.limits);
    assert_eq!(a.request.config, b.request.config);
}
