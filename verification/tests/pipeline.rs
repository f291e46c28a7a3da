use glsl_to_spirv::compile;
use glsl_to_spirv::format_phase_error;
use glsl_to_spirv::EngineReply;
use glsl_to_spirv::Phase;
use glsl_to_spirv::ShaderType;

const MINIMAL_COMPUTE: &str =
    "#version 450\nlayout(local_size_x = 8, local_size_y = 8, local_size_z = 1) in;\nvoid main() {}\n";

const SPIRV_MAGIC: u32 = 0x0723_0203;

fn ok() -> EngineReply {
    EngineReply::PhaseOk
}

fn failed(info: &str, debug: &str) -> EngineReply {
    EngineReply::PhaseFailed {
        info_log: info.to_string(),
        debug_log: debug.to_string(),
    }
}

fn module(words: &[u32]) -> EngineReply {
    EngineReply::Module {
        words: words.to_vec(),
    }
}

#[test]
fn successful_run_returns_the_generated_words() {
    let words = vec![SPIRV_MAGIC, 0x0001_0000, 7, 0, 42];
    let mut c = compile(MINIMAL_COMPUTE, ShaderType::Compute, None);
    c = c.feed(ok());
    assert!(!c.finished());
    c = c.feed(ok());
    c = c.feed(ok());
    assert!(!c.finished());
    c = c.feed(module(&words));
    assert!(c.finished());
    let out = c.finish().unwrap();
    assert_eq!(out, words);
    assert!(!out.is_empty());
    assert_eq!(out[0], SPIRV_MAGIC);
}

#[test]
fn preprocess_failure_formats_its_diagnostic() {
    let mut c = compile("nonsense", ShaderType::Fragment, None);
    c = c.feed(failed("bad directive", "ppdbg"));
    assert!(c.finished());
    let err = c.finish().unwrap_err();
    assert_eq!(
        err,
        "glslang_shader_preprocess:\nInfo log:\nbad directive\nDebug log:\nppdbg\n"
    );
}

#[test]
fn parse_failure_formats_its_diagnostic() {
    let mut c = compile("void main() { x }", ShaderType::Fragment, None);
    c = c.feed(ok());
    c = c.feed(failed("ERROR: 0:1: syntax error", ""));
    assert!(c.finished());
    let err = c.finish().unwrap_err();
    assert_eq!(
        err,
        "glslang_shader_parse:\nInfo log:\nERROR: 0:1: syntax error\nDebug log:\n\n"
    );
    assert!(err.starts_with("glslang_shader_parse:\n"));
    assert!(!err.starts_with("glslang_shader_preprocess:\n"));
}

#[test]
fn link_failure_formats_its_diagnostic() {
    let mut c = compile(MINIMAL_COMPUTE, ShaderType::Compute, None);
    c = c.feed(ok());
    c = c.feed(ok());
    c = c.feed(failed("no entry point", "linkdbg"));
    let err = c.finish().unwrap_err();
    assert_eq!(
        err,
        "glslang_program_link:\nInfo log:\nno entry point\nDebug log:\nlinkdbg\n"
    );
}

#[test]
fn failure_is_absorbing() {
    let mut c = compile("x", ShaderType::Vertex, None);
    c = c.feed(failed("oops", "dbg"));
    assert!(c.finished());
    c = c.feed(ok());
    c = c.feed(module(&[SPIRV_MAGIC]));
    assert!(c.finished());
    let err = c.finish().unwrap_err();
    assert_eq!(err, "glslang_shader_preprocess:\nInfo log:\noops\nDebug log:\ndbg\n");
}

#[test]
fn feed_all_matches_stepwise_feeding() {
    let words = vec![SPIRV_MAGIC, 1, 2, 3];
    let replies = vec![ok(), ok(), ok(), module(&words)];
    let c = compile(MINIMAL_COMPUTE, ShaderType::Compute, None).feed_all(replies);
    assert!(c.finished());
    assert_eq!(c.finish().unwrap(), words);
}

#[test]
fn identical_runs_give_identical_words() {
    let defs = vec!["FOO=1".to_string()];
    let words = vec![SPIRV_MAGIC, 0x0001_0000, 11, 0, 4];
    let run = |words: &[u32]| {
        compile(MINIMAL_COMPUTE, ShaderType::Compute, Some(&defs))
            .feed_all(vec![ok(), ok(), ok(), module(words)])
            .finish()
            .unwrap()
    };
    let first = run(&words);
    let second = run(&words);
    assert_eq!(first, second);
}

#[test]
fn mismatched_replies_leave_the_state_unchanged() {
    let words = vec![SPIRV_MAGIC, 9];
    let mut c = compile(MINIMAL_COMPUTE, ShaderType::Compute, None);
    // A module cannot arrive while a phase outcome is awaited.
    c = c.feed(module(&words));
    assert!(!c.finished());
    // The pipeline still runs to completion from where it stood.
    c = c.feed_all(vec![ok(), ok(), ok(), module(&words)]);
    assert_eq!(c.finish().unwrap(), words);
}

#[test]
fn format_phase_error_names_each_phase() {
    assert_eq!(
        format_phase_error(&Phase::Preprocess, "i", "d"),
        "glslang_shader_preprocess:\nInfo log:\ni\nDebug log:\nd\n"
    );
    assert_eq!(
        format_phase_error(&Phase::Parse, "i", "d"),
        "glslang_shader_parse:\nInfo log:\ni\nDebug log:\nd\n"
    );
    assert_eq!(
        format_phase_error(&Phase::Link, "i", "d"),
        "glslang_program_link:\nInfo log:\ni\nDebug log:\nd\n"
    );
}
