//! The compilation pipeline state machine and its diagnostics.
//!
//! One shader runs through the engine's phases in a fixed order:
//! preprocess, then parse, then link, then SPIR-V generation. Each of the
//! first three phases can fail; generation cannot, it only hands back the
//! module's words. The caller performs one engine operation per awaited
//! phase and feeds the outcome back as an [`EngineReply`]; [`advance`]
//! decides the next state. A failure absorbs the pipeline: it records which
//! phase failed together with the engine's info log and debug log, and no
//! reply moves the machine out of a terminal state.

use vstd::prelude::*;
use vstd::string::*;

verus! {

/// The pipeline phase that can fail.
#[derive(Debug, Clone, Copy, PartialEq, Eq, Structural)]
pub enum Phase {
    Preprocess,
    Parse,
    Link,
}

/// The outcome of one engine operation, fed back into the pipeline.
#[derive(Debug)]
pub enum EngineReply {
    /// The awaited preprocess, parse or link phase succeeded.
    PhaseOk,
    /// The awaited phase failed; the engine's two logs, captured verbatim.
    PhaseFailed { info_log: String, debug_log: String },
    /// SPIR-V generation handed back the module's words.
    Module { words: Vec<u32> },
}

/// The state of one compilation pipeline run.
#[derive(Debug)]
pub enum PipelineState {
    /// Awaiting the outcome of the preprocess phase.
    AwaitingPreprocess,
    /// Awaiting the outcome of the parse phase.
    AwaitingParse,
    /// Awaiting the outcome of the link phase.
    AwaitingLink,
    /// Awaiting the generated SPIR-V module.
    AwaitingModule,
    /// The module was generated; the pipeline is finished.
    Done { words: Vec<u32> },
    /// A phase failed; the pipeline is finished. No transition leaves this
    /// state.
    Failed { phase: Phase, info_log: String, debug_log: String },
}

/// The phase whose outcome a state awaits, if any.
pub open spec fn awaited_phase(s: PipelineState) -> Option<Phase> {
    match s {
        PipelineState::AwaitingPreprocess => Option::Some(Phase::Preprocess),
        PipelineState::AwaitingParse => Option::Some(Phase::Parse),
        PipelineState::AwaitingLink => Option::Some(Phase::Link),
        _ => Option::None,
    }
}

/// A finished pipeline: the module was generated, or a phase failed.
pub open spec fn is_terminal(s: PipelineState) -> bool {
    match s {
        PipelineState::Done { .. } => true,
        PipelineState::Failed { .. } => true,
        _ => false,
    }
}

/// The successor state: a fitting reply moves the machine one phase forward
/// or into the absorbing failure state; any other reply leaves the state
/// unchanged.
pub open spec fn spec_advance(s: PipelineState, reply: EngineReply) -> PipelineState {
    match reply {
        EngineReply::PhaseOk => match s {
            PipelineState::AwaitingPreprocess => PipelineState::AwaitingParse,
            PipelineState::AwaitingParse => PipelineState::AwaitingLink,
            PipelineState::AwaitingLink => PipelineState::AwaitingModule,
            _ => s,
        },
        EngineReply::PhaseFailed { info_log, debug_log } => match awaited_phase(s) {
            Option::Some(phase) => PipelineState::Failed { phase, info_log, debug_log },
            Option::None => s,
        },
        EngineReply::Module { words } => match s {
            PipelineState::AwaitingModule => PipelineState::Done { words },
            _ => s,
        },
    }
}

/// One step of the pipeline: feeds the outcome of the engine operation the
/// state was awaiting, and returns the successor state.
pub fn advance(s: PipelineState, reply: EngineReply) -> (next: PipelineState)
    ensures
        next == spec_advance(s, reply),
{
    match reply {
        EngineReply::PhaseOk => match s {
            PipelineState::AwaitingPreprocess => PipelineState::AwaitingParse,
            PipelineState::AwaitingParse => PipelineState::AwaitingLink,
            PipelineState::AwaitingLink => PipelineState::AwaitingModule,
            other => other,
        },
        EngineReply::PhaseFailed { info_log, debug_log } => match s {
            PipelineState::AwaitingPreprocess => PipelineState::Failed {
                phase: Phase::Preprocess,
                info_log,
                debug_log,
            },
            PipelineState::AwaitingParse => PipelineState::Failed {
                phase: Phase::Parse,
                info_log,
                debug_log,
            },
            PipelineState::AwaitingLink => PipelineState::Failed {
                phase: Phase::Link,
                info_log,
                debug_log,
            },
            other => other,
        },
        EngineReply::Module { words } => match s {
            PipelineState::AwaitingModule => PipelineState::Done { words },
            other => other,
        },
    }
}

/// No transition leaves a terminal state.
pub proof fn lemma_terminal_is_absorbing(s: PipelineState, reply: EngineReply)
    ensures
        is_terminal(s) ==> spec_advance(s, reply) == s,
{
}

/// A fitting reply to an awaited phase either advances the pipeline or
/// records exactly that phase as the one that failed, with the reply's logs
/// verbatim.
pub proof fn lemma_failure_records_phase(s: PipelineState, info_log: String, debug_log: String)
    requires
        awaited_phase(s) is Some,
    ensures
        spec_advance(s, EngineReply::PhaseFailed { info_log, debug_log })
            == (PipelineState::Failed { phase: awaited_phase(s)->Some_0, info_log, debug_log }),
{
}

/// The engine operation name heading the diagnostic for each phase.
pub open spec fn phase_label(phase: Phase) -> Seq<char> {
    match phase {
        Phase::Preprocess => "glslang_shader_preprocess:\n"@,
        Phase::Parse => "glslang_shader_parse:\n"@,
        Phase::Link => "glslang_program_link:\n"@,
    }
}

/// The one formatted diagnostic a caller sees for a failed phase: the
/// engine operation's name, then the info log, then the debug log.
pub open spec fn phase_error_message(phase: Phase, info: Seq<char>, debug: Seq<char>) -> Seq<char> {
    phase_label(phase) + "Info log:\n"@ + info + "\n"@ + "Debug log:\n"@ + debug + "\n"@
}

/// Formats the diagnostic for a failed phase from the engine's two logs.
pub fn format_phase_error(phase: &Phase, info_log: &str, debug_log: &str) -> (out: String)
    ensures
        out@ == phase_error_message(*phase, info_log@, debug_log@),
{
    let mut out = match phase {
        Phase::Preprocess => String::from_str("glslang_shader_preprocess:\n"),
        Phase::Parse => String::from_str("glslang_shader_parse:\n"),
        Phase::Link => String::from_str("glslang_program_link:\n"),
    };
    out.append("Info log:\n");
    out.append(info_log);
    out.append("\n");
    out.append("Debug log:\n");
    out.append(debug_log);
    out.append("\n");
    out
}

} // verus!
