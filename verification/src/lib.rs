//! GLSL-to-SPIR-V compilation orchestration.
//!
//! This library prepares a single GLSL shader for compilation by an
//! external GLSL-to-SPIR-V engine and decides the outcome of the engine's
//! multi-phase pipeline (preprocess, parse, link, SPIR-V generation).
//! Everything the library computes is verified: macro-preamble injection
//! into the source, shader-stage classification, the fixed target
//! configuration and resource-limits table handed to every compile, and
//! the pipeline state machine with its diagnostic formatting.
//!
//! The engine itself is an unverified native component with process-global
//! state; this library never calls it. [`compile`] builds the engine's
//! request and the initial pipeline state; the caller runs one engine
//! operation per awaited phase, feeds each outcome back with
//! [`Compilation::feed`], and takes the module or the diagnostic from
//! [`Compilation::finish`]. The caller owes the engine its global
//! initialize/finalize bracket around every run, and must serialize
//! compilations: concurrent runs race on the engine's process-global state,
//! which is undefined behavior, not merely a logical error.

use vstd::prelude::*;

mod limits;
mod pipeline;
mod preamble;
mod request;
mod stage;

pub use limits::default_resource_limits;
pub use limits::spec_default_limits;
pub use limits::CapabilityLimits;
pub use limits::ResourceLimits;
pub use pipeline::advance;
pub use pipeline::awaited_phase;
pub use pipeline::format_phase_error;
pub use pipeline::is_terminal;
pub use pipeline::lemma_failure_records_phase;
pub use pipeline::lemma_terminal_is_absorbing;
pub use pipeline::phase_error_message;
pub use pipeline::phase_label;
pub use pipeline::spec_advance;
pub use pipeline::EngineReply;
pub use pipeline::Phase;
pub use pipeline::PipelineState;
pub use preamble::build_preamble;
pub use preamble::defs_view;
pub use preamble::find_char_from;
pub use preamble::find_seq_from;
pub use preamble::first_line;
pub use preamble::is_match_at;
pub use preamble::lemma_bare_name_renders_plain;
pub use preamble::lemma_empty_defs_unchanged;
pub use preamble::lemma_find_char_from_props;
pub use preamble::lemma_find_seq_from_props;
pub use preamble::lemma_no_version_no_splice;
pub use preamble::lemma_render_injective_on_names;
pub use preamble::preamble_of;
pub use preamble::prepare_source;
pub use preamble::prepared_source;
pub use preamble::render_define;
pub use preamble::rendered_define;
pub use preamble::replace_first_eq;
pub use preamble::splice_after_version;
pub use preamble::spliced_source;
pub use request::build_request;
pub use request::default_target_config;
pub use request::spec_default_config;
pub use request::CompileRequest;
pub use request::TargetConfig;
pub use stage::lemma_stage_of_injective;
pub use stage::spec_stage_of;
pub use stage::stage_of;
pub use stage::ShaderType;

verus! {

/// A SPIR-V module: an ordered sequence of 32-bit words.
pub type SpirvOutput = Vec<u32>;

/// One in-flight shader compilation: the request the engine is to compile,
/// and the pipeline's current state.
#[derive(Debug)]
pub struct Compilation {
    /// What the engine is asked to compile.
    pub request: CompileRequest,
    /// Where the pipeline stands.
    pub state: PipelineState,
}

/// The state a pipeline reaches after consuming a sequence of engine
/// replies in order.
pub open spec fn spec_run(s: PipelineState, replies: Seq<EngineReply>) -> PipelineState
    decreases replies.len(),
{
    if replies.len() == 0 {
        s
    } else {
        spec_run(spec_advance(s, replies.first()), replies.drop_first())
    }
}

/// The pipeline is one-shot: no sequence of replies moves it out of a
/// terminal state.
pub proof fn lemma_run_absorbs_terminal(s: PipelineState, replies: Seq<EngineReply>)
    requires
        is_terminal(s),
    ensures
        spec_run(s, replies) == s,
    decreases replies.len(),
{
    if replies.len() > 0 {
        lemma_terminal_is_absorbing(s, replies.first());
        lemma_run_absorbs_terminal(s, replies.drop_first());
    }
}

/// A run in which preprocess, parse and link all succeed and generation
/// hands back a module ends with exactly that module's words: never a
/// partial or altered module.
pub proof fn lemma_all_phases_ok_yields_module(words: Vec<u32>)
    ensures
        spec_run(
            PipelineState::AwaitingPreprocess,
            seq![
                EngineReply::PhaseOk,
                EngineReply::PhaseOk,
                EngineReply::PhaseOk,
                EngineReply::Module { words },
            ],
        ) == (PipelineState::Done { words }),
{
    reveal_with_fuel(spec_run, 6);
    let trace = seq![
        EngineReply::PhaseOk,
        EngineReply::PhaseOk,
        EngineReply::PhaseOk,
        EngineReply::Module { words },
    ];
    assert(trace.drop_first() =~= seq![
        EngineReply::PhaseOk,
        EngineReply::PhaseOk,
        EngineReply::Module { words },
    ]);
    assert(trace.drop_first().drop_first() =~= seq![
        EngineReply::PhaseOk,
        EngineReply::Module { words },
    ]);
    assert(trace.drop_first().drop_first().drop_first() =~= seq![
        EngineReply::Module { words },
    ]);
    assert(trace.drop_first().drop_first().drop_first().drop_first() =~= Seq::<
        EngineReply,
    >::empty());
}

/// A failing phase ends the run with exactly that phase's diagnostic --
/// the first failure, not an earlier or later phase's -- whatever replies
/// follow it.
pub proof fn lemma_failure_short_circuits(
    oks: nat,
    info_log: String,
    debug_log: String,
    rest: Seq<EngineReply>,
)
    requires
        oks <= 2,
    ensures
        ({
            let trace = Seq::new(oks, |i: int| EngineReply::PhaseOk) + seq![
                EngineReply::PhaseFailed { info_log, debug_log },
            ] + rest;
            let phase = if oks == 0 {
                Phase::Preprocess
            } else if oks == 1 {
                Phase::Parse
            } else {
                Phase::Link
            };
            spec_run(PipelineState::AwaitingPreprocess, trace) == (PipelineState::Failed {
                phase,
                info_log,
                debug_log,
            })
        }),
{
    reveal_with_fuel(spec_run, 6);
    let failure = EngineReply::PhaseFailed { info_log, debug_log };
    let trace = Seq::new(oks, |i: int| EngineReply::PhaseOk) + seq![failure] + rest;
    if oks == 0 {
        assert(trace.first() == failure);
        assert(trace.drop_first() =~= rest);
        lemma_run_absorbs_terminal(
            PipelineState::Failed { phase: Phase::Preprocess, info_log, debug_log },
            rest,
        );
    } else if oks == 1 {
        assert(trace.first() == EngineReply::PhaseOk);
        assert(trace.drop_first() =~= seq![failure] + rest);
        assert((seq![failure] + rest).first() == failure);
        assert((seq![failure] + rest).drop_first() =~= rest);
        lemma_run_absorbs_terminal(
            PipelineState::Failed { phase: Phase::Parse, info_log, debug_log },
            rest,
        );
    } else {
        assert(trace.first() == EngineReply::PhaseOk);
        assert(trace.drop_first() =~= seq![EngineReply::PhaseOk] + seq![failure] + rest);
        assert((seq![EngineReply::PhaseOk] + seq![failure] + rest).first()
            == EngineReply::PhaseOk);
        assert((seq![EngineReply::PhaseOk] + seq![failure] + rest).drop_first() =~= seq![failure]
            + rest);
        assert((seq![failure] + rest).first() == failure);
        assert((seq![failure] + rest).drop_first() =~= rest);
        lemma_run_absorbs_terminal(
            PipelineState::Failed { phase: Phase::Link, info_log, debug_log },
            rest,
        );
    }
}

/// No partial or truncated module is ever produced: a run that ends with a
/// module's words got exactly those words from one of the engine's replies.
pub proof fn lemma_done_words_come_from_the_engine(
    s: PipelineState,
    replies: Seq<EngineReply>,
    words: Vec<u32>,
)
    requires
        spec_run(s, replies) == (PipelineState::Done { words }),
        s != (PipelineState::Done { words }),
    ensures
        exists|j: int|
            0 <= j < replies.len() && replies[j] == (EngineReply::Module { words }),
    decreases replies.len(),
{
    let next = spec_advance(s, replies.first());
    if next == (PipelineState::Done { words }) {
        assert(replies[0] == (EngineReply::Module { words }));
    } else {
        lemma_done_words_come_from_the_engine(next, replies.drop_first(), words);
        let j = choose|j: int|
            0 <= j < replies.drop_first().len() && replies.drop_first()[j] == (
            EngineReply::Module { words });
        assert(replies[j + 1] == (EngineReply::Module { words }));
    }
}

/// A failure diagnostic carries the engine's logs verbatim: a run that ends
/// failed got exactly those two logs from one of the engine's replies.
pub proof fn lemma_failure_logs_come_from_the_engine(
    s: PipelineState,
    replies: Seq<EngineReply>,
    phase: Phase,
    info_log: String,
    debug_log: String,
)
    requires
        spec_run(s, replies) == (PipelineState::Failed { phase, info_log, debug_log }),
        s != (PipelineState::Failed { phase, info_log, debug_log }),
    ensures
        exists|j: int|
            0 <= j < replies.len() && replies[j] == (EngineReply::PhaseFailed {
                info_log,
                debug_log,
            }),
    decreases replies.len(),
{
    let next = spec_advance(s, replies.first());
    if next == (PipelineState::Failed { phase, info_log, debug_log }) {
        assert(replies[0] == (EngineReply::PhaseFailed { info_log, debug_log }));
    } else {
        lemma_failure_logs_come_from_the_engine(
            next,
            replies.drop_first(),
            phase,
            info_log,
            debug_log,
        );
        let j = choose|j: int|
            0 <= j < replies.drop_first().len() && replies.drop_first()[j] == (
            EngineReply::PhaseFailed { info_log, debug_log });
        assert(replies[j + 1] == (EngineReply::PhaseFailed { info_log, debug_log }));
    }
}

/// Begins compiling one shader: builds the engine's compile-input record
/// (the macro preamble spliced into `code`, the resolved stage, the fixed
/// target configuration and resource limits) and a pipeline awaiting the
/// preprocess outcome.
///
/// The caller owes the engine's global initialize/finalize bracket around
/// the run, and must serialize compilations: the engine's state is
/// process-global, and unserialized concurrent runs are undefined behavior.
pub fn compile(code: &str, ty: ShaderType, shader_defs: Option<&[String]>) -> (c: Compilation)
    ensures
        c.request.source@ == prepared_source(code@, defs_view(shader_defs)),
        c.request.stage == spec_stage_of(ty),
        c.request.config == spec_default_config(),
        c.request.limits == spec_default_limits(),
        c.state == PipelineState::AwaitingPreprocess,
{
    Compilation { request: build_request(code, &ty, shader_defs), state: PipelineState::AwaitingPreprocess }
}

/// The sequence-shaped pipeline entry: an ordered sequence of (source,
/// stage) shaders to compile and link into one program. The engine behind
/// this library compiles one stage at a time, so the sequence must hold
/// exactly one shader for now -- an intentional limitation of the current
/// contract, not of the interface's shape.
pub fn compile_sequence(shaders: &[(String, ShaderType)], shader_defs: Option<&[String]>) -> (c:
    Compilation)
    requires
        shaders@.len() == 1,
    ensures
        c.request.source@ == prepared_source(shaders@[0].0@, defs_view(shader_defs)),
        c.request.stage == spec_stage_of(shaders@[0].1),
        c.request.config == spec_default_config(),
        c.request.limits == spec_default_limits(),
        c.state == PipelineState::AwaitingPreprocess,
{
    let shader = &shaders[0];
    Compilation {
        request: build_request(shader.0.as_str(), &shader.1, shader_defs),
        state: PipelineState::AwaitingPreprocess,
    }
}

impl Compilation {
    /// Feeds the outcome of the engine operation the pipeline was awaiting,
    /// moving it one phase forward or into the absorbing failure state.
    pub fn feed(self, reply: EngineReply) -> (next: Compilation)
        ensures
            next.request == self.request,
            next.state == spec_advance(self.state, reply),
    {
        Compilation { request: self.request, state: advance(self.state, reply) }
    }

    /// Feeds a whole sequence of engine replies, in order.
    pub fn feed_all(self, replies: Vec<EngineReply>) -> (next: Compilation)
        ensures
            next.request == self.request,
            next.state == spec_run(self.state, replies@),
    {
        let ghost initial = self;
        let ghost all = replies@;
        let mut c = self;
        let mut rest = replies;
        while rest.len() > 0
            invariant
                c.request == initial.request,
                spec_run(c.state, rest@) == spec_run(initial.state, all),
            decreases rest.len(),
        {
            let ghost before = rest@;
            let reply = rest.remove(0);
            proof {
                assert(before.remove(0) =~= before.drop_first());
            }
            c = c.feed(reply);
        }
        c
    }

    /// Whether the pipeline is finished: the module was generated or a
    /// phase failed.
    pub fn finished(&self) -> (b: bool)
        ensures
            b == is_terminal(self.state),
    {
        match &self.state {
            PipelineState::Done { .. } => true,
            PipelineState::Failed { .. } => true,
            _ => false,
        }
    }

    /// The outcome of a finished pipeline: the SPIR-V module's words on
    /// success, or one formatted diagnostic naming the failed phase and
    /// carrying the engine's info and debug logs.
    pub fn finish(self) -> (result: Result<SpirvOutput, String>)
        requires
            is_terminal(self.state),
        ensures
            match result {
                Ok(words) => self.state == (PipelineState::Done { words }),
                Err(message) => match self.state {
                    PipelineState::Failed { phase, info_log, debug_log } => message@
                        == phase_error_message(phase, info_log@, debug_log@),
                    _ => false,
                },
            },
    {
        match self.state {
            PipelineState::Done { words } => Ok(words),
            PipelineState::Failed { phase, info_log, debug_log } => Err(
                format_phase_error(&phase, info_log.as_str(), debug_log.as_str()),
            ),
            _ => {
                proof {
                    assert(false);
                }
                Err(String::new())
            },
        }
    }
}

} // verus!
