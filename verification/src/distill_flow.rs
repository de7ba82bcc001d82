//! Carrying out a distillation, step by step.
//!
//! A caller performs the action of a step and comes back with an event.

use vstd::prelude::*;

use crate::cli::DistillArgs;
use crate::cli::DistillArgsView;
use crate::cli::DistillMode;
use crate::distill;
use crate::distill::DistillAnalysis;
use crate::distill::DistillAnalysisView;
use crate::distill::DistillCompressionPolicy;
use crate::distill::DistillError;
use crate::distill::DistillErrorView;
use crate::distill::DistillOutput;
use crate::distill::DistillOutputView;
use crate::distill::DistillReport;
use crate::distill::DistillReportOptions;
use crate::distill::DistillReportOptionsView;
use crate::distill::DistillReportView;
use crate::distill::ReasoningEffort;
use crate::distill::analyze_rollout;
use crate::distill::build_distilled_brief;
use crate::distill::build_report;
use crate::distill::codex_distillation_prompt;
use crate::distill::collect_pinned_facts;
use crate::distill::default_distilled_thread_name;
use crate::distill::distill_error_message;
use crate::distill::handoff_seed_prompt;
use crate::distill::parse_reasoning_effort;
use crate::numbers;
use crate::numbers::approx_token_count;
use crate::preview::PromptPreviewSnapshot;
use crate::preview::PromptPreviewSnapshotView;
use crate::progress::DistillProgressEvent;
use crate::progress::DistillProgressEventView;
use crate::rollout::RolloutLine;
use crate::rollout::RolloutLineView;
use crate::runtime;
use crate::runtime::render_profiled_resume_command;
use crate::search;
use crate::text;
use crate::text::cat2;
use crate::text::clone_opt;
use crate::text::or_opt;
use crate::types::RuntimeConfig;
use crate::types::RuntimeConfigView;
use crate::types::SessionSummary;
use crate::types::SessionSummaryView;

verus! {

// ------------------------------------------------------------------------ preparation

/// What has been prepared.
#[derive(Debug, PartialEq, Eq)]
pub enum DistillPrepareEvent {
    Started,
    TargetResolved,
    SummaryLoaded,
    HistoryRebuilt,
    LinesRead { history_items: usize, raw_lines: usize },
    /// The next prompt was previewed, and the proposed name normalised.
    PreviewBuilt { normalized_name: Option<String> },
}

/// What a [`DistillPrepareEvent`] stands for.
pub enum DistillPrepareEventView {
    Started,
    TargetResolved,
    SummaryLoaded,
    HistoryRebuilt,
    LinesRead { history_items: usize, raw_lines: usize },
    PreviewBuilt { normalized_name: Option<Seq<char>> },
}

impl View for DistillPrepareEvent {
    type V = DistillPrepareEventView;

    open spec fn view(&self) -> DistillPrepareEventView {
        match *self {
            DistillPrepareEvent::Started => DistillPrepareEventView::Started,
            DistillPrepareEvent::TargetResolved => DistillPrepareEventView::TargetResolved,
            DistillPrepareEvent::SummaryLoaded => DistillPrepareEventView::SummaryLoaded,
            DistillPrepareEvent::HistoryRebuilt => DistillPrepareEventView::HistoryRebuilt,
            DistillPrepareEvent::LinesRead { history_items, raw_lines } => {
                DistillPrepareEventView::LinesRead { history_items, raw_lines }
            },
            DistillPrepareEvent::PreviewBuilt { normalized_name } => {
                DistillPrepareEventView::PreviewBuilt {
                    normalized_name: text::opt_text(normalized_name),
                }
            },
        }
    }
}

impl DeepView for DistillPrepareEvent {
    type V = DistillPrepareEventView;

    open spec fn deep_view(&self) -> DistillPrepareEventView {
        self@
    }
}

impl Clone for DistillPrepareEvent {
    fn clone(&self) -> (out: Self)
        ensures
            out@ == self@,
    {
        match self {
            DistillPrepareEvent::Started => DistillPrepareEvent::Started,
            DistillPrepareEvent::TargetResolved => DistillPrepareEvent::TargetResolved,
            DistillPrepareEvent::SummaryLoaded => DistillPrepareEvent::SummaryLoaded,
            DistillPrepareEvent::HistoryRebuilt => DistillPrepareEvent::HistoryRebuilt,
            DistillPrepareEvent::LinesRead { history_items, raw_lines } => {
                DistillPrepareEvent::LinesRead {
                    history_items: *history_items,
                    raw_lines: *raw_lines,
                }
            },
            DistillPrepareEvent::PreviewBuilt { normalized_name } => {
                DistillPrepareEvent::PreviewBuilt { normalized_name: clone_opt(normalized_name) }
            },
        }
    }
}

/// What is to be prepared.
#[derive(Debug, PartialEq, Eq)]
pub enum DistillPrepareAction {
    ResolveTarget,
    LoadSummary,
    RebuildHistory,
    ReadLines,
    BuildPreview,
    LoadRuntime { successor_name: String },
    Fail { error: DistillError },
}

/// What a [`DistillPrepareAction`] stands for.
pub enum DistillPrepareActionView {
    ResolveTarget,
    LoadSummary,
    RebuildHistory,
    ReadLines,
    BuildPreview,
    LoadRuntime { successor_name: Seq<char> },
    Fail { error: DistillErrorView },
}

impl View for DistillPrepareAction {
    type V = DistillPrepareActionView;

    open spec fn view(&self) -> DistillPrepareActionView {
        match *self {
            DistillPrepareAction::ResolveTarget => DistillPrepareActionView::ResolveTarget,
            DistillPrepareAction::LoadSummary => DistillPrepareActionView::LoadSummary,
            DistillPrepareAction::RebuildHistory => DistillPrepareActionView::RebuildHistory,
            DistillPrepareAction::ReadLines => DistillPrepareActionView::ReadLines,
            DistillPrepareAction::BuildPreview => DistillPrepareActionView::BuildPreview,
            DistillPrepareAction::LoadRuntime { successor_name } => {
                DistillPrepareActionView::LoadRuntime { successor_name: successor_name@ }
            },
            DistillPrepareAction::Fail { error } => DistillPrepareActionView::Fail {
                error: error@,
            },
        }
    }
}

impl DeepView for DistillPrepareAction {
    type V = DistillPrepareActionView;

    open spec fn deep_view(&self) -> DistillPrepareActionView {
        self@
    }
}

impl Clone for DistillPrepareAction {
    fn clone(&self) -> (out: Self)
        ensures
            out@ == self@,
    {
        match self {
            DistillPrepareAction::ResolveTarget => DistillPrepareAction::ResolveTarget,
            DistillPrepareAction::LoadSummary => DistillPrepareAction::LoadSummary,
            DistillPrepareAction::RebuildHistory => DistillPrepareAction::RebuildHistory,
            DistillPrepareAction::ReadLines => DistillPrepareAction::ReadLines,
            DistillPrepareAction::BuildPreview => DistillPrepareAction::BuildPreview,
            DistillPrepareAction::LoadRuntime { successor_name } => {
                DistillPrepareAction::LoadRuntime { successor_name: successor_name.clone() }
            },
            DistillPrepareAction::Fail { error } => DistillPrepareAction::Fail {
                error: error.clone(),
            },
        }
    }
}

/// One step of the preparation. The progress is to be reported before the
/// action is performed.
#[derive(Debug, PartialEq, Eq)]
pub struct DistillPrepareStep {
    pub progress: Vec<DistillProgressEvent>,
    pub action: DistillPrepareAction,
}

/// What a [`DistillPrepareStep`] stands for.
pub struct DistillPrepareStepView {
    pub progress: Seq<DistillProgressEventView>,
    pub action: DistillPrepareActionView,
}

impl View for DistillPrepareStep {
    type V = DistillPrepareStepView;

    open spec fn view(&self) -> DistillPrepareStepView {
        DistillPrepareStepView {
            progress: self.progress.deep_view(),
            action: self.action@,
        }
    }
}

impl DeepView for DistillPrepareStep {
    type V = DistillPrepareStepView;

    open spec fn deep_view(&self) -> DistillPrepareStepView {
        self@
    }
}

impl Clone for DistillPrepareStep {
    fn clone(&self) -> (out: Self)
        ensures
            out@ == self@,
    {
        let out = DistillPrepareStep {
            progress: self.progress.clone(),
            action: self.action.clone(),
        };
        assert(out.progress.deep_view() =~= self.progress.deep_view());
        out
    }
}

pub open spec fn prepare_step(
    event: DistillProgressEventView,
    action: DistillPrepareActionView,
) -> DistillPrepareStepView {
    DistillPrepareStepView { progress: seq![event], action }
}

/// The step of the preparation after an event.
pub open spec fn prepare_next(
    args: DistillArgsView,
    event: DistillPrepareEventView,
) -> DistillPrepareStepView {
    match event {
        DistillPrepareEventView::Started => if args.recent_turns == 0 {
            DistillPrepareStepView {
                progress: Seq::empty(),
                action: DistillPrepareActionView::Fail { error: DistillErrorView::NoRecentTurns },
            }
        } else {
            prepare_step(
                DistillProgressEventView::ResolvingTarget,
                DistillPrepareActionView::ResolveTarget,
            )
        },
        DistillPrepareEventView::TargetResolved => prepare_step(
            DistillProgressEventView::LoadingSessionSummary,
            DistillPrepareActionView::LoadSummary,
        ),
        DistillPrepareEventView::SummaryLoaded => prepare_step(
            DistillProgressEventView::RebuildingHistory,
            DistillPrepareActionView::RebuildHistory,
        ),
        DistillPrepareEventView::HistoryRebuilt => prepare_step(
            DistillProgressEventView::ReadingRolloutLines,
            DistillPrepareActionView::ReadLines,
        ),
        DistillPrepareEventView::LinesRead { history_items, raw_lines } => prepare_step(
            DistillProgressEventView::AnalyzingHistory { history_items, raw_lines },
            DistillPrepareActionView::BuildPreview,
        ),
        DistillPrepareEventView::PreviewBuilt { normalized_name } => match normalized_name {
            Some(name) => prepare_step(
                DistillProgressEventView::ResolvingRuntimeConfig,
                DistillPrepareActionView::LoadRuntime { successor_name: name },
            ),
            None => DistillPrepareStepView {
                progress: Seq::empty(),
                action: DistillPrepareActionView::Fail {
                    error: if args.thread_name is Some {
                        DistillErrorView::EmptyThreadName
                    } else {
                        DistillErrorView::NoThreadName
                    },
                },
            },
        },
    }
}

fn no_progress() -> (out: Vec<DistillProgressEvent>)
    ensures
        out.deep_view() == Seq::<DistillProgressEventView>::empty(),
{
    let out: Vec<DistillProgressEvent> = Vec::new();
    assert(out.deep_view() =~= Seq::<DistillProgressEventView>::empty());
    out
}

fn report(progress: &mut Vec<DistillProgressEvent>, event: DistillProgressEvent)
    ensures
        final(progress).deep_view() == old(progress).deep_view().push(event@),
{
    let ghost added = event@;
    progress.push(event);
    assert(progress.deep_view() =~= old(progress).deep_view().push(added));
}

fn one_report(event: DistillProgressEvent) -> (out: Vec<DistillProgressEvent>)
    ensures
        out.deep_view() == seq![event@],
{
    let ghost added = event@;
    let mut out = no_progress();
    report(&mut out, event);
    assert(out.deep_view() =~= seq![added]);
    out
}

/// The step of the preparation of a distillation after an event.
pub fn prepare_distillation(args: &DistillArgs, event: &DistillPrepareEvent) -> (out:
    DistillPrepareStep)
    ensures
        out@ == prepare_next(args@, event@),
{
    match event {
        DistillPrepareEvent::Started => if args.recent_turns == 0 {
            DistillPrepareStep {
                progress: no_progress(),
                action: DistillPrepareAction::Fail { error: DistillError::NoRecentTurns },
            }
        } else {
            DistillPrepareStep {
                progress: one_report(DistillProgressEvent::ResolvingTarget),
                action: DistillPrepareAction::ResolveTarget,
            }
        },
        DistillPrepareEvent::TargetResolved => DistillPrepareStep {
            progress: one_report(DistillProgressEvent::LoadingSessionSummary),
            action: DistillPrepareAction::LoadSummary,
        },
        DistillPrepareEvent::SummaryLoaded => DistillPrepareStep {
            progress: one_report(DistillProgressEvent::RebuildingHistory),
            action: DistillPrepareAction::RebuildHistory,
        },
        DistillPrepareEvent::HistoryRebuilt => DistillPrepareStep {
            progress: one_report(DistillProgressEvent::ReadingRolloutLines),
            action: DistillPrepareAction::ReadLines,
        },
        DistillPrepareEvent::LinesRead { history_items, raw_lines } => DistillPrepareStep {
            progress: one_report(
                DistillProgressEvent::AnalyzingHistory {
                    history_items: *history_items,
                    raw_lines: *raw_lines,
                },
            ),
            action: DistillPrepareAction::BuildPreview,
        },
        DistillPrepareEvent::PreviewBuilt { normalized_name } => {
            match default_distilled_thread_name(&args.thread_name, clone_opt(normalized_name)) {
                Ok(successor_name) => DistillPrepareStep {
                    progress: one_report(DistillProgressEvent::ResolvingRuntimeConfig),
                    action: DistillPrepareAction::LoadRuntime { successor_name },
                },
                Err(error) => DistillPrepareStep {
                    progress: no_progress(),
                    action: DistillPrepareAction::Fail { error },
                },
            }
        },
    }
}

// --------------------------------------------------------------------------- the run

/// How far a distillation has come.
#[derive(Debug, PartialEq, Eq)]
pub struct DistillRun {
    pub args: DistillArgs,
    pub summary: SessionSummary,
    pub runtime: RuntimeConfig,
    pub analysis: DistillAnalysis,
    pub successor_name: String,
    /// The brief that was made by rule.
    pub deterministic_brief: String,
    /// The brief that the successor gets.
    pub brief: String,
    /// How that brief was made.
    pub mode: DistillMode,
    pub note: Option<String>,
    pub successor_thread_id: String,
    pub successor_rollout_path: String,
}

/// What a [`DistillRun`] stands for.
pub struct DistillRunView {
    pub args: DistillArgsView,
    pub summary: SessionSummaryView,
    pub runtime: RuntimeConfigView,
    pub analysis: DistillAnalysisView,
    pub successor_name: Seq<char>,
    pub deterministic_brief: Seq<char>,
    pub brief: Seq<char>,
    pub mode: DistillMode,
    pub note: Option<Seq<char>>,
    pub successor_thread_id: Seq<char>,
    pub successor_rollout_path: Seq<char>,
}

impl View for DistillRun {
    type V = DistillRunView;

    open spec fn view(&self) -> DistillRunView {
        DistillRunView {
            args: self.args@,
            summary: self.summary@,
            runtime: self.runtime@,
            analysis: self.analysis@,
            successor_name: self.successor_name@,
            deterministic_brief: self.deterministic_brief@,
            brief: self.brief@,
            mode: self.mode,
            note: text::opt_text(self.note),
            successor_thread_id: self.successor_thread_id@,
            successor_rollout_path: self.successor_rollout_path@,
        }
    }
}

impl DeepView for DistillRun {
    type V = DistillRunView;

    open spec fn deep_view(&self) -> DistillRunView {
        self@
    }
}

impl Clone for DistillRun {
    fn clone(&self) -> (out: Self)
        ensures
            out@ == self@,
    {
        DistillRun {
            args: self.args.clone(),
            summary: self.summary.clone(),
            runtime: self.runtime.clone(),
            analysis: self.analysis.clone(),
            successor_name: self.successor_name.clone(),
            deterministic_brief: self.deterministic_brief.clone(),
            brief: self.brief.clone(),
            mode: self.mode,
            note: clone_opt(&self.note),
            successor_thread_id: self.successor_thread_id.clone(),
            successor_rollout_path: self.successor_rollout_path.clone(),
        }
    }
}

/// The analysis of a session with its facts pinned.
pub open spec fn full_analysis(
    args: DistillArgsView,
    summary: SessionSummaryView,
    preview: PromptPreviewSnapshotView,
    records: Seq<RolloutLineView>,
    runtime: RuntimeConfigView,
) -> DistillAnalysisView {
    let policy = distill::policy_of(args.compression_level);
    let analysis = distill::analysis_of(
        preview.reconstructed_history,
        records,
        preview,
        args.recent_turns,
        policy,
    );
    DistillAnalysisView {
        pinned_facts: distill::pinned_facts_text(summary, analysis, preview, runtime, policy),
        ..analysis
    }
}

/// A run at its beginning, with the brief made by rule.
pub open spec fn run_of(
    args: DistillArgsView,
    summary: SessionSummaryView,
    preview: PromptPreviewSnapshotView,
    records: Seq<RolloutLineView>,
    runtime: RuntimeConfigView,
    successor_name: Seq<char>,
) -> DistillRunView {
    let analysis = full_analysis(args, summary, preview, records, runtime);
    let brief = distill::brief_text(summary, analysis, distill::policy_of(args.compression_level));
    DistillRunView {
        args,
        summary,
        runtime,
        analysis,
        successor_name,
        deterministic_brief: brief,
        brief,
        mode: args.distill_mode,
        note: None,
        successor_thread_id: ""@,
        successor_rollout_path: ""@,
    }
}

impl DistillRun {
    /// A run at its beginning: the session is analysed and its brief made by
    /// rule.
    pub fn new(
        args: &DistillArgs,
        summary: &SessionSummary,
        prompt_preview: &PromptPreviewSnapshot,
        raw_rollout_lines: &Vec<RolloutLine>,
        runtime: &RuntimeConfig,
        successor_name: &str,
    ) -> (out: Self)
        ensures
            out@ == run_of(
                args@,
                summary@,
                prompt_preview@,
                raw_rollout_lines.deep_view(),
                runtime@,
                successor_name@,
            ),
    {
        let policy = DistillCompressionPolicy::for_level(args.compression_level);
        let mut analysis = analyze_rollout(
            &prompt_preview.reconstructed_history,
            raw_rollout_lines,
            prompt_preview,
            args.recent_turns,
            policy,
        );
        analysis.pinned_facts = collect_pinned_facts(
            summary,
            &analysis,
            prompt_preview,
            runtime,
            policy,
        );
        let brief = build_distilled_brief(summary, &analysis, policy);
        DistillRun {
            args: args.clone(),
            summary: summary.clone(),
            runtime: runtime.clone(),
            analysis,
            successor_name: successor_name.to_owned(),
            deterministic_brief: brief.clone(),
            brief,
            mode: args.distill_mode,
            note: None,
            successor_thread_id: "".to_owned(),
            successor_rollout_path: "".to_owned(),
        }
    }
}

/// What has happened.
#[derive(Debug, PartialEq, Eq)]
pub enum DistillEvent {
    /// The run begins.
    Composed,
    EphemeralThreadStarted,
    RewriteSubmitted,
    /// The turn that rewrites the brief is over, and its thread shut down.
    RewriteFinished {
        last_message: Option<String>,
        turn_failure: Option<String>,
        thread_failure: Option<String>,
    },
    /// Rewriting failed before its turn ran.
    RewriteFailed { error: String },
    ProfileWritten,
    ThreadStarted { thread_id: String, rollout_path: String },
    ThreadNamed,
    /// The seed turn is over, and the thread of the successor shut down.
    SeedFinished { seed_failure: Option<String>, shutdown_failure: Option<String> },
    SourceArchived,
    /// Generated profiles were cleaned up; `resume` is the command that the
    /// runtime gives to resume the successor.
    ProfilesCleaned { resume: Option<String> },
}

/// What a [`DistillEvent`] stands for.
pub enum DistillEventView {
    Composed,
    EphemeralThreadStarted,
    RewriteSubmitted,
    RewriteFinished {
        last_message: Option<Seq<char>>,
        turn_failure: Option<Seq<char>>,
        thread_failure: Option<Seq<char>>,
    },
    RewriteFailed { error: Seq<char> },
    ProfileWritten,
    ThreadStarted { thread_id: Seq<char>, rollout_path: Seq<char> },
    ThreadNamed,
    SeedFinished { seed_failure: Option<Seq<char>>, shutdown_failure: Option<Seq<char>> },
    SourceArchived,
    ProfilesCleaned { resume: Option<Seq<char>> },
}

impl View for DistillEvent {
    type V = DistillEventView;

    open spec fn view(&self) -> DistillEventView {
        match *self {
            DistillEvent::Composed => DistillEventView::Composed,
            DistillEvent::EphemeralThreadStarted => DistillEventView::EphemeralThreadStarted,
            DistillEvent::RewriteSubmitted => DistillEventView::RewriteSubmitted,
            DistillEvent::RewriteFinished { last_message, turn_failure, thread_failure } => {
                DistillEventView::RewriteFinished {
                    last_message: text::opt_text(last_message),
                    turn_failure: text::opt_text(turn_failure),
                    thread_failure: text::opt_text(thread_failure),
                }
            },
            DistillEvent::RewriteFailed { error } => DistillEventView::RewriteFailed {
                error: error@,
            },
            DistillEvent::ProfileWritten => DistillEventView::ProfileWritten,
            DistillEvent::ThreadStarted { thread_id, rollout_path } => {
                DistillEventView::ThreadStarted {
                    thread_id: thread_id@,
                    rollout_path: rollout_path@,
                }
            },
            DistillEvent::ThreadNamed => DistillEventView::ThreadNamed,
            DistillEvent::SeedFinished { seed_failure, shutdown_failure } => {
                DistillEventView::SeedFinished {
                    seed_failure: text::opt_text(seed_failure),
                    shutdown_failure: text::opt_text(shutdown_failure),
                }
            },
            DistillEvent::SourceArchived => DistillEventView::SourceArchived,
            DistillEvent::ProfilesCleaned { resume } => DistillEventView::ProfilesCleaned {
                resume: text::opt_text(resume),
            },
        }
    }
}

impl DeepView for DistillEvent {
    type V = DistillEventView;

    open spec fn deep_view(&self) -> DistillEventView {
        self@
    }
}

impl Clone for DistillEvent {
    fn clone(&self) -> (out: Self)
        ensures
            out@ == self@,
    {
        match self {
            DistillEvent::Composed => DistillEvent::Composed,
            DistillEvent::EphemeralThreadStarted => DistillEvent::EphemeralThreadStarted,
            DistillEvent::RewriteSubmitted => DistillEvent::RewriteSubmitted,
            DistillEvent::RewriteFinished { last_message, turn_failure, thread_failure } => {
                DistillEvent::RewriteFinished {
                    last_message: clone_opt(last_message),
                    turn_failure: clone_opt(turn_failure),
                    thread_failure: clone_opt(thread_failure),
                }
            },
            DistillEvent::RewriteFailed { error } => DistillEvent::RewriteFailed {
                error: error.clone(),
            },
            DistillEvent::ProfileWritten => DistillEvent::ProfileWritten,
            DistillEvent::ThreadStarted { thread_id, rollout_path } => DistillEvent::ThreadStarted {
                thread_id: thread_id.clone(),
                rollout_path: rollout_path.clone(),
            },
            DistillEvent::ThreadNamed => DistillEvent::ThreadNamed,
            DistillEvent::SeedFinished { seed_failure, shutdown_failure } => {
                DistillEvent::SeedFinished {
                    seed_failure: clone_opt(seed_failure),
                    shutdown_failure: clone_opt(shutdown_failure),
                }
            },
            DistillEvent::SourceArchived => DistillEvent::SourceArchived,
            DistillEvent::ProfilesCleaned { resume } => DistillEvent::ProfilesCleaned {
                resume: clone_opt(resume),
            },
        }
    }
}

/// What is to be done.
#[derive(Debug, PartialEq, Eq)]
pub enum DistillAction {
    StartEphemeralThread,
    SubmitRewrite {
        rewrite_prompt: String,
        rewrite_model: String,
        effort: Option<ReasoningEffort>,
    },
    AwaitRewrite,
    WriteProfile { profile: String },
    StartSuccessor,
    NameSuccessor { thread_id: String, name: String },
    SeedSuccessor { seed_prompt: String, seed_model: String, cwd: String },
    ArchiveSource,
    /// Clean up generated profiles, but for these.
    CleanProfiles { preserve: Vec<Option<String>> },
    Done { output: DistillOutput },
    Fail { error: DistillError },
    /// Give up with a failure from outside.
    Abort { message: String },
}

/// What a [`DistillAction`] stands for.
pub enum DistillActionView {
    StartEphemeralThread,
    SubmitRewrite {
        rewrite_prompt: Seq<char>,
        rewrite_model: Seq<char>,
        effort: Option<ReasoningEffort>,
    },
    AwaitRewrite,
    WriteProfile { profile: Seq<char> },
    StartSuccessor,
    NameSuccessor { thread_id: Seq<char>, name: Seq<char> },
    SeedSuccessor { seed_prompt: Seq<char>, seed_model: Seq<char>, cwd: Seq<char> },
    ArchiveSource,
    CleanProfiles { preserve: Seq<Option<Seq<char>>> },
    Done { output: DistillOutputView },
    Fail { error: DistillErrorView },
    Abort { message: Seq<char> },
}

impl View for DistillAction {
    type V = DistillActionView;

    open spec fn view(&self) -> DistillActionView {
        match *self {
            DistillAction::StartEphemeralThread => DistillActionView::StartEphemeralThread,
            DistillAction::SubmitRewrite { rewrite_prompt, rewrite_model, effort } => {
                DistillActionView::SubmitRewrite {
                    rewrite_prompt: rewrite_prompt@,
                    rewrite_model: rewrite_model@,
                    effort,
                }
            },
            DistillAction::AwaitRewrite => DistillActionView::AwaitRewrite,
            DistillAction::WriteProfile { profile } => DistillActionView::WriteProfile {
                profile: profile@,
            },
            DistillAction::StartSuccessor => DistillActionView::StartSuccessor,
            DistillAction::NameSuccessor { thread_id, name } => DistillActionView::NameSuccessor {
                thread_id: thread_id@,
                name: name@,
            },
            DistillAction::SeedSuccessor { seed_prompt, seed_model, cwd } => {
                DistillActionView::SeedSuccessor {
                    seed_prompt: seed_prompt@,
                    seed_model: seed_model@,
                    cwd: cwd@,
                }
            },
            DistillAction::ArchiveSource => DistillActionView::ArchiveSource,
            DistillAction::CleanProfiles { preserve } => DistillActionView::CleanProfiles {
                preserve: preserve.deep_view(),
            },
            DistillAction::Done { output } => DistillActionView::Done { output: output@ },
            DistillAction::Fail { error } => DistillActionView::Fail { error: error@ },
            DistillAction::Abort { message } => DistillActionView::Abort { message: message@ },
        }
    }
}

impl DeepView for DistillAction {
    type V = DistillActionView;

    open spec fn deep_view(&self) -> DistillActionView {
        self@
    }
}

impl Clone for DistillAction {
    fn clone(&self) -> (out: Self)
        ensures
            out@ == self@,
    {
        match self {
            DistillAction::StartEphemeralThread => DistillAction::StartEphemeralThread,
            DistillAction::SubmitRewrite { rewrite_prompt, rewrite_model, effort } => {
                DistillAction::SubmitRewrite {
                    rewrite_prompt: rewrite_prompt.clone(),
                    rewrite_model: rewrite_model.clone(),
                    effort: *effort,
                }
            },
            DistillAction::AwaitRewrite => DistillAction::AwaitRewrite,
            DistillAction::WriteProfile { profile } => DistillAction::WriteProfile {
                profile: profile.clone(),
            },
            DistillAction::StartSuccessor => DistillAction::StartSuccessor,
            DistillAction::NameSuccessor { thread_id, name } => DistillAction::NameSuccessor {
                thread_id: thread_id.clone(),
                name: name.clone(),
            },
            DistillAction::SeedSuccessor { seed_prompt, seed_model, cwd } => {
                DistillAction::SeedSuccessor {
                    seed_prompt: seed_prompt.clone(),
                    seed_model: seed_model.clone(),
                    cwd: cwd.clone(),
                }
            },
            DistillAction::ArchiveSource => DistillAction::ArchiveSource,
            DistillAction::CleanProfiles { preserve } => {
                let copy_of_preserve = preserve.clone();
                assert(copy_of_preserve.deep_view() =~= preserve.deep_view());
                DistillAction::CleanProfiles { preserve: copy_of_preserve }
            },
            DistillAction::Done { output } => DistillAction::Done { output: output.clone() },
            DistillAction::Fail { error } => DistillAction::Fail { error: error.clone() },
            DistillAction::Abort { message } => DistillAction::Abort { message: message.clone() },
        }
    }
}

/// One step of a distillation. The progress is to be reported before the
/// action is performed.
#[derive(Debug, PartialEq, Eq)]
pub struct DistillFlowStep {
    pub run: DistillRun,
    pub progress: Vec<DistillProgressEvent>,
    pub action: DistillAction,
}

/// What a [`DistillFlowStep`] stands for.
pub struct DistillFlowStepView {
    pub run: DistillRunView,
    pub progress: Seq<DistillProgressEventView>,
    pub action: DistillActionView,
}

impl View for DistillFlowStep {
    type V = DistillFlowStepView;

    open spec fn view(&self) -> DistillFlowStepView {
        DistillFlowStepView {
            run: self.run@,
            progress: self.progress.deep_view(),
            action: self.action@,
        }
    }
}

impl DeepView for DistillFlowStep {
    type V = DistillFlowStepView;

    open spec fn deep_view(&self) -> DistillFlowStepView {
        self@
    }
}

impl Clone for DistillFlowStep {
    fn clone(&self) -> (out: Self)
        ensures
            out@ == self@,
    {
        let out = DistillFlowStep {
            run: self.run.clone(),
            progress: self.progress.clone(),
            action: self.action.clone(),
        };
        assert(out.progress.deep_view() =~= self.progress.deep_view());
        out
    }
}

pub open spec fn flow_step(
    run: DistillRunView,
    progress: Seq<DistillProgressEventView>,
    action: DistillActionView,
) -> DistillFlowStepView {
    DistillFlowStepView { run, progress, action }
}

/// The report of a run.
pub open spec fn run_report(run: DistillRunView) -> DistillReportView {
    distill::report_of(
        run.summary,
        run.analysis,
        run.brief,
        run.successor_name,
        run.runtime,
        DistillReportOptionsView {
            distill_mode: run.mode,
            compression_level: run.args.compression_level,
            distill_note: run.note,
        },
    )
}

fn make_report(run: &DistillRun) -> (out: DistillReport)
    ensures
        out@ == run_report(run@),
{
    let options = DistillReportOptions {
        distill_mode: run.mode,
        compression_level: run.args.compression_level,
        distill_note: clone_opt(&run.note),
    };
    build_report(
        &run.summary,
        &run.analysis,
        run.brief.as_str(),
        run.successor_name.clone(),
        &run.runtime,
        &options,
    )
}

/// The step that starts the successor.
pub open spec fn start_step(
    run: DistillRunView,
    progress: Seq<DistillProgressEventView>,
) -> DistillFlowStepView {
    flow_step(
        run,
        progress.push(DistillProgressEventView::StartingSuccessorThread),
        DistillActionView::StartSuccessor,
    )
}

/// The output of a run that makes no successor.
pub open spec fn preview_output(run: DistillRunView) -> DistillOutputView {
    DistillOutputView {
        successor_thread_id: None,
        successor_rollout_path: None,
        resume_command: None,
        source_archived: run.summary.archived,
        report: run_report(run),
        brief: run.brief,
    }
}

/// The step once the final brief is there: show it, write the profile, or start
/// the successor.
pub open spec fn brief_step(
    run: DistillRunView,
    progress: Seq<DistillProgressEventView>,
) -> DistillFlowStepView {
    let progress = progress.push(DistillProgressEventView::BuildingReport);
    if run.args.preview_only {
        flow_step(
            run,
            progress.push(DistillProgressEventView::PreviewReady).push(
                DistillProgressEventView::Completed {
                    preview_only: true,
                    successor_thread_id: None,
                },
            ),
            DistillActionView::Done { output: preview_output(run) },
        )
    } else {
        match run.args.write_profile {
            Some(profile) => flow_step(
                run,
                progress.push(DistillProgressEventView::WritingProfile { profile }),
                DistillActionView::WriteProfile { profile },
            ),
            None => start_step(run, progress),
        }
    }
}

/// The run with the brief made by rule, after rewriting it failed.
pub open spec fn fallback_run(run: DistillRunView, error: Seq<char>) -> DistillRunView {
    DistillRunView {
        brief: run.deterministic_brief,
        mode: DistillMode::Deterministic,
        note: Some("codex distillation failed, fell back to deterministic: "@ + error),
        ..run
    }
}

/// The step after rewriting the brief failed.
pub open spec fn fallback_step(run: DistillRunView, error: Seq<char>) -> DistillFlowStepView {
    brief_step(
        fallback_run(run, error),
        seq![
            DistillProgressEventView::CodexDistillationFallback {
                error,
                estimated_tokens: numbers::token_count(run.deterministic_brief) as usize,
            },
        ],
    )
}

/// The first step: report the brief made by rule, and have it rewritten where
/// that is asked for.
pub open spec fn first_step(run: DistillRunView) -> DistillFlowStepView {
    let progress = seq![
        DistillProgressEventView::BuildingDeterministicBrief,
        DistillProgressEventView::DeterministicBriefReady {
            user_messages: run.analysis.recent_user_messages.len() as usize,
            assistant_messages: run.analysis.recent_assistant_messages.len() as usize,
            durable_guidance: run.analysis.durable_guidance.len() as usize,
            estimated_tokens: numbers::token_count(run.deterministic_brief) as usize,
        },
    ];
    match run.args.distill_mode {
        DistillMode::Deterministic => brief_step(run, progress),
        DistillMode::Codex => match requested_effort(run.args) {
            Ok(_) => flow_step(
                run,
                progress.push(DistillProgressEventView::StartingCodexDistillation),
                DistillActionView::StartEphemeralThread,
            ),
            Err(error) => flow_step(run, progress, DistillActionView::Fail { error }),
        },
    }
}

/// The reasoning effort that is asked for.
pub open spec fn requested_effort(args: DistillArgsView) -> Result<
    Option<ReasoningEffort>,
    DistillErrorView,
> {
    match args.reasoning_effort {
        None => Ok(None),
        Some(value) => {
            let word = search::lowered(text::trimmed(value));
            match distill::effort_named(word) {
                Some(effort) => Ok(Some(effort)),
                None => Err(DistillErrorView::UnsupportedReasoningEffort { effort: word }),
            }
        },
    }
}

pub open spec fn effort_result(out: Result<Option<ReasoningEffort>, DistillError>) -> Result<
    Option<ReasoningEffort>,
    DistillErrorView,
> {
    match out {
        Ok(effort) => Ok(effort),
        Err(error) => Err(error@),
    }
}

fn read_effort(args: &DistillArgs) -> (out: Result<Option<ReasoningEffort>, DistillError>)
    ensures
        effort_result(out) == requested_effort(args@),
{
    match &args.reasoning_effort {
        Some(value) => parse_reasoning_effort(Some(value.as_str())),
        None => parse_reasoning_effort(None),
    }
}

/// The step once the thread that rewrites the brief runs.
pub open spec fn rewrite_step(run: DistillRunView) -> DistillFlowStepView {
    let started = seq![DistillProgressEventView::CodexEphemeralThreadStarted];
    match run.runtime.model {
        Some(model) => flow_step(
            run,
            started,
            DistillActionView::SubmitRewrite {
                rewrite_prompt: distill::distillation_prompt_text(
                    run.deterministic_brief,
                    distill::policy_of(run.args.compression_level),
                ),
                rewrite_model: model,
                effort: match requested_effort(run.args) {
                    Ok(effort) => effort,
                    Err(_) => None,
                },
            },
        ),
        None => {
            let error = distill::distill_error_text(DistillErrorView::NoDistillationModel);
            let next = fallback_step(run, error);
            flow_step(next.run, started + next.progress, next.action)
        },
    }
}

/// The step once the turn that rewrites the brief is over.
pub open spec fn rewritten_step(
    run: DistillRunView,
    last_message: Option<Seq<char>>,
    failure: Option<Seq<char>>,
) -> DistillFlowStepView {
    match failure {
        Some(error) => fallback_step(run, error),
        None => match last_message {
            Some(brief) => brief_step(
                DistillRunView { brief, ..run },
                seq![
                    DistillProgressEventView::CodexDistillationCompleted {
                        estimated_tokens: numbers::token_count(brief) as usize,
                    },
                ],
            ),
            None => fallback_step(
                run,
                distill::distill_error_text(DistillErrorView::NoAssistantMessage),
            ),
        },
    }
}

/// The step once the successor has its name.
pub open spec fn seed_step(run: DistillRunView) -> DistillFlowStepView {
    let named = seq![
        DistillProgressEventView::SuccessorThreadNamed { thread_name: run.successor_name },
    ];
    match text::first_present(run.runtime.model, run.summary.latest_model) {
        Some(model) => flow_step(
            run,
            named.push(DistillProgressEventView::SeedingSuccessorThread),
            DistillActionView::SeedSuccessor {
                seed_prompt: distill::seed_prompt_text(run.brief),
                seed_model: model,
                cwd: run.summary.session_cwd,
            },
        ),
        None => flow_step(
            run,
            named,
            DistillActionView::Fail { error: DistillErrorView::NoSuccessorModel },
        ),
    }
}

/// The step that cleans up generated profiles, but for those in use.
pub open spec fn clean_action(run: DistillRunView) -> DistillActionView {
    DistillActionView::CleanProfiles {
        preserve: seq![run.args.target.config_profile, run.args.write_profile],
    }
}

/// The step once the seed turn is over.
pub open spec fn seeded_step(
    run: DistillRunView,
    failure: Option<Seq<char>>,
) -> DistillFlowStepView {
    match failure {
        Some(message) => flow_step(run, Seq::empty(), DistillActionView::Abort { message }),
        None => if run.args.archive_source {
            flow_step(
                run,
                seq![
                    DistillProgressEventView::SeedTurnCompleted,
                    DistillProgressEventView::ArchivingSource,
                ],
                DistillActionView::ArchiveSource,
            )
        } else {
            flow_step(
                run,
                seq![DistillProgressEventView::SeedTurnCompleted],
                clean_action(run),
            )
        },
    }
}

/// The last step.
pub open spec fn last_step(run: DistillRunView, resume: Option<Seq<char>>) -> DistillFlowStepView {
    flow_step(
        run,
        seq![
            DistillProgressEventView::Completed {
                preview_only: false,
                successor_thread_id: Some(run.successor_thread_id),
            },
        ],
        DistillActionView::Done {
            output: DistillOutputView {
                successor_thread_id: Some(run.successor_thread_id),
                successor_rollout_path: Some(run.successor_rollout_path),
                resume_command: Some(
                    runtime::resume_command_text(
                        run.args.write_profile,
                        run.successor_thread_id,
                        resume,
                    ),
                ),
                source_archived: run.args.archive_source,
                report: run_report(run),
                brief: run.brief,
            },
        },
    )
}

/// The step after an event.
pub open spec fn distill_next(run: DistillRunView, event: DistillEventView) -> DistillFlowStepView {
    match event {
        DistillEventView::Composed => first_step(run),
        DistillEventView::EphemeralThreadStarted => rewrite_step(run),
        DistillEventView::RewriteSubmitted => flow_step(
            run,
            seq![DistillProgressEventView::CodexTurnSubmitted],
            DistillActionView::AwaitRewrite,
        ),
        DistillEventView::RewriteFinished { last_message, turn_failure, thread_failure } =>
            rewritten_step(run, last_message, text::first_present(turn_failure, thread_failure)),
        DistillEventView::RewriteFailed { error } => fallback_step(run, error),
        DistillEventView::ProfileWritten => start_step(run, Seq::empty()),
        DistillEventView::ThreadStarted { thread_id, rollout_path } => flow_step(
            DistillRunView {
                successor_thread_id: thread_id,
                successor_rollout_path: rollout_path,
                ..run
            },
            Seq::empty(),
            DistillActionView::NameSuccessor { thread_id, name: run.successor_name },
        ),
        DistillEventView::ThreadNamed => seed_step(run),
        DistillEventView::SeedFinished { seed_failure, shutdown_failure } => seeded_step(
            run,
            text::first_present(seed_failure, shutdown_failure),
        ),
        DistillEventView::SourceArchived => flow_step(run, Seq::empty(), clean_action(run)),
        DistillEventView::ProfilesCleaned { resume } => last_step(run, resume),
    }
}

fn start_successor(run: DistillRun, progress: Vec<DistillProgressEvent>) -> (out: DistillFlowStep)
    ensures
        out@ == start_step(run@, progress.deep_view()),
{
    let mut progress = progress;
    report(&mut progress, DistillProgressEvent::StartingSuccessorThread);
    DistillFlowStep { run, progress, action: DistillAction::StartSuccessor }
}

fn use_brief(run: DistillRun, progress: Vec<DistillProgressEvent>) -> (out: DistillFlowStep)
    ensures
        out@ == brief_step(run@, progress.deep_view()),
{
    let mut progress = progress;
    report(&mut progress, DistillProgressEvent::BuildingReport);
    if run.args.preview_only {
        report(&mut progress, DistillProgressEvent::PreviewReady);
        report(
            &mut progress,
            DistillProgressEvent::Completed { preview_only: true, successor_thread_id: None },
        );
        let output = DistillOutput {
            successor_thread_id: None,
            successor_rollout_path: None,
            resume_command: None,
            source_archived: run.summary.archived,
            report: make_report(&run),
            brief: run.brief.clone(),
        };
        return DistillFlowStep { run, progress, action: DistillAction::Done { output } };
    }
    match &run.args.write_profile {
        Some(profile) => {
            let name = profile.clone();
            report(
                &mut progress,
                DistillProgressEvent::WritingProfile { profile: profile.clone() },
            );
            DistillFlowStep { run, progress, action: DistillAction::WriteProfile { profile: name } }
        },
        None => start_successor(run, progress),
    }
}

fn fall_back(run: DistillRun, error: &str) -> (out: DistillFlowStep)
    ensures
        out@ == fallback_step(run@, error@),
{
    let progress = one_report(
        DistillProgressEvent::CodexDistillationFallback {
            error: error.to_owned(),
            estimated_tokens: approx_token_count(run.deterministic_brief.as_str()),
        },
    );
    let mut run = run;
    run.brief = run.deterministic_brief.clone();
    run.mode = DistillMode::Deterministic;
    run.note = Some(cat2("codex distillation failed, fell back to deterministic: ", error));
    use_brief(run, progress)
}

fn begin(run: DistillRun) -> (out: DistillFlowStep)
    ensures
        out@ == first_step(run@),
{
    let mut progress = one_report(DistillProgressEvent::BuildingDeterministicBrief);
    let ready = DistillProgressEvent::DeterministicBriefReady {
        user_messages: run.analysis.recent_user_messages.len(),
        assistant_messages: run.analysis.recent_assistant_messages.len(),
        durable_guidance: run.analysis.durable_guidance.len(),
        estimated_tokens: approx_token_count(run.deterministic_brief.as_str()),
    };
    let ghost shown = ready@;
    report(&mut progress, ready);
    assert(progress.deep_view() =~= seq![
        DistillProgressEventView::BuildingDeterministicBrief,
        shown,
    ]);
    match run.args.distill_mode {
        DistillMode::Deterministic => use_brief(run, progress),
        DistillMode::Codex => match read_effort(&run.args) {
            Ok(effort) => {
                report(&mut progress, DistillProgressEvent::StartingCodexDistillation);
                DistillFlowStep { run, progress, action: DistillAction::StartEphemeralThread }
            },
            Err(error) => DistillFlowStep { run, progress, action: DistillAction::Fail { error } },
        },
    }
}

fn submit_rewrite(run: DistillRun) -> (out: DistillFlowStep)
    ensures
        out@ == rewrite_step(run@),
{
    let started = one_report(DistillProgressEvent::CodexEphemeralThreadStarted);
    match &run.runtime.model {
        Some(model) => {
            let policy = DistillCompressionPolicy::for_level(run.args.compression_level);
            let rewrite_prompt = codex_distillation_prompt(
                run.deterministic_brief.as_str(),
                policy,
            );
            let effort: Option<ReasoningEffort> = match read_effort(&run.args) {
                Ok(effort) => effort,
                Err(_) => None,
            };
            let rewrite_model = model.clone();
            DistillFlowStep {
                run,
                progress: started,
                action: DistillAction::SubmitRewrite { rewrite_prompt, rewrite_model, effort },
            }
        },
        None => {
            let error = distill_error_message(&DistillError::NoDistillationModel);
            let next = fall_back(run, error.as_str());
            let mut progress = started;
            let ghost first = progress.deep_view();
            let ghost rest = next.progress.deep_view();
            let mut more = next.progress;
            progress.append(&mut more);
            assert(progress.deep_view() =~= first + rest);
            DistillFlowStep { run: next.run, progress, action: next.action }
        },
    }
}

fn take_rewrite(run: DistillRun, last_message: &Option<String>, failure: &Option<String>) -> (out:
    DistillFlowStep)
    ensures
        out@ == rewritten_step(run@, text::opt_text(*last_message), text::opt_text(*failure)),
{
    match failure {
        Some(error) => fall_back(run, error.as_str()),
        None => match last_message {
            Some(brief) => {
                let progress = one_report(
                    DistillProgressEvent::CodexDistillationCompleted {
                        estimated_tokens: approx_token_count(brief.as_str()),
                    },
                );
                let mut run = run;
                run.brief = brief.clone();
                use_brief(run, progress)
            },
            None => {
                let error = distill_error_message(&DistillError::NoAssistantMessage);
                fall_back(run, error.as_str())
            },
        },
    }
}

fn seed_successor(run: DistillRun) -> (out: DistillFlowStep)
    ensures
        out@ == seed_step(run@),
{
    let mut progress = one_report(
        DistillProgressEvent::SuccessorThreadNamed { thread_name: run.successor_name.clone() },
    );
    match or_opt(&run.runtime.model, &run.summary.latest_model) {
        Some(seed_model) => {
            report(&mut progress, DistillProgressEvent::SeedingSuccessorThread);
            let seed_prompt = handoff_seed_prompt(run.brief.as_str());
            let cwd = run.summary.session_cwd.clone();
            DistillFlowStep {
                run,
                progress,
                action: DistillAction::SeedSuccessor { seed_prompt, seed_model, cwd },
            }
        },
        None => DistillFlowStep {
            run,
            progress,
            action: DistillAction::Fail { error: DistillError::NoSuccessorModel },
        },
    }
}

fn clean_profiles(run: &DistillRun) -> (out: DistillAction)
    ensures
        out@ == clean_action(run@),
{
    let mut preserve: Vec<Option<String>> = Vec::new();
    preserve.push(clone_opt(&run.args.target.config_profile));
    preserve.push(clone_opt(&run.args.write_profile));
    assert(preserve.deep_view() =~= seq![run@.args.target.config_profile, run@.args.write_profile]);
    DistillAction::CleanProfiles { preserve }
}

fn take_seed(run: DistillRun, failure: &Option<String>) -> (out: DistillFlowStep)
    ensures
        out@ == seeded_step(run@, text::opt_text(*failure)),
{
    match failure {
        Some(message) => DistillFlowStep {
            run,
            progress: no_progress(),
            action: DistillAction::Abort { message: message.clone() },
        },
        None => {
            let mut progress = one_report(DistillProgressEvent::SeedTurnCompleted);
            if run.args.archive_source {
                report(&mut progress, DistillProgressEvent::ArchivingSource);
                assert(progress.deep_view() =~= seq![
                    DistillProgressEventView::SeedTurnCompleted,
                    DistillProgressEventView::ArchivingSource,
                ]);
                return DistillFlowStep { run, progress, action: DistillAction::ArchiveSource };
            }
            let action = clean_profiles(&run);
            DistillFlowStep { run, progress, action }
        },
    }
}

fn finish(run: DistillRun, resume: &Option<String>) -> (out: DistillFlowStep)
    ensures
        out@ == last_step(run@, text::opt_text(*resume)),
{
    let progress = one_report(
        DistillProgressEvent::Completed {
            preview_only: false,
            successor_thread_id: Some(run.successor_thread_id.clone()),
        },
    );
    let command = render_profiled_resume_command(
        &run.args.write_profile,
        run.successor_thread_id.as_str(),
        resume,
    );
    let output = DistillOutput {
        successor_thread_id: Some(run.successor_thread_id.clone()),
        successor_rollout_path: Some(run.successor_rollout_path.clone()),
        resume_command: Some(command),
        source_archived: run.args.archive_source,
        report: make_report(&run),
        brief: run.brief.clone(),
    };
    DistillFlowStep { run, progress, action: DistillAction::Done { output } }
}

/// The step of a distillation after an event.
///
/// A run made by [`DistillRun::new`] starts with [`DistillEvent::Composed`].
pub fn execute_with_progress(run: DistillRun, event: &DistillEvent) -> (out: DistillFlowStep)
    ensures
        out@ == distill_next(run@, event@),
{
    match event {
        DistillEvent::Composed => begin(run),
        DistillEvent::EphemeralThreadStarted => submit_rewrite(run),
        DistillEvent::RewriteSubmitted => DistillFlowStep {
            run,
            progress: one_report(DistillProgressEvent::CodexTurnSubmitted),
            action: DistillAction::AwaitRewrite,
        },
        DistillEvent::RewriteFinished { last_message, turn_failure, thread_failure } => {
            take_rewrite(run, last_message, &or_opt(turn_failure, thread_failure))
        },
        DistillEvent::RewriteFailed { error } => fall_back(run, error.as_str()),
        DistillEvent::ProfileWritten => start_successor(run, no_progress()),
        DistillEvent::ThreadStarted { thread_id, rollout_path } => {
            let mut run = run;
            run.successor_thread_id = thread_id.clone();
            run.successor_rollout_path = rollout_path.clone();
            let name = run.successor_name.clone();
            DistillFlowStep {
                run,
                progress: no_progress(),
                action: DistillAction::NameSuccessor { thread_id: thread_id.clone(), name },
            }
        },
        DistillEvent::ThreadNamed => seed_successor(run),
        DistillEvent::SeedFinished { seed_failure, shutdown_failure } => take_seed(
            run,
            &or_opt(seed_failure, shutdown_failure),
        ),
        DistillEvent::SourceArchived => {
            let action = clean_profiles(&run);
            DistillFlowStep { run, progress: no_progress(), action }
        },
        DistillEvent::ProfilesCleaned { resume } => finish(run, resume),
    }
}

// ------------------------------------------------------------------------------ laws

/// A preview changes nothing: after the final brief is there, it ends the run
/// without writing a profile and without a successor.
pub proof fn preview_makes_no_successor(run: DistillRunView, event: DistillEventView)
    requires
        run.args.preview_only,
        event is Composed || event is RewriteFinished || event is RewriteFailed,
    ensures
        ({
            let action = distill_next(run, event).action;
            &&& !(action is WriteProfile)
            &&& !(action is StartSuccessor)
            &&& action matches DistillActionView::Done { output } ==> output.successor_thread_id
                is None && output.source_archived == run.summary.archived
        }),
{
}

/// A failed rewriting never fails the distillation: the brief made by rule is
/// used instead, and the report says so.
pub proof fn rewriting_falls_back(run: DistillRunView, error: Seq<char>)
    ensures
        ({
            let next = distill_next(run, DistillEventView::RewriteFailed { error });
            &&& !(next.action is Fail)
            &&& next.run.brief == run.deterministic_brief
            &&& next.run.mode == DistillMode::Deterministic
            &&& next.run.note is Some
            &&& run_report(next.run).distill_mode == "deterministic"@
        }),
{
}

/// Whoever wrote it, the successor is seeded with the brief that is reported.
pub proof fn successor_is_seeded_with_the_brief(run: DistillRunView)
    requires
        distill_next(run, DistillEventView::ThreadNamed).action is SeedSuccessor,
    ensures
        distill_next(run, DistillEventView::ThreadNamed).action->seed_prompt
            == distill::seed_prompt_text(run.brief),
        last_step(run, None).action->output.brief == run.brief,
{
}

/// The events that an action can lead to.
pub open spec fn answers(action: DistillActionView, event: DistillEventView) -> bool {
    match action {
        DistillActionView::StartEphemeralThread => event is EphemeralThreadStarted
            || event is RewriteFailed,
        DistillActionView::SubmitRewrite { .. } => event is RewriteSubmitted
            || event is RewriteFailed,
        DistillActionView::AwaitRewrite => event is RewriteFinished,
        DistillActionView::WriteProfile { .. } => event is ProfileWritten,
        DistillActionView::StartSuccessor => event is ThreadStarted,
        DistillActionView::NameSuccessor { .. } => event is ThreadNamed,
        DistillActionView::SeedSuccessor { .. } => event is SeedFinished,
        DistillActionView::ArchiveSource => event is SourceArchived,
        DistillActionView::CleanProfiles { .. } => event is ProfilesCleaned,
        DistillActionView::Done { .. } => false,
        DistillActionView::Fail { .. } => false,
        DistillActionView::Abort { .. } => false,
    }
}

/// How many actions a distillation can still ask for behind this one.
pub open spec fn actions_left(action: DistillActionView) -> nat {
    match action {
        DistillActionView::StartEphemeralThread => 9,
        DistillActionView::SubmitRewrite { .. } => 8,
        DistillActionView::AwaitRewrite => 7,
        DistillActionView::WriteProfile { .. } => 6,
        DistillActionView::StartSuccessor => 5,
        DistillActionView::NameSuccessor { .. } => 4,
        DistillActionView::SeedSuccessor { .. } => 3,
        DistillActionView::ArchiveSource => 2,
        DistillActionView::CleanProfiles { .. } => 1,
        DistillActionView::Done { .. } => 0,
        DistillActionView::Fail { .. } => 0,
        DistillActionView::Abort { .. } => 0,
    }
}

/// Every distillation comes to an end, and its steps come in one order: the
/// brief is rewritten before the profile is written, the profile before the
/// successor starts, and the source is archived behind all of that.
pub proof fn distillation_comes_to_an_end(
    run: DistillRunView,
    action: DistillActionView,
    event: DistillEventView,
)
    requires
        answers(action, event),
    ensures
        actions_left(distill_next(run, event).action) < actions_left(action),
{
}

/// The source is archived only where that was asked for, and only once the
/// successor is seeded and shut down without a failure.
pub proof fn source_is_archived_last(run: DistillRunView, event: DistillEventView)
    requires
        distill_next(run, event).action is ArchiveSource,
    ensures
        run.args.archive_source,
        event == (DistillEventView::SeedFinished { seed_failure: None, shutdown_failure: None }),
{
}

/// A distillation prepares one thing after the other, and reports each before it
/// is done; without recent turns to keep, or without a name for the successor, it
/// does not begin.
pub proof fn preparation_goes_in_order(
    args: DistillArgsView,
    name: Option<Seq<char>>,
    history_items: usize,
    raw_lines: usize,
)
    ensures
        ({
            let first = prepare_next(args, DistillPrepareEventView::Started);
            &&& args.recent_turns == 0 <==> first.action == (DistillPrepareActionView::Fail {
                error: DistillErrorView::NoRecentTurns,
            })
            &&& args.recent_turns > 0 ==> first.action is ResolveTarget && first.progress.contains(
                DistillProgressEventView::ResolvingTarget,
            )
        }),
        ({
            let next = prepare_next(args, DistillPrepareEventView::TargetResolved);
            next.action is LoadSummary && next.progress.contains(
                DistillProgressEventView::LoadingSessionSummary,
            )
        }),
        ({
            let next = prepare_next(args, DistillPrepareEventView::SummaryLoaded);
            next.action is RebuildHistory && next.progress.contains(
                DistillProgressEventView::RebuildingHistory,
            )
        }),
        ({
            let next = prepare_next(args, DistillPrepareEventView::HistoryRebuilt);
            next.action is ReadLines && next.progress.contains(
                DistillProgressEventView::ReadingRolloutLines,
            )
        }),
        ({
            let next = prepare_next(
                args,
                DistillPrepareEventView::LinesRead { history_items, raw_lines },
            );
            next.action is BuildPreview && next.progress.contains(
                DistillProgressEventView::AnalyzingHistory { history_items, raw_lines },
            )
        }),
        ({
            let next = prepare_next(
                args,
                DistillPrepareEventView::PreviewBuilt { normalized_name: name },
            );
            &&& name matches Some(name) ==> next.action == (DistillPrepareActionView::LoadRuntime {
                successor_name: name,
            }) && next.progress.contains(DistillProgressEventView::ResolvingRuntimeConfig)
            &&& name is None && args.thread_name is Some ==> next.action == (
            DistillPrepareActionView::Fail { error: DistillErrorView::EmptyThreadName })
            &&& name is None && args.thread_name is None ==> next.action == (
            DistillPrepareActionView::Fail { error: DistillErrorView::NoThreadName })
        }),
{
    broadcast use vstd::seq_lib::lemma_seq_contains_after_push;

    let none = Seq::<DistillProgressEventView>::empty();
    assert(none.push(DistillProgressEventView::ResolvingTarget).contains(
        DistillProgressEventView::ResolvingTarget,
    ));
    assert(none.push(DistillProgressEventView::LoadingSessionSummary).contains(
        DistillProgressEventView::LoadingSessionSummary,
    ));
    assert(none.push(DistillProgressEventView::RebuildingHistory).contains(
        DistillProgressEventView::RebuildingHistory,
    ));
    assert(none.push(DistillProgressEventView::ReadingRolloutLines).contains(
        DistillProgressEventView::ReadingRolloutLines,
    ));
    assert(none.push(DistillProgressEventView::ResolvingRuntimeConfig).contains(
        DistillProgressEventView::ResolvingRuntimeConfig,
    ));
    let analyzing = DistillProgressEventView::AnalyzingHistory { history_items, raw_lines };
    assert(none.push(analyzing).contains(analyzing));
}

/// A run begins with what it was given, with the brief that is made by rule, and
/// in the mode that was asked for.
pub proof fn run_begins_with_the_brief_by_rule(
    args: DistillArgsView,
    summary: SessionSummaryView,
    preview: PromptPreviewSnapshotView,
    records: Seq<RolloutLineView>,
    runtime: RuntimeConfigView,
    successor_name: Seq<char>,
)
    ensures
        ({
            let run = run_of(args, summary, preview, records, runtime, successor_name);
            let policy = distill::policy_of(args.compression_level);
            let found = distill::analysis_of(
                preview.reconstructed_history,
                records,
                preview,
                args.recent_turns,
                policy,
            );
            &&& run.args == args && run.summary == summary && run.runtime == runtime
            &&& run.successor_name == successor_name && run.mode == args.distill_mode
            &&& run.note is None
            &&& run.brief == run.deterministic_brief
            &&& run.brief == distill::brief_text(summary, run.analysis, policy)
            &&& run.analysis.recent_user_messages == found.recent_user_messages
            &&& run.analysis.recent_assistant_messages == found.recent_assistant_messages
            &&& run.analysis.durable_guidance == found.durable_guidance
            &&& run.analysis.pinned_facts == distill::pinned_facts_text(
                summary,
                found,
                preview,
                runtime,
                policy,
            )
        }),
{
}

/// A brief by rule goes straight on. One that is to be rewritten first gets a
/// thread for that, unless the effort that is asked for is unknown: then the run
/// fails, and names that effort.
pub proof fn rewriting_is_asked_for(run: DistillRunView)
    ensures
        ({
            let next = distill_next(run, DistillEventView::Composed);
            let word = search::lowered(text::trimmed(run.args.reasoning_effort.unwrap()));
            let unknown = run.args.reasoning_effort is Some && distill::effort_named(word) is None;
            &&& next.run == run
            &&& run.args.distill_mode is Codex && !unknown <==> next.action is StartEphemeralThread
            &&& run.args.distill_mode is Codex && unknown <==> next.action == (
            DistillActionView::Fail {
                error: DistillErrorView::UnsupportedReasoningEffort { effort: word },
            })
            &&& run.args.distill_mode is Deterministic ==> (if run.args.preview_only {
                next.action is Done
            } else if run.args.write_profile is Some {
                next.action == (DistillActionView::WriteProfile {
                    profile: run.args.write_profile.unwrap(),
                })
            } else {
                next.action is StartSuccessor
            })
        }),
{
}

/// The brief by rule is what is rewritten, by the model of the runtime, with the
/// effort that is asked for. Without a model the brief by rule stays.
pub proof fn brief_by_rule_is_rewritten(run: DistillRunView)
    ensures
        ({
            let next = distill_next(run, DistillEventView::EphemeralThreadStarted);
            &&& next.action is SubmitRewrite <==> run.runtime.model is Some
            &&& next.action matches DistillActionView::SubmitRewrite {
                rewrite_prompt,
                rewrite_model,
                effort,
            } ==> {
                &&& rewrite_prompt == distill::distillation_prompt_text(
                    run.deterministic_brief,
                    distill::policy_of(run.args.compression_level),
                )
                &&& run.runtime.model == Some(rewrite_model)
                &&& run.args.reasoning_effort is None ==> effort is None
                &&& run.args.reasoning_effort matches Some(value) ==> effort
                    == distill::effort_named(search::lowered(text::trimmed(value)))
            }
            &&& run.runtime.model is None ==> next.run.brief == run.deterministic_brief
                && next.run.mode == DistillMode::Deterministic
            &&& distill_next(run, DistillEventView::RewriteSubmitted).action is AwaitRewrite
        }),
{
}

/// A rewritten brief takes the place of the one by rule exactly where its turn
/// and its thread ended well and left a message. A failure of the turn is told
/// before one of the thread.
pub proof fn rewritten_brief_is_taken_over(
    run: DistillRunView,
    last_message: Option<Seq<char>>,
    turn_failure: Option<Seq<char>>,
    thread_failure: Option<Seq<char>>,
)
    ensures
        ({
            let next = distill_next(
                run,
                DistillEventView::RewriteFinished { last_message, turn_failure, thread_failure },
            );
            let well = turn_failure is None && thread_failure is None && last_message is Some;
            let told = "codex distillation failed, fell back to deterministic: "@;
            &&& well ==> next.run.brief == last_message.unwrap() && next.run.mode == run.mode
                && next.run.note == run.note
            &&& !well ==> next.run.brief == run.deterministic_brief && next.run.mode
                == DistillMode::Deterministic
            &&& turn_failure matches Some(error) ==> next.run.note == Some(told + error)
            &&& turn_failure is None ==> (thread_failure matches Some(error) ==> next.run.note
                == Some(told + error))
            &&& turn_failure is None && thread_failure is None && last_message is None
                ==> next.run.note == Some(
                told + distill::distill_error_text(DistillErrorView::NoAssistantMessage),
            )
            &&& next.run.args == run.args && next.run.summary == run.summary && next.run.runtime
                == run.runtime && next.run.successor_name == run.successor_name
            &&& if run.args.preview_only {
                next.action is Done
            } else if run.args.write_profile is Some {
                next.action == (DistillActionView::WriteProfile {
                    profile: run.args.write_profile.unwrap(),
                })
            } else {
                next.action is StartSuccessor
            }
        }),
{
}

/// A successor is started once its profile is written, gets the name that was
/// prepared for it, and is seeded in the directory of its source by the model of
/// the runtime, or the latest one of the session where the runtime names none.
pub proof fn successor_is_made_in_order(
    run: DistillRunView,
    thread_id: Seq<char>,
    rollout_path: Seq<char>,
)
    ensures
        distill_next(run, DistillEventView::ProfileWritten).action is StartSuccessor,
        ({
            let next = distill_next(run, DistillEventView::ThreadStarted { thread_id, rollout_path });
            &&& next.action == (DistillActionView::NameSuccessor {
                thread_id,
                name: run.successor_name,
            })
            &&& next.run.successor_thread_id == thread_id
            &&& next.run.successor_rollout_path == rollout_path
            &&& next.run.brief == run.brief && next.run.args == run.args && next.run.summary
                == run.summary
        }),
        ({
            let next = distill_next(run, DistillEventView::ThreadNamed);
            &&& next.run == run
            &&& run.runtime.model is None && run.summary.latest_model is None <==> next.action == (
            DistillActionView::Fail { error: DistillErrorView::NoSuccessorModel })
            &&& run.runtime.model is Some || run.summary.latest_model is Some <==> next.action
                is SeedSuccessor
            &&& next.action matches DistillActionView::SeedSuccessor { seed_model, cwd, .. } ==> {
                &&& cwd == run.summary.session_cwd
                &&& run.runtime.model is Some ==> run.runtime.model == Some(seed_model)
                &&& run.runtime.model is None ==> run.summary.latest_model == Some(seed_model)
            }
        }),
{
}

/// A failed seed turn ends the run with its failure, or with that of the
/// shutdown behind it. Otherwise the source is archived where that is asked for,
/// and then generated profiles are cleaned up, but for the two in use.
pub proof fn seeded_successor_ends_the_run(
    run: DistillRunView,
    seed_failure: Option<Seq<char>>,
    shutdown_failure: Option<Seq<char>>,
)
    ensures
        ({
            let next = distill_next(
                run,
                DistillEventView::SeedFinished { seed_failure, shutdown_failure },
            );
            let clean = DistillActionView::CleanProfiles {
                preserve: seq![run.args.target.config_profile, run.args.write_profile],
            };
            &&& next.run == run
            &&& seed_failure matches Some(message) ==> next.action == (DistillActionView::Abort {
                message,
            })
            &&& seed_failure is None ==> (shutdown_failure matches Some(message) ==> next.action
                == (DistillActionView::Abort { message }))
            &&& seed_failure is None && shutdown_failure is None ==> (if run.args.archive_source {
                next.action is ArchiveSource
            } else {
                next.action == clean
            })
            &&& distill_next(run, DistillEventView::SourceArchived).action == clean
        }),
{
}

/// The output of a run names the successor, tells how to resume it, holds the
/// brief and the report of the run, and says whether the source was archived.
pub proof fn output_tells_the_successor(run: DistillRunView, resume: Option<Seq<char>>)
    ensures
        ({
            let next = distill_next(run, DistillEventView::ProfilesCleaned { resume });
            &&& next.action is Done
            &&& next.action matches DistillActionView::Done { output } ==> {
                &&& output.successor_thread_id == Some(run.successor_thread_id)
                &&& output.successor_rollout_path == Some(run.successor_rollout_path)
                &&& output.resume_command == Some(
                    runtime::resume_command_text(
                        run.args.write_profile,
                        run.successor_thread_id,
                        resume,
                    ),
                )
                &&& output.source_archived == run.args.archive_source
                &&& output.brief == run.brief
                &&& output.report == run_report(run)
            }
            &&& next.progress.last() == (DistillProgressEventView::Completed {
                preview_only: false,
                successor_thread_id: Some(run.successor_thread_id),
            })
        }),
{
}

} // verus!
