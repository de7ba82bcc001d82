//! Progress that long operations report.

use vstd::prelude::*;

use crate::cli::DistillCompressionLevel;
use crate::cli::DistillMode;
use crate::text;
use crate::text::clone_opt;

verus! {

/// How a smart switch reaches its target.
#[derive(Debug, Clone, Copy, PartialEq, Eq, Structural)]
pub enum SmartStrategyKind {
    SameThreadProfileOnly,
    SameThreadRepair,
    SameThreadRepairAfterCompaction,
    CrossProviderMigrate,
    CrossProviderMigrateAfterCompaction,
    DistillSuccessor,
}

/// A step of a distillation.
#[derive(Debug, PartialEq, Eq)]
pub enum DistillProgressEvent {
    ResolvingTarget,
    LoadingSessionSummary,
    RebuildingHistory,
    ReadingRolloutLines,
    AnalyzingHistory { history_items: usize, raw_lines: usize },
    BuildingDeterministicBrief,
    DeterministicBriefReady {
        user_messages: usize,
        assistant_messages: usize,
        durable_guidance: usize,
        estimated_tokens: usize,
    },
    ResolvingRuntimeConfig,
    StartingCodexDistillation,
    CodexEphemeralThreadStarted,
    CodexTurnSubmitted,
    CodexDistillationCompleted { estimated_tokens: usize },
    CodexDistillationFallback { error: String, estimated_tokens: usize },
    BuildingReport,
    PreviewReady,
    WritingProfile { profile: String },
    StartingSuccessorThread,
    SuccessorThreadNamed { thread_name: String },
    SeedingSuccessorThread,
    SeedTurnCompleted,
    ArchivingSource,
    Completed { preview_only: bool, successor_thread_id: Option<String> },
}

/// What a [`DistillProgressEvent`] stands for.
pub enum DistillProgressEventView {
    ResolvingTarget,
    LoadingSessionSummary,
    RebuildingHistory,
    ReadingRolloutLines,
    AnalyzingHistory { history_items: usize, raw_lines: usize },
    BuildingDeterministicBrief,
    DeterministicBriefReady {
        user_messages: usize,
        assistant_messages: usize,
        durable_guidance: usize,
        estimated_tokens: usize,
    },
    ResolvingRuntimeConfig,
    StartingCodexDistillation,
    CodexEphemeralThreadStarted,
    CodexTurnSubmitted,
    CodexDistillationCompleted { estimated_tokens: usize },
    CodexDistillationFallback { error: Seq<char>, estimated_tokens: usize },
    BuildingReport,
    PreviewReady,
    WritingProfile { profile: Seq<char> },
    StartingSuccessorThread,
    SuccessorThreadNamed { thread_name: Seq<char> },
    SeedingSuccessorThread,
    SeedTurnCompleted,
    ArchivingSource,
    Completed { preview_only: bool, successor_thread_id: Option<Seq<char>> },
}

impl View for DistillProgressEvent {
    type V = DistillProgressEventView;

    open spec fn view(&self) -> DistillProgressEventView {
        match *self {
            DistillProgressEvent::ResolvingTarget => DistillProgressEventView::ResolvingTarget,
            DistillProgressEvent::LoadingSessionSummary => {
                DistillProgressEventView::LoadingSessionSummary
            },
            DistillProgressEvent::RebuildingHistory => DistillProgressEventView::RebuildingHistory,
            DistillProgressEvent::ReadingRolloutLines => {
                DistillProgressEventView::ReadingRolloutLines
            },
            DistillProgressEvent::AnalyzingHistory { history_items, raw_lines } => {
                DistillProgressEventView::AnalyzingHistory { history_items, raw_lines }
            },
            DistillProgressEvent::BuildingDeterministicBrief => {
                DistillProgressEventView::BuildingDeterministicBrief
            },
            DistillProgressEvent::DeterministicBriefReady {
                user_messages,
                assistant_messages,
                durable_guidance,
                estimated_tokens,
            } => {
                DistillProgressEventView::DeterministicBriefReady {
                    user_messages,
                    assistant_messages,
                    durable_guidance,
                    estimated_tokens,
                }
            },
            DistillProgressEvent::ResolvingRuntimeConfig => {
                DistillProgressEventView::ResolvingRuntimeConfig
            },
            DistillProgressEvent::StartingCodexDistillation => {
                DistillProgressEventView::StartingCodexDistillation
            },
            DistillProgressEvent::CodexEphemeralThreadStarted => {
                DistillProgressEventView::CodexEphemeralThreadStarted
            },
            DistillProgressEvent::CodexTurnSubmitted => {
                DistillProgressEventView::CodexTurnSubmitted
            },
            DistillProgressEvent::CodexDistillationCompleted { estimated_tokens } => {
                DistillProgressEventView::CodexDistillationCompleted { estimated_tokens }
            },
            DistillProgressEvent::CodexDistillationFallback { error, estimated_tokens } => {
                DistillProgressEventView::CodexDistillationFallback {
                    error: error@,
                    estimated_tokens,
                }
            },
            DistillProgressEvent::BuildingReport => DistillProgressEventView::BuildingReport,
            DistillProgressEvent::PreviewReady => DistillProgressEventView::PreviewReady,
            DistillProgressEvent::WritingProfile { profile } => {
                DistillProgressEventView::WritingProfile { profile: profile@ }
            },
            DistillProgressEvent::StartingSuccessorThread => {
                DistillProgressEventView::StartingSuccessorThread
            },
            DistillProgressEvent::SuccessorThreadNamed { thread_name } => {
                DistillProgressEventView::SuccessorThreadNamed { thread_name: thread_name@ }
            },
            DistillProgressEvent::SeedingSuccessorThread => {
                DistillProgressEventView::SeedingSuccessorThread
            },
            DistillProgressEvent::SeedTurnCompleted => DistillProgressEventView::SeedTurnCompleted,
            DistillProgressEvent::ArchivingSource => DistillProgressEventView::ArchivingSource,
            DistillProgressEvent::Completed { preview_only, successor_thread_id } => {
                DistillProgressEventView::Completed {
                    preview_only,
                    successor_thread_id: text::opt_text(successor_thread_id),
                }
            },
        }
    }
}

impl DeepView for DistillProgressEvent {
    type V = DistillProgressEventView;

    open spec fn deep_view(&self) -> DistillProgressEventView {
        self@
    }
}

impl Clone for DistillProgressEvent {
    fn clone(&self) -> (out: Self)
        ensures
            out@ == self@,
    {
        match self {
            DistillProgressEvent::ResolvingTarget => DistillProgressEvent::ResolvingTarget,
            DistillProgressEvent::LoadingSessionSummary => {
                DistillProgressEvent::LoadingSessionSummary
            },
            DistillProgressEvent::RebuildingHistory => DistillProgressEvent::RebuildingHistory,
            DistillProgressEvent::ReadingRolloutLines => DistillProgressEvent::ReadingRolloutLines,
            DistillProgressEvent::AnalyzingHistory { history_items, raw_lines } => {
                DistillProgressEvent::AnalyzingHistory {
                    history_items: *history_items,
                    raw_lines: *raw_lines,
                }
            },
            DistillProgressEvent::BuildingDeterministicBrief => {
                DistillProgressEvent::BuildingDeterministicBrief
            },
            DistillProgressEvent::DeterministicBriefReady {
                user_messages,
                assistant_messages,
                durable_guidance,
                estimated_tokens,
            } => {
                DistillProgressEvent::DeterministicBriefReady {
                    user_messages: *user_messages,
                    assistant_messages: *assistant_messages,
                    durable_guidance: *durable_guidance,
                    estimated_tokens: *estimated_tokens,
                }
            },
            DistillProgressEvent::ResolvingRuntimeConfig => {
                DistillProgressEvent::ResolvingRuntimeConfig
            },
            DistillProgressEvent::StartingCodexDistillation => {
                DistillProgressEvent::StartingCodexDistillation
            },
            DistillProgressEvent::CodexEphemeralThreadStarted => {
                DistillProgressEvent::CodexEphemeralThreadStarted
            },
            DistillProgressEvent::CodexTurnSubmitted => DistillProgressEvent::CodexTurnSubmitted,
            DistillProgressEvent::CodexDistillationCompleted { estimated_tokens } => {
                DistillProgressEvent::CodexDistillationCompleted {
                    estimated_tokens: *estimated_tokens,
                }
            },
            DistillProgressEvent::CodexDistillationFallback { error, estimated_tokens } => {
                DistillProgressEvent::CodexDistillationFallback {
                    error: error.clone(),
                    estimated_tokens: *estimated_tokens,
                }
            },
            DistillProgressEvent::BuildingReport => DistillProgressEvent::BuildingReport,
            DistillProgressEvent::PreviewReady => DistillProgressEvent::PreviewReady,
            DistillProgressEvent::WritingProfile { profile } => {
                DistillProgressEvent::WritingProfile { profile: profile.clone() }
            },
            DistillProgressEvent::StartingSuccessorThread => {
                DistillProgressEvent::StartingSuccessorThread
            },
            DistillProgressEvent::SuccessorThreadNamed { thread_name } => {
                DistillProgressEvent::SuccessorThreadNamed { thread_name: thread_name.clone() }
            },
            DistillProgressEvent::SeedingSuccessorThread => {
                DistillProgressEvent::SeedingSuccessorThread
            },
            DistillProgressEvent::SeedTurnCompleted => DistillProgressEvent::SeedTurnCompleted,
            DistillProgressEvent::ArchivingSource => DistillProgressEvent::ArchivingSource,
            DistillProgressEvent::Completed { preview_only, successor_thread_id } => {
                DistillProgressEvent::Completed {
                    preview_only: *preview_only,
                    successor_thread_id: clone_opt(successor_thread_id),
                }
            },
        }
    }
}

/// A step of a smart switch.
#[derive(Debug, PartialEq, Eq)]
pub enum SmartProgressEvent {
    StrategyConfirmed {
        strategy: SmartStrategyKind,
        provider: String,
        model: String,
        target_context_window: Option<i64>,
    },
    StartingDistill { mode: DistillMode, compression_level: DistillCompressionLevel },
    CheckingContextWindow { current_tokens: i64, target_window: i64 },
    RunningCompaction { attempt: u32, max_attempts: u32 },
    ReloadingSummaryAfterCompaction { attempt: u32 },
    WritingProfile { profile: String },
    RepairingResumeState { provider: String, model: String, context_window: Option<i64> },
    SnapshottingThreadList,
    RunningMigration,
    RefreshingThreadList,
    Completed { thread_id: Option<String> },
}

/// What a [`SmartProgressEvent`] stands for.
pub enum SmartProgressEventView {
    StrategyConfirmed {
        strategy: SmartStrategyKind,
        provider: Seq<char>,
        model: Seq<char>,
        target_context_window: Option<i64>,
    },
    StartingDistill { mode: DistillMode, compression_level: DistillCompressionLevel },
    CheckingContextWindow { current_tokens: i64, target_window: i64 },
    RunningCompaction { attempt: u32, max_attempts: u32 },
    ReloadingSummaryAfterCompaction { attempt: u32 },
    WritingProfile { profile: Seq<char> },
    RepairingResumeState { provider: Seq<char>, model: Seq<char>, context_window: Option<i64> },
    SnapshottingThreadList,
    RunningMigration,
    RefreshingThreadList,
    Completed { thread_id: Option<Seq<char>> },
}

impl View for SmartProgressEvent {
    type V = SmartProgressEventView;

    open spec fn view(&self) -> SmartProgressEventView {
        match *self {
            SmartProgressEvent::StrategyConfirmed {
                strategy,
                provider,
                model,
                target_context_window,
            } => {
                SmartProgressEventView::StrategyConfirmed {
                    strategy,
                    provider: provider@,
                    model: model@,
                    target_context_window,
                }
            },
            SmartProgressEvent::StartingDistill { mode, compression_level } => {
                SmartProgressEventView::StartingDistill { mode, compression_level }
            },
            SmartProgressEvent::CheckingContextWindow { current_tokens, target_window } => {
                SmartProgressEventView::CheckingContextWindow { current_tokens, target_window }
            },
            SmartProgressEvent::RunningCompaction { attempt, max_attempts } => {
                SmartProgressEventView::RunningCompaction { attempt, max_attempts }
            },
            SmartProgressEvent::ReloadingSummaryAfterCompaction { attempt } => {
                SmartProgressEventView::ReloadingSummaryAfterCompaction { attempt }
            },
            SmartProgressEvent::WritingProfile { profile } => {
                SmartProgressEventView::WritingProfile { profile: profile@ }
            },
            SmartProgressEvent::RepairingResumeState { provider, model, context_window } => {
                SmartProgressEventView::RepairingResumeState {
                    provider: provider@,
                    model: model@,
                    context_window,
                }
            },
            SmartProgressEvent::SnapshottingThreadList => {
                SmartProgressEventView::SnapshottingThreadList
            },
            SmartProgressEvent::RunningMigration => SmartProgressEventView::RunningMigration,
            SmartProgressEvent::RefreshingThreadList => {
                SmartProgressEventView::RefreshingThreadList
            },
            SmartProgressEvent::Completed { thread_id } => SmartProgressEventView::Completed {
                thread_id: text::opt_text(thread_id),
            },
        }
    }
}

impl DeepView for SmartProgressEvent {
    type V = SmartProgressEventView;

    open spec fn deep_view(&self) -> SmartProgressEventView {
        self@
    }
}

impl Clone for SmartProgressEvent {
    fn clone(&self) -> (out: Self)
        ensures
            out@ == self@,
    {
        match self {
            SmartProgressEvent::StrategyConfirmed {
                strategy,
                provider,
                model,
                target_context_window,
            } => {
                SmartProgressEvent::StrategyConfirmed {
                    strategy: *strategy,
                    provider: provider.clone(),
                    model: model.clone(),
                    target_context_window: *target_context_window,
                }
            },
            SmartProgressEvent::StartingDistill { mode, compression_level } => {
                SmartProgressEvent::StartingDistill {
                    mode: *mode,
                    compression_level: *compression_level,
                }
            },
            SmartProgressEvent::CheckingContextWindow { current_tokens, target_window } => {
                SmartProgressEvent::CheckingContextWindow {
                    current_tokens: *current_tokens,
                    target_window: *target_window,
                }
            },
            SmartProgressEvent::RunningCompaction { attempt, max_attempts } => {
                SmartProgressEvent::RunningCompaction {
                    attempt: *attempt,
                    max_attempts: *max_attempts,
                }
            },
            SmartProgressEvent::ReloadingSummaryAfterCompaction { attempt } => {
                SmartProgressEvent::ReloadingSummaryAfterCompaction { attempt: *attempt }
            },
            SmartProgressEvent::WritingProfile { profile } => SmartProgressEvent::WritingProfile {
                profile: profile.clone(),
            },
            SmartProgressEvent::RepairingResumeState { provider, model, context_window } => {
                SmartProgressEvent::RepairingResumeState {
                    provider: provider.clone(),
                    model: model.clone(),
                    context_window: *context_window,
                }
            },
            SmartProgressEvent::SnapshottingThreadList => {
                SmartProgressEvent::SnapshottingThreadList
            },
            SmartProgressEvent::RunningMigration => SmartProgressEvent::RunningMigration,
            SmartProgressEvent::RefreshingThreadList => SmartProgressEvent::RefreshingThreadList,
            SmartProgressEvent::Completed { thread_id } => SmartProgressEvent::Completed {
                thread_id: clone_opt(thread_id),
            },
        }
    }
}

/// A step of an operation.
#[derive(Debug, PartialEq, Eq)]
pub enum OperationProgressEvent {
    Distill(DistillProgressEvent),
    Smart(SmartProgressEvent),
}

/// What a [`OperationProgressEvent`] stands for.
pub enum OperationProgressEventView {
    Distill(DistillProgressEventView),
    Smart(SmartProgressEventView),
}

impl View for OperationProgressEvent {
    type V = OperationProgressEventView;

    open spec fn view(&self) -> OperationProgressEventView {
        match *self {
            OperationProgressEvent::Distill(f0) => OperationProgressEventView::Distill(f0@),
            OperationProgressEvent::Smart(f0) => OperationProgressEventView::Smart(f0@),
        }
    }
}

impl DeepView for OperationProgressEvent {
    type V = OperationProgressEventView;

    open spec fn deep_view(&self) -> OperationProgressEventView {
        self@
    }
}

impl Clone for OperationProgressEvent {
    fn clone(&self) -> (out: Self)
        ensures
            out@ == self@,
    {
        match self {
            OperationProgressEvent::Distill(f0) => OperationProgressEvent::Distill(f0.clone()),
            OperationProgressEvent::Smart(f0) => OperationProgressEvent::Smart(f0.clone()),
        }
    }
}

/// Reports a step to whoever listens. Without a listener nothing happens.
pub fn emit_progress(
    progress: &mut Option<Vec<OperationProgressEvent>>,
    event: OperationProgressEvent,
)
    ensures
        match *old(progress) {
            Some(heard) => *final(progress) matches Some(now) && now@ == heard@.push(event),
            None => *final(progress) is None,
        },
{
    if let Some(heard) = progress {
        heard.push(event);
    }
}

} // verus!
