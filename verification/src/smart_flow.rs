//! Carrying out a smart switch, step by step.
//!
//! A caller performs the action of a step and comes back with an event.

use vstd::prelude::*;

use crate::cli::CompactArgs;
use crate::cli::CompactArgsView;
use crate::cli::DEFAULT_RECENT_TURNS;
use crate::cli::DistillArgs;
use crate::cli::DistillArgsView;
use crate::cli::DistillCompressionLevel;
use crate::cli::DistillMode;
use crate::cli::MigrateArgs;
use crate::cli::MigrateArgsView;
use crate::cli::RepairResumeStateArgs;
use crate::cli::RepairResumeStateArgsView;
use crate::cli::SmartArgs;
use crate::cli::SmartArgsView;
use crate::lines::holds_text;
use crate::migrate;
use crate::numbers;
use crate::numbers::bool_str;
use crate::numbers::i64_text;
use crate::numbers::opt_i64_text;
use crate::numbers::u32_text;
use crate::progress::SmartProgressEvent;
use crate::progress::SmartProgressEventView;
use crate::progress::SmartStrategyKind;
use crate::runtime;
use crate::runtime::render_profiled_resume_command;
use crate::smart;
use crate::smart::SmartExecutionMode;
use crate::smart::SmartExecutionOutput;
use crate::smart::SmartExecutionOutputView;
use crate::smart::SmartSelection;
use crate::smart::SmartSelectionView;
use crate::smart::choose_target_profile;
use crate::smart::planned_strategy;
use crate::text;
use crate::text::cat2;
use crate::text::cat5;
use crate::text::cat7;
use crate::text::clone_opt;
use crate::text::clone_texts;
use crate::text::no_texts;
use crate::text::opt_or;
use crate::text::or_opt;
use crate::text::push_text;
use crate::text::same_text;
use crate::types::RuntimeConfig;
use crate::types::RuntimeConfigView;
use crate::types::SessionSummary;
use crate::types::SessionSummaryView;

verus! {

/// A session as a list of sessions shows it.
#[derive(Debug, PartialEq, Eq)]
pub struct ThreadPlace {
    pub thread_id: Option<String>,
    pub path: String,
}

/// What a [`ThreadPlace`] stands for.
pub struct ThreadPlaceView {
    pub thread_id: Option<Seq<char>>,
    pub path: Seq<char>,
}

impl View for ThreadPlace {
    type V = ThreadPlaceView;

    open spec fn view(&self) -> ThreadPlaceView {
        ThreadPlaceView {
            thread_id: text::opt_text(self.thread_id),
            path: self.path@,
        }
    }
}

impl DeepView for ThreadPlace {
    type V = ThreadPlaceView;

    open spec fn deep_view(&self) -> ThreadPlaceView {
        self@
    }
}

impl Clone for ThreadPlace {
    fn clone(&self) -> (out: Self)
        ensures
            out@ == self@,
    {
        ThreadPlace {
            thread_id: clone_opt(&self.thread_id),
            path: self.path.clone(),
        }
    }
}

/// How far a switch has come.
#[derive(Debug, PartialEq, Eq)]
pub struct SmartRun {
    pub args: SmartArgs,
    pub selection: SmartSelection,
    pub current_provider: String,
    pub current_model: String,
    pub target_profile: String,
    pub strategy: SmartStrategyKind,
    pub rollout_path: String,
    pub thread_name: Option<String>,
    pub archived: bool,
    /// What the session reports now.
    pub context_tokens: Option<i64>,
    pub context_window: Option<i64>,
    pub compactions_run: u32,
    /// The sessions that were there before a migration.
    pub known_threads: Vec<String>,
}

/// What a [`SmartRun`] stands for.
pub struct SmartRunView {
    pub args: SmartArgsView,
    pub selection: SmartSelectionView,
    pub current_provider: Seq<char>,
    pub current_model: Seq<char>,
    pub target_profile: Seq<char>,
    pub strategy: SmartStrategyKind,
    pub rollout_path: Seq<char>,
    pub thread_name: Option<Seq<char>>,
    pub archived: bool,
    pub context_tokens: Option<i64>,
    pub context_window: Option<i64>,
    pub compactions_run: u32,
    pub known_threads: Seq<Seq<char>>,
}

impl View for SmartRun {
    type V = SmartRunView;

    open spec fn view(&self) -> SmartRunView {
        SmartRunView {
            args: self.args@,
            selection: self.selection@,
            current_provider: self.current_provider@,
            current_model: self.current_model@,
            target_profile: self.target_profile@,
            strategy: self.strategy,
            rollout_path: self.rollout_path@,
            thread_name: text::opt_text(self.thread_name),
            archived: self.archived,
            context_tokens: self.context_tokens,
            context_window: self.context_window,
            compactions_run: self.compactions_run,
            known_threads: text::texts(self.known_threads@),
        }
    }
}

impl DeepView for SmartRun {
    type V = SmartRunView;

    open spec fn deep_view(&self) -> SmartRunView {
        self@
    }
}

impl Clone for SmartRun {
    fn clone(&self) -> (out: Self)
        ensures
            out@ == self@,
    {
        SmartRun {
            args: self.args.clone(),
            selection: self.selection.clone(),
            current_provider: self.current_provider.clone(),
            current_model: self.current_model.clone(),
            target_profile: self.target_profile.clone(),
            strategy: self.strategy,
            rollout_path: self.rollout_path.clone(),
            thread_name: clone_opt(&self.thread_name),
            archived: self.archived,
            context_tokens: self.context_tokens,
            context_window: self.context_window,
            compactions_run: self.compactions_run,
            known_threads: clone_texts(&self.known_threads),
        }
    }
}

/// What has happened.
#[derive(Debug, PartialEq, Eq)]
pub enum SmartEvent {
    Started,
    Distilled {
        successor_thread_id: Option<String>,
        successor_rollout_path: Option<String>,
        lines: Vec<String>,
    },
    Compacted,
    SummaryReloaded { context_tokens: Option<i64>, context_window: Option<i64> },
    ProfileWritten,
    ResumeStateRepaired,
    /// The id of the session was read; `resume` is the command that the runtime
    /// gives to resume it.
    ThreadIdRead { thread_id: String, resume: Option<String> },
    ThreadsListed { ids: Vec<String> },
    Migrated,
    ThreadsRefreshed { threads: Vec<ThreadPlace> },
}

/// What a [`SmartEvent`] stands for.
pub enum SmartEventView {
    Started,
    Distilled {
        successor_thread_id: Option<Seq<char>>,
        successor_rollout_path: Option<Seq<char>>,
        lines: Seq<Seq<char>>,
    },
    Compacted,
    SummaryReloaded { context_tokens: Option<i64>, context_window: Option<i64> },
    ProfileWritten,
    ResumeStateRepaired,
    ThreadIdRead { thread_id: Seq<char>, resume: Option<Seq<char>> },
    ThreadsListed { ids: Seq<Seq<char>> },
    Migrated,
    ThreadsRefreshed { threads: Seq<ThreadPlaceView> },
}

impl View for SmartEvent {
    type V = SmartEventView;

    open spec fn view(&self) -> SmartEventView {
        match *self {
            SmartEvent::Started => SmartEventView::Started,
            SmartEvent::Distilled { successor_thread_id, successor_rollout_path, lines } => {
                SmartEventView::Distilled {
                    successor_thread_id: text::opt_text(successor_thread_id),
                    successor_rollout_path: text::opt_text(successor_rollout_path),
                    lines: text::texts(lines@),
                }
            },
            SmartEvent::Compacted => SmartEventView::Compacted,
            SmartEvent::SummaryReloaded { context_tokens, context_window } => {
                SmartEventView::SummaryReloaded { context_tokens, context_window }
            },
            SmartEvent::ProfileWritten => SmartEventView::ProfileWritten,
            SmartEvent::ResumeStateRepaired => SmartEventView::ResumeStateRepaired,
            SmartEvent::ThreadIdRead { thread_id, resume } => SmartEventView::ThreadIdRead {
                thread_id: thread_id@,
                resume: text::opt_text(resume),
            },
            SmartEvent::ThreadsListed { ids } => SmartEventView::ThreadsListed {
                ids: text::texts(ids@),
            },
            SmartEvent::Migrated => SmartEventView::Migrated,
            SmartEvent::ThreadsRefreshed { threads } => SmartEventView::ThreadsRefreshed {
                threads: threads.deep_view(),
            },
        }
    }
}

impl DeepView for SmartEvent {
    type V = SmartEventView;

    open spec fn deep_view(&self) -> SmartEventView {
        self@
    }
}

impl Clone for SmartEvent {
    fn clone(&self) -> (out: Self)
        ensures
            out@ == self@,
    {
        match self {
            SmartEvent::Started => SmartEvent::Started,
            SmartEvent::Distilled { successor_thread_id, successor_rollout_path, lines } => {
                SmartEvent::Distilled {
                    successor_thread_id: clone_opt(successor_thread_id),
                    successor_rollout_path: clone_opt(successor_rollout_path),
                    lines: clone_texts(lines),
                }
            },
            SmartEvent::Compacted => SmartEvent::Compacted,
            SmartEvent::SummaryReloaded { context_tokens, context_window } => {
                SmartEvent::SummaryReloaded {
                    context_tokens: *context_tokens,
                    context_window: *context_window,
                }
            },
            SmartEvent::ProfileWritten => SmartEvent::ProfileWritten,
            SmartEvent::ResumeStateRepaired => SmartEvent::ResumeStateRepaired,
            SmartEvent::ThreadIdRead { thread_id, resume } => SmartEvent::ThreadIdRead {
                thread_id: thread_id.clone(),
                resume: clone_opt(resume),
            },
            SmartEvent::ThreadsListed { ids } => SmartEvent::ThreadsListed {
                ids: clone_texts(ids),
            },
            SmartEvent::Migrated => SmartEvent::Migrated,
            SmartEvent::ThreadsRefreshed { threads } => {
                let copy_of_threads = threads.clone();
                assert(copy_of_threads.deep_view() =~= threads.deep_view());
                SmartEvent::ThreadsRefreshed { threads: copy_of_threads }
            },
        }
    }
}

/// Why a switch fails.
#[derive(Debug, Clone, Copy, PartialEq, Eq, Structural)]
pub enum SmartError {
    ArchivedTooLarge { context_tokens: i64, target_window: i64 },
    StillTooLarge { compactions: u32, context_tokens: i64, target_window: i64 },
}

/// The message for an error.
pub open spec fn smart_error_text(error: SmartError) -> Seq<char> {
    match error {
        SmartError::ArchivedTooLarge { context_tokens, target_window } => "thread is archived and current context "@
            + numbers::decimal(context_tokens as int)
            + " exceeds target window "@
            + numbers::decimal(target_window as int)
            + "; unarchive it before smart switching"@,
        SmartError::StillTooLarge { compactions, context_tokens, target_window } => "thread still exceeds target window after "@
            + numbers::decimal(compactions as int)
            + " compactions (current_context_tokens="@
            + numbers::decimal(context_tokens as int)
            + ", target_window="@
            + numbers::decimal(target_window as int)
            + ")"@,
    }
}

/// The message for an error.
pub fn smart_error_message(error: SmartError) -> (out: String)
    ensures
        out@ == smart_error_text(error),
{
    match error {
        SmartError::ArchivedTooLarge { context_tokens, target_window } => cat5(
            "thread is archived and current context ",
            i64_text(context_tokens).as_str(),
            " exceeds target window ",
            i64_text(target_window).as_str(),
            "; unarchive it before smart switching",
        ),
        SmartError::StillTooLarge { compactions, context_tokens, target_window } => cat7(
            "thread still exceeds target window after ",
            u32_text(compactions).as_str(),
            " compactions (current_context_tokens=",
            i64_text(context_tokens).as_str(),
            ", target_window=",
            i64_text(target_window).as_str(),
            ")",
        ),
    }
}

/// What is to be done.
#[derive(Debug, PartialEq, Eq)]
pub enum SmartAction {
    Distill { distill_args: DistillArgs },
    Compact { compact_args: CompactArgs },
    ReloadSummary,
    WriteProfile { profile: String },
    RepairResumeState { repair_args: RepairResumeStateArgs },
    ReadThreadId,
    ListThreads,
    Migrate { migrate_args: MigrateArgs },
    RefreshThreads { config_profile: Option<String> },
    Done { output: SmartExecutionOutput },
    Fail { error: SmartError },
}

/// What a [`SmartAction`] stands for.
pub enum SmartActionView {
    Distill { distill_args: DistillArgsView },
    Compact { compact_args: CompactArgsView },
    ReloadSummary,
    WriteProfile { profile: Seq<char> },
    RepairResumeState { repair_args: RepairResumeStateArgsView },
    ReadThreadId,
    ListThreads,
    Migrate { migrate_args: MigrateArgsView },
    RefreshThreads { config_profile: Option<Seq<char>> },
    Done { output: SmartExecutionOutputView },
    Fail { error: SmartError },
}

impl View for SmartAction {
    type V = SmartActionView;

    open spec fn view(&self) -> SmartActionView {
        match *self {
            SmartAction::Distill { distill_args } => SmartActionView::Distill {
                distill_args: distill_args@,
            },
            SmartAction::Compact { compact_args } => SmartActionView::Compact {
                compact_args: compact_args@,
            },
            SmartAction::ReloadSummary => SmartActionView::ReloadSummary,
            SmartAction::WriteProfile { profile } => SmartActionView::WriteProfile {
                profile: profile@,
            },
            SmartAction::RepairResumeState { repair_args } => SmartActionView::RepairResumeState {
                repair_args: repair_args@,
            },
            SmartAction::ReadThreadId => SmartActionView::ReadThreadId,
            SmartAction::ListThreads => SmartActionView::ListThreads,
            SmartAction::Migrate { migrate_args } => SmartActionView::Migrate {
                migrate_args: migrate_args@,
            },
            SmartAction::RefreshThreads { config_profile } => SmartActionView::RefreshThreads {
                config_profile: text::opt_text(config_profile),
            },
            SmartAction::Done { output } => SmartActionView::Done { output: output@ },
            SmartAction::Fail { error } => SmartActionView::Fail { error },
        }
    }
}

impl DeepView for SmartAction {
    type V = SmartActionView;

    open spec fn deep_view(&self) -> SmartActionView {
        self@
    }
}

impl Clone for SmartAction {
    fn clone(&self) -> (out: Self)
        ensures
            out@ == self@,
    {
        match self {
            SmartAction::Distill { distill_args } => SmartAction::Distill {
                distill_args: distill_args.clone(),
            },
            SmartAction::Compact { compact_args } => SmartAction::Compact {
                compact_args: compact_args.clone(),
            },
            SmartAction::ReloadSummary => SmartAction::ReloadSummary,
            SmartAction::WriteProfile { profile } => SmartAction::WriteProfile {
                profile: profile.clone(),
            },
            SmartAction::RepairResumeState { repair_args } => SmartAction::RepairResumeState {
                repair_args: repair_args.clone(),
            },
            SmartAction::ReadThreadId => SmartAction::ReadThreadId,
            SmartAction::ListThreads => SmartAction::ListThreads,
            SmartAction::Migrate { migrate_args } => SmartAction::Migrate {
                migrate_args: migrate_args.clone(),
            },
            SmartAction::RefreshThreads { config_profile } => SmartAction::RefreshThreads {
                config_profile: clone_opt(config_profile),
            },
            SmartAction::Done { output } => SmartAction::Done { output: output.clone() },
            SmartAction::Fail { error } => SmartAction::Fail { error: *error },
        }
    }
}

/// One step of a switch.
#[derive(Debug, PartialEq, Eq)]
pub struct SmartFlowStep {
    pub run: SmartRun,
    pub progress: Vec<SmartProgressEvent>,
    pub action: SmartAction,
}

/// What a [`SmartFlowStep`] stands for.
pub struct SmartFlowStepView {
    pub run: SmartRunView,
    pub progress: Seq<SmartProgressEventView>,
    pub action: SmartActionView,
}

impl View for SmartFlowStep {
    type V = SmartFlowStepView;

    open spec fn view(&self) -> SmartFlowStepView {
        SmartFlowStepView {
            run: self.run@,
            progress: self.progress.deep_view(),
            action: self.action@,
        }
    }
}

impl DeepView for SmartFlowStep {
    type V = SmartFlowStepView;

    open spec fn deep_view(&self) -> SmartFlowStepView {
        self@
    }
}

impl Clone for SmartFlowStep {
    fn clone(&self) -> (out: Self)
        ensures
            out@ == self@,
    {
        let out = SmartFlowStep {
            run: self.run.clone(),
            progress: self.progress.clone(),
            action: self.action.clone(),
        };
        assert(out.progress.deep_view() =~= self.progress.deep_view());
        out
    }
}

/// A run at its beginning.
pub open spec fn run_of(
    args: SmartArgsView,
    source: RuntimeConfigView,
    summary: SessionSummaryView,
    selection: SmartSelectionView,
) -> SmartRunView {
    let current_provider = smart::provider_of(summary, source);
    let current_model = smart::model_of(summary, source);
    SmartRunView {
        args,
        selection,
        current_provider,
        current_model,
        target_profile: smart::target_profile(args, selection),
        strategy: smart::kind_of(
            smart::session_strategy(summary, current_provider, current_model, selection),
        ),
        rollout_path: summary.rollout_path,
        thread_name: summary.thread_name,
        archived: summary.archived,
        context_tokens: summary.latest_context_tokens,
        context_window: summary.latest_model_context_window,
        compactions_run: 0,
        known_threads: Seq::empty(),
    }
}

impl SmartRun {
    /// A run at its beginning.
    pub fn new(
        args: &SmartArgs,
        source_config: &RuntimeConfig,
        summary: &SessionSummary,
        selection: &SmartSelection,
    ) -> (out: Self)
        ensures
            out@ == run_of(args@, source_config@, summary@, selection@),
    {
        let current_provider = opt_or(
            &summary.session_provider,
            source_config.model_provider_id.as_str(),
        );
        let current_model = opt_or(&or_opt(&summary.latest_model, &source_config.model), "");
        let strategy = planned_strategy(
            summary,
            current_provider.as_str(),
            current_model.as_str(),
            selection,
        );
        SmartRun {
            args: args.clone(),
            selection: selection.clone(),
            current_provider,
            current_model,
            target_profile: choose_target_profile(args, selection),
            strategy,
            rollout_path: summary.rollout_path.clone(),
            thread_name: clone_opt(&summary.thread_name),
            archived: summary.archived,
            context_tokens: summary.latest_context_tokens,
            context_window: summary.latest_model_context_window,
            compactions_run: 0,
            known_threads: no_texts(),
        }
    }
}

/// The mode of a distillation for a mode of a switch.
pub open spec fn distill_mode_of(mode: SmartExecutionMode) -> DistillMode {
    if mode == SmartExecutionMode::DistillDeterministic {
        DistillMode::Deterministic
    } else {
        DistillMode::Codex
    }
}

/// The distillation that a switch asks for.
pub open spec fn distill_args_of(run: SmartRunView) -> DistillArgsView {
    DistillArgsView {
        target: run.args.target,
        provider: Some(run.selection.provider),
        model: Some(run.selection.model),
        context_window: run.selection.target_context_window,
        auto_compact_token_limit: run.selection.target_auto_compact_token_limit,
        distill_mode: distill_mode_of(run.selection.execution_mode),
        compression_level: DistillCompressionLevel::Balanced,
        reasoning_effort: None,
        thread_name: run.thread_name,
        write_profile: Some(run.target_profile),
        archive_source: run.args.archive_source,
        preview_only: false,
        json: false,
        recent_turns: DEFAULT_RECENT_TURNS,
        timeout_secs: run.args.timeout_secs,
    }
}

/// The migration that a switch asks for.
pub open spec fn migrate_args_of(run: SmartRunView) -> MigrateArgsView {
    MigrateArgsView {
        target: run.args.target,
        model: Some(run.selection.model),
        provider: Some(run.selection.provider),
        context_window: run.selection.target_context_window,
        auto_compact_token_limit: run.selection.target_auto_compact_token_limit,
        write_profile: Some(run.target_profile),
        thread_name: run.thread_name,
        persist_extended_history: false,
        nth_user_message: None,
        force_compact: false,
        max_pre_compactions: run.args.max_pre_compactions,
        archive_source: run.args.archive_source,
        timeout_secs: run.args.timeout_secs,
    }
}

/// The repair that a switch asks for.
pub open spec fn repair_args_of(run: SmartRunView) -> RepairResumeStateArgsView {
    RepairResumeStateArgsView {
        target: run.args.target,
        context_window: run.selection.target_context_window,
        model: Some(run.selection.model),
        provider: Some(run.selection.provider),
    }
}

fn make_distill_args(run: &SmartRun) -> (out: DistillArgs)
    ensures
        out@ == distill_args_of(run@),
{
    DistillArgs {
        target: run.args.target.clone(),
        provider: Some(run.selection.provider.clone()),
        model: Some(run.selection.model.clone()),
        context_window: run.selection.target_context_window,
        auto_compact_token_limit: run.selection.target_auto_compact_token_limit,
        distill_mode: choose_distill_mode(run.selection.execution_mode),
        compression_level: DistillCompressionLevel::Balanced,
        reasoning_effort: None,
        thread_name: clone_opt(&run.thread_name),
        write_profile: Some(run.target_profile.clone()),
        archive_source: run.args.archive_source,
        preview_only: false,
        json: false,
        recent_turns: DEFAULT_RECENT_TURNS,
        timeout_secs: run.args.timeout_secs,
    }
}

fn choose_distill_mode(mode: SmartExecutionMode) -> (out: DistillMode)
    ensures
        out == distill_mode_of(mode),
{
    match mode {
        SmartExecutionMode::DistillDeterministic => DistillMode::Deterministic,
        _ => DistillMode::Codex,
    }
}

fn make_migrate_args(run: &SmartRun) -> (out: MigrateArgs)
    ensures
        out@ == migrate_args_of(run@),
{
    MigrateArgs {
        target: run.args.target.clone(),
        model: Some(run.selection.model.clone()),
        provider: Some(run.selection.provider.clone()),
        context_window: run.selection.target_context_window,
        auto_compact_token_limit: run.selection.target_auto_compact_token_limit,
        write_profile: Some(run.target_profile.clone()),
        thread_name: clone_opt(&run.thread_name),
        persist_extended_history: false,
        nth_user_message: None,
        force_compact: false,
        max_pre_compactions: run.args.max_pre_compactions,
        archive_source: run.args.archive_source,
        timeout_secs: run.args.timeout_secs,
    }
}

fn make_repair_args(run: &SmartRun) -> (out: RepairResumeStateArgs)
    ensures
        out@ == repair_args_of(run@),
{
    RepairResumeStateArgs {
        target: run.args.target.clone(),
        context_window: run.selection.target_context_window,
        model: Some(run.selection.model.clone()),
        provider: Some(run.selection.provider.clone()),
    }
}

// --------------------------------------------------------------------------- outputs

/// The lines for a switch in the same session.
pub open spec fn same_thread_text(run: SmartRunView, resume_command: Seq<char>) -> Seq<Seq<char>> {
    let lines = Seq::<Seq<char>>::empty();
    let lines = lines.push("smart_strategy: same-thread"@);
    let lines = lines.push("target_provider: "@ + run.selection.provider);
    let lines = lines.push("target_model: "@ + run.selection.model);
    let lines = lines.push("target_context_window: "@
            + numbers::opt_decimal(numbers::opt_int_i64(run.selection.target_context_window), ""@));
    let lines = lines.push("profile: "@ + run.target_profile);
    let lines = lines.push("resume_command: "@ + resume_command);
    lines
}

/// The lines for a switch in the same session.
pub fn same_thread_lines(run: &SmartRun, resume_command: &str) -> (out: Vec<String>)
    ensures
        text::reads(out@, same_thread_text(run@, resume_command@)),
{
    let mut lines = no_texts();
    push_text(&mut lines, "smart_strategy: same-thread".to_owned());
    push_text(&mut lines, cat2("target_provider: ", run.selection.provider.as_str()));
    push_text(&mut lines, cat2("target_model: ", run.selection.model.as_str()));
    push_text(
        &mut lines,
        cat2(
            "target_context_window: ",
            opt_i64_text(run.selection.target_context_window, "").as_str(),
        ),
    );
    push_text(&mut lines, cat2("profile: ", run.target_profile.as_str()));
    push_text(&mut lines, cat2("resume_command: ", resume_command));
    lines
}

/// The lines for a switch into another session.
pub open spec fn migrated_switch_text(run: SmartRunView) -> Seq<Seq<char>> {
    let lines = Seq::<Seq<char>>::empty();
    let lines = lines.push("smart_strategy: cross-provider-migrate"@);
    let lines = lines.push("target_provider: "@ + run.selection.provider);
    let lines = lines.push("target_model: "@ + run.selection.model);
    let lines = lines.push("target_context_window: "@
            + numbers::opt_decimal(numbers::opt_int_i64(run.selection.target_context_window), ""@));
    let lines = lines.push("profile: "@ + run.target_profile);
    let lines = lines.push("archive_source: "@ + numbers::bool_text(run.args.archive_source));
    lines
}

/// The lines for a switch into another session.
pub fn migrated_switch_lines(run: &SmartRun) -> (out: Vec<String>)
    ensures
        text::reads(out@, migrated_switch_text(run@)),
{
    let mut lines = no_texts();
    push_text(&mut lines, "smart_strategy: cross-provider-migrate".to_owned());
    push_text(&mut lines, cat2("target_provider: ", run.selection.provider.as_str()));
    push_text(&mut lines, cat2("target_model: ", run.selection.model.as_str()));
    push_text(
        &mut lines,
        cat2(
            "target_context_window: ",
            opt_i64_text(run.selection.target_context_window, "").as_str(),
        ),
    );
    push_text(&mut lines, cat2("profile: ", run.target_profile.as_str()));
    push_text(&mut lines, cat2("archive_source: ", bool_str(run.args.archive_source)));
    lines
}

/// The first session of a list that was not known before.
pub open spec fn new_thread(threads: Seq<ThreadPlaceView>, known: Seq<Seq<char>>) -> Option<
    ThreadPlaceView,
>
    decreases threads.len(),
{
    if threads.len() == 0 {
        None
    } else {
        match new_thread(threads.drop_last(), known) {
            Some(thread) => Some(thread),
            None => if threads.last().thread_id matches Some(id) && !known.contains(id) {
                Some(threads.last())
            } else {
                None
            },
        }
    }
}

proof fn new_thread_stays(threads: Seq<ThreadPlaceView>, count: int, known: Seq<Seq<char>>)
    requires
        0 <= count <= threads.len(),
        new_thread(threads.take(count), known) is Some,
    ensures
        new_thread(threads, known) == new_thread(threads.take(count), known),
    decreases threads.len() - count,
{
    if count == threads.len() {
        assert(threads.take(count) =~= threads);
    } else {
        assert(threads.take(count + 1).drop_last() =~= threads.take(count));
        new_thread_stays(threads, count + 1, known);
    }
}

fn find_new_thread(threads: &Vec<ThreadPlace>, known: &Vec<String>) -> (out: Option<ThreadPlace>)
    ensures
        out.deep_view() == new_thread(threads.deep_view(), text::texts(known@)),
{
    let ghost all = threads.deep_view();
    assert(all.take(0) =~= Seq::<ThreadPlaceView>::empty());
    for i in 0..threads.len()
        invariant
            all == threads.deep_view(),
            new_thread(all.take(i as int), text::texts(known@)) is None,
    {
        assert(all.take(i + 1).drop_last() =~= all.take(i as int));
        assert(all[i as int] == threads@[i as int]@);
        if let Some(id) = &threads[i].thread_id {
            if !holds_text(known, id.as_str()) {
                proof {
                    new_thread_stays(all, i + 1, text::texts(known@));
                }
                return Some(threads[i].clone());
            }
        }
    }
    assert(all.take(all.len() as int) =~= all);
    None
}

// ----------------------------------------------------------------------------- steps

pub open spec fn step(
    run: SmartRunView,
    progress: Seq<SmartProgressEventView>,
    action: SmartActionView,
) -> SmartFlowStepView {
    SmartFlowStepView { run, progress, action }
}

/// The step that writes the profile, behind the given progress.
pub open spec fn write_step(
    run: SmartRunView,
    progress: Seq<SmartProgressEventView>,
) -> SmartFlowStepView {
    step(
        run,
        progress.push(SmartProgressEventView::WritingProfile { profile: run.target_profile }),
        SmartActionView::WriteProfile { profile: run.target_profile },
    )
}

/// The step of a switch in the same session, given what the session reports:
/// compact it while it is too large, then write the profile.
pub open spec fn window_step(
    run: SmartRunView,
    progress: Seq<SmartProgressEventView>,
) -> SmartFlowStepView {
    match (run.selection.target_context_window, run.context_tokens) {
        (Some(window), Some(tokens)) => {
            let checked = progress.push(
                SmartProgressEventView::CheckingContextWindow {
                    current_tokens: tokens,
                    target_window: window,
                },
            );
            if tokens <= window {
                write_step(run, checked)
            } else if run.archived {
                step(
                    run,
                    checked,
                    SmartActionView::Fail {
                        error: SmartError::ArchivedTooLarge {
                            context_tokens: tokens,
                            target_window: window,
                        },
                    },
                )
            } else if run.compactions_run >= run.args.max_pre_compactions {
                step(
                    run,
                    checked,
                    SmartActionView::Fail {
                        error: SmartError::StillTooLarge {
                            compactions: run.args.max_pre_compactions,
                            context_tokens: tokens,
                            target_window: window,
                        },
                    },
                )
            } else {
                let attempt = (run.compactions_run + 1) as u32;
                step(
                    SmartRunView { compactions_run: attempt, ..run },
                    checked.push(
                        SmartProgressEventView::RunningCompaction {
                            attempt,
                            max_attempts: run.args.max_pre_compactions,
                        },
                    ),
                    SmartActionView::Compact {
                        compact_args: CompactArgsView {
                            target: run.args.target,
                            timeout_secs: run.args.timeout_secs,
                        },
                    },
                )
            }
        },
        _ => write_step(run, progress),
    }
}

/// The first step of a switch.
pub open spec fn first_step(run: SmartRunView) -> SmartFlowStepView {
    let progress = seq![
        SmartProgressEventView::StrategyConfirmed {
            strategy: run.strategy,
            provider: run.selection.provider,
            model: run.selection.model,
            target_context_window: run.selection.target_context_window,
        },
    ];
    if run.selection.execution_mode != SmartExecutionMode::Direct {
        step(
            run,
            progress.push(
                SmartProgressEventView::StartingDistill {
                    mode: distill_mode_of(run.selection.execution_mode),
                    compression_level: DistillCompressionLevel::Balanced,
                },
            ),
            SmartActionView::Distill { distill_args: distill_args_of(run) },
        )
    } else if run.selection.provider == run.current_provider {
        window_step(run, progress)
    } else {
        step(
            run,
            progress.push(SmartProgressEventView::SnapshottingThreadList),
            SmartActionView::ListThreads,
        )
    }
}

/// The step once the profile is written.
pub open spec fn profile_written_step(run: SmartRunView) -> SmartFlowStepView {
    if smart::repairs_resume_state(run.selection, run.current_model, run.context_window)
        && run.selection.target_context_window is Some {
        step(
            run,
            seq![
                SmartProgressEventView::RepairingResumeState {
                    provider: run.selection.provider,
                    model: run.selection.model,
                    context_window: run.selection.target_context_window,
                },
            ],
            SmartActionView::RepairResumeState { repair_args: repair_args_of(run) },
        )
    } else {
        step(run, Seq::empty(), SmartActionView::ReadThreadId)
    }
}

/// The last step of a switch in the same session.
pub open spec fn same_thread_done(
    run: SmartRunView,
    thread_id: Seq<char>,
    resume: Option<Seq<char>>,
) -> SmartFlowStepView {
    step(
        run,
        seq![SmartProgressEventView::Completed { thread_id: Some(thread_id) }],
        SmartActionView::Done {
            output: SmartExecutionOutputView {
                title: "Smart Switch Completed"@,
                lines: same_thread_text(
                    run,
                    runtime::resume_command_text(Some(run.target_profile), thread_id, resume),
                ),
                preferred_thread_id: Some(thread_id),
                preferred_rollout_path: Some(run.rollout_path),
            },
        },
    )
}

/// The last step of a switch into another session.
pub open spec fn migrated_done(
    run: SmartRunView,
    threads: Seq<ThreadPlaceView>,
) -> SmartFlowStepView {
    let successor = new_thread(threads, run.known_threads);
    let thread_id = match successor {
        Some(thread) => thread.thread_id,
        None => None,
    };
    step(
        run,
        seq![SmartProgressEventView::Completed { thread_id }],
        SmartActionView::Done {
            output: SmartExecutionOutputView {
                title: "Smart Switch Completed"@,
                lines: migrated_switch_text(run),
                preferred_thread_id: thread_id,
                preferred_rollout_path: match successor {
                    Some(thread) => Some(thread.path),
                    None => None,
                },
            },
        },
    )
}

/// The step after an event.
pub open spec fn smart_next(run: SmartRunView, event: SmartEventView) -> SmartFlowStepView {
    match event {
        SmartEventView::Started => first_step(run),
        SmartEventView::Distilled { successor_thread_id, successor_rollout_path, lines } => step(
            run,
            seq![SmartProgressEventView::Completed { thread_id: successor_thread_id }],
            SmartActionView::Done {
                output: SmartExecutionOutputView {
                    title: "Distilled Successor Ready"@,
                    lines,
                    preferred_thread_id: successor_thread_id,
                    preferred_rollout_path: successor_rollout_path,
                },
            },
        ),
        SmartEventView::Compacted => step(
            run,
            seq![
                SmartProgressEventView::ReloadingSummaryAfterCompaction {
                    attempt: run.compactions_run,
                },
            ],
            SmartActionView::ReloadSummary,
        ),
        SmartEventView::SummaryReloaded { context_tokens, context_window } => window_step(
            SmartRunView { context_tokens, context_window, ..run },
            Seq::empty(),
        ),
        SmartEventView::ProfileWritten => profile_written_step(run),
        SmartEventView::ResumeStateRepaired => step(
            run,
            Seq::empty(),
            SmartActionView::ReadThreadId,
        ),
        SmartEventView::ThreadIdRead { thread_id, resume } => same_thread_done(
            run,
            thread_id,
            resume,
        ),
        SmartEventView::ThreadsListed { ids } => step(
            SmartRunView { known_threads: ids, ..run },
            seq![SmartProgressEventView::RunningMigration],
            SmartActionView::Migrate { migrate_args: migrate_args_of(run) },
        ),
        SmartEventView::Migrated => step(
            run,
            seq![SmartProgressEventView::RefreshingThreadList],
            SmartActionView::RefreshThreads { config_profile: run.args.target.config_profile },
        ),
        SmartEventView::ThreadsRefreshed { threads } => migrated_done(run, threads),
    }
}

fn no_progress() -> (out: Vec<SmartProgressEvent>)
    ensures
        out.deep_view() == Seq::<SmartProgressEventView>::empty(),
{
    let out: Vec<SmartProgressEvent> = Vec::new();
    assert(out.deep_view() =~= Seq::<SmartProgressEventView>::empty());
    out
}

fn report(progress: &mut Vec<SmartProgressEvent>, event: SmartProgressEvent)
    ensures
        final(progress).deep_view() == old(progress).deep_view().push(event@),
{
    let ghost added = event@;
    progress.push(event);
    assert(progress.deep_view() =~= old(progress).deep_view().push(added));
}

fn one_report(event: SmartProgressEvent) -> (out: Vec<SmartProgressEvent>)
    ensures
        out.deep_view() == seq![event@],
{
    let ghost added = event@;
    let mut out = no_progress();
    report(&mut out, event);
    assert(out.deep_view() =~= seq![added]);
    out
}

fn write_profile_step(run: SmartRun, progress: Vec<SmartProgressEvent>) -> (out: SmartFlowStep)
    ensures
        out@ == write_step(run@, progress.deep_view()),
{
    let mut progress = progress;
    report(
        &mut progress,
        SmartProgressEvent::WritingProfile { profile: run.target_profile.clone() },
    );
    let profile = run.target_profile.clone();
    SmartFlowStep { run, progress, action: SmartAction::WriteProfile { profile } }
}

fn check_window(run: SmartRun, progress: Vec<SmartProgressEvent>) -> (out: SmartFlowStep)
    ensures
        out@ == window_step(run@, progress.deep_view()),
{
    match (run.selection.target_context_window, run.context_tokens) {
        (Some(target_window), Some(context_tokens)) => {
            let mut progress = progress;
            report(
                &mut progress,
                SmartProgressEvent::CheckingContextWindow {
                    current_tokens: context_tokens,
                    target_window,
                },
            );
            if context_tokens <= target_window {
                return write_profile_step(run, progress);
            }
            if run.archived {
                let error = SmartError::ArchivedTooLarge { context_tokens, target_window };
                return SmartFlowStep { run, progress, action: SmartAction::Fail { error } };
            }
            if run.compactions_run >= run.args.max_pre_compactions {
                let error = SmartError::StillTooLarge {
                    compactions: run.args.max_pre_compactions,
                    context_tokens,
                    target_window,
                };
                return SmartFlowStep { run, progress, action: SmartAction::Fail { error } };
            }
            let mut run = run;
            let attempt: u32 = run.compactions_run + 1;
            run.compactions_run = attempt;
            report(
                &mut progress,
                SmartProgressEvent::RunningCompaction {
                    attempt,
                    max_attempts: run.args.max_pre_compactions,
                },
            );
            let compact_args = CompactArgs {
                target: run.args.target.clone(),
                timeout_secs: run.args.timeout_secs,
            };
            SmartFlowStep { run, progress, action: SmartAction::Compact { compact_args } }
        },
        _ => write_profile_step(run, progress),
    }
}

fn begin(run: SmartRun) -> (out: SmartFlowStep)
    ensures
        out@ == first_step(run@),
{
    let mut progress = one_report(
        SmartProgressEvent::StrategyConfirmed {
            strategy: run.strategy,
            provider: run.selection.provider.clone(),
            model: run.selection.model.clone(),
            target_context_window: run.selection.target_context_window,
        },
    );
    if !matches!(run.selection.execution_mode, SmartExecutionMode::Direct) {
        report(
            &mut progress,
            SmartProgressEvent::StartingDistill {
                mode: choose_distill_mode(run.selection.execution_mode),
                compression_level: DistillCompressionLevel::Balanced,
            },
        );
        let distill_args = make_distill_args(&run);
        return SmartFlowStep { run, progress, action: SmartAction::Distill { distill_args } };
    }
    if same_text(run.selection.provider.as_str(), run.current_provider.as_str()) {
        return check_window(run, progress);
    }
    report(&mut progress, SmartProgressEvent::SnapshottingThreadList);
    SmartFlowStep { run, progress, action: SmartAction::ListThreads }
}

fn after_profile(run: SmartRun) -> (out: SmartFlowStep)
    ensures
        out@ == profile_written_step(run@),
{
    if run.selection.should_repair_resume_state(run.current_model.as_str(), run.context_window)
        && run.selection.target_context_window.is_some() {
        let progress = one_report(
            SmartProgressEvent::RepairingResumeState {
                provider: run.selection.provider.clone(),
                model: run.selection.model.clone(),
                context_window: run.selection.target_context_window,
            },
        );
        let repair_args = make_repair_args(&run);
        SmartFlowStep { run, progress, action: SmartAction::RepairResumeState { repair_args } }
    } else {
        SmartFlowStep { run, progress: no_progress(), action: SmartAction::ReadThreadId }
    }
}

fn finish_same_thread(run: SmartRun, thread_id: &str, resume: &Option<String>) -> (out:
    SmartFlowStep)
    ensures
        out@ == same_thread_done(run@, thread_id@, text::opt_text(*resume)),
{
    let progress = one_report(
        SmartProgressEvent::Completed { thread_id: Some(thread_id.to_owned()) },
    );
    let profile = Some(run.target_profile.clone());
    let command = render_profiled_resume_command(&profile, thread_id, resume);
    let output = SmartExecutionOutput {
        title: "Smart Switch Completed".to_owned(),
        lines: same_thread_lines(&run, command.as_str()),
        preferred_thread_id: Some(thread_id.to_owned()),
        preferred_rollout_path: Some(run.rollout_path.clone()),
    };
    SmartFlowStep { run, progress, action: SmartAction::Done { output } }
}

fn finish_migration(run: SmartRun, threads: &Vec<ThreadPlace>) -> (out: SmartFlowStep)
    ensures
        out@ == migrated_done(run@, threads.deep_view()),
{
    let mut preferred_thread_id: Option<String> = None;
    let mut preferred_rollout_path: Option<String> = None;
    if let Some(thread) = find_new_thread(threads, &run.known_threads) {
        preferred_thread_id = thread.thread_id;
        preferred_rollout_path = Some(thread.path);
    }
    let progress = one_report(
        SmartProgressEvent::Completed { thread_id: clone_opt(&preferred_thread_id) },
    );
    let output = SmartExecutionOutput {
        title: "Smart Switch Completed".to_owned(),
        lines: migrated_switch_lines(&run),
        preferred_thread_id,
        preferred_rollout_path,
    };
    SmartFlowStep { run, progress, action: SmartAction::Done { output } }
}

/// The step of a switch after an event.
///
/// A switch starts with [`SmartEvent::Started`]. The progress of a step is to be
/// reported before its action is performed.
pub fn execute_selection(run: SmartRun, event: &SmartEvent) -> (out: SmartFlowStep)
    ensures
        out@ == smart_next(run@, event@),
{
    match event {
        SmartEvent::Started => begin(run),
        SmartEvent::Distilled { successor_thread_id, successor_rollout_path, lines } => {
            let progress = one_report(
                SmartProgressEvent::Completed { thread_id: clone_opt(successor_thread_id) },
            );
            let output = SmartExecutionOutput {
                title: "Distilled Successor Ready".to_owned(),
                lines: clone_texts(lines),
                preferred_thread_id: clone_opt(successor_thread_id),
                preferred_rollout_path: clone_opt(successor_rollout_path),
            };
            SmartFlowStep { run, progress, action: SmartAction::Done { output } }
        },
        SmartEvent::Compacted => {
            let progress = one_report(
                SmartProgressEvent::ReloadingSummaryAfterCompaction {
                    attempt: run.compactions_run,
                },
            );
            SmartFlowStep { run, progress, action: SmartAction::ReloadSummary }
        },
        SmartEvent::SummaryReloaded { context_tokens, context_window } => {
            let mut run = run;
            run.context_tokens = *context_tokens;
            run.context_window = *context_window;
            check_window(run, no_progress())
        },
        SmartEvent::ProfileWritten => after_profile(run),
        SmartEvent::ResumeStateRepaired => SmartFlowStep {
            run,
            progress: no_progress(),
            action: SmartAction::ReadThreadId,
        },
        SmartEvent::ThreadIdRead { thread_id, resume } => finish_same_thread(
            run,
            thread_id.as_str(),
            resume,
        ),
        SmartEvent::ThreadsListed { ids } => {
            let mut run = run;
            let migrate_args = make_migrate_args(&run);
            run.known_threads = clone_texts(ids);
            let progress = one_report(SmartProgressEvent::RunningMigration);
            SmartFlowStep { run, progress, action: SmartAction::Migrate { migrate_args } }
        },
        SmartEvent::Migrated => {
            let progress = one_report(SmartProgressEvent::RefreshingThreadList);
            let config_profile = clone_opt(&run.args.target.config_profile);
            SmartFlowStep { run, progress, action: SmartAction::RefreshThreads { config_profile } }
        },
        SmartEvent::ThreadsRefreshed { threads } => finish_migration(run, threads),
    }
}

// ------------------------------------------------------------------------------ laws

/// A switch never runs more compactions than it may and never compacts an
/// archived session.
pub proof fn switch_keeps_its_limits(run: SmartRunView, event: SmartEventView)
    requires
        run.compactions_run <= run.args.max_pre_compactions,
    ensures
        ({
            let next = smart_next(run, event);
            &&& next.run.compactions_run <= next.run.args.max_pre_compactions
            &&& next.run.args == run.args
            &&& next.action is Compact ==> !run.archived && next.run.compactions_run
                == run.compactions_run + 1
            &&& !(next.action is Compact) ==> next.run.compactions_run == run.compactions_run
        }),
{
}

/// A profile is written only once the session fits its target, as far as its
/// size and the window are known.
pub proof fn profile_is_written_for_fitting_sessions(run: SmartRunView, event: SmartEventView)
    requires
        smart_next(run, event).action is WriteProfile,
    ensures
        ({
            let next = smart_next(run, event);
            !migrate::exceeds(next.run.context_tokens, next.run.selection.target_context_window)
        }),
{
}

/// A switch begins in one of three ways: a distillation, the session itself
/// with the same provider, or a migration to another provider.
pub proof fn switch_begins_as_planned(run: SmartRunView)
    ensures
        ({
            let action = smart_next(run, SmartEventView::Started).action;
            &&& action is Distill <==> run.selection.execution_mode != SmartExecutionMode::Direct
            &&& action is ListThreads <==> run.selection.execution_mode
                == SmartExecutionMode::Direct && run.selection.provider != run.current_provider
        }),
{
}

/// The event that an action leads to.
pub open spec fn answers(action: SmartActionView, event: SmartEventView) -> bool {
    match action {
        SmartActionView::Distill { .. } => event is Distilled,
        SmartActionView::Compact { .. } => event is Compacted,
        SmartActionView::ReloadSummary => event is SummaryReloaded,
        SmartActionView::WriteProfile { .. } => event is ProfileWritten,
        SmartActionView::RepairResumeState { .. } => event is ResumeStateRepaired,
        SmartActionView::ReadThreadId => event is ThreadIdRead,
        SmartActionView::ListThreads => event is ThreadsListed,
        SmartActionView::Migrate { .. } => event is Migrated,
        SmartActionView::RefreshThreads { .. } => event is ThreadsRefreshed,
        SmartActionView::Done { .. } => false,
        SmartActionView::Fail { .. } => false,
    }
}

/// The actions that a switch can ask for: a distillation only distills, a switch
/// with the same provider works on the session itself, and a switch to another
/// provider migrates it.
pub open spec fn on_route(run: SmartRunView, action: SmartActionView) -> bool {
    if run.selection.execution_mode != SmartExecutionMode::Direct {
        action is Distill || action is Done
    } else if run.selection.provider == run.current_provider {
        action is Compact || action is ReloadSummary || action is WriteProfile
            || action is RepairResumeState || action is ReadThreadId || action is Done
            || action is Fail
    } else {
        action is ListThreads || action is Migrate || action is RefreshThreads || action is Done
    }
}

/// How many actions a switch can still ask for behind this one.
pub open spec fn actions_left(run: SmartRunView, action: SmartActionView) -> int {
    let compactions_left = run.args.max_pre_compactions - run.compactions_run;
    match action {
        SmartActionView::Compact { .. } => 5 + 2 * compactions_left,
        SmartActionView::ReloadSummary => 4 + 2 * compactions_left,
        SmartActionView::WriteProfile { .. } | SmartActionView::ListThreads => 3,
        SmartActionView::RepairResumeState { .. } | SmartActionView::Migrate { .. } => 2,
        SmartActionView::Distill { .. }
        | SmartActionView::ReadThreadId
        | SmartActionView::RefreshThreads { .. } => 1,
        SmartActionView::Done { .. } | SmartActionView::Fail { .. } => 0,
    }
}

/// A switch starts on its route and stays on it: a session is migrated only to
/// another provider, and compacted, given its profile and repaired in place only
/// for the provider that it has. What was selected does not change on the way.
pub proof fn switch_stays_on_its_route(
    run: SmartRunView,
    action: SmartActionView,
    event: SmartEventView,
)
    ensures
        on_route(run, smart_next(run, SmartEventView::Started).action),
        on_route(run, action) && answers(action, event) ==> {
            let next = smart_next(run, event);
            &&& on_route(next.run, next.action)
            &&& next.run.selection == run.selection
            &&& next.run.current_provider == run.current_provider
        },
{
}

/// Every switch comes to an end.
pub proof fn switch_comes_to_an_end(
    run: SmartRunView,
    action: SmartActionView,
    event: SmartEventView,
)
    requires
        run.compactions_run <= run.args.max_pre_compactions,
        answers(action, event),
    ensures
        ({
            let next = smart_next(run, event);
            0 <= actions_left(next.run, next.action) < actions_left(run, action)
        }),
{
}

/// A migration asks for what was selected, under the profile of the switch, and
/// for the session that the switch was asked for.
pub proof fn migration_carries_the_selection(run: SmartRunView, event: SmartEventView)
    requires
        smart_next(run, event).action is Migrate,
    ensures
        ({
            let args = smart_next(run, event).action->migrate_args;
            &&& args.target == run.args.target
            &&& args.provider == Some(run.selection.provider)
            &&& args.model == Some(run.selection.model)
            &&& args.context_window == run.selection.target_context_window
            &&& args.write_profile == Some(run.target_profile)
            &&& args.archive_source == run.args.archive_source
        }),
{
}

/// The session has more tokens than the target window, as far as both are known.
pub open spec fn over_window(run: SmartRunView) -> bool {
    &&& run.context_tokens is Some
    &&& run.selection.target_context_window is Some
    &&& run.context_tokens.unwrap() > run.selection.target_context_window.unwrap()
}

/// Once the profile of a switch is written, the window hints are repaired exactly
/// where a target window is known and the model or the window of the session is
/// another one, whatever was compacted before; the repair is for that session,
/// model, provider and window. Otherwise, and after a repair, the session is read
/// at once.
pub proof fn hints_are_repaired_where_they_change(run: SmartRunView)
    ensures
        ({
            let next = smart_next(run, SmartEventView::ProfileWritten);
            let window = run.selection.target_context_window;
            let changes = run.selection.model != run.current_model || run.context_window != window;
            &&& next.run == run
            &&& next.action is RepairResumeState <==> window is Some && changes
            &&& next.action is ReadThreadId <==> !(window is Some && changes)
            &&& next.action matches SmartActionView::RepairResumeState { repair_args } ==> {
                &&& repair_args.target == run.args.target
                &&& repair_args.context_window == window
                &&& repair_args.model == Some(run.selection.model)
                &&& repair_args.provider == Some(run.selection.provider)
            }
            &&& smart_next(run, SmartEventView::ResumeStateRepaired).action is ReadThreadId
            &&& smart_next(run, SmartEventView::ResumeStateRepaired).run == run
        }),
{
}

/// A switch that is planned as a repair in place writes its profile at once and
/// repairs right after that; one that is planned for the profile alone does not
/// repair.
pub proof fn planned_repairs_are_carried_out(
    args: SmartArgsView,
    source: RuntimeConfigView,
    summary: SessionSummaryView,
    selection: SmartSelectionView,
)
    ensures
        ({
            let run = run_of(args, source, summary, selection);
            let first = smart_next(run, SmartEventView::Started);
            let second = smart_next(first.run, SmartEventView::ProfileWritten);
            &&& run.strategy is SameThreadRepair ==> first.action is WriteProfile
                && second.action is RepairResumeState
            &&& run.strategy is SameThreadProfileOnly ==> first.action is WriteProfile
                && second.action is ReadThreadId
            &&& run.strategy is SameThreadRepairAfterCompaction ==> first.action is Compact
                || first.action is Fail
            &&& run.strategy is CrossProviderMigrate || run.strategy
                is CrossProviderMigrateAfterCompaction ==> first.action is ListThreads
            &&& run.strategy is DistillSuccessor ==> first.action is Distill
        }),
{
}

/// A run starts with what it is given, and without compactions.
pub proof fn runs_start_with_what_they_are_given(
    args: SmartArgsView,
    source: RuntimeConfigView,
    summary: SessionSummaryView,
    selection: SmartSelectionView,
)
    ensures
        ({
            let run = run_of(args, source, summary, selection);
            &&& run.args == args
            &&& run.selection == selection
            &&& run.rollout_path == summary.rollout_path
            &&& run.thread_name == summary.thread_name
            &&& run.archived == summary.archived
            &&& run.context_tokens == summary.latest_context_tokens
            &&& run.context_window == summary.latest_model_context_window
            &&& run.compactions_run == 0
            &&& summary.session_provider matches Some(provider) ==> run.current_provider == provider
            &&& summary.session_provider is None ==> run.current_provider
                == source.model_provider_id
            &&& summary.latest_model matches Some(model) ==> run.current_model == model
            &&& args.write_profile matches Some(profile) ==> run.target_profile == profile
        }),
{
}

/// A switch in place goes by the size of the session, at its start and after
/// every reload. Where the session is within the window, or where either is not
/// known, the profile of the switch is written. Where it is too large, an archived
/// session fails, one that has been compacted often enough fails, and any other is
/// compacted once more.
pub proof fn size_decides_what_comes_next(run: SmartRunView, event: SmartEventView)
    requires
        event is SummaryReloaded || (event is Started && run.selection.execution_mode
            == SmartExecutionMode::Direct && run.selection.provider == run.current_provider),
    ensures
        ({
            let next = smart_next(run, event);
            let tokens = match event {
                SmartEventView::SummaryReloaded { context_tokens, .. } => context_tokens,
                _ => run.context_tokens,
            };
            let window = match event {
                SmartEventView::SummaryReloaded { context_window, .. } => context_window,
                _ => run.context_window,
            };
            let now = SmartRunView { context_tokens: tokens, context_window: window, ..run };
            let spent = run.compactions_run >= run.args.max_pre_compactions;
            &&& next.run == SmartRunView { compactions_run: next.run.compactions_run, ..now }
            &&& !over_window(now) ==> next.action == (SmartActionView::WriteProfile {
                profile: run.target_profile,
            })
            &&& over_window(now) && run.archived ==> next.action == (SmartActionView::Fail {
                error: SmartError::ArchivedTooLarge {
                    context_tokens: tokens.unwrap(),
                    target_window: run.selection.target_context_window.unwrap(),
                },
            })
            &&& over_window(now) && !run.archived && spent ==> next.action == (
            SmartActionView::Fail {
                error: SmartError::StillTooLarge {
                    compactions: run.args.max_pre_compactions,
                    context_tokens: tokens.unwrap(),
                    target_window: run.selection.target_context_window.unwrap(),
                },
            })
            &&& over_window(now) && !run.archived && !spent ==> {
                &&& next.action matches SmartActionView::Compact { compact_args }
                    && compact_args.target == run.args.target && compact_args.timeout_secs
                    == run.args.timeout_secs
                &&& next.run.compactions_run == run.compactions_run + 1
                &&& next.progress.last() == SmartProgressEventView::RunningCompaction {
                    attempt: (run.compactions_run + 1) as u32,
                    max_attempts: run.args.max_pre_compactions,
                }
            }
        }),
{
}

/// A distilling switch asks for a successor on the selected target, with the name
/// of the session, and not for a preview; it is distilled by Codex unless the
/// deterministic mode was chosen. What comes of it is what the switch comes to.
pub proof fn distilling_switch_asks_for_a_successor(
    run: SmartRunView,
    successor_thread_id: Option<Seq<char>>,
    successor_rollout_path: Option<Seq<char>>,
    lines: Seq<Seq<char>>,
)
    requires
        run.selection.execution_mode != SmartExecutionMode::Direct,
    ensures
        ({
            let next = smart_next(run, SmartEventView::Started);
            &&& next.action matches SmartActionView::Distill { distill_args } && {
                &&& distill_args.target == run.args.target
                &&& distill_args.provider == Some(run.selection.provider)
                &&& distill_args.model == Some(run.selection.model)
                &&& distill_args.context_window == run.selection.target_context_window
                &&& distill_args.auto_compact_token_limit
                    == run.selection.target_auto_compact_token_limit
                &&& distill_args.distill_mode is Deterministic <==> run.selection.execution_mode
                    is DistillDeterministic
                &&& distill_args.thread_name == run.thread_name
                &&& distill_args.write_profile == Some(run.target_profile)
                &&& distill_args.archive_source == run.args.archive_source
                &&& !distill_args.preview_only
                &&& distill_args.recent_turns == 8
                &&& distill_args.timeout_secs == run.args.timeout_secs
            }
        }),
        ({
            let next = smart_next(
                run,
                SmartEventView::Distilled { successor_thread_id, successor_rollout_path, lines },
            );
            next.action matches SmartActionView::Done { output } && {
                &&& output.preferred_thread_id == successor_thread_id
                &&& output.preferred_rollout_path == successor_rollout_path
                &&& output.lines == lines
            }
        }),
{
}

/// A compaction is followed by a look at what the session has become.
pub proof fn compactions_are_looked_at(run: SmartRunView)
    ensures
        smart_next(run, SmartEventView::Compacted).action is ReloadSummary,
        smart_next(run, SmartEventView::Compacted).run == run,
{
}

/// A switch in place ends in the session itself, and tells its target, its
/// profile and how to resume it.
pub proof fn switch_in_place_ends_in_its_session(
    run: SmartRunView,
    thread_id: Seq<char>,
    resume: Option<Seq<char>>,
)
    ensures
        ({
            let next = smart_next(run, SmartEventView::ThreadIdRead { thread_id, resume });
            next.action matches SmartActionView::Done { output } && {
                &&& output.preferred_thread_id == Some(thread_id)
                &&& output.preferred_rollout_path == Some(run.rollout_path)
                &&& output.lines.contains("target_provider: "@ + run.selection.provider)
                &&& output.lines.contains("target_model: "@ + run.selection.model)
                &&& output.lines.contains("profile: "@ + run.target_profile)
                &&& output.lines.contains(
                    "resume_command: "@ + runtime::resume_command_text(
                        Some(run.target_profile),
                        thread_id,
                        resume,
                    ),
                )
            }
        }),
{
    let lines = same_thread_text(
        run,
        runtime::resume_command_text(Some(run.target_profile), thread_id, resume),
    );
    assert(lines[1] == "target_provider: "@ + run.selection.provider);
    assert(lines[2] == "target_model: "@ + run.selection.model);
    assert(lines[4] == "profile: "@ + run.target_profile);
    assert(lines[5] == "resume_command: "@ + runtime::resume_command_text(
        Some(run.target_profile),
        thread_id,
        resume,
    ));
}

proof fn new_thread_is_first(threads: Seq<ThreadPlaceView>, known: Seq<Seq<char>>, at: int)
    requires
        0 <= at < threads.len(),
        threads[at].thread_id matches Some(id) && !known.contains(id),
        forall|i: int|
            0 <= i < at ==> ((#[trigger] threads[i]).thread_id matches Some(id) ==> known.contains(id)),
    ensures
        new_thread(threads, known) == Some(threads[at]),
    decreases threads.len(),
{
    let front = threads.drop_last();
    if at < front.len() {
        new_thread_is_first(front, known, at);
    } else {
        assert forall|i: int| 0 <= i < front.len() implies ((#[trigger] front[i]).thread_id matches
            Some(id) ==> known.contains(id)) by {
            assert(front[i] == threads[i]);
        }
        nothing_new(front, known);
    }
}

proof fn nothing_new(threads: Seq<ThreadPlaceView>, known: Seq<Seq<char>>)
    requires
        forall|i: int|
            0 <= i < threads.len() ==> ((#[trigger] threads[i]).thread_id matches Some(id)
                ==> known.contains(id)),
    ensures
        new_thread(threads, known) is None,
    decreases threads.len(),
{
    if threads.len() > 0 {
        let front = threads.drop_last();
        assert forall|i: int| 0 <= i < front.len() implies ((#[trigger] front[i]).thread_id matches
            Some(id) ==> known.contains(id)) by {
            assert(front[i] == threads[i]);
        }
        nothing_new(front, known);
        assert(threads[threads.len() - 1].thread_id matches Some(id) ==> known.contains(id));
    }
}

/// A migrating switch remembers the sessions that were there, and ends in the
/// first session of the list that was not there before, or in none where there is
/// no such session.
pub proof fn switch_ends_in_the_new_session(
    run: SmartRunView,
    ids: Seq<Seq<char>>,
    threads: Seq<ThreadPlaceView>,
    at: int,
)
    ensures
        smart_next(run, SmartEventView::ThreadsListed { ids }).run == (SmartRunView {
            known_threads: ids,
            ..run
        }),
        smart_next(run, SmartEventView::Migrated).action == (SmartActionView::RefreshThreads {
            config_profile: run.args.target.config_profile,
        }),
        0 <= at < threads.len() && (threads[at].thread_id matches Some(id)
            && !run.known_threads.contains(id)) && (forall|i: int|
            0 <= i < at ==> ((#[trigger] threads[i]).thread_id matches Some(id)
                ==> run.known_threads.contains(id))) ==> (smart_next(
            run,
            SmartEventView::ThreadsRefreshed { threads },
        ).action matches SmartActionView::Done { output } && output.preferred_thread_id
            == threads[at].thread_id && output.preferred_rollout_path == Some(threads[at].path)),
        (forall|i: int|
            0 <= i < threads.len() ==> ((#[trigger] threads[i]).thread_id matches Some(id)
                ==> run.known_threads.contains(id))) ==> (smart_next(
            run,
            SmartEventView::ThreadsRefreshed { threads },
        ).action matches SmartActionView::Done { output } && output.preferred_thread_id is None
            && output.preferred_rollout_path is None),
{
    if 0 <= at < threads.len() && (threads[at].thread_id matches Some(id)
        && !run.known_threads.contains(id)) && (forall|i: int|
        0 <= i < at ==> ((#[trigger] threads[i]).thread_id matches Some(id)
            ==> run.known_threads.contains(id))) {
        new_thread_is_first(threads, run.known_threads, at);
    }
    if forall|i: int|
        0 <= i < threads.len() ==> ((#[trigger] threads[i]).thread_id matches Some(id)
            ==> run.known_threads.contains(id)) {
        nothing_new(threads, run.known_threads);
    }
}

/// A migration asks for no copy of part of the session, forces no compaction, and
/// keeps the limits, the time and the name that the switch has.
pub proof fn migration_keeps_the_terms_of_the_switch(run: SmartRunView, ids: Seq<Seq<char>>)
    ensures
        smart_next(run, SmartEventView::ThreadsListed { ids }).action matches SmartActionView::Migrate {
            migrate_args,
        } && {
            &&& migrate_args.target == run.args.target
            &&& migrate_args.provider == Some(run.selection.provider)
            &&& migrate_args.model == Some(run.selection.model)
            &&& migrate_args.context_window == run.selection.target_context_window
            &&& migrate_args.auto_compact_token_limit
                == run.selection.target_auto_compact_token_limit
            &&& migrate_args.write_profile == Some(run.target_profile)
            &&& migrate_args.thread_name == run.thread_name
            &&& migrate_args.max_pre_compactions == run.args.max_pre_compactions
            &&& migrate_args.archive_source == run.args.archive_source
            &&& migrate_args.timeout_secs == run.args.timeout_secs
            &&& !migrate_args.persist_extended_history
            &&& !migrate_args.force_compact
            &&& migrate_args.nth_user_message is None
        },
{
}

} // verus!
