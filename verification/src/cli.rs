//! The command line: commands and their arguments.

use vstd::prelude::*;

use crate::text;
use crate::text::clone_opt;

verus! {

pub const DEFAULT_OPERATION_TIMEOUT_SECS: u64 = 300;

pub const DEFAULT_ROLLBACK_TIMEOUT_SECS: u64 = 60;

pub const DEFAULT_MAX_PRE_COMPACTIONS: u32 = 3;

pub const DEFAULT_RECENT_TURNS: usize = 8;

/// Who writes the handoff brief of a distilled session.
#[derive(Debug, Clone, Copy, PartialEq, Eq, Structural)]
pub enum DistillMode {
    Codex,
    Deterministic,
}

/// How much of a session a handoff brief keeps.
#[derive(Debug, Clone, Copy, PartialEq, Eq, Structural)]
pub enum DistillCompressionLevel {
    Lossless,
    Balanced,
    Aggressive,
}

/// The session that a command works on.
#[derive(Debug, PartialEq, Eq)]
pub struct TargetArgs {
    /// Rollout path, thread id, or thread name.
    pub target: String,
    /// Config profile to use while resolving provider/model defaults.
    pub config_profile: Option<String>,
}

/// What a [`TargetArgs`] stands for.
pub struct TargetArgsView {
    pub target: Seq<char>,
    pub config_profile: Option<Seq<char>>,
}

impl View for TargetArgs {
    type V = TargetArgsView;

    open spec fn view(&self) -> TargetArgsView {
        TargetArgsView {
            target: self.target@,
            config_profile: text::opt_text(self.config_profile),
        }
    }
}

impl DeepView for TargetArgs {
    type V = TargetArgsView;

    open spec fn deep_view(&self) -> TargetArgsView {
        self@
    }
}

impl Clone for TargetArgs {
    fn clone(&self) -> (out: Self)
        ensures
            out@ == self@,
    {
        TargetArgs {
            target: self.target.clone(),
            config_profile: clone_opt(&self.config_profile),
        }
    }
}

/// What `show` is asked for.
#[derive(Debug, PartialEq, Eq)]
pub struct ShowArgs {
    pub target: TargetArgs,
    pub json: bool,
}

/// What a [`ShowArgs`] stands for.
pub struct ShowArgsView {
    pub target: TargetArgsView,
    pub json: bool,
}

impl View for ShowArgs {
    type V = ShowArgsView;

    open spec fn view(&self) -> ShowArgsView {
        ShowArgsView {
            target: self.target@,
            json: self.json,
        }
    }
}

impl DeepView for ShowArgs {
    type V = ShowArgsView;

    open spec fn deep_view(&self) -> ShowArgsView {
        self@
    }
}

impl Clone for ShowArgs {
    fn clone(&self) -> (out: Self)
        ensures
            out@ == self@,
    {
        ShowArgs {
            target: self.target.clone(),
            json: self.json,
        }
    }
}

/// What `rename` is asked for.
#[derive(Debug, PartialEq, Eq)]
pub struct RenameArgs {
    pub target: TargetArgs,
    pub name: String,
}

/// What a [`RenameArgs`] stands for.
pub struct RenameArgsView {
    pub target: TargetArgsView,
    pub name: Seq<char>,
}

impl View for RenameArgs {
    type V = RenameArgsView;

    open spec fn view(&self) -> RenameArgsView {
        RenameArgsView {
            target: self.target@,
            name: self.name@,
        }
    }
}

impl DeepView for RenameArgs {
    type V = RenameArgsView;

    open spec fn deep_view(&self) -> RenameArgsView {
        self@
    }
}

impl Clone for RenameArgs {
    fn clone(&self) -> (out: Self)
        ensures
            out@ == self@,
    {
        RenameArgs {
            target: self.target.clone(),
            name: self.name.clone(),
        }
    }
}

/// What `rewrite-meta` is asked for.
#[derive(Debug, PartialEq, Eq)]
pub struct RewriteMetaArgs {
    pub target: TargetArgs,
    pub provider: Option<String>,
    pub cwd: Option<String>,
    pub memory_mode: Option<String>,
    pub clear_memory_mode: bool,
}

/// What a [`RewriteMetaArgs`] stands for.
pub struct RewriteMetaArgsView {
    pub target: TargetArgsView,
    pub provider: Option<Seq<char>>,
    pub cwd: Option<Seq<char>>,
    pub memory_mode: Option<Seq<char>>,
    pub clear_memory_mode: bool,
}

impl View for RewriteMetaArgs {
    type V = RewriteMetaArgsView;

    open spec fn view(&self) -> RewriteMetaArgsView {
        RewriteMetaArgsView {
            target: self.target@,
            provider: text::opt_text(self.provider),
            cwd: text::opt_text(self.cwd),
            memory_mode: text::opt_text(self.memory_mode),
            clear_memory_mode: self.clear_memory_mode,
        }
    }
}

impl DeepView for RewriteMetaArgs {
    type V = RewriteMetaArgsView;

    open spec fn deep_view(&self) -> RewriteMetaArgsView {
        self@
    }
}

impl Clone for RewriteMetaArgs {
    fn clone(&self) -> (out: Self)
        ensures
            out@ == self@,
    {
        RewriteMetaArgs {
            target: self.target.clone(),
            provider: clone_opt(&self.provider),
            cwd: clone_opt(&self.cwd),
            memory_mode: clone_opt(&self.memory_mode),
            clear_memory_mode: self.clear_memory_mode,
        }
    }
}

/// What `repair-resume-state` is asked for.
#[derive(Debug, PartialEq, Eq)]
pub struct RepairResumeStateArgs {
    pub target: TargetArgs,
    pub context_window: Option<i64>,
    pub model: Option<String>,
    pub provider: Option<String>,
}

/// What a [`RepairResumeStateArgs`] stands for.
pub struct RepairResumeStateArgsView {
    pub target: TargetArgsView,
    pub context_window: Option<i64>,
    pub model: Option<Seq<char>>,
    pub provider: Option<Seq<char>>,
}

impl View for RepairResumeStateArgs {
    type V = RepairResumeStateArgsView;

    open spec fn view(&self) -> RepairResumeStateArgsView {
        RepairResumeStateArgsView {
            target: self.target@,
            context_window: self.context_window,
            model: text::opt_text(self.model),
            provider: text::opt_text(self.provider),
        }
    }
}

impl DeepView for RepairResumeStateArgs {
    type V = RepairResumeStateArgsView;

    open spec fn deep_view(&self) -> RepairResumeStateArgsView {
        self@
    }
}

impl Clone for RepairResumeStateArgs {
    fn clone(&self) -> (out: Self)
        ensures
            out@ == self@,
    {
        RepairResumeStateArgs {
            target: self.target.clone(),
            context_window: self.context_window,
            model: clone_opt(&self.model),
            provider: clone_opt(&self.provider),
        }
    }
}

/// What `fork` is asked for.
#[derive(Debug, PartialEq, Eq)]
pub struct ForkArgs {
    pub target: TargetArgs,
    pub model: Option<String>,
    pub provider: Option<String>,
    pub context_window: Option<i64>,
    pub auto_compact_token_limit: Option<i64>,
    pub write_profile: Option<String>,
    pub thread_name: Option<String>,
    pub persist_extended_history: bool,
    pub nth_user_message: Option<usize>,
}

/// What a [`ForkArgs`] stands for.
pub struct ForkArgsView {
    pub target: TargetArgsView,
    pub model: Option<Seq<char>>,
    pub provider: Option<Seq<char>>,
    pub context_window: Option<i64>,
    pub auto_compact_token_limit: Option<i64>,
    pub write_profile: Option<Seq<char>>,
    pub thread_name: Option<Seq<char>>,
    pub persist_extended_history: bool,
    pub nth_user_message: Option<usize>,
}

impl View for ForkArgs {
    type V = ForkArgsView;

    open spec fn view(&self) -> ForkArgsView {
        ForkArgsView {
            target: self.target@,
            model: text::opt_text(self.model),
            provider: text::opt_text(self.provider),
            context_window: self.context_window,
            auto_compact_token_limit: self.auto_compact_token_limit,
            write_profile: text::opt_text(self.write_profile),
            thread_name: text::opt_text(self.thread_name),
            persist_extended_history: self.persist_extended_history,
            nth_user_message: self.nth_user_message,
        }
    }
}

impl DeepView for ForkArgs {
    type V = ForkArgsView;

    open spec fn deep_view(&self) -> ForkArgsView {
        self@
    }
}

impl Clone for ForkArgs {
    fn clone(&self) -> (out: Self)
        ensures
            out@ == self@,
    {
        ForkArgs {
            target: self.target.clone(),
            model: clone_opt(&self.model),
            provider: clone_opt(&self.provider),
            context_window: self.context_window,
            auto_compact_token_limit: self.auto_compact_token_limit,
            write_profile: clone_opt(&self.write_profile),
            thread_name: clone_opt(&self.thread_name),
            persist_extended_history: self.persist_extended_history,
            nth_user_message: self.nth_user_message,
        }
    }
}

/// What `compact` is asked for.
#[derive(Debug, PartialEq, Eq)]
pub struct CompactArgs {
    pub target: TargetArgs,
    pub timeout_secs: u64,
}

/// What a [`CompactArgs`] stands for.
pub struct CompactArgsView {
    pub target: TargetArgsView,
    pub timeout_secs: u64,
}

impl View for CompactArgs {
    type V = CompactArgsView;

    open spec fn view(&self) -> CompactArgsView {
        CompactArgsView {
            target: self.target@,
            timeout_secs: self.timeout_secs,
        }
    }
}

impl DeepView for CompactArgs {
    type V = CompactArgsView;

    open spec fn deep_view(&self) -> CompactArgsView {
        self@
    }
}

impl Clone for CompactArgs {
    fn clone(&self) -> (out: Self)
        ensures
            out@ == self@,
    {
        CompactArgs {
            target: self.target.clone(),
            timeout_secs: self.timeout_secs,
        }
    }
}

/// What `rollback` is asked for.
#[derive(Debug, PartialEq, Eq)]
pub struct RollbackArgs {
    pub target: TargetArgs,
    pub num_turns: u32,
    pub timeout_secs: u64,
}

/// What a [`RollbackArgs`] stands for.
pub struct RollbackArgsView {
    pub target: TargetArgsView,
    pub num_turns: u32,
    pub timeout_secs: u64,
}

impl View for RollbackArgs {
    type V = RollbackArgsView;

    open spec fn view(&self) -> RollbackArgsView {
        RollbackArgsView {
            target: self.target@,
            num_turns: self.num_turns,
            timeout_secs: self.timeout_secs,
        }
    }
}

impl DeepView for RollbackArgs {
    type V = RollbackArgsView;

    open spec fn deep_view(&self) -> RollbackArgsView {
        self@
    }
}

impl Clone for RollbackArgs {
    fn clone(&self) -> (out: Self)
        ensures
            out@ == self@,
    {
        RollbackArgs {
            target: self.target.clone(),
            num_turns: self.num_turns,
            timeout_secs: self.timeout_secs,
        }
    }
}

/// What `migrate` is asked for.
#[derive(Debug, PartialEq, Eq)]
pub struct MigrateArgs {
    pub target: TargetArgs,
    pub model: Option<String>,
    pub provider: Option<String>,
    pub context_window: Option<i64>,
    pub auto_compact_token_limit: Option<i64>,
    pub write_profile: Option<String>,
    pub thread_name: Option<String>,
    pub persist_extended_history: bool,
    pub nth_user_message: Option<usize>,
    pub force_compact: bool,
    pub max_pre_compactions: u32,
    pub archive_source: bool,
    pub timeout_secs: u64,
}

/// What a [`MigrateArgs`] stands for.
pub struct MigrateArgsView {
    pub target: TargetArgsView,
    pub model: Option<Seq<char>>,
    pub provider: Option<Seq<char>>,
    pub context_window: Option<i64>,
    pub auto_compact_token_limit: Option<i64>,
    pub write_profile: Option<Seq<char>>,
    pub thread_name: Option<Seq<char>>,
    pub persist_extended_history: bool,
    pub nth_user_message: Option<usize>,
    pub force_compact: bool,
    pub max_pre_compactions: u32,
    pub archive_source: bool,
    pub timeout_secs: u64,
}

impl View for MigrateArgs {
    type V = MigrateArgsView;

    open spec fn view(&self) -> MigrateArgsView {
        MigrateArgsView {
            target: self.target@,
            model: text::opt_text(self.model),
            provider: text::opt_text(self.provider),
            context_window: self.context_window,
            auto_compact_token_limit: self.auto_compact_token_limit,
            write_profile: text::opt_text(self.write_profile),
            thread_name: text::opt_text(self.thread_name),
            persist_extended_history: self.persist_extended_history,
            nth_user_message: self.nth_user_message,
            force_compact: self.force_compact,
            max_pre_compactions: self.max_pre_compactions,
            archive_source: self.archive_source,
            timeout_secs: self.timeout_secs,
        }
    }
}

impl DeepView for MigrateArgs {
    type V = MigrateArgsView;

    open spec fn deep_view(&self) -> MigrateArgsView {
        self@
    }
}

impl Clone for MigrateArgs {
    fn clone(&self) -> (out: Self)
        ensures
            out@ == self@,
    {
        MigrateArgs {
            target: self.target.clone(),
            model: clone_opt(&self.model),
            provider: clone_opt(&self.provider),
            context_window: self.context_window,
            auto_compact_token_limit: self.auto_compact_token_limit,
            write_profile: clone_opt(&self.write_profile),
            thread_name: clone_opt(&self.thread_name),
            persist_extended_history: self.persist_extended_history,
            nth_user_message: self.nth_user_message,
            force_compact: self.force_compact,
            max_pre_compactions: self.max_pre_compactions,
            archive_source: self.archive_source,
            timeout_secs: self.timeout_secs,
        }
    }
}

/// What `smart` is asked for.
#[derive(Debug, PartialEq, Eq)]
pub struct SmartArgs {
    pub target: TargetArgs,
    pub write_profile: Option<String>,
    pub archive_source: bool,
    pub max_pre_compactions: u32,
    pub timeout_secs: u64,
}

/// What a [`SmartArgs`] stands for.
pub struct SmartArgsView {
    pub target: TargetArgsView,
    pub write_profile: Option<Seq<char>>,
    pub archive_source: bool,
    pub max_pre_compactions: u32,
    pub timeout_secs: u64,
}

impl View for SmartArgs {
    type V = SmartArgsView;

    open spec fn view(&self) -> SmartArgsView {
        SmartArgsView {
            target: self.target@,
            write_profile: text::opt_text(self.write_profile),
            archive_source: self.archive_source,
            max_pre_compactions: self.max_pre_compactions,
            timeout_secs: self.timeout_secs,
        }
    }
}

impl DeepView for SmartArgs {
    type V = SmartArgsView;

    open spec fn deep_view(&self) -> SmartArgsView {
        self@
    }
}

impl Clone for SmartArgs {
    fn clone(&self) -> (out: Self)
        ensures
            out@ == self@,
    {
        SmartArgs {
            target: self.target.clone(),
            write_profile: clone_opt(&self.write_profile),
            archive_source: self.archive_source,
            max_pre_compactions: self.max_pre_compactions,
            timeout_secs: self.timeout_secs,
        }
    }
}

/// What `distill` is asked for.
#[derive(Debug, PartialEq, Eq)]
pub struct DistillArgs {
    pub target: TargetArgs,
    pub provider: Option<String>,
    pub model: Option<String>,
    pub context_window: Option<i64>,
    pub auto_compact_token_limit: Option<i64>,
    pub distill_mode: DistillMode,
    pub compression_level: DistillCompressionLevel,
    pub reasoning_effort: Option<String>,
    pub thread_name: Option<String>,
    pub write_profile: Option<String>,
    pub archive_source: bool,
    pub preview_only: bool,
    pub json: bool,
    pub recent_turns: usize,
    pub timeout_secs: u64,
}

/// What a [`DistillArgs`] stands for.
pub struct DistillArgsView {
    pub target: TargetArgsView,
    pub provider: Option<Seq<char>>,
    pub model: Option<Seq<char>>,
    pub context_window: Option<i64>,
    pub auto_compact_token_limit: Option<i64>,
    pub distill_mode: DistillMode,
    pub compression_level: DistillCompressionLevel,
    pub reasoning_effort: Option<Seq<char>>,
    pub thread_name: Option<Seq<char>>,
    pub write_profile: Option<Seq<char>>,
    pub archive_source: bool,
    pub preview_only: bool,
    pub json: bool,
    pub recent_turns: usize,
    pub timeout_secs: u64,
}

impl View for DistillArgs {
    type V = DistillArgsView;

    open spec fn view(&self) -> DistillArgsView {
        DistillArgsView {
            target: self.target@,
            provider: text::opt_text(self.provider),
            model: text::opt_text(self.model),
            context_window: self.context_window,
            auto_compact_token_limit: self.auto_compact_token_limit,
            distill_mode: self.distill_mode,
            compression_level: self.compression_level,
            reasoning_effort: text::opt_text(self.reasoning_effort),
            thread_name: text::opt_text(self.thread_name),
            write_profile: text::opt_text(self.write_profile),
            archive_source: self.archive_source,
            preview_only: self.preview_only,
            json: self.json,
            recent_turns: self.recent_turns,
            timeout_secs: self.timeout_secs,
        }
    }
}

impl DeepView for DistillArgs {
    type V = DistillArgsView;

    open spec fn deep_view(&self) -> DistillArgsView {
        self@
    }
}

impl Clone for DistillArgs {
    fn clone(&self) -> (out: Self)
        ensures
            out@ == self@,
    {
        DistillArgs {
            target: self.target.clone(),
            provider: clone_opt(&self.provider),
            model: clone_opt(&self.model),
            context_window: self.context_window,
            auto_compact_token_limit: self.auto_compact_token_limit,
            distill_mode: self.distill_mode,
            compression_level: self.compression_level,
            reasoning_effort: clone_opt(&self.reasoning_effort),
            thread_name: clone_opt(&self.thread_name),
            write_profile: clone_opt(&self.write_profile),
            archive_source: self.archive_source,
            preview_only: self.preview_only,
            json: self.json,
            recent_turns: self.recent_turns,
            timeout_secs: self.timeout_secs,
        }
    }
}

/// What `first-token-preview` is asked for.
#[derive(Debug, PartialEq, Eq)]
pub struct FirstTokenPreviewArgs {
    pub target: TargetArgs,
    /// A user message to add to the preview.
    pub input: Option<String>,
    pub json: bool,
}

/// What a [`FirstTokenPreviewArgs`] stands for.
pub struct FirstTokenPreviewArgsView {
    pub target: TargetArgsView,
    pub input: Option<Seq<char>>,
    pub json: bool,
}

impl View for FirstTokenPreviewArgs {
    type V = FirstTokenPreviewArgsView;

    open spec fn view(&self) -> FirstTokenPreviewArgsView {
        FirstTokenPreviewArgsView {
            target: self.target@,
            input: text::opt_text(self.input),
            json: self.json,
        }
    }
}

impl DeepView for FirstTokenPreviewArgs {
    type V = FirstTokenPreviewArgsView;

    open spec fn deep_view(&self) -> FirstTokenPreviewArgsView {
        self@
    }
}

impl Clone for FirstTokenPreviewArgs {
    fn clone(&self) -> (out: Self)
        ensures
            out@ == self@,
    {
        FirstTokenPreviewArgs {
            target: self.target.clone(),
            input: clone_opt(&self.input),
            json: self.json,
        }
    }
}

/// One command with its arguments.
#[derive(Debug, PartialEq, Eq)]
pub enum Command {
    /// Inspect derived metadata for a session rollout.
    Show(ShowArgs),
    /// Rename a thread by appending a new session index entry.
    Rename(RenameArgs),
    /// Reconcile SQLite metadata from a rollout file.
    Repair(TargetArgs),
    /// Rewrite only the first SessionMeta record in a rollout.
    RewriteMeta(RewriteMetaArgs),
    /// Rewrite persisted resume/fork window hints in rollout events.
    RepairResumeState(RepairResumeStateArgs),
    /// Fork a session using Codex's native thread manager.
    Fork(ForkArgs),
    /// Move an active rollout into archived storage.
    Archive(TargetArgs),
    /// Restore an archived rollout back into active storage.
    Unarchive(TargetArgs),
    /// Copy the resolved thread id.
    CopySessionId(TargetArgs),
    /// Copy the session cwd recorded in SessionMeta.
    CopyCwd(TargetArgs),
    /// Copy the resolved rollout path.
    CopyRolloutPath(TargetArgs),
    /// Copy the canonical `codex resume ...` command.
    CopyDeeplink(TargetArgs),
    /// Trigger native Codex compaction for an active session.
    Compact(CompactArgs),
    /// Drop the last N user turns using native Codex rollback.
    Rollback(RollbackArgs),
    /// Compact if needed, then fork into a new provider/model/runtime shape.
    Migrate(MigrateArgs),
    /// Interactive smart provider/model switch workflow.
    Smart(SmartArgs),
    /// Distill a heavy session into a lighter successor session.
    Distill(DistillArgs),
    /// Preview what the model is shown when the session goes on.
    FirstTokenPreview(FirstTokenPreviewArgs),
}

/// What a [`Command`] stands for.
pub enum CommandView {
    Show(ShowArgsView),
    Rename(RenameArgsView),
    Repair(TargetArgsView),
    RewriteMeta(RewriteMetaArgsView),
    RepairResumeState(RepairResumeStateArgsView),
    Fork(ForkArgsView),
    Archive(TargetArgsView),
    Unarchive(TargetArgsView),
    CopySessionId(TargetArgsView),
    CopyCwd(TargetArgsView),
    CopyRolloutPath(TargetArgsView),
    CopyDeeplink(TargetArgsView),
    Compact(CompactArgsView),
    Rollback(RollbackArgsView),
    Migrate(MigrateArgsView),
    Smart(SmartArgsView),
    Distill(DistillArgsView),
    FirstTokenPreview(FirstTokenPreviewArgsView),
}

impl View for Command {
    type V = CommandView;

    open spec fn view(&self) -> CommandView {
        match *self {
            Command::Show(f0) => CommandView::Show(f0@),
            Command::Rename(f0) => CommandView::Rename(f0@),
            Command::Repair(f0) => CommandView::Repair(f0@),
            Command::RewriteMeta(f0) => CommandView::RewriteMeta(f0@),
            Command::RepairResumeState(f0) => CommandView::RepairResumeState(f0@),
            Command::Fork(f0) => CommandView::Fork(f0@),
            Command::Archive(f0) => CommandView::Archive(f0@),
            Command::Unarchive(f0) => CommandView::Unarchive(f0@),
            Command::CopySessionId(f0) => CommandView::CopySessionId(f0@),
            Command::CopyCwd(f0) => CommandView::CopyCwd(f0@),
            Command::CopyRolloutPath(f0) => CommandView::CopyRolloutPath(f0@),
            Command::CopyDeeplink(f0) => CommandView::CopyDeeplink(f0@),
            Command::Compact(f0) => CommandView::Compact(f0@),
            Command::Rollback(f0) => CommandView::Rollback(f0@),
            Command::Migrate(f0) => CommandView::Migrate(f0@),
            Command::Smart(f0) => CommandView::Smart(f0@),
            Command::Distill(f0) => CommandView::Distill(f0@),
            Command::FirstTokenPreview(f0) => CommandView::FirstTokenPreview(f0@),
        }
    }
}

impl DeepView for Command {
    type V = CommandView;

    open spec fn deep_view(&self) -> CommandView {
        self@
    }
}

impl Clone for Command {
    fn clone(&self) -> (out: Self)
        ensures
            out@ == self@,
    {
        match self {
            Command::Show(f0) => Command::Show(f0.clone()),
            Command::Rename(f0) => Command::Rename(f0.clone()),
            Command::Repair(f0) => Command::Repair(f0.clone()),
            Command::RewriteMeta(f0) => Command::RewriteMeta(f0.clone()),
            Command::RepairResumeState(f0) => Command::RepairResumeState(f0.clone()),
            Command::Fork(f0) => Command::Fork(f0.clone()),
            Command::Archive(f0) => Command::Archive(f0.clone()),
            Command::Unarchive(f0) => Command::Unarchive(f0.clone()),
            Command::CopySessionId(f0) => Command::CopySessionId(f0.clone()),
            Command::CopyCwd(f0) => Command::CopyCwd(f0.clone()),
            Command::CopyRolloutPath(f0) => Command::CopyRolloutPath(f0.clone()),
            Command::CopyDeeplink(f0) => Command::CopyDeeplink(f0.clone()),
            Command::Compact(f0) => Command::Compact(f0.clone()),
            Command::Rollback(f0) => Command::Rollback(f0.clone()),
            Command::Migrate(f0) => Command::Migrate(f0.clone()),
            Command::Smart(f0) => Command::Smart(f0.clone()),
            Command::Distill(f0) => Command::Distill(f0.clone()),
            Command::FirstTokenPreview(f0) => Command::FirstTokenPreview(f0.clone()),
        }
    }
}

/// Low-level Codex session and rollout manager.
#[derive(Debug, PartialEq, Eq)]
pub struct Cli {
    /// Without a command the terminal interface starts.
    pub command: Option<Command>,
}

/// What a [`Cli`] stands for.
pub struct CliView {
    pub command: Option<CommandView>,
}

impl View for Cli {
    type V = CliView;

    open spec fn view(&self) -> CliView {
        CliView {
            command: self.command.deep_view(),
        }
    }
}

impl DeepView for Cli {
    type V = CliView;

    open spec fn deep_view(&self) -> CliView {
        self@
    }
}

impl Clone for Cli {
    fn clone(&self) -> (out: Self)
        ensures
            out@ == self@,
    {
        let out = Cli {
            command: self.command.clone(),
        };
        assert(out.command.deep_view() =~= self.command.deep_view());
        out
    }
}

/// The name of a mode, as it is written on the command line.
pub open spec fn distill_mode_text(mode: DistillMode) -> Seq<char> {
    match mode {
        DistillMode::Codex => "codex"@,
        DistillMode::Deterministic => "deterministic"@,
    }
}

/// The name of a mode, as it is written on the command line.
pub fn distill_mode_name(mode: DistillMode) -> (out: &'static str)
    ensures
        out@ == distill_mode_text(mode),
{
    match mode {
        DistillMode::Codex => "codex",
        DistillMode::Deterministic => "deterministic",
    }
}

/// The name of a compression level, as it is written on the command line.
pub open spec fn compression_level_text(level: DistillCompressionLevel) -> Seq<char> {
    match level {
        DistillCompressionLevel::Lossless => "lossless"@,
        DistillCompressionLevel::Balanced => "balanced"@,
        DistillCompressionLevel::Aggressive => "aggressive"@,
    }
}

/// The name of a compression level, as it is written on the command line.
pub fn compression_level_name(level: DistillCompressionLevel) -> (out: &'static str)
    ensures
        out@ == compression_level_text(level),
{
    match level {
        DistillCompressionLevel::Lossless => "lossless",
        DistillCompressionLevel::Balanced => "balanced",
        DistillCompressionLevel::Aggressive => "aggressive",
    }
}

/// What the program does.
#[derive(Debug, PartialEq, Eq)]
pub enum Launch {
    /// Carry out a command.
    RunCommand(Command),
    /// Start the terminal interface.
    RunTui,
}

/// What a [`Launch`] stands for.
pub enum LaunchView {
    RunCommand(CommandView),
    RunTui,
}

impl View for Launch {
    type V = LaunchView;

    open spec fn view(&self) -> LaunchView {
        match *self {
            Launch::RunCommand(f0) => LaunchView::RunCommand(f0@),
            Launch::RunTui => LaunchView::RunTui,
        }
    }
}

impl DeepView for Launch {
    type V = LaunchView;

    open spec fn deep_view(&self) -> LaunchView {
        self@
    }
}

impl Clone for Launch {
    fn clone(&self) -> (out: Self)
        ensures
            out@ == self@,
    {
        match self {
            Launch::RunCommand(f0) => Launch::RunCommand(f0.clone()),
            Launch::RunTui => Launch::RunTui,
        }
    }
}

/// What the program does: the command that it was given, or the terminal
/// interface.
pub fn run(cli: Cli) -> (out: Launch)
    ensures
        out@ == (match cli@.command {
            Some(command) => LaunchView::RunCommand(command),
            None => LaunchView::RunTui,
        }),
{
    match cli.command {
        Some(command) => Launch::RunCommand(command),
        None => Launch::RunTui,
    }
}

} // verus!
