//! What the terminal interface says of the steps of an operation.

use vstd::prelude::*;

use crate::cli;
use crate::cli::DistillCompressionLevel;
use crate::cli::DistillMode;
use crate::cli::compression_level_name;
use crate::cli::distill_mode_name;
use crate::numbers;
use crate::numbers::i64_text;
use crate::numbers::opt_i64_text;
use crate::numbers::u32_text;
use crate::numbers::usize_text;
use crate::progress::DistillProgressEvent;
use crate::progress::DistillProgressEventView;
use crate::progress::OperationProgressEvent;
use crate::progress::OperationProgressEventView;
use crate::progress::SmartProgressEvent;
use crate::progress::SmartProgressEventView;
use crate::progress::SmartStrategyKind;
use crate::text;
use crate::text::cat3;
use crate::text::cat4;
use crate::text::cat5;
use crate::text::cat7;
use crate::text::cat9;
use crate::tui::language::Language;

verus! {

/// The end of a distillation, in English.
pub open spec fn distill_end_en_text(
    preview_only: bool,
    successor_thread_id: Option<Seq<char>>,
) -> Seq<char> {
    if preview_only {
        "Distill flow completed in preview mode."@
    } else {
        match successor_thread_id {
            Some(thread_id) => "Distill flow completed; successor thread id: "@ + thread_id + "."@,
            None => "Distill flow completed."@,
        }
    }
}

/// The end of a distillation, in English.
pub fn distill_end_en(preview_only: bool, successor_thread_id: &Option<String>) -> (out: String)
    ensures
        out@ == distill_end_en_text(preview_only, text::opt_text(*successor_thread_id)),
{
    if preview_only {
        "Distill flow completed in preview mode.".to_owned()
    } else {
        match successor_thread_id {
            Some(thread_id) => cat3("Distill flow completed; successor thread id: ", thread_id.as_str(), "."),
            None => "Distill flow completed.".to_owned(),
        }
    }
}

/// The end of a distillation, in Chinese.
pub open spec fn distill_end_zh_text(
    preview_only: bool,
    successor_thread_id: Option<Seq<char>>,
) -> Seq<char> {
    if preview_only {
        "提炼流程已完成，当前是预览模式。"@
    } else {
        match successor_thread_id {
            Some(thread_id) => "提炼流程已完成；继任线程 ID："@ + thread_id + "。"@,
            None => "提炼流程已完成。"@,
        }
    }
}

/// The end of a distillation, in Chinese.
pub fn distill_end_zh(preview_only: bool, successor_thread_id: &Option<String>) -> (out: String)
    ensures
        out@ == distill_end_zh_text(preview_only, text::opt_text(*successor_thread_id)),
{
    if preview_only {
        "提炼流程已完成，当前是预览模式。".to_owned()
    } else {
        match successor_thread_id {
            Some(thread_id) => cat3("提炼流程已完成；继任线程 ID：", thread_id.as_str(), "。"),
            None => "提炼流程已完成。".to_owned(),
        }
    }
}

/// A step of a distillation, in English.
pub open spec fn distill_step_en_text(event: DistillProgressEventView) -> Seq<char> {
    match event {
        DistillProgressEventView::ResolvingTarget => "Resolving the source thread target."@,
        DistillProgressEventView::LoadingSessionSummary => "Loading the current session summary."@,
        DistillProgressEventView::RebuildingHistory => "Reconstructing rollout history."@,
        DistillProgressEventView::ReadingRolloutLines => "Reading raw rollout lines."@,
        DistillProgressEventView::AnalyzingHistory { history_items, raw_lines } => "Analyzing history signals from "@
            + numbers::decimal(history_items as int)
            + " items and "@
            + numbers::decimal(raw_lines as int)
            + " raw lines."@,
        DistillProgressEventView::BuildingDeterministicBrief => "Building the deterministic handoff brief."@,
        DistillProgressEventView::DeterministicBriefReady {
            user_messages,
            assistant_messages,
            durable_guidance,
            estimated_tokens,
        } => "Deterministic distill ready: kept "@
            + numbers::decimal(user_messages as int)
            + " user messages, "@
            + numbers::decimal(assistant_messages as int)
            + " assistant messages, "@
            + numbers::decimal(durable_guidance as int)
            + " durable guidance items, about "@
            + numbers::decimal(estimated_tokens as int)
            + " tokens."@,
        DistillProgressEventView::ResolvingRuntimeConfig => "Resolving the target runtime configuration."@,
        DistillProgressEventView::StartingCodexDistillation => "Starting Codex second-pass distillation."@,
        DistillProgressEventView::CodexEphemeralThreadStarted => "Ephemeral Codex distillation thread started."@,
        DistillProgressEventView::CodexTurnSubmitted => "Submitted the AI distillation prompt; waiting for completion."@,
        DistillProgressEventView::CodexDistillationCompleted { estimated_tokens } => "AI distillation completed at about "@
            + numbers::decimal(estimated_tokens as int)
            + " tokens."@,
        DistillProgressEventView::CodexDistillationFallback { error, estimated_tokens } => "AI distillation failed; fell back to deterministic brief at about "@
            + numbers::decimal(estimated_tokens as int)
            + " tokens. Cause: "@
            + error,
        DistillProgressEventView::BuildingReport => "Building the distillation report."@,
        DistillProgressEventView::PreviewReady => "Preview is ready; no successor thread will be created."@,
        DistillProgressEventView::WritingProfile { profile } => "Writing resolved runtime into profile `"@ + profile + "`."@,
        DistillProgressEventView::StartingSuccessorThread => "Starting the distilled successor thread."@,
        DistillProgressEventView::SuccessorThreadNamed { thread_name } => "Assigned successor thread name `"@ + thread_name + "`."@,
        DistillProgressEventView::SeedingSuccessorThread => "Submitting the handoff seed turn to the successor thread."@,
        DistillProgressEventView::SeedTurnCompleted => "Successor seed turn completed."@,
        DistillProgressEventView::ArchivingSource => "Archiving the source rollout."@,
        DistillProgressEventView::Completed { preview_only, successor_thread_id } => {
            distill_end_en_text(preview_only, successor_thread_id)
        },
    }
}

/// A step of a distillation, in English.
pub fn distill_step_en(event: &DistillProgressEvent) -> (out: String)
    ensures
        out@ == distill_step_en_text(event@),
{
    match event {
        DistillProgressEvent::ResolvingTarget => "Resolving the source thread target.".to_owned(),
        DistillProgressEvent::LoadingSessionSummary => "Loading the current session summary.".to_owned(),
        DistillProgressEvent::RebuildingHistory => "Reconstructing rollout history.".to_owned(),
        DistillProgressEvent::ReadingRolloutLines => "Reading raw rollout lines.".to_owned(),
        DistillProgressEvent::AnalyzingHistory { history_items, raw_lines } => cat5(
            "Analyzing history signals from ",
            usize_text(*history_items).as_str(),
            " items and ",
            usize_text(*raw_lines).as_str(),
            " raw lines.",
        ),
        DistillProgressEvent::BuildingDeterministicBrief => "Building the deterministic handoff brief.".to_owned(),
        DistillProgressEvent::DeterministicBriefReady {
            user_messages,
            assistant_messages,
            durable_guidance,
            estimated_tokens,
        } => cat9(
            "Deterministic distill ready: kept ",
            usize_text(*user_messages).as_str(),
            " user messages, ",
            usize_text(*assistant_messages).as_str(),
            " assistant messages, ",
            usize_text(*durable_guidance).as_str(),
            " durable guidance items, about ",
            usize_text(*estimated_tokens).as_str(),
            " tokens.",
        ),
        DistillProgressEvent::ResolvingRuntimeConfig => "Resolving the target runtime configuration.".to_owned(),
        DistillProgressEvent::StartingCodexDistillation => "Starting Codex second-pass distillation.".to_owned(),
        DistillProgressEvent::CodexEphemeralThreadStarted => "Ephemeral Codex distillation thread started.".to_owned(),
        DistillProgressEvent::CodexTurnSubmitted => "Submitted the AI distillation prompt; waiting for completion.".to_owned(),
        DistillProgressEvent::CodexDistillationCompleted { estimated_tokens } => cat3(
            "AI distillation completed at about ",
            usize_text(*estimated_tokens).as_str(),
            " tokens.",
        ),
        DistillProgressEvent::CodexDistillationFallback { error, estimated_tokens } => cat4(
            "AI distillation failed; fell back to deterministic brief at about ",
            usize_text(*estimated_tokens).as_str(),
            " tokens. Cause: ",
            error.as_str(),
        ),
        DistillProgressEvent::BuildingReport => "Building the distillation report.".to_owned(),
        DistillProgressEvent::PreviewReady => "Preview is ready; no successor thread will be created.".to_owned(),
        DistillProgressEvent::WritingProfile { profile } => cat3("Writing resolved runtime into profile `", profile.as_str(), "`."),
        DistillProgressEvent::StartingSuccessorThread => "Starting the distilled successor thread.".to_owned(),
        DistillProgressEvent::SuccessorThreadNamed { thread_name } => cat3("Assigned successor thread name `", thread_name.as_str(), "`."),
        DistillProgressEvent::SeedingSuccessorThread => "Submitting the handoff seed turn to the successor thread.".to_owned(),
        DistillProgressEvent::SeedTurnCompleted => "Successor seed turn completed.".to_owned(),
        DistillProgressEvent::ArchivingSource => "Archiving the source rollout.".to_owned(),
        DistillProgressEvent::Completed { preview_only, successor_thread_id } => {
            distill_end_en(*preview_only, successor_thread_id)
        },
    }
}

/// A step of a distillation, in Chinese.
pub open spec fn distill_step_zh_text(event: DistillProgressEventView) -> Seq<char> {
    match event {
        DistillProgressEventView::ResolvingTarget => "正在解析源线程目标。"@,
        DistillProgressEventView::LoadingSessionSummary => "正在加载当前会话摘要。"@,
        DistillProgressEventView::RebuildingHistory => "正在重建 rollout 历史。"@,
        DistillProgressEventView::ReadingRolloutLines => "正在读取原始 rollout 行。"@,
        DistillProgressEventView::AnalyzingHistory { history_items, raw_lines } => "正在分析历史信号："@
            + numbers::decimal(history_items as int)
            + " 条历史项，"@
            + numbers::decimal(raw_lines as int)
            + " 条原始行。"@,
        DistillProgressEventView::BuildingDeterministicBrief => "正在生成规则提炼 handoff。"@,
        DistillProgressEventView::DeterministicBriefReady {
            user_messages,
            assistant_messages,
            durable_guidance,
            estimated_tokens,
        } => "规则提炼完成：保留 "@
            + numbers::decimal(user_messages as int)
            + " 条用户消息、"@
            + numbers::decimal(assistant_messages as int)
            + " 条助手消息、"@
            + numbers::decimal(durable_guidance as int)
            + " 条长期约束，约 "@
            + numbers::decimal(estimated_tokens as int)
            + " tokens。"@,
        DistillProgressEventView::ResolvingRuntimeConfig => "正在解析目标运行时配置。"@,
        DistillProgressEventView::StartingCodexDistillation => "正在启动 Codex 二次蒸馏。"@,
        DistillProgressEventView::CodexEphemeralThreadStarted => "已启动临时 Codex 蒸馏线程。"@,
        DistillProgressEventView::CodexTurnSubmitted => "已提交 AI 蒸馏提示词，等待完成。"@,
        DistillProgressEventView::CodexDistillationCompleted { estimated_tokens } => "AI 蒸馏完成，结果约 "@ + numbers::decimal(estimated_tokens as int) + " tokens。"@,
        DistillProgressEventView::CodexDistillationFallback { error, estimated_tokens } => "AI 蒸馏失败，已回退到规则提炼结果，约 "@
            + numbers::decimal(estimated_tokens as int)
            + " tokens。原因："@
            + error,
        DistillProgressEventView::BuildingReport => "正在生成提炼报告。"@,
        DistillProgressEventView::PreviewReady => "预览结果已生成；不会创建继任线程。"@,
        DistillProgressEventView::WritingProfile { profile } => "正在把解析后的运行时写入 profile `"@ + profile + "`。"@,
        DistillProgressEventView::StartingSuccessorThread => "正在创建提炼后的继任线程。"@,
        DistillProgressEventView::SuccessorThreadNamed { thread_name } => "已设置继任线程标题：`"@ + thread_name + "`。"@,
        DistillProgressEventView::SeedingSuccessorThread => "正在向继任线程提交 handoff seed turn。"@,
        DistillProgressEventView::SeedTurnCompleted => "继任线程的 seed turn 已完成。"@,
        DistillProgressEventView::ArchivingSource => "正在归档源 rollout。"@,
        DistillProgressEventView::Completed { preview_only, successor_thread_id } => {
            distill_end_zh_text(preview_only, successor_thread_id)
        },
    }
}

/// A step of a distillation, in Chinese.
pub fn distill_step_zh(event: &DistillProgressEvent) -> (out: String)
    ensures
        out@ == distill_step_zh_text(event@),
{
    match event {
        DistillProgressEvent::ResolvingTarget => "正在解析源线程目标。".to_owned(),
        DistillProgressEvent::LoadingSessionSummary => "正在加载当前会话摘要。".to_owned(),
        DistillProgressEvent::RebuildingHistory => "正在重建 rollout 历史。".to_owned(),
        DistillProgressEvent::ReadingRolloutLines => "正在读取原始 rollout 行。".to_owned(),
        DistillProgressEvent::AnalyzingHistory { history_items, raw_lines } => cat5(
            "正在分析历史信号：",
            usize_text(*history_items).as_str(),
            " 条历史项，",
            usize_text(*raw_lines).as_str(),
            " 条原始行。",
        ),
        DistillProgressEvent::BuildingDeterministicBrief => "正在生成规则提炼 handoff。".to_owned(),
        DistillProgressEvent::DeterministicBriefReady {
            user_messages,
            assistant_messages,
            durable_guidance,
            estimated_tokens,
        } => cat9(
            "规则提炼完成：保留 ",
            usize_text(*user_messages).as_str(),
            " 条用户消息、",
            usize_text(*assistant_messages).as_str(),
            " 条助手消息、",
            usize_text(*durable_guidance).as_str(),
            " 条长期约束，约 ",
            usize_text(*estimated_tokens).as_str(),
            " tokens。",
        ),
        DistillProgressEvent::ResolvingRuntimeConfig => "正在解析目标运行时配置。".to_owned(),
        DistillProgressEvent::StartingCodexDistillation => "正在启动 Codex 二次蒸馏。".to_owned(),
        DistillProgressEvent::CodexEphemeralThreadStarted => "已启动临时 Codex 蒸馏线程。".to_owned(),
        DistillProgressEvent::CodexTurnSubmitted => "已提交 AI 蒸馏提示词，等待完成。".to_owned(),
        DistillProgressEvent::CodexDistillationCompleted { estimated_tokens } => cat3("AI 蒸馏完成，结果约 ", usize_text(*estimated_tokens).as_str(), " tokens。"),
        DistillProgressEvent::CodexDistillationFallback { error, estimated_tokens } => cat4(
            "AI 蒸馏失败，已回退到规则提炼结果，约 ",
            usize_text(*estimated_tokens).as_str(),
            " tokens。原因：",
            error.as_str(),
        ),
        DistillProgressEvent::BuildingReport => "正在生成提炼报告。".to_owned(),
        DistillProgressEvent::PreviewReady => "预览结果已生成；不会创建继任线程。".to_owned(),
        DistillProgressEvent::WritingProfile { profile } => cat3("正在把解析后的运行时写入 profile `", profile.as_str(), "`。"),
        DistillProgressEvent::StartingSuccessorThread => "正在创建提炼后的继任线程。".to_owned(),
        DistillProgressEvent::SuccessorThreadNamed { thread_name } => cat3("已设置继任线程标题：`", thread_name.as_str(), "`。"),
        DistillProgressEvent::SeedingSuccessorThread => "正在向继任线程提交 handoff seed turn。".to_owned(),
        DistillProgressEvent::SeedTurnCompleted => "继任线程的 seed turn 已完成。".to_owned(),
        DistillProgressEvent::ArchivingSource => "正在归档源 rollout。".to_owned(),
        DistillProgressEvent::Completed { preview_only, successor_thread_id } => {
            distill_end_zh(*preview_only, successor_thread_id)
        },
    }
}

/// How a switch reaches its target, in English.
pub open spec fn smart_strategy_en_text(strategy: SmartStrategyKind) -> Seq<char> {
    match strategy {
        SmartStrategyKind::SameThreadProfileOnly => "same-thread profile update"@,
        SmartStrategyKind::SameThreadRepair => "same-thread repair"@,
        SmartStrategyKind::SameThreadRepairAfterCompaction => "same-thread compact then repair"@,
        SmartStrategyKind::CrossProviderMigrate => "cross-provider migrate"@,
        SmartStrategyKind::CrossProviderMigrateAfterCompaction => "cross-provider compact then migrate"@,
        SmartStrategyKind::DistillSuccessor => "distill successor session"@,
    }
}

/// How a switch reaches its target, in English.
pub fn smart_strategy_label_en(strategy: SmartStrategyKind) -> (out: &'static str)
    ensures
        out@ == smart_strategy_en_text(strategy),
{
    match strategy {
        SmartStrategyKind::SameThreadProfileOnly => "same-thread profile update",
        SmartStrategyKind::SameThreadRepair => "same-thread repair",
        SmartStrategyKind::SameThreadRepairAfterCompaction => "same-thread compact then repair",
        SmartStrategyKind::CrossProviderMigrate => "cross-provider migrate",
        SmartStrategyKind::CrossProviderMigrateAfterCompaction => "cross-provider compact then migrate",
        SmartStrategyKind::DistillSuccessor => "distill successor session",
    }
}

/// How a switch reaches its target, in Chinese.
pub open spec fn smart_strategy_zh_text(strategy: SmartStrategyKind) -> Seq<char> {
    match strategy {
        SmartStrategyKind::SameThreadProfileOnly => "同线程仅更新 profile"@,
        SmartStrategyKind::SameThreadRepair => "同线程修复"@,
        SmartStrategyKind::SameThreadRepairAfterCompaction => "同线程先压缩再修复"@,
        SmartStrategyKind::CrossProviderMigrate => "跨 provider 迁移"@,
        SmartStrategyKind::CrossProviderMigrateAfterCompaction => "跨 provider 先压缩再迁移"@,
        SmartStrategyKind::DistillSuccessor => "提炼轻量继任会话"@,
    }
}

/// How a switch reaches its target, in Chinese.
pub fn smart_strategy_label_zh(strategy: SmartStrategyKind) -> (out: &'static str)
    ensures
        out@ == smart_strategy_zh_text(strategy),
{
    match strategy {
        SmartStrategyKind::SameThreadProfileOnly => "同线程仅更新 profile",
        SmartStrategyKind::SameThreadRepair => "同线程修复",
        SmartStrategyKind::SameThreadRepairAfterCompaction => "同线程先压缩再修复",
        SmartStrategyKind::CrossProviderMigrate => "跨 provider 迁移",
        SmartStrategyKind::CrossProviderMigrateAfterCompaction => "跨 provider 先压缩再迁移",
        SmartStrategyKind::DistillSuccessor => "提炼轻量继任会话",
    }
}

/// A mode of distillation, in Chinese.
pub open spec fn mode_word_zh_text(mode: DistillMode) -> Seq<char> {
    match mode {
        DistillMode::Codex => "Codex 提炼"@,
        DistillMode::Deterministic => "规则提炼"@,
    }
}

/// A mode of distillation, in Chinese.
pub fn mode_word_zh(mode: DistillMode) -> (out: &'static str)
    ensures
        out@ == mode_word_zh_text(mode),
{
    match mode {
        DistillMode::Codex => "Codex 提炼",
        DistillMode::Deterministic => "规则提炼",
    }
}

/// A compression level, in Chinese.
pub open spec fn level_word_zh_text(level: DistillCompressionLevel) -> Seq<char> {
    match level {
        DistillCompressionLevel::Lossless => "无损压缩"@,
        DistillCompressionLevel::Balanced => "中等压缩"@,
        DistillCompressionLevel::Aggressive => "极限压缩"@,
    }
}

/// A compression level, in Chinese.
pub fn level_word_zh(level: DistillCompressionLevel) -> (out: &'static str)
    ensures
        out@ == level_word_zh_text(level),
{
    match level {
        DistillCompressionLevel::Lossless => "无损压缩",
        DistillCompressionLevel::Balanced => "中等压缩",
        DistillCompressionLevel::Aggressive => "极限压缩",
    }
}

/// A step of a switch, in English.
pub open spec fn smart_step_en_text(event: SmartProgressEventView) -> Seq<char> {
    match event {
        SmartProgressEventView::StrategyConfirmed { strategy, provider, model, target_context_window } => "Smart strategy confirmed: "@
            + smart_strategy_en_text(strategy)
            + " -> provider `"@
            + provider
            + "`, model `"@
            + model
            + "`, target window "@
            + numbers::opt_decimal(numbers::opt_int_i64(target_context_window), "unknown"@)
            + "."@,
        SmartProgressEventView::StartingDistill { mode, compression_level } => "Delegating to the distill pipeline in `"@
            + cli::distill_mode_text(mode)
            + "` mode with `"@
            + cli::compression_level_text(compression_level)
            + "` compression."@,
        SmartProgressEventView::CheckingContextWindow { current_tokens, target_window } => "Checking context pressure: current tokens "@
            + numbers::decimal(current_tokens as int)
            + ", target window "@
            + numbers::decimal(target_window as int)
            + "."@,
        SmartProgressEventView::RunningCompaction { attempt, max_attempts } => "Running pre-switch compaction "@
            + numbers::decimal(attempt as int)
            + "/"@
            + numbers::decimal(max_attempts as int)
            + "."@,
        SmartProgressEventView::ReloadingSummaryAfterCompaction { attempt } => "Reloading session summary after compaction "@ + numbers::decimal(attempt as int) + "."@,
        SmartProgressEventView::WritingProfile { profile } => "Writing the resolved runtime into profile `"@ + profile + "`."@,
        SmartProgressEventView::RepairingResumeState { provider, model, context_window } => "Repairing persisted resume state for provider `"@
            + provider
            + "`, model `"@
            + model
            + "`, context window "@
            + numbers::opt_decimal(numbers::opt_int_i64(context_window), "unknown"@)
            + "."@,
        SmartProgressEventView::SnapshottingThreadList => "Snapshotting the existing thread list before migration."@,
        SmartProgressEventView::RunningMigration => "Running cross-provider migration."@,
        SmartProgressEventView::RefreshingThreadList => "Refreshing the thread list to locate the successor thread."@,
        SmartProgressEventView::Completed { thread_id } => match thread_id {
            Some(thread_id) => "Smart flow completed; selected thread id: "@ + thread_id + "."@,
            None => "Smart flow completed."@,
        },
    }
}

/// A step of a switch, in English.
pub fn smart_step_en(event: &SmartProgressEvent) -> (out: String)
    ensures
        out@ == smart_step_en_text(event@),
{
    match event {
        SmartProgressEvent::StrategyConfirmed { strategy, provider, model, target_context_window } => cat9(
            "Smart strategy confirmed: ",
            smart_strategy_label_en(*strategy),
            " -> provider `",
            provider.as_str(),
            "`, model `",
            model.as_str(),
            "`, target window ",
            opt_i64_text(*target_context_window, "unknown").as_str(),
            ".",
        ),
        SmartProgressEvent::StartingDistill { mode, compression_level } => cat5(
            "Delegating to the distill pipeline in `",
            distill_mode_name(*mode),
            "` mode with `",
            compression_level_name(*compression_level),
            "` compression.",
        ),
        SmartProgressEvent::CheckingContextWindow { current_tokens, target_window } => cat5(
            "Checking context pressure: current tokens ",
            i64_text(*current_tokens).as_str(),
            ", target window ",
            i64_text(*target_window).as_str(),
            ".",
        ),
        SmartProgressEvent::RunningCompaction { attempt, max_attempts } => cat5(
            "Running pre-switch compaction ",
            u32_text(*attempt).as_str(),
            "/",
            u32_text(*max_attempts).as_str(),
            ".",
        ),
        SmartProgressEvent::ReloadingSummaryAfterCompaction { attempt } => cat3("Reloading session summary after compaction ", u32_text(*attempt).as_str(), "."),
        SmartProgressEvent::WritingProfile { profile } => cat3("Writing the resolved runtime into profile `", profile.as_str(), "`."),
        SmartProgressEvent::RepairingResumeState { provider, model, context_window } => cat7(
            "Repairing persisted resume state for provider `",
            provider.as_str(),
            "`, model `",
            model.as_str(),
            "`, context window ",
            opt_i64_text(*context_window, "unknown").as_str(),
            ".",
        ),
        SmartProgressEvent::SnapshottingThreadList => "Snapshotting the existing thread list before migration.".to_owned(),
        SmartProgressEvent::RunningMigration => "Running cross-provider migration.".to_owned(),
        SmartProgressEvent::RefreshingThreadList => "Refreshing the thread list to locate the successor thread.".to_owned(),
        SmartProgressEvent::Completed { thread_id } => match thread_id {
            Some(thread_id) => cat3("Smart flow completed; selected thread id: ", thread_id.as_str(), "."),
            None => "Smart flow completed.".to_owned(),
        },
    }
}

/// A step of a switch, in Chinese.
pub open spec fn smart_step_zh_text(event: SmartProgressEventView) -> Seq<char> {
    match event {
        SmartProgressEventView::StrategyConfirmed { strategy, provider, model, target_context_window } => "Smart 策略已确认："@
            + smart_strategy_zh_text(strategy)
            + " -> provider `"@
            + provider
            + "`，model `"@
            + model
            + "`，目标窗口 "@
            + numbers::opt_decimal(numbers::opt_int_i64(target_context_window), "未知"@)
            + "。"@,
        SmartProgressEventView::StartingDistill { mode, compression_level } => "正在进入 distill 流程，模式："@
            + mode_word_zh_text(mode)
            + "，压缩等级："@
            + level_word_zh_text(compression_level)
            + "。"@,
        SmartProgressEventView::CheckingContextWindow { current_tokens, target_window } => "正在检查上下文压力：当前 "@
            + numbers::decimal(current_tokens as int)
            + " tokens，目标窗口 "@
            + numbers::decimal(target_window as int)
            + "。"@,
        SmartProgressEventView::RunningCompaction { attempt, max_attempts } => "正在执行切换前压缩 "@
            + numbers::decimal(attempt as int)
            + "/"@
            + numbers::decimal(max_attempts as int)
            + "。"@,
        SmartProgressEventView::ReloadingSummaryAfterCompaction { attempt } => "正在重新加载压缩 "@ + numbers::decimal(attempt as int) + " 后的会话摘要。"@,
        SmartProgressEventView::WritingProfile { profile } => "正在把解析后的运行时写入 profile `"@ + profile + "`。"@,
        SmartProgressEventView::RepairingResumeState { provider, model, context_window } => "正在修复持久化 resume 状态：provider `"@
            + provider
            + "`，model `"@
            + model
            + "`，上下文窗口 "@
            + numbers::opt_decimal(numbers::opt_int_i64(context_window), "未知"@)
            + "。"@,
        SmartProgressEventView::SnapshottingThreadList => "正在为迁移前的线程列表建立快照。"@,
        SmartProgressEventView::RunningMigration => "正在执行跨 provider 迁移。"@,
        SmartProgressEventView::RefreshingThreadList => "正在刷新线程列表以定位继任线程。"@,
        SmartProgressEventView::Completed { thread_id } => match thread_id {
            Some(thread_id) => "Smart 流程已完成；目标线程 ID："@ + thread_id + "。"@,
            None => "Smart 流程已完成。"@,
        },
    }
}

/// A step of a switch, in Chinese.
pub fn smart_step_zh(event: &SmartProgressEvent) -> (out: String)
    ensures
        out@ == smart_step_zh_text(event@),
{
    match event {
        SmartProgressEvent::StrategyConfirmed { strategy, provider, model, target_context_window } => cat9(
            "Smart 策略已确认：",
            smart_strategy_label_zh(*strategy),
            " -> provider `",
            provider.as_str(),
            "`，model `",
            model.as_str(),
            "`，目标窗口 ",
            opt_i64_text(*target_context_window, "未知").as_str(),
            "。",
        ),
        SmartProgressEvent::StartingDistill { mode, compression_level } => cat5(
            "正在进入 distill 流程，模式：",
            mode_word_zh(*mode),
            "，压缩等级：",
            level_word_zh(*compression_level),
            "。",
        ),
        SmartProgressEvent::CheckingContextWindow { current_tokens, target_window } => cat5(
            "正在检查上下文压力：当前 ",
            i64_text(*current_tokens).as_str(),
            " tokens，目标窗口 ",
            i64_text(*target_window).as_str(),
            "。",
        ),
        SmartProgressEvent::RunningCompaction { attempt, max_attempts } => cat5(
            "正在执行切换前压缩 ",
            u32_text(*attempt).as_str(),
            "/",
            u32_text(*max_attempts).as_str(),
            "。",
        ),
        SmartProgressEvent::ReloadingSummaryAfterCompaction { attempt } => cat3("正在重新加载压缩 ", u32_text(*attempt).as_str(), " 后的会话摘要。"),
        SmartProgressEvent::WritingProfile { profile } => cat3("正在把解析后的运行时写入 profile `", profile.as_str(), "`。"),
        SmartProgressEvent::RepairingResumeState { provider, model, context_window } => cat7(
            "正在修复持久化 resume 状态：provider `",
            provider.as_str(),
            "`，model `",
            model.as_str(),
            "`，上下文窗口 ",
            opt_i64_text(*context_window, "未知").as_str(),
            "。",
        ),
        SmartProgressEvent::SnapshottingThreadList => "正在为迁移前的线程列表建立快照。".to_owned(),
        SmartProgressEvent::RunningMigration => "正在执行跨 provider 迁移。".to_owned(),
        SmartProgressEvent::RefreshingThreadList => "正在刷新线程列表以定位继任线程。".to_owned(),
        SmartProgressEvent::Completed { thread_id } => match thread_id {
            Some(thread_id) => cat3("Smart 流程已完成；目标线程 ID：", thread_id.as_str(), "。"),
            None => "Smart 流程已完成。".to_owned(),
        },
    }
}

/// A step of a distillation.
pub open spec fn distill_progress_text(
    language: Language,
    event: DistillProgressEventView,
) -> Seq<char> {
    match language {
        Language::English => distill_step_en_text(event),
        Language::Chinese => distill_step_zh_text(event),
    }
}

/// A step of a distillation.
pub fn format_distill_progress(language: Language, event: &DistillProgressEvent) -> (out: String)
    ensures
        out@ == distill_progress_text(language, event@),
{
    match language {
        Language::English => distill_step_en(event),
        Language::Chinese => distill_step_zh(event),
    }
}

/// A step of a switch.
pub open spec fn smart_progress_text(
    language: Language,
    event: SmartProgressEventView,
) -> Seq<char> {
    match language {
        Language::English => smart_step_en_text(event),
        Language::Chinese => smart_step_zh_text(event),
    }
}

/// A step of a switch.
pub fn format_smart_progress(language: Language, event: &SmartProgressEvent) -> (out: String)
    ensures
        out@ == smart_progress_text(language, event@),
{
    match language {
        Language::English => smart_step_en(event),
        Language::Chinese => smart_step_zh(event),
    }
}

/// A step of an operation.
pub open spec fn progress_text(language: Language, event: OperationProgressEventView) -> Seq<char> {
    match event {
        OperationProgressEventView::Distill(event) => distill_progress_text(language, event),
        OperationProgressEventView::Smart(event) => smart_progress_text(language, event),
    }
}

/// A step of an operation.
pub fn format_progress_event(language: Language, event: &OperationProgressEvent) -> (out: String)
    ensures
        out@ == progress_text(language, event@),
{
    match event {
        OperationProgressEvent::Distill(event) => format_distill_progress(language, event),
        OperationProgressEvent::Smart(event) => format_smart_progress(language, event),
    }
}

proof fn told_between(text: Seq<char>, front: Seq<char>, value: Seq<char>, back: Seq<char>)
    requires
        text == front + value + back,
    ensures
        crate::search::contains(text, value),
{
    crate::search::text_stands_between_others(text, value);
}

/// A step of a distillation tells what it is about, in either language: the
/// profile, the name of the successor, its id, or why rewriting failed.
pub proof fn distillation_steps_tell_their_subject(
    language: Language,
    name: Seq<char>,
    tokens: usize,
)
    ensures
        crate::search::contains(
            distill_progress_text(
                language,
                DistillProgressEventView::WritingProfile { profile: name },
            ),
            name,
        ),
        crate::search::contains(
            distill_progress_text(
                language,
                DistillProgressEventView::SuccessorThreadNamed { thread_name: name },
            ),
            name,
        ),
        crate::search::contains(
            distill_progress_text(
                language,
                DistillProgressEventView::CodexDistillationFallback {
                    error: name,
                    estimated_tokens: tokens,
                },
            ),
            name,
        ),
        crate::search::contains(
            distill_progress_text(
                language,
                DistillProgressEventView::CodexDistillationFallback {
                    error: name,
                    estimated_tokens: tokens,
                },
            ),
            numbers::decimal(tokens as int),
        ),
        crate::search::contains(
            distill_progress_text(
                language,
                DistillProgressEventView::CodexDistillationCompleted { estimated_tokens: tokens },
            ),
            numbers::decimal(tokens as int),
        ),
        crate::search::contains(
            distill_progress_text(
                language,
                DistillProgressEventView::Completed {
                    preview_only: false,
                    successor_thread_id: Some(name),
                },
            ),
            name,
        ),
{
    let none = Seq::<char>::empty();
    let written = DistillProgressEventView::WritingProfile { profile: name };
    let named = DistillProgressEventView::SuccessorThreadNamed { thread_name: name };
    let failed = DistillProgressEventView::CodexDistillationFallback {
        error: name,
        estimated_tokens: tokens,
    };
    let done = DistillProgressEventView::CodexDistillationCompleted { estimated_tokens: tokens };
    let ended = DistillProgressEventView::Completed {
        preview_only: false,
        successor_thread_id: Some(name),
    };
    let count = numbers::decimal(tokens as int);
    match language {
        Language::English => {
            told_between(
                distill_step_en_text(written),
                "Writing resolved runtime into profile `"@,
                name,
                "`."@,
            );
            told_between(
                distill_step_en_text(named),
                "Assigned successor thread name `"@,
                name,
                "`."@,
            );
            let front = "AI distillation failed; fell back to deterministic brief at about "@;
            let middle = " tokens. Cause: "@;
            let text = distill_step_en_text(failed);
            assert(text =~= front + count + middle + name + none);
            told_between(text, front + count + middle, name, none);
            assert(text =~= front + count + (middle + name));
            told_between(text, front, count, middle + name);
            told_between(
                distill_step_en_text(done),
                "AI distillation completed at about "@,
                count,
                " tokens."@,
            );
            told_between(
                distill_step_en_text(ended),
                "Distill flow completed; successor thread id: "@,
                name,
                "."@,
            );
        },
        Language::Chinese => {
            told_between(
                distill_step_zh_text(written),
                "正在把解析后的运行时写入 profile `"@,
                name,
                "`。"@,
            );
            told_between(distill_step_zh_text(named), "已设置继任线程标题：`"@, name, "`。"@);
            let front = "AI 蒸馏失败，已回退到规则提炼结果，约 "@;
            let middle = " tokens。原因："@;
            let text = distill_step_zh_text(failed);
            assert(text =~= front + count + middle + name + none);
            told_between(text, front + count + middle, name, none);
            assert(text =~= front + count + (middle + name));
            told_between(text, front, count, middle + name);
            told_between(
                distill_step_zh_text(done),
                "AI 蒸馏完成，结果约 "@,
                count,
                " tokens。"@,
            );
            told_between(
                distill_step_zh_text(ended),
                "提炼流程已完成；继任线程 ID："@,
                name,
                "。"@,
            );
        },
    }
}

/// A step of a switch tells what it is about, in either language: the provider and
/// the model, the profile, the compaction that runs, and the session at the end.
pub proof fn switching_steps_tell_their_subject(
    language: Language,
    name: Seq<char>,
    other: Seq<char>,
    strategy: SmartStrategyKind,
    window: Option<i64>,
    attempt: u32,
    most: u32,
)
    ensures
        ({
            let text = smart_progress_text(
                language,
                SmartProgressEventView::StrategyConfirmed {
                    strategy,
                    provider: name,
                    model: other,
                    target_context_window: window,
                },
            );
            crate::search::contains(text, name) && crate::search::contains(text, other)
        }),
        ({
            let text = smart_progress_text(
                language,
                SmartProgressEventView::RunningCompaction { attempt, max_attempts: most },
            );
            crate::search::contains(
                text,
                numbers::decimal(attempt as int) + "/"@ + numbers::decimal(most as int),
            )
        }),
        crate::search::contains(
            smart_progress_text(language, SmartProgressEventView::WritingProfile { profile: name }),
            name,
        ),
        crate::search::contains(
            smart_progress_text(
                language,
                SmartProgressEventView::Completed { thread_id: Some(name) },
            ),
            name,
        ),
{
    let confirmed = SmartProgressEventView::StrategyConfirmed {
        strategy,
        provider: name,
        model: other,
        target_context_window: window,
    };
    let running = SmartProgressEventView::RunningCompaction { attempt, max_attempts: most };
    let written = SmartProgressEventView::WritingProfile { profile: name };
    let ended = SmartProgressEventView::Completed { thread_id: Some(name) };
    let runs = numbers::decimal(attempt as int) + "/"@ + numbers::decimal(most as int);
    match language {
        Language::English => {
            let front = "Smart strategy confirmed: "@ + smart_strategy_en_text(strategy)
                + " -> provider `"@;
            let middle = "`, model `"@;
            let back = "`, target window "@ + numbers::opt_decimal(
                numbers::opt_int_i64(window),
                "unknown"@,
            ) + "."@;
            let text = smart_step_en_text(confirmed);
            assert(text =~= front + name + (middle + other + back));
            told_between(text, front, name, middle + other + back);
            assert(text =~= front + name + middle + other + back);
            told_between(text, front + name + middle, other, back);
            let text = smart_step_en_text(running);
            assert(text =~= "Running pre-switch compaction "@ + runs + "."@);
            told_between(text, "Running pre-switch compaction "@, runs, "."@);
            told_between(
                smart_step_en_text(written),
                "Writing the resolved runtime into profile `"@,
                name,
                "`."@,
            );
            told_between(
                smart_step_en_text(ended),
                "Smart flow completed; selected thread id: "@,
                name,
                "."@,
            );
        },
        Language::Chinese => {
            let front = "Smart 策略已确认："@ + smart_strategy_zh_text(strategy)
                + " -> provider `"@;
            let middle = "`，model `"@;
            let back = "`，目标窗口 "@ + numbers::opt_decimal(
                numbers::opt_int_i64(window),
                "未知"@,
            ) + "。"@;
            let text = smart_step_zh_text(confirmed);
            assert(text =~= front + name + (middle + other + back));
            told_between(text, front, name, middle + other + back);
            assert(text =~= front + name + middle + other + back);
            told_between(text, front + name + middle, other, back);
            let text = smart_step_zh_text(running);
            assert(text =~= "正在执行切换前压缩 "@ + runs + "。"@);
            told_between(text, "正在执行切换前压缩 "@, runs, "。"@);
            told_between(
                smart_step_zh_text(written),
                "正在把解析后的运行时写入 profile `"@,
                name,
                "`。"@,
            );
            told_between(
                smart_step_zh_text(ended),
                "Smart 流程已完成；目标线程 ID："@,
                name,
                "。"@,
            );
        },
    }
}

} // verus!
