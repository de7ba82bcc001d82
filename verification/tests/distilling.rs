use codex_session_manager::cli::DistillArgs;
use codex_session_manager::cli::DistillCompressionLevel;
use codex_session_manager::cli::DistillMode;
use codex_session_manager::cli::TargetArgs;
use codex_session_manager::distill::analyze_rollout;
use codex_session_manager::distill::build_distilled_brief;
use codex_session_manager::distill::build_report;
use codex_session_manager::distill::codex_distillation_prompt;
use codex_session_manager::distill::collect_pinned_facts;
use codex_session_manager::distill::default_distilled_thread_name;
use codex_session_manager::distill::distill_error_message;
use codex_session_manager::distill::handoff_seed_prompt;
use codex_session_manager::distill::is_durable_guidance;
use codex_session_manager::distill::is_high_priority_guidance;
use codex_session_manager::distill::parse_reasoning_effort;
use codex_session_manager::distill::prompt_reconstruction_notes;
use codex_session_manager::distill::propose_thread_name;
use codex_session_manager::distill::render_output_lines;
use codex_session_manager::distill::take_tail_dedup;
use codex_session_manager::distill::CompressionRatio;
use codex_session_manager::distill::DistillAnalysis;
use codex_session_manager::distill::DistillCompressionPolicy;
use codex_session_manager::distill::DistillError;
use codex_session_manager::distill::DistillReportOptions;
use codex_session_manager::distill::ReasoningEffort;
use codex_session_manager::distill_flow::execute_with_progress;
use codex_session_manager::distill_flow::prepare_distillation;
use codex_session_manager::distill_flow::DistillAction;
use codex_session_manager::distill_flow::DistillEvent;
use codex_session_manager::distill_flow::DistillPrepareAction;
use codex_session_manager::distill_flow::DistillPrepareEvent;
use codex_session_manager::distill_flow::DistillRun;
use codex_session_manager::numbers::approx_token_count;
use codex_session_manager::preview::NextTurnContextStrategy;
use codex_session_manager::preview::PromptPreviewSnapshot;
use codex_session_manager::progress::DistillProgressEvent;
use codex_session_manager::rollout::CompactedItem;
use codex_session_manager::rollout::ContentItem;
use codex_session_manager::rollout::EventMsg;
use codex_session_manager::rollout::ItemKind;
use codex_session_manager::rollout::ResponseItem;
use codex_session_manager::rollout::RolloutItem;
use codex_session_manager::rollout::RolloutLine;
use codex_session_manager::rollout::TurnItem;
use codex_session_manager::types::RuntimeConfig;
use codex_session_manager::types::SessionSummary;

fn response_message(role: &str, text: &str) -> ResponseItem {
    if role == "assistant" {
        ResponseItem {
            kind: ItemKind::Message {
                role: role.to_string(),
                content: vec![ContentItem::OutputText { text: text.to_string() }],
            },
            turn: TurnItem::AgentMessage { content: vec![text.to_string()] },
            encoded_bytes: Some(80),
        }
    } else {
        ResponseItem {
            kind: ItemKind::Message {
                role: role.to_string(),
                content: vec![ContentItem::InputText { text: text.to_string() }],
            },
            turn: TurnItem::UserMessage { message: text.to_string() },
            encoded_bytes: Some(80),
        }
    }
}

fn summary() -> SessionSummary {
    SessionSummary {
        thread_id: "thread-1".to_string(),
        thread_name: Some("Session Alpha".to_string()),
        rollout_path: "D:/tmp/rollout.jsonl".to_string(),
        archived: false,
        source: "cli".to_string(),
        session_provider: Some("openai".to_string()),
        session_cwd: "D:/tmp".to_string(),
        session_timestamp: "2026-03-13T00:00:00Z".to_string(),
        latest_model: Some("gpt-5.4".to_string()),
        latest_total_tokens: Some(12345),
        latest_context_tokens: Some(400000),
        latest_model_context_window: Some(950000),
        user_turns: 12,
        first_user_message: Some("bootstrap".to_string()),
        forked_from_id: None,
        memory_mode: None,
    }
}

fn target_runtime_config() -> RuntimeConfig {
    RuntimeConfig {
        codex_home: "/tmp/home".to_string(),
        cwd: "/tmp".to_string(),
        model: Some("gpt-5.2".to_string()),
        model_provider_id: "openai".to_string(),
        model_context_window: None,
        model_auto_compact_token_limit: None,
        developer_instructions: None,
        user_instructions: None,
        approval_policy: "on-request".to_string(),
        sandbox_policy: "read-only".to_string(),
        personality: None,
    }
}

fn snapshot(history: Vec<ResponseItem>, strategy: NextTurnContextStrategy) -> PromptPreviewSnapshot {
    PromptPreviewSnapshot {
        history_items_count: history.len(),
        reconstructed_history: history,
        history_tokens_estimate: 100,
        base_instructions_tokens_estimate: 0,
        tool_schema_tokens_estimate: 0,
        tool_count: 0,
        tool_names: Vec::new(),
        previous_turn_model: Some("gpt-5.4".to_string()),
        reference_context_item: None,
        context_strategy: strategy,
        latest_compaction_summary: None,
        latest_compaction_replacement_items: None,
        memory_prompt_available: false,
        memory_summary_tokens_estimate: None,
        developer_instructions_present: false,
        user_instructions_present: false,
        prompt_sections: Vec::new(),
        history_tail: Vec::new(),
    }
}

fn full_context() -> NextTurnContextStrategy {
    NextTurnContextStrategy::FullInitialContext {
        model_switch_message: false,
        memory_prompt: false,
        developer_instructions: false,
        user_instructions: false,
    }
}

fn no_analysis() -> DistillAnalysis {
    DistillAnalysis {
        latest_compaction_summary: None,
        recent_user_messages: vec![],
        recent_assistant_messages: vec![],
        durable_guidance: vec![],
        pinned_facts: vec![],
        prompt_reconstruction_notes: vec![],
        recent_warnings: vec![],
        recent_errors: vec![],
    }
}

fn balanced() -> DistillCompressionPolicy {
    DistillCompressionPolicy::for_level(DistillCompressionLevel::Balanced)
}

fn args() -> DistillArgs {
    DistillArgs {
        target: TargetArgs { target: "thread-1".to_string(), config_profile: None },
        provider: None,
        model: None,
        context_window: None,
        auto_compact_token_limit: None,
        distill_mode: DistillMode::Deterministic,
        compression_level: DistillCompressionLevel::Balanced,
        reasoning_effort: None,
        thread_name: None,
        write_profile: None,
        archive_source: false,
        preview_only: false,
        json: false,
        recent_turns: 8,
        timeout_secs: 300,
    }
}

#[test]
fn analyze_rollout_collects_recent_signals() {
    let reconstructed_items = vec![
        response_message("user", "first request"),
        response_message("assistant", "first result"),
        response_message("user", "second request"),
        response_message("assistant", "second result"),
    ];
    let raw_rollout_lines = vec![
        RolloutLine {
            timestamp: "2026-03-13T00:00:00Z".to_string(),
            item: RolloutItem::Compacted(CompactedItem {
                message: "summary of older work".to_string(),
                replacement_history: None,
            }),
        },
        RolloutLine {
            timestamp: "2026-03-13T00:00:01Z".to_string(),
            item: RolloutItem::EventMsg(EventMsg::Warning { message: "warning one".to_string() }),
        },
    ];
    let prompt_preview = snapshot(reconstructed_items.clone(), full_context());

    let analysis = analyze_rollout(
        &reconstructed_items,
        &raw_rollout_lines,
        &prompt_preview,
        2,
        balanced(),
    );
    assert_eq!(
        analysis.recent_user_messages,
        vec!["first request".to_string(), "second request".to_string()]
    );
    assert_eq!(
        analysis.recent_assistant_messages,
        vec!["first result".to_string(), "second result".to_string()]
    );
    assert_eq!(analysis.latest_compaction_summary, Some("summary of older work".to_string()));
    assert_eq!(analysis.recent_warnings, vec!["warning one".to_string()]);
}

#[test]
fn build_distilled_brief_includes_key_sections() {
    let analysis = DistillAnalysis {
        latest_compaction_summary: Some("older summary".to_string()),
        recent_user_messages: vec!["do task".to_string()],
        recent_assistant_messages: vec!["task done".to_string()],
        durable_guidance: vec!["always prefer source-backed fixes".to_string()],
        pinned_facts: vec!["- Critical guidance: always prefer source-backed fixes".to_string()],
        prompt_reconstruction_notes: vec![
            "- Reconstructed model-visible history items: 12".to_string(),
        ],
        recent_warnings: vec![],
        recent_errors: vec!["failure".to_string()],
    };

    let brief = build_distilled_brief(&summary(), &analysis, balanced());
    assert!(brief.contains("# Source Thread"));
    assert!(brief.contains("# Pinned Facts"));
    assert!(brief.contains("# Existing Compaction Summary"));
    assert!(brief.contains("# Next-Turn Prompt Reconstruction"));
    assert!(brief.contains("# Recent User Requests"));
    assert!(brief.contains("# Recent Assistant Outcomes"));
    assert!(brief.contains("# Recent Warnings And Errors"));
}

#[test]
fn build_report_estimates_compression_ratio() {
    let analysis = DistillAnalysis {
        recent_user_messages: vec!["one".to_string()],
        recent_assistant_messages: vec!["two".to_string()],
        ..no_analysis()
    };
    let brief = "abcd".repeat(400);
    let report = build_report(
        &summary(),
        &analysis,
        brief.as_str(),
        "Distilled".to_string(),
        &target_runtime_config(),
        &DistillReportOptions {
            distill_mode: DistillMode::Deterministic,
            compression_level: DistillCompressionLevel::Balanced,
            distill_note: None,
        },
    );
    assert_eq!(report.successor_seed_tokens_estimate, approx_token_count(brief.as_str()));
    assert!(report.compression_ratio.is_some());
    assert_eq!(report.successor_thread_name, "Distilled");
    assert_eq!(report.successor_provider, "openai");
    assert_eq!(report.distill_mode, "deterministic");
    assert_eq!(report.compression_level, "balanced");
    assert_eq!(
        report.compression_ratio,
        Some(CompressionRatio { seed_tokens: 400, source_tokens: 400000 })
    );
}

#[test]
fn parse_reasoning_effort_accepts_known_values() {
    assert_eq!(
        parse_reasoning_effort(Some("minimal")).expect("parse"),
        Some(ReasoningEffort::Minimal)
    );
    assert_eq!(
        parse_reasoning_effort(Some("xhigh")).expect("parse"),
        Some(ReasoningEffort::XHigh)
    );
    assert!(parse_reasoning_effort(Some("unknown")).is_err());
}

#[test]
fn collect_pinned_facts_keeps_critical_guidance_and_runtime_shape() {
    let prompt_preview = PromptPreviewSnapshot {
        history_items_count: 48,
        history_tokens_estimate: 12_345,
        base_instructions_tokens_estimate: 120,
        tool_schema_tokens_estimate: 640,
        tool_count: 3,
        tool_names: vec![
            "exec_command".to_string(),
            "apply_patch".to_string(),
            "web_search".to_string(),
        ],
        latest_compaction_replacement_items: Some(6),
        memory_prompt_available: true,
        memory_summary_tokens_estimate: Some(512),
        developer_instructions_present: true,
        user_instructions_present: false,
        ..snapshot(
            Vec::new(),
            NextTurnContextStrategy::SettingsUpdate {
                model_switch_message: true,
                reasons: vec!["model changed".to_string(), "provider changed".to_string()],
            },
        )
    };
    let analysis = DistillAnalysis {
        durable_guidance: vec![
            "must keep source-backed fixes".to_string(),
            "prefer smaller diffs".to_string(),
        ],
        ..no_analysis()
    };

    let facts = collect_pinned_facts(
        &summary(),
        &analysis,
        &prompt_preview,
        &target_runtime_config(),
        balanced(),
    );

    assert!(facts.iter().any(|fact| fact.contains("Critical guidance")));
    assert!(facts.iter().any(|fact| fact.contains("Successor runtime target")));
    assert!(facts.iter().any(|fact| fact.contains("Representative tool names")));
}

#[test]
fn codex_prompt_preserves_pinned_facts_requirement() {
    let prompt = codex_distillation_prompt(
        "# Pinned Facts\n- must keep source-backed fixes",
        balanced(),
    );

    assert!(prompt.contains("Preserve the entire `# Pinned Facts` section exactly"));
    assert!(prompt.contains("Preserve the substance of `# Durable Conventions And Corrections`"));
    assert!(prompt.contains("- must keep source-backed fixes"));
}

#[test]
fn seeds_carry_the_brief() {
    assert!(handoff_seed_prompt("the brief").contains("the brief"));
}

#[test]
fn stronger_compression_keeps_less() {
    let lossless = DistillCompressionPolicy::for_level(DistillCompressionLevel::Lossless);
    let aggressive = DistillCompressionPolicy::for_level(DistillCompressionLevel::Aggressive);
    assert!(lossless.minimum_recent_turns >= balanced().minimum_recent_turns);
    assert!(balanced().minimum_recent_turns >= aggressive.minimum_recent_turns);
    assert!(lossless.request_chars >= balanced().request_chars);
    assert!(balanced().request_chars >= aggressive.request_chars);
    let policy = balanced();
    assert_eq!(policy.effective_recent_turns(1000), 1000);
    assert_eq!(policy.effective_recent_turns(0), policy.minimum_recent_turns);
}

#[test]
fn the_newest_messages_are_kept_once() {
    let items: Vec<String> =
        ["a", "b", "a", "c"].iter().map(|item| item.to_string()).collect();
    let kept = take_tail_dedup(&items, 2);
    assert_eq!(kept, vec!["a".to_string(), "c".to_string()]);
    assert_eq!(
        take_tail_dedup(&items, 9),
        vec!["b".to_string(), "a".to_string(), "c".to_string()]
    );
}

#[test]
fn guidance_is_told_by_its_words() {
    assert!(is_durable_guidance("Please always run the linter before committing"));
    assert!(is_high_priority_guidance("never push to main"));
    assert!(is_high_priority_guidance("必须先跑测试"));
    assert!(!is_high_priority_guidance("what is the weather"));
}

#[test]
fn names_are_proposed_from_the_session() {
    let given = propose_thread_name(&summary(), &Some("Mine".to_string()));
    assert_eq!(given, "Mine");
    let derived = propose_thread_name(&summary(), &None);
    assert!(derived.contains("Session Alpha"));
    assert_eq!(
        default_distilled_thread_name(&Some(" ".to_string()), None),
        Err(DistillError::EmptyThreadName)
    );
    assert_eq!(default_distilled_thread_name(&None, None), Err(DistillError::NoThreadName));
    assert_eq!(
        default_distilled_thread_name(&None, Some("x".to_string())),
        Ok("x".to_string())
    );
}

#[test]
fn unsupported_effort_is_named() {
    let error = parse_reasoning_effort(Some("turbo")).unwrap_err();
    assert_eq!(error, DistillError::UnsupportedReasoningEffort { effort: "turbo".to_string() });
    assert!(distill_error_message(&error).contains("turbo"));
    assert_eq!(parse_reasoning_effort(None), Ok(None));
}

#[test]
fn preparation_refuses_no_turns() {
    let mut wrong = args();
    wrong.recent_turns = 0;
    let step = prepare_distillation(&wrong, &DistillPrepareEvent::Started);
    assert_eq!(step.action, DistillPrepareAction::Fail { error: DistillError::NoRecentTurns });
    let step = prepare_distillation(&args(), &DistillPrepareEvent::Started);
    assert_eq!(step.action, DistillPrepareAction::ResolveTarget);
    assert_eq!(step.progress, vec![DistillProgressEvent::ResolvingTarget]);
}

fn run(args: &DistillArgs) -> DistillRun {
    let history = vec![
        response_message("user", "first request"),
        response_message("assistant", "first result"),
    ];
    DistillRun::new(
        args,
        &summary(),
        &snapshot(history, full_context()),
        &vec![],
        &target_runtime_config(),
        "Distilled: Session Alpha",
    )
}

#[test]
fn previews_start_no_thread() {
    let mut wanted = args();
    wanted.preview_only = true;
    let step = execute_with_progress(run(&wanted), &DistillEvent::Composed);
    let DistillAction::Done { output } = step.action else {
        panic!("expected the end");
    };
    assert_eq!(output.successor_thread_id, None);
    assert!(output.brief.contains("# Source Thread"));
    let lines = render_output_lines(&output, "0.0010");
    assert!(lines.iter().any(|line| line.contains("Session Alpha")));
    assert!(lines.iter().any(|line| line.contains("0.0010")));
}

#[test]
fn successors_are_named_and_seeded() {
    let step = execute_with_progress(run(&args()), &DistillEvent::Composed);
    assert_eq!(step.action, DistillAction::StartSuccessor);
    let step = execute_with_progress(
        step.run,
        &DistillEvent::ThreadStarted {
            thread_id: "thread-2".to_string(),
            rollout_path: "D:/tmp/new.jsonl".to_string(),
        },
    );
    let DistillAction::NameSuccessor { thread_id, name } = &step.action else {
        panic!("expected a name");
    };
    assert_eq!(thread_id, "thread-2");
    assert_eq!(name, "Distilled: Session Alpha");
    let step = execute_with_progress(step.run, &DistillEvent::ThreadNamed);
    let DistillAction::SeedSuccessor { seed_prompt, seed_model, .. } = &step.action else {
        panic!("expected a seed");
    };
    assert!(seed_prompt.contains("first request"));
    assert_eq!(seed_model, "gpt-5.2");
}

#[test]
fn failed_rewrites_fall_back_to_the_rules() {
    let mut wanted = args();
    wanted.distill_mode = DistillMode::Codex;
    let step = execute_with_progress(run(&wanted), &DistillEvent::Composed);
    assert_eq!(step.action, DistillAction::StartEphemeralThread);
    let step = execute_with_progress(
        step.run,
        &DistillEvent::RewriteFailed { error: "no network".to_string() },
    );
    assert!(step.progress.iter().any(|event| matches!(
        event,
        DistillProgressEvent::CodexDistillationFallback { error, .. } if error == "no network"
    )));
    assert_eq!(step.run.brief, step.run.deterministic_brief);
    assert_eq!(step.action, DistillAction::StartSuccessor);
}

#[test]
fn everything_kept_is_in_the_brief() {
    let analysis = DistillAnalysis {
        latest_compaction_summary: Some("  older  work ".to_string()),
        recent_user_messages: vec!["first".to_string(), "second".to_string()],
        recent_assistant_messages: vec!["done".to_string()],
        durable_guidance: vec!["always test".to_string()],
        pinned_facts: vec!["- fact".to_string()],
        prompt_reconstruction_notes: vec!["- note".to_string()],
        recent_warnings: vec!["hot".to_string()],
        recent_errors: vec!["broken".to_string()],
    };
    let brief = build_distilled_brief(&summary(), &analysis, balanced());
    let lines: Vec<&str> = brief.lines().collect();
    for line in [
        "older work",
        "1. first",
        "2. second",
        "1. done",
        "1. always test",
        "- fact",
        "- note",
        "- warning: hot",
        "- error: broken",
    ] {
        assert!(lines.contains(&line), "{line}");
    }
}

#[test]
fn sources_are_archived_behind_the_seed() {
    let args = DistillArgs { archive_source: true, ..args() };
    let seeded = DistillEvent::SeedFinished { seed_failure: None, shutdown_failure: None };
    let step = execute_with_progress(run(&args), &seeded);
    assert_eq!(step.action, DistillAction::ArchiveSource);
    let step = execute_with_progress(step.run, &DistillEvent::SourceArchived);
    assert!(matches!(step.action, DistillAction::CleanProfiles { .. }));
    let failed = DistillEvent::SeedFinished {
        seed_failure: None,
        shutdown_failure: Some("late".to_string()),
    };
    let step = execute_with_progress(run(&args), &failed);
    assert_eq!(step.action, DistillAction::Abort { message: "late".to_string() });
}

#[test]
fn reconstruction_notes_name_each_reason() {
    let preview = snapshot(
        Vec::new(),
        NextTurnContextStrategy::SettingsUpdate {
            model_switch_message: true,
            reasons: vec!["permissions".to_string(), "personality".to_string()],
        },
    );
    assert_eq!(
        prompt_reconstruction_notes(&preview),
        vec![
            "- Reconstructed model-visible history items: 0",
            "- Reconstructed history tokens estimate: 100",
            "- Built-in and dynamic tool schema tokens estimate: 0",
            "- Previous surviving turn model: gpt-5.4",
            "- Next real user turn will reuse the current baseline and append only context diffs.",
            "- Model-switch developer message will be injected: true",
            "- Expected settings update reasons: permissions, personality",
            "- Memory prompt available: false",
            "- Built-in and dynamic tool count: 0",
        ]
    );
}
