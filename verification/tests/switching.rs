use codex_session_manager::cli::MigrateArgs;
use codex_session_manager::cli::SmartArgs;
use codex_session_manager::cli::TargetArgs;
use codex_session_manager::migrate::migrate_error_message;
use codex_session_manager::migrate::migrate_fork_request;
use codex_session_manager::migrate::migrate_session;
use codex_session_manager::migrate::migrated_lines;
use codex_session_manager::migrate::source_after_fork;
use codex_session_manager::migrate::start_migration;
use codex_session_manager::migrate::MigrateAction;
use codex_session_manager::migrate::MigrateError;
use codex_session_manager::migrate::MigrateLimits;
use codex_session_manager::migrate::SourceAfterFork;
use codex_session_manager::picker::draw_picker;
use codex_session_manager::picker::picker_error_message;
use codex_session_manager::picker::PickerAction;
use codex_session_manager::picker::PickerError;
use codex_session_manager::picker::PickerKey;
use codex_session_manager::picker::SmartPicker;
use codex_session_manager::picker::SmartStep;
use codex_session_manager::progress::SmartProgressEvent;
use codex_session_manager::progress::SmartStrategyKind;
use codex_session_manager::smart::build_preview;
use codex_session_manager::smart::collect_provider_choices;
use codex_session_manager::smart::default_smart_profile_name;
use codex_session_manager::smart::list_available_models;
use codex_session_manager::smart::load_global_config_toml;
use codex_session_manager::smart::plan_preview;
use codex_session_manager::smart::prepare_error_message;
use codex_session_manager::smart::prepare_execution;
use codex_session_manager::smart::sanitize_profile_component;
use codex_session_manager::smart::strategy_label;
use codex_session_manager::smart::strategy_label_zh;
use codex_session_manager::smart::yes_no;
use codex_session_manager::smart::yes_no_zh;
use codex_session_manager::smart::ModelPreset;
use codex_session_manager::smart::PickerLanguage;
use codex_session_manager::smart::PrepareError;
use codex_session_manager::smart::PreparedSmartExecution;
use codex_session_manager::smart::ProviderConfig;
use codex_session_manager::smart::SmartExecutionMode;
use codex_session_manager::smart::SmartSelection;
use codex_session_manager::smart::SmartStrategy;
use codex_session_manager::smart_flow::execute_selection;
use codex_session_manager::smart_flow::smart_error_message;
use codex_session_manager::smart_flow::SmartAction;
use codex_session_manager::smart_flow::SmartError;
use codex_session_manager::smart_flow::SmartEvent;
use codex_session_manager::smart_flow::SmartRun;
use codex_session_manager::smart_flow::ThreadPlace;
use codex_session_manager::types::ForkOutcome;
use codex_session_manager::types::RuntimeConfig;
use codex_session_manager::types::SessionSummary;

fn sample_config() -> RuntimeConfig {
    RuntimeConfig {
        codex_home: "/home/.codex".to_string(),
        cwd: "D:/tmp".to_string(),
        model: Some("gpt-5.2".to_string()),
        model_provider_id: "openai".to_string(),
        model_context_window: Some(258400),
        model_auto_compact_token_limit: Some(232560),
        developer_instructions: None,
        user_instructions: None,
        approval_policy: "never".to_string(),
        sandbox_policy: "read-only".to_string(),
        personality: None,
    }
}

fn summary(archived: bool) -> SessionSummary {
    SessionSummary {
        thread_id: "thread-1".to_string(),
        thread_name: None,
        rollout_path: "D:/tmp/rollout.jsonl".to_string(),
        archived,
        source: "cli".to_string(),
        session_provider: Some("openai".to_string()),
        session_cwd: "D:/tmp".to_string(),
        session_timestamp: "2026-03-11T00:00:00Z".to_string(),
        latest_model: Some("gpt-5.4".to_string()),
        latest_total_tokens: Some(1000),
        latest_context_tokens: Some(400000),
        latest_model_context_window: Some(950000),
        user_turns: 1,
        first_user_message: None,
        forked_from_id: None,
        memory_mode: None,
    }
}

fn smart_args(write_profile: Option<&str>, archive_source: bool) -> SmartArgs {
    SmartArgs {
        target: TargetArgs { target: "thread-1".to_string(), config_profile: None },
        write_profile: write_profile.map(str::to_string),
        archive_source,
        max_pre_compactions: 3,
        timeout_secs: 300,
    }
}

fn selection(provider: &str, mode: SmartExecutionMode) -> SmartSelection {
    SmartSelection {
        provider: provider.to_string(),
        model: "gpt-5.2".to_string(),
        execution_mode: mode,
        target_config: sample_config(),
        target_context_window: Some(258400),
        target_auto_compact_token_limit: Some(232560),
    }
}

#[test]
fn collect_provider_choices_prefers_current_provider_first() {
    let config = ProviderConfig {
        model_provider: Some("openai".to_string()),
        model_providers: vec!["yunyi".to_string()],
        profile_providers: vec![Some("openrouter".to_string())],
    };

    let providers = collect_provider_choices(&config, "openai");
    assert_eq!(providers[0], "openai");
    assert!(providers.contains(&"yunyi".to_string()));
    assert!(providers.contains(&"openrouter".to_string()));
}

#[test]
fn default_smart_profile_name_sanitizes_components() {
    assert_eq!(
        default_smart_profile_name("yunyi", "gpt-5.2-codex", Some(258400)),
        "smart-yunyi-gpt-5-2-codex-258400"
    );
    assert_eq!(
        default_smart_profile_name("model_providers.yunyi", "gpt/5.4", None),
        "smart-model-providers-yunyi-gpt-5-4"
    );
}

#[test]
fn profile_names_are_lower_case() {
    assert_eq!(sanitize_profile_component("GPT 5"), "gpt-5");
    assert_eq!(sanitize_profile_component("\u{212a}imi"), "kimi");
}

#[test]
fn sanitised_components_stay_as_they_are() {
    for value in ["GPT 5", "--a  b--", "\u{212a}imi K2", "\u{130}stanbul", "标题", ""] {
        let once = sanitize_profile_component(value);
        assert_eq!(sanitize_profile_component(&once), once);
    }
    assert_eq!(sanitize_profile_component("gpt-5-4"), "gpt-5-4");
}

#[test]
fn no_lowercase_form_holds_a_capital_letter() {
    for ch in '\u{0}'..=char::MAX {
        let component = sanitize_profile_component(&ch.to_string());
        assert!(!component.chars().any(|ch| ch.is_ascii_uppercase()), "{ch:?}");
        assert!(!ch.to_lowercase().any(|ch| ch.is_ascii_uppercase()), "{ch:?}");
    }
}

#[test]
fn plan_preview_marks_same_provider_compaction_repair() {
    let preview = plan_preview(
        &summary(false),
        "openai",
        "gpt-5.4",
        &smart_args(None, false),
        selection("openai", SmartExecutionMode::Direct),
    );

    assert_eq!(preview.strategy, SmartStrategy::SameThreadRepairAfterCompaction);
    assert!(preview.needs_compaction);
    assert!(preview.needs_repair_resume_state);
    assert_eq!(preview.blocked_reason, None);
}

#[test]
fn plan_preview_marks_archived_cross_provider_compaction_as_blocked() {
    let preview = plan_preview(
        &summary(true),
        "openai",
        "gpt-5.4",
        &smart_args(Some("yunyi-256k"), true),
        selection("yunyi", SmartExecutionMode::Direct),
    );

    assert_eq!(preview.strategy, SmartStrategy::CrossProviderMigrateAfterCompaction);
    assert!(preview.will_archive_source);
    assert!(preview.blocked_reason.is_some());
}

#[test]
fn plan_preview_uses_distill_strategy_when_selected() {
    let preview = plan_preview(
        &summary(true),
        "openai",
        "gpt-5.4",
        &smart_args(Some("distilled"), true),
        selection("yunyi", SmartExecutionMode::DistillCodex),
    );

    assert_eq!(preview.strategy, SmartStrategy::DistillSuccessor);
    assert_eq!(preview.blocked_reason, None);
}

#[test]
fn plan_preview_uses_distill_strategy_for_deterministic_mode() {
    let preview = plan_preview(
        &summary(false),
        "openai",
        "gpt-5.4",
        &smart_args(Some("distilled"), false),
        selection("openai", SmartExecutionMode::DistillDeterministic),
    );

    assert_eq!(preview.strategy, SmartStrategy::DistillSuccessor);
    assert_eq!(preview.blocked_reason, None);
}

#[test]
fn strategies_are_named() {
    assert_eq!(yes_no(true), "yes");
    assert_eq!(yes_no(false), "no");
    assert_eq!(yes_no_zh(true), "是");
    assert_ne!(
        strategy_label(SmartStrategy::SameThreadRepair),
        strategy_label(SmartStrategy::CrossProviderMigrate)
    );
    assert_ne!(
        strategy_label_zh(SmartStrategy::SameThreadRepair),
        strategy_label(SmartStrategy::SameThreadRepair)
    );
    assert_eq!(
        SmartExecutionMode::all(),
        [
            SmartExecutionMode::Direct,
            SmartExecutionMode::DistillCodex,
            SmartExecutionMode::DistillDeterministic
        ]
    );
}

#[test]
fn pickers_speak_the_language_of_the_locale() {
    assert_eq!(PickerLanguage::from_locale_tag("zh-CN"), PickerLanguage::Chinese);
    assert_eq!(PickerLanguage::from_locale_tag("en-US"), PickerLanguage::English);
    assert_eq!(PickerLanguage::for_locale(&None), PickerLanguage::English);
}

fn preset(model: &str, display: &str, shown: bool) -> ModelPreset {
    ModelPreset {
        model: model.to_string(),
        display_name: display.to_string(),
        show_in_picker: shown,
        supported_in_api: true,
    }
}

#[test]
fn hidden_models_are_not_offered() {
    let models = vec![preset("a", "A", true), preset("b", "B", false)];
    assert_eq!(list_available_models(&models), vec![preset("a", "A", true)]);
}

fn prepared() -> PreparedSmartExecution {
    let providers = ProviderConfig {
        model_provider: None,
        model_providers: vec!["yunyi".to_string()],
        profile_providers: vec![],
    };
    prepare_execution(&smart_args(None, false), &summary(false), &sample_config(), &providers)
        .expect("prepare")
}

#[test]
fn switches_need_room_for_compactions() {
    let mut args = smart_args(None, false);
    args.max_pre_compactions = 0;
    let providers =
        ProviderConfig { model_provider: None, model_providers: vec![], profile_providers: vec![] };
    let error =
        prepare_execution(&args, &summary(false), &sample_config(), &providers).unwrap_err();
    assert_eq!(error, PrepareError::NoCompactionsAllowed);
    assert!(!prepare_error_message(error).is_empty());
}

#[test]
fn a_switch_is_picked_and_confirmed() {
    let prepared = prepared();
    let mut picker = SmartPicker::new(&prepared, PickerLanguage::English);
    assert_eq!(picker.selected_provider(), "openai");
    assert_eq!(picker.run(PickerKey::Down), PickerAction::Stay);
    let PickerAction::LoadModels { provider } = picker.run(PickerKey::Enter) else {
        panic!("expected models to load");
    };
    assert_eq!(provider, picker.selected_provider());
    assert_eq!(
        picker.models_loaded(vec![]),
        Err(PickerError::NoModels { provider: provider.clone() })
    );
    picker
        .models_loaded(vec![preset("gpt-5.4", "GPT 5.4", true), preset("gpt-5.2", "GPT 5.2", true)])
        .expect("models");
    assert_eq!(picker.step, SmartStep::Model);
    assert_eq!(picker.selected_model().as_deref(), Some("gpt-5.4"));
    picker.run(PickerKey::Down);
    picker.run(PickerKey::Enter);
    assert_eq!(picker.step, SmartStep::Mode);
    let PickerAction::BuildPreview { preview_provider, model, mode } = picker.run(PickerKey::Enter)
    else {
        panic!("expected a plan");
    };
    assert_eq!(model, "gpt-5.2");
    let preview = build_preview(&prepared, &preview_provider, &model, mode, sample_config());
    picker.preview_ready(preview.clone());
    let screen = draw_picker(&picker);
    assert!(screen.rows.is_empty());
    assert!(screen.confirm_lines.iter().any(|line| line.contains("gpt-5.2")));
    let PickerAction::Finish { selection } = picker.run(PickerKey::Enter) else {
        panic!("expected a selection");
    };
    assert_eq!(selection, preview.selection);
}

#[test]
fn pickers_mark_one_row() {
    let picker = SmartPicker::new(&prepared(), PickerLanguage::Chinese);
    let screen = draw_picker(&picker);
    assert_eq!(screen.rows.iter().filter(|row| row.selected).count(), 1);
    assert_eq!(screen.title, "Smart 切换 · 先选 provider，再选 model，最后确认");
}

#[test]
fn pickers_can_be_left() {
    let mut picker = SmartPicker::new(&prepared(), PickerLanguage::English);
    assert_eq!(picker.run(PickerKey::Quit), PickerAction::Cancel);
    assert_eq!(picker.run(PickerKey::Esc), PickerAction::Cancel);
    assert_eq!(
        picker_error_message(&PickerError::NoModels { provider: "x".to_string() }),
        "selected provider `x` has no picker-visible models"
    );
}

fn limits(archived: bool) -> MigrateLimits {
    MigrateLimits {
        force_compact: false,
        max_pre_compactions: 2,
        context_window: Some(100),
        archived_source: archived,
    }
}

#[test]
fn migrations_compact_until_the_session_fits() {
    let state = start_migration();
    let (state, action) = migrate_session(limits(false), state, Some(300));
    assert_eq!(action, MigrateAction::Compact);
    let (state, action) = migrate_session(limits(false), state, Some(200));
    assert_eq!(action, MigrateAction::Compact);
    assert_eq!(state.compactions_run, 2);
    let (_, fits) = migrate_session(limits(false), state, Some(100));
    assert_eq!(fits, MigrateAction::Fork { warn_unknown_context: false });
    let (_, fails) = migrate_session(limits(false), state, Some(101));
    assert_eq!(
        fails,
        MigrateAction::Fail {
            error: MigrateError::StillTooLarge {
                compactions: 2,
                context_tokens: 101,
                target_window: 100
            }
        }
    );
}

#[test]
fn archived_sessions_are_not_compacted() {
    let (_, action) = migrate_session(limits(true), start_migration(), Some(300));
    let error = MigrateError::ArchivedTooLarge { context_tokens: 300, target_window: 100 };
    assert_eq!(action, MigrateAction::Fail { error });
    assert!(migrate_error_message(error).contains("300"));
    let mut forced = limits(true);
    forced.force_compact = true;
    let (_, action) = migrate_session(forced, start_migration(), None);
    assert_eq!(action, MigrateAction::Fail { error: MigrateError::ArchivedForceCompact });
    let mut none = limits(false);
    none.max_pre_compactions = 0;
    let (_, action) = migrate_session(none, start_migration(), None);
    assert_eq!(action, MigrateAction::Fail { error: MigrateError::NoCompactionsAllowed });
}

#[test]
fn unknown_contexts_are_warned_of() {
    let (_, action) = migrate_session(limits(false), start_migration(), None);
    assert_eq!(action, MigrateAction::Fork { warn_unknown_context: true });
}

#[test]
fn sources_are_archived_once() {
    assert_eq!(source_after_fork(false, false), SourceAfterFork::Stays);
    assert_eq!(source_after_fork(true, true), SourceAfterFork::IsArchived);
    assert_eq!(source_after_fork(true, false), SourceAfterFork::Archive);
}

#[test]
fn migrations_fork_as_they_were_asked() {
    let args = MigrateArgs {
        target: TargetArgs { target: "t".to_string(), config_profile: Some("work".to_string()) },
        model: Some("gpt-5.2".to_string()),
        provider: Some("yunyi".to_string()),
        context_window: Some(258400),
        auto_compact_token_limit: None,
        write_profile: Some("p".to_string()),
        thread_name: Some("n".to_string()),
        persist_extended_history: true,
        nth_user_message: Some(4),
        force_compact: false,
        max_pre_compactions: 3,
        archive_source: true,
        timeout_secs: 1,
    };
    let request = migrate_fork_request(&args, "D:/r.jsonl");
    assert_eq!(request.source_profile.as_deref(), Some("work"));
    assert_eq!(request.source_rollout_path, "D:/r.jsonl");
    assert_eq!(request.provider.as_deref(), Some("yunyi"));
    assert_eq!(request.nth_user_message, Some(4));
    let outcome = ForkOutcome {
        thread_id: "new".to_string(),
        rollout_path: "D:/n.jsonl".to_string(),
        runtime_profile: Some("p".to_string()),
    };
    let lines = migrated_lines("old", &outcome, 1, "codex resume new", &None);
    assert!(lines.iter().any(|line| line.contains("codex resume new")));
    assert!(lines.iter().any(|line| line.contains("old")));
}

fn smart_run(archived: bool, provider: &str, mode: SmartExecutionMode) -> SmartRun {
    SmartRun::new(
        &smart_args(None, false),
        &sample_config(),
        &summary(archived),
        &selection(provider, mode),
    )
}

#[test]
fn switches_compact_before_they_repair() {
    let step = execute_selection(
        smart_run(false, "openai", SmartExecutionMode::Direct),
        &SmartEvent::Started,
    );
    assert!(matches!(
        step.progress[0],
        SmartProgressEvent::StrategyConfirmed {
            strategy: SmartStrategyKind::SameThreadRepairAfterCompaction,
            ..
        }
    ));
    assert!(matches!(step.action, SmartAction::Compact { .. }));
    let step = execute_selection(step.run, &SmartEvent::Compacted);
    assert_eq!(step.action, SmartAction::ReloadSummary);
    let step = execute_selection(
        step.run,
        &SmartEvent::SummaryReloaded { context_tokens: Some(1000), context_window: Some(950000) },
    );
    assert!(matches!(step.action, SmartAction::WriteProfile { .. }));
    let step = execute_selection(step.run, &SmartEvent::ProfileWritten);
    let SmartAction::RepairResumeState { repair_args } = &step.action else {
        panic!("expected a repair");
    };
    assert_eq!(repair_args.context_window, Some(258400));
    let step = execute_selection(step.run, &SmartEvent::ResumeStateRepaired);
    assert_eq!(step.action, SmartAction::ReadThreadId);
    let step = execute_selection(
        step.run,
        &SmartEvent::ThreadIdRead { thread_id: "thread-1".to_string(), resume: None },
    );
    let SmartAction::Done { output } = step.action else {
        panic!("expected the end");
    };
    assert_eq!(output.title, "Smart Switch Completed");
    assert_eq!(output.preferred_thread_id.as_deref(), Some("thread-1"));
}

#[test]
fn switches_give_up_after_their_compactions() {
    let mut step = execute_selection(
        smart_run(false, "openai", SmartExecutionMode::Direct),
        &SmartEvent::Started,
    );
    for _ in 0..3 {
        assert!(matches!(step.action, SmartAction::Compact { .. }));
        step = execute_selection(step.run, &SmartEvent::Compacted);
        step = execute_selection(
            step.run,
            &SmartEvent::SummaryReloaded {
                context_tokens: Some(400000),
                context_window: Some(950000),
            },
        );
    }
    let error = SmartError::StillTooLarge {
        compactions: 3,
        context_tokens: 400000,
        target_window: 258400,
    };
    assert_eq!(step.action, SmartAction::Fail { error });
    assert!(smart_error_message(error).contains("258400"));
    let step = execute_selection(
        smart_run(true, "openai", SmartExecutionMode::Direct),
        &SmartEvent::Started,
    );
    assert!(matches!(
        step.action,
        SmartAction::Fail { error: SmartError::ArchivedTooLarge { .. } }
    ));
}

#[test]
fn other_providers_are_migrated_to() {
    let mut small = summary(false);
    small.latest_context_tokens = Some(1000);
    let run = SmartRun::new(
        &smart_args(Some("target"), true),
        &sample_config(),
        &small,
        &selection("yunyi", SmartExecutionMode::Direct),
    );
    let step = execute_selection(run, &SmartEvent::Started);
    assert_eq!(step.action, SmartAction::ListThreads);
    let step = execute_selection(
        step.run,
        &SmartEvent::ThreadsListed { ids: vec!["thread-1".to_string()] },
    );
    let SmartAction::Migrate { migrate_args } = &step.action else {
        panic!("expected a migration");
    };
    assert_eq!(migrate_args.provider.as_deref(), Some("yunyi"));
    assert_eq!(migrate_args.write_profile.as_deref(), Some("target"));
    assert!(migrate_args.archive_source);
    let step = execute_selection(step.run, &SmartEvent::Migrated);
    assert!(matches!(step.action, SmartAction::RefreshThreads { .. }));
    let step = execute_selection(
        step.run,
        &SmartEvent::ThreadsRefreshed {
            threads: vec![
                ThreadPlace { thread_id: Some("thread-1".to_string()), path: "old".to_string() },
                ThreadPlace { thread_id: Some("thread-2".to_string()), path: "new".to_string() },
            ],
        },
    );
    let SmartAction::Done { output } = step.action else {
        panic!("expected the end");
    };
    assert_eq!(output.preferred_thread_id.as_deref(), Some("thread-2"));
    assert_eq!(output.preferred_rollout_path.as_deref(), Some("new"));
}

#[test]
fn distilling_switches_hand_over() {
    let step = execute_selection(
        smart_run(true, "yunyi", SmartExecutionMode::DistillDeterministic),
        &SmartEvent::Started,
    );
    assert!(step
        .progress
        .iter()
        .any(|event| matches!(event, SmartProgressEvent::StartingDistill { .. })));
    let SmartAction::Distill { distill_args } = step.action else {
        panic!("expected a distillation");
    };
    assert_eq!(distill_args.provider.as_deref(), Some("yunyi"));
    assert_eq!(distill_args.model.as_deref(), Some("gpt-5.2"));
}

#[test]
fn providers_are_read_from_the_configuration() {
    let contents = "model_provider = \"openai\"\n\
        [model_providers.yunyi]\nname = \"Yunyi\"\n\
        [profiles.team]\nmodel_provider = \"openrouter\"\n\
        [profiles.plain]\nmodel = \"gpt-5\"\n";
    let config = load_global_config_toml(&Some(contents.to_string())).expect("a configuration");
    assert_eq!(
        collect_provider_choices(&config, "openai"),
        vec!["openai".to_string(), "openrouter".to_string(), "yunyi".to_string()]
    );
    assert_eq!(config.model_provider.as_deref(), Some("openai"));
    assert_eq!(config.profile_providers.len(), 2);
    let empty = load_global_config_toml(&None).expect("an empty configuration");
    assert_eq!(collect_provider_choices(&empty, "openai"), vec!["openai".to_string()]);
    assert_eq!(load_global_config_toml(&Some("model_provider = ".to_string())), None);
}

#[test]
fn configurations_of_another_form_are_refused() {
    for contents in [
        "model_provider = 3\n",
        "model_providers = \"openai\"\n",
        "profiles = 3\n",
        "[profiles]\nteam = 3\n",
        "[profiles.team]\nmodel_provider = true\n",
    ] {
        assert_eq!(load_global_config_toml(&Some(contents.to_string())), None, "{contents}");
    }
    let unrelated = load_global_config_toml(&Some("approval = 3\n".to_string()));
    assert_eq!(unrelated, load_global_config_toml(&None));
}
