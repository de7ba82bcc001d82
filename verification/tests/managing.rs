use codex_session_manager::cli::ForkArgs;
use codex_session_manager::cli::RepairResumeStateArgs;
use codex_session_manager::cli::RewriteMetaArgs;
use codex_session_manager::cli::TargetArgs;
use codex_session_manager::commands::archive_session;
use codex_session_manager::commands::command_error_message;
use codex_session_manager::commands::compact_session;
use codex_session_manager::commands::copy_resume_command_for_target;
use codex_session_manager::commands::fork_session;
use codex_session_manager::commands::rename_session;
use codex_session_manager::commands::repair_resume_state;
use codex_session_manager::commands::rewrite_session_meta;
use codex_session_manager::commands::rollback_session;
use codex_session_manager::commands::show_session;
use codex_session_manager::commands::unarchive_session;
use codex_session_manager::commands::CommandError;
use codex_session_manager::operations::archive_rollout_file;
use codex_session_manager::operations::fork_position;
use codex_session_manager::operations::fork_rollout_path;
use codex_session_manager::operations::fork_thread_name;
use codex_session_manager::operations::operation_error_message;
use codex_session_manager::operations::operation_failure;
use codex_session_manager::operations::shutdown_thread;
use codex_session_manager::operations::unarchive_rollout_file;
use codex_session_manager::operations::validate_rollout_file_name;
use codex_session_manager::operations::wait_for_operation_completion;
use codex_session_manager::operations::wait_for_turn_completion_last_message;
use codex_session_manager::operations::OperationError;
use codex_session_manager::operations::RolloutDate;
use codex_session_manager::operations::RolloutFile;
use codex_session_manager::operations::ThreadEvent;
use codex_session_manager::operations::ThreadMsg;
use codex_session_manager::operations::Waiting;
use codex_session_manager::profile_cleanup::cleanup_generated_profiles;
use codex_session_manager::profile_cleanup::plan_profile_cleanup;
use codex_session_manager::rollout_edit::ResumeStateRewriteStats;
use codex_session_manager::runtime::config_overrides;
use codex_session_manager::runtime::find_thread_id_by_name_in_session_index;
use codex_session_manager::runtime::is_shell_safe_byte;
use codex_session_manager::runtime::latest_thread_id;
use codex_session_manager::runtime::profile_runtime_request;
use codex_session_manager::runtime::push_optional_i64_edit;
use codex_session_manager::runtime::render_profiled_resume_command;
use codex_session_manager::runtime::resolve_resume_state_context_window;
use codex_session_manager::runtime::resolve_rollout_path;
use codex_session_manager::runtime::runtime_error_message;
use codex_session_manager::runtime::scoped_config_segments;
use codex_session_manager::runtime::shell_quote;
use codex_session_manager::runtime::write_profile_from_config;
use codex_session_manager::runtime::ConfigEdit;
use codex_session_manager::runtime::IndexEntry;
use codex_session_manager::runtime::RuntimeError;
use codex_session_manager::runtime::TargetStep;
use codex_session_manager::types::ForkRequest;
use codex_session_manager::types::OperationKind;
use codex_session_manager::types::RuntimeConfig;
use codex_session_manager::types::SessionSummary;

const THREAD_ID: &str = "019cd66f-f4ea-7022-802b-7007c11cea97";

fn words(items: &[&str]) -> Vec<String> {
    items.iter().map(|item| item.to_string()).collect()
}

fn target() -> TargetArgs {
    TargetArgs { target: "thread-1".to_string(), config_profile: None }
}

fn summary() -> SessionSummary {
    SessionSummary {
        thread_id: "thread-1".to_string(),
        thread_name: Some("Alpha".to_string()),
        rollout_path: "D:/tmp/rollout.jsonl".to_string(),
        archived: false,
        source: "cli".to_string(),
        session_provider: Some("openai".to_string()),
        session_cwd: "D:/tmp".to_string(),
        session_timestamp: "2026-03-11T00:00:00Z".to_string(),
        latest_model: Some("gpt-5.4".to_string()),
        latest_total_tokens: Some(1000),
        latest_context_tokens: None,
        latest_model_context_window: Some(950000),
        user_turns: 3,
        first_user_message: None,
        forked_from_id: None,
        memory_mode: None,
    }
}

fn runtime() -> RuntimeConfig {
    RuntimeConfig {
        codex_home: "/home/.codex".to_string(),
        cwd: "D:/tmp".to_string(),
        model: Some("gpt-5.2".to_string()),
        model_provider_id: "yunyi".to_string(),
        model_context_window: Some(258400),
        model_auto_compact_token_limit: None,
        developer_instructions: None,
        user_instructions: None,
        approval_policy: "never".to_string(),
        sandbox_policy: "read-only".to_string(),
        personality: None,
    }
}

fn rollout_name() -> String {
    format!("rollout-2026-03-11T00-00-00-{THREAD_ID}.jsonl")
}

fn rollout_file(components: &[&str]) -> RolloutFile {
    let mut components = words(components);
    components.push(rollout_name());
    RolloutFile {
        thread_id: THREAD_ID.to_string(),
        path: components.join("/"),
        file_name: Some(rollout_name()),
        components,
    }
}

#[test]
fn archive_and_unarchive_roundtrip_preserves_rollout() {
    let file = rollout_file(&["home", "sessions", "2026", "03", "11"]);
    let archived =
        archive_rollout_file(&file, &words(&["home", "sessions"]), "archived_sessions")
            .expect("archive");
    assert_eq!(archived, vec!["archived_sessions".to_string(), rollout_name()]);

    let mut components = words(&["home"]);
    components.extend(archived);
    let stored = RolloutFile {
        thread_id: THREAD_ID.to_string(),
        path: components.join("/"),
        file_name: Some(rollout_name()),
        components,
    };
    let date = RolloutDate {
        year: "2026".to_string(),
        month: "03".to_string(),
        day: "11".to_string(),
    };
    let restored = unarchive_rollout_file(
        &stored,
        &words(&["home", "archived_sessions"]),
        &Some(date),
        "sessions",
    )
    .expect("unarchive");
    let mut restored_path = words(&["home"]);
    restored_path.extend(restored);
    assert_eq!(restored_path, file.components);
}

#[test]
fn files_are_moved_only_where_they_belong() {
    let outside = rollout_file(&["elsewhere"]);
    assert_eq!(
        archive_rollout_file(&outside, &words(&["home", "sessions"]), "archived_sessions"),
        Err(OperationError::OutsideSessions { path: outside.path.clone() })
    );
    assert_eq!(
        unarchive_rollout_file(&outside, &words(&["home", "archive"]), &None, "sessions"),
        Err(OperationError::OutsideArchive { path: outside.path.clone() })
    );
    let inside = rollout_file(&["home", "archive"]);
    let error = unarchive_rollout_file(&inside, &words(&["home", "archive"]), &None, "sessions")
        .unwrap_err();
    assert_eq!(error, OperationError::NoTimestamp { path: inside.path.clone() });
    assert_eq!(
        operation_error_message(&error),
        format!("rollout path `{}` missing filename timestamp", inside.path)
    );
}

#[test]
fn file_names_have_to_name_the_thread() {
    let mut file = rollout_file(&["home"]);
    assert_eq!(validate_rollout_file_name(&file), Ok(rollout_name()));
    file.thread_id = "other".to_string();
    assert!(matches!(
        validate_rollout_file_name(&file),
        Err(OperationError::OtherThread { .. })
    ));
    file.file_name = None;
    assert!(matches!(validate_rollout_file_name(&file), Err(OperationError::NoFileName { .. })));
}

fn event(id: &str, msg: ThreadMsg) -> ThreadEvent {
    ThreadEvent { id: id.to_string(), msg }
}

#[test]
fn operations_end_with_their_own_events() {
    let done = Waiting::Done { last_agent_message: None };
    let wait = |event: &ThreadEvent, kind| wait_for_operation_completion(event, "s", kind);
    assert_eq!(wait(&event("s", ThreadMsg::ContextCompacted), OperationKind::Compact), done);
    assert_eq!(
        wait(&event("s", ThreadMsg::ContextCompacted), OperationKind::Rollback),
        Waiting::Go
    );
    assert_eq!(wait(&event("s", ThreadMsg::ThreadRolledBack), OperationKind::Rollback), done);
    assert_eq!(
        wait(&event("other", ThreadMsg::ContextCompacted), OperationKind::Compact),
        Waiting::Go
    );
    assert_eq!(
        wait(&event("s", ThreadMsg::Error { message: "bad".to_string() }), OperationKind::Compact),
        Waiting::Failed { message: "bad".to_string() }
    );
}

#[test]
fn turns_end_with_their_last_message() {
    let complete = ThreadMsg::TurnComplete { last_agent_message: Some("done".to_string()) };
    assert_eq!(
        wait_for_turn_completion_last_message(&event("s", complete), "s"),
        Waiting::Done { last_agent_message: Some("done".to_string()) }
    );
    assert!(shutdown_thread(&event("s", ThreadMsg::ShutdownComplete), "s"));
    assert!(!shutdown_thread(&event("s", ThreadMsg::Other), "s"));
}

#[test]
fn failures_of_operations_come_first() {
    let operation = Some("operation".to_string());
    let shutdown = Some("shutdown".to_string());
    assert!(operation_failure(&operation, &shutdown).expect("a failure").contains("operation"));
    assert!(operation_failure(&None, &shutdown).expect("a failure").contains("shutdown"));
    assert_eq!(operation_failure(&None, &None), None);
}

#[test]
fn forks_are_named_and_cut() {
    assert_eq!(fork_position(Some(3)), 3);
    assert_eq!(fork_position(None), usize::MAX);
    assert_eq!(fork_thread_name(&None, &None), Ok(None));
    assert_eq!(
        fork_thread_name(&Some(" ".to_string()), &None),
        Err(OperationError::EmptyThreadName)
    );
    assert_eq!(
        fork_thread_name(&Some("n".to_string()), &Some("n".to_string())),
        Ok(Some("n".to_string()))
    );
}

#[test]
fn forks_report_what_failed() {
    let request = ForkRequest {
        source_profile: None,
        source_rollout_path: "r".to_string(),
        model: None,
        provider: None,
        context_window: None,
        auto_compact_token_limit: None,
        write_profile: Some("p".to_string()),
        thread_name: None,
        persist_extended_history: false,
        nth_user_message: None,
    };
    let outcome =
        fork_rollout_path(&request, "new", "n.jsonl", &None, &None, &None).expect("a fork");
    assert_eq!(outcome.thread_id, "new");
    assert_eq!(outcome.runtime_profile.as_deref(), Some("p"));
    let failed = fork_rollout_path(
        &request,
        "new",
        "n.jsonl",
        &None,
        &Some("disk full".to_string()),
        &None,
    );
    assert!(failed.unwrap_err().contains("disk full"));
}

#[test]
fn render_profiled_resume_command_prefixes_profile() {
    let command = render_profiled_resume_command(
        &Some("migrate-openrouter".to_string()),
        THREAD_ID,
        &Some(format!("codex resume {THREAD_ID}")),
    );
    assert!(command.starts_with("codex --profile migrate-openrouter resume "));
    assert_eq!(
        render_profiled_resume_command(&None, THREAD_ID, &None),
        format!("codex resume {THREAD_ID}")
    );
}

#[test]
fn shell_quote_wraps_unsafe_values() {
    assert_eq!(shell_quote("safe-value"), "safe-value");
    assert_eq!(shell_quote("needs space"), "'needs space'");
    assert_eq!(shell_quote("a'b"), "'a'\\''b'");
}

#[test]
fn quoted_words_read_back() {
    for word in ["", "plain", "two words", "a'b", "$HOME `x` \"y\"", "标题"] {
        assert_eq!(shell_words::split(&shell_quote(word)).expect("split"), vec![word.to_string()]);
    }
    assert_eq!(shell_quote(""), "''");
    assert!(is_shell_safe_byte(b'a'));
    assert!(!is_shell_safe_byte(b' '));
}

#[test]
fn find_thread_id_by_name_in_session_index_returns_latest_match() {
    let first_id = "019cd66f-f4ea-7022-802b-7007c11cea97";
    let second_id = "019cd66f-f4ea-7022-802b-7007c11cea98";
    let contents = format!(
        "{{\"id\":\"{first_id}\",\"thread_name\":\"same\",\"updated_at\":\"2026-03-11T00:00:00Z\"}}\n{{\"id\":\"{second_id}\",\"thread_name\":\"same\",\"updated_at\":\"2026-03-11T00:01:00Z\"}}\n"
    );

    let found = find_thread_id_by_name_in_session_index(&Some(contents), "same")
        .expect("resolve thread id");
    assert_eq!(found.as_deref(), Some(second_id));
}

#[test]
fn indexed_ids_are_canonical() {
    let contents =
        "{\"id\":\"019CD66F-F4EA-7022-802B-7007C11CEA97\",\"thread_name\":\"x\"}\n".to_string();
    let found = find_thread_id_by_name_in_session_index(&Some(contents), "x").expect("an id");
    assert_eq!(found.as_deref(), Some(THREAD_ID));
    let broken = "{\"id\":\"no id\",\"thread_name\":\"x\"}\n".to_string();
    let error = find_thread_id_by_name_in_session_index(&Some(broken), "x").unwrap_err();
    assert_eq!(error, RuntimeError::InvalidThreadId { id: "no id".to_string() });
    assert!(runtime_error_message(&error).contains("no id"));
    assert_eq!(find_thread_id_by_name_in_session_index(&None, "x"), Ok(None));
}

#[test]
fn the_newest_entry_of_a_name_wins() {
    let entry = |id: &str, name: &str| IndexEntry {
        thread_name: Some(name.to_string()),
        id: Some(id.to_string()),
    };
    let entries = vec![entry("1", "a"), entry("2", "b"), entry("3", "a")];
    assert_eq!(latest_thread_id(&entries, "a").as_deref(), Some("3"));
    assert_eq!(latest_thread_id(&entries, "c"), None);
}

#[test]
fn targets_are_looked_up_in_turn() {
    let mut step = TargetStep::AsPath;
    let mut seen = 0;
    while step != TargetStep::NotFound {
        step = resolve_rollout_path(&step, &None);
        seen += 1;
        assert!(seen < 10);
    }
    assert_eq!(
        resolve_rollout_path(&TargetStep::AsActiveId, &Some("p".to_string())),
        TargetStep::Found { path: "p".to_string() }
    );
    assert_eq!(
        resolve_rollout_path(&TargetStep::AsIndexedName, &Some("id".to_string())),
        TargetStep::ArchivedWithId { id: "id".to_string() }
    );
}

fn repair_args(window: Option<i64>) -> RepairResumeStateArgs {
    RepairResumeStateArgs { target: target(), context_window: window, model: None, provider: None }
}

#[test]
fn windows_have_to_be_positive() {
    assert_eq!(resolve_resume_state_context_window(&repair_args(Some(5)), Some(9)), Ok(5));
    assert_eq!(resolve_resume_state_context_window(&repair_args(None), Some(9)), Ok(9));
    assert_eq!(
        resolve_resume_state_context_window(&repair_args(Some(0)), Some(9)),
        Err(RuntimeError::WindowNotPositive)
    );
    assert_eq!(
        resolve_resume_state_context_window(&repair_args(None), None),
        Err(RuntimeError::UnknownWindow)
    );
}

#[test]
fn profiles_are_written_by_edits() {
    assert_eq!(scoped_config_segments(None, "model"), words(&["model"]));
    assert_eq!(
        scoped_config_segments(Some("p"), "model"),
        words(&["profiles", "p", "model"])
    );
    let mut edits = Vec::new();
    push_optional_i64_edit(&mut edits, Some("p"), "model_context_window", Some(3));
    push_optional_i64_edit(&mut edits, None, "model_context_window", None);
    assert_eq!(
        edits,
        vec![
            ConfigEdit::SetInteger {
                segments: words(&["profiles", "p", "model_context_window"]),
                value: 3,
            },
            ConfigEdit::ClearPath { segments: words(&["model_context_window"]) },
        ]
    );
    let edits = write_profile_from_config("p", &runtime());
    assert!(edits.contains(&ConfigEdit::SetText {
        segments: words(&["profiles", "p", "model_provider"]),
        text_value: "yunyi".to_string(),
    }));
}

#[test]
fn requests_override_only_what_they_name() {
    let request = profile_runtime_request(&Some("work".to_string()));
    assert_eq!(request.config_profile.as_deref(), Some("work"));
    assert_eq!(request.model, None);
    assert!(config_overrides(&request).is_empty());
}

#[test]
fn cleanup_generated_profiles_removes_smart_prefix_entries() {
    let contents =
        "[profiles.smart-old]\nmodel = \"gpt-5\"\n[profiles.keep]\nmodel = \"gpt-5.1\"\n";
    let cleanup =
        cleanup_generated_profiles(&Some(contents.to_string()), &vec![Some("keep".to_string())])
            .expect("cleanup");

    assert_eq!(cleanup.removed_profiles, vec!["smart-old".to_string()]);
    assert_eq!(
        cleanup.edits,
        vec![ConfigEdit::ClearPath { segments: words(&["profiles", "smart-old"]) }]
    );
}

#[test]
fn preserved_profiles_are_kept() {
    let names = words(&["smart-a", "smart-b"]);
    let cleanup = plan_profile_cleanup(&names, &vec![Some("smart-a".to_string()), None]);
    assert_eq!(cleanup.removed_profiles, words(&["smart-b"]));
    assert!(cleanup_generated_profiles(&Some("not toml [".to_string()), &vec![]).is_none());
}

#[test]
fn configurations_of_another_form_are_not_cleaned_up() {
    for contents in ["profiles = 3\n", "model_provider = 3\n[profiles.smart-a]\nmodel = \"x\"\n"] {
        assert!(cleanup_generated_profiles(&Some(contents.to_string()), &vec![]).is_none());
    }
    let untouched = cleanup_generated_profiles(&Some("model = \"x\"\n".to_string()), &vec![])
        .expect("a cleanup");
    assert!(untouched.removed_profiles.is_empty());
    assert!(untouched.edits.is_empty());
}

#[test]
fn sessions_are_shown_line_by_line() {
    let lines = show_session(&summary());
    assert!(lines.iter().any(|line| line == "thread_id: thread-1"));
    assert!(lines.iter().any(|line| line.contains("Alpha")));
    assert!(lines.iter().any(|line| line.contains("950000")));
}

#[test]
fn commands_guard_their_sessions() {
    assert_eq!(archive_session(false, "p"), Ok(()));
    assert_eq!(
        archive_session(true, "p"),
        Err(CommandError::AlreadyArchived { path: "p".to_string() })
    );
    assert_eq!(unarchive_session(true, "p"), Ok(()));
    assert_eq!(
        unarchive_session(false, "p"),
        Err(CommandError::NotArchived { path: "p".to_string() })
    );
    assert!(matches!(
        compact_session(true, "sessions"),
        Err(CommandError::CompactNeedsActive { .. })
    ));
    assert_eq!(rollback_session(0, false, "sessions"), Err(CommandError::NoTurns));
    assert!(matches!(
        rollback_session(1, true, "sessions"),
        Err(CommandError::RollbackNeedsActive { .. })
    ));
    assert_eq!(rollback_session(1, false, "sessions"), Ok(()));
    assert_eq!(rename_session(&None), Err(CommandError::EmptyThreadName));
    assert_eq!(copy_resume_command_for_target(&None), Err(CommandError::NoResumeCommand));
    assert!(!command_error_message(&CommandError::NoTurns).is_empty());
}

#[test]
fn metadata_is_rewritten_only_with_changes() {
    let mut args = RewriteMetaArgs {
        target: target(),
        provider: None,
        cwd: None,
        memory_mode: None,
        clear_memory_mode: false,
    };
    assert!(matches!(rewrite_session_meta(&args), Err(CommandError::NoMetadataChanges)));
    args.provider = Some("yunyi".to_string());
    let patch = rewrite_session_meta(&args).expect("a patch");
    assert_eq!(patch.provider.as_deref(), Some("yunyi"));
}

#[test]
fn repairs_are_counted() {
    let stats = ResumeStateRewriteStats {
        token_count_events_updated: 4,
        turn_started_events_updated: 2,
    };
    let lines = repair_resume_state("t", "p", 258400, stats);
    assert!(lines.iter().any(|line| line.contains('4')));
    assert!(lines.iter().any(|line| line.contains("258400")));
}

#[test]
fn forks_are_asked_for_by_their_arguments() {
    let args = ForkArgs {
        target: target(),
        model: Some("m".to_string()),
        provider: None,
        context_window: Some(1),
        auto_compact_token_limit: None,
        write_profile: None,
        thread_name: None,
        persist_extended_history: true,
        nth_user_message: None,
    };
    let request = fork_session(&args, "p");
    assert_eq!(request.model.as_deref(), Some("m"));
    assert_eq!(request.source_rollout_path, "p");
    assert!(request.persist_extended_history);
}
