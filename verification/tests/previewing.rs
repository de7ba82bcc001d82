use codex_session_manager::preview::build_history_tail;
use codex_session_manager::preview::build_prompt_preview_snapshot;
use codex_session_manager::preview::detect_memory_prompt;
use codex_session_manager::preview::diff_reasons;
use codex_session_manager::preview::estimate_initial_context_tokens;
use codex_session_manager::preview::estimate_response_item_tokens;
use codex_session_manager::preview::estimate_response_items_tokens;
use codex_session_manager::preview::prompt_item_preview;
use codex_session_manager::preview::render_output_lines;
use codex_session_manager::preview::truncate_for_preview;
use codex_session_manager::preview::FirstTokenPreviewOutput;
use codex_session_manager::preview::NextTurnContextStrategy;
use codex_session_manager::preview::PromptItemPreview;
use codex_session_manager::preview::PromptSectionPreview;
use codex_session_manager::preview::PromptTools;
use codex_session_manager::rollout::ContentItem;
use codex_session_manager::rollout::ItemKind;
use codex_session_manager::rollout::ResponseItem;
use codex_session_manager::rollout::RolloutItem;
use codex_session_manager::rollout::TurnContextItem;
use codex_session_manager::rollout::TurnItem;
use codex_session_manager::types::RuntimeConfig;
use codex_session_manager::types::SessionSummary;

fn message(role: &str, text: &str) -> ResponseItem {
    ResponseItem {
        kind: ItemKind::Message {
            role: role.to_string(),
            content: vec![ContentItem::InputText { text: text.to_string() }],
        },
        turn: TurnItem::UserMessage { message: text.to_string() },
        encoded_bytes: Some(41),
    }
}

fn session() -> SessionSummary {
    SessionSummary {
        thread_id: "thread-1".to_string(),
        thread_name: None,
        rollout_path: "D:/tmp/rollout.jsonl".to_string(),
        archived: false,
        source: "cli".to_string(),
        session_provider: Some("openai".to_string()),
        session_cwd: "D:/tmp".to_string(),
        session_timestamp: "2026-03-13T00:00:00Z".to_string(),
        latest_model: Some("gpt-5.4".to_string()),
        latest_total_tokens: None,
        latest_context_tokens: Some(500),
        latest_model_context_window: None,
        user_turns: 1,
        first_user_message: None,
        forked_from_id: None,
        memory_mode: None,
    }
}

fn runtime() -> RuntimeConfig {
    RuntimeConfig {
        codex_home: "/home/.codex".to_string(),
        cwd: "D:/tmp".to_string(),
        model: Some("gpt-5.4".to_string()),
        model_provider_id: "openai".to_string(),
        model_context_window: None,
        model_auto_compact_token_limit: None,
        developer_instructions: Some("be brief".to_string()),
        user_instructions: None,
        approval_policy: "never".to_string(),
        sandbox_policy: "read-only".to_string(),
        personality: None,
    }
}

fn context() -> TurnContextItem {
    TurnContextItem {
        turn_id: None,
        model: "gpt-5.4".to_string(),
        cwd: "D:/tmp".to_string(),
        approval_policy: "never".to_string(),
        sandbox_policy: "read-only".to_string(),
        personality: None,
    }
}

fn no_tools() -> PromptTools {
    PromptTools {
        base_instructions_tokens_estimate: 0,
        tool_schema_tokens_estimate: 0,
        tool_count: 0,
        tool_names: vec![],
    }
}

#[test]
fn items_are_estimated_by_their_json() {
    assert_eq!(estimate_response_item_tokens(&message("user", "one")), 11);
    let mut odd = message("user", "one");
    odd.encoded_bytes = None;
    assert_eq!(estimate_response_item_tokens(&odd), 0);
    assert_eq!(
        estimate_response_items_tokens(&vec![message("user", "a"), message("user", "b"), odd]),
        Some(22)
    );
}

#[test]
fn too_large_histories_are_told() {
    let mut huge = message("user", "one");
    huge.encoded_bytes = Some(usize::MAX);
    let items: Vec<ResponseItem> = (0..5).map(|_| huge.clone()).collect();
    assert_eq!(estimate_response_items_tokens(&items), None);
}

#[test]
fn memory_is_shown_only_where_it_is_used() {
    let text = Some("remember the tests".to_string());
    let used = detect_memory_prompt(true, true, &text);
    assert!(used.available);
    assert_eq!(used.summary_tokens_estimate, Some(5));
    assert!(!detect_memory_prompt(false, true, &text).available);
    assert!(!detect_memory_prompt(true, false, &text).available);
    assert!(!detect_memory_prompt(true, true, &Some("  ".to_string())).available);
}

#[test]
fn items_are_previewed_on_one_line() {
    let item = prompt_item_preview(3, &message("user", "first\n line"));
    assert_eq!(item.index, 3);
    assert_eq!(item.role, "user");
    assert!(item.preview.contains("first line"));
    let call = ResponseItem {
        kind: ItemKind::FunctionCall { name: "exec_command".to_string() },
        turn: TurnItem::Other,
        encoded_bytes: Some(8),
    };
    let tool = prompt_item_preview(0, &call);
    assert_eq!(tool.kind, "function_call:exec_command");
    assert_eq!(tool.preview, "(tool call)");
    assert_eq!(tool.estimated_tokens, 2);
}

#[test]
fn tails_keep_the_newest_items() {
    let items: Vec<ResponseItem> =
        ["a", "b", "c"].iter().map(|text| message("user", text)).collect();
    let tail = build_history_tail(&items, 2);
    assert_eq!(tail.len(), 2);
    assert!(tail[0].preview.contains('b'));
    assert!(tail[1].preview.contains('c'));
}

#[test]
fn equal_settings_need_no_update() {
    assert!(diff_reasons(&Some(context()), &runtime()).is_empty());
    let mut moved = runtime();
    moved.cwd = "D:/other".to_string();
    moved.sandbox_policy = "workspace-write".to_string();
    moved.personality = Some("friendly".to_string());
    let reasons = diff_reasons(&Some(context()), &moved);
    assert_eq!(reasons, vec!["environment_context", "permissions", "personality"]);
    assert!(diff_reasons(&None, &moved).is_empty());
    let mut written_otherwise = runtime();
    written_otherwise.cwd = "D://tmp/".to_string();
    assert!(diff_reasons(&Some(context()), &written_otherwise).is_empty());
}

#[test]
fn texts_are_cut_for_previews() {
    assert_eq!(truncate_for_preview("  a   b ", 10), "a b");
    assert_eq!(truncate_for_preview("abcdef", 3), "abc…");
}

#[test]
fn context_is_estimated_by_what_is_there() {
    let nothing = estimate_initial_context_tokens(false, false, None);
    let all = estimate_initial_context_tokens(true, true, Some(100));
    assert!(all > nothing + 100);
}

#[test]
fn sessions_without_context_get_all_of_it() {
    let items = vec![RolloutItem::ResponseItem(message("user", "one"))];
    let memory = detect_memory_prompt(false, false, &None);
    let snapshot = build_prompt_preview_snapshot(
        &session(),
        &runtime(),
        &items,
        "prefix",
        memory,
        &no_tools(),
        &Some("next question".to_string()),
    )
    .expect("a snapshot");
    assert_eq!(
        snapshot.context_strategy,
        NextTurnContextStrategy::FullInitialContext {
            model_switch_message: false,
            memory_prompt: false,
            developer_instructions: true,
            user_instructions: false,
        }
    );
    assert_eq!(snapshot.history_items_count, 1);
    assert_eq!(snapshot.history_tokens_estimate, 500);
    let output = FirstTokenPreviewOutput::from_snapshot(
        &session(),
        Some("next question".to_string()),
        snapshot,
    );
    assert_eq!(output.source_thread_id, "thread-1");
    let lines = render_output_lines(&output);
    assert!(lines.iter().any(|line| line.contains("next question")));
}

#[test]
fn previews_are_printed_line_by_line() {
    let output = FirstTokenPreviewOutput {
        source_thread_id: "thread-1".to_string(),
        source_thread_name: Some("alpha".to_string()),
        source_rollout_path: "/tmp/rollout.jsonl".to_string(),
        source_archived: true,
        source_provider: Some("openai".to_string()),
        source_model: None,
        source_context_tokens_estimate: Some(500),
        source_context_window: None,
        next_user_input: Some("go on".to_string()),
        reconstructed_history_items: 2,
        reconstructed_history_tokens_estimate: 40,
        previous_turn_model: None,
        reference_context_item_present: true,
        next_turn_context_strategy: NextTurnContextStrategy::SettingsUpdate {
            model_switch_message: false,
            reasons: vec!["permissions".to_string(), "personality".to_string()],
        },
        latest_compaction_summary: Some("so far".to_string()),
        latest_compaction_replacement_items: Some(3),
        memory_prompt_available: false,
        memory_summary_tokens_estimate: None,
        developer_instructions_present: true,
        user_instructions_present: false,
        prompt_sections: vec![PromptSectionPreview {
            kind: "reconstructed_history".to_string(),
            description: "replayed".to_string(),
            estimated_tokens: 40,
        }],
        history_tail: vec![PromptItemPreview {
            index: 1,
            role: "user".to_string(),
            kind: "message".to_string(),
            preview: "hello".to_string(),
            estimated_tokens: 11,
        }],
    };
    assert_eq!(
        render_output_lines(&output),
        vec![
            "source_thread_id: thread-1",
            "source_thread_name: alpha",
            "source_rollout_path: /tmp/rollout.jsonl",
            "source_archived: true",
            "source_provider: openai",
            "source_model: ",
            "source_context_tokens_estimate: 500",
            "source_context_window: ",
            "reconstructed_history_items: 2",
            "reconstructed_history_tokens_estimate: 40",
            "",
            "latest_compaction_summary:",
            "so far",
            "",
            "next_turn_context_strategy: settings_update",
            "model_switch_message: false",
            "settings_update_reasons: permissions, personality",
            "memory_prompt_available: false",
            "memory_summary_tokens_estimate: ",
            "developer_instructions_present: true",
            "user_instructions_present: false",
            "latest_compaction_replacement_items: 3",
            "next_user_input: go on",
            "",
            "prompt_sections:",
            "- reconstructed_history | tokens≈40 | replayed",
            "",
            "history_tail:",
            "- #1 user message | tokens≈11 | hello",
        ]
    );
}
