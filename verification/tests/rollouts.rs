use codex_session_manager::replay::build_compacted_history;
use codex_session_manager::replay::collect_user_messages;
use codex_session_manager::replay::drop_last_n_user_turns;
use codex_session_manager::replay::filter_prompt_history;
use codex_session_manager::replay::is_summary_message;
use codex_session_manager::replay::reconstruct_rollout_history;
use codex_session_manager::replay::turn_ids_are_compatible;
use codex_session_manager::rollout::CompactedItem;
use codex_session_manager::rollout::ContentItem;
use codex_session_manager::rollout::EventMsg;
use codex_session_manager::rollout::ItemKind;
use codex_session_manager::rollout::ResponseItem;
use codex_session_manager::rollout::RolloutItem;
use codex_session_manager::rollout::RolloutLine;
use codex_session_manager::rollout::SessionMeta;
use codex_session_manager::rollout::TokenUsageInfo;
use codex_session_manager::rollout::TurnItem;
use codex_session_manager::rollout_edit::edit_error_message;
use codex_session_manager::rollout_edit::first_record_line;
use codex_session_manager::rollout_edit::patch_session_meta;
use codex_session_manager::rollout_edit::repair_record;
use codex_session_manager::rollout_edit::rewrite_rollout_meta_contents;
use codex_session_manager::rollout_edit::rewrite_rollout_resume_state_contents;
use codex_session_manager::rollout_edit::rollout_segments;
use codex_session_manager::rollout_edit::FirstRecord;
use codex_session_manager::rollout_edit::MetaPatch;
use codex_session_manager::rollout_edit::ResumeStatePatch;
use codex_session_manager::rollout_edit::ResumeStateRewriteStats;
use codex_session_manager::rollout_edit::RolloutEditError;
use codex_session_manager::rollout_edit::SegmentReading;
use codex_session_manager::summary::build_session_summary;
use codex_session_manager::summary::drop_last_user_messages;
use codex_session_manager::summary::format_session_source;
use codex_session_manager::summary::is_archived_rollout;
use codex_session_manager::summary::no_records_message;
use codex_session_manager::summary::read_rollout_lines;
use codex_session_manager::summary::record_candidates;
use codex_session_manager::summary::strip_user_message_prefix;
use codex_session_manager::summary::token_snapshot_from_usage;
use codex_session_manager::summary::SummaryError;
use serde_json::Value;

const THREAD_ID: &str = "019cd66f-f4ea-7022-802b-7007c11cea97";

const SUMMARY_PREFIX: &str = "Another language model started to solve this problem";

fn session_meta(cwd: &str) -> SessionMeta {
    SessionMeta {
        id: THREAD_ID.to_string(),
        timestamp: "2026-03-11T00:00:00Z".to_string(),
        cwd: cwd.to_string(),
        source: Some("\"exec\"".to_string()),
        model_provider: Some("openai".to_string()),
        forked_from_id: None,
        memory_mode: Some("enabled".to_string()),
    }
}

fn user_message(text: &str) -> ResponseItem {
    ResponseItem {
        kind: ItemKind::Message {
            role: "user".to_string(),
            content: vec![ContentItem::InputText { text: text.to_string() }],
        },
        turn: TurnItem::UserMessage { message: text.to_string() },
        encoded_bytes: Some(text.len() + 70),
    }
}

fn assistant_message(text: &str) -> ResponseItem {
    ResponseItem {
        kind: ItemKind::Message {
            role: "assistant".to_string(),
            content: vec![ContentItem::OutputText { text: text.to_string() }],
        },
        turn: TurnItem::AgentMessage { content: vec![text.to_string()] },
        encoded_bytes: Some(text.len() + 76),
    }
}

fn line(timestamp: &str, item: RolloutItem) -> RolloutLine {
    RolloutLine { timestamp: timestamp.to_string(), item }
}

fn object(fields: Vec<(&str, Value)>) -> Value {
    let mut map = serde_json::Map::new();
    for (key, value) in fields {
        map.insert(key.to_string(), value);
    }
    Value::Object(map)
}

fn opt(value: &Option<String>) -> Value {
    match value {
        Some(text) => Value::from(text.as_str()),
        None => Value::Null,
    }
}

fn encode(timestamp: &str, item: &RolloutItem) -> String {
    let (kind, payload) = match item {
        RolloutItem::SessionMeta(meta) => (
            "session_meta",
            object(vec![
                ("id", Value::from(meta.id.as_str())),
                ("cwd", Value::from(meta.cwd.as_str())),
                ("model_provider", opt(&meta.model_provider)),
                ("memory_mode", opt(&meta.memory_mode)),
            ]),
        ),
        RolloutItem::EventMsg(EventMsg::TurnStarted { turn_id, model_context_window }) => (
            "event_msg",
            object(vec![
                ("type", Value::from("task_started")),
                ("turn_id", Value::from(turn_id.as_str())),
                ("model_context_window", Value::from(*model_context_window)),
            ]),
        ),
        RolloutItem::EventMsg(EventMsg::TokenCount { info: Some(info) }) => (
            "event_msg",
            object(vec![
                ("type", Value::from("token_count")),
                ("total_tokens", Value::from(info.total_tokens)),
                ("model_context_window", Value::from(info.model_context_window)),
            ]),
        ),
        _ => ("response_item", object(vec![("text", Value::from("hello"))])),
    };
    serde_json::to_string(&object(vec![
        ("timestamp", Value::from(timestamp)),
        ("type", Value::from(kind)),
        ("payload", payload),
    ]))
    .expect("serialize rollout line")
}

fn usage(total: i64, last: i64, window: i64) -> TokenUsageInfo {
    TokenUsageInfo {
        total_tokens: total,
        last_total_tokens: last,
        model_context_window: Some(window),
    }
}

#[test]
fn rewrite_rollout_meta_contents_updates_first_session_meta_line() {
    let meta = session_meta("D:/Dev/self/codex");
    let original = format!(
        "{}\n{}\n",
        encode("2026-03-11T00:00:00Z", &RolloutItem::SessionMeta(meta.clone())),
        encode("2026-03-11T00:00:01Z", &RolloutItem::ResponseItem(user_message("hello")))
    );

    let patch = MetaPatch {
        provider: Some("openrouter".to_string()),
        cwd: Some("D:/Work/project".to_string()),
        memory_mode: Some("polluted".to_string()),
        clear_memory_mode: false,
    };
    assert_eq!(first_record_line(&original).as_deref(), original.lines().next());
    let patched = patch_session_meta(&meta, &patch);
    let encoded = encode("2026-03-11T00:00:00Z", &RolloutItem::SessionMeta(patched));
    let updated = rewrite_rollout_meta_contents(
        &original,
        &FirstRecord::SessionMeta(meta),
        &Some(encoded),
    )
    .expect("rewrite");

    let first_line = updated.lines().next().expect("first line");
    let parsed: Value = serde_json::from_str(first_line).expect("parse rewritten line");
    let payload = parsed.get("payload").expect("expected session meta");
    assert_eq!(payload.get("model_provider").and_then(Value::as_str), Some("openrouter"));
    assert_eq!(payload.get("cwd").and_then(Value::as_str), Some("D:/Work/project"));
    assert_eq!(payload.get("memory_mode").and_then(Value::as_str), Some("polluted"));
    assert_eq!(updated.lines().nth(1), original.lines().nth(1));
}

#[test]
fn patches_change_only_what_they_name() {
    let meta = session_meta("D:/Dev");
    assert_eq!(patch_session_meta(&meta, &MetaPatch::default()), meta);
    let cleared = patch_session_meta(
        &meta,
        &MetaPatch { clear_memory_mode: true, ..MetaPatch::default() },
    );
    assert_eq!(cleared.memory_mode, None);
    assert_eq!(cleared.cwd, meta.cwd);
    assert_eq!(cleared.model_provider, meta.model_provider);
}

#[test]
fn rewriting_needs_a_session_record() {
    let meta = FirstRecord::SessionMeta(session_meta("D:/Dev"));
    let encoded = Some("{}".to_string());
    assert_eq!(
        rewrite_rollout_meta_contents("\n \n", &meta, &encoded),
        Err(RolloutEditError::NoSessionMeta)
    );
    assert_eq!(
        rewrite_rollout_meta_contents("x\n", &FirstRecord::Unreadable, &encoded),
        Err(RolloutEditError::UnreadableFirstLine)
    );
    assert_eq!(
        rewrite_rollout_meta_contents("x\n", &FirstRecord::Other, &encoded),
        Err(RolloutEditError::NotSessionMeta)
    );
    assert_eq!(
        rewrite_rollout_meta_contents("x\n", &meta, &None),
        Err(RolloutEditError::NotEncodable)
    );
    assert_eq!(
        edit_error_message(RolloutEditError::NotSessionMeta),
        "first non-empty rollout line is not a SessionMeta record"
    );
    assert_eq!(first_record_line("\n \n"), None);
}

#[test]
fn rewriting_keeps_line_endings() {
    let meta = FirstRecord::SessionMeta(session_meta("D:/Dev"));
    let encoded = Some("new".to_string());
    assert_eq!(
        rewrite_rollout_meta_contents("\r\nold\r\nrest", &meta, &encoded).expect("rewrite"),
        "\r\nnew\r\nrest"
    );
    assert_eq!(
        rewrite_rollout_meta_contents("old\nrest\n", &meta, &encoded).expect("rewrite"),
        "new\nrest\n"
    );
}

fn read_all(items: &[RolloutItem], contents: &str, patch: ResumeStatePatch) -> Vec<SegmentReading> {
    let segments = rollout_segments(contents);
    assert_eq!(segments.len(), items.len());
    items
        .iter()
        .zip(segments)
        .map(|(item, (_, holds_record))| {
            assert!(holds_record);
            SegmentReading {
                item: Some(item.clone()),
                repaired: repair_record(item, patch).map(|item| encode("repaired", &item)),
            }
        })
        .collect()
}

#[test]
fn rewrite_rollout_resume_state_contents_updates_window_hints() {
    let items = vec![
        RolloutItem::SessionMeta(session_meta("D:/Dev/self/codex")),
        RolloutItem::EventMsg(EventMsg::TurnStarted {
            turn_id: "turn-1".to_string(),
            model_context_window: Some(950_000),
        }),
        RolloutItem::EventMsg(EventMsg::TokenCount { info: Some(usage(12, 12, 950_000)) }),
    ];
    let original = format!(
        "{}\n{}\n{}\n",
        encode("2026-03-11T00:00:00Z", &items[0]),
        encode("2026-03-11T00:00:01Z", &items[1]),
        encode("2026-03-11T00:00:02Z", &items[2]),
    );

    let patch = ResumeStatePatch { model_context_window: 258_400 };
    let readings = read_all(&items, &original, patch);
    let (updated, stats) =
        rewrite_rollout_resume_state_contents(&original, &patch, &readings).expect("rewrite");

    assert_eq!(stats.token_count_events_updated, 1);
    assert_eq!(stats.turn_started_events_updated, 1);
    assert!(updated.contains("\"model_context_window\":258400"));
    assert!(!updated.contains("\"model_context_window\":950000"));
    assert_eq!(updated.lines().next(), original.lines().next());
}

#[test]
fn repaired_rollouts_are_left_alone() {
    let patch = ResumeStatePatch { model_context_window: 258_400 };
    let items = vec![
        RolloutItem::SessionMeta(session_meta("/home/user/workspace")),
        RolloutItem::EventMsg(EventMsg::TurnStarted {
            turn_id: "turn-1".to_string(),
            model_context_window: None,
        }),
        RolloutItem::EventMsg(EventMsg::TokenCount { info: Some(usage(12, 12, 950_000)) }),
        RolloutItem::EventMsg(EventMsg::TokenCount { info: Some(usage(12, 12, 258_400)) }),
    ];
    let original = items
        .iter()
        .map(|item| encode("2026-03-11T00:00:00Z", item))
        .collect::<Vec<_>>()
        .join("\r\n");
    let readings = read_all(&items, &original, patch);
    let (updated, stats) =
        rewrite_rollout_resume_state_contents(&original, &patch, &readings).expect("rewrite");
    assert_eq!(
        stats,
        ResumeStateRewriteStats { token_count_events_updated: 1, turn_started_events_updated: 1 }
    );
    assert_eq!(updated.matches("\r\n").count(), 3);
    assert!(!updated.ends_with('\n'));
    let repaired = items
        .iter()
        .map(|item| repair_record(item, patch).unwrap_or_else(|| item.clone()))
        .collect::<Vec<_>>();
    let readings = read_all(&repaired, &updated, patch);
    let again =
        rewrite_rollout_resume_state_contents(&updated, &patch, &readings).expect("rewrite");
    assert_eq!(again, (updated, ResumeStateRewriteStats::default()));
}

#[test]
fn repairing_twice_changes_nothing_more() {
    let patch = ResumeStatePatch { model_context_window: 258_400 };
    let item = RolloutItem::EventMsg(EventMsg::TurnStarted {
        turn_id: "turn-1".to_string(),
        model_context_window: Some(950_000),
    });
    let repaired = repair_record(&item, patch).expect("a repair");
    assert_eq!(repair_record(&repaired, patch), None);
    assert_eq!(
        repair_record(&RolloutItem::EventMsg(EventMsg::TokenCount { info: None }), patch),
        None
    );
    let contents = format!("{}\n", encode("2026-03-11T00:00:00Z", &repaired));
    let readings = read_all(&[repaired], &contents, patch);
    let (again, stats) =
        rewrite_rollout_resume_state_contents(&contents, &patch, &readings).expect("rewrite");
    assert_eq!(again, contents);
    assert_eq!(stats, ResumeStateRewriteStats::default());
}

#[test]
fn unreadable_lines_are_counted() {
    let patch = ResumeStatePatch { model_context_window: 1 };
    let readings = vec![
        SegmentReading { item: None, repaired: None },
        SegmentReading { item: None, repaired: None },
    ];
    let error =
        rewrite_rollout_resume_state_contents("\nbad\n", &patch, &readings).unwrap_err();
    assert_eq!(error, RolloutEditError::UnreadableLine { line: 2 });
    assert!(edit_error_message(error).contains('2'));
}

#[test]
fn build_session_summary_applies_compaction_and_rollback() {
    let meta = session_meta("/home/user/workspace");
    let lines = vec![
        line("2026-03-11T00:00:00Z", RolloutItem::SessionMeta(meta.clone())),
        line("2026-03-11T00:00:01Z", RolloutItem::ResponseItem(user_message("first"))),
        line("2026-03-11T00:00:02Z", RolloutItem::ResponseItem(user_message("second"))),
        line(
            "2026-03-11T00:00:03Z",
            RolloutItem::Compacted(CompactedItem {
                message: "summary".to_string(),
                replacement_history: Some(vec![user_message("first"), user_message("second")]),
            }),
        ),
        line(
            "2026-03-11T00:00:04Z",
            RolloutItem::EventMsg(EventMsg::TokenCount { info: Some(usage(1200, 450, 256000)) }),
        ),
        line(
            "2026-03-11T00:00:05Z",
            RolloutItem::EventMsg(EventMsg::ThreadRolledBack { num_turns: 1 }),
        ),
    ];
    let readings: Vec<Option<RolloutLine>> = lines.into_iter().map(Some).collect();
    let lines = read_rollout_lines(&readings).expect("records");
    let summary = build_session_summary(
        &meta,
        &Some("Test Thread".to_string()),
        "/home/user/.codex/sessions/2026/03/11/rollout.jsonl",
        false,
        &lines,
    );

    assert_eq!(summary.thread_name.as_deref(), Some("Test Thread"));
    assert_eq!(summary.user_turns, 1);
    assert_eq!(summary.first_user_message.as_deref(), Some("first"));
    assert_eq!(summary.latest_total_tokens, Some(1200));
    assert_eq!(summary.latest_context_tokens, Some(450));
    assert_eq!(summary.latest_model_context_window, Some(256000));
    assert_eq!(summary.memory_mode.as_deref(), Some("enabled"));
    assert_eq!(summary.source, "exec");
    assert_eq!(summary.session_provider.as_deref(), Some("openai"));
}

#[test]
fn request_markers_are_stripped() {
    assert_eq!(
        strip_user_message_prefix("context\n## My request for Codex:\n  do it  "),
        "do it"
    );
    assert_eq!(strip_user_message_prefix("  plain  "), "plain");
}

#[test]
fn rollbacks_take_the_last_requests() {
    let mut messages = vec!["a".to_string(), "b".to_string(), "c".to_string()];
    drop_last_user_messages(&mut messages, 2);
    assert_eq!(messages, vec!["a".to_string()]);
    drop_last_user_messages(&mut messages, 5);
    assert!(messages.is_empty());
}

#[test]
fn token_counts_come_from_the_last_usage() {
    let snapshot = token_snapshot_from_usage(&Some(usage(1200, 450, 256000)));
    assert_eq!(snapshot.session_total_tokens, Some(1200));
    assert_eq!(snapshot.context_tokens, Some(450));
    assert_eq!(snapshot.model_context_window, Some(256000));
    let nothing = token_snapshot_from_usage(&None);
    assert_eq!(nothing.context_tokens, None);
}

#[test]
fn archived_rollouts_lie_in_the_archive() {
    let components = vec!["home".to_string(), "archived_sessions".to_string(), "r".to_string()];
    assert!(is_archived_rollout(&components, "archived_sessions"));
    assert!(!is_archived_rollout(&components, "sessions"));
}

#[test]
fn sources_are_named_without_quotes() {
    assert_eq!(format_session_source(&Some("\"cli\"".to_string())), "cli");
    assert_eq!(format_session_source(&None), "unknown");
}

#[test]
fn blank_lines_hold_no_record() {
    assert_eq!(record_candidates("\n  {} \n\n[]\n"), vec!["{}".to_string(), "[]".to_string()]);
    assert_eq!(read_rollout_lines(&vec![None, None]), Err(SummaryError::NoRecords));
    assert!(no_records_message("r.jsonl").contains("r.jsonl"));
}

#[test]
fn build_compacted_history_keeps_recent_user_messages_and_summary() {
    let history = build_compacted_history(
        Vec::new(),
        &vec!["first".to_string(), "second".to_string()],
        "summary text",
    );
    assert_eq!(history.len(), 3);
    assert_eq!(history[0].turn, TurnItem::UserMessage { message: "first".to_string() });
    assert_eq!(history[2].turn, TurnItem::UserMessage { message: "summary text".to_string() });
}

#[test]
fn written_messages_are_sized_as_json() {
    let history = build_compacted_history(Vec::new(), &vec![], "summary text");
    let bytes = history[0].encoded_bytes.expect("a size");
    assert!(bytes > "summary text".len());
}

#[test]
fn drop_last_n_user_turns_removes_newest_user_messages() {
    let mut items = vec![user_message("one"), user_message("two"), user_message("three")];
    drop_last_n_user_turns(&mut items, 2);
    assert_eq!(items, vec![user_message("one")]);
}

#[test]
fn dropping_turns_takes_their_answers_along() {
    let mut items = vec![
        user_message("one"),
        assistant_message("first answer"),
        user_message("two"),
        assistant_message("second answer"),
    ];
    drop_last_n_user_turns(&mut items, 1);
    assert_eq!(items, vec![user_message("one"), assistant_message("first answer")]);
}

#[test]
fn reconstruct_rollout_history_applies_replacement_history() {
    let rollout_items = vec![
        RolloutItem::ResponseItem(user_message("one")),
        RolloutItem::ResponseItem(user_message("two")),
        RolloutItem::Compacted(CompactedItem {
            message: "summary".to_string(),
            replacement_history: Some(vec![user_message("one"), user_message("two")]),
        }),
    ];

    let reconstruction = reconstruct_rollout_history(&rollout_items, SUMMARY_PREFIX);
    assert_eq!(
        collect_user_messages(&reconstruction.history, SUMMARY_PREFIX),
        vec!["one", "two"]
    );
}

#[test]
fn plain_rollouts_are_shown_as_they_stand() {
    let rollout_items = vec![
        RolloutItem::ResponseItem(user_message("one")),
        RolloutItem::ResponseItem(assistant_message("answer")),
    ];
    let reconstruction = reconstruct_rollout_history(&rollout_items, SUMMARY_PREFIX);
    assert_eq!(reconstruction.history, vec![user_message("one"), assistant_message("answer")]);
}

#[test]
fn rollbacks_take_turns_out_of_the_history() {
    let rollout_items = vec![
        RolloutItem::EventMsg(EventMsg::TurnStarted {
            turn_id: "t1".to_string(),
            model_context_window: None,
        }),
        RolloutItem::EventMsg(EventMsg::UserMessage),
        RolloutItem::ResponseItem(user_message("one")),
        RolloutItem::EventMsg(EventMsg::TurnComplete { turn_id: "t1".to_string() }),
        RolloutItem::EventMsg(EventMsg::TurnStarted {
            turn_id: "t2".to_string(),
            model_context_window: None,
        }),
        RolloutItem::EventMsg(EventMsg::UserMessage),
        RolloutItem::ResponseItem(user_message("two")),
        RolloutItem::EventMsg(EventMsg::TurnComplete { turn_id: "t2".to_string() }),
        RolloutItem::EventMsg(EventMsg::ThreadRolledBack { num_turns: 1 }),
    ];
    let reconstruction = reconstruct_rollout_history(&rollout_items, SUMMARY_PREFIX);
    assert_eq!(collect_user_messages(&reconstruction.history, SUMMARY_PREFIX), vec!["one"]);
}

#[test]
fn summaries_are_no_requests() {
    let summary = format!("{SUMMARY_PREFIX}\nwhat was done");
    assert!(is_summary_message(&summary, SUMMARY_PREFIX));
    assert!(!is_summary_message("plain", SUMMARY_PREFIX));
    let items = vec![user_message("one"), user_message(&summary)];
    assert_eq!(collect_user_messages(&items, SUMMARY_PREFIX), vec!["one"]);
}

#[test]
fn only_prompt_items_are_shown() {
    let unknown =
        ResponseItem { kind: ItemKind::Other, turn: TurnItem::Other, encoded_bytes: Some(2) };
    let system = ResponseItem {
        kind: ItemKind::Message { role: "system".to_string(), content: vec![] },
        turn: TurnItem::Other,
        encoded_bytes: Some(2),
    };
    let reasoning =
        ResponseItem { kind: ItemKind::Reasoning, turn: TurnItem::Other, encoded_bytes: None };
    let items = vec![user_message("one"), unknown, system, reasoning.clone()];
    assert_eq!(filter_prompt_history(&items), vec![user_message("one"), reasoning]);
}

#[test]
fn turns_fit_unless_their_ids_differ() {
    assert!(turn_ids_are_compatible(Some("a"), Some("a")));
    assert!(turn_ids_are_compatible(Some("a"), None));
    assert!(turn_ids_are_compatible(None, Some("a")));
    assert!(!turn_ids_are_compatible(Some("a"), Some("b")));
}
