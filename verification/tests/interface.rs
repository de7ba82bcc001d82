use codex_session_manager::cli::Command;
use codex_session_manager::cli::DistillCompressionLevel;
use codex_session_manager::cli::DistillMode;
use codex_session_manager::progress::DistillProgressEvent;
use codex_session_manager::progress::OperationProgressEvent;
use codex_session_manager::progress::SmartProgressEvent;
use codex_session_manager::progress::SmartStrategyKind;
use codex_session_manager::runtime::shell_quote;
use codex_session_manager::tui::actions::action_window;
use codex_session_manager::tui::actions::offered_actions;
use codex_session_manager::tui::actions::Action;
use codex_session_manager::tui::actions::ActionInputKind;
use codex_session_manager::tui::catalog::collect_ids;
use codex_session_manager::tui::catalog::load_catalog;
use codex_session_manager::tui::catalog::Catalog;
use codex_session_manager::tui::catalog::CatalogRow;
use codex_session_manager::tui::command_line::build_command_argv;
use codex_session_manager::tui::command_line::command_argv;
use codex_session_manager::tui::command_line::execute_prepared_command;
use codex_session_manager::tui::command_line::input_error_text;
use codex_session_manager::tui::command_line::prepare_command;
use codex_session_manager::tui::command_line::InputError;
use codex_session_manager::tui::language::empty_text;
use codex_session_manager::tui::language::footer_text;
use codex_session_manager::tui::language::format_optional_i64;
use codex_session_manager::tui::language::localized_heading_text;
use codex_session_manager::tui::language::not_set_text;
use codex_session_manager::tui::language::unknown_text;
use codex_session_manager::tui::language::Language;
use codex_session_manager::tui::progress_text::format_progress_event;
use codex_session_manager::tui::progress_text::format_smart_progress;
use codex_session_manager::tui::progress_text::smart_strategy_label_en;
use codex_session_manager::tui::progress_text::smart_strategy_label_zh;
use codex_session_manager::tui::results::drain_progress_events;
use codex_session_manager::tui::results::error_result_state;
use codex_session_manager::tui::results::localize_known_result_title;
use codex_session_manager::tui::results::preview_processing_result;
use codex_session_manager::tui::results::smart_or_distill_processing_result;
use codex_session_manager::tui::results::OperationLog;
use codex_session_manager::tui::results::ResultViewState;
use codex_session_manager::tui::run::run_distill_with_progress;
use codex_session_manager::tui::run::run_smart_with_progress;
use codex_session_manager::tui::run::take_smart_setup;
use codex_session_manager::tui::run::OperationRun;
use codex_session_manager::tui::run::RunAction;
use codex_session_manager::tui::run::RunEvent;
use codex_session_manager::tui::run::SmartSetup;
use codex_session_manager::tui::screen::draw_actions_overlay;
use codex_session_manager::tui::screen::draw_header;
use codex_session_manager::tui::screen::draw_prompt_overlay;
use codex_session_manager::tui::screen::draw_result_page;
use codex_session_manager::tui::screen::draw_status;
use codex_session_manager::tui::screen::draw_thread_details;
use codex_session_manager::tui::screen::draw_thread_list;
use codex_session_manager::tui::screen::footer_parts;
use codex_session_manager::tui::screen::status_line;
use codex_session_manager::tui::state::AppState;
use codex_session_manager::tui::state::DetailState;
use codex_session_manager::tui::state::Key;
use codex_session_manager::tui::state::Mode;
use codex_session_manager::tui::state::UiEffect;
use codex_session_manager::tui::threads::derive_thread_title;
use codex_session_manager::tui::threads::preferred_selection;
use codex_session_manager::tui::threads::short_timestamp;
use codex_session_manager::tui::threads::tail_text;
use codex_session_manager::tui::threads::truncate_text;
use codex_session_manager::tui::threads::ThreadEntry;
use codex_session_manager::tui::threads::ThreadIdentity;
use codex_session_manager::tui::threads::ThreadItem;
use codex_session_manager::tui::threads::ThreadTitle;
use codex_session_manager::types::SessionSummary;

const THREAD_ID: &str = "019cd66f-f4ea-7022-802b-7007c11cea97";

fn sample_thread() -> ThreadEntry {
    ThreadEntry {
        thread_id: Some(THREAD_ID.to_string()),
        rollout_path: "D:/codex/rollout.jsonl".to_string(),
        provider: "openai".to_string(),
        archived: false,
        title: "Sample".to_string(),
        thread_name: Some("Sample".to_string()),
        preview: Some("preview".to_string()),
        cwd: None,
        source: Some("cli".to_string()),
        created_at: None,
        updated_at: None,
    }
}

fn thread(path: &str, provider: &str, title: &str, used: Option<&str>, archived: bool) -> ThreadEntry {
    ThreadEntry {
        thread_id: None,
        rollout_path: path.to_string(),
        provider: provider.to_string(),
        archived,
        title: title.to_string(),
        thread_name: None,
        preview: None,
        cwd: None,
        source: None,
        created_at: None,
        updated_at: used.map(str::to_string),
    }
}

fn app_with(threads: Vec<ThreadEntry>) -> AppState {
    let mut app = AppState::in_language(Language::English);
    app.reload(Catalog::new(threads), &None, 1000);
    app
}

fn press(app: &mut AppState, key: Key) -> UiEffect {
    app.handle_key(key, 2000).expect("an effect")
}

#[test]
fn derive_thread_title_prefers_thread_name() {
    let title = derive_thread_title(
        Some("  标题  "),
        Some("first user message"),
        Some(THREAD_ID),
        Some("rollout.jsonl"),
        "D:/codex/rollout.jsonl",
    );
    assert_eq!(title, "标题");
}

#[test]
fn titles_fall_back_in_turn() {
    let path = "D:/codex/rollout.jsonl";
    let long = "x".repeat(100);
    let title = derive_thread_title(Some("  "), Some(&long), None, None, path);
    assert_eq!(title.chars().count(), 72);
    assert!(title.ends_with('…'));
    assert_eq!(derive_thread_title(None, Some(" "), Some("id"), None, path), "id");
    assert_eq!(
        derive_thread_title(None, None, None, Some("rollout.jsonl"), path),
        "rollout.jsonl"
    );
    assert_eq!(derive_thread_title(None, None, None, None, path), path);
}

#[test]
fn build_command_argv_keeps_rename_text_as_single_argument() {
    let argv = build_command_argv(Action::Rename, &sample_thread(), "迁移到 yunyi")
        .expect("build command argv");
    assert_eq!(
        argv,
        vec![
            "codex-session-manager".to_string(),
            "rename".to_string(),
            "019cd66f-f4ea-7022-802b-7007c11cea97".to_string(),
            "迁移到 yunyi".to_string(),
        ]
    );
}

#[test]
fn build_command_argv_splits_raw_flags_with_shell_rules() {
    let argv = build_command_argv(
        Action::Migrate,
        &sample_thread(),
        "--provider yunyi --thread-name \"迁移 256k\"",
    )
    .expect("build command argv");
    assert_eq!(
        argv,
        vec![
            "codex-session-manager".to_string(),
            "migrate".to_string(),
            "019cd66f-f4ea-7022-802b-7007c11cea97".to_string(),
            "--provider".to_string(),
            "yunyi".to_string(),
            "--thread-name".to_string(),
            "迁移 256k".to_string(),
        ]
    );
}

#[test]
fn build_command_argv_supports_first_token_preview_without_extra_flags() {
    let argv = build_command_argv(Action::FirstTokenPreview, &sample_thread(), "")
        .expect("build command argv");
    assert_eq!(
        argv,
        vec![
            "codex-session-manager".to_string(),
            "first-token-preview".to_string(),
            "019cd66f-f4ea-7022-802b-7007c11cea97".to_string(),
        ]
    );
}

#[test]
fn language_detection_maps_zh_locale_to_chinese() {
    assert_eq!(Language::from_locale_tag("zh-CN"), Language::Chinese);
    assert_eq!(Language::from_locale_tag("zh_Hans"), Language::Chinese);
    assert_eq!(Language::from_locale_tag("en-US"), Language::English);
}

#[test]
fn language_toggle_switches_between_english_and_chinese() {
    assert_eq!(Language::English.toggle(), Language::Chinese);
    assert_eq!(Language::Chinese.toggle(), Language::English);
}

#[test]
fn action_window_shows_all_when_list_fits() {
    assert_eq!(action_window(0, 5, 10), (0, 5));
}

#[test]
fn action_window_scrolls_to_keep_selected_visible() {
    assert_eq!(action_window(14, 15, 10), (5, 15));
    assert_eq!(action_window(9, 15, 10), (4, 14));
}

#[test]
fn schedule_selected_detail_refresh_debounces_missing_detail() {
    let mut app = AppState::in_language(Language::English);
    app.catalog = Catalog::new(vec![sample_thread()]);

    app.schedule_selected_detail_refresh(1000);

    assert!(app.detail_dirty);
    assert!(app.detail_load_due_at.is_some());
    assert_eq!(app.detail_load_due_at, Some(1450));
}

#[test]
fn schedule_selected_detail_refresh_skips_cached_detail() {
    let mut app = AppState::in_language(Language::English);
    let thread = sample_thread();
    app.catalog = Catalog::new(vec![thread.clone()]);
    app.detail_loaded(
        thread.rollout_path.clone(),
        DetailState::Failed { error: "cached".to_string() },
    );

    app.schedule_selected_detail_refresh(1000);

    assert!(!app.detail_dirty);
    assert!(app.detail_load_due_at.is_none());
}

#[test]
fn new_interfaces_are_empty() {
    let app = AppState::new();
    assert!(app.catalog.threads.is_empty());
    assert_eq!((app.selected_thread, app.scroll), (0, 0));
    assert!(matches!(app.mode, Mode::Browsing));
    assert_eq!(app.status, None);
    assert!(app.detail_cache.is_empty());
    assert!(!app.detail_dirty);
    assert_eq!(app.detail_load_due_at, None);
}

#[test]
fn details_are_kept_once_for_each_path() {
    let mut app = AppState::in_language(Language::English);
    app.catalog = Catalog::new(vec![sample_thread()]);
    for (path, error) in [
        ("D:/codex/rollout.jsonl", "first"),
        ("D:/codex/other.jsonl", "other"),
        ("D:/codex//rollout.jsonl/", "second"),
    ] {
        app.detail_loaded(path.to_string(), DetailState::Failed { error: error.to_string() });
    }
    assert_eq!(app.detail_cache.len(), 2);
    assert_eq!(
        app.selected_detail(),
        Some(&DetailState::Failed { error: "second".to_string() })
    );
    assert_eq!(app.refresh_selected_detail(), None);
}

#[test]
fn quoted_words_can_be_typed_back() {
    let words = ["--thread-name", "it's # \\ two", "", "--model", "a\tb\n\"c\"", "标题"];
    let typed =
        words.iter().map(|word| shell_quote(word)).collect::<Vec<_>>().join(" ");
    let argv = build_command_argv(Action::Fork, &sample_thread(), &format!("  {typed} "))
        .expect("build command argv");
    assert_eq!(argv[3..], words.map(str::to_string));
}

#[test]
fn missing_input_is_told() {
    let text = build_command_argv(Action::Rename, &sample_thread(), "  ").unwrap_err();
    assert_eq!(text, InputError::TextRequired { action: Action::Rename });
    assert_eq!(input_error_text(&text), "rename requires text input");
    let raw = build_command_argv(Action::Rollback, &sample_thread(), "").unwrap_err();
    assert_eq!(raw, InputError::ArgumentsRequired { action: Action::Rollback });
    assert_eq!(input_error_text(&raw), "rollback requires additional arguments");
    let quote = build_command_argv(Action::Fork, &sample_thread(), "--model 'x").unwrap_err();
    assert_eq!(quote, InputError::UnclosedQuote);
    assert_eq!(input_error_text(&quote), "missing closing quote");
    assert_eq!(input_error_text(&InputError::NoCommand), "missing subcommand from TUI action");
}

#[test]
fn words_are_handed_on_as_they_were_split() {
    let words = Some(vec!["--model".to_string(), "a b".to_string()]);
    let argv = command_argv(Action::Fork, "t", "whatever", &words).expect("words");
    assert_eq!(argv[3..], ["--model".to_string(), "a b".to_string()]);
}

#[test]
fn commands_are_prepared_with_a_preview() {
    let prepared = prepare_command(
        Action::Migrate,
        &sample_thread(),
        "--provider yunyi --thread-name \"迁移 256k\"",
    )
    .expect("a command");
    assert_eq!(
        prepared.preview,
        format!(
            "codex-session-manager migrate {THREAD_ID} --provider yunyi --thread-name '迁移 256k'"
        )
    );
    let Command::Migrate(args) = prepared.command else {
        panic!("expected migrate");
    };
    assert_eq!(args.thread_name.as_deref(), Some("迁移 256k"));
    assert_eq!(
        prepare_command(Action::Migrate, &sample_thread(), "--no-such-flag"),
        Err(InputError::NotParsed)
    );
}

#[test]
fn every_action_prepares_its_command() {
    for action in Action::all() {
        let input = match action {
            Action::Rename => "name",
            Action::Rollback => "1",
            Action::RewriteMeta => "--provider x",
            _ => "",
        };
        let prepared = prepare_command(action, &sample_thread(), input).expect("a command");
        assert_eq!(prepared.action, action);
    }
}

#[test]
fn examples_of_actions_can_be_typed() {
    for action in Action::all() {
        if let Some(example) = action.example(Language::English) {
            assert!(prepare_command(action, &sample_thread(), example).is_ok(), "{example}");
        }
    }
}

#[test]
fn actions_fit_their_sessions() {
    let archived = offered_actions(true);
    assert!(archived.contains(&Action::Unarchive));
    assert!(!archived.contains(&Action::Archive));
    assert!(!archived.contains(&Action::Compact));
    assert!(!archived.contains(&Action::Rollback));
    let active = offered_actions(false);
    assert!(!active.contains(&Action::Unarchive));
    assert_eq!(active.len(), 17);
    assert_eq!(Action::all().len(), 18);
    assert_eq!(Action::Rename.input_kind(), ActionInputKind::Text { required: true });
    assert_eq!(Action::Show.description(Language::Chinese), "查看这个线程的派生摘要信息");
}

#[test]
fn words_are_in_the_language_of_the_interface() {
    assert_eq!(Language::Chinese.label(), "中文");
    assert_eq!(unknown_text(Language::English), "unknown");
    assert_eq!(empty_text(Language::Chinese), "无");
    assert_eq!(not_set_text(Language::English), "not set");
    assert_eq!(footer_text(Language::Chinese, "a", "b"), "b");
    assert_eq!(localized_heading_text(Language::English, "a", "b"), "a");
    assert_eq!(format_optional_i64(Some(-5), Language::English), "-5");
    assert_eq!(format_optional_i64(None, Language::Chinese), "未知");
}

#[test]
fn short_texts_fit() {
    assert_eq!(truncate_text("abcdef", 4), "abc…");
    assert_eq!(truncate_text("abcd", 4), "abcd");
    assert_eq!(truncate_text("abcd", 0), "");
    assert_eq!(tail_text("abcdef", 2), "ef");
    assert_eq!(tail_text("abc", 0), "");
    assert_eq!(short_timestamp("2026-03-11T08:24:46.202Z"), "2026-03-11 08:24");
    assert_eq!(short_timestamp("2026-03-11Z"), "2026-03-11");
}

#[test]
fn sessions_are_grouped_and_ordered() {
    let catalog = Catalog::new(vec![
        thread("a", "yunyi", "older", Some("2026-01-01"), false),
        thread("b", "openai", "b title", Some("2026-02-01"), true),
        thread("c", "yunyi", "newer", Some("2026-03-01"), false),
        thread("d", "openai", "a title", Some("2026-02-01"), false),
        thread("e", "openai", "never", None, false),
    ]);
    assert_eq!(catalog.ordered_threads, vec![3, 1, 4, 2, 0]);
    assert_eq!(
        catalog.rows,
        vec![
            CatalogRow::Header { provider: "openai".to_string(), count: 3 },
            CatalogRow::Thread { index: 3 },
            CatalogRow::Thread { index: 1 },
            CatalogRow::Thread { index: 4 },
            CatalogRow::Header { provider: "yunyi".to_string(), count: 2 },
            CatalogRow::Thread { index: 2 },
            CatalogRow::Thread { index: 0 },
        ]
    );
    assert_eq!(catalog.row_by_thread, vec![6, 2, 5, 1, 3]);
    assert_eq!(catalog.active_count, 4);
    assert_eq!(catalog.archived_count, 1);
    assert_eq!(catalog.provider_count, 2);
    let identity = ThreadIdentity { thread_id: None, rollout_path: "c".to_string() };
    assert_eq!(catalog.find_selection(&identity), Some(3));
    let slashed = ThreadIdentity { thread_id: None, rollout_path: "c/".to_string() };
    assert_eq!(catalog.find_selection(&slashed), Some(3));
    let gone = ThreadIdentity { thread_id: None, rollout_path: "x".to_string() };
    assert_eq!(catalog.find_selection(&gone), None);
}

fn item(id: Option<&str>, path: &str, message: Option<&str>) -> ThreadItem {
    ThreadItem {
        thread_id: id.map(str::to_string),
        path: path.to_string(),
        file_name: Some(path.to_string()),
        model_provider: None,
        first_user_message: message.map(str::to_string),
        cwd: None,
        has_source: true,
        source_json: Some("\"cli\"".to_string()),
        created_at: Some("2026-01-01".to_string()),
        updated_at: None,
    }
}

#[test]
fn catalogs_are_loaded_from_both_stores() {
    let active = vec![item(Some("1"), "a", Some(" hi  there ")), item(Some("2"), "b", None)];
    let archived = vec![item(Some("1"), "c", None)];
    let mut all = active.clone();
    all.extend(archived.clone());
    assert_eq!(collect_ids(&all), vec!["1".to_string(), "2".to_string()]);
    let names =
        vec![ThreadTitle { thread_id: "2".to_string(), name: "Second".to_string() }];
    let catalog = load_catalog(&active, &archived, "openai", &names);
    assert_eq!(catalog.threads[0].title, "hi there");
    assert_eq!(catalog.threads[0].provider, "openai");
    assert_eq!(catalog.threads[0].source.as_deref(), Some("cli"));
    assert_eq!(catalog.threads[1].title, "Second");
    assert!(catalog.threads[2].archived);
    assert_eq!(catalog.threads[2].title, "1");
}

#[test]
fn sessions_are_found_again_after_a_reload() {
    let threads = vec![sample_thread(), thread("b", "openai", "b", None, false)];
    let mut app = app_with(threads.clone());
    press(&mut app, Key::Down);
    let chosen = app.selected_identity();
    app.reload(Catalog::new(threads), &chosen, 3000);
    assert_eq!(app.selected_identity(), chosen);
    assert_eq!(app.mode, Mode::Browsing);
    assert_eq!(
        app.status.as_deref(),
        Some("Loaded 2 threads across 1 providers (2 active, 0 archived)")
    );
}

#[test]
fn new_sessions_are_selected_by_id_or_path() {
    let by_id = preferred_selection(&Some(THREAD_ID.to_string()), &None).expect("an identity");
    assert_eq!(by_id.thread_id.as_deref(), Some(THREAD_ID));
    let by_path = preferred_selection(&Some("no id".to_string()), &Some("p".to_string()))
        .expect("an identity");
    assert_eq!(by_path.thread_id, None);
    assert_eq!(by_path.rollout_path, "p");
    assert_eq!(preferred_selection(&None, &None), None);
}

#[test]
fn keys_move_the_selection() {
    let mut app = app_with(vec![
        thread("a", "p", "a", None, false),
        thread("b", "p", "b", None, false),
    ]);
    assert_eq!(app.selected_thread, 0);
    press(&mut app, Key::Up);
    assert_eq!(app.selected_thread, 0);
    press(&mut app, Key::Down);
    press(&mut app, Key::Down);
    assert_eq!(app.selected_thread, 1);
    assert_eq!(app.detail_load_due_at, Some(2450));
    assert_eq!(press(&mut app, Key::Char { ch: 'r' }), UiEffect::Reload);
    assert_eq!(press(&mut app, Key::Char { ch: 'q' }), UiEffect::Quit);
}

#[test]
fn empty_lists_have_nothing_to_act_on() {
    let mut app = app_with(vec![]);
    assert_eq!(press(&mut app, Key::Enter), UiEffect::Nothing);
    assert_eq!(app.mode, Mode::Browsing);
    assert!(app.selected_entry().is_none());
    assert!(app.available_actions().is_empty());
    assert!(draw_thread_list(&mut app, 10).is_empty());
}

#[test]
fn actions_without_input_run_at_once() {
    let mut app = app_with(vec![sample_thread()]);
    press(&mut app, Key::Enter);
    assert_eq!(app.mode, Mode::Actions { selected: 0 });
    let UiEffect::Execute(prepared) = press(&mut app, Key::Enter) else {
        panic!("expected a command");
    };
    assert_eq!(prepared.action, Action::Show);
    assert_eq!(app.mode, Mode::Browsing);
    press(&mut app, Key::Enter);
    press(&mut app, Key::Down);
    let UiEffect::RunFirstTokenPreview(args) = press(&mut app, Key::Enter) else {
        panic!("expected a preview");
    };
    assert_eq!(args.target.target, THREAD_ID);
}

#[test]
fn smart_switches_and_distillations_have_pages() {
    let mut app = app_with(vec![sample_thread()]);
    let place = |action| {
        offered_actions(false).iter().position(|offered| *offered == action).expect("offered")
    };
    app.mode = Mode::Actions { selected: place(Action::Smart) };
    assert!(matches!(press(&mut app, Key::Enter), UiEffect::RunSmart(_)));
    app.mode = Mode::Actions { selected: place(Action::Distill) };
    assert_eq!(press(&mut app, Key::Enter), UiEffect::Nothing);
    for ch in "--preview-only".chars() {
        press(&mut app, Key::Char { ch });
    }
    let UiEffect::RunDistill(args) = press(&mut app, Key::Enter) else {
        panic!("expected a distillation");
    };
    assert!(args.preview_only);
}

#[test]
fn input_is_typed_and_put_right() {
    let mut app = app_with(vec![sample_thread()]);
    app.mode = Mode::Prompt { action: Action::Rename, input: String::new() };
    assert_eq!(press(&mut app, Key::Enter), UiEffect::Nothing);
    assert_eq!(app.status.as_deref(), Some("Input error: rename requires text input"));
    press(&mut app, Key::Char { ch: '新' });
    press(&mut app, Key::Char { ch: 'x' });
    press(&mut app, Key::Backspace);
    assert_eq!(app.mode, Mode::Prompt { action: Action::Rename, input: "新".to_string() });
    let UiEffect::Execute(prepared) = press(&mut app, Key::Enter) else {
        panic!("expected a command");
    };
    let Command::Rename(args) = prepared.command else {
        panic!("expected rename");
    };
    assert_eq!(args.name, "新");
    app.mode = Mode::Prompt { action: Action::Rename, input: "x".to_string() };
    press(&mut app, Key::Esc);
    assert_eq!(app.mode, Mode::Actions { selected: 0 });
    press(&mut app, Key::Esc);
    assert_eq!(app.mode, Mode::Browsing);
}

#[test]
fn the_language_switches_everywhere() {
    let mut app = app_with(vec![sample_thread()]);
    app.show_result(preview_processing_result(Language::English));
    let mode = app.mode.clone();
    press(&mut app, Key::SwitchLanguage);
    assert_eq!(app.language, Language::Chinese);
    assert_eq!(app.mode, mode);
    assert_eq!(app.status.as_deref(), Some("界面语言已切换为中文"));
    press(&mut app, Key::SwitchLanguage);
    assert_eq!(app.language, Language::English);
}

#[test]
fn pages_are_scrolled_and_left() {
    let mut app = app_with(vec![sample_thread()]);
    let page = ResultViewState {
        title: "T".to_string(),
        lines: (0..10).map(|i| i.to_string()).collect(),
        scroll: 0,
    };
    app.show_result(page.clone());
    press(&mut app, Key::Up);
    press(&mut app, Key::Down);
    let Mode::Result(shown) = &app.mode else {
        panic!("expected a page");
    };
    assert_eq!(shown.scroll, 1);
    let view = draw_result_page(shown, 4, Language::English);
    assert_eq!(view.lines, vec!["1", "2", "3", "4"]);
    assert_eq!(view.position, "Showing lines 2-5 of 10");
    let far = ResultViewState { scroll: 99, ..page };
    assert_eq!(draw_result_page(&far, 4, Language::Chinese).lines, vec!["6", "7", "8", "9"]);
    press(&mut app, Key::Esc);
    assert_eq!(app.mode, Mode::Browsing);
}

#[test]
fn details_are_loaded_once_they_are_due() {
    let mut app = app_with(vec![sample_thread()]);
    assert_eq!(app.poll_timeout(1000), 250);
    assert_eq!(app.poll_timeout(1400), 50);
    assert_eq!(app.poll_timeout(9000), 0);
    assert_eq!(app.refresh_selected_detail_if_due(1449), None);
    assert_eq!(
        app.refresh_selected_detail_if_due(1450).as_deref(),
        Some("D:/codex/rollout.jsonl")
    );
    app.detail_loaded(
        "D:/codex/rollout.jsonl".to_string(),
        DetailState::Failed { error: "gone".to_string() },
    );
    assert!(!app.detail_dirty);
    assert_eq!(app.poll_timeout(9000), 250);
    assert!(matches!(app.selected_detail(), Some(DetailState::Failed { .. })));
    assert_eq!(app.refresh_selected_detail(), None);
    let lines = draw_thread_details(&app);
    assert!(lines.iter().any(|line| line.value == "Failed to load detail: gone"));
}

#[test]
fn details_show_the_session() {
    let mut app = app_with(vec![sample_thread()]);
    let lines = draw_thread_details(&app);
    assert_eq!(lines[0].label, "Title: ");
    assert_eq!(lines[0].value, "Sample");
    assert!(lines
        .iter()
        .any(|line| line.value == "Pause on this thread briefly to load runtime summary."));
    assert_eq!(lines.last().expect("a line").value, "preview");
    app.detail_loaded(
        "D:/codex/rollout.jsonl".to_string(),
        DetailState::Loaded(SessionSummary {
            thread_id: THREAD_ID.to_string(),
            thread_name: None,
            rollout_path: "D:/codex/rollout.jsonl".to_string(),
            archived: false,
            source: "cli".to_string(),
            session_provider: None,
            session_cwd: "D:/".to_string(),
            session_timestamp: "2026".to_string(),
            latest_model: Some("gpt-5.4".to_string()),
            latest_total_tokens: Some(12),
            latest_context_tokens: None,
            latest_model_context_window: Some(950000),
            user_turns: 3,
            first_user_message: None,
            forked_from_id: None,
            memory_mode: None,
        }),
    );
    let lines = draw_thread_details(&app);
    assert!(lines.iter().any(|line| line.label == "Model: " && line.value == "gpt-5.4"));
    assert!(lines.iter().any(|line| line.label == "Context tokens: " && line.value == "unknown"));
    assert!(lines.iter().any(|line| line.label == "User turns: " && line.value == "3"));
}

#[test]
fn the_selected_row_is_visible() {
    let threads = (0..20)
        .map(|i| thread(&format!("{i:02}"), "p", &format!("{i:02}"), None, i == 3))
        .collect();
    let mut app = app_with(threads);
    for _ in 0..15 {
        press(&mut app, Key::Down);
    }
    let rows = draw_thread_list(&mut app, 5);
    assert_eq!(rows.len(), 5);
    let selected: Vec<_> = rows.iter().filter(|row| row.selected).collect();
    assert_eq!(selected.len(), 1);
    assert_eq!(selected[0].title, "15");
    for _ in 0..15 {
        press(&mut app, Key::Up);
    }
    let rows = draw_thread_list(&mut app, 6);
    assert!(rows[0].selected);
    assert_eq!(rows[3].tag, "[archived] ");
}

#[test]
fn frames_of_the_interface_are_filled() {
    let app = app_with(vec![sample_thread()]);
    assert_eq!(
        draw_header(&app),
        "codex-session-manager TUI · 1 threads · 1 providers · English (F2)"
    );
    assert!(draw_status(&app).starts_with("Loaded 1 threads"));
    assert!(!status_line(&draw_status(&app)));
    assert!(status_line("Failed show: x"));
    assert!(status_line("输入错误：x"));
    assert_eq!(
        footer_parts(Language::English).concat(),
        "Keys: ↑/↓ move · Enter actions · r refresh · F2 language · q quit"
    );
    let actions = draw_actions_overlay(&app, 12, 5).expect("actions");
    assert_eq!(actions.rows.len(), 5);
    assert!(actions.rows.iter().any(|row| row.selected));
    assert_eq!(actions.heading[1], "Provider: openai · active");
    let prompt = draw_prompt_overlay(&app, Action::Rename, "abcdef", 4).expect("a prompt");
    assert_eq!(prompt.visible_input, "def");
    assert_eq!(prompt.cursor, 3);
    assert_eq!(prompt.heading[2], "Example: Provider migration / switch to 256k");
    assert_eq!(prompt.hint, "Text mode: the whole line becomes one argument");
}

#[test]
fn steps_are_told_in_both_languages() {
    let event = OperationProgressEvent::Distill(DistillProgressEvent::AnalyzingHistory {
        history_items: 3,
        raw_lines: 9,
    });
    assert_eq!(
        format_progress_event(Language::English, &event),
        "Analyzing history signals from 3 items and 9 raw lines."
    );
    assert_eq!(
        format_progress_event(Language::Chinese, &event),
        "正在分析历史信号：3 条历史项，9 条原始行。"
    );
    let start = SmartProgressEvent::StartingDistill {
        mode: DistillMode::Codex,
        compression_level: DistillCompressionLevel::Aggressive,
    };
    assert_eq!(
        format_smart_progress(Language::English, &start),
        "Delegating to the distill pipeline in `codex` mode with `aggressive` compression."
    );
    let confirmed = SmartProgressEvent::StrategyConfirmed {
        strategy: SmartStrategyKind::CrossProviderMigrate,
        provider: "yunyi".to_string(),
        model: "gpt-5.2".to_string(),
        target_context_window: None,
    };
    assert_eq!(
        format_smart_progress(Language::English, &confirmed),
        "Smart strategy confirmed: cross-provider migrate -> provider `yunyi`, model `gpt-5.2`, target window unknown."
    );
    assert_eq!(smart_strategy_label_en(SmartStrategyKind::SameThreadRepair), "same-thread repair");
    assert_eq!(smart_strategy_label_zh(SmartStrategyKind::SameThreadRepair), "同线程修复");
}

#[test]
fn logs_are_numbered() {
    let mut log = OperationLog::new();
    assert_eq!(
        log.processing_lines(Language::English),
        vec!["Waiting for the first progress event..."]
    );
    assert_eq!(log.final_lines(Language::English, vec!["r".to_string()]), vec!["r"]);
    log.push("first".to_string());
    let events = vec![OperationProgressEvent::Distill(DistillProgressEvent::PreviewReady)];
    assert!(drain_progress_events(&events, &mut log, Language::English));
    assert!(!drain_progress_events(&vec![], &mut log, Language::English));
    assert_eq!(
        log.processing_lines(Language::English),
        vec!["1. first", "2. Preview is ready; no successor thread will be created."]
    );
    assert_eq!(
        log.final_lines(Language::Chinese, vec!["r".to_string()]),
        vec![
            "r",
            "",
            "处理日志：",
            "- 1. first",
            "- 2. Preview is ready; no successor thread will be created."
        ]
    );
    let page = smart_or_distill_processing_result(
        Language::English,
        true,
        vec!["a".to_string(), "b".to_string()],
    );
    assert_eq!(page.title, "Smart Switch In Progress");
    assert_eq!(page.scroll, 2);
}

#[test]
fn failures_show_their_causes() {
    let page = error_result_state(
        Language::English,
        "Failed",
        "失败",
        &vec!["top".to_string(), "cause".to_string()],
    );
    assert_eq!(page.title, "Failed");
    assert_eq!(
        page.lines,
        vec!["The operation failed. Error chain:", "1. top", "2. caused by: cause"]
    );
    assert_eq!(
        localize_known_result_title(Language::Chinese, "Smart Switch Completed"),
        "Smart 切换完成"
    );
    assert_eq!(localize_known_result_title(Language::Chinese, "Other"), "Other");
}

#[test]
fn commands_are_reported_when_they_end() {
    assert_eq!(
        execute_prepared_command(Action::Show, &None, Language::English),
        "Completed show"
    );
    assert_eq!(
        execute_prepared_command(Action::Show, &Some("no".to_string()), Language::Chinese),
        "执行失败 show：no"
    );
}

#[test]
fn distillations_end_with_their_successor_selected() {
    let mut app = app_with(vec![sample_thread()]);
    let mut run = OperationRun::distill();
    assert_eq!(
        run_distill_with_progress(&mut run, &mut app, &RunEvent::Started),
        RunAction::Draw
    );
    let events = vec![OperationProgressEvent::Distill(DistillProgressEvent::ResolvingTarget)];
    assert_eq!(
        run_distill_with_progress(&mut run, &mut app, &RunEvent::Progressed { events }),
        RunAction::Draw
    );
    assert_eq!(
        run_distill_with_progress(&mut run, &mut app, &RunEvent::Progressed { events: vec![] }),
        RunAction::Wait
    );
    let finished = RunEvent::Finished {
        title: "".to_string(),
        lines: vec!["done".to_string()],
        thread_id: Some(THREAD_ID.to_string()),
        rollout_path: Some("D:/new.jsonl".to_string()),
    };
    let action = run_distill_with_progress(&mut run, &mut app, &finished);
    let RunAction::Reload { selection } = action else {
        panic!("expected a reload");
    };
    assert_eq!(
        selection.clone().expect("a selection").thread_id.as_deref(),
        Some(THREAD_ID)
    );
    app.reload(Catalog::new(vec![sample_thread()]), &selection, 5000);
    assert_eq!(
        run_distill_with_progress(&mut run, &mut app, &RunEvent::Reloaded),
        RunAction::End
    );
    let Mode::Result(page) = &app.mode else {
        panic!("expected a page");
    };
    assert_eq!(page.title, "Distilled Successor Ready");
    assert_eq!(
        page.lines,
        vec!["done", "", "operation_log:", "- 1. Resolving the source thread target."]
    );
}

#[test]
fn broken_switches_are_told() {
    let mut app = app_with(vec![sample_thread()]);
    let mut run = OperationRun::smart();
    let event = RunEvent::Panicked { message: "boom".to_string() };
    assert_eq!(run_smart_with_progress(&mut run, &mut app, &event), RunAction::End);
    let Mode::Result(page) = &app.mode else {
        panic!("expected a page");
    };
    assert_eq!(page.title, "Smart Switch Failed");
    assert_eq!(page.lines[1], "1. smart task panicked: boom");
    assert!(!take_smart_setup(&mut app, &SmartSetup::Cancelled));
    assert_eq!(app.mode, Mode::Browsing);
    assert_eq!(app.status.as_deref(), Some("Smart switch cancelled"));
    assert!(take_smart_setup(&mut app, &SmartSetup::Picked));
    let failed = SmartSetup::SetupFailed { setup_chain: vec!["no config".to_string()] };
    assert!(!take_smart_setup(&mut app, &failed));
    assert!(matches!(&app.mode, Mode::Result(page) if page.title == "Smart Setup Failed"));
}
