use codex_session_manager::cli::run;
use codex_session_manager::cli::Cli;
use codex_session_manager::cli::Command;
use codex_session_manager::cli::DistillCompressionLevel;
use codex_session_manager::cli::DistillMode;
use codex_session_manager::cli::Launch;
use codex_session_manager::cli::DEFAULT_MAX_PRE_COMPACTIONS;
use codex_session_manager::cli::DEFAULT_OPERATION_TIMEOUT_SECS;
use codex_session_manager::cli::DEFAULT_RECENT_TURNS;
use codex_session_manager::cli::DEFAULT_ROLLBACK_TIMEOUT_SECS;
use codex_session_manager::cli_graph::find_command_args;
use codex_session_manager::cli_graph::list_commands;
use codex_session_manager::cli_graph::ArgKind;
use codex_session_manager::cli_parse::cli_error_message;
use codex_session_manager::cli_parse::parse_level;
use codex_session_manager::cli_parse::parse_mode;
use codex_session_manager::cli_parse::ArgValue;
use codex_session_manager::cli_parse::CliError;
use codex_session_manager::cli_parse::ParsedArg;
use codex_session_manager::cli_parse::ParsedCommand;

fn words(items: &[&str]) -> Vec<String> {
    items.iter().map(|item| item.to_string()).collect()
}

fn parse(items: &[&str]) -> Result<Cli, CliError> {
    Cli::try_parse_from(&words(items))
}

fn text_arg(id: &str, text: &str) -> ParsedArg {
    ParsedArg { id: id.to_string(), value: ArgValue::Text { text: text.to_string() } }
}

fn flag_arg(id: &str, on: bool) -> ParsedArg {
    ParsedArg { id: id.to_string(), value: ArgValue::Flag { on } }
}

#[test]
fn cli_command_graph_debug_asserts() {
    Cli::command().debug_assert();
}

#[test]
fn cli_allows_no_subcommand_for_tui() {
    let cli = parse(&["codex-session-manager"]).expect("parse cli");
    assert!(cli.command.is_none());
}

#[test]
fn cli_parses_repair_window_alias() {
    let cli = parse(&[
        "codex-session-manager",
        "repair-window",
        "thread-123",
        "--context-window",
        "258400",
    ])
    .expect("parse cli");

    let Some(Command::RepairResumeState(args)) = cli.command else {
        panic!("expected repair-resume-state command");
    };

    assert_eq!(args.target.target, "thread-123");
    assert_eq!(args.context_window, Some(258_400));
}

#[test]
fn cli_parses_smart_command() {
    let cli = parse(&["codex-session-manager", "smart", "thread-123", "--archive-source"])
        .expect("parse cli");

    let Some(Command::Smart(args)) = cli.command else {
        panic!("expected smart command");
    };

    assert_eq!(args.target.target, "thread-123");
    assert!(args.archive_source);
}

#[test]
fn cli_parses_distill_command() {
    let cli = parse(&[
        "codex-session-manager",
        "distill",
        "thread-123",
        "--preview-only",
        "--recent-turns",
        "6",
    ])
    .expect("parse cli");

    let Some(Command::Distill(args)) = cli.command else {
        panic!("expected distill command");
    };

    assert_eq!(args.target.target, "thread-123");
    assert!(args.preview_only);
    assert_eq!(args.recent_turns, 6);
}

#[test]
fn distill_defaults_are_the_documented_ones() {
    let cli = parse(&["codex-session-manager", "distill", "thread-123"]).expect("parse cli");
    let Some(Command::Distill(args)) = cli.command else {
        panic!("expected distill command");
    };
    assert_eq!(args.distill_mode, DistillMode::Codex);
    assert_eq!(args.compression_level, DistillCompressionLevel::Balanced);
    assert_eq!(args.recent_turns, DEFAULT_RECENT_TURNS);
    assert_eq!(args.timeout_secs, DEFAULT_OPERATION_TIMEOUT_SECS);
    assert_eq!(args.provider, None);
    assert!(!args.preview_only);
    assert!(!args.archive_source);
    assert!(!args.json);
}

#[test]
fn every_argument_of_migrate_is_read() {
    let cli = parse(&[
        "codex-session-manager",
        "migrate",
        "thread-123",
        "-p",
        "work",
        "--model",
        "gpt-5.2",
        "--provider",
        "yunyi",
        "--context-window",
        "258400",
        "--auto-compact-token-limit",
        "232560",
        "--write-profile",
        "yunyi-256k",
        "--thread-name",
        "moved",
        "--persist-extended-history",
        "--nth-user-message",
        "7",
        "--force-compact",
        "--max-pre-compactions",
        "5",
        "--archive-source",
        "--timeout-secs",
        "42",
    ])
    .expect("parse cli");
    let Some(Command::Migrate(args)) = cli.command else {
        panic!("expected migrate command");
    };
    assert_eq!(args.target.target, "thread-123");
    assert_eq!(args.target.config_profile.as_deref(), Some("work"));
    assert_eq!(args.model.as_deref(), Some("gpt-5.2"));
    assert_eq!(args.provider.as_deref(), Some("yunyi"));
    assert_eq!(args.context_window, Some(258_400));
    assert_eq!(args.auto_compact_token_limit, Some(232_560));
    assert_eq!(args.write_profile.as_deref(), Some("yunyi-256k"));
    assert_eq!(args.thread_name.as_deref(), Some("moved"));
    assert!(args.persist_extended_history);
    assert_eq!(args.nth_user_message, Some(7));
    assert!(args.force_compact);
    assert_eq!(args.max_pre_compactions, 5);
    assert!(args.archive_source);
    assert_eq!(args.timeout_secs, 42);
}

#[test]
fn migrate_defaults_are_the_documented_ones() {
    let cli = parse(&["codex-session-manager", "migrate", "thread-123"]).expect("parse cli");
    let Some(Command::Migrate(args)) = cli.command else {
        panic!("expected migrate command");
    };
    assert_eq!(args.max_pre_compactions, DEFAULT_MAX_PRE_COMPACTIONS);
    assert_eq!(args.timeout_secs, DEFAULT_OPERATION_TIMEOUT_SECS);
    assert!(!args.force_compact);
}

#[test]
fn rollback_takes_a_number_of_turns() {
    let cli = parse(&["codex-session-manager", "rollback", "thread-123", "2"]).expect("parse cli");
    let Some(Command::Rollback(args)) = cli.command else {
        panic!("expected rollback command");
    };
    assert_eq!(args.num_turns, 2);
    assert_eq!(args.timeout_secs, DEFAULT_ROLLBACK_TIMEOUT_SECS);
    assert!(parse(&["codex-session-manager", "rollback", "thread-123", "many"]).is_err());
    assert!(parse(&["codex-session-manager", "rollback", "thread-123", "4294967296"]).is_err());
}

#[test]
fn rewrite_meta_reads_paths_and_refuses_conflicts() {
    let cli = parse(&[
        "codex-session-manager",
        "rewrite-meta",
        "thread-123",
        "--cwd",
        "D:/Work/project",
        "--clear-memory-mode",
    ])
    .expect("parse cli");
    let Some(Command::RewriteMeta(args)) = cli.command else {
        panic!("expected rewrite-meta command");
    };
    assert_eq!(args.cwd.as_deref(), Some("D:/Work/project"));
    assert!(args.clear_memory_mode);

    let refused = parse(&[
        "codex-session-manager",
        "rewrite-meta",
        "thread-123",
        "--memory-mode",
        "enabled",
        "--clear-memory-mode",
    ]);
    let Err(CliError::Rejected { message, to_stderr }) = refused else {
        panic!("expected a refusal");
    };
    assert!(to_stderr);
    assert!(message.contains("--clear-memory-mode"));
}

#[test]
fn aliases_name_the_same_commands() {
    for (alias, name) in [
        ("restore", "unarchive"),
        ("copy-thread-id", "copy-session-id"),
        ("copy-id", "copy-session-id"),
        ("copy-path", "copy-rollout-path"),
        ("copy-resume-command", "copy-deeplink"),
    ] {
        assert_eq!(
            parse(&["codex-session-manager", alias, "thread-123"]),
            parse(&["codex-session-manager", name, "thread-123"]),
        );
    }
}

#[test]
fn help_is_no_error() {
    let Err(CliError::Rejected { message, to_stderr }) =
        parse(&["codex-session-manager", "--help"])
    else {
        panic!("expected a message");
    };
    assert!(!to_stderr);
    assert!(message.contains("Low-level Codex session and rollout manager"));
}

#[test]
fn choices_are_checked_on_the_command_line() {
    let cli = parse(&[
        "codex-session-manager",
        "distill",
        "thread-123",
        "--distill-mode",
        "deterministic",
        "--compression-level",
        "aggressive",
    ])
    .expect("parse cli");
    let Some(Command::Distill(args)) = cli.command else {
        panic!("expected distill command");
    };
    assert_eq!(args.distill_mode, DistillMode::Deterministic);
    assert_eq!(args.compression_level, DistillCompressionLevel::Aggressive);
    assert!(parse(&["codex-session-manager", "distill", "t", "--distill-mode", "other"]).is_err());
}

#[test]
fn first_token_preview_takes_input() {
    let cli = parse(&[
        "codex-session-manager",
        "first-token-preview",
        "thread-123",
        "--input",
        "go on",
        "--json",
    ])
    .expect("parse cli");
    let Some(Command::FirstTokenPreview(args)) = cli.command else {
        panic!("expected first-token-preview command");
    };
    assert_eq!(args.input.as_deref(), Some("go on"));
    assert!(args.json);
}

#[test]
fn every_command_of_the_graph_parses() {
    for command in list_commands() {
        let mut argv = words(&["codex-session-manager", command.name, "thread-123"]);
        for arg in &command.args[1..] {
            if arg.required {
                argv.push(match arg.kind {
                    ArgKind::U32 => "1".to_string(),
                    _ => "value".to_string(),
                });
            }
        }
        let cli = Cli::try_parse_from(&argv).expect("parse cli");
        assert!(cli.command.is_some());
    }
}

#[test]
fn commands_are_built_from_values() {
    let parsed = ParsedCommand {
        name: "show".to_string(),
        args: vec![
            text_arg("target", "thread-123"),
            text_arg("config_profile", "work"),
            flag_arg("json", true),
        ],
    };
    let cli = Cli::from_parsed(&Some(parsed)).expect("show");
    let Some(Command::Show(args)) = cli.command else {
        panic!("expected show command");
    };
    assert_eq!(args.target.target, "thread-123");
    assert_eq!(args.target.config_profile.as_deref(), Some("work"));
    assert!(args.json);
}

#[test]
fn missing_values_are_named() {
    let parsed = ParsedCommand {
        name: "show".to_string(),
        args: vec![text_arg("target", "thread-123")],
    };
    let error = Cli::from_parsed(&Some(parsed)).unwrap_err();
    assert_eq!(error, CliError::MissingArgument { id: "json".to_string() });
    assert_eq!(
        cli_error_message(&error),
        "the following required argument was not provided: json"
    );
}

#[test]
fn unknown_commands_are_named() {
    let parsed = ParsedCommand { name: "dance".to_string(), args: vec![] };
    let error = Cli::from_parsed(&Some(parsed)).unwrap_err();
    assert_eq!(error, CliError::UnknownCommand { name: "dance".to_string() });
    assert_eq!(cli_error_message(&error), "the subcommand 'dance' wasn't recognized");
}

#[test]
fn unknown_choices_are_named() {
    let mut args = vec![
        text_arg("target", "thread-123"),
        text_arg("distill_mode", "magic"),
        text_arg("compression_level", "balanced"),
        flag_arg("archive_source", false),
        flag_arg("preview_only", false),
        flag_arg("json", false),
        ParsedArg { id: "recent_turns".to_string(), value: ArgValue::Usize { size: 8 } },
        ParsedArg { id: "timeout_secs".to_string(), value: ArgValue::U64 { large: 300 } },
    ];
    let error = Cli::from_parsed(&Some(ParsedCommand {
        name: "distill".to_string(),
        args: args.clone(),
    }))
    .unwrap_err();
    assert_eq!(
        error,
        CliError::UnknownChoice {
            choice_id: "distill_mode".to_string(),
            value: "magic".to_string(),
        }
    );
    assert_eq!(cli_error_message(&error), "invalid value 'magic' for 'distill_mode'");
    args[1] = text_arg("distill_mode", "codex");
    assert!(Cli::from_parsed(&Some(ParsedCommand { name: "distill".to_string(), args })).is_ok());
}

#[test]
fn names_of_choices_read_back() {
    assert_eq!(parse_mode("codex"), Some(DistillMode::Codex));
    assert_eq!(parse_mode("deterministic"), Some(DistillMode::Deterministic));
    assert_eq!(parse_mode("Codex"), None);
    assert_eq!(parse_level("lossless"), Some(DistillCompressionLevel::Lossless));
    assert_eq!(parse_level("balanced"), Some(DistillCompressionLevel::Balanced));
    assert_eq!(parse_level("aggressive"), Some(DistillCompressionLevel::Aggressive));
    assert_eq!(parse_level(""), None);
}

#[test]
fn arguments_are_found_by_command() {
    let args = find_command_args("rollback").expect("rollback");
    let ids: Vec<&str> = args.iter().map(|arg| arg.id).collect();
    assert_eq!(ids, vec!["target", "config_profile", "num_turns", "timeout_secs"]);
    assert!(find_command_args("restore").is_none());
}

#[test]
fn a_command_line_without_command_starts_the_interface() {
    assert_eq!(run(Cli { command: None }), Launch::RunTui);
    let cli = parse(&["codex-session-manager", "archive", "thread-123"]).expect("parse cli");
    let command = cli.command.clone().expect("command");
    assert_eq!(run(cli), Launch::RunCommand(command));
}
