//! The commands: what they refuse and what they print.

use vstd::prelude::*;

use crate::cli::ForkArgs;
use crate::cli::RewriteMetaArgs;
use crate::numbers;
use crate::numbers::bool_str;
use crate::numbers::i64_text;
use crate::numbers::opt_i64_text;
use crate::numbers::usize_text;
use crate::rollout_edit::MetaPatch;
use crate::rollout_edit::ResumeStateRewriteStats;
use crate::text;
use crate::text::cat2;
use crate::text::cat4;
use crate::text::clone_opt;
use crate::text::no_texts;
use crate::text::opt_or;
use crate::text::push_text;
use crate::types::ForkOutcome;
use crate::types::ForkOutcomeView;
use crate::types::ForkRequest;
use crate::types::ForkRequestView;
use crate::types::SessionSummary;
use crate::types::SessionSummaryView;

verus! {

/// Why a command is refused.
#[derive(Debug, PartialEq, Eq)]
pub enum CommandError {
    NoMetadataChanges,
    AlreadyArchived { path: String },
    NotArchived { path: String },
    CompactNeedsActive { sessions_dir: String },
    NoTurns,
    RollbackNeedsActive { sessions_dir: String },
    NoResumeCommand,
    EmptyThreadName,
}

/// What a [`CommandError`] stands for.
pub enum CommandErrorView {
    NoMetadataChanges,
    AlreadyArchived { path: Seq<char> },
    NotArchived { path: Seq<char> },
    CompactNeedsActive { sessions_dir: Seq<char> },
    NoTurns,
    RollbackNeedsActive { sessions_dir: Seq<char> },
    NoResumeCommand,
    EmptyThreadName,
}

impl View for CommandError {
    type V = CommandErrorView;

    open spec fn view(&self) -> CommandErrorView {
        match *self {
            CommandError::NoMetadataChanges => CommandErrorView::NoMetadataChanges,
            CommandError::AlreadyArchived { path } => CommandErrorView::AlreadyArchived {
                path: path@,
            },
            CommandError::NotArchived { path } => CommandErrorView::NotArchived { path: path@ },
            CommandError::CompactNeedsActive { sessions_dir } => {
                CommandErrorView::CompactNeedsActive { sessions_dir: sessions_dir@ }
            },
            CommandError::NoTurns => CommandErrorView::NoTurns,
            CommandError::RollbackNeedsActive { sessions_dir } => {
                CommandErrorView::RollbackNeedsActive { sessions_dir: sessions_dir@ }
            },
            CommandError::NoResumeCommand => CommandErrorView::NoResumeCommand,
            CommandError::EmptyThreadName => CommandErrorView::EmptyThreadName,
        }
    }
}

impl DeepView for CommandError {
    type V = CommandErrorView;

    open spec fn deep_view(&self) -> CommandErrorView {
        self@
    }
}

impl Clone for CommandError {
    fn clone(&self) -> (out: Self)
        ensures
            out@ == self@,
    {
        match self {
            CommandError::NoMetadataChanges => CommandError::NoMetadataChanges,
            CommandError::AlreadyArchived { path } => CommandError::AlreadyArchived {
                path: path.clone(),
            },
            CommandError::NotArchived { path } => CommandError::NotArchived { path: path.clone() },
            CommandError::CompactNeedsActive { sessions_dir } => CommandError::CompactNeedsActive {
                sessions_dir: sessions_dir.clone(),
            },
            CommandError::NoTurns => CommandError::NoTurns,
            CommandError::RollbackNeedsActive { sessions_dir } => {
                CommandError::RollbackNeedsActive { sessions_dir: sessions_dir.clone() }
            },
            CommandError::NoResumeCommand => CommandError::NoResumeCommand,
            CommandError::EmptyThreadName => CommandError::EmptyThreadName,
        }
    }
}

/// The message for a refusal.
pub open spec fn command_error_text(error: CommandErrorView) -> Seq<char> {
    match error {
        CommandErrorView::NoMetadataChanges => "no metadata changes requested"@,
        CommandErrorView::AlreadyArchived { path } => "rollout is already archived: "@ + path,
        CommandErrorView::NotArchived { path } => "rollout is not archived: "@ + path,
        CommandErrorView::CompactNeedsActive { sessions_dir } => "manual compact only supports active rollouts under "@ + sessions_dir,
        CommandErrorView::NoTurns => "num_turns must be >= 1"@,
        CommandErrorView::RollbackNeedsActive { sessions_dir } => "rollback only supports active rollouts under "@ + sessions_dir,
        CommandErrorView::NoResumeCommand => "unable to build resume command"@,
        CommandErrorView::EmptyThreadName => "thread name must not be empty"@,
    }
}

/// The message for a refusal.
pub fn command_error_message(error: &CommandError) -> (out: String)
    ensures
        out@ == command_error_text(error@),
{
    match error {
        CommandError::NoMetadataChanges => "no metadata changes requested".to_owned(),
        CommandError::AlreadyArchived { path } => cat2("rollout is already archived: ", path.as_str()),
        CommandError::NotArchived { path } => cat2("rollout is not archived: ", path.as_str()),
        CommandError::CompactNeedsActive { sessions_dir } => cat2("manual compact only supports active rollouts under ", sessions_dir.as_str()),
        CommandError::NoTurns => "num_turns must be >= 1".to_owned(),
        CommandError::RollbackNeedsActive { sessions_dir } => cat2("rollback only supports active rollouts under ", sessions_dir.as_str()),
        CommandError::NoResumeCommand => "unable to build resume command".to_owned(),
        CommandError::EmptyThreadName => "thread name must not be empty".to_owned(),
    }
}

/// The lines that describe a session.
pub open spec fn show_lines(summary: SessionSummaryView) -> Seq<Seq<char>> {
    let lines = Seq::<Seq<char>>::empty();
    let lines = lines.push("thread_id: "@ + summary.thread_id);
    let lines = lines.push("thread_name: "@ + text::text_or(summary.thread_name, ""@));
    let lines = lines.push("rollout_path: "@ + summary.rollout_path);
    let lines = lines.push("archived: "@ + numbers::bool_text(summary.archived));
    let lines = lines.push("source: "@ + summary.source);
    let lines = lines.push("session_provider: "@ + text::text_or(summary.session_provider, ""@));
    let lines = lines.push("session_cwd: "@ + summary.session_cwd);
    let lines = lines.push("session_timestamp: "@ + summary.session_timestamp);
    let lines = lines.push("latest_model: "@ + text::text_or(summary.latest_model, ""@));
    let lines = lines.push("latest_total_tokens: "@
            + numbers::opt_decimal(numbers::opt_int_i64(summary.latest_total_tokens), ""@));
    let lines = lines.push("latest_context_tokens: "@
            + numbers::opt_decimal(numbers::opt_int_i64(summary.latest_context_tokens), ""@));
    let lines = lines.push("latest_model_context_window: "@
            + numbers::opt_decimal(numbers::opt_int_i64(summary.latest_model_context_window), ""@));
    let lines = lines.push("user_turns: "@ + numbers::decimal(summary.user_turns as int));
    let lines = lines.push("first_user_message: "@ + text::text_or(summary.first_user_message, ""@));
    let lines = lines.push("forked_from_id: "@ + text::text_or(summary.forked_from_id, ""@));
    let lines = lines.push("memory_mode: "@ + text::text_or(summary.memory_mode, ""@));
    lines
}

/// The lines that describe a session.
pub fn show_session(summary: &SessionSummary) -> (out: Vec<String>)
    ensures
        text::reads(out@, show_lines(summary@)),
{
    let mut lines = no_texts();
    push_text(&mut lines, cat2("thread_id: ", summary.thread_id.as_str()));
    push_text(&mut lines, cat2("thread_name: ", opt_or(&summary.thread_name, "").as_str()));
    push_text(&mut lines, cat2("rollout_path: ", summary.rollout_path.as_str()));
    push_text(&mut lines, cat2("archived: ", bool_str(summary.archived)));
    push_text(&mut lines, cat2("source: ", summary.source.as_str()));
    push_text(
        &mut lines,
        cat2("session_provider: ", opt_or(&summary.session_provider, "").as_str()),
    );
    push_text(&mut lines, cat2("session_cwd: ", summary.session_cwd.as_str()));
    push_text(&mut lines, cat2("session_timestamp: ", summary.session_timestamp.as_str()));
    push_text(&mut lines, cat2("latest_model: ", opt_or(&summary.latest_model, "").as_str()));
    push_text(
        &mut lines,
        cat2("latest_total_tokens: ", opt_i64_text(summary.latest_total_tokens, "").as_str()),
    );
    push_text(
        &mut lines,
        cat2(
            "latest_context_tokens: ",
            opt_i64_text(summary.latest_context_tokens, "").as_str(),
        ),
    );
    push_text(
        &mut lines,
        cat2(
            "latest_model_context_window: ",
            opt_i64_text(summary.latest_model_context_window, "").as_str(),
        ),
    );
    push_text(&mut lines, cat2("user_turns: ", usize_text(summary.user_turns).as_str()));
    push_text(
        &mut lines,
        cat2("first_user_message: ", opt_or(&summary.first_user_message, "").as_str()),
    );
    push_text(
        &mut lines,
        cat2("forked_from_id: ", opt_or(&summary.forked_from_id, "").as_str()),
    );
    push_text(&mut lines, cat2("memory_mode: ", opt_or(&summary.memory_mode, "").as_str()));
    lines
}

/// The name for a session, given what normalising the requested one came to.
pub fn rename_session(normalized: &Option<String>) -> (out: Result<String, CommandError>)
    ensures
        match *normalized {
            Some(name) => out matches Ok(chosen) && chosen@ == name@,
            None => out matches Err(error) && error@ == CommandErrorView::EmptyThreadName,
        },
{
    match normalized {
        Some(name) => Ok(name.clone()),
        None => Err(CommandError::EmptyThreadName),
    }
}

/// The line for a renamed session.
pub open spec fn renamed_text(thread_id: Seq<char>, name: Seq<char>) -> Seq<char> {
    "renamed thread "@ + thread_id + " to "@ + name
}

/// The line for a renamed session.
pub fn renamed_line(thread_id: &str, name: &str) -> (out: String)
    ensures
        out@ == renamed_text(thread_id@, name@),
{
    cat4("renamed thread ", thread_id, " to ", name)
}

/// The line for a reconciled session.
pub open spec fn repaired_text(thread_id: Seq<char>, path: Seq<char>) -> Seq<char> {
    "reconciled thread "@ + thread_id + " from "@ + path
}

/// The line for a reconciled session.
pub fn repair_session(thread_id: &str, path: &str) -> (out: String)
    ensures
        out@ == repaired_text(thread_id@, path@),
{
    cat4("reconciled thread ", thread_id, " from ", path)
}

/// The line for a session whose metadata was rewritten.
pub open spec fn rewritten_text(thread_id: Seq<char>, path: Seq<char>) -> Seq<char> {
    "updated session metadata for thread "@ + thread_id + " at "@ + path
}

/// The line for a session whose metadata was rewritten.
pub fn rewritten_line(thread_id: &str, path: &str) -> (out: String)
    ensures
        out@ == rewritten_text(thread_id@, path@),
{
    cat4("updated session metadata for thread ", thread_id, " at ", path)
}

/// The patch that a command asks for. One that changes nothing is refused.
pub fn rewrite_session_meta(args: &RewriteMetaArgs) -> (out: Result<MetaPatch, CommandError>)
    ensures
        if args@.provider is None && args@.cwd is None && args@.memory_mode is None
            && !args@.clear_memory_mode {
            out matches Err(error) && error@ == CommandErrorView::NoMetadataChanges
        } else {
            out matches Ok(patch) && text::opt_text(patch.provider) == args@.provider
                && text::opt_text(patch.cwd) == args@.cwd && text::opt_text(patch.memory_mode)
                == args@.memory_mode && patch.clear_memory_mode == args@.clear_memory_mode
        },
{
    if args.provider.is_none() && args.cwd.is_none() && args.memory_mode.is_none()
        && !args.clear_memory_mode {
        return Err(CommandError::NoMetadataChanges);
    }
    Ok(
        MetaPatch {
            provider: clone_opt(&args.provider),
            cwd: clone_opt(&args.cwd),
            memory_mode: clone_opt(&args.memory_mode),
            clear_memory_mode: args.clear_memory_mode,
        },
    )
}

/// The lines for a session whose window hints were repaired.
pub open spec fn resume_state_lines(
    thread_id: Seq<char>,
    path: Seq<char>,
    context_window: i64,
    stats: ResumeStateRewriteStats,
) -> Seq<Seq<char>> {
    let lines = Seq::<Seq<char>>::empty();
    let lines = lines.push("thread_id: "@ + thread_id);
    let lines = lines.push("rollout_path: "@ + path);
    let lines = lines.push("context_window: "@ + numbers::decimal(context_window as int));
    let lines = lines.push("token_count_events_updated: "@
            + numbers::decimal(stats.token_count_events_updated as int));
    let lines = lines.push("turn_started_events_updated: "@
            + numbers::decimal(stats.turn_started_events_updated as int));
    lines
}

/// The lines for a session whose window hints were repaired.
pub fn repair_resume_state(
    thread_id: &str,
    path: &str,
    context_window: i64,
    stats: ResumeStateRewriteStats,
) -> (out: Vec<String>)
    ensures
        text::reads(out@, resume_state_lines(thread_id@, path@, context_window, stats)),
{
    let mut lines = no_texts();
    push_text(&mut lines, cat2("thread_id: ", thread_id));
    push_text(&mut lines, cat2("rollout_path: ", path));
    push_text(&mut lines, cat2("context_window: ", i64_text(context_window).as_str()));
    push_text(
        &mut lines,
        cat2(
            "token_count_events_updated: ",
            usize_text(stats.token_count_events_updated).as_str(),
        ),
    );
    push_text(
        &mut lines,
        cat2(
            "turn_started_events_updated: ",
            usize_text(stats.turn_started_events_updated).as_str(),
        ),
    );
    lines
}

/// The fork that a command asks for.
pub fn fork_session(args: &ForkArgs, rollout_path: &str) -> (out: ForkRequest)
    ensures
        out@ == (ForkRequestView {
            source_profile: args@.target.config_profile,
            source_rollout_path: rollout_path@,
            model: args@.model,
            provider: args@.provider,
            context_window: args@.context_window,
            auto_compact_token_limit: args@.auto_compact_token_limit,
            write_profile: args@.write_profile,
            thread_name: args@.thread_name,
            persist_extended_history: args@.persist_extended_history,
            nth_user_message: args@.nth_user_message,
        }),
{
    ForkRequest {
        source_profile: clone_opt(&args.target.config_profile),
        source_rollout_path: rollout_path.to_owned(),
        model: clone_opt(&args.model),
        provider: clone_opt(&args.provider),
        context_window: args.context_window,
        auto_compact_token_limit: args.auto_compact_token_limit,
        write_profile: clone_opt(&args.write_profile),
        thread_name: clone_opt(&args.thread_name),
        persist_extended_history: args.persist_extended_history,
        nth_user_message: args.nth_user_message,
    }
}

/// The lines for a forked session.
pub open spec fn forked_text(
    outcome: ForkOutcomeView,
    resume_command: Seq<char>,
) -> Seq<Seq<char>> {
    let lines = Seq::<Seq<char>>::empty();
    let lines = lines.push("new_thread_id: "@ + outcome.thread_id);
    let lines = lines.push("new_rollout_path: "@ + outcome.rollout_path);
    let lines = lines.push("resume_command: "@ + resume_command);
    lines
}

/// The lines for a forked session.
pub fn forked_lines(outcome: &ForkOutcome, resume_command: &str) -> (out: Vec<String>)
    ensures
        text::reads(out@, forked_text(outcome@, resume_command@)),
{
    let mut lines = no_texts();
    push_text(&mut lines, cat2("new_thread_id: ", outcome.thread_id.as_str()));
    push_text(&mut lines, cat2("new_rollout_path: ", outcome.rollout_path.as_str()));
    push_text(&mut lines, cat2("resume_command: ", resume_command));
    lines
}

/// Whether a session may be archived: one that is archived already may not.
pub fn archive_session(archived: bool, path: &str) -> (out: Result<(), CommandError>)
    ensures
        if archived {
            out matches Err(error) && error@ == (CommandErrorView::AlreadyArchived { path: path@ })
        } else {
            out is Ok
        },
{
    if archived {
        return Err(CommandError::AlreadyArchived { path: path.to_owned() });
    }
    Ok(())
}

/// Whether a session may be restored: only one that is archived may.
pub fn unarchive_session(archived: bool, path: &str) -> (out: Result<(), CommandError>)
    ensures
        if archived {
            out is Ok
        } else {
            out matches Err(error) && error@ == (CommandErrorView::NotArchived { path: path@ })
        },
{
    if !archived {
        return Err(CommandError::NotArchived { path: path.to_owned() });
    }
    Ok(())
}

/// The lines for an archived session.
pub open spec fn archived_text(thread_id: Seq<char>, path: Seq<char>) -> Seq<Seq<char>> {
    let lines = Seq::<Seq<char>>::empty();
    let lines = lines.push("archived_thread_id: "@ + thread_id);
    let lines = lines.push("archived_rollout_path: "@ + path);
    lines
}

/// The lines for an archived session.
pub fn archived_lines(thread_id: &str, path: &str) -> (out: Vec<String>)
    ensures
        text::reads(out@, archived_text(thread_id@, path@)),
{
    let mut lines = no_texts();
    push_text(&mut lines, cat2("archived_thread_id: ", thread_id));
    push_text(&mut lines, cat2("archived_rollout_path: ", path));
    lines
}

/// The lines for a restored session.
pub open spec fn unarchived_text(thread_id: Seq<char>, path: Seq<char>) -> Seq<Seq<char>> {
    let lines = Seq::<Seq<char>>::empty();
    let lines = lines.push("unarchived_thread_id: "@ + thread_id);
    let lines = lines.push("restored_rollout_path: "@ + path);
    lines
}

/// The lines for a restored session.
pub fn unarchived_lines(thread_id: &str, path: &str) -> (out: Vec<String>)
    ensures
        text::reads(out@, unarchived_text(thread_id@, path@)),
{
    let mut lines = no_texts();
    push_text(&mut lines, cat2("unarchived_thread_id: ", thread_id));
    push_text(&mut lines, cat2("restored_rollout_path: ", path));
    lines
}

/// The command that is copied to resume a session.
pub fn copy_resume_command_for_target(resume: &Option<String>) -> (out: Result<
    String,
    CommandError,
>)
    ensures
        match *resume {
            Some(command) => out matches Ok(copied) && copied@ == command@,
            None => out matches Err(error) && error@ == CommandErrorView::NoResumeCommand,
        },
{
    match resume {
        Some(command) => Ok(command.clone()),
        None => Err(CommandError::NoResumeCommand),
    }
}

/// Whether a session may be compacted: an archived one may not.
pub fn compact_session(archived: bool, sessions_dir: &str) -> (out: Result<(), CommandError>)
    ensures
        if archived {
            out matches Err(error) && error@ == (CommandErrorView::CompactNeedsActive {
                sessions_dir: sessions_dir@,
            })
        } else {
            out is Ok
        },
{
    if archived {
        return Err(CommandError::CompactNeedsActive { sessions_dir: sessions_dir.to_owned() });
    }
    Ok(())
}

/// The lines for a compacted session.
pub open spec fn compacted_text(
    compacted_thread_id: Seq<char>,
    repaired_thread_id: Seq<char>,
    updated: SessionSummaryView,
) -> Seq<Seq<char>> {
    let lines = Seq::<Seq<char>>::empty();
    let lines = lines.push("compacted_thread_id: "@ + compacted_thread_id);
    let lines = lines.push("repaired_thread_id: "@ + repaired_thread_id);
    let lines = lines.push("latest_context_tokens: "@
            + numbers::opt_decimal(numbers::opt_int_i64(updated.latest_context_tokens), ""@));
    let lines = lines.push("latest_model_context_window: "@
            + numbers::opt_decimal(numbers::opt_int_i64(updated.latest_model_context_window), ""@));
    lines
}

/// The lines for a compacted session.
pub fn compacted_lines(
    compacted_thread_id: &str,
    repaired_thread_id: &str,
    updated: &SessionSummary,
) -> (out: Vec<String>)
    ensures
        text::reads(out@, compacted_text(compacted_thread_id@, repaired_thread_id@, updated@)),
{
    let mut lines = no_texts();
    push_text(&mut lines, cat2("compacted_thread_id: ", compacted_thread_id));
    push_text(&mut lines, cat2("repaired_thread_id: ", repaired_thread_id));
    push_text(
        &mut lines,
        cat2(
            "latest_context_tokens: ",
            opt_i64_text(updated.latest_context_tokens, "").as_str(),
        ),
    );
    push_text(
        &mut lines,
        cat2(
            "latest_model_context_window: ",
            opt_i64_text(updated.latest_model_context_window, "").as_str(),
        ),
    );
    lines
}

/// Whether turns may be rolled back: there has to be one at least, and the
/// session must not be archived.
pub fn rollback_session(num_turns: u32, archived: bool, sessions_dir: &str) -> (out: Result<
    (),
    CommandError,
>)
    ensures
        if num_turns == 0 {
            out matches Err(error) && error@ == CommandErrorView::NoTurns
        } else if archived {
            out matches Err(error) && error@ == (CommandErrorView::RollbackNeedsActive {
                sessions_dir: sessions_dir@,
            })
        } else {
            out is Ok
        },
{
    if num_turns == 0 {
        return Err(CommandError::NoTurns);
    }
    if archived {
        return Err(CommandError::RollbackNeedsActive { sessions_dir: sessions_dir.to_owned() });
    }
    Ok(())
}

/// The lines for a session whose turns were rolled back.
pub open spec fn rolled_back_text(
    rolled_back_thread_id: Seq<char>,
    repaired_thread_id: Seq<char>,
    updated: SessionSummaryView,
) -> Seq<Seq<char>> {
    let lines = Seq::<Seq<char>>::empty();
    let lines = lines.push("rolled_back_thread_id: "@ + rolled_back_thread_id);
    let lines = lines.push("repaired_thread_id: "@ + repaired_thread_id);
    let lines = lines.push("remaining_user_turns: "@ + numbers::decimal(updated.user_turns as int));
    lines
}

/// The lines for a session whose turns were rolled back.
pub fn rolled_back_lines(
    rolled_back_thread_id: &str,
    repaired_thread_id: &str,
    updated: &SessionSummary,
) -> (out: Vec<String>)
    ensures
        text::reads(out@, rolled_back_text(rolled_back_thread_id@, repaired_thread_id@, updated@)),
{
    let mut lines = no_texts();
    push_text(&mut lines, cat2("rolled_back_thread_id: ", rolled_back_thread_id));
    push_text(&mut lines, cat2("repaired_thread_id: ", repaired_thread_id));
    push_text(
        &mut lines,
        cat2("remaining_user_turns: ", usize_text(updated.user_turns).as_str()),
    );
    lines
}

/// A session is shown by a line for each thing that is known of it, under its
/// name; what is not known is shown as an empty text.
pub proof fn every_detail_of_a_session_is_shown(summary: SessionSummaryView)
    ensures
        ({
            let lines = show_lines(summary);
            let known = |value: Option<Seq<char>>|
                match value {
                    Some(value) => value,
                    None => ""@,
                };
            let number = |value: Option<i64>|
                match value {
                    Some(value) => numbers::decimal(value as int),
                    None => ""@,
                };
            &&& lines.len() == 16
            &&& lines[0] == "thread_id: "@ + summary.thread_id
            &&& lines[1] == "thread_name: "@ + known(summary.thread_name)
            &&& lines[2] == "rollout_path: "@ + summary.rollout_path
            &&& lines[3] == "archived: "@ + (if summary.archived {
                "true"@
            } else {
                "false"@
            })
            &&& lines[4] == "source: "@ + summary.source
            &&& lines[5] == "session_provider: "@ + known(summary.session_provider)
            &&& lines[6] == "session_cwd: "@ + summary.session_cwd
            &&& lines[7] == "session_timestamp: "@ + summary.session_timestamp
            &&& lines[8] == "latest_model: "@ + known(summary.latest_model)
            &&& lines[9] == "latest_total_tokens: "@ + number(summary.latest_total_tokens)
            &&& lines[10] == "latest_context_tokens: "@ + number(summary.latest_context_tokens)
            &&& lines[11] == "latest_model_context_window: "@ + number(
                summary.latest_model_context_window,
            )
            &&& lines[12] == "user_turns: "@ + numbers::decimal(summary.user_turns as int)
            &&& lines[13] == "first_user_message: "@ + known(summary.first_user_message)
            &&& lines[14] == "forked_from_id: "@ + known(summary.forked_from_id)
            &&& lines[15] == "memory_mode: "@ + known(summary.memory_mode)
        }),
{
}

/// What a command did to a session is told with the session and where its rollout
/// lies.
pub proof fn commands_tell_what_they_did(
    thread_id: Seq<char>,
    path: Seq<char>,
    outcome: ForkOutcomeView,
    resume: Seq<char>,
)
    ensures
        archived_text(thread_id, path) == seq![
            "archived_thread_id: "@ + thread_id,
            "archived_rollout_path: "@ + path,
        ],
        unarchived_text(thread_id, path) == seq![
            "unarchived_thread_id: "@ + thread_id,
            "restored_rollout_path: "@ + path,
        ],
        forked_text(outcome, resume) == seq![
            "new_thread_id: "@ + outcome.thread_id,
            "new_rollout_path: "@ + outcome.rollout_path,
            "resume_command: "@ + resume,
        ],
{
}

/// A repair tells the window and how many records of each kind it changed, a
/// compaction the size that is left, and a rollback the turns that are left.
pub proof fn commands_tell_what_is_left(
    thread_id: Seq<char>,
    path: Seq<char>,
    window: i64,
    stats: ResumeStateRewriteStats,
    repaired: Seq<char>,
    updated: SessionSummaryView,
)
    ensures
        resume_state_lines(thread_id, path, window, stats) == seq![
            "thread_id: "@ + thread_id,
            "rollout_path: "@ + path,
            "context_window: "@ + numbers::decimal(window as int),
            "token_count_events_updated: "@ + numbers::decimal(
                stats.token_count_events_updated as int,
            ),
            "turn_started_events_updated: "@ + numbers::decimal(
                stats.turn_started_events_updated as int,
            ),
        ],
        rolled_back_text(thread_id, repaired, updated) == seq![
            "rolled_back_thread_id: "@ + thread_id,
            "repaired_thread_id: "@ + repaired,
            "remaining_user_turns: "@ + numbers::decimal(updated.user_turns as int),
        ],
        ({
            let lines = compacted_text(thread_id, repaired, updated);
            let number = |value: Option<i64>|
                match value {
                    Some(value) => numbers::decimal(value as int),
                    None => ""@,
                };
            lines == seq![
                "compacted_thread_id: "@ + thread_id,
                "repaired_thread_id: "@ + repaired,
                "latest_context_tokens: "@ + number(updated.latest_context_tokens),
                "latest_model_context_window: "@ + number(updated.latest_model_context_window),
            ]
        }),
{
}

/// What was done to a session is told with its id and what it was done with.
pub proof fn commands_name_the_session(thread_id: Seq<char>, other: Seq<char>)
    ensures
        renamed_text(thread_id, other) == "renamed thread "@ + thread_id + " to "@ + other,
        repaired_text(thread_id, other) == "reconciled thread "@ + thread_id + " from "@ + other,
        rewritten_text(thread_id, other) == "updated session metadata for thread "@ + thread_id
            + " at "@ + other,
{
}

proof fn message_ends_with(front: Seq<char>, subject: Seq<char>)
    ensures
        subject.is_suffix_of(front + subject),
{
    let whole = front + subject;
    assert(whole.subrange(front.len() as int, whole.len() as int) =~= subject);
}

/// A refusal names what it is about: the rollout, or the directory for sessions.
pub proof fn refusals_name_their_subject(subject: Seq<char>)
    ensures
        subject.is_suffix_of(
            command_error_text(CommandErrorView::AlreadyArchived { path: subject }),
        ),
        subject.is_suffix_of(command_error_text(CommandErrorView::NotArchived { path: subject })),
        subject.is_suffix_of(
            command_error_text(CommandErrorView::CompactNeedsActive { sessions_dir: subject }),
        ),
        subject.is_suffix_of(
            command_error_text(CommandErrorView::RollbackNeedsActive { sessions_dir: subject }),
        ),
        "rollout is already archived: "@.is_prefix_of(
            command_error_text(CommandErrorView::AlreadyArchived { path: subject }),
        ),
        "rollout is not archived: "@.is_prefix_of(
            command_error_text(CommandErrorView::NotArchived { path: subject }),
        ),
{
    message_ends_with("rollout is already archived: "@, subject);
    message_ends_with("rollout is not archived: "@, subject);
    message_ends_with("manual compact only supports active rollouts under "@, subject);
    message_ends_with("rollback only supports active rollouts under "@, subject);
    let first = "rollout is already archived: "@;
    assert((first + subject).take(first.len() as int) =~= first);
    let second = "rollout is not archived: "@;
    assert((second + subject).take(second.len() as int) =~= second);
}

} // verus!
