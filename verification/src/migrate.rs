//! Migrating a session: compact it until it fits its target, then fork it.

use vstd::prelude::*;

use crate::cli::MigrateArgs;
use crate::numbers;
use crate::numbers::i64_text;
use crate::numbers::u32_text;
use crate::text;
use crate::text::cat2;
use crate::text::cat5;
use crate::text::cat7;
use crate::text::clone_opt;
use crate::text::no_texts;
use crate::text::push_text;
use crate::types::ForkOutcome;
use crate::types::ForkOutcomeView;
use crate::types::ForkRequest;
use crate::types::ForkRequestView;

verus! {

/// How far a migration has come.
#[derive(Debug, Clone, Copy, PartialEq, Eq, Structural)]
pub struct MigrateState {
    pub compactions_run: u32,
    /// The target window has been looked at.
    pub preflight_started: bool,
}

/// Why a migration ends without a fork.
#[derive(Debug, Clone, Copy, PartialEq, Eq, Structural)]
pub enum MigrateError {
    NoCompactionsAllowed,
    ArchivedForceCompact,
    ArchivedTooLarge { context_tokens: i64, target_window: i64 },
    StillTooLarge { compactions: u32, context_tokens: i64, target_window: i64 },
}

/// The message for an error.
pub open spec fn migrate_error_text(error: MigrateError) -> Seq<char> {
    match error {
        MigrateError::NoCompactionsAllowed => "max_pre_compactions must be >= 1"@,
        MigrateError::ArchivedForceCompact => "source rollout is archived; unarchive it before forcing compaction"@,
        MigrateError::ArchivedTooLarge { context_tokens, target_window } => "source rollout is archived and current context "@
            + numbers::decimal(context_tokens as int)
            + " exceeds target window "@
            + numbers::decimal(target_window as int)
            + "; unarchive first so Codex can compact it"@,
        MigrateError::StillTooLarge { compactions, context_tokens, target_window } => "source rollout still exceeds target window after "@
            + numbers::decimal(compactions as int)
            + " compactions (current_context_tokens="@
            + numbers::decimal(context_tokens as int)
            + ", target_window="@
            + numbers::decimal(target_window as int)
            + ")"@,
    }
}

/// The message for an error.
pub fn migrate_error_message(error: MigrateError) -> (out: String)
    ensures
        out@ == migrate_error_text(error),
{
    match error {
        MigrateError::NoCompactionsAllowed => "max_pre_compactions must be >= 1".to_owned(),
        MigrateError::ArchivedForceCompact => "source rollout is archived; unarchive it before forcing compaction".to_owned(),
        MigrateError::ArchivedTooLarge { context_tokens, target_window } => cat5(
            "source rollout is archived and current context ",
            i64_text(context_tokens).as_str(),
            " exceeds target window ",
            i64_text(target_window).as_str(),
            "; unarchive first so Codex can compact it",
        ),
        MigrateError::StillTooLarge { compactions, context_tokens, target_window } => cat7(
            "source rollout still exceeds target window after ",
            u32_text(compactions).as_str(),
            " compactions (current_context_tokens=",
            i64_text(context_tokens).as_str(),
            ", target_window=",
            i64_text(target_window).as_str(),
            ")",
        ),
    }
}

/// The warning for a session that has not reported its tokens.
pub open spec fn unknown_context_text() -> Seq<char> {
    "warning: rollout has no persisted context token estimate; migration cannot preflight the target window"@
}

/// The warning for a session that has not reported its tokens.
pub fn unknown_context_warning() -> (out: &'static str)
    ensures
        out@ == unknown_context_text(),
{
    "warning: rollout has no persisted context token estimate; migration cannot preflight the target window"
}

/// What to do next in a migration.
#[derive(Debug, Clone, Copy, PartialEq, Eq, Structural)]
pub enum MigrateAction {
    /// Compact the source, reconcile it, and read its summary again.
    Compact,
    /// Fork the source. The warning says that its size is not known.
    Fork { warn_unknown_context: bool },
    /// Give up.
    Fail { error: MigrateError },
}

pub open spec fn migrate_start() -> MigrateState {
    MigrateState { compactions_run: 0, preflight_started: false }
}

/// The limits of a migration, as far as its steps read them.
#[derive(Debug, Clone, Copy, PartialEq, Eq, Structural)]
pub struct MigrateLimits {
    pub force_compact: bool,
    pub max_pre_compactions: u32,
    pub context_window: Option<i64>,
    pub archived_source: bool,
}

/// The tokens of the session exceed the target window.
pub open spec fn exceeds(context_tokens: Option<i64>, window: Option<i64>) -> bool {
    context_tokens matches Some(tokens) && window matches Some(window) && tokens > window
}

/// The next state and action, given the tokens that the session has now.
pub open spec fn migrate_next(
    limits: MigrateLimits,
    state: MigrateState,
    context_tokens: Option<i64>,
) -> (MigrateState, MigrateAction) {
    let compacted = MigrateState {
        compactions_run: (state.compactions_run + 1) as u32,
        ..state
    };
    if limits.max_pre_compactions == 0 {
        (state, MigrateAction::Fail { error: MigrateError::NoCompactionsAllowed })
    } else if limits.force_compact && state.compactions_run == 0 {
        if limits.archived_source {
            (state, MigrateAction::Fail { error: MigrateError::ArchivedForceCompact })
        } else {
            (compacted, MigrateAction::Compact)
        }
    } else if exceeds(context_tokens, limits.context_window) {
        let tokens = context_tokens.unwrap();
        let window = limits.context_window.unwrap();
        if limits.archived_source {
            (
                state,
                MigrateAction::Fail {
                    error: MigrateError::ArchivedTooLarge {
                        context_tokens: tokens,
                        target_window: window,
                    },
                },
            )
        } else if state.compactions_run >= limits.max_pre_compactions {
            (
                state,
                MigrateAction::Fail {
                    error: MigrateError::StillTooLarge {
                        compactions: limits.max_pre_compactions,
                        context_tokens: tokens,
                        target_window: window,
                    },
                },
            )
        } else {
            (MigrateState { preflight_started: true, ..compacted }, MigrateAction::Compact)
        }
    } else {
        (
            state,
            MigrateAction::Fork {
                warn_unknown_context: limits.context_window is Some && context_tokens is None
                    && !state.preflight_started,
            },
        )
    }
}

/// The state of a migration that has not begun.
pub fn start_migration() -> (out: MigrateState)
    ensures
        out == migrate_start(),
{
    MigrateState { compactions_run: 0, preflight_started: false }
}

/// The next step of a migration.
///
/// `context_tokens` is what the session reports now. After a compaction the
/// caller reads it again and asks for the next step.
pub fn migrate_session(
    limits: MigrateLimits,
    state: MigrateState,
    context_tokens: Option<i64>,
) -> (out: (MigrateState, MigrateAction))
    ensures
        out == migrate_next(limits, state, context_tokens),
{
    if limits.max_pre_compactions == 0 {
        return (state, MigrateAction::Fail { error: MigrateError::NoCompactionsAllowed });
    }
    if limits.force_compact && state.compactions_run == 0 {
        if limits.archived_source {
            return (state, MigrateAction::Fail { error: MigrateError::ArchivedForceCompact });
        }
        let next = MigrateState {
            compactions_run: 1,
            preflight_started: state.preflight_started,
        };
        return (next, MigrateAction::Compact);
    }
    if let (Some(tokens), Some(window)) = (context_tokens, limits.context_window) {
        if tokens > window {
            if limits.archived_source {
                let error = MigrateError::ArchivedTooLarge {
                    context_tokens: tokens,
                    target_window: window,
                };
                return (state, MigrateAction::Fail { error });
            }
            if state.compactions_run >= limits.max_pre_compactions {
                let error = MigrateError::StillTooLarge {
                    compactions: limits.max_pre_compactions,
                    context_tokens: tokens,
                    target_window: window,
                };
                return (state, MigrateAction::Fail { error });
            }
            let next = MigrateState {
                compactions_run: state.compactions_run + 1,
                preflight_started: true,
            };
            return (next, MigrateAction::Compact);
        }
    }
    let warn_unknown_context = limits.context_window.is_some() && context_tokens.is_none()
        && !state.preflight_started;
    (state, MigrateAction::Fork { warn_unknown_context })
}

/// A state that a migration can be in.
pub open spec fn within_limits(limits: MigrateLimits, state: MigrateState) -> bool {
    state.compactions_run <= limits.max_pre_compactions && (limits.archived_source
        ==> state.compactions_run == 0)
}

/// A migration never runs more compactions than it may, never compacts an
/// archived session, and comes to an end: every step either ends it or uses up
/// one of the compactions.
pub proof fn migration_keeps_its_limits(
    limits: MigrateLimits,
    state: MigrateState,
    context_tokens: Option<i64>,
)
    requires
        within_limits(limits, state),
    ensures
        ({
            let (next, action) = migrate_next(limits, state, context_tokens);
            &&& within_limits(limits, next)
            &&& action is Compact ==> !limits.archived_source && limits.max_pre_compactions
                - next.compactions_run < limits.max_pre_compactions - state.compactions_run
            &&& !(action is Compact) ==> next == state
        }),
{
}

/// A session is forked only where it fits its target window, as far as its
/// size is known, and only after a compaction where one was forced.
pub proof fn only_fitting_sessions_are_forked(
    limits: MigrateLimits,
    state: MigrateState,
    context_tokens: Option<i64>,
)
    requires
        migrate_next(limits, state, context_tokens).1 is Fork,
    ensures
        !exceeds(context_tokens, limits.context_window),
        limits.force_compact ==> state.compactions_run > 0,
        limits.max_pre_compactions > 0,
{
}

/// The fork that a migration asks for.
pub fn migrate_fork_request(args: &MigrateArgs, rollout_path: &str) -> (out: ForkRequest)
    ensures
        out@ == (ForkRequestView {
            source_profile: args@.target.config_profile,
            source_rollout_path: rollout_path@,
            model: args@.model,
            provider: args@.provider,
            context_window: args@.context_window,
            auto_compact_token_limit: args@.auto_compact_token_limit,
            write_profile: args@.write_profile,
            thread_name: args@.thread_name,
            persist_extended_history: args@.persist_extended_history,
            nth_user_message: args@.nth_user_message,
        }),
{
    ForkRequest {
        source_profile: clone_opt(&args.target.config_profile),
        source_rollout_path: rollout_path.to_owned(),
        model: clone_opt(&args.model),
        provider: clone_opt(&args.provider),
        context_window: args.context_window,
        auto_compact_token_limit: args.auto_compact_token_limit,
        write_profile: clone_opt(&args.write_profile),
        thread_name: clone_opt(&args.thread_name),
        persist_extended_history: args.persist_extended_history,
        nth_user_message: args.nth_user_message,
    }
}

/// What happens to the source after a fork.
#[derive(Debug, Clone, Copy, PartialEq, Eq, Structural)]
pub enum SourceAfterFork {
    /// It stays where it is.
    Stays,
    /// It is archived already.
    IsArchived,
    /// It is to be archived now.
    Archive,
}

/// What happens to the source after a fork.
pub fn source_after_fork(archive_source: bool, archived_source: bool) -> (out: SourceAfterFork)
    ensures
        out == (if !archive_source {
            SourceAfterFork::Stays
        } else if archived_source {
            SourceAfterFork::IsArchived
        } else {
            SourceAfterFork::Archive
        }),
{
    if !archive_source {
        SourceAfterFork::Stays
    } else if archived_source {
        SourceAfterFork::IsArchived
    } else {
        SourceAfterFork::Archive
    }
}

/// The note that a fork exists although its source could not be archived.
pub open spec fn archive_failed_text(
    new_thread_id: Seq<char>,
    source_thread_id: Seq<char>,
) -> Seq<char> {
    "fork succeeded with new thread "@
        + new_thread_id
        + ", but archiving source thread "@
        + source_thread_id
        + " failed"@
}

/// The note that a fork exists although its source could not be archived.
pub fn archive_failed_note(new_thread_id: &str, source_thread_id: &str) -> (out: String)
    ensures
        out@ == archive_failed_text(new_thread_id@, source_thread_id@),
{
    cat5(
        "fork succeeded with new thread ",
        new_thread_id,
        ", but archiving source thread ",
        source_thread_id,
        " failed",
    )
}

/// The lines for a migrated session.
pub open spec fn migrated_text(
    source_thread_id: Seq<char>,
    outcome: ForkOutcomeView,
    compactions_run: u32,
    resume_command: Seq<char>,
    archived_source_path: Option<Seq<char>>,
) -> Seq<Seq<char>> {
    let lines = Seq::<Seq<char>>::empty();
    let lines = lines.push("source_thread_id: "@ + source_thread_id);
    let lines = lines.push("new_thread_id: "@ + outcome.thread_id);
    let lines = lines.push("new_rollout_path: "@ + outcome.rollout_path);
    let lines = lines.push("pre_compactions_run: "@ + numbers::decimal(compactions_run as int));
    let lines = lines.push("resume_command: "@ + resume_command);
    let lines = if let Some(path) = archived_source_path {
        let lines = lines.push("archived_source_path: "@ + path);
        lines
    } else {
        lines
    };
    lines
}

/// The lines for a migrated session.
pub fn migrated_lines(
    source_thread_id: &str,
    outcome: &ForkOutcome,
    compactions_run: u32,
    resume_command: &str,
    archived_source_path: &Option<String>,
) -> (out: Vec<String>)
    ensures
        text::reads(
            out@,
            migrated_text(
                source_thread_id@,
                outcome@,
                compactions_run,
                resume_command@,
                text::opt_text(*archived_source_path),
            ),
        ),
{
    let mut lines = no_texts();
    push_text(&mut lines, cat2("source_thread_id: ", source_thread_id));
    push_text(&mut lines, cat2("new_thread_id: ", outcome.thread_id.as_str()));
    push_text(&mut lines, cat2("new_rollout_path: ", outcome.rollout_path.as_str()));
    push_text(&mut lines, cat2("pre_compactions_run: ", u32_text(compactions_run).as_str()));
    push_text(&mut lines, cat2("resume_command: ", resume_command));
    if let Some(path) = archived_source_path {
        push_text(&mut lines, cat2("archived_source_path: ", path.as_str()));
    }
    lines
}

/// A migration that may run no compaction fails. One that is forced to compact
/// does so once, unless its source is archived. After that a session that is
/// larger than the target window is compacted as long as that is allowed, and
/// every other one is forked.
pub proof fn size_decides_the_migration(
    limits: MigrateLimits,
    state: MigrateState,
    context_tokens: Option<i64>,
)
    requires
        state.compactions_run < u32::MAX,
    ensures
        ({
            let (next, action) = migrate_next(limits, state, context_tokens);
            let forced = limits.force_compact && state.compactions_run == 0;
            let large = context_tokens is Some && limits.context_window is Some
                && context_tokens.unwrap() > limits.context_window.unwrap();
            let allowed = limits.max_pre_compactions > 0;
            &&& !allowed <==> action == (MigrateAction::Fail {
                error: MigrateError::NoCompactionsAllowed,
            })
            &&& allowed && forced && limits.archived_source <==> action == (MigrateAction::Fail {
                error: MigrateError::ArchivedForceCompact,
            })
            &&& allowed && forced && !limits.archived_source ==> action is Compact
            &&& allowed && !forced && large && limits.archived_source ==> action == (
            MigrateAction::Fail {
                error: MigrateError::ArchivedTooLarge {
                    context_tokens: context_tokens.unwrap(),
                    target_window: limits.context_window.unwrap(),
                },
            })
            &&& allowed && !forced && large && !limits.archived_source
                && limits.max_pre_compactions <= state.compactions_run ==> action == (
            MigrateAction::Fail {
                error: MigrateError::StillTooLarge {
                    compactions: limits.max_pre_compactions,
                    context_tokens: context_tokens.unwrap(),
                    target_window: limits.context_window.unwrap(),
                },
            })
            &&& allowed && !forced && large && !limits.archived_source && state.compactions_run
                < limits.max_pre_compactions ==> action is Compact && next.preflight_started
            &&& allowed && !forced && !large <==> action is Fork
            &&& action is Compact ==> next.compactions_run == state.compactions_run + 1
        }),
{
}

/// A fork warns of an unknown size exactly where there is a target window and the
/// session, which no compaction for its size has touched, reports no tokens.
pub proof fn unknown_size_is_warned_of(
    limits: MigrateLimits,
    state: MigrateState,
    context_tokens: Option<i64>,
)
    requires
        migrate_next(limits, state, context_tokens).1 is Fork,
    ensures
        migrate_next(limits, state, context_tokens).1->warn_unknown_context <==> {
            &&& limits.context_window is Some
            &&& context_tokens is None
            &&& !state.preflight_started
        },
        !migrate_start().preflight_started,
        migrate_start().compactions_run == 0,
{
}

/// What is printed of a migration names both sessions, the rollout of the new
/// one, the compactions that were run and the command that resumes it, and where
/// the source is archived its new place.
pub proof fn migration_is_told(
    source_thread_id: Seq<char>,
    outcome: ForkOutcomeView,
    compactions_run: u32,
    resume_command: Seq<char>,
    archived_source_path: Option<Seq<char>>,
)
    ensures
        ({
            let lines = migrated_text(
                source_thread_id,
                outcome,
                compactions_run,
                resume_command,
                archived_source_path,
            );
            &&& lines[0] == "source_thread_id: "@ + source_thread_id
            &&& lines[1] == "new_thread_id: "@ + outcome.thread_id
            &&& lines[2] == "new_rollout_path: "@ + outcome.rollout_path
            &&& lines[3] == "pre_compactions_run: "@ + numbers::decimal(compactions_run as int)
            &&& lines[4] == "resume_command: "@ + resume_command
            &&& archived_source_path is None ==> lines.len() == 5
            &&& archived_source_path matches Some(path) ==> lines.len() == 6 && lines[5]
                == "archived_source_path: "@ + path
        }),
{
}

} // verus!
