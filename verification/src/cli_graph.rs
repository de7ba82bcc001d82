//! The command graph: every command of the program with its arguments.

use vstd::prelude::*;

use crate::text;
use crate::text::same_text;

verus! {

/// What an argument takes.
#[derive(Debug, Clone, Copy, PartialEq, Eq, Structural)]
pub enum ArgKind {
    Flag,
    Text,
    Path,
    I64,
    U32,
    U64,
    Usize,
    /// The name of a [`DistillMode`].
    Mode,
    /// The name of a [`DistillCompressionLevel`].
    Level,
}

/// One argument of a command. An argument without a long name is positional.
#[derive(Debug, Clone, Copy, PartialEq, Eq)]
pub struct ArgSpec {
    pub id: &'static str,
    pub kind: ArgKind,
    pub short: Option<char>,
    pub long: Option<&'static str>,
    pub value_name: Option<&'static str>,
    pub help: &'static str,
    pub required: bool,
    pub default_value: Option<&'static str>,
    pub conflicts_with: Option<&'static str>,
}

/// What an [`ArgSpec`] stands for.
pub struct ArgSpecView {
    pub id: Seq<char>,
    pub kind: ArgKind,
    pub short: Option<char>,
    pub long: Option<Seq<char>>,
    pub value_name: Option<Seq<char>>,
    pub help: Seq<char>,
    pub required: bool,
    pub default_value: Option<Seq<char>>,
    pub conflicts_with: Option<Seq<char>>,
}

impl View for ArgSpec {
    type V = ArgSpecView;

    open spec fn view(&self) -> ArgSpecView {
        ArgSpecView {
            id: self.id@,
            kind: self.kind,
            short: self.short,
            long: text::opt_str(self.long),
            value_name: text::opt_str(self.value_name),
            help: self.help@,
            required: self.required,
            default_value: text::opt_str(self.default_value),
            conflicts_with: text::opt_str(self.conflicts_with),
        }
    }
}

/// One command with its arguments.
#[derive(Debug, PartialEq, Eq)]
pub struct CommandSpec {
    pub name: &'static str,
    pub about: &'static str,
    pub aliases: Vec<&'static str>,
    pub args: Vec<ArgSpec>,
}

/// What a [`CommandSpec`] stands for.
pub struct CommandSpecView {
    pub name: Seq<char>,
    pub about: Seq<char>,
    pub aliases: Seq<Seq<char>>,
    pub args: Seq<ArgSpecView>,
}

impl View for CommandSpec {
    type V = CommandSpecView;

    open spec fn view(&self) -> CommandSpecView {
        CommandSpecView {
            name: self.name@,
            about: self.about@,
            aliases: names(self.aliases@),
            args: specs(self.args@),
        }
    }
}

/// What a list of names stands for.
pub open spec fn names(items: Seq<&'static str>) -> Seq<Seq<char>> {
    Seq::new(items.len(), |i: int| items[i]@)
}

/// What a list of arguments stands for.
pub open spec fn specs(args: Seq<ArgSpec>) -> Seq<ArgSpecView> {
    Seq::new(args.len(), |i: int| args[i]@)
}

/// What a list of commands stands for.
pub open spec fn commands_of(commands: Seq<CommandSpec>) -> Seq<CommandSpecView> {
    Seq::new(commands.len(), |i: int| commands[i]@)
}

/// A list of arguments stands for another.
pub open spec fn spells(args: Seq<ArgSpec>, expected: Seq<ArgSpecView>) -> bool {
    specs(args) == expected
}

/// A list of commands stands for another.
pub open spec fn lists(commands: Seq<CommandSpec>, expected: Seq<CommandSpecView>) -> bool {
    commands_of(commands) == expected
}

fn push_arg(args: &mut Vec<ArgSpec>, arg: ArgSpec)
    ensures
        specs(final(args)@) == specs(old(args)@).push(arg@),
{
    args.push(arg);
    assert(specs(args@) =~= specs(old(args)@).push(arg@));
}

fn push_command(commands: &mut Vec<CommandSpec>, command: CommandSpec)
    ensures
        commands_of(final(commands)@) == commands_of(old(commands)@).push(command@),
{
    let ghost added = command@;
    commands.push(command);
    assert(commands_of(commands@) =~= commands_of(old(commands)@).push(added));
}

fn no_names() -> (out: Vec<&'static str>)
    ensures
        names(out@) == Seq::<Seq<char>>::empty(),
{
    let out: Vec<&'static str> = Vec::new();
    assert(names(out@) =~= Seq::<Seq<char>>::empty());
    out
}

fn names_of_1(first: &'static str) -> (out: Vec<&'static str>)
    ensures
        names(out@) == Seq::<Seq<char>>::empty().push(first@),
{
    let mut out: Vec<&'static str> = Vec::new();
    out.push(first);
    assert(names(out@) =~= Seq::<Seq<char>>::empty().push(first@));
    out
}

fn names_of_2(first: &'static str, second: &'static str) -> (out: Vec<&'static str>)
    ensures
        names(out@) == Seq::<Seq<char>>::empty().push(first@).push(second@),
{
    let mut out = names_of_1(first);
    out.push(second);
    assert(names(out@) =~= Seq::<Seq<char>>::empty().push(first@).push(second@));
    out
}

/// A flag, off where it is not given.
pub open spec fn flag_view(id: Seq<char>, long: Seq<char>, help: Seq<char>) -> ArgSpecView {
    ArgSpecView {
        id,
        kind: ArgKind::Flag,
        short: None,
        long: Some(long),
        value_name: None,
        help,
        required: false,
        default_value: None,
        conflicts_with: None,
    }
}

fn flag(id: &'static str, long: &'static str, help: &'static str) -> (out: ArgSpec)
    ensures
        out@ == flag_view(id@, long@, help@),
{
    ArgSpec {
        id,
        kind: ArgKind::Flag,
        short: None,
        long: Some(long),
        value_name: None,
        help,
        required: false,
        default_value: None,
        conflicts_with: None,
    }
}

/// An argument without a name, which has to be given.
pub open spec fn positional_view(
    id: Seq<char>,
    value_name: Seq<char>,
    kind: ArgKind,
    help: Seq<char>,
) -> ArgSpecView {
    ArgSpecView {
        id,
        kind,
        short: None,
        long: None,
        value_name: Some(value_name),
        help,
        required: true,
        default_value: None,
        conflicts_with: None,
    }
}

fn positional(
    id: &'static str,
    value_name: &'static str,
    kind: ArgKind,
    help: &'static str,
) -> (out: ArgSpec)
    ensures
        out@ == positional_view(id@, value_name@, kind, help@),
{
    ArgSpec {
        id,
        kind,
        short: None,
        long: None,
        value_name: Some(value_name),
        help,
        required: true,
        default_value: None,
        conflicts_with: None,
    }
}

/// A named argument with a value, which may be left out.
pub open spec fn option_view(
    id: Seq<char>,
    long: Seq<char>,
    value_name: Seq<char>,
    kind: ArgKind,
    help: Seq<char>,
) -> ArgSpecView {
    ArgSpecView {
        id,
        kind,
        short: None,
        long: Some(long),
        value_name: Some(value_name),
        help,
        required: false,
        default_value: None,
        conflicts_with: None,
    }
}

fn option(
    id: &'static str,
    long: &'static str,
    value_name: &'static str,
    kind: ArgKind,
    help: &'static str,
) -> (out: ArgSpec)
    ensures
        out@ == option_view(id@, long@, value_name@, kind, help@),
{
    ArgSpec {
        id,
        kind,
        short: None,
        long: Some(long),
        value_name: Some(value_name),
        help,
        required: false,
        default_value: None,
        conflicts_with: None,
    }
}

/// An argument that has a value where it is left out.
pub open spec fn defaulting_view(arg: ArgSpecView, value: Seq<char>) -> ArgSpecView {
    ArgSpecView { default_value: Some(value), ..arg }
}

fn defaulting(arg: ArgSpec, value: &'static str) -> (out: ArgSpec)
    ensures
        out@ == defaulting_view(arg@, value@),
{
    let mut out = arg;
    out.default_value = Some(value);
    out
}

/// An argument that cannot be given together with another.
pub open spec fn conflicting_view(arg: ArgSpecView, other: Seq<char>) -> ArgSpecView {
    ArgSpecView { conflicts_with: Some(other), ..arg }
}

fn conflicting(arg: ArgSpec, other: &'static str) -> (out: ArgSpec)
    ensures
        out@ == conflicting_view(arg@, other@),
{
    let mut out = arg;
    out.conflicts_with = Some(other);
    out
}

/// The profile that a target is resolved with.
pub open spec fn profile_view() -> ArgSpecView {
    ArgSpecView {
        short: Some('p'),
        ..option_view(
            "config_profile"@,
            "profile"@,
            "CONFIG_PROFILE"@,
            ArgKind::Text,
            "Config profile to use while resolving provider/model defaults"@,
        )
    }
}

/// The arguments that every command has.
pub open spec fn target_args() -> Seq<ArgSpecView> {
    Seq::<ArgSpecView>::empty().push(
        positional_view(
            "target"@,
            "TARGET"@,
            ArgKind::Text,
            "Rollout path, thread id, or thread name"@,
        ),
    ).push(profile_view())
}

fn list_target_args() -> (out: Vec<ArgSpec>)
    ensures
        spells(out@, target_args()),
{
    let mut args: Vec<ArgSpec> = Vec::new();
    assert(specs(args@) =~= Seq::<ArgSpecView>::empty());
    push_arg(
        &mut args,
        positional("target", "TARGET", ArgKind::Text, "Rollout path, thread id, or thread name"),
    );
    let mut profile = option(
        "config_profile",
        "profile",
        "CONFIG_PROFILE",
        ArgKind::Text,
        "Config profile to use while resolving provider/model defaults",
    );
    profile.short = Some('p');
    push_arg(&mut args, profile);
    args
}

/// The arguments of `show`.
pub open spec fn show_args() -> Seq<ArgSpecView> {
    target_args().push(
        flag_view("json"@, "json"@, "Emit structured JSON instead of key/value lines"@),
    )
}

fn list_show_args() -> (out: Vec<ArgSpec>)
    ensures
        spells(out@, show_args()),
{
    let mut args = list_target_args();
    push_arg(
        &mut args,
        flag("json", "json", "Emit structured JSON instead of key/value lines"),
    );
    args
}

/// The command `show`.
pub open spec fn show_command() -> CommandSpecView {
    CommandSpecView {
        name: "show"@,
        about: "Inspect derived metadata for a session rollout"@,
        aliases: Seq::<Seq<char>>::empty(),
        args: show_args(),
    }
}

/// The arguments of `rename`.
pub open spec fn rename_args() -> Seq<ArgSpecView> {
    target_args().push(
        positional_view("name"@, "NAME"@, ArgKind::Text, "New thread name to append into `session_index.jsonl`"@),
    )
}

fn list_rename_args() -> (out: Vec<ArgSpec>)
    ensures
        spells(out@, rename_args()),
{
    let mut args = list_target_args();
    push_arg(
        &mut args,
        positional("name", "NAME", ArgKind::Text, "New thread name to append into `session_index.jsonl`"),
    );
    args
}

/// The command `rename`.
pub open spec fn rename_command() -> CommandSpecView {
    CommandSpecView {
        name: "rename"@,
        about: "Rename a thread by appending a new session index entry"@,
        aliases: Seq::<Seq<char>>::empty(),
        args: rename_args(),
    }
}

/// The command `repair`.
pub open spec fn repair_command() -> CommandSpecView {
    CommandSpecView {
        name: "repair"@,
        about: "Reconcile SQLite metadata from a rollout file"@,
        aliases: Seq::<Seq<char>>::empty(),
        args: target_args(),
    }
}

/// The arguments of `rewrite-meta`.
pub open spec fn rewrite_meta_args() -> Seq<ArgSpecView> {
    target_args().push(
        option_view("provider"@, "provider"@, "PROVIDER"@, ArgKind::Text, "Override `SessionMeta.model_provider`"@),
    ).push(
        option_view("cwd"@, "cwd"@, "CWD"@, ArgKind::Path, "Override `SessionMeta.cwd`"@),
    ).push(
        conflicting_view(option_view("memory_mode"@, "memory-mode"@, "MEMORY_MODE"@, ArgKind::Text, "Override `SessionMeta.memory_mode`"@), "clear_memory_mode"@),
    ).push(
        flag_view("clear_memory_mode"@, "clear-memory-mode"@, "Clear `SessionMeta.memory_mode`"@),
    )
}

fn list_rewrite_meta_args() -> (out: Vec<ArgSpec>)
    ensures
        spells(out@, rewrite_meta_args()),
{
    let mut args = list_target_args();
    push_arg(
        &mut args,
        option("provider", "provider", "PROVIDER", ArgKind::Text, "Override `SessionMeta.model_provider`"),
    );
    push_arg(
        &mut args,
        option("cwd", "cwd", "CWD", ArgKind::Path, "Override `SessionMeta.cwd`"),
    );
    push_arg(
        &mut args,
        conflicting(option("memory_mode", "memory-mode", "MEMORY_MODE", ArgKind::Text, "Override `SessionMeta.memory_mode`"), "clear_memory_mode"),
    );
    push_arg(
        &mut args,
        flag("clear_memory_mode", "clear-memory-mode", "Clear `SessionMeta.memory_mode`"),
    );
    args
}

/// The command `rewrite-meta`.
pub open spec fn rewrite_meta_command() -> CommandSpecView {
    CommandSpecView {
        name: "rewrite-meta"@,
        about: "Rewrite only the first SessionMeta record in a rollout"@,
        aliases: Seq::<Seq<char>>::empty(),
        args: rewrite_meta_args(),
    }
}

/// The arguments of `repair-resume-state`.
pub open spec fn repair_resume_state_args() -> Seq<ArgSpecView> {
    target_args().push(
        option_view("context_window"@, "context-window"@, "CONTEXT_WINDOW"@, ArgKind::I64, "Override the persisted model context window recorded in rollout events"@),
    ).push(
        option_view("model"@, "model"@, "MODEL"@, ArgKind::Text, "Runtime model used when resolving a context window from config"@),
    ).push(
        option_view("provider"@, "provider"@, "PROVIDER"@, ArgKind::Text, "Runtime provider used when resolving a context window from config"@),
    )
}

fn list_repair_resume_state_args() -> (out: Vec<ArgSpec>)
    ensures
        spells(out@, repair_resume_state_args()),
{
    let mut args = list_target_args();
    push_arg(
        &mut args,
        option("context_window", "context-window", "CONTEXT_WINDOW", ArgKind::I64, "Override the persisted model context window recorded in rollout events"),
    );
    push_arg(
        &mut args,
        option("model", "model", "MODEL", ArgKind::Text, "Runtime model used when resolving a context window from config"),
    );
    push_arg(
        &mut args,
        option("provider", "provider", "PROVIDER", ArgKind::Text, "Runtime provider used when resolving a context window from config"),
    );
    args
}

/// The command `repair-resume-state`.
pub open spec fn repair_resume_state_command() -> CommandSpecView {
    CommandSpecView {
        name: "repair-resume-state"@,
        about: "Rewrite persisted resume/fork window hints in rollout events"@,
        aliases: Seq::<Seq<char>>::empty().push("repair-window"@),
        args: repair_resume_state_args(),
    }
}

/// The arguments of `fork`.
pub open spec fn fork_args() -> Seq<ArgSpecView> {
    target_args().push(
        option_view("model"@, "model"@, "MODEL"@, ArgKind::Text, "Override target model for the forked thread"@),
    ).push(
        option_view("provider"@, "provider"@, "PROVIDER"@, ArgKind::Text, "Override target provider for the forked thread"@),
    ).push(
        option_view("context_window"@, "context-window"@, "CONTEXT_WINDOW"@, ArgKind::I64, "Override target model context window"@),
    ).push(
        option_view("auto_compact_token_limit"@, "auto-compact-token-limit"@, "AUTO_COMPACT_TOKEN_LIMIT"@, ArgKind::I64, "Override target auto-compact token threshold"@),
    ).push(
        option_view("write_profile"@, "write-profile"@, "WRITE_PROFILE"@, ArgKind::Text, "Persist the resolved target runtime into a config profile"@),
    ).push(
        option_view("thread_name"@, "thread-name"@, "THREAD_NAME"@, ArgKind::Text, "Optional thread name for the newly forked thread"@),
    ).push(
        flag_view("persist_extended_history"@, "persist-extended-history"@, "Preserve extended history when forking"@),
    ).push(
        option_view("nth_user_message"@, "nth-user-message"@, "NTH_USER_MESSAGE"@, ArgKind::Usize, "Keep only history up to the Nth user message"@),
    )
}

fn list_fork_args() -> (out: Vec<ArgSpec>)
    ensures
        spells(out@, fork_args()),
{
    let mut args = list_target_args();
    push_arg(
        &mut args,
        option("model", "model", "MODEL", ArgKind::Text, "Override target model for the forked thread"),
    );
    push_arg(
        &mut args,
        option("provider", "provider", "PROVIDER", ArgKind::Text, "Override target provider for the forked thread"),
    );
    push_arg(
        &mut args,
        option("context_window", "context-window", "CONTEXT_WINDOW", ArgKind::I64, "Override target model context window"),
    );
    push_arg(
        &mut args,
        option("auto_compact_token_limit", "auto-compact-token-limit", "AUTO_COMPACT_TOKEN_LIMIT", ArgKind::I64, "Override target auto-compact token threshold"),
    );
    push_arg(
        &mut args,
        option("write_profile", "write-profile", "WRITE_PROFILE", ArgKind::Text, "Persist the resolved target runtime into a config profile"),
    );
    push_arg(
        &mut args,
        option("thread_name", "thread-name", "THREAD_NAME", ArgKind::Text, "Optional thread name for the newly forked thread"),
    );
    push_arg(
        &mut args,
        flag("persist_extended_history", "persist-extended-history", "Preserve extended history when forking"),
    );
    push_arg(
        &mut args,
        option("nth_user_message", "nth-user-message", "NTH_USER_MESSAGE", ArgKind::Usize, "Keep only history up to the Nth user message"),
    );
    args
}

/// The command `fork`.
pub open spec fn fork_command() -> CommandSpecView {
    CommandSpecView {
        name: "fork"@,
        about: "Fork a session using Codex's native thread manager"@,
        aliases: Seq::<Seq<char>>::empty(),
        args: fork_args(),
    }
}

/// The command `archive`.
pub open spec fn archive_command() -> CommandSpecView {
    CommandSpecView {
        name: "archive"@,
        about: "Move an active rollout into archived storage"@,
        aliases: Seq::<Seq<char>>::empty(),
        args: target_args(),
    }
}

/// The command `unarchive`.
pub open spec fn unarchive_command() -> CommandSpecView {
    CommandSpecView {
        name: "unarchive"@,
        about: "Restore an archived rollout back into active storage"@,
        aliases: Seq::<Seq<char>>::empty().push("restore"@),
        args: target_args(),
    }
}

/// The command `copy-session-id`.
pub open spec fn copy_session_id_command() -> CommandSpecView {
    CommandSpecView {
        name: "copy-session-id"@,
        about: "Copy the resolved thread id"@,
        aliases: Seq::<Seq<char>>::empty().push("copy-thread-id"@).push("copy-id"@),
        args: target_args(),
    }
}

/// The command `copy-cwd`.
pub open spec fn copy_cwd_command() -> CommandSpecView {
    CommandSpecView {
        name: "copy-cwd"@,
        about: "Copy the session cwd recorded in SessionMeta"@,
        aliases: Seq::<Seq<char>>::empty(),
        args: target_args(),
    }
}

/// The command `copy-rollout-path`.
pub open spec fn copy_rollout_path_command() -> CommandSpecView {
    CommandSpecView {
        name: "copy-rollout-path"@,
        about: "Copy the resolved rollout path"@,
        aliases: Seq::<Seq<char>>::empty().push("copy-path"@),
        args: target_args(),
    }
}

/// The command `copy-deeplink`.
pub open spec fn copy_deeplink_command() -> CommandSpecView {
    CommandSpecView {
        name: "copy-deeplink"@,
        about: "Copy the canonical `codex resume ...` command"@,
        aliases: Seq::<Seq<char>>::empty().push("copy-resume-command"@),
        args: target_args(),
    }
}

/// The arguments of `compact`.
pub open spec fn compact_args() -> Seq<ArgSpecView> {
    target_args().push(
        defaulting_view(option_view("timeout_secs"@, "timeout-secs"@, "TIMEOUT_SECS"@, ArgKind::U64, "Maximum seconds to wait for compaction to complete"@), "300"@),
    )
}

fn list_compact_args() -> (out: Vec<ArgSpec>)
    ensures
        spells(out@, compact_args()),
{
    let mut args = list_target_args();
    push_arg(
        &mut args,
        defaulting(option("timeout_secs", "timeout-secs", "TIMEOUT_SECS", ArgKind::U64, "Maximum seconds to wait for compaction to complete"), "300"),
    );
    args
}

/// The command `compact`.
pub open spec fn compact_command() -> CommandSpecView {
    CommandSpecView {
        name: "compact"@,
        about: "Trigger native Codex compaction for an active session"@,
        aliases: Seq::<Seq<char>>::empty(),
        args: compact_args(),
    }
}

/// The arguments of `rollback`.
pub open spec fn rollback_args() -> Seq<ArgSpecView> {
    target_args().push(
        positional_view("num_turns"@, "NUM_TURNS"@, ArgKind::U32, "Number of user turns to drop from the end of the thread"@),
    ).push(
        defaulting_view(option_view("timeout_secs"@, "timeout-secs"@, "TIMEOUT_SECS"@, ArgKind::U64, "Maximum seconds to wait for rollback to complete"@), "60"@),
    )
}

fn list_rollback_args() -> (out: Vec<ArgSpec>)
    ensures
        spells(out@, rollback_args()),
{
    let mut args = list_target_args();
    push_arg(
        &mut args,
        positional("num_turns", "NUM_TURNS", ArgKind::U32, "Number of user turns to drop from the end of the thread"),
    );
    push_arg(
        &mut args,
        defaulting(option("timeout_secs", "timeout-secs", "TIMEOUT_SECS", ArgKind::U64, "Maximum seconds to wait for rollback to complete"), "60"),
    );
    args
}

/// The command `rollback`.
pub open spec fn rollback_command() -> CommandSpecView {
    CommandSpecView {
        name: "rollback"@,
        about: "Drop the last N user turns using native Codex rollback"@,
        aliases: Seq::<Seq<char>>::empty(),
        args: rollback_args(),
    }
}

/// The arguments of `migrate`.
pub open spec fn migrate_args() -> Seq<ArgSpecView> {
    target_args().push(
        option_view("model"@, "model"@, "MODEL"@, ArgKind::Text, "Override target model for the forked thread"@),
    ).push(
        option_view("provider"@, "provider"@, "PROVIDER"@, ArgKind::Text, "Override target provider for the forked thread"@),
    ).push(
        option_view("context_window"@, "context-window"@, "CONTEXT_WINDOW"@, ArgKind::I64, "Target context window used for migration preflight"@),
    ).push(
        option_view("auto_compact_token_limit"@, "auto-compact-token-limit"@, "AUTO_COMPACT_TOKEN_LIMIT"@, ArgKind::I64, "Override target auto-compact token threshold"@),
    ).push(
        option_view("write_profile"@, "write-profile"@, "WRITE_PROFILE"@, ArgKind::Text, "Persist the resolved target runtime into a config profile"@),
    ).push(
        option_view("thread_name"@, "thread-name"@, "THREAD_NAME"@, ArgKind::Text, "Optional thread name for the forked thread"@),
    ).push(
        flag_view("persist_extended_history"@, "persist-extended-history"@, "Preserve extended history when forking"@),
    ).push(
        option_view("nth_user_message"@, "nth-user-message"@, "NTH_USER_MESSAGE"@, ArgKind::Usize, "Keep only history up to the Nth user message"@),
    ).push(
        flag_view("force_compact"@, "force-compact"@, "Force one compaction before migration preflight"@),
    ).push(
        defaulting_view(option_view("max_pre_compactions"@, "max-pre-compactions"@, "MAX_PRE_COMPACTIONS"@, ArgKind::U32, "Maximum number of pre-migration compactions to run"@), "3"@),
    ).push(
        flag_view("archive_source"@, "archive-source"@, "Archive the source rollout after a successful fork"@),
    ).push(
        defaulting_view(option_view("timeout_secs"@, "timeout-secs"@, "TIMEOUT_SECS"@, ArgKind::U64, "Maximum seconds to wait for each compaction step"@), "300"@),
    )
}

fn list_migrate_args() -> (out: Vec<ArgSpec>)
    ensures
        spells(out@, migrate_args()),
{
    let mut args = list_target_args();
    push_arg(
        &mut args,
        option("model", "model", "MODEL", ArgKind::Text, "Override target model for the forked thread"),
    );
    push_arg(
        &mut args,
        option("provider", "provider", "PROVIDER", ArgKind::Text, "Override target provider for the forked thread"),
    );
    push_arg(
        &mut args,
        option("context_window", "context-window", "CONTEXT_WINDOW", ArgKind::I64, "Target context window used for migration preflight"),
    );
    push_arg(
        &mut args,
        option("auto_compact_token_limit", "auto-compact-token-limit", "AUTO_COMPACT_TOKEN_LIMIT", ArgKind::I64, "Override target auto-compact token threshold"),
    );
    push_arg(
        &mut args,
        option("write_profile", "write-profile", "WRITE_PROFILE", ArgKind::Text, "Persist the resolved target runtime into a config profile"),
    );
    push_arg(
        &mut args,
        option("thread_name", "thread-name", "THREAD_NAME", ArgKind::Text, "Optional thread name for the forked thread"),
    );
    push_arg(
        &mut args,
        flag("persist_extended_history", "persist-extended-history", "Preserve extended history when forking"),
    );
    push_arg(
        &mut args,
        option("nth_user_message", "nth-user-message", "NTH_USER_MESSAGE", ArgKind::Usize, "Keep only history up to the Nth user message"),
    );
    push_arg(
        &mut args,
        flag("force_compact", "force-compact", "Force one compaction before migration preflight"),
    );
    push_arg(
        &mut args,
        defaulting(option("max_pre_compactions", "max-pre-compactions", "MAX_PRE_COMPACTIONS", ArgKind::U32, "Maximum number of pre-migration compactions to run"), "3"),
    );
    push_arg(
        &mut args,
        flag("archive_source", "archive-source", "Archive the source rollout after a successful fork"),
    );
    push_arg(
        &mut args,
        defaulting(option("timeout_secs", "timeout-secs", "TIMEOUT_SECS", ArgKind::U64, "Maximum seconds to wait for each compaction step"), "300"),
    );
    args
}

/// The command `migrate`.
pub open spec fn migrate_command() -> CommandSpecView {
    CommandSpecView {
        name: "migrate"@,
        about: "Compact if needed, then fork into a new provider/model/runtime shape"@,
        aliases: Seq::<Seq<char>>::empty(),
        args: migrate_args(),
    }
}

/// The arguments of `smart`.
pub open spec fn smart_args() -> Seq<ArgSpecView> {
    target_args().push(
        option_view("write_profile"@, "write-profile"@, "WRITE_PROFILE"@, ArgKind::Text, "Persist the resolved target runtime into this config profile"@),
    ).push(
        flag_view("archive_source"@, "archive-source"@, "Archive the source rollout after a successful cross-provider migration"@),
    ).push(
        defaulting_view(option_view("max_pre_compactions"@, "max-pre-compactions"@, "MAX_PRE_COMPACTIONS"@, ArgKind::U32, "Maximum number of pre-switch compactions when shrinking context"@), "3"@),
    ).push(
        defaulting_view(option_view("timeout_secs"@, "timeout-secs"@, "TIMEOUT_SECS"@, ArgKind::U64, "Maximum seconds to wait for each compaction step"@), "300"@),
    )
}

fn list_smart_args() -> (out: Vec<ArgSpec>)
    ensures
        spells(out@, smart_args()),
{
    let mut args = list_target_args();
    push_arg(
        &mut args,
        option("write_profile", "write-profile", "WRITE_PROFILE", ArgKind::Text, "Persist the resolved target runtime into this config profile"),
    );
    push_arg(
        &mut args,
        flag("archive_source", "archive-source", "Archive the source rollout after a successful cross-provider migration"),
    );
    push_arg(
        &mut args,
        defaulting(option("max_pre_compactions", "max-pre-compactions", "MAX_PRE_COMPACTIONS", ArgKind::U32, "Maximum number of pre-switch compactions when shrinking context"), "3"),
    );
    push_arg(
        &mut args,
        defaulting(option("timeout_secs", "timeout-secs", "TIMEOUT_SECS", ArgKind::U64, "Maximum seconds to wait for each compaction step"), "300"),
    );
    args
}

/// The command `smart`.
pub open spec fn smart_command() -> CommandSpecView {
    CommandSpecView {
        name: "smart"@,
        about: "Interactive smart provider/model switch workflow"@,
        aliases: Seq::<Seq<char>>::empty(),
        args: smart_args(),
    }
}

/// The arguments of `distill`.
pub open spec fn distill_args() -> Seq<ArgSpecView> {
    target_args().push(
        option_view("provider"@, "provider"@, "PROVIDER"@, ArgKind::Text, "Override target provider for the distilled successor session"@),
    ).push(
        option_view("model"@, "model"@, "MODEL"@, ArgKind::Text, "Override target model for the distilled successor session"@),
    ).push(
        option_view("context_window"@, "context-window"@, "CONTEXT_WINDOW"@, ArgKind::I64, "Override target model context window for the distilled successor session"@),
    ).push(
        option_view("auto_compact_token_limit"@, "auto-compact-token-limit"@, "AUTO_COMPACT_TOKEN_LIMIT"@, ArgKind::I64, "Override target auto-compact token threshold for the distilled successor session"@),
    ).push(
        defaulting_view(option_view("distill_mode"@, "distill-mode"@, "DISTILL_MODE"@, ArgKind::Mode, "Distillation backend to use for generating the successor handoff brief"@), "codex"@),
    ).push(
        defaulting_view(option_view("compression_level"@, "compression-level"@, "COMPRESSION_LEVEL"@, ArgKind::Level, "How much of the session the handoff brief keeps"@), "balanced"@),
    ).push(
        option_view("reasoning_effort"@, "reasoning-effort"@, "REASONING_EFFORT"@, ArgKind::Text, "Optional reasoning effort for Codex-backed distillation"@),
    ).push(
        option_view("thread_name"@, "thread-name"@, "THREAD_NAME"@, ArgKind::Text, "Optional thread name for the distilled successor session"@),
    ).push(
        option_view("write_profile"@, "write-profile"@, "WRITE_PROFILE"@, ArgKind::Text, "Persist the successor runtime into this config profile"@),
    ).push(
        flag_view("archive_source"@, "archive-source"@, "Archive the source rollout after a successful distillation"@),
    ).push(
        flag_view("preview_only"@, "preview-only"@, "Show the distillation report without creating a successor thread"@),
    ).push(
        flag_view("json"@, "json"@, "Emit structured JSON instead of plain text output"@),
    ).push(
        defaulting_view(option_view("recent_turns"@, "recent-turns"@, "RECENT_TURNS"@, ArgKind::Usize, "Number of recent user turns to preserve in the deterministic brief"@), "8"@),
    ).push(
        defaulting_view(option_view("timeout_secs"@, "timeout-secs"@, "TIMEOUT_SECS"@, ArgKind::U64, "Maximum seconds to wait for the seed handoff turn to complete"@), "300"@),
    )
}

fn list_distill_args() -> (out: Vec<ArgSpec>)
    ensures
        spells(out@, distill_args()),
{
    let mut args = list_target_args();
    push_arg(
        &mut args,
        option("provider", "provider", "PROVIDER", ArgKind::Text, "Override target provider for the distilled successor session"),
    );
    push_arg(
        &mut args,
        option("model", "model", "MODEL", ArgKind::Text, "Override target model for the distilled successor session"),
    );
    push_arg(
        &mut args,
        option("context_window", "context-window", "CONTEXT_WINDOW", ArgKind::I64, "Override target model context window for the distilled successor session"),
    );
    push_arg(
        &mut args,
        option("auto_compact_token_limit", "auto-compact-token-limit", "AUTO_COMPACT_TOKEN_LIMIT", ArgKind::I64, "Override target auto-compact token threshold for the distilled successor session"),
    );
    push_arg(
        &mut args,
        defaulting(option("distill_mode", "distill-mode", "DISTILL_MODE", ArgKind::Mode, "Distillation backend to use for generating the successor handoff brief"), "codex"),
    );
    push_arg(
        &mut args,
        defaulting(option("compression_level", "compression-level", "COMPRESSION_LEVEL", ArgKind::Level, "How much of the session the handoff brief keeps"), "balanced"),
    );
    push_arg(
        &mut args,
        option("reasoning_effort", "reasoning-effort", "REASONING_EFFORT", ArgKind::Text, "Optional reasoning effort for Codex-backed distillation"),
    );
    push_arg(
        &mut args,
        option("thread_name", "thread-name", "THREAD_NAME", ArgKind::Text, "Optional thread name for the distilled successor session"),
    );
    push_arg(
        &mut args,
        option("write_profile", "write-profile", "WRITE_PROFILE", ArgKind::Text, "Persist the successor runtime into this config profile"),
    );
    push_arg(
        &mut args,
        flag("archive_source", "archive-source", "Archive the source rollout after a successful distillation"),
    );
    push_arg(
        &mut args,
        flag("preview_only", "preview-only", "Show the distillation report without creating a successor thread"),
    );
    push_arg(
        &mut args,
        flag("json", "json", "Emit structured JSON instead of plain text output"),
    );
    push_arg(
        &mut args,
        defaulting(option("recent_turns", "recent-turns", "RECENT_TURNS", ArgKind::Usize, "Number of recent user turns to preserve in the deterministic brief"), "8"),
    );
    push_arg(
        &mut args,
        defaulting(option("timeout_secs", "timeout-secs", "TIMEOUT_SECS", ArgKind::U64, "Maximum seconds to wait for the seed handoff turn to complete"), "300"),
    );
    args
}

/// The command `distill`.
pub open spec fn distill_command() -> CommandSpecView {
    CommandSpecView {
        name: "distill"@,
        about: "Distill a heavy session into a lighter successor session"@,
        aliases: Seq::<Seq<char>>::empty(),
        args: distill_args(),
    }
}

/// The arguments of `first-token-preview`.
pub open spec fn first_token_preview_args() -> Seq<ArgSpecView> {
    target_args().push(
        option_view("input"@, "input"@, "INPUT"@, ArgKind::Text, "User message to append to the preview"@),
    ).push(
        flag_view("json"@, "json"@, "Emit structured JSON instead of plain text output"@),
    )
}

fn list_first_token_preview_args() -> (out: Vec<ArgSpec>)
    ensures
        spells(out@, first_token_preview_args()),
{
    let mut args = list_target_args();
    push_arg(
        &mut args,
        option("input", "input", "INPUT", ArgKind::Text, "User message to append to the preview"),
    );
    push_arg(
        &mut args,
        flag("json", "json", "Emit structured JSON instead of plain text output"),
    );
    args
}

/// The command `first-token-preview`.
pub open spec fn first_token_preview_command() -> CommandSpecView {
    CommandSpecView {
        name: "first-token-preview"@,
        about: "Preview what the model is shown when the session goes on"@,
        aliases: Seq::<Seq<char>>::empty(),
        args: first_token_preview_args(),
    }
}

/// The commands of the program.
pub open spec fn cli_graph() -> Seq<CommandSpecView> {
    Seq::<CommandSpecView>::empty()
        .push(show_command())
        .push(rename_command())
        .push(repair_command())
        .push(rewrite_meta_command())
        .push(repair_resume_state_command())
        .push(fork_command())
        .push(archive_command())
        .push(unarchive_command())
        .push(copy_session_id_command())
        .push(copy_cwd_command())
        .push(copy_rollout_path_command())
        .push(copy_deeplink_command())
        .push(compact_command())
        .push(rollback_command())
        .push(migrate_command())
        .push(smart_command())
        .push(distill_command())
        .push(first_token_preview_command())
}

/// The commands of the program.
pub fn list_commands() -> (out: Vec<CommandSpec>)
    ensures
        lists(out@, cli_graph()),
{
    let mut commands: Vec<CommandSpec> = Vec::new();
    assert(commands_of(commands@) =~= Seq::<CommandSpecView>::empty());
    push_command(
        &mut commands,
        CommandSpec {
            name: "show",
            about: "Inspect derived metadata for a session rollout",
            aliases: no_names(),
            args: list_show_args(),
        },
    );
    push_command(
        &mut commands,
        CommandSpec {
            name: "rename",
            about: "Rename a thread by appending a new session index entry",
            aliases: no_names(),
            args: list_rename_args(),
        },
    );
    push_command(
        &mut commands,
        CommandSpec {
            name: "repair",
            about: "Reconcile SQLite metadata from a rollout file",
            aliases: no_names(),
            args: list_target_args(),
        },
    );
    push_command(
        &mut commands,
        CommandSpec {
            name: "rewrite-meta",
            about: "Rewrite only the first SessionMeta record in a rollout",
            aliases: no_names(),
            args: list_rewrite_meta_args(),
        },
    );
    push_command(
        &mut commands,
        CommandSpec {
            name: "repair-resume-state",
            about: "Rewrite persisted resume/fork window hints in rollout events",
            aliases: names_of_1("repair-window"),
            args: list_repair_resume_state_args(),
        },
    );
    push_command(
        &mut commands,
        CommandSpec {
            name: "fork",
            about: "Fork a session using Codex's native thread manager",
            aliases: no_names(),
            args: list_fork_args(),
        },
    );
    push_command(
        &mut commands,
        CommandSpec {
            name: "archive",
            about: "Move an active rollout into archived storage",
            aliases: no_names(),
            args: list_target_args(),
        },
    );
    push_command(
        &mut commands,
        CommandSpec {
            name: "unarchive",
            about: "Restore an archived rollout back into active storage",
            aliases: names_of_1("restore"),
            args: list_target_args(),
        },
    );
    push_command(
        &mut commands,
        CommandSpec {
            name: "copy-session-id",
            about: "Copy the resolved thread id",
            aliases: names_of_2("copy-thread-id", "copy-id"),
            args: list_target_args(),
        },
    );
    push_command(
        &mut commands,
        CommandSpec {
            name: "copy-cwd",
            about: "Copy the session cwd recorded in SessionMeta",
            aliases: no_names(),
            args: list_target_args(),
        },
    );
    push_command(
        &mut commands,
        CommandSpec {
            name: "copy-rollout-path",
            about: "Copy the resolved rollout path",
            aliases: names_of_1("copy-path"),
            args: list_target_args(),
        },
    );
    push_command(
        &mut commands,
        CommandSpec {
            name: "copy-deeplink",
            about: "Copy the canonical `codex resume ...` command",
            aliases: names_of_1("copy-resume-command"),
            args: list_target_args(),
        },
    );
    push_command(
        &mut commands,
        CommandSpec {
            name: "compact",
            about: "Trigger native Codex compaction for an active session",
            aliases: no_names(),
            args: list_compact_args(),
        },
    );
    push_command(
        &mut commands,
        CommandSpec {
            name: "rollback",
            about: "Drop the last N user turns using native Codex rollback",
            aliases: no_names(),
            args: list_rollback_args(),
        },
    );
    push_command(
        &mut commands,
        CommandSpec {
            name: "migrate",
            about: "Compact if needed, then fork into a new provider/model/runtime shape",
            aliases: no_names(),
            args: list_migrate_args(),
        },
    );
    push_command(
        &mut commands,
        CommandSpec {
            name: "smart",
            about: "Interactive smart provider/model switch workflow",
            aliases: no_names(),
            args: list_smart_args(),
        },
    );
    push_command(
        &mut commands,
        CommandSpec {
            name: "distill",
            about: "Distill a heavy session into a lighter successor session",
            aliases: no_names(),
            args: list_distill_args(),
        },
    );
    push_command(
        &mut commands,
        CommandSpec {
            name: "first-token-preview",
            about: "Preview what the model is shown when the session goes on",
            aliases: no_names(),
            args: list_first_token_preview_args(),
        },
    );
    commands
}

/// The position of a command in the graph, by its name.
pub open spec fn named_at(graph: Seq<CommandSpecView>, name: Seq<char>, at: int) -> bool {
    0 <= at < graph.len() && graph[at].name == name && forall|i: int|
        0 <= i < at ==> (#[trigger] graph[i]).name != name
}

/// The command of a name, if there is one.
pub open spec fn command_named(name: Seq<char>) -> Option<CommandSpecView> {
    if exists|at: int| named_at(cli_graph(), name, at) {
        Some(cli_graph()[choose|at: int| named_at(cli_graph(), name, at)])
    } else {
        None
    }
}

/// The arguments of a command, if there is one of that name.
pub fn find_command_args(name: &str) -> (out: Option<Vec<ArgSpec>>)
    ensures
        match command_named(name@) {
            Some(command) => out matches Some(args) && specs(args@) == command.args,
            None => out is None,
        },
{
    let commands = list_commands();
    let ghost graph = cli_graph();
    for i in 0..commands.len()
        invariant
            graph == cli_graph(),
            commands_of(commands@) == graph,
            forall|j: int| 0 <= j < i ==> (#[trigger] graph[j]).name != name@,
    {
        assert(graph[i as int] == commands@[i as int]@);
        if same_text(commands[i].name, name) {
            proof {
                assert(named_at(graph, name@, i as int));
                let other = choose|at: int| named_at(graph, name@, at);
                assert(named_at(graph, name@, other));
                if other < i {
                    assert(graph[other].name != name@);
                } else if other > i {
                    assert(graph[i as int].name != name@);
                }
            }
            return Some(copy_args(&commands[i].args));
        }
    }
    assert(!exists|at: int| named_at(graph, name@, at));
    None
}

fn copy_args(args: &Vec<ArgSpec>) -> (out: Vec<ArgSpec>)
    ensures
        specs(out@) == specs(args@),
{
    let mut out: Vec<ArgSpec> = Vec::new();
    for i in 0..args.len()
        invariant
            out@ == args@.take(i as int),
    {
        out.push(args[i]);
        assert(args@.take(i as int).push(args@[i as int]) =~= args@.take(i + 1));
    }
    assert(args@.take(args@.len() as int) =~= args@);
    out
}

/// Every command takes a session, which has to be given, and a profile to look it
/// up with.
pub proof fn every_command_takes_a_session(at: int)
    requires
        0 <= at < cli_graph().len(),
    ensures
        ({
            let args = cli_graph()[at].args;
            &&& args.len() >= 2
            &&& args[0].id == "target"@ && args[0].required && args[0].kind == ArgKind::Text
                && args[0].long is None
            &&& args[1].id == "config_profile"@ && !args[1].required && args[1].kind
                == ArgKind::Text && args[1].long == Some("profile"@) && args[1].short == Some('p')
        }),
{
}

/// What is left out has these values: five minutes for an operation and one for a
/// rollback, three compactions, and a distillation that is balanced, written by
/// Codex and keeps eight turns.
pub proof fn left_out_arguments_have_these_values()
    ensures
        compact_args()[2].id == "timeout_secs"@ && compact_args()[2].default_value == Some("300"@),
        rollback_args()[2].id == "num_turns"@ && rollback_args()[2].required,
        rollback_args()[3].id == "timeout_secs"@ && rollback_args()[3].default_value == Some("60"@),
        migrate_args()[11].id == "max_pre_compactions"@ && migrate_args()[11].default_value == Some(
            "3"@,
        ),
        migrate_args()[13].id == "timeout_secs"@ && migrate_args()[13].default_value == Some(
            "300"@,
        ),
        smart_args()[4].id == "max_pre_compactions"@ && smart_args()[4].default_value == Some("3"@),
        smart_args()[5].id == "timeout_secs"@ && smart_args()[5].default_value == Some("300"@),
        distill_args()[6].id == "distill_mode"@ && distill_args()[6].default_value == Some(
            "codex"@,
        ),
        distill_args()[7].id == "compression_level"@ && distill_args()[7].default_value == Some(
            "balanced"@,
        ),
        distill_args()[14].id == "recent_turns"@ && distill_args()[14].default_value == Some("8"@),
        distill_args()[15].id == "timeout_secs"@ && distill_args()[15].default_value == Some(
            "300"@,
        ),
        rename_args()[2].id == "name"@ && rename_args()[2].required,
        rewrite_meta_args()[4].id == "memory_mode"@ && rewrite_meta_args()[4].conflicts_with
            == Some("clear_memory_mode"@),
{
}

} // verus!
