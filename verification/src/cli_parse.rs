//! Parsing the command line: `clap` reads the arguments by the command graph,
//! and what it found becomes a [`Cli`].

use vstd::prelude::*;

use crate::cli;
use crate::cli::Cli;
use crate::cli::CliView;
use crate::cli::Command;
use crate::cli::CommandView;
use crate::cli::CompactArgs;
use crate::cli::CompactArgsView;
use crate::cli::DistillArgs;
use crate::cli::DistillArgsView;
use crate::cli::DistillCompressionLevel;
use crate::cli::DistillMode;
use crate::cli::FirstTokenPreviewArgs;
use crate::cli::FirstTokenPreviewArgsView;
use crate::cli::ForkArgs;
use crate::cli::ForkArgsView;
use crate::cli::MigrateArgs;
use crate::cli::MigrateArgsView;
use crate::cli::RenameArgs;
use crate::cli::RenameArgsView;
use crate::cli::RepairResumeStateArgs;
use crate::cli::RepairResumeStateArgsView;
use crate::cli::RewriteMetaArgs;
use crate::cli::RewriteMetaArgsView;
use crate::cli::RollbackArgs;
use crate::cli::RollbackArgsView;
use crate::cli::ShowArgs;
use crate::cli::ShowArgsView;
use crate::cli::SmartArgs;
use crate::cli::SmartArgsView;
use crate::cli::TargetArgs;
use crate::cli::TargetArgsView;
use crate::cli_graph;
use crate::cli_graph::ArgKind;
use crate::cli_graph::ArgSpec;
use crate::cli_graph::ArgSpecView;
use crate::cli_graph::CommandSpec;
use crate::cli_graph::CommandSpecView;
use crate::cli_graph::find_command_args;
use crate::cli_graph::list_commands;
use crate::text;
use crate::text::cat2;
use crate::text::cat3;
use crate::text::cat5;
use crate::text::opt_or;
use crate::text::same_text;

use clap::Command as ClapCommand;

verus! {

/// The value of an argument, as `clap` hands it out.
#[derive(Debug, PartialEq, Eq)]
pub enum ArgValue {
    Text { text: String },
    Path { path: String },
    Flag { on: bool },
    I64 { signed: i64 },
    U32 { small: u32 },
    U64 { large: u64 },
    Usize { size: usize },
}

/// What a [`ArgValue`] stands for.
pub enum ArgValueView {
    Text { text: Seq<char> },
    Path { path: Seq<char> },
    Flag { on: bool },
    I64 { signed: i64 },
    U32 { small: u32 },
    U64 { large: u64 },
    Usize { size: usize },
}

impl View for ArgValue {
    type V = ArgValueView;

    open spec fn view(&self) -> ArgValueView {
        match *self {
            ArgValue::Text { text } => ArgValueView::Text { text: text@ },
            ArgValue::Path { path } => ArgValueView::Path { path: path@ },
            ArgValue::Flag { on } => ArgValueView::Flag { on },
            ArgValue::I64 { signed } => ArgValueView::I64 { signed },
            ArgValue::U32 { small } => ArgValueView::U32 { small },
            ArgValue::U64 { large } => ArgValueView::U64 { large },
            ArgValue::Usize { size } => ArgValueView::Usize { size },
        }
    }
}

impl DeepView for ArgValue {
    type V = ArgValueView;

    open spec fn deep_view(&self) -> ArgValueView {
        self@
    }
}

impl Clone for ArgValue {
    fn clone(&self) -> (out: Self)
        ensures
            out@ == self@,
    {
        match self {
            ArgValue::Text { text } => ArgValue::Text { text: text.clone() },
            ArgValue::Path { path } => ArgValue::Path { path: path.clone() },
            ArgValue::Flag { on } => ArgValue::Flag { on: *on },
            ArgValue::I64 { signed } => ArgValue::I64 { signed: *signed },
            ArgValue::U32 { small } => ArgValue::U32 { small: *small },
            ArgValue::U64 { large } => ArgValue::U64 { large: *large },
            ArgValue::Usize { size } => ArgValue::Usize { size: *size },
        }
    }
}

/// An argument that has a value.
#[derive(Debug, PartialEq, Eq)]
pub struct ParsedArg {
    pub id: String,
    pub value: ArgValue,
}

/// What a [`ParsedArg`] stands for.
pub struct ParsedArgView {
    pub id: Seq<char>,
    pub value: ArgValueView,
}

impl View for ParsedArg {
    type V = ParsedArgView;

    open spec fn view(&self) -> ParsedArgView {
        ParsedArgView {
            id: self.id@,
            value: self.value@,
        }
    }
}

impl DeepView for ParsedArg {
    type V = ParsedArgView;

    open spec fn deep_view(&self) -> ParsedArgView {
        self@
    }
}

impl Clone for ParsedArg {
    fn clone(&self) -> (out: Self)
        ensures
            out@ == self@,
    {
        ParsedArg {
            id: self.id.clone(),
            value: self.value.clone(),
        }
    }
}

/// A command with the arguments that have a value.
#[derive(Debug, PartialEq, Eq)]
pub struct ParsedCommand {
    pub name: String,
    pub args: Vec<ParsedArg>,
}

/// What a [`ParsedCommand`] stands for.
pub struct ParsedCommandView {
    pub name: Seq<char>,
    pub args: Seq<ParsedArgView>,
}

impl View for ParsedCommand {
    type V = ParsedCommandView;

    open spec fn view(&self) -> ParsedCommandView {
        ParsedCommandView {
            name: self.name@,
            args: self.args.deep_view(),
        }
    }
}

impl DeepView for ParsedCommand {
    type V = ParsedCommandView;

    open spec fn deep_view(&self) -> ParsedCommandView {
        self@
    }
}

impl Clone for ParsedCommand {
    fn clone(&self) -> (out: Self)
        ensures
            out@ == self@,
    {
        let out = ParsedCommand {
            name: self.name.clone(),
            args: self.args.clone(),
        };
        assert(out.args.deep_view() =~= self.args.deep_view());
        out
    }
}

/// Why a command line is refused.
#[derive(Debug, PartialEq, Eq)]
pub enum CliError {
    /// `clap` refuses it, or answers it itself (`--help`).
    Rejected { message: String, to_stderr: bool },
    UnknownCommand { name: String },
    MissingArgument { id: String },
    UnknownChoice { choice_id: String, value: String },
}

/// What a [`CliError`] stands for.
pub enum CliErrorView {
    Rejected { message: Seq<char>, to_stderr: bool },
    UnknownCommand { name: Seq<char> },
    MissingArgument { id: Seq<char> },
    UnknownChoice { choice_id: Seq<char>, value: Seq<char> },
}

impl View for CliError {
    type V = CliErrorView;

    open spec fn view(&self) -> CliErrorView {
        match *self {
            CliError::Rejected { message, to_stderr } => CliErrorView::Rejected {
                message: message@,
                to_stderr,
            },
            CliError::UnknownCommand { name } => CliErrorView::UnknownCommand { name: name@ },
            CliError::MissingArgument { id } => CliErrorView::MissingArgument { id: id@ },
            CliError::UnknownChoice { choice_id, value } => CliErrorView::UnknownChoice {
                choice_id: choice_id@,
                value: value@,
            },
        }
    }
}

impl DeepView for CliError {
    type V = CliErrorView;

    open spec fn deep_view(&self) -> CliErrorView {
        self@
    }
}

impl Clone for CliError {
    fn clone(&self) -> (out: Self)
        ensures
            out@ == self@,
    {
        match self {
            CliError::Rejected { message, to_stderr } => CliError::Rejected {
                message: message.clone(),
                to_stderr: *to_stderr,
            },
            CliError::UnknownCommand { name } => CliError::UnknownCommand { name: name.clone() },
            CliError::MissingArgument { id } => CliError::MissingArgument { id: id.clone() },
            CliError::UnknownChoice { choice_id, value } => CliError::UnknownChoice {
                choice_id: choice_id.clone(),
                value: value.clone(),
            },
        }
    }
}

// ------------------------------------------------------------------------- clap

/// A command under construction, with the arguments and commands it holds.
#[verifier::external_type_specification]
#[verifier::external_body]
pub struct ExCommand(ClapCommand);

/// What was found on a command line: values by argument, and a command with
/// values of its own.
#[verifier::external_type_specification]
#[verifier::external_body]
pub struct ExArgMatches(clap::ArgMatches);

/// The arguments that a command holds, in the order in which they were added.
pub uninterp spec fn command_args(command: ClapCommand) -> Seq<ArgSpecView>;

/// The commands that a command holds, in the order in which they were added.
pub uninterp spec fn command_parts(command: ClapCommand) -> Seq<CommandSpecView>;

/// The name of a command, its description and its further names.
pub uninterp spec fn command_names(command: ClapCommand) -> Seq<Seq<char>>;

/// The values that were found, by the ids of the arguments.
pub uninterp spec fn matched_args(matches: clap::ArgMatches) -> Map<Seq<char>, ArgValueView>;

/// The command that was found, with its values.
pub uninterp spec fn matched_command(matches: clap::ArgMatches) -> Option<
    (Seq<char>, Map<Seq<char>, ArgValueView>),
>;

/// What `clap` makes of a command line under a command graph: the command with
/// its values, or a message and whether it is an error.
pub uninterp spec fn clap_outcome(
    graph: Seq<CommandSpecView>,
    argv: Seq<Seq<char>>,
) -> Result<Option<(Seq<char>, Map<Seq<char>, ArgValueView>)>, (Seq<char>, bool)>;

/// A command that holds everything another one holds, and one argument more.
pub open spec fn has_one_more(out: ClapCommand, command: ClapCommand, spec: ArgSpecView) -> bool {
    &&& command_args(out) == command_args(command).push(spec)
    &&& command_parts(out) == command_parts(command)
    &&& command_names(out) == command_names(command)
}

/// Calls `Command::new` and `Command::about`: a command with a name and a
/// description that holds nothing yet.
#[verifier::external_body]
fn new_command(name: &'static str, about: &'static str) -> (out: ClapCommand)
    ensures
        command_names(out) == Seq::<Seq<char>>::empty().push(name@).push(about@),
        command_args(out) == Seq::<ArgSpecView>::empty(),
        command_parts(out) == Seq::<CommandSpecView>::empty(),
{
    clap::Command::new(name).about(about)
}

/// Calls `Command::alias`: a hidden name more.
#[verifier::external_body]
fn with_alias(command: ClapCommand, alias: &'static str) -> (out: ClapCommand)
    ensures
        command_names(out) == command_names(command).push(alias@),
        command_args(out) == command_args(command),
        command_parts(out) == command_parts(command),
{
    command.alias(alias)
}

/// Calls `Command::subcommand`: a command more.
#[verifier::external_body]
fn with_part(command: ClapCommand, part: ClapCommand) -> (out: ClapCommand)
    requires
        command_names(part).len() >= 2,
        command_parts(part).len() == 0,
    ensures
        command_parts(out) == command_parts(command).push(
            (CommandSpecView {
                name: command_names(part)[0],
                about: command_names(part)[1],
                aliases: command_names(part).skip(2),
                args: command_args(part),
            }),
        ),
        command_args(out) == command_args(command),
        command_names(out) == command_names(command),
{
    command.subcommand(part)
}

/// Calls `Command::arg` with a flag.
#[verifier::external_body]
fn with_flag(command: ClapCommand, spec: &ArgSpec) -> (out: ClapCommand)
    requires
        spec.kind == ArgKind::Flag,
        spec.short != Some('-'),
    ensures
        has_one_more(out, command, spec@),
{
    command.arg(
        clap::Arg::new(spec.id).short(spec.short).long(spec.long).value_name(spec.value_name)
            .help(spec.help).required(spec.required).default_value(spec.default_value)
            .conflicts_with_all(spec.conflicts_with).action(clap::ArgAction::SetTrue),
    )
}

/// Calls `Command::arg` with an argument that takes a text.
#[verifier::external_body]
fn with_text(command: ClapCommand, spec: &ArgSpec) -> (out: ClapCommand)
    requires
        spec.kind == ArgKind::Text,
        spec.short != Some('-'),
    ensures
        has_one_more(out, command, spec@),
{
    command.arg(
        clap::Arg::new(spec.id).short(spec.short).long(spec.long).value_name(spec.value_name)
            .help(spec.help).required(spec.required).default_value(spec.default_value)
            .conflicts_with_all(spec.conflicts_with).action(clap::ArgAction::Set)
            .value_parser(clap::builder::ValueParser::string()),
    )
}

/// Calls `Command::arg` with an argument that takes a path.
#[verifier::external_body]
fn with_path(command: ClapCommand, spec: &ArgSpec) -> (out: ClapCommand)
    requires
        spec.kind == ArgKind::Path,
        spec.short != Some('-'),
    ensures
        has_one_more(out, command, spec@),
{
    command.arg(
        clap::Arg::new(spec.id).short(spec.short).long(spec.long).value_name(spec.value_name)
            .help(spec.help).required(spec.required).default_value(spec.default_value)
            .conflicts_with_all(spec.conflicts_with).action(clap::ArgAction::Set)
            .value_parser(clap::builder::ValueParser::path_buf()),
    )
}

/// Calls `Command::arg` with an argument that takes an `i64`.
#[verifier::external_body]
fn with_i64(command: ClapCommand, spec: &ArgSpec) -> (out: ClapCommand)
    requires
        spec.kind == ArgKind::I64,
        spec.short != Some('-'),
    ensures
        has_one_more(out, command, spec@),
{
    command.arg(
        clap::Arg::new(spec.id).short(spec.short).long(spec.long).value_name(spec.value_name)
            .help(spec.help).required(spec.required).default_value(spec.default_value)
            .conflicts_with_all(spec.conflicts_with).action(clap::ArgAction::Set)
            .value_parser(clap::builder::RangedI64ValueParser::<i64>::new()),
    )
}

/// Calls `Command::arg` with an argument that takes a `u32`.
#[verifier::external_body]
fn with_u32(command: ClapCommand, spec: &ArgSpec) -> (out: ClapCommand)
    requires
        spec.kind == ArgKind::U32,
        spec.short != Some('-'),
    ensures
        has_one_more(out, command, spec@),
{
    let range = i64::from(u32::MIN)..=i64::from(u32::MAX);
    command.arg(
        clap::Arg::new(spec.id).short(spec.short).long(spec.long).value_name(spec.value_name)
            .help(spec.help).required(spec.required).default_value(spec.default_value)
            .conflicts_with_all(spec.conflicts_with).action(clap::ArgAction::Set)
            .value_parser(clap::builder::RangedI64ValueParser::<u32>::new().range(range)),
    )
}

/// Calls `Command::arg` with an argument that takes a `u64`.
#[verifier::external_body]
fn with_u64(command: ClapCommand, spec: &ArgSpec) -> (out: ClapCommand)
    requires
        spec.kind == ArgKind::U64,
        spec.short != Some('-'),
    ensures
        has_one_more(out, command, spec@),
{
    command.arg(
        clap::Arg::new(spec.id).short(spec.short).long(spec.long).value_name(spec.value_name)
            .help(spec.help).required(spec.required).default_value(spec.default_value)
            .conflicts_with_all(spec.conflicts_with).action(clap::ArgAction::Set)
            .value_parser(clap::builder::RangedU64ValueParser::<u64>::new()),
    )
}

/// Calls `Command::arg` with an argument that takes a `usize`.
#[verifier::external_body]
fn with_usize(command: ClapCommand, spec: &ArgSpec) -> (out: ClapCommand)
    requires
        spec.kind == ArgKind::Usize,
        spec.short != Some('-'),
    ensures
        has_one_more(out, command, spec@),
{
    command.arg(
        clap::Arg::new(spec.id).short(spec.short).long(spec.long).value_name(spec.value_name)
            .help(spec.help).required(spec.required).default_value(spec.default_value)
            .conflicts_with_all(spec.conflicts_with).action(clap::ArgAction::Set)
            .value_parser(str::parse::<usize>),
    )
}

/// Calls `Command::arg` with an argument that takes one of the names that its
/// kind has.
#[verifier::external_body]
fn with_choice(command: ClapCommand, spec: &ArgSpec, choices: Vec<&'static str>) -> (out:
    ClapCommand)
    requires
        cli_graph::names(choices@) == choices_of(spec.kind),
        choices@.len() > 0,
        spec.short != Some('-'),
    ensures
        has_one_more(out, command, spec@),
{
    command.arg(
        clap::Arg::new(spec.id).short(spec.short).long(spec.long).value_name(spec.value_name)
            .help(spec.help).required(spec.required).default_value(spec.default_value)
            .conflicts_with_all(spec.conflicts_with).action(clap::ArgAction::Set)
            .value_parser(clap::builder::PossibleValuesParser::new(choices)),
    )
}

/// Calls `Command::try_get_matches_from`. What comes back is a function of the
/// command graph and the command line. The call panics on a graph that does not
/// hold together; the graph of this program does.
#[verifier::external_body]
fn match_arguments(command: ClapCommand, argv: &Vec<String>) -> (out: Result<
    clap::ArgMatches,
    (String, bool),
>)
    requires
        is_program(command),
    ensures
        match out {
            Ok(matches) => clap_outcome(command_parts(command), text::texts(argv@)) == Ok::<
                Option<(Seq<char>, Map<Seq<char>, ArgValueView>)>,
                (Seq<char>, bool),
            >(matched_command(matches)),
            Err(refused) => clap_outcome(command_parts(command), text::texts(argv@)) == Err::<
                Option<(Seq<char>, Map<Seq<char>, ArgValueView>)>,
                (Seq<char>, bool),
            >((refused.0@, refused.1)),
        },
{
    command.try_get_matches_from(argv).map_err(|error| (error.to_string(), error.use_stderr()))
}

/// Calls `ArgMatches::subcommand`: the command that was found.
#[verifier::external_body]
fn read_command(matches: &clap::ArgMatches) -> (out: Option<(String, clap::ArgMatches)>)
    ensures
        match out {
            Some((name, values)) => matched_command(*matches) == Some(
                (name@, matched_args(values)),
            ),
            None => matched_command(*matches) is None,
        },
{
    matches.subcommand().map(|(name, values)| (name.to_string(), values.clone()))
}

/// Calls `ArgMatches::try_get_one` for a text: nothing where the argument has
/// none.
#[verifier::external_body]
fn read_text(matches: &clap::ArgMatches, id: &str) -> (out: Option<String>)
    ensures
        match out {
            Some(text) => value_of(matched_args(*matches), id@) == Some(
                ArgValueView::Text { text: text@ },
            ),
            None => !(value_of(matched_args(*matches), id@) matches Some(ArgValueView::Text { .. })),
        },
{
    matches.try_get_one::<String>(id).ok().flatten().cloned()
}

/// Calls `ArgMatches::try_get_one` for a path, and prints it.
#[verifier::external_body]
fn read_path(matches: &clap::ArgMatches, id: &str) -> (out: Option<String>)
    ensures
        match out {
            Some(path) => value_of(matched_args(*matches), id@) == Some(
                ArgValueView::Path { path: path@ },
            ),
            None => !(value_of(matched_args(*matches), id@) matches Some(ArgValueView::Path { .. })),
        },
{
    let path = matches.try_get_one::<std::path::PathBuf>(id).ok().flatten();
    path.map(|path| path.display().to_string())
}

/// Calls `ArgMatches::try_get_one` for a flag.
#[verifier::external_body]
fn read_flag(matches: &clap::ArgMatches, id: &str) -> (out: Option<bool>)
    ensures
        match out {
            Some(on) => value_of(matched_args(*matches), id@) == Some(ArgValueView::Flag { on }),
            None => !(value_of(matched_args(*matches), id@) matches Some(ArgValueView::Flag { .. })),
        },
{
    matches.try_get_one::<bool>(id).ok().flatten().copied()
}

/// Calls `ArgMatches::try_get_one` for an `i64`.
#[verifier::external_body]
fn read_i64(matches: &clap::ArgMatches, id: &str) -> (out: Option<i64>)
    ensures
        match out {
            Some(signed) => value_of(matched_args(*matches), id@) == Some(
                ArgValueView::I64 { signed },
            ),
            None => !(value_of(matched_args(*matches), id@) matches Some(ArgValueView::I64 { .. })),
        },
{
    matches.try_get_one::<i64>(id).ok().flatten().copied()
}

/// Calls `ArgMatches::try_get_one` for a `u32`.
#[verifier::external_body]
fn read_u32(matches: &clap::ArgMatches, id: &str) -> (out: Option<u32>)
    ensures
        match out {
            Some(small) => value_of(matched_args(*matches), id@) == Some(
                ArgValueView::U32 { small },
            ),
            None => !(value_of(matched_args(*matches), id@) matches Some(ArgValueView::U32 { .. })),
        },
{
    matches.try_get_one::<u32>(id).ok().flatten().copied()
}

/// Calls `ArgMatches::try_get_one` for a `u64`.
#[verifier::external_body]
fn read_u64(matches: &clap::ArgMatches, id: &str) -> (out: Option<u64>)
    ensures
        match out {
            Some(large) => value_of(matched_args(*matches), id@) == Some(
                ArgValueView::U64 { large },
            ),
            None => !(value_of(matched_args(*matches), id@) matches Some(ArgValueView::U64 { .. })),
        },
{
    matches.try_get_one::<u64>(id).ok().flatten().copied()
}

/// Calls `ArgMatches::try_get_one` for a `usize`.
#[verifier::external_body]
fn read_usize(matches: &clap::ArgMatches, id: &str) -> (out: Option<usize>)
    ensures
        match out {
            Some(size) => value_of(matched_args(*matches), id@) == Some(
                ArgValueView::Usize { size },
            ),
            None => !(value_of(matched_args(*matches), id@) matches Some(ArgValueView::Usize { .. })),
        },
{
    matches.try_get_one::<usize>(id).ok().flatten().copied()
}

/// The value of an argument, if there is one.
pub open spec fn value_of(values: Map<Seq<char>, ArgValueView>, id: Seq<char>) -> Option<
    ArgValueView,
> {
    if values.contains_key(id) {
        Some(values[id])
    } else {
        None
    }
}

// ------------------------------------------------------------------ the command graph

/// The names that an argument of a kind can take, where it takes names.
pub open spec fn choices_of(kind: ArgKind) -> Seq<Seq<char>> {
    match kind {
        ArgKind::Mode => Seq::<Seq<char>>::empty().push("codex"@).push("deterministic"@),
        ArgKind::Level => Seq::<Seq<char>>::empty().push("lossless"@).push("balanced"@).push(
            "aggressive"@,
        ),
        _ => Seq::empty(),
    }
}

/// The command of the whole program.
pub open spec fn is_program(command: ClapCommand) -> bool {
    &&& command_parts(command) == cli_graph::cli_graph()
    &&& command_args(command) == Seq::<ArgSpecView>::empty()
    &&& command_names(command) == Seq::<Seq<char>>::empty().push("codex-session-manager"@).push(
        "Low-level Codex session and rollout manager"@,
    )
}

fn with_argument(command: ClapCommand, spec: &ArgSpec) -> (out: ClapCommand)
    requires
        spec.short != Some('-'),
    ensures
        has_one_more(out, command, spec@),
{
    match spec.kind {
        ArgKind::Flag => with_flag(command, spec),
        ArgKind::Text => with_text(command, spec),
        ArgKind::Path => with_path(command, spec),
        ArgKind::I64 => with_i64(command, spec),
        ArgKind::U32 => with_u32(command, spec),
        ArgKind::U64 => with_u64(command, spec),
        ArgKind::Usize => with_usize(command, spec),
        ArgKind::Mode => {
            let mut choices: Vec<&'static str> = Vec::new();
            choices.push("codex");
            choices.push("deterministic");
            assert(cli_graph::names(choices@) =~= choices_of(ArgKind::Mode));
            with_choice(command, spec, choices)
        },
        ArgKind::Level => {
            let mut choices: Vec<&'static str> = Vec::new();
            choices.push("lossless");
            choices.push("balanced");
            choices.push("aggressive");
            assert(cli_graph::names(choices@) =~= choices_of(ArgKind::Level));
            with_choice(command, spec, choices)
        },
    }
}

/// No argument has a dash for a short name.
pub open spec fn short_names_are_sound(args: Seq<ArgSpecView>) -> bool {
    forall|i: int| 0 <= i < args.len() ==> (#[trigger] args[i]).short != Some('-')
}

fn build_command(spec: &CommandSpec) -> (out: ClapCommand)
    requires
        short_names_are_sound(spec@.args),
    ensures
        command_names(out) == Seq::<Seq<char>>::empty().push(spec@.name).push(spec@.about)
            + spec@.aliases,
        command_args(out) == spec@.args,
        command_parts(out) == Seq::<CommandSpecView>::empty(),
{
    let mut command = new_command(spec.name, spec.about);
    let ghost title = command_names(command);
    assert(title + spec@.aliases.take(0) =~= title);
    for i in 0..spec.aliases.len()
        invariant
            command_names(command) == title + spec@.aliases.take(i as int),
            command_args(command) == Seq::<ArgSpecView>::empty(),
            command_parts(command) == Seq::<CommandSpecView>::empty(),
    {
        assert(spec@.aliases[i as int] == spec.aliases@[i as int]@);
        command = with_alias(command, spec.aliases[i]);
        assert((title + spec@.aliases.take(i as int)).push(spec@.aliases[i as int]) =~= title
            + spec@.aliases.take(i + 1));
    }
    assert(spec@.aliases.take(spec@.aliases.len() as int) =~= spec@.aliases);
    assert(spec@.args.take(0) =~= Seq::<ArgSpecView>::empty());
    for i in 0..spec.args.len()
        invariant
            short_names_are_sound(spec@.args),
            command_names(command) == title + spec@.aliases,
            command_args(command) == spec@.args.take(i as int),
            command_parts(command) == Seq::<CommandSpecView>::empty(),
    {
        assert(spec@.args[i as int] == spec.args@[i as int]@);
        command = with_argument(command, &spec.args[i]);
        assert(spec@.args.take(i as int).push(spec@.args[i as int]) =~= spec@.args.take(i + 1));
    }
    assert(spec@.args.take(spec@.args.len() as int) =~= spec@.args);
    command
}

proof fn target_short_names_are_sound()
    ensures
        short_names_are_sound(cli_graph::target_args()),
{
}

proof fn graph_short_names_are_sound(at: int)
    requires
        0 <= at < cli_graph::cli_graph().len(),
    ensures
        short_names_are_sound(cli_graph::cli_graph()[at].args),
{
    target_short_names_are_sound();
}

// -------------------------------------------------------------------- reading values

/// The value of an argument of a kind.
pub open spec fn read_as(
    values: Map<Seq<char>, ArgValueView>,
    id: Seq<char>,
    kind: ArgKind,
) -> Option<ArgValueView> {
    match (kind, value_of(values, id)) {
        (ArgKind::Flag, Some(ArgValueView::Flag { on })) => Some(ArgValueView::Flag { on }),
        (ArgKind::Text, Some(ArgValueView::Text { text })) => Some(ArgValueView::Text { text }),
        (ArgKind::Mode, Some(ArgValueView::Text { text })) => Some(ArgValueView::Text { text }),
        (ArgKind::Level, Some(ArgValueView::Text { text })) => Some(ArgValueView::Text { text }),
        (ArgKind::Path, Some(ArgValueView::Path { path })) => Some(ArgValueView::Path { path }),
        (ArgKind::I64, Some(ArgValueView::I64 { signed })) => Some(ArgValueView::I64 { signed }),
        (ArgKind::U32, Some(ArgValueView::U32 { small })) => Some(ArgValueView::U32 { small }),
        (ArgKind::U64, Some(ArgValueView::U64 { large })) => Some(ArgValueView::U64 { large }),
        (ArgKind::Usize, Some(ArgValueView::Usize { size })) => Some(
            ArgValueView::Usize { size },
        ),
        _ => None,
    }
}

fn read_value(matches: &clap::ArgMatches, id: &str, kind: ArgKind) -> (out: Option<ArgValue>)
    ensures
        out.deep_view() == read_as(matched_args(*matches), id@, kind),
{
    match kind {
        ArgKind::Flag => match read_flag(matches, id) {
            Some(on) => Some(ArgValue::Flag { on }),
            None => None,
        },
        ArgKind::Text | ArgKind::Mode | ArgKind::Level => match read_text(matches, id) {
            Some(text) => Some(ArgValue::Text { text }),
            None => None,
        },
        ArgKind::Path => match read_path(matches, id) {
            Some(path) => Some(ArgValue::Path { path }),
            None => None,
        },
        ArgKind::I64 => match read_i64(matches, id) {
            Some(signed) => Some(ArgValue::I64 { signed }),
            None => None,
        },
        ArgKind::U32 => match read_u32(matches, id) {
            Some(small) => Some(ArgValue::U32 { small }),
            None => None,
        },
        ArgKind::U64 => match read_u64(matches, id) {
            Some(large) => Some(ArgValue::U64 { large }),
            None => None,
        },
        ArgKind::Usize => match read_usize(matches, id) {
            Some(size) => Some(ArgValue::Usize { size }),
            None => None,
        },
    }
}

/// The arguments that have a value, in the order of the graph.
pub open spec fn gathered(
    args: Seq<ArgSpecView>,
    values: Map<Seq<char>, ArgValueView>,
) -> Seq<ParsedArgView>
    decreases args.len(),
{
    if args.len() == 0 {
        Seq::empty()
    } else {
        let rest = gathered(args.drop_last(), values);
        match read_as(values, args.last().id, args.last().kind) {
            Some(value) => rest.push(ParsedArgView { id: args.last().id, value }),
            None => rest,
        }
    }
}

fn gather_args(matches: &clap::ArgMatches, args: &Vec<ArgSpec>) -> (out: Vec<ParsedArg>)
    ensures
        out.deep_view() == gathered(cli_graph::specs(args@), matched_args(*matches)),
{
    let mut out: Vec<ParsedArg> = Vec::new();
    let ghost all = cli_graph::specs(args@);
    let ghost values = matched_args(*matches);
    assert(out.deep_view() =~= Seq::<ParsedArgView>::empty());
    for i in 0..args.len()
        invariant
            all == cli_graph::specs(args@),
            values == matched_args(*matches),
            out.deep_view() == gathered(all.take(i as int), values),
    {
        assert(all.take(i + 1).drop_last() =~= all.take(i as int));
        assert(all.take(i + 1).last() == args@[i as int]@);
        let ghost before = out.deep_view();
        if let Some(value) = read_value(matches, args[i].id, args[i].kind) {
            let arg = ParsedArg { id: args[i].id.to_owned(), value };
            let ghost added = arg@;
            out.push(arg);
            assert(out.deep_view() =~= before.push(added));
        }
    }
    assert(all.take(all.len() as int) =~= all);
    out
}

/// A command with its values as a plain value.
pub open spec fn parsed_of(
    found: Option<(Seq<char>, Map<Seq<char>, ArgValueView>)>,
) -> Option<ParsedCommandView> {
    match found {
        Some((name, values)) => Some(
            ParsedCommandView {
                name,
                args: match cli_graph::command_named(name) {
                    Some(command) => gathered(command.args, values),
                    None => Seq::empty(),
                },
            },
        ),
        None => None,
    }
}

fn read_matches(matches: &clap::ArgMatches) -> (out: Option<ParsedCommand>)
    ensures
        out.deep_view() == parsed_of(matched_command(*matches)),
{
    match read_command(matches) {
        Some((name, values)) => {
            let args = match find_command_args(name.as_str()) {
                Some(args) => gather_args(&values, &args),
                None => {
                    let args: Vec<ParsedArg> = Vec::new();
                    assert(args.deep_view() =~= Seq::<ParsedArgView>::empty());
                    args
                },
            };
            Some(ParsedCommand { name, args })
        },
        None => None,
    }
}

// --------------------------------------------------------------- from values to commands

/// The value that a list of arguments gives to an id, the first one if several
/// do.
pub open spec fn arg_value(args: Seq<ParsedArgView>, id: Seq<char>) -> Option<ArgValueView>
    decreases args.len(),
{
    if args.len() == 0 {
        None
    } else if args[0].id == id {
        Some(args[0].value)
    } else {
        arg_value(args.skip(1), id)
    }
}

fn find_value<'a>(args: &'a Vec<ParsedArg>, id: &str) -> (out: Option<&'a ArgValue>)
    ensures
        match out {
            Some(value) => arg_value(args.deep_view(), id@) == Some(value@),
            None => arg_value(args.deep_view(), id@) is None,
        },
{
    let ghost all = args.deep_view();
    assert(all.skip(0) =~= all);
    for i in 0..args.len()
        invariant
            all == args.deep_view(),
            arg_value(all, id@) == arg_value(all.skip(i as int), id@),
    {
        assert(all[i as int] == args@[i as int]@);
        assert(all.skip(i as int)[0] == all[i as int]);
        if same_text(args[i].id.as_str(), id) {
            return Some(&args[i].value);
        }
        assert(all.skip(i as int).skip(1) =~= all.skip(i + 1));
    }
    None
}

/// The text of an argument.
pub open spec fn text_value(args: Seq<ParsedArgView>, id: Seq<char>) -> Option<Seq<char>> {
    match arg_value(args, id) {
        Some(ArgValueView::Text { text }) => Some(text),
        _ => None,
    }
}

fn take_text(args: &Vec<ParsedArg>, id: &str) -> (out: Option<String>)
    ensures
        text::opt_text(out) == text_value(args.deep_view(), id@),
{
    match find_value(args, id) {
        Some(ArgValue::Text { text }) => Some(text.clone()),
        _ => None,
    }
}

/// The path of an argument.
pub open spec fn path_value(args: Seq<ParsedArgView>, id: Seq<char>) -> Option<Seq<char>> {
    match arg_value(args, id) {
        Some(ArgValueView::Path { path }) => Some(path),
        _ => None,
    }
}

fn take_path(args: &Vec<ParsedArg>, id: &str) -> (out: Option<String>)
    ensures
        text::opt_text(out) == path_value(args.deep_view(), id@),
{
    match find_value(args, id) {
        Some(ArgValue::Path { path }) => Some(path.clone()),
        _ => None,
    }
}

/// Whether a flag is on.
pub open spec fn flag_value(args: Seq<ParsedArgView>, id: Seq<char>) -> Option<bool> {
    match arg_value(args, id) {
        Some(ArgValueView::Flag { on }) => Some(on),
        _ => None,
    }
}

fn take_flag(args: &Vec<ParsedArg>, id: &str) -> (out: Option<bool>)
    ensures
        out == flag_value(args.deep_view(), id@),
{
    match find_value(args, id) {
        Some(ArgValue::Flag { on }) => Some(*on),
        _ => None,
    }
}

/// The number of an argument.
pub open spec fn i64_value(args: Seq<ParsedArgView>, id: Seq<char>) -> Option<i64> {
    match arg_value(args, id) {
        Some(ArgValueView::I64 { signed }) => Some(signed),
        _ => None,
    }
}

fn take_i64(args: &Vec<ParsedArg>, id: &str) -> (out: Option<i64>)
    ensures
        out == i64_value(args.deep_view(), id@),
{
    match find_value(args, id) {
        Some(ArgValue::I64 { signed }) => Some(*signed),
        _ => None,
    }
}

/// The number of an argument.
pub open spec fn u32_value(args: Seq<ParsedArgView>, id: Seq<char>) -> Option<u32> {
    match arg_value(args, id) {
        Some(ArgValueView::U32 { small }) => Some(small),
        _ => None,
    }
}

fn take_u32(args: &Vec<ParsedArg>, id: &str) -> (out: Option<u32>)
    ensures
        out == u32_value(args.deep_view(), id@),
{
    match find_value(args, id) {
        Some(ArgValue::U32 { small }) => Some(*small),
        _ => None,
    }
}

/// The number of an argument.
pub open spec fn u64_value(args: Seq<ParsedArgView>, id: Seq<char>) -> Option<u64> {
    match arg_value(args, id) {
        Some(ArgValueView::U64 { large }) => Some(large),
        _ => None,
    }
}

fn take_u64(args: &Vec<ParsedArg>, id: &str) -> (out: Option<u64>)
    ensures
        out == u64_value(args.deep_view(), id@),
{
    match find_value(args, id) {
        Some(ArgValue::U64 { large }) => Some(*large),
        _ => None,
    }
}

/// The number of an argument.
pub open spec fn usize_value(args: Seq<ParsedArgView>, id: Seq<char>) -> Option<usize> {
    match arg_value(args, id) {
        Some(ArgValueView::Usize { size }) => Some(size),
        _ => None,
    }
}

fn take_usize(args: &Vec<ParsedArg>, id: &str) -> (out: Option<usize>)
    ensures
        out == usize_value(args.deep_view(), id@),
{
    match find_value(args, id) {
        Some(ArgValue::Usize { size }) => Some(*size),
        _ => None,
    }
}


/// A value that has to be there is there.
pub open spec fn has_value(args: Seq<ParsedArgView>, spec: ArgSpecView) -> bool {
    match (spec.kind, arg_value(args, spec.id)) {
        (ArgKind::Flag, Some(ArgValueView::Flag { .. })) => true,
        (ArgKind::Text, Some(ArgValueView::Text { .. })) => true,
        (ArgKind::Mode, Some(ArgValueView::Text { .. })) => true,
        (ArgKind::Level, Some(ArgValueView::Text { .. })) => true,
        (ArgKind::Path, Some(ArgValueView::Path { .. })) => true,
        (ArgKind::I64, Some(ArgValueView::I64 { .. })) => true,
        (ArgKind::U32, Some(ArgValueView::U32 { .. })) => true,
        (ArgKind::U64, Some(ArgValueView::U64 { .. })) => true,
        (ArgKind::Usize, Some(ArgValueView::Usize { .. })) => true,
        _ => false,
    }
}

/// An argument that has a value on every command line: one that has to be
/// given, one with a default value, or a flag.
pub open spec fn always_set(spec: ArgSpecView) -> bool {
    spec.required || spec.default_value is Some || spec.kind == ArgKind::Flag
}

/// The first argument that has to have a value and has none.
pub open spec fn first_missing(specs: Seq<ArgSpecView>, args: Seq<ParsedArgView>) -> Option<
    Seq<char>,
>
    decreases specs.len(),
{
    if specs.len() == 0 {
        None
    } else if always_set(specs[0]) && !has_value(args, specs[0]) {
        Some(specs[0].id)
    } else {
        first_missing(specs.skip(1), args)
    }
}

fn find_missing(specs: &Vec<ArgSpec>, args: &Vec<ParsedArg>) -> (out: Option<String>)
    ensures
        text::opt_text(out) == first_missing(cli_graph::specs(specs@), args.deep_view()),
{
    let ghost all = cli_graph::specs(specs@);
    assert(all.skip(0) =~= all);
    for i in 0..specs.len()
        invariant
            all == cli_graph::specs(specs@),
            first_missing(all, args.deep_view()) == first_missing(
                all.skip(i as int),
                args.deep_view(),
            ),
    {
        assert(all.skip(i as int)[0] == specs@[i as int]@);
        let spec = &specs[i];
        let set = match (spec.kind, find_value(args, spec.id)) {
            (ArgKind::Flag, Some(ArgValue::Flag { .. })) => true,
            (ArgKind::Text, Some(ArgValue::Text { .. })) => true,
            (ArgKind::Mode, Some(ArgValue::Text { .. })) => true,
            (ArgKind::Level, Some(ArgValue::Text { .. })) => true,
            (ArgKind::Path, Some(ArgValue::Path { .. })) => true,
            (ArgKind::I64, Some(ArgValue::I64 { .. })) => true,
            (ArgKind::U32, Some(ArgValue::U32 { .. })) => true,
            (ArgKind::U64, Some(ArgValue::U64 { .. })) => true,
            (ArgKind::Usize, Some(ArgValue::Usize { .. })) => true,
            _ => false,
        };
        assert(set == has_value(args.deep_view(), all[i as int]));
        let needed = spec.required || spec.default_value.is_some() || matches!(
            spec.kind,
            ArgKind::Flag
        );
        if needed && !set {
            return Some(spec.id.to_owned());
        }
        assert(all.skip(i as int).skip(1) =~= all.skip(i + 1));
    }
    None
}

/// A number, zero where there is none.
pub open spec fn or_zero_u32(value: Option<u32>) -> u32 {
    match value {
        Some(value) => value,
        None => 0,
    }
}

fn some_u32(value: Option<u32>) -> (out: u32)
    ensures
        out == or_zero_u32(value),
{
    match value {
        Some(value) => value,
        None => 0,
    }
}

/// A number, zero where there is none.
pub open spec fn or_zero_u64(value: Option<u64>) -> u64 {
    match value {
        Some(value) => value,
        None => 0,
    }
}

fn some_u64(value: Option<u64>) -> (out: u64)
    ensures
        out == or_zero_u64(value),
{
    match value {
        Some(value) => value,
        None => 0,
    }
}

/// A number, zero where there is none.
pub open spec fn or_zero_usize(value: Option<usize>) -> usize {
    match value {
        Some(value) => value,
        None => 0,
    }
}

fn some_usize(value: Option<usize>) -> (out: usize)
    ensures
        out == or_zero_usize(value),
{
    match value {
        Some(value) => value,
        None => 0,
    }
}

/// The mode of a name.
pub open spec fn mode_named(name: Seq<char>) -> Option<DistillMode> {
    if name == "codex"@ {
        Some(DistillMode::Codex)
    } else if name == "deterministic"@ {
        Some(DistillMode::Deterministic)
    } else {
        None
    }
}

/// The mode of a name.
pub fn parse_mode(name: &str) -> (out: Option<DistillMode>)
    ensures
        out == mode_named(name@),
{
    if same_text(name, "codex") {
        Some(DistillMode::Codex)
    } else if same_text(name, "deterministic") {
        Some(DistillMode::Deterministic)
    } else {
        None
    }
}

/// The compression level of a name.
pub open spec fn level_named(name: Seq<char>) -> Option<DistillCompressionLevel> {
    if name == "lossless"@ {
        Some(DistillCompressionLevel::Lossless)
    } else if name == "balanced"@ {
        Some(DistillCompressionLevel::Balanced)
    } else if name == "aggressive"@ {
        Some(DistillCompressionLevel::Aggressive)
    } else {
        None
    }
}

/// The compression level of a name.
pub fn parse_level(name: &str) -> (out: Option<DistillCompressionLevel>)
    ensures
        out == level_named(name@),
{
    if same_text(name, "lossless") {
        Some(DistillCompressionLevel::Lossless)
    } else if same_text(name, "balanced") {
        Some(DistillCompressionLevel::Balanced)
    } else if same_text(name, "aggressive") {
        Some(DistillCompressionLevel::Aggressive)
    } else {
        None
    }
}

/// The names of modes and compression levels read back as what they name, and
/// the command line offers no other names.
pub proof fn choices_read_back(mode: DistillMode, level: DistillCompressionLevel)
    ensures
        mode_named(cli::distill_mode_text(mode)) == Some(mode),
        choices_of(ArgKind::Mode).contains(cli::distill_mode_text(mode)),
        level_named(cli::compression_level_text(level)) == Some(level),
        choices_of(ArgKind::Level).contains(cli::compression_level_text(level)),
        forall|name: Seq<char>|
            #![trigger mode_named(name)]
            choices_of(ArgKind::Mode).contains(name) ==> mode_named(name) is Some,
        forall|name: Seq<char>|
            #![trigger level_named(name)]
            choices_of(ArgKind::Level).contains(name) ==> level_named(name) is Some,
{
    reveal_strlit("codex");
    reveal_strlit("deterministic");
    reveal_strlit("lossless");
    reveal_strlit("balanced");
    reveal_strlit("aggressive");
    let modes = choices_of(ArgKind::Mode);
    assert(modes[0] == "codex"@ && modes[1] == "deterministic"@);
    let levels = choices_of(ArgKind::Level);
    assert(levels[0] == "lossless"@ && levels[1] == "balanced"@ && levels[2] == "aggressive"@);
    assert("lossless"@.len() == 8 && "balanced"@.len() == 8 && "aggressive"@.len() == 10);
    assert("lossless"@[0] == 'l' && "balanced"@[0] == 'b');
}

/// The session that a command works on.
pub open spec fn target_of(args: Seq<ParsedArgView>) -> TargetArgsView {
    TargetArgsView {
        target: text::text_or(text_value(args, "target"@), ""@),
        config_profile: text_value(args, "config_profile"@),
    }
}

fn take_target(args: &Vec<ParsedArg>) -> (out: TargetArgs)
    ensures
        out@ == target_of(args.deep_view()),
{
    TargetArgs {
        target: opt_or(&take_text(args, "target"), ""),
        config_profile: take_text(args, "config_profile"),
    }
}

pub open spec fn show_of(args: Seq<ParsedArgView>) -> ShowArgsView {
    ShowArgsView {
        target: target_of(args),
        json: flag_value(args, "json"@) == Some(true),
    }
}

fn take_show(args: &Vec<ParsedArg>) -> (out: ShowArgs)
    ensures
        out@ == show_of(args.deep_view()),
{
    ShowArgs {
        target: take_target(args),
        json: matches!(take_flag(args, "json"), Some(true)),
    }
}

pub open spec fn rename_of(args: Seq<ParsedArgView>) -> RenameArgsView {
    RenameArgsView {
        target: target_of(args),
        name: text::text_or(text_value(args, "name"@), ""@),
    }
}

fn take_rename(args: &Vec<ParsedArg>) -> (out: RenameArgs)
    ensures
        out@ == rename_of(args.deep_view()),
{
    RenameArgs {
        target: take_target(args),
        name: opt_or(&take_text(args, "name"), ""),
    }
}

pub open spec fn rewrite_meta_of(args: Seq<ParsedArgView>) -> RewriteMetaArgsView {
    RewriteMetaArgsView {
        target: target_of(args),
        provider: text_value(args, "provider"@),
        cwd: path_value(args, "cwd"@),
        memory_mode: text_value(args, "memory_mode"@),
        clear_memory_mode: flag_value(args, "clear_memory_mode"@) == Some(true),
    }
}

fn take_rewrite_meta(args: &Vec<ParsedArg>) -> (out: RewriteMetaArgs)
    ensures
        out@ == rewrite_meta_of(args.deep_view()),
{
    RewriteMetaArgs {
        target: take_target(args),
        provider: take_text(args, "provider"),
        cwd: take_path(args, "cwd"),
        memory_mode: take_text(args, "memory_mode"),
        clear_memory_mode: matches!(take_flag(args, "clear_memory_mode"), Some(true)),
    }
}

pub open spec fn repair_resume_state_of(args: Seq<ParsedArgView>) -> RepairResumeStateArgsView {
    RepairResumeStateArgsView {
        target: target_of(args),
        context_window: i64_value(args, "context_window"@),
        model: text_value(args, "model"@),
        provider: text_value(args, "provider"@),
    }
}

fn take_repair_resume_state(args: &Vec<ParsedArg>) -> (out: RepairResumeStateArgs)
    ensures
        out@ == repair_resume_state_of(args.deep_view()),
{
    RepairResumeStateArgs {
        target: take_target(args),
        context_window: take_i64(args, "context_window"),
        model: take_text(args, "model"),
        provider: take_text(args, "provider"),
    }
}

pub open spec fn fork_of(args: Seq<ParsedArgView>) -> ForkArgsView {
    ForkArgsView {
        target: target_of(args),
        model: text_value(args, "model"@),
        provider: text_value(args, "provider"@),
        context_window: i64_value(args, "context_window"@),
        auto_compact_token_limit: i64_value(args, "auto_compact_token_limit"@),
        write_profile: text_value(args, "write_profile"@),
        thread_name: text_value(args, "thread_name"@),
        persist_extended_history: flag_value(args, "persist_extended_history"@) == Some(true),
        nth_user_message: usize_value(args, "nth_user_message"@),
    }
}

fn take_fork(args: &Vec<ParsedArg>) -> (out: ForkArgs)
    ensures
        out@ == fork_of(args.deep_view()),
{
    ForkArgs {
        target: take_target(args),
        model: take_text(args, "model"),
        provider: take_text(args, "provider"),
        context_window: take_i64(args, "context_window"),
        auto_compact_token_limit: take_i64(args, "auto_compact_token_limit"),
        write_profile: take_text(args, "write_profile"),
        thread_name: take_text(args, "thread_name"),
        persist_extended_history: matches!(take_flag(args, "persist_extended_history"), Some(true)),
        nth_user_message: take_usize(args, "nth_user_message"),
    }
}

pub open spec fn compact_of(args: Seq<ParsedArgView>) -> CompactArgsView {
    CompactArgsView {
        target: target_of(args),
        timeout_secs: or_zero_u64(u64_value(args, "timeout_secs"@)),
    }
}

fn take_compact(args: &Vec<ParsedArg>) -> (out: CompactArgs)
    ensures
        out@ == compact_of(args.deep_view()),
{
    CompactArgs {
        target: take_target(args),
        timeout_secs: some_u64(take_u64(args, "timeout_secs")),
    }
}

pub open spec fn rollback_of(args: Seq<ParsedArgView>) -> RollbackArgsView {
    RollbackArgsView {
        target: target_of(args),
        num_turns: or_zero_u32(u32_value(args, "num_turns"@)),
        timeout_secs: or_zero_u64(u64_value(args, "timeout_secs"@)),
    }
}

fn take_rollback(args: &Vec<ParsedArg>) -> (out: RollbackArgs)
    ensures
        out@ == rollback_of(args.deep_view()),
{
    RollbackArgs {
        target: take_target(args),
        num_turns: some_u32(take_u32(args, "num_turns")),
        timeout_secs: some_u64(take_u64(args, "timeout_secs")),
    }
}

pub open spec fn migrate_of(args: Seq<ParsedArgView>) -> MigrateArgsView {
    MigrateArgsView {
        target: target_of(args),
        model: text_value(args, "model"@),
        provider: text_value(args, "provider"@),
        context_window: i64_value(args, "context_window"@),
        auto_compact_token_limit: i64_value(args, "auto_compact_token_limit"@),
        write_profile: text_value(args, "write_profile"@),
        thread_name: text_value(args, "thread_name"@),
        persist_extended_history: flag_value(args, "persist_extended_history"@) == Some(true),
        nth_user_message: usize_value(args, "nth_user_message"@),
        force_compact: flag_value(args, "force_compact"@) == Some(true),
        max_pre_compactions: or_zero_u32(u32_value(args, "max_pre_compactions"@)),
        archive_source: flag_value(args, "archive_source"@) == Some(true),
        timeout_secs: or_zero_u64(u64_value(args, "timeout_secs"@)),
    }
}

fn take_migrate(args: &Vec<ParsedArg>) -> (out: MigrateArgs)
    ensures
        out@ == migrate_of(args.deep_view()),
{
    MigrateArgs {
        target: take_target(args),
        model: take_text(args, "model"),
        provider: take_text(args, "provider"),
        context_window: take_i64(args, "context_window"),
        auto_compact_token_limit: take_i64(args, "auto_compact_token_limit"),
        write_profile: take_text(args, "write_profile"),
        thread_name: take_text(args, "thread_name"),
        persist_extended_history: matches!(take_flag(args, "persist_extended_history"), Some(true)),
        nth_user_message: take_usize(args, "nth_user_message"),
        force_compact: matches!(take_flag(args, "force_compact"), Some(true)),
        max_pre_compactions: some_u32(take_u32(args, "max_pre_compactions")),
        archive_source: matches!(take_flag(args, "archive_source"), Some(true)),
        timeout_secs: some_u64(take_u64(args, "timeout_secs")),
    }
}

pub open spec fn smart_of(args: Seq<ParsedArgView>) -> SmartArgsView {
    SmartArgsView {
        target: target_of(args),
        write_profile: text_value(args, "write_profile"@),
        archive_source: flag_value(args, "archive_source"@) == Some(true),
        max_pre_compactions: or_zero_u32(u32_value(args, "max_pre_compactions"@)),
        timeout_secs: or_zero_u64(u64_value(args, "timeout_secs"@)),
    }
}

fn take_smart(args: &Vec<ParsedArg>) -> (out: SmartArgs)
    ensures
        out@ == smart_of(args.deep_view()),
{
    SmartArgs {
        target: take_target(args),
        write_profile: take_text(args, "write_profile"),
        archive_source: matches!(take_flag(args, "archive_source"), Some(true)),
        max_pre_compactions: some_u32(take_u32(args, "max_pre_compactions")),
        timeout_secs: some_u64(take_u64(args, "timeout_secs")),
    }
}

pub open spec fn first_token_preview_of(args: Seq<ParsedArgView>) -> FirstTokenPreviewArgsView {
    FirstTokenPreviewArgsView {
        target: target_of(args),
        input: text_value(args, "input"@),
        json: flag_value(args, "json"@) == Some(true),
    }
}

fn take_first_token_preview(args: &Vec<ParsedArg>) -> (out: FirstTokenPreviewArgs)
    ensures
        out@ == first_token_preview_of(args.deep_view()),
{
    FirstTokenPreviewArgs {
        target: take_target(args),
        input: take_text(args, "input"),
        json: matches!(take_flag(args, "json"), Some(true)),
    }
}

pub open spec fn distill_of(
    args: Seq<ParsedArgView>,
    distill_mode: DistillMode,
    compression_level: DistillCompressionLevel,
) -> DistillArgsView {
    DistillArgsView {
        target: target_of(args),
        provider: text_value(args, "provider"@),
        model: text_value(args, "model"@),
        context_window: i64_value(args, "context_window"@),
        auto_compact_token_limit: i64_value(args, "auto_compact_token_limit"@),
        distill_mode,
        compression_level,
        reasoning_effort: text_value(args, "reasoning_effort"@),
        thread_name: text_value(args, "thread_name"@),
        write_profile: text_value(args, "write_profile"@),
        archive_source: flag_value(args, "archive_source"@) == Some(true),
        preview_only: flag_value(args, "preview_only"@) == Some(true),
        json: flag_value(args, "json"@) == Some(true),
        recent_turns: or_zero_usize(usize_value(args, "recent_turns"@)),
        timeout_secs: or_zero_u64(u64_value(args, "timeout_secs"@)),
    }
}

fn take_distill(
    args: &Vec<ParsedArg>,
    distill_mode: DistillMode,
    compression_level: DistillCompressionLevel,
) -> (out: DistillArgs)
    ensures
        out@ == distill_of(args.deep_view(), distill_mode, compression_level),
{
    DistillArgs {
        target: take_target(args),
        provider: take_text(args, "provider"),
        model: take_text(args, "model"),
        context_window: take_i64(args, "context_window"),
        auto_compact_token_limit: take_i64(args, "auto_compact_token_limit"),
        distill_mode,
        compression_level,
        reasoning_effort: take_text(args, "reasoning_effort"),
        thread_name: take_text(args, "thread_name"),
        write_profile: take_text(args, "write_profile"),
        archive_source: matches!(take_flag(args, "archive_source"), Some(true)),
        preview_only: matches!(take_flag(args, "preview_only"), Some(true)),
        json: matches!(take_flag(args, "json"), Some(true)),
        recent_turns: some_usize(take_usize(args, "recent_turns")),
        timeout_secs: some_u64(take_u64(args, "timeout_secs")),
    }
}

/// The command of a name with the values of its arguments.
pub open spec fn command_of(name: Seq<char>, args: Seq<ParsedArgView>) -> Result<
    CommandView,
    CliErrorView,
> {
    if name == "show"@ {
        Ok(CommandView::Show(show_of(args)))
    } else if name == "rename"@ {
        Ok(CommandView::Rename(rename_of(args)))
    } else if name == "repair"@ {
        Ok(CommandView::Repair(target_of(args)))
    } else if name == "rewrite-meta"@ {
        Ok(CommandView::RewriteMeta(rewrite_meta_of(args)))
    } else if name == "repair-resume-state"@ {
        Ok(CommandView::RepairResumeState(repair_resume_state_of(args)))
    } else if name == "fork"@ {
        Ok(CommandView::Fork(fork_of(args)))
    } else if name == "archive"@ {
        Ok(CommandView::Archive(target_of(args)))
    } else if name == "unarchive"@ {
        Ok(CommandView::Unarchive(target_of(args)))
    } else if name == "copy-session-id"@ {
        Ok(CommandView::CopySessionId(target_of(args)))
    } else if name == "copy-cwd"@ {
        Ok(CommandView::CopyCwd(target_of(args)))
    } else if name == "copy-rollout-path"@ {
        Ok(CommandView::CopyRolloutPath(target_of(args)))
    } else if name == "copy-deeplink"@ {
        Ok(CommandView::CopyDeeplink(target_of(args)))
    } else if name == "compact"@ {
        Ok(CommandView::Compact(compact_of(args)))
    } else if name == "rollback"@ {
        Ok(CommandView::Rollback(rollback_of(args)))
    } else if name == "migrate"@ {
        Ok(CommandView::Migrate(migrate_of(args)))
    } else if name == "smart"@ {
        Ok(CommandView::Smart(smart_of(args)))
    } else if name == "first-token-preview"@ {
        Ok(CommandView::FirstTokenPreview(first_token_preview_of(args)))
    } else if name == "distill"@ {
        distill_command_of(args)
    } else {
        Err(CliErrorView::UnknownCommand { name })
    }
}

/// The distill command with the values of its arguments.
pub open spec fn distill_command_of(args: Seq<ParsedArgView>) -> Result<CommandView, CliErrorView> {
    let mode = text::text_or(text_value(args, "distill_mode"@), ""@);
    let level = text::text_or(text_value(args, "compression_level"@), ""@);
    if mode_named(mode) is None {
        Err(CliErrorView::UnknownChoice { choice_id: "distill_mode"@, value: mode })
    } else if level_named(level) is None {
        Err(CliErrorView::UnknownChoice { choice_id: "compression_level"@, value: level })
    } else {
        Ok(
            CommandView::Distill(
                distill_of(args, mode_named(mode).unwrap(), level_named(level).unwrap()),
            ),
        )
    }
}

fn build_distill_command(args: &Vec<ParsedArg>) -> (out: Result<Command, CliError>)
    ensures
        match out {
            Ok(command) => distill_command_of(args.deep_view()) == Ok::<CommandView, CliErrorView>(
                command@,
            ),
            Err(error) => distill_command_of(args.deep_view()) == Err::<CommandView, CliErrorView>(
                error@,
            ),
        },
{
    let mode = opt_or(&take_text(args, "distill_mode"), "");
    let level = opt_or(&take_text(args, "compression_level"), "");
    match (parse_mode(mode.as_str()), parse_level(level.as_str())) {
        (Some(distill_mode), Some(compression_level)) => Ok(
            Command::Distill(take_distill(args, distill_mode, compression_level)),
        ),
        (None, _) => Err(
            CliError::UnknownChoice { choice_id: "distill_mode".to_owned(), value: mode },
        ),
        (_, None) => Err(
            CliError::UnknownChoice { choice_id: "compression_level".to_owned(), value: level },
        ),
    }
}

fn build_parsed_command(name: &str, args: &Vec<ParsedArg>) -> (out: Result<Command, CliError>)
    ensures
        match out {
            Ok(command) => command_of(name@, args.deep_view()) == Ok::<CommandView, CliErrorView>(
                command@,
            ),
            Err(error) => command_of(name@, args.deep_view()) == Err::<CommandView, CliErrorView>(
                error@,
            ),
        },
{
    if same_text(name, "show") {
        Ok(Command::Show(take_show(args)))
    } else if same_text(name, "rename") {
        Ok(Command::Rename(take_rename(args)))
    } else if same_text(name, "repair") {
        Ok(Command::Repair(take_target(args)))
    } else if same_text(name, "rewrite-meta") {
        Ok(Command::RewriteMeta(take_rewrite_meta(args)))
    } else if same_text(name, "repair-resume-state") {
        Ok(Command::RepairResumeState(take_repair_resume_state(args)))
    } else if same_text(name, "fork") {
        Ok(Command::Fork(take_fork(args)))
    } else if same_text(name, "archive") {
        Ok(Command::Archive(take_target(args)))
    } else if same_text(name, "unarchive") {
        Ok(Command::Unarchive(take_target(args)))
    } else if same_text(name, "copy-session-id") {
        Ok(Command::CopySessionId(take_target(args)))
    } else if same_text(name, "copy-cwd") {
        Ok(Command::CopyCwd(take_target(args)))
    } else if same_text(name, "copy-rollout-path") {
        Ok(Command::CopyRolloutPath(take_target(args)))
    } else if same_text(name, "copy-deeplink") {
        Ok(Command::CopyDeeplink(take_target(args)))
    } else if same_text(name, "compact") {
        Ok(Command::Compact(take_compact(args)))
    } else if same_text(name, "rollback") {
        Ok(Command::Rollback(take_rollback(args)))
    } else if same_text(name, "migrate") {
        Ok(Command::Migrate(take_migrate(args)))
    } else if same_text(name, "smart") {
        Ok(Command::Smart(take_smart(args)))
    } else if same_text(name, "first-token-preview") {
        Ok(Command::FirstTokenPreview(take_first_token_preview(args)))
    } else if same_text(name, "distill") {
        build_distill_command(args)
    } else {
        Err(CliError::UnknownCommand { name: name.to_owned() })
    }
}

/// What a command line asks for, once its command and values are known.
pub open spec fn cli_of(parsed: Option<ParsedCommandView>) -> Result<CliView, CliErrorView> {
    match parsed {
        None => Ok(CliView { command: None }),
        Some(parsed) => match cli_graph::command_named(parsed.name) {
            None => Err(CliErrorView::UnknownCommand { name: parsed.name }),
            Some(spec) => match first_missing(spec.args, parsed.args) {
                Some(id) => Err(CliErrorView::MissingArgument { id }),
                None => match command_of(parsed.name, parsed.args) {
                    Ok(command) => Ok(CliView { command: Some(command) }),
                    Err(error) => Err(error),
                },
            },
        },
    }
}

/// What a command line asks for, given what `clap` makes of it.
pub open spec fn cli_outcome(
    found: Result<Option<(Seq<char>, Map<Seq<char>, ArgValueView>)>, (Seq<char>, bool)>,
) -> Result<CliView, CliErrorView> {
    match found {
        Ok(found) => cli_of(parsed_of(found)),
        Err((message, to_stderr)) => Err(CliErrorView::Rejected { message, to_stderr }),
    }
}

/// A result stands for another.
pub open spec fn stands_for(
    out: Result<Cli, CliError>,
    expected: Result<CliView, CliErrorView>,
) -> bool {
    match out {
        Ok(cli) => expected == Ok::<CliView, CliErrorView>(cli@),
        Err(error) => expected == Err::<CliView, CliErrorView>(error@),
    }
}

impl Cli {
    /// The command graph of the program, for `clap`.
    pub fn command() -> (out: ClapCommand)
        ensures
            is_program(out),
    {
        let mut command = new_command(
            "codex-session-manager",
            "Low-level Codex session and rollout manager",
        );
        let ghost title = command_names(command);
        let commands = list_commands();
        let ghost graph = cli_graph::cli_graph();
        assert(graph.take(0) =~= Seq::<CommandSpecView>::empty());
        for i in 0..commands.len()
            invariant
                graph == cli_graph::cli_graph(),
                cli_graph::commands_of(commands@) == graph,
                command_names(command) == title,
                command_args(command) == Seq::<ArgSpecView>::empty(),
                command_parts(command) == graph.take(i as int),
        {
            assert(graph[i as int] == commands@[i as int]@);
            proof {
                graph_short_names_are_sound(i as int);
            }
            let part = build_command(&commands[i]);
            assert(command_names(part).skip(2) =~= graph[i as int].aliases);
            command = with_part(command, part);
            assert(graph.take(i as int).push(graph[i as int]) =~= graph.take(i + 1));
        }
        assert(graph.take(graph.len() as int) =~= graph);
        command
    }

    /// What a command line asks for, once its command and values are known.
    pub fn from_parsed(parsed: &Option<ParsedCommand>) -> (out: Result<Cli, CliError>)
        ensures
            stands_for(out, cli_of(parsed.deep_view())),
    {
        match parsed {
            None => Ok(Cli { command: None }),
            Some(parsed) => match find_command_args(parsed.name.as_str()) {
                None => Err(CliError::UnknownCommand { name: parsed.name.clone() }),
                Some(specs) => match find_missing(&specs, &parsed.args) {
                    Some(id) => Err(CliError::MissingArgument { id }),
                    None => match build_parsed_command(parsed.name.as_str(), &parsed.args) {
                        Ok(command) => Ok(Cli { command: Some(command) }),
                        Err(error) => Err(error),
                    },
                },
            },
        }
    }

    /// What a command line asks for. The first word is the name of the program.
    pub fn try_parse_from(argv: &Vec<String>) -> (out: Result<Cli, CliError>)
        ensures
            stands_for(out, cli_outcome(clap_outcome(cli_graph::cli_graph(), text::texts(argv@)))),
    {
        match match_arguments(Cli::command(), argv) {
            Ok(matches) => Cli::from_parsed(&read_matches(&matches)),
            Err((message, to_stderr)) => Err(CliError::Rejected { message, to_stderr }),
        }
    }
}

/// Every command of the graph is understood: a name that the graph holds never
/// ends in an unknown command, whatever its values are.
pub proof fn graph_commands_are_understood(name: Seq<char>, args: Seq<ParsedArgView>)
    requires
        cli_graph::command_named(name) is Some,
    ensures
        command_of(name, args) is Ok || name == "distill"@,
        command_of(name, args) matches Err(error) ==> error is UnknownChoice,
{
    let at = choose|at: int| cli_graph::named_at(cli_graph::cli_graph(), name, at);
    assert(cli_graph::named_at(cli_graph::cli_graph(), name, at));
    assert(cli_graph::cli_graph()[at].name == name);
}

/// The message for an error.
pub open spec fn cli_error_text(error: CliErrorView) -> Seq<char> {
    match error {
        CliErrorView::Rejected { message, .. } => message,
        CliErrorView::UnknownCommand { name } => "the subcommand '"@ + name + "' wasn't recognized"@,
        CliErrorView::MissingArgument { id } => "the following required argument was not provided: "@ + id,
        CliErrorView::UnknownChoice { choice_id, value } => "invalid value '"@ + value + "' for '"@ + choice_id + "'"@,
    }
}

/// The message for an error.
pub fn cli_error_message(error: &CliError) -> (out: String)
    ensures
        out@ == cli_error_text(error@),
{
    match error {
        CliError::Rejected { message, .. } => message.clone(),
        CliError::UnknownCommand { name } => cat3("the subcommand '", name.as_str(), "' wasn't recognized"),
        CliError::MissingArgument { id } => cat2("the following required argument was not provided: ", id.as_str()),
        CliError::UnknownChoice { choice_id, value } => cat5("invalid value '", value.as_str(), "' for '", choice_id.as_str(), "'"),
    }
}

/// The first value that is given for an argument stands at `at`.
pub open spec fn given_at(args: Seq<ParsedArgView>, id: Seq<char>, at: int) -> bool {
    0 <= at < args.len() && args[at].id == id && forall|i: int|
        0 <= i < at ==> (#[trigger] args[i]).id != id
}

/// Whether this value is the first one that is given for an argument.
pub open spec fn given(args: Seq<ParsedArgView>, id: Seq<char>, value: ArgValueView) -> bool {
    exists|at: int| #[trigger] given_at(args, id, at) && args[at].value == value
}

/// The first value that is given for an argument counts, and without one the
/// argument has none.
pub proof fn first_value_counts(args: Seq<ParsedArgView>, id: Seq<char>, value: ArgValueView)
    ensures
        arg_value(args, id) == Some(value) <==> given(args, id, value),
        arg_value(args, id) is None <==> forall|i: int|
            0 <= i < args.len() ==> (#[trigger] args[i]).id != id,
    decreases args.len(),
{
    if args.len() > 0 {
        let rest = args.skip(1);
        first_value_counts(rest, id, value);
        if args[0].id == id {
            assert(given_at(args, id, 0));
            if given(args, id, value) {
                let at = choose|at: int| #[trigger] given_at(args, id, at) && args[at].value
                    == value;
                assert(at == 0) by {
                    if at > 0 {
                        assert(args[0].id != id);
                    }
                }
            }
        } else {
            if given(rest, id, value) {
                let at = choose|at: int| #[trigger] given_at(rest, id, at) && rest[at].value
                    == value;
                assert forall|i: int| 0 <= i < at + 1 implies (#[trigger] args[i]).id != id by {
                    if i > 0 {
                        assert(rest[i - 1].id != id);
                    }
                }
                assert(given_at(args, id, at + 1));
            }
            if given(args, id, value) {
                let at = choose|at: int| #[trigger] given_at(args, id, at) && args[at].value
                    == value;
                assert(at > 0);
                assert forall|i: int| 0 <= i < at - 1 implies (#[trigger] rest[i]).id != id by {
                    assert(args[i + 1].id != id);
                }
                assert(given_at(rest, id, at - 1));
            }
            if forall|i: int| 0 <= i < rest.len() ==> (#[trigger] rest[i]).id != id {
                assert forall|i: int| 0 <= i < args.len() implies (#[trigger] args[i]).id != id by {
                    if i > 0 {
                        assert(rest[i - 1].id != id);
                    }
                }
            }
            if forall|i: int| 0 <= i < args.len() ==> (#[trigger] args[i]).id != id {
                assert forall|i: int| 0 <= i < rest.len() implies (#[trigger] rest[i]).id != id by {
                    assert(args[i + 1].id != id);
                }
            }
        }
    }
}

/// The session and the profile that are given are those of the command.
pub proof fn session_and_profile_are_taken_over(
    args: Seq<ParsedArgView>,
    target: Seq<char>,
    profile: Seq<char>,
)
    requires
        given(args, "target"@, ArgValueView::Text { text: target }),
    ensures
        target_of(args).target == target,
        given(args, "config_profile"@, ArgValueView::Text { text: profile }) ==> target_of(
            args,
        ).config_profile == Some(profile),
        (forall|i: int|
            0 <= i < args.len() ==> (#[trigger] args[i]).id != "config_profile"@) ==> target_of(
            args,
        ).config_profile is None,
        show_of(args).target == target_of(args),
        rename_of(args).target == target_of(args),
        rewrite_meta_of(args).target == target_of(args),
        repair_resume_state_of(args).target == target_of(args),
        fork_of(args).target == target_of(args),
        compact_of(args).target == target_of(args),
        rollback_of(args).target == target_of(args),
        migrate_of(args).target == target_of(args),
        smart_of(args).target == target_of(args),
        first_token_preview_of(args).target == target_of(args),
{
    first_value_counts(args, "target"@, ArgValueView::Text { text: target });
    first_value_counts(args, "config_profile"@, ArgValueView::Text { text: profile });
}

/// The model and the provider that are given are those of the command, and without
/// one there is none.
pub proof fn model_and_provider_are_taken_over(
    args: Seq<ParsedArgView>,
    name: Seq<char>,
    mode: DistillMode,
    level: DistillCompressionLevel,
)
    ensures
        given(args, "model"@, ArgValueView::Text { text: name }) ==> fork_of(args).model == Some(
            name,
        ) && migrate_of(args).model == Some(name) && distill_of(args, mode, level).model == Some(
            name,
        ) && repair_resume_state_of(args).model == Some(name),
        given(args, "provider"@, ArgValueView::Text { text: name }) ==> fork_of(args).provider
            == Some(name) && migrate_of(args).provider == Some(name) && distill_of(
            args,
            mode,
            level,
        ).provider == Some(name) && repair_resume_state_of(args).provider == Some(name)
            && rewrite_meta_of(args).provider == Some(name),
        (forall|i: int| 0 <= i < args.len() ==> (#[trigger] args[i]).id != "model"@) ==> fork_of(
            args,
        ).model is None && migrate_of(args).model is None && distill_of(args, mode, level).model
            is None && repair_resume_state_of(args).model is None,
        (forall|i: int| 0 <= i < args.len() ==> (#[trigger] args[i]).id != "provider"@) ==> fork_of(
            args,
        ).provider is None && migrate_of(args).provider is None && distill_of(
            args,
            mode,
            level,
        ).provider is None && repair_resume_state_of(args).provider is None && rewrite_meta_of(
            args,
        ).provider is None,
{
    first_value_counts(args, "model"@, ArgValueView::Text { text: name });
    first_value_counts(args, "provider"@, ArgValueView::Text { text: name });
}

/// The names, profiles and texts that are given are those of the command.
pub proof fn texts_are_taken_over(
    args: Seq<ParsedArgView>,
    name: Seq<char>,
    mode: DistillMode,
    level: DistillCompressionLevel,
)
    ensures
        given(args, "name"@, ArgValueView::Text { text: name }) ==> rename_of(args).name == name,
        given(args, "thread_name"@, ArgValueView::Text { text: name }) ==> fork_of(
            args,
        ).thread_name == Some(name) && migrate_of(args).thread_name == Some(name) && distill_of(
            args,
            mode,
            level,
        ).thread_name == Some(name),
        given(args, "write_profile"@, ArgValueView::Text { text: name }) ==> fork_of(
            args,
        ).write_profile == Some(name) && migrate_of(args).write_profile == Some(name) && smart_of(
            args,
        ).write_profile == Some(name) && distill_of(args, mode, level).write_profile == Some(name),
        given(args, "memory_mode"@, ArgValueView::Text { text: name }) ==> rewrite_meta_of(
            args,
        ).memory_mode == Some(name),
        given(args, "cwd"@, ArgValueView::Path { path: name }) ==> rewrite_meta_of(args).cwd
            == Some(name),
        given(args, "input"@, ArgValueView::Text { text: name }) ==> first_token_preview_of(
            args,
        ).input == Some(name),
        given(args, "reasoning_effort"@, ArgValueView::Text { text: name }) ==> distill_of(
            args,
            mode,
            level,
        ).reasoning_effort == Some(name),
{
    first_value_counts(args, "name"@, ArgValueView::Text { text: name });
    first_value_counts(args, "thread_name"@, ArgValueView::Text { text: name });
    first_value_counts(args, "write_profile"@, ArgValueView::Text { text: name });
    first_value_counts(args, "memory_mode"@, ArgValueView::Text { text: name });
    first_value_counts(args, "cwd"@, ArgValueView::Path { path: name });
    first_value_counts(args, "input"@, ArgValueView::Text { text: name });
    first_value_counts(args, "reasoning_effort"@, ArgValueView::Text { text: name });
}

/// The numbers that are given are those of the command.
pub proof fn numbers_are_taken_over(
    args: Seq<ParsedArgView>,
    window: i64,
    count: u32,
    secs: u64,
    size: usize,
    mode: DistillMode,
    level: DistillCompressionLevel,
)
    ensures
        given(args, "context_window"@, ArgValueView::I64 { signed: window }) ==> fork_of(
            args,
        ).context_window == Some(window) && migrate_of(args).context_window == Some(window)
            && repair_resume_state_of(args).context_window == Some(window) && distill_of(
            args,
            mode,
            level,
        ).context_window == Some(window),
        given(args, "auto_compact_token_limit"@, ArgValueView::I64 { signed: window }) ==> fork_of(
            args,
        ).auto_compact_token_limit == Some(window) && migrate_of(args).auto_compact_token_limit
            == Some(window) && distill_of(args, mode, level).auto_compact_token_limit == Some(
            window,
        ),
        given(args, "num_turns"@, ArgValueView::U32 { small: count }) ==> rollback_of(
            args,
        ).num_turns == count,
        given(args, "max_pre_compactions"@, ArgValueView::U32 { small: count }) ==> migrate_of(
            args,
        ).max_pre_compactions == count && smart_of(args).max_pre_compactions == count,
        given(args, "timeout_secs"@, ArgValueView::U64 { large: secs }) ==> compact_of(
            args,
        ).timeout_secs == secs && rollback_of(args).timeout_secs == secs && migrate_of(
            args,
        ).timeout_secs == secs && smart_of(args).timeout_secs == secs && distill_of(
            args,
            mode,
            level,
        ).timeout_secs == secs,
        given(args, "nth_user_message"@, ArgValueView::Usize { size }) ==> fork_of(
            args,
        ).nth_user_message == Some(size) && migrate_of(args).nth_user_message == Some(size),
        given(args, "recent_turns"@, ArgValueView::Usize { size }) ==> distill_of(
            args,
            mode,
            level,
        ).recent_turns == size,
{
    first_value_counts(args, "context_window"@, ArgValueView::I64 { signed: window });
    first_value_counts(args, "auto_compact_token_limit"@, ArgValueView::I64 { signed: window });
    first_value_counts(args, "num_turns"@, ArgValueView::U32 { small: count });
    first_value_counts(args, "max_pre_compactions"@, ArgValueView::U32 { small: count });
    first_value_counts(args, "timeout_secs"@, ArgValueView::U64 { large: secs });
    first_value_counts(args, "nth_user_message"@, ArgValueView::Usize { size });
    first_value_counts(args, "recent_turns"@, ArgValueView::Usize { size });
}

/// A flag is on in a command exactly where it is given as on.
pub proof fn flags_are_on_where_they_are_given(
    args: Seq<ParsedArgView>,
    mode: DistillMode,
    level: DistillCompressionLevel,
)
    ensures
        ({
            let on = ArgValueView::Flag { on: true };
            &&& show_of(args).json <==> given(args, "json"@, on)
            &&& first_token_preview_of(args).json <==> given(args, "json"@, on)
            &&& distill_of(args, mode, level).json <==> given(args, "json"@, on)
            &&& rewrite_meta_of(args).clear_memory_mode <==> given(args, "clear_memory_mode"@, on)
            &&& fork_of(args).persist_extended_history <==> given(
                args,
                "persist_extended_history"@,
                on,
            )
            &&& migrate_of(args).persist_extended_history <==> given(
                args,
                "persist_extended_history"@,
                on,
            )
            &&& migrate_of(args).force_compact <==> given(args, "force_compact"@, on)
            &&& migrate_of(args).archive_source <==> given(args, "archive_source"@, on)
            &&& smart_of(args).archive_source <==> given(args, "archive_source"@, on)
            &&& distill_of(args, mode, level).archive_source <==> given(
                args,
                "archive_source"@,
                on,
            )
            &&& distill_of(args, mode, level).preview_only <==> given(args, "preview_only"@, on)
        }),
{
    let on = ArgValueView::Flag { on: true };
    first_value_counts(args, "json"@, on);
    first_value_counts(args, "clear_memory_mode"@, on);
    first_value_counts(args, "persist_extended_history"@, on);
    first_value_counts(args, "force_compact"@, on);
    first_value_counts(args, "archive_source"@, on);
    first_value_counts(args, "preview_only"@, on);
}

/// A command line is the command of its name.
pub proof fn names_tell_the_command(name: Seq<char>, args: Seq<ParsedArgView>)
    ensures
        command_of(name, args) matches Ok(command) ==> {
            &&& name == "show"@ <==> command is Show
            &&& name == "rename"@ <==> command is Rename
            &&& name == "repair"@ <==> command is Repair
            &&& name == "rewrite-meta"@ <==> command is RewriteMeta
            &&& name == "repair-resume-state"@ <==> command is RepairResumeState
            &&& name == "fork"@ <==> command is Fork
            &&& name == "archive"@ <==> command is Archive
            &&& name == "unarchive"@ <==> command is Unarchive
            &&& name == "copy-session-id"@ <==> command is CopySessionId
            &&& name == "copy-cwd"@ <==> command is CopyCwd
            &&& name == "copy-rollout-path"@ <==> command is CopyRolloutPath
            &&& name == "copy-deeplink"@ <==> command is CopyDeeplink
            &&& name == "compact"@ <==> command is Compact
            &&& name == "rollback"@ <==> command is Rollback
            &&& name == "migrate"@ <==> command is Migrate
            &&& name == "smart"@ <==> command is Smart
            &&& name == "first-token-preview"@ <==> command is FirstTokenPreview
            &&& name == "distill"@ <==> command is Distill
        },
        command_of(name, args) matches Ok(CommandView::Archive(target)) ==> target == target_of(
            args,
        ),
        command_of(name, args) matches Ok(CommandView::Unarchive(target)) ==> target == target_of(
            args,
        ),
        command_of(name, args) matches Ok(CommandView::Migrate(migrate)) ==> migrate == migrate_of(
            args,
        ),
        command_of(name, args) matches Ok(CommandView::Rollback(rollback)) ==> rollback
            == rollback_of(args),
        command_of(name, args) matches Ok(CommandView::Fork(fork)) ==> fork == fork_of(args),
        command_of(name, args) matches Ok(CommandView::Smart(smart)) ==> smart == smart_of(args),
{
    reveal_strlit("show");
    reveal_strlit("first-token-preview");
    reveal_strlit("rename");
    reveal_strlit("repair");
    reveal_strlit("rewrite-meta");
    reveal_strlit("repair-resume-state");
    reveal_strlit("fork");
    reveal_strlit("archive");
    reveal_strlit("unarchive");
    reveal_strlit("copy-session-id");
    reveal_strlit("copy-cwd");
    reveal_strlit("copy-rollout-path");
    reveal_strlit("copy-deeplink");
    reveal_strlit("compact");
    reveal_strlit("rollback");
    reveal_strlit("migrate");
    reveal_strlit("smart");
    reveal_strlit("distill");
    let first = name[0];
    let second = name[1];
    let third = name[2];
    let size = name.len();
}

/// A distillation is refused exactly where its mode or its level has an unknown
/// name, and otherwise has the two that are named.
pub proof fn distillation_has_the_mode_and_level_that_are_named(
    args: Seq<ParsedArgView>,
    mode: Seq<char>,
    level: Seq<char>,
)
    requires
        given(args, "distill_mode"@, ArgValueView::Text { text: mode }),
        given(args, "compression_level"@, ArgValueView::Text { text: level }),
    ensures
        ({
            let out = command_of("distill"@, args);
            &&& mode != "codex"@ && mode != "deterministic"@ <==> out == Err::<
                CommandView,
                CliErrorView,
            >(CliErrorView::UnknownChoice { choice_id: "distill_mode"@, value: mode })
            &&& out is Ok <==> (mode == "codex"@ || mode == "deterministic"@) && (level
                == "lossless"@ || level == "balanced"@ || level == "aggressive"@)
            &&& out matches Ok(CommandView::Distill(distill)) ==> {
                &&& mode == "codex"@ <==> distill.distill_mode is Codex
                &&& level == "lossless"@ <==> distill.compression_level is Lossless
                &&& level == "balanced"@ <==> distill.compression_level is Balanced
                &&& level == "aggressive"@ <==> distill.compression_level is Aggressive
            }
        }),
{
    first_value_counts(args, "distill_mode"@, ArgValueView::Text { text: mode });
    first_value_counts(args, "compression_level"@, ArgValueView::Text { text: level });
    names_tell_the_command("distill"@, args);
    reveal_strlit("codex");
    reveal_strlit("deterministic");
    reveal_strlit("lossless");
    reveal_strlit("balanced");
    reveal_strlit("aggressive");
    reveal_strlit("distill_mode");
    reveal_strlit("compression_level");
    reveal_strlit("distill");
    reveal_strlit("show");
    reveal_strlit("first-token-preview");
    reveal_strlit("rename");
    reveal_strlit("repair");
    reveal_strlit("rewrite-meta");
    reveal_strlit("repair-resume-state");
    reveal_strlit("fork");
    reveal_strlit("archive");
    reveal_strlit("unarchive");
    reveal_strlit("copy-session-id");
    reveal_strlit("copy-cwd");
    reveal_strlit("copy-rollout-path");
    reveal_strlit("copy-deeplink");
    reveal_strlit("compact");
    reveal_strlit("rollback");
    reveal_strlit("migrate");
    reveal_strlit("smart");
    assert("distill_mode"@[0] != "compression_level"@[0]);
    assert("codex"@.len() != "deterministic"@.len());
    assert("lossless"@[0] != "balanced"@[0]);
    assert("aggressive"@.len() != "balanced"@.len());
    assert("aggressive"@.len() != "lossless"@.len());
}

/// An argument is missing exactly where it has to have a value and has none of its
/// kind; the first of these is told.
pub proof fn first_missing_argument_is_told(specs: Seq<ArgSpecView>, args: Seq<ParsedArgView>)
    ensures
        first_missing(specs, args) is None <==> forall|i: int|
            0 <= i < specs.len() && ((#[trigger] specs[i]).required || specs[i].default_value is Some
                || specs[i].kind == ArgKind::Flag) ==> has_value(args, specs[i]),
        first_missing(specs, args) matches Some(id) ==> exists|i: int|
            0 <= i < specs.len() && (#[trigger] specs[i]).id == id && !has_value(args, specs[i])
                && forall|j: int|
                0 <= j < i && ((#[trigger] specs[j]).required || specs[j].default_value is Some
                    || specs[j].kind == ArgKind::Flag) ==> has_value(args, specs[j]),
    decreases specs.len(),
{
    if specs.len() > 0 {
        let rest = specs.skip(1);
        first_missing_argument_is_told(rest, args);
        if first_missing(rest, args) is None {
            assert forall|i: int|
                0 <= i < specs.len() && ((#[trigger] specs[i]).required || specs[i].default_value
                    is Some || specs[i].kind == ArgKind::Flag) && !(always_set(specs[0])
                    && !has_value(args, specs[0])) implies has_value(args, specs[i]) by {
                if i > 0 {
                    assert(rest[i - 1] == specs[i]);
                }
            }
        } else {
            let i = choose|i: int|
                0 <= i < rest.len() && (#[trigger] rest[i]).id == first_missing(rest, args).unwrap()
                    && !has_value(args, rest[i]) && forall|j: int|
                    0 <= j < i && ((#[trigger] rest[j]).required || rest[j].default_value is Some
                        || rest[j].kind == ArgKind::Flag) ==> has_value(args, rest[j]);
            assert(specs[i + 1] == rest[i]);
            assert forall|j: int|
                0 <= j < i + 1 && ((#[trigger] specs[j]).required || specs[j].default_value is Some
                    || specs[j].kind == ArgKind::Flag) && !(always_set(specs[0]) && !has_value(
                    args,
                    specs[0],
                )) implies has_value(args, specs[j]) by {
                if j > 0 {
                    assert(rest[j - 1] == specs[j]);
                }
            }
            let k = choose|k: int|
                0 <= k < rest.len() && ((#[trigger] rest[k]).required || rest[k].default_value
                    is Some || rest[k].kind == ArgKind::Flag) && !has_value(args, rest[k]);
            assert(specs[k + 1] == rest[k]);
        }
        assert(specs[0] == specs[0]);
    }
}

/// A command line that `clap` refuses is refused with its message. Without a
/// command it asks for none; one that the program does not have, or that lacks an
/// argument, is refused.
pub proof fn refused_command_lines_tell_why(
    message: Seq<char>,
    to_stderr: bool,
    parsed: ParsedCommandView,
)
    ensures
        cli_outcome(Err((message, to_stderr))) == Err::<CliView, CliErrorView>(
            CliErrorView::Rejected { message, to_stderr },
        ),
        cli_outcome(Ok(None)) == Ok::<CliView, CliErrorView>(CliView { command: None }),
        cli_graph::command_named(parsed.name) is None ==> cli_of(Some(parsed)) == Err::<
            CliView,
            CliErrorView,
        >(CliErrorView::UnknownCommand { name: parsed.name }),
        cli_graph::command_named(parsed.name) matches Some(spec) ==> {
            &&& first_missing(spec.args, parsed.args) matches Some(id) ==> cli_of(Some(parsed))
                == Err::<CliView, CliErrorView>(CliErrorView::MissingArgument { id })
            &&& first_missing(spec.args, parsed.args) is None ==> (command_of(
                parsed.name,
                parsed.args,
            ) matches Ok(command) ==> cli_of(Some(parsed)) == Ok::<CliView, CliErrorView>(
                CliView { command: Some(command) },
            ))
        },
{
}

} // verus!
