//! From an action and what was typed for it to a command.

use vstd::prelude::*;

use crate::cli::Cli;
use crate::cli::CliView;
use crate::cli::Command;
use crate::cli::CommandView;
use crate::cli_graph;
use crate::cli_parse;
use crate::cli_parse::CliError;
use crate::cli_parse::CliErrorView;
use crate::lines;
use crate::lines::join;
use crate::runtime;
use crate::runtime::shell_quote;
use crate::search::char_count;
use crate::text;
use crate::text::cat2;
use crate::text::cat4;
use crate::text::no_texts;
use crate::text::push_text;
use crate::text::push_texts;
use crate::text::trim;
use crate::tui::actions;
use crate::tui::actions::Action;
use crate::tui::actions::ActionInputKind;
use crate::tui::language::Language;
use crate::tui::threads;
use crate::tui::threads::ThreadEntry;
use crate::tui::threads::ThreadEntryView;

verus! {

/// Why an action is not carried out.
#[derive(Debug, PartialEq, Eq)]
pub enum InputError {
    TextRequired { action: Action },
    ArgumentsRequired { action: Action },
    UnclosedQuote,
    NotParsed,
    NoCommand,
}

/// What a [`InputError`] stands for.
pub enum InputErrorView {
    TextRequired { action: Action },
    ArgumentsRequired { action: Action },
    UnclosedQuote,
    NotParsed,
    NoCommand,
}

impl View for InputError {
    type V = InputErrorView;

    open spec fn view(&self) -> InputErrorView {
        match *self {
            InputError::TextRequired { action } => InputErrorView::TextRequired { action },
            InputError::ArgumentsRequired { action } => InputErrorView::ArgumentsRequired {
                action,
            },
            InputError::UnclosedQuote => InputErrorView::UnclosedQuote,
            InputError::NotParsed => InputErrorView::NotParsed,
            InputError::NoCommand => InputErrorView::NoCommand,
        }
    }
}

impl DeepView for InputError {
    type V = InputErrorView;

    open spec fn deep_view(&self) -> InputErrorView {
        self@
    }
}

impl Clone for InputError {
    fn clone(&self) -> (out: Self)
        ensures
            out@ == self@,
    {
        match self {
            InputError::TextRequired { action } => InputError::TextRequired { action: *action },
            InputError::ArgumentsRequired { action } => InputError::ArgumentsRequired {
                action: *action,
            },
            InputError::UnclosedQuote => InputError::UnclosedQuote,
            InputError::NotParsed => InputError::NotParsed,
            InputError::NoCommand => InputError::NoCommand,
        }
    }
}

/// The message for an error.
pub open spec fn input_error_message_text(error: InputErrorView) -> Seq<char> {
    match error {
        InputErrorView::TextRequired { action } => actions::label_of(action) + " requires text input"@,
        InputErrorView::ArgumentsRequired { action } => actions::label_of(action) + " requires additional arguments"@,
        InputErrorView::UnclosedQuote => "missing closing quote"@,
        InputErrorView::NotParsed => "failed to parse TUI action input"@,
        InputErrorView::NoCommand => "missing subcommand from TUI action"@,
    }
}

/// The message for an error.
pub fn input_error_text(error: &InputError) -> (out: String)
    ensures
        out@ == input_error_message_text(error@),
{
    match error {
        InputError::TextRequired { action } => cat2(action.label(), " requires text input"),
        InputError::ArgumentsRequired { action } => cat2(action.label(), " requires additional arguments"),
        InputError::UnclosedQuote => "missing closing quote".to_owned(),
        InputError::NotParsed => "failed to parse TUI action input".to_owned(),
        InputError::NoCommand => "missing subcommand from TUI action".to_owned(),
    }
}

/// A command that an action stands for, and how it is written in a shell.
#[derive(Debug, PartialEq, Eq)]
pub struct PreparedCommand {
    pub action: Action,
    pub command: Command,
    pub preview: String,
}

/// What a [`PreparedCommand`] stands for.
pub struct PreparedCommandView {
    pub action: Action,
    pub command: CommandView,
    pub preview: Seq<char>,
}

impl View for PreparedCommand {
    type V = PreparedCommandView;

    open spec fn view(&self) -> PreparedCommandView {
        PreparedCommandView {
            action: self.action,
            command: self.command@,
            preview: self.preview@,
        }
    }
}

impl DeepView for PreparedCommand {
    type V = PreparedCommandView;

    open spec fn deep_view(&self) -> PreparedCommandView {
        self@
    }
}

impl Clone for PreparedCommand {
    fn clone(&self) -> (out: Self)
        ensures
            out@ == self@,
    {
        PreparedCommand {
            action: self.action,
            command: self.command.clone(),
            preview: self.preview.clone(),
        }
    }
}

/// The words of a text, as `shell_words` splits it; nothing where a quote is not
/// closed.
pub uninterp spec fn shell_words_of(text: Seq<char>) -> Option<Seq<Seq<char>>>;

/// Words that are written with single spaces between them, each made of
/// characters that a shell takes as they stand or put in single quotes, are
/// found as the texts that they stand for.
pub open spec fn reads_written_words(text: Seq<char>, found: Option<Vec<String>>) -> bool {
    forall|written: Seq<Seq<char>>, words: Seq<Seq<char>>|
        text == #[trigger] lines::joined(written, " "@) && #[trigger] runtime::read_each(
            written,
            words,
        ) ==> (found matches Some(found) && text::texts(found@) == words)
}

/// Calls `shell_words::split`. The result is a function of the text; the only
/// error is a quote that is not closed. Words with single spaces between them,
/// each made of characters that a shell takes as they stand or put in single
/// quotes, come out as the texts that they stand for.
#[verifier::external_body]
fn split_words(text: &str) -> (out: Option<Vec<String>>)
    ensures
        match out {
            Some(words) => shell_words_of(text@) == Some(text::texts(words@)),
            None => shell_words_of(text@) is None,
        },
        reads_written_words(text@, out),
{
    shell_words::split(text).ok()
}

/// The words of a command line: the program, the action, the session and what
/// was typed. `words` is what was typed, split as a shell does.
pub open spec fn argv_of(
    action: Action,
    target: Seq<char>,
    input: Seq<char>,
    words: Option<Seq<Seq<char>>>,
) -> Result<Seq<Seq<char>>, InputErrorView> {
    let base = seq!["codex-session-manager"@, actions::label_of(action), target];
    let typed = text::trimmed(input);
    match actions::input_kind_of(action) {
        ActionInputKind::NoInput => Ok(base),
        ActionInputKind::Text { required } => if typed.len() > 0 {
            Ok(base.push(typed))
        } else if required {
            Err(InputErrorView::TextRequired { action })
        } else {
            Ok(base)
        },
        ActionInputKind::Raw { required } => if typed.len() > 0 {
            match words {
                Some(words) => Ok(base + words),
                None => Err(InputErrorView::UnclosedQuote),
            }
        } else if required {
            Err(InputErrorView::ArgumentsRequired { action })
        } else {
            Ok(base)
        },
    }
}

/// A result stands for another.
pub open spec fn spells_argv(
    out: Result<Vec<String>, InputError>,
    expected: Result<Seq<Seq<char>>, InputErrorView>,
) -> bool {
    match out {
        Ok(argv) => expected == Ok::<Seq<Seq<char>>, InputErrorView>(text::texts(argv@)),
        Err(error) => expected == Err::<Seq<Seq<char>>, InputErrorView>(error@),
    }
}

fn base_argv(action: Action, target: &str) -> (out: Vec<String>)
    ensures
        text::texts(out@) == seq!["codex-session-manager"@, actions::label_of(action), target@],
{
    let mut argv = no_texts();
    push_text(&mut argv, "codex-session-manager".to_owned());
    push_text(&mut argv, action.label().to_owned());
    push_text(&mut argv, target.to_owned());
    assert(text::texts(argv@) =~= seq![
        "codex-session-manager"@,
        actions::label_of(action),
        target@,
    ]);
    argv
}

/// The words of a command line, given what was typed and the words that it
/// splits into.
pub fn command_argv(
    action: Action,
    target: &str,
    input: &str,
    words: &Option<Vec<String>>,
) -> (out: Result<Vec<String>, InputError>)
    ensures
        spells_argv(
            out,
            argv_of(
                action,
                target@,
                input@,
                match *words {
                    Some(words) => Some(text::texts(words@)),
                    None => None,
                },
            ),
        ),
{
    let mut argv = base_argv(action, target);
    let typed = trim(input);
    let blank = char_count(typed.as_str()) == 0;
    match action.input_kind() {
        ActionInputKind::NoInput => Ok(argv),
        ActionInputKind::Text { required } => {
            if !blank {
                push_text(&mut argv, typed);
                Ok(argv)
            } else if required {
                Err(InputError::TextRequired { action })
            } else {
                Ok(argv)
            }
        },
        ActionInputKind::Raw { required } => {
            if !blank {
                match words {
                    Some(words) => {
                        push_texts(&mut argv, words);
                        Ok(argv)
                    },
                    None => Err(InputError::UnclosedQuote),
                }
            } else if required {
                Err(InputError::ArgumentsRequired { action })
            } else {
                Ok(argv)
            }
        },
    }
}

/// The words of a command line: the program, the action, the session and what
/// was typed. Where what was typed is how some words are written in a shell,
/// those words are what comes behind the session.
pub fn build_command_argv(action: Action, thread: &ThreadEntry, input: &str) -> (out: Result<
    Vec<String>,
    InputError,
>)
    ensures
        spells_argv(
            out,
            argv_of(
                action,
                threads::target_text(thread@),
                input@,
                shell_words_of(text::trimmed(input@)),
            ),
        ),
        forall|words: Seq<Seq<char>>|
            actions::input_kind_of(action) is Raw && words.len() > 0 && text::trimmed(input@)
                == #[trigger] preview_of(words) ==> spells_argv(
                out,
                Ok(
                    seq![
                        "codex-session-manager"@,
                        actions::label_of(action),
                        threads::target_text(thread@),
                    ] + words,
                ),
            ),
{
    let words = split_words(trim(input).as_str());
    proof {
        assert forall|typed: Seq<Seq<char>>|
            typed.len() > 0 && text::trimmed(input@) == #[trigger] preview_of(typed) implies (words
            matches Some(found) && text::texts(found@) == typed) && text::trimmed(input@).len()
            > 0 by {
            quoted_words_read_back(typed);
            preview_ends(typed);
            assert(runtime::read_each(quoted_words(typed), typed));
            assert(lines::joined(quoted_words(typed), " "@) == preview_of(typed));
        }
    }
    command_argv(action, thread.target().as_str(), input, &words)
}

/// What is typed for an action that takes a text is one argument, whatever it
/// holds.
pub proof fn text_input_is_one_argument(
    action: Action,
    target: Seq<char>,
    input: Seq<char>,
    words: Option<Seq<Seq<char>>>,
)
    requires
        actions::input_kind_of(action) is Text,
        !text::blank(input),
    ensures
        argv_of(action, target, input, words) == Ok::<Seq<Seq<char>>, InputErrorView>(
            seq![
                "codex-session-manager"@,
                actions::label_of(action),
                target,
                text::trimmed(input),
            ],
        ),
{
    text::trimmed_empty_iff_blank(input);
    assert(seq!["codex-session-manager"@, actions::label_of(action), target].push(
        text::trimmed(input),
    ) =~= seq![
        "codex-session-manager"@,
        actions::label_of(action),
        target,
        text::trimmed(input),
    ]);
}

/// Every command line starts with the program, a command of it and the session.
pub proof fn command_lines_start_alike(
    action: Action,
    target: Seq<char>,
    input: Seq<char>,
    words: Option<Seq<Seq<char>>>,
)
    ensures
        argv_of(action, target, input, words) matches Ok(argv) ==> argv.len() >= 3 && argv[1]
            == actions::label_of(action) && argv[2] == target && cli_graph::command_named(
            argv[1],
        ) is Some,
{
    actions::actions_are_commands(action);
}

/// Each word of a command line as it is written in a shell.
pub open spec fn quoted_words(argv: Seq<Seq<char>>) -> Seq<Seq<char>> {
    Seq::new(argv.len(), |i: int| runtime::shell_quoted(argv[i]))
}

/// How the words of a command line are written in a shell.
pub open spec fn preview_of(argv: Seq<Seq<char>>) -> Seq<char> {
    lines::joined(quoted_words(argv), " "@)
}

proof fn quoted_words_read_back(argv: Seq<Seq<char>>)
    ensures
        runtime::read_each(quoted_words(argv), argv),
{
    assert forall|i: int| 0 <= i < argv.len() implies runtime::read_word(
        #[trigger] quoted_words(argv)[i],
    ) == Some(argv[i]) by {
        runtime::quoting_reads_back(argv[i]);
    }
}

/// A character that can stand at an end of a word that is written in a shell.
spec fn word_end(ch: char) -> bool {
    ch == '\'' || (ch < '\u{80}' && runtime::shell_safe(ch as u8))
}

proof fn quoted_ends(value: Seq<char>)
    ensures
        runtime::shell_quoted(value).len() > 0,
        word_end(runtime::shell_quoted(value)[0]),
        word_end(runtime::shell_quoted(value).last()),
{
    reveal_strlit("'");
    reveal_strlit("''");
}

proof fn preview_ends(argv: Seq<Seq<char>>)
    requires
        argv.len() > 0,
    ensures
        preview_of(argv).len() > 0,
        word_end(preview_of(argv)[0]),
        word_end(preview_of(argv).last()),
    decreases argv.len(),
{
    quoted_ends(argv.last());
    if argv.len() > 1 {
        preview_ends(argv.drop_last());
        assert(quoted_words(argv).drop_last() =~= quoted_words(argv.drop_last()));
    }
}

/// How words are written in a shell has no white space at either end.
pub proof fn previews_are_trimmed(argv: Seq<Seq<char>>)
    ensures
        text::trimmed(preview_of(argv)) == preview_of(argv),
{
    if argv.len() > 0 {
        preview_ends(argv);
    }
}

fn write_preview(argv: &Vec<String>) -> (out: String)
    ensures
        out@ == preview_of(text::texts(argv@)),
{
    let mut quoted = no_texts();
    let ghost words = text::texts(argv@);
    let ghost all = quoted_words(words);
    assert(all.take(0) =~= Seq::<Seq<char>>::empty());
    for i in 0..argv.len()
        invariant
            words == text::texts(argv@),
            all == quoted_words(words),
            text::texts(quoted@) == all.take(i as int),
    {
        assert(words[i as int] == argv@[i as int]@);
        push_text(&mut quoted, shell_quote(argv[i].as_str()));
        assert(all.take(i as int).push(all[i as int]) =~= all.take(i + 1));
    }
    assert(all.take(all.len() as int) =~= all);
    join(&quoted, " ")
}

/// The command of an action, given its command line and what that asks for.
pub open spec fn prepared_of(
    action: Action,
    argv: Seq<Seq<char>>,
    cli: Result<CliView, CliErrorView>,
) -> Result<PreparedCommandView, InputErrorView> {
    match cli {
        Ok(cli) => match cli.command {
            Some(command) => Ok(
                PreparedCommandView { action, command, preview: preview_of(argv) },
            ),
            None => Err(InputErrorView::NoCommand),
        },
        Err(_) => Err(InputErrorView::NotParsed),
    }
}

/// What an action and what was typed for it come to.
pub open spec fn preparation(action: Action, thread: ThreadEntryView, input: Seq<char>) -> Result<
    PreparedCommandView,
    InputErrorView,
> {
    match argv_of(
        action,
        threads::target_text(thread),
        input,
        shell_words_of(text::trimmed(input)),
    ) {
        Ok(argv) => prepared_of(
            action,
            argv,
            cli_parse::cli_outcome(cli_parse::clap_outcome(cli_graph::cli_graph(), argv)),
        ),
        Err(error) => Err(error),
    }
}

/// A result stands for another.
pub open spec fn is_prepared(
    out: Result<PreparedCommand, InputError>,
    expected: Result<PreparedCommandView, InputErrorView>,
) -> bool {
    match out {
        Ok(prepared) => expected == Ok::<PreparedCommandView, InputErrorView>(prepared@),
        Err(error) => expected == Err::<PreparedCommandView, InputErrorView>(error@),
    }
}

/// The command of an action, given its command line and what that asks for.
pub fn prepared_command(action: Action, argv: &Vec<String>, cli: Result<Cli, CliError>) -> (out:
    Result<PreparedCommand, InputError>)
    ensures
        is_prepared(
            out,
            prepared_of(
                action,
                text::texts(argv@),
                match cli {
                    Ok(cli) => Ok(cli@),
                    Err(error) => Err(error@),
                },
            ),
        ),
{
    match cli {
        Ok(cli) => match cli.command {
            Some(command) => Ok(
                PreparedCommand { action, command, preview: write_preview(argv) },
            ),
            None => Err(InputError::NoCommand),
        },
        Err(_) => Err(InputError::NotParsed),
    }
}

/// The command that an action stands for, with what was typed for it.
pub fn prepare_command(action: Action, thread: &ThreadEntry, input: &str) -> (out: Result<
    PreparedCommand,
    InputError,
>)
    ensures
        is_prepared(out, preparation(action, thread@, input@)),
{
    match build_command_argv(action, thread, input) {
        Ok(argv) => prepared_command(action, &argv, Cli::try_parse_from(&argv)),
        Err(error) => Err(error),
    }
}

/// What is said of a command that was carried out.
pub open spec fn completed_text(action: Action, language: Language) -> Seq<char> {
    match language {
        Language::English => "Completed "@ + actions::label_of(action),
        Language::Chinese => "已完成 "@ + actions::label_of(action),
    }
}

/// What is said of a command that was carried out.
pub fn completed_message(action: Action, language: Language) -> (out: String)
    ensures
        out@ == completed_text(action, language),
{
    match language {
        Language::English => cat2("Completed ", action.label()),
        Language::Chinese => cat2("已完成 ", action.label()),
    }
}

/// What is said of a command that failed.
pub open spec fn failed_text(action: Action, error: Seq<char>, language: Language) -> Seq<char> {
    match language {
        Language::English => "Failed "@ + actions::label_of(action) + ": "@ + error,
        Language::Chinese => "执行失败 "@ + actions::label_of(action) + "："@ + error,
    }
}

/// What is said of a command that failed.
pub fn failed_message(action: Action, error: &str, language: Language) -> (out: String)
    ensures
        out@ == failed_text(action, error@, language),
{
    match language {
        Language::English => cat4("Failed ", action.label(), ": ", error),
        Language::Chinese => cat4("执行失败 ", action.label(), "：", error),
    }
}

/// What is said of a command that has ended.
pub open spec fn status_after(
    action: Action,
    failure: Option<Seq<char>>,
    language: Language,
) -> Seq<char> {
    match failure {
        Some(error) => failed_text(action, error, language),
        None => completed_text(action, language),
    }
}

/// What is said of a command that has ended, given why it failed if it did.
pub fn execute_prepared_command(
    action: Action,
    failure: &Option<String>,
    language: Language,
) -> (out: String)
    ensures
        out@ == status_after(action, text::opt_text(*failure), language),
{
    match failure {
        Some(error) => failed_message(action, error.as_str(), language),
        None => completed_message(action, language),
    }
}

/// What asks for a key before the interface comes back.
pub open spec fn return_prompt_text(language: Language) -> Seq<char> {
    match language {
        Language::English => "Press Enter to return to the TUI..."@,
        Language::Chinese => "按 Enter 返回 TUI……"@,
    }
}

/// What asks for a key before the interface comes back.
pub fn return_prompt(language: Language) -> (out: &'static str)
    ensures
        out@ == return_prompt_text(language),
{
    match language {
        Language::English => "Press Enter to return to the TUI...",
        Language::Chinese => "按 Enter 返回 TUI……",
    }
}

/// A command line is refused exactly where what has to be typed is missing, or
/// where a quote in what is typed is not closed; otherwise it ends with what was
/// typed, as one text or word by word.
pub proof fn command_line_ends_with_what_was_typed(
    action: Action,
    target: Seq<char>,
    input: Seq<char>,
    words: Option<Seq<Seq<char>>>,
)
    ensures
        ({
            let out = argv_of(action, target, input, words);
            let base = seq!["codex-session-manager"@, actions::label_of(action), target];
            let kind = actions::input_kind_of(action);
            let missing = text::blank(input);
            &&& kind is NoInput ==> out == Ok::<Seq<Seq<char>>, InputErrorView>(base)
            &&& kind == (ActionInputKind::Text { required: true }) && missing ==> out == Err::<
                Seq<Seq<char>>,
                InputErrorView,
            >(InputErrorView::TextRequired { action })
            &&& kind == (ActionInputKind::Raw { required: true }) && missing ==> out == Err::<
                Seq<Seq<char>>,
                InputErrorView,
            >(InputErrorView::ArgumentsRequired { action })
            &&& kind == (ActionInputKind::Raw { required: false }) && missing ==> out == Ok::<
                Seq<Seq<char>>,
                InputErrorView,
            >(base)
            &&& kind is Raw && !missing ==> (words matches Some(words) ==> out == Ok::<
                Seq<Seq<char>>,
                InputErrorView,
            >(base + words))
            &&& kind is Raw && !missing && words is None <==> out == Err::<
                Seq<Seq<char>>,
                InputErrorView,
            >(InputErrorView::UnclosedQuote)
        }),
{
    text::trimmed_empty_iff_blank(input);
}

/// A command line that is read is prepared with its command, its action and how it
/// is written in a shell; one that is not read, or names no command, is refused.
pub proof fn read_command_lines_are_prepared(
    action: Action,
    argv: Seq<Seq<char>>,
    cli: Result<CliView, CliErrorView>,
)
    ensures
        ({
            let out = prepared_of(action, argv, cli);
            &&& cli is Err <==> out == Err::<PreparedCommandView, InputErrorView>(
                InputErrorView::NotParsed,
            )
            &&& cli matches Ok(cli) ==> {
                &&& cli.command is None <==> out == Err::<PreparedCommandView, InputErrorView>(
                    InputErrorView::NoCommand,
                )
                &&& cli.command matches Some(command) ==> (out matches Ok(prepared)
                    && prepared.action == action && prepared.command == command
                    && prepared.preview == preview_of(argv))
            }
        }),
{
}

/// A command that has ended is told as completed, or as failed with its error.
pub proof fn ended_commands_are_told(action: Action, error: Seq<char>)
    ensures
        status_after(action, None, Language::English) == "Completed "@ + actions::label_of(action),
        status_after(action, Some(error), Language::English) == "Failed "@ + actions::label_of(
            action,
        ) + ": "@ + error,
        status_after(action, None, Language::Chinese) == "已完成 "@ + actions::label_of(action),
        status_after(action, Some(error), Language::Chinese) == "执行失败 "@
            + actions::label_of(action) + "："@ + error,
{
}

} // verus!
