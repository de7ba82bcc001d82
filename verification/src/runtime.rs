//! Runtimes: what to ask for when one is loaded, which session a target names,
//! and how a session is resumed.

use vstd::prelude::*;

use crate::cli::DistillArgs;
use crate::cli::RepairResumeStateArgs;
use crate::lines;
use crate::search::char_count;
use crate::search::has_prefix;
use crate::text;
use crate::text::cat2;
use crate::text::cat3;
use crate::text::cat4;
use crate::text::chars_of;
use crate::text::clone_opt;
use crate::text::clone_texts;
use crate::text::is_blank;
use crate::text::is_text;
use crate::text::no_texts;
use crate::text::or_opt;
use crate::text::push_text;
use crate::text::text_of;
use crate::text::trim;
use crate::types::RuntimeConfig;
use crate::types::RuntimeConfigView;
use crate::types::SessionSummary;
use crate::types::SessionSummaryView;

verus! {

/// A runtime that is asked for. What is not given comes from the configuration.
#[derive(Debug, PartialEq, Eq)]
pub struct RuntimeRequest {
    pub config_profile: Option<String>,
    pub cwd: Option<String>,
    pub model: Option<String>,
    pub provider: Option<String>,
    pub context_window: Option<i64>,
    pub auto_compact_token_limit: Option<i64>,
}

/// What a [`RuntimeRequest`] stands for.
pub struct RuntimeRequestView {
    pub config_profile: Option<Seq<char>>,
    pub cwd: Option<Seq<char>>,
    pub model: Option<Seq<char>>,
    pub provider: Option<Seq<char>>,
    pub context_window: Option<i64>,
    pub auto_compact_token_limit: Option<i64>,
}

impl View for RuntimeRequest {
    type V = RuntimeRequestView;

    open spec fn view(&self) -> RuntimeRequestView {
        RuntimeRequestView {
            config_profile: text::opt_text(self.config_profile),
            cwd: text::opt_text(self.cwd),
            model: text::opt_text(self.model),
            provider: text::opt_text(self.provider),
            context_window: self.context_window,
            auto_compact_token_limit: self.auto_compact_token_limit,
        }
    }
}

impl DeepView for RuntimeRequest {
    type V = RuntimeRequestView;

    open spec fn deep_view(&self) -> RuntimeRequestView {
        self@
    }
}

impl Clone for RuntimeRequest {
    fn clone(&self) -> (out: Self)
        ensures
            out@ == self@,
    {
        RuntimeRequest {
            config_profile: clone_opt(&self.config_profile),
            cwd: clone_opt(&self.cwd),
            model: clone_opt(&self.model),
            provider: clone_opt(&self.provider),
            context_window: self.context_window,
            auto_compact_token_limit: self.auto_compact_token_limit,
        }
    }
}

/// A change to the configuration file.
#[derive(Debug, PartialEq, Eq)]
pub enum ConfigEdit {
    SetText { segments: Vec<String>, text_value: String },
    SetInteger { segments: Vec<String>, value: i64 },
    ClearPath { segments: Vec<String> },
}

/// What a [`ConfigEdit`] stands for.
pub enum ConfigEditView {
    SetText { segments: Seq<Seq<char>>, text_value: Seq<char> },
    SetInteger { segments: Seq<Seq<char>>, value: i64 },
    ClearPath { segments: Seq<Seq<char>> },
}

impl View for ConfigEdit {
    type V = ConfigEditView;

    open spec fn view(&self) -> ConfigEditView {
        match *self {
            ConfigEdit::SetText { segments, text_value } => ConfigEditView::SetText {
                segments: text::texts(segments@),
                text_value: text_value@,
            },
            ConfigEdit::SetInteger { segments, value } => ConfigEditView::SetInteger {
                segments: text::texts(segments@),
                value,
            },
            ConfigEdit::ClearPath { segments } => ConfigEditView::ClearPath {
                segments: text::texts(segments@),
            },
        }
    }
}

impl DeepView for ConfigEdit {
    type V = ConfigEditView;

    open spec fn deep_view(&self) -> ConfigEditView {
        self@
    }
}

impl Clone for ConfigEdit {
    fn clone(&self) -> (out: Self)
        ensures
            out@ == self@,
    {
        match self {
            ConfigEdit::SetText { segments, text_value } => ConfigEdit::SetText {
                segments: clone_texts(segments),
                text_value: text_value.clone(),
            },
            ConfigEdit::SetInteger { segments, value } => ConfigEdit::SetInteger {
                segments: clone_texts(segments),
                value: *value,
            },
            ConfigEdit::ClearPath { segments } => ConfigEdit::ClearPath {
                segments: clone_texts(segments),
            },
        }
    }
}

/// Why a runtime or a session is not found.
#[derive(Debug, PartialEq, Eq)]
pub enum RuntimeError {
    WindowNotPositive,
    UnknownWindow,
    UnresolvedTarget { target: String },
    InvalidThreadId { id: String },
}

/// What a [`RuntimeError`] stands for.
pub enum RuntimeErrorView {
    WindowNotPositive,
    UnknownWindow,
    UnresolvedTarget { target: Seq<char> },
    InvalidThreadId { id: Seq<char> },
}

impl View for RuntimeError {
    type V = RuntimeErrorView;

    open spec fn view(&self) -> RuntimeErrorView {
        match *self {
            RuntimeError::WindowNotPositive => RuntimeErrorView::WindowNotPositive,
            RuntimeError::UnknownWindow => RuntimeErrorView::UnknownWindow,
            RuntimeError::UnresolvedTarget { target } => RuntimeErrorView::UnresolvedTarget {
                target: target@,
            },
            RuntimeError::InvalidThreadId { id } => RuntimeErrorView::InvalidThreadId { id: id@ },
        }
    }
}

impl DeepView for RuntimeError {
    type V = RuntimeErrorView;

    open spec fn deep_view(&self) -> RuntimeErrorView {
        self@
    }
}

impl Clone for RuntimeError {
    fn clone(&self) -> (out: Self)
        ensures
            out@ == self@,
    {
        match self {
            RuntimeError::WindowNotPositive => RuntimeError::WindowNotPositive,
            RuntimeError::UnknownWindow => RuntimeError::UnknownWindow,
            RuntimeError::UnresolvedTarget { target } => RuntimeError::UnresolvedTarget {
                target: target.clone(),
            },
            RuntimeError::InvalidThreadId { id } => RuntimeError::InvalidThreadId {
                id: id.clone(),
            },
        }
    }
}

/// The message for an error.
pub open spec fn runtime_error_text(error: RuntimeErrorView) -> Seq<char> {
    match error {
        RuntimeErrorView::WindowNotPositive => "context window must be positive"@,
        RuntimeErrorView::UnknownWindow => "could not resolve context window from the selected runtime; pass --context-window explicitly"@,
        RuntimeErrorView::UnresolvedTarget { target } => "unable to resolve target `"@ + target + "` as rollout path, thread id, or thread name"@,
        RuntimeErrorView::InvalidThreadId { id } => "invalid thread id `"@ + id + "`"@,
    }
}

/// The message for an error.
pub fn runtime_error_message(error: &RuntimeError) -> (out: String)
    ensures
        out@ == runtime_error_text(error@),
{
    match error {
        RuntimeError::WindowNotPositive => "context window must be positive".to_owned(),
        RuntimeError::UnknownWindow => "could not resolve context window from the selected runtime; pass --context-window explicitly".to_owned(),
        RuntimeError::UnresolvedTarget { target } => cat3(
            "unable to resolve target `",
            target.as_str(),
            "` as rollout path, thread id, or thread name",
        ),
        RuntimeError::InvalidThreadId { id } => cat3("invalid thread id `", id.as_str(), "`"),
    }
}

// ------------------------------------------------------------------------ requests

pub open spec fn first_number(a: Option<i64>, b: Option<i64>) -> Option<i64> {
    match a {
        Some(value) => Some(value),
        None => b,
    }
}

fn or_number(a: Option<i64>, b: Option<i64>) -> (out: Option<i64>)
    ensures
        out == first_number(a, b),
{
    match a {
        Some(value) => Some(value),
        None => b,
    }
}

/// The runtime of a profile, with nothing overridden.
pub fn profile_runtime_request(config_profile: &Option<String>) -> (out: RuntimeRequest)
    ensures
        out@ == (RuntimeRequestView {
            config_profile: text::opt_text(*config_profile),
            cwd: None,
            model: None,
            provider: None,
            context_window: None,
            auto_compact_token_limit: None,
        }),
{
    RuntimeRequest {
        config_profile: clone_opt(config_profile),
        cwd: None,
        model: None,
        provider: None,
        context_window: None,
        auto_compact_token_limit: None,
    }
}

/// A runtime like that of a session, with some of its settings replaced.
pub open spec fn session_request(
    config_profile: Option<Seq<char>>,
    summary: SessionSummaryView,
    model: Option<Seq<char>>,
    provider: Option<Seq<char>>,
    context_window: Option<i64>,
    auto_compact_token_limit: Option<i64>,
) -> RuntimeRequestView {
    RuntimeRequestView {
        config_profile,
        cwd: Some(summary.session_cwd),
        model: text::first_present(model, summary.latest_model),
        provider: text::first_present(provider, summary.session_provider),
        context_window: first_number(context_window, summary.latest_model_context_window),
        auto_compact_token_limit,
    }
}

/// A runtime like that of a session, with some of its settings replaced.
pub fn overridden_session_request(
    config_profile: &Option<String>,
    summary: &SessionSummary,
    model: &Option<String>,
    provider: &Option<String>,
    context_window: Option<i64>,
    auto_compact_token_limit: Option<i64>,
) -> (out: RuntimeRequest)
    ensures
        out@ == session_request(
            text::opt_text(*config_profile),
            summary@,
            text::opt_text(*model),
            text::opt_text(*provider),
            context_window,
            auto_compact_token_limit,
        ),
{
    RuntimeRequest {
        config_profile: clone_opt(config_profile),
        cwd: Some(summary.session_cwd.clone()),
        model: or_opt(model, &summary.latest_model),
        provider: or_opt(provider, &summary.session_provider),
        context_window: or_number(context_window, summary.latest_model_context_window),
        auto_compact_token_limit,
    }
}

/// The runtime of a session as it is.
pub fn load_session_runtime_config(
    config_profile: &Option<String>,
    summary: &SessionSummary,
) -> (out: RuntimeRequest)
    ensures
        out@ == session_request(
            text::opt_text(*config_profile),
            summary@,
            None,
            None,
            None,
            None,
        ),
{
    overridden_session_request(config_profile, summary, &None, &None, None, None)
}

/// The runtime for the successor of a distilled session.
pub fn load_distill_runtime_config(args: &DistillArgs, summary: &SessionSummary) -> (out:
    RuntimeRequest)
    ensures
        out@ == session_request(
            args@.target.config_profile,
            summary@,
            args@.model,
            args@.provider,
            args@.context_window,
            args@.auto_compact_token_limit,
        ),
{
    overridden_session_request(
        &args.target.config_profile,
        summary,
        &args.model,
        &args.provider,
        args.context_window,
        args.auto_compact_token_limit,
    )
}

/// The runtime from which the window for a repair is taken.
pub fn resume_state_request(args: &RepairResumeStateArgs, summary: &SessionSummary) -> (out:
    RuntimeRequest)
    ensures
        out@ == (RuntimeRequestView {
            context_window: None,
            ..session_request(
                args@.target.config_profile,
                summary@,
                args@.model,
                args@.provider,
                None,
                None,
            )
        }),
{
    RuntimeRequest {
        config_profile: clone_opt(&args.target.config_profile),
        cwd: Some(summary.session_cwd.clone()),
        model: or_opt(&args.model, &summary.latest_model),
        provider: or_opt(&args.provider, &summary.session_provider),
        context_window: None,
        auto_compact_token_limit: None,
    }
}

/// The settings of a request that override the configuration by their key.
pub open spec fn overrides_of(request: RuntimeRequestView) -> Seq<(Seq<char>, i64)> {
    let window = match request.context_window {
        Some(value) => seq![("model_context_window"@, value)],
        None => Seq::empty(),
    };
    let limit = match request.auto_compact_token_limit {
        Some(value) => seq![("model_auto_compact_token_limit"@, value)],
        None => Seq::empty(),
    };
    window + limit
}

/// The settings of a request that override the configuration by their key.
pub fn config_overrides(request: &RuntimeRequest) -> (out: Vec<(String, i64)>)
    ensures
        out.deep_view() == overrides_of(request@),
{
    let mut out: Vec<(String, i64)> = Vec::new();
    if let Some(value) = request.context_window {
        out.push(("model_context_window".to_owned(), value));
    }
    if let Some(value) = request.auto_compact_token_limit {
        out.push(("model_auto_compact_token_limit".to_owned(), value));
    }
    assert(out.deep_view() =~= overrides_of(request@));
    out
}

/// The window for a repair: the one given, which has to be positive, or that
/// of the runtime that [`resume_state_request`] asks for.
pub fn resolve_resume_state_context_window(
    args: &RepairResumeStateArgs,
    runtime_window: Option<i64>,
) -> (out: Result<i64, RuntimeError>)
    ensures
        match args@.context_window {
            Some(window) => if window <= 0 {
                out matches Err(error) && error@ == RuntimeErrorView::WindowNotPositive
            } else {
                out == Ok::<i64, RuntimeError>(window)
            },
            None => match runtime_window {
                Some(window) => out == Ok::<i64, RuntimeError>(window),
                None => out matches Err(error) && error@ == RuntimeErrorView::UnknownWindow,
            },
        },
{
    if let Some(window) = args.context_window {
        if window <= 0 {
            return Err(RuntimeError::WindowNotPositive);
        }
        return Ok(window);
    }
    match runtime_window {
        Some(window) => Ok(window),
        None => Err(RuntimeError::UnknownWindow),
    }
}

// -------------------------------------------------------------------- profile edits

/// The path of a setting, in a profile or at the top.
pub open spec fn scoped_segments(profile: Option<Seq<char>>, key: Seq<char>) -> Seq<Seq<char>> {
    let lines = Seq::<Seq<char>>::empty();
    let lines = if let Some(profile) = profile {
        let lines = lines.push("profiles"@);
        let lines = lines.push(profile);
        lines
    } else {
        lines
    };
    let lines = lines.push(key);
    lines
}

/// The path of a setting, in a profile or at the top.
pub fn scoped_config_segments(profile: Option<&str>, key: &str) -> (out: Vec<String>)
    ensures
        text::reads(out@, scoped_segments(text::opt_str(profile), key@)),
{
    let mut lines = no_texts();
    if let Some(profile) = profile {
        push_text(&mut lines, "profiles".to_owned());
        push_text(&mut lines, profile.to_owned());
    }
    push_text(&mut lines, key.to_owned());
    lines
}

/// The edit that gives a setting a number, or takes the setting away.
pub open spec fn number_edit(segments: Seq<Seq<char>>, value: Option<i64>) -> ConfigEditView {
    match value {
        Some(value) => ConfigEditView::SetInteger { segments, value },
        None => ConfigEditView::ClearPath { segments },
    }
}

fn push_edit(edits: &mut Vec<ConfigEdit>, edit: ConfigEdit)
    ensures
        final(edits).deep_view() == old(edits).deep_view().push(edit@),
{
    let ghost added = edit@;
    edits.push(edit);
    assert(edits.deep_view() =~= old(edits).deep_view().push(added));
}

/// Adds the edit that gives a setting a number, or takes the setting away.
pub fn push_optional_i64_edit(
    edits: &mut Vec<ConfigEdit>,
    profile: Option<&str>,
    key: &str,
    value_or_none: Option<i64>,
)
    ensures
        final(edits).deep_view() == old(edits).deep_view().push(
            number_edit(scoped_segments(text::opt_str(profile), key@), value_or_none),
        ),
{
    let segments = scoped_config_segments(profile, key);
    match value_or_none {
        Some(value) => push_edit(edits, ConfigEdit::SetInteger { segments, value }),
        None => push_edit(edits, ConfigEdit::ClearPath { segments }),
    }
}

/// The edits that write a runtime into a profile, besides its model.
pub open spec fn profile_edits(
    profile: Seq<char>,
    runtime: RuntimeConfigView,
) -> Seq<ConfigEditView> {
    seq![
        ConfigEditView::SetText {
            segments: scoped_segments(Some(profile), "model_provider"@),
            text_value: runtime.model_provider_id,
        },
        number_edit(
            scoped_segments(Some(profile), "model_context_window"@),
            runtime.model_context_window,
        ),
        number_edit(
            scoped_segments(Some(profile), "model_auto_compact_token_limit"@),
            runtime.model_auto_compact_token_limit,
        ),
    ]
}

/// The edits that write a runtime into a profile, besides its model.
pub fn write_profile_from_config(profile: &str, runtime: &RuntimeConfig) -> (out: Vec<ConfigEdit>)
    ensures
        out.deep_view() == profile_edits(profile@, runtime@),
{
    let mut edits: Vec<ConfigEdit> = Vec::new();
    assert(edits.deep_view() =~= Seq::<ConfigEditView>::empty());
    push_edit(
        &mut edits,
        ConfigEdit::SetText {
            segments: scoped_config_segments(Some(profile), "model_provider"),
            text_value: runtime.model_provider_id.clone(),
        },
    );
    push_optional_i64_edit(
        &mut edits,
        Some(profile),
        "model_context_window",
        runtime.model_context_window,
    );
    push_optional_i64_edit(
        &mut edits,
        Some(profile),
        "model_auto_compact_token_limit",
        runtime.model_auto_compact_token_limit,
    );
    assert(edits.deep_view() =~= profile_edits(profile@, runtime@));
    edits
}

// ------------------------------------------------------------------ finding a session

/// One step in finding the rollout that a target names.
#[derive(Debug, PartialEq, Eq)]
pub enum TargetStep {
    /// Look whether the target is the path of a file.
    AsPath,
    /// Look for an active session with the target as its id.
    AsActiveId,
    /// Look for an archived session with the target as its id.
    AsArchivedId,
    /// Look for an active session with the target as its name.
    AsActiveName,
    /// Look in the index for the id of a session with the target as its name.
    AsIndexedName,
    /// Look for an archived session with this id.
    ArchivedWithId { id: String },
    /// The rollout is found.
    Found { path: String },
    /// The target names no session.
    NotFound,
}

/// What a [`TargetStep`] stands for.
pub enum TargetStepView {
    AsPath,
    AsActiveId,
    AsArchivedId,
    AsActiveName,
    AsIndexedName,
    ArchivedWithId { id: Seq<char> },
    Found { path: Seq<char> },
    NotFound,
}

impl View for TargetStep {
    type V = TargetStepView;

    open spec fn view(&self) -> TargetStepView {
        match *self {
            TargetStep::AsPath => TargetStepView::AsPath,
            TargetStep::AsActiveId => TargetStepView::AsActiveId,
            TargetStep::AsArchivedId => TargetStepView::AsArchivedId,
            TargetStep::AsActiveName => TargetStepView::AsActiveName,
            TargetStep::AsIndexedName => TargetStepView::AsIndexedName,
            TargetStep::ArchivedWithId { id } => TargetStepView::ArchivedWithId { id: id@ },
            TargetStep::Found { path } => TargetStepView::Found { path: path@ },
            TargetStep::NotFound => TargetStepView::NotFound,
        }
    }
}

impl DeepView for TargetStep {
    type V = TargetStepView;

    open spec fn deep_view(&self) -> TargetStepView {
        self@
    }
}

impl Clone for TargetStep {
    fn clone(&self) -> (out: Self)
        ensures
            out@ == self@,
    {
        match self {
            TargetStep::AsPath => TargetStep::AsPath,
            TargetStep::AsActiveId => TargetStep::AsActiveId,
            TargetStep::AsArchivedId => TargetStep::AsArchivedId,
            TargetStep::AsActiveName => TargetStep::AsActiveName,
            TargetStep::AsIndexedName => TargetStep::AsIndexedName,
            TargetStep::ArchivedWithId { id } => TargetStep::ArchivedWithId { id: id.clone() },
            TargetStep::Found { path } => TargetStep::Found { path: path.clone() },
            TargetStep::NotFound => TargetStep::NotFound,
        }
    }
}

/// The step after one that came to this.
pub open spec fn after_step(step: TargetStepView, found: Option<Seq<char>>) -> TargetStepView {
    match found {
        Some(value) => if step is AsIndexedName {
            TargetStepView::ArchivedWithId { id: value }
        } else if step is Found || step is NotFound {
            step
        } else {
            TargetStepView::Found { path: value }
        },
        None => match step {
            TargetStepView::AsPath => TargetStepView::AsActiveId,
            TargetStepView::AsActiveId => TargetStepView::AsArchivedId,
            TargetStepView::AsArchivedId => TargetStepView::AsActiveName,
            TargetStepView::AsActiveName => TargetStepView::AsIndexedName,
            TargetStepView::AsIndexedName => TargetStepView::NotFound,
            TargetStepView::ArchivedWithId { .. } => TargetStepView::NotFound,
            TargetStepView::Found { path } => TargetStepView::Found { path },
            TargetStepView::NotFound => TargetStepView::NotFound,
        },
    }
}

/// The next step in finding a rollout. `found` is what the last step came to:
/// a path, or an id where the index was asked.
pub fn resolve_rollout_path(step: &TargetStep, found: &Option<String>) -> (out: TargetStep)
    ensures
        out@ == after_step(step@, text::opt_text(*found)),
{
    match found {
        Some(value) => match step {
            TargetStep::AsIndexedName => TargetStep::ArchivedWithId { id: value.clone() },
            TargetStep::Found { path } => TargetStep::Found { path: path.clone() },
            TargetStep::NotFound => TargetStep::NotFound,
            _ => TargetStep::Found { path: value.clone() },
        },
        None => match step {
            TargetStep::AsPath => TargetStep::AsActiveId,
            TargetStep::AsActiveId => TargetStep::AsArchivedId,
            TargetStep::AsArchivedId => TargetStep::AsActiveName,
            TargetStep::AsActiveName => TargetStep::AsIndexedName,
            TargetStep::AsIndexedName => TargetStep::NotFound,
            TargetStep::ArchivedWithId { .. } => TargetStep::NotFound,
            TargetStep::Found { path } => TargetStep::Found { path: path.clone() },
            TargetStep::NotFound => TargetStep::NotFound,
        },
    }
}

/// How many steps are left at most.
pub open spec fn steps_left(step: TargetStepView) -> nat {
    match step {
        TargetStepView::AsPath => 6,
        TargetStepView::AsActiveId => 5,
        TargetStepView::AsArchivedId => 4,
        TargetStepView::AsActiveName => 3,
        TargetStepView::AsIndexedName => 2,
        TargetStepView::ArchivedWithId { .. } => 1,
        _ => 0,
    }
}

/// Finding a rollout comes to an end, and it ends with a path only where a
/// step found that path.
pub proof fn finding_ends(step: TargetStepView, found: Option<Seq<char>>)
    ensures
        steps_left(step) > 0 ==> steps_left(after_step(step, found)) < steps_left(step),
        !(step is Found) && (after_step(step, found) matches TargetStepView::Found { path }) ==> found
            == Some(after_step(step, found)->path),
        steps_left(step) == 0 ==> after_step(step, found) == step,
{
}

// ------------------------------------------------------------------- session index

/// What an entry of the session index says.
#[derive(Debug, PartialEq, Eq)]
pub struct IndexEntry {
    pub thread_name: Option<String>,
    pub id: Option<String>,
}

/// What a [`IndexEntry`] stands for.
pub struct IndexEntryView {
    pub thread_name: Option<Seq<char>>,
    pub id: Option<Seq<char>>,
}

impl View for IndexEntry {
    type V = IndexEntryView;

    open spec fn view(&self) -> IndexEntryView {
        IndexEntryView {
            thread_name: text::opt_text(self.thread_name),
            id: text::opt_text(self.id),
        }
    }
}

impl DeepView for IndexEntry {
    type V = IndexEntryView;

    open spec fn deep_view(&self) -> IndexEntryView {
        self@
    }
}

impl Clone for IndexEntry {
    fn clone(&self) -> (out: Self)
        ensures
            out@ == self@,
    {
        IndexEntry {
            thread_name: clone_opt(&self.thread_name),
            id: clone_opt(&self.id),
        }
    }
}

/// The text under a key of a JSON object, as `serde_json` reads it; nothing
/// where the line is no JSON, or has no text there.
pub uninterp spec fn json_text_field(line: Seq<char>, key: Seq<char>) -> Option<Seq<char>>;

/// Calls `serde_json::from_str` for a `Value`, `Value::get` and
/// `Value::as_str`. The result is a function of the two texts.
#[verifier::external_body]
fn read_json_field(line: &str, key: &str) -> (out: Option<String>)
    ensures
        text::opt_text(out) == json_text_field(line@, key@),
{
    let value = serde_json::from_str::<serde_json::Value>(line).ok()?;
    value.get(key)?.as_str().map(str::to_string)
}

/// The canonical form of a thread id, as `codex_protocol` reads and prints it;
/// nothing where the text is no thread id.
pub uninterp spec fn canonical_thread_id(id: Seq<char>) -> Option<Seq<char>>;

/// Calls `ConversationId::from_string` of `codex_protocol` and prints the id.
/// The result is a function of the text.
#[verifier::external_body]
pub(crate) fn read_thread_id(id: &str) -> (out: Option<String>)
    ensures
        text::opt_text(out) == canonical_thread_id(id@),
{
    codex_protocol::ConversationId::from_string(id).ok().map(|id| id.to_string())
}

/// The entries of an index, one for each line that is not blank.
pub open spec fn index_entries(lines: Seq<Seq<char>>) -> Seq<IndexEntryView>
    decreases lines.len(),
{
    if lines.len() == 0 {
        Seq::empty()
    } else {
        let line = text::trimmed(lines.last());
        if line.len() == 0 {
            index_entries(lines.drop_last())
        } else {
            index_entries(lines.drop_last()).push(
                IndexEntryView {
                    thread_name: json_text_field(line, "thread_name"@),
                    id: json_text_field(line, "id"@),
                },
            )
        }
    }
}

fn read_index_entries(contents: &str) -> (out: Vec<IndexEntry>)
    ensures
        out.deep_view() == index_entries(lines::lines_of(contents@)),
{
    let all_lines = crate::lines::lines(contents);
    let mut out: Vec<IndexEntry> = Vec::new();
    let ghost all = lines::lines_of(contents@);
    assert(out.deep_view() =~= index_entries(all.take(0)));
    for i in 0..all_lines.len()
        invariant
            all == text::texts(all_lines@),
            out.deep_view() == index_entries(all.take(i as int)),
    {
        assert(all.take(i + 1).drop_last() =~= all.take(i as int));
        assert(all[i as int] == all_lines@[i as int]@);
        let line = trim(all_lines[i].as_str());
        if !line.as_str().is_empty() {
            let entry = IndexEntry {
                thread_name: read_json_field(line.as_str(), "thread_name"),
                id: read_json_field(line.as_str(), "id"),
            };
            let ghost before = out.deep_view();
            let ghost added = entry@;
            out.push(entry);
            assert(out.deep_view() =~= before.push(added));
        }
    }
    assert(all.take(all.len() as int) =~= all);
    out
}

/// The id in the last entry that has this name and an id.
pub open spec fn latest_id(entries: Seq<IndexEntryView>, name: Seq<char>) -> Option<Seq<char>>
    decreases entries.len(),
{
    if entries.len() == 0 {
        None
    } else if entries.last().thread_name == Some(name) && entries.last().id is Some {
        entries.last().id
    } else {
        latest_id(entries.drop_last(), name)
    }
}

/// The id in the last entry that has this name and an id.
pub fn latest_thread_id(entries: &Vec<IndexEntry>, name: &str) -> (out: Option<String>)
    ensures
        text::opt_text(out) == latest_id(entries.deep_view(), name@),
{
    let ghost all = entries.deep_view();
    let mut i: usize = entries.len();
    assert(all.take(i as int) =~= all);
    while i > 0
        invariant
            i <= entries@.len(),
            all == entries.deep_view(),
            latest_id(all, name@) == latest_id(all.take(i as int), name@),
        decreases i,
    {
        i = i - 1;
        assert(all.take(i + 1).drop_last() =~= all.take(i as int));
        assert(all[i as int] == entries@[i as int]@);
        if is_text(&entries[i].thread_name, name) && entries[i].id.is_some() {
            return clone_opt(&entries[i].id);
        }
    }
    None
}

/// The id of the session that the index last gave this name, in its canonical
/// form. `contents` is the text of the index where there is one.
pub fn find_thread_id_by_name_in_session_index(contents: &Option<String>, name: &str) -> (out:
    Result<Option<String>, RuntimeError>)
    ensures
        ({
            let id = match *contents {
                Some(contents) => if text::blank(name@) {
                    None
                } else {
                    latest_id(index_entries(lines::lines_of(contents@)), name@)
                },
                None => None,
            };
            match id {
                None => out == Ok::<Option<String>, RuntimeError>(None),
                Some(id) => match canonical_thread_id(id) {
                    Some(thread_id) => out matches Ok(found) && text::opt_text(found) == Some(
                        thread_id,
                    ),
                    None => out matches Err(error) && error@ == (RuntimeErrorView::InvalidThreadId {
                        id,
                    }),
                },
            }
        }),
{
    match contents {
        None => Ok(None),
        Some(contents) => {
            if is_blank(name) {
                return Ok(None);
            }
            let entries = read_index_entries(contents.as_str());
            match latest_thread_id(&entries, name) {
                None => Ok(None),
                Some(id) => match read_thread_id(id.as_str()) {
                    Some(thread_id) => Ok(Some(thread_id)),
                    None => Err(RuntimeError::InvalidThreadId { id }),
                },
            }
        },
    }
}

/// The index is append-only: a newer entry with the same name and an id hides
/// all older ones, and an entry with another name changes nothing.
pub proof fn newest_entry_wins(
    entries: Seq<IndexEntryView>,
    newest: IndexEntryView,
    name: Seq<char>,
)
    ensures
        newest.thread_name == Some(name) && newest.id is Some ==> latest_id(
            entries.push(newest),
            name,
        ) == newest.id,
        newest.thread_name != Some(name) ==> latest_id(entries.push(newest), name) == latest_id(
            entries,
            name,
        ),
{
    assert(entries.push(newest).drop_last() =~= entries);
}

// ------------------------------------------------------------------ resume commands

/// The bytes that a shell takes as they stand.
pub open spec fn shell_safe(byte: u8) -> bool {
    ||| 97 <= byte <= 122
    ||| 65 <= byte <= 90
    ||| 48 <= byte <= 57
    ||| byte == 95
    ||| byte == 45
    ||| byte == 46
    ||| byte == 47
    ||| byte == 58
}

/// Whether a shell takes a byte as it stands: ASCII letters and digits, and
/// `_`, `-`, `.`, `/` and `:`.
pub fn is_shell_safe_byte(byte: u8) -> (out: bool)
    ensures
        out == shell_safe(byte),
{
    (97 <= byte && byte <= 122) || (65 <= byte && byte <= 90) || (48 <= byte && byte <= 57) || byte
        == 95 || byte == 45 || byte == 46 || byte == 47 || byte == 58
}

/// All characters are ASCII and a shell takes them as they stand.
pub open spec fn all_shell_safe(value: Seq<char>) -> bool {
    forall|i: int|
        0 <= i < value.len() ==> (#[trigger] value[i]) < '\u{80}' && shell_safe(value[i] as u8)
}

/// A text with every single quote written as `'\''`.
pub open spec fn quotes_escaped(value: Seq<char>) -> Seq<char>
    decreases value.len(),
{
    if value.len() == 0 {
        Seq::empty()
    } else if value.last() == '\'' {
        quotes_escaped(value.drop_last()) + seq!['\'', '\\', '\'', '\'']
    } else {
        quotes_escaped(value.drop_last()).push(value.last())
    }
}

/// A text as one word of a shell command.
pub open spec fn shell_quoted(value: Seq<char>) -> Seq<char> {
    if value.len() == 0 {
        "''"@
    } else if all_shell_safe(value) {
        value
    } else {
        "'"@ + quotes_escaped(value) + "'"@
    }
}

/// A text as one word of a shell command: as it stands where a shell takes it
/// so, and in single quotes otherwise.
pub fn shell_quote(value: &str) -> (out: String)
    ensures
        out@ == shell_quoted(value@),
{
    if value.is_empty() {
        return "''".to_owned();
    }
    let chars = chars_of(value);
    let mut safe = true;
    let mut escaped = String::new();
    assert(chars@.take(0) =~= Seq::<char>::empty());
    for i in 0..chars.len()
        invariant
            chars@ == value@,
            safe ==> forall|j: int|
                0 <= j < i ==> (#[trigger] value@[j]) < '\u{80}' && shell_safe(value@[j] as u8),
            !safe ==> !all_shell_safe(value@),
            escaped@ == quotes_escaped(chars@.take(i as int)),
    {
        let ch = chars[i];
        assert(chars@.take(i + 1).drop_last() =~= chars@.take(i as int));
        if !(ch < '\u{80}' && is_shell_safe_byte(ch as u8)) {
            assert(value@[i as int] == ch);
            safe = false;
        }
        if ch == '\'' {
            let ghost before = escaped@;
            escaped.push('\'');
            escaped.push('\\');
            escaped.push('\'');
            escaped.push('\'');
            assert(escaped@ =~= before + seq!['\'', '\\', '\'', '\'']);
        } else {
            escaped.push(ch);
        }
    }
    assert(chars@.take(chars@.len() as int) =~= chars@);
    if safe {
        return value.to_owned();
    }
    cat3("'", escaped.as_str(), "'")
}

/// What a POSIX shell reads inside single quotes, from `from` on: characters up
/// to a quote stand for themselves, and `'\''` for one quote. Nothing where the
/// quotes do not close at the end.
pub open spec fn read_quoted(word: Seq<char>, from: int) -> Option<Seq<char>>
    decreases word.len() - from,
{
    if from < 0 || from >= word.len() {
        None
    } else if word[from] != '\'' {
        match read_quoted(word, from + 1) {
            Some(rest) => Some(seq![word[from]] + rest),
            None => None,
        }
    } else if from == word.len() - 1 {
        Some(Seq::empty())
    } else if from + 4 <= word.len() && word[from + 1] == '\\' && word[from + 2] == '\'' && word[from
        + 3] == '\'' {
        match read_quoted(word, from + 4) {
            Some(rest) => Some(seq!['\''] + rest),
            None => None,
        }
    } else {
        None
    }
}

proof fn quoted_reads_back(word: Seq<char>, from: int, value: Seq<char>, at: int)
    requires
        0 <= at <= value.len(),
        0 <= from,
        from + quotes_escaped(value).len() - quotes_escaped(value.take(at)).len() + 1 == word.len(),
        word.skip(from) == quotes_escaped(value).skip(
            quotes_escaped(value.take(at)).len() as int,
        ).push('\''),
        quotes_escaped(value.take(at)).is_prefix_of(quotes_escaped(value)),
    ensures
        read_quoted(word, from) == Some(value.skip(at)),
    decreases value.len() - at,
{
    let all = quotes_escaped(value);
    let done = quotes_escaped(value.take(at)).len() as int;
    if at == value.len() {
        assert(value.take(at) =~= value);
        assert(word.skip(from)[0] == '\'');
        assert(value.skip(at) =~= Seq::<char>::empty());
    } else {
        let next = value.take(at + 1);
        assert(next.drop_last() =~= value.take(at));
        escaped_is_prefix(value, at + 1);
        let more = quotes_escaped(next).len() as int;
        assert(quotes_escaped(next) == all.take(more));
        if value[at] == '\'' {
            assert(all.take(more)[done] == '\'');
            assert(all.take(more)[done + 1] == '\\');
            assert(all.take(more)[done + 2] == '\'');
            assert(all.take(more)[done + 3] == '\'');
            assert(word.skip(from)[0] == '\'');
            assert(word.skip(from)[1] == '\\');
            assert(word.skip(from)[2] == '\'');
            assert(word.skip(from)[3] == '\'');
            assert(word.skip(from + 4) =~= all.skip(more).push('\'')) by {
                assert(word.skip(from + 4) =~= word.skip(from).skip(4));
            }
            quoted_reads_back(word, from + 4, value, at + 1);
            assert(seq!['\''] + value.skip(at + 1) =~= value.skip(at));
        } else {
            assert(all.take(more)[done] == value[at]);
            assert(word.skip(from)[0] == value[at]);
            assert(word.skip(from + 1) =~= all.skip(more).push('\'')) by {
                assert(word.skip(from + 1) =~= word.skip(from).skip(1));
            }
            quoted_reads_back(word, from + 1, value, at + 1);
            assert(seq![value[at]] + value.skip(at + 1) =~= value.skip(at));
        }
    }
}

proof fn escaped_is_prefix(value: Seq<char>, at: int)
    requires
        0 <= at <= value.len(),
    ensures
        quotes_escaped(value.take(at)).is_prefix_of(quotes_escaped(value)),
    decreases value.len() - at,
{
    if at == value.len() {
        assert(value.take(at) =~= value);
    } else {
        escaped_is_prefix(value, at + 1);
        let next = value.take(at + 1);
        assert(next.drop_last() =~= value.take(at));
        let part = quotes_escaped(value.take(at));
        let longer = quotes_escaped(next);
        let all = quotes_escaped(value);
        assert(longer == all.take(longer.len() as int));
        assert(part =~= longer.take(part.len() as int));
        assert(part =~= all.take(part.len() as int)) by {
            assert forall|i: int| 0 <= i < part.len() implies part[i] == all[i] by {
                assert(longer[i] == all.take(longer.len() as int)[i]);
            }
        }
    }
}

/// The text that a word of a shell command stands for, where all its characters
/// are ones that a shell takes as they stand, or where it is in single quotes;
/// nothing for any other word.
pub open spec fn read_word(word: Seq<char>) -> Option<Seq<char>> {
    if word.len() == 0 {
        None
    } else if all_shell_safe(word) {
        Some(word)
    } else if word[0] == '\'' {
        read_quoted(word, 1)
    } else {
        None
    }
}

/// Each of these words stands for the text at its place.
pub open spec fn read_each(words: Seq<Seq<char>>, values: Seq<Seq<char>>) -> bool {
    words.len() == values.len() && forall|i: int|
        0 <= i < words.len() ==> read_word(#[trigger] words[i]) == Some(values[i])
}

proof fn escaping_never_shortens(value: Seq<char>)
    ensures
        quotes_escaped(value).len() >= value.len(),
    decreases value.len(),
{
    if value.len() > 0 {
        escaping_never_shortens(value.drop_last());
    }
}

/// A shell reads a quoted text as the text itself, whatever it holds. The text
/// is left without quotes exactly where it is not empty and a shell takes all
/// its characters as they stand.
pub proof fn quoting_reads_back(value: Seq<char>)
    ensures
        read_word(shell_quoted(value)) == Some(value),
        shell_quoted(value) == value <==> value.len() > 0 && all_shell_safe(value),
{
    let word = shell_quoted(value);
    if value.len() == 0 {
        reveal_strlit("''");
        assert(!(word[0] < '\u{80}' && shell_safe(word[0] as u8)));
        assert(read_quoted(word, 1) == Some(value));
    } else if !all_shell_safe(value) {
        reveal_strlit("'");
        let body = quotes_escaped(value);
        assert(value.take(0) =~= Seq::<char>::empty());
        assert(word.skip(1) =~= body.skip(0).push('\''));
        escaped_is_prefix(value, 0);
        quoted_reads_back(word, 1, value, 0);
        assert(value.skip(0) =~= value);
        assert(word[0] == '\'');
        assert(!(word[0] < '\u{80}' && shell_safe(word[0] as u8)));
        escaping_never_shortens(value);
    }
}

/// The command that resumes a session, for a profile where there is one.
/// `resume` is the command that the runtime gives.
pub open spec fn resume_command_text(
    profile: Option<Seq<char>>,
    thread_id: Seq<char>,
    resume: Option<Seq<char>>,
) -> Seq<char> {
    let resume = text::text_or(resume, "codex resume "@ + shell_quoted(thread_id));
    match profile {
        Some(profile) => {
            let suffix = if "codex "@.is_prefix_of(resume) {
                resume.skip("codex "@.len() as int)
            } else {
                resume
            };
            "codex --profile "@ + shell_quoted(profile) + " "@ + suffix
        },
        None => resume,
    }
}

/// The command that resumes a session, for a profile where there is one.
/// `resume` is the command that the runtime gives, where it gives one.
pub fn render_profiled_resume_command(
    runtime_profile: &Option<String>,
    thread_id: &str,
    resume: &Option<String>,
) -> (out: String)
    ensures
        out@ == resume_command_text(
            text::opt_text(*runtime_profile),
            thread_id@,
            text::opt_text(*resume),
        ),
{
    let resume = match resume {
        Some(resume) => resume.clone(),
        None => {
            let quoted = shell_quote(thread_id);
            cat2("codex resume ", quoted.as_str())
        },
    };
    match runtime_profile {
        Some(profile) => {
            let chars = chars_of(resume.as_str());
            let suffix = if has_prefix(resume.as_str(), "codex ") {
                let count = char_count("codex ");
                let rest = text_of(&chars, count, chars.len());
                assert(rest@ =~= resume@.skip("codex "@.len() as int));
                rest
            } else {
                resume
            };
            let quoted = shell_quote(profile.as_str());
            cat4("codex --profile ", quoted.as_str(), " ", suffix.as_str())
        },
        None => resume,
    }
}

/// A runtime for a session lies in its directory and takes everything else from
/// what is asked for first, and then from the session; how early it compacts is
/// what is asked for alone.
pub proof fn request_goes_before_session(
    config_profile: Option<Seq<char>>,
    summary: SessionSummaryView,
    model: Option<Seq<char>>,
    provider: Option<Seq<char>>,
    context_window: Option<i64>,
    auto_compact_token_limit: Option<i64>,
)
    ensures
        ({
            let out = session_request(
                config_profile,
                summary,
                model,
                provider,
                context_window,
                auto_compact_token_limit,
            );
            &&& out.config_profile == config_profile
            &&& out.cwd == Some(summary.session_cwd)
            &&& out.auto_compact_token_limit == auto_compact_token_limit
            &&& model is Some ==> out.model == model
            &&& model is None ==> out.model == summary.latest_model
            &&& provider is Some ==> out.provider == provider
            &&& provider is None ==> out.provider == summary.session_provider
            &&& context_window is Some ==> out.context_window == context_window
            &&& context_window is None ==> out.context_window
                == summary.latest_model_context_window
        }),
{
}

/// A request overrides the window and the limit exactly where it names them, the
/// window first.
pub proof fn overrides_are_what_is_named(request: RuntimeRequestView)
    ensures
        ({
            let out = overrides_of(request);
            let window = request.context_window;
            let limit = request.auto_compact_token_limit;
            &&& window is None && limit is None ==> out.len() == 0
            &&& window is Some && limit is None ==> out == seq![
                ("model_context_window"@, window.unwrap()),
            ]
            &&& window is None && limit is Some ==> out == seq![
                ("model_auto_compact_token_limit"@, limit.unwrap()),
            ]
            &&& window is Some && limit is Some ==> out == seq![
                ("model_context_window"@, window.unwrap()),
                ("model_auto_compact_token_limit"@, limit.unwrap()),
            ]
        }),
{
}

/// Writing a profile sets the provider of the runtime in it, and its window and
/// its limit where the runtime has them. Where it has none, the setting is
/// cleared.
pub proof fn profile_takes_over_the_runtime(profile: Seq<char>, runtime: RuntimeConfigView)
    ensures
        ({
            let edits = profile_edits(profile, runtime);
            let provider = seq!["profiles"@, profile, "model_provider"@];
            let window = seq!["profiles"@, profile, "model_context_window"@];
            let limit = seq!["profiles"@, profile, "model_auto_compact_token_limit"@];
            &&& edits.len() == 3
            &&& edits[0] == (ConfigEditView::SetText {
                segments: provider,
                text_value: runtime.model_provider_id,
            })
            &&& runtime.model_context_window matches Some(value) ==> edits[1] == (
            ConfigEditView::SetInteger { segments: window, value })
            &&& runtime.model_context_window is None ==> edits[1] == (ConfigEditView::ClearPath {
                segments: window,
            })
            &&& runtime.model_auto_compact_token_limit matches Some(value) ==> edits[2] == (
            ConfigEditView::SetInteger { segments: limit, value })
            &&& runtime.model_auto_compact_token_limit is None ==> edits[2] == (
            ConfigEditView::ClearPath { segments: limit })
        }),
{
    let provider = scoped_segments(Some(profile), "model_provider"@);
    assert(provider =~= seq!["profiles"@, profile, "model_provider"@]);
    let window = scoped_segments(Some(profile), "model_context_window"@);
    assert(window =~= seq!["profiles"@, profile, "model_context_window"@]);
    let limit = scoped_segments(Some(profile), "model_auto_compact_token_limit"@);
    assert(limit =~= seq!["profiles"@, profile, "model_auto_compact_token_limit"@]);
}

/// A setting outside of all profiles stands at the top of the configuration.
pub proof fn settings_at_the_top_have_no_scope(key: Seq<char>)
    ensures
        scoped_segments(None, key) == seq![key],
{
    assert(scoped_segments(None, key) =~= seq![key]);
}

/// A target is taken as a path, then as the id of an active and of an archived
/// session, then as the name of an active one, and then as a name in the index
/// that leads to an archived one. The first that is found counts.
pub proof fn target_is_looked_for_in_order(found: Seq<char>, id: Seq<char>)
    ensures
        after_step(TargetStepView::AsPath, None) == TargetStepView::AsActiveId,
        after_step(TargetStepView::AsActiveId, None) == TargetStepView::AsArchivedId,
        after_step(TargetStepView::AsArchivedId, None) == TargetStepView::AsActiveName,
        after_step(TargetStepView::AsActiveName, None) == TargetStepView::AsIndexedName,
        after_step(TargetStepView::AsIndexedName, None) == TargetStepView::NotFound,
        after_step(TargetStepView::ArchivedWithId { id }, None) == TargetStepView::NotFound,
        after_step(TargetStepView::AsPath, Some(found)) == (TargetStepView::Found { path: found }),
        after_step(TargetStepView::AsActiveId, Some(found)) == (TargetStepView::Found {
            path: found,
        }),
        after_step(TargetStepView::AsArchivedId, Some(found)) == (TargetStepView::Found {
            path: found,
        }),
        after_step(TargetStepView::AsActiveName, Some(found)) == (TargetStepView::Found {
            path: found,
        }),
        after_step(TargetStepView::AsIndexedName, Some(found)) == (
        TargetStepView::ArchivedWithId { id: found }),
        after_step(TargetStepView::ArchivedWithId { id }, Some(found)) == (TargetStepView::Found {
            path: found,
        }),
{
}

/// Every line of an index that is not blank is an entry, in the order of the
/// lines, with the name and the id that its JSON holds. One without an id counts
/// for nothing.
pub proof fn index_is_read_line_by_line(
    lines: Seq<Seq<char>>,
    line: Seq<char>,
    entries: Seq<IndexEntryView>,
    nameless: IndexEntryView,
    name: Seq<char>,
)
    requires
        nameless.id is None,
    ensures
        text::blank(line) ==> index_entries(lines.push(line)) == index_entries(lines),
        !text::blank(line) ==> {
            let out = index_entries(lines.push(line));
            &&& out.drop_last() == index_entries(lines)
            &&& out.len() == index_entries(lines).len() + 1
            &&& out.last().thread_name == json_text_field(text::trimmed(line), "thread_name"@)
            &&& out.last().id == json_text_field(text::trimmed(line), "id"@)
        },
        index_entries(Seq::empty()).len() == 0,
        latest_id(entries.push(nameless), name) == latest_id(entries, name),
        latest_id(Seq::empty(), name) is None,
{
    assert(lines.push(line).drop_last() =~= lines);
    text::trimmed_empty_iff_blank(line);
    let before = index_entries(lines);
    if !text::blank(line) {
        assert(index_entries(lines.push(line)).drop_last() =~= before);
    }
    assert(entries.push(nameless).drop_last() =~= entries);
}

/// The command that resumes a session is that of the runtime, or else `codex
/// resume` with the id. For a profile its name comes behind `codex`, and what the
/// command says stays.
pub proof fn resume_command_names_profile_and_session(
    profile: Seq<char>,
    thread_id: Seq<char>,
    rest: Seq<char>,
)
    ensures
        resume_command_text(None, thread_id, Some(rest)) == rest,
        resume_command_text(None, thread_id, None) == "codex resume "@ + shell_quoted(thread_id),
        resume_command_text(Some(profile), thread_id, Some("codex "@ + rest))
            == "codex --profile "@ + shell_quoted(profile) + " "@ + rest,
        !("codex "@.is_prefix_of(rest)) ==> resume_command_text(
            Some(profile),
            thread_id,
            Some(rest),
        ) == "codex --profile "@ + shell_quoted(profile) + " "@ + rest,
        resume_command_text(Some(profile), thread_id, None) == "codex --profile "@ + shell_quoted(
            profile,
        ) + " resume "@ + shell_quoted(thread_id),
{
    let whole = "codex "@ + rest;
    assert(whole.take("codex "@.len() as int) =~= "codex "@);
    assert(whole.skip("codex "@.len() as int) =~= rest);
    reveal_strlit("codex ");
    reveal_strlit("codex resume ");
    reveal_strlit(" ");
    reveal_strlit(" resume ");
    let plain = "codex resume "@ + shell_quoted(thread_id);
    assert(plain.take(6) =~= "codex "@);
    assert("codex --profile "@ + shell_quoted(profile) + " "@ + plain.skip(6)
        =~= "codex --profile "@ + shell_quoted(profile) + " resume "@ + shell_quoted(thread_id));
}

} // verus!
