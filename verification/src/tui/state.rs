//! The state of the terminal interface, and what its keys do.

use vstd::prelude::*;

use crate::cli::Command;
use crate::cli::CommandView;
use crate::cli::DistillArgs;
use crate::cli::DistillArgsView;
use crate::cli::FirstTokenPreviewArgs;
use crate::cli::FirstTokenPreviewArgsView;
use crate::cli::SmartArgs;
use crate::cli::SmartArgsView;
use crate::numbers;
use crate::numbers::usize_text;
use crate::paths;
use crate::paths::is_same_path;
use crate::picker;
use crate::text;
use crate::text::cat2;
use crate::text::cat9;
use crate::text::chars_of;
use crate::text::text_of;
use crate::tui::actions;
use crate::tui::actions::Action;
use crate::tui::actions::ActionInputKind;
use crate::tui::actions::offered_actions;
use crate::tui::catalog;
use crate::tui::catalog::Catalog;
use crate::tui::catalog::CatalogView;
use crate::tui::command_line;
use crate::tui::command_line::InputError;
use crate::tui::command_line::InputErrorView;
use crate::tui::command_line::PreparedCommand;
use crate::tui::command_line::PreparedCommandView;
use crate::tui::command_line::input_error_text;
use crate::tui::command_line::prepare_command;
use crate::tui::language;
use crate::tui::language::Language;
use crate::tui::results::ResultViewState;
use crate::tui::results::ResultViewStateView;
use crate::tui::threads;
use crate::tui::threads::ThreadEntry;
use crate::tui::threads::ThreadEntryView;
use crate::tui::threads::ThreadIdentity;
use crate::tui::threads::ThreadIdentityView;
use crate::types::SessionSummary;
use crate::types::SessionSummaryView;

verus! {

/// How long the selection has to rest before details are loaded, in
/// milliseconds.
pub const DETAIL_LOAD_DEBOUNCE_MILLIS: u64 = 450;

/// How long to wait for a key at most, in milliseconds.
pub const POLL_MILLIS: u64 = 250;

/// A key, as far as the interface reads it.
#[derive(Debug, Clone, Copy, PartialEq, Eq, Structural)]
pub enum Key {
    Up,
    Down,
    Enter,
    Esc,
    Backspace,
    SwitchLanguage,
    Char { ch: char },
    Other,
}

/// What is known of a session beyond the list.
#[derive(Debug, PartialEq, Eq)]
pub enum DetailState {
    Loaded(SessionSummary),
    Failed { error: String },
}

/// What a [`DetailState`] stands for.
pub enum DetailStateView {
    Loaded(SessionSummaryView),
    Failed { error: Seq<char> },
}

impl View for DetailState {
    type V = DetailStateView;

    open spec fn view(&self) -> DetailStateView {
        match *self {
            DetailState::Loaded(f0) => DetailStateView::Loaded(f0@),
            DetailState::Failed { error } => DetailStateView::Failed { error: error@ },
        }
    }
}

impl DeepView for DetailState {
    type V = DetailStateView;

    open spec fn deep_view(&self) -> DetailStateView {
        self@
    }
}

impl Clone for DetailState {
    fn clone(&self) -> (out: Self)
        ensures
            out@ == self@,
    {
        match self {
            DetailState::Loaded(f0) => DetailState::Loaded(f0.clone()),
            DetailState::Failed { error } => DetailState::Failed { error: error.clone() },
        }
    }
}

/// Details that were loaded, by the path of the rollout.
#[derive(Debug, PartialEq, Eq)]
pub struct CachedDetail {
    pub path: String,
    pub detail: DetailState,
}

/// What a [`CachedDetail`] stands for.
pub struct CachedDetailView {
    pub path: Seq<char>,
    pub detail: DetailStateView,
}

impl View for CachedDetail {
    type V = CachedDetailView;

    open spec fn view(&self) -> CachedDetailView {
        CachedDetailView {
            path: self.path@,
            detail: self.detail@,
        }
    }
}

impl DeepView for CachedDetail {
    type V = CachedDetailView;

    open spec fn deep_view(&self) -> CachedDetailView {
        self@
    }
}

impl Clone for CachedDetail {
    fn clone(&self) -> (out: Self)
        ensures
            out@ == self@,
    {
        CachedDetail {
            path: self.path.clone(),
            detail: self.detail.clone(),
        }
    }
}

/// What the interface is doing.
#[derive(Debug, PartialEq, Eq)]
pub enum Mode {
    Browsing,
    Actions { selected: usize },
    Prompt { action: Action, input: String },
    Result(ResultViewState),
}

/// What a [`Mode`] stands for.
pub enum ModeView {
    Browsing,
    Actions { selected: usize },
    Prompt { action: Action, input: Seq<char> },
    Result(ResultViewStateView),
}

impl View for Mode {
    type V = ModeView;

    open spec fn view(&self) -> ModeView {
        match *self {
            Mode::Browsing => ModeView::Browsing,
            Mode::Actions { selected } => ModeView::Actions { selected },
            Mode::Prompt { action, input } => ModeView::Prompt { action, input: input@ },
            Mode::Result(f0) => ModeView::Result(f0@),
        }
    }
}

impl DeepView for Mode {
    type V = ModeView;

    open spec fn deep_view(&self) -> ModeView {
        self@
    }
}

impl Clone for Mode {
    fn clone(&self) -> (out: Self)
        ensures
            out@ == self@,
    {
        match self {
            Mode::Browsing => Mode::Browsing,
            Mode::Actions { selected } => Mode::Actions { selected: *selected },
            Mode::Prompt { action, input } => Mode::Prompt {
                action: *action,
                input: input.clone(),
            },
            Mode::Result(f0) => Mode::Result(f0.clone()),
        }
    }
}

/// What is to be done after a key.
#[derive(Debug, PartialEq, Eq)]
pub enum UiEffect {
    Nothing,
    Quit,
    Reload,
    Execute(PreparedCommand),
    RunFirstTokenPreview(FirstTokenPreviewArgs),
    RunSmart(SmartArgs),
    RunDistill(DistillArgs),
}

/// What a [`UiEffect`] stands for.
pub enum UiEffectView {
    Nothing,
    Quit,
    Reload,
    Execute(PreparedCommandView),
    RunFirstTokenPreview(FirstTokenPreviewArgsView),
    RunSmart(SmartArgsView),
    RunDistill(DistillArgsView),
}

impl View for UiEffect {
    type V = UiEffectView;

    open spec fn view(&self) -> UiEffectView {
        match *self {
            UiEffect::Nothing => UiEffectView::Nothing,
            UiEffect::Quit => UiEffectView::Quit,
            UiEffect::Reload => UiEffectView::Reload,
            UiEffect::Execute(f0) => UiEffectView::Execute(f0@),
            UiEffect::RunFirstTokenPreview(f0) => UiEffectView::RunFirstTokenPreview(f0@),
            UiEffect::RunSmart(f0) => UiEffectView::RunSmart(f0@),
            UiEffect::RunDistill(f0) => UiEffectView::RunDistill(f0@),
        }
    }
}

impl DeepView for UiEffect {
    type V = UiEffectView;

    open spec fn deep_view(&self) -> UiEffectView {
        self@
    }
}

impl Clone for UiEffect {
    fn clone(&self) -> (out: Self)
        ensures
            out@ == self@,
    {
        match self {
            UiEffect::Nothing => UiEffect::Nothing,
            UiEffect::Quit => UiEffect::Quit,
            UiEffect::Reload => UiEffect::Reload,
            UiEffect::Execute(f0) => UiEffect::Execute(f0.clone()),
            UiEffect::RunFirstTokenPreview(f0) => UiEffect::RunFirstTokenPreview(f0.clone()),
            UiEffect::RunSmart(f0) => UiEffect::RunSmart(f0.clone()),
            UiEffect::RunDistill(f0) => UiEffect::RunDistill(f0.clone()),
        }
    }
}

/// What a key comes to: an effect, or a command to prepare.
#[derive(Debug, PartialEq, Eq)]
pub enum KeyStep {
    Done(UiEffect),
    Prepare { action: Action, typed: String, prompted: bool },
}

/// What a [`KeyStep`] stands for.
pub enum KeyStepView {
    Done(UiEffectView),
    Prepare { action: Action, typed: Seq<char>, prompted: bool },
}

impl View for KeyStep {
    type V = KeyStepView;

    open spec fn view(&self) -> KeyStepView {
        match *self {
            KeyStep::Done(f0) => KeyStepView::Done(f0@),
            KeyStep::Prepare { action, typed, prompted } => KeyStepView::Prepare {
                action,
                typed: typed@,
                prompted,
            },
        }
    }
}

impl DeepView for KeyStep {
    type V = KeyStepView;

    open spec fn deep_view(&self) -> KeyStepView {
        self@
    }
}

impl Clone for KeyStep {
    fn clone(&self) -> (out: Self)
        ensures
            out@ == self@,
    {
        match self {
            KeyStep::Done(f0) => KeyStep::Done(f0.clone()),
            KeyStep::Prepare { action, typed, prompted } => KeyStep::Prepare {
                action: *action,
                typed: typed.clone(),
                prompted: *prompted,
            },
        }
    }
}

/// The state of the interface.
#[derive(Debug, PartialEq, Eq)]
pub struct AppState {
    pub catalog: Catalog,
    /// The selected session, by its place in the list.
    pub selected_thread: usize,
    /// The first row that is shown.
    pub scroll: usize,
    pub mode: Mode,
    pub status: Option<String>,
    pub language: Language,
    pub detail_cache: Vec<CachedDetail>,
    /// The details of the selected session are to be loaded.
    pub detail_dirty: bool,
    /// When they are to be loaded, in milliseconds.
    pub detail_load_due_at: Option<u64>,
}

/// What an [`AppState`] stands for.
pub struct AppStateView {
    pub catalog: CatalogView,
    pub selected_thread: usize,
    pub scroll: usize,
    pub mode: ModeView,
    pub status: Option<Seq<char>>,
    pub language: Language,
    pub detail_cache: Seq<CachedDetailView>,
    pub detail_dirty: bool,
    pub detail_load_due_at: Option<u64>,
}

impl View for AppState {
    type V = AppStateView;

    open spec fn view(&self) -> AppStateView {
        AppStateView {
            catalog: self.catalog@,
            selected_thread: self.selected_thread,
            scroll: self.scroll,
            mode: self.mode@,
            status: text::opt_text(self.status),
            language: self.language,
            detail_cache: self.detail_cache.deep_view(),
            detail_dirty: self.detail_dirty,
            detail_load_due_at: self.detail_load_due_at,
        }
    }
}

// ------------------------------------------------------------------------- messages

/// What is said once the list is loaded.
pub open spec fn loaded_text(catalog: CatalogView, language: Language) -> Seq<char> {
    match language {
        Language::English => "Loaded "@ + numbers::decimal(catalog.threads.len() as int)
            + " threads across "@ + numbers::decimal(catalog.provider_count as int)
            + " providers ("@ + numbers::decimal(catalog.active_count as int) + " active, "@
            + numbers::decimal(catalog.archived_count as int) + " archived)"@,
        Language::Chinese => "已加载 "@ + numbers::decimal(catalog.threads.len() as int)
            + " 个线程，来自 "@ + numbers::decimal(catalog.provider_count as int)
            + " 个 provider（活跃 "@ + numbers::decimal(catalog.active_count as int) + "，归档 "@
            + numbers::decimal(catalog.archived_count as int) + "）"@,
    }
}

/// What is said once the language has changed.
pub open spec fn switched_text(language: Language) -> Seq<char> {
    match language {
        Language::English => "Language switched to English"@,
        Language::Chinese => "界面语言已切换为中文"@,
    }
}

/// What is said once the language has changed.
pub fn switched_message(language: Language) -> (out: String)
    ensures
        out@ == switched_text(language),
{
    match language {
        Language::English => "Language switched to English".to_owned(),
        Language::Chinese => "界面语言已切换为中文".to_owned(),
    }
}

/// What is said of input that cannot be used.
pub open spec fn refused_text(language: Language, error: Seq<char>) -> Seq<char> {
    match language {
        Language::English => "Input error: "@ + error,
        Language::Chinese => "输入错误："@ + error,
    }
}

/// What is said of input that cannot be used.
pub fn refused_message(language: Language, error: &str) -> (out: String)
    ensures
        out@ == refused_text(language, error@),
{
    match language {
        Language::English => cat2("Input error: ", error),
        Language::Chinese => cat2("输入错误：", error),
    }
}

/// What is said once a switch is cancelled.
pub open spec fn cancelled_text(language: Language) -> Seq<char> {
    match language {
        Language::English => "Smart switch cancelled"@,
        Language::Chinese => "已取消 smart 切换"@,
    }
}

/// What is said once a switch is cancelled.
pub fn cancelled_message(language: Language) -> (out: String)
    ensures
        out@ == cancelled_text(language),
{
    match language {
        Language::English => "Smart switch cancelled".to_owned(),
        Language::Chinese => "已取消 smart 切换".to_owned(),
    }
}

// ------------------------------------------------------------------------ selection

/// The selected session.
pub open spec fn chosen(app: AppStateView) -> Option<ThreadEntryView> {
    if app.selected_thread < app.catalog.ordered_threads.len() {
        Some(catalog::listed(app.catalog, app.selected_thread as int))
    } else {
        None
    }
}

/// The row of the selected session.
pub open spec fn chosen_row(app: AppStateView) -> Option<usize> {
    if app.selected_thread < app.catalog.ordered_threads.len() {
        Some(app.catalog.row_by_thread[app.catalog.ordered_threads[app.selected_thread as int] as int])
    } else {
        None
    }
}

/// The actions that are offered.
pub open spec fn offered_now(app: AppStateView) -> Seq<Action> {
    match chosen(app) {
        Some(entry) => actions::offered(entry.archived),
        None => Seq::empty(),
    }
}

/// What holds of the list at all times: the selection is in it, and a load of
/// details that is due has its time.
pub open spec fn list_ok(app: AppStateView) -> bool {
    &&& catalog::is_catalog(app.catalog)
    &&& app.catalog.threads.len() <= usize::MAX
    &&& app.selected_thread <= picker::last_index(app.catalog.ordered_threads.len())
    &&& app.detail_dirty <==> app.detail_load_due_at is Some
}

/// What holds of the interface at all times: the list is sound, the selected
/// action is one that is offered, and nothing is asked without a session.
pub open spec fn app_ok(app: AppStateView) -> bool {
    &&& list_ok(app)
    &&& app.mode matches ModeView::Actions { selected } ==> selected < offered_now(app).len()
    &&& app.mode is Prompt ==> chosen(app) is Some
}

/// The place of the details for a path, or the number of details where there
/// are none.
pub open spec fn place_for(details: Seq<CachedDetailView>, path: Seq<char>) -> int
    decreases details.len(),
{
    if details.len() == 0 || paths::same_path(details[0].path, path) {
        0
    } else {
        1 + place_for(details.skip(1), path)
    }
}

/// The details that are there for a path.
pub open spec fn cached(
    details: Seq<CachedDetailView>,
    path: Seq<char>,
) -> Option<DetailStateView> {
    let at = place_for(details, path);
    if at < details.len() {
        Some(details[at].detail)
    } else {
        None
    }
}

/// The details with those for a path taken in; others for that path go away.
pub open spec fn with_cached(
    details: Seq<CachedDetailView>,
    path: Seq<char>,
    detail: DetailStateView,
) -> Seq<CachedDetailView> {
    let at = place_for(details, path);
    if at < details.len() {
        details.update(at, CachedDetailView { path: details[at].path, detail })
    } else {
        details.push(CachedDetailView { path, detail })
    }
}

/// The interface with the load of details scheduled: where a session is
/// selected whose details are not there, after a rest.
pub open spec fn scheduled(app: AppStateView, now: u64) -> AppStateView {
    let wanted = chosen(app) matches Some(entry) && cached(
        app.detail_cache,
        entry.rollout_path,
    ) is None;
    AppStateView {
        detail_dirty: wanted,
        detail_load_due_at: if wanted {
            Some((now + DETAIL_LOAD_DEBOUNCE_MILLIS) as u64)
        } else {
            None
        },
        ..app
    }
}

/// The place in the list after a move, which stays in the list.
pub open spec fn moved(selected: int, delta: int, count: nat) -> int {
    if count == 0 || selected + delta < 0 {
        0
    } else if delta > 0 && selected + delta > count - 1 {
        count - 1
    } else {
        selected + delta
    }
}

/// The interface after a move of the selection.
pub open spec fn after_move(app: AppStateView, delta: int, now: u64) -> AppStateView {
    let place = moved(
        app.selected_thread as int,
        delta,
        app.catalog.ordered_threads.len(),
    ) as usize;
    let there = AppStateView { selected_thread: place, ..app };
    if place != app.selected_thread {
        scheduled(there, now)
    } else {
        there
    }
}

// ----------------------------------------------------------------------------- keys

/// The interface and the step after a key while the list is shown.
pub open spec fn after_browse_key(app: AppStateView, key: Key, now: u64) -> (
    AppStateView,
    KeyStepView,
) {
    let nothing = KeyStepView::Done(UiEffectView::Nothing);
    match key {
        Key::Char { ch } => if ch == 'q' {
            (app, KeyStepView::Done(UiEffectView::Quit))
        } else if ch == 'r' {
            (app, KeyStepView::Done(UiEffectView::Reload))
        } else {
            (app, nothing)
        },
        Key::Up => (after_move(app, -1, now), nothing),
        Key::Down => (after_move(app, 1, now), nothing),
        Key::Enter => if chosen(app) is Some {
            (AppStateView { mode: ModeView::Actions { selected: 0 }, ..app }, nothing)
        } else {
            (app, nothing)
        },
        _ => (app, nothing),
    }
}

/// The interface and the step after a key while actions are offered.
pub open spec fn after_action_key(app: AppStateView, key: Key, selected: usize) -> (
    AppStateView,
    KeyStepView,
) {
    let nothing = KeyStepView::Done(UiEffectView::Nothing);
    let offered = offered_now(app);
    match key {
        Key::Esc => (AppStateView { mode: ModeView::Browsing, ..app }, nothing),
        Key::Up => (
            AppStateView { mode: ModeView::Actions { selected: picker::one_up(selected) }, ..app },
            nothing,
        ),
        Key::Down => (
            AppStateView {
                mode: ModeView::Actions { selected: picker::one_down(selected, offered.len()) },
                ..app
            },
            nothing,
        ),
        Key::Enter => {
            let action = offered[selected as int];
            if actions::input_kind_of(action) is NoInput {
                (
                    AppStateView { mode: ModeView::Browsing, ..app },
                    KeyStepView::Prepare { action, typed: ""@, prompted: false },
                )
            } else {
                (AppStateView { mode: ModeView::Prompt { action, input: ""@ }, ..app }, nothing)
            }
        },
        _ => (app, nothing),
    }
}

/// The interface and the step after a key while input is typed.
pub open spec fn after_prompt_key(
    app: AppStateView,
    key: Key,
    action: Action,
    input: Seq<char>,
) -> (AppStateView, KeyStepView) {
    let nothing = KeyStepView::Done(UiEffectView::Nothing);
    match key {
        Key::Esc => (AppStateView { mode: ModeView::Actions { selected: 0 }, ..app }, nothing),
        Key::Backspace => (
            AppStateView {
                mode: ModeView::Prompt {
                    action,
                    input: if input.len() == 0 {
                        input
                    } else {
                        input.drop_last()
                    },
                },
                ..app
            },
            nothing,
        ),
        Key::Enter => (app, KeyStepView::Prepare { action, typed: input, prompted: true }),
        Key::Char { ch } => (
            AppStateView { mode: ModeView::Prompt { action, input: input.push(ch) }, ..app },
            nothing,
        ),
        _ => (app, nothing),
    }
}

/// A page scrolled to another line.
pub open spec fn scrolled(page: ResultViewStateView, scroll: usize) -> ResultViewStateView {
    ResultViewStateView { scroll, ..page }
}

/// The interface and the step after a key while a page is shown.
pub open spec fn after_result_key(app: AppStateView, key: Key, page: ResultViewStateView) -> (
    AppStateView,
    KeyStepView,
) {
    let nothing = KeyStepView::Done(UiEffectView::Nothing);
    match key {
        Key::Esc => (AppStateView { mode: ModeView::Browsing, ..app }, nothing),
        Key::Enter => (AppStateView { mode: ModeView::Browsing, ..app }, nothing),
        Key::Up => (
            AppStateView {
                mode: ModeView::Result(scrolled(page, picker::one_up(page.scroll))),
                ..app
            },
            nothing,
        ),
        Key::Down => (
            AppStateView {
                mode: ModeView::Result(
                    scrolled(
                        page,
                        if page.scroll == usize::MAX {
                            usize::MAX
                        } else {
                            (page.scroll + 1) as usize
                        },
                    ),
                ),
                ..app
            },
            nothing,
        ),
        Key::Char { ch } => if ch == 'q' {
            (app, KeyStepView::Done(UiEffectView::Quit))
        } else {
            (app, nothing)
        },
        _ => (app, nothing),
    }
}

/// The interface and the step after a key.
pub open spec fn after_key(app: AppStateView, key: Key, now: u64) -> (AppStateView, KeyStepView) {
    if key == Key::SwitchLanguage {
        let language = language::other_language(app.language);
        (
            AppStateView { language, status: Some(switched_text(language)), ..app },
            KeyStepView::Done(UiEffectView::Nothing),
        )
    } else {
        match app.mode {
            ModeView::Browsing => after_browse_key(app, key, now),
            ModeView::Actions { selected } => after_action_key(app, key, selected),
            ModeView::Prompt { action, input } => after_prompt_key(app, key, action, input),
            ModeView::Result(page) => after_result_key(app, key, page),
        }
    }
}

/// How a command is carried out: some have a page of their own. Which ones
/// depends on whether something was typed for them.
pub open spec fn effect_of(prepared: PreparedCommandView, prompted: bool) -> UiEffectView {
    match prepared.command {
        CommandView::FirstTokenPreview(args) => UiEffectView::RunFirstTokenPreview(args),
        CommandView::Smart(args) => if prompted {
            UiEffectView::Execute(prepared)
        } else {
            UiEffectView::RunSmart(args)
        },
        CommandView::Distill(args) => if prompted {
            UiEffectView::RunDistill(args)
        } else {
            UiEffectView::Execute(prepared)
        },
        _ => UiEffectView::Execute(prepared),
    }
}

/// The interface and the outcome once a command was prepared. What was typed can
/// be put right; an action without input ends the interface.
pub open spec fn after_preparing(
    app: AppStateView,
    prompted: bool,
    prepared: Result<PreparedCommandView, InputErrorView>,
) -> (AppStateView, Result<UiEffectView, InputErrorView>) {
    match prepared {
        Ok(prepared) => (
            AppStateView { mode: ModeView::Browsing, ..app },
            Ok(effect_of(prepared, prompted)),
        ),
        Err(error) => if prompted {
            (
                AppStateView {
                    status: Some(
                        refused_text(
                            app.language,
                            command_line::input_error_message_text(error),
                        ),
                    ),
                    ..app
                },
                Ok(UiEffectView::Nothing),
            )
        } else {
            (app, Err(error))
        },
    }
}

/// The interface and the outcome of a key, with the command that it prepares.
pub open spec fn key_outcome(app: AppStateView, key: Key, now: u64) -> (
    AppStateView,
    Result<UiEffectView, InputErrorView>,
) {
    let (there, step) = after_key(app, key, now);
    match step {
        KeyStepView::Done(effect) => (there, Ok(effect)),
        KeyStepView::Prepare { action, typed, prompted } => match chosen(there) {
            Some(entry) => after_preparing(
                there,
                prompted,
                command_line::preparation(action, entry, typed),
            ),
            None => (there, Ok(UiEffectView::Nothing)),
        },
    }
}

/// A result stands for another.
pub open spec fn is_outcome(
    out: Result<UiEffect, InputError>,
    expected: Result<UiEffectView, InputErrorView>,
) -> bool {
    match out {
        Ok(effect) => expected == Ok::<UiEffectView, InputErrorView>(effect@),
        Err(error) => expected == Err::<UiEffectView, InputErrorView>(error@),
    }
}

// ----------------------------------------------------------------------------- laws

/// Everything that is listed is there.
proof fn listed_sessions_are_there(app: AppStateView)
    requires
        list_ok(app),
    ensures
        forall|k: int|
            0 <= k < app.catalog.ordered_threads.len() ==> #[trigger] app.catalog.ordered_threads[k]
                < app.catalog.threads.len(),
{
    let ordered = app.catalog.ordered_threads;
    catalog::every_session_is_listed_once(app.catalog.threads);
    assert forall|k: int| 0 <= k < ordered.len() implies #[trigger] ordered[k]
        < app.catalog.threads.len() by {
        assert(ordered.contains(ordered[k]));
    }
}

/// There always are actions to offer on a session.
proof fn some_action_is_offered(archived: bool)
    ensures
        actions::offered(archived).len() > 0,
{
    actions::offered_actions_fit(Action::Show, archived);
    assert(actions::offered(archived).contains(Action::Show));
}

/// No key breaks what holds of the interface.
pub proof fn keys_keep_the_interface_sound(app: AppStateView, key: Key, now: u64)
    requires
        app_ok(app),
        now + DETAIL_LOAD_DEBOUNCE_MILLIS <= u64::MAX,
    ensures
        app_ok(after_key(app, key, now).0),
        app_ok(key_outcome(app, key, now).0),
{
    if let Some(entry) = chosen(app) {
        some_action_is_offered(entry.archived);
    }
    let there = after_key(app, key, now).0;
    if let Some(entry) = chosen(there) {
        some_action_is_offered(entry.archived);
    }
}

/// Keys never change the sessions that are listed, nor the details that were
/// loaded; only a key in the list moves the selection.
pub proof fn keys_change_no_sessions(app: AppStateView, key: Key, now: u64)
    requires
        app_ok(app),
    ensures
        key_outcome(app, key, now).0.catalog == app.catalog,
        key_outcome(app, key, now).0.detail_cache == app.detail_cache,
        !(app.mode is Browsing) ==> key_outcome(app, key, now).0.selected_thread
            == app.selected_thread,
{
}

/// A command is prepared only for an action that is offered on the selected
/// session, and only by the key that confirms it.
pub proof fn only_offered_actions_are_prepared(app: AppStateView, key: Key, now: u64)
    requires
        app_ok(app),
    ensures
        after_key(app, key, now).1 matches KeyStepView::Prepare { action, typed, prompted }
            ==> key == Key::Enter && chosen(app) is Some && (!prompted ==> offered_now(app).contains(
            action,
        ) && typed == ""@),
{
}

/// The key that switches the language works wherever the interface is, and does
/// nothing else.
pub proof fn language_switches_everywhere(app: AppStateView, now: u64)
    ensures
        key_outcome(app, Key::SwitchLanguage, now).0 == (AppStateView {
            language: language::other_language(app.language),
            status: Some(switched_text(language::other_language(app.language))),
            ..app
        }),
        key_outcome(app, Key::SwitchLanguage, now).1 == Ok::<UiEffectView, InputErrorView>(
            UiEffectView::Nothing,
        ),
{
}

// ------------------------------------------------------------------- carrying it out

proof fn place_for_facts(details: Seq<CachedDetailView>, path: Seq<char>)
    ensures
        0 <= place_for(details, path) <= details.len(),
        place_for(details, path) < details.len() ==> paths::same_path(
            details[place_for(details, path)].path,
            path,
        ),
        forall|i: int|
            0 <= i < place_for(details, path) ==> !paths::same_path(
                #[trigger] details[i].path,
                path,
            ),
    decreases details.len(),
{
    if details.len() > 0 && !paths::same_path(details[0].path, path) {
        let rest = details.skip(1);
        place_for_facts(rest, path);
        assert forall|i: int| 0 <= i < place_for(details, path) implies !paths::same_path(
            #[trigger] details[i].path,
            path,
        ) by {
            if i > 0 {
                assert(rest[i - 1] == details[i]);
            }
        }
    }
}

fn find_place(details: &Vec<CachedDetail>, path: &str) -> (out: usize)
    ensures
        out == place_for(details.deep_view(), path@),
{
    let ghost all = details.deep_view();
    proof {
        place_for_facts(all, path@);
    }
    for i in 0..details.len()
        invariant
            all == details.deep_view(),
            0 <= place_for(all, path@) <= all.len(),
            place_for(all, path@) < all.len() ==> paths::same_path(
                all[place_for(all, path@)].path,
                path@,
            ),
            forall|j: int|
                0 <= j < place_for(all, path@) ==> !paths::same_path(
                    #[trigger] all[j].path,
                    path@,
                ),
            forall|j: int| 0 <= j < i ==> !paths::same_path(#[trigger] all[j].path, path@),
    {
        assert(all[i as int] == details@[i as int]@);
        if is_same_path(details[i].path.as_str(), path) {
            assert(paths::same_path(all[i as int].path, path@));
            return i;
        }
    }
    details.len()
}

fn find_cached<'a>(details: &'a Vec<CachedDetail>, path: &str) -> (out: Option<&'a DetailState>)
    ensures
        match out {
            Some(detail) => cached(details.deep_view(), path@) == Some(detail@),
            None => cached(details.deep_view(), path@) is None,
        },
{
    let at = find_place(details, path);
    proof {
        place_for_facts(details.deep_view(), path@);
    }
    if at < details.len() {
        assert(details.deep_view()[at as int] == details@[at as int]@);
        Some(&details[at].detail)
    } else {
        None
    }
}

/// Details that were taken in are found again, under every way to write their
/// path, and the details for other paths stay.
pub proof fn loaded_details_are_found(
    details: Seq<CachedDetailView>,
    path: Seq<char>,
    detail: DetailStateView,
    other: Seq<char>,
)
    ensures
        cached(with_cached(details, path, detail), other) == if paths::same_path(path, other) {
            Some(detail)
        } else {
            cached(details, other)
        },
{
    let out = with_cached(details, path, detail);
    place_for_facts(details, path);
    place_for_facts(details, other);
    place_for_facts(out, other);
    let at = place_for(details, path);
    let there = place_for(out, other);
    let before = place_for(details, other);
    assert forall|i: int| 0 <= i < details.len() implies (#[trigger] out[i]).path == details[i].path
        && (i != at ==> out[i] == details[i]) by {}
    if paths::same_path(path, other) {
        assert(paths::same_path(out[at].path, other));
        if there < at {
            assert(paths::same_path(details[there].path, path));
        }
    } else {
        if there < before {
            if there < details.len() {
                assert(!paths::same_path(details[there].path, other));
            }
        }
        if before < there && before < details.len() {
            assert(!paths::same_path(out[before].path, other));
        }
    }
}

/// The interface once details were loaded.
pub open spec fn with_detail(
    app: AppStateView,
    path: Seq<char>,
    detail: DetailStateView,
) -> AppStateView {
    AppStateView {
        detail_cache: with_cached(app.detail_cache, path, detail),
        detail_dirty: false,
        detail_load_due_at: None,
        ..app
    }
}

/// Whether details are to be loaded now.
pub open spec fn load_is_due(app: AppStateView, now: u64) -> bool {
    app.detail_dirty && (app.detail_load_due_at matches Some(deadline) && deadline <= now)
}

/// The interface with nothing to load.
pub open spec fn with_nothing_to_load(app: AppStateView) -> AppStateView {
    AppStateView { detail_dirty: false, detail_load_due_at: None, ..app }
}

/// The interface after a look at what is to be loaded, and the rollout whose
/// details are to be loaded.
pub open spec fn refreshed(app: AppStateView) -> (AppStateView, Option<Seq<char>>) {
    match chosen(app) {
        Some(entry) => if cached(app.detail_cache, entry.rollout_path) is Some {
            (with_nothing_to_load(app), None)
        } else {
            (app, Some(entry.rollout_path))
        },
        None => (with_nothing_to_load(app), None),
    }
}

/// The interface with another list.
pub open spec fn reloaded(
    app: AppStateView,
    catalog: CatalogView,
    selected_thread: usize,
    now: u64,
) -> AppStateView {
    let there = scheduled(
        AppStateView {
            catalog,
            selected_thread,
            scroll: 0,
            mode: ModeView::Browsing,
            detail_cache: Seq::empty(),
            ..app
        },
        now,
    );
    AppStateView { status: Some(loaded_text(catalog, app.language)), ..there }
}

/// The place of a session in a list, the first place where it is not there.
pub open spec fn is_place_of(
    catalog: CatalogView,
    preferred: Option<ThreadIdentityView>,
    place: usize,
) -> bool {
    match preferred {
        Some(identity) => if exists|at: int| catalog::first_named(catalog, identity, at) {
            catalog::first_named(catalog, identity, place as int)
        } else {
            place == 0
        },
        None => place == 0,
    }
}

/// The first row that is shown, so that the selected row is among the visible
/// ones.
pub open spec fn scroll_for(scroll: int, row: Option<usize>, visible_rows: int) -> int {
    match row {
        Some(row) => if visible_rows == 0 {
            0
        } else if row < scroll {
            row as int
        } else if row >= scroll + visible_rows {
            row + 1 - visible_rows
        } else {
            scroll
        },
        None => 0,
    }
}

/// The selected row is visible, and the list is not scrolled without need.
pub proof fn selection_stays_visible(scroll: int, row: usize, visible_rows: int)
    requires
        scroll >= 0,
        visible_rows > 0,
    ensures
        scroll_for(scroll, Some(row), visible_rows) <= row < scroll_for(
            scroll,
            Some(row),
            visible_rows,
        ) + visible_rows,
        scroll <= row < scroll + visible_rows ==> scroll_for(scroll, Some(row), visible_rows)
            == scroll,
        scroll_for(scroll, Some(row), visible_rows) >= 0,
{
}

/// How long to wait for a key: until details are due, and not too long.
pub open spec fn timeout_of(app: AppStateView, now: u64) -> int {
    match app.detail_load_due_at {
        Some(deadline) => if !app.detail_dirty || deadline - now > POLL_MILLIS {
            POLL_MILLIS as int
        } else if deadline <= now {
            0
        } else {
            deadline - now
        },
        None => POLL_MILLIS as int,
    }
}

impl AppState {
    /// The interface without sessions, in the language of the user.
    pub fn new() -> (out: Self)
        ensures
            app_ok(out@),
            out@ == (AppStateView {
                catalog: out@.catalog,
                selected_thread: 0,
                scroll: 0,
                mode: ModeView::Browsing,
                status: None,
                language: out@.language,
                detail_cache: Seq::empty(),
                detail_dirty: false,
                detail_load_due_at: None,
            }),
            out@.catalog.threads.len() == 0,
            chosen(out@) is None,
    {
        AppState::in_language(Language::detect())
    }

    /// The interface without sessions, in a language.
    pub fn in_language(language: Language) -> (out: Self)
        ensures
            app_ok(out@),
            out@ == (AppStateView {
                catalog: out@.catalog,
                selected_thread: 0,
                scroll: 0,
                mode: ModeView::Browsing,
                status: None,
                language,
                detail_cache: Seq::empty(),
                detail_dirty: false,
                detail_load_due_at: None,
            }),
            out@.catalog.threads.len() == 0,
            chosen(out@) is None,
    {
        let threads: Vec<ThreadEntry> = Vec::new();
        let catalog = Catalog::new(threads);
        let detail_cache: Vec<CachedDetail> = Vec::new();
        assert(detail_cache.deep_view() =~= Seq::<CachedDetailView>::empty());
        proof {
            catalog::every_session_is_listed_once(catalog@.threads);
            let ordered = catalog@.ordered_threads;
            if ordered.len() > 0 {
                assert(ordered.contains(ordered[0]));
            }
        }
        AppState {
            catalog,
            selected_thread: 0,
            scroll: 0,
            mode: Mode::Browsing,
            status: None,
            language,
            detail_cache,
            detail_dirty: false,
            detail_load_due_at: None,
        }
    }

    /// Takes a list that was loaded, and selects a session in it.
    pub fn reload(&mut self, catalog: Catalog, preferred: &Option<ThreadIdentity>, now: u64)
        requires
            catalog::is_catalog(catalog@),
            now + DETAIL_LOAD_DEBOUNCE_MILLIS <= u64::MAX,
        ensures
            final(self)@ == reloaded(
                old(self)@,
                catalog@,
                final(self)@.selected_thread,
                now,
            ),
            is_place_of(catalog@, preferred.deep_view(), final(self)@.selected_thread),
            app_ok(final(self)@),
    {
        let place = match preferred {
            Some(identity) => match catalog.find_selection(identity) {
                Some(at) => at,
                None => 0,
            },
            None => 0,
        };
        let count = catalog.threads.len();
        assert(catalog@.threads.len() == count);
        self.catalog = catalog;
        self.selected_thread = place;
        self.scroll = 0;
        self.mode = Mode::Browsing;
        self.detail_cache = Vec::new();
        assert(self.detail_cache.deep_view() =~= Seq::<CachedDetailView>::empty());
        self.detail_dirty = false;
        self.detail_load_due_at = None;
        self.schedule_selected_detail_refresh(now);
        self.status = Some(self.loaded_status_message());
    }

    /// The selected session.
    pub fn selected_entry(&self) -> (out: Option<&ThreadEntry>)
        requires
            list_ok(self@),
        ensures
            match out {
                Some(entry) => chosen(self@) == Some(entry@),
                None => chosen(self@) is None,
            },
    {
        proof {
            listed_sessions_are_there(self@);
        }
        if self.selected_thread < self.catalog.ordered_threads.len() {
            let index = self.catalog.ordered_threads[self.selected_thread];
            assert(self@.catalog.ordered_threads[self.selected_thread as int] == index);
            assert(self@.catalog.threads[index as int] == self.catalog.threads@[index as int]@);
            Some(&self.catalog.threads[index])
        } else {
            None
        }
    }

    /// What the selected session is found by after a reload.
    pub fn selected_identity(&self) -> (out: Option<ThreadIdentity>)
        requires
            list_ok(self@),
        ensures
            out.deep_view() == (match chosen(self@) {
                Some(entry) => Some(threads::identity_of(entry)),
                None => None,
            }),
    {
        match self.selected_entry() {
            Some(entry) => Some(entry.identity()),
            None => None,
        }
    }

    /// The row of the selected session.
    pub fn selected_row_index(&self) -> (out: Option<usize>)
        requires
            list_ok(self@),
        ensures
            out == chosen_row(self@),
    {
        proof {
            listed_sessions_are_there(self@);
        }
        if self.selected_thread < self.catalog.ordered_threads.len() {
            let index = self.catalog.ordered_threads[self.selected_thread];
            assert(self@.catalog.ordered_threads[self.selected_thread as int] == index);
            Some(self.catalog.row_by_thread[index])
        } else {
            None
        }
    }

    /// The details of the selected session, where they are there.
    pub fn selected_detail(&self) -> (out: Option<&DetailState>)
        requires
            list_ok(self@),
        ensures
            match out {
                Some(detail) => chosen(self@) is Some && cached(
                    self@.detail_cache,
                    chosen(self@).unwrap().rollout_path,
                ) == Some(detail@),
                None => chosen(self@) matches Some(entry) ==> cached(
                    self@.detail_cache,
                    entry.rollout_path,
                ) is None,
            },
    {
        match self.selected_entry() {
            Some(entry) => find_cached(&self.detail_cache, entry.rollout_path.as_str()),
            None => None,
        }
    }

    /// The actions that are offered on the selected session.
    pub fn available_actions(&self) -> (out: Vec<Action>)
        requires
            list_ok(self@),
        ensures
            out@ == offered_now(self@),
    {
        match self.selected_entry() {
            Some(entry) => offered_actions(entry.archived),
            None => Vec::new(),
        }
    }

    /// Schedules the load of the details of the selected session, unless they
    /// are there.
    pub fn schedule_selected_detail_refresh(&mut self, now: u64)
        requires
            list_ok(old(self)@),
            now + DETAIL_LOAD_DEBOUNCE_MILLIS <= u64::MAX,
        ensures
            final(self)@ == scheduled(old(self)@, now),
            list_ok(final(self)@),
            app_ok(old(self)@) ==> app_ok(final(self)@),
    {
        let wanted = match self.selected_entry() {
            Some(entry) => find_cached(
                &self.detail_cache,
                entry.rollout_path.as_str(),
            ).is_none(),
            None => false,
        };
        self.detail_dirty = wanted;
        self.detail_load_due_at = if wanted {
            Some(now + DETAIL_LOAD_DEBOUNCE_MILLIS)
        } else {
            None
        };
    }

    /// Moves the selection, as far as the list goes.
    pub fn move_selection(&mut self, delta: i32, now: u64)
        requires
            list_ok(old(self)@),
            now + DETAIL_LOAD_DEBOUNCE_MILLIS <= u64::MAX,
        ensures
            final(self)@ == after_move(old(self)@, delta as int, now),
            list_ok(final(self)@),
            app_ok(old(self)@) && !(old(self)@.mode is Actions) ==> app_ok(final(self)@),
    {
        let original = self.selected_thread;
        let count = self.catalog.ordered_threads.len();
        if count == 0 {
            self.selected_thread = 0;
            return;
        }
        if delta < 0 {
            let back = (0 - (delta as i64)) as usize;
            self.selected_thread = original.saturating_sub(back);
        } else if delta > 0 {
            let room = count - 1 - original;
            let forth = delta as usize;
            self.selected_thread = if forth > room {
                count - 1
            } else {
                original + forth
            };
        }
        if self.selected_thread != original {
            self.schedule_selected_detail_refresh(now);
        }
    }

    /// Scrolls the list so that the selected row is visible.
    pub fn ensure_scroll(&mut self, visible_rows: usize)
        requires
            app_ok(old(self)@),
        ensures
            final(self)@ == (AppStateView {
                scroll: scroll_for(
                    old(self)@.scroll as int,
                    chosen_row(old(self)@),
                    visible_rows as int,
                ) as usize,
                ..old(self)@
            }),
            app_ok(final(self)@),
    {
        match self.selected_row_index() {
            Some(row) => {
                if visible_rows == 0 {
                    self.scroll = 0;
                } else if row < self.scroll {
                    self.scroll = row;
                } else if row - self.scroll >= visible_rows {
                    self.scroll = row - visible_rows + 1;
                }
            },
            None => {
                self.scroll = 0;
            },
        }
    }

    /// The rollout whose details are to be loaded now, if there is one.
    pub fn refresh_selected_detail(&mut self) -> (out: Option<String>)
        requires
            app_ok(old(self)@),
        ensures
            (final(self)@, text::opt_text(out)) == refreshed(old(self)@),
            app_ok(final(self)@),
    {
        let path = match self.selected_entry() {
            Some(entry) => match find_cached(&self.detail_cache, entry.rollout_path.as_str()) {
                Some(_) => None,
                None => Some(entry.rollout_path.clone()),
            },
            None => None,
        };
        if path.is_none() {
            self.detail_dirty = false;
            self.detail_load_due_at = None;
        }
        path
    }

    /// The rollout whose details are to be loaded, if their time has come.
    pub fn refresh_selected_detail_if_due(&mut self, now: u64) -> (out: Option<String>)
        requires
            app_ok(old(self)@),
        ensures
            if load_is_due(old(self)@, now) {
                (final(self)@, text::opt_text(out)) == refreshed(old(self)@)
            } else {
                final(self)@ == old(self)@ && out is None
            },
            app_ok(final(self)@),
    {
        let due = match self.detail_load_due_at {
            Some(deadline) => self.detail_dirty && deadline <= now,
            None => false,
        };
        if due {
            self.refresh_selected_detail()
        } else {
            None
        }
    }

    /// Takes details that were loaded.
    pub fn detail_loaded(&mut self, path: String, detail: DetailState)
        requires
            app_ok(old(self)@),
        ensures
            final(self)@ == with_detail(old(self)@, path@, detail@),
            app_ok(final(self)@),
    {
        let ghost taken = with_cached(self@.detail_cache, path@, detail@);
        let at = find_place(&self.detail_cache, path.as_str());
        proof {
            place_for_facts(self@.detail_cache, path@);
        }
        if at < self.detail_cache.len() {
            let path = self.detail_cache[at].path.clone();
            self.detail_cache[at] = CachedDetail { path, detail };
        } else {
            self.detail_cache.push(CachedDetail { path, detail });
        }
        assert(self.detail_cache.deep_view() =~= taken);
        self.detail_dirty = false;
        self.detail_load_due_at = None;
    }

    /// How long to wait for a key, in milliseconds.
    pub fn poll_timeout(&self, now: u64) -> (out: u64)
        ensures
            out == timeout_of(self@, now),
    {
        match self.detail_load_due_at {
            Some(deadline) => {
                let left = deadline.saturating_sub(now);
                if self.detail_dirty && left < POLL_MILLIS {
                    left
                } else {
                    POLL_MILLIS
                }
            },
            None => POLL_MILLIS,
        }
    }

    /// What is said once the list is loaded.
    pub fn loaded_status_message(&self) -> (out: String)
        ensures
            out@ == loaded_text(self@.catalog, self@.language),
    {
        let threads = usize_text(self.catalog.threads.len());
        let providers = usize_text(self.catalog.provider_count);
        let active = usize_text(self.catalog.active_count);
        let archived = usize_text(self.catalog.archived_count);
        match self.language {
            Language::English => cat9(
                "Loaded ",
                threads.as_str(),
                " threads across ",
                providers.as_str(),
                " providers (",
                active.as_str(),
                " active, ",
                archived.as_str(),
                " archived)",
            ),
            Language::Chinese => cat9(
                "已加载 ",
                threads.as_str(),
                " 个线程，来自 ",
                providers.as_str(),
                " 个 provider（活跃 ",
                active.as_str(),
                "，归档 ",
                archived.as_str(),
                "）",
            ),
        }
    }

    /// What is said once the language has changed.
    pub fn language_switched_message(&self) -> (out: String)
        ensures
            out@ == switched_text(self@.language),
    {
        switched_message(self.language)
    }

    /// What is said of input that cannot be used.
    pub fn input_error_message(&self, error: &str) -> (out: String)
        ensures
            out@ == refused_text(self@.language, error@),
    {
        refused_message(self.language, error)
    }

    /// Shows a page.
    pub fn show_result(&mut self, page: ResultViewState)
        requires
            app_ok(old(self)@),
        ensures
            final(self)@ == (AppStateView { mode: ModeView::Result(page@), ..old(self)@ }),
            app_ok(final(self)@),
    {
        self.mode = Mode::Result(page);
    }

    /// Goes back to the list after a switch was cancelled.
    pub fn smart_cancelled(&mut self)
        requires
            app_ok(old(self)@),
        ensures
            final(self)@ == (AppStateView {
                mode: ModeView::Browsing,
                status: Some(cancelled_text(old(self)@.language)),
                ..old(self)@
            }),
            app_ok(final(self)@),
    {
        self.mode = Mode::Browsing;
        self.status = Some(cancelled_message(self.language));
    }

    fn handle_browse_key(&mut self, key: Key, now: u64) -> (out: KeyStep)
        requires
            app_ok(old(self)@),
            old(self)@.mode is Browsing,
            now + DETAIL_LOAD_DEBOUNCE_MILLIS <= u64::MAX,
        ensures
            (final(self)@, out@) == after_browse_key(old(self)@, key, now),
            app_ok(final(self)@),
    {
        match key {
            Key::Char { ch } => {
                if ch == 'q' {
                    KeyStep::Done(UiEffect::Quit)
                } else if ch == 'r' {
                    KeyStep::Done(UiEffect::Reload)
                } else {
                    KeyStep::Done(UiEffect::Nothing)
                }
            },
            Key::Up => {
                self.move_selection(-1, now);
                KeyStep::Done(UiEffect::Nothing)
            },
            Key::Down => {
                self.move_selection(1, now);
                KeyStep::Done(UiEffect::Nothing)
            },
            Key::Enter => {
                if self.selected_entry().is_some() {
                    self.mode = Mode::Actions { selected: 0 };
                    proof {
                        some_action_is_offered(chosen(self@).unwrap().archived);
                    }
                }
                KeyStep::Done(UiEffect::Nothing)
            },
            _ => KeyStep::Done(UiEffect::Nothing),
        }
    }

    fn handle_action_key(&mut self, key: Key, selected: usize) -> (out: KeyStep)
        requires
            app_ok(old(self)@),
            old(self)@.mode == (ModeView::Actions { selected }),
        ensures
            (final(self)@, out@) == after_action_key(old(self)@, key, selected),
            app_ok(final(self)@),
    {
        let actions = self.available_actions();
        match key {
            Key::Esc => {
                self.mode = Mode::Browsing;
                KeyStep::Done(UiEffect::Nothing)
            },
            Key::Up => {
                self.mode = Mode::Actions { selected: selected.saturating_sub(1) };
                KeyStep::Done(UiEffect::Nothing)
            },
            Key::Down => {
                let next = if selected + 1 < actions.len() {
                    selected + 1
                } else {
                    actions.len() - 1
                };
                self.mode = Mode::Actions { selected: next };
                KeyStep::Done(UiEffect::Nothing)
            },
            Key::Enter => {
                let action = actions[selected];
                match action.input_kind() {
                    ActionInputKind::NoInput => {
                        self.mode = Mode::Browsing;
                        KeyStep::Prepare { action, typed: "".to_owned(), prompted: false }
                    },
                    _ => {
                        self.mode = Mode::Prompt { action, input: "".to_owned() };
                        KeyStep::Done(UiEffect::Nothing)
                    },
                }
            },
            _ => KeyStep::Done(UiEffect::Nothing),
        }
    }

    fn handle_prompt_key(&mut self, key: Key, action: Action, input: String) -> (out: KeyStep)
        requires
            app_ok(old(self)@),
            old(self)@.mode == (ModeView::Prompt { action, input: input@ }),
        ensures
            (final(self)@, out@) == after_prompt_key(old(self)@, key, action, input@),
            app_ok(final(self)@),
    {
        match key {
            Key::Esc => {
                self.mode = Mode::Actions { selected: 0 };
                proof {
                    some_action_is_offered(chosen(self@).unwrap().archived);
                }
                KeyStep::Done(UiEffect::Nothing)
            },
            Key::Backspace => {
                let chars = chars_of(input.as_str());
                let count = chars.len();
                if count > 0 {
                    assert(chars@.subrange(0, count - 1) =~= input@.drop_last());
                    self.mode = Mode::Prompt { action, input: text_of(&chars, 0, count - 1) };
                }
                KeyStep::Done(UiEffect::Nothing)
            },
            Key::Enter => KeyStep::Prepare { action, typed: input, prompted: true },
            Key::Char { ch } => {
                let mut longer = input;
                longer.push(ch);
                self.mode = Mode::Prompt { action, input: longer };
                KeyStep::Done(UiEffect::Nothing)
            },
            _ => KeyStep::Done(UiEffect::Nothing),
        }
    }

    fn handle_result_key(&mut self, key: Key, page: ResultViewState) -> (out: KeyStep)
        requires
            app_ok(old(self)@),
            old(self)@.mode == ModeView::Result(page@),
        ensures
            (final(self)@, out@) == after_result_key(old(self)@, key, page@),
            app_ok(final(self)@),
    {
        match key {
            Key::Esc | Key::Enter => {
                self.mode = Mode::Browsing;
                KeyStep::Done(UiEffect::Nothing)
            },
            Key::Up => {
                let mut moved = page;
                moved.scroll = moved.scroll.saturating_sub(1);
                self.mode = Mode::Result(moved);
                KeyStep::Done(UiEffect::Nothing)
            },
            Key::Down => {
                let mut moved = page;
                moved.scroll = moved.scroll.saturating_add(1);
                self.mode = Mode::Result(moved);
                KeyStep::Done(UiEffect::Nothing)
            },
            Key::Char { ch } => {
                if ch == 'q' {
                    KeyStep::Done(UiEffect::Quit)
                } else {
                    KeyStep::Done(UiEffect::Nothing)
                }
            },
            _ => KeyStep::Done(UiEffect::Nothing),
        }
    }

    /// Takes a key, up to the command that it may prepare.
    pub fn take_key(&mut self, key: Key, now: u64) -> (out: KeyStep)
        requires
            app_ok(old(self)@),
            now + DETAIL_LOAD_DEBOUNCE_MILLIS <= u64::MAX,
        ensures
            (final(self)@, out@) == after_key(old(self)@, key, now),
            app_ok(final(self)@),
    {
        if matches!(key, Key::SwitchLanguage) {
            self.language = self.language.toggle();
            self.status = Some(self.language_switched_message());
            return KeyStep::Done(UiEffect::Nothing);
        }
        match self.mode.clone() {
            Mode::Browsing => self.handle_browse_key(key, now),
            Mode::Actions { selected } => self.handle_action_key(key, selected),
            Mode::Prompt { action, input } => self.handle_prompt_key(key, action, input),
            Mode::Result(page) => self.handle_result_key(key, page),
        }
    }

    /// Takes a command that was prepared, or why it was not.
    pub fn take_prepared(
        &mut self,
        prompted: bool,
        prepared: Result<PreparedCommand, InputError>,
    ) -> (out: Result<UiEffect, InputError>)
        requires
            app_ok(old(self)@),
        ensures
            ({
                let (there, outcome) = after_preparing(
                    old(self)@,
                    prompted,
                    match prepared {
                        Ok(prepared) => Ok(prepared@),
                        Err(error) => Err(error@),
                    },
                );
                final(self)@ == there && is_outcome(out, outcome)
            }),
            app_ok(final(self)@),
    {
        match prepared {
            Ok(prepared) => {
                self.mode = Mode::Browsing;
                Ok(
                    match (&prepared.command, prompted) {
                        (Command::FirstTokenPreview(args), _) => UiEffect::RunFirstTokenPreview(
                            args.clone(),
                        ),
                        (Command::Smart(args), false) => UiEffect::RunSmart(args.clone()),
                        (Command::Distill(args), true) => UiEffect::RunDistill(args.clone()),
                        _ => UiEffect::Execute(prepared),
                    },
                )
            },
            Err(error) => {
                if prompted {
                    let message = input_error_text(&error);
                    self.status = Some(self.input_error_message(message.as_str()));
                    Ok(UiEffect::Nothing)
                } else {
                    Err(error)
                }
            },
        }
    }

    /// Takes a key, and prepares the command that it asks for.
    pub fn handle_key(&mut self, key: Key, now: u64) -> (out: Result<UiEffect, InputError>)
        requires
            app_ok(old(self)@),
            now + DETAIL_LOAD_DEBOUNCE_MILLIS <= u64::MAX,
        ensures
            final(self)@ == key_outcome(old(self)@, key, now).0,
            is_outcome(out, key_outcome(old(self)@, key, now).1),
            app_ok(final(self)@),
    {
        match self.take_key(key, now) {
            KeyStep::Done(effect) => Ok(effect),
            KeyStep::Prepare { action, typed, prompted } => {
                let prepared = match self.selected_entry() {
                    Some(entry) => prepare_command(action, entry, typed.as_str()),
                    None => {
                        return Ok(UiEffect::Nothing);
                    },
                };
                self.take_prepared(prompted, prepared)
            },
        }
    }
}

/// Moving keeps the selection in the list; a step back undoes a step forth.
pub proof fn moves_stay_in_the_list(selected: int, delta: int, count: nat)
    requires
        0 <= selected <= picker::last_index(count),
    ensures
        0 <= moved(selected, delta, count) <= picker::last_index(count),
        delta == 1 && selected < picker::last_index(count) ==> moved(selected, delta, count)
            == selected + 1,
        delta == -1 && selected > 0 ==> moved(selected, delta, count) == selected - 1,
        selected < picker::last_index(count) ==> moved(moved(selected, 1, count), -1, count)
            == selected,
{
}

/// In the list the arrow keys move the selection by one and stop at the ends, `q`
/// quits, `r` loads the list again, and `Enter` offers the actions on the selected
/// session. No other key does anything.
pub proof fn keys_in_the_list(app: AppStateView, key: Key, now: u64)
    requires
        app_ok(app),
        app.mode is Browsing,
        key != Key::SwitchLanguage,
        app.catalog.ordered_threads.len() <= usize::MAX,
    ensures
        ({
            let (next, step) = after_key(app, key, now);
            let count = app.catalog.ordered_threads.len();
            &&& next.selected_thread == (if key == Key::Up && app.selected_thread > 0 {
                app.selected_thread - 1
            } else if key == Key::Down && app.selected_thread + 1 < count {
                app.selected_thread + 1
            } else {
                app.selected_thread as int
            })
            &&& key == Key::Enter && app.selected_thread < count <==> !(next.mode is Browsing)
            &&& !(next.mode is Browsing) ==> next.mode == (ModeView::Actions { selected: 0 })
            &&& key == (Key::Char { ch: 'q' }) <==> step == KeyStepView::Done(UiEffectView::Quit)
            &&& key == (Key::Char { ch: 'r' }) <==> step == KeyStepView::Done(UiEffectView::Reload)
            &&& key != (Key::Char { ch: 'q' }) && key != (Key::Char { ch: 'r' }) ==> step
                == KeyStepView::Done(UiEffectView::Nothing)
            &&& next.status == app.status && next.language == app.language
        }),
{
}

/// Among the actions the arrow keys move by one and stop at the ends, `Esc` goes
/// back to the list, and `Enter` prepares the selected action, or asks for its
/// input first where it takes some.
pub proof fn keys_among_the_actions(app: AppStateView, key: Key, selected: usize, now: u64)
    requires
        app_ok(app),
        app.mode == (ModeView::Actions { selected }),
        key != Key::SwitchLanguage,
        offered_now(app).len() <= usize::MAX,
    ensures
        ({
            let (next, step) = after_key(app, key, now);
            let action = offered_now(app)[selected as int];
            let bare = actions::input_kind_of(action) is NoInput;
            &&& key == Key::Esc ==> next.mode is Browsing
            &&& key == Key::Up ==> next.mode == (ModeView::Actions {
                selected: if selected > 0 { (selected - 1) as usize } else { 0 },
            })
            &&& key == Key::Down ==> next.mode == (ModeView::Actions {
                selected: if selected + 1 < offered_now(app).len() {
                    (selected + 1) as usize
                } else {
                    selected
                },
            })
            &&& key == Key::Enter && bare ==> next.mode is Browsing && step == (
            KeyStepView::Prepare { action, typed: ""@, prompted: false })
            &&& key == Key::Enter && !bare ==> next.mode == (ModeView::Prompt { action, input: ""@ })
            &&& step is Prepare <==> key == Key::Enter && bare
            &&& !(step is Prepare) ==> step == KeyStepView::Done(UiEffectView::Nothing)
            &&& next.selected_thread == app.selected_thread
        }),
{
}

/// While input is typed, characters go to its end and `Backspace` takes the last
/// one away; `Enter` prepares the action with what was typed, and `Esc` goes back
/// to the actions.
pub proof fn keys_while_input_is_typed(
    app: AppStateView,
    action: Action,
    input: Seq<char>,
    ch: char,
    now: u64,
)
    requires
        app.mode == (ModeView::Prompt { action, input }),
    ensures
        after_key(app, Key::Char { ch }, now).0.mode == (ModeView::Prompt {
            action,
            input: input.push(ch),
        }),
        after_key(app, Key::Char { ch }, now).1 == KeyStepView::Done(UiEffectView::Nothing),
        after_key(
            AppStateView { mode: ModeView::Prompt { action, input: input.push(ch) }, ..app },
            Key::Backspace,
            now,
        ).0.mode == app.mode,
        input.len() == 0 ==> after_key(app, Key::Backspace, now).0.mode == app.mode,
        after_key(app, Key::Esc, now).0.mode == (ModeView::Actions { selected: 0 }),
        after_key(app, Key::Esc, now).1 == KeyStepView::Done(UiEffectView::Nothing),
        after_key(app, Key::Enter, now) == (
            app,
            KeyStepView::Prepare { action, typed: input, prompted: true },
        ),
{
    assert(input.push(ch).drop_last() =~= input);
}

/// A page is scrolled by one line with the arrow keys and closed with `Esc` or
/// `Enter`; `q` quits.
pub proof fn keys_on_a_page(app: AppStateView, page: ResultViewStateView, key: Key, now: u64)
    requires
        app.mode == ModeView::Result(page),
        key != Key::SwitchLanguage,
    ensures
        ({
            let (next, step) = after_key(app, key, now);
            &&& key == Key::Esc || key == Key::Enter <==> next.mode is Browsing
            &&& next.mode matches ModeView::Result(shown) ==> {
                &&& shown.scroll == (if key == Key::Up && page.scroll > 0 {
                    page.scroll - 1
                } else if key == Key::Down && page.scroll < usize::MAX {
                    page.scroll + 1
                } else {
                    page.scroll as int
                })
                &&& shown == (ResultViewStateView { scroll: shown.scroll, ..page })
            }
            &&& next.mode is Browsing || next.mode is Result
            &&& key == (Key::Char { ch: 'q' }) <==> step == KeyStepView::Done(UiEffectView::Quit)
            &&& key != (Key::Char { ch: 'q' }) ==> step == KeyStepView::Done(UiEffectView::Nothing)
        }),
{
}

/// A preview of the first token always has a page of its own, a smart switch only
/// where nothing was typed for it, and a distillation only where something was.
/// Every other command is carried out as it stands.
pub proof fn commands_with_a_page_of_their_own(prepared: PreparedCommandView, prompted: bool)
    ensures
        ({
            let effect = effect_of(prepared, prompted);
            &&& prepared.command matches CommandView::FirstTokenPreview(args) ==> effect
                == UiEffectView::RunFirstTokenPreview(args)
            &&& prepared.command matches CommandView::Smart(args) ==> (!prompted ==> effect
                == UiEffectView::RunSmart(args))
            &&& prepared.command matches CommandView::Distill(args) ==> (prompted ==> effect
                == UiEffectView::RunDistill(args))
            &&& effect == UiEffectView::Execute(prepared) <==> {
                ||| prepared.command is Smart && prompted
                ||| prepared.command is Distill && !prompted
                ||| !(prepared.command is FirstTokenPreview || prepared.command is Smart
                    || prepared.command is Distill)
            }
        }),
{
}

/// A prepared command closes what was open. Input that is refused stays open with
/// the reason told; an action without input that is refused fails.
pub proof fn refused_input_can_be_put_right(
    app: AppStateView,
    prepared: PreparedCommandView,
    error: InputErrorView,
    prompted: bool,
)
    ensures
        ({
            let (next, out) = after_preparing(app, prompted, Ok(prepared));
            next.mode is Browsing && out == Ok::<UiEffectView, InputErrorView>(
                effect_of(prepared, prompted),
            ) && next.status == app.status
        }),
        ({
            let (next, out) = after_preparing(app, true, Err(error));
            let reason = command_line::input_error_message_text(error);
            &&& next.mode == app.mode
            &&& out == Ok::<UiEffectView, InputErrorView>(UiEffectView::Nothing)
            &&& next.status == Some(refused_text(app.language, reason))
        }),
        after_preparing(app, false, Err(error)) == (
            app,
            Err::<UiEffectView, InputErrorView>(error),
        ),
{
}

/// The details of a session that was moved to are to be loaded after a rest,
/// unless they are there already.
pub proof fn details_are_loaded_after_a_rest(app: AppStateView, now: u64)
    requires
        app_ok(app),
        now + 450 <= u64::MAX,
    ensures
        ({
            let next = scheduled(app, now);
            let missing = app.selected_thread < app.catalog.ordered_threads.len() && cached(
                app.detail_cache,
                catalog::listed(app.catalog, app.selected_thread as int).rollout_path,
            ) is None;
            &&& missing ==> next.detail_dirty && next.detail_load_due_at == Some((now + 450) as u64)
            &&& !missing ==> !next.detail_dirty && next.detail_load_due_at is None
            &&& next.selected_thread == app.selected_thread && next.detail_cache == app.detail_cache
            &&& missing ==> !load_is_due(next, now) && load_is_due(next, (now + 450) as u64)
            &&& missing ==> refreshed(next).1 == Some(
                catalog::listed(app.catalog, app.selected_thread as int).rollout_path,
            )
            &&& !missing ==> refreshed(next).1 is None
        }),
{
}

/// Once the details of the selected session are there, nothing is left to load.
pub proof fn loaded_details_end_the_wait(
    app: AppStateView,
    detail: DetailStateView,
    now: u64,
)
    requires
        chosen(app) is Some,
    ensures
        ({
            let path = chosen(app).unwrap().rollout_path;
            let next = with_detail(app, path, detail);
            &&& cached(next.detail_cache, path) == Some(detail)
            &&& !load_is_due(next, now)
            &&& refreshed(next).1 is None
            &&& next.selected_thread == app.selected_thread && next.catalog == app.catalog
        }),
{
    let path = chosen(app).unwrap().rollout_path;
    loaded_details_are_found(app.detail_cache, path, detail, path);
}

/// Another list is shown from its top, in the list itself, with the session that
/// it is opened at selected, no details kept, and its size told.
pub proof fn another_list_starts_anew(
    app: AppStateView,
    catalog: CatalogView,
    selected: usize,
    now: u64,
)
    ensures
        ({
            let next = reloaded(app, catalog, selected, now);
            &&& next.catalog == catalog
            &&& next.selected_thread == selected
            &&& next.scroll == 0
            &&& next.mode is Browsing
            &&& next.detail_cache.len() == 0
            &&& next.language == app.language
            &&& next.status == Some(loaded_text(catalog, app.language))
            &&& selected < catalog.ordered_threads.len() ==> next.detail_dirty
        }),
{
}

/// A key is waited for until details are due, and not longer than usual.
pub proof fn waiting_ends_where_details_are_due(app: AppStateView, now: u64)
    ensures
        0 <= timeout_of(app, now) <= 250,
        app.detail_dirty ==> (app.detail_load_due_at matches Some(deadline) ==> {
            &&& deadline <= now ==> timeout_of(app, now) == 0
            &&& now < deadline <= now + 250 ==> timeout_of(app, now) == deadline - now
        }),
        !app.detail_dirty || app.detail_load_due_at is None ==> timeout_of(app, now) == 250,
{
}

/// A list is opened at the first session that is looked for, and at its first
/// place where that is not there or none is looked for.
pub proof fn list_opens_at_the_session_that_is_looked_for(
    catalog: CatalogView,
    identity: ThreadIdentityView,
    at: usize,
    place: usize,
)
    ensures
        is_place_of(catalog, None, place) <==> place == 0,
        at < catalog.ordered_threads.len() && threads::is_same(
            catalog::listed(catalog, at as int),
            identity,
        ) && (forall|k: int|
            0 <= k < at ==> !threads::is_same(#[trigger] catalog::listed(catalog, k), identity))
            ==> (is_place_of(catalog, Some(identity), place) <==> place == at),
        (forall|k: int|
            0 <= k < catalog.ordered_threads.len() ==> !threads::is_same(
                #[trigger] catalog::listed(catalog, k),
                identity,
            )) ==> (is_place_of(catalog, Some(identity), place) <==> place == 0),
{
    if at < catalog.ordered_threads.len() && threads::is_same(
        catalog::listed(catalog, at as int),
        identity,
    ) && (forall|k: int|
        0 <= k < at ==> !threads::is_same(#[trigger] catalog::listed(catalog, k), identity)) {
        assert(catalog::first_named(catalog, identity, at as int));
        if is_place_of(catalog, Some(identity), place) && place > at {
            assert(!threads::is_same(catalog::listed(catalog, at as int), identity));
        }
    }
}

} // verus!
