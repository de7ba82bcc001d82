//! Switches and distillations that run in the terminal interface: what is shown
//! while they report their steps, and once they end.

use vstd::prelude::*;

use crate::progress::OperationProgressEvent;
use crate::progress::OperationProgressEventView;
use crate::runtime::read_thread_id;
use crate::text;
use crate::text::cat2;
use crate::text::clone_opt;
use crate::text::clone_texts;
use crate::text::no_texts;
use crate::text::push_text;
use crate::tui::language;
use crate::tui::language::Language;
use crate::tui::results;
use crate::tui::results::OperationLog;
use crate::tui::results::OperationLogView;
use crate::tui::results::ResultViewState;
use crate::tui::results::ResultViewStateView;
use crate::tui::results::distill_result;
use crate::tui::results::drain_progress_events;
use crate::tui::results::error_result_state;
use crate::tui::results::failure_result;
use crate::tui::results::smart_or_distill_processing_result;
use crate::tui::results::smart_result;
use crate::tui::state;
use crate::tui::state::AppState;
use crate::tui::state::AppStateView;
use crate::tui::state::ModeView;
use crate::tui::threads;
use crate::tui::threads::ThreadIdentity;
use crate::tui::threads::ThreadIdentityView;
use crate::tui::threads::preferred_identity;

verus! {

/// An operation that runs, with the log of its steps and the page that it ends
/// with.
#[derive(Debug, PartialEq, Eq)]
pub struct OperationRun {
    pub smart: bool,
    pub log: OperationLog,
    pub page: Option<ResultViewState>,
}

/// What a [`OperationRun`] stands for.
pub struct OperationRunView {
    pub smart: bool,
    pub log: OperationLogView,
    pub page: Option<ResultViewStateView>,
}

impl View for OperationRun {
    type V = OperationRunView;

    open spec fn view(&self) -> OperationRunView {
        OperationRunView {
            smart: self.smart,
            log: self.log@,
            page: self.page.deep_view(),
        }
    }
}

impl DeepView for OperationRun {
    type V = OperationRunView;

    open spec fn deep_view(&self) -> OperationRunView {
        self@
    }
}

impl Clone for OperationRun {
    fn clone(&self) -> (out: Self)
        ensures
            out@ == self@,
    {
        let out = OperationRun {
            smart: self.smart,
            log: self.log.clone(),
            page: self.page.clone(),
        };
        assert(out.page.deep_view() =~= self.page.deep_view());
        out
    }
}

/// What happens to an operation.
#[derive(Debug, PartialEq, Eq)]
pub enum RunEvent {
    /// The operation has been set off.
    Started,
    /// Steps were reported.
    Progressed { events: Vec<OperationProgressEvent> },
    /// The operation broke down.
    Panicked { message: String },
    /// The operation failed: the error and its causes.
    Failed { chain: Vec<String> },
    /// The operation is done.
    Finished {
        title: String,
        lines: Vec<String>,
        thread_id: Option<String>,
        rollout_path: Option<String>,
    },
    /// The list was loaded again.
    Reloaded,
}

/// What a [`RunEvent`] stands for.
pub enum RunEventView {
    Started,
    Progressed { events: Seq<OperationProgressEventView> },
    Panicked { message: Seq<char> },
    Failed { chain: Seq<Seq<char>> },
    Finished {
        title: Seq<char>,
        lines: Seq<Seq<char>>,
        thread_id: Option<Seq<char>>,
        rollout_path: Option<Seq<char>>,
    },
    Reloaded,
}

impl View for RunEvent {
    type V = RunEventView;

    open spec fn view(&self) -> RunEventView {
        match *self {
            RunEvent::Started => RunEventView::Started,
            RunEvent::Progressed { events } => RunEventView::Progressed {
                events: events.deep_view(),
            },
            RunEvent::Panicked { message } => RunEventView::Panicked { message: message@ },
            RunEvent::Failed { chain } => RunEventView::Failed { chain: text::texts(chain@) },
            RunEvent::Finished { title, lines, thread_id, rollout_path } => RunEventView::Finished {
                title: title@,
                lines: text::texts(lines@),
                thread_id: text::opt_text(thread_id),
                rollout_path: text::opt_text(rollout_path),
            },
            RunEvent::Reloaded => RunEventView::Reloaded,
        }
    }
}

impl DeepView for RunEvent {
    type V = RunEventView;

    open spec fn deep_view(&self) -> RunEventView {
        self@
    }
}

impl Clone for RunEvent {
    fn clone(&self) -> (out: Self)
        ensures
            out@ == self@,
    {
        match self {
            RunEvent::Started => RunEvent::Started,
            RunEvent::Progressed { events } => {
                let copy_of_events = events.clone();
                assert(copy_of_events.deep_view() =~= events.deep_view());
                RunEvent::Progressed { events: copy_of_events }
            },
            RunEvent::Panicked { message } => RunEvent::Panicked { message: message.clone() },
            RunEvent::Failed { chain } => RunEvent::Failed { chain: clone_texts(chain) },
            RunEvent::Finished { title, lines, thread_id, rollout_path } => RunEvent::Finished {
                title: title.clone(),
                lines: clone_texts(lines),
                thread_id: clone_opt(thread_id),
                rollout_path: clone_opt(rollout_path),
            },
            RunEvent::Reloaded => RunEvent::Reloaded,
        }
    }
}

/// What is to be done next.
#[derive(Debug, PartialEq, Eq)]
pub enum RunAction {
    /// Draw the interface, and wait for what happens.
    Draw,
    /// Wait for what happens.
    Wait,
    /// Load the list again and select a session.
    Reload { selection: Option<ThreadIdentity> },
    /// The operation has ended; draw the interface anew.
    End,
}

/// What a [`RunAction`] stands for.
pub enum RunActionView {
    Draw,
    Wait,
    Reload { selection: Option<ThreadIdentityView> },
    End,
}

impl View for RunAction {
    type V = RunActionView;

    open spec fn view(&self) -> RunActionView {
        match *self {
            RunAction::Draw => RunActionView::Draw,
            RunAction::Wait => RunActionView::Wait,
            RunAction::Reload { selection } => RunActionView::Reload {
                selection: selection.deep_view(),
            },
            RunAction::End => RunActionView::End,
        }
    }
}

impl DeepView for RunAction {
    type V = RunActionView;

    open spec fn deep_view(&self) -> RunActionView {
        self@
    }
}

impl Clone for RunAction {
    fn clone(&self) -> (out: Self)
        ensures
            out@ == self@,
    {
        match self {
            RunAction::Draw => RunAction::Draw,
            RunAction::Wait => RunAction::Wait,
            RunAction::Reload { selection } => {
                let copy_of_selection = selection.clone();
                assert(copy_of_selection.deep_view() =~= selection.deep_view());
                RunAction::Reload { selection: copy_of_selection }
            },
            RunAction::End => RunAction::End,
        }
    }
}

/// What happens before a switch is set off.
#[derive(Debug, PartialEq, Eq)]
pub enum SmartSetup {
    SetupFailed { setup_chain: Vec<String> },
    PickerFailed { picker_chain: Vec<String> },
    Cancelled,
    Picked,
}

/// What a [`SmartSetup`] stands for.
pub enum SmartSetupView {
    SetupFailed { setup_chain: Seq<Seq<char>> },
    PickerFailed { picker_chain: Seq<Seq<char>> },
    Cancelled,
    Picked,
}

impl View for SmartSetup {
    type V = SmartSetupView;

    open spec fn view(&self) -> SmartSetupView {
        match *self {
            SmartSetup::SetupFailed { setup_chain } => SmartSetupView::SetupFailed {
                setup_chain: text::texts(setup_chain@),
            },
            SmartSetup::PickerFailed { picker_chain } => SmartSetupView::PickerFailed {
                picker_chain: text::texts(picker_chain@),
            },
            SmartSetup::Cancelled => SmartSetupView::Cancelled,
            SmartSetup::Picked => SmartSetupView::Picked,
        }
    }
}

impl DeepView for SmartSetup {
    type V = SmartSetupView;

    open spec fn deep_view(&self) -> SmartSetupView {
        self@
    }
}

impl Clone for SmartSetup {
    fn clone(&self) -> (out: Self)
        ensures
            out@ == self@,
    {
        match self {
            SmartSetup::SetupFailed { setup_chain } => SmartSetup::SetupFailed {
                setup_chain: clone_texts(setup_chain),
            },
            SmartSetup::PickerFailed { picker_chain } => SmartSetup::PickerFailed {
                picker_chain: clone_texts(picker_chain),
            },
            SmartSetup::Cancelled => SmartSetup::Cancelled,
            SmartSetup::Picked => SmartSetup::Picked,
        }
    }
}

impl OperationRun {
    /// A switch that is set off.
    pub fn smart() -> (out: Self)
        ensures
            out@ == (OperationRunView {
                smart: true,
                log: OperationLogView { lines: Seq::empty() },
                page: None,
            }),
    {
        OperationRun { smart: true, log: OperationLog::new(), page: None }
    }

    /// A distillation that is set off.
    pub fn distill() -> (out: Self)
        ensures
            out@ == (OperationRunView {
                smart: false,
                log: OperationLogView { lines: Seq::empty() },
                page: None,
            }),
    {
        OperationRun { smart: false, log: OperationLog::new(), page: None }
    }
}

/// The title of a failure, in English and in Chinese.
pub open spec fn failure_titles(smart: bool) -> (Seq<char>, Seq<char>) {
    if smart {
        ("Smart Switch Failed"@, "Smart 切换失败"@)
    } else {
        ("Distillation Failed"@, "提炼失败"@)
    }
}

/// The error of an operation that broke down.
pub open spec fn panic_text(smart: bool, message: Seq<char>) -> Seq<char> {
    if smart {
        "smart task panicked: "@ + message
    } else {
        "distill task panicked: "@ + message
    }
}

/// The error of an operation that broke down.
pub fn panic_message(smart: bool, message: &str) -> (out: String)
    ensures
        out@ == panic_text(smart, message@),
{
    if smart {
        cat2("smart task panicked: ", message)
    } else {
        cat2("distill task panicked: ", message)
    }
}

/// The page of an operation while it runs.
pub open spec fn running_page(run: OperationRunView, language: Language) -> ResultViewStateView {
    results::processing_page(
        language,
        run.smart,
        results::running_lines(run.log.lines, language),
    )
}

/// The page of an operation that failed.
pub open spec fn failed_page(
    run: OperationRunView,
    chain: Seq<Seq<char>>,
    language: Language,
) -> ResultViewStateView {
    let (english, chinese) = failure_titles(run.smart);
    let page = results::failure_page(language, english, chinese, chain);
    ResultViewStateView {
        lines: results::lines_with_log(run.log.lines, language, page.lines),
        ..page
    }
}

/// The page of an operation that is done.
pub open spec fn done_page(
    run: OperationRunView,
    title: Seq<char>,
    lines: Seq<Seq<char>>,
    language: Language,
) -> ResultViewStateView {
    results::finished_page(
        if run.smart {
            results::known_title_text(language, title)
        } else {
            language::in_language(language, "Distilled Successor Ready"@, "提炼结果已生成"@)
        },
        lines,
        run.log.lines,
        language,
    )
}

/// The interface with a page.
pub open spec fn showing(app: AppStateView, page: ResultViewStateView) -> AppStateView {
    AppStateView { mode: ModeView::Result(page), ..app }
}

/// The operation, the interface and what is to be done after an event. `id` is
/// the id of the session that the operation left behind, as far as it can be
/// read.
pub open spec fn after_event(
    run: OperationRunView,
    app: AppStateView,
    event: RunEventView,
    id: Option<Seq<char>>,
) -> (OperationRunView, AppStateView, RunActionView) {
    match event {
        RunEventView::Started => (
            run,
            showing(app, running_page(run, app.language)),
            RunActionView::Draw,
        ),
        RunEventView::Progressed { events } => {
            let log = OperationLogView {
                lines: results::logged_events(run.log.lines, app.language, events),
            };
            let there = OperationRunView { log, ..run };
            if events.len() > 0 {
                (there, showing(app, running_page(there, app.language)), RunActionView::Draw)
            } else {
                (there, app, RunActionView::Wait)
            }
        },
        RunEventView::Panicked { message } => (
            run,
            showing(
                app,
                failed_page(run, seq![panic_text(run.smart, message)], app.language),
            ),
            RunActionView::End,
        ),
        RunEventView::Failed { chain } => (
            run,
            showing(app, failed_page(run, chain, app.language)),
            RunActionView::End,
        ),
        RunEventView::Finished { title, lines, thread_id, rollout_path } => (
            OperationRunView { page: Some(done_page(run, title, lines, app.language)), ..run },
            app,
            RunActionView::Reload { selection: threads::preferred(id, rollout_path) },
        ),
        RunEventView::Reloaded => (
            run,
            match run.page {
                Some(page) => showing(app, page),
                None => app,
            },
            RunActionView::End,
        ),
    }
}

/// The id of the session that an operation left behind, as far as it can be
/// read.
pub open spec fn id_left_behind(event: RunEventView) -> Option<Seq<char>> {
    match event {
        RunEventView::Finished { thread_id, .. } => threads::read_id(thread_id),
        _ => None,
    }
}

fn show_failure(run: &OperationRun, app: &mut AppState, chain: &Vec<String>)
    requires
        state::app_ok(old(app)@),
    ensures
        final(app)@ == showing(
            old(app)@,
            failed_page(run@, text::texts(chain@), old(app)@.language),
        ),
        state::app_ok(final(app)@),
{
    let language = app.language;
    let page = if run.smart {
        error_result_state(language, "Smart Switch Failed", "Smart 切换失败", chain)
    } else {
        error_result_state(language, "Distillation Failed", "提炼失败", chain)
    };
    app.show_result(failure_result(page, language, &run.log));
}

fn show_running(run: &OperationRun, app: &mut AppState)
    requires
        state::app_ok(old(app)@),
    ensures
        final(app)@ == showing(old(app)@, running_page(run@, old(app)@.language)),
        state::app_ok(final(app)@),
{
    let language = app.language;
    let lines = run.log.processing_lines(language);
    app.show_result(smart_or_distill_processing_result(language, run.smart, lines));
}

/// Takes what happens to an operation, once the id of the session that it left
/// behind has been read.
pub fn take_event(
    run: &mut OperationRun,
    app: &mut AppState,
    event: &RunEvent,
    id: &Option<String>,
) -> (out: RunAction)
    requires
        state::app_ok(old(app)@),
    ensures
        (final(run)@, final(app)@, out@) == after_event(
            old(run)@,
            old(app)@,
            event@,
            text::opt_text(*id),
        ),
        state::app_ok(final(app)@),
{
    match event {
        RunEvent::Started => {
            show_running(&*run, app);
            RunAction::Draw
        },
        RunEvent::Progressed { events } => {
            let language = app.language;
            if drain_progress_events(events, &mut run.log, language) {
                show_running(&*run, app);
                RunAction::Draw
            } else {
                RunAction::Wait
            }
        },
        RunEvent::Panicked { message } => {
            let mut chain = no_texts();
            push_text(&mut chain, panic_message(run.smart, message.as_str()));
            assert(text::texts(chain@) =~= seq![panic_text(run@.smart, message@)]);
            show_failure(&*run, app, &chain);
            RunAction::End
        },
        RunEvent::Failed { chain } => {
            show_failure(&*run, app, chain);
            RunAction::End
        },
        RunEvent::Finished { title, lines, thread_id: _, rollout_path } => {
            let language = app.language;
            let page = if run.smart {
                smart_result(language, title.as_str(), clone_texts(lines), &run.log)
            } else {
                distill_result(language, clone_texts(lines), &run.log)
            };
            run.page = Some(page);
            RunAction::Reload { selection: preferred_identity(id, rollout_path) }
        },
        RunEvent::Reloaded => {
            if let Some(page) = &run.page {
                app.show_result(page.clone());
            }
            RunAction::End
        },
    }
}

fn read_id_left_behind(event: &RunEvent) -> (out: Option<String>)
    ensures
        text::opt_text(out) == id_left_behind(event@),
{
    match event {
        RunEvent::Finished { thread_id, .. } => match thread_id {
            Some(id) => read_thread_id(id.as_str()),
            None => None,
        },
        _ => None,
    }
}

/// Takes what happens to a distillation.
pub fn run_distill_with_progress(
    run: &mut OperationRun,
    app: &mut AppState,
    event: &RunEvent,
) -> (out: RunAction)
    requires
        state::app_ok(old(app)@),
    ensures
        (final(run)@, final(app)@, out@) == after_event(
            old(run)@,
            old(app)@,
            event@,
            id_left_behind(event@),
        ),
        state::app_ok(final(app)@),
{
    let id = read_id_left_behind(event);
    take_event(run, app, event, &id)
}

/// Takes what happens to a switch.
pub fn run_smart_with_progress(
    run: &mut OperationRun,
    app: &mut AppState,
    event: &RunEvent,
) -> (out: RunAction)
    requires
        state::app_ok(old(app)@),
    ensures
        (final(run)@, final(app)@, out@) == after_event(
            old(run)@,
            old(app)@,
            event@,
            id_left_behind(event@),
        ),
        state::app_ok(final(app)@),
{
    let id = read_id_left_behind(event);
    take_event(run, app, event, &id)
}

/// The interface after the setup of a switch, and whether the switch is to be
/// set off.
pub open spec fn after_setup(app: AppStateView, setup: SmartSetupView) -> (AppStateView, bool) {
    match setup {
        SmartSetupView::SetupFailed { setup_chain } => (
            showing(
                app,
                results::failure_page(
                    app.language,
                    "Smart Setup Failed"@,
                    "Smart 初始化失败"@,
                    setup_chain,
                ),
            ),
            false,
        ),
        SmartSetupView::PickerFailed { picker_chain } => (
            showing(
                app,
                results::failure_page(
                    app.language,
                    "Smart Picker Failed"@,
                    "Smart 选择器失败"@,
                    picker_chain,
                ),
            ),
            false,
        ),
        SmartSetupView::Cancelled => (
            AppStateView {
                mode: ModeView::Browsing,
                status: Some(state::cancelled_text(app.language)),
                ..app
            },
            false,
        ),
        SmartSetupView::Picked => (app, true),
    }
}

/// Takes what came of the setup of a switch. Tells whether the switch is to be
/// set off.
pub fn take_smart_setup(app: &mut AppState, setup: &SmartSetup) -> (out: bool)
    requires
        state::app_ok(old(app)@),
    ensures
        (final(app)@, out) == after_setup(old(app)@, setup@),
        state::app_ok(final(app)@),
{
    let language = app.language;
    match setup {
        SmartSetup::SetupFailed { setup_chain } => {
            app.show_result(
                error_result_state(
                    language,
                    "Smart Setup Failed",
                    "Smart 初始化失败",
                    setup_chain,
                ),
            );
            false
        },
        SmartSetup::PickerFailed { picker_chain } => {
            app.show_result(
                error_result_state(
                    language,
                    "Smart Picker Failed",
                    "Smart 选择器失败",
                    picker_chain,
                ),
            );
            false
        },
        SmartSetup::Cancelled => {
            app.smart_cancelled();
            false
        },
        SmartSetup::Picked => true,
    }
}

/// The list is loaded again exactly when an operation is done, and the page with
/// its result is shown afterwards; a failure leaves the list as it is.
pub proof fn only_finished_operations_reload(
    run: OperationRunView,
    app: AppStateView,
    event: RunEventView,
    id: Option<Seq<char>>,
)
    ensures
        after_event(run, app, event, id).2 is Reload <==> event is Finished,
        event is Finished ==> after_event(run, app, event, id).0.page is Some,
        event is Failed || event is Panicked ==> after_event(run, app, event, id).1.catalog
            == app.catalog && after_event(run, app, event, id).2 is End,
{
}

/// Whatever happens, every step that was logged is on the page of the result.
pub proof fn results_keep_the_log(
    run: OperationRunView,
    lines: Seq<Seq<char>>,
    language: Language,
    index: int,
)
    requires
        0 <= index < run.log.lines.len(),
    ensures
        results::lines_with_log(run.log.lines, language, lines).contains(
            "- "@ + run.log.lines[index],
        ),
        results::lines_with_log(run.log.lines, language, lines).take(lines.len() as int) == lines,
{
    let out = results::lines_with_log(run.log.lines, language, lines);
    assert(out[lines.len() + 2 + index] == "- "@ + run.log.lines[index]);
    assert(out.take(lines.len() as int) =~= lines);
}

/// An operation shows its log while it runs: from its start, and again after each
/// step that comes in. Nothing new changes nothing.
pub proof fn steps_are_shown_as_they_come(
    run: OperationRunView,
    app: AppStateView,
    events: Seq<OperationProgressEventView>,
    id: Option<Seq<char>>,
)
    ensures
        after_event(run, app, RunEventView::Started, id).2 is Draw,
        after_event(run, app, RunEventView::Started, id).1.mode is Result,
        ({
            let (next, there, action) = after_event(
                run,
                app,
                RunEventView::Progressed { events },
                id,
            );
            let lines = results::logged_events(run.log.lines, app.language, events);
            &&& next.log.lines == lines
            &&& next.smart == run.smart && next.page == run.page
            &&& events.len() == 0 ==> there == app && action is Wait
            &&& events.len() > 0 ==> action is Draw && (there.mode matches ModeView::Result(page)
                && page.lines == lines)
            &&& there.catalog == app.catalog && there.selected_thread == app.selected_thread
        }),
{
    results::log_grows_by_its_events(run.log.lines, app.language, events);
}

/// An operation that fails ends with its error and the causes of it on a page, and
/// one that breaks down with what it said.
pub proof fn failures_are_shown(
    run: OperationRunView,
    app: AppStateView,
    chain: Seq<Seq<char>>,
    message: Seq<char>,
    id: Option<Seq<char>>,
)
    requires
        chain.len() > 0,
    ensures
        ({
            let (next, there, action) = after_event(run, app, RunEventView::Failed { chain }, id);
            &&& next == run && action is End
            &&& there.mode matches ModeView::Result(page) && page.lines[1] == "1. "@ + chain[0]
                && (app.language is English ==> page.title == (if run.smart {
                "Smart Switch Failed"@
            } else {
                "Distillation Failed"@
            }))
        }),
        ({
            let (next, there, action) = after_event(
                run,
                app,
                RunEventView::Panicked { message },
                id,
            );
            let told = if run.smart {
                "smart task panicked: "@ + message
            } else {
                "distill task panicked: "@ + message
            };
            &&& next == run && action is End
            &&& there.mode matches ModeView::Result(page) && page.lines[1] == "1. "@ + told
        }),
{
}

/// An operation that is done is told by its lines once the list is loaded again,
/// opened at the session that it left behind.
pub proof fn finished_operations_are_told(
    run: OperationRunView,
    app: AppStateView,
    title: Seq<char>,
    lines: Seq<Seq<char>>,
    thread_id: Option<Seq<char>>,
    rollout_path: Option<Seq<char>>,
    id: Option<Seq<char>>,
    at: int,
)
    ensures
        ({
            let event = RunEventView::Finished { title, lines, thread_id, rollout_path };
            let (next, there, action) = after_event(run, app, event, id);
            let (last, shown, end) = after_event(next, there, RunEventView::Reloaded, id);
            &&& there == app
            &&& action == (RunActionView::Reload {
                selection: threads::preferred(id, rollout_path),
            })
            &&& end is End
            &&& shown.mode matches ModeView::Result(page) && (0 <= at < lines.len()
                ==> page.lines[at] == lines[at])
            &&& id_left_behind(event) == threads::read_id(thread_id)
        }),
{
}

/// A switch is set off exactly where something was picked. A failure before is
/// shown, and a cancelled one goes back to the list and is told.
pub proof fn only_picked_switches_are_set_off(app: AppStateView, setup: SmartSetupView)
    ensures
        after_setup(app, setup).1 <==> setup is Picked,
        setup is Picked ==> after_setup(app, setup).0 == app,
        setup is Cancelled ==> after_setup(app, setup).0.mode is Browsing && after_setup(
            app,
            setup,
        ).0.status == Some(state::cancelled_text(app.language)),
        setup is SetupFailed || setup is PickerFailed ==> after_setup(app, setup).0.mode is Result,
        setup matches SmartSetupView::SetupFailed { setup_chain } ==> (after_setup(
            app,
            setup,
        ).0.mode matches ModeView::Result(page) && page.lines.len() == setup_chain.len() + 1
            && (app.language is English ==> page.title == "Smart Setup Failed"@)),
        setup matches SmartSetupView::PickerFailed { picker_chain } ==> (after_setup(
            app,
            setup,
        ).0.mode matches ModeView::Result(page) && page.lines.len() == picker_chain.len() + 1
            && (app.language is English ==> page.title == "Smart Picker Failed"@)),
{
}

} // verus!
