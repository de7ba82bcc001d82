//! Operations on rollouts and threads: where files go, when waiting ends, and
//! which failure counts.

use vstd::prelude::*;

use crate::runtime;
use crate::runtime::RuntimeRequest;
use crate::runtime::overridden_session_request;
use crate::search::has_suffix;
use crate::text;
use crate::text::cat2;
use crate::text::cat3;
use crate::text::cat4;
use crate::text::cat5;
use crate::text::clone_opt;
use crate::text::clone_texts;
use crate::text::no_texts;
use crate::text::or_opt;
use crate::text::push_text;
use crate::text::same_text;
use crate::types::ForkOutcome;
use crate::types::ForkOutcomeView;
use crate::types::ForkRequest;
use crate::types::OperationKind;
use crate::types::SessionSummary;

verus! {

pub const DEFAULT_SHUTDOWN_TIMEOUT_SECS: u64 = 30;

/// Why an operation cannot be carried out.
#[derive(Debug, PartialEq, Eq)]
pub enum OperationError {
    OutsideSessions { path: String },
    OutsideArchive { path: String },
    NoFileName { path: String },
    OtherThread { path: String, thread_id: String },
    NoTimestamp { path: String },
    EmptyThreadName,
    OperationTimeout { submit_id: String },
    ShutdownTimeout,
    NoRolloutForThread { thread_id: String },
}

/// What a [`OperationError`] stands for.
pub enum OperationErrorView {
    OutsideSessions { path: Seq<char> },
    OutsideArchive { path: Seq<char> },
    NoFileName { path: Seq<char> },
    OtherThread { path: Seq<char>, thread_id: Seq<char> },
    NoTimestamp { path: Seq<char> },
    EmptyThreadName,
    OperationTimeout { submit_id: Seq<char> },
    ShutdownTimeout,
    NoRolloutForThread { thread_id: Seq<char> },
}

impl View for OperationError {
    type V = OperationErrorView;

    open spec fn view(&self) -> OperationErrorView {
        match *self {
            OperationError::OutsideSessions { path } => OperationErrorView::OutsideSessions {
                path: path@,
            },
            OperationError::OutsideArchive { path } => OperationErrorView::OutsideArchive {
                path: path@,
            },
            OperationError::NoFileName { path } => OperationErrorView::NoFileName { path: path@ },
            OperationError::OtherThread { path, thread_id } => OperationErrorView::OtherThread {
                path: path@,
                thread_id: thread_id@,
            },
            OperationError::NoTimestamp { path } => OperationErrorView::NoTimestamp { path: path@ },
            OperationError::EmptyThreadName => OperationErrorView::EmptyThreadName,
            OperationError::OperationTimeout { submit_id } => OperationErrorView::OperationTimeout {
                submit_id: submit_id@,
            },
            OperationError::ShutdownTimeout => OperationErrorView::ShutdownTimeout,
            OperationError::NoRolloutForThread { thread_id } => {
                OperationErrorView::NoRolloutForThread { thread_id: thread_id@ }
            },
        }
    }
}

impl DeepView for OperationError {
    type V = OperationErrorView;

    open spec fn deep_view(&self) -> OperationErrorView {
        self@
    }
}

impl Clone for OperationError {
    fn clone(&self) -> (out: Self)
        ensures
            out@ == self@,
    {
        match self {
            OperationError::OutsideSessions { path } => OperationError::OutsideSessions {
                path: path.clone(),
            },
            OperationError::OutsideArchive { path } => OperationError::OutsideArchive {
                path: path.clone(),
            },
            OperationError::NoFileName { path } => OperationError::NoFileName {
                path: path.clone(),
            },
            OperationError::OtherThread { path, thread_id } => OperationError::OtherThread {
                path: path.clone(),
                thread_id: thread_id.clone(),
            },
            OperationError::NoTimestamp { path } => OperationError::NoTimestamp {
                path: path.clone(),
            },
            OperationError::EmptyThreadName => OperationError::EmptyThreadName,
            OperationError::OperationTimeout { submit_id } => OperationError::OperationTimeout {
                submit_id: submit_id.clone(),
            },
            OperationError::ShutdownTimeout => OperationError::ShutdownTimeout,
            OperationError::NoRolloutForThread { thread_id } => OperationError::NoRolloutForThread {
                thread_id: thread_id.clone(),
            },
        }
    }
}

/// The message for an error.
pub open spec fn operation_error_text(error: OperationErrorView) -> Seq<char> {
    match error {
        OperationErrorView::OutsideSessions { path } => "rollout path `"@ + path + "` must be in sessions directory"@,
        OperationErrorView::OutsideArchive { path } => "rollout path `"@ + path + "` must be in archived directory"@,
        OperationErrorView::NoFileName { path } => "rollout path `"@ + path + "` missing file name"@,
        OperationErrorView::OtherThread { path, thread_id } => "rollout path `"@ + path + "` does not match thread id "@ + thread_id,
        OperationErrorView::NoTimestamp { path } => "rollout path `"@ + path + "` missing filename timestamp"@,
        OperationErrorView::EmptyThreadName => "thread name must not be empty"@,
        OperationErrorView::OperationTimeout { submit_id } => "timed out waiting for operation `"@ + submit_id + "`"@,
        OperationErrorView::ShutdownTimeout => "timed out waiting for shutdown"@,
        OperationErrorView::NoRolloutForThread { thread_id } => "unable to resolve rollout path for new thread "@ + thread_id,
    }
}

/// The message for an error.
pub fn operation_error_message(error: &OperationError) -> (out: String)
    ensures
        out@ == operation_error_text(error@),
{
    match error {
        OperationError::OutsideSessions { path } => cat3("rollout path `", path.as_str(), "` must be in sessions directory"),
        OperationError::OutsideArchive { path } => cat3("rollout path `", path.as_str(), "` must be in archived directory"),
        OperationError::NoFileName { path } => cat3("rollout path `", path.as_str(), "` missing file name"),
        OperationError::OtherThread { path, thread_id } => cat4("rollout path `", path.as_str(), "` does not match thread id ", thread_id.as_str()),
        OperationError::NoTimestamp { path } => cat3("rollout path `", path.as_str(), "` missing filename timestamp"),
        OperationError::EmptyThreadName => "thread name must not be empty".to_owned(),
        OperationError::OperationTimeout { submit_id } => cat3("timed out waiting for operation `", submit_id.as_str(), "`"),
        OperationError::ShutdownTimeout => "timed out waiting for shutdown".to_owned(),
        OperationError::NoRolloutForThread { thread_id } => cat2("unable to resolve rollout path for new thread ", thread_id.as_str()),
    }
}

// ------------------------------------------------------------------- moving files

/// A rollout file and the thread that it is to belong to. Paths are given by
/// their components, resolved to where they really lie.
#[derive(Debug, PartialEq, Eq)]
pub struct RolloutFile {
    pub thread_id: String,
    /// The path as it was given.
    pub path: String,
    pub components: Vec<String>,
    pub file_name: Option<String>,
}

/// What a [`RolloutFile`] stands for.
pub struct RolloutFileView {
    pub thread_id: Seq<char>,
    pub path: Seq<char>,
    pub components: Seq<Seq<char>>,
    pub file_name: Option<Seq<char>>,
}

impl View for RolloutFile {
    type V = RolloutFileView;

    open spec fn view(&self) -> RolloutFileView {
        RolloutFileView {
            thread_id: self.thread_id@,
            path: self.path@,
            components: text::texts(self.components@),
            file_name: text::opt_text(self.file_name),
        }
    }
}

impl DeepView for RolloutFile {
    type V = RolloutFileView;

    open spec fn deep_view(&self) -> RolloutFileView {
        self@
    }
}

impl Clone for RolloutFile {
    fn clone(&self) -> (out: Self)
        ensures
            out@ == self@,
    {
        RolloutFile {
            thread_id: self.thread_id.clone(),
            path: self.path.clone(),
            components: clone_texts(&self.components),
            file_name: clone_opt(&self.file_name),
        }
    }
}

/// Whether a path lies in a directory.
pub open spec fn lies_in(path: Seq<Seq<char>>, dir: Seq<Seq<char>>) -> bool {
    dir.is_prefix_of(path)
}

fn is_inside(path: &Vec<String>, dir: &Vec<String>) -> (out: bool)
    ensures
        out == lies_in(text::texts(path@), text::texts(dir@)),
{
    let ghost outer = text::texts(dir@);
    let ghost inner = text::texts(path@);
    if dir.len() > path.len() {
        return false;
    }
    for i in 0..dir.len()
        invariant
            dir@.len() <= path@.len(),
            outer == text::texts(dir@),
            inner == text::texts(path@),
            forall|j: int| 0 <= j < i ==> outer[j] == inner[j],
    {
        if !same_text(dir[i].as_str(), path[i].as_str()) {
            assert(outer[i as int] != inner[i as int]);
            assert(inner.take(outer.len() as int)[i as int] == inner[i as int]);
            return false;
        }
    }
    assert(outer =~= inner.take(outer.len() as int));
    true
}

/// The name of the file of a thread, or why the file is not that of the thread:
/// its name has to end with the id of the thread and `.jsonl`.
pub open spec fn thread_file_name(file: RolloutFileView) -> Result<Seq<char>, OperationErrorView> {
    match file.file_name {
        None => Err(OperationErrorView::NoFileName { path: file.path }),
        Some(name) => if (file.thread_id + ".jsonl"@).is_suffix_of(name) {
            Ok(name)
        } else {
            Err(OperationErrorView::OtherThread { path: file.path, thread_id: file.thread_id })
        },
    }
}

/// The views of a result.
pub open spec fn name_result(out: Result<String, OperationError>) -> Result<
    Seq<char>,
    OperationErrorView,
> {
    match out {
        Ok(name) => Ok(name@),
        Err(error) => Err(error@),
    }
}

/// The views of a result.
pub open spec fn path_result(out: Result<Vec<String>, OperationError>) -> Result<
    Seq<Seq<char>>,
    OperationErrorView,
> {
    match out {
        Ok(components) => Ok(text::texts(components@)),
        Err(error) => Err(error@),
    }
}

/// The name of the file of a thread.
pub fn validate_rollout_file_name(file: &RolloutFile) -> (out: Result<String, OperationError>)
    ensures
        name_result(out) == thread_file_name(file@),
{
    match &file.file_name {
        None => Err(OperationError::NoFileName { path: file.path.clone() }),
        Some(name) => {
            let required = cat2(file.thread_id.as_str(), ".jsonl");
            if has_suffix(name.as_str(), required.as_str()) {
                Ok(name.clone())
            } else {
                Err(
                    OperationError::OtherThread {
                        path: file.path.clone(),
                        thread_id: file.thread_id.clone(),
                    },
                )
            }
        },
    }
}

/// Where a rollout goes when it is archived, below the home directory.
pub open spec fn archived_place(
    file: RolloutFileView,
    sessions: Seq<Seq<char>>,
    archive_dir: Seq<char>,
) -> Result<Seq<Seq<char>>, OperationErrorView> {
    if !lies_in(file.components, sessions) {
        Err(OperationErrorView::OutsideSessions { path: file.path })
    } else {
        match thread_file_name(file) {
            Ok(name) => Ok(seq![archive_dir, name]),
            Err(error) => Err(error),
        }
    }
}

/// Where a rollout goes when it is archived, below the home directory. It has
/// to lie in the directory for sessions.
pub fn archive_rollout_file(
    file: &RolloutFile,
    sessions: &Vec<String>,
    archive_dir: &str,
) -> (out: Result<Vec<String>, OperationError>)
    ensures
        path_result(out) == archived_place(file@, text::texts(sessions@), archive_dir@),
{
    if !is_inside(&file.components, sessions) {
        return Err(OperationError::OutsideSessions { path: file.path.clone() });
    }
    match validate_rollout_file_name(file) {
        Ok(name) => {
            let mut place = no_texts();
            push_text(&mut place, archive_dir.to_owned());
            push_text(&mut place, name);
            assert(text::texts(place@) =~= seq![archive_dir@, place@[1]@]);
            Ok(place)
        },
        Err(error) => Err(error),
    }
}

/// The date that the name of a rollout carries.
#[derive(Debug, PartialEq, Eq)]
pub struct RolloutDate {
    pub year: String,
    pub month: String,
    pub day: String,
}

/// What a [`RolloutDate`] stands for.
pub struct RolloutDateView {
    pub year: Seq<char>,
    pub month: Seq<char>,
    pub day: Seq<char>,
}

impl View for RolloutDate {
    type V = RolloutDateView;

    open spec fn view(&self) -> RolloutDateView {
        RolloutDateView {
            year: self.year@,
            month: self.month@,
            day: self.day@,
        }
    }
}

impl DeepView for RolloutDate {
    type V = RolloutDateView;

    open spec fn deep_view(&self) -> RolloutDateView {
        self@
    }
}

impl Clone for RolloutDate {
    fn clone(&self) -> (out: Self)
        ensures
            out@ == self@,
    {
        RolloutDate {
            year: self.year.clone(),
            month: self.month.clone(),
            day: self.day.clone(),
        }
    }
}

/// Where a rollout goes when it is restored, below the home directory.
pub open spec fn restored_place(
    file: RolloutFileView,
    archive: Seq<Seq<char>>,
    date: Option<RolloutDateView>,
    sessions_dir: Seq<char>,
) -> Result<Seq<Seq<char>>, OperationErrorView> {
    if !lies_in(file.components, archive) {
        Err(OperationErrorView::OutsideArchive { path: file.path })
    } else {
        match thread_file_name(file) {
            Ok(name) => match date {
                Some(date) => Ok(seq![sessions_dir, date.year, date.month, date.day, name]),
                None => Err(OperationErrorView::NoTimestamp { path: file.path }),
            },
            Err(error) => Err(error),
        }
    }
}

/// Where a rollout goes when it is restored, below the home directory. It has
/// to lie in the archive; `date` is that in its file name.
pub fn unarchive_rollout_file(
    file: &RolloutFile,
    archive: &Vec<String>,
    date: &Option<RolloutDate>,
    sessions_dir: &str,
) -> (out: Result<Vec<String>, OperationError>)
    ensures
        path_result(out) == restored_place(
            file@,
            text::texts(archive@),
            date.deep_view(),
            sessions_dir@,
        ),
{
    if !is_inside(&file.components, archive) {
        return Err(OperationError::OutsideArchive { path: file.path.clone() });
    }
    match validate_rollout_file_name(file) {
        Ok(name) => match date {
            Some(date) => {
                let ghost wanted = seq![
                    sessions_dir@,
                    date.year@,
                    date.month@,
                    date.day@,
                    name@,
                ];
                let mut place = no_texts();
                push_text(&mut place, sessions_dir.to_owned());
                push_text(&mut place, date.year.clone());
                push_text(&mut place, date.month.clone());
                push_text(&mut place, date.day.clone());
                push_text(&mut place, name);
                assert(text::texts(place@) =~= wanted);
                Ok(place)
            },
            None => Err(OperationError::NoTimestamp { path: file.path.clone() }),
        },
        Err(error) => Err(error),
    }
}

/// Archiving a session and restoring it brings its rollout back to where it
/// was, as long as it lay in the directory of the day that its name carries.
pub proof fn archive_round_trip(
    home: Seq<Seq<char>>,
    sessions_dir: Seq<char>,
    archive_dir: Seq<char>,
    date: RolloutDateView,
    thread_id: Seq<char>,
    name: Seq<char>,
)
    requires
        (thread_id + ".jsonl"@).is_suffix_of(name),
    ensures
        ({
            let place = seq![sessions_dir, date.year, date.month, date.day, name];
            let active = RolloutFileView {
                thread_id,
                path: name,
                components: home + place,
                file_name: Some(name),
            };
            let moved = archived_place(active, home.push(sessions_dir), archive_dir);
            &&& moved == Ok::<Seq<Seq<char>>, OperationErrorView>(seq![archive_dir, name])
            &&& restored_place(
                RolloutFileView { components: home + seq![archive_dir, name], ..active },
                home.push(archive_dir),
                Some(date),
                sessions_dir,
            ) == Ok::<Seq<Seq<char>>, OperationErrorView>(place)
        }),
{
    let place = seq![sessions_dir, date.year, date.month, date.day, name];
    let active = home + place;
    assert(active.take(home.len() as int + 1) =~= home.push(sessions_dir));
    let stored = home + seq![archive_dir, name];
    assert(stored.take(home.len() as int + 1) =~= home.push(archive_dir));
}

// ------------------------------------------------------------------------- waiting

/// What an event of a running thread says.
#[derive(Debug, PartialEq, Eq)]
pub enum ThreadMsg {
    ContextCompacted,
    ItemCompleted { context_compaction: bool },
    ThreadRolledBack,
    TurnComplete { last_agent_message: Option<String> },
    Error { message: String },
    ShutdownComplete,
    Other,
}

/// What a [`ThreadMsg`] stands for.
pub enum ThreadMsgView {
    ContextCompacted,
    ItemCompleted { context_compaction: bool },
    ThreadRolledBack,
    TurnComplete { last_agent_message: Option<Seq<char>> },
    Error { message: Seq<char> },
    ShutdownComplete,
    Other,
}

impl View for ThreadMsg {
    type V = ThreadMsgView;

    open spec fn view(&self) -> ThreadMsgView {
        match *self {
            ThreadMsg::ContextCompacted => ThreadMsgView::ContextCompacted,
            ThreadMsg::ItemCompleted { context_compaction } => ThreadMsgView::ItemCompleted {
                context_compaction,
            },
            ThreadMsg::ThreadRolledBack => ThreadMsgView::ThreadRolledBack,
            ThreadMsg::TurnComplete { last_agent_message } => ThreadMsgView::TurnComplete {
                last_agent_message: text::opt_text(last_agent_message),
            },
            ThreadMsg::Error { message } => ThreadMsgView::Error { message: message@ },
            ThreadMsg::ShutdownComplete => ThreadMsgView::ShutdownComplete,
            ThreadMsg::Other => ThreadMsgView::Other,
        }
    }
}

impl DeepView for ThreadMsg {
    type V = ThreadMsgView;

    open spec fn deep_view(&self) -> ThreadMsgView {
        self@
    }
}

impl Clone for ThreadMsg {
    fn clone(&self) -> (out: Self)
        ensures
            out@ == self@,
    {
        match self {
            ThreadMsg::ContextCompacted => ThreadMsg::ContextCompacted,
            ThreadMsg::ItemCompleted { context_compaction } => ThreadMsg::ItemCompleted {
                context_compaction: *context_compaction,
            },
            ThreadMsg::ThreadRolledBack => ThreadMsg::ThreadRolledBack,
            ThreadMsg::TurnComplete { last_agent_message } => ThreadMsg::TurnComplete {
                last_agent_message: clone_opt(last_agent_message),
            },
            ThreadMsg::Error { message } => ThreadMsg::Error { message: message.clone() },
            ThreadMsg::ShutdownComplete => ThreadMsg::ShutdownComplete,
            ThreadMsg::Other => ThreadMsg::Other,
        }
    }
}

/// An event of a running thread.
#[derive(Debug, PartialEq, Eq)]
pub struct ThreadEvent {
    pub id: String,
    pub msg: ThreadMsg,
}

/// What a [`ThreadEvent`] stands for.
pub struct ThreadEventView {
    pub id: Seq<char>,
    pub msg: ThreadMsgView,
}

impl View for ThreadEvent {
    type V = ThreadEventView;

    open spec fn view(&self) -> ThreadEventView {
        ThreadEventView {
            id: self.id@,
            msg: self.msg@,
        }
    }
}

impl DeepView for ThreadEvent {
    type V = ThreadEventView;

    open spec fn deep_view(&self) -> ThreadEventView {
        self@
    }
}

impl Clone for ThreadEvent {
    fn clone(&self) -> (out: Self)
        ensures
            out@ == self@,
    {
        ThreadEvent {
            id: self.id.clone(),
            msg: self.msg.clone(),
        }
    }
}

/// What an event means for one who waits.
#[derive(Debug, PartialEq, Eq)]
pub enum Waiting {
    /// Wait on.
    Go,
    /// What was waited for is there.
    Done { last_agent_message: Option<String> },
    /// It failed.
    Failed { message: String },
}

/// What a [`Waiting`] stands for.
pub enum WaitingView {
    Go,
    Done { last_agent_message: Option<Seq<char>> },
    Failed { message: Seq<char> },
}

impl View for Waiting {
    type V = WaitingView;

    open spec fn view(&self) -> WaitingView {
        match *self {
            Waiting::Go => WaitingView::Go,
            Waiting::Done { last_agent_message } => WaitingView::Done {
                last_agent_message: text::opt_text(last_agent_message),
            },
            Waiting::Failed { message } => WaitingView::Failed { message: message@ },
        }
    }
}

impl DeepView for Waiting {
    type V = WaitingView;

    open spec fn deep_view(&self) -> WaitingView {
        self@
    }
}

impl Clone for Waiting {
    fn clone(&self) -> (out: Self)
        ensures
            out@ == self@,
    {
        match self {
            Waiting::Go => Waiting::Go,
            Waiting::Done { last_agent_message } => Waiting::Done {
                last_agent_message: clone_opt(last_agent_message),
            },
            Waiting::Failed { message } => Waiting::Failed { message: message.clone() },
        }
    }
}

/// What an event means while an operation runs: events of other submissions
/// mean nothing, an error ends the operation.
pub open spec fn operation_progress(
    event: ThreadEventView,
    submit_id: Seq<char>,
    kind: OperationKind,
) -> WaitingView {
    if event.id != submit_id {
        WaitingView::Go
    } else {
        match event.msg {
            ThreadMsgView::Error { message } => WaitingView::Failed { message },
            ThreadMsgView::ContextCompacted => if kind is Compact {
                WaitingView::Done { last_agent_message: None }
            } else {
                WaitingView::Go
            },
            ThreadMsgView::ItemCompleted { context_compaction } => if kind is Compact
                && context_compaction {
                WaitingView::Done { last_agent_message: None }
            } else {
                WaitingView::Go
            },
            ThreadMsgView::ThreadRolledBack => if kind is Rollback {
                WaitingView::Done { last_agent_message: None }
            } else {
                WaitingView::Go
            },
            _ => WaitingView::Go,
        }
    }
}

/// What an event means while an operation runs.
pub fn wait_for_operation_completion(
    event: &ThreadEvent,
    submit_id: &str,
    operation_kind: OperationKind,
) -> (out: Waiting)
    ensures
        out@ == operation_progress(event@, submit_id@, operation_kind),
{
    if !same_text(event.id.as_str(), submit_id) {
        return Waiting::Go;
    }
    match (operation_kind, &event.msg) {
        (_, ThreadMsg::Error { message }) => Waiting::Failed { message: message.clone() },
        (OperationKind::Compact, ThreadMsg::ContextCompacted) => Waiting::Done {
            last_agent_message: None,
        },
        (OperationKind::Compact, ThreadMsg::ItemCompleted { context_compaction }) => {
            if *context_compaction {
                Waiting::Done { last_agent_message: None }
            } else {
                Waiting::Go
            }
        },
        (OperationKind::Rollback, ThreadMsg::ThreadRolledBack) => Waiting::Done {
            last_agent_message: None,
        },
        _ => Waiting::Go,
    }
}

/// What an event means while a turn runs.
pub open spec fn turn_progress(event: ThreadEventView, submit_id: Seq<char>) -> WaitingView {
    if event.id != submit_id {
        WaitingView::Go
    } else {
        match event.msg {
            ThreadMsgView::TurnComplete { last_agent_message } => WaitingView::Done {
                last_agent_message,
            },
            ThreadMsgView::Error { message } => WaitingView::Failed { message },
            _ => WaitingView::Go,
        }
    }
}

/// What an event means while a turn runs.
pub fn wait_for_turn_completion_last_message(event: &ThreadEvent, submit_id: &str) -> (out: Waiting)
    ensures
        out@ == turn_progress(event@, submit_id@),
{
    if !same_text(event.id.as_str(), submit_id) {
        return Waiting::Go;
    }
    match &event.msg {
        ThreadMsg::TurnComplete { last_agent_message } => Waiting::Done {
            last_agent_message: clone_opt(last_agent_message),
        },
        ThreadMsg::Error { message } => Waiting::Failed { message: message.clone() },
        _ => Waiting::Go,
    }
}

/// Whether an event says that a thread is shut down.
pub fn shutdown_thread(event: &ThreadEvent, submit_id: &str) -> (out: bool)
    ensures
        out == (event@.id == submit_id@ && event@.msg is ShutdownComplete),
{
    same_text(event.id.as_str(), submit_id) && matches!(event.msg, ThreadMsg::ShutdownComplete)
}

/// The first failure of three steps that were all carried out.
pub open spec fn first_failure(
    a: Option<Seq<char>>,
    b: Option<Seq<char>>,
    c: Option<Seq<char>>,
) -> Option<Seq<char>> {
    text::first_present(a, text::first_present(b, c))
}

/// The failure of an operation whose thread was shut down afterwards, whatever
/// the operation came to: the failure of the operation counts first.
pub fn operation_failure(operation: &Option<String>, shutdown: &Option<String>) -> (out: Option<
    String,
>)
    ensures
        text::opt_text(out) == text::first_present(
            text::opt_text(*operation),
            text::opt_text(*shutdown),
        ),
{
    or_opt(operation, shutdown)
}

// ------------------------------------------------------------------------- forking

/// The runtime of a fork: that of its source, with what was asked for.
pub fn fork_runtime_request(request: &ForkRequest, source: &SessionSummary) -> (out: RuntimeRequest)
    ensures
        out@ == runtime::session_request(
            request@.source_profile,
            source@,
            request@.model,
            request@.provider,
            request@.context_window,
            request@.auto_compact_token_limit,
        ),
{
    overridden_session_request(
        &request.source_profile,
        source,
        &request.model,
        &request.provider,
        request.context_window,
        request.auto_compact_token_limit,
    )
}

/// The name for a fork, given what normalising the requested one came to.
pub fn fork_thread_name(requested: &Option<String>, normalized: &Option<String>) -> (out: Result<
    Option<String>,
    OperationError,
>)
    ensures
        match *requested {
            None => out == Ok::<Option<String>, OperationError>(None),
            Some(_) => match *normalized {
                Some(name) => out matches Ok(chosen) && text::opt_text(chosen) == Some(name@),
                None => out matches Err(error) && error@ == OperationErrorView::EmptyThreadName,
            },
        },
{
    match requested {
        None => Ok(None),
        Some(name) => match normalized {
            Some(name) => Ok(Some(name.clone())),
            None => Err(OperationError::EmptyThreadName),
        },
    }
}

/// The user message up to which a fork keeps the history; without one it keeps
/// all of it.
pub fn fork_position(nth_user_message: Option<usize>) -> (out: usize)
    ensures
        out == (match nth_user_message {
            Some(position) => position,
            None => usize::MAX,
        }),
{
    match nth_user_message {
        Some(position) => position,
        None => usize::MAX,
    }
}

/// The outcome of a fork: naming, writing the profile and shutting down are all
/// tried, and the first of them that failed counts.
pub fn fork_rollout_path(
    request: &ForkRequest,
    thread_id: &str,
    rollout_path: &str,
    rename_failure: &Option<String>,
    profile_failure: &Option<String>,
    shutdown_failure: &Option<String>,
) -> (out: Result<ForkOutcome, String>)
    ensures
        match first_failure(
            text::opt_text(*rename_failure),
            text::opt_text(*profile_failure),
            text::opt_text(*shutdown_failure),
        ) {
            Some(message) => out matches Err(error) && error@ == message,
            None => out matches Ok(outcome) && outcome@ == (ForkOutcomeView {
                thread_id: thread_id@,
                rollout_path: rollout_path@,
                runtime_profile: request@.write_profile,
            }),
        },
{
    let later = or_opt(profile_failure, shutdown_failure);
    match or_opt(rename_failure, &later) {
        Some(message) => Err(message),
        None => Ok(
            ForkOutcome {
                thread_id: thread_id.to_owned(),
                rollout_path: rollout_path.to_owned(),
                runtime_profile: clone_opt(&request.write_profile),
            },
        ),
    }
}

/// The note that a fork exists although its name could not be written.
pub open spec fn rename_failed_text(thread_id: Seq<char>) -> Seq<char> {
    "fork created new thread "@ + thread_id + ", but writing thread name failed"@
}

/// The note that a fork exists although its name could not be written.
pub fn rename_failed_note(thread_id: &str) -> (out: String)
    ensures
        out@ == rename_failed_text(thread_id@),
{
    cat3("fork created new thread ", thread_id, ", but writing thread name failed")
}

/// The note that a fork exists although its profile could not be written.
pub open spec fn profile_failed_text(thread_id: Seq<char>, profile: Seq<char>) -> Seq<char> {
    "fork created new thread "@ + thread_id + ", but writing profile `"@ + profile + "` failed"@
}

/// The note that a fork exists although its profile could not be written.
pub fn profile_failed_note(thread_id: &str, profile: &str) -> (out: String)
    ensures
        out@ == profile_failed_text(thread_id@, profile@),
{
    cat5("fork created new thread ", thread_id, ", but writing profile `", profile, "` failed")
}

/// A rollout is archived exactly where it lies in the directory for sessions and
/// its file is that of its thread, and the first of these that fails is told. It
/// keeps its name.
pub proof fn only_rollouts_of_the_thread_are_archived(
    file: RolloutFileView,
    sessions: Seq<Seq<char>>,
    archive_dir: Seq<char>,
)
    ensures
        ({
            let out = archived_place(file, sessions, archive_dir);
            let inside = sessions.len() <= file.components.len() && forall|i: int|
                0 <= i < sessions.len() ==> #[trigger] file.components[i] == sessions[i];
            let own = file.file_name is Some && (exists|front: Seq<char>|
                file.file_name.unwrap() == front + file.thread_id + ".jsonl"@);
            &&& out is Ok <==> inside && own
            &&& out matches Ok(place) ==> place == seq![archive_dir, file.file_name.unwrap()]
            &&& !inside <==> out == Err::<Seq<Seq<char>>, _>(
                OperationErrorView::OutsideSessions { path: file.path },
            )
            &&& inside && file.file_name is None <==> out == Err::<Seq<Seq<char>>, _>(
                OperationErrorView::NoFileName { path: file.path },
            )
            &&& inside && file.file_name is Some && !own <==> out == Err::<Seq<Seq<char>>, _>(
                OperationErrorView::OtherThread { path: file.path, thread_id: file.thread_id },
            )
        }),
{
    prefix_is_piecewise(file.components, sessions);
    if file.file_name is Some {
        suffix_has_a_front(file.file_name.unwrap(), file.thread_id);
    }
}

/// A rollout is restored exactly where it lies in the archive, its file is that of
/// its thread, and its name carries a date. It goes to the directory of that day
/// and keeps its name.
pub proof fn only_dated_rollouts_are_restored(
    file: RolloutFileView,
    archive: Seq<Seq<char>>,
    date: Option<RolloutDateView>,
    sessions_dir: Seq<char>,
)
    ensures
        ({
            let out = restored_place(file, archive, date, sessions_dir);
            let inside = archive.len() <= file.components.len() && forall|i: int|
                0 <= i < archive.len() ==> #[trigger] file.components[i] == archive[i];
            let own = file.file_name is Some && (exists|front: Seq<char>|
                file.file_name.unwrap() == front + file.thread_id + ".jsonl"@);
            &&& out is Ok <==> inside && own && date is Some
            &&& out matches Ok(place) ==> place == seq![
                sessions_dir,
                date.unwrap().year,
                date.unwrap().month,
                date.unwrap().day,
                file.file_name.unwrap(),
            ]
            &&& !inside <==> out == Err::<Seq<Seq<char>>, _>(
                OperationErrorView::OutsideArchive { path: file.path },
            )
            &&& inside && file.file_name is None <==> out == Err::<Seq<Seq<char>>, _>(
                OperationErrorView::NoFileName { path: file.path },
            )
            &&& inside && file.file_name is Some && !own <==> out == Err::<Seq<Seq<char>>, _>(
                OperationErrorView::OtherThread { path: file.path, thread_id: file.thread_id },
            )
            &&& inside && own && date is None <==> out == Err::<Seq<Seq<char>>, _>(
                OperationErrorView::NoTimestamp { path: file.path },
            )
        }),
{
    prefix_is_piecewise(file.components, archive);
    if file.file_name is Some {
        suffix_has_a_front(file.file_name.unwrap(), file.thread_id);
    }
}

proof fn prefix_is_piecewise(path: Seq<Seq<char>>, dir: Seq<Seq<char>>)
    ensures
        lies_in(path, dir) <==> dir.len() <= path.len() && forall|i: int|
            0 <= i < dir.len() ==> #[trigger] path[i] == dir[i],
{
    if lies_in(path, dir) {
        assert forall|i: int| 0 <= i < dir.len() implies #[trigger] path[i] == dir[i] by {
            assert(path.take(dir.len() as int)[i] == dir[i]);
        }
    } else if dir.len() <= path.len() && (forall|i: int|
        0 <= i < dir.len() ==> #[trigger] path[i] == dir[i]) {
        assert(path.take(dir.len() as int) =~= dir);
    }
}

proof fn suffix_has_a_front(name: Seq<char>, thread_id: Seq<char>)
    ensures
        (thread_id + ".jsonl"@).is_suffix_of(name) <==> exists|front: Seq<char>|
            name == front + thread_id + ".jsonl"@,
{
    let end = thread_id + ".jsonl"@;
    if end.is_suffix_of(name) {
        let at = name.len() - end.len();
        let front = name.take(at);
        assert(name =~= front + name.subrange(at, name.len() as int));
        assert(front + end =~= front + thread_id + ".jsonl"@);
        assert(name =~= front + thread_id + ".jsonl"@);
    }
    if exists|front: Seq<char>| name == front + thread_id + ".jsonl"@ {
        let front = choose|front: Seq<char>| name == front + thread_id + ".jsonl"@;
        assert(name.subrange(name.len() - end.len(), name.len() as int) =~= end);
    }
}

/// Only events of its own submission end an operation: an error fails it, a
/// compaction is done once the context is compacted or the item of the compaction
/// is complete, and a rollback once turns are rolled back.
pub proof fn operation_ends_with_its_own_event(
    event: ThreadEventView,
    submit_id: Seq<char>,
    kind: OperationKind,
)
    ensures
        ({
            let out = operation_progress(event, submit_id, kind);
            let own = event.id == submit_id;
            let compacted = event.msg is ContextCompacted || event.msg == (
            ThreadMsgView::ItemCompleted { context_compaction: true });
            &&& out is Failed <==> own && event.msg is Error
            &&& out matches WaitingView::Failed { message } ==> event.msg == (ThreadMsgView::Error {
                message,
            })
            &&& out is Done <==> own && (kind is Compact && compacted || kind is Rollback
                && event.msg is ThreadRolledBack)
            &&& out matches WaitingView::Done { last_agent_message } ==> last_agent_message is None
        }),
{
}

/// Only events of its own submission end a turn: its completion, with the last
/// message of the agent, or an error.
pub proof fn turn_ends_with_its_own_event(event: ThreadEventView, submit_id: Seq<char>)
    ensures
        ({
            let out = turn_progress(event, submit_id);
            let own = event.id == submit_id;
            &&& out is Done <==> own && event.msg is TurnComplete
            &&& out matches WaitingView::Done { last_agent_message } ==> event.msg == (
            ThreadMsgView::TurnComplete { last_agent_message })
            &&& out is Failed <==> own && event.msg is Error
            &&& out matches WaitingView::Failed { message } ==> event.msg == (ThreadMsgView::Error {
                message,
            })
        }),
{
}

/// Of several failures the one of the earliest step counts.
pub proof fn earliest_failure_counts(
    a: Option<Seq<char>>,
    b: Option<Seq<char>>,
    c: Option<Seq<char>>,
)
    ensures
        a is Some ==> first_failure(a, b, c) == a,
        a is None && b is Some ==> first_failure(a, b, c) == b,
        a is None && b is None ==> first_failure(a, b, c) == c,
{
}

proof fn subject_stands_between(front: Seq<char>, subject: Seq<char>, back: Seq<char>)
    ensures
        crate::search::contains(front + subject + back, subject),
{
    crate::search::text_stands_between_others(front + subject + back, subject);
}

/// A message names what it is about: the rollout, the thread or the submission.
pub proof fn messages_name_their_subject(path: Seq<char>, thread_id: Seq<char>)
    ensures
        crate::search::contains(
            operation_error_text(OperationErrorView::OutsideSessions { path }),
            path,
        ),
        crate::search::contains(
            operation_error_text(OperationErrorView::OutsideArchive { path }),
            path,
        ),
        crate::search::contains(
            operation_error_text(OperationErrorView::NoFileName { path }),
            path,
        ),
        crate::search::contains(
            operation_error_text(OperationErrorView::NoTimestamp { path }),
            path,
        ),
        crate::search::contains(
            operation_error_text(OperationErrorView::OtherThread { path, thread_id }),
            path,
        ),
        crate::search::contains(
            operation_error_text(OperationErrorView::OtherThread { path, thread_id }),
            thread_id,
        ),
        crate::search::contains(
            operation_error_text(OperationErrorView::OperationTimeout { submit_id: thread_id }),
            thread_id,
        ),
        crate::search::contains(
            operation_error_text(OperationErrorView::NoRolloutForThread { thread_id }),
            thread_id,
        ),
        crate::search::contains(rename_failed_text(thread_id), thread_id),
        crate::search::contains(profile_failed_text(thread_id, path), thread_id),
        crate::search::contains(profile_failed_text(thread_id, path), path),
{
    let none = Seq::<char>::empty();
    let rollout = "rollout path `"@;
    subject_stands_between(rollout, path, "` must be in sessions directory"@);
    subject_stands_between(rollout, path, "` must be in archived directory"@);
    subject_stands_between(rollout, path, "` missing file name"@);
    subject_stands_between(rollout, path, "` missing filename timestamp"@);
    let other = "` does not match thread id "@;
    let text = operation_error_text(OperationErrorView::OtherThread { path, thread_id });
    assert(text =~= rollout + path + (other + thread_id));
    subject_stands_between(rollout, path, other + thread_id);
    assert(text =~= rollout + path + other + thread_id + none);
    subject_stands_between(rollout + path + other, thread_id, none);
    subject_stands_between("timed out waiting for operation `"@, thread_id, "`"@);
    let missing = "unable to resolve rollout path for new thread "@;
    assert(missing + thread_id =~= missing + thread_id + none);
    subject_stands_between(missing, thread_id, none);
    let made = "fork created new thread "@;
    subject_stands_between(made, thread_id, ", but writing thread name failed"@);
    let middle = ", but writing profile `"@;
    let note = profile_failed_text(thread_id, path);
    assert(note =~= made + thread_id + (middle + path + "` failed"@));
    subject_stands_between(made, thread_id, middle + path + "` failed"@);
    subject_stands_between(made + thread_id + middle, path, "` failed"@);
}

} // verus!
