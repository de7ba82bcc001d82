//! Summaries of sessions, read off their rollouts.

use vstd::prelude::*;

use crate::lines;
use crate::lines::holds_text;
use crate::lines::lines;
use crate::rollout::EventMsg;
use crate::rollout::EventMsgView;
use crate::rollout::ResponseItem;
use crate::rollout::ResponseItemView;
use crate::rollout::RolloutItem;
use crate::rollout::RolloutItemView;
use crate::rollout::RolloutLine;
use crate::rollout::RolloutLineView;
use crate::rollout::SessionMeta;
use crate::rollout::SessionMetaView;
use crate::rollout::TokenUsageInfo;
use crate::rollout::TurnItem;
use crate::rollout::TurnItemView;
use crate::search;
use crate::search::find_chars;
use crate::search::trim_char;
use crate::text;
use crate::text::cat3;
use crate::text::chars_of;
use crate::text::clone_opt;
use crate::text::no_texts;
use crate::text::opt_or;
use crate::text::push_text;
use crate::text::text_of;
use crate::text::trim;
use crate::types::SessionSummary;
use crate::types::SessionSummaryView;
use crate::types::TokenSnapshot;

verus! {

/// The records of a rollout file cannot be read.
#[derive(Debug, Clone, Copy, PartialEq, Eq, Structural)]
pub enum SummaryError {
    /// No line of the file is a record.
    NoRecords,
}

/// The message for a rollout without records.
pub open spec fn no_records_text(path: Seq<char>) -> Seq<char> {
    "rollout at "@ + path + " contains no parseable records"@
}

/// The message for a rollout without records.
pub fn no_records_message(path: &str) -> (out: String)
    ensures
        out@ == no_records_text(path@),
{
    cat3("rollout at ", path, " contains no parseable records")
}

// --------------------------------------------------------------------- messages

/// The text behind which the request of a user stands in a message.
pub open spec fn request_marker() -> Seq<char> {
    "## My request for Codex:"@
}

/// The constant `USER_MESSAGE_BEGIN` of `codex_protocol`.
#[verifier::external_body]
fn user_message_begin() -> (out: &'static str)
    ensures
        out@ == request_marker(),
{
    codex_protocol::protocol::USER_MESSAGE_BEGIN
}

/// The first position of `needle` in a text that contains it.
pub open spec fn first_position(message: Seq<char>, needle: Seq<char>) -> int {
    choose|at: int| search::first_at(message, needle, at)
}

proof fn first_position_is(message: Seq<char>, needle: Seq<char>, at: int)
    requires
        search::first_at(message, needle, at),
    ensures
        first_position(message, needle) == at,
        search::contains(message, needle),
{
    let other = first_position(message, needle);
    assert(search::first_at(message, needle, other));
    assert(search::occurs_at(message, needle, at));
    assert(search::occurs_at(message, needle, other));
}

/// The request in a message of the user: what stands behind the marker, or the
/// whole message where there is none, without white space around it.
pub open spec fn request_in(message: Seq<char>) -> Seq<char> {
    let marker = request_marker();
    if search::contains(message, marker) {
        text::trimmed(message.skip(first_position(message, marker) + marker.len()))
    } else {
        text::trimmed(message)
    }
}

/// The request in a message of the user.
pub fn strip_user_message_prefix(message: &str) -> (out: String)
    ensures
        out@ == request_in(message@),
{
    let chars = chars_of(message);
    let marker = chars_of(user_message_begin());
    match find_chars(&chars, &marker) {
        Some(at) => {
            proof {
                first_position_is(message@, marker@, at as int);
            }
            let size: usize = chars.len();
            assert(at + marker@.len() <= size);
            let rest = text_of(&chars, at + marker.len(), size);
            assert(rest@ =~= message@.skip(at + marker@.len()));
            trim(rest.as_str())
        },
        None => trim(message),
    }
}

/// The request that an item of a history makes, if it makes one.
pub open spec fn request_of(item: ResponseItemView) -> Option<Seq<char>> {
    match item.turn {
        TurnItemView::UserMessage { message } => if request_in(message).len() > 0 {
            Some(request_in(message))
        } else {
            None
        },
        _ => None,
    }
}

/// The requests that the items of a history make, in their order.
pub open spec fn requests_of(items: Seq<ResponseItemView>) -> Seq<Seq<char>>
    decreases items.len(),
{
    if items.len() == 0 {
        Seq::empty()
    } else {
        match request_of(items.last()) {
            Some(request) => requests_of(items.drop_last()).push(request),
            None => requests_of(items.drop_last()),
        }
    }
}

/// The request of an item, where it is a message of the user with a text.
pub fn user_message_text_from_response_item(item: &ResponseItem) -> (out: Option<String>)
    ensures
        text::opt_text(out) == request_of(item@),
{
    match &item.turn {
        TurnItem::UserMessage { message } => {
            let request = strip_user_message_prefix(message.as_str());
            if request.as_str().is_empty() {
                None
            } else {
                Some(request)
            }
        },
        _ => None,
    }
}

pub open spec fn replacement_requests(history: Option<Seq<ResponseItemView>>) -> Seq<Seq<char>> {
    match history {
        Some(items) => requests_of(items),
        None => Seq::empty(),
    }
}

/// The requests that are left after a compaction.
pub fn user_messages_from_replacement_history(
    replacement_history: &Option<Vec<ResponseItem>>,
) -> (out: Vec<String>)
    ensures
        text::texts(out@) == replacement_requests(replacement_history.deep_view()),
{
    let mut out = no_texts();
    if let Some(items) = replacement_history {
        let ghost all = items.deep_view();
        assert(all.take(0) =~= Seq::<ResponseItemView>::empty());
        for i in 0..items.len()
            invariant
                all == items.deep_view(),
                text::texts(out@) == requests_of(all.take(i as int)),
        {
            assert(all.take(i + 1).drop_last() =~= all.take(i as int));
            assert(all[i as int] == items@[i as int]@);
            if let Some(request) = user_message_text_from_response_item(&items[i]) {
                push_text(&mut out, request);
            }
        }
        assert(all.take(all.len() as int) =~= all);
    }
    out
}

/// A list without its last entries.
pub open spec fn without_last(messages: Seq<Seq<char>>, count: nat) -> Seq<Seq<char>> {
    if count >= messages.len() {
        Seq::empty()
    } else {
        messages.take(messages.len() - count)
    }
}

/// Takes the last `num_turns` messages off a list.
pub fn drop_last_user_messages(messages: &mut Vec<String>, num_turns: u32)
    ensures
        text::texts(final(messages)@) == without_last(
            text::texts(old(messages)@),
            num_turns as nat,
        ),
        final(messages)@.is_prefix_of(old(messages)@),
{
    let remaining: usize = messages.len().saturating_sub(num_turns as usize);
    messages.truncate(remaining);
    assert(text::texts(messages@) =~= without_last(text::texts(old(messages)@), num_turns as nat));
}

// ---------------------------------------------------------------------- summary

pub open spec fn usage_snapshot(info: Option<TokenUsageInfo>) -> TokenSnapshot {
    match info {
        Some(usage) => TokenSnapshot {
            context_tokens: Some(usage.last_total_tokens),
            session_total_tokens: Some(usage.total_tokens),
            model_context_window: usage.model_context_window,
        },
        None => TokenSnapshot {
            context_tokens: None,
            session_total_tokens: None,
            model_context_window: None,
        },
    }
}

/// The counts of a token report.
pub fn token_snapshot_from_usage(info: &Option<TokenUsageInfo>) -> (out: TokenSnapshot)
    ensures
        out == usage_snapshot(*info),
{
    match info {
        Some(usage) => TokenSnapshot {
            context_tokens: Some(usage.last_total_tokens),
            session_total_tokens: Some(usage.total_tokens),
            model_context_window: usage.model_context_window,
        },
        None => TokenSnapshot::default(),
    }
}

/// Whether a rollout lies in the archive: one of the components of its path is
/// the directory for archived sessions.
pub fn is_archived_rollout(components: &Vec<String>, archive_dir: &str) -> (out: bool)
    ensures
        out == text::texts(components@).contains(archive_dir@),
{
    holds_text(components, archive_dir)
}

/// The name of a session source: its JSON without the quotes around it.
pub open spec fn source_name(source: Option<Seq<char>>) -> Seq<char> {
    search::without_ends(text::text_or(source, "unknown"@), '"')
}

/// The name of a session source, given as JSON where it could be written so.
pub fn format_session_source(source: &Option<String>) -> (out: String)
    ensures
        out@ == source_name(text::opt_text(*source)),
{
    trim_char(opt_or(source, "unknown").as_str(), '"')
}

/// The lines of a rollout file that may hold a record: those that are not
/// blank, without white space around them.
pub open spec fn candidate_lines(pieces: Seq<Seq<char>>) -> Seq<Seq<char>>
    decreases pieces.len(),
{
    if pieces.len() == 0 {
        Seq::empty()
    } else if text::trimmed(pieces.last()).len() == 0 {
        candidate_lines(pieces.drop_last())
    } else {
        candidate_lines(pieces.drop_last()).push(text::trimmed(pieces.last()))
    }
}

/// The lines of a rollout file that may hold a record.
pub fn record_candidates(contents: &str) -> (out: Vec<String>)
    ensures
        text::texts(out@) == candidate_lines(lines::lines_of(contents@)),
{
    let all_lines = lines(contents);
    let mut out = no_texts();
    let ghost all = lines::lines_of(contents@);
    assert(all.take(0) =~= Seq::<Seq<char>>::empty());
    for i in 0..all_lines.len()
        invariant
            all == lines::lines_of(contents@),
            text::texts(all_lines@) == all,
            text::texts(out@) == candidate_lines(all.take(i as int)),
    {
        assert(all.take(i + 1).drop_last() =~= all.take(i as int));
        assert(text::texts(all_lines@)[i as int] == all_lines@[i as int]@);
        let trimmed = trim(all_lines[i].as_str());
        if !trimmed.as_str().is_empty() {
            push_text(&mut out, trimmed);
        }
    }
    assert(all.take(all.len() as int) =~= all);
    out
}

/// The readings that are records, in their order.
pub open spec fn readable(readings: Seq<Option<RolloutLineView>>) -> Seq<RolloutLineView>
    decreases readings.len(),
{
    if readings.len() == 0 {
        Seq::empty()
    } else {
        match readings.last() {
            Some(line) => readable(readings.drop_last()).push(line),
            None => readable(readings.drop_last()),
        }
    }
}

/// The records among the readings of candidate lines. At least one line has to
/// be a record.
pub fn read_rollout_lines(readings: &Vec<Option<RolloutLine>>) -> (out: Result<
    Vec<RolloutLine>,
    SummaryError,
>)
    ensures
        match out {
            Ok(records) => records.deep_view() == readable(readings.deep_view())
                && readable(readings.deep_view()).len() > 0,
            Err(error) => error == SummaryError::NoRecords && readable(readings.deep_view()).len()
                == 0,
        },
{
    let mut out: Vec<RolloutLine> = Vec::new();
    let ghost all = readings.deep_view();
    assert(out.deep_view() =~= readable(all.take(0)));
    for i in 0..readings.len()
        invariant
            all == readings.deep_view(),
            out.deep_view() == readable(all.take(i as int)),
    {
        assert(all.take(i + 1).drop_last() =~= all.take(i as int));
        assert(all[i as int] == readings@[i as int].deep_view());
        if let Some(line) = &readings[i] {
            let ghost before = out.deep_view();
            out.push(line.clone());
            assert(out.deep_view() =~= before.push(line@));
        }
    }
    assert(all.take(all.len() as int) =~= all);
    if out.len() == 0 {
        return Err(SummaryError::NoRecords);
    }
    Ok(out)
}

/// What the records of a rollout say of its session.
pub struct SessionState {
    pub requests: Seq<Seq<char>>,
    pub model: Option<Seq<char>>,
    pub tokens: TokenSnapshot,
}

/// What the records say, the last word last: a compaction leaves the requests
/// of its replacement history, a rollback takes requests away, the newest
/// model and the newest token report count.
pub open spec fn session_state(records: Seq<RolloutLineView>) -> SessionState
    decreases records.len(),
{
    if records.len() == 0 {
        SessionState { requests: Seq::empty(), model: None, tokens: usage_snapshot(None) }
    } else {
        let before = session_state(records.drop_last());
        match records.last().item {
            RolloutItemView::ResponseItem(item) => match request_of(item) {
                Some(request) => SessionState { requests: before.requests.push(request), ..before },
                None => before,
            },
            RolloutItemView::Compacted(compacted) => SessionState {
                requests: replacement_requests(compacted.replacement_history),
                ..before
            },
            RolloutItemView::TurnContext(context) => SessionState {
                model: Some(context.model),
                ..before
            },
            RolloutItemView::EventMsg(EventMsgView::TokenCount { info }) => SessionState {
                tokens: usage_snapshot(info),
                ..before
            },
            RolloutItemView::EventMsg(EventMsgView::ThreadRolledBack { num_turns }) => SessionState {
                requests: without_last(before.requests, num_turns as nat),
                ..before
            },
            _ => before,
        }
    }
}

/// The summary of a session.
pub open spec fn session_summary(
    meta: SessionMetaView,
    thread_name: Option<Seq<char>>,
    rollout_path: Seq<char>,
    archived: bool,
    records: Seq<RolloutLineView>,
) -> SessionSummaryView {
    let state = session_state(records);
    SessionSummaryView {
        thread_id: meta.id,
        thread_name,
        rollout_path,
        archived,
        source: source_name(meta.source),
        session_provider: meta.model_provider,
        session_cwd: meta.cwd,
        session_timestamp: meta.timestamp,
        latest_model: state.model,
        latest_total_tokens: state.tokens.session_total_tokens,
        latest_context_tokens: state.tokens.context_tokens,
        latest_model_context_window: state.tokens.model_context_window,
        user_turns: state.requests.len() as usize,
        first_user_message: if state.requests.len() > 0 {
            Some(state.requests[0])
        } else {
            None
        },
        forked_from_id: meta.forked_from_id,
        memory_mode: meta.memory_mode,
    }
}

/// Summarises a session from the first record of its rollout, the name that
/// the index gives it, and all of its records.
pub fn build_session_summary(
    meta: &SessionMeta,
    thread_name: &Option<String>,
    rollout_path: &str,
    archived: bool,
    rollout_lines: &Vec<RolloutLine>,
) -> (out: SessionSummary)
    ensures
        out@ == session_summary(
            meta@,
            text::opt_text(*thread_name),
            rollout_path@,
            archived,
            rollout_lines.deep_view(),
        ),
{
    let mut requests = no_texts();
    let mut latest_model: Option<String> = None;
    let mut tokens = TokenSnapshot::default();
    let ghost all = rollout_lines.deep_view();
    assert(all.take(0) =~= Seq::<RolloutLineView>::empty());
    for i in 0..rollout_lines.len()
        invariant
            all == rollout_lines.deep_view(),
            text::texts(requests@) == session_state(all.take(i as int)).requests,
            text::opt_text(latest_model) == session_state(all.take(i as int)).model,
            tokens == session_state(all.take(i as int)).tokens,
    {
        assert(all.take(i + 1).drop_last() =~= all.take(i as int));
        assert(all[i as int] == rollout_lines@[i as int]@);
        match &rollout_lines[i].item {
            RolloutItem::ResponseItem(item) => {
                if let Some(request) = user_message_text_from_response_item(item) {
                    push_text(&mut requests, request);
                }
            },
            RolloutItem::Compacted(compacted) => {
                requests = user_messages_from_replacement_history(&compacted.replacement_history);
            },
            RolloutItem::TurnContext(context) => {
                latest_model = Some(context.model.clone());
            },
            RolloutItem::EventMsg(EventMsg::TokenCount { info }) => {
                tokens = token_snapshot_from_usage(info);
            },
            RolloutItem::EventMsg(EventMsg::ThreadRolledBack { num_turns }) => {
                drop_last_user_messages(&mut requests, *num_turns);
            },
            _ => {},
        }
    }
    assert(all.take(all.len() as int) =~= all);
    let first_user_message: Option<String> = if requests.len() > 0 {
        assert(text::texts(requests@)[0] == requests@[0]@);
        Some(requests[0].clone())
    } else {
        None
    };
    SessionSummary {
        thread_id: meta.id.clone(),
        thread_name: clone_opt(thread_name),
        rollout_path: rollout_path.to_owned(),
        archived,
        source: format_session_source(&meta.source),
        session_provider: clone_opt(&meta.model_provider),
        session_cwd: meta.cwd.clone(),
        session_timestamp: meta.timestamp.clone(),
        latest_model,
        latest_total_tokens: tokens.session_total_tokens,
        latest_context_tokens: tokens.context_tokens,
        latest_model_context_window: tokens.model_context_window,
        user_turns: requests.len(),
        first_user_message,
        forked_from_id: clone_opt(&meta.forked_from_id),
        memory_mode: clone_opt(&meta.memory_mode),
    }
}

/// A rollback takes exactly that many requests off a session, or all of them,
/// and the others stay in their order.
pub proof fn rollback_takes_requests_away(records: Seq<RolloutLineView>, rollback: RolloutLineView)
    requires
        rollback.item matches RolloutItemView::EventMsg(EventMsgView::ThreadRolledBack { .. }),
    ensures
        ({
            let before = session_state(records).requests;
            let after = session_state(records.push(rollback)).requests;
            let turns = rollback.item->EventMsg_0->ThreadRolledBack_num_turns;
            &&& after.is_prefix_of(before)
            &&& after.len() == (if turns >= before.len() {
                0
            } else {
                before.len() - turns
            })
        }),
{
    assert(records.push(rollback).drop_last() =~= records);
}

/// After a compaction a session has the requests of the replacement history
/// alone, whatever came before.
pub proof fn compaction_resets_requests(
    records: Seq<RolloutLineView>,
    other: Seq<RolloutLineView>,
    compaction: RolloutLineView,
)
    requires
        compaction.item is Compacted,
    ensures
        session_state(records.push(compaction)).requests == session_state(
            other.push(compaction),
        ).requests,
{
    assert(records.push(compaction).drop_last() =~= records);
    assert(other.push(compaction).drop_last() =~= other);
}

/// The record reports tokens.
pub open spec fn reports_tokens(line: RolloutLineView) -> bool {
    line.item matches RolloutItemView::EventMsg(EventMsgView::TokenCount { .. })
}

proof fn tokens_stay(records: Seq<RolloutLineView>, rest: Seq<RolloutLineView>)
    requires
        forall|i: int| 0 <= i < rest.len() ==> !reports_tokens(#[trigger] rest[i]),
    ensures
        session_state(records + rest).tokens == session_state(records).tokens,
    decreases rest.len(),
{
    if rest.len() == 0 {
        assert(records + rest =~= records);
    } else {
        assert((records + rest).drop_last() =~= records + rest.drop_last());
        assert(!reports_tokens(rest[rest.len() - 1]));
        tokens_stay(records, rest.drop_last());
    }
}

/// The token counts and the window of a summary are those of the last report in
/// the rollout, and unknown where that says nothing or there is no report.
pub proof fn last_token_report_counts(
    meta: SessionMetaView,
    thread_name: Option<Seq<char>>,
    rollout_path: Seq<char>,
    archived: bool,
    records: Seq<RolloutLineView>,
    report: RolloutLineView,
    info: Option<TokenUsageInfo>,
    rest: Seq<RolloutLineView>,
)
    requires
        report.item == RolloutItemView::EventMsg(EventMsgView::TokenCount { info }),
        forall|i: int| 0 <= i < rest.len() ==> !reports_tokens(#[trigger] rest[i]),
    ensures
        ({
            let out = session_summary(
                meta,
                thread_name,
                rollout_path,
                archived,
                records.push(report) + rest,
            );
            match info {
                Some(usage) => {
                    &&& out.latest_total_tokens == Some(usage.total_tokens)
                    &&& out.latest_context_tokens == Some(usage.last_total_tokens)
                    &&& out.latest_model_context_window == usage.model_context_window
                },
                None => {
                    &&& out.latest_total_tokens is None
                    &&& out.latest_context_tokens is None
                    &&& out.latest_model_context_window is None
                },
            }
        }),
        ({
            let out = session_summary(meta, thread_name, rollout_path, archived, rest);
            &&& out.latest_total_tokens is None
            &&& out.latest_context_tokens is None
            &&& out.latest_model_context_window is None
        }),
{
    tokens_stay(records.push(report), rest);
    assert(records.push(report).drop_last() =~= records);
    tokens_stay(Seq::empty(), rest);
    assert(Seq::empty() + rest =~= rest);
}

proof fn model_stays(records: Seq<RolloutLineView>, rest: Seq<RolloutLineView>)
    requires
        forall|i: int| 0 <= i < rest.len() ==> !((#[trigger] rest[i]).item is TurnContext),
    ensures
        session_state(records + rest).model == session_state(records).model,
    decreases rest.len(),
{
    if rest.len() == 0 {
        assert(records + rest =~= records);
    } else {
        assert((records + rest).drop_last() =~= records + rest.drop_last());
        assert(!(rest[rest.len() - 1].item is TurnContext));
        model_stays(records, rest.drop_last());
    }
}

/// The model of a summary is that of the last turn context in the rollout.
pub proof fn last_turn_context_names_the_model(
    meta: SessionMetaView,
    thread_name: Option<Seq<char>>,
    rollout_path: Seq<char>,
    archived: bool,
    records: Seq<RolloutLineView>,
    line: RolloutLineView,
    rest: Seq<RolloutLineView>,
)
    requires
        line.item is TurnContext,
        forall|i: int| 0 <= i < rest.len() ==> !((#[trigger] rest[i]).item is TurnContext),
    ensures
        session_summary(
            meta,
            thread_name,
            rollout_path,
            archived,
            records.push(line) + rest,
        ).latest_model == Some(line.item->TurnContext_0.model),
        session_summary(meta, thread_name, rollout_path, archived, rest).latest_model is None,
{
    model_stays(records.push(line), rest);
    assert(records.push(line).drop_last() =~= records);
    model_stays(Seq::empty(), rest);
    assert(Seq::empty() + rest =~= rest);
}

/// The summary of a session tells its first record, its name and its place as
/// they are, and of the requests how many there are and which is the first.
pub proof fn summary_tells_what_it_is_given(
    meta: SessionMetaView,
    thread_name: Option<Seq<char>>,
    rollout_path: Seq<char>,
    archived: bool,
    records: Seq<RolloutLineView>,
)
    ensures
        ({
            let out = session_summary(meta, thread_name, rollout_path, archived, records);
            let requests = session_state(records).requests;
            &&& out.thread_id == meta.id
            &&& out.thread_name == thread_name
            &&& out.rollout_path == rollout_path
            &&& out.archived == archived
            &&& out.session_provider == meta.model_provider
            &&& out.session_cwd == meta.cwd
            &&& out.session_timestamp == meta.timestamp
            &&& out.forked_from_id == meta.forked_from_id
            &&& out.memory_mode == meta.memory_mode
            &&& meta.source is None ==> out.source == search::without_ends("unknown"@, '"')
            &&& meta.source matches Some(source) ==> out.source == search::without_ends(source, '"')
            &&& requests.len() <= usize::MAX ==> out.user_turns == requests.len()
            &&& out.first_user_message == (if requests.len() > 0 {
                Some(requests[0])
            } else {
                None
            })
        }),
{
}

/// What a user asks for in a message stands behind the first marker in it, or is
/// the whole message where there is no marker; white space around it does not
/// count.
pub proof fn request_stands_behind_the_marker(before: Seq<char>, request: Seq<char>)
    requires
        forall|i: int|
            0 <= i < before.len() ==> !search::occurs_at(
                before + "## My request for Codex:"@ + request,
                "## My request for Codex:"@,
                i,
            ),
    ensures
        request_in(before + "## My request for Codex:"@ + request) == text::trimmed(request),
        !search::contains(request, "## My request for Codex:"@) ==> request_in(request)
            == text::trimmed(request),
{
    let marker = "## My request for Codex:"@;
    let message = before + marker + request;
    let at = before.len() as int;
    assert(message.subrange(at, at + marker.len()) =~= marker);
    assert(search::occurs_at(message, marker, at));
    assert(search::first_at(message, marker, at));
    first_position_is(message, marker, at);
    assert(message.skip(at + marker.len()) =~= request);
}

/// A response item counts as a request exactly where it is a message of the user
/// that asks for something; it then is the last request. Other records but
/// compactions and rollbacks make no request and take none away.
pub proof fn user_messages_are_requests(records: Seq<RolloutLineView>, line: RolloutLineView)
    ensures
        session_state(Seq::empty()).requests.len() == 0,
        ({
            let before = session_state(records).requests;
            let after = session_state(records.push(line)).requests;
            match line.item {
                RolloutItemView::ResponseItem(item) => match item.turn {
                    TurnItemView::UserMessage { message } => after == if request_in(message).len()
                        > 0 {
                        before.push(request_in(message))
                    } else {
                        before
                    },
                    _ => after == before,
                },
                RolloutItemView::Compacted(_) => true,
                RolloutItemView::EventMsg(EventMsgView::ThreadRolledBack { .. }) => true,
                _ => after == before,
            }
        }),
{
    assert(records.push(line).drop_last() =~= records);
}

proof fn requests_of_records(items: Seq<ResponseItemView>, lines: Seq<RolloutLineView>)
    requires
        items.len() == lines.len(),
        forall|i: int|
            0 <= i < items.len() ==> (#[trigger] lines[i]).item == RolloutItemView::ResponseItem(
                items[i],
            ),
    ensures
        requests_of(items) == session_state(lines).requests,
    decreases items.len(),
{
    if items.len() > 0 {
        assert(lines[lines.len() - 1] == lines.last());
        requests_of_records(items.drop_last(), lines.drop_last());
    }
}

/// After a compaction a session has the requests that a rollout with the items of
/// the replacement history alone would have, and none where there is no such
/// history.
pub proof fn compaction_leaves_requests_of_its_replacement(
    records: Seq<RolloutLineView>,
    compaction: RolloutLineView,
    items: Seq<ResponseItemView>,
    lines: Seq<RolloutLineView>,
)
    requires
        compaction.item is Compacted,
        items.len() == lines.len(),
        forall|i: int|
            0 <= i < items.len() ==> (#[trigger] lines[i]).item == RolloutItemView::ResponseItem(
                items[i],
            ),
    ensures
        compaction.item->Compacted_0.replacement_history == Some(items) ==> session_state(
            records.push(compaction),
        ).requests == session_state(lines).requests,
        compaction.item->Compacted_0.replacement_history is None ==> session_state(
            records.push(compaction),
        ).requests.len() == 0,
{
    assert(records.push(compaction).drop_last() =~= records);
    requests_of_records(items, lines);
}

/// Every reading that is a record is told, in its order, and nothing else.
pub proof fn records_are_read_in_order(
    readings: Seq<Option<RolloutLineView>>,
    reading: Option<RolloutLineView>,
)
    ensures
        readable(Seq::empty()).len() == 0,
        readable(readings.push(reading)) == match reading {
            Some(line) => readable(readings).push(line),
            None => readable(readings),
        },
{
    assert(readings.push(reading).drop_last() =~= readings);
}

/// A line of a rollout may hold a record exactly where it is not blank; it is read
/// without the white space around it, and the lines keep their order.
pub proof fn lines_with_text_are_read(pieces: Seq<Seq<char>>, piece: Seq<char>)
    ensures
        candidate_lines(Seq::empty()).len() == 0,
        text::blank(piece) ==> candidate_lines(pieces.push(piece)) == candidate_lines(pieces),
        !text::blank(piece) ==> candidate_lines(pieces.push(piece)) == candidate_lines(
            pieces,
        ).push(text::trimmed(piece)),
{
    assert(pieces.push(piece).drop_last() =~= pieces);
    text::trimmed_empty_iff_blank(piece);
}

} // verus!
