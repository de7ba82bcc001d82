//! Editing rollout files line by line.
//!
//! The records themselves are JSON. A caller reads and writes that JSON; what
//! is read, what is changed and how the file is put together again is decided
//! here.

use vstd::prelude::*;

use crate::lines;
use crate::lines::split_line_ending;
use crate::lines::split_segments;
use crate::numbers;
use crate::numbers::usize_text;
use crate::rollout::EventMsg;
use crate::rollout::EventMsgView;
use crate::rollout::RolloutItem;
use crate::rollout::RolloutItemView;
use crate::rollout::SessionMeta;
use crate::rollout::SessionMetaView;
use crate::rollout::TokenUsageInfo;
use crate::search::char_count;
use crate::search::has_suffix;
use crate::search::take_chars;
use crate::text;
use crate::text::cat2;
use crate::text::clone_opt;
use crate::text::is_blank;

verus! {

/// Changes to the first record of a rollout.
pub struct MetaPatch {
    pub provider: Option<String>,
    pub cwd: Option<String>,
    pub memory_mode: Option<String>,
    pub clear_memory_mode: bool,
}

impl Default for MetaPatch {
    fn default() -> (out: Self)
        ensures
            out.provider is None,
            out.cwd is None,
            out.memory_mode is None,
            !out.clear_memory_mode,
    {
        MetaPatch { provider: None, cwd: None, memory_mode: None, clear_memory_mode: false }
    }
}

/// The context window that a repaired rollout is to name.
#[derive(Debug, Clone, Copy, PartialEq, Eq, Structural)]
pub struct ResumeStatePatch {
    pub model_context_window: i64,
}

/// How many records a repair changed.
#[derive(Debug, Clone, Copy, PartialEq, Eq, Structural)]
pub struct ResumeStateRewriteStats {
    pub token_count_events_updated: usize,
    pub turn_started_events_updated: usize,
}

impl Default for ResumeStateRewriteStats {
    fn default() -> (out: Self)
        ensures
            out == no_updates(),
    {
        ResumeStateRewriteStats { token_count_events_updated: 0, turn_started_events_updated: 0 }
    }
}

pub open spec fn no_updates() -> ResumeStateRewriteStats {
    ResumeStateRewriteStats { token_count_events_updated: 0, turn_started_events_updated: 0 }
}

/// Why a rollout cannot be edited.
#[derive(Debug, Clone, Copy, PartialEq, Eq, Structural)]
pub enum RolloutEditError {
    /// The first record is no JSON of a rollout.
    UnreadableFirstLine,
    /// The first record is not about the session.
    NotSessionMeta,
    /// There is no record at all.
    NoSessionMeta,
    /// The record on this line is no JSON of a rollout.
    UnreadableLine { line: usize },
    /// A changed record cannot be written as JSON.
    NotEncodable,
}

/// The message for an error.
pub open spec fn edit_error_text(error: RolloutEditError) -> Seq<char> {
    match error {
        RolloutEditError::UnreadableFirstLine => "failed to parse first rollout line"@,
        RolloutEditError::NotSessionMeta => "first non-empty rollout line is not a SessionMeta record"@,
        RolloutEditError::NoSessionMeta => "rollout does not contain a SessionMeta record"@,
        RolloutEditError::UnreadableLine { line } => "failed to parse rollout line "@ + numbers::decimal(line as int),
        RolloutEditError::NotEncodable => "failed to write rollout record"@,
    }
}

/// The message for an error.
pub fn edit_error_message(error: RolloutEditError) -> (out: String)
    ensures
        out@ == edit_error_text(error),
{
    match error {
        RolloutEditError::UnreadableFirstLine => "failed to parse first rollout line".to_owned(),
        RolloutEditError::NotSessionMeta => "first non-empty rollout line is not a SessionMeta record".to_owned(),
        RolloutEditError::NoSessionMeta => "rollout does not contain a SessionMeta record".to_owned(),
        RolloutEditError::UnreadableLine { line } => cat2("failed to parse rollout line ", usize_text(line).as_str()),
        RolloutEditError::NotEncodable => "failed to write rollout record".to_owned(),
    }
}

/// The first record of a rollout as its JSON was read.
pub enum FirstRecord {
    Unreadable,
    SessionMeta(SessionMeta),
    Other,
}

/// The position of the first piece that is not blank, or the number of pieces.
pub open spec fn first_record_at(pieces: Seq<Seq<char>>) -> int
    decreases pieces.len(),
{
    if pieces.len() == 0 {
        0
    } else {
        let front = first_record_at(pieces.drop_last());
        if front < pieces.len() - 1 {
            front
        } else if text::blank(pieces.last()) {
            pieces.len() as int
        } else {
            pieces.len() - 1
        }
    }
}

proof fn first_record_at_bound(pieces: Seq<Seq<char>>)
    ensures
        0 <= first_record_at(pieces) <= pieces.len(),
        first_record_at(pieces) < pieces.len() ==> !text::blank(pieces[first_record_at(pieces)]),
        forall|i: int| 0 <= i < first_record_at(pieces) ==> text::blank(#[trigger] pieces[i]),
    decreases pieces.len(),
{
    if pieces.len() > 0 {
        let front = pieces.drop_last();
        first_record_at_bound(front);
        assert forall|i: int| 0 <= i < first_record_at(pieces) implies text::blank(
            #[trigger] pieces[i],
        ) by {
            if i < front.len() {
                assert(front[i] == pieces[i]);
            }
        }
    }
}

/// Whether a text ends with a line feed.
pub open spec fn ends_line(contents: Seq<char>) -> bool {
    contents.len() > 0 && contents.last() == '\n'
}

/// Edited contents, without a line feed at the end that was not there before.
pub open spec fn end_like(contents: Seq<char>, edited: Seq<char>) -> Seq<char> {
    if !ends_line(contents) && ends_line(edited) {
        edited.drop_last()
    } else {
        edited
    }
}

/// Contents with the piece at `at` replaced by other JSON. The line ending of
/// that piece and all other pieces stay.
pub open spec fn with_record(pieces: Seq<Seq<char>>, at: int, json: Seq<char>) -> Seq<char> {
    lines::concat(pieces.take(at)) + json + lines::line_ending(pieces[at]) + lines::concat(
        pieces.skip(at + 1),
    )
}

/// The session record with the changes of a patch.
pub open spec fn patched_meta(meta: SessionMetaView, patch: MetaPatch) -> SessionMetaView {
    SessionMetaView {
        model_provider: match patch.provider {
            Some(provider) => Some(provider@),
            None => meta.model_provider,
        },
        cwd: match patch.cwd {
            Some(cwd) => cwd@,
            None => meta.cwd,
        },
        memory_mode: if patch.clear_memory_mode {
            None
        } else {
            match patch.memory_mode {
                Some(mode) => Some(mode@),
                None => meta.memory_mode,
            }
        },
        ..meta
    }
}

fn concat_pieces(pieces: &Vec<String>, from: usize, to: usize) -> (out: String)
    requires
        from <= to <= pieces@.len(),
    ensures
        out@ == lines::concat(text::texts(pieces@).subrange(from as int, to as int)),
{
    let mut out = String::new();
    let ghost all = text::texts(pieces@);
    let mut i: usize = from;
    assert(all.subrange(from as int, from as int) =~= Seq::<Seq<char>>::empty());
    while i < to
        invariant
            from <= i <= to <= pieces@.len(),
            all == text::texts(pieces@),
            out@ == lines::concat(all.subrange(from as int, i as int)),
        decreases to - i,
    {
        out.append(pieces[i].as_str());
        assert(all.subrange(from as int, i + 1).drop_last() =~= all.subrange(
            from as int,
            i as int,
        ));
        i = i + 1;
    }
    out
}

fn find_first_record(pieces: &Vec<String>) -> (out: usize)
    ensures
        out == first_record_at(text::texts(pieces@)),
{
    let ghost all = text::texts(pieces@);
    let mut i: usize = 0;
    while i < pieces.len()
        invariant
            i <= pieces@.len(),
            all == text::texts(pieces@),
            forall|j: int| 0 <= j < i ==> text::blank(#[trigger] all[j]),
        decreases pieces@.len() - i,
    {
        assert(all[i as int] == pieces@[i as int]@);
        if !is_blank(pieces[i].as_str()) {
            proof {
                first_record_at_bound(all);
            }
            return i;
        }
        i = i + 1;
    }
    proof {
        first_record_at_bound(all);
    }
    i
}

/// The line of the first record, without its ending.
pub fn first_record_line(existing_contents: &str) -> (out: Option<String>)
    ensures
        text::opt_text(out) == ({
            let pieces = lines::segments(existing_contents@);
            let at = first_record_at(pieces);
            if at < pieces.len() {
                Some(lines::line_body(pieces[at]))
            } else {
                None
            }
        }),
{
    let pieces = split_segments(existing_contents);
    let at = find_first_record(&pieces);
    if at < pieces.len() {
        assert(text::texts(pieces@)[at as int] == pieces@[at as int]@);
        let (raw_line, ending) = split_line_ending(pieces[at].as_str());
        Some(raw_line)
    } else {
        None
    }
}

/// Applies a patch to the first record of a rollout.
pub fn patch_session_meta(meta: &SessionMeta, patch: &MetaPatch) -> (out: SessionMeta)
    ensures
        out@ == patched_meta(meta@, *patch),
{
    let mut out = meta.clone();
    if let Some(provider) = &patch.provider {
        out.model_provider = Some(provider.clone());
    }
    if let Some(cwd) = &patch.cwd {
        out.cwd = cwd.clone();
    }
    if patch.clear_memory_mode {
        out.memory_mode = None;
    } else if let Some(memory_mode) = &patch.memory_mode {
        out.memory_mode = Some(memory_mode.clone());
    }
    out
}

/// What rewriting the first record comes to.
pub open spec fn meta_rewrite(
    contents: Seq<char>,
    parsed: FirstRecord,
    encoded: Option<Seq<char>>,
) -> Result<Seq<char>, RolloutEditError> {
    let pieces = lines::segments(contents);
    let at = first_record_at(pieces);
    if at >= pieces.len() {
        Err(RolloutEditError::NoSessionMeta)
    } else if parsed is Unreadable {
        Err(RolloutEditError::UnreadableFirstLine)
    } else if parsed is Other {
        Err(RolloutEditError::NotSessionMeta)
    } else {
        match encoded {
            Some(json) => Ok(end_like(contents, with_record(pieces, at, json))),
            None => Err(RolloutEditError::NotEncodable),
        }
    }
}

fn match_ending(existing_contents: &str, edited: String) -> (out: String)
    ensures
        out@ == end_like(existing_contents@, edited@),
{
    proof {
        reveal_strlit("\n");
        ends_line_is_suffix(existing_contents@);
        ends_line_is_suffix(edited@);
    }
    if !has_suffix(existing_contents, "\n") && has_suffix(edited.as_str(), "\n") {
        let count = char_count(edited.as_str());
        let cut = take_chars(edited.as_str(), count - 1);
        assert(cut@ =~= edited@.drop_last());
        cut
    } else {
        edited
    }
}

proof fn ends_line_is_suffix(contents: Seq<char>)
    ensures
        ends_line(contents) == "\n"@.is_suffix_of(contents),
{
    reveal_strlit("\n");
    if contents.len() > 0 {
        let tail = contents.subrange(contents.len() - 1, contents.len() as int);
        assert(tail[0] == contents.last());
        if ends_line(contents) {
            assert(tail =~= "\n"@);
        }
    }
}

/// Replaces the first record of a rollout and leaves every other line as it is.
///
/// `parsed` is what the line given by [`first_record_line`] was read as, and
/// `encoded` the JSON of that record with the patched session in it.
pub fn rewrite_rollout_meta_contents(
    existing_contents: &str,
    parsed: &FirstRecord,
    encoded: &Option<String>,
) -> (out: Result<String, RolloutEditError>)
    ensures
        match out {
            Ok(contents) => meta_rewrite(existing_contents@, *parsed, text::opt_text(*encoded))
                == Ok::<Seq<char>, RolloutEditError>(contents@),
            Err(error) => meta_rewrite(existing_contents@, *parsed, text::opt_text(*encoded))
                == Err::<Seq<char>, RolloutEditError>(error),
        },
{
    let pieces = split_segments(existing_contents);
    let at = find_first_record(&pieces);
    if at >= pieces.len() {
        return Err(RolloutEditError::NoSessionMeta);
    }
    match parsed {
        FirstRecord::Unreadable => {
            return Err(RolloutEditError::UnreadableFirstLine);
        },
        FirstRecord::Other => {
            return Err(RolloutEditError::NotSessionMeta);
        },
        FirstRecord::SessionMeta(meta) => {},
    }
    match encoded {
        None => Err(RolloutEditError::NotEncodable),
        Some(json) => {
            let ghost all = text::texts(pieces@);
            assert(all[at as int] == pieces@[at as int]@);
            let (raw_line, ending) = split_line_ending(pieces[at].as_str());
            let mut rewritten = concat_pieces(&pieces, 0, at);
            rewritten.append(json.as_str());
            rewritten.append(ending.as_str());
            let rest = concat_pieces(&pieces, at + 1, pieces.len());
            rewritten.append(rest.as_str());
            assert(all.subrange(0, at as int) =~= all.take(at as int));
            assert(all.subrange(at + 1, all.len() as int) =~= all.skip(at + 1));
            Ok(match_ending(existing_contents, rewritten))
        },
    }
}

proof fn concat_split(pieces: Seq<Seq<char>>, at: int)
    requires
        0 <= at <= pieces.len(),
    ensures
        lines::concat(pieces) == lines::concat(pieces.take(at)) + lines::concat(pieces.skip(at)),
    decreases pieces.len() - at,
{
    if at == pieces.len() {
        assert(pieces.take(at) =~= pieces);
        assert(pieces.skip(at) =~= Seq::<Seq<char>>::empty());
    } else {
        let front = pieces.drop_last();
        concat_split_front(pieces, at);
    }
}

proof fn concat_split_front(pieces: Seq<Seq<char>>, at: int)
    requires
        0 <= at < pieces.len(),
    ensures
        lines::concat(pieces) == lines::concat(pieces.take(at)) + lines::concat(pieces.skip(at)),
    decreases pieces.len(),
{
    let front = pieces.drop_last();
    assert(pieces.skip(at).drop_last() =~= front.skip(at));
    assert(front.take(at) =~= pieces.take(at));
    if at < front.len() {
        concat_split_front(front, at);
    } else {
        assert(front.take(at) =~= front);
        assert(front.skip(at) =~= Seq::<Seq<char>>::empty());
    }
    assert(lines::concat(pieces) =~= lines::concat(pieces.take(at)) + lines::concat(
        pieces.skip(at),
    ));
}

/// A text that fills one line.
pub open spec fn fills_line(json: Seq<char>) -> bool {
    &&& json.len() > 0
    &&& json.last() != '\r'
    &&& forall|i: int| 0 <= i < json.len() ==> #[trigger] json[i] != '\n'
}

/// The piece with another line in it.
pub open spec fn with_line(piece: Seq<char>, json: Seq<char>) -> Seq<char> {
    json + lines::line_ending(piece)
}

/// A piece that fits in where another one stood.
spec fn replaces(new: Seq<char>, old: Seq<char>) -> bool {
    &&& new.len() > 0
    &&& new.last() == '\n' <==> old.last() == '\n'
    &&& forall|j: int| 0 <= j < new.len() - 1 ==> #[trigger] new[j] != '\n'
}

proof fn with_line_fits(piece: Seq<char>, json: Seq<char>)
    requires
        piece.len() > 0,
        fills_line(json),
    ensures
        replaces(with_line(piece, json), piece),
        lines::line_body(with_line(piece, json)) == json,
        lines::line_ending(with_line(piece, json)) == lines::line_ending(piece),
{
    let new = with_line(piece, json);
    let ending = lines::line_ending(piece);
    let size = json.len() as int;
    assert(new.take(size) =~= json);
    assert(new.skip(size) =~= ending);
    assert forall|j: int| 0 <= j < new.len() - 1 implies #[trigger] new[j] != '\n' by {
        if j < size {
            assert(json[j] != '\n');
        } else {
            assert(ending[0] == '\r');
        }
    }
    if ending.len() == 0 {
        assert(json[size - 1] != '\n');
    } else if ending.len() == 1 {
        assert(new[new.len() - 2] == json.last());
    } else {
        assert(new[new.len() - 2] == '\r');
    }
}

/// Contents whose pieces are replaced one for one are cut into the new pieces,
/// and end as they did.
proof fn replaced_pieces_stay_apart(contents: Seq<char>, new: Seq<Seq<char>>)
    requires
        new.len() == lines::segments(contents).len(),
        forall|i: int|
            0 <= i < new.len() ==> #[trigger] replaces(new[i], lines::segments(contents)[i]),
    ensures
        lines::segments(end_like(contents, lines::concat(new))) == new,
{
    let old = lines::segments(contents);
    lines::segments_concat(contents);
    lines::segments_are_well_cut(contents);
    assert forall|i: int| 0 <= i < new.len() implies (#[trigger] new[i]).len() > 0 by {
        assert(replaces(new[i], old[i]));
    }
    assert forall|i: int| 0 <= i < new.len() - 1 implies (#[trigger] new[i]).last() == '\n' by {
        assert(replaces(new[i], old[i]));
        assert(old[i].last() == '\n');
    }
    assert forall|i: int, j: int|
        0 <= i < new.len() && 0 <= j < new[i].len() - 1 implies #[trigger] new[i][j] != '\n' by {
        assert(replaces(new[i], old[i]));
    }
    lines::cutting_undoes_putting_together(new);
    if new.len() > 0 {
        assert(replaces(new[new.len() - 1], old[new.len() - 1]));
        assert(lines::concat(new).last() == new.last().last());
    } else {
        assert(contents.len() == 0);
    }
}

/// Rewriting the first record touches that record alone: the contents have as
/// many lines as before, the line of the first record holds the new one, and all
/// other lines are as they were.
pub proof fn rewriting_touches_one_record(
    contents: Seq<char>,
    parsed: FirstRecord,
    json: Seq<char>,
)
    requires
        fills_line(json),
        meta_rewrite(contents, parsed, Some(json)) is Ok,
    ensures
        ({
            let pieces = lines::segments(contents);
            let at = first_record_at(pieces);
            let updated = lines::segments(meta_rewrite(contents, parsed, Some(json)).unwrap());
            &&& updated.len() == pieces.len()
            &&& lines::line_body(updated[at]) == json
            &&& lines::line_ending(updated[at]) == lines::line_ending(pieces[at])
            &&& forall|i: int| 0 <= i < pieces.len() && i != at ==> #[trigger] updated[i] == pieces[i]
        }),
{
    let pieces = lines::segments(contents);
    let at = first_record_at(pieces);
    first_record_at_bound(pieces);
    lines::segments_are_well_cut(contents);
    assert(pieces[at].len() > 0);
    with_line_fits(pieces[at], json);
    let new = pieces.update(at, with_line(pieces[at], json));
    concat_split(new, at);
    concat_split(new.skip(at), 1);
    assert(new.take(at) =~= pieces.take(at));
    assert(new.skip(at).skip(1) =~= pieces.skip(at + 1));
    assert(new.skip(at).take(1) =~= seq![new[at]]);
    assert(seq![new[at]].drop_last() =~= Seq::<Seq<char>>::empty());
    assert(lines::concat(seq![new[at]]) =~= new[at]) by {
        reveal_with_fuel(lines::concat, 2);
    }
    assert(with_record(pieces, at, json) =~= lines::concat(new));
    assert forall|i: int| 0 <= i < new.len() implies #[trigger] replaces(new[i], pieces[i]) by {
        if i != at {
            assert(pieces[i].len() > 0);
            assert(forall|j: int| 0 <= j < pieces[i].len() - 1 ==> #[trigger] pieces[i][j] != '\n');
        }
    }
    replaced_pieces_stay_apart(contents, new);
}

/// A patch changes the provider, the working directory and the memory mode of
/// a session, and nothing else; an empty patch changes nothing.
pub proof fn patch_changes_only_its_fields(meta: SessionMetaView, patch: MetaPatch)
    ensures
        patched_meta(meta, patch).id == meta.id,
        patched_meta(meta, patch).timestamp == meta.timestamp,
        patched_meta(meta, patch).source == meta.source,
        patched_meta(meta, patch).forked_from_id == meta.forked_from_id,
        patch.provider is None && patch.cwd is None && patch.memory_mode is None
            && !patch.clear_memory_mode ==> patched_meta(meta, patch) == meta,
        patched_meta(patched_meta(meta, patch), patch) == patched_meta(meta, patch),
{
}

// ----------------------------------------------------------------- resume state

/// The record with the window of a patch, where it names another one.
pub open spec fn repaired_item(item: RolloutItemView, window: i64) -> Option<RolloutItemView> {
    match item {
        RolloutItemView::EventMsg(EventMsgView::TokenCount { info: Some(info) }) =>
            if info.model_context_window != Some(window) {
                Some(
                    RolloutItemView::EventMsg(
                        EventMsgView::TokenCount {
                            info: Some(
                                TokenUsageInfo { model_context_window: Some(window), ..info },
                            ),
                        },
                    ),
                )
            } else {
                None
            },
        RolloutItemView::EventMsg(EventMsgView::TurnStarted { turn_id, model_context_window }) =>
            if model_context_window != Some(window) {
                Some(
                    RolloutItemView::EventMsg(
                        EventMsgView::TurnStarted { turn_id, model_context_window: Some(window) },
                    ),
                )
            } else {
                None
            },
        _ => None,
    }
}

/// The window that a record hints at, where it has room for such a hint.
pub open spec fn window_hint(item: RolloutItemView) -> Option<Option<i64>> {
    match item {
        RolloutItemView::EventMsg(EventMsgView::TokenCount { info: Some(info) }) => Some(
            info.model_context_window,
        ),
        RolloutItemView::EventMsg(EventMsgView::TurnStarted { model_context_window, .. }) => Some(
            model_context_window,
        ),
        _ => None,
    }
}

/// The record with another hint.
pub open spec fn with_window_hint(item: RolloutItemView, hint: Option<i64>) -> RolloutItemView {
    match item {
        RolloutItemView::EventMsg(EventMsgView::TokenCount { info: Some(info) }) =>
            RolloutItemView::EventMsg(
                EventMsgView::TokenCount {
                    info: Some(TokenUsageInfo { model_context_window: hint, ..info }),
                },
            ),
        RolloutItemView::EventMsg(EventMsgView::TurnStarted { turn_id, .. }) =>
            RolloutItemView::EventMsg(
                EventMsgView::TurnStarted { turn_id, model_context_window: hint },
            ),
        _ => item,
    }
}

/// A record is repaired exactly where it hints at another window. What is
/// repaired is the hint alone: with the old hint put back, the record is the old
/// one.
pub proof fn repair_changes_only_the_hint(item: RolloutItemView, window: i64)
    ensures
        repaired_item(item, window) is Some <==> window_hint(item) is Some && window_hint(item)
            != Some(Some(window)),
        repaired_item(item, window) matches Some(repaired) ==> {
            &&& window_hint(repaired) == Some(Some(window))
            &&& with_window_hint(repaired, window_hint(item).unwrap()) == item
        },
{
}

/// A repaired record needs no repair.
pub proof fn repair_is_done_once(item: RolloutItemView, window: i64)
    ensures
        repaired_item(item, window) matches Some(repaired) ==> repaired_item(repaired, window)
            is None,
{
}

/// Gives a record the window of a patch. `None` where it names that window
/// already, or none at all.
pub fn repair_record(item: &RolloutItem, patch: ResumeStatePatch) -> (out: Option<RolloutItem>)
    ensures
        out.deep_view() == repaired_item(item@, patch.model_context_window),
{
    let window: Option<i64> = Some(patch.model_context_window);
    match item {
        RolloutItem::EventMsg(EventMsg::TokenCount { info: Some(info) }) => {
            if info.model_context_window != window {
                let updated = TokenUsageInfo {
                    total_tokens: info.total_tokens,
                    last_total_tokens: info.last_total_tokens,
                    model_context_window: window,
                };
                Some(RolloutItem::EventMsg(EventMsg::TokenCount { info: Some(updated) }))
            } else {
                None
            }
        },
        RolloutItem::EventMsg(EventMsg::TurnStarted { turn_id, model_context_window }) => {
            if *model_context_window != window {
                Some(
                    RolloutItem::EventMsg(
                        EventMsg::TurnStarted {
                            turn_id: turn_id.clone(),
                            model_context_window: window,
                        },
                    ),
                )
            } else {
                None
            }
        },
        _ => None,
    }
}

/// The reading of one piece of a rollout: the record on it, and its JSON after
/// [`repair_record`] where that changes it.
#[derive(Debug, PartialEq, Eq)]
pub struct SegmentReading {
    pub item: Option<RolloutItem>,
    pub repaired: Option<String>,
}

/// What a [`SegmentReading`] stands for.
pub struct SegmentReadingView {
    pub item: Option<RolloutItemView>,
    pub repaired: Option<Seq<char>>,
}

impl View for SegmentReading {
    type V = SegmentReadingView;

    open spec fn view(&self) -> SegmentReadingView {
        SegmentReadingView {
            item: self.item.deep_view(),
            repaired: text::opt_text(self.repaired),
        }
    }
}

impl DeepView for SegmentReading {
    type V = SegmentReadingView;

    open spec fn deep_view(&self) -> SegmentReadingView {
        self@
    }
}

impl Clone for SegmentReading {
    fn clone(&self) -> (out: Self)
        ensures
            out@ == self@,
    {
        let out = SegmentReading {
            item: self.item.clone(),
            repaired: clone_opt(&self.repaired),
        };
        assert(out.item.deep_view() =~= self.item.deep_view());
        out
    }
}

pub open spec fn counted(
    stats: ResumeStateRewriteStats,
    item: RolloutItemView,
) -> ResumeStateRewriteStats {
    if item matches RolloutItemView::EventMsg(EventMsgView::TokenCount { .. }) {
        ResumeStateRewriteStats {
            token_count_events_updated: (stats.token_count_events_updated + 1) as usize,
            ..stats
        }
    } else {
        ResumeStateRewriteStats {
            turn_started_events_updated: (stats.turn_started_events_updated + 1) as usize,
            ..stats
        }
    }
}

/// The contents and counts once all pieces are treated, or the first error.
pub open spec fn repaired_pieces(
    pieces: Seq<Seq<char>>,
    readings: Seq<SegmentReadingView>,
    window: i64,
) -> Result<(Seq<char>, ResumeStateRewriteStats), RolloutEditError>
    decreases pieces.len(),
{
    if pieces.len() == 0 {
        Ok((Seq::empty(), no_updates()))
    } else {
        match repaired_pieces(pieces.drop_last(), readings, window) {
            Err(error) => Err(error),
            Ok((done, stats)) => {
                let piece = pieces.last();
                let reading = readings[pieces.len() - 1];
                if text::blank(piece) {
                    Ok((done + piece, stats))
                } else {
                    match reading.item {
                        None => Err(
                            RolloutEditError::UnreadableLine { line: pieces.len() as usize },
                        ),
                        Some(item) => match repaired_item(item, window) {
                            None => Ok((done + piece, stats)),
                            Some(_) => match reading.repaired {
                                None => Err(RolloutEditError::NotEncodable),
                                Some(json) => Ok(
                                    (done + json + lines::line_ending(piece), counted(stats, item)),
                                ),
                            },
                        },
                    }
                }
            },
        }
    }
}

/// What repairing the contents of a rollout comes to.
pub open spec fn resume_state_rewrite(
    contents: Seq<char>,
    readings: Seq<SegmentReadingView>,
    window: i64,
) -> Result<(Seq<char>, ResumeStateRewriteStats), RolloutEditError> {
    match repaired_pieces(lines::segments(contents), readings, window) {
        Ok((edited, stats)) => Ok((end_like(contents, edited), stats)),
        Err(error) => Err(error),
    }
}

/// The pieces of a rollout, without their line endings, and whether they hold
/// a record.
pub fn rollout_segments(existing_contents: &str) -> (out: Vec<(String, bool)>)
    ensures
        out@.len() == lines::segments(existing_contents@).len(),
        forall|i: int|
            0 <= i < out@.len() ==> (#[trigger] out@[i]).0@ == lines::line_body(
                lines::segments(existing_contents@)[i],
            ) && out@[i].1 == !text::blank(lines::segments(existing_contents@)[i]),
{
    let pieces = split_segments(existing_contents);
    let mut out: Vec<(String, bool)> = Vec::new();
    for i in 0..pieces.len()
        invariant
            text::texts(pieces@) == lines::segments(existing_contents@),
            out@.len() == i,
            forall|j: int|
                0 <= j < i ==> (#[trigger] out@[j]).0@ == lines::line_body(
                    lines::segments(existing_contents@)[j],
                ) && out@[j].1 == !text::blank(lines::segments(existing_contents@)[j]),
    {
        assert(text::texts(pieces@)[i as int] == pieces@[i as int]@);
        let (raw_line, ending) = split_line_ending(pieces[i].as_str());
        out.push((raw_line, !is_blank(pieces[i].as_str())));
    }
    out
}

/// Gives every window hint of a rollout the value of a patch. Lines without
/// such a hint, and lines whose hint is right already, stay as they are.
///
/// `readings` has one entry for each piece that [`rollout_segments`] gives.
pub fn rewrite_rollout_resume_state_contents(
    existing_contents: &str,
    patch: &ResumeStatePatch,
    readings: &Vec<SegmentReading>,
) -> (out: Result<(String, ResumeStateRewriteStats), RolloutEditError>)
    requires
        readings@.len() == lines::segments(existing_contents@).len(),
    ensures
        match out {
            Ok((contents, stats)) => resume_state_rewrite(
                existing_contents@,
                readings.deep_view(),
                patch.model_context_window,
            ) == Ok::<(Seq<char>, ResumeStateRewriteStats), RolloutEditError>((contents@, stats)),
            Err(error) => resume_state_rewrite(
                existing_contents@,
                readings.deep_view(),
                patch.model_context_window,
            ) == Err::<(Seq<char>, ResumeStateRewriteStats), RolloutEditError>(error),
        },
{
    let pieces = split_segments(existing_contents);
    let mut rewritten = String::new();
    let mut stats = ResumeStateRewriteStats::default();
    let ghost all = text::texts(pieces@);
    let ghost read = readings.deep_view();
    let ghost window = patch.model_context_window;
    let size: usize = pieces.len();
    assert(all.take(0) =~= Seq::<Seq<char>>::empty());
    for i in 0..size
        invariant
            size == pieces@.len(),
            all == text::texts(pieces@),
            all == lines::segments(existing_contents@),
            read == readings.deep_view(),
            readings@.len() == all.len(),
            window == patch.model_context_window,
            stats.token_count_events_updated <= i,
            stats.turn_started_events_updated <= i,
            repaired_pieces(all.take(i as int), read, window) == Ok::<
                (Seq<char>, ResumeStateRewriteStats),
                RolloutEditError,
            >((rewritten@, stats)),
    {
        let ghost next = all.take(i + 1);
        assert(next.drop_last() =~= all.take(i as int));
        assert(next.last() == pieces@[i as int]@);
        assert(read[i as int] == readings@[i as int]@);
        let piece = &pieces[i];
        if is_blank(piece.as_str()) {
            rewritten.append(piece.as_str());
        } else {
            match &readings[i].item {
                None => {
                    let error = RolloutEditError::UnreadableLine { line: i + 1 };
                    proof {
                        errors_stay(all, i + 1, read, window, error);
                    }
                    return Err(error);
                },
                Some(item) => match repair_record(item, *patch) {
                    None => {
                        rewritten.append(piece.as_str());
                    },
                    Some(changed) => match &readings[i].repaired {
                        None => {
                            proof {
                                errors_stay(
                                    all,
                                    i + 1,
                                    read,
                                    window,
                                    RolloutEditError::NotEncodable,
                                );
                            }
                            return Err(RolloutEditError::NotEncodable);
                        },
                        Some(json) => {
                            let (raw_line, ending) = split_line_ending(piece.as_str());
                            rewritten.append(json.as_str());
                            rewritten.append(ending.as_str());
                            match item {
                                RolloutItem::EventMsg(EventMsg::TokenCount { .. }) => {
                                    stats.token_count_events_updated =
                                    stats.token_count_events_updated + 1;
                                },
                                _ => {
                                    stats.turn_started_events_updated =
                                    stats.turn_started_events_updated + 1;
                                },
                            }
                        },
                    },
                },
            }
        }
    }
    assert(all.take(all.len() as int) =~= all);
    Ok((match_ending(existing_contents, rewritten), stats))
}

proof fn errors_stay(
    pieces: Seq<Seq<char>>,
    count: int,
    readings: Seq<SegmentReadingView>,
    window: i64,
    error: RolloutEditError,
)
    requires
        0 <= count <= pieces.len(),
        repaired_pieces(pieces.take(count), readings, window) == Err::<
            (Seq<char>, ResumeStateRewriteStats),
            RolloutEditError,
        >(error),
    ensures
        repaired_pieces(pieces, readings, window) == Err::<
            (Seq<char>, ResumeStateRewriteStats),
            RolloutEditError,
        >(error),
    decreases pieces.len() - count,
{
    if count == pieces.len() {
        assert(pieces.take(count) =~= pieces);
    } else {
        assert(pieces.take(count + 1).drop_last() =~= pieces.take(count));
        errors_stay(pieces, count + 1, readings, window, error);
    }
}

/// No record of a rollout names another window than that of the patch.
pub open spec fn names_window(
    pieces: Seq<Seq<char>>,
    readings: Seq<SegmentReadingView>,
    window: i64,
) -> bool {
    forall|i: int|
        0 <= i < pieces.len() && !text::blank(#[trigger] pieces[i]) ==> (
        readings[i].item matches Some(item) && repaired_item(item, window) is None)
}

/// A rollout whose hints are right already is left exactly as it is, and no
/// change is counted.
pub proof fn repaired_rollout_is_left_alone(
    contents: Seq<char>,
    readings: Seq<SegmentReadingView>,
    window: i64,
)
    requires
        readings.len() == lines::segments(contents).len(),
        names_window(lines::segments(contents), readings, window),
    ensures
        resume_state_rewrite(contents, readings, window) == Ok::<
            (Seq<char>, ResumeStateRewriteStats),
            RolloutEditError,
        >((contents, no_updates())),
{
    untouched_pieces(lines::segments(contents), readings, window);
    lines::segments_concat(contents);
}

proof fn untouched_pieces(
    pieces: Seq<Seq<char>>,
    readings: Seq<SegmentReadingView>,
    window: i64,
)
    requires
        names_window(pieces, readings, window),
    ensures
        repaired_pieces(pieces, readings, window) == Ok::<
            (Seq<char>, ResumeStateRewriteStats),
            RolloutEditError,
        >((lines::concat(pieces), no_updates())),
    decreases pieces.len(),
{
    if pieces.len() > 0 {
        let front = pieces.drop_last();
        assert forall|i: int| 0 <= i < front.len() && !text::blank(#[trigger] front[i]) implies (
        readings[i].item matches Some(item) && repaired_item(item, window) is None) by {
            assert(front[i] == pieces[i]);
        }
        untouched_pieces(front, readings, window);
        assert(pieces[pieces.len() - 1] == pieces.last());
    }
}

/// The piece once its record is repaired.
pub open spec fn repaired_piece(
    piece: Seq<char>,
    reading: SegmentReadingView,
    window: i64,
) -> Seq<char> {
    match (reading.item, reading.repaired) {
        (Some(item), Some(json)) => if !text::blank(piece) && repaired_item(item, window) is Some {
            with_line(piece, json)
        } else {
            piece
        },
        _ => piece,
    }
}

proof fn repaired_pieces_concat(
    pieces: Seq<Seq<char>>,
    readings: Seq<SegmentReadingView>,
    window: i64,
)
    requires
        pieces.len() <= readings.len(),
        repaired_pieces(pieces, readings, window) is Ok,
    ensures
        repaired_pieces(pieces, readings, window).unwrap().0 == lines::concat(
            Seq::new(pieces.len(), |i: int| repaired_piece(pieces[i], readings[i], window)),
        ),
    decreases pieces.len(),
{
    let new = Seq::new(pieces.len(), |i: int| repaired_piece(pieces[i], readings[i], window));
    if pieces.len() > 0 {
        let front = pieces.drop_last();
        repaired_pieces_concat(front, readings, window);
        assert(new.drop_last() =~= Seq::new(
            front.len(),
            |i: int| repaired_piece(front[i], readings[i], window),
        ));
        assert(repaired_pieces(pieces, readings, window).unwrap().0 =~= lines::concat(
            new.drop_last(),
        ) + new.last());
    }
}

/// The line holds a record that hints at another window than that of the patch.
pub open spec fn needs_repair(piece: Seq<char>, reading: SegmentReadingView, window: i64) -> bool {
    &&& !text::blank(piece)
    &&& reading.item matches Some(item) && repaired_item(item, window) is Some
}

/// The record counts tokens.
pub open spec fn counts_tokens(item: RolloutItemView) -> bool {
    item matches RolloutItemView::EventMsg(EventMsgView::TokenCount { .. })
}

/// How many lines need repair, among those that count tokens or among the
/// others.
pub open spec fn lines_to_repair(
    pieces: Seq<Seq<char>>,
    readings: Seq<SegmentReadingView>,
    window: i64,
    of_tokens: bool,
) -> nat
    decreases pieces.len(),
{
    if pieces.len() == 0 {
        0
    } else {
        let reading = readings[pieces.len() - 1];
        lines_to_repair(pieces.drop_last(), readings, window, of_tokens) + if needs_repair(
            pieces.last(),
            reading,
            window,
        ) && counts_tokens(reading.item.unwrap()) == of_tokens {
            1nat
        } else {
            0nat
        }
    }
}

proof fn repairs_are_counted(
    pieces: Seq<Seq<char>>,
    readings: Seq<SegmentReadingView>,
    window: i64,
)
    requires
        pieces.len() <= usize::MAX,
        repaired_pieces(pieces, readings, window) is Ok,
    ensures
        ({
            let stats = repaired_pieces(pieces, readings, window).unwrap().1;
            &&& stats.token_count_events_updated == lines_to_repair(pieces, readings, window, true)
            &&& stats.turn_started_events_updated == lines_to_repair(pieces, readings, window, false)
            &&& lines_to_repair(pieces, readings, window, true) <= pieces.len()
            &&& lines_to_repair(pieces, readings, window, false) <= pieces.len()
        }),
    decreases pieces.len(),
{
    if pieces.len() > 0 {
        repairs_are_counted(pieces.drop_last(), readings, window);
    }
}

/// Repairing a rollout touches the lines with a wrong hint alone: the contents
/// have as many lines as before, those lines hold their repaired records with
/// the line endings that they had, and all other lines are as they were. What is
/// counted are exactly those lines.
pub proof fn repair_touches_only_window_hints(
    contents: Seq<char>,
    readings: Seq<SegmentReadingView>,
    window: i64,
)
    requires
        readings.len() == lines::segments(contents).len(),
        forall|i: int|
            0 <= i < readings.len() ==> ((#[trigger] readings[i]).repaired matches Some(json)
                ==> fills_line(json)),
        resume_state_rewrite(contents, readings, window) is Ok,
    ensures
        ({
            let pieces = lines::segments(contents);
            let updated = lines::segments(
                resume_state_rewrite(contents, readings, window).unwrap().0,
            );
            &&& updated.len() == pieces.len()
            &&& forall|i: int|
                0 <= i < pieces.len() ==> #[trigger] updated[i] == repaired_piece(
                    pieces[i],
                    readings[i],
                    window,
                ) && lines::line_ending(updated[i]) == lines::line_ending(pieces[i])
        }),
        ({
            let pieces = lines::segments(contents);
            let stats = resume_state_rewrite(contents, readings, window).unwrap().1;
            pieces.len() <= usize::MAX ==> {
                &&& stats.token_count_events_updated == lines_to_repair(
                    pieces,
                    readings,
                    window,
                    true,
                )
                &&& stats.turn_started_events_updated == lines_to_repair(
                    pieces,
                    readings,
                    window,
                    false,
                )
            }
        }),
{
    let pieces = lines::segments(contents);
    let new = Seq::new(pieces.len(), |i: int| repaired_piece(pieces[i], readings[i], window));
    if pieces.len() <= usize::MAX {
        repairs_are_counted(pieces, readings, window);
    }
    repaired_pieces_concat(pieces, readings, window);
    lines::segments_are_well_cut(contents);
    assert forall|i: int| 0 <= i < new.len() implies #[trigger] replaces(new[i], pieces[i]) by {
        assert(pieces[i].len() > 0);
        assert(forall|j: int| 0 <= j < pieces[i].len() - 1 ==> #[trigger] pieces[i][j] != '\n');
        if let Some(json) = readings[i].repaired {
            with_line_fits(pieces[i], json);
        }
    }
    replaced_pieces_stay_apart(contents, new);
    assert forall|i: int| 0 <= i < pieces.len() implies lines::line_ending(#[trigger] new[i])
        == lines::line_ending(pieces[i]) by {
        assert(pieces[i].len() > 0);
        if let Some(json) = readings[i].repaired {
            with_line_fits(pieces[i], json);
        }
    }
}

/// The lines of a repaired rollout read as the repaired records where they
/// needed repair, and as they did before elsewhere.
pub open spec fn reads_repaired(
    pieces: Seq<Seq<char>>,
    readings: Seq<SegmentReadingView>,
    window: i64,
    again: Seq<SegmentReadingView>,
) -> bool {
    again.len() == pieces.len() && forall|i: int|
        0 <= i < pieces.len() ==> (#[trigger] again[i]).item == if needs_repair(
            pieces[i],
            readings[i],
            window,
        ) {
            repaired_item(readings[i].item.unwrap(), window)
        } else {
            readings[i].item
        }
}

proof fn treated_lines_are_read(
    pieces: Seq<Seq<char>>,
    readings: Seq<SegmentReadingView>,
    window: i64,
    at: int,
)
    requires
        0 <= at < pieces.len() <= readings.len(),
        repaired_pieces(pieces, readings, window) is Ok,
    ensures
        !text::blank(pieces[at]) ==> readings[at].item is Some,
        needs_repair(pieces[at], readings[at], window) ==> readings[at].repaired is Some,
    decreases pieces.len(),
{
    if at < pieces.len() - 1 {
        treated_lines_are_read(pieces.drop_last(), readings, window, at);
    }
}

/// A repair sets wrong window hints right and does nothing else, and once is
/// enough. The lines stay in number, in order and in their endings. A line is
/// written anew only where its record hints at another window; of that record
/// the hint alone changes, and every such line is counted. Where the contents
/// that the repair gives read as the repaired records, repairing them again
/// gives them back as they are, and counts nothing.
pub proof fn repair_settles_window_hints(
    contents: Seq<char>,
    readings: Seq<SegmentReadingView>,
    window: i64,
    again: Seq<SegmentReadingView>,
)
    requires
        readings.len() == lines::segments(contents).len(),
        forall|i: int|
            0 <= i < readings.len() ==> ((#[trigger] readings[i]).repaired matches Some(json)
                ==> fills_line(json)),
        resume_state_rewrite(contents, readings, window) is Ok,
        reads_repaired(lines::segments(contents), readings, window, again),
    ensures
        ({
            let (updated, stats) = resume_state_rewrite(contents, readings, window).unwrap();
            let pieces = lines::segments(contents);
            let new = lines::segments(updated);
            &&& new.len() == pieces.len()
            &&& forall|i: int| #![trigger new[i]] #![trigger pieces[i]]
                0 <= i < pieces.len() ==> {
                    &&& lines::line_ending(new[i]) == lines::line_ending(pieces[i])
                    &&& !needs_repair(pieces[i], readings[i], window) ==> new[i] == pieces[i]
                    &&& needs_repair(pieces[i], readings[i], window) ==> {
                        let item = readings[i].item.unwrap();
                        &&& readings[i].repaired matches Some(json) && new[i] == with_line(
                            pieces[i],
                            json,
                        )
                        &&& window_hint(item) matches Some(hint) && hint != Some(window)
                        &&& again[i].item == Some(with_window_hint(item, Some(window)))
                    }
                }
            &&& pieces.len() <= usize::MAX ==> {
                &&& stats.token_count_events_updated == lines_to_repair(
                    pieces,
                    readings,
                    window,
                    true,
                )
                &&& stats.turn_started_events_updated == lines_to_repair(
                    pieces,
                    readings,
                    window,
                    false,
                )
            }
            &&& resume_state_rewrite(updated, again, window) == Ok::<
                (Seq<char>, ResumeStateRewriteStats),
                RolloutEditError,
            >((updated, no_updates()))
        }),
{
    let pieces = lines::segments(contents);
    let updated = resume_state_rewrite(contents, readings, window).unwrap().0;
    let new = lines::segments(updated);
    repair_touches_only_window_hints(contents, readings, window);
    assert forall|i: int| 0 <= i < new.len() && !text::blank(#[trigger] new[i]) implies (
    again[i].item matches Some(item) && repaired_item(item, window) is None) by {
        assert(new[i] == repaired_piece(pieces[i], readings[i], window));
        treated_lines_are_read(pieces, readings, window, i);
        if needs_repair(pieces[i], readings[i], window) {
            repair_is_done_once(readings[i].item.unwrap(), window);
        }
    }
    assert forall|i: int| 0 <= i < pieces.len() implies {
        &&& #[trigger] new[i] == repaired_piece(pieces[i], readings[i], window)
        &&& needs_repair(pieces[i], readings[i], window) ==> readings[i].repaired is Some
    } by {
        treated_lines_are_read(pieces, readings, window, i);
    }
    repaired_rollout_is_left_alone(updated, again, window);
}

/// The readings of a rollout by a function that reads one line.
pub open spec fn readings_by(
    read: spec_fn(Seq<char>) -> SegmentReadingView,
    contents: Seq<char>,
) -> Seq<SegmentReadingView> {
    let pieces = lines::segments(contents);
    Seq::new(pieces.len(), |i: int| read(lines::line_body(pieces[i])))
}

/// What is written for a record that needs repair fills a line and is read back
/// as the repaired record.
pub open spec fn reads_back_repairs(
    read: spec_fn(Seq<char>) -> SegmentReadingView,
    reading: SegmentReadingView,
    window: i64,
) -> bool {
    reading.repaired matches Some(json) ==> {
        &&& fills_line(json)
        &&& reading.item matches Some(item) ==> (repaired_item(item, window) is Some ==> read(
            json,
        ).item == repaired_item(item, window))
    }
}

/// Repairing a rollout a second time changes nothing, whatever reads its lines,
/// as long as it reads back the repaired records that were written: the second
/// repair reads the contents that the first one gave, gives them back as they
/// are, and counts nothing.
pub proof fn second_repair_changes_nothing(
    contents: Seq<char>,
    window: i64,
    read: spec_fn(Seq<char>) -> SegmentReadingView,
)
    requires
        forall|i: int|
            0 <= i < readings_by(read, contents).len() ==> reads_back_repairs(
                read,
                #[trigger] readings_by(read, contents)[i],
                window,
            ),
        resume_state_rewrite(contents, readings_by(read, contents), window) is Ok,
    ensures
        ({
            let updated = resume_state_rewrite(
                contents,
                readings_by(read, contents),
                window,
            ).unwrap().0;
            resume_state_rewrite(updated, readings_by(read, updated), window) == Ok::<
                (Seq<char>, ResumeStateRewriteStats),
                RolloutEditError,
            >((updated, no_updates()))
        }),
{
    let pieces = lines::segments(contents);
    let readings = readings_by(read, contents);
    let updated = resume_state_rewrite(contents, readings, window).unwrap().0;
    let new = lines::segments(updated);
    let again = readings_by(read, updated);
    assert forall|i: int| 0 <= i < readings.len() implies ((
    #[trigger] readings[i]).repaired matches Some(json) ==> fills_line(json)) by {
        assert(reads_back_repairs(read, readings[i], window));
    }
    repair_touches_only_window_hints(contents, readings, window);
    lines::segments_are_well_cut(contents);
    assert forall|i: int| 0 <= i < pieces.len() implies (#[trigger] again[i]).item
        == if needs_repair(pieces[i], readings[i], window) {
        repaired_item(readings[i].item.unwrap(), window)
    } else {
        readings[i].item
    } by {
        assert(new[i] == repaired_piece(pieces[i], readings[i], window));
        assert(reads_back_repairs(read, readings[i], window));
        treated_lines_are_read(pieces, readings, window, i);
        if needs_repair(pieces[i], readings[i], window) {
            assert(pieces[i].len() > 0);
            with_line_fits(pieces[i], readings[i].repaired.unwrap());
        }
    }
    repair_settles_window_hints(contents, readings, window, again);
}

/// A patch sets what it names: the provider, the working directory and the memory
/// mode; to clear the memory mode goes before setting it. What it does not name
/// stays.
pub proof fn patch_sets_what_it_names(meta: SessionMetaView, patch: MetaPatch)
    ensures
        ({
            let out = patched_meta(meta, patch);
            &&& patch.provider matches Some(provider) ==> out.model_provider == Some(provider@)
            &&& patch.provider is None ==> out.model_provider == meta.model_provider
            &&& patch.cwd matches Some(cwd) ==> out.cwd == cwd@
            &&& patch.cwd is None ==> out.cwd == meta.cwd
            &&& patch.clear_memory_mode ==> out.memory_mode is None
            &&& !patch.clear_memory_mode ==> (patch.memory_mode matches Some(mode)
                ==> out.memory_mode == Some(mode@))
            &&& !patch.clear_memory_mode && patch.memory_mode is None ==> out.memory_mode
                == meta.memory_mode
        }),
{
}

/// The metadata of a rollout stands in its first line that is not blank. They are
/// rewritten exactly where there is such a line, it reads as session metadata, and
/// the new ones can be written; otherwise the first of these that fails is told.
pub proof fn metadata_stand_in_the_first_record(
    contents: Seq<char>,
    parsed: FirstRecord,
    encoded: Option<Seq<char>>,
)
    ensures
        ({
            let out = meta_rewrite(contents, parsed, encoded);
            let pieces = lines::segments(contents);
            let at = first_record_at(pieces);
            let some = exists|i: int| 0 <= i < pieces.len() && !text::blank(#[trigger] pieces[i]);
            &&& some ==> 0 <= at < pieces.len() && !text::blank(pieces[at])
            &&& forall|i: int| 0 <= i < pieces.len() && i < at ==> text::blank(#[trigger] pieces[i])
            &&& out is Ok <==> some && parsed is SessionMeta && encoded is Some
            &&& !some <==> out == Err::<Seq<char>, _>(RolloutEditError::NoSessionMeta)
            &&& some && parsed is Unreadable <==> out == Err::<Seq<char>, _>(
                RolloutEditError::UnreadableFirstLine,
            )
            &&& some && parsed is Other <==> out == Err::<Seq<char>, _>(
                RolloutEditError::NotSessionMeta,
            )
            &&& some && parsed is SessionMeta && encoded is None <==> out == Err::<Seq<char>, _>(
                RolloutEditError::NotEncodable,
            )
        }),
{
    let pieces = lines::segments(contents);
    first_record_at_bound(pieces);
}

} // verus!
