//! Replaying a rollout: which history a model is shown when a session goes on.

use vstd::prelude::*;

use crate::lines;
use crate::numbers;
use crate::numbers::approx_token_count;
use crate::rollout::CompactedItem;
use crate::rollout::CompactedItemView;
use crate::rollout::ContentItem;
use crate::rollout::ContentItemView;
use crate::rollout::EventMsg;
use crate::rollout::EventMsgView;
use crate::rollout::ItemKind;
use crate::rollout::ItemKindView;
use crate::rollout::ResponseItem;
use crate::rollout::ResponseItemView;
use crate::rollout::RolloutItem;
use crate::rollout::RolloutItemView;
use crate::rollout::TurnContextItem;
use crate::rollout::TurnContextItemView;
use crate::rollout::TurnItem;
use crate::rollout::TurnItemView;
use crate::search;
use crate::search::has_prefix;
use crate::search::truncate_for_brief;
use crate::text;
use crate::text::cat2;
use crate::text::clone_opt;
use crate::text::is_blank;
use crate::text::no_texts;
use crate::text::normalize_message;
use crate::text::push_text;
use crate::text::same_text;

verus! {

/// The settings of the last turn that survives a replay.
#[derive(Debug, PartialEq, Eq)]
pub struct PreviousTurnSettings {
    pub model: String,
}

/// What a [`PreviousTurnSettings`] stands for.
pub struct PreviousTurnSettingsView {
    pub model: Seq<char>,
}

impl View for PreviousTurnSettings {
    type V = PreviousTurnSettingsView;

    open spec fn view(&self) -> PreviousTurnSettingsView {
        PreviousTurnSettingsView {
            model: self.model@,
        }
    }
}

impl DeepView for PreviousTurnSettings {
    type V = PreviousTurnSettingsView;

    open spec fn deep_view(&self) -> PreviousTurnSettingsView {
        self@
    }
}

impl Clone for PreviousTurnSettings {
    fn clone(&self) -> (out: Self)
        ensures
            out@ == self@,
    {
        PreviousTurnSettings {
            model: self.model.clone(),
        }
    }
}

/// What a replay of a rollout comes to.
#[derive(Debug, PartialEq, Eq)]
pub struct RolloutReconstruction {
    pub history: Vec<ResponseItem>,
    pub previous_turn_settings: Option<PreviousTurnSettings>,
    pub reference_context_item: Option<TurnContextItem>,
    pub latest_compaction_summary: Option<String>,
    pub latest_compaction_replacement_items: Option<usize>,
}

/// What a [`RolloutReconstruction`] stands for.
pub struct RolloutReconstructionView {
    pub history: Seq<ResponseItemView>,
    pub previous_turn_settings: Option<PreviousTurnSettingsView>,
    pub reference_context_item: Option<TurnContextItemView>,
    pub latest_compaction_summary: Option<Seq<char>>,
    pub latest_compaction_replacement_items: Option<usize>,
}

impl View for RolloutReconstruction {
    type V = RolloutReconstructionView;

    open spec fn view(&self) -> RolloutReconstructionView {
        RolloutReconstructionView {
            history: self.history.deep_view(),
            previous_turn_settings: self.previous_turn_settings.deep_view(),
            reference_context_item: self.reference_context_item.deep_view(),
            latest_compaction_summary: text::opt_text(self.latest_compaction_summary),
            latest_compaction_replacement_items: self.latest_compaction_replacement_items,
        }
    }
}

impl DeepView for RolloutReconstruction {
    type V = RolloutReconstructionView;

    open spec fn deep_view(&self) -> RolloutReconstructionView {
        self@
    }
}

impl Clone for RolloutReconstruction {
    fn clone(&self) -> (out: Self)
        ensures
            out@ == self@,
    {
        let out = RolloutReconstruction {
            history: self.history.clone(),
            previous_turn_settings: self.previous_turn_settings.clone(),
            reference_context_item: self.reference_context_item.clone(),
            latest_compaction_summary: clone_opt(&self.latest_compaction_summary),
            latest_compaction_replacement_items: self.latest_compaction_replacement_items,
        };
        assert(out.history.deep_view() =~= self.history.deep_view());
        assert(out.previous_turn_settings.deep_view() =~= self.previous_turn_settings.deep_view());
        assert(out.reference_context_item.deep_view() =~= self.reference_context_item.deep_view());
        out
    }
}

// ------------------------------------------------------------ walking backwards

/// The turn context that later turns are compared with: the position of its
/// record, or the reason why there is none.
#[derive(Debug, Clone, Copy, PartialEq, Eq, Structural)]
pub enum ReferenceContext {
    NeverSet,
    Cleared,
    Latest(usize),
}

/// The turn that a backward walk is in. Records are named by their positions.
#[derive(Debug, Clone, Copy, PartialEq, Eq, Structural)]
pub struct ReplaySegment {
    /// The record that gave the segment its turn id.
    pub turn: Option<usize>,
    pub counts_as_user_turn: bool,
    /// The turn context with the settings of the turn.
    pub settings: Option<usize>,
    pub reference: ReferenceContext,
    /// The compaction whose replacement history the segment rests on.
    pub base: Option<usize>,
}

/// The state of a backward walk over a rollout. Records are named by their
/// positions.
#[derive(Debug, Clone, Copy, PartialEq, Eq, Structural)]
pub struct Replay {
    /// The compaction whose replacement history the history starts from.
    pub base: Option<usize>,
    pub settings: Option<usize>,
    pub reference: ReferenceContext,
    /// User turns that a rollback took away and that are still to be met.
    pub pending_rollback_turns: usize,
    /// Where the records begin that are applied to the base history.
    pub suffix_from: usize,
    pub segment: Option<ReplaySegment>,
    /// The newest compaction that has a summary.
    pub summary: Option<usize>,
    pub summary_items: Option<usize>,
}

pub open spec fn new_segment() -> ReplaySegment {
    ReplaySegment {
        turn: None,
        counts_as_user_turn: false,
        settings: None,
        reference: ReferenceContext::NeverSet,
        base: None,
    }
}

/// The segment that is open, or a new one.
pub open spec fn open_segment(state: Replay) -> ReplaySegment {
    match state.segment {
        Some(segment) => segment,
        None => new_segment(),
    }
}

/// The turn id that a record carries.
pub open spec fn turn_id_of(item: RolloutItemView) -> Option<Seq<char>> {
    match item {
        RolloutItemView::TurnContext(context) => context.turn_id,
        RolloutItemView::EventMsg(EventMsgView::TurnComplete { turn_id }) => Some(turn_id),
        RolloutItemView::EventMsg(EventMsgView::TurnAborted { aborted_turn_id }) => aborted_turn_id,
        RolloutItemView::EventMsg(EventMsgView::TurnStarted { turn_id, .. }) => Some(turn_id),
        _ => None,
    }
}

pub open spec fn segment_turn_id(
    items: Seq<RolloutItemView>,
    segment: ReplaySegment,
) -> Option<Seq<char>> {
    match segment.turn {
        Some(position) => turn_id_of(items[position as int]),
        None => None,
    }
}

/// Two turn ids may belong to one turn: they are equal, or one is unknown.
pub open spec fn compatible_turns(a: Option<Seq<char>>, b: Option<Seq<char>>) -> bool {
    match (a, b) {
        (Some(a), Some(b)) => a == b,
        _ => true,
    }
}

/// Whether an active turn and a record may belong together: one of the ids is
/// unknown, or both are the same.
pub fn turn_ids_are_compatible(active_turn_id: Option<&str>, item_turn_id: Option<&str>) -> (out:
    bool)
    ensures
        out == compatible_turns(text::opt_str(active_turn_id), text::opt_str(item_turn_id)),
{
    match (active_turn_id, item_turn_id) {
        (Some(active), Some(item)) => same_text(active, item),
        _ => true,
    }
}

/// The state once the open segment is done.
///
/// While rolled-back turns are pending, the segment is passed over; a segment
/// with a user message in it is one of them.
pub open spec fn close_segment(state: Replay, segment: ReplaySegment) -> Replay {
    if state.pending_rollback_turns > 0 {
        Replay {
            pending_rollback_turns: if segment.counts_as_user_turn {
                (state.pending_rollback_turns - 1) as usize
            } else {
                state.pending_rollback_turns
            },
            segment: None,
            ..state
        }
    } else {
        Replay {
            base: if state.base is None {
                segment.base
            } else {
                state.base
            },
            settings: if state.settings is None && segment.counts_as_user_turn {
                segment.settings
            } else {
                state.settings
            },
            reference: if state.reference is NeverSet && (segment.counts_as_user_turn
                || segment.reference is Cleared) {
                segment.reference
            } else {
                state.reference
            },
            segment: None,
            ..state
        }
    }
}

/// The state once a compaction is met.
pub open spec fn meet_compaction(
    state: Replay,
    position: int,
    compacted: CompactedItemView,
) -> Replay {
    let segment = open_segment(state);
    let items = match compacted.replacement_history {
        Some(history) => Some(history.len() as usize),
        None => None,
    };
    let rests = segment.base is None && compacted.replacement_history is Some;
    Replay {
        summary: if state.summary is None && text::collapse(compacted.message).len() > 0 {
            Some(position as usize)
        } else {
            state.summary
        },
        summary_items: if state.summary is None {
            items
        } else {
            state.summary_items
        },
        suffix_from: if rests {
            (position + 1) as usize
        } else {
            state.suffix_from
        },
        segment: Some(
            ReplaySegment {
                reference: if segment.reference is NeverSet {
                    ReferenceContext::Cleared
                } else {
                    segment.reference
                },
                base: if rests {
                    Some(position as usize)
                } else {
                    segment.base
                },
                ..segment
            },
        ),
        ..state
    }
}

/// The state once a turn context is met.
pub open spec fn meet_turn_context(
    state: Replay,
    items: Seq<RolloutItemView>,
    position: int,
    context: TurnContextItemView,
) -> Replay {
    let segment = open_segment(state);
    let segment = ReplaySegment {
        turn: if segment.turn is None && context.turn_id is Some {
            Some(position as usize)
        } else {
            segment.turn
        },
        ..segment
    };
    Replay {
        segment: Some(
            if compatible_turns(segment_turn_id(items, segment), context.turn_id) {
                ReplaySegment {
                    settings: Some(position as usize),
                    reference: if segment.reference is NeverSet {
                        ReferenceContext::Latest(position as usize)
                    } else {
                        segment.reference
                    },
                    ..segment
                }
            } else {
                segment
            },
        ),
        ..state
    }
}

/// The state once the record at `position` is met.
pub open spec fn meet(state: Replay, items: Seq<RolloutItemView>, position: int) -> Replay {
    let segment = open_segment(state);
    match items[position] {
        RolloutItemView::Compacted(compacted) => meet_compaction(state, position, compacted),
        RolloutItemView::TurnContext(context) => meet_turn_context(state, items, position, context),
        RolloutItemView::EventMsg(EventMsgView::ThreadRolledBack { num_turns }) => Replay {
            pending_rollback_turns: if state.pending_rollback_turns + num_turns > usize::MAX {
                usize::MAX
            } else {
                (state.pending_rollback_turns + num_turns) as usize
            },
            ..state
        },
        RolloutItemView::EventMsg(EventMsgView::TurnComplete { turn_id }) => Replay {
            segment: Some(
                ReplaySegment {
                    turn: if segment.turn is None {
                        Some(position as usize)
                    } else {
                        segment.turn
                    },
                    ..segment
                },
            ),
            ..state
        },
        RolloutItemView::EventMsg(EventMsgView::TurnAborted { aborted_turn_id }) => if segment.turn
            is None && aborted_turn_id is Some {
            Replay {
                segment: Some(ReplaySegment { turn: Some(position as usize), ..segment }),
                ..state
            }
        } else {
            state
        },
        RolloutItemView::EventMsg(EventMsgView::UserMessage) => Replay {
            segment: Some(ReplaySegment { counts_as_user_turn: true, ..segment }),
            ..state
        },
        RolloutItemView::EventMsg(EventMsgView::TurnStarted { turn_id, .. }) => match state.segment {
            Some(segment) => if compatible_turns(segment_turn_id(items, segment), Some(turn_id)) {
                close_segment(state, segment)
            } else {
                state
            },
            None => state,
        },
        _ => state,
    }
}

/// Nothing older can change what the walk has found.
pub open spec fn settled(state: Replay) -> bool {
    state.base is Some && state.settings is Some && !(state.reference is NeverSet)
}

pub open spec fn walk_start() -> Replay {
    Replay {
        base: None,
        settings: None,
        reference: ReferenceContext::NeverSet,
        pending_rollback_turns: 0,
        suffix_from: 0,
        segment: None,
        summary: None,
        summary_items: None,
    }
}

/// The state of the walk once all records from `from` on are met, the newest
/// first. A settled walk meets no more records.
pub open spec fn walk(items: Seq<RolloutItemView>, from: int) -> Replay
    decreases items.len() - from,
{
    if from >= items.len() {
        walk_start()
    } else {
        let state = walk(items, from + 1);
        if settled(state) {
            state
        } else {
            meet(state, items, from)
        }
    }
}

/// The state at the end of the walk, with the last segment closed.
pub open spec fn walked(items: Seq<RolloutItemView>) -> Replay {
    let state = walk(items, 0);
    match state.segment {
        Some(segment) => close_segment(state, segment),
        None => state,
    }
}

/// The positions in a state name records of the right kind.
pub open spec fn refers_to_records(state: Replay, items: Seq<RolloutItemView>) -> bool {
    &&& state.suffix_from <= items.len()
    &&& base_ok(state.base, items)
    &&& settings_ok(state.settings, items)
    &&& reference_ok(state.reference, items)
    &&& (state.summary matches Some(at) ==> at < items.len()
        && items[at as int] is Compacted)
    &&& (state.segment matches Some(segment) ==> segment_ok(segment, items))
}

pub open spec fn base_ok(base: Option<usize>, items: Seq<RolloutItemView>) -> bool {
    base matches Some(at) ==> at < items.len() && (items[at as int] matches RolloutItemView::Compacted(c)
        && c.replacement_history is Some)
}

pub open spec fn settings_ok(settings: Option<usize>, items: Seq<RolloutItemView>) -> bool {
    settings matches Some(at) ==> at < items.len() && items[at as int] is TurnContext
}

pub open spec fn reference_ok(reference: ReferenceContext, items: Seq<RolloutItemView>) -> bool {
    reference matches ReferenceContext::Latest(at) ==> at < items.len() && items[at as int]
        is TurnContext
}

pub open spec fn segment_ok(segment: ReplaySegment, items: Seq<RolloutItemView>) -> bool {
    &&& (segment.turn matches Some(at) ==> at < items.len())
    &&& base_ok(segment.base, items)
    &&& settings_ok(segment.settings, items)
    &&& reference_ok(segment.reference, items)
}

proof fn meet_keeps_positions(state: Replay, items: Seq<RolloutItemView>, position: int)
    requires
        refers_to_records(state, items),
        0 <= position < items.len(),
        items.len() <= usize::MAX,
    ensures
        refers_to_records(meet(state, items, position), items),
{
}

/// Merges a finished segment into what the walk has found.
fn finalize_active_segment(state: Replay, segment: ReplaySegment) -> (out: Replay)
    ensures
        out == close_segment(state, segment),
{
    let mut out = state;
    out.segment = None;
    if state.pending_rollback_turns > 0 {
        if segment.counts_as_user_turn {
            out.pending_rollback_turns = state.pending_rollback_turns - 1;
        }
        return out;
    }
    if state.base.is_none() {
        out.base = segment.base;
    }
    if state.settings.is_none() && segment.counts_as_user_turn {
        out.settings = segment.settings;
    }
    if matches!(state.reference, ReferenceContext::NeverSet) && (segment.counts_as_user_turn
        || matches!(segment.reference, ReferenceContext::Cleared)) {
        out.reference = segment.reference;
    }
    out
}

fn current_segment(state: Replay) -> (out: ReplaySegment)
    ensures
        out == open_segment(state),
{
    match state.segment {
        Some(segment) => segment,
        None => ReplaySegment {
            turn: None,
            counts_as_user_turn: false,
            settings: None,
            reference: ReferenceContext::NeverSet,
            base: None,
        },
    }
}

/// The turn id of a record.
fn record_turn_id<'a>(item: &'a RolloutItem) -> (out: Option<&'a str>)
    ensures
        text::opt_str(out) == turn_id_of(item@),
{
    match item {
        RolloutItem::TurnContext(context) => match &context.turn_id {
            Some(turn_id) => Some(turn_id.as_str()),
            None => None,
        },
        RolloutItem::EventMsg(EventMsg::TurnComplete { turn_id }) => Some(turn_id.as_str()),
        RolloutItem::EventMsg(EventMsg::TurnAborted { aborted_turn_id }) => match aborted_turn_id {
            Some(turn_id) => Some(turn_id.as_str()),
            None => None,
        },
        RolloutItem::EventMsg(EventMsg::TurnStarted { turn_id, .. }) => Some(turn_id.as_str()),
        _ => None,
    }
}

fn active_turn_id<'a>(items: &'a Vec<RolloutItem>, segment: ReplaySegment) -> (out: Option<
    &'a str,
>)
    requires
        segment_ok(segment, items.deep_view()),
    ensures
        text::opt_str(out) == segment_turn_id(items.deep_view(), segment),
{
    match segment.turn {
        Some(position) => record_turn_id(&items[position]),
        None => None,
    }
}

fn see_compaction(state: Replay, position: usize, compacted: &CompactedItem) -> (out: Replay)
    requires
        position < usize::MAX,
    ensures
        out == meet_compaction(state, position as int, compacted@),
{
    let mut out = state;
    if state.summary.is_none() {
        let summary = normalize_message(compacted.message.as_str());
        if !summary.as_str().is_empty() {
            out.summary = Some(position);
        }
        out.summary_items = match &compacted.replacement_history {
            Some(history) => Some(history.len()),
            None => None,
        };
    }
    let mut segment = current_segment(state);
    if matches!(segment.reference, ReferenceContext::NeverSet) {
        segment.reference = ReferenceContext::Cleared;
    }
    if segment.base.is_none() && compacted.replacement_history.is_some() {
        segment.base = Some(position);
        out.suffix_from = position + 1;
    }
    out.segment = Some(segment);
    out
}

fn see_turn_context(
    state: Replay,
    items: &Vec<RolloutItem>,
    position: usize,
    context: &TurnContextItem,
) -> (out: Replay)
    requires
        position < items@.len(),
        items@[position as int]@ == RolloutItemView::TurnContext(context@),
        refers_to_records(state, items.deep_view()),
    ensures
        out == meet_turn_context(state, items.deep_view(), position as int, context@),
{
    let mut segment = current_segment(state);
    if segment.turn.is_none() && context.turn_id.is_some() {
        segment.turn = Some(position);
    }
    let item_turn_id: Option<&str> = match &context.turn_id {
        Some(turn_id) => Some(turn_id.as_str()),
        None => None,
    };
    if turn_ids_are_compatible(active_turn_id(items, segment), item_turn_id) {
        segment.settings = Some(position);
        if matches!(segment.reference, ReferenceContext::NeverSet) {
            segment.reference = ReferenceContext::Latest(position);
        }
    }
    let mut out = state;
    out.segment = Some(segment);
    out
}

fn see(state: Replay, items: &Vec<RolloutItem>, position: usize) -> (out: Replay)
    requires
        position < items@.len(),
        refers_to_records(state, items.deep_view()),
    ensures
        out == meet(state, items.deep_view(), position as int),
{
    let size: usize = items.len();
    let mut out = state;
    let mut segment = current_segment(state);
    match &items[position] {
        RolloutItem::Compacted(compacted) => see_compaction(state, position, compacted),
        RolloutItem::TurnContext(context) => see_turn_context(state, items, position, context),
        RolloutItem::EventMsg(EventMsg::ThreadRolledBack { num_turns }) => {
            out.pending_rollback_turns = state.pending_rollback_turns.saturating_add(
                *num_turns as usize,
            );
            out
        },
        RolloutItem::EventMsg(EventMsg::TurnComplete { turn_id }) => {
            if segment.turn.is_none() {
                segment.turn = Some(position);
            }
            out.segment = Some(segment);
            out
        },
        RolloutItem::EventMsg(EventMsg::TurnAborted { aborted_turn_id }) => {
            if segment.turn.is_none() && aborted_turn_id.is_some() {
                segment.turn = Some(position);
                out.segment = Some(segment);
            }
            out
        },
        RolloutItem::EventMsg(EventMsg::UserMessage) => {
            segment.counts_as_user_turn = true;
            out.segment = Some(segment);
            out
        },
        RolloutItem::EventMsg(EventMsg::TurnStarted { turn_id, .. }) => match state.segment {
            Some(active) => if turn_ids_are_compatible(
                active_turn_id(items, active),
                Some(turn_id.as_str()),
            ) {
                finalize_active_segment(state, active)
            } else {
                state
            },
            None => state,
        },
        _ => state,
    }
}

fn walk_back(items: &Vec<RolloutItem>) -> (out: Replay)
    ensures
        out == walked(items.deep_view()),
        refers_to_records(out, items.deep_view()),
{
    let mut state = Replay {
        base: None,
        settings: None,
        reference: ReferenceContext::NeverSet,
        pending_rollback_turns: 0,
        suffix_from: 0,
        segment: None,
        summary: None,
        summary_items: None,
    };
    let size: usize = items.len();
    let mut from: usize = size;
    while from > 0
        invariant
            from <= size,
            size == items@.len(),
            state == walk(items.deep_view(), from as int),
            refers_to_records(state, items.deep_view()),
        decreases from,
    {
        from = from - 1;
        if !(state.base.is_some() && state.settings.is_some() && !matches!(
            state.reference,
            ReferenceContext::NeverSet,
        )) {
            proof {
                meet_keeps_positions(state, items.deep_view(), from as int);
            }
            state = see(state, items, from);
        }
    }
    match state.segment {
        Some(segment) => finalize_active_segment(state, segment),
        None => state,
    }
}

// ------------------------------------------------------------- building history

/// Whether an item is shown to the model.
pub open spec fn shown(item: ResponseItemView) -> bool {
    match item.kind {
        ItemKindView::Message { role, content } => role != "system"@,
        ItemKindView::Other => false,
        _ => true,
    }
}

/// The items of a history that are shown to the model, in their order.
pub open spec fn shown_items(items: Seq<ResponseItemView>) -> Seq<ResponseItemView>
    decreases items.len(),
{
    if items.len() == 0 {
        Seq::empty()
    } else if shown(items.last()) {
        shown_items(items.drop_last()).push(items.last())
    } else {
        shown_items(items.drop_last())
    }
}

/// The items of a history that are no ghost snapshots, in their order.
pub open spec fn without_snapshots(items: Seq<ResponseItemView>) -> Seq<ResponseItemView>
    decreases items.len(),
{
    if items.len() == 0 {
        Seq::empty()
    } else if items.last().kind is GhostSnapshot {
        without_snapshots(items.drop_last())
    } else {
        without_snapshots(items.drop_last()).push(items.last())
    }
}

/// A message of the user in a history.
pub open spec fn by_user(item: ResponseItemView) -> bool {
    item.kind matches ItemKindView::Message { role, .. } && role == "user"@
}

/// The position of the last message of the user, or the length where there is
/// none.
pub open spec fn last_by_user(items: Seq<ResponseItemView>) -> int
    decreases items.len(),
{
    if items.len() == 0 {
        0
    } else if by_user(items.last()) {
        items.len() - 1
    } else if last_by_user(items.drop_last()) == items.len() - 1 {
        items.len() as int
    } else {
        last_by_user(items.drop_last())
    }
}

/// A history without its last turns: each goes from a message of the user to
/// the end of the history. What stands before the first message stays.
pub open spec fn without_last_turns(items: Seq<ResponseItemView>, turns: nat) -> Seq<
    ResponseItemView,
>
    decreases turns,
{
    let cut = last_by_user(items);
    if turns == 0 || cut >= items.len() {
        items
    } else {
        without_last_turns(items.take(cut), (turns - 1) as nat)
    }
}

/// A message that carries the summary of a compaction.
pub open spec fn carries_summary(message: Seq<char>, summary_prefix: Seq<char>) -> bool {
    (summary_prefix + "\n"@).is_prefix_of(message)
}

/// The texts of the user messages of a history, without those that carry a
/// summary.
pub open spec fn user_texts(items: Seq<ResponseItemView>, summary_prefix: Seq<char>) -> Seq<
    Seq<char>,
>
    decreases items.len(),
{
    if items.len() == 0 {
        Seq::empty()
    } else {
        let front = user_texts(items.drop_last(), summary_prefix);
        match items.last().turn {
            TurnItemView::UserMessage { message } => if carries_summary(message, summary_prefix) {
                front
            } else {
                front.push(message)
            },
            _ => front,
        }
    }
}

/// The budget of a compacted history for the messages that it keeps.
pub const COMPACT_USER_MESSAGE_MAX_TOKENS: usize = 20_000;

/// The newest messages that fit a budget of tokens. The first that does not
/// fit is cut down to as many characters as tokens are left.
pub open spec fn newest_within(messages: Seq<Seq<char>>, budget: nat) -> Seq<Seq<char>>
    decreases messages.len(),
{
    if messages.len() == 0 || budget == 0 {
        Seq::empty()
    } else {
        let message = messages.last();
        let tokens = numbers::token_count(message);
        if tokens <= budget {
            newest_within(messages.drop_last(), (budget - tokens) as nat).push(message)
        } else {
            seq![search::shortened(message, budget)]
        }
    }
}

/// The JSON of a message with one input text, as `serde_json` writes a
/// `ResponseItem::Message` of `codex_protocol`; nothing where it fails.
pub uninterp spec fn message_json(role: Seq<char>, message: Seq<char>) -> Option<Seq<char>>;

/// Calls `serde_json::to_string` on a `codex_protocol` message without an id,
/// with the given role and one `input_text`. The result is a function of the
/// two texts.
#[verifier::external_body]
fn encode_message(role: &str, message: &str) -> (out: Option<String>)
    ensures
        text::opt_text(out) == message_json(role@, message@),
{
    let content = vec![codex_protocol::models::ContentItem::InputText { text: message.to_string() }];
    let role = role.to_string();
    let item = codex_protocol::models::ResponseItem::Message { id: None, role, content };
    serde_json::to_string(&item).ok()
}

/// A message of the user that the session manager writes into a history. The
/// runtime reads it as a message of the user again.
pub open spec fn user_message(message: Seq<char>) -> ResponseItemView {
    ResponseItemView {
        kind: ItemKindView::Message {
            role: "user"@,
            content: seq![ContentItemView::InputText { text: message }],
        },
        turn: TurnItemView::UserMessage { message },
        encoded_bytes: match message_json("user"@, message) {
            Some(json) => Some(numbers::byte_len(json) as usize),
            None => None,
        },
    }
}

/// One message of the user for each text.
pub open spec fn user_messages(messages: Seq<Seq<char>>) -> Seq<ResponseItemView> {
    Seq::new(messages.len(), |i: int| user_message(messages[i]))
}

/// The summary of a compaction, or a note that there is none.
pub open spec fn summary_or_note(summary: Seq<char>) -> Seq<char> {
    if text::blank(summary) {
        "(no summary available)"@
    } else {
        summary
    }
}

/// The history after a compaction: what was there, the newest user messages
/// within the budget, and the summary.
pub open spec fn compacted_history(
    initial_context: Seq<ResponseItemView>,
    messages: Seq<Seq<char>>,
    summary: Seq<char>,
) -> Seq<ResponseItemView> {
    (initial_context + user_messages(
        newest_within(messages, COMPACT_USER_MESSAGE_MAX_TOKENS as nat),
    )).push(user_message(summary_or_note(summary)))
}

/// A history with the records of a rollout applied to it in their order.
pub open spec fn applied(
    history: Seq<ResponseItemView>,
    items: Seq<RolloutItemView>,
    summary_prefix: Seq<char>,
) -> Seq<ResponseItemView>
    decreases items.len(),
{
    if items.len() == 0 {
        history
    } else {
        let before = applied(history, items.drop_last(), summary_prefix);
        match items.last() {
            RolloutItemView::ResponseItem(item) => if shown(item) {
                before.push(item)
            } else {
                before
            },
            RolloutItemView::Compacted(compacted) => match compacted.replacement_history {
                Some(replacement) => shown_items(replacement),
                None => compacted_history(
                    Seq::empty(),
                    user_texts(before, summary_prefix),
                    compacted.message,
                ),
            },
            RolloutItemView::EventMsg(EventMsgView::ThreadRolledBack { num_turns }) =>
                without_last_turns(before, num_turns as nat),
            _ => before,
        }
    }
}

/// A compaction without a replacement history stands among the records.
pub open spec fn has_legacy_compaction(items: Seq<RolloutItemView>) -> bool {
    exists|i: int|
        0 <= i < items.len() && (#[trigger] items[i] matches RolloutItemView::Compacted(c)
            && c.replacement_history is None)
}

pub open spec fn compacted_at(items: Seq<RolloutItemView>, at: usize) -> CompactedItemView {
    items[at as int]->Compacted_0
}

pub open spec fn context_at(items: Seq<RolloutItemView>, at: usize) -> TurnContextItemView {
    items[at as int]->TurnContext_0
}

/// What a rollout comes to, given the end of the walk over it.
pub open spec fn reconstruction(
    items: Seq<RolloutItemView>,
    state: Replay,
    summary_prefix: Seq<char>,
) -> RolloutReconstructionView {
    let base = match state.base {
        Some(at) => shown_items(compacted_at(items, at).replacement_history.unwrap()),
        None => Seq::empty(),
    };
    let suffix = items.skip(state.suffix_from as int);
    RolloutReconstructionView {
        history: without_snapshots(applied(base, suffix, summary_prefix)),
        previous_turn_settings: match state.settings {
            Some(at) => Some(PreviousTurnSettingsView { model: context_at(items, at).model }),
            None => None,
        },
        reference_context_item: match state.reference {
            ReferenceContext::Latest(at) => if has_legacy_compaction(suffix) {
                None
            } else {
                Some(context_at(items, at))
            },
            _ => None,
        },
        latest_compaction_summary: match state.summary {
            Some(at) => Some(text::collapse(compacted_at(items, at).message)),
            None => None,
        },
        latest_compaction_replacement_items: state.summary_items,
    }
}

/// Adds a copy of an item at the end of a history.
fn push_copy(history: &mut Vec<ResponseItem>, item: &ResponseItem)
    ensures
        final(history).deep_view() == old(history).deep_view().push(item@),
{
    history.push(item.clone());
    assert(history.deep_view() =~= old(history).deep_view().push(item@));
}

/// Whether an item is shown to the model: anything but system messages and
/// unknown items.
pub fn is_prompt_history_item(item: &ResponseItem) -> (out: bool)
    ensures
        out == shown(item@),
{
    match &item.kind {
        ItemKind::Message { role, .. } => !same_text(role.as_str(), "system"),
        ItemKind::Other => false,
        _ => true,
    }
}

/// The items of a history that are shown to the model.
pub fn filter_prompt_history(items: &Vec<ResponseItem>) -> (out: Vec<ResponseItem>)
    ensures
        out.deep_view() == shown_items(items.deep_view()),
{
    let mut out: Vec<ResponseItem> = Vec::new();
    let ghost all = items.deep_view();
    assert(out.deep_view() =~= shown_items(all.take(0)));
    for i in 0..items.len()
        invariant
            all == items.deep_view(),
            out.deep_view() == shown_items(all.take(i as int)),
    {
        assert(all.take(i + 1).drop_last() =~= all.take(i as int));
        assert(all[i as int] == items@[i as int]@);
        if is_prompt_history_item(&items[i]) {
            push_copy(&mut out, &items[i]);
        }
    }
    assert(all.take(all.len() as int) =~= all);
    out
}

fn drop_snapshots(items: &Vec<ResponseItem>) -> (out: Vec<ResponseItem>)
    ensures
        out.deep_view() == without_snapshots(items.deep_view()),
{
    let mut out: Vec<ResponseItem> = Vec::new();
    let ghost all = items.deep_view();
    assert(out.deep_view() =~= without_snapshots(all.take(0)));
    for i in 0..items.len()
        invariant
            all == items.deep_view(),
            out.deep_view() == without_snapshots(all.take(i as int)),
    {
        assert(all.take(i + 1).drop_last() =~= all.take(i as int));
        assert(all[i as int] == items@[i as int]@);
        if !matches!(&items[i].kind, ItemKind::GhostSnapshot) {
            push_copy(&mut out, &items[i]);
        }
    }
    assert(all.take(all.len() as int) =~= all);
    out
}

/// Whether a message carries the summary of a compaction.
pub fn is_summary_message(message: &str, summary_prefix: &str) -> (out: bool)
    ensures
        out == carries_summary(message@, summary_prefix@),
{
    let start = cat2(summary_prefix, "\n");
    has_prefix(message, start.as_str())
}

/// The texts of the user messages of a history, without those that carry a
/// summary.
pub fn collect_user_messages(items: &Vec<ResponseItem>, summary_prefix: &str) -> (out: Vec<
    String,
>)
    ensures
        text::texts(out@) == user_texts(items.deep_view(), summary_prefix@),
{
    let mut out = no_texts();
    let ghost all = items.deep_view();
    assert(text::texts(out@) =~= user_texts(all.take(0), summary_prefix@));
    for i in 0..items.len()
        invariant
            all == items.deep_view(),
            text::texts(out@) == user_texts(all.take(i as int), summary_prefix@),
    {
        assert(all.take(i + 1).drop_last() =~= all.take(i as int));
        assert(all[i as int] == items@[i as int]@);
        if let TurnItem::UserMessage { message } = &items[i].turn {
            if !is_summary_message(message.as_str(), summary_prefix) {
                push_text(&mut out, message.clone());
            }
        }
    }
    assert(all.take(all.len() as int) =~= all);
    out
}

fn find_last_by_user(items: &Vec<ResponseItem>) -> (out: usize)
    ensures
        out == last_by_user(items.deep_view()),
{
    let ghost all = items.deep_view();
    let mut i: usize = items.len();
    assert(all.take(i as int) =~= all);
    while i > 0
        invariant
            i <= items@.len(),
            all == items.deep_view(),
            last_by_user(all) == (if last_by_user(all.take(i as int)) == i {
                all.len() as int
            } else {
                last_by_user(all.take(i as int))
            }),
        decreases i,
    {
        i = i - 1;
        assert(all.take(i + 1).drop_last() =~= all.take(i as int));
        assert(all.take(i + 1).last() == items@[i as int]@);
        proof {
            last_by_user_bound(all.take(i as int));
        }
        if let ItemKind::Message { role, .. } = &items[i].kind {
            if same_text(role.as_str(), "user") {
                return i;
            }
        }
    }
    items.len()
}

proof fn last_by_user_bound(items: Seq<ResponseItemView>)
    ensures
        0 <= last_by_user(items) <= items.len(),
        last_by_user(items) < items.len() ==> by_user(items[last_by_user(items)]),
        forall|i: int| last_by_user(items) < i < items.len() ==> !by_user(#[trigger] items[i]),
        last_by_user(items) == items.len() ==> forall|i: int|
            0 <= i < items.len() ==> !by_user(#[trigger] items[i]),
    decreases items.len(),
{
    if items.len() > 0 {
        let front = items.drop_last();
        last_by_user_bound(front);
        assert forall|i: int| 0 <= i < front.len() implies front[i] == items[i] by {}
        if !by_user(items.last()) {
            assert forall|i: int| last_by_user(items) < i < items.len() implies !by_user(
                #[trigger] items[i],
            ) by {
                if i < front.len() {
                    assert(front[i] == items[i]);
                }
            }
            if last_by_user(items) == items.len() {
                assert forall|i: int| 0 <= i < items.len() implies !by_user(#[trigger] items[i]) by {
                    if i < front.len() {
                        assert(front[i] == items[i]);
                    }
                }
            }
        }
    }
}

/// Takes the last `num_turns` turns off a history.
pub fn drop_last_n_user_turns(items: &mut Vec<ResponseItem>, num_turns: u32)
    ensures
        final(items).deep_view() == without_last_turns(old(items).deep_view(), num_turns as nat),
{
    let ghost goal = without_last_turns(items.deep_view(), num_turns as nat);
    let mut left: u32 = num_turns;
    while left > 0
        invariant
            goal == without_last_turns(items.deep_view(), left as nat),
        ensures
            goal == items.deep_view(),
        decreases left,
    {
        let cut = find_last_by_user(items);
        if cut >= items.len() {
            break;
        }
        let ghost before = items.deep_view();
        proof {
            last_by_user_bound(before);
        }
        items.truncate(cut);
        assert(items.deep_view() =~= before.take(cut as int));
        left = left - 1;
    }
}

fn make_user_message(message: &str) -> (out: ResponseItem)
    ensures
        out@ == user_message(message@),
{
    let encoded_bytes: Option<usize> = match encode_message("user", message) {
        Some(json) => Some(json.as_str().as_bytes().len()),
        None => None,
    };
    let mut content: Vec<ContentItem> = Vec::new();
    content.push(ContentItem::InputText { text: message.to_owned() });
    assert(content.deep_view() =~= seq![ContentItemView::InputText { text: message@ }]);
    ResponseItem {
        kind: ItemKind::Message { role: "user".to_owned(), content },
        turn: TurnItem::UserMessage { message: message.to_owned() },
        encoded_bytes,
    }
}

/// The history after a compaction without a replacement history.
pub fn build_compacted_history(
    initial_context: Vec<ResponseItem>,
    user_messages: &Vec<String>,
    summary_text: &str,
) -> (out: Vec<ResponseItem>)
    ensures
        out.deep_view() == compacted_history(
            initial_context.deep_view(),
            text::texts(user_messages@),
            summary_text@,
        ),
{
    let selected = select_newest(user_messages, COMPACT_USER_MESSAGE_MAX_TOKENS);
    let ghost kept = self::user_messages(text::texts(selected@));
    let ghost start = initial_context.deep_view();
    let mut out = initial_context;
    assert(out.deep_view() =~= start + kept.take(0));
    for i in 0..selected.len()
        invariant
            kept == self::user_messages(text::texts(selected@)),
            out.deep_view() == start + kept.take(i as int),
    {
        let message = make_user_message(selected[i].as_str());
        push_copy(&mut out, &message);
        assert(kept[i as int] == message@);
        assert((start + kept.take(i as int)).push(message@) =~= start + kept.take(i + 1));
    }
    assert(kept.take(kept.len() as int) =~= kept);
    let last = if is_blank(summary_text) {
        make_user_message("(no summary available)")
    } else {
        make_user_message(summary_text)
    };
    push_copy(&mut out, &last);
    out
}

fn select_newest(messages: &Vec<String>, budget: usize) -> (out: Vec<String>)
    ensures
        text::texts(out@) == newest_within(text::texts(messages@), budget as nat),
{
    let mut newest_first = no_texts();
    let mut left: usize = budget;
    let mut full = false;
    let mut i: usize = messages.len();
    let ghost all = text::texts(messages@);
    let ghost goal = newest_within(all, budget as nat);
    assert(all.take(i as int) =~= all);
    assert(goal =~= newest_within(all.take(i as int), left as nat) + text::texts(newest_first@).reverse());
    while i > 0 && left > 0 && !full
        invariant
            i <= messages@.len(),
            all == text::texts(messages@),
            !full ==> goal == newest_within(all.take(i as int), left as nat) + text::texts(
                newest_first@,
            ).reverse(),
            full ==> goal == text::texts(newest_first@).reverse(),
        decreases (if full { 0int } else { i + 1 }),
    {
        let message = &messages[i - 1];
        let tokens = approx_token_count(message.as_str());
        let ghost rest = all.take(i - 1);
        let ghost before = text::texts(newest_first@);
        assert(all.take(i as int).drop_last() =~= rest);
        assert(all.take(i as int).last() == message@);
        if tokens <= left {
            push_text(&mut newest_first, message.clone());
            assert(before.push(message@).reverse() =~= seq![message@] + before.reverse());
            assert(goal =~= newest_within(rest, (left - tokens) as nat) + before.push(
                message@,
            ).reverse());
            left = left - tokens;
            i = i - 1;
        } else {
            let cut = truncate_for_brief(message.as_str(), left);
            let ghost shortened = cut@;
            push_text(&mut newest_first, cut);
            assert(before.push(shortened).reverse() =~= seq![shortened] + before.reverse());
            full = true;
        }
    }
    assert(goal =~= text::texts(newest_first@).reverse());
    lines::reversed(&newest_first)
}

fn apply_records(
    base: Vec<ResponseItem>,
    items: &Vec<RolloutItem>,
    from: usize,
    summary_prefix: &str,
) -> (out: (Vec<ResponseItem>, bool))
    requires
        from <= items@.len(),
    ensures
        out.0.deep_view() == applied(
            base.deep_view(),
            items.deep_view().skip(from as int),
            summary_prefix@,
        ),
        out.1 == has_legacy_compaction(items.deep_view().skip(from as int)),
{
    let mut history = base;
    let mut saw_legacy = false;
    let ghost start = history.deep_view();
    let ghost all = items.deep_view().skip(from as int);
    let mut i: usize = from;
    assert(all.take(0) =~= Seq::<RolloutItemView>::empty());
    while i < items.len()
        invariant
            from <= i <= items@.len(),
            all == items.deep_view().skip(from as int),
            history.deep_view() == applied(start, all.take(i - from), summary_prefix@),
            saw_legacy == has_legacy_compaction(all.take(i - from)),
        decreases items@.len() - i,
    {
        let ghost next = all.take(i + 1 - from);
        assert(next.drop_last() =~= all.take(i - from));
        assert(next.last() == items@[i as int]@);
        proof {
            legacy_compaction_step(next);
        }
        match &items[i] {
            RolloutItem::ResponseItem(item) => {
                if is_prompt_history_item(item) {
                    push_copy(&mut history, item);
                }
            },
            RolloutItem::Compacted(compacted) => match &compacted.replacement_history {
                Some(replacement) => {
                    history = filter_prompt_history(replacement);
                },
                None => {
                    saw_legacy = true;
                    let messages = collect_user_messages(&history, summary_prefix);
                    let empty: Vec<ResponseItem> = Vec::new();
                    assert(empty.deep_view() =~= Seq::<ResponseItemView>::empty());
                    history = build_compacted_history(
                        empty,
                        &messages,
                        compacted.message.as_str(),
                    );
                },
            },
            RolloutItem::EventMsg(EventMsg::ThreadRolledBack { num_turns }) => {
                drop_last_n_user_turns(&mut history, *num_turns);
            },
            _ => {},
        }
        i = i + 1;
    }
    assert(all.take(all.len() as int) =~= all);
    (history, saw_legacy)
}

proof fn legacy_compaction_step(items: Seq<RolloutItemView>)
    requires
        items.len() > 0,
    ensures
        has_legacy_compaction(items) == (has_legacy_compaction(items.drop_last()) || (
        items.last() matches RolloutItemView::Compacted(c) && c.replacement_history is None)),
{
    let front = items.drop_last();
    if has_legacy_compaction(front) {
        let i = choose|i: int|
            0 <= i < front.len() && (#[trigger] front[i] matches RolloutItemView::Compacted(c)
                && c.replacement_history is None);
        assert(items[i] == front[i]);
    }
    if has_legacy_compaction(items) {
        let i = choose|i: int|
            0 <= i < items.len() && (#[trigger] items[i] matches RolloutItemView::Compacted(c)
                && c.replacement_history is None);
        if i < front.len() {
            assert(items[i] == front[i]);
        }
    }
}

/// Rebuilds the history that a model is shown when a session goes on, together
/// with the settings that its last turn leaves behind.
///
/// `summary_prefix` is the text with which the runtime starts the summary of a
/// compaction.
pub fn reconstruct_rollout_history(
    rollout_items: &Vec<RolloutItem>,
    summary_prefix: &str,
) -> (out: RolloutReconstruction)
    ensures
        out@ == reconstruction(
            rollout_items.deep_view(),
            walked(rollout_items.deep_view()),
            summary_prefix@,
        ),
{
    let state = walk_back(rollout_items);
    let base: Vec<ResponseItem> = match state.base {
        Some(at) => match &rollout_items[at] {
            RolloutItem::Compacted(compacted) => match &compacted.replacement_history {
                Some(replacement) => filter_prompt_history(replacement),
                None => Vec::new(),
            },
            _ => Vec::new(),
        },
        None => Vec::new(),
    };
    if state.base.is_none() {
        assert(base.deep_view() =~= Seq::<ResponseItemView>::empty());
    }
    let (history, saw_legacy) = apply_records(
        base,
        rollout_items,
        state.suffix_from,
        summary_prefix,
    );
    let previous_turn_settings: Option<PreviousTurnSettings> = match state.settings {
        Some(at) => match &rollout_items[at] {
            RolloutItem::TurnContext(context) => Some(
                PreviousTurnSettings { model: context.model.clone() },
            ),
            _ => None,
        },
        None => None,
    };
    let reference_context_item: Option<TurnContextItem> = match state.reference {
        ReferenceContext::Latest(at) => match &rollout_items[at] {
            RolloutItem::TurnContext(context) => if saw_legacy {
                None
            } else {
                Some(context.clone())
            },
            _ => None,
        },
        _ => None,
    };
    let latest_compaction_summary: Option<String> = match state.summary {
        Some(at) => match &rollout_items[at] {
            RolloutItem::Compacted(compacted) => Some(
                normalize_message(compacted.message.as_str()),
            ),
            _ => None,
        },
        None => None,
    };
    RolloutReconstruction {
        history: drop_snapshots(&history),
        previous_turn_settings,
        reference_context_item,
        latest_compaction_summary,
        latest_compaction_replacement_items: state.summary_items,
    }
}

// ------------------------------------------------------------------------ laws

proof fn shown_items_are_shown(items: Seq<ResponseItemView>)
    ensures
        forall|i: int| 0 <= i < shown_items(items).len() ==> shown(#[trigger] shown_items(items)[i]),
    decreases items.len(),
{
    if items.len() > 0 {
        let front = shown_items(items.drop_last());
        shown_items_are_shown(items.drop_last());
        assert forall|i: int| 0 <= i < shown_items(items).len() implies shown(
            #[trigger] shown_items(items)[i],
        ) by {
            if i < front.len() {
                assert(shown_items(items)[i] == front[i]);
            }
        }
    }
}

proof fn without_last_turns_is_prefix(items: Seq<ResponseItemView>, turns: nat)
    ensures
        without_last_turns(items, turns).len() <= items.len(),
        without_last_turns(items, turns) == items.take(
            without_last_turns(items, turns).len() as int,
        ),
    decreases turns,
{
    let cut = last_by_user(items);
    last_by_user_bound(items);
    if turns == 0 || cut >= items.len() {
        assert(items.take(items.len() as int) =~= items);
    } else {
        without_last_turns_is_prefix(items.take(cut), (turns - 1) as nat);
        let rest = without_last_turns(items.take(cut), (turns - 1) as nat);
        assert(items.take(cut).take(rest.len() as int) =~= items.take(rest.len() as int));
    }
}

/// The number of user messages in a history.
pub open spec fn user_turns(items: Seq<ResponseItemView>) -> nat
    decreases items.len(),
{
    if items.len() == 0 {
        0
    } else {
        user_turns(items.drop_last()) + if by_user(items.last()) {
            1nat
        } else {
            0
        }
    }
}

proof fn user_turns_at_cut(items: Seq<ResponseItemView>)
    ensures
        last_by_user(items) >= items.len() ==> user_turns(items) == 0,
        last_by_user(items) < items.len() ==> user_turns(items) == user_turns(
            items.take(last_by_user(items)),
        ) + 1,
    decreases items.len(),
{
    last_by_user_bound(items);
    if items.len() > 0 {
        let front = items.drop_last();
        user_turns_at_cut(front);
        last_by_user_bound(front);
        if by_user(items.last()) {
            assert(items.take(items.len() - 1) =~= front);
        } else if last_by_user(items) < items.len() {
            assert(items.take(last_by_user(items)) =~= front.take(last_by_user(front)));
        }
    }
}

/// Rolling back turns leaves the beginning of the history untouched and takes
/// away exactly that many user messages, or all of them.
pub proof fn rollback_drops_exactly_those_turns(items: Seq<ResponseItemView>, turns: nat)
    ensures
        without_last_turns(items, turns).is_prefix_of(items),
        user_turns(without_last_turns(items, turns)) == (if turns <= user_turns(items) {
            (user_turns(items) - turns) as nat
        } else {
            0
        }),
        turns == 0 ==> without_last_turns(items, turns) == items,
    decreases turns,
{
    without_last_turns_is_prefix(items, turns);
    user_turns_at_cut(items);
    if turns > 0 && last_by_user(items) < items.len() {
        rollback_drops_exactly_those_turns(
            items.take(last_by_user(items)),
            (turns - 1) as nat,
        );
    }
}

proof fn applied_is_shown(
    history: Seq<ResponseItemView>,
    items: Seq<RolloutItemView>,
    summary_prefix: Seq<char>,
)
    requires
        forall|i: int| 0 <= i < history.len() ==> shown(#[trigger] history[i]),
    ensures
        ({
            let all = applied(history, items, summary_prefix);
            forall|i: int| 0 <= i < all.len() ==> shown(#[trigger] all[i])
        }),
    decreases items.len(),
{
    if items.len() > 0 {
        applied_is_shown(history, items.drop_last(), summary_prefix);
        let before = applied(history, items.drop_last(), summary_prefix);
        match items.last() {
            RolloutItemView::Compacted(compacted) => match compacted.replacement_history {
                Some(replacement) => {
                    shown_items_are_shown(replacement);
                },
                None => {
                    reveal_strlit("user");
                    reveal_strlit("system");
                    assert("user"@[0] != "system"@[0]);
                },
            },
            RolloutItemView::EventMsg(EventMsgView::ThreadRolledBack { num_turns }) => {
                without_last_turns_is_prefix(before, num_turns as nat);
            },
            _ => {},
        }
    }
}

proof fn without_snapshots_keeps(items: Seq<ResponseItemView>)
    requires
        forall|i: int| 0 <= i < items.len() ==> shown(#[trigger] items[i]),
    ensures
        ({
            let kept = without_snapshots(items);
            forall|i: int|
                0 <= i < kept.len() ==> shown(#[trigger] kept[i]) && !(kept[i].kind is GhostSnapshot)
        }),
    decreases items.len(),
{
    if items.len() > 0 {
        let front = items.drop_last();
        assert forall|i: int| 0 <= i < front.len() implies shown(#[trigger] front[i]) by {
            assert(front[i] == items[i]);
        }
        without_snapshots_keeps(front);
    }
}

/// Whatever a rollout holds, the rebuilt history has no system message, no
/// unknown item and no ghost snapshot in it.
pub proof fn rebuilt_history_is_shown(items: Seq<RolloutItemView>, summary_prefix: Seq<char>)
    ensures
        ({
            let history = reconstruction(items, walked(items), summary_prefix).history;
            forall|i: int|
                0 <= i < history.len() ==> shown(#[trigger] history[i]) && !(
                history[i].kind is GhostSnapshot)
        }),
{
    let state = walked(items);
    let base = match state.base {
        Some(at) => shown_items(compacted_at(items, at).replacement_history.unwrap()),
        None => Seq::empty(),
    };
    if let Some(at) = state.base {
        shown_items_are_shown(compacted_at(items, at).replacement_history.unwrap());
    }
    let suffix = items.skip(state.suffix_from as int);
    applied_is_shown(base, suffix, summary_prefix);
    without_snapshots_keeps(applied(base, suffix, summary_prefix));
}

/// The response items among the records of a rollout, in their order.
pub open spec fn response_items(items: Seq<RolloutItemView>) -> Seq<ResponseItemView>
    decreases items.len(),
{
    if items.len() == 0 {
        Seq::empty()
    } else {
        match items.last() {
            RolloutItemView::ResponseItem(item) => response_items(items.drop_last()).push(item),
            _ => response_items(items.drop_last()),
        }
    }
}

/// Records that neither compact the history nor roll it back.
pub open spec fn plain_records(items: Seq<RolloutItemView>) -> bool {
    forall|i: int|
        0 <= i < items.len() ==> !(#[trigger] items[i] is Compacted) && !(
        items[i] matches RolloutItemView::EventMsg(EventMsgView::ThreadRolledBack { .. }))
}

proof fn plain_walk_has_no_base(items: Seq<RolloutItemView>, from: int)
    requires
        plain_records(items),
        0 <= from <= items.len(),
    ensures
        walk(items, from).base is None,
        walk(items, from).suffix_from == 0,
        walk(items, from).summary is None,
        walk(items, from).segment matches Some(segment) ==> segment.base is None,
    decreases items.len() - from,
{
    if from < items.len() {
        plain_walk_has_no_base(items, from + 1);
        assert(!(items[from] is Compacted));
    }
}

proof fn plain_applied(items: Seq<RolloutItemView>, summary_prefix: Seq<char>)
    requires
        plain_records(items),
    ensures
        applied(Seq::empty(), items, summary_prefix) == shown_items(response_items(items)),
    decreases items.len(),
{
    if items.len() > 0 {
        let front = items.drop_last();
        assert forall|i: int| 0 <= i < front.len() implies !(#[trigger] front[i] is Compacted) && !(
        front[i] matches RolloutItemView::EventMsg(EventMsgView::ThreadRolledBack { .. })) by {
            assert(front[i] == items[i]);
        }
        plain_applied(front, summary_prefix);
        assert(!(items[items.len() - 1] is Compacted));
        if let RolloutItemView::ResponseItem(item) = items.last() {
            assert(response_items(front).push(item).drop_last() =~= response_items(front));
        }
    }
}

/// A rollout without compactions and rollbacks is shown to the model as it
/// stands: its response items in their order, less those that are never shown.
pub proof fn plain_rollout_is_shown_as_it_stands(
    items: Seq<RolloutItemView>,
    summary_prefix: Seq<char>,
)
    requires
        plain_records(items),
    ensures
        reconstruction(items, walked(items), summary_prefix).history == without_snapshots(
            shown_items(response_items(items)),
        ),
        reconstruction(items, walked(items), summary_prefix).latest_compaction_summary is None,
{
    plain_walk_has_no_base(items, 0);
    assert(items.skip(0) =~= items);
    plain_applied(items, summary_prefix);
}

/// The budget of a compacted history holds: the messages kept whole, all but
/// possibly the oldest, together have at most that many tokens, and they are
/// the newest ones.
pub proof fn newest_within_budget(messages: Seq<Seq<char>>, budget: nat)
    ensures
        ({
            let kept = newest_within(messages, budget);
            &&& kept.len() <= messages.len()
            &&& kept.len() > 0 ==> total_tokens(kept.skip(1)) <= budget
            &&& forall|i: int|
                1 <= i < kept.len() ==> #[trigger] kept[i] == messages[messages.len() - kept.len()
                    + i]
        }),
    decreases messages.len(),
{
    let kept = newest_within(messages, budget);
    if messages.len() > 0 && budget > 0 {
        let message = messages.last();
        let tokens = numbers::token_count(message);
        if tokens <= budget {
            let front = newest_within(messages.drop_last(), (budget - tokens) as nat);
            newest_within_budget(messages.drop_last(), (budget - tokens) as nat);
            if front.len() == 0 {
                assert(kept.skip(1) =~= Seq::<Seq<char>>::empty());
            } else {
                assert(kept.skip(1) =~= front.skip(1).push(message));
                assert(kept.skip(1).drop_last() =~= front.skip(1));
            }
        } else {
            assert(kept.skip(1) =~= Seq::<Seq<char>>::empty());
        }
    }
}

/// The tokens of some messages together.
pub open spec fn total_tokens(messages: Seq<Seq<char>>) -> nat
    decreases messages.len(),
{
    if messages.len() == 0 {
        0
    } else {
        total_tokens(messages.drop_last()) + numbers::token_count(messages.last())
    }
}

// ------------------------------------------------- what a replay comes to, by records

/// What a rollout comes to.
pub open spec fn rebuilt(
    items: Seq<RolloutItemView>,
    summary_prefix: Seq<char>,
) -> RolloutReconstructionView {
    reconstruction(items, walked(items), summary_prefix)
}

/// The record takes turns back.
pub open spec fn rolls_back(item: RolloutItemView) -> bool {
    item matches RolloutItemView::EventMsg(EventMsgView::ThreadRolledBack { .. })
}

/// The record replaces the history by another one.
pub open spec fn replaces_history(item: RolloutItemView) -> bool {
    item matches RolloutItemView::Compacted(compacted) && compacted.replacement_history is Some
}

/// None of the records takes turns back.
pub open spec fn nothing_rolled_back(items: Seq<RolloutItemView>) -> bool {
    forall|i: int| 0 <= i < items.len() ==> !rolls_back(#[trigger] items[i])
}

/// None of the records replaces the history.
pub open spec fn nothing_replaced(items: Seq<RolloutItemView>) -> bool {
    forall|i: int| 0 <= i < items.len() ==> !replaces_history(#[trigger] items[i])
}

/// An item that belongs in a prompt: no message of the system, no snapshot and
/// nothing unknown.
pub open spec fn for_the_model(item: ResponseItemView) -> bool {
    &&& !(item.kind is Other)
    &&& !(item.kind is GhostSnapshot)
    &&& !(item.kind matches ItemKindView::Message { role, .. } && role == "system"@)
}

/// The items that belong in a prompt, in their order.
pub open spec fn prompt_of(items: Seq<ResponseItemView>) -> Seq<ResponseItemView>
    decreases items.len(),
{
    if items.len() == 0 {
        items
    } else if for_the_model(items[0]) {
        seq![items[0]] + prompt_of(items.drop_first())
    } else {
        prompt_of(items.drop_first())
    }
}

proof fn prompt_of_push(items: Seq<ResponseItemView>, item: ResponseItemView)
    ensures
        prompt_of(items.push(item)) == if for_the_model(item) {
            prompt_of(items).push(item)
        } else {
            prompt_of(items)
        },
    decreases items.len(),
{
    let more = items.push(item);
    if items.len() == 0 {
        assert(more.drop_first() =~= items);
        assert(prompt_of(more) =~= if for_the_model(item) {
            prompt_of(items).push(item)
        } else {
            prompt_of(items)
        });
    } else {
        assert(more.drop_first() =~= items.drop_first().push(item));
        prompt_of_push(items.drop_first(), item);
        assert(prompt_of(more) =~= if for_the_model(item) {
            prompt_of(items).push(item)
        } else {
            prompt_of(items)
        });
    }
}

proof fn kept_is_prompt(items: Seq<ResponseItemView>)
    ensures
        without_snapshots(shown_items(items)) == prompt_of(items),
    decreases items.len(),
{
    if items.len() > 0 {
        let front = items.drop_last();
        kept_is_prompt(front);
        prompt_of_push(front, items.last());
        assert(front.push(items.last()) =~= items);
        if shown(items.last()) {
            assert(shown_items(front).push(items.last()).drop_last() =~= shown_items(front));
        }
    }
}

proof fn walk_refers(items: Seq<RolloutItemView>, from: int)
    requires
        items.len() <= usize::MAX,
        0 <= from <= items.len(),
    ensures
        refers_to_records(walk(items, from), items),
    decreases items.len() - from,
{
    if from < items.len() {
        walk_refers(items, from + 1);
        meet_keeps_positions(walk(items, from + 1), items, from);
    }
}

/// Records behind a rollout that leave nothing behind do not change the walk.
proof fn walk_past(items: Seq<RolloutItemView>, tail: Seq<RolloutItemView>, from: int)
    requires
        items.len() + tail.len() <= usize::MAX,
        0 <= from <= items.len(),
        walk(items + tail, items.len() as int) == walk_start(),
    ensures
        walk(items + tail, from) == walk(items, from),
    decreases items.len() - from,
{
    if from < items.len() {
        walk_past(items, tail, from + 1);
        walk_refers(items, from + 1);
        let state = walk(items, from + 1);
        assert((items + tail)[from] == items[from]);
        if let Some(segment) = state.segment {
            if let Some(at) = segment.turn {
                assert((items + tail)[at as int] == items[at as int]);
            }
        }
    }
}

proof fn applied_on(
    history: Seq<ResponseItemView>,
    first: Seq<RolloutItemView>,
    rest: Seq<RolloutItemView>,
    summary_prefix: Seq<char>,
)
    ensures
        applied(history, first + rest, summary_prefix) == applied(
            applied(history, first, summary_prefix),
            rest,
            summary_prefix,
        ),
    decreases rest.len(),
{
    if rest.len() == 0 {
        assert(first + rest =~= first);
    } else {
        applied_on(history, first, rest.drop_last(), summary_prefix);
        assert((first + rest).drop_last() =~= first + rest.drop_last());
    }
}

/// A replacement history makes what came before it not matter.
proof fn applied_past_replacement(
    history: Seq<ResponseItemView>,
    items: Seq<RolloutItemView>,
    at: int,
    from: int,
    summary_prefix: Seq<char>,
)
    requires
        0 <= from <= at < items.len(),
        replaces_history(items[at]),
    ensures
        applied(history, items.skip(from), summary_prefix) == applied(
            shown_items(items[at]->Compacted_0.replacement_history.unwrap()),
            items.skip(at + 1),
            summary_prefix,
        ),
{
    let first = items.subrange(from, at + 1);
    assert(items.skip(from) =~= first + items.skip(at + 1));
    applied_on(history, first, items.skip(at + 1), summary_prefix);
    assert(first.last() == items[at]);
}

proof fn unreplaced_walk(items: Seq<RolloutItemView>, from: int)
    requires
        nothing_replaced(items),
        0 <= from <= items.len(),
    ensures
        walk(items, from).base is None,
        walk(items, from).suffix_from == 0,
        walk(items, from).segment matches Some(segment) ==> segment.base is None,
    decreases items.len() - from,
{
    if from < items.len() {
        unreplaced_walk(items, from + 1);
        assert(!replaces_history(items[from]));
    }
}

/// The walk over records of which none takes turns back rests on the newest
/// replacement history.
proof fn steady_walk(items: Seq<RolloutItemView>, at: int, from: int)
    requires
        items.len() <= usize::MAX,
        nothing_rolled_back(items),
        0 <= at < items.len(),
        replaces_history(items[at]),
        forall|i: int| at < i < items.len() ==> !replaces_history(#[trigger] items[i]),
        0 <= from <= items.len(),
    ensures
        ({
            let state = walk(items, from);
            &&& state.pending_rollback_turns == 0
            &&& from > at ==> {
                &&& state.base is None
                &&& state.suffix_from == 0
                &&& (state.segment matches Some(segment) ==> segment.base is None)
            }
            &&& from <= at ==> {
                &&& state.suffix_from <= at + 1
                &&& state.base == Some(at as usize) || (state.base is None && (
                state.segment matches Some(segment) && segment.base == Some(at as usize)))
            }
        }),
    decreases items.len() - from,
{
    if from < items.len() {
        steady_walk(items, at, from + 1);
        assert(!rolls_back(items[from]));
        if from > at {
            assert(!replaces_history(items[from]));
        }
    }
}

proof fn newest_replacement(items: Seq<RolloutItemView>) -> (at: int)
    ensures
        -1 <= at < items.len(),
        at >= 0 ==> replaces_history(items[at]),
        forall|i: int| at < i < items.len() ==> !replaces_history(#[trigger] items[i]),
    decreases items.len(),
{
    if items.len() == 0 {
        -1
    } else if replaces_history(items.last()) {
        items.len() - 1
    } else {
        let at = newest_replacement(items.drop_last());
        if at >= 0 {
            assert(items.drop_last()[at] == items[at]);
        }
        assert forall|i: int| at < i < items.len() implies !replaces_history(#[trigger] items[i]) by {
            if i < items.len() - 1 {
                assert(items.drop_last()[i] == items[i]);
            }
        }
        at
    }
}

/// Where no turns are taken back, or no history is replaced, the history is
/// that of all records applied one after the other.
proof fn replay_in_order(items: Seq<RolloutItemView>, summary_prefix: Seq<char>)
    requires
        items.len() <= usize::MAX,
        nothing_rolled_back(items) || nothing_replaced(items),
    ensures
        rebuilt(items, summary_prefix).history == without_snapshots(
            applied(Seq::empty(), items, summary_prefix),
        ),
{
    let at = newest_replacement(items);
    if at < 0 {
        unreplaced_walk(items, 0);
        assert(items.skip(0) =~= items);
    } else {
        if nothing_replaced(items) {
            assert(!replaces_history(items[at]));
        }
        steady_walk(items, at, 0);
        let state = walked(items);
        assert(state.base == Some(at as usize));
        let from = state.suffix_from as int;
        let base = shown_items(items[at]->Compacted_0.replacement_history.unwrap());
        assert(items.skip(0) =~= items);
        applied_past_replacement(Seq::empty(), items, at, 0, summary_prefix);
        if from <= at {
            applied_past_replacement(base, items, at, from, summary_prefix);
        }
    }
}

/// A response item behind a rollout comes behind its history, if it belongs in a
/// prompt at all; nothing else changes. An empty rollout has no history.
pub proof fn response_item_is_shown_last(
    items: Seq<RolloutItemView>,
    item: ResponseItemView,
    summary_prefix: Seq<char>,
)
    requires
        items.len() < usize::MAX,
    ensures
        rebuilt(Seq::empty(), summary_prefix).history.len() == 0,
        ({
            let before = rebuilt(items, summary_prefix);
            rebuilt(items.push(RolloutItemView::ResponseItem(item)), summary_prefix) == (
            RolloutReconstructionView {
                history: if for_the_model(item) {
                    before.history.push(item)
                } else {
                    before.history
                },
                ..before
            })
        }),
{
    let record = RolloutItemView::ResponseItem(item);
    let tail = seq![record];
    let more = items.push(record);
    assert(more =~= items + tail);
    assert(walk(more, more.len() as int) == walk_start());
    assert(walk(more, items.len() as int) == walk_start());
    walk_past(items, tail, 0);
    walk_refers(items, 0);
    let state = walked(items);
    assert(walked(more) == state);
    let suffix = items.skip(state.suffix_from as int);
    assert(more.skip(state.suffix_from as int) =~= suffix.push(record));
    assert(suffix.push(record).drop_last() =~= suffix);
    legacy_compaction_step(suffix.push(record));
    let base = match state.base {
        Some(at) => shown_items(compacted_at(items, at).replacement_history.unwrap()),
        None => Seq::empty(),
    };
    let all = applied(base, suffix, summary_prefix);
    if shown(item) {
        assert(all.push(item).drop_last() =~= all);
    }
    let after = rebuilt(more, summary_prefix);
    if let Some(at) = state.base {
        assert(more[at as int] == items[at as int]);
    }
    if let Some(at) = state.settings {
        assert(more[at as int] == items[at as int]);
    }
    if let ReferenceContext::Latest(at) = state.reference {
        assert(more[at as int] == items[at as int]);
    }
    if let Some(at) = state.summary {
        assert(more[at as int] == items[at as int]);
    }
    assert(after.history =~= if for_the_model(item) {
        rebuilt(items, summary_prefix).history.push(item)
    } else {
        rebuilt(items, summary_prefix).history
    });
}

proof fn plain_tail_applied(
    history: Seq<ResponseItemView>,
    items: Seq<RolloutItemView>,
    summary_prefix: Seq<char>,
)
    requires
        plain_records(items),
    ensures
        without_snapshots(applied(history, items, summary_prefix)) == without_snapshots(history)
            + prompt_of(response_items(items)),
    decreases items.len(),
{
    if items.len() == 0 {
        assert(without_snapshots(history) + prompt_of(response_items(items)) =~= without_snapshots(
            history,
        ));
    } else {
        let front = items.drop_last();
        assert forall|i: int| 0 <= i < front.len() implies !(#[trigger] front[i] is Compacted) && !(
        front[i] matches RolloutItemView::EventMsg(EventMsgView::ThreadRolledBack { .. })) by {
            assert(front[i] == items[i]);
        }
        plain_tail_applied(history, front, summary_prefix);
        assert(!(items[items.len() - 1] is Compacted));
        let before = applied(history, front, summary_prefix);
        if let RolloutItemView::ResponseItem(item) = items.last() {
            prompt_of_push(response_items(front), item);
            assert(before.push(item).drop_last() =~= before);
            assert(without_snapshots(applied(history, items, summary_prefix))
                =~= without_snapshots(history) + prompt_of(response_items(items)));
        }
    }
}

/// A session goes on from the newest replacement history: what belongs in a
/// prompt of that history comes first, and then what belongs in a prompt of the
/// records behind it, in their order. What stood before the compaction does not
/// matter.
pub proof fn session_goes_on_from_its_replacement(
    items: Seq<RolloutItemView>,
    replacement: Seq<ResponseItemView>,
    message: Seq<char>,
    tail: Seq<RolloutItemView>,
    summary_prefix: Seq<char>,
)
    requires
        items.len() + 1 + tail.len() <= usize::MAX,
        nothing_rolled_back(items),
        plain_records(tail),
    ensures
        rebuilt(
            items.push(
                RolloutItemView::Compacted(
                    CompactedItemView { message, replacement_history: Some(replacement) },
                ),
            ) + tail,
            summary_prefix,
        ).history == prompt_of(replacement) + prompt_of(response_items(tail)),
{
    let compaction = RolloutItemView::Compacted(
        CompactedItemView { message, replacement_history: Some(replacement) },
    );
    let all = items.push(compaction) + tail;
    let at = items.len() as int;
    assert(all[at] == compaction);
    assert forall|i: int| 0 <= i < all.len() implies !rolls_back(#[trigger] all[i]) by {
        if i < at {
            assert(all[i] == items[i]);
        } else if i > at {
            assert(all[i] == tail[i - at - 1]);
        }
    }
    replay_in_order(all, summary_prefix);
    assert(all.skip(0) =~= all);
    applied_past_replacement(Seq::empty(), all, at, 0, summary_prefix);
    assert(all.skip(at + 1) =~= tail);
    plain_tail_applied(shown_items(replacement), tail, summary_prefix);
    kept_is_prompt(replacement);
}

/// The record may belong to the turn with this id, and neither compacts the
/// history nor takes turns back.
pub open spec fn in_turn(item: RolloutItemView, id: Seq<char>) -> bool {
    match item {
        RolloutItemView::TurnContext(context) => context.turn_id matches Some(other) ==> other == id,
        RolloutItemView::Compacted(_) => false,
        RolloutItemView::EventMsg(EventMsgView::TurnComplete { turn_id }) => turn_id == id,
        RolloutItemView::EventMsg(EventMsgView::TurnAborted { aborted_turn_id }) =>
            aborted_turn_id matches Some(other) ==> other == id,
        RolloutItemView::EventMsg(EventMsgView::TurnStarted { .. }) => false,
        RolloutItemView::EventMsg(EventMsgView::ThreadRolledBack { .. }) => false,
        _ => true,
    }
}

/// The records of a turn behind its start.
pub open spec fn one_turn(body: Seq<RolloutItemView>, id: Seq<char>) -> bool {
    forall|i: int| 0 <= i < body.len() ==> in_turn(#[trigger] body[i], id)
}

/// The user says something among these records.
pub open spec fn user_speaks(body: Seq<RolloutItemView>) -> bool {
    exists|i: int| 0 <= i < body.len() && (#[trigger] body[i]) == RolloutItemView::EventMsg(EventMsgView::UserMessage)
}

/// A rollout with a turn behind it.
pub open spec fn with_turn(
    items: Seq<RolloutItemView>,
    id: Seq<char>,
    window: Option<i64>,
    body: Seq<RolloutItemView>,
) -> Seq<RolloutItemView> {
    items.push(
        RolloutItemView::EventMsg(
            EventMsgView::TurnStarted { turn_id: id, model_context_window: window },
        ),
    ) + body
}

/// The walk over the records of the turn `start` that a rollout ends with, with
/// rolled-back turns pending.
proof fn turn_walk(
    all: Seq<RolloutItemView>,
    start: int,
    end: int,
    id: Seq<char>,
    from: int,
)
    requires
        all.len() <= usize::MAX,
        0 <= start < end <= all.len(),
        forall|i: int| start < i < end ==> in_turn(#[trigger] all[i], id),
        ({
            let state = walk(all, end);
            state == Replay { pending_rollback_turns: state.pending_rollback_turns, ..walk_start() }
        }),
        start < from <= end,
    ensures
        ({
            let state = walk(all, from);
            &&& state == Replay { segment: state.segment, ..walk(all, end) }
            &&& state.segment matches Some(segment) ==> {
                &&& segment.base is None
                &&& !(segment.reference is Cleared)
                &&& segment.turn matches Some(at) ==> from <= at < end
                &&& segment.counts_as_user_turn ==> exists|i: int|
                    from <= i < end && #[trigger] all[i] == RolloutItemView::EventMsg(EventMsgView::UserMessage)
                &&& segment.settings matches Some(at) ==> from <= at < end && all[at as int] is TurnContext
                &&& segment.reference matches ReferenceContext::Latest(at) ==> from <= at < end && all[at as int] is TurnContext
            }
            &&& forall|i: int|
                from <= i < end && #[trigger] all[i] == RolloutItemView::EventMsg(EventMsgView::UserMessage)
                    ==> (state.segment matches Some(segment) && segment.counts_as_user_turn)
            &&& forall|i: int|
                from <= i < end && #[trigger] all[i] is TurnContext ==> (
                state.segment matches Some(segment) && (segment.settings matches Some(at) && at <= i)
                    && (segment.reference matches ReferenceContext::Latest(at) && i <= at))
        }),
    decreases end - from,
{
    if from < end {
        turn_walk(all, start, end, id, from + 1);
        assert(in_turn(all[from], id));
        let state = walk(all, from + 1);
        if let Some(segment) = state.segment {
            if let Some(at) = segment.turn {
                assert(in_turn(all[at as int], id));
            }
        }
    }
}

/// What the walk keeps once it has found settings and a reference context.
proof fn found_settings_stay(items: Seq<RolloutItemView>, from: int, to: int)
    requires
        0 <= from <= to <= items.len(),
        walk(items, to).settings is Some,
        !(walk(items, to).reference is NeverSet),
    ensures
        walk(items, from).settings == walk(items, to).settings,
        walk(items, from).reference == walk(items, to).reference,
    decreases to - from,
{
    if from < to {
        found_settings_stay(items, from + 1, to);
    }
}

proof fn no_legacy_behind(items: Seq<RolloutItemView>, from: int)
    requires
        0 <= from <= items.len(),
        !has_legacy_compaction(items),
    ensures
        !has_legacy_compaction(items.skip(from)),
{
    let rest = items.skip(from);
    if has_legacy_compaction(rest) {
        let i = choose|i: int|
            0 <= i < rest.len() && (#[trigger] rest[i] matches RolloutItemView::Compacted(c)
                && c.replacement_history is None);
        assert(items[from + i] == rest[i]);
    }
}

/// A turn in which the user speaks leaves its settings behind, whatever came
/// before it: the model of its first context, and its last context as the one
/// that later turns are compared with, as long as no compaction without a
/// replacement history stands in the rollout.
pub proof fn last_user_turn_leaves_its_settings(
    items: Seq<RolloutItemView>,
    id: Seq<char>,
    window: Option<i64>,
    body: Seq<RolloutItemView>,
    first: int,
    last: int,
    summary_prefix: Seq<char>,
)
    requires
        items.len() + 1 + body.len() <= usize::MAX,
        one_turn(body, id),
        user_speaks(body),
        0 <= first <= last < body.len(),
        body[first] is TurnContext,
        body[last] is TurnContext,
        forall|i: int| 0 <= i < body.len() && #[trigger] body[i] is TurnContext ==> first <= i <= last,
    ensures
        ({
            let out = rebuilt(with_turn(items, id, window, body), summary_prefix);
            &&& out.previous_turn_settings == Some(
                PreviousTurnSettingsView { model: body[first]->TurnContext_0.model },
            )
            &&& (forall|i: int|
                0 <= i < items.len() && #[trigger] items[i] is Compacted ==> replaces_history(items[i]))
                ==> out.reference_context_item == Some(body[last]->TurnContext_0)
        }),
{
    let all = with_turn(items, id, window, body);
    let start = items.len() as int;
    let end = all.len() as int;
    assert forall|i: int| start < i < end implies in_turn(#[trigger] all[i], id) by {
        assert(all[i] == body[i - start - 1]);
    }
    assert(walk(all, end) == walk_start());
    turn_walk(all, start, end, id, start + 1);
    let state = walk(all, start + 1);
    let said = choose|i: int|
        0 <= i < body.len() && (#[trigger] body[i]) == RolloutItemView::EventMsg(
            EventMsgView::UserMessage,
        );
    assert(all[start + 1 + said] == body[said]);
    assert(all[start + 1 + first] == body[first]);
    assert(all[start + 1 + last] == body[last]);
    let segment = state.segment.unwrap();
    assert(segment.counts_as_user_turn);
    let settings = segment.settings.unwrap() as int;
    assert(all[settings] == body[settings - start - 1]);
    assert(settings == start + 1 + first);
    let reference = segment.reference->Latest_0 as int;
    assert(all[reference] == body[reference - start - 1]);
    assert(reference == start + 1 + last);
    if let Some(at) = segment.turn {
        assert(in_turn(all[at as int], id));
    }
    assert(all[start] is EventMsg);
    assert(walk(all, start) == close_segment(state, segment));
    found_settings_stay(all, 0, start);
    walk_refers(all, 0);
    if forall|i: int|
        0 <= i < items.len() && #[trigger] items[i] is Compacted ==> replaces_history(items[i]) {
        if has_legacy_compaction(all) {
            let i = choose|i: int|
                0 <= i < all.len() && (#[trigger] all[i] matches RolloutItemView::Compacted(c)
                    && c.replacement_history is None);
            if i < start {
                assert(all[i] == items[i]);
            } else {
                assert(all[i] == body[i - start - 1]);
                assert(in_turn(body[i - start - 1], id));
            }
        }
        no_legacy_behind(all, walked(all).suffix_from as int);
    }
}

proof fn plain_turn(id: Seq<char>, window: Option<i64>, body: Seq<RolloutItemView>)
    requires
        one_turn(body, id),
    ensures
        plain_records(with_turn(Seq::empty(), id, window, body)),
{
    let turn = with_turn(Seq::empty(), id, window, body);
    assert forall|i: int| 0 <= i < turn.len() implies !(#[trigger] turn[i] is Compacted) && !(
    turn[i] matches RolloutItemView::EventMsg(EventMsgView::ThreadRolledBack { .. })) by {
        if i > 0 {
            assert(turn[i] == body[i - 1]);
            assert(in_turn(body[i - 1], id));
        }
    }
}

/// What a rollout comes to once records stand behind it that leave nothing
/// behind in the walk.
proof fn quiet_tail(
    items: Seq<RolloutItemView>,
    tail: Seq<RolloutItemView>,
    summary_prefix: Seq<char>,
)
    requires
        items.len() + tail.len() <= usize::MAX,
        walk(items + tail, items.len() as int) == walk_start(),
        forall|i: int| 0 <= i < tail.len() ==> !(#[trigger] tail[i] is Compacted),
    ensures
        ({
            let before = rebuilt(items, summary_prefix);
            let after = rebuilt(items + tail, summary_prefix);
            let state = walked(items);
            let base = match state.base {
                Some(at) => shown_items(compacted_at(items, at).replacement_history.unwrap()),
                None => Seq::empty(),
            };
            let all = applied(base, items.skip(state.suffix_from as int), summary_prefix);
            &&& before.history == without_snapshots(all)
            &&& after == (RolloutReconstructionView {
                history: without_snapshots(applied(all, tail, summary_prefix)),
                ..before
            })
        }),
{
    walk_past(items, tail, 0);
    walk_refers(items, 0);
    let more = items + tail;
    let state = walked(items);
    assert(walked(more) == state);
    let suffix = items.skip(state.suffix_from as int);
    assert(more.skip(state.suffix_from as int) =~= suffix + tail);
    let base = match state.base {
        Some(at) => shown_items(compacted_at(items, at).replacement_history.unwrap()),
        None => Seq::empty(),
    };
    applied_on(base, suffix, tail, summary_prefix);
    if let Some(at) = state.base {
        assert(more[at as int] == items[at as int]);
    }
    if let Some(at) = state.settings {
        assert(more[at as int] == items[at as int]);
    }
    if let ReferenceContext::Latest(at) = state.reference {
        assert(more[at as int] == items[at as int]);
    }
    if let Some(at) = state.summary {
        assert(more[at as int] == items[at as int]);
    }
    if has_legacy_compaction(suffix) {
        let i = choose|i: int|
            0 <= i < suffix.len() && (#[trigger] suffix[i] matches RolloutItemView::Compacted(c)
                && c.replacement_history is None);
        assert((suffix + tail)[i] == suffix[i]);
    }
    if has_legacy_compaction(suffix + tail) {
        let i = choose|i: int|
            0 <= i < (suffix + tail).len() && (#[trigger] (suffix + tail)[i] matches RolloutItemView::Compacted(c)
                && c.replacement_history is None);
        if i < suffix.len() {
            assert(suffix[i] == (suffix + tail)[i]);
        } else {
            assert(tail[i - suffix.len()] == (suffix + tail)[i]);
        }
    }
}

/// A turn in which the user says nothing adds to the history, and leaves all
/// else as it was.
pub proof fn silent_turn_only_adds_to_the_history(
    items: Seq<RolloutItemView>,
    id: Seq<char>,
    window: Option<i64>,
    body: Seq<RolloutItemView>,
    summary_prefix: Seq<char>,
)
    requires
        items.len() + 1 + body.len() <= usize::MAX,
        one_turn(body, id),
        !user_speaks(body),
    ensures
        ({
            let before = rebuilt(items, summary_prefix);
            rebuilt(with_turn(items, id, window, body), summary_prefix) == (
            RolloutReconstructionView {
                history: before.history + prompt_of(response_items(body)),
                ..before
            })
        }),
{
    let tail = with_turn(Seq::empty(), id, window, body);
    let all = with_turn(items, id, window, body);
    assert(all =~= items + tail);
    let start = items.len() as int;
    let end = all.len() as int;
    assert forall|i: int| start < i < end implies in_turn(#[trigger] all[i], id) by {
        assert(all[i] == body[i - start - 1]);
    }
    assert(walk(all, end) == walk_start());
    turn_walk(all, start, end, id, start + 1);
    let state = walk(all, start + 1);
    if let Some(segment) = state.segment {
        if segment.counts_as_user_turn {
            let i = choose|i: int|
                start < i < end && #[trigger] all[i] == RolloutItemView::EventMsg(EventMsgView::UserMessage);
            assert(body[i - start - 1] == all[i]);
        }
        if let Some(at) = segment.turn {
            assert(in_turn(all[at as int], id));
        }
    }
    assert(walk(all, start) == walk_start());
    plain_turn(id, window, body);
    quiet_tail(items, tail, summary_prefix);
    let done = walked(items);
    let base = match done.base {
        Some(at) => shown_items(compacted_at(items, at).replacement_history.unwrap()),
        None => Seq::empty(),
    };
    plain_tail_applied(
        applied(base, items.skip(done.suffix_from as int), summary_prefix),
        tail,
        summary_prefix,
    );
    turn_items(id, window, body);
}

proof fn turn_items(id: Seq<char>, window: Option<i64>, body: Seq<RolloutItemView>)
    ensures
        response_items(with_turn(Seq::empty(), id, window, body)) == response_items(body),
    decreases body.len(),
{
    let turn = with_turn(Seq::empty(), id, window, body);
    if body.len() == 0 {
        assert(turn.drop_last() =~= Seq::<RolloutItemView>::empty());
        assert(turn.last() is EventMsg);
        reveal_with_fuel(response_items, 2);
    } else {
        turn_items(id, window, body.drop_last());
        assert(turn.drop_last() =~= with_turn(Seq::empty(), id, window, body.drop_last()));
    }
}

// ------------------------------------------------------------------------- rollbacks

/// A message of the user.
pub open spec fn asks(item: ResponseItemView) -> bool {
    item.kind matches ItemKindView::Message { role, .. } && role == "user"@
}

/// How many messages of the user there are.
pub open spec fn asked(items: Seq<ResponseItemView>) -> nat
    decreases items.len(),
{
    if items.len() == 0 {
        0
    } else {
        (if asks(items[0]) {
            1nat
        } else {
            0nat
        }) + asked(items.drop_first())
    }
}

/// One history is another one without its last turns: it is a beginning of it,
/// what is gone starts with a message of the user, and holds as many of them as
/// there were turns to take back, or all that there were.
pub open spec fn cut_back(
    before: Seq<ResponseItemView>,
    turns: nat,
    after: Seq<ResponseItemView>,
) -> bool {
    &&& after.is_prefix_of(before)
    &&& after.len() < before.len() ==> asks(before[after.len() as int])
    &&& asked(before.skip(after.len() as int)) == if turns <= asked(before) {
        turns
    } else {
        asked(before)
    }
}

proof fn asked_together(first: Seq<ResponseItemView>, rest: Seq<ResponseItemView>)
    ensures
        asked(first + rest) == asked(first) + asked(rest),
    decreases first.len(),
{
    if first.len() == 0 {
        assert(first + rest =~= rest);
    } else {
        asked_together(first.drop_first(), rest);
        assert((first + rest).drop_first() =~= first.drop_first() + rest);
    }
}

proof fn asked_is_user_turns(items: Seq<ResponseItemView>)
    ensures
        asked(items) == user_turns(items),
    decreases items.len(),
{
    if items.len() > 0 {
        asked_is_user_turns(items.drop_last());
        asked_together(items.drop_last(), seq![items.last()]);
        assert(items.drop_last() + seq![items.last()] =~= items);
        assert(seq![items.last()].drop_first() =~= Seq::<ResponseItemView>::empty());
        reveal_with_fuel(asked, 2);
    }
}

proof fn snapshots_together(first: Seq<ResponseItemView>, rest: Seq<ResponseItemView>)
    ensures
        without_snapshots(first + rest) == without_snapshots(first) + without_snapshots(rest),
    decreases rest.len(),
{
    if rest.len() == 0 {
        assert(first + rest =~= first);
        assert(without_snapshots(first) + without_snapshots(rest) =~= without_snapshots(first));
    } else {
        snapshots_together(first, rest.drop_last());
        assert((first + rest).drop_last() =~= first + rest.drop_last());
        assert(without_snapshots(first + rest) =~= without_snapshots(first) + without_snapshots(
            rest,
        ));
    }
}

proof fn asked_without_snapshots(items: Seq<ResponseItemView>)
    ensures
        asked(without_snapshots(items)) == asked(items),
    decreases items.len(),
{
    if items.len() > 0 {
        let front = items.drop_last();
        asked_without_snapshots(front);
        assert(front + seq![items.last()] =~= items);
        asked_together(front, seq![items.last()]);
        if !(items.last().kind is GhostSnapshot) {
            asked_together(without_snapshots(front), seq![items.last()]);
            assert(without_snapshots(front) + seq![items.last()] =~= without_snapshots(items));
        } else {
            assert(seq![items.last()].drop_first() =~= Seq::<ResponseItemView>::empty());
            reveal_with_fuel(asked, 2);
        }
    }
}

proof fn cut_starts_with_the_user(items: Seq<ResponseItemView>, turns: nat)
    ensures
        without_last_turns(items, turns).len() < items.len() ==> by_user(
            items[without_last_turns(items, turns).len() as int],
        ),
    decreases turns,
{
    let cut = last_by_user(items);
    last_by_user_bound(items);
    if turns > 0 && cut < items.len() {
        without_last_turns_is_prefix(items.take(cut), (turns - 1) as nat);
        cut_starts_with_the_user(items.take(cut), (turns - 1) as nat);
        let kept = without_last_turns(items.take(cut), (turns - 1) as nat);
        if kept.len() == cut {
            assert(by_user(items[cut]));
        } else {
            assert(items.take(cut)[kept.len() as int] == items[kept.len() as int]);
        }
    }
}

proof fn taken_back(items: Seq<ResponseItemView>, turns: nat)
    ensures
        cut_back(
            without_snapshots(items),
            turns,
            without_snapshots(without_last_turns(items, turns)),
        ),
{
    let kept = without_last_turns(items, turns);
    without_last_turns_is_prefix(items, turns);
    cut_starts_with_the_user(items, turns);
    rollback_drops_exactly_those_turns(items, turns);
    let gone = items.skip(kept.len() as int);
    assert(items =~= kept + gone);
    snapshots_together(kept, gone);
    asked_together(kept, gone);
    asked_is_user_turns(items);
    asked_is_user_turns(kept);
    asked_without_snapshots(gone);
    asked_without_snapshots(items);
    let before = without_snapshots(items);
    let after = without_snapshots(kept);
    assert(before.take(after.len() as int) =~= after);
    assert(before.skip(after.len() as int) =~= without_snapshots(gone));
    if after.len() < before.len() {
        assert(gone.len() > 0) by {
            if gone.len() == 0 {
                assert(without_snapshots(gone).len() == 0);
            }
        }
        assert(gone[0] == items[kept.len() as int]);
        assert(gone =~= seq![gone[0]] + gone.skip(1));
        snapshots_together(seq![gone[0]], gone.skip(1));
        assert(seq![gone[0]].drop_last() =~= Seq::<ResponseItemView>::empty());
        reveal_with_fuel(without_snapshots, 2);
        assert(without_snapshots(seq![gone[0]]) =~= seq![gone[0]]);
        assert(before[after.len() as int] == gone[0]);
    }
}

/// A rollback takes turns off the history that the rollout had, in a rollout
/// whose history is never replaced.
pub proof fn rollback_cuts_the_history_back(
    items: Seq<RolloutItemView>,
    num_turns: u32,
    summary_prefix: Seq<char>,
)
    requires
        items.len() < usize::MAX,
        nothing_replaced(items),
    ensures
        cut_back(
            rebuilt(items, summary_prefix).history,
            num_turns as nat,
            rebuilt(
                items.push(
                    RolloutItemView::EventMsg(EventMsgView::ThreadRolledBack { num_turns }),
                ),
                summary_prefix,
            ).history,
        ),
{
    let rollback = RolloutItemView::EventMsg(EventMsgView::ThreadRolledBack { num_turns });
    let more = items.push(rollback);
    assert forall|i: int| 0 <= i < more.len() implies !replaces_history(#[trigger] more[i]) by {
        if i < items.len() {
            assert(more[i] == items[i]);
        }
    }
    replay_in_order(items, summary_prefix);
    replay_in_order(more, summary_prefix);
    assert(more.drop_last() =~= items);
    taken_back(applied(Seq::empty(), items, summary_prefix), num_turns as nat);
}

/// A turn that is taken back at once leaves nothing but what of the history
/// stands before its last message of the user: the settings, the context and the
/// summary are those from before the turn, whatever stood there.
pub proof fn turn_taken_back_leaves_no_settings(
    items: Seq<RolloutItemView>,
    id: Seq<char>,
    window: Option<i64>,
    body: Seq<RolloutItemView>,
    summary_prefix: Seq<char>,
)
    requires
        items.len() + 2 + body.len() <= usize::MAX,
        one_turn(body, id),
        user_speaks(body),
    ensures
        ({
            let before = rebuilt(items, summary_prefix);
            let after = rebuilt(
                with_turn(items, id, window, body).push(
                    RolloutItemView::EventMsg(EventMsgView::ThreadRolledBack { num_turns: 1 }),
                ),
                summary_prefix,
            );
            &&& cut_back(before.history + prompt_of(response_items(body)), 1, after.history)
            &&& after == (RolloutReconstructionView { history: after.history, ..before })
        }),
{
    let rollback = RolloutItemView::EventMsg(EventMsgView::ThreadRolledBack { num_turns: 1 });
    let turn = with_turn(Seq::empty(), id, window, body);
    let tail = turn.push(rollback);
    let all = with_turn(items, id, window, body).push(rollback);
    assert(all =~= items + tail);
    let start = items.len() as int;
    let end = all.len() - 1;
    assert forall|i: int| start < i < end implies in_turn(#[trigger] all[i], id) by {
        assert(all[i] == body[i - start - 1]);
    }
    assert(walk(all, all.len() as int) == walk_start());
    assert(all[end] == rollback);
    assert(walk(all, end) == Replay { pending_rollback_turns: 1, ..walk_start() });
    turn_walk(all, start, end, id, start + 1);
    let state = walk(all, start + 1);
    let said = choose|i: int|
        0 <= i < body.len() && (#[trigger] body[i]) == RolloutItemView::EventMsg(
            EventMsgView::UserMessage,
        );
    assert(all[start + 1 + said] == body[said]);
    let segment = state.segment.unwrap();
    assert(segment.counts_as_user_turn);
    if let Some(at) = segment.turn {
        assert(in_turn(all[at as int], id));
    }
    assert(walk(all, start) == walk_start());
    plain_turn(id, window, body);
    assert forall|i: int| 0 <= i < tail.len() implies !(#[trigger] tail[i] is Compacted) by {
        if i < turn.len() {
            assert(tail[i] == turn[i]);
        }
    }
    quiet_tail(items, tail, summary_prefix);
    let done = walked(items);
    let base = match done.base {
        Some(at) => shown_items(compacted_at(items, at).replacement_history.unwrap()),
        None => Seq::empty(),
    };
    let history = applied(base, items.skip(done.suffix_from as int), summary_prefix);
    assert(tail.drop_last() =~= turn);
    plain_tail_applied(history, turn, summary_prefix);
    turn_items(id, window, body);
    taken_back(applied(history, turn, summary_prefix), 1);
}

// ----------------------------------------------------------------------- compactions

proof fn unsettled_walk(all: Seq<RolloutItemView>, at: int, from: int)
    requires
        0 <= at < from <= all.len(),
        forall|i: int| at < i < all.len() ==> !(#[trigger] all[i] is Compacted),
    ensures
        walk(all, from).base is None,
        walk(all, from).summary is None,
        walk(all, from).segment matches Some(segment) ==> segment.base is None,
    decreases all.len() - from,
{
    if from < all.len() {
        unsettled_walk(all, at, from + 1);
        assert(!(all[from] is Compacted));
    }
}

proof fn found_summary_stays(items: Seq<RolloutItemView>, from: int, to: int)
    requires
        0 <= from <= to <= items.len(),
        walk(items, to).summary is Some,
    ensures
        walk(items, from).summary == walk(items, to).summary,
        walk(items, from).summary_items == walk(items, to).summary_items,
    decreases to - from,
{
    if from < to {
        found_summary_stays(items, from + 1, to);
    }
}

/// The summary of the newest compaction that has one is told, with the number of
/// items that it put in place of the history, whatever stands around it.
pub proof fn newest_summary_is_told(
    items: Seq<RolloutItemView>,
    compacted: CompactedItemView,
    tail: Seq<RolloutItemView>,
    summary_prefix: Seq<char>,
)
    requires
        items.len() + 1 + tail.len() <= usize::MAX,
        !text::blank(compacted.message),
        compacted.replacement_history matches Some(history) ==> history.len() <= usize::MAX,
        forall|i: int| 0 <= i < tail.len() ==> !(#[trigger] tail[i] is Compacted),
    ensures
        ({
            let out = rebuilt(
                items.push(RolloutItemView::Compacted(compacted)) + tail,
                summary_prefix,
            );
            &&& out.latest_compaction_summary == Some(text::collapse(compacted.message))
            &&& match compacted.replacement_history {
                Some(history) => out.latest_compaction_replacement_items matches Some(count)
                    && count == history.len(),
                None => out.latest_compaction_replacement_items is None,
            }
        }),
{
    let all = items.push(RolloutItemView::Compacted(compacted)) + tail;
    let at = items.len() as int;
    assert(all[at] == RolloutItemView::Compacted(compacted));
    assert forall|i: int| at < i < all.len() implies !(#[trigger] all[i] is Compacted) by {
        assert(all[i] == tail[i - at - 1]);
    }
    unsettled_walk(all, at, at + 1);
    text::collapse_empty_iff_blank(compacted.message);
    found_summary_stays(all, 0, at);
}

/// A rollout without compactions has no summary to tell.
pub proof fn without_compaction_there_is_no_summary(
    items: Seq<RolloutItemView>,
    summary_prefix: Seq<char>,
)
    requires
        forall|i: int| 0 <= i < items.len() ==> !(#[trigger] items[i] is Compacted),
    ensures
        rebuilt(items, summary_prefix).latest_compaction_summary is None,
        rebuilt(items, summary_prefix).latest_compaction_replacement_items is None,
{
    uncompacted_walk(items, 0);
}

proof fn uncompacted_walk(items: Seq<RolloutItemView>, from: int)
    requires
        0 <= from <= items.len(),
        forall|i: int| 0 <= i < items.len() ==> !(#[trigger] items[i] is Compacted),
    ensures
        walk(items, from).summary is None,
        walk(items, from).summary_items is None,
    decreases items.len() - from,
{
    if from < items.len() {
        uncompacted_walk(items, from + 1);
        assert(!(items[from] is Compacted));
    }
}

/// Right behind a compaction there is no context to compare with, so that the
/// next turn is told everything anew.
pub proof fn compaction_clears_the_context(
    items: Seq<RolloutItemView>,
    compacted: CompactedItemView,
    summary_prefix: Seq<char>,
)
    requires
        items.len() < usize::MAX,
        nothing_rolled_back(items),
    ensures
        rebuilt(
            items.push(RolloutItemView::Compacted(compacted)),
            summary_prefix,
        ).reference_context_item is None,
{
    let all = items.push(RolloutItemView::Compacted(compacted));
    assert forall|i: int| 0 <= i < all.len() implies !rolls_back(#[trigger] all[i]) by {
        if i < items.len() {
            assert(all[i] == items[i]);
        }
    }
    cleared_walk(all, 0);
}

proof fn cleared_walk(all: Seq<RolloutItemView>, from: int)
    requires
        all.len() > 0,
        all.last() is Compacted,
        nothing_rolled_back(all),
        0 <= from < all.len(),
    ensures
        walk(all, from).pending_rollback_turns == 0,
        walk(all, from).reference is Cleared || (walk(all, from).reference is NeverSet && (walk(
            all,
            from,
        ).segment matches Some(segment) && segment.reference is Cleared)),
    decreases all.len() - from,
{
    assert(!rolls_back(all[from]));
    if from < all.len() - 1 {
        cleared_walk(all, from + 1);
    } else {
        assert(walk(all, all.len() as int) == walk_start());
    }
}

/// The same holds where turns were taken back before: a session goes on from the
/// replacement history of the turn that it is in, whatever stood before that
/// turn.
pub proof fn session_goes_on_from_the_compacted_turn(
    items: Seq<RolloutItemView>,
    id: Seq<char>,
    window: Option<i64>,
    body: Seq<RolloutItemView>,
    replacement: Seq<ResponseItemView>,
    message: Seq<char>,
    tail: Seq<RolloutItemView>,
    summary_prefix: Seq<char>,
)
    requires
        items.len() + 2 + body.len() + tail.len() <= usize::MAX,
        one_turn(body, id),
        one_turn(tail, id),
    ensures
        rebuilt(
            with_turn(items, id, window, body).push(
                RolloutItemView::Compacted(
                    CompactedItemView { message, replacement_history: Some(replacement) },
                ),
            ) + tail,
            summary_prefix,
        ).history == prompt_of(replacement) + prompt_of(response_items(tail)),
{
    let compaction = RolloutItemView::Compacted(
        CompactedItemView { message, replacement_history: Some(replacement) },
    );
    let all = with_turn(items, id, window, body).push(compaction) + tail;
    let start = items.len() as int;
    let at = start + 1 + body.len();
    assert(all[at] == compaction);
    assert forall|i: int| start < i < all.len() && i != at implies in_turn(#[trigger] all[i], id) by {
        if i < at {
            assert(all[i] == body[i - start - 1]);
        } else {
            assert(all[i] == tail[i - at - 1]);
        }
    }
    compacted_turn_walk(all, start, at, id, start + 1);
    let state = walk(all, start + 1);
    if let Some(segment) = state.segment {
        if let Some(turn) = segment.turn {
            assert(in_turn(all[turn as int], id));
        }
    }
    assert(all[start] is EventMsg);
    assert(walk(all, start).base == Some(at as usize));
    assert(walk(all, start).suffix_from <= at + 1);
    found_base_stays(all, at, 0, start);
    let done = walked(all);
    let from = done.suffix_from as int;
    if from <= at {
        applied_past_replacement(shown_items(replacement), all, at, from, summary_prefix);
    }
    assert(all.skip(at + 1) =~= tail);
    assert forall|i: int| 0 <= i < tail.len() implies !(#[trigger] tail[i] is Compacted) && !(
    tail[i] matches RolloutItemView::EventMsg(EventMsgView::ThreadRolledBack { .. })) by {
        assert(in_turn(tail[i], id));
    }
    plain_tail_applied(shown_items(replacement), tail, summary_prefix);
    kept_is_prompt(replacement);
}

proof fn compacted_turn_walk(
    all: Seq<RolloutItemView>,
    start: int,
    at: int,
    id: Seq<char>,
    from: int,
)
    requires
        all.len() <= usize::MAX,
        0 <= start < at < all.len(),
        replaces_history(all[at]),
        forall|i: int| start < i < all.len() && i != at ==> in_turn(#[trigger] all[i], id),
        start < from <= all.len(),
    ensures
        ({
            let state = walk(all, from);
            &&& state.pending_rollback_turns == 0
            &&& state.base is None
            &&& state.suffix_from == if from <= at {
                at + 1
            } else {
                0
            }
            &&& (state.segment matches Some(segment) ==> (segment.turn matches Some(turn) ==> from <= turn
                < all.len() && turn != at))
            &&& from > at ==> (state.segment matches Some(segment) ==> segment.base is None)
            &&& from <= at ==> (state.segment matches Some(segment) && segment.base == Some(
                at as usize,
            ))
        }),
    decreases all.len() - from,
{
    if from < all.len() {
        compacted_turn_walk(all, start, at, id, from + 1);
        if from != at {
            assert(in_turn(all[from], id));
        }
    }
}

proof fn found_base_stays(items: Seq<RolloutItemView>, at: int, from: int, to: int)
    requires
        items.len() <= usize::MAX,
        0 <= from <= to <= at < items.len(),
        walk(items, to).base == Some(at as usize),
        walk(items, to).suffix_from <= at + 1,
    ensures
        walk(items, from).base == Some(at as usize),
        walk(items, from).suffix_from <= at + 1,
    decreases to - from,
{
    if from < to {
        found_base_stays(items, at, from + 1, to);
    }
}

/// The item is a message of the user with this text.
pub open spec fn says(item: ResponseItemView, said: Seq<char>) -> bool {
    &&& item.kind == ItemKindView::Message {
        role: "user"@,
        content: seq![ContentItemView::InputText { text: said }],
    }
    &&& item.turn == TurnItemView::UserMessage { message: said }
}

/// The texts that a user has said in a history are those of the user messages in
/// it, in their order, but for those that start with the summary prefix on a line
/// of its own.
pub proof fn user_texts_are_what_was_said(
    items: Seq<ResponseItemView>,
    item: ResponseItemView,
    message: Seq<char>,
    summary_prefix: Seq<char>,
)
    ensures
        user_texts(Seq::empty(), summary_prefix).len() == 0,
        item.turn == (TurnItemView::UserMessage { message }) && !(summary_prefix
            + "\n"@).is_prefix_of(message) ==> user_texts(items.push(item), summary_prefix)
            == user_texts(items, summary_prefix).push(message),
        item.turn == (TurnItemView::UserMessage { message }) && (summary_prefix
            + "\n"@).is_prefix_of(message) ==> user_texts(items.push(item), summary_prefix)
            == user_texts(items, summary_prefix),
        !(item.turn is UserMessage) ==> user_texts(items.push(item), summary_prefix) == user_texts(
            items,
            summary_prefix,
        ),
{
    assert(items.push(item).drop_last() =~= items);
}

proof fn all_fit(messages: Seq<Seq<char>>, budget: nat)
    requires
        total_tokens(messages) < budget,
    ensures
        newest_within(messages, budget) == messages,
    decreases messages.len(),
{
    if messages.len() > 0 {
        let tokens = numbers::token_count(messages.last());
        all_fit(messages.drop_last(), (budget - tokens) as nat);
        assert(messages.drop_last().push(messages.last()) =~= messages);
    } else {
        assert(newest_within(messages, budget) =~= messages);
    }
}

/// None of the records is a snapshot.
pub open spec fn without_snapshot_records(items: Seq<RolloutItemView>) -> bool {
    forall|i: int|
        0 <= i < items.len() ==> (#[trigger] items[i] matches RolloutItemView::ResponseItem(item)
            ==> !(item.kind is GhostSnapshot))
}

proof fn no_snapshots_to_drop(items: Seq<ResponseItemView>)
    requires
        forall|i: int| 0 <= i < items.len() ==> !((#[trigger] items[i]).kind is GhostSnapshot),
    ensures
        without_snapshots(items) == items,
    decreases items.len(),
{
    if items.len() > 0 {
        no_snapshots_to_drop(items.drop_last());
        assert(items.drop_last().push(items.last()) =~= items);
    }
}

proof fn no_snapshots_applied(items: Seq<RolloutItemView>, summary_prefix: Seq<char>)
    requires
        nothing_replaced(items),
        without_snapshot_records(items),
    ensures
        ({
            let all = applied(Seq::empty(), items, summary_prefix);
            forall|i: int| 0 <= i < all.len() ==> !((#[trigger] all[i]).kind is GhostSnapshot)
        }),
    decreases items.len(),
{
    if items.len() > 0 {
        let front = items.drop_last();
        assert forall|i: int| 0 <= i < front.len() implies !replaces_history(#[trigger] front[i]) by {
            assert(front[i] == items[i]);
        }
        assert forall|i: int| 0 <= i < front.len() implies (#[trigger] front[i] matches
            RolloutItemView::ResponseItem(item) ==> !(item.kind is GhostSnapshot)) by {
            assert(front[i] == items[i]);
        }
        no_snapshots_applied(front, summary_prefix);
        let before = applied(Seq::empty(), front, summary_prefix);
        let last = items[items.len() - 1];
        assert(!replaces_history(last));
        if let RolloutItemView::EventMsg(EventMsgView::ThreadRolledBack { num_turns }) = last {
            without_last_turns_is_prefix(before, num_turns as nat);
        }
    }
}

/// A compaction without a replacement history leaves messages of the user alone.
/// The last one is its summary, or a note where it has none. Before it stand the
/// newest things that the user had said, and they are within the budget; all of
/// them are there where they are well within it.
pub proof fn old_compaction_keeps_what_was_said(
    items: Seq<RolloutItemView>,
    message: Seq<char>,
    summary_prefix: Seq<char>,
)
    requires
        items.len() < usize::MAX,
        nothing_replaced(items),
        without_snapshot_records(items),
    ensures
        ({
            let said = user_texts(rebuilt(items, summary_prefix).history, summary_prefix);
            let after = rebuilt(
                items.push(
                    RolloutItemView::Compacted(
                        CompactedItemView { message, replacement_history: None },
                    ),
                ),
                summary_prefix,
            ).history;
            let kept = after.len() - 1;
            &&& 0 <= kept <= said.len()
            &&& says(
                after.last(),
                if text::blank(message) {
                    "(no summary available)"@
                } else {
                    message
                },
            )
            &&& forall|i: int|
                1 <= i < kept ==> says(#[trigger] after[i], said[said.len() - kept + i])
            &&& kept > 0 ==> total_tokens(said.skip(said.len() - kept + 1)) <= 20_000
            &&& total_tokens(said) < 20_000 ==> kept == said.len() && (forall|i: int|
                0 <= i < kept ==> says(#[trigger] after[i], said[i]))
        }),
{
    let record = RolloutItemView::Compacted(
        CompactedItemView { message, replacement_history: None },
    );
    let more = items.push(record);
    assert forall|i: int| 0 <= i < more.len() implies !replaces_history(#[trigger] more[i]) by {
        if i < items.len() {
            assert(more[i] == items[i]);
        }
    }
    assert forall|i: int| 0 <= i < more.len() implies (#[trigger] more[i] matches
        RolloutItemView::ResponseItem(item) ==> !(item.kind is GhostSnapshot)) by {
        if i < items.len() {
            assert(more[i] == items[i]);
        }
    }
    replay_in_order(items, summary_prefix);
    replay_in_order(more, summary_prefix);
    no_snapshots_applied(items, summary_prefix);
    no_snapshots_applied(more, summary_prefix);
    no_snapshots_to_drop(applied(Seq::empty(), items, summary_prefix));
    no_snapshots_to_drop(applied(Seq::empty(), more, summary_prefix));
    assert(more.drop_last() =~= items);
    let said = user_texts(rebuilt(items, summary_prefix).history, summary_prefix);
    let budget = COMPACT_USER_MESSAGE_MAX_TOKENS as nat;
    let texts = newest_within(said, budget);
    newest_within_budget(said, budget);
    let after = rebuilt(more, summary_prefix).history;
    assert(after == (Seq::empty() + user_messages(texts)).push(
        user_message(summary_or_note(message)),
    ));
    assert(Seq::<ResponseItemView>::empty() + user_messages(texts) =~= user_messages(texts));
    if texts.len() > 0 {
        assert(texts.skip(1) =~= said.skip(said.len() - texts.len() + 1));
    }
    if total_tokens(said) < budget {
        all_fit(said, budget);
    }
}

/// A record is the context of some other turn than this one.
pub open spec fn context_of_another_turn(item: RolloutItemView, id: Seq<char>) -> bool {
    item matches RolloutItemView::TurnContext(context) && context.turn_id is Some
        && context.turn_id != Some(id)
}

proof fn other_contexts_change_nothing(
    all: Seq<RolloutItemView>,
    at: int,
    id: Seq<char>,
    from: int,
)
    requires
        0 <= from <= at,
        at + 2 == all.len() <= usize::MAX,
        all[at] matches RolloutItemView::TurnContext(context) && context.turn_id == Some(id),
        all[at + 1] == RolloutItemView::EventMsg(EventMsgView::UserMessage),
        forall|i: int| 0 <= i < at ==> context_of_another_turn(#[trigger] all[i], id),
    ensures
        walk(all, from) == walk(all, at),
        walk(all, at) == (Replay {
            segment: Some(
                ReplaySegment {
                    turn: Some(at as usize),
                    counts_as_user_turn: true,
                    settings: Some(at as usize),
                    reference: ReferenceContext::Latest(at as usize),
                    base: None,
                },
            ),
            ..walk_start()
        }),
    decreases at - from,
{
    assert(walk(all, at + 2) == walk_start());
    assert(walk(all, at + 1).segment == Some(
        ReplaySegment { counts_as_user_turn: true, ..new_segment() },
    ));
    if from < at {
        other_contexts_change_nothing(all, at, id, from + 1);
        assert(context_of_another_turn(all[from], id));
    }
}

/// The settings of a turn are those of its own context: contexts of other turns in
/// front of it change nothing, although no start of a turn stands between them.
pub proof fn contexts_of_other_turns_do_not_count(
    items: Seq<RolloutItemView>,
    context: TurnContextItemView,
    id: Seq<char>,
    summary_prefix: Seq<char>,
)
    requires
        items.len() + 2 <= usize::MAX,
        context.turn_id == Some(id),
        forall|i: int| 0 <= i < items.len() ==> context_of_another_turn(#[trigger] items[i], id),
    ensures
        ({
            let all = items.push(RolloutItemView::TurnContext(context)).push(
                RolloutItemView::EventMsg(EventMsgView::UserMessage),
            );
            let out = rebuilt(all, summary_prefix);
            &&& out.previous_turn_settings == Some(
                PreviousTurnSettingsView { model: context.model },
            )
            &&& out.reference_context_item == Some(context)
        }),
{
    let all = items.push(RolloutItemView::TurnContext(context)).push(
        RolloutItemView::EventMsg(EventMsgView::UserMessage),
    );
    let at = items.len() as int;
    assert forall|i: int| 0 <= i < at implies context_of_another_turn(#[trigger] all[i], id) by {
        assert(all[i] == items[i]);
    }
    other_contexts_change_nothing(all, at, id, 0);
    assert(all[at] == RolloutItemView::TurnContext(context));
    if has_legacy_compaction(all) {
        let i = choose|i: int|
            0 <= i < all.len() && (#[trigger] all[i] matches RolloutItemView::Compacted(c)
                && c.replacement_history is None);
        if i < at {
            assert(context_of_another_turn(all[i], id));
        }
    }
    no_legacy_behind(all, walked(all).suffix_from as int);
}

/// The end of a turn, complete or aborted, tells which turn it was: a context of
/// another turn in front of it leaves no settings, and one of this turn does.
pub proof fn end_of_a_turn_tells_its_id(
    context: TurnContextItemView,
    id: Seq<char>,
    summary_prefix: Seq<char>,
)
    requires
        context.turn_id is Some,
    ensures
        ({
            let said = RolloutItemView::EventMsg(EventMsgView::UserMessage);
            let complete = RolloutItemView::EventMsg(EventMsgView::TurnComplete { turn_id: id });
            let aborted = RolloutItemView::EventMsg(
                EventMsgView::TurnAborted { aborted_turn_id: Some(id) },
            );
            let unknown = RolloutItemView::EventMsg(
                EventMsgView::TurnAborted { aborted_turn_id: None },
            );
            let start = seq![RolloutItemView::TurnContext(context), said];
            let settings = Some(PreviousTurnSettingsView { model: context.model });
            &&& rebuilt(start.push(complete), summary_prefix).previous_turn_settings
                == if context.turn_id == Some(id) { settings } else { None }
            &&& rebuilt(start.push(aborted), summary_prefix).previous_turn_settings
                == if context.turn_id == Some(id) { settings } else { None }
            &&& rebuilt(start.push(unknown), summary_prefix).previous_turn_settings == settings
            &&& rebuilt(start, summary_prefix).previous_turn_settings == settings
        }),
{
    reveal_with_fuel(walk, 4);
    let said = RolloutItemView::EventMsg(EventMsgView::UserMessage);
    let complete = RolloutItemView::EventMsg(EventMsgView::TurnComplete { turn_id: id });
    let aborted = RolloutItemView::EventMsg(
        EventMsgView::TurnAborted { aborted_turn_id: Some(id) },
    );
    let unknown = RolloutItemView::EventMsg(EventMsgView::TurnAborted { aborted_turn_id: None });
    let start = seq![RolloutItemView::TurnContext(context), said];
    let first = start.push(complete);
    assert(first[2] == complete && first[1] == said && first[0] == start[0]);
    let second = start.push(aborted);
    assert(second[2] == aborted && second[1] == said && second[0] == start[0]);
    let third = start.push(unknown);
    assert(third[2] == unknown && third[1] == said && third[0] == start[0]);
}

/// Only its own start begins a turn: a start of another turn inside it changes
/// nothing, and its first context counts.
pub proof fn start_of_another_turn_begins_nothing(
    first: TurnContextItemView,
    second: TurnContextItemView,
    id: Seq<char>,
    other: Seq<char>,
    window: Option<i64>,
    summary_prefix: Seq<char>,
)
    requires
        first.turn_id == Some(id),
        second.turn_id == Some(id),
    ensures
        ({
            let all = seq![
                RolloutItemView::TurnContext(first),
                RolloutItemView::EventMsg(
                    EventMsgView::TurnStarted { turn_id: other, model_context_window: window },
                ),
                RolloutItemView::EventMsg(EventMsgView::UserMessage),
                RolloutItemView::TurnContext(second),
            ];
            rebuilt(all, summary_prefix).previous_turn_settings == Some(
                PreviousTurnSettingsView {
                    model: if other == id { second.model } else { first.model },
                },
            )
        }),
{
    reveal_with_fuel(walk, 5);
}

proof fn same_start_same_walk(
    a: Seq<RolloutItemView>,
    b: Seq<RolloutItemView>,
    size: int,
    from: int,
)
    requires
        0 <= from <= size <= a.len() <= usize::MAX,
        size <= b.len() <= usize::MAX,
        forall|i: int| 0 <= i < size ==> a[i] == #[trigger] b[i],
        walk(a, size) == walk(b, size),
        walk(a, size).segment is None,
    ensures
        walk(a, from) == walk(b, from),
        walk(a, from).segment matches Some(segment) ==> (segment.turn matches Some(at) ==> at
            < size),
    decreases size - from,
{
    if from < size {
        same_start_same_walk(a, b, size, from + 1);
        assert(a[from] == b[from]);
        let state = walk(a, from + 1);
        if let Some(segment) = state.segment {
            if let Some(at) = segment.turn {
                assert(a[at as int] == b[at as int]);
            }
        }
    }
}

/// Turns that are rolled back one after the other leave the same settings behind
/// as if they had been rolled back at once.
pub proof fn rollbacks_add_up(
    items: Seq<RolloutItemView>,
    some: u32,
    more: u32,
    summary_prefix: Seq<char>,
)
    requires
        items.len() + 2 <= usize::MAX,
        some + more <= u32::MAX,
    ensures
        ({
            let rolled = |turns: u32|
                RolloutItemView::EventMsg(EventMsgView::ThreadRolledBack { num_turns: turns });
            let twice = items.push(rolled(some)).push(rolled(more));
            let once = items.push(rolled((some + more) as u32));
            rebuilt(twice, summary_prefix).previous_turn_settings == rebuilt(
                once,
                summary_prefix,
            ).previous_turn_settings
        }),
{
    let first = RolloutItemView::EventMsg(EventMsgView::ThreadRolledBack { num_turns: some });
    let second = RolloutItemView::EventMsg(EventMsgView::ThreadRolledBack { num_turns: more });
    let both = RolloutItemView::EventMsg(
        EventMsgView::ThreadRolledBack { num_turns: (some + more) as u32 },
    );
    let twice = items.push(first).push(second);
    let once = items.push(both);
    let size = items.len() as int;
    assert(walk(twice, size + 2) == walk_start());
    assert(twice[size + 1] == second && twice[size] == first && once[size] == both);
    assert(walk(twice, size + 1) == Replay {
        pending_rollback_turns: more as usize,
        ..walk_start()
    });
    assert(walk(once, size + 1) == walk_start());
    assert forall|i: int| 0 <= i < size implies twice[i] == #[trigger] once[i] by {
        assert(twice[i] == items[i]);
    }
    same_start_same_walk(twice, once, size, 0);
    walk_refers(twice, 0);
    walk_refers(once, 0);
    if let Some(at) = walked(twice).settings {
        assert(walked(once).settings == Some(at));
        settings_stand_in_front(twice, size, 0);
        assert(twice[at as int] == once[at as int]);
    }
}

proof fn settings_stand_in_front(items: Seq<RolloutItemView>, size: int, from: int)
    requires
        0 <= from <= size <= items.len() <= usize::MAX,
        walk(items, size).segment is None,
        walk(items, size).settings is None,
    ensures
        walk(items, from).settings matches Some(at) ==> at < size,
        walk(items, from).segment matches Some(segment) ==> (segment.settings matches Some(at)
            ==> at < size),
    decreases size - from,
{
    if from < size {
        settings_stand_in_front(items, size, from + 1);
    }
}

} // verus!
