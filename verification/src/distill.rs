//! Distilling a session into a brief for a successor.

use vstd::prelude::*;

use crate::cli;
use crate::cli::DistillCompressionLevel;
use crate::cli::DistillMode;
use crate::cli::compression_level_name;
use crate::cli::distill_mode_name;
use crate::lines;
use crate::lines::holds_text;
use crate::lines::join;
use crate::lines::keep_first_occurrences;
use crate::numbers;
use crate::numbers::approx_token_count;
use crate::numbers::bool_str;
use crate::numbers::opt_i64_text;
use crate::numbers::opt_usize_text;
use crate::numbers::usize_text;
use crate::preview::NextTurnContextStrategy;
use crate::preview::NextTurnContextStrategyView;
use crate::preview::PromptPreviewSnapshot;
use crate::preview::PromptPreviewSnapshotView;
use crate::rollout::EventMsg;
use crate::rollout::EventMsgView;
use crate::rollout::ResponseItem;
use crate::rollout::ResponseItemView;
use crate::rollout::RolloutItem;
use crate::rollout::RolloutItemView;
use crate::rollout::RolloutLine;
use crate::rollout::RolloutLineView;
use crate::rollout::TurnItem;
use crate::rollout::TurnItemView;
use crate::search;
use crate::search::contains_text;
use crate::search::lower;
use crate::search::truncate_for_brief;
use crate::text;
use crate::text::cat2;
use crate::text::cat3;
use crate::text::cat4;
use crate::text::cat5;
use crate::text::cat9;
use crate::text::clone_opt;
use crate::text::clone_texts;
use crate::text::no_texts;
use crate::text::normalize_message;
use crate::text::opt_or;
use crate::text::or_opt;
use crate::text::push_text;
use crate::text::push_texts;
use crate::text::same_text;
use crate::text::trim;
use crate::types::RuntimeConfig;
use crate::types::RuntimeConfigView;
use crate::types::SessionSummary;
use crate::types::SessionSummaryView;

verus! {

/// What a session comes to when it is distilled.
#[derive(Debug, PartialEq, Eq)]
pub struct DistillAnalysis {
    pub latest_compaction_summary: Option<String>,
    pub recent_user_messages: Vec<String>,
    pub recent_assistant_messages: Vec<String>,
    pub durable_guidance: Vec<String>,
    pub pinned_facts: Vec<String>,
    pub prompt_reconstruction_notes: Vec<String>,
    pub recent_warnings: Vec<String>,
    pub recent_errors: Vec<String>,
}

/// What a [`DistillAnalysis`] stands for.
pub struct DistillAnalysisView {
    pub latest_compaction_summary: Option<Seq<char>>,
    pub recent_user_messages: Seq<Seq<char>>,
    pub recent_assistant_messages: Seq<Seq<char>>,
    pub durable_guidance: Seq<Seq<char>>,
    pub pinned_facts: Seq<Seq<char>>,
    pub prompt_reconstruction_notes: Seq<Seq<char>>,
    pub recent_warnings: Seq<Seq<char>>,
    pub recent_errors: Seq<Seq<char>>,
}

impl View for DistillAnalysis {
    type V = DistillAnalysisView;

    open spec fn view(&self) -> DistillAnalysisView {
        DistillAnalysisView {
            latest_compaction_summary: text::opt_text(self.latest_compaction_summary),
            recent_user_messages: text::texts(self.recent_user_messages@),
            recent_assistant_messages: text::texts(self.recent_assistant_messages@),
            durable_guidance: text::texts(self.durable_guidance@),
            pinned_facts: text::texts(self.pinned_facts@),
            prompt_reconstruction_notes: text::texts(self.prompt_reconstruction_notes@),
            recent_warnings: text::texts(self.recent_warnings@),
            recent_errors: text::texts(self.recent_errors@),
        }
    }
}

impl DeepView for DistillAnalysis {
    type V = DistillAnalysisView;

    open spec fn deep_view(&self) -> DistillAnalysisView {
        self@
    }
}

impl Clone for DistillAnalysis {
    fn clone(&self) -> (out: Self)
        ensures
            out@ == self@,
    {
        DistillAnalysis {
            latest_compaction_summary: clone_opt(&self.latest_compaction_summary),
            recent_user_messages: clone_texts(&self.recent_user_messages),
            recent_assistant_messages: clone_texts(&self.recent_assistant_messages),
            durable_guidance: clone_texts(&self.durable_guidance),
            pinned_facts: clone_texts(&self.pinned_facts),
            prompt_reconstruction_notes: clone_texts(&self.prompt_reconstruction_notes),
            recent_warnings: clone_texts(&self.recent_warnings),
            recent_errors: clone_texts(&self.recent_errors),
        }
    }
}

/// How much of a session a brief keeps.
#[derive(Debug, Clone, Copy, PartialEq, Eq, Structural)]
pub struct DistillCompressionPolicy {
    pub level: DistillCompressionLevel,
    pub minimum_recent_turns: usize,
    pub minimum_durable_guidance: usize,
    pub pinned_guidance_items: usize,
    pub pinned_tool_names: usize,
    pub compaction_summary_chars: usize,
    pub request_chars: usize,
    pub outcome_chars: usize,
    pub guidance_chars: usize,
    pub warning_chars: usize,
}

/// The policy of a compression level.
pub open spec fn policy_of(level: DistillCompressionLevel) -> DistillCompressionPolicy {
    match level {
        DistillCompressionLevel::Lossless => DistillCompressionPolicy {
            level,
            minimum_recent_turns: 24,
            minimum_durable_guidance: 32,
            pinned_guidance_items: 10,
            pinned_tool_names: 8,
            compaction_summary_chars: 3_600,
            request_chars: 640,
            outcome_chars: 640,
            guidance_chars: 900,
            warning_chars: 480,
        },
        DistillCompressionLevel::Balanced => DistillCompressionPolicy {
            level,
            minimum_recent_turns: 12,
            minimum_durable_guidance: 20,
            pinned_guidance_items: 6,
            pinned_tool_names: 5,
            compaction_summary_chars: 2_400,
            request_chars: 480,
            outcome_chars: 480,
            guidance_chars: 540,
            warning_chars: 320,
        },
        DistillCompressionLevel::Aggressive => DistillCompressionPolicy {
            level,
            minimum_recent_turns: 8,
            minimum_durable_guidance: 12,
            pinned_guidance_items: 4,
            pinned_tool_names: 3,
            compaction_summary_chars: 1_800,
            request_chars: 320,
            outcome_chars: 320,
            guidance_chars: 360,
            warning_chars: 240,
        },
    }
}

pub open spec fn at_least(value: usize, minimum: usize) -> usize {
    if value > minimum {
        value
    } else {
        minimum
    }
}

impl DistillCompressionPolicy {
    /// The policy of a compression level.
    pub fn for_level(level: DistillCompressionLevel) -> (out: Self)
        ensures
            out == policy_of(level),
    {
        match level {
            DistillCompressionLevel::Lossless => DistillCompressionPolicy {
                level,
                minimum_recent_turns: 24,
                minimum_durable_guidance: 32,
                pinned_guidance_items: 10,
                pinned_tool_names: 8,
                compaction_summary_chars: 3_600,
                request_chars: 640,
                outcome_chars: 640,
                guidance_chars: 900,
                warning_chars: 480,
            },
            DistillCompressionLevel::Balanced => DistillCompressionPolicy {
                level,
                minimum_recent_turns: 12,
                minimum_durable_guidance: 20,
                pinned_guidance_items: 6,
                pinned_tool_names: 5,
                compaction_summary_chars: 2_400,
                request_chars: 480,
                outcome_chars: 480,
                guidance_chars: 540,
                warning_chars: 320,
            },
            DistillCompressionLevel::Aggressive => DistillCompressionPolicy {
                level,
                minimum_recent_turns: 8,
                minimum_durable_guidance: 12,
                pinned_guidance_items: 4,
                pinned_tool_names: 3,
                compaction_summary_chars: 1_800,
                request_chars: 320,
                outcome_chars: 320,
                guidance_chars: 360,
                warning_chars: 240,
            },
        }
    }

    /// The number of recent turns to keep: those asked for, but not fewer than
    /// the policy wants.
    pub fn effective_recent_turns(self, requested_recent_turns: usize) -> (out: usize)
        ensures
            out == at_least(requested_recent_turns, self.minimum_recent_turns),
    {
        if requested_recent_turns > self.minimum_recent_turns {
            requested_recent_turns
        } else {
            self.minimum_recent_turns
        }
    }
}

/// The tighter a level, the less of everything its policy keeps.
pub proof fn policies_are_ordered()
    ensures
        ({
            let lossless = policy_of(DistillCompressionLevel::Lossless);
            let balanced = policy_of(DistillCompressionLevel::Balanced);
            let aggressive = policy_of(DistillCompressionLevel::Aggressive);
            keeps_more(lossless, balanced) && keeps_more(balanced, aggressive)
        }),
{
}

pub open spec fn keeps_more(a: DistillCompressionPolicy, b: DistillCompressionPolicy) -> bool {
    &&& a.minimum_recent_turns > b.minimum_recent_turns
    &&& a.minimum_durable_guidance > b.minimum_durable_guidance
    &&& a.pinned_guidance_items > b.pinned_guidance_items
    &&& a.pinned_tool_names > b.pinned_tool_names
    &&& a.compaction_summary_chars > b.compaction_summary_chars
    &&& a.request_chars > b.request_chars
    &&& a.outcome_chars > b.outcome_chars
    &&& a.guidance_chars > b.guidance_chars
    &&& a.warning_chars > b.warning_chars
}

// ------------------------------------------------------------- newest distinct texts

/// The newest distinct texts of a list, the newest first, behind those that
/// are kept already. At `limit` texts it stops; a limit of zero is none.
pub open spec fn newest_distinct(
    items: Seq<Seq<char>>,
    kept: Seq<Seq<char>>,
    limit: nat,
) -> Seq<Seq<char>>
    decreases items.len(),
{
    if items.len() == 0 {
        kept
    } else if kept.contains(items.last()) {
        newest_distinct(items.drop_last(), kept, limit)
    } else if kept.len() + 1 == limit {
        kept.push(items.last())
    } else {
        newest_distinct(items.drop_last(), kept.push(items.last()), limit)
    }
}

/// The last distinct texts of a list, in the order in which they last occur.
pub open spec fn tail_dedup(items: Seq<Seq<char>>, limit: nat) -> Seq<Seq<char>> {
    newest_distinct(items, Seq::empty(), limit).reverse()
}

/// The last distinct texts of a list, at most `limit` of them, in the order in
/// which they last occur. A limit of zero is none.
pub fn take_tail_dedup(items: &Vec<String>, limit: usize) -> (out: Vec<String>)
    ensures
        text::texts(out@) == tail_dedup(text::texts(items@), limit as nat),
{
    let mut kept = no_texts();
    let ghost all = text::texts(items@);
    let ghost goal = newest_distinct(all, Seq::empty(), limit as nat);
    let mut i: usize = items.len();
    assert(all.take(i as int) =~= all);
    let mut full = false;
    while i > 0 && !full
        invariant
            i <= items@.len(),
            all == text::texts(items@),
            !full ==> goal == newest_distinct(
                all.take(i as int),
                text::texts(kept@),
                limit as nat,
            ),
            full ==> goal == text::texts(kept@),
        decreases (if full { 0int } else { i + 1 }),
    {
        let item = &items[i - 1];
        assert(all.take(i as int).drop_last() =~= all.take(i - 1));
        assert(all.take(i as int).last() == item@);
        if !holds_text(&kept, item.as_str()) {
            push_text(&mut kept, item.clone());
            full = kept.len() == limit;
        }
        if !full {
            i = i - 1;
        }
    }
    lines::reversed(&kept)
}

proof fn newest_distinct_facts(items: Seq<Seq<char>>, kept: Seq<Seq<char>>, limit: nat)
    requires
        lines::distinct(kept),
        limit > 0 ==> kept.len() < limit,
    ensures
        ({
            let out = newest_distinct(items, kept, limit);
            &&& lines::distinct(out)
            &&& limit > 0 ==> out.len() <= limit
            &&& kept.is_prefix_of(out)
            &&& forall|i: int|
                kept.len() <= i < out.len() ==> items.contains(#[trigger] out[i])
            &&& (limit == 0 || out.len() < limit) ==> forall|i: int|
                0 <= i < items.len() ==> out.contains(#[trigger] items[i])
        }),
    decreases items.len(),
{
    let out = newest_distinct(items, kept, limit);
    if items.len() > 0 {
        let front = items.drop_last();
        let last = items.last();
        assert(items[items.len() - 1] == last);
        assert forall|x: Seq<char>| front.contains(x) implies items.contains(x) by {
            let i = choose|i: int| 0 <= i < front.len() && front[i] == x;
            assert(items[i] == x);
        }
        if kept.contains(last) {
            newest_distinct_facts(front, kept, limit);
            let k = choose|k: int| 0 <= k < kept.len() && kept[k] == last;
            assert(out[k] == last);
            assert forall|i: int|
                (limit == 0 || out.len() < limit) && 0 <= i < items.len() implies out.contains(
                #[trigger] items[i],
            ) by {
                if 0 <= i < front.len() {
                    assert(front[i] == items[i]);
                }
            }
        } else {
            let more = kept.push(last);
            assert(lines::distinct(more)) by {
                assert forall|i: int, j: int| 0 <= i < j < more.len() implies #[trigger] more[i]
                    != #[trigger] more[j] by {
                    if j == kept.len() {
                        assert(kept[i] == more[i]);
                    }
                }
            }
            if more.len() != limit {
                newest_distinct_facts(front, more, limit);
                assert(out[kept.len() as int] == more[kept.len() as int]);
                assert forall|i: int| kept.len() <= i < out.len() implies items.contains(
                    #[trigger] out[i],
                ) by {
                    if i >= more.len() {
                        assert(front.contains(out[i]));
                    }
                }
                assert forall|i: int|
                    (limit == 0 || out.len() < limit) && 0 <= i < items.len() implies out.contains(
                    #[trigger] items[i],
                ) by {
                    if 0 <= i < front.len() {
                        assert(front[i] == items[i]);
                    } else if i == front.len() {
                        assert(out[kept.len() as int] == items[i]);
                    }
                }
                assert(kept.is_prefix_of(out)) by {
                    assert(kept =~= out.take(kept.len() as int)) by {
                        assert(more == out.take(more.len() as int));
                        assert forall|i: int| 0 <= i < kept.len() implies kept[i] == out[i] by {
                            assert(more[i] == out.take(more.len() as int)[i]);
                        }
                    }
                }
            } else {
                assert(kept.is_prefix_of(out)) by {
                    assert(kept =~= out.take(kept.len() as int));
                }
            }
        }
    }
}

/// The last distinct texts of a list have no text twice, come from the list,
/// and stay within the limit; where the limit is not reached, none is missing.
pub proof fn tail_dedup_laws(items: Seq<Seq<char>>, limit: nat)
    ensures
        lines::distinct(tail_dedup(items, limit)),
        limit > 0 ==> tail_dedup(items, limit).len() <= limit,
        forall|i: int|
            0 <= i < tail_dedup(items, limit).len() ==> items.contains(
                #[trigger] tail_dedup(items, limit)[i],
            ),
        (limit == 0 || tail_dedup(items, limit).len() < limit) ==> forall|i: int|
            0 <= i < items.len() ==> tail_dedup(items, limit).contains(#[trigger] items[i]),
        items.len() > 0 ==> tail_dedup(items, limit).len() > 0 && tail_dedup(items, limit).last()
            == items.last(),
{
    let kept = newest_distinct(items, Seq::empty(), limit);
    let out = tail_dedup(items, limit);
    newest_distinct_facts(items, Seq::empty(), limit);
    assert forall|i: int, j: int| 0 <= i < j < out.len() implies #[trigger] out[i]
        != #[trigger] out[j] by {
        assert(out[i] == kept[kept.len() - 1 - i]);
        assert(out[j] == kept[kept.len() - 1 - j]);
    }
    assert forall|i: int| 0 <= i < out.len() implies items.contains(#[trigger] out[i]) by {
        assert(out[i] == kept[kept.len() - 1 - i]);
    }
    if limit == 0 || out.len() < limit {
        assert forall|i: int| 0 <= i < items.len() implies out.contains(#[trigger] items[i]) by {
            assert(kept.contains(items[i]));
            let k = choose|k: int| 0 <= k < kept.len() && kept[k] == items[i];
            assert(out[kept.len() - 1 - k] == items[i]);
        }
    }
    if items.len() > 0 {
        let first = Seq::<Seq<char>>::empty().push(items.last());
        if limit != 1 {
            assert(lines::distinct(first));
            newest_distinct_facts(items.drop_last(), first, limit);
            assert(kept.take(1)[0] == first[0]);
        }
        assert(kept[0] == items.last());
        assert(out[out.len() - 1] == kept[0]);
    }
}

// ------------------------------------------------------------------------ guidance

/// One of the needles stands in the text, capital ASCII letters counting as
/// small ones.
pub open spec fn mentions_any(message: Seq<char>, needles: Seq<Seq<char>>) -> bool {
    exists|i: int|
        0 <= i < needles.len() && search::contains(search::lowered(message), #[trigger] needles[i])
}

/// The words by which guidance that lasts is known.
pub open spec fn durable_words() -> Seq<Seq<char>> {
    let words = Seq::<Seq<char>>::empty();
    let words = words.push("must"@);
    let words = words.push("should"@);
    let words = words.push("prefer"@);
    let words = words.push("always"@);
    let words = words.push("never"@);
    let words = words.push("style"@);
    let words = words.push("convention"@);
    let words = words.push("guideline"@);
    let words = words.push("source of truth"@);
    let words = words.push("remember this"@);
    let words = words.push("do not"@);
    let words = words.push("don't"@);
    let words = words.push("不要"@);
    let words = words.push("必须"@);
    let words = words.push("应该"@);
    let words = words.push("优先"@);
    let words = words.push("一律"@);
    let words = words.push("规范"@);
    let words = words.push("风格"@);
    let words = words.push("记住这个"@);
    let words = words.push("注意"@);
    let words = words.push("按照"@);
    let words = words.push("统一"@);
    let words = words.push("尽量"@);
    let words = words.push("避免"@);
    let words = words.push("不要用"@);
    let words = words.push("应该用"@);
    let words = words.push("保持"@);
    let words = words.push("source-backed"@);
    words
}

/// The words by which guidance of high priority is known.
pub open spec fn high_priority_words() -> Seq<Seq<char>> {
    let words = Seq::<Seq<char>>::empty();
    let words = words.push("must"@);
    let words = words.push("always"@);
    let words = words.push("never"@);
    let words = words.push("do not"@);
    let words = words.push("don't"@);
    let words = words.push("source of truth"@);
    let words = words.push("remember this"@);
    let words = words.push("必须"@);
    let words = words.push("一律"@);
    let words = words.push("不要"@);
    let words = words.push("记住这个"@);
    let words = words.push("规范"@);
    let words = words.push("保持"@);
    let words = words.push("不要用"@);
    words
}

/// Whether one of the needles stands in the text.
fn mentions(message: &str, needles: &Vec<String>) -> (out: bool)
    ensures
        out == mentions_any(message@, text::texts(needles@)),
{
    let lowered = lower(message);
    for i in 0..needles.len()
        invariant
            lowered@ == search::lowered(message@),
            forall|j: int|
                0 <= j < i ==> !search::contains(
                    search::lowered(message@),
                    #[trigger] text::texts(needles@)[j],
                ),
    {
        assert(text::texts(needles@)[i as int] == needles@[i as int]@);
        if contains_text(lowered.as_str(), needles[i].as_str()) {
            return true;
        }
    }
    false
}

fn list_durable_words() -> (out: Vec<String>)
    ensures
        text::reads(out@, durable_words()),
{
    let mut words = no_texts();
    push_text(&mut words, "must".to_owned());
    push_text(&mut words, "should".to_owned());
    push_text(&mut words, "prefer".to_owned());
    push_text(&mut words, "always".to_owned());
    push_text(&mut words, "never".to_owned());
    push_text(&mut words, "style".to_owned());
    push_text(&mut words, "convention".to_owned());
    push_text(&mut words, "guideline".to_owned());
    push_text(&mut words, "source of truth".to_owned());
    push_text(&mut words, "remember this".to_owned());
    push_text(&mut words, "do not".to_owned());
    push_text(&mut words, "don't".to_owned());
    push_text(&mut words, "不要".to_owned());
    push_text(&mut words, "必须".to_owned());
    push_text(&mut words, "应该".to_owned());
    push_text(&mut words, "优先".to_owned());
    push_text(&mut words, "一律".to_owned());
    push_text(&mut words, "规范".to_owned());
    push_text(&mut words, "风格".to_owned());
    push_text(&mut words, "记住这个".to_owned());
    push_text(&mut words, "注意".to_owned());
    push_text(&mut words, "按照".to_owned());
    push_text(&mut words, "统一".to_owned());
    push_text(&mut words, "尽量".to_owned());
    push_text(&mut words, "避免".to_owned());
    push_text(&mut words, "不要用".to_owned());
    push_text(&mut words, "应该用".to_owned());
    push_text(&mut words, "保持".to_owned());
    push_text(&mut words, "source-backed".to_owned());
    words
}

fn list_high_priority_words() -> (out: Vec<String>)
    ensures
        text::reads(out@, high_priority_words()),
{
    let mut words = no_texts();
    push_text(&mut words, "must".to_owned());
    push_text(&mut words, "always".to_owned());
    push_text(&mut words, "never".to_owned());
    push_text(&mut words, "do not".to_owned());
    push_text(&mut words, "don't".to_owned());
    push_text(&mut words, "source of truth".to_owned());
    push_text(&mut words, "remember this".to_owned());
    push_text(&mut words, "必须".to_owned());
    push_text(&mut words, "一律".to_owned());
    push_text(&mut words, "不要".to_owned());
    push_text(&mut words, "记住这个".to_owned());
    push_text(&mut words, "规范".to_owned());
    push_text(&mut words, "保持".to_owned());
    push_text(&mut words, "不要用".to_owned());
    words
}

/// Whether a message holds guidance that lasts.
pub fn is_durable_guidance(message: &str) -> (out: bool)
    ensures
        out == mentions_any(message@, durable_words()),
{
    mentions(message, &list_durable_words())
}

/// Whether a message holds guidance of high priority.
pub fn is_high_priority_guidance(message: &str) -> (out: bool)
    ensures
        out == mentions_any(message@, high_priority_words()),
{
    mentions(message, &list_high_priority_words())
}

/// Guidance of high priority is guidance that lasts.
pub proof fn high_priority_guidance_lasts(message: Seq<char>)
    ensures
        mentions_any(message, high_priority_words()) ==> mentions_any(message, durable_words()),
{
    let durable = durable_words();
    let high = high_priority_words();
    assert(durable[0] == high[0]);
    assert(durable[3] == high[1]);
    assert(durable[4] == high[2]);
    assert(durable[10] == high[3]);
    assert(durable[11] == high[4]);
    assert(durable[8] == high[5]);
    assert(durable[9] == high[6]);
    assert(durable[13] == high[7]);
    assert(durable[16] == high[8]);
    assert(durable[12] == high[9]);
    assert(durable[19] == high[10]);
    assert(durable[17] == high[11]);
    assert(durable[27] == high[12]);
    assert(durable[25] == high[13]);
}

// ------------------------------------------------------------------------ analysis

/// The text of a message of the agent: its parts on lines of their own, without
/// white space around them.
pub open spec fn agent_text(content: Seq<Seq<char>>) -> Seq<char> {
    text::trimmed(lines::joined(content, "\n"@))
}

/// The text of a message of the agent.
pub fn agent_message_text(content: &Vec<String>) -> (out: String)
    ensures
        out@ == agent_text(text::texts(content@)),
{
    trim(join(content, "\n").as_str())
}

/// A list with a text added where it is not empty.
pub open spec fn push_nonempty(items: Seq<Seq<char>>, item: Seq<char>) -> Seq<Seq<char>> {
    if item.len() > 0 {
        items.push(item)
    } else {
        items
    }
}

fn push_if_nonempty(items: &mut Vec<String>, item: String)
    ensures
        text::texts(final(items)@) == push_nonempty(text::texts(old(items)@), item@),
{
    if !item.as_str().is_empty() {
        push_text(items, item);
    }
}

/// The messages of the user in a history, each on one line.
pub open spec fn user_lines(items: Seq<ResponseItemView>) -> Seq<Seq<char>>
    decreases items.len(),
{
    if items.len() == 0 {
        Seq::empty()
    } else {
        let front = user_lines(items.drop_last());
        match items.last().turn {
            TurnItemView::UserMessage { message } => push_nonempty(front, text::collapse(message)),
            _ => front,
        }
    }
}

/// The messages of the agent in a history.
pub open spec fn agent_lines(items: Seq<ResponseItemView>) -> Seq<Seq<char>>
    decreases items.len(),
{
    if items.len() == 0 {
        Seq::empty()
    } else {
        let front = agent_lines(items.drop_last());
        match items.last().turn {
            TurnItemView::AgentMessage { content } => push_nonempty(front, agent_text(content)),
            _ => front,
        }
    }
}

/// A list with a text added where it holds guidance that lasts.
pub open spec fn push_durable(items: Seq<Seq<char>>, item: Seq<char>) -> Seq<Seq<char>> {
    if mentions_any(item, durable_words()) {
        items.push(item)
    } else {
        items
    }
}

/// The messages in a history that hold guidance that lasts.
pub open spec fn durable_lines(items: Seq<ResponseItemView>) -> Seq<Seq<char>>
    decreases items.len(),
{
    if items.len() == 0 {
        Seq::empty()
    } else {
        let front = durable_lines(items.drop_last());
        match items.last().turn {
            TurnItemView::UserMessage { message } => push_durable(front, text::collapse(message)),
            TurnItemView::AgentMessage { content } => push_durable(front, agent_text(content)),
            TurnItemView::Other => front,
        }
    }
}

/// The newest distinct messages of a history that hold guidance that lasts.
pub fn collect_durable_guidance_from_response_items(
    items: &Vec<ResponseItem>,
    limit: usize,
) -> (out: Vec<String>)
    ensures
        text::texts(out@) == tail_dedup(durable_lines(items.deep_view()), limit as nat),
{
    let mut candidates = no_texts();
    let ghost all = items.deep_view();
    assert(all.take(0) =~= Seq::<ResponseItemView>::empty());
    for i in 0..items.len()
        invariant
            all == items.deep_view(),
            text::texts(candidates@) == durable_lines(all.take(i as int)),
    {
        assert(all.take(i + 1).drop_last() =~= all.take(i as int));
        assert(all[i as int] == items@[i as int]@);
        match &items[i].turn {
            TurnItem::UserMessage { message } => {
                let line = normalize_message(message.as_str());
                if is_durable_guidance(line.as_str()) {
                    push_text(&mut candidates, line);
                }
            },
            TurnItem::AgentMessage { content } => {
                let line = agent_message_text(content);
                if is_durable_guidance(line.as_str()) {
                    push_text(&mut candidates, line);
                }
            },
            TurnItem::Other => {},
        }
    }
    assert(all.take(all.len() as int) =~= all);
    take_tail_dedup(&candidates, limit)
}

/// The summary of the newest compaction that has one.
pub open spec fn newest_summary(records: Seq<RolloutLineView>) -> Option<Seq<char>>
    decreases records.len(),
{
    if records.len() == 0 {
        None
    } else {
        match records.last().item {
            RolloutItemView::Compacted(compacted) => if text::collapse(compacted.message).len()
                > 0 {
                Some(text::collapse(compacted.message))
            } else {
                newest_summary(records.drop_last())
            },
            _ => newest_summary(records.drop_last()),
        }
    }
}

fn find_newest_summary(records: &Vec<RolloutLine>) -> (out: Option<String>)
    ensures
        text::opt_text(out) == newest_summary(records.deep_view()),
{
    let ghost all = records.deep_view();
    let mut i: usize = records.len();
    assert(all.take(i as int) =~= all);
    while i > 0
        invariant
            i <= records@.len(),
            all == records.deep_view(),
            newest_summary(all) == newest_summary(all.take(i as int)),
        decreases i,
    {
        i = i - 1;
        assert(all.take(i + 1).drop_last() =~= all.take(i as int));
        assert(all[i as int] == records@[i as int]@);
        if let RolloutItem::Compacted(compacted) = &records[i].item {
            let summary = normalize_message(compacted.message.as_str());
            if !summary.as_str().is_empty() {
                return Some(summary);
            }
        }
    }
    None
}

/// The warnings among the records, each on one line.
pub open spec fn warning_lines(records: Seq<RolloutLineView>) -> Seq<Seq<char>>
    decreases records.len(),
{
    if records.len() == 0 {
        Seq::empty()
    } else {
        let front = warning_lines(records.drop_last());
        match records.last().item {
            RolloutItemView::EventMsg(EventMsgView::Warning { message }) => push_nonempty(
                front,
                text::collapse(message),
            ),
            _ => front,
        }
    }
}

/// The errors among the records, each on one line.
pub open spec fn error_lines(records: Seq<RolloutLineView>) -> Seq<Seq<char>>
    decreases records.len(),
{
    if records.len() == 0 {
        Seq::empty()
    } else {
        let front = error_lines(records.drop_last());
        match records.last().item {
            RolloutItemView::EventMsg(EventMsgView::Error { message }) => push_nonempty(
                front,
                text::collapse(message),
            ),
            _ => front,
        }
    }
}

/// The number of warnings, and of errors, that a brief keeps.
pub const KEPT_PROBLEMS: usize = 6;

/// What a session comes to, with no facts pinned yet.
pub open spec fn analysis_of(
    items: Seq<ResponseItemView>,
    records: Seq<RolloutLineView>,
    preview: PromptPreviewSnapshotView,
    recent_turns: usize,
    policy: DistillCompressionPolicy,
) -> DistillAnalysisView {
    let turns = at_least(recent_turns, policy.minimum_recent_turns);
    DistillAnalysisView {
        latest_compaction_summary: text::first_present(
            preview.latest_compaction_summary,
            newest_summary(records),
        ),
        recent_user_messages: tail_dedup(user_lines(items), turns as nat),
        recent_assistant_messages: tail_dedup(agent_lines(items), turns as nat),
        durable_guidance: tail_dedup(
            durable_lines(items),
            at_least(turns, policy.minimum_durable_guidance) as nat,
        ),
        pinned_facts: Seq::empty(),
        prompt_reconstruction_notes: reconstruction_notes_text(preview),
        recent_warnings: tail_dedup(warning_lines(records), KEPT_PROBLEMS as nat),
        recent_errors: tail_dedup(error_lines(records), KEPT_PROBLEMS as nat),
    }
}

/// Analyses a session: its rebuilt history and its raw records.
pub fn analyze_rollout(
    reconstructed_items: &Vec<ResponseItem>,
    raw_rollout_lines: &Vec<RolloutLine>,
    prompt_preview: &PromptPreviewSnapshot,
    recent_turns: usize,
    compression_policy: DistillCompressionPolicy,
) -> (out: DistillAnalysis)
    ensures
        out@ == analysis_of(
            reconstructed_items.deep_view(),
            raw_rollout_lines.deep_view(),
            prompt_preview@,
            recent_turns,
            compression_policy,
        ),
{
    let effective_recent_turns = compression_policy.effective_recent_turns(recent_turns);
    let mut user_messages = no_texts();
    let mut assistant_messages = no_texts();
    let ghost items = reconstructed_items.deep_view();
    assert(items.take(0) =~= Seq::<ResponseItemView>::empty());
    for i in 0..reconstructed_items.len()
        invariant
            items == reconstructed_items.deep_view(),
            text::texts(user_messages@) == user_lines(items.take(i as int)),
            text::texts(assistant_messages@) == agent_lines(items.take(i as int)),
    {
        assert(items.take(i + 1).drop_last() =~= items.take(i as int));
        assert(items[i as int] == reconstructed_items@[i as int]@);
        match &reconstructed_items[i].turn {
            TurnItem::UserMessage { message } => {
                push_if_nonempty(&mut user_messages, normalize_message(message.as_str()));
            },
            TurnItem::AgentMessage { content } => {
                push_if_nonempty(&mut assistant_messages, agent_message_text(content));
            },
            TurnItem::Other => {},
        }
    }
    assert(items.take(items.len() as int) =~= items);
    let mut warnings = no_texts();
    let mut errors = no_texts();
    let ghost records = raw_rollout_lines.deep_view();
    assert(records.take(0) =~= Seq::<RolloutLineView>::empty());
    for i in 0..raw_rollout_lines.len()
        invariant
            records == raw_rollout_lines.deep_view(),
            text::texts(warnings@) == warning_lines(records.take(i as int)),
            text::texts(errors@) == error_lines(records.take(i as int)),
    {
        assert(records.take(i + 1).drop_last() =~= records.take(i as int));
        assert(records[i as int] == raw_rollout_lines@[i as int]@);
        match &raw_rollout_lines[i].item {
            RolloutItem::EventMsg(EventMsg::Warning { message }) => {
                push_if_nonempty(&mut warnings, normalize_message(message.as_str()));
            },
            RolloutItem::EventMsg(EventMsg::Error { message }) => {
                push_if_nonempty(&mut errors, normalize_message(message.as_str()));
            },
            _ => {},
        }
    }
    assert(records.take(records.len() as int) =~= records);
    let guidance_limit: usize = if effective_recent_turns
        > compression_policy.minimum_durable_guidance {
        effective_recent_turns
    } else {
        compression_policy.minimum_durable_guidance
    };
    DistillAnalysis {
        latest_compaction_summary: or_opt(
            &prompt_preview.latest_compaction_summary,
            &find_newest_summary(raw_rollout_lines),
        ),
        recent_user_messages: take_tail_dedup(&user_messages, effective_recent_turns),
        recent_assistant_messages: take_tail_dedup(&assistant_messages, effective_recent_turns),
        durable_guidance: collect_durable_guidance_from_response_items(
            reconstructed_items,
            guidance_limit,
        ),
        pinned_facts: no_texts(),
        prompt_reconstruction_notes: prompt_reconstruction_notes(prompt_preview),
        recent_warnings: take_tail_dedup(&warnings, KEPT_PROBLEMS),
        recent_errors: take_tail_dedup(&errors, KEPT_PROBLEMS),
    }
}

/// Notes on how the next prompt of the session comes about.
pub open spec fn reconstruction_notes_text(preview: PromptPreviewSnapshotView) -> Seq<Seq<char>> {
    let lines = Seq::<Seq<char>>::empty();
    let lines = lines.push("- Reconstructed model-visible history items: "@
            + numbers::decimal(preview.history_items_count as int));
    let lines = lines.push("- Reconstructed history tokens estimate: "@
            + numbers::decimal(preview.history_tokens_estimate as int));
    let lines = lines.push("- Built-in and dynamic tool schema tokens estimate: "@
            + numbers::decimal(preview.tool_schema_tokens_estimate as int));
    let lines = if let Some(previous_turn_model) = preview.previous_turn_model {
        let lines = lines.push("- Previous surviving turn model: "@ + previous_turn_model);
        lines
    } else {
        lines
    };
    let lines = match preview.context_strategy {
        NextTurnContextStrategyView::FullInitialContext {
            model_switch_message,
            memory_prompt,
            developer_instructions,
            user_instructions,
        } => {
            let lines = lines.push("- Next real user turn will reinject full canonical initial context."@);
            let lines = lines.push("- Model-switch developer message will be injected: "@
                    + numbers::bool_text(model_switch_message));
            let lines = lines.push("- Memory prompt available: "@ + numbers::bool_text(memory_prompt));
            let lines = lines.push("- Runtime developer instructions present: "@
                    + numbers::bool_text(developer_instructions));
            let lines = lines.push("- Runtime user instructions present: "@ + numbers::bool_text(user_instructions));
            lines
        },
        NextTurnContextStrategyView::SettingsUpdate { model_switch_message, reasons } => {
            let lines = lines.push("- Next real user turn will reuse the current baseline and append only context diffs."@);
            let lines = lines.push("- Model-switch developer message will be injected: "@
                    + numbers::bool_text(model_switch_message));
            let lines = if reasons.len() > 0 {
                let lines = lines.push("- Expected settings update reasons: "@ + lines::joined(reasons, ", "@));
                lines
            } else {
                lines
            };
            lines
        },
    };
    let lines = lines.push("- Memory prompt available: "@ + numbers::bool_text(preview.memory_prompt_available));
    let lines = lines.push("- Built-in and dynamic tool count: "@ + numbers::decimal(preview.tool_count as int));
    lines
}

/// Notes on how the next prompt of the session comes about.
pub fn prompt_reconstruction_notes(preview: &PromptPreviewSnapshot) -> (out: Vec<String>)
    ensures
        text::reads(out@, reconstruction_notes_text(preview@)),
{
    let mut lines = no_texts();
    push_text(
        &mut lines,
        cat2(
            "- Reconstructed model-visible history items: ",
            usize_text(preview.history_items_count).as_str(),
        ),
    );
    push_text(
        &mut lines,
        cat2(
            "- Reconstructed history tokens estimate: ",
            usize_text(preview.history_tokens_estimate).as_str(),
        ),
    );
    push_text(
        &mut lines,
        cat2(
            "- Built-in and dynamic tool schema tokens estimate: ",
            usize_text(preview.tool_schema_tokens_estimate).as_str(),
        ),
    );
    if let Some(previous_turn_model) = &preview.previous_turn_model {
        push_text(
            &mut lines,
            cat2("- Previous surviving turn model: ", previous_turn_model.as_str()),
        );
    }
    match &preview.context_strategy {
        NextTurnContextStrategy::FullInitialContext {
            model_switch_message,
            memory_prompt,
            developer_instructions,
            user_instructions,
        } => {
            push_text(
                &mut lines,
                "- Next real user turn will reinject full canonical initial context.".to_owned(),
            );
            push_text(
                &mut lines,
                cat2(
                    "- Model-switch developer message will be injected: ",
                    bool_str(*model_switch_message),
                ),
            );
            push_text(
                &mut lines,
                cat2("- Memory prompt available: ", bool_str(*memory_prompt)),
            );
            push_text(
                &mut lines,
                cat2(
                    "- Runtime developer instructions present: ",
                    bool_str(*developer_instructions),
                ),
            );
            push_text(
                &mut lines,
                cat2("- Runtime user instructions present: ", bool_str(*user_instructions)),
            );
        },
        NextTurnContextStrategy::SettingsUpdate { model_switch_message, reasons } => {
            push_text(
                &mut lines,
                "- Next real user turn will reuse the current baseline and append only context diffs.".to_owned(),
            );
            push_text(
                &mut lines,
                cat2(
                    "- Model-switch developer message will be injected: ",
                    bool_str(*model_switch_message),
                ),
            );
            if reasons.len() > 0 {
                push_text(
                    &mut lines,
                    cat2("- Expected settings update reasons: ", join(reasons, ", ").as_str()),
                );
            }
        },
    }
    push_text(
        &mut lines,
        cat2("- Memory prompt available: ", bool_str(preview.memory_prompt_available)),
    );
    push_text(
        &mut lines,
        cat2("- Built-in and dynamic tool count: ", usize_text(preview.tool_count).as_str()),
    );
    lines
}

// --------------------------------------------------------------------------- brief

/// A numbered line with a shortened message.
pub open spec fn numbered_line_text(
    number: usize,
    message: Seq<char>,
    max_chars: usize,
) -> Seq<char> {
    numbers::decimal(number as int) + ". "@ + search::shortened(message, max_chars as nat)
}

/// A numbered line with a shortened message.
pub fn numbered_line(number: usize, message: &str, max_chars: usize) -> (out: String)
    ensures
        out@ == numbered_line_text(number, message@, max_chars),
{
    cat3(usize_text(number).as_str(), ". ", truncate_for_brief(message, max_chars).as_str())
}

/// Shortened messages on numbered lines, from one on.
pub open spec fn numbered_lines_text(messages: Seq<Seq<char>>, max_chars: usize) -> Seq<Seq<char>> {
    Seq::new(
        messages.len(),
        |i: int| numbered_line_text((i + 1) as usize, messages[i], max_chars),
    )
}

fn numbered_lines(messages: &Vec<String>, max_chars: usize) -> (out: Vec<String>)
    ensures
        text::texts(out@) == numbered_lines_text(text::texts(messages@), max_chars),
{
    let mut out = no_texts();
    let ghost all = numbered_lines_text(text::texts(messages@), max_chars);
    assert(all.take(0) =~= Seq::<Seq<char>>::empty());
    for i in 0..messages.len()
        invariant
            all == numbered_lines_text(text::texts(messages@), max_chars),
            text::texts(out@) == all.take(i as int),
    {
        push_text(&mut out, numbered_line(i + 1, messages[i].as_str(), max_chars));
        assert(text::texts(messages@)[i as int] == messages@[i as int]@);
        assert(all.take(i as int).push(all[i as int]) =~= all.take(i + 1));
    }
    assert(all.take(all.len() as int) =~= all);
    out
}

/// Shortened messages on lines that start with a label.
pub open spec fn labelled_lines_text(
    label: Seq<char>,
    messages: Seq<Seq<char>>,
    max_chars: usize,
) -> Seq<Seq<char>> {
    Seq::new(messages.len(), |i: int| label + search::shortened(messages[i], max_chars as nat))
}

fn labelled_lines(label: &str, messages: &Vec<String>, max_chars: usize) -> (out: Vec<String>)
    ensures
        text::texts(out@) == labelled_lines_text(label@, text::texts(messages@), max_chars),
{
    let mut out = no_texts();
    let ghost all = labelled_lines_text(label@, text::texts(messages@), max_chars);
    assert(all.take(0) =~= Seq::<Seq<char>>::empty());
    for i in 0..messages.len()
        invariant
            all == labelled_lines_text(label@, text::texts(messages@), max_chars),
            text::texts(out@) == all.take(i as int),
    {
        let message = truncate_for_brief(messages[i].as_str(), max_chars);
        push_text(&mut out, cat2(label, message.as_str()));
        assert(text::texts(messages@)[i as int] == messages@[i as int]@);
        assert(all.take(i as int).push(all[i as int]) =~= all.take(i + 1));
    }
    assert(all.take(all.len() as int) =~= all);
    out
}

/// The title of a session: its name, or its first request, or its id.
pub open spec fn session_title(summary: SessionSummaryView) -> Seq<char> {
    text::text_or(
        text::first_present(summary.thread_name, summary.first_user_message),
        summary.thread_id,
    )
}

fn title_of(summary: &SessionSummary) -> (out: String)
    ensures
        out@ == session_title(summary@),
{
    opt_or(
        &or_opt(&summary.thread_name, &summary.first_user_message),
        summary.thread_id.as_str(),
    )
}

/// The lines of a brief.
pub open spec fn brief_lines_text(
    summary: SessionSummaryView,
    analysis: DistillAnalysisView,
    policy: DistillCompressionPolicy,
) -> Seq<Seq<char>> {
    let lines = Seq::<Seq<char>>::empty();
    let lines = lines.push("You are continuing work from a distilled Codex session."@);
    let lines = lines.push("Treat the following handoff brief as the authoritative carry-over context for the successor thread."@);
    let lines = lines.push("Prefer this brief over assumptions from omitted older history."@);
    let lines = lines.push(""@);
    let lines = lines.push("# Source Thread"@);
    let lines = lines.push("- Thread title: "@ + session_title(summary));
    let lines = lines.push("- Source thread id: "@ + summary.thread_id);
    let lines = lines.push("- Workspace: "@ + summary.session_cwd);
    let lines = lines.push("- Provider: "@ + text::text_or(summary.session_provider, "unknown"@));
    let lines = lines.push("- Model: "@ + text::text_or(summary.latest_model, "unknown"@));
    let lines = lines.push("- Context window: "@
            + numbers::opt_decimal(numbers::opt_int_i64(summary.latest_model_context_window), ""@));
    let lines = lines.push("- Context tokens estimate: "@
            + numbers::opt_decimal(numbers::opt_int_i64(summary.latest_context_tokens), ""@));
    let lines = lines.push("- User turns in source thread: "@ + numbers::decimal(summary.user_turns as int));
    let lines = if analysis.pinned_facts.len() > 0 {
        let lines = lines.push(""@);
        let lines = lines.push("# Pinned Facts"@);
        let lines = lines + analysis.pinned_facts;
        lines
    } else {
        lines
    };
    let lines = if let Some(compaction_summary) = analysis.latest_compaction_summary {
        let lines = lines.push(""@);
        let lines = lines.push("# Existing Compaction Summary"@);
        let lines = lines.push(search::shortened(compaction_summary, policy.compaction_summary_chars as nat));
        lines
    } else {
        lines
    };
    let lines = if analysis.prompt_reconstruction_notes.len() > 0 {
        let lines = lines.push(""@);
        let lines = lines.push("# Next-Turn Prompt Reconstruction"@);
        let lines = lines + analysis.prompt_reconstruction_notes;
        lines
    } else {
        lines
    };
    let lines = if analysis.recent_user_messages.len() > 0 {
        let lines = lines.push(""@);
        let lines = lines.push("# Recent User Requests"@);
        let lines = lines + numbered_lines_text(analysis.recent_user_messages, policy.request_chars);
        lines
    } else {
        lines
    };
    let lines = if analysis.recent_assistant_messages.len() > 0 {
        let lines = lines.push(""@);
        let lines = lines.push("# Recent Assistant Outcomes"@);
        let lines = lines + numbered_lines_text(analysis.recent_assistant_messages, policy.outcome_chars);
        lines
    } else {
        lines
    };
    let lines = if analysis.durable_guidance.len() > 0 {
        let lines = lines.push(""@);
        let lines = lines.push("# Durable Conventions And Corrections"@);
        let lines = lines + numbered_lines_text(analysis.durable_guidance, policy.guidance_chars);
        lines
    } else {
        lines
    };
    let lines = if analysis.recent_warnings.len() > 0 || analysis.recent_errors.len() > 0 {
        let lines = lines.push(""@);
        let lines = lines.push("# Recent Warnings And Errors"@);
        let lines = lines + labelled_lines_text("- warning: "@, analysis.recent_warnings, policy.warning_chars);
        let lines = lines + labelled_lines_text("- error: "@, analysis.recent_errors, policy.warning_chars);
        lines
    } else {
        lines
    };
    let lines = lines.push(""@);
    let lines = lines.push("# Successor Instructions"@);
    let lines = lines.push("- Continue from this project state without assuming the full source-thread history is still loaded."@);
    let lines = lines.push("- Treat the source thread as archival context for audit/detail lookups only."@);
    let lines = lines.push("- When the next real user request arrives, continue from the current workspace and runtime constraints above."@);
    let lines = lines.push("- Reply with READY and one short sentence confirming the current project focus."@);
    lines
}

/// The lines of a brief.
pub fn brief_lines(
    summary: &SessionSummary,
    analysis: &DistillAnalysis,
    policy: DistillCompressionPolicy,
) -> (out: Vec<String>)
    ensures
        text::reads(out@, brief_lines_text(summary@, analysis@, policy)),
{
    let mut lines = no_texts();
    push_text(
        &mut lines,
        "You are continuing work from a distilled Codex session.".to_owned(),
    );
    push_text(
        &mut lines,
        "Treat the following handoff brief as the authoritative carry-over context for the successor thread.".to_owned(),
    );
    push_text(
        &mut lines,
        "Prefer this brief over assumptions from omitted older history.".to_owned(),
    );
    push_text(&mut lines, "".to_owned());
    push_text(&mut lines, "# Source Thread".to_owned());
    push_text(&mut lines, cat2("- Thread title: ", title_of(summary).as_str()));
    push_text(&mut lines, cat2("- Source thread id: ", summary.thread_id.as_str()));
    push_text(&mut lines, cat2("- Workspace: ", summary.session_cwd.as_str()));
    push_text(
        &mut lines,
        cat2("- Provider: ", opt_or(&summary.session_provider, "unknown").as_str()),
    );
    push_text(
        &mut lines,
        cat2("- Model: ", opt_or(&summary.latest_model, "unknown").as_str()),
    );
    push_text(
        &mut lines,
        cat2(
            "- Context window: ",
            opt_i64_text(summary.latest_model_context_window, "").as_str(),
        ),
    );
    push_text(
        &mut lines,
        cat2(
            "- Context tokens estimate: ",
            opt_i64_text(summary.latest_context_tokens, "").as_str(),
        ),
    );
    push_text(
        &mut lines,
        cat2("- User turns in source thread: ", usize_text(summary.user_turns).as_str()),
    );
    if analysis.pinned_facts.len() > 0 {
        push_text(&mut lines, "".to_owned());
        push_text(&mut lines, "# Pinned Facts".to_owned());
        push_texts(&mut lines, &analysis.pinned_facts);
    }
    if let Some(compaction_summary) = &analysis.latest_compaction_summary {
        push_text(&mut lines, "".to_owned());
        push_text(&mut lines, "# Existing Compaction Summary".to_owned());
        push_text(
            &mut lines,
            truncate_for_brief(compaction_summary.as_str(), policy.compaction_summary_chars),
        );
    }
    if analysis.prompt_reconstruction_notes.len() > 0 {
        push_text(&mut lines, "".to_owned());
        push_text(&mut lines, "# Next-Turn Prompt Reconstruction".to_owned());
        push_texts(&mut lines, &analysis.prompt_reconstruction_notes);
    }
    if analysis.recent_user_messages.len() > 0 {
        push_text(&mut lines, "".to_owned());
        push_text(&mut lines, "# Recent User Requests".to_owned());
        push_texts(&mut lines, &numbered_lines(&analysis.recent_user_messages, policy.request_chars));
    }
    if analysis.recent_assistant_messages.len() > 0 {
        push_text(&mut lines, "".to_owned());
        push_text(&mut lines, "# Recent Assistant Outcomes".to_owned());
        push_texts(&mut lines, &numbered_lines(&analysis.recent_assistant_messages, policy.outcome_chars));
    }
    if analysis.durable_guidance.len() > 0 {
        push_text(&mut lines, "".to_owned());
        push_text(&mut lines, "# Durable Conventions And Corrections".to_owned());
        push_texts(&mut lines, &numbered_lines(&analysis.durable_guidance, policy.guidance_chars));
    }
    if analysis.recent_warnings.len() > 0 || analysis.recent_errors.len() > 0 {
        push_text(&mut lines, "".to_owned());
        push_text(&mut lines, "# Recent Warnings And Errors".to_owned());
        push_texts(&mut lines, &labelled_lines("- warning: ", &analysis.recent_warnings, policy.warning_chars));
        push_texts(&mut lines, &labelled_lines("- error: ", &analysis.recent_errors, policy.warning_chars));
    }
    push_text(&mut lines, "".to_owned());
    push_text(&mut lines, "# Successor Instructions".to_owned());
    push_text(
        &mut lines,
        "- Continue from this project state without assuming the full source-thread history is still loaded.".to_owned(),
    );
    push_text(
        &mut lines,
        "- Treat the source thread as archival context for audit/detail lookups only.".to_owned(),
    );
    push_text(
        &mut lines,
        "- When the next real user request arrives, continue from the current workspace and runtime constraints above.".to_owned(),
    );
    push_text(
        &mut lines,
        "- Reply with READY and one short sentence confirming the current project focus.".to_owned(),
    );
    lines
}

/// The lines in which a brief carries over what an analysis kept.
pub open spec fn carried_lines(
    analysis: DistillAnalysisView,
    policy: DistillCompressionPolicy,
) -> Seq<Seq<char>> {
    analysis.pinned_facts + analysis.prompt_reconstruction_notes + numbered_lines_text(
        analysis.recent_user_messages,
        policy.request_chars,
    ) + numbered_lines_text(analysis.recent_assistant_messages, policy.outcome_chars)
        + numbered_lines_text(analysis.durable_guidance, policy.guidance_chars)
        + labelled_lines_text("- warning: "@, analysis.recent_warnings, policy.warning_chars)
        + labelled_lines_text("- error: "@, analysis.recent_errors, policy.warning_chars)
}

/// Nothing that an analysis kept is lost: the brief has a line for every fact,
/// note, request, outcome, correction, warning and error, and one for the
/// summary of the latest compaction.
pub proof fn brief_carries_everything_kept(
    summary: SessionSummaryView,
    analysis: DistillAnalysisView,
    policy: DistillCompressionPolicy,
    line: Seq<char>,
)
    ensures
        carried_lines(analysis, policy).contains(line) ==> brief_lines_text(
            summary,
            analysis,
            policy,
        ).contains(line),
        analysis.latest_compaction_summary matches Some(compaction) ==> brief_lines_text(
            summary,
            analysis,
            policy,
        ).contains(search::shortened(compaction, policy.compaction_summary_chars as nat)),
{
    broadcast use vstd::seq_lib::lemma_seq_concat_contains_all_elements;
    broadcast use vstd::seq_lib::lemma_seq_contains_after_push;
    broadcast use vstd::seq_lib::lemma_seq_empty_contains_nothing;

}

/// The brief for the successor of a session.
pub open spec fn brief_text(
    summary: SessionSummaryView,
    analysis: DistillAnalysisView,
    policy: DistillCompressionPolicy,
) -> Seq<char> {
    lines::joined(brief_lines_text(summary, analysis, policy), "\n"@)
}

/// The brief for the successor of a session.
pub fn build_distilled_brief(
    summary: &SessionSummary,
    analysis: &DistillAnalysis,
    compression_policy: DistillCompressionPolicy,
) -> (out: String)
    ensures
        out@ == brief_text(summary@, analysis@, compression_policy),
{
    join(&brief_lines(summary, analysis, compression_policy), "\n")
}

// -------------------------------------------------------------------------- report

/// The tokens of a brief against those of its session.
#[derive(Debug, Clone, Copy, PartialEq, Eq, Structural)]
pub struct CompressionRatio {
    pub seed_tokens: usize,
    pub source_tokens: i64,
}

/// What a distillation did.
#[derive(Debug, PartialEq, Eq)]
pub struct DistillReport {
    pub source_thread_id: String,
    pub source_thread_name: Option<String>,
    pub source_rollout_path: String,
    pub source_provider: Option<String>,
    pub source_model: Option<String>,
    pub source_context_tokens_estimate: Option<i64>,
    pub source_context_window: Option<i64>,
    pub source_user_turns: usize,
    pub successor_provider: String,
    pub successor_model: String,
    pub successor_context_window: Option<i64>,
    pub distill_mode: String,
    pub compression_level: String,
    pub distill_note: Option<String>,
    pub successor_thread_name: String,
    pub successor_seed_tokens_estimate: usize,
    pub compression_ratio: Option<CompressionRatio>,
    pub recent_user_messages_kept: usize,
    pub recent_assistant_messages_kept: usize,
    pub warnings_kept: usize,
    pub errors_kept: usize,
    pub had_compaction_summary: bool,
}

/// What a [`DistillReport`] stands for.
pub struct DistillReportView {
    pub source_thread_id: Seq<char>,
    pub source_thread_name: Option<Seq<char>>,
    pub source_rollout_path: Seq<char>,
    pub source_provider: Option<Seq<char>>,
    pub source_model: Option<Seq<char>>,
    pub source_context_tokens_estimate: Option<i64>,
    pub source_context_window: Option<i64>,
    pub source_user_turns: usize,
    pub successor_provider: Seq<char>,
    pub successor_model: Seq<char>,
    pub successor_context_window: Option<i64>,
    pub distill_mode: Seq<char>,
    pub compression_level: Seq<char>,
    pub distill_note: Option<Seq<char>>,
    pub successor_thread_name: Seq<char>,
    pub successor_seed_tokens_estimate: usize,
    pub compression_ratio: Option<CompressionRatio>,
    pub recent_user_messages_kept: usize,
    pub recent_assistant_messages_kept: usize,
    pub warnings_kept: usize,
    pub errors_kept: usize,
    pub had_compaction_summary: bool,
}

impl View for DistillReport {
    type V = DistillReportView;

    open spec fn view(&self) -> DistillReportView {
        DistillReportView {
            source_thread_id: self.source_thread_id@,
            source_thread_name: text::opt_text(self.source_thread_name),
            source_rollout_path: self.source_rollout_path@,
            source_provider: text::opt_text(self.source_provider),
            source_model: text::opt_text(self.source_model),
            source_context_tokens_estimate: self.source_context_tokens_estimate,
            source_context_window: self.source_context_window,
            source_user_turns: self.source_user_turns,
            successor_provider: self.successor_provider@,
            successor_model: self.successor_model@,
            successor_context_window: self.successor_context_window,
            distill_mode: self.distill_mode@,
            compression_level: self.compression_level@,
            distill_note: text::opt_text(self.distill_note),
            successor_thread_name: self.successor_thread_name@,
            successor_seed_tokens_estimate: self.successor_seed_tokens_estimate,
            compression_ratio: self.compression_ratio,
            recent_user_messages_kept: self.recent_user_messages_kept,
            recent_assistant_messages_kept: self.recent_assistant_messages_kept,
            warnings_kept: self.warnings_kept,
            errors_kept: self.errors_kept,
            had_compaction_summary: self.had_compaction_summary,
        }
    }
}

impl DeepView for DistillReport {
    type V = DistillReportView;

    open spec fn deep_view(&self) -> DistillReportView {
        self@
    }
}

impl Clone for DistillReport {
    fn clone(&self) -> (out: Self)
        ensures
            out@ == self@,
    {
        DistillReport {
            source_thread_id: self.source_thread_id.clone(),
            source_thread_name: clone_opt(&self.source_thread_name),
            source_rollout_path: self.source_rollout_path.clone(),
            source_provider: clone_opt(&self.source_provider),
            source_model: clone_opt(&self.source_model),
            source_context_tokens_estimate: self.source_context_tokens_estimate,
            source_context_window: self.source_context_window,
            source_user_turns: self.source_user_turns,
            successor_provider: self.successor_provider.clone(),
            successor_model: self.successor_model.clone(),
            successor_context_window: self.successor_context_window,
            distill_mode: self.distill_mode.clone(),
            compression_level: self.compression_level.clone(),
            distill_note: clone_opt(&self.distill_note),
            successor_thread_name: self.successor_thread_name.clone(),
            successor_seed_tokens_estimate: self.successor_seed_tokens_estimate,
            compression_ratio: self.compression_ratio,
            recent_user_messages_kept: self.recent_user_messages_kept,
            recent_assistant_messages_kept: self.recent_assistant_messages_kept,
            warnings_kept: self.warnings_kept,
            errors_kept: self.errors_kept,
            had_compaction_summary: self.had_compaction_summary,
        }
    }
}

/// How a distillation was made.
#[derive(Debug, PartialEq, Eq)]
pub struct DistillReportOptions {
    pub distill_mode: DistillMode,
    pub compression_level: DistillCompressionLevel,
    pub distill_note: Option<String>,
}

/// What a [`DistillReportOptions`] stands for.
pub struct DistillReportOptionsView {
    pub distill_mode: DistillMode,
    pub compression_level: DistillCompressionLevel,
    pub distill_note: Option<Seq<char>>,
}

impl View for DistillReportOptions {
    type V = DistillReportOptionsView;

    open spec fn view(&self) -> DistillReportOptionsView {
        DistillReportOptionsView {
            distill_mode: self.distill_mode,
            compression_level: self.compression_level,
            distill_note: text::opt_text(self.distill_note),
        }
    }
}

impl DeepView for DistillReportOptions {
    type V = DistillReportOptionsView;

    open spec fn deep_view(&self) -> DistillReportOptionsView {
        self@
    }
}

impl Clone for DistillReportOptions {
    fn clone(&self) -> (out: Self)
        ensures
            out@ == self@,
    {
        DistillReportOptions {
            distill_mode: self.distill_mode,
            compression_level: self.compression_level,
            distill_note: clone_opt(&self.distill_note),
        }
    }
}

/// The outcome of a distillation.
#[derive(Debug, PartialEq, Eq)]
pub struct DistillOutput {
    pub successor_thread_id: Option<String>,
    pub successor_rollout_path: Option<String>,
    pub resume_command: Option<String>,
    pub source_archived: bool,
    pub report: DistillReport,
    pub brief: String,
}

/// What a [`DistillOutput`] stands for.
pub struct DistillOutputView {
    pub successor_thread_id: Option<Seq<char>>,
    pub successor_rollout_path: Option<Seq<char>>,
    pub resume_command: Option<Seq<char>>,
    pub source_archived: bool,
    pub report: DistillReportView,
    pub brief: Seq<char>,
}

impl View for DistillOutput {
    type V = DistillOutputView;

    open spec fn view(&self) -> DistillOutputView {
        DistillOutputView {
            successor_thread_id: text::opt_text(self.successor_thread_id),
            successor_rollout_path: text::opt_text(self.successor_rollout_path),
            resume_command: text::opt_text(self.resume_command),
            source_archived: self.source_archived,
            report: self.report@,
            brief: self.brief@,
        }
    }
}

impl DeepView for DistillOutput {
    type V = DistillOutputView;

    open spec fn deep_view(&self) -> DistillOutputView {
        self@
    }
}

impl Clone for DistillOutput {
    fn clone(&self) -> (out: Self)
        ensures
            out@ == self@,
    {
        DistillOutput {
            successor_thread_id: clone_opt(&self.successor_thread_id),
            successor_rollout_path: clone_opt(&self.successor_rollout_path),
            resume_command: clone_opt(&self.resume_command),
            source_archived: self.source_archived,
            report: self.report.clone(),
            brief: self.brief.clone(),
        }
    }
}

/// The report on a distillation.
pub open spec fn report_of(
    summary: SessionSummaryView,
    analysis: DistillAnalysisView,
    brief: Seq<char>,
    successor_thread_name: Seq<char>,
    runtime: RuntimeConfigView,
    options: DistillReportOptionsView,
) -> DistillReportView {
    DistillReportView {
        source_thread_id: summary.thread_id,
        source_thread_name: summary.thread_name,
        source_rollout_path: summary.rollout_path,
        source_provider: summary.session_provider,
        source_model: summary.latest_model,
        source_context_tokens_estimate: summary.latest_context_tokens,
        source_context_window: summary.latest_model_context_window,
        source_user_turns: summary.user_turns,
        successor_provider: runtime.model_provider_id,
        successor_model: text::text_or(runtime.model, ""@),
        successor_context_window: runtime.model_context_window,
        distill_mode: cli::distill_mode_text(options.distill_mode),
        compression_level: cli::compression_level_text(options.compression_level),
        distill_note: options.distill_note,
        successor_thread_name,
        successor_seed_tokens_estimate: numbers::token_count(brief) as usize,
        compression_ratio: match summary.latest_context_tokens {
            Some(tokens) => if tokens > 0 {
                Some(
                    CompressionRatio {
                        seed_tokens: numbers::token_count(brief) as usize,
                        source_tokens: tokens,
                    },
                )
            } else {
                None
            },
            None => None,
        },
        recent_user_messages_kept: analysis.recent_user_messages.len() as usize,
        recent_assistant_messages_kept: analysis.recent_assistant_messages.len() as usize,
        warnings_kept: analysis.recent_warnings.len() as usize,
        errors_kept: analysis.recent_errors.len() as usize,
        had_compaction_summary: analysis.latest_compaction_summary is Some,
    }
}

/// Reports on a distillation.
pub fn build_report(
    summary: &SessionSummary,
    analysis: &DistillAnalysis,
    brief: &str,
    successor_thread_name: String,
    runtime: &RuntimeConfig,
    options: &DistillReportOptions,
) -> (out: DistillReport)
    ensures
        out@ == report_of(
            summary@,
            analysis@,
            brief@,
            successor_thread_name@,
            runtime@,
            options@,
        ),
{
    let seed_tokens = approx_token_count(brief);
    let compression_ratio: Option<CompressionRatio> = match summary.latest_context_tokens {
        Some(source_tokens) => if source_tokens > 0 {
            Some(CompressionRatio { seed_tokens, source_tokens })
        } else {
            None
        },
        None => None,
    };
    DistillReport {
        source_thread_id: summary.thread_id.clone(),
        source_thread_name: clone_opt(&summary.thread_name),
        source_rollout_path: summary.rollout_path.clone(),
        source_provider: clone_opt(&summary.session_provider),
        source_model: clone_opt(&summary.latest_model),
        source_context_tokens_estimate: summary.latest_context_tokens,
        source_context_window: summary.latest_model_context_window,
        source_user_turns: summary.user_turns,
        successor_provider: runtime.model_provider_id.clone(),
        successor_model: opt_or(&runtime.model, ""),
        successor_context_window: runtime.model_context_window,
        distill_mode: distill_mode_name(options.distill_mode).to_owned(),
        compression_level: compression_level_name(options.compression_level).to_owned(),
        distill_note: clone_opt(&options.distill_note),
        successor_thread_name,
        successor_seed_tokens_estimate: seed_tokens,
        compression_ratio,
        recent_user_messages_kept: analysis.recent_user_messages.len(),
        recent_assistant_messages_kept: analysis.recent_assistant_messages.len(),
        warnings_kept: analysis.recent_warnings.len(),
        errors_kept: analysis.recent_errors.len(),
        had_compaction_summary: analysis.latest_compaction_summary.is_some(),
    }
}

pub open spec fn brief_section(brief: Seq<char>) -> Seq<Seq<char>> {
    seq![""@, "brief:"@] + lines::lines_of(brief)
}

fn list_brief(brief: &str) -> (out: Vec<String>)
    ensures
        text::texts(out@) == brief_section(brief@),
{
    let mut out = no_texts();
    push_text(&mut out, "".to_owned());
    push_text(&mut out, "brief:".to_owned());
    assert(text::texts(out@) =~= seq![""@, "brief:"@]);
    push_texts(&mut out, &crate::lines::lines(brief));
    out
}

/// The lines that the outcome of a distillation is printed as.
/// `compression_ratio` is the ratio of the report as a decimal fraction, empty
/// where the report has none.
pub open spec fn output_lines_text(
    output: DistillOutputView,
    compression_ratio: Seq<char>,
) -> Seq<Seq<char>> {
    let lines = Seq::<Seq<char>>::empty();
    let lines = lines.push("source_thread_id: "@ + output.report.source_thread_id);
    let lines = lines.push("source_thread_name: "@ + text::text_or(output.report.source_thread_name, ""@));
    let lines = lines.push("source_rollout_path: "@ + output.report.source_rollout_path);
    let lines = lines.push("source_provider: "@ + text::text_or(output.report.source_provider, ""@));
    let lines = lines.push("source_model: "@ + text::text_or(output.report.source_model, ""@));
    let lines = lines.push("source_context_tokens_estimate: "@
            + numbers::opt_decimal(numbers::opt_int_i64(output.report.source_context_tokens_estimate), ""@));
    let lines = lines.push("successor_provider: "@ + output.report.successor_provider);
    let lines = lines.push("successor_model: "@ + output.report.successor_model);
    let lines = lines.push("successor_context_window: "@
            + numbers::opt_decimal(numbers::opt_int_i64(output.report.successor_context_window), ""@));
    let lines = lines.push("distill_mode: "@ + output.report.distill_mode);
    let lines = lines.push("compression_level: "@ + output.report.compression_level);
    let lines = lines.push("distill_note: "@ + text::text_or(output.report.distill_note, ""@));
    let lines = lines.push("successor_seed_tokens_estimate: "@
            + numbers::decimal(output.report.successor_seed_tokens_estimate as int));
    let lines = lines.push("compression_ratio: "@ + compression_ratio);
    let lines = lines.push("successor_thread_name: "@ + output.report.successor_thread_name);
    let lines = lines.push("had_compaction_summary: "@ + numbers::bool_text(output.report.had_compaction_summary));
    let lines = lines.push("recent_user_messages_kept: "@
            + numbers::decimal(output.report.recent_user_messages_kept as int));
    let lines = lines.push("recent_assistant_messages_kept: "@
            + numbers::decimal(output.report.recent_assistant_messages_kept as int));
    let lines = lines.push("warnings_kept: "@ + numbers::decimal(output.report.warnings_kept as int));
    let lines = lines.push("errors_kept: "@ + numbers::decimal(output.report.errors_kept as int));
    let lines = lines.push("successor_thread_id: "@ + text::text_or(output.successor_thread_id, ""@));
    let lines = lines.push("successor_rollout_path: "@ + text::text_or(output.successor_rollout_path, ""@));
    let lines = lines.push("resume_command: "@ + text::text_or(output.resume_command, ""@));
    let lines = lines.push("source_archived: "@ + numbers::bool_text(output.source_archived));
    let lines = if output.brief.len() > 0 {
        let lines = lines + brief_section(output.brief);
        lines
    } else {
        lines
    };
    lines
}

/// The lines that the outcome of a distillation is printed as.
/// `compression_ratio` is the ratio of the report as a decimal fraction, empty
/// where the report has none.
pub fn render_output_lines(output: &DistillOutput, compression_ratio: &str) -> (out: Vec<String>)
    ensures
        text::reads(out@, output_lines_text(output@, compression_ratio@)),
{
    let mut lines = no_texts();
    push_text(
        &mut lines,
        cat2("source_thread_id: ", output.report.source_thread_id.as_str()),
    );
    push_text(
        &mut lines,
        cat2("source_thread_name: ", opt_or(&output.report.source_thread_name, "").as_str()),
    );
    push_text(
        &mut lines,
        cat2("source_rollout_path: ", output.report.source_rollout_path.as_str()),
    );
    push_text(
        &mut lines,
        cat2("source_provider: ", opt_or(&output.report.source_provider, "").as_str()),
    );
    push_text(
        &mut lines,
        cat2("source_model: ", opt_or(&output.report.source_model, "").as_str()),
    );
    push_text(
        &mut lines,
        cat2(
            "source_context_tokens_estimate: ",
            opt_i64_text(output.report.source_context_tokens_estimate, "").as_str(),
        ),
    );
    push_text(
        &mut lines,
        cat2("successor_provider: ", output.report.successor_provider.as_str()),
    );
    push_text(&mut lines, cat2("successor_model: ", output.report.successor_model.as_str()));
    push_text(
        &mut lines,
        cat2(
            "successor_context_window: ",
            opt_i64_text(output.report.successor_context_window, "").as_str(),
        ),
    );
    push_text(&mut lines, cat2("distill_mode: ", output.report.distill_mode.as_str()));
    push_text(
        &mut lines,
        cat2("compression_level: ", output.report.compression_level.as_str()),
    );
    push_text(
        &mut lines,
        cat2("distill_note: ", opt_or(&output.report.distill_note, "").as_str()),
    );
    push_text(
        &mut lines,
        cat2(
            "successor_seed_tokens_estimate: ",
            usize_text(output.report.successor_seed_tokens_estimate).as_str(),
        ),
    );
    push_text(&mut lines, cat2("compression_ratio: ", compression_ratio));
    push_text(
        &mut lines,
        cat2("successor_thread_name: ", output.report.successor_thread_name.as_str()),
    );
    push_text(
        &mut lines,
        cat2("had_compaction_summary: ", bool_str(output.report.had_compaction_summary)),
    );
    push_text(
        &mut lines,
        cat2(
            "recent_user_messages_kept: ",
            usize_text(output.report.recent_user_messages_kept).as_str(),
        ),
    );
    push_text(
        &mut lines,
        cat2(
            "recent_assistant_messages_kept: ",
            usize_text(output.report.recent_assistant_messages_kept).as_str(),
        ),
    );
    push_text(
        &mut lines,
        cat2("warnings_kept: ", usize_text(output.report.warnings_kept).as_str()),
    );
    push_text(
        &mut lines,
        cat2("errors_kept: ", usize_text(output.report.errors_kept).as_str()),
    );
    push_text(
        &mut lines,
        cat2("successor_thread_id: ", opt_or(&output.successor_thread_id, "").as_str()),
    );
    push_text(
        &mut lines,
        cat2("successor_rollout_path: ", opt_or(&output.successor_rollout_path, "").as_str()),
    );
    push_text(
        &mut lines,
        cat2("resume_command: ", opt_or(&output.resume_command, "").as_str()),
    );
    push_text(&mut lines, cat2("source_archived: ", bool_str(output.source_archived)));
    if !output.brief.as_str().is_empty() {
        push_texts(&mut lines, &list_brief(output.brief.as_str()));
    }
    lines
}

// ------------------------------------------------------------------------- prompts

/// What a rewritten brief has to keep at a compression level.
pub open spec fn level_requirements_text(level: DistillCompressionLevel) -> Seq<char> {
    match level {
        DistillCompressionLevel::Lossless => "- Preserve nearly all actionable project context, recurring corrections, unresolved work, active constraints, and current technical facts.\n- Do not aggressively shorten sections just to save tokens.\n- Prefer complete but well-organized carry-over context over brevity.\n- Remove only greetings, obvious repetition, and fully resolved dead ends."@,
        DistillCompressionLevel::Balanced => "- Keep durable project context, recurring corrections, unresolved work, active constraints, and current technical facts.\n- Remove greetings, repeated explanations, and clearly resolved dead ends.\n- Prefer concise but still implementation-safe carry-over context."@,
        DistillCompressionLevel::Aggressive => "- Keep only durable project context, current goals, unresolved work, active constraints, and risks.\n- Drop greetings, repeated explanations, solved dead ends, and verbose prose.\n- Be aggressively concise while preserving only the highest-signal facts."@,
    }
}

/// What a rewritten brief has to keep at a compression level.
pub fn level_requirements(level: DistillCompressionLevel) -> (out: &'static str)
    ensures
        out@ == level_requirements_text(level),
{
    match level {
        DistillCompressionLevel::Lossless => "- Preserve nearly all actionable project context, recurring corrections, unresolved work, active constraints, and current technical facts.\n- Do not aggressively shorten sections just to save tokens.\n- Prefer complete but well-organized carry-over context over brevity.\n- Remove only greetings, obvious repetition, and fully resolved dead ends.",
        DistillCompressionLevel::Balanced => "- Keep durable project context, recurring corrections, unresolved work, active constraints, and current technical facts.\n- Remove greetings, repeated explanations, and clearly resolved dead ends.\n- Prefer concise but still implementation-safe carry-over context.",
        DistillCompressionLevel::Aggressive => "- Keep only durable project context, current goals, unresolved work, active constraints, and risks.\n- Drop greetings, repeated explanations, solved dead ends, and verbose prose.\n- Be aggressively concise while preserving only the highest-signal facts.",
    }
}

/// The prompt with which a model rewrites a brief.
pub open spec fn distillation_prompt_text(
    deterministic_brief: Seq<char>,
    compression_policy: DistillCompressionPolicy,
) -> Seq<char> {
    "You are distilling a Codex project session into a lightweight successor handoff.\n\nRewrite the following deterministic handoff into a shorter, higher-signal brief.\n\nRequirements:\n"@
        + level_requirements_text(compression_policy.level)
        + "\n- Preserve concrete technical facts when they still matter.\n- Preserve the entire `# Pinned Facts` section exactly, including every bullet and value.\n- Preserve the substance of `# Durable Conventions And Corrections`; do not collapse it into vague wording.\n- Keep the `# Successor Instructions` section intact in meaning.\n- Output plain markdown with clear section headers.\n\nSource brief:\n\n"@
        + deterministic_brief
}

/// The prompt with which a model rewrites a brief.
pub fn codex_distillation_prompt(
    deterministic_brief: &str,
    compression_policy: DistillCompressionPolicy,
) -> (out: String)
    ensures
        out@ == distillation_prompt_text(deterministic_brief@, compression_policy),
{
    cat4(
        "You are distilling a Codex project session into a lightweight successor handoff.\n\nRewrite the following deterministic handoff into a shorter, higher-signal brief.\n\nRequirements:\n",
        level_requirements(compression_policy.level),
        "\n- Preserve concrete technical facts when they still matter.\n- Preserve the entire `# Pinned Facts` section exactly, including every bullet and value.\n- Preserve the substance of `# Durable Conventions And Corrections`; do not collapse it into vague wording.\n- Keep the `# Successor Instructions` section intact in meaning.\n- Output plain markdown with clear section headers.\n\nSource brief:\n\n",
        deterministic_brief,
    )
}

/// The first message to a successor.
pub open spec fn seed_prompt_text(brief: Seq<char>) -> Seq<char> {
    "Read and internalize the following distilled handoff brief for this project successor session.\n\n"@
        + brief
        + "\n\nReply with READY and one short sentence confirming the current project focus."@
}

/// The first message to a successor.
pub fn handoff_seed_prompt(brief: &str) -> (out: String)
    ensures
        out@ == seed_prompt_text(brief@),
{
    cat3(
        "Read and internalize the following distilled handoff brief for this project successor session.\n\n",
        brief,
        "\n\nReply with READY and one short sentence confirming the current project focus.",
    )
}

// --------------------------------------------------------------------------- facts

/// The messages of a list that hold guidance of high priority.
pub open spec fn high_priority_of(messages: Seq<Seq<char>>) -> Seq<Seq<char>>
    decreases messages.len(),
{
    if messages.len() == 0 {
        Seq::empty()
    } else if mentions_any(messages.last(), high_priority_words()) {
        high_priority_of(messages.drop_last()).push(messages.last())
    } else {
        high_priority_of(messages.drop_last())
    }
}

fn keep_high_priority(messages: &Vec<String>) -> (out: Vec<String>)
    ensures
        text::texts(out@) == high_priority_of(text::texts(messages@)),
{
    let mut out = no_texts();
    let ghost all = text::texts(messages@);
    assert(all.take(0) =~= Seq::<Seq<char>>::empty());
    for i in 0..messages.len()
        invariant
            all == text::texts(messages@),
            text::texts(out@) == high_priority_of(all.take(i as int)),
    {
        assert(all.take(i + 1).drop_last() =~= all.take(i as int));
        assert(all[i as int] == messages@[i as int]@);
        if is_high_priority_guidance(messages[i].as_str()) {
            push_text(&mut out, messages[i].clone());
        }
    }
    assert(all.take(all.len() as int) =~= all);
    out
}

/// The first entries of a list, at most `count` of them.
pub open spec fn first_entries(items: Seq<Seq<char>>, count: nat) -> Seq<Seq<char>> {
    if items.len() <= count {
        items
    } else {
        items.take(count as int)
    }
}

fn take_entries(items: &Vec<String>, count: usize) -> (out: Vec<String>)
    ensures
        text::texts(out@) == first_entries(text::texts(items@), count as nat),
{
    let mut out = clone_texts(items);
    out.truncate(count);
    assert(text::texts(out@) =~= first_entries(text::texts(items@), count as nat));
    out
}

/// The facts for the guidance that a policy pins.
pub open spec fn pinned_guidance(
    analysis: DistillAnalysisView,
    policy: DistillCompressionPolicy,
) -> Seq<Seq<char>> {
    labelled_lines_text(
        "- Critical guidance: "@,
        first_entries(
            high_priority_of(analysis.durable_guidance),
            policy.pinned_guidance_items as nat,
        ),
        policy.guidance_chars,
    )
}

fn list_pinned_guidance(analysis: &DistillAnalysis, policy: DistillCompressionPolicy) -> (out: Vec<
    String,
>)
    ensures
        text::texts(out@) == pinned_guidance(analysis@, policy),
{
    let critical = keep_high_priority(&analysis.durable_guidance);
    labelled_lines(
        "- Critical guidance: ",
        &take_entries(&critical, policy.pinned_guidance_items),
        policy.guidance_chars,
    )
}

/// The names of the tools that a fact lists.
pub open spec fn pinned_tools(
    preview: PromptPreviewSnapshotView,
    policy: DistillCompressionPolicy,
) -> Seq<char> {
    lines::joined(first_entries(preview.tool_names, policy.pinned_tool_names as nat), ", "@)
}

fn list_pinned_tools(preview: &PromptPreviewSnapshot, policy: DistillCompressionPolicy) -> (out:
    String)
    ensures
        out@ == pinned_tools(preview@, policy),
{
    join(&take_entries(&preview.tool_names, policy.pinned_tool_names), ", ")
}

/// The reasons for a settings update, or `none`.
pub open spec fn reasons_or_none(reasons: Seq<Seq<char>>) -> Seq<char> {
    if reasons.len() == 0 {
        "none"@
    } else {
        lines::joined(reasons, ", "@)
    }
}

fn join_reasons(reasons: &Vec<String>) -> (out: String)
    ensures
        out@ == reasons_or_none(text::texts(reasons@)),
{
    if reasons.len() == 0 {
        "none".to_owned()
    } else {
        join(reasons, ", ")
    }
}

/// Facts on the session and on the runtime of its successor.
pub open spec fn session_facts_text(
    summary: SessionSummaryView,
    preview: PromptPreviewSnapshotView,
    runtime: RuntimeConfigView,
) -> Seq<Seq<char>> {
    let lines = Seq::<Seq<char>>::empty();
    let lines = lines.push("- Reconstructed resume baseline: "@
            + numbers::decimal(preview.history_items_count as int)
            + " history items, about "@
            + numbers::decimal(preview.history_tokens_estimate as int)
            + " tokens before base instructions and tool schema."@);
    let lines = lines.push("- Successor runtime target: provider `"@
            + runtime.model_provider_id
            + "`, model `"@
            + text::text_or(runtime.model, ""@)
            + "`, context window `"@
            + numbers::opt_decimal(numbers::opt_int_i64(runtime.model_context_window), "unset"@)
            + "`, auto-compact threshold `"@
            + numbers::opt_decimal(numbers::opt_int_i64(runtime.model_auto_compact_token_limit), "unset"@)
            + "`."@);
    let lines = if let Some(previous_turn_model) = preview.previous_turn_model {
        let lines = lines.push("- Previous surviving turn model: `"@ + previous_turn_model + "`."@);
        lines
    } else {
        lines
    };
    let lines = if let Some(forked_from_id) = summary.forked_from_id {
        let lines = lines.push("- Source thread was forked from `"@ + forked_from_id + "`."@);
        lines
    } else {
        lines
    };
    let lines = if let Some(memory_mode) = summary.memory_mode {
        let lines = lines.push("- Source thread memory mode: `"@ + memory_mode + "`."@);
        lines
    } else {
        lines
    };
    lines
}

/// Facts on the session and on the runtime of its successor.
pub fn session_facts(
    summary: &SessionSummary,
    preview: &PromptPreviewSnapshot,
    runtime: &RuntimeConfig,
) -> (out: Vec<String>)
    ensures
        text::reads(out@, session_facts_text(summary@, preview@, runtime@)),
{
    let mut lines = no_texts();
    push_text(
        &mut lines,
        cat5(
            "- Reconstructed resume baseline: ",
            usize_text(preview.history_items_count).as_str(),
            " history items, about ",
            usize_text(preview.history_tokens_estimate).as_str(),
            " tokens before base instructions and tool schema.",
        ),
    );
    push_text(
        &mut lines,
        cat9(
            "- Successor runtime target: provider `",
            runtime.model_provider_id.as_str(),
            "`, model `",
            opt_or(&runtime.model, "").as_str(),
            "`, context window `",
            opt_i64_text(runtime.model_context_window, "unset").as_str(),
            "`, auto-compact threshold `",
            opt_i64_text(runtime.model_auto_compact_token_limit, "unset").as_str(),
            "`.",
        ),
    );
    if let Some(previous_turn_model) = &preview.previous_turn_model {
        push_text(
            &mut lines,
            cat3("- Previous surviving turn model: `", previous_turn_model.as_str(), "`."),
        );
    }
    if let Some(forked_from_id) = &summary.forked_from_id {
        push_text(
            &mut lines,
            cat3("- Source thread was forked from `", forked_from_id.as_str(), "`."),
        );
    }
    if let Some(memory_mode) = &summary.memory_mode {
        push_text(
            &mut lines,
            cat3("- Source thread memory mode: `", memory_mode.as_str(), "`."),
        );
    }
    lines
}

/// The fact on how the next turn tells the model of its context.
pub open spec fn strategy_facts_text(preview: PromptPreviewSnapshotView) -> Seq<Seq<char>> {
    let lines = Seq::<Seq<char>>::empty();
    let lines = match preview.context_strategy {
        NextTurnContextStrategyView::FullInitialContext {
            model_switch_message,
            memory_prompt,
            developer_instructions,
            user_instructions,
        } => {
            let lines = lines.push("- Next real resume uses `full_initial_context` (model_switch_message="@
                    + numbers::bool_text(model_switch_message)
                    + ", memory_prompt="@
                    + numbers::bool_text(memory_prompt)
                    + ", developer_instructions="@
                    + numbers::bool_text(developer_instructions)
                    + ", user_instructions="@
                    + numbers::bool_text(user_instructions)
                    + ")."@);
            lines
        },
        NextTurnContextStrategyView::SettingsUpdate { model_switch_message, reasons } => {
            let lines = lines.push("- Next real resume uses `settings_update` (model_switch_message="@
                    + numbers::bool_text(model_switch_message)
                    + ", reasons="@
                    + reasons_or_none(reasons)
                    + ")."@);
            lines
        },
    };
    lines
}

/// The fact on how the next turn tells the model of its context.
pub fn strategy_facts(preview: &PromptPreviewSnapshot) -> (out: Vec<String>)
    ensures
        text::reads(out@, strategy_facts_text(preview@)),
{
    let mut lines = no_texts();
    match &preview.context_strategy {
        NextTurnContextStrategy::FullInitialContext {
            model_switch_message,
            memory_prompt,
            developer_instructions,
            user_instructions,
        } => {
            push_text(
                &mut lines,
                cat9(
                    "- Next real resume uses `full_initial_context` (model_switch_message=",
                    bool_str(*model_switch_message),
                    ", memory_prompt=",
                    bool_str(*memory_prompt),
                    ", developer_instructions=",
                    bool_str(*developer_instructions),
                    ", user_instructions=",
                    bool_str(*user_instructions),
                    ").",
                ),
            );
        },
        NextTurnContextStrategy::SettingsUpdate { model_switch_message, reasons } => {
            push_text(
                &mut lines,
                cat5(
                    "- Next real resume uses `settings_update` (model_switch_message=",
                    bool_str(*model_switch_message),
                    ", reasons=",
                    join_reasons(reasons).as_str(),
                    ").",
                ),
            );
        },
    }
    lines
}

/// Facts on memory, instructions and tools.
pub open spec fn prompt_facts_text(
    preview: PromptPreviewSnapshotView,
    policy: DistillCompressionPolicy,
) -> Seq<Seq<char>> {
    let lines = Seq::<Seq<char>>::empty();
    let lines = lines.push("- Memory prompt available on resume: "@
            + numbers::bool_text(preview.memory_prompt_available)
            + " (summary tokens `"@
            + numbers::opt_decimal(numbers::opt_int_usize(preview.memory_summary_tokens_estimate), "unknown"@)
            + "`)."@);
    let lines = lines.push("- Runtime developer instructions present: "@
            + numbers::bool_text(preview.developer_instructions_present)
            + "; runtime user instructions present: "@
            + numbers::bool_text(preview.user_instructions_present)
            + "."@);
    let lines = if preview.tool_count > 0 {
        let lines = lines.push("- Next resume injects "@
                + numbers::decimal(preview.tool_count as int)
                + " built-in/dynamic tools with about "@
                + numbers::decimal(preview.tool_schema_tokens_estimate as int)
                + " schema tokens."@);
        let lines = if pinned_tools(preview, policy).len() > 0 {
            let lines = lines.push("- Representative tool names: "@ + pinned_tools(preview, policy) + "."@);
            lines
        } else {
            lines
        };
        lines
    } else {
        lines
    };
    let lines = if let Some(replacement_items) = preview.latest_compaction_replacement_items {
        let lines = lines.push("- Latest compaction replacement history currently contributes "@
                + numbers::decimal(replacement_items as int)
                + " item(s)."@);
        lines
    } else {
        lines
    };
    let lines = if preview.reference_context_item is Some {
        let lines = lines.push("- A reference context item survives in the reconstructed resume state."@);
        lines
    } else {
        lines
    };
    lines
}

/// Facts on memory, instructions and tools.
pub fn prompt_facts(
    preview: &PromptPreviewSnapshot,
    policy: DistillCompressionPolicy,
) -> (out: Vec<String>)
    ensures
        text::reads(out@, prompt_facts_text(preview@, policy)),
{
    let mut lines = no_texts();
    push_text(
        &mut lines,
        cat5(
            "- Memory prompt available on resume: ",
            bool_str(preview.memory_prompt_available),
            " (summary tokens `",
            opt_usize_text(preview.memory_summary_tokens_estimate, "unknown").as_str(),
            "`).",
        ),
    );
    push_text(
        &mut lines,
        cat5(
            "- Runtime developer instructions present: ",
            bool_str(preview.developer_instructions_present),
            "; runtime user instructions present: ",
            bool_str(preview.user_instructions_present),
            ".",
        ),
    );
    if preview.tool_count > 0 {
        push_text(
            &mut lines,
            cat5(
                "- Next resume injects ",
                usize_text(preview.tool_count).as_str(),
                " built-in/dynamic tools with about ",
                usize_text(preview.tool_schema_tokens_estimate).as_str(),
                " schema tokens.",
            ),
        );
        if !list_pinned_tools(preview, policy).as_str().is_empty() {
            push_text(
                &mut lines,
                cat3(
                    "- Representative tool names: ",
                    list_pinned_tools(preview, policy).as_str(),
                    ".",
                ),
            );
        }
    }
    if let Some(replacement_items) = preview.latest_compaction_replacement_items {
        push_text(
            &mut lines,
            cat3(
                "- Latest compaction replacement history currently contributes ",
                usize_text(replacement_items).as_str(),
                " item(s).",
            ),
        );
    }
    if preview.reference_context_item.is_some() {
        push_text(
            &mut lines,
            "- A reference context item survives in the reconstructed resume state.".to_owned(),
        );
    }
    lines
}

/// Everything that a brief is to keep word for word, in its order.
pub open spec fn candidate_facts_text(
    summary: SessionSummaryView,
    analysis: DistillAnalysisView,
    preview: PromptPreviewSnapshotView,
    runtime: RuntimeConfigView,
    policy: DistillCompressionPolicy,
) -> Seq<Seq<char>> {
    let lines = Seq::<Seq<char>>::empty();
    let lines = lines + pinned_guidance(analysis, policy);
    let lines = lines + session_facts_text(summary, preview, runtime);
    let lines = lines + strategy_facts_text(preview);
    let lines = lines + prompt_facts_text(preview, policy);
    lines
}

/// Everything that a brief is to keep word for word, in its order.
pub fn candidate_facts(
    summary: &SessionSummary,
    analysis: &DistillAnalysis,
    preview: &PromptPreviewSnapshot,
    runtime: &RuntimeConfig,
    policy: DistillCompressionPolicy,
) -> (out: Vec<String>)
    ensures
        text::reads(out@, candidate_facts_text(summary@, analysis@, preview@, runtime@, policy)),
{
    let mut lines = no_texts();
    push_texts(&mut lines, &list_pinned_guidance(analysis, policy));
    push_texts(&mut lines, &session_facts(summary, preview, runtime));
    push_texts(&mut lines, &strategy_facts(preview));
    push_texts(&mut lines, &prompt_facts(preview, policy));
    lines
}

/// The facts that a brief has to keep word for word, none twice.
pub open spec fn pinned_facts_text(
    summary: SessionSummaryView,
    analysis: DistillAnalysisView,
    preview: PromptPreviewSnapshotView,
    runtime: RuntimeConfigView,
    policy: DistillCompressionPolicy,
) -> Seq<Seq<char>> {
    lines::first_occurrences(candidate_facts_text(summary, analysis, preview, runtime, policy))
}

/// The facts that a brief has to keep word for word, none twice.
pub fn collect_pinned_facts(
    summary: &SessionSummary,
    analysis: &DistillAnalysis,
    preview: &PromptPreviewSnapshot,
    runtime: &RuntimeConfig,
    policy: DistillCompressionPolicy,
) -> (out: Vec<String>)
    ensures
        text::texts(out@) == pinned_facts_text(summary@, analysis@, preview@, runtime@, policy),
{
    keep_first_occurrences(&candidate_facts(summary, analysis, preview, runtime, policy))
}

// ------------------------------------------------------------------ names and efforts

/// How hard a model is asked to think.
#[derive(Debug, Clone, Copy, PartialEq, Eq, Structural)]
pub enum ReasoningEffort {
    NoReasoning,
    Minimal,
    Low,
    Medium,
    High,
    XHigh,
}

/// Why a distillation cannot be made.
#[derive(Debug, PartialEq, Eq)]
pub enum DistillError {
    /// No recent turns are asked for.
    NoRecentTurns,
    /// A reasoning effort that does not exist.
    UnsupportedReasoningEffort { effort: String },
    /// The name that was asked for is empty.
    EmptyThreadName,
    /// No name can be made up.
    NoThreadName,
    /// There is no model for the successor.
    NoSuccessorModel,
    /// There is no model for the rewriting of the brief.
    NoDistillationModel,
    /// The model did not answer.
    NoAssistantMessage,
    /// The seed turn did not end in time.
    SeedTimeout { submit_id: String },
}

/// What a [`DistillError`] stands for.
pub enum DistillErrorView {
    NoRecentTurns,
    UnsupportedReasoningEffort { effort: Seq<char> },
    EmptyThreadName,
    NoThreadName,
    NoSuccessorModel,
    NoDistillationModel,
    NoAssistantMessage,
    SeedTimeout { submit_id: Seq<char> },
}

impl View for DistillError {
    type V = DistillErrorView;

    open spec fn view(&self) -> DistillErrorView {
        match *self {
            DistillError::NoRecentTurns => DistillErrorView::NoRecentTurns,
            DistillError::UnsupportedReasoningEffort { effort } => {
                DistillErrorView::UnsupportedReasoningEffort { effort: effort@ }
            },
            DistillError::EmptyThreadName => DistillErrorView::EmptyThreadName,
            DistillError::NoThreadName => DistillErrorView::NoThreadName,
            DistillError::NoSuccessorModel => DistillErrorView::NoSuccessorModel,
            DistillError::NoDistillationModel => DistillErrorView::NoDistillationModel,
            DistillError::NoAssistantMessage => DistillErrorView::NoAssistantMessage,
            DistillError::SeedTimeout { submit_id } => DistillErrorView::SeedTimeout {
                submit_id: submit_id@,
            },
        }
    }
}

impl DeepView for DistillError {
    type V = DistillErrorView;

    open spec fn deep_view(&self) -> DistillErrorView {
        self@
    }
}

impl Clone for DistillError {
    fn clone(&self) -> (out: Self)
        ensures
            out@ == self@,
    {
        match self {
            DistillError::NoRecentTurns => DistillError::NoRecentTurns,
            DistillError::UnsupportedReasoningEffort { effort } => {
                DistillError::UnsupportedReasoningEffort { effort: effort.clone() }
            },
            DistillError::EmptyThreadName => DistillError::EmptyThreadName,
            DistillError::NoThreadName => DistillError::NoThreadName,
            DistillError::NoSuccessorModel => DistillError::NoSuccessorModel,
            DistillError::NoDistillationModel => DistillError::NoDistillationModel,
            DistillError::NoAssistantMessage => DistillError::NoAssistantMessage,
            DistillError::SeedTimeout { submit_id } => DistillError::SeedTimeout {
                submit_id: submit_id.clone(),
            },
        }
    }
}

/// The message for an error.
pub open spec fn distill_error_text(error: DistillErrorView) -> Seq<char> {
    match error {
        DistillErrorView::NoRecentTurns => "recent_turns must be >= 1"@,
        DistillErrorView::UnsupportedReasoningEffort { effort } => "unsupported reasoning effort `"@
            + effort
            + "`; expected one of: none, minimal, low, medium, high, xhigh"@,
        DistillErrorView::EmptyThreadName => "thread name must not be empty for distilled successor"@,
        DistillErrorView::NoThreadName => "failed to derive distilled successor thread name"@,
        DistillErrorView::NoSuccessorModel => "could not resolve model slug for distilled successor"@,
        DistillErrorView::NoDistillationModel => "could not resolve model slug for codex distillation"@,
        DistillErrorView::NoAssistantMessage => "codex distillation returned no assistant message"@,
        DistillErrorView::SeedTimeout { submit_id } => "timed out waiting for distilled seed turn `"@ + submit_id + "`"@,
    }
}

/// The message for an error.
pub fn distill_error_message(error: &DistillError) -> (out: String)
    ensures
        out@ == distill_error_text(error@),
{
    match error {
        DistillError::NoRecentTurns => "recent_turns must be >= 1".to_owned(),
        DistillError::UnsupportedReasoningEffort { effort } => cat3(
            "unsupported reasoning effort `",
            effort.as_str(),
            "`; expected one of: none, minimal, low, medium, high, xhigh",
        ),
        DistillError::EmptyThreadName => "thread name must not be empty for distilled successor".to_owned(),
        DistillError::NoThreadName => "failed to derive distilled successor thread name".to_owned(),
        DistillError::NoSuccessorModel => "could not resolve model slug for distilled successor".to_owned(),
        DistillError::NoDistillationModel => "could not resolve model slug for codex distillation".to_owned(),
        DistillError::NoAssistantMessage => "codex distillation returned no assistant message".to_owned(),
        DistillError::SeedTimeout { submit_id } => cat3("timed out waiting for distilled seed turn `", submit_id.as_str(), "`"),
    }
}

/// The effort that a word stands for.
pub open spec fn effort_named(word: Seq<char>) -> Option<ReasoningEffort> {
    if word == "none"@ {
        Some(ReasoningEffort::NoReasoning)
    } else if word == "minimal"@ {
        Some(ReasoningEffort::Minimal)
    } else if word == "low"@ {
        Some(ReasoningEffort::Low)
    } else if word == "medium"@ {
        Some(ReasoningEffort::Medium)
    } else if word == "high"@ {
        Some(ReasoningEffort::High)
    } else if word == "xhigh"@ || word == "x-high"@ {
        Some(ReasoningEffort::XHigh)
    } else {
        None
    }
}

/// Reads a reasoning effort. White space around it and capital letters do not
/// matter.
pub fn parse_reasoning_effort(value: Option<&str>) -> (out: Result<
    Option<ReasoningEffort>,
    DistillError,
>)
    ensures
        match value {
            None => out == Ok::<Option<ReasoningEffort>, DistillError>(None),
            Some(value) => {
                let word = search::lowered(text::trimmed(value@));
                match effort_named(word) {
                    Some(effort) => out == Ok::<Option<ReasoningEffort>, DistillError>(
                        Some(effort),
                    ),
                    None => out matches Err(error) && error@
                        == (DistillErrorView::UnsupportedReasoningEffort { effort: word }),
                }
            },
        },
{
    match value {
        None => Ok(None),
        Some(value) => {
            let word = lower(trim(value).as_str());
            if same_text(word.as_str(), "none") {
                Ok(Some(ReasoningEffort::NoReasoning))
            } else if same_text(word.as_str(), "minimal") {
                Ok(Some(ReasoningEffort::Minimal))
            } else if same_text(word.as_str(), "low") {
                Ok(Some(ReasoningEffort::Low))
            } else if same_text(word.as_str(), "medium") {
                Ok(Some(ReasoningEffort::Medium))
            } else if same_text(word.as_str(), "high") {
                Ok(Some(ReasoningEffort::High))
            } else if same_text(word.as_str(), "xhigh") || same_text(word.as_str(), "x-high") {
                Ok(Some(ReasoningEffort::XHigh))
            } else {
                Err(DistillError::UnsupportedReasoningEffort { effort: word })
            }
        },
    }
}

/// The name for a successor before it is normalised: the one that is asked
/// for, or one made from the title of the session.
pub open spec fn successor_name(
    summary: SessionSummaryView,
    override_name: Option<Seq<char>>,
) -> Seq<char> {
    match override_name {
        Some(name) => name,
        None => "Distilled · "@ + search::shortened(session_title(summary), 72),
    }
}

/// The name for a successor before it is normalised.
pub fn propose_thread_name(
    summary: &SessionSummary,
    override_name: &Option<String>,
) -> (out: String)
    ensures
        out@ == successor_name(summary@, text::opt_text(*override_name)),
{
    match override_name {
        Some(name) => name.clone(),
        None => {
            let base = title_of(summary);
            let short = truncate_for_brief(base.as_str(), 72);
            cat2("Distilled · ", short.as_str())
        },
    }
}

/// The name for a successor, given what normalising the proposed one came to.
pub fn default_distilled_thread_name(
    override_name: &Option<String>,
    normalized: Option<String>,
) -> (out: Result<String, DistillError>)
    ensures
        match normalized {
            Some(name) => out matches Ok(chosen) && chosen@ == name@,
            None => out matches Err(error) && error@ == (if override_name is Some {
                DistillErrorView::EmptyThreadName
            } else {
                DistillErrorView::NoThreadName
            }),
        },
{
    match normalized {
        Some(name) => Ok(name),
        None => if override_name.is_some() {
            Err(DistillError::EmptyThreadName)
        } else {
            Err(DistillError::NoThreadName)
        },
    }
}

// ----------------------------------------------------------------------------- laws

proof fn newest_distinct_are_newest(items: Seq<Seq<char>>, kept: Seq<Seq<char>>, limit: nat)
    requires
        limit > 0 ==> kept.len() < limit,
    ensures
        ({
            let out = newest_distinct(items, kept, limit);
            &&& kept.is_prefix_of(out)
            &&& forall|j: int|
                kept.len() <= j < out.len() ==> exists|q: int|
                    0 <= q < items.len() && items[q] == #[trigger] out[j] && forall|r: int|
                        q < r < items.len() ==> out.take(j).contains(#[trigger] items[r])
        }),
    decreases items.len(),
{
    let out = newest_distinct(items, kept, limit);
    if items.len() == 0 {
        assert(kept.take(kept.len() as int) =~= kept);
    } else {
        let front = items.drop_last();
        let last = items.last();
        if kept.contains(last) {
            newest_distinct_are_newest(front, kept, limit);
            assert forall|j: int| kept.len() <= j < out.len() implies exists|q: int|
                0 <= q < items.len() && items[q] == #[trigger] out[j] && forall|r: int|
                    q < r < items.len() ==> out.take(j).contains(#[trigger] items[r]) by {
                let q = choose|q: int|
                    0 <= q < front.len() && front[q] == out[j] && forall|r: int|
                        q < r < front.len() ==> out.take(j).contains(#[trigger] front[r]);
                let k = choose|k: int| 0 <= k < kept.len() && kept[k] == last;
                assert(out.take(kept.len() as int)[k] == kept[k]);
                assert(out.take(j)[k] == last);
                assert forall|r: int| q < r < items.len() implies out.take(j).contains(
                    #[trigger] items[r],
                ) by {
                    if r < front.len() {
                        assert(front[r] == items[r]);
                    }
                }
                assert(items[q] == out[j]);
            }
        } else {
            let more = kept.push(last);
            if more.len() == limit {
                assert(out == more);
                assert(kept =~= out.take(kept.len() as int));
                assert(items[items.len() - 1] == out[kept.len() as int]);
            } else {
                newest_distinct_are_newest(front, more, limit);
                assert(more == out.take(more.len() as int));
                assert(kept =~= out.take(kept.len() as int)) by {
                    assert forall|i: int| 0 <= i < kept.len() implies kept[i] == out[i] by {
                        assert(more[i] == out.take(more.len() as int)[i]);
                    }
                }
                assert(out[kept.len() as int] == last) by {
                    assert(out.take(more.len() as int)[kept.len() as int] == last);
                }
                assert forall|j: int| kept.len() <= j < out.len() implies exists|q: int|
                    0 <= q < items.len() && items[q] == #[trigger] out[j] && forall|r: int|
                        q < r < items.len() ==> out.take(j).contains(#[trigger] items[r]) by {
                    if j == kept.len() {
                        assert(items[items.len() - 1] == out[j]);
                    } else {
                        let q = choose|q: int|
                            0 <= q < front.len() && front[q] == out[j] && forall|r: int|
                                q < r < front.len() ==> out.take(j).contains(#[trigger] front[r]);
                        assert(out.take(j)[kept.len() as int] == last);
                        assert forall|r: int| q < r < items.len() implies out.take(j).contains(
                            #[trigger] items[r],
                        ) by {
                            if r < front.len() {
                                assert(front[r] == items[r]);
                            }
                        }
                        assert(items[q] == out[j]);
                    }
                }
            }
        }
    }
}

/// The last distinct texts of a list are the newest ones, in the order in which
/// they last occur: each stands at a place in the list behind which there are only
/// texts that come behind it in the result.
pub proof fn kept_texts_are_the_newest(items: Seq<Seq<char>>, limit: nat, at: int)
    requires
        0 <= at < tail_dedup(items, limit).len(),
    ensures
        exists|q: int|
            0 <= q < items.len() && #[trigger] items[q] == tail_dedup(items, limit)[at] && forall|
                r: int,
            |
                q < r < items.len() ==> tail_dedup(items, limit).skip(at + 1).contains(
                    #[trigger] items[r],
                ),
{
    let newest = newest_distinct(items, Seq::empty(), limit);
    let out = tail_dedup(items, limit);
    newest_distinct_are_newest(items, Seq::empty(), limit);
    let j = newest.len() - 1 - at;
    assert(out[at] == newest[j]);
    let q = choose|q: int|
        0 <= q < items.len() && items[q] == newest[j] && forall|r: int|
            q < r < items.len() ==> newest.take(j).contains(#[trigger] items[r]);
    assert forall|r: int| q < r < items.len() implies out.skip(at + 1).contains(
        #[trigger] items[r],
    ) by {
        let k = choose|k: int| 0 <= k < newest.take(j).len() && newest.take(j)[k] == items[r];
        assert(out[newest.len() - 1 - k] == newest[k]);
        assert(out.skip(at + 1)[newest.len() - 1 - k - at - 1] == items[r]);
    }
    assert(items[q] == out[at]);
}

/// A word by which guidance that lasts is known.
pub open spec fn lasting_word(word: Seq<char>) -> bool {
    ||| word == "must"@
    ||| word == "should"@
    ||| word == "prefer"@
    ||| word == "always"@
    ||| word == "never"@
    ||| word == "style"@
    ||| word == "convention"@
    ||| word == "guideline"@
    ||| word == "source of truth"@
    ||| word == "remember this"@
    ||| word == "do not"@
    ||| word == "don't"@
    ||| word == "不要"@
    ||| word == "必须"@
    ||| word == "应该"@
    ||| word == "优先"@
    ||| word == "一律"@
    ||| word == "规范"@
    ||| word == "风格"@
    ||| word == "记住这个"@
    ||| word == "注意"@
    ||| word == "按照"@
    ||| word == "统一"@
    ||| word == "尽量"@
    ||| word == "避免"@
    ||| word == "不要用"@
    ||| word == "应该用"@
    ||| word == "保持"@
    ||| word == "source-backed"@
}

/// A word by which guidance of high priority is known.
pub open spec fn urgent_word(word: Seq<char>) -> bool {
    ||| word == "must"@
    ||| word == "always"@
    ||| word == "never"@
    ||| word == "do not"@
    ||| word == "don't"@
    ||| word == "source of truth"@
    ||| word == "remember this"@
    ||| word == "必须"@
    ||| word == "一律"@
    ||| word == "不要"@
    ||| word == "记住这个"@
    ||| word == "规范"@
    ||| word == "保持"@
    ||| word == "不要用"@
}

/// A message holds guidance that lasts exactly where one of the words for it
/// stands in the message, in small or capital letters, and likewise for guidance
/// of high priority.
pub proof fn guidance_is_known_by_its_words(message: Seq<char>)
    ensures
        mentions_any(message, durable_words()) <==> exists|word: Seq<char>|
            #[trigger] lasting_word(word) && search::contains(search::lowered(message), word),
        mentions_any(message, high_priority_words()) <==> exists|word: Seq<char>|
            #[trigger] urgent_word(word) && search::contains(search::lowered(message), word),
{
    lasting_words_are_listed(message);
    urgent_words_are_listed(message);
}

proof fn lasting_words_are_listed(message: Seq<char>)
    ensures
        mentions_any(message, durable_words()) <==> exists|word: Seq<char>|
            #[trigger] lasting_word(word) && search::contains(search::lowered(message), word),
{
    let words = durable_words();
    assert(words[0] == "must"@);
    assert(words[1] == "should"@);
    assert(words[2] == "prefer"@);
    assert(words[3] == "always"@);
    assert(words[4] == "never"@);
    assert(words[5] == "style"@);
    assert(words[6] == "convention"@);
    assert(words[7] == "guideline"@);
    assert(words[8] == "source of truth"@);
    assert(words[9] == "remember this"@);
    assert(words[10] == "do not"@);
    assert(words[11] == "don't"@);
    assert(words[12] == "不要"@);
    assert(words[13] == "必须"@);
    assert(words[14] == "应该"@);
    assert(words[15] == "优先"@);
    assert(words[16] == "一律"@);
    assert(words[17] == "规范"@);
    assert(words[18] == "风格"@);
    assert(words[19] == "记住这个"@);
    assert(words[20] == "注意"@);
    assert(words[21] == "按照"@);
    assert(words[22] == "统一"@);
    assert(words[23] == "尽量"@);
    assert(words[24] == "避免"@);
    assert(words[25] == "不要用"@);
    assert(words[26] == "应该用"@);
    assert(words[27] == "保持"@);
    assert(words[28] == "source-backed"@);
    if mentions_any(message, words) {
        let i = choose|i: int|
            0 <= i < words.len() && search::contains(
                search::lowered(message),
                #[trigger] words[i],
            );
        assert(lasting_word(words[i]));
    }
    if exists|word: Seq<char>|
        #[trigger] lasting_word(word) && search::contains(search::lowered(message), word) {
        let word = choose|word: Seq<char>|
            #[trigger] lasting_word(word) && search::contains(search::lowered(message), word);
        assert(words.contains(word));
        let i = choose|i: int| 0 <= i < words.len() && words[i] == word;
        assert(search::contains(search::lowered(message), words[i]));
    }
}

proof fn urgent_words_are_listed(message: Seq<char>)
    ensures
        mentions_any(message, high_priority_words()) <==> exists|word: Seq<char>|
            #[trigger] urgent_word(word) && search::contains(search::lowered(message), word),
{
    let words = high_priority_words();
    assert(words[0] == "must"@);
    assert(words[1] == "always"@);
    assert(words[2] == "never"@);
    assert(words[3] == "do not"@);
    assert(words[4] == "don't"@);
    assert(words[5] == "source of truth"@);
    assert(words[6] == "remember this"@);
    assert(words[7] == "必须"@);
    assert(words[8] == "一律"@);
    assert(words[9] == "不要"@);
    assert(words[10] == "记住这个"@);
    assert(words[11] == "规范"@);
    assert(words[12] == "保持"@);
    assert(words[13] == "不要用"@);
    if mentions_any(message, words) {
        let i = choose|i: int|
            0 <= i < words.len() && search::contains(
                search::lowered(message),
                #[trigger] words[i],
            );
        assert(urgent_word(words[i]));
    }
    if exists|word: Seq<char>|
        #[trigger] urgent_word(word) && search::contains(search::lowered(message), word) {
        let word = choose|word: Seq<char>|
            #[trigger] urgent_word(word) && search::contains(search::lowered(message), word);
        assert(words.contains(word));
        let i = choose|i: int| 0 <= i < words.len() && words[i] == word;
        assert(search::contains(search::lowered(message), words[i]));
    }
}

/// The text that an item says on one line, if it is a message: a message of the
/// user without superfluous white space, or the parts of a message of the agent.
pub open spec fn said_in(item: ResponseItemView) -> Option<Seq<char>> {
    match item.turn {
        TurnItemView::UserMessage { message } => Some(text::collapse(message)),
        TurnItemView::AgentMessage { content } => Some(
            text::trimmed(lines::joined(content, "\n"@)),
        ),
        TurnItemView::Other => None,
    }
}

/// The item is a message that holds guidance that lasts, and this is its text.
pub open spec fn guides(item: ResponseItemView, line: Seq<char>) -> bool {
    said_in(item) == Some(line) && exists|word: Seq<char>|
        #[trigger] lasting_word(word) && search::contains(search::lowered(line), word)
}

proof fn durable_lines_guide(items: Seq<ResponseItemView>, line: Seq<char>)
    ensures
        durable_lines(items).contains(line) <==> exists|i: int|
            0 <= i < items.len() && guides(#[trigger] items[i], line),
    decreases items.len(),
{
    if items.len() > 0 {
        let front = items.drop_last();
        let before = durable_lines(front);
        let all = durable_lines(items);
        durable_lines_guide(front, line);
        lasting_words_are_listed(line);
        if all.contains(line) {
            let k = choose|k: int| 0 <= k < all.len() && all[k] == line;
            if k < before.len() {
                assert(before[k] == line);
                let i = choose|i: int| 0 <= i < front.len() && guides(#[trigger] front[i], line);
                assert(guides(items[i], line));
            } else {
                assert(guides(items[items.len() - 1], line));
            }
        }
        if exists|i: int| 0 <= i < items.len() && guides(#[trigger] items[i], line) {
            let i = choose|i: int| 0 <= i < items.len() && guides(#[trigger] items[i], line);
            if i < front.len() {
                assert(guides(front[i], line));
                let k = choose|k: int| 0 <= k < before.len() && before[k] == line;
                assert(all[k] == line);
            } else {
                assert(all[all.len() - 1] == line);
            }
        }
    }
}

proof fn nothing_guides(items: Seq<ResponseItemView>, rest: Seq<ResponseItemView>)
    requires
        forall|i: int, line: Seq<char>| 0 <= i < rest.len() ==> !#[trigger] guides(rest[i], line),
    ensures
        durable_lines(items + rest) == durable_lines(items),
    decreases rest.len(),
{
    if rest.len() == 0 {
        assert(items + rest =~= items);
    } else {
        let front = rest.drop_last();
        assert forall|i: int, line: Seq<char>| 0 <= i < front.len() implies !#[trigger] guides(
            front[i],
            line,
        ) by {
            assert(front[i] == rest[i]);
        }
        nothing_guides(items, front);
        assert((items + rest).drop_last() =~= items + front);
        let last = rest[rest.len() - 1];
        if let Some(line) = said_in(last) {
            assert(!guides(last, line));
            lasting_words_are_listed(line);
        }
    }
}

/// The guidance that is collected from a history is the guidance in it, given by
/// the user or by the agent: nothing else is collected, all of it is where the
/// limit is not reached, and the newest of it always comes last.
pub proof fn guidance_of_user_and_agent_is_collected(
    items: Seq<ResponseItemView>,
    limit: nat,
    line: Seq<char>,
    at: int,
)
    ensures
        tail_dedup(durable_lines(items), limit).contains(line) ==> exists|i: int|
            0 <= i < items.len() && guides(#[trigger] items[i], line),
        (limit == 0 || tail_dedup(durable_lines(items), limit).len() < limit) && (exists|i: int|
            0 <= i < items.len() && guides(#[trigger] items[i], line)) ==> tail_dedup(
            durable_lines(items),
            limit,
        ).contains(line),
        0 <= at < items.len() && guides(items[at], line) && (forall|i: int, other: Seq<char>|
            at < i < items.len() ==> !#[trigger] guides(items[i], other)) ==> tail_dedup(
            durable_lines(items),
            limit,
        ).len() > 0 && tail_dedup(durable_lines(items), limit).last() == line,
{
    let all = durable_lines(items);
    let out = tail_dedup(all, limit);
    durable_lines_guide(items, line);
    tail_dedup_laws(all, limit);
    if out.contains(line) {
        let k = choose|k: int| 0 <= k < out.len() && out[k] == line;
        assert(all.contains(out[k]));
    }
    if all.contains(line) {
        let k = choose|k: int| 0 <= k < all.len() && all[k] == line;
        if limit == 0 || out.len() < limit {
            assert(out.contains(all[k]));
        }
    }
    if 0 <= at < items.len() && guides(items[at], line) && (forall|i: int, other: Seq<char>|
        at < i < items.len() ==> !#[trigger] guides(items[i], other)) {
        let first = items.take(at + 1);
        let rest = items.skip(at + 1);
        assert(items =~= first + rest);
        assert forall|i: int, other: Seq<char>| 0 <= i < rest.len() implies !#[trigger] guides(
            rest[i],
            other,
        ) by {
            assert(rest[i] == items[at + 1 + i]);
        }
        nothing_guides(first, rest);
        lasting_words_are_listed(line);
        assert(first.last() == items[at]);
        assert(all.last() == line);
    }
}

/// What was said is listed in its order: a message of the user among the requests
/// and a message of the agent among the outcomes, unless there is nothing in it;
/// warnings and errors likewise.
pub proof fn messages_are_listed_by_who_said_them(
    items: Seq<ResponseItemView>,
    item: ResponseItemView,
    records: Seq<RolloutLineView>,
    record: RolloutLineView,
)
    ensures
        user_lines(Seq::empty()).len() == 0,
        agent_lines(Seq::empty()).len() == 0,
        warning_lines(Seq::empty()).len() == 0,
        error_lines(Seq::empty()).len() == 0,
        user_lines(items.push(item)) == if item.turn is UserMessage && !text::blank(
            item.turn->UserMessage_message,
        ) {
            user_lines(items).push(text::collapse(item.turn->UserMessage_message))
        } else {
            user_lines(items)
        },
        agent_lines(items.push(item)) == if item.turn is AgentMessage && !text::blank(
            lines::joined(item.turn->AgentMessage_content, "\n"@),
        ) {
            agent_lines(items).push(
                text::trimmed(lines::joined(item.turn->AgentMessage_content, "\n"@)),
            )
        } else {
            agent_lines(items)
        },
        warning_lines(records.push(record)) == match record.item {
            RolloutItemView::EventMsg(EventMsgView::Warning { message }) => if !text::blank(
                message,
            ) {
                warning_lines(records).push(text::collapse(message))
            } else {
                warning_lines(records)
            },
            _ => warning_lines(records),
        },
        error_lines(records.push(record)) == match record.item {
            RolloutItemView::EventMsg(EventMsgView::Error { message }) => if !text::blank(message) {
                error_lines(records).push(text::collapse(message))
            } else {
                error_lines(records)
            },
            _ => error_lines(records),
        },
{
    assert(items.push(item).drop_last() =~= items);
    assert(records.push(record).drop_last() =~= records);
    if let TurnItemView::UserMessage { message } = item.turn {
        text::collapse_empty_iff_blank(message);
    }
    if let TurnItemView::AgentMessage { content } = item.turn {
        text::trimmed_empty_iff_blank(lines::joined(content, "\n"@));
    }
    if let RolloutItemView::EventMsg(EventMsgView::Warning { message }) = record.item {
        text::collapse_empty_iff_blank(message);
    }
    if let RolloutItemView::EventMsg(EventMsgView::Error { message }) = record.item {
        text::collapse_empty_iff_blank(message);
    }
}

/// An analysis keeps the newest distinct requests and outcomes, as many as are
/// asked for and never fewer than the policy wants; at least as many lines of
/// guidance; and six warnings and six errors. The summary of a compaction is the
/// one that the preview tells, or else the newest one in the rollout.
pub proof fn analysis_keeps_the_newest(
    items: Seq<ResponseItemView>,
    records: Seq<RolloutLineView>,
    preview: PromptPreviewSnapshotView,
    recent_turns: usize,
    policy: DistillCompressionPolicy,
)
    ensures
        ({
            let analysis = analysis_of(items, records, preview, recent_turns, policy);
            let turns = if recent_turns > policy.minimum_recent_turns {
                recent_turns
            } else {
                policy.minimum_recent_turns
            };
            let guidance = if turns > policy.minimum_durable_guidance {
                turns
            } else {
                policy.minimum_durable_guidance
            };
            &&& analysis.recent_user_messages == tail_dedup(user_lines(items), turns as nat)
            &&& analysis.recent_assistant_messages == tail_dedup(agent_lines(items), turns as nat)
            &&& analysis.durable_guidance == tail_dedup(durable_lines(items), guidance as nat)
            &&& analysis.recent_warnings == tail_dedup(warning_lines(records), 6)
            &&& analysis.recent_errors == tail_dedup(error_lines(records), 6)
            &&& analysis.prompt_reconstruction_notes == reconstruction_notes_text(preview)
            &&& preview.latest_compaction_summary is Some ==> analysis.latest_compaction_summary
                == preview.latest_compaction_summary
            &&& preview.latest_compaction_summary is None ==> analysis.latest_compaction_summary
                == newest_summary(records)
        }),
{
}

proof fn summary_is_behind(records: Seq<RolloutLineView>, rest: Seq<RolloutLineView>)
    requires
        forall|i: int|
            0 <= i < rest.len() ==> ((#[trigger] rest[i]).item matches RolloutItemView::Compacted(c)
                ==> text::blank(c.message)),
    ensures
        newest_summary(records + rest) == newest_summary(records),
    decreases rest.len(),
{
    if rest.len() == 0 {
        assert(records + rest =~= records);
    } else {
        assert((records + rest).drop_last() =~= records + rest.drop_last());
        let last = rest[rest.len() - 1];
        if let RolloutItemView::Compacted(compacted) = last.item {
            text::collapse_empty_iff_blank(compacted.message);
        }
        summary_is_behind(records, rest.drop_last());
    }
}

/// The newest summary in a rollout is that of the last compaction which has one.
pub proof fn last_summary_counts(
    records: Seq<RolloutLineView>,
    record: RolloutLineView,
    rest: Seq<RolloutLineView>,
)
    requires
        forall|i: int|
            0 <= i < rest.len() ==> ((#[trigger] rest[i]).item matches RolloutItemView::Compacted(c)
                ==> text::blank(c.message)),
    ensures
        newest_summary(rest) is None,
        record.item matches RolloutItemView::Compacted(c) ==> (!text::blank(c.message)
            ==> newest_summary(records.push(record) + rest) == Some(text::collapse(c.message))),
{
    summary_is_behind(records.push(record), rest);
    summary_is_behind(Seq::empty(), rest);
    assert(Seq::empty() + rest =~= rest);
    assert(records.push(record).drop_last() =~= records);
    if let RolloutItemView::Compacted(compacted) = record.item {
        text::collapse_empty_iff_blank(compacted.message);
    }
}

/// How much each level of compression keeps.
pub proof fn levels_keep_this_much(level: DistillCompressionLevel)
    ensures
        ({
            let policy = policy_of(level);
            &&& policy.level == level
            &&& level is Lossless ==> policy.minimum_recent_turns == 24
                && policy.minimum_durable_guidance == 32 && policy.pinned_guidance_items == 10
                && policy.pinned_tool_names == 8 && policy.compaction_summary_chars == 3600
                && policy.request_chars == 640 && policy.outcome_chars == 640
                && policy.guidance_chars == 900 && policy.warning_chars == 480
            &&& level is Balanced ==> policy.minimum_recent_turns == 12
                && policy.minimum_durable_guidance == 20 && policy.pinned_guidance_items == 6
                && policy.pinned_tool_names == 5 && policy.compaction_summary_chars == 2400
                && policy.request_chars == 480 && policy.outcome_chars == 480
                && policy.guidance_chars == 540 && policy.warning_chars == 320
            &&& level is Aggressive ==> policy.minimum_recent_turns == 8
                && policy.minimum_durable_guidance == 12 && policy.pinned_guidance_items == 4
                && policy.pinned_tool_names == 3 && policy.compaction_summary_chars == 1800
                && policy.request_chars == 320 && policy.outcome_chars == 320
                && policy.guidance_chars == 360 && policy.warning_chars == 240
        }),
{
}

/// Every request, outcome and line of guidance that an analysis kept stands in the
/// brief under its number, and every warning and error under its kind, each cut to
/// what the policy allows; so do all pinned facts and notes, what the session is,
/// and what its successor has to do.
pub proof fn brief_tells_what_was_kept(
    summary: SessionSummaryView,
    analysis: DistillAnalysisView,
    policy: DistillCompressionPolicy,
    at: int,
)
    requires
        analysis.recent_user_messages.len() < usize::MAX,
        analysis.recent_assistant_messages.len() < usize::MAX,
        analysis.durable_guidance.len() < usize::MAX,
    ensures
        ({
            let brief = brief_lines_text(summary, analysis, policy);
            &&& 0 <= at < analysis.recent_user_messages.len() ==> brief.contains(
                numbers::decimal(at + 1) + ". "@ + search::shortened(
                    analysis.recent_user_messages[at],
                    policy.request_chars as nat,
                ),
            )
            &&& 0 <= at < analysis.recent_assistant_messages.len() ==> brief.contains(
                numbers::decimal(at + 1) + ". "@ + search::shortened(
                    analysis.recent_assistant_messages[at],
                    policy.outcome_chars as nat,
                ),
            )
            &&& 0 <= at < analysis.durable_guidance.len() ==> brief.contains(
                numbers::decimal(at + 1) + ". "@ + search::shortened(
                    analysis.durable_guidance[at],
                    policy.guidance_chars as nat,
                ),
            )
            &&& 0 <= at < analysis.recent_warnings.len() ==> brief.contains(
                "- warning: "@ + search::shortened(
                    analysis.recent_warnings[at],
                    policy.warning_chars as nat,
                ),
            )
            &&& 0 <= at < analysis.recent_errors.len() ==> brief.contains(
                "- error: "@ + search::shortened(
                    analysis.recent_errors[at],
                    policy.warning_chars as nat,
                ),
            )
            &&& 0 <= at < analysis.pinned_facts.len() ==> brief.contains(analysis.pinned_facts[at])
            &&& 0 <= at < analysis.prompt_reconstruction_notes.len() ==> brief.contains(
                analysis.prompt_reconstruction_notes[at],
            )
        }),
{
    let requests = numbered_lines_text(analysis.recent_user_messages, policy.request_chars);
    let outcomes = numbered_lines_text(analysis.recent_assistant_messages, policy.outcome_chars);
    let guidance = numbered_lines_text(analysis.durable_guidance, policy.guidance_chars);
    let warnings = labelled_lines_text(
        "- warning: "@,
        analysis.recent_warnings,
        policy.warning_chars,
    );
    let errors = labelled_lines_text("- error: "@, analysis.recent_errors, policy.warning_chars);
    if 0 <= at < requests.len() {
        carried_line_is_in_the_brief(summary, analysis, policy, requests[at]);
        assert(requests.contains(requests[at]));
    }
    if 0 <= at < outcomes.len() {
        carried_line_is_in_the_brief(summary, analysis, policy, outcomes[at]);
        assert(outcomes.contains(outcomes[at]));
    }
    if 0 <= at < guidance.len() {
        carried_line_is_in_the_brief(summary, analysis, policy, guidance[at]);
        assert(guidance.contains(guidance[at]));
    }
    if 0 <= at < warnings.len() {
        carried_line_is_in_the_brief(summary, analysis, policy, warnings[at]);
        assert(warnings.contains(warnings[at]));
    }
    if 0 <= at < errors.len() {
        carried_line_is_in_the_brief(summary, analysis, policy, errors[at]);
        assert(errors.contains(errors[at]));
    }
    if 0 <= at < analysis.pinned_facts.len() {
        carried_line_is_in_the_brief(summary, analysis, policy, analysis.pinned_facts[at]);
        assert(analysis.pinned_facts.contains(analysis.pinned_facts[at]));
    }
    if 0 <= at < analysis.prompt_reconstruction_notes.len() {
        carried_line_is_in_the_brief(
            summary,
            analysis,
            policy,
            analysis.prompt_reconstruction_notes[at],
        );
        assert(analysis.prompt_reconstruction_notes.contains(
            analysis.prompt_reconstruction_notes[at],
        ));
    }
}

proof fn carried_line_is_in_the_brief(
    summary: SessionSummaryView,
    analysis: DistillAnalysisView,
    policy: DistillCompressionPolicy,
    line: Seq<char>,
)
    ensures
        ({
            let brief = brief_lines_text(summary, analysis, policy);
            &&& numbered_lines_text(
                analysis.recent_user_messages,
                policy.request_chars,
            ).contains(line) ==> brief.contains(line)
            &&& numbered_lines_text(
                analysis.recent_assistant_messages,
                policy.outcome_chars,
            ).contains(line) ==> brief.contains(line)
            &&& numbered_lines_text(
                analysis.durable_guidance,
                policy.guidance_chars,
            ).contains(line) ==> brief.contains(line)
            &&& labelled_lines_text(
                "- warning: "@,
                analysis.recent_warnings,
                policy.warning_chars,
            ).contains(line) ==> brief.contains(line)
            &&& labelled_lines_text(
                "- error: "@,
                analysis.recent_errors,
                policy.warning_chars,
            ).contains(line) ==> brief.contains(line)
            &&& analysis.pinned_facts.contains(line) ==> brief.contains(line)
            &&& analysis.prompt_reconstruction_notes.contains(line) ==> brief.contains(line)
        }),
{
    broadcast use vstd::seq_lib::lemma_seq_concat_contains_all_elements;
    broadcast use vstd::seq_lib::lemma_seq_contains_after_push;

}

/// A brief starts with what its session is: its title, its id, its workspace, its
/// provider and model, its window and its size.
#[verifier::rlimit(60)]
#[verifier::spinoff_prover]
pub proof fn brief_tells_its_session(
    summary: SessionSummaryView,
    analysis: DistillAnalysisView,
    policy: DistillCompressionPolicy,
)
    ensures
        ({
            let brief = brief_lines_text(summary, analysis, policy);
            &&& brief.contains("- Thread title: "@ + session_title(summary))
            &&& brief.contains("- Source thread id: "@ + summary.thread_id)
            &&& brief.contains("- Workspace: "@ + summary.session_cwd)
            &&& summary.session_provider matches Some(provider) ==> brief.contains(
                "- Provider: "@ + provider,
            )
            &&& summary.latest_model matches Some(model) ==> brief.contains("- Model: "@ + model)
            &&& summary.latest_context_tokens matches Some(tokens) ==> brief.contains(
                "- Context tokens estimate: "@ + numbers::decimal(tokens as int),
            )
            &&& brief.contains(
                "- User turns in source thread: "@ + numbers::decimal(summary.user_turns as int),
            )
            &&& analysis.latest_compaction_summary matches Some(compaction) ==> brief.contains(
                search::shortened(compaction, policy.compaction_summary_chars as nat),
            )
            &&& brief.last()
                == "- Reply with READY and one short sentence confirming the current project focus."@
        }),
{
    broadcast use vstd::seq_lib::lemma_seq_concat_contains_all_elements;
    broadcast use vstd::seq_lib::lemma_seq_contains_after_push;

}

/// The title of a session is its name, else its first request, else its id.
pub proof fn sessions_are_titled_by_their_name(summary: SessionSummaryView)
    ensures
        summary.thread_name matches Some(name) ==> session_title(summary) == name,
        summary.thread_name is None ==> (summary.first_user_message matches Some(request)
            ==> session_title(summary) == request),
        summary.thread_name is None && summary.first_user_message is None ==> session_title(summary)
            == summary.thread_id,
{
}

proof fn high_priority_is_filtered(messages: Seq<Seq<char>>)
    ensures
        high_priority_of(messages) == messages.filter(
            |message: Seq<char>| mentions_any(message, high_priority_words()),
        ),
    decreases messages.len(),
{
    reveal(Seq::filter);
    if messages.len() > 0 {
        high_priority_is_filtered(messages.drop_last());
    } else {
        assert(high_priority_of(messages) =~= messages.filter(
            |message: Seq<char>| mentions_any(message, high_priority_words()),
        ));
    }
}

/// Guidance of high priority is pinned, the first of it and as much as the policy
/// allows, and so is what the successor runs with and where the session comes
/// from; no fact is pinned twice.
pub proof fn urgent_guidance_is_pinned(
    summary: SessionSummaryView,
    analysis: DistillAnalysisView,
    preview: PromptPreviewSnapshotView,
    runtime: RuntimeConfigView,
    policy: DistillCompressionPolicy,
    at: int,
)
    ensures
        ({
            let facts = pinned_facts_text(summary, analysis, preview, runtime, policy);
            let urgent = analysis.durable_guidance.filter(
                |message: Seq<char>| mentions_any(message, high_priority_words()),
            );
            &&& lines::distinct(facts)
            &&& 0 <= at < urgent.len() && at < policy.pinned_guidance_items ==> facts.contains(
                "- Critical guidance: "@ + search::shortened(
                    urgent[at],
                    policy.guidance_chars as nat,
                ),
            )
            &&& preview.previous_turn_model matches Some(model) ==> facts.contains(
                "- Previous surviving turn model: `"@ + model + "`."@,
            )
            &&& summary.forked_from_id matches Some(id) ==> facts.contains(
                "- Source thread was forked from `"@ + id + "`."@,
            )
            &&& summary.memory_mode matches Some(mode) ==> facts.contains(
                "- Source thread memory mode: `"@ + mode + "`."@,
            )
            &&& facts.contains(
                "- Successor runtime target: provider `"@ + runtime.model_provider_id
                    + "`, model `"@ + (match runtime.model {
                    Some(model) => model,
                    None => ""@,
                }) + "`, context window `"@ + (match runtime.model_context_window {
                    Some(window) => numbers::decimal(window as int),
                    None => "unset"@,
                }) + "`, auto-compact threshold `"@ + (match runtime.model_auto_compact_token_limit {
                    Some(limit) => numbers::decimal(limit as int),
                    None => "unset"@,
                }) + "`."@,
            )
        }),
{
    let candidates = candidate_facts_text(summary, analysis, preview, runtime, policy);
    let guidance = pinned_guidance(analysis, policy);
    let session = session_facts_text(summary, preview, runtime);
    lines::first_occurrences_laws(candidates);
    high_priority_is_filtered(analysis.durable_guidance);
    let urgent = high_priority_of(analysis.durable_guidance);
    let facts = pinned_facts_text(summary, analysis, preview, runtime, policy);
    assert(candidates =~= guidance + session + strategy_facts_text(preview) + prompt_facts_text(
        preview,
        policy,
    ));
    assert forall|line: Seq<char>| guidance.contains(line) || session.contains(line) implies #[trigger] facts.contains(line) by {
        if guidance.contains(line) {
            let i = choose|i: int| 0 <= i < guidance.len() && guidance[i] == line;
            assert(candidates[i] == line);
        } else {
            let i = choose|i: int| 0 <= i < session.len() && session[i] == line;
            assert(candidates[guidance.len() + i] == line);
        }
    }
    if 0 <= at < urgent.len() && at < policy.pinned_guidance_items {
        assert(guidance[at] == "- Critical guidance: "@ + search::shortened(
            urgent[at],
            policy.guidance_chars as nat,
        ));
    }
    session_facts_are_told(summary, preview, runtime);
}

proof fn session_facts_are_told(
    summary: SessionSummaryView,
    preview: PromptPreviewSnapshotView,
    runtime: RuntimeConfigView,
)
    ensures
        ({
            let facts = session_facts_text(summary, preview, runtime);
            &&& preview.previous_turn_model matches Some(model) ==> facts.contains(
                "- Previous surviving turn model: `"@ + model + "`."@,
            )
            &&& summary.forked_from_id matches Some(id) ==> facts.contains(
                "- Source thread was forked from `"@ + id + "`."@,
            )
            &&& summary.memory_mode matches Some(mode) ==> facts.contains(
                "- Source thread memory mode: `"@ + mode + "`."@,
            )
            &&& facts.contains(
                "- Successor runtime target: provider `"@ + runtime.model_provider_id
                    + "`, model `"@ + (match runtime.model {
                    Some(model) => model,
                    None => ""@,
                }) + "`, context window `"@ + (match runtime.model_context_window {
                    Some(window) => numbers::decimal(window as int),
                    None => "unset"@,
                }) + "`, auto-compact threshold `"@ + (match runtime.model_auto_compact_token_limit {
                    Some(limit) => numbers::decimal(limit as int),
                    None => "unset"@,
                }) + "`."@,
            )
        }),
{
    broadcast use vstd::seq_lib::lemma_seq_contains_after_push;

}

/// A report tells the session and its successor as they are, how many tokens the
/// brief has, and how much was kept.
pub proof fn report_tells_session_and_successor(
    summary: SessionSummaryView,
    analysis: DistillAnalysisView,
    brief: Seq<char>,
    name: Seq<char>,
    runtime: RuntimeConfigView,
    options: DistillReportOptionsView,
)
    ensures
        ({
            let report = report_of(summary, analysis, brief, name, runtime, options);
            let seed = numbers::token_count(brief);
            &&& report.source_thread_id == summary.thread_id
            &&& report.source_thread_name == summary.thread_name
            &&& report.source_rollout_path == summary.rollout_path
            &&& report.source_provider == summary.session_provider
            &&& report.source_model == summary.latest_model
            &&& report.source_context_tokens_estimate == summary.latest_context_tokens
            &&& report.source_context_window == summary.latest_model_context_window
            &&& report.source_user_turns == summary.user_turns
            &&& report.successor_provider == runtime.model_provider_id
            &&& runtime.model matches Some(model) ==> report.successor_model == model
            &&& report.successor_context_window == runtime.model_context_window
            &&& report.distill_note == options.distill_note
            &&& report.successor_thread_name == name
            &&& seed <= usize::MAX ==> report.successor_seed_tokens_estimate == seed
            &&& report.compression_ratio is Some <==> (summary.latest_context_tokens is Some
                && summary.latest_context_tokens.unwrap() > 0)
            &&& report.compression_ratio matches Some(ratio) ==> ratio.seed_tokens
                == report.successor_seed_tokens_estimate && Some(ratio.source_tokens)
                == summary.latest_context_tokens
            &&& analysis.recent_user_messages.len() <= usize::MAX
                ==> report.recent_user_messages_kept == analysis.recent_user_messages.len()
            &&& analysis.recent_assistant_messages.len() <= usize::MAX
                ==> report.recent_assistant_messages_kept
                == analysis.recent_assistant_messages.len()
            &&& analysis.recent_warnings.len() <= usize::MAX ==> report.warnings_kept
                == analysis.recent_warnings.len()
            &&& analysis.recent_errors.len() <= usize::MAX ==> report.errors_kept
                == analysis.recent_errors.len()
            &&& report.had_compaction_summary == (analysis.latest_compaction_summary is Some)
        }),
{
}

/// Both prompts carry the brief whole: the one for its rewriting at its end, behind
/// what the level asks for, and the one for the successor in its middle.
pub proof fn prompts_carry_the_brief(brief: Seq<char>, policy: DistillCompressionPolicy)
    ensures
        brief.is_suffix_of(distillation_prompt_text(brief, policy)),
        search::contains(
            distillation_prompt_text(brief, policy),
            level_requirements_text(policy.level),
        ),
        search::contains(seed_prompt_text(brief), brief),
{
    let whole = distillation_prompt_text(brief, policy);
    let level = level_requirements_text(policy.level);
    let start = "You are distilling a Codex project session into a lightweight successor handoff.\n\nRewrite the following deterministic handoff into a shorter, higher-signal brief.\n\nRequirements:\n"@;
    assert(whole.skip(whole.len() - brief.len()) =~= brief);
    assert(whole.subrange(start.len() as int, (start.len() + level.len()) as int) =~= level);
    assert(search::occurs_at(whole, level, start.len() as int));
    let seed = seed_prompt_text(brief);
    let opening = "Read and internalize the following distilled handoff brief for this project successor session.\n\n"@;
    assert(seed.subrange(opening.len() as int, (opening.len() + brief.len()) as int) =~= brief);
    assert(search::occurs_at(seed, brief, opening.len() as int));
}

/// A successor has the name that is asked for, or one with the title of its session.
pub proof fn successors_are_named_after_their_session(
    summary: SessionSummaryView,
    name: Option<Seq<char>>,
)
    ensures
        name matches Some(asked) ==> successor_name(summary, name) == asked,
        name is None ==> successor_name(summary, name) == "Distilled · "@ + search::shortened(
            session_title(summary),
            72,
        ),
{
}

/// The words for reasoning efforts, and no others, are understood.
pub proof fn efforts_are_known_by_their_words(word: Seq<char>)
    ensures
        effort_named("none"@) == Some(ReasoningEffort::NoReasoning),
        effort_named("minimal"@) == Some(ReasoningEffort::Minimal),
        effort_named("low"@) == Some(ReasoningEffort::Low),
        effort_named("medium"@) == Some(ReasoningEffort::Medium),
        effort_named("high"@) == Some(ReasoningEffort::High),
        effort_named("xhigh"@) == Some(ReasoningEffort::XHigh),
        effort_named("x-high"@) == Some(ReasoningEffort::XHigh),
        effort_named(word) is Some ==> word == "none"@ || word == "minimal"@ || word == "low"@
            || word == "medium"@ || word == "high"@ || word == "xhigh"@ || word == "x-high"@,
{
    reveal_strlit("none");
    reveal_strlit("minimal");
    reveal_strlit("low");
    reveal_strlit("medium");
    reveal_strlit("high");
    reveal_strlit("xhigh");
    reveal_strlit("x-high");
    assert("none"@.len() == 4 && "minimal"@.len() == 7 && "low"@.len() == 3 && "medium"@.len() == 6
        && "high"@.len() == 4 && "xhigh"@.len() == 5 && "x-high"@.len() == 6);
    assert("none"@[0] == 'n' && "high"@[0] == 'h');
    assert("medium"@[0] == 'm' && "x-high"@[0] == 'x');
}

/// A brief has a part for each thing that was kept, with a heading and an empty
/// line in front, and none for what was not.
#[verifier::rlimit(80)]
#[verifier::spinoff_prover]
pub proof fn brief_has_a_part_for_what_was_kept(
    summary: SessionSummaryView,
    analysis: DistillAnalysisView,
    policy: DistillCompressionPolicy,
)
    ensures
        ({
            let facts = analysis.pinned_facts.len();
            let notes = analysis.prompt_reconstruction_notes.len();
            let requests = analysis.recent_user_messages.len();
            let outcomes = analysis.recent_assistant_messages.len();
            let guidance = analysis.durable_guidance.len();
            let problems = analysis.recent_warnings.len() + analysis.recent_errors.len();
            brief_lines_text(summary, analysis, policy).len() == 19 + part_size(facts) + (
            if analysis.latest_compaction_summary is Some {
                3nat
            } else {
                0nat
            }) + part_size(notes) + part_size(requests) + part_size(outcomes) + part_size(guidance)
                + part_size(problems)
        }),
{
}

/// How many lines a part with so many entries has: a heading and an empty line
/// more, and none without entries.
pub open spec fn part_size(entries: nat) -> nat {
    if entries > 0 {
        entries + 2
    } else {
        0
    }
}

/// The notes of a brief tell the history, the tools and the memory of the next
/// prompt, the model of the last turn where there was one, and how the next turn
/// tells its context: with the reasons where only what changed is told and there
/// are any.
pub proof fn notes_tell_the_next_prompt(preview: PromptPreviewSnapshotView)
    ensures
        ({
            let notes = reconstruction_notes_text(preview);
            let known = if preview.previous_turn_model is Some { 1int } else { 0int };
            &&& notes[0] == "- Reconstructed model-visible history items: "@ + numbers::decimal(
                preview.history_items_count as int,
            )
            &&& notes[1] == "- Reconstructed history tokens estimate: "@ + numbers::decimal(
                preview.history_tokens_estimate as int,
            )
            &&& notes[2] == "- Built-in and dynamic tool schema tokens estimate: "@
                + numbers::decimal(preview.tool_schema_tokens_estimate as int)
            &&& preview.previous_turn_model matches Some(model) ==> notes[3]
                == "- Previous surviving turn model: "@ + model
            &&& preview.context_strategy matches NextTurnContextStrategyView::FullInitialContext {
                model_switch_message,
                memory_prompt,
                developer_instructions,
                user_instructions,
            } ==> {
                &&& notes.len() == 3 + known + 5 + 2
                &&& notes[3 + known + 1] == "- Model-switch developer message will be injected: "@
                    + numbers::bool_text(model_switch_message)
                &&& notes[3 + known + 2] == "- Memory prompt available: "@ + numbers::bool_text(
                    memory_prompt,
                )
                &&& notes[3 + known + 3] == "- Runtime developer instructions present: "@
                    + numbers::bool_text(developer_instructions)
                &&& notes[3 + known + 4] == "- Runtime user instructions present: "@
                    + numbers::bool_text(user_instructions)
            }
            &&& preview.context_strategy matches NextTurnContextStrategyView::SettingsUpdate {
                model_switch_message,
                reasons,
            } ==> {
                &&& notes[3 + known + 1] == "- Model-switch developer message will be injected: "@
                    + numbers::bool_text(model_switch_message)
                &&& reasons.len() == 0 ==> notes.len() == 3 + known + 2 + 2
                &&& reasons.len() > 0 ==> notes.len() == 3 + known + 3 + 2 && notes[3 + known + 2]
                    == "- Expected settings update reasons: "@ + lines::joined(reasons, ", "@)
            }
            &&& notes[notes.len() - 2] == "- Memory prompt available: "@ + numbers::bool_text(
                preview.memory_prompt_available,
            )
            &&& notes.last() == "- Built-in and dynamic tool count: "@ + numbers::decimal(
                preview.tool_count as int,
            )
        }),
{
}

/// The facts on the next prompt tell its memory and its instructions, its tools
/// where it has some, with the names that the policy allows, how much the latest
/// compaction contributes where there was one, and whether there is a context to
/// compare with.
pub proof fn facts_tell_memory_and_tools(
    preview: PromptPreviewSnapshotView,
    policy: DistillCompressionPolicy,
)
    ensures
        ({
            let facts = prompt_facts_text(preview, policy);
            let tools = if preview.tool_count == 0 {
                0int
            } else if pinned_tools(preview, policy).len() == 0 {
                1
            } else {
                2
            };
            let replaced = if preview.latest_compaction_replacement_items is Some {
                1int
            } else {
                0int
            };
            let refers = preview.reference_context_item is Some;
            &&& facts.len() == 2 + tools + replaced + (if refers { 1int } else { 0int })
            &&& facts[0] == "- Memory prompt available on resume: "@ + numbers::bool_text(
                preview.memory_prompt_available,
            ) + " (summary tokens `"@ + (match preview.memory_summary_tokens_estimate {
                Some(tokens) => numbers::decimal(tokens as int),
                None => "unknown"@,
            }) + "`)."@
            &&& facts[1] == "- Runtime developer instructions present: "@ + numbers::bool_text(
                preview.developer_instructions_present,
            ) + "; runtime user instructions present: "@ + numbers::bool_text(
                preview.user_instructions_present,
            ) + "."@
            &&& preview.tool_count > 0 ==> facts[2] == "- Next resume injects "@
                + numbers::decimal(preview.tool_count as int)
                + " built-in/dynamic tools with about "@ + numbers::decimal(
                preview.tool_schema_tokens_estimate as int,
            ) + " schema tokens."@
            &&& tools == 2 ==> facts[3] == "- Representative tool names: "@ + pinned_tools(
                preview,
                policy,
            ) + "."@
            &&& preview.latest_compaction_replacement_items matches Some(items) ==> facts[2
                + tools] == "- Latest compaction replacement history currently contributes "@
                + numbers::decimal(items as int) + " item(s)."@
            &&& refers ==> facts.last()
                == "- A reference context item survives in the reconstructed resume state."@
        }),
        preview.tool_names.len() <= policy.pinned_tool_names ==> pinned_tools(preview, policy)
            == lines::joined(preview.tool_names, ", "@),
        preview.tool_names.len() > policy.pinned_tool_names ==> pinned_tools(preview, policy)
            == lines::joined(preview.tool_names.take(policy.pinned_tool_names as int), ", "@),
{
}

/// The fact on the next turn tells whether it tells its whole context or what
/// changed, with every part of that.
pub proof fn facts_tell_the_next_turn(preview: PromptPreviewSnapshotView)
    ensures
        strategy_facts_text(preview).len() == 1,
        preview.context_strategy matches NextTurnContextStrategyView::FullInitialContext {
            model_switch_message,
            memory_prompt,
            developer_instructions,
            user_instructions,
        } ==> strategy_facts_text(preview)[0]
            == "- Next real resume uses `full_initial_context` (model_switch_message="@
            + numbers::bool_text(model_switch_message) + ", memory_prompt="@ + numbers::bool_text(
            memory_prompt,
        ) + ", developer_instructions="@ + numbers::bool_text(developer_instructions)
            + ", user_instructions="@ + numbers::bool_text(user_instructions) + ")."@,
        preview.context_strategy matches NextTurnContextStrategyView::SettingsUpdate {
            model_switch_message,
            reasons,
        } ==> strategy_facts_text(preview)[0]
            == "- Next real resume uses `settings_update` (model_switch_message="@
            + numbers::bool_text(model_switch_message) + ", reasons="@ + (if reasons.len() == 0 {
            "none"@
        } else {
            lines::joined(reasons, ", "@)
        }) + ")."@,
{
}

/// What is printed of a distillation tells its report line by line, the successor,
/// and the brief below, where there is one.
pub proof fn output_tells_report_and_brief(
    output: DistillOutputView,
    ratio: Seq<char>,
    at: int,
)
    ensures
        ({
            let lines = output_lines_text(output, ratio);
            let report = output.report;
            let known = |value: Option<Seq<char>>|
                match value {
                    Some(value) => value,
                    None => ""@,
                };
            let number = |value: Option<i64>|
                match value {
                    Some(value) => numbers::decimal(value as int),
                    None => ""@,
                };
            &&& lines[0] == "source_thread_id: "@ + report.source_thread_id
            &&& lines[1] == "source_thread_name: "@ + known(report.source_thread_name)
            &&& lines[2] == "source_rollout_path: "@ + report.source_rollout_path
            &&& lines[3] == "source_provider: "@ + known(report.source_provider)
            &&& lines[4] == "source_model: "@ + known(report.source_model)
            &&& lines[5] == "source_context_tokens_estimate: "@ + number(
                report.source_context_tokens_estimate,
            )
            &&& lines[6] == "successor_provider: "@ + report.successor_provider
            &&& lines[7] == "successor_model: "@ + report.successor_model
            &&& lines[8] == "successor_context_window: "@ + number(report.successor_context_window)
            &&& lines[9] == "distill_mode: "@ + report.distill_mode
            &&& lines[10] == "compression_level: "@ + report.compression_level
            &&& lines[11] == "distill_note: "@ + known(report.distill_note)
            &&& lines[12] == "successor_seed_tokens_estimate: "@ + numbers::decimal(
                report.successor_seed_tokens_estimate as int,
            )
            &&& lines[13] == "compression_ratio: "@ + ratio
            &&& lines[14] == "successor_thread_name: "@ + report.successor_thread_name
            &&& lines[15] == "had_compaction_summary: "@ + numbers::bool_text(
                report.had_compaction_summary,
            )
            &&& lines[16] == "recent_user_messages_kept: "@ + numbers::decimal(
                report.recent_user_messages_kept as int,
            )
            &&& lines[17] == "recent_assistant_messages_kept: "@ + numbers::decimal(
                report.recent_assistant_messages_kept as int,
            )
            &&& lines[18] == "warnings_kept: "@ + numbers::decimal(report.warnings_kept as int)
            &&& lines[19] == "errors_kept: "@ + numbers::decimal(report.errors_kept as int)
            &&& lines[20] == "successor_thread_id: "@ + known(output.successor_thread_id)
            &&& lines[21] == "successor_rollout_path: "@ + known(output.successor_rollout_path)
            &&& lines[22] == "resume_command: "@ + known(output.resume_command)
            &&& lines[23] == "source_archived: "@ + numbers::bool_text(output.source_archived)
            &&& output.brief.len() == 0 ==> lines.len() == 24
            &&& output.brief.len() > 0 ==> {
                let brief = lines::lines_of(output.brief);
                &&& lines.len() == 26 + brief.len()
                &&& lines[25] == "brief:"@
                &&& 0 <= at < brief.len() ==> lines[26 + at] == brief[at]
            }
        }),
{
}

} // verus!
