//! A preview of what a model is shown when a session goes on.

use vstd::prelude::*;

use crate::lines;
use crate::lines::join;
use crate::numbers;
use crate::numbers::approx_token_count;
use crate::numbers::bool_str;
use crate::numbers::bytes_to_tokens;
use crate::numbers::opt_i64_text;
use crate::numbers::opt_usize_text;
use crate::numbers::usize_text;
use crate::paths;
use crate::paths::is_same_path;
use crate::replay;
use crate::replay::RolloutReconstruction;
use crate::replay::RolloutReconstructionView;
use crate::replay::reconstruct_rollout_history;
use crate::rollout::ContentItem;
use crate::rollout::ContentItemView;
use crate::rollout::ItemKind;
use crate::rollout::ItemKindView;
use crate::rollout::ResponseItem;
use crate::rollout::ResponseItemView;
use crate::rollout::RolloutItem;
use crate::rollout::TurnContextItem;
use crate::rollout::TurnContextItemView;
use crate::search;
use crate::search::truncate_for_brief;
use crate::text;
use crate::text::cat10;
use crate::text::cat2;
use crate::text::cat6;
use crate::text::clone_opt;
use crate::text::clone_texts;
use crate::text::is_blank;
use crate::text::no_texts;
use crate::text::opt_or;
use crate::text::or_opt;
use crate::text::push_text;
use crate::text::push_texts;
use crate::text::same_opt_text;
use crate::text::same_text;
use crate::text::trim;
use crate::types::RuntimeConfig;
use crate::types::RuntimeConfigView;
use crate::types::SessionSummary;
use crate::types::SessionSummaryView;

verus! {

/// What the first message after a resume carries besides the history.
#[derive(Debug, PartialEq, Eq)]
pub enum NextTurnContextStrategy {
    FullInitialContext {
        model_switch_message: bool,
        memory_prompt: bool,
        developer_instructions: bool,
        user_instructions: bool,
    },
    SettingsUpdate { model_switch_message: bool, reasons: Vec<String> },
}

/// What a [`NextTurnContextStrategy`] stands for.
pub enum NextTurnContextStrategyView {
    FullInitialContext {
        model_switch_message: bool,
        memory_prompt: bool,
        developer_instructions: bool,
        user_instructions: bool,
    },
    SettingsUpdate { model_switch_message: bool, reasons: Seq<Seq<char>> },
}

impl View for NextTurnContextStrategy {
    type V = NextTurnContextStrategyView;

    open spec fn view(&self) -> NextTurnContextStrategyView {
        match *self {
            NextTurnContextStrategy::FullInitialContext {
                model_switch_message,
                memory_prompt,
                developer_instructions,
                user_instructions,
            } => {
                NextTurnContextStrategyView::FullInitialContext {
                    model_switch_message,
                    memory_prompt,
                    developer_instructions,
                    user_instructions,
                }
            },
            NextTurnContextStrategy::SettingsUpdate { model_switch_message, reasons } => {
                NextTurnContextStrategyView::SettingsUpdate {
                    model_switch_message,
                    reasons: text::texts(reasons@),
                }
            },
        }
    }
}

impl DeepView for NextTurnContextStrategy {
    type V = NextTurnContextStrategyView;

    open spec fn deep_view(&self) -> NextTurnContextStrategyView {
        self@
    }
}

impl Clone for NextTurnContextStrategy {
    fn clone(&self) -> (out: Self)
        ensures
            out@ == self@,
    {
        match self {
            NextTurnContextStrategy::FullInitialContext {
                model_switch_message,
                memory_prompt,
                developer_instructions,
                user_instructions,
            } => {
                NextTurnContextStrategy::FullInitialContext {
                    model_switch_message: *model_switch_message,
                    memory_prompt: *memory_prompt,
                    developer_instructions: *developer_instructions,
                    user_instructions: *user_instructions,
                }
            },
            NextTurnContextStrategy::SettingsUpdate { model_switch_message, reasons } => {
                NextTurnContextStrategy::SettingsUpdate {
                    model_switch_message: *model_switch_message,
                    reasons: clone_texts(reasons),
                }
            },
        }
    }
}

/// One section of the next prompt.
#[derive(Debug, PartialEq, Eq)]
pub struct PromptSectionPreview {
    pub kind: String,
    pub description: String,
    pub estimated_tokens: usize,
}

/// What a [`PromptSectionPreview`] stands for.
pub struct PromptSectionPreviewView {
    pub kind: Seq<char>,
    pub description: Seq<char>,
    pub estimated_tokens: usize,
}

impl View for PromptSectionPreview {
    type V = PromptSectionPreviewView;

    open spec fn view(&self) -> PromptSectionPreviewView {
        PromptSectionPreviewView {
            kind: self.kind@,
            description: self.description@,
            estimated_tokens: self.estimated_tokens,
        }
    }
}

impl DeepView for PromptSectionPreview {
    type V = PromptSectionPreviewView;

    open spec fn deep_view(&self) -> PromptSectionPreviewView {
        self@
    }
}

impl Clone for PromptSectionPreview {
    fn clone(&self) -> (out: Self)
        ensures
            out@ == self@,
    {
        PromptSectionPreview {
            kind: self.kind.clone(),
            description: self.description.clone(),
            estimated_tokens: self.estimated_tokens,
        }
    }
}

/// One item of the history in the next prompt.
#[derive(Debug, PartialEq, Eq)]
pub struct PromptItemPreview {
    pub index: usize,
    pub role: String,
    pub kind: String,
    pub preview: String,
    pub estimated_tokens: usize,
}

/// What a [`PromptItemPreview`] stands for.
pub struct PromptItemPreviewView {
    pub index: usize,
    pub role: Seq<char>,
    pub kind: Seq<char>,
    pub preview: Seq<char>,
    pub estimated_tokens: usize,
}

impl View for PromptItemPreview {
    type V = PromptItemPreviewView;

    open spec fn view(&self) -> PromptItemPreviewView {
        PromptItemPreviewView {
            index: self.index,
            role: self.role@,
            kind: self.kind@,
            preview: self.preview@,
            estimated_tokens: self.estimated_tokens,
        }
    }
}

impl DeepView for PromptItemPreview {
    type V = PromptItemPreviewView;

    open spec fn deep_view(&self) -> PromptItemPreviewView {
        self@
    }
}

impl Clone for PromptItemPreview {
    fn clone(&self) -> (out: Self)
        ensures
            out@ == self@,
    {
        PromptItemPreview {
            index: self.index,
            role: self.role.clone(),
            kind: self.kind.clone(),
            preview: self.preview.clone(),
            estimated_tokens: self.estimated_tokens,
        }
    }
}

/// What the runtime adds to a prompt on its own.
#[derive(Debug, PartialEq, Eq)]
pub struct PromptTools {
    pub base_instructions_tokens_estimate: usize,
    pub tool_schema_tokens_estimate: usize,
    pub tool_count: usize,
    pub tool_names: Vec<String>,
}

/// What a [`PromptTools`] stands for.
pub struct PromptToolsView {
    pub base_instructions_tokens_estimate: usize,
    pub tool_schema_tokens_estimate: usize,
    pub tool_count: usize,
    pub tool_names: Seq<Seq<char>>,
}

impl View for PromptTools {
    type V = PromptToolsView;

    open spec fn view(&self) -> PromptToolsView {
        PromptToolsView {
            base_instructions_tokens_estimate: self.base_instructions_tokens_estimate,
            tool_schema_tokens_estimate: self.tool_schema_tokens_estimate,
            tool_count: self.tool_count,
            tool_names: text::texts(self.tool_names@),
        }
    }
}

impl DeepView for PromptTools {
    type V = PromptToolsView;

    open spec fn deep_view(&self) -> PromptToolsView {
        self@
    }
}

impl Clone for PromptTools {
    fn clone(&self) -> (out: Self)
        ensures
            out@ == self@,
    {
        PromptTools {
            base_instructions_tokens_estimate: self.base_instructions_tokens_estimate,
            tool_schema_tokens_estimate: self.tool_schema_tokens_estimate,
            tool_count: self.tool_count,
            tool_names: clone_texts(&self.tool_names),
        }
    }
}

/// The memory summary that the runtime adds to a prompt.
#[derive(Debug, Clone, Copy, PartialEq, Eq, Structural)]
pub struct MemoryPrompt {
    pub available: bool,
    pub summary_tokens_estimate: Option<usize>,
}

/// The next prompt of a session.
#[derive(Debug, PartialEq, Eq)]
pub struct PromptPreviewSnapshot {
    pub reconstructed_history: Vec<ResponseItem>,
    pub history_items_count: usize,
    pub history_tokens_estimate: usize,
    pub base_instructions_tokens_estimate: usize,
    pub tool_schema_tokens_estimate: usize,
    pub tool_count: usize,
    pub tool_names: Vec<String>,
    pub previous_turn_model: Option<String>,
    pub reference_context_item: Option<TurnContextItem>,
    pub context_strategy: NextTurnContextStrategy,
    pub latest_compaction_summary: Option<String>,
    pub latest_compaction_replacement_items: Option<usize>,
    pub memory_prompt_available: bool,
    pub memory_summary_tokens_estimate: Option<usize>,
    pub developer_instructions_present: bool,
    pub user_instructions_present: bool,
    pub prompt_sections: Vec<PromptSectionPreview>,
    pub history_tail: Vec<PromptItemPreview>,
}

/// What a [`PromptPreviewSnapshot`] stands for.
pub struct PromptPreviewSnapshotView {
    pub reconstructed_history: Seq<ResponseItemView>,
    pub history_items_count: usize,
    pub history_tokens_estimate: usize,
    pub base_instructions_tokens_estimate: usize,
    pub tool_schema_tokens_estimate: usize,
    pub tool_count: usize,
    pub tool_names: Seq<Seq<char>>,
    pub previous_turn_model: Option<Seq<char>>,
    pub reference_context_item: Option<TurnContextItemView>,
    pub context_strategy: NextTurnContextStrategyView,
    pub latest_compaction_summary: Option<Seq<char>>,
    pub latest_compaction_replacement_items: Option<usize>,
    pub memory_prompt_available: bool,
    pub memory_summary_tokens_estimate: Option<usize>,
    pub developer_instructions_present: bool,
    pub user_instructions_present: bool,
    pub prompt_sections: Seq<PromptSectionPreviewView>,
    pub history_tail: Seq<PromptItemPreviewView>,
}

impl View for PromptPreviewSnapshot {
    type V = PromptPreviewSnapshotView;

    open spec fn view(&self) -> PromptPreviewSnapshotView {
        PromptPreviewSnapshotView {
            reconstructed_history: self.reconstructed_history.deep_view(),
            history_items_count: self.history_items_count,
            history_tokens_estimate: self.history_tokens_estimate,
            base_instructions_tokens_estimate: self.base_instructions_tokens_estimate,
            tool_schema_tokens_estimate: self.tool_schema_tokens_estimate,
            tool_count: self.tool_count,
            tool_names: text::texts(self.tool_names@),
            previous_turn_model: text::opt_text(self.previous_turn_model),
            reference_context_item: self.reference_context_item.deep_view(),
            context_strategy: self.context_strategy@,
            latest_compaction_summary: text::opt_text(self.latest_compaction_summary),
            latest_compaction_replacement_items: self.latest_compaction_replacement_items,
            memory_prompt_available: self.memory_prompt_available,
            memory_summary_tokens_estimate: self.memory_summary_tokens_estimate,
            developer_instructions_present: self.developer_instructions_present,
            user_instructions_present: self.user_instructions_present,
            prompt_sections: self.prompt_sections.deep_view(),
            history_tail: self.history_tail.deep_view(),
        }
    }
}

impl DeepView for PromptPreviewSnapshot {
    type V = PromptPreviewSnapshotView;

    open spec fn deep_view(&self) -> PromptPreviewSnapshotView {
        self@
    }
}

impl Clone for PromptPreviewSnapshot {
    fn clone(&self) -> (out: Self)
        ensures
            out@ == self@,
    {
        let out = PromptPreviewSnapshot {
            reconstructed_history: self.reconstructed_history.clone(),
            history_items_count: self.history_items_count,
            history_tokens_estimate: self.history_tokens_estimate,
            base_instructions_tokens_estimate: self.base_instructions_tokens_estimate,
            tool_schema_tokens_estimate: self.tool_schema_tokens_estimate,
            tool_count: self.tool_count,
            tool_names: clone_texts(&self.tool_names),
            previous_turn_model: clone_opt(&self.previous_turn_model),
            reference_context_item: self.reference_context_item.clone(),
            context_strategy: self.context_strategy.clone(),
            latest_compaction_summary: clone_opt(&self.latest_compaction_summary),
            latest_compaction_replacement_items: self.latest_compaction_replacement_items,
            memory_prompt_available: self.memory_prompt_available,
            memory_summary_tokens_estimate: self.memory_summary_tokens_estimate,
            developer_instructions_present: self.developer_instructions_present,
            user_instructions_present: self.user_instructions_present,
            prompt_sections: self.prompt_sections.clone(),
            history_tail: self.history_tail.clone(),
        };
        assert(out.reconstructed_history.deep_view() =~= self.reconstructed_history.deep_view());
        assert(out.reference_context_item.deep_view() =~= self.reference_context_item.deep_view());
        assert(out.prompt_sections.deep_view() =~= self.prompt_sections.deep_view());
        assert(out.history_tail.deep_view() =~= self.history_tail.deep_view());
        out
    }
}

/// The next prompt of a session, together with what is known of the session.
#[derive(Debug, PartialEq, Eq)]
pub struct FirstTokenPreviewOutput {
    pub source_thread_id: String,
    pub source_thread_name: Option<String>,
    pub source_rollout_path: String,
    pub source_archived: bool,
    pub source_provider: Option<String>,
    pub source_model: Option<String>,
    pub source_context_tokens_estimate: Option<i64>,
    pub source_context_window: Option<i64>,
    pub next_user_input: Option<String>,
    pub reconstructed_history_items: usize,
    pub reconstructed_history_tokens_estimate: usize,
    pub previous_turn_model: Option<String>,
    pub reference_context_item_present: bool,
    pub next_turn_context_strategy: NextTurnContextStrategy,
    pub latest_compaction_summary: Option<String>,
    pub latest_compaction_replacement_items: Option<usize>,
    pub memory_prompt_available: bool,
    pub memory_summary_tokens_estimate: Option<usize>,
    pub developer_instructions_present: bool,
    pub user_instructions_present: bool,
    pub prompt_sections: Vec<PromptSectionPreview>,
    pub history_tail: Vec<PromptItemPreview>,
}

/// What a [`FirstTokenPreviewOutput`] stands for.
pub struct FirstTokenPreviewOutputView {
    pub source_thread_id: Seq<char>,
    pub source_thread_name: Option<Seq<char>>,
    pub source_rollout_path: Seq<char>,
    pub source_archived: bool,
    pub source_provider: Option<Seq<char>>,
    pub source_model: Option<Seq<char>>,
    pub source_context_tokens_estimate: Option<i64>,
    pub source_context_window: Option<i64>,
    pub next_user_input: Option<Seq<char>>,
    pub reconstructed_history_items: usize,
    pub reconstructed_history_tokens_estimate: usize,
    pub previous_turn_model: Option<Seq<char>>,
    pub reference_context_item_present: bool,
    pub next_turn_context_strategy: NextTurnContextStrategyView,
    pub latest_compaction_summary: Option<Seq<char>>,
    pub latest_compaction_replacement_items: Option<usize>,
    pub memory_prompt_available: bool,
    pub memory_summary_tokens_estimate: Option<usize>,
    pub developer_instructions_present: bool,
    pub user_instructions_present: bool,
    pub prompt_sections: Seq<PromptSectionPreviewView>,
    pub history_tail: Seq<PromptItemPreviewView>,
}

impl View for FirstTokenPreviewOutput {
    type V = FirstTokenPreviewOutputView;

    open spec fn view(&self) -> FirstTokenPreviewOutputView {
        FirstTokenPreviewOutputView {
            source_thread_id: self.source_thread_id@,
            source_thread_name: text::opt_text(self.source_thread_name),
            source_rollout_path: self.source_rollout_path@,
            source_archived: self.source_archived,
            source_provider: text::opt_text(self.source_provider),
            source_model: text::opt_text(self.source_model),
            source_context_tokens_estimate: self.source_context_tokens_estimate,
            source_context_window: self.source_context_window,
            next_user_input: text::opt_text(self.next_user_input),
            reconstructed_history_items: self.reconstructed_history_items,
            reconstructed_history_tokens_estimate: self.reconstructed_history_tokens_estimate,
            previous_turn_model: text::opt_text(self.previous_turn_model),
            reference_context_item_present: self.reference_context_item_present,
            next_turn_context_strategy: self.next_turn_context_strategy@,
            latest_compaction_summary: text::opt_text(self.latest_compaction_summary),
            latest_compaction_replacement_items: self.latest_compaction_replacement_items,
            memory_prompt_available: self.memory_prompt_available,
            memory_summary_tokens_estimate: self.memory_summary_tokens_estimate,
            developer_instructions_present: self.developer_instructions_present,
            user_instructions_present: self.user_instructions_present,
            prompt_sections: self.prompt_sections.deep_view(),
            history_tail: self.history_tail.deep_view(),
        }
    }
}

impl DeepView for FirstTokenPreviewOutput {
    type V = FirstTokenPreviewOutputView;

    open spec fn deep_view(&self) -> FirstTokenPreviewOutputView {
        self@
    }
}

impl Clone for FirstTokenPreviewOutput {
    fn clone(&self) -> (out: Self)
        ensures
            out@ == self@,
    {
        let out = FirstTokenPreviewOutput {
            source_thread_id: self.source_thread_id.clone(),
            source_thread_name: clone_opt(&self.source_thread_name),
            source_rollout_path: self.source_rollout_path.clone(),
            source_archived: self.source_archived,
            source_provider: clone_opt(&self.source_provider),
            source_model: clone_opt(&self.source_model),
            source_context_tokens_estimate: self.source_context_tokens_estimate,
            source_context_window: self.source_context_window,
            next_user_input: clone_opt(&self.next_user_input),
            reconstructed_history_items: self.reconstructed_history_items,
            reconstructed_history_tokens_estimate: self.reconstructed_history_tokens_estimate,
            previous_turn_model: clone_opt(&self.previous_turn_model),
            reference_context_item_present: self.reference_context_item_present,
            next_turn_context_strategy: self.next_turn_context_strategy.clone(),
            latest_compaction_summary: clone_opt(&self.latest_compaction_summary),
            latest_compaction_replacement_items: self.latest_compaction_replacement_items,
            memory_prompt_available: self.memory_prompt_available,
            memory_summary_tokens_estimate: self.memory_summary_tokens_estimate,
            developer_instructions_present: self.developer_instructions_present,
            user_instructions_present: self.user_instructions_present,
            prompt_sections: self.prompt_sections.clone(),
            history_tail: self.history_tail.clone(),
        };
        assert(out.prompt_sections.deep_view() =~= self.prompt_sections.deep_view());
        assert(out.history_tail.deep_view() =~= self.history_tail.deep_view());
        out
    }
}

/// Why there is no preview.
#[derive(Debug, Clone, Copy, PartialEq, Eq, Structural)]
pub enum PreviewError {
    /// The tokens of the history are more than a `usize` can hold.
    HistoryTooLarge,
}

// ------------------------------------------------------------------ token counts

/// The estimated tokens of one item: those of its JSON.
pub open spec fn item_tokens(item: ResponseItemView) -> nat {
    match item.encoded_bytes {
        Some(bytes) => numbers::tokens_of_bytes(bytes as nat),
        None => 0,
    }
}

/// The estimated tokens of all items of a history.
pub open spec fn history_tokens(items: Seq<ResponseItemView>) -> nat
    decreases items.len(),
{
    if items.len() == 0 {
        0
    } else {
        history_tokens(items.drop_last()) + item_tokens(items.last())
    }
}

/// The estimated tokens of one item.
pub fn estimate_response_item_tokens(item: &ResponseItem) -> (out: usize)
    ensures
        out == item_tokens(item@),
{
    match item.encoded_bytes {
        Some(bytes) => bytes_to_tokens(bytes),
        None => 0,
    }
}

proof fn history_tokens_grow(items: Seq<ResponseItemView>, count: int)
    requires
        0 <= count <= items.len(),
    ensures
        history_tokens(items.take(count)) <= history_tokens(items),
    decreases items.len() - count,
{
    if count == items.len() {
        assert(items.take(count) =~= items);
    } else {
        assert(items.take(count + 1).drop_last() =~= items.take(count));
        history_tokens_grow(items, count + 1);
    }
}

/// The estimated tokens of a history, where a `usize` can hold their number.
pub fn estimate_response_items_tokens(items: &Vec<ResponseItem>) -> (out: Option<usize>)
    ensures
        match out {
            Some(tokens) => tokens == history_tokens(items.deep_view()),
            None => history_tokens(items.deep_view()) > usize::MAX,
        },
{
    let mut sum: usize = 0;
    let ghost all = items.deep_view();
    assert(all.take(0) =~= Seq::<ResponseItemView>::empty());
    for i in 0..items.len()
        invariant
            all == items.deep_view(),
            sum == history_tokens(all.take(i as int)),
    {
        assert(all.take(i + 1).drop_last() =~= all.take(i as int));
        assert(all[i as int] == items@[i as int]@);
        match sum.checked_add(estimate_response_item_tokens(&items[i])) {
            Some(next) => {
                sum = next;
            },
            None => {
                proof {
                    history_tokens_grow(all, i + 1);
                }
                return None;
            },
        }
    }
    assert(all.take(all.len() as int) =~= all);
    Some(sum)
}

/// The estimated tokens of the initial context.
pub open spec fn initial_context_tokens(
    developer_instructions: bool,
    user_instructions: bool,
    memory_tokens: Option<usize>,
) -> int {
    256 + (if developer_instructions {
        128int
    } else {
        0
    }) + (if user_instructions {
        128int
    } else {
        0
    }) + (match memory_tokens {
        Some(tokens) => tokens as int,
        None => 0,
    })
}

/// The estimated tokens of the initial context that a full reinjection sends.
pub fn estimate_initial_context_tokens(
    developer_instructions_present: bool,
    user_instructions_present: bool,
    memory_summary_tokens_estimate: Option<usize>,
) -> (out: usize)
    requires
        initial_context_tokens(
            developer_instructions_present,
            user_instructions_present,
            memory_summary_tokens_estimate,
        ) <= usize::MAX,
    ensures
        out == initial_context_tokens(
            developer_instructions_present,
            user_instructions_present,
            memory_summary_tokens_estimate,
        ),
{
    let mut estimate: usize = 256;
    if developer_instructions_present {
        estimate = estimate + 128;
    }
    if user_instructions_present {
        estimate = estimate + 128;
    }
    match memory_summary_tokens_estimate {
        Some(tokens) => estimate + tokens,
        None => estimate,
    }
}

/// A message on one line, cut after `max_chars` characters.
pub fn truncate_for_preview(message: &str, max_chars: usize) -> (out: String)
    ensures
        out@ == search::shortened(message@, max_chars as nat),
{
    truncate_for_brief(message, max_chars)
}

/// Memory counts where the feature is on, memories are used, and the summary
/// file has a text.
pub open spec fn memory_prompt(
    feature_enabled: bool,
    use_memories: bool,
    memory_summary: Option<Seq<char>>,
) -> MemoryPrompt {
    if feature_enabled && use_memories && (memory_summary matches Some(summary) && !text::blank(
        summary,
    )) {
        MemoryPrompt {
            available: true,
            summary_tokens_estimate: Some(
                numbers::token_count(text::trimmed(memory_summary.unwrap())) as usize,
            ),
        }
    } else {
        MemoryPrompt { available: false, summary_tokens_estimate: None }
    }
}

/// Whether the next prompt carries a memory summary, and how many tokens it
/// has. `memory_summary` is the text of the summary file where there is one.
pub fn detect_memory_prompt(
    feature_enabled: bool,
    use_memories: bool,
    memory_summary: &Option<String>,
) -> (out: MemoryPrompt)
    ensures
        out == memory_prompt(feature_enabled, use_memories, text::opt_text(*memory_summary)),
        out.summary_tokens_estimate matches Some(tokens) ==> tokens <= usize::MAX / 4 + 1,
{
    if !feature_enabled || !use_memories {
        return MemoryPrompt { available: false, summary_tokens_estimate: None };
    }
    match memory_summary {
        None => MemoryPrompt { available: false, summary_tokens_estimate: None },
        Some(summary) => {
            let trimmed = trim(summary.as_str());
            proof {
                text::trimmed_empty_iff_blank(summary@);
            }
            if trimmed.as_str().is_empty() {
                return MemoryPrompt { available: false, summary_tokens_estimate: None };
            }
            let tokens = approx_token_count(trimmed.as_str());
            MemoryPrompt { available: true, summary_tokens_estimate: Some(tokens) }
        },
    }
}

// ------------------------------------------------------------------- item previews

/// The text of one part of a message.
pub open spec fn part_text(part: ContentItemView) -> Seq<char> {
    match part {
        ContentItemView::InputText { text } => text,
        ContentItemView::OutputText { text } => text,
        ContentItemView::InputImage => "[image]"@,
    }
}

/// The texts of the parts of a message.
pub open spec fn part_texts(parts: Seq<ContentItemView>) -> Seq<Seq<char>> {
    Seq::new(parts.len(), |i: int| part_text(parts[i]))
}

fn content_text(content: &Vec<ContentItem>) -> (out: String)
    ensures
        out@ == lines::joined(part_texts(content.deep_view()), "\n"@),
{
    let mut parts = no_texts();
    let ghost all = part_texts(content.deep_view());
    assert(all.take(0) =~= Seq::<Seq<char>>::empty());
    for i in 0..content.len()
        invariant
            all == part_texts(content.deep_view()),
            text::texts(parts@) == all.take(i as int),
    {
        let part = match &content[i] {
            ContentItem::InputText { text } => text.clone(),
            ContentItem::OutputText { text } => text.clone(),
            ContentItem::InputImage => "[image]".to_owned(),
        };
        assert(content.deep_view()[i as int] == content@[i as int]@);
        assert(all[i as int] == part@);
        push_text(&mut parts, part);
        assert(all.take(i as int).push(all[i as int]) =~= all.take(i + 1));
    }
    assert(all.take(all.len() as int) =~= all);
    join(&parts, "\n")
}

/// Who an item is from.
pub open spec fn item_role_text(kind: ItemKindView) -> Seq<char> {
    match kind {
        ItemKindView::Message { role, .. } => role,
        ItemKindView::FunctionCallOutput => "tool"@,
        ItemKindView::CustomToolCallOutput => "tool"@,
        ItemKindView::ToolSearchOutput => "tool"@,
        ItemKindView::GhostSnapshot => "system"@,
        ItemKindView::Other => "other"@,
        _ => "assistant"@,
    }
}

/// Who an item is from.
pub fn item_role(kind: &ItemKind) -> (out: String)
    ensures
        out@ == item_role_text(kind@),
{
    match kind {
        ItemKind::Message { role, .. } => role.clone(),
        ItemKind::FunctionCallOutput => "tool".to_owned(),
        ItemKind::CustomToolCallOutput => "tool".to_owned(),
        ItemKind::ToolSearchOutput => "tool".to_owned(),
        ItemKind::GhostSnapshot => "system".to_owned(),
        ItemKind::Other => "other".to_owned(),
        _ => "assistant".to_owned(),
    }
}

/// The name of the kind of an item.
pub open spec fn item_kind_text(kind: ItemKindView) -> Seq<char> {
    match kind {
        ItemKindView::Message { .. } => "message"@,
        ItemKindView::FunctionCall { name } => "function_call:"@ + name,
        ItemKindView::CustomToolCall { name } => "custom_tool_call:"@ + name,
        ItemKindView::FunctionCallOutput => "function_call_output"@,
        ItemKindView::CustomToolCallOutput => "custom_tool_call_output"@,
        ItemKindView::LocalShellCall => "local_shell_call"@,
        ItemKindView::Reasoning => "reasoning"@,
        ItemKindView::WebSearchCall => "web_search_call"@,
        ItemKindView::ImageGenerationCall => "image_generation_call"@,
        ItemKindView::ToolSearchCall => "tool_search_call"@,
        ItemKindView::ToolSearchOutput => "tool_search_output"@,
        ItemKindView::Compaction => "compaction"@,
        ItemKindView::GhostSnapshot => "ghost_snapshot"@,
        ItemKindView::Other => "other"@,
    }
}

/// The name of the kind of an item.
pub fn item_kind_name(kind: &ItemKind) -> (out: String)
    ensures
        out@ == item_kind_text(kind@),
{
    match kind {
        ItemKind::Message { .. } => "message".to_owned(),
        ItemKind::FunctionCall { name } => cat2("function_call:", name.as_str()),
        ItemKind::CustomToolCall { name } => cat2("custom_tool_call:", name.as_str()),
        ItemKind::FunctionCallOutput => "function_call_output".to_owned(),
        ItemKind::CustomToolCallOutput => "custom_tool_call_output".to_owned(),
        ItemKind::LocalShellCall => "local_shell_call".to_owned(),
        ItemKind::Reasoning => "reasoning".to_owned(),
        ItemKind::WebSearchCall => "web_search_call".to_owned(),
        ItemKind::ImageGenerationCall => "image_generation_call".to_owned(),
        ItemKind::ToolSearchCall => "tool_search_call".to_owned(),
        ItemKind::ToolSearchOutput => "tool_search_output".to_owned(),
        ItemKind::Compaction => "compaction".to_owned(),
        ItemKind::GhostSnapshot => "ghost_snapshot".to_owned(),
        ItemKind::Other => "other".to_owned(),
    }
}

/// The most characters of a message that its preview shows.
pub const PREVIEW_CHARS: usize = 160;

/// A short text for an item.
pub open spec fn item_preview_text(kind: ItemKindView) -> Seq<char> {
    match kind {
        ItemKindView::Message { content, .. } => search::shortened(lines::joined(part_texts(content), "\n"@), PREVIEW_CHARS as nat),
        ItemKindView::FunctionCall { .. } => "(tool call)"@,
        ItemKindView::CustomToolCall { .. } => "(custom tool call)"@,
        ItemKindView::FunctionCallOutput => "(tool output)"@,
        ItemKindView::CustomToolCallOutput => "(custom tool output)"@,
        ItemKindView::LocalShellCall => "(local shell call)"@,
        ItemKindView::Reasoning => "(encrypted reasoning content)"@,
        ItemKindView::WebSearchCall => "(web search call)"@,
        ItemKindView::ImageGenerationCall => "(image generation call)"@,
        ItemKindView::ToolSearchCall => "(tool search call)"@,
        ItemKindView::ToolSearchOutput => "(tool search output)"@,
        ItemKindView::Compaction => "(encrypted compaction summary)"@,
        ItemKindView::GhostSnapshot => "(ghost snapshot)"@,
        ItemKindView::Other => "(other response item)"@,
    }
}

/// A short text for an item.
pub fn item_preview(kind: &ItemKind) -> (out: String)
    ensures
        out@ == item_preview_text(kind@),
{
    match kind {
        ItemKind::Message { content, .. } => {
            truncate_for_preview(content_text(content).as_str(), PREVIEW_CHARS)
        },
        ItemKind::FunctionCall { .. } => "(tool call)".to_owned(),
        ItemKind::CustomToolCall { .. } => "(custom tool call)".to_owned(),
        ItemKind::FunctionCallOutput => "(tool output)".to_owned(),
        ItemKind::CustomToolCallOutput => "(custom tool output)".to_owned(),
        ItemKind::LocalShellCall => "(local shell call)".to_owned(),
        ItemKind::Reasoning => "(encrypted reasoning content)".to_owned(),
        ItemKind::WebSearchCall => "(web search call)".to_owned(),
        ItemKind::ImageGenerationCall => "(image generation call)".to_owned(),
        ItemKind::ToolSearchCall => "(tool search call)".to_owned(),
        ItemKind::ToolSearchOutput => "(tool search output)".to_owned(),
        ItemKind::Compaction => "(encrypted compaction summary)".to_owned(),
        ItemKind::GhostSnapshot => "(ghost snapshot)".to_owned(),
        ItemKind::Other => "(other response item)".to_owned(),
    }
}

/// The preview of one item. Items that are never sent count no tokens.
pub open spec fn previewed_item(index: int, item: ResponseItemView) -> PromptItemPreviewView {
    PromptItemPreviewView {
        index: index as usize,
        role: item_role_text(item.kind),
        kind: item_kind_text(item.kind),
        preview: item_preview_text(item.kind),
        estimated_tokens: if item.kind is GhostSnapshot || item.kind is Other {
            0
        } else {
            item_tokens(item) as usize
        },
    }
}

/// The preview of one item of a history.
pub fn prompt_item_preview(index: usize, item: &ResponseItem) -> (out: PromptItemPreview)
    ensures
        out@ == previewed_item(index as int, item@),
{
    let sent = !matches!(&item.kind, ItemKind::GhostSnapshot | ItemKind::Other);
    PromptItemPreview {
        index,
        role: item_role(&item.kind),
        kind: item_kind_name(&item.kind),
        preview: item_preview(&item.kind),
        estimated_tokens: if sent {
            estimate_response_item_tokens(item)
        } else {
            0
        },
    }
}

/// Where the tail of a history starts.
pub open spec fn tail_start(count: nat, limit: nat) -> int {
    if count > limit {
        count - limit
    } else {
        0
    }
}

/// The previews of the last items of a history, numbered from one.
pub open spec fn history_tail(items: Seq<ResponseItemView>, limit: nat) -> Seq<
    PromptItemPreviewView,
> {
    let start = tail_start(items.len(), limit);
    Seq::new((items.len() - start) as nat, |i: int| previewed_item(start + i + 1, items[start + i]))
}

/// The previews of the last `limit` items of a history.
pub fn build_history_tail(items: &Vec<ResponseItem>, limit: usize) -> (out: Vec<PromptItemPreview>)
    ensures
        out.deep_view() == history_tail(items.deep_view(), limit as nat),
{
    let size: usize = items.len();
    let start: usize = size.saturating_sub(limit);
    let mut out: Vec<PromptItemPreview> = Vec::new();
    let ghost all = items.deep_view();
    let ghost tail = history_tail(all, limit as nat);
    let mut i: usize = start;
    assert(out.deep_view() =~= tail.take(0));
    while i < size
        invariant
            start <= i <= size,
            size == items@.len(),
            all == items.deep_view(),
            start == tail_start(all.len(), limit as nat),
            tail == history_tail(all, limit as nat),
            out.deep_view() == tail.take(i - start),
        decreases size - i,
    {
        let ghost before = out.deep_view();
        assert(all[i as int] == items@[i as int]@);
        let preview = prompt_item_preview(i + 1, &items[i]);
        assert(tail[i - start] == preview@);
        out.push(preview);
        assert(out.deep_view() =~= before.push(tail[i - start]));
        assert(tail.take(i - start).push(tail[i - start]) =~= tail.take(i + 1 - start));
        i = i + 1;
    }
    assert(tail.take(tail.len() as int) =~= tail);
    out
}

// ----------------------------------------------------------------------- snapshot

/// The settings in which the runtime differs from the reference context.
pub open spec fn differing_settings(
    reference_context_item: Option<TurnContextItemView>,
    runtime: RuntimeConfigView,
) -> Seq<Seq<char>> {
    let lines = Seq::<Seq<char>>::empty();
    let lines = match reference_context_item {
        Some(reference) => {
            let lines = if !paths::same_path(reference.cwd, runtime.cwd) {
                let lines = lines.push("environment_context"@);
                lines
            } else {
                lines
            };
            let lines = if reference.approval_policy != runtime.approval_policy
                || reference.sandbox_policy != runtime.sandbox_policy {
                let lines = lines.push("permissions"@);
                lines
            } else {
                lines
            };
            let lines = if reference.personality != runtime.personality {
                let lines = lines.push("personality"@);
                lines
            } else {
                lines
            };
            lines
        },
        None => {
            lines
        },
    };
    lines
}

/// The settings in which the runtime differs from the reference context.
pub fn diff_reasons(
    reference_context_item: &Option<TurnContextItem>,
    runtime: &RuntimeConfig,
) -> (out: Vec<String>)
    ensures
        text::reads(out@, differing_settings(reference_context_item.deep_view(), runtime@)),
{
    let mut lines = no_texts();
    match reference_context_item {
        Some(reference) => {
            if !is_same_path(reference.cwd.as_str(), runtime.cwd.as_str()) {
                push_text(&mut lines, "environment_context".to_owned());
            }
            if !same_text(reference.approval_policy.as_str(), runtime.approval_policy.as_str())
                || !same_text(reference.sandbox_policy.as_str(), runtime.sandbox_policy.as_str()) {
                push_text(&mut lines, "permissions".to_owned());
            }
            if !same_opt_text(&reference.personality, &runtime.personality) {
                push_text(&mut lines, "personality".to_owned());
            }
        },
        None => {
        },
    }
    lines
}

/// The tokens of the history: those that the session reported last, or an
/// estimate from the items.
pub open spec fn reported_or_estimated(
    summary: SessionSummaryView,
    items: Seq<ResponseItemView>,
) -> int {
    match summary.latest_context_tokens {
        Some(tokens) => if 0 <= tokens <= usize::MAX {
            tokens as int
        } else {
            history_tokens(items) as int
        },
        None => history_tokens(items) as int,
    }
}

/// An optional text that is there and not blank.
pub open spec fn present(instructions: Option<Seq<char>>) -> bool {
    instructions matches Some(content) && !text::blank(content)
}

fn is_present(instructions: &Option<String>) -> (out: bool)
    ensures
        out == present(text::opt_text(*instructions)),
{
    match instructions {
        Some(content) => !is_blank(content.as_str()),
        None => false,
    }
}

/// The model that the next turn runs with.
pub open spec fn next_model(summary: SessionSummaryView, runtime: RuntimeConfigView) -> Seq<char> {
    text::text_or(text::first_present(runtime.model, summary.latest_model), ""@)
}

/// Whether the next turn runs with another model than the last one.
pub open spec fn switches_model(
    summary: SessionSummaryView,
    runtime: RuntimeConfigView,
    rebuilt: RolloutReconstructionView,
) -> bool {
    rebuilt.previous_turn_settings matches Some(settings) && settings.model != next_model(
        summary,
        runtime,
    )
}

/// How the next turn tells the model of its context.
pub open spec fn next_strategy(
    summary: SessionSummaryView,
    runtime: RuntimeConfigView,
    rebuilt: RolloutReconstructionView,
    memory: MemoryPrompt,
) -> NextTurnContextStrategyView {
    if rebuilt.reference_context_item is None {
        NextTurnContextStrategyView::FullInitialContext {
            model_switch_message: switches_model(summary, runtime, rebuilt),
            memory_prompt: memory.available,
            developer_instructions: present(runtime.developer_instructions),
            user_instructions: present(runtime.user_instructions),
        }
    } else {
        NextTurnContextStrategyView::SettingsUpdate {
            model_switch_message: switches_model(summary, runtime, rebuilt),
            reasons: differing_settings(rebuilt.reference_context_item, runtime),
        }
    }
}

pub open spec fn section(
    kind: Seq<char>,
    description: Seq<char>,
    tokens: int,
) -> PromptSectionPreviewView {
    PromptSectionPreviewView { kind, description, estimated_tokens: tokens as usize }
}

/// The section for how the next turn tells the model of its context, where
/// there is anything to tell.
pub open spec fn strategy_sections(
    strategy: NextTurnContextStrategyView,
    memory: MemoryPrompt,
) -> Seq<PromptSectionPreviewView> {
    match strategy {
        NextTurnContextStrategyView::FullInitialContext {
            developer_instructions,
            user_instructions,
            ..
        } => seq![
            section(
                "initial_context"@,
                "next turn will reinject canonical initial context before appending the new user input"@,
                initial_context_tokens(
                    developer_instructions,
                    user_instructions,
                    memory.summary_tokens_estimate,
                ),
            ),
        ],
        NextTurnContextStrategyView::SettingsUpdate { model_switch_message, reasons } => {
            if reasons.len() > 0 {
                seq![
                    section(
                        "settings_update"@,
                        "next turn sends incremental context updates for: "@ + lines::joined(
                            reasons,
                            ", "@,
                        ),
                        256,
                    ),
                ]
            } else if model_switch_message {
                seq![
                    section(
                        "settings_update"@,
                        "next turn only adds the model-switch developer message"@,
                        256,
                    ),
                ]
            } else {
                Seq::empty()
            }
        },
    }
}

pub open spec fn opt_tokens(content: Option<Seq<char>>) -> int {
    match content {
        Some(content) => numbers::token_count(content) as int,
        None => 0,
    }
}

/// A list with an entry added where a condition holds.
pub open spec fn push_if(
    sections: Seq<PromptSectionPreviewView>,
    condition: bool,
    entry: PromptSectionPreviewView,
) -> Seq<PromptSectionPreviewView> {
    if condition {
        sections.push(entry)
    } else {
        sections
    }
}

/// The sections of the next prompt, in their order.
pub open spec fn prompt_sections(
    summary: SessionSummaryView,
    runtime: RuntimeConfigView,
    rebuilt: RolloutReconstructionView,
    memory: MemoryPrompt,
    next_user_input: Option<Seq<char>>,
) -> Seq<PromptSectionPreviewView> {
    let sections = seq![
        section(
            "reconstructed_history"@,
            numbers::decimal(rebuilt.history.len() as int)
                + " model-visible history item(s) reconstructed from rollout replay"@,
            reported_or_estimated(summary, rebuilt.history),
        ),
    ] + strategy_sections(next_strategy(summary, runtime, rebuilt, memory), memory);
    let sections = push_if(
        sections,
        memory.available,
        section(
            "memory_prompt"@,
            "developer instructions will include the local memory quick-pass workflow"@,
            match memory.summary_tokens_estimate {
                Some(tokens) => tokens as int,
                None => 0,
            },
        ),
    );
    let sections = push_if(
        sections,
        present(runtime.developer_instructions),
        section(
            "developer_instructions"@,
            "resolved runtime has additional developer instructions"@,
            opt_tokens(runtime.developer_instructions),
        ),
    );
    let sections = push_if(
        sections,
        present(runtime.user_instructions),
        section(
            "user_instructions"@,
            "resolved runtime has user instructions"@,
            opt_tokens(runtime.user_instructions),
        ),
    );
    push_if(
        sections,
        next_user_input is Some,
        section(
            "pending_user_input"@,
            "simulated next user message appended at the end of the prompt"@,
            opt_tokens(next_user_input),
        ),
    )
}

/// The number of items in the tail of a previewed history.
pub const HISTORY_TAIL_ITEMS: usize = 12;

/// The next prompt of a session.
pub open spec fn prompt_snapshot(
    summary: SessionSummaryView,
    runtime: RuntimeConfigView,
    rebuilt: RolloutReconstructionView,
    memory: MemoryPrompt,
    tools: PromptToolsView,
    next_user_input: Option<Seq<char>>,
) -> PromptPreviewSnapshotView {
    PromptPreviewSnapshotView {
        reconstructed_history: rebuilt.history,
        history_items_count: rebuilt.history.len() as usize,
        history_tokens_estimate: reported_or_estimated(summary, rebuilt.history) as usize,
        base_instructions_tokens_estimate: tools.base_instructions_tokens_estimate,
        tool_schema_tokens_estimate: tools.tool_schema_tokens_estimate,
        tool_count: tools.tool_count,
        tool_names: tools.tool_names,
        previous_turn_model: match rebuilt.previous_turn_settings {
            Some(settings) => Some(settings.model),
            None => None,
        },
        reference_context_item: rebuilt.reference_context_item,
        context_strategy: next_strategy(summary, runtime, rebuilt, memory),
        latest_compaction_summary: rebuilt.latest_compaction_summary,
        latest_compaction_replacement_items: rebuilt.latest_compaction_replacement_items,
        memory_prompt_available: memory.available,
        memory_summary_tokens_estimate: memory.summary_tokens_estimate,
        developer_instructions_present: present(runtime.developer_instructions),
        user_instructions_present: present(runtime.user_instructions),
        prompt_sections: prompt_sections(summary, runtime, rebuilt, memory, next_user_input),
        history_tail: history_tail(rebuilt.history, HISTORY_TAIL_ITEMS as nat),
    }
}

fn push_section(
    sections: &mut Vec<PromptSectionPreview>,
    kind: &str,
    description: String,
    tokens: usize,
)
    ensures
        final(sections).deep_view() == old(sections).deep_view().push(
            section(kind@, description@, tokens as int),
        ),
{
    let ghost added = section(kind@, description@, tokens as int);
    sections.push(
        PromptSectionPreview { kind: kind.to_owned(), description, estimated_tokens: tokens },
    );
    assert(sections.deep_view() =~= old(sections).deep_view().push(added));
}

fn choose_strategy(
    summary: &SessionSummary,
    runtime: &RuntimeConfig,
    rebuilt: &RolloutReconstruction,
    memory: MemoryPrompt,
) -> (out: NextTurnContextStrategy)
    ensures
        out@ == next_strategy(summary@, runtime@, rebuilt@, memory),
{
    let next = or_opt(&runtime.model, &summary.latest_model);
    let current_model = opt_or(&next, "");
    let model_switch_message = match &rebuilt.previous_turn_settings {
        Some(settings) => !same_text(settings.model.as_str(), current_model.as_str()),
        None => false,
    };
    if rebuilt.reference_context_item.is_none() {
        NextTurnContextStrategy::FullInitialContext {
            model_switch_message,
            memory_prompt: memory.available,
            developer_instructions: is_present(&runtime.developer_instructions),
            user_instructions: is_present(&runtime.user_instructions),
        }
    } else {
        NextTurnContextStrategy::SettingsUpdate {
            model_switch_message,
            reasons: diff_reasons(&rebuilt.reference_context_item, runtime),
        }
    }
}

fn push_strategy_section(
    sections: &mut Vec<PromptSectionPreview>,
    strategy: &NextTurnContextStrategy,
    memory: MemoryPrompt,
)
    requires
        memory.summary_tokens_estimate matches Some(tokens) ==> tokens <= usize::MAX - 512,
    ensures
        final(sections).deep_view() == old(sections).deep_view() + strategy_sections(
            strategy@,
            memory,
        ),
{
    let ghost before = sections.deep_view();
    match strategy {
        NextTurnContextStrategy::FullInitialContext {
            developer_instructions,
            user_instructions,
            ..
        } => {
            let tokens = estimate_initial_context_tokens(
                *developer_instructions,
                *user_instructions,
                memory.summary_tokens_estimate,
            );
            push_section(
                sections,
                "initial_context",
                "next turn will reinject canonical initial context before appending the new user input".to_owned(),
                tokens,
            );
        },
        NextTurnContextStrategy::SettingsUpdate { model_switch_message, reasons } => {
            if reasons.len() > 0 {
                let list = join(reasons, ", ");
                let description = cat2(
                    "next turn sends incremental context updates for: ",
                    list.as_str(),
                );
                push_section(sections, "settings_update", description, 256);
            } else if *model_switch_message {
                push_section(
                    sections,
                    "settings_update",
                    "next turn only adds the model-switch developer message".to_owned(),
                    256,
                );
            }
        },
    }
    assert(sections.deep_view() =~= before + strategy_sections(strategy@, memory));
}

fn tokens_or_zero(content: &Option<String>) -> (out: usize)
    ensures
        out == opt_tokens(text::opt_text(*content)),
{
    match content {
        Some(content) => approx_token_count(content.as_str()),
        None => 0,
    }
}

fn list_sections(
    summary: &SessionSummary,
    runtime: &RuntimeConfig,
    rebuilt: &RolloutReconstruction,
    strategy: &NextTurnContextStrategy,
    memory: MemoryPrompt,
    next_user_input: &Option<String>,
    tokens: usize,
) -> (out: Vec<PromptSectionPreview>)
    requires
        tokens == reported_or_estimated(summary@, rebuilt@.history),
        strategy@ == next_strategy(summary@, runtime@, rebuilt@, memory),
        memory.summary_tokens_estimate matches Some(tokens) ==> tokens <= usize::MAX - 512,
    ensures
        out.deep_view() == prompt_sections(
            summary@,
            runtime@,
            rebuilt@,
            memory,
            text::opt_text(*next_user_input),
        ),
{
    let mut sections: Vec<PromptSectionPreview> = Vec::new();
    assert(sections.deep_view() =~= Seq::<PromptSectionPreviewView>::empty());
    let count = usize_text(rebuilt.history.len());
    push_section(
        &mut sections,
        "reconstructed_history",
        cat2(count.as_str(), " model-visible history item(s) reconstructed from rollout replay"),
        tokens,
    );
    push_strategy_section(&mut sections, strategy, memory);
    if memory.available {
        let memory_tokens: usize = match memory.summary_tokens_estimate {
            Some(tokens) => tokens,
            None => 0,
        };
        push_section(
            &mut sections,
            "memory_prompt",
            "developer instructions will include the local memory quick-pass workflow".to_owned(),
            memory_tokens,
        );
    }
    if is_present(&runtime.developer_instructions) {
        push_section(
            &mut sections,
            "developer_instructions",
            "resolved runtime has additional developer instructions".to_owned(),
            tokens_or_zero(&runtime.developer_instructions),
        );
    }
    if is_present(&runtime.user_instructions) {
        push_section(
            &mut sections,
            "user_instructions",
            "resolved runtime has user instructions".to_owned(),
            tokens_or_zero(&runtime.user_instructions),
        );
    }
    if next_user_input.is_some() {
        push_section(
            &mut sections,
            "pending_user_input",
            "simulated next user message appended at the end of the prompt".to_owned(),
            tokens_or_zero(next_user_input),
        );
    }
    sections
}

fn reported_tokens(summary: &SessionSummary) -> (out: Option<usize>)
    ensures
        out == (match summary@.latest_context_tokens {
            Some(tokens) => if 0 <= tokens <= usize::MAX {
                Some(tokens as usize)
            } else {
                None
            },
            None => None,
        }),
{
    match summary.latest_context_tokens {
        Some(tokens) => if 0 <= tokens && tokens as u64 <= usize::MAX as u64 {
            Some(tokens as usize)
        } else {
            None
        },
        None => None,
    }
}

/// Previews the next prompt of a session.
///
/// The records of the rollout are replayed; the runtime, the memory summary
/// and the tools are those that the session would resume with.
pub fn build_prompt_preview_snapshot(
    summary: &SessionSummary,
    runtime: &RuntimeConfig,
    rollout_items: &Vec<RolloutItem>,
    summary_prefix: &str,
    memory: MemoryPrompt,
    tools: &PromptTools,
    next_user_input: &Option<String>,
) -> (out: Result<PromptPreviewSnapshot, PreviewError>)
    requires
        memory.summary_tokens_estimate matches Some(tokens) ==> tokens <= usize::MAX - 512,
    ensures
        ({
            let items = rollout_items.deep_view();
            let rebuilt = replay::reconstruction(items, replay::walked(items), summary_prefix@);
            match out {
                Ok(snapshot) => snapshot@ == prompt_snapshot(
                    summary@,
                    runtime@,
                    rebuilt,
                    memory,
                    tools@,
                    text::opt_text(*next_user_input),
                ) && reported_or_estimated(summary@, rebuilt.history) <= usize::MAX,
                Err(error) => error == PreviewError::HistoryTooLarge && reported_or_estimated(
                    summary@,
                    rebuilt.history,
                ) > usize::MAX,
            }
        }),
{
    let rebuilt = reconstruct_rollout_history(rollout_items, summary_prefix);
    let tokens: usize = match reported_tokens(summary) {
        Some(tokens) => tokens,
        None => match estimate_response_items_tokens(&rebuilt.history) {
            Some(tokens) => tokens,
            None => {
                return Err(PreviewError::HistoryTooLarge);
            },
        },
    };
    let context_strategy = choose_strategy(summary, runtime, &rebuilt, memory);
    let sections = list_sections(
        summary,
        runtime,
        &rebuilt,
        &context_strategy,
        memory,
        next_user_input,
        tokens,
    );
    let history_items_count: usize = rebuilt.history.len();
    let history_tail = build_history_tail(&rebuilt.history, HISTORY_TAIL_ITEMS);
    let previous_turn_model: Option<String> = match &rebuilt.previous_turn_settings {
        Some(settings) => Some(settings.model.clone()),
        None => None,
    };
    Ok(
        PromptPreviewSnapshot {
            reconstructed_history: rebuilt.history,
            history_items_count,
            history_tokens_estimate: tokens,
            base_instructions_tokens_estimate: tools.base_instructions_tokens_estimate,
            tool_schema_tokens_estimate: tools.tool_schema_tokens_estimate,
            tool_count: tools.tool_count,
            tool_names: clone_texts(&tools.tool_names),
            previous_turn_model,
            reference_context_item: rebuilt.reference_context_item,
            context_strategy,
            latest_compaction_summary: rebuilt.latest_compaction_summary,
            latest_compaction_replacement_items: rebuilt.latest_compaction_replacement_items,
            memory_prompt_available: memory.available,
            memory_summary_tokens_estimate: memory.summary_tokens_estimate,
            developer_instructions_present: is_present(&runtime.developer_instructions),
            user_instructions_present: is_present(&runtime.user_instructions),
            prompt_sections: sections,
            history_tail,
        },
    )
}

// ------------------------------------------------------------------------- output

/// The output for a preview.
pub open spec fn preview_output(
    summary: SessionSummaryView,
    next_user_input: Option<Seq<char>>,
    snapshot: PromptPreviewSnapshotView,
) -> FirstTokenPreviewOutputView {
    FirstTokenPreviewOutputView {
        source_thread_id: summary.thread_id,
        source_thread_name: summary.thread_name,
        source_rollout_path: summary.rollout_path,
        source_archived: summary.archived,
        source_provider: summary.session_provider,
        source_model: summary.latest_model,
        source_context_tokens_estimate: summary.latest_context_tokens,
        source_context_window: summary.latest_model_context_window,
        next_user_input,
        reconstructed_history_items: snapshot.history_items_count,
        reconstructed_history_tokens_estimate: snapshot.history_tokens_estimate,
        previous_turn_model: snapshot.previous_turn_model,
        reference_context_item_present: snapshot.reference_context_item is Some,
        next_turn_context_strategy: snapshot.context_strategy,
        latest_compaction_summary: snapshot.latest_compaction_summary,
        latest_compaction_replacement_items: snapshot.latest_compaction_replacement_items,
        memory_prompt_available: snapshot.memory_prompt_available,
        memory_summary_tokens_estimate: snapshot.memory_summary_tokens_estimate,
        developer_instructions_present: snapshot.developer_instructions_present,
        user_instructions_present: snapshot.user_instructions_present,
        prompt_sections: snapshot.prompt_sections,
        history_tail: snapshot.history_tail,
    }
}

impl FirstTokenPreviewOutput {
    /// The output for a preview of a session.
    pub fn from_snapshot(
        summary: &SessionSummary,
        next_user_input: Option<String>,
        snapshot: PromptPreviewSnapshot,
    ) -> (out: Self)
        ensures
            out@ == preview_output(summary@, text::opt_text(next_user_input), snapshot@),
    {
        FirstTokenPreviewOutput {
            source_thread_id: summary.thread_id.clone(),
            source_thread_name: clone_opt(&summary.thread_name),
            source_rollout_path: summary.rollout_path.clone(),
            source_archived: summary.archived,
            source_provider: clone_opt(&summary.session_provider),
            source_model: clone_opt(&summary.latest_model),
            source_context_tokens_estimate: summary.latest_context_tokens,
            source_context_window: summary.latest_model_context_window,
            next_user_input,
            reconstructed_history_items: snapshot.history_items_count,
            reconstructed_history_tokens_estimate: snapshot.history_tokens_estimate,
            previous_turn_model: snapshot.previous_turn_model,
            reference_context_item_present: snapshot.reference_context_item.is_some(),
            next_turn_context_strategy: snapshot.context_strategy,
            latest_compaction_summary: snapshot.latest_compaction_summary,
            latest_compaction_replacement_items: snapshot.latest_compaction_replacement_items,
            memory_prompt_available: snapshot.memory_prompt_available,
            memory_summary_tokens_estimate: snapshot.memory_summary_tokens_estimate,
            developer_instructions_present: snapshot.developer_instructions_present,
            user_instructions_present: snapshot.user_instructions_present,
            prompt_sections: snapshot.prompt_sections,
            history_tail: snapshot.history_tail,
        }
    }
}

/// The line for a section of a prompt.
pub open spec fn section_line_text(section: PromptSectionPreviewView) -> Seq<char> {
    "- "@
        + section.kind
        + " | tokens≈"@
        + numbers::decimal(section.estimated_tokens as int)
        + " | "@
        + section.description
}

/// The line for a section of a prompt.
pub fn section_line(section: &PromptSectionPreview) -> (out: String)
    ensures
        out@ == section_line_text(section@),
{
    cat6(
        "- ",
        section.kind.as_str(),
        " | tokens≈",
        usize_text(section.estimated_tokens).as_str(),
        " | ",
        section.description.as_str(),
    )
}

/// The line for an item of a history.
pub open spec fn tail_line_text(item: PromptItemPreviewView) -> Seq<char> {
    "- #"@
        + numbers::decimal(item.index as int)
        + " "@
        + item.role
        + " "@
        + item.kind
        + " | tokens≈"@
        + numbers::decimal(item.estimated_tokens as int)
        + " | "@
        + item.preview
}

/// The line for an item of a history.
pub fn tail_line(item: &PromptItemPreview) -> (out: String)
    ensures
        out@ == tail_line_text(item@),
{
    cat10(
        "- #",
        usize_text(item.index).as_str(),
        " ",
        item.role.as_str(),
        " ",
        item.kind.as_str(),
        " | tokens≈",
        usize_text(item.estimated_tokens).as_str(),
        " | ",
        item.preview.as_str(),
    )
}

pub open spec fn section_lines_text(sections: Seq<PromptSectionPreviewView>) -> Seq<Seq<char>> {
    Seq::new(sections.len(), |i: int| section_line_text(sections[i]))
}

fn section_lines(sections: &Vec<PromptSectionPreview>) -> (out: Vec<String>)
    ensures
        text::texts(out@) == section_lines_text(sections.deep_view()),
{
    let mut out = no_texts();
    let ghost all = section_lines_text(sections.deep_view());
    assert(all.take(0) =~= Seq::<Seq<char>>::empty());
    for i in 0..sections.len()
        invariant
            all == section_lines_text(sections.deep_view()),
            text::texts(out@) == all.take(i as int),
    {
        assert(sections.deep_view()[i as int] == sections@[i as int]@);
        push_text(&mut out, section_line(&sections[i]));
        assert(all.take(i as int).push(all[i as int]) =~= all.take(i + 1));
    }
    assert(all.take(all.len() as int) =~= all);
    out
}

pub open spec fn tail_lines_text(items: Seq<PromptItemPreviewView>) -> Seq<Seq<char>> {
    Seq::new(items.len(), |i: int| tail_line_text(items[i]))
}

fn tail_lines(items: &Vec<PromptItemPreview>) -> (out: Vec<String>)
    ensures
        text::texts(out@) == tail_lines_text(items.deep_view()),
{
    let mut out = no_texts();
    let ghost all = tail_lines_text(items.deep_view());
    assert(all.take(0) =~= Seq::<Seq<char>>::empty());
    for i in 0..items.len()
        invariant
            all == tail_lines_text(items.deep_view()),
            text::texts(out@) == all.take(i as int),
    {
        assert(items.deep_view()[i as int] == items@[i as int]@);
        push_text(&mut out, tail_line(&items[i]));
        assert(all.take(i as int).push(all[i as int]) =~= all.take(i + 1));
    }
    assert(all.take(all.len() as int) =~= all);
    out
}

/// The lines that a preview is printed as.
pub open spec fn output_lines_text(output: FirstTokenPreviewOutputView) -> Seq<Seq<char>> {
    let lines = Seq::<Seq<char>>::empty();
    let lines = lines.push("source_thread_id: "@ + output.source_thread_id);
    let lines = lines.push("source_thread_name: "@ + text::text_or(output.source_thread_name, ""@));
    let lines = lines.push("source_rollout_path: "@ + output.source_rollout_path);
    let lines = lines.push("source_archived: "@ + numbers::bool_text(output.source_archived));
    let lines = lines.push("source_provider: "@ + text::text_or(output.source_provider, ""@));
    let lines = lines.push("source_model: "@ + text::text_or(output.source_model, ""@));
    let lines = lines.push("source_context_tokens_estimate: "@
            + numbers::opt_decimal(numbers::opt_int_i64(output.source_context_tokens_estimate), ""@));
    let lines = lines.push("source_context_window: "@
            + numbers::opt_decimal(numbers::opt_int_i64(output.source_context_window), ""@));
    let lines = lines.push("reconstructed_history_items: "@
            + numbers::decimal(output.reconstructed_history_items as int));
    let lines = lines.push("reconstructed_history_tokens_estimate: "@
            + numbers::decimal(output.reconstructed_history_tokens_estimate as int));
    let lines = if let Some(summary) = output.latest_compaction_summary {
        let lines = lines.push(""@);
        let lines = lines.push("latest_compaction_summary:"@);
        let lines = lines.push(summary);
        lines
    } else {
        lines
    };
    let lines = match output.next_turn_context_strategy {
        NextTurnContextStrategyView::FullInitialContext {
            model_switch_message,
            memory_prompt,
            developer_instructions,
            user_instructions,
        } => {
            let lines = lines.push(""@);
            let lines = lines.push("next_turn_context_strategy: full_initial_context"@);
            let lines = lines.push("model_switch_message: "@ + numbers::bool_text(model_switch_message));
            let lines = lines.push("memory_prompt_injected: "@ + numbers::bool_text(memory_prompt));
            let lines = lines.push("developer_instructions_injected: "@
                    + numbers::bool_text(developer_instructions));
            let lines = lines.push("user_instructions_injected: "@ + numbers::bool_text(user_instructions));
            lines
        },
        NextTurnContextStrategyView::SettingsUpdate { model_switch_message, reasons } => {
            let lines = lines.push(""@);
            let lines = lines.push("next_turn_context_strategy: settings_update"@);
            let lines = lines.push("model_switch_message: "@ + numbers::bool_text(model_switch_message));
            let lines = lines.push("settings_update_reasons: "@ + lines::joined(reasons, ", "@));
            lines
        },
    };
    let lines = lines.push("memory_prompt_available: "@ + numbers::bool_text(output.memory_prompt_available));
    let lines = lines.push("memory_summary_tokens_estimate: "@
            + numbers::opt_decimal(numbers::opt_int_usize(output.memory_summary_tokens_estimate), ""@));
    let lines = lines.push("developer_instructions_present: "@
            + numbers::bool_text(output.developer_instructions_present));
    let lines = lines.push("user_instructions_present: "@ + numbers::bool_text(output.user_instructions_present));
    let lines = lines.push("latest_compaction_replacement_items: "@
            + numbers::opt_decimal(numbers::opt_int_usize(output.latest_compaction_replacement_items), ""@));
    let lines = if let Some(next_user_input) = output.next_user_input {
        let lines = lines.push("next_user_input: "@ + next_user_input);
        lines
    } else {
        lines
    };
    let lines = if output.prompt_sections.len() > 0 {
        let lines = lines.push(""@);
        let lines = lines.push("prompt_sections:"@);
        let lines = lines + section_lines_text(output.prompt_sections);
        lines
    } else {
        lines
    };
    let lines = if output.history_tail.len() > 0 {
        let lines = lines.push(""@);
        let lines = lines.push("history_tail:"@);
        let lines = lines + tail_lines_text(output.history_tail);
        lines
    } else {
        lines
    };
    lines
}

/// The lines that a preview is printed as.
pub fn render_output_lines(output: &FirstTokenPreviewOutput) -> (out: Vec<String>)
    ensures
        text::reads(out@, output_lines_text(output@)),
{
    let mut lines = no_texts();
    push_text(&mut lines, cat2("source_thread_id: ", output.source_thread_id.as_str()));
    push_text(
        &mut lines,
        cat2("source_thread_name: ", opt_or(&output.source_thread_name, "").as_str()),
    );
    push_text(&mut lines, cat2("source_rollout_path: ", output.source_rollout_path.as_str()));
    push_text(&mut lines, cat2("source_archived: ", bool_str(output.source_archived)));
    push_text(
        &mut lines,
        cat2("source_provider: ", opt_or(&output.source_provider, "").as_str()),
    );
    push_text(&mut lines, cat2("source_model: ", opt_or(&output.source_model, "").as_str()));
    push_text(
        &mut lines,
        cat2(
            "source_context_tokens_estimate: ",
            opt_i64_text(output.source_context_tokens_estimate, "").as_str(),
        ),
    );
    push_text(
        &mut lines,
        cat2("source_context_window: ", opt_i64_text(output.source_context_window, "").as_str()),
    );
    push_text(
        &mut lines,
        cat2(
            "reconstructed_history_items: ",
            usize_text(output.reconstructed_history_items).as_str(),
        ),
    );
    push_text(
        &mut lines,
        cat2(
            "reconstructed_history_tokens_estimate: ",
            usize_text(output.reconstructed_history_tokens_estimate).as_str(),
        ),
    );
    if let Some(summary) = &output.latest_compaction_summary {
        push_text(&mut lines, "".to_owned());
        push_text(&mut lines, "latest_compaction_summary:".to_owned());
        push_text(&mut lines, summary.clone());
    }
    match &output.next_turn_context_strategy {
        NextTurnContextStrategy::FullInitialContext {
            model_switch_message,
            memory_prompt,
            developer_instructions,
            user_instructions,
        } => {
            push_text(&mut lines, "".to_owned());
            push_text(
                &mut lines,
                "next_turn_context_strategy: full_initial_context".to_owned(),
            );
            push_text(
                &mut lines,
                cat2("model_switch_message: ", bool_str(*model_switch_message)),
            );
            push_text(&mut lines, cat2("memory_prompt_injected: ", bool_str(*memory_prompt)));
            push_text(
                &mut lines,
                cat2("developer_instructions_injected: ", bool_str(*developer_instructions)),
            );
            push_text(
                &mut lines,
                cat2("user_instructions_injected: ", bool_str(*user_instructions)),
            );
        },
        NextTurnContextStrategy::SettingsUpdate { model_switch_message, reasons } => {
            push_text(&mut lines, "".to_owned());
            push_text(&mut lines, "next_turn_context_strategy: settings_update".to_owned());
            push_text(
                &mut lines,
                cat2("model_switch_message: ", bool_str(*model_switch_message)),
            );
            push_text(
                &mut lines,
                cat2("settings_update_reasons: ", join(reasons, ", ").as_str()),
            );
        },
    }
    push_text(
        &mut lines,
        cat2("memory_prompt_available: ", bool_str(output.memory_prompt_available)),
    );
    push_text(
        &mut lines,
        cat2(
            "memory_summary_tokens_estimate: ",
            opt_usize_text(output.memory_summary_tokens_estimate, "").as_str(),
        ),
    );
    push_text(
        &mut lines,
        cat2(
            "developer_instructions_present: ",
            bool_str(output.developer_instructions_present),
        ),
    );
    push_text(
        &mut lines,
        cat2("user_instructions_present: ", bool_str(output.user_instructions_present)),
    );
    push_text(
        &mut lines,
        cat2(
            "latest_compaction_replacement_items: ",
            opt_usize_text(output.latest_compaction_replacement_items, "").as_str(),
        ),
    );
    if let Some(next_user_input) = &output.next_user_input {
        push_text(&mut lines, cat2("next_user_input: ", next_user_input.as_str()));
    }
    if output.prompt_sections.len() > 0 {
        push_text(&mut lines, "".to_owned());
        push_text(&mut lines, "prompt_sections:".to_owned());
        push_texts(&mut lines, &section_lines(&output.prompt_sections));
    }
    if output.history_tail.len() > 0 {
        push_text(&mut lines, "".to_owned());
        push_text(&mut lines, "history_tail:".to_owned());
        push_texts(&mut lines, &tail_lines(&output.history_tail));
    }
    lines
}

// --------------------------------------------------------------------------- laws

/// A session whose reference context survives is told only what changed; any
/// other is told everything.
pub proof fn strategy_follows_reference_context(
    summary: SessionSummaryView,
    runtime: RuntimeConfigView,
    rebuilt: RolloutReconstructionView,
    memory: MemoryPrompt,
)
    ensures
        (next_strategy(summary, runtime, rebuilt, memory) is FullInitialContext) == (
        rebuilt.reference_context_item is None),
{
}

/// A runtime with the settings of the reference context gives no reason for an
/// update. A directory may be written in another way.
pub proof fn equal_settings_differ_in_nothing(
    reference: TurnContextItemView,
    runtime: RuntimeConfigView,
)
    requires
        paths::same_path(reference.cwd, runtime.cwd),
        reference.approval_policy == runtime.approval_policy,
        reference.sandbox_policy == runtime.sandbox_policy,
        reference.personality == runtime.personality,
    ensures
        differing_settings(Some(reference), runtime).len() == 0,
{
}

/// The next turn announces another model exactly where the replay leaves a turn
/// behind whose model is not the one that the next turn runs with: the model of
/// the runtime, or the latest one of the session where the runtime names none.
pub proof fn model_switch_is_announced_where_the_model_changes(
    summary: SessionSummaryView,
    runtime: RuntimeConfigView,
    rebuilt: RolloutReconstructionView,
    memory: MemoryPrompt,
)
    ensures
        ({
            let strategy = next_strategy(summary, runtime, rebuilt, memory);
            let announced = match strategy {
                NextTurnContextStrategyView::FullInitialContext { model_switch_message, .. } =>
                    model_switch_message,
                NextTurnContextStrategyView::SettingsUpdate { model_switch_message, .. } =>
                    model_switch_message,
            };
            &&& rebuilt.previous_turn_settings is None ==> !announced
            &&& rebuilt.previous_turn_settings matches Some(settings) ==> {
                &&& runtime.model matches Some(model) ==> announced == (settings.model != model)
                &&& runtime.model is None ==> (summary.latest_model matches Some(model)
                    ==> announced == (settings.model != model))
                &&& runtime.model is None && summary.latest_model is None ==> announced == (
                settings.model != ""@)
            }
        }),
{
}

/// Without a context to compare with, the next turn tells everything: it carries
/// the memory prompt where that is available, and says which instructions have a
/// text. With one, it tells what has changed.
pub proof fn next_turn_tells_all_or_what_changed(
    summary: SessionSummaryView,
    runtime: RuntimeConfigView,
    rebuilt: RolloutReconstructionView,
    memory: MemoryPrompt,
)
    ensures
        ({
            let strategy = next_strategy(summary, runtime, rebuilt, memory);
            let developer = runtime.developer_instructions is Some && !text::blank(
                runtime.developer_instructions.unwrap(),
            );
            let user = runtime.user_instructions is Some && !text::blank(
                runtime.user_instructions.unwrap(),
            );
            &&& strategy is FullInitialContext <==> rebuilt.reference_context_item is None
            &&& strategy matches NextTurnContextStrategyView::FullInitialContext {
                memory_prompt,
                developer_instructions,
                user_instructions,
                ..
            } ==> memory_prompt == memory.available && developer_instructions == developer
                && user_instructions == user
            &&& strategy matches NextTurnContextStrategyView::SettingsUpdate { reasons, .. }
                ==> reasons == differing_settings(rebuilt.reference_context_item, runtime)
        }),
{
}

/// The settings that are told as changed are exactly those that differ: the
/// directory, either of the two policies, and the personality, in this order.
pub proof fn changed_settings_are_named(
    reference: TurnContextItemView,
    runtime: RuntimeConfigView,
)
    ensures
        ({
            let reasons = differing_settings(Some(reference), runtime);
            let moved = !paths::same_path(reference.cwd, runtime.cwd);
            let allowed = reference.approval_policy != runtime.approval_policy
                || reference.sandbox_policy != runtime.sandbox_policy;
            let changed = reference.personality != runtime.personality;
            reasons == (if moved {
                seq!["environment_context"@]
            } else {
                Seq::empty()
            }) + (if allowed {
                seq!["permissions"@]
            } else {
                Seq::empty()
            }) + (if changed {
                seq!["personality"@]
            } else {
                Seq::empty()
            })
        }),
        differing_settings(None, runtime).len() == 0,
{
    let reasons = differing_settings(Some(reference), runtime);
    let moved = !paths::same_path(reference.cwd, runtime.cwd);
    let allowed = reference.approval_policy != runtime.approval_policy || reference.sandbox_policy
        != runtime.sandbox_policy;
    let changed = reference.personality != runtime.personality;
    assert(reasons =~= (if moved {
        seq!["environment_context"@]
    } else {
        Seq::empty()
    }) + (if allowed {
        seq!["permissions"@]
    } else {
        Seq::empty()
    }) + (if changed {
        seq!["personality"@]
    } else {
        Seq::empty()
    }));
}

/// The tokens of a history are those that the session reported, where that is a
/// number of tokens, and otherwise those of its items together; an item counts one
/// token for every four bytes of its JSON, rounded up.
pub proof fn history_tokens_are_reported_or_added_up(
    summary: SessionSummaryView,
    items: Seq<ResponseItemView>,
    item: ResponseItemView,
)
    ensures
        summary.latest_context_tokens matches Some(tokens) ==> (0 <= tokens <= usize::MAX
            ==> reported_or_estimated(summary, items) == tokens),
        summary.latest_context_tokens is None || summary.latest_context_tokens.unwrap() < 0
            ==> reported_or_estimated(summary, items) == history_tokens(items),
        history_tokens(Seq::empty()) == 0,
        item.encoded_bytes matches Some(bytes) ==> {
            let added = history_tokens(items.push(item)) - history_tokens(items);
            4 * added >= bytes && 4 * (added - 1) < bytes
        },
        item.encoded_bytes is None ==> history_tokens(items.push(item)) == history_tokens(items),
{
    assert(items.push(item).drop_last() =~= items);
}

/// A preview shows the history that the replay gives, and the tools, the memory
/// and the instructions that the next turn has.
pub proof fn preview_shows_what_the_turn_has(
    summary: SessionSummaryView,
    runtime: RuntimeConfigView,
    rebuilt: RolloutReconstructionView,
    memory: MemoryPrompt,
    tools: PromptToolsView,
    next_user_input: Option<Seq<char>>,
)
    ensures
        ({
            let out = prompt_snapshot(summary, runtime, rebuilt, memory, tools, next_user_input);
            let tokens = reported_or_estimated(summary, rebuilt.history);
            &&& out.reconstructed_history == rebuilt.history
            &&& rebuilt.history.len() <= usize::MAX ==> out.history_items_count
                == rebuilt.history.len()
            &&& 0 <= tokens <= usize::MAX ==> out.history_tokens_estimate == tokens
            &&& out.base_instructions_tokens_estimate == tools.base_instructions_tokens_estimate
            &&& out.tool_schema_tokens_estimate == tools.tool_schema_tokens_estimate
            &&& out.tool_count == tools.tool_count
            &&& out.tool_names == tools.tool_names
            &&& out.reference_context_item == rebuilt.reference_context_item
            &&& out.latest_compaction_summary == rebuilt.latest_compaction_summary
            &&& out.latest_compaction_replacement_items
                == rebuilt.latest_compaction_replacement_items
            &&& out.memory_prompt_available == memory.available
            &&& out.memory_summary_tokens_estimate == memory.summary_tokens_estimate
            &&& out.context_strategy == next_strategy(summary, runtime, rebuilt, memory)
            &&& out.prompt_sections == prompt_sections(
                summary,
                runtime,
                rebuilt,
                memory,
                next_user_input,
            )
            &&& out.previous_turn_model is Some <==> rebuilt.previous_turn_settings is Some
            &&& rebuilt.previous_turn_settings matches Some(settings) ==> out.previous_turn_model
                == Some(settings.model)
            &&& out.developer_instructions_present <==> runtime.developer_instructions is Some
                && !text::blank(runtime.developer_instructions.unwrap())
            &&& out.user_instructions_present <==> runtime.user_instructions is Some
                && !text::blank(runtime.user_instructions.unwrap())
        }),
{
}

/// The last twelve items of a history are previewed, each under its place in it,
/// counted from one.
pub proof fn newest_items_are_previewed(
    summary: SessionSummaryView,
    runtime: RuntimeConfigView,
    rebuilt: RolloutReconstructionView,
    memory: MemoryPrompt,
    tools: PromptToolsView,
    next_user_input: Option<Seq<char>>,
    at: int,
)
    requires
        rebuilt.history.len() < usize::MAX,
    ensures
        ({
            let tail = prompt_snapshot(
                summary,
                runtime,
                rebuilt,
                memory,
                tools,
                next_user_input,
            ).history_tail;
            let items = rebuilt.history;
            &&& tail.len() == if items.len() <= 12 {
                items.len()
            } else {
                12
            }
            &&& 0 <= at < tail.len() ==> {
                let place = items.len() - tail.len() + at;
                &&& tail[at].index == place + 1
                &&& tail[at] == previewed_item(place + 1, items[place])
            }
        }),
{
}

/// The preview of a message shows who it is from and its text on one line, cut
/// after 160 characters; other items are shown by their kind. Snapshots and unknown
/// items count no tokens, and every other item those of its JSON.
pub proof fn items_are_previewed_by_their_kind(index: int, item: ResponseItemView)
    ensures
        ({
            let out = previewed_item(index, item);
            &&& item.kind matches ItemKindView::Message { role, content } ==> {
                &&& out.role == role
                &&& out.preview == search::shortened(
                    lines::joined(
                        Seq::new(
                            content.len(),
                            |i: int|
                                match content[i] {
                                    ContentItemView::InputText { text } => text,
                                    ContentItemView::OutputText { text } => text,
                                    ContentItemView::InputImage => "[image]"@,
                                },
                        ),
                        "\n"@,
                    ),
                    160,
                )
            }
            &&& item.kind is FunctionCallOutput || item.kind is CustomToolCallOutput || item.kind
                is ToolSearchOutput ==> out.role == "tool"@
            &&& item.kind is FunctionCall || item.kind is CustomToolCall || item.kind
                is LocalShellCall || item.kind is Reasoning || item.kind is Compaction ==> out.role
                == "assistant"@
            &&& item.kind matches ItemKindView::FunctionCall { name } ==> out.kind
                == "function_call:"@ + name
            &&& item.kind matches ItemKindView::CustomToolCall { name } ==> out.kind
                == "custom_tool_call:"@ + name
            &&& item.kind is GhostSnapshot || item.kind is Other ==> out.estimated_tokens == 0
            &&& !(item.kind is GhostSnapshot) && !(item.kind is Other) ==> (
            item.encoded_bytes matches Some(bytes) ==> 4 * out.estimated_tokens >= bytes && 4 * (
            out.estimated_tokens - 1) < bytes)
        }),
{
    if let ItemKindView::Message { role, content } = item.kind {
        assert(part_texts(content) =~= Seq::new(
            content.len(),
            |i: int|
                match content[i] {
                    ContentItemView::InputText { text } => text,
                    ContentItemView::OutputText { text } => text,
                    ContentItemView::InputImage => "[image]"@,
                },
        ));
    }
}

/// The next prompt starts with the history. There is a section for every other
/// thing that it holds, and for nothing else: what is told of the context, the
/// memory, the instructions, and what the user is going to say.
pub proof fn prompt_has_a_section_for_each_part(
    summary: SessionSummaryView,
    runtime: RuntimeConfigView,
    rebuilt: RolloutReconstructionView,
    memory: MemoryPrompt,
    next_user_input: Option<Seq<char>>,
)
    ensures
        ({
            let out = prompt_sections(summary, runtime, rebuilt, memory, next_user_input);
            let strategy = next_strategy(summary, runtime, rebuilt, memory);
            let developer = runtime.developer_instructions is Some && !text::blank(
                runtime.developer_instructions.unwrap(),
            );
            let user = runtime.user_instructions is Some && !text::blank(
                runtime.user_instructions.unwrap(),
            );
            let told = match strategy {
                NextTurnContextStrategyView::FullInitialContext { .. } => true,
                NextTurnContextStrategyView::SettingsUpdate { model_switch_message, reasons } =>
                    model_switch_message || reasons.len() > 0,
            };
            let one = |there: bool| if there { 1int } else { 0int };
            &&& out.len() == 1 + one(told) + one(memory.available) + one(developer) + one(user)
                + one(next_user_input is Some)
            &&& out[0].kind == "reconstructed_history"@
            &&& (0 <= reported_or_estimated(summary, rebuilt.history) <= usize::MAX
                ==> out[0].estimated_tokens == reported_or_estimated(summary, rebuilt.history))
            &&& strategy is FullInitialContext ==> out[1].kind == "initial_context"@
            &&& strategy is SettingsUpdate && told ==> out[1].kind == "settings_update"@
                && out[1].estimated_tokens == 256
            &&& memory.available ==> out[1 + one(told)].kind == "memory_prompt"@
            &&& developer ==> out[1 + one(told) + one(memory.available)].kind
                == "developer_instructions"@
            &&& user ==> out[1 + one(told) + one(memory.available) + one(developer)].kind
                == "user_instructions"@
            &&& next_user_input is Some ==> out.last().kind == "pending_user_input"@ && (
            numbers::token_count(next_user_input.unwrap()) <= usize::MAX
                ==> out.last().estimated_tokens == numbers::token_count(next_user_input.unwrap()))
        }),
{
}

/// A full context counts 256 tokens, 128 more for each of the two kinds of
/// instructions, and the memory summary.
pub proof fn full_context_counts_its_parts(memory_tokens: Option<usize>)
    ensures
        initial_context_tokens(false, false, None) == 256,
        initial_context_tokens(true, false, memory_tokens) == initial_context_tokens(
            false,
            false,
            memory_tokens,
        ) + 128,
        initial_context_tokens(false, true, memory_tokens) == initial_context_tokens(
            false,
            false,
            memory_tokens,
        ) + 128,
        initial_context_tokens(true, true, memory_tokens) == initial_context_tokens(
            false,
            false,
            memory_tokens,
        ) + 256,
        memory_tokens matches Some(tokens) ==> initial_context_tokens(false, false, memory_tokens)
            == 256 + tokens,
{
}

/// A memory prompt is available exactly where the feature is on, memories are
/// used and the summary has a text.
pub proof fn memory_needs_feature_use_and_text(
    feature_enabled: bool,
    use_memories: bool,
    memory_summary: Option<Seq<char>>,
)
    ensures
        ({
            let memory = memory_prompt(feature_enabled, use_memories, memory_summary);
            &&& memory.available <==> feature_enabled && use_memories && memory_summary is Some
                && !text::blank(memory_summary.unwrap())
            &&& memory.summary_tokens_estimate is Some <==> memory.available
            &&& memory.available && numbers::token_count(text::trimmed(memory_summary.unwrap()))
                <= usize::MAX ==> memory.summary_tokens_estimate.unwrap() == numbers::token_count(
                text::trimmed(memory_summary.unwrap()),
            )
        }),
{
}

/// What is printed of a preview is the session and the preview as they are.
pub proof fn preview_output_tells_session_and_preview(
    summary: SessionSummaryView,
    next_user_input: Option<Seq<char>>,
    snapshot: PromptPreviewSnapshotView,
)
    ensures
        ({
            let out = preview_output(summary, next_user_input, snapshot);
            &&& out.source_thread_id == summary.thread_id
            &&& out.source_thread_name == summary.thread_name
            &&& out.source_rollout_path == summary.rollout_path
            &&& out.source_archived == summary.archived
            &&& out.source_provider == summary.session_provider
            &&& out.source_model == summary.latest_model
            &&& out.source_context_tokens_estimate == summary.latest_context_tokens
            &&& out.source_context_window == summary.latest_model_context_window
            &&& out.next_user_input == next_user_input
            &&& out.reconstructed_history_items == snapshot.history_items_count
            &&& out.reconstructed_history_tokens_estimate == snapshot.history_tokens_estimate
            &&& out.previous_turn_model == snapshot.previous_turn_model
            &&& out.reference_context_item_present == (snapshot.reference_context_item is Some)
            &&& out.next_turn_context_strategy == snapshot.context_strategy
            &&& out.latest_compaction_summary == snapshot.latest_compaction_summary
            &&& out.memory_prompt_available == snapshot.memory_prompt_available
            &&& out.prompt_sections == snapshot.prompt_sections
            &&& out.history_tail == snapshot.history_tail
        }),
{
}

/// What is printed of a preview tells the session and its history first.
#[verifier::rlimit(60)]
#[verifier::spinoff_prover]
pub proof fn printed_preview_starts_with_the_session(output: FirstTokenPreviewOutputView)
    ensures
        ({
            let lines = output_lines_text(output);
            let known = |value: Option<Seq<char>>|
                match value {
                    Some(value) => value,
                    None => ""@,
                };
            let number = |value: Option<i64>|
                match value {
                    Some(value) => numbers::decimal(value as int),
                    None => ""@,
                };
            &&& lines[0] == "source_thread_id: "@ + output.source_thread_id
            &&& lines[1] == "source_thread_name: "@ + known(output.source_thread_name)
            &&& lines[2] == "source_rollout_path: "@ + output.source_rollout_path
            &&& lines[3] == "source_archived: "@ + numbers::bool_text(output.source_archived)
            &&& lines[4] == "source_provider: "@ + known(output.source_provider)
            &&& lines[5] == "source_model: "@ + known(output.source_model)
            &&& lines[6] == "source_context_tokens_estimate: "@ + number(
                output.source_context_tokens_estimate,
            )
            &&& lines[7] == "source_context_window: "@ + number(output.source_context_window)
            &&& lines[8] == "reconstructed_history_items: "@ + numbers::decimal(
                output.reconstructed_history_items as int,
            )
            &&& lines[9] == "reconstructed_history_tokens_estimate: "@ + numbers::decimal(
                output.reconstructed_history_tokens_estimate as int,
            )
            &&& output.latest_compaction_summary matches Some(summary) ==> lines[12] == summary
        }),
{
}

/// What is printed of a preview has a part for each thing that there is: the
/// summary of a compaction, how the next turn tells its context, the input, the
/// sections and the last items.
pub proof fn printed_preview_has_a_part_for_each(output: FirstTokenPreviewOutputView, at: int)
    ensures
        ({
            let lines = output_lines_text(output);
            let part = |size: nat| if size > 0 { size as int + 2 } else { 0int };
            let summary = if output.latest_compaction_summary is Some { 3int } else { 0int };
            let input = if output.next_user_input is Some { 1int } else { 0int };
            let told = if output.next_turn_context_strategy is FullInitialContext { 6int } else { 4 };
            let sections = part(output.prompt_sections.len());
            let head = 10 + summary + told + 5 + input;
            &&& lines.len() == head + sections + part(output.history_tail.len())
            &&& output.next_user_input matches Some(text) ==> lines[head - 1]
                == "next_user_input: "@ + text
            &&& 0 <= at < output.prompt_sections.len() ==> lines[head + 2 + at] == "- "@
                + output.prompt_sections[at].kind + " | tokens≈"@ + numbers::decimal(
                output.prompt_sections[at].estimated_tokens as int,
            ) + " | "@ + output.prompt_sections[at].description
            &&& 0 <= at < output.history_tail.len() ==> lines[head + sections + 2 + at]
                == tail_line_text(output.history_tail[at])
            &&& output.next_turn_context_strategy
                matches NextTurnContextStrategyView::SettingsUpdate {
                model_switch_message,
                reasons,
            } ==> lines[10 + summary + 2] == "model_switch_message: "@ + numbers::bool_text(
                model_switch_message,
            ) && lines[10 + summary + 3] == "settings_update_reasons: "@ + lines::joined(
                reasons,
                ", "@,
            )
            &&& output.next_turn_context_strategy
                matches NextTurnContextStrategyView::FullInitialContext {
                model_switch_message,
                memory_prompt,
                developer_instructions,
                user_instructions,
            } ==> lines[10 + summary + 2] == "model_switch_message: "@ + numbers::bool_text(
                model_switch_message,
            ) && lines[10 + summary + 3] == "memory_prompt_injected: "@ + numbers::bool_text(
                memory_prompt,
            ) && lines[10 + summary + 4] == "developer_instructions_injected: "@
                + numbers::bool_text(developer_instructions) && lines[10 + summary + 5]
                == "user_instructions_injected: "@ + numbers::bool_text(user_instructions)
            &&& lines[10 + summary + told] == "memory_prompt_available: "@ + numbers::bool_text(
                output.memory_prompt_available,
            )
            &&& lines[10 + summary + told + 2] == "developer_instructions_present: "@
                + numbers::bool_text(output.developer_instructions_present)
            &&& lines[10 + summary + told + 3] == "user_instructions_present: "@
                + numbers::bool_text(output.user_instructions_present)
        }),
{
}

/// An item is printed with its place, who it is from, its kind, its tokens and its
/// text.
pub proof fn printed_items_tell_everything(item: PromptItemPreviewView)
    ensures
        tail_line_text(item) == "- #"@ + numbers::decimal(item.index as int) + " "@ + item.role
            + " "@ + item.kind + " | tokens≈"@ + numbers::decimal(item.estimated_tokens as int)
            + " | "@ + item.preview,
{
}

} // verus!
