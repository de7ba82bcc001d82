//! The records of a rollout file, as far as the session manager reads them.

use vstd::prelude::*;

use crate::text;
use crate::text::clone_opt;
use crate::text::clone_texts;

verus! {

/// One part of a message.
#[derive(Debug, PartialEq, Eq)]
pub enum ContentItem {
    InputText { text: String },
    OutputText { text: String },
    InputImage,
}

/// What a [`ContentItem`] stands for.
pub enum ContentItemView {
    InputText { text: Seq<char> },
    OutputText { text: Seq<char> },
    InputImage,
}

impl View for ContentItem {
    type V = ContentItemView;

    open spec fn view(&self) -> ContentItemView {
        match *self {
            ContentItem::InputText { text } => ContentItemView::InputText { text: text@ },
            ContentItem::OutputText { text } => ContentItemView::OutputText { text: text@ },
            ContentItem::InputImage => ContentItemView::InputImage,
        }
    }
}

impl DeepView for ContentItem {
    type V = ContentItemView;

    open spec fn deep_view(&self) -> ContentItemView {
        self@
    }
}

impl Clone for ContentItem {
    fn clone(&self) -> (out: Self)
        ensures
            out@ == self@,
    {
        match self {
            ContentItem::InputText { text } => ContentItem::InputText { text: text.clone() },
            ContentItem::OutputText { text } => ContentItem::OutputText { text: text.clone() },
            ContentItem::InputImage => ContentItem::InputImage,
        }
    }
}

/// What a response item is.
#[derive(Debug, PartialEq, Eq)]
pub enum ItemKind {
    Message { role: String, content: Vec<ContentItem> },
    FunctionCall { name: String },
    CustomToolCall { name: String },
    FunctionCallOutput,
    CustomToolCallOutput,
    LocalShellCall,
    Reasoning,
    WebSearchCall,
    ImageGenerationCall,
    ToolSearchCall,
    ToolSearchOutput,
    Compaction,
    GhostSnapshot,
    Other,
}

/// What a [`ItemKind`] stands for.
pub enum ItemKindView {
    Message { role: Seq<char>, content: Seq<ContentItemView> },
    FunctionCall { name: Seq<char> },
    CustomToolCall { name: Seq<char> },
    FunctionCallOutput,
    CustomToolCallOutput,
    LocalShellCall,
    Reasoning,
    WebSearchCall,
    ImageGenerationCall,
    ToolSearchCall,
    ToolSearchOutput,
    Compaction,
    GhostSnapshot,
    Other,
}

impl View for ItemKind {
    type V = ItemKindView;

    open spec fn view(&self) -> ItemKindView {
        match *self {
            ItemKind::Message { role, content } => ItemKindView::Message {
                role: role@,
                content: content.deep_view(),
            },
            ItemKind::FunctionCall { name } => ItemKindView::FunctionCall { name: name@ },
            ItemKind::CustomToolCall { name } => ItemKindView::CustomToolCall { name: name@ },
            ItemKind::FunctionCallOutput => ItemKindView::FunctionCallOutput,
            ItemKind::CustomToolCallOutput => ItemKindView::CustomToolCallOutput,
            ItemKind::LocalShellCall => ItemKindView::LocalShellCall,
            ItemKind::Reasoning => ItemKindView::Reasoning,
            ItemKind::WebSearchCall => ItemKindView::WebSearchCall,
            ItemKind::ImageGenerationCall => ItemKindView::ImageGenerationCall,
            ItemKind::ToolSearchCall => ItemKindView::ToolSearchCall,
            ItemKind::ToolSearchOutput => ItemKindView::ToolSearchOutput,
            ItemKind::Compaction => ItemKindView::Compaction,
            ItemKind::GhostSnapshot => ItemKindView::GhostSnapshot,
            ItemKind::Other => ItemKindView::Other,
        }
    }
}

impl DeepView for ItemKind {
    type V = ItemKindView;

    open spec fn deep_view(&self) -> ItemKindView {
        self@
    }
}

impl Clone for ItemKind {
    fn clone(&self) -> (out: Self)
        ensures
            out@ == self@,
    {
        match self {
            ItemKind::Message { role, content } => {
                let copy_of_content = content.clone();
                assert(copy_of_content.deep_view() =~= content.deep_view());
                ItemKind::Message { role: role.clone(), content: copy_of_content }
            },
            ItemKind::FunctionCall { name } => ItemKind::FunctionCall { name: name.clone() },
            ItemKind::CustomToolCall { name } => ItemKind::CustomToolCall { name: name.clone() },
            ItemKind::FunctionCallOutput => ItemKind::FunctionCallOutput,
            ItemKind::CustomToolCallOutput => ItemKind::CustomToolCallOutput,
            ItemKind::LocalShellCall => ItemKind::LocalShellCall,
            ItemKind::Reasoning => ItemKind::Reasoning,
            ItemKind::WebSearchCall => ItemKind::WebSearchCall,
            ItemKind::ImageGenerationCall => ItemKind::ImageGenerationCall,
            ItemKind::ToolSearchCall => ItemKind::ToolSearchCall,
            ItemKind::ToolSearchOutput => ItemKind::ToolSearchOutput,
            ItemKind::Compaction => ItemKind::Compaction,
            ItemKind::GhostSnapshot => ItemKind::GhostSnapshot,
            ItemKind::Other => ItemKind::Other,
        }
    }
}

/// How the runtime reads a response item as a part of a turn.
#[derive(Debug, PartialEq, Eq)]
pub enum TurnItem {
    /// A message of the user, with the texts of its parts put together.
    UserMessage { message: String },
    /// A message of the agent, with the texts of its parts.
    AgentMessage { content: Vec<String> },
    /// Anything else, or nothing.
    Other,
}

/// What a [`TurnItem`] stands for.
pub enum TurnItemView {
    UserMessage { message: Seq<char> },
    AgentMessage { content: Seq<Seq<char>> },
    Other,
}

impl View for TurnItem {
    type V = TurnItemView;

    open spec fn view(&self) -> TurnItemView {
        match *self {
            TurnItem::UserMessage { message } => TurnItemView::UserMessage { message: message@ },
            TurnItem::AgentMessage { content } => TurnItemView::AgentMessage {
                content: text::texts(content@),
            },
            TurnItem::Other => TurnItemView::Other,
        }
    }
}

impl DeepView for TurnItem {
    type V = TurnItemView;

    open spec fn deep_view(&self) -> TurnItemView {
        self@
    }
}

impl Clone for TurnItem {
    fn clone(&self) -> (out: Self)
        ensures
            out@ == self@,
    {
        match self {
            TurnItem::UserMessage { message } => TurnItem::UserMessage { message: message.clone() },
            TurnItem::AgentMessage { content } => TurnItem::AgentMessage {
                content: clone_texts(content),
            },
            TurnItem::Other => TurnItem::Other,
        }
    }
}

/// One item of the history that a model is shown.
#[derive(Debug, PartialEq, Eq)]
pub struct ResponseItem {
    pub kind: ItemKind,
    pub turn: TurnItem,
    /// The size of the item as JSON, where it can be written as JSON.
    pub encoded_bytes: Option<usize>,
}

/// What a [`ResponseItem`] stands for.
pub struct ResponseItemView {
    pub kind: ItemKindView,
    pub turn: TurnItemView,
    pub encoded_bytes: Option<usize>,
}

impl View for ResponseItem {
    type V = ResponseItemView;

    open spec fn view(&self) -> ResponseItemView {
        ResponseItemView {
            kind: self.kind@,
            turn: self.turn@,
            encoded_bytes: self.encoded_bytes,
        }
    }
}

impl DeepView for ResponseItem {
    type V = ResponseItemView;

    open spec fn deep_view(&self) -> ResponseItemView {
        self@
    }
}

impl Clone for ResponseItem {
    fn clone(&self) -> (out: Self)
        ensures
            out@ == self@,
    {
        ResponseItem {
            kind: self.kind.clone(),
            turn: self.turn.clone(),
            encoded_bytes: self.encoded_bytes,
        }
    }
}

/// The settings under which a turn ran.
#[derive(Debug, PartialEq, Eq)]
pub struct TurnContextItem {
    pub turn_id: Option<String>,
    pub model: String,
    pub cwd: String,
    pub approval_policy: String,
    pub sandbox_policy: String,
    pub personality: Option<String>,
}

/// What a [`TurnContextItem`] stands for.
pub struct TurnContextItemView {
    pub turn_id: Option<Seq<char>>,
    pub model: Seq<char>,
    pub cwd: Seq<char>,
    pub approval_policy: Seq<char>,
    pub sandbox_policy: Seq<char>,
    pub personality: Option<Seq<char>>,
}

impl View for TurnContextItem {
    type V = TurnContextItemView;

    open spec fn view(&self) -> TurnContextItemView {
        TurnContextItemView {
            turn_id: text::opt_text(self.turn_id),
            model: self.model@,
            cwd: self.cwd@,
            approval_policy: self.approval_policy@,
            sandbox_policy: self.sandbox_policy@,
            personality: text::opt_text(self.personality),
        }
    }
}

impl DeepView for TurnContextItem {
    type V = TurnContextItemView;

    open spec fn deep_view(&self) -> TurnContextItemView {
        self@
    }
}

impl Clone for TurnContextItem {
    fn clone(&self) -> (out: Self)
        ensures
            out@ == self@,
    {
        TurnContextItem {
            turn_id: clone_opt(&self.turn_id),
            model: self.model.clone(),
            cwd: self.cwd.clone(),
            approval_policy: self.approval_policy.clone(),
            sandbox_policy: self.sandbox_policy.clone(),
            personality: clone_opt(&self.personality),
        }
    }
}

/// A compaction of the history so far.
#[derive(Debug, PartialEq, Eq)]
pub struct CompactedItem {
    pub message: String,
    pub replacement_history: Option<Vec<ResponseItem>>,
}

/// What a [`CompactedItem`] stands for.
pub struct CompactedItemView {
    pub message: Seq<char>,
    pub replacement_history: Option<Seq<ResponseItemView>>,
}

impl View for CompactedItem {
    type V = CompactedItemView;

    open spec fn view(&self) -> CompactedItemView {
        CompactedItemView {
            message: self.message@,
            replacement_history: self.replacement_history.deep_view(),
        }
    }
}

impl DeepView for CompactedItem {
    type V = CompactedItemView;

    open spec fn deep_view(&self) -> CompactedItemView {
        self@
    }
}

impl Clone for CompactedItem {
    fn clone(&self) -> (out: Self)
        ensures
            out@ == self@,
    {
        let out = CompactedItem {
            message: self.message.clone(),
            replacement_history: self.replacement_history.clone(),
        };
        assert(out.replacement_history.deep_view() =~= self.replacement_history.deep_view());
        out
    }
}

/// The token counts that a turn reported.
#[derive(Debug, Clone, Copy, PartialEq, Eq, Structural)]
pub struct TokenUsageInfo {
    pub total_tokens: i64,
    pub last_total_tokens: i64,
    pub model_context_window: Option<i64>,
}

/// An event in a rollout.
#[derive(Debug, PartialEq, Eq)]
pub enum EventMsg {
    TokenCount { info: Option<TokenUsageInfo> },
    TurnStarted { turn_id: String, model_context_window: Option<i64> },
    TurnComplete { turn_id: String },
    TurnAborted { aborted_turn_id: Option<String> },
    UserMessage,
    ThreadRolledBack { num_turns: u32 },
    Warning { message: String },
    Error { message: String },
    Other,
}

/// What a [`EventMsg`] stands for.
pub enum EventMsgView {
    TokenCount { info: Option<TokenUsageInfo> },
    TurnStarted { turn_id: Seq<char>, model_context_window: Option<i64> },
    TurnComplete { turn_id: Seq<char> },
    TurnAborted { aborted_turn_id: Option<Seq<char>> },
    UserMessage,
    ThreadRolledBack { num_turns: u32 },
    Warning { message: Seq<char> },
    Error { message: Seq<char> },
    Other,
}

impl View for EventMsg {
    type V = EventMsgView;

    open spec fn view(&self) -> EventMsgView {
        match *self {
            EventMsg::TokenCount { info } => EventMsgView::TokenCount { info },
            EventMsg::TurnStarted { turn_id, model_context_window } => EventMsgView::TurnStarted {
                turn_id: turn_id@,
                model_context_window,
            },
            EventMsg::TurnComplete { turn_id } => EventMsgView::TurnComplete { turn_id: turn_id@ },
            EventMsg::TurnAborted { aborted_turn_id } => EventMsgView::TurnAborted {
                aborted_turn_id: text::opt_text(aborted_turn_id),
            },
            EventMsg::UserMessage => EventMsgView::UserMessage,
            EventMsg::ThreadRolledBack { num_turns } => EventMsgView::ThreadRolledBack {
                num_turns,
            },
            EventMsg::Warning { message } => EventMsgView::Warning { message: message@ },
            EventMsg::Error { message } => EventMsgView::Error { message: message@ },
            EventMsg::Other => EventMsgView::Other,
        }
    }
}

impl DeepView for EventMsg {
    type V = EventMsgView;

    open spec fn deep_view(&self) -> EventMsgView {
        self@
    }
}

impl Clone for EventMsg {
    fn clone(&self) -> (out: Self)
        ensures
            out@ == self@,
    {
        match self {
            EventMsg::TokenCount { info } => EventMsg::TokenCount { info: *info },
            EventMsg::TurnStarted { turn_id, model_context_window } => EventMsg::TurnStarted {
                turn_id: turn_id.clone(),
                model_context_window: *model_context_window,
            },
            EventMsg::TurnComplete { turn_id } => EventMsg::TurnComplete {
                turn_id: turn_id.clone(),
            },
            EventMsg::TurnAborted { aborted_turn_id } => EventMsg::TurnAborted {
                aborted_turn_id: clone_opt(aborted_turn_id),
            },
            EventMsg::UserMessage => EventMsg::UserMessage,
            EventMsg::ThreadRolledBack { num_turns } => EventMsg::ThreadRolledBack {
                num_turns: *num_turns,
            },
            EventMsg::Warning { message } => EventMsg::Warning { message: message.clone() },
            EventMsg::Error { message } => EventMsg::Error { message: message.clone() },
            EventMsg::Other => EventMsg::Other,
        }
    }
}

/// The first record of a rollout.
#[derive(Debug, PartialEq, Eq)]
pub struct SessionMeta {
    pub id: String,
    pub timestamp: String,
    pub cwd: String,
    /// The source of the session as JSON, where it can be written as JSON.
    pub source: Option<String>,
    pub model_provider: Option<String>,
    pub forked_from_id: Option<String>,
    pub memory_mode: Option<String>,
}

/// What a [`SessionMeta`] stands for.
pub struct SessionMetaView {
    pub id: Seq<char>,
    pub timestamp: Seq<char>,
    pub cwd: Seq<char>,
    pub source: Option<Seq<char>>,
    pub model_provider: Option<Seq<char>>,
    pub forked_from_id: Option<Seq<char>>,
    pub memory_mode: Option<Seq<char>>,
}

impl View for SessionMeta {
    type V = SessionMetaView;

    open spec fn view(&self) -> SessionMetaView {
        SessionMetaView {
            id: self.id@,
            timestamp: self.timestamp@,
            cwd: self.cwd@,
            source: text::opt_text(self.source),
            model_provider: text::opt_text(self.model_provider),
            forked_from_id: text::opt_text(self.forked_from_id),
            memory_mode: text::opt_text(self.memory_mode),
        }
    }
}

impl DeepView for SessionMeta {
    type V = SessionMetaView;

    open spec fn deep_view(&self) -> SessionMetaView {
        self@
    }
}

impl Clone for SessionMeta {
    fn clone(&self) -> (out: Self)
        ensures
            out@ == self@,
    {
        SessionMeta {
            id: self.id.clone(),
            timestamp: self.timestamp.clone(),
            cwd: self.cwd.clone(),
            source: clone_opt(&self.source),
            model_provider: clone_opt(&self.model_provider),
            forked_from_id: clone_opt(&self.forked_from_id),
            memory_mode: clone_opt(&self.memory_mode),
        }
    }
}

/// What a record of a rollout holds.
#[derive(Debug, PartialEq, Eq)]
pub enum RolloutItem {
    SessionMeta(SessionMeta),
    ResponseItem(ResponseItem),
    Compacted(CompactedItem),
    TurnContext(TurnContextItem),
    EventMsg(EventMsg),
}

/// What a [`RolloutItem`] stands for.
pub enum RolloutItemView {
    SessionMeta(SessionMetaView),
    ResponseItem(ResponseItemView),
    Compacted(CompactedItemView),
    TurnContext(TurnContextItemView),
    EventMsg(EventMsgView),
}

impl View for RolloutItem {
    type V = RolloutItemView;

    open spec fn view(&self) -> RolloutItemView {
        match *self {
            RolloutItem::SessionMeta(f0) => RolloutItemView::SessionMeta(f0@),
            RolloutItem::ResponseItem(f0) => RolloutItemView::ResponseItem(f0@),
            RolloutItem::Compacted(f0) => RolloutItemView::Compacted(f0@),
            RolloutItem::TurnContext(f0) => RolloutItemView::TurnContext(f0@),
            RolloutItem::EventMsg(f0) => RolloutItemView::EventMsg(f0@),
        }
    }
}

impl DeepView for RolloutItem {
    type V = RolloutItemView;

    open spec fn deep_view(&self) -> RolloutItemView {
        self@
    }
}

impl Clone for RolloutItem {
    fn clone(&self) -> (out: Self)
        ensures
            out@ == self@,
    {
        match self {
            RolloutItem::SessionMeta(f0) => RolloutItem::SessionMeta(f0.clone()),
            RolloutItem::ResponseItem(f0) => RolloutItem::ResponseItem(f0.clone()),
            RolloutItem::Compacted(f0) => RolloutItem::Compacted(f0.clone()),
            RolloutItem::TurnContext(f0) => RolloutItem::TurnContext(f0.clone()),
            RolloutItem::EventMsg(f0) => RolloutItem::EventMsg(f0.clone()),
        }
    }
}

/// A record of a rollout.
#[derive(Debug, PartialEq, Eq)]
pub struct RolloutLine {
    pub timestamp: String,
    pub item: RolloutItem,
}

/// What a [`RolloutLine`] stands for.
pub struct RolloutLineView {
    pub timestamp: Seq<char>,
    pub item: RolloutItemView,
}

impl View for RolloutLine {
    type V = RolloutLineView;

    open spec fn view(&self) -> RolloutLineView {
        RolloutLineView {
            timestamp: self.timestamp@,
            item: self.item@,
        }
    }
}

impl DeepView for RolloutLine {
    type V = RolloutLineView;

    open spec fn deep_view(&self) -> RolloutLineView {
        self@
    }
}

impl Clone for RolloutLine {
    fn clone(&self) -> (out: Self)
        ensures
            out@ == self@,
    {
        RolloutLine {
            timestamp: self.timestamp.clone(),
            item: self.item.clone(),
        }
    }
}

} // verus!
