//! Values that several commands share.

use vstd::prelude::*;

use crate::text;
use crate::text::clone_opt;

verus! {

/// The token counts that a session last reported.
#[derive(Debug, Clone, Copy, PartialEq, Eq, Structural)]
pub struct TokenSnapshot {
    pub context_tokens: Option<i64>,
    pub session_total_tokens: Option<i64>,
    pub model_context_window: Option<i64>,
}

impl Default for TokenSnapshot {
    fn default() -> (out: Self)
        ensures
            out.context_tokens is None,
            out.session_total_tokens is None,
            out.model_context_window is None,
    {
        TokenSnapshot {
            context_tokens: None,
            session_total_tokens: None,
            model_context_window: None,
        }
    }
}

/// What is known of a session from its rollout.
#[derive(Debug, PartialEq, Eq)]
pub struct SessionSummary {
    pub thread_id: String,
    pub thread_name: Option<String>,
    pub rollout_path: String,
    pub archived: bool,
    pub source: String,
    pub session_provider: Option<String>,
    pub session_cwd: String,
    pub session_timestamp: String,
    pub latest_model: Option<String>,
    pub latest_total_tokens: Option<i64>,
    pub latest_context_tokens: Option<i64>,
    pub latest_model_context_window: Option<i64>,
    pub user_turns: usize,
    pub first_user_message: Option<String>,
    pub forked_from_id: Option<String>,
    pub memory_mode: Option<String>,
}

/// What a [`SessionSummary`] stands for.
pub struct SessionSummaryView {
    pub thread_id: Seq<char>,
    pub thread_name: Option<Seq<char>>,
    pub rollout_path: Seq<char>,
    pub archived: bool,
    pub source: Seq<char>,
    pub session_provider: Option<Seq<char>>,
    pub session_cwd: Seq<char>,
    pub session_timestamp: Seq<char>,
    pub latest_model: Option<Seq<char>>,
    pub latest_total_tokens: Option<i64>,
    pub latest_context_tokens: Option<i64>,
    pub latest_model_context_window: Option<i64>,
    pub user_turns: usize,
    pub first_user_message: Option<Seq<char>>,
    pub forked_from_id: Option<Seq<char>>,
    pub memory_mode: Option<Seq<char>>,
}

impl View for SessionSummary {
    type V = SessionSummaryView;

    open spec fn view(&self) -> SessionSummaryView {
        SessionSummaryView {
            thread_id: self.thread_id@,
            thread_name: text::opt_text(self.thread_name),
            rollout_path: self.rollout_path@,
            archived: self.archived,
            source: self.source@,
            session_provider: text::opt_text(self.session_provider),
            session_cwd: self.session_cwd@,
            session_timestamp: self.session_timestamp@,
            latest_model: text::opt_text(self.latest_model),
            latest_total_tokens: self.latest_total_tokens,
            latest_context_tokens: self.latest_context_tokens,
            latest_model_context_window: self.latest_model_context_window,
            user_turns: self.user_turns,
            first_user_message: text::opt_text(self.first_user_message),
            forked_from_id: text::opt_text(self.forked_from_id),
            memory_mode: text::opt_text(self.memory_mode),
        }
    }
}

impl DeepView for SessionSummary {
    type V = SessionSummaryView;

    open spec fn deep_view(&self) -> SessionSummaryView {
        self@
    }
}

impl Clone for SessionSummary {
    fn clone(&self) -> (out: Self)
        ensures
            out@ == self@,
    {
        SessionSummary {
            thread_id: self.thread_id.clone(),
            thread_name: clone_opt(&self.thread_name),
            rollout_path: self.rollout_path.clone(),
            archived: self.archived,
            source: self.source.clone(),
            session_provider: clone_opt(&self.session_provider),
            session_cwd: self.session_cwd.clone(),
            session_timestamp: self.session_timestamp.clone(),
            latest_model: clone_opt(&self.latest_model),
            latest_total_tokens: self.latest_total_tokens,
            latest_context_tokens: self.latest_context_tokens,
            latest_model_context_window: self.latest_model_context_window,
            user_turns: self.user_turns,
            first_user_message: clone_opt(&self.first_user_message),
            forked_from_id: clone_opt(&self.forked_from_id),
            memory_mode: clone_opt(&self.memory_mode),
        }
    }
}

/// A forked session.
#[derive(Debug, PartialEq, Eq)]
pub struct ForkOutcome {
    pub thread_id: String,
    pub rollout_path: String,
    pub runtime_profile: Option<String>,
}

/// What a [`ForkOutcome`] stands for.
pub struct ForkOutcomeView {
    pub thread_id: Seq<char>,
    pub rollout_path: Seq<char>,
    pub runtime_profile: Option<Seq<char>>,
}

impl View for ForkOutcome {
    type V = ForkOutcomeView;

    open spec fn view(&self) -> ForkOutcomeView {
        ForkOutcomeView {
            thread_id: self.thread_id@,
            rollout_path: self.rollout_path@,
            runtime_profile: text::opt_text(self.runtime_profile),
        }
    }
}

impl DeepView for ForkOutcome {
    type V = ForkOutcomeView;

    open spec fn deep_view(&self) -> ForkOutcomeView {
        self@
    }
}

impl Clone for ForkOutcome {
    fn clone(&self) -> (out: Self)
        ensures
            out@ == self@,
    {
        ForkOutcome {
            thread_id: self.thread_id.clone(),
            rollout_path: self.rollout_path.clone(),
            runtime_profile: clone_opt(&self.runtime_profile),
        }
    }
}

/// A fork that is asked for.
#[derive(Debug, PartialEq, Eq)]
pub struct ForkRequest {
    pub source_profile: Option<String>,
    pub source_rollout_path: String,
    pub model: Option<String>,
    pub provider: Option<String>,
    pub context_window: Option<i64>,
    pub auto_compact_token_limit: Option<i64>,
    pub write_profile: Option<String>,
    pub thread_name: Option<String>,
    pub persist_extended_history: bool,
    pub nth_user_message: Option<usize>,
}

/// What a [`ForkRequest`] stands for.
pub struct ForkRequestView {
    pub source_profile: Option<Seq<char>>,
    pub source_rollout_path: Seq<char>,
    pub model: Option<Seq<char>>,
    pub provider: Option<Seq<char>>,
    pub context_window: Option<i64>,
    pub auto_compact_token_limit: Option<i64>,
    pub write_profile: Option<Seq<char>>,
    pub thread_name: Option<Seq<char>>,
    pub persist_extended_history: bool,
    pub nth_user_message: Option<usize>,
}

impl View for ForkRequest {
    type V = ForkRequestView;

    open spec fn view(&self) -> ForkRequestView {
        ForkRequestView {
            source_profile: text::opt_text(self.source_profile),
            source_rollout_path: self.source_rollout_path@,
            model: text::opt_text(self.model),
            provider: text::opt_text(self.provider),
            context_window: self.context_window,
            auto_compact_token_limit: self.auto_compact_token_limit,
            write_profile: text::opt_text(self.write_profile),
            thread_name: text::opt_text(self.thread_name),
            persist_extended_history: self.persist_extended_history,
            nth_user_message: self.nth_user_message,
        }
    }
}

impl DeepView for ForkRequest {
    type V = ForkRequestView;

    open spec fn deep_view(&self) -> ForkRequestView {
        self@
    }
}

impl Clone for ForkRequest {
    fn clone(&self) -> (out: Self)
        ensures
            out@ == self@,
    {
        ForkRequest {
            source_profile: clone_opt(&self.source_profile),
            source_rollout_path: self.source_rollout_path.clone(),
            model: clone_opt(&self.model),
            provider: clone_opt(&self.provider),
            context_window: self.context_window,
            auto_compact_token_limit: self.auto_compact_token_limit,
            write_profile: clone_opt(&self.write_profile),
            thread_name: clone_opt(&self.thread_name),
            persist_extended_history: self.persist_extended_history,
            nth_user_message: self.nth_user_message,
        }
    }
}

/// The resolved runtime of a session, as far as decisions read it.
#[derive(Debug, PartialEq, Eq)]
pub struct RuntimeConfig {
    pub codex_home: String,
    pub cwd: String,
    pub model: Option<String>,
    pub model_provider_id: String,
    pub model_context_window: Option<i64>,
    pub model_auto_compact_token_limit: Option<i64>,
    pub developer_instructions: Option<String>,
    pub user_instructions: Option<String>,
    pub approval_policy: String,
    pub sandbox_policy: String,
    pub personality: Option<String>,
}

/// What a [`RuntimeConfig`] stands for.
pub struct RuntimeConfigView {
    pub codex_home: Seq<char>,
    pub cwd: Seq<char>,
    pub model: Option<Seq<char>>,
    pub model_provider_id: Seq<char>,
    pub model_context_window: Option<i64>,
    pub model_auto_compact_token_limit: Option<i64>,
    pub developer_instructions: Option<Seq<char>>,
    pub user_instructions: Option<Seq<char>>,
    pub approval_policy: Seq<char>,
    pub sandbox_policy: Seq<char>,
    pub personality: Option<Seq<char>>,
}

impl View for RuntimeConfig {
    type V = RuntimeConfigView;

    open spec fn view(&self) -> RuntimeConfigView {
        RuntimeConfigView {
            codex_home: self.codex_home@,
            cwd: self.cwd@,
            model: text::opt_text(self.model),
            model_provider_id: self.model_provider_id@,
            model_context_window: self.model_context_window,
            model_auto_compact_token_limit: self.model_auto_compact_token_limit,
            developer_instructions: text::opt_text(self.developer_instructions),
            user_instructions: text::opt_text(self.user_instructions),
            approval_policy: self.approval_policy@,
            sandbox_policy: self.sandbox_policy@,
            personality: text::opt_text(self.personality),
        }
    }
}

impl DeepView for RuntimeConfig {
    type V = RuntimeConfigView;

    open spec fn deep_view(&self) -> RuntimeConfigView {
        self@
    }
}

impl Clone for RuntimeConfig {
    fn clone(&self) -> (out: Self)
        ensures
            out@ == self@,
    {
        RuntimeConfig {
            codex_home: self.codex_home.clone(),
            cwd: self.cwd.clone(),
            model: clone_opt(&self.model),
            model_provider_id: self.model_provider_id.clone(),
            model_context_window: self.model_context_window,
            model_auto_compact_token_limit: self.model_auto_compact_token_limit,
            developer_instructions: clone_opt(&self.developer_instructions),
            user_instructions: clone_opt(&self.user_instructions),
            approval_policy: self.approval_policy.clone(),
            sandbox_policy: self.sandbox_policy.clone(),
            personality: clone_opt(&self.personality),
        }
    }
}

/// An operation that a running thread carries out.
#[derive(Debug, Clone, Copy, PartialEq, Eq, Structural)]
pub enum OperationKind {
    Compact,
    Rollback,
}

} // verus!
