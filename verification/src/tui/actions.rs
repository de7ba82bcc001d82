//! The actions that the terminal interface offers on a session.

use vstd::prelude::*;

use crate::cli_graph;
use crate::cli_graph::CommandSpecView;
use crate::text;
use crate::tui::language::Language;

verus! {

/// An action on a session.
#[derive(Debug, Clone, Copy, PartialEq, Eq, Structural)]
pub enum Action {
    Show,
    FirstTokenPreview,
    Rename,
    Repair,
    RewriteMeta,
    RepairResumeState,
    Fork,
    Archive,
    Unarchive,
    CopySessionId,
    CopyCwd,
    CopyRolloutPath,
    CopyDeeplink,
    Compact,
    Rollback,
    Migrate,
    Smart,
    Distill,
}

/// What an action is given besides the session.
#[derive(Debug, Clone, Copy, PartialEq, Eq, Structural)]
pub enum ActionInputKind {
    NoInput,
    /// One argument, taken as it is written.
    Text { required: bool },
    /// Arguments, split as a shell does.
    Raw { required: bool },
}

/// All actions, in the order in which they are offered.
pub open spec fn all_actions() -> Seq<Action> {
    seq![
        Action::Show,
        Action::FirstTokenPreview,
        Action::Rename,
        Action::Repair,
        Action::RewriteMeta,
        Action::RepairResumeState,
        Action::Fork,
        Action::Archive,
        Action::Unarchive,
        Action::CopySessionId,
        Action::CopyCwd,
        Action::CopyRolloutPath,
        Action::CopyDeeplink,
        Action::Compact,
        Action::Rollback,
        Action::Migrate,
        Action::Smart,
        Action::Distill,
    ]
}

/// The command that an action stands for.
pub open spec fn label_of(action: Action) -> Seq<char> {
    match action {
        Action::Show => "show"@,
        Action::FirstTokenPreview => "first-token-preview"@,
        Action::Rename => "rename"@,
        Action::Repair => "repair"@,
        Action::RewriteMeta => "rewrite-meta"@,
        Action::RepairResumeState => "repair-resume-state"@,
        Action::Fork => "fork"@,
        Action::Archive => "archive"@,
        Action::Unarchive => "unarchive"@,
        Action::CopySessionId => "copy-session-id"@,
        Action::CopyCwd => "copy-cwd"@,
        Action::CopyRolloutPath => "copy-rollout-path"@,
        Action::CopyDeeplink => "copy-deeplink"@,
        Action::Compact => "compact"@,
        Action::Rollback => "rollback"@,
        Action::Migrate => "migrate"@,
        Action::Smart => "smart"@,
        Action::Distill => "distill"@,
    }
}

/// The command that an action stands for.
pub fn action_label(action: Action) -> (out: &'static str)
    ensures
        out@ == label_of(action),
{
    match action {
        Action::Show => "show",
        Action::FirstTokenPreview => "first-token-preview",
        Action::Rename => "rename",
        Action::Repair => "repair",
        Action::RewriteMeta => "rewrite-meta",
        Action::RepairResumeState => "repair-resume-state",
        Action::Fork => "fork",
        Action::Archive => "archive",
        Action::Unarchive => "unarchive",
        Action::CopySessionId => "copy-session-id",
        Action::CopyCwd => "copy-cwd",
        Action::CopyRolloutPath => "copy-rollout-path",
        Action::CopyDeeplink => "copy-deeplink",
        Action::Compact => "compact",
        Action::Rollback => "rollback",
        Action::Migrate => "migrate",
        Action::Smart => "smart",
        Action::Distill => "distill",
    }
}

/// What an action does, in English.
pub open spec fn description_en_of(action: Action) -> Seq<char> {
    match action {
        Action::Show => "Inspect derived metadata for this thread"@,
        Action::FirstTokenPreview => "Preview the next model-visible prompt built on resume"@,
        Action::Rename => "Append a new thread title into session_index.jsonl"@,
        Action::Repair => "Reconcile SQLite metadata from rollout history"@,
        Action::RewriteMeta => "Rewrite the first SessionMeta record"@,
        Action::RepairResumeState => "Rewrite persisted context-window hints in rollout events"@,
        Action::Fork => "Fork this thread with provider/model/runtime overrides"@,
        Action::Archive => "Move this rollout into archived storage"@,
        Action::Unarchive => "Restore this rollout back into active storage"@,
        Action::CopySessionId => "Copy the resolved thread id"@,
        Action::CopyCwd => "Copy the recorded working directory"@,
        Action::CopyRolloutPath => "Copy the resolved rollout path"@,
        Action::CopyDeeplink => "Copy the canonical codex resume command"@,
        Action::Compact => "Trigger native Codex compaction"@,
        Action::Rollback => "Drop the last N user turns"@,
        Action::Migrate => "Compact if needed, then fork to a new runtime shape"@,
        Action::Smart => "Guided provider/model switch with automatic runtime repair or distill"@,
        Action::Distill => "Create a lighter successor session with selectable compression levels"@,
    }
}

/// What an action does, in English.
pub fn description_en(action: Action) -> (out: &'static str)
    ensures
        out@ == description_en_of(action),
{
    match action {
        Action::Show => "Inspect derived metadata for this thread",
        Action::FirstTokenPreview => "Preview the next model-visible prompt built on resume",
        Action::Rename => "Append a new thread title into session_index.jsonl",
        Action::Repair => "Reconcile SQLite metadata from rollout history",
        Action::RewriteMeta => "Rewrite the first SessionMeta record",
        Action::RepairResumeState => "Rewrite persisted context-window hints in rollout events",
        Action::Fork => "Fork this thread with provider/model/runtime overrides",
        Action::Archive => "Move this rollout into archived storage",
        Action::Unarchive => "Restore this rollout back into active storage",
        Action::CopySessionId => "Copy the resolved thread id",
        Action::CopyCwd => "Copy the recorded working directory",
        Action::CopyRolloutPath => "Copy the resolved rollout path",
        Action::CopyDeeplink => "Copy the canonical codex resume command",
        Action::Compact => "Trigger native Codex compaction",
        Action::Rollback => "Drop the last N user turns",
        Action::Migrate => "Compact if needed, then fork to a new runtime shape",
        Action::Smart => "Guided provider/model switch with automatic runtime repair or distill",
        Action::Distill => "Create a lighter successor session with selectable compression levels",
    }
}

/// What an action does, in Chinese.
pub open spec fn description_zh_of(action: Action) -> Seq<char> {
    match action {
        Action::Show => "查看这个线程的派生摘要信息"@,
        Action::FirstTokenPreview => "预览 resume 后下一轮真正发送给模型的上下文"@,
        Action::Rename => "向 session_index.jsonl 追加新的线程标题"@,
        Action::Repair => "根据 rollout 历史修复 SQLite 元数据"@,
        Action::RewriteMeta => "重写第一条 SessionMeta 记录"@,
        Action::RepairResumeState => "重写 rollout 事件中的持久化上下文窗口提示"@,
        Action::Fork => "按新的 provider/model/runtime 参数 fork 线程"@,
        Action::Archive => "把 rollout 移入 archived 存储"@,
        Action::Unarchive => "把 archived rollout 恢复到 active 存储"@,
        Action::CopySessionId => "复制解析后的 thread id"@,
        Action::CopyCwd => "复制记录的工作目录"@,
        Action::CopyRolloutPath => "复制解析后的 rollout 路径"@,
        Action::CopyDeeplink => "复制标准的 codex resume 命令"@,
        Action::Compact => "触发原生 Codex compact"@,
        Action::Rollback => "丢弃最后 N 个用户轮次"@,
        Action::Migrate => "按需 compact 后迁移到新的运行时形态"@,
        Action::Smart => "通过向导切换 provider/model，并自动修复或提炼运行时状态"@,
        Action::Distill => "从重会话里提炼出一个更轻的继任会话，并可选压缩等级"@,
    }
}

/// What an action does, in Chinese.
pub fn description_zh(action: Action) -> (out: &'static str)
    ensures
        out@ == description_zh_of(action),
{
    match action {
        Action::Show => "查看这个线程的派生摘要信息",
        Action::FirstTokenPreview => "预览 resume 后下一轮真正发送给模型的上下文",
        Action::Rename => "向 session_index.jsonl 追加新的线程标题",
        Action::Repair => "根据 rollout 历史修复 SQLite 元数据",
        Action::RewriteMeta => "重写第一条 SessionMeta 记录",
        Action::RepairResumeState => "重写 rollout 事件中的持久化上下文窗口提示",
        Action::Fork => "按新的 provider/model/runtime 参数 fork 线程",
        Action::Archive => "把 rollout 移入 archived 存储",
        Action::Unarchive => "把 archived rollout 恢复到 active 存储",
        Action::CopySessionId => "复制解析后的 thread id",
        Action::CopyCwd => "复制记录的工作目录",
        Action::CopyRolloutPath => "复制解析后的 rollout 路径",
        Action::CopyDeeplink => "复制标准的 codex resume 命令",
        Action::Compact => "触发原生 Codex compact",
        Action::Rollback => "丢弃最后 N 个用户轮次",
        Action::Migrate => "按需 compact 后迁移到新的运行时形态",
        Action::Smart => "通过向导切换 provider/model，并自动修复或提炼运行时状态",
        Action::Distill => "从重会话里提炼出一个更轻的继任会话，并可选压缩等级",
    }
}

/// What an action does.
pub open spec fn description_of(action: Action, language: Language) -> Seq<char> {
    match language {
        Language::English => description_en_of(action),
        Language::Chinese => description_zh_of(action),
    }
}

/// What an action is given.
pub open spec fn input_kind_of(action: Action) -> ActionInputKind {
    match action {
        Action::Show => ActionInputKind::NoInput,
        Action::FirstTokenPreview => ActionInputKind::NoInput,
        Action::Rename => ActionInputKind::Text { required: true },
        Action::Repair => ActionInputKind::NoInput,
        Action::RewriteMeta => ActionInputKind::Raw { required: true },
        Action::RepairResumeState => ActionInputKind::Raw { required: false },
        Action::Fork => ActionInputKind::Raw { required: false },
        Action::Archive => ActionInputKind::NoInput,
        Action::Unarchive => ActionInputKind::NoInput,
        Action::CopySessionId => ActionInputKind::NoInput,
        Action::CopyCwd => ActionInputKind::NoInput,
        Action::CopyRolloutPath => ActionInputKind::NoInput,
        Action::CopyDeeplink => ActionInputKind::NoInput,
        Action::Compact => ActionInputKind::Raw { required: false },
        Action::Rollback => ActionInputKind::Raw { required: true },
        Action::Migrate => ActionInputKind::Raw { required: false },
        Action::Smart => ActionInputKind::NoInput,
        Action::Distill => ActionInputKind::Raw { required: false },
    }
}

/// An input to show, where the action takes one.
pub open spec fn example_of(action: Action, language: Language) -> Option<Seq<char>> {
    match action {
        Action::Rename => Some(
            match language {
                Language::English => "Provider migration / switch to 256k"@,
                Language::Chinese => "Provider 迁移 / 切到 256k"@,
            },
        ),
        Action::RewriteMeta => Some(
            "--provider yunyi --cwd D:\\Dev\\self\\project --clear-memory-mode"@,
        ),
        Action::RepairResumeState => Some("--context-window 258400"@),
        Action::Fork => Some(
            "--provider yunyi --model gpt-5.2 --context-window 258400 --thread-name \"forked 256k\""@,
        ),
        Action::Compact => Some("--timeout-secs 600"@),
        Action::Rollback => Some("1 --timeout-secs 120"@),
        Action::Migrate => Some(
            "--provider yunyi --model gpt-5.2 --context-window 258400 --write-profile yunyi-256k --archive-source"@,
        ),
        Action::Distill => Some("--compression-level balanced --preview-only"@),
        _ => None,
    }
}

/// Whether an action is offered on a session.
pub open spec fn available(action: Action, archived: bool) -> bool {
    match action {
        Action::Archive => !archived,
        Action::Unarchive => archived,
        Action::Compact => !archived,
        Action::Rollback => !archived,
        _ => true,
    }
}

/// The actions that are offered on a session.
pub open spec fn offered(archived: bool) -> Seq<Action> {
    all_actions().filter(|action: Action| available(action, archived))
}

impl Action {
    /// All actions, in the order in which they are offered.
    pub fn all() -> (out: Vec<Action>)
        ensures
            out@ == all_actions(),
    {
        vec![
            Action::Show,
            Action::FirstTokenPreview,
            Action::Rename,
            Action::Repair,
            Action::RewriteMeta,
            Action::RepairResumeState,
            Action::Fork,
            Action::Archive,
            Action::Unarchive,
            Action::CopySessionId,
            Action::CopyCwd,
            Action::CopyRolloutPath,
            Action::CopyDeeplink,
            Action::Compact,
            Action::Rollback,
            Action::Migrate,
            Action::Smart,
            Action::Distill,
        ]
    }

    /// The command that the action stands for.
    pub fn label(self) -> (out: &'static str)
        ensures
            out@ == label_of(self),
    {
        action_label(self)
    }

    /// What the action does.
    pub fn description(self, language: Language) -> (out: &'static str)
        ensures
            out@ == description_of(self, language),
    {
        match language {
            Language::English => description_en(self),
            Language::Chinese => description_zh(self),
        }
    }

    /// What the action is given besides the session.
    pub fn input_kind(self) -> (out: ActionInputKind)
        ensures
            out == input_kind_of(self),
    {
        match self {
            Action::Show
            | Action::FirstTokenPreview
            | Action::Repair
            | Action::Archive
            | Action::Unarchive
            | Action::CopySessionId
            | Action::CopyCwd
            | Action::CopyRolloutPath
            | Action::CopyDeeplink
            | Action::Smart => ActionInputKind::NoInput,
            Action::Rename => ActionInputKind::Text { required: true },
            Action::RewriteMeta | Action::Rollback => ActionInputKind::Raw { required: true },
            Action::RepairResumeState
            | Action::Fork
            | Action::Compact
            | Action::Migrate
            | Action::Distill => ActionInputKind::Raw { required: false },
        }
    }

    /// An input to show, where the action takes one.
    pub fn example(self, language: Language) -> (out: Option<&'static str>)
        ensures
            text::opt_str(out) == example_of(self, language),
    {
        match (self, language) {
            (Action::Rename, Language::English) => Some("Provider migration / switch to 256k"),
            (Action::Rename, Language::Chinese) => Some("Provider 迁移 / 切到 256k"),
            (Action::RewriteMeta, _) => Some(
                "--provider yunyi --cwd D:\\Dev\\self\\project --clear-memory-mode",
            ),
            (Action::RepairResumeState, _) => Some("--context-window 258400"),
            (Action::Fork, _) => Some(
                "--provider yunyi --model gpt-5.2 --context-window 258400 --thread-name \"forked 256k\"",
            ),
            (Action::Compact, _) => Some("--timeout-secs 600"),
            (Action::Rollback, _) => Some("1 --timeout-secs 120"),
            (Action::Migrate, _) => Some(
                "--provider yunyi --model gpt-5.2 --context-window 258400 --write-profile yunyi-256k --archive-source",
            ),
            (Action::Distill, _) => Some("--compression-level balanced --preview-only"),
            _ => None,
        }
    }

    /// Whether the action is offered on a session.
    pub fn is_available(self, archived: bool) -> (out: bool)
        ensures
            out == available(self, archived),
    {
        match self {
            Action::Archive | Action::Compact | Action::Rollback => !archived,
            Action::Unarchive => archived,
            _ => true,
        }
    }
}

/// The actions that are offered on a session.
pub fn offered_actions(archived: bool) -> (out: Vec<Action>)
    ensures
        out@ == offered(archived),
{
    let all = Action::all();
    let ghost keep = |action: Action| available(action, archived);
    let mut out: Vec<Action> = Vec::new();
    assert(all@.take(0).filter(keep) =~= Seq::<Action>::empty()) by {
        reveal(Seq::filter);
    }
    for i in 0..all.len()
        invariant
            all@ == all_actions(),
            keep == (|action: Action| available(action, archived)),
            out@ == all@.take(i as int).filter(keep),
    {
        proof {
            reveal(Seq::filter);
            assert(all@.take(i + 1).drop_last() =~= all@.take(i as int));
        }
        if all[i].is_available(archived) {
            out.push(all[i]);
        }
    }
    assert(all@.take(all@.len() as int) =~= all@);
    out
}

/// Every action is on the list.
pub proof fn every_action_is_listed(action: Action)
    ensures
        all_actions().contains(action),
{
    let all = all_actions();
    assert(all[0] == Action::Show && all[1] == Action::FirstTokenPreview && all[2]
        == Action::Rename && all[3] == Action::Repair && all[4] == Action::RewriteMeta && all[5]
        == Action::RepairResumeState && all[6] == Action::Fork && all[7] == Action::Archive
        && all[8] == Action::Unarchive && all[9] == Action::CopySessionId && all[10]
        == Action::CopyCwd && all[11] == Action::CopyRolloutPath && all[12]
        == Action::CopyDeeplink && all[13] == Action::Compact && all[14] == Action::Rollback
        && all[15] == Action::Migrate && all[16] == Action::Smart && all[17] == Action::Distill);
}

/// Exactly the actions that fit a session are offered on it: nothing archived
/// is archived, compacted or rolled back, and nothing active is unarchived.
pub proof fn offered_actions_fit(action: Action, archived: bool)
    ensures
        offered(archived).contains(action) <==> available(action, archived),
        archived ==> !offered(archived).contains(Action::Archive) && !offered(archived).contains(
            Action::Compact,
        ) && !offered(archived).contains(Action::Rollback),
        !archived ==> !offered(archived).contains(Action::Unarchive),
{
    let keep = |action: Action| available(action, archived);
    assert forall|a: Action| offered(archived).contains(a) <==> available(a, archived) by {
        every_action_is_listed(a);
        broadcast use vstd::seq_lib::group_filter_ensures;

        let kept = all_actions().filter(keep);
        if kept.contains(a) {
            let at = choose|i: int| 0 <= i < kept.len() && kept[i] == a;
            assert(keep(kept[at]));
        }
        if available(a, archived) {
            let at = choose|i: int| 0 <= i < all_actions().len() && all_actions()[i] == a;
            assert(keep(all_actions()[at]));
            assert(kept.contains(all_actions()[at]));
        }
    }
}

/// Every action stands for a command of the command line.
pub proof fn actions_are_commands(action: Action)
    ensures
        cli_graph::command_named(label_of(action)) is Some,
{
    let graph = cli_graph::cli_graph();
    let name = label_of(action);
    assert(graph[0].name == "show"@ && graph[1].name == "rename"@ && graph[2].name == "repair"@
        && graph[3].name == "rewrite-meta"@ && graph[4].name == "repair-resume-state"@
        && graph[5].name == "fork"@ && graph[6].name == "archive"@ && graph[7].name
        == "unarchive"@ && graph[8].name == "copy-session-id"@ && graph[9].name == "copy-cwd"@
        && graph[10].name == "copy-rollout-path"@ && graph[11].name == "copy-deeplink"@
        && graph[12].name == "compact"@ && graph[13].name == "rollback"@ && graph[14].name
        == "migrate"@ && graph[15].name == "smart"@ && graph[16].name == "distill"@
        && graph[17].name == "first-token-preview"@);
    assert(exists|at: int| 0 <= at < graph.len() && (#[trigger] graph[at]).name == name);
    first_of_a_name(graph, name, graph.len() as int);
}

/// Where a name occurs, it occurs for a first time.
proof fn first_of_a_name(graph: Seq<CommandSpecView>, name: Seq<char>, end: int)
    requires
        0 <= end <= graph.len(),
        exists|at: int| 0 <= at < end && (#[trigger] graph[at]).name == name,
    ensures
        exists|at: int| cli_graph::named_at(graph, name, at),
    decreases end,
{
    if exists|at: int| 0 <= at < end - 1 && (#[trigger] graph[at]).name == name {
        first_of_a_name(graph, name, end - 1);
    } else {
        assert(cli_graph::named_at(graph, name, end - 1));
    }
}

/// The part of a list that is shown: from where, and up to where.
pub open spec fn window_of(selected: int, total: int, visible_rows: int) -> (int, int) {
    if total <= visible_rows || visible_rows == 0 {
        (0, total)
    } else {
        let centred = selected - visible_rows / 2;
        let start = if centred < 0 {
            0
        } else if centred > total - visible_rows {
            total - visible_rows
        } else {
            centred
        };
        (start, start + visible_rows)
    }
}

/// The part of a list of actions that is shown around the selected one.
pub fn action_window(selected: usize, total: usize, visible_rows: usize) -> (out: (usize, usize))
    ensures
        (out.0 as int, out.1 as int) == window_of(
            selected as int,
            total as int,
            visible_rows as int,
        ),
{
    if total == 0 || visible_rows == 0 || total <= visible_rows {
        return (0, total);
    }
    let half_window = visible_rows / 2;
    let mut start = selected.saturating_sub(half_window);
    let max_start = total - visible_rows;
    if start > max_start {
        start = max_start;
    }
    (start, start + visible_rows)
}

/// The window lies in the list, fills the rows as far as it can, and the
/// selected action is in it.
pub proof fn window_shows_the_selection(selected: int, total: int, visible_rows: int)
    requires
        0 <= selected < total,
        0 < visible_rows,
    ensures
        ({
            let (start, end) = window_of(selected, total, visible_rows);
            &&& 0 <= start <= selected < end <= total
            &&& end - start == if total <= visible_rows {
                total
            } else {
                visible_rows
            }
        }),
{
}

/// Archiving, compacting and rolling back are offered on active sessions alone,
/// unarchiving on archived ones alone, and every other action on both.
pub proof fn archived_sessions_are_offered_less(action: Action, archived: bool)
    ensures
        offered(archived).contains(action) <==> {
            let active_only = action is Archive || action is Compact || action is Rollback;
            !(archived && active_only) && !(!archived && action is Unarchive)
        },
{
    offered_actions_fit(action, archived);
}

/// A name is typed as a text, and has to be; what is rewritten and how many turns
/// are rolled back have to be given as arguments; repairing a resume state,
/// forking, compacting, migrating and distilling may be given some; nothing else
/// is given any.
pub proof fn actions_take_this_input(action: Action)
    ensures
        ({
            let kind = input_kind_of(action);
            let optional = action is RepairResumeState || action is Fork || action is Compact
                || action is Migrate || action is Distill;
            let needed = action is RewriteMeta || action is Rollback;
            &&& action is Rename <==> kind is Text
            &&& action is Rename ==> kind == (ActionInputKind::Text { required: true })
            &&& optional <==> kind == (ActionInputKind::Raw { required: false })
            &&& needed <==> kind == (ActionInputKind::Raw { required: true })
            &&& !optional && !needed && !(action is Rename) <==> kind is NoInput
        }),
{
}

/// No two actions stand for the same command, and each is called what it does.
pub proof fn actions_are_called_what_they_do(action: Action)
    ensures
        action is Show <==> label_of(action) == "show"@,
        action is FirstTokenPreview <==> label_of(action) == "first-token-preview"@,
        action is Rename <==> label_of(action) == "rename"@,
        action is Repair <==> label_of(action) == "repair"@,
        action is RewriteMeta <==> label_of(action) == "rewrite-meta"@,
        action is RepairResumeState <==> label_of(action) == "repair-resume-state"@,
        action is Fork <==> label_of(action) == "fork"@,
        action is Archive <==> label_of(action) == "archive"@,
        action is Unarchive <==> label_of(action) == "unarchive"@,
        action is CopySessionId <==> label_of(action) == "copy-session-id"@,
        action is CopyCwd <==> label_of(action) == "copy-cwd"@,
        action is CopyRolloutPath <==> label_of(action) == "copy-rollout-path"@,
        action is CopyDeeplink <==> label_of(action) == "copy-deeplink"@,
        action is Compact <==> label_of(action) == "compact"@,
        action is Rollback <==> label_of(action) == "rollback"@,
        action is Migrate <==> label_of(action) == "migrate"@,
        action is Smart <==> label_of(action) == "smart"@,
        action is Distill <==> label_of(action) == "distill"@,
{
    reveal_strlit("show");
    reveal_strlit("first-token-preview");
    reveal_strlit("rename");
    reveal_strlit("repair");
    reveal_strlit("rewrite-meta");
    reveal_strlit("repair-resume-state");
    reveal_strlit("fork");
    reveal_strlit("archive");
    reveal_strlit("unarchive");
    reveal_strlit("copy-session-id");
    reveal_strlit("copy-cwd");
    reveal_strlit("copy-rollout-path");
    reveal_strlit("copy-deeplink");
    reveal_strlit("compact");
    reveal_strlit("rollback");
    reveal_strlit("migrate");
    reveal_strlit("smart");
    reveal_strlit("distill");
    let first = label_of(action)[0];
    let second = label_of(action)[1];
    let third = label_of(action)[2];
    let size = label_of(action).len();
}

/// The selected row is shown in the middle, as far as the ends of the list allow.
pub proof fn selection_is_shown_in_the_middle(selected: int, total: int, visible_rows: int)
    requires
        0 <= selected < total,
        0 < visible_rows < total,
    ensures
        ({
            let (start, end) = window_of(selected, total, visible_rows);
            let above = visible_rows / 2;
            &&& selected < above ==> start == 0
            &&& total - visible_rows <= selected - above ==> end == total
            &&& above <= selected <= total - visible_rows + above ==> selected - start == above
        }),
{
}

} // verus!
