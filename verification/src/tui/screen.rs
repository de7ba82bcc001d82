//! What the terminal interface shows.

use vstd::prelude::*;

use crate::numbers;
use crate::numbers::usize_text;
use crate::picker;
use crate::picker::row_mark;
use crate::search::has_prefix;
use crate::text;
use crate::text::cat2;
use crate::text::cat3;
use crate::text::cat4;
use crate::text::cat6;
use crate::text::cat7;
use crate::text::clone_texts;
use crate::text::no_texts;
use crate::text::opt_or;
use crate::text::push_text;
use crate::tui::actions;
use crate::tui::actions::Action;
use crate::tui::actions::ActionInputKind;
use crate::tui::actions::action_window;
use crate::tui::actions::offered_actions;
use crate::tui::catalog;
use crate::tui::catalog::CatalogRow;
use crate::tui::catalog::CatalogRowView;
use crate::tui::catalog::CatalogView;
use crate::tui::command_line;
use crate::tui::language;
use crate::tui::language::Language;
use crate::tui::language::empty_text;
use crate::tui::language::field_label;
use crate::tui::language::footer_text;
use crate::tui::language::format_optional_i64;
use crate::tui::language::localized_heading_text;
use crate::tui::language::not_set_text;
use crate::tui::language::unknown_text;
use crate::tui::results::ResultViewState;
use crate::tui::results::ResultViewStateView;
use crate::tui::state;
use crate::tui::state::AppState;
use crate::tui::state::AppStateView;
use crate::tui::state::DetailState;
use crate::tui::state::DetailStateView;
use crate::tui::threads;
use crate::tui::threads::ThreadEntry;
use crate::tui::threads::ThreadEntryView;
use crate::tui::threads::short_timestamp;
use crate::tui::threads::tail_text;
use crate::tui::threads::truncate_text;
use crate::types::SessionSummary;
use crate::types::SessionSummaryView;

verus! {

// -------------------------------------------------------------------------- the top

/// The line on top.
pub open spec fn header_text(catalog: CatalogView, language: Language) -> Seq<char> {
    let threads = numbers::decimal(catalog.threads.len() as int);
    let providers = numbers::decimal(catalog.provider_count as int);
    match language {
        Language::English => "codex-session-manager TUI · "@ + threads + " threads · "@ + providers
            + " providers · "@ + language::language_label(language) + " (F2)"@,
        Language::Chinese => "codex-session-manager TUI · "@ + threads + " 个线程 · "@ + providers
            + " 个 provider · "@ + language::language_label(language) + "（F2）"@,
    }
}

/// The line on top.
pub fn draw_header(app: &AppState) -> (out: String)
    ensures
        out@ == header_text(app@.catalog, app@.language),
{
    let threads = usize_text(app.catalog.threads.len());
    let providers = usize_text(app.catalog.provider_count);
    match app.language {
        Language::English => cat7(
            "codex-session-manager TUI · ",
            threads.as_str(),
            " threads · ",
            providers.as_str(),
            " providers · ",
            app.language.label(),
            " (F2)",
        ),
        Language::Chinese => cat7(
            "codex-session-manager TUI · ",
            threads.as_str(),
            " 个线程 · ",
            providers.as_str(),
            " 个 provider · ",
            app.language.label(),
            "（F2）",
        ),
    }
}

// ------------------------------------------------------------------------- the list

/// The title of the list.
pub open spec fn threads_title_text(language: Language) -> Seq<char> {
    match language {
        Language::English => "Threads by persisted provider"@,
        Language::Chinese => "按持久化 provider 分组的线程"@,
    }
}

/// The title of the list.
pub fn threads_title(language: Language) -> (out: &'static str)
    ensures
        out@ == threads_title_text(language),
{
    match language {
        Language::English => "Threads by persisted provider",
        Language::Chinese => "按持久化 provider 分组的线程",
    }
}

/// What is shown in place of an empty list.
pub open spec fn no_threads_text(language: Language) -> Seq<char> {
    match language {
        Language::English => "No interactive Codex threads found under the current CODEX_HOME."@,
        Language::Chinese => "当前 CODEX_HOME 下没有找到交互式 Codex 线程。"@,
    }
}

/// What is shown in place of an empty list.
pub fn no_threads_line(language: Language) -> (out: &'static str)
    ensures
        out@ == no_threads_text(language),
{
    match language {
        Language::English => "No interactive Codex threads found under the current CODEX_HOME.",
        Language::Chinese => "当前 CODEX_HOME 下没有找到交互式 Codex 线程。",
    }
}

/// A row of the list as it is shown.
#[derive(Debug, PartialEq, Eq)]
pub struct ListRow {
    pub header: bool,
    pub selected: bool,
    pub mark: String,
    /// Stands in front of the title of an archived session.
    pub tag: String,
    pub title: String,
    pub suffix: String,
}

/// What a [`ListRow`] stands for.
pub struct ListRowView {
    pub header: bool,
    pub selected: bool,
    pub mark: Seq<char>,
    pub tag: Seq<char>,
    pub title: Seq<char>,
    pub suffix: Seq<char>,
}

impl View for ListRow {
    type V = ListRowView;

    open spec fn view(&self) -> ListRowView {
        ListRowView {
            header: self.header,
            selected: self.selected,
            mark: self.mark@,
            tag: self.tag@,
            title: self.title@,
            suffix: self.suffix@,
        }
    }
}

impl DeepView for ListRow {
    type V = ListRowView;

    open spec fn deep_view(&self) -> ListRowView {
        self@
    }
}

impl Clone for ListRow {
    fn clone(&self) -> (out: Self)
        ensures
            out@ == self@,
    {
        ListRow {
            header: self.header,
            selected: self.selected,
            mark: self.mark.clone(),
            tag: self.tag.clone(),
            title: self.title.clone(),
            suffix: self.suffix.clone(),
        }
    }
}

/// The tag of an archived session.
pub open spec fn archived_tag_text(archived: bool, language: Language) -> Seq<char> {
    match (archived, language) {
        (true, Language::English) => "[archived] "@,
        (true, Language::Chinese) => "[已归档] "@,
        _ => ""@,
    }
}

/// The tag of an archived session.
pub fn archived_tag(archived: bool, language: Language) -> (out: &'static str)
    ensures
        out@ == archived_tag_text(archived, language),
{
    match (archived, language) {
        (true, Language::English) => "[archived] ",
        (true, Language::Chinese) => "[已归档] ",
        _ => "",
    }
}

/// A row of the list as it is shown.
pub open spec fn shown_row(app: AppStateView, row: CatalogRowView) -> ListRowView {
    match row {
        CatalogRowView::Header { provider, count } => ListRowView {
            header: true,
            selected: false,
            mark: ""@,
            tag: ""@,
            title: provider,
            suffix: " ("@ + numbers::decimal(count as int) + ")"@,
        },
        CatalogRowView::Thread { index } => {
            let entry = app.catalog.threads[index as int];
            let selected = app.selected_thread < app.catalog.ordered_threads.len()
                && app.catalog.ordered_threads[app.selected_thread as int] == index;
            ListRowView {
                header: false,
                selected,
                mark: picker::row_mark_text(selected),
                tag: archived_tag_text(entry.archived, app.language),
                title: threads::cut_text(entry.title, 48),
                suffix: match threads::used_at(entry) {
                    Some(used) => " · "@ + threads::stamp_of(used),
                    None => ""@,
                },
            }
        },
    }
}

/// Every row of a session shows one that is there.
pub open spec fn rows_are_there(catalog: CatalogView) -> bool {
    forall|i: int|
        0 <= i < catalog.rows.len() ==> ((#[trigger] catalog.rows[i]) matches CatalogRowView::Thread {
            index,
        } ==> index < catalog.threads.len())
}

proof fn rows_of_are_there(
    threads: Seq<ThreadEntryView>,
    providers: Seq<Seq<char>>,
    count: nat,
)
    requires
        count <= providers.len(),
        threads.len() <= usize::MAX,
    ensures
        forall|i: int|
            0 <= i < catalog::rows_of(threads, providers, count).len() ==> ((
            #[trigger] catalog::rows_of(
                threads,
                providers,
                count,
            )[i]) matches CatalogRowView::Thread { index } ==> index < threads.len()),
    decreases count,
{
    if count > 0 {
        let before = catalog::rows_of(threads, providers, (count - 1) as nat);
        let group = catalog::group_of(threads, providers[count - 1], threads.len());
        let added = catalog::group_rows(providers[count - 1], group);
        let rows = catalog::rows_of(threads, providers, count);
        rows_of_are_there(threads, providers, (count - 1) as nat);
        catalog::group_laws(threads, providers[count - 1], threads.len());
        assert forall|i: int| 0 <= i < rows.len() implies ((
        #[trigger] rows[i]) matches CatalogRowView::Thread { index } ==> index < threads.len()) by {
            if i < before.len() {
                assert(rows[i] == before[i]);
            } else if i > before.len() {
                let k = i - before.len() - 1;
                assert(rows[i] == added[i - before.len()]);
                assert(added[i - before.len()] == catalog::thread_rows(group)[k]);
                assert(group.contains(group[k]));
            }
        }
    }
}

/// No row of a catalog shows a session that is not there.
pub proof fn catalog_rows_are_there(catalog: CatalogView)
    requires
        catalog::is_catalog(catalog),
        catalog.threads.len() <= usize::MAX,
    ensures
        rows_are_there(catalog),
{
    let providers = catalog::providers_of(catalog.threads);
    rows_of_are_there(catalog.threads, providers, providers.len());
}

fn show_row(app: &AppState, row: &CatalogRow) -> (out: ListRow)
    requires
        row@ matches CatalogRowView::Thread { index } ==> index < app@.catalog.threads.len(),
    ensures
        out@ == shown_row(app@, row@),
{
    match row {
        CatalogRow::Header { provider, count } => ListRow {
            header: true,
            selected: false,
            mark: "".to_owned(),
            tag: "".to_owned(),
            title: provider.clone(),
            suffix: cat3(" (", usize_text(*count).as_str(), ")"),
        },
        CatalogRow::Thread { index } => {
            let entry = &app.catalog.threads[*index];
            assert(app@.catalog.threads[*index as int] == entry@);
            let selected = app.selected_thread < app.catalog.ordered_threads.len()
                && app.catalog.ordered_threads[app.selected_thread] == *index;
            ListRow {
                header: false,
                selected,
                mark: row_mark(selected).to_owned(),
                tag: archived_tag(entry.archived, app.language).to_owned(),
                title: truncate_text(entry.title.as_str(), 48),
                suffix: match entry.updated_label() {
                    Some(used) => cat2(" · ", short_timestamp(used.as_str()).as_str()),
                    None => "".to_owned(),
                },
            }
        },
    }
}

/// From where to where a list is shown.
pub open spec fn slice_of(scroll: int, count: int, visible_rows: int) -> (int, int) {
    let start = if scroll < count {
        scroll
    } else {
        count
    };
    (
        start,
        if start + visible_rows < count {
            start + visible_rows
        } else {
            count
        },
    )
}

/// From where to where a list is shown.
pub fn visible_slice(scroll: usize, count: usize, visible_rows: usize) -> (out: (usize, usize))
    ensures
        (out.0 as int, out.1 as int) == slice_of(scroll as int, count as int, visible_rows as int),
{
    let start = if scroll < count {
        scroll
    } else {
        count
    };
    let end = if visible_rows < count - start {
        start + visible_rows
    } else {
        count
    };
    (start, end)
}

/// The rows that are shown.
pub open spec fn shown_rows(app: AppStateView, visible_rows: int) -> Seq<ListRowView> {
    let (start, end) = slice_of(app.scroll as int, app.catalog.rows.len() as int, visible_rows);
    Seq::new((end - start) as nat, |i: int| shown_row(app, app.catalog.rows[start + i]))
}

/// The rows that are shown. The list is scrolled to the selected row before.
pub fn draw_thread_list(app: &mut AppState, visible_rows: usize) -> (out: Vec<ListRow>)
    requires
        state::app_ok(old(app)@),
    ensures
        final(app)@ == (AppStateView {
            scroll: state::scroll_for(
                old(app)@.scroll as int,
                state::chosen_row(old(app)@),
                visible_rows as int,
            ) as usize,
            ..old(app)@
        }),
        out.deep_view() == shown_rows(final(app)@, visible_rows as int),
        state::app_ok(final(app)@),
{
    app.ensure_scroll(visible_rows);
    proof {
        catalog_rows_are_there(app@.catalog);
    }
    let (start, end) = visible_slice(app.scroll, app.catalog.rows.len(), visible_rows);
    let ghost all = shown_rows(app@, visible_rows as int);
    let mut out: Vec<ListRow> = Vec::new();
    assert(out.deep_view() =~= all.take(0));
    for i in start..end
        invariant
            start <= end <= app.catalog.rows@.len(),
            (start as int, end as int) == slice_of(
                app@.scroll as int,
                app@.catalog.rows.len() as int,
                visible_rows as int,
            ),
            all == shown_rows(app@, visible_rows as int),
            rows_are_there(app@.catalog),
            out.deep_view() == all.take(i - start),
    {
        assert(app@.catalog.rows[i as int] == app.catalog.rows@[i as int]@);
        let row = show_row(&*app, &app.catalog.rows[i]);
        let ghost added = row@;
        let ghost before = out.deep_view();
        out.push(row);
        assert(out.deep_view() =~= before.push(added));
        assert(all[i - start] == added);
        assert(all.take(i - start).push(added) =~= all.take(i - start + 1));
    }
    assert(all.take(all.len() as int) =~= all);
    out
}

/// The selected session is among the rows that are shown, and the only one that
/// is marked.
pub proof fn selected_row_is_shown(app: AppStateView, visible_rows: int)
    requires
        state::app_ok(app),
        state::chosen_row(app) matches Some(row) && app.scroll <= row < app.scroll + visible_rows,
    ensures
        ({
            let row = state::chosen_row(app).unwrap();
            let shown = shown_rows(app, visible_rows);
            &&& row - app.scroll < shown.len()
            &&& shown[row - app.scroll].selected
            &&& forall|i: int|
                0 <= i < shown.len() && (#[trigger] shown[i]).selected ==> app.catalog.rows[app.scroll
                    + i] == app.catalog.rows[row as int]
        }),
{
    let index = app.catalog.ordered_threads[app.selected_thread as int];
    catalog::every_session_is_listed_once(app.catalog.threads);
    assert(app.catalog.ordered_threads.contains(index));
    assert(catalog::shown_at(
        app.catalog.rows,
        app.catalog.row_by_thread[index as int],
        index as int,
    ));
}

// ---------------------------------------------------------------------- the details

/// A line of the details: a label and a value.
#[derive(Debug, PartialEq, Eq)]
pub struct DetailLine {
    pub label: String,
    pub value: String,
    pub dim: bool,
}

/// What a [`DetailLine`] stands for.
pub struct DetailLineView {
    pub label: Seq<char>,
    pub value: Seq<char>,
    pub dim: bool,
}

impl View for DetailLine {
    type V = DetailLineView;

    open spec fn view(&self) -> DetailLineView {
        DetailLineView {
            label: self.label@,
            value: self.value@,
            dim: self.dim,
        }
    }
}

impl DeepView for DetailLine {
    type V = DetailLineView;

    open spec fn deep_view(&self) -> DetailLineView {
        self@
    }
}

impl Clone for DetailLine {
    fn clone(&self) -> (out: Self)
        ensures
            out@ == self@,
    {
        DetailLine {
            label: self.label.clone(),
            value: self.value.clone(),
            dim: self.dim,
        }
    }
}

/// The title of the details.
pub open spec fn thread_details_title_text(language: Language) -> Seq<char> {
    match language {
        Language::English => "Thread details"@,
        Language::Chinese => "线程详情"@,
    }
}

/// The title of the details.
pub fn thread_details_title(language: Language) -> (out: &'static str)
    ensures
        out@ == thread_details_title_text(language),
{
    match language {
        Language::English => "Thread details",
        Language::Chinese => "线程详情",
    }
}

/// What is shown without a session.
pub open spec fn nothing_selected_text(language: Language) -> Seq<char> {
    match language {
        Language::English => "Select a thread to inspect it."@,
        Language::Chinese => "选择一个线程以查看详情。"@,
    }
}

/// What is shown without a session.
pub fn nothing_selected_line(language: Language) -> (out: &'static str)
    ensures
        out@ == nothing_selected_text(language),
{
    match language {
        Language::English => "Select a thread to inspect it.",
        Language::Chinese => "选择一个线程以查看详情。",
    }
}

/// What is said of resuming.
pub open spec fn resume_note_text(language: Language) -> Seq<char> {
    match language {
        Language::English => "Resume/fork uses the current runtime config and may differ from the persisted provider."@,
        Language::Chinese => "resume/fork 使用当前运行时配置，可能与持久化 provider 不同。"@,
    }
}

/// What is said of resuming.
pub fn resume_note(language: Language) -> (out: &'static str)
    ensures
        out@ == resume_note_text(language),
{
    match language {
        Language::English => "Resume/fork uses the current runtime config and may differ from the persisted provider.",
        Language::Chinese => "resume/fork 使用当前运行时配置，可能与持久化 provider 不同。",
    }
}

/// The heading of what is loaded.
pub open spec fn summary_heading_text(language: Language) -> Seq<char> {
    match language {
        Language::English => "Runtime summary"@,
        Language::Chinese => "运行时摘要"@,
    }
}

/// The heading of what is loaded.
pub fn summary_heading(language: Language) -> (out: &'static str)
    ensures
        out@ == summary_heading_text(language),
{
    match language {
        Language::English => "Runtime summary",
        Language::Chinese => "运行时摘要",
    }
}

/// What is said of details that could not be loaded.
pub open spec fn detail_failure_text(error: Seq<char>, language: Language) -> Seq<char> {
    match language {
        Language::English => "Failed to load detail: "@ + error,
        Language::Chinese => "加载详情失败："@ + error,
    }
}

/// What is said of details that could not be loaded.
pub fn detail_failure(error: &str, language: Language) -> (out: String)
    ensures
        out@ == detail_failure_text(error@, language),
{
    match language {
        Language::English => cat2("Failed to load detail: ", error),
        Language::Chinese => cat2("加载详情失败：", error),
    }
}

/// What is said of details that are not loaded yet.
pub open spec fn detail_pending_text(language: Language) -> Seq<char> {
    match language {
        Language::English => "Pause on this thread briefly to load runtime summary."@,
        Language::Chinese => "在这个线程上停留片刻后会加载运行时摘要。"@,
    }
}

/// What is said of details that are not loaded yet.
pub fn detail_pending(language: Language) -> (out: &'static str)
    ensures
        out@ == detail_pending_text(language),
{
    match language {
        Language::English => "Pause on this thread briefly to load runtime summary.",
        Language::Chinese => "在这个线程上停留片刻后会加载运行时摘要。",
    }
}

/// The heading of the first request.
pub open spec fn preview_heading_text(language: Language) -> Seq<char> {
    match language {
        Language::English => "Preview"@,
        Language::Chinese => "消息预览"@,
    }
}

/// The heading of the first request.
pub fn preview_heading(language: Language) -> (out: &'static str)
    ensures
        out@ == preview_heading_text(language),
{
    match language {
        Language::English => "Preview",
        Language::Chinese => "消息预览",
    }
}

/// What is said without a first request.
pub open spec fn no_preview_text(language: Language) -> Seq<char> {
    match language {
        Language::English => "No first-user-message preview found."@,
        Language::Chinese => "没有找到首条用户消息预览。"@,
    }
}

/// What is said without a first request.
pub fn no_preview_line(language: Language) -> (out: &'static str)
    ensures
        out@ == no_preview_text(language),
{
    match language {
        Language::English => "No first-user-message preview found.",
        Language::Chinese => "没有找到首条用户消息预览。",
    }
}

/// A list of lines stands for another.
pub open spec fn shows(lines: Seq<DetailLine>, expected: Seq<DetailLineView>) -> bool {
    views(lines) == expected
}

/// What a list of lines stands for.
pub open spec fn views(lines: Seq<DetailLine>) -> Seq<DetailLineView> {
    Seq::new(lines.len(), |i: int| lines[i]@)
}

/// A label and a value.
pub open spec fn field(
    english: Seq<char>,
    chinese: Seq<char>,
    value: Seq<char>,
    language: Language,
) -> DetailLineView {
    DetailLineView {
        label: language::label_text(language, english, chinese),
        value,
        dim: false,
    }
}

/// A heading.
pub open spec fn heading(label: Seq<char>) -> DetailLineView {
    DetailLineView { label, value: ""@, dim: false }
}

/// A value without a label.
pub open spec fn plain(value: Seq<char>, dim: bool) -> DetailLineView {
    DetailLineView { label: ""@, value, dim }
}

fn no_lines() -> (out: Vec<DetailLine>)
    ensures
        views(out@) == Seq::<DetailLineView>::empty(),
{
    let out: Vec<DetailLine> = Vec::new();
    assert(views(out@) =~= Seq::<DetailLineView>::empty());
    out
}

fn push_line(lines: &mut Vec<DetailLine>, line: DetailLine)
    ensures
        views(final(lines)@) == views(old(lines)@).push(line@),
{
    let ghost added = line@;
    lines.push(line);
    assert(views(lines@) =~= views(old(lines)@).push(added));
}

fn push_field(
    lines: &mut Vec<DetailLine>,
    english: &str,
    chinese: &str,
    value: String,
    language: Language,
)
    ensures
        views(final(lines)@) == views(old(lines)@).push(
            field(english@, chinese@, value@, language),
        ),
{
    push_line(
        lines,
        DetailLine { label: field_label(language, english, chinese), value, dim: false },
    );
}

fn push_heading(lines: &mut Vec<DetailLine>, label: &str)
    ensures
        views(final(lines)@) == views(old(lines)@).push(heading(label@)),
{
    push_line(lines, DetailLine { label: label.to_owned(), value: "".to_owned(), dim: false });
}

fn push_plain(lines: &mut Vec<DetailLine>, value: String, dim: bool)
    ensures
        views(final(lines)@) == views(old(lines)@).push(plain(value@, dim)),
{
    push_line(lines, DetailLine { label: "".to_owned(), value, dim });
}

fn push_lines(lines: &mut Vec<DetailLine>, more: Vec<DetailLine>)
    ensures
        views(final(lines)@) == views(old(lines)@) + views(more@),
{
    let mut more = more;
    let ghost before = lines@;
    let ghost added = more@;
    lines.append(&mut more);
    assert(lines@ =~= before + added);
    assert(views(lines@) =~= views(before) + views(added));
}

/// What the list knows of a session.
pub open spec fn entry_fields(entry: ThreadEntryView, language: Language) -> Seq<DetailLineView> {
    Seq::<DetailLineView>::empty().push(
        field("Title"@, "标题"@, entry.title, language),
    ).push(
        field("Index name"@, "索引标题"@, text::text_or(entry.thread_name, language::not_set_word(language)), language),
    ).push(
        field("Persisted provider"@, "持久化 provider"@, entry.provider, language),
    ).push(
        field("State"@, "状态"@, threads::state_word_of(entry.archived, language), language),
    ).push(
        field("Thread ID"@, "线程 ID"@, text::text_or(entry.thread_id, language::unknown_word(language)), language),
    ).push(
        field("Created"@, "创建时间"@, text::text_or(entry.created_at, language::unknown_word(language)), language),
    ).push(
        field("Updated"@, "更新时间"@, text::text_or(threads::used_at(entry), language::unknown_word(language)), language),
    ).push(
        field("Source"@, "来源"@, text::text_or(entry.source, language::unknown_word(language)), language),
    ).push(
        field("Path"@, "路径"@, entry.rollout_path, language),
    ).push(
        field("Cwd"@, "工作目录"@, text::text_or(entry.cwd, language::unknown_word(language)), language),
    )
}

fn list_entry_fields(entry: &ThreadEntry, language: Language) -> (out: Vec<DetailLine>)
    ensures
        shows(out@, entry_fields(entry@, language)),
{
    let mut lines = no_lines();
    push_field(&mut lines, "Title", "标题", entry.title.clone(), language);
    push_field(&mut lines, "Index name", "索引标题", opt_or(&entry.thread_name, not_set_text(language).as_str()), language);
    push_field(&mut lines, "Persisted provider", "持久化 provider", entry.provider.clone(), language);
    push_field(&mut lines, "State", "状态", entry.state_label(language).to_owned(), language);
    push_field(&mut lines, "Thread ID", "线程 ID", opt_or(&entry.thread_id, unknown_text(language).as_str()), language);
    push_field(&mut lines, "Created", "创建时间", opt_or(&entry.created_at, unknown_text(language).as_str()), language);
    push_field(&mut lines, "Updated", "更新时间", opt_or(&entry.updated_label(), unknown_text(language).as_str()), language);
    push_field(&mut lines, "Source", "来源", opt_or(&entry.source, unknown_text(language).as_str()), language);
    push_field(&mut lines, "Path", "路径", entry.rollout_path.clone(), language);
    push_field(&mut lines, "Cwd", "工作目录", opt_or(&entry.cwd, unknown_text(language).as_str()), language);
    lines
}

/// What was loaded of a session.
pub open spec fn summary_fields(
    summary: SessionSummaryView,
    language: Language,
) -> Seq<DetailLineView> {
    Seq::<DetailLineView>::empty().push(
        field("Model"@, "模型"@, text::text_or(summary.latest_model, language::unknown_word(language)), language),
    ).push(
        field("Context window"@, "上下文窗口"@, language::optional_number(summary.latest_model_context_window, language), language),
    ).push(
        field("Context tokens"@, "上下文 tokens"@, language::optional_number(summary.latest_context_tokens, language), language),
    ).push(
        field("Session total tokens"@, "会话总 tokens"@, language::optional_number(summary.latest_total_tokens, language), language),
    ).push(
        field("User turns"@, "用户轮次"@, numbers::decimal(summary.user_turns as int), language),
    ).push(
        field("Memory mode"@, "记忆模式"@, text::text_or(summary.memory_mode, language::empty_word(language)), language),
    ).push(
        field("Forked from"@, "派生来源"@, text::text_or(summary.forked_from_id, language::empty_word(language)), language),
    )
}

fn list_summary_fields(summary: &SessionSummary, language: Language) -> (out: Vec<DetailLine>)
    ensures
        shows(out@, summary_fields(summary@, language)),
{
    let mut lines = no_lines();
    push_field(&mut lines, "Model", "模型", opt_or(&summary.latest_model, unknown_text(language).as_str()), language);
    push_field(&mut lines, "Context window", "上下文窗口", format_optional_i64(summary.latest_model_context_window, language), language);
    push_field(&mut lines, "Context tokens", "上下文 tokens", format_optional_i64(summary.latest_context_tokens, language), language);
    push_field(&mut lines, "Session total tokens", "会话总 tokens", format_optional_i64(summary.latest_total_tokens, language), language);
    push_field(&mut lines, "User turns", "用户轮次", usize_text(summary.user_turns), language);
    push_field(&mut lines, "Memory mode", "记忆模式", opt_or(&summary.memory_mode, empty_text(language).as_str()), language);
    push_field(&mut lines, "Forked from", "派生来源", opt_or(&summary.forked_from_id, empty_text(language).as_str()), language);
    lines
}

/// What is shown of the details that can be loaded.
pub open spec fn loaded_lines(detail: Option<DetailStateView>, language: Language) -> Seq<
    DetailLineView,
> {
    match detail {
        Some(DetailStateView::Loaded(summary)) => summary_fields(summary, language),
        Some(DetailStateView::Failed { error }) => Seq::<DetailLineView>::empty().push(
            plain(""@, false),
        ).push(heading(summary_heading_text(language))).push(
            plain(detail_failure_text(error, language), false),
        ),
        None => Seq::<DetailLineView>::empty().push(plain(""@, false)).push(
            heading(summary_heading_text(language)),
        ).push(plain(detail_pending_text(language), false)),
    }
}

fn list_loaded_lines(detail: Option<&DetailState>, language: Language) -> (out: Vec<DetailLine>)
    ensures
        shows(
            out@,
            loaded_lines(
                match detail {
                    Some(detail) => Some(detail@),
                    None => None,
                },
                language,
            ),
        ),
{
    match detail {
        Some(DetailState::Loaded(summary)) => list_summary_fields(summary, language),
        Some(DetailState::Failed { error }) => {
            let mut lines = no_lines();
            push_plain(&mut lines, "".to_owned(), false);
            push_heading(&mut lines, summary_heading(language));
            push_plain(&mut lines, detail_failure(error.as_str(), language), false);
            lines
        },
        None => {
            let mut lines = no_lines();
            push_plain(&mut lines, "".to_owned(), false);
            push_heading(&mut lines, summary_heading(language));
            push_plain(&mut lines, detail_pending(language).to_owned(), false);
            lines
        },
    }
}

/// The details of a session.
pub open spec fn detail_lines(
    entry: ThreadEntryView,
    detail: Option<DetailStateView>,
    language: Language,
) -> Seq<DetailLineView> {
    (entry_fields(entry, language).push(plain(resume_note_text(language), true)) + loaded_lines(
        detail,
        language,
    )).push(plain(""@, false)).push(heading(preview_heading_text(language))).push(
        plain(text::text_or(entry.preview, no_preview_text(language)), false),
    )
}

/// The details that are shown: those of the selected session.
pub open spec fn shown_details(app: AppStateView) -> Seq<DetailLineView> {
    match state::chosen(app) {
        Some(entry) => detail_lines(
            entry,
            state::cached(app.detail_cache, entry.rollout_path),
            app.language,
        ),
        None => Seq::<DetailLineView>::empty().push(
            plain(nothing_selected_text(app.language), false),
        ),
    }
}

/// The details that are shown: those of the selected session.
pub fn draw_thread_details(app: &AppState) -> (out: Vec<DetailLine>)
    requires
        state::app_ok(app@),
    ensures
        shows(out@, shown_details(app@)),
{
    let language = app.language;
    match app.selected_entry() {
        Some(entry) => {
            let mut lines = list_entry_fields(entry, language);
            push_plain(&mut lines, resume_note(language).to_owned(), true);
            let detail = app.selected_detail();
            push_lines(&mut lines, list_loaded_lines(detail, language));
            push_plain(&mut lines, "".to_owned(), false);
            push_heading(&mut lines, preview_heading(language));
            push_plain(&mut lines, opt_or(&entry.preview, no_preview_line(language)), false);
            lines
        },
        None => {
            let mut lines = no_lines();
            push_plain(&mut lines, nothing_selected_line(language).to_owned(), false);
            lines
        },
    }
}

// ----------------------------------------------------------------------- the bottom

/// The keys, as key and meaning in turn.
pub open spec fn footer_parts_text(language: Language) -> Seq<Seq<char>> {
    let lines = Seq::<Seq<char>>::empty();
    let lines = lines.push(language::in_language(language, "Keys: "@, "按键："@));
    let lines = lines.push("↑/↓"@);
    let lines = lines.push(language::in_language(language, " move · "@, " 移动 · "@));
    let lines = lines.push("Enter"@);
    let lines = lines.push(language::in_language(language, " actions · "@, " 动作 · "@));
    let lines = lines.push("r"@);
    let lines = lines.push(language::in_language(language, " refresh · "@, " 刷新 · "@));
    let lines = lines.push("F2"@);
    let lines = lines.push(language::in_language(language, " language · "@, " 语言 · "@));
    let lines = lines.push("q"@);
    let lines = lines.push(language::in_language(language, " quit"@, " 退出"@));
    lines
}

/// The keys, as key and meaning in turn.
pub fn footer_parts(language: Language) -> (out: Vec<String>)
    ensures
        text::reads(out@, footer_parts_text(language)),
{
    let mut lines = no_texts();
    push_text(&mut lines, footer_text(language, "Keys: ", "按键：").to_owned());
    push_text(&mut lines, "↑/↓".to_owned());
    push_text(&mut lines, footer_text(language, " move · ", " 移动 · ").to_owned());
    push_text(&mut lines, "Enter".to_owned());
    push_text(&mut lines, footer_text(language, " actions · ", " 动作 · ").to_owned());
    push_text(&mut lines, "r".to_owned());
    push_text(&mut lines, footer_text(language, " refresh · ", " 刷新 · ").to_owned());
    push_text(&mut lines, "F2".to_owned());
    push_text(&mut lines, footer_text(language, " language · ", " 语言 · ").to_owned());
    push_text(&mut lines, "q".to_owned());
    push_text(&mut lines, footer_text(language, " quit", " 退出").to_owned());
    lines
}

/// What is said while there is nothing to say.
pub open spec fn ready_text(language: Language) -> Seq<char> {
    match language {
        Language::English => "Ready"@,
        Language::Chinese => "就绪"@,
    }
}

/// What is said while there is nothing to say.
pub fn ready_word(language: Language) -> (out: &'static str)
    ensures
        out@ == ready_text(language),
{
    match language {
        Language::English => "Ready",
        Language::Chinese => "就绪",
    }
}

/// A message tells of a failure.
pub open spec fn tells_failure(message: Seq<char>) -> bool {
    ||| "Failed"@.is_prefix_of(message)
    ||| "Input error"@.is_prefix_of(message)
    ||| "执行失败"@.is_prefix_of(message)
    ||| "输入错误"@.is_prefix_of(message)
    ||| "加载详情失败"@.is_prefix_of(message)
}

/// Whether a message tells of a failure, and is to stand out.
pub fn status_line(message: &str) -> (out: bool)
    ensures
        out == tells_failure(message@),
{
    has_prefix(message, "Failed") || has_prefix(message, "Input error") || has_prefix(
        message,
        "执行失败",
    ) || has_prefix(message, "输入错误") || has_prefix(message, "加载详情失败")
}

/// Refused input and failed commands always stand out.
pub proof fn failures_stand_out(action: Action, error: Seq<char>, language: Language)
    ensures
        tells_failure(state::refused_text(language, error)),
        tells_failure(command_line::failed_text(action, error, language)),
        tells_failure(detail_failure_text(error, language)),
{
    reveal_strlit("Failed");
    reveal_strlit("Failed ");
    reveal_strlit("Failed to load detail: ");
    reveal_strlit("Input error");
    reveal_strlit("Input error: ");
    reveal_strlit("执行失败");
    reveal_strlit("执行失败 ");
    reveal_strlit("输入错误");
    reveal_strlit("输入错误：");
    reveal_strlit("加载详情失败");
    reveal_strlit("加载详情失败：");
    match language {
        Language::English => {
            starts_with("Failed"@, "Failed "@, command_line::failed_text(action, error, language));
            starts_with("Failed"@, "Failed to load detail: "@, detail_failure_text(error, language));
            starts_with("Input error"@, "Input error: "@, state::refused_text(language, error));
        },
        Language::Chinese => {
            starts_with("执行失败"@, "执行失败 "@, command_line::failed_text(action, error, language));
            starts_with("加载详情失败"@, "加载详情失败："@, detail_failure_text(error, language));
            starts_with("输入错误"@, "输入错误："@, state::refused_text(language, error));
        },
    }
}

proof fn starts_with(word: Seq<char>, longer: Seq<char>, message: Seq<char>)
    requires
        longer.len() == word.len() || longer.len() > word.len(),
        forall|i: int| 0 <= i < word.len() ==> word[i] == longer[i],
        message.len() >= longer.len(),
        forall|i: int| 0 <= i < longer.len() ==> message[i] == longer[i],
    ensures
        word.is_prefix_of(message),
{
    assert(message.subrange(0, word.len() as int) =~= word);
}

/// The message at the bottom.
pub open spec fn status_text(app: AppStateView) -> Seq<char> {
    text::text_or(app.status, ready_text(app.language))
}

/// The message at the bottom.
pub fn draw_status(app: &AppState) -> (out: String)
    ensures
        out@ == status_text(app@),
{
    opt_or(&app.status, ready_word(app.language))
}

// ---------------------------------------------------------------------- the actions

/// A row of the actions.
#[derive(Debug, PartialEq, Eq)]
pub struct ActionRow {
    pub selected: bool,
    pub mark: String,
    pub label: String,
    pub description: String,
}

/// What a [`ActionRow`] stands for.
pub struct ActionRowView {
    pub selected: bool,
    pub mark: Seq<char>,
    pub label: Seq<char>,
    pub description: Seq<char>,
}

impl View for ActionRow {
    type V = ActionRowView;

    open spec fn view(&self) -> ActionRowView {
        ActionRowView {
            selected: self.selected,
            mark: self.mark@,
            label: self.label@,
            description: self.description@,
        }
    }
}

impl DeepView for ActionRow {
    type V = ActionRowView;

    open spec fn deep_view(&self) -> ActionRowView {
        self@
    }
}

impl Clone for ActionRow {
    fn clone(&self) -> (out: Self)
        ensures
            out@ == self@,
    {
        ActionRow {
            selected: self.selected,
            mark: self.mark.clone(),
            label: self.label.clone(),
            description: self.description.clone(),
        }
    }
}

/// The actions that are offered, with what stands around them.
#[derive(Debug, PartialEq, Eq)]
pub struct ActionsView {
    pub title: String,
    /// The title of the session, and what it is.
    pub heading: Vec<String>,
    pub rows: Vec<ActionRow>,
    pub help: String,
}

/// What a [`ActionsView`] stands for.
pub struct ActionsViewView {
    pub title: Seq<char>,
    pub heading: Seq<Seq<char>>,
    pub rows: Seq<ActionRowView>,
    pub help: Seq<char>,
}

impl View for ActionsView {
    type V = ActionsViewView;

    open spec fn view(&self) -> ActionsViewView {
        ActionsViewView {
            title: self.title@,
            heading: text::texts(self.heading@),
            rows: self.rows.deep_view(),
            help: self.help@,
        }
    }
}

impl DeepView for ActionsView {
    type V = ActionsViewView;

    open spec fn deep_view(&self) -> ActionsViewView {
        self@
    }
}

impl Clone for ActionsView {
    fn clone(&self) -> (out: Self)
        ensures
            out@ == self@,
    {
        let out = ActionsView {
            title: self.title.clone(),
            heading: clone_texts(&self.heading),
            rows: self.rows.clone(),
            help: self.help.clone(),
        };
        assert(out.rows.deep_view() =~= self.rows.deep_view());
        out
    }
}

/// The title of the actions.
pub open spec fn actions_title_text(language: Language) -> Seq<char> {
    match language {
        Language::English => "Thread actions"@,
        Language::Chinese => "线程动作"@,
    }
}

/// The title of the actions.
pub fn actions_title(language: Language) -> (out: &'static str)
    ensures
        out@ == actions_title_text(language),
{
    match language {
        Language::English => "Thread actions",
        Language::Chinese => "线程动作",
    }
}

/// What is said below the actions.
pub open spec fn actions_help_text(before: bool, after: bool, language: Language) -> Seq<char> {
    match (before, after, language) {
        (true, true, Language::English) => "Up/Down scroll more · Enter runs/open prompt · Esc back"@,
        (false, false, Language::English) => "Enter runs or opens input prompt · Esc goes back"@,
        (_, _, Language::English) => "Up/Down scroll list · Enter runs/open prompt · Esc back"@,
        (true, true, Language::Chinese) => "上下继续滚动 · Enter 执行/打开输入框 · Esc 返回"@,
        (false, false, Language::Chinese) => "Enter 执行或打开参数输入框 · Esc 返回上一级"@,
        (_, _, Language::Chinese) => "上下滚动列表 · Enter 执行/打开输入框 · Esc 返回"@,
    }
}

/// What is said below the actions.
pub fn actions_help(before: bool, after: bool, language: Language) -> (out: &'static str)
    ensures
        out@ == actions_help_text(before, after, language),
{
    match (before, after, language) {
        (true, true, Language::English) => "Up/Down scroll more · Enter runs/open prompt · Esc back",
        (false, false, Language::English) => "Enter runs or opens input prompt · Esc goes back",
        (_, _, Language::English) => "Up/Down scroll list · Enter runs/open prompt · Esc back",
        (true, true, Language::Chinese) => "上下继续滚动 · Enter 执行/打开输入框 · Esc 返回",
        (false, false, Language::Chinese) => "Enter 执行或打开参数输入框 · Esc 返回上一级",
        (_, _, Language::Chinese) => "上下滚动列表 · Enter 执行/打开输入框 · Esc 返回",
    }
}

/// A row of the actions.
pub open spec fn action_row(
    offered: Seq<Action>,
    index: int,
    selected: int,
    language: Language,
) -> ActionRowView {
    ActionRowView {
        selected: index == selected,
        mark: picker::row_mark_text(index == selected),
        label: actions::label_of(offered[index]),
        description: actions::description_of(offered[index], language),
    }
}

/// What a session is: its provider and its state.
pub open spec fn entry_heading(entry: ThreadEntryView, language: Language) -> Seq<char> {
    language::in_language(language, "Provider: "@, "Provider："@) + entry.provider + " · "@
        + threads::state_word_of(entry.archived, language)
}

/// The actions as they are shown.
pub open spec fn actions_view(
    entry: ThreadEntryView,
    selected: int,
    visible_rows: int,
    language: Language,
) -> ActionsViewView {
    let offered = actions::offered(entry.archived);
    let (start, end) = actions::window_of(selected, offered.len() as int, visible_rows);
    ActionsViewView {
        title: actions_title_text(language),
        heading: seq![entry.title, entry_heading(entry, language)],
        rows: Seq::new(
            (end - start) as nat,
            |i: int| action_row(offered, start + i, selected, language),
        ),
        help: actions_help_text(start > 0, end < offered.len(), language),
    }
}

/// The actions as they are shown; nothing without a session.
pub fn draw_actions_overlay(app: &AppState, selected: usize, visible_rows: usize) -> (out: Option<
    ActionsView,
>)
    requires
        state::app_ok(app@),
    ensures
        out.deep_view() == (match state::chosen(app@) {
            Some(entry) => Some(
                actions_view(entry, selected as int, visible_rows as int, app@.language),
            ),
            None => None,
        }),
{
    let entry = match app.selected_entry() {
        Some(entry) => entry,
        None => {
            return None;
        },
    };
    let language = app.language;
    let offered = offered_actions(entry.archived);
    let (start, end) = action_window(selected, offered.len(), visible_rows);
    let ghost all = actions_view(
        entry@,
        selected as int,
        visible_rows as int,
        language,
    ).rows;
    let mut rows: Vec<ActionRow> = Vec::new();
    assert(rows.deep_view() =~= all.take(0));
    for i in start..end
        invariant
            offered@ == actions::offered(entry@.archived),
            (start as int, end as int) == actions::window_of(
                selected as int,
                offered@.len() as int,
                visible_rows as int,
            ),
            start <= end <= offered@.len(),
            all == actions_view(entry@, selected as int, visible_rows as int, language).rows,
            rows.deep_view() == all.take(i - start),
    {
        let action = offered[i];
        let row = ActionRow {
            selected: i == selected,
            mark: row_mark(i == selected).to_owned(),
            label: action.label().to_owned(),
            description: action.description(language).to_owned(),
        };
        let ghost added = row@;
        let ghost before = rows.deep_view();
        rows.push(row);
        assert(rows.deep_view() =~= before.push(added));
        assert(all[i - start] == added);
        assert(all.take(i - start).push(added) =~= all.take(i - start + 1));
    }
    assert(all.take(all.len() as int) =~= all);
    let mut heading = no_texts();
    push_text(&mut heading, entry.title.clone());
    push_text(
        &mut heading,
        cat4(
            footer_text(language, "Provider: ", "Provider："),
            entry.provider.as_str(),
            " · ",
            entry.state_label(language),
        ),
    );
    assert(text::texts(heading@) =~= seq![entry@.title, entry_heading(entry@, language)]);
    Some(
        ActionsView {
            title: actions_title(language).to_owned(),
            heading,
            rows,
            help: actions_help(start > 0, end < offered.len(), language).to_owned(),
        },
    )
}

// ----------------------------------------------------------------------- the prompt

/// What is typed for an action, with what stands around it.
#[derive(Debug, PartialEq, Eq)]
pub struct PromptView {
    pub title: String,
    /// The title of the session, what the action does, and an example.
    pub heading: Vec<String>,
    pub input_title: String,
    pub visible_input: String,
    /// How far the cursor stands behind the start of the input.
    pub cursor: usize,
    pub hint: String,
    pub keys: String,
}

/// What a [`PromptView`] stands for.
pub struct PromptViewView {
    pub title: Seq<char>,
    pub heading: Seq<Seq<char>>,
    pub input_title: Seq<char>,
    pub visible_input: Seq<char>,
    pub cursor: usize,
    pub hint: Seq<char>,
    pub keys: Seq<char>,
}

impl View for PromptView {
    type V = PromptViewView;

    open spec fn view(&self) -> PromptViewView {
        PromptViewView {
            title: self.title@,
            heading: text::texts(self.heading@),
            input_title: self.input_title@,
            visible_input: self.visible_input@,
            cursor: self.cursor,
            hint: self.hint@,
            keys: self.keys@,
        }
    }
}

impl DeepView for PromptView {
    type V = PromptViewView;

    open spec fn deep_view(&self) -> PromptViewView {
        self@
    }
}

impl Clone for PromptView {
    fn clone(&self) -> (out: Self)
        ensures
            out@ == self@,
    {
        PromptView {
            title: self.title.clone(),
            heading: clone_texts(&self.heading),
            input_title: self.input_title.clone(),
            visible_input: self.visible_input.clone(),
            cursor: self.cursor,
            hint: self.hint.clone(),
            keys: self.keys.clone(),
        }
    }
}

/// The title of the prompt.
pub open spec fn prompt_title_text(action: Action, language: Language) -> Seq<char> {
    match language {
        Language::English => actions::label_of(action) + " input"@,
        Language::Chinese => actions::label_of(action) + " 输入"@,
    }
}

/// The title of the prompt.
pub fn prompt_title(action: Action, language: Language) -> (out: String)
    ensures
        out@ == prompt_title_text(action, language),
{
    match language {
        Language::English => cat2(action.label(), " input"),
        Language::Chinese => cat2(action.label(), " 输入"),
    }
}

/// An example of what can be typed, or what the keys do.
pub open spec fn example_line_text(action: Action, language: Language) -> Seq<char> {
    match actions::example_of(action, language) {
        Some(example) => match language {
            Language::English => "Example: "@ + example,
            Language::Chinese => "示例："@ + example,
        },
        None => language::in_language(
            language,
            "Press Enter to confirm or Esc to cancel"@,
            "按 Enter 确认，按 Esc 取消"@,
        ),
    }
}

fn example_line(action: Action, language: Language) -> (out: String)
    ensures
        out@ == example_line_text(action, language),
{
    match action.example(language) {
        Some(example) => match language {
            Language::English => cat2("Example: ", example),
            Language::Chinese => cat2("示例：", example),
        },
        None => localized_heading_text(
            language,
            "Press Enter to confirm or Esc to cancel",
            "按 Enter 确认，按 Esc 取消",
        ),
    }
}

/// What becomes of what is typed.
pub open spec fn input_hint_text(kind: ActionInputKind, language: Language) -> Seq<char> {
    match (kind, language) {
        (ActionInputKind::NoInput, Language::English) => "No extra input required"@,
        (ActionInputKind::NoInput, Language::Chinese) => "这个动作不需要额外输入"@,
        (ActionInputKind::Text { .. }, Language::English) => "Text mode: the whole line becomes one argument"@,
        (ActionInputKind::Text { .. }, Language::Chinese) => "文本模式：整行会作为一个参数传入"@,
        (ActionInputKind::Raw { required: false }, Language::English) => "Raw mode: append extra CLI args, or leave blank for defaults"@,
        (ActionInputKind::Raw { required: false }, Language::Chinese) => "原始参数模式：追加 CLI 参数；留空则使用默认值"@,
        (ActionInputKind::Raw { required: true }, Language::English) => "Raw mode: enter the same extra args you would pass on the CLI"@,
        (ActionInputKind::Raw { required: true }, Language::Chinese) => "原始参数模式：输入你在 CLI 里会追加的参数"@,
    }
}

/// What becomes of what is typed.
pub fn input_hint(kind: ActionInputKind, language: Language) -> (out: String)
    ensures
        out@ == input_hint_text(kind, language),
{
    match (kind, language) {
        (ActionInputKind::NoInput, Language::English) => "No extra input required".to_owned(),
        (ActionInputKind::NoInput, Language::Chinese) => "这个动作不需要额外输入".to_owned(),
        (ActionInputKind::Text { .. }, Language::English) => "Text mode: the whole line becomes one argument".to_owned(),
        (ActionInputKind::Text { .. }, Language::Chinese) => "文本模式：整行会作为一个参数传入".to_owned(),
        (ActionInputKind::Raw { required: false }, Language::English) => "Raw mode: append extra CLI args, or leave blank for defaults".to_owned(),
        (ActionInputKind::Raw { required: false }, Language::Chinese) => "原始参数模式：追加 CLI 参数；留空则使用默认值".to_owned(),
        (ActionInputKind::Raw { required: true }, Language::English) => "Raw mode: enter the same extra args you would pass on the CLI".to_owned(),
        (ActionInputKind::Raw { required: true }, Language::Chinese) => "原始参数模式：输入你在 CLI 里会追加的参数".to_owned(),
    }
}

/// What the keys do while something is typed.
pub open spec fn prompt_keys_text(language: Language) -> Seq<char> {
    match language {
        Language::English => "Enter confirm · Esc cancel · Backspace delete"@,
        Language::Chinese => "Enter 确认 · Esc 取消 · Backspace 删除"@,
    }
}

/// What the keys do while something is typed.
pub fn prompt_keys(language: Language) -> (out: String)
    ensures
        out@ == prompt_keys_text(language),
{
    match language {
        Language::English => "Enter confirm · Esc cancel · Backspace delete".to_owned(),
        Language::Chinese => "Enter 确认 · Esc 取消 · Backspace 删除".to_owned(),
    }
}

/// The prompt as it is shown, in an input field of a width.
pub open spec fn prompt_view(
    entry: ThreadEntryView,
    action: Action,
    input: Seq<char>,
    width: int,
    language: Language,
) -> PromptViewView {
    let room = if width > 0 {
        (width - 1) as nat
    } else {
        0
    };
    let visible_input = threads::last_chars(input, room);
    PromptViewView {
        title: prompt_title_text(action, language),
        heading: seq![
            entry.title,
            actions::description_of(action, language),
            example_line_text(action, language),
        ],
        input_title: language::in_language(language, "Input"@, "输入"@),
        visible_input,
        cursor: numbers::byte_len(visible_input) as usize,
        hint: input_hint_text(actions::input_kind_of(action), language),
        keys: prompt_keys_text(language),
    }
}

/// The prompt as it is shown; nothing without a session.
pub fn draw_prompt_overlay(app: &AppState, action: Action, input: &str, width: usize) -> (out:
    Option<PromptView>)
    requires
        state::app_ok(app@),
    ensures
        out.deep_view() == (match state::chosen(app@) {
            Some(entry) => Some(
                prompt_view(entry, action, input@, width as int, app@.language),
            ),
            None => None,
        }),
{
    let entry = match app.selected_entry() {
        Some(entry) => entry,
        None => {
            return None;
        },
    };
    let language = app.language;
    let visible_input = tail_text(input, width.saturating_sub(1));
    let cursor = visible_input.as_str().len();
    let mut heading = no_texts();
    push_text(&mut heading, entry.title.clone());
    push_text(&mut heading, action.description(language).to_owned());
    push_text(&mut heading, example_line(action, language));
    assert(text::texts(heading@) =~= seq![
        entry@.title,
        actions::description_of(action, language),
        example_line_text(action, language),
    ]);
    Some(
        PromptView {
            title: prompt_title(action, language),
            heading,
            input_title: localized_heading_text(language, "Input", "输入"),
            visible_input,
            cursor,
            hint: input_hint(action.input_kind(), language),
            keys: prompt_keys(language),
        },
    )
}

// ------------------------------------------------------------------------- the page

/// A page as it is shown.
#[derive(Debug, PartialEq, Eq)]
pub struct PageView {
    pub header_title: String,
    pub title: String,
    pub body_title: String,
    pub lines: Vec<String>,
    pub keys_title: String,
    pub keys: String,
    pub position: String,
}

/// What a [`PageView`] stands for.
pub struct PageViewView {
    pub header_title: Seq<char>,
    pub title: Seq<char>,
    pub body_title: Seq<char>,
    pub lines: Seq<Seq<char>>,
    pub keys_title: Seq<char>,
    pub keys: Seq<char>,
    pub position: Seq<char>,
}

impl View for PageView {
    type V = PageViewView;

    open spec fn view(&self) -> PageViewView {
        PageViewView {
            header_title: self.header_title@,
            title: self.title@,
            body_title: self.body_title@,
            lines: text::texts(self.lines@),
            keys_title: self.keys_title@,
            keys: self.keys@,
            position: self.position@,
        }
    }
}

impl DeepView for PageView {
    type V = PageViewView;

    open spec fn deep_view(&self) -> PageViewView {
        self@
    }
}

impl Clone for PageView {
    fn clone(&self) -> (out: Self)
        ensures
            out@ == self@,
    {
        PageView {
            header_title: self.header_title.clone(),
            title: self.title.clone(),
            body_title: self.body_title.clone(),
            lines: clone_texts(&self.lines),
            keys_title: self.keys_title.clone(),
            keys: self.keys.clone(),
            position: self.position.clone(),
        }
    }
}

/// From where to where a page is shown: to its end at most.
pub open spec fn page_slice(scroll: int, count: int, visible_rows: int) -> (int, int) {
    let last = if count > visible_rows {
        count - visible_rows
    } else {
        0
    };
    let start = if scroll < last {
        scroll
    } else {
        last
    };
    (
        start,
        if start + visible_rows < count {
            start + visible_rows
        } else {
            count
        },
    )
}

/// A page fills the rows as far as it has lines, however far it is scrolled.
pub proof fn pages_fill_their_rows(scroll: int, count: int, visible_rows: int)
    requires
        0 <= scroll,
        0 <= count,
        0 <= visible_rows,
    ensures
        ({
            let (start, end) = page_slice(scroll, count, visible_rows);
            &&& 0 <= start <= end <= count
            &&& end - start == if count < visible_rows {
                count
            } else {
                visible_rows
            }
        }),
{
}

fn visible_page(scroll: usize, count: usize, visible_rows: usize) -> (out: (usize, usize))
    ensures
        (out.0 as int, out.1 as int) == page_slice(
            scroll as int,
            count as int,
            visible_rows as int,
        ),
{
    let last = count.saturating_sub(visible_rows);
    let start = if scroll < last {
        scroll
    } else {
        last
    };
    let end = if visible_rows < count - start {
        start + visible_rows
    } else {
        count
    };
    (start, end)
}

/// Which lines of a page are shown.
pub open spec fn position_text(start: int, end: int, count: int, language: Language) -> Seq<char> {
    if count == 0 {
        language::in_language(language, "No output lines"@, "当前没有输出行"@)
    } else {
        match language {
            Language::English => "Showing lines "@ + numbers::decimal(start + 1) + "-"@
                + numbers::decimal(end) + " of "@ + numbers::decimal(count),
            Language::Chinese => "当前显示第 "@ + numbers::decimal(start + 1) + "-"@
                + numbers::decimal(end) + " 行，共 "@ + numbers::decimal(count) + " 行"@,
        }
    }
}

fn position_line(start: usize, end: usize, count: usize, language: Language) -> (out: String)
    requires
        start <= end <= count,
        start < usize::MAX,
    ensures
        out@ == position_text(start as int, end as int, count as int, language),
{
    if count == 0 {
        return localized_heading_text(language, "No output lines", "当前没有输出行");
    }
    let first = usize_text(start + 1);
    let last = usize_text(end);
    let all = usize_text(count);
    match language {
        Language::English => cat6(
            "Showing lines ",
            first.as_str(),
            "-",
            last.as_str(),
            " of ",
            all.as_str(),
        ),
        Language::Chinese => cat7(
            "当前显示第 ",
            first.as_str(),
            "-",
            last.as_str(),
            " 行，共 ",
            all.as_str(),
            " 行",
        ),
    }
}

/// A page as it is shown in rows.
pub open spec fn page_view(
    page: ResultViewStateView,
    visible_rows: int,
    language: Language,
) -> PageViewView {
    let count = page.lines.len() as int;
    let (start, end) = page_slice(page.scroll as int, count, visible_rows);
    PageViewView {
        header_title: language::in_language(language, "Result"@, "结果"@),
        title: page.title,
        body_title: language::in_language(language, "Output"@, "输出"@),
        lines: page.lines.subrange(start, end),
        keys_title: language::in_language(language, "Keys"@, "按键"@),
        keys: language::in_language(
            language,
            "↑/↓ scroll · Enter/Esc back to list · q quit"@,
            "↑/↓ 滚动 · Enter/Esc 返回列表 · q 退出"@,
        ),
        position: position_text(start, end, count, language),
    }
}

/// A page as it is shown in rows.
pub fn draw_result_page(page: &ResultViewState, visible_rows: usize, language: Language) -> (out:
    PageView)
    requires
        visible_rows > 0,
    ensures
        out@ == page_view(page@, visible_rows as int, language),
{
    let (start, end) = visible_page(page.scroll, page.lines.len(), visible_rows);
    let ghost all = page@.lines.subrange(start as int, end as int);
    let mut lines = no_texts();
    assert(all.take(0) =~= Seq::<Seq<char>>::empty());
    for i in start..end
        invariant
            start <= end <= page.lines@.len(),
            all == page@.lines.subrange(start as int, end as int),
            text::texts(lines@) == all.take(i - start),
    {
        assert(page@.lines[i as int] == page.lines@[i as int]@);
        push_text(&mut lines, page.lines[i].clone());
        assert(all.take(i - start).push(all[i - start]) =~= all.take(i - start + 1));
    }
    assert(all.take(all.len() as int) =~= all);
    PageView {
        header_title: localized_heading_text(language, "Result", "结果"),
        title: page.title.clone(),
        body_title: localized_heading_text(language, "Output", "输出"),
        lines,
        keys_title: localized_heading_text(language, "Keys", "按键"),
        keys: localized_heading_text(
            language,
            "↑/↓ scroll · Enter/Esc back to list · q quit",
            "↑/↓ 滚动 · Enter/Esc 返回列表 · q 退出",
        ),
        position: position_line(start, end, page.lines.len(), language),
    }
}

/// The row of a provider shows its name and the number of its sessions; the row of
/// a session its title, whether it is archived, and when it was last used.
pub proof fn rows_show_their_subject(
    app: AppStateView,
    provider: Seq<char>,
    count: usize,
    index: usize,
)
    ensures
        ({
            let row = shown_row(app, CatalogRowView::Header { provider, count });
            row.header && !row.selected && row.title == provider && row.suffix == " ("@
                + numbers::decimal(count as int) + ")"@
        }),
        ({
            let row = shown_row(app, CatalogRowView::Thread { index });
            let entry = app.catalog.threads[index as int];
            &&& !row.header
            &&& row.title == threads::cut_text(entry.title, 48)
            &&& row.tag == archived_tag_text(entry.archived, app.language)
            &&& row.selected <==> app.selected_thread < app.catalog.ordered_threads.len()
                && app.catalog.ordered_threads[app.selected_thread as int] == index
            &&& entry.updated_at matches Some(time) ==> row.suffix == " · "@ + threads::stamp_of(
                time,
            )
            &&& entry.updated_at is None && entry.created_at is None ==> row.suffix == ""@
        }),
        archived_tag_text(false, app.language) == ""@,
        archived_tag_text(true, Language::English) == "[archived] "@,
{
}

/// As many rows are shown as there is room for, from where the list is scrolled to.
pub proof fn rows_are_shown_from_the_scroll(app: AppStateView, visible_rows: int, at: int)
    requires
        0 <= visible_rows,
        app.scroll <= app.catalog.rows.len(),
    ensures
        ({
            let shown = shown_rows(app, visible_rows);
            let left = app.catalog.rows.len() - app.scroll;
            &&& shown.len() == if left < visible_rows { left } else { visible_rows }
            &&& 0 <= at < shown.len() ==> shown[at] == shown_row(
                app,
                app.catalog.rows[app.scroll + at],
            )
        }),
{
}

/// The details of a session show what the list knows of it, each under its label.
pub proof fn details_show_the_entry(entry: ThreadEntryView, language: Language)
    ensures
        ({
            let lines = entry_fields(entry, language);
            let known = |value: Option<Seq<char>>|
                match value {
                    Some(value) => value,
                    None => language::unknown_word(language),
                };
            &&& lines.len() == 10
            &&& lines[0].value == entry.title
            &&& lines[1].value == (match entry.thread_name {
                Some(name) => name,
                None => language::not_set_word(language),
            })
            &&& lines[2].value == entry.provider
            &&& lines[3].value == threads::state_word_of(entry.archived, language)
            &&& lines[4].value == known(entry.thread_id)
            &&& lines[5].value == known(entry.created_at)
            &&& entry.updated_at is Some ==> lines[6].value == known(entry.updated_at)
            &&& entry.updated_at is None ==> lines[6].value == known(entry.created_at)
            &&& lines[7].value == known(entry.source)
            &&& lines[8].value == entry.rollout_path
            &&& lines[9].value == known(entry.cwd)
            &&& language is English ==> lines[0].label == language::label_text(
                language,
                "Title"@,
                "标题"@,
            )
        }),
{
}

/// What was loaded of a session is shown, each under its label; before that and
/// after a failure a line says so.
pub proof fn details_show_what_was_loaded(
    summary: SessionSummaryView,
    error: Seq<char>,
    language: Language,
)
    ensures
        ({
            let lines = loaded_lines(Some(DetailStateView::Loaded(summary)), language);
            let number = |value: Option<i64>| language::optional_number(value, language);
            &&& lines.len() == 7
            &&& lines[0].value == (match summary.latest_model {
                Some(model) => model,
                None => language::unknown_word(language),
            })
            &&& lines[1].value == number(summary.latest_model_context_window)
            &&& lines[2].value == number(summary.latest_context_tokens)
            &&& lines[3].value == number(summary.latest_total_tokens)
            &&& lines[4].value == numbers::decimal(summary.user_turns as int)
            &&& lines[5].value == (match summary.memory_mode {
                Some(mode) => mode,
                None => language::empty_word(language),
            })
            &&& lines[6].value == (match summary.forked_from_id {
                Some(id) => id,
                None => language::empty_word(language),
            })
        }),
        loaded_lines(Some(DetailStateView::Failed { error }), language).last().value
            == detail_failure_text(error, language),
        loaded_lines(None, language).last().value == detail_pending_text(language),
{
}

/// The details are those of the selected session, with its first request at their
/// end.
pub proof fn selected_session_is_shown(app: AppStateView)
    ensures
        ({
            let lines = shown_details(app);
            &&& state::chosen(app) matches Some(entry) ==> {
                &&& lines.take(10) == entry_fields(entry, app.language)
                &&& entry.preview matches Some(preview) ==> lines.last().value == preview
                &&& entry.preview is None ==> lines.last().value == no_preview_text(app.language)
            }
            &&& state::chosen(app) is None ==> lines.len() == 1 && lines[0].value
                == nothing_selected_text(app.language)
        }),
{
    if let Some(entry) = state::chosen(app) {
        assert(shown_details(app).take(10) =~= entry_fields(entry, app.language));
    }
}

/// The actions are shown with the session that they are offered on, a row for each
/// in the window, and the selected one marked.
pub proof fn offered_actions_are_shown(
    entry: ThreadEntryView,
    selected: int,
    visible_rows: int,
    language: Language,
    at: int,
)
    requires
        0 <= selected < actions::offered(entry.archived).len(),
        0 < visible_rows,
    ensures
        ({
            let view = actions_view(entry, selected, visible_rows, language);
            let offered = actions::offered(entry.archived);
            let start = actions::window_of(selected, offered.len() as int, visible_rows).0;
            &&& view.heading[0] == entry.title
            &&& 0 <= at < view.rows.len() ==> {
                &&& view.rows[at].label == actions::label_of(offered[start + at])
                &&& view.rows[at].description == actions::description_of(
                    offered[start + at],
                    language,
                )
                &&& view.rows[at].selected <==> start + at == selected
            }
            &&& 0 <= selected - start < view.rows.len()
        }),
{
    actions::window_shows_the_selection(
        selected,
        actions::offered(entry.archived).len() as int,
        visible_rows,
    );
}

/// The end of what is typed is shown, with room for the cursor behind it.
pub proof fn end_of_the_input_is_shown(
    entry: ThreadEntryView,
    action: Action,
    front: Seq<char>,
    back: Seq<char>,
    language: Language,
)
    ensures
        prompt_view(entry, action, front + back, back.len() as int + 1, language).visible_input == back,
        prompt_view(entry, action, back, back.len() as int + 1, language).visible_input == back,
        prompt_view(entry, action, back, 0, language).visible_input.len() == 0,
        prompt_view(entry, action, back, 0, language).heading[0] == entry.title,
{
    let whole = front + back;
    assert(whole.skip(front.len() as int) =~= back);
    if front.len() == 0 {
        assert(whole =~= back);
    }
}

/// A page shows its lines from where it is scrolled to, and tells which.
pub proof fn pages_tell_which_lines_they_show(
    page: ResultViewStateView,
    visible_rows: int,
    language: Language,
    at: int,
)
    requires
        0 < visible_rows,
        page.scroll + visible_rows <= page.lines.len(),
    ensures
        ({
            let view = page_view(page, visible_rows, language);
            let first = page.scroll as int;
            &&& view.title == page.title
            &&& view.lines.len() == visible_rows
            &&& 0 <= at < visible_rows ==> view.lines[at] == page.lines[first + at]
            &&& language is English ==> view.position == "Showing lines "@ + numbers::decimal(
                first + 1,
            ) + "-"@ + numbers::decimal(first + visible_rows) + " of "@ + numbers::decimal(
                page.lines.len() as int,
            )
        }),
{
}

/// The message at the bottom is the latest one, and without one that all is ready.
pub proof fn latest_message_is_shown(app: AppStateView, message: Seq<char>)
    ensures
        status_text(AppStateView { status: Some(message), ..app }) == message,
        status_text(AppStateView { status: None, ..app }) == ready_text(app.language),
{
}

/// The line on top tells how many sessions and providers there are, and the
/// language.
pub proof fn top_line_counts_sessions_and_providers(catalog: CatalogView)
    ensures
        header_text(catalog, Language::English) == "codex-session-manager TUI · "@
            + numbers::decimal(catalog.threads.len() as int) + " threads · "@ + numbers::decimal(
            catalog.provider_count as int,
        ) + " providers · "@ + "English"@ + " (F2)"@,
        header_text(catalog, Language::Chinese) == "codex-session-manager TUI · "@
            + numbers::decimal(catalog.threads.len() as int) + " 个线程 · "@ + numbers::decimal(
            catalog.provider_count as int,
        ) + " 个 provider · "@ + "中文"@ + "（F2）"@,
{
}

} // verus!
