//! The pages that show what an operation did, and the log of its steps.

use vstd::prelude::*;

use crate::numbers;
use crate::numbers::u128_text;
use crate::numbers::usize_text;
use crate::progress::OperationProgressEvent;
use crate::progress::OperationProgressEventView;
use crate::text;
use crate::text::cat2;
use crate::text::cat3;
use crate::text::clone_texts;
use crate::text::no_texts;
use crate::text::push_text;
use crate::text::same_text;
use crate::tui::language;
use crate::tui::language::Language;
use crate::tui::language::localized_heading_text;
use crate::tui::progress_text;
use crate::tui::progress_text::format_progress_event;

verus! {

/// The steps of an operation, numbered.
#[derive(Debug, PartialEq, Eq)]
pub struct OperationLog {
    pub lines: Vec<String>,
}

/// What a [`OperationLog`] stands for.
pub struct OperationLogView {
    pub lines: Seq<Seq<char>>,
}

impl View for OperationLog {
    type V = OperationLogView;

    open spec fn view(&self) -> OperationLogView {
        OperationLogView {
            lines: text::texts(self.lines@),
        }
    }
}

impl DeepView for OperationLog {
    type V = OperationLogView;

    open spec fn deep_view(&self) -> OperationLogView {
        self@
    }
}

impl Clone for OperationLog {
    fn clone(&self) -> (out: Self)
        ensures
            out@ == self@,
    {
        OperationLog {
            lines: clone_texts(&self.lines),
        }
    }
}

/// A page with a title and lines, scrolled to one of them.
#[derive(Debug, PartialEq, Eq)]
pub struct ResultViewState {
    pub title: String,
    pub lines: Vec<String>,
    pub scroll: usize,
}

/// What a [`ResultViewState`] stands for.
pub struct ResultViewStateView {
    pub title: Seq<char>,
    pub lines: Seq<Seq<char>>,
    pub scroll: usize,
}

impl View for ResultViewState {
    type V = ResultViewStateView;

    open spec fn view(&self) -> ResultViewStateView {
        ResultViewStateView {
            title: self.title@,
            lines: text::texts(self.lines@),
            scroll: self.scroll,
        }
    }
}

impl DeepView for ResultViewState {
    type V = ResultViewStateView;

    open spec fn deep_view(&self) -> ResultViewStateView {
        self@
    }
}

impl Clone for ResultViewState {
    fn clone(&self) -> (out: Self)
        ensures
            out@ == self@,
    {
        ResultViewState {
            title: self.title.clone(),
            lines: clone_texts(&self.lines),
            scroll: self.scroll,
        }
    }
}

/// A line of the log with its number.
pub open spec fn numbered(position: nat, line: Seq<char>) -> Seq<char> {
    numbers::decimal((position + 1) as int) + ". "@ + line
}

/// The log after a line more.
pub open spec fn logged(lines: Seq<Seq<char>>, line: Seq<char>) -> Seq<Seq<char>> {
    lines.push(numbered(lines.len(), line))
}

/// Lines of a log: each starts with its number.
pub open spec fn is_log(lines: Seq<Seq<char>>) -> bool {
    forall|i: int|
        0 <= i < lines.len() ==> (numbers::decimal(i + 1) + ". "@).is_prefix_of(#[trigger] lines[i])
}

/// A log starts without lines. A line more comes behind those that are there,
/// with its number in front, and the log stays numbered.
pub proof fn logs_stay_numbered(lines: Seq<Seq<char>>, line: Seq<char>)
    ensures
        is_log(Seq::empty()),
        logged(lines, line).len() == lines.len() + 1,
        logged(lines, line).take(lines.len() as int) == lines,
        logged(lines, line).last() == numbers::decimal(lines.len() as int + 1) + ". "@ + line,
        is_log(lines) ==> is_log(logged(lines, line)),
{
    let number = numbers::decimal(lines.len() as int + 1) + ". "@;
    assert(number =~= (number + line).take(number.len() as int));
    assert(logged(lines, line).take(lines.len() as int) =~= lines);
}

/// The log after the steps of events.
pub open spec fn logged_events(
    lines: Seq<Seq<char>>,
    language: Language,
    events: Seq<OperationProgressEventView>,
) -> Seq<Seq<char>>
    decreases events.len(),
{
    if events.len() == 0 {
        lines
    } else {
        logged(
            logged_events(lines, language, events.drop_last()),
            progress_text::progress_text(language, events.last()),
        )
    }
}

/// What is shown while nothing has been logged.
pub open spec fn waiting_text(language: Language) -> Seq<char> {
    match language {
        Language::English => "Waiting for the first progress event..."@,
        Language::Chinese => "等待第一条进度事件……"@,
    }
}

/// What is shown while nothing has been logged.
pub fn waiting_line(language: Language) -> (out: String)
    ensures
        out@ == waiting_text(language),
{
    match language {
        Language::English => "Waiting for the first progress event...".to_owned(),
        Language::Chinese => "等待第一条进度事件……".to_owned(),
    }
}

/// The heading of the log.
pub open spec fn log_heading_text(language: Language) -> Seq<char> {
    match language {
        Language::English => "operation_log:"@,
        Language::Chinese => "处理日志："@,
    }
}

/// The heading of the log.
pub fn log_heading(language: Language) -> (out: String)
    ensures
        out@ == log_heading_text(language),
{
    match language {
        Language::English => "operation_log:".to_owned(),
        Language::Chinese => "处理日志：".to_owned(),
    }
}

/// What is shown while an operation runs.
pub open spec fn running_lines(lines: Seq<Seq<char>>, language: Language) -> Seq<Seq<char>> {
    if lines.len() == 0 {
        seq![waiting_text(language)]
    } else {
        lines
    }
}

/// The result of an operation with its log behind it.
pub open spec fn lines_with_log(
    lines: Seq<Seq<char>>,
    language: Language,
    result: Seq<Seq<char>>,
) -> Seq<Seq<char>> {
    if lines.len() == 0 {
        result
    } else {
        result + seq![""@, log_heading_text(language)] + Seq::new(
            lines.len(),
            |i: int| "- "@ + lines[i],
        )
    }
}

impl OperationLog {
    /// A log without lines.
    pub fn new() -> (out: Self)
        ensures
            out@.lines == Seq::<Seq<char>>::empty(),
            is_log(out@.lines),
    {
        OperationLog { lines: no_texts() }
    }

    /// Logs a line, with its number in front.
    pub fn push(&mut self, line: String)
        ensures
            final(self)@.lines == logged(old(self)@.lines, line@),
            is_log(old(self)@.lines) ==> is_log(final(self)@.lines),
    {
        proof {
            logs_stay_numbered(self@.lines, line@);
        }
        let next_index: u128 = self.lines.len() as u128 + 1;
        push_text(&mut self.lines, cat3(u128_text(next_index).as_str(), ". ", line.as_str()));
    }

    /// What is shown while the operation runs.
    pub fn processing_lines(&self, language: Language) -> (out: Vec<String>)
        ensures
            text::texts(out@) == running_lines(self@.lines, language),
    {
        if self.lines.len() == 0 {
            let mut out = no_texts();
            push_text(&mut out, waiting_line(language));
            assert(text::texts(out@) =~= seq![waiting_text(language)]);
            out
        } else {
            clone_texts(&self.lines)
        }
    }

    /// The result of the operation with the log behind it.
    pub fn final_lines(&self, language: Language, result_lines: Vec<String>) -> (out: Vec<String>)
        ensures
            text::texts(out@) == lines_with_log(
                self@.lines,
                language,
                text::texts(result_lines@),
            ),
    {
        let mut out = result_lines;
        if self.lines.len() == 0 {
            return out;
        }
        let ghost result = text::texts(out@);
        let ghost all = Seq::new(self@.lines.len(), |i: int| "- "@ + self@.lines[i]);
        push_text(&mut out, "".to_owned());
        push_text(&mut out, log_heading(language));
        let ghost head = text::texts(out@);
        assert(head =~= result + seq![""@, log_heading_text(language)]);
        assert(head + all.take(0) =~= head);
        for i in 0..self.lines.len()
            invariant
                all == Seq::new(self@.lines.len(), |i: int| "- "@ + self@.lines[i]),
                text::texts(out@) == head + all.take(i as int),
        {
            assert(self@.lines[i as int] == self.lines@[i as int]@);
            push_text(&mut out, cat2("- ", self.lines[i].as_str()));
            assert((head + all.take(i as int)).push(all[i as int]) =~= head + all.take(i + 1));
        }
        assert(all.take(all.len() as int) =~= all);
        out
    }
}

/// Logging numbers the lines one after the other, changes none that is there,
/// and logs one line for each event.
pub proof fn log_grows_by_its_events(
    lines: Seq<Seq<char>>,
    language: Language,
    events: Seq<OperationProgressEventView>,
)
    ensures
        logged_events(lines, language, events).len() == lines.len() + events.len(),
        logged_events(lines, language, events).take(lines.len() as int) == lines,
        forall|i: int|
            0 <= i < events.len() ==> logged_events(lines, language, events)[lines.len() + i]
                == numbered(
                (lines.len() + i) as nat,
                #[trigger] progress_text::progress_text(language, events[i]),
            ),
    decreases events.len(),
{
    if events.len() > 0 {
        let front = events.drop_last();
        let before = logged_events(lines, language, front);
        let out = logged_events(lines, language, events);
        log_grows_by_its_events(lines, language, front);
        assert(out.take(lines.len() as int) =~= before.take(lines.len() as int));
        assert forall|i: int| 0 <= i < events.len() implies out[lines.len() + i] == numbered(
            (lines.len() + i) as nat,
            #[trigger] progress_text::progress_text(language, events[i]),
        ) by {
            if i < front.len() {
                assert(front[i] == events[i]);
                assert(before[lines.len() + i] == numbered(
                    (lines.len() + i) as nat,
                    progress_text::progress_text(language, front[i]),
                ));
            }
        }
    } else {
        assert(lines.take(lines.len() as int) =~= lines);
    }
}

/// Where a page of lines is scrolled to while they grow: to their end.
pub fn processing_scroll(lines: &Vec<String>) -> (out: usize)
    ensures
        out == lines@.len(),
{
    lines.len()
}

/// Logs the events that have come in. Tells whether there were any.
pub fn drain_progress_events(
    events: &Vec<OperationProgressEvent>,
    log: &mut OperationLog,
    language: Language,
) -> (out: bool)
    ensures
        final(log)@.lines == logged_events(old(log)@.lines, language, events.deep_view()),
        out == (events@.len() > 0),
{
    let ghost before = log@.lines;
    let ghost all = events.deep_view();
    assert(all.take(0) =~= Seq::<OperationProgressEventView>::empty());
    for i in 0..events.len()
        invariant
            all == events.deep_view(),
            log@.lines == logged_events(before, language, all.take(i as int)),
    {
        assert(all.take(i + 1).drop_last() =~= all.take(i as int));
        assert(all[i as int] == events@[i as int]@);
        log.push(format_progress_event(language, &events[i]));
    }
    assert(all.take(all.len() as int) =~= all);
    events.len() > 0
}

// --------------------------------------------------------------------------- pages

/// The page of an operation that runs.
pub open spec fn processing_page(
    language: Language,
    is_smart: bool,
    lines: Seq<Seq<char>>,
) -> ResultViewStateView {
    ResultViewStateView {
        title: if is_smart {
            language::in_language(language, "Smart Switch In Progress"@, "Smart 切换进行中"@)
        } else {
            language::in_language(language, "Distillation In Progress"@, "提炼进行中"@)
        },
        lines,
        scroll: lines.len() as usize,
    }
}

/// The page of a switch or a distillation that runs, scrolled to its end.
pub fn smart_or_distill_processing_result(
    language: Language,
    is_smart: bool,
    lines: Vec<String>,
) -> (out: ResultViewState)
    ensures
        out@ == processing_page(language, is_smart, text::texts(lines@)),
{
    let scroll = processing_scroll(&lines);
    ResultViewState {
        title: if is_smart {
            localized_heading_text(language, "Smart Switch In Progress", "Smart 切换进行中")
        } else {
            localized_heading_text(language, "Distillation In Progress", "提炼进行中")
        },
        lines,
        scroll,
    }
}

/// What is shown while a preview is made.
pub open spec fn preview_waiting_text(language: Language) -> Seq<char> {
    match language {
        Language::English => "Reconstructing the next model-visible prompt from rollout history, compaction state, and runtime context."@,
        Language::Chinese => "正在根据 rollout 历史、compact 状态和当前运行时上下文重建下一轮真正发送给模型的提示词。"@,
    }
}

/// What is shown while a preview is made.
pub fn preview_waiting_line(language: Language) -> (out: String)
    ensures
        out@ == preview_waiting_text(language),
{
    match language {
        Language::English => "Reconstructing the next model-visible prompt from rollout history, compaction state, and runtime context.".to_owned(),
        Language::Chinese => "正在根据 rollout 历史、compact 状态和当前运行时上下文重建下一轮真正发送给模型的提示词。".to_owned(),
    }
}

/// The page of a preview that is being made.
pub open spec fn preview_page(language: Language) -> ResultViewStateView {
    ResultViewStateView {
        title: language::in_language(
            language,
            "First Token Preview In Progress"@,
            "首轮上下文预览进行中"@,
        ),
        lines: seq![preview_waiting_text(language)],
        scroll: 0,
    }
}

/// The page of a preview that is being made.
pub fn preview_processing_result(language: Language) -> (out: ResultViewState)
    ensures
        out@ == preview_page(language),
{
    let mut lines = no_texts();
    push_text(&mut lines, preview_waiting_line(language));
    assert(text::texts(lines@) =~= seq![preview_waiting_text(language)]);
    ResultViewState {
        title: localized_heading_text(
            language,
            "First Token Preview In Progress",
            "首轮上下文预览进行中",
        ),
        lines,
        scroll: 0,
    }
}

/// The first line of a failure.
pub open spec fn failure_heading_text(language: Language) -> Seq<char> {
    match language {
        Language::English => "The operation failed. Error chain:"@,
        Language::Chinese => "操作失败。错误链如下："@,
    }
}

/// The first line of a failure.
pub fn failure_heading(language: Language) -> (out: String)
    ensures
        out@ == failure_heading_text(language),
{
    match language {
        Language::English => "The operation failed. Error chain:".to_owned(),
        Language::Chinese => "操作失败。错误链如下：".to_owned(),
    }
}

/// A line of an error chain: the error, or what caused the one before.
pub open spec fn cause_line(position: int, cause: Seq<char>) -> Seq<char> {
    if position == 0 {
        "1. "@ + cause
    } else {
        numbers::decimal(position + 1) + ". caused by: "@ + cause
    }
}

/// The page of a failure: the error and its causes.
pub open spec fn failure_page(
    language: Language,
    english_title: Seq<char>,
    chinese_title: Seq<char>,
    chain: Seq<Seq<char>>,
) -> ResultViewStateView {
    ResultViewStateView {
        title: language::in_language(language, english_title, chinese_title),
        lines: seq![failure_heading_text(language)] + Seq::new(
            chain.len(),
            |i: int| cause_line(i, chain[i]),
        ),
        scroll: 0,
    }
}

/// The page of a failure: the error and its causes, the error first.
pub fn error_result_state(
    language: Language,
    english_title: &str,
    chinese_title: &str,
    chain: &Vec<String>,
) -> (out: ResultViewState)
    ensures
        out@ == failure_page(language, english_title@, chinese_title@, text::texts(chain@)),
{
    let mut lines = no_texts();
    push_text(&mut lines, failure_heading(language));
    let ghost head = text::texts(lines@);
    let ghost causes = text::texts(chain@);
    let ghost all = Seq::new(causes.len(), |i: int| cause_line(i, causes[i]));
    assert(head =~= seq![failure_heading_text(language)]);
    assert(head + all.take(0) =~= head);
    for i in 0..chain.len()
        invariant
            causes == text::texts(chain@),
            all == Seq::new(causes.len(), |i: int| cause_line(i, causes[i])),
            text::texts(lines@) == head + all.take(i as int),
    {
        assert(causes[i as int] == chain@[i as int]@);
        let line = if i == 0 {
            cat2("1. ", chain[i].as_str())
        } else {
            cat3(usize_text(i + 1).as_str(), ". caused by: ", chain[i].as_str())
        };
        assert(line@ == all[i as int]);
        push_text(&mut lines, line);
        assert((head + all.take(i as int)).push(all[i as int]) =~= head + all.take(i + 1));
    }
    assert(all.take(all.len() as int) =~= all);
    ResultViewState {
        title: localized_heading_text(language, english_title, chinese_title),
        lines,
        scroll: 0,
    }
}

/// The title of a result in the language of the interface, where that is known.
pub open spec fn known_title_text(language: Language, english_title: Seq<char>) -> Seq<char> {
    match language {
        Language::English => english_title,
        Language::Chinese => if english_title == "Smart Switch Completed"@ {
            "Smart 切换完成"@
        } else if english_title == "Distilled Successor Ready"@ {
            "提炼结果已生成"@
        } else {
            english_title
        },
    }
}

/// The title of a result in the language of the interface, where that is known.
pub fn localize_known_result_title(language: Language, english_title: &str) -> (out: String)
    ensures
        out@ == known_title_text(language, english_title@),
{
    match language {
        Language::English => english_title.to_owned(),
        Language::Chinese => if same_text(english_title, "Smart Switch Completed") {
            "Smart 切换完成".to_owned()
        } else if same_text(english_title, "Distilled Successor Ready") {
            "提炼结果已生成".to_owned()
        } else {
            english_title.to_owned()
        },
    }
}

/// The page of a result, with the log of the operation.
pub open spec fn finished_page(
    title: Seq<char>,
    lines: Seq<Seq<char>>,
    log: Seq<Seq<char>>,
    language: Language,
) -> ResultViewStateView {
    ResultViewStateView { title, lines: lines_with_log(log, language, lines), scroll: 0 }
}

/// The page of a distillation that is done.
pub fn distill_result(language: Language, lines: Vec<String>, log: &OperationLog) -> (out:
    ResultViewState)
    ensures
        out@ == finished_page(
            language::in_language(language, "Distilled Successor Ready"@, "提炼结果已生成"@),
            text::texts(lines@),
            log@.lines,
            language,
        ),
{
    ResultViewState {
        title: localized_heading_text(language, "Distilled Successor Ready", "提炼结果已生成"),
        lines: log.final_lines(language, lines),
        scroll: 0,
    }
}

/// The page of a switch that is done.
pub fn smart_result(
    language: Language,
    title: &str,
    lines: Vec<String>,
    log: &OperationLog,
) -> (out: ResultViewState)
    ensures
        out@ == finished_page(
            known_title_text(language, title@),
            text::texts(lines@),
            log@.lines,
            language,
        ),
{
    ResultViewState {
        title: localize_known_result_title(language, title),
        lines: log.final_lines(language, lines),
        scroll: 0,
    }
}

/// The page of a preview that is done.
pub fn preview_result(language: Language, lines: Vec<String>) -> (out: ResultViewState)
    ensures
        out@ == (ResultViewStateView {
            title: language::in_language(language, "First Token Preview"@, "首轮上下文预览"@),
            lines: text::texts(lines@),
            scroll: 0,
        }),
{
    ResultViewState {
        title: localized_heading_text(language, "First Token Preview", "首轮上下文预览"),
        lines,
        scroll: 0,
    }
}

/// The page of a failure, with the log of the operation.
pub fn failure_result(state: ResultViewState, language: Language, log: &OperationLog) -> (out:
    ResultViewState)
    ensures
        out@ == (ResultViewStateView {
            title: state@.title,
            lines: lines_with_log(log@.lines, language, state@.lines),
            scroll: state@.scroll,
        }),
{
    ResultViewState {
        title: state.title,
        lines: log.final_lines(language, state.lines),
        scroll: state.scroll,
    }
}

/// While an operation runs its log is shown, scrolled to its end; without a line
/// there is one that says so.
pub proof fn running_operations_show_their_log(
    lines: Seq<Seq<char>>,
    language: Language,
    is_smart: bool,
)
    requires
        lines.len() <= usize::MAX,
    ensures
        lines.len() > 0 ==> running_lines(lines, language) == lines,
        running_lines(Seq::empty(), language) == seq![waiting_text(language)],
        processing_page(language, is_smart, lines).lines == lines,
        processing_page(language, is_smart, lines).scroll == lines.len(),
{
}

/// A result comes first, and behind it an empty line, a heading and the lines of
/// the log, each as an item; without a log the result stands alone.
pub proof fn log_stands_behind_the_result(
    log: Seq<Seq<char>>,
    language: Language,
    result: Seq<Seq<char>>,
    at: int,
)
    ensures
        ({
            let out = lines_with_log(log, language, result);
            &&& log.len() == 0 ==> out == result
            &&& log.len() > 0 ==> out.len() == result.len() + 2 + log.len() && out[result.len() as int]
                == ""@ && out[result.len() as int + 1] == log_heading_text(language)
            &&& 0 <= at < result.len() ==> out[at] == result[at]
            &&& 0 <= at < log.len() ==> out[result.len() + 2 + at] == "- "@ + log[at]
        }),
{
}

/// A failure is told with everything that caused it, one below the other, each
/// with its number.
pub proof fn failures_tell_all_their_causes(
    language: Language,
    english: Seq<char>,
    chinese: Seq<char>,
    chain: Seq<Seq<char>>,
    at: int,
)
    ensures
        ({
            let page = failure_page(language, english, chinese, chain);
            &&& language is English ==> page.title == english
            &&& language is Chinese ==> page.title == chinese
            &&& page.lines.len() == chain.len() + 1
            &&& page.lines[0] == failure_heading_text(language)
            &&& chain.len() > 0 ==> page.lines[1] == "1. "@ + chain[0]
            &&& 0 < at < chain.len() ==> page.lines[at + 1] == numbers::decimal(at + 1)
                + ". caused by: "@ + chain[at]
            &&& page.scroll == 0
        }),
{
}

/// The titles of the two results are known in Chinese; any other title stays.
pub proof fn known_titles_are_put_into_chinese(title: Seq<char>)
    ensures
        known_title_text(Language::English, title) == title,
        title == "Smart Switch Completed"@ ==> known_title_text(Language::Chinese, title)
            == "Smart 切换完成"@,
        title != "Smart Switch Completed"@ && title == "Distilled Successor Ready"@
            ==> known_title_text(Language::Chinese, title) == "提炼结果已生成"@,
        title != "Smart Switch Completed"@ && title != "Distilled Successor Ready"@
            ==> known_title_text(Language::Chinese, title) == title,
{
}

} // verus!
