//! The sessions that the terminal interface lists, and how they are named.

use vstd::prelude::*;

use crate::paths;
use crate::paths::is_same_path;
use crate::runtime;
use crate::runtime::read_thread_id;
use crate::search;
use crate::search::char_count;
use crate::search::take_bytes;
use crate::search::take_chars;
use crate::search::trim_end_char;
use crate::summary;
use crate::summary::format_session_source;
use crate::text;
use crate::text::chars_of;
use crate::text::clone_opt;
use crate::text::is_blank;
use crate::text::normalize_message;
use crate::text::opt_or;
use crate::text::or_opt;
use crate::text::same_text;
use crate::text::text_of;
use crate::tui::language::Language;

verus! {

/// A session as the store of rollouts lists it.
#[derive(Debug, PartialEq, Eq)]
pub struct ThreadItem {
    pub thread_id: Option<String>,
    pub path: String,
    /// The last component of the path, where it is text.
    pub file_name: Option<String>,
    pub model_provider: Option<String>,
    pub first_user_message: Option<String>,
    pub cwd: Option<String>,
    pub has_source: bool,
    /// The source as JSON.
    pub source_json: Option<String>,
    pub created_at: Option<String>,
    pub updated_at: Option<String>,
}

/// What a [`ThreadItem`] stands for.
pub struct ThreadItemView {
    pub thread_id: Option<Seq<char>>,
    pub path: Seq<char>,
    pub file_name: Option<Seq<char>>,
    pub model_provider: Option<Seq<char>>,
    pub first_user_message: Option<Seq<char>>,
    pub cwd: Option<Seq<char>>,
    pub has_source: bool,
    pub source_json: Option<Seq<char>>,
    pub created_at: Option<Seq<char>>,
    pub updated_at: Option<Seq<char>>,
}

impl View for ThreadItem {
    type V = ThreadItemView;

    open spec fn view(&self) -> ThreadItemView {
        ThreadItemView {
            thread_id: text::opt_text(self.thread_id),
            path: self.path@,
            file_name: text::opt_text(self.file_name),
            model_provider: text::opt_text(self.model_provider),
            first_user_message: text::opt_text(self.first_user_message),
            cwd: text::opt_text(self.cwd),
            has_source: self.has_source,
            source_json: text::opt_text(self.source_json),
            created_at: text::opt_text(self.created_at),
            updated_at: text::opt_text(self.updated_at),
        }
    }
}

impl DeepView for ThreadItem {
    type V = ThreadItemView;

    open spec fn deep_view(&self) -> ThreadItemView {
        self@
    }
}

impl Clone for ThreadItem {
    fn clone(&self) -> (out: Self)
        ensures
            out@ == self@,
    {
        ThreadItem {
            thread_id: clone_opt(&self.thread_id),
            path: self.path.clone(),
            file_name: clone_opt(&self.file_name),
            model_provider: clone_opt(&self.model_provider),
            first_user_message: clone_opt(&self.first_user_message),
            cwd: clone_opt(&self.cwd),
            has_source: self.has_source,
            source_json: clone_opt(&self.source_json),
            created_at: clone_opt(&self.created_at),
            updated_at: clone_opt(&self.updated_at),
        }
    }
}

/// A name that the session index gives to a thread.
#[derive(Debug, PartialEq, Eq)]
pub struct ThreadTitle {
    pub thread_id: String,
    pub name: String,
}

/// What a [`ThreadTitle`] stands for.
pub struct ThreadTitleView {
    pub thread_id: Seq<char>,
    pub name: Seq<char>,
}

impl View for ThreadTitle {
    type V = ThreadTitleView;

    open spec fn view(&self) -> ThreadTitleView {
        ThreadTitleView {
            thread_id: self.thread_id@,
            name: self.name@,
        }
    }
}

impl DeepView for ThreadTitle {
    type V = ThreadTitleView;

    open spec fn deep_view(&self) -> ThreadTitleView {
        self@
    }
}

impl Clone for ThreadTitle {
    fn clone(&self) -> (out: Self)
        ensures
            out@ == self@,
    {
        ThreadTitle {
            thread_id: self.thread_id.clone(),
            name: self.name.clone(),
        }
    }
}

/// A session in the list.
#[derive(Debug, PartialEq, Eq)]
pub struct ThreadEntry {
    pub thread_id: Option<String>,
    pub rollout_path: String,
    pub provider: String,
    pub archived: bool,
    pub title: String,
    pub thread_name: Option<String>,
    pub preview: Option<String>,
    pub cwd: Option<String>,
    pub source: Option<String>,
    pub created_at: Option<String>,
    pub updated_at: Option<String>,
}

/// What a [`ThreadEntry`] stands for.
pub struct ThreadEntryView {
    pub thread_id: Option<Seq<char>>,
    pub rollout_path: Seq<char>,
    pub provider: Seq<char>,
    pub archived: bool,
    pub title: Seq<char>,
    pub thread_name: Option<Seq<char>>,
    pub preview: Option<Seq<char>>,
    pub cwd: Option<Seq<char>>,
    pub source: Option<Seq<char>>,
    pub created_at: Option<Seq<char>>,
    pub updated_at: Option<Seq<char>>,
}

impl View for ThreadEntry {
    type V = ThreadEntryView;

    open spec fn view(&self) -> ThreadEntryView {
        ThreadEntryView {
            thread_id: text::opt_text(self.thread_id),
            rollout_path: self.rollout_path@,
            provider: self.provider@,
            archived: self.archived,
            title: self.title@,
            thread_name: text::opt_text(self.thread_name),
            preview: text::opt_text(self.preview),
            cwd: text::opt_text(self.cwd),
            source: text::opt_text(self.source),
            created_at: text::opt_text(self.created_at),
            updated_at: text::opt_text(self.updated_at),
        }
    }
}

impl DeepView for ThreadEntry {
    type V = ThreadEntryView;

    open spec fn deep_view(&self) -> ThreadEntryView {
        self@
    }
}

impl Clone for ThreadEntry {
    fn clone(&self) -> (out: Self)
        ensures
            out@ == self@,
    {
        ThreadEntry {
            thread_id: clone_opt(&self.thread_id),
            rollout_path: self.rollout_path.clone(),
            provider: self.provider.clone(),
            archived: self.archived,
            title: self.title.clone(),
            thread_name: clone_opt(&self.thread_name),
            preview: clone_opt(&self.preview),
            cwd: clone_opt(&self.cwd),
            source: clone_opt(&self.source),
            created_at: clone_opt(&self.created_at),
            updated_at: clone_opt(&self.updated_at),
        }
    }
}

/// What a session is found by after a reload.
#[derive(Debug, PartialEq, Eq)]
pub struct ThreadIdentity {
    pub thread_id: Option<String>,
    pub rollout_path: String,
}

/// What a [`ThreadIdentity`] stands for.
pub struct ThreadIdentityView {
    pub thread_id: Option<Seq<char>>,
    pub rollout_path: Seq<char>,
}

impl View for ThreadIdentity {
    type V = ThreadIdentityView;

    open spec fn view(&self) -> ThreadIdentityView {
        ThreadIdentityView {
            thread_id: text::opt_text(self.thread_id),
            rollout_path: self.rollout_path@,
        }
    }
}

impl DeepView for ThreadIdentity {
    type V = ThreadIdentityView;

    open spec fn deep_view(&self) -> ThreadIdentityView {
        self@
    }
}

impl Clone for ThreadIdentity {
    fn clone(&self) -> (out: Self)
        ensures
            out@ == self@,
    {
        ThreadIdentity {
            thread_id: clone_opt(&self.thread_id),
            rollout_path: self.rollout_path.clone(),
        }
    }
}

// ---------------------------------------------------------------------- short texts

/// A text on one line, without white space around it.
pub fn clean_text(text: &str) -> (out: String)
    ensures
        out@ == text::collapse(text@),
{
    normalize_message(text)
}

/// A text cut to a number of characters; the last one then is an ellipsis.
pub open spec fn cut_text(text: Seq<char>, max_chars: nat) -> Seq<char> {
    if text.len() > max_chars && max_chars >= 1 {
        text.take(max_chars - 1).push('…')
    } else {
        search::first_chars(text, max_chars)
    }
}

/// A text cut to a number of characters; the last one then is an ellipsis.
pub fn truncate_text(text: &str, max_chars: usize) -> (out: String)
    ensures
        out@ == cut_text(text@, max_chars as nat),
{
    let chars = chars_of(text);
    if chars.len() > max_chars && max_chars >= 1 {
        let mut out = text_of(&chars, 0, max_chars - 1);
        out.push('…');
        assert(chars@.subrange(0, max_chars - 1) =~= text@.take(max_chars - 1));
        out
    } else {
        take_chars(text, max_chars)
    }
}

/// A cut text has room, and what fits is not cut.
pub proof fn cut_text_fits(text: Seq<char>, max_chars: nat)
    ensures
        cut_text(text, max_chars).len() <= max_chars,
        text.len() <= max_chars ==> cut_text(text, max_chars) == text,
        max_chars >= 1 && text.len() > max_chars ==> cut_text(text, max_chars).last() == '…',
{
    if text.len() <= max_chars {
        assert(search::first_chars(text, max_chars) =~= text);
    }
}

/// The last characters of a text.
pub open spec fn last_chars(text: Seq<char>, max_chars: nat) -> Seq<char> {
    if text.len() <= max_chars {
        text
    } else {
        text.skip(text.len() - max_chars)
    }
}

/// The last characters of a text.
pub fn tail_text(text: &str, max_chars: usize) -> (out: String)
    ensures
        out@ == last_chars(text@, max_chars as nat),
{
    let chars = chars_of(text);
    if chars.len() <= max_chars {
        return text.to_owned();
    }
    let from = chars.len() - max_chars;
    assert(chars@.subrange(from as int, chars@.len() as int) =~= text@.skip(from as int));
    text_of(&chars, from, chars.len())
}

/// A text with the mark between date and time replaced by a blank.
pub open spec fn spaced(text: Seq<char>) -> Seq<char> {
    Seq::new(
        text.len(),
        |i: int|
            if text[i] == 'T' {
                ' '
            } else {
                text[i]
            },
    )
}

fn space_out(text: &str) -> (out: String)
    ensures
        out@ == spaced(text@),
{
    let mut chars = chars_of(text);
    let count = chars.len();
    for i in 0..count
        invariant
            count == chars@.len(),
            chars@.len() == text@.len(),
            forall|j: int| 0 <= j < i ==> chars@[j] == spaced(text@)[j],
            forall|j: int| i <= j < text@.len() ==> chars@[j] == text@[j],
    {
        if chars[i] == 'T' {
            chars.set(i, ' ');
        }
    }
    assert(chars@.subrange(0, count as int) =~= spaced(text@));
    text_of(&chars, 0, count)
}

/// Date and time of a timestamp, to the minute.
pub open spec fn stamp_of(timestamp: Seq<char>) -> Seq<char> {
    search::without_end(spaced(search::first_bytes(timestamp, 16)), 'Z')
}

/// Date and time of a timestamp, to the minute.
pub fn short_timestamp(timestamp: &str) -> (out: String)
    ensures
        out@ == stamp_of(timestamp@),
{
    trim_end_char(space_out(take_bytes(timestamp, 16).as_str()).as_str(), 'Z')
}

// --------------------------------------------------------------------------- titles

/// A text that is cleaned and kept where something is left of it.
pub open spec fn cleaned(item: Option<Seq<char>>) -> Option<Seq<char>> {
    match item {
        Some(text) => if text::collapse(text).len() == 0 {
            None
        } else {
            Some(text::collapse(text))
        },
        None => None,
    }
}

fn clean_opt(item: Option<&str>) -> (out: Option<String>)
    ensures
        text::opt_text(out) == cleaned(text::opt_str(item)),
{
    match item {
        Some(text) => {
            let clean = clean_text(text);
            if char_count(clean.as_str()) == 0 {
                None
            } else {
                Some(clean)
            }
        },
        None => None,
    }
}

/// The title of a session: its name, else the start of its first request, else
/// its id, else the name of its file.
pub open spec fn title_of(
    thread_name: Option<Seq<char>>,
    preview: Option<Seq<char>>,
    thread_id: Option<Seq<char>>,
    file_name: Option<Seq<char>>,
    rollout_path: Seq<char>,
) -> Seq<char> {
    match cleaned(thread_name) {
        Some(name) => name,
        None => match cleaned(preview) {
            Some(preview) => cut_text(preview, 72),
            None => match thread_id {
                Some(id) => id,
                None => text::text_or(file_name, rollout_path),
            },
        },
    }
}

/// The title of a session: its name, else the start of its first request, else
/// its id, else the name of its file.
pub fn derive_thread_title(
    thread_name: Option<&str>,
    preview: Option<&str>,
    thread_id: Option<&str>,
    file_name: Option<&str>,
    rollout_path: &str,
) -> (out: String)
    ensures
        out@ == title_of(
            text::opt_str(thread_name),
            text::opt_str(preview),
            text::opt_str(thread_id),
            text::opt_str(file_name),
            rollout_path@,
        ),
{
    if let Some(name) = clean_opt(thread_name) {
        return name;
    }
    if let Some(preview) = clean_opt(preview) {
        return truncate_text(preview.as_str(), 72);
    }
    match (thread_id, file_name) {
        (Some(id), _) => id.to_owned(),
        (None, Some(name)) => name.to_owned(),
        (None, None) => rollout_path.to_owned(),
    }
}

/// A name that is not blank always is the title, and a blank one counts as
/// none.
pub proof fn names_come_first(
    thread_name: Seq<char>,
    preview: Option<Seq<char>>,
    thread_id: Option<Seq<char>>,
    file_name: Option<Seq<char>>,
    rollout_path: Seq<char>,
)
    ensures
        !text::blank(thread_name) ==> title_of(
            Some(thread_name),
            preview,
            thread_id,
            file_name,
            rollout_path,
        ) == text::collapse(thread_name),
        text::blank(thread_name) ==> title_of(
            Some(thread_name),
            preview,
            thread_id,
            file_name,
            rollout_path,
        ) == title_of(None, preview, thread_id, file_name, rollout_path),
{
    text::collapse_empty_iff_blank(thread_name);
}

// -------------------------------------------------------------------------- entries

fn opt_as_str(item: &Option<String>) -> (out: Option<&str>)
    ensures
        text::opt_str(out) == text::opt_text(*item),
{
    match item {
        Some(text) => Some(text.as_str()),
        None => None,
    }
}

/// The name that the index gives to a thread, the first one if there are more.
pub open spec fn name_of(names: Seq<ThreadTitleView>, id: Seq<char>) -> Option<Seq<char>>
    decreases names.len(),
{
    if names.len() == 0 {
        None
    } else if names[0].thread_id == id {
        Some(names[0].name)
    } else {
        name_of(names.skip(1), id)
    }
}

fn find_name(names: &Vec<ThreadTitle>, id: &str) -> (out: Option<String>)
    ensures
        text::opt_text(out) == name_of(names.deep_view(), id@),
{
    let ghost all = names.deep_view();
    assert(all.skip(0) =~= all);
    for i in 0..names.len()
        invariant
            all == names.deep_view(),
            name_of(all, id@) == name_of(all.skip(i as int), id@),
    {
        assert(all[i as int] == names@[i as int]@);
        assert(all.skip(i as int)[0] == all[i as int]);
        if same_text(names[i].thread_id.as_str(), id) {
            return Some(names[i].name.clone());
        }
        assert(all.skip(i as int).skip(1) =~= all.skip(i + 1));
    }
    None
}

/// The name of a thread; a blank one is none.
pub open spec fn shown_name(
    thread_id: Option<Seq<char>>,
    names: Seq<ThreadTitleView>,
) -> Option<Seq<char>> {
    match thread_id {
        Some(id) => match name_of(names, id) {
            Some(name) => if text::blank(name) {
                None
            } else {
                Some(name)
            },
            None => None,
        },
        None => None,
    }
}

fn find_shown_name(thread_id: &Option<String>, names: &Vec<ThreadTitle>) -> (out: Option<String>)
    ensures
        text::opt_text(out) == shown_name(text::opt_text(*thread_id), names.deep_view()),
{
    match thread_id {
        Some(id) => match find_name(names, id.as_str()) {
            Some(name) => if is_blank(name.as_str()) {
                None
            } else {
                Some(name)
            },
            None => None,
        },
        None => None,
    }
}

/// The entry of a listed session.
pub open spec fn entry_of(
    item: ThreadItemView,
    archived: bool,
    default_provider: Seq<char>,
    names: Seq<ThreadTitleView>,
) -> ThreadEntryView {
    let thread_name = shown_name(item.thread_id, names);
    let preview = cleaned(item.first_user_message);
    ThreadEntryView {
        thread_id: item.thread_id,
        rollout_path: item.path,
        provider: text::text_or(item.model_provider, default_provider),
        archived,
        title: title_of(thread_name, preview, item.thread_id, item.file_name, item.path),
        thread_name,
        preview,
        cwd: item.cwd,
        source: if item.has_source {
            Some(summary::source_name(item.source_json))
        } else {
            None
        },
        created_at: item.created_at,
        updated_at: item.updated_at,
    }
}

/// What a session is called on a command line: its id, else its path.
pub open spec fn target_text(entry: ThreadEntryView) -> Seq<char> {
    text::text_or(entry.thread_id, entry.rollout_path)
}

/// When a session was last used, as far as that is known.
pub open spec fn used_at(entry: ThreadEntryView) -> Option<Seq<char>> {
    text::first_present(entry.updated_at, entry.created_at)
}

/// What sessions are ordered by.
pub open spec fn key_of(entry: ThreadEntryView) -> Seq<char> {
    text::text_or(used_at(entry), ""@)
}

/// Whether a session is archived, as a word.
pub open spec fn state_word_of(archived: bool, language: Language) -> Seq<char> {
    match (archived, language) {
        (true, Language::English) => "archived"@,
        (false, Language::English) => "active"@,
        (true, Language::Chinese) => "已归档"@,
        (false, Language::Chinese) => "活跃"@,
    }
}

/// Whether a session is archived, as a word.
pub fn state_word(archived: bool, language: Language) -> (out: &'static str)
    ensures
        out@ == state_word_of(archived, language),
{
    match (archived, language) {
        (true, Language::English) => "archived",
        (false, Language::English) => "active",
        (true, Language::Chinese) => "已归档",
        (false, Language::Chinese) => "活跃",
    }
}

impl ThreadEntry {
    /// The entry of a listed session.
    pub fn from_thread_item(
        item: &ThreadItem,
        archived: bool,
        default_provider: &str,
        names: &Vec<ThreadTitle>,
    ) -> (out: Self)
        ensures
            out@ == entry_of(item@, archived, default_provider@, names.deep_view()),
    {
        let thread_name = find_shown_name(&item.thread_id, names);
        let preview = clean_opt(opt_as_str(&item.first_user_message));
        let title = derive_thread_title(
            opt_as_str(&thread_name),
            opt_as_str(&preview),
            opt_as_str(&item.thread_id),
            opt_as_str(&item.file_name),
            item.path.as_str(),
        );
        ThreadEntry {
            thread_id: clone_opt(&item.thread_id),
            rollout_path: item.path.clone(),
            provider: opt_or(&item.model_provider, default_provider),
            archived,
            title,
            thread_name,
            preview,
            cwd: clone_opt(&item.cwd),
            source: if item.has_source {
                Some(format_session_source(&item.source_json))
            } else {
                None
            },
            created_at: clone_opt(&item.created_at),
            updated_at: clone_opt(&item.updated_at),
        }
    }

    /// What the session is called on a command line: its id, else its path.
    pub fn target(&self) -> (out: String)
        ensures
            out@ == target_text(self@),
    {
        opt_or(&self.thread_id, self.rollout_path.as_str())
    }

    /// When the session was last used, as far as that is known.
    pub fn updated_label(&self) -> (out: Option<String>)
        ensures
            text::opt_text(out) == used_at(self@),
    {
        or_opt(&self.updated_at, &self.created_at)
    }

    /// What sessions are ordered by.
    pub fn sort_key(&self) -> (out: String)
        ensures
            out@ == key_of(self@),
    {
        opt_or(&self.updated_label(), "")
    }

    /// Whether the session is archived, as a word.
    pub fn state_label(&self, language: Language) -> (out: &'static str)
        ensures
            out@ == state_word_of(self@.archived, language),
    {
        state_word(self.archived, language)
    }

    /// What the session is found by after a reload.
    pub fn identity(&self) -> (out: ThreadIdentity)
        ensures
            out@ == identity_of(self@),
    {
        ThreadIdentity {
            thread_id: clone_opt(&self.thread_id),
            rollout_path: self.rollout_path.clone(),
        }
    }
}

/// What a session is found by after a reload.
pub open spec fn identity_of(entry: ThreadEntryView) -> ThreadIdentityView {
    ThreadIdentityView { thread_id: entry.thread_id, rollout_path: entry.rollout_path }
}

/// An entry is the one that an identity names: by its id where both have one,
/// else by its path.
pub open spec fn is_same(entry: ThreadEntryView, identity: ThreadIdentityView) -> bool {
    if entry.thread_id is Some && identity.thread_id is Some {
        entry.thread_id == identity.thread_id
    } else {
        paths::same_path(entry.rollout_path, identity.rollout_path)
    }
}

/// Whether an entry is the one that an identity names.
pub fn is_named_by(entry: &ThreadEntry, identity: &ThreadIdentity) -> (out: bool)
    ensures
        out == is_same(entry@, identity@),
{
    match (&entry.thread_id, &identity.thread_id) {
        (Some(left), Some(right)) => same_text(left.as_str(), right.as_str()),
        _ => is_same_path(entry.rollout_path.as_str(), identity.rollout_path.as_str()),
    }
}

/// Every entry is named by its own identity.
pub proof fn entries_are_named_by_themselves(entry: ThreadEntryView)
    ensures
        is_same(entry, identity_of(entry)),
{
}

/// What a new session is to be found by: its id where that can be read, else
/// its path.
pub open spec fn preferred(
    thread_id: Option<Seq<char>>,
    rollout_path: Option<Seq<char>>,
) -> Option<ThreadIdentityView> {
    match thread_id {
        Some(id) => Some(
            ThreadIdentityView {
                thread_id: Some(id),
                rollout_path: text::text_or(rollout_path, ""@),
            },
        ),
        None => match rollout_path {
            Some(rollout_path) => Some(ThreadIdentityView { thread_id: None, rollout_path }),
            None => None,
        },
    }
}

/// What a new session is to be found by, once its id has been read.
pub fn preferred_identity(thread_id: &Option<String>, rollout_path: &Option<String>) -> (out:
    Option<ThreadIdentity>)
    ensures
        out.deep_view() == preferred(text::opt_text(*thread_id), text::opt_text(*rollout_path)),
{
    match (thread_id, rollout_path) {
        (Some(id), _) => Some(
            ThreadIdentity { thread_id: Some(id.clone()), rollout_path: opt_or(rollout_path, "") },
        ),
        (None, Some(path)) => Some(
            ThreadIdentity { thread_id: None, rollout_path: path.clone() },
        ),
        (None, None) => None,
    }
}

/// The canonical form of an id, where there is one and it can be read.
pub open spec fn read_id(thread_id: Option<Seq<char>>) -> Option<Seq<char>> {
    match thread_id {
        Some(id) => runtime::canonical_thread_id(id),
        None => None,
    }
}

/// What a new session is to be found by: its id where that can be read, else
/// its path.
pub fn preferred_selection(thread_id: &Option<String>, rollout_path: &Option<String>) -> (out:
    Option<ThreadIdentity>)
    ensures
        out.deep_view() == preferred(
            read_id(text::opt_text(*thread_id)),
            text::opt_text(*rollout_path),
        ),
{
    let id = match thread_id {
        Some(id) => read_thread_id(id.as_str()),
        None => None,
    };
    preferred_identity(&id, rollout_path)
}

/// A session without a name is called by the start of its first request, else by
/// its id, else by the name of its file, else by its path.
pub proof fn sessions_without_a_name_are_called_otherwise(
    preview: Seq<char>,
    thread_id: Seq<char>,
    file_name: Option<Seq<char>>,
    id: Option<Seq<char>>,
    path: Seq<char>,
)
    ensures
        !text::blank(preview) ==> title_of(None, Some(preview), id, file_name, path) == cut_text(
            text::collapse(preview),
            72,
        ),
        text::blank(preview) ==> title_of(None, Some(preview), id, file_name, path) == title_of(
            None,
            None,
            id,
            file_name,
            path,
        ),
        title_of(None, None, Some(thread_id), file_name, path) == thread_id,
        file_name matches Some(name) ==> title_of(None, None, None, file_name, path) == name,
        title_of(None, None, None, None, path) == path,
{
    text::collapse_empty_iff_blank(preview);
}

/// A cut text shows its start and one character for the rest, and the end of a
/// text is what is left of it.
pub proof fn cut_texts_keep_start_or_end(front: Seq<char>, back: Seq<char>, room: nat)
    requires
        back.len() > 1,
    ensures
        cut_text(front + back, front.len() + 1) == front.push('…'),
        cut_text(front, front.len() + room) == front,
        last_chars(front + back, back.len()) == back,
        last_chars(front, front.len() + room) == front,
{
    assert((front + back).take(front.len() as int) =~= front);
    assert((front + back).skip(front.len() as int) =~= back);
    assert(search::first_chars(front, front.len() + room) =~= front);
}

/// A timestamp is shown by its date and its time to the minute, with a blank
/// between them.
pub proof fn timestamps_are_shown_to_the_minute(
    date: Seq<char>,
    time: Seq<char>,
    rest: Seq<char>,
)
    requires
        date.len() == 10,
        time.len() == 5,
        forall|i: int| 0 <= i < 10 ==> '-' <= #[trigger] date[i] <= '9',
        forall|i: int| 0 <= i < 5 ==> '-' <= #[trigger] time[i] <= ':',
    ensures
        stamp_of(date + seq!['T'] + time + rest) == date + seq![' '] + time,
{
    let front = date + seq!['T'] + time;
    assert forall|i: int| 0 <= i < front.len() implies #[trigger] front[i] < '\u{80}' by {
        if i < 10 {
            assert(front[i] == date[i]);
        } else if i > 10 {
            assert(front[i] == time[i - 11]);
        }
    }
    search::first_bytes_of_plain_text(front, rest, 0);
    let out = date + seq![' '] + time;
    assert forall|i: int| 0 <= i < front.len() implies #[trigger] spaced(front)[i] == out[i] by {
        if i < 10 {
            assert(front[i] == date[i]);
        } else if i > 10 {
            assert(front[i] == time[i - 11]);
        }
    }
    assert(spaced(front) =~= out);
    assert(out.last() == time[4]);
}

/// A thread has the first name that the index gives it, and none where that one is
/// blank.
pub proof fn first_name_of_a_thread_counts(names: Seq<ThreadTitleView>, at: int)
    requires
        0 <= at < names.len(),
        forall|i: int|
            0 <= i < at ==> (#[trigger] names[i]).thread_id != names[at].thread_id,
    ensures
        name_of(names, names[at].thread_id) == Some(names[at].name),
        !text::blank(names[at].name) ==> shown_name(Some(names[at].thread_id), names) == Some(
            names[at].name,
        ),
        text::blank(names[at].name) ==> shown_name(Some(names[at].thread_id), names) is None,
        shown_name(None, names) is None,
    decreases at,
{
    if at > 0 {
        let rest = names.skip(1);
        assert(names[0].thread_id != names[at].thread_id);
        assert forall|i: int| 0 <= i < at - 1 implies (#[trigger] rest[i]).thread_id
            != rest[at - 1].thread_id by {
            assert(names[i + 1].thread_id != names[at].thread_id);
        }
        first_name_of_a_thread_counts(rest, at - 1);
    }
}

/// A thread that the index does not name has no name.
pub proof fn threads_outside_the_index_have_no_name(names: Seq<ThreadTitleView>, id: Seq<char>)
    requires
        forall|i: int| 0 <= i < names.len() ==> (#[trigger] names[i]).thread_id != id,
    ensures
        shown_name(Some(id), names) is None,
    decreases names.len(),
{
    if names.len() > 0 {
        let rest = names.skip(1);
        assert(names[0].thread_id != id);
        assert forall|i: int| 0 <= i < rest.len() implies (#[trigger] rest[i]).thread_id != id by {
            assert(names[i + 1].thread_id != id);
        }
        threads_outside_the_index_have_no_name(rest, id);
    }
}

/// An entry tells what is listed of its session; one without a provider gets the
/// default one.
pub proof fn entries_tell_what_is_listed(
    item: ThreadItemView,
    archived: bool,
    default_provider: Seq<char>,
    names: Seq<ThreadTitleView>,
)
    ensures
        ({
            let entry = entry_of(item, archived, default_provider, names);
            &&& entry.thread_id == item.thread_id
            &&& entry.rollout_path == item.path
            &&& entry.archived == archived
            &&& item.model_provider matches Some(provider) ==> entry.provider == provider
            &&& item.model_provider is None ==> entry.provider == default_provider
            &&& entry.cwd == item.cwd
            &&& entry.created_at == item.created_at
            &&& entry.updated_at == item.updated_at
            &&& entry.thread_name == shown_name(item.thread_id, names)
            &&& entry.source is Some <==> item.has_source
            &&& entry.thread_name matches Some(name) ==> entry.title == text::collapse(name)
            &&& item.first_user_message matches Some(message) ==> (!text::blank(message)
                ==> entry.preview == Some(text::collapse(message)))
            &&& item.first_user_message is None ==> entry.preview is None
            &&& item.thread_id matches Some(id) ==> target_text(entry) == id
            &&& item.thread_id is None ==> target_text(entry) == item.path
        }),
{
    if let Some(name) = shown_name(item.thread_id, names) {
        text::collapse_empty_iff_blank(name);
    }
    if let Some(message) = item.first_user_message {
        text::collapse_empty_iff_blank(message);
    }
}

/// Two sessions with ids are the same exactly where these are; where one has none,
/// their paths decide.
pub proof fn ids_go_before_paths(
    entry: ThreadEntryView,
    id: Seq<char>,
    other: Seq<char>,
    path: Seq<char>,
)
    ensures
        is_same(
            ThreadEntryView { thread_id: Some(id), ..entry },
            ThreadIdentityView { thread_id: Some(other), rollout_path: path },
        ) <==> id == other,
        is_same(
            ThreadEntryView { thread_id: None, ..entry },
            ThreadIdentityView { thread_id: Some(other), rollout_path: path },
        ) <==> paths::same_path(entry.rollout_path, path),
        is_same(entry, ThreadIdentityView { thread_id: None, rollout_path: path })
            <==> paths::same_path(entry.rollout_path, path),
{
}

/// A new session is looked for under its id, and under its path where its id is
/// not known.
pub proof fn new_sessions_are_looked_for_by_id(id: Seq<char>, path: Option<Seq<char>>)
    ensures
        preferred(Some(id), path) matches Some(identity) && identity.thread_id == Some(id),
        path matches Some(path) ==> preferred(None, Some(path)) == Some(
            ThreadIdentityView { thread_id: None, rollout_path: path },
        ),
        preferred(None, None) is None,
        read_id(None) is None,
        read_id(Some(id)) == runtime::canonical_thread_id(id),
{
}

/// A session was last used when it was updated, and where that is not known when
/// it was made.
pub proof fn updates_tell_the_last_use(entry: ThreadEntryView)
    ensures
        entry.updated_at matches Some(time) ==> key_of(entry) == time,
        entry.updated_at is None ==> (entry.created_at matches Some(time) ==> key_of(entry)
            == time),
        entry.updated_at is None && entry.created_at is None ==> key_of(entry) == ""@,
{
}

} // verus!
