//! The languages of the terminal interface, and the words that it shows often.

use vstd::prelude::*;

use crate::numbers;
use crate::numbers::opt_i64_text;
use crate::search;
use crate::search::has_prefix;
use crate::search::lower;
use crate::smart::user_locale;
use crate::text;
use crate::text::cat2;

verus! {

/// A language of the interface.
#[derive(Debug, Clone, Copy, PartialEq, Eq, Structural)]
pub enum Language {
    English,
    Chinese,
}

/// The language of a locale, such as `zh-CN`.
pub open spec fn language_of(tag: Seq<char>) -> Language {
    if "zh"@.is_prefix_of(search::lowered(tag)) {
        Language::Chinese
    } else {
        Language::English
    }
}

/// The language for what is known of the locale.
pub open spec fn language_for(tag: Option<Seq<char>>) -> Language {
    match tag {
        Some(tag) => language_of(tag),
        None => Language::English,
    }
}

/// The other language.
pub open spec fn other_language(language: Language) -> Language {
    match language {
        Language::English => Language::Chinese,
        Language::Chinese => Language::English,
    }
}

/// The name of a language, in that language.
pub open spec fn language_label(language: Language) -> Seq<char> {
    match language {
        Language::English => "English"@,
        Language::Chinese => "中文"@,
    }
}

impl Language {
    /// The language for the locale of the user.
    pub fn detect() -> (out: Self) {
        Language::for_locale(&user_locale())
    }

    /// The language for a locale; English where it is not known.
    pub fn for_locale(tag: &Option<String>) -> (out: Self)
        ensures
            out == language_for(text::opt_text(*tag)),
    {
        match tag {
            Some(tag) => Language::from_locale_tag(tag.as_str()),
            None => Language::English,
        }
    }

    /// The language of a locale, such as `zh-CN`.
    pub fn from_locale_tag(tag: &str) -> (out: Self)
        ensures
            out == language_of(tag@),
    {
        if has_prefix(lower(tag).as_str(), "zh") {
            Language::Chinese
        } else {
            Language::English
        }
    }

    /// The other language.
    pub fn toggle(self) -> (out: Self)
        ensures
            out == other_language(self),
    {
        match self {
            Language::English => Language::Chinese,
            Language::Chinese => Language::English,
        }
    }

    /// The name of the language, in that language.
    pub fn label(self) -> (out: &'static str)
        ensures
            out@ == language_label(self),
    {
        match self {
            Language::English => "English",
            Language::Chinese => "中文",
        }
    }
}

/// Switching the language changes it, and switching twice changes nothing.
pub proof fn toggling_twice_changes_nothing(language: Language)
    ensures
        other_language(language) != language,
        other_language(other_language(language)) == language,
{
}

/// One of two texts.
pub open spec fn in_language(
    language: Language,
    english: Seq<char>,
    chinese: Seq<char>,
) -> Seq<char> {
    match language {
        Language::English => english,
        Language::Chinese => chinese,
    }
}

/// A heading in the language of the interface.
pub fn localized_heading_text(language: Language, english: &str, chinese: &str) -> (out: String)
    ensures
        out@ == in_language(language, english@, chinese@),
{
    match language {
        Language::English => english.to_owned(),
        Language::Chinese => chinese.to_owned(),
    }
}

/// A fixed text in the language of the interface.
pub fn footer_text(
    language: Language,
    english: &'static str,
    chinese: &'static str,
) -> (out: &'static str)
    ensures
        out@ == in_language(language, english@, chinese@),
{
    match language {
        Language::English => english,
        Language::Chinese => chinese,
    }
}

/// The label in front of a value.
pub open spec fn label_text(
    language: Language,
    english: Seq<char>,
    chinese: Seq<char>,
) -> Seq<char> {
    match language {
        Language::English => english + ": "@,
        Language::Chinese => chinese + "："@,
    }
}

/// The label in front of a value.
pub fn field_label(language: Language, english: &str, chinese: &str) -> (out: String)
    ensures
        out@ == label_text(language, english@, chinese@),
{
    match language {
        Language::English => cat2(english, ": "),
        Language::Chinese => cat2(chinese, "："),
    }
}

/// What stands for a value that is not known.
pub open spec fn unknown_word(language: Language) -> Seq<char> {
    match language {
        Language::English => "unknown"@,
        Language::Chinese => "未知"@,
    }
}

/// What stands for a value that is not known.
pub fn unknown_text(language: Language) -> (out: String)
    ensures
        out@ == unknown_word(language),
{
    match language {
        Language::English => "unknown".to_owned(),
        Language::Chinese => "未知".to_owned(),
    }
}

/// What stands for a value that is empty.
pub open spec fn empty_word(language: Language) -> Seq<char> {
    match language {
        Language::English => ""@,
        Language::Chinese => "无"@,
    }
}

/// What stands for a value that is empty.
pub fn empty_text(language: Language) -> (out: String)
    ensures
        out@ == empty_word(language),
{
    match language {
        Language::English => "".to_owned(),
        Language::Chinese => "无".to_owned(),
    }
}

/// What stands for a value that was never set.
pub open spec fn not_set_word(language: Language) -> Seq<char> {
    match language {
        Language::English => "not set"@,
        Language::Chinese => "未设置"@,
    }
}

/// What stands for a value that was never set.
pub fn not_set_text(language: Language) -> (out: String)
    ensures
        out@ == not_set_word(language),
{
    match language {
        Language::English => "not set".to_owned(),
        Language::Chinese => "未设置".to_owned(),
    }
}

/// A number, or the word for what is not known.
pub open spec fn optional_number(value: Option<i64>, language: Language) -> Seq<char> {
    numbers::opt_decimal(numbers::opt_int_i64(value), unknown_word(language))
}

/// A number, or the word for what is not known.
pub fn format_optional_i64(value: Option<i64>, language: Language) -> (out: String)
    ensures
        out@ == optional_number(value, language),
{
    opt_i64_text(value, unknown_text(language).as_str())
}

/// A locale is Chinese exactly where it starts with `zh`, in small or capital
/// letters; an unknown one is English.
pub proof fn chinese_locales_start_with_zh(tag: Seq<char>)
    ensures
        language_for(None) is English,
        language_for(Some(tag)) is Chinese <==> tag.len() >= 2 && (tag[0] == 'z' || tag[0] == 'Z')
            && (tag[1] == 'h' || tag[1] == 'H'),
{
    reveal_strlit("zh");
    let low = search::lowered(tag);
    if "zh"@.is_prefix_of(low) {
        assert(low.take(2)[0] == 'z');
        assert(low.take(2)[1] == 'h');
    }
    if tag.len() >= 2 && (tag[0] == 'z' || tag[0] == 'Z') && (tag[1] == 'h' || tag[1] == 'H') {
        assert(low.take(2) =~= "zh"@);
    }
}

} // verus!
