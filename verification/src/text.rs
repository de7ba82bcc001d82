//! Text primitives: concatenation, white space, searching and numbers.
//!
//! Texts are modelled as `Seq<char>`.

use vstd::prelude::*;

verus! {

/// Appends one character: `String::push` leaves everything before it in place.
pub assume_specification[ String::push ](target: &mut String, added: char)
    ensures
        final(target)@ == old(target)@.push(added),
;

/// The views of a list of strings.
pub open spec fn texts(items: Seq<String>) -> Seq<Seq<char>> {
    Seq::new(items.len(), |i: int| items[i]@)
}

/// A list of strings holds these texts, in this order.
pub open spec fn reads(items: Seq<String>, lines: Seq<Seq<char>>) -> bool {
    texts(items) == lines
}

/// A list with a text added at its end, unless the list holds it already.
#[verifier::opaque]
pub open spec fn with_unique(lines: Seq<Seq<char>>, line: Seq<char>) -> Seq<Seq<char>> {
    if lines.contains(line) {
        lines
    } else {
        lines.push(line)
    }
}

/// The view of an optional string.
pub open spec fn opt_text(item: Option<String>) -> Option<Seq<char>> {
    match item {
        Some(text) => Some(text@),
        None => None,
    }
}

/// The view of an optional string slice.
pub open spec fn opt_str(item: Option<&str>) -> Option<Seq<char>> {
    match item {
        Some(text) => Some(text@),
        None => None,
    }
}

pub broadcast proof fn texts_push(items: Seq<String>, item: String)
    ensures
        #[trigger] texts(items.push(item)) == texts(items).push(item@),
{
    assert(texts(items.push(item)) =~= texts(items).push(item@));
}

pub(crate) fn cat2(a: &str, b: &str) -> (out: String)
    ensures
        out@ == a@ + b@,
{
    let mut out = a.to_owned();
    out.append(b);
    out
}

pub(crate) fn cat3(a: &str, b: &str, c: &str) -> (out: String)
    ensures
        out@ == a@ + b@ + c@,
{
    let mut out = cat2(a, b);
    out.append(c);
    out
}

pub(crate) fn cat4(a: &str, b: &str, c: &str, d: &str) -> (out: String)
    ensures
        out@ == a@ + b@ + c@ + d@,
{
    let mut out = cat3(a, b, c);
    out.append(d);
    out
}

pub(crate) fn cat5(a: &str, b: &str, c: &str, d: &str, e: &str) -> (out: String)
    ensures
        out@ == a@ + b@ + c@ + d@ + e@,
{
    let mut out = cat4(a, b, c, d);
    out.append(e);
    out
}

pub(crate) fn cat6(a: &str, b: &str, c: &str, d: &str, e: &str, f: &str) -> (out: String)
    ensures
        out@ == a@ + b@ + c@ + d@ + e@ + f@,
{
    let mut out = cat5(a, b, c, d, e);
    out.append(f);
    out
}

pub(crate) fn cat7(a: &str, b: &str, c: &str, d: &str, e: &str, f: &str, g: &str) -> (out: String)
    ensures
        out@ == a@ + b@ + c@ + d@ + e@ + f@ + g@,
{
    let mut out = cat6(a, b, c, d, e, f);
    out.append(g);
    out
}

pub(crate) fn cat8(
    a: &str,
    b: &str,
    c: &str,
    d: &str,
    e: &str,
    f: &str,
    g: &str,
    h: &str,
) -> (out: String)
    ensures
        out@ == a@ + b@ + c@ + d@ + e@ + f@ + g@ + h@,
{
    let mut out = cat7(a, b, c, d, e, f, g);
    out.append(h);
    out
}

pub(crate) fn cat9(
    a: &str,
    b: &str,
    c: &str,
    d: &str,
    e: &str,
    f: &str,
    g: &str,
    h: &str,
    i: &str,
) -> (out: String)
    ensures
        out@ == a@ + b@ + c@ + d@ + e@ + f@ + g@ + h@ + i@,
{
    let mut out = cat8(a, b, c, d, e, f, g, h);
    out.append(i);
    out
}

pub(crate) fn cat10(
    a: &str,
    b: &str,
    c: &str,
    d: &str,
    e: &str,
    f: &str,
    g: &str,
    h: &str,
    i: &str,
    j: &str,
) -> (out: String)
    ensures
        out@ == a@ + b@ + c@ + d@ + e@ + f@ + g@ + h@ + i@ + j@,
{
    let mut out = cat9(a, b, c, d, e, f, g, h, i);
    out.append(j);
    out
}

/// The characters of a text.
pub fn chars_of(text: &str) -> (chars: Vec<char>)
    ensures
        chars@ == text@,
{
    let mut chars: Vec<char> = Vec::new();
    for ch in it: text.chars()
        invariant
            it.seq() == text@,
            chars@ == text@.take(it.index() as int),
    {
        chars.push(ch);
        assert(text@.take(it.index() as int).push(ch) =~= text@.take(it.index() + 1));
    }
    assert(text@.take(text@.len() as int) =~= text@);
    chars
}

/// The text made of the characters from `from` up to `to`.
pub fn text_of(chars: &Vec<char>, from: usize, to: usize) -> (out: String)
    requires
        from <= to <= chars@.len(),
    ensures
        out@ == chars@.subrange(from as int, to as int),
{
    let mut out = String::new();
    let mut i: usize = from;
    while i < to
        invariant
            from <= i <= to <= chars@.len(),
            out@ == chars@.subrange(from as int, i as int),
        decreases to - i,
    {
        out.push(chars[i]);
        assert(chars@.subrange(from as int, i as int).push(chars@[i as int])
            =~= chars@.subrange(from as int, i + 1));
        i = i + 1;
    }
    out
}

/// Whether two texts hold the same characters.
pub fn same_text(a: &str, b: &str) -> (same: bool)
    ensures
        same == (a@ == b@),
{
    a.to_owned() == b.to_owned()
}

/// Whether an optional text is present and equal to `expected`.
pub fn is_text(item: &Option<String>, expected: &str) -> (same: bool)
    ensures
        same == (opt_text(*item) == Some(expected@)),
{
    match item {
        Some(text) => same_text(text.as_str(), expected),
        None => false,
    }
}

/// Whether two optional texts are both absent or hold the same characters.
pub fn same_opt_text(a: &Option<String>, b: &Option<String>) -> (same: bool)
    ensures
        same == (opt_text(*a) == opt_text(*b)),
{
    match (a, b) {
        (Some(left), Some(right)) => same_text(left.as_str(), right.as_str()),
        (None, None) => true,
        _ => false,
    }
}

/// A copy of an optional string.
pub fn clone_opt(item: &Option<String>) -> (out: Option<String>)
    ensures
        out == *item,
{
    match item {
        Some(text) => Some(text.clone()),
        None => None,
    }
}

/// A list with no texts.
pub fn no_texts() -> (out: Vec<String>)
    ensures
        texts(out@) == Seq::<Seq<char>>::empty(),
{
    let out: Vec<String> = Vec::new();
    assert(texts(out@) =~= Seq::<Seq<char>>::empty());
    out
}

/// Adds one text at the end of a list.
pub fn push_text(items: &mut Vec<String>, item: String)
    ensures
        texts(final(items)@) == texts(old(items)@).push(item@),
{
    broadcast use texts_push;

    items.push(item);
}

/// Adds copies of all of `more` at the end of a list.
pub fn push_texts(items: &mut Vec<String>, more: &Vec<String>)
    ensures
        texts(final(items)@) == texts(old(items)@) + texts(more@),
{
    let ghost start = texts(items@);
    for i in 0..more.len()
        invariant
            texts(items@) == start + texts(more@).take(i as int),
    {
        push_text(items, more[i].clone());
        assert(texts(more@).take(i as int).push(more@[i as int]@) =~= texts(more@).take(i + 1));
        assert((start + texts(more@).take(i as int)).push(more@[i as int]@) =~= start + texts(
            more@,
        ).take(i as int).push(more@[i as int]@));
    }
    assert(texts(more@).take(more@.len() as int) =~= texts(more@));
}

/// A copy of a list of strings.
pub fn clone_texts(items: &Vec<String>) -> (out: Vec<String>)
    ensures
        out@ == items@,
{
    let mut out: Vec<String> = Vec::new();
    for i in 0..items.len()
        invariant
            out@ == items@.take(i as int),
    {
        out.push(items[i].clone());
        assert(items@.take(i as int).push(items@[i as int]) =~= items@.take(i + 1));
    }
    assert(items@.take(items@.len() as int) =~= items@);
    out
}

/// The first present of two optional strings.
pub open spec fn first_present(a: Option<Seq<char>>, b: Option<Seq<char>>) -> Option<Seq<char>> {
    match a {
        Some(text) => Some(text),
        None => b,
    }
}

/// The first of two optional texts that is there.
pub fn or_opt(a: &Option<String>, b: &Option<String>) -> (out: Option<String>)
    ensures
        opt_text(out) == first_present(opt_text(*a), opt_text(*b)),
{
    match a {
        Some(text) => Some(text.clone()),
        None => clone_opt(b),
    }
}

/// The text, or `default` where there is none.
pub open spec fn text_or(item: Option<Seq<char>>, default: Seq<char>) -> Seq<char> {
    match item {
        Some(text) => text,
        None => default,
    }
}

/// An optional text, or `default` where there is none.
pub fn opt_or(item: &Option<String>, default: &str) -> (out: String)
    ensures
        out@ == text_or(opt_text(*item), default@),
{
    match item {
        Some(text) => text.clone(),
        None => default.to_owned(),
    }
}

// ---------------------------------------------------------------- white space

/// The characters with the Unicode property `White_Space`.
pub open spec fn white_space(ch: char) -> bool {
    ||| '\u{9}' <= ch <= '\u{d}'
    ||| ch == ' '
    ||| ch == '\u{85}'
    ||| ch == '\u{a0}'
    ||| ch == '\u{1680}'
    ||| '\u{2000}' <= ch <= '\u{200a}'
    ||| ch == '\u{2028}'
    ||| ch == '\u{2029}'
    ||| ch == '\u{202f}'
    ||| ch == '\u{205f}'
    ||| ch == '\u{3000}'
}

/// Whether a character is white space in Unicode.
pub fn is_white_space(ch: char) -> (white: bool)
    ensures
        white == white_space(ch),
{
    ('\u{9}' <= ch && ch <= '\u{d}') || ch == ' ' || ch == '\u{85}' || ch == '\u{a0}' || ch
        == '\u{1680}' || ('\u{2000}' <= ch && ch <= '\u{200a}') || ch == '\u{2028}' || ch
        == '\u{2029}' || ch == '\u{202f}' || ch == '\u{205f}' || ch == '\u{3000}'
}

/// Whether a text holds white space alone.
pub open spec fn blank(text: Seq<char>) -> bool {
    forall|i: int| 0 <= i < text.len() ==> white_space(#[trigger] text[i])
}

/// The words of a text, separated by single spaces.
///
/// Every run of white space between two words becomes one space; white space
/// at either end goes away.
pub open spec fn collapse(text: Seq<char>) -> Seq<char>
    decreases text.len(),
{
    if text.len() == 0 {
        Seq::empty()
    } else {
        let rest = collapse(text.drop_last());
        if white_space(text.last()) {
            rest
        } else if text.len() > 1 && white_space(text[text.len() - 2]) && rest.len() > 0 {
            rest.push(' ').push(text.last())
        } else {
            rest.push(text.last())
        }
    }
}

/// A text in the shape that `collapse` gives: no white space at either end, no
/// white space but single spaces inside.
pub open spec fn tidy(text: Seq<char>) -> bool {
    &&& text.len() > 0 ==> !white_space(text[0]) && !white_space(text.last())
    &&& forall|i: int|
        0 <= i < text.len() && white_space(#[trigger] text[i]) ==> text[i] == ' '
    &&& forall|i: int|
        0 <= i < text.len() - 1 && white_space(#[trigger] text[i]) ==> !white_space(text[i + 1])
}

/// Collapsing a text always leaves it tidy.
pub proof fn collapse_is_tidy(text: Seq<char>)
    ensures
        tidy(collapse(text)),
        text.len() > 0 && !white_space(text.last()) ==> collapse(text).len() > 0
            && collapse(text).last() == text.last(),
    decreases text.len(),
{
    if text.len() > 0 {
        collapse_is_tidy(text.drop_last());
    }
}

/// Collapsing a tidy text changes nothing.
pub proof fn collapse_keeps_tidy(text: Seq<char>)
    requires
        tidy(text),
    ensures
        collapse(text) == text,
    decreases text.len(),
{
    if text.len() > 0 {
        let rest = text.drop_last();
        if text.len() > 1 && white_space(text[text.len() - 2]) {
            let front = rest.drop_last();
            assert(rest.last() == ' ');
            assert(front.len() > 0);
            assert(!white_space(front.last())) by {
                if white_space(front.last()) {
                    assert(text[text.len() - 3] == front.last());
                }
            }
            assert(tidy(front)) by {
                assert forall|i: int| 0 <= i < front.len() && white_space(#[trigger] front[i]) implies front[i]
                    == ' ' by {
                    assert(front[i] == text[i]);
                }
                assert forall|i: int| 0 <= i < front.len() - 1 && white_space(#[trigger] front[i]) implies !white_space(
                    front[i + 1],
                ) by {
                    assert(front[i] == text[i]);
                }
            }
            collapse_keeps_tidy(front);
            assert(collapse(rest) == front);
            assert(front.push(' ').push(text.last()) =~= text);
        } else {
            assert(tidy(rest)) by {
                assert forall|i: int| 0 <= i < rest.len() && white_space(#[trigger] rest[i]) implies rest[i]
                    == ' ' by {
                    assert(rest[i] == text[i]);
                }
                assert forall|i: int| 0 <= i < rest.len() - 1 && white_space(#[trigger] rest[i]) implies !white_space(
                    rest[i + 1],
                ) by {
                    assert(rest[i] == text[i]);
                }
            }
            collapse_keeps_tidy(rest);
            assert(rest.push(text.last()) =~= text);
        }
    }
}

/// Collapsing twice gives what collapsing once gives.
pub proof fn collapse_is_idempotent(text: Seq<char>)
    ensures
        collapse(collapse(text)) == collapse(text),
{
    collapse_is_tidy(text);
    collapse_keeps_tidy(collapse(text));
}

/// A text collapses to nothing exactly when it is blank.
pub proof fn collapse_empty_iff_blank(text: Seq<char>)
    ensures
        (collapse(text).len() == 0) == blank(text),
    decreases text.len(),
{
    if text.len() > 0 {
        let rest = text.drop_last();
        collapse_empty_iff_blank(rest);
        if blank(rest) && white_space(text.last()) {
            assert forall|i: int| 0 <= i < text.len() implies white_space(#[trigger] text[i]) by {
                if i < rest.len() {
                    assert(rest[i] == text[i]);
                }
            }
        }
        if blank(text) {
            assert forall|i: int| 0 <= i < rest.len() implies white_space(#[trigger] rest[i]) by {
                assert(rest[i] == text[i]);
            }
            assert(white_space(text[text.len() - 1]));
        }
    }
}

/// The words of a message, separated by single spaces.
pub fn normalize_message(message: &str) -> (out: String)
    ensures
        out@ == collapse(message@),
{
    let chars = chars_of(message);
    let mut out = String::new();
    let mut seen_word = false;
    let mut i: usize = 0;
    while i < chars.len()
        invariant
            i <= chars@.len(),
            chars@ == message@,
            out@ == collapse(chars@.take(i as int)),
            seen_word == (out@.len() > 0),
        decreases chars@.len() - i,
    {
        let ch = chars[i];
        let ghost next = chars@.take(i + 1);
        assert(next.drop_last() =~= chars@.take(i as int));
        if !is_white_space(ch) {
            if i > 0 && seen_word && is_white_space(chars[i - 1]) {
                out.push(' ');
            }
            out.push(ch);
            seen_word = true;
        }
        i = i + 1;
    }
    assert(chars@.take(chars@.len() as int) =~= chars@);
    out
}

/// The text without white space at its end.
pub open spec fn trim_end(text: Seq<char>) -> Seq<char>
    decreases text.len(),
{
    if text.len() > 0 && white_space(text.last()) {
        trim_end(text.drop_last())
    } else {
        text
    }
}

/// The text without white space at its start.
pub open spec fn trim_start(text: Seq<char>) -> Seq<char>
    decreases text.len(),
{
    if text.len() > 0 && white_space(text[0]) {
        trim_start(text.drop_first())
    } else {
        text
    }
}

/// The text without white space at either end.
pub open spec fn trimmed(text: Seq<char>) -> Seq<char> {
    trim_start(trim_end(text))
}

/// A text trims to nothing exactly when it is blank.
pub proof fn trimmed_empty_iff_blank(text: Seq<char>)
    ensures
        (trimmed(text).len() == 0) == blank(text),
{
    trim_end_facts(text);
    trim_start_facts(trim_end(text));
    let cut = trim_end(text);
    if blank(text) {
        if cut.len() > 0 {
            assert(white_space(text[cut.len() - 1]));
        }
    } else {
        let i = choose|i: int| 0 <= i < text.len() && !white_space(#[trigger] text[i]);
        if blank(cut) {
            if i < cut.len() {
                assert(cut[i] == text[i]);
            }
        }
    }
}

proof fn trim_end_facts(text: Seq<char>)
    ensures
        trim_end(text).len() <= text.len(),
        trim_end(text) == text.take(trim_end(text).len() as int),
        trim_end(text).len() > 0 ==> !white_space(trim_end(text).last()),
        forall|i: int| trim_end(text).len() <= i < text.len() ==> white_space(#[trigger] text[i]),
    decreases text.len(),
{
    if text.len() > 0 && white_space(text.last()) {
        let rest = text.drop_last();
        trim_end_facts(rest);
        assert(trim_end(text) =~= text.take(trim_end(text).len() as int));
        assert forall|i: int| trim_end(text).len() <= i < text.len() implies white_space(
            #[trigger] text[i],
        ) by {
            if i < rest.len() {
                assert(rest[i] == text[i]);
            }
        }
    } else {
        assert(text =~= text.take(text.len() as int));
    }
}

proof fn trim_start_facts(text: Seq<char>)
    ensures
        trim_start(text).len() <= text.len(),
        trim_start(text) == text.skip(text.len() - trim_start(text).len()),
        (trim_start(text).len() == 0) == blank(text),
    decreases text.len(),
{
    if text.len() > 0 && white_space(text[0]) {
        let rest = text.drop_first();
        trim_start_facts(rest);
        assert(trim_start(text) =~= text.skip(text.len() - trim_start(text).len()));
        if blank(rest) {
            assert forall|i: int| 0 <= i < text.len() implies white_space(#[trigger] text[i]) by {
                if i > 0 {
                    assert(rest[i - 1] == text[i]);
                }
            }
        } else {
            let i = choose|i: int| 0 <= i < rest.len() && !white_space(#[trigger] rest[i]);
            assert(!white_space(text[i + 1]));
        }
    } else {
        assert(text =~= text.skip(0));
        if text.len() > 0 {
            assert(!white_space(text[0]));
        }
    }
}

/// The text without white space at either end.
pub fn trim(text: &str) -> (out: String)
    ensures
        out@ == trimmed(text@),
{
    let chars = chars_of(text);
    let mut to: usize = chars.len();
    assert(chars@.take(to as int) =~= chars@);
    while to > 0 && is_white_space(chars[to - 1])
        invariant
            to <= chars@.len(),
            trim_end(chars@) == trim_end(chars@.take(to as int)),
        decreases to,
    {
        assert(chars@.take(to as int).drop_last() =~= chars@.take(to - 1));
        to = to - 1;
    }
    let ghost cut = chars@.take(to as int);
    assert(trim_end(cut) == cut);
    assert(cut.skip(0) =~= cut);
    let mut from: usize = 0;
    while from < to && is_white_space(chars[from])
        invariant
            from <= to <= chars@.len(),
            cut == chars@.take(to as int),
            trim_start(cut) == trim_start(cut.skip(from as int)),
        decreases to - from,
    {
        assert(cut.skip(from as int).drop_first() =~= cut.skip(from + 1));
        from = from + 1;
    }
    assert(trim_start(cut.skip(from as int)) == cut.skip(from as int));
    assert(cut.skip(from as int) =~= chars@.subrange(from as int, to as int));
    text_of(&chars, from, to)
}

/// Whether a text holds white space alone.
pub fn is_blank(text: &str) -> (out: bool)
    ensures
        out == blank(text@),
{
    let cut = trim(text);
    proof {
        trimmed_empty_iff_blank(text@);
    }
    cut.as_str().is_empty()
}

/// White space is what Unicode takes for it.
pub proof fn white_space_by_code_point(ch: char)
    ensures
        ({
            let code = ch as int;
            white_space(ch) <==> 9 <= code <= 13 || code == 32 || code == 0x85 || code == 0xa0
                || code == 0x1680 || 0x2000 <= code <= 0x200a || code == 0x2028 || code == 0x2029
                || code == 0x202f || code == 0x205f || code == 0x3000
        }),
{
}

/// Of two optional texts the first one counts where it is there.
pub proof fn first_text_counts(text: Seq<char>, other: Option<Seq<char>>, default: Seq<char>)
    ensures
        first_present(Some(text), other) == Some(text),
        first_present(None, other) == other,
        text_or(Some(text), default) == text,
        text_or(None, default) == default,
{
}

/// A text that a list holds is not added again; any other goes to its end.
pub proof fn texts_are_added_once(lines: Seq<Seq<char>>, line: Seq<char>)
    ensures
        lines.contains(line) ==> with_unique(lines, line) == lines,
        !lines.contains(line) ==> with_unique(lines, line) == lines.push(line),
{
    reveal(with_unique);
}

/// Collapsing a text keeps all its characters but white space, in their order.
pub proof fn collapse_keeps_all_but_white_space(text: Seq<char>)
    ensures
        collapse(text).filter(|ch: char| !white_space(ch)) == text.filter(
            |ch: char| !white_space(ch),
        ),
    decreases text.len(),
{
    reveal(Seq::filter);
    let keeps = |ch: char| !white_space(ch);
    if text.len() > 0 {
        collapse_keeps_all_but_white_space(text.drop_last());
        let rest = collapse(text.drop_last());
        let out = collapse(text);
        if !white_space(text.last()) {
            if text.len() > 1 && white_space(text[text.len() - 2]) && rest.len() > 0 {
                assert(out.drop_last() =~= rest.push(' '));
                assert(rest.push(' ').drop_last() =~= rest);
                assert(rest.push(' ').filter(keeps) == rest.filter(keeps));
            } else {
                assert(out.drop_last() =~= rest);
            }
        }
    }
}

/// Collapsing leaves words apart by one space where any white space stood between
/// them, and joins nothing else.
pub proof fn collapse_separates_words(text: Seq<char>, gap: char, word: Seq<char>)
    requires
        white_space(gap),
        word.len() > 0,
        forall|i: int| 0 <= i < word.len() ==> !white_space(#[trigger] word[i]),
    ensures
        collapse(text.push(gap)) == collapse(text),
        blank(text) ==> collapse(text.push(gap) + word) == word,
        !blank(text) ==> collapse(text.push(gap) + word) == collapse(text) + seq![' '] + word,
        text.len() > 0 && !white_space(text.last()) ==> collapse(text + word) == collapse(text)
            + word,
    decreases word.len(),
{
    assert(text.push(gap).drop_last() =~= text);
    collapse_empty_iff_blank(text);
    let front = word.drop_last();
    let apart = text.push(gap) + word;
    let close = text + word;
    assert(apart.drop_last() =~= text.push(gap) + front);
    assert(close.drop_last() =~= text + front);
    assert(!white_space(word[word.len() - 1]));
    if front.len() > 0 {
        collapse_separates_words(text, gap, front);
        assert(!white_space(word[word.len() - 2]));
        assert(apart[apart.len() - 2] == word[word.len() - 2]);
        assert(close[close.len() - 2] == word[word.len() - 2]);
        assert(front.push(word.last()) =~= word);
        if blank(text) {
            assert(collapse(apart) =~= word);
        } else {
            assert(collapse(apart) =~= collapse(text) + seq![' '] + word);
        }
        if text.len() > 0 && !white_space(text.last()) {
            assert(collapse(close) =~= collapse(text) + word);
        }
    } else {
        assert(text.push(gap) + front =~= text.push(gap));
        assert(text + front =~= text);
        assert(collapse(text.push(gap)) == collapse(text));
        assert(apart.drop_last() == text.push(gap));
        assert(apart.last() == word.last());
        assert(apart[apart.len() - 2] == gap);
        assert(word =~= seq![word.last()]);
        if blank(text) {
            assert(collapse(apart) =~= word);
        } else {
            assert(collapse(apart) =~= collapse(text) + seq![' '] + word);
        }
        if text.len() > 0 && !white_space(text.last()) {
            assert(close[close.len() - 2] == text.last());
            assert(collapse(close) =~= collapse(text) + word);
        }
    }
}

proof fn trim_start_skips_white_space(text: Seq<char>)
    ensures
        trim_start(text).len() > 0 ==> !white_space(trim_start(text)[0]),
        forall|i: int|
            0 <= i < text.len() - trim_start(text).len() ==> white_space(#[trigger] text[i]),
    decreases text.len(),
{
    trim_start_facts(text);
    if text.len() > 0 && white_space(text[0]) {
        let rest = text.drop_first();
        trim_start_skips_white_space(rest);
        trim_start_facts(rest);
        assert forall|i: int| 0 <= i < text.len() - trim_start(text).len() implies white_space(
            #[trigger] text[i],
        ) by {
            if i > 0 {
                assert(rest[i - 1] == text[i]);
            }
        }
    }
}

/// Trimming takes white space away at both ends, all of it there, and nothing
/// else.
pub proof fn trimming_takes_white_ends(text: Seq<char>)
    ensures
        trimmed(text).len() > 0 ==> !white_space(trimmed(text)[0]) && !white_space(
            trimmed(text).last(),
        ),
        exists|from: int, to: int|
            0 <= from <= to <= text.len() && trimmed(text) == #[trigger] text.subrange(from, to)
                && (forall|i: int| 0 <= i < from ==> white_space(#[trigger] text[i])) && (forall|
                i: int,
            |
                to <= i < text.len() ==> white_space(#[trigger] text[i])),
{
    let cut = trim_end(text);
    let out = trimmed(text);
    trim_end_facts(text);
    trim_start_facts(cut);
    trim_start_skips_white_space(cut);
    let from = cut.len() - out.len();
    let to = cut.len() as int;
    assert(out =~= text.subrange(from, to));
    assert forall|i: int| 0 <= i < from implies white_space(#[trigger] text[i]) by {
        assert(cut[i] == text[i]);
    }
    if out.len() > 0 {
        assert(out.last() == cut.last());
    }
}

} // verus!
