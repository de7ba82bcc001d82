//! Searching in texts, comparing them and cutting them.

use vstd::prelude::*;

use crate::text::chars_of;
use crate::text::normalize_message;
use crate::text::text_of;

use crate::text;

verus! {

/// `needle` stands in `text` from position `at` on.
pub open spec fn occurs_at(text: Seq<char>, needle: Seq<char>, at: int) -> bool {
    0 <= at <= text.len() - needle.len() && text.subrange(at, at + needle.len()) == needle
}

/// `needle` stands somewhere in `text`.
pub open spec fn contains(text: Seq<char>, needle: Seq<char>) -> bool {
    exists|at: int| occurs_at(text, needle, at)
}

/// The first position at which `needle` stands in `text`.
pub open spec fn first_at(text: Seq<char>, needle: Seq<char>, at: int) -> bool {
    occurs_at(text, needle, at) && forall|other: int| other < at ==> !occurs_at(
        text,
        needle,
        other,
    )
}

fn stands_at(chars: &Vec<char>, needle: &Vec<char>, at: usize) -> (out: bool)
    requires
        at + needle@.len() <= chars@.len(),
    ensures
        out == occurs_at(chars@, needle@, at as int),
{
    let size: usize = chars.len();
    let mut i: usize = 0;
    while i < needle.len()
        invariant
            i <= needle@.len(),
            at + needle@.len() <= size,
            size == chars@.len(),
            forall|j: int| 0 <= j < i ==> chars@[at + j] == needle@[j],
        decreases needle@.len() - i,
    {
        if chars[at + i] != needle[i] {
            assert(chars@.subrange(at as int, at + needle@.len())[i as int] == chars@[at + i]);
            return false;
        }
        i = i + 1;
    }
    assert(chars@.subrange(at as int, at + needle@.len()) =~= needle@);
    true
}

/// The first position of `needle` in a text given by its characters.
pub fn find_chars(chars: &Vec<char>, needle: &Vec<char>) -> (out: Option<usize>)
    ensures
        match out {
            Some(at) => first_at(chars@, needle@, at as int),
            None => !contains(chars@, needle@),
        },
{
    if needle.len() > chars.len() {
        return None;
    }
    let last: usize = chars.len() - needle.len();
    let mut at: usize = 0;
    loop
        invariant
            at <= last,
            last + needle@.len() == chars@.len(),
            forall|other: int| other < at ==> !occurs_at(chars@, needle@, other),
        decreases last - at,
    {
        if stands_at(chars, needle, at) {
            return Some(at);
        }
        if at == last {
            assert forall|other: int| !occurs_at(chars@, needle@, other) by {
                if other > last {
                    assert(other > chars@.len() - needle@.len());
                }
            }
            return None;
        }
        at = at + 1;
    }
}

/// Whether `needle` stands somewhere in `text`.
pub fn contains_text(text: &str, needle: &str) -> (out: bool)
    ensures
        out == contains(text@, needle@),
{
    match find_chars(&chars_of(text), &chars_of(needle)) {
        Some(at) => true,
        None => false,
    }
}

/// Whether a text begins with `prefix`.
pub fn has_prefix(text: &str, prefix: &str) -> (out: bool)
    ensures
        out == prefix@.is_prefix_of(text@),
{
    let chars = chars_of(text);
    let front = chars_of(prefix);
    if front.len() > chars.len() {
        return false;
    }
    stands_at(&chars, &front, 0)
}

/// Whether a text ends with `suffix`.
pub fn has_suffix(text: &str, suffix: &str) -> (out: bool)
    ensures
        out == suffix@.is_suffix_of(text@),
{
    let chars = chars_of(text);
    let back = chars_of(suffix);
    if back.len() > chars.len() {
        return false;
    }
    let at: usize = chars.len() - back.len();
    assert(at + back@.len() == chars@.len());
    stands_at(&chars, &back, at)
}

/// An ASCII capital letter as a small one; any other character as it is.
pub open spec fn ascii_lower(ch: char) -> char {
    if 'A' <= ch <= 'Z' {
        (ch as int + 32) as char
    } else {
        ch
    }
}

/// A text with its ASCII letters made small.
pub open spec fn lowered(text: Seq<char>) -> Seq<char> {
    Seq::new(text.len(), |i: int| ascii_lower(text[i]))
}

/// The lower case of an ASCII letter; any other character as it is.
pub fn to_lower(ch: char) -> (out: char)
    ensures
        out == ascii_lower(ch),
{
    if 'A' <= ch && ch <= 'Z' {
        (ch as u8 + 32) as char
    } else {
        ch
    }
}

/// A text with its ASCII letters made small.
pub fn lower(text: &str) -> (out: String)
    ensures
        out@ == lowered(text@),
{
    let mut out = String::new();
    for ch in it: text.chars()
        invariant
            it.seq() == text@,
            out@ == lowered(text@).take(it.index() as int),
    {
        out.push(to_lower(ch));
        assert(lowered(text@).take(it.index() as int).push(ascii_lower(ch)) =~= lowered(
            text@,
        ).take(it.index() + 1));
    }
    assert(lowered(text@).take(text@.len() as int) =~= lowered(text@));
    out
}

/// The number of characters of a text.
pub fn char_count(text: &str) -> (count: usize)
    ensures
        count == text@.len(),
{
    chars_of(text).len()
}

/// The first characters of a text, at most `count` of them.
pub open spec fn first_chars(text: Seq<char>, count: nat) -> Seq<char> {
    if text.len() <= count {
        text
    } else {
        text.take(count as int)
    }
}

/// The first characters of a text.
pub fn take_chars(text: &str, count: usize) -> (out: String)
    ensures
        out@ == first_chars(text@, count as nat),
{
    let chars = chars_of(text);
    if chars.len() <= count {
        assert(chars@.subrange(0, chars@.len() as int) =~= text@);
        text_of(&chars, 0, chars.len())
    } else {
        assert(chars@.subrange(0, count as int) =~= text@.take(count as int));
        text_of(&chars, 0, count)
    }
}

/// A text on one line, cut after `max_chars` characters; an ellipsis marks the
/// cut.
pub open spec fn shortened(text: Seq<char>, max_chars: nat) -> Seq<char> {
    let tidy = text::collapse(text);
    if tidy.len() <= max_chars {
        tidy
    } else {
        tidy.take(max_chars as int).push('…')
    }
}

/// A message on one line, with at most `max_chars` of its characters and an
/// ellipsis where some are left out.
pub fn truncate_for_brief(message: &str, max_chars: usize) -> (out: String)
    ensures
        out@ == shortened(message@, max_chars as nat),
{
    let text = normalize_message(message);
    if char_count(text.as_str()) <= max_chars {
        return text;
    }
    let mut cut = take_chars(text.as_str(), max_chars);
    cut.push('…');
    cut
}

/// A shortened message has at most one character more than was asked for, and
/// one that fits is not cut.
pub proof fn shortened_fits(text: Seq<char>, max_chars: nat)
    ensures
        shortened(text, max_chars).len() <= max_chars + 1,
        text::collapse(text).len() <= max_chars ==> shortened(text, max_chars) == text::collapse(
            text,
        ),
        text::collapse(text).len() > max_chars ==> shortened(text, max_chars).last() == '…',
{
}

/// A text without the occurrences of a character at its start.
pub open spec fn without_start(text: Seq<char>, ch: char) -> Seq<char>
    decreases text.len(),
{
    if text.len() > 0 && text[0] == ch {
        without_start(text.drop_first(), ch)
    } else {
        text
    }
}

/// A text without the occurrences of a character at its end.
pub open spec fn without_end(text: Seq<char>, ch: char) -> Seq<char>
    decreases text.len(),
{
    if text.len() > 0 && text.last() == ch {
        without_end(text.drop_last(), ch)
    } else {
        text
    }
}

/// A text without the occurrences of a character at both ends.
pub open spec fn without_ends(text: Seq<char>, ch: char) -> Seq<char> {
    without_end(without_start(text, ch), ch)
}

/// A text without the occurrences of a character at both ends.
pub fn trim_char(text: &str, ch: char) -> (out: String)
    ensures
        out@ == without_ends(text@, ch),
{
    let chars = chars_of(text);
    let mut from: usize = 0;
    assert(chars@.skip(0) =~= text@);
    while from < chars.len() && chars[from] == ch
        invariant
            from <= chars@.len(),
            without_start(text@, ch) == without_start(chars@.skip(from as int), ch),
        decreases chars@.len() - from,
    {
        assert(chars@.skip(from as int).drop_first() =~= chars@.skip(from + 1));
        from = from + 1;
    }
    let ghost start = chars@.skip(from as int);
    assert(without_start(text@, ch) == start);
    let mut to: usize = chars.len();
    assert(start =~= chars@.subrange(from as int, to as int));
    while to > from && chars[to - 1] == ch
        invariant
            from <= to <= chars@.len(),
            without_end(start, ch) == without_end(chars@.subrange(from as int, to as int), ch),
        decreases to,
    {
        assert(chars@.subrange(from as int, to as int).drop_last() =~= chars@.subrange(
            from as int,
            to - 1,
        ));
        to = to - 1;
    }
    text_of(&chars, from, to)
}

/// A text without the occurrences of a character at its end.
pub fn trim_end_char(text: &str, ch: char) -> (out: String)
    ensures
        out@ == without_end(text@, ch),
{
    let chars = chars_of(text);
    let mut to: usize = chars.len();
    assert(text@ =~= chars@.take(to as int));
    while to > 0 && chars[to - 1] == ch
        invariant
            to <= chars@.len(),
            without_end(text@, ch) == without_end(chars@.take(to as int), ch),
        decreases to,
    {
        assert(chars@.take(to as int).drop_last() =~= chars@.take(to - 1));
        to = to - 1;
    }
    assert(chars@.take(to as int) =~= chars@.subrange(0, to as int));
    text_of(&chars, 0, to)
}

/// The number of bytes of a character in UTF-8.
pub open spec fn utf8_width(ch: char) -> nat {
    if ch >= '\u{10000}' {
        4
    } else if ch >= '\u{800}' {
        3
    } else if ch >= '\u{80}' {
        2
    } else {
        1
    }
}

fn width_of(ch: char) -> (out: usize)
    ensures
        out == utf8_width(ch),
{
    if ch >= '\u{10000}' {
        4
    } else if ch >= '\u{800}' {
        3
    } else if ch >= '\u{80}' {
        2
    } else {
        1
    }
}

/// The number of bytes of a text in UTF-8.
pub open spec fn utf8_widths(text: Seq<char>) -> nat
    decreases text.len(),
{
    if text.len() == 0 {
        0
    } else {
        utf8_widths(text.drop_last()) + utf8_width(text.last())
    }
}

/// The widths of the characters add up to the number of bytes of the text in
/// UTF-8.
pub proof fn widths_are_utf8(text: Seq<char>)
    ensures
        utf8_widths(text) == vstd::utf8::encode_utf8(text).len(),
    decreases text.len(),
{
    if text.len() > 0 {
        widths_from_the_front(text);
        widths_are_utf8(text.drop_first());
        width_of_scalar(text[0]);
    }
}

proof fn width_of_scalar(ch: char)
    ensures
        vstd::utf8::encode_scalar(ch as u32).len() == utf8_width(ch),
{
    vstd::utf8::char_is_scalar(ch);
}

proof fn widths_from_the_front(text: Seq<char>)
    requires
        text.len() > 0,
    ensures
        utf8_widths(text) == utf8_width(text[0]) + utf8_widths(text.drop_first()),
    decreases text.len(),
{
    if text.len() > 1 {
        let front = text.drop_last();
        widths_from_the_front(front);
        assert(front.drop_first() =~= text.drop_first().drop_last());
        assert(text.drop_first().last() == text.last());
    } else {
        assert(text.drop_last() =~= text.drop_first());
        assert(text.drop_first().len() == 0);
    }
}

/// The start of a text that takes exactly so many bytes in UTF-8.
pub open spec fn takes_bytes(text: Seq<char>, count: nat, chars: int) -> bool {
    0 <= chars <= text.len() && utf8_widths(text.take(chars)) == count
}

/// The start of a text that takes exactly so many bytes in UTF-8; the whole
/// text where it is shorter, or where a character would be cut.
pub open spec fn first_bytes(text: Seq<char>, count: nat) -> Seq<char> {
    if exists|chars: int| takes_bytes(text, count, chars) {
        text.take(choose|chars: int| takes_bytes(text, count, chars))
    } else {
        text
    }
}

/// A longer start of a text takes more bytes.
proof fn widths_grow(text: Seq<char>, shorter: int, longer: int)
    requires
        0 <= shorter < longer <= text.len(),
    ensures
        utf8_widths(text.take(shorter)) < utf8_widths(text.take(longer)),
    decreases longer,
{
    assert(text.take(longer).drop_last() =~= text.take(longer - 1));
    if shorter < longer - 1 {
        widths_grow(text, shorter, longer - 1);
    }
}

/// The start of a text that takes exactly so many bytes in UTF-8; the whole
/// text where it is shorter, or where a character would be cut.
pub fn take_bytes(text: &str, count: usize) -> (out: String)
    ensures
        out@ == first_bytes(text@, count as nat),
{
    let chars = chars_of(text);
    let mut i: usize = 0;
    let mut left: usize = count;
    assert(text@.take(0) =~= Seq::<char>::empty());
    while i < chars.len() && left > 0
        invariant
            chars@ == text@,
            i <= chars@.len(),
            left <= count,
            utf8_widths(text@.take(i as int)) == count - left,
        decreases chars@.len() - i,
    {
        let width = width_of(chars[i]);
        proof {
            assert(text@.take(i + 1).drop_last() =~= text@.take(i as int));
        }
        if width > left {
            proof {
                assert forall|n: int| !takes_bytes(text@, count as nat, n) by {
                    if takes_bytes(text@, count as nat, n) {
                        if n < i {
                            widths_grow(text@, n, i as int);
                        } else if n > i + 1 {
                            widths_grow(text@, i + 1, n);
                        }
                    }
                }
            }
            return text.to_owned();
        }
        left = left - width;
        i = i + 1;
    }
    proof {
        if left == 0 {
            assert(takes_bytes(text@, count as nat, i as int));
            let n = choose|n: int| takes_bytes(text@, count as nat, n);
            if n < i {
                widths_grow(text@, n, i as int);
            } else if n > i {
                widths_grow(text@, i as int, n);
            }
        } else {
            assert forall|n: int| !takes_bytes(text@, count as nat, n) by {
                if takes_bytes(text@, count as nat, n) && n < i {
                    widths_grow(text@, n, i as int);
                }
            }
        }
        assert(text@.take(text@.len() as int) =~= text@);
        assert(text@.take(i as int) =~= chars@.subrange(0, i as int));
    }
    text_of(&chars, 0, i)
}

// ---------------------------------------------------------------------- order

/// The order of texts by their characters, a prefix before its extensions.
pub open spec fn text_before(a: Seq<char>, b: Seq<char>) -> bool
    decreases a.len(),
{
    if b.len() == 0 {
        false
    } else if a.len() == 0 {
        true
    } else if a[0] != b[0] {
        a[0] < b[0]
    } else {
        text_before(a.drop_first(), b.drop_first())
    }
}

/// Whether `a` comes strictly before `b`.
pub fn comes_before(a: &str, b: &str) -> (out: bool)
    ensures
        out == text_before(a@, b@),
{
    let left = chars_of(a);
    let right = chars_of(b);
    let mut i: usize = 0;
    assert(left@.skip(0) =~= a@);
    assert(right@.skip(0) =~= b@);
    while i < left.len() && i < right.len()
        invariant
            i <= left@.len(),
            i <= right@.len(),
            text_before(a@, b@) == text_before(left@.skip(i as int), right@.skip(i as int)),
        decreases left@.len() - i,
    {
        let ghost l = left@.skip(i as int);
        let ghost r = right@.skip(i as int);
        assert(l[0] == left@[i as int] && r[0] == right@[i as int]);
        if left[i] != right[i] {
            return left[i] < right[i];
        }
        assert(l.drop_first() =~= left@.skip(i + 1));
        assert(r.drop_first() =~= right@.skip(i + 1));
        i = i + 1;
    }
    i < right.len()
}

/// No text comes before itself.
pub proof fn text_before_is_irreflexive(a: Seq<char>)
    ensures
        !text_before(a, a),
    decreases a.len(),
{
    if a.len() > 0 {
        text_before_is_irreflexive(a.drop_first());
    }
}

/// Of two different texts one comes before the other.
pub proof fn text_before_is_total(a: Seq<char>, b: Seq<char>)
    ensures
        a == b || text_before(a, b) || text_before(b, a),
    decreases a.len(),
{
    if a.len() == 0 || b.len() == 0 {
        if a.len() == b.len() {
            assert(a =~= b);
        }
    } else if a[0] == b[0] {
        text_before_is_total(a.drop_first(), b.drop_first());
        if a.drop_first() == b.drop_first() {
            assert(a =~= seq![a[0]] + a.drop_first());
            assert(b =~= seq![b[0]] + b.drop_first());
        }
    }
}

/// The order of texts is transitive.
pub proof fn text_before_is_transitive(a: Seq<char>, b: Seq<char>, c: Seq<char>)
    requires
        text_before(a, b),
        text_before(b, c),
    ensures
        text_before(a, c),
    decreases a.len(),
{
    if a.len() > 0 && a[0] == b[0] && b[0] == c[0] {
        text_before_is_transitive(a.drop_first(), b.drop_first(), c.drop_first());
    }
}

/// A text holds another one exactly where it is made up of it with something in
/// front and something behind.
pub proof fn text_stands_between_others(text: Seq<char>, needle: Seq<char>)
    ensures
        contains(text, needle) <==> exists|front: Seq<char>, back: Seq<char>|
            text == #[trigger] (front + needle + back),
{
    if contains(text, needle) {
        let at = choose|at: int| occurs_at(text, needle, at);
        let front = text.take(at);
        let back = text.skip(at + needle.len());
        assert(text =~= front + text.subrange(at, at + needle.len()) + back);
        assert(text == front + needle + back);
    }
    if exists|front: Seq<char>, back: Seq<char>| text == #[trigger] (front + needle + back) {
        let (front, back) = choose|front: Seq<char>, back: Seq<char>|
            text == #[trigger] (front + needle + back);
        let at = front.len() as int;
        assert(text.subrange(at, at + needle.len()) =~= needle);
        assert(occurs_at(text, needle, at));
    }
}

/// Lower case changes the 26 capital letters alone, each to the small letter at
/// its place.
pub proof fn lower_case_changes_capitals(text: Seq<char>, at: int)
    requires
        0 <= at < text.len(),
    ensures
        lowered(text).len() == text.len(),
        65 <= text[at] as int <= 90 ==> lowered(text)[at] as int == text[at] as int + 32,
        !(65 <= text[at] as int <= 90) ==> lowered(text)[at] == text[at],
{
}

/// A message that is cut is cut behind exactly as many characters as are allowed,
/// and an ellipsis stands in place of the rest.
pub proof fn cut_message_is_a_start(text: Seq<char>, max_chars: nat, front: Seq<char>, back: Seq<
    char,
>)
    requires
        text::collapse(text) == front + back,
        front.len() == max_chars,
    ensures
        back.len() == 0 ==> shortened(text, max_chars) == front,
        back.len() > 0 ==> shortened(text, max_chars) == front.push('…'),
        first_chars(front + back, max_chars) == front,
{
    assert((front + back).take(max_chars as int) =~= front);
    if back.len() == 0 {
        assert(front + back =~= front);
    }
}

/// A message that is short enough stays whole.
pub proof fn short_message_stays_whole(text: Seq<char>, max_chars: nat)
    requires
        text.len() <= max_chars,
    ensures
        first_chars(text, max_chars) == text,
{
}

proof fn starts_are_skipped(count: nat, ch: char, text: Seq<char>)
    requires
        text.len() == 0 || text[0] != ch,
    ensures
        without_start(Seq::new(count, |i: int| ch) + text, ch) == text,
    decreases count,
{
    let whole = Seq::new(count, |i: int| ch) + text;
    if count > 0 {
        let fewer = (count - 1) as nat;
        starts_are_skipped(fewer, ch, text);
        assert(whole.drop_first() =~= Seq::new(fewer, |i: int| ch) + text);
    } else {
        assert(whole =~= text);
    }
}

proof fn ends_are_cut(count: nat, ch: char, text: Seq<char>)
    requires
        text.len() == 0 || text.last() != ch,
    ensures
        without_end(text + Seq::new(count, |i: int| ch), ch) == text,
    decreases count,
{
    let whole = text + Seq::new(count, |i: int| ch);
    if count > 0 {
        let fewer = (count - 1) as nat;
        ends_are_cut(fewer, ch, text);
        assert(whole.drop_last() =~= text + Seq::new(fewer, |i: int| ch));
    } else {
        assert(whole =~= text);
    }
}

/// A character is taken away at both ends, however often it stands there, and what
/// is between them stays.
pub proof fn character_is_taken_away_at_the_ends(
    before: nat,
    text: Seq<char>,
    behind: nat,
    ch: char,
)
    requires
        text.len() > 0,
        text[0] != ch,
        text.last() != ch,
    ensures
        without_ends(
            Seq::new(before, |i: int| ch) + text + Seq::new(behind, |i: int| ch),
            ch,
        ) == text,
{
    let back = Seq::new(behind, |i: int| ch);
    let front = Seq::new(before, |i: int| ch);
    assert(front + text + back =~= front + (text + back));
    starts_are_skipped(before, ch, text + back);
    ends_are_cut(behind, ch, text);
}

/// Texts are ordered by the first character in which they differ; a text comes
/// before every longer one that starts with it.
pub proof fn first_difference_orders_texts(
    front: Seq<char>,
    a: Seq<char>,
    b: Seq<char>,
)
    ensures
        b.len() > 0 ==> text_before(front, front + b) && !text_before(front + b, front),
        a.len() > 0 && b.len() > 0 && a[0] != b[0] ==> text_before(front + a, front + b) == (a[0]
            as int <= b[0] as int),
    decreases front.len(),
{
    if front.len() > 0 {
        first_difference_orders_texts(front.drop_first(), a, b);
        assert((front + a).drop_first() =~= front.drop_first() + a);
        assert((front + b).drop_first() =~= front.drop_first() + b);
    } else {
        assert(front + a =~= a);
        assert(front + b =~= b);
        assert(front =~= Seq::<char>::empty());
    }
}

proof fn plain_text_has_one_byte_each(text: Seq<char>)
    requires
        forall|i: int| 0 <= i < text.len() ==> #[trigger] text[i] < '\u{80}',
    ensures
        utf8_widths(text) == text.len(),
    decreases text.len(),
{
    if text.len() > 0 {
        let front = text.drop_last();
        assert forall|i: int| 0 <= i < front.len() implies #[trigger] front[i] < '\u{80}' by {
            assert(text[i] < '\u{80}');
        }
        plain_text_has_one_byte_each(front);
        assert(text[text.len() - 1] < '\u{80}');
    }
}

/// The first bytes of a text are its first characters where these are ASCII, and
/// a text that is shorter stays whole.
pub proof fn first_bytes_of_plain_text(front: Seq<char>, rest: Seq<char>, more: nat)
    requires
        forall|i: int| 0 <= i < front.len() ==> #[trigger] front[i] < '\u{80}',
    ensures
        first_bytes(front + rest, front.len()) == front,
        more > 0 ==> first_bytes(front, front.len() + more) == front,
{
    let whole = front + rest;
    let size = front.len() as int;
    plain_text_has_one_byte_each(front);
    assert(whole.take(size) =~= front);
    assert(takes_bytes(whole, front.len(), size));
    let chosen = choose|chars: int| takes_bytes(whole, front.len(), chars);
    assert(takes_bytes(whole, front.len(), chosen));
    if chosen < size {
        widths_grow(whole, chosen, size);
    } else if chosen > size {
        widths_grow(whole, size, chosen);
    }
    let count = front.len() + more;
    if more > 0 && (exists|chars: int| takes_bytes(front, count, chars)) {
        let other = choose|chars: int| takes_bytes(front, count, chars);
        assert(front.take(size) =~= front);
        if other < size {
            widths_grow(front, other, size);
        }
    }
}

} // verus!
