//! Lists of texts: joining them, and cutting a text into lines.

use vstd::prelude::*;

use crate::text;
use crate::text::chars_of;
use crate::text::no_texts;
use crate::text::push_text;
use crate::text::same_text;
use crate::text::text_of;

verus! {

/// The texts of a list, one behind the other.
pub open spec fn concat(items: Seq<Seq<char>>) -> Seq<char>
    decreases items.len(),
{
    if items.len() == 0 {
        Seq::empty()
    } else {
        concat(items.drop_last()) + items.last()
    }
}

/// The texts of a list with a separator between each two of them.
pub open spec fn joined(items: Seq<Seq<char>>, separator: Seq<char>) -> Seq<char>
    decreases items.len(),
{
    if items.len() == 0 {
        Seq::empty()
    } else if items.len() == 1 {
        items[0]
    } else {
        joined(items.drop_last(), separator) + separator + items.last()
    }
}

/// The texts of a list with a separator between each two of them.
pub fn join(items: &Vec<String>, separator: &str) -> (out: String)
    ensures
        out@ == joined(text::texts(items@), separator@),
{
    let mut out = String::new();
    let ghost all = text::texts(items@);
    for i in 0..items.len()
        invariant
            all == text::texts(items@),
            out@ == joined(all.take(i as int), separator@),
    {
        if i > 0 {
            out.append(separator);
        }
        out.append(items[i].as_str());
        assert(all.take(i + 1).drop_last() =~= all.take(i as int));
        if i == 0 {
            assert(out@ =~= all[0]);
        }
    }
    assert(all.take(all.len() as int) =~= all);
    out
}

// ------------------------------------------------------------------- segments

/// A text cut behind every line feed. Each piece keeps its line feed; the last
/// one may lack it.
pub open spec fn segments(text: Seq<char>) -> Seq<Seq<char>>
    decreases text.len(),
{
    if text.len() == 0 {
        Seq::empty()
    } else {
        let rest = segments(text.drop_last());
        if rest.len() == 0 || text.drop_last().last() == '\n' {
            rest.push(seq![text.last()])
        } else {
            rest.drop_last().push(rest.last().push(text.last()))
        }
    }
}

/// The pieces of a text, put together again, are the text.
pub proof fn segments_concat(text: Seq<char>)
    ensures
        concat(segments(text)) == text,
        text.len() > 0 ==> segments(text).len() > 0,
    decreases text.len(),
{
    if text.len() > 0 {
        let front = text.drop_last();
        segments_concat(front);
        let rest = segments(front);
        let all = segments(text);
        if rest.len() == 0 || front.last() == '\n' {
            assert(all.drop_last() =~= rest);
            assert(concat(all) =~= text);
        } else {
            assert(all.drop_last() =~= rest.drop_last());
            assert(all.last() == rest.last().push(text.last()));
            assert(concat(rest) == concat(rest.drop_last()) + rest.last());
            assert(concat(all) == concat(rest.drop_last()) + rest.last().push(text.last()));
            assert(concat(all) =~= concat(rest).push(text.last()));
            assert(front.push(text.last()) =~= text);
        }
    }
}

/// A line feed stands in a piece at its very end alone; every piece but the
/// last ends with one.
pub open spec fn well_cut(pieces: Seq<Seq<char>>) -> bool {
    &&& forall|i: int| 0 <= i < pieces.len() ==> (#[trigger] pieces[i]).len() > 0
    &&& forall|i: int| 0 <= i < pieces.len() - 1 ==> (#[trigger] pieces[i]).last() == '\n'
    &&& forall|i: int, j: int|
        0 <= i < pieces.len() && 0 <= j < pieces[i].len() - 1 ==> #[trigger] pieces[i][j] != '\n'
}

/// Cutting a text gives pieces with a line feed at their end alone.
pub proof fn segments_are_well_cut(text: Seq<char>)
    ensures
        well_cut(segments(text)),
        text.len() > 0 ==> segments(text).len() > 0 && segments(text).last().last()
            == text.last(),
    decreases text.len(),
{
    if text.len() > 0 {
        segments_are_well_cut(text.drop_last());
    }
}

/// Pieces with a line feed at their end alone are what their text is cut into.
pub proof fn cutting_undoes_putting_together(pieces: Seq<Seq<char>>)
    requires
        well_cut(pieces),
    ensures
        segments(concat(pieces)) == pieces,
    decreases concat(pieces).len(),
{
    let text = concat(pieces);
    if pieces.len() > 0 {
        let front = pieces.drop_last();
        let last = pieces.last();
        assert(pieces[pieces.len() - 1].len() > 0);
        assert(text.last() == last.last());
        if last.len() == 1 {
            assert(text.drop_last() =~= concat(front));
            assert forall|i: int, j: int|
                0 <= i < front.len() && 0 <= j < front[i].len() - 1 implies #[trigger] front[i][j]
                != '\n' by {
                assert(pieces[i][j] != '\n');
            }
            assert forall|i: int| 0 <= i < front.len() implies (#[trigger] front[i]).len() > 0 by {
                assert(pieces[i].len() > 0);
            }
            assert forall|i: int| 0 <= i < front.len() - 1 implies (#[trigger] front[i]).last()
                == '\n' by {
                assert(pieces[i].last() == '\n');
            }
            cutting_undoes_putting_together(front);
            if front.len() > 0 {
                assert(pieces[front.len() - 1].last() == '\n');
                assert(front.last().len() > 0);
                assert(concat(front).last() == front.last().last());
            }
            assert(last =~= seq![text.last()]);
            assert(segments(text) =~= pieces);
        } else {
            let shorter = front.push(last.drop_last());
            assert(shorter.drop_last() =~= front);
            assert(concat(shorter) =~= text.drop_last());
            assert forall|i: int, j: int|
                0 <= i < shorter.len() && 0 <= j < shorter[i].len() - 1 implies
                #[trigger] shorter[i][j] != '\n' by {
                assert(pieces[i][j] != '\n');
            }
            assert forall|i: int| 0 <= i < shorter.len() implies (#[trigger] shorter[i]).len() > 0 by {
                assert(pieces[i].len() > 0);
            }
            assert forall|i: int| 0 <= i < shorter.len() - 1 implies (#[trigger] shorter[i]).last()
                == '\n' by {
                assert(pieces[i].last() == '\n');
            }
            cutting_undoes_putting_together(shorter);
            assert(pieces[pieces.len() - 1][last.len() - 2] != '\n');
            assert(text.drop_last().last() == last[last.len() - 2]);
            assert(last.drop_last().push(text.last()) =~= last);
            assert(segments(text) =~= pieces);
        }
    }
}

/// Cuts a text behind every line feed.
pub fn split_segments(contents: &str) -> (out: Vec<String>)
    ensures
        text::texts(out@) == segments(contents@),
{
    let chars = chars_of(contents);
    let mut out = no_texts();
    let mut current = String::new();
    let mut open = false;
    let ghost all = chars@;
    assert(all.take(0) =~= Seq::<char>::empty());
    for i in 0..chars.len()
        invariant
            all == chars@,
            open == (i > 0 && all[i - 1] != '\n'),
            open ==> segments(all.take(i as int)) == text::texts(out@).push(current@),
            !open ==> segments(all.take(i as int)) == text::texts(out@) && current@.len() == 0,
    {
        let ch = chars[i];
        let ghost done = all.take(i as int);
        let ghost next = all.take(i + 1);
        let ghost before = text::texts(out@);
        let ghost part = current@;
        assert(next.drop_last() =~= done);
        proof {
            segments_are_well_cut(done);
            if i > 0 {
                assert(done.last() == all[i - 1]);
            }
        }
        current.push(ch);
        proof {
            if open {
                assert(before.push(part).drop_last() =~= before);
                assert(segments(next) == before.push(part.push(ch)));
            } else {
                assert(current@ =~= seq![ch]);
                assert(segments(next) == before.push(seq![ch]));
            }
        }
        assert(segments(next) == before.push(current@));
        if ch == '\n' {
            push_text(&mut out, current);
            current = String::new();
            open = false;
        } else {
            open = true;
        }
    }
    assert(all.take(all.len() as int) =~= all);
    if open {
        push_text(&mut out, current);
    }
    out
}

/// The length of the line ending of a piece: carriage return and line feed, a
/// line feed, or none.
pub open spec fn ending_len(line: Seq<char>) -> nat {
    if line.len() > 1 && line.last() == '\n' && line[line.len() - 2] == '\r' {
        2
    } else if line.len() > 0 && line.last() == '\n' {
        1
    } else {
        0
    }
}

/// A piece without its line ending.
pub open spec fn line_body(line: Seq<char>) -> Seq<char> {
    line.take(line.len() - ending_len(line))
}

/// The line ending of a piece.
pub open spec fn line_ending(line: Seq<char>) -> Seq<char> {
    line.skip(line.len() - ending_len(line))
}

/// A line and its ending: `\r\n`, `\n` or nothing.
pub fn split_line_ending(line: &str) -> (parts: (String, String))
    ensures
        parts.0@ == line_body(line@),
        parts.1@ == line_ending(line@),
        parts.0@ + parts.1@ == line@,
{
    let chars = chars_of(line);
    let size: usize = chars.len();
    let ending: usize = if size > 1 && chars[size - 1] == '\n' && chars[size - 2] == '\r' {
        2
    } else if size > 0 && chars[size - 1] == '\n' {
        1
    } else {
        0
    };
    let body = text_of(&chars, 0, size - ending);
    let rest = text_of(&chars, size - ending, size);
    assert(body@ =~= line_body(line@));
    assert(rest@ =~= line_ending(line@));
    assert(body@ + rest@ =~= line@);
    (body, rest)
}

/// The lines of a text, without their endings.
pub open spec fn lines_of(text: Seq<char>) -> Seq<Seq<char>> {
    let pieces = segments(text);
    Seq::new(pieces.len(), |i: int| line_body(pieces[i]))
}

/// The lines of a text, without their endings.
pub fn lines(contents: &str) -> (out: Vec<String>)
    ensures
        text::texts(out@) == lines_of(contents@),
{
    let pieces = split_segments(contents);
    let mut out = no_texts();
    let ghost all = lines_of(contents@);
    for i in 0..pieces.len()
        invariant
            text::texts(pieces@) == segments(contents@),
            all == lines_of(contents@),
            text::texts(out@) == all.take(i as int),
    {
        let (body, rest) = split_line_ending(pieces[i].as_str());
        assert(text::texts(pieces@)[i as int] == pieces@[i as int]@);
        push_text(&mut out, body);
        assert(all.take(i as int).push(all[i as int]) =~= all.take(i + 1));
    }
    assert(all.take(all.len() as int) =~= all);
    out
}

// ------------------------------------------------------------------ membership

/// Whether a list holds a text.
pub fn holds_text(items: &Vec<String>, item: &str) -> (out: bool)
    ensures
        out == text::texts(items@).contains(item@),
{
    for i in 0..items.len()
        invariant
            forall|j: int| 0 <= j < i ==> text::texts(items@)[j] != item@,
    {
        if same_text(items[i].as_str(), item) {
            assert(text::texts(items@)[i as int] == item@);
            return true;
        }
    }
    false
}

/// Adds a text at the end of a list that does not hold it yet.
pub fn push_unique(items: &mut Vec<String>, item: String)
    ensures
        text::texts(final(items)@) == text::with_unique(text::texts(old(items)@), item@),
{
    reveal(text::with_unique);
    if !holds_text(items, item.as_str()) {
        push_text(items, item);
    }
}

/// Puts a list in the opposite order.
pub fn reversed(items: &Vec<String>) -> (out: Vec<String>)
    ensures
        text::texts(out@) == text::texts(items@).reverse(),
{
    let mut out = no_texts();
    let ghost all = text::texts(items@).reverse();
    let mut i: usize = items.len();
    while i > 0
        invariant
            i <= items@.len(),
            all == text::texts(items@).reverse(),
            text::texts(out@) == all.take(items@.len() - i),
        decreases i,
    {
        i = i - 1;
        push_text(&mut out, items[i].clone());
        assert(all.take(items@.len() - i - 1).push(items@[i as int]@) =~= all.take(
            items@.len() - i,
        ));
    }
    assert(all.take(all.len() as int) =~= all);
    out
}

/// No text twice.
pub open spec fn distinct(items: Seq<Seq<char>>) -> bool {
    forall|i: int, j: int| 0 <= i < j < items.len() ==> #[trigger] items[i] != #[trigger] items[j]
}

/// The texts of a list, each where it occurs first.
pub open spec fn first_occurrences(items: Seq<Seq<char>>) -> Seq<Seq<char>>
    decreases items.len(),
{
    if items.len() == 0 {
        Seq::empty()
    } else {
        text::with_unique(first_occurrences(items.drop_last()), items.last())
    }
}

/// The texts of a list, each where it occurs first.
pub fn keep_first_occurrences(items: &Vec<String>) -> (out: Vec<String>)
    ensures
        text::texts(out@) == first_occurrences(text::texts(items@)),
{
    let mut out = no_texts();
    let ghost all = text::texts(items@);
    assert(all.take(0) =~= Seq::<Seq<char>>::empty());
    for i in 0..items.len()
        invariant
            all == text::texts(items@),
            text::texts(out@) == first_occurrences(all.take(i as int)),
    {
        assert(all.take(i + 1).drop_last() =~= all.take(i as int));
        assert(all[i as int] == items@[i as int]@);
        push_unique(&mut out, items[i].clone());
    }
    assert(all.take(all.len() as int) =~= all);
    out
}

/// Keeping first occurrences leaves no text twice and loses none.
pub proof fn first_occurrences_laws(items: Seq<Seq<char>>)
    ensures
        distinct(first_occurrences(items)),
        forall|item: Seq<char>|
            #[trigger] first_occurrences(items).contains(item) <==> items.contains(item),
    decreases items.len(),
{
    reveal(text::with_unique);
    if items.len() > 0 {
        let front = items.drop_last();
        let kept = first_occurrences(front);
        let out = first_occurrences(items);
        first_occurrences_laws(front);
        assert forall|i: int, j: int| 0 <= i < j < out.len() implies #[trigger] out[i]
            != #[trigger] out[j] by {
            if j == kept.len() {
                assert(kept.contains(kept[i]));
            }
        }
        assert forall|item: Seq<char>| #[trigger] out.contains(item) <==> items.contains(item) by {
            if items.contains(item) {
                let i = choose|i: int| 0 <= i < items.len() && items[i] == item;
                if i < front.len() {
                    assert(front[i] == item);
                    assert(kept.contains(item));
                    let k = choose|k: int| 0 <= k < kept.len() && kept[k] == item;
                    assert(out[k] == item);
                } else if !kept.contains(items.last()) {
                    assert(out[kept.len() as int] == item);
                }
            }
            if out.contains(item) {
                let k = choose|k: int| 0 <= k < out.len() && out[k] == item;
                if k < kept.len() {
                    assert(kept[k] == item);
                    assert(kept.contains(item));
                    let i = choose|i: int| 0 <= i < front.len() && front[i] == item;
                    assert(items[i] == item);
                } else {
                    assert(items[items.len() - 1] == item);
                }
            }
        }
    } else {
        assert(first_occurrences(items) =~= items);
    }
}

/// Joined texts have the separator in front of each but the first.
pub proof fn joining_separates_texts(
    items: Seq<Seq<char>>,
    item: Seq<char>,
    separator: Seq<char>,
)
    ensures
        joined(Seq::empty(), separator).len() == 0,
        items.len() == 0 ==> joined(items.push(item), separator) == item,
        items.len() > 0 ==> joined(items.push(item), separator) == joined(items, separator)
            + separator + item,
{
    assert(items.push(item).drop_last() =~= items);
}

/// A line is its body and its ending, which is a line feed, a carriage return and
/// a line feed, or nothing; the body of a line holds no line feed.
pub proof fn line_is_body_and_ending(body: Seq<char>)
    requires
        forall|i: int| 0 <= i < body.len() ==> #[trigger] body[i] != '\n',
    ensures
        line_body(body) == body,
        line_ending(body).len() == 0,
        line_body(body + seq!['\r', '\n']) == body,
        line_ending(body + seq!['\r', '\n']) == seq!['\r', '\n'],
        body.len() == 0 || body.last() != '\r' ==> line_body(body.push('\n')) == body
            && line_ending(body.push('\n')) == seq!['\n'],
{
    assert(line_body(body) =~= body);
    let long = body + seq!['\r', '\n'];
    assert(long[long.len() - 2] == '\r');
    assert(line_body(long) =~= body);
    assert(line_ending(long) =~= seq!['\r', '\n']);
    let short = body.push('\n');
    if body.len() == 0 || body.last() != '\r' {
        if body.len() > 0 {
            assert(short[short.len() - 2] == body.last());
        }
        assert(line_body(short) =~= body);
        assert(line_ending(short) =~= seq!['\n']);
    }
}

/// Texts without line ends of their own, each with a line feed behind it, are the
/// lines of what they make up.
pub proof fn lines_are_read_back(items: Seq<Seq<char>>)
    requires
        forall|i: int, j: int|
            0 <= i < items.len() && 0 <= j < items[i].len() ==> #[trigger] items[i][j] != '\n'
                && items[i][j] != '\r',
    ensures
        lines_of(concat(Seq::new(items.len(), |i: int| items[i].push('\n')))) == items,
{
    let pieces = Seq::new(items.len(), |i: int| items[i].push('\n'));
    assert forall|i: int, j: int| 0 <= i < pieces.len() && 0 <= j < pieces[i].len() - 1 implies
        #[trigger] pieces[i][j] != '\n' by {
        assert(pieces[i][j] == items[i][j]);
    }
    cutting_undoes_putting_together(pieces);
    let out = lines_of(concat(pieces));
    assert forall|i: int| 0 <= i < items.len() implies #[trigger] out[i] == items[i] by {
        let body = items[i];
        assert forall|j: int| 0 <= j < body.len() implies #[trigger] body[j] != '\n' by {
            assert(items[i][j] != '\n');
        }
        if body.len() > 0 {
            assert(items[i][body.len() - 1] != '\n' && items[i][body.len() - 1] != '\r');
        }
        line_is_body_and_ending(body);
    }
    assert(out =~= items);
}

} // verus!
