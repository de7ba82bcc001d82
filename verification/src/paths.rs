//! Paths as texts, compared by their components.

use vstd::prelude::*;

use crate::text;
use crate::text::chars_of;
use crate::text::no_texts;
use crate::text::push_text;
use crate::text::same_text;

verus! {

/// What stands between the slashes of a path, with what stands before the first
/// and behind the last of them.
pub open spec fn slash_pieces(path: Seq<char>) -> Seq<Seq<char>>
    decreases path.len(),
{
    if path.len() == 0 {
        seq![Seq::empty()]
    } else {
        let front = slash_pieces(path.drop_last());
        if path.last() == '/' {
            front.push(Seq::empty())
        } else {
            front.drop_last().push(front.last().push(path.last()))
        }
    }
}

/// Whether a piece is a component: it is not empty, and it is a single dot only
/// where a path starts with it.
pub open spec fn is_component(piece: Seq<char>, at: int) -> bool {
    piece.len() > 0 && (piece == seq!['.'] ==> at == 0)
}

/// The components among the pieces of a path.
pub open spec fn components_among(pieces: Seq<Seq<char>>) -> Seq<Seq<char>>
    decreases pieces.len(),
{
    if pieces.len() == 0 {
        Seq::empty()
    } else if is_component(pieces.last(), pieces.len() - 1) {
        components_among(pieces.drop_last()).push(pieces.last())
    } else {
        components_among(pieces.drop_last())
    }
}

/// The root, where a path starts there.
pub open spec fn root_of(path: Seq<char>) -> Seq<Seq<char>> {
    if path.len() > 0 && path[0] == '/' {
        seq![seq!['/']]
    } else {
        Seq::empty()
    }
}

/// The components of a path, as Unix has them: the root, where the path starts
/// there, and the names between the slashes. Repeated slashes, a slash at the end
/// and single dots behind the start do not count.
pub open spec fn components(path: Seq<char>) -> Seq<Seq<char>> {
    root_of(path) + components_among(slash_pieces(path))
}

/// Two paths are the same: they have the same components.
pub open spec fn same_path(a: Seq<char>, b: Seq<char>) -> bool {
    components(a) == components(b)
}

proof fn there_is_a_piece(path: Seq<char>)
    ensures
        slash_pieces(path).len() > 0,
    decreases path.len(),
{
    if path.len() > 0 {
        there_is_a_piece(path.drop_last());
    }
}

fn counts(piece: &str, at_start: bool) -> (out: bool)
    ensures
        at_start ==> out == is_component(piece@, 0),
        !at_start ==> forall|at: int| at > 0 ==> out == #[trigger] is_component(piece@, at),
{
    proof {
        reveal_strlit(".");
        assert("."@ =~= seq!['.']);
    }
    !piece.is_empty() && (at_start || !same_text(piece, "."))
}

/// The components of a path.
pub fn path_components(path: &str) -> (out: Vec<String>)
    ensures
        text::texts(out@) == components(path@),
{
    let chars = chars_of(path);
    let mut found = no_texts();
    if chars.len() > 0 && chars[0] == '/' {
        let mut root = String::new();
        root.push('/');
        assert(root@ =~= seq!['/']);
        push_text(&mut found, root);
    }
    let ghost root = root_of(path@);
    assert(text::texts(found@) =~= root);
    let mut piece = String::new();
    let mut first = true;
    let ghost mut done = Seq::<Seq<char>>::empty();
    assert(chars@.take(0) =~= Seq::<char>::empty());
    assert(slash_pieces(chars@.take(0)) =~= done.push(piece@));
    assert(root + components_among(done) =~= root);
    for i in 0..chars.len()
        invariant
            chars@ == path@,
            first == (done.len() == 0),
            slash_pieces(chars@.take(i as int)) == done.push(piece@),
            text::texts(found@) == root + components_among(done),
    {
        let ch = chars[i];
        assert(chars@.take(i + 1).drop_last() =~= chars@.take(i as int));
        assert(done.push(piece@).drop_last() =~= done);
        if ch == '/' {
            proof {
                done = done.push(piece@);
            }
            if counts(piece.as_str(), first) {
                push_text(&mut found, piece);
            }
            assert(text::texts(found@) =~= root + components_among(done));
            piece = String::new();
            first = false;
        } else {
            piece.push(ch);
        }
    }
    assert(chars@.take(chars@.len() as int) =~= chars@);
    assert(done.push(piece@).drop_last() =~= done);
    if counts(piece.as_str(), first) {
        push_text(&mut found, piece);
    }
    assert(text::texts(found@) =~= components(path@));
    found
}

/// Whether two paths are the same.
pub fn is_same_path(a: &str, b: &str) -> (out: bool)
    ensures
        out == same_path(a@, b@),
{
    let left = path_components(a);
    let right = path_components(b);
    let ghost here = text::texts(left@);
    let ghost there = text::texts(right@);
    if left.len() != right.len() {
        assert(here.len() != there.len());
        return false;
    }
    for i in 0..left.len()
        invariant
            left@.len() == right@.len(),
            here == text::texts(left@) && here == components(a@),
            there == text::texts(right@) && there == components(b@),
            forall|j: int| 0 <= j < i ==> here[j] == there[j],
    {
        if !same_text(left[i].as_str(), right[i].as_str()) {
            assert(here[i as int] != there[i as int]);
            return false;
        }
    }
    assert(here =~= there);
    true
}

/// A slash at the end of a path that is not empty does not count, nor does a
/// single dot behind it.
pub proof fn slash_at_the_end_does_not_count(path: Seq<char>)
    requires
        path.len() > 0,
    ensures
        same_path(path.push('/'), path),
        same_path(path.push('/').push('.'), path),
{
    let pieces = slash_pieces(path);
    there_is_a_piece(path);
    let slashed = path.push('/');
    let dotted = slashed.push('.');
    assert(slashed.drop_last() =~= path);
    assert(dotted.drop_last() =~= slashed);
    assert(slash_pieces(slashed) == pieces.push(Seq::empty()));
    assert(pieces.push(Seq::empty()).drop_last() =~= pieces);
    assert(slash_pieces(dotted) =~= pieces.push(Seq::<char>::empty().push('.')));
    assert(pieces.push(Seq::<char>::empty().push('.')).drop_last() =~= pieces);
    assert(Seq::<char>::empty().push('.') =~= seq!['.']);
}

/// Two slashes in a row count as one.
pub proof fn repeated_slashes_count_once(front: Seq<char>, rest: Seq<char>)
    ensures
        same_path(front + seq!['/', '/'] + rest, front + seq!['/'] + rest),
{
    slashes_in_front(front, rest);
}

proof fn slashes_in_front(front: Seq<char>, rest: Seq<char>)
    ensures
        ({
            let long = slash_pieces(front + seq!['/', '/'] + rest);
            let short = slash_pieces(front + seq!['/'] + rest);
            &&& long.len() == short.len() + 1
            &&& short.len() > 1
            &&& long.last() == short.last()
            &&& components_among(long.drop_last()) == components_among(short.drop_last())
            &&& components_among(long) == components_among(short)
        }),
    decreases rest.len(),
{
    let longer = front + seq!['/', '/'] + rest;
    let shorter = front + seq!['/'] + rest;
    let long = slash_pieces(longer);
    let short = slash_pieces(shorter);
    if rest.len() == 0 {
        let pieces = slash_pieces(front);
        there_is_a_piece(front);
        assert(longer.drop_last() =~= front + seq!['/']);
        assert(longer.drop_last().drop_last() =~= front);
        assert(shorter.drop_last() =~= front);
        assert(short == pieces.push(Seq::empty()));
        assert(slash_pieces(longer.drop_last()) == pieces.push(Seq::empty()));
        assert(long == short.push(Seq::empty()));
        assert(long.drop_last() =~= short);
        assert(short.drop_last() =~= pieces);
    } else {
        let part = rest.drop_last();
        slashes_in_front(front, part);
        let longer_part = front + seq!['/', '/'] + part;
        let shorter_part = front + seq!['/'] + part;
        assert(longer.drop_last() =~= longer_part);
        assert(shorter.drop_last() =~= shorter_part);
        let long_part = slash_pieces(longer_part);
        let short_part = slash_pieces(shorter_part);
        if rest.last() == '/' {
            assert(long.drop_last() =~= long_part);
            assert(short.drop_last() =~= short_part);
        } else {
            assert(long.drop_last() =~= long_part.drop_last());
            assert(short.drop_last() =~= short_part.drop_last());
        }
    }
}

proof fn name_is_one_piece(path: Seq<char>, name: Seq<char>)
    requires
        forall|i: int| 0 <= i < name.len() ==> #[trigger] name[i] != '/',
    ensures
        slash_pieces(path.push('/') + name) == slash_pieces(path).push(name),
    decreases name.len(),
{
    let whole = path.push('/') + name;
    if name.len() == 0 {
        assert(whole =~= path.push('/'));
        assert(whole.drop_last() =~= path);
        assert(name =~= Seq::<char>::empty());
    } else {
        let front = name.drop_last();
        name_is_one_piece(path, front);
        assert(whole.drop_last() =~= path.push('/') + front);
        assert(name[name.len() - 1] != '/');
        let pieces = slash_pieces(path);
        assert(pieces.push(front).drop_last() =~= pieces);
        assert(front.push(name.last()) =~= name);
    }
}

/// A name behind a path is one more component of it: any name without a slash, but
/// for a single dot.
pub proof fn name_behind_a_path_is_its_last_component(path: Seq<char>, name: Seq<char>)
    requires
        path.len() > 0,
        name.len() > 0,
        name != seq!['.'],
        forall|i: int| 0 <= i < name.len() ==> #[trigger] name[i] != '/',
    ensures
        components(path.push('/') + name) == components(path).push(name),
        !same_path(path.push('/') + name, path),
{
    let pieces = slash_pieces(path);
    name_is_one_piece(path, name);
    assert(pieces.push(name).drop_last() =~= pieces);
    let whole = path.push('/') + name;
    assert(whole[0] == path[0]);
    assert(components(whole) =~= components(path).push(name));
}

/// A path that starts at the root is not one that starts elsewhere.
pub proof fn root_is_a_component(path: Seq<char>, other: Seq<char>)
    requires
        path.len() > 0,
        path[0] == '/',
        other.len() == 0 || other[0] != '/',
    ensures
        components(path)[0] == seq!['/'],
        !same_path(path, other),
{
    pieces_hold_no_slash(slash_pieces(other), other);
    let found = components_among(slash_pieces(other));
    assert(components(other) =~= found);
    if found.len() > 0 {
        assert(found[0] != seq!['/']) by {
            components_are_pieces(slash_pieces(other), 0);
            assert(seq!['/'][0] == '/');
        }
    }
}

proof fn pieces_hold_no_slash(pieces: Seq<Seq<char>>, path: Seq<char>)
    requires
        pieces == slash_pieces(path),
    ensures
        forall|i: int, j: int|
            0 <= i < pieces.len() && 0 <= j < pieces[i].len() ==> #[trigger] pieces[i][j] != '/',
    decreases path.len(),
{
    there_is_a_piece(path);
    if path.len() > 0 {
        let front = slash_pieces(path.drop_last());
        pieces_hold_no_slash(front, path.drop_last());
        there_is_a_piece(path.drop_last());
        assert forall|i: int, j: int|
            0 <= i < pieces.len() && 0 <= j < pieces[i].len() implies #[trigger] pieces[i][j]
            != '/' by {
            if i < front.len() && j < front[i].len() {
                assert(front[i][j] != '/');
            }
        }
    }
}

proof fn components_are_pieces(pieces: Seq<Seq<char>>, at: int)
    requires
        0 <= at < components_among(pieces).len(),
    ensures
        exists|i: int| 0 <= i < pieces.len() && #[trigger] pieces[i] == components_among(pieces)[at],
    decreases pieces.len(),
{
    if pieces.len() > 0 {
        let front = pieces.drop_last();
        if at < components_among(front).len() {
            components_are_pieces(front, at);
            let i = choose|i: int|
                0 <= i < front.len() && #[trigger] front[i] == components_among(front)[at];
            assert(pieces[i] == components_among(pieces)[at]);
        } else {
            assert(pieces[pieces.len() - 1] == components_among(pieces)[at]);
        }
    }
}

} // verus!
