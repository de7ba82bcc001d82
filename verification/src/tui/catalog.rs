//! The catalog of sessions: grouped by provider, the last used ones first.

use vstd::prelude::*;

use crate::lines;
use crate::lines::keep_first_occurrences;
use crate::lines::push_unique;
use crate::order;
use crate::order::sort_texts;
use crate::search;
use crate::search::comes_before;
use crate::text;
use crate::text::no_texts;
use crate::text::push_text;
use crate::text::same_text;
use crate::tui::threads;
use crate::tui::threads::ThreadEntry;
use crate::tui::threads::ThreadEntryView;
use crate::tui::threads::ThreadIdentity;
use crate::tui::threads::ThreadIdentityView;
use crate::tui::threads::ThreadItem;
use crate::tui::threads::ThreadItemView;
use crate::tui::threads::ThreadTitle;
use crate::tui::threads::ThreadTitleView;
use crate::tui::threads::is_named_by;

verus! {

/// A row of the list: the head of a group, or a session by its position.
#[derive(Debug, PartialEq, Eq)]
pub enum CatalogRow {
    Header { provider: String, count: usize },
    Thread { index: usize },
}

/// What a [`CatalogRow`] stands for.
pub enum CatalogRowView {
    Header { provider: Seq<char>, count: usize },
    Thread { index: usize },
}

impl View for CatalogRow {
    type V = CatalogRowView;

    open spec fn view(&self) -> CatalogRowView {
        match *self {
            CatalogRow::Header { provider, count } => CatalogRowView::Header {
                provider: provider@,
                count,
            },
            CatalogRow::Thread { index } => CatalogRowView::Thread { index },
        }
    }
}

impl DeepView for CatalogRow {
    type V = CatalogRowView;

    open spec fn deep_view(&self) -> CatalogRowView {
        self@
    }
}

impl Clone for CatalogRow {
    fn clone(&self) -> (out: Self)
        ensures
            out@ == self@,
    {
        match self {
            CatalogRow::Header { provider, count } => CatalogRow::Header {
                provider: provider.clone(),
                count: *count,
            },
            CatalogRow::Thread { index } => CatalogRow::Thread { index: *index },
        }
    }
}

/// The sessions with the rows that show them.
#[derive(Debug, PartialEq, Eq)]
pub struct Catalog {
    pub threads: Vec<ThreadEntry>,
    pub rows: Vec<CatalogRow>,
    /// The sessions in the order of the rows.
    pub ordered_threads: Vec<usize>,
    /// The row of each session.
    pub row_by_thread: Vec<usize>,
    pub active_count: usize,
    pub archived_count: usize,
    pub provider_count: usize,
}

/// What a [`Catalog`] stands for.
pub struct CatalogView {
    pub threads: Seq<ThreadEntryView>,
    pub rows: Seq<CatalogRowView>,
    pub ordered_threads: Seq<usize>,
    pub row_by_thread: Seq<usize>,
    pub active_count: usize,
    pub archived_count: usize,
    pub provider_count: usize,
}

impl View for Catalog {
    type V = CatalogView;

    open spec fn view(&self) -> CatalogView {
        CatalogView {
            threads: self.threads.deep_view(),
            rows: self.rows.deep_view(),
            ordered_threads: self.ordered_threads@,
            row_by_thread: self.row_by_thread@,
            active_count: self.active_count,
            archived_count: self.archived_count,
            provider_count: self.provider_count,
        }
    }
}

// ----------------------------------------------------------------------- the order

/// A session comes before another: it was used later, or at the same time and
/// its title comes first.
pub open spec fn entry_before(left: ThreadEntryView, right: ThreadEntryView) -> bool {
    ||| search::text_before(threads::key_of(right), threads::key_of(left))
    ||| threads::key_of(left) == threads::key_of(right) && search::text_before(
        left.title,
        right.title,
    )
}

fn is_before(left: &ThreadEntry, right: &ThreadEntry) -> (out: bool)
    ensures
        out == entry_before(left@, right@),
{
    let left_key = left.sort_key();
    let right_key = right.sort_key();
    comes_before(right_key.as_str(), left_key.as_str()) || (same_text(
        left_key.as_str(),
        right_key.as_str(),
    ) && comes_before(left.title.as_str(), right.title.as_str()))
}

/// No session comes before itself.
pub proof fn entry_before_is_irreflexive(entry: ThreadEntryView)
    ensures
        !entry_before(entry, entry),
{
    search::text_before_is_irreflexive(threads::key_of(entry));
    search::text_before_is_irreflexive(entry.title);
}

/// The order of sessions is transitive.
pub proof fn entry_before_is_transitive(
    a: ThreadEntryView,
    b: ThreadEntryView,
    c: ThreadEntryView,
)
    requires
        entry_before(a, b),
        entry_before(b, c),
    ensures
        entry_before(a, c),
{
    let (ka, kb, kc) = (threads::key_of(a), threads::key_of(b), threads::key_of(c));
    if search::text_before(kb, ka) && search::text_before(kc, kb) {
        search::text_before_is_transitive(kc, kb, ka);
    } else if ka == kb && kb == kc {
        search::text_before_is_transitive(a.title, b.title, c.title);
    }
}

/// What is not before a session and what that session is not before stand in
/// the same place.
proof fn entry_before_is_weak(a: ThreadEntryView, b: ThreadEntryView, c: ThreadEntryView)
    requires
        entry_before(a, c),
    ensures
        entry_before(a, b) || entry_before(b, c),
{
    let (ka, kb, kc) = (threads::key_of(a), threads::key_of(b), threads::key_of(c));
    search::text_before_is_total(ka, kb);
    search::text_before_is_total(kb, kc);
    search::text_before_is_total(a.title, b.title);
    search::text_before_is_total(b.title, c.title);
    if search::text_before(kc, ka) {
        if search::text_before(ka, kb) {
            search::text_before_is_transitive(kc, ka, kb);
        }
    } else {
        if a.title == b.title {
        } else if search::text_before(b.title, a.title) {
            search::text_before_is_transitive(b.title, a.title, c.title);
        }
    }
}

/// A session put in its place among ordered ones, behind those that stand in
/// the same place.
pub open spec fn placed(list: Seq<usize>, threads: Seq<ThreadEntryView>, index: usize) -> Seq<usize>
    decreases list.len(),
{
    if list.len() == 0 || !entry_before(threads[index as int], threads[list.last() as int]) {
        list.push(index)
    } else {
        placed(list.drop_last(), threads, index).push(list.last())
    }
}

/// The sessions of a provider among the first ones, in order.
pub open spec fn group_of(threads: Seq<ThreadEntryView>, provider: Seq<char>, count: nat) -> Seq<
    usize,
>
    decreases count,
{
    if count == 0 {
        Seq::empty()
    } else {
        let rest = group_of(threads, provider, (count - 1) as nat);
        if threads[count - 1].provider == provider {
            placed(rest, threads, (count - 1) as usize)
        } else {
            rest
        }
    }
}

/// The providers of sessions, in order, each once.
pub open spec fn providers_of(threads: Seq<ThreadEntryView>) -> Seq<Seq<char>> {
    order::sorted(lines::first_occurrences(Seq::new(threads.len(), |i: int| threads[i].provider)))
}

/// The sessions of the first providers.
pub open spec fn ordered_of(
    threads: Seq<ThreadEntryView>,
    providers: Seq<Seq<char>>,
    count: nat,
) -> Seq<usize>
    decreases count,
{
    if count == 0 {
        Seq::empty()
    } else {
        ordered_of(threads, providers, (count - 1) as nat) + group_of(
            threads,
            providers[count - 1],
            threads.len(),
        )
    }
}

/// The rows for sessions.
pub open spec fn thread_rows(group: Seq<usize>) -> Seq<CatalogRowView> {
    Seq::new(group.len(), |i: int| CatalogRowView::Thread { index: group[i] })
}

/// The rows for a group: its head and its sessions.
pub open spec fn group_rows(provider: Seq<char>, group: Seq<usize>) -> Seq<CatalogRowView> {
    seq![CatalogRowView::Header { provider, count: group.len() as usize }] + thread_rows(group)
}

/// The rows for the first providers.
pub open spec fn rows_of(
    threads: Seq<ThreadEntryView>,
    providers: Seq<Seq<char>>,
    count: nat,
) -> Seq<CatalogRowView>
    decreases count,
{
    if count == 0 {
        Seq::empty()
    } else {
        rows_of(threads, providers, (count - 1) as nat) + group_rows(
            providers[count - 1],
            group_of(threads, providers[count - 1], threads.len()),
        )
    }
}

/// How many sessions are not archived.
pub open spec fn active_among(threads: Seq<ThreadEntryView>) -> nat
    decreases threads.len(),
{
    if threads.len() == 0 {
        0
    } else {
        active_among(threads.drop_last()) + if threads.last().archived {
            0nat
        } else {
            1nat
        }
    }
}

/// A catalog shows the sessions it holds, and knows the row of each.
pub open spec fn is_catalog(catalog: CatalogView) -> bool {
    let threads = catalog.threads;
    let providers = providers_of(threads);
    &&& catalog.rows == rows_of(threads, providers, providers.len())
    &&& catalog.ordered_threads == ordered_of(threads, providers, providers.len())
    &&& catalog.row_by_thread.len() == threads.len()
    &&& forall|i: int|
        0 <= i < threads.len() ==> shown_at(
            catalog.rows,
            #[trigger] catalog.row_by_thread[i],
            i,
        )
    &&& catalog.active_count == active_among(threads)
    &&& catalog.archived_count == threads.len() - active_among(threads)
    &&& catalog.provider_count == providers.len()
}

/// A row shows a session.
pub open spec fn shown_at(rows: Seq<CatalogRowView>, row: usize, index: int) -> bool {
    row < rows.len() && rows[row as int] == (CatalogRowView::Thread { index: index as usize })
}

// ----------------------------------------------------------------------------- laws

/// A list of sessions is in order.
pub open spec fn in_order(list: Seq<usize>, threads: Seq<ThreadEntryView>) -> bool {
    forall|i: int, j: int|
        0 <= i < j < list.len() ==> !entry_before(
            threads[#[trigger] list[j] as int],
            threads[#[trigger] list[i] as int],
        )
}

proof fn placed_facts(list: Seq<usize>, threads: Seq<ThreadEntryView>, index: usize)
    requires
        in_order(list, threads),
    ensures
        in_order(placed(list, threads, index), threads),
        placed(list, threads, index).len() == list.len() + 1,
        forall|x: usize|
            #[trigger] placed(list, threads, index).contains(x) <==> x == index || list.contains(x),
    decreases list.len(),
{
    let out = placed(list, threads, index);
    if list.len() == 0 || !entry_before(threads[index as int], threads[list.last() as int]) {
        assert forall|i: int, j: int| 0 <= i < j < out.len() implies !entry_before(
            threads[#[trigger] out[j] as int],
            threads[#[trigger] out[i] as int],
        ) by {
            if j == list.len() {
                let last = threads[list.last() as int];
                if entry_before(threads[index as int], threads[list[i] as int]) {
                    entry_before_is_weak(threads[index as int], last, threads[list[i] as int]);
                    if i < list.len() - 1 {
                        assert(!entry_before(
                            threads[list[list.len() - 1] as int],
                            threads[list[i] as int],
                        ));
                    }
                }
            }
        }
        assert forall|x: usize| #[trigger] out.contains(x) <==> x == index || list.contains(x) by {
            assert(out[list.len() as int] == index);
            if list.contains(x) {
                let k = choose|k: int| 0 <= k < list.len() && list[k] == x;
                assert(out[k] == x);
            }
            if out.contains(x) {
                let k = choose|k: int| 0 <= k < out.len() && out[k] == x;
                if k < list.len() {
                    assert(list[k] == x);
                }
            }
        }
    } else {
        let front = list.drop_last();
        let last = list.last();
        assert forall|i: int, j: int| 0 <= i < j < front.len() implies !entry_before(
            threads[#[trigger] front[j] as int],
            threads[#[trigger] front[i] as int],
        ) by {
            assert(front[i] == list[i] && front[j] == list[j]);
        }
        placed_facts(front, threads, index);
        let more = placed(front, threads, index);
        assert forall|i: int, j: int| 0 <= i < j < out.len() implies !entry_before(
            threads[#[trigger] out[j] as int],
            threads[#[trigger] out[i] as int],
        ) by {
            if j == more.len() {
                assert(more.contains(more[i]));
                if more[i] == index {
                    if entry_before(threads[last as int], threads[index as int]) {
                        entry_before_is_transitive(
                            threads[index as int],
                            threads[last as int],
                            threads[index as int],
                        );
                        entry_before_is_irreflexive(threads[index as int]);
                    }
                } else {
                    let k = choose|k: int| 0 <= k < front.len() && front[k] == more[i];
                    assert(list[k] == more[i]);
                    assert(list[list.len() - 1] == last);
                }
            }
        }
        assert forall|x: usize| #[trigger] out.contains(x) <==> x == index || list.contains(x) by {
            if out.contains(x) {
                let k = choose|k: int| 0 <= k < out.len() && out[k] == x;
                if k < more.len() {
                    assert(more.contains(x));
                    if x != index {
                        let n = choose|n: int| 0 <= n < front.len() && front[n] == x;
                        assert(list[n] == x);
                    }
                } else {
                    assert(list[list.len() - 1] == x);
                }
            }
            if x == index || list.contains(x) {
                if x == last {
                    assert(out[more.len() as int] == x);
                } else {
                    if list.contains(x) {
                        let n = choose|n: int| 0 <= n < list.len() && list[n] == x;
                        assert(front[n] == x);
                    }
                    assert(more.contains(x));
                    let k = choose|k: int| 0 <= k < more.len() && more[k] == x;
                    assert(out[k] == x);
                }
            }
        }
    }
}

/// A group is in order, and holds the sessions of its provider.
pub proof fn group_laws(threads: Seq<ThreadEntryView>, provider: Seq<char>, count: nat)
    requires
        count <= threads.len(),
        threads.len() <= usize::MAX,
    ensures
        in_order(group_of(threads, provider, count), threads),
        group_of(threads, provider, count).len() <= count,
        forall|x: usize|
            #[trigger] group_of(threads, provider, count).contains(x) <==> x < count
                && threads[x as int].provider == provider,
    decreases count,
{
    if count > 0 {
        let rest = group_of(threads, provider, (count - 1) as nat);
        group_laws(threads, provider, (count - 1) as nat);
        if threads[count - 1].provider == provider {
            placed_facts(rest, threads, (count - 1) as usize);
        }
        assert forall|x: usize|
            #[trigger] group_of(threads, provider, count).contains(x) <==> x < count
                && threads[x as int].provider == provider by {
            assert(rest.contains(x) <==> x < count - 1 && threads[x as int].provider == provider);
        }
    }
}

/// No session stands twice in a list.
pub open spec fn no_repeats(list: Seq<usize>) -> bool {
    forall|i: int, j: int| 0 <= i < j < list.len() ==> #[trigger] list[i] != #[trigger] list[j]
}

proof fn placed_has_no_repeats(list: Seq<usize>, threads: Seq<ThreadEntryView>, index: usize)
    requires
        no_repeats(list),
        !list.contains(index),
    ensures
        no_repeats(placed(list, threads, index)),
        forall|x: usize|
            #[trigger] placed(list, threads, index).contains(x) ==> x == index || list.contains(x),
    decreases list.len(),
{
    let out = placed(list, threads, index);
    if list.len() == 0 || !entry_before(threads[index as int], threads[list.last() as int]) {
        assert forall|i: int, j: int| 0 <= i < j < out.len() implies #[trigger] out[i]
            != #[trigger] out[j] by {
            if j == list.len() {
                assert(list.contains(list[i]));
            }
        }
        assert forall|x: usize| #[trigger] out.contains(x) implies x == index || list.contains(
            x,
        ) by {
            let k = choose|k: int| 0 <= k < out.len() && out[k] == x;
            if k < list.len() {
                assert(list[k] == x);
            }
        }
    } else {
        let front = list.drop_last();
        let last = list.last();
        assert forall|i: int, j: int| 0 <= i < j < front.len() implies #[trigger] front[i]
            != #[trigger] front[j] by {
            assert(front[i] == list[i] && front[j] == list[j]);
        }
        assert(!front.contains(index)) by {
            if front.contains(index) {
                let k = choose|k: int| 0 <= k < front.len() && front[k] == index;
                assert(list[k] == index);
            }
        }
        placed_has_no_repeats(front, threads, index);
        let more = placed(front, threads, index);
        assert(list[list.len() - 1] == last);
        assert forall|i: int, j: int| 0 <= i < j < out.len() implies #[trigger] out[i]
            != #[trigger] out[j] by {
            if j == more.len() {
                assert(more.contains(more[i]));
                if more[i] != index {
                    let k = choose|k: int| 0 <= k < front.len() && front[k] == more[i];
                    assert(list[k] == more[i]);
                }
            }
        }
        assert forall|x: usize| #[trigger] out.contains(x) implies x == index || list.contains(
            x,
        ) by {
            let k = choose|k: int| 0 <= k < out.len() && out[k] == x;
            if k < more.len() {
                assert(more.contains(x));
                if x != index {
                    let n = choose|n: int| 0 <= n < front.len() && front[n] == x;
                    assert(list[n] == x);
                }
            }
        }
    }
}

/// No session stands twice in a group.
pub proof fn group_has_no_repeats(threads: Seq<ThreadEntryView>, provider: Seq<char>, count: nat)
    requires
        count <= threads.len(),
        threads.len() <= usize::MAX,
    ensures
        no_repeats(group_of(threads, provider, count)),
    decreases count,
{
    if count > 0 {
        group_has_no_repeats(threads, provider, (count - 1) as nat);
        group_laws(threads, provider, (count - 1) as nat);
        let rest = group_of(threads, provider, (count - 1) as nat);
        if threads[count - 1].provider == provider {
            assert(!rest.contains((count - 1) as usize));
            placed_has_no_repeats(rest, threads, (count - 1) as usize);
        }
    }
}

/// The sessions of a provider list: those whose provider is one of the first
/// ones, each once.
proof fn ordered_facts(threads: Seq<ThreadEntryView>, providers: Seq<Seq<char>>, count: nat)
    requires
        lines::distinct(providers),
        count <= providers.len(),
        threads.len() <= usize::MAX,
    ensures
        no_repeats(ordered_of(threads, providers, count)),
        forall|x: usize|
            #[trigger] ordered_of(threads, providers, count).contains(x) <==> x < threads.len()
                && providers.take(count as int).contains(threads[x as int].provider),
    decreases count,
{
    let out = ordered_of(threads, providers, count);
    if count > 0 {
        let rest = ordered_of(threads, providers, (count - 1) as nat);
        let provider = providers[count - 1];
        let group = group_of(threads, provider, threads.len());
        ordered_facts(threads, providers, (count - 1) as nat);
        group_laws(threads, provider, threads.len());
        group_has_no_repeats(threads, provider, threads.len());
        let before = providers.take(count - 1);
        let now = providers.take(count as int);
        assert forall|x: usize| #[trigger] out.contains(x) <==> x < threads.len() && now.contains(
            threads[x as int].provider,
        ) by {
            if out.contains(x) {
                let k = choose|k: int| 0 <= k < out.len() && out[k] == x;
                if k < rest.len() {
                    assert(rest[k] == x);
                    assert(rest.contains(x));
                    let n = choose|n: int|
                        0 <= n < before.len() && before[n] == threads[x as int].provider;
                    assert(now[n] == before[n]);
                } else {
                    assert(group[k - rest.len()] == x);
                    assert(group.contains(x));
                    assert(now[count - 1] == provider);
                }
            }
            if x < threads.len() && now.contains(threads[x as int].provider) {
                let n = choose|n: int| 0 <= n < now.len() && now[n] == threads[x as int].provider;
                if n < count - 1 {
                    assert(before[n] == now[n]);
                    assert(rest.contains(x));
                    let k = choose|k: int| 0 <= k < rest.len() && rest[k] == x;
                    assert(out[k] == x);
                } else {
                    assert(group.contains(x));
                    let k = choose|k: int| 0 <= k < group.len() && group[k] == x;
                    assert(out[rest.len() + k] == x);
                }
            }
        }
        assert forall|i: int, j: int| 0 <= i < j < out.len() implies #[trigger] out[i]
            != #[trigger] out[j] by {
            if i < rest.len() && j >= rest.len() {
                assert(rest.contains(rest[i]));
                assert(group.contains(group[j - rest.len()]));
                if out[i] == out[j] {
                    let n = choose|n: int| 0 <= n < before.len() && before[n] == provider;
                    assert(providers[n] == providers[count - 1]);
                }
            } else if i >= rest.len() {
                assert(out[i] == group[i - rest.len()] && out[j] == group[j - rest.len()]);
            }
        }
    } else {
        assert(providers.take(0) =~= Seq::<Seq<char>>::empty());
    }
}

/// The providers are in order, none twice, and every session has its own among
/// them.
pub proof fn providers_laws(threads: Seq<ThreadEntryView>)
    ensures
        lines::distinct(providers_of(threads)),
        order::in_order(providers_of(threads)),
        forall|i: int|
            0 <= i < threads.len() ==> providers_of(threads).contains(
                (#[trigger] threads[i]).provider,
            ),
        providers_of(threads).len() <= threads.len(),
{
    broadcast use vstd::seq_lib::group_to_multiset_ensures;

    let all = Seq::new(threads.len(), |i: int| threads[i].provider);
    let kept = lines::first_occurrences(all);
    let out = providers_of(threads);
    lines::first_occurrences_laws(all);
    order::sorted_laws(kept);
    first_occurrences_len(all);
    assert(kept.no_duplicates()) by {
        assert forall|i: int, j: int| 0 <= i < kept.len() && 0 <= j < kept.len() && i != j implies
            kept[i] != kept[j] by {
            if i < j {
                assert(kept[i] != kept[j]);
            } else {
                assert(kept[j] != kept[i]);
            }
        }
    }
    kept.lemma_multiset_has_no_duplicates();
    out.lemma_multiset_has_no_duplicates_conv();
    assert forall|i: int| 0 <= i < threads.len() implies out.contains(
        (#[trigger] threads[i]).provider,
    ) by {
        assert(all[i] == threads[i].provider);
        assert(all.contains(threads[i].provider));
        assert(kept.contains(threads[i].provider));
        assert(kept.to_multiset().count(threads[i].provider) > 0);
        assert(out.to_multiset().count(threads[i].provider) > 0);
    }
}

proof fn first_occurrences_len(items: Seq<Seq<char>>)
    ensures
        lines::first_occurrences(items).len() <= items.len(),
    decreases items.len(),
{
    reveal(text::with_unique);
    if items.len() > 0 {
        first_occurrences_len(items.drop_last());
    }
}

/// Every session is listed exactly once.
pub proof fn every_session_is_listed_once(threads: Seq<ThreadEntryView>)
    requires
        threads.len() <= usize::MAX,
    ensures
        ({
            let providers = providers_of(threads);
            let ordered = ordered_of(threads, providers, providers.len());
            &&& no_repeats(ordered)
            &&& forall|x: usize| #[trigger] ordered.contains(x) <==> x < threads.len()
        }),
{
    let providers = providers_of(threads);
    let ordered = ordered_of(threads, providers, providers.len());
    providers_laws(threads);
    ordered_facts(threads, providers, providers.len());
    assert(providers.take(providers.len() as int) =~= providers);
    assert forall|x: usize| #[trigger] ordered.contains(x) <==> x < threads.len() by {
        if x < threads.len() {
            assert(providers.contains(threads[x as int].provider));
        }
    }
}

/// The sessions that are not archived and those that are make up all of them.
pub proof fn counts_add_up(threads: Seq<ThreadEntryView>)
    ensures
        active_among(threads) <= threads.len(),
    decreases threads.len(),
{
    if threads.len() > 0 {
        counts_add_up(threads.drop_last());
    }
}

// ------------------------------------------------------------------------ building

fn place(list: &mut Vec<usize>, threads: &Vec<ThreadEntry>, index: usize)
    requires
        index < threads@.len(),
        forall|i: int| 0 <= i < old(list)@.len() ==> #[trigger] old(list)@[i] < threads@.len(),
    ensures
        final(list)@ == placed(old(list)@, threads.deep_view(), index),
{
    let ghost all = list@;
    let ghost entries = threads.deep_view();
    let mut at: usize = list.len();
    assert(entries[index as int] == threads@[index as int]@);
    assert(all.take(at as int) =~= all);
    assert(all.skip(at as int) =~= Seq::<usize>::empty());
    assert(placed(all, entries, index) + all.skip(at as int) =~= placed(all, entries, index));
    while at > 0 && is_before(&threads[index], &threads[list[at - 1]])
        invariant
            all == list@,
            entries == threads.deep_view(),
            entries[index as int] == threads@[index as int]@,
            index < threads@.len(),
            at <= all.len(),
            forall|i: int| 0 <= i < all.len() ==> #[trigger] all[i] < threads@.len(),
            placed(all, entries, index) == placed(all.take(at as int), entries, index) + all.skip(
                at as int,
            ),
        decreases at,
    {
        proof {
            let front = all.take(at as int);
            assert(front.last() == all[at - 1]);
            assert(entries[all[at - 1] as int] == threads@[all[at - 1] as int]@);
            assert(front.drop_last() =~= all.take(at - 1));
            assert(placed(all.take(at - 1), entries, index).push(all[at - 1]) + all.skip(at as int)
                =~= placed(all.take(at - 1), entries, index) + all.skip(at - 1));
        }
        at = at - 1;
    }
    proof {
        let front = all.take(at as int);
        if at > 0 {
            assert(front.last() == all[at - 1]);
            assert(entries[all[at - 1] as int] == threads@[all[at - 1] as int]@);
        }
        assert(placed(front, entries, index) == front.push(index));
        assert(front.push(index) + all.skip(at as int) =~= all.insert(at as int, index));
    }
    list.insert(at, index);
}

fn list_group(threads: &Vec<ThreadEntry>, provider: &str) -> (out: Vec<usize>)
    ensures
        out@ == group_of(threads.deep_view(), provider@, threads@.len()),
        forall|i: int| 0 <= i < out@.len() ==> #[trigger] out@[i] < threads@.len(),
{
    let mut out: Vec<usize> = Vec::new();
    let ghost entries = threads.deep_view();
    for i in 0..threads.len()
        invariant
            entries == threads.deep_view(),
            out@ == group_of(entries, provider@, i as nat),
            forall|j: int| 0 <= j < out@.len() ==> #[trigger] out@[j] < threads@.len(),
    {
        assert(entries[i as int] == threads@[i as int]@);
        if same_text(threads[i].provider.as_str(), provider) {
            let ghost before = out@;
            place(&mut out, threads, i);
            proof {
                group_laws(entries, provider@, (i + 1) as nat);
                assert forall|j: int| 0 <= j < out@.len() implies #[trigger] out@[j]
                    < threads@.len() by {
                    assert(group_of(entries, provider@, (i + 1) as nat).contains(out@[j]));
                }
            }
        }
    }
    out
}

fn list_providers(threads: &Vec<ThreadEntry>) -> (out: Vec<String>)
    ensures
        text::texts(out@) == providers_of(threads.deep_view()),
{
    let mut names = no_texts();
    let ghost all = Seq::new(threads@.len(), |i: int| threads.deep_view()[i].provider);
    assert(all.take(0) =~= Seq::<Seq<char>>::empty());
    for i in 0..threads.len()
        invariant
            all == Seq::new(threads@.len(), |i: int| threads.deep_view()[i].provider),
            text::texts(names@) == all.take(i as int),
    {
        assert(threads.deep_view()[i as int] == threads@[i as int]@);
        push_text(&mut names, threads[i].provider.clone());
        assert(all.take(i as int).push(all[i as int]) =~= all.take(i + 1));
    }
    assert(all.take(all.len() as int) =~= all);
    assert(all =~= Seq::new(
        threads.deep_view().len(),
        |i: int| threads.deep_view()[i].provider,
    ));
    sort_texts(&keep_first_occurrences(&names))
}

fn count_active(threads: &Vec<ThreadEntry>) -> (out: usize)
    ensures
        out == active_among(threads.deep_view()),
        out <= threads@.len(),
{
    let mut out: usize = 0;
    let ghost all = threads.deep_view();
    assert(all.take(0) =~= Seq::<ThreadEntryView>::empty());
    for i in 0..threads.len()
        invariant
            all == threads.deep_view(),
            out == active_among(all.take(i as int)),
            out <= i,
    {
        assert(all.take(i + 1).drop_last() =~= all.take(i as int));
        assert(all[i as int] == threads@[i as int]@);
        if !threads[i].archived {
            out = out + 1;
        }
    }
    assert(all.take(all.len() as int) =~= all);
    out
}

fn zeros(count: usize) -> (out: Vec<usize>)
    ensures
        out@.len() == count,
{
    let mut out: Vec<usize> = Vec::new();
    for i in 0..count
        invariant
            out@.len() == i,
    {
        out.push(0);
    }
    out
}

fn push_row(rows: &mut Vec<CatalogRow>, row: CatalogRow)
    ensures
        final(rows).deep_view() == old(rows).deep_view().push(row@),
{
    let ghost added = row@;
    rows.push(row);
    assert(rows.deep_view() =~= old(rows).deep_view().push(added));
}

/// Every listed session is shown where its row says.
pub open spec fn rows_are_known(
    rows: Seq<CatalogRowView>,
    ordered: Seq<usize>,
    row_by_thread: Seq<usize>,
) -> bool {
    forall|k: int|
        0 <= k < ordered.len() ==> ordered[k] < row_by_thread.len() && shown_at(
            rows,
            row_by_thread[#[trigger] ordered[k] as int],
            ordered[k] as int,
        )
}

fn add_group(
    provider: &str,
    group: &Vec<usize>,
    rows: &mut Vec<CatalogRow>,
    ordered: &mut Vec<usize>,
    row_by_thread: &mut Vec<usize>,
)
    requires
        rows_are_known(old(rows).deep_view(), old(ordered)@, old(row_by_thread)@),
        forall|i: int| 0 <= i < group@.len() ==> #[trigger] group@[i] < old(row_by_thread)@.len(),
    ensures
        final(rows).deep_view() == old(rows).deep_view() + group_rows(provider@, group@),
        final(ordered)@ == old(ordered)@ + group@,
        final(row_by_thread)@.len() == old(row_by_thread)@.len(),
        rows_are_known(final(rows).deep_view(), final(ordered)@, final(row_by_thread)@),
{
    let ghost rows_before = rows.deep_view();
    let ghost ordered_before = ordered@;
    push_row(rows, CatalogRow::Header { provider: provider.to_owned(), count: group.len() });
    let ghost head = rows.deep_view();
    assert(head + thread_rows(group@.take(0)) =~= head);
    assert(ordered_before + group@.take(0) =~= ordered_before);
    proof {
        assert forall|k: int| 0 <= k < ordered@.len() implies ordered@[k] < row_by_thread@.len()
            && shown_at(
            head,
            row_by_thread@[#[trigger] ordered@[k] as int],
            ordered@[k] as int,
        ) by {
            assert(shown_at(
                rows_before,
                row_by_thread@[ordered@[k] as int],
                ordered@[k] as int,
            ));
        }
    }
    let ghost count = row_by_thread@.len();
    for i in 0..group.len()
        invariant
            rows.deep_view() == head + thread_rows(group@.take(i as int)),
            ordered@ == ordered_before + group@.take(i as int),
            row_by_thread@.len() == count,
            forall|j: int| 0 <= j < group@.len() ==> #[trigger] group@[j] < count,
            rows_are_known(rows.deep_view(), ordered@, row_by_thread@),
    {
        let index = group[i];
        let ghost rows_now = rows.deep_view();
        let ghost known_now = row_by_thread@;
        let ghost ordered_now = ordered@;
        assert(rows.deep_view().len() == rows@.len());
        row_by_thread.set(index, rows.len());
        push_row(rows, CatalogRow::Thread { index });
        ordered.push(index);
        proof {
            assert(thread_rows(group@.take(i + 1)) =~= thread_rows(group@.take(i as int)).push(
                CatalogRowView::Thread { index },
            ));
            assert(rows.deep_view() =~= head + thread_rows(group@.take(i + 1)));
            assert(ordered@ =~= ordered_before + group@.take(i + 1));
            assert forall|k: int| 0 <= k < ordered@.len() implies ordered@[k]
                < row_by_thread@.len() && shown_at(
                rows.deep_view(),
                row_by_thread@[#[trigger] ordered@[k] as int],
                ordered@[k] as int,
            ) by {
                if ordered@[k] != index {
                    assert(ordered_now[k] == ordered@[k]);
                    assert(shown_at(
                        rows_now,
                        known_now[ordered_now[k] as int],
                        ordered_now[k] as int,
                    ));
                }
            }
        }
    }
    assert(group@.take(group@.len() as int) =~= group@);
    assert(head + thread_rows(group@) =~= rows_before + group_rows(provider@, group@));
}

impl Catalog {
    /// The catalog of sessions.
    pub fn new(threads: Vec<ThreadEntry>) -> (out: Self)
        ensures
            is_catalog(out@),
            out@.threads == threads.deep_view(),
    {
        let active_count = count_active(&threads);
        let archived_count = threads.len() - active_count;
        let providers = list_providers(&threads);
        let provider_count = providers.len();
        let mut rows: Vec<CatalogRow> = Vec::new();
        let mut ordered_threads: Vec<usize> = Vec::new();
        let mut row_by_thread = zeros(threads.len());
        let ghost entries = threads.deep_view();
        let ghost all = providers_of(entries);
        assert(rows.deep_view() =~= Seq::<CatalogRowView>::empty());
        for i in 0..providers.len()
            invariant
                entries == threads.deep_view(),
                all == providers_of(entries),
                all == text::texts(providers@),
                row_by_thread@.len() == threads@.len(),
                rows.deep_view() == rows_of(entries, all, i as nat),
                ordered_threads@ == ordered_of(entries, all, i as nat),
                rows_are_known(rows.deep_view(), ordered_threads@, row_by_thread@),
        {
            assert(all[i as int] == providers@[i as int]@);
            let group = list_group(&threads, providers[i].as_str());
            add_group(
                providers[i].as_str(),
                &group,
                &mut rows,
                &mut ordered_threads,
                &mut row_by_thread,
            );
        }
        proof {
            every_session_is_listed_once(entries);
            assert forall|i: int| 0 <= i < entries.len() implies shown_at(
                rows.deep_view(),
                #[trigger] row_by_thread@[i],
                i,
            ) by {
                assert(ordered_threads@.contains(i as usize));
                let k = choose|k: int|
                    0 <= k < ordered_threads@.len() && ordered_threads@[k] == i as usize;
                assert(shown_at(
                    rows.deep_view(),
                    row_by_thread@[ordered_threads@[k] as int],
                    ordered_threads@[k] as int,
                ));
            }
        }
        Catalog {
            threads,
            rows,
            ordered_threads,
            row_by_thread,
            active_count,
            archived_count,
            provider_count,
        }
    }

    /// Where the session stands that an identity names, the first one if there
    /// are more.
    pub fn find_selection(&self, identity: &ThreadIdentity) -> (out: Option<usize>)
        requires
            is_catalog(self@),
        ensures
            match out {
                Some(at) => first_named(self@, identity@, at as int),
                None => forall|at: int| !first_named(self@, identity@, at),
            },
            out is None ==> forall|k: int|
                0 <= k < self@.ordered_threads.len() ==> !threads::is_same(
                    #[trigger] listed(self@, k),
                    identity@,
                ),
    {
        let count = self.threads.len();
        proof {
            assert(self@.threads.len() == count);
            every_session_is_listed_once(self@.threads);
        }
        for i in 0..self.ordered_threads.len()
            invariant
                forall|k: int|
                    0 <= k < i ==> !threads::is_same(#[trigger] listed(self@, k), identity@),
                forall|x: usize| #[trigger]
                    self.ordered_threads@.contains(x) <==> x < self@.threads.len(),
        {
            let index = self.ordered_threads[i];
            assert(self.ordered_threads@.contains(index));
            assert(listed(self@, i as int) == self.threads@[index as int]@);
            if is_named_by(&self.threads[index], identity) {
                return Some(i);
            }
        }
        None
    }
}

/// The session at a place in the list.
pub open spec fn listed(catalog: CatalogView, at: int) -> ThreadEntryView {
    catalog.threads[catalog.ordered_threads[at] as int]
}

/// The first place in the list with a session that an identity names.
pub open spec fn first_named(
    catalog: CatalogView,
    identity: ThreadIdentityView,
    at: int,
) -> bool {
    &&& 0 <= at < catalog.ordered_threads.len()
    &&& threads::is_same(listed(catalog, at), identity)
    &&& forall|k: int| 0 <= k < at ==> !threads::is_same(#[trigger] listed(catalog, k), identity)
}

// ------------------------------------------------------------------------- loading

/// The entries of listed sessions.
pub open spec fn entries_of(
    items: Seq<ThreadItemView>,
    archived: bool,
    default_provider: Seq<char>,
    names: Seq<ThreadTitleView>,
) -> Seq<ThreadEntryView> {
    Seq::new(
        items.len(),
        |i: int| threads::entry_of(items[i], archived, default_provider, names),
    )
}

fn push_entries(
    entries: &mut Vec<ThreadEntry>,
    items: &Vec<ThreadItem>,
    archived: bool,
    default_provider: &str,
    names: &Vec<ThreadTitle>,
)
    ensures
        final(entries).deep_view() == old(entries).deep_view() + entries_of(
            items.deep_view(),
            archived,
            default_provider@,
            names.deep_view(),
        ),
{
    let ghost before = entries.deep_view();
    let ghost all = entries_of(items.deep_view(), archived, default_provider@, names.deep_view());
    assert(before + all.take(0) =~= before);
    for i in 0..items.len()
        invariant
            all == entries_of(items.deep_view(), archived, default_provider@, names.deep_view()),
            entries.deep_view() == before + all.take(i as int),
    {
        assert(items.deep_view()[i as int] == items@[i as int]@);
        let entry = ThreadEntry::from_thread_item(&items[i], archived, default_provider, names);
        let ghost added = entry@;
        let ghost now = entries.deep_view();
        entries.push(entry);
        assert(entries.deep_view() =~= now.push(added));
        assert(all.take(i as int).push(all[i as int]) =~= all.take(i + 1));
        assert((before + all.take(i as int)).push(added) =~= before + all.take(i + 1));
    }
    assert(all.take(all.len() as int) =~= all);
}

/// The catalog of the sessions in both stores, the active ones first.
pub fn load_catalog(
    active: &Vec<ThreadItem>,
    archived: &Vec<ThreadItem>,
    default_provider: &str,
    names: &Vec<ThreadTitle>,
) -> (out: Catalog)
    ensures
        is_catalog(out@),
        out@.threads == entries_of(
            active.deep_view(),
            false,
            default_provider@,
            names.deep_view(),
        ) + entries_of(archived.deep_view(), true, default_provider@, names.deep_view()),
{
    let mut entries: Vec<ThreadEntry> = Vec::new();
    assert(entries.deep_view() =~= Seq::<ThreadEntryView>::empty());
    push_entries(&mut entries, active, false, default_provider, names);
    push_entries(&mut entries, archived, true, default_provider, names);
    assert(entries.deep_view() =~= entries_of(
        active.deep_view(),
        false,
        default_provider@,
        names.deep_view(),
    ) + entries_of(archived.deep_view(), true, default_provider@, names.deep_view()));
    Catalog::new(entries)
}

/// The ids that listed sessions have.
pub open spec fn ids_of(items: Seq<ThreadItemView>) -> Seq<Seq<char>>
    decreases items.len(),
{
    if items.len() == 0 {
        Seq::empty()
    } else {
        match items.last().thread_id {
            Some(id) => text::with_unique(ids_of(items.drop_last()), id),
            None => ids_of(items.drop_last()),
        }
    }
}

/// The ids that listed sessions have, each once: those whose names are to be
/// looked up.
pub fn collect_ids(items: &Vec<ThreadItem>) -> (out: Vec<String>)
    ensures
        text::texts(out@) == ids_of(items.deep_view()),
{
    let mut out = no_texts();
    let ghost all = items.deep_view();
    assert(all.take(0) =~= Seq::<ThreadItemView>::empty());
    for i in 0..items.len()
        invariant
            all == items.deep_view(),
            text::texts(out@) == ids_of(all.take(i as int)),
    {
        assert(all.take(i + 1).drop_last() =~= all.take(i as int));
        assert(all[i as int] == items@[i as int]@);
        if let Some(id) = &items[i].thread_id {
            push_unique(&mut out, id.clone());
        }
    }
    assert(all.take(all.len() as int) =~= all);
    out
}

/// Of two sessions the one that was used later comes first, and of those used at
/// the same time the one whose title comes first.
pub proof fn later_sessions_come_first(
    a: ThreadEntryView,
    b: ThreadEntryView,
    earlier: Seq<char>,
    later: Seq<char>,
)
    requires
        a.updated_at == Some(later),
        b.updated_at == Some(earlier),
    ensures
        search::text_before(earlier, later) ==> entry_before(a, b) && !entry_before(b, a),
        earlier == later && search::text_before(a.title, b.title) ==> entry_before(a, b)
            && !entry_before(b, a),
        earlier == later && a.title == b.title ==> !entry_before(a, b) && !entry_before(b, a),
{
    if search::text_before(earlier, later) {
        if entry_before(b, a) {
            entry_before_is_transitive(a, b, a);
        }
        entry_before_is_irreflexive(a);
    }
    if earlier == later && search::text_before(a.title, b.title) {
        if entry_before(b, a) {
            entry_before_is_transitive(a, b, a);
        }
        entry_before_is_irreflexive(a);
    }
    search::text_before_is_irreflexive(earlier);
    search::text_before_is_irreflexive(a.title);
}

/// The rows of a provider are its head, with the number of its sessions, and its
/// sessions in their order.
pub proof fn head_counts_its_sessions(
    threads: Seq<ThreadEntryView>,
    providers: Seq<Seq<char>>,
    count: nat,
    at: int,
)
    requires
        0 < count <= providers.len(),
        threads.len() <= usize::MAX,
    ensures
        ({
            let before = rows_of(threads, providers, (count - 1) as nat);
            let rows = rows_of(threads, providers, count);
            let group = group_of(threads, providers[count - 1], threads.len());
            let head = before.len() as int;
            &&& rows.len() == head + 1 + group.len()
            &&& rows.take(head) == before
            &&& rows[head] matches CatalogRowView::Header { provider, count: size } && provider
                == providers[count - 1] && size == group.len()
            &&& 0 <= at < group.len() ==> rows[head + 1 + at] == (CatalogRowView::Thread {
                index: group[at],
            })
        }),
{
    let before = rows_of(threads, providers, (count - 1) as nat);
    let rows = rows_of(threads, providers, count);
    assert(rows.take(before.len() as int) =~= before);
    group_laws(threads, providers[count - 1], threads.len());
}

/// The sessions of a catalog that are not archived are counted as active, and the
/// others as archived.
pub proof fn active_sessions_are_counted(
    threads: Seq<ThreadEntryView>,
    entry: ThreadEntryView,
)
    ensures
        active_among(Seq::empty()) == 0,
        entry.archived ==> active_among(threads.push(entry)) == active_among(threads),
        !entry.archived ==> active_among(threads.push(entry)) == active_among(threads) + 1,
{
    assert(threads.push(entry).drop_last() =~= threads);
}

/// The ids whose names are to be looked up are those that some session has, each
/// once.
pub proof fn every_id_is_looked_up(items: Seq<ThreadItemView>, id: Seq<char>)
    ensures
        ids_of(items).contains(id) <==> exists|i: int|
            0 <= i < items.len() && (#[trigger] items[i]).thread_id == Some(id),
        lines::distinct(ids_of(items)),
    decreases items.len(),
{
    broadcast use vstd::seq_lib::lemma_seq_contains_after_push;

    reveal(text::with_unique);
    if items.len() > 0 {
        let front = items.drop_last();
        every_id_is_looked_up(front, id);
        let kept = ids_of(front);
        let out = ids_of(items);
        if exists|i: int| 0 <= i < items.len() && (#[trigger] items[i]).thread_id == Some(id) {
            let i = choose|i: int|
                0 <= i < items.len() && (#[trigger] items[i]).thread_id == Some(id);
            if i < front.len() {
                assert(front[i].thread_id == Some(id));
            }
            assert(out.contains(id));
        }
        if out.contains(id) {
            if kept.contains(id) {
                let i = choose|i: int|
                    0 <= i < front.len() && (#[trigger] front[i]).thread_id == Some(id);
                assert(items[i].thread_id == Some(id));
            } else {
                assert(items[items.len() - 1].thread_id == Some(id));
            }
        }
        assert forall|i: int, j: int| 0 <= i < j < out.len() implies #[trigger] out[i]
            != #[trigger] out[j] by {
            if j == kept.len() {
                assert(kept.contains(kept[i]));
            }
        }
    } else {
        assert(!ids_of(items).contains(id));
    }
}

/// The active sessions of a catalog come first, then the archived ones, each as it
/// is listed.
pub proof fn every_listed_session_has_an_entry(
    items: Seq<ThreadItemView>,
    archived: bool,
    default_provider: Seq<char>,
    names: Seq<ThreadTitleView>,
    at: int,
)
    requires
        0 <= at < items.len(),
    ensures
        ({
            let entries = entries_of(items, archived, default_provider, names);
            &&& entries.len() == items.len()
            &&& entries[at].rollout_path == items[at].path
            &&& entries[at].thread_id == items[at].thread_id
            &&& entries[at].archived == archived
        }),
{
}

} // verus!
