//! What holds of the results of a query as a whole.

use crate::async_value::Async;
use crate::datastore::order::Entry;
use crate::datastore::query::{QueryAction, QueryInput, QueryState, SourceState};
use vstd::prelude::*;
use vstd::std_specs::cmp::PartialOrdSpec;

verus! {

/// The part of `s` that is left when `skip` items are skipped and at most `limit` are taken.
pub open spec fn window<A>(s: Seq<A>, skip: int, limit: int) -> Seq<A> {
    if skip >= s.len() {
        Seq::empty()
    } else if limit >= s.len() - skip {
        s.skip(skip)
    } else {
        s.subrange(skip, skip + limit)
    }
}

/// The entries that a query wants.
pub open spec fn wanted<'a, V: PartialOrd>(q: QueryState<'a, V>, entries: Seq<Entry<V>>) -> Seq<
    Entry<V>,
> {
    entries.filter(|e: Entry<V>| q.wants(e))
}

/// The entries that the results are made of when the entries of a stream come one by one.
pub open spec fn direct_results<'a, V: PartialOrd>(
    q: QueryState<'a, V>,
    entries: Seq<Entry<V>>,
) -> Seq<Entry<V>>
    decreases entries.len(),
{
    if q.limit == 0 || entries.len() == 0 {
        Seq::empty()
    } else {
        let (next, action) = q.step(
            QueryInput::<V, ()>::Polled(Ok(Async::Ready(Some(entries.first())))),
            Seq::empty(),
        );
        match action {
            QueryAction::Return(Ok(Async::Ready(Some(e)))) => seq![e] + direct_results(
                next,
                entries.drop_first(),
            ),
            _ => direct_results(next, entries.drop_first()),
        }
    }
}

proof fn lemma_filter_first<A>(s: Seq<A>, f: spec_fn(A) -> bool)
    requires
        s.len() > 0,
    ensures
        s.filter(f) == (if f(s.first()) {
            seq![s.first()]
        } else {
            Seq::empty()
        }) + s.drop_first().filter(f),
{
    let none = Seq::<A>::empty();
    let one = seq![s.first()];
    assert(s =~= one + s.drop_first());
    Seq::filter_distributes_over_add(one, s.drop_first(), f);
    assert(one.filter(f) == (if f(s.first()) {
        one
    } else {
        none
    })) by {
        reveal(Seq::filter);
        assert(one.drop_last() =~= none);
        assert(none.filter(f) =~= none);
        assert(none.push(s.first()) =~= one);
    }
}

/// A query without orders returns the entries that match, in the order in which they come, but
/// for those that are skipped and those beyond the limit.
pub proof fn law_direct_results<'a, V: PartialOrd>(q: QueryState<'a, V>, entries: Seq<Entry<V>>)
    requires
        q.source is Direct,
    ensures
        direct_results(q, entries) == window(
            wanted(q, entries),
            q.skip as int,
            q.limit as int,
        ),
    decreases entries.len(),
{
    let f = |e: Entry<V>| q.wants(e);
    let all = wanted(q, entries);
    if entries.len() == 0 {
        assert(all.len() == 0) by {
            reveal(Seq::filter);
        }
    } else if q.limit == 0 {
        assert(window(all, q.skip as int, 0) =~= Seq::empty());
    } else {
        let first = entries.first();
        let rest = entries.drop_first();
        lemma_filter_first(entries, f);
        let (next, action) = q.step(
            QueryInput::<V, ()>::Polled(Ok(Async::Ready(Some(first)))),
            Seq::empty(),
        );
        law_direct_results(next, rest);
        let g = |e: Entry<V>| next.wants(e);
        assert(f =~= g);
        let others = wanted(next, rest);
        if q.wants(first) {
            assert(all =~= seq![first] + others);
            if q.skip > 0 {
                assert(window(all, q.skip as int, q.limit as int) =~= window(
                    others,
                    q.skip - 1,
                    q.limit as int,
                ));
            } else {
                assert(window(all, 0, q.limit as int) =~= seq![first] + window(
                    others,
                    0,
                    q.limit - 1,
                ));
            }
        } else {
            assert(all =~= others);
        }
    }
}

/// The state once the entries of a stream have come.
pub open spec fn collect<'a, V: PartialOrd>(
    q: QueryState<'a, V>,
    entries: Seq<Entry<V>>,
) -> QueryState<'a, V>
    decreases entries.len(),
{
    if entries.len() == 0 {
        q
    } else {
        collect(
            q.step(
                QueryInput::<V, ()>::Polled(Ok(Async::Ready(Some(entries.first())))),
                Seq::empty(),
            ).0,
            entries.drop_first(),
        )
    }
}

/// A query with orders collects the entries that match, in the order in which they come.
pub proof fn law_all_matches_are_collected<'a, V: PartialOrd>(
    q: QueryState<'a, V>,
    entries: Seq<Entry<V>>,
)
    requires
        q.source is Collecting,
    ensures
        collect(q, entries).source is Collecting,
        collect(q, entries).collected() == q.collected() + wanted(q, entries),
        collect(q, entries).skip == q.skip,
        collect(q, entries).limit == q.limit,
    decreases entries.len(),
{
    let f = |e: Entry<V>| q.wants(e);
    let none = Seq::<Entry<V>>::empty();
    if entries.len() == 0 {
        assert(wanted(q, entries) =~= none) by {
            reveal(Seq::filter);
        }
        assert(q.collected() + none =~= q.collected());
    } else {
        let first = entries.first();
        let rest = entries.drop_first();
        lemma_filter_first(entries, f);
        let next = q.step(
            QueryInput::<V, ()>::Polled(Ok(Async::Ready(Some(first)))),
            Seq::empty(),
        ).0;
        law_all_matches_are_collected(next, rest);
        let g = |e: Entry<V>| next.wants(e);
        assert(f =~= g);
        if q.wants(first) {
            assert(q.collected().push(first) + wanted(next, rest) =~= q.collected() + (seq![first]
                + wanted(next, rest)));
        } else {
            assert(none + wanted(next, rest) =~= wanted(next, rest));
        }
    }
}

/// The entries that the next `n` results are made of.
pub open spec fn sorted_results<'a, V: PartialOrd>(q: QueryState<'a, V>, n: nat) -> Seq<Entry<V>>
    decreases n,
{
    if n == 0 {
        Seq::empty()
    } else {
        let (next, action) = q.step(QueryInput::<V, ()>::Start, Seq::empty());
        match action {
            QueryAction::Return(Ok(Async::Ready(Some(e)))) => seq![e] + sorted_results(
                next,
                (n - 1) as nat,
            ),
            _ => Seq::empty(),
        }
    }
}

/// Of entries that have been put in order, all are returned in that order, but for those that
/// are skipped and those beyond the limit.
pub proof fn law_sorted_results<'a, V: PartialOrd>(
    q: QueryState<'a, V>,
    sorted: Seq<Entry<V>>,
    n: nat,
)
    requires
        q.source == SourceState::Sorted(sorted),
        n >= sorted.len(),
    ensures
        sorted_results(q, n) == window(sorted, q.skip as int, q.limit as int),
    decreases n,
{
    let w = window(sorted, q.skip as int, q.limit as int);
    if n == 0 {
        assert(w =~= Seq::empty());
    } else {
        let (next, action) = q.step(QueryInput::<V, ()>::Start, Seq::empty());
        if q.limit == 0 || q.skip >= sorted.len() {
            assert(w =~= Seq::empty());
        } else {
            let rest = sorted.skip(q.skip + 1);
            law_sorted_results(next, rest, (n - 1) as nat);
            assert(w =~= seq![sorted[q.skip as int]] + window(rest, 0, q.limit - 1));
        }
    }
}

/// What a query asks for never changes.
pub proof fn law_query_stays_the_same<'a, V: PartialOrd, E>(
    q: QueryState<'a, V>,
    input: QueryInput<V, E>,
    sorted: Seq<Entry<V>>,
)
    requires
        q.accepts(input),
    ensures
        ({
            let next = q.step(input, sorted).0;
            &&& next.prefix == q.prefix
            &&& next.filters == q.filters
            &&& next.orders == q.orders
            &&& next.keys_only == q.keys_only
            &&& next.skip <= q.skip
            &&& next.limit <= q.limit
        }),
{
}

/// While the next entry is not there, the query waits, and goes on as if nothing had happened.
pub proof fn law_query_waits<'a, V: PartialOrd, E>(q: QueryState<'a, V>, sorted: Seq<Entry<V>>)
    requires
        q.accepts(QueryInput::<V, E>::Polled(Ok(Async::NotReady))),
    ensures
        q.step(QueryInput::<V, E>::Polled(Ok(Async::NotReady)), sorted) == (
            q,
            QueryAction::<V, E>::Return(Ok(Async::NotReady)),
        ),
        q.step(QueryInput::<V, E>::Start, sorted) == (q, QueryAction::<V, E>::PollEntries),
{
}

/// An error of the entries is told as it is. A query that gives entries as they come goes on; one
/// that collects them has no results.
pub proof fn law_query_tells_errors<'a, V: PartialOrd, E>(
    q: QueryState<'a, V>,
    e: E,
    sorted: Seq<Entry<V>>,
)
    requires
        q.accepts(QueryInput::<V, E>::Polled(Err(e))),
    ensures
        ({
            let (next, action) = q.step(QueryInput::<V, E>::Polled(Err(e)), sorted);
            &&& action == QueryAction::<V, E>::Return(Err(e))
            &&& q.source is Direct ==> next == q
            &&& q.source is Collecting ==> next.step(QueryInput::<V, E>::Start, sorted).1
                == QueryAction::<V, E>::Return(Ok(Async::Ready(None)))
        }),
{
}

/// The results end only where the entries end, the limit is reached or the entries could not be
/// had; once they have ended, they stay so.
pub proof fn law_end_of_results<'a, V: PartialOrd, E>(
    q: QueryState<'a, V>,
    input: QueryInput<V, E>,
    sorted: Seq<Entry<V>>,
)
    requires
        q.accepts(input),
    ensures
        ({
            let (next, action) = q.step(input, sorted);
            action matches QueryAction::Return(Ok(Async::Ready(None))) ==> {
                &&& next.limit == 0
                &&& next.step(QueryInput::<V, E>::Start, sorted) == (
                    next,
                    QueryAction::<V, E>::Return(Ok(Async::Ready(None))),
                )
                &&& q.limit == 0 || q.source is Failed || (input matches QueryInput::Polled(
                    Ok(Async::Ready(None)),
                )) || (q.source matches SourceState::Sorted(s) && s.len() <= q.skip)
            }
        }),
        input matches QueryInput::Polled(Ok(Async::Ready(None))) && q.source is Direct ==> q.step(
            input,
            sorted,
        ).1 == QueryAction::<V, E>::Return(Ok(Async::Ready(None))),
{
}

/// Once all entries are there, the results are made of them in their order, but for those that are
/// skipped and those beyond the limit.
pub proof fn law_collected_results<'a, V: PartialOrd>(
    q: QueryState<'a, V>,
    sorted: Seq<Entry<V>>,
    n: nat,
)
    requires
        q.source is Collecting,
        q.limit > 0,
        n >= sorted.len(),
    ensures
        ({
            let (next, action) = q.step(
                QueryInput::<V, ()>::Polled(Ok(Async::Ready(None))),
                sorted,
            );
            match action {
                QueryAction::Return(Ok(Async::Ready(Some(e)))) => seq![e] + sorted_results(next, n)
                    == window(sorted, q.skip as int, q.limit as int),
                QueryAction::Return(Ok(Async::Ready(None))) => window(
                    sorted,
                    q.skip as int,
                    q.limit as int,
                ).len() == 0,
                _ => false,
            }
        }),
{
    let (next, action) = q.step(QueryInput::<V, ()>::Polled(Ok(Async::Ready(None))), sorted);
    if q.skip < sorted.len() {
        let rest = sorted.skip(q.skip + 1);
        law_sorted_results(next, rest, n);
        assert(window(sorted, q.skip as int, q.limit as int) =~= seq![sorted[q.skip as int]]
            + window(rest, 0, q.limit - 1));
    }
}

/// A result is made of its entry: the key is the same, and so is the value unless only keys are
/// wanted. Everything else that is told is told as it is.
pub proof fn law_results_are_made_of_entries<V: PartialOrd + Default, E>(
    action: QueryAction<V, E>,
    step: QueryAction<V, E>,
    keys_only: bool,
)
    requires
        crate::datastore::query::performs(action, step, keys_only),
    ensures
        match action {
            QueryAction::PollEntries => step is PollEntries,
            QueryAction::Return(Ok(Async::Ready(Some(out)))) => step matches QueryAction::Return(
                Ok(Async::Ready(Some(entry))),
            ) && out.0 == entry.0 && (!keys_only ==> out.1 == entry.1) && (keys_only
                ==> call_ensures(V::default, (), out.1)),
            QueryAction::Return(Ok(Async::Ready(None))) => step == QueryAction::<V, E>::Return(
                Ok(Async::Ready(None)),
            ),
            QueryAction::Return(Ok(Async::NotReady)) => step == QueryAction::<V, E>::Return(
                Ok(Async::NotReady),
            ),
            QueryAction::Return(Err(e)) => step == QueryAction::<V, E>::Return(Err(e)),
        },
{
}

/// Filters on keys can always be decided, and so can all filters on values whose comparison is
/// specified; entries can be put in the order of their keys, and of such values.
pub proof fn law_what_can_be_decided<V: PartialOrd>(
    filters: Seq<crate::datastore::query::Filter<V>>,
    order: crate::datastore::order::Order,
)
    ensures
        (forall|i: int| 0 <= i < filters.len() ==> (#[trigger] filters[i]).ty is KeyCompare)
            ==> crate::datastore::query::decidable(filters),
        V::obeys_partial_cmp_spec() ==> crate::datastore::query::decidable(filters),
        order is ByKeyAsc || order is ByKeyDesc ==> crate::datastore::order::comparable::<V>(order),
        V::obeys_partial_cmp_spec() ==> crate::datastore::order::comparable::<V>(order),
{
}

/// As long as there may be more results, whatever comes of asking for the next entry can be handed
/// in.
pub proof fn law_query_takes_what_it_asks_for<'a, V: PartialOrd, E>(
    q: QueryState<'a, V>,
    polled: crate::async_value::Poll<Option<Entry<V>>, E>,
)
    ensures
        q.accepts(QueryInput::<V, E>::Start),
        q.step(QueryInput::<V, E>::Start, Seq::empty()).1 is PollEntries ==> q.accepts(
            QueryInput::Polled(polled),
        ),
{
}

} // verus!
