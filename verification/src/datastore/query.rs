//! Queries.

use crate::async_value::{Async, Poll};
use crate::datastore::order::{compare_keys, compare_values, sort, to_queue, Compared, Entry, Order};
use std::collections::VecDeque;
use vstd::prelude::*;

verus! {

/// Description of a query to apply on a datastore.
///
/// The various modifications of the dataset are applied in the same order as the fields (prefix,
/// filters, orders, skip, limit).
#[derive(Debug, Clone)]
pub struct Query<'a, T> {
    /// Only the keys that start with `prefix` will be returned.
    pub prefix: &'a str,
    /// Filters to apply on the results.
    pub filters: &'a [Filter<'a, T>],
    /// How to order the keys. Applied sequentially.
    pub orders: &'a [Order],
    /// Number of elements to skip from at the start of the results.
    pub skip: u64,
    /// Maximum number of elements in the results.
    pub limit: u64,
    /// Only return keys. If true, then all the values of the data will be the default.
    pub keys_only: bool,
}

impl<'a, T> Query<'a, T> {
    /// A query that returns everything.
    pub fn new() -> (r: Query<'a, T>)
        ensures
            r.prefix@ == Seq::<char>::empty(),
            r.filters@ == Seq::<Filter<'a, T>>::empty(),
            r.orders@ == Seq::<Order>::empty(),
            r.skip == 0,
            r.limit == u64::MAX,
            !r.keys_only,
    {
        proof {
            reveal_strlit("");
        }
        let r = Query {
            prefix: "",
            filters: &[],
            orders: &[],
            skip: 0,
            limit: u64::MAX,
            keys_only: false,
        };
        assert(r.prefix@ =~= Seq::<char>::empty());
        assert(r.filters@ =~= Seq::<Filter<'a, T>>::empty());
        assert(r.orders@ =~= Seq::<Order>::empty());
        r
    }

    /// Sets the maximum number of results.
    pub fn limit(&mut self, val: u64) -> (r: &mut Self)
        ensures
            *r == (Query { limit: val, ..*old(self) }),
            *final(self) == *final(r),
    {
        self.limit = val;
        self
    }

    /// Sets the number of results to skip.
    pub fn skip(&mut self, val: u64) -> (r: &mut Self)
        ensures
            *r == (Query { skip: val, ..*old(self) }),
            *final(self) == *final(r),
    {
        self.skip = val;
        self
    }

    /// Sets whether only keys are returned.
    pub fn keys_only(&mut self, val: bool) -> (r: &mut Self)
        ensures
            *r == (Query { keys_only: val, ..*old(self) }),
            *final(self) == *final(r),
    {
        self.keys_only = val;
        self
    }

    /// Sets how to order the results.
    pub fn orderings(&mut self, val: &'a [Order]) -> (r: &mut Self)
        ensures
            *r == (Query { orders: val, ..*old(self) }),
            *final(self) == *final(r),
    {
        self.orders = val;
        self
    }

    /// Sets the filters.
    pub fn filters(&mut self, val: &'a [Filter<'a, T>]) -> (r: &mut Self)
        ensures
            *r == (Query { filters: val, ..*old(self) }),
            *final(self) == *final(r),
    {
        self.filters = val;
        self
    }

    /// Sets the prefix of the keys.
    pub fn prefix(&mut self, val: &'a str) -> (r: &mut Self)
        ensures
            *r == (Query { prefix: val, ..*old(self) }),
            *final(self) == *final(r),
    {
        self.prefix = val;
        self
    }
}

/// A filter to apply to the results set.
#[derive(Debug, Clone)]
pub struct Filter<'a, T> {
    /// Type of filter and value to compare with.
    pub ty: FilterTy<'a, T>,
    /// Comparison operation.
    pub operation: FilterOp,
}

impl<'a, T> Filter<'a, T> {
    /// The filter with the given value and operation.
    pub fn new(ty: FilterTy<'a, T>, op: FilterOp) -> (r: Filter<'a, T>)
        ensures
            r == (Filter { ty, operation: op }),
    {
        Filter { ty, operation: op }
    }
}

/// Type of filter and value to compare with.
#[derive(Debug, Clone)]
pub enum FilterTy<'a, T> {
    /// Compare the key with a reference value.
    KeyCompare(&'a str),
    /// Compare the value with a reference value.
    ValueCompare(&'a T),
}

/// Filtering operation.
#[derive(Debug, Copy, Clone, PartialEq, Eq, Structural)]
pub enum FilterOp {
    /// Equal.
    Equal,
    /// Not equal.
    NotEqual,
    /// Less.
    Less,
    /// Not greater.
    LessOrEqual,
    /// Greater.
    Greater,
    /// Not less.
    GreaterOrEqual,
}

/// The outcome of a comparison is one that the operation lets pass. What does not compare is not
/// equal, not less and not greater.
pub open spec fn op_holds(op: FilterOp, c: Compared) -> bool {
    match op {
        FilterOp::Equal => c is Equal,
        FilterOp::NotEqual => !(c is Equal),
        FilterOp::Less => c is Less,
        FilterOp::LessOrEqual => !(c is Greater),
        FilterOp::Greater => c is Greater,
        FilterOp::GreaterOrEqual => !(c is Less),
    }
}

/// The entry passes the filter.
pub open spec fn passes<V: PartialOrd>(entry: Entry<V>, filter: Filter<V>) -> bool {
    op_holds(
        filter.operation,
        match filter.ty {
            FilterTy::KeyCompare(key) => crate::datastore::order::keys_compared(entry.0@, key@),
            FilterTy::ValueCompare(value) => crate::datastore::order::values_compared(
                entry.1,
                *value,
            ),
        },
    )
}

/// The key starts with the prefix.
pub open spec fn has_prefix<V>(entry: Entry<V>, prefix: Seq<char>) -> bool {
    crate::datastore::order::key_bytes(prefix).is_prefix_of(
        crate::datastore::order::key_bytes(entry.0@),
    )
}

/// The key starts with the prefix and the entry passes all filters.
pub open spec fn matches<V: PartialOrd>(
    entry: Entry<V>,
    prefix: Seq<char>,
    filters: Seq<Filter<V>>,
) -> bool {
    &&& has_prefix(entry, prefix)
    &&& forall|i: int| 0 <= i < filters.len() ==> passes(entry, #[trigger] filters[i])
}

/// Does the entry pass the filter?
pub fn naive_filter_test<V: PartialOrd>(entry: &Entry<V>, filter: &Filter<V>) -> (r: bool)
    ensures
        filter.ty is KeyCompare || crate::datastore::order::consistent::<V>() ==> r == passes(
            *entry,
            *filter,
        ),
        filter.ty matches FilterTy::ValueCompare(value) ==> exists|c: Compared| #[trigger]
            crate::datastore::order::may_compare(entry.1, *value, c) && r == op_holds(
                filter.operation,
                c,
            ),
{
    let c: Compared = match filter.ty {
        FilterTy::KeyCompare(ref_value) => compare_keys(entry.0.as_str(), ref_value),
        FilterTy::ValueCompare(ref_value) => compare_values(&entry.1, ref_value),
    };
    match filter.operation {
        FilterOp::Equal => c == Compared::Equal,
        FilterOp::NotEqual => c != Compared::Equal,
        FilterOp::Less => c == Compared::Less,
        FilterOp::LessOrEqual => c != Compared::Greater,
        FilterOp::Greater => c == Compared::Greater,
        FilterOp::GreaterOrEqual => c != Compared::Less,
    }
}

fn starts_with(key: &str, prefix: &str) -> (r: bool)
    ensures
        r == crate::datastore::order::key_bytes(prefix@).is_prefix_of(
            crate::datastore::order::key_bytes(key@),
        ),
{
    let k = key.as_bytes();
    let p = prefix.as_bytes();
    if k.len() < p.len() {
        return false;
    }
    let start = vstd::slice::slice_subrange(k, 0, p.len());
    crate::address::same_bytes(p, start)
}

/// The filters take no values, or values can be compared.
pub open spec fn decidable<V: PartialOrd>(filters: Seq<Filter<V>>) -> bool {
    crate::datastore::order::consistent::<V>() || forall|i: int|
        0 <= i < filters.len() ==> (#[trigger] filters[i]).ty is KeyCompare
}

fn is_match<V: PartialOrd>(entry: &Entry<V>, prefix: &str, filters: &[Filter<V>]) -> (r: bool)
    ensures
        decidable(filters@) ==> r == matches(*entry, prefix@, filters@),
        r ==> has_prefix(*entry, prefix@),
{
    if !starts_with(entry.0.as_str(), prefix) {
        return false;
    }
    let n: usize = filters.len();
    let mut i: usize = 0;
    while i < n
        invariant
            n == filters@.len(),
            i <= n,
            has_prefix(*entry, prefix@),
            decidable(filters@) ==> forall|j: int|
                0 <= j < i ==> passes(*entry, #[trigger] filters@[j]),
        decreases n - i,
    {
        if !naive_filter_test(entry, &filters[i]) {
            return false;
        }
        i += 1;
    }
    true
}

/// Where the results of a query come from.
enum Source<V> {
    /// From the entries as they come.
    Direct,
    /// From all entries, once they are there.
    Collecting(Vec<Entry<V>>),
    /// From all entries, which have been put in order.
    Sorted(VecDeque<Entry<V>>),
    /// From nowhere: the entries could not be had.
    Failed,
}

/// Where the results of a query come from.
pub enum SourceState<V> {
    /// From the entries as they come.
    Direct,
    /// From all entries, once they are there.
    Collecting(Seq<Entry<V>>),
    /// From all entries, which have been put in order.
    Sorted(Seq<Entry<V>>),
    /// From nowhere: the entries could not be had.
    Failed,
}

/// How far a query has come.
pub struct QueryState<'a, V> {
    /// The prefix of the keys.
    pub prefix: Seq<char>,
    /// The filters.
    pub filters: Seq<Filter<'a, V>>,
    /// How to order the results.
    pub orders: Seq<Order>,
    /// Are only keys returned?
    pub keys_only: bool,
    /// How many more results are skipped.
    pub skip: u64,
    /// How many more results are returned at most.
    pub limit: u64,
    /// Where the results come from.
    pub source: SourceState<V>,
}

/// What [`QueryStream::poll`] is told.
pub enum QueryInput<V, E> {
    /// Somebody wants the next result.
    Start,
    /// Outcome of asking for the next entry.
    Polled(Poll<Option<Entry<V>>, E>),
}

/// What [`QueryStream::poll`] wants to be done.
pub enum QueryAction<V, E> {
    /// Ask for the next entry.
    PollEntries,
    /// The next result.
    Return(Poll<Option<Entry<V>>, E>),
}

/// `out` is the result that is made of the entry.
pub open spec fn is_result<V: Default>(entry: Entry<V>, keys_only: bool, out: Entry<V>) -> bool {
    out.0 == entry.0 && if keys_only {
        call_ensures(V::default, (), out.1)
    } else {
        out.1 == entry.1
    }
}

/// The action is the one of the step, which has entries in place of the results that are made of
/// them.
pub open spec fn performs<V: Default, E>(
    action: QueryAction<V, E>,
    step: QueryAction<V, E>,
    keys_only: bool,
) -> bool {
    match step {
        QueryAction::PollEntries => action is PollEntries,
        QueryAction::Return(Ok(Async::Ready(Some(entry)))) => action matches QueryAction::Return(
            Ok(Async::Ready(Some(out))),
        ) && is_result(entry, keys_only, out),
        QueryAction::Return(r) => action matches QueryAction::Return(a) && a == r,
    }
}

impl<'a, V: PartialOrd> QueryState<'a, V> {
    /// The entry is one of the results.
    pub open spec fn wants(self, entry: Entry<V>) -> bool {
        matches(entry, self.prefix, self.filters)
    }

    /// A result that is there is skipped or returned.
    pub open spec fn deliver<E>(self, entry: Entry<V>) -> (Self, QueryAction<V, E>) {
        if self.skip > 0 {
            (QueryState { skip: (self.skip - 1) as u64, ..self }, QueryAction::PollEntries)
        } else {
            (
                QueryState { limit: (self.limit - 1) as u64, ..self },
                QueryAction::Return(Ok(Async::Ready(Some(entry)))),
            )
        }
    }

    /// An entry that is one of the results is collected, skipped or returned.
    pub open spec fn accept<E>(self, entry: Entry<V>) -> (Self, QueryAction<V, E>) {
        match self.source {
            SourceState::Collecting(c) => (
                QueryState { source: SourceState::Collecting(c.push(entry)), ..self },
                QueryAction::PollEntries,
            ),
            _ => self.deliver(entry),
        }
    }

    /// There are no more results.
    pub open spec fn end<E>(self) -> (Self, QueryAction<V, E>) {
        (QueryState { limit: 0, ..self }, QueryAction::Return(Ok(Async::Ready(None))))
    }

    /// The next of the results that have been put in order, after those that are skipped.
    pub open spec fn emit<E>(self, sorted: Seq<Entry<V>>) -> (Self, QueryAction<V, E>) {
        if self.skip >= sorted.len() {
            (QueryState {
                skip: (self.skip - sorted.len()) as u64,
                source: SourceState::Sorted(Seq::empty()),
                ..self
            }).end()
        } else {
            (
                QueryState {
                    skip: 0,
                    limit: (self.limit - 1) as u64,
                    source: SourceState::Sorted(sorted.skip(self.skip + 1)),
                    ..self
                },
                QueryAction::Return(Ok(Async::Ready(Some(sorted[self.skip as int])))),
            )
        }
    }

    /// One step of looking for the next result, where `sorted` is what was collected, put in
    /// order.
    pub open spec fn step<E>(self, input: QueryInput<V, E>, sorted: Seq<Entry<V>>) -> (
        Self,
        QueryAction<V, E>,
    ) {
        match input {
            QueryInput::Start => if self.limit == 0 {
                (self, QueryAction::Return(Ok(Async::Ready(None))))
            } else {
                match self.source {
                    SourceState::Sorted(s) => self.emit(s),
                    SourceState::Failed => self.end(),
                    _ => (self, QueryAction::PollEntries),
                }
            },
            QueryInput::Polled(Ok(Async::Ready(Some(entry)))) => if !self.wants(entry) {
                (self, QueryAction::PollEntries)
            } else {
                self.accept(entry)
            },
            QueryInput::Polled(Ok(Async::Ready(None))) => match self.source {
                SourceState::Collecting(_) => self.emit(sorted),
                _ => self.end(),
            },
            QueryInput::Polled(Ok(Async::NotReady)) => (
                self,
                QueryAction::Return(Ok(Async::NotReady)),
            ),
            QueryInput::Polled(Err(e)) => (
                match self.source {
                    SourceState::Collecting(_) => QueryState { source: SourceState::Failed, ..self },
                    _ => self,
                },
                QueryAction::Return(Err(e)),
            ),
        }
    }

    /// The input can follow in this state.
    pub open spec fn accepts<E>(self, input: QueryInput<V, E>) -> bool {
        match input {
            QueryInput::Start => true,
            QueryInput::Polled(_) => self.limit > 0 && (self.source is Direct
                || self.source is Collecting),
        }
    }

    /// All entries have been collected.
    pub open spec fn is_complete<E>(self, input: QueryInput<V, E>) -> bool {
        self.source is Collecting && (input matches QueryInput::Polled(Ok(Async::Ready(None))))
    }

    /// What was collected.
    pub open spec fn collected(self) -> Seq<Entry<V>> {
        match self.source {
            SourceState::Collecting(c) => c,
            _ => Seq::empty(),
        }
    }
}

/// The results of a query on a stream of entries.
pub struct QueryStream<'a, S, V> {
    stream: S,
    prefix: &'a str,
    filters: &'a [Filter<'a, V>],
    orders: &'a [Order],
    keys_only: bool,
    skip: u64,
    limit: u64,
    source: Source<V>,
}

impl<'a, S, V> View for QueryStream<'a, S, V> {
    type V = QueryState<'a, V>;

    closed spec fn view(&self) -> QueryState<'a, V> {
        QueryState {
            prefix: self.prefix@,
            filters: self.filters@,
            orders: self.orders@,
            keys_only: self.keys_only,
            skip: self.skip,
            limit: self.limit,
            source: match self.source {
                Source::Direct => SourceState::Direct,
                Source::Collecting(c) => SourceState::Collecting(c@),
                Source::Sorted(s) => SourceState::Sorted(s@),
                Source::Failed => SourceState::Failed,
            },
        }
    }
}

/// Naively applies a query on a stream of entries.
pub fn naive_apply_query<'a, S, V: PartialOrd + Default>(stream: S, query: &Query<'a, V>) -> (r:
    QueryStream<'a, S, V>)
    ensures
        r.spec_stream() == stream,
        r@ == (QueryState::<'a, V> {
            prefix: query.prefix@,
            filters: query.filters@,
            orders: query.orders@,
            keys_only: query.keys_only,
            skip: query.skip,
            limit: query.limit,
            source: if query.orders@.len() == 0 {
                SourceState::Direct
            } else {
                SourceState::Collecting(Seq::empty())
            },
        }),
{
    let source = if query.orders.len() == 0 {
        Source::Direct
    } else {
        let collected: Vec<Entry<V>> = Vec::new();
        Source::Collecting(collected)
    };
    QueryStream {
        stream,
        prefix: query.prefix,
        filters: query.filters,
        orders: query.orders,
        keys_only: query.keys_only,
        skip: query.skip,
        limit: query.limit,
        source,
    }
}

impl<'a, S, V> QueryStream<'a, S, V> {
    /// The stream of entries.
    pub closed spec fn spec_stream(&self) -> S {
        self.stream
    }

    /// The stream of entries.
    pub fn stream(&mut self) -> (r: &mut S)
        ensures
            *r == old(self).spec_stream(),
            final(self).spec_stream() == *final(r),
            final(self)@ == old(self)@,
    {
        &mut self.stream
    }
}

impl<'a, S, V: PartialOrd + Default> QueryStream<'a, S, V> {
    fn result(&self, entry: Entry<V>) -> (r: Entry<V>)
        ensures
            is_result(entry, self@.keys_only, r),
    {
        let mut entry: Entry<V> = entry;
        if self.keys_only {
            entry.1 = V::default();
        }
        entry
    }

    fn emit<E>(&mut self, sorted: VecDeque<Entry<V>>) -> (r: QueryAction<V, E>)
        requires
            old(self)@.limit > 0,
        ensures
            final(self).spec_stream() == old(self).spec_stream(),
            final(self)@ == old(self)@.emit::<E>(sorted@).0,
            performs(r, old(self)@.emit::<E>(sorted@).1, old(self)@.keys_only),
    {
        let ghost all = sorted@;
        let mut rest: VecDeque<Entry<V>> = sorted;
        let ghost mut gone: int = 0;
        while self.skip > 0 && rest.len() > 0
            invariant
                0 <= gone <= all.len(),
                gone <= old(self).skip,
                rest@ == all.skip(gone),
                self.skip == old(self).skip - gone,
                self.stream == old(self).stream,
                self.prefix == old(self).prefix,
                self.filters == old(self).filters,
                self.orders == old(self).orders,
                self.keys_only == old(self).keys_only,
                self.limit == old(self).limit,
            decreases self.skip,
        {
            rest.pop_front();
            self.skip -= 1;
            proof {
                gone = gone + 1;
                assert(rest@ =~= all.skip(gone));
            }
        }
        match rest.pop_front() {
            Some(entry) => {
                self.limit -= 1;
                assert(rest@ =~= all.skip(gone + 1));
                self.source = Source::Sorted(rest);
                QueryAction::Return(Ok(Async::Ready(Some(self.result(entry)))))
            },
            None => {
                self.limit = 0;
                assert(rest@ =~= Seq::empty());
                self.source = Source::Sorted(rest);
                QueryAction::Return(Ok(Async::Ready(None)))
            },
        }
    }

    /// One step of looking for the next result.
    ///
    /// Values that do not always compare in the same way may make an entry pass the filters or
    /// not.
    pub fn poll<E>(&mut self, input: QueryInput<V, E>) -> (r: QueryAction<V, E>)
        requires
            old(self)@.accepts(input),
        ensures
            final(self).spec_stream() == old(self).spec_stream(),
            (input matches QueryInput::Polled(Ok(Async::Ready(Some(_)))) ==> decidable(
                old(self)@.filters,
            )) ==> exists|sorted: Seq<Entry<V>>|
                #![trigger old(self)@.step(input, sorted)]
                (old(self)@.is_complete(input) ==> crate::datastore::order::put_in_orders(
                    old(self)@.orders,
                    old(self)@.collected(),
                    sorted,
                )) && final(self)@ == old(self)@.step(input, sorted).0 && performs(
                    r,
                    old(self)@.step(input, sorted).1,
                    old(self)@.keys_only,
                ),
            (input, old(self)@.source) matches (
                QueryInput::Polled(Ok(Async::Ready(None))),
                SourceState::Collecting(c),
            ) ==> exists|sorted: Seq<Entry<V>>|
                #![trigger old(self)@.emit::<E>(sorted)]
                crate::datastore::order::put_in_orders(old(self)@.orders, c, sorted)
                    && final(self)@ == old(self)@.emit::<E>(sorted).0 && performs(
                    r,
                    old(self)@.emit::<E>(sorted).1,
                    old(self)@.keys_only,
                ),
            (input, r) matches (
                QueryInput::Polled(Ok(Async::Ready(Some(entry)))),
                QueryAction::Return(Ok(Async::Ready(Some(out)))),
            ) ==> {
                &&& out.0 == entry.0
                &&& !old(self)@.keys_only ==> out.1 == entry.1
                &&& old(self)@.keys_only ==> call_ensures(V::default, (), out.1)
            },
            input matches QueryInput::Polled(Ok(Async::NotReady)) ==> (r matches QueryAction::Return(
                Ok(Async::NotReady),
            )),
            input matches QueryInput::Polled(Err(e)) ==> r == QueryAction::<V, E>::Return(Err(e)),
            input matches QueryInput::Polled(Ok(Async::Ready(Some(entry)))) ==> {
                ||| final(self)@ == old(self)@ && r is PollEntries
                ||| {
                    &&& has_prefix(entry, old(self)@.prefix)
                    &&& final(self)@ == old(self)@.accept::<E>(entry).0
                    &&& performs(r, old(self)@.accept::<E>(entry).1, old(self)@.keys_only)
                }
            },
    {
        let ghost idle = self@.step(input, Seq::empty());
        let mut source: Source<V> = Source::Failed;
        std::mem::swap(&mut self.source, &mut source);
        match input {
            QueryInput::Start => {
                if self.limit == 0 {
                    self.source = source;
                    return QueryAction::Return(Ok(Async::Ready(None)));
                }
                match source {
                    Source::Sorted(sorted) => self.emit(sorted),
                    Source::Failed => {
                        self.limit = 0;
                        QueryAction::Return(Ok(Async::Ready(None)))
                    },
                    _ => {
                        self.source = source;
                        QueryAction::PollEntries
                    },
                }
            },
            QueryInput::Polled(Ok(Async::Ready(Some(entry)))) => {
                if !is_match(&entry, self.prefix, self.filters) {
                    self.source = source;
                    return QueryAction::PollEntries;
                }
                match source {
                    Source::Collecting(collected) => {
                        let mut collected = collected;
                        collected.push(entry);
                        self.source = Source::Collecting(collected);
                        QueryAction::PollEntries
                    },
                    _ => {
                        self.source = source;
                        if self.skip > 0 {
                            self.skip -= 1;
                            QueryAction::PollEntries
                        } else {
                            self.limit -= 1;
                            QueryAction::Return(Ok(Async::Ready(Some(self.result(entry)))))
                        }
                    },
                }
            },
            QueryInput::Polled(Ok(Async::Ready(None))) => match source {
                Source::Collecting(collected) => {
                    let sorted: Vec<Entry<V>> = sort(collected, self.orders);
                    let ghost there = sorted@;
                    let r = self.emit(to_queue(sorted));
                    assert(old(self)@.step(input, there) == old(self)@.emit::<E>(there));
                    r
                },
                _ => {
                    self.source = source;
                    self.limit = 0;
                    QueryAction::Return(Ok(Async::Ready(None)))
                },
            },
            QueryInput::Polled(Ok(Async::NotReady)) => {
                self.source = source;
                QueryAction::Return(Ok(Async::NotReady))
            },
            QueryInput::Polled(Err(e)) => {
                match source {
                    Source::Collecting(_) => {},
                    _ => {
                        self.source = source;
                    },
                }
                QueryAction::Return(Err(e))
            },
        }
    }
}

} // verus!
