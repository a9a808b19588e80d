//! Comparing and sorting the entries of a datastore.

use std::collections::VecDeque;
use vstd::prelude::*;
use vstd::std_specs::cmp::PartialOrdSpec;

verus! {

/// How two things compare.
#[derive(Debug, Copy, Clone, PartialEq, Eq, Structural)]
pub enum Compared {
    /// The first is less.
    Less,
    /// Both are equal.
    Equal,
    /// The first is greater.
    Greater,
    /// They do not compare.
    Unrelated,
}

/// Order in which to sort the results of a query.
#[derive(Debug, Copy, Clone, PartialEq, Eq, Structural)]
pub enum Order {
    /// Put the values in ascending order.
    ByValueAsc,
    /// Put the values in descending order.
    ByValueDesc,
    /// Put the keys in ascending order.
    ByKeyAsc,
    /// Put the keys in descending order.
    ByKeyDesc,
}

/// An entry: a key and a value.
pub type Entry<V> = (String, V);

/// How two byte strings compare, in lexicographic order.
pub open spec fn bytes_compared(a: Seq<u8>, b: Seq<u8>) -> Compared
    decreases a.len(),
{
    if a.len() == 0 && b.len() == 0 {
        Compared::Equal
    } else if a.len() == 0 {
        Compared::Less
    } else if b.len() == 0 {
        Compared::Greater
    } else if a[0] < b[0] {
        Compared::Less
    } else if a[0] > b[0] {
        Compared::Greater
    } else {
        bytes_compared(a.drop_first(), b.drop_first())
    }
}

/// The bytes of a key.
pub open spec fn key_bytes(key: Seq<char>) -> Seq<u8> {
    vstd::utf8::encode_utf8(key)
}

/// How two keys compare.
pub open spec fn keys_compared(a: Seq<char>, b: Seq<char>) -> Compared {
    bytes_compared(key_bytes(a), key_bytes(b))
}

/// The outcome of `partial_cmp`.
pub open spec fn compared(o: Option<std::cmp::Ordering>) -> Compared {
    match o {
        Some(std::cmp::Ordering::Less) => Compared::Less,
        Some(std::cmp::Ordering::Equal) => Compared::Equal,
        Some(std::cmp::Ordering::Greater) => Compared::Greater,
        None => Compared::Unrelated,
    }
}

/// Two values may compare so: `partial_cmp` may give this.
pub open spec fn may_compare<V: PartialOrd>(a: V, b: V, c: Compared) -> bool {
    exists|o: Option<std::cmp::Ordering>| #[trigger]
        call_ensures(V::partial_cmp, (&a, &b), o) && c == compared(o)
}

/// Two values always compare in the same way: `partial_cmp` gives one result for them.
pub open spec fn consistent<V: PartialOrd>() -> bool {
    V::obeys_partial_cmp_spec() || forall|a: V, b: V, c: Compared, d: Compared|
        #![trigger may_compare(a, b, c), may_compare(a, b, d)]
        may_compare(a, b, c) && may_compare(a, b, d) ==> c == d
}

/// How two values compare, if they always compare in the same way.
pub open spec fn values_compared<V: PartialOrd>(a: V, b: V) -> Compared {
    if V::obeys_partial_cmp_spec() {
        compared(a.partial_cmp_spec(&b))
    } else {
        choose|c: Compared| may_compare(a, b, c)
    }
}

/// Does it take no values to put entries in this order, or can values be compared?
pub open spec fn comparable<V: PartialOrd>(order: Order) -> bool {
    order is ByKeyAsc || order is ByKeyDesc || consistent::<V>()
}

/// The first entry must come after the second one.
pub open spec fn after<V: PartialOrd>(order: Order, a: Entry<V>, b: Entry<V>) -> bool {
    match order {
        Order::ByValueAsc => values_compared(a.1, b.1) is Greater,
        Order::ByValueDesc => values_compared(b.1, a.1) is Greater,
        Order::ByKeyAsc => keys_compared(a.0@, b.0@) is Greater,
        Order::ByKeyDesc => keys_compared(b.0@, a.0@) is Greater,
    }
}

/// Two entries may come one after the other in any order.
pub open spec fn level<V: PartialOrd>(order: Order, a: Entry<V>, b: Entry<V>) -> bool {
    !after(order, a, b) && !after(order, b, a)
}

/// The entries can be put in order: not both of two come after each other, and what need not
/// come after a second one that need not come after a third one need not come after that.
pub open spec fn orderly<V: PartialOrd>(order: Order, s: Seq<Entry<V>>) -> bool {
    &&& forall|i: int, j: int|
        0 <= i < s.len() && 0 <= j < s.len() ==> !(#[trigger] after(order, s[i], s[j]) && after(
            order,
            s[j],
            s[i],
        ))
    &&& forall|i: int, j: int, k: int|
        0 <= i < s.len() && 0 <= j < s.len() && 0 <= k < s.len() && !(#[trigger] after(
            order,
            s[i],
            s[j],
        )) && !(#[trigger] after(order, s[j], s[k])) ==> !after(order, s[i], s[k])
}

/// No entry must come after a later one.
pub open spec fn in_order<V: PartialOrd>(order: Order, s: Seq<Entry<V>>) -> bool {
    forall|i: int, j: int| 0 <= i < j < s.len() ==> !(#[trigger] after(order, s[i], s[j]))
}

/// The entries that are level with `e`, in their order.
pub open spec fn level_with<V: PartialOrd>(order: Order, s: Seq<Entry<V>>, e: Entry<V>) -> Seq<
    Entry<V>,
> {
    s.filter(|x: Entry<V>| level(order, e, x))
}

/// `r` is `s` put in order, where entries that are level keep their order. If the entries cannot
/// be put in order, `r` holds the same entries.
pub open spec fn put_in_order<V: PartialOrd>(
    order: Order,
    s: Seq<Entry<V>>,
    r: Seq<Entry<V>>,
) -> bool {
    &&& r.to_multiset() == s.to_multiset()
    &&& comparable::<V>(order) && orderly(order, s) ==> {
        &&& in_order(order, r)
        &&& forall|i: int|
            0 <= i < s.len() ==> level_with(order, r, #[trigger] s[i]) == level_with(
                order,
                s,
                s[i],
            )
    }
}

/// Each of the steps is the one before it put in order.
pub open spec fn are_steps<V: PartialOrd>(orders: Seq<Order>, steps: Seq<Seq<Entry<V>>>) -> bool {
    &&& steps.len() == orders.len() + 1
    &&& forall|i: int|
        0 <= i < orders.len() ==> put_in_order(#[trigger] orders[i], steps[i], steps[i + 1])
}

/// `r` is `s` put in one order after the other.
pub open spec fn put_in_orders<V: PartialOrd>(
    orders: Seq<Order>,
    s: Seq<Entry<V>>,
    r: Seq<Entry<V>>,
) -> bool {
    exists|steps: Seq<Seq<Entry<V>>>| #[trigger]
        are_steps(orders, steps) && steps.first() == s && steps.last() == r
}

/// How two byte strings compare, in lexicographic order.
pub fn compare_bytes(a: &[u8], b: &[u8]) -> (r: Compared)
    ensures
        r == bytes_compared(a@, b@),
{
    let n: usize = a.len();
    let m: usize = b.len();
    let mut i: usize = 0;
    assert(a@.skip(0) =~= a@);
    assert(b@.skip(0) =~= b@);
    while i < n && i < m
        invariant
            n == a@.len(),
            m == b@.len(),
            i <= n,
            i <= m,
            bytes_compared(a@, b@) == bytes_compared(a@.skip(i as int), b@.skip(i as int)),
        decreases n - i,
    {
        assert(a@.skip(i as int).drop_first() =~= a@.skip(i + 1));
        assert(b@.skip(i as int).drop_first() =~= b@.skip(i + 1));
        if a[i] < b[i] {
            return Compared::Less;
        }
        if a[i] > b[i] {
            return Compared::Greater;
        }
        i += 1;
    }
    if n < m {
        Compared::Less
    } else if n > m {
        Compared::Greater
    } else {
        Compared::Equal
    }
}

/// How two keys compare.
pub fn compare_keys(a: &str, b: &str) -> (r: Compared)
    ensures
        r == keys_compared(a@, b@),
{
    compare_bytes(a.as_bytes(), b.as_bytes())
}

/// How two values compare.
pub fn compare_values<V: PartialOrd>(a: &V, b: &V) -> (r: Compared)
    ensures
        may_compare(*a, *b, r),
        consistent::<V>() ==> r == values_compared(*a, *b),
{
    let o = a.partial_cmp(b);
    assert(call_ensures(V::partial_cmp, (a, b), o));
    assert(may_compare(*a, *b, compared(o)));
    match o {
        Some(std::cmp::Ordering::Less) => Compared::Less,
        Some(std::cmp::Ordering::Equal) => Compared::Equal,
        Some(std::cmp::Ordering::Greater) => Compared::Greater,
        None => Compared::Unrelated,
    }
}

fn is_after<V: PartialOrd>(order: Order, a: &Entry<V>, b: &Entry<V>) -> (r: bool)
    ensures
        comparable::<V>(order) ==> r == after(order, *a, *b),
{
    let c: Compared = match order {
        Order::ByValueAsc => compare_values(&a.1, &b.1),
        Order::ByValueDesc => compare_values(&b.1, &a.1),
        Order::ByKeyAsc => compare_keys(a.0.as_str(), b.0.as_str()),
        Order::ByKeyDesc => compare_keys(b.0.as_str(), a.0.as_str()),
    };
    c == Compared::Greater
}

/// Entries of which each is one of orderly entries are orderly.
proof fn lemma_part_is_orderly<V: PartialOrd>(order: Order, s: Seq<Entry<V>>, t: Seq<Entry<V>>)
    requires
        orderly(order, s),
        forall|i: int| 0 <= i < t.len() ==> s.contains(#[trigger] t[i]),
    ensures
        orderly(order, t),
{
    assert forall|i: int, j: int| 0 <= i < t.len() && 0 <= j < t.len() implies !(#[trigger] after(
        order,
        t[i],
        t[j],
    ) && after(order, t[j], t[i])) by {
        let x = choose|x: int| 0 <= x < s.len() && s[x] == t[i];
        let y = choose|y: int| 0 <= y < s.len() && s[y] == t[j];
        assert(s.contains(t[i]) && s.contains(t[j]));
        assert(!(after(order, s[x], s[y]) && after(order, s[y], s[x])));
    }
    assert forall|i: int, j: int, k: int|
        0 <= i < t.len() && 0 <= j < t.len() && 0 <= k < t.len() && !(#[trigger] after(
            order,
            t[i],
            t[j],
        )) && !(#[trigger] after(order, t[j], t[k])) implies !after(order, t[i], t[k]) by {
        let x = choose|x: int| 0 <= x < s.len() && s[x] == t[i];
        let y = choose|y: int| 0 <= y < s.len() && s[y] == t[j];
        let z = choose|z: int| 0 <= z < s.len() && s[z] == t[k];
        assert(s.contains(t[i]) && s.contains(t[j]) && s.contains(t[k]));
        assert(!after(order, s[x], s[y]) && !after(order, s[y], s[z]));
    }
}

proof fn lemma_filter_none<A>(s: Seq<A>, f: spec_fn(A) -> bool)
    requires
        forall|i: int| 0 <= i < s.len() ==> !f(#[trigger] s[i]),
    ensures
        s.filter(f) == Seq::<A>::empty(),
    decreases s.len(),
{
    reveal(Seq::filter);
    if s.len() > 0 {
        lemma_filter_none(s.drop_last(), f);
    }
}

proof fn lemma_filter_insert<A>(s: Seq<A>, p: int, e: A, f: spec_fn(A) -> bool)
    requires
        0 <= p <= s.len(),
        f(e) ==> forall|i: int| p <= i < s.len() ==> !f(#[trigger] s[i]),
    ensures
        s.insert(p, e).filter(f) == s.filter(f) + (if f(e) {
            seq![e]
        } else {
            Seq::empty()
        }),
{
    let front = s.take(p);
    let back = s.skip(p);
    let none = Seq::<A>::empty();
    assert(s =~= front + back);
    assert(s.insert(p, e) =~= front + seq![e] + back);
    Seq::filter_distributes_over_add(front, back, f);
    Seq::filter_distributes_over_add(front + seq![e], back, f);
    Seq::filter_distributes_over_add(front, seq![e], f);
    assert(seq![e].filter(f) == (if f(e) {
        seq![e]
    } else {
        none
    })) by {
        reveal(Seq::filter);
        assert(seq![e].drop_last() =~= none);
        assert(none.filter(f) =~= none);
        assert(none.push(e) =~= seq![e]);
    }
    if f(e) {
        assert forall|i: int| 0 <= i < back.len() implies !f(#[trigger] back[i]) by {
            assert(back[i] == s[p + i]);
        }
        lemma_filter_none(back, f);
        assert(front.filter(f) + seq![e] + none =~= front.filter(f) + none + seq![e]);
    } else {
        assert(front.filter(f) + none + back.filter(f) =~= front.filter(f) + back.filter(f) + none);
    }
}

/// One more entry is put where it belongs.
proof fn lemma_inserted<V: PartialOrd>(
    order: Order,
    s: Seq<Entry<V>>,
    k: int,
    r: Seq<Entry<V>>,
    p: int,
)
    requires
        0 <= k < s.len(),
        put_in_order(order, s.take(k), r),
        0 <= p <= r.len(),
        comparable::<V>(order) ==> {
            &&& forall|i: int| p <= i < r.len() ==> after(order, #[trigger] r[i], s[k])
            &&& p > 0 ==> !after(order, r[p - 1], s[k])
        },
    ensures
        put_in_order(order, s.take(k + 1), r.insert(p, s[k])),
{
    broadcast use vstd::seq_lib::group_to_multiset_ensures;

    let e = s[k];
    let before = s.take(k);
    let now = s.take(k + 1);
    let n = r.insert(p, e);
    assert(now =~= before.push(e));
    assert(n.to_multiset() =~= r.to_multiset().insert(e)) by {
        vstd::seq_lib::to_multiset_insert(r, p, e);
    }
    assert(now.to_multiset() =~= before.to_multiset().insert(e));
    if comparable::<V>(order) && orderly(order, now) {
        assert forall|i: int| 0 <= i < before.len() implies now.contains(#[trigger] before[i]) by {
            assert(now[i] == before[i]);
        }
        lemma_part_is_orderly(order, now, before);
        assert forall|i: int| 0 <= i < r.len() implies before.contains(#[trigger] r[i]) by {
            assert(r.to_multiset().count(r[i]) > 0);
        }
        assert forall|i: int| 0 <= i < r.len() implies now.contains(#[trigger] r[i]) by {
            assert(before.contains(r[i]));
            let j = choose|j: int| 0 <= j < before.len() && before[j] == r[i];
            assert(now[j] == r[i]);
        }
        assert(now[k] == e);
        assert forall|i: int| 0 <= i < n.len() implies now.contains(#[trigger] n[i]) by {
            if i < p {
                assert(n[i] == r[i]);
            } else if i > p {
                assert(n[i] == r[i - 1]);
            } else {
                assert(n[i] == e);
            }
        }
        lemma_part_is_orderly(order, now, n);
        assert forall|i: int, j: int| 0 <= i < j < n.len() implies !(#[trigger] after(
            order,
            n[i],
            n[j],
        )) by {
            if j < p {
                assert(n[i] == r[i] && n[j] == r[j]);
            } else if i > p {
                assert(n[i] == r[i - 1] && n[j] == r[j - 1]);
            } else if j == p {
                assert(n[i] == r[i] && n[j] == e && n[p - 1] == r[p - 1]);
                if i < p - 1 {
                    assert(!after(order, r[i], r[p - 1]));
                    assert(!after(order, n[i], n[p - 1]));
                    assert(!after(order, n[p - 1], n[p]));
                }
            } else if i == p {
                assert(n[i] == e && n[j] == r[j - 1]);
                assert(after(order, n[j], n[i]));
            } else {
                assert(n[i] == r[i] && n[j] == r[j - 1]);
            }
        }
        assert forall|i: int| 0 <= i < now.len() implies level_with(order, n, #[trigger] now[i])
            == level_with(order, now, now[i]) by {
            let c = now[i];
            let f = |x: Entry<V>| level(order, c, x);
            assert(now.contains(c));
            if f(e) {
                assert forall|j: int| p <= j < r.len() implies !f(#[trigger] r[j]) by {
                    let y = choose|y: int| 0 <= y < now.len() && now[y] == r[j];
                    assert(now.contains(r[j]));
                    assert(after(order, r[j], e));
                    if f(r[j]) {
                        assert(!after(order, now[y], now[i]));
                        assert(!after(order, now[i], now[k]));
                        assert(!after(order, now[y], now[k]));
                    }
                }
            }
            lemma_filter_insert(r, p, e, f);
            lemma_filter_insert(before, k, e, f);
            assert(before.insert(k, e) =~= now);
            if i < k {
                assert(before[i] == c);
                assert(level_with(order, r, before[i]) == level_with(order, before, before[i]));
            } else {
                assert(before =~= now.take(k));
                lemma_level_of_new(order, now, k, before, r);
            }
        }
    }
}

/// If the entries that are level with each old entry are the same in both, so are those that are
/// level with a new one.
proof fn lemma_level_of_new<V: PartialOrd>(
    order: Order,
    now: Seq<Entry<V>>,
    k: int,
    before: Seq<Entry<V>>,
    r: Seq<Entry<V>>,
)
    requires
        0 <= k < now.len(),
        before == now.take(k),
        orderly(order, now),
        forall|i: int| 0 <= i < r.len() ==> before.contains(#[trigger] r[i]),
        forall|i: int|
            0 <= i < before.len() ==> level_with(order, r, #[trigger] before[i]) == level_with(
                order,
                before,
                before[i],
            ),
    ensures
        level_with(order, r, now[k]) == level_with(order, before, now[k]),
{
    let e = now[k];
    let f = |x: Entry<V>| level(order, e, x);
    if exists|i: int| 0 <= i < before.len() && level(order, e, #[trigger] before[i]) {
        let i = choose|i: int| 0 <= i < before.len() && level(order, e, #[trigger] before[i]);
        let g = |x: Entry<V>| level(order, before[i], x);
        assert(now[i] == before[i]);
        assert forall|j: int| 0 <= j < before.len() implies f(#[trigger] before[j]) == g(
            before[j],
        ) by {
            assert(now[j] == before[j]);
            lemma_level_is_shared(order, now, k, i, j);
        }
        lemma_same_filter(before, f, g);
        assert forall|j: int| 0 <= j < r.len() implies f(#[trigger] r[j]) == g(r[j]) by {
            assert(before.contains(r[j]));
            let y = choose|y: int| 0 <= y < before.len() && before[y] == r[j];
            assert(f(before[y]) == g(before[y]));
        }
        lemma_same_filter(r, f, g);
        assert(level_with(order, r, before[i]) == level_with(order, before, before[i]));
    } else {
        assert forall|j: int| 0 <= j < before.len() implies !f(#[trigger] before[j]) by {}
        lemma_filter_none(before, f);
        assert forall|j: int| 0 <= j < r.len() implies !f(#[trigger] r[j]) by {
            assert(before.contains(r[j]));
            let y = choose|y: int| 0 <= y < before.len() && before[y] == r[j];
            assert(!level(order, e, before[y]));
        }
        lemma_filter_none(r, f);
    }
}

proof fn lemma_level_is_shared<V: PartialOrd>(
    order: Order,
    s: Seq<Entry<V>>,
    a: int,
    b: int,
    c: int,
)
    requires
        orderly(order, s),
        0 <= a < s.len(),
        0 <= b < s.len(),
        0 <= c < s.len(),
        level(order, s[a], s[b]),
    ensures
        level(order, s[a], s[c]) == level(order, s[b], s[c]),
{
    if level(order, s[a], s[c]) {
        assert(!after(order, s[b], s[a]) && !after(order, s[a], s[c]));
        assert(!after(order, s[c], s[a]) && !after(order, s[a], s[b]));
    }
    if level(order, s[b], s[c]) {
        assert(!after(order, s[a], s[b]) && !after(order, s[b], s[c]));
        assert(!after(order, s[c], s[b]) && !after(order, s[b], s[a]));
    }
}

proof fn lemma_same_filter<A>(s: Seq<A>, f: spec_fn(A) -> bool, g: spec_fn(A) -> bool)
    requires
        forall|i: int| 0 <= i < s.len() ==> f(#[trigger] s[i]) == g(s[i]),
    ensures
        s.filter(f) == s.filter(g),
    decreases s.len(),
{
    reveal(Seq::filter);
    if s.len() > 0 {
        assert(s.last() == s[s.len() - 1]);
        assert forall|i: int| 0 <= i < s.drop_last().len() implies f(#[trigger] s.drop_last()[i])
            == g(s.drop_last()[i]) by {
            assert(s.drop_last()[i] == s[i]);
        }
        lemma_same_filter(s.drop_last(), f, g);
    }
}

/// The same items in a queue.
pub fn to_queue<T>(items: Vec<T>) -> (r: VecDeque<T>)
    ensures
        r@ == items@,
{
    let ghost all = items@;
    let mut rest: Vec<T> = items;
    let mut queue: VecDeque<T> = VecDeque::new();
    let n: usize = rest.len();
    let mut k: usize = n;
    assert(all.take(n as int) =~= all);
    assert(all.skip(n as int) =~= queue@);
    while k > 0
        invariant
            k <= n,
            n == all.len(),
            rest@ == all.take(k as int),
            queue@ == all.skip(k as int),
        decreases k,
    {
        if let Some(item) = rest.pop() {
            assert(item == all[k - 1]);
            queue.push_front(item);
        }
        k -= 1;
        assert(rest@ =~= all.take(k as int));
        assert(queue@ =~= all.skip(k as int));
    }
    queue
}

/// Puts entries in order.
pub fn sort_by<V: PartialOrd>(collected: Vec<Entry<V>>, order: Order) -> (r: Vec<Entry<V>>)
    ensures
        put_in_order(order, collected@, r@),
{
    let ghost s = collected@;
    let n: usize = collected.len();
    let mut rest: VecDeque<Entry<V>> = to_queue(collected);
    let mut out: Vec<Entry<V>> = Vec::new();
    let mut k: usize = 0;
    assert(s.take(0) =~= out@);
    assert(s.skip(0) =~= s);
    while k < n
        invariant
            n == s.len(),
            k <= n,
            rest@ == s.skip(k as int),
            put_in_order(order, s.take(k as int), out@),
        decreases n - k,
    {
        let next: Option<Entry<V>> = rest.pop_front();
        assert(next == Some(s[k as int]));
        let e: Entry<V> = next.unwrap();
        assert(e == s[k as int]);
        assert(rest@ =~= s.skip(k + 1));
        let mut p: usize = out.len();
        while p > 0 && is_after(order, &out[p - 1], &e)
            invariant
                p <= out@.len(),
                comparable::<V>(order) ==> forall|i: int|
                    p <= i < out@.len() ==> after(order, #[trigger] out@[i], e),
            ensures
                p <= out@.len(),
                comparable::<V>(order) ==> forall|i: int|
                    p <= i < out@.len() ==> after(order, #[trigger] out@[i], e),
                p > 0 && comparable::<V>(order) ==> !after(order, out@[p - 1], e),
            decreases p,
        {
            p -= 1;
        }
        proof {
            lemma_inserted(order, s, k as int, out@, p as int);
        }
        out.insert(p, e);
        k += 1;
    }
    assert(s.take(n as int) =~= s);
    out
}

/// Puts entries in one order after the other.
pub fn sort<V: PartialOrd>(collected: Vec<Entry<V>>, orders: &[Order]) -> (r: Vec<Entry<V>>)
    ensures
        put_in_orders(orders@, collected@, r@),
{
    let ghost s = collected@;
    let mut out: Vec<Entry<V>> = collected;
    let n: usize = orders.len();
    let mut i: usize = 0;
    let ghost mut steps: Seq<Seq<Entry<V>>> = seq![s];
    while i < n
        invariant
            n == orders@.len(),
            i <= n,
            are_steps(orders@.take(i as int), steps),
            steps.first() == s,
            steps.last() == out@,
        decreases n - i,
    {
        let ghost m = steps;
        out = sort_by(out, orders[i]);
        proof {
            steps = m.push(out@);
            let done = orders@.take(i as int);
            let now = orders@.take(i + 1);
            assert forall|j: int| 0 <= j < now.len() implies put_in_order(
                #[trigger] now[j],
                steps[j],
                steps[j + 1],
            ) by {
                if j < i {
                    assert(now[j] == done[j]);
                    assert(steps[j] == m[j] && steps[j + 1] == m[j + 1]);
                } else {
                    assert(steps[j] == m.last());
                }
            }
        }
        i += 1;
    }
    assert(orders@.take(n as int) =~= orders@);
    out
}

pub(crate) proof fn lemma_bytes_turned(a: Seq<u8>, b: Seq<u8>)
    ensures
        bytes_compared(a, b) is Greater <==> bytes_compared(b, a) is Less,
    decreases a.len(),
{
    if a.len() > 0 && b.len() > 0 && a[0] == b[0] {
        lemma_bytes_turned(a.drop_first(), b.drop_first());
    }
}

proof fn lemma_bytes_chain(a: Seq<u8>, b: Seq<u8>, c: Seq<u8>)
    requires
        !(bytes_compared(a, b) is Greater),
        !(bytes_compared(b, c) is Greater),
    ensures
        !(bytes_compared(a, c) is Greater),
    decreases a.len(),
{
    if a.len() > 0 && b.len() > 0 && c.len() > 0 && a[0] == b[0] && b[0] == c[0] {
        lemma_bytes_chain(a.drop_first(), b.drop_first(), c.drop_first());
    }
}

/// Entries can always be put in the order of their keys.
pub proof fn law_keys_are_orderly<V: PartialOrd>(order: Order, s: Seq<Entry<V>>)
    requires
        order is ByKeyAsc || order is ByKeyDesc,
    ensures
        orderly(order, s),
{
    assert forall|i: int, j: int| 0 <= i < s.len() && 0 <= j < s.len() implies !(#[trigger] after(
        order,
        s[i],
        s[j],
    ) && after(order, s[j], s[i])) by {
        lemma_bytes_turned(key_bytes(s[i].0@), key_bytes(s[j].0@));
    }
    assert forall|i: int, j: int, k: int|
        0 <= i < s.len() && 0 <= j < s.len() && 0 <= k < s.len() && !(#[trigger] after(
            order,
            s[i],
            s[j],
        )) && !(#[trigger] after(order, s[j], s[k])) implies !after(order, s[i], s[k]) by {
        let a = key_bytes(s[i].0@);
        let b = key_bytes(s[j].0@);
        let c = key_bytes(s[k].0@);
        if order is ByKeyAsc {
            lemma_bytes_chain(a, b, c);
        } else {
            lemma_bytes_chain(c, b, a);
        }
    }
}

/// Entries that were put in the order of their keys have their keys in that order, whatever the
/// entries.
pub proof fn law_sorting_by_key_sorts<V: PartialOrd>(
    order: Order,
    s: Seq<Entry<V>>,
    r: Seq<Entry<V>>,
)
    requires
        order is ByKeyAsc || order is ByKeyDesc,
        put_in_order(order, s, r),
    ensures
        in_order(order, r),
        r.to_multiset() == s.to_multiset(),
{
    law_keys_are_orderly(order, s);
}

/// The values of all entries compare, each pair in the same way from both ends, and what is not
/// greater than a second one that is not greater than a third one is not greater than that.
pub open spec fn is_total<V: PartialOrd>(s: Seq<Entry<V>>) -> bool {
    &&& forall|i: int, j: int|
        0 <= i < s.len() && 0 <= j < s.len() ==> !(#[trigger] values_compared(
            s[i].1,
            s[j].1,
        ) is Unrelated) && (values_compared(s[i].1, s[j].1) is Less <==> values_compared(
            s[j].1,
            s[i].1,
        ) is Greater)
    &&& forall|i: int, j: int, k: int|
        0 <= i < s.len() && 0 <= j < s.len() && 0 <= k < s.len() && !(#[trigger] values_compared(
            s[i].1,
            s[j].1,
        ) is Greater) && !(#[trigger] values_compared(s[j].1, s[k].1) is Greater)
            ==> !(values_compared(s[i].1, s[k].1) is Greater)
}

/// Entries whose values are totally ordered can be put in every order.
pub proof fn law_total_values_are_orderly<V: PartialOrd>(order: Order, s: Seq<Entry<V>>)
    requires
        is_total(s),
    ensures
        orderly(order, s),
{
    if order is ByKeyAsc || order is ByKeyDesc {
        law_keys_are_orderly(order, s);
    } else {
        assert forall|i: int, j: int| 0 <= i < s.len() && 0 <= j < s.len() implies !(
        #[trigger] after(order, s[i], s[j]) && after(order, s[j], s[i])) by {
            assert(values_compared(s[i].1, s[j].1) is Less <==> values_compared(
                s[j].1,
                s[i].1,
            ) is Greater);
        }
        assert forall|i: int, j: int, k: int|
            0 <= i < s.len() && 0 <= j < s.len() && 0 <= k < s.len() && !(#[trigger] after(
                order,
                s[i],
                s[j],
            )) && !(#[trigger] after(order, s[j], s[k])) implies !after(order, s[i], s[k]) by {
            assert(order is ByValueAsc || order is ByValueDesc);
        }
    }
}

/// What is put in one order after the other is put in all orders but the last, and that is put in
/// the last one.
pub open spec fn put_in_last_order<V: PartialOrd>(
    orders: Seq<Order>,
    s: Seq<Entry<V>>,
    before: Seq<Entry<V>>,
    r: Seq<Entry<V>>,
) -> bool {
    put_in_orders(orders.drop_last(), s, before) && put_in_order(orders.last(), before, r)
}

/// Sorting by several orders sorts by all but the last and then by the last one. Without any order
/// nothing is moved.
pub proof fn law_sorting_ends_with_the_last_order<V: PartialOrd>(
    orders: Seq<Order>,
    s: Seq<Entry<V>>,
    r: Seq<Entry<V>>,
)
    requires
        put_in_orders(orders, s, r),
    ensures
        r.to_multiset() == s.to_multiset(),
        orders.len() == 0 ==> r == s,
        orders.len() > 0 ==> exists|before: Seq<Entry<V>>| #[trigger]
            put_in_last_order(orders, s, before, r),
    decreases orders.len(),
{
    let steps = choose|steps: Seq<Seq<Entry<V>>>| #[trigger]
        are_steps(orders, steps) && steps.first() == s && steps.last() == r;
    let n = orders.len() as int;
    if n > 0 {
        let front = steps.drop_last();
        let before = front.last();
        let others = orders.drop_last();
        assert forall|i: int| 0 <= i < others.len() implies put_in_order(
            #[trigger] others[i],
            front[i],
            front[i + 1],
        ) by {
            assert(others[i] == orders[i]);
        }
        assert(are_steps(others, front));
        assert(put_in_order(orders[n - 1], steps[n - 1], steps[n]));
        assert(put_in_last_order(orders, s, before, r));
        law_sorting_ends_with_the_last_order(others, s, before);
    }
}

/// Entries whose values are totally ordered are sorted by the last order; those that are level in
/// it come as the orders before it put them. No entry is lost, added or changed.
pub proof fn law_last_order_decides<V: PartialOrd>(
    orders: Seq<Order>,
    s: Seq<Entry<V>>,
    r: Seq<Entry<V>>,
)
    requires
        put_in_orders(orders, s, r),
        orders.len() > 0,
        consistent::<V>(),
        is_total(s),
    ensures
        r.to_multiset() == s.to_multiset(),
        in_order(orders.last(), r),
        exists|before: Seq<Entry<V>>| #[trigger]
            put_in_orders(orders.drop_last(), s, before) && forall|i: int|
                0 <= i < s.len() ==> level_with(orders.last(), r, #[trigger] s[i]) == level_with(
                    orders.last(),
                    before,
                    s[i],
                ),
{
    broadcast use vstd::seq_lib::group_to_multiset_ensures;

    law_sorting_ends_with_the_last_order(orders, s, r);
    let last = orders.last();
    let before = choose|before: Seq<Entry<V>>| #[trigger]
        put_in_last_order(orders, s, before, r);
    law_sorting_ends_with_the_last_order(orders.drop_last(), s, before);
    assert forall|i: int| 0 <= i < before.len() implies s.contains(#[trigger] before[i]) by {
        assert(before.to_multiset().count(before[i]) > 0);
    }
    law_total_values_are_orderly(last, s);
    lemma_part_is_orderly(last, s, before);
    assert forall|i: int| 0 <= i < s.len() implies level_with(last, r, #[trigger] s[i])
        == level_with(last, before, s[i]) by {
        assert(s.to_multiset().count(s[i]) > 0);
        assert(before.contains(s[i]));
        let j = before.index_of(s[i]);
        assert(before[j] == s[i]);
    }
}

proof fn lemma_filter_twice<A>(
    s: Seq<A>,
    f: spec_fn(A) -> bool,
    g: spec_fn(A) -> bool,
    both: spec_fn(A) -> bool,
)
    requires
        forall|x: A| #[trigger] both(x) == (f(x) && g(x)),
    ensures
        s.filter(f).filter(g) == s.filter(both),
    decreases s.len(),
{
    reveal(Seq::filter);
    if s.len() > 0 {
        lemma_filter_twice(s.drop_last(), f, g, both);
        let front = s.drop_last().filter(f);
        let e = s.last();
        assert(both(e) == (f(e) && g(e)));
        if f(e) {
            assert(front.push(e).drop_last() =~= front);
        }
    }
}

/// The entries that are level with `e` in every order, in their order.
pub open spec fn tied_with<V: PartialOrd>(
    orders: Seq<Order>,
    s: Seq<Entry<V>>,
    e: Entry<V>,
) -> Seq<Entry<V>> {
    s.filter(|x: Entry<V>| is_tied(orders, e, x))
}

/// Two entries are level in every order.
pub open spec fn is_tied<V: PartialOrd>(orders: Seq<Order>, a: Entry<V>, b: Entry<V>) -> bool {
    forall|i: int| 0 <= i < orders.len() ==> level(#[trigger] orders[i], a, b)
}

/// Entries whose values are totally ordered and that are level in every order keep their order.
pub proof fn law_ties_keep_their_order<V: PartialOrd>(
    orders: Seq<Order>,
    s: Seq<Entry<V>>,
    r: Seq<Entry<V>>,
    e: Entry<V>,
)
    requires
        put_in_orders(orders, s, r),
        consistent::<V>(),
        is_total(s),
        s.contains(e),
    ensures
        tied_with(orders, r, e) == tied_with(orders, s, e),
    decreases orders.len(),
{
    if orders.len() == 0 {
        law_sorting_ends_with_the_last_order(orders, s, r);
    } else {
        law_last_order_decides(orders, s, r);
        let others = orders.drop_last();
        let last = orders.last();
        let before = choose|before: Seq<Entry<V>>| #[trigger]
            put_in_orders(others, s, before) && forall|i: int|
                0 <= i < s.len() ==> level_with(last, r, #[trigger] s[i]) == level_with(
                    last,
                    before,
                    s[i],
                );
        law_ties_keep_their_order(others, s, before, e);
        let f = |x: Entry<V>| level(last, e, x);
        let g = |x: Entry<V>| is_tied(others, e, x);
        let both = |x: Entry<V>| is_tied(orders, e, x);
        assert forall|x: Entry<V>| #[trigger] both(x) == (f(x) && g(x)) by {
            assert(orders[orders.len() - 1] == last);
            if both(x) {
                assert forall|i: int| 0 <= i < others.len() implies level(
                    #[trigger] others[i],
                    e,
                    x,
                ) by {
                    assert(others[i] == orders[i]);
                }
            }
            if f(x) && g(x) {
                assert forall|i: int| 0 <= i < orders.len() implies level(
                    #[trigger] orders[i],
                    e,
                    x,
                ) by {
                    if i < others.len() {
                        assert(others[i] == orders[i]);
                    }
                }
            }
        }
        let i = s.index_of(e);
        assert(s[i] == e);
        assert(r.filter(f) == before.filter(f));
        lemma_filter_twice(r, f, g, both);
        lemma_filter_twice(before, f, g, both);
        lemma_filter_twice(before, g, f, both);
        lemma_filter_twice(s, g, f, both);
    }
}

/// A type whose comparison is specified compares as it is specified, and always in the same way.
pub proof fn law_specified_values_are_consistent<V: PartialOrd>(a: V, b: V)
    requires
        V::obeys_partial_cmp_spec(),
    ensures
        consistent::<V>(),
        values_compared(a, b) == compared(a.partial_cmp_spec(&b)),
{
}

} // verus!
