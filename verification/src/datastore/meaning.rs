//! What the filters and orders of a query mean.

use crate::datastore::order::{Compared, Entry, Order};
use crate::datastore::query::{Filter, FilterOp, FilterTy};
use vstd::prelude::*;
use vstd::std_specs::cmp::PartialOrdSpec;

verus! {

/// Two byte strings are compared by the first byte in which they differ, and a byte string is less
/// than what it is the start of.
pub proof fn law_bytes_compare_lexicographically(a: Seq<u8>, b: Seq<u8>, k: int)
    requires
        0 <= k <= a.len(),
        k <= b.len(),
        a.take(k) == b.take(k),
        k == a.len() || k == b.len() || a[k] != b[k],
    ensures
        crate::datastore::order::bytes_compared(a, b) == if k == a.len() && k == b.len() {
            Compared::Equal
        } else if k == b.len() || (k < a.len() && a[k] > b[k]) {
            Compared::Greater
        } else {
            Compared::Less
        },
    decreases k,
{
    if k > 0 {
        assert(a.take(k)[0] == b.take(k)[0]);
        let (c, d) = (a.drop_first(), b.drop_first());
        assert forall|i: int| 0 <= i < k - 1 implies #[trigger] c.take(k - 1)[i]
            == d.take(k - 1)[i] by {
            assert(a[i + 1] == a.take(k)[i + 1]);
            assert(b[i + 1] == b.take(k)[i + 1]);
            assert(c[i] == a[i + 1] && d[i] == b[i + 1]);
        }
        assert(a[0] == a.take(k)[0] && b[0] == b.take(k)[0]);
        if k < a.len() && k < b.len() {
            assert(c[k - 1] == a[k] && d[k - 1] == b[k]);
        }
        assert(c.take(k - 1) =~= d.take(k - 1));
        law_bytes_compare_lexicographically(c, d, k - 1);
    }
}

/// Two keys are equal exactly if they compare so, and of two different ones exactly one is less.
pub proof fn law_keys_are_totally_ordered(a: Seq<char>, b: Seq<char>)
    ensures
        crate::datastore::order::keys_compared(a, b) is Equal <==> a == b,
        crate::datastore::order::keys_compared(a, b) is Less
            <==> crate::datastore::order::keys_compared(b, a) is Greater,
        !(crate::datastore::order::keys_compared(a, b) is Unrelated),
{
    let (x, y) = (crate::datastore::order::key_bytes(a), crate::datastore::order::key_bytes(b));
    lemma_compared_equal(x, y);
    crate::datastore::order::lemma_bytes_turned(y, x);
    if x == y {
        vstd::utf8::encode_utf8_decode_utf8(a);
        vstd::utf8::encode_utf8_decode_utf8(b);
    }
}

proof fn lemma_compared_equal(a: Seq<u8>, b: Seq<u8>)
    ensures
        crate::datastore::order::bytes_compared(a, b) is Equal <==> a == b,
        !(crate::datastore::order::bytes_compared(a, b) is Unrelated),
    decreases a.len(),
{
    if a.len() > 0 && b.len() > 0 {
        lemma_compared_equal(a.drop_first(), b.drop_first());
        if a[0] == b[0] {
            if a.drop_first() == b.drop_first() {
                assert(a =~= seq![a[0]] + a.drop_first());
                assert(b =~= seq![b[0]] + b.drop_first());
            }
        }
    } else if a.len() == 0 && b.len() == 0 {
        assert(a =~= b);
    }
}

/// Does the filter with this reference and operation let the key pass?
pub open spec fn key_passes<V: PartialOrd>(
    key: Entry<V>,
    reference: &str,
    operation: FilterOp,
) -> bool {
    crate::datastore::query::passes(
        key,
        Filter { ty: FilterTy::KeyCompare(reference), operation },
    )
}

/// Does the filter with this reference and operation let the value pass?
pub open spec fn value_passes<V: PartialOrd>(
    entry: Entry<V>,
    reference: V,
    operation: FilterOp,
) -> bool {
    crate::datastore::query::passes(
        entry,
        Filter { ty: FilterTy::ValueCompare(&reference), operation },
    )
}

/// Whatever is filtered, each operation and its opposite let pass what the other one holds back.
pub proof fn law_opposite_filters<V: PartialOrd>(entry: Entry<V>, ty: FilterTy<V>)
    ensures
        crate::datastore::query::passes(entry, Filter { ty, operation: FilterOp::NotEqual })
            == !crate::datastore::query::passes(entry, Filter { ty, operation: FilterOp::Equal }),
        crate::datastore::query::passes(entry, Filter { ty, operation: FilterOp::GreaterOrEqual })
            == !crate::datastore::query::passes(entry, Filter { ty, operation: FilterOp::Less }),
        crate::datastore::query::passes(entry, Filter { ty, operation: FilterOp::LessOrEqual })
            == !crate::datastore::query::passes(entry, Filter { ty, operation: FilterOp::Greater }),
{
}

/// Whatever is filtered, at most one of the operations equal, less and greater lets it pass.
pub proof fn law_filters_exclude_each_other<V: PartialOrd>(entry: Entry<V>, ty: FilterTy<V>)
    ensures
        ({
            let equal = crate::datastore::query::passes(
                entry,
                Filter { ty, operation: FilterOp::Equal },
            );
            let less = crate::datastore::query::passes(
                entry,
                Filter { ty, operation: FilterOp::Less },
            );
            let greater = crate::datastore::query::passes(
                entry,
                Filter { ty, operation: FilterOp::Greater },
            );
            !(equal && less) && !(equal && greater) && !(less && greater)
        }),
{
}

/// Filters on keys: a key passes as equal exactly if it is the reference; else it passes as less or
/// as greater; and it is greater than the reference exactly if the reference is less than it.
pub proof fn law_key_filters<V: PartialOrd>(a: Entry<V>, b: Entry<V>, x: &str, y: &str)
    requires
        a.0@ == y@,
        b.0@ == x@,
    ensures
        key_passes(a, x, FilterOp::Equal) <==> y@ == x@,
        key_passes(a, x, FilterOp::Greater) <==> key_passes(b, y, FilterOp::Less),
        key_passes(a, x, FilterOp::Less) || key_passes(a, x, FilterOp::Greater) <==> y@ != x@,
{
    law_keys_are_totally_ordered(y@, x@);
    law_keys_are_totally_ordered(x@, y@);
}

/// Of two keys that differ, the one with the greater byte where they first differ passes as greater.
pub proof fn law_first_difference_decides<V: PartialOrd>(entry: Entry<V>, reference: &str, k: int)
    requires
        ({
            let m = crate::datastore::order::key_bytes(entry.0@);
            let n = crate::datastore::order::key_bytes(reference@);
            0 <= k < m.len() && k < n.len() && m.take(k) == n.take(k) && m[k] != n[k]
        }),
    ensures
        key_passes(entry, reference, FilterOp::Greater)
            <==> crate::datastore::order::key_bytes(entry.0@)[k]
            > crate::datastore::order::key_bytes(reference@)[k],
        key_passes(entry, reference, FilterOp::Less)
            <==> crate::datastore::order::key_bytes(entry.0@)[k]
            < crate::datastore::order::key_bytes(reference@)[k],
        !key_passes(entry, reference, FilterOp::Equal),
{
    law_bytes_compare_lexicographically(
        crate::datastore::order::key_bytes(entry.0@),
        crate::datastore::order::key_bytes(reference@),
        k,
    );
}

/// Filters on values go by `partial_cmp`: equal, less and greater pass what it says is so, and what
/// it does not relate is not equal, not less and not greater.
pub proof fn law_value_filters<V: PartialOrd>(entry: Entry<V>, reference: V)
    requires
        V::obeys_partial_cmp_spec(),
    ensures
        value_passes(entry, reference, FilterOp::Equal) <==> entry.1.partial_cmp_spec(&reference)
            == Some(std::cmp::Ordering::Equal),
        value_passes(entry, reference, FilterOp::Less) <==> entry.1.partial_cmp_spec(&reference)
            == Some(std::cmp::Ordering::Less),
        value_passes(entry, reference, FilterOp::Greater) <==> entry.1.partial_cmp_spec(&reference)
            == Some(std::cmp::Ordering::Greater),
        value_passes(entry, reference, FilterOp::NotEqual) <==> entry.1.partial_cmp_spec(&reference)
            != Some(std::cmp::Ordering::Equal),
        value_passes(entry, reference, FilterOp::GreaterOrEqual) <==> entry.1.partial_cmp_spec(
            &reference,
        ) != Some(std::cmp::Ordering::Less),
        value_passes(entry, reference, FilterOp::LessOrEqual) <==> entry.1.partial_cmp_spec(
            &reference,
        ) != Some(std::cmp::Ordering::Greater),
{
}

/// Filters on values of type `u64` compare the numbers.
pub proof fn law_filters_on_u64(entry: Entry<u64>, reference: u64)
    ensures
        value_passes(entry, reference, FilterOp::Equal) <==> entry.1 == reference,
        value_passes(entry, reference, FilterOp::NotEqual) <==> entry.1 != reference,
        value_passes(entry, reference, FilterOp::Less) <==> entry.1 < reference,
        value_passes(entry, reference, FilterOp::LessOrEqual) <==> entry.1 <= reference,
        value_passes(entry, reference, FilterOp::Greater) <==> entry.1 > reference,
        value_passes(entry, reference, FilterOp::GreaterOrEqual) <==> entry.1 >= reference,
{
}

/// Entries with values of type `u64` that were put in order of their values have ascending or
/// descending values.
pub proof fn law_order_of_u64(s: Seq<Entry<u64>>, r: Seq<Entry<u64>>)
    ensures
        crate::datastore::order::put_in_order(Order::ByValueAsc, s, r) ==> forall|i: int, j: int|
            0 <= i < j < r.len() ==> (#[trigger] r[i]).1 <= (#[trigger] r[j]).1,
        crate::datastore::order::put_in_order(Order::ByValueDesc, s, r) ==> forall|i: int, j: int|
            0 <= i < j < r.len() ==> (#[trigger] r[i]).1 >= (#[trigger] r[j]).1,
        crate::datastore::order::put_in_order(Order::ByValueAsc, s, r)
            || crate::datastore::order::put_in_order(Order::ByValueDesc, s, r) ==> r.to_multiset()
            == s.to_multiset(),
{
    crate::datastore::order::law_total_values_are_orderly(Order::ByValueAsc, s);
    crate::datastore::order::law_total_values_are_orderly(Order::ByValueDesc, s);
    if crate::datastore::order::put_in_order(Order::ByValueAsc, s, r) {
        assert forall|i: int, j: int| 0 <= i < j < r.len() implies (#[trigger] r[i]).1 <= (
        #[trigger] r[j]).1 by {
            assert(!crate::datastore::order::after(Order::ByValueAsc, r[i], r[j]));
        }
    }
    if crate::datastore::order::put_in_order(Order::ByValueDesc, s, r) {
        assert forall|i: int, j: int| 0 <= i < j < r.len() implies (#[trigger] r[i]).1 >= (
        #[trigger] r[j]).1 by {
            assert(!crate::datastore::order::after(Order::ByValueDesc, r[i], r[j]));
        }
    }
}

/// Filters on values of type `i64` compare the numbers.
pub proof fn law_filters_on_i64(entry: Entry<i64>, reference: i64)
    ensures
        value_passes(entry, reference, FilterOp::Equal) <==> entry.1 == reference,
        value_passes(entry, reference, FilterOp::NotEqual) <==> entry.1 != reference,
        value_passes(entry, reference, FilterOp::Less) <==> entry.1 < reference,
        value_passes(entry, reference, FilterOp::LessOrEqual) <==> entry.1 <= reference,
        value_passes(entry, reference, FilterOp::Greater) <==> entry.1 > reference,
        value_passes(entry, reference, FilterOp::GreaterOrEqual) <==> entry.1 >= reference,
{
}

/// Entries with values of type `i64` that were put in order of their values have ascending or
/// descending values.
pub proof fn law_order_of_i64(s: Seq<Entry<i64>>, r: Seq<Entry<i64>>)
    ensures
        crate::datastore::order::put_in_order(Order::ByValueAsc, s, r) ==> forall|i: int, j: int|
            0 <= i < j < r.len() ==> (#[trigger] r[i]).1 <= (#[trigger] r[j]).1,
        crate::datastore::order::put_in_order(Order::ByValueDesc, s, r) ==> forall|i: int, j: int|
            0 <= i < j < r.len() ==> (#[trigger] r[i]).1 >= (#[trigger] r[j]).1,
        crate::datastore::order::put_in_order(Order::ByValueAsc, s, r)
            || crate::datastore::order::put_in_order(Order::ByValueDesc, s, r) ==> r.to_multiset()
            == s.to_multiset(),
{
    crate::datastore::order::law_total_values_are_orderly(Order::ByValueAsc, s);
    crate::datastore::order::law_total_values_are_orderly(Order::ByValueDesc, s);
    if crate::datastore::order::put_in_order(Order::ByValueAsc, s, r) {
        assert forall|i: int, j: int| 0 <= i < j < r.len() implies (#[trigger] r[i]).1 <= (
        #[trigger] r[j]).1 by {
            assert(!crate::datastore::order::after(Order::ByValueAsc, r[i], r[j]));
        }
    }
    if crate::datastore::order::put_in_order(Order::ByValueDesc, s, r) {
        assert forall|i: int, j: int| 0 <= i < j < r.len() implies (#[trigger] r[i]).1 >= (
        #[trigger] r[j]).1 by {
            assert(!crate::datastore::order::after(Order::ByValueDesc, r[i], r[j]));
        }
    }
}

/// Filters on values of type `i32` compare the numbers.
pub proof fn law_filters_on_i32(entry: Entry<i32>, reference: i32)
    ensures
        value_passes(entry, reference, FilterOp::Equal) <==> entry.1 == reference,
        value_passes(entry, reference, FilterOp::NotEqual) <==> entry.1 != reference,
        value_passes(entry, reference, FilterOp::Less) <==> entry.1 < reference,
        value_passes(entry, reference, FilterOp::LessOrEqual) <==> entry.1 <= reference,
        value_passes(entry, reference, FilterOp::Greater) <==> entry.1 > reference,
        value_passes(entry, reference, FilterOp::GreaterOrEqual) <==> entry.1 >= reference,
{
}

/// Entries with values of type `i32` that were put in order of their values have ascending or
/// descending values.
pub proof fn law_order_of_i32(s: Seq<Entry<i32>>, r: Seq<Entry<i32>>)
    ensures
        crate::datastore::order::put_in_order(Order::ByValueAsc, s, r) ==> forall|i: int, j: int|
            0 <= i < j < r.len() ==> (#[trigger] r[i]).1 <= (#[trigger] r[j]).1,
        crate::datastore::order::put_in_order(Order::ByValueDesc, s, r) ==> forall|i: int, j: int|
            0 <= i < j < r.len() ==> (#[trigger] r[i]).1 >= (#[trigger] r[j]).1,
        crate::datastore::order::put_in_order(Order::ByValueAsc, s, r)
            || crate::datastore::order::put_in_order(Order::ByValueDesc, s, r) ==> r.to_multiset()
            == s.to_multiset(),
{
    crate::datastore::order::law_total_values_are_orderly(Order::ByValueAsc, s);
    crate::datastore::order::law_total_values_are_orderly(Order::ByValueDesc, s);
    if crate::datastore::order::put_in_order(Order::ByValueAsc, s, r) {
        assert forall|i: int, j: int| 0 <= i < j < r.len() implies (#[trigger] r[i]).1 <= (
        #[trigger] r[j]).1 by {
            assert(!crate::datastore::order::after(Order::ByValueAsc, r[i], r[j]));
        }
    }
    if crate::datastore::order::put_in_order(Order::ByValueDesc, s, r) {
        assert forall|i: int, j: int| 0 <= i < j < r.len() implies (#[trigger] r[i]).1 >= (
        #[trigger] r[j]).1 by {
            assert(!crate::datastore::order::after(Order::ByValueDesc, r[i], r[j]));
        }
    }
}

/// Filters on values of type `u32` compare the numbers.
pub proof fn law_filters_on_u32(entry: Entry<u32>, reference: u32)
    ensures
        value_passes(entry, reference, FilterOp::Equal) <==> entry.1 == reference,
        value_passes(entry, reference, FilterOp::NotEqual) <==> entry.1 != reference,
        value_passes(entry, reference, FilterOp::Less) <==> entry.1 < reference,
        value_passes(entry, reference, FilterOp::LessOrEqual) <==> entry.1 <= reference,
        value_passes(entry, reference, FilterOp::Greater) <==> entry.1 > reference,
        value_passes(entry, reference, FilterOp::GreaterOrEqual) <==> entry.1 >= reference,
{
}

/// Entries with values of type `u32` that were put in order of their values have ascending or
/// descending values.
pub proof fn law_order_of_u32(s: Seq<Entry<u32>>, r: Seq<Entry<u32>>)
    ensures
        crate::datastore::order::put_in_order(Order::ByValueAsc, s, r) ==> forall|i: int, j: int|
            0 <= i < j < r.len() ==> (#[trigger] r[i]).1 <= (#[trigger] r[j]).1,
        crate::datastore::order::put_in_order(Order::ByValueDesc, s, r) ==> forall|i: int, j: int|
            0 <= i < j < r.len() ==> (#[trigger] r[i]).1 >= (#[trigger] r[j]).1,
        crate::datastore::order::put_in_order(Order::ByValueAsc, s, r)
            || crate::datastore::order::put_in_order(Order::ByValueDesc, s, r) ==> r.to_multiset()
            == s.to_multiset(),
{
    crate::datastore::order::law_total_values_are_orderly(Order::ByValueAsc, s);
    crate::datastore::order::law_total_values_are_orderly(Order::ByValueDesc, s);
    if crate::datastore::order::put_in_order(Order::ByValueAsc, s, r) {
        assert forall|i: int, j: int| 0 <= i < j < r.len() implies (#[trigger] r[i]).1 <= (
        #[trigger] r[j]).1 by {
            assert(!crate::datastore::order::after(Order::ByValueAsc, r[i], r[j]));
        }
    }
    if crate::datastore::order::put_in_order(Order::ByValueDesc, s, r) {
        assert forall|i: int, j: int| 0 <= i < j < r.len() implies (#[trigger] r[i]).1 >= (
        #[trigger] r[j]).1 by {
            assert(!crate::datastore::order::after(Order::ByValueDesc, r[i], r[j]));
        }
    }
}

/// Entries that were put in order of their keys have keys that do not fall, or do not rise.
pub proof fn law_order_of_keys<V: PartialOrd>(s: Seq<Entry<V>>, r: Seq<Entry<V>>, i: int, j: int)
    requires
        0 <= i < j < r.len(),
    ensures
        crate::datastore::order::put_in_order(Order::ByKeyAsc, s, r) ==> r[i].0@ == r[j].0@
            || crate::datastore::order::keys_compared(r[i].0@, r[j].0@) is Less,
        crate::datastore::order::put_in_order(Order::ByKeyDesc, s, r) ==> r[i].0@ == r[j].0@
            || crate::datastore::order::keys_compared(r[j].0@, r[i].0@) is Less,
{
    crate::datastore::order::law_keys_are_orderly(Order::ByKeyAsc, s);
    crate::datastore::order::law_keys_are_orderly(Order::ByKeyDesc, s);
    law_keys_are_totally_ordered(r[i].0@, r[j].0@);
    law_keys_are_totally_ordered(r[j].0@, r[i].0@);
    if crate::datastore::order::put_in_order(Order::ByKeyAsc, s, r) {
        assert(!crate::datastore::order::after(Order::ByKeyAsc, r[i], r[j]));
    }
    if crate::datastore::order::put_in_order(Order::ByKeyDesc, s, r) {
        assert(!crate::datastore::order::after(Order::ByKeyDesc, r[i], r[j]));
    }
}

/// Entries that a query wants are those whose key is the prefix with anything behind it, byte by
/// byte, and that pass every filter.
pub proof fn law_wanted_entries<V: PartialOrd>(
    entry: Entry<V>,
    prefix: Seq<char>,
    filters: Seq<Filter<V>>,
)
    ensures
        crate::datastore::query::matches(entry, prefix, filters) <==> {
            let (key, start) = (
                crate::datastore::order::key_bytes(entry.0@),
                crate::datastore::order::key_bytes(prefix),
            );
            &&& start.len() <= key.len()
            &&& forall|i: int| 0 <= i < start.len() ==> #[trigger] key[i] == start[i]
            &&& forall|i: int|
                0 <= i < filters.len() ==> crate::datastore::query::passes(
                    entry,
                    #[trigger] filters[i],
                )
        },
{
    let (key, start) = (
        crate::datastore::order::key_bytes(entry.0@),
        crate::datastore::order::key_bytes(prefix),
    );
    if start.len() <= key.len() && forall|i: int| 0 <= i < start.len() ==> #[trigger] key[i]
        == start[i] {
        assert(start =~= key.subrange(0, start.len() as int));
    }
    if start.is_prefix_of(key) {
        assert forall|i: int| 0 <= i < start.len() implies #[trigger] key[i] == start[i] by {
            assert(key.subrange(0, start.len() as int)[i] == start[i]);
        }
    }
}

} // verus!
