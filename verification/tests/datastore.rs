use libp2p::async_value::{Async, Poll};
use libp2p::datastore::order::{
    compare_bytes, compare_keys, compare_values, sort, sort_by, to_queue, Compared, Entry, Order,
};
use libp2p::datastore::query::{
    naive_apply_query, naive_filter_test, Filter, FilterOp, FilterTy, Query, QueryAction,
    QueryInput, QueryStream,
};

type Source = Vec<Poll<Option<Entry<i32>>, &'static str>>;

fn entry(k: &str, v: i32) -> Entry<i32> {
    (k.to_string(), v)
}

fn source(entries: &[(&str, i32)]) -> Source {
    let mut s: Source =
        entries.iter().map(|(k, v)| Ok(Async::Ready(Some(entry(k, *v))))).collect();
    s.reverse();
    s
}

fn poll(q: &mut QueryStream<Source, i32>) -> Poll<Option<Entry<i32>>, &'static str> {
    let mut input = QueryInput::Start;
    loop {
        match q.poll(input) {
            QueryAction::PollEntries => {
                input = QueryInput::Polled(q.stream().pop().unwrap_or(Ok(Async::Ready(None))));
            }
            QueryAction::Return(r) => return r,
        }
    }
}

fn all(mut q: QueryStream<Source, i32>) -> Vec<Entry<i32>> {
    let mut r = Vec::new();
    loop {
        match poll(&mut q) {
            Ok(Async::Ready(Some(e))) => r.push(e),
            Ok(Async::Ready(None)) => return r,
            _ => panic!(),
        }
    }
}

const DATA: [(&str, i32); 5] = [("foo/b", 5), ("bar", 1), ("foo/a", 9), ("foo/c", 5), ("qux", 7)];

#[test]
fn plain_query_gives_everything() {
    let q: Query<i32> = Query::new();
    assert_eq!(q.limit, u64::MAX);
    let got = all(naive_apply_query(source(&DATA), &q));
    let expected: Vec<Entry<i32>> = DATA.iter().map(|(k, v)| entry(k, *v)).collect();
    assert_eq!(got, expected);
}

#[test]
fn prefix_skip_and_limit() {
    let mut q: Query<i32> = Query::new();
    q.prefix("foo/").skip(1).limit(1);
    assert_eq!(all(naive_apply_query(source(&DATA), &q)), vec![entry("foo/a", 9)]);
    q.skip(5);
    assert_eq!(all(naive_apply_query(source(&DATA), &q)), vec![]);
    q.skip(0).limit(0);
    assert_eq!(all(naive_apply_query(source(&DATA), &q)), vec![]);
}

#[test]
fn keys_only_gives_default_values() {
    let mut q: Query<i32> = Query::new();
    q.prefix("foo/a").keys_only(true);
    assert_eq!(all(naive_apply_query(source(&DATA), &q)), vec![entry("foo/a", 0)]);
}

#[test]
fn sorted_by_value_then_by_key() {
    let orders = [Order::ByValueAsc];
    let mut q: Query<i32> = Query::new();
    q.orderings(&orders);
    assert_eq!(
        all(naive_apply_query(source(&DATA), &q)),
        vec![
            entry("bar", 1),
            entry("foo/b", 5),
            entry("foo/c", 5),
            entry("qux", 7),
            entry("foo/a", 9)
        ]
    );
    let orders = [Order::ByKeyDesc, Order::ByValueDesc];
    let mut q: Query<i32> = Query::new();
    q.orderings(&orders).skip(1).limit(3);
    assert_eq!(
        all(naive_apply_query(source(&DATA), &q)),
        vec![entry("qux", 7), entry("foo/c", 5), entry("foo/b", 5)]
    );
}

#[test]
fn sorted_query_waits_and_fails() {
    let orders = [Order::ByKeyAsc];
    let mut q: Query<i32> = Query::new();
    q.orderings(&orders);
    let entries: Source = vec![
        Ok(Async::Ready(Some(entry("a", 1)))),
        Ok(Async::NotReady),
        Ok(Async::Ready(Some(entry("b", 2)))),
    ];
    let mut s = naive_apply_query(entries, &q);
    assert_eq!(poll(&mut s), Ok(Async::NotReady));
    assert_eq!(poll(&mut s), Ok(Async::Ready(Some(entry("a", 1)))));
    assert_eq!(poll(&mut s), Ok(Async::Ready(Some(entry("b", 2)))));
    assert_eq!(poll(&mut s), Ok(Async::Ready(None)));
    let entries: Source = vec![Err("broken"), Ok(Async::Ready(Some(entry("b", 2))))];
    let mut s = naive_apply_query(entries, &q);
    assert_eq!(poll(&mut s), Err("broken"));
}

#[test]
fn filters_by_key_and_value() {
    let e = entry("m", 5);
    let five = 5;
    let six = 6;
    let cases: Vec<(FilterOp, bool, bool)> = vec![
        (FilterOp::Equal, true, false),
        (FilterOp::NotEqual, false, true),
        (FilterOp::Less, false, true),
        (FilterOp::LessOrEqual, true, true),
        (FilterOp::Greater, false, false),
        (FilterOp::GreaterOrEqual, true, false),
    ];
    for (op, same, larger) in cases {
        assert_eq!(naive_filter_test(&e, &Filter::new(FilterTy::ValueCompare(&five), op)), same);
        assert_eq!(naive_filter_test(&e, &Filter::new(FilterTy::ValueCompare(&six), op)), larger);
        let key: Filter<i32> = Filter::new(FilterTy::KeyCompare("m"), op);
        assert_eq!(naive_filter_test(&e, &key), same);
        let key: Filter<i32> = Filter::new(FilterTy::KeyCompare("mm"), op);
        assert_eq!(naive_filter_test(&e, &key), larger);
    }
    let filters = [
        Filter::new(FilterTy::ValueCompare(&five), FilterOp::GreaterOrEqual),
        Filter::new(FilterTy::KeyCompare("foo/c"), FilterOp::Less),
    ];
    let mut q: Query<i32> = Query::new();
    q.filters(&filters);
    assert_eq!(
        all(naive_apply_query(source(&DATA), &q)),
        vec![entry("foo/b", 5), entry("foo/a", 9)]
    );
}

#[test]
fn values_that_cannot_be_compared() {
    let e: Entry<f64> = ("a".to_string(), f64::NAN);
    let one = 1.0;
    assert!(!naive_filter_test(&e, &Filter::new(FilterTy::ValueCompare(&one), FilterOp::Equal)));
    assert!(naive_filter_test(&e, &Filter::new(FilterTy::ValueCompare(&one), FilterOp::NotEqual)));
    assert!(naive_filter_test(
        &e,
        &Filter::new(FilterTy::ValueCompare(&one), FilterOp::GreaterOrEqual)
    ));
    assert_eq!(compare_values(&f64::NAN, &1.0), Compared::Unrelated);
    assert_eq!(compare_values(&2.0, &1.0), Compared::Greater);
}

#[test]
fn comparisons() {
    assert_eq!(compare_bytes(b"abc", b"abd"), Compared::Less);
    assert_eq!(compare_bytes(b"abc", b"abc"), Compared::Equal);
    assert_eq!(compare_bytes(b"abcd", b"abc"), Compared::Greater);
    assert_eq!(compare_bytes(b"\xff", b"a"), Compared::Greater);
    assert_eq!(compare_keys("z", "\u{e9}"), Compared::Less);
    assert_eq!(compare_keys("b", "a"), Compared::Greater);
    assert_eq!(compare_values(&1, &1), Compared::Equal);
}

#[test]
fn sorting_is_stable() {
    let entries = vec![entry("b", 2), entry("a", 2), entry("c", 1), entry("a", 1)];
    assert_eq!(
        sort_by(entries.clone(), Order::ByKeyAsc),
        vec![entry("a", 2), entry("a", 1), entry("b", 2), entry("c", 1)]
    );
    assert_eq!(
        sort_by(entries.clone(), Order::ByValueDesc),
        vec![entry("b", 2), entry("a", 2), entry("c", 1), entry("a", 1)]
    );
    assert_eq!(
        sort(entries.clone(), &[Order::ByKeyAsc, Order::ByValueAsc]),
        vec![entry("a", 1), entry("c", 1), entry("a", 2), entry("b", 2)]
    );
    assert_eq!(sort(entries.clone(), &[]), entries);
    let queue: Vec<Entry<i32>> = to_queue(entries.clone()).into_iter().collect();
    assert_eq!(queue, entries);
}

#[test]
fn last_order_decides() {
    let e = |k: &str, v: f64| (k.to_string(), v);
    let entries = vec![e("b", 2.5), e("c", -1.0), e("a", 2.5), e("d", -1.0), e("a", 0.0)];
    assert_eq!(
        sort(entries.clone(), &[Order::ByKeyDesc, Order::ByValueDesc]),
        vec![e("b", 2.5), e("a", 2.5), e("a", 0.0), e("d", -1.0), e("c", -1.0)]
    );
    assert_eq!(
        sort(entries.clone(), &[Order::ByValueAsc, Order::ByKeyAsc]),
        vec![e("a", 0.0), e("a", 2.5), e("b", 2.5), e("c", -1.0), e("d", -1.0)]
    );
    assert_eq!(
        sort(entries.clone(), &[Order::ByKeyDesc, Order::ByValueAsc, Order::ByKeyAsc]),
        vec![e("a", 0.0), e("a", 2.5), e("b", 2.5), e("c", -1.0), e("d", -1.0)]
    );
    assert_eq!(sort(entries.clone(), &[]), entries);
}

#[test]
fn queries_are_cloned_and_shown() {
    let five = 5;
    let filters = [Filter::new(FilterTy::ValueCompare(&five), FilterOp::Equal)];
    let mut q: Query<i32> = Query::new();
    q.filters(&filters).limit(1);
    let copy = q.clone();
    assert_eq!(format!("{:?}", copy), format!("{:?}", q));
    assert!(format!("{:?}", filters[0].clone()).contains("ValueCompare(5)"));
    assert_eq!(all(naive_apply_query(source(&DATA), &copy)), vec![entry("foo/b", 5)]);
}
