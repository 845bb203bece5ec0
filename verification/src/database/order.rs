//! The order in which a listing shows its rows: newest first.

use vstd::prelude::*;

verus! {

/// How many entries at the front of `order` stand for rows that are
/// strictly newer than the time `at`. Each entry of `order` is a position in
/// `times`.
pub open spec fn leading_newer(times: Seq<int>, order: Seq<int>, at: int) -> nat
    decreases order.len(),
{
    if order.len() > 0 && times[order.first()] > at {
        1 + leading_newer(times, order.drop_first(), at)
    } else {
        0
    }
}

/// The first `n` positions of `times`, newest first. Each row is placed
/// behind the rows that are strictly newer than it and before all others, so
/// of two rows of the same time the one stored later comes first.
pub open spec fn newest_first_of(times: Seq<int>, n: nat) -> Seq<int>
    decreases n,
{
    if n == 0 {
        Seq::empty()
    } else {
        let rest = newest_first_of(times, (n - 1) as nat);
        rest.insert(leading_newer(times, rest, times[n - 1]) as int, n - 1)
    }
}

/// The positions of `times`, newest first.
pub open spec fn newest_first(times: Seq<int>) -> Seq<int> {
    newest_first_of(times, times.len())
}

/// Whether the row at position `a` is shown before the row at position `b`:
/// it is newer, or as old and stored later.
pub open spec fn shown_before(times: Seq<int>, a: int, b: int) -> bool {
    times[a] > times[b] || (times[a] == times[b] && a > b)
}

/// The rows `offset` to `offset + limit` of a listing, as far as they exist.
pub open spec fn page<T>(rows: Seq<T>, offset: int, limit: int) -> Seq<T> {
    let start = if offset < rows.len() {
        offset
    } else {
        rows.len() as int
    };
    let end = if offset + limit < rows.len() {
        offset + limit
    } else {
        rows.len() as int
    };
    rows.subrange(start, end)
}

/// The leading newer entries are a prefix of newer entries, and the entry
/// behind them, if there is one, is not newer.
pub proof fn lemma_leading_newer(times: Seq<int>, order: Seq<int>, at: int)
    ensures
        leading_newer(times, order, at) <= order.len(),
        forall|k: int| 0 <= k < leading_newer(times, order, at) ==> times[#[trigger] order[k]] > at,
        leading_newer(times, order, at) < order.len() ==> times[order[leading_newer(
            times,
            order,
            at,
        ) as int]] <= at,
    decreases order.len(),
{
    if order.len() > 0 && times[order.first()] > at {
        let rest = order.drop_first();
        lemma_leading_newer(times, rest, at);
        let p = leading_newer(times, order, at);
        assert forall|k: int| 0 <= k < p implies times[#[trigger] order[k]] > at by {
            if k > 0 {
                assert(order[k] == rest[k - 1]);
            }
        }
        if p < order.len() {
            assert(order[p as int] == rest[p - 1]);
        }
    }
}

/// A prefix of newer entries that ends at an entry that is not newer, or at
/// the end, is the run of leading newer entries.
pub proof fn lemma_leading_newer_is(times: Seq<int>, order: Seq<int>, at: int, p: int)
    requires
        0 <= p <= order.len(),
        forall|k: int| 0 <= k < p ==> times[#[trigger] order[k]] > at,
        p < order.len() ==> times[order[p]] <= at,
    ensures
        leading_newer(times, order, at) == p,
    decreases order.len(),
{
    if p > 0 {
        let rest = order.drop_first();
        assert(times[order[0]] > at);
        assert forall|k: int| 0 <= k < p - 1 implies times[#[trigger] rest[k]] > at by {
            assert(rest[k] == order[k + 1]);
        }
        if p - 1 < rest.len() {
            assert(rest[p - 1] == order[p]);
        }
        lemma_leading_newer_is(times, rest, at, p - 1);
    }
}

/// The listing of the first `n` rows holds each of their positions, and
/// every row in it is shown before the rows behind it.
pub proof fn lemma_newest_first_of(times: Seq<int>, n: nat)
    requires
        n <= times.len(),
    ensures
        newest_first_of(times, n).len() == n,
        forall|k: int| 0 <= k < n ==> 0 <= #[trigger] newest_first_of(times, n)[k] < n,
        forall|k: int, l: int|
            0 <= k < l < n ==> shown_before(
                times,
                #[trigger] newest_first_of(times, n)[k],
                #[trigger] newest_first_of(times, n)[l],
            ),
        forall|i: int| 0 <= i < n ==> newest_first_of(times, n).contains(i),
    decreases n,
{
    if n > 0 {
        let m = (n - 1) as nat;
        let rest = newest_first_of(times, m);
        let at = times[n - 1];
        let p = leading_newer(times, rest, at) as int;
        let all = newest_first_of(times, n);
        lemma_newest_first_of(times, m);
        lemma_leading_newer(times, rest, at);
        assert(all == rest.insert(p, n - 1));
        assert forall|k: int, l: int| 0 <= k < l < n implies shown_before(
            times,
            #[trigger] all[k],
            #[trigger] all[l],
        ) by {
            if l == p {
                // The new row behind a row that is strictly newer.
                assert(all[k] == rest[k]);
            } else if k == p {
                // The new row before a row that is not newer than it.
                assert(all[l] == rest[l - 1]);
                if l - 1 > p {
                    assert(shown_before(times, rest[p], rest[l - 1]));
                }
            } else {
                let k0 = if k < p {
                    k
                } else {
                    k - 1
                };
                let l0 = if l < p {
                    l
                } else {
                    l - 1
                };
                assert(all[k] == rest[k0]);
                assert(all[l] == rest[l0]);
                assert(shown_before(times, rest[k0], rest[l0]));
            }
        }
        assert forall|i: int| 0 <= i < n implies all.contains(i) by {
            if i == n - 1 {
                assert(all[p] == i);
            } else {
                assert(rest.contains(i));
                let k = choose|k: int| 0 <= k < rest.len() && rest[k] == i;
                if k < p {
                    assert(all[k] == i);
                } else {
                    assert(all[k + 1] == i);
                }
            }
        }
        assert forall|k: int| 0 <= k < n implies 0 <= #[trigger] all[k] < n by {
            if k < p {
                assert(all[k] == rest[k]);
            } else if k > p {
                assert(all[k] == rest[k - 1]);
            }
        }
    }
}

/// A listing shows every row once, and never an older row before a newer
/// one: it is a rearrangement of the positions of `times`, along which the
/// times do not grow, and strictly shrink where no two rows share a time.
pub proof fn lemma_newest_first(times: Seq<int>)
    ensures
        newest_first(times).len() == times.len(),
        forall|k: int|
            0 <= k < times.len() ==> 0 <= #[trigger] newest_first(times)[k] < times.len(),
        forall|i: int| 0 <= i < times.len() ==> newest_first(times).contains(i),
        forall|k: int, l: int|
            0 <= k < l < times.len() ==> #[trigger] newest_first(times)[k]
                != #[trigger] newest_first(times)[l],
        forall|k: int, l: int|
            0 <= k < l < times.len() ==> times[#[trigger] newest_first(times)[k]]
                >= times[#[trigger] newest_first(times)[l]],
        (forall|i: int, j: int| 0 <= i < j < times.len() ==> times[i] != times[j]) ==> forall|
            k: int,
            l: int,
        |
            0 <= k < l < times.len() ==> times[#[trigger] newest_first(times)[k]]
                > times[#[trigger] newest_first(times)[l]],
{
    lemma_newest_first_of(times, times.len());
    let order = newest_first(times);
    assert forall|k: int, l: int| 0 <= k < l < times.len() implies #[trigger] order[k]
        != #[trigger] order[l] && times[order[k]] >= times[order[l]] by {
        assert(shown_before(times, order[k], order[l]));
    }
    if forall|i: int, j: int| 0 <= i < j < times.len() ==> times[i] != times[j] {
        assert forall|k: int, l: int| 0 <= k < l < times.len() implies times[#[trigger] order[k]]
            > times[#[trigger] order[l]] by {
            assert(shown_before(times, order[k], order[l]));
            let a = order[k];
            let b = order[l];
            if a < b {
                assert(times[a] != times[b]);
            } else {
                assert(times[b] != times[a]);
            }
        }
    }
}

/// A page is what is left of the listing when its first `offset` rows are
/// dropped and no more than `limit` rows are kept, as `OFFSET` and `LIMIT` do
/// to the rows of a query.
pub proof fn lemma_page<T>(rows: Seq<T>, offset: int, limit: int)
    requires
        0 <= offset,
        0 <= limit,
    ensures
        offset >= rows.len() ==> page(rows, offset, limit).len() == 0,
        offset < rows.len() && limit <= rows.len() - offset ==> page(rows, offset, limit).len()
            == limit,
        offset < rows.len() && limit > rows.len() - offset ==> page(rows, offset, limit).len()
            == rows.len() - offset,
        forall|k: int|
            0 <= k < page(rows, offset, limit).len() ==> #[trigger] page(rows, offset, limit)[k]
                == rows[offset + k],
{
}

/// The positions of `times`, newest first.
pub fn newest_first_order(times: &Vec<i64>) -> (order: Vec<usize>)
    ensures
        order@.map_values(|i: usize| i as int) == newest_first(
            times@.map_values(|t: i64| t as int),
        ),
{
    let ghost spec_times = times@.map_values(|t: i64| t as int);
    let mut order: Vec<usize> = Vec::new();
    let mut n: usize = 0;
    assert(order@.map_values(|i: usize| i as int) =~= newest_first_of(spec_times, 0));
    while n < times.len()
        invariant
            n <= times.len(),
            spec_times == times@.map_values(|t: i64| t as int),
            order@.map_values(|i: usize| i as int) == newest_first_of(spec_times, n as nat),
        decreases times.len() - n,
    {
        let ghost before = order@.map_values(|i: usize| i as int);
        proof {
            lemma_newest_first_of(spec_times, n as nat);
        }
        let at = times[n];
        let mut p: usize = 0;
        assert forall|k: int| 0 <= k < n implies #[trigger] order[k] < n by {
            assert(before[k] == order[k]);
        }
        while p < order.len() && times[order[p]] > at
            invariant
                p <= order.len(),
                n < times.len(),
                at == times[n as int],
                spec_times == times@.map_values(|t: i64| t as int),
                before == order@.map_values(|i: usize| i as int),
                order.len() == n,
                forall|k: int| 0 <= k < n ==> #[trigger] order[k] < n,
                forall|k: int| 0 <= k < p ==> spec_times[#[trigger] before[k]] > at,
            decreases order.len() - p,
        {
            assert(before[p as int] == order[p as int]);
            p += 1;
        }
        proof {
            if p < order.len() {
                assert(before[p as int] == order[p as int]);
            }
            lemma_leading_newer_is(spec_times, before, at as int, p as int);
        }
        order.insert(p, n);
        assert(order@.map_values(|i: usize| i as int) =~= before.insert(p as int, n as int));
        n += 1;
    }
    order
}

} // verus!
