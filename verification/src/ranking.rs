//! Ordering rows by a rank, highest first.
//!
//! The order is stable: rows of equal rank keep the order in which they came.

use vstd::prelude::*;

verus! {

/// A row that carries a rank by which rows are ordered.
pub trait Ranked: DeepView + Sized {
    /// The rank of an abstract row.
    spec fn rank_of(row: Self::V) -> u64;

    /// The rank of the row.
    fn rank(&self) -> (rank: u64)
        ensures
            rank == Self::rank_of(self.deep_view()),
    ;
}

/// Whether the ranks of `rows` never rise from one row to a later one.
pub open spec fn ordered_by_rank<T: Ranked>(rows: Seq<T::V>) -> bool {
    forall|i: int, j: int|
        0 <= i < j < rows.len() ==> T::rank_of(#[trigger] rows[i]) >= T::rank_of(#[trigger] rows[j])
}

/// The rows of `rows` that have the given rank, in their order.
pub open spec fn with_rank<T: Ranked>(rows: Seq<T::V>, rank: u64) -> Seq<T::V>
    decreases rows.len(),
{
    if rows.len() == 0 {
        Seq::empty()
    } else if T::rank_of(rows.last()) == rank {
        with_rank::<T>(rows.drop_last(), rank).push(rows.last())
    } else {
        with_rank::<T>(rows.drop_last(), rank)
    }
}

/// Whether `sorted` is `rows` ordered by rank, highest first, with rows of
/// equal rank in the order they have in `rows`.
pub open spec fn is_ranking_of<T: Ranked>(sorted: Seq<T::V>, rows: Seq<T::V>) -> bool {
    &&& ordered_by_rank::<T>(sorted)
    &&& forall|rank: u64| #[trigger] with_rank::<T>(sorted, rank) == with_rank::<T>(rows, rank)
}

proof fn lemma_with_rank_joined<T: Ranked>(a: Seq<T::V>, b: Seq<T::V>, rank: u64)
    ensures
        with_rank::<T>(a + b, rank) == with_rank::<T>(a, rank) + with_rank::<T>(b, rank),
    decreases b.len(),
{
    if b.len() == 0 {
        assert(a + b =~= a);
        assert(with_rank::<T>(a, rank) + with_rank::<T>(b, rank) =~= with_rank::<T>(a, rank));
    } else {
        lemma_with_rank_joined::<T>(a, b.drop_last(), rank);
        assert((a + b).drop_last() =~= a + b.drop_last());
        assert((a + b).last() == b.last());
        if T::rank_of(b.last()) == rank {
            assert((with_rank::<T>(a, rank) + with_rank::<T>(b.drop_last(), rank)).push(b.last())
                =~= with_rank::<T>(a, rank) + with_rank::<T>(b.drop_last(), rank).push(b.last()));
        }
    }
}

proof fn lemma_with_rank_absent<T: Ranked>(rows: Seq<T::V>, rank: u64)
    requires
        forall|i: int| 0 <= i < rows.len() ==> T::rank_of(#[trigger] rows[i]) != rank,
    ensures
        with_rank::<T>(rows, rank) == Seq::<T::V>::empty(),
    decreases rows.len(),
{
    if rows.len() > 0 {
        assert(T::rank_of(rows[rows.len() - 1]) != rank);
        assert forall|i: int| 0 <= i < rows.drop_last().len() implies T::rank_of(
            #[trigger] rows.drop_last()[i],
        ) != rank by {
            assert(rows.drop_last()[i] == rows[i]);
        }
        lemma_with_rank_absent::<T>(rows.drop_last(), rank);
    }
}

proof fn lemma_with_rank_single<T: Ranked>(row: T::V, rank: u64)
    ensures
        with_rank::<T>(seq![row], rank) == if T::rank_of(row) == rank {
            seq![row]
        } else {
            Seq::<T::V>::empty()
        },
{
    let one = seq![row];
    assert(one.drop_last() =~= Seq::<T::V>::empty());
    assert(one.last() == row);
    assert(with_rank::<T>(one.drop_last(), rank) =~= Seq::<T::V>::empty());
    if T::rank_of(row) == rank {
        assert(Seq::<T::V>::empty().push(row) =~= one);
    }
}

proof fn lemma_with_rank_found<T: Ranked>(rows: Seq<T::V>, rank: u64)
    requires
        with_rank::<T>(rows, rank).len() > 0,
    ensures
        exists|i: int| 0 <= i < rows.len() && T::rank_of(#[trigger] rows[i]) == rank,
{
    if forall|i: int| 0 <= i < rows.len() ==> T::rank_of(#[trigger] rows[i]) != rank {
        lemma_with_rank_absent::<T>(rows, rank);
    }
}

/// There is only one way to rank given rows: two rankings of the same rows
/// are the same sequence.
pub proof fn lemma_ranking_is_unique<T: Ranked>(
    first: Seq<T::V>,
    second: Seq<T::V>,
    rows: Seq<T::V>,
)
    requires
        is_ranking_of::<T>(first, rows),
        is_ranking_of::<T>(second, rows),
    ensures
        first == second,
{
    assert forall|rank: u64| #[trigger]
        with_rank::<T>(first, rank) == with_rank::<T>(second, rank) by {
        assert(with_rank::<T>(first, rank) == with_rank::<T>(rows, rank));
        assert(with_rank::<T>(second, rank) == with_rank::<T>(rows, rank));
    }
    lemma_ordered_rows_agree::<T>(first, second);
}

proof fn lemma_ordered_rows_agree<T: Ranked>(a: Seq<T::V>, b: Seq<T::V>)
    requires
        ordered_by_rank::<T>(a),
        ordered_by_rank::<T>(b),
        forall|rank: u64| #[trigger] with_rank::<T>(a, rank) == with_rank::<T>(b, rank),
    ensures
        a == b,
    decreases a.len(),
{
    if a.len() == 0 {
        if b.len() > 0 {
            let r = T::rank_of(b.last());
            assert(with_rank::<T>(b, r).len() > 0);
            assert(with_rank::<T>(a, r) == with_rank::<T>(b, r));
        }
        assert(a =~= b);
    } else {
        let x = a.last();
        let r = T::rank_of(x);
        assert(with_rank::<T>(a, r) == with_rank::<T>(a.drop_last(), r).push(x));
        assert(with_rank::<T>(b, r) == with_rank::<T>(a, r));
        assert(with_rank::<T>(b, r).len() > 0);
        assert(b.len() > 0);
        let y = b.last();
        let rb = T::rank_of(y);
        // the last row of `b` has the lowest rank of `b`, and `b` has a row of rank `r`
        lemma_with_rank_found::<T>(b, r);
        let j = choose|i: int| 0 <= i < b.len() && T::rank_of(#[trigger] b[i]) == r;
        assert(rb <= r) by {
            if j < b.len() - 1 {
                assert(T::rank_of(b[j]) >= T::rank_of(b[b.len() - 1]));
            }
        }
        // and `a` has a row of rank `rb`, which is no lower than its last
        assert(with_rank::<T>(b, rb) == with_rank::<T>(b.drop_last(), rb).push(y));
        assert(with_rank::<T>(a, rb) == with_rank::<T>(b, rb));
        lemma_with_rank_found::<T>(a, rb);
        let k = choose|i: int| 0 <= i < a.len() && T::rank_of(#[trigger] a[i]) == rb;
        assert(rb >= r) by {
            if k < a.len() - 1 {
                assert(T::rank_of(a[k]) >= T::rank_of(a[a.len() - 1]));
            }
        }
        assert(rb == r);
        let pa = with_rank::<T>(a.drop_last(), r);
        let pb = with_rank::<T>(b.drop_last(), r);
        assert(pa.push(x) == pb.push(y));
        assert(x == y) by {
            assert(pa.push(x).last() == x);
            assert(pb.push(y).last() == y);
        }
        assert(pa == pb) by {
            assert(pa.push(x).drop_last() =~= pa);
            assert(pb.push(y).drop_last() =~= pb);
        }
        assert forall|rank: u64| #[trigger]
            with_rank::<T>(a.drop_last(), rank) == with_rank::<T>(b.drop_last(), rank) by {
            assert(with_rank::<T>(a, rank) == with_rank::<T>(b, rank));
        }
        assert(ordered_by_rank::<T>(a.drop_last())) by {
            assert forall|i: int, j: int| 0 <= i < j < a.drop_last().len() implies T::rank_of(
                #[trigger] a.drop_last()[i],
            ) >= T::rank_of(#[trigger] a.drop_last()[j]) by {
                assert(a.drop_last()[i] == a[i] && a.drop_last()[j] == a[j]);
            }
        }
        assert(ordered_by_rank::<T>(b.drop_last())) by {
            assert forall|i: int, j: int| 0 <= i < j < b.drop_last().len() implies T::rank_of(
                #[trigger] b.drop_last()[i],
            ) >= T::rank_of(#[trigger] b.drop_last()[j]) by {
                assert(b.drop_last()[i] == b[i] && b.drop_last()[j] == b[j]);
            }
        }
        lemma_ordered_rows_agree::<T>(a.drop_last(), b.drop_last());
        assert(a =~= a.drop_last().push(x));
        assert(b =~= b.drop_last().push(y));
    }
}

/// Orders rows by rank, highest first. Rows of equal rank keep their order.
pub fn sort_by_rank<T: Ranked>(rows: Vec<T>) -> (sorted: Vec<T>)
    ensures
        is_ranking_of::<T>(sorted.deep_view(), rows.deep_view()),
        sorted.len() == rows.len(),
{
    let ghost all = rows.deep_view();
    let mut rest = rows;
    let mut sorted: Vec<T> = Vec::new();
    let ghost mut done: int = 0;
    proof {
        assert(all.take(0) =~= Seq::<T::V>::empty());
        assert(sorted.deep_view() =~= Seq::<T::V>::empty());
        assert(rest.deep_view().skip(0) =~= rest.deep_view());
    }
    while rest.len() > 0
        invariant
            0 <= done <= all.len(),
            rest.deep_view() == all.skip(done),
            sorted.len() == done,
            ordered_by_rank::<T>(sorted.deep_view()),
            forall|rank: u64| #[trigger]
                with_rank::<T>(sorted.deep_view(), rank) == with_rank::<T>(all.take(done), rank),
        decreases rest.len(),
    {
        let ghost rest_before = rest.deep_view();
        let ghost rows_before = rest@;
        proof {
            assert(rest_before.len() == rest@.len());
            assert(all.skip(done).len() == all.len() - done);
        }
        let row = rest.remove(0);
        let row_rank = row.rank();
        let ghost row_view = row.deep_view();
        proof {
            assert(row_view == rest_before[0]);
            assert(rest_before[0] == all[done]);
            assert forall|k: int| 0 <= k < rest@.len() implies #[trigger] rest.deep_view()[k]
                == all.skip(done + 1)[k] by {
                assert(rest@[k] == rows_before[k + 1]);
                assert(rest_before[k + 1] == rows_before[k + 1].deep_view());
                assert(all.skip(done)[k + 1] == all[done + 1 + k]);
            }
            assert(rest.deep_view() =~= all.skip(done + 1));
        }
        let mut at: usize = 0;
        while at < sorted.len() && sorted[at].rank() >= row_rank
            invariant
                at <= sorted.len(),
                forall|k: int|
                    0 <= k < at ==> T::rank_of(#[trigger] sorted.deep_view()[k]) >= row_rank,
            decreases sorted.len() - at,
        {
            at += 1;
        }
        let ghost sorted_before = sorted.deep_view();
        sorted.insert(at, row);
        proof {
            let left = sorted_before.take(at as int);
            let right = sorted_before.skip(at as int);
            let now = sorted.deep_view();
            assert(sorted_before =~= left + right);
            assert(now =~= left + seq![row_view] + right);
            assert forall|k: int| 0 <= k < right.len() implies T::rank_of(#[trigger] right[k])
                < row_rank by {
                assert(right[k] == sorted_before[at as int + k]);
                assert(T::rank_of(sorted_before[at as int]) < row_rank);
                if k > 0 {
                    assert(T::rank_of(sorted_before[at as int]) >= T::rank_of(
                        sorted_before[at as int + k],
                    ));
                }
            }
            assert forall|i: int, j: int| 0 <= i < j < now.len() implies T::rank_of(
                #[trigger] now[i],
            ) >= T::rank_of(#[trigger] now[j]) by {
                if j < at {
                    assert(now[i] == sorted_before[i] && now[j] == sorted_before[j]);
                } else if j == at {
                    assert(now[i] == sorted_before[i]);
                } else if i < at {
                    assert(now[i] == sorted_before[i] && now[j] == sorted_before[j - 1]);
                } else if i == at {
                    assert(now[j] == right[j - at - 1]);
                } else {
                    assert(now[i] == sorted_before[i - 1] && now[j] == sorted_before[j - 1]);
                }
            }
            assert(all.take(done + 1).drop_last() =~= all.take(done));
            assert forall|rank: u64| #[trigger]
                with_rank::<T>(now, rank) == with_rank::<T>(all.take(done + 1), rank) by {
                lemma_with_rank_joined::<T>(left, right, rank);
                lemma_with_rank_joined::<T>(left + seq![row_view], right, rank);
                lemma_with_rank_joined::<T>(left, seq![row_view], rank);
                lemma_with_rank_single::<T>(row_view, rank);
                assert(with_rank::<T>(sorted_before, rank) == with_rank::<T>(all.take(done), rank));
                if rank == row_rank {
                    lemma_with_rank_absent::<T>(right, rank);
                    assert(with_rank::<T>(seq![row_view], rank) =~= seq![row_view]);
                    assert(with_rank::<T>(now, rank) =~= with_rank::<T>(left, rank).push(row_view));
                    assert(with_rank::<T>(sorted_before, rank) =~= with_rank::<T>(left, rank));
                } else {
                    assert(with_rank::<T>(seq![row_view], rank) =~= Seq::<T::V>::empty());
                    assert(with_rank::<T>(now, rank) =~= with_rank::<T>(left, rank)
                        + with_rank::<T>(right, rank));
                }
            }
            done = done + 1;
        }
    }
    proof {
        assert(all.take(done) =~= all);
    }
    sorted
}

} // verus!
