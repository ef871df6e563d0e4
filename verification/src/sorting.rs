//! Ordering query results: rows are ordered by a 64-bit sort key
//! (a timestamp), with ties broken by table position, so every query's
//! order is total, stable and fully determined.
use vstd::prelude::*;

verus! {

/// One sortable row: its sort key and its position in the table it was
/// drawn from.
pub type SortPair = (i64, usize);

/// The total order on sortable rows: by key, then by table position.
pub open spec fn pair_le(a: SortPair, b: SortPair) -> bool {
    a.0 < b.0 || (a.0 == b.0 && a.1 <= b.1)
}

/// Whether the sequence is ordered under `pair_le`.
pub open spec fn pairs_sorted(s: Seq<SortPair>) -> bool {
    forall|i: int, j: int| 0 <= i < j < s.len() ==> pair_le(s[i], s[j])
}

/// Inserting into an ordered sequence: before the first row that does
/// not precede `x`.
pub open spec fn insert_sorted(x: SortPair, s: Seq<SortPair>) -> Seq<SortPair>
    decreases s.len(),
{
    if s.len() == 0 {
        seq![x]
    } else if pair_le(x, s[0]) {
        seq![x] + s
    } else {
        seq![s[0]] + insert_sorted(x, s.drop_first())
    }
}

/// Insertion sort, row by row: the one ordering every query uses.
pub open spec fn sort_pairs(s: Seq<SortPair>) -> Seq<SortPair>
    decreases s.len(),
{
    if s.len() == 0 {
        Seq::empty()
    } else {
        insert_sorted(s[0], sort_pairs(s.drop_first()))
    }
}

/// Inserting lands `x` at the first position whose row does not precede
/// it.
proof fn lemma_insert_sorted_at(x: SortPair, s: Seq<SortPair>, i: int)
    requires
        0 <= i <= s.len(),
        forall|j: int| 0 <= j < i ==> !pair_le(x, s[j]),
        i < s.len() ==> pair_le(x, s[i]),
    ensures
        insert_sorted(x, s) == s.take(i) + seq![x] + s.skip(i),
    decreases s.len(),
{
    if s.len() == 0 {
        assert(insert_sorted(x, s) =~= s.take(i) + seq![x] + s.skip(i));
    } else if pair_le(x, s[0]) {
        assert(i == 0);
        assert(seq![x] + s =~= s.take(0) + seq![x] + s.skip(0));
    } else {
        assert(!pair_le(x, s[0]));
        assert(i >= 1);
        lemma_insert_sorted_at(x, s.drop_first(), i - 1);
        assert(seq![s[0]] + (s.drop_first().take(i - 1) + seq![x] + s.drop_first().skip(i - 1))
            =~= s.take(i) + seq![x] + s.skip(i));
    }
}

/// Inserting into an ordered sequence keeps it ordered.
proof fn lemma_insert_sorted_ordered(x: SortPair, s: Seq<SortPair>)
    requires
        pairs_sorted(s),
    ensures
        pairs_sorted(insert_sorted(x, s)),
        insert_sorted(x, s).len() == s.len() + 1,
        forall|k: int|
            0 <= k < insert_sorted(x, s).len() ==> (insert_sorted(x, s)[k] == x || s.contains(
                #[trigger] insert_sorted(x, s)[k],
            )),
    decreases s.len(),
{
    let out = insert_sorted(x, s);
    if s.len() == 0 {
    } else if pair_le(x, s[0]) {
        assert forall|i: int, j: int| 0 <= i < j < out.len() implies pair_le(
            out[i],
            out[j],
        ) by {
            if i == 0 {
                assert(pair_le(x, s[0]));
                assert(out[j] == s[j - 1]);
                if j >= 2 {
                    assert(pair_le(s[0], s[j - 1]));
                }
            } else {
                assert(out[i] == s[i - 1] && out[j] == s[j - 1]);
                assert(pair_le(s[i - 1], s[j - 1]));
            }
        }
        assert forall|k: int| 0 <= k < out.len() implies (out[k] == x || s.contains(
            #[trigger] out[k],
        )) by {
            if k > 0 {
                assert(out[k] == s[k - 1]);
            }
        }
    } else {
        let rest = s.drop_first();
        lemma_insert_sorted_ordered(x, rest);
        let inner = insert_sorted(x, rest);
        assert(out =~= seq![s[0]] + inner);
        assert forall|i: int, j: int| 0 <= i < j < out.len() implies pair_le(
            out[i],
            out[j],
        ) by {
            if i == 0 {
                assert(out[j] == inner[j - 1]);
                if inner[j - 1] == x {
                    assert(!pair_le(x, s[0]));
                    assert(pair_le(s[0], x)) by {
                        assert(s[0].0 < x.0 || (s[0].0 == x.0 && s[0].1 <= x.1));
                    }
                } else {
                    assert(rest.contains(inner[j - 1]));
                    let w = choose|w: int| 0 <= w < rest.len() && rest[w] == inner[j - 1];
                    assert(pair_le(s[0], s[w + 1]));
                }
            } else {
                assert(out[i] == inner[i - 1] && out[j] == inner[j - 1]);
            }
        }
        assert forall|k: int| 0 <= k < out.len() implies (out[k] == x || s.contains(
            #[trigger] out[k],
        )) by {
            if k == 0 {
                assert(s[0] == out[0]);
                assert(s.contains(s[0]));
            } else {
                assert(out[k] == inner[k - 1]);
                if inner[k - 1] != x {
                    assert(rest.contains(inner[k - 1]));
                    let w = choose|w: int| 0 <= w < rest.len() && rest[w] == inner[k - 1];
                    assert(s[w + 1] == rest[w]);
                }
            }
        }
    }
}

/// What sorting yields: the same length, an ordered result, and only
/// rows of the input.
pub proof fn lemma_sort_pairs_ensures(s: Seq<SortPair>)
    ensures
        sort_pairs(s).len() == s.len(),
        pairs_sorted(sort_pairs(s)),
        forall|k: int|
            0 <= k < sort_pairs(s).len() ==> s.contains(#[trigger] sort_pairs(s)[k]),
    decreases s.len(),
{
    if s.len() > 0 {
        let rest = s.drop_first();
        lemma_sort_pairs_ensures(rest);
        lemma_insert_sorted_ordered(s[0], sort_pairs(rest));
        assert forall|k: int| 0 <= k < sort_pairs(s).len() implies s.contains(
            #[trigger] sort_pairs(s)[k],
        ) by {
            let e = sort_pairs(s)[k];
            if e == s[0] {
                assert(s[0] == s[0]);
            } else if sort_pairs(rest).contains(e) {
                let w = choose|w: int| 0 <= w < sort_pairs(rest).len() && sort_pairs(rest)[w] == e;
                assert(rest.contains(e));
                let v = choose|v: int| 0 <= v < rest.len() && rest[v] == e;
                assert(s[v + 1] == e);
            }
        }
    }
}

/// Whether `a` precedes or equals `b` in the sort order.
fn pair_le_exec(a: SortPair, b: SortPair) -> (r: bool)
    ensures
        r == pair_le(a, b),
{
    a.0 < b.0 || (a.0 == b.0 && a.1 <= b.1)
}

/// The position at which an ordered vector takes one more row: the
/// first whose row does not precede `x`.
fn find_insert_pos(x: SortPair, v: &Vec<SortPair>) -> (r: usize)
    ensures
        r <= v@.len(),
        forall|j: int| 0 <= j < r ==> !pair_le(x, v@[j]),
        r < v@.len() ==> pair_le(x, v@[r as int]),
{
    let mut i: usize = 0;
    while i < v.len()
        invariant
            i <= v@.len(),
            forall|j: int| 0 <= j < i ==> !pair_le(x, v@[j]),
        decreases v@.len() - i,
    {
        if pair_le_exec(x, v[i]) {
            return i;
        }
        i += 1;
    }
    i
}

/// Inserts one row into an ordered vector.
fn insert_pair(x: SortPair, v: &mut Vec<SortPair>)
    ensures
        final(v)@ == insert_sorted(x, old(v)@),
{
    let i = find_insert_pos(x, v);
    proof {
        lemma_insert_sorted_at(x, v@, i as int);
    }
    v.insert(i, x);
    proof {
        assert(old(v)@.insert(i as int, x) =~= old(v)@.take(i as int) + seq![x] + old(v)@.skip(
            i as int,
        ));
    }
}

/// Sorts the rows under the total order `pair_le`.
pub fn sort_pairs_exec(v: &Vec<SortPair>) -> (r: Vec<SortPair>)
    ensures
        r@ == sort_pairs(v@),
{
    let mut acc: Vec<SortPair> = Vec::new();
    let mut i: usize = v.len();
    while i > 0
        invariant
            i <= v@.len(),
            acc@ == sort_pairs(v@.skip(i as int)),
        decreases i,
    {
        i -= 1;
        insert_pair(v[i], &mut acc);
        proof {
            assert(v@.skip(i as int).drop_first() =~= v@.skip(i + 1));
            assert(v@.skip(i as int)[0] == v@[i as int]);
        }
    }
    proof {
        assert(v@.skip(0) =~= v@);
    }
    acc
}

} // verus!
