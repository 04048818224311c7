//! Strategy-agnostic ranking of opportunities.
//!
//! The ranker orders opportunities by descending value metric, breaks ties
//! by input order, and optionally truncates to a requested number of
//! results. It is generic over any type that exposes a numeric value
//! projection, and its ordering is specified by a deterministic insertion
//! sort at the specification level.

use vstd::prelude::*;

use crate::model::ArbitrageOpportunity;
use crate::model::Opportunity;
use crate::model::SandwichOpportunity;

verus! {

/// A type with a numeric value metric that ranking orders by.
pub trait Valued {
    /// The value metric, as specifications see it.
    spec fn key_spec(&self) -> u64;

    /// The value metric, as executable code reads it.
    fn key(&self) -> (k: u64)
        ensures
            k == self.key_spec(),
    ;
}

impl Valued for ArbitrageOpportunity {
    open spec fn key_spec(&self) -> u64 {
        self.spread_pct
    }

    fn key(&self) -> (k: u64)
        ensures
            k == self.key_spec(),
    {
        self.spread_pct
    }
}

impl Valued for SandwichOpportunity {
    open spec fn key_spec(&self) -> u64 {
        self.estimated_profit
    }

    fn key(&self) -> (k: u64)
        ensures
            k == self.key_spec(),
    {
        self.estimated_profit
    }
}

impl Valued for Opportunity {
    open spec fn key_spec(&self) -> u64 {
        match self {
            Opportunity::Arbitrage(o) => o.spread_pct,
            Opportunity::Sandwich(o) => o.estimated_profit,
        }
    }

    fn key(&self) -> (k: u64)
        ensures
            k == self.key_spec(),
    {
        match self {
            Opportunity::Arbitrage(o) => o.spread_pct,
            Opportunity::Sandwich(o) => o.estimated_profit,
        }
    }
}

/// The sequence is ordered by weakly descending value metric.
pub open spec fn sorted_desc<T: Valued>(s: Seq<T>) -> bool {
    forall|i: int, j: int|
        0 <= i < j < s.len() ==> #[trigger] s[i].key_spec() >= #[trigger] s[j].key_spec()
}

/// Where a stable descending insertion places `x` in `s`: after every
/// element whose key is at least `x`'s, so that ties keep the earlier
/// element first.
pub open spec fn spec_insert_pos<T: Valued>(s: Seq<T>, x: T) -> int
    decreases s.len(),
{
    if s.len() == 0 {
        0
    } else if s[0].key_spec() >= x.key_spec() {
        1 + spec_insert_pos(s.drop_first(), x)
    } else {
        0
    }
}

/// Stable descending insertion of `x` into `s`.
pub open spec fn spec_insert_desc<T: Valued>(s: Seq<T>, x: T) -> Seq<T>
    decreases s.len(),
{
    if s.len() == 0 {
        seq![x]
    } else if s[0].key_spec() >= x.key_spec() {
        seq![s[0]] + spec_insert_desc(s.drop_first(), x)
    } else {
        seq![x] + s
    }
}

/// Stable descending insertion sort: the unique ordering of `s` by
/// descending value metric with ties kept in input order.
pub open spec fn spec_sort_desc<T: Valued>(s: Seq<T>) -> Seq<T>
    decreases s.len(),
{
    if s.len() == 0 {
        Seq::empty()
    } else {
        spec_insert_desc(spec_sort_desc(s.drop_last()), s.last())
    }
}

/// What ranking returns: the stable descending ordering of the input,
/// truncated to `max_results` when one is given.
pub open spec fn spec_rank<T: Valued>(s: Seq<T>, max_results: Option<usize>) -> Seq<T> {
    let sorted = spec_sort_desc(s);
    match max_results {
        Option::None => sorted,
        Option::Some(m) => if m < sorted.len() {
            sorted.take(m as int)
        } else {
            sorted
        },
    }
}

/// Insertion lands exactly at `spec_insert_pos`: everything before that
/// position has a key at least `x`'s, and the element displaced (if any)
/// has a strictly smaller key.
proof fn lemma_insert_desc_structure<T: Valued>(s: Seq<T>, x: T)
    ensures
        0 <= spec_insert_pos(s, x) <= s.len(),
        spec_insert_desc(s, x) == s.insert(spec_insert_pos(s, x), x),
        forall|k: int| 0 <= k < spec_insert_pos(s, x) ==> #[trigger] s[k].key_spec()
            >= x.key_spec(),
        spec_insert_pos(s, x) < s.len() ==> s[spec_insert_pos(s, x)].key_spec() < x.key_spec(),
    decreases s.len(),
{
    let p = spec_insert_pos(s, x);
    if s.len() == 0 {
        assert(spec_insert_desc(s, x) =~= s.insert(0, x));
    } else if s[0].key_spec() >= x.key_spec() {
        lemma_insert_desc_structure(s.drop_first(), x);
        assert(spec_insert_desc(s, x) == seq![s[0]] + s.drop_first().insert(p - 1, x));
        assert(seq![s[0]] + s.drop_first().insert(p - 1, x) =~= s.insert(p, x));
        assert forall|k: int| 0 <= k < p implies #[trigger] s[k].key_spec() >= x.key_spec() by {
            if k > 0 {
                assert(s.drop_first()[k - 1] == s[k]);
            }
        }
        if p < s.len() {
            assert(s.drop_first()[p - 1] == s[p]);
        }
    } else {
        assert(spec_insert_desc(s, x) =~= s.insert(0, x));
    }
}

/// The sorted sequence has the input's length, is ordered by descending
/// key, and holds exactly the input's elements.
proof fn lemma_sort_desc_props<T: Valued>(s: Seq<T>)
    ensures
        spec_sort_desc(s).len() == s.len(),
        sorted_desc(spec_sort_desc(s)),
        spec_sort_desc(s).to_multiset() == s.to_multiset(),
    decreases s.len(),
{
    if s.len() == 0 {
        assert(s =~= Seq::<T>::empty());
    } else {
        lemma_sort_desc_props(s.drop_last());
        let prev = spec_sort_desc(s.drop_last());
        let x = s.last();
        let r = spec_sort_desc(s);
        lemma_insert_desc_structure(prev, x);
        let p = spec_insert_pos(prev, x);
        assert(r == prev.insert(p, x));
        assert(r.len() == s.len());
        assert forall|i: int, j: int| 0 <= i < j < r.len() implies #[trigger] r[i].key_spec()
            >= #[trigger] r[j].key_spec() by {
            if j < p {
                assert(r[i] == prev[i] && r[j] == prev[j]);
            } else if j == p {
                assert(r[i] == prev[i] && r[j] == x);
            } else {
                assert(r[j] == prev[j - 1]);
                if i < p {
                    assert(r[i] == prev[i]);
                    assert(prev[i].key_spec() >= x.key_spec());
                    assert(prev[p].key_spec() < x.key_spec());
                    assert(prev[i].key_spec() >= prev[j - 1].key_spec());
                } else if i == p {
                    assert(r[i] == x);
                    assert(prev[j - 1].key_spec() <= prev[p].key_spec() < x.key_spec());
                } else {
                    assert(r[i] == prev[i - 1]);
                }
            }
        }
        vstd::seq_lib::to_multiset_insert(prev, p, x);
        assert(s =~= s.drop_last().push(x));
        vstd::seq_lib::to_multiset_build(s.drop_last(), x);
    }
}

/// Ranking sorts: the output of `spec_sort_desc` has the input's length
/// and is ordered by weakly descending value metric.
pub proof fn lemma_rank_sorted<T: Valued>(s: Seq<T>)
    ensures
        spec_sort_desc(s).len() == s.len(),
        sorted_desc(spec_sort_desc(s)),
{
    lemma_sort_desc_props(s);
}

/// Ranking neither drops nor invents elements: the sorted sequence is a
/// permutation of the input.
pub proof fn lemma_rank_permutes<T: Valued>(s: Seq<T>)
    ensures
        spec_sort_desc(s).to_multiset() == s.to_multiset(),
{
    lemma_sort_desc_props(s);
}

/// An item paired with the position it held in the input, used to state
/// that ranking is stable.
pub struct Tagged<T> {
    pub item: T,
    pub tag: u64,
}

impl<T: Valued> Valued for Tagged<T> {
    open spec fn key_spec(&self) -> u64 {
        self.item.key_spec()
    }

    fn key(&self) -> (k: u64)
        ensures
            k == self.key_spec(),
    {
        self.item.key()
    }
}

/// The tags grow strictly along the sequence, as input positions do.
pub open spec fn tags_increasing<T>(s: Seq<Tagged<T>>) -> bool {
    forall|i: int, j: int| 0 <= i < j < s.len() ==> #[trigger] s[i].tag < #[trigger] s[j].tag
}

/// Elements of equal value metric stand in tag order, that is, in the
/// order the input gave them.
pub open spec fn stable_desc<T: Valued>(s: Seq<Tagged<T>>) -> bool {
    forall|i: int, j: int|
        0 <= i < j < s.len() && s[i].item.key_spec() == s[j].item.key_spec() ==> #[trigger] s[i].tag
            < #[trigger] s[j].tag
}

/// Ranking is stable: tag every item with its input position; in the
/// sorted output, items of equal value metric keep their input order.
pub proof fn lemma_rank_stable<T: Valued>(s: Seq<Tagged<T>>)
    requires
        tags_increasing(s),
    ensures
        stable_desc(spec_sort_desc(s)),
    decreases s.len(),
{
    if s.len() > 0 {
        assert forall|i: int, j: int| 0 <= i < j < s.drop_last().len() implies #[trigger] s.drop_last()[i].tag
            < #[trigger] s.drop_last()[j].tag by {
            assert(s.drop_last()[i] == s[i] && s.drop_last()[j] == s[j]);
        }
        lemma_rank_stable(s.drop_last());
        lemma_sort_desc_props(s.drop_last());
        let prev = spec_sort_desc(s.drop_last());
        let x = s.last();
        let r = spec_sort_desc(s);
        lemma_insert_desc_structure(prev, x);
        let p = spec_insert_pos(prev, x);
        assert(r == prev.insert(p, x));
        assert forall|k: int| 0 <= k < prev.len() implies #[trigger] prev[k].tag < x.tag by {
            assert(prev.contains(prev[k]));
            vstd::seq_lib::to_multiset_contains(prev, prev[k]);
            vstd::seq_lib::to_multiset_contains(s.drop_last(), prev[k]);
            assert(s.drop_last().contains(prev[k]));
            let w = choose|w: int| 0 <= w < s.drop_last().len() && s.drop_last()[w] == prev[k];
            assert(s[w] == prev[k]);
            assert(s[w].tag < s[s.len() - 1].tag);
        }
        assert forall|i: int, j: int|
            0 <= i < j < r.len() && r[i].item.key_spec() == r[j].item.key_spec() implies #[trigger] r[i].tag
            < #[trigger] r[j].tag by {
            if j < p {
                assert(r[i] == prev[i] && r[j] == prev[j]);
            } else if j == p {
                assert(r[i] == prev[i] && r[j] == x);
            } else {
                assert(r[j] == prev[j - 1]);
                if i < p {
                    assert(r[i] == prev[i]);
                } else if i == p {
                    assert(r[i] == x);
                    assert(prev[j - 1].key_spec() <= prev[p].key_spec() < x.key_spec());
                } else {
                    assert(r[i] == prev[i - 1]);
                }
            }
        }
    }
}

/// The items of a tagged sequence, with their tags dropped.
pub open spec fn untag<T>(s: Seq<Tagged<T>>) -> Seq<T> {
    s.map_values(|p: Tagged<T>| p.item)
}

/// Insertion ignores the tags: inserting a tagged item and then dropping
/// the tags is dropping the tags and inserting the bare item.
proof fn lemma_insert_desc_untag<T: Valued>(s: Seq<Tagged<T>>, x: Tagged<T>)
    ensures
        untag(spec_insert_desc(s, x)) == spec_insert_desc(untag(s), x.item),
    decreases s.len(),
{
    if s.len() == 0 {
        assert(untag(spec_insert_desc(s, x)) =~= seq![x.item]);
        assert(untag(s).len() == 0);
        assert(spec_insert_desc(untag(s), x.item) =~= seq![x.item]);
    } else {
        assert(untag(s)[0] == s[0].item);
        if s[0].key_spec() >= x.key_spec() {
            lemma_insert_desc_untag(s.drop_first(), x);
            assert(untag(s.drop_first()) =~= untag(s).drop_first());
            assert(untag(seq![s[0]] + spec_insert_desc(s.drop_first(), x)) =~= seq![s[0].item]
                + untag(spec_insert_desc(s.drop_first(), x)));
            assert(spec_insert_desc(untag(s), x.item) == seq![untag(s)[0]] + spec_insert_desc(
                untag(s).drop_first(),
                x.item,
            ));
            assert(untag(spec_insert_desc(s, x)) =~= spec_insert_desc(untag(s), x.item));
        } else {
            assert(untag(seq![x] + s) =~= seq![x.item] + untag(s));
            assert(spec_insert_desc(untag(s), x.item) == seq![x.item] + untag(s));
        }
    }
}

/// The tags carried for the stability statement change nothing about the
/// ordering itself: sorting a tagged sequence and dropping the tags is
/// sorting the bare items. Together with `lemma_rank_stable` this says
/// that `rank`'s output is the item-wise image of a stable sorted tagged
/// sequence.
pub proof fn lemma_rank_erases_tags<T: Valued>(s: Seq<Tagged<T>>)
    ensures
        untag(spec_sort_desc(s)) == spec_sort_desc(untag(s)),
    decreases s.len(),
{
    if s.len() == 0 {
        assert(untag(spec_sort_desc(s)) =~= Seq::<T>::empty());
        assert(untag(s).len() == 0);
    } else {
        lemma_rank_erases_tags(s.drop_last());
        lemma_insert_desc_untag(spec_sort_desc(s.drop_last()), s.last());
        assert(untag(s).len() == s.len());
        assert(untag(s.drop_last()) =~= untag(s).drop_last());
        assert(untag(s).last() == s.last().item);
        assert(untag(spec_sort_desc(s)) =~= spec_sort_desc(untag(s)));
    }
}

/// Order the items by descending value metric, ties broken by input order,
/// and keep at most `max_results` of them when a bound is given.
pub fn rank<T: Valued>(items: Vec<T>, max_results: Option<usize>) -> (r: Vec<T>)
    ensures
        r@ == spec_rank(items@, max_results),
{
    let ghost orig = items@;
    let mut items = items;
    let mut out: Vec<T> = Vec::new();
    let n: usize = items.len();
    let mut i: usize = 0;
    while i < n
        invariant
            n == orig.len(),
            i <= n,
            items@ == orig.skip(i as int),
            out@ == spec_sort_desc(orig.take(i as int)),
            out@.len() == i,
        decreases n - i,
    {
        let ghost out_before = out@;
        let x = items.remove(0);
        proof {
            assert(x == orig[i as int]);
            assert(orig.skip(i as int).remove(0) =~= orig.skip(i as int + 1));
            assert(orig.take(i as int + 1).drop_last() =~= orig.take(i as int));
            assert(orig.take(i as int + 1).last() == orig[i as int]);
            lemma_sort_desc_props(orig.take(i as int));
        }
        let xk = x.key();
        let mut j: usize = 0;
        while j < out.len() && out[j].key() >= xk
            invariant
                j <= out.len(),
                out@ == out_before,
                xk == x.key_spec(),
                forall|k: int| 0 <= k < j ==> #[trigger] out@[k].key_spec() >= xk,
            decreases out.len() - j,
        {
            j = j + 1;
        }
        proof {
            lemma_insert_desc_structure(out@, x);
            let p = spec_insert_pos(out@, x);
            if j < p {
                assert(out@[j as int].key_spec() >= x.key_spec());
            }
            if p < j {
                assert(out@[p].key_spec() >= xk);
            }
            assert(j == p);
        }
        out.insert(j, x);
        i = i + 1;
    }
    proof {
        assert(orig.take(n as int) =~= orig);
        lemma_sort_desc_props(orig);
    }
    match max_results {
        Option::None => out,
        Option::Some(m) => {
            out.truncate(m);
            proof {
                if m >= orig.len() {
                    assert(out@ == spec_rank(orig, max_results));
                } else {
                    assert(spec_sort_desc(orig).subrange(0, m as int) =~= spec_sort_desc(
                        orig,
                    ).take(m as int));
                }
            }
            out
        },
    }
}

} // verus!
