//! Cross-venue spread detection.
//!
//! For every quote the detector computes the relative spread between the two
//! venues and keeps the quote exactly when the spread reaches the threshold.
//! The detector is total: malformed quotes are filtered out, never rejected
//! with an error, and the output preserves the input order.

use vstd::prelude::*;

use crate::model::ArbitrageOpportunity;
use crate::model::Venue;
use crate::model::VenuePrice;
use crate::model::MAX_QUANTITY;
use crate::model::SPREAD_SCALE;

verus! {

/// The relative spread of a quote, in `SPREAD_SCALE` units of a percent,
/// rounded down: `|price_a - price_b| / mean(price_a, price_b) * 100`,
/// which equals `200 * |price_a - price_b| / (price_a + price_b)`.
pub open spec fn spec_spread_pct(p: VenuePrice) -> int
    recommends
        p.valid(),
{
    let diff = if p.price_a >= p.price_b {
        p.price_a - p.price_b
    } else {
        p.price_b - p.price_a
    };
    200 * diff * SPREAD_SCALE / (p.price_a + p.price_b)
}

/// A quote qualifies when it is well formed and its spread reaches the
/// threshold. Equal prices give a spread of zero, excluded unless the
/// threshold is zero.
pub open spec fn spec_arb_hit(p: VenuePrice, threshold_pct: u64) -> bool {
    p.valid() && spec_spread_pct(p) >= threshold_pct
}

/// The opportunity derived from a qualifying quote: the venue with the
/// lower quote is the buy side (venue A on a tie).
pub open spec fn spec_arb_opportunity(p: VenuePrice) -> ArbitrageOpportunity {
    ArbitrageOpportunity {
        instrument: p,
        spread_pct: spec_spread_pct(p) as u64,
        buy_venue: if p.price_a <= p.price_b {
            Venue::A
        } else {
            Venue::B
        },
        sell_venue: if p.price_a <= p.price_b {
            Venue::B
        } else {
            Venue::A
        },
    }
}

/// The qualifying quotes, in input order, each turned into an opportunity.
pub open spec fn spec_detect_arbitrage(ps: Seq<VenuePrice>, threshold_pct: u64) -> Seq<
    ArbitrageOpportunity,
>
    decreases ps.len(),
{
    if ps.len() == 0 {
        Seq::empty()
    } else {
        let rest = spec_detect_arbitrage(ps.drop_last(), threshold_pct);
        if spec_arb_hit(ps.last(), threshold_pct) {
            rest.push(spec_arb_opportunity(ps.last()))
        } else {
            rest
        }
    }
}

/// The spread of a well-formed quote, never negative and below 200 percent.
pub fn spread_pct(p: &VenuePrice) -> (r: u64)
    requires
        p.valid(),
    ensures
        r == spec_spread_pct(*p),
        r < 200 * SPREAD_SCALE,
{
    let diff: u64 = if p.price_a >= p.price_b {
        p.price_a - p.price_b
    } else {
        p.price_b - p.price_a
    };
    let num: u128 = 200 * (diff as u128) * (SPREAD_SCALE as u128);
    let den: u128 = (p.price_a as u128) + (p.price_b as u128);
    let q: u128 = num / den;
    proof {
        assert(diff < p.price_a + p.price_b);
        assert(num < den * (200 * SPREAD_SCALE)) by (nonlinear_arith)
            requires
                num == 200 * diff * SPREAD_SCALE,
                den == p.price_a + p.price_b,
                diff < den,
                0 < den,
        ;
        vstd::arithmetic::div_mod::lemma_multiply_divide_lt(
            num as int,
            den as int,
            200 * SPREAD_SCALE as int,
        );
    }
    q as u64
}

/// Scan the quotes and keep, in input order, every well-formed quote whose
/// spread reaches the threshold. Malformed quotes are dropped silently.
pub fn detect_arbitrage(prices: Vec<VenuePrice>, threshold_pct: u64) -> (r: Vec<
    ArbitrageOpportunity,
>)
    ensures
        r@ == spec_detect_arbitrage(prices@, threshold_pct),
{
    let ghost orig = prices@;
    let mut prices = prices;
    let mut out: Vec<ArbitrageOpportunity> = Vec::new();
    let n: usize = prices.len();
    let mut i: usize = 0;
    while i < n
        invariant
            n == orig.len(),
            i <= n,
            prices@ == orig.skip(i as int),
            out@ == spec_detect_arbitrage(orig.take(i as int), threshold_pct),
        decreases n - i,
    {
        let p = prices.remove(0);
        proof {
            assert(p == orig[i as int]);
            assert(orig.skip(i as int).remove(0) =~= orig.skip(i as int + 1));
            assert(orig.take(i as int + 1).drop_last() =~= orig.take(i as int));
            assert(orig.take(i as int + 1).last() == orig[i as int]);
        }
        if p.is_valid() {
            let s = spread_pct(&p);
            if s >= threshold_pct {
                let (buy_venue, sell_venue) = if p.price_a <= p.price_b {
                    (Venue::A, Venue::B)
                } else {
                    (Venue::B, Venue::A)
                };
                out.push(
                    ArbitrageOpportunity { instrument: p, spread_pct: s, buy_venue, sell_venue },
                );
            }
        }
        i = i + 1;
    }
    proof {
        assert(orig.take(n as int) =~= orig);
    }
    out
}

/// The spread of a well-formed quote is never negative.
pub proof fn lemma_spread_nonneg(p: VenuePrice)
    requires
        p.valid(),
    ensures
        spec_spread_pct(p) >= 0,
{
    let diff: int = if p.price_a >= p.price_b {
        p.price_a - p.price_b
    } else {
        p.price_b - p.price_a
    };
    vstd::arithmetic::div_mod::lemma_div_pos_is_pos(
        200 * diff * SPREAD_SCALE,
        (p.price_a + p.price_b) as int,
    );
}

/// A quote with equal prices on both venues has a spread of exactly zero,
/// so any positive threshold excludes it.
pub proof fn lemma_equal_prices_excluded(p: VenuePrice, threshold_pct: u64)
    requires
        p.price_a == p.price_b,
        threshold_pct > 0,
    ensures
        p.valid() ==> spec_spread_pct(p) == 0,
        spec_detect_arbitrage(seq![p], threshold_pct) =~= Seq::<ArbitrageOpportunity>::empty(),
{
    if p.valid() {
        vstd::arithmetic::div_mod::lemma_div_of0((p.price_a + p.price_b) as int);
    }
    assert(seq![p].drop_last() =~= Seq::<VenuePrice>::empty());
    assert(seq![p].last() == p);
    assert(!spec_arb_hit(p, threshold_pct));
    assert(spec_detect_arbitrage(Seq::<VenuePrice>::empty(), threshold_pct) =~= Seq::<
        ArbitrageOpportunity,
    >::empty());
}

/// The detector is exactly a filter of the input by the threshold predicate
/// followed by the per-quote projection: it keeps nothing else, invents
/// nothing, and preserves input order.
pub proof fn lemma_detect_arbitrage_is_filter(ps: Seq<VenuePrice>, threshold_pct: u64)
    ensures
        spec_detect_arbitrage(ps, threshold_pct) == ps.filter(
            |p: VenuePrice| spec_arb_hit(p, threshold_pct),
        ).map_values(|p: VenuePrice| spec_arb_opportunity(p)),
    decreases ps.len(),
{
    reveal(Seq::filter);
    let pred = |p: VenuePrice| spec_arb_hit(p, threshold_pct);
    let proj = |p: VenuePrice| spec_arb_opportunity(p);
    if ps.len() == 0 {
        assert(ps.filter(pred).map_values(proj) =~= Seq::<ArbitrageOpportunity>::empty());
    } else {
        lemma_detect_arbitrage_is_filter(ps.drop_last(), threshold_pct);
        if pred(ps.last()) {
            assert(ps.filter(pred).map_values(proj) =~= ps.drop_last().filter(pred).map_values(
                proj,
            ).push(proj(ps.last())));
        } else {
            assert(ps.filter(pred) == ps.drop_last().filter(pred));
        }
    }
}

/// Detection is idempotent: running the detector again on the quotes it
/// already accepted yields the same opportunities.
pub proof fn lemma_detect_arbitrage_idempotent(ps: Seq<VenuePrice>, threshold_pct: u64)
    ensures
        spec_detect_arbitrage(
            ps.filter(|p: VenuePrice| spec_arb_hit(p, threshold_pct)),
            threshold_pct,
        ) == spec_detect_arbitrage(ps, threshold_pct),
{
    let pred = |p: VenuePrice| spec_arb_hit(p, threshold_pct);
    lemma_detect_arbitrage_is_filter(ps, threshold_pct);
    lemma_detect_arbitrage_is_filter(ps.filter(pred), threshold_pct);
    lemma_filter_idempotent(ps, pred);
}

/// Filtering a sequence a second time with the same predicate changes
/// nothing.
proof fn lemma_filter_idempotent<T>(s: Seq<T>, pred: spec_fn(T) -> bool)
    ensures
        s.filter(pred).filter(pred) == s.filter(pred),
    decreases s.len(),
{
    reveal(Seq::filter);
    if s.len() == 0 {
        assert(s.filter(pred) =~= Seq::<T>::empty());
    } else {
        lemma_filter_idempotent(s.drop_last(), pred);
        if pred(s.last()) {
            let f = s.drop_last().filter(pred).push(s.last());
            assert(f.drop_last() =~= s.drop_last().filter(pred));
            assert(f.last() == s.last());
        }
    }
}

} // verus!
