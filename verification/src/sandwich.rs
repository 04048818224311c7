//! Sandwich detection over the pending-transaction pool.
//!
//! A transfer qualifies when it is well formed, large enough, and the
//! estimated profit of sandwiching it reaches the configured floor. The
//! front-run trade goes in the victim's direction, the back-run trade
//! reverses it. The detector is total and preserves input order.

use vstd::prelude::*;

use crate::model::PendingTransfer;
use crate::model::SandwichOpportunity;
use crate::model::IMPACT_SCALE;
use crate::model::MAX_QUANTITY;

verus! {

/// Policy knobs of the sandwich strategy. The slippage factor models
/// fee and slippage erosion of the theoretical profit; the front-run
/// fraction sizes the front trade relative to the victim's amount. Both
/// are fractions no greater than one, with small denominators.
#[derive(Clone, Copy, Debug, PartialEq, Eq, Structural)]
pub struct SandwichPolicy {
    pub min_amount: u64,
    pub min_profit: u64,
    pub slippage_num: u64,
    pub slippage_den: u64,
    pub front_run_num: u64,
    pub front_run_den: u64,
}

impl SandwichPolicy {
    pub open spec fn valid(self) -> bool {
        &&& 0 < self.slippage_den <= 1000
        &&& self.slippage_num <= self.slippage_den
        &&& 0 < self.front_run_den <= 1000
        &&& self.front_run_num <= self.front_run_den
    }

    pub fn is_valid(&self) -> (r: bool)
        ensures
            r == self.valid(),
    {
        0 < self.slippage_den && self.slippage_den <= 1000 && self.slippage_num
            <= self.slippage_den && 0 < self.front_run_den && self.front_run_den <= 1000
            && self.front_run_num <= self.front_run_den
    }
}

impl Default for SandwichPolicy {
    /// The documented defaults: victims of at least 1000 units, profit of at
    /// least 50 units, slippage factor 7/10, front-run fraction 1/10.
    fn default() -> (r: SandwichPolicy)
        ensures
            r == spec_default_policy(),
    {
        SandwichPolicy {
            min_amount: 1000,
            min_profit: 50,
            slippage_num: 7,
            slippage_den: 10,
            front_run_num: 1,
            front_run_den: 10,
        }
    }
}

/// The default sandwich policy; it is valid.
pub open spec fn spec_default_policy() -> SandwichPolicy {
    SandwichPolicy {
        min_amount: 1000,
        min_profit: 50,
        slippage_num: 7,
        slippage_den: 10,
        front_run_num: 1,
        front_run_den: 10,
    }
}

/// The estimated profit of sandwiching a transfer, rounded down:
/// `amount * expected_impact * slippage`, with the impact and the slippage
/// factor read as fractions.
pub open spec fn spec_estimated_profit(t: PendingTransfer, policy: SandwichPolicy) -> int
    recommends
        t.valid(),
        policy.valid(),
{
    t.amount * t.expected_impact * policy.slippage_num / (IMPACT_SCALE * policy.slippage_den)
}

/// The size of the front-run trade: the configured fraction of the
/// victim's amount, rounded down.
pub open spec fn spec_front_amount(t: PendingTransfer, policy: SandwichPolicy) -> int
    recommends
        policy.valid(),
{
    t.amount * policy.front_run_num / (policy.front_run_den as int)
}

/// A transfer qualifies when it is well formed, at least `min_amount`
/// large, and worth at least `min_profit`.
pub open spec fn spec_sandwich_hit(t: PendingTransfer, policy: SandwichPolicy) -> bool {
    t.valid() && t.amount >= policy.min_amount && spec_estimated_profit(t, policy)
        >= policy.min_profit
}

/// The opportunity derived from a qualifying transfer.
pub open spec fn spec_sandwich_opportunity(t: PendingTransfer, policy: SandwichPolicy)
    -> SandwichOpportunity {
    SandwichOpportunity {
        front_side: t.side,
        back_side: t.side.spec_opposite(),
        front_amount: spec_front_amount(t, policy) as u64,
        estimated_profit: spec_estimated_profit(t, policy) as u64,
        victim: t,
    }
}

/// The qualifying transfers, in input order, each turned into an
/// opportunity.
pub open spec fn spec_detect_sandwich(ts: Seq<PendingTransfer>, policy: SandwichPolicy) -> Seq<
    SandwichOpportunity,
>
    decreases ts.len(),
{
    if ts.len() == 0 {
        Seq::empty()
    } else {
        let rest = spec_detect_sandwich(ts.drop_last(), policy);
        if spec_sandwich_hit(ts.last(), policy) {
            rest.push(spec_sandwich_opportunity(ts.last(), policy))
        } else {
            rest
        }
    }
}

/// The estimated profit of a well-formed transfer under a valid policy
/// never exceeds the transfer's amount: the impact and the slippage factor
/// are both fractions of at most one.
pub proof fn lemma_profit_bounded(t: PendingTransfer, policy: SandwichPolicy)
    requires
        t.valid(),
        policy.valid(),
    ensures
        0 <= spec_estimated_profit(t, policy) <= t.amount,
{
    let num = t.amount * t.expected_impact * policy.slippage_num;
    let den = IMPACT_SCALE * policy.slippage_den;
    assert(num <= t.amount * den && 0 < den && 0 <= num) by (nonlinear_arith)
        requires
            t.expected_impact <= IMPACT_SCALE,
            policy.slippage_num <= policy.slippage_den,
            0 < policy.slippage_den,
            num == t.amount * t.expected_impact * policy.slippage_num,
            den == IMPACT_SCALE * policy.slippage_den,
    ;
    vstd::arithmetic::div_mod::lemma_div_is_ordered(num, t.amount * den, den);
    vstd::arithmetic::div_mod::lemma_div_by_multiple(t.amount as int, den);
    vstd::arithmetic::div_mod::lemma_div_pos_is_pos(num, den);
}

/// The front-run amount never exceeds the victim's amount.
pub proof fn lemma_front_amount_bounded(t: PendingTransfer, policy: SandwichPolicy)
    requires
        policy.valid(),
    ensures
        0 <= spec_front_amount(t, policy) <= t.amount,
{
    let num = t.amount * policy.front_run_num;
    let den = policy.front_run_den as int;
    assert(num <= t.amount * den && 0 <= num) by (nonlinear_arith)
        requires
            policy.front_run_num <= policy.front_run_den,
            0 < policy.front_run_den,
            num == t.amount * policy.front_run_num,
            den == policy.front_run_den as int,
    ;
    vstd::arithmetic::div_mod::lemma_div_is_ordered(num, t.amount * den, den);
    vstd::arithmetic::div_mod::lemma_div_by_multiple(t.amount as int, den);
    vstd::arithmetic::div_mod::lemma_div_pos_is_pos(num, den);
}

/// The estimated profit of a qualifying transfer, rounded down. Safe for
/// every well-formed transfer under a valid policy.
pub fn estimated_profit(t: &PendingTransfer, policy: &SandwichPolicy) -> (r: u64)
    requires
        t.valid(),
        policy.valid(),
    ensures
        r == spec_estimated_profit(*t, *policy),
        r <= t.amount,
{
    proof {
        lemma_profit_bounded(*t, *policy);
        assert(t.amount * t.expected_impact <= MAX_QUANTITY * IMPACT_SCALE && t.amount
            * t.expected_impact * policy.slippage_num <= MAX_QUANTITY * IMPACT_SCALE
            * 1000) by (nonlinear_arith)
            requires
                t.amount <= MAX_QUANTITY,
                t.expected_impact <= IMPACT_SCALE,
                policy.slippage_num <= 1000,
        ;
    }
    let num: u128 = (t.amount as u128) * (t.expected_impact as u128) * (policy.slippage_num
        as u128);
    let den: u128 = (IMPACT_SCALE as u128) * (policy.slippage_den as u128);
    (num / den) as u64
}

/// The front-run amount of a transfer, rounded down.
pub fn front_amount(t: &PendingTransfer, policy: &SandwichPolicy) -> (r: u64)
    requires
        policy.valid(),
    ensures
        r == spec_front_amount(*t, *policy),
        r <= t.amount,
{
    proof {
        lemma_front_amount_bounded(*t, *policy);
        assert(t.amount * policy.front_run_num <= u64::MAX * 1000) by (nonlinear_arith)
            requires
                t.amount <= u64::MAX,
                policy.front_run_num <= 1000,
        ;
    }
    let num: u128 = (t.amount as u128) * (policy.front_run_num as u128);
    (num / (policy.front_run_den as u128)) as u64
}

/// Scan the pending transfers and keep, in input order, every well-formed
/// transfer of at least `min_amount` whose estimated profit reaches
/// `min_profit`. Malformed transfers are dropped silently.
pub fn detect_sandwich(transfers: Vec<PendingTransfer>, policy: &SandwichPolicy) -> (r: Vec<
    SandwichOpportunity,
>)
    requires
        policy.valid(),
    ensures
        r@ == spec_detect_sandwich(transfers@, *policy),
{
    let ghost orig = transfers@;
    let mut transfers = transfers;
    let mut out: Vec<SandwichOpportunity> = Vec::new();
    let n: usize = transfers.len();
    let mut i: usize = 0;
    while i < n
        invariant
            policy.valid(),
            n == orig.len(),
            i <= n,
            transfers@ == orig.skip(i as int),
            out@ == spec_detect_sandwich(orig.take(i as int), *policy),
        decreases n - i,
    {
        let t = transfers.remove(0);
        proof {
            assert(t == orig[i as int]);
            assert(orig.skip(i as int).remove(0) =~= orig.skip(i as int + 1));
            assert(orig.take(i as int + 1).drop_last() =~= orig.take(i as int));
            assert(orig.take(i as int + 1).last() == orig[i as int]);
        }
        if t.is_valid() && t.amount >= policy.min_amount {
            let profit = estimated_profit(&t, policy);
            if profit >= policy.min_profit {
                let front = front_amount(&t, policy);
                let front_side = t.side;
                let back_side = t.side.opposite();
                out.push(
                    SandwichOpportunity {
                        victim: t,
                        front_side,
                        back_side,
                        front_amount: front,
                        estimated_profit: profit,
                    },
                );
            }
        }
        i = i + 1;
    }
    proof {
        assert(orig.take(n as int) =~= orig);
    }
    out
}

/// The detector is exactly a filter of the input by the qualification
/// predicate followed by the per-transfer projection: it keeps nothing
/// else, invents nothing, and preserves input order.
pub proof fn lemma_detect_sandwich_is_filter(ts: Seq<PendingTransfer>, policy: SandwichPolicy)
    ensures
        spec_detect_sandwich(ts, policy) == ts.filter(
            |t: PendingTransfer| spec_sandwich_hit(t, policy),
        ).map_values(|t: PendingTransfer| spec_sandwich_opportunity(t, policy)),
    decreases ts.len(),
{
    reveal(Seq::filter);
    let pred = |t: PendingTransfer| spec_sandwich_hit(t, policy);
    let proj = |t: PendingTransfer| spec_sandwich_opportunity(t, policy);
    if ts.len() == 0 {
        assert(ts.filter(pred).map_values(proj) =~= Seq::<SandwichOpportunity>::empty());
    } else {
        lemma_detect_sandwich_is_filter(ts.drop_last(), policy);
        if pred(ts.last()) {
            assert(ts.filter(pred).map_values(proj) =~= ts.drop_last().filter(pred).map_values(
                proj,
            ).push(proj(ts.last())));
        } else {
            assert(ts.filter(pred) == ts.drop_last().filter(pred));
        }
    }
}

/// No transfer below the minimum amount is ever sandwiched, and every
/// reported opportunity clears the profit floor.
pub proof fn lemma_sandwich_respects_floors(ts: Seq<PendingTransfer>, policy: SandwichPolicy)
    requires
        policy.valid(),
    ensures
        forall|j: int|
            0 <= j < spec_detect_sandwich(ts, policy).len() ==> {
                let o = #[trigger] spec_detect_sandwich(ts, policy)[j];
                o.victim.amount >= policy.min_amount && o.estimated_profit >= policy.min_profit
                    && o.victim.valid()
            },
    decreases ts.len(),
{
    if ts.len() > 0 {
        lemma_sandwich_respects_floors(ts.drop_last(), policy);
        let r = spec_detect_sandwich(ts, policy);
        let rest = spec_detect_sandwich(ts.drop_last(), policy);
        if spec_sandwich_hit(ts.last(), policy) {
            assert(forall|j: int| 0 <= j < rest.len() ==> r[j] == rest[j]);
            assert(r[r.len() - 1] == spec_sandwich_opportunity(ts.last(), policy));
            lemma_profit_bounded(ts.last(), policy);
        }
    }
}

} // verus!
