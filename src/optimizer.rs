use vstd::prelude::*;
use crate::bundle::clamp_i128;

verus! {

/// How one probe of the search ended.
#[derive(Clone, Copy, Debug, PartialEq, Eq, Structural)]
pub enum ProbeOutcome {
    /// The critical transaction of the probe's bundle reverted or halted: the
    /// amount was too large.
    CriticalFailure,
    /// The bundle went through and earned `gross_revenue`.
    Completed { gross_revenue: i128 },
    /// The bundle attempt produced no result; it counts as earning nothing.
    Aborted,
}

/// The state of a bounded search for the attack amount with the best net
/// profit.
#[derive(Clone, Copy, Debug, PartialEq, Eq, Structural)]
pub struct SearchState {
    pub low: u128,
    pub high: u128,
    pub best_amount: u128,
    pub best_profit: i128,
    pub probes_left: u32,
    pub gas_cost: i128,
}

/// The amount that the next probe tries.
pub open spec fn mid_of(s: SearchState) -> u128 {
    ((s.low + s.high) / 2) as u128
}

/// Gross revenue less the fixed gas cost, held to the range of `i128`.
pub open spec fn net_of(gross: i128, cost: i128) -> i128 {
    clamp_i128(gross - cost)
}

/// The gross revenue that an outcome counts for.
pub open spec fn gross_of(o: ProbeOutcome) -> i128 {
    match o {
        ProbeOutcome::Completed { gross_revenue } => gross_revenue,
        _ => 0,
    }
}

/// The state after one probe at the midpoint: a critical failure moves `high`
/// down to the midpoint; any other outcome moves `low` up to it, and a net
/// profit strictly above the best so far becomes the best.
pub open spec fn next_state(s: SearchState, o: ProbeOutcome) -> SearchState {
    let mid = mid_of(s);
    if o is CriticalFailure {
        SearchState { high: mid, probes_left: (s.probes_left - 1) as u32, ..s }
    } else {
        let net = net_of(gross_of(o), s.gas_cost);
        SearchState {
            low: mid,
            best_amount: if net > s.best_profit { mid } else { s.best_amount },
            best_profit: if net > s.best_profit { net } else { s.best_profit },
            probes_left: (s.probes_left - 1) as u32,
            ..s
        }
    }
}

/// The state after the probes of `outcomes`, in order.
pub open spec fn run_probes(s: SearchState, outcomes: Seq<ProbeOutcome>) -> SearchState
    decreases outcomes.len(),
{
    if outcomes.len() == 0 {
        s
    } else {
        next_state(run_probes(s, outcomes.drop_last()), outcomes.last())
    }
}

/// `gross - cost`, held to the range of `i128`.
pub fn net_profit(gross: i128, cost: i128) -> (r: i128)
    ensures
        r == net_of(gross, cost),
{
    if cost >= 0 {
        if gross < i128::MIN + cost {
            i128::MIN
        } else {
            gross - cost
        }
    } else {
        if gross > i128::MAX + cost {
            i128::MAX
        } else {
            gross - cost
        }
    }
}

/// Whether a search that found `best_profit` should go on to submission: only
/// a profit strictly above the floor does.
pub fn should_submit(best_profit: i128, min_profit: i128) -> (r: bool)
    ensures
        r == (best_profit > min_profit),
{
    best_profit > min_profit
}

impl SearchState {
    /// The bracket stays ordered.
    pub open spec fn wf(&self) -> bool {
        self.low <= self.high
    }

    /// A search over `[low, high]` with `budget` probes, charging `gas_cost`
    /// against every gross revenue. Nothing has been found yet: the best amount
    /// and profit are zero.
    pub fn new(low: u128, high: u128, budget: u32, gas_cost: i128) -> (r: SearchState)
        requires
            low <= high,
        ensures
            r.wf(),
            r == (SearchState { low, high, best_amount: 0, best_profit: 0, probes_left: budget, gas_cost }),
    {
        SearchState { low, high, best_amount: 0, best_profit: 0, probes_left: budget, gas_cost }
    }

    /// Whether the probe budget is spent.
    pub fn is_finished(&self) -> (r: bool)
        ensures
            r == (self.probes_left == 0),
    {
        self.probes_left == 0
    }

    /// The amount that the next probe tries: the midpoint of the bracket.
    pub fn midpoint(&self) -> (r: u128)
        requires
            self.wf(),
        ensures
            r == mid_of(*self),
            self.low <= r <= self.high,
    {
        let r = self.low + (self.high - self.low) / 2;
        assert(r == (self.low + self.high) / 2);
        r
    }

    /// Folds in how the probe at the midpoint ended.
    pub fn record(&mut self, outcome: ProbeOutcome)
        requires
            old(self).wf(),
            old(self).probes_left > 0,
        ensures
            *final(self) == next_state(*old(self), outcome),
            final(self).wf(),
    {
        let mid = self.midpoint();
        match outcome {
            ProbeOutcome::CriticalFailure => {
                self.high = mid;
            },
            _ => {
                let gross: i128 = match outcome {
                    ProbeOutcome::Completed { gross_revenue } => gross_revenue,
                    _ => 0,
                };
                let net = net_profit(gross, self.gas_cost);
                if net > self.best_profit {
                    self.best_profit = net;
                    self.best_amount = mid;
                }
                self.low = mid;
            },
        }
        self.probes_left = self.probes_left - 1;
    }
}

/// A probe whose critical transaction fails lowers `high` strictly, as long
/// as the bracket is not a single point; no probe ever raises it; and every
/// probe halves the width of the bracket, rounding up.
pub proof fn lemma_bracket_shrinks(s: SearchState, o: ProbeOutcome)
    requires
        s.wf(),
        s.probes_left > 0,
    ensures
        next_state(s, o).high <= s.high,
        next_state(s, o).low >= s.low,
        next_state(s, o).wf(),
        o is CriticalFailure && s.low < s.high ==> next_state(s, o).high < s.high,
        next_state(s, o).high - next_state(s, o).low <= (s.high - s.low + 1) / 2,
{
}

/// Over any run of probes within the budget, the bracket stays ordered, `high`
/// never rises and `low` never falls.
pub proof fn lemma_run_bracket(s: SearchState, outcomes: Seq<ProbeOutcome>)
    requires
        s.wf(),
        outcomes.len() <= s.probes_left,
    ensures
        run_probes(s, outcomes).wf(),
        run_probes(s, outcomes).high <= s.high,
        run_probes(s, outcomes).low >= s.low,
        run_probes(s, outcomes).probes_left == s.probes_left - outcomes.len(),
        run_probes(s, outcomes).gas_cost == s.gas_cost,
    decreases outcomes.len(),
{
    if outcomes.len() > 0 {
        lemma_run_bracket(s, outcomes.drop_last());
    }
}

/// The best profit never falls from one probe to the next, over any run of
/// probes within the budget; and a best amount that changes is an amount that
/// was probed with a strictly higher profit.
pub proof fn lemma_best_profit_monotone(s: SearchState, outcomes: Seq<ProbeOutcome>, i: int, j: int)
    requires
        s.wf(),
        outcomes.len() <= s.probes_left,
        0 <= i <= j <= outcomes.len(),
    ensures
        run_probes(s, outcomes.subrange(0, i)).best_profit <= run_probes(s, outcomes.subrange(0, j)).best_profit,
    decreases j - i,
{
    if i < j {
        let p = outcomes.subrange(0, j);
        assert(p.drop_last() =~= outcomes.subrange(0, j - 1));
        lemma_run_bracket(s, outcomes.subrange(0, j - 1));
        lemma_best_profit_monotone(s, outcomes, i, j - 1);
    }
}

/// The best amount that a run of probes reports lies inside the starting
/// bracket, unless the best profit never rose above its starting value.
pub proof fn lemma_best_within_bracket(s: SearchState, outcomes: Seq<ProbeOutcome>)
    requires
        s.wf(),
        outcomes.len() <= s.probes_left,
    ensures
        run_probes(s, outcomes).best_profit == s.best_profit
            || (s.low <= run_probes(s, outcomes).best_amount <= s.high),
        run_probes(s, outcomes).best_profit >= s.best_profit,
    decreases outcomes.len(),
{
    if outcomes.len() > 0 {
        lemma_best_within_bracket(s, outcomes.drop_last());
        lemma_run_bracket(s, outcomes.drop_last());
    }
}

/// Whether each probe of `outcomes` failed critically exactly when its amount
/// exceeded `t`.
pub open spec fn follows_threshold(s: SearchState, outcomes: Seq<ProbeOutcome>, t: u128) -> bool {
    forall|i: int| 0 <= i < outcomes.len() ==> (#[trigger] outcomes[i] is CriticalFailure) == (mid_of(
        run_probes(s, outcomes.subrange(0, i)),
    ) > t)
}

/// When the critical transaction fails exactly for amounts above `t`, and the
/// starting bracket straddles `t`, every run of probes keeps `low <= t < high`
/// and never reports a best amount above `t`.
pub proof fn lemma_threshold_search(s: SearchState, outcomes: Seq<ProbeOutcome>, t: u128)
    requires
        s.wf(),
        outcomes.len() <= s.probes_left,
        s.low <= t < s.high,
        s.best_amount <= t,
        follows_threshold(s, outcomes, t),
    ensures
        run_probes(s, outcomes).low <= t < run_probes(s, outcomes).high,
        run_probes(s, outcomes).best_amount <= t,
    decreases outcomes.len(),
{
    if outcomes.len() > 0 {
        let p = outcomes.drop_last();
        assert forall|i: int| 0 <= i < p.len() implies (#[trigger] p[i] is CriticalFailure) == (mid_of(
            run_probes(s, p.subrange(0, i)),
        ) > t) by {
            assert(p.subrange(0, i) =~= outcomes.subrange(0, i));
            assert(p[i] == outcomes[i]);
        }
        lemma_threshold_search(s, p, t);
        lemma_run_bracket(s, p);
        let k = outcomes.len() - 1;
        assert(outcomes.subrange(0, k) =~= p);
        assert(outcomes[k] == outcomes.last());
    }
}

} // verus!
