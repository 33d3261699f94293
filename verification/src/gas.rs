//! The gas ledger: a fixed limit against which explicit costs and the
//! memory-expansion cost are charged, and a signed refund counter.

use vstd::prelude::*;
use crate::error::{ExitError, ExitReason};
use crate::opcode::Control;

verus! {

/// Mathematical state of a gas ledger.
pub struct GasView {
    /// The limit fixed at construction.
    pub limit: nat,
    /// Sum of the explicit costs charged so far.
    pub used: nat,
    /// High-water mark of the memory-expansion cost.
    pub memory: nat,
    /// Signed refund accumulated so far.
    pub refunded: int,
}

impl GasView {
    /// Gas that is spoken for: explicit costs and the memory cost.
    pub open spec fn all_used(self) -> nat {
        self.used + self.memory
    }

    /// Whether a further explicit cost fits under the limit.
    pub open spec fn can_afford(self, cost: nat) -> bool {
        self.used + self.memory + cost <= self.limit
    }

    /// The ledger after an explicit cost has been added.
    pub open spec fn charge(self, cost: nat) -> GasView {
        GasView { used: self.used + cost, ..self }
    }

    /// The ledger after an attempt to record `cost`: charged where the cost
    /// fits, unchanged where it does not.
    pub open spec fn record_cost(self, cost: nat) -> GasView {
        if self.can_afford(cost) {
            self.charge(cost)
        } else {
            self
        }
    }

    /// The ledger after the memory cost has been raised to at least `cost`.
    pub open spec fn memory_cost_update(self, cost: nat) -> GasView {
        GasView { memory: if self.memory >= cost { self.memory } else { cost }, ..self }
    }

    /// The ledger after the costs of `costs` were recorded in order, or `None`
    /// if one of them did not fit when its turn came.
    pub open spec fn record_all(self, costs: Seq<u64>) -> Option<GasView>
        decreases costs.len(),
    {
        if costs.len() == 0 {
            Some(self)
        } else if self.can_afford(costs[0] as nat) {
            self.charge(costs[0] as nat).record_all(costs.drop_first())
        } else {
            None
        }
    }
}

/// Sum of a sequence of costs.
pub open spec fn total_cost(costs: Seq<u64>) -> nat
    decreases costs.len(),
{
    if costs.len() == 0 {
        0
    } else {
        costs[0] as nat + total_cost(costs.drop_first())
    }
}

/// The gas ledger of one execution.
#[derive(Clone, Copy, Debug)]
pub struct Gas {
    limit: u64,
    used: u64,
    memory: u64,
    refunded: i64,
}

impl View for Gas {
    type V = GasView;

    closed spec fn view(&self) -> GasView {
        GasView {
            limit: self.limit as nat,
            used: self.used as nat,
            memory: self.memory as nat,
            refunded: self.refunded as int,
        }
    }
}

impl Default for Gas {
    fn default() -> (gas: Gas)
        ensures
            gas@ == (GasView { limit: 0, used: 0, memory: 0, refunded: 0 }),
    {
        Gas { limit: 0, used: 0, memory: 0, refunded: 0 }
    }
}

impl Gas {
    /// A ledger with the given limit and nothing charged.
    pub fn new(limit: u64) -> (gas: Gas)
        ensures
            gas@ == (GasView { limit: limit as nat, used: 0, memory: 0, refunded: 0 }),
    {
        Gas { limit, used: 0, memory: 0, refunded: 0 }
    }

    /// Access to the limit, for callers that hand gas on or take it back.
    pub fn limit_mut(&mut self) -> (limit: &mut u64)
        ensures
            *limit == old(self)@.limit,
            final(self)@ == (GasView { limit: *final(limit) as nat, ..old(self)@ }),
    {
        &mut self.limit
    }

    /// The limit.
    pub fn limit(&self) -> (r: u64)
        ensures
            r == self@.limit,
    {
        self.limit
    }

    /// Sum of the explicit costs charged so far.
    pub fn used(&self) -> (r: u64)
        ensures
            r == self@.used,
    {
        self.used
    }

    /// High-water mark of the memory-expansion cost.
    pub fn memory(&self) -> (r: u64)
        ensures
            r == self@.memory,
    {
        self.memory
    }

    /// The refund accumulated so far.
    pub fn refunded(&self) -> (r: i64)
        ensures
            r == self@.refunded,
    {
        self.refunded
    }

    /// Explicit costs and memory cost together.
    pub fn all_used(&self) -> (r: u64)
        requires
            self@.all_used() <= u64::MAX,
        ensures
            r == self@.all_used(),
    {
        self.used + self.memory
    }

    /// Gas that is left under the limit.
    pub fn remaining(&self) -> (r: u64)
        requires
            self@.all_used() <= self@.limit,
        ensures
            r == self@.limit - self@.used - self@.memory,
    {
        (self.limit - self.used) - self.memory
    }

    /// Gas that is left under the limit, or `None` where more is spoken for
    /// than the limit holds.
    pub fn checked_remaining(&self) -> (r: Option<u64>)
        ensures
            r == if self@.all_used() <= self@.limit {
                Some((self@.limit - self@.used - self@.memory) as u64)
            } else {
                None
            },
    {
        if self.used <= self.limit && self.memory <= self.limit - self.used {
            Some(self.remaining())
        } else {
            None
        }
    }

    /// Takes back part of the explicit costs.
    pub fn erase_cost(&mut self, returned: u64)
        requires
            returned <= old(self)@.used,
        ensures
            final(self)@ == (GasView { used: (old(self)@.used - returned) as nat, ..old(self)@ }),
    {
        self.used -= returned;
    }

    /// Adds a signed amount to the refund counter.
    pub fn record_refund(&mut self, refund: i64)
        requires
            i64::MIN <= old(self)@.refunded + refund <= i64::MAX,
        ensures
            final(self)@ == (GasView { refunded: old(self)@.refunded + refund, ..old(self)@ }),
    {
        self.refunded += refund;
    }

    /// Raises the memory cost to `cost` where `cost` is higher: memory is
    /// charged for its high-water mark, not for each expansion.
    pub fn memory_cost_update(&mut self, cost: u64)
        ensures
            final(self)@ == old(self)@.memory_cost_update(cost as nat),
            cost <= old(self)@.memory ==> *final(self) == *old(self),
    {
        if self.memory < cost {
            self.memory = cost;
        }
    }

    /// Records an explicit cost. Where the cost does not fit under the limit
    /// the ledger stays as it was and the result is `false`.
    pub fn record_cost(&mut self, cost: u64) -> (ok: bool)
        ensures
            ok == old(self)@.can_afford(cost as nat),
            final(self)@ == old(self)@.record_cost(cost as nat),
            ok ==> final(self)@.all_used() <= final(self)@.limit,
            !ok ==> *final(self) == *old(self),
    {
        let all_used_gas: u128 = self.used as u128 + self.memory as u128 + cost as u128;
        if (self.limit as u128) < all_used_gas {
            return false;
        }
        self.used += cost;
        true
    }

    /// Records an explicit cost and says how execution goes on: it continues
    /// where the cost fits and exits out of gas where it does not.
    pub fn record_cost_control(&mut self, cost: u64) -> (control: Control)
        ensures
            control == if old(self)@.can_afford(cost as nat) {
                Control::Continue
            } else {
                Control::Exit(ExitReason::Error(ExitError::OutOfGas))
            },
            final(self)@ == old(self)@.record_cost(cost as nat),
            !old(self)@.can_afford(cost as nat) ==> *final(self) == *old(self),
    {
        if !self.record_cost(cost) {
            return Control::Exit(ExitReason::Error(ExitError::OutOfGas));
        }
        Control::Continue
    }
}

/// Recording one more cost after a sequence is recording the longer sequence.
proof fn lemma_record_all_push(gas: GasView, costs: Seq<u64>, cost: u64)
    ensures
        gas.record_all(costs.push(cost)) == match gas.record_all(costs) {
            Some(after) => if after.can_afford(cost as nat) {
                Some(after.charge(cost as nat))
            } else {
                None
            },
            None => None,
        },
        total_cost(costs.push(cost)) == total_cost(costs) + cost,
    decreases costs.len(),
{
    if costs.len() == 0 {
        assert(costs.push(cost).drop_first() =~= costs);
        assert(gas.charge(cost as nat).record_all(costs) == Some(gas.charge(cost as nat)));
        assert(total_cost(costs.push(cost).drop_first()) == 0);
    } else {
        assert(costs.push(cost).drop_first() =~= costs.drop_first().push(cost));
        lemma_record_all_push(gas.charge(costs[0] as nat), costs.drop_first(), cost);
        lemma_record_all_push(gas, costs.drop_first(), cost);
    }
}

/// A sequence of costs is recorded without a failure exactly when the running
/// total of what is spoken for, the memory cost included, exceeds the limit
/// after none of them. The ledger then holds the sum of the costs in addition
/// to what it held, and is otherwise as it was.
pub proof fn lemma_record_cost_sequence(gas: GasView, costs: Seq<u64>)
    ensures
        gas.record_all(costs) is Some <==> (forall|k: int|
            0 < k <= costs.len() ==> gas.used + gas.memory + #[trigger] total_cost(costs.take(k))
                <= gas.limit),
        gas.record_all(costs) matches Some(after) ==> after == gas.charge(total_cost(costs)),
    decreases costs.len(),
{
    if costs.len() > 0 {
        let front = costs.drop_last();
        let cost = costs.last();
        assert(front.push(cost) =~= costs);
        lemma_record_all_push(gas, front, cost);
        lemma_record_cost_sequence(gas, front);
        assert(costs.take(costs.len() as int) =~= costs);
        assert(front.take(front.len() as int) =~= front);
        assert forall|k: int| 0 <= k < costs.len() implies #[trigger] costs.take(k) == front.take(
            k,
        ) by {
            assert(costs.take(k) =~= front.take(k));
        }
        if gas.record_all(costs) is Some {
            assert forall|k: int| 0 < k <= costs.len() implies gas.used + gas.memory
                + #[trigger] total_cost(costs.take(k)) <= gas.limit by {
                if k < costs.len() {
                    assert(costs.take(k) == front.take(k));
                }
            }
        }
        if forall|k: int|
            0 < k <= costs.len() ==> gas.used + gas.memory + #[trigger] total_cost(costs.take(k))
                <= gas.limit {
            assert forall|k: int| 0 < k <= front.len() implies gas.used + gas.memory
                + #[trigger] total_cost(front.take(k)) <= gas.limit by {
                assert(costs.take(k) == front.take(k));
                assert(gas.used + gas.memory + total_cost(costs.take(k)) <= gas.limit);
            }
            assert(gas.used + gas.memory + total_cost(costs.take(costs.len() as int)) <= gas.limit);
        }
    }
}

/// A fresh ledger takes a sequence of costs exactly when their running sum
/// never exceeds its limit, and then has used their sum.
pub proof fn lemma_fresh_ledger_sequence(limit: u64, costs: Seq<u64>)
    ensures
        ({
            let fresh = GasView { limit: limit as nat, used: 0, memory: 0, refunded: 0 };
            &&& fresh.record_all(costs) is Some <==> (forall|k: int|
                0 <= k <= costs.len() ==> #[trigger] total_cost(costs.take(k)) <= limit)
            &&& fresh.record_all(costs) matches Some(after) ==> after.used == total_cost(costs)
        }),
{
    let fresh = GasView { limit: limit as nat, used: 0, memory: 0, refunded: 0 };
    lemma_record_cost_sequence(fresh, costs);
    assert(costs.take(0) =~= Seq::<u64>::empty());
}

/// Replaying a memory cost that is not above the recorded one changes nothing.
pub proof fn lemma_memory_cost_replay(gas: GasView, cost: nat)
    ensures
        cost <= gas.memory ==> gas.memory_cost_update(cost) == gas,
        gas.memory_cost_update(cost).memory_cost_update(cost) == gas.memory_cost_update(cost),
        gas.memory_cost_update(cost).memory >= gas.memory,
{
}

} // verus!
