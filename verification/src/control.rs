//! Control loop: one monitoring cycle, driven as a state machine. A cycle
//! plans one liquidation per liquidatable position, in the order the monitor
//! returned them, hands the pending requests out one at a time, and records
//! every attempt's outcome without stopping at a failure.

use vstd::prelude::*;
use crate::chain::{Address, ChainQueryError};
use crate::liquidation::{
    construct_liquidation_input, empty_request, LiquidationInput, LiquidationRequestModel,
};
use crate::monitor_positions::Vault;

verus! {

/// The liquidation requests one cycle plans for `vaults`: one request with
/// empty repay and receipt schedules per liquidatable vault, in order.
pub open spec fn plan_for(vaults: Seq<Vault>) -> Seq<LiquidationRequestModel>
    decreases vaults.len(),
{
    if vaults.len() == 0 {
        Seq::empty()
    } else if vaults.last().is_undercollateralized {
        plan_for(vaults.drop_last()).push(empty_request(vaults.last().vault_address))
    } else {
        plan_for(vaults.drop_last())
    }
}

/// The models of a list of pending requests.
pub open spec fn plan_models(pending: Seq<LiquidationInput>) -> Seq<LiquidationRequestModel> {
    pending.map_values(|r: LiquidationInput| r@)
}

/// How many of the first `n` vaults are liquidatable.
pub open spec fn count_liquidatable(vaults: Seq<Vault>, n: int) -> int
    decreases n,
{
    if n <= 0 {
        0
    } else {
        count_liquidatable(vaults, n - 1) + if vaults[n - 1].is_undercollateralized {
            1int
        } else {
            0int
        }
    }
}

/// The recorded outcome of one liquidation attempt.
#[derive(Clone, Copy, Debug, PartialEq, Eq, Structural)]
pub struct AttemptRecord {
    pub vault: Address,
    pub success: bool,
}

/// One monitoring cycle in progress: the liquidation requests still to
/// submit, front first, and the outcomes recorded so far.
pub struct Cycle {
    pub pending: Vec<LiquidationInput>,
    pub attempted: Vec<AttemptRecord>,
}

impl Cycle {
    /// Start a cycle from the monitor's result. A query failure fails the
    /// whole cycle and is handed back unchanged; otherwise the cycle plans
    /// exactly one liquidation request per liquidatable vault, in order,
    /// each with empty repay and receipt schedules.
    pub fn begin(query: Result<Vec<Vault>, ChainQueryError>) -> (r: Result<Cycle, ChainQueryError>)
        ensures
            query matches Err(e) ==> (r matches Err(e2) && e2 == e),
            query matches Ok(vaults) ==> (r matches Ok(c) && plan_models(c.pending@) == plan_for(
                vaults@,
            ) && c.attempted@.len() == 0 && (forall|k: int|
                0 <= k < c.pending@.len() ==> (#[trigger] c.pending@[k])@.wf())),
    {
        match query {
            Err(e) => Err(e),
            Ok(vaults) => {
                let mut pending: Vec<LiquidationInput> = Vec::new();
                let mut index: usize = 0;
                while index < vaults.len()
                    invariant
                        index <= vaults@.len(),
                        plan_models(pending@) == plan_for(vaults@.take(index as int)),
                    decreases vaults@.len() - index,
                {
                    let vault = vaults[index];
                    if vault.is_undercollateralized {
                        let input = construct_liquidation_input(
                            vault.vault_address,
                            Vec::new(),
                            Vec::new(),
                            Vec::new(),
                            Vec::new(),
                        );
                        pending.push(input);
                    }
                    index += 1;
                    proof {
                        assert(vaults@.take(index as int).drop_last() =~= vaults@.take(
                            index as int - 1,
                        ));
                        assert(plan_models(pending@) =~~= plan_for(vaults@.take(index as int)));
                    }
                }
                proof {
                    assert(vaults@.take(vaults@.len() as int) =~= vaults@);
                    lemma_plan_requests_wf(vaults@);
                    assert forall|k: int| 0 <= k < pending@.len() implies (#[trigger] pending@[
                    k])@.wf() by {
                        assert(plan_models(pending@)[k] == pending@[k]@);
                    }
                }
                Ok(Cycle { pending, attempted: Vec::new() })
            },
        }
    }

    /// Whether every planned request has been handed out.
    pub fn is_done(&self) -> (r: bool)
        ensures
            r == (self.pending@.len() == 0),
    {
        self.pending.len() == 0
    }

    /// Hand out the next pending request, front first, or nothing when the
    /// cycle is done. Recorded outcomes are untouched either way.
    pub fn take_next(&mut self) -> (r: Option<LiquidationInput>)
        ensures
            old(self).pending@.len() == 0 ==> (r is None && final(self).pending@ == old(
                self,
            ).pending@ && final(self).attempted@ == old(self).attempted@),
            old(self).pending@.len() > 0 ==> (r matches Some(x) && x == old(self).pending@[0]
                && final(self).pending@ == old(self).pending@.remove(0) && final(self).attempted@
                == old(self).attempted@),
    {
        if self.pending.len() == 0 {
            None
        } else {
            Some(self.pending.remove(0))
        }
    }

    /// Record the outcome of one attempt. The record is appended whatever
    /// `success` says: a failed attempt never stops the cycle, and nothing
    /// is deduplicated.
    pub fn record_outcome(&mut self, vault: Address, success: bool)
        ensures
            final(self).attempted@ == old(self).attempted@.push(
                (AttemptRecord { vault, success }),
            ),
            final(self).pending@ == old(self).pending@,
    {
        self.attempted.push(AttemptRecord { vault, success });
    }
}

/// Counting liquidatable vaults never goes below zero nor above `n`.
proof fn lemma_count_bounds(vaults: Seq<Vault>, n: int)
    requires
        n <= vaults.len(),
    ensures
        0 <= count_liquidatable(vaults, n) <= if n <= 0 {
            0int
        } else {
            n
        },
    decreases n,
{
    if n > 0 {
        lemma_count_bounds(vaults, n - 1);
    }
}

/// The count over a prefix only reads that prefix: two sequences that agree
/// on their first `n` entries have the same count at `n`.
proof fn lemma_count_prefix(a: Seq<Vault>, b: Seq<Vault>, n: int)
    requires
        n <= a.len(),
        n <= b.len(),
        forall|k: int| 0 <= k < n ==> a[k] == b[k],
    ensures
        count_liquidatable(a, n) == count_liquidatable(b, n),
    decreases n,
{
    if n > 0 {
        lemma_count_prefix(a, b, n - 1);
    }
}

/// The count is monotone in its bound.
proof fn lemma_count_monotone(vaults: Seq<Vault>, i: int, j: int)
    requires
        0 <= i <= j,
    ensures
        count_liquidatable(vaults, i) <= count_liquidatable(vaults, j),
    decreases j - i,
{
    if i < j {
        lemma_count_monotone(vaults, i, j - 1);
    }
}

/// The plan holds exactly one entry per liquidatable vault.
pub proof fn lemma_plan_len(vaults: Seq<Vault>)
    ensures
        plan_for(vaults).len() == count_liquidatable(vaults, vaults.len() as int),
    decreases vaults.len(),
{
    if vaults.len() > 0 {
        let pre = vaults.drop_last();
        lemma_plan_len(pre);
        lemma_count_prefix(pre, vaults, pre.len() as int);
    }
}

/// The liquidatable vault at index `i` contributes the plan entry at
/// position `count_liquidatable(vaults, i)`.
pub proof fn lemma_plan_entry(vaults: Seq<Vault>, i: int)
    requires
        0 <= i < vaults.len(),
        vaults[i].is_undercollateralized,
    ensures
        0 <= count_liquidatable(vaults, i) < plan_for(vaults).len(),
        plan_for(vaults)[count_liquidatable(vaults, i)] == empty_request(
            vaults[i].vault_address,
        ),
    decreases vaults.len(),
{
    lemma_count_bounds(vaults, i);
    lemma_plan_len(vaults);
    let pre = vaults.drop_last();
    lemma_count_prefix(pre, vaults, i);
    if i == vaults.len() - 1 {
        lemma_plan_len(pre);
        lemma_count_prefix(pre, vaults, pre.len() as int);
    } else {
        lemma_plan_entry(pre, i);
        lemma_plan_len(pre);
    }
}

/// Every plan entry comes from some liquidatable vault, at the position the
/// count gives it.
pub proof fn lemma_plan_source(vaults: Seq<Vault>, k: int)
    requires
        0 <= k < plan_for(vaults).len(),
    ensures
        exists|i: int|
            0 <= i < vaults.len() && vaults[i].is_undercollateralized && count_liquidatable(
                vaults,
                i,
            ) == k && plan_for(vaults)[k] == empty_request(vaults[i].vault_address),
    decreases vaults.len(),
{
    let pre = vaults.drop_last();
    assert forall|m: int| 0 <= m <= pre.len() implies count_liquidatable(pre, m)
        == count_liquidatable(vaults, m) by {
        lemma_count_prefix(pre, vaults, m);
    }
    lemma_plan_len(pre);
    if vaults.last().is_undercollateralized && k == plan_for(pre).len() {
        let i = vaults.len() - 1;
        assert(0 <= i < vaults.len() && vaults[i].is_undercollateralized && count_liquidatable(
            vaults,
            i,
        ) == k && plan_for(vaults)[k] == empty_request(vaults[i].vault_address));
    } else {
        lemma_plan_source(pre, k);
        let i = choose|i: int|
            0 <= i < pre.len() && pre[i].is_undercollateralized && count_liquidatable(pre, i) == k
                && plan_for(pre)[k] == empty_request(pre[i].vault_address);
        assert(0 <= i < vaults.len() && vaults[i].is_undercollateralized && count_liquidatable(
            vaults,
            i,
        ) == k && plan_for(vaults)[k] == empty_request(vaults[i].vault_address));
    }
}

/// Every liquidatable vault at index `i` contributes one entry to the plan,
/// at position `count_liquidatable(vaults, i)`; `lemma_plan_source` gives
/// the converse, entry by entry.
pub proof fn lemma_plan_correspondence(vaults: Seq<Vault>)
    ensures
        plan_for(vaults).len() == count_liquidatable(vaults, vaults.len() as int),
        forall|i: int|
            0 <= i < vaults.len() && vaults[i].is_undercollateralized ==> 0 <= #[trigger]
                count_liquidatable(vaults, i) < plan_for(vaults).len() && plan_for(vaults)[
                count_liquidatable(vaults, i)] == empty_request(vaults[i].vault_address),
{
    lemma_plan_len(vaults);
    assert forall|i: int|
        0 <= i < vaults.len() && vaults[i].is_undercollateralized implies 0 <= #[trigger]
        count_liquidatable(vaults, i) < plan_for(vaults).len() && plan_for(vaults)[
    count_liquidatable(vaults, i)] == empty_request(vaults[i].vault_address) by {
        lemma_plan_entry(vaults, i);
    }
}

/// Every request the cycle plans satisfies the request invariant: its empty
/// repay and receipt schedules are trivially parallel.
pub proof fn lemma_plan_requests_wf(vaults: Seq<Vault>)
    ensures
        forall|k: int| 0 <= k < plan_for(vaults).len() ==> (#[trigger] plan_for(vaults)[k]).wf(),
    decreases vaults.len(),
{
    if vaults.len() > 0 {
        lemma_plan_requests_wf(vaults.drop_last());
        assert forall|k: int| 0 <= k < plan_for(vaults).len() implies (#[trigger] plan_for(vaults)[
        k]).wf() by {
            if k < plan_for(vaults.drop_last()).len() {
                assert(plan_for(vaults)[k] == plan_for(vaults.drop_last())[k]);
            } else {
                assert(plan_for(vaults)[k] == empty_request(vaults.last().vault_address));
            }
        }
    }
}

/// A position that the monitor classified as healthy is never the target of
/// a liquidation call planned in the same cycle, provided each position has
/// an address of its own.
pub proof fn lemma_healthy_position_never_liquidated(vaults: Seq<Vault>, i: int)
    requires
        0 <= i < vaults.len(),
        !vaults[i].is_undercollateralized,
        forall|j: int|
            0 <= j < vaults.len() && j != i ==> vaults[j].vault_address
                != vaults[i].vault_address,
    ensures
        forall|k: int|
            0 <= k < plan_for(vaults).len() ==> #[trigger] plan_for(vaults)[k].vault
                != vaults[i].vault_address,
{
    assert forall|k: int| 0 <= k < plan_for(vaults).len() implies #[trigger] plan_for(vaults)[
    k].vault != vaults[i].vault_address by {
        lemma_plan_source(vaults, k);
        let j = choose|j: int|
            0 <= j < vaults.len() && vaults[j].is_undercollateralized && count_liquidatable(
                vaults,
                j,
            ) == k && plan_for(vaults)[k] == empty_request(vaults[j].vault_address);
        assert(j != i);
    }
}

/// Two liquidatable entries for the same vault address yield two distinct
/// planned calls: repeated liquidation attempts for one vault are not
/// deduplicated, a known double-submission risk.
pub proof fn lemma_repeated_attempts_not_deduplicated(vaults: Seq<Vault>, i: int, j: int)
    requires
        0 <= i < j < vaults.len(),
        vaults[i].is_undercollateralized,
        vaults[j].is_undercollateralized,
        vaults[j].vault_address == vaults[i].vault_address,
    ensures
        0 <= count_liquidatable(vaults, i) < count_liquidatable(vaults, j) < plan_for(
            vaults,
        ).len(),
        plan_for(vaults)[count_liquidatable(vaults, i)].vault == vaults[i].vault_address,
        plan_for(vaults)[count_liquidatable(vaults, j)].vault == vaults[i].vault_address,
{
    lemma_plan_correspondence(vaults);
    lemma_count_monotone(vaults, i + 1, j);
}

} // verus!
