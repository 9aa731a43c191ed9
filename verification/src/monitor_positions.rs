//! Position monitor: classifies every position tracked by the hub contract
//! as healthy or liquidatable from a freshly fetched health-factor list.

use vstd::prelude::*;
use crate::chain::{Address, ContractCall, Uint256};

verus! {

/// A position is liquidatable when its health factor is strictly below this
/// threshold.
pub const LIQUIDATION_THRESHOLD: u64 = 100;

/// One collateralized borrowing position, classified for the current cycle.
#[derive(Clone, Copy, Debug, PartialEq, Eq, Structural)]
pub struct Vault {
    pub vault_address: Address,
    pub is_undercollateralized: bool,
}

/// The monitor half of the bot: it knows the hub contract to query and turns
/// the returned health factors into classified positions.
#[derive(Clone, Copy, Debug, PartialEq, Eq, Structural)]
pub struct Monitor {
    pub hub_contract: Address,
}

/// The classification of a health-factor sequence: one vault per entry, its
/// address derived from its index, liquidatable exactly when the health
/// factor is strictly below the threshold.
pub open spec fn spec_classified(health_factors: Seq<Uint256>) -> Seq<Vault> {
    Seq::new(
        health_factors.len(),
        |i: int|
            Vault {
                vault_address: Address { high: 0, mid: 0, low: i as u64 },
                is_undercollateralized: health_factors[i].value() < LIQUIDATION_THRESHOLD,
            },
    )
}

impl Monitor {
    /// A monitor bound to the hub contract at `hub_address`.
    pub fn new(hub_address: Address) -> (m: Monitor)
        ensures
            m.hub_contract == hub_address,
    {
        Monitor { hub_contract: hub_address }
    }

    /// The read-only call that fetches every position's health factor: the
    /// hub contract's `getHealthFactors` method, which takes no arguments.
    pub fn health_factors_query(&self) -> (c: ContractCall)
        ensures
            c@.contract == self.hub_contract,
            c@.method == "getHealthFactors"@,
            c@.args.len() == 0,
    {
        let c = ContractCall {
            contract: self.hub_contract,
            method: String::from_str("getHealthFactors"),
            args: Vec::new(),
        };
        proof {
            assert(c@.args =~= Seq::<crate::chain::CallValueModel>::empty());
        }
        c
    }

    /// Classify every position from the health factors the hub returned, in
    /// order. The result has one vault per health factor; the vault at index
    /// `i` carries the address derived from `i` and is liquidatable exactly
    /// when its health factor is strictly below the threshold.
    pub fn check_positions(&self, health_factors: &Vec<Uint256>) -> (r: Vec<Vault>)
        ensures
            r@ == spec_classified(health_factors@),
            r@.len() == health_factors@.len(),
            forall|i: int|
                0 <= i < r@.len() ==> r@[i].is_undercollateralized == (health_factors@[i].value()
                    < LIQUIDATION_THRESHOLD),
    {
        let mut vaults: Vec<Vault> = Vec::new();
        let mut index: usize = 0;
        while index < health_factors.len()
            invariant
                index <= health_factors@.len(),
                vaults@ == spec_classified(health_factors@.take(index as int)),
            decreases health_factors@.len() - index,
        {
            let health_factor = health_factors[index];
            let is_undercollateralized = health_factor.lt_u64(LIQUIDATION_THRESHOLD);
            let vault_address = Address::from_index(index as u64);
            vaults.push(Vault { vault_address, is_undercollateralized });
            index += 1;
            proof {
                assert(vaults@ =~= spec_classified(health_factors@.take(index as int)));
            }
        }
        proof {
            assert(health_factors@.take(health_factors@.len() as int) =~= health_factors@);
        }
        vaults
    }
}

} // verus!
