//! Liquidation executor: assembles the call that liquidates one position,
//! with its arguments in the exact order the liquidator contract expects.

use vstd::prelude::*;
use crate::chain::{Address, CallValue, CallValueModel, ContractCall, ContractCallModel, Uint256};

verus! {

/// The parameters of one liquidation action: the target vault, the assets
/// the liquidator repays on its behalf, and the collateral it receives.
/// Addresses and amounts of each side are parallel lists.
#[derive(Debug)]
pub struct LiquidationInput {
    pub vault: Address,
    pub asset_repay_addresses: Vec<Address>,
    pub asset_repay_amounts: Vec<Uint256>,
    pub asset_receipt_addresses: Vec<Address>,
    pub asset_receipt_amounts: Vec<Uint256>,
}

/// The mathematical model of a liquidation request.
#[verifier::ext_equal]
pub struct LiquidationRequestModel {
    pub vault: Address,
    pub repay_addresses: Seq<Address>,
    pub repay_amounts: Seq<Uint256>,
    pub receipt_addresses: Seq<Address>,
    pub receipt_amounts: Seq<Uint256>,
}

impl LiquidationRequestModel {
    /// The request's invariant: on each side, the address list and the
    /// amount list are parallel, entry for entry.
    pub open spec fn wf(&self) -> bool {
        self.repay_addresses.len() == self.repay_amounts.len() && self.receipt_addresses.len()
            == self.receipt_amounts.len()
    }
}

impl View for LiquidationInput {
    type V = LiquidationRequestModel;

    open spec fn view(&self) -> LiquidationRequestModel {
        LiquidationRequestModel {
            vault: self.vault,
            repay_addresses: self.asset_repay_addresses@,
            repay_amounts: self.asset_repay_amounts@,
            receipt_addresses: self.asset_receipt_addresses@,
            receipt_amounts: self.asset_receipt_amounts@,
        }
    }
}

/// The request that liquidates `vault` with empty repay and receipt
/// schedules.
pub open spec fn empty_request(vault: Address) -> LiquidationRequestModel {
    LiquidationRequestModel {
        vault,
        repay_addresses: Seq::empty(),
        repay_amounts: Seq::empty(),
        receipt_addresses: Seq::empty(),
        receipt_amounts: Seq::empty(),
    }
}

impl Default for LiquidationInput {
    /// The default request: the zero vault with empty schedules.
    fn default() -> (r: Self)
        ensures
            r@ == empty_request((Address { high: 0, mid: 0, low: 0 })),
    {
        let r = LiquidationInput {
            vault: Address { high: 0, mid: 0, low: 0 },
            asset_repay_addresses: Vec::new(),
            asset_repay_amounts: Vec::new(),
            asset_receipt_addresses: Vec::new(),
            asset_receipt_amounts: Vec::new(),
        };
        proof {
            assert(r@ =~~= empty_request((Address { high: 0, mid: 0, low: 0 })));
        }
        r
    }
}

/// The call that submits `req` to the liquidator contract at `contract`:
/// the `liquidation` method with, in this exact order, the vault, the repay
/// addresses, the repay amounts, the receipt addresses, and the receipt
/// amounts.
pub open spec fn spec_liquidation_call(contract: Address, req: LiquidationRequestModel)
    -> ContractCallModel {
    ContractCallModel {
        contract,
        method: "liquidation"@,
        args: seq![
            CallValueModel::Addr(req.vault),
            CallValueModel::AddrList(req.repay_addresses),
            CallValueModel::UintList(req.repay_amounts),
            CallValueModel::AddrList(req.receipt_addresses),
            CallValueModel::UintList(req.receipt_amounts),
        ],
    }
}

/// The executor half of the bot: it knows the liquidator contract and turns
/// a liquidation request into the call to submit.
#[derive(Clone, Copy, Debug, PartialEq, Eq, Structural)]
pub struct Liquidation {
    pub liquidation_contract: Address,
}

impl Liquidation {
    /// An executor bound to the liquidator contract at `contract_address`.
    pub fn new(contract_address: Address) -> (l: Liquidation)
        ensures
            l.liquidation_contract == contract_address,
    {
        Liquidation { liquidation_contract: contract_address }
    }

    /// Assemble the transaction that liquidates the requested vault. The
    /// resulting call targets the liquidator contract's `liquidation` method
    /// and passes the request's fields in the exact order the contract
    /// expects: vault, repay addresses, repay amounts, receipt addresses,
    /// receipt amounts.
    pub fn trigger_liquidation(&self, liquidation_input: LiquidationInput) -> (c: ContractCall)
        requires
            liquidation_input@.wf(),
        ensures
            c@ == spec_liquidation_call(self.liquidation_contract, liquidation_input@),
    {
        let ghost req = liquidation_input@;
        let mut args: Vec<CallValue> = Vec::new();
        args.push(CallValue::Addr(liquidation_input.vault));
        args.push(CallValue::AddrList(liquidation_input.asset_repay_addresses));
        args.push(CallValue::UintList(liquidation_input.asset_repay_amounts));
        args.push(CallValue::AddrList(liquidation_input.asset_receipt_addresses));
        args.push(CallValue::UintList(liquidation_input.asset_receipt_amounts));
        let c = ContractCall {
            contract: self.liquidation_contract,
            method: String::from_str("liquidation"),
            args,
        };
        proof {
            assert(c@ =~= spec_liquidation_call(self.liquidation_contract, req));
        }
        c
    }
}

/// Bundle the five parameters of one liquidation action into a request,
/// unchanged and in place.
pub fn construct_liquidation_input(
    vault: Address,
    asset_repay_addresses: Vec<Address>,
    asset_repay_amounts: Vec<Uint256>,
    asset_receipt_addresses: Vec<Address>,
    asset_receipt_amounts: Vec<Uint256>,
) -> (r: LiquidationInput)
    requires
        asset_repay_addresses@.len() == asset_repay_amounts@.len(),
        asset_receipt_addresses@.len() == asset_receipt_amounts@.len(),
    ensures
        r@.wf(),
        r@ == (LiquidationRequestModel {
            vault,
            repay_addresses: asset_repay_addresses@,
            repay_amounts: asset_repay_amounts@,
            receipt_addresses: asset_receipt_addresses@,
            receipt_amounts: asset_receipt_amounts@,
        }),
{
    LiquidationInput {
        vault,
        asset_repay_addresses,
        asset_repay_amounts,
        asset_receipt_addresses,
        asset_receipt_amounts,
    }
}

} // verus!
