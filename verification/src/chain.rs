//! Plain-value models of the on-chain data the bot exchanges with the
//! network: account identifiers, 256-bit unsigned integers, and the shape of
//! a contract call.

use vstd::prelude::*;

verus! {

/// A 160-bit on-chain account identifier, split into three big-endian fields:
/// `high` holds the topmost 32 bits, `mid` the next 64, `low` the lowest 64.
#[derive(Clone, Copy, Debug, PartialEq, Eq, Hash, Default, Structural)]
pub struct Address {
    pub high: u32,
    pub mid: u64,
    pub low: u64,
}

impl Address {
    /// The identifier whose numeric value is `index`: its low 64 bits hold
    /// `index` big-endian and all higher bits are zero.
    pub fn from_index(index: u64) -> (r: Address)
        ensures
            r == (Address { high: 0, mid: 0, low: index }),
    {
        Address { high: 0, mid: 0, low: index }
    }
}

/// A 256-bit unsigned integer as four 64-bit limbs, least significant first.
#[derive(Clone, Copy, Debug, PartialEq, Eq, Hash, Default, Structural)]
pub struct Uint256 {
    pub limb0: u64,
    pub limb1: u64,
    pub limb2: u64,
    pub limb3: u64,
}

impl Uint256 {
    /// The numeric value of the four limbs.
    pub open spec fn value(self) -> int {
        ((self.limb3 * 0x10000000000000000 + self.limb2) * 0x10000000000000000 + self.limb1)
            * 0x10000000000000000 + self.limb0
    }

    /// The 256-bit value equal to `v`.
    pub fn from_u64(v: u64) -> (r: Uint256)
        ensures
            r.value() == v,
    {
        Uint256 { limb0: v, limb1: 0, limb2: 0, limb3: 0 }
    }

    /// Whether the value is strictly below `bound`.
    pub fn lt_u64(&self, bound: u64) -> (r: bool)
        ensures
            r == (self.value() < bound),
    {
        proof {
            if self.limb1 != 0 || self.limb2 != 0 || self.limb3 != 0 {
                assert(self.value() >= 0x10000000000000000) by (nonlinear_arith)
                    requires
                        self.limb1 != 0 || self.limb2 != 0 || self.limb3 != 0,
                        self.value() == ((self.limb3 * 0x10000000000000000 + self.limb2)
                            * 0x10000000000000000 + self.limb1) * 0x10000000000000000 + self.limb0,
                {
                }
            }
        }
        self.limb3 == 0 && self.limb2 == 0 && self.limb1 == 0 && self.limb0 < bound
    }
}

/// One typed argument of a contract call.
pub enum CallValue {
    Addr(Address),
    AddrList(Vec<Address>),
    UintList(Vec<Uint256>),
}

/// The mathematical model of a call argument.
pub enum CallValueModel {
    Addr(Address),
    AddrList(Seq<Address>),
    UintList(Seq<Uint256>),
}

impl View for CallValue {
    type V = CallValueModel;

    open spec fn view(&self) -> CallValueModel {
        match self {
            CallValue::Addr(a) => CallValueModel::Addr(*a),
            CallValue::AddrList(v) => CallValueModel::AddrList(v@),
            CallValue::UintList(v) => CallValueModel::UintList(v@),
        }
    }
}

/// A fully assembled contract call: the target contract, the method name as
/// the remote ABI spells it, and the arguments in submission order.
pub struct ContractCall {
    pub contract: Address,
    pub method: String,
    pub args: Vec<CallValue>,
}

/// The mathematical model of a contract call.
#[verifier::ext_equal]
pub struct ContractCallModel {
    pub contract: Address,
    pub method: Seq<char>,
    pub args: Seq<CallValueModel>,
}

impl View for ContractCall {
    type V = ContractCallModel;

    open spec fn view(&self) -> ContractCallModel {
        ContractCallModel {
            contract: self.contract,
            method: self.method@,
            args: self.args@.map_values(|a: CallValue| a@),
        }
    }
}

/// A failure of the read-only query against the hub contract, as reported by
/// the network layer.
#[derive(Debug)]
pub struct ChainQueryError {
    pub message: String,
}

impl View for ChainQueryError {
    type V = Seq<char>;

    open spec fn view(&self) -> Seq<char> {
        self.message@
    }
}

} // verus!
