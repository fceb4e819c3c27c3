//! The calls that are made on the sale contract, as plain values.
//!
//! The library signs and sends nothing. It says which operation is to be
//! called, with which addresses, gas limit, gas price and confirmation depth;
//! the caller turns that into a transaction.

use crate::address::{address_of, validate_address, Address, ValidationError};
use vstd::prelude::*;

verus! {

/// The confirmations that every state-changing call waits for.
pub const CONFIRMATIONS: usize = 1;

/// An unsigned 256-bit quantity, as four 64-bit limbs, least significant
/// first.
#[derive(Clone, Copy, Debug, PartialEq, Eq)]
pub struct U256 {
    pub limbs: [u64; 4],
}

/// The gas that a call was estimated to need.
pub type GasEstimate = U256;

/// A gas price.
pub type Price = U256;

impl U256 {
    /// The number that the limbs stand for.
    pub open spec fn value(self) -> nat {
        (self.limbs[0] as nat) + (self.limbs[1] as nat) * 0x1_0000_0000_0000_0000
            + (self.limbs[2] as nat) * 0x1_0000_0000_0000_0000_0000_0000_0000_0000
            + (self.limbs[3] as nat)
            * 0x1_0000_0000_0000_0000_0000_0000_0000_0000_0000_0000_0000_0000
    }
}

/// The price that is offered where the network suggests `suggested`: a tenth
/// more, the tenth rounded down.
pub open spec fn with_margin(suggested: nat) -> nat {
    suggested + suggested / 10
}

/// The state-changing operations of the sale contract.
#[derive(Clone, Copy, Debug, PartialEq, Eq, Structural)]
pub enum Operation {
    /// Grants access to every address of a batch, in one transaction.
    AddBatchToWhitelist,
    /// Revokes the whitelist as a whole; it takes no argument.
    DisableWhitelist,
}

impl Operation {
    /// The name of the operation in the contract's interface.
    pub open spec fn spec_name(self) -> Seq<char> {
        match self {
            Operation::AddBatchToWhitelist => "addBatchToWhitelist"@,
            Operation::DisableWhitelist => "disableWhitelist"@,
        }
    }

    /// The name of the operation in the contract's interface.
    pub fn name(&self) -> (name: &'static str)
        ensures
            name@ == self.spec_name(),
    {
        match self {
            Operation::AddBatchToWhitelist => "addBatchToWhitelist",
            Operation::DisableWhitelist => "disableWhitelist",
        }
    }
}

/// One signed call on the contract, ready to be sent.
#[derive(Clone, Debug, PartialEq, Eq)]
pub struct LedgerCall {
    pub operation: Operation,
    /// The addresses handed to the operation; none for one without arguments.
    pub addresses: Vec<Address>,
    /// The gas limit, where one was estimated.
    pub gas: Option<GasEstimate>,
    pub gas_price: Price,
    /// The confirmations to wait for before the call counts as done.
    pub confirmations: usize,
}

/// The mathematical content of a [`LedgerCall`].
pub struct LedgerCallView {
    pub operation: Operation,
    pub addresses: Seq<Address>,
    pub gas: Option<GasEstimate>,
    pub gas_price: Price,
    pub confirmations: usize,
}

impl View for LedgerCall {
    type V = LedgerCallView;

    open spec fn view(&self) -> LedgerCallView {
        LedgerCallView {
            operation: self.operation,
            addresses: self.addresses@,
            gas: self.gas,
            gas_price: self.gas_price,
            confirmations: self.confirmations,
        }
    }
}

/// The call that grants access to `addresses`.
pub open spec fn add_batch_call(
    addresses: Seq<Address>,
    gas: GasEstimate,
    gas_price: Price,
) -> LedgerCallView {
    LedgerCallView {
        operation: Operation::AddBatchToWhitelist,
        addresses,
        gas: Some(gas),
        gas_price,
        confirmations: CONFIRMATIONS,
    }
}

/// The call that disables the whitelist.
pub open spec fn disable_call(gas_price: Price) -> LedgerCallView {
    LedgerCallView {
        operation: Operation::DisableWhitelist,
        addresses: Seq::empty(),
        gas: None,
        gas_price,
        confirmations: CONFIRMATIONS,
    }
}

/// Adds the margin to the price that the network suggests.
pub fn price_with_margin(suggested: u128) -> (price: Price)
    ensures
        price.value() == with_margin(suggested as nat),
{
    let tenth: u128 = suggested / 10;
    let (low, carry): (u128, u64) = match suggested.checked_add(tenth) {
        Some(sum) => (sum, 0),
        None => (suggested - (u128::MAX - tenth) - 1, 1),
    };
    let low_limb: u64 = (low % 0x1_0000_0000_0000_0000) as u64;
    let high_limb: u64 = (low / 0x1_0000_0000_0000_0000) as u64;
    U256 { limbs: [low_limb, high_limb, carry, 0] }
}

/// The address of the sale contract and the price to offer for its calls.
#[derive(Clone, Copy, Debug, PartialEq, Eq)]
pub struct SellingContract {
    pub address: Address,
    pub gas_price: Price,
}

/// Prepares the calls on the sale contract: validates the text of its address
/// and puts the margin on the suggested gas price.
pub fn selling_contract(contract_address: &str, suggested_price: u128) -> (r: Result<
    SellingContract,
    ValidationError,
>)
    ensures
        match r {
            Ok(contract) => address_of(contract_address@) == Ok::<Address, ValidationError>(
                contract.address,
            ) && contract.gas_price.value() == with_margin(suggested_price as nat),
            Err(error) => address_of(contract_address@) == Err::<Address, ValidationError>(error),
        },
{
    match validate_address(contract_address) {
        Ok(address) => Ok(SellingContract { address, gas_price: price_with_margin(suggested_price) }),
        Err(error) => Err(error),
    }
}

/// The call that disables the whitelist: no argument, no gas limit of its
/// own, the given price, one confirmation.
pub fn disable_whitelist(gas_price: Price) -> (call: LedgerCall)
    ensures
        call@ == disable_call(gas_price),
{
    LedgerCall {
        operation: Operation::DisableWhitelist,
        addresses: Vec::new(),
        gas: None,
        gas_price,
        confirmations: CONFIRMATIONS,
    }
}

/// The call that grants access to a batch of addresses, with the estimated
/// gas as its limit.
pub fn add_batch_to_whitelist(addresses: Vec<Address>, gas: GasEstimate, gas_price: Price) -> (call:
    LedgerCall)
    ensures
        call@ == add_batch_call(addresses@, gas, gas_price),
{
    LedgerCall {
        operation: Operation::AddBatchToWhitelist,
        addresses,
        gas: Some(gas),
        gas_price,
        confirmations: CONFIRMATIONS,
    }
}

} // verus!
