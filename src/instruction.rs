//! The side effects that an operation asks the host to carry out, together
//! with the state change, once the operation has succeeded.
use vstd::prelude::*;

use crate::tokenfactory::osmosis::{MsgBurn, MsgCreateDenom, MsgMint, MsgSetDenomMetadata};

verus! {

/// One side effect for the host to execute.
#[derive(Clone, Debug, PartialEq, Eq)]
pub enum Instruction {
    /// Register the basket token's denomination.
    CreateDenom(MsgCreateDenom),
    /// Publish the basket token's metadata.
    SetDenomMetadata(MsgSetDenomMetadata),
    /// Mint basket tokens.
    Mint(MsgMint),
    /// Burn basket tokens.
    Burn(MsgBurn),
    /// Send `amount` of the native denomination `denom` to `to_address`.
    BankSend { to_address: String, denom: String, amount: u128 },
    /// Have the fungible-token contract `contract_addr` transfer `amount` of its
    /// token to `recipient`.
    Cw20Transfer { contract_addr: String, recipient: String, amount: u128 },
}

} // verus!
