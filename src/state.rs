//! What the engine keeps: its admin, the assets that back the basket token and
//! the components that register them.
use vstd::prelude::*;
use vstd::string::StringExecFns;

use crate::instruction::Instruction;
use crate::math::Decimal;

verus! {

/// The engine's own settings.
#[derive(Debug, PartialEq, Eq)]
pub struct State {
    /// The only identity allowed to register components, collect taxes and
    /// change the admin or the token's metadata.
    pub admin: String,
}

impl Clone for State {
    fn clone(&self) -> (r: Self)
        ensures
            r == *self,
    {
        State { admin: self.admin.clone() }
    }
}

/// An asset that can back the basket token.
#[derive(Debug, PartialEq, Eq)]
pub enum Asset {
    /// A native denomination of the ledger.
    Native(String),
    /// A fungible-token contract, by address.
    Cw20(String),
}

impl Clone for Asset {
    fn clone(&self) -> (r: Self)
        ensures
            r == *self,
    {
        match self {
            Asset::Native(denom) => Asset::Native(denom.clone()),
            Asset::Cw20(contract) => Asset::Cw20(contract.clone()),
        }
    }
}

impl Asset {
    /// The canonical key of the asset: its kind, a colon, and its name.
    pub open spec fn spec_key(&self) -> Seq<char> {
        match self {
            Asset::Native(denom) => "native:"@ + denom@,
            Asset::Cw20(contract) => "cw20:"@ + contract@,
        }
    }

    /// `msg` transfers `amount` of this asset to `recipient`.
    pub open spec fn sends(&self, msg: Instruction, amount: u128, recipient: Seq<char>) -> bool {
        match self {
            Asset::Native(denom) => {
                &&& msg is BankSend
                &&& msg->BankSend_to_address@ == recipient
                &&& msg->BankSend_denom@ == denom@
                &&& msg->BankSend_amount == amount
            },
            Asset::Cw20(contract) => {
                &&& msg is Cw20Transfer
                &&& msg->Cw20Transfer_contract_addr@ == contract@
                &&& msg->Cw20Transfer_recipient@ == recipient
                &&& msg->Cw20Transfer_amount == amount
            },
        }
    }

    /// The key under which the asset is registered and its taxes accrue.
    pub fn key(&self) -> (r: String)
        ensures
            r@ == self.spec_key(),
    {
        match self {
            Asset::Native(denom) => {
                let mut k = String::from_str("native:");
                k.append(denom.as_str());
                k
            },
            Asset::Cw20(contract) => {
                let mut k = String::from_str("cw20:");
                k.append(contract.as_str());
                k
            },
        }
    }

    /// The instruction that transfers `amount` of this asset to `recipient`:
    /// a bank send for a native denomination, a transfer call for a token
    /// contract.
    pub fn send(&self, amount: u128, recipient: String) -> (r: Instruction)
        ensures
            self.sends(r, amount, recipient@),
    {
        match self {
            Asset::Native(denom) => Instruction::BankSend {
                to_address: recipient,
                denom: denom.clone(),
                amount,
            },
            Asset::Cw20(contract) => Instruction::Cw20Transfer {
                contract_addr: contract.clone(),
                recipient,
                amount,
            },
        }
    }
}

/// A registered backing asset: depositing `x` of it mints `floor(x * weight)`
/// basket tokens, and a withdrawal of it pays a tax of `withdrawal_tax` basis
/// points.
#[derive(Debug, PartialEq, Eq)]
pub struct Component {
    pub token: Asset,
    pub weight: Decimal,
    /// In basis points.
    pub withdrawal_tax: u16,
}

impl Clone for Component {
    fn clone(&self) -> (r: Self)
        ensures
            r == *self,
    {
        Component { token: self.token.clone(), weight: self.weight, withdrawal_tax: self.withdrawal_tax }
    }
}

impl Component {
    /// The key under which the component is registered.
    pub open spec fn spec_key(&self) -> Seq<char> {
        self.token.spec_key()
    }
}

} // verus!
