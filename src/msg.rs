//! The requests the engine answers, and the context the host hands over with
//! each of them.
use vstd::prelude::*;

use crate::state::{Asset, Component};
use crate::tokenfactory::DenomMetadata;

verus! {

/// Coins of one denomination attached to a request.
#[derive(Clone, Debug, PartialEq, Eq)]
pub struct Fund {
    pub denom: String,
    pub amount: u128,
}

/// Who sent a request, and the funds attached to it.
#[derive(Clone, Debug, PartialEq, Eq)]
pub struct MessageInfo {
    pub sender: String,
    pub funds: Vec<Fund>,
}

/// The environment of the engine: its own address on the ledger.
#[derive(Clone, Debug, PartialEq, Eq)]
pub struct Env {
    pub contract_address: String,
}

/// Sets the engine up.
#[derive(Clone, Debug, PartialEq, Eq)]
pub struct InstantiateMsg {
    /// Admin of the engine: the only one who may register components, collect
    /// taxes, and change the admin or the token's metadata.
    pub admin: String,
    /// Metadata of the basket token.
    pub metadata: DenomMetadata,
}

/// A fungible-token contract's notice that `amount` of its token was sent to
/// the engine on behalf of `sender`, with a decoded payload.
#[derive(Clone, Debug, PartialEq, Eq)]
pub struct ReceiveMsg {
    pub sender: String,
    pub amount: u128,
    pub msg: Cw20ReceivePayload,
}

/// A state-changing request.
#[derive(Clone, Debug, PartialEq, Eq)]
pub enum ExecuteMsg {
    /// Register a new component.
    AddComponent(Component),
    /// Deposit the one native coin attached.
    Deposit {},
    /// Redeem the basket tokens attached for `asset`, less its withdrawal tax.
    Withdraw { asset: Asset },
    /// A deposit of a fungible token, notified by its contract.
    Receive(ReceiveMsg),
    /// Pay the taxes accrued on `asset` to the admin.
    CollectTaxes { asset: Asset },
    /// Change some fields of the basket token's metadata.
    UpdateMetadata(UpdateMetadataMsg),
    /// Hand the admin role over to `admin`.
    UpdateAdmin { admin: String },
}

/// What a fungible-token transfer to the engine asks for.
#[derive(Clone, Debug, PartialEq, Eq)]
pub enum Cw20ReceivePayload {
    /// Deposit the transferred tokens.
    Deposit {},
}

/// The metadata fields to change; an absent field keeps its value.
#[derive(Clone, Debug, PartialEq, Eq)]
pub struct UpdateMetadataMsg {
    pub name: Option<String>,
    pub description: Option<String>,
    pub uri: Option<String>,
    pub uri_hash: Option<String>,
}

/// A read-only request.
#[derive(Clone, Debug, PartialEq, Eq)]
pub enum QueryMsg {
    /// All registered components.
    Components {},
}

/// The registered components, in ascending key order.
#[derive(Clone, Debug, PartialEq, Eq)]
pub struct ComponentsResponse {
    pub components: Vec<Component>,
}

} // verus!
