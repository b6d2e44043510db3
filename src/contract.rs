//! Setting the engine up, and the issuer of its basket token.
use vstd::prelude::*;

use crate::instruction::Instruction;
use crate::msg::{Env, InstantiateMsg, MessageInfo};
use crate::store::Store;
use crate::tokenfactory::osmosis::{creates_for, factory_denom, sets_metadata_for, TFToken};
use crate::tokenfactory::TFToken as _;

verus! {

/// The subdenomination of the basket token.
pub open spec fn basket_subdenom() -> Seq<char> {
    "amalgam"@
}

/// The denomination of the basket token of the engine at `env`.
pub open spec fn basket_denom(env: Env) -> Seq<char> {
    factory_denom(env.contract_address@, basket_subdenom())
}

/// The issuer of the basket token: the engine owns the subdenomination
/// `amalgam`.
pub fn get_tftoken(env: &Env) -> (r: TFToken)
    ensures
        r.owner@ == env.contract_address@,
        r.subdenom@ == basket_subdenom(),
{
    TFToken::new(env.contract_address.clone(), String::from_str("amalgam"))
}

/// Sets the engine up with the admin named in `msg` and no components, and asks
/// the issuer to create the basket token and publish its metadata.
pub fn instantiate(env: &Env, _info: &MessageInfo, msg: InstantiateMsg) -> (r: (Store, Vec<Instruction>))
    ensures
        r.0.wf(),
        r.0@.admin == msg.admin@,
        r.0@.components.len() == 0,
        r.0@.taxes.len() == 0,
        r.1@.len() == 2,
        creates_for(env.contract_address@, basket_subdenom(), r.1@.subrange(0, 1)),
        sets_metadata_for(env.contract_address@, r.1@.subrange(1, 2), msg.metadata),
{
    let InstantiateMsg { admin, metadata } = msg;
    let store = Store::new(admin);
    let tftoken = get_tftoken(env);
    let mut msgs = tftoken.create();
    let mut more = tftoken.set_metadata(metadata);
    let ghost a = msgs@;
    let ghost b = more@;
    msgs.append(&mut more);
    assert(msgs@.subrange(0, 1) =~= a);
    assert(msgs@.subrange(1, 2) =~= b);
    (store, msgs)
}

} // verus!
