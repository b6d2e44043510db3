//! Properties of the engine that relate several requests, proved from the
//! operations' contracts.
use vstd::prelude::*;

use crate::error::{ContractError, ContractResult};
use crate::exec::{
    add_component_post, authorized, collect_taxes_post, deposit_cw20_post, deposit_native_post,
    update_admin_post, update_metadata_post, withdraw_post, withdrawal_split, MAX_WITHDRAWAL_TAX,
};
use crate::instruction::Instruction;
use crate::msg::{Env, MessageInfo, UpdateMetadataMsg};
use crate::state::{Asset, Component};
use crate::store::{accrued, lookup, StoreView};
use crate::tokenfactory::DenomMetadata;

verus! {

/// A caller other than the admin can neither register a component, collect
/// taxes, update the metadata nor change the admin: each fails with
/// `Unauthorized` and leaves the store as it was.
pub proof fn law_only_admin_may(
    s: StoreView,
    env: Env,
    info: MessageInfo,
    c: Component,
    asset: Asset,
    published: Option<DenomMetadata>,
    update: UpdateMetadataMsg,
    admin: Seq<char>,
    t1: StoreView,
    r1: ContractResult<Vec<Instruction>>,
    t2: StoreView,
    r2: ContractResult<Vec<Instruction>>,
    t3: StoreView,
    r3: ContractResult<Vec<Instruction>>,
    t4: StoreView,
    r4: ContractResult<Vec<Instruction>>,
)
    requires
        !authorized(s, info.sender@),
        add_component_post(s, info, c, t1, r1),
        collect_taxes_post(s, info, asset, t2, r2),
        update_metadata_post(s, env, info, published, update, t3, r3),
        update_admin_post(s, info, admin, t4, r4),
    ensures
        r1 == Err::<Vec<Instruction>, ContractError>(ContractError::Unauthorized) && t1 == s,
        r2 == Err::<Vec<Instruction>, ContractError>(ContractError::Unauthorized) && t2 == s,
        r3 == Err::<Vec<Instruction>, ContractError>(ContractError::Unauthorized) && t3 == s,
        r4 == Err::<Vec<Instruction>, ContractError>(ContractError::Unauthorized) && t4 == s,
{
}

/// Once a component is registered, registering another with the same asset
/// key fails with `DuplicateComponent`.
pub proof fn law_no_duplicate_component(
    s: StoreView,
    info: MessageInfo,
    c: Component,
    t: StoreView,
    r: ContractResult<Vec<Instruction>>,
    info2: MessageInfo,
    c2: Component,
    u: StoreView,
    r2: ContractResult<Vec<Instruction>>,
)
    requires
        add_component_post(s, info, c, t, r),
        r is Ok,
        add_component_post(t, info2, c2, u, r2),
        authorized(t, info2.sender@),
        c2.spec_key() == c.spec_key(),
    ensures
        r2 == Err::<Vec<Instruction>, ContractError>(ContractError::DuplicateComponent),
        u == t,
{
    let p = choose|p: int| 0 <= p <= s.components.len() && t.components == s.components.insert(p, c);
    assert(t.components[p] == c);
    assert(exists|i: int| 0 <= i < t.components.len() && (#[trigger] t.components[i]).spec_key() == c2.spec_key());
}

/// For the admin and a new asset key, registration succeeds exactly when the
/// withdrawal tax is at most 10000 basis points, and fails with
/// `InvalidWithdrawalFee` otherwise.
pub proof fn law_withdrawal_tax_bound(
    s: StoreView,
    info: MessageInfo,
    c: Component,
    t: StoreView,
    r: ContractResult<Vec<Instruction>>,
)
    requires
        authorized(s, info.sender@),
        lookup(s.components, c.spec_key()) is None,
        add_component_post(s, info, c, t, r),
    ensures
        r is Ok <==> c.withdrawal_tax <= MAX_WITHDRAWAL_TAX,
        c.withdrawal_tax > MAX_WITHDRAWAL_TAX ==> r == Err::<Vec<Instruction>, ContractError>(
            ContractError::InvalidWithdrawalFee,
        ),
{
}

/// After the taxes of an asset are collected, collecting them again fails
/// with `NoTaxes` until a withdrawal accrues new ones.
pub proof fn law_collect_taxes_once(
    s: StoreView,
    info: MessageInfo,
    asset: Asset,
    t: StoreView,
    r: ContractResult<Vec<Instruction>>,
    info2: MessageInfo,
    u: StoreView,
    r2: ContractResult<Vec<Instruction>>,
)
    requires
        collect_taxes_post(s, info, asset, t, r),
        r is Ok,
        collect_taxes_post(t, info2, asset, u, r2),
        authorized(t, info2.sender@),
    ensures
        r2 == Err::<Vec<Instruction>, ContractError>(ContractError::NoTaxes),
        u == t,
{
}

/// The tax withheld by a withdrawal of an asset with nothing accrued is
/// exactly what the admin's next collection of that asset pays out.
pub proof fn law_collect_pays_withdrawal_tax(
    s: StoreView,
    env: Env,
    info: MessageInfo,
    asset: Asset,
    t: StoreView,
    r: ContractResult<Vec<Instruction>>,
    info2: MessageInfo,
    u: StoreView,
    r2: ContractResult<Vec<Instruction>>,
)
    requires
        accrued(s.taxes, asset.spec_key()) is None,
        withdraw_post(s, env, info, asset, t, r),
        r is Ok,
        collect_taxes_post(t, info2, asset, u, r2),
        authorized(t, info2.sender@),
    ensures
        ({
            let c = lookup(s.components, asset.spec_key())->Some_0;
            let tax = withdrawal_split(info.funds[0].amount, c.weight, c.withdrawal_tax)->Ok_0.1;
            &&& r2 is Ok
            &&& r2->Ok_0@.len() == 1
            &&& asset.sends(r2->Ok_0@[0], tax, s.admin)
        }),
{
}

/// Once the admin hands the role to someone else, the former admin can no
/// longer register components, collect taxes, update the metadata or change
/// the admin.
pub proof fn law_admin_handover(
    s: StoreView,
    info: MessageInfo,
    new_admin: Seq<char>,
    t: StoreView,
    r: ContractResult<Vec<Instruction>>,
    env: Env,
    old_info: MessageInfo,
    c: Component,
    asset: Asset,
    published: Option<DenomMetadata>,
    update: UpdateMetadataMsg,
    admin: Seq<char>,
    t1: StoreView,
    r1: ContractResult<Vec<Instruction>>,
    t2: StoreView,
    r2: ContractResult<Vec<Instruction>>,
    t3: StoreView,
    r3: ContractResult<Vec<Instruction>>,
    t4: StoreView,
    r4: ContractResult<Vec<Instruction>>,
)
    requires
        update_admin_post(s, info, new_admin, t, r),
        r is Ok,
        new_admin != s.admin,
        old_info.sender@ == s.admin,
        add_component_post(t, old_info, c, t1, r1),
        collect_taxes_post(t, old_info, asset, t2, r2),
        update_metadata_post(t, env, old_info, published, update, t3, r3),
        update_admin_post(t, old_info, admin, t4, r4),
    ensures
        t.admin == new_admin,
        r1 == Err::<Vec<Instruction>, ContractError>(ContractError::Unauthorized),
        r2 == Err::<Vec<Instruction>, ContractError>(ContractError::Unauthorized),
        r3 == Err::<Vec<Instruction>, ContractError>(ContractError::Unauthorized),
        r4 == Err::<Vec<Instruction>, ContractError>(ContractError::Unauthorized),
{
    law_only_admin_may(t, env, old_info, c, asset, published, update, admin, t1, r1, t2, r2, t3, r3, t4, r4);
}

/// Only a registration changes the registry: after any other request the
/// components, and so the component listing, are the same as before.
pub proof fn law_registry_changes_only_by_registration(
    s: StoreView,
    env: Env,
    info: MessageInfo,
    asset: Asset,
    published: Option<DenomMetadata>,
    update: UpdateMetadataMsg,
    admin: Seq<char>,
    token_contract: Seq<char>,
    amount: u128,
    recipient: Seq<char>,
    t1: StoreView,
    r1: ContractResult<Vec<Instruction>>,
    t2: StoreView,
    r2: ContractResult<Vec<Instruction>>,
    t3: StoreView,
    r3: ContractResult<Vec<Instruction>>,
    t4: StoreView,
    r4: ContractResult<Vec<Instruction>>,
    t5: StoreView,
    r5: ContractResult<Vec<Instruction>>,
    t6: StoreView,
    r6: ContractResult<Vec<Instruction>>,
)
    requires
        withdraw_post(s, env, info, asset, t1, r1),
        collect_taxes_post(s, info, asset, t2, r2),
        update_metadata_post(s, env, info, published, update, t3, r3),
        update_admin_post(s, info, admin, t4, r4),
        deposit_native_post(s, env, info, t5, r5),
        deposit_cw20_post(s, env, token_contract, amount, recipient, t6, r6),
    ensures
        t1.components == s.components,
        t2.components == s.components,
        t3.components == s.components,
        t4.components == s.components,
        t5.components == s.components,
        t6.components == s.components,
{
}

} // verus!
