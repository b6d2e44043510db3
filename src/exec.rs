//! The state-changing operations: registering components, deposits,
//! withdrawals, tax collection, metadata and admin changes, and the dispatcher
//! that routes a request to them.
use vstd::prelude::*;
use vstd::arithmetic::div_mod::{lemma_div_denominator, lemma_div_multiples_vanish};

use crate::contract::{basket_denom, basket_subdenom, get_tftoken};
use crate::error::{ContractError, ContractResult, StdError};
use crate::instruction::Instruction;
use crate::math::{div_floor, mul_floor, ratio_floor, Decimal, DECIMAL_FRACTIONAL};
use crate::msg::{Cw20ReceivePayload, Env, ExecuteMsg, MessageInfo, UpdateMetadataMsg};
use crate::state::{Asset, Component};
use crate::store::{accrued, lookup, Store, StoreView};
use crate::tokenfactory::osmosis::{burns_for, mints_for, sets_metadata_for};
use crate::tokenfactory::{DenomMetadata, TFToken as _};

verus! {

/// Withdrawal taxes are at most 10000 basis points.
pub const MAX_WITHDRAWAL_TAX: u16 = 10000;

/// `sender` is the admin of `s`.
pub open spec fn authorized(s: StoreView, sender: Seq<char>) -> bool {
    sender == s.admin
}

/// The key of the native denomination `denom`.
pub open spec fn native_key(denom: Seq<char>) -> Seq<char> {
    "native:"@ + denom
}

/// The key of the fungible-token contract `contract`.
pub open spec fn cw20_key(contract: Seq<char>) -> Seq<char> {
    "cw20:"@ + contract
}

/// The basket tokens minted for a deposit of `amount`: `floor(amount * weight)`.
pub open spec fn mint_amount(amount: u128, weight: Decimal) -> Option<u128> {
    ratio_floor(amount as int, weight.atomics as int, DECIMAL_FRACTIONAL as int)
}

/// The payout and the tax of a withdrawal of `amount` basket tokens against a
/// component of weight `weight` and tax `tax_bps` basis points:
/// `raw = floor(amount / weight)`, `tax = floor(raw * tax_bps / 10000)`,
/// payout `raw - tax - 1`.
pub open spec fn withdrawal_split(amount: u128, weight: Decimal, tax_bps: u16) -> Result<(u128, u128), StdError> {
    if weight.atomics == 0 {
        Err(StdError::DivideByZero)
    } else if amount * DECIMAL_FRACTIONAL / (weight.atomics as int) > u128::MAX {
        Err(StdError::Overflow)
    } else {
        let raw = amount * DECIMAL_FRACTIONAL / (weight.atomics as int);
        let tax = raw * tax_bps / 10000;
        if raw < tax + 1 {
            Err(StdError::Overflow)
        } else {
            Ok(((raw - tax - 1) as u128, tax as u128))
        }
    }
}

/// The outcome of registering `c`: only the admin may, the key must be new
/// and the tax at most 10000 basis points; the component then takes its place
/// in key order.
pub open spec fn add_component_post(
    s: StoreView,
    info: MessageInfo,
    c: Component,
    t: StoreView,
    r: ContractResult<Vec<Instruction>>,
) -> bool {
    if !authorized(s, info.sender@) {
        r == Err::<Vec<Instruction>, ContractError>(ContractError::Unauthorized) && t == s
    } else if lookup(s.components, c.spec_key()) is Some {
        r == Err::<Vec<Instruction>, ContractError>(ContractError::DuplicateComponent) && t == s
    } else if c.withdrawal_tax > MAX_WITHDRAWAL_TAX {
        r == Err::<Vec<Instruction>, ContractError>(ContractError::InvalidWithdrawalFee) && t == s
    } else {
        &&& r is Ok
        &&& r->Ok_0@.len() == 0
        &&& t.admin == s.admin
        &&& t.taxes == s.taxes
        &&& exists|p: int| 0 <= p <= s.components.len() && t.components == s.components.insert(p, c)
    }
}

/// `existing` with the fields that `update` holds replaced.
pub open spec fn overlay(existing: DenomMetadata, update: UpdateMetadataMsg) -> DenomMetadata {
    DenomMetadata {
        name: match update.name { Some(v) => v, None => existing.name },
        description: match update.description { Some(v) => v, None => existing.description },
        uri: match update.uri { Some(v) => v, None => existing.uri },
        uri_hash: match update.uri_hash { Some(v) => v, None => existing.uri_hash },
        ..existing
    }
}

/// The outcome of a metadata update: only the admin may; the issuer then
/// publishes the current metadata with the given fields replaced.
pub open spec fn update_metadata_post(
    s: StoreView,
    env: Env,
    info: MessageInfo,
    existing: Option<DenomMetadata>,
    update: UpdateMetadataMsg,
    t: StoreView,
    r: ContractResult<Vec<Instruction>>,
) -> bool {
    &&& t == s
    &&& if !authorized(s, info.sender@) {
        r == Err::<Vec<Instruction>, ContractError>(ContractError::Unauthorized)
    } else if existing is None {
        r == Err::<Vec<Instruction>, ContractError>(ContractError::Std(StdError::NotFound))
    } else {
        &&& r is Ok
        &&& sets_metadata_for(env.contract_address@, r->Ok_0@, overlay(existing->Some_0, update))
    }
}

/// The outcome of a deposit of `amount` of component `c` for `recipient`:
/// `floor(amount * weight)` basket tokens are minted to the recipient.
pub open spec fn deposit_post(env: Env, c: Component, amount: u128, recipient: Seq<char>, r: ContractResult<Vec<Instruction>>) -> bool {
    match mint_amount(amount, c.weight) {
        Some(m) => r is Ok && mints_for(env.contract_address@, basket_subdenom(), r->Ok_0@, m, recipient),
        None => r == Err::<Vec<Instruction>, ContractError>(ContractError::Std(StdError::Overflow)),
    }
}

/// The outcome of a native deposit: exactly one coin must be attached, of a
/// registered native denomination.
pub open spec fn deposit_native_post(
    s: StoreView,
    env: Env,
    info: MessageInfo,
    t: StoreView,
    r: ContractResult<Vec<Instruction>>,
) -> bool {
    &&& t == s
    &&& if info.funds.len() != 1 {
        r == Err::<Vec<Instruction>, ContractError>(ContractError::InvalidFunds)
    } else {
        match lookup(s.components, native_key(info.funds[0].denom@)) {
            None => r == Err::<Vec<Instruction>, ContractError>(ContractError::UnknownAsset),
            Some(c) => deposit_post(env, c, info.funds[0].amount, info.sender@, r),
        }
    }
}

/// The outcome of a fungible-token deposit: the token contract must be a
/// registered component.
pub open spec fn deposit_cw20_post(
    s: StoreView,
    env: Env,
    token_contract: Seq<char>,
    amount: u128,
    recipient: Seq<char>,
    t: StoreView,
    r: ContractResult<Vec<Instruction>>,
) -> bool {
    &&& t == s
    &&& match lookup(s.components, cw20_key(token_contract)) {
        None => r == Err::<Vec<Instruction>, ContractError>(ContractError::UnknownAsset),
        Some(c) => deposit_post(env, c, amount, recipient, r),
    }
}

/// The outcome of a withdrawal for `asset`: exactly one coin of the basket
/// token must be attached and the asset registered. The attached tokens are
/// burned, the payout goes to the sender and the tax accrues under the
/// asset's key.
pub open spec fn withdraw_post(
    s: StoreView,
    env: Env,
    info: MessageInfo,
    asset: Asset,
    t: StoreView,
    r: ContractResult<Vec<Instruction>>,
) -> bool {
    if info.funds.len() != 1 || info.funds[0].denom@ != basket_denom(env) {
        r == Err::<Vec<Instruction>, ContractError>(ContractError::InvalidFunds) && t == s
    } else {
        match lookup(s.components, asset.spec_key()) {
            None => r == Err::<Vec<Instruction>, ContractError>(ContractError::UnknownAsset) && t == s,
            Some(c) => match withdrawal_split(info.funds[0].amount, c.weight, c.withdrawal_tax) {
                Err(e) => r == Err::<Vec<Instruction>, ContractError>(ContractError::Std(e)) && t == s,
                Ok((net, tax)) => {
                    let prev: int = match accrued(s.taxes, asset.spec_key()) {
                        Some(a) => a as int,
                        None => 0,
                    };
                    if prev + tax > u128::MAX {
                        r == Err::<Vec<Instruction>, ContractError>(ContractError::Std(StdError::Overflow)) && t == s
                    } else {
                        &&& r is Ok
                        &&& r->Ok_0@.len() == 2
                        &&& burns_for(
                            env.contract_address@,
                            basket_subdenom(),
                            r->Ok_0@.subrange(0, 1),
                            info.funds[0].amount,
                            env.contract_address@,
                        )
                        &&& asset.sends(r->Ok_0@[1], net, info.sender@)
                        &&& t.admin == s.admin
                        &&& t.components == s.components
                        &&& accrued(t.taxes, asset.spec_key()) == Some((prev + tax) as u128)
                        &&& forall|k: Seq<char>| k != asset.spec_key() ==> accrued(t.taxes, k) == accrued(s.taxes, k)
                    }
                },
            },
        }
    }
}

/// The outcome of a tax collection for `asset`: only the admin may, and
/// taxes must have accrued; all of them are paid to the admin and the
/// accrual is removed.
pub open spec fn collect_taxes_post(
    s: StoreView,
    info: MessageInfo,
    asset: Asset,
    t: StoreView,
    r: ContractResult<Vec<Instruction>>,
) -> bool {
    if !authorized(s, info.sender@) {
        r == Err::<Vec<Instruction>, ContractError>(ContractError::Unauthorized) && t == s
    } else {
        match accrued(s.taxes, asset.spec_key()) {
            None => r == Err::<Vec<Instruction>, ContractError>(ContractError::NoTaxes) && t == s,
            Some(a) => {
                &&& r is Ok
                &&& r->Ok_0@.len() == 1
                &&& asset.sends(r->Ok_0@[0], a, s.admin)
                &&& t.admin == s.admin
                &&& t.components == s.components
                &&& accrued(t.taxes, asset.spec_key()) is None
                &&& forall|k: Seq<char>| k != asset.spec_key() ==> accrued(t.taxes, k) == accrued(s.taxes, k)
            },
        }
    }
}

/// The outcome of an admin change: only the admin may hand the role over.
pub open spec fn update_admin_post(
    s: StoreView,
    info: MessageInfo,
    admin: Seq<char>,
    t: StoreView,
    r: ContractResult<Vec<Instruction>>,
) -> bool {
    if !authorized(s, info.sender@) {
        r == Err::<Vec<Instruction>, ContractError>(ContractError::Unauthorized) && t == s
    } else {
        &&& r is Ok
        &&& r->Ok_0@.len() == 0
        &&& t.admin == admin
        &&& t.components == s.components
        &&& t.taxes == s.taxes
    }
}

/// `x * 10^14 / 10^18 == x / 10^4`: a tax rate in basis points as a decimal.
proof fn lemma_bps_scaling(x: int)
    requires
        0 <= x,
    ensures
        x * 100_000_000_000_000 / (DECIMAL_FRACTIONAL as int) == x / 10000,
{
    lemma_div_multiples_vanish(x, 100_000_000_000_000);
    lemma_div_denominator(x * 100_000_000_000_000, 100_000_000_000_000, 10000);
    assert(100_000_000_000_000 * x == x * 100_000_000_000_000);
}

/// The admin, if `info.sender` is the admin; `Unauthorized` otherwise.
pub fn assert_admin(store: &Store, info: &MessageInfo) -> (r: ContractResult<String>)
    ensures
        authorized(store@, info.sender@) ==> r is Ok && r->Ok_0@ == store@.admin,
        !authorized(store@, info.sender@) ==> r == Err::<String, ContractError>(ContractError::Unauthorized),
{
    if info.sender != store.state().admin {
        return Err(ContractError::Unauthorized);
    }
    Ok(store.state().admin.clone())
}

/// Registers `component`.
pub fn add_component(store: &mut Store, info: &MessageInfo, component: Component) -> (r: ContractResult<
    Vec<Instruction>,
>)
    requires
        old(store).wf(),
    ensures
        final(store).wf(),
        add_component_post(old(store)@, *info, component, final(store)@, r),
{
    if let Err(e) = assert_admin(store, info) {
        return Err(e);
    }
    let key = component.token.key();
    if store.component(&key).is_some() {
        return Err(ContractError::DuplicateComponent);
    }
    if component.withdrawal_tax > MAX_WITHDRAWAL_TAX {
        return Err(ContractError::InvalidWithdrawalFee);
    }
    store.insert_component(component);
    Ok(Vec::new())
}

/// Publishes the basket token's metadata `existing` with the fields that
/// `metadata` holds replaced. `existing` is the metadata as the issuer
/// currently publishes it, if it could be read.
pub fn update_metadata(
    store: &Store,
    env: &Env,
    info: &MessageInfo,
    existing: Option<DenomMetadata>,
    metadata: UpdateMetadataMsg,
) -> (r: ContractResult<Vec<Instruction>>)
    ensures
        update_metadata_post(store@, *env, *info, existing, metadata, store@, r),
{
    if let Err(e) = assert_admin(store, info) {
        return Err(e);
    }
    let existing = match existing {
        Some(m) => m,
        None => return Err(ContractError::Std(StdError::NotFound)),
    };
    let tftoken = get_tftoken(env);
    let DenomMetadata { description, denom_units, base, display, name, symbol, uri, uri_hash } = existing;
    let UpdateMetadataMsg { name: new_name, description: new_description, uri: new_uri, uri_hash: new_uri_hash } =
        metadata;
    let merged = DenomMetadata {
        description: match new_description {
            Some(v) => v,
            None => description,
        },
        denom_units,
        base,
        display,
        name: match new_name {
            Some(v) => v,
            None => name,
        },
        symbol,
        uri: match new_uri {
            Some(v) => v,
            None => uri,
        },
        uri_hash: match new_uri_hash {
            Some(v) => v,
            None => uri_hash,
        },
    };
    Ok(tftoken.set_metadata(merged))
}

/// Mints `floor(amount * component.weight)` basket tokens to `recipient`.
pub fn deposit(env: &Env, component: &Component, amount: u128, recipient: String) -> (r: ContractResult<
    Vec<Instruction>,
>)
    ensures
        deposit_post(*env, *component, amount, recipient@, r),
{
    let tftoken = get_tftoken(env);
    match mul_floor(amount, component.weight) {
        Some(m) => Ok(tftoken.mint(m, recipient)),
        None => Err(ContractError::Std(StdError::Overflow)),
    }
}

/// Deposits the one native coin attached to the request.
pub fn deposit_native(store: &Store, env: &Env, info: &MessageInfo) -> (r: ContractResult<Vec<Instruction>>)
    requires
        store.wf(),
    ensures
        deposit_native_post(store@, *env, *info, store@, r),
{
    if info.funds.len() != 1 {
        return Err(ContractError::InvalidFunds);
    }
    let fund = &info.funds[0];
    let mut key = String::from_str("native:");
    key.append(fund.denom.as_str());
    match store.component(&key) {
        None => Err(ContractError::UnknownAsset),
        Some(c) => deposit(env, &c, fund.amount, info.sender.clone()),
    }
}

/// Deposits `amount` of the fungible token of `token_contract` for
/// `recipient`.
pub fn deposit_cw20(store: &Store, env: &Env, token_contract: String, amount: u128, recipient: String) -> (r:
    ContractResult<Vec<Instruction>>)
    requires
        store.wf(),
    ensures
        deposit_cw20_post(store@, *env, token_contract@, amount, recipient@, store@, r),
{
    let mut key = String::from_str("cw20:");
    key.append(token_contract.as_str());
    match store.component(&key) {
        None => Err(ContractError::UnknownAsset),
        Some(c) => deposit(env, &c, amount, recipient),
    }
}

/// Redeems the basket tokens attached to the request for `asset`.
pub fn withdraw(store: &mut Store, env: &Env, info: &MessageInfo, asset: Asset) -> (r: ContractResult<
    Vec<Instruction>,
>)
    requires
        old(store).wf(),
    ensures
        final(store).wf(),
        withdraw_post(old(store)@, *env, *info, asset, final(store)@, r),
{
    let tftoken = get_tftoken(env);
    if info.funds.len() != 1 {
        return Err(ContractError::InvalidFunds);
    }
    let fund = &info.funds[0];
    let denom = tftoken.denom();
    if !(fund.denom == denom) {
        return Err(ContractError::InvalidFunds);
    }
    let key = asset.key();
    let component = match store.component(&key) {
        None => return Err(ContractError::UnknownAsset),
        Some(c) => c,
    };
    if component.weight.atomics == 0 {
        return Err(ContractError::Std(StdError::DivideByZero));
    }
    let tax_rate = match Decimal::checked_from_ratio(component.withdrawal_tax as u128, 10000) {
        Some(d) => d,
        None => return Err(ContractError::Std(StdError::Overflow)),
    };
    let raw = match div_floor(fund.amount, component.weight) {
        Some(v) => v,
        None => return Err(ContractError::Std(StdError::Overflow)),
    };
    proof {
        let bps = component.withdrawal_tax as int;
        lemma_div_multiples_vanish(bps * 100_000_000_000_000, 10000);
        assert(tax_rate.atomics == bps * 100_000_000_000_000);
        lemma_bps_scaling(raw * bps);
        assert(raw * tax_rate.atomics == (raw * bps) * 100_000_000_000_000) by (nonlinear_arith)
            requires tax_rate.atomics == bps * 100_000_000_000_000;
    }
    let tax = match mul_floor(raw, tax_rate) {
        Some(v) => v,
        None => return Err(ContractError::Std(StdError::Overflow)),
    };
    if tax >= raw {
        return Err(ContractError::Std(StdError::Overflow));
    }
    let net = raw - tax - 1;
    let prev = match store.withdrawal_tax(&key) {
        Some(a) => a,
        None => 0,
    };
    let total = match prev.checked_add(tax) {
        Some(v) => v,
        None => return Err(ContractError::Std(StdError::Overflow)),
    };
    store.save_withdrawal_tax(key, total);
    let mut msgs = tftoken.burn(fund.amount, env.contract_address.clone());
    let ghost burned = msgs@;
    msgs.push(asset.send(net, info.sender.clone()));
    assert(msgs@.subrange(0, 1) =~= burned);
    Ok(msgs)
}

/// Pays the taxes accrued on `asset` to the admin.
pub fn collect_taxes(store: &mut Store, info: &MessageInfo, asset: Asset) -> (r: ContractResult<Vec<Instruction>>)
    requires
        old(store).wf(),
    ensures
        final(store).wf(),
        collect_taxes_post(old(store)@, *info, asset, final(store)@, r),
{
    let admin = match assert_admin(store, info) {
        Ok(a) => a,
        Err(e) => return Err(e),
    };
    let key = asset.key();
    match store.take_withdrawal_tax(&key) {
        None => Err(ContractError::NoTaxes),
        Some(taxes) => Ok(vec![asset.send(taxes, admin)]),
    }
}

/// Hands the admin role over to `admin`.
pub fn update_admin(store: &mut Store, info: &MessageInfo, admin: String) -> (r: ContractResult<Vec<Instruction>>)
    requires
        old(store).wf(),
    ensures
        final(store).wf(),
        update_admin_post(old(store)@, *info, admin@, final(store)@, r),
{
    if info.sender != store.state().admin {
        return Err(ContractError::Unauthorized);
    }
    store.set_admin(admin);
    Ok(Vec::new())
}

/// Routes a request to its operation. `published` is the basket token's
/// metadata as the issuer currently publishes it, if it could be read; only a
/// metadata update reads it.
pub fn execute(
    store: &mut Store,
    env: &Env,
    info: &MessageInfo,
    msg: ExecuteMsg,
    published: Option<DenomMetadata>,
) -> (r: ContractResult<Vec<Instruction>>)
    requires
        old(store).wf(),
    ensures
        final(store).wf(),
        match msg {
            ExecuteMsg::AddComponent(c) => add_component_post(old(store)@, *info, c, final(store)@, r),
            ExecuteMsg::UpdateMetadata(m) => update_metadata_post(
                old(store)@,
                *env,
                *info,
                published,
                m,
                final(store)@,
                r,
            ),
            ExecuteMsg::Receive(m) => match m.msg {
                Cw20ReceivePayload::Deposit {  } => deposit_cw20_post(
                    old(store)@,
                    *env,
                    info.sender@,
                    m.amount,
                    m.sender@,
                    final(store)@,
                    r,
                ),
            },
            ExecuteMsg::Deposit {  } => deposit_native_post(old(store)@, *env, *info, final(store)@, r),
            ExecuteMsg::Withdraw { asset } => withdraw_post(old(store)@, *env, *info, asset, final(store)@, r),
            ExecuteMsg::CollectTaxes { asset } => collect_taxes_post(old(store)@, *info, asset, final(store)@, r),
            ExecuteMsg::UpdateAdmin { admin } => update_admin_post(old(store)@, *info, admin@, final(store)@, r),
        },
{
    match msg {
        ExecuteMsg::AddComponent(component) => add_component(store, info, component),
        ExecuteMsg::UpdateMetadata(metadata) => update_metadata(store, env, info, published, metadata),
        ExecuteMsg::Receive(m) => match m.msg {
            Cw20ReceivePayload::Deposit {  } => deposit_cw20(store, env, info.sender.clone(), m.amount, m.sender),
        },
        ExecuteMsg::Deposit {  } => deposit_native(store, env, info),
        ExecuteMsg::Withdraw { asset } => withdraw(store, env, info, asset),
        ExecuteMsg::CollectTaxes { asset } => collect_taxes(store, info, asset),
        ExecuteMsg::UpdateAdmin { admin } => update_admin(store, info, admin),
    }
}

} // verus!
