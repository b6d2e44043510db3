use amalgam::contract::instantiate;
use amalgam::error::{ContractError, StdError};
use amalgam::exec::execute;
use amalgam::instruction::Instruction;
use amalgam::math::{div_floor, mul_floor, Decimal};
use amalgam::msg::{
    Cw20ReceivePayload, Env, ExecuteMsg, Fund, InstantiateMsg, MessageInfo, QueryMsg, ReceiveMsg,
    UpdateMetadataMsg,
};
use amalgam::query::query;
use amalgam::state::{Asset, Component};
use amalgam::store::Store;
use amalgam::tokenfactory::osmosis::{MsgBurn, MsgCreateDenom, MsgMint, MsgSetDenomMetadata};
use amalgam::tokenfactory::{Coin, DenomMetadata, DenomUnit};

const CONTRACT: &str = "cosmos2contract";
const BASKET_DENOM: &str = "factory/cosmos2contract/amalgam";

fn mock_env() -> Env {
    Env { contract_address: CONTRACT.to_string() }
}

fn mock_info(sender: &str, funds: &[(&str, u128)]) -> MessageInfo {
    MessageInfo {
        sender: sender.to_string(),
        funds: funds.iter().map(|(d, a)| Fund { denom: d.to_string(), amount: *a }).collect(),
    }
}

fn native_component(denom: &str, weight: Decimal, withdrawal_tax: u16) -> Component {
    Component { token: Asset::Native(denom.to_string()), weight, withdrawal_tax }
}

fn admin_store() -> Store {
    Store::new("admin".to_string())
}

fn add(store: &mut Store, component: Component) {
    let res = execute(store, &mock_env(), &mock_info("admin", &[]), ExecuteMsg::AddComponent(component), None);
    assert!(matches!(res, Ok(_)));
}

fn metadata() -> DenomMetadata {
    DenomMetadata {
        description: "basket".to_string(),
        denom_units: vec![DenomUnit { denom: "amalgam".to_string(), exponent: 6, aliases: vec![] }],
        base: BASKET_DENOM.to_string(),
        display: "amalgam".to_string(),
        name: "Amalgam".to_string(),
        symbol: "AMG".to_string(),
        uri: "".to_string(),
        uri_hash: "".to_string(),
    }
}

#[test]
fn test_add_component_non_admin() {
    let mut store = admin_store();
    let env = mock_env();
    let info = mock_info("user", &[]);

    let msg = ExecuteMsg::AddComponent(Component {
        token: Asset::Native("uosmo".to_string()),
        weight: Decimal::from_ratio(1u128, 100u128),
        withdrawal_tax: 1000,
    });

    let res = execute(&mut store, &env, &info, msg.clone(), None);
    assert!(matches!(res, Err(ContractError::Unauthorized)));

    let info = mock_info("admin", &[]);

    let res = execute(&mut store, &env, &info, msg, None);
    assert!(matches!(res, Ok(_)));

    let component = store.component(&"native:uosmo".to_string()).unwrap();
    assert_eq!(component.weight, Decimal::from_ratio(1u128, 100u128));
    assert_eq!(component.withdrawal_tax, 1000);
}

#[test]
fn test_change_admin() {
    let mut store = admin_store();
    let env = mock_env();
    let info = mock_info("user", &[]);

    let msg = ExecuteMsg::UpdateAdmin { admin: "new_admin".to_string() };

    let res = execute(&mut store, &env, &info, msg.clone(), None);
    assert!(matches!(res, Err(ContractError::Unauthorized)));

    let info = mock_info("admin", &[]);
    let res = execute(&mut store, &env, &info, msg, None);
    assert!(matches!(res, Ok(_)));

    assert_eq!(store.state().admin, "new_admin".to_string());
}

#[test]
fn test_update_metadata() {
    let mut store = admin_store();
    let env = mock_env();
    let info = mock_info("user", &[]);

    let msg = ExecuteMsg::UpdateMetadata(UpdateMetadataMsg {
        name: Some("new_name".to_string()),
        description: Some("new_description".to_string()),
        uri: Some("new_uri".to_string()),
        uri_hash: Some("new_uri_hash".to_string()),
    });

    let res = execute(&mut store, &env, &info, msg.clone(), None);
    assert!(matches!(res, Err(ContractError::Unauthorized)));
}

#[test]
fn test_collect_taxes() {
    let mut store = admin_store();
    let env = mock_env();
    let info = mock_info("user", &[]);

    let msg = ExecuteMsg::CollectTaxes { asset: Asset::Native("utest".to_string()) };

    let res = execute(&mut store, &env, &info, msg.clone(), None);
    assert!(matches!(res, Err(ContractError::Unauthorized)));

    let info = mock_info("admin", &[]);
    let res = execute(&mut store, &env, &info, msg.clone(), None);
    assert!(matches!(res, Err(ContractError::NoTaxes)));

    store.save_withdrawal_tax("native:utest".to_string(), 1000u128);

    let res = execute(&mut store, &env, &info, msg, None);
    assert!(matches!(res, Ok(_)));

    let taxes = store.withdrawal_tax(&"native:utest".to_string());
    assert_eq!(taxes, None);
}

fn one_percent() -> Decimal {
    Decimal::from_ratio(1u128, 100u128)
}

#[test]
fn non_admin_rejected_for_every_privileged_request() {
    let mut store = admin_store();
    add(&mut store, native_component("utest", one_percent(), 1000));
    let env = mock_env();
    let user = mock_info("user", &[]);
    let requests = vec![
        ExecuteMsg::AddComponent(native_component("uatom", one_percent(), 0)),
        ExecuteMsg::CollectTaxes { asset: Asset::Native("utest".to_string()) },
        ExecuteMsg::UpdateMetadata(UpdateMetadataMsg { name: None, description: None, uri: None, uri_hash: None }),
        ExecuteMsg::UpdateAdmin { admin: "user".to_string() },
    ];
    for msg in requests {
        let res = execute(&mut store, &env, &user, msg, Some(metadata()));
        assert_eq!(res, Err(ContractError::Unauthorized));
    }
    assert_eq!(store.state().admin, "admin".to_string());
    assert_eq!(store.components().len(), 1);
}

#[test]
fn duplicate_component_rejected() {
    let mut store = admin_store();
    add(&mut store, native_component("uosmo", one_percent(), 1000));
    let res = execute(
        &mut store,
        &mock_env(),
        &mock_info("admin", &[]),
        ExecuteMsg::AddComponent(native_component("uosmo", Decimal::from_ratio(1u128, 2u128), 5)),
        None,
    );
    assert_eq!(res, Err(ContractError::DuplicateComponent));
    assert_eq!(store.components().len(), 1);
    assert_eq!(store.components()[0].withdrawal_tax, 1000);
}

#[test]
fn withdrawal_tax_bound() {
    let mut store = admin_store();
    let admin = mock_info("admin", &[]);
    let res = execute(
        &mut store,
        &mock_env(),
        &admin,
        ExecuteMsg::AddComponent(native_component("uosmo", one_percent(), 10001)),
        None,
    );
    assert_eq!(res, Err(ContractError::InvalidWithdrawalFee));
    assert_eq!(store.components().len(), 0);
    let res = execute(
        &mut store,
        &mock_env(),
        &admin,
        ExecuteMsg::AddComponent(native_component("uosmo", one_percent(), 10000)),
        None,
    );
    assert_eq!(res, Ok(vec![]));
    assert_eq!(store.components().len(), 1);
}

#[test]
fn native_deposit_mints_weighted_amount() {
    let mut store = admin_store();
    add(&mut store, native_component("uosmo", one_percent(), 1000));
    let res = execute(&mut store, &mock_env(), &mock_info("user", &[("uosmo", 100)]), ExecuteMsg::Deposit {}, None);
    assert_eq!(
        res,
        Ok(vec![Instruction::Mint(MsgMint {
            sender: CONTRACT.to_string(),
            amount: Some(Coin { denom: BASKET_DENOM.to_string(), amount: "1".to_string() }),
            mint_to_address: "user".to_string(),
        })])
    );
}

#[test]
fn deposit_amount_is_rounded_down_and_written_in_decimal() {
    let mut store = admin_store();
    add(&mut store, native_component("uosmo", Decimal::from_ratio(3u128, 2u128), 0));
    let res = execute(&mut store, &mock_env(), &mock_info("user", &[("uosmo", 82305)]), ExecuteMsg::Deposit {}, None);
    match res {
        Ok(msgs) => match &msgs[0] {
            Instruction::Mint(m) => assert_eq!(m.amount.as_ref().unwrap().amount, "123457".to_string()),
            other => panic!("unexpected {:?}", other),
        },
        Err(e) => panic!("unexpected {:?}", e),
    }
}

#[test]
fn deposit_with_wrong_fund_count_or_unknown_denom() {
    let mut store = admin_store();
    add(&mut store, native_component("uosmo", one_percent(), 1000));
    let env = mock_env();
    let res = execute(&mut store, &env, &mock_info("user", &[]), ExecuteMsg::Deposit {}, None);
    assert_eq!(res, Err(ContractError::InvalidFunds));
    let res = execute(
        &mut store,
        &env,
        &mock_info("user", &[("uosmo", 100), ("uatom", 100)]),
        ExecuteMsg::Deposit {},
        None,
    );
    assert_eq!(res, Err(ContractError::InvalidFunds));
    let res = execute(&mut store, &env, &mock_info("user", &[("uatom", 100)]), ExecuteMsg::Deposit {}, None);
    assert_eq!(res, Err(ContractError::UnknownAsset));
}

#[test]
fn deposit_overflow_fails() {
    let mut store = admin_store();
    add(&mut store, native_component("uosmo", Decimal::from_ratio(2u128, 1u128), 0));
    let res = execute(
        &mut store,
        &mock_env(),
        &mock_info("user", &[("uosmo", u128::MAX)]),
        ExecuteMsg::Deposit {},
        None,
    );
    assert_eq!(res, Err(ContractError::Std(StdError::Overflow)));
}

#[test]
fn cw20_deposit_mints_to_original_sender() {
    let mut store = admin_store();
    add(&mut store, Component { token: Asset::Cw20("token".to_string()), weight: one_percent(), withdrawal_tax: 0 });
    let msg = ExecuteMsg::Receive(ReceiveMsg {
        sender: "user".to_string(),
        amount: 250,
        msg: Cw20ReceivePayload::Deposit {},
    });
    let res = execute(&mut store, &mock_env(), &mock_info("token", &[]), msg.clone(), None);
    assert_eq!(
        res,
        Ok(vec![Instruction::Mint(MsgMint {
            sender: CONTRACT.to_string(),
            amount: Some(Coin { denom: BASKET_DENOM.to_string(), amount: "2".to_string() }),
            mint_to_address: "user".to_string(),
        })])
    );
    let res = execute(&mut store, &mock_env(), &mock_info("other", &[]), msg, None);
    assert_eq!(res, Err(ContractError::UnknownAsset));
}

#[test]
fn withdraw_pays_inverse_weight_less_tax_and_one() {
    let mut store = admin_store();
    add(&mut store, native_component("utest", one_percent(), 1000));
    let res = execute(
        &mut store,
        &mock_env(),
        &mock_info("user", &[(BASKET_DENOM, 1)]),
        ExecuteMsg::Withdraw { asset: Asset::Native("utest".to_string()) },
        None,
    );
    assert_eq!(
        res,
        Ok(vec![
            Instruction::Burn(MsgBurn {
                sender: CONTRACT.to_string(),
                amount: Coin { denom: BASKET_DENOM.to_string(), amount: "1".to_string() },
                burn_from_address: CONTRACT.to_string(),
            }),
            Instruction::BankSend { to_address: "user".to_string(), denom: "utest".to_string(), amount: 89 },
        ])
    );
    assert_eq!(store.withdrawal_tax(&"native:utest".to_string()), Some(10));
}

#[test]
fn withdraw_accrues_taxes_across_withdrawals() {
    let mut store = admin_store();
    add(&mut store, Component { token: Asset::Cw20("token".to_string()), weight: one_percent(), withdrawal_tax: 1000 });
    let msg = ExecuteMsg::Withdraw { asset: Asset::Cw20("token".to_string()) };
    let res = execute(&mut store, &mock_env(), &mock_info("user", &[(BASKET_DENOM, 1)]), msg.clone(), None);
    assert_eq!(res.unwrap()[1], Instruction::Cw20Transfer {
        contract_addr: "token".to_string(),
        recipient: "user".to_string(),
        amount: 89,
    });
    let res = execute(&mut store, &mock_env(), &mock_info("user", &[(BASKET_DENOM, 3)]), msg, None);
    assert_eq!(res.unwrap()[1], Instruction::Cw20Transfer {
        contract_addr: "token".to_string(),
        recipient: "user".to_string(),
        amount: 269,
    });
    assert_eq!(store.withdrawal_tax(&"cw20:token".to_string()), Some(40));
}

#[test]
fn withdraw_failures_leave_store_unchanged() {
    let mut store = admin_store();
    add(&mut store, native_component("utest", one_percent(), 1000));
    add(&mut store, native_component("uzero", Decimal::raw(0), 0));
    let env = mock_env();
    let utest = ExecuteMsg::Withdraw { asset: Asset::Native("utest".to_string()) };
    let res = execute(&mut store, &env, &mock_info("user", &[("utest", 1)]), utest.clone(), None);
    assert_eq!(res, Err(ContractError::InvalidFunds));
    let res = execute(&mut store, &env, &mock_info("user", &[]), utest.clone(), None);
    assert_eq!(res, Err(ContractError::InvalidFunds));
    let res = execute(
        &mut store,
        &env,
        &mock_info("user", &[(BASKET_DENOM, 1)]),
        ExecuteMsg::Withdraw { asset: Asset::Native("uatom".to_string()) },
        None,
    );
    assert_eq!(res, Err(ContractError::UnknownAsset));
    let res = execute(
        &mut store,
        &env,
        &mock_info("user", &[(BASKET_DENOM, 1)]),
        ExecuteMsg::Withdraw { asset: Asset::Native("uzero".to_string()) },
        None,
    );
    assert_eq!(res, Err(ContractError::Std(StdError::DivideByZero)));
    let res = execute(&mut store, &env, &mock_info("user", &[(BASKET_DENOM, 0)]), utest, None);
    assert_eq!(res, Err(ContractError::Std(StdError::Overflow)));
    assert_eq!(store.withdrawal_tax(&"native:utest".to_string()), None);
}

#[test]
fn collect_taxes_after_withdrawal_pays_admin_once() {
    let mut store = admin_store();
    add(&mut store, native_component("utest", one_percent(), 1000));
    let env = mock_env();
    let admin = mock_info("admin", &[]);
    let collect = ExecuteMsg::CollectTaxes { asset: Asset::Native("utest".to_string()) };
    let res = execute(&mut store, &env, &admin, collect.clone(), None);
    assert_eq!(res, Err(ContractError::NoTaxes));
    let res = execute(
        &mut store,
        &env,
        &mock_info("user", &[(BASKET_DENOM, 1)]),
        ExecuteMsg::Withdraw { asset: Asset::Native("utest".to_string()) },
        None,
    );
    assert!(res.is_ok());
    let res = execute(&mut store, &env, &admin, collect.clone(), None);
    assert_eq!(
        res,
        Ok(vec![Instruction::BankSend { to_address: "admin".to_string(), denom: "utest".to_string(), amount: 10 }])
    );
    let res = execute(&mut store, &env, &admin, collect, None);
    assert_eq!(res, Err(ContractError::NoTaxes));
}

#[test]
fn former_admin_loses_privileges() {
    let mut store = admin_store();
    let env = mock_env();
    let admin = mock_info("admin", &[]);
    let res = execute(&mut store, &env, &admin, ExecuteMsg::UpdateAdmin { admin: "new".to_string() }, None);
    assert_eq!(res, Ok(vec![]));
    let res = execute(
        &mut store,
        &env,
        &admin,
        ExecuteMsg::AddComponent(native_component("uosmo", one_percent(), 0)),
        None,
    );
    assert_eq!(res, Err(ContractError::Unauthorized));
    let res = execute(&mut store, &env, &admin, ExecuteMsg::UpdateAdmin { admin: "admin".to_string() }, None);
    assert_eq!(res, Err(ContractError::Unauthorized));
    let res = execute(
        &mut store,
        &env,
        &mock_info("new", &[]),
        ExecuteMsg::AddComponent(native_component("uosmo", one_percent(), 0)),
        None,
    );
    assert_eq!(res, Ok(vec![]));
}

#[test]
fn components_listed_in_ascending_key_order_and_stable() {
    let mut store = admin_store();
    add(&mut store, native_component("ub", one_percent(), 0));
    add(&mut store, Component { token: Asset::Cw20("zeta".to_string()), weight: one_percent(), withdrawal_tax: 0 });
    add(&mut store, native_component("ua", one_percent(), 0));
    add(&mut store, native_component("u", one_percent(), 0));
    let first = query(&store, QueryMsg::Components {});
    let keys: Vec<String> = first.components.iter().map(|c| c.token.key()).collect();
    assert_eq!(keys, vec!["cw20:zeta", "native:u", "native:ua", "native:ub"]);
    let res = execute(
        &mut store,
        &mock_env(),
        &mock_info("user", &[(BASKET_DENOM, 1)]),
        ExecuteMsg::Withdraw { asset: Asset::Native("ua".to_string()) },
        None,
    );
    assert!(res.is_ok());
    let second = query(&store, QueryMsg::Components {});
    assert_eq!(first, second);
}

#[test]
fn update_metadata_overlays_given_fields() {
    let mut store = admin_store();
    let msg = ExecuteMsg::UpdateMetadata(UpdateMetadataMsg {
        name: Some("new_name".to_string()),
        description: None,
        uri: Some("new_uri".to_string()),
        uri_hash: None,
    });
    let admin = mock_info("admin", &[]);
    let res = execute(&mut store, &mock_env(), &admin, msg.clone(), None);
    assert_eq!(res, Err(ContractError::Std(StdError::NotFound)));
    let res = execute(&mut store, &mock_env(), &admin, msg, Some(metadata()));
    let mut expected = metadata();
    expected.name = "new_name".to_string();
    expected.uri = "new_uri".to_string();
    assert_eq!(
        res,
        Ok(vec![Instruction::SetDenomMetadata(MsgSetDenomMetadata { sender: CONTRACT.to_string(), metadata: expected })])
    );
}

#[test]
fn instantiate_creates_token_and_publishes_metadata() {
    let (store, msgs) = instantiate(
        &mock_env(),
        &mock_info("creator", &[]),
        InstantiateMsg { admin: "admin".to_string(), metadata: metadata() },
    );
    assert_eq!(store.state().admin, "admin".to_string());
    assert!(store.components().is_empty());
    assert_eq!(
        msgs,
        vec![
            Instruction::CreateDenom(MsgCreateDenom { sender: CONTRACT.to_string(), subdenom: "amalgam".to_string() }),
            Instruction::SetDenomMetadata(MsgSetDenomMetadata { sender: CONTRACT.to_string(), metadata: metadata() }),
        ]
    );
}

#[test]
fn asset_keys() {
    assert_eq!(Asset::Native("uosmo".to_string()).key(), "native:uosmo".to_string());
    assert_eq!(Asset::Cw20("addr".to_string()).key(), "cw20:addr".to_string());
}

#[test]
fn decimal_arithmetic() {
    assert_eq!(Decimal::from_ratio(1u128, 100u128).atomics(), 10_000_000_000_000_000);
    assert_eq!(Decimal::checked_from_ratio(1, 0), None);
    assert_eq!(Decimal::checked_from_ratio(u128::MAX, 1), None);
    assert_eq!(Decimal::checked_from_ratio(3, 4), Some(Decimal::raw(750_000_000_000_000_000)));
    assert_eq!(mul_floor(7, Decimal::from_ratio(1u128, 2u128)), Some(3));
    assert_eq!(mul_floor(u128::MAX, Decimal::from_ratio(2u128, 1u128)), None);
    assert_eq!(div_floor(7, Decimal::from_ratio(2u128, 3u128)), Some(10));
    assert_eq!(div_floor(7, Decimal::raw(0)), None);
}
