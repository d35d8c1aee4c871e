use price_oracle::chain::{BlockInfo, Coin, ContractInfo, Env, MessageInfo, Reply, SubMsgResponse};
use price_oracle::minter::error::ContractError;
use price_oracle::minter_with_whitelist::contract::{
    add_requirement_assets, assert_requirement_assets, asset_is_held, check_requirement_assets,
    exchange_is_defined, execute, execute_exchange, execute_withdraw, instantiate, query,
    query_exchanging_info, query_owner, query_receiver, remove_asset_types, reply,
    RequirementCheck,
};
use price_oracle::minter_with_whitelist::msg::{
    ExecuteMsg, InstantiateMsg, QueryMsg, QueryResponse, Response,
};
use price_oracle::minter_with_whitelist::state::{
    Asset, AssetType, Requirement, RequirementAssets, WhitelistState,
};
use price_oracle::token::TokenInstantiateMsg;

const ADMIN: &str = "aura1000000000000000000000000000000000admin";
const USER1: &str = "aura1000000000000000000000000000000000user1";
const AURA: &str = "aura10000000000000000000000000000000000aura";
const NATIVE_DENOM: &str = "uaura";
const MINTER: &str = "contract1";
const TOKEN: &str = "contract2";

fn env() -> Env {
    Env {
        block: BlockInfo { height: 12345, time: 1_571_797_419_879_305_533 },
        contract: ContractInfo { address: MINTER.to_string() },
    }
}

fn from(sender: &str, funds: Vec<Coin>) -> MessageInfo {
    MessageInfo { sender: sender.to_string(), funds }
}

fn coins(amount: u128, denom: &str) -> Vec<Coin> {
    vec![Coin { denom: denom.to_string(), amount }]
}

fn native(denom: &str, amount: u128) -> Asset {
    Asset { asset_type: AssetType::NativeToken { denom: denom.to_string() }, amount }
}

fn cw20(address: &str, amount: u128) -> Asset {
    Asset { asset_type: AssetType::CW20Token { cw20_address: address.to_string() }, amount }
}

fn cw721(address: &str, amount: u128) -> Asset {
    Asset { asset_type: AssetType::CW721Token { cw721_address: address.to_string() }, amount }
}

fn list(assets: Vec<Asset>, required: Requirement) -> RequirementAssets {
    RequirementAssets { assets, required }
}

fn whitelist_minter() -> WhitelistState {
    let (mut deps, _) = instantiate(
        env(),
        from(ADMIN, vec![]),
        InstantiateMsg {
            receiver_name: "aura".to_string(),
            receiver_address: AURA.to_string(),
            accepted_denom: NATIVE_DENOM.to_string(),
            price_feed: "contract0".to_string(),
            token_code_id: 3,
            token_instantiation_msg: TokenInstantiateMsg {
                name: "Stable Token".to_string(),
                symbol: "STV".to_string(),
                decimals: 6,
                initial_balances: vec![],
                mint: None,
            },
        },
    );
    let msg = Reply { id: 1, result: Ok(SubMsgResponse { data: None }) };
    reply(&mut deps, env(), msg, TOKEN.to_string()).unwrap();
    deps
}

#[test]
fn update_asset_sets_the_first_entry_or_appends() {
    let mut requirement = list(vec![], Requirement::All {});
    requirement.update_asset(native("uaura", 5));
    requirement.update_asset(cw20("uaura", 6));
    requirement.update_asset(cw721("uaura", 7));
    assert_eq!(
        requirement.assets,
        vec![native("uaura", 5), cw20("uaura", 6), cw721("uaura", 7)]
    );
    // the same kind and name: the amount is replaced in place
    requirement.update_asset(cw20("uaura", 60));
    assert_eq!(
        requirement.assets,
        vec![native("uaura", 5), cw20("uaura", 60), cw721("uaura", 7)]
    );
    // another name of the same kind is another asset
    requirement.update_asset(cw20("utaura", 1));
    assert_eq!(requirement.assets.len(), 4);
    assert_eq!(requirement.assets[3], cw20("utaura", 1));
    assert_eq!(requirement.required, Requirement::All {});
}

#[test]
fn update_asset_touches_only_the_first_of_several_entries() {
    let mut requirement =
        list(vec![native("a", 1), native("b", 2), native("a", 3)], Requirement::Any {
            at_least: 1,
        });
    requirement.update_asset(native("a", 9));
    assert_eq!(requirement.assets, vec![native("a", 9), native("b", 2), native("a", 3)]);
    assert_eq!(requirement.required, Requirement::Any { at_least: 1 });
}

#[test]
fn remove_asset_drops_every_entry_of_the_asset() {
    let mut requirement = list(
        vec![native("a", 1), cw20("a", 2), native("b", 3), native("a", 4), cw721("a", 5)],
        Requirement::All {},
    );
    requirement.remove_asset(AssetType::NativeToken { denom: "a".to_string() });
    assert_eq!(requirement.assets, vec![cw20("a", 2), native("b", 3), cw721("a", 5)]);
    requirement.remove_asset(AssetType::NativeToken { denom: "a".to_string() });
    assert_eq!(requirement.assets.len(), 3);
    requirement.remove_asset(AssetType::CW721Token { cw721_address: "a".to_string() });
    requirement.remove_asset(AssetType::CW20Token { cw20_address: "a".to_string() });
    requirement.remove_asset(AssetType::NativeToken { denom: "b".to_string() });
    assert_eq!(requirement.assets, vec![]);
    requirement.remove_asset(AssetType::NativeToken { denom: "b".to_string() });
    assert_eq!(requirement.assets, vec![]);
}

#[test]
fn same_asset_compares_kind_and_name() {
    let a = AssetType::NativeToken { denom: "x".to_string() };
    assert!(a.same_asset(&AssetType::NativeToken { denom: "x".to_string() }));
    assert!(!a.same_asset(&AssetType::NativeToken { denom: "y".to_string() }));
    assert!(!a.same_asset(&AssetType::CW20Token { cw20_address: "x".to_string() }));
    assert!(!a.same_asset(&AssetType::CW721Token { cw721_address: "x".to_string() }));
    assert_eq!(a.clone(), a);
    assert_eq!(cw721("c", 3).clone(), cw721("c", 3));
}

#[test]
fn a_token_is_held_from_the_amount_on_a_collection_at_the_number() {
    assert!(asset_is_held(&native("a", 5), 5));
    assert!(asset_is_held(&native("a", 5), 6));
    assert!(!asset_is_held(&native("a", 5), 4));
    assert!(asset_is_held(&cw20("a", 5), 5));
    assert!(asset_is_held(&cw20("a", 5), u128::MAX));
    assert!(!asset_is_held(&cw20("a", 5), 0));
    assert!(asset_is_held(&cw721("a", 2), 2));
    assert!(!asset_is_held(&cw721("a", 2), 1));
    assert!(!asset_is_held(&cw721("a", 2), 3));
    assert!(asset_is_held(&native("a", 0), 0));
}

#[test]
fn all_assets_required() {
    let requirement = list(vec![native("a", 5), cw20("b", 5), cw721("c", 1)], Requirement::All {});
    assert_eq!(check_requirement_assets(&requirement, &vec![5, 5, 1]), RequirementCheck::Satisfied);
    assert_eq!(
        check_requirement_assets(&requirement, &vec![5, 4, 1]),
        RequirementCheck::Mismatched
    );
    assert_eq!(
        check_requirement_assets(&requirement, &vec![5, 5, 2]),
        RequirementCheck::Mismatched
    );
    assert_eq!(assert_requirement_assets(&requirement, &vec![9, 9, 1]), Ok(()));
    assert_eq!(
        assert_requirement_assets(&requirement, &vec![0, 9, 1]),
        Err(ContractError::CustomError { val: "Requirement mismatched".to_string() })
    );
}

#[test]
fn some_assets_required() {
    let requirement =
        list(vec![native("a", 5), cw20("b", 5), cw721("c", 1)], Requirement::Any { at_least: 2 });
    assert_eq!(check_requirement_assets(&requirement, &vec![5, 5, 0]), RequirementCheck::Satisfied);
    assert_eq!(check_requirement_assets(&requirement, &vec![0, 5, 1]), RequirementCheck::Satisfied);
    assert_eq!(
        check_requirement_assets(&requirement, &vec![0, 5, 0]),
        RequirementCheck::Mismatched
    );
    // the check is satisfied at the second asset, whatever comes after
    assert_eq!(check_requirement_assets(&requirement, &vec![5, 5]), RequirementCheck::Satisfied);
    assert_eq!(check_requirement_assets(&requirement, &vec![5, 5, 1]), RequirementCheck::Satisfied);
}

#[test]
fn the_check_asks_for_holdings_one_at_a_time() {
    let requirement =
        list(vec![native("a", 5), cw20("b", 5), cw721("c", 1)], Requirement::Any { at_least: 2 });
    assert_eq!(
        check_requirement_assets(&requirement, &vec![]),
        RequirementCheck::Undecided { next: 0 }
    );
    assert_eq!(
        check_requirement_assets(&requirement, &vec![5]),
        RequirementCheck::Undecided { next: 1 }
    );
    assert_eq!(
        check_requirement_assets(&requirement, &vec![5, 0]),
        RequirementCheck::Undecided { next: 2 }
    );
    assert_eq!(
        assert_requirement_assets(&requirement, &vec![5, 0]),
        Err(ContractError::CustomError { val: "Requirement mismatched".to_string() })
    );
    // holdings beyond the list do not count
    assert_eq!(
        check_requirement_assets(&requirement, &vec![5, 0, 0, 7, 7]),
        RequirementCheck::Mismatched
    );
}

#[test]
fn the_count_is_compared_after_each_asset_and_never_before_the_first() {
    // nothing listed: nothing is ever compared
    let empty = list(vec![], Requirement::All {});
    assert_eq!(check_requirement_assets(&empty, &vec![]), RequirementCheck::Mismatched);
    let none_needed = list(vec![], Requirement::Any { at_least: 0 });
    assert_eq!(check_requirement_assets(&none_needed, &vec![]), RequirementCheck::Mismatched);
    // none needed: satisfied at the first asset only if that one is not held
    let zero = list(vec![native("a", 5), native("b", 5)], Requirement::Any { at_least: 0 });
    assert_eq!(check_requirement_assets(&zero, &vec![0, 0]), RequirementCheck::Satisfied);
    assert_eq!(check_requirement_assets(&zero, &vec![0]), RequirementCheck::Satisfied);
    assert_eq!(check_requirement_assets(&zero, &vec![5, 0]), RequirementCheck::Mismatched);
    assert_eq!(check_requirement_assets(&zero, &vec![5, 5]), RequirementCheck::Mismatched);
    // more needed than listed
    let many = list(vec![native("a", 5)], Requirement::Any { at_least: 2 });
    assert_eq!(check_requirement_assets(&many, &vec![5]), RequirementCheck::Mismatched);
}

#[test]
fn a_fresh_minter_lists_nothing_and_requires_all() {
    let deps = whitelist_minter();
    assert_eq!(deps.requirement_assets, list(vec![], Requirement::All {}));
    assert_eq!(deps.minter.config.owner, ADMIN);
    assert_eq!(deps.minter.exchanging_info.token_address, TOKEN);
    let res = execute_exchange(
        &deps,
        env(),
        from(USER1, coins(50, NATIVE_DENOM)),
        50,
        500,
        &vec![],
        10,
    );
    assert_eq!(res, Err(ContractError::CustomError { val: "Requirement mismatched".to_string() }));
}

#[test]
fn only_the_owner_changes_the_whitelist() {
    let mut deps = whitelist_minter();
    let res =
        add_requirement_assets(&mut deps, env(), from(USER1, vec![]), vec![native("uaura", 5)]);
    assert_eq!(res, Err(ContractError::Unauthorized));
    assert_eq!(deps.requirement_assets.assets, vec![]);

    let res = add_requirement_assets(
        &mut deps,
        env(),
        from(ADMIN, vec![]),
        vec![native("uaura", 5), cw20("token", 6), native("uaura", 7)],
    );
    assert_eq!(res, Ok(()));
    assert_eq!(deps.requirement_assets.assets, vec![native("uaura", 7), cw20("token", 6)]);

    let res = remove_asset_types(
        &mut deps,
        env(),
        from(USER1, vec![]),
        vec![AssetType::NativeToken { denom: "uaura".to_string() }],
    );
    assert_eq!(res, Err(ContractError::Unauthorized));
    assert_eq!(deps.requirement_assets.assets.len(), 2);

    let res = remove_asset_types(
        &mut deps,
        env(),
        from(ADMIN, vec![]),
        vec![
            AssetType::NativeToken { denom: "uaura".to_string() },
            AssetType::CW721Token { cw721_address: "token".to_string() },
        ],
    );
    assert_eq!(res, Ok(()));
    assert_eq!(deps.requirement_assets.assets, vec![cw20("token", 6)]);
    assert_eq!(deps.requirement_assets.required, Requirement::All {});
}

#[test]
fn exchange_takes_funds_then_holdings_then_price() {
    let mut deps = whitelist_minter();
    add_requirement_assets(
        &mut deps,
        env(),
        from(ADMIN, vec![]),
        vec![native("uaura", 5), cw721("nft", 1)],
    )
    .unwrap();

    let res = execute_exchange(
        &deps,
        env(),
        from(USER1, coins(49, NATIVE_DENOM)),
        50,
        500,
        &vec![0, 0],
        10,
    );
    assert_eq!(res, Err(ContractError::NotEnoughFunds));
    let res = execute_exchange(
        &deps,
        env(),
        from(USER1, coins(50, NATIVE_DENOM)),
        50,
        501,
        &vec![5, 0],
        10,
    );
    assert_eq!(res, Err(ContractError::CustomError { val: "Requirement mismatched".to_string() }));
    let res = execute_exchange(
        &deps,
        env(),
        from(USER1, coins(50, NATIVE_DENOM)),
        50,
        501,
        &vec![5, 1],
        10,
    );
    assert_eq!(res, Err(ContractError::ExpectedReceivedNotMatched));
    let res = execute(
        &deps,
        env(),
        from(USER1, coins(50, NATIVE_DENOM)),
        ExecuteMsg::Exchange { amount: 50, expected_received: 500 },
        &vec![5, 1],
        10,
    );
    assert_eq!(
        res,
        Ok(Response::Mint {
            contract_addr: TOKEN.to_string(),
            recipient: AURA.to_string(),
            amount: 500,
        })
    );
}

#[test]
fn exchange_is_defined_where_the_product_is_formed_and_fits() {
    let mut deps = whitelist_minter();
    add_requirement_assets(&mut deps, env(), from(ADMIN, vec![]), vec![native("uaura", 5)])
        .unwrap();
    let paid = from(USER1, coins(u128::MAX, NATIVE_DENOM));
    assert!(exchange_is_defined(&deps, &paid, 2, &vec![5], u128::MAX / 2));
    assert!(!exchange_is_defined(&deps, &paid, 2, &vec![5], u128::MAX));
    // a buyer who is refused never gets to the product
    assert!(exchange_is_defined(&deps, &paid, 2, &vec![4], u128::MAX));
    assert!(exchange_is_defined(&deps, &from(USER1, vec![]), 2, &vec![5], u128::MAX));
}

#[test]
fn withdraw_and_queries_go_as_with_the_plain_minter() {
    let deps = whitelist_minter();
    assert_eq!(
        execute_withdraw(&deps, env(), from(USER1, vec![]), 9),
        Err(ContractError::Unauthorized)
    );
    assert_eq!(
        execute(&deps, env(), from(ADMIN, vec![]), ExecuteMsg::Withdraw {}, &vec![], 9),
        Ok(Response::Send {
            to_address: ADMIN.to_string(),
            denom: NATIVE_DENOM.to_string(),
            amount: 9
        })
    );
    assert_eq!(query_owner(&deps), ADMIN);
    assert_eq!(query_receiver(&deps).address, AURA);
    assert_eq!(query_exchanging_info(&deps).token_address, TOKEN);
    assert_eq!(query(&deps, env(), QueryMsg::Owner {}), QueryResponse::Owner(ADMIN.to_string()));
}

#[test]
fn reply_keeps_the_whitelist() {
    let mut deps = whitelist_minter();
    add_requirement_assets(&mut deps, env(), from(ADMIN, vec![]), vec![native("uaura", 5)])
        .unwrap();
    let msg = Reply { id: 7, result: Ok(SubMsgResponse { data: None }) };
    assert_eq!(reply(&mut deps, env(), msg, "other".to_string()), Err(ContractError::Unauthorized));
    assert_eq!(deps.minter.exchanging_info.token_address, TOKEN);
    let msg = Reply { id: 1, result: Ok(SubMsgResponse { data: None }) };
    assert!(reply(&mut deps, env(), msg, "other".to_string()).is_ok());
    assert_eq!(deps.minter.exchanging_info.token_address, "other");
    assert_eq!(deps.requirement_assets.assets, vec![native("uaura", 5)]);
}
