//! The operations of the whitelisting minter. What a call needs to know from
//! other contracts is handed in by the host: the buyer's holdings of the
//! listed assets, the feed's price, the minter's balance.

use crate::chain::{coins_view, CoinView, Env, MessageInfo, Reply};
use crate::cosmwasm::covers;
use crate::minter::error::ContractError;
use crate::minter::msg::{ExecuteMsg, InstantiateMsg, QueryMsg, QueryResponse, Response};
use crate::minter_with_whitelist::state::{
    with_assets, without_assets, Asset, AssetType, AssetTypeView, AssetView, Requirement,
    RequirementAssets, RequirementAssetsView, WhitelistState, WhitelistView,
};
use vstd::prelude::*;

verus! {

/// How many of the listed assets a buyer must hold.
pub open spec fn required_count(requirement: RequirementAssetsView) -> nat {
    match requirement.required {
        Requirement::All {  } => requirement.assets.len(),
        Requirement::Any { at_least } => at_least as nat,
    }
}

/// Whether a buyer with the holding `holding` holds `asset`. Of a token it
/// takes at least the listed amount. Of a collection it takes exactly the
/// listed number of items, where `holding` counts the buyer's items up to
/// that number.
pub open spec fn is_held(asset: AssetView, holding: u128) -> bool {
    match asset.asset_type {
        AssetTypeView::CW721Token { .. } => holding == asset.amount,
        _ => holding >= asset.amount,
    }
}

/// How many of the first `k` assets are held.
pub open spec fn matched(assets: Seq<AssetView>, holdings: Seq<u128>, k: int) -> nat
    decreases k,
{
    if k <= 0 {
        0
    } else {
        matched(assets, holdings, k - 1) + if is_held(assets[k - 1], holdings[k - 1]) {
            1nat
        } else {
            0nat
        }
    }
}

/// Where a check of the whitelist stands.
#[derive(Clone, Copy, Debug, PartialEq, Eq, Structural)]
pub enum RequirementCheck {
    /// The holdings looked at meet the requirement.
    Satisfied,
    /// All assets were looked at and the requirement was never met.
    Mismatched,
    /// The holding of the asset at `next` is needed to go on.
    Undecided { next: usize },
}

/// The verdict on the holdings known so far. The assets are looked at in
/// order, and the check is satisfied as soon as the number of assets held
/// among those looked at equals the required count. The count is compared
/// after each asset and never before the first.
pub open spec fn requirement_check(
    requirement: RequirementAssetsView,
    holdings: Seq<u128>,
) -> RequirementCheck {
    let known = if holdings.len() < requirement.assets.len() {
        holdings.len()
    } else {
        requirement.assets.len()
    };
    if exists|k: int|
        1 <= k <= known && #[trigger] matched(requirement.assets, holdings, k) == required_count(
            requirement,
        ) {
        RequirementCheck::Satisfied
    } else if holdings.len() < requirement.assets.len() {
        RequirementCheck::Undecided { next: holdings.len() as usize }
    } else {
        RequirementCheck::Mismatched
    }
}

/// Whether a buyer with the holding `holding` holds `asset`.
pub fn asset_is_held(asset: &Asset, holding: u128) -> (res: bool)
    ensures
        res == is_held(asset@, holding),
{
    match asset.asset_type {
        AssetType::CW721Token { .. } => holding == asset.amount,
        _ => holding >= asset.amount,
    }
}

/// Looks at the listed assets in order against `holdings`, where
/// `holdings[i]` is the buyer's holding of the asset at `i`, and says where
/// the check stands. With fewer holdings than assets the check may ask for
/// the next one.
pub fn check_requirement_assets(
    requirement_assets: &RequirementAssets,
    holdings: &Vec<u128>,
) -> (res: RequirementCheck)
    ensures
        res == requirement_check(requirement_assets@, holdings@),
{
    let requirement: usize = match requirement_assets.required {
        Requirement::All {  } => requirement_assets.assets.len(),
        Requirement::Any { at_least } => at_least as usize,
    };
    let ghost assets = requirement_assets@.assets;
    let mut count: usize = 0;
    let mut i: usize = 0;
    while i < requirement_assets.assets.len()
        invariant
            i <= requirement_assets.assets.len(),
            i <= holdings.len(),
            assets == requirement_assets@.assets,
            requirement == required_count(requirement_assets@),
            count == matched(assets, holdings@, i as int),
            count <= i,
            forall|k: int|
                1 <= k <= i ==> #[trigger] matched(assets, holdings@, k) != required_count(
                    requirement_assets@,
                ),
        decreases requirement_assets.assets.len() - i,
    {
        if i >= holdings.len() {
            return RequirementCheck::Undecided { next: i };
        }
        assert(assets[i as int] == requirement_assets.assets[i as int]@);
        if asset_is_held(&requirement_assets.assets[i], holdings[i]) {
            count += 1;
        }
        i += 1;
        assert(count == matched(assets, holdings@, i as int));
        if count == requirement {
            return RequirementCheck::Satisfied;
        }
    }
    RequirementCheck::Mismatched
}

/// Whether `error` is the refusal of a buyer who does not meet the
/// requirement.
pub open spec fn is_requirement_mismatch(error: ContractError) -> bool {
    error matches ContractError::CustomError { val } && val@ == "Requirement mismatched"@
}

/// Whether a buyer with these holdings meets the requirement; a custom error
/// with the text "Requirement mismatched" where the check is not satisfied,
/// be it mismatched or undecided.
pub fn assert_requirement_assets(
    requirement_assets: &RequirementAssets,
    holdings: &Vec<u128>,
) -> (res: Result<(), ContractError>)
    ensures
        match res {
            Ok(_) => requirement_check(requirement_assets@, holdings@)
                == RequirementCheck::Satisfied,
            Err(e) => is_requirement_mismatch(e) && requirement_check(
                requirement_assets@,
                holdings@,
            ) != RequirementCheck::Satisfied,
        },
{
    match check_requirement_assets(requirement_assets, holdings) {
        RequirementCheck::Satisfied => Ok(()),
        _ => Err(ContractError::CustomError { val: "Requirement mismatched".to_string() }),
    }
}

/// A whitelisting minter owned by the sender, with an empty whitelist of
/// which all is required, and the request to instantiate its token.
pub fn instantiate(env: Env, info: MessageInfo, msg: InstantiateMsg) -> (res: (
    WhitelistState,
    Response,
))
    ensures
        res.0@.requirement_assets == (RequirementAssetsView {
            assets: Seq::<AssetView>::empty(),
            required: Requirement::All {  },
        }),
        crate::minter::contract::instantiate_ensures(env, info, msg, res.0.minter, res.1),
{
    let (minter, response) = crate::minter::contract::instantiate(env, info, msg);
    let requirement_assets = RequirementAssets {
        assets: Vec::new(),
        required: Requirement::All {  },
    };
    assert(requirement_assets@.assets =~= Seq::<AssetView>::empty());
    (WhitelistState { minter, requirement_assets }, response)
}

/// Runs the operation that `msg` asks for. `holdings` are the buyer's
/// holdings of the listed assets, in the order of the list; they count for an
/// exchange only. `queried` is what the host read for the operation: for an
/// exchange the latest answer of the price feed, for a withdrawal the
/// minter's balance of the accepted coin.
pub fn execute(
    deps: &WhitelistState,
    env: Env,
    info: MessageInfo,
    msg: ExecuteMsg,
    holdings: &Vec<u128>,
    queried: u128,
) -> (res: Result<Response, ContractError>)
    requires
        msg matches ExecuteMsg::Exchange { amount, .. } ==> exchange_defined(
            deps@,
            coins_view(info.funds@),
            amount,
            holdings@,
            queried,
        ),
    ensures
        match msg {
            ExecuteMsg::Exchange { amount, expected_received } => execute_exchange_ensures(
                deps@,
                coins_view(info.funds@),
                amount,
                expected_received,
                holdings@,
                queried,
                res,
            ),
            ExecuteMsg::Withdraw {  } => crate::minter::contract::execute_withdraw_ensures(
                deps@.minter,
                info.sender@,
                queried,
                res,
            ),
        },
{
    match msg {
        ExecuteMsg::Exchange { amount, expected_received } => execute_exchange(
            deps,
            env,
            info,
            amount,
            expected_received,
            holdings,
            queried,
        ),
        ExecuteMsg::Withdraw {  } => execute_withdraw(deps, env, info, queried),
    }
}

/// Answers the read that `msg` asks for, as the plain minter does.
pub fn query(deps: &WhitelistState, env: Env, msg: QueryMsg) -> (res: QueryResponse)
    ensures
        match msg {
            QueryMsg::Owner {  } => res matches QueryResponse::Owner(owner) && owner@
                == deps@.minter.owner,
            QueryMsg::Receiver {  } => res matches QueryResponse::Receiver(receiver)
                && receiver.name@ == deps@.minter.receiver_name && receiver.address@
                == deps@.minter.receiver_address,
            QueryMsg::ExchangingInfo {  } => res matches QueryResponse::ExchangingInfo(info)
                && info.accepted_denom@ == deps@.minter.accepted_denom && info.token_address@
                == deps@.minter.token_address && info.price_feed@ == deps@.minter.price_feed,
        },
{
    crate::minter::contract::query(&deps.minter, env, msg)
}

/// Records the validated address `token_address` of the token contract whose
/// instantiation `msg` reports, as the plain minter does. The whitelist stays
/// as it is.
pub fn reply(
    deps: &mut WhitelistState,
    env: Env,
    msg: Reply,
    token_address: String,
) -> (res: Result<Response, ContractError>)
    ensures
        final(deps)@.requirement_assets == old(deps)@.requirement_assets,
        crate::minter::contract::reply_ensures(
            old(deps)@.minter,
            msg,
            token_address@,
            final(deps)@.minter,
            res,
        ),
{
    crate::minter::contract::reply(&mut deps.minter, env, msg, token_address)
}

/// An exchange is defined where the product of amount and price, once it is
/// looked at, fits the amount type.
pub open spec fn exchange_defined(
    state: WhitelistView,
    funds: Seq<CoinView>,
    amount: u128,
    holdings: Seq<u128>,
    answer: u128,
) -> bool {
    covers(funds, CoinView { denom: state.minter.accepted_denom, amount }) && requirement_check(
        state.requirement_assets,
        holdings,
    ) == RequirementCheck::Satisfied ==> amount * answer <= u128::MAX
}

/// Whether an exchange of `amount` at the price `answer`, for a buyer with
/// the holdings `holdings`, is defined.
pub fn exchange_is_defined(
    deps: &WhitelistState,
    info: &MessageInfo,
    amount: u128,
    holdings: &Vec<u128>,
    answer: u128,
) -> (res: bool)
    ensures
        res == exchange_defined(deps@, coins_view(info.funds@), amount, holdings@, answer),
{
    match crate::minter::contract::assert_funds(&deps.minter, info, amount) {
        Ok(_) => match check_requirement_assets(&deps.requirement_assets, holdings) {
            RequirementCheck::Satisfied => amount.checked_mul(answer).is_some(),
            _ => true,
        },
        Err(_) => true,
    }
}

/// What `execute_exchange` promises. Funds that do not cover the amount are
/// refused first, then a buyer who does not meet the requirement. After that
/// the exchange goes as that of the plain minter.
pub open spec fn execute_exchange_ensures(
    state: WhitelistView,
    funds: Seq<CoinView>,
    amount: u128,
    expected_received: u128,
    holdings: Seq<u128>,
    answer: u128,
    res: Result<Response, ContractError>,
) -> bool {
    if !covers(funds, CoinView { denom: state.minter.accepted_denom, amount }) {
        res matches Err(e) && e == ContractError::NotEnoughFunds
    } else if requirement_check(state.requirement_assets, holdings)
        != RequirementCheck::Satisfied {
        res matches Err(e) && is_requirement_mismatch(e)
    } else {
        crate::minter::contract::execute_exchange_ensures(
            state.minter,
            funds,
            amount,
            expected_received,
            answer,
            res,
        )
    }
}

/// Exchanges `amount` of the accepted coin, sent with the message, for
/// `expected_received` of the stable token at the price `answer`, for a buyer
/// whose holdings of the listed assets are `holdings`.
pub fn execute_exchange(
    deps: &WhitelistState,
    env: Env,
    info: MessageInfo,
    amount: u128,
    expected_received: u128,
    holdings: &Vec<u128>,
    answer: u128,
) -> (res: Result<Response, ContractError>)
    requires
        exchange_defined(deps@, coins_view(info.funds@), amount, holdings@, answer),
    ensures
        execute_exchange_ensures(
            deps@,
            coins_view(info.funds@),
            amount,
            expected_received,
            holdings@,
            answer,
            res,
        ),
{
    match crate::minter::contract::assert_funds(&deps.minter, &info, amount) {
        Ok(_) => {},
        Err(e) => {
            return Err(e);
        },
    }
    match assert_requirement_assets(&deps.requirement_assets, holdings) {
        Ok(_) => {},
        Err(e) => {
            return Err(e);
        },
    }
    crate::minter::contract::execute_exchange(
        &deps.minter,
        env,
        info,
        amount,
        expected_received,
        answer,
    )
}

/// Sends `balance`, the minter's whole balance of the accepted coin, to the
/// owner. Only the owner may ask for it.
pub fn execute_withdraw(
    deps: &WhitelistState,
    env: Env,
    info: MessageInfo,
    balance: u128,
) -> (res: Result<Response, ContractError>)
    ensures
        crate::minter::contract::execute_withdraw_ensures(
            deps@.minter,
            info.sender@,
            balance,
            res,
        ),
{
    crate::minter::contract::execute_withdraw(&deps.minter, env, info, balance)
}

/// The owner's address.
pub fn query_owner(deps: &WhitelistState) -> (res: String)
    ensures
        res@ == deps@.minter.owner,
{
    crate::minter::contract::query_owner(&deps.minter)
}

/// The receiver's name and wallet.
pub fn query_receiver(deps: &WhitelistState) -> (res: crate::minter::msg::ReceiverResponse)
    ensures
        res.name@ == deps@.minter.receiver_name,
        res.address@ == deps@.minter.receiver_address,
{
    crate::minter::contract::query_receiver(&deps.minter)
}

/// The accepted coin, the token and the price feed.
pub fn query_exchanging_info(
    deps: &WhitelistState,
) -> (res: crate::minter::msg::ExchangingInfoResponse)
    ensures
        res.accepted_denom@ == deps@.minter.accepted_denom,
        res.token_address@ == deps@.minter.token_address,
        res.price_feed@ == deps@.minter.price_feed,
{
    crate::minter::contract::query_exchanging_info(&deps.minter)
}

/// Sets each of `assets` on the whitelist, in order. Only the owner may do
/// so; anyone else is refused and the whitelist stays as it is.
pub fn add_requirement_assets(
    deps: &mut WhitelistState,
    _env: Env,
    info: MessageInfo,
    assets: Vec<Asset>,
) -> (res: Result<(), ContractError>)
    ensures
        final(deps)@.minter == old(deps)@.minter,
        final(deps)@.requirement_assets.required == old(deps)@.requirement_assets.required,
        if info.sender@ == old(deps)@.minter.owner {
            &&& res is Ok
            &&& final(deps)@.requirement_assets.assets == with_assets(
                old(deps)@.requirement_assets.assets,
                assets@.map_values(|a: Asset| a@),
            )
        } else {
            &&& res matches Err(e)
            &&& e == ContractError::Unauthorized
            &&& final(deps)@ == old(deps)@
        },
{
    if info.sender != deps.minter.config.owner {
        return Err(ContractError::Unauthorized);
    }
    let ghost views = assets@.map_values(|a: Asset| a@);
    let mut i: usize = 0;
    proof {
        assert(views.take(0) =~= Seq::<AssetView>::empty());
    }
    while i < assets.len()
        invariant
            i <= assets.len(),
            views == assets@.map_values(|a: Asset| a@),
            deps@.minter == old(deps)@.minter,
            deps@.requirement_assets.required == old(deps)@.requirement_assets.required,
            deps@.requirement_assets.assets == with_assets(
                old(deps)@.requirement_assets.assets,
                views.take(i as int),
            ),
        decreases assets.len() - i,
    {
        proof {
            let next = views.take(i + 1);
            assert(next.drop_last() =~= views.take(i as int));
            assert(next.last() == assets[i as int]@);
        }
        deps.requirement_assets.update_asset(assets[i].clone());
        i += 1;
    }
    proof {
        assert(views.take(assets.len() as int) =~= views);
    }
    Ok(())
}

/// Takes every entry that names one of `asset_types` off the whitelist. Only
/// the owner may do so; anyone else is refused and the whitelist stays as it
/// is.
pub fn remove_asset_types(
    deps: &mut WhitelistState,
    _env: Env,
    info: MessageInfo,
    asset_types: Vec<AssetType>,
) -> (res: Result<(), ContractError>)
    ensures
        final(deps)@.minter == old(deps)@.minter,
        final(deps)@.requirement_assets.required == old(deps)@.requirement_assets.required,
        if info.sender@ == old(deps)@.minter.owner {
            &&& res is Ok
            &&& final(deps)@.requirement_assets.assets == without_assets(
                old(deps)@.requirement_assets.assets,
                asset_types@.map_values(|t: AssetType| t@),
            )
        } else {
            &&& res matches Err(e)
            &&& e == ContractError::Unauthorized
            &&& final(deps)@ == old(deps)@
        },
{
    if info.sender != deps.minter.config.owner {
        return Err(ContractError::Unauthorized);
    }
    let ghost views = asset_types@.map_values(|t: AssetType| t@);
    let mut i: usize = 0;
    proof {
        assert(views.take(0) =~= Seq::<AssetTypeView>::empty());
    }
    while i < asset_types.len()
        invariant
            i <= asset_types.len(),
            views == asset_types@.map_values(|t: AssetType| t@),
            deps@.minter == old(deps)@.minter,
            deps@.requirement_assets.required == old(deps)@.requirement_assets.required,
            deps@.requirement_assets.assets == without_assets(
                old(deps)@.requirement_assets.assets,
                views.take(i as int),
            ),
        decreases asset_types.len() - i,
    {
        proof {
            let next = views.take(i + 1);
            assert(next.drop_last() =~= views.take(i as int));
            assert(next.last() == asset_types[i as int]@);
        }
        deps.requirement_assets.remove_asset(asset_types[i].clone());
        i += 1;
    }
    proof {
        assert(views.take(asset_types.len() as int) =~= views);
    }
    Ok(())
}

} // verus!
