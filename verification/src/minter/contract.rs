//! The operations of the minter. What a call needs to know from other
//! contracts, the feed's price and the minter's balance, is handed in by the
//! host.

use crate::chain::{coins_view, Coin, CoinView, Env, MessageInfo, Reply};
use crate::cosmwasm::{
    covers, has_coins, instantiate_response_address, parse_reply_instantiate_data,
};
use crate::minter::error::ContractError;
use crate::minter::msg::{
    ExchangingInfoResponse, ExecuteMsg, InstantiateMsg, QueryMsg, QueryResponse, ReceiverResponse,
    Response, INSTANTIATE_TOKEN_REPLY_ID,
};
use crate::minter::state::{Config, ExchangingInfo, MinterState, MinterView};
use crate::token::{MinterResponse, TokenInstantiateMsg};
use vstd::prelude::*;

verus! {

/// What `instantiate` promises of the state and of the request it returns.
pub open spec fn instantiate_ensures(
    env: Env,
    info: MessageInfo,
    msg: InstantiateMsg,
    state: MinterState,
    response: Response,
) -> bool {
    &&& state@ == (MinterView {
        owner: info.sender@,
        receiver_name: msg.receiver_name@,
        accepted_denom: msg.accepted_denom@,
        receiver_address: msg.receiver_address@,
        token_address: "default"@,
        price_feed: msg.price_feed@,
    })
    &&& response matches Response::InstantiateToken { admin, code_id, msg: token, reply_id }
    &&& admin@ == info.sender@
    &&& code_id == msg.token_code_id
    &&& reply_id == INSTANTIATE_TOKEN_REPLY_ID
    &&& token.name == msg.token_instantiation_msg.name
    &&& token.symbol == msg.token_instantiation_msg.symbol
    &&& token.decimals == msg.token_instantiation_msg.decimals
    &&& token.initial_balances == msg.token_instantiation_msg.initial_balances
    &&& token.mint matches Some(mint)
    &&& mint.minter@ == env.contract.address@
    &&& mint.cap is None
}

/// A minter owned by the sender, and the request to instantiate its token.
/// The token named in the state is a placeholder until the reply comes. The
/// token is instantiated as `msg.token_instantiation_msg` says, except that
/// the minter makes itself the only account that may mint, without a cap.
pub fn instantiate(env: Env, info: MessageInfo, msg: InstantiateMsg) -> (res: (
    MinterState,
    Response,
))
    ensures
        instantiate_ensures(env, info, msg, res.0, res.1),
{
    let config = Config { owner: info.sender.clone(), receiver_name: msg.receiver_name };
    let receiver_info = ExchangingInfo {
        accepted_denom: msg.accepted_denom,
        receiver_address: msg.receiver_address,
        token_address: "default".to_string(),
        price_feed: msg.price_feed,
    };
    let new_token_instantiation_msg = TokenInstantiateMsg {
        name: msg.token_instantiation_msg.name,
        symbol: msg.token_instantiation_msg.symbol,
        decimals: msg.token_instantiation_msg.decimals,
        initial_balances: msg.token_instantiation_msg.initial_balances,
        mint: Some(MinterResponse { minter: env.contract.address, cap: None }),
    };
    (
        MinterState { config, exchanging_info: receiver_info },
        Response::InstantiateToken {
            admin: info.sender,
            code_id: msg.token_code_id,
            msg: new_token_instantiation_msg,
            reply_id: INSTANTIATE_TOKEN_REPLY_ID,
        },
    )
}

/// Runs the operation that `msg` asks for. `queried` is what the host read
/// for it: for an exchange the latest answer of the price feed, for a
/// withdrawal the minter's balance of the accepted coin.
pub fn execute(
    deps: &MinterState,
    env: Env,
    info: MessageInfo,
    msg: ExecuteMsg,
    queried: u128,
) -> (res: Result<Response, ContractError>)
    requires
        msg matches ExecuteMsg::Exchange { amount, .. } ==> exchange_defined(
            deps@,
            coins_view(info.funds@),
            amount,
            queried,
        ),
    ensures
        match msg {
            ExecuteMsg::Exchange { amount, expected_received } => execute_exchange_ensures(
                deps@,
                coins_view(info.funds@),
                amount,
                expected_received,
                queried,
                res,
            ),
            ExecuteMsg::Withdraw {  } => execute_withdraw_ensures(
                deps@,
                info.sender@,
                queried,
                res,
            ),
        },
{
    match msg {
        ExecuteMsg::Exchange { amount, expected_received } => execute_exchange(
            deps,
            env,
            info,
            amount,
            expected_received,
            queried,
        ),
        ExecuteMsg::Withdraw {  } => execute_withdraw(deps, env, info, queried),
    }
}

/// Answers the read that `msg` asks for.
pub fn query(deps: &MinterState, _env: Env, msg: QueryMsg) -> (res: QueryResponse)
    ensures
        match msg {
            QueryMsg::Owner {  } => res matches QueryResponse::Owner(owner) && owner@
                == deps@.owner,
            QueryMsg::Receiver {  } => res matches QueryResponse::Receiver(receiver)
                && receiver.name@ == deps@.receiver_name && receiver.address@
                == deps@.receiver_address,
            QueryMsg::ExchangingInfo {  } => res matches QueryResponse::ExchangingInfo(info)
                && info.accepted_denom@ == deps@.accepted_denom && info.token_address@
                == deps@.token_address && info.price_feed@ == deps@.price_feed,
        },
{
    match msg {
        QueryMsg::Owner {  } => QueryResponse::Owner(query_owner(deps)),
        QueryMsg::Receiver {  } => QueryResponse::Receiver(query_receiver(deps)),
        QueryMsg::ExchangingInfo {  } => QueryResponse::ExchangingInfo(
            query_exchanging_info(deps),
        ),
    }
}

/// The contract address that the reply `msg` names, for the host to validate
/// before it hands it to [`reply`]. A reply under a foreign identifier is
/// `Unauthorized`. `None` where the reply reports a failure, carries no data
/// or cannot be decoded.
pub fn reply_contract_address(msg: &Reply) -> (res: Result<Option<String>, ContractError>)
    ensures
        match res {
            Ok(found) => msg.id == INSTANTIATE_TOKEN_REPLY_ID && match msg.data() {
                Some(bytes) => match found {
                    Some(address) => instantiate_response_address(bytes) == Some(address@),
                    None => instantiate_response_address(bytes) is None,
                },
                None => found is None,
            },
            Err(e) => e == ContractError::Unauthorized && msg.id != INSTANTIATE_TOKEN_REPLY_ID,
        },
{
    if msg.id != INSTANTIATE_TOKEN_REPLY_ID {
        return Err(ContractError::Unauthorized);
    }
    Ok(parse_reply_instantiate_data(msg))
}

/// What `reply` promises: under the minter's own identifier the token address
/// is recorded and nothing else changes; under any other the reply is refused
/// and nothing changes.
pub open spec fn reply_ensures(
    before: MinterView,
    msg: Reply,
    token_address: Seq<char>,
    after: MinterView,
    res: Result<Response, ContractError>,
) -> bool {
    if msg.id == INSTANTIATE_TOKEN_REPLY_ID {
        &&& after == (MinterView { token_address, ..before })
        &&& res matches Ok(Response::TokenRegistered { token_address: recorded })
        &&& recorded@ == token_address
    } else {
        &&& after == before
        &&& res matches Err(e)
        &&& e == ContractError::Unauthorized
    }
}

/// Records the validated address `token_address` of the token contract whose
/// instantiation `msg` reports. A reply under a foreign identifier is
/// `Unauthorized` and changes nothing.
pub fn reply(deps: &mut MinterState, _env: Env, msg: Reply, token_address: String) -> (res: Result<
    Response,
    ContractError,
>)
    ensures
        reply_ensures(old(deps)@, msg, token_address@, final(deps)@, res),
{
    if msg.id != INSTANTIATE_TOKEN_REPLY_ID {
        return Err(ContractError::Unauthorized);
    }
    deps.exchanging_info.token_address = token_address.clone();
    Ok(Response::TokenRegistered { token_address })
}

/// Whether the funds sent with `info` cover `amount` of the accepted coin;
/// `NotEnoughFunds` otherwise. The first coin of the accepted denomination
/// decides.
pub fn assert_funds(deps: &MinterState, info: &MessageInfo, amount: u128) -> (res: Result<
    (),
    ContractError,
>)
    ensures
        match res {
            Ok(_) => covers(
                coins_view(info.funds@),
                CoinView { denom: deps@.accepted_denom, amount },
            ),
            Err(e) => e == ContractError::NotEnoughFunds && !covers(
                coins_view(info.funds@),
                CoinView { denom: deps@.accepted_denom, amount },
            ),
        },
{
    let offer_token = Coin { denom: deps.exchanging_info.accepted_denom.clone(), amount };
    if !has_coins(&info.funds, &offer_token) {
        return Err(ContractError::NotEnoughFunds);
    }
    Ok(())
}

/// An exchange is defined where the product of amount and price, once it is
/// looked at, fits the amount type.
pub open spec fn exchange_defined(
    minter: MinterView,
    funds: Seq<CoinView>,
    amount: u128,
    answer: u128,
) -> bool {
    covers(funds, CoinView { denom: minter.accepted_denom, amount }) ==> amount * answer
        <= u128::MAX
}

/// Whether an exchange of `amount` at the price `answer` is defined.
pub fn exchange_is_defined(
    deps: &MinterState,
    info: &MessageInfo,
    amount: u128,
    answer: u128,
) -> (res: bool)
    ensures
        res == exchange_defined(deps@, coins_view(info.funds@), amount, answer),
{
    match assert_funds(deps, info, amount) {
        Ok(_) => amount.checked_mul(answer).is_some(),
        Err(_) => true,
    }
}

/// What `execute_exchange` promises. Funds that do not cover the amount are
/// refused first. Then the offer must buy, at `answer` tokens a coin, at
/// least what the buyer expects; if so, exactly the expected amount is minted
/// to the receiver.
pub open spec fn execute_exchange_ensures(
    minter: MinterView,
    funds: Seq<CoinView>,
    amount: u128,
    expected_received: u128,
    answer: u128,
    res: Result<Response, ContractError>,
) -> bool {
    if !covers(funds, CoinView { denom: minter.accepted_denom, amount }) {
        res matches Err(e) && e == ContractError::NotEnoughFunds
    } else if amount * answer < expected_received {
        res matches Err(e) && e == ContractError::ExpectedReceivedNotMatched
    } else {
        res matches Ok(Response::Mint { contract_addr, recipient, amount: minted })
            && contract_addr@ == minter.token_address && recipient@ == minter.receiver_address
            && minted == expected_received
    }
}

/// Exchanges `amount` of the accepted coin, sent with the message, for
/// `expected_received` of the stable token at the price `answer`, the latest
/// answer of the price feed.
pub fn execute_exchange(
    deps: &MinterState,
    _env: Env,
    info: MessageInfo,
    amount: u128,
    expected_received: u128,
    answer: u128,
) -> (res: Result<Response, ContractError>)
    requires
        exchange_defined(deps@, coins_view(info.funds@), amount, answer),
    ensures
        execute_exchange_ensures(
            deps@,
            coins_view(info.funds@),
            amount,
            expected_received,
            answer,
            res,
        ),
{
    match assert_funds(deps, &info, amount) {
        Ok(_) => {},
        Err(e) => {
            return Err(e);
        },
    }
    let stable_token_amount = amount * answer;
    if stable_token_amount < expected_received {
        return Err(ContractError::ExpectedReceivedNotMatched);
    }
    Ok(
        Response::Mint {
            contract_addr: deps.exchanging_info.token_address.clone(),
            recipient: deps.exchanging_info.receiver_address.clone(),
            amount: expected_received,
        },
    )
}

/// Whether the sender of `info` owns the minter; `Unauthorized` otherwise.
pub fn assert_owner(deps: &MinterState, info: &MessageInfo) -> (res: Result<(), ContractError>)
    ensures
        match res {
            Ok(_) => info.sender@ == deps@.owner,
            Err(e) => e == ContractError::Unauthorized && info.sender@ != deps@.owner,
        },
{
    if info.sender == deps.config.owner {
        Ok(())
    } else {
        Err(ContractError::Unauthorized)
    }
}

/// What `execute_withdraw` promises: the owner is sent the whole balance of
/// the accepted coin; anyone else is refused.
pub open spec fn execute_withdraw_ensures(
    minter: MinterView,
    sender: Seq<char>,
    balance: u128,
    res: Result<Response, ContractError>,
) -> bool {
    if sender == minter.owner {
        res matches Ok(Response::Send { to_address, denom, amount }) && to_address@ == sender
            && denom@ == minter.accepted_denom && amount == balance
    } else {
        res matches Err(e) && e == ContractError::Unauthorized
    }
}

/// Sends `balance`, the minter's whole balance of the accepted coin, to the
/// owner. Only the owner may ask for it.
pub fn execute_withdraw(
    deps: &MinterState,
    _env: Env,
    info: MessageInfo,
    balance: u128,
) -> (res: Result<Response, ContractError>)
    ensures
        execute_withdraw_ensures(deps@, info.sender@, balance, res),
{
    if info.sender != deps.config.owner {
        return Err(ContractError::Unauthorized);
    }
    Ok(
        Response::Send {
            to_address: info.sender,
            denom: deps.exchanging_info.accepted_denom.clone(),
            amount: balance,
        },
    )
}

/// The owner's address.
pub fn query_owner(deps: &MinterState) -> (res: String)
    ensures
        res@ == deps@.owner,
{
    deps.config.owner.clone()
}

/// The receiver's name and wallet.
pub fn query_receiver(deps: &MinterState) -> (res: ReceiverResponse)
    ensures
        res.name@ == deps@.receiver_name,
        res.address@ == deps@.receiver_address,
{
    ReceiverResponse {
        name: deps.config.receiver_name.clone(),
        address: deps.exchanging_info.receiver_address.clone(),
    }
}

/// The accepted coin, the token and the price feed.
pub fn query_exchanging_info(deps: &MinterState) -> (res: ExchangingInfoResponse)
    ensures
        res.accepted_denom@ == deps@.accepted_denom,
        res.token_address@ == deps@.token_address,
        res.price_feed@ == deps@.price_feed,
{
    ExchangingInfoResponse {
        accepted_denom: deps.exchanging_info.accepted_denom.clone(),
        token_address: deps.exchanging_info.token_address.clone(),
        price_feed: deps.exchanging_info.price_feed.clone(),
    }
}

} // verus!
