//! The operations of the wrapped token that differ from those of a plain
//! fungible token. Balances and what the contract holds of the native coin
//! are read by the host and handed in.

use crate::chain::{Env, MessageInfo};
use crate::token::Cw20Coin;
use crate::wrap_token::error::ContractError;
use crate::wrap_token::state::{
    is_std_error, InstantiateMsg, MinterData, SupportedNative, TokenInfo, TokenState,
};
use vstd::prelude::*;

verus! {

/// The operations that the wrapped token runs itself. Every other message of
/// a fungible token goes to the plain token's implementation.
#[derive(Debug, PartialEq, Eq)]
pub enum ExecuteMsg {
    /// Destroys `amount` of the sender's tokens and returns the native coins
    /// that back them.
    Burn { amount: u128 },
    /// Mints to `recipient` as many tokens as native coins came with the
    /// message. The amount named in the message does not count.
    Mint { recipient: String, amount: u128 },
}

/// What a successful call asks the host to do.
#[derive(Debug, PartialEq, Eq)]
pub enum Response {
    /// Store `balance` as the token balance of `from` and send it `amount`
    /// of the native coin `denom`.
    Burned { from: String, amount: u128, balance: u128, denom: String },
    /// Add `amount` to the token balance of `to`.
    Minted { to: String, amount: u128 },
}

/// The text of the refusal that instantiation with `msg` meets, if any: that
/// of `validate`, or that of initial balances, which a wrapped token cannot
/// have, since nothing would back them.
pub open spec fn instantiate_failure(msg: InstantiateMsg) -> Option<Seq<char>> {
    match msg.validation_failure() {
        Some(text) => Some(text),
        None => if msg.initial_balances.len() != 0 {
            Some("Initial balances must be empty"@)
        } else {
            None
        },
    }
}

/// A wrapped token as `msg` describes it, with a total supply of 0. The
/// minter named in `msg` is taken as a validated address.
pub fn instantiate(_env: Env, _info: MessageInfo, msg: InstantiateMsg) -> (res: Result<
    TokenState,
    ContractError,
>)
    ensures
        match instantiate_failure(msg) {
            Some(text) => res matches Err(e) && is_std_error(e, text),
            None => res matches Ok(state) && state.token_info.name == msg.name
                && state.token_info.symbol == msg.symbol && state.token_info.decimals
                == msg.decimals && state.token_info.total_supply == 0
                && state.supported_native.denom == msg.native_denom && match msg.mint {
                Some(m) => state.token_info.mint matches Some(data) && data.minter == m.minter
                    && data.cap == m.cap,
                None => state.token_info.mint is None,
            },
        },
{
    match msg.validate() {
        Ok(_) => {},
        Err(e) => {
            return Err(e);
        },
    }
    if msg.initial_balances.len() != 0 {
        return Err(ContractError::Std { msg: "Initial balances must be empty".to_string() });
    }
    let init_supply: u128 = 0;
    if let Some(limit) = msg.get_cap() {
        if init_supply > limit {
            return Err(ContractError::Std { msg: "Initial supply greater than cap".to_string() });
        }
    }
    let mint = match msg.mint {
        Some(m) => Some(MinterData { minter: m.minter, cap: m.cap }),
        None => None,
    };
    let data = TokenInfo {
        name: msg.name,
        symbol: msg.symbol,
        decimals: msg.decimals,
        total_supply: init_supply,
        mint,
    };
    Ok(
        TokenState {
            token_info: data,
            supported_native: SupportedNative { denom: msg.native_denom },
        },
    )
}

/// Runs the operation that `msg` asks for. `balance` is the sender's token
/// balance; it counts for a burn only.
pub fn execute(
    deps: &mut TokenState,
    env: Env,
    info: MessageInfo,
    msg: ExecuteMsg,
    balance: u128,
) -> (res: Result<Response, ContractError>)
    requires
        msg is Mint ==> mint_defined(*old(deps), info),
    ensures
        match msg {
            ExecuteMsg::Burn { amount } => execute_burn_ensures(
                *old(deps),
                info,
                amount,
                balance,
                *final(deps),
                res,
            ),
            ExecuteMsg::Mint { recipient, .. } => execute_mint_ensures(
                *old(deps),
                info,
                recipient@,
                *final(deps),
                res,
            ),
        },
{
    match msg {
        ExecuteMsg::Burn { amount } => execute_burn(deps, env, info, amount, balance),
        ExecuteMsg::Mint { recipient, amount: _ } => execute_mint(deps, env, info, recipient),
    }
}

/// Whether the contract, holding `balance` of the native coin, backs the
/// whole supply of the token; `InvalidBalance` with both numbers where it
/// holds less.
pub fn validate_balance(deps: &TokenState, balance: u128) -> (res: Result<(), ContractError>)
    ensures
        match res {
            Ok(_) => balance >= deps.token_info.total_supply,
            Err(e) => balance < deps.token_info.total_supply && e == (
            ContractError::InvalidBalance { total_supply: deps.token_info.total_supply, balance }),
        },
{
    let total_supply = deps.token_info.total_supply;
    if balance < total_supply {
        return Err(ContractError::InvalidBalance { total_supply, balance });
    }
    Ok(())
}

/// What `execute_burn` promises. A sender with less than `amount`, and a
/// total supply of less than `amount`, are refused with `Overflow` and
/// nothing changes. Otherwise balance and total supply go down by `amount`
/// and the sender is sent as many native coins.
pub open spec fn execute_burn_ensures(
    before: TokenState,
    info: MessageInfo,
    amount: u128,
    balance: u128,
    after: TokenState,
    res: Result<Response, ContractError>,
) -> bool {
    if balance < amount || before.token_info.total_supply < amount {
        &&& res matches Err(e)
        &&& e == ContractError::Overflow
        &&& after == before
    } else {
        &&& after == (TokenState {
            token_info: TokenInfo {
                total_supply: (before.token_info.total_supply - amount) as u128,
                ..before.token_info
            },
            ..before
        })
        &&& res matches Ok(Response::Burned { from, amount: burned, balance: left, denom })
        &&& from@ == info.sender@
        &&& burned == amount
        &&& left == balance - amount
        &&& denom@ == before.supported_native.denom@
    }
}

/// Burns `amount` of the sender's tokens, of which the sender holds
/// `balance`, and returns the same amount of the native coin.
pub fn execute_burn(
    deps: &mut TokenState,
    _env: Env,
    info: MessageInfo,
    amount: u128,
    balance: u128,
) -> (res: Result<Response, ContractError>)
    ensures
        execute_burn_ensures(*old(deps), info, amount, balance, *final(deps), res),
{
    let left = match balance.checked_sub(amount) {
        Some(left) => left,
        None => {
            return Err(ContractError::Overflow);
        },
    };
    let total_supply = match deps.token_info.total_supply.checked_sub(amount) {
        Some(total_supply) => total_supply,
        None => {
            return Err(ContractError::Overflow);
        },
    };
    deps.token_info.total_supply = total_supply;
    let native_denom = deps.supported_native.denom.clone();
    Ok(Response::Burned { from: info.sender, amount, balance: left, denom: native_denom })
}

/// Whether a mint by the sender of `info` is refused as unauthorized: the
/// token has no minter, the sender is not the minter, or the funds are not
/// exactly one coin of the supported denomination with a non-zero amount.
pub open spec fn mint_unauthorized(state: TokenState, info: MessageInfo) -> bool {
    ||| state.token_info.mint is None
    ||| state.token_info.mint->Some_0.minter@ != info.sender@
    ||| info.funds.len() != 1
    ||| info.funds[0].denom@ != state.supported_native.denom@
    ||| info.funds[0].amount == 0
}

/// Whether a mint that is authorized would bring the total supply above the
/// cap.
pub open spec fn mint_exceeds_cap(state: TokenState, info: MessageInfo) -> bool {
    state.token_info.mint->Some_0.cap matches Some(limit) && state.token_info.total_supply
        + info.funds[0].amount > limit
}

/// A mint is defined where the new total supply, once it is formed, fits the
/// amount type.
pub open spec fn mint_defined(state: TokenState, info: MessageInfo) -> bool {
    !mint_unauthorized(state, info) ==> state.token_info.total_supply + info.funds[0].amount
        <= u128::MAX
}

/// Whether the sender of `info` may mint with the funds it sent.
fn is_mint_authorized(deps: &TokenState, info: &MessageInfo) -> (res: bool)
    ensures
        res == !mint_unauthorized(*deps, *info),
{
    match &deps.token_info.mint {
        Some(mint) => {
            if mint.minter != info.sender {
                return false;
            }
        },
        None => {
            return false;
        },
    }
    !(info.funds.len() != 1 || info.funds[0].denom != deps.supported_native.denom
        || info.funds[0].amount == 0)
}

/// Whether a mint with the funds of `info` is defined.
pub fn mint_is_defined(deps: &TokenState, info: &MessageInfo) -> (res: bool)
    ensures
        res == mint_defined(*deps, *info),
{
    if !is_mint_authorized(deps, info) {
        return true;
    }
    deps.token_info.total_supply.checked_add(info.funds[0].amount).is_some()
}

/// What `execute_mint` promises. An unauthorized mint and one above the cap
/// are refused and nothing changes. Otherwise the total supply goes up by the
/// amount of native coin sent, and the recipient is to be credited with it.
pub open spec fn execute_mint_ensures(
    before: TokenState,
    info: MessageInfo,
    recipient: Seq<char>,
    after: TokenState,
    res: Result<Response, ContractError>,
) -> bool {
    if mint_unauthorized(before, info) {
        &&& res matches Err(e)
        &&& e == ContractError::Unauthorized
        &&& after == before
    } else if mint_exceeds_cap(before, info) {
        &&& res matches Err(e)
        &&& e == ContractError::CannotExceedCap
        &&& after == before
    } else {
        &&& after == (TokenState {
            token_info: TokenInfo {
                total_supply: (before.token_info.total_supply + info.funds[0].amount) as u128,
                ..before.token_info
            },
            ..before
        })
        &&& res matches Ok(Response::Minted { to, amount })
        &&& to@ == recipient
        &&& amount == info.funds[0].amount
    }
}

/// Mints to `recipient` as many tokens as native coins came with the
/// message. Only the minter may do so, and only with exactly one coin of the
/// supported denomination, in a non-zero amount. The host credits the
/// recipient and then makes sure, with [`validate_balance`], that the
/// contract backs the new supply.
pub fn execute_mint(
    deps: &mut TokenState,
    _env: Env,
    info: MessageInfo,
    recipient: String,
) -> (res: Result<Response, ContractError>)
    requires
        mint_defined(*old(deps), info),
    ensures
        execute_mint_ensures(*old(deps), info, recipient@, *final(deps), res),
{
    if !is_mint_authorized(deps, &info) {
        return Err(ContractError::Unauthorized);
    }
    let amount = info.funds[0].amount;
    let total_supply = deps.token_info.total_supply + amount;
    if let Some(limit) = deps.token_info.get_cap() {
        if total_supply > limit {
            return Err(ContractError::CannotExceedCap);
        }
    }
    deps.token_info.total_supply = total_supply;
    Ok(Response::Minted { to: recipient, amount })
}

/// The addresses of a list of initial balances, in the same order.
pub open spec fn addresses_of(accounts: Seq<Cw20Coin>) -> Seq<Seq<char>> {
    accounts.map_values(|c: Cw20Coin| c.address@)
}

/// The sum of a list of initial balances.
pub open spec fn total_of(accounts: Seq<Cw20Coin>) -> nat
    decreases accounts.len(),
{
    if accounts.len() == 0 {
        0
    } else {
        total_of(accounts.drop_last()) + accounts.last().amount as nat
    }
}

/// The total supply that the initial balances `accounts` add up to;
/// `DuplicateInitialBalanceAddresses` where two of them name one address.
pub fn create_accounts(accounts: &Vec<Cw20Coin>) -> (res: Result<u128, ContractError>)
    requires
        addresses_of(accounts@).no_duplicates() ==> total_of(accounts@) <= u128::MAX,
    ensures
        match res {
            Ok(total_supply) => addresses_of(accounts@).no_duplicates() && total_supply
                == total_of(accounts@),
            Err(e) => e == ContractError::DuplicateInitialBalanceAddresses && !addresses_of(
                accounts@,
            ).no_duplicates(),
        },
{
    match validate_accounts(accounts) {
        Ok(_) => {},
        Err(e) => {
            return Err(e);
        },
    }
    let mut total_supply: u128 = 0;
    let mut i: usize = 0;
    proof {
        lemma_total_of_prefix(accounts@, 0);
    }
    while i < accounts.len()
        invariant
            i <= accounts.len(),
            total_of(accounts@) <= u128::MAX,
            total_supply == total_of(accounts@.take(i as int)),
        decreases accounts.len() - i,
    {
        proof {
            let next = accounts@.take(i + 1);
            assert(next.drop_last() =~= accounts@.take(i as int));
            assert(next.last() == accounts@[i as int]);
            lemma_total_of_prefix(accounts@, i + 1);
        }
        total_supply = total_supply + accounts[i].amount;
        i += 1;
    }
    proof {
        assert(accounts@.take(accounts.len() as int) =~= accounts@);
    }
    Ok(total_supply)
}

/// The sum of a prefix is at most the sum of the whole list.
pub proof fn lemma_total_of_prefix(accounts: Seq<Cw20Coin>, k: int)
    requires
        0 <= k <= accounts.len(),
    ensures
        total_of(accounts.take(k)) <= total_of(accounts),
    decreases accounts.len() - k,
{
    if k == accounts.len() {
        assert(accounts.take(k) =~= accounts);
    } else {
        lemma_total_of_prefix(accounts, k + 1);
        let next = accounts.take(k + 1);
        assert(next.drop_last() =~= accounts.take(k));
    }
}

/// Whether no two of the initial balances `accounts` name one address;
/// `DuplicateInitialBalanceAddresses` otherwise.
pub fn validate_accounts(accounts: &Vec<Cw20Coin>) -> (res: Result<(), ContractError>)
    ensures
        match res {
            Ok(_) => addresses_of(accounts@).no_duplicates(),
            Err(e) => e == ContractError::DuplicateInitialBalanceAddresses && !addresses_of(
                accounts@,
            ).no_duplicates(),
        },
{
    let ghost addresses = addresses_of(accounts@);
    let mut j: usize = 0;
    while j < accounts.len()
        invariant
            j <= accounts.len(),
            addresses == addresses_of(accounts@),
            forall|a: int, b: int| 0 <= a < b < j ==> addresses[a] != addresses[b],
        decreases accounts.len() - j,
    {
        let mut i: usize = 0;
        while i < j
            invariant
                i <= j < accounts.len(),
                addresses == addresses_of(accounts@),
                forall|a: int| 0 <= a < i ==> addresses[a] != addresses[j as int],
            decreases j - i,
        {
            if accounts[i].address == accounts[j].address {
                assert(addresses[i as int] == addresses[j as int]);
                return Err(ContractError::DuplicateInitialBalanceAddresses);
            }
            i += 1;
        }
        j += 1;
    }
    Ok(())
}

} // verus!
