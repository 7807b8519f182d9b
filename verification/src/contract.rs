//! The bridge's entry points and the handlers behind them.
//!
//! The host keeps the bridge's parameters and counters between calls. It hands
//! them to each call as a [`State`], together with its handle to the store, and
//! keeps what the call leaves in both if the call succeeds. A call that fails
//! leaves both exactly as they were.
use crate::access_control::{ac_add_role, ac_have_role, ac_revoke_role, AccessRole};
use crate::error::ContractError;
use crate::keys::valid_address;
use crate::model;
use crate::model::Ledger;
use crate::msg::{
    DenomResponse, ExecuteMsg, InstantiateMsg, PausedSinceBlockResponse, QueryMsg, QueryResponse,
    RelayEonResponse, RoleResponse, SupplyResponse,
};
use crate::state::{refunds_add, refunds_have, State};
use crate::storage::{
    addr_canonicalize, addr_humanize, as_read, entries, entries_read, MAX_NAMESPACE_LEN,
};
use crate::text::{u128_to_string, u64_to_string};
use crate::types::{
    attr, attr_view, plain_response, transfer_view, Attribute, BankTransfer, Coin, Env,
    MessageInfo, Response, ResponseView,
};
use cosmwasm_std::{CanonicalAddr, Deps, DepsMut};
use vstd::prelude::*;
use vstd::string::*;

verus! {

/// The denomination of a bridge that was set up without one.
pub const DEFAULT_DENOM: &'static str = "afet";

// ---------------------------------------------------------------------------
// Checks
// ---------------------------------------------------------------------------
/// What a check answers: the empty answer where it passes, else the rejection.
pub open spec fn checked(refusal: Option<ContractError>, res: Result<Response, ContractError>)
    -> bool {
    match refusal {
        Some(error) => res == Err::<Response, ContractError>(error),
        None => res is Ok && res->Ok_0@ == plain_response(Seq::empty()),
    }
}

/// Passes where the request was signed for the current relay eon.
fn verify_tx_relay_eon(eon: u64, state: &State) -> (res: Result<Response, ContractError>)
    ensures
        checked(
            if eon != state.relay_eon {
                Some(ContractError::RelayEon)
            } else {
                None
            },
            res,
        ),
{
    if eon != state.relay_eon {
        Err(ContractError::RelayEon)
    } else {
        Ok(Response::default())
    }
}

/// Passes where the public interface is open in the current block.
pub fn verify_not_paused_public_api(env: &Env, state: &State) -> (res: Result<
    Response,
    ContractError,
>)
    ensures
        checked(
            if model::paused(env.height, state.paused_since_block_public_api) {
                Some(ContractError::ContractPaused)
            } else {
                None
            },
            res,
        ),
{
    _verify_not_paused(env, state.paused_since_block_public_api)
}

/// Passes where the relayers' interface is open in the current block.
pub fn verify_not_paused_relayer_api(env: &Env, state: &State) -> (res: Result<
    Response,
    ContractError,
>)
    ensures
        checked(
            if model::paused(env.height, state.paused_since_block_relayer_api) {
                Some(ContractError::ContractPaused)
            } else {
                None
            },
            res,
        ),
{
    _verify_not_paused(env, state.paused_since_block_relayer_api)
}

/// Passes where the current block is before the one from which the pause holds.
fn _verify_not_paused(env: &Env, paused_since_block: u64) -> (res: Result<Response, ContractError>)
    ensures
        checked(
            if model::paused(env.height, paused_since_block) {
                Some(ContractError::ContractPaused)
            } else {
                None
            },
            res,
        ),
{
    if env.height < paused_since_block {
        Ok(Response::default())
    } else {
        Err(ContractError::ContractPaused)
    }
}

/// Passes where the amount is within the swap limits.
fn verify_swap_amount_limits(amount: u128, state: &State) -> (res: Result<Response, ContractError>)
    ensures
        checked(
            if amount < state.lower_swap_limit || amount > state.upper_swap_limit {
                Some(ContractError::SwapLimitsViolated)
            } else {
                None
            },
            res,
        ),
{
    if amount < state.lower_swap_limit {
        Err(ContractError::SwapLimitsViolated)
    } else if amount > state.upper_swap_limit {
        Err(ContractError::SwapLimitsViolated)
    } else {
        Ok(Response::default())
    }
}

/// Passes where the reverse aggregated allowance covers the amount.
fn verify_aggregated_reverse_allowance(amount: u128, state: &State) -> (res: Result<
    Response,
    ContractError,
>)
    ensures
        checked(
            if state.reverse_aggregated_allowance < amount {
                Some(ContractError::AllowanceExceeded)
            } else {
                None
            },
            res,
        ),
{
    if state.reverse_aggregated_allowance < amount {
        Err(ContractError::AllowanceExceeded)
    } else {
        Ok(Response::default())
    }
}

/// Passes where a swap with this id has been made and has not been refunded.
fn verify_refund_swap_id(id: u64, deps: Deps, state: &State) -> (res: Result<
    Response,
    ContractError,
>)
    ensures
        checked(
            if id >= state.next_swap_id {
                Some(ContractError::InvalidSwapId)
            } else if crate::state::refunded(entries_read(deps), id) {
                Some(ContractError::AlreadyRefunded)
            } else {
                None
            },
            res,
        ),
{
    if id >= state.next_swap_id {
        return Err(ContractError::InvalidSwapId);
    }
    match refunds_have(id, deps) {
        true => Err(ContractError::AlreadyRefunded),
        false => Ok(Response::default()),
    }
}

// ---------------------------------------------------------------------------
// Access control
// ---------------------------------------------------------------------------
/// Passes where the caller is an admin.
fn only_admin(info: &MessageInfo, deps: Deps) -> (res: Result<Response, ContractError>)
    requires
        valid_address(info.sender@),
    ensures
        checked(model::role_refusal(entries_read(deps), info.sender@, AccessRole::Admin), res),
{
    _only_role(&AccessRole::Admin, info, deps)
}

/// Passes where the caller is a relayer.
fn only_relayer(info: &MessageInfo, deps: Deps) -> (res: Result<Response, ContractError>)
    requires
        valid_address(info.sender@),
    ensures
        checked(model::role_refusal(entries_read(deps), info.sender@, AccessRole::Relayer), res),
{
    _only_role(&AccessRole::Relayer, info, deps)
}

/// Passes where the caller is an approver.
fn only_approver(info: &MessageInfo, deps: Deps) -> (res: Result<Response, ContractError>)
    requires
        valid_address(info.sender@),
    ensures
        checked(model::role_refusal(entries_read(deps), info.sender@, AccessRole::Approver), res),
{
    _only_role(&AccessRole::Approver, info, deps)
}

/// Passes where the caller is a monitor.
fn only_monitor(info: &MessageInfo, deps: Deps) -> (res: Result<Response, ContractError>)
    requires
        valid_address(info.sender@),
    ensures
        checked(model::role_refusal(entries_read(deps), info.sender@, AccessRole::Monitor), res),
{
    _only_role(&AccessRole::Monitor, info, deps)
}

/// Passes where the caller holds `role`.
fn _only_role(role: &AccessRole, info: &MessageInfo, deps: Deps) -> (res: Result<
    Response,
    ContractError,
>)
    requires
        valid_address(info.sender@),
    ensures
        checked(model::role_refusal(entries_read(deps), info.sender@, *role), res),
{
    match ac_have_role(deps, info.sender.as_str(), role) {
        Ok(has_role) => match has_role {
            true => Ok(Response::default()),
            false => Err(
                match role {
                    AccessRole::Admin => ContractError::OnlyAdmin,
                    AccessRole::Relayer => ContractError::OnlyRelayer,
                    _ => ContractError::OnlyAdmin,
                },
            ),
        },
        Err(err) => Err(err),
    }
}

/// Passes where the caller may set a pause to `since_block`: to lift or postpone
/// a pause takes an admin, to pause at once a monitor will do.
fn can_pause(env: &Env, info: &MessageInfo, deps: Deps, since_block: u64) -> (res: Result<
    Response,
    ContractError,
>)
    requires
        valid_address(info.sender@),
    ensures
        checked(
            if model::may_pause(entries_read(deps), info.sender@, env.height, since_block) {
                None
            } else {
                Some(ContractError::OnlyAdmin)
            },
            res,
        ),
{
    if since_block > env.height {
        only_admin(info, deps)
    } else {
        match only_monitor(info, deps) {
            Ok(passed) => Ok(passed),
            Err(_) => only_admin(info, deps),
        }
    }
}

// ---------------------------------------------------------------------------
// Funds
// ---------------------------------------------------------------------------
/// The amount of the first coin of denomination `denom` among `funds`.
pub fn amount_from_funds(funds: &Vec<Coin>, denom: String) -> (res: Result<u128, ContractError>)
    ensures
        res == match model::amount_of(funds@.map_values(|coin: Coin| coin@), denom@) {
            Some(amount) => Ok::<u128, ContractError>(amount),
            None => Err(ContractError::UnrecognizedDenom),
        },
{
    let ghost coins = funds@.map_values(|coin: Coin| coin@);
    assert(coins.skip(0) =~= coins);
    let mut i: usize = 0;
    while i < funds.len()
        invariant
            i <= funds.len(),
            coins == funds@.map_values(|coin: Coin| coin@),
            model::amount_of(coins, denom@) == model::amount_of(coins.skip(i as int), denom@),
        decreases funds.len() - i,
    {
        let coin = &funds[i];
        assert(coins.skip(i as int)[0] == coin@);
        if coin.denom == denom {
            return Ok(coin.amount);
        }
        assert(coins.skip(i as int).drop_first() =~= coins.skip(i + 1));
        i += 1;
    }
    Err(ContractError::UnrecognizedDenom)
}

/// The answer that instructs the bank to pay `amount` of the bridge's denomination
/// to `to_human`.
pub open spec fn send_response(
    denom: Seq<char>,
    to_human: Seq<char>,
    amount: u128,
    action: Seq<char>,
) -> ResponseView {
    ResponseView {
        messages: seq![transfer_view(to_human, denom, amount)],
        attributes: seq![attr_view("action"@, action), attr_view("to"@, to_human)],
    }
}

/// Instructs the bank to pay `amount` of the bridge's denomination to `to_human`.
pub fn bank_transfer(state: &State, to_human: String, amount: u128, action: &str) -> (response:
    Response)
    ensures
        response@ == send_response(state.denom@, to_human@, amount, action@),
{
    let mut attributes: Vec<Attribute> = Vec::new();
    attributes.push(attr("action", action.to_owned()));
    attributes.push(attr("to", to_human.clone()));
    let mut amounts: Vec<Coin> = Vec::new();
    amounts.push(Coin { amount, denom: state.denom.clone() });
    let transfer = BankTransfer { to_address: to_human, amount: amounts };
    assert(transfer@.amount =~= transfer_view(to_human@, state.denom@, amount).amount);
    let mut messages: Vec<BankTransfer> = Vec::new();
    messages.push(transfer);
    let response = Response { messages, attributes };
    assert(response@.messages =~= send_response(
        state.denom@,
        to_human@,
        amount,
        action@,
    ).messages);
    assert(response@.attributes =~= send_response(
        state.denom@,
        to_human@,
        amount,
        action@,
    ).attributes);
    response
}

/// Asks the host to render a canonical address and instructs the bank to pay
/// `amount` to it. Whether the host accepts the address is up to the host: where it
/// does not, its error is handed up.
fn send_tokens_from_contract(
    deps: Deps,
    state: &State,
    to_address: &CanonicalAddr,
    amount: u128,
    action: &str,
) -> (res: Result<Response, ContractError>)
    ensures
        match res {
            Ok(response) => response@.messages.len() == 1 && response@ == send_response(
                state.denom@,
                response@.messages[0].to_address,
                amount,
                action@,
            ),
            Err(error) => error is Std,
        },
{
    let to_human = match addr_humanize(deps, to_address) {
        Ok(to_human) => to_human,
        Err(error) => {
            return Err(ContractError::Std(error));
        },
    };
    Ok(bank_transfer(state, to_human, amount, action))
}

// ---------------------------------------------------------------------------
// Handlers
// ---------------------------------------------------------------------------
/// Takes `amount`, which the host has credited to the bridge, for `destination` on
/// the other chain.
pub fn try_swap(env: &Env, state: &mut State, amount: u128, destination: String) -> (res: Result<
    Response,
    ContractError,
>)
    requires
        model::swap_fits(*old(state), env.height, amount),
    ensures
        model::swap_outcome(*old(state), env.height, amount, destination@, res, *final(state)),
{
    verify_not_paused_public_api(env, state)?;
    verify_swap_amount_limits(amount, state)?;

    let increased_supply = match state.supply.checked_add(amount) {
        Some(increased_supply) => increased_supply,
        None => {
            return Err(ContractError::CapExceeded);
        },
    };
    if increased_supply > state.cap {
        return Err(ContractError::CapExceeded);
    }
    let swap_id = state.next_swap_id;
    state.supply = increased_supply;
    state.next_swap_id = state.next_swap_id + 1;

    let mut attributes: Vec<Attribute> = Vec::new();
    attributes.push(attr("action", "swap".to_owned()));
    attributes.push(attr("destination", destination));
    attributes.push(attr("swap_id", u64_to_string(swap_id)));
    attributes.push(attr("amount", u128_to_string(amount)));

    let response = Response { messages: Vec::new(), attributes };
    assert(response@.messages =~= model::swap_response(destination@, swap_id, amount).messages);
    assert(response@.attributes =~= model::swap_response(destination@, swap_id, amount).attributes);
    Ok(response)
}

/// Pays `amount`, less the swap fee, to `to` on a relayer's word that it was handed
/// in on the other chain. An amount that does not exceed the fee is kept as fee in
/// full, and nothing is paid.
pub fn try_reverse_swap(
    deps: Deps,
    env: &Env,
    info: &MessageInfo,
    state: &mut State,
    rid: u64,
    to: String,
    sender: String,
    origin_tx_hash: String,
    amount: u128,
    relay_eon: u64,
) -> (res: Result<Response, ContractError>)
    requires
        valid_address(info.sender@),
        model::reverse_swap_fits(
            entries_read(deps),
            *old(state),
            env.height,
            info.sender@,
            amount,
            relay_eon,
        ),
    ensures
        model::reverse_swap_outcome(
            entries_read(deps),
            *old(state),
            env.height,
            info.sender@,
            rid,
            to@,
            sender@,
            origin_tx_hash@,
            amount,
            relay_eon,
            res,
            *final(state),
        ),
{
    only_relayer(info, deps)?;
    verify_tx_relay_eon(relay_eon, state)?;
    verify_not_paused_relayer_api(env, state)?;
    verify_aggregated_reverse_allowance(amount, state)?;

    if amount > state.supply {
        return Err(ContractError::SupplyExceeded);
    }
    let (swap_fee, effective_amount, messages) = if amount > state.swap_fee {
        let swap_fee = state.swap_fee;
        let effective_amount = amount - swap_fee;
        let to_canonical = match addr_canonicalize(deps, to.as_str()) {
            Ok(to_canonical) => to_canonical,
            Err(error) => {
                return Err(ContractError::Std(error));
            },
        };
        let rtx = send_tokens_from_contract(
            deps,
            state,
            &to_canonical,
            effective_amount,
            "reverse_swap",
        )?;
        (swap_fee, effective_amount, rtx.messages)
    } else {
        (amount, 0, Vec::new())
    };
    let ghost payout = messages@.map_values(|transfer: BankTransfer| transfer@);
    state.supply = state.supply - amount;
    state.reverse_aggregated_allowance = state.reverse_aggregated_allowance - amount;
    state.fees_accrued = state.fees_accrued + swap_fee;

    let mut attributes: Vec<Attribute> = Vec::new();
    attributes.push(attr("action", "reverse_swap".to_owned()));
    attributes.push(attr("rid", u64_to_string(rid)));
    attributes.push(attr("to", to));
    attributes.push(attr("sender", sender));
    attributes.push(attr("origin_tx_hash", origin_tx_hash));
    attributes.push(attr("amount", u128_to_string(effective_amount)));
    attributes.push(attr("swap_fee", u128_to_string(swap_fee)));

    let response = Response { messages, attributes };
    assert(response@.messages =~= payout);
    assert(response@.attributes =~= model::reverse_swap_response(
        rid,
        to@,
        sender@,
        origin_tx_hash@,
        amount,
        old(state).swap_fee,
        payout,
    ).attributes);
    Ok(response)
}

/// Gives `amount` of the swap `id` back to `to`, less `fee`, and marks the swap as
/// refunded, so that it cannot be refunded again.
fn _try_refund(
    deps: &mut DepsMut,
    env: &Env,
    info: &MessageInfo,
    state: &mut State,
    id: u64,
    to: String,
    amount: u128,
    relay_eon: u64,
    fee: u128,
) -> (res: Result<Response, ContractError>)
    requires
        valid_address(info.sender@),
        model::refund_fits(
            entries(*old(deps)),
            *old(state),
            env.height,
            info.sender@,
            id,
            amount,
            relay_eon,
            fee,
        ),
    ensures
        model::refund_outcome(
            entries(*old(deps)),
            *old(state),
            env.height,
            info.sender@,
            id,
            to@,
            amount,
            relay_eon,
            fee,
            res,
            entries(*final(deps)),
            *final(state),
        ),
{
    only_relayer(info, as_read(deps))?;
    verify_tx_relay_eon(relay_eon, state)?;
    verify_not_paused_relayer_api(env, state)?;
    verify_refund_swap_id(id, as_read(deps), state)?;
    verify_aggregated_reverse_allowance(amount, state)?;

    if amount > state.supply {
        return Err(ContractError::SupplyExceeded);
    }
    let new_supply = state.supply - amount;
    let (refund_fee, effective_amount, messages) = if amount > fee {
        let effective_amount = amount - fee;
        let to_canonical = match addr_canonicalize(as_read(deps), to.as_str()) {
            Ok(to_canonical) => to_canonical,
            Err(error) => {
                return Err(ContractError::Std(error));
            },
        };
        let rtx = send_tokens_from_contract(
            as_read(deps),
            state,
            &to_canonical,
            effective_amount,
            "refund",
        )?;
        (fee, effective_amount, rtx.messages)
    } else {
        (amount, 0, Vec::new())
    };
    let ghost payout = messages@.map_values(|transfer: BankTransfer| transfer@);
    state.supply = new_supply;
    state.reverse_aggregated_allowance = state.reverse_aggregated_allowance - amount;
    state.fees_accrued = state.fees_accrued + refund_fee;

    refunds_add(id, deps);

    let mut attributes: Vec<Attribute> = Vec::new();
    attributes.push(attr("action", "refund".to_owned()));
    attributes.push(attr("destination", to));
    attributes.push(attr("swap_id", u64_to_string(id)));
    attributes.push(attr("amount", u128_to_string(effective_amount)));
    attributes.push(attr("refund_fee", u128_to_string(refund_fee)));

    let response = Response { messages, attributes };
    assert(response@.messages =~= payout);
    assert(response@.attributes =~= model::refund_response(id, to@, amount, fee, payout).attributes);
    Ok(response)
}

/// Gives a swap back, less the swap fee.
pub fn try_refund(
    deps: &mut DepsMut,
    env: &Env,
    info: &MessageInfo,
    state: &mut State,
    id: u64,
    to: String,
    amount: u128,
    relay_eon: u64,
) -> (res: Result<Response, ContractError>)
    requires
        valid_address(info.sender@),
        model::refund_fits(
            entries(*old(deps)),
            *old(state),
            env.height,
            info.sender@,
            id,
            amount,
            relay_eon,
            old(state).swap_fee,
        ),
    ensures
        model::refund_outcome(
            entries(*old(deps)),
            *old(state),
            env.height,
            info.sender@,
            id,
            to@,
            amount,
            relay_eon,
            old(state).swap_fee,
            res,
            entries(*final(deps)),
            *final(state),
        ),
{
    let fee = state.swap_fee;
    _try_refund(deps, env, info, state, id, to, amount, relay_eon, fee)
}

/// Gives a swap back in full: no fee is kept.
pub fn try_refund_in_full(
    deps: &mut DepsMut,
    env: &Env,
    info: &MessageInfo,
    state: &mut State,
    id: u64,
    to: String,
    amount: u128,
    relay_eon: u64,
) -> (res: Result<Response, ContractError>)
    requires
        valid_address(info.sender@),
        model::refund_fits(
            entries(*old(deps)),
            *old(state),
            env.height,
            info.sender@,
            id,
            amount,
            relay_eon,
            0,
        ),
    ensures
        model::refund_outcome(
            entries(*old(deps)),
            *old(state),
            env.height,
            info.sender@,
            id,
            to@,
            amount,
            relay_eon,
            0,
            res,
            entries(*final(deps)),
            *final(state),
        ),
{
    _try_refund(deps, env, info, state, id, to, amount, relay_eon, 0)
}

/// Sets the block from which the public interface is paused.
pub fn try_pause_public_api(
    deps: Deps,
    env: &Env,
    info: &MessageInfo,
    state: &mut State,
    since_block: u64,
) -> (res: Result<Response, ContractError>)
    requires
        valid_address(info.sender@),
    ensures
        model::pause_public_api_outcome(
            entries_read(deps),
            *old(state),
            env.height,
            info.sender@,
            since_block,
            res,
            *final(state),
        ),
{
    can_pause(env, info, deps, since_block)?;

    let pause_since_block = if since_block < env.height {
        env.height
    } else {
        since_block
    };
    state.paused_since_block_public_api = pause_since_block;

    let mut attributes: Vec<Attribute> = Vec::new();
    attributes.push(attr("action", "pause_public_api".to_owned()));
    attributes.push(attr("since_block", u64_to_string(pause_since_block)));

    let response = Response { messages: Vec::new(), attributes };
    assert(response@.messages =~= Seq::empty());
    assert(response@.attributes =~= model::pause_response(
        "pause_public_api"@,
        pause_since_block,
    ).attributes);
    Ok(response)
}

/// Sets the block from which the relayers' interface is paused.
pub fn try_pause_relayer_api(
    deps: Deps,
    env: &Env,
    info: &MessageInfo,
    state: &mut State,
    since_block: u64,
) -> (res: Result<Response, ContractError>)
    requires
        valid_address(info.sender@),
    ensures
        model::pause_relayer_api_outcome(
            entries_read(deps),
            *old(state),
            env.height,
            info.sender@,
            since_block,
            res,
            *final(state),
        ),
{
    can_pause(env, info, deps, since_block)?;

    let pause_since_block = if since_block < env.height {
        env.height
    } else {
        since_block
    };
    state.paused_since_block_relayer_api = pause_since_block;

    let mut attributes: Vec<Attribute> = Vec::new();
    attributes.push(attr("action", "pause_relayer_api".to_owned()));
    attributes.push(attr("since_block", u64_to_string(pause_since_block)));

    let response = Response { messages: Vec::new(), attributes };
    assert(response@.messages =~= Seq::empty());
    assert(response@.attributes =~= model::pause_response(
        "pause_relayer_api"@,
        pause_since_block,
    ).attributes);
    Ok(response)
}

/// Starts the next relay eon.
pub fn try_new_relay_eon(deps: Deps, env: &Env, info: &MessageInfo, state: &mut State) -> (res:
    Result<Response, ContractError>)
    requires
        valid_address(info.sender@),
        model::new_relay_eon_fits(entries_read(deps), *old(state), env.height, info.sender@),
    ensures
        model::new_relay_eon_outcome(
            entries_read(deps),
            *old(state),
            env.height,
            info.sender@,
            res,
            *final(state),
        ),
{
    only_relayer(info, deps)?;
    verify_not_paused_relayer_api(env, state)?;

    let new_eon = state.relay_eon + 1;
    state.relay_eon = new_eon;

    let mut attributes: Vec<Attribute> = Vec::new();
    attributes.push(attr("action", "new_relay_eon".to_owned()));
    attributes.push(attr("eon", u64_to_string(new_eon)));

    let response = Response { messages: Vec::new(), attributes };
    assert(response@.messages =~= Seq::empty());
    assert(response@.attributes =~= model::new_relay_eon_response(new_eon).attributes);
    Ok(response)
}

/// Adds the funds sent along, which the host has credited to the bridge, to the
/// supply.
pub fn try_deposit(deps: Deps, info: &MessageInfo, state: &mut State) -> (res: Result<
    Response,
    ContractError,
>)
    requires
        valid_address(info.sender@),
        model::deposit_fits(entries_read(deps), *old(state), info.sender@, info.funds_view()),
    ensures
        model::deposit_outcome(
            entries_read(deps),
            *old(state),
            info.sender@,
            info.funds_view(),
            res,
            *final(state),
        ),
{
    only_admin(info, deps)?;

    let amount = amount_from_funds(&info.funds, state.denom.clone())?;
    state.supply = state.supply + amount;

    let mut attributes: Vec<Attribute> = Vec::new();
    attributes.push(attr("action", "deposit".to_owned()));
    attributes.push(attr("amount", u128_to_string(amount)));
    attributes.push(attr("sender", info.sender.clone()));

    let response = Response { messages: Vec::new(), attributes };
    assert(response@.messages =~= Seq::empty());
    assert(response@.attributes =~= model::deposit_response(amount, info.sender@).attributes);
    Ok(response)
}

/// Pays `amount` out of the supply to `destination`.
pub fn try_withdraw(
    deps: Deps,
    info: &MessageInfo,
    state: &mut State,
    amount: u128,
    destination: String,
) -> (res: Result<Response, ContractError>)
    requires
        valid_address(info.sender@),
    ensures
        model::withdraw_outcome(
            entries_read(deps),
            *old(state),
            info.sender@,
            amount,
            destination@,
            res,
            *final(state),
        ),
{
    only_admin(info, deps)?;

    if amount > state.supply {
        return Err(ContractError::SupplyExceeded);
    }
    let new_supply = state.supply - amount;
    let recipient = match addr_canonicalize(deps, destination.as_str()) {
        Ok(recipient) => recipient,
        Err(error) => {
            return Err(ContractError::Std(error));
        },
    };
    let wtx = send_tokens_from_contract(deps, state, &recipient, amount, "withdraw")?;
    state.supply = new_supply;

    let mut attributes: Vec<Attribute> = Vec::new();
    attributes.push(attr("action", "withdraw".to_owned()));
    attributes.push(attr("amount", u128_to_string(amount)));
    attributes.push(attr("destination", destination));

    let ghost payout = wtx@.messages;
    let response = Response { messages: wtx.messages, attributes };
    assert(response@.messages =~= payout);
    assert(response@.attributes =~= model::withdraw_response(
        "withdraw"@,
        amount,
        destination@,
        payout,
    ).attributes);
    Ok(response)
}

/// Pays `amount` out of the fees accrued to `destination`.
pub fn try_withdraw_fees(
    deps: Deps,
    info: &MessageInfo,
    state: &mut State,
    amount: u128,
    destination: String,
) -> (res: Result<Response, ContractError>)
    requires
        valid_address(info.sender@),
    ensures
        model::withdraw_fees_outcome(
            entries_read(deps),
            *old(state),
            info.sender@,
            amount,
            destination@,
            res,
            *final(state),
        ),
{
    only_admin(info, deps)?;

    if amount > state.fees_accrued {
        return Err(ContractError::SupplyExceeded);
    }
    let new_fees_accrued = state.fees_accrued - amount;
    let recipient = match addr_canonicalize(deps, destination.as_str()) {
        Ok(recipient) => recipient,
        Err(error) => {
            return Err(ContractError::Std(error));
        },
    };
    let wtx = send_tokens_from_contract(deps, state, &recipient, amount, "withdraw_fees")?;
    state.fees_accrued = new_fees_accrued;

    let mut attributes: Vec<Attribute> = Vec::new();
    attributes.push(attr("action", "withdraw_fees".to_owned()));
    attributes.push(attr("amount", u128_to_string(amount)));
    attributes.push(attr("destination", destination));

    let ghost payout = wtx@.messages;
    let response = Response { messages: wtx.messages, attributes };
    assert(response@.messages =~= payout);
    assert(response@.attributes =~= model::withdraw_response(
        "withdraw_fees"@,
        amount,
        destination@,
        payout,
    ).attributes);
    Ok(response)
}

/// Sets the cap on the supply. A cap below the current supply is accepted: it
/// blocks swaps until the supply has drained.
pub fn try_set_cap(deps: Deps, info: &MessageInfo, state: &mut State, amount: u128) -> (res: Result<
    Response,
    ContractError,
>)
    requires
        valid_address(info.sender@),
    ensures
        model::set_cap_outcome(
            entries_read(deps),
            *old(state),
            info.sender@,
            amount,
            res,
            *final(state),
        ),
{
    only_admin(info, deps)?;

    state.cap = amount;

    let mut attributes: Vec<Attribute> = Vec::new();
    attributes.push(attr("action", "set_cap".to_owned()));
    attributes.push(attr("cap", u128_to_string(amount)));

    let response = Response { messages: Vec::new(), attributes };
    assert(response@.messages =~= Seq::empty());
    assert(response@.attributes =~= model::set_cap_response(amount).attributes);
    Ok(response)
}

/// Sets what relayers may still pay out.
pub fn try_set_reverse_aggregated_allowance(
    deps: Deps,
    info: &MessageInfo,
    state: &mut State,
    amount: u128,
) -> (res: Result<Response, ContractError>)
    requires
        valid_address(info.sender@),
    ensures
        model::set_reverse_aggregated_allowance_outcome(
            entries_read(deps),
            *old(state),
            info.sender@,
            amount,
            res,
            *final(state),
        ),
{
    match only_admin(info, deps) {
        Ok(_) => {},
        Err(_) => {
            if amount <= state.reverse_aggregated_allowance_approver_cap {
                only_approver(info, deps)?;
            } else {
                return Err(ContractError::OnlyAdmin);
            }
        },
    }

    state.reverse_aggregated_allowance = amount;

    let mut attributes: Vec<Attribute> = Vec::new();
    attributes.push(attr("action", "set_reverse_aggregated_allowance".to_owned()));
    attributes.push(attr("amount", u128_to_string(amount)));

    let response = Response { messages: Vec::new(), attributes };
    assert(response@.messages =~= Seq::empty());
    assert(response@.attributes =~= model::set_allowance_response(
        "set_reverse_aggregated_allowance"@,
        amount,
    ).attributes);
    Ok(response)
}

/// Sets the most that an approver may set the reverse aggregated allowance to.
pub fn try_set_reverse_aggregated_allowance_approver_cap(
    deps: Deps,
    info: &MessageInfo,
    state: &mut State,
    amount: u128,
) -> (res: Result<Response, ContractError>)
    requires
        valid_address(info.sender@),
    ensures
        model::set_reverse_aggregated_allowance_approver_cap_outcome(
            entries_read(deps),
            *old(state),
            info.sender@,
            amount,
            res,
            *final(state),
        ),
{
    only_admin(info, deps)?;

    state.reverse_aggregated_allowance_approver_cap = amount;

    let mut attributes: Vec<Attribute> = Vec::new();
    attributes.push(attr("action", "set_reverse_aggregated_allowance_approver_cap".to_owned()));
    attributes.push(attr("amount", u128_to_string(amount)));

    let response = Response { messages: Vec::new(), attributes };
    assert(response@.messages =~= Seq::empty());
    assert(response@.attributes =~= model::set_allowance_response(
        "set_reverse_aggregated_allowance_approver_cap"@,
        amount,
    ).attributes);
    Ok(response)
}

/// Sets the swap limits and the swap fee.
pub fn try_set_limits(
    deps: Deps,
    info: &MessageInfo,
    state: &mut State,
    swap_min: u128,
    swap_max: u128,
    swap_fee: u128,
) -> (res: Result<Response, ContractError>)
    requires
        valid_address(info.sender@),
    ensures
        model::set_limits_outcome(
            entries_read(deps),
            *old(state),
            info.sender@,
            swap_min,
            swap_max,
            swap_fee,
            res,
            *final(state),
        ),
{
    only_admin(info, deps)?;

    if swap_min <= swap_fee || swap_min > swap_max {
        return Err(ContractError::SwapLimitsInconsistent);
    }
    state.swap_fee = swap_fee;
    state.lower_swap_limit = swap_min;
    state.upper_swap_limit = swap_max;

    let mut attributes: Vec<Attribute> = Vec::new();
    attributes.push(attr("action", "set_limits".to_owned()));
    attributes.push(attr("swap_fee", u128_to_string(swap_fee)));
    attributes.push(attr("swap_min", u128_to_string(swap_min)));
    attributes.push(attr("swap_max", u128_to_string(swap_max)));

    let response = Response { messages: Vec::new(), attributes };
    assert(response@.messages =~= Seq::empty());
    assert(response@.attributes =~= model::set_limits_response(swap_min, swap_max, swap_fee).attributes);
    Ok(response)
}

/// Gives `address` the role that `role` names.
pub fn try_grant_role(deps: &mut DepsMut, info: &MessageInfo, role: String, address: String) -> (res:
    Result<Response, ContractError>)
    requires
        valid_address(info.sender@),
        model::role_change_fits(entries(*old(deps)), info.sender@, role@, address@),
    ensures
        model::grant_role_outcome(
            entries(*old(deps)),
            info.sender@,
            role@,
            address@,
            res,
            entries(*final(deps)),
        ),
{
    only_admin(info, as_read(deps))?;

    let ac_role = AccessRole::from_str(role.as_str())?;
    match ac_add_role(deps, address.as_str(), &ac_role) {
        Ok(_) => {},
        Err(error) => {
            return Err(error);
        },
    }

    let mut attributes: Vec<Attribute> = Vec::new();
    attributes.push(attr("action", "grant_role".to_owned()));
    attributes.push(attr("role", role));
    attributes.push(attr("account", address));

    let response = Response { messages: Vec::new(), attributes };
    assert(response@.messages =~= Seq::empty());
    assert(response@.attributes =~= model::role_response("grant_role"@, role@, address@).attributes);
    Ok(response)
}

/// Takes the role that `role` names from `address`. Nothing keeps the last admin
/// from being removed; a bridge without an admin can no longer be governed.
pub fn try_revoke_role(deps: &mut DepsMut, info: &MessageInfo, role: String, address: String) -> (res:
    Result<Response, ContractError>)
    requires
        valid_address(info.sender@),
        model::role_change_fits(entries(*old(deps)), info.sender@, role@, address@),
    ensures
        model::revoke_role_outcome(
            entries(*old(deps)),
            info.sender@,
            role@,
            address@,
            res,
            entries(*final(deps)),
        ),
{
    only_admin(info, as_read(deps))?;

    let ac_role = AccessRole::from_str(role.as_str())?;
    match ac_revoke_role(deps, address.as_str(), &ac_role) {
        Ok(_) => {},
        Err(error) => {
            return Err(error);
        },
    }

    let mut attributes: Vec<Attribute> = Vec::new();
    attributes.push(attr("action", "revoke_role".to_owned()));
    attributes.push(attr("role", role));
    attributes.push(attr("account", address));

    let response = Response { messages: Vec::new(), attributes };
    assert(response@.messages =~= Seq::empty());
    assert(response@.attributes =~= model::role_response("revoke_role"@, role@, address@).attributes);
    Ok(response)
}

/// Takes the role that `role` names from the caller.
pub fn try_renounce_role(deps: &mut DepsMut, info: &MessageInfo, role: String) -> (res: Result<
    Response,
    ContractError,
>)
    requires
        valid_address(info.sender@),
    ensures
        model::renounce_role_outcome(
            entries(*old(deps)),
            info.sender@,
            role@,
            res,
            entries(*final(deps)),
        ),
{
    let ac_role = AccessRole::from_str(role.as_str())?;
    let have_role = match ac_have_role(as_read(deps), info.sender.as_str(), &ac_role) {
        Ok(have_role) => have_role,
        Err(_) => false,
    };
    if !have_role {
        return Err(ContractError::DoesntHaveRole);
    }
    match ac_revoke_role(deps, info.sender.as_str(), &ac_role) {
        Ok(_) => {},
        Err(error) => {
            return Err(error);
        },
    }

    let mut attributes: Vec<Attribute> = Vec::new();
    attributes.push(attr("action", "renounce_role".to_owned()));
    attributes.push(attr("role", role));
    attributes.push(attr("account", info.sender.clone()));

    let response = Response { messages: Vec::new(), attributes };
    assert(response@.messages =~= Seq::empty());
    assert(response@.attributes =~= model::role_response(
        "renounce_role"@,
        role@,
        info.sender@,
    ).attributes);
    Ok(response)
}

// ---------------------------------------------------------------------------
// Entry points
// ---------------------------------------------------------------------------
/// Sets the bridge up and makes the caller its first admin. The state that the
/// host is to keep comes back beside the answer.
pub fn instantiate(deps: &mut DepsMut, env: Env, info: MessageInfo, msg: InstantiateMsg) -> (res:
    Result<(Response, State), ContractError>)
    requires
        model::instantiate_fits(info, msg),
    ensures
        model::instantiate_outcome(entries(*old(deps)), env, info, msg, res, entries(*final(deps))),
{
    let current_block_number = env.height;

    let mut paused_since_block_public_api = match msg.paused_since_block {
        Some(block) => block,
        None => u64::MAX,
    };
    if paused_since_block_public_api < current_block_number {
        paused_since_block_public_api = current_block_number;
    }
    let paused_since_block_relayer_api = paused_since_block_public_api;

    if msg.lower_swap_limit > msg.upper_swap_limit || msg.lower_swap_limit <= msg.swap_fee {
        return Err(ContractError::SwapLimitsInconsistent);
    }
    let denom = match &msg.denom {
        Some(denom) => denom.clone(),
        None => DEFAULT_DENOM.to_owned(),
    };

    match ac_add_role(deps, info.sender.as_str(), &AccessRole::Admin) {
        Ok(_) => {},
        Err(error) => {
            return Err(error);
        },
    }

    let supply = match amount_from_funds(&info.funds, denom.clone()) {
        Ok(amount) => amount,
        Err(_) => 0,
    };

    let state = State {
        supply,
        fees_accrued: 0,
        next_swap_id: msg.next_swap_id,
        sealed_reverse_swap_id: 0,
        relay_eon: 0,
        upper_swap_limit: msg.upper_swap_limit,
        lower_swap_limit: msg.lower_swap_limit,
        reverse_aggregated_allowance: msg.reverse_aggregated_allowance,
        reverse_aggregated_allowance_approver_cap: msg.reverse_aggregated_allowance_approver_cap,
        cap: msg.cap,
        swap_fee: msg.swap_fee,
        paused_since_block_public_api,
        paused_since_block_relayer_api,
        denom,
        contract_addr_human: env.contract_address.clone(),
    };

    Ok((Response::default(), state))
}

/// Carries out a request, or turns it down and leaves the bridge as it was.
pub fn execute(
    deps: &mut DepsMut,
    env: Env,
    info: MessageInfo,
    state: &mut State,
    msg: ExecuteMsg,
) -> (res: Result<Response, ContractError>)
    requires
        model::execute_fits(
            Ledger { state: *old(state), store: entries(*old(deps)) },
            env,
            info,
            msg,
        ),
    ensures
        model::executed(
            Ledger { state: *old(state), store: entries(*old(deps)) },
            env,
            info,
            msg,
            res,
            Ledger { state: *final(state), store: entries(*final(deps)) },
        ),
{
    match msg {
        ExecuteMsg::Swap { destination } => {
            let amount = amount_from_funds(&info.funds, state.denom.clone())?;
            try_swap(&env, state, amount, destination)
        },
        ExecuteMsg::ReverseSwap { rid, to, sender, origin_tx_hash, amount, relay_eon } => {
            try_reverse_swap(
                as_read(deps),
                &env,
                &info,
                state,
                rid,
                to,
                sender,
                origin_tx_hash,
                amount,
                relay_eon,
            )
        },
        ExecuteMsg::Refund { id, to, amount, relay_eon } => try_refund(
            deps,
            &env,
            &info,
            state,
            id,
            to,
            amount,
            relay_eon,
        ),
        ExecuteMsg::RefundInFull { id, to, amount, relay_eon } => try_refund_in_full(
            deps,
            &env,
            &info,
            state,
            id,
            to,
            amount,
            relay_eon,
        ),
        ExecuteMsg::PausePublicApi { since_block } => try_pause_public_api(
            as_read(deps),
            &env,
            &info,
            state,
            since_block,
        ),
        ExecuteMsg::PauseRelayerApi { since_block } => try_pause_relayer_api(
            as_read(deps),
            &env,
            &info,
            state,
            since_block,
        ),
        ExecuteMsg::NewRelayEon {  } => try_new_relay_eon(as_read(deps), &env, &info, state),
        ExecuteMsg::Deposit {  } => try_deposit(as_read(deps), &info, state),
        ExecuteMsg::Withdraw { amount, destination } => try_withdraw(
            as_read(deps),
            &info,
            state,
            amount,
            destination,
        ),
        ExecuteMsg::WithdrawFees { amount, destination } => try_withdraw_fees(
            as_read(deps),
            &info,
            state,
            amount,
            destination,
        ),
        ExecuteMsg::SetCap { amount } => try_set_cap(as_read(deps), &info, state, amount),
        ExecuteMsg::SetReverseAggregatedAllowance { amount } => {
            try_set_reverse_aggregated_allowance(as_read(deps), &info, state, amount)
        },
        ExecuteMsg::SetReverseAggregatedAllowanceApproverCap { amount } => {
            try_set_reverse_aggregated_allowance_approver_cap(as_read(deps), &info, state, amount)
        },
        ExecuteMsg::SetLimits { swap_min, swap_max, swap_fee } => try_set_limits(
            as_read(deps),
            &info,
            state,
            swap_min,
            swap_max,
            swap_fee,
        ),
        ExecuteMsg::GrantRole { role, address } => try_grant_role(deps, &info, role, address),
        ExecuteMsg::RevokeRole { role, address } => try_revoke_role(deps, &info, role, address),
        ExecuteMsg::RenounceRole { role } => try_renounce_role(deps, &info, role),
    }
}

// ---------------------------------------------------------------------------
// Queries
// ---------------------------------------------------------------------------
/// Answers a query. Nothing is changed.
pub fn query(deps: Deps, _env: Env, state: &State, msg: QueryMsg) -> (res: Result<
    QueryResponse,
    ContractError,
>)
    requires
        model::query_fits(msg),
    ensures
        res == model::query_answer(entries_read(deps), *state, msg),
{
    match msg {
        QueryMsg::HasRole { role, address } => {
            match query_role(deps, role, address) {
                Ok(answer) => Ok(QueryResponse::HasRole(answer)),
                Err(error) => Err(error),
            }
        },
        QueryMsg::RelayEon {  } => Ok(
            QueryResponse::RelayEon(RelayEonResponse { eon: state.relay_eon }),
        ),
        QueryMsg::Supply {  } => Ok(QueryResponse::Supply(SupplyResponse { amount: state.supply })),
        QueryMsg::Cap {  } => Ok(QueryResponse::Cap(SupplyResponse { amount: state.cap })),
        QueryMsg::SwapMax {  } => Ok(
            QueryResponse::SwapMax(SupplyResponse { amount: state.upper_swap_limit }),
        ),
        QueryMsg::ReverseAggregatedAllowance {  } => Ok(
            QueryResponse::ReverseAggregatedAllowance(
                SupplyResponse { amount: state.reverse_aggregated_allowance },
            ),
        ),
        QueryMsg::PausedPublicApiSince {  } => Ok(
            QueryResponse::PausedPublicApiSince(
                PausedSinceBlockResponse { block: state.paused_since_block_public_api },
            ),
        ),
        QueryMsg::PausedRelayerApiSince {  } => Ok(
            QueryResponse::PausedRelayerApiSince(
                PausedSinceBlockResponse { block: state.paused_since_block_relayer_api },
            ),
        ),
        QueryMsg::Denom {  } => Ok(
            QueryResponse::Denom(DenomResponse { denom: state.denom.clone() }),
        ),
        QueryMsg::FullState {  } => Ok(
            QueryResponse::FullState(
                State {
                    supply: state.supply,
                    fees_accrued: state.fees_accrued,
                    next_swap_id: state.next_swap_id,
                    sealed_reverse_swap_id: state.sealed_reverse_swap_id,
                    relay_eon: state.relay_eon,
                    upper_swap_limit: state.upper_swap_limit,
                    lower_swap_limit: state.lower_swap_limit,
                    reverse_aggregated_allowance: state.reverse_aggregated_allowance,
                    reverse_aggregated_allowance_approver_cap:
                        state.reverse_aggregated_allowance_approver_cap,
                    cap: state.cap,
                    swap_fee: state.swap_fee,
                    paused_since_block_public_api: state.paused_since_block_public_api,
                    paused_since_block_relayer_api: state.paused_since_block_relayer_api,
                    denom: state.denom.clone(),
                    contract_addr_human: state.contract_addr_human.clone(),
                },
            ),
        ),
    }
}

/// Answers whether `address` holds the role that `role` names.
fn query_role(deps: Deps, role: String, address: String) -> (res: Result<
    RoleResponse,
    ContractError,
>)
    requires
        AccessRole::named(role@) is Some ==> valid_address(address@),
    ensures
        res == model::role_answer(entries_read(deps), role@, address@),
{
    match ac_have_role(deps, address.as_str(), &AccessRole::from_str(role.as_str())?) {
        Ok(has_role) => match has_role {
            true => Ok(RoleResponse { has_role: true }),
            false => Ok(RoleResponse { has_role: false }),
        },
        Err(_) => Ok(RoleResponse { has_role: false }),
    }
}

// ---------------------------------------------------------------------------
// Whether a call can be carried out
// ---------------------------------------------------------------------------
/// Whether an address can name a namespace of the store.
pub fn is_valid_address(addr: &str) -> (valid: bool)
    ensures
        valid == valid_address(addr@),
{
    addr.as_bytes().len() <= MAX_NAMESPACE_LEN
}

/// Whether a swap of `amount` passes every check.
fn swap_passes(env: &Env, state: &State, amount: u128) -> (passes: bool)
    ensures
        passes == (model::swap_refusal(*state, env.height, amount) is None),
{
    verify_not_paused_public_api(env, state).is_ok() && verify_swap_amount_limits(
        amount,
        state,
    ).is_ok() && match state.supply.checked_add(amount) {
        Some(increased_supply) => increased_supply <= state.cap,
        None => false,
    }
}

/// Whether a relayer's request passes the checks that come before its amount is
/// looked at.
fn relayer_passes(deps: Deps, env: &Env, info: &MessageInfo, state: &State, relay_eon: u64) -> (passes:
    bool)
    requires
        valid_address(info.sender@),
    ensures
        passes == (model::relayer_refusal(
            entries_read(deps),
            *state,
            env.height,
            info.sender@,
            relay_eon,
        ) is None),
{
    only_relayer(info, deps).is_ok() && verify_tx_relay_eon(relay_eon, state).is_ok()
        && verify_not_paused_relayer_api(env, state).is_ok()
}

/// Whether the allowance and the supply cover a payment of `amount`.
fn debit_passes(state: &State, amount: u128) -> (passes: bool)
    ensures
        passes == (model::debit_refusal(*state, amount) is None),
{
    verify_aggregated_reverse_allowance(amount, state).is_ok() && amount <= state.supply
}

/// Whether the fee kept of `amount` can be added to the fees accrued.
fn fee_fits(state: &State, amount: u128, fee: u128) -> (fits: bool)
    ensures
        fits == model::debit_fits(*state, amount, fee),
{
    let charged = if amount > fee {
        fee
    } else {
        amount
    };
    state.fees_accrued.checked_add(charged).is_some()
}

/// Whether the account whose roles are to be changed can be looked up, where the
/// request gets that far.
fn role_change_can_be_made(deps: Deps, info: &MessageInfo, role: &String, address: &String) -> (fits:
    bool)
    requires
        valid_address(info.sender@),
    ensures
        fits == model::role_change_fits(entries_read(deps), info.sender@, role@, address@),
{
    !(only_admin(info, deps).is_ok() && AccessRole::from_str(role.as_str()).is_ok())
        || is_valid_address(address.as_str())
}

/// Whether `instantiate` can carry out this request, that is, whether the request
/// meets what `instantiate` requires. A request that it cannot carry out is one that
/// would ask the store for a namespace longer than the store accepts.
pub fn can_instantiate(info: &MessageInfo, msg: &InstantiateMsg) -> (fits: bool)
    ensures
        fits == model::instantiate_fits(*info, *msg),
{
    msg.lower_swap_limit > msg.upper_swap_limit || msg.lower_swap_limit <= msg.swap_fee
        || is_valid_address(info.sender.as_str())
}

/// Whether `execute` can carry out this request, that is, whether the request meets
/// what `execute` requires. A request that it cannot carry out is one that would
/// ask the store for a namespace longer than the store accepts, or that would pass
/// every check and then lift a counter or an amount beyond what its type holds.
pub fn can_execute(
    deps: Deps,
    env: &Env,
    info: &MessageInfo,
    state: &State,
    msg: &ExecuteMsg,
) -> (fits: bool)
    ensures
        fits == model::execute_fits(
            Ledger { state: *state, store: entries_read(deps) },
            *env,
            *info,
            *msg,
        ),
{
    match msg {
        ExecuteMsg::Swap { destination } => {
            match amount_from_funds(&info.funds, state.denom.clone()) {
                Ok(amount) => !swap_passes(env, state, amount) || state.next_swap_id < u64::MAX,
                Err(_) => true,
            }
        },
        ExecuteMsg::ReverseSwap { rid, to, sender, origin_tx_hash, amount, relay_eon } => {
            is_valid_address(info.sender.as_str()) && (!(relayer_passes(
                deps,
                env,
                info,
                state,
                *relay_eon,
            ) && debit_passes(state, *amount)) || fee_fits(state, *amount, state.swap_fee))
        },
        ExecuteMsg::Refund { id, to, amount, relay_eon } => {
            is_valid_address(info.sender.as_str()) && (!(relayer_passes(
                deps,
                env,
                info,
                state,
                *relay_eon,
            ) && verify_refund_swap_id(*id, deps, state).is_ok() && debit_passes(state, *amount))
                || fee_fits(state, *amount, state.swap_fee))
        },
        ExecuteMsg::RefundInFull { id, to, amount, relay_eon } => {
            is_valid_address(info.sender.as_str()) && (!(relayer_passes(
                deps,
                env,
                info,
                state,
                *relay_eon,
            ) && verify_refund_swap_id(*id, deps, state).is_ok() && debit_passes(state, *amount))
                || fee_fits(state, *amount, 0))
        },
        ExecuteMsg::NewRelayEon {  } => {
            is_valid_address(info.sender.as_str()) && (!(only_relayer(info, deps).is_ok()
                && verify_not_paused_relayer_api(env, state).is_ok()) || state.relay_eon
                < u64::MAX)
        },
        ExecuteMsg::Deposit {  } => {
            is_valid_address(info.sender.as_str()) && (!only_admin(info, deps).is_ok()
                || match amount_from_funds(&info.funds, state.denom.clone()) {
                Ok(amount) => state.supply.checked_add(amount).is_some(),
                Err(_) => true,
            })
        },
        ExecuteMsg::GrantRole { role, address } => {
            is_valid_address(info.sender.as_str()) && role_change_can_be_made(
                deps,
                info,
                role,
                address,
            )
        },
        ExecuteMsg::RevokeRole { role, address } => {
            is_valid_address(info.sender.as_str()) && role_change_can_be_made(
                deps,
                info,
                role,
                address,
            )
        },
        _ => is_valid_address(info.sender.as_str()),
    }
}

/// Whether `query` can answer this query, that is, whether the query meets what
/// `query` requires.
pub fn can_query(msg: &QueryMsg) -> (fits: bool)
    ensures
        fits == model::query_fits(*msg),
{
    match msg {
        QueryMsg::HasRole { role, address } => !AccessRole::from_str(role.as_str()).is_ok()
            || is_valid_address(address.as_str()),
        _ => true,
    }
}

} // verus!
