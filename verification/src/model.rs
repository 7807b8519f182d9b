//! The bridge as a state machine, in mathematical terms: for each kind of request,
//! when it is turned down and why, what it changes, and what it answers. The
//! functions in `contract` are proved to do exactly this.
//!
//! The names follow one pattern. For a request `x`,
//! - `x_refusal` is the rejection that the request meets, or `None` where it passes
//!   every check, the checks taken in the order in which the bridge makes them;
//! - `after_x` is the state that a request leaves which passed;
//! - `x_response` is the answer to a request which passed;
//! - `x_fits` says whether the request can be carried out at all: a request that
//!   passes every check must not lift a counter or an amount beyond what its type
//!   holds;
//! - `x_outcome` puts these together: it relates the bridge before the request,
//!   the request, its answer, and the bridge after it.
use crate::access_control::{has_role, with_role, without_role, AccessRole};
use crate::contract::DEFAULT_DENOM;
use crate::error::ContractError;
use crate::keys::valid_address;
use crate::msg::{
    DenomResponse, ExecuteMsg, InstantiateMsg, PausedSinceBlockResponse, QueryMsg, QueryResponse,
    RelayEonResponse, RoleResponse, SupplyResponse,
};
use crate::state::{refunded, with_refund, State};
use crate::text::decimal;
use crate::types::{
    attr_view, plain_response, transfer_view, BankTransferView, CoinView, Env, MessageInfo,
    Response, ResponseView,
};
use vstd::prelude::*;

verus! {

/// The host's store, as the bridge sees it.
pub type Store = Map<Seq<u8>, Seq<u8>>;

/// An interface that is paused from block `since` on is paused at `height` where
/// `since` has been reached.
pub open spec fn paused(height: u64, since: u64) -> bool {
    since <= height
}

/// The amount of the first coin of denomination `denom` among `funds`.
pub open spec fn amount_of(funds: Seq<CoinView>, denom: Seq<char>) -> Option<u128>
    decreases funds.len(),
{
    if funds.len() == 0 {
        None
    } else if funds[0].denom == denom {
        Some(funds[0].amount)
    } else {
        amount_of(funds.drop_first(), denom)
    }
}

/// The rejection of a caller who lacks `role`: `OnlyRelayer` where the role is the
/// relayer's, `OnlyAdmin` for every other role.
pub open spec fn role_error(role: AccessRole) -> ContractError {
    match role {
        AccessRole::Relayer => ContractError::OnlyRelayer,
        _ => ContractError::OnlyAdmin,
    }
}

/// Why a request that needs `role` is turned down, if it is.
pub open spec fn role_refusal(store: Store, caller: Seq<char>, role: AccessRole) -> Option<
    ContractError,
> {
    if has_role(store, caller, role) {
        None
    } else {
        Some(role_error(role))
    }
}

/// Whether `caller` may set the pause of an interface to `since_block`. A block
/// beyond the current one lifts or postpones a pause, which is for admins; anything
/// else pauses at once, which monitors may do as well.
pub open spec fn may_pause(store: Store, caller: Seq<char>, height: u64, since_block: u64) -> bool {
    if since_block > height {
        has_role(store, caller, AccessRole::Admin)
    } else {
        has_role(store, caller, AccessRole::Monitor) || has_role(store, caller, AccessRole::Admin)
    }
}

/// The block from which the interface is paused after a request for `since_block`:
/// never one before the current block.
pub open spec fn pause_block(height: u64, since_block: u64) -> u64 {
    if since_block < height {
        height
    } else {
        since_block
    }
}

/// One instruction to the bank, to pay `amount` of `denom`. The recipient is
/// written as the host's address service renders it.
pub open spec fn valid_transfer(messages: Seq<BankTransferView>, denom: Seq<char>, amount: u128)
    -> bool {
    messages.len() == 1 && messages[0] == transfer_view(messages[0].to_address, denom, amount)
}

// ---------------------------------------------------------------------------
// Swap
// ---------------------------------------------------------------------------
/// Why a swap of `amount` is turned down, if it is.
pub open spec fn swap_refusal(state: State, height: u64, amount: u128) -> Option<ContractError> {
    if paused(height, state.paused_since_block_public_api) {
        Some(ContractError::ContractPaused)
    } else if amount < state.lower_swap_limit || amount > state.upper_swap_limit {
        Some(ContractError::SwapLimitsViolated)
    } else if state.supply + amount > state.cap {
        Some(ContractError::CapExceeded)
    } else {
        None
    }
}

/// A swap adds its amount to the supply and uses up one swap id.
pub open spec fn after_swap(state: State, amount: u128) -> State {
    State {
        supply: (state.supply + amount) as u128,
        next_swap_id: (state.next_swap_id + 1) as u64,
        ..state
    }
}

pub open spec fn swap_response(destination: Seq<char>, swap_id: u64, amount: u128) -> ResponseView {
    plain_response(
        seq![
            attr_view("action"@, "swap"@),
            attr_view("destination"@, destination),
            attr_view("swap_id"@, decimal(swap_id as nat)),
            attr_view("amount"@, decimal(amount as nat)),
        ],
    )
}

/// A swap can be carried out unless it would use up the last swap id.
pub open spec fn swap_fits(state: State, height: u64, amount: u128) -> bool {
    swap_refusal(state, height, amount) is None ==> state.next_swap_id < u64::MAX
}

pub open spec fn swap_outcome(
    pre: State,
    height: u64,
    amount: u128,
    destination: Seq<char>,
    res: Result<Response, ContractError>,
    post: State,
) -> bool {
    match swap_refusal(pre, height, amount) {
        Some(error) => res == Err::<Response, ContractError>(error) && post == pre,
        None => res is Ok && res->Ok_0@ == swap_response(destination, pre.next_swap_id, amount)
            && post == after_swap(pre, amount),
    }
}

// ---------------------------------------------------------------------------
// What relayers do: reverse swaps and refunds
// ---------------------------------------------------------------------------
/// Why a relayer's request is turned down before its amount is looked at, if it is.
pub open spec fn relayer_refusal(
    store: Store,
    state: State,
    height: u64,
    caller: Seq<char>,
    relay_eon: u64,
) -> Option<ContractError> {
    if !has_role(store, caller, AccessRole::Relayer) {
        Some(ContractError::OnlyRelayer)
    } else if relay_eon != state.relay_eon {
        Some(ContractError::RelayEon)
    } else if paused(height, state.paused_since_block_relayer_api) {
        Some(ContractError::ContractPaused)
    } else {
        None
    }
}

/// Why a payment of `amount` on a relayer's word is turned down, if it is.
pub open spec fn debit_refusal(state: State, amount: u128) -> Option<ContractError> {
    if state.reverse_aggregated_allowance < amount {
        Some(ContractError::AllowanceExceeded)
    } else if amount > state.supply {
        Some(ContractError::SupplyExceeded)
    } else {
        None
    }
}

/// The fee that is kept of `amount`: the whole fee where the amount is larger, else
/// all of the amount.
pub open spec fn fee_charged(amount: u128, fee: u128) -> u128 {
    if amount > fee {
        fee
    } else {
        amount
    }
}

/// What is paid out of `amount` once the fee is kept.
pub open spec fn paid_out(amount: u128, fee: u128) -> u128 {
    (amount - fee_charged(amount, fee)) as u128
}

/// A payment on a relayer's word takes its amount from the supply and from the
/// reverse aggregated allowance, and books the fee that is kept.
pub open spec fn after_debit(state: State, amount: u128, fee: u128) -> State {
    State {
        supply: (state.supply - amount) as u128,
        reverse_aggregated_allowance: (state.reverse_aggregated_allowance - amount) as u128,
        fees_accrued: (state.fees_accrued + fee_charged(amount, fee)) as u128,
        ..state
    }
}

/// The fee that is kept can be booked.
pub open spec fn debit_fits(state: State, amount: u128, fee: u128) -> bool {
    state.fees_accrued + fee_charged(amount, fee) <= u128::MAX
}

/// What a relayer's payment instructs the bank to do: one transfer of what is paid
/// out, in the bridge's denomination, where anything is paid out; nothing where the
/// fee eats the amount. The recipient is written as the host's address service
/// renders it.
pub open spec fn valid_payout(
    messages: Seq<BankTransferView>,
    denom: Seq<char>,
    amount: u128,
    fee: u128,
) -> bool {
    if amount > fee {
        valid_transfer(messages, denom, paid_out(amount, fee))
    } else {
        messages.len() == 0
    }
}

pub open spec fn reverse_swap_refusal(
    store: Store,
    state: State,
    height: u64,
    caller: Seq<char>,
    amount: u128,
    relay_eon: u64,
) -> Option<ContractError> {
    match relayer_refusal(store, state, height, caller, relay_eon) {
        Some(error) => Some(error),
        None => debit_refusal(state, amount),
    }
}

pub open spec fn reverse_swap_response(
    rid: u64,
    to: Seq<char>,
    sender: Seq<char>,
    origin_tx_hash: Seq<char>,
    amount: u128,
    fee: u128,
    messages: Seq<BankTransferView>,
) -> ResponseView {
    ResponseView {
        messages,
        attributes: seq![
            attr_view("action"@, "reverse_swap"@),
            attr_view("rid"@, decimal(rid as nat)),
            attr_view("to"@, to),
            attr_view("sender"@, sender),
            attr_view("origin_tx_hash"@, origin_tx_hash),
            attr_view("amount"@, decimal(paid_out(amount, fee) as nat)),
            attr_view("swap_fee"@, decimal(fee_charged(amount, fee) as nat)),
        ],
    }
}

pub open spec fn reverse_swap_fits(
    store: Store,
    state: State,
    height: u64,
    caller: Seq<char>,
    amount: u128,
    relay_eon: u64,
) -> bool {
    reverse_swap_refusal(store, state, height, caller, amount, relay_eon) is None ==> debit_fits(
        state,
        amount,
        state.swap_fee,
    )
}

/// What holds after a reverse swap was asked for. Where the request passes the
/// bridge's own checks and something is to be paid out, the host's address service
/// has the last word: if it refuses the recipient, the request fails with the
/// host's error.
pub open spec fn reverse_swap_outcome(
    store: Store,
    pre: State,
    height: u64,
    caller: Seq<char>,
    rid: u64,
    to: Seq<char>,
    sender: Seq<char>,
    origin_tx_hash: Seq<char>,
    amount: u128,
    relay_eon: u64,
    res: Result<Response, ContractError>,
    post: State,
) -> bool {
    match reverse_swap_refusal(store, pre, height, caller, amount, relay_eon) {
        Some(error) => res == Err::<Response, ContractError>(error) && post == pre,
        None => match res {
            Ok(response) => post == after_debit(pre, amount, pre.swap_fee) && valid_payout(
                response@.messages,
                pre.denom@,
                amount,
                pre.swap_fee,
            ) && response@ == reverse_swap_response(
                rid,
                to,
                sender,
                origin_tx_hash,
                amount,
                pre.swap_fee,
                response@.messages,
            ),
            Err(error) => error is Std && amount > pre.swap_fee && post == pre,
        },
    }
}

pub open spec fn refund_refusal(
    store: Store,
    state: State,
    height: u64,
    caller: Seq<char>,
    id: u64,
    amount: u128,
    relay_eon: u64,
) -> Option<ContractError> {
    match relayer_refusal(store, state, height, caller, relay_eon) {
        Some(error) => Some(error),
        None => if id >= state.next_swap_id {
            Some(ContractError::InvalidSwapId)
        } else if refunded(store, id) {
            Some(ContractError::AlreadyRefunded)
        } else {
            debit_refusal(state, amount)
        },
    }
}

pub open spec fn refund_response(
    id: u64,
    to: Seq<char>,
    amount: u128,
    fee: u128,
    messages: Seq<BankTransferView>,
) -> ResponseView {
    ResponseView {
        messages,
        attributes: seq![
            attr_view("action"@, "refund"@),
            attr_view("destination"@, to),
            attr_view("swap_id"@, decimal(id as nat)),
            attr_view("amount"@, decimal(paid_out(amount, fee) as nat)),
            attr_view("refund_fee"@, decimal(fee_charged(amount, fee) as nat)),
        ],
    }
}

pub open spec fn refund_fits(
    store: Store,
    state: State,
    height: u64,
    caller: Seq<char>,
    id: u64,
    amount: u128,
    relay_eon: u64,
    fee: u128,
) -> bool {
    refund_refusal(store, state, height, caller, id, amount, relay_eon) is None ==> debit_fits(
        state,
        amount,
        fee,
    )
}

/// What holds after a refund with the fee `fee` was asked for.
pub open spec fn refund_outcome(
    pre_store: Store,
    pre: State,
    height: u64,
    caller: Seq<char>,
    id: u64,
    to: Seq<char>,
    amount: u128,
    relay_eon: u64,
    fee: u128,
    res: Result<Response, ContractError>,
    post_store: Store,
    post: State,
) -> bool {
    match refund_refusal(pre_store, pre, height, caller, id, amount, relay_eon) {
        Some(error) => res == Err::<Response, ContractError>(error) && post == pre && post_store
            == pre_store,
        None => match res {
            Ok(response) => post == after_debit(pre, amount, fee) && post_store == with_refund(
                pre_store,
                id,
            ) && valid_payout(response@.messages, pre.denom@, amount, fee) && response@
                == refund_response(id, to, amount, fee, response@.messages),
            Err(error) => error is Std && amount > fee && post == pre && post_store == pre_store,
        },
    }
}

// ---------------------------------------------------------------------------
// Pauses and relay eons
// ---------------------------------------------------------------------------
pub open spec fn pause_refusal(store: Store, caller: Seq<char>, height: u64, since_block: u64)
    -> Option<ContractError> {
    if may_pause(store, caller, height, since_block) {
        None
    } else {
        Some(ContractError::OnlyAdmin)
    }
}

pub open spec fn after_pause_public_api(state: State, height: u64, since_block: u64) -> State {
    State { paused_since_block_public_api: pause_block(height, since_block), ..state }
}

pub open spec fn after_pause_relayer_api(state: State, height: u64, since_block: u64) -> State {
    State { paused_since_block_relayer_api: pause_block(height, since_block), ..state }
}

pub open spec fn pause_response(action: Seq<char>, block: u64) -> ResponseView {
    plain_response(
        seq![attr_view("action"@, action), attr_view("since_block"@, decimal(block as nat))],
    )
}

pub open spec fn pause_public_api_outcome(
    store: Store,
    pre: State,
    height: u64,
    caller: Seq<char>,
    since_block: u64,
    res: Result<Response, ContractError>,
    post: State,
) -> bool {
    match pause_refusal(store, caller, height, since_block) {
        Some(error) => res == Err::<Response, ContractError>(error) && post == pre,
        None => res is Ok && res->Ok_0@ == pause_response(
            "pause_public_api"@,
            pause_block(height, since_block),
        ) && post == after_pause_public_api(pre, height, since_block),
    }
}

pub open spec fn pause_relayer_api_outcome(
    store: Store,
    pre: State,
    height: u64,
    caller: Seq<char>,
    since_block: u64,
    res: Result<Response, ContractError>,
    post: State,
) -> bool {
    match pause_refusal(store, caller, height, since_block) {
        Some(error) => res == Err::<Response, ContractError>(error) && post == pre,
        None => res is Ok && res->Ok_0@ == pause_response(
            "pause_relayer_api"@,
            pause_block(height, since_block),
        ) && post == after_pause_relayer_api(pre, height, since_block),
    }
}

pub open spec fn new_relay_eon_refusal(store: Store, state: State, height: u64, caller: Seq<char>)
    -> Option<ContractError> {
    if !has_role(store, caller, AccessRole::Relayer) {
        Some(ContractError::OnlyRelayer)
    } else if paused(height, state.paused_since_block_relayer_api) {
        Some(ContractError::ContractPaused)
    } else {
        None
    }
}

pub open spec fn after_new_relay_eon(state: State) -> State {
    State { relay_eon: (state.relay_eon + 1) as u64, ..state }
}

pub open spec fn new_relay_eon_response(eon: u64) -> ResponseView {
    plain_response(
        seq![attr_view("action"@, "new_relay_eon"@), attr_view("eon"@, decimal(eon as nat))],
    )
}

/// A new relay eon can be started unless the current one is the last there is.
pub open spec fn new_relay_eon_fits(store: Store, state: State, height: u64, caller: Seq<char>)
    -> bool {
    new_relay_eon_refusal(store, state, height, caller) is None ==> state.relay_eon < u64::MAX
}

pub open spec fn new_relay_eon_outcome(
    store: Store,
    pre: State,
    height: u64,
    caller: Seq<char>,
    res: Result<Response, ContractError>,
    post: State,
) -> bool {
    match new_relay_eon_refusal(store, pre, height, caller) {
        Some(error) => res == Err::<Response, ContractError>(error) && post == pre,
        None => res is Ok && res->Ok_0@ == new_relay_eon_response(post.relay_eon) && post
            == after_new_relay_eon(pre),
    }
}

// ---------------------------------------------------------------------------
// The treasury
// ---------------------------------------------------------------------------
pub open spec fn deposit_refusal(
    store: Store,
    state: State,
    caller: Seq<char>,
    funds: Seq<CoinView>,
) -> Option<ContractError> {
    if !has_role(store, caller, AccessRole::Admin) {
        Some(ContractError::OnlyAdmin)
    } else if amount_of(funds, state.denom@) is None {
        Some(ContractError::UnrecognizedDenom)
    } else {
        None
    }
}

pub open spec fn after_deposit(state: State, amount: u128) -> State {
    State { supply: (state.supply + amount) as u128, ..state }
}

pub open spec fn deposit_response(amount: u128, caller: Seq<char>) -> ResponseView {
    plain_response(
        seq![
            attr_view("action"@, "deposit"@),
            attr_view("amount"@, decimal(amount as nat)),
            attr_view("sender"@, caller),
        ],
    )
}

/// A deposit can be carried out where the supply can hold it.
pub open spec fn deposit_fits(store: Store, state: State, caller: Seq<char>, funds: Seq<CoinView>)
    -> bool {
    deposit_refusal(store, state, caller, funds) is None ==> state.supply + amount_of(
        funds,
        state.denom@,
    )->Some_0 <= u128::MAX
}

pub open spec fn deposit_outcome(
    store: Store,
    pre: State,
    caller: Seq<char>,
    funds: Seq<CoinView>,
    res: Result<Response, ContractError>,
    post: State,
) -> bool {
    match deposit_refusal(store, pre, caller, funds) {
        Some(error) => res == Err::<Response, ContractError>(error) && post == pre,
        None => {
            let amount = amount_of(funds, pre.denom@)->Some_0;
            res is Ok && res->Ok_0@ == deposit_response(amount, caller) && post == after_deposit(
                pre,
                amount,
            )
        },
    }
}

/// Why a withdrawal of `amount` from a pot that holds `available` is turned down, if
/// it is.
pub open spec fn withdraw_refusal(store: Store, caller: Seq<char>, available: u128, amount: u128)
    -> Option<ContractError> {
    if !has_role(store, caller, AccessRole::Admin) {
        Some(ContractError::OnlyAdmin)
    } else if amount > available {
        Some(ContractError::SupplyExceeded)
    } else {
        None
    }
}

pub open spec fn after_withdraw(state: State, amount: u128) -> State {
    State { supply: (state.supply - amount) as u128, ..state }
}

pub open spec fn after_withdraw_fees(state: State, amount: u128) -> State {
    State { fees_accrued: (state.fees_accrued - amount) as u128, ..state }
}

pub open spec fn withdraw_response(
    action: Seq<char>,
    amount: u128,
    destination: Seq<char>,
    messages: Seq<BankTransferView>,
) -> ResponseView {
    ResponseView {
        messages,
        attributes: seq![
            attr_view("action"@, action),
            attr_view("amount"@, decimal(amount as nat)),
            attr_view("destination"@, destination),
        ],
    }
}

/// What holds after a withdrawal from the supply was asked for. The host's address
/// service has the last word on the destination.
pub open spec fn withdraw_outcome(
    store: Store,
    pre: State,
    caller: Seq<char>,
    amount: u128,
    destination: Seq<char>,
    res: Result<Response, ContractError>,
    post: State,
) -> bool {
    match withdraw_refusal(store, caller, pre.supply, amount) {
        Some(error) => res == Err::<Response, ContractError>(error) && post == pre,
        None => match res {
            Ok(response) => post == after_withdraw(pre, amount) && valid_transfer(
                response@.messages,
                pre.denom@,
                amount,
            ) && response@ == withdraw_response(
                "withdraw"@,
                amount,
                destination,
                response@.messages,
            ),
            Err(error) => error is Std && post == pre,
        },
    }
}

/// What holds after a withdrawal from the fees accrued was asked for.
pub open spec fn withdraw_fees_outcome(
    store: Store,
    pre: State,
    caller: Seq<char>,
    amount: u128,
    destination: Seq<char>,
    res: Result<Response, ContractError>,
    post: State,
) -> bool {
    match withdraw_refusal(store, caller, pre.fees_accrued, amount) {
        Some(error) => res == Err::<Response, ContractError>(error) && post == pre,
        None => match res {
            Ok(response) => post == after_withdraw_fees(pre, amount) && valid_transfer(
                response@.messages,
                pre.denom@,
                amount,
            ) && response@ == withdraw_response(
                "withdraw_fees"@,
                amount,
                destination,
                response@.messages,
            ),
            Err(error) => error is Std && post == pre,
        },
    }
}

// ---------------------------------------------------------------------------
// Parameters
// ---------------------------------------------------------------------------
pub open spec fn set_cap_response(amount: u128) -> ResponseView {
    plain_response(
        seq![attr_view("action"@, "set_cap"@), attr_view("cap"@, decimal(amount as nat))],
    )
}

pub open spec fn set_cap_outcome(
    store: Store,
    pre: State,
    caller: Seq<char>,
    amount: u128,
    res: Result<Response, ContractError>,
    post: State,
) -> bool {
    match role_refusal(store, caller, AccessRole::Admin) {
        Some(error) => res == Err::<Response, ContractError>(error) && post == pre,
        None => res is Ok && res->Ok_0@ == set_cap_response(amount) && post == (State {
            cap: amount,
            ..pre
        }),
    }
}

/// Who may set the reverse aggregated allowance to `amount`: an admin, or an
/// approver where the amount is within the approvers' cap.
pub open spec fn may_set_allowance(store: Store, state: State, caller: Seq<char>, amount: u128)
    -> bool {
    has_role(store, caller, AccessRole::Admin) || (amount
        <= state.reverse_aggregated_allowance_approver_cap && has_role(
        store,
        caller,
        AccessRole::Approver,
    ))
}

pub open spec fn set_allowance_response(action: Seq<char>, amount: u128) -> ResponseView {
    plain_response(
        seq![attr_view("action"@, action), attr_view("amount"@, decimal(amount as nat))],
    )
}

pub open spec fn set_reverse_aggregated_allowance_outcome(
    store: Store,
    pre: State,
    caller: Seq<char>,
    amount: u128,
    res: Result<Response, ContractError>,
    post: State,
) -> bool {
    if may_set_allowance(store, pre, caller, amount) {
        res is Ok && res->Ok_0@ == set_allowance_response(
            "set_reverse_aggregated_allowance"@,
            amount,
        ) && post == (State { reverse_aggregated_allowance: amount, ..pre })
    } else {
        res == Err::<Response, ContractError>(ContractError::OnlyAdmin) && post == pre
    }
}

pub open spec fn set_reverse_aggregated_allowance_approver_cap_outcome(
    store: Store,
    pre: State,
    caller: Seq<char>,
    amount: u128,
    res: Result<Response, ContractError>,
    post: State,
) -> bool {
    match role_refusal(store, caller, AccessRole::Admin) {
        Some(error) => res == Err::<Response, ContractError>(error) && post == pre,
        None => res is Ok && res->Ok_0@ == set_allowance_response(
            "set_reverse_aggregated_allowance_approver_cap"@,
            amount,
        ) && post == (State { reverse_aggregated_allowance_approver_cap: amount, ..pre }),
    }
}

/// Swap limits and a swap fee go together where the fee is below the lower limit
/// and the lower limit is not above the upper one.
pub open spec fn limits_consistent(swap_min: u128, swap_max: u128, swap_fee: u128) -> bool {
    swap_fee < swap_min <= swap_max
}

pub open spec fn set_limits_refusal(
    store: Store,
    caller: Seq<char>,
    swap_min: u128,
    swap_max: u128,
    swap_fee: u128,
) -> Option<ContractError> {
    if !has_role(store, caller, AccessRole::Admin) {
        Some(ContractError::OnlyAdmin)
    } else if !limits_consistent(swap_min, swap_max, swap_fee) {
        Some(ContractError::SwapLimitsInconsistent)
    } else {
        None
    }
}

pub open spec fn set_limits_response(swap_min: u128, swap_max: u128, swap_fee: u128)
    -> ResponseView {
    plain_response(
        seq![
            attr_view("action"@, "set_limits"@),
            attr_view("swap_fee"@, decimal(swap_fee as nat)),
            attr_view("swap_min"@, decimal(swap_min as nat)),
            attr_view("swap_max"@, decimal(swap_max as nat)),
        ],
    )
}

pub open spec fn set_limits_outcome(
    store: Store,
    pre: State,
    caller: Seq<char>,
    swap_min: u128,
    swap_max: u128,
    swap_fee: u128,
    res: Result<Response, ContractError>,
    post: State,
) -> bool {
    match set_limits_refusal(store, caller, swap_min, swap_max, swap_fee) {
        Some(error) => res == Err::<Response, ContractError>(error) && post == pre,
        None => res is Ok && res->Ok_0@ == set_limits_response(swap_min, swap_max, swap_fee)
            && post == (State {
            swap_fee,
            lower_swap_limit: swap_min,
            upper_swap_limit: swap_max,
            ..pre
        }),
    }
}

// ---------------------------------------------------------------------------
// Roles
// ---------------------------------------------------------------------------
pub open spec fn role_response(action: Seq<char>, role: Seq<char>, account: Seq<char>)
    -> ResponseView {
    plain_response(
        seq![
            attr_view("action"@, action),
            attr_view("role"@, role),
            attr_view("account"@, account),
        ],
    )
}

/// Why an admin's request to give `address` the role that `role` names, or to take
/// it away, is turned down, if it is. `grant` tells which of the two is asked for.
pub open spec fn role_change_refusal(
    store: Store,
    caller: Seq<char>,
    role: Seq<char>,
    address: Seq<char>,
    grant: bool,
) -> Option<ContractError> {
    if !has_role(store, caller, AccessRole::Admin) {
        Some(ContractError::OnlyAdmin)
    } else {
        match AccessRole::named(role) {
            None => Some(ContractError::UnknownRole),
            Some(named) => if grant && has_role(store, address, named) {
                Some(ContractError::AlreadyHasRole)
            } else if !grant && !has_role(store, address, named) {
                Some(ContractError::DoesntHaveRole)
            } else {
                None
            },
        }
    }
}

/// The account whose roles an admin changes can be looked up in the store.
pub open spec fn role_change_fits(
    store: Store,
    caller: Seq<char>,
    role: Seq<char>,
    address: Seq<char>,
) -> bool {
    has_role(store, caller, AccessRole::Admin) && AccessRole::named(role) is Some
        ==> valid_address(address)
}

pub open spec fn grant_role_outcome(
    pre: Store,
    caller: Seq<char>,
    role: Seq<char>,
    address: Seq<char>,
    res: Result<Response, ContractError>,
    post: Store,
) -> bool {
    match role_change_refusal(pre, caller, role, address, true) {
        Some(error) => res == Err::<Response, ContractError>(error) && post == pre,
        None => res is Ok && res->Ok_0@ == role_response("grant_role"@, role, address) && post
            == with_role(pre, address, AccessRole::named(role)->Some_0),
    }
}

pub open spec fn revoke_role_outcome(
    pre: Store,
    caller: Seq<char>,
    role: Seq<char>,
    address: Seq<char>,
    res: Result<Response, ContractError>,
    post: Store,
) -> bool {
    match role_change_refusal(pre, caller, role, address, false) {
        Some(error) => res == Err::<Response, ContractError>(error) && post == pre,
        None => res is Ok && res->Ok_0@ == role_response("revoke_role"@, role, address) && post
            == without_role(pre, address, AccessRole::named(role)->Some_0),
    }
}

pub open spec fn renounce_role_refusal(store: Store, caller: Seq<char>, role: Seq<char>) -> Option<
    ContractError,
> {
    match AccessRole::named(role) {
        None => Some(ContractError::UnknownRole),
        Some(named) => if !has_role(store, caller, named) {
            Some(ContractError::DoesntHaveRole)
        } else {
            None
        },
    }
}

pub open spec fn renounce_role_outcome(
    pre: Store,
    caller: Seq<char>,
    role: Seq<char>,
    res: Result<Response, ContractError>,
    post: Store,
) -> bool {
    match renounce_role_refusal(pre, caller, role) {
        Some(error) => res == Err::<Response, ContractError>(error) && post == pre,
        None => res is Ok && res->Ok_0@ == role_response("renounce_role"@, role, caller) && post
            == without_role(pre, caller, AccessRole::named(role)->Some_0),
    }
}

// ---------------------------------------------------------------------------
// Setting up
// ---------------------------------------------------------------------------
/// Why a bridge is not set up as asked, if it is not. The caller becomes the first
/// admin, so a caller whom the store already knows as an admin is turned down.
pub open spec fn instantiate_refusal(store: Store, caller: Seq<char>, msg: InstantiateMsg)
    -> Option<ContractError> {
    if !limits_consistent(msg.lower_swap_limit, msg.upper_swap_limit, msg.swap_fee) {
        Some(ContractError::SwapLimitsInconsistent)
    } else if has_role(store, caller, AccessRole::Admin) {
        Some(ContractError::AlreadyHasRole)
    } else {
        None
    }
}

/// The denomination of a bridge that is set up with `msg`.
pub open spec fn initial_denom(msg: InstantiateMsg) -> Seq<char> {
    match msg.denom {
        Some(denom) => denom@,
        None => DEFAULT_DENOM@,
    }
}

/// The block from which both interfaces of a bridge set up with `msg` are paused.
pub open spec fn initial_pause(height: u64, msg: InstantiateMsg) -> u64 {
    pause_block(
        height,
        match msg.paused_since_block {
            Some(block) => block,
            None => u64::MAX,
        },
    )
}

/// Whether `state` is what a bridge starts with that is set up with `msg`: the
/// parameters are the message's, the supply is what was sent along in the bridge's
/// denomination, no fees have accrued, and the relay eon is the first.
pub open spec fn is_initial_state(state: State, env: Env, info: MessageInfo, msg: InstantiateMsg)
    -> bool {
    &&& state.supply == match amount_of(info.funds_view(), initial_denom(msg)) {
        Some(amount) => amount,
        None => 0,
    }
    &&& state.fees_accrued == 0
    &&& state.next_swap_id == msg.next_swap_id
    &&& state.sealed_reverse_swap_id == 0
    &&& state.relay_eon == 0
    &&& state.upper_swap_limit == msg.upper_swap_limit
    &&& state.lower_swap_limit == msg.lower_swap_limit
    &&& state.reverse_aggregated_allowance == msg.reverse_aggregated_allowance
    &&& state.reverse_aggregated_allowance_approver_cap
        == msg.reverse_aggregated_allowance_approver_cap
    &&& state.cap == msg.cap
    &&& state.swap_fee == msg.swap_fee
    &&& state.paused_since_block_public_api == initial_pause(env.height, msg)
    &&& state.paused_since_block_relayer_api == initial_pause(env.height, msg)
    &&& state.denom@ == initial_denom(msg)
    &&& state.contract_addr_human@ == env.contract_address@
}

/// The caller can be written into the store as the first admin.
pub open spec fn instantiate_fits(info: MessageInfo, msg: InstantiateMsg) -> bool {
    limits_consistent(msg.lower_swap_limit, msg.upper_swap_limit, msg.swap_fee) ==> valid_address(
        info.sender@,
    )
}

pub open spec fn instantiate_outcome(
    pre: Store,
    env: Env,
    info: MessageInfo,
    msg: InstantiateMsg,
    res: Result<(Response, State), ContractError>,
    post: Store,
) -> bool {
    match instantiate_refusal(pre, info.sender@, msg) {
        Some(error) => res == Err::<(Response, State), ContractError>(error) && post == pre,
        None => res is Ok && res->Ok_0.0@ == plain_response(Seq::empty()) && is_initial_state(
            res->Ok_0.1,
            env,
            info,
            msg,
        ) && post == with_role(pre, info.sender@, AccessRole::Admin),
    }
}

// ---------------------------------------------------------------------------
// The bridge as a whole
// ---------------------------------------------------------------------------
/// All that the bridge keeps between calls.
pub struct Ledger {
    pub state: State,
    pub store: Store,
}

/// Whether a request can be carried out: the caller's address, and the address of
/// an account whose roles are changed, can name a namespace of the store, and no
/// counter or amount that the request would raise is at its end.
pub open spec fn execute_fits(pre: Ledger, env: Env, info: MessageInfo, msg: ExecuteMsg) -> bool {
    let caller = info.sender@;
    match msg {
        ExecuteMsg::Swap { destination } => match amount_of(info.funds_view(), pre.state.denom@) {
            Some(amount) => swap_fits(pre.state, env.height, amount),
            None => true,
        },
        ExecuteMsg::ReverseSwap { rid, to, sender, origin_tx_hash, amount, relay_eon } => {
            valid_address(caller) && reverse_swap_fits(
                pre.store,
                pre.state,
                env.height,
                caller,
                amount,
                relay_eon,
            )
        },
        ExecuteMsg::Refund { id, to, amount, relay_eon } => valid_address(caller) && refund_fits(
            pre.store,
            pre.state,
            env.height,
            caller,
            id,
            amount,
            relay_eon,
            pre.state.swap_fee,
        ),
        ExecuteMsg::RefundInFull { id, to, amount, relay_eon } => valid_address(caller)
            && refund_fits(pre.store, pre.state, env.height, caller, id, amount, relay_eon, 0),
        ExecuteMsg::NewRelayEon {  } => valid_address(caller) && new_relay_eon_fits(
            pre.store,
            pre.state,
            env.height,
            caller,
        ),
        ExecuteMsg::Deposit {  } => valid_address(caller) && deposit_fits(
            pre.store,
            pre.state,
            caller,
            info.funds_view(),
        ),
        ExecuteMsg::GrantRole { role, address } => valid_address(caller) && role_change_fits(
            pre.store,
            caller,
            role@,
            address@,
        ),
        ExecuteMsg::RevokeRole { role, address } => valid_address(caller) && role_change_fits(
            pre.store,
            caller,
            role@,
            address@,
        ),
        _ => valid_address(caller),
    }
}

/// What holds of a request, its answer, and the bridge before and after it. A
/// request that is turned down changes nothing.
pub open spec fn executed(
    pre: Ledger,
    env: Env,
    info: MessageInfo,
    msg: ExecuteMsg,
    res: Result<Response, ContractError>,
    post: Ledger,
) -> bool {
    let caller = info.sender@;
    match msg {
        ExecuteMsg::Swap { destination } => post.store == pre.store && match amount_of(
            info.funds_view(),
            pre.state.denom@,
        ) {
            Some(amount) => swap_outcome(
                pre.state,
                env.height,
                amount,
                destination@,
                res,
                post.state,
            ),
            None => res == Err::<Response, ContractError>(ContractError::UnrecognizedDenom)
                && post.state == pre.state,
        },
        ExecuteMsg::ReverseSwap { rid, to, sender, origin_tx_hash, amount, relay_eon } => {
            post.store == pre.store && reverse_swap_outcome(
                pre.store,
                pre.state,
                env.height,
                caller,
                rid,
                to@,
                sender@,
                origin_tx_hash@,
                amount,
                relay_eon,
                res,
                post.state,
            )
        },
        ExecuteMsg::Refund { id, to, amount, relay_eon } => refund_outcome(
            pre.store,
            pre.state,
            env.height,
            caller,
            id,
            to@,
            amount,
            relay_eon,
            pre.state.swap_fee,
            res,
            post.store,
            post.state,
        ),
        ExecuteMsg::RefundInFull { id, to, amount, relay_eon } => refund_outcome(
            pre.store,
            pre.state,
            env.height,
            caller,
            id,
            to@,
            amount,
            relay_eon,
            0,
            res,
            post.store,
            post.state,
        ),
        ExecuteMsg::PausePublicApi { since_block } => post.store == pre.store
            && pause_public_api_outcome(
            pre.store,
            pre.state,
            env.height,
            caller,
            since_block,
            res,
            post.state,
        ),
        ExecuteMsg::PauseRelayerApi { since_block } => post.store == pre.store
            && pause_relayer_api_outcome(
            pre.store,
            pre.state,
            env.height,
            caller,
            since_block,
            res,
            post.state,
        ),
        ExecuteMsg::NewRelayEon {  } => post.store == pre.store && new_relay_eon_outcome(
            pre.store,
            pre.state,
            env.height,
            caller,
            res,
            post.state,
        ),
        ExecuteMsg::Deposit {  } => post.store == pre.store && deposit_outcome(
            pre.store,
            pre.state,
            caller,
            info.funds_view(),
            res,
            post.state,
        ),
        ExecuteMsg::Withdraw { amount, destination } => post.store == pre.store
            && withdraw_outcome(
            pre.store,
            pre.state,
            caller,
            amount,
            destination@,
            res,
            post.state,
        ),
        ExecuteMsg::WithdrawFees { amount, destination } => post.store == pre.store
            && withdraw_fees_outcome(
            pre.store,
            pre.state,
            caller,
            amount,
            destination@,
            res,
            post.state,
        ),
        ExecuteMsg::SetCap { amount } => post.store == pre.store && set_cap_outcome(
            pre.store,
            pre.state,
            caller,
            amount,
            res,
            post.state,
        ),
        ExecuteMsg::SetReverseAggregatedAllowance { amount } => post.store == pre.store
            && set_reverse_aggregated_allowance_outcome(
            pre.store,
            pre.state,
            caller,
            amount,
            res,
            post.state,
        ),
        ExecuteMsg::SetReverseAggregatedAllowanceApproverCap { amount } => post.store
            == pre.store && set_reverse_aggregated_allowance_approver_cap_outcome(
            pre.store,
            pre.state,
            caller,
            amount,
            res,
            post.state,
        ),
        ExecuteMsg::SetLimits { swap_min, swap_max, swap_fee } => post.store == pre.store
            && set_limits_outcome(
            pre.store,
            pre.state,
            caller,
            swap_min,
            swap_max,
            swap_fee,
            res,
            post.state,
        ),
        ExecuteMsg::GrantRole { role, address } => post.state == pre.state && grant_role_outcome(
            pre.store,
            caller,
            role@,
            address@,
            res,
            post.store,
        ),
        ExecuteMsg::RevokeRole { role, address } => post.state == pre.state
            && revoke_role_outcome(pre.store, caller, role@, address@, res, post.store),
        ExecuteMsg::RenounceRole { role } => post.state == pre.state && renounce_role_outcome(
            pre.store,
            caller,
            role@,
            res,
            post.store,
        ),
    }
}

// ---------------------------------------------------------------------------
// Queries
// ---------------------------------------------------------------------------
/// The answer to the question whether `address` holds the role that `role` names.
pub open spec fn role_answer(store: Store, role: Seq<char>, address: Seq<char>) -> Result<
    RoleResponse,
    ContractError,
> {
    match AccessRole::named(role) {
        Some(named) => Ok(RoleResponse { has_role: has_role(store, address, named) }),
        None => Err(ContractError::UnknownRole),
    }
}

/// The answer to a query.
pub open spec fn query_answer(store: Store, state: State, msg: QueryMsg) -> Result<
    QueryResponse,
    ContractError,
> {
    match msg {
        QueryMsg::HasRole { role, address } => match role_answer(store, role@, address@) {
            Ok(answer) => Ok(QueryResponse::HasRole(answer)),
            Err(error) => Err(error),
        },
        QueryMsg::RelayEon {  } => Ok(
            QueryResponse::RelayEon(RelayEonResponse { eon: state.relay_eon }),
        ),
        QueryMsg::Supply {  } => Ok(QueryResponse::Supply(SupplyResponse { amount: state.supply })),
        QueryMsg::Cap {  } => Ok(QueryResponse::Cap(SupplyResponse { amount: state.cap })),
        QueryMsg::SwapMax {  } => Ok(
            QueryResponse::SwapMax(SupplyResponse { amount: state.upper_swap_limit }),
        ),
        QueryMsg::ReverseAggregatedAllowance {  } => Ok(
            QueryResponse::ReverseAggregatedAllowance(
                SupplyResponse { amount: state.reverse_aggregated_allowance },
            ),
        ),
        QueryMsg::PausedPublicApiSince {  } => Ok(
            QueryResponse::PausedPublicApiSince(
                PausedSinceBlockResponse { block: state.paused_since_block_public_api },
            ),
        ),
        QueryMsg::PausedRelayerApiSince {  } => Ok(
            QueryResponse::PausedRelayerApiSince(
                PausedSinceBlockResponse { block: state.paused_since_block_relayer_api },
            ),
        ),
        QueryMsg::Denom {  } => Ok(QueryResponse::Denom(DenomResponse { denom: state.denom })),
        QueryMsg::FullState {  } => Ok(QueryResponse::FullState(state)),
    }
}

/// The account that a query asks about can be looked up in the store.
pub open spec fn query_fits(msg: QueryMsg) -> bool {
    match msg {
        QueryMsg::HasRole { role, address } => AccessRole::named(role@) is Some ==> valid_address(
            address@,
        ),
        _ => true,
    }
}

} // verus!
