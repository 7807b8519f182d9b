//! What holds of the bridge whatever it is asked to do, proved from what
//! `contract::execute` and `contract::instantiate` guarantee.
use crate::access_control::{has_role, with_role, without_role, AccessRole};
use crate::error::ContractError;
use crate::keys::{
    lemma_keys_disjoint, lemma_refund_key_injective, lemma_role_key_injective, valid_address,
};
use crate::model::{
    after_pause_public_api, after_pause_relayer_api, amount_of, execute_fits, executed,
    fee_charged, instantiate_outcome, paid_out, paused, refund_refusal, swap_refusal, Ledger,
    Store,
};
use crate::msg::{ExecuteMsg, InstantiateMsg};
use crate::state::{refunded, State};
use crate::types::{Env, MessageInfo, Response};
use vstd::prelude::*;

verus! {

/// One call of `execute`: what the host said of the call, the request, and the
/// answer.
pub struct Step {
    pub env: Env,
    pub info: MessageInfo,
    pub msg: ExecuteMsg,
    pub res: Result<Response, ContractError>,
}

/// Whether the bridge went from `pre` to `post` by the call `step`.
pub open spec fn stepped(pre: Ledger, step: Step, post: Ledger) -> bool {
    execute_fits(pre, step.env, step.info, step.msg) && executed(
        pre,
        step.env,
        step.info,
        step.msg,
        step.res,
        post,
    )
}

/// A history of the bridge: `steps[i]` took it from `ledgers[i]` to
/// `ledgers[i + 1]`.
pub open spec fn history(ledgers: Seq<Ledger>, steps: Seq<Step>) -> bool {
    ledgers.len() == steps.len() + 1 && forall|i: int|
        0 <= i < steps.len() ==> stepped(#[trigger] ledgers[i], steps[i], ledgers[i + 1])
}

// ---------------------------------------------------------------------------
// The supply is what went in less what went out
// ---------------------------------------------------------------------------
/// The ways in which funds enter and leave the supply.
pub enum Flow {
    Swapped,
    ReverseSwapped,
    Refunded,
    Withdrawn,
    Deposited,
}

/// What a call moved in the way `flow`: the amount of a request of that kind that
/// succeeded, nothing otherwise. A refund in full counts as a refund.
pub open spec fn moved(flow: Flow, pre: Ledger, step: Step) -> nat {
    let sent = match amount_of(step.info.funds_view(), pre.state.denom@) {
        Some(amount) => amount as nat,
        None => 0,
    };
    if step.res is Err {
        0
    } else {
        match step.msg {
            ExecuteMsg::Swap { destination } => if flow is Swapped {
                sent
            } else {
                0
            },
            ExecuteMsg::ReverseSwap { rid, to, sender, origin_tx_hash, amount, relay_eon } => {
                if flow is ReverseSwapped {
                    amount as nat
                } else {
                    0
                }
            },
            ExecuteMsg::Refund { id, to, amount, relay_eon } => if flow is Refunded {
                amount as nat
            } else {
                0
            },
            ExecuteMsg::RefundInFull { id, to, amount, relay_eon } => if flow is Refunded {
                amount as nat
            } else {
                0
            },
            ExecuteMsg::Withdraw { amount, destination } => if flow is Withdrawn {
                amount as nat
            } else {
                0
            },
            ExecuteMsg::Deposit {  } => if flow is Deposited {
                sent
            } else {
                0
            },
            _ => 0,
        }
    }
}

/// What a history moved in the way `flow`, all in all.
pub open spec fn total(flow: Flow, ledgers: Seq<Ledger>, steps: Seq<Step>) -> nat
    decreases steps.len(),
{
    if steps.len() == 0 || ledgers.len() != steps.len() + 1 {
        0
    } else {
        total(flow, ledgers.drop_last(), steps.drop_last()) + moved(
            flow,
            ledgers[steps.len() - 1],
            steps.last(),
        )
    }
}

/// What a call does to the supply.
pub open spec fn supply_change(pre: Ledger, step: Step) -> int {
    moved(Flow::Swapped, pre, step) - moved(Flow::ReverseSwapped, pre, step) - moved(
        Flow::Refunded,
        pre,
        step,
    ) - moved(Flow::Withdrawn, pre, step) + moved(Flow::Deposited, pre, step)
}

/// A single call changes the supply by what it swapped or deposited less what it
/// paid out, and by nothing else.
pub proof fn lemma_step_supply(pre: Ledger, step: Step, post: Ledger)
    requires
        stepped(pre, step, post),
    ensures
        post.state.supply == pre.state.supply + supply_change(pre, step),
{
}

/// Over any history, the supply at the end is the supply at the start, plus all
/// that was swapped and deposited, less all that was paid out in reverse swaps,
/// refunds and withdrawals.
pub proof fn lemma_supply_accounting(ledgers: Seq<Ledger>, steps: Seq<Step>)
    requires
        history(ledgers, steps),
    ensures
        ledgers.last().state.supply == ledgers[0].state.supply + total(
            Flow::Swapped,
            ledgers,
            steps,
        ) - total(Flow::ReverseSwapped, ledgers, steps) - total(Flow::Refunded, ledgers, steps)
            - total(Flow::Withdrawn, ledgers, steps) + total(Flow::Deposited, ledgers, steps),
    decreases steps.len(),
{
    if steps.len() > 0 {
        let n = steps.len() - 1;
        let earlier = ledgers.drop_last();
        assert forall|i: int| 0 <= i < n implies stepped(
            #[trigger] earlier[i],
            steps.drop_last()[i],
            earlier[i + 1],
        ) by {
            assert(stepped(ledgers[i], steps[i], ledgers[i + 1]));
        }
        lemma_supply_accounting(earlier, steps.drop_last());
        assert(stepped(ledgers[n], steps[n], ledgers[n + 1]));
        lemma_step_supply(ledgers[n], steps[n], ledgers[n + 1]);
        assert(earlier.last() == ledgers[n]);
        assert(earlier[0] == ledgers[0]);
    }
}

// ---------------------------------------------------------------------------
// A swap is refunded at most once
// ---------------------------------------------------------------------------
/// Whether a call is a refund of the swap `id`, with or without fee, that succeeded.
pub open spec fn refunds(step: Step, id: u64) -> bool {
    step.res is Ok && match step.msg {
        ExecuteMsg::Refund { id: refunded_id, to, amount, relay_eon } => refunded_id == id,
        ExecuteMsg::RefundInFull { id: refunded_id, to, amount, relay_eon } => refunded_id == id,
        _ => false,
    }
}

/// No call takes a refund marker away.
pub proof fn lemma_refund_marker_stays(pre: Ledger, step: Step, post: Ledger, id: u64)
    requires
        stepped(pre, step, post),
        refunded(pre.store, id),
    ensures
        refunded(post.store, id),
{
    match step.msg {
        ExecuteMsg::GrantRole { role, address } => {
            if AccessRole::named(role@) is Some {
                lemma_keys_disjoint(address@, AccessRole::named(role@)->Some_0, id);
            }
        },
        ExecuteMsg::RevokeRole { role, address } => {
            if AccessRole::named(role@) is Some {
                lemma_keys_disjoint(address@, AccessRole::named(role@)->Some_0, id);
            }
        },
        ExecuteMsg::RenounceRole { role } => {
            if AccessRole::named(role@) is Some {
                lemma_keys_disjoint(step.info.sender@, AccessRole::named(role@)->Some_0, id);
            }
        },
        _ => {},
    }
}

/// A refund that succeeded leaves its swap marked.
pub proof fn lemma_refund_marks(pre: Ledger, step: Step, post: Ledger, id: u64)
    requires
        stepped(pre, step, post),
        refunds(step, id),
    ensures
        !refunded(pre.store, id),
        refunded(post.store, id),
{
}

/// Once a swap is marked as refunded, it stays so for the rest of the history.
pub proof fn lemma_refund_ledger_append_only(
    ledgers: Seq<Ledger>,
    steps: Seq<Step>,
    id: u64,
    i: int,
    j: int,
)
    requires
        history(ledgers, steps),
        0 <= i <= j <= steps.len(),
        refunded(ledgers[i].store, id),
    ensures
        refunded(ledgers[j].store, id),
    decreases j - i,
{
    if i < j {
        lemma_refund_ledger_append_only(ledgers, steps, id, i, j - 1);
        assert(stepped(ledgers[j - 1], steps[j - 1], ledgers[j - 1 + 1]));
        lemma_refund_marker_stays(ledgers[j - 1], steps[j - 1], ledgers[j], id);
    }
}

/// In any history, at most one refund of a given swap succeeds, be it with the fee
/// or in full.
pub proof fn lemma_refund_at_most_once(
    ledgers: Seq<Ledger>,
    steps: Seq<Step>,
    id: u64,
    i: int,
    j: int,
)
    requires
        history(ledgers, steps),
        0 <= i < j < steps.len(),
        refunds(steps[i], id),
    ensures
        !refunds(steps[j], id),
{
    assert(stepped(ledgers[i], steps[i], ledgers[i + 1]));
    lemma_refund_marks(ledgers[i], steps[i], ledgers[i + 1], id);
    lemma_refund_ledger_append_only(ledgers, steps, id, i + 1, j);
    assert(stepped(ledgers[j], steps[j], ledgers[j + 1]));
    if refunds(steps[j], id) {
        lemma_refund_marks(ledgers[j], steps[j], ledgers[j + 1], id);
    }
}

// ---------------------------------------------------------------------------
// A new relay eon voids what was signed for the old one
// ---------------------------------------------------------------------------
/// The relay eon that a relayer's request was signed for, if the request carries
/// one.
pub open spec fn signed_for(msg: ExecuteMsg) -> Option<u64> {
    match msg {
        ExecuteMsg::ReverseSwap { rid, to, sender, origin_tx_hash, amount, relay_eon } => Some(
            relay_eon,
        ),
        ExecuteMsg::Refund { id, to, amount, relay_eon } => Some(relay_eon),
        ExecuteMsg::RefundInFull { id, to, amount, relay_eon } => Some(relay_eon),
        _ => None,
    }
}

/// No call lowers the relay eon, and `NewRelayEon` raises it by one where it
/// succeeds. Nothing else changes it.
pub proof fn lemma_relay_eon_step(pre: Ledger, step: Step, post: Ledger)
    requires
        stepped(pre, step, post),
    ensures
        post.state.relay_eon == if step.msg is NewRelayEon && step.res is Ok {
            pre.state.relay_eon + 1
        } else {
            pre.state.relay_eon as int
        },
{
}

/// The relay eon never goes down over a history.
pub proof fn lemma_relay_eon_monotonic(ledgers: Seq<Ledger>, steps: Seq<Step>, i: int, j: int)
    requires
        history(ledgers, steps),
        0 <= i <= j <= steps.len(),
    ensures
        ledgers[i].state.relay_eon <= ledgers[j].state.relay_eon,
    decreases j - i,
{
    if i < j {
        lemma_relay_eon_monotonic(ledgers, steps, i, j - 1);
        assert(stepped(ledgers[j - 1], steps[j - 1], ledgers[j - 1 + 1]));
        lemma_relay_eon_step(ledgers[j - 1], steps[j - 1], ledgers[j]);
    }
}

/// Once a new relay eon was started, no reverse swap and no refund that was signed
/// for the eon before succeeds.
pub proof fn lemma_old_eon_is_void(ledgers: Seq<Ledger>, steps: Seq<Step>, i: int, j: int)
    requires
        history(ledgers, steps),
        0 <= i < j < steps.len(),
        steps[i].msg is NewRelayEon,
        steps[i].res is Ok,
        signed_for(steps[j].msg) == Some(ledgers[i].state.relay_eon),
    ensures
        steps[j].res is Err,
{
    assert(stepped(ledgers[i], steps[i], ledgers[i + 1]));
    lemma_relay_eon_step(ledgers[i], steps[i], ledgers[i + 1]);
    lemma_relay_eon_monotonic(ledgers, steps, i + 1, j);
    assert(stepped(ledgers[j], steps[j], ledgers[j + 1]));
}

// ---------------------------------------------------------------------------
// Limits and cap
// ---------------------------------------------------------------------------
/// A bridge that was set up has consistent limits: the swap fee is below the lower
/// swap limit, which is not above the upper one. And it has an admin: the caller.
pub proof fn lemma_instantiate_establishes(
    pre: Store,
    env: Env,
    info: MessageInfo,
    msg: InstantiateMsg,
    res: Result<(Response, State), ContractError>,
    post: Store,
)
    requires
        instantiate_outcome(pre, env, info, msg, res, post),
        res is Ok,
    ensures
        res->Ok_0.1.limits_consistent(),
        has_role(post, info.sender@, AccessRole::Admin),
{
}

/// No call makes consistent limits inconsistent, and after `SetLimits` has
/// succeeded the limits are consistent whatever they were before.
pub proof fn lemma_limits_step(pre: Ledger, step: Step, post: Ledger)
    requires
        stepped(pre, step, post),
    ensures
        pre.state.limits_consistent() ==> post.state.limits_consistent(),
        step.msg is SetLimits && step.res is Ok ==> post.state.limits_consistent(),
{
}

/// A bridge whose limits are consistent keeps them so over any history.
pub proof fn lemma_limits_always_consistent(ledgers: Seq<Ledger>, steps: Seq<Step>, j: int)
    requires
        history(ledgers, steps),
        ledgers[0].state.limits_consistent(),
        0 <= j <= steps.len(),
    ensures
        ledgers[j].state.limits_consistent(),
    decreases j,
{
    if 0 < j {
        lemma_limits_always_consistent(ledgers, steps, j - 1);
        assert(stepped(ledgers[j - 1], steps[j - 1], ledgers[j - 1 + 1]));
        lemma_limits_step(ledgers[j - 1], steps[j - 1], ledgers[j]);
    }
}

/// After a swap that succeeded the supply is within the cap. After other calls it
/// need not be: an admin may set the cap below the supply.
pub proof fn lemma_swap_respects_cap(pre: Ledger, step: Step, post: Ledger)
    requires
        stepped(pre, step, post),
        step.msg is Swap,
        step.res is Ok,
    ensures
        post.state.supply <= post.state.cap,
        post.state.next_swap_id == pre.state.next_swap_id + 1,
{
}

// ---------------------------------------------------------------------------
// Pauses
// ---------------------------------------------------------------------------
/// The requests of the public interface.
pub open spec fn uses_public_api(msg: ExecuteMsg) -> bool {
    msg is Swap
}

/// The requests of the relayers' interface.
pub open spec fn uses_relayer_api(msg: ExecuteMsg) -> bool {
    msg is ReverseSwap || msg is Refund || msg is RefundInFull || msg is NewRelayEon
}

/// While the public interface is paused, no request of it succeeds. A swap that
/// comes with funds in the bridge's denomination is turned down as paused.
pub proof fn lemma_paused_public_api(pre: Ledger, step: Step, post: Ledger)
    requires
        stepped(pre, step, post),
        uses_public_api(step.msg),
        paused(step.env.height, pre.state.paused_since_block_public_api),
    ensures
        step.res is Err,
        post == pre,
        amount_of(step.info.funds_view(), pre.state.denom@) is Some ==> step.res == Err::<
            Response,
            ContractError,
        >(ContractError::ContractPaused),
{
}

/// While the relayers' interface is paused, no request of it succeeds. A request
/// from a relayer that was signed for the current relay eon, or that carries none,
/// is turned down as paused.
pub proof fn lemma_paused_relayer_api(pre: Ledger, step: Step, post: Ledger)
    requires
        stepped(pre, step, post),
        uses_relayer_api(step.msg),
        paused(step.env.height, pre.state.paused_since_block_relayer_api),
    ensures
        step.res is Err,
        post == pre,
        has_role(pre.store, step.info.sender@, AccessRole::Relayer) && (signed_for(step.msg)
            is None || signed_for(step.msg) == Some(pre.state.relay_eon)) ==> step.res == Err::<
            Response,
            ContractError,
        >(ContractError::ContractPaused),
{
}

/// A request is turned down as paused only if it belongs to an interface that is
/// paused: an interface that is open, and every request outside the two
/// interfaces, is unaffected by pauses.
pub proof fn lemma_pause_affects_its_interface_only(pre: Ledger, step: Step, post: Ledger)
    requires
        stepped(pre, step, post),
        step.res == Err::<Response, ContractError>(ContractError::ContractPaused),
    ensures
        (uses_public_api(step.msg) && paused(
            step.env.height,
            pre.state.paused_since_block_public_api,
        )) || (uses_relayer_api(step.msg) && paused(
            step.env.height,
            pre.state.paused_since_block_relayer_api,
        )),
{
}

/// Pausing the public interface from block 0 on and then from the last block on
/// leaves it open in every block but the last. In between it is paused.
pub proof fn lemma_pause_then_unpause_public_api(state: State, first: u64, second: u64)
    ensures
        ({
            let paused_state = after_pause_public_api(state, first, 0);
            let resumed_state = after_pause_public_api(paused_state, second, u64::MAX);
            &&& paused(first, paused_state.paused_since_block_public_api)
            &&& resumed_state.paused_since_block_public_api == u64::MAX
            &&& forall|height: u64|
                height < u64::MAX ==> !#[trigger] paused(
                    height,
                    resumed_state.paused_since_block_public_api,
                )
        }),
{
}

/// Pausing the relayers' interface from block 0 on and then from the last block on
/// leaves it open in every block but the last. In between it is paused.
pub proof fn lemma_pause_then_unpause_relayer_api(state: State, first: u64, second: u64)
    ensures
        ({
            let paused_state = after_pause_relayer_api(state, first, 0);
            let resumed_state = after_pause_relayer_api(paused_state, second, u64::MAX);
            &&& paused(first, paused_state.paused_since_block_relayer_api)
            &&& resumed_state.paused_since_block_relayer_api == u64::MAX
            &&& forall|height: u64|
                height < u64::MAX ==> !#[trigger] paused(
                    height,
                    resumed_state.paused_since_block_relayer_api,
                )
        }),
{
}

/// A pause of the public interface from block 0 on, followed by a pause from the
/// last block on, leaves a bridge whose public interface was never to be paused
/// exactly as it was before the two. In between, the interface is paused.
pub proof fn lemma_pause_then_unpause_steps(
    first: Ledger,
    pause: Step,
    middle: Ledger,
    unpause: Step,
    last: Ledger,
)
    requires
        stepped(first, pause, middle),
        stepped(middle, unpause, last),
        pause.msg == (ExecuteMsg::PausePublicApi { since_block: 0 }),
        unpause.msg == (ExecuteMsg::PausePublicApi { since_block: u64::MAX }),
        pause.res is Ok,
        unpause.res is Ok,
    ensures
        paused(pause.env.height, middle.state.paused_since_block_public_api),
        last.store == first.store,
        last.state == (State { paused_since_block_public_api: u64::MAX, ..first.state }),
        first.state.paused_since_block_public_api == u64::MAX ==> last == first,
{
}

// ---------------------------------------------------------------------------
// Roles
// ---------------------------------------------------------------------------
/// Giving an account a role changes nothing for any other account or role.
pub proof fn lemma_grant_is_local(
    store: Store,
    addr: Seq<char>,
    role: AccessRole,
    other_addr: Seq<char>,
    other_role: AccessRole,
)
    requires
        valid_address(addr),
        valid_address(other_addr),
        other_addr != addr || other_role != role,
    ensures
        has_role(with_role(store, addr, role), addr, role),
        has_role(with_role(store, addr, role), other_addr, other_role) == has_role(
            store,
            other_addr,
            other_role,
        ),
{
    if crate::keys::role_key(addr, role) == crate::keys::role_key(other_addr, other_role) {
        lemma_role_key_injective(addr, role, other_addr, other_role);
    }
}

/// Giving an account a role and taking it away again leaves the account without
/// the role, and every other account and role as it was before the two.
pub proof fn lemma_grant_then_revoke(
    store: Store,
    addr: Seq<char>,
    role: AccessRole,
    other_addr: Seq<char>,
    other_role: AccessRole,
)
    requires
        valid_address(addr),
        valid_address(other_addr),
    ensures
        !has_role(without_role(with_role(store, addr, role), addr, role), addr, role),
        other_addr != addr || other_role != role ==> has_role(
            without_role(with_role(store, addr, role), addr, role),
            other_addr,
            other_role,
        ) == has_role(store, other_addr, other_role),
        forall|id: u64|
            refunded(without_role(with_role(store, addr, role), addr, role), id) == refunded(
                store,
                id,
            ),
{
    if crate::keys::role_key(addr, role) == crate::keys::role_key(other_addr, other_role) {
        lemma_role_key_injective(addr, role, other_addr, other_role);
    }
    assert forall|id: u64|
        refunded(without_role(with_role(store, addr, role), addr, role), id) == refunded(
            store,
            id,
        ) by {
        lemma_keys_disjoint(addr, role, id);
    }
}

/// A grant of a role that is followed by its revocation leaves the account without
/// the role, every other account and role as before the two, and the rest of the
/// bridge untouched.
pub proof fn lemma_grant_then_revoke_steps(
    first: Ledger,
    grant: Step,
    middle: Ledger,
    revoke: Step,
    last: Ledger,
    role: AccessRole,
    other_addr: Seq<char>,
    other_role: AccessRole,
)
    requires
        stepped(first, grant, middle),
        stepped(middle, revoke, last),
        grant.msg matches ExecuteMsg::GrantRole { role: granted, address: to }
            && revoke.msg matches ExecuteMsg::RevokeRole { role: revoked, address: from }
            && granted@ == revoked@ && to@ == from@ && AccessRole::named(granted@) == Some(role),
        grant.res is Ok,
        revoke.res is Ok,
        valid_address(other_addr),
    ensures
        last.state == first.state,
        grant.msg matches ExecuteMsg::GrantRole { role: granted, address: to } && {
            &&& !has_role(first.store, to@, role)
            &&& has_role(middle.store, to@, role)
            &&& !has_role(last.store, to@, role)
            &&& other_addr != to@ || other_role != role ==> has_role(
                last.store,
                other_addr,
                other_role,
            ) == has_role(first.store, other_addr, other_role)
        },
        forall|id: u64| refunded(last.store, id) == refunded(first.store, id),
{
    let account = grant.msg->GrantRole_address@;
    lemma_grant_then_revoke(first.store, account, role, other_addr, other_role);
    assert forall|id: u64| refunded(last.store, id) == refunded(first.store, id) by {
        lemma_keys_disjoint(account, role, id);
    }
}

/// Marking a swap as refunded changes nothing for any other swap, nor for who
/// holds which role.
pub proof fn lemma_refund_is_local(
    store: Store,
    id: u64,
    other_id: u64,
    addr: Seq<char>,
    role: AccessRole,
)
    ensures
        refunded(crate::state::with_refund(store, id), id),
        other_id != id ==> refunded(crate::state::with_refund(store, id), other_id) == refunded(
            store,
            other_id,
        ),
        has_role(crate::state::with_refund(store, id), addr, role) == has_role(store, addr, role),
{
    if crate::keys::refund_key(id) == crate::keys::refund_key(other_id) {
        lemma_refund_key_injective(id, other_id);
    }
    lemma_keys_disjoint(addr, role, id);
}

// ---------------------------------------------------------------------------
// At the boundaries
// ---------------------------------------------------------------------------
/// An amount that equals the fee is kept as fee in full: nothing is paid out.
pub proof fn lemma_fee_eats_amount(amount: u128)
    ensures
        fee_charged(amount, amount) == amount,
        paid_out(amount, amount) == 0,
{
}

/// A reverse swap or a refund of exactly the swap fee that succeeds instructs the
/// bank to pay nothing, and books the whole amount as fee.
pub proof fn lemma_fee_sized_payment(pre: Ledger, step: Step, post: Ledger)
    requires
        stepped(pre, step, post),
        step.res is Ok,
        match step.msg {
            ExecuteMsg::ReverseSwap { rid, to, sender, origin_tx_hash, amount, relay_eon } => amount
                == pre.state.swap_fee,
            ExecuteMsg::Refund { id, to, amount, relay_eon } => amount == pre.state.swap_fee,
            _ => false,
        },
    ensures
        step.res->Ok_0@.messages.len() == 0,
        post.state.fees_accrued == pre.state.fees_accrued + pre.state.swap_fee,
        post.state.supply == pre.state.supply - pre.state.swap_fee,
{
}

/// A swap of exactly the lower swap limit is within the limits: it succeeds while
/// the public interface is open and the cap has room for it.
pub proof fn lemma_swap_at_lower_limit(state: State, height: u64)
    requires
        state.limits_consistent(),
        !paused(height, state.paused_since_block_public_api),
        state.supply + state.lower_swap_limit <= state.cap,
    ensures
        swap_refusal(state, height, state.lower_swap_limit) is None,
{
}

/// A swap of one less than the lower swap limit violates the limits.
pub proof fn lemma_swap_below_lower_limit(state: State, height: u64, amount: u128)
    requires
        !paused(height, state.paused_since_block_public_api),
        amount + 1 == state.lower_swap_limit,
    ensures
        swap_refusal(state, height, amount) == Some(ContractError::SwapLimitsViolated),
{
}

/// The id that the next swap will get is not the id of a swap yet: a refund of it,
/// asked for by a relayer in the current relay eon while the relayers' interface is
/// open, is turned down as an invalid swap id.
pub proof fn lemma_refund_of_next_swap_id(
    store: Store,
    state: State,
    height: u64,
    caller: Seq<char>,
    amount: u128,
)
    requires
        has_role(store, caller, AccessRole::Relayer),
        !paused(height, state.paused_since_block_relayer_api),
    ensures
        refund_refusal(store, state, height, caller, state.next_swap_id, amount, state.relay_eon)
            == Some(ContractError::InvalidSwapId),
{
}

} // verus!
