#![allow(dead_code, unused_imports, unused_assignments)]
use bridge::access_control::{
    ac_have_role, AccessRole, ADMIN_ROLE, APPROVER_ROLE, MONITOR_ROLE, RELAYER_ROLE,
};
use bridge::contract::{
    amount_from_funds, execute, instantiate, query, verify_not_paused_public_api,
    verify_not_paused_relayer_api,
};
use bridge::error::{
    ContractError, ERR_ACCESS_CONTROL_ALREADY_HAS_ROLE, ERR_ACCESS_CONTROL_DOESNT_HAVE_ROLE,
    ERR_ACCESS_CONTROL_ONLY_ADMIN, ERR_ACCESS_CONTROL_ONLY_RELAYER, ERR_ALREADY_REFUNDED,
    ERR_CAP_EXCEEDED, ERR_CONTRACT_PAUSED, ERR_EON, ERR_INVALID_SWAP_ID,
    ERR_RA_ALLOWANCE_EXCEEDED, ERR_SUPPLY_EXCEEDED, ERR_SWAP_LIMITS_INCONSISTENT,
    ERR_SWAP_LIMITS_VIOLATED, ERR_UNRECOGNIZED_DENOM,
};
use bridge::msg::{
    DenomResponse, ExecuteMsg, InstantiateMsg, PausedSinceBlockResponse, QueryMsg, QueryResponse,
    RelayEonResponse, RoleResponse, SupplyResponse,
};
use bridge::state::State;
use bridge::types::{Coin, Env, MessageInfo, Response};
use cosmwasm_std::testing::{mock_dependencies, MockApi, MockQuerier, MockStorage};
use cosmwasm_std::OwnedDeps;

pub const DEFAULT_OWNER: &str = "Owner";
pub const DEFAULT_DENUM: &str = "atestfet";
pub const DEFAULT_CAP: u128 = 100000u128;
pub const DEFAULT_RA_ALLOWANCE: u128 = 10000u128;
pub const DEFAULT_RA_ALLOWANCE_APPROVER_CAP: u128 = 5000u128;
pub const DEFAULT_SWAP_UPPER_LIMIT: u128 = 1000u128;
pub const DEFAULT_SWAP_LOWER_LIMIT: u128 = 110u128;
pub const DEFAULT_SWAP_FEE: u128 = 100u128;

/// A bridge on a mock host: the host's store and address service, and the state
/// that the host keeps for the bridge once it is set up.
pub struct Bridge {
    pub deps: OwnedDeps<MockStorage, MockApi, MockQuerier>,
    pub state: Option<State>,
}

pub fn mock_bridge() -> Bridge {
    Bridge { deps: mock_dependencies(&[]), state: None }
}

pub fn mock_env() -> Env {
    let env = cosmwasm_std::testing::mock_env();
    Env { height: env.block.height, contract_address: env.contract.address.to_string() }
}

pub fn coins(amount: u128, denom: &str) -> Vec<Coin> {
    vec![Coin { denom: denom.to_string(), amount }]
}

pub fn mock_info(sender: &str, funds: &[Coin]) -> MessageInfo {
    MessageInfo { sender: sender.to_string(), funds: funds.to_vec() }
}

pub fn load_state(bridge: &Bridge) -> State {
    bridge.state.clone().expect("unexpected reading state error")
}

pub fn expect_error(response: Result<Response, ContractError>, expected: &str) {
    match response {
        Ok(_) => panic!("expected error: {:?}", expected),
        Err(ContractError::Std(e)) => panic!("unexpected error: {:?}", e),
        Err(e) => assert_eq!(e.message(), expected),
    }
}

pub fn init(
    bridge: &mut Bridge,
    env: Env,
    info: MessageInfo,
    msg: InstantiateMsg,
) -> Result<Response, ContractError> {
    let (response, state) = instantiate(&mut bridge.deps.as_mut(), env, info, msg)?;
    bridge.state = Some(state);
    Ok(response)
}

pub fn handle(
    bridge: &mut Bridge,
    env: Env,
    info: MessageInfo,
    msg: ExecuteMsg,
) -> Result<Response, ContractError> {
    let state = bridge.state.as_mut().expect("the bridge is not set up");
    execute(&mut bridge.deps.as_mut(), env, info, state, msg)
}

pub fn ask(bridge: &Bridge, msg: QueryMsg) -> Result<QueryResponse, ContractError> {
    let state = bridge.state.as_ref().expect("the bridge is not set up");
    query(bridge.deps.as_ref(), mock_env(), state, msg)
}

pub fn have_role(bridge: &Bridge, account: &str, role: &AccessRole) -> bool {
    ac_have_role(bridge.deps.as_ref(), account, role).unwrap()
}

pub fn mock_init(
    bridge: &mut Bridge,
    msg: InstantiateMsg,
    caller: &str,
    amount: u128,
) -> Result<Response, ContractError> {
    let info = mock_info(caller, &coins(amount, DEFAULT_DENUM));
    init(bridge, mock_env(), info, msg)
}

pub fn default_init_msg() -> InstantiateMsg {
    InstantiateMsg {
        next_swap_id: 0,
        cap: DEFAULT_CAP,
        reverse_aggregated_allowance: DEFAULT_RA_ALLOWANCE,
        reverse_aggregated_allowance_approver_cap: DEFAULT_RA_ALLOWANCE_APPROVER_CAP,
        upper_swap_limit: DEFAULT_SWAP_UPPER_LIMIT,
        lower_swap_limit: DEFAULT_SWAP_LOWER_LIMIT,
        swap_fee: DEFAULT_SWAP_FEE,
        paused_since_block: None,
        denom: Some(DEFAULT_DENUM.to_string()),
    }
}

pub fn init_default(bridge: &mut Bridge) -> Result<Response, ContractError> {
    mock_init(bridge, default_init_msg(), DEFAULT_OWNER, 0)
}

pub fn grant_role(
    bridge: &mut Bridge,
    role: &str,
    account: &str,
    caller: &str,
) -> Result<Response, ContractError> {
    let msg = ExecuteMsg::GrantRole { role: String::from(role), address: account.to_string() };
    let info = mock_info(caller, &coins(0, DEFAULT_DENUM));
    handle(bridge, mock_env(), info, msg)
}

pub fn revoke_role(
    bridge: &mut Bridge,
    role: &str,
    account: &str,
    caller: &str,
) -> Result<Response, ContractError> {
    let msg = ExecuteMsg::RevokeRole { role: String::from(role), address: account.to_string() };
    let info = mock_info(caller, &coins(0, DEFAULT_DENUM));
    handle(bridge, mock_env(), info, msg)
}

pub fn renounce_role(
    bridge: &mut Bridge,
    role: &str,
    account: &str,
) -> Result<Response, ContractError> {
    let msg = ExecuteMsg::RenounceRole { role: String::from(role) };
    let info = mock_info(account, &coins(0, DEFAULT_DENUM));
    handle(bridge, mock_env(), info, msg)
}

pub fn _pause_public_api(
    bridge: &mut Bridge,
    info: MessageInfo,
    since_block: u64,
) -> Result<Response, ContractError> {
    let msg = ExecuteMsg::PausePublicApi { since_block };
    handle(bridge, mock_env(), info, msg)
}

pub fn _pause_relayer_api(
    bridge: &mut Bridge,
    info: MessageInfo,
    since_block: u64,
) -> Result<Response, ContractError> {
    let msg = ExecuteMsg::PauseRelayerApi { since_block };
    handle(bridge, mock_env(), info, msg)
}

pub fn pause_public_api(bridge: &mut Bridge, info: MessageInfo) -> Result<Response, ContractError> {
    _pause_public_api(bridge, info, 0)
}

pub fn pause_relayer_api(
    bridge: &mut Bridge,
    info: MessageInfo,
) -> Result<Response, ContractError> {
    _pause_relayer_api(bridge, info, 0)
}

pub fn unpause_public_api(
    bridge: &mut Bridge,
    info: MessageInfo,
) -> Result<Response, ContractError> {
    _pause_public_api(bridge, info, u64::MAX)
}

pub fn unpause_relayer_api(
    bridge: &mut Bridge,
    info: MessageInfo,
) -> Result<Response, ContractError> {
    _pause_relayer_api(bridge, info, u64::MAX)
}

pub fn deposit(bridge: &mut Bridge, amount: u128, caller: &str) -> Result<Response, ContractError> {
    let msg = ExecuteMsg::Deposit {};
    let info = mock_info(caller, &coins(amount, DEFAULT_DENUM));
    handle(bridge, mock_env(), info, msg)
}

pub fn new_relay_eon(bridge: &mut Bridge, caller: &str) -> Result<Response, ContractError> {
    let msg = ExecuteMsg::NewRelayEon {};
    let info = mock_info(caller, &coins(0, DEFAULT_DENUM));
    handle(bridge, mock_env(), info, msg)
}

pub fn swap(
    bridge: &mut Bridge,
    from: &str,
    destination: &str,
    amount: u128,
) -> Result<Response, ContractError> {
    let msg = ExecuteMsg::Swap { destination: destination.to_string() };
    let info = mock_info(from, &coins(amount, DEFAULT_DENUM));
    handle(bridge, mock_env(), info, msg)
}

pub fn reverse_swap(
    bridge: &mut Bridge,
    caller: &str,
    rid: u64,
    to: &str,
    from: &str,
    hash: &str,
    amount: u128,
    eon: u64,
) -> Result<Response, ContractError> {
    let msg = ExecuteMsg::ReverseSwap {
        rid,
        to: to.to_string(),
        sender: from.to_string(),
        origin_tx_hash: hash.to_string(),
        amount,
        relay_eon: eon,
    };
    let info = mock_info(caller, &coins(0, DEFAULT_DENUM));
    handle(bridge, mock_env(), info.clone(), msg)
}

pub fn refund(
    bridge: &mut Bridge,
    caller: &str,
    id: u64,
    to: &str,
    amount: u128,
    eon: u64,
) -> Result<Response, ContractError> {
    let msg = ExecuteMsg::Refund { id, to: to.to_string(), amount, relay_eon: eon };
    let info = mock_info(caller, &coins(0, DEFAULT_DENUM));
    handle(bridge, mock_env(), info, msg)
}

pub fn refund_in_full(
    bridge: &mut Bridge,
    caller: &str,
    id: u64,
    to: &str,
    amount: u128,
    eon: u64,
) -> Result<Response, ContractError> {
    let msg = ExecuteMsg::RefundInFull { id, to: to.to_string(), amount, relay_eon: eon };
    let info = mock_info(caller, &coins(0, DEFAULT_DENUM));
    handle(bridge, mock_env(), info, msg)
}

pub fn withdraw(
    bridge: &mut Bridge,
    caller: &str,
    amount: u128,
    recipient: &str,
) -> Result<Response, ContractError> {
    let msg = ExecuteMsg::Withdraw { amount, destination: recipient.to_string() };
    let info = mock_info(caller, &coins(0, DEFAULT_DENUM));
    handle(bridge, mock_env(), info, msg)
}

pub fn withdraw_fees(
    bridge: &mut Bridge,
    caller: &str,
    amount: u128,
    recipient: &str,
) -> Result<Response, ContractError> {
    let msg = ExecuteMsg::WithdrawFees { amount, destination: recipient.to_string() };
    let info = mock_info(caller, &coins(0, DEFAULT_DENUM));
    handle(bridge, mock_env(), info, msg)
}

pub fn set_cap(bridge: &mut Bridge, caller: &str, amount: u128) -> Result<Response, ContractError> {
    let msg = ExecuteMsg::SetCap { amount };
    let info = mock_info(caller, &coins(0, DEFAULT_DENUM));
    handle(bridge, mock_env(), info, msg)
}

pub fn set_limits(
    bridge: &mut Bridge,
    caller: &str,
    fee: u128,
    min: u128,
    max: u128,
) -> Result<Response, ContractError> {
    let msg = ExecuteMsg::SetLimits { swap_min: min, swap_max: max, swap_fee: fee };
    let info = mock_info(caller, &coins(0, DEFAULT_DENUM));
    handle(bridge, mock_env(), info, msg)
}

pub fn set_reverse_aggregated_allowance(
    bridge: &mut Bridge,
    caller: &str,
    amount: u128,
) -> Result<Response, ContractError> {
    let msg = ExecuteMsg::SetReverseAggregatedAllowance { amount };
    let info = mock_info(caller, &coins(0, DEFAULT_DENUM));
    handle(bridge, mock_env(), info, msg)
}

pub fn set_reverse_aggregated_allowance_approver_cap(
    bridge: &mut Bridge,
    caller: &str,
    amount: u128,
) -> Result<Response, ContractError> {
    let msg = ExecuteMsg::SetReverseAggregatedAllowanceApproverCap { amount };
    let info = mock_info(caller, &coins(0, DEFAULT_DENUM));
    handle(bridge, mock_env(), info, msg)
}

pub fn set_reverse_aggregated_allowance_by_approver(
    bridge: &mut Bridge,
    amount: u128,
) -> Result<Response, ContractError> {
    let approver = "new_approver";
    grant_role(bridge, APPROVER_ROLE, approver, DEFAULT_OWNER).unwrap();
    set_reverse_aggregated_allowance(bridge, approver, amount)
}
use bridge::contract::{can_execute, can_instantiate, can_query};
use bridge::error::ERR_UNKNOWN_ROLE;
use bridge::types::{Attribute, BankTransfer};
use cosmwasm_std::Storage;

fn attribute(key: &str, value: &str) -> Attribute {
    Attribute { key: key.to_string(), value: value.to_string() }
}

fn transfer(to: &str, amount: u128) -> BankTransfer {
    BankTransfer { to_address: to.to_string(), amount: coins(amount, DEFAULT_DENUM) }
}

/// A bridge with the default parameters, the relayer `R`, and `deposited` in the
/// supply.
fn bridge_with_relayer(deposited: u128) -> Bridge {
    let mut bridge = mock_bridge();
    init_default(&mut bridge).unwrap();
    grant_role(&mut bridge, RELAYER_ROLE, "R", DEFAULT_OWNER).unwrap();
    if deposited > 0 {
        deposit(&mut bridge, deposited, DEFAULT_OWNER).unwrap();
    }
    bridge
}

// ---------------------------------------------------------------------------
// Whole scenarios
// ---------------------------------------------------------------------------
#[test]
fn scenario_happy_path_swap() {
    let mut bridge = mock_bridge();
    init_default(&mut bridge).unwrap();

    let response = swap(&mut bridge, "user", "eth_addr", 110).unwrap();

    assert_eq!(
        response,
        Response {
            messages: vec![],
            attributes: vec![
                attribute("action", "swap"),
                attribute("destination", "eth_addr"),
                attribute("swap_id", "0"),
                attribute("amount", "110"),
            ],
        }
    );
    let state = load_state(&bridge);
    assert_eq!(state.supply, 110);
    assert_eq!(state.next_swap_id, 1);
}

#[test]
fn scenario_reverse_swap_with_fee() {
    let mut bridge = mock_bridge();
    init_default(&mut bridge).unwrap();
    swap(&mut bridge, "user", "eth_addr", 110).unwrap();
    grant_role(&mut bridge, RELAYER_ROLE, "R", DEFAULT_OWNER).unwrap();
    deposit(&mut bridge, 1000, DEFAULT_OWNER).unwrap();

    let response = reverse_swap(&mut bridge, "R", 0, "user", "eth", "H", 110, 0).unwrap();

    assert_eq!(
        response,
        Response {
            messages: vec![transfer("user", 10)],
            attributes: vec![
                attribute("action", "reverse_swap"),
                attribute("rid", "0"),
                attribute("to", "user"),
                attribute("sender", "eth"),
                attribute("origin_tx_hash", "H"),
                attribute("amount", "10"),
                attribute("swap_fee", "100"),
            ],
        }
    );
    let state = load_state(&bridge);
    assert_eq!(state.supply, 1000);
    assert_eq!(state.reverse_aggregated_allowance, 9890);
    assert_eq!(state.fees_accrued, 100);
}

#[test]
fn scenario_replay_after_eon_bump() {
    let mut bridge = mock_bridge();
    init_default(&mut bridge).unwrap();
    swap(&mut bridge, "user", "eth_addr", 110).unwrap();
    grant_role(&mut bridge, RELAYER_ROLE, "R", DEFAULT_OWNER).unwrap();
    deposit(&mut bridge, 1000, DEFAULT_OWNER).unwrap();
    reverse_swap(&mut bridge, "R", 0, "user", "eth", "H", 110, 0).unwrap();

    new_relay_eon(&mut bridge, "R").unwrap();
    let before = load_state(&bridge);
    let response = reverse_swap(&mut bridge, "R", 0, "user", "eth", "H", 110, 0);

    assert!(matches!(response, Err(ContractError::RelayEon)));
    assert_eq!(load_state(&bridge), before);
    assert_eq!(before.relay_eon, 1);
    // signed for the new eon, the same request goes through
    reverse_swap(&mut bridge, "R", 0, "user", "eth", "H", 110, 1).unwrap();
}

#[test]
fn scenario_refund_double_spend() {
    let mut bridge = bridge_with_relayer(1000);
    swap(&mut bridge, "user", "eth_addr", 110).unwrap();

    let response = refund(&mut bridge, "R", 0, "user", 120, 0).unwrap();

    assert_eq!(
        response,
        Response {
            messages: vec![transfer("user", 20)],
            attributes: vec![
                attribute("action", "refund"),
                attribute("destination", "user"),
                attribute("swap_id", "0"),
                attribute("amount", "20"),
                attribute("refund_fee", "100"),
            ],
        }
    );
    let after_first = load_state(&bridge);
    assert_eq!(after_first.supply, 1000 + 110 - 120);
    assert_eq!(after_first.fees_accrued, 100);

    let second = refund(&mut bridge, "R", 0, "user", 120, 0);
    assert!(matches!(second, Err(ContractError::AlreadyRefunded)));
    assert_eq!(load_state(&bridge), after_first);
    // a refund in full of the same swap is turned down as well
    let in_full = refund_in_full(&mut bridge, "R", 0, "user", 120, 0);
    assert!(matches!(in_full, Err(ContractError::AlreadyRefunded)));
}

#[test]
fn scenario_pause_asymmetry() {
    let mut bridge = mock_bridge();
    init_default(&mut bridge).unwrap();
    grant_role(&mut bridge, MONITOR_ROLE, "M", DEFAULT_OWNER).unwrap();
    let monitor = mock_info("M", &[]);
    let owner = mock_info(DEFAULT_OWNER, &[]);

    _pause_public_api(&mut bridge, monitor.clone(), 0).unwrap();
    assert_eq!(load_state(&bridge).paused_since_block_public_api, mock_env().height);

    let lifted_by_monitor = _pause_public_api(&mut bridge, monitor, u64::MAX);
    assert!(matches!(lifted_by_monitor, Err(ContractError::OnlyAdmin)));
    assert_eq!(load_state(&bridge).paused_since_block_public_api, mock_env().height);

    _pause_public_api(&mut bridge, owner, u64::MAX).unwrap();
    assert_eq!(load_state(&bridge).paused_since_block_public_api, u64::MAX);
}

#[test]
fn scenario_approver_cap() {
    let mut bridge = mock_bridge();
    init_default(&mut bridge).unwrap();
    grant_role(&mut bridge, APPROVER_ROLE, "A", DEFAULT_OWNER).unwrap();

    set_reverse_aggregated_allowance(&mut bridge, "A", 5000).unwrap();
    assert_eq!(load_state(&bridge).reverse_aggregated_allowance, 5000);

    let above_cap = set_reverse_aggregated_allowance(&mut bridge, "A", 5001);
    assert!(matches!(above_cap, Err(ContractError::OnlyAdmin)));
    assert_eq!(load_state(&bridge).reverse_aggregated_allowance, 5000);

    set_reverse_aggregated_allowance(&mut bridge, DEFAULT_OWNER, 5001).unwrap();
    assert_eq!(load_state(&bridge).reverse_aggregated_allowance, 5001);
}

// ---------------------------------------------------------------------------
// What holds of every history, on one history
// ---------------------------------------------------------------------------
#[test]
fn supply_is_what_went_in_less_what_went_out() {
    let mut bridge = bridge_with_relayer(0);
    swap(&mut bridge, "user", "eth_addr", 110).unwrap();
    swap(&mut bridge, "user", "eth_addr", 500).unwrap();
    deposit(&mut bridge, 1000, DEFAULT_OWNER).unwrap();
    reverse_swap(&mut bridge, "R", 7, "user", "eth", "H", 300, 0).unwrap();
    refund(&mut bridge, "R", 0, "user", 110, 0).unwrap();
    refund_in_full(&mut bridge, "R", 1, "user", 40, 0).unwrap();
    withdraw(&mut bridge, DEFAULT_OWNER, 50, "treasury").unwrap();
    // what fails moves nothing
    assert!(swap(&mut bridge, "user", "eth_addr", 5).is_err());
    assert!(withdraw(&mut bridge, "user", 50, "treasury").is_err());
    // fees leave the balance, not the supply
    withdraw_fees(&mut bridge, DEFAULT_OWNER, 200, "treasury").unwrap();

    let state = load_state(&bridge);
    assert_eq!(state.supply, 110 + 500 + 1000 - 300 - 110 - 40 - 50);
    assert_eq!(state.fees_accrued, 100 + 100 + 0 - 200);
    assert_eq!(state.reverse_aggregated_allowance, DEFAULT_RA_ALLOWANCE - 300 - 110 - 40);
    assert_eq!(state.next_swap_id, 2);
}

#[test]
fn grant_then_revoke_leaves_other_roles_alone() {
    let mut bridge = mock_bridge();
    init_default(&mut bridge).unwrap();
    grant_role(&mut bridge, MONITOR_ROLE, "alice", DEFAULT_OWNER).unwrap();
    grant_role(&mut bridge, RELAYER_ROLE, "bob", DEFAULT_OWNER).unwrap();

    grant_role(&mut bridge, RELAYER_ROLE, "alice", DEFAULT_OWNER).unwrap();
    assert!(have_role(&bridge, "alice", &AccessRole::Relayer));
    revoke_role(&mut bridge, RELAYER_ROLE, "alice", DEFAULT_OWNER).unwrap();

    assert!(!have_role(&bridge, "alice", &AccessRole::Relayer));
    assert!(have_role(&bridge, "alice", &AccessRole::Monitor));
    assert!(have_role(&bridge, "bob", &AccessRole::Relayer));
    assert!(have_role(&bridge, DEFAULT_OWNER, &AccessRole::Admin));
    assert!(!have_role(&bridge, "alice", &AccessRole::Admin));
    assert!(!have_role(&bridge, "alice", &AccessRole::Approver));
}

#[test]
fn pause_then_unpause_restores_both_interfaces() {
    let mut bridge = mock_bridge();
    init_default(&mut bridge).unwrap();
    let owner = mock_info(DEFAULT_OWNER, &[]);

    _pause_public_api(&mut bridge, owner.clone(), 0).unwrap();
    _pause_relayer_api(&mut bridge, owner.clone(), 0).unwrap();
    assert!(swap(&mut bridge, "user", "eth_addr", 110).is_err());
    _pause_public_api(&mut bridge, owner.clone(), u64::MAX).unwrap();
    _pause_relayer_api(&mut bridge, owner, u64::MAX).unwrap();

    let state = load_state(&bridge);
    assert_eq!(state.paused_since_block_public_api, u64::MAX);
    assert_eq!(state.paused_since_block_relayer_api, u64::MAX);
    swap(&mut bridge, "user", "eth_addr", 110).unwrap();
}

#[test]
fn pause_in_a_later_block_takes_effect_then() {
    let mut bridge = bridge_with_relayer(0);
    let owner = mock_info(DEFAULT_OWNER, &[]);
    let height = mock_env().height;
    _pause_public_api(&mut bridge, owner, height + 10).unwrap();
    assert_eq!(load_state(&bridge).paused_since_block_public_api, height + 10);

    swap(&mut bridge, "user", "eth_addr", 110).unwrap();
    let later = Env { height: height + 10, contract_address: mock_env().contract_address };
    let info = mock_info("user", &coins(110, DEFAULT_DENUM));
    let response =
        handle(&mut bridge, later, info, ExecuteMsg::Swap { destination: "eth_addr".to_string() });
    assert!(matches!(response, Err(ContractError::ContractPaused)));
}

#[test]
fn paused_relayer_api_stops_every_relayer_request() {
    let mut bridge = bridge_with_relayer(1000);
    swap(&mut bridge, "user", "eth_addr", 110).unwrap();
    pause_relayer_api(&mut bridge, mock_info(DEFAULT_OWNER, &[])).unwrap();
    let before = load_state(&bridge);

    assert!(matches!(
        reverse_swap(&mut bridge, "R", 0, "user", "eth", "H", 110, 0),
        Err(ContractError::ContractPaused)
    ));
    assert!(matches!(
        refund(&mut bridge, "R", 0, "user", 110, 0),
        Err(ContractError::ContractPaused)
    ));
    assert!(matches!(
        refund_in_full(&mut bridge, "R", 0, "user", 110, 0),
        Err(ContractError::ContractPaused)
    ));
    assert!(matches!(new_relay_eon(&mut bridge, "R"), Err(ContractError::ContractPaused)));
    // the caller's role is looked at first
    assert!(matches!(
        reverse_swap(&mut bridge, "user", 0, "user", "eth", "H", 110, 0),
        Err(ContractError::OnlyRelayer)
    ));
    assert_eq!(load_state(&bridge), before);
    // the public interface and the admin's requests go on
    swap(&mut bridge, "user", "eth_addr", 110).unwrap();
    deposit(&mut bridge, 1, DEFAULT_OWNER).unwrap();
}

#[test]
fn cap_below_supply_blocks_swaps_only() {
    let mut bridge = bridge_with_relayer(1000);
    set_cap(&mut bridge, DEFAULT_OWNER, 500).unwrap();
    assert!(matches!(
        swap(&mut bridge, "user", "eth_addr", 110),
        Err(ContractError::CapExceeded)
    ));
    reverse_swap(&mut bridge, "R", 0, "user", "eth", "H", 700, 0).unwrap();
    swap(&mut bridge, "user", "eth_addr", 110).unwrap();
    let state = load_state(&bridge);
    assert_eq!(state.supply, 410);
    assert!(state.supply <= state.cap);
}

// ---------------------------------------------------------------------------
// At the boundaries
// ---------------------------------------------------------------------------
#[test]
fn reverse_swap_of_exactly_the_fee_pays_nothing() {
    let mut bridge = bridge_with_relayer(1000);

    let response = reverse_swap(&mut bridge, "R", 3, "user", "eth", "H", 100, 0).unwrap();

    assert_eq!(
        response,
        Response {
            messages: vec![],
            attributes: vec![
                attribute("action", "reverse_swap"),
                attribute("rid", "3"),
                attribute("to", "user"),
                attribute("sender", "eth"),
                attribute("origin_tx_hash", "H"),
                attribute("amount", "0"),
                attribute("swap_fee", "100"),
            ],
        }
    );
    let state = load_state(&bridge);
    assert_eq!(state.fees_accrued, 100);
    assert_eq!(state.supply, 900);
    assert_eq!(state.reverse_aggregated_allowance, DEFAULT_RA_ALLOWANCE - 100);
}

#[test]
fn reverse_swap_below_the_fee_is_kept_in_full() {
    let mut bridge = bridge_with_relayer(1000);
    let response = reverse_swap(&mut bridge, "R", 3, "user", "eth", "H", 40, 0).unwrap();
    assert_eq!(response.messages.len(), 0);
    assert_eq!(response.attributes[5], attribute("amount", "0"));
    assert_eq!(response.attributes[6], attribute("swap_fee", "40"));
    assert_eq!(load_state(&bridge).fees_accrued, 40);
    assert_eq!(load_state(&bridge).supply, 960);
}

#[test]
fn reverse_swap_of_one_more_than_the_fee_pays_one() {
    let mut bridge = bridge_with_relayer(1000);
    let response = reverse_swap(&mut bridge, "R", 3, "user", "eth", "H", 101, 0).unwrap();
    assert_eq!(response.messages, vec![transfer("user", 1)]);
    assert_eq!(load_state(&bridge).fees_accrued, 100);
}

#[test]
fn refund_of_exactly_the_fee_pays_nothing() {
    let mut bridge = bridge_with_relayer(1000);
    swap(&mut bridge, "user", "eth_addr", 110).unwrap();

    let response = refund(&mut bridge, "R", 0, "user", 100, 0).unwrap();

    assert_eq!(
        response,
        Response {
            messages: vec![],
            attributes: vec![
                attribute("action", "refund"),
                attribute("destination", "user"),
                attribute("swap_id", "0"),
                attribute("amount", "0"),
                attribute("refund_fee", "100"),
            ],
        }
    );
    assert_eq!(load_state(&bridge).fees_accrued, 100);
    // the swap counts as refunded all the same
    assert!(matches!(
        refund(&mut bridge, "R", 0, "user", 100, 0),
        Err(ContractError::AlreadyRefunded)
    ));
}

#[test]
fn refund_in_full_keeps_no_fee() {
    let mut bridge = bridge_with_relayer(1000);
    swap(&mut bridge, "user", "eth_addr", 110).unwrap();
    let response = refund_in_full(&mut bridge, "R", 0, "user", 110, 0).unwrap();
    assert_eq!(response.messages, vec![transfer("user", 110)]);
    assert_eq!(response.attributes[3], attribute("amount", "110"));
    assert_eq!(response.attributes[4], attribute("refund_fee", "0"));
    assert_eq!(load_state(&bridge).fees_accrued, 0);
    assert_eq!(load_state(&bridge).supply, 1000);
}

#[test]
fn refund_in_full_of_nothing_pays_nothing_and_marks_the_swap() {
    let mut bridge = bridge_with_relayer(1000);
    swap(&mut bridge, "user", "eth_addr", 110).unwrap();
    let response = refund_in_full(&mut bridge, "R", 0, "user", 0, 0).unwrap();
    assert_eq!(response.messages.len(), 0);
    assert!(matches!(
        refund_in_full(&mut bridge, "R", 0, "user", 0, 0),
        Err(ContractError::AlreadyRefunded)
    ));
}

#[test]
fn swap_at_the_lower_limit_succeeds() {
    let mut bridge = mock_bridge();
    init_default(&mut bridge).unwrap();
    swap(&mut bridge, "user", "eth_addr", DEFAULT_SWAP_LOWER_LIMIT).unwrap();
    assert_eq!(load_state(&bridge).supply, DEFAULT_SWAP_LOWER_LIMIT);
}

#[test]
fn swap_one_below_the_lower_limit_fails() {
    let mut bridge = mock_bridge();
    init_default(&mut bridge).unwrap();
    let response = swap(&mut bridge, "user", "eth_addr", DEFAULT_SWAP_LOWER_LIMIT - 1);
    assert!(matches!(response, Err(ContractError::SwapLimitsViolated)));
    assert_eq!(load_state(&bridge).supply, 0);
    assert_eq!(load_state(&bridge).next_swap_id, 0);
}

#[test]
fn swap_at_the_upper_limit_succeeds_and_one_above_fails() {
    let mut bridge = mock_bridge();
    init_default(&mut bridge).unwrap();
    swap(&mut bridge, "user", "eth_addr", DEFAULT_SWAP_UPPER_LIMIT).unwrap();
    let response = swap(&mut bridge, "user", "eth_addr", DEFAULT_SWAP_UPPER_LIMIT + 1);
    assert!(matches!(response, Err(ContractError::SwapLimitsViolated)));
}

#[test]
fn swap_that_fills_the_cap_exactly_succeeds() {
    let mut bridge = mock_bridge();
    init_default(&mut bridge).unwrap();
    set_cap(&mut bridge, DEFAULT_OWNER, 610).unwrap();
    swap(&mut bridge, "user", "eth_addr", 500).unwrap();
    swap(&mut bridge, "user", "eth_addr", 110).unwrap();
    assert_eq!(load_state(&bridge).supply, 610);
    assert!(matches!(
        swap(&mut bridge, "user", "eth_addr", 110),
        Err(ContractError::CapExceeded)
    ));
}

#[test]
fn swap_that_would_overflow_the_supply_exceeds_the_cap() {
    let mut bridge = mock_bridge();
    init_default(&mut bridge).unwrap();
    set_cap(&mut bridge, DEFAULT_OWNER, u128::MAX).unwrap();
    deposit(&mut bridge, u128::MAX - 100, DEFAULT_OWNER).unwrap();
    let response = swap(&mut bridge, "user", "eth_addr", 110);
    assert!(matches!(response, Err(ContractError::CapExceeded)));
    assert_eq!(load_state(&bridge).supply, u128::MAX - 100);
}

#[test]
fn refund_of_the_next_swap_id_fails() {
    let mut bridge = bridge_with_relayer(1000);
    swap(&mut bridge, "user", "eth_addr", 110).unwrap();
    assert_eq!(load_state(&bridge).next_swap_id, 1);
    let response = refund(&mut bridge, "R", 1, "user", 120, 0);
    assert!(matches!(response, Err(ContractError::InvalidSwapId)));
    let response = refund_in_full(&mut bridge, "R", 1, "user", 120, 0);
    assert!(matches!(response, Err(ContractError::InvalidSwapId)));
}

#[test]
fn swap_ids_count_up_from_the_first() {
    let mut bridge = mock_bridge();
    let mut msg = default_init_msg();
    msg.next_swap_id = 41;
    mock_init(&mut bridge, msg, DEFAULT_OWNER, 0).unwrap();
    let first = swap(&mut bridge, "user", "eth_addr", 110).unwrap();
    let second = swap(&mut bridge, "user", "eth_addr", 110).unwrap();
    assert_eq!(first.attributes[2], attribute("swap_id", "41"));
    assert_eq!(second.attributes[2], attribute("swap_id", "42"));
    assert_eq!(load_state(&bridge).next_swap_id, 43);
}

#[test]
fn withdraw_of_the_whole_supply_and_of_nothing() {
    let mut bridge = bridge_with_relayer(1000);
    let nothing = withdraw(&mut bridge, DEFAULT_OWNER, 0, "treasury").unwrap();
    assert_eq!(nothing.messages, vec![transfer("treasury", 0)]);
    withdraw(&mut bridge, DEFAULT_OWNER, 1000, "treasury").unwrap();
    assert_eq!(load_state(&bridge).supply, 0);
    assert!(matches!(
        withdraw(&mut bridge, DEFAULT_OWNER, 1, "treasury"),
        Err(ContractError::SupplyExceeded)
    ));
}

// ---------------------------------------------------------------------------
// Setting up
// ---------------------------------------------------------------------------
#[test]
fn instantiate_takes_the_funds_sent_along_as_supply() {
    let mut bridge = mock_bridge();
    mock_init(&mut bridge, default_init_msg(), DEFAULT_OWNER, 777).unwrap();
    assert_eq!(load_state(&bridge).supply, 777);
}

#[test]
fn instantiate_without_denom_takes_the_default() {
    let mut bridge = mock_bridge();
    let mut msg = default_init_msg();
    msg.denom = None;
    let info = mock_info(DEFAULT_OWNER, &coins(5, "afet"));
    init(&mut bridge, mock_env(), info, msg).unwrap();
    let state = load_state(&bridge);
    assert_eq!(state.denom, "afet");
    assert_eq!(state.supply, 5);
    assert_eq!(ask(&bridge, QueryMsg::Denom {}).unwrap(), QueryResponse::Denom(DenomResponse {
        denom: "afet".to_string()
    }));
}

#[test]
fn instantiate_ignores_funds_of_another_denomination() {
    let mut bridge = mock_bridge();
    let info = mock_info(DEFAULT_OWNER, &coins(5, "other"));
    init(&mut bridge, mock_env(), info, default_init_msg()).unwrap();
    assert_eq!(load_state(&bridge).supply, 0);
}

#[test]
fn instantiate_does_not_pause_before_the_current_block() {
    let mut bridge = mock_bridge();
    let mut msg = default_init_msg();
    msg.paused_since_block = Some(3);
    mock_init(&mut bridge, msg, DEFAULT_OWNER, 0).unwrap();
    let state = load_state(&bridge);
    assert_eq!(state.paused_since_block_public_api, mock_env().height);
    assert_eq!(state.paused_since_block_relayer_api, mock_env().height);
    assert!(matches!(
        swap(&mut bridge, "user", "eth_addr", 110),
        Err(ContractError::ContractPaused)
    ));
}

#[test]
fn instantiate_keeps_a_pause_in_a_later_block() {
    let mut bridge = mock_bridge();
    let mut msg = default_init_msg();
    msg.paused_since_block = Some(mock_env().height + 1);
    mock_init(&mut bridge, msg, DEFAULT_OWNER, 0).unwrap();
    assert_eq!(load_state(&bridge).paused_since_block_public_api, mock_env().height + 1);
    swap(&mut bridge, "user", "eth_addr", 110).unwrap();
}

#[test]
fn instantiate_by_a_known_admin_is_turned_down() {
    let mut bridge = mock_bridge();
    init_default(&mut bridge).unwrap();
    let again = mock_init(&mut bridge, default_init_msg(), DEFAULT_OWNER, 0);
    assert!(matches!(again, Err(ContractError::AlreadyHasRole)));
}

#[test]
fn instantiate_with_equal_limits_and_fee_one_below() {
    let mut bridge = mock_bridge();
    let mut msg = default_init_msg();
    msg.swap_fee = 9;
    msg.lower_swap_limit = 10;
    msg.upper_swap_limit = 10;
    mock_init(&mut bridge, msg, DEFAULT_OWNER, 0).unwrap();
    let state = load_state(&bridge);
    assert!(state.swap_fee < state.lower_swap_limit);
    assert!(state.lower_swap_limit <= state.upper_swap_limit);
}

#[test]
fn instantiate_with_fee_equal_to_lower_limit_is_turned_down() {
    let mut bridge = mock_bridge();
    let mut msg = default_init_msg();
    msg.swap_fee = 110;
    let response = mock_init(&mut bridge, msg, DEFAULT_OWNER, 0);
    assert!(matches!(response, Err(ContractError::SwapLimitsInconsistent)));
    assert!(bridge.state.is_none());
    assert!(!have_role(&bridge, DEFAULT_OWNER, &AccessRole::Admin));
}

#[test]
fn set_limits_with_fee_equal_to_minimum_is_turned_down() {
    let mut bridge = mock_bridge();
    init_default(&mut bridge).unwrap();
    let response = set_limits(&mut bridge, DEFAULT_OWNER, 20, 20, 30);
    assert!(matches!(response, Err(ContractError::SwapLimitsInconsistent)));
    set_limits(&mut bridge, DEFAULT_OWNER, 19, 20, 20).unwrap();
    let state = load_state(&bridge);
    assert_eq!((state.swap_fee, state.lower_swap_limit, state.upper_swap_limit), (19, 20, 20));
}

// ---------------------------------------------------------------------------
// Roles
// ---------------------------------------------------------------------------
#[test]
fn unknown_role_is_turned_down() {
    let mut bridge = mock_bridge();
    init_default(&mut bridge).unwrap();
    expect_error(grant_role(&mut bridge, "OWNER_ROLE", "alice", DEFAULT_OWNER), ERR_UNKNOWN_ROLE);
    expect_error(revoke_role(&mut bridge, "admin_role", "alice", DEFAULT_OWNER), ERR_UNKNOWN_ROLE);
    expect_error(renounce_role(&mut bridge, "", DEFAULT_OWNER), ERR_UNKNOWN_ROLE);
    let answer = ask(
        &bridge,
        QueryMsg::HasRole { role: "ADMIN".to_string(), address: DEFAULT_OWNER.to_string() },
    );
    assert!(matches!(answer, Err(ContractError::UnknownRole)));
}

#[test]
fn grant_by_someone_else_comes_before_the_role_is_read() {
    let mut bridge = mock_bridge();
    init_default(&mut bridge).unwrap();
    let response = grant_role(&mut bridge, "OWNER_ROLE", "alice", "mallory");
    assert!(matches!(response, Err(ContractError::OnlyAdmin)));
}

#[test]
fn the_last_admin_can_leave() {
    let mut bridge = mock_bridge();
    init_default(&mut bridge).unwrap();
    renounce_role(&mut bridge, ADMIN_ROLE, DEFAULT_OWNER).unwrap();
    assert!(!have_role(&bridge, DEFAULT_OWNER, &AccessRole::Admin));
    let response = set_cap(&mut bridge, DEFAULT_OWNER, 1);
    assert!(matches!(response, Err(ContractError::OnlyAdmin)));
    let response = grant_role(&mut bridge, ADMIN_ROLE, DEFAULT_OWNER, DEFAULT_OWNER);
    assert!(matches!(response, Err(ContractError::OnlyAdmin)));
}

#[test]
fn roles_of_accounts_whose_names_run_into_each_other_stay_apart() {
    let mut bridge = mock_bridge();
    init_default(&mut bridge).unwrap();
    grant_role(&mut bridge, ADMIN_ROLE, "aliceADMIN_ROLE", DEFAULT_OWNER).unwrap();
    assert!(!have_role(&bridge, "alice", &AccessRole::Admin));
    grant_role(&mut bridge, RELAYER_ROLE, "ab", DEFAULT_OWNER).unwrap();
    assert!(!have_role(&bridge, "a", &AccessRole::Relayer));
    assert!(!have_role(&bridge, "abRELAYER_ROLE", &AccessRole::Relayer));
}

#[test]
fn role_markers_are_stored_under_the_nested_namespace() {
    let mut bridge = mock_bridge();
    init_default(&mut bridge).unwrap();
    let key = b"\x00\x0eaccess_control\x00\x05OwnerADMIN_ROLE";
    assert_eq!(bridge.deps.storage.get(key), Some(vec![1u8]));
    grant_role(&mut bridge, MONITOR_ROLE, "alice", DEFAULT_OWNER).unwrap();
    let key = b"\x00\x0eaccess_control\x00\x05aliceMONITOR_ROLE";
    assert_eq!(bridge.deps.storage.get(key), Some(vec![1u8]));
    revoke_role(&mut bridge, MONITOR_ROLE, "alice", DEFAULT_OWNER).unwrap();
    assert_eq!(bridge.deps.storage.get(key), None);
}

#[test]
fn a_marker_with_another_value_is_no_role() {
    let mut bridge = mock_bridge();
    init_default(&mut bridge).unwrap();
    let key = b"\x00\x0eaccess_control\x00\x05aliceMONITOR_ROLE";
    bridge.deps.storage.set(key, &[2u8]);
    assert!(!have_role(&bridge, "alice", &AccessRole::Monitor));
    bridge.deps.storage.set(key, &[1u8, 1u8]);
    assert!(!have_role(&bridge, "alice", &AccessRole::Monitor));
    bridge.deps.storage.set(key, &[1u8]);
    assert!(have_role(&bridge, "alice", &AccessRole::Monitor));
}

#[test]
fn refund_markers_are_stored_under_big_endian_ids() {
    let mut bridge = bridge_with_relayer(1000);
    let mut msg_id = 0u64;
    while msg_id < 3 {
        swap(&mut bridge, "user", "eth_addr", 110).unwrap();
        msg_id += 1;
    }
    refund(&mut bridge, "R", 2, "user", 120, 0).unwrap();
    let key = b"\x00\x07refunds\x00\x00\x00\x00\x00\x00\x00\x02";
    assert_eq!(bridge.deps.storage.get(key), Some(vec![1u8]));
    let other = b"\x00\x07refunds\x00\x00\x00\x00\x00\x00\x00\x01";
    assert_eq!(bridge.deps.storage.get(other), None);
    // the other swaps can still be refunded
    refund(&mut bridge, "R", 1, "user", 120, 0).unwrap();
    refund(&mut bridge, "R", 0, "user", 120, 0).unwrap();
}

// ---------------------------------------------------------------------------
// The host's address service
// ---------------------------------------------------------------------------
#[test]
fn a_recipient_that_the_host_refuses_fails_the_payment() {
    let mut bridge = bridge_with_relayer(1000);
    swap(&mut bridge, "user", "eth_addr", 110).unwrap();
    let before = load_state(&bridge);

    let response = reverse_swap(&mut bridge, "R", 0, "ab", "eth", "H", 110, 0);
    match response {
        Err(ContractError::Std(ref error)) => {
            assert_eq!(error.to_string(), "Generic error: Invalid input: human address too short")
        }
        other => panic!("unexpected answer: {:?}", other),
    }
    assert_eq!(
        response.unwrap_err().message(),
        "Generic error: Invalid input: human address too short"
    );
    assert!(matches!(refund(&mut bridge, "R", 0, "ab", 120, 0), Err(ContractError::Std(_))));
    assert!(matches!(
        withdraw(&mut bridge, DEFAULT_OWNER, 10, "ab"),
        Err(ContractError::Std(_))
    ));
    assert!(matches!(
        withdraw_fees(&mut bridge, DEFAULT_OWNER, 0, "an address that is much too long for the host"),
        Err(ContractError::Std(_))
    ));
    assert_eq!(load_state(&bridge), before);
    // the refund that failed has not used the swap up
    refund(&mut bridge, "R", 0, "user", 120, 0).unwrap();
}

#[test]
fn a_recipient_that_the_host_refuses_does_not_matter_where_nothing_is_paid() {
    let mut bridge = bridge_with_relayer(1000);
    let response = reverse_swap(&mut bridge, "R", 0, "ab", "eth", "H", 100, 0).unwrap();
    assert_eq!(response.messages.len(), 0);
}

#[test]
fn the_bridges_own_checks_come_before_the_host_is_asked() {
    let mut bridge = bridge_with_relayer(10);
    assert!(matches!(
        reverse_swap(&mut bridge, "R", 0, "ab", "eth", "H", 110, 0),
        Err(ContractError::SupplyExceeded)
    ));
    assert!(matches!(
        withdraw(&mut bridge, "user", 5, "ab"),
        Err(ContractError::OnlyAdmin)
    ));
}

#[test]
fn the_bank_is_told_the_address_as_the_host_renders_it() {
    let mut bridge = bridge_with_relayer(1000);
    // the mock host drops NUL bytes when it renders an address
    let response = reverse_swap(&mut bridge, "R", 0, "us\0er", "eth", "H", 110, 0).unwrap();
    assert_eq!(response.messages, vec![transfer("user", 10)]);
    assert_eq!(response.attributes[2], attribute("to", "us\0er"));
}

// ---------------------------------------------------------------------------
// Queries
// ---------------------------------------------------------------------------
#[test]
fn full_state_query_returns_the_state() {
    let mut bridge = bridge_with_relayer(1000);
    swap(&mut bridge, "user", "eth_addr", 110).unwrap();
    let answer = ask(&bridge, QueryMsg::FullState {}).unwrap();
    assert_eq!(answer, QueryResponse::FullState(load_state(&bridge)));
}

#[test]
fn denom_query_returns_the_denomination() {
    let mut bridge = mock_bridge();
    init_default(&mut bridge).unwrap();
    assert_eq!(
        ask(&bridge, QueryMsg::Denom {}).unwrap(),
        QueryResponse::Denom(DenomResponse { denom: DEFAULT_DENUM.to_string() })
    );
}

#[test]
fn has_role_query_of_an_unknown_account_is_false() {
    let mut bridge = mock_bridge();
    init_default(&mut bridge).unwrap();
    let answer = ask(
        &bridge,
        QueryMsg::HasRole { role: RELAYER_ROLE.to_string(), address: "nobody".to_string() },
    )
    .unwrap();
    assert_eq!(answer, QueryResponse::HasRole(RoleResponse { has_role: false }));
}

// ---------------------------------------------------------------------------
// Funds
// ---------------------------------------------------------------------------
#[test]
fn amount_from_funds_takes_the_first_coin_of_the_denomination() {
    let funds = vec![
        Coin { denom: "other".to_string(), amount: 1 },
        Coin { denom: "afet".to_string(), amount: 2 },
        Coin { denom: "afet".to_string(), amount: 3 },
    ];
    assert_eq!(amount_from_funds(&funds, "afet".to_string()).unwrap(), 2);
    assert_eq!(amount_from_funds(&funds, "other".to_string()).unwrap(), 1);
    assert!(matches!(
        amount_from_funds(&funds, "afe".to_string()),
        Err(ContractError::UnrecognizedDenom)
    ));
    assert!(matches!(
        amount_from_funds(&vec![], "afet".to_string()),
        Err(ContractError::UnrecognizedDenom)
    ));
}

#[test]
fn swap_without_funds_of_the_denomination_fails_even_while_paused() {
    let mut bridge = mock_bridge();
    init_default(&mut bridge).unwrap();
    pause_public_api(&mut bridge, mock_info(DEFAULT_OWNER, &[])).unwrap();
    let info = mock_info("user", &coins(110, "WRONG"));
    let response =
        handle(&mut bridge, mock_env(), info, ExecuteMsg::Swap { destination: "e".to_string() });
    assert!(matches!(response, Err(ContractError::UnrecognizedDenom)));
}

// ---------------------------------------------------------------------------
// Whether a request can be carried out
// ---------------------------------------------------------------------------
fn fits(bridge: &Bridge, info: &MessageInfo, msg: &ExecuteMsg) -> bool {
    let state = bridge.state.as_ref().expect("the bridge is not set up");
    can_execute(bridge.deps.as_ref(), &mock_env(), info, state, msg)
}

fn long_address() -> String {
    "a".repeat(0x10000)
}

fn longest_address() -> String {
    "a".repeat(0xFFFF)
}

#[test]
fn ordinary_requests_can_be_carried_out() {
    let bridge = bridge_with_relayer(1000);
    let user = mock_info("user", &coins(110, DEFAULT_DENUM));
    let relayer = mock_info("R", &[]);
    let owner = mock_info(DEFAULT_OWNER, &coins(5, DEFAULT_DENUM));
    assert!(fits(&bridge, &user, &ExecuteMsg::Swap { destination: "e".to_string() }));
    assert!(fits(&bridge, &relayer, &ExecuteMsg::NewRelayEon {}));
    assert!(fits(&bridge, &owner, &ExecuteMsg::Deposit {}));
    assert!(fits(
        &bridge,
        &relayer,
        &ExecuteMsg::Refund { id: 0, to: "user".to_string(), amount: 120, relay_eon: 0 }
    ));
    assert!(fits(
        &bridge,
        &owner,
        &ExecuteMsg::GrantRole { role: ADMIN_ROLE.to_string(), address: longest_address() }
    ));
}

#[test]
fn a_swap_that_would_use_up_the_last_id_cannot_be_carried_out() {
    let mut bridge = mock_bridge();
    let mut msg = default_init_msg();
    msg.next_swap_id = u64::MAX;
    mock_init(&mut bridge, msg, DEFAULT_OWNER, 0).unwrap();
    let swap_msg = ExecuteMsg::Swap { destination: "e".to_string() };
    assert!(!fits(&bridge, &mock_info("user", &coins(110, DEFAULT_DENUM)), &swap_msg));
    // a swap that is turned down anyway can
    assert!(fits(&bridge, &mock_info("user", &coins(10, DEFAULT_DENUM)), &swap_msg));
    assert!(fits(&bridge, &mock_info("user", &coins(110, "WRONG")), &swap_msg));
    pause_public_api(&mut bridge, mock_info(DEFAULT_OWNER, &[])).unwrap();
    assert!(fits(&bridge, &mock_info("user", &coins(110, DEFAULT_DENUM)), &swap_msg));
}

#[test]
fn a_deposit_beyond_what_the_supply_can_hold_cannot_be_carried_out() {
    let mut bridge = mock_bridge();
    init_default(&mut bridge).unwrap();
    deposit(&mut bridge, u128::MAX - 5, DEFAULT_OWNER).unwrap();
    let deposit_msg = ExecuteMsg::Deposit {};
    assert!(fits(&bridge, &mock_info(DEFAULT_OWNER, &coins(5, DEFAULT_DENUM)), &deposit_msg));
    assert!(!fits(&bridge, &mock_info(DEFAULT_OWNER, &coins(6, DEFAULT_DENUM)), &deposit_msg));
    assert!(fits(&bridge, &mock_info("user", &coins(6, DEFAULT_DENUM)), &deposit_msg));
    assert!(fits(&bridge, &mock_info(DEFAULT_OWNER, &coins(6, "WRONG")), &deposit_msg));
}

#[test]
fn the_last_relay_eon_cannot_be_followed_by_another() {
    let mut bridge = bridge_with_relayer(0);
    bridge.state.as_mut().unwrap().relay_eon = u64::MAX;
    assert!(!fits(&bridge, &mock_info("R", &[]), &ExecuteMsg::NewRelayEon {}));
    assert!(fits(&bridge, &mock_info("user", &[]), &ExecuteMsg::NewRelayEon {}));
    bridge.state.as_mut().unwrap().relay_eon = u64::MAX - 1;
    new_relay_eon(&mut bridge, "R").unwrap();
    assert_eq!(load_state(&bridge).relay_eon, u64::MAX);
}

#[test]
fn a_fee_beyond_what_the_fees_accrued_can_hold_cannot_be_booked() {
    let mut bridge = bridge_with_relayer(1000);
    swap(&mut bridge, "user", "eth_addr", 110).unwrap();
    bridge.state.as_mut().unwrap().fees_accrued = u128::MAX - 99;
    let relayer = mock_info("R", &[]);
    let reverse = |amount: u128| ExecuteMsg::ReverseSwap {
        rid: 0,
        to: "user".to_string(),
        sender: "eth".to_string(),
        origin_tx_hash: "H".to_string(),
        amount,
        relay_eon: 0,
    };
    assert!(fits(&bridge, &relayer, &reverse(99)));
    assert!(!fits(&bridge, &relayer, &reverse(100)));
    assert!(!fits(&bridge, &relayer, &reverse(500)));
    // turned down anyway: more than the supply, or signed for another eon
    assert!(fits(&bridge, &relayer, &reverse(5000)));
    assert!(fits(&bridge, &mock_info("user", &[]), &reverse(500)));
    let refund_msg = ExecuteMsg::Refund { id: 0, to: "user".to_string(), amount: 120, relay_eon: 0 };
    let in_full =
        ExecuteMsg::RefundInFull { id: 0, to: "user".to_string(), amount: 120, relay_eon: 0 };
    let unknown = ExecuteMsg::Refund { id: 9, to: "user".to_string(), amount: 120, relay_eon: 0 };
    assert!(!fits(&bridge, &relayer, &refund_msg));
    assert!(fits(&bridge, &relayer, &in_full));
    assert!(fits(&bridge, &relayer, &unknown));
    refund_in_full(&mut bridge, "R", 0, "user", 120, 0).unwrap();
    assert_eq!(load_state(&bridge).fees_accrued, u128::MAX - 99);
}

#[test]
fn an_address_too_long_for_a_namespace_cannot_be_looked_up() {
    let bridge = bridge_with_relayer(0);
    let long = mock_info(&long_address(), &coins(110, DEFAULT_DENUM));
    let owner = mock_info(DEFAULT_OWNER, &[]);
    assert!(!fits(&bridge, &long, &ExecuteMsg::Deposit {}));
    assert!(!fits(&bridge, &long, &ExecuteMsg::SetCap { amount: 1 }));
    assert!(!fits(&bridge, &long, &ExecuteMsg::RenounceRole { role: ADMIN_ROLE.to_string() }));
    // a swap looks nobody up
    assert!(fits(&bridge, &long, &ExecuteMsg::Swap { destination: "e".to_string() }));
    let grant = |role: &str| ExecuteMsg::GrantRole {
        role: role.to_string(),
        address: long_address(),
    };
    let revoke = ExecuteMsg::RevokeRole { role: ADMIN_ROLE.to_string(), address: long_address() };
    assert!(!fits(&bridge, &owner, &grant(ADMIN_ROLE)));
    assert!(!fits(&bridge, &owner, &revoke));
    assert!(fits(&bridge, &owner, &grant("NO_ROLE")));
    assert!(fits(&bridge, &mock_info("user", &[]), &grant(ADMIN_ROLE)));
}

#[test]
fn the_longest_address_can_hold_a_role() {
    let mut bridge = mock_bridge();
    init_default(&mut bridge).unwrap();
    let address = longest_address();
    grant_role(&mut bridge, MONITOR_ROLE, &address, DEFAULT_OWNER).unwrap();
    assert!(have_role(&bridge, &address, &AccessRole::Monitor));
    assert!(!have_role(&bridge, &address[1..], &AccessRole::Monitor));
    pause_public_api(&mut bridge, mock_info(&address, &[])).unwrap();
}

#[test]
fn whether_a_bridge_can_be_set_up() {
    assert!(can_instantiate(&mock_info(DEFAULT_OWNER, &[]), &default_init_msg()));
    assert!(!can_instantiate(&mock_info(&long_address(), &[]), &default_init_msg()));
    let mut inconsistent = default_init_msg();
    inconsistent.swap_fee = inconsistent.lower_swap_limit;
    assert!(can_instantiate(&mock_info(&long_address(), &[]), &inconsistent));
}

#[test]
fn whether_a_query_can_be_answered() {
    assert!(can_query(&QueryMsg::Supply {}));
    assert!(can_query(&QueryMsg::HasRole {
        role: ADMIN_ROLE.to_string(),
        address: DEFAULT_OWNER.to_string()
    }));
    assert!(!can_query(&QueryMsg::HasRole {
        role: ADMIN_ROLE.to_string(),
        address: long_address()
    }));
    assert!(can_query(&QueryMsg::HasRole { role: "NO_ROLE".to_string(), address: long_address() }));
}
