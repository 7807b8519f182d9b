//! The requests that the bridge takes, and the answers to its queries.
use crate::state::State;
use vstd::prelude::*;

verus! {

/// How the bridge is set up.
#[derive(Debug, Clone, PartialEq, Eq)]
pub struct InstantiateMsg {
    pub next_swap_id: u64,
    pub cap: u128,
    pub upper_swap_limit: u128,
    pub lower_swap_limit: u128,
    pub swap_fee: u128,
    pub reverse_aggregated_allowance: u128,
    pub reverse_aggregated_allowance_approver_cap: u128,
    /// The block from which both interfaces are paused; never paused if absent.
    pub paused_since_block: Option<u64>,
    /// The denomination that the bridge handles; `afet` if absent.
    pub denom: Option<String>,
}

/// A request that may change the bridge.
#[derive(Debug, Clone, PartialEq, Eq)]
pub enum ExecuteMsg {
    /// Hands the funds sent along to the bridge, to be credited to `destination`
    /// on the other chain.
    Swap { destination: String },
    /// A relayer pays out on this chain what was handed in on the other one.
    ReverseSwap {
        rid: u64,
        to: String,
        sender: String,
        origin_tx_hash: String,
        amount: u128,
        relay_eon: u64,
    },
    /// A relayer gives back a swap that the other chain could not credit, less the
    /// swap fee.
    Refund { id: u64, to: String, amount: u128, relay_eon: u64 },
    /// A relayer gives back a swap in full.
    RefundInFull { id: u64, to: String, amount: u128, relay_eon: u64 },
    PausePublicApi { since_block: u64 },
    PauseRelayerApi { since_block: u64 },
    /// Starts a new generation of relayers: what was signed for the old one is void.
    NewRelayEon {  },
    /// An admin adds the funds sent along to the supply.
    Deposit {  },
    /// An admin pays out of the supply.
    Withdraw { amount: u128, destination: String },
    /// An admin pays out of the fees accrued.
    WithdrawFees { amount: u128, destination: String },
    SetCap { amount: u128 },
    SetReverseAggregatedAllowance { amount: u128 },
    SetReverseAggregatedAllowanceApproverCap { amount: u128 },
    SetLimits { swap_min: u128, swap_max: u128, swap_fee: u128 },
    GrantRole { role: String, address: String },
    RevokeRole { role: String, address: String },
    /// The caller gives up a role of their own.
    RenounceRole { role: String },
}

/// A request that only reads.
#[derive(Debug, Clone, PartialEq, Eq)]
pub enum QueryMsg {
    HasRole { role: String, address: String },
    RelayEon {  },
    Supply {  },
    ReverseAggregatedAllowance {  },
    SwapMax {  },
    Cap {  },
    PausedPublicApiSince {  },
    PausedRelayerApiSince {  },
    Denom {  },
    FullState {  },
}

/// Whether the account holds the role.
#[derive(Debug, Clone, PartialEq, Eq)]
pub struct RoleResponse {
    pub has_role: bool,
}

/// The current relay eon.
#[derive(Debug, Clone, PartialEq, Eq)]
pub struct RelayEonResponse {
    pub eon: u64,
}

/// An amount: the supply, or one of the parameters that are amounts.
#[derive(Debug, Clone, PartialEq, Eq)]
pub struct SupplyResponse {
    pub amount: u128,
}

pub type CapResponse = SupplyResponse;

pub type SwapMaxResponse = SupplyResponse;

pub type ReverseAggregatedAllowanceResponse = SupplyResponse;

/// The block from which an interface is paused.
#[derive(Debug, Clone, PartialEq, Eq)]
pub struct PausedSinceBlockResponse {
    pub block: u64,
}

/// The denomination that the bridge handles.
#[derive(Debug, Clone, PartialEq, Eq)]
pub struct DenomResponse {
    pub denom: String,
}

/// The answer to a query, one variant for each kind of query.
#[derive(Debug, Clone, PartialEq, Eq)]
pub enum QueryResponse {
    HasRole(RoleResponse),
    RelayEon(RelayEonResponse),
    Supply(SupplyResponse),
    ReverseAggregatedAllowance(ReverseAggregatedAllowanceResponse),
    SwapMax(SwapMaxResponse),
    Cap(CapResponse),
    PausedPublicApiSince(PausedSinceBlockResponse),
    PausedRelayerApiSince(PausedSinceBlockResponse),
    Denom(DenomResponse),
    FullState(State),
}

} // verus!
