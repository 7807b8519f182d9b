//! Why the bridge turns a request down.
use crate::storage::host_error_text;
use cosmwasm_std::StdError;
use vstd::prelude::*;

verus! {

// Clients recognise a rejection by the tag in square brackets at the start of its
// message, so these texts are part of the interface.
pub const ERR_SWAP_LIMITS_INCONSISTENT: &'static str =
    "[FET_ERR_SWAP_LIMITS_INCONSISTENT] inconsistent swap fee and swap limits";

pub const ERR_SWAP_LIMITS_VIOLATED: &'static str = "[FET_ERROR_SWAP_LIMITS] Swap limits violated";

pub const ERR_SUPPLY_EXCEEDED: &'static str = "[FET_ERR_SUPPLY_EXCEEDED] Amount would exceed supply";

pub const ERR_RA_ALLOWANCE_EXCEEDED: &'static str =
    "[FET_ERR_RA_ALLOWANCE_EXCEEDED] Amount would exceed reverse aggregated allowance";

pub const ERR_CAP_EXCEEDED: &'static str = "[FET_ERR_CAP_EXCEEDED] Amount would exceed cap";

pub const ERR_ACCESS_CONTROL_ONLY_ADMIN: &'static str = "[FET_ERR_ACCESS_CONTROL] Only Admin";

pub const ERR_ACCESS_CONTROL_ONLY_RELAYER: &'static str = "[FET_ERR_ACCESS_CONTROL] Only Relayer";

pub const ERR_ACCESS_CONTROL_ALREADY_HAS_ROLE: &'static str = "[FET_ERR_ACCESS_CONTROL] Already have role";

pub const ERR_ACCESS_CONTROL_DOESNT_HAVE_ROLE: &'static str = "[FET_ERR_ACCESS_CONTROL] Don't have role";

pub const ERR_UNKNOWN_ROLE: &'static str = "Unknow role";

pub const ERR_UNRECOGNIZED_DENOM: &'static str = "[FET_ERR_UNRECOGNIZED_DENOM] unrecognized denom";

pub const ERR_CONTRACT_PAUSED: &'static str = "[FET_ERR_CONTRACT_PAUSED] Contract is paused";

pub const ERR_EON: &'static str = "[FET_ERR_EON] Tx doesn't belong to current relayEon";

pub const ERR_INVALID_SWAP_ID: &'static str = "[FET_ERR_INVALID_SWAP_ID] Invalid swap id";

pub const ERR_ALREADY_REFUNDED: &'static str = "[FET_ERR_ALREADY_REFUNDED] Refund was already processed";

/// A rejected request. A rejection leaves the bridge exactly as it was.
#[derive(Debug)]
pub enum ContractError {
    /// The host refused a call; its error is handed up unchanged.
    Std(StdError),
    /// The swap fee is not below the lower swap limit, or the lower limit is above
    /// the upper one.
    SwapLimitsInconsistent,
    /// The amount of a swap is outside the swap limits.
    SwapLimitsViolated,
    /// The amount is more than the supply, or more than the fees accrued where fees
    /// are withdrawn.
    SupplyExceeded,
    /// The amount is more than what is left of the reverse aggregated allowance.
    AllowanceExceeded,
    /// The swap would lift the supply above the cap.
    CapExceeded,
    /// The caller lacks the role that the request needs, and that role is not the
    /// relayer's.
    OnlyAdmin,
    /// The caller is not a relayer.
    OnlyRelayer,
    /// The account already holds the role that is to be granted.
    AlreadyHasRole,
    /// The account does not hold the role that is to be taken away.
    DoesntHaveRole,
    /// The text names no role.
    UnknownRole,
    /// The funds sent along hold no coin of the bridge's denomination.
    UnrecognizedDenom,
    /// The interface that the request belongs to is paused.
    ContractPaused,
    /// The request was signed for another relay eon than the current one.
    RelayEon,
    /// No swap with this id has been made.
    InvalidSwapId,
    /// The swap with this id has been refunded before.
    AlreadyRefunded,
}

impl ContractError {
    /// The message of a rejection that the bridge itself decided on; `None` for an
    /// error of the host, whose wording is the host's.
    pub open spec fn text(self) -> Option<Seq<char>> {
        match self {
            ContractError::Std(_) => None,
            ContractError::SwapLimitsInconsistent => Some(ERR_SWAP_LIMITS_INCONSISTENT@),
            ContractError::SwapLimitsViolated => Some(ERR_SWAP_LIMITS_VIOLATED@),
            ContractError::SupplyExceeded => Some(ERR_SUPPLY_EXCEEDED@),
            ContractError::AllowanceExceeded => Some(ERR_RA_ALLOWANCE_EXCEEDED@),
            ContractError::CapExceeded => Some(ERR_CAP_EXCEEDED@),
            ContractError::OnlyAdmin => Some(ERR_ACCESS_CONTROL_ONLY_ADMIN@),
            ContractError::OnlyRelayer => Some(ERR_ACCESS_CONTROL_ONLY_RELAYER@),
            ContractError::AlreadyHasRole => Some(ERR_ACCESS_CONTROL_ALREADY_HAS_ROLE@),
            ContractError::DoesntHaveRole => Some(ERR_ACCESS_CONTROL_DOESNT_HAVE_ROLE@),
            ContractError::UnknownRole => Some(ERR_UNKNOWN_ROLE@),
            ContractError::UnrecognizedDenom => Some(ERR_UNRECOGNIZED_DENOM@),
            ContractError::ContractPaused => Some(ERR_CONTRACT_PAUSED@),
            ContractError::RelayEon => Some(ERR_EON@),
            ContractError::InvalidSwapId => Some(ERR_INVALID_SWAP_ID@),
            ContractError::AlreadyRefunded => Some(ERR_ALREADY_REFUNDED@),
        }
    }

    /// The message that the transaction fails with.
    pub fn message(&self) -> (out: String)
        ensures
            self.text() matches Some(text) ==> out@ == text,
    {
        match self {
            ContractError::Std(inner) => host_error_text(inner),
            ContractError::SwapLimitsInconsistent => ERR_SWAP_LIMITS_INCONSISTENT.to_owned(),
            ContractError::SwapLimitsViolated => ERR_SWAP_LIMITS_VIOLATED.to_owned(),
            ContractError::SupplyExceeded => ERR_SUPPLY_EXCEEDED.to_owned(),
            ContractError::AllowanceExceeded => ERR_RA_ALLOWANCE_EXCEEDED.to_owned(),
            ContractError::CapExceeded => ERR_CAP_EXCEEDED.to_owned(),
            ContractError::OnlyAdmin => ERR_ACCESS_CONTROL_ONLY_ADMIN.to_owned(),
            ContractError::OnlyRelayer => ERR_ACCESS_CONTROL_ONLY_RELAYER.to_owned(),
            ContractError::AlreadyHasRole => ERR_ACCESS_CONTROL_ALREADY_HAS_ROLE.to_owned(),
            ContractError::DoesntHaveRole => ERR_ACCESS_CONTROL_DOESNT_HAVE_ROLE.to_owned(),
            ContractError::UnknownRole => ERR_UNKNOWN_ROLE.to_owned(),
            ContractError::UnrecognizedDenom => ERR_UNRECOGNIZED_DENOM.to_owned(),
            ContractError::ContractPaused => ERR_CONTRACT_PAUSED.to_owned(),
            ContractError::RelayEon => ERR_EON.to_owned(),
            ContractError::InvalidSwapId => ERR_INVALID_SWAP_ID.to_owned(),
            ContractError::AlreadyRefunded => ERR_ALREADY_REFUNDED.to_owned(),
        }
    }
}

} // verus!
