//! The bridge's parameters and counters, and the ledger of refunds.
use crate::keys::{refund_key, u64_to_be_bytes, REFUNDS_KEY};
use crate::storage::{entries, entries_read, prefixed_get, prefixed_set};
use cosmwasm_std::{Deps, DepsMut};
use vstd::prelude::*;
use vstd::string::*;

verus! {

/// The bridge's parameters and counters. The host keeps them between calls and
/// hands them to each call.
#[derive(Debug, Clone, PartialEq, Eq)]
pub struct State {
    /// What the bridge holds on behalf of the other chain.
    pub supply: u128,
    /// The part of the bridge's balance that is set aside as fees.
    pub fees_accrued: u128,
    /// The id that the next swap gets.
    pub next_swap_id: u64,
    /// Reserved. Nothing changes it.
    pub sealed_reverse_swap_id: u64,
    /// The current generation of relayers.
    pub relay_eon: u64,
    pub upper_swap_limit: u128,
    pub lower_swap_limit: u128,
    /// What relayers may still pay out before an approver or an admin tops it up.
    pub reverse_aggregated_allowance: u128,
    /// The most that an approver may set the allowance to.
    pub reverse_aggregated_allowance_approver_cap: u128,
    /// The ceiling that a swap may not lift the supply above.
    pub cap: u128,
    pub swap_fee: u128,
    /// The public interface is paused in every block from this one on.
    pub paused_since_block_public_api: u64,
    /// The relayers' interface is paused in every block from this one on.
    pub paused_since_block_relayer_api: u64,
    pub denom: String,
    /// The bridge's own address.
    pub contract_addr_human: String,
}

impl State {
    /// The swap fee is below the lower swap limit, which is not above the upper one.
    pub open spec fn limits_consistent(self) -> bool {
        crate::model::limits_consistent(
            self.lower_swap_limit,
            self.upper_swap_limit,
            self.swap_fee,
        )
    }
}

/// Whether the store says that the swap `id` has been refunded.
pub open spec fn refunded(store: Map<Seq<u8>, Seq<u8>>, id: u64) -> bool {
    store.contains_key(refund_key(id))
}

/// The store after the swap `id` was marked as refunded.
pub open spec fn with_refund(store: Map<Seq<u8>, Seq<u8>>, id: u64) -> Map<Seq<u8>, Seq<u8>> {
    store.insert(refund_key(id), crate::keys::marker())
}

/// Marks a swap as refunded.
pub fn refunds_add(swap_id: u64, deps: &mut DepsMut)
    ensures
        entries(*final(deps)) == with_refund(entries(*old(deps)), swap_id),
{
    proof {
        crate::keys::lemma_namespace_lengths();
    }
    let key = u64_to_be_bytes(swap_id);
    let mut value: Vec<u8> = Vec::new();
    value.push(1);
    assert(value@ =~= crate::keys::marker());
    prefixed_set(deps, REFUNDS_KEY.as_bytes(), key.as_slice(), value.as_slice());
}

/// Looks up whether a swap has been refunded.
pub fn refunds_have(swap_id: u64, deps: Deps) -> (have: bool)
    ensures
        have == refunded(entries_read(deps), swap_id),
{
    proof {
        crate::keys::lemma_namespace_lengths();
    }
    let key = u64_to_be_bytes(swap_id);
    match prefixed_get(deps, REFUNDS_KEY.as_bytes(), key.as_slice()) {
        Some(_) => true,
        None => false,
    }
}

} // verus!
