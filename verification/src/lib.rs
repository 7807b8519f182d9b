//! The ledger side of a token bridge between two chains, as a verified state
//! machine.
//!
//! Users hand native tokens to the bridge to be credited on the other chain (a
//! swap). Relayers report what happened there: tokens handed in on the other side
//! are paid out here (a reverse swap), and a swap that the other side could not
//! credit is given back (a refund). Admins run the treasury, set the limits and
//! say who holds which role; approvers top up what relayers may pay out; monitors
//! can pause an interface.
//!
//! The bridge runs inside a host that calls [`contract::instantiate`] once and
//! [`contract::execute`] for every request. The host keeps two things for the
//! bridge between calls: the [`state::State`], and a key-value store in which the
//! bridge marks who holds which role and which swaps have been refunded.
//!
//! - [`model`] says, as mathematics, what each request does.
//! - [`contract`] does it, and is proved to do exactly that.
//! - [`theorems`] proves what follows for every history of the bridge: the supply
//!   is what went in less what went out, a swap is refunded at most once, a new
//!   relay eon voids what was signed for the old one.
//! - [`access_control`] and [`state`] keep the role markers and the refund markers;
//!   [`keys`] lays out the store and proves that no two keys collide.
//! - [`storage`] is the boundary to the host. Its contracts are taken on trust.
pub mod access_control;
pub mod contract;
pub mod error;
pub mod keys;
pub mod model;
pub mod msg;
pub mod state;
pub mod storage;
pub mod text;
pub mod theorems;
pub mod types;
