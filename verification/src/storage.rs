//! The boundary to the host: the key-value store and the address service that a
//! contract reaches through `cosmwasm_std::DepsMut` and `cosmwasm_std::Deps`.
//!
//! Nothing in this file is proved. Each function below is one call into
//! `cosmwasm_std` or `cosmwasm_storage`, with a contract that restates what the
//! called code does; everything else in the crate is verified against these
//! contracts.
use cosmwasm_std::{CanonicalAddr, Deps, DepsMut, StdError};
use cosmwasm_storage::{PrefixedStorage, ReadonlyPrefixedStorage};
use vstd::prelude::*;

verus! {

/// `cosmwasm_std::DepsMut`, the host handle with write access to the store.
#[verifier::external_type_specification]
#[verifier::external_body]
pub struct ExDepsMut<'a>(DepsMut<'a>);

/// `cosmwasm_std::Deps`, the read-only host handle.
#[verifier::external_type_specification]
#[verifier::external_body]
pub struct ExDeps<'a>(Deps<'a>);

/// `cosmwasm_std::CanonicalAddr`, an address in the host's binary form.
#[verifier::external_type_specification]
#[verifier::external_body]
pub struct ExCanonicalAddr(CanonicalAddr);

/// `cosmwasm_std::StdError`, the error that host calls return.
#[verifier::external_type_specification]
#[verifier::external_body]
pub struct ExStdError(StdError);

/// The key-value pairs in the store behind a writable handle.
pub uninterp spec fn entries(deps: DepsMut) -> Map<Seq<u8>, Seq<u8>>;

/// The key-value pairs in the store behind a read-only handle.
pub uninterp spec fn entries_read(deps: Deps) -> Map<Seq<u8>, Seq<u8>>;

/// The longest namespace that `cosmwasm_storage` accepts, in bytes.
pub const MAX_NAMESPACE_LEN: usize = 0xFFFF;

/// A namespace as `cosmwasm_storage` writes it in front of a key: its length as two
/// bytes, most significant first, then the namespace itself.
pub open spec fn length_prefixed(namespace: Seq<u8>) -> Seq<u8> {
    seq![(namespace.len() / 256) as u8, (namespace.len() % 256) as u8] + namespace
}

/// The raw key of `key` under a single namespace.
pub open spec fn prefixed_key(namespace: Seq<u8>, key: Seq<u8>) -> Seq<u8> {
    length_prefixed(namespace) + key
}

/// The raw key of `key` under the namespace `inner` nested in `outer`.
pub open spec fn nested_key(outer: Seq<u8>, inner: Seq<u8>, key: Seq<u8>) -> Seq<u8> {
    length_prefixed(outer) + length_prefixed(inner) + key
}

/// Calls `DepsMut::as_ref`. The read-only handle it returns looks at the same store.
#[verifier::external_body]
pub(crate) fn as_read<'a>(deps: &'a DepsMut) -> (reader: Deps<'a>)
    ensures
        entries_read(reader) == entries(*deps),
{
    deps.as_ref()
}

/// Calls `ReadonlyPrefixedStorage::new` and `get` on it: the value stored under
/// the namespaced key, or `None` where the store has no such key.
#[verifier::external_body]
pub(crate) fn prefixed_get(deps: Deps, namespace: &[u8], key: &[u8]) -> (value: Option<Vec<u8>>)
    requires
        namespace@.len() <= MAX_NAMESPACE_LEN,
    ensures
        value is Some == entries_read(deps).contains_key(prefixed_key(namespace@, key@)),
        value is Some ==> value->Some_0@ == entries_read(deps)[prefixed_key(namespace@, key@)],
{
    ReadonlyPrefixedStorage::new(deps.storage, namespace).get(key)
}

/// Calls `ReadonlyPrefixedStorage::multilevel` with two namespaces and `get` on it.
#[verifier::external_body]
pub(crate) fn nested_get(deps: Deps, outer: &[u8], inner: &[u8], key: &[u8]) -> (value: Option<
    Vec<u8>,
>)
    requires
        outer@.len() <= MAX_NAMESPACE_LEN,
        inner@.len() <= MAX_NAMESPACE_LEN,
    ensures
        value is Some == entries_read(deps).contains_key(nested_key(outer@, inner@, key@)),
        value is Some ==> value->Some_0@ == entries_read(deps)[nested_key(outer@, inner@, key@)],
{
    ReadonlyPrefixedStorage::multilevel(deps.storage, &[outer, inner]).get(key)
}

/// Calls `PrefixedStorage::new` and `set` on it: afterwards the store holds `value`
/// under the namespaced key and is otherwise as before. The store refuses an empty
/// value.
#[verifier::external_body]
pub(crate) fn prefixed_set(deps: &mut DepsMut, namespace: &[u8], key: &[u8], value: &[u8])
    requires
        namespace@.len() <= MAX_NAMESPACE_LEN,
        value@.len() > 0,
    ensures
        entries(*final(deps)) == entries(*old(deps)).insert(
            prefixed_key(namespace@, key@),
            value@,
        ),
{
    PrefixedStorage::new(&mut *deps.storage, namespace).set(key, value)
}

/// Calls `PrefixedStorage::multilevel` with two namespaces and `set` on it.
#[verifier::external_body]
pub(crate) fn nested_set(
    deps: &mut DepsMut,
    outer: &[u8],
    inner: &[u8],
    key: &[u8],
    value: &[u8],
)
    requires
        outer@.len() <= MAX_NAMESPACE_LEN,
        inner@.len() <= MAX_NAMESPACE_LEN,
        value@.len() > 0,
    ensures
        entries(*final(deps)) == entries(*old(deps)).insert(
            nested_key(outer@, inner@, key@),
            value@,
        ),
{
    PrefixedStorage::multilevel(&mut *deps.storage, &[outer, inner]).set(key, value)
}

/// Calls `PrefixedStorage::multilevel` with two namespaces and `remove` on it:
/// afterwards the store has no entry under the namespaced key and is otherwise as
/// before.
#[verifier::external_body]
pub(crate) fn nested_remove(deps: &mut DepsMut, outer: &[u8], inner: &[u8], key: &[u8])
    requires
        outer@.len() <= MAX_NAMESPACE_LEN,
        inner@.len() <= MAX_NAMESPACE_LEN,
    ensures
        entries(*final(deps)) == entries(*old(deps)).remove(nested_key(outer@, inner@, key@)),
{
    PrefixedStorage::multilevel(&mut *deps.storage, &[outer, inner]).remove(key)
}

/// Calls `Api::addr_canonicalize` on the host's address service. Whether the host
/// accepts an address, and what it turns it into, is the host's business: nothing is
/// claimed of the result.
#[verifier::external_body]
pub(crate) fn addr_canonicalize(deps: Deps, human: &str) -> (canonical: Result<
    CanonicalAddr,
    StdError,
>) {
    deps.api.addr_canonicalize(human)
}

/// Calls `Api::addr_humanize` on the host's address service and hands the address
/// back as text. Nothing is claimed of the result.
#[verifier::external_body]
pub(crate) fn addr_humanize(deps: Deps, canonical: &CanonicalAddr) -> (human: Result<
    String,
    StdError,
>) {
    deps.api.addr_humanize(canonical).map(|addr| addr.into())
}

/// Calls `to_string` on a host error, that is `StdError`'s `Display`. The wording is
/// the host's: nothing is claimed of it.
#[verifier::external_body]
pub(crate) fn host_error_text(error: &StdError) -> (text: String) {
    error.to_string()
}

} // verus!
