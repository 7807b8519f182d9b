//! Where the bridge keeps what in the host's store, and why no two of its keys
//! collide.
use crate::access_control::AccessRole;
use crate::storage::{length_prefixed, nested_key, prefixed_key, MAX_NAMESPACE_LEN};
use vstd::prelude::*;
use vstd::utf8::*;

verus! {

/// The namespace of the role markers. Each account has a namespace of its own
/// nested in it, named by the account's address.
pub const ACCESS_CONTROL_KEY: &'static str = "access_control";

/// The namespace of the refund markers.
pub const REFUNDS_KEY: &'static str = "refunds";

/// The namespace under which the host keeps the bridge's parameters and counters.
pub const CONFIG_KEY: &'static str = "config";

/// What a marker's entry holds: the single byte 1.
pub open spec fn marker() -> Seq<u8> {
    seq![1u8]
}

/// An address that can name a namespace: its UTF-8 form is at most 65535 bytes long.
pub open spec fn valid_address(addr: Seq<char>) -> bool {
    encode_utf8(addr).len() <= MAX_NAMESPACE_LEN
}

/// The raw key of the marker that says that `addr` holds `role`.
pub open spec fn role_key(addr: Seq<char>, role: AccessRole) -> Seq<u8> {
    nested_key(encode_utf8(ACCESS_CONTROL_KEY@), encode_utf8(addr), encode_utf8(role.name()))
}

/// The eight bytes of a swap id, most significant first.
pub open spec fn be64(id: u64) -> Seq<u8> {
    seq![
        (id / 256 / 256 / 256 / 256 / 256 / 256 / 256) as u8,
        (id / 256 / 256 / 256 / 256 / 256 / 256 % 256) as u8,
        (id / 256 / 256 / 256 / 256 / 256 % 256) as u8,
        (id / 256 / 256 / 256 / 256 % 256) as u8,
        (id / 256 / 256 / 256 % 256) as u8,
        (id / 256 / 256 % 256) as u8,
        (id / 256 % 256) as u8,
        (id % 256) as u8,
    ]
}

/// The raw key of the marker that says that the swap `id` has been refunded.
pub open spec fn refund_key(id: u64) -> Seq<u8> {
    prefixed_key(encode_utf8(REFUNDS_KEY@), be64(id))
}

/// The raw key of the bridge's parameters and counters.
pub open spec fn config_key() -> Seq<u8> {
    length_prefixed(encode_utf8(CONFIG_KEY@))
}

/// Writes a swap id as eight bytes, most significant first.
pub fn u64_to_be_bytes(id: u64) -> (bytes: Vec<u8>)
    ensures
        bytes@ == be64(id),
{
    let mut bytes: Vec<u8> = Vec::new();
    bytes.push((id / 256 / 256 / 256 / 256 / 256 / 256 / 256) as u8);
    bytes.push((id / 256 / 256 / 256 / 256 / 256 / 256 % 256) as u8);
    bytes.push((id / 256 / 256 / 256 / 256 / 256 % 256) as u8);
    bytes.push((id / 256 / 256 / 256 / 256 % 256) as u8);
    bytes.push((id / 256 / 256 / 256 % 256) as u8);
    bytes.push((id / 256 / 256 % 256) as u8);
    bytes.push((id / 256 % 256) as u8);
    bytes.push((id % 256) as u8);
    assert(bytes@ =~= be64(id));
    bytes
}

/// Two swap ids with the same eight bytes are the same id.
pub proof fn lemma_be64_injective(a: u64, b: u64)
    requires
        be64(a) == be64(b),
    ensures
        a == b,
{
    assert(be64(a)[0] == be64(b)[0]);
    assert(be64(a)[1] == be64(b)[1]);
    assert(be64(a)[2] == be64(b)[2]);
    assert(be64(a)[3] == be64(b)[3]);
    assert(be64(a)[4] == be64(b)[4]);
    assert(be64(a)[5] == be64(b)[5]);
    assert(be64(a)[6] == be64(b)[6]);
    assert(be64(a)[7] == be64(b)[7]);
}

/// A key that starts with a length-prefixed namespace can be read in one way only:
/// the namespace and what follows it are both determined.
pub proof fn lemma_length_prefixed_split(a: Seq<u8>, rest_a: Seq<u8>, b: Seq<u8>, rest_b: Seq<u8>)
    requires
        a.len() <= MAX_NAMESPACE_LEN,
        b.len() <= MAX_NAMESPACE_LEN,
        length_prefixed(a) + rest_a == length_prefixed(b) + rest_b,
    ensures
        a == b,
        rest_a == rest_b,
{
    let left = length_prefixed(a) + rest_a;
    let right = length_prefixed(b) + rest_b;
    assert(left[0] == (a.len() / 256) as u8);
    assert(left[1] == (a.len() % 256) as u8);
    assert(right[0] == (b.len() / 256) as u8);
    assert(right[1] == (b.len() % 256) as u8);
    assert(a.len() == b.len());
    let end = 2 + a.len() as int;
    assert(a =~= left.subrange(2, end));
    assert(b =~= right.subrange(2, end));
    assert(rest_a =~= left.subrange(end, left.len() as int));
    assert(rest_b =~= right.subrange(end, right.len() as int));
}

/// The three top-level namespaces are short, and of three different lengths.
pub proof fn lemma_namespace_lengths()
    ensures
        encode_utf8(ACCESS_CONTROL_KEY@).len() == 14,
        encode_utf8(REFUNDS_KEY@).len() == 7,
        encode_utf8(CONFIG_KEY@).len() == 6,
{
    reveal_strlit("access_control");
    reveal_strlit("refunds");
    reveal_strlit("config");
    is_ascii_chars_encode_utf8(ACCESS_CONTROL_KEY@);
    is_ascii_chars_encode_utf8(REFUNDS_KEY@);
    is_ascii_chars_encode_utf8(CONFIG_KEY@);
}

/// A role marker's key tells the account and the role: two markers with the same
/// key belong to the same account and the same role.
pub proof fn lemma_role_key_injective(
    addr_a: Seq<char>,
    role_a: AccessRole,
    addr_b: Seq<char>,
    role_b: AccessRole,
)
    requires
        valid_address(addr_a),
        valid_address(addr_b),
        role_key(addr_a, role_a) == role_key(addr_b, role_b),
    ensures
        addr_a == addr_b,
        role_a == role_b,
{
    lemma_namespace_lengths();
    let top = encode_utf8(ACCESS_CONTROL_KEY@);
    let (bytes_a, bytes_b) = (encode_utf8(addr_a), encode_utf8(addr_b));
    let (name_a, name_b) = (encode_utf8(role_a.name()), encode_utf8(role_b.name()));
    let rest_a = length_prefixed(bytes_a) + name_a;
    let rest_b = length_prefixed(bytes_b) + name_b;
    assert(role_key(addr_a, role_a) =~= length_prefixed(top) + rest_a);
    assert(role_key(addr_b, role_b) =~= length_prefixed(top) + rest_b);
    lemma_length_prefixed_split(top, rest_a, top, rest_b);
    lemma_length_prefixed_split(bytes_a, name_a, bytes_b, name_b);
    encode_utf8_decode_utf8(addr_a);
    encode_utf8_decode_utf8(addr_b);
    encode_utf8_decode_utf8(role_a.name());
    encode_utf8_decode_utf8(role_b.name());
    AccessRole::lemma_names_differ(role_a, role_b);
}

/// A refund marker's key tells the swap id.
pub proof fn lemma_refund_key_injective(a: u64, b: u64)
    requires
        refund_key(a) == refund_key(b),
    ensures
        a == b,
{
    lemma_namespace_lengths();
    let top = encode_utf8(REFUNDS_KEY@);
    lemma_length_prefixed_split(top, be64(a), top, be64(b));
    lemma_be64_injective(a, b);
}

/// Role markers, refund markers and the bridge's parameters live under different
/// keys, so writing one kind never disturbs another.
pub proof fn lemma_keys_disjoint(addr: Seq<char>, role: AccessRole, id: u64)
    ensures
        role_key(addr, role) != refund_key(id),
        role_key(addr, role) != config_key(),
        refund_key(id) != config_key(),
{
    lemma_namespace_lengths();
    let role_key = role_key(addr, role);
    let refund_key = refund_key(id);
    let config_key = config_key();
    assert(role_key[1] == 14u8);
    assert(refund_key[1] == 7u8);
    assert(config_key[1] == 6u8);
}

} // verus!
