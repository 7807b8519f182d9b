//! Who may do what: four roles, each held by any number of accounts, kept as
//! markers in the host's store.
use crate::error::ContractError;
use crate::keys::{marker, role_key, valid_address, ACCESS_CONTROL_KEY};
use crate::storage::{as_read, entries, entries_read, nested_get, nested_remove, nested_set};
use crate::text::same_text;
use cosmwasm_std::{Deps, DepsMut};
use vstd::prelude::*;
use vstd::string::*;
use vstd::utf8::*;

verus! {

// The names of the roles, as requests spell them.
pub const ADMIN_ROLE: &'static str = "ADMIN_ROLE";

pub const APPROVER_ROLE: &'static str = "APPROVER_ROLE";

pub const MONITOR_ROLE: &'static str = "MONITOR_ROLE";

pub const RELAYER_ROLE: &'static str = "RELAYER_ROLE";

/// A role that an account can hold.
#[derive(Debug, Clone, Copy, PartialEq, Eq, Structural)]
pub enum AccessRole {
    /// Governs the bridge: its treasury, its parameters, and who holds which role.
    Admin,
    /// Submits what happened on the other chain: reverse swaps and refunds.
    Relayer,
    /// May set the reverse aggregated allowance, up to a cap that an admin sets.
    Approver,
    /// May pause an interface, and cannot lift a pause.
    Monitor,
}

impl AccessRole {
    /// The role's name, as requests spell it and as the store's keys hold it.
    pub open spec fn name(self) -> Seq<char> {
        match self {
            AccessRole::Admin => ADMIN_ROLE@,
            AccessRole::Relayer => RELAYER_ROLE@,
            AccessRole::Approver => APPROVER_ROLE@,
            AccessRole::Monitor => MONITOR_ROLE@,
        }
    }

    /// The role that a text names, if it names one.
    pub open spec fn named(text: Seq<char>) -> Option<AccessRole> {
        if text == ADMIN_ROLE@ {
            Some(AccessRole::Admin)
        } else if text == RELAYER_ROLE@ {
            Some(AccessRole::Relayer)
        } else if text == APPROVER_ROLE@ {
            Some(AccessRole::Approver)
        } else if text == MONITOR_ROLE@ {
            Some(AccessRole::Monitor)
        } else {
            None
        }
    }

    /// Roles with the same name are the same role.
    pub proof fn lemma_names_differ(a: AccessRole, b: AccessRole)
        requires
            a.name() == b.name(),
        ensures
            a == b,
    {
        reveal_strlit("ADMIN_ROLE");
        reveal_strlit("RELAYER_ROLE");
        reveal_strlit("APPROVER_ROLE");
        reveal_strlit("MONITOR_ROLE");
        assert(ADMIN_ROLE@[0] == 'A' && ADMIN_ROLE@[1] == 'D');
        assert(RELAYER_ROLE@[0] == 'R');
        assert(APPROVER_ROLE@[0] == 'A' && APPROVER_ROLE@[1] == 'P');
        assert(MONITOR_ROLE@[0] == 'M');
    }

    /// Every role is the one that its own name names.
    pub proof fn lemma_named_by_its_name(role: AccessRole)
        ensures
            AccessRole::named(role.name()) == Some(role),
    {
        if AccessRole::named(role.name()) is Some {
            AccessRole::lemma_names_differ(AccessRole::named(role.name())->Some_0, role);
        }
    }

    /// The role's name.
    pub fn value(&self) -> (name: &'static str)
        ensures
            name@ == self.name(),
    {
        match self {
            AccessRole::Admin => ADMIN_ROLE,
            AccessRole::Relayer => RELAYER_ROLE,
            AccessRole::Approver => APPROVER_ROLE,
            AccessRole::Monitor => MONITOR_ROLE,
        }
    }

    /// The role's name in UTF-8, as the store's keys hold it.
    pub fn as_bytes(&self) -> (bytes: &'static [u8])
        ensures
            bytes@ == encode_utf8(self.name()),
    {
        self.value().as_bytes()
    }

    /// Reads a role's name. Any other text is turned down with `UnknownRole`.
    pub fn from_str(s: &str) -> (role: Result<AccessRole, ContractError>)
        ensures
            role == match AccessRole::named(s@) {
                Some(named) => Ok::<AccessRole, ContractError>(named),
                None => Err(ContractError::UnknownRole),
            },
    {
        if same_text(s, ADMIN_ROLE) {
            Ok(AccessRole::Admin)
        } else if same_text(s, RELAYER_ROLE) {
            Ok(AccessRole::Relayer)
        } else if same_text(s, APPROVER_ROLE) {
            Ok(AccessRole::Approver)
        } else if same_text(s, MONITOR_ROLE) {
            Ok(AccessRole::Monitor)
        } else {
            Err(ContractError::UnknownRole)
        }
    }
}

/// Whether the store says that `addr` holds `role`: it does where the role's marker
/// is stored for that account. A missing entry means no.
pub open spec fn has_role(store: Map<Seq<u8>, Seq<u8>>, addr: Seq<char>, role: AccessRole) -> bool {
    store.contains_key(role_key(addr, role)) && store[role_key(addr, role)] == marker()
}

/// The store after `addr` was given `role`.
pub open spec fn with_role(store: Map<Seq<u8>, Seq<u8>>, addr: Seq<char>, role: AccessRole) -> Map<
    Seq<u8>,
    Seq<u8>,
> {
    store.insert(role_key(addr, role), marker())
}

/// The store after `role` was taken from `addr`.
pub open spec fn without_role(
    store: Map<Seq<u8>, Seq<u8>>,
    addr: Seq<char>,
    role: AccessRole,
) -> Map<Seq<u8>, Seq<u8>> {
    store.remove(role_key(addr, role))
}

/// Looks up whether an account holds a role.
pub fn ac_have_role(deps: Deps, addr: &str, role: &AccessRole) -> (held: Result<
    bool,
    ContractError,
>)
    requires
        valid_address(addr@),
    ensures
        held == Ok::<bool, ContractError>(has_role(entries_read(deps), addr@, *role)),
{
    proof {
        crate::keys::lemma_namespace_lengths();
    }
    let stored = nested_get(deps, ACCESS_CONTROL_KEY.as_bytes(), addr.as_bytes(), role.as_bytes());
    match stored {
        Some(value) => {
            let held = value.len() == 1 && value[0] == 1;
            assert(held == (value@ =~= marker()));
            Ok(held)
        },
        None => Ok(false),
    }
}

/// Gives an account a role. An account that holds the role already is turned down
/// with `AlreadyHasRole`, and the store stays as it is.
pub fn ac_add_role(deps: &mut DepsMut, addr: &str, role: &AccessRole) -> (added: Result<
    bool,
    ContractError,
>)
    requires
        valid_address(addr@),
    ensures
        has_role(entries(*old(deps)), addr@, *role) ==> added == Err::<bool, ContractError>(
            ContractError::AlreadyHasRole,
        ) && entries(*final(deps)) == entries(*old(deps)),
        !has_role(entries(*old(deps)), addr@, *role) ==> added == Ok::<bool, ContractError>(true)
            && entries(*final(deps)) == with_role(entries(*old(deps)), addr@, *role),
{
    proof {
        crate::keys::lemma_namespace_lengths();
    }
    let already_have_role = match ac_have_role(as_read(deps), addr, role) {
        Ok(held) => held,
        Err(_) => false,
    };
    if already_have_role {
        return Err(ContractError::AlreadyHasRole);
    }
    let mut value: Vec<u8> = Vec::new();
    value.push(1);
    assert(value@ =~= marker());
    nested_set(
        deps,
        ACCESS_CONTROL_KEY.as_bytes(),
        addr.as_bytes(),
        role.as_bytes(),
        value.as_slice(),
    );
    Ok(true)
}

/// Takes a role from an account. An account that does not hold the role is turned
/// down with `DoesntHaveRole`, and the store stays as it is.
pub fn ac_revoke_role(deps: &mut DepsMut, addr: &str, role: &AccessRole) -> (revoked: Result<
    bool,
    ContractError,
>)
    requires
        valid_address(addr@),
    ensures
        !has_role(entries(*old(deps)), addr@, *role) ==> revoked == Err::<bool, ContractError>(
            ContractError::DoesntHaveRole,
        ) && entries(*final(deps)) == entries(*old(deps)),
        has_role(entries(*old(deps)), addr@, *role) ==> revoked == Ok::<bool, ContractError>(true)
            && entries(*final(deps)) == without_role(entries(*old(deps)), addr@, *role),
{
    proof {
        crate::keys::lemma_namespace_lengths();
    }
    let already_have_role = match ac_have_role(as_read(deps), addr, role) {
        Ok(held) => held,
        Err(_) => false,
    };
    if !already_have_role {
        return Err(ContractError::DoesntHaveRole);
    }
    nested_remove(deps, ACCESS_CONTROL_KEY.as_bytes(), addr.as_bytes(), role.as_bytes());
    Ok(true)
}

} // verus!
