//! Roles and the record that binds one to a participant.

use vstd::prelude::*;
use crate::address::Address;

verus! {

/// What a registered participant may do.
#[derive(Clone, Copy, Debug, PartialEq, Eq, Structural, Hash)]
pub enum Role {
    /// May send vouchers, and only to merchants.
    Client,
    /// May receive vouchers from clients and redeem them.
    Merchant,
}

/// The registration of one participant with one vault.
///
/// A record is never deleted and never changes its vault, address, role or
/// registration time. Removal clears `is_active` and nothing sets it again.
#[derive(Clone, Copy, Debug, Hash)]
pub struct RoleEntry {
    /// The address of the vault that the participant is registered with.
    pub vault: Address,
    /// The participant.
    pub address: Address,
    pub role: Role,
    pub is_active: bool,
    pub added_at: i64,
    pub bump: u8,
}

impl RoleEntry {
    /// The record as it stands right after registration.
    pub open spec fn registered(
        vault: Address,
        address: Address,
        role: Role,
        added_at: i64,
        bump: u8,
    ) -> RoleEntry {
        RoleEntry { vault, address, role, is_active: true, added_at, bump }
    }

    /// The record after removal: inactive, all else kept.
    pub open spec fn deactivated(self) -> RoleEntry {
        RoleEntry { is_active: false, ..self }
    }

    /// The record is that of `identity` with the vault at `vault`.
    pub open spec fn belongs_to(self, vault: Address, identity: Address) -> bool {
        self.vault == vault && self.address == identity
    }

    /// The record registers `identity` with the vault at `vault`: it is that
    /// participant's record with that vault, and it is active. A record of
    /// another participant or of another vault registers nobody here.
    pub open spec fn spec_registers(self, vault: Address, identity: Address) -> bool {
        self.belongs_to(vault, identity) && self.is_active
    }

    /// An active record with the client role.
    pub open spec fn is_active_client(self) -> bool {
        self.is_active && self.role == Role::Client
    }

    /// An active record with the merchant role.
    pub open spec fn is_active_merchant(self) -> bool {
        self.is_active && self.role == Role::Merchant
    }

    /// Tells whether the record registers `identity` with the vault at `vault`.
    pub fn registers(&self, vault: &Address, identity: &Address) -> (r: bool)
        ensures
            r == self.spec_registers(*vault, *identity),
    {
        self.vault == *vault && self.address == *identity && self.is_active
    }
}

impl PartialEq for RoleEntry {
    fn eq(&self, other: &RoleEntry) -> (r: bool) {
        self.vault == other.vault && self.address == other.address && self.role == other.role
            && self.is_active == other.is_active && self.added_at == other.added_at && self.bump
            == other.bump
    }
}

impl Eq for RoleEntry {}

impl vstd::std_specs::cmp::PartialEqSpecImpl for RoleEntry {
    open spec fn obeys_eq_spec() -> bool {
        true
    }

    open spec fn eq_spec(&self, other: &RoleEntry) -> bool {
        *self == *other
    }
}

} // verus!
