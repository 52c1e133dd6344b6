//! The role registry: every participant ever registered, by the vault it is
//! registered with and its address.

use vstd::prelude::*;
use crate::address::Address;
use crate::error::MesosError;
use crate::exchange::{add_client, add_merchant, remove_role, AddRole, RemoveRole};
use crate::role::{Role, RoleEntry};
use crate::vault::Vault;

verus! {

/// The key of a record: the address of its vault, then that of its participant.
pub open spec fn key_of(entry: RoleEntry) -> (Address, Address) {
    (entry.vault, entry.address)
}

/// Every record is kept under its own key.
pub open spec fn keyed_by_owner(records: Map<(Address, Address), RoleEntry>) -> bool {
    forall|key: (Address, Address)|
        records.dom().contains(key) ==> key_of(#[trigger] records[key]) == key
}

/// The record that a registry holds for `address` with the vault at `vault`,
/// if it holds one. `None` means that the address was never registered with
/// that vault, which is not the same as registered and since removed.
pub open spec fn spec_lookup(
    records: Map<(Address, Address), RoleEntry>,
    vault: Address,
    address: Address,
) -> Option<RoleEntry> {
    if records.dom().contains((vault, address)) {
        Some(records[(vault, address)])
    } else {
        None
    }
}

/// The records of a registration request made by `caller` against `records`.
pub open spec fn add_role_request(
    records: Map<(Address, Address), RoleEntry>,
    vault_key: Address,
    vault: Vault,
    caller: Address,
    address: Address,
    bump: u8,
) -> AddRole {
    AddRole {
        vault_key,
        vault,
        role_entry: spec_lookup(records, vault_key, address),
        authority: caller,
        role_entry_bump: bump,
    }
}

/// Whether `caller` may remove `address` from the vault at `vault_key`, or the
/// first rule that the request breaks: the caller is the vault's authority, and
/// the address has a record with that vault.
pub open spec fn deactivate_verdict(
    records: Map<(Address, Address), RoleEntry>,
    vault_key: Address,
    vault: Vault,
    caller: Address,
    address: Address,
) -> Result<(), MesosError> {
    if caller != vault.authority {
        Err(MesosError::Unauthorized)
    } else if !records.dom().contains((vault_key, address)) {
        Err(MesosError::NotRegistered)
    } else {
        Ok(())
    }
}

/// The records after `caller` asked to register `address`: the new record is
/// added where the request is allowed, and nothing changes where it is not.
pub open spec fn records_after_register(
    records: Map<(Address, Address), RoleEntry>,
    vault_key: Address,
    vault: Vault,
    caller: Address,
    address: Address,
    role: Role,
    now: i64,
    bump: u8,
) -> Map<(Address, Address), RoleEntry> {
    if add_role_request(records, vault_key, vault, caller, address, bump).verdict() is Ok {
        records.insert(
            (vault_key, address),
            RoleEntry::registered(vault_key, address, role, now, bump),
        )
    } else {
        records
    }
}

/// The records after `caller` asked to remove `address`: the record is
/// deactivated where the request is allowed, and nothing changes where it is
/// not.
pub open spec fn records_after_deactivate(
    records: Map<(Address, Address), RoleEntry>,
    vault_key: Address,
    vault: Vault,
    caller: Address,
    address: Address,
) -> Map<(Address, Address), RoleEntry> {
    if deactivate_verdict(records, vault_key, vault, caller, address) is Ok {
        records.insert((vault_key, address), records[(vault_key, address)].deactivated())
    } else {
        records
    }
}

/// No two of the records share a key.
pub open spec fn distinct_keys(entries: Seq<RoleEntry>) -> bool {
    forall|i: int, j: int|
        0 <= i < j < entries.len() ==> key_of(#[trigger] entries[i]) != key_of(
            #[trigger] entries[j],
        )
}

/// The key is that of one of the records.
pub open spec fn holds_key(entries: Seq<RoleEntry>, key: (Address, Address)) -> bool {
    exists|i: int| 0 <= i < entries.len() && key_of(#[trigger] entries[i]) == key
}

/// The records by their keys.
pub open spec fn by_key(entries: Seq<RoleEntry>) -> Map<(Address, Address), RoleEntry> {
    Map::new(
        |key: (Address, Address)| holds_key(entries, key),
        |key: (Address, Address)|
            entries[choose|i: int| 0 <= i < entries.len() && key_of(#[trigger] entries[i]) == key],
    )
}

proof fn lemma_by_key_keyed(entries: Seq<RoleEntry>)
    ensures
        keyed_by_owner(by_key(entries)),
{
    assert forall|key: (Address, Address)| by_key(entries).dom().contains(key) implies key_of(
        #[trigger] by_key(entries)[key],
    ) == key by {
        let k = choose|k: int| 0 <= k < entries.len() && key_of(#[trigger] entries[k]) == key;
        assert(by_key(entries)[key] == entries[k]);
    }
}

proof fn lemma_by_key_index(entries: Seq<RoleEntry>, i: int)
    requires
        distinct_keys(entries),
        0 <= i < entries.len(),
    ensures
        by_key(entries).dom().contains(key_of(entries[i])),
        by_key(entries)[key_of(entries[i])] == entries[i],
{
    let key = key_of(entries[i]);
    assert(holds_key(entries, key));
    let k = choose|k: int| 0 <= k < entries.len() && key_of(#[trigger] entries[k]) == key;
    assert(k == i);
}

proof fn lemma_by_key_push(entries: Seq<RoleEntry>, entry: RoleEntry)
    requires
        distinct_keys(entries),
        !holds_key(entries, key_of(entry)),
    ensures
        distinct_keys(entries.push(entry)),
        by_key(entries.push(entry)) == by_key(entries).insert(key_of(entry), entry),
{
    let after = entries.push(entry);
    let target = by_key(entries).insert(key_of(entry), entry);
    assert forall|i: int, j: int| 0 <= i < j < after.len() implies key_of(#[trigger] after[i])
        != key_of(#[trigger] after[j]) by {
        if j == entries.len() {
            assert(after[i] == entries[i]);
        } else {
            assert(after[i] == entries[i]);
            assert(after[j] == entries[j]);
        }
    }
    assert forall|key: (Address, Address)|
        by_key(after).dom().contains(key) <==> #[trigger] target.dom().contains(key) by {
        if holds_key(after, key) {
            let k = choose|k: int| 0 <= k < after.len() && key_of(#[trigger] after[k]) == key;
            if k < entries.len() {
                assert(key_of(entries[k]) == key);
            }
        }
        if holds_key(entries, key) {
            let k = choose|k: int| 0 <= k < entries.len() && key_of(#[trigger] entries[k]) == key;
            assert(key_of(after[k]) == key);
        }
        if key == key_of(entry) {
            assert(key_of(after[entries.len() as int]) == key);
        }
    }
    assert forall|key: (Address, Address)| by_key(after).dom().contains(key) implies by_key(
        after,
    )[key] == target[key] by {
        let k = choose|k: int| 0 <= k < after.len() && key_of(#[trigger] after[k]) == key;
        lemma_by_key_index(after, k);
        if k < entries.len() {
            assert(after[k] == entries[k]);
            lemma_by_key_index(entries, k);
        }
    }
    assert(by_key(after) =~= target);
}

proof fn lemma_by_key_update(entries: Seq<RoleEntry>, i: int, entry: RoleEntry)
    requires
        distinct_keys(entries),
        0 <= i < entries.len(),
        key_of(entry) == key_of(entries[i]),
    ensures
        distinct_keys(entries.update(i, entry)),
        by_key(entries.update(i, entry)) == by_key(entries).insert(key_of(entry), entry),
{
    let after = entries.update(i, entry);
    let target = by_key(entries).insert(key_of(entry), entry);
    assert forall|a: int, b: int| 0 <= a < b < after.len() implies key_of(#[trigger] after[a])
        != key_of(#[trigger] after[b]) by {
        assert(key_of(after[a]) == key_of(entries[a]));
        assert(key_of(after[b]) == key_of(entries[b]));
    }
    assert forall|key: (Address, Address)|
        by_key(after).dom().contains(key) <==> #[trigger] target.dom().contains(key) by {
        if holds_key(after, key) {
            let k = choose|k: int| 0 <= k < after.len() && key_of(#[trigger] after[k]) == key;
            assert(key_of(entries[k]) == key);
        }
        if holds_key(entries, key) {
            let k = choose|k: int| 0 <= k < entries.len() && key_of(#[trigger] entries[k]) == key;
            assert(key_of(after[k]) == key);
        }
        if key == key_of(entry) {
            assert(key_of(after[i]) == key);
        }
    }
    assert forall|key: (Address, Address)| by_key(after).dom().contains(key) implies by_key(
        after,
    )[key] == target[key] by {
        let k = choose|k: int| 0 <= k < after.len() && key_of(#[trigger] after[k]) == key;
        lemma_by_key_index(after, k);
        if k != i {
            assert(after[k] == entries[k]);
            lemma_by_key_index(entries, k);
        }
    }
    assert(by_key(after) =~= target);
}

/// The role records of any number of vaults, each under the address of its
/// vault and that of its participant. A record is added once and never leaves;
/// removal only deactivates it.
pub struct RoleRegistry {
    entries: Vec<RoleEntry>,
}

impl View for RoleRegistry {
    type V = Map<(Address, Address), RoleEntry>;

    closed spec fn view(&self) -> Map<(Address, Address), RoleEntry> {
        by_key(self.entries@)
    }
}

impl RoleRegistry {
    #[verifier::type_invariant]
    spec fn one_record_per_key(self) -> bool {
        distinct_keys(self.entries@)
    }

    /// Each record of a registry stands under its own vault and address.
    pub proof fn lemma_keyed_by_owner(&self)
        ensures
            keyed_by_owner(self@),
    {
        lemma_by_key_keyed(self.entries@);
    }

    /// An empty registry.
    pub fn new() -> (registry: RoleRegistry)
        ensures
            registry@ == Map::<(Address, Address), RoleEntry>::empty(),
    {
        let registry = RoleRegistry { entries: Vec::new() };
        assert(registry@ =~= Map::<(Address, Address), RoleEntry>::empty());
        registry
    }

    fn position(&self, vault: &Address, address: &Address) -> (r: Option<usize>)
        ensures
            match r {
                Some(i) => i < self.entries@.len() && key_of(self.entries@[i as int]) == (
                    *vault,
                    *address,
                ),
                None => !holds_key(self.entries@, (*vault, *address)),
            },
    {
        let mut i: usize = 0;
        while i < self.entries.len()
            invariant
                i <= self.entries@.len(),
                forall|k: int|
                    0 <= k < i ==> key_of(#[trigger] self.entries@[k]) != (*vault, *address),
            decreases self.entries@.len() - i,
        {
            if self.entries[i].vault == *vault && self.entries[i].address == *address {
                return Some(i);
            }
            i += 1;
        }
        None
    }

    /// Finds the record of `address` with the vault at `vault`.
    pub fn lookup(&self, vault: &Address, address: &Address) -> (r: Option<RoleEntry>)
        ensures
            r == spec_lookup(self@, *vault, *address),
            r matches Some(entry) ==> entry.belongs_to(*vault, *address),
    {
        proof {
            use_type_invariant(self);
        }
        match self.position(vault, address) {
            Some(i) => {
                proof {
                    lemma_by_key_index(self.entries@, i as int);
                }
                Some(self.entries[i])
            },
            None => None,
        }
    }

    /// Registers `address` with `role` with the vault at `vault_key`, at time
    /// `now`, as `add_client` and `add_merchant` decide on the record found for
    /// the address, and returns the new record. `vault` is the vault's record.
    pub fn register(
        &mut self,
        vault_key: &Address,
        vault: &Vault,
        caller: &Address,
        address: Address,
        role: Role,
        now: i64,
        bump: u8,
    ) -> (r: Result<RoleEntry, MesosError>)
        ensures
            match r {
                Ok(entry) => {
                    &&& add_role_request(
                        old(self)@,
                        *vault_key,
                        *vault,
                        *caller,
                        address,
                        bump,
                    ).verdict() is Ok
                    &&& entry == RoleEntry::registered(*vault_key, address, role, now, bump)
                    &&& final(self)@ == old(self)@.insert((*vault_key, address), entry)
                },
                Err(e) => {
                    &&& add_role_request(
                        old(self)@,
                        *vault_key,
                        *vault,
                        *caller,
                        address,
                        bump,
                    ).verdict() == Err::<(), MesosError>(e)
                    &&& final(self)@ == old(self)@
                },
            },
            final(self)@ == records_after_register(
                old(self)@,
                *vault_key,
                *vault,
                *caller,
                address,
                role,
                now,
                bump,
            ),
            r is Ok <==> *caller == vault.authority && !old(self)@.dom().contains(
                (*vault_key, address),
            ),
            *caller != vault.authority ==> r == Err::<RoleEntry, MesosError>(
                MesosError::Unauthorized,
            ),
    {
        proof {
            use_type_invariant(&*self);
        }
        let mut ctx = AddRole {
            vault_key: *vault_key,
            vault: *vault,
            role_entry: self.lookup(vault_key, &address),
            authority: *caller,
            role_entry_bump: bump,
        };
        let added = match role {
            Role::Client => add_client(&mut ctx, address, now),
            Role::Merchant => add_merchant(&mut ctx, address, now),
        };
        match added {
            Ok(()) => {},
            Err(e) => { return Err(e); },
        }
        let entry = RoleEntry {
            vault: *vault_key,
            address,
            role,
            is_active: true,
            added_at: now,
            bump,
        };
        proof {
            lemma_by_key_push(self.entries@, entry);
        }
        let mut entries: Vec<RoleEntry> = Vec::new();
        core::mem::swap(&mut self.entries, &mut entries);
        entries.push(entry);
        core::mem::swap(&mut self.entries, &mut entries);
        Ok(entry)
    }

    /// Deactivates the record of `address` with the vault at `vault_key`, as
    /// `remove_role` decides. The record stays in the registry. `vault` is the
    /// vault's record.
    pub fn deactivate(
        &mut self,
        vault_key: &Address,
        vault: &Vault,
        caller: &Address,
        address: &Address,
    ) -> (r: Result<(), MesosError>)
        ensures
            r == deactivate_verdict(old(self)@, *vault_key, *vault, *caller, *address),
            r is Ok ==> final(self)@ == old(self)@.insert(
                (*vault_key, *address),
                old(self)@[(*vault_key, *address)].deactivated(),
            ),
            r is Err ==> final(self)@ == old(self)@,
            final(self)@ == records_after_deactivate(
                old(self)@,
                *vault_key,
                *vault,
                *caller,
                *address,
            ),
    {
        proof {
            use_type_invariant(&*self);
        }
        if *caller != vault.authority {
            return Err(MesosError::Unauthorized);
        }
        let i: usize = match self.position(vault_key, address) {
            Some(i) => i,
            None => { return Err(MesosError::NotRegistered); },
        };
        let mut ctx = RemoveRole {
            vault_key: *vault_key,
            vault: *vault,
            role_entry: self.entries[i],
            authority: *caller,
        };
        match remove_role(&mut ctx) {
            Ok(()) => {},
            Err(e) => { return Err(e); },
        }
        proof {
            lemma_by_key_index(self.entries@, i as int);
            lemma_by_key_update(self.entries@, i as int, ctx.role_entry);
        }
        let mut entries: Vec<RoleEntry> = Vec::new();
        core::mem::swap(&mut self.entries, &mut entries);
        entries.set(i, ctx.role_entry);
        core::mem::swap(&mut self.entries, &mut entries);
        Ok(())
    }
}

} // verus!
