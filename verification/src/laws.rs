//! What holds of the ledger across operations, proved over the same
//! descriptions that the operations' contracts use.

use vstd::prelude::*;
use crate::address::Address;
use crate::error::MesosError;
use crate::exchange::{AddRole, DepositUsdc, RemoveRole, Settle, TransferPln};
use crate::gate::{party_settlement_verdict, party_transfer_verdict, transfer_verdict};
use crate::registry::{
    key_of, keyed_by_owner, records_after_deactivate, records_after_register, spec_lookup,
};
use crate::role::{Role, RoleEntry};
use crate::vault::Vault;

verus! {

/// One request against a vault's counters.
pub enum LedgerStep {
    /// `deposit_usdc` with these records, the vault being the one at hand.
    Deposit { deposit: DepositUsdc, usdc_amount: u64 },
    /// `settle` with these records, the vault being the one at hand.
    Settle { redemption: Settle, voucher_amount: u64 },
}

/// The vault after one request: as the operation leaves it, which is unchanged
/// where the request fails.
pub open spec fn vault_after(vault: Vault, step: LedgerStep) -> Vault {
    match step {
        LedgerStep::Deposit { deposit, usdc_amount } => {
            let ctx = DepositUsdc { vault, ..deposit };
            match ctx.verdict(usdc_amount) {
                Ok(voucher_amount) => ctx.deposited(usdc_amount, voucher_amount).vault,
                Err(_) => vault,
            }
        },
        LedgerStep::Settle { redemption, voucher_amount } => {
            let ctx = Settle { vault, ..redemption };
            match ctx.verdict(voucher_amount) {
                Ok(usdc_amount) => ctx.settled(voucher_amount, usdc_amount).vault,
                Err(_) => vault,
            }
        },
    }
}

/// The vault after a history of requests, the earliest first.
pub open spec fn vault_after_all(vault: Vault, steps: Seq<LedgerStep>) -> Vault
    decreases steps.len(),
{
    if steps.len() == 0 {
        vault
    } else {
        vault_after(vault_after_all(vault, steps.drop_last()), steps.last())
    }
}

/// Every settlement of the history redeems a multiple of four vouchers, so
/// that none forfeits a remainder.
pub open spec fn settles_whole_units(steps: Seq<LedgerStep>) -> bool {
    forall|i: int|
        0 <= i < steps.len() ==> (#[trigger] steps[i] matches LedgerStep::Settle {
            voucher_amount,
            ..
        } ==> voucher_amount % 4 == 0)
}

/// Whatever is asked of a vault, its vouchers stay covered: a vault that holds
/// at least one reserve unit for every four vouchers outstanding still does
/// after any history of deposits and settlements, and its identities are the
/// ones it was created with.
pub proof fn lemma_history_keeps_vault_backed(vault: Vault, steps: Seq<LedgerStep>)
    requires
        vault.is_backed(),
    ensures
        vault_after_all(vault, steps).is_backed(),
        vault_after_all(vault, steps).surplus() >= vault.surplus(),
        vault_after_all(vault, steps).authority == vault.authority,
        vault_after_all(vault, steps).usdc_mint == vault.usdc_mint,
        vault_after_all(vault, steps).voucher_mint == vault.voucher_mint,
    decreases steps.len(),
{
    if steps.len() > 0 {
        lemma_history_keeps_vault_backed(vault, steps.drop_last());
    }
}

/// A vault whose vouchers number exactly four times its reserve keeps that
/// balance through any history of deposits and of settlements of whole reserve
/// units. (A settlement of an amount that is no multiple of four burns the
/// remainder without paying for it, and leaves the vault with more reserve than
/// its vouchers are worth.)
pub proof fn lemma_history_keeps_vault_balanced(vault: Vault, steps: Seq<LedgerStep>)
    requires
        vault.is_balanced(),
        settles_whole_units(steps),
    ensures
        vault_after_all(vault, steps).is_balanced(),
    decreases steps.len(),
{
    if steps.len() > 0 {
        let earlier = steps.drop_last();
        assert forall|i: int| 0 <= i < earlier.len() implies (#[trigger] earlier[i] matches LedgerStep::Settle {
            voucher_amount,
            ..
        } ==> voucher_amount % 4 == 0) by {
            assert(earlier[i] == steps[i]);
        }
        lemma_history_keeps_vault_balanced(vault, earlier);
        assert(steps.last() == steps[steps.len() - 1]);
    }
}

/// Every state that a new vault can reach through deposits and settlements of
/// whole reserve units is balanced.
pub proof fn lemma_new_vault_stays_balanced(
    authority: Address,
    usdc_mint: Address,
    voucher_mint: Address,
    bump: u8,
    voucher_mint_bump: u8,
    steps: Seq<LedgerStep>,
)
    requires
        settles_whole_units(steps),
    ensures
        vault_after_all(
            Vault::opened(authority, usdc_mint, voucher_mint, bump, voucher_mint_bump),
            steps,
        ).is_balanced(),
{
    lemma_history_keeps_vault_balanced(
        Vault::opened(authority, usdc_mint, voucher_mint, bump, voucher_mint_bump),
        steps,
    );
}

/// Depositing `usdc_amount` and at once redeeming all the vouchers minted for
/// it pays back exactly `usdc_amount` and leaves the counters where they were.
pub proof fn lemma_deposit_then_settle_round_trip(
    deposit: DepositUsdc,
    redemption: Settle,
    usdc_amount: u64,
)
    requires
        deposit.verdict(usdc_amount) is Ok,
        redemption.merchant_role.spec_registers(redemption.vault_key, redemption.merchant),
        redemption.merchant_role.role == Role::Merchant,
        redemption.vault == deposit.deposited(
            usdc_amount,
            deposit.verdict(usdc_amount)->Ok_0,
        ).vault,
    ensures
        deposit.verdict(usdc_amount) == Ok::<u64, MesosError>((usdc_amount * 4) as u64),
        redemption.verdict((usdc_amount * 4) as u64) == Ok::<u64, MesosError>(usdc_amount),
        redemption.settled((usdc_amount * 4) as u64, usdc_amount).vault == deposit.vault,
{
}

/// A settlement pays the whole quotient of the voucher amount by four and
/// burns the whole amount: the remainder is destroyed without payment and
/// stays with the vault as surplus.
pub proof fn lemma_settlement_forfeits_remainder(ctx: Settle, voucher_amount: u64)
    requires
        ctx.verdict(voucher_amount) is Ok,
    ensures
        ({
            let usdc_amount = ctx.verdict(voucher_amount)->Ok_0;
            let receipt = ctx.receipt(voucher_amount, usdc_amount);
            let after = ctx.settled(voucher_amount, usdc_amount).vault;
            &&& usdc_amount == voucher_amount / 4
            &&& usdc_amount * 4 + voucher_amount % 4 == voucher_amount
            &&& receipt.usdc_amount == usdc_amount
            &&& receipt.voucher_burn.spec_amount() == voucher_amount
            &&& receipt.usdc_transfer.spec_amount() == usdc_amount
            &&& after.total_voucher_minted == ctx.vault.total_voucher_minted - voucher_amount
            &&& after.total_usdc_deposited == ctx.vault.total_usdc_deposited - voucher_amount / 4
            &&& after.surplus() == ctx.vault.surplus() + voucher_amount % 4
        }),
{
}

/// An inactive sender is refused as not registered whatever its role and
/// whoever the recipient: the status is the first thing looked at.
pub proof fn lemma_inactive_sender_reported_first(
    vault: Address,
    sender: Address,
    sender_role: RoleEntry,
    recipient: Address,
    recipient_role: RoleEntry,
)
    requires
        !sender_role.is_active,
    ensures
        transfer_verdict(sender_role, recipient_role) == Err::<(), MesosError>(
            MesosError::SenderNotRegistered,
        ),
        party_transfer_verdict(vault, sender, sender_role, recipient, recipient_role) == Err::<
            (),
            MesosError,
        >(MesosError::SenderNotRegistered),
{
}

/// A role record serves nobody but its own participant in its own vault: with
/// a record of another participant or of another vault, a sender and a
/// recipient are refused as not registered, and so is a redeeming party,
/// however active the record and whatever role it bears.
pub proof fn lemma_borrowed_record_gives_no_standing(
    vault: Address,
    party: Address,
    borrowed: RoleEntry,
    other: Address,
    other_role: RoleEntry,
)
    requires
        !borrowed.belongs_to(vault, party),
    ensures
        party_transfer_verdict(vault, party, borrowed, other, other_role) == Err::<(), MesosError>(
            MesosError::SenderNotRegistered,
        ),
        other_role.spec_registers(vault, other) && other_role.role == Role::Client
            ==> party_transfer_verdict(vault, other, other_role, party, borrowed) == Err::<
            (),
            MesosError,
        >(MesosError::RecipientNotRegistered),
        party_settlement_verdict(vault, party, borrowed) == Err::<(), MesosError>(
            MesosError::NotRegistered,
        ),
{
}

/// Nobody but the vault's authority registers a participant: from any other
/// caller the request is refused as unauthorized, whether or not the
/// participant has a record, and the records stay as they are.
pub proof fn lemma_only_authority_registers(
    records: Map<(Address, Address), RoleEntry>,
    vault_key: Address,
    vault: Vault,
    caller: Address,
    address: Address,
    role: Role,
    now: i64,
    bump: u8,
)
    requires
        caller != vault.authority,
    ensures
        (AddRole {
            vault_key,
            vault,
            role_entry: spec_lookup(records, vault_key, address),
            authority: caller,
            role_entry_bump: bump,
        }).verdict() == Err::<(), MesosError>(MesosError::Unauthorized),
        records_after_register(records, vault_key, vault, caller, address, role, now, bump)
            == records,
{
}

/// Once a participant's record is removed, no request that names the
/// participant moves vouchers: whichever record the request brings for it, the
/// removed one or somebody else's, the participant is refused as not
/// registered, as sender and as recipient of a registered client. The removed
/// record is still there, unchanged but for its status.
pub proof fn lemma_removed_party_cannot_transfer(
    removal: RemoveRole,
    transfer: TransferPln,
    amount: u64,
)
    requires
        removal.verdict() is Ok,
        amount > 0,
        transfer.vault_key == removal.vault_key,
    ensures
        ({
            let removed = removal.role_entry.deactivated();
            let party = removal.role_entry.address;
            &&& removed.vault == removal.role_entry.vault
            &&& removed.address == removal.role_entry.address
            &&& removed.role == removal.role_entry.role
            &&& removed.added_at == removal.role_entry.added_at
            &&& transfer.sender == party && (transfer.sender_role == removed
                || !transfer.sender_role.belongs_to(transfer.vault_key, party))
                ==> transfer.verdict(amount) == Err::<(), MesosError>(
                MesosError::SenderNotRegistered,
            )
            &&& transfer.recipient == party && (transfer.recipient_role == removed
                || !transfer.recipient_role.belongs_to(transfer.vault_key, party))
                && transfer.sender_role.spec_registers(transfer.vault_key, transfer.sender)
                && transfer.sender_role.role == Role::Client ==> transfer.verdict(amount) == Err::<
                (),
                MesosError,
            >(MesosError::RecipientNotRegistered)
        }),
{
}

/// One request against the role records.
pub enum RegistryStep {
    /// A registration, as `RoleRegistry::register` takes it.
    Register {
        vault_key: Address,
        vault: Vault,
        caller: Address,
        address: Address,
        role: Role,
        now: i64,
        bump: u8,
    },
    /// A removal, as `RoleRegistry::deactivate` takes it.
    Deactivate { vault_key: Address, vault: Vault, caller: Address, address: Address },
}

/// The records after one request.
pub open spec fn records_after(
    records: Map<(Address, Address), RoleEntry>,
    step: RegistryStep,
) -> Map<(Address, Address), RoleEntry> {
    match step {
        RegistryStep::Register {
            vault_key,
            vault,
            caller,
            address,
            role,
            now,
            bump,
        } => records_after_register(records, vault_key, vault, caller, address, role, now, bump),
        RegistryStep::Deactivate { vault_key, vault, caller, address } => records_after_deactivate(
            records,
            vault_key,
            vault,
            caller,
            address,
        ),
    }
}

/// The records after a history of requests, the earliest first.
pub open spec fn records_after_all(
    records: Map<(Address, Address), RoleEntry>,
    steps: Seq<RegistryStep>,
) -> Map<(Address, Address), RoleEntry>
    decreases steps.len(),
{
    if steps.len() == 0 {
        records
    } else {
        records_after(records_after_all(records, steps.drop_last()), steps.last())
    }
}

/// Records that stand under their own vault and address still do after any
/// history of requests.
pub proof fn lemma_history_keeps_records_keyed(
    records: Map<(Address, Address), RoleEntry>,
    steps: Seq<RegistryStep>,
)
    requires
        keyed_by_owner(records),
    ensures
        keyed_by_owner(records_after_all(records, steps)),
    decreases steps.len(),
{
    if steps.len() > 0 {
        lemma_history_keeps_records_keyed(records, steps.drop_last());
    }
}

/// A record, once made, is never deleted and never changes its vault, address,
/// role or registration time, and no request turns an inactive record active
/// again, whoever makes it.
pub proof fn lemma_records_are_permanent(
    records: Map<(Address, Address), RoleEntry>,
    steps: Seq<RegistryStep>,
    key: (Address, Address),
)
    requires
        records.dom().contains(key),
    ensures
        ({
            let after = records_after_all(records, steps);
            &&& after.dom().contains(key)
            &&& after[key].vault == records[key].vault
            &&& after[key].address == records[key].address
            &&& after[key].role == records[key].role
            &&& after[key].added_at == records[key].added_at
            &&& after[key].bump == records[key].bump
            &&& after[key].is_active ==> records[key].is_active
        }),
    decreases steps.len(),
{
    if steps.len() > 0 {
        lemma_records_are_permanent(records, steps.drop_last(), key);
    }
}

/// Removal lasts: after the authority of a vault has removed a participant,
/// whatever is asked of the registry next, every request that names the
/// participant is refused as not registered, whichever of the registry's
/// records it brings for the participant: a transfer that names it as sender, a
/// transfer that names it as recipient of a registered client, and a
/// redemption. The participant's record is still in the registry.
pub proof fn lemma_removal_is_permanent(
    records: Map<(Address, Address), RoleEntry>,
    vault_key: Address,
    vault: Vault,
    address: Address,
    steps: Seq<RegistryStep>,
    brought_key: (Address, Address),
    other: Address,
    other_role: RoleEntry,
)
    requires
        keyed_by_owner(records),
        records.dom().contains((vault_key, address)),
        records_after_all(
            records_after_deactivate(records, vault_key, vault, vault.authority, address),
            steps,
        ).dom().contains(brought_key),
    ensures
        ({
            let removed = records_after_deactivate(
                records,
                vault_key,
                vault,
                vault.authority,
                address,
            );
            let later = records_after_all(removed, steps);
            let brought = later[brought_key];
            &&& later.dom().contains((vault_key, address))
            &&& !later[(vault_key, address)].is_active
            &&& party_transfer_verdict(vault_key, address, brought, other, other_role) == Err::<
                (),
                MesosError,
            >(MesosError::SenderNotRegistered)
            &&& other_role.spec_registers(vault_key, other) && other_role.role == Role::Client
                ==> party_transfer_verdict(vault_key, other, other_role, address, brought) == Err::<
                (),
                MesosError,
            >(MesosError::RecipientNotRegistered)
            &&& party_settlement_verdict(vault_key, address, brought) == Err::<(), MesosError>(
                MesosError::NotRegistered,
            )
        }),
{
    let removed = records_after_deactivate(records, vault_key, vault, vault.authority, address);
    lemma_records_are_permanent(removed, steps, (vault_key, address));
    lemma_history_keeps_records_keyed(removed, steps);
    let later = records_after_all(removed, steps);
    assert(key_of(later[brought_key]) == brought_key);
}

} // verus!
