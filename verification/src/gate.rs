//! The authorization gate: who may send vouchers to whom, and who may redeem.

use vstd::prelude::*;
use crate::address::Address;
use crate::error::MesosError;
use crate::role::{Role, RoleEntry};

verus! {

/// Whether vouchers may move between the participants of two role records.
/// The conditions are taken in this order and the first one broken is
/// reported.
pub open spec fn transfer_verdict(sender_role: RoleEntry, recipient_role: RoleEntry) -> Result<
    (),
    MesosError,
> {
    if !sender_role.is_active {
        Err(MesosError::SenderNotRegistered)
    } else if sender_role.role != Role::Client {
        Err(MesosError::OnlyClientCanSend)
    } else if !recipient_role.is_active {
        Err(MesosError::RecipientNotRegistered)
    } else if recipient_role.role != Role::Merchant {
        Err(MesosError::OnlyMerchantCanReceive)
    } else {
        Ok(())
    }
}

/// Whether the participant of a role record may redeem: the status is looked
/// at before the role.
pub open spec fn settlement_verdict(merchant_role: RoleEntry) -> Result<(), MesosError> {
    if !merchant_role.is_active {
        Err(MesosError::NotRegistered)
    } else if merchant_role.role != Role::Merchant {
        Err(MesosError::OnlyMerchantCanSettle)
    } else {
        Ok(())
    }
}

/// Decides on the two role records alone whether vouchers may move from the
/// participant of `sender_role` to the participant of `recipient_role`: only
/// from an active client to an active merchant. There is no bypass, neither for
/// a transfer to oneself nor for the vault's authority. Whether the records are
/// those of the parties of a request is for `authorize_transfer_between`.
pub fn authorize_transfer(sender_role: &RoleEntry, recipient_role: &RoleEntry) -> (r: Result<
    (),
    MesosError,
>)
    ensures
        r == transfer_verdict(*sender_role, *recipient_role),
        r is Ok <==> sender_role.is_active_client() && recipient_role.is_active_merchant(),
        r == Err::<(), MesosError>(MesosError::SenderNotRegistered) <==> !sender_role.is_active,
        r == Err::<(), MesosError>(MesosError::OnlyClientCanSend) <==> sender_role.is_active
            && sender_role.role != Role::Client,
        r == Err::<(), MesosError>(MesosError::RecipientNotRegistered)
            <==> sender_role.is_active_client() && !recipient_role.is_active,
        r == Err::<(), MesosError>(MesosError::OnlyMerchantCanReceive)
            <==> sender_role.is_active_client() && recipient_role.is_active
            && recipient_role.role != Role::Merchant,
{
    if !sender_role.is_active {
        return Err(MesosError::SenderNotRegistered);
    }
    match sender_role.role {
        Role::Client => {},
        Role::Merchant => { return Err(MesosError::OnlyClientCanSend); },
    }
    if !recipient_role.is_active {
        return Err(MesosError::RecipientNotRegistered);
    }
    match recipient_role.role {
        Role::Merchant => Ok(()),
        Role::Client => Err(MesosError::OnlyMerchantCanReceive),
    }
}

/// Decides on the role record alone whether its participant may redeem
/// vouchers: only an active merchant may. Whether the record is that of the
/// redeeming party of a request is for `authorize_settlement_by`.
pub fn authorize_settlement(merchant_role: &RoleEntry) -> (r: Result<(), MesosError>)
    ensures
        r == settlement_verdict(*merchant_role),
        r is Ok <==> merchant_role.is_active_merchant(),
        r == Err::<(), MesosError>(MesosError::NotRegistered) <==> !merchant_role.is_active,
        r == Err::<(), MesosError>(MesosError::OnlyMerchantCanSettle) <==> merchant_role.is_active
            && merchant_role.role != Role::Merchant,
{
    if !merchant_role.is_active {
        return Err(MesosError::NotRegistered);
    }
    match merchant_role.role {
        Role::Merchant => Ok(()),
        Role::Client => Err(MesosError::OnlyMerchantCanSettle),
    }
}

/// Whether vouchers may move from `sender` to `recipient` within the vault at
/// `vault`, each party being judged by the role record that the request brings
/// for it. A record counts for a party only where it is that party's own
/// record with this vault; any other record leaves the party not registered.
/// The conditions are taken in this order and the first one broken is
/// reported.
pub open spec fn party_transfer_verdict(
    vault: Address,
    sender: Address,
    sender_role: RoleEntry,
    recipient: Address,
    recipient_role: RoleEntry,
) -> Result<(), MesosError> {
    if !sender_role.spec_registers(vault, sender) {
        Err(MesosError::SenderNotRegistered)
    } else if sender_role.role != Role::Client {
        Err(MesosError::OnlyClientCanSend)
    } else if !recipient_role.spec_registers(vault, recipient) {
        Err(MesosError::RecipientNotRegistered)
    } else if recipient_role.role != Role::Merchant {
        Err(MesosError::OnlyMerchantCanReceive)
    } else {
        Ok(())
    }
}

/// Whether `merchant` may redeem within the vault at `vault`, judged by the
/// role record that the request brings for it: the record must be the
/// merchant's own with this vault and active, and then bear the merchant role.
pub open spec fn party_settlement_verdict(
    vault: Address,
    merchant: Address,
    merchant_role: RoleEntry,
) -> Result<(), MesosError> {
    if !merchant_role.spec_registers(vault, merchant) {
        Err(MesosError::NotRegistered)
    } else if merchant_role.role != Role::Merchant {
        Err(MesosError::OnlyMerchantCanSettle)
    } else {
        Ok(())
    }
}

/// Decides whether `sender` may send vouchers to `recipient` within the vault
/// at `vault`: only a party registered there as an active client may send, and
/// only to a party registered there as an active merchant. A role record that
/// belongs to another participant or to another vault gives its bearer no
/// standing.
pub fn authorize_transfer_between(
    vault: &Address,
    sender: &Address,
    sender_role: &RoleEntry,
    recipient: &Address,
    recipient_role: &RoleEntry,
) -> (r: Result<(), MesosError>)
    ensures
        r == party_transfer_verdict(*vault, *sender, *sender_role, *recipient, *recipient_role),
        r is Ok <==> sender_role.spec_registers(*vault, *sender) && sender_role.role
            == Role::Client && recipient_role.spec_registers(*vault, *recipient)
            && recipient_role.role == Role::Merchant,
{
    let sender_standing = RoleEntry {
        is_active: sender_role.registers(vault, sender),
        ..*sender_role
    };
    let recipient_standing = RoleEntry {
        is_active: recipient_role.registers(vault, recipient),
        ..*recipient_role
    };
    authorize_transfer(&sender_standing, &recipient_standing)
}

/// Decides whether `merchant` may redeem vouchers within the vault at `vault`:
/// only a party registered there as an active merchant may.
pub fn authorize_settlement_by(vault: &Address, merchant: &Address, merchant_role: &RoleEntry) -> (r:
    Result<(), MesosError>)
    ensures
        r == party_settlement_verdict(*vault, *merchant, *merchant_role),
        r is Ok <==> merchant_role.spec_registers(*vault, *merchant) && merchant_role.role
            == Role::Merchant,
{
    let standing = RoleEntry { is_active: merchant_role.registers(vault, merchant), ..*merchant_role };
    authorize_settlement(&standing)
}

} // verus!
