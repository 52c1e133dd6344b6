//! The exchange operations. Each takes the records that were resolved for one
//! request, decides, and on success updates the records and answers with the
//! asset movements to carry out. On failure nothing is changed and nothing is
//! to be moved.

use vstd::prelude::*;
use crate::address::Address;
use crate::error::MesosError;
use crate::gate::{
    authorize_settlement_by, authorize_transfer_between, party_settlement_verdict,
    party_transfer_verdict,
};
use crate::role::{Role, RoleEntry};
use crate::token::{Signer, TokenInstruction};
use crate::vault::{usdc_for_voucher, voucher_for_usdc, Vault, USDC_TO_VOUCHER_RATE};

verus! {

/// The records of a redemption request.
#[derive(Clone, Copy, Debug)]
pub struct Settle {
    /// The address of the vault record.
    pub vault_key: Address,
    pub vault: Vault,
    pub voucher_mint: Address,
    /// The role record brought for the redeeming party.
    pub merchant_role: RoleEntry,
    /// The redeeming party, who signed the request.
    pub merchant: Address,
    pub merchant_voucher_account: Address,
    pub merchant_usdc_account: Address,
    pub vault_usdc_account: Address,
}

/// What a redemption pays and the movements that carry it out, the burn first.
#[derive(Clone, Copy, Debug)]
pub struct SettleReceipt {
    /// Reserve units paid out.
    pub usdc_amount: u64,
    /// Destroys the redeemed vouchers in the merchant's holding.
    pub voucher_burn: TokenInstruction,
    /// Pays the reserve from the vault's holding to the merchant's.
    pub usdc_transfer: TokenInstruction,
}

impl Settle {
    /// The reserve paid for redeeming `voucher_amount`, or the first rule that
    /// the request breaks: the amount is positive, the redeeming party is
    /// registered with this vault by its own active record, that record bears
    /// the merchant role, the amount is worth a whole reserve unit, and the
    /// vault's counters cover it.
    pub open spec fn verdict(self, voucher_amount: u64) -> Result<u64, MesosError> {
        let usdc_amount = (voucher_amount as int / USDC_TO_VOUCHER_RATE as int) as u64;
        if voucher_amount == 0 {
            Err(MesosError::InvalidAmount)
        } else {
            match party_settlement_verdict(self.vault_key, self.merchant, self.merchant_role) {
                Err(e) => Err(e),
                Ok(()) => if usdc_amount == 0 {
                    Err(MesosError::AmountTooSmall)
                } else if !self.vault.covers_settlement(usdc_amount, voucher_amount) {
                    Err(MesosError::Underflow)
                } else {
                    Ok(usdc_amount)
                },
            }
        }
    }

    /// The movements of a redemption of `voucher_amount` that pays
    /// `usdc_amount`: the merchant burns the vouchers, then the vault, signing
    /// by its seeds, pays the reserve.
    pub open spec fn receipt(self, voucher_amount: u64, usdc_amount: u64) -> SettleReceipt {
        SettleReceipt {
            usdc_amount,
            voucher_burn: TokenInstruction::Burn {
                mint: self.voucher_mint,
                from: self.merchant_voucher_account,
                authority: self.merchant,
                amount: voucher_amount,
                signer: Signer::Participant,
            },
            usdc_transfer: TokenInstruction::Transfer {
                from: self.vault_usdc_account,
                to: self.merchant_usdc_account,
                authority: self.vault_key,
                amount: usdc_amount,
                signer: Signer::Vault { authority: self.vault.authority, bump: self.vault.bump },
            },
        }
    }

    /// The records after a redemption: the vault's counters lowered, all else
    /// kept.
    pub open spec fn settled(self, voucher_amount: u64, usdc_amount: u64) -> Settle {
        Settle { vault: self.vault.with_settlement(usdc_amount, voucher_amount), ..self }
    }
}

/// Redeems `voucher_amount` vouchers of `ctx.merchant` for reserve, at one
/// reserve unit per four vouchers, rounded down. The whole voucher amount is
/// burned; what rounding loses stays with the vault. Only a party that the
/// vault registers as an active merchant may redeem: a role record of another
/// participant, or of another vault, does not serve.
///
/// The caller makes the two movements of the receipt in their order and keeps
/// the updated vault only if both succeed.
pub fn settle(ctx: &mut Settle, voucher_amount: u64) -> (r: Result<SettleReceipt, MesosError>)
    ensures
        r is Ok <==> voucher_amount >= 4 && old(ctx).merchant_role.spec_registers(
            old(ctx).vault_key,
            old(ctx).merchant,
        ) && old(ctx).merchant_role.role == Role::Merchant && voucher_amount / 4 <= old(
            ctx,
        ).vault.total_usdc_deposited && voucher_amount <= old(ctx).vault.total_voucher_minted,
        (r matches Err(e) && e == MesosError::InvalidAmount) <==> voucher_amount == 0,
        (r matches Err(e) && e == MesosError::NotRegistered) <==> voucher_amount > 0 && !old(
            ctx,
        ).merchant_role.spec_registers(old(ctx).vault_key, old(ctx).merchant),
        (r matches Err(e) && e == MesosError::OnlyMerchantCanSettle) <==> voucher_amount > 0
            && old(ctx).merchant_role.spec_registers(old(ctx).vault_key, old(ctx).merchant) && old(
            ctx,
        ).merchant_role.role != Role::Merchant,
        (r matches Err(e) && e == MesosError::AmountTooSmall) <==> 0 < voucher_amount < 4 && old(
            ctx,
        ).merchant_role.spec_registers(old(ctx).vault_key, old(ctx).merchant) && old(
            ctx,
        ).merchant_role.role == Role::Merchant,
        (r matches Err(e) && e == MesosError::Underflow) <==> voucher_amount >= 4 && old(
            ctx,
        ).merchant_role.spec_registers(old(ctx).vault_key, old(ctx).merchant) && old(
            ctx,
        ).merchant_role.role == Role::Merchant && (voucher_amount / 4 > old(
            ctx,
        ).vault.total_usdc_deposited || voucher_amount > old(ctx).vault.total_voucher_minted),
        match r {
            Ok(receipt) => {
                &&& old(ctx).verdict(voucher_amount) == Ok::<u64, MesosError>(receipt.usdc_amount)
                &&& receipt.usdc_amount == voucher_amount / 4
                &&& receipt == old(ctx).receipt(voucher_amount, receipt.usdc_amount)
                &&& *final(ctx) == old(ctx).settled(voucher_amount, receipt.usdc_amount)
            },
            Err(e) => {
                &&& old(ctx).verdict(voucher_amount) == Err::<u64, MesosError>(e)
                &&& *final(ctx) == *old(ctx)
            },
        },
{
    if voucher_amount == 0 {
        return Err(MesosError::InvalidAmount);
    }
    match authorize_settlement_by(&ctx.vault_key, &ctx.merchant, &ctx.merchant_role) {
        Ok(()) => {},
        Err(e) => { return Err(e); },
    }
    let usdc_amount: u64 = match usdc_for_voucher(voucher_amount) {
        Ok(amount) => amount,
        Err(e) => { return Err(e); },
    };
    let voucher_burn = TokenInstruction::Burn {
        mint: ctx.voucher_mint,
        from: ctx.merchant_voucher_account,
        authority: ctx.merchant,
        amount: voucher_amount,
        signer: Signer::Participant,
    };
    let usdc_transfer = TokenInstruction::Transfer {
        from: ctx.vault_usdc_account,
        to: ctx.merchant_usdc_account,
        authority: ctx.vault_key,
        amount: usdc_amount,
        signer: Signer::Vault { authority: ctx.vault.authority, bump: ctx.vault.bump },
    };
    match ctx.vault.record_settlement(usdc_amount, voucher_amount) {
        Ok(()) => {},
        Err(e) => { return Err(e); },
    }
    Ok(SettleReceipt { usdc_amount, voucher_burn, usdc_transfer })
}

/// The records of a deposit request.
#[derive(Clone, Copy, Debug)]
pub struct DepositUsdc {
    /// The address of the vault record.
    pub vault_key: Address,
    pub vault: Vault,
    pub voucher_mint: Address,
    pub user: Address,
    pub user_usdc_account: Address,
    pub user_voucher_account: Address,
    pub vault_usdc_account: Address,
}

/// What a deposit mints and the movements that carry it out, the reserve
/// transfer first.
#[derive(Clone, Copy, Debug)]
pub struct DepositReceipt {
    /// Voucher units minted to the depositor.
    pub voucher_amount: u64,
    /// Moves the reserve from the depositor's holding to the vault's.
    pub usdc_transfer: TokenInstruction,
    /// Mints the vouchers into the depositor's holding.
    pub voucher_mint: TokenInstruction,
}

impl DepositUsdc {
    /// The vouchers minted for depositing `usdc_amount`, or the first rule that
    /// the request breaks: the amount is positive, four times the amount fits
    /// in 64 bits, and so do both counters once raised.
    pub open spec fn verdict(self, usdc_amount: u64) -> Result<u64, MesosError> {
        let voucher_amount = (usdc_amount * USDC_TO_VOUCHER_RATE) as u64;
        if usdc_amount == 0 {
            Err(MesosError::InvalidAmount)
        } else if usdc_amount * USDC_TO_VOUCHER_RATE > u64::MAX {
            Err(MesosError::Overflow)
        } else if !self.vault.fits_deposit(usdc_amount, voucher_amount) {
            Err(MesosError::Overflow)
        } else {
            Ok(voucher_amount)
        }
    }

    /// The movements of a deposit of `usdc_amount` that mints `voucher_amount`:
    /// the depositor pays the reserve into the vault's holding, then the
    /// voucher mint, signing by its seeds, mints to the depositor.
    pub open spec fn receipt(self, usdc_amount: u64, voucher_amount: u64) -> DepositReceipt {
        DepositReceipt {
            voucher_amount,
            usdc_transfer: TokenInstruction::Transfer {
                from: self.user_usdc_account,
                to: self.vault_usdc_account,
                authority: self.user,
                amount: usdc_amount,
                signer: Signer::Participant,
            },
            voucher_mint: TokenInstruction::MintTo {
                mint: self.voucher_mint,
                to: self.user_voucher_account,
                authority: self.voucher_mint,
                amount: voucher_amount,
                signer: Signer::VoucherMint {
                    vault: self.vault_key,
                    bump: self.vault.voucher_mint_bump,
                },
            },
        }
    }

    /// The records after a deposit: the vault's counters raised, all else kept.
    pub open spec fn deposited(self, usdc_amount: u64, voucher_amount: u64) -> DepositUsdc {
        DepositUsdc { vault: self.vault.with_deposit(usdc_amount, voucher_amount), ..self }
    }
}

/// Takes `usdc_amount` reserve units into the vault and mints four vouchers
/// for each to the depositor.
///
/// The caller makes the two movements of the receipt in their order and keeps
/// the updated vault only if both succeed.
pub fn deposit_usdc(ctx: &mut DepositUsdc, usdc_amount: u64) -> (r: Result<
    DepositReceipt,
    MesosError,
>)
    ensures
        r is Ok <==> usdc_amount > 0 && old(ctx).vault.total_usdc_deposited + usdc_amount
            <= u64::MAX && old(ctx).vault.total_voucher_minted + usdc_amount * 4 <= u64::MAX,
        (r matches Err(e) && e == MesosError::InvalidAmount) <==> usdc_amount == 0,
        (r matches Err(e) && e == MesosError::Overflow) <==> usdc_amount > 0 && (old(
            ctx,
        ).vault.total_usdc_deposited + usdc_amount > u64::MAX || old(
            ctx,
        ).vault.total_voucher_minted + usdc_amount * 4 > u64::MAX),
        match r {
            Ok(receipt) => {
                &&& old(ctx).verdict(usdc_amount) == Ok::<u64, MesosError>(receipt.voucher_amount)
                &&& receipt.voucher_amount == usdc_amount * 4
                &&& receipt == old(ctx).receipt(usdc_amount, receipt.voucher_amount)
                &&& *final(ctx) == old(ctx).deposited(usdc_amount, receipt.voucher_amount)
            },
            Err(e) => {
                &&& old(ctx).verdict(usdc_amount) == Err::<u64, MesosError>(e)
                &&& *final(ctx) == *old(ctx)
            },
        },
{
    if usdc_amount == 0 {
        return Err(MesosError::InvalidAmount);
    }
    let usdc_transfer = TokenInstruction::Transfer {
        from: ctx.user_usdc_account,
        to: ctx.vault_usdc_account,
        authority: ctx.user,
        amount: usdc_amount,
        signer: Signer::Participant,
    };
    let voucher_amount: u64 = match voucher_for_usdc(usdc_amount) {
        Ok(amount) => amount,
        Err(e) => { return Err(e); },
    };
    let voucher_mint = TokenInstruction::MintTo {
        mint: ctx.voucher_mint,
        to: ctx.user_voucher_account,
        authority: ctx.voucher_mint,
        amount: voucher_amount,
        signer: Signer::VoucherMint { vault: ctx.vault_key, bump: ctx.vault.voucher_mint_bump },
    };
    match ctx.vault.record_deposit(usdc_amount, voucher_amount) {
        Ok(()) => {},
        Err(e) => { return Err(e); },
    }
    Ok(DepositReceipt { voucher_amount, usdc_transfer, voucher_mint })
}

/// The records of a voucher transfer request.
#[derive(Clone, Copy, Debug)]
pub struct TransferPln {
    /// The address of the vault record.
    pub vault_key: Address,
    /// The role record brought for the sending party.
    pub sender_role: RoleEntry,
    /// The role record brought for the receiving party.
    pub recipient_role: RoleEntry,
    /// The sending party, who signed the request.
    pub sender: Address,
    /// The receiving party.
    pub recipient: Address,
    pub sender_voucher_account: Address,
    pub recipient_voucher_account: Address,
}

impl TransferPln {
    /// Whether `amount` vouchers may move, or the first rule that the request
    /// breaks: the amount is positive, then what `party_transfer_verdict` asks
    /// of the two parties and the records brought for them.
    pub open spec fn verdict(self, amount: u64) -> Result<(), MesosError> {
        if amount == 0 {
            Err(MesosError::InvalidAmount)
        } else {
            party_transfer_verdict(
                self.vault_key,
                self.sender,
                self.sender_role,
                self.recipient,
                self.recipient_role,
            )
        }
    }

    /// The movement of a transfer: `amount` vouchers from the sender's holding
    /// to the recipient's, on the sender's signature.
    pub open spec fn movement(self, amount: u64) -> TokenInstruction {
        TokenInstruction::Transfer {
            from: self.sender_voucher_account,
            to: self.recipient_voucher_account,
            authority: self.sender,
            amount,
            signer: Signer::Participant,
        }
    }
}

/// Lets `amount` vouchers move from `ctx.sender` to `ctx.recipient` where the
/// vault registers the one as an active client and the other as an active
/// merchant, each by its own role record, and refuses every other movement.
pub fn transfer_pln(ctx: &TransferPln, amount: u64) -> (r: Result<TokenInstruction, MesosError>)
    ensures
        match r {
            Ok(movement) => ctx.verdict(amount) is Ok && movement == ctx.movement(amount),
            Err(e) => ctx.verdict(amount) == Err::<(), MesosError>(e),
        },
        r is Ok <==> amount > 0 && ctx.sender_role.spec_registers(ctx.vault_key, ctx.sender)
            && ctx.sender_role.role == Role::Client && ctx.recipient_role.spec_registers(
            ctx.vault_key,
            ctx.recipient,
        ) && ctx.recipient_role.role == Role::Merchant,
        (r matches Err(e) && e == MesosError::InvalidAmount) <==> amount == 0,
        (r matches Err(e) && e == MesosError::SenderNotRegistered) <==> amount > 0
            && !ctx.sender_role.spec_registers(ctx.vault_key, ctx.sender),
        (r matches Err(e) && e == MesosError::OnlyClientCanSend) <==> amount > 0
            && ctx.sender_role.spec_registers(ctx.vault_key, ctx.sender) && ctx.sender_role.role
            != Role::Client,
        (r matches Err(e) && e == MesosError::RecipientNotRegistered) <==> amount > 0
            && ctx.sender_role.spec_registers(ctx.vault_key, ctx.sender) && ctx.sender_role.role
            == Role::Client && !ctx.recipient_role.spec_registers(ctx.vault_key, ctx.recipient),
        (r matches Err(e) && e == MesosError::OnlyMerchantCanReceive) <==> amount > 0
            && ctx.sender_role.spec_registers(ctx.vault_key, ctx.sender) && ctx.sender_role.role
            == Role::Client && ctx.recipient_role.spec_registers(ctx.vault_key, ctx.recipient)
            && ctx.recipient_role.role != Role::Merchant,
{
    if amount == 0 {
        return Err(MesosError::InvalidAmount);
    }
    match authorize_transfer_between(
        &ctx.vault_key,
        &ctx.sender,
        &ctx.sender_role,
        &ctx.recipient,
        &ctx.recipient_role,
    ) {
        Ok(()) => {},
        Err(e) => { return Err(e); },
    }
    Ok(
        TokenInstruction::Transfer {
            from: ctx.sender_voucher_account,
            to: ctx.recipient_voucher_account,
            authority: ctx.sender,
            amount,
            signer: Signer::Participant,
        },
    )
}

/// The records of a request to create a vault.
#[derive(Clone, Copy, Debug)]
pub struct InitializeVault {
    /// The vault record of `authority`: `None` until it is created.
    pub vault: Option<Vault>,
    pub voucher_mint: Address,
    pub usdc_mint: Address,
    /// The identity that asks for the vault and will control it.
    pub authority: Address,
    pub vault_bump: u8,
    pub voucher_mint_bump: u8,
}

impl InitializeVault {
    /// The vault that the request creates.
    pub open spec fn new_vault(self) -> Vault {
        Vault::opened(
            self.authority,
            self.usdc_mint,
            self.voucher_mint,
            self.vault_bump,
            self.voucher_mint_bump,
        )
    }
}

/// Creates the vault of `ctx.authority` with both counters at zero. An
/// authority has one vault: where the record exists already the request fails
/// with `DuplicateRegistration`.
pub fn initialize_vault(ctx: &mut InitializeVault) -> (r: Result<(), MesosError>)
    ensures
        r is Ok <==> old(ctx).vault is None,
        r is Ok ==> *final(ctx) == (InitializeVault {
            vault: Some(old(ctx).new_vault()),
            ..*old(ctx)
        }),
        r matches Err(e) ==> e == MesosError::DuplicateRegistration && *final(ctx) == *old(ctx),
{
    if ctx.vault.is_some() {
        return Err(MesosError::DuplicateRegistration);
    }
    ctx.vault = Some(
        Vault::initialize(
            ctx.authority,
            ctx.usdc_mint,
            ctx.voucher_mint,
            ctx.vault_bump,
            ctx.voucher_mint_bump,
        ),
    );
    Ok(())
}

/// The records of a request to register a participant.
#[derive(Clone, Copy, Debug)]
pub struct AddRole {
    /// The address of the vault record.
    pub vault_key: Address,
    pub vault: Vault,
    /// The role record kept for the participant with this vault: `None` until
    /// it is created.
    pub role_entry: Option<RoleEntry>,
    /// The identity that makes the request.
    pub authority: Address,
    pub role_entry_bump: u8,
}

impl AddRole {
    /// Whether the request may register, or the first rule that it breaks: the
    /// caller is the vault's authority, and the participant has no record yet.
    pub open spec fn verdict(self) -> Result<(), MesosError> {
        if self.authority != self.vault.authority {
            Err(MesosError::Unauthorized)
        } else if self.role_entry is Some {
            Err(MesosError::DuplicateRegistration)
        } else {
            Ok(())
        }
    }

    /// The records after registering `address` with `role` at time `now`.
    pub open spec fn added(self, address: Address, role: Role, now: i64) -> AddRole {
        AddRole {
            role_entry: Some(
                RoleEntry::registered(self.vault_key, address, role, now, self.role_entry_bump),
            ),
            ..self
        }
    }
}

fn add_role(ctx: &mut AddRole, address: Address, role: Role, now: i64) -> (r: Result<
    (),
    MesosError,
>)
    ensures
        r == old(ctx).verdict(),
        r is Ok ==> *final(ctx) == old(ctx).added(address, role, now),
        r is Err ==> *final(ctx) == *old(ctx),
{
    if ctx.authority != ctx.vault.authority {
        return Err(MesosError::Unauthorized);
    }
    if ctx.role_entry.is_some() {
        return Err(MesosError::DuplicateRegistration);
    }
    ctx.role_entry = Some(
        RoleEntry {
            vault: ctx.vault_key,
            address,
            role,
            is_active: true,
            added_at: now,
            bump: ctx.role_entry_bump,
        },
    );
    Ok(())
}

/// Registers `address` as an active client of the vault, at time `now`. Only
/// the vault's authority may; a participant that has a record, active or not,
/// cannot be registered again.
pub fn add_client(ctx: &mut AddRole, address: Address, now: i64) -> (r: Result<(), MesosError>)
    ensures
        r == old(ctx).verdict(),
        r is Ok ==> *final(ctx) == old(ctx).added(address, Role::Client, now),
        r is Err ==> *final(ctx) == *old(ctx),
        r is Ok <==> old(ctx).authority == old(ctx).vault.authority && old(ctx).role_entry is None,
        r == Err::<(), MesosError>(MesosError::Unauthorized) <==> old(ctx).authority != old(
            ctx,
        ).vault.authority,
        r == Err::<(), MesosError>(MesosError::DuplicateRegistration) <==> old(ctx).authority
            == old(ctx).vault.authority && old(ctx).role_entry is Some,
{
    add_role(ctx, address, Role::Client, now)
}

/// Registers `address` as an active merchant of the vault, at time `now`. Only
/// the vault's authority may; a participant that has a record, active or not,
/// cannot be registered again.
pub fn add_merchant(ctx: &mut AddRole, address: Address, now: i64) -> (r: Result<(), MesosError>)
    ensures
        r == old(ctx).verdict(),
        r is Ok ==> *final(ctx) == old(ctx).added(address, Role::Merchant, now),
        r is Err ==> *final(ctx) == *old(ctx),
        r is Ok <==> old(ctx).authority == old(ctx).vault.authority && old(ctx).role_entry is None,
        r == Err::<(), MesosError>(MesosError::Unauthorized) <==> old(ctx).authority != old(
            ctx,
        ).vault.authority,
        r == Err::<(), MesosError>(MesosError::DuplicateRegistration) <==> old(ctx).authority
            == old(ctx).vault.authority && old(ctx).role_entry is Some,
{
    add_role(ctx, address, Role::Merchant, now)
}

/// The records of a request to remove a participant.
#[derive(Clone, Copy, Debug)]
pub struct RemoveRole {
    /// The address of the vault record.
    pub vault_key: Address,
    pub vault: Vault,
    /// The role record to deactivate.
    pub role_entry: RoleEntry,
    /// The identity that makes the request.
    pub authority: Address,
}

impl RemoveRole {
    /// Whether the request may remove, or the first rule that it breaks: the
    /// caller is the vault's authority, and the record is one of this vault.
    pub open spec fn verdict(self) -> Result<(), MesosError> {
        if self.authority != self.vault.authority {
            Err(MesosError::Unauthorized)
        } else if self.role_entry.vault != self.vault_key {
            Err(MesosError::NotRegistered)
        } else {
            Ok(())
        }
    }
}

/// Deactivates a role record of the vault. The record stays, with its address,
/// role and registration time; only the vault's authority may remove, and only
/// a record of its own vault. Removing an inactive record succeeds and changes
/// nothing.
pub fn remove_role(ctx: &mut RemoveRole) -> (r: Result<(), MesosError>)
    ensures
        r == old(ctx).verdict(),
        r is Ok <==> old(ctx).authority == old(ctx).vault.authority && old(ctx).role_entry.vault
            == old(ctx).vault_key,
        r is Ok ==> *final(ctx) == (RemoveRole {
            role_entry: old(ctx).role_entry.deactivated(),
            ..*old(ctx)
        }),
        r is Err ==> *final(ctx) == *old(ctx),
{
    if ctx.authority != ctx.vault.authority {
        return Err(MesosError::Unauthorized);
    }
    if ctx.role_entry.vault != ctx.vault_key {
        return Err(MesosError::NotRegistered);
    }
    ctx.role_entry.is_active = false;
    Ok(())
}

} // verus!
