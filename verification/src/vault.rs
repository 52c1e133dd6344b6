//! The vault ledger: how much reserve is held, how many vouchers are out, and
//! the fixed rate between the two.

use vstd::prelude::*;
use crate::address::Address;
use crate::error::MesosError;

verus! {

/// Voucher units issued for one reserve unit.
pub const USDC_TO_VOUCHER_RATE: u64 = 4;

/// The ledger record of one controlling authority.
///
/// `authority`, `usdc_mint` and `voucher_mint` are set when the vault is
/// created and never change. Only deposits and settlements move the counters.
#[derive(Clone, Copy, Debug, Hash)]
pub struct Vault {
    pub authority: Address,
    pub usdc_mint: Address,
    pub voucher_mint: Address,
    pub total_usdc_deposited: u64,
    pub total_voucher_minted: u64,
    pub bump: u8,
    pub voucher_mint_bump: u8,
}

impl PartialEq for Vault {
    fn eq(&self, other: &Vault) -> (r: bool) {
        self.authority == other.authority && self.usdc_mint == other.usdc_mint
            && self.voucher_mint == other.voucher_mint && self.total_usdc_deposited
            == other.total_usdc_deposited && self.total_voucher_minted
            == other.total_voucher_minted && self.bump == other.bump && self.voucher_mint_bump
            == other.voucher_mint_bump
    }
}

impl Eq for Vault {}

impl vstd::std_specs::cmp::PartialEqSpecImpl for Vault {
    open spec fn obeys_eq_spec() -> bool {
        true
    }

    open spec fn eq_spec(&self, other: &Vault) -> bool {
        *self == *other
    }
}

/// The vouchers issued for a reserve amount: four for each unit, or `Overflow`
/// where that does not fit in 64 bits.
pub open spec fn spec_voucher_for_usdc(usdc_amount: u64) -> Result<u64, MesosError> {
    if usdc_amount * USDC_TO_VOUCHER_RATE <= u64::MAX {
        Ok((usdc_amount * USDC_TO_VOUCHER_RATE) as u64)
    } else {
        Err(MesosError::Overflow)
    }
}

/// The reserve paid out for a voucher amount: the whole quotient by the rate,
/// the remainder being forfeited; `AmountTooSmall` where the quotient is zero.
pub open spec fn spec_usdc_for_voucher(voucher_amount: u64) -> Result<u64, MesosError> {
    if voucher_amount >= USDC_TO_VOUCHER_RATE {
        Ok((voucher_amount as int / USDC_TO_VOUCHER_RATE as int) as u64)
    } else {
        Err(MesosError::AmountTooSmall)
    }
}

/// Converts a reserve amount into the voucher amount minted for it.
pub fn voucher_for_usdc(usdc_amount: u64) -> (r: Result<u64, MesosError>)
    ensures
        r == spec_voucher_for_usdc(usdc_amount),
        r is Ok <==> usdc_amount * 4 <= u64::MAX,
        r matches Ok(voucher_amount) ==> voucher_amount == usdc_amount * 4,
        r matches Err(e) ==> e == MesosError::Overflow,
{
    match usdc_amount.checked_mul(USDC_TO_VOUCHER_RATE) {
        Some(voucher_amount) => Ok(voucher_amount),
        None => Err(MesosError::Overflow),
    }
}

/// Converts a voucher amount into the reserve amount paid out for it, rounding
/// down. What is lost to rounding is not carried forward.
pub fn usdc_for_voucher(voucher_amount: u64) -> (r: Result<u64, MesosError>)
    ensures
        r == spec_usdc_for_voucher(voucher_amount),
        r is Ok <==> voucher_amount >= 4,
        r matches Ok(usdc_amount) ==> usdc_amount == voucher_amount / 4 && usdc_amount > 0
            && usdc_amount * 4 + voucher_amount % 4 == voucher_amount,
        r matches Err(e) ==> e == MesosError::AmountTooSmall,
{
    let usdc_amount: u64 = voucher_amount / USDC_TO_VOUCHER_RATE;
    if usdc_amount > 0 {
        Ok(usdc_amount)
    } else {
        Err(MesosError::AmountTooSmall)
    }
}

impl Vault {
    /// A vault as it is created: the identities as given, both counters at zero.
    pub open spec fn opened(
        authority: Address,
        usdc_mint: Address,
        voucher_mint: Address,
        bump: u8,
        voucher_mint_bump: u8,
    ) -> Vault {
        Vault {
            authority,
            usdc_mint,
            voucher_mint,
            total_usdc_deposited: 0,
            total_voucher_minted: 0,
            bump,
            voucher_mint_bump,
        }
    }

    /// Every voucher outstanding is matched exactly: four per reserve unit held.
    pub open spec fn is_balanced(self) -> bool {
        self.total_voucher_minted == self.total_usdc_deposited * USDC_TO_VOUCHER_RATE
    }

    /// Every voucher outstanding is covered: the reserve held is worth at least
    /// the vouchers minted.
    pub open spec fn is_backed(self) -> bool {
        self.total_voucher_minted <= self.total_usdc_deposited * USDC_TO_VOUCHER_RATE
    }

    /// Voucher units' worth of reserve that the vault holds beyond what is
    /// outstanding: what settlements have forfeited to rounding.
    pub open spec fn surplus(self) -> int {
        self.total_usdc_deposited * USDC_TO_VOUCHER_RATE - self.total_voucher_minted
    }

    /// Both counters can take the deposit without leaving the 64-bit range.
    pub open spec fn fits_deposit(self, usdc_amount: u64, voucher_amount: u64) -> bool {
        &&& self.total_usdc_deposited + usdc_amount <= u64::MAX
        &&& self.total_voucher_minted + voucher_amount <= u64::MAX
    }

    /// The vault with both counters raised.
    pub open spec fn with_deposit(self, usdc_amount: u64, voucher_amount: u64) -> Vault {
        Vault {
            total_usdc_deposited: (self.total_usdc_deposited + usdc_amount) as u64,
            total_voucher_minted: (self.total_voucher_minted + voucher_amount) as u64,
            ..self
        }
    }

    /// Both counters can give up the settlement without dropping below zero.
    pub open spec fn covers_settlement(self, usdc_amount: u64, voucher_amount: u64) -> bool {
        &&& usdc_amount <= self.total_usdc_deposited
        &&& voucher_amount <= self.total_voucher_minted
    }

    /// The vault with both counters lowered.
    pub open spec fn with_settlement(self, usdc_amount: u64, voucher_amount: u64) -> Vault {
        Vault {
            total_usdc_deposited: (self.total_usdc_deposited - usdc_amount) as u64,
            total_voucher_minted: (self.total_voucher_minted - voucher_amount) as u64,
            ..self
        }
    }

    /// Creates the ledger record of `authority` for the two asset classes, with
    /// nothing deposited and nothing minted.
    pub fn initialize(
        authority: Address,
        usdc_mint: Address,
        voucher_mint: Address,
        bump: u8,
        voucher_mint_bump: u8,
    ) -> (vault: Vault)
        ensures
            vault == Vault::opened(authority, usdc_mint, voucher_mint, bump, voucher_mint_bump),
            vault.is_balanced(),
    {
        Vault {
            authority,
            usdc_mint,
            voucher_mint,
            total_usdc_deposited: 0,
            total_voucher_minted: 0,
            bump,
            voucher_mint_bump,
        }
    }

    /// Adds a deposit to both counters, or fails with `Overflow` and changes
    /// nothing where either sum leaves the 64-bit range.
    pub fn record_deposit(&mut self, usdc_amount: u64, voucher_amount: u64) -> (r: Result<
        (),
        MesosError,
    >)
        ensures
            r is Ok <==> old(self).fits_deposit(usdc_amount, voucher_amount),
            r is Ok ==> *final(self) == old(self).with_deposit(usdc_amount, voucher_amount),
            r is Ok ==> final(self).total_usdc_deposited == old(self).total_usdc_deposited
                + usdc_amount,
            r is Ok ==> final(self).total_voucher_minted == old(self).total_voucher_minted
                + voucher_amount,
            r matches Err(e) ==> e == MesosError::Overflow && *final(self) == *old(self),
    {
        let total_usdc: u64 = match self.total_usdc_deposited.checked_add(usdc_amount) {
            Some(total) => total,
            None => { return Err(MesosError::Overflow); },
        };
        let total_voucher: u64 = match self.total_voucher_minted.checked_add(voucher_amount) {
            Some(total) => total,
            None => { return Err(MesosError::Overflow); },
        };
        self.total_usdc_deposited = total_usdc;
        self.total_voucher_minted = total_voucher;
        Ok(())
    }

    /// Takes a settlement off both counters, or fails with `Underflow` and
    /// changes nothing where either counter is smaller than what is taken.
    pub fn record_settlement(&mut self, usdc_amount: u64, voucher_amount: u64) -> (r: Result<
        (),
        MesosError,
    >)
        ensures
            r is Ok <==> old(self).covers_settlement(usdc_amount, voucher_amount),
            r is Ok ==> *final(self) == old(self).with_settlement(usdc_amount, voucher_amount),
            r is Ok ==> final(self).total_usdc_deposited == old(self).total_usdc_deposited
                - usdc_amount,
            r is Ok ==> final(self).total_voucher_minted == old(self).total_voucher_minted
                - voucher_amount,
            r matches Err(e) ==> e == MesosError::Underflow && *final(self) == *old(self),
    {
        let total_usdc: u64 = match self.total_usdc_deposited.checked_sub(usdc_amount) {
            Some(total) => total,
            None => { return Err(MesosError::Underflow); },
        };
        let total_voucher: u64 = match self.total_voucher_minted.checked_sub(voucher_amount) {
            Some(total) => total,
            None => { return Err(MesosError::Underflow); },
        };
        self.total_usdc_deposited = total_usdc;
        self.total_voucher_minted = total_voucher;
        Ok(())
    }
}

} // verus!
