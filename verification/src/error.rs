//! The failures an operation can report.

use vstd::prelude::*;

verus! {

/// Why an operation was refused. Every failure aborts the whole operation and
/// leaves the records it was given untouched.
#[derive(Clone, Copy, Debug, PartialEq, Eq, Structural, Hash)]
pub enum MesosError {
    /// A zero amount was supplied.
    InvalidAmount,
    /// A counter or a converted amount would exceed the 64-bit range.
    Overflow,
    /// A counter would drop below zero.
    Underflow,
    /// The voucher amount converts to no whole reserve unit.
    AmountTooSmall,
    /// The sender's role record is inactive.
    SenderNotRegistered,
    /// The recipient's role record is inactive.
    RecipientNotRegistered,
    /// The sender is not a client.
    OnlyClientCanSend,
    /// The recipient is not a merchant.
    OnlyMerchantCanReceive,
    /// The settling party is not a merchant.
    OnlyMerchantCanSettle,
    /// The role record is inactive or missing.
    NotRegistered,
    /// The caller is not the vault's authority.
    Unauthorized,
    /// A record already exists under the key being created.
    DuplicateRegistration,
}

/// The four families of failure, by what the caller can do about them.
#[derive(Clone, Copy, Debug, PartialEq, Eq, Structural, Hash)]
pub enum ErrorKind {
    /// The amount supplied violates a precondition; retry with another amount.
    Validation,
    /// The caller or the counterparty lacks the role or status required.
    Authorization,
    /// A counter would leave its range; fatal to the operation.
    Arithmetic,
    /// A record that must be new exists already.
    DuplicateState,
}

impl MesosError {
    /// The family of each failure.
    pub open spec fn spec_kind(self) -> ErrorKind {
        match self {
            MesosError::InvalidAmount | MesosError::AmountTooSmall => ErrorKind::Validation,
            MesosError::Overflow | MesosError::Underflow => ErrorKind::Arithmetic,
            MesosError::DuplicateRegistration => ErrorKind::DuplicateState,
            _ => ErrorKind::Authorization,
        }
    }

    /// The text shown for each failure.
    pub open spec fn spec_message(self) -> Seq<char> {
        match self {
            MesosError::InvalidAmount => "Invalid amount"@,
            MesosError::Overflow => "Arithmetic overflow"@,
            MesosError::Underflow => "Arithmetic underflow"@,
            MesosError::AmountTooSmall => "Amount too small for conversion"@,
            MesosError::SenderNotRegistered => "Sender is not registered"@,
            MesosError::RecipientNotRegistered => "Recipient is not registered"@,
            MesosError::OnlyClientCanSend => "Only clients can send PLNLOG"@,
            MesosError::OnlyMerchantCanReceive => "Only merchants can receive PLNLOG"@,
            MesosError::OnlyMerchantCanSettle => "Only merchants can settle"@,
            MesosError::NotRegistered => "Address is not registered"@,
            MesosError::Unauthorized => "Caller is not the vault authority"@,
            MesosError::DuplicateRegistration => "Record already exists"@,
        }
    }

    /// Classifies the failure.
    pub fn kind(&self) -> (k: ErrorKind)
        ensures
            k == self.spec_kind(),
    {
        match self {
            MesosError::InvalidAmount | MesosError::AmountTooSmall => ErrorKind::Validation,
            MesosError::Overflow | MesosError::Underflow => ErrorKind::Arithmetic,
            MesosError::DuplicateRegistration => ErrorKind::DuplicateState,
            MesosError::SenderNotRegistered
            | MesosError::RecipientNotRegistered
            | MesosError::OnlyClientCanSend
            | MesosError::OnlyMerchantCanReceive
            | MesosError::OnlyMerchantCanSettle
            | MesosError::NotRegistered
            | MesosError::Unauthorized => ErrorKind::Authorization,
        }
    }

    /// The text to show a caller.
    pub fn message(&self) -> (text: &'static str)
        ensures
            text@ == self.spec_message(),
    {
        match self {
            MesosError::InvalidAmount => "Invalid amount",
            MesosError::Overflow => "Arithmetic overflow",
            MesosError::Underflow => "Arithmetic underflow",
            MesosError::AmountTooSmall => "Amount too small for conversion",
            MesosError::SenderNotRegistered => "Sender is not registered",
            MesosError::RecipientNotRegistered => "Recipient is not registered",
            MesosError::OnlyClientCanSend => "Only clients can send PLNLOG",
            MesosError::OnlyMerchantCanReceive => "Only merchants can receive PLNLOG",
            MesosError::OnlyMerchantCanSettle => "Only merchants can settle",
            MesosError::NotRegistered => "Address is not registered",
            MesosError::Unauthorized => "Caller is not the vault authority",
            MesosError::DuplicateRegistration => "Record already exists",
        }
    }
}

} // verus!
