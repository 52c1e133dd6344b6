//! Asset movements: what an operation asks its caller to carry out.
//!
//! The ledger moves no asset. It answers each operation with the movements that
//! belong to it, in the order in which they are to be made, and the caller
//! hands them to whatever holds the balances.

use vstd::prelude::*;
use vstd::slice::slice_to_vec;
use crate::address::Address;

verus! {

/// First seed of a vault's derived address: the bytes of `vault`.
pub const VAULT_SEED: [u8; 5] = [118, 97, 117, 108, 116];

/// First seed of a role record's derived address: the bytes of `role`.
pub const ROLE_SEED: [u8; 4] = [114, 111, 108, 101];

/// First seed of a voucher mint's derived address: the bytes of `voucher_mint`.
pub const VOUCHER_MINT_SEED: [u8; 12] = [118, 111, 117, 99, 104, 101, 114, 95, 109, 105, 110, 116];

/// How the authority of a movement proves its consent.
#[derive(Clone, Copy, Debug, Hash)]
pub enum Signer {
    /// The authority is a participant who signed the request.
    Participant,
    /// The authority is the vault, whose address derives from its controlling
    /// authority; the ledger signs for it with the seeds of that derivation.
    Vault { authority: Address, bump: u8 },
    /// The authority is the voucher mint, whose address derives from its
    /// vault's; the ledger signs for it with the seeds of that derivation.
    VoucherMint { vault: Address, bump: u8 },
}

impl Signer {
    /// The seeds that sign for a derived address, in order: the fixed tag, the
    /// address it derives from, and the bump. None for a participant.
    pub open spec fn spec_seeds(self) -> Seq<Seq<u8>> {
        match self {
            Signer::Participant => seq![],
            Signer::Vault { authority, bump } => seq![VAULT_SEED@, authority@, seq![bump]],
            Signer::VoucherMint { vault, bump } => seq![VOUCHER_MINT_SEED@, vault@, seq![bump]],
        }
    }

    /// Builds the signer seeds to hand over with the movement.
    pub fn seeds(&self) -> (out: Vec<Vec<u8>>)
        ensures
            out.deep_view() == self.spec_seeds(),
    {
        let mut out: Vec<Vec<u8>> = Vec::new();
        match self {
            Signer::Participant => {},
            Signer::Vault { authority, bump } => {
                out.push(slice_to_vec(VAULT_SEED.as_slice()));
                out.push(slice_to_vec(authority.bytes.as_slice()));
                out.push(vec![*bump]);
            },
            Signer::VoucherMint { vault, bump } => {
                out.push(slice_to_vec(VOUCHER_MINT_SEED.as_slice()));
                out.push(slice_to_vec(vault.bytes.as_slice()));
                out.push(vec![*bump]);
            },
        }
        assert(out.deep_view() =~~= self.spec_seeds());
        out
    }
}

impl PartialEq for Signer {
    fn eq(&self, other: &Signer) -> (r: bool) {
        match (self, other) {
            (Signer::Participant, Signer::Participant) => true,
            (Signer::Vault { authority: a, bump: b }, Signer::Vault { authority: c, bump: d }) => {
                *a == *c && *b == *d
            },
            (Signer::VoucherMint { vault: a, bump: b }, Signer::VoucherMint { vault: c, bump: d }) => {
                *a == *c && *b == *d
            },
            _ => false,
        }
    }
}

impl Eq for Signer {}

impl vstd::std_specs::cmp::PartialEqSpecImpl for Signer {
    open spec fn obeys_eq_spec() -> bool {
        true
    }

    open spec fn eq_spec(&self, other: &Signer) -> bool {
        *self == *other
    }
}

/// One movement of a fungible asset.
#[derive(Clone, Copy, Debug, Hash)]
pub enum TokenInstruction {
    /// Move `amount` units from one holding to another.
    Transfer { from: Address, to: Address, authority: Address, amount: u64, signer: Signer },
    /// Create `amount` units of `mint` in the holding `to`.
    MintTo { mint: Address, to: Address, authority: Address, amount: u64, signer: Signer },
    /// Destroy `amount` units of `mint` in the holding `from`.
    Burn { mint: Address, from: Address, authority: Address, amount: u64, signer: Signer },
}

impl TokenInstruction {
    /// The number of units that the movement moves, creates or destroys.
    pub open spec fn spec_amount(self) -> u64 {
        match self {
            TokenInstruction::Transfer { amount, .. } => amount,
            TokenInstruction::MintTo { amount, .. } => amount,
            TokenInstruction::Burn { amount, .. } => amount,
        }
    }

    /// The number of units that the movement moves, creates or destroys.
    pub fn amount(&self) -> (n: u64)
        ensures
            n == self.spec_amount(),
    {
        match self {
            TokenInstruction::Transfer { amount, .. } => *amount,
            TokenInstruction::MintTo { amount, .. } => *amount,
            TokenInstruction::Burn { amount, .. } => *amount,
        }
    }
}

impl PartialEq for TokenInstruction {
    fn eq(&self, other: &TokenInstruction) -> (r: bool) {
        match (self, other) {
            (
                TokenInstruction::Transfer { from: a, to: b, authority: c, amount: d, signer: e },
                TokenInstruction::Transfer { from: f, to: g, authority: h, amount: i, signer: j },
            ) => *a == *f && *b == *g && *c == *h && *d == *i && *e == *j,
            (
                TokenInstruction::MintTo { mint: a, to: b, authority: c, amount: d, signer: e },
                TokenInstruction::MintTo { mint: f, to: g, authority: h, amount: i, signer: j },
            ) => *a == *f && *b == *g && *c == *h && *d == *i && *e == *j,
            (
                TokenInstruction::Burn { mint: a, from: b, authority: c, amount: d, signer: e },
                TokenInstruction::Burn { mint: f, from: g, authority: h, amount: i, signer: j },
            ) => *a == *f && *b == *g && *c == *h && *d == *i && *e == *j,
            _ => false,
        }
    }
}

impl Eq for TokenInstruction {}

impl vstd::std_specs::cmp::PartialEqSpecImpl for TokenInstruction {
    open spec fn obeys_eq_spec() -> bool {
        true
    }

    open spec fn eq_spec(&self, other: &TokenInstruction) -> bool {
        *self == *other
    }
}

} // verus!
