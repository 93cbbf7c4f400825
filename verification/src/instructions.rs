use vstd::prelude::*;
use crate::state::{AccountId, AuthorityProof};

verus! {

/// Precision the managed token itself is created with. The `decimals`
/// argument of `initialize` is stored in the control record, but the token is
/// created with this fixed value; the two can diverge, and the divergence is
/// visible in the contracts rather than silently reconciled.
pub const CREATED_TOKEN_PRECISION: u8 = 6;

/// One all-or-nothing call for the external ledger service. A handler that
/// succeeds returns the instruction the host must deliver in the same atomic
/// unit as the record update; a handler that fails returns none.
#[derive(Clone, Copy, Debug, PartialEq, Eq, Structural)]
#[allow(inconsistent_fields)]
pub enum LedgerInstruction {
    /// Create the managed token with the module's derived authority as its
    /// mint authority.
    CreateToken { token: AccountId, precision: u8, mint_authority: AuthorityProof },
    /// Credit `amount` of `token` to `destination`, authorized by the
    /// module's derived authority.
    MintTo { token: AccountId, destination: AccountId, amount: u64, authority: AuthorityProof },
    /// Debit `amount` of `token` from `source`, authorized by the caller's
    /// own identity.
    Burn { token: AccountId, source: AccountId, amount: u64, authority: AccountId },
    /// Move `amount` from `source` to `destination`, authorized by the
    /// caller's own identity.
    Transfer { source: AccountId, destination: AccountId, amount: u64, authority: AccountId },
}

/// How an instruction changes the circulating supply once the ledger commits
/// it: mints add, burns subtract, creation and transfers leave it alone.
pub open spec fn issuance_delta(ins: LedgerInstruction) -> int {
    match ins {
        LedgerInstruction::CreateToken { .. } => 0,
        LedgerInstruction::MintTo { amount, .. } => amount as int,
        LedgerInstruction::Burn { amount, .. } => -(amount as int),
        LedgerInstruction::Transfer { .. } => 0,
    }
}

/// Descriptive entry to register with the external metadata registry. The
/// schema is minimal on purpose: royalty, creator, collection, and usage data
/// are omitted. The entry is mutable so the module's derived authority can
/// update it later.
#[derive(Clone, Debug, PartialEq, Eq)]
pub struct MetadataInstruction {
    /// Token the entry describes.
    pub token: AccountId,
    pub name: String,
    pub symbol: String,
    pub uri: String,
    /// Whether the registry entry may be updated later.
    pub is_mutable: bool,
    /// Identity that pays for the registry entry: the caller.
    pub payer: AccountId,
    /// The module proves it is the token's mint authority.
    pub mint_authority: AuthorityProof,
    /// The module keeps the right to update the entry.
    pub update_authority: AuthorityProof,
}

} // verus!
