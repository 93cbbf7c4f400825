use vstd::prelude::*;
use crate::state::AccountId;

verus! {

// Each operation arrives with the identities it touches, already resolved by
// the host. `authority` is always the identity that signed the operation;
// the handlers check it against the record where the operation is gated.

/// Identities for `initialize`: the signer who becomes the initial authority
/// and the fresh token to be created and managed.
#[derive(Clone, Copy, Debug, PartialEq, Eq, Structural)]
pub struct Initialize {
    pub authority: AccountId,
    pub mint: AccountId,
    /// Disambiguation value of the module's derived authority, established
    /// here and presented again on every later operation that acts as the
    /// module.
    pub bump: u8,
}

/// Identities for `mint_tokens`: the managed token, the holder account to
/// credit, and the signer.
#[derive(Clone, Copy, Debug, PartialEq, Eq, Structural)]
pub struct MintTokens {
    pub mint: AccountId,
    pub to: AccountId,
    pub authority: AccountId,
    /// Derivation parameter of the module's authority proof, recorded at
    /// initialization.
    pub bump: u8,
}

/// Identities for `burn_tokens`: the managed token, the holder account to
/// debit, and the signer, who authorizes the debit with their own identity.
#[derive(Clone, Copy, Debug, PartialEq, Eq, Structural)]
pub struct BurnTokens {
    pub mint: AccountId,
    pub from: AccountId,
    pub authority: AccountId,
}

/// Identities for `transfer_tokens`: source and destination holder accounts
/// and the signer, who authorizes the move with their own identity.
#[derive(Clone, Copy, Debug, PartialEq, Eq, Structural)]
pub struct TransferTokens {
    pub from: AccountId,
    pub to: AccountId,
    pub authority: AccountId,
}

/// Identity for `pause`: the signer.
#[derive(Clone, Copy, Debug, PartialEq, Eq, Structural)]
pub struct Pause {
    pub authority: AccountId,
}

/// Identity for `unpause`: the signer.
#[derive(Clone, Copy, Debug, PartialEq, Eq, Structural)]
pub struct Unpause {
    pub authority: AccountId,
}

/// Identity for `transfer_authority`: the signer.
#[derive(Clone, Copy, Debug, PartialEq, Eq, Structural)]
pub struct TransferAuthority {
    pub authority: AccountId,
}

/// Identities for `create_metadata`: the managed token and the signer, who
/// pays for the registry entry.
#[derive(Clone, Copy, Debug, PartialEq, Eq, Structural)]
pub struct CreateMetadata {
    pub mint: AccountId,
    pub authority: AccountId,
    /// Derivation parameter of the module's authority proof, recorded at
    /// initialization.
    pub bump: u8,
}

} // verus!
