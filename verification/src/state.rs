use vstd::prelude::*;

verus! {

/// Identifier of an account on the external ledger: a holder account, a
/// token, or a caller identity. The ledger owns everything behind such an
/// identifier; this module only stores and compares identifiers.
#[derive(Clone, Copy, Debug, PartialEq, Eq, Structural, Hash)]
pub struct AccountId {
    pub id: u64,
}

/// Keyless proof that this module itself is the actor: the module is the
/// managed token's mint authority and metadata update authority, and it
/// proves so by deterministic derivation from a fixed seed bound to the
/// deployment plus the disambiguation value below, not by holding a private
/// key. The same value must be presented on every operation that acts as the
/// module; the host records it at initialization and passes it back in.
#[derive(Clone, Copy, Debug, PartialEq, Eq, Structural)]
pub struct AuthorityProof {
    /// Disambiguation value fixed when the deployment's derived authority
    /// was first established.
    pub bump: u8,
}

/// The one persistent record of a deployment: who controls the managed
/// token, which token is managed, the mirrored circulating supply, and the
/// pause gate. Created exactly once, mutated field by field by the handlers,
/// never deleted.
#[derive(Clone, Copy, Debug, PartialEq, Eq, Structural)]
pub struct StablecoinState {
    /// Identity permitted to mint, pause, unpause, re-delegate authority,
    /// and register metadata.
    pub authority: AccountId,
    /// Identifier of the managed token; no handler ever changes it.
    pub mint: AccountId,
    /// Mirror of the circulating supply as tracked by the ledger.
    pub total_supply: u64,
    /// While set, mint, burn, and transfer are refused.
    pub paused: bool,
    /// Display precision recorded at creation.
    pub decimals: u8,
}

} // verus!
