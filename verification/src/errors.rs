use vstd::prelude::*;

verus! {

/// Reason an operation was refused. Every refusal leaves the control record
/// and the external ledger untouched: a handler that returns an error yields
/// no ledger instruction, and the host commits nothing.
#[derive(Clone, Copy, Debug, PartialEq, Eq, Structural)]
pub enum ErrorCode {
    /// Mint, burn, or transfer was attempted while the record is paused.
    ContractPaused,
    /// The requested amount is zero.
    InvalidAmount,
    /// Adding the minted amount would take the supply counter past its range.
    Overflow,
    /// The burned amount exceeds the recorded total supply.
    Underflow,
    /// The caller or the referenced token does not match the record's
    /// stored fields.
    AuthorizationMismatch,
}

} // verus!
