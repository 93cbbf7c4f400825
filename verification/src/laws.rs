use vstd::prelude::*;
use crate::accounts::{
    BurnTokens, CreateMetadata, MintTokens, Pause, TransferAuthority, TransferTokens, Unpause,
};
use crate::errors::ErrorCode;
use crate::handlers::{
    burn_outcome, metadata_allowed, mint_outcome, pause_outcome, transfer_authority_outcome,
    transfer_outcome, unpause_outcome,
};
use crate::instructions::{issuance_delta, LedgerInstruction};
use crate::state::{AccountId, StablecoinState};

verus! {

// The laws of the control state machine, stated over the outcome functions
// that every handler is proved to implement. A refused operation never
// produces a new record, so "the record is unchanged on failure" is carried
// by each handler's contract; the lemmas below pin down when operations are
// refused and what the accepted ones may touch.

/// While the record is paused, mint, burn, and transfer are all refused.
/// Identity and token-match guards run first, so a request that also fails
/// those sees `AuthorizationMismatch`; every request that passes them is
/// refused with `ContractPaused`.
pub proof fn lemma_paused_blocks_supply_ops(
    s: StablecoinState,
    m: MintTokens,
    b: BurnTokens,
    t: TransferTokens,
    amount: u64,
)
    requires
        s.paused,
    ensures
        mint_outcome(s, m, amount) is Err,
        burn_outcome(s, b, amount) is Err,
        transfer_outcome(s, t, amount) == Err::<LedgerInstruction, ErrorCode>(
            ErrorCode::ContractPaused,
        ),
        m.mint == s.mint && m.authority == s.authority ==> mint_outcome(s, m, amount) == Err::<
            (StablecoinState, LedgerInstruction),
            _,
        >(ErrorCode::ContractPaused),
        b.mint == s.mint ==> burn_outcome(s, b, amount) == Err::<
            (StablecoinState, LedgerInstruction),
            _,
        >(ErrorCode::ContractPaused),
{
}

/// A transfer never changes the record, and the instruction it emits carries
/// no issuance: circulating supply is untouched whether the transfer is
/// accepted or refused.
pub proof fn lemma_transfer_preserves_supply(s: StablecoinState, t: TransferTokens, amount: u64)
    ensures
        transfer_outcome(s, t, amount) matches Ok(ins) ==> issuance_delta(ins) == 0,
{
}

/// Only the stored authority can mint, pause, unpause, re-delegate
/// authority, or register metadata: a request signed by any other identity
/// is refused with `AuthorizationMismatch`, before any other guard.
pub proof fn lemma_only_authority_controls(
    s: StablecoinState,
    m: MintTokens,
    p: Pause,
    u: Unpause,
    ta: TransferAuthority,
    cm: CreateMetadata,
    amount: u64,
    new_authority: AccountId,
)
    ensures
        m.authority != s.authority ==> mint_outcome(s, m, amount) == Err::<
            (StablecoinState, LedgerInstruction),
            _,
        >(ErrorCode::AuthorizationMismatch),
        p.authority != s.authority ==> pause_outcome(s, p) == Err::<StablecoinState, _>(
            ErrorCode::AuthorizationMismatch,
        ),
        u.authority != s.authority ==> unpause_outcome(s, u) == Err::<StablecoinState, _>(
            ErrorCode::AuthorizationMismatch,
        ),
        ta.authority != s.authority ==> transfer_authority_outcome(s, ta, new_authority) == Err::<
            StablecoinState,
            _,
        >(ErrorCode::AuthorizationMismatch),
        cm.authority != s.authority ==> !metadata_allowed(s, cm),
{
}

/// The supply counter mirrors issuance exactly: every accepted mint or burn
/// changes it by precisely the issuance delta of the instruction handed to
/// the ledger, and no other accepted operation changes it at all.
pub proof fn lemma_supply_mirrors_issuance(
    s: StablecoinState,
    m: MintTokens,
    b: BurnTokens,
    p: Pause,
    u: Unpause,
    ta: TransferAuthority,
    amount: u64,
    new_authority: AccountId,
)
    ensures
        mint_outcome(s, m, amount) matches Ok(out) ==> out.0.total_supply == s.total_supply
            + issuance_delta(out.1),
        burn_outcome(s, b, amount) matches Ok(out) ==> out.0.total_supply == s.total_supply
            + issuance_delta(out.1),
        pause_outcome(s, p) matches Ok(s2) ==> s2.total_supply == s.total_supply,
        unpause_outcome(s, u) matches Ok(s2) ==> s2.total_supply == s.total_supply,
        transfer_authority_outcome(s, ta, new_authority) matches Ok(s2) ==> s2.total_supply
            == s.total_supply,
{
}

/// No operation ever changes the managed token or the recorded precision;
/// only transfer-authority changes the authority; only pause and unpause
/// change the pause gate; only mint and burn change the supply counter.
pub proof fn lemma_record_frame(
    s: StablecoinState,
    m: MintTokens,
    b: BurnTokens,
    p: Pause,
    u: Unpause,
    ta: TransferAuthority,
    amount: u64,
    new_authority: AccountId,
)
    ensures
        mint_outcome(s, m, amount) matches Ok(out) ==> out.0 == (StablecoinState {
            total_supply: out.0.total_supply,
            ..s
        }),
        burn_outcome(s, b, amount) matches Ok(out) ==> out.0 == (StablecoinState {
            total_supply: out.0.total_supply,
            ..s
        }),
        pause_outcome(s, p) matches Ok(s2) ==> s2 == (StablecoinState { paused: true, ..s }),
        unpause_outcome(s, u) matches Ok(s2) ==> s2 == (StablecoinState { paused: false, ..s }),
        transfer_authority_outcome(s, ta, new_authority) matches Ok(s2) ==> s2 == (StablecoinState {
            authority: new_authority,
            ..s
        }),
{
}

} // verus!
