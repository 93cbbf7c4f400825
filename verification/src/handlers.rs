use vstd::prelude::*;
use crate::accounts::{
    BurnTokens, CreateMetadata, Initialize, MintTokens, Pause, TransferAuthority, TransferTokens,
    Unpause,
};
use crate::errors::ErrorCode;
use crate::instructions::{LedgerInstruction, MetadataInstruction, CREATED_TOKEN_PRECISION};
use crate::state::{AccountId, AuthorityProof, StablecoinState};

verus! {

// Each operation is one guarded transition on the control record. A spec
// function gives the outcome — the new record and the ledger instruction the
// host must commit with it, or the refusal — and the handler is proved to
// return exactly that outcome. Guards run strictly before any mutation, in
// the order: identity and token match, pause gate, amount, arithmetic range.

/// The record as `initialize` creates it: supply zero, unpaused, authority
/// and managed token taken from the request.
pub open spec fn initialized_state(accounts: Initialize, decimals: u8) -> StablecoinState {
    StablecoinState {
        authority: accounts.authority,
        mint: accounts.mint,
        total_supply: 0,
        paused: false,
        decimals: decimals,
    }
}

/// Create the control record and the managed token. The host guarantees this
/// runs at most once per deployment: a second attempt fails at the host
/// because the record already exists, and never reaches this handler.
///
/// The requested `decimals` is stored in the record, but the token itself is
/// created with the fixed `CREATED_TOKEN_PRECISION`; the contract keeps both
/// values visible because they are not reconciled.
pub fn initialize(accounts: &Initialize, decimals: u8) -> (r: (StablecoinState, LedgerInstruction))
    ensures
        r.0 == initialized_state(*accounts, decimals),
        r.1 == (LedgerInstruction::CreateToken {
            token: accounts.mint,
            precision: CREATED_TOKEN_PRECISION,
            mint_authority: AuthorityProof { bump: accounts.bump },
        }),
{
    let record = StablecoinState {
        authority: accounts.authority,
        mint: accounts.mint,
        total_supply: 0,
        paused: false,
        decimals: decimals,
    };
    let create = LedgerInstruction::CreateToken {
        token: accounts.mint,
        precision: CREATED_TOKEN_PRECISION,
        mint_authority: AuthorityProof { bump: accounts.bump },
    };
    (record, create)
}

/// Outcome of minting `amount` into `accounts.to`: the record with the supply
/// counter raised and the mint instruction for the ledger, or the refusal.
pub open spec fn mint_outcome(
    s: StablecoinState,
    accounts: MintTokens,
    amount: u64,
) -> Result<(StablecoinState, LedgerInstruction), ErrorCode> {
    if accounts.mint != s.mint || accounts.authority != s.authority {
        Err(ErrorCode::AuthorizationMismatch)
    } else if s.paused {
        Err(ErrorCode::ContractPaused)
    } else if amount == 0 {
        Err(ErrorCode::InvalidAmount)
    } else if s.total_supply + amount > u64::MAX {
        Err(ErrorCode::Overflow)
    } else {
        Ok((
            StablecoinState { total_supply: (s.total_supply + amount) as u64, ..s },
            LedgerInstruction::MintTo {
                token: s.mint,
                destination: accounts.to,
                amount: amount,
                authority: AuthorityProof { bump: accounts.bump },
            },
        ))
    }
}

/// Mint `amount` of the managed token into a destination holder account,
/// authorized by the module's derived authority. Only the stored authority
/// may mint; the supply counter is raised by exactly `amount`, with overflow
/// refused; any refusal leaves the record unchanged.
pub fn mint_tokens(
    state: &mut StablecoinState,
    accounts: &MintTokens,
    amount: u64,
) -> (r: Result<LedgerInstruction, ErrorCode>)
    ensures
        mint_outcome(*old(state), *accounts, amount) matches Ok(p) ==>
            r == Ok::<LedgerInstruction, ErrorCode>(p.1) && *final(state) == p.0,
        mint_outcome(*old(state), *accounts, amount) matches Err(e) ==>
            r == Err::<LedgerInstruction, ErrorCode>(e) && *final(state) == *old(state),
        r is Ok ==> final(state).total_supply == old(state).total_supply + amount,
        r is Err ==> *final(state) == *old(state),
{
    if accounts.mint != state.mint || accounts.authority != state.authority {
        return Err(ErrorCode::AuthorizationMismatch);
    }
    if state.paused {
        return Err(ErrorCode::ContractPaused);
    }
    if amount == 0 {
        return Err(ErrorCode::InvalidAmount);
    }
    let new_supply = match state.total_supply.checked_add(amount) {
        Some(v) => v,
        None => {
            return Err(ErrorCode::Overflow);
        },
    };
    state.total_supply = new_supply;
    Ok(LedgerInstruction::MintTo {
        token: state.mint,
        destination: accounts.to,
        amount: amount,
        authority: AuthorityProof { bump: accounts.bump },
    })
}

/// Outcome of burning `amount` from `accounts.from`: the record with the
/// supply counter lowered and the burn instruction for the ledger, or the
/// refusal. Burning is not gated on the stored authority: the debit is
/// authorized by the caller's own identity, and the ledger enforces the
/// caller's rights over the source holder account.
pub open spec fn burn_outcome(
    s: StablecoinState,
    accounts: BurnTokens,
    amount: u64,
) -> Result<(StablecoinState, LedgerInstruction), ErrorCode> {
    if accounts.mint != s.mint {
        Err(ErrorCode::AuthorizationMismatch)
    } else if s.paused {
        Err(ErrorCode::ContractPaused)
    } else if amount == 0 {
        Err(ErrorCode::InvalidAmount)
    } else if amount > s.total_supply {
        Err(ErrorCode::Underflow)
    } else {
        Ok((
            StablecoinState { total_supply: (s.total_supply - amount) as u64, ..s },
            LedgerInstruction::Burn {
                token: s.mint,
                source: accounts.from,
                amount: amount,
                authority: accounts.authority,
            },
        ))
    }
}

/// Burn `amount` of the managed token from a source holder account,
/// authorized by the caller's own identity. The supply counter is lowered by
/// exactly `amount`, with underflow refused; any refusal leaves the record
/// unchanged.
pub fn burn_tokens(
    state: &mut StablecoinState,
    accounts: &BurnTokens,
    amount: u64,
) -> (r: Result<LedgerInstruction, ErrorCode>)
    ensures
        burn_outcome(*old(state), *accounts, amount) matches Ok(p) ==>
            r == Ok::<LedgerInstruction, ErrorCode>(p.1) && *final(state) == p.0,
        burn_outcome(*old(state), *accounts, amount) matches Err(e) ==>
            r == Err::<LedgerInstruction, ErrorCode>(e) && *final(state) == *old(state),
        r is Ok ==> old(state).total_supply == final(state).total_supply + amount,
        r is Err ==> *final(state) == *old(state),
{
    if accounts.mint != state.mint {
        return Err(ErrorCode::AuthorizationMismatch);
    }
    if state.paused {
        return Err(ErrorCode::ContractPaused);
    }
    if amount == 0 {
        return Err(ErrorCode::InvalidAmount);
    }
    let new_supply = match state.total_supply.checked_sub(amount) {
        Some(v) => v,
        None => {
            return Err(ErrorCode::Underflow);
        },
    };
    state.total_supply = new_supply;
    Ok(LedgerInstruction::Burn {
        token: state.mint,
        source: accounts.from,
        amount: amount,
        authority: accounts.authority,
    })
}

/// Outcome of moving `amount` between two holder accounts: the transfer
/// instruction for the ledger, or the refusal. Issuance is untouched, so the
/// record is never changed. Ownership of the source account is not checked
/// here: it is delegated entirely to the ledger's own rules.
pub open spec fn transfer_outcome(
    s: StablecoinState,
    accounts: TransferTokens,
    amount: u64,
) -> Result<LedgerInstruction, ErrorCode> {
    if s.paused {
        Err(ErrorCode::ContractPaused)
    } else if amount == 0 {
        Err(ErrorCode::InvalidAmount)
    } else {
        Ok(LedgerInstruction::Transfer {
            source: accounts.from,
            destination: accounts.to,
            amount: amount,
            authority: accounts.authority,
        })
    }
}

/// Move `amount` between two holder accounts, authorized by the caller's own
/// identity. Transfers never change issuance, so the record is read, never
/// written: only the pause gate and amount positivity are enforced here.
pub fn transfer_tokens(
    state: &StablecoinState,
    accounts: &TransferTokens,
    amount: u64,
) -> (r: Result<LedgerInstruction, ErrorCode>)
    ensures
        r == transfer_outcome(*state, *accounts, amount),
{
    if state.paused {
        return Err(ErrorCode::ContractPaused);
    }
    if amount == 0 {
        return Err(ErrorCode::InvalidAmount);
    }
    Ok(LedgerInstruction::Transfer {
        source: accounts.from,
        destination: accounts.to,
        amount: amount,
        authority: accounts.authority,
    })
}

/// Outcome of `pause`: the record with `paused` set, or the refusal.
pub open spec fn pause_outcome(s: StablecoinState, accounts: Pause) -> Result<
    StablecoinState,
    ErrorCode,
> {
    if accounts.authority != s.authority {
        Err(ErrorCode::AuthorizationMismatch)
    } else {
        Ok(StablecoinState { paused: true, ..s })
    }
}

/// Set the pause gate. Only the stored authority may pause. The flag is set
/// whether or not it already was, and nothing else in the record changes.
pub fn pause(state: &mut StablecoinState, accounts: &Pause) -> (r: Result<(), ErrorCode>)
    ensures
        pause_outcome(*old(state), *accounts) matches Ok(s2) ==>
            r == Ok::<(), ErrorCode>(()) && *final(state) == s2,
        pause_outcome(*old(state), *accounts) matches Err(e) ==>
            r == Err::<(), ErrorCode>(e) && *final(state) == *old(state),
{
    if accounts.authority != state.authority {
        return Err(ErrorCode::AuthorizationMismatch);
    }
    state.paused = true;
    Ok(())
}

/// Outcome of `unpause`: the record with `paused` cleared, or the refusal.
pub open spec fn unpause_outcome(s: StablecoinState, accounts: Unpause) -> Result<
    StablecoinState,
    ErrorCode,
> {
    if accounts.authority != s.authority {
        Err(ErrorCode::AuthorizationMismatch)
    } else {
        Ok(StablecoinState { paused: false, ..s })
    }
}

/// Clear the pause gate. Only the stored authority may unpause. The flag is
/// cleared whether or not it was set, and nothing else in the record changes.
pub fn unpause(state: &mut StablecoinState, accounts: &Unpause) -> (r: Result<(), ErrorCode>)
    ensures
        unpause_outcome(*old(state), *accounts) matches Ok(s2) ==>
            r == Ok::<(), ErrorCode>(()) && *final(state) == s2,
        unpause_outcome(*old(state), *accounts) matches Err(e) ==>
            r == Err::<(), ErrorCode>(e) && *final(state) == *old(state),
{
    if accounts.authority != state.authority {
        return Err(ErrorCode::AuthorizationMismatch);
    }
    state.paused = false;
    Ok(())
}

/// Outcome of re-delegating authority: the record with `new_authority` in
/// place of the old one, or the refusal. The new identity is taken as given:
/// it may equal the old one or be any value the caller supplies.
pub open spec fn transfer_authority_outcome(
    s: StablecoinState,
    accounts: TransferAuthority,
    new_authority: AccountId,
) -> Result<StablecoinState, ErrorCode> {
    if accounts.authority != s.authority {
        Err(ErrorCode::AuthorizationMismatch)
    } else {
        Ok(StablecoinState { authority: new_authority, ..s })
    }
}

/// Replace the stored authority with `new_authority`. Only the current
/// authority may re-delegate; nothing else in the record changes. The pause
/// gate does not block this.
pub fn transfer_authority(
    state: &mut StablecoinState,
    accounts: &TransferAuthority,
    new_authority: AccountId,
) -> (r: Result<(), ErrorCode>)
    ensures
        transfer_authority_outcome(*old(state), *accounts, new_authority) matches Ok(s2) ==>
            r == Ok::<(), ErrorCode>(()) && *final(state) == s2,
        transfer_authority_outcome(*old(state), *accounts, new_authority) matches Err(e) ==>
            r == Err::<(), ErrorCode>(e) && *final(state) == *old(state),
{
    if accounts.authority != state.authority {
        return Err(ErrorCode::AuthorizationMismatch);
    }
    state.authority = new_authority;
    Ok(())
}

/// Whether a metadata request is accepted: the referenced token and the
/// caller must both match the record. The pause gate does not block
/// metadata registration.
pub open spec fn metadata_allowed(s: StablecoinState, accounts: CreateMetadata) -> bool {
    accounts.mint == s.mint && accounts.authority == s.authority
}

/// Register a descriptive entry for the managed token with the external
/// metadata registry. The record is read, never written. The caller pays;
/// the module's derived authority signs as the token's mint authority and
/// keeps the right to update the entry later, so the entry is mutable.
pub fn create_metadata(
    state: &StablecoinState,
    accounts: &CreateMetadata,
    name: String,
    symbol: String,
    uri: String,
) -> (r: Result<MetadataInstruction, ErrorCode>)
    ensures
        r is Ok <==> metadata_allowed(*state, *accounts),
        r matches Ok(m) ==> m == (MetadataInstruction {
            token: state.mint,
            name: name,
            symbol: symbol,
            uri: uri,
            is_mutable: true,
            payer: accounts.authority,
            mint_authority: AuthorityProof { bump: accounts.bump },
            update_authority: AuthorityProof { bump: accounts.bump },
        }),
        r matches Err(e) ==> e == ErrorCode::AuthorizationMismatch,
{
    if accounts.mint != state.mint || accounts.authority != state.authority {
        return Err(ErrorCode::AuthorizationMismatch);
    }
    Ok(MetadataInstruction {
        token: state.mint,
        name: name,
        symbol: symbol,
        uri: uri,
        is_mutable: true,
        payer: accounts.authority,
        mint_authority: AuthorityProof { bump: accounts.bump },
        update_authority: AuthorityProof { bump: accounts.bump },
    })
}

} // verus!
