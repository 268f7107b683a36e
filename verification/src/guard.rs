//! Authorization guard.
//!
//! A transition triggered by an inbound cross-chain call is accepted
//! only from the single configured relayer gateway; equality is exact
//! identity comparison, never a prefix or fuzzy match.  A
//! local-owner-initiated burn instead requires the caller to hold
//! exactly one unit of the representation.

use vstd::prelude::*;
use crate::errors::UniversalNFTError;
use crate::state::{NFTState, ProgramState, Pubkey};

verus! {

/// Confirms that `caller` is the configured relayer gateway.
pub fn authorize_gateway(caller: &Pubkey, program_state: &ProgramState) -> (r: Result<
    (),
    UniversalNFTError,
>)
    ensures
        r is Ok <==> caller@ == program_state.gateway_pda@,
        r is Err ==> r == Err::<(), _>(UniversalNFTError::UnauthorizedGateway),
{
    if caller.key_eq(&program_state.gateway_pda) {
        Ok(())
    } else {
        Err(UniversalNFTError::UnauthorizedGateway)
    }
}

/// Confirms that the burning caller owns the representation: the record
/// names the caller as current owner and the external unit ledger
/// reports exactly one unit held.
pub fn check_token_owned(caller: &Pubkey, record: &NFTState, held_quantity: u64) -> (r: Result<
    (),
    UniversalNFTError,
>)
    ensures
        r is Ok <==> caller@ == record.current_owner@ && held_quantity == 1,
        r is Err ==> r == Err::<(), _>(UniversalNFTError::TokenNotOwned),
{
    if !caller.key_eq(&record.current_owner) {
        return Err(UniversalNFTError::TokenNotOwned);
    }
    if held_quantity != 1 {
        return Err(UniversalNFTError::TokenNotOwned);
    }
    Ok(())
}

} // verus!
