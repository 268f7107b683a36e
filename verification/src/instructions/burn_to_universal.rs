//! Burn-to-origin: `Active -> Returned`.
//!
//! The local holder gives the representation back to the origin chain.
//! The caller must hold exactly one unit; the transition requests the
//! unit's destruction, moves the record to its terminal state, and
//! packages the outbound notification.  The host environment must let
//! the destruction commit before publishing the notification.

use vstd::prelude::*;
use crate::derivation::{derive_nft_state_location, location_eq, spec_nft_state_seed,
    StorageLocation};
use crate::effects::UnitBurn;
use crate::errors::UniversalNFTError;
use crate::guard::check_token_owned;
use crate::state::{bytes_dup, BurnPayloadView, BurnToUniversalPayload, NFTState, Pubkey,
    TokenLifecycle};

verus! {

/// The outbound notification observed by the origin-chain relayers: the
/// burn payload beside the display fields read from the record before
/// the transition, so the origin chain can reconstruct the asset's
/// identity without a second query.
#[derive(Debug)]
pub struct BurnToUniversalEvent {
    pub universal_token_id: u64,
    pub destination_chain: Vec<u8>,
    pub receiver: Vec<u8>,
    pub original_owner: Vec<u8>,
    pub uri: String,
    pub name: String,
    pub creator: Vec<u8>,
}

/// Everything the burn transition promises, as a function of its result
/// and inputs.
pub open spec fn spec_burn_post(
    r: Result<(TokenLifecycle, UnitBurn, BurnToUniversalPayload, BurnToUniversalEvent),
        UniversalNFTError>,
    caller: Seq<u8>,
    lifecycle: TokenLifecycle,
    universal_token_id: u64,
    state_loc: Seq<u8>,
    held_quantity: u64,
    destination_chain: Seq<u8>,
    receiver: Seq<u8>,
) -> bool {
    match r {
        Ok((next, burn, payload, event)) => {
            &&& state_loc == spec_nft_state_seed(universal_token_id)
            &&& lifecycle matches TokenLifecycle::Active(rec) && {
                &&& rec.universal_token_id == universal_token_id
                &&& caller == rec.current_owner@
                &&& held_quantity == 1
                &&& next matches TokenLifecycle::Returned(kept) && kept@ == rec@
                &&& burn.unit@ == rec.mint@
                &&& burn.owner@ == caller
                &&& burn.quantity == 1
                &&& payload@ == (BurnPayloadView {
                    universal_token_id,
                    destination_chain,
                    receiver,
                    original_owner: rec.original_owner@,
                })
                &&& event.universal_token_id == universal_token_id
                &&& event.destination_chain@ == destination_chain
                &&& event.receiver@ == receiver
                &&& event.original_owner@ == rec.original_owner@
                &&& event.uri@ == rec.uri@
                &&& event.name@ == rec.name@
                &&& event.creator@ == rec.creator@
            }
        },
        Err(e) => {
            ||| (e == UniversalNFTError::InvalidInstructionData && state_loc
                != spec_nft_state_seed(universal_token_id))
            ||| (e == UniversalNFTError::NFTStateNotFound && state_loc == spec_nft_state_seed(
                universal_token_id,
            ) && !(lifecycle matches TokenLifecycle::Active(rec) && rec.universal_token_id
                == universal_token_id))
            ||| (e == UniversalNFTError::TokenNotOwned && state_loc == spec_nft_state_seed(
                universal_token_id,
            ) && (lifecycle matches TokenLifecycle::Active(rec) && rec.universal_token_id
                == universal_token_id && !(caller == rec.current_owner@ && held_quantity == 1)))
        },
    }
}

/// Applies burn-to-origin.
///
/// `held_quantity` is what the external unit ledger reports the caller
/// holding.  Succeeds exactly when the supplied location equals the
/// freshly derived one, an active record with the given ID exists, the
/// caller is its current owner, and the caller holds exactly one unit;
/// a success carries the terminal `Returned` record, the one-unit
/// destruction request, and the outbound payload and event, which carry
/// the record's original owner and display fields.  Nothing is
/// mutated: a failed call leaves the record and the unit as they were.
pub fn handler(
    caller: &Pubkey,
    lifecycle: &TokenLifecycle,
    universal_token_id: u64,
    nft_state_location: &StorageLocation,
    held_quantity: u64,
    destination_chain: Vec<u8>,
    receiver: Vec<u8>,
) -> (r: Result<
    (TokenLifecycle, UnitBurn, BurnToUniversalPayload, BurnToUniversalEvent),
    UniversalNFTError,
>)
    ensures
        spec_burn_post(
            r,
            caller@,
            *lifecycle,
            universal_token_id,
            nft_state_location@,
            held_quantity,
            destination_chain@,
            receiver@,
        ),
{
    let expected_state = derive_nft_state_location(universal_token_id);
    if !location_eq(nft_state_location, &expected_state) {
        return Err(UniversalNFTError::InvalidInstructionData);
    }
    let rec = match lifecycle {
        TokenLifecycle::Active(rec) => rec,
        _ => {
            return Err(UniversalNFTError::NFTStateNotFound);
        },
    };
    if rec.universal_token_id != universal_token_id {
        return Err(UniversalNFTError::NFTStateNotFound);
    }
    match check_token_owned(caller, rec, held_quantity) {
        Ok(()) => {},
        Err(e) => {
            return Err(e);
        },
    }
    let burn = UnitBurn { unit: rec.mint.dup(), owner: caller.dup(), quantity: 1 };
    let payload = BurnToUniversalPayload {
        universal_token_id,
        destination_chain: bytes_dup(&destination_chain),
        receiver: bytes_dup(&receiver),
        original_owner: bytes_dup(&rec.original_owner),
    };
    let event = BurnToUniversalEvent {
        universal_token_id,
        destination_chain,
        receiver,
        original_owner: bytes_dup(&rec.original_owner),
        uri: rec.uri.clone(),
        name: rec.name.clone(),
        creator: bytes_dup(&rec.creator),
    };
    let next = TokenLifecycle::Returned(rec.dup());
    Ok((next, burn, payload, event))
}

/// `Returned` is terminal: once a record has been returned to the
/// origin chain, the remaining mutating transitions — update-metadata
/// and burn-to-origin — are refused for it, whatever their inputs.
pub proof fn lemma_returned_is_terminal(
    update_r: Result<(NFTState, crate::effects::MetadataUpdate), UniversalNFTError>,
    burn_r: Result<(TokenLifecycle, UnitBurn, BurnToUniversalPayload, BurnToUniversalEvent),
        UniversalNFTError>,
    lifecycle: TokenLifecycle,
    caller: Seq<u8>,
    universal_token_id: u64,
    state_loc: Seq<u8>,
    held_quantity: u64,
    destination_chain: Seq<u8>,
    receiver: Seq<u8>,
    payload: Seq<u8>,
)
    requires
        lifecycle is Returned,
        crate::instructions::update_metadata::spec_update_post(
            update_r,
            lifecycle,
            state_loc,
            payload,
        ),
        spec_burn_post(
            burn_r,
            caller,
            lifecycle,
            universal_token_id,
            state_loc,
            held_quantity,
            destination_chain,
            receiver,
        ),
    ensures
        update_r is Err,
        burn_r is Err,
{
}

} // verus!
