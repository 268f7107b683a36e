//! Mint-from-origin: `Absent -> Active`.
//!
//! Decodes the inbound payload, re-derives the per-token storage
//! locations and refuses any that the caller mis-supplied, requires the
//! record to be absent, and produces the new record beside the requests
//! to the external unit ledger and metadata registry.

use vstd::prelude::*;
use crate::codec::{decode_mint, spec_parse_mint};
use crate::derivation::{derive_nft_mint_location, derive_nft_state_location, location_eq,
    spec_nft_mint_seed, spec_nft_state_seed, StorageLocation};
use crate::effects::{MetadataRegistration, UnitCreation};
use crate::errors::UniversalNFTError;
use crate::state::{bytes_dup, MintPayloadView, NFTState, NFTStateView, Pubkey, TokenLifecycle};

verus! {

/// The record a mint-from-origin payload gives rise to: owned by the
/// recipient, remembering the origin-chain creator as original owner,
/// and bound to the freshly created unit.
pub open spec fn minted_record(v: MintPayloadView, mint: Seq<u8>) -> NFTStateView {
    NFTStateView {
        universal_token_id: v.universal_token_id,
        mint: mint,
        original_owner: v.creator,
        current_owner: v.recipient,
        uri: v.uri,
        creator: v.creator,
        name: v.name,
        symbol: v.symbol,
        royalty_bps: v.royalty_bps,
    }
}

/// Everything the mint-from-origin transition promises, as a function
/// of its result and inputs: exactly when it succeeds, which record and
/// which external requests a success carries, and which error each
/// refused input is reported with.
pub open spec fn spec_mint_post(
    r: Result<(NFTState, UnitCreation, MetadataRegistration), UniversalNFTError>,
    lifecycle: TokenLifecycle,
    state_loc: Seq<u8>,
    mint_loc: Seq<u8>,
    mint: Seq<u8>,
    payload: Seq<u8>,
) -> bool {
    match r {
        Ok((record, unit, meta)) => {
            &&& spec_parse_mint(payload) is Some
            &&& {
                let v = spec_parse_mint(payload)->Some_0;
                &&& state_loc == spec_nft_state_seed(v.universal_token_id)
                &&& mint_loc == spec_nft_mint_seed(v.universal_token_id)
                &&& lifecycle is Absent
                &&& record@ == minted_record(v, mint)
                &&& unit.unit@ == mint
                &&& unit.owner@ == v.recipient
                &&& unit.quantity == 1
                &&& meta.unit@ == mint
                &&& meta.name@ == v.name
                &&& meta.symbol@ == v.symbol
                &&& meta.uri@ == v.uri
                &&& meta.royalty_bps == v.royalty_bps
                &&& meta.creator@ == v.creator
            }
        },
        Err(e) => {
            ||| (e == UniversalNFTError::InvalidPayload && spec_parse_mint(payload) is None)
            ||| (spec_parse_mint(payload) is Some && {
                let v = spec_parse_mint(payload)->Some_0;
                ||| (e == UniversalNFTError::InvalidInstructionData && (state_loc
                    != spec_nft_state_seed(v.universal_token_id) || mint_loc != spec_nft_mint_seed(
                    v.universal_token_id,
                )))
                ||| (e == UniversalNFTError::AlreadyMinted && state_loc == spec_nft_state_seed(
                    v.universal_token_id,
                ) && mint_loc == spec_nft_mint_seed(v.universal_token_id) && !(lifecycle
                    is Absent))
            })
        },
    }
}

/// Applies mint-from-origin.
///
/// `lifecycle` is the state stored at the caller-supplied per-token
/// location, `mint` the handle of the unit the ledger will create.
/// Succeeds exactly when the payload decodes, both supplied locations
/// equal the freshly derived ones, and no record exists yet; a success
/// carries the new record, the one-unit creation request for the
/// recipient, and the metadata registration.  Nothing is mutated: a
/// failed call leaves every input as it was.
pub fn handler(
    lifecycle: &TokenLifecycle,
    nft_state_location: &StorageLocation,
    mint_location: &StorageLocation,
    mint: &Pubkey,
    payload: &Vec<u8>,
) -> (r: Result<(NFTState, UnitCreation, MetadataRegistration), UniversalNFTError>)
    ensures
        spec_mint_post(r, *lifecycle, nft_state_location@, mint_location@, mint@, payload@),
{
    let p = match decode_mint(payload) {
        Ok(p) => p,
        Err(e) => {
            return Err(e);
        },
    };
    let expected_state = derive_nft_state_location(p.universal_token_id);
    let expected_mint = derive_nft_mint_location(p.universal_token_id);
    if !location_eq(nft_state_location, &expected_state) || !location_eq(
        mint_location,
        &expected_mint,
    ) {
        return Err(UniversalNFTError::InvalidInstructionData);
    }
    match lifecycle {
        TokenLifecycle::Absent => {},
        _ => {
            return Err(UniversalNFTError::AlreadyMinted);
        },
    }
    let record = NFTState {
        universal_token_id: p.universal_token_id,
        mint: mint.dup(),
        original_owner: bytes_dup(&p.creator),
        current_owner: p.recipient.dup(),
        uri: p.uri.clone(),
        creator: bytes_dup(&p.creator),
        name: p.name.clone(),
        symbol: p.symbol.clone(),
        royalty_bps: p.royalty_bps,
    };
    let unit = UnitCreation { unit: mint.dup(), owner: p.recipient, quantity: 1 };
    let meta = MetadataRegistration {
        unit: mint.dup(),
        name: p.name,
        symbol: p.symbol,
        uri: p.uri,
        royalty_bps: p.royalty_bps,
        creator: p.creator,
    };
    Ok((record, unit, meta))
}

/// A universal token ID is never reused: once a record exists for an
/// ID — active or already returned — every further mint-from-origin
/// for that ID is refused, whatever its payload.
pub proof fn lemma_token_id_never_reused(
    r: Result<(NFTState, UnitCreation, MetadataRegistration), UniversalNFTError>,
    lifecycle: TokenLifecycle,
    state_loc: Seq<u8>,
    mint_loc: Seq<u8>,
    mint: Seq<u8>,
    payload: Seq<u8>,
)
    requires
        !(lifecycle is Absent),
        spec_mint_post(r, lifecycle, state_loc, mint_loc, mint, payload),
    ensures
        r is Err,
{
}

} // verus!
