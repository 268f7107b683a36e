//! Update-metadata: `Active -> Active`.
//!
//! Overwrites a record's URI and name; symbol, royalty and creators are
//! never changed by this transition.  Applying the same update twice
//! yields the same final state.

use vstd::prelude::*;
use crate::codec::{decode_update, spec_parse_update};
use crate::derivation::{derive_nft_state_location, location_eq, spec_nft_state_seed,
    StorageLocation};
use crate::effects::MetadataUpdate;
use crate::errors::UniversalNFTError;
use crate::guard::authorize_gateway;
use crate::state::{NFTState, NFTStateView, ProgramState, Pubkey, TokenLifecycle};

verus! {

/// A record after its display metadata is overwritten: URI and name
/// replaced, every other field untouched.
pub open spec fn updated_record(s: NFTStateView, new_uri: Seq<char>, new_name: Seq<char>)
    -> NFTStateView {
    NFTStateView { uri: new_uri, name: new_name, ..s }
}

/// Everything the update transition promises once the caller is
/// authorized, as a function of its result and inputs.
pub open spec fn spec_update_post(
    r: Result<(NFTState, MetadataUpdate), UniversalNFTError>,
    lifecycle: TokenLifecycle,
    state_loc: Seq<u8>,
    payload: Seq<u8>,
) -> bool {
    match r {
        Ok((record, meta)) => {
            &&& spec_parse_update(payload) is Some
            &&& {
                let v = spec_parse_update(payload)->Some_0;
                &&& state_loc == spec_nft_state_seed(v.universal_token_id)
                &&& lifecycle matches TokenLifecycle::Active(old_rec) && {
                    &&& old_rec.universal_token_id == v.universal_token_id
                    &&& record@ == updated_record(old_rec@, v.new_uri, v.new_name)
                    &&& meta.unit@ == old_rec.mint@
                    &&& meta.new_uri@ == v.new_uri
                    &&& meta.new_name@ == v.new_name
                    &&& meta.symbol@ == old_rec.symbol@
                    &&& meta.royalty_bps == old_rec.royalty_bps
                }
            }
        },
        Err(e) => {
            ||| (e == UniversalNFTError::InvalidPayload && spec_parse_update(payload) is None)
            ||| (spec_parse_update(payload) is Some && {
                let v = spec_parse_update(payload)->Some_0;
                ||| (e == UniversalNFTError::InvalidInstructionData && state_loc
                    != spec_nft_state_seed(v.universal_token_id))
                ||| (e == UniversalNFTError::NFTStateNotFound && state_loc == spec_nft_state_seed(
                    v.universal_token_id,
                ) && !(lifecycle matches TokenLifecycle::Active(old_rec)
                    && old_rec.universal_token_id == v.universal_token_id))
            })
        },
    }
}

/// Applies update-metadata to the record at the caller-supplied
/// location.  Succeeds exactly when the payload decodes, the supplied
/// location equals the freshly derived one, and an active record with
/// that ID exists; a success carries the rewritten record and the
/// registry update request, which keeps symbol and royalty unchanged.
/// Nothing is mutated: a failed call leaves the record as it was.
pub fn handler(
    lifecycle: &TokenLifecycle,
    nft_state_location: &StorageLocation,
    payload: &Vec<u8>,
) -> (r: Result<(NFTState, MetadataUpdate), UniversalNFTError>)
    ensures
        spec_update_post(r, *lifecycle, nft_state_location@, payload@),
{
    let p = match decode_update(payload) {
        Ok(p) => p,
        Err(e) => {
            return Err(e);
        },
    };
    let expected_state = derive_nft_state_location(p.universal_token_id);
    if !location_eq(nft_state_location, &expected_state) {
        return Err(UniversalNFTError::InvalidInstructionData);
    }
    let old_rec = match lifecycle {
        TokenLifecycle::Active(old_rec) => old_rec,
        _ => {
            return Err(UniversalNFTError::NFTStateNotFound);
        },
    };
    if old_rec.universal_token_id != p.universal_token_id {
        return Err(UniversalNFTError::NFTStateNotFound);
    }
    apply_update(old_rec, p.new_uri, p.new_name)
}

/// Rewrites an active record's URI and name and builds the registry
/// update request.  The returned record differs from the old one in
/// those two fields alone.
fn apply_update(old_rec: &NFTState, new_uri: String, new_name: String) -> (r: Result<
    (NFTState, MetadataUpdate),
    UniversalNFTError,
>)
    ensures
        (r matches Ok((record, meta)) && {
            &&& record@ == updated_record(old_rec@, new_uri@, new_name@)
            &&& meta.unit@ == old_rec.mint@
            &&& meta.new_uri@ == new_uri@
            &&& meta.new_name@ == new_name@
            &&& meta.symbol@ == old_rec.symbol@
            &&& meta.royalty_bps == old_rec.royalty_bps
        }),
{
    let mut record = old_rec.dup();
    record.uri = new_uri.clone();
    record.name = new_name.clone();
    let meta = MetadataUpdate {
        unit: old_rec.mint.dup(),
        new_name,
        new_uri,
        symbol: old_rec.symbol.clone(),
        royalty_bps: old_rec.royalty_bps,
    };
    Ok((record, meta))
}

/// The direct entry for a relayer-driven metadata update: the
/// authorization guard runs first, then the same update transition.
///
/// Succeeds exactly when the supplied gateway identity is the
/// configured one, the supplied location equals the freshly derived
/// one, and an active record with the given ID exists.
pub fn update_metadata_handler(
    gateway: &Pubkey,
    program_state: &ProgramState,
    lifecycle: &TokenLifecycle,
    nft_state_location: &StorageLocation,
    universal_token_id: u64,
    new_uri: String,
    new_name: String,
) -> (r: Result<(NFTState, MetadataUpdate), UniversalNFTError>)
    ensures
        (gateway@ != program_state.gateway_pda@ ==> r == Err::<(NFTState, MetadataUpdate), _>(
            UniversalNFTError::UnauthorizedGateway,
        )),
        gateway@ == program_state.gateway_pda@ ==> match r {
            Ok((record, meta)) => {
                &&& nft_state_location@ == spec_nft_state_seed(universal_token_id)
                &&& *lifecycle matches TokenLifecycle::Active(old_rec) && {
                    &&& old_rec.universal_token_id == universal_token_id
                    &&& record@ == updated_record(old_rec@, new_uri@, new_name@)
                    &&& meta.unit@ == old_rec.mint@
                    &&& meta.new_uri@ == new_uri@
                    &&& meta.new_name@ == new_name@
                    &&& meta.symbol@ == old_rec.symbol@
                    &&& meta.royalty_bps == old_rec.royalty_bps
                }
            },
            Err(e) => {
                ||| (e == UniversalNFTError::InvalidInstructionData && nft_state_location@
                    != spec_nft_state_seed(universal_token_id))
                ||| (e == UniversalNFTError::NFTStateNotFound && nft_state_location@
                    == spec_nft_state_seed(universal_token_id) && !(*lifecycle
                    matches TokenLifecycle::Active(old_rec) && old_rec.universal_token_id
                    == universal_token_id))
            },
        },
{
    match authorize_gateway(gateway, program_state) {
        Ok(()) => {},
        Err(e) => {
            return Err(e);
        },
    }
    let expected_state = derive_nft_state_location(universal_token_id);
    if !location_eq(nft_state_location, &expected_state) {
        return Err(UniversalNFTError::InvalidInstructionData);
    }
    let old_rec = match lifecycle {
        TokenLifecycle::Active(old_rec) => old_rec,
        _ => {
            return Err(UniversalNFTError::NFTStateNotFound);
        },
    };
    if old_rec.universal_token_id != universal_token_id {
        return Err(UniversalNFTError::NFTStateNotFound);
    }
    apply_update(old_rec, new_uri, new_name)
}

/// Update-metadata is idempotent: applying the same update to a record
/// twice yields the same record as applying it once.
pub proof fn lemma_update_idempotent(s: NFTStateView, new_uri: Seq<char>, new_name: Seq<char>)
    ensures
        updated_record(updated_record(s, new_uri, new_name), new_uri, new_name) == updated_record(
            s,
            new_uri,
            new_name,
        ),
{
}

} // verus!
