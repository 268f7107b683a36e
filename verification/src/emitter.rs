//! Outbound event emitter.
//!
//! Packages a finished burn into the notification the origin-chain
//! relayers consume: the burn payload followed by the display fields
//! read from the record before the transition.  The host environment
//! must publish these bytes only after the local burn has irreversibly
//! committed.

use vstd::prelude::*;
use vstd::utf8::encode_utf8;
use crate::codec::{burn_view_wf, encode_burn, push_chunk, spec_enc_bytes, spec_enc_str,
    spec_encode_burn, str_fits, MAX_FIELD_LEN};
use crate::errors::UniversalNFTError;
use crate::instructions::burn_to_universal::BurnToUniversalEvent;
use crate::state::{BurnPayloadView, BurnToUniversalPayload};

verus! {

/// The exact byte sequence of an outbound burn notification: the burn
/// payload, then the URI, name and creator of the burned
/// representation.
pub open spec fn spec_encode_event(
    v: BurnPayloadView,
    uri: Seq<char>,
    name: Seq<char>,
    creator: Seq<u8>,
) -> Seq<u8>
    recommends
        burn_view_wf(v),
        encode_utf8(uri).len() <= MAX_FIELD_LEN,
        encode_utf8(name).len() <= MAX_FIELD_LEN,
        creator.len() <= MAX_FIELD_LEN,
{
    spec_encode_burn(v) + (spec_enc_str(uri) + (spec_enc_str(name) + spec_enc_bytes(creator)))
}

/// Whether an event's fields all fit their length prefixes.
pub open spec fn event_wf(e: BurnToUniversalEvent) -> bool {
    &&& e.destination_chain@.len() <= MAX_FIELD_LEN
    &&& e.receiver@.len() <= MAX_FIELD_LEN
    &&& e.original_owner@.len() <= MAX_FIELD_LEN
    &&& encode_utf8(e.uri@).len() <= MAX_FIELD_LEN
    &&& encode_utf8(e.name@).len() <= MAX_FIELD_LEN
    &&& e.creator@.len() <= MAX_FIELD_LEN
}

/// The burn payload an event carries.
pub open spec fn event_payload(e: BurnToUniversalEvent) -> BurnPayloadView {
    BurnPayloadView {
        universal_token_id: e.universal_token_id,
        destination_chain: e.destination_chain@,
        receiver: e.receiver@,
        original_owner: e.original_owner@,
    }
}

/// Packages a burn event into the exact bytes of the outbound
/// notification; fails with `InvalidPayload` exactly when some field
/// outgrows its length prefix.
pub fn emit(event: &BurnToUniversalEvent) -> (r: Result<Vec<u8>, UniversalNFTError>)
    ensures
        match r {
            Ok(out) => event_wf(*event) && out@ == spec_encode_event(
                event_payload(*event),
                event.uri@,
                event.name@,
                event.creator@,
            ),
            Err(e) => e == UniversalNFTError::InvalidPayload && !event_wf(*event),
        },
{
    let payload = BurnToUniversalPayload {
        universal_token_id: event.universal_token_id,
        destination_chain: crate::state::bytes_dup(&event.destination_chain),
        receiver: crate::state::bytes_dup(&event.receiver),
        original_owner: crate::state::bytes_dup(&event.original_owner),
    };
    let mut out = match encode_burn(&payload) {
        Ok(out) => out,
        Err(e) => {
            return Err(e);
        },
    };
    if !str_fits(&event.uri) || !str_fits(&event.name) {
        return Err(UniversalNFTError::InvalidPayload);
    }
    if (event.creator.len() as u64) > MAX_FIELD_LEN {
        return Err(UniversalNFTError::InvalidPayload);
    }
    push_chunk(&mut out, event.uri.as_str().as_bytes());
    push_chunk(&mut out, event.name.as_str().as_bytes());
    push_chunk(&mut out, event.creator.as_slice());
    proof {
        assert(out@ =~= spec_encode_event(
            event_payload(*event),
            event.uri@,
            event.name@,
            event.creator@,
        ));
    }
    Ok(out)
}

} // verus!
