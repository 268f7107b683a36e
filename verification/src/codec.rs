//! Payload codec: the flat binary layout of the cross-chain instruction
//! envelope and its payload shapes.
//!
//! Layout rules: integers are fixed-width little-endian; identities are
//! 32 raw bytes; strings and byte strings are length-prefixed with a
//! 32-bit little-endian byte count, strings carrying UTF-8 bytes.  The
//! envelope is one tag byte followed by the length-prefixed payload.
//! Decoding is total and deterministic: a byte sequence either is
//! exactly one encoding or it is rejected whole; no partial decode is
//! accepted.

use vstd::prelude::*;
use vstd::bytes::*;
use vstd::utf8::*;
use vstd::slice::{slice_subrange, slice_to_vec};
use crate::errors::UniversalNFTError;
use crate::state::{BurnPayloadView, BurnToUniversalPayload, CrossChainInstruction,
    CrossChainInstructionType, MintFromUniversalPayload, MintPayloadView, Pubkey,
    UpdateMetadataPayload, UpdatePayloadView};

verus! {

/// The greatest byte count a length prefix can carry.
pub const MAX_FIELD_LEN: u64 = 0xffff_ffff;

// ---------------------------------------------------------------------
// Specification-level encoders
// ---------------------------------------------------------------------

/// A length-prefixed byte string: 32-bit little-endian byte count, then
/// the bytes themselves.
pub open spec fn spec_enc_bytes(s: Seq<u8>) -> Seq<u8>
    recommends
        s.len() <= MAX_FIELD_LEN,
{
    spec_u32_to_le_bytes(s.len() as u32) + s
}

/// A length-prefixed string: its UTF-8 bytes under a 32-bit length.
pub open spec fn spec_enc_str(s: Seq<char>) -> Seq<u8>
    recommends
        encode_utf8(s).len() <= MAX_FIELD_LEN,
{
    spec_enc_bytes(encode_utf8(s))
}

/// A mint-from-origin payload can be encoded when its variable-length
/// fields fit their length prefixes and the recipient is a 32-byte key.
pub open spec fn mint_view_wf(v: MintPayloadView) -> bool {
    &&& v.recipient.len() == 32
    &&& encode_utf8(v.uri).len() <= MAX_FIELD_LEN
    &&& encode_utf8(v.name).len() <= MAX_FIELD_LEN
    &&& encode_utf8(v.symbol).len() <= MAX_FIELD_LEN
    &&& v.creator.len() <= MAX_FIELD_LEN
}

/// The exact byte sequence of a mint-from-origin payload.
pub open spec fn spec_encode_mint(v: MintPayloadView) -> Seq<u8>
    recommends
        mint_view_wf(v),
{
    spec_u64_to_le_bytes(v.universal_token_id) + (v.recipient + (spec_enc_str(v.uri) + (
    spec_enc_str(v.name) + (spec_enc_str(v.symbol) + (spec_enc_bytes(v.creator)
        + spec_u16_to_le_bytes(v.royalty_bps))))))
}

/// An update-metadata payload can be encoded when its strings fit their
/// length prefixes.
pub open spec fn update_view_wf(v: UpdatePayloadView) -> bool {
    &&& encode_utf8(v.new_uri).len() <= MAX_FIELD_LEN
    &&& encode_utf8(v.new_name).len() <= MAX_FIELD_LEN
}

/// The exact byte sequence of an update-metadata payload.
pub open spec fn spec_encode_update(v: UpdatePayloadView) -> Seq<u8>
    recommends
        update_view_wf(v),
{
    spec_u64_to_le_bytes(v.universal_token_id) + (spec_enc_str(v.new_uri) + spec_enc_str(
        v.new_name,
    ))
}

/// A burn-to-origin payload can be encoded when its byte strings fit
/// their length prefixes.
pub open spec fn burn_view_wf(v: BurnPayloadView) -> bool {
    &&& v.destination_chain.len() <= MAX_FIELD_LEN
    &&& v.receiver.len() <= MAX_FIELD_LEN
    &&& v.original_owner.len() <= MAX_FIELD_LEN
}

/// The exact byte sequence of a burn-to-origin payload.
pub open spec fn spec_encode_burn(v: BurnPayloadView) -> Seq<u8>
    recommends
        burn_view_wf(v),
{
    spec_u64_to_le_bytes(v.universal_token_id) + (spec_enc_bytes(v.destination_chain) + (
    spec_enc_bytes(v.receiver) + spec_enc_bytes(v.original_owner)))
}

/// The tag byte standing for an instruction type in the envelope.
pub open spec fn spec_tag_of(t: CrossChainInstructionType) -> u8 {
    match t {
        CrossChainInstructionType::MintFromUniversal => 0u8,
        CrossChainInstructionType::UpdateMetadata => 1u8,
    }
}

/// The exact byte sequence of an instruction envelope: the tag byte,
/// then the length-prefixed raw payload.
pub open spec fn spec_encode_envelope(t: CrossChainInstructionType, payload: Seq<u8>) -> Seq<u8>
    recommends
        payload.len() <= MAX_FIELD_LEN,
{
    seq![spec_tag_of(t)] + spec_enc_bytes(payload)
}

// ---------------------------------------------------------------------
// Specification-level parsers
// ---------------------------------------------------------------------
// Each `take_*` reads one field from the front of the input and returns
// the value beside the unread rest, or nothing if the input is too
// short or ill-formed.  Parsing is a total function of the bytes alone.

/// Reads a 64-bit little-endian integer.
pub open spec fn take_u64(b: Seq<u8>) -> Option<(u64, Seq<u8>)> {
    if b.len() >= 8 {
        Some((spec_u64_from_le_bytes(b.take(8)), b.skip(8)))
    } else {
        None
    }
}

/// Reads a 16-bit little-endian integer.
pub open spec fn take_u16(b: Seq<u8>) -> Option<(u16, Seq<u8>)> {
    if b.len() >= 2 {
        Some((spec_u16_from_le_bytes(b.take(2)), b.skip(2)))
    } else {
        None
    }
}

/// Reads a fixed-width 32-byte identity.
pub open spec fn take_key(b: Seq<u8>) -> Option<(Seq<u8>, Seq<u8>)> {
    if b.len() >= 32 {
        Some((b.take(32), b.skip(32)))
    } else {
        None
    }
}

/// Reads a length-prefixed byte string.
pub open spec fn take_bytes(b: Seq<u8>) -> Option<(Seq<u8>, Seq<u8>)> {
    if b.len() >= 4 {
        let n = spec_u32_from_le_bytes(b.take(4)) as int;
        if b.len() - 4 >= n {
            Some((b.subrange(4, 4 + n), b.skip(4 + n)))
        } else {
            None
        }
    } else {
        None
    }
}

/// Reads a length-prefixed string; the bytes must be valid UTF-8.
pub open spec fn take_str(b: Seq<u8>) -> Option<(Seq<char>, Seq<u8>)> {
    match take_bytes(b) {
        Some((raw, rest)) => if valid_utf8(raw) {
            Some((decode_utf8(raw), rest))
        } else {
            None
        },
        None => None,
    }
}

/// Parses a whole mint-from-origin payload; every byte must be consumed.
pub open spec fn spec_parse_mint(b: Seq<u8>) -> Option<MintPayloadView> {
    match take_u64(b) {
        None => None,
        Some((universal_token_id, b)) => match take_key(b) {
            None => None,
            Some((recipient, b)) => match take_str(b) {
                None => None,
                Some((uri, b)) => match take_str(b) {
                    None => None,
                    Some((name, b)) => match take_str(b) {
                        None => None,
                        Some((symbol, b)) => match take_bytes(b) {
                            None => None,
                            Some((creator, b)) => match take_u16(b) {
                                None => None,
                                Some((royalty_bps, b)) => if b.len() == 0 {
                                    Some(
                                        MintPayloadView {
                                            universal_token_id,
                                            recipient,
                                            uri,
                                            name,
                                            symbol,
                                            creator,
                                            royalty_bps,
                                        },
                                    )
                                } else {
                                    None
                                },
                            },
                        },
                    },
                },
            },
        },
    }
}

/// Parses a whole update-metadata payload; every byte must be consumed.
pub open spec fn spec_parse_update(b: Seq<u8>) -> Option<UpdatePayloadView> {
    match take_u64(b) {
        None => None,
        Some((universal_token_id, b)) => match take_str(b) {
            None => None,
            Some((new_uri, b)) => match take_str(b) {
                None => None,
                Some((new_name, b)) => if b.len() == 0 {
                    Some(UpdatePayloadView { universal_token_id, new_uri, new_name })
                } else {
                    None
                },
            },
        },
    }
}

/// Parses a whole burn-to-origin payload; every byte must be consumed.
pub open spec fn spec_parse_burn(b: Seq<u8>) -> Option<BurnPayloadView> {
    match take_u64(b) {
        None => None,
        Some((universal_token_id, b)) => match take_bytes(b) {
            None => None,
            Some((destination_chain, b)) => match take_bytes(b) {
                None => None,
                Some((receiver, b)) => match take_bytes(b) {
                    None => None,
                    Some((original_owner, b)) => if b.len() == 0 {
                        Some(
                            BurnPayloadView {
                                universal_token_id,
                                destination_chain,
                                receiver,
                                original_owner,
                            },
                        )
                    } else {
                        None
                    },
                },
            },
        },
    }
}

/// Parses an instruction envelope: one tag byte, then the
/// length-prefixed payload; every byte must be consumed.
pub open spec fn spec_parse_envelope(b: Seq<u8>) -> Option<(CrossChainInstructionType, Seq<u8>)> {
    if b.len() >= 1 {
        let t = if b[0] == 0u8 {
            Some(CrossChainInstructionType::MintFromUniversal)
        } else if b[0] == 1u8 {
            Some(CrossChainInstructionType::UpdateMetadata)
        } else {
            None
        };
        match t {
            None => None,
            Some(t) => match take_bytes(b.skip(1)) {
                None => None,
                Some((payload, rest)) => if rest.len() == 0 {
                    Some((t, payload))
                } else {
                    None
                },
            },
        }
    } else {
        None
    }
}

// ---------------------------------------------------------------------
// Round-trip lemmas, one per field shape
// ---------------------------------------------------------------------

/// Reading a 64-bit integer back off its own encoding yields the
/// integer and leaves the rest untouched.
proof fn lemma_take_u64(x: u64, rest: Seq<u8>)
    ensures
        take_u64(spec_u64_to_le_bytes(x) + rest) == Some((x, rest)),
{
    lemma_auto_spec_u64_to_from_le_bytes();
    let b = spec_u64_to_le_bytes(x) + rest;
    assert(b.take(8) =~= spec_u64_to_le_bytes(x));
    assert(b.skip(8) =~= rest);
}

/// Reading a 16-bit integer back off its own encoding yields the
/// integer and leaves the rest untouched.
proof fn lemma_take_u16(x: u16, rest: Seq<u8>)
    ensures
        take_u16(spec_u16_to_le_bytes(x) + rest) == Some((x, rest)),
{
    lemma_auto_spec_u16_to_from_le_bytes();
    let b = spec_u16_to_le_bytes(x) + rest;
    assert(b.take(2) =~= spec_u16_to_le_bytes(x));
    assert(b.skip(2) =~= rest);
}

/// Reading a 32-byte identity back off its raw bytes yields those bytes
/// and leaves the rest untouched.
proof fn lemma_take_key(k: Seq<u8>, rest: Seq<u8>)
    requires
        k.len() == 32,
    ensures
        take_key(k + rest) == Some((k, rest)),
{
    let b = k + rest;
    assert(b.take(32) =~= k);
    assert(b.skip(32) =~= rest);
}

/// Reading a length-prefixed byte string back off its own encoding
/// yields the bytes and leaves the rest untouched.
proof fn lemma_take_bytes(s: Seq<u8>, rest: Seq<u8>)
    requires
        s.len() <= MAX_FIELD_LEN,
    ensures
        take_bytes(spec_enc_bytes(s) + rest) == Some((s, rest)),
{
    lemma_auto_spec_u32_to_from_le_bytes();
    let b = spec_enc_bytes(s) + rest;
    assert(b.take(4) =~= spec_u32_to_le_bytes(s.len() as u32));
    let n = spec_u32_from_le_bytes(b.take(4)) as int;
    assert(n == s.len());
    assert(b.subrange(4, 4 + n) =~= s);
    assert(b.skip(4 + n) =~= rest);
}

/// Reading a length-prefixed string back off its own encoding yields
/// the characters and leaves the rest untouched.
proof fn lemma_take_str(s: Seq<char>, rest: Seq<u8>)
    requires
        encode_utf8(s).len() <= MAX_FIELD_LEN,
    ensures
        take_str(spec_enc_str(s) + rest) == Some((s, rest)),
{
    broadcast use encode_utf8_valid_utf8, encode_utf8_decode_utf8;

    lemma_take_bytes(encode_utf8(s), rest);
}

// ---------------------------------------------------------------------
// Round-trip laws
// ---------------------------------------------------------------------

/// Round trip: parsing the encoding of any encodable mint-from-origin
/// payload yields exactly that payload.
pub proof fn lemma_mint_round_trip(v: MintPayloadView)
    requires
        mint_view_wf(v),
    ensures
        spec_parse_mint(spec_encode_mint(v)) == Some(v),
{
    let r1 = v.recipient + (spec_enc_str(v.uri) + (spec_enc_str(v.name) + (spec_enc_str(v.symbol)
        + (spec_enc_bytes(v.creator) + spec_u16_to_le_bytes(v.royalty_bps)))));
    let r2 = spec_enc_str(v.uri) + (spec_enc_str(v.name) + (spec_enc_str(v.symbol) + (
    spec_enc_bytes(v.creator) + spec_u16_to_le_bytes(v.royalty_bps))));
    let r3 = spec_enc_str(v.name) + (spec_enc_str(v.symbol) + (spec_enc_bytes(v.creator)
        + spec_u16_to_le_bytes(v.royalty_bps)));
    let r4 = spec_enc_str(v.symbol) + (spec_enc_bytes(v.creator) + spec_u16_to_le_bytes(
        v.royalty_bps,
    ));
    let r5 = spec_enc_bytes(v.creator) + spec_u16_to_le_bytes(v.royalty_bps);
    lemma_take_u64(v.universal_token_id, r1);
    lemma_take_key(v.recipient, r2);
    lemma_take_str(v.uri, r3);
    lemma_take_str(v.name, r4);
    lemma_take_str(v.symbol, r5);
    lemma_take_bytes(v.creator, spec_u16_to_le_bytes(v.royalty_bps));
    lemma_take_u16(v.royalty_bps, Seq::<u8>::empty());
    assert(spec_u16_to_le_bytes(v.royalty_bps) + Seq::<u8>::empty() =~= spec_u16_to_le_bytes(
        v.royalty_bps,
    ));
}

/// Round trip: parsing the encoding of any encodable update-metadata
/// payload yields exactly that payload.
pub proof fn lemma_update_round_trip(v: UpdatePayloadView)
    requires
        update_view_wf(v),
    ensures
        spec_parse_update(spec_encode_update(v)) == Some(v),
{
    let r1 = spec_enc_str(v.new_uri) + spec_enc_str(v.new_name);
    lemma_take_u64(v.universal_token_id, r1);
    lemma_take_str(v.new_uri, spec_enc_str(v.new_name));
    lemma_take_str(v.new_name, Seq::<u8>::empty());
    assert(spec_enc_str(v.new_name) + Seq::<u8>::empty() =~= spec_enc_str(v.new_name));
}

/// Round trip: parsing the encoding of any encodable burn-to-origin
/// payload yields exactly that payload.
pub proof fn lemma_burn_round_trip(v: BurnPayloadView)
    requires
        burn_view_wf(v),
    ensures
        spec_parse_burn(spec_encode_burn(v)) == Some(v),
{
    let r1 = spec_enc_bytes(v.destination_chain) + (spec_enc_bytes(v.receiver) + spec_enc_bytes(
        v.original_owner,
    ));
    let r2 = spec_enc_bytes(v.receiver) + spec_enc_bytes(v.original_owner);
    lemma_take_u64(v.universal_token_id, r1);
    lemma_take_bytes(v.destination_chain, r2);
    lemma_take_bytes(v.receiver, spec_enc_bytes(v.original_owner));
    lemma_take_bytes(v.original_owner, Seq::<u8>::empty());
    assert(spec_enc_bytes(v.original_owner) + Seq::<u8>::empty() =~= spec_enc_bytes(
        v.original_owner,
    ));
}

/// Round trip for the envelope: parsing the encoding of a tag and a
/// payload yields them back.
pub proof fn lemma_envelope_round_trip(t: CrossChainInstructionType, payload: Seq<u8>)
    requires
        payload.len() <= MAX_FIELD_LEN,
    ensures
        spec_parse_envelope(spec_encode_envelope(t, payload)) == Some((t, payload)),
{
    let b = spec_encode_envelope(t, payload);
    assert(b[0] == spec_tag_of(t));
    assert(b.skip(1) =~= spec_enc_bytes(payload));
    lemma_take_bytes(payload, Seq::<u8>::empty());
    assert(spec_enc_bytes(payload) + Seq::<u8>::empty() =~= spec_enc_bytes(payload));
}

/// A byte string that the parser rejects is the encoding of no
/// encodable mint-from-origin payload at all: rejection means the bytes
/// match no expected layout.
pub proof fn lemma_mint_reject_no_encoding(b: Seq<u8>)
    requires
        spec_parse_mint(b) is None,
    ensures
        forall|v: MintPayloadView| mint_view_wf(v) ==> spec_encode_mint(v) != b,
{
    assert forall|v: MintPayloadView| mint_view_wf(v) implies spec_encode_mint(v) != b by {
        if spec_encode_mint(v) == b {
            lemma_mint_round_trip(v);
        }
    }
}

/// A byte string that the parser rejects is the encoding of no
/// encodable update-metadata payload.
pub proof fn lemma_update_reject_no_encoding(b: Seq<u8>)
    requires
        spec_parse_update(b) is None,
    ensures
        forall|v: UpdatePayloadView| update_view_wf(v) ==> spec_encode_update(v) != b,
{
    assert forall|v: UpdatePayloadView| update_view_wf(v) implies spec_encode_update(v) != b by {
        if spec_encode_update(v) == b {
            lemma_update_round_trip(v);
        }
    }
}

/// A byte string that the parser rejects is the encoding of no
/// encodable burn-to-origin payload.
pub proof fn lemma_burn_reject_no_encoding(b: Seq<u8>)
    requires
        spec_parse_burn(b) is None,
    ensures
        forall|v: BurnPayloadView| burn_view_wf(v) ==> spec_encode_burn(v) != b,
{
    assert forall|v: BurnPayloadView| burn_view_wf(v) implies spec_encode_burn(v) != b by {
        if spec_encode_burn(v) == b {
            lemma_burn_round_trip(v);
        }
    }
}

// ---------------------------------------------------------------------
// Canonicity: a parsed input is exactly one encoding
// ---------------------------------------------------------------------
// Together with the round-trip lemmas these make encoding and decoding
// exact inverses: every value has one encoding, and only encodings
// parse.

/// An accepted 64-bit read came off exactly that integer's encoding.
proof fn lemma_take_u64_inv(b: Seq<u8>, x: u64, rest: Seq<u8>)
    requires
        take_u64(b) == Some((x, rest)),
    ensures
        b == spec_u64_to_le_bytes(x) + rest,
{
    lemma_auto_spec_u64_to_from_le_bytes();
    assert(b.take(8).len() == 8);
    assert(b =~= b.take(8) + b.skip(8));
}

/// An accepted 16-bit read came off exactly that integer's encoding.
proof fn lemma_take_u16_inv(b: Seq<u8>, x: u16, rest: Seq<u8>)
    requires
        take_u16(b) == Some((x, rest)),
    ensures
        b == spec_u16_to_le_bytes(x) + rest,
{
    lemma_auto_spec_u16_to_from_le_bytes();
    assert(b.take(2).len() == 2);
    assert(b =~= b.take(2) + b.skip(2));
}

/// An accepted identity read came off exactly those 32 bytes.
proof fn lemma_take_key_inv(b: Seq<u8>, k: Seq<u8>, rest: Seq<u8>)
    requires
        take_key(b) == Some((k, rest)),
    ensures
        b == k + rest,
        k.len() == 32,
{
    assert(b =~= b.take(32) + b.skip(32));
}

/// An accepted byte-string read came off exactly that string's
/// length-prefixed encoding.
proof fn lemma_take_bytes_inv(b: Seq<u8>, s: Seq<u8>, rest: Seq<u8>)
    requires
        take_bytes(b) == Some((s, rest)),
    ensures
        b == spec_enc_bytes(s) + rest,
        s.len() <= MAX_FIELD_LEN,
{
    lemma_auto_spec_u32_to_from_le_bytes();
    let n = spec_u32_from_le_bytes(b.take(4)) as int;
    assert(s.len() == n);
    assert(b.take(4).len() == 4);
    assert(spec_u32_to_le_bytes(s.len() as u32) == b.take(4));
    assert(b =~= b.take(4) + b.subrange(4, 4 + n) + b.skip(4 + n));
    assert(spec_enc_bytes(s) + rest =~= b.take(4) + b.subrange(4, 4 + n) + b.skip(4 + n));
}

/// An accepted string read came off exactly that string's
/// length-prefixed UTF-8 encoding.
proof fn lemma_take_str_inv(b: Seq<u8>, s: Seq<char>, rest: Seq<u8>)
    requires
        take_str(b) == Some((s, rest)),
    ensures
        b == spec_enc_str(s) + rest,
        encode_utf8(s).len() <= MAX_FIELD_LEN,
{
    broadcast use decode_utf8_encode_utf8;

    let (raw, rest0) = take_bytes(b)->Some_0;
    lemma_take_bytes_inv(b, raw, rest0);
    assert(encode_utf8(decode_utf8(raw)) == raw);
}

/// Only an encoding parses: a byte string the parser accepts as a
/// mint-from-origin payload is exactly that payload's encoding.
pub proof fn lemma_mint_canonical(b: Seq<u8>, v: MintPayloadView)
    requires
        spec_parse_mint(b) == Some(v),
    ensures
        mint_view_wf(v),
        spec_encode_mint(v) == b,
{
    let (id, b1) = take_u64(b)->Some_0;
    let (rec, b2) = take_key(b1)->Some_0;
    let (uri, b3) = take_str(b2)->Some_0;
    let (name, b4) = take_str(b3)->Some_0;
    let (symbol, b5) = take_str(b4)->Some_0;
    let (creator, b6) = take_bytes(b5)->Some_0;
    let (bps, b7) = take_u16(b6)->Some_0;
    lemma_take_u64_inv(b, id, b1);
    lemma_take_key_inv(b1, rec, b2);
    lemma_take_str_inv(b2, uri, b3);
    lemma_take_str_inv(b3, name, b4);
    lemma_take_str_inv(b4, symbol, b5);
    lemma_take_bytes_inv(b5, creator, b6);
    lemma_take_u16_inv(b6, bps, b7);
    assert(b7 =~= Seq::<u8>::empty());
    assert(spec_u16_to_le_bytes(bps) + b7 =~= spec_u16_to_le_bytes(bps));
    assert(spec_encode_mint(v) == b);
}

/// Only an encoding parses: a byte string the parser accepts as an
/// update-metadata payload is exactly that payload's encoding.
pub proof fn lemma_update_canonical(b: Seq<u8>, v: UpdatePayloadView)
    requires
        spec_parse_update(b) == Some(v),
    ensures
        update_view_wf(v),
        spec_encode_update(v) == b,
{
    let (id, b1) = take_u64(b)->Some_0;
    let (new_uri, b2) = take_str(b1)->Some_0;
    let (new_name, b3) = take_str(b2)->Some_0;
    lemma_take_u64_inv(b, id, b1);
    lemma_take_str_inv(b1, new_uri, b2);
    lemma_take_str_inv(b2, new_name, b3);
    assert(b3 =~= Seq::<u8>::empty());
    assert(spec_enc_str(new_name) + b3 =~= spec_enc_str(new_name));
    assert(spec_encode_update(v) == b);
}

/// Only an encoding parses: a byte string the parser accepts as a
/// burn-to-origin payload is exactly that payload's encoding.
pub proof fn lemma_burn_canonical(b: Seq<u8>, v: BurnPayloadView)
    requires
        spec_parse_burn(b) == Some(v),
    ensures
        burn_view_wf(v),
        spec_encode_burn(v) == b,
{
    let (id, b1) = take_u64(b)->Some_0;
    let (dest, b2) = take_bytes(b1)->Some_0;
    let (recv, b3) = take_bytes(b2)->Some_0;
    let (orig, b4) = take_bytes(b3)->Some_0;
    lemma_take_u64_inv(b, id, b1);
    lemma_take_bytes_inv(b1, dest, b2);
    lemma_take_bytes_inv(b2, recv, b3);
    lemma_take_bytes_inv(b3, orig, b4);
    assert(b4 =~= Seq::<u8>::empty());
    assert(spec_enc_bytes(orig) + b4 =~= spec_enc_bytes(orig));
    assert(spec_encode_burn(v) == b);
}

// ---------------------------------------------------------------------
// Executable readers
// ---------------------------------------------------------------------
// Each reader consumes one field at an offset into the input and
// reports the new offset, behaving exactly as the corresponding
// specification-level `take_*` on the unread suffix.

/// Turns bytes into the string they spell, exactly when they are valid
/// UTF-8.
///
/// Relies on std's `String::from_utf8`: it succeeds precisely on valid
/// UTF-8 input and returns the string whose bytes are that input.
#[verifier::external_body]
fn bytes_to_string(v: Vec<u8>) -> (r: Option<String>)
    ensures
        r is Some <==> valid_utf8(v@),
        r matches Some(s) ==> s@ == decode_utf8(v@),
{
    match String::from_utf8(v) {
        Ok(s) => Some(s),
        Err(_) => None,
    }
}

/// Reads a 64-bit little-endian integer at `off`.
fn read_u64(b: &Vec<u8>, off: usize) -> (r: Option<(u64, usize)>)
    requires
        off <= b@.len(),
    ensures
        match r {
            Some((x, off2)) => {
                &&& off2 <= b@.len()
                &&& take_u64(b@.skip(off as int)) == Some((x, b@.skip(off2 as int)))
            },
            None => take_u64(b@.skip(off as int)) is None,
        },
{
    if b.len() - off < 8 {
        return None;
    }
    let s = slice_subrange(b.as_slice(), off, off + 8);
    let x = u64_from_le_bytes(s);
    proof {
        assert(b@.skip(off as int).take(8) =~= b@.subrange(off as int, off as int + 8));
        assert(b@.skip(off as int).skip(8) =~= b@.skip(off as int + 8));
    }
    Some((x, off + 8))
}

/// Reads a 16-bit little-endian integer at `off`.
fn read_u16(b: &Vec<u8>, off: usize) -> (r: Option<(u16, usize)>)
    requires
        off <= b@.len(),
    ensures
        match r {
            Some((x, off2)) => {
                &&& off2 <= b@.len()
                &&& take_u16(b@.skip(off as int)) == Some((x, b@.skip(off2 as int)))
            },
            None => take_u16(b@.skip(off as int)) is None,
        },
{
    if b.len() - off < 2 {
        return None;
    }
    let s = slice_subrange(b.as_slice(), off, off + 2);
    let x = u16_from_le_bytes(s);
    proof {
        assert(b@.skip(off as int).take(2) =~= b@.subrange(off as int, off as int + 2));
        assert(b@.skip(off as int).skip(2) =~= b@.skip(off as int + 2));
    }
    Some((x, off + 2))
}

/// Reads a 32-byte identity at `off`.
fn read_key(b: &Vec<u8>, off: usize) -> (r: Option<(Pubkey, usize)>)
    requires
        off <= b@.len(),
    ensures
        match r {
            Some((k, off2)) => {
                &&& off2 <= b@.len()
                &&& take_key(b@.skip(off as int)) == Some((k@, b@.skip(off2 as int)))
                &&& k.wf()
            },
            None => take_key(b@.skip(off as int)) is None,
        },
{
    if b.len() - off < 32 {
        return None;
    }
    let s = slice_subrange(b.as_slice(), off, off + 32);
    let bytes = slice_to_vec(s);
    proof {
        assert(b@.skip(off as int).take(32) =~= b@.subrange(off as int, off as int + 32));
        assert(b@.skip(off as int).skip(32) =~= b@.skip(off as int + 32));
    }
    Some((Pubkey { bytes }, off + 32))
}

/// Reads a length-prefixed byte string at `off`.
fn read_bytes(b: &Vec<u8>, off: usize) -> (r: Option<(Vec<u8>, usize)>)
    requires
        off <= b@.len(),
    ensures
        match r {
            Some((s, off2)) => {
                &&& off2 <= b@.len()
                &&& take_bytes(b@.skip(off as int)) == Some((s@, b@.skip(off2 as int)))
            },
            None => take_bytes(b@.skip(off as int)) is None,
        },
{
    if b.len() - off < 4 {
        return None;
    }
    let ls = slice_subrange(b.as_slice(), off, off + 4);
    let n32 = u32_from_le_bytes(ls);
    proof {
        assert(b@.skip(off as int).take(4) =~= b@.subrange(off as int, off as int + 4));
    }
    let n = n32 as usize;
    let off4 = off + 4;
    if b.len() - off4 < n {
        return None;
    }
    let cs = slice_subrange(b.as_slice(), off4, off4 + n);
    let content = slice_to_vec(cs);
    proof {
        assert(b@.skip(off as int).subrange(4, 4 + n as int) =~= b@.subrange(
            off4 as int,
            off4 as int + n as int,
        ));
        assert(b@.skip(off as int).skip(4 + n as int) =~= b@.skip(off4 as int + n as int));
    }
    Some((content, off4 + n))
}

/// Reads a length-prefixed UTF-8 string at `off`.
fn read_str(b: &Vec<u8>, off: usize) -> (r: Option<(String, usize)>)
    requires
        off <= b@.len(),
    ensures
        match r {
            Some((s, off2)) => {
                &&& off2 <= b@.len()
                &&& take_str(b@.skip(off as int)) == Some((s@, b@.skip(off2 as int)))
            },
            None => take_str(b@.skip(off as int)) is None,
        },
{
    match read_bytes(b, off) {
        None => None,
        Some((raw, off2)) => {
            match bytes_to_string(raw) {
                None => None,
                Some(s) => Some((s, off2)),
            }
        },
    }
}

// ---------------------------------------------------------------------
// Executable decoders
// ---------------------------------------------------------------------

/// Decodes a mint-from-origin payload.  Succeeds exactly on the byte
/// strings the specification parser accepts, and returns exactly the
/// payload it denotes; every other input is rejected whole with
/// `InvalidPayload`.
pub fn decode_mint(bytes: &Vec<u8>) -> (r: Result<MintFromUniversalPayload, UniversalNFTError>)
    ensures
        match r {
            Ok(p) => spec_parse_mint(bytes@) == Some(p@) && p.recipient.wf(),
            Err(e) => e == UniversalNFTError::InvalidPayload && spec_parse_mint(bytes@) is None,
        },
{
    proof {
        assert(bytes@.skip(0) =~= bytes@);
    }
    let Some((universal_token_id, off)) = read_u64(bytes, 0) else {
        return Err(UniversalNFTError::InvalidPayload);
    };
    let Some((recipient, off)) = read_key(bytes, off) else {
        return Err(UniversalNFTError::InvalidPayload);
    };
    let Some((uri, off)) = read_str(bytes, off) else {
        return Err(UniversalNFTError::InvalidPayload);
    };
    let Some((name, off)) = read_str(bytes, off) else {
        return Err(UniversalNFTError::InvalidPayload);
    };
    let Some((symbol, off)) = read_str(bytes, off) else {
        return Err(UniversalNFTError::InvalidPayload);
    };
    let Some((creator, off)) = read_bytes(bytes, off) else {
        return Err(UniversalNFTError::InvalidPayload);
    };
    let Some((royalty_bps, off)) = read_u16(bytes, off) else {
        return Err(UniversalNFTError::InvalidPayload);
    };
    if off != bytes.len() {
        return Err(UniversalNFTError::InvalidPayload);
    }
    Ok(
        MintFromUniversalPayload {
            universal_token_id,
            recipient,
            uri,
            name,
            symbol,
            creator,
            royalty_bps,
        },
    )
}

/// Decodes an update-metadata payload, succeeding exactly on the byte
/// strings the specification parser accepts.
pub fn decode_update(bytes: &Vec<u8>) -> (r: Result<UpdateMetadataPayload, UniversalNFTError>)
    ensures
        match r {
            Ok(p) => spec_parse_update(bytes@) == Some(p@),
            Err(e) => e == UniversalNFTError::InvalidPayload && spec_parse_update(bytes@) is None,
        },
{
    proof {
        assert(bytes@.skip(0) =~= bytes@);
    }
    let Some((universal_token_id, off)) = read_u64(bytes, 0) else {
        return Err(UniversalNFTError::InvalidPayload);
    };
    let Some((new_uri, off)) = read_str(bytes, off) else {
        return Err(UniversalNFTError::InvalidPayload);
    };
    let Some((new_name, off)) = read_str(bytes, off) else {
        return Err(UniversalNFTError::InvalidPayload);
    };
    if off != bytes.len() {
        return Err(UniversalNFTError::InvalidPayload);
    }
    Ok(UpdateMetadataPayload { universal_token_id, new_uri, new_name })
}

/// Decodes a burn-to-origin payload, succeeding exactly on the byte
/// strings the specification parser accepts.
pub fn decode_burn(bytes: &Vec<u8>) -> (r: Result<BurnToUniversalPayload, UniversalNFTError>)
    ensures
        match r {
            Ok(p) => spec_parse_burn(bytes@) == Some(p@),
            Err(e) => e == UniversalNFTError::InvalidPayload && spec_parse_burn(bytes@) is None,
        },
{
    proof {
        assert(bytes@.skip(0) =~= bytes@);
    }
    let Some((universal_token_id, off)) = read_u64(bytes, 0) else {
        return Err(UniversalNFTError::InvalidPayload);
    };
    let Some((destination_chain, off)) = read_bytes(bytes, off) else {
        return Err(UniversalNFTError::InvalidPayload);
    };
    let Some((receiver, off)) = read_bytes(bytes, off) else {
        return Err(UniversalNFTError::InvalidPayload);
    };
    let Some((original_owner, off)) = read_bytes(bytes, off) else {
        return Err(UniversalNFTError::InvalidPayload);
    };
    if off != bytes.len() {
        return Err(UniversalNFTError::InvalidPayload);
    }
    Ok(BurnToUniversalPayload { universal_token_id, destination_chain, receiver, original_owner })
}

/// Decodes an instruction envelope into its tag and raw payload,
/// succeeding exactly on the byte strings the specification parser
/// accepts; malformed envelopes are `InvalidInstructionData`.
pub fn decode_envelope(bytes: &Vec<u8>) -> (r: Result<CrossChainInstruction, UniversalNFTError>)
    ensures
        match r {
            Ok(ins) => spec_parse_envelope(bytes@) == Some((ins.instruction_type, ins.payload@)),
            Err(e) => e == UniversalNFTError::InvalidInstructionData && spec_parse_envelope(bytes@)
                is None,
        },
{
    if bytes.len() < 1 {
        return Err(UniversalNFTError::InvalidInstructionData);
    }
    let tag = bytes[0];
    let instruction_type = if tag == 0u8 {
        CrossChainInstructionType::MintFromUniversal
    } else if tag == 1u8 {
        CrossChainInstructionType::UpdateMetadata
    } else {
        return Err(UniversalNFTError::InvalidInstructionData);
    };
    let Some((payload, off)) = read_bytes(bytes, 1) else {
        proof {
            assert(take_bytes(bytes@.skip(1)) is None);
        }
        return Err(UniversalNFTError::InvalidInstructionData);
    };
    if off != bytes.len() {
        return Err(UniversalNFTError::InvalidInstructionData);
    }
    proof {
        assert(bytes@.skip(off as int) =~= Seq::<u8>::empty());
    }
    Ok(CrossChainInstruction { instruction_type, payload })
}

// ---------------------------------------------------------------------
// Executable encoders
// ---------------------------------------------------------------------

/// Appends a length-prefixed byte string to the output.
pub(crate) fn push_chunk(out: &mut Vec<u8>, s: &[u8])
    requires
        s@.len() <= MAX_FIELD_LEN,
    ensures
        final(out)@ == old(out)@ + spec_enc_bytes(s@),
{
    let ghost out0 = out@;
    let n: usize = s.len();
    let mut prefix = u32_to_le_bytes(n as u32);
    out.append(&mut prefix);
    let mut content = slice_to_vec(s);
    out.append(&mut content);
    proof {
        assert(final(out)@ =~= out0 + spec_enc_bytes(s@));
    }
}

/// Whether a string's UTF-8 byte count fits a length prefix.
pub(crate) fn str_fits(s: &String) -> (r: bool)
    ensures
        r == (encode_utf8(s@).len() <= MAX_FIELD_LEN),
{
    let b = s.as_str().as_bytes();
    (b.len() as u64) <= MAX_FIELD_LEN
}

/// Encodes a mint-from-origin payload to its exact byte sequence.
/// Fails with `InvalidPayload` exactly when the payload is not
/// encodable: a variable-length field outgrows its length prefix, or
/// the recipient is not a 32-byte key.
pub fn encode_mint(p: &MintFromUniversalPayload) -> (r: Result<Vec<u8>, UniversalNFTError>)
    ensures
        match r {
            Ok(out) => mint_view_wf(p@) && out@ == spec_encode_mint(p@),
            Err(e) => e == UniversalNFTError::InvalidPayload && !mint_view_wf(p@),
        },
{
    if p.recipient.bytes.len() != 32 {
        return Err(UniversalNFTError::InvalidPayload);
    }
    if !str_fits(&p.uri) || !str_fits(&p.name) || !str_fits(&p.symbol) {
        return Err(UniversalNFTError::InvalidPayload);
    }
    if (p.creator.len() as u64) > MAX_FIELD_LEN {
        return Err(UniversalNFTError::InvalidPayload);
    }
    let mut out: Vec<u8> = Vec::new();
    let mut idb = u64_to_le_bytes(p.universal_token_id);
    out.append(&mut idb);
    let mut rec = slice_to_vec(p.recipient.bytes.as_slice());
    out.append(&mut rec);
    push_chunk(&mut out, p.uri.as_str().as_bytes());
    push_chunk(&mut out, p.name.as_str().as_bytes());
    push_chunk(&mut out, p.symbol.as_str().as_bytes());
    push_chunk(&mut out, p.creator.as_slice());
    let mut rb = u16_to_le_bytes(p.royalty_bps);
    out.append(&mut rb);
    proof {
        assert(out@ =~= spec_encode_mint(p@));
    }
    Ok(out)
}

/// Encodes an update-metadata payload to its exact byte sequence;
/// fails with `InvalidPayload` exactly when a string outgrows its
/// length prefix.
pub fn encode_update(p: &UpdateMetadataPayload) -> (r: Result<Vec<u8>, UniversalNFTError>)
    ensures
        match r {
            Ok(out) => update_view_wf(p@) && out@ == spec_encode_update(p@),
            Err(e) => e == UniversalNFTError::InvalidPayload && !update_view_wf(p@),
        },
{
    if !str_fits(&p.new_uri) || !str_fits(&p.new_name) {
        return Err(UniversalNFTError::InvalidPayload);
    }
    let mut out: Vec<u8> = Vec::new();
    let mut idb = u64_to_le_bytes(p.universal_token_id);
    out.append(&mut idb);
    push_chunk(&mut out, p.new_uri.as_str().as_bytes());
    push_chunk(&mut out, p.new_name.as_str().as_bytes());
    proof {
        assert(out@ =~= spec_encode_update(p@));
    }
    Ok(out)
}

/// Encodes a burn-to-origin payload to its exact byte sequence; fails
/// with `InvalidPayload` exactly when a byte string outgrows its
/// length prefix.
pub fn encode_burn(p: &BurnToUniversalPayload) -> (r: Result<Vec<u8>, UniversalNFTError>)
    ensures
        match r {
            Ok(out) => burn_view_wf(p@) && out@ == spec_encode_burn(p@),
            Err(e) => e == UniversalNFTError::InvalidPayload && !burn_view_wf(p@),
        },
{
    if (p.destination_chain.len() as u64) > MAX_FIELD_LEN || (p.receiver.len() as u64)
        > MAX_FIELD_LEN || (p.original_owner.len() as u64) > MAX_FIELD_LEN {
        return Err(UniversalNFTError::InvalidPayload);
    }
    let mut out: Vec<u8> = Vec::new();
    let mut idb = u64_to_le_bytes(p.universal_token_id);
    out.append(&mut idb);
    push_chunk(&mut out, p.destination_chain.as_slice());
    push_chunk(&mut out, p.receiver.as_slice());
    push_chunk(&mut out, p.original_owner.as_slice());
    proof {
        assert(out@ =~= spec_encode_burn(p@));
    }
    Ok(out)
}

/// Encodes an instruction envelope: one tag byte, then the
/// length-prefixed payload; fails with `InvalidInstructionData`
/// exactly when the payload outgrows its length prefix.
pub fn encode_envelope(ins: &CrossChainInstruction) -> (r: Result<Vec<u8>, UniversalNFTError>)
    ensures
        match r {
            Ok(out) => ins.payload@.len() <= MAX_FIELD_LEN && out@ == spec_encode_envelope(
                ins.instruction_type,
                ins.payload@,
            ),
            Err(e) => e == UniversalNFTError::InvalidInstructionData && ins.payload@.len()
                > MAX_FIELD_LEN,
        },
{
    if (ins.payload.len() as u64) > MAX_FIELD_LEN {
        return Err(UniversalNFTError::InvalidInstructionData);
    }
    let mut out: Vec<u8> = Vec::new();
    let tag: u8 = match ins.instruction_type {
        CrossChainInstructionType::MintFromUniversal => 0u8,
        CrossChainInstructionType::UpdateMetadata => 1u8,
    };
    out.push(tag);
    push_chunk(&mut out, ins.payload.as_slice());
    proof {
        assert(out@ =~= spec_encode_envelope(ins.instruction_type, ins.payload@));
    }
    Ok(out)
}

} // verus!
