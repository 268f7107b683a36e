//! Deterministic derivation of storage locations.
//!
//! Every durable record lives at a location computed from stable seeds:
//! a domain-separation tag, plus the universal token ID for per-token
//! records.  Derivation is a pure function, so any caller can recompute
//! a location and the state machine can reject an operation whose
//! supplied location does not match the freshly derived one — the
//! anti-spoofing check that keeps an attacker from pointing the
//! protocol at an unrelated storage slot.

use vstd::prelude::*;
use vstd::bytes::{lemma_auto_spec_u64_to_from_le_bytes, spec_u64_from_le_bytes,
    spec_u64_to_le_bytes, u64_to_le_bytes};

verus! {

/// Domain tag of the singleton configuration record.
pub const PROGRAM_STATE_TAG: u8 = 1;

/// Domain tag of a per-token record.
pub const NFT_STATE_TAG: u8 = 2;

/// Domain tag of a per-token unit (the local representation's handle).
pub const NFT_MINT_TAG: u8 = 3;

/// A storage location: the seed bytes that name one durable slot.
#[derive(Debug, PartialEq, Eq)]
pub struct StorageLocation {
    pub seed: Vec<u8>,
}

impl View for StorageLocation {
    type V = Seq<u8>;

    open spec fn view(&self) -> Seq<u8> {
        self.seed@
    }
}

/// The seed bytes of the singleton configuration record.
pub open spec fn spec_program_state_seed() -> Seq<u8> {
    seq![PROGRAM_STATE_TAG]
}

/// The seed bytes of the per-token record for one universal token ID.
pub open spec fn spec_nft_state_seed(universal_token_id: u64) -> Seq<u8> {
    seq![NFT_STATE_TAG] + spec_u64_to_le_bytes(universal_token_id)
}

/// The seed bytes of the per-token unit for one universal token ID.
pub open spec fn spec_nft_mint_seed(universal_token_id: u64) -> Seq<u8> {
    seq![NFT_MINT_TAG] + spec_u64_to_le_bytes(universal_token_id)
}

/// Builds a per-token seed: the domain tag, then the ID little-endian.
fn derive_tagged(tag: u8, universal_token_id: u64) -> (r: StorageLocation)
    ensures
        r@ == seq![tag] + spec_u64_to_le_bytes(universal_token_id),
{
    let mut seed: Vec<u8> = Vec::new();
    seed.push(tag);
    let mut idb = u64_to_le_bytes(universal_token_id);
    seed.append(&mut idb);
    proof {
        assert(seed@ =~= seq![tag] + spec_u64_to_le_bytes(universal_token_id));
    }
    StorageLocation { seed }
}

/// Derives the location of the singleton configuration record.
pub fn derive_program_state_location() -> (r: StorageLocation)
    ensures
        r@ == spec_program_state_seed(),
{
    let mut seed: Vec<u8> = Vec::new();
    seed.push(PROGRAM_STATE_TAG);
    proof {
        assert(seed@ =~= spec_program_state_seed());
    }
    StorageLocation { seed }
}

/// Derives the location of the per-token record for one ID.
pub fn derive_nft_state_location(universal_token_id: u64) -> (r: StorageLocation)
    ensures
        r@ == spec_nft_state_seed(universal_token_id),
{
    derive_tagged(NFT_STATE_TAG, universal_token_id)
}

/// Derives the location of the per-token unit for one ID.
pub fn derive_nft_mint_location(universal_token_id: u64) -> (r: StorageLocation)
    ensures
        r@ == spec_nft_mint_seed(universal_token_id),
{
    derive_tagged(NFT_MINT_TAG, universal_token_id)
}

/// Exact comparison of two storage locations.
pub fn location_eq(a: &StorageLocation, b: &StorageLocation) -> (r: bool)
    ensures
        r == (a@ == b@),
{
    if a.seed.len() != b.seed.len() {
        return false;
    }
    let mut i: usize = 0;
    while i < a.seed.len()
        invariant
            i <= a.seed@.len(),
            a.seed@.len() == b.seed@.len(),
            forall|j: int| 0 <= j < i ==> a.seed@[j] == b.seed@[j],
        decreases a.seed@.len() - i,
    {
        if a.seed[i] != b.seed[i] {
            return false;
        }
        i = i + 1;
    }
    proof {
        assert(a@ =~= b@);
    }
    true
}

/// Derivation is deterministic and collision-free: identical seeds give
/// identical locations (derivation is a pure function of the ID), two
/// distinct universal token IDs never share a location, and the three
/// record kinds never collide with one another.
pub proof fn lemma_derivation_injective(id1: u64, id2: u64)
    ensures
        id1 == id2 ==> spec_nft_state_seed(id1) == spec_nft_state_seed(id2),
        id1 != id2 ==> spec_nft_state_seed(id1) != spec_nft_state_seed(id2),
        id1 != id2 ==> spec_nft_mint_seed(id1) != spec_nft_mint_seed(id2),
        spec_nft_state_seed(id1) != spec_nft_mint_seed(id2),
        spec_nft_state_seed(id1) != spec_program_state_seed(),
        spec_nft_mint_seed(id1) != spec_program_state_seed(),
{
    lemma_auto_spec_u64_to_from_le_bytes();
    if id1 != id2 {
        if spec_nft_state_seed(id1) == spec_nft_state_seed(id2) {
            assert(spec_nft_state_seed(id1).skip(1) =~= spec_u64_to_le_bytes(id1));
            assert(spec_nft_state_seed(id2).skip(1) =~= spec_u64_to_le_bytes(id2));
            assert(spec_u64_from_le_bytes(spec_u64_to_le_bytes(id1)) == id1);
            assert(false);
        }
        if spec_nft_mint_seed(id1) == spec_nft_mint_seed(id2) {
            assert(spec_nft_mint_seed(id1).skip(1) =~= spec_u64_to_le_bytes(id1));
            assert(spec_nft_mint_seed(id2).skip(1) =~= spec_u64_to_le_bytes(id2));
            assert(false);
        }
    }
    assert(spec_nft_state_seed(id1)[0] != spec_nft_mint_seed(id2)[0]);
    assert(spec_nft_state_seed(id1).len() != spec_program_state_seed().len());
    assert(spec_nft_mint_seed(id1).len() != spec_program_state_seed().len());
}

} // verus!
