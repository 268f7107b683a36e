//! Durable records, identities, and the typed cross-chain payloads.

use vstd::prelude::*;

verus! {

/// A 32-byte identity on the local chain: an account address.  Opaque to
/// the protocol logic; only exact equality is ever asked of it.
#[derive(Debug, PartialEq, Eq)]
pub struct Pubkey {
    pub bytes: Vec<u8>,
}

impl View for Pubkey {
    type V = Seq<u8>;

    open spec fn view(&self) -> Seq<u8> {
        self.bytes@
    }
}

impl Pubkey {
    /// A well-formed identity holds exactly 32 bytes.
    pub open spec fn wf(&self) -> bool {
        self.bytes@.len() == 32
    }

    /// Builds an identity from its raw bytes.
    pub fn new(bytes: Vec<u8>) -> (r: Pubkey)
        ensures
            r@ == bytes@,
    {
        Pubkey { bytes }
    }

    /// Exact identity comparison: byte-for-byte equality, never a prefix
    /// or fuzzy match.
    pub fn key_eq(&self, other: &Pubkey) -> (r: bool)
        ensures
            r == (self@ == other@),
    {
        if self.bytes.len() != other.bytes.len() {
            return false;
        }
        let mut i: usize = 0;
        while i < self.bytes.len()
            invariant
                i <= self.bytes@.len(),
                self.bytes@.len() == other.bytes@.len(),
                forall|j: int| 0 <= j < i ==> self.bytes@[j] == other.bytes@[j],
            decreases self.bytes@.len() - i,
        {
            if self.bytes[i] != other.bytes[i] {
                return false;
            }
            i = i + 1;
        }
        proof {
            assert(self@ =~= other@);
        }
        true
    }

    /// A copy of this identity with the same bytes.
    pub fn dup(&self) -> (r: Pubkey)
        ensures
            r@ == self@,
    {
        let bytes = self.bytes.clone();
        proof {
            assert(bytes@ =~= self.bytes@);
        }
        Pubkey { bytes }
    }
}

/// Copies a raw byte string (an origin-chain address or similar).
pub fn bytes_dup(v: &Vec<u8>) -> (r: Vec<u8>)
    ensures
        r@ == v@,
{
    let r = v.clone();
    proof {
        assert(r@ =~= v@);
    }
    r
}

/// Mathematical model of the singleton configuration record.
pub ghost struct ProgramStateView {
    pub authority: Seq<u8>,
    pub collection_name: Seq<char>,
    pub collection_symbol: Seq<char>,
    pub collection_uri: Seq<char>,
    pub gateway_pda: Seq<u8>,
    pub next_token_id: u64,
}

/// The singleton configuration record: created exactly once per
/// deployment; the gateway identity is immutable after creation.
#[derive(Debug)]
pub struct ProgramState {
    /// Identity permitted to (re)configure the system.
    pub authority: Pubkey,
    /// Collection name.
    pub collection_name: String,
    /// Collection symbol.
    pub collection_symbol: String,
    /// Collection metadata URI.
    pub collection_uri: String,
    /// The sole identity authorized to submit bridge calls.
    pub gateway_pda: Pubkey,
    /// Monotonically increasing counter reserved for local ID assignment.
    pub next_token_id: u64,
}

impl View for ProgramState {
    type V = ProgramStateView;

    open spec fn view(&self) -> ProgramStateView {
        ProgramStateView {
            authority: self.authority@,
            collection_name: self.collection_name@,
            collection_symbol: self.collection_symbol@,
            collection_uri: self.collection_uri@,
            gateway_pda: self.gateway_pda@,
            next_token_id: self.next_token_id,
        }
    }
}

impl ProgramState {
    /// Identities are well-formed 32-byte keys.
    pub open spec fn wf(&self) -> bool {
        self.authority.wf() && self.gateway_pda.wf()
    }
}

/// Mathematical model of a per-token record.
pub ghost struct NFTStateView {
    pub universal_token_id: u64,
    pub mint: Seq<u8>,
    pub original_owner: Seq<u8>,
    pub current_owner: Seq<u8>,
    pub uri: Seq<char>,
    pub creator: Seq<u8>,
    pub name: Seq<char>,
    pub symbol: Seq<char>,
    pub royalty_bps: u16,
}

/// The durable record tracking one bridged NFT, keyed by its
/// origin-assigned universal token ID.
#[derive(Debug)]
pub struct NFTState {
    /// Universal token ID assigned by the origin chain; primary key.
    pub universal_token_id: u64,
    /// Handle of the single-unit local representation.
    pub mint: Pubkey,
    /// Raw origin-chain address of the original owner.
    pub original_owner: Vec<u8>,
    /// Local-chain identity currently holding the representation.
    pub current_owner: Pubkey,
    /// Metadata URI.
    pub uri: String,
    /// Raw origin-chain creator address.
    pub creator: Vec<u8>,
    /// Token name.
    pub name: String,
    /// Token symbol.
    pub symbol: String,
    /// Royalty in basis points.
    pub royalty_bps: u16,
}

impl View for NFTState {
    type V = NFTStateView;

    open spec fn view(&self) -> NFTStateView {
        NFTStateView {
            universal_token_id: self.universal_token_id,
            mint: self.mint@,
            original_owner: self.original_owner@,
            current_owner: self.current_owner@,
            uri: self.uri@,
            creator: self.creator@,
            name: self.name@,
            symbol: self.symbol@,
            royalty_bps: self.royalty_bps,
        }
    }
}

impl NFTState {
    /// A copy of this record with the same contents.
    pub fn dup(&self) -> (r: NFTState)
        ensures
            r@ == self@,
    {
        NFTState {
            universal_token_id: self.universal_token_id,
            mint: self.mint.dup(),
            original_owner: bytes_dup(&self.original_owner),
            current_owner: self.current_owner.dup(),
            uri: self.uri.clone(),
            creator: bytes_dup(&self.creator),
            name: self.name.clone(),
            symbol: self.symbol.clone(),
            royalty_bps: self.royalty_bps,
        }
    }
}

/// The lifecycle of one universal token ID on this chain.  A record is
/// created only by mint-from-origin and is kept, terminal and readable,
/// after burn-to-origin; an ID is never reused.
#[derive(Debug)]
pub enum TokenLifecycle {
    /// No mint-from-origin has succeeded for this ID.
    Absent,
    /// The representation exists; the record tracks its holder.
    Active(NFTState),
    /// The representation was burned and returned to the origin chain.
    /// Terminal: no further mutating transition exists.
    Returned(NFTState),
}

/// Which payload shape an inbound envelope carries.
#[derive(Debug, Clone, Copy, PartialEq, Eq, Structural)]
pub enum CrossChainInstructionType {
    MintFromUniversal,
    UpdateMetadata,
}

/// The inbound instruction envelope: an explicit type tag beside the raw
/// payload bytes.
#[derive(Debug)]
pub struct CrossChainInstruction {
    pub instruction_type: CrossChainInstructionType,
    pub payload: Vec<u8>,
}

/// Mathematical model of a mint-from-origin payload.
pub ghost struct MintPayloadView {
    pub universal_token_id: u64,
    pub recipient: Seq<u8>,
    pub uri: Seq<char>,
    pub name: Seq<char>,
    pub symbol: Seq<char>,
    pub creator: Seq<u8>,
    pub royalty_bps: u16,
}

/// Instruction payload creating the local representation of a bridged
/// NFT.
#[derive(Debug)]
pub struct MintFromUniversalPayload {
    pub universal_token_id: u64,
    pub recipient: Pubkey,
    pub uri: String,
    pub name: String,
    pub symbol: String,
    /// Original creator address on the origin chain.
    pub creator: Vec<u8>,
    pub royalty_bps: u16,
}

impl View for MintFromUniversalPayload {
    type V = MintPayloadView;

    open spec fn view(&self) -> MintPayloadView {
        MintPayloadView {
            universal_token_id: self.universal_token_id,
            recipient: self.recipient@,
            uri: self.uri@,
            name: self.name@,
            symbol: self.symbol@,
            creator: self.creator@,
            royalty_bps: self.royalty_bps,
        }
    }
}

/// Mathematical model of an update-metadata payload.
pub ghost struct UpdatePayloadView {
    pub universal_token_id: u64,
    pub new_uri: Seq<char>,
    pub new_name: Seq<char>,
}

/// Instruction payload overwriting a record's display metadata.
#[derive(Debug)]
pub struct UpdateMetadataPayload {
    pub universal_token_id: u64,
    pub new_uri: String,
    pub new_name: String,
}

impl View for UpdateMetadataPayload {
    type V = UpdatePayloadView;

    open spec fn view(&self) -> UpdatePayloadView {
        UpdatePayloadView {
            universal_token_id: self.universal_token_id,
            new_uri: self.new_uri@,
            new_name: self.new_name@,
        }
    }
}

/// Mathematical model of a burn-to-origin payload.
pub ghost struct BurnPayloadView {
    pub universal_token_id: u64,
    pub destination_chain: Seq<u8>,
    pub receiver: Seq<u8>,
    pub original_owner: Seq<u8>,
}

/// Outbound payload telling the origin chain that the representation was
/// burned and the NFT may be reclaimed.
#[derive(Debug)]
pub struct BurnToUniversalPayload {
    pub universal_token_id: u64,
    pub destination_chain: Vec<u8>,
    pub receiver: Vec<u8>,
    pub original_owner: Vec<u8>,
}

impl View for BurnToUniversalPayload {
    type V = BurnPayloadView;

    open spec fn view(&self) -> BurnPayloadView {
        BurnPayloadView {
            universal_token_id: self.universal_token_id,
            destination_chain: self.destination_chain@,
            receiver: self.receiver@,
            original_owner: self.original_owner@,
        }
    }
}

} // verus!
