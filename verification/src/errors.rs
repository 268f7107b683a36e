//! Error kinds surfaced by the protocol's checks.
//!
//! Every check fails closed: a transition returns one of these to its
//! caller and commits nothing.

use vstd::prelude::*;

verus! {

/// The reasons a transition or a decode can be refused.
#[derive(Clone, Copy, Debug, PartialEq, Eq, Structural)]
pub enum UniversalNFTError {
    /// A relayer-gated call came from an identity other than the
    /// configured gateway.
    UnauthorizedGateway,
    /// The instruction envelope or a supplied storage location was
    /// malformed or did not match the derived one.
    InvalidInstructionData,
    /// A payload did not exactly match the expected binary layout.
    InvalidPayload,
    /// A burn was requested by a caller that does not hold exactly one
    /// unit of the representation.
    TokenNotOwned,
    /// An operation named a token with no active per-token record.
    NFTStateNotFound,
    /// The supplied metadata registry location did not match the derived
    /// one.
    InvalidMetadataAccount,
    /// An attempt to mutate display metadata by a party other than the
    /// configured authority.
    UnauthorizedUpdateAuthority,
    /// A mint-from-origin named a token that already has a record.
    AlreadyMinted,
    /// An initialize call arrived while a configuration record already
    /// exists.
    AlreadyInitialized,
}

} // verus!
