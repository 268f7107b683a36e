//! Side effects a transition requests from the external collaborators.
//!
//! The state machine itself mutates nothing outside its records: it
//! returns one of these values and the host execution environment
//! performs the request within the same atomic unit of work, so that
//! either the whole transition commits or none of it does.

use vstd::prelude::*;
use crate::state::Pubkey;

verus! {

/// Request to the external unit ledger: create the single-unit local
/// representation and hand it to its first owner.
#[derive(Debug)]
pub struct UnitCreation {
    /// Handle of the unit to create.
    pub unit: Pubkey,
    /// First owner of the unit.
    pub owner: Pubkey,
    /// Number of units to mint.
    pub quantity: u64,
}

/// Request to the external metadata registry: register the display
/// attributes of a freshly minted representation.
#[derive(Debug)]
pub struct MetadataRegistration {
    /// Handle of the unit the attributes describe.
    pub unit: Pubkey,
    pub name: String,
    pub symbol: String,
    pub uri: String,
    pub royalty_bps: u16,
    /// Raw origin-chain creator address.
    pub creator: Vec<u8>,
}

/// Request to the external metadata registry: overwrite name and URI,
/// keeping symbol, royalty and creators unchanged.
#[derive(Debug)]
pub struct MetadataUpdate {
    /// Handle of the unit the attributes describe.
    pub unit: Pubkey,
    pub new_name: String,
    pub new_uri: String,
    /// Carried over unchanged from the record.
    pub symbol: String,
    /// Carried over unchanged from the record.
    pub royalty_bps: u16,
}

/// Request to the external unit ledger: destroy the caller's unit.
#[derive(Debug)]
pub struct UnitBurn {
    /// Handle of the unit to destroy.
    pub unit: Pubkey,
    /// Holder whose unit is destroyed.
    pub owner: Pubkey,
    /// Number of units to destroy.
    pub quantity: u64,
}

} // verus!
