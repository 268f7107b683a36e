//! Cross-chain NFT synchronization protocol.
//!
//! A non-fungible token minted on an origin chain is represented on this
//! chain by a single-unit local representation and a durable per-token
//! record.  This crate holds the verified core of that protocol: the
//! payload codec for the cross-chain instruction envelope, deterministic
//! derivation of storage locations, the authorization guard for the sole
//! configured relayer gateway, and the three lifecycle transitions
//! (mint-from-origin, update-metadata, burn-to-origin) as pure decision
//! functions from state and event to new state and requested side effects.
//!
//! The host execution environment (account storage, the unit ledger, the
//! metadata registry, signature verification) performs the requested side
//! effects; every decision it must enforce is produced and proved here.

pub mod errors;
pub mod state;
pub mod codec;
pub mod derivation;
pub mod guard;
pub mod effects;
pub mod instructions;
pub mod emitter;

use vstd::prelude::*;
use crate::codec::{decode_envelope, spec_parse_envelope};
use crate::derivation::StorageLocation;
use crate::effects::{MetadataRegistration, MetadataUpdate, UnitBurn, UnitCreation};
use crate::errors::UniversalNFTError;
use crate::guard::authorize_gateway;
use crate::instructions::burn_to_universal::{spec_burn_post, BurnToUniversalEvent};
use crate::instructions::mint_from_universal::spec_mint_post;
use crate::instructions::update_metadata::spec_update_post;
use crate::state::{BurnToUniversalPayload, CrossChainInstructionType, NFTState, ProgramState,
    ProgramStateView, Pubkey, TokenLifecycle};

verus! {

/// One-time setup of the singleton configuration record.
///
/// `config_exists` is whether the host environment already holds a
/// configuration record at its derived location.  Succeeds exactly
/// when none exists yet; the created record carries the given
/// collection strings and gateway identity, and starts its token ID
/// counter at one.
pub fn initialize(
    config_exists: bool,
    authority: &Pubkey,
    collection_name: String,
    collection_symbol: String,
    collection_uri: String,
    gateway_pda: &Pubkey,
) -> (r: Result<ProgramState, UniversalNFTError>)
    ensures
        r is Ok <==> !config_exists,
        r is Err ==> r == Err::<ProgramState, _>(UniversalNFTError::AlreadyInitialized),
        (r matches Ok(s) ==> s@ == (ProgramStateView {
            authority: authority@,
            collection_name: collection_name@,
            collection_symbol: collection_symbol@,
            collection_uri: collection_uri@,
            gateway_pda: gateway_pda@,
            next_token_id: 1,
        })),
{
    if config_exists {
        return Err(UniversalNFTError::AlreadyInitialized);
    }
    Ok(
        ProgramState {
            authority: authority.dup(),
            collection_name,
            collection_symbol,
            collection_uri,
            gateway_pda: gateway_pda.dup(),
            next_token_id: 1,
        },
    )
}

/// What an accepted inbound cross-chain call produced.
#[derive(Debug)]
pub enum OnCallOutcome {
    /// A representation was minted: the new record, the unit creation
    /// request, and the metadata registration request.
    Minted(NFTState, UnitCreation, MetadataRegistration),
    /// A record's display metadata was rewritten: the new record and
    /// the registry update request.
    Updated(NFTState, MetadataUpdate),
}

/// Entry point for inbound bridge messages: mint-from-origin and
/// update-metadata, dispatched on the envelope's type tag.
///
/// The authorization guard runs first: only the configured relayer
/// gateway is accepted.  Then the envelope is decoded and the selected
/// transition applied to the state at the caller-supplied locations,
/// each promising exactly what its own transition promises.  Nothing
/// is mutated: a failed call leaves every record as it was.
pub fn on_call(
    caller: &Pubkey,
    program_state: &ProgramState,
    lifecycle: &TokenLifecycle,
    nft_state_location: &StorageLocation,
    mint_location: &StorageLocation,
    mint: &Pubkey,
    data: &Vec<u8>,
) -> (r: Result<OnCallOutcome, UniversalNFTError>)
    ensures
        (caller@ != program_state.gateway_pda@ ==> r == Err::<OnCallOutcome, _>(
            UniversalNFTError::UnauthorizedGateway,
        )),
        caller@ == program_state.gateway_pda@ ==> match spec_parse_envelope(data@) {
            None => r == Err::<OnCallOutcome, _>(UniversalNFTError::InvalidInstructionData),
            Some((t, payload)) => match t {
                CrossChainInstructionType::MintFromUniversal => match r {
                    Ok(out) => out matches OnCallOutcome::Minted(record, unit, meta)
                        && spec_mint_post(
                        Ok((record, unit, meta)),
                        *lifecycle,
                        nft_state_location@,
                        mint_location@,
                        mint@,
                        payload,
                    ),
                    Err(e) => spec_mint_post(
                        Err(e),
                        *lifecycle,
                        nft_state_location@,
                        mint_location@,
                        mint@,
                        payload,
                    ),
                },
                CrossChainInstructionType::UpdateMetadata => match r {
                    Ok(out) => out matches OnCallOutcome::Updated(record, meta)
                        && spec_update_post(
                        Ok((record, meta)),
                        *lifecycle,
                        nft_state_location@,
                        payload,
                    ),
                    Err(e) => spec_update_post(
                        Err(e),
                        *lifecycle,
                        nft_state_location@,
                        payload,
                    ),
                },
            },
        },
{
    match authorize_gateway(caller, program_state) {
        Ok(()) => {},
        Err(e) => {
            return Err(e);
        },
    }
    let ins = match decode_envelope(data) {
        Ok(ins) => ins,
        Err(e) => {
            return Err(e);
        },
    };
    match ins.instruction_type {
        CrossChainInstructionType::MintFromUniversal => {
            match instructions::mint_from_universal::handler(
                lifecycle,
                nft_state_location,
                mint_location,
                mint,
                &ins.payload,
            ) {
                Ok((record, unit, meta)) => Ok(OnCallOutcome::Minted(record, unit, meta)),
                Err(e) => Err(e),
            }
        },
        CrossChainInstructionType::UpdateMetadata => {
            match instructions::update_metadata::handler(
                lifecycle,
                nft_state_location,
                &ins.payload,
            ) {
                Ok((record, meta)) => Ok(OnCallOutcome::Updated(record, meta)),
                Err(e) => Err(e),
            }
        },
    }
}

/// Entry point for the return path: the local holder burns the
/// representation so the origin chain can release the NFT.  Promises
/// exactly what the burn transition promises.
pub fn burn_to_universal(
    caller: &Pubkey,
    lifecycle: &TokenLifecycle,
    universal_token_id: u64,
    nft_state_location: &StorageLocation,
    held_quantity: u64,
    destination_chain: Vec<u8>,
    receiver: Vec<u8>,
) -> (r: Result<
    (TokenLifecycle, UnitBurn, BurnToUniversalPayload, BurnToUniversalEvent),
    UniversalNFTError,
>)
    ensures
        spec_burn_post(
            r,
            caller@,
            *lifecycle,
            universal_token_id,
            nft_state_location@,
            held_quantity,
            destination_chain@,
            receiver@,
        ),
{
    instructions::burn_to_universal::handler(
        caller,
        lifecycle,
        universal_token_id,
        nft_state_location,
        held_quantity,
        destination_chain,
        receiver,
    )
}

} // verus!
