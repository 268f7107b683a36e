use universal_nft::codec::{encode_envelope, encode_mint, encode_update};
use universal_nft::derivation::{derive_nft_mint_location, derive_nft_state_location,
    derive_program_state_location, location_eq};
use universal_nft::errors::UniversalNFTError;
use universal_nft::instructions::burn_to_universal;
use universal_nft::instructions::mint_from_universal;
use universal_nft::instructions::update_metadata;
use universal_nft::state::{CrossChainInstruction, CrossChainInstructionType,
    MintFromUniversalPayload, ProgramState, Pubkey, TokenLifecycle, UpdateMetadataPayload};
use universal_nft::{burn_to_universal as burn_entry, initialize, on_call, OnCallOutcome};

fn key(b: u8) -> Pubkey {
    Pubkey::new(vec![b; 32])
}

fn sample_config() -> ProgramState {
    initialize(
        false,
        &key(1),
        "Bridged".to_string(),
        "BRG".to_string(),
        "ipfs://collection".to_string(),
        &key(2),
    )
    .unwrap()
}

fn mint_bytes(id: u64, recipient: &Pubkey) -> Vec<u8> {
    let p = MintFromUniversalPayload {
        universal_token_id: id,
        recipient: recipient.dup(),
        uri: "ipfs://x".to_string(),
        name: "Alpha".to_string(),
        symbol: "ALP".to_string(),
        creator: vec![0xC0, 0xFF, 0xEE],
        royalty_bps: 500,
    };
    encode_mint(&p).unwrap()
}

fn minted_record(id: u64, recipient: &Pubkey) -> universal_nft::state::NFTState {
    let payload = mint_bytes(id, recipient);
    let (record, _, _) = mint_from_universal::handler(
        &TokenLifecycle::Absent,
        &derive_nft_state_location(id),
        &derive_nft_mint_location(id),
        &key(9),
        &payload,
    )
    .unwrap();
    record
}

#[test]
fn initialize_sets_up_the_configuration() {
    let config = sample_config();
    assert_eq!(config.authority, key(1));
    assert_eq!(config.collection_name, "Bridged");
    assert_eq!(config.collection_symbol, "BRG");
    assert_eq!(config.collection_uri, "ipfs://collection");
    assert_eq!(config.gateway_pda, key(2));
    assert_eq!(config.next_token_id, 1);
}

#[test]
fn initialize_refuses_a_second_configuration() {
    let r = initialize(
        true,
        &key(1),
        "Bridged".to_string(),
        "BRG".to_string(),
        "ipfs://collection".to_string(),
        &key(2),
    );
    assert!(matches!(r, Err(UniversalNFTError::AlreadyInitialized)));
}

#[test]
fn mint_from_origin_creates_the_record_and_one_unit() {
    let recipient = key(7);
    let mint = key(9);
    let payload = mint_bytes(42, &recipient);
    let (record, unit, meta) = mint_from_universal::handler(
        &TokenLifecycle::Absent,
        &derive_nft_state_location(42),
        &derive_nft_mint_location(42),
        &mint,
        &payload,
    )
    .unwrap();
    assert_eq!(record.universal_token_id, 42);
    assert_eq!(record.current_owner, recipient);
    assert_eq!(record.royalty_bps, 500);
    assert_eq!(record.mint, mint);
    assert_eq!(record.uri, "ipfs://x");
    assert_eq!(record.name, "Alpha");
    assert_eq!(record.symbol, "ALP");
    assert_eq!(record.original_owner, vec![0xC0, 0xFF, 0xEE]);
    assert_eq!(record.creator, vec![0xC0, 0xFF, 0xEE]);
    // Exactly one unit is created under the external ledger, owned by
    // the recipient.
    assert_eq!(unit.quantity, 1);
    assert_eq!(unit.owner, recipient);
    assert_eq!(unit.unit, mint);
    assert_eq!(meta.name, "Alpha");
    assert_eq!(meta.symbol, "ALP");
    assert_eq!(meta.uri, "ipfs://x");
    assert_eq!(meta.royalty_bps, 500);
    assert_eq!(meta.creator, vec![0xC0, 0xFF, 0xEE]);
}

#[test]
fn mint_twice_with_the_same_id_fails_on_the_second_call() {
    let recipient = key(7);
    let record = minted_record(42, &recipient);
    let payload = mint_bytes(42, &recipient);
    let active = TokenLifecycle::Active(record);
    let r = mint_from_universal::handler(
        &active,
        &derive_nft_state_location(42),
        &derive_nft_mint_location(42),
        &key(9),
        &payload,
    );
    assert!(matches!(r, Err(UniversalNFTError::AlreadyMinted)));
    // The existing record is untouched.
    match active {
        TokenLifecycle::Active(rec) => {
            assert_eq!(rec.universal_token_id, 42);
            assert_eq!(rec.current_owner, recipient);
            assert_eq!(rec.uri, "ipfs://x");
        },
        _ => panic!("record vanished"),
    }
}

#[test]
fn mint_rejects_a_spoofed_storage_location() {
    let recipient = key(7);
    let payload = mint_bytes(42, &recipient);
    // Locations derived for a different token ID.
    let r = mint_from_universal::handler(
        &TokenLifecycle::Absent,
        &derive_nft_state_location(43),
        &derive_nft_mint_location(42),
        &key(9),
        &payload,
    );
    assert!(matches!(r, Err(UniversalNFTError::InvalidInstructionData)));
}

#[test]
fn update_from_a_stranger_fails_unauthorized_and_changes_nothing() {
    let config = sample_config();
    let record = minted_record(42, &key(7));
    let active = TokenLifecycle::Active(record);
    let r = update_metadata::update_metadata_handler(
        &key(3), // not the configured gateway
        &config,
        &active,
        &derive_nft_state_location(42),
        42,
        "ipfs://new".to_string(),
        "Beta".to_string(),
    );
    assert!(matches!(r, Err(UniversalNFTError::UnauthorizedGateway)));
    // uri and name are left unchanged.
    match active {
        TokenLifecycle::Active(rec) => {
            assert_eq!(rec.uri, "ipfs://x");
            assert_eq!(rec.name, "Alpha");
        },
        _ => panic!("record vanished"),
    }
}

#[test]
fn update_from_the_gateway_rewrites_uri_and_name_only() {
    let config = sample_config();
    let record = minted_record(42, &key(7));
    let active = TokenLifecycle::Active(record);
    let (updated, meta) = update_metadata::update_metadata_handler(
        &key(2),
        &config,
        &active,
        &derive_nft_state_location(42),
        42,
        "ipfs://new".to_string(),
        "Beta".to_string(),
    )
    .unwrap();
    assert_eq!(updated.uri, "ipfs://new");
    assert_eq!(updated.name, "Beta");
    assert_eq!(updated.symbol, "ALP");
    assert_eq!(updated.royalty_bps, 500);
    assert_eq!(updated.current_owner, key(7));
    assert_eq!(meta.symbol, "ALP");
    assert_eq!(meta.royalty_bps, 500);
    assert_eq!(meta.new_uri, "ipfs://new");
    assert_eq!(meta.new_name, "Beta");
}

#[test]
fn update_without_a_record_is_not_found() {
    let config = sample_config();
    let r = update_metadata::update_metadata_handler(
        &key(2),
        &config,
        &TokenLifecycle::Absent,
        &derive_nft_state_location(42),
        42,
        "ipfs://new".to_string(),
        "Beta".to_string(),
    );
    assert!(matches!(r, Err(UniversalNFTError::NFTStateNotFound)));
}

#[test]
fn update_is_idempotent() {
    let record = minted_record(42, &key(7));
    let once = update_metadata::handler(
        &TokenLifecycle::Active(record),
        &derive_nft_state_location(42),
        &encode_update(&UpdateMetadataPayload {
            universal_token_id: 42,
            new_uri: "ipfs://new".to_string(),
            new_name: "Beta".to_string(),
        })
        .unwrap(),
    )
    .unwrap()
    .0;
    let twice = update_metadata::handler(
        &TokenLifecycle::Active(once.dup()),
        &derive_nft_state_location(42),
        &encode_update(&UpdateMetadataPayload {
            universal_token_id: 42,
            new_uri: "ipfs://new".to_string(),
            new_name: "Beta".to_string(),
        })
        .unwrap(),
    )
    .unwrap()
    .0;
    assert_eq!(once.uri, twice.uri);
    assert_eq!(once.name, twice.name);
    assert_eq!(once.symbol, twice.symbol);
    assert_eq!(once.royalty_bps, twice.royalty_bps);
}

#[test]
fn burn_without_exactly_one_unit_is_refused() {
    let owner = key(7);
    let record = minted_record(42, &owner);
    let active = TokenLifecycle::Active(record);
    for held in [0u64, 2, 5] {
        let r = burn_to_universal::handler(
            &owner,
            &active,
            42,
            &derive_nft_state_location(42),
            held,
            vec![1],
            vec![2],
        );
        assert!(matches!(r, Err(UniversalNFTError::TokenNotOwned)));
    }
    // A non-owner holding one unit of something is refused too.
    let r = burn_to_universal::handler(
        &key(8),
        &active,
        42,
        &derive_nft_state_location(42),
        1,
        vec![1],
        vec![2],
    );
    assert!(matches!(r, Err(UniversalNFTError::TokenNotOwned)));
}

#[test]
fn burn_with_one_unit_destroys_it_and_emits_the_event() {
    let owner = key(7);
    let record = minted_record(42, &owner);
    let active = TokenLifecycle::Active(record);
    let (next, burn, payload, event) = burn_to_universal::handler(
        &owner,
        &active,
        42,
        &derive_nft_state_location(42),
        1,
        vec![0x01, 0x02],
        vec![0x03],
    )
    .unwrap();
    assert!(matches!(next, TokenLifecycle::Returned(_)));
    assert_eq!(burn.quantity, 1);
    assert_eq!(burn.unit, key(9));
    assert_eq!(burn.owner, owner);
    assert_eq!(payload.universal_token_id, 42);
    assert_eq!(payload.destination_chain, vec![0x01, 0x02]);
    assert_eq!(payload.receiver, vec![0x03]);
    assert_eq!(payload.original_owner, vec![0xC0, 0xFF, 0xEE]);
    // The event carries the original owner and the display identity.
    assert_eq!(event.original_owner, vec![0xC0, 0xFF, 0xEE]);
    assert_eq!(event.uri, "ipfs://x");
    assert_eq!(event.name, "Alpha");
    assert_eq!(event.creator, vec![0xC0, 0xFF, 0xEE]);
    assert_eq!(event.destination_chain, vec![0x01, 0x02]);
    assert_eq!(event.receiver, vec![0x03]);
}

#[test]
fn burn_of_a_returned_record_is_not_found() {
    let owner = key(7);
    let record = minted_record(42, &owner);
    let returned = TokenLifecycle::Returned(record);
    let r = burn_to_universal::handler(
        &owner,
        &returned,
        42,
        &derive_nft_state_location(42),
        1,
        vec![1],
        vec![2],
    );
    assert!(matches!(r, Err(UniversalNFTError::NFTStateNotFound)));
}

#[test]
fn burn_entry_point_forwards_to_the_transition() {
    let owner = key(7);
    let record = minted_record(42, &owner);
    let active = TokenLifecycle::Active(record);
    let (_, burn, payload, _) = burn_entry(
        &owner,
        &active,
        42,
        &derive_nft_state_location(42),
        1,
        vec![0xD0],
        vec![0xD1],
    )
    .unwrap();
    assert_eq!(burn.quantity, 1);
    assert_eq!(payload.destination_chain, vec![0xD0]);
}

#[test]
fn on_call_refuses_a_caller_that_is_not_the_gateway() {
    let config = sample_config();
    let envelope = encode_envelope(&CrossChainInstruction {
        instruction_type: CrossChainInstructionType::MintFromUniversal,
        payload: mint_bytes(42, &key(7)),
    })
    .unwrap();
    let r = on_call(
        &key(3),
        &config,
        &TokenLifecycle::Absent,
        &derive_nft_state_location(42),
        &derive_nft_mint_location(42),
        &key(9),
        &envelope,
    );
    assert!(matches!(r, Err(UniversalNFTError::UnauthorizedGateway)));
}

#[test]
fn on_call_dispatches_a_mint_envelope() {
    let config = sample_config();
    let envelope = encode_envelope(&CrossChainInstruction {
        instruction_type: CrossChainInstructionType::MintFromUniversal,
        payload: mint_bytes(42, &key(7)),
    })
    .unwrap();
    let out = on_call(
        &key(2),
        &config,
        &TokenLifecycle::Absent,
        &derive_nft_state_location(42),
        &derive_nft_mint_location(42),
        &key(9),
        &envelope,
    )
    .unwrap();
    match out {
        OnCallOutcome::Minted(record, unit, _) => {
            assert_eq!(record.universal_token_id, 42);
            assert_eq!(record.current_owner, key(7));
            assert_eq!(unit.quantity, 1);
        },
        _ => panic!("expected a mint outcome"),
    }
}

#[test]
fn on_call_dispatches_an_update_envelope() {
    let config = sample_config();
    let record = minted_record(42, &key(7));
    let envelope = encode_envelope(&CrossChainInstruction {
        instruction_type: CrossChainInstructionType::UpdateMetadata,
        payload: encode_update(&UpdateMetadataPayload {
            universal_token_id: 42,
            new_uri: "ipfs://new".to_string(),
            new_name: "Beta".to_string(),
        })
        .unwrap(),
    })
    .unwrap();
    let out = on_call(
        &key(2),
        &config,
        &TokenLifecycle::Active(record),
        &derive_nft_state_location(42),
        &derive_nft_mint_location(42),
        &key(9),
        &envelope,
    )
    .unwrap();
    match out {
        OnCallOutcome::Updated(record, meta) => {
            assert_eq!(record.uri, "ipfs://new");
            assert_eq!(record.name, "Beta");
            assert_eq!(record.symbol, "ALP");
            assert_eq!(meta.symbol, "ALP");
        },
        _ => panic!("expected an update outcome"),
    }
}

#[test]
fn on_call_refuses_a_malformed_envelope() {
    let config = sample_config();
    let r = on_call(
        &key(2),
        &config,
        &TokenLifecycle::Absent,
        &derive_nft_state_location(42),
        &derive_nft_mint_location(42),
        &key(9),
        &vec![0xFFu8, 0x00],
    );
    assert!(matches!(r, Err(UniversalNFTError::InvalidInstructionData)));
}

#[test]
fn emitted_notification_carries_payload_then_display_fields() {
    let owner = key(7);
    let record = minted_record(42, &owner);
    let active = TokenLifecycle::Active(record);
    let (_, _, payload, event) = burn_to_universal::handler(
        &owner,
        &active,
        42,
        &derive_nft_state_location(42),
        1,
        vec![0x01, 0x02],
        vec![0x03],
    )
    .unwrap();
    let bytes = universal_nft::emitter::emit(&event).unwrap();
    let payload_bytes = universal_nft::codec::encode_burn(&payload).unwrap();
    assert_eq!(&bytes[..payload_bytes.len()], &payload_bytes[..]);
    let mut tail: Vec<u8> = Vec::new();
    tail.extend_from_slice(&[8, 0, 0, 0]);
    tail.extend_from_slice(b"ipfs://x");
    tail.extend_from_slice(&[5, 0, 0, 0]);
    tail.extend_from_slice(b"Alpha");
    tail.extend_from_slice(&[3, 0, 0, 0, 0xC0, 0xFF, 0xEE]);
    assert_eq!(&bytes[payload_bytes.len()..], &tail[..]);
}

#[test]
fn derivation_is_deterministic_and_collision_free() {
    let a = derive_nft_state_location(42);
    let b = derive_nft_state_location(42);
    assert!(location_eq(&a, &b));
    assert_eq!(a, b);
    // Different token IDs never collide.
    assert!(!location_eq(&a, &derive_nft_state_location(43)));
    // Different record kinds never collide.
    assert!(!location_eq(&a, &derive_nft_mint_location(42)));
    assert!(!location_eq(&a, &derive_program_state_location()));
    assert!(!location_eq(&derive_nft_mint_location(42), &derive_program_state_location()));
}
