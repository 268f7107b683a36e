use universal_nft::codec::{decode_burn, decode_envelope, decode_mint, decode_update, encode_burn,
    encode_envelope, encode_mint, encode_update};
use universal_nft::errors::UniversalNFTError;
use universal_nft::state::{BurnToUniversalPayload, CrossChainInstruction,
    CrossChainInstructionType, MintFromUniversalPayload, Pubkey, UpdateMetadataPayload};

fn key(b: u8) -> Pubkey {
    Pubkey::new(vec![b; 32])
}

fn sample_mint_payload() -> MintFromUniversalPayload {
    MintFromUniversalPayload {
        universal_token_id: 42,
        recipient: key(7),
        uri: "ipfs://x".to_string(),
        name: "Alpha".to_string(),
        symbol: "ALP".to_string(),
        creator: vec![0xAA, 0xBB, 0xCC],
        royalty_bps: 500,
    }
}

#[test]
fn mint_payload_round_trips() {
    let p = sample_mint_payload();
    let bytes = encode_mint(&p).unwrap();
    let q = decode_mint(&bytes).unwrap();
    assert_eq!(q.universal_token_id, 42);
    assert_eq!(q.recipient, key(7));
    assert_eq!(q.uri, "ipfs://x");
    assert_eq!(q.name, "Alpha");
    assert_eq!(q.symbol, "ALP");
    assert_eq!(q.creator, vec![0xAA, 0xBB, 0xCC]);
    assert_eq!(q.royalty_bps, 500);
}

#[test]
fn update_payload_round_trips() {
    let p = UpdateMetadataPayload {
        universal_token_id: u64::MAX,
        new_uri: "".to_string(),
        new_name: "renamed \u{00e9}".to_string(),
    };
    let bytes = encode_update(&p).unwrap();
    let q = decode_update(&bytes).unwrap();
    assert_eq!(q.universal_token_id, u64::MAX);
    assert_eq!(q.new_uri, "");
    assert_eq!(q.new_name, "renamed \u{00e9}");
}

#[test]
fn burn_payload_round_trips() {
    let p = BurnToUniversalPayload {
        universal_token_id: 9,
        destination_chain: vec![1, 2],
        receiver: vec![],
        original_owner: vec![0xFE; 20],
    };
    let bytes = encode_burn(&p).unwrap();
    let q = decode_burn(&bytes).unwrap();
    assert_eq!(q.universal_token_id, 9);
    assert_eq!(q.destination_chain, vec![1, 2]);
    assert_eq!(q.receiver, Vec::<u8>::new());
    assert_eq!(q.original_owner, vec![0xFE; 20]);
}

#[test]
fn envelope_round_trips() {
    let ins = CrossChainInstruction {
        instruction_type: CrossChainInstructionType::UpdateMetadata,
        payload: vec![1, 2, 3],
    };
    let bytes = encode_envelope(&ins).unwrap();
    let out = decode_envelope(&bytes).unwrap();
    assert_eq!(out.instruction_type, CrossChainInstructionType::UpdateMetadata);
    assert_eq!(out.payload, vec![1, 2, 3]);
}

#[test]
fn update_payload_exact_bytes() {
    let p = UpdateMetadataPayload {
        universal_token_id: 1,
        new_uri: "a".to_string(),
        new_name: "b".to_string(),
    };
    let bytes = encode_update(&p).unwrap();
    let expected: Vec<u8> = vec![
        1, 0, 0, 0, 0, 0, 0, 0, // id, little-endian u64
        1, 0, 0, 0, b'a', // uri: u32 length prefix + UTF-8 bytes
        1, 0, 0, 0, b'b', // name
    ];
    assert_eq!(bytes, expected);
}

#[test]
fn mint_payload_exact_bytes() {
    let p = sample_mint_payload();
    let bytes = encode_mint(&p).unwrap();
    let mut expected: Vec<u8> = vec![42, 0, 0, 0, 0, 0, 0, 0];
    expected.extend_from_slice(&[7u8; 32]);
    expected.extend_from_slice(&[8, 0, 0, 0]);
    expected.extend_from_slice(b"ipfs://x");
    expected.extend_from_slice(&[5, 0, 0, 0]);
    expected.extend_from_slice(b"Alpha");
    expected.extend_from_slice(&[3, 0, 0, 0]);
    expected.extend_from_slice(b"ALP");
    expected.extend_from_slice(&[3, 0, 0, 0, 0xAA, 0xBB, 0xCC]);
    expected.extend_from_slice(&[0xF4, 0x01]); // 500, little-endian u16
    assert_eq!(bytes, expected);
}

#[test]
fn truncated_bytes_are_invalid_payload() {
    let p = sample_mint_payload();
    let bytes = encode_mint(&p).unwrap();
    for cut in 0..bytes.len() {
        let r = decode_mint(&bytes[..cut].to_vec());
        assert!(matches!(r, Err(UniversalNFTError::InvalidPayload)));
    }
}

#[test]
fn trailing_garbage_is_invalid_payload() {
    let p = sample_mint_payload();
    let mut bytes = encode_mint(&p).unwrap();
    bytes.push(0);
    assert!(matches!(decode_mint(&bytes), Err(UniversalNFTError::InvalidPayload)));

    let u = UpdateMetadataPayload {
        universal_token_id: 3,
        new_uri: "u".to_string(),
        new_name: "n".to_string(),
    };
    let mut ub = encode_update(&u).unwrap();
    ub.push(7);
    assert!(matches!(decode_update(&ub), Err(UniversalNFTError::InvalidPayload)));
}

#[test]
fn non_utf8_string_field_is_invalid_payload() {
    // id, then a one-byte uri holding 0xFF: not valid UTF-8.
    let bytes: Vec<u8> = vec![
        1, 0, 0, 0, 0, 0, 0, 0, //
        1, 0, 0, 0, 0xFF, //
        1, 0, 0, 0, b'b',
    ];
    assert!(matches!(decode_update(&bytes), Err(UniversalNFTError::InvalidPayload)));
}

#[test]
fn overlong_length_prefix_is_invalid_payload() {
    // A length prefix pointing past the end of the input.
    let bytes: Vec<u8> = vec![
        1, 0, 0, 0, 0, 0, 0, 0, //
        200, 0, 0, 0, b'a',
    ];
    assert!(matches!(decode_update(&bytes), Err(UniversalNFTError::InvalidPayload)));
}

#[test]
fn empty_input_is_rejected() {
    assert!(matches!(decode_mint(&Vec::new()), Err(UniversalNFTError::InvalidPayload)));
    assert!(matches!(decode_update(&Vec::new()), Err(UniversalNFTError::InvalidPayload)));
    assert!(matches!(decode_burn(&Vec::new()), Err(UniversalNFTError::InvalidPayload)));
    assert!(matches!(decode_envelope(&Vec::new()), Err(UniversalNFTError::InvalidInstructionData)));
}

#[test]
fn unknown_envelope_tag_is_invalid_instruction_data() {
    let bytes: Vec<u8> = vec![9, 1, 0, 0, 0, 0];
    assert!(matches!(decode_envelope(&bytes), Err(UniversalNFTError::InvalidInstructionData)));
}

#[test]
fn envelope_trailing_garbage_is_invalid_instruction_data() {
    let ins = CrossChainInstruction {
        instruction_type: CrossChainInstructionType::MintFromUniversal,
        payload: vec![4],
    };
    let mut bytes = encode_envelope(&ins).unwrap();
    bytes.push(0);
    assert!(matches!(decode_envelope(&bytes), Err(UniversalNFTError::InvalidInstructionData)));
}

#[test]
fn encode_rejects_malformed_recipient() {
    let mut p = sample_mint_payload();
    p.recipient = Pubkey::new(vec![1, 2, 3]);
    assert!(matches!(encode_mint(&p), Err(UniversalNFTError::InvalidPayload)));
}
