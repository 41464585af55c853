use keypair_service::codec::{decode, encode, validate_key_length};
use keypair_service::errors::KeyError;
use keypair_service::keys::generate;

#[test]
fn round_trip_fixed_key() {
    let mut key: Vec<u8> = Vec::new();
    for i in 0..64u8 {
        key.push(i);
    }
    let encoded = encode(&key);
    assert_ne!(encoded, key);
    let decoded = decode(&encoded).unwrap();
    assert_eq!(decoded, key);
}

#[test]
fn round_trip_generated_key() {
    let keypair = generate();
    let raw = keypair.raw.bytes().clone();
    assert_eq!(raw.len(), 64);
    let encoded = encode(&raw);
    let decoded = decode(&encoded).unwrap();
    assert_eq!(decoded, raw);
}

#[test]
fn round_trip_empty() {
    let empty: Vec<u8> = Vec::new();
    let encoded = encode(&empty);
    assert_eq!(encoded.len(), 0);
    let decoded = decode(&encoded).unwrap();
    assert_eq!(decoded.len(), 0);
}

#[test]
fn encode_agrees_with_bs58() {
    let bytes = vec![0u8, 1, 2, 3, 254, 255, 58, 57];
    assert_eq!(encode(&bytes), bs58::encode(&bytes).into_vec());
}

#[test]
fn decode_rejects_non_base58() {
    let text = b"not-valid-%%%".to_vec();
    assert_eq!(decode(&text), Err(KeyError::DecodeError));
}

#[test]
fn decode_rejects_ambiguous_symbols() {
    for bad in [b"0".to_vec(), b"O".to_vec(), b"I".to_vec(), b"l".to_vec()] {
        assert_eq!(decode(&bad), Err(KeyError::DecodeError));
    }
}

#[test]
fn decode_accepts_alphabet() {
    let text = b"123456789ABCDEFGHJKLMNPQRSTUVWXYZabcdefghijkmnopqrstuvwxyz".to_vec();
    assert!(decode(&text).is_ok());
}

#[test]
fn validate_key_length_accepts_64() {
    let bytes = vec![9u8; 64];
    let raw = validate_key_length(bytes.clone()).unwrap();
    assert_eq!(raw.bytes(), &bytes);
}

#[test]
fn validate_key_length_rejects_other_lengths() {
    for n in [0usize, 1, 32, 63, 65, 128] {
        let bytes = vec![9u8; n];
        let r = validate_key_length(bytes);
        assert!(matches!(r, Err(KeyError::InvalidKeyLength)));
    }
}
