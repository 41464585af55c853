use keypair_service::codec::encode;
use keypair_service::errors::KeyError;
use keypair_service::keys::generate;
use keypair_service::store::KeyStore;

#[test]
fn save_then_load_round_trips() {
    let keypair = generate();
    let mut store = KeyStore::new();
    store.save(&keypair.raw, &keypair.public);
    let loaded = store.load().unwrap();
    assert_eq!(loaded.raw.bytes(), keypair.raw.bytes());
    assert_eq!(loaded.public.bytes(), keypair.public.bytes());
}

#[test]
fn record_text_has_the_persisted_format() {
    let keypair = generate();
    let mut store = KeyStore::new();
    store.save(&keypair.raw, &keypair.public);
    let text = store.record_text().unwrap();
    let mut expected = b"PRIVATE_KEY=".to_vec();
    expected.extend_from_slice(&bs58::encode(keypair.raw.bytes()).into_vec());
    expected.push(b'\n');
    expected.extend_from_slice(b"PUBLIC_KEY=");
    expected.extend_from_slice(&bs58::encode(keypair.public.bytes()).into_vec());
    expected.push(b'\n');
    assert_eq!(text, expected);
}

#[test]
fn record_text_round_trips_through_parsing() {
    let keypair = generate();
    let mut store = KeyStore::new();
    store.save(&keypair.raw, &keypair.public);
    let text = store.record_text().unwrap();
    let reloaded = KeyStore::from_record_text(&text);
    let loaded = reloaded.load().unwrap();
    assert_eq!(loaded.public.bytes(), keypair.public.bytes());
    assert_eq!(loaded.raw.bytes(), keypair.raw.bytes());
}

#[test]
fn fields_are_found_in_either_line_order() {
    let keypair = generate();
    let mut store = KeyStore::new();
    store.save(&keypair.raw, &keypair.public);
    let mut text = b"PUBLIC_KEY=".to_vec();
    text.extend_from_slice(&bs58::encode(keypair.public.bytes()).into_vec());
    text.push(b'\n');
    text.extend_from_slice(b"PRIVATE_KEY=");
    text.extend_from_slice(&bs58::encode(keypair.raw.bytes()).into_vec());
    text.push(b'\n');
    let reloaded = KeyStore::from_record_text(&text);
    let loaded = reloaded.load().unwrap();
    assert_eq!(loaded.public.bytes(), keypair.public.bytes());
}

#[test]
fn corrupting_one_character_gives_decode_error() {
    let keypair = generate();
    let mut store = KeyStore::new();
    store.save(&keypair.raw, &keypair.public);
    let mut text = store.record_text().unwrap();
    // The first byte of the private-key value, right after `PRIVATE_KEY=`.
    assert_eq!(&text[..12], b"PRIVATE_KEY=");
    text[12] = b'0'; // `0` is outside the base58 alphabet
    let corrupted = KeyStore::from_record_text(&text);
    assert!(matches!(corrupted.load(), Err(KeyError::DecodeError)));
}

#[test]
fn truncated_key_material_gives_invalid_length() {
    let short = vec![5u8; 63];
    let encoded = encode(&short);
    let store = KeyStore::from_fields(Some(encoded), None);
    assert!(matches!(store.load(), Err(KeyError::InvalidKeyLength)));
}

#[test]
fn mismatched_key_halves_give_malformed_material() {
    // 64 bytes that decode fine but whose public half is not the one the
    // secret half derives to.
    let bogus = vec![0u8; 64];
    let encoded = encode(&bogus);
    let store = KeyStore::from_fields(Some(encoded), None);
    assert!(matches!(store.load(), Err(KeyError::MalformedKeyMaterial)));
}

#[test]
fn missing_private_key_gives_missing_key() {
    let empty = KeyStore::new();
    assert!(matches!(empty.load(), Err(KeyError::MissingKey)));
    let keypair = generate();
    let only_public = KeyStore::from_fields(
        None,
        Some(bs58::encode(keypair.public.bytes()).into_vec()),
    );
    assert!(matches!(only_public.load(), Err(KeyError::MissingKey)));
}

#[test]
fn missing_field_in_text_gives_missing_key() {
    let keypair = generate();
    let mut text = b"PUBLIC_KEY=".to_vec();
    text.extend_from_slice(&bs58::encode(keypair.public.bytes()).into_vec());
    text.push(b'\n');
    let store = KeyStore::from_record_text(&text);
    assert!(matches!(store.load(), Err(KeyError::MissingKey)));
    let empty = KeyStore::from_record_text(&Vec::new());
    assert!(matches!(empty.load(), Err(KeyError::MissingKey)));
}

#[test]
fn second_save_overwrites_the_first_in_full() {
    let first = generate();
    let second = generate();
    let mut store = KeyStore::new();
    store.save(&first.raw, &first.public);
    store.save(&second.raw, &second.public);
    let loaded = store.load().unwrap();
    assert_eq!(loaded.public.bytes(), second.public.bytes());
    assert_eq!(loaded.raw.bytes(), second.raw.bytes());
    // The record text is exactly what a fresh store with only the second
    // keypair would write: no trace of the first remains.
    let mut fresh = KeyStore::new();
    fresh.save(&second.raw, &second.public);
    assert_eq!(store.record_text(), fresh.record_text());
}
