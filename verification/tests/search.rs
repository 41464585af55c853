use keypair_service::errors::KeyError;
use keypair_service::keys::from_raw;
use keypair_service::search::{search, search_attempts};

#[test]
fn prefix_too_long_is_rejected() {
    let prefix = b"toolong".to_vec();
    let r = search(&prefix);
    assert!(matches!(r, Err(KeyError::PrefixTooLong)));
    let four = b"ABCD".to_vec();
    let r = search_attempts(&four, 10);
    assert!(matches!(r, Err(KeyError::PrefixTooLong)));
}

#[test]
fn no_prefix_returns_after_one_attempt() {
    let empty: Vec<u8> = Vec::new();
    let outcome = search(&empty).unwrap();
    assert_eq!(outcome.attempts, 1);
    // The reported public identifier is the one the raw material derives to.
    let derived = from_raw(&outcome.keypair.raw).unwrap();
    assert_eq!(derived.bytes(), outcome.keypair.public.bytes());
    // The reported text is the base58 encoding of the public identifier.
    assert_eq!(
        outcome.encoded_public,
        bs58::encode(outcome.keypair.public.bytes()).into_vec()
    );
}

#[test]
fn one_char_prefix_search_matches() {
    let prefix = b"A".to_vec();
    let outcome = search_attempts(&prefix, 1_000_000).unwrap();
    assert!(outcome.attempts >= 1);
    assert!(outcome.encoded_public.starts_with(b"A"));
    let derived = from_raw(&outcome.keypair.raw).unwrap();
    assert_eq!(derived.bytes(), outcome.keypair.public.bytes());
}

#[test]
fn spent_budget_is_reported() {
    let prefix = b"Z".to_vec();
    let r = search_attempts(&prefix, 0);
    assert!(matches!(r, Err(KeyError::AttemptsExhausted)));
}
