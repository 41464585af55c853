//! A verified vanity-keypair library: a base58 codec, keypair generation,
//! a prefix search engine, and a two-field key-value record store.

pub mod bytes;
pub mod codec;
pub mod errors;
pub mod keys;
pub mod search;
pub mod store;
