use vstd::prelude::*;

use crate::errors::KeyError;

verus! {

/// Raw key material: the 64 bytes of a signing keypair, the secret half
/// followed by the public half.
pub struct RawKeyMaterial {
    pub(crate) bytes: Vec<u8>,
}

impl View for RawKeyMaterial {
    type V = Seq<u8>;

    closed spec fn view(&self) -> Seq<u8> {
        self.bytes@
    }
}

impl RawKeyMaterial {
    /// Well-formed raw key material holds exactly 64 bytes.
    pub open spec fn wf(&self) -> bool {
        self@.len() == 64
    }

    /// The raw bytes.
    pub fn bytes(&self) -> (r: &Vec<u8>)
        ensures
            r@ == self@,
    {
        &self.bytes
    }

    /// Wraps already checked bytes as raw key material.
    pub(crate) fn from_vec(bytes: Vec<u8>) -> (r: RawKeyMaterial)
        ensures
            r@ == bytes@,
    {
        RawKeyMaterial { bytes }
    }
}

/// A public identifier: the 32 public bytes of a keypair, used as the
/// externally visible reference to it.
pub struct PublicIdentifier {
    pub(crate) bytes: Vec<u8>,
}

impl View for PublicIdentifier {
    type V = Seq<u8>;

    closed spec fn view(&self) -> Seq<u8> {
        self.bytes@
    }
}

impl PublicIdentifier {
    /// A well-formed public identifier holds exactly 32 bytes.
    pub open spec fn wf(&self) -> bool {
        self@.len() == 32
    }

    /// The identifier's bytes.
    pub fn bytes(&self) -> (r: &Vec<u8>)
        ensures
            r@ == self@,
    {
        &self.bytes
    }
}

/// A keypair: raw key material together with the public identifier derived
/// from it.
pub struct Keypair {
    pub raw: RawKeyMaterial,
    pub public: PublicIdentifier,
}

impl Keypair {
    /// A well-formed keypair: both halves have their size, and the public
    /// identifier is the one the raw material derives to.
    pub open spec fn wf(&self) -> bool {
        &&& self.raw.wf()
        &&& self.public.wf()
        &&& keypair_of_bytes(self.raw@) == Some(self.public@)
    }
}

/// The public identifier that raw key-material bytes stand for: `Some` of the
/// 32 derived public bytes exactly when the bytes form a valid keypair under
/// the signature scheme, `None` otherwise.
pub uninterp spec fn keypair_of_bytes(raw: Seq<u8>) -> Option<Seq<u8>>;

/// Relies on solana_sdk::signature::Keypair::new: a fresh keypair from a
/// cryptographically secure random source. Whatever the draw, its 64 bytes
/// are the secret half followed by the public half derived from it, so
/// reconstructing from those bytes yields the same public identifier.
#[verifier::external_body]
fn generate_keypair_bytes() -> (r: (Vec<u8>, Vec<u8>))
    ensures
        r.0@.len() == 64,
        r.1@.len() == 32,
        keypair_of_bytes(r.0@) == Some(r.1@),
{
    let keypair = solana_sdk::signature::Keypair::new();
    let raw = keypair.to_bytes().to_vec();
    let public = solana_sdk::signature::Signer::pubkey(&keypair).to_bytes().to_vec();
    (raw, public)
}

/// Relies on solana_sdk::signature::Keypair::try_from(&[u8]): it succeeds
/// exactly when the bytes are a secret half followed by the public half that
/// the secret derives to, and the keypair's public identifier is then that
/// public half.
#[verifier::external_body]
fn keypair_bytes_to_public(raw: &Vec<u8>) -> (r: Option<Vec<u8>>)
    ensures
        r matches Some(pk) ==> keypair_of_bytes(raw@) == Some(pk@) && pk@.len() == 32,
        r is None ==> keypair_of_bytes(raw@) is None,
{
    match solana_sdk::signature::Keypair::try_from(raw.as_slice()) {
        Ok(keypair) => Some(solana_sdk::signature::Signer::pubkey(&keypair).to_bytes().to_vec()),
        Err(_) => None,
    }
}

/// Generates one keypair from a cryptographically secure random source.
/// Generation itself has no failure mode.
pub fn generate() -> (r: Keypair)
    ensures
        r.wf(),
{
    let (raw_bytes, public_bytes) = generate_keypair_bytes();
    Keypair {
        raw: RawKeyMaterial { bytes: raw_bytes },
        public: PublicIdentifier { bytes: public_bytes },
    }
}

/// Reconstructs the public identifier from previously validated raw material.
/// Fails with `MalformedKeyMaterial` exactly when the material does not form
/// a valid keypair under the signature scheme.
pub fn from_raw(raw: &RawKeyMaterial) -> (r: Result<PublicIdentifier, KeyError>)
    ensures
        match keypair_of_bytes(raw@) {
            Some(pk) => r matches Ok(p) && p@ == pk && p.wf(),
            None => r == Err::<PublicIdentifier, KeyError>(KeyError::MalformedKeyMaterial),
        },
{
    match keypair_bytes_to_public(raw.bytes()) {
        Some(public_bytes) => Ok(PublicIdentifier { bytes: public_bytes }),
        None => Err(KeyError::MalformedKeyMaterial),
    }
}

} // verus!
