//! The cryptographic primitives, each a thin call into its crate.
//!
//! Each primitive's result is named by a spec function without a body: the
//! result depends on the arguments alone, and the contracts of the protocol
//! speak of those names.

use ed25519_dalek::Verifier;
use rand_core::RngCore;
use ring::aead::{Aad, LessSafeKey, Nonce, UnboundKey, AES_256_GCM};
use sha2::Digest;
use vstd::prelude::*;

verus! {

/// The Ed25519 public key of a 32-byte secret seed.
pub uninterp spec fn ed25519_public_of(seed: Seq<u8>) -> Seq<u8>;

/// Whether 32 bytes decode as an Ed25519 public key (a compressed curve
/// point).
pub uninterp spec fn ed25519_key_decodes(key: Seq<u8>) -> bool;

/// The X25519 public key of a secret scalar.
pub uninterp spec fn x25519_public_of(secret: Seq<u8>) -> Seq<u8>;

/// The X25519 function of a secret scalar and a peer's public key.
pub uninterp spec fn x25519_of(secret: Seq<u8>, peer: Seq<u8>) -> Seq<u8>;

/// AES-256-GCM ciphertext followed by its tag, with empty associated data.
pub uninterp spec fn aes_gcm_sealed(key: Seq<u8>, nonce: Seq<u8>, plaintext: Seq<u8>) -> Seq<u8>;

/// The SHA-256 digest.
pub uninterp spec fn sha256_of(message: Seq<u8>) -> Seq<u8>;

/// Whether `signature` is an Ed25519 signature of `message` under the public
/// key `key`; false where the key or the signature bytes do not decode.
pub uninterp spec fn ed25519_verifies(key: Seq<u8>, message: Seq<u8>, signature: Seq<u8>) -> bool;

/// Standard base64 with padding.
pub uninterp spec fn base64_of(data: Seq<u8>) -> Seq<char>;

/// What standard base64 decoding gives for a text, `None` where it fails.
pub uninterp spec fn base64_decoded(text: Seq<char>) -> Option<Seq<u8>>;

/// Relies on rand_core's `OsRng::try_fill_bytes`: bytes from the operating
/// system's generator, or `None` where it fails.
#[verifier::external_body]
pub(crate) fn random_array<const N: usize>() -> (r: Option<[u8; N]>) {
    let mut buf = [0u8; N];
    match rand_core::OsRng.try_fill_bytes(&mut buf) {
        Ok(()) => Some(buf),
        Err(_) => None,
    }
}

/// Relies on ed25519-dalek's `SecretKey::from_bytes`, which fails only on a
/// length other than 32, and `PublicKey::from(&SecretKey)`: the public key
/// of a seed, the compression of a curve point, which decodes again.
#[verifier::external_body]
pub(crate) fn ed25519_public_key(seed: &[u8; 32]) -> (r: Option<[u8; 32]>)
    ensures
        r is Some,
        r matches Some(key) ==> key@ == ed25519_public_of(seed@) && ed25519_key_decodes(key@),
{
    match ed25519_dalek::SecretKey::from_bytes(seed) {
        Ok(secret) => Some(ed25519_dalek::PublicKey::from(&secret).to_bytes()),
        Err(_) => None,
    }
}

/// Relies on ed25519-dalek's `PublicKey::from_bytes`: whether the bytes
/// decompress to a curve point.
#[verifier::external_body]
pub(crate) fn ed25519_key_valid(key: &[u8; 32]) -> (r: bool)
    ensures
        r == ed25519_key_decodes(key@),
{
    ed25519_dalek::PublicKey::from_bytes(key).is_ok()
}

/// Relies on x25519-dalek's `PublicKey::from(&StaticSecret)`: the public key
/// of a secret scalar.
#[verifier::external_body]
pub(crate) fn x25519_public_key(secret: [u8; 32]) -> (r: [u8; 32])
    ensures
        r@ == x25519_public_of(secret@),
{
    let secret = x25519_dalek::StaticSecret::from(secret);
    x25519_dalek::PublicKey::from(&secret).to_bytes()
}

/// Relies on x25519-dalek's `x25519`: the shared secret of a secret scalar
/// and a peer's public key.
#[verifier::external_body]
pub(crate) fn x25519_shared_secret(secret: [u8; 32], peer: [u8; 32]) -> (r: [u8; 32])
    ensures
        r@ == x25519_of(secret@, peer@),
{
    x25519_dalek::x25519(secret, peer)
}

/// Relies on ring's `LessSafeKey::seal_in_place_append_tag` with
/// `AES_256_GCM`: the ciphertext, as long as the plaintext, then the 16-byte
/// tag. A 32-byte key is accepted, and only inputs past the algorithm's
/// maximum length are refused.
#[verifier::external_body]
pub(crate) fn aes_gcm_seal(key: &[u8; 32], nonce: [u8; 12], plaintext: &[u8]) -> (r: Option<Vec<u8>>)
    ensures
        plaintext@.len() <= 4096 ==> r is Some,
        r matches Some(sealed) ==> sealed@ == aes_gcm_sealed(key@, nonce@, plaintext@)
            && sealed@.len() == plaintext@.len() + 16,
{
    let key = UnboundKey::new(&AES_256_GCM, key).ok()?;
    let mut in_out = plaintext.to_vec();
    let nonce = Nonce::assume_unique_for_key(nonce);
    LessSafeKey::new(key).seal_in_place_append_tag(nonce, Aad::empty(), &mut in_out).ok()?;
    Some(in_out)
}

/// Relies on sha2's `Sha256::digest`.
#[verifier::external_body]
pub(crate) fn sha256(message: &[u8]) -> (r: [u8; 32])
    ensures
        r@ == sha256_of(message@),
{
    sha2::Sha256::digest(message).into()
}

/// Relies on ed25519-dalek's `PublicKey::verify`, after `PublicKey::from_bytes`
/// and `Signature::from_bytes`; bytes that do not decode verify nothing.
#[verifier::external_body]
pub(crate) fn ed25519_verify(key: &[u8; 32], message: &[u8], signature: &[u8; 64]) -> (r: bool)
    ensures
        r == ed25519_verifies(key@, message@, signature@),
{
    let key = ed25519_dalek::PublicKey::from_bytes(key);
    let signature = ed25519_dalek::Signature::from_bytes(signature);
    match (key, signature) {
        (Ok(key), Ok(signature)) => key.verify(message, &signature).is_ok(),
        _ => false,
    }
}

/// Relies on base64's `encode` (standard alphabet, padded).
#[verifier::external_body]
pub(crate) fn base64_encode(data: &[u8]) -> (r: String)
    ensures
        r@ == base64_of(data@),
{
    base64::encode(data)
}

/// Relies on base64's `decode` (standard alphabet).
#[verifier::external_body]
pub(crate) fn base64_decode(text: &str) -> (r: Option<Vec<u8>>)
    ensures
        match r {
            Some(data) => base64_decoded(text@) == Some(data@),
            None => base64_decoded(text@) is None,
        },
{
    base64::decode(text).ok()
}

} // verus!
