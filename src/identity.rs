//! Client ids and the identities registered under them.

use crate::bytes::{le_value, read_u128_le};
use crate::crypto::{ed25519_key_decodes, ed25519_public_key, ed25519_public_of, ed25519_verifies, ed25519_verify, sha256, sha256_of};
use std::str::FromStr;
use vstd::prelude::*;
use vstd::string::StringSliceAdditionalSpecFns;

verus! {

/// The value of an ASCII hex digit.
pub open spec fn hex_value(c: u8) -> Option<nat> {
    if 48 <= c <= 57 {
        Some((c - 48) as nat)
    } else if 97 <= c <= 102 {
        Some((c - 87) as nat)
    } else if 65 <= c <= 70 {
        Some((c - 55) as nat)
    } else {
        None
    }
}

/// Where the two hex digits of the `i`-th byte start, in the compact
/// (32-byte) or the hyphenated (36-byte) text of a UUID.
pub open spec fn uuid_digit_pos(hyphenated: bool, i: int) -> int {
    if !hyphenated || i < 4 {
        2 * i
    } else if i < 6 {
        2 * i + 1
    } else if i < 8 {
        2 * i + 2
    } else if i < 10 {
        2 * i + 3
    } else {
        2 * i + 4
    }
}

/// Whether the two digits of the `i`-th byte are hex digits.
pub open spec fn uuid_pair_valid(b: Seq<u8>, i: int) -> bool {
    let p = uuid_digit_pos(b.len() == 36, i);
    hex_value(b[p]) is Some && hex_value(b[p + 1]) is Some
}

/// A compact or hyphenated UUID text: sixteen pairs of hex digits, the
/// hyphenated form with a `-` after the 4th, 6th, 8th and 10th byte.
pub open spec fn uuid_text_valid(b: Seq<u8>) -> bool {
    &&& (b.len() == 32 || (b.len() == 36 && b[8] == 45 && b[13] == 45 && b[18] == 45 && b[23] == 45))
    &&& forall|i: int| 0 <= i < 16 ==> #[trigger] uuid_pair_valid(b, i)
}

/// The `i`-th byte that a UUID text spells.
pub open spec fn uuid_text_byte(b: Seq<u8>, i: int) -> u8 {
    let p = uuid_digit_pos(b.len() == 36, i);
    (16 * hex_value(b[p])->0 + hex_value(b[p + 1])->0) as u8
}

/// The sixteen bytes that a UUID text spells, `None` where it is no UUID
/// text.
pub open spec fn uuid_bytes_of(b: Seq<u8>) -> Option<Seq<u8>> {
    if uuid_text_valid(b) {
        Some(Seq::new(16, |i: int| uuid_text_byte(b, i)))
    } else {
        None
    }
}

/// The 128-bit id of a UUID text: its bytes read least significant first.
pub open spec fn uuid_id_of(b: Seq<u8>) -> Option<nat> {
    match uuid_bytes_of(b) {
        Some(u) => Some(le_value(u)),
        None => None,
    }
}

/// Relies on yauuid's `Uuid::from_str` and `Uuid::as_bytes`: a 32- or
/// 36-byte text parses where it is a compact or hyphenated UUID, to the
/// bytes that its hex pairs spell.
#[verifier::external_body]
fn uuid_from_text(text: &str) -> (r: Option<[u8; 16]>)
    requires
        text.spec_bytes().len() == 32 || text.spec_bytes().len() == 36,
    ensures
        r is Some <==> uuid_text_valid(text.spec_bytes()),
        r matches Some(u) ==> forall|i: int| 0 <= i < 16 ==> u[i] == uuid_text_byte(text.spec_bytes(), i),
{
    match yauuid::Uuid::from_str(text) {
        Ok(uuid) => Some(uuid.as_bytes()),
        Err(_) => None,
    }
}

/// Decodes a client id given as a compact (32 hex digits) or hyphenated
/// (36 characters) UUID text.
pub fn parse_uuid(text: &str) -> (r: Option<[u8; 16]>)
    ensures
        match r {
            Some(u) => uuid_bytes_of(text.spec_bytes()) == Some(u@),
            None => uuid_bytes_of(text.spec_bytes()) is None,
        },
{
    let n = text.as_bytes().len();
    if n != 32 && n != 36 {
        return None;
    }
    let r = uuid_from_text(text);
    proof {
        if let Some(u) = r {
            assert(u@ =~= Seq::new(16, |i: int| uuid_text_byte(text.spec_bytes(), i)));
        }
    }
    r
}

/// The 128-bit id of a UUID: its bytes read least significant first.
pub fn uuid_to_u128(uuid: [u8; 16]) -> (r: u128)
    ensures
        r as nat == le_value(uuid@),
{
    assert(uuid@.subrange(0, 16) =~= uuid@);
    read_u128_le(uuid.as_slice())
}

/// A registered client: its id, its display name and the public half of
/// the signing key it was issued.
pub struct AppMetadata {
    pub uuid: u128,
    pub name: String,
    pub pub_key: [u8; 32],
}

impl AppMetadata {
    /// The identity for `uuid` and `name` whose key is the public half of
    /// `seed`.
    pub fn from_seed(uuid: u128, name: String, seed: &[u8; 32]) -> (r: Option<AppMetadata>)
        ensures
            r is Some,
            r matches Some(app) ==> app.uuid == uuid && app.name@ == name@ && app.pub_key@
                == ed25519_public_of(seed@) && ed25519_key_decodes(app.pub_key@),
    {
        match ed25519_public_key(seed) {
            Some(pub_key) => Some(AppMetadata { uuid, name, pub_key }),
            None => None,
        }
    }

    /// Whether `signature` signs the SHA-256 digest of `message` under this
    /// identity's key.
    pub fn validate_message(&self, message: &[u8], signature: [u8; 64]) -> (r: bool)
        ensures
            r == ed25519_verifies(self.pub_key@, sha256_of(message@), signature@),
    {
        let digest = sha256(message);
        ed25519_verify(&self.pub_key, digest.as_slice(), &signature)
    }
}

} // verus!
