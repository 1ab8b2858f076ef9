//! The registration handshake.
//!
//! A client sends its id, a display name and an X25519 public key. Once the
//! user consents, the service issues an Ed25519 signing seed, seals it with
//! AES-256-GCM under the X25519 secret shared with the client and a fresh
//! nonce, records the seed's public key in the registry, and answers with the
//! sealed seed, its own X25519 public key and the nonce.

use crate::bytes::to_array;
use crate::crypto::{
    aes_gcm_seal, aes_gcm_sealed, base64_decode, base64_decoded, base64_encode, base64_of,
    ed25519_public_of, random_array, x25519_of, x25519_public_key, x25519_public_of,
    x25519_shared_secret,
};
use crate::identity::{parse_uuid, uuid_id_of, uuid_to_u128, AppMetadata};
use crate::registry::{
    entry_bytes, find_app, find_spec, framed, id_count, identity_valid, is_framed,
    lemma_find_after_append, lemma_id_count_absent, AppIdentity, RegistryError,
};
use vstd::prelude::*;
use vstd::string::*;
use vstd::utf8::encode_utf8;

verus! {

/// The fields of a registration request's JSON body.
pub struct AppRegistrationData {
    pub uuid: String,
    pub name: String,
    pub public_key: String,
}

/// A registration request that passed validation.
pub struct RegistrationRequest {
    pub uuid: u128,
    pub name: String,
    pub public_key: [u8; 32],
}

/// Why a registration was refused.
#[derive(Debug, Clone, Copy, PartialEq, Eq, Structural)]
pub enum RegistrationRejection {
    /// The request has no body.
    EmptyBody,
    /// The body is not the expected JSON object.
    InvalidJson,
    /// The id is neither 32 nor 36 bytes long.
    UuidLength,
    /// The name is empty or longer than 24 characters.
    NameLength,
    /// The id is no UUID text.
    InvalidUuid,
    /// The public key is not base64.
    InvalidBase64,
    /// The public key is not 32 bytes long.
    PublicKeyLength,
    /// The user refused the registration.
    Denied,
    /// An identity is registered under the id already.
    AlreadyExists,
    /// The registry could not be read or written.
    Registry(RegistryError),
    /// The operating system gave no random bytes.
    Internal,
}

/// The HTTP status of a rejection: 400 for a malformed request, 401 for a
/// denial, 409 for a taken id, 500 for a failure of the service.
pub open spec fn rejection_status(e: RegistrationRejection) -> u16 {
    match e {
        RegistrationRejection::Denied => 401,
        RegistrationRejection::AlreadyExists => 409,
        RegistrationRejection::Registry(_) => 500,
        RegistrationRejection::Internal => 500,
        _ => 400,
    }
}

/// The JSON body that reports a rejection.
pub open spec fn rejection_message(e: RegistrationRejection) -> &'static str {
    match e {
        RegistrationRejection::EmptyBody => r#"{"message": "Body cannot be empty"}"#,
        RegistrationRejection::InvalidJson => r#"{"message": "Invalid json data, check the docs for a valid schema"}"#,
        RegistrationRejection::UuidLength => r#"{"message": "Invalid UUID. Only stripped and hyphenated UUIDs are supported."}"#,
        RegistrationRejection::NameLength => r#"{"message": "Name length must be within (0;24]"}"#,
        RegistrationRejection::InvalidUuid => r#"{"message": "Invalid UUID"}"#,
        RegistrationRejection::InvalidBase64 => r#"{"message": "Invalid Base64"}"#,
        RegistrationRejection::PublicKeyLength => r#"{"message": "Public key must be 32 bytes in length"}"#,
        RegistrationRejection::Denied => r#"{"message": "The registration request was denied by the user"}"#,
        RegistrationRejection::AlreadyExists => r#"{"message": "An app with the same UUID already exists"}"#,
        _ => r#"{"message": "The request couldn't be fulfilled due to an error"}"#,
    }
}

impl RegistrationRejection {
    /// The HTTP status of the rejection.
    pub fn status(&self) -> (r: u16)
        ensures
            r == rejection_status(*self),
    {
        match self {
            RegistrationRejection::Denied => 401,
            RegistrationRejection::AlreadyExists => 409,
            RegistrationRejection::Registry(_) => 500,
            RegistrationRejection::Internal => 500,
            _ => 400,
        }
    }

    /// The JSON body that reports the rejection.
    pub fn message(&self) -> (r: &'static str)
        ensures
            r == rejection_message(*self),
    {
        match self {
            RegistrationRejection::EmptyBody => r#"{"message": "Body cannot be empty"}"#,
            RegistrationRejection::InvalidJson => r#"{"message": "Invalid json data, check the docs for a valid schema"}"#,
            RegistrationRejection::UuidLength => r#"{"message": "Invalid UUID. Only stripped and hyphenated UUIDs are supported."}"#,
            RegistrationRejection::NameLength => r#"{"message": "Name length must be within (0;24]"}"#,
            RegistrationRejection::InvalidUuid => r#"{"message": "Invalid UUID"}"#,
            RegistrationRejection::InvalidBase64 => r#"{"message": "Invalid Base64"}"#,
            RegistrationRejection::PublicKeyLength => r#"{"message": "Public key must be 32 bytes in length"}"#,
            RegistrationRejection::Denied => r#"{"message": "The registration request was denied by the user"}"#,
            RegistrationRejection::AlreadyExists => r#"{"message": "An app with the same UUID already exists"}"#,
            _ => r#"{"message": "The request couldn't be fulfilled due to an error"}"#,
        }
    }
}

/// The outcome of validating a registration request: the id, the name and
/// the client's public key, or the first check that failed.
pub open spec fn registration_check(body: Seq<char>, data: Option<AppRegistrationData>) -> Result<
    (nat, Seq<char>, Seq<u8>),
    RegistrationRejection,
> {
    if body.len() == 0 {
        Err(RegistrationRejection::EmptyBody)
    } else {
        match data {
            None => Err(RegistrationRejection::InvalidJson),
            Some(d) => {
                let id_text = encode_utf8(d.uuid@);
                if id_text.len() != 32 && id_text.len() != 36 {
                    Err(RegistrationRejection::UuidLength)
                } else if d.name@.len() < 1 || d.name@.len() > 24 {
                    Err(RegistrationRejection::NameLength)
                } else {
                    match uuid_id_of(id_text) {
                        None => Err(RegistrationRejection::InvalidUuid),
                        Some(id) => match base64_decoded(d.public_key@) {
                            None => Err(RegistrationRejection::InvalidBase64),
                            Some(key) => if key.len() != 32 {
                                Err(RegistrationRejection::PublicKeyLength)
                            } else {
                                Ok((id, d.name@, key))
                            },
                        },
                    }
                }
            },
        }
    }
}

/// Validates a registration request before anything is asked of the user:
/// `body` is the request's body and `data` its fields, where it parsed as the
/// expected JSON object.
pub fn validate_registration(body: &str, data: Option<AppRegistrationData>) -> (r: Result<
    RegistrationRequest,
    RegistrationRejection,
>)
    ensures
        match r {
            Ok(req) => registration_check(body@, data) == Ok::<
                (nat, Seq<char>, Seq<u8>),
                RegistrationRejection,
            >((req.uuid as nat, req.name@, req.public_key@)),
            Err(e) => registration_check(body@, data) == Err::<
                (nat, Seq<char>, Seq<u8>),
                RegistrationRejection,
            >(e),
        },
{
    if body.is_empty() {
        return Err(RegistrationRejection::EmptyBody);
    }
    let d = match data {
        Some(d) => d,
        None => return Err(RegistrationRejection::InvalidJson),
    };
    let id_len = d.uuid.as_str().as_bytes().len();
    if id_len != 32 && id_len != 36 {
        return Err(RegistrationRejection::UuidLength);
    }
    let name_len = d.name.as_str().unicode_len();
    if name_len < 1 || name_len > 24 {
        return Err(RegistrationRejection::NameLength);
    }
    let uuid = match parse_uuid(d.uuid.as_str()) {
        Some(u) => uuid_to_u128(u),
        None => return Err(RegistrationRejection::InvalidUuid),
    };
    let key = match base64_decode(d.public_key.as_str()) {
        Some(key) => key,
        None => return Err(RegistrationRejection::InvalidBase64),
    };
    if key.len() != 32 {
        return Err(RegistrationRejection::PublicKeyLength);
    }
    let public_key: [u8; 32] = to_array(key.as_slice());
    Ok(RegistrationRequest { uuid, name: d.name, public_key })
}

/// What the consent gate is asked about: the name the client gave.
pub struct AppInfo {
    pub name: String,
}

impl AppInfo {
    pub fn new(name: String) -> (r: AppInfo)
        ensures
            r.name@ == name@,
    {
        AppInfo { name }
    }
}

/// The user's answer to a registration request.
#[derive(Debug, Clone, Copy, PartialEq, Eq, Structural)]
pub enum DialogResult {
    Accepted,
    Denied,
}

/// The answer to a successful registration, each field in base64: the
/// sealed signing seed (ciphertext and tag), the service's X25519 public key,
/// and the AES-GCM nonce.
pub struct Registration {
    pub key: String,
    pub shared_public: String,
    pub nonce: String,
}

/// The signing seed sealed under the X25519 secret that `secret` shares
/// with `client_public`.
pub open spec fn sealed_seed(
    secret: Seq<u8>,
    client_public: Seq<u8>,
    nonce: Seq<u8>,
    seed: Seq<u8>,
) -> Seq<u8> {
    aes_gcm_sealed(x25519_of(secret, client_public), nonce, seed)
}

/// The identity that registering `uuid` and `name` with `seed` records.
pub open spec fn issued_identity(uuid: u128, name: Seq<char>, seed: Seq<u8>) -> AppIdentity {
    AppIdentity { uuid: uuid as nat, name, pub_key: ed25519_public_of(seed) }
}

/// Why registering `uuid` against the registry's bytes is refused before
/// any key is made: the registry cannot be read, already holds the id, or
/// ends inside an entry's length (appending there would hide the entry).
/// `None` where the id may be registered.
pub open spec fn registration_refusal(registry: Seq<u8>, uuid: u128) -> Option<
    RegistrationRejection,
> {
    match find_spec(registry, uuid as nat) {
        Err(e) => Some(RegistrationRejection::Registry(e)),
        Ok(Some(_)) => Some(RegistrationRejection::AlreadyExists),
        Ok(None) => if framed(registry) {
            None
        } else {
            Some(RegistrationRejection::Registry(RegistryError::Unterminated))
        },
    }
}

/// What a successful registration answers and appends: the sealed seed
/// (48 bytes: ciphertext and tag), the service's 32-byte X25519 public key
/// and the nonce, each in base64; the registry, framed and free of the id
/// before, grows by the entry of the seed's identity.
pub open spec fn registration_issued(
    reg: Registration,
    before: Seq<u8>,
    after: Seq<u8>,
    uuid: u128,
    name: Seq<char>,
    client_public: Seq<u8>,
    seed: Seq<u8>,
    secret: Seq<u8>,
    nonce: Seq<u8>,
) -> bool {
    &&& reg.key@ == base64_of(sealed_seed(secret, client_public, nonce, seed))
    &&& sealed_seed(secret, client_public, nonce, seed).len() == 48
    &&& reg.shared_public@ == base64_of(x25519_public_of(secret))
    &&& x25519_public_of(secret).len() == 32
    &&& reg.nonce@ == base64_of(nonce)
    &&& registration_refusal(before, uuid) is None
    &&& identity_valid(issued_identity(uuid, name, seed))
    &&& after == before + entry_bytes(issued_identity(uuid, name, seed))
}

/// Looks for a reason to refuse registering `uuid`.
fn refusal(registry: &[u8], uuid: u128) -> (r: Option<RegistrationRejection>)
    ensures
        r == registration_refusal(registry@, uuid),
{
    match find_app(registry, uuid) {
        Err(e) => Some(RegistrationRejection::Registry(e)),
        Ok(Some(_)) => Some(RegistrationRejection::AlreadyExists),
        Ok(None) => if is_framed(registry) {
            None
        } else {
            Some(RegistrationRejection::Registry(RegistryError::Unterminated))
        },
    }
}

/// Registers `uuid` and `name` for the client whose X25519 public key is
/// `client_public`, with the signing seed, X25519 secret and nonce given.
/// A registry that refuses the id (see `registration_refusal`) is left as
/// it is and no key is made; otherwise the registration succeeds and the
/// registry grows by the new entry.
pub fn seal_registration(
    uuid: u128,
    name: String,
    client_public: [u8; 32],
    seed: [u8; 32],
    secret: [u8; 32],
    nonce: [u8; 12],
    registry: &mut Vec<u8>,
) -> (r: Result<Registration, RegistrationRejection>)
    ensures
        match registration_refusal(old(registry)@, uuid) {
            Some(e) => r == Err::<Registration, RegistrationRejection>(e) && final(registry)@ == old(
                registry,
            )@,
            None => r matches Ok(reg) && registration_issued(
                reg,
                old(registry)@,
                final(registry)@,
                uuid,
                name@,
                client_public@,
                seed@,
                secret@,
                nonce@,
            ),
        },
{
    if let Some(e) = refusal(registry.as_slice(), uuid) {
        return Err(e);
    }
    let server_public = x25519_public_key(secret);
    let shared = x25519_shared_secret(secret, client_public);
    let sealed = match aes_gcm_seal(&shared, nonce, seed.as_slice()) {
        Some(sealed) => sealed,
        // Not reached: 32 bytes under a 32-byte key always seal.
        None => Vec::new(),
    };
    AppMetadata::register_with_seed(uuid, name, &seed, registry);
    Ok(
        Registration {
            key: base64_encode(sealed.as_slice()),
            shared_public: base64_encode(server_public.as_slice()),
            nonce: base64_encode(nonce.as_slice()),
        },
    )
}

/// Registers `uuid` and `name` for the client whose X25519 public key is
/// `client_public`, drawing a fresh signing seed, X25519 secret and nonce
/// and handing them to `seal_registration`. Beyond a refusal, it fails
/// only where the operating system gives no random bytes.
pub fn register_encrypt(uuid: u128, name: String, client_public: [u8; 32], registry: &mut Vec<u8>) -> (r:
    Result<Registration, RegistrationRejection>)
    ensures
        match registration_refusal(old(registry)@, uuid) {
            Some(e) => r == Err::<Registration, RegistrationRejection>(e) && final(registry)@ == old(
                registry,
            )@,
            None => match r {
                Ok(reg) => exists|seed: Seq<u8>, secret: Seq<u8>, nonce: Seq<u8>|
                    seed.len() == 32 && secret.len() == 32 && nonce.len() == 12
                        && #[trigger] registration_issued(
                        reg,
                        old(registry)@,
                        final(registry)@,
                        uuid,
                        name@,
                        client_public@,
                        seed,
                        secret,
                        nonce,
                    ),
                Err(e) => e == RegistrationRejection::Internal && final(registry)@ == old(
                    registry,
                )@,
            },
        },
{
    let seed = random_array::<32>();
    let secret = random_array::<32>();
    let nonce = random_array::<12>();
    match (seed, secret, nonce) {
        (Some(seed), Some(secret), Some(nonce)) => {
            let ghost before = registry@;
            let r = seal_registration(uuid, name, client_public, seed, secret, nonce, registry);
            proof {
                if r is Ok {
                    assert(registration_issued(
                        r->Ok_0,
                        before,
                        registry@,
                        uuid,
                        name@,
                        client_public@,
                        seed@,
                        secret@,
                        nonce@,
                    ));
                }
            }
            r
        },
        _ => match refusal(registry.as_slice(), uuid) {
            Some(e) => Err(e),
            None => Err(RegistrationRejection::Internal),
        },
    }
}

/// Completes a validated registration once the user has answered: a denial
/// leaves the registry as it was.
pub fn complete_registration(
    request: RegistrationRequest,
    consent: DialogResult,
    registry: &mut Vec<u8>,
) -> (r: Result<Registration, RegistrationRejection>)
    ensures
        consent == DialogResult::Denied ==> r == Err::<Registration, RegistrationRejection>(
            RegistrationRejection::Denied,
        ) && final(registry)@ == old(registry)@,
        consent == DialogResult::Accepted ==> match registration_refusal(
            old(registry)@,
            request.uuid,
        ) {
            Some(e) => r == Err::<Registration, RegistrationRejection>(e) && final(registry)@ == old(
                registry,
            )@,
            None => match r {
                Ok(reg) => exists|seed: Seq<u8>, secret: Seq<u8>, nonce: Seq<u8>|
                    seed.len() == 32 && secret.len() == 32 && nonce.len() == 12
                        && #[trigger] registration_issued(
                        reg,
                        old(registry)@,
                        final(registry)@,
                        request.uuid,
                        request.name@,
                        request.public_key@,
                        seed,
                        secret,
                        nonce,
                    ),
                Err(e) => e == RegistrationRejection::Internal && final(registry)@ == old(
                    registry,
                )@,
            },
        },
{
    match consent {
        DialogResult::Denied => Err(RegistrationRejection::Denied),
        DialogResult::Accepted => register_encrypt(
            request.uuid,
            request.name,
            request.public_key,
            registry,
        ),
    }
}

/// Every check of a registration request refuses with status 400, and the
/// checks refuse ids of other than 32 or 36 bytes, names of no or more than
/// 24 characters and public keys that decode to other than 32 bytes, all
/// before the user is asked and before any key is made.
pub proof fn lemma_registration_boundaries(body: Seq<char>, d: AppRegistrationData)
    requires
        body.len() > 0,
    ensures
        registration_check(body, Some(d)) is Err ==> rejection_status(
            registration_check(body, Some(d))->Err_0,
        ) == 400,
        encode_utf8(d.uuid@).len() != 32 && encode_utf8(d.uuid@).len() != 36 ==> registration_check(
            body,
            Some(d),
        ) is Err,
        (d.name@.len() == 0 || d.name@.len() > 24) ==> registration_check(body, Some(d)) is Err,
        (base64_decoded(d.public_key@) matches Some(k) && k.len() != 32) ==> registration_check(
            body,
            Some(d),
        ) is Err,
{
}

/// The seed sealed in a registration's answer is the one whose public key
/// the registry then holds: the answer's key is the 48-byte seal of the
/// seed under the X25519 secret of the service's secret and the client's
/// public key, and looking the id up gives the identity with the seed's
/// public key.
pub proof fn lemma_sealed_seed_is_registered(
    reg: Registration,
    before: Seq<u8>,
    after: Seq<u8>,
    uuid: u128,
    name: Seq<char>,
    client_public: Seq<u8>,
    seed: Seq<u8>,
    secret: Seq<u8>,
    nonce: Seq<u8>,
)
    requires
        registration_issued(reg, before, after, uuid, name, client_public, seed, secret, nonce),
    ensures
        reg.key@ == base64_of(sealed_seed(secret, client_public, nonce, seed)),
        sealed_seed(secret, client_public, nonce, seed).len() == 48,
        find_spec(after, uuid as nat) == Ok::<Option<AppIdentity>, RegistryError>(
            Some(AppIdentity { uuid: uuid as nat, name, pub_key: ed25519_public_of(seed) }),
        ),
{
    lemma_find_after_append(before, issued_identity(uuid, name, seed));
}

/// Registering an id twice: once a registration has succeeded, the registry
/// holds exactly one entry for the id and stays framed, and every later
/// registration of the id is refused with `AlreadyExists`, leaving the
/// registry as it is.
pub proof fn lemma_second_registration_conflicts(
    reg: Registration,
    before: Seq<u8>,
    after: Seq<u8>,
    uuid: u128,
    name: Seq<char>,
    client_public: Seq<u8>,
    seed: Seq<u8>,
    secret: Seq<u8>,
    nonce: Seq<u8>,
)
    requires
        registration_issued(reg, before, after, uuid, name, client_public, seed, secret, nonce),
    ensures
        id_count(before, uuid as nat) == 0,
        id_count(after, uuid as nat) == 1,
        framed(after),
        registration_refusal(after, uuid) == Some(RegistrationRejection::AlreadyExists),
{
    lemma_find_after_append(before, issued_identity(uuid, name, seed));
    lemma_id_count_absent(before, uuid as nat);
}

impl Registration {
    /// The JSON body of the answer.
    pub fn to_json(&self) -> (r: String)
        ensures
            r@ == "{\"key\": \""@ + self.key@ + "\", \"shared_public\": \""@ + self.shared_public@
                + "\", \"nonce\": \""@ + self.nonce@ + "\"}"@,
    {
        let mut out = String::from_str("{\"key\": \"");
        out.append(self.key.as_str());
        out.append("\", \"shared_public\": \"");
        out.append(self.shared_public.as_str());
        out.append("\", \"nonce\": \"");
        out.append(self.nonce.as_str());
        out.append("\"}");
        out
    }
}

} // verus!
