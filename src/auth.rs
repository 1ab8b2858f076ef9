//! Admission of privileged requests.
//!
//! A request names its client in one header and carries, in another, an
//! Ed25519 signature over the SHA-256 digest of its body. It is admitted
//! where the client is registered and the signature verifies under the
//! client's key.

use crate::bytes::to_array;
use crate::crypto::{base64_decode, base64_decoded, ed25519_verifies, sha256_of};
use crate::identity::{parse_uuid, uuid_id_of, uuid_to_u128};
use crate::registry::{find_app, find_spec, AppIdentity, RegistryError};
use vstd::prelude::*;
use vstd::string::StringSliceAdditionalSpecFns;
use vstd::utf8::encode_utf8;

verus! {

/// The header that names the client, as a UUID text.
pub const APP_ID_HEADER: &'static str = "X-App-Id";

/// The header that carries the base64 signature.
pub const SIGNATURE_HEADER: &'static str = "X-Signature";

/// At most this many bytes of a request body are read and signed.
pub const MAX_BODY_BYTES: usize = 1024;

/// The signed payload of a request whose body is empty.
pub const DEFAULT_PAYLOAD: &'static str = "obs-controller";

/// Why a request was not admitted.
#[derive(Debug, Clone, Copy, PartialEq, Eq, Structural)]
pub enum AuthRejection {
    /// The id or the signature header is absent.
    MissingHeaders,
    /// The id header is no UUID text.
    InvalidUuid,
    /// The signature header is not base64.
    InvalidSignatureEncoding,
    /// No client is registered under the id.
    UnknownApp,
    /// The signature is not 64 bytes long.
    SignatureLength,
    /// The signature does not verify.
    NotAuthenticated,
}

/// The HTTP status of a rejection: 401 for a signature that does not
/// verify, 400 for any other.
pub open spec fn auth_status(e: AuthRejection) -> u16 {
    if e == AuthRejection::NotAuthenticated {
        401
    } else {
        400
    }
}

/// The JSON body that reports a rejection.
pub open spec fn auth_message(e: AuthRejection) -> &'static str {
    match e {
        AuthRejection::MissingHeaders => r#"{"message": "Missing X-App-Id or X-Signature"}"#,
        AuthRejection::InvalidUuid => r#"{"message": "Invalid UUID in X-App-Id"}"#,
        AuthRejection::InvalidSignatureEncoding => r#"{"message": "Invalid Base64 in X-Signature"}"#,
        AuthRejection::UnknownApp => r#"{"message": "Unknown app"}"#,
        AuthRejection::SignatureLength => r#"{"message": "Signature must be 64 bytes in length."}"#,
        AuthRejection::NotAuthenticated => r#"{"message": "Not authenticated"}"#,
    }
}

impl AuthRejection {
    /// The HTTP status of the rejection.
    pub fn status(&self) -> (r: u16)
        ensures
            r == auth_status(*self),
    {
        match self {
            AuthRejection::NotAuthenticated => 401,
            _ => 400,
        }
    }

    /// The JSON body that reports the rejection.
    pub fn message(&self) -> (r: &'static str)
        ensures
            r == auth_message(*self),
    {
        match self {
            AuthRejection::MissingHeaders => r#"{"message": "Missing X-App-Id or X-Signature"}"#,
            AuthRejection::InvalidUuid => r#"{"message": "Invalid UUID in X-App-Id"}"#,
            AuthRejection::InvalidSignatureEncoding => r#"{"message": "Invalid Base64 in X-Signature"}"#,
            AuthRejection::UnknownApp => r#"{"message": "Unknown app"}"#,
            AuthRejection::SignatureLength => r#"{"message": "Signature must be 64 bytes in length."}"#,
            AuthRejection::NotAuthenticated => r#"{"message": "Not authenticated"}"#,
        }
    }
}

/// The outcome of checking a request.
pub enum VerificationResult {
    /// The request is admitted; its body, for the operation to read.
    Body(String),
    /// The request is turned away.
    JsonReject(AuthRejection),
}

/// What a request's signature covers: its body's bytes, or the default
/// payload where the body is empty.
pub open spec fn signed_payload(body: Seq<char>) -> Seq<u8> {
    if body.len() == 0 {
        encode_utf8(DEFAULT_PAYLOAD@)
    } else {
        encode_utf8(body)
    }
}

/// What checking a request decides.
pub enum AuthDecision {
    Admit,
    Reject(AuthRejection),
    Fail(RegistryError),
}

/// The decision on a request with the given headers and body against the
/// registry's bytes.
pub open spec fn auth_decision(
    app_id: Option<&str>,
    signature: Option<&str>,
    body: Seq<char>,
    registry: Seq<u8>,
) -> AuthDecision {
    match (app_id, signature) {
        (Some(a), Some(s)) => match uuid_id_of(a.spec_bytes()) {
            None => AuthDecision::Reject(AuthRejection::InvalidUuid),
            Some(id) => match base64_decoded(s@) {
                None => AuthDecision::Reject(AuthRejection::InvalidSignatureEncoding),
                Some(sig) => match find_spec(registry, id) {
                    Err(e) => AuthDecision::Fail(e),
                    Ok(None) => AuthDecision::Reject(AuthRejection::UnknownApp),
                    Ok(Some(app)) => if sig.len() != 64 {
                        AuthDecision::Reject(AuthRejection::SignatureLength)
                    } else if ed25519_verifies(app.pub_key, sha256_of(signed_payload(body)), sig) {
                        AuthDecision::Admit
                    } else {
                        AuthDecision::Reject(AuthRejection::NotAuthenticated)
                    },
                },
            },
        },
        _ => AuthDecision::Reject(AuthRejection::MissingHeaders),
    }
}

/// Checks a request: `app_id` and `signature` are its two headers, where
/// present, and `body` what was read of its body. An admitted request gives
/// its body back; a registry that cannot be read gives the error.
pub fn middleware_auth(
    app_id: Option<&str>,
    signature: Option<&str>,
    body: String,
    registry: &[u8],
) -> (r: Result<VerificationResult, RegistryError>)
    ensures
        match auth_decision(app_id, signature, body@, registry@) {
            AuthDecision::Admit => r matches Ok(VerificationResult::Body(b)) && b@ == body@,
            AuthDecision::Reject(why) => r == Ok::<VerificationResult, RegistryError>(
                VerificationResult::JsonReject(why),
            ),
            AuthDecision::Fail(e) => r == Err::<VerificationResult, RegistryError>(e),
        },
{
    let (app_text, sig_text) = match (app_id, signature) {
        (Some(a), Some(s)) => (a, s),
        _ => return Ok(VerificationResult::JsonReject(AuthRejection::MissingHeaders)),
    };
    let uuid = match parse_uuid(app_text) {
        Some(u) => uuid_to_u128(u),
        None => return Ok(VerificationResult::JsonReject(AuthRejection::InvalidUuid)),
    };
    let sig = match base64_decode(sig_text) {
        Some(sig) => sig,
        None => return Ok(VerificationResult::JsonReject(AuthRejection::InvalidSignatureEncoding)),
    };
    let app = match find_app(registry, uuid) {
        Err(e) => return Err(e),
        Ok(None) => return Ok(VerificationResult::JsonReject(AuthRejection::UnknownApp)),
        Ok(Some(app)) => app,
    };
    if sig.len() != 64 {
        return Ok(VerificationResult::JsonReject(AuthRejection::SignatureLength));
    }
    let sig: [u8; 64] = to_array(sig.as_slice());
    let payload: &str = if body.as_str().is_empty() {
        DEFAULT_PAYLOAD
    } else {
        body.as_str()
    };
    if app.validate_message(payload.as_bytes(), sig) {
        Ok(VerificationResult::Body(body))
    } else {
        Ok(VerificationResult::JsonReject(AuthRejection::NotAuthenticated))
    }
}

/// A request whose id is registered and whose signature decodes to 64
/// bytes is admitted exactly when the signature verifies, under the key
/// registered for the id, the SHA-256 digest of the signed payload: the
/// body, or the default payload where the body is empty.
pub proof fn lemma_admitted_iff_signature_verifies(
    app_id: &str,
    signature: &str,
    body: Seq<char>,
    registry: Seq<u8>,
    id: nat,
    app: AppIdentity,
    sig: Seq<u8>,
)
    requires
        uuid_id_of(app_id.spec_bytes()) == Some(id),
        find_spec(registry, id) == Ok::<Option<AppIdentity>, RegistryError>(Some(app)),
        base64_decoded(signature@) == Some(sig),
        sig.len() == 64,
    ensures
        auth_decision(Some(app_id), Some(signature), body, registry) is Admit <==> ed25519_verifies(
            app.pub_key,
            sha256_of(signed_payload(body)),
            sig,
        ),
        !(auth_decision(Some(app_id), Some(signature), body, registry) is Admit) ==> auth_decision(
            Some(app_id),
            Some(signature),
            body,
            registry,
        ) == AuthDecision::Reject(AuthRejection::NotAuthenticated),
{
}

/// A signature that decodes to other than 64 bytes is never admitted, and
/// where it is refused the status is 400, whatever verifying it would say.
pub proof fn lemma_signature_length_rejected(
    app_id: &str,
    signature: &str,
    body: Seq<char>,
    registry: Seq<u8>,
)
    requires
        base64_decoded(signature@) matches Some(sig) && sig.len() != 64,
    ensures
        !(auth_decision(Some(app_id), Some(signature), body, registry) is Admit),
        auth_decision(Some(app_id), Some(signature), body, registry) matches AuthDecision::Reject(why)
            ==> auth_status(why) == 400,
{
}

} // verus!
