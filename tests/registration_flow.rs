use ed25519_dalek::{PublicKey as SigningPublicKey, SecretKey};
use obs_controller::identity::{parse_uuid, uuid_to_u128};
use obs_controller::recording::{RecordingState, StopResponse};
use obs_controller::registration::{
    complete_registration, register_encrypt, seal_registration, validate_registration, AppInfo,
    AppRegistrationData, DialogResult, Registration, RegistrationRejection,
};
use obs_controller::registry::{find_app, RegistryError};
use rand_core::OsRng;
use ring::aead::{Aad, LessSafeKey, Nonce, UnboundKey, AES_256_GCM};
use x25519_dalek::{EphemeralSecret, PublicKey};

const ID_TEXT: &str = "98704291-09e9-40f2-8476-064521fadaff";
const ID: u128 = 340090132878606694826081478218872942744;

fn data(uuid: &str, name: &str, public_key: &str) -> Option<AppRegistrationData> {
    Some(AppRegistrationData {
        uuid: uuid.to_string(),
        name: name.to_string(),
        public_key: public_key.to_string(),
    })
}

fn client_key() -> String {
    base64::encode([5u8; 32])
}

fn rejected(body: &str, d: Option<AppRegistrationData>) -> RegistrationRejection {
    match validate_registration(body, d) {
        Err(e) => e,
        Ok(_) => panic!("accepted"),
    }
}

/// Opens a registration's sealed key with the client's secret.
fn open_sealed(secret: EphemeralSecret, registration: &Registration) -> [u8; 32] {
    let server_pub: [u8; 32] = base64::decode(&registration.shared_public).unwrap().try_into().unwrap();
    let shared = secret.diffie_hellman(&PublicKey::from(server_pub));
    let aes = LessSafeKey::new(UnboundKey::new(&AES_256_GCM, shared.as_bytes()).unwrap());
    let nonce: [u8; 12] = base64::decode(&registration.nonce).unwrap().try_into().unwrap();
    let mut sealed = base64::decode(&registration.key).unwrap();
    assert_eq!(sealed.len(), 48);
    let opened = aes.open_in_place(Nonce::assume_unique_for_key(nonce), Aad::empty(), &mut sealed).unwrap();
    opened.try_into().unwrap()
}

#[test]
fn scenario_register_and_decrypt() {
    let secret = EphemeralSecret::new(OsRng);
    let public = base64::encode(PublicKey::from(&secret).to_bytes());
    let body = format!(r#"{{"uuid": "{}", "name": "Test", "public_key": "{}"}}"#, ID_TEXT, public);
    let request = validate_registration(&body, data(ID_TEXT, "Test", &public)).unwrap();
    assert_eq!(request.uuid, ID);
    let mut registry = Vec::new();
    let registration = complete_registration(request, DialogResult::Accepted, &mut registry).unwrap();
    assert_eq!(base64::decode(&registration.key).unwrap().len(), 48);
    assert_eq!(base64::decode(&registration.shared_public).unwrap().len(), 32);
    assert_eq!(base64::decode(&registration.nonce).unwrap().len(), 12);
    let seed = open_sealed(secret, &registration);
    let signing = SecretKey::from_bytes(&seed).unwrap();
    let stored = find_app(&registry, ID).unwrap().unwrap();
    assert_eq!(SigningPublicKey::from(&signing).to_bytes(), stored.pub_key);
    assert_eq!(stored.name, "Test");
}

#[test]
fn round_trip_with_compact_id() {
    let secret = EphemeralSecret::new(OsRng);
    let public = PublicKey::from(&secret).to_bytes();
    let uuid = uuid_to_u128(parse_uuid("9870429109E940F28476064521FADAFF").unwrap());
    assert_eq!(uuid, ID);
    let mut registry = Vec::new();
    let registration = register_encrypt(uuid, "Deck".to_string(), public, &mut registry).unwrap();
    let seed = open_sealed(secret, &registration);
    let signing = SecretKey::from_bytes(&seed).unwrap();
    let stored = find_app(&registry, ID).unwrap().unwrap();
    assert_eq!(SigningPublicKey::from(&signing).to_bytes(), stored.pub_key);
}

#[test]
fn registrations_use_fresh_nonces_and_keys() {
    let mut registry = Vec::new();
    let a = register_encrypt(1, "A".to_string(), [5u8; 32], &mut registry).unwrap();
    let b = register_encrypt(2, "B".to_string(), [5u8; 32], &mut registry).unwrap();
    assert_ne!(a.nonce, b.nonce);
    assert_ne!(a.shared_public, b.shared_public);
    assert_ne!(a.key, b.key);
}

#[test]
fn seal_registration_is_determined_by_its_inputs() {
    let mut first = Vec::new();
    let mut second = Vec::new();
    let a = seal_registration(3, "Same".to_string(), [5u8; 32], [1u8; 32], [2u8; 32], [3u8; 12], &mut first).unwrap();
    let b = seal_registration(3, "Same".to_string(), [5u8; 32], [1u8; 32], [2u8; 32], [3u8; 12], &mut second).unwrap();
    assert_eq!(a.key, b.key);
    assert_eq!(first, second);
    assert_eq!(a.nonce, base64::encode([3u8; 12]));
    let expected_public = x25519_dalek::x25519([2u8; 32], x25519_dalek::X25519_BASEPOINT_BYTES);
    assert_eq!(a.shared_public, base64::encode(expected_public));
    let stored = find_app(&first, 3).unwrap().unwrap();
    let seed_public = SigningPublicKey::from(&SecretKey::from_bytes(&[1u8; 32]).unwrap());
    assert_eq!(stored.pub_key, seed_public.to_bytes());
    assert_ne!(base64::decode(&a.key).unwrap()[..32], [1u8; 32]);
}

#[test]
fn duplicate_id_is_a_conflict() {
    let mut registry = Vec::new();
    register_encrypt(ID, "Test".to_string(), [5u8; 32], &mut registry).unwrap();
    let after_first = registry.clone();
    let second = register_encrypt(ID, "Other".to_string(), [6u8; 32], &mut registry);
    let e = match second {
        Err(e) => e,
        Ok(_) => panic!("registered twice"),
    };
    assert_eq!(e, RegistrationRejection::AlreadyExists);
    assert_eq!(e.status(), 409);
    assert_eq!(registry, after_first);
    assert_eq!(find_app(&registry, ID).unwrap().unwrap().name, "Test");
}

#[test]
fn denied_registration_changes_nothing() {
    let request = validate_registration("{}", data(ID_TEXT, "Test", &client_key())).unwrap();
    let mut registry = Vec::new();
    let e = match complete_registration(request, DialogResult::Denied, &mut registry) {
        Err(e) => e,
        Ok(_) => panic!("registered"),
    };
    assert_eq!(e, RegistrationRejection::Denied);
    assert_eq!(e.status(), 401);
    assert!(registry.is_empty());
}

#[test]
fn corrupt_registry_fails_registration() {
    let mut registry = vec![200, 0, 0, 0, 0, 0, 0, 0, 1, 2, 3];
    let e = match register_encrypt(ID, "Test".to_string(), [5u8; 32], &mut registry) {
        Err(e) => e,
        Ok(_) => panic!("registered"),
    };
    assert_eq!(e, RegistrationRejection::Registry(RegistryError::Truncated));
    assert_eq!(e.status(), 500);
    assert_eq!(registry.len(), 11);
}

#[test]
fn empty_body_is_rejected() {
    assert_eq!(rejected("", data(ID_TEXT, "Test", &client_key())), RegistrationRejection::EmptyBody);
}

#[test]
fn unparsed_body_is_rejected() {
    assert_eq!(rejected("{not json", None), RegistrationRejection::InvalidJson);
}

#[test]
fn id_of_wrong_length_is_rejected() {
    for id in ["9870429109e940f28476064521fadaf", "98704291-09e9-40f2-8476-064521fadaf", "98704291-09e9-40f2-8476-064521fadafff", ""] {
        let e = rejected("{}", data(id, "Test", &client_key()));
        assert_eq!(e, RegistrationRejection::UuidLength);
        assert_eq!(e.status(), 400);
    }
}

#[test]
fn name_of_wrong_length_is_rejected() {
    assert_eq!(rejected("{}", data(ID_TEXT, "", &client_key())), RegistrationRejection::NameLength);
    let long = "n".repeat(25);
    assert_eq!(rejected("{}", data(ID_TEXT, &long, &client_key())), RegistrationRejection::NameLength);
    let longest = "n".repeat(24);
    assert!(validate_registration("{}", data(ID_TEXT, &longest, &client_key())).is_ok());
    let wide = "é".repeat(24);
    assert!(validate_registration("{}", data(ID_TEXT, &wide, &client_key())).is_ok());
}

#[test]
fn malformed_id_is_rejected() {
    let e = rejected("{}", data("98704291-09e9-40f2-8476-064521fadafz", "Test", &client_key()));
    assert_eq!(e, RegistrationRejection::InvalidUuid);
    let e = rejected("{}", data("98704291009e9-40f2-8476-064521fadaff", "Test", &client_key()));
    assert_eq!(e, RegistrationRejection::InvalidUuid);
}

#[test]
fn invalid_base64_key_is_rejected() {
    let e = rejected("{}", data(ID_TEXT, "Test", "***"));
    assert_eq!(e, RegistrationRejection::InvalidBase64);
    assert_eq!(e.status(), 400);
}

#[test]
fn key_of_wrong_length_is_rejected() {
    let e = rejected("{}", data(ID_TEXT, "Test", &base64::encode([5u8; 31])));
    assert_eq!(e, RegistrationRejection::PublicKeyLength);
    let e = rejected("{}", data(ID_TEXT, "Test", &base64::encode([5u8; 33])));
    assert_eq!(e, RegistrationRejection::PublicKeyLength);
}

#[test]
fn validated_request_holds_decoded_fields() {
    let request = validate_registration("{}", data(ID_TEXT, "Test", &client_key())).unwrap();
    assert_eq!(request.uuid, ID);
    assert_eq!(request.name, "Test");
    assert_eq!(request.public_key, [5u8; 32]);
}

#[test]
fn registration_json_body() {
    let r = Registration { key: "a+b=".to_string(), shared_public: "cd".to_string(), nonce: "ef".to_string() };
    assert_eq!(r.to_json(), r#"{"key": "a+b=", "shared_public": "cd", "nonce": "ef"}"#);
}

#[test]
fn rejection_statuses_and_messages() {
    assert_eq!(RegistrationRejection::EmptyBody.status(), 400);
    assert_eq!(RegistrationRejection::Internal.status(), 500);
    assert_eq!(RegistrationRejection::EmptyBody.message(), r#"{"message": "Body cannot be empty"}"#);
    assert_eq!(
        RegistrationRejection::AlreadyExists.message(),
        r#"{"message": "An app with the same UUID already exists"}"#
    );
}

#[test]
fn app_info_keeps_name() {
    assert_eq!(AppInfo::new("Deck".to_string()).name, "Deck");
}

#[test]
fn recording_name_to_restore() {
    assert_eq!(RecordingState::Regular.name_to_restore(), None);
    let state = RecordingState::CustomName("%CCYY-%MM-%DD".to_string());
    assert_eq!(state.name_to_restore(), Some("%CCYY-%MM-%DD".to_string()));
}

#[test]
fn stop_response_path() {
    assert_eq!(StopResponse::from_output_path(None).path, None);
    assert_eq!(StopResponse::from_output_path(Some(String::new())).path, None);
    assert_eq!(
        StopResponse::from_output_path(Some("/tmp/a.mkv".to_string())).path,
        Some("/tmp/a.mkv".to_string())
    );
}

#[test]
fn registry_ending_inside_a_length_is_refused() {
    let mut registry = Vec::new();
    register_encrypt(1, "First".to_string(), [5u8; 32], &mut registry).unwrap();
    registry.extend_from_slice(&[1, 2, 3]);
    let before = registry.clone();
    let e = match register_encrypt(ID, "Test".to_string(), [5u8; 32], &mut registry) {
        Err(e) => e,
        Ok(_) => panic!("registered behind a torn length"),
    };
    assert_eq!(e, RegistrationRejection::Registry(RegistryError::Unterminated));
    assert_eq!(e.status(), 500);
    assert_eq!(registry, before);
}

#[test]
fn seal_registration_sizes() {
    let mut registry = Vec::new();
    let r = seal_registration(9, "Sizes".to_string(), [5u8; 32], [1u8; 32], [2u8; 32], [3u8; 12], &mut registry).unwrap();
    assert_eq!(base64::decode(&r.key).unwrap().len(), 48);
    assert_eq!(base64::decode(&r.shared_public).unwrap().len(), 32);
}
