use ed25519_dalek::{Keypair, PublicKey as SigningPublicKey, SecretKey, Signature, Signer};
use obs_controller::identity::{parse_uuid, uuid_to_u128, AppMetadata};
use obs_controller::registration::register_encrypt;
use obs_controller::registry::find_app;
use rand_core::OsRng;
use ring::aead::{Aad, LessSafeKey, Nonce, UnboundKey, AES_256_GCM};
use sha2::{Digest, Sha256};
use x25519_dalek::{EphemeralSecret, PublicKey};

fn keypair_of(seed: &[u8; 32]) -> Keypair {
    let secret = SecretKey::from_bytes(seed).unwrap();
    let public = SigningPublicKey::from(&secret);
    Keypair { secret, public }
}

#[test]
fn validate() {
    let mut registry = Vec::new();
    let (app, seed) = AppMetadata::register(0, "Test".to_string(), &mut registry).unwrap();
    let key = keypair_of(&seed);
    // Calculate the payload hash (provided by the client in a real scenario)
    let mut hash = Sha256::new();
    hash.update(b"Test message signed");
    // Sign the digest (done by the client in a real scenario)
    let signature: Signature = key.sign(hash.finalize().as_slice());
    assert!(app.validate_message(b"Test message signed", signature.to_bytes()));
}

#[test]
fn parse() {
    let mut registry = Vec::new();
    AppMetadata::register(12, "Test Parse".to_string(), &mut registry).unwrap();
    assert_eq!(12, find_app(&registry, 12).unwrap().unwrap().uuid);
}

#[test]
fn uuid() {
    let uuid = parse_uuid("98704291-09e9-40f2-8476-064521fadaff").unwrap();
    assert_eq!(340090132878606694826081478218872942744_u128, uuid_to_u128(uuid));
}

#[test]
fn get_private_key() {
    let secret = EphemeralSecret::new(OsRng);
    let pub_key = PublicKey::from(&secret);
    let uuid = uuid_to_u128(parse_uuid("98704291-09e9-40f2-8476-064521fadaff").unwrap());
    let mut registry = Vec::new();
    let registration =
        register_encrypt(uuid, String::from("Test"), pub_key.to_bytes(), &mut registry).unwrap();
    let mut server_pub = [0u8; 32];
    server_pub.copy_from_slice(&base64::decode(&registration.shared_public).unwrap());
    let server_pub = PublicKey::from(server_pub);
    let shared = secret.diffie_hellman(&server_pub);
    let aes = LessSafeKey::new(UnboundKey::new(&AES_256_GCM, shared.as_bytes()).unwrap());
    let mut nonce = [0u8; 12];
    nonce.copy_from_slice(&base64::decode(&registration.nonce).unwrap());
    let mut priv_bytes = [0u8; 48];
    priv_bytes.copy_from_slice(&base64::decode(&registration.key).unwrap());
    aes.open_in_place(Nonce::assume_unique_for_key(nonce), Aad::empty(), &mut priv_bytes).unwrap();
    SecretKey::from_bytes(&priv_bytes[..32]).unwrap();
}
