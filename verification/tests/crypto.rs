use base64::Engine;
use commut::crypto::{AuthorizedKeySet, CryptoError};
use commut::state::{Checkpoint, SessionCrypto};
use p256::ecdsa::signature::Signer;
use p256::ecdsa::{Signature, SigningKey};
use p256::pkcs8::{DecodePublicKey, EncodePublicKey, LineEnding};
use p256::{PublicKey, SecretKey};

fn b64() -> base64::engine::GeneralPurpose {
    base64::engine::general_purpose::STANDARD
}

fn keys_for(seed: u8) -> (SigningKey, AuthorizedKeySet) {
    let signing_key = SigningKey::from_bytes((&[seed; 32]).into()).expect("signing key");
    let pem = signing_key
        .verifying_key()
        .to_public_key_pem(LineEnding::default())
        .expect("public key pem");
    let keys = AuthorizedKeySet::from_public_pem(&pem).expect("valid public key");
    (signing_key, keys)
}

fn spki_base64(secret: &SecretKey) -> String {
    b64().encode(secret.public_key().to_public_key_der().expect("der").as_bytes())
}

#[test]
fn signature_verifier_accepts_webcrypto_compatible_fixed_width_signatures() {
    let (signing_key, keys) = keys_for(3);
    let value = b64().encode(b"nonce");
    let signature: Signature = signing_key.sign(b"nonce");
    let signature_base64 = b64().encode(signature.to_bytes());
    let wrong_signature: Signature = signing_key.sign(b"other");
    let wrong_signature_base64 = b64().encode(wrong_signature.to_bytes());

    assert!(keys
        .verify_authorization_signature(&value, &signature_base64)
        .expect("verification should succeed"));
    assert!(!keys
        .verify_authorization_signature(&value, &wrong_signature_base64)
        .expect("verification should succeed"));
}

#[test]
fn checkpoint_and_session_crypto_generation_return_base64_wire_values() {
    let (_, keys) = keys_for(9);
    let (id, checkpoint) = keys.generate_checkpoint().expect("checkpoint generation");
    assert!(b64().decode(id.as_bytes()).is_ok());
    let server_pub_der = b64()
        .decode(checkpoint.server_ephemeral_public_key_base64.as_bytes())
        .expect("server public key der");
    PublicKey::from_public_key_der(&server_pub_der).expect("valid server public key");

    let client_secret = SecretKey::from_slice(&[5_u8; 32]).expect("client secret");
    let client_pub = spki_base64(&client_secret);
    let (salt_base64, session) = keys
        .derive_session_crypto(&checkpoint, &client_pub)
        .expect("session crypto derivation");
    assert_eq!(
        b64().decode(salt_base64.as_bytes()).expect("salt").len(),
        32,
        "salt must decode to 32 bytes"
    );
    assert_ne!(session.decrypt_key_bytes, session.encrypt_key_bytes);
}

#[test]
fn session_crypto_encrypt_and_decrypt_round_trip() {
    let session = SessionCrypto {
        salt_base64: "salt".to_owned(),
        decrypt_key_bytes: [7_u8; 16],
        encrypt_key_bytes: [7_u8; 16],
    };
    let iv = [4_u8; 12];
    let ciphertext = session.encrypt(&iv, b"hello").expect("encrypt");
    let plaintext = session.decrypt(&iv, &ciphertext).expect("decrypt");
    assert_eq!(plaintext, b"hello");
}

#[test]
fn ciphertext_is_not_the_plaintext_and_carries_a_tag() {
    let session = SessionCrypto {
        salt_base64: "salt".to_owned(),
        decrypt_key_bytes: [8_u8; 16],
        encrypt_key_bytes: [7_u8; 16],
    };
    let iv = [4_u8; 12];
    let ciphertext = session.encrypt(&iv, b"hello").expect("encrypt");
    assert_eq!(ciphertext.len(), 5 + 16);
    assert_ne!(&ciphertext[..5], b"hello");
    assert_eq!(session.decrypt(&iv, &ciphertext), Err(CryptoError::Decrypt));
    assert_eq!(session.decrypt(&iv, b"short"), Err(CryptoError::Decrypt));
}

#[test]
fn der_signatures_are_accepted_too() {
    let (signing_key, keys) = keys_for(4);
    let value = b64().encode(b"ticket-id");
    let signature: Signature = signing_key.sign(b"ticket-id");
    let der = b64().encode(signature.to_der().as_bytes());
    assert!(keys.verify_authorization_signature(&value, &der).expect("der signature parses"));
}

#[test]
fn signatures_of_another_key_are_rejected() {
    let (_, keys) = keys_for(4);
    let (other, _) = keys_for(5);
    let value = b64().encode(b"nonce");
    let signature: Signature = other.sign(b"nonce");
    assert!(!keys
        .verify_authorization_signature(&value, &b64().encode(signature.to_bytes()))
        .expect("well-formed signature"));
}

#[test]
fn malformed_wire_values_are_errors() {
    let (_, keys) = keys_for(4);
    let value = b64().encode(b"nonce");
    assert!(matches!(
        keys.verify_authorization_signature("not base64!", &value),
        Err(CryptoError::Base64(_))
    ));
    assert!(matches!(
        keys.verify_authorization_signature(&value, "***"),
        Err(CryptoError::Base64(_))
    ));
    assert!(matches!(
        keys.verify_authorization_signature(&value, &b64().encode([1u8; 10])),
        Err(CryptoError::Signature(_))
    ));
    assert!(matches!(
        AuthorizedKeySet::from_public_pem("not a pem"),
        Err(CryptoError::PublicKeyPem(_))
    ));
}

#[test]
fn derived_keys_are_hkdf_of_the_ecdh_secret_with_the_direction_labels() {
    let (_, keys) = keys_for(9);
    let server_secret = SecretKey::from_slice(&[6_u8; 32]).expect("server secret");
    let client_secret = SecretKey::from_slice(&[5_u8; 32]).expect("client secret");
    let checkpoint = Checkpoint {
        server_ephemeral_private_key: [6_u8; 32],
        server_ephemeral_public_key_base64: spki_base64(&server_secret),
    };
    let salt = [2_u8; 32];
    let session = keys
        .derive_session_crypto_with_salt(&checkpoint, &spki_base64(&client_secret), salt)
        .expect("derivation");

    let shared = p256::ecdh::diffie_hellman(
        client_secret.to_nonzero_scalar(),
        server_secret.public_key().as_affine(),
    );
    let hkdf = hkdf::Hkdf::<sha2::Sha256>::new(Some(&salt), shared.raw_secret_bytes().as_slice());
    let mut up = [0u8; 16];
    let mut down = [0u8; 16];
    hkdf.expand(b"client -> server", &mut up).expect("expand");
    hkdf.expand(b"server -> client", &mut down).expect("expand");
    assert_eq!(session.decrypt_key_bytes, up);
    assert_eq!(session.encrypt_key_bytes, down);
    assert_eq!(session.salt_base64, b64().encode(salt));
}

#[test]
fn client_key_import_failures_are_reported() {
    let (_, keys) = keys_for(9);
    let server_secret = SecretKey::from_slice(&[6_u8; 32]).expect("server secret");
    let checkpoint = Checkpoint {
        server_ephemeral_private_key: [6_u8; 32],
        server_ephemeral_public_key_base64: spki_base64(&server_secret),
    };
    let not_a_key = b64().encode([1u8; 20]);
    let result = keys.derive_session_crypto_with_salt(&checkpoint, &not_a_key, [0u8; 32]);
    assert_eq!(result.err(), Some(CryptoError::ClientPublicKey));
    assert_eq!(CryptoError::ClientPublicKey.message(), "client public key import failure");
    let result = keys.derive_session_crypto_with_salt(&checkpoint, "%%%", [0u8; 32]);
    assert!(matches!(result, Err(CryptoError::Base64(_))));
}

#[test]
fn checkpoint_public_key_belongs_to_its_secret() {
    let (_, keys) = keys_for(9);
    let (_, checkpoint) = keys.generate_checkpoint().expect("checkpoint generation");
    let secret = SecretKey::from_slice(&checkpoint.server_ephemeral_private_key).expect("valid scalar");
    assert_eq!(checkpoint.server_ephemeral_public_key_base64, spki_base64(&secret));
    let (other_id, other) = keys.generate_checkpoint().expect("checkpoint generation");
    assert_ne!(other.server_ephemeral_private_key, checkpoint.server_ephemeral_private_key);
    assert_eq!(b64().decode(other_id.as_bytes()).expect("id").len(), 8);
}
