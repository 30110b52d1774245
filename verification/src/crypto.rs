//! Web Crypto-compatible cryptographic boundary: Base64 wire values, the
//! authorized P-256 ECDSA key, ephemeral P-256 ECDH, HKDF-SHA-256 and
//! AES-128-GCM.
//!
//! Every computation is made by the outside crates (`base64`, `p256`,
//! `hkdf` with `sha2`, `aes-gcm`, `rand`). Keys travel through the library
//! as plain bytes: the authorized key and peer keys as SEC1 points, secret
//! keys as their 32-byte big-endian scalar.

use vstd::prelude::*;
use base64::Engine;
use p256::ecdsa::signature::Verifier;
use p256::pkcs8::DecodePublicKey;
use p256::pkcs8::EncodePublicKey;
use aes_gcm::aead::Aead;
use aes_gcm::aead::KeyInit;
use rand::RngCore;

use crate::contract::{HKDF_INFO_UP, HKDF_INFO_DOWN};
use crate::state::{Checkpoint, SessionCrypto};

verus! {

/// Largest plaintext AES-GCM encrypts (`aes_gcm::P_MAX`).
pub const AES_GCM_P_MAX: u64 = 68719476736;

/// Length of an AES-GCM authentication tag.
pub const AES_GCM_TAG_LEN: usize = 16;

/// Standard Base64 (with padding) of `bytes`, as `base64`'s `STANDARD`
/// engine writes it.
pub uninterp spec fn spec_base64_encode(bytes: Seq<u8>) -> Seq<char>;

/// What `base64`'s `STANDARD` engine makes of `text`: the decoded bytes,
/// or the text of the `DecodeError` it rejects the text with.
pub uninterp spec fn spec_base64_decode_outcome(text: Seq<char>) -> Result<Seq<u8>, Seq<char>>;

/// The bytes that `base64`'s `STANDARD` engine decodes from `text`, or
/// `None` when it rejects the text.
pub open spec fn spec_base64_decode(text: Seq<char>) -> Option<Seq<u8>> {
    match spec_base64_decode_outcome(text) {
        Ok(bytes) => Some(bytes),
        Err(_) => None,
    }
}

/// The uncompressed SEC1 point of the P-256 public key in an SPKI PEM
/// document, or `None` when `p256` rejects the document.
pub uninterp spec fn spec_public_key_from_pem(pem: Seq<char>) -> Option<Seq<u8>>;

/// The uncompressed SEC1 point of the P-256 public key in an SPKI DER
/// document, or `None` when `p256` rejects the document.
pub uninterp spec fn spec_public_key_from_der(der: Seq<u8>) -> Option<Seq<u8>>;

/// The SPKI DER encoding of the public key of a P-256 secret scalar, or
/// `None` when `p256` rejects the scalar or the encoding fails.
pub uninterp spec fn spec_public_key_der_of_secret(secret: Seq<u8>) -> Option<Seq<u8>>;

/// The fixed-width `r || s` form of a fixed-width ECDSA P-256 signature, or
/// `None` when `p256` rejects it.
pub uninterp spec fn spec_signature_from_slice(bytes: Seq<u8>) -> Option<Seq<u8>>;

/// What `p256` makes of an ASN.1 DER ECDSA P-256 signature: its fixed-width
/// `r || s` form, or the text of the error it rejects the bytes with.
pub uninterp spec fn spec_signature_from_der_outcome(bytes: Seq<u8>) -> Result<Seq<u8>, Seq<char>>;

/// The fixed-width `r || s` form of an ASN.1 DER ECDSA P-256 signature, or
/// `None` when `p256` rejects it.
pub open spec fn spec_signature_from_der(bytes: Seq<u8>) -> Option<Seq<u8>> {
    match spec_signature_from_der_outcome(bytes) {
        Ok(sig) => Some(sig),
        Err(_) => None,
    }
}

/// Whether `p256` accepts the fixed-width signature `signature` over
/// `message` (hashed with SHA-256) for the SEC1 public key `public_key`.
pub uninterp spec fn spec_ecdsa_verify(public_key: Seq<u8>, message: Seq<u8>, signature: Seq<u8>) -> bool;

/// The raw ECDH shared secret (x coordinate) of a P-256 secret scalar and a
/// SEC1 public point, or `None` when `p256` rejects either of them.
pub uninterp spec fn spec_ecdh(secret: Seq<u8>, public_key: Seq<u8>) -> Option<Seq<u8>>;

/// HKDF-SHA-256 (extract with `salt`, expand with `info`) to `len` bytes.
pub uninterp spec fn spec_hkdf_sha256(salt: Seq<u8>, ikm: Seq<u8>, info: Seq<u8>, len: nat) -> Seq<u8>;

/// AES-128-GCM encryption (no associated data): ciphertext followed by the
/// 16-byte tag.
pub uninterp spec fn spec_aes128gcm_encrypt(key: Seq<u8>, iv: Seq<u8>, plaintext: Seq<u8>) -> Seq<u8>;

/// AES-128-GCM decryption (no associated data) of ciphertext-and-tag, or
/// `None` when authentication fails.
pub uninterp spec fn spec_aes128gcm_decrypt(key: Seq<u8>, iv: Seq<u8>, ciphertext_and_tag: Seq<u8>) -> Option<Seq<u8>>;

/// `Engine::encode` of `base64::engine::general_purpose::STANDARD`.
/// The result is the named encoding, padded to four characters
/// for every started group of three bytes (`encoded_len` with padding), and
/// decoding it gives the bytes back.
#[verifier::external_body]
pub(crate) fn base64_encode(bytes: &[u8]) -> (text: String)
    ensures
        text@ == spec_base64_encode(bytes@),
        text@.len() == 4 * ((bytes@.len() + 2) / 3),
        spec_base64_decode(text@) == Some(bytes@),
{
    base64::engine::general_purpose::STANDARD.encode(bytes)
}

/// `Engine::decode` of `base64::engine::general_purpose::STANDARD`, applied
/// to the UTF-8 bytes of `text`. The error is the crate's message (the
/// `Display` text of its `DecodeError`).
#[verifier::external_body]
pub(crate) fn base64_decode(text: &str) -> (r: Result<Vec<u8>, String>)
    ensures
        match r {
            Ok(bytes) => spec_base64_decode_outcome(text@) == Ok::<Seq<u8>, Seq<char>>(bytes@),
            Err(message) => spec_base64_decode_outcome(text@) == Err::<Seq<u8>, Seq<char>>(message@),
        },
{
    base64::engine::general_purpose::STANDARD.decode(text.as_bytes()).map_err(|e| e.to_string())
}

/// `p256::ecdsa::VerifyingKey::from_public_key_pem`, the key returned as its
/// uncompressed SEC1 point. The error is the crate's message.
#[verifier::external_body]
fn public_key_from_pem(pem: &str) -> (r: Result<Vec<u8>, String>)
    ensures
        match r {
            Ok(point) => spec_public_key_from_pem(pem@) == Some(point@),
            Err(_) => spec_public_key_from_pem(pem@) is None,
        },
{
    match p256::ecdsa::VerifyingKey::from_public_key_pem(pem) {
        Ok(key) => Ok(key.to_encoded_point(false).as_bytes().to_vec()),
        Err(e) => Err(e.to_string()),
    }
}

/// `p256::PublicKey::from_public_key_der`, the key returned as its
/// uncompressed SEC1 point.
#[verifier::external_body]
fn public_key_from_der(der: &[u8]) -> (r: Option<Vec<u8>>)
    ensures
        match r {
            Some(point) => spec_public_key_from_der(der@) == Some(point@),
            None => spec_public_key_from_der(der@) is None,
        },
{
    match p256::PublicKey::from_public_key_der(der) {
        Ok(key) => Some(key.to_sec1_bytes().to_vec()),
        Err(_) => None,
    }
}

/// `p256::SecretKey::public_key` followed by `to_public_key_der`, for the
/// secret given by its scalar bytes (`SecretKey::from_slice`). The source
/// shows that `PublicKey::from_public_key_der` reads such a document back
/// (an SPKI with the P-256 algorithm and an uncompressed point).
#[verifier::external_body]
fn public_key_der_of_secret(secret: &[u8; 32]) -> (r: Option<Vec<u8>>)
    ensures
        match r {
            Some(der) => spec_public_key_der_of_secret(secret@) == Some(der@)
                && spec_public_key_from_der(der@) is Some,
            None => spec_public_key_der_of_secret(secret@) is None,
        },
{
    match p256::SecretKey::from_slice(secret) {
        Ok(key) => match key.public_key().to_public_key_der() {
            Ok(der) => Some(der.as_bytes().to_vec()),
            Err(_) => None,
        },
        Err(_) => None,
    }
}

/// `p256::SecretKey::random` with the operating system's generator, as its
/// scalar bytes. Which scalar is drawn is left open; the source shows it is
/// a nonzero scalar below the curve order, which `SecretKey::from_slice`
/// accepts and whose public key `to_public_key_der` encodes.
#[verifier::external_body]
fn random_secret_key() -> (secret: [u8; 32])
    ensures
        spec_public_key_der_of_secret(secret@) is Some,
{
    p256::SecretKey::random(&mut rand::rngs::OsRng).to_bytes().into()
}

/// `p256::ecdsa::Signature::from_slice`, as the signature's fixed-width bytes.
#[verifier::external_body]
fn signature_from_slice(bytes: &[u8]) -> (r: Option<Vec<u8>>)
    ensures
        match r {
            Some(sig) => spec_signature_from_slice(bytes@) == Some(sig@),
            None => spec_signature_from_slice(bytes@) is None,
        },
{
    match p256::ecdsa::Signature::from_slice(bytes) {
        Ok(sig) => Some(sig.to_bytes().to_vec()),
        Err(_) => None,
    }
}

/// `p256::ecdsa::Signature::from_der`, as the signature's fixed-width bytes.
/// The error is the crate's message (the `Display` text of its error).
#[verifier::external_body]
fn signature_from_der(bytes: &[u8]) -> (r: Result<Vec<u8>, String>)
    ensures
        match r {
            Ok(sig) => spec_signature_from_der_outcome(bytes@) == Ok::<Seq<u8>, Seq<char>>(sig@),
            Err(message) => spec_signature_from_der_outcome(bytes@) == Err::<Seq<u8>, Seq<char>>(message@),
        },
{
    match p256::ecdsa::Signature::from_der(bytes) {
        Ok(sig) => Ok(sig.to_bytes().to_vec()),
        Err(e) => Err(e.to_string()),
    }
}

/// `Verifier::verify` of `p256::ecdsa::VerifyingKey` (built with
/// `from_sec1_bytes`) on a fixed-width signature (`Signature::from_slice`);
/// a key or signature the crate rejects verifies nothing.
#[verifier::external_body]
fn ecdsa_verify(public_key: &[u8], message: &[u8], signature: &[u8]) -> (ok: bool)
    ensures
        ok == spec_ecdsa_verify(public_key@, message@, signature@),
{
    match (p256::ecdsa::VerifyingKey::from_sec1_bytes(public_key), p256::ecdsa::Signature::from_slice(signature)) {
        (Ok(key), Ok(sig)) => key.verify(message, &sig).is_ok(),
        _ => false,
    }
}

/// `p256::ecdh::diffie_hellman` of a secret scalar (`SecretKey::from_slice`)
/// and a SEC1 point (`PublicKey::from_sec1_bytes`), as the raw shared secret.
/// The source shows it fails only when one of the two reads fails: a secret
/// whose public key could be encoded was read by `from_slice`, and a point
/// that `from_public_key_der` gave out is re-read by `from_sec1_bytes`.
#[verifier::external_body]
fn ecdh(secret: &[u8; 32], public_key: &[u8]) -> (r: Option<Vec<u8>>)
    ensures
        match r {
            Some(shared) => spec_ecdh(secret@, public_key@) == Some(shared@),
            None => spec_ecdh(secret@, public_key@) is None,
        },
        (spec_public_key_der_of_secret(secret@) is Some
            && exists|der: Seq<u8>| #[trigger] spec_public_key_from_der(der) == Some(public_key@)) ==> r is Some,
{
    match (p256::SecretKey::from_slice(secret), p256::PublicKey::from_sec1_bytes(public_key)) {
        (Ok(sk), Ok(pk)) => Some(p256::ecdh::diffie_hellman(sk.to_nonzero_scalar(), pk.as_affine()).raw_secret_bytes().to_vec()),
        _ => None,
    }
}

/// `hkdf::Hkdf::<sha2::Sha256>::new` with `Some(salt)`, then `expand` into
/// 16 bytes. The source shows that expansion only fails above 255 * 32
/// bytes, so for 16 bytes the result is always present.
#[verifier::external_body]
fn hkdf_sha256_16(salt: &[u8], ikm: &[u8], info: &[u8]) -> (r: Option<[u8; 16]>)
    ensures
        match r {
            Some(okm) => okm@ == spec_hkdf_sha256(salt@, ikm@, info@, 16),
            None => false,
        },
{
    let mut okm = [0u8; 16];
    match hkdf::Hkdf::<sha2::Sha256>::new(Some(salt), ikm).expand(info, &mut okm) {
        Ok(()) => Some(okm),
        Err(_) => None,
    }
}

/// `Aead::encrypt` of `aes_gcm::Aes128Gcm`. The source shows that it fails
/// exactly when the plaintext is longer than `P_MAX`; the ciphertext is the
/// plaintext's length plus the 16-byte tag; and decrypting it with the same
/// key and IV gives the plaintext back.
#[verifier::external_body]
pub(crate) fn aes128gcm_encrypt(key: &[u8; 16], iv: &[u8; 12], plaintext: &[u8]) -> (r: Option<Vec<u8>>)
    ensures
        r is Some <==> plaintext@.len() <= AES_GCM_P_MAX,
        match r {
            Some(c) => {
                &&& c@ == spec_aes128gcm_encrypt(key@, iv@, plaintext@)
                &&& c@.len() == plaintext@.len() + AES_GCM_TAG_LEN
                &&& spec_aes128gcm_decrypt(key@, iv@, c@) == Some(plaintext@)
            },
            None => true,
        },
{
    let cipher = aes_gcm::Aes128Gcm::new(key.into());
    cipher.encrypt(iv.into(), plaintext).ok()
}

/// `Aead::decrypt` of `aes_gcm::Aes128Gcm`. The source shows that a
/// result is 16 bytes shorter than its input.
#[verifier::external_body]
pub(crate) fn aes128gcm_decrypt(key: &[u8; 16], iv: &[u8; 12], ciphertext_and_tag: &[u8]) -> (r: Option<Vec<u8>>)
    ensures
        match r {
            Some(p) => {
                &&& spec_aes128gcm_decrypt(key@, iv@, ciphertext_and_tag@) == Some(p@)
                &&& ciphertext_and_tag@.len() == p@.len() + AES_GCM_TAG_LEN
            },
            None => spec_aes128gcm_decrypt(key@, iv@, ciphertext_and_tag@) is None,
        },
{
    let cipher = aes_gcm::Aes128Gcm::new(key.into());
    cipher.decrypt(iv.into(), ciphertext_and_tag).ok()
}

/// `RngCore::fill_bytes` of `rand::thread_rng()` over `len` bytes. Nothing is
/// claimed of the values.
#[verifier::external_body]
pub(crate) fn random_bytes(len: usize) -> (bytes: Vec<u8>)
    ensures
        bytes@.len() == len,
{
    let mut bytes = vec![0u8; len];
    rand::thread_rng().fill_bytes(&mut bytes);
    bytes
}


/// Why a cryptographic step failed.
#[derive(Debug, Clone, PartialEq, Eq)]
pub enum CryptoError {
    /// The authorized public key PEM was rejected; the crate's message.
    PublicKeyPem(String),
    /// A Base64 wire value was rejected; the crate's message.
    Base64(String),
    /// A signature is neither fixed-width nor DER; the crate's message.
    Signature(String),
    /// The client's ephemeral public key is not an SPKI P-256 key.
    ClientPublicKey,
    /// The server's ephemeral secret is not a P-256 scalar.
    ServerSecretKey,
    /// The server's ephemeral public key could not be encoded.
    PublicKeyEncoding,
    /// HKDF expansion failed.
    KeyDerivation,
    /// AES-GCM encryption failed.
    Encrypt,
    /// AES-GCM decryption failed.
    Decrypt,
}

impl CryptoError {
    /// The message the server reports: the outside crate's message where
    /// the error carries one, else a fixed text.
    pub open spec fn spec_message(self) -> Seq<char> {
        match self {
            CryptoError::PublicKeyPem(text) => text@,
            CryptoError::Base64(text) => text@,
            CryptoError::Signature(text) => text@,
            CryptoError::ClientPublicKey => "client public key import failure"@,
            CryptoError::ServerSecretKey => "server ephemeral key failure"@,
            CryptoError::PublicKeyEncoding => "public key encoding failure"@,
            CryptoError::KeyDerivation => "hkdf expand failure"@,
            CryptoError::Encrypt => "aes-gcm encrypt failure"@,
            CryptoError::Decrypt => "aes-gcm decrypt failure"@,
        }
    }

    /// The message the server reports for this error.
    pub fn message(&self) -> (m: String)
        ensures
            m@ == self.spec_message(),
    {
        match self {
            CryptoError::PublicKeyPem(m) => m.clone(),
            CryptoError::Base64(m) => m.clone(),
            CryptoError::Signature(m) => m.clone(),
            CryptoError::ClientPublicKey => String::from_str("client public key import failure"),
            CryptoError::ServerSecretKey => String::from_str("server ephemeral key failure"),
            CryptoError::PublicKeyEncoding => String::from_str("public key encoding failure"),
            CryptoError::KeyDerivation => String::from_str("hkdf expand failure"),
            CryptoError::Encrypt => String::from_str("aes-gcm encrypt failure"),
            CryptoError::Decrypt => String::from_str("aes-gcm decrypt failure"),
        }
    }
}

/// The signature bytes accepted first as fixed-width, then as DER.
pub open spec fn spec_parse_signature(bytes: Seq<u8>) -> Option<Seq<u8>> {
    match spec_signature_from_slice(bytes) {
        Some(sig) => Some(sig),
        None => spec_signature_from_der(bytes),
    }
}

/// Outcome of verifying `signature_base64` over the Base64-decoded
/// `signed_base64_value` with the public key `key`: `None` when one of the
/// two values does not decode or the signature does not parse.
pub open spec fn spec_verify_authorization(key: Seq<u8>, signed_base64_value: Seq<char>, signature_base64: Seq<char>) -> Option<bool> {
    match (spec_base64_decode(signed_base64_value), spec_base64_decode(signature_base64)) {
        (Some(message), Some(signature_bytes)) => match spec_parse_signature(signature_bytes) {
            Some(signature) => Some(spec_ecdsa_verify(key, message, signature)),
            None => None,
        },
        _ => None,
    }
}

/// The message of a failed verification of `signature_base64` over
/// `signed_base64_value`: the `base64` error of the first value that does
/// not decode, else the `p256` error of reading the signature as DER (the
/// fixed-width reading having failed first). Meaningful only where
/// [`spec_verify_authorization`] is `None`.
pub open spec fn spec_verify_error_message(signed_base64_value: Seq<char>, signature_base64: Seq<char>) -> Seq<char> {
    match spec_base64_decode_outcome(signed_base64_value) {
        Err(message) => message,
        Ok(_) => match spec_base64_decode_outcome(signature_base64) {
            Err(message) => message,
            Ok(signature_bytes) => match spec_signature_from_der_outcome(signature_bytes) {
                Err(message) => message,
                Ok(_) => Seq::empty(),
            },
        },
    }
}

/// The authorized ECDSA P-256 public key, held as its SEC1 point.
#[derive(Debug, Clone, PartialEq, Eq)]
pub struct AuthorizedKeySet {
    verifying_key: Vec<u8>,
}

impl View for AuthorizedKeySet {
    type V = Seq<u8>;

    closed spec fn view(&self) -> Seq<u8> {
        self.verifying_key@
    }
}

impl AuthorizedKeySet {
    /// Parse the authorized ECDSA public key PEM used for handshake validation.
    pub fn from_public_pem(public_key_pem: &str) -> (r: Result<Self, CryptoError>)
        ensures
            match r {
                Ok(keys) => spec_public_key_from_pem(public_key_pem@) == Some(keys@),
                Err(e) => spec_public_key_from_pem(public_key_pem@) is None && e is PublicKeyPem,
            },
    {
        match public_key_from_pem(public_key_pem) {
            Ok(verifying_key) => Ok(AuthorizedKeySet { verifying_key }),
            Err(message) => Err(CryptoError::PublicKeyPem(message)),
        }
    }

    /// Verify a browser-produced ECDSA signature over the Base64-decoded wire
    /// value. The signature is read as fixed-width `r || s` and, failing
    /// that, as DER.
    pub fn verify_authorization_signature(&self, signed_base64_value: &str, signature_base64: &str) -> (r: Result<bool, CryptoError>)
        ensures
            match r {
                Ok(valid) => spec_verify_authorization(self@, signed_base64_value@, signature_base64@) == Some(valid),
                Err(e) => {
                    &&& spec_verify_authorization(self@, signed_base64_value@, signature_base64@) is None
                    &&& (spec_base64_decode(signed_base64_value@) is None || spec_base64_decode(signature_base64@) is None) <==> e is Base64
                    &&& e is Base64 || e is Signature
                    &&& e.spec_message() == spec_verify_error_message(signed_base64_value@, signature_base64@)
                },
            },
    {
        let message = match base64_decode(signed_base64_value) {
            Ok(m) => m,
            Err(m) => {
                return Err(CryptoError::Base64(m));
            },
        };
        let signature_bytes = match base64_decode(signature_base64) {
            Ok(b) => b,
            Err(m) => {
                return Err(CryptoError::Base64(m));
            },
        };
        let signature = match signature_from_slice(&signature_bytes) {
            Some(sig) => sig,
            None => match signature_from_der(&signature_bytes) {
                Ok(sig) => sig,
                Err(m) => {
                    return Err(CryptoError::Signature(m));
                },
            },
        };
        Ok(ecdsa_verify(&self.verifying_key, &message, &signature))
    }

    /// Generate a one-shot checkpoint for the `/api/ticket` to `/api/salt`
    /// handshake: an id made of 8 random bytes in Base64 (12 characters),
    /// and a fresh ephemeral P-256 secret with its SPKI public key in Base64.
    /// Both texts decode back to their bytes, and `p256` reads the public
    /// key document back. It always succeeds.
    pub fn generate_checkpoint(&self) -> (r: Result<(String, Checkpoint), CryptoError>)
        ensures
            r is Ok,
            match r {
                Ok((id, checkpoint)) => {
                    &&& id@.len() == 12
                    &&& exists|id_bytes: Seq<u8>| id_bytes.len() == 8 && #[trigger] spec_base64_encode(id_bytes) == id@
                        && spec_base64_decode(id@) == Some(id_bytes)
                    &&& spec_public_key_der_of_secret(checkpoint.server_ephemeral_private_key@) matches Some(der)
                        && checkpoint.server_ephemeral_public_key_base64@ == spec_base64_encode(der)
                        && spec_base64_decode(checkpoint.server_ephemeral_public_key_base64@) == Some(der)
                        && spec_public_key_from_der(der) is Some
                },
                Err(_) => false,
            },
    {
        let id_bytes = random_bytes(8);
        let id = base64_encode(&id_bytes);
        let secret = random_secret_key();
        let der = match public_key_der_of_secret(&secret) {
            Some(der) => der,
            None => {
                return Err(CryptoError::PublicKeyEncoding);
            },
        };
        let checkpoint = Checkpoint {
            server_ephemeral_private_key: secret,
            server_ephemeral_public_key_base64: base64_encode(&der),
        };
        Ok((id, checkpoint))
    }

    /// Complete the server side of the ECDH + HKDF handshake used by
    /// `POST /api/salt` with 32 fresh random salt bytes; returns the salt in
    /// Base64 beside the session keys.
    pub fn derive_session_crypto(&self, checkpoint: &Checkpoint, client_ephemeral_public_key_base64: &str) -> (r: Result<(String, SessionCrypto), CryptoError>)
        ensures
            match r {
                Ok((salt_base64, session)) => {
                    &&& salt_base64@ == session.salt_base64@
                    &&& exists|salt: Seq<u8>| #![trigger spec_session_keys(checkpoint.server_ephemeral_private_key@, client_ephemeral_public_key_base64@, salt)]
                        salt.len() == 32 && spec_base64_decode(salt_base64@) == Some(salt)
                        && spec_session_keys(checkpoint.server_ephemeral_private_key@, client_ephemeral_public_key_base64@, salt)
                        == Some((session.decrypt_key_bytes@, session.encrypt_key_bytes@))
                },
                Err(e) => spec_session_error(checkpoint.server_ephemeral_private_key@, client_ephemeral_public_key_base64@) matches Some(kind) && e.kind() == kind
                    && (e is Base64 ==> spec_base64_decode_outcome(client_ephemeral_public_key_base64@) == Err::<Seq<u8>, Seq<char>>(e.spec_message())),
            },
            spec_public_key_der_of_secret(checkpoint.server_ephemeral_private_key@) is Some
                && client_key_readable(client_ephemeral_public_key_base64@) ==> r is Ok,
    {
        let salt_bytes = random_bytes(32);
        let mut salt = [0u8; 32];
        let mut k: usize = 0;
        while k < 32
            invariant
                k <= 32,
                salt_bytes@.len() == 32,
                forall|j: int| 0 <= j < k ==> salt@[j] == salt_bytes@[j],
            decreases 32 - k,
        {
            salt[k] = salt_bytes[k];
            k = k + 1;
        }
        let session_crypto = self.derive_session_crypto_with_salt(checkpoint, client_ephemeral_public_key_base64, salt)?;
        let salt_base64 = session_crypto.salt_base64.clone();
        assert(salt@ =~= salt_bytes@);
        assert(spec_session_keys(checkpoint.server_ephemeral_private_key@, client_ephemeral_public_key_base64@, salt@)
            == Some((session_crypto.decrypt_key_bytes@, session_crypto.encrypt_key_bytes@)));
        Ok((salt_base64, session_crypto))
    }

    /// Deterministic variant of the ECDH + HKDF handshake: the shared secret
    /// of the checkpoint's secret and the client's SPKI public key (Base64)
    /// is expanded with HKDF-SHA-256 and `salt` into the `client -> server`
    /// (decrypt) and `server -> client` (encrypt) AES-128 keys.
    pub fn derive_session_crypto_with_salt(&self, checkpoint: &Checkpoint, client_ephemeral_public_key_base64: &str, salt: [u8; 32]) -> (r: Result<SessionCrypto, CryptoError>)
        ensures
            match r {
                Ok(session) => {
                    &&& spec_session_keys(checkpoint.server_ephemeral_private_key@, client_ephemeral_public_key_base64@, salt@)
                        == Some((session.decrypt_key_bytes@, session.encrypt_key_bytes@))
                    &&& session.salt_base64@ == spec_base64_encode(salt@)
                    &&& spec_base64_decode(session.salt_base64@) == Some(salt@)
                },
                Err(e) => spec_session_error(checkpoint.server_ephemeral_private_key@, client_ephemeral_public_key_base64@) matches Some(kind) && e.kind() == kind
                    && (e is Base64 ==> spec_base64_decode_outcome(client_ephemeral_public_key_base64@) == Err::<Seq<u8>, Seq<char>>(e.spec_message())),
            },
            r is Ok <==> spec_session_error(checkpoint.server_ephemeral_private_key@, client_ephemeral_public_key_base64@) is None,
            spec_public_key_der_of_secret(checkpoint.server_ephemeral_private_key@) is Some
                && client_key_readable(client_ephemeral_public_key_base64@) ==> r is Ok,
    {
        let client_public_key_der = match base64_decode(client_ephemeral_public_key_base64) {
            Ok(der) => der,
            Err(m) => {
                return Err(CryptoError::Base64(m));
            },
        };
        let client_public_key = match public_key_from_der(&client_public_key_der) {
            Some(point) => point,
            None => {
                return Err(CryptoError::ClientPublicKey);
            },
        };
        let shared_secret = match ecdh(&checkpoint.server_ephemeral_private_key, &client_public_key) {
            Some(shared) => shared,
            None => {
                return Err(CryptoError::ServerSecretKey);
            },
        };
        let decrypt_key_bytes = derive_aes128_key(&salt, &shared_secret, &HKDF_INFO_UP)?;
        let encrypt_key_bytes = derive_aes128_key(&salt, &shared_secret, &HKDF_INFO_DOWN)?;
        Ok(SessionCrypto { salt_base64: base64_encode(&salt), decrypt_key_bytes, encrypt_key_bytes })
    }
}

/// `text` is the Base64 of an SPKI document that `p256` reads as a P-256
/// public key.
pub open spec fn client_key_readable(text: Seq<char>) -> bool {
    spec_base64_decode(text) matches Some(der) && spec_public_key_from_der(der) is Some
}

/// The ECDH shared secret of the server secret and the client's Base64 SPKI
/// public key.
pub open spec fn spec_shared_secret(secret: Seq<u8>, client_public_key_base64: Seq<char>) -> Option<Seq<u8>> {
    match spec_base64_decode(client_public_key_base64) {
        Some(der) => match spec_public_key_from_der(der) {
            Some(point) => spec_ecdh(secret, point),
            None => None,
        },
        None => None,
    }
}

/// The directional session keys `(client -> server, server -> client)`.
pub open spec fn spec_session_keys(secret: Seq<u8>, client_public_key_base64: Seq<char>, salt: Seq<u8>) -> Option<(Seq<u8>, Seq<u8>)> {
    match spec_shared_secret(secret, client_public_key_base64) {
        Some(shared) => Some((
            spec_hkdf_sha256(salt, shared, HKDF_INFO_UP@, 16),
            spec_hkdf_sha256(salt, shared, HKDF_INFO_DOWN@, 16),
        )),
        None => None,
    }
}

/// Which step of the key agreement fails, if one does.
#[derive(Debug, Clone, Copy, PartialEq, Eq)]
pub enum SessionErrorKind {
    Base64,
    ClientPublicKey,
    ServerSecretKey,
    Other,
}

impl CryptoError {
    /// The failing step this error reports.
    pub open spec fn kind(self) -> SessionErrorKind {
        match self {
            CryptoError::Base64(_) => SessionErrorKind::Base64,
            CryptoError::ClientPublicKey => SessionErrorKind::ClientPublicKey,
            CryptoError::ServerSecretKey => SessionErrorKind::ServerSecretKey,
            _ => SessionErrorKind::Other,
        }
    }
}

/// The first step of the key agreement that fails, if any.
pub open spec fn spec_session_error(secret: Seq<u8>, client_public_key_base64: Seq<char>) -> Option<SessionErrorKind> {
    match spec_base64_decode(client_public_key_base64) {
        None => Some(SessionErrorKind::Base64),
        Some(der) => match spec_public_key_from_der(der) {
            None => Some(SessionErrorKind::ClientPublicKey),
            Some(point) => match spec_ecdh(secret, point) {
                None => Some(SessionErrorKind::ServerSecretKey),
                Some(_) => None,
            },
        },
    }
}

/// One directional AES-128 key: HKDF-SHA-256 of the shared secret with
/// `salt` and the direction label `info`.
fn derive_aes128_key(salt: &[u8], shared_secret: &[u8], info: &[u8]) -> (r: Result<[u8; 16], CryptoError>)
    ensures
        match r {
            Ok(key) => key@ == spec_hkdf_sha256(salt@, shared_secret@, info@, 16),
            Err(_) => false,
        },
{
    match hkdf_sha256_16(salt, shared_secret, info) {
        Some(key) => Ok(key),
        None => Err(CryptoError::KeyDerivation),
    }
}

} // verus!
