use base64::Engine;
use commut::contract::{split_dot_pair, Dimensions};
use commut::crypto::AuthorizedKeySet;
use commut::routes::{get_socket, post_nonce, post_salt, post_ticket, post_ticket_at};
use commut::state::{AppState, NONCE_TTL_NS};
use p256::ecdsa::signature::Signer;
use p256::ecdsa::{Signature, SigningKey};
use p256::pkcs8::{DecodePublicKey, EncodePublicKey, LineEnding};
use p256::{PublicKey, SecretKey};

fn b64() -> base64::engine::GeneralPurpose {
    base64::engine::general_purpose::STANDARD
}

struct Harness {
    signing_key: SigningKey,
    keys: AuthorizedKeySet,
    state: AppState,
}

impl Harness {
    fn new() -> Self {
        let signing_key = SigningKey::from_bytes((&[21_u8; 32]).into()).expect("signing key");
        let pem = signing_key
            .verifying_key()
            .to_public_key_pem(LineEnding::default())
            .expect("pem");
        let keys = AuthorizedKeySet::from_public_pem(&pem).expect("keys");
        Harness { signing_key, keys, state: AppState::new() }
    }

    fn sign(&self, base64_value: &str) -> String {
        let bytes = b64().decode(base64_value.as_bytes()).expect("base64 value");
        let signature: Signature = self.signing_key.sign(&bytes);
        b64().encode(signature.to_bytes())
    }

    fn issue_nonce(&mut self) -> String {
        post_nonce(&mut self.state)
    }

    fn ticket(&mut self) -> (String, String) {
        let nonce = self.issue_nonce();
        let signature = self.sign(&nonce);
        let body = post_ticket(&mut self.state, &self.keys, &format!("{nonce}.{signature}"))
            .expect("ticket");
        let (id, public_key) = split_dot_pair(&body).expect("pair");
        (id.to_owned(), public_key.to_owned())
    }

    fn salt(&mut self, id: &str) -> String {
        let client = SecretKey::from_slice(&[5_u8; 32]).expect("client");
        let client_pub = b64().encode(client.public_key().to_public_key_der().expect("der").as_bytes());
        post_salt(&mut self.state, &self.keys, &format!("{id}.{client_pub}")).expect("salt")
    }
}

fn client_public_key_base64() -> String {
    let client = SecretKey::from_slice(&[5_u8; 32]).expect("client");
    b64().encode(client.public_key().to_public_key_der().expect("der").as_bytes())
}

#[test]
fn nonce_endpoint_returns_base64_and_stores_it() {
    let mut h = Harness::new();
    let nonce = h.issue_nonce();
    assert_eq!(b64().decode(nonce.as_bytes()).expect("base64").len(), 8);
    assert_eq!(nonce.len(), 12);
    let signature = h.sign(&nonce);
    assert!(post_ticket(&mut h.state, &h.keys, &format!("{nonce}.{signature}")).is_ok());
}

#[test]
fn issued_nonces_expire_after_the_specified_ttl() {
    let mut h = Harness::new();
    let nonce = "AAAAAAAAAAA=".to_owned();
    h.state.insert_nonce_at(nonce.clone(), 0);
    let signature = h.sign(&nonce);
    let error = post_ticket_at(&mut h.state, &h.keys, &format!("{nonce}.{signature}"), NONCE_TTL_NS)
        .expect_err("expired nonce");
    assert_eq!(error.status, 500);
    assert!(error.message.contains("nonce"), "got: {}", error.message);
}

#[test]
fn ticket_endpoint_rejects_invalid_signatures() {
    let mut h = Harness::new();
    let nonce = h.issue_nonce();
    let bad_signature = h.sign(&b64().encode(b"something else"));
    let error = post_ticket(&mut h.state, &h.keys, &format!("{nonce}.{bad_signature}"))
        .expect_err("bad signature");
    assert_eq!(error.status, 500);
    assert_eq!(error.message, "wrong signature");
    assert!(h.state.contains_nonce(&nonce), "a refused ticket keeps the nonce");
}

#[test]
fn successful_ticket_exchange_consumes_the_nonce_exactly_once() {
    let mut h = Harness::new();
    let nonce = h.issue_nonce();
    let signature = h.sign(&nonce);
    let body = format!("{nonce}.{signature}");
    assert!(post_ticket(&mut h.state, &h.keys, &body).is_ok());
    let error = post_ticket(&mut h.state, &h.keys, &body).expect_err("spent nonce");
    assert_eq!(error.status, 500);
    assert_eq!(error.message, "nonce not found");
}

#[test]
fn ticket_response_contains_id_and_server_ephemeral_public_key() {
    let mut h = Harness::new();
    let (id, public_key) = h.ticket();
    assert!(!id.is_empty(), "ticket id must not be empty");
    assert_eq!(b64().decode(id.as_bytes()).expect("id").len(), 8);
    assert_eq!(id.len(), 12);
    let der = b64().decode(public_key.as_bytes()).expect("public key base64");
    PublicKey::from_public_key_der(&der).expect("SPKI public key");
    assert!(h.state.checkpoint(&id).is_some());
}

#[test]
fn ticket_rejects_bodies_that_are_not_pairs() {
    let mut h = Harness::new();
    let error = post_ticket(&mut h.state, &h.keys, "no-dot").expect_err("not a pair");
    assert_eq!(error.status, 500);
    assert_eq!(error.message, "expected exactly one dot-separated pair");
    let error = post_ticket(&mut h.state, &h.keys, "AAAAAAAAAAA=.").expect_err("empty member");
    assert_eq!(error.message, "dot-separated pair members must not be empty");
}

#[test]
fn salt_endpoint_rejects_unknown_checkpoint_ids() {
    let mut h = Harness::new();
    let unknown_id = b64().encode([0u8; 8]);
    let error = post_salt(&mut h.state, &h.keys, &format!("{unknown_id}.{}", client_public_key_base64()))
        .expect_err("unknown id");
    assert_eq!(error.status, 500);
    assert!(error.message.contains("checkpoint"), "got: {}", error.message);
}

#[test]
fn successful_salt_exchange_consumes_checkpoint_and_returns_salt() {
    let mut h = Harness::new();
    let (id, _) = h.ticket();
    let response = h.salt(&id);
    let (salt_id, salt_base64) = split_dot_pair(&response).expect("pair");
    assert_eq!(salt_id, id);
    assert_eq!(b64().decode(salt_base64.as_bytes()).expect("salt").len(), 32, "salt must be exactly 32 random bytes");

    let error = post_salt(&mut h.state, &h.keys, &format!("{id}.{}", client_public_key_base64()))
        .expect_err("spent checkpoint");
    assert_eq!(error.status, 500);
    assert!(error.message.contains("checkpoint"), "got: {}", error.message);
}

#[test]
fn salt_with_a_bad_client_key_keeps_the_checkpoint() {
    let mut h = Harness::new();
    let (id, _) = h.ticket();
    let error = post_salt(&mut h.state, &h.keys, &format!("{id}.{}", b64().encode([1u8; 5])))
        .expect_err("bad key");
    assert_eq!(error.message, "client public key import failure");
    assert!(h.state.checkpoint(&id).is_some());
    h.salt(&id);
}

#[test]
fn websocket_upgrade_requires_a_token() {
    let mut h = Harness::new();
    let (id, _) = h.ticket();
    h.salt(&id);
    let error = get_socket(&mut h.state, &h.keys, &id, None, Some("100,30"))
        .expect_err("WebSocket upgrade without token must fail");
    assert_eq!(error.status, 400);
    assert_eq!(error.message, "token is required");
}

#[test]
fn websocket_upgrade_rejects_invalid_tokens() {
    let mut h = Harness::new();
    let (id, _) = h.ticket();
    h.salt(&id);
    let bad = h.sign(&b64().encode(b"not the id"));
    let error = get_socket(&mut h.state, &h.keys, &id, Some(&bad), Some("100,30"))
        .expect_err("WebSocket upgrade with invalid token must fail");
    assert_eq!(error.status, 500);
    assert_eq!(error.message, "wrong signature");
    assert!(h.state.crypt(&id).is_some());
}

#[test]
fn successful_websocket_upgrade_consumes_the_crypt_store_entry() {
    let mut h = Harness::new();
    let (id, _) = h.ticket();
    h.salt(&id);
    let token = h.sign(&id);
    let (dimensions, _) = get_socket(&mut h.state, &h.keys, &id, Some(&token), Some("100,30")).expect("upgrade");
    assert_eq!(dimensions, Dimensions { cols: 100, rows: 30 });
    let error = get_socket(&mut h.state, &h.keys, &id, Some(&token), Some("100,30"))
        .expect_err("a second WebSocket connection for the same post-salt id must fail");
    assert_eq!(error.message, "socket not found");
}

#[test]
fn invalid_or_missing_initial_dimensions_fall_back_to_100_by_30() {
    for dims in [None, Some("100,nope")] {
        let mut h = Harness::new();
        let (id, _) = h.ticket();
        h.salt(&id);
        let token = h.sign(&id);
        let (dimensions, _) = get_socket(&mut h.state, &h.keys, &id, Some(&token), dims).expect("upgrade");
        assert_eq!(dimensions, Dimensions { cols: 100, rows: 30 });
    }
    let mut h = Harness::new();
    let (id, _) = h.ticket();
    h.salt(&id);
    let token = h.sign(&id);
    let (dimensions, _) = get_socket(&mut h.state, &h.keys, &id, Some(&token), Some("40,16")).expect("upgrade");
    assert_eq!(dimensions, Dimensions { cols: 40, rows: 16 });
}

#[test]
fn ticket_reports_the_base64_error_of_an_undecodable_signature() {
    let mut h = Harness::new();
    let nonce = h.issue_nonce();
    let error = post_ticket(&mut h.state, &h.keys, &format!("{nonce}.@@@@"))
        .expect_err("undecodable signature must fail");
    assert_eq!(error.status, 500);
    assert_eq!(error.message, b64().decode("@@@@").unwrap_err().to_string());
}

#[test]
fn ticket_reports_the_der_error_of_an_unreadable_signature() {
    let mut h = Harness::new();
    let nonce = h.issue_nonce();
    let garbage = b64().encode([1_u8, 2, 3]);
    let error = post_ticket(&mut h.state, &h.keys, &format!("{nonce}.{garbage}"))
        .expect_err("unreadable signature must fail");
    assert_eq!(error.status, 500);
    assert_eq!(error.message, Signature::from_der(&[1_u8, 2, 3]).unwrap_err().to_string());
}

#[test]
fn socket_reports_the_base64_error_of_an_undecodable_token() {
    let mut h = Harness::new();
    let (id, _) = h.ticket();
    h.salt(&id);
    let error = get_socket(&mut h.state, &h.keys, &id, Some("@@@@"), Some("100,30"))
        .expect_err("undecodable token must fail");
    assert_eq!(error.status, 500);
    assert_eq!(error.message, b64().decode("@@@@").unwrap_err().to_string());
    assert!(h.state.crypt(&id).is_some());
}

#[test]
fn a_granted_ticket_and_a_readable_client_key_complete_the_handshake() {
    let mut h = Harness::new();
    let (id, _) = h.ticket();
    assert_eq!(id.len(), 12);
    let response = post_salt(&mut h.state, &h.keys, &format!("{id}.{}", client_public_key_base64()))
        .expect("the handshake must go through");
    assert!(response.starts_with(&format!("{id}.")));
    assert!(h.state.crypt(&id).is_some());
    assert!(h.state.checkpoint(&id).is_none());
}
