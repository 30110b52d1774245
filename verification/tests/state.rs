use commut::contract::NONCE_TTL_MS;
use commut::state::{AppState, Checkpoint, NonceStore, SessionCrypto, NONCE_TTL_NS};

/// Nanoseconds in `n` milliseconds, the unit the store's times are kept in.
fn ms(n: u64) -> u64 {
    n * 1_000_000
}

#[test]
fn nonce_store_consumes_values_exactly_once() {
    let mut state = AppState::new();
    state.insert_nonce("nonce-1".to_owned());

    assert!(state.contains_nonce("nonce-1"));
    assert!(state.consume_nonce("nonce-1"));
    assert!(!state.consume_nonce("nonce-1"));
}

#[test]
fn checkpoint_and_crypt_stores_are_one_shot_maps() {
    let mut state = AppState::new();

    state.insert_checkpoint(
        "id-1".to_owned(),
        Checkpoint {
            server_ephemeral_private_key: [7_u8; 32],
            server_ephemeral_public_key_base64: "server-pub".to_owned(),
        },
    );
    state.insert_crypt(
        "id-1".to_owned(),
        SessionCrypto {
            salt_base64: "salt".to_owned(),
            decrypt_key_bytes: [1_u8; 16],
            encrypt_key_bytes: [2_u8; 16],
        },
    );

    assert!(state.consume_checkpoint("id-1").is_some());
    assert!(state.consume_checkpoint("id-1").is_none());
    assert!(state.consume_crypt("id-1").is_some());
    assert!(state.consume_crypt("id-1").is_none());
}

#[test]
fn nonce_store_expires_entries_after_the_spec_ttl() {
    let mut state = AppState::new();
    state.insert_nonce_at("nonce-1".to_owned(), ms(1_000));

    let later = ms(1_000 + NONCE_TTL_MS + 25);
    assert!(!state.contains_nonce_at("nonce-1", later));
    assert!(!state.consume_nonce_at("nonce-1", later));
}

#[test]
fn nonce_store_expires_entries_on_the_real_clock() {
    let mut state = AppState::new();
    state.insert_nonce("nonce-1".to_owned());
    state.insert_nonce("nonce-2".to_owned());
    assert!(state.contains_nonce("nonce-1"));

    let start = std::time::Instant::now();
    let wait = std::time::Duration::from_millis(NONCE_TTL_MS + 25);
    while start.elapsed() < wait {
        std::hint::spin_loop();
    }

    assert!(!state.contains_nonce("nonce-1"));
    assert!(!state.consume_nonce("nonce-1"));
    assert!(!state.consume_nonce("nonce-2"));
}

#[test]
fn nonces_are_valid_until_just_before_the_ttl() {
    let mut state = AppState::new();
    state.insert_nonce_at("n".to_owned(), ms(500));
    assert!(state.contains_nonce_at("n", ms(500)));
    assert!(state.contains_nonce_at("n", ms(500) + NONCE_TTL_NS - 1));
    assert!(!state.contains_nonce_at("n", ms(500) + NONCE_TTL_NS));
}

#[test]
fn pruning_keeps_the_other_nonces() {
    let mut store = NonceStore::new();
    store.insert_at("old".to_owned(), 0);
    store.insert_at("new".to_owned(), ms(2_000));
    store.insert_at("newer".to_owned(), ms(2_500));
    assert!(!store.contains_at("old", ms(3_000)));
    assert!(store.contains("new"));
    assert!(store.contains("newer"));
    assert!(store.consume_at("new", ms(3_000)));
    assert!(!store.contains("new"));
    assert!(store.contains("newer"));
}

#[test]
fn reissuing_a_nonce_restarts_its_clock() {
    let mut store = NonceStore::new();
    store.insert_at("n".to_owned(), 0);
    store.insert_at("n".to_owned(), ms(2_000));
    assert!(store.contains_at("n", ms(4_000)));
    assert!(store.consume_at("n", ms(4_000)));
    assert!(!store.consume_at("n", ms(4_000)));
}

#[test]
fn lookups_copy_and_consumption_removes() {
    let mut state = AppState::new();
    let crypt = SessionCrypto {
        salt_base64: "c2FsdA==".to_owned(),
        decrypt_key_bytes: [1_u8; 16],
        encrypt_key_bytes: [2_u8; 16],
    };
    state.insert_crypt("id".to_owned(), crypt.clone());
    let copy = state.crypt("id").expect("stored");
    assert_eq!(copy.salt_base64, "c2FsdA==");
    assert_eq!(copy.decrypt_key_bytes, [1_u8; 16]);
    assert!(state.crypt("id").is_some());
    assert!(state.crypt("other").is_none());
    let taken = state.consume_crypt("id").expect("stored");
    assert_eq!(taken.encrypt_key_bytes, [2_u8; 16]);
    assert!(state.crypt("id").is_none());
}
