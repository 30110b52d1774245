use base64::Engine;
use commut::contract::{
    DEFAULT_COLS, DEFAULT_ROWS, HKDF_INFO_DOWN, HKDF_INFO_UP, WS_CLOSE_NORMAL, WS_CLOSE_PTY_EXIT,
    WS_TYPE_PTY_DATA, WS_TYPE_RESIZE,
};
use commut::session::{handle_client_message, ClientAction, ClientMessage};
use commut::state::SessionCrypto;

fn session(key: [u8; 16]) -> SessionCrypto {
    SessionCrypto {
        salt_base64: base64::engine::general_purpose::STANDARD.encode([0u8; 32]),
        decrypt_key_bytes: key,
        encrypt_key_bytes: key,
    }
}

fn encrypted_frame(crypt: &SessionCrypto, iv: [u8; 12], input: &[u8]) -> Vec<u8> {
    let ciphertext = crypt.encrypt(&iv, input).expect("encrypt");
    let mut frame = vec![WS_TYPE_PTY_DATA];
    frame.extend_from_slice(&iv);
    frame.extend_from_slice(&ciphertext);
    frame
}

fn forwarded_input(input: &[u8]) -> Vec<u8> {
    let crypt = session([11u8; 16]);
    let frame = encrypted_frame(&crypt, [3u8; 12], input);
    match handle_client_message(&crypt, &ClientMessage::Binary(frame)) {
        ClientAction::WritePty(bytes) => bytes,
        other => panic!("expected a PTY write, got {other:?}"),
    }
}

#[test]
fn backend_contract_constants_match_the_browser_wire_spec() {
    assert_eq!(&HKDF_INFO_UP, b"client -> server");
    assert_eq!(&HKDF_INFO_DOWN, b"server -> client");
    assert_eq!((DEFAULT_COLS, DEFAULT_ROWS), (100, 30));
    assert_eq!(WS_CLOSE_NORMAL, 4000);
    assert_eq!(WS_TYPE_PTY_DATA, 0);
    assert_eq!(WS_TYPE_RESIZE, 1);
}

#[test]
fn browser_interop_backend_socket_input_path_does_not_rewrite_terminal_bytes_or_intercept_exit() {
    assert_eq!(forwarded_input(b"echo hi\r"), b"echo hi\r");
    assert_eq!(forwarded_input(b"line\r\n"), b"line\r\n");
    assert_eq!(forwarded_input(b"exit\r"), b"exit\r");
}

#[test]
fn frontend_interop_backend_socket_input_path_does_not_rewrite_terminal_bytes_or_intercept_exit() {
    assert_eq!(forwarded_input(b"exit"), b"exit");
    assert_eq!(forwarded_input(b"\r"), b"\r");
    assert_eq!(forwarded_input(b"\x03\x04"), b"\x03\x04");
}

#[test]
fn pty_exit_close_code_is_4001() {
    assert_eq!(WS_CLOSE_PTY_EXIT, 4001);
}
