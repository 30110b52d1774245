use commut::contract::{PtyExitReason, WS_CLOSE_NORMAL};
use commut::session::{
    encrypt_pty_output, forward_pty_exit, forward_pty_output, handle_binary_message,
    handle_client_message, ClientAction, ClientMessage, ExitAction, OutputAction,
};
use commut::state::SessionCrypto;

fn crypt() -> SessionCrypto {
    SessionCrypto {
        salt_base64: "salt".to_owned(),
        decrypt_key_bytes: [1_u8; 16],
        encrypt_key_bytes: [2_u8; 16],
    }
}

fn client_side() -> SessionCrypto {
    SessionCrypto {
        salt_base64: "salt".to_owned(),
        decrypt_key_bytes: [2_u8; 16],
        encrypt_key_bytes: [1_u8; 16],
    }
}

#[test]
fn resize_messages_are_plaintext_applied_to_the_pty_and_echoed_verbatim() {
    match handle_client_message(&crypt(), &ClientMessage::Binary(b"\x01120,40".to_vec())) {
        ClientAction::Resize { dimensions, echo } => {
            assert_eq!((dimensions.cols, dimensions.rows), (120, 40));
            assert_eq!(echo, b"\x01120,40");
        }
        other => panic!("expected echoed resize message, got: {other:?}"),
    }
    assert_eq!(
        handle_client_message(&crypt(), &ClientMessage::Binary(b"\x01100,nope".to_vec())),
        ClientAction::Ignore
    );
}

#[test]
fn resize_echo_is_normalized() {
    match handle_binary_message(&crypt(), b"\x01+080,024") {
        ClientAction::Resize { echo, .. } => assert_eq!(echo, b"\x0180,24"),
        other => panic!("expected a resize, got {other:?}"),
    }
}

#[test]
fn encrypted_type_zero_messages_flow_between_client_and_pty() {
    let iv = [9_u8; 12];
    let frame = encrypt_pty_output(&client_side(), &iv, b"printf 'hello from test\\n'\r").expect("frame");
    match handle_client_message(&crypt(), &ClientMessage::Binary(frame)) {
        ClientAction::WritePty(bytes) => assert_eq!(bytes, b"printf 'hello from test\\n'\r"),
        other => panic!("expected a PTY write, got {other:?}"),
    }

    match forward_pty_output(&crypt(), Some(b"hello from test\n".to_vec())) {
        OutputAction::Send(frame) => {
            assert_eq!(frame[0], 0);
            assert!(frame.len() > 13, "encrypted PTY output must carry ciphertext and authentication tag");
            assert_eq!(frame.len(), 1 + 12 + b"hello from test\n".len() + 16);
            let mut iv = [0u8; 12];
            iv.copy_from_slice(&frame[1..13]);
            let plaintext = client_side().decrypt(&iv, &frame[13..]).expect("client decrypts");
            assert_eq!(plaintext, b"hello from test\n");
        }
        other => panic!("expected encrypted PTY output, got: {other:?}"),
    }
    assert_eq!(forward_pty_output(&crypt(), None), OutputAction::StreamEnded);
}

#[test]
fn type_zero_frames_that_fail_authentication_are_ignored() {
    let iv = [9_u8; 12];
    let mut frame = encrypt_pty_output(&client_side(), &iv, b"ls\r").expect("frame");
    let last = frame.len() - 1;
    frame[last] ^= 1;
    assert_eq!(handle_binary_message(&crypt(), &frame), ClientAction::Ignore);
    assert_eq!(handle_binary_message(&crypt(), b"\x00short"), ClientAction::Ignore);
}

#[test]
fn unknown_message_types_do_not_crash_the_session() {
    assert_eq!(
        handle_client_message(&crypt(), &ClientMessage::Binary(b"\xffignored payload".to_vec())),
        ClientAction::Ignore
    );
    assert_eq!(handle_client_message(&crypt(), &ClientMessage::Binary(Vec::new())), ClientAction::Ignore);
    assert_eq!(handle_client_message(&crypt(), &ClientMessage::Text), ClientAction::Ignore);
    assert_eq!(handle_client_message(&crypt(), &ClientMessage::Pong), ClientAction::Ignore);
    assert_eq!(
        handle_client_message(&crypt(), &ClientMessage::Ping(b"p".to_vec())),
        ClientAction::Pong(b"p".to_vec())
    );
}

#[test]
fn client_initiated_close_uses_code_4000_and_terminates_the_pty() {
    assert_eq!(
        handle_client_message(&crypt(), &ClientMessage::Close(Some(WS_CLOSE_NORMAL))),
        ClientAction::Close { normal: true }
    );
    assert_eq!(
        handle_client_message(&crypt(), &ClientMessage::Close(Some(1000))),
        ClientAction::Close { normal: false }
    );
    assert_eq!(
        handle_client_message(&crypt(), &ClientMessage::Close(None)),
        ClientAction::Close { normal: false }
    );
}

#[test]
fn pty_exit_closes_the_websocket_with_code_4001() {
    let reason = PtyExitReason { exit_code: Some(0), signal: None };
    assert_eq!(forward_pty_exit(true, Some(reason)), ExitAction::Close(reason));
    assert_eq!(forward_pty_exit(true, None), ExitAction::Continue);
    assert_eq!(forward_pty_exit(false, Some(reason)), ExitAction::End);
}
