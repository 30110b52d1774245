//! The decisions of an established WebSocket session.
//!
//! The session relays three event sources: messages from the browser, output
//! of the PTY and the PTY's exit. For each event the functions here decide
//! what happens; the caller performs it (writes to the PTY, sends on the
//! socket) and reports the next event.
//!
//! - type `1` frames resize the PTY and are echoed in normalized form
//! - type `0` frames are decrypted with the `client -> server` key and their
//!   bytes written to the PTY unchanged
//! - unknown or malformed frames, and frames that fail authentication, are
//!   ignored
//! - PTY output is sent as type `0` frames under a fresh random IV with the
//!   `server -> client` key
//! - a close from the browser, or the PTY's exit, ends the session

use vstd::prelude::*;
use vstd::utf8::valid_utf8;

use crate::contract::{
    build_resize_payload, dimensions_text, lemma_resize_payload_round_trip, parse_ws_frame, spec_frame_error, spec_parse_dimensions,
    Dimensions, DimensionsError, PtyExitReason, WsFrame, IV_LEN, WS_CLOSE_NORMAL, WS_TYPE_PTY_DATA,
    WS_TYPE_RESIZE,
};
use crate::crypto::{
    random_bytes, spec_aes128gcm_decrypt, spec_aes128gcm_encrypt, CryptoError, AES_GCM_P_MAX, AES_GCM_TAG_LEN,
};
use crate::state::SessionCrypto;

verus! {

/// A message received from the browser.
#[derive(Debug, Clone, PartialEq, Eq)]
pub enum ClientMessage {
    /// A binary application frame.
    Binary(Vec<u8>),
    /// A text message; ignored.
    Text,
    /// A ping with its payload.
    Ping(Vec<u8>),
    /// A pong; ignored.
    Pong,
    /// A close, with its code if it has one.
    Close(Option<u16>),
}

/// What to do with a message from the browser.
#[derive(Debug, Clone, PartialEq, Eq)]
pub enum ClientAction {
    /// Nothing; the session goes on.
    Ignore,
    /// Write these bytes to the PTY; if that fails, kill the PTY and end.
    WritePty(Vec<u8>),
    /// Resize the PTY; when that succeeds send `echo`, and if sending
    /// fails, kill the PTY and end.
    Resize { dimensions: Dimensions, echo: Vec<u8> },
    /// Answer with a pong carrying this payload; if sending fails, kill the
    /// PTY and end.
    Pong(Vec<u8>),
    /// Kill the PTY, close the socket and end; `normal` for close code `4000`.
    Close { normal: bool },
}

/// The action a binary payload calls for: type `0` is decrypted and
/// written, type `1` resizes and is echoed, anything else (or a payload the
/// parser rejects, or one that fails authentication) is ignored.
pub open spec fn binary_action(crypt: SessionCrypto, payload: Seq<u8>, action: ClientAction) -> bool {
    if spec_frame_error(payload) is Some {
        action == ClientAction::Ignore
    } else if payload[0] == WS_TYPE_PTY_DATA {
        match spec_aes128gcm_decrypt(
            crypt.decrypt_key_bytes@,
            payload.subrange(1, 1 + IV_LEN),
            payload.skip(1 + IV_LEN),
        ) {
            Some(plaintext) => action matches ClientAction::WritePty(bytes) && bytes@ == plaintext,
            None => action == ClientAction::Ignore,
        }
    } else if payload[0] == WS_TYPE_RESIZE {
        action matches ClientAction::Resize { dimensions, echo } && (spec_parse_dimensions(payload.skip(1))
            == Ok::<Dimensions, DimensionsError>(dimensions) && echo@ == seq![WS_TYPE_RESIZE]
            + dimensions_text(dimensions))
    } else {
        action == ClientAction::Ignore
    }
}

/// The action a message from the browser calls for.
pub open spec fn client_action(crypt: SessionCrypto, message: ClientMessage, action: ClientAction) -> bool {
    match message {
        ClientMessage::Binary(payload) => binary_action(crypt, payload@, action),
        ClientMessage::Text => action == ClientAction::Ignore,
        ClientMessage::Pong => action == ClientAction::Ignore,
        ClientMessage::Ping(payload) => action matches ClientAction::Pong(answer) && answer@ == payload@,
        ClientMessage::Close(code) => action == ClientAction::Close { normal: code == Some(WS_CLOSE_NORMAL) },
    }
}

/// Decide what a binary frame from the browser calls for.
pub fn handle_binary_message(crypt: &SessionCrypto, payload: &[u8]) -> (action: ClientAction)
    ensures
        binary_action(*crypt, payload@, action),
{
    match parse_ws_frame(payload) {
        Ok(WsFrame::Resize { dimensions, .. }) => {
            ClientAction::Resize { dimensions, echo: build_resize_payload(dimensions) }
        },
        Ok(WsFrame::PtyData { iv, ciphertext_and_tag }) => {
            match crypt.decrypt(&iv, ciphertext_and_tag) {
                Ok(plaintext) => ClientAction::WritePty(plaintext),
                Err(_) => ClientAction::Ignore,
            }
        },
        Ok(WsFrame::Unknown { .. }) => ClientAction::Ignore,
        Err(_) => ClientAction::Ignore,
    }
}

/// Decide what a message from the browser calls for.
pub fn handle_client_message(crypt: &SessionCrypto, message: &ClientMessage) -> (action: ClientAction)
    ensures
        client_action(*crypt, *message, action),
{
    match message {
        ClientMessage::Binary(payload) => handle_binary_message(crypt, payload.as_slice()),
        ClientMessage::Text => ClientAction::Ignore,
        ClientMessage::Pong => ClientAction::Ignore,
        ClientMessage::Ping(payload) => ClientAction::Pong(payload.clone()),
        ClientMessage::Close(code) => {
            let normal = match code {
                Some(c) => *c == WS_CLOSE_NORMAL,
                None => false,
            };
            ClientAction::Close { normal }
        },
    }
}

/// The type `0` frame that carries `output` encrypted under `iv`:
/// `0 || iv || ciphertext-and-tag`.
pub open spec fn pty_output_frame(crypt: SessionCrypto, iv: Seq<u8>, output: Seq<u8>) -> Seq<u8> {
    seq![WS_TYPE_PTY_DATA] + iv + spec_aes128gcm_encrypt(crypt.encrypt_key_bytes@, iv, output)
}

/// Encrypt PTY output under `iv` into a type `0` frame. The frame parses
/// as a type `0` frame carrying `iv`, is as long as the type byte, the IV,
/// the output and the 16-byte tag together, and opening its ciphertext with
/// the `server -> client` key gives the output back.
pub fn encrypt_pty_output(crypt: &SessionCrypto, iv: &[u8; 12], output: &[u8]) -> (r: Result<Vec<u8>, CryptoError>)
    ensures
        r is Ok <==> output@.len() <= AES_GCM_P_MAX,
        match r {
            Ok(frame) => {
                &&& frame@ == pty_output_frame(*crypt, iv@, output@)
                &&& frame@.len() == 1 + IV_LEN + output@.len() + AES_GCM_TAG_LEN
                &&& spec_frame_error(frame@) is None
                &&& frame@[0] == WS_TYPE_PTY_DATA
                &&& frame@.subrange(1, 1 + IV_LEN) == iv@
                &&& spec_aes128gcm_decrypt(crypt.encrypt_key_bytes@, iv@, frame@.skip(1 + IV_LEN)) == Some(output@)
            },
            Err(e) => e == CryptoError::Encrypt,
        },
{
    let ciphertext_and_tag = crypt.encrypt(iv, output)?;
    let mut payload: Vec<u8> = Vec::new();
    payload.push(WS_TYPE_PTY_DATA);
    payload.extend_from_slice(iv.as_slice());
    payload.extend_from_slice(ciphertext_and_tag.as_slice());
    assert(payload@ =~= pty_output_frame(*crypt, iv@, output@));
    proof {
        lemma_pty_output_frame_shape(*crypt, iv@, output@);
    }
    Ok(payload)
}

/// Law: a frame of PTY output is a well-formed type `0` frame whose IV and
/// ciphertext are what the parser reads back.
pub proof fn lemma_pty_output_frame_shape(crypt: SessionCrypto, iv: Seq<u8>, output: Seq<u8>)
    requires
        iv.len() == IV_LEN,
    ensures
        spec_frame_error(pty_output_frame(crypt, iv, output)) is None,
        pty_output_frame(crypt, iv, output)[0] == WS_TYPE_PTY_DATA,
        pty_output_frame(crypt, iv, output).subrange(1, 1 + IV_LEN) == iv,
        pty_output_frame(crypt, iv, output).skip(1 + IV_LEN) == spec_aes128gcm_encrypt(crypt.encrypt_key_bytes@, iv, output),
{
    let frame = pty_output_frame(crypt, iv, output);
    assert(frame.subrange(1, 1 + IV_LEN) =~= iv);
    assert(frame.skip(1 + IV_LEN) =~= spec_aes128gcm_encrypt(crypt.encrypt_key_bytes@, iv, output));
}

/// What to do with an event of the PTY output stream.
#[derive(Debug, Clone, PartialEq, Eq)]
pub enum OutputAction {
    /// The output stream has ended; stop listening to it, the session goes on.
    StreamEnded,
    /// Send this frame; if sending fails, kill the PTY and end.
    Send(Vec<u8>),
    /// Encryption failed: kill the PTY and end.
    Fail,
}

/// Decide what a chunk of PTY output (or the end of the stream) calls for:
/// the chunk is encrypted under a fresh random IV.
pub fn forward_pty_output(crypt: &SessionCrypto, output: Option<Vec<u8>>) -> (action: OutputAction)
    ensures
        match output {
            None => action == OutputAction::StreamEnded,
            Some(bytes) => if bytes@.len() <= AES_GCM_P_MAX {
                exists|iv: Seq<u8>| iv.len() == IV_LEN && (action matches OutputAction::Send(frame)
                    && frame@ == #[trigger] pty_output_frame(*crypt, iv, bytes@)
                    && frame@.len() == 1 + IV_LEN + bytes@.len() + AES_GCM_TAG_LEN
                    && spec_aes128gcm_decrypt(crypt.encrypt_key_bytes@, iv, frame@.skip(1 + IV_LEN)) == Some(bytes@))
            } else {
                action == OutputAction::Fail
            },
        },
{
    let output = match output {
        None => {
            return OutputAction::StreamEnded;
        },
        Some(bytes) => bytes,
    };
    let random = random_bytes(IV_LEN);
    let mut iv = [0u8; 12];
    let mut k: usize = 0;
    while k < IV_LEN
        invariant
            k <= IV_LEN,
            random@.len() == IV_LEN,
            forall|j: int| 0 <= j < k ==> iv@[j] == random@[j],
        decreases IV_LEN - k,
    {
        iv[k] = random[k];
        k = k + 1;
    }
    match encrypt_pty_output(crypt, &iv, output.as_slice()) {
        Ok(frame) => {
            assert(iv@.len() == IV_LEN);
            OutputAction::Send(frame)
        },
        Err(_) => OutputAction::Fail,
    }
}

/// What to do when the PTY's exit watch changes.
#[derive(Debug, Clone, Copy, PartialEq, Eq)]
pub enum ExitAction {
    /// The watch was closed: end the session.
    End,
    /// No exit yet: the session goes on.
    Continue,
    /// Close the socket with code `4001` and this reason, and end.
    Close(PtyExitReason),
}

/// Decide what a change of the PTY's exit watch calls for: `changed` is
/// whether the watch reported a change (rather than closing), `reason` the
/// exit reason it now holds.
pub fn forward_pty_exit(changed: bool, reason: Option<PtyExitReason>) -> (action: ExitAction)
    ensures
        action == (if !changed {
            ExitAction::End
        } else {
            match reason {
                Some(r) => ExitAction::Close(r),
                None => ExitAction::Continue,
            }
        }),
{
    if !changed {
        return ExitAction::End;
    }
    match reason {
        Some(r) => ExitAction::Close(r),
        None => ExitAction::Continue,
    }
}

/// Law: keystrokes are relayed unchanged. A type `0` frame `0 || iv ||
/// ciphertext-and-tag` that opens under the `client -> server` key is
/// written to the PTY as exactly the opened bytes, whatever they are; one
/// that does not open is ignored.
pub proof fn lemma_pty_input_is_written_whole(
    crypt: &SessionCrypto,
    payload: &[u8],
    iv: Seq<u8>,
    ciphertext_and_tag: Seq<u8>,
    action: ClientAction,
)
    requires
        call_ensures(handle_binary_message, (crypt, payload), action),
        iv.len() == IV_LEN,
        payload@ == seq![WS_TYPE_PTY_DATA] + iv + ciphertext_and_tag,
    ensures
        spec_aes128gcm_decrypt(crypt.decrypt_key_bytes@, iv, ciphertext_and_tag) matches Some(plaintext)
            ==> action matches ClientAction::WritePty(bytes) && bytes@ == plaintext,
        spec_aes128gcm_decrypt(crypt.decrypt_key_bytes@, iv, ciphertext_and_tag) is None
            ==> action == ClientAction::Ignore,
{
    let p = payload@;
    assert(p.subrange(1, 1 + IV_LEN) =~= iv);
    assert(p.skip(1 + IV_LEN) =~= ciphertext_and_tag);
}

/// Law: every resize is applied. A type `1` frame whose text reads as
/// positive dimensions `d` resizes the PTY to `d` and is echoed as the
/// normalized `1 || <cols>,<rows>` of `d`, whatever `d` is.
pub proof fn lemma_resize_frame_is_applied(
    crypt: &SessionCrypto,
    payload: &[u8],
    text: Seq<u8>,
    d: Dimensions,
    action: ClientAction,
)
    requires
        call_ensures(handle_binary_message, (crypt, payload), action),
        payload@ == seq![WS_TYPE_RESIZE] + text,
        valid_utf8(text),
        spec_parse_dimensions(text) == Ok::<Dimensions, DimensionsError>(d),
    ensures
        action matches ClientAction::Resize { dimensions, echo } && dimensions == d
            && echo@ == seq![WS_TYPE_RESIZE] + dimensions_text(d),
{
    assert(payload@.skip(1) =~= text);
}

/// Law: a normalized resize frame comes back unchanged. For any positive
/// dimensions `d`, the frame `1 || <cols>,<rows>` resizes the PTY to `d` and
/// its echo is the frame itself.
pub proof fn lemma_normalized_resize_is_echoed(
    crypt: &SessionCrypto,
    payload: &[u8],
    d: Dimensions,
    action: ClientAction,
)
    requires
        call_ensures(handle_binary_message, (crypt, payload), action),
        d.cols > 0,
        d.rows > 0,
        payload@ == seq![WS_TYPE_RESIZE] + dimensions_text(d),
    ensures
        action matches ClientAction::Resize { dimensions, echo } && dimensions == d && echo@ == payload@,
{
    lemma_resize_payload_round_trip(d);
    lemma_resize_frame_is_applied(crypt, payload, dimensions_text(d), d, action);
}

/// Law: a binary message from the browser is acted on as its frame says:
/// browser input that opens under the `client -> server` key is written to
/// the PTY whole, and a resize to positive dimensions `d` is applied and
/// echoed in normalized form.
pub proof fn lemma_client_binary_message_is_acted_on(
    crypt: &SessionCrypto,
    message: &ClientMessage,
    frame: Seq<u8>,
    action: ClientAction,
)
    requires
        call_ensures(handle_client_message, (crypt, message), action),
        message matches ClientMessage::Binary(payload) && payload@ == frame,
    ensures
        frame.len() >= 1 + IV_LEN && frame[0] == WS_TYPE_PTY_DATA ==> (
            spec_aes128gcm_decrypt(crypt.decrypt_key_bytes@, frame.subrange(1, 1 + IV_LEN), frame.skip(1 + IV_LEN))
            matches Some(plaintext) ==> (action matches ClientAction::WritePty(bytes) && bytes@ == plaintext)),
        forall|d: Dimensions| d.cols > 0 && d.rows > 0 && frame == seq![WS_TYPE_RESIZE] + #[trigger] dimensions_text(d)
            ==> (action matches ClientAction::Resize { dimensions, echo } && dimensions == d && echo@ == frame),
{
    assert forall|d: Dimensions| d.cols > 0 && d.rows > 0 && frame == seq![WS_TYPE_RESIZE] + #[trigger] dimensions_text(d)
        implies (action matches ClientAction::Resize { dimensions, echo } && dimensions == d && echo@ == frame) by {
        lemma_resize_payload_round_trip(d);
        assert(frame.skip(1) =~= dimensions_text(d));
    }
}

} // verus!
