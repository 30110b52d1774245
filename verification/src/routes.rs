//! The decisions of the HTTP handshake endpoints.
//!
//! API overview:
//! - `POST /api/nonce`
//!   - issues a Base64 nonce for the authentication handshake
//!   - stores that nonce in memory for a short time
//! - `POST /api/ticket`
//!   - accepts `<nonce-base64>.<signature-base64>`
//!   - verifies the signature over the Base64-decoded nonce bytes
//!   - consumes the nonce on success
//!   - returns `<id>.<server-ephemeral-public-key-base64>`
//! - `POST /api/salt`
//!   - accepts `<id>.<client-ephemeral-public-key-base64>`
//!   - consumes the checkpoint created by `/api/ticket`
//!   - derives session crypto and returns `<id>.<salt-base64>`
//! - `GET /sockets/{id}`
//!   - requires query param `token`, a signature over the Base64-decoded `id`
//!   - accepts optional `dimensions=<cols>,<rows>` and falls back to `100,30`
//!   - consumes the session crypto state before starting the PTY session
//!
//! Each handler takes the state, the authorized key and the request's plain
//! values, and answers with the response body or an [`AppError`].

use vstd::prelude::*;
use vstd::string::StringSliceAdditionalSpecFns;
use vstd::utf8::*;

use crate::contract::{
    dimensions_text, lemma_resize_payload_round_trip, parse_dimensions_or_default, spec_parse_dimensions,
    spec_split_dot_pair, split_dot_pair, Dimensions, PairError,
};
use crate::crypto::{
    base64_encode, random_bytes, spec_base64_decode, spec_base64_decode_outcome, spec_base64_encode,
    client_key_readable, spec_public_key_der_of_secret, spec_public_key_from_der, spec_session_error, spec_session_keys,
    spec_verify_authorization, spec_verify_error_message, AuthorizedKeySet, SessionErrorKind,
};
use crate::error::AppError;
use crate::state::{
    lemma_nonce_prune_monotone, live_nonces, AppState, Checkpoint, SessionCrypto, StateView, NONCE_TTL_NS,
};

verus! {

/// The two fields of a dot-separated body, as text, or the reason it is
/// not a pair.
pub open spec fn body_fields(body: Seq<u8>) -> Result<(Seq<char>, Seq<char>), PairError> {
    match spec_split_dot_pair(body) {
        Ok((left, right)) => Ok((decode_utf8(left), decode_utf8(right))),
        Err(e) => Err(e),
    }
}

/// `text` is the padded Base64 of `n` bytes, and decodes back to them.
pub open spec fn is_base64_of_len(text: Seq<char>, n: nat) -> bool {
    &&& text.len() == 4 * ((n + 2) / 3)
    &&& exists|bytes: Seq<u8>| bytes.len() == n && #[trigger] spec_base64_encode(bytes) == text
        && spec_base64_decode(text) == Some(bytes)
}

/// `checkpoint` carries the Base64 SPKI public key of its own secret, that
/// text decodes back to the key, and `p256` reads the key back.
pub open spec fn checkpoint_consistent(checkpoint: Checkpoint) -> bool {
    spec_public_key_der_of_secret(checkpoint.server_ephemeral_private_key@) matches Some(der)
        && checkpoint.server_ephemeral_public_key_base64@ == spec_base64_encode(der)
        && spec_base64_decode(checkpoint.server_ephemeral_public_key_base64@) == Some(der)
        && spec_public_key_from_der(der) is Some
}

/// `text` joined to `other` by a `.`.
pub open spec fn dot_joined(text: Seq<char>, other: Seq<char>) -> Seq<char> {
    text + "."@ + other
}

/// What `POST /api/ticket` does with `body` at `now`: from `pre` to `post`,
/// answering `r`.
pub open spec fn ticket_outcome(pre: StateView, post: StateView, keys: Seq<u8>, body: Seq<u8>, now: u64, r: Result<String, AppError>) -> bool {
    &&& post.crypts == pre.crypts
    &&& match body_fields(body) {
        Err(e) => r matches Err(err) && err.is_internal(e.spec_message()) && post == pre,
        Ok((nonce, signature)) => {
            let live = live_nonces(pre.nonces, now);
            if !live.contains_key(nonce) {
                r matches Err(err) && err.is_internal("nonce not found"@) && post.nonces == live
                    && post.checkpoints == pre.checkpoints
            } else {
                match spec_verify_authorization(keys, nonce, signature) {
                    None => r matches Err(err) && err.is_internal(spec_verify_error_message(nonce, signature))
                        && post.nonces == live && post.checkpoints == pre.checkpoints,
                    Some(false) => r matches Err(err) && err.is_internal("wrong signature"@)
                        && post.nonces == live && post.checkpoints == pre.checkpoints,
                    Some(true) => {
                        &&& post.nonces == live.remove(nonce)
                        &&& r matches Ok(response) && exists|id: Seq<char>| #[trigger] post.checkpoints.contains_key(id)
                            && post.checkpoints == pre.checkpoints.insert(id, post.checkpoints[id])
                            && response@ == dot_joined(id, post.checkpoints[id].server_ephemeral_public_key_base64@)
                            && is_base64_of_len(id, 8)
                            && checkpoint_consistent(post.checkpoints[id])
                    },
                }
            }
        },
    }
}

/// What `POST /api/nonce` does from `pre` to `post`, issuing `nonce`: it
/// reads the clock once and records the nonce as issued at that reading,
/// leaving the other stores alone.
pub open spec fn nonce_issued(pre: AppState, post: AppState, nonce: Seq<char>) -> bool {
    &&& post.clock() >= pre.clock()
    &&& post.clock_reads() == pre.clock_reads() + 1
    &&& post@.nonces == pre@.nonces.insert(nonce, post.clock())
    &&& post@.checkpoints == pre@.checkpoints
    &&& post@.crypts == pre@.crypts
}

/// What `POST /api/ticket` does from `pre` to `post` with `body`: it reads
/// the clock once and judges the request at that reading.
pub open spec fn ticket_answered(pre: AppState, post: AppState, keys: Seq<u8>, body: Seq<u8>, r: Result<String, AppError>) -> bool {
    &&& post.clock() >= pre.clock()
    &&& post.clock_reads() == pre.clock_reads() + 1
    &&& ticket_outcome(pre@, post@, keys, body, post.clock(), r)
}

/// What `POST /api/salt` does with `body`: from `pre` to `post`, answering `r`.
pub open spec fn salt_outcome(pre: StateView, post: StateView, body: Seq<u8>, r: Result<String, AppError>) -> bool {
    &&& post.nonces == pre.nonces
    &&& match body_fields(body) {
        Err(e) => r matches Err(err) && err.is_internal(e.spec_message()) && post == pre,
        Ok((id, client_public_key)) => if !pre.checkpoints.contains_key(id) {
            r matches Err(err) && err.is_internal("checkpoint not found"@) && post == pre
        } else {
            let secret = pre.checkpoints[id].server_ephemeral_private_key@;
            &&& checkpoint_consistent(pre.checkpoints[id]) && client_key_readable(client_public_key)
                ==> spec_session_error(secret, client_public_key) is None
            &&& if spec_session_error(secret, client_public_key) is Some {
                &&& r matches Err(err) && err.status == 500
                &&& spec_session_error(secret, client_public_key) == Some(SessionErrorKind::ClientPublicKey)
                    ==> r->Err_0.message@ == "client public key import failure"@
                &&& spec_session_error(secret, client_public_key) == Some(SessionErrorKind::ServerSecretKey)
                    ==> r->Err_0.message@ == "server ephemeral key failure"@
                &&& spec_session_error(secret, client_public_key) == Some(SessionErrorKind::Base64)
                    ==> spec_base64_decode_outcome(client_public_key) == Err::<Seq<u8>, Seq<char>>(r->Err_0.message@)
                &&& post == pre
            } else {
                let session = post.crypts[id];
                &&& r matches Ok(response) && response@ == dot_joined(id, session.salt_base64@)
                &&& post.checkpoints == pre.checkpoints.remove(id)
                &&& post.crypts == pre.crypts.insert(id, session)
                &&& exists|salt: Seq<u8>| #![trigger spec_session_keys(secret, client_public_key, salt)]
                    salt.len() == 32 && spec_base64_decode(session.salt_base64@) == Some(salt)
                    && spec_session_keys(secret, client_public_key, salt) == Some((session.decrypt_key_bytes@, session.encrypt_key_bytes@))
            }
        },
    }
}

/// What `GET /sockets/{id}` does: from `pre` to `post`, answering `r`.
pub open spec fn socket_outcome(pre: StateView, post: StateView, keys: Seq<u8>, id: Seq<char>, token: Option<Seq<char>>, dimensions: Option<Seq<u8>>, r: Result<(Dimensions, SessionCrypto), AppError>) -> bool {
    match token {
        None => r matches Err(err) && err.status == 400 && err.message@ == "token is required"@ && post == pre,
        Some(token) => if !pre.crypts.contains_key(id) {
            r matches Err(err) && err.is_internal("socket not found"@) && post == pre
        } else {
            match spec_verify_authorization(keys, id, token) {
                None => r matches Err(err) && err.is_internal(spec_verify_error_message(id, token)) && post == pre,
                Some(false) => r matches Err(err) && err.is_internal("wrong signature"@) && post == pre,
                Some(true) => {
                    &&& r matches Ok((d, crypt)) && crypt == pre.crypts[id] && d == (match dimensions {
                        Some(text) => match spec_parse_dimensions(text) {
                            Ok(parsed) => parsed,
                            Err(_) => Dimensions::spec_default(),
                        },
                        None => Dimensions::spec_default(),
                    })
                    &&& post.crypts == pre.crypts.remove(id)
                    &&& post.nonces == pre.nonces
                    &&& post.checkpoints == pre.checkpoints
                },
            }
        },
    }
}

fn internal_error(message: &str) -> (e: AppError)
    ensures
        e.is_internal(message@),
{
    AppError::internal(String::from_str(message))
}

/// `POST /api/nonce`: issue 8 random bytes in Base64 and remember them.
pub fn post_nonce(state: &mut AppState) -> (nonce: String)
    requires
        old(state).wf(),
    ensures
        final(state).wf(),
        is_base64_of_len(nonce@, 8),
        exists|now: u64| final(state)@.nonces == #[trigger] old(state)@.nonces.insert(nonce@, now),
        final(state)@.checkpoints == old(state)@.checkpoints,
        final(state)@.crypts == old(state)@.crypts,
        nonce_issued(*old(state), *final(state), nonce@),
{
    let bytes = random_bytes(8);
    let nonce = base64_encode(&bytes);
    state.insert_nonce(nonce.clone());
    nonce
}

/// `POST /api/ticket` at time `now` (nanoseconds since the state was
/// created): exchange `<nonce-base64>.<signature-base64>` for a one-shot
/// checkpoint. A valid signature over a live nonce spends the nonce and is
/// answered `<id>.<public-key-base64>`.
pub fn post_ticket_at(state: &mut AppState, keys: &AuthorizedKeySet, body: &str, now: u64) -> (r: Result<String, AppError>)
    requires
        old(state).wf(),
    ensures
        final(state).wf(),
        final(state).clock() == old(state).clock(),
        final(state).clock_reads() == old(state).clock_reads(),
        ticket_outcome(old(state)@, final(state)@, keys@, body.spec_bytes(), now, r),
{
    let (nonce, signature_base64) = match split_dot_pair(body) {
        Ok(pair) => pair,
        Err(e) => {
            return Err(internal_error(e.message()));
        },
    };
    proof {
        encode_utf8_decode_utf8(nonce@);
        encode_utf8_decode_utf8(signature_base64@);
    }
    let ghost pre = state@;
    if !state.contains_nonce_at(nonce, now) {
        return Err(internal_error("nonce not found"));
    }
    let is_valid = match keys.verify_authorization_signature(nonce, signature_base64) {
        Ok(valid) => valid,
        Err(e) => {
            return Err(AppError::internal(e.message()));
        },
    };
    if !is_valid {
        return Err(internal_error("wrong signature"));
    }
    proof {
        lemma_nonce_prune_monotone(pre.nonces, now, now);
    }
    let consumed = state.consume_nonce_at(nonce, now);
    if !consumed {
        return Err(internal_error("nonce not found"));
    }
    let (id, checkpoint) = match keys.generate_checkpoint() {
        Ok(pair) => pair,
        Err(e) => {
            return Err(AppError::internal(e.message()));
        },
    };
    let mut response = id.clone();
    response.append(".");
    response.append(checkpoint.server_ephemeral_public_key_base64.as_str());
    let ghost cp = checkpoint;
    let ghost id_view = id@;
    state.insert_checkpoint(id, checkpoint);
    assert(state@.checkpoints.contains_key(id_view));
    assert(state@.checkpoints[id_view] == cp);
    Ok(response)
}

/// `POST /api/ticket`: [`post_ticket_at`] at the current time.
pub fn post_ticket(state: &mut AppState, keys: &AuthorizedKeySet, body: &str) -> (r: Result<String, AppError>)
    requires
        old(state).wf(),
    ensures
        final(state).wf(),
        exists|now: u64| #[trigger] ticket_outcome(old(state)@, final(state)@, keys@, body.spec_bytes(), now, r),
        ticket_answered(*old(state), *final(state), keys@, body.spec_bytes(), r),
{
    let now = state.now_ns();
    post_ticket_at(state, keys, body, now)
}

/// `POST /api/salt`: complete the handshake for the checkpoint named in
/// `<id>.<client-ephemeral-public-key-base64>`, consuming it, storing the
/// session crypto under `id` and answering `<id>.<salt-base64>`.
pub fn post_salt(state: &mut AppState, keys: &AuthorizedKeySet, body: &str) -> (r: Result<String, AppError>)
    requires
        old(state).wf(),
    ensures
        final(state).wf(),
        final(state).clock() == old(state).clock(),
        final(state).clock_reads() == old(state).clock_reads(),
        salt_outcome(old(state)@, final(state)@, body.spec_bytes(), r),
{
    let (id, client_ephemeral_public_key_base64) = match split_dot_pair(body) {
        Ok(pair) => pair,
        Err(e) => {
            return Err(internal_error(e.message()));
        },
    };
    proof {
        encode_utf8_decode_utf8(id@);
        encode_utf8_decode_utf8(client_ephemeral_public_key_base64@);
    }
    let checkpoint = match state.checkpoint(id) {
        Some(c) => c,
        None => {
            return Err(internal_error("checkpoint not found"));
        },
    };
    let (salt_base64, session_crypto) = match keys.derive_session_crypto(&checkpoint, client_ephemeral_public_key_base64) {
        Ok(pair) => pair,
        Err(e) => {
            return Err(AppError::internal(e.message()));
        },
    };
    let consumed = state.consume_checkpoint(id);
    if consumed.is_none() {
        return Err(internal_error("checkpoint not found"));
    }
    let mut response = id.to_owned();
    response.append(".");
    response.append(salt_base64.as_str());
    state.insert_crypt(id.to_owned(), session_crypto);
    Ok(response)
}

/// `GET /sockets/{id}`: check the token and consume the session crypto of
/// `id`; answers the initial dimensions and the session crypto.
pub fn get_socket(state: &mut AppState, keys: &AuthorizedKeySet, id: &str, token: Option<&str>, dimensions: Option<&str>) -> (r: Result<(Dimensions, SessionCrypto), AppError>)
    requires
        old(state).wf(),
    ensures
        final(state).wf(),
        final(state).clock() == old(state).clock(),
        final(state).clock_reads() == old(state).clock_reads(),
        socket_outcome(
            old(state)@,
            final(state)@,
            keys@,
            id@,
            match token {
                Some(t) => Some(t@),
                None => None,
            },
            match dimensions {
                Some(d) => Some(d.spec_bytes()),
                None => None,
            },
            r,
        ),
{
    let initial = parse_dimensions_or_default(dimensions);
    let token = match token {
        Some(t) => t,
        None => {
            return Err(AppError::bad_request(String::from_str("token is required")));
        },
    };
    if state.crypt(id).is_none() {
        return Err(internal_error("socket not found"));
    }
    let is_valid = match keys.verify_authorization_signature(id, token) {
        Ok(valid) => valid,
        Err(e) => {
            return Err(AppError::internal(e.message()));
        },
    };
    if !is_valid {
        return Err(internal_error("wrong signature"));
    }
    let crypt = match state.consume_crypt(id) {
        Some(c) => c,
        None => {
            return Err(internal_error("socket not found"));
        },
    };
    Ok((initial, crypt))
}


/// Law: `POST /api/ticket` answers with a ticket only for a nonce that was
/// still valid and a signature the authorized key accepts over it; and the
/// nonce is then spent: the same body, at any later time, is refused with
/// "nonce not found".
pub proof fn lemma_ticket_spends_nonce(
    pre: StateView,
    mid: StateView,
    post: StateView,
    keys: Seq<u8>,
    body: Seq<u8>,
    first: u64,
    second: u64,
    response: String,
    r: Result<String, AppError>,
)
    requires
        ticket_outcome(pre, mid, keys, body, first, Ok::<String, AppError>(response)),
        ticket_outcome(mid, post, keys, body, second, r),
    ensures
        body_fields(body) matches Ok((nonce, signature)) && live_nonces(pre.nonces, first).contains_key(nonce)
            && spec_verify_authorization(keys, nonce, signature) == Some(true),
        r matches Err(err) && err.is_internal("nonce not found"@),
{
}

/// Law: `POST /api/salt` succeeds at most once per checkpoint: the session
/// it stores is found under the same id, and the same body is then refused
/// with "checkpoint not found".
pub proof fn lemma_salt_spends_checkpoint(
    pre: StateView,
    mid: StateView,
    post: StateView,
    body: Seq<u8>,
    response: String,
    r: Result<String, AppError>,
)
    requires
        salt_outcome(pre, mid, body, Ok::<String, AppError>(response)),
        salt_outcome(mid, post, body, r),
    ensures
        body_fields(body) matches Ok((id, _)) && pre.checkpoints.contains_key(id) && mid.crypts.contains_key(id)
            && !mid.checkpoints.contains_key(id),
        r matches Err(err) && err.is_internal("checkpoint not found"@),
{
}

/// Law: a session id is upgraded at most once: after `GET /sockets/{id}`
/// hands out its session crypto, any later request for the same id is
/// refused, whatever its token.
pub proof fn lemma_socket_spends_crypt(
    pre: StateView,
    mid: StateView,
    post: StateView,
    keys: Seq<u8>,
    id: Seq<char>,
    token: Option<Seq<char>>,
    dimensions: Option<Seq<u8>>,
    granted: (Dimensions, SessionCrypto),
    later_token: Option<Seq<char>>,
    later_dimensions: Option<Seq<u8>>,
    r: Result<(Dimensions, SessionCrypto), AppError>,
)
    requires
        socket_outcome(pre, mid, keys, id, token, dimensions, Ok::<(Dimensions, SessionCrypto), AppError>(granted)),
        socket_outcome(mid, post, keys, id, later_token, later_dimensions, r),
    ensures
        token matches Some(t) && spec_verify_authorization(keys, id, t) == Some(true),
        granted.1 == pre.crypts[id],
        r is Err,
{
}

/// Law: the session that `POST /api/salt` stores is the one `GET
/// /sockets/{id}` hands out for that id.
pub proof fn lemma_salt_then_socket(
    pre: StateView,
    mid: StateView,
    post: StateView,
    keys: Seq<u8>,
    body: Seq<u8>,
    response: String,
    id: Seq<char>,
    token: Option<Seq<char>>,
    dimensions: Option<Seq<u8>>,
    granted: (Dimensions, SessionCrypto),
)
    requires
        salt_outcome(pre, mid, body, Ok::<String, AppError>(response)),
        body_fields(body) matches Ok((salt_id, _)) && salt_id == id,
        socket_outcome(mid, post, keys, id, token, dimensions, Ok::<(Dimensions, SessionCrypto), AppError>(granted)),
    ensures
        granted.1 == mid.crypts[id],
        mid.crypts.contains_key(id),
{
}

/// Law: the handshake goes through. After `POST /api/ticket` grants a
/// ticket, `POST /api/salt` for that ticket's id (the first 12 characters of
/// the ticket) with the Base64 of an SPKI key that `p256` reads succeeds: the
/// session is stored under the id and the checkpoint is spent.
pub proof fn lemma_ticket_then_salt(
    pre: StateView,
    mid: StateView,
    post: StateView,
    keys: Seq<u8>,
    ticket_body: Seq<u8>,
    now: u64,
    ticket: String,
    salt_body: Seq<u8>,
    r: Result<String, AppError>,
)
    requires
        ticket_outcome(pre, mid, keys, ticket_body, now, Ok::<String, AppError>(ticket)),
        body_fields(salt_body) matches Ok((id, client_public_key))
            && id == ticket@.subrange(0, 12) && client_key_readable(client_public_key),
        salt_outcome(mid, post, salt_body, r),
    ensures
        r is Ok,
        body_fields(salt_body) matches Ok((id, _))
            && post.crypts.contains_key(id) && !post.checkpoints.contains_key(id),
{
    let (id, client_public_key) = body_fields(salt_body)->Ok_0;
    let granted = choose|g: Seq<char>| #[trigger] mid.checkpoints.contains_key(g)
        && mid.checkpoints == pre.checkpoints.insert(g, mid.checkpoints[g])
        && ticket@ == dot_joined(g, mid.checkpoints[g].server_ephemeral_public_key_base64@)
        && is_base64_of_len(g, 8)
        && checkpoint_consistent(mid.checkpoints[g]);
    assert(granted.len() == 12);
    assert(ticket@.subrange(0, 12) =~= granted);
    assert(mid.checkpoints.contains_key(id));
}

/// Law: a nonce from `POST /api/nonce` lives for the full TTL, counted from
/// its issue. A ticket request with a valid signature over it, made next, is
/// granted (and spends the nonce) when the clock has moved on less than
/// `NONCE_TTL_MS`, and refused with "nonce not found" from then on, however
/// long the server has been running.
pub proof fn lemma_issued_nonce_lives_for_the_ttl(
    issuing: AppState,
    issued: AppState,
    answered: AppState,
    keys: Seq<u8>,
    nonce: Seq<char>,
    signature: Seq<char>,
    body: Seq<u8>,
    r: Result<String, AppError>,
)
    requires
        nonce_issued(issuing, issued, nonce),
        ticket_answered(issued, answered, keys, body, r),
        body_fields(body) == Ok::<(Seq<char>, Seq<char>), PairError>((nonce, signature)),
        spec_verify_authorization(keys, nonce, signature) == Some(true),
    ensures
        answered.clock() < issued.clock() + NONCE_TTL_NS ==> r is Ok && !answered@.nonces.contains_key(nonce),
        answered.clock() >= issued.clock() + NONCE_TTL_NS ==> (r matches Err(e) && e.is_internal("nonce not found"@)),
{
}

/// Law: the PTY opens at the dimensions asked for. A granted upgrade
/// answers the dimensions that the `dimensions` query reads as, whatever
/// they are (a normalized `<cols>,<rows>` gives back exactly its
/// dimensions), and `100,30` only when the query is missing or unreadable.
pub proof fn lemma_socket_opens_at_requested_dimensions(
    pre: StateView,
    post: StateView,
    keys: Seq<u8>,
    id: Seq<char>,
    token: Option<Seq<char>>,
    dimensions: Option<Seq<u8>>,
    granted: (Dimensions, SessionCrypto),
)
    requires
        socket_outcome(pre, post, keys, id, token, dimensions, Ok::<(Dimensions, SessionCrypto), AppError>(granted)),
    ensures
        dimensions is Some && spec_parse_dimensions(dimensions->Some_0) is Ok
            ==> granted.0 == spec_parse_dimensions(dimensions->Some_0)->Ok_0,
        forall|d: Dimensions| d.cols > 0 && d.rows > 0 && dimensions == Some(#[trigger] dimensions_text(d))
            ==> granted.0 == d,
        dimensions is None || spec_parse_dimensions(dimensions->Some_0) is Err
            ==> granted.0 == (Dimensions { cols: 100, rows: 30 }),
{
    assert forall|d: Dimensions| d.cols > 0 && d.rows > 0 && dimensions == Some(#[trigger] dimensions_text(d))
        implies granted.0 == d by {
        lemma_resize_payload_round_trip(d);
    }
}

} // verus!
