//! Wire format of the backend: the plain-text handshake bodies and the binary
//! WebSocket frames.
//!
//! Protocol summary:
//! - HTTP handshake request/response bodies use dot-separated plain-text pairs
//! - WebSocket binary type `0` is encrypted PTY data
//! - WebSocket binary type `1` is plaintext resize data
//! - invalid or missing initial dimensions fall back to `100,30`
//! - close code `4000` is normal client close
//! - close code `4001` indicates PTY exit
//!
//! Every parser here is specified over the UTF-8 bytes of its input, which is
//! what travels on the wire.

use vstd::prelude::*;
use vstd::string::StringSliceAdditionalSpecFns;
use vstd::utf8::*;

verus! {

/// Nonces issued by `POST /api/nonce` remain valid for 3000 ms.
pub const NONCE_TTL_MS: u64 = 3000;

/// Invalid or missing initial dimensions fall back to this pair.
pub const DEFAULT_COLS: u16 = 100;

/// Invalid or missing initial dimensions fall back to this pair.
pub const DEFAULT_ROWS: u16 = 30;

/// HKDF `info` label for traffic from browser to server: `client -> server`.
pub const HKDF_INFO_UP: [u8; 16] = [99, 108, 105, 101, 110, 116, 32, 45, 62, 32, 115, 101, 114, 118, 101, 114];

/// HKDF `info` label for traffic from server to browser: `server -> client`.
pub const HKDF_INFO_DOWN: [u8; 16] = [115, 101, 114, 118, 101, 114, 32, 45, 62, 32, 99, 108, 105, 101, 110, 116];

/// Normal client-initiated close code.
pub const WS_CLOSE_NORMAL: u16 = 4000;

/// Server close code used when the PTY exits first.
pub const WS_CLOSE_PTY_EXIT: u16 = 4001;

/// Known binary message type for encrypted PTY data.
pub const WS_TYPE_PTY_DATA: u8 = 0;

/// Known binary message type for plaintext resize.
pub const WS_TYPE_RESIZE: u8 = 1;

/// Length of the AES-GCM IV that opens a type `0` frame.
pub const IV_LEN: usize = 12;

/// ASCII `+`.
pub const BYTE_PLUS: u8 = 43;

/// ASCII `,`, the separator of `<cols>,<rows>`.
pub const BYTE_COMMA: u8 = 44;

/// ASCII `.`, the separator of the handshake pairs.
pub const BYTE_DOT: u8 = 46;

/// ASCII `0`.
pub const BYTE_ZERO: u8 = 48;

/// ASCII `9`.
pub const BYTE_NINE: u8 = 57;

/// PTY exit details carried in the close reason for code `4001`, whose wire
/// form is the JSON object `{ "exitCode": ..., "signal": ... }`.
#[derive(Debug, Clone, Copy, PartialEq, Eq)]
pub struct PtyExitReason {
    pub exit_code: Option<i32>,
    pub signal: Option<i32>,
}

/// Positive PTY dimensions accepted by the protocol.
#[derive(Debug, Clone, Copy, PartialEq, Eq)]
pub struct Dimensions {
    pub cols: u16,
    pub rows: u16,
}

impl Dimensions {
    /// The protocol default, `100,30`.
    pub open spec fn spec_default() -> Dimensions {
        Dimensions { cols: DEFAULT_COLS, rows: DEFAULT_ROWS }
    }

    /// The protocol default, `100,30`.
    pub fn default_dimensions() -> (d: Dimensions)
        ensures
            d == Dimensions::spec_default(),
    {
        Dimensions { cols: DEFAULT_COLS, rows: DEFAULT_ROWS }
    }
}

/// Why `<cols>,<rows>` was rejected, in the order the rules are applied.
#[derive(Debug, Clone, Copy, PartialEq, Eq)]
pub enum DimensionsError {
    /// The text before the first comma is not a `u16`.
    InvalidCols,
    /// There is no comma.
    MissingRows,
    /// The text between the first and second comma is not a `u16`.
    InvalidRows,
    /// There is more than one comma.
    TooManyParts,
    /// One of the two values is zero.
    NotPositive,
}

pub open spec fn is_ascii_digit(b: u8) -> bool {
    BYTE_ZERO <= b <= BYTE_NINE
}

pub open spec fn all_ascii_digits(s: Seq<u8>) -> bool {
    forall|i: int| 0 <= i < s.len() ==> is_ascii_digit(#[trigger] s[i])
}

/// Value of a sequence of ASCII digits read in base ten.
pub open spec fn decimal_value(digits: Seq<u8>) -> nat
    decreases digits.len(),
{
    if digits.len() == 0 {
        0
    } else {
        decimal_value(digits.drop_last()) * 10 + (digits.last() - BYTE_ZERO) as nat
    }
}

/// The text with one leading `+` removed, if it has one.
pub open spec fn unsigned_digits(text: Seq<u8>) -> Seq<u8> {
    if text.len() > 0 && text[0] == BYTE_PLUS {
        text.drop_first()
    } else {
        text
    }
}

/// What `u16::from_str` accepts: an optional `+`, then one or more ASCII
/// digits whose value fits in 16 bits (leading zeros allowed).
pub open spec fn spec_parse_u16(text: Seq<u8>) -> Option<u16> {
    let digits = unsigned_digits(text);
    if digits.len() > 0 && all_ascii_digits(digits) && decimal_value(digits) <= u16::MAX {
        Some(decimal_value(digits) as u16)
    } else {
        None
    }
}

/// Parse a decimal `u16` the way `str::parse::<u16>` does.
pub fn parse_u16(text: &[u8]) -> (r: Option<u16>)
    ensures
        r == spec_parse_u16(text@),
{
    let n = text.len();
    let mut start: usize = 0;
    if n > 0 && text[0] == BYTE_PLUS {
        start = 1;
    }
    let ghost digits = text@.subrange(start as int, n as int);
    assert(digits == unsigned_digits(text@));
    if start == n {
        return None;
    }
    let mut acc: u32 = 0;
    let mut i: usize = start;
    while i < n
        invariant
            n == text@.len(),
            start <= i <= n,
            digits == text@.subrange(start as int, n as int),
            digits == unsigned_digits(text@),
            forall|j: int| start <= j < i ==> is_ascii_digit(#[trigger] text@[j]),
            acc == (if decimal_value(text@.subrange(start as int, i as int)) > 65536 {
                65536
            } else {
                decimal_value(text@.subrange(start as int, i as int))
            }),
        decreases n - i,
    {
        let b = text[i];
        if b < BYTE_ZERO || b > BYTE_NINE {
            assert(digits[i - start] == text@[i as int]);
            assert(!is_ascii_digit(digits[i - start]));
            assert(!all_ascii_digits(digits));
            return None;
        }
        let d: u32 = (b - BYTE_ZERO) as u32;
        assert(text@.subrange(start as int, i + 1).drop_last() == text@.subrange(start as int, i as int));
        if acc * 10 + d > 65536 {
            acc = 65536;
        } else {
            acc = acc * 10 + d;
        }
        i = i + 1;
    }
    assert(text@.subrange(start as int, n as int) == digits);
    assert(all_ascii_digits(digits)) by {
        assert forall|j: int| 0 <= j < digits.len() implies is_ascii_digit(#[trigger] digits[j]) by {
            assert(digits[j] == text@[j + start]);
        }
    }
    if acc > 65535 {
        None
    } else {
        Some(acc as u16)
    }
}


/// The bytes before the first `sep`, or all of `s` when it has none.
pub open spec fn field_before(s: Seq<u8>, sep: u8) -> Seq<u8> {
    match s.index_of_first(sep) {
        Some(i) => s.take(i),
        None => s,
    }
}

/// Index of the first `sep` in `s`.
pub fn find_byte(s: &[u8], sep: u8) -> (r: Option<usize>)
    ensures
        match r {
            Some(i) => s@.index_of_first(sep) == Some(i as int),
            None => s@.index_of_first(sep) is None,
        },
{
    proof {
        s@.index_of_first_ensures(sep);
    }
    let n = s.len();
    let mut i: usize = 0;
    while i < n
        invariant
            n == s@.len(),
            i <= n,
            forall|j: int| 0 <= j < i ==> s@[j] != sep,
        decreases n - i,
    {
        if s[i] == sep {
            proof {
                s@.index_of_first_ensures(sep);
            }
            return Some(i);
        }
        i = i + 1;
    }
    None
}

/// Why a body is not a dot-separated pair.
#[derive(Debug, Clone, Copy, PartialEq, Eq)]
pub enum PairError {
    /// No separator, or more than one.
    NotExactlyOnePair,
    /// One side of the separator is empty.
    EmptyMember,
}

impl PairError {
    /// The message the server answers with.
    pub open spec fn spec_message(self) -> Seq<char> {
        match self {
            PairError::NotExactlyOnePair => "expected exactly one dot-separated pair"@,
            PairError::EmptyMember => "dot-separated pair members must not be empty"@,
        }
    }

    /// The message the server answers with.
    pub fn message(&self) -> (m: &'static str)
        ensures
            m@ == self.spec_message(),
    {
        match self {
            PairError::NotExactlyOnePair => "expected exactly one dot-separated pair",
            PairError::EmptyMember => "dot-separated pair members must not be empty",
        }
    }
}

/// A body split at its only `.`: both sides non-empty, the right side
/// without a further `.`. The rules apply in that order.
pub open spec fn spec_split_dot_pair(s: Seq<u8>) -> Result<(Seq<u8>, Seq<u8>), PairError> {
    match s.index_of_first(BYTE_DOT) {
        None => Err(PairError::NotExactlyOnePair),
        Some(i) => {
            let left = s.take(i);
            let right = s.skip(i + 1);
            if left.len() == 0 || right.len() == 0 {
                Err(PairError::EmptyMember)
            } else if right.contains(BYTE_DOT) {
                Err(PairError::NotExactlyOnePair)
            } else {
                Ok((left, right))
            }
        },
    }
}

proof fn lemma_boundary_after_ascii(bytes: Seq<u8>)
    requires
        valid_utf8(bytes),
        bytes.len() >= 1,
        bytes[0] < 0x80,
    ensures
        is_char_boundary(bytes, 1),
{
    reveal_with_fuel(is_char_boundary, 2);
}

/// Split a plain-text request or response body into exactly two non-empty
/// dot-separated fields.
pub fn split_dot_pair(input: &str) -> (r: Result<(&str, &str), PairError>)
    ensures
        match r {
            Ok((left, right)) => spec_split_dot_pair(input.spec_bytes()) == Ok::<
                (Seq<u8>, Seq<u8>),
                PairError,
            >((left.spec_bytes(), right.spec_bytes())),
            Err(e) => spec_split_dot_pair(input.spec_bytes()) == Err::<(Seq<u8>, Seq<u8>), PairError>(e),
        },
{
    let bytes = input.as_bytes();
    let ghost b = input.spec_bytes();
    proof {
        encode_utf8_valid_utf8(input@);
    }
    let i = match find_byte(bytes, BYTE_DOT) {
        None => {
            return Err(PairError::NotExactlyOnePair);
        },
        Some(i) => i,
    };
    proof {
        b.index_of_first_ensures(BYTE_DOT);
        is_char_boundary_iff_not_is_continuation_byte(b, i as int);
    }
    let (left, dotted) = input.split_at(i);
    let ghost d = dotted.spec_bytes();
    proof {
        valid_utf8_split(b, i as int);
        lemma_boundary_after_ascii(d);
    }
    let (_dot, right) = dotted.split_at(1);
    assert(right.spec_bytes() =~= b.skip(i + 1));
    assert(left.spec_bytes() =~= b.take(i as int));
    if left.as_bytes().len() == 0 || right.as_bytes().len() == 0 {
        return Err(PairError::EmptyMember);
    }
    match find_byte(right.as_bytes(), BYTE_DOT) {
        Some(_) => {
            proof {
                right.spec_bytes().index_of_first_ensures(BYTE_DOT);
            }
            Err(PairError::NotExactlyOnePair)
        },
        None => {
            proof {
                right.spec_bytes().index_of_first_ensures(BYTE_DOT);
            }
            Ok((left, right))
        },
    }
}


impl DimensionsError {
    /// The message of the rule that failed.
    pub open spec fn spec_message(self) -> Seq<char> {
        match self {
            DimensionsError::InvalidCols => "invalid cols"@,
            DimensionsError::MissingRows => "missing rows"@,
            DimensionsError::InvalidRows => "invalid rows"@,
            DimensionsError::TooManyParts => "too many dimension parts"@,
            DimensionsError::NotPositive => "dimensions must be positive"@,
        }
    }

    /// The message of the rule that failed.
    pub fn message(&self) -> (m: &'static str)
        ensures
            m@ == self.spec_message(),
    {
        match self {
            DimensionsError::InvalidCols => "invalid cols",
            DimensionsError::MissingRows => "missing rows",
            DimensionsError::InvalidRows => "invalid rows",
            DimensionsError::TooManyParts => "too many dimension parts",
            DimensionsError::NotPositive => "dimensions must be positive",
        }
    }
}

/// `<cols>,<rows>`: the text is split at every comma; the first field must
/// parse as `u16`, a second field must exist and parse as `u16`, no third
/// field may exist, and both values must be positive, checked in that order.
pub open spec fn spec_parse_dimensions(text: Seq<u8>) -> Result<Dimensions, DimensionsError> {
    match spec_parse_u16(field_before(text, BYTE_COMMA)) {
        None => Err(DimensionsError::InvalidCols),
        Some(cols) => match text.index_of_first(BYTE_COMMA) {
            None => Err(DimensionsError::MissingRows),
            Some(i) => {
                let rest = text.skip(i + 1);
                match spec_parse_u16(field_before(rest, BYTE_COMMA)) {
                    None => Err(DimensionsError::InvalidRows),
                    Some(rows) => if rest.contains(BYTE_COMMA) {
                        Err(DimensionsError::TooManyParts)
                    } else if cols == 0 || rows == 0 {
                        Err(DimensionsError::NotPositive)
                    } else {
                        Ok(Dimensions { cols, rows })
                    },
                }
            },
        },
    }
}

/// Parse strictly positive PTY dimensions from `<cols>,<rows>` bytes.
pub fn parse_dimensions_bytes(bytes: &[u8]) -> (r: Result<Dimensions, DimensionsError>)
    ensures
        r == spec_parse_dimensions(bytes@),
{
    let n = bytes.len();
    let comma = find_byte(bytes, BYTE_COMMA);
    proof {
        bytes@.index_of_first_ensures(BYTE_COMMA);
    }
    let cols_end = match comma {
        Some(i) => i,
        None => n,
    };
    assert(bytes@.subrange(0, cols_end as int) =~= field_before(bytes@, BYTE_COMMA));
    let cols = match parse_u16(&bytes[0..cols_end]) {
        None => {
            return Err(DimensionsError::InvalidCols);
        },
        Some(c) => c,
    };
    let i = match comma {
        None => {
            return Err(DimensionsError::MissingRows);
        },
        Some(i) => i,
    };
    let rest = &bytes[i + 1..n];
    assert(rest@ =~= bytes@.skip(i + 1));
    let comma2 = find_byte(rest, BYTE_COMMA);
    proof {
        rest@.index_of_first_ensures(BYTE_COMMA);
    }
    let rows_end = match comma2 {
        Some(j) => j,
        None => rest.len(),
    };
    assert(rest@.subrange(0, rows_end as int) =~= field_before(rest@, BYTE_COMMA));
    let rows = match parse_u16(&rest[0..rows_end]) {
        None => {
            return Err(DimensionsError::InvalidRows);
        },
        Some(r) => r,
    };
    if comma2.is_some() {
        return Err(DimensionsError::TooManyParts);
    }
    if cols == 0 || rows == 0 {
        return Err(DimensionsError::NotPositive);
    }
    Ok(Dimensions { cols, rows })
}

/// Parse strictly positive PTY dimensions from `<cols>,<rows>`.
pub fn parse_dimensions(input: &str) -> (r: Result<Dimensions, DimensionsError>)
    ensures
        r == spec_parse_dimensions(input.spec_bytes()),
{
    parse_dimensions_bytes(input.as_bytes())
}

/// Parse `<cols>,<rows>` or return the protocol default dimensions.
pub fn parse_dimensions_or_default(input: Option<&str>) -> (d: Dimensions)
    ensures
        d == (match input {
            Some(text) => match spec_parse_dimensions(text.spec_bytes()) {
                Ok(parsed) => parsed,
                Err(_) => Dimensions::spec_default(),
            },
            None => Dimensions::spec_default(),
        }),
{
    match input {
        Some(text) => match parse_dimensions(text) {
            Ok(parsed) => parsed,
            Err(_) => Dimensions::default_dimensions(),
        },
        None => Dimensions::default_dimensions(),
    }
}

/// Decimal representation of `n` without leading zeros, as ASCII bytes.
pub open spec fn decimal_digits(n: nat) -> Seq<u8>
    decreases n,
{
    if n < 10 {
        seq![(BYTE_ZERO + n) as u8]
    } else {
        decimal_digits(n / 10).push((BYTE_ZERO + n % 10) as u8)
    }
}

/// Append the decimal representation of `n` to `out`.
fn push_decimal(out: &mut Vec<u8>, n: u16)
    ensures
        final(out)@ == old(out)@ + decimal_digits(n as nat),
    decreases n,
{
    if n >= 10 {
        push_decimal(out, n / 10);
    }
    out.push(BYTE_ZERO + (n % 10) as u8);
    assert(final(out)@ =~= old(out)@ + decimal_digits(n as nat)) by {
        if n >= 10 {
            assert(decimal_digits(n as nat) == decimal_digits((n / 10) as nat).push((BYTE_ZERO + n % 10) as u8));
        }
    }
}

/// The text `<cols>,<rows>` in decimal.
pub open spec fn dimensions_text(d: Dimensions) -> Seq<u8> {
    decimal_digits(d.cols as nat) + seq![BYTE_COMMA] + decimal_digits(d.rows as nat)
}

/// Build the normalized binary payload for a successful type `1` resize echo:
/// the type byte followed by `<cols>,<rows>` in decimal.
pub fn build_resize_payload(dimensions: Dimensions) -> (payload: Vec<u8>)
    ensures
        payload@ == seq![WS_TYPE_RESIZE] + dimensions_text(dimensions),
{
    let mut payload: Vec<u8> = Vec::with_capacity(12);
    payload.push(WS_TYPE_RESIZE);
    push_decimal(&mut payload, dimensions.cols);
    payload.push(BYTE_COMMA);
    push_decimal(&mut payload, dimensions.rows);
    assert(payload@ =~= seq![WS_TYPE_RESIZE] + dimensions_text(dimensions));
    payload
}


/// Parsed `POST /api/ticket` success body.
#[derive(Debug, Clone, PartialEq, Eq)]
pub struct TicketBody<'a> {
    pub id: &'a str,
    pub server_ephemeral_public_key_base64: &'a str,
}

/// Parsed `POST /api/salt` success body.
#[derive(Debug, Clone, PartialEq, Eq)]
pub struct SaltBody<'a> {
    pub id: &'a str,
    pub salt_base64: &'a str,
}

/// Parse the success body returned by `POST /api/ticket`.
pub fn parse_ticket_body(input: &str) -> (r: Result<TicketBody<'_>, PairError>)
    ensures
        match r {
            Ok(body) => spec_split_dot_pair(input.spec_bytes()) == Ok::<(Seq<u8>, Seq<u8>), PairError>(
                (body.id.spec_bytes(), body.server_ephemeral_public_key_base64.spec_bytes()),
            ),
            Err(e) => spec_split_dot_pair(input.spec_bytes()) == Err::<(Seq<u8>, Seq<u8>), PairError>(e),
        },
{
    let (id, server_ephemeral_public_key_base64) = split_dot_pair(input)?;
    Ok(TicketBody { id, server_ephemeral_public_key_base64 })
}

/// Parse the success body returned by `POST /api/salt`.
pub fn parse_salt_body(input: &str) -> (r: Result<SaltBody<'_>, PairError>)
    ensures
        match r {
            Ok(body) => spec_split_dot_pair(input.spec_bytes()) == Ok::<(Seq<u8>, Seq<u8>), PairError>(
                (body.id.spec_bytes(), body.salt_base64.spec_bytes()),
            ),
            Err(e) => spec_split_dot_pair(input.spec_bytes()) == Err::<(Seq<u8>, Seq<u8>), PairError>(e),
        },
{
    let (id, salt_base64) = split_dot_pair(input)?;
    Ok(SaltBody { id, salt_base64 })
}

/// Parsed WebSocket application message.
#[derive(Debug, Clone, PartialEq, Eq)]
pub enum WsFrame<'a> {
    PtyData { iv: [u8; 12], ciphertext_and_tag: &'a [u8] },
    Resize { dimensions: Dimensions, raw_text: &'a str },
    Unknown { message_type: u8, payload: &'a [u8] },
}

/// Why a binary WebSocket payload was rejected.
#[derive(Debug, Clone, Copy, PartialEq, Eq)]
pub enum FrameError {
    /// The payload has no type byte.
    Empty,
    /// A type `0` payload is shorter than its 12-byte IV.
    MissingIv,
    /// A type `1` payload is not UTF-8.
    ResizeNotUtf8,
    /// A type `1` payload is UTF-8 but not valid dimensions.
    Resize(DimensionsError),
}

impl FrameError {
    /// The message of the rule that failed.
    pub open spec fn spec_message(self) -> Seq<char> {
        match self {
            FrameError::Empty => "WebSocket payload must not be empty"@,
            FrameError::MissingIv => "type 0 frame must contain a 12-byte IV"@,
            FrameError::ResizeNotUtf8 => "type 1 payload must be valid UTF-8"@,
            FrameError::Resize(e) => e.spec_message(),
        }
    }

    /// The message of the rule that failed.
    pub fn message(&self) -> (m: &'static str)
        ensures
            m@ == self.spec_message(),
    {
        match self {
            FrameError::Empty => "WebSocket payload must not be empty",
            FrameError::MissingIv => "type 0 frame must contain a 12-byte IV",
            FrameError::ResizeNotUtf8 => "type 1 payload must be valid UTF-8",
            FrameError::Resize(e) => e.message(),
        }
    }
}

/// The error a binary payload is rejected with, if any.
pub open spec fn spec_frame_error(p: Seq<u8>) -> Option<FrameError> {
    if p.len() == 0 {
        Some(FrameError::Empty)
    } else if p[0] == WS_TYPE_PTY_DATA && p.len() < 1 + IV_LEN {
        Some(FrameError::MissingIv)
    } else if p[0] == WS_TYPE_RESIZE && !valid_utf8(p.skip(1)) {
        Some(FrameError::ResizeNotUtf8)
    } else if p[0] == WS_TYPE_RESIZE && spec_parse_dimensions(p.skip(1)) is Err {
        Some(FrameError::Resize(spec_parse_dimensions(p.skip(1))->Err_0))
    } else {
        None
    }
}

/// `frame` is what the non-empty payload `p` says, by its type byte:
/// type `0` is `iv || ciphertext-and-tag`, type `1` is `<cols>,<rows>`,
/// any other type keeps its payload unread.
pub open spec fn frame_describes(frame: WsFrame, p: Seq<u8>) -> bool {
    match frame {
        WsFrame::PtyData { iv, ciphertext_and_tag } => {
            &&& p[0] == WS_TYPE_PTY_DATA
            &&& iv@ == p.subrange(1, 1 + IV_LEN)
            &&& ciphertext_and_tag@ == p.skip(1 + IV_LEN)
        },
        WsFrame::Resize { dimensions, raw_text } => {
            &&& p[0] == WS_TYPE_RESIZE
            &&& raw_text.spec_bytes() == p.skip(1)
            &&& spec_parse_dimensions(p.skip(1)) == Ok::<Dimensions, DimensionsError>(dimensions)
        },
        WsFrame::Unknown { message_type, payload } => {
            &&& message_type == p[0]
            &&& message_type != WS_TYPE_PTY_DATA
            &&& message_type != WS_TYPE_RESIZE
            &&& payload@ == p.skip(1)
        },
    }
}

/// `std::str::from_utf8`, as an `Option`.
#[verifier::external_body]
fn str_from_utf8<'a>(bytes: &'a [u8]) -> (r: Option<&'a str>)
    ensures
        match r {
            Some(text) => valid_utf8(bytes@) && text.spec_bytes() == bytes@,
            None => !valid_utf8(bytes@),
        },
{
    std::str::from_utf8(bytes).ok()
}

/// Parse a binary WebSocket application frame.
///
/// Type `0` is parsed as `message-type || 12-byte-iv || ciphertext-and-tag`.
/// Type `1` is parsed as `message-type || utf8("<cols>,<rows>")`.
/// Other types are kept, unread, as `Unknown`.
pub fn parse_ws_frame(payload: &[u8]) -> (r: Result<WsFrame<'_>, FrameError>)
    ensures
        match r {
            Ok(frame) => spec_frame_error(payload@) is None && payload@.len() > 0 && frame_describes(
                frame,
                payload@,
            ),
            Err(e) => spec_frame_error(payload@) == Some(e),
        },
{
    let n = payload.len();
    if n == 0 {
        return Err(FrameError::Empty);
    }
    let message_type = payload[0];
    let rest = &payload[1..n];
    assert(rest@ =~= payload@.skip(1));
    if message_type == WS_TYPE_PTY_DATA {
        if rest.len() < IV_LEN {
            return Err(FrameError::MissingIv);
        }
        let mut iv = [0u8; 12];
        let mut k: usize = 0;
        while k < IV_LEN
            invariant
                k <= IV_LEN,
                rest@.len() >= IV_LEN,
                forall|j: int| 0 <= j < k ==> iv@[j] == rest@[j],
            decreases IV_LEN - k,
        {
            iv[k] = rest[k];
            k = k + 1;
        }
        let ciphertext_and_tag = &rest[IV_LEN..rest.len()];
        assert(iv@ =~= payload@.subrange(1, 1 + IV_LEN));
        assert(ciphertext_and_tag@ =~= payload@.skip(1 + IV_LEN));
        Ok(WsFrame::PtyData { iv, ciphertext_and_tag })
    } else if message_type == WS_TYPE_RESIZE {
        let raw_text = match str_from_utf8(rest) {
            None => {
                return Err(FrameError::ResizeNotUtf8);
            },
            Some(text) => text,
        };
        match parse_dimensions(raw_text) {
            Ok(dimensions) => Ok(WsFrame::Resize { dimensions, raw_text }),
            Err(e) => Err(FrameError::Resize(e)),
        }
    } else {
        Ok(WsFrame::Unknown { message_type, payload: rest })
    }
}


proof fn lemma_decimal_digits(n: nat)
    ensures
        decimal_digits(n).len() > 0,
        all_ascii_digits(decimal_digits(n)),
        decimal_value(decimal_digits(n)) == n,
    decreases n,
{
    let d = decimal_digits(n);
    if n < 10 {
        assert(d.drop_last() =~= Seq::<u8>::empty());
        assert(decimal_value(d.drop_last()) == 0);
        assert(d.last() == (BYTE_ZERO + n) as u8);
    } else {
        lemma_decimal_digits(n / 10);
        assert(d.drop_last() =~= decimal_digits(n / 10));
        assert(d.last() == (BYTE_ZERO + n % 10) as u8);
        assert((n / 10) * 10 + n % 10 == n);
        assert(all_ascii_digits(d)) by {
            assert forall|i: int| 0 <= i < d.len() implies is_ascii_digit(#[trigger] d[i]) by {
                if i < d.len() - 1 {
                    assert(d[i] == decimal_digits(n / 10)[i]);
                }
            }
        }
    }
}

/// Law: a `u16` written in decimal parses back to itself.
pub proof fn lemma_u16_decimal_round_trip(n: u16)
    ensures
        spec_parse_u16(decimal_digits(n as nat)) == Some(n),
{
    lemma_decimal_digits(n as nat);
    let d = decimal_digits(n as nat);
    assert(is_ascii_digit(d[0]));
    assert(unsigned_digits(d) == d);
}

proof fn lemma_ascii_is_utf8(bytes: Seq<u8>)
    requires
        forall|i: int| 0 <= i < bytes.len() ==> #[trigger] bytes[i] < 0x80,
    ensures
        valid_utf8(bytes),
{
    assert(bytes.subrange(0, 0) =~= Seq::<u8>::empty());
    assert(partial_valid_utf8(bytes, 0));
    partial_valid_utf8_extend_ascii_block(bytes, 0, bytes.len() as int);
    assert(bytes.subrange(0, bytes.len() as int) =~= bytes);
}

/// Law: the resize echo of positive dimensions is a well-formed type `1`
/// frame whose text parses back to the same dimensions.
pub proof fn lemma_resize_payload_round_trip(d: Dimensions)
    requires
        d.cols > 0,
        d.rows > 0,
    ensures
        spec_parse_dimensions(dimensions_text(d)) == Ok::<Dimensions, DimensionsError>(d),
        valid_utf8(dimensions_text(d)),
        spec_frame_error(seq![WS_TYPE_RESIZE] + dimensions_text(d)) is None,
        forall|f: WsFrame| #[trigger]
            frame_describes(f, seq![WS_TYPE_RESIZE] + dimensions_text(d)) ==> (f matches WsFrame::Resize {
                dimensions,
                ..
            } && dimensions == d),
{
    let c = decimal_digits(d.cols as nat);
    let r = decimal_digits(d.rows as nat);
    let text = dimensions_text(d);
    lemma_decimal_digits(d.cols as nat);
    lemma_decimal_digits(d.rows as nat);
    lemma_u16_decimal_round_trip(d.cols);
    lemma_u16_decimal_round_trip(d.rows);
    assert(text[c.len() as int] == BYTE_COMMA);
    assert forall|j: int| 0 <= j < c.len() implies text[j] != BYTE_COMMA by {
        assert(text[j] == c[j]);
        assert(is_ascii_digit(c[j]));
    }
    text.index_of_first_ensures(BYTE_COMMA);
    assert(text.index_of_first(BYTE_COMMA) == Some(c.len() as int));
    assert(field_before(text, BYTE_COMMA) =~= c);
    let rest = text.skip(c.len() as int + 1);
    assert(rest =~= r);
    assert(!r.contains(BYTE_COMMA)) by {
        if r.contains(BYTE_COMMA) {
            let j = choose|j: int| 0 <= j < r.len() && r[j] == BYTE_COMMA;
            assert(is_ascii_digit(r[j]));
        }
    }
    r.index_of_first_ensures(BYTE_COMMA);
    assert(field_before(r, BYTE_COMMA) =~= r);
    assert forall|i: int| 0 <= i < text.len() implies #[trigger] text[i] < 0x80 by {
        if i < c.len() {
            assert(text[i] == c[i]);
            assert(is_ascii_digit(c[i]));
        } else if i > c.len() {
            assert(text[i] == r[i - c.len() - 1]);
            assert(is_ascii_digit(r[i - c.len() - 1]));
        }
    }
    lemma_ascii_is_utf8(text);
    let p = seq![WS_TYPE_RESIZE] + text;
    assert(p.skip(1) =~= text);
}

/// Law: a body split by [`split_dot_pair`] is its left field, a `.` and its
/// right field; and two non-empty fields without a `.` joined by one `.`
/// split back into the same two fields.
pub proof fn lemma_dot_pair_round_trip(s: Seq<u8>, left: Seq<u8>, right: Seq<u8>)
    ensures
        spec_split_dot_pair(s) == Ok::<(Seq<u8>, Seq<u8>), PairError>((left, right)) ==> s =~= left
            + seq![BYTE_DOT] + right,
        left.len() > 0 && right.len() > 0 && !left.contains(BYTE_DOT) && !right.contains(BYTE_DOT)
            ==> spec_split_dot_pair(left + seq![BYTE_DOT] + right) == Ok::<
            (Seq<u8>, Seq<u8>),
            PairError,
        >((left, right)),
{
    s.index_of_first_ensures(BYTE_DOT);
    if spec_split_dot_pair(s) == Ok::<(Seq<u8>, Seq<u8>), PairError>((left, right)) {
        let i = s.index_of_first(BYTE_DOT)->Some_0;
        assert(s =~= s.take(i) + seq![BYTE_DOT] + s.skip(i + 1));
    }
    if left.len() > 0 && right.len() > 0 && !left.contains(BYTE_DOT) && !right.contains(BYTE_DOT) {
        let joined = left + seq![BYTE_DOT] + right;
        joined.index_of_first_ensures(BYTE_DOT);
        assert(joined[left.len() as int] == BYTE_DOT);
        assert forall|j: int| 0 <= j < left.len() implies joined[j] != BYTE_DOT by {
            assert(joined[j] == left[j]);
        }
        assert(joined.index_of_first(BYTE_DOT) == Some(left.len() as int));
        assert(joined.take(left.len() as int) =~= left);
        assert(joined.skip(left.len() as int + 1) =~= right);
    }
}

} // verus!
