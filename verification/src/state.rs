//! In-memory application state.
//!
//! The HTTP/WebSocket handshake relies on three one-shot stores:
//! - nonce store
//!   - populated by `POST /api/nonce`
//!   - entries expire after `NONCE_TTL_MS`
//! - checkpoint store
//!   - populated by `POST /api/ticket`
//!   - consumed by `POST /api/salt`
//! - crypt store
//!   - populated by `POST /api/salt`
//!   - consumed by `GET /sockets/{id}`
//!
//! All state is process-local and lives only in memory. Time is counted in
//! nanoseconds since the state was created, the resolution of
//! `std::time::Instant`, so a nonce lives exactly `NONCE_TTL_MS`.

use vstd::prelude::*;
use vstd::hash_map::StringHashMap;

use crate::contract::NONCE_TTL_MS;
use crate::crypto::{
    aes128gcm_decrypt, aes128gcm_encrypt, spec_aes128gcm_decrypt, spec_aes128gcm_encrypt,
    CryptoError, AES_GCM_P_MAX, AES_GCM_TAG_LEN,
};

verus! {

/// A one-shot handshake checkpoint created by `/api/ticket`: the server's
/// ephemeral P-256 secret scalar and its SPKI public key in Base64.
#[derive(Debug, PartialEq, Eq)]
pub struct Checkpoint {
    pub server_ephemeral_private_key: [u8; 32],
    pub server_ephemeral_public_key_base64: String,
}

impl Clone for Checkpoint {
    fn clone(&self) -> (r: Self)
        ensures
            r == *self,
    {
        Checkpoint {
            server_ephemeral_private_key: self.server_ephemeral_private_key,
            server_ephemeral_public_key_base64: self.server_ephemeral_public_key_base64.clone(),
        }
    }
}

/// Directional AES-128-GCM session material for a single established session.
#[derive(Debug, PartialEq, Eq)]
pub struct SessionCrypto {
    pub salt_base64: String,
    pub decrypt_key_bytes: [u8; 16],
    pub encrypt_key_bytes: [u8; 16],
}

impl Clone for SessionCrypto {
    fn clone(&self) -> (r: Self)
        ensures
            r == *self,
    {
        SessionCrypto {
            salt_base64: self.salt_base64.clone(),
            decrypt_key_bytes: self.decrypt_key_bytes,
            encrypt_key_bytes: self.encrypt_key_bytes,
        }
    }
}

impl SessionCrypto {
    /// Decrypt a browser -> server WebSocket type `0` payload with the
    /// `client -> server` key.
    pub fn decrypt(&self, iv: &[u8; 12], ciphertext_and_tag: &[u8]) -> (r: Result<Vec<u8>, CryptoError>)
        ensures
            match r {
                Ok(plaintext) => spec_aes128gcm_decrypt(self.decrypt_key_bytes@, iv@, ciphertext_and_tag@)
                    == Some(plaintext@),
                Err(e) => spec_aes128gcm_decrypt(self.decrypt_key_bytes@, iv@, ciphertext_and_tag@) is None
                    && e == CryptoError::Decrypt,
            },
    {
        match aes128gcm_decrypt(&self.decrypt_key_bytes, iv, ciphertext_and_tag) {
            Some(plaintext) => Ok(plaintext),
            None => Err(CryptoError::Decrypt),
        }
    }

    /// Encrypt a server -> browser WebSocket type `0` payload with the
    /// `server -> client` key. Decrypting the result with the same key and
    /// IV gives the plaintext back.
    pub fn encrypt(&self, iv: &[u8; 12], plaintext: &[u8]) -> (r: Result<Vec<u8>, CryptoError>)
        ensures
            r is Ok <==> plaintext@.len() <= AES_GCM_P_MAX,
            match r {
                Ok(c) => {
                    &&& c@ == spec_aes128gcm_encrypt(self.encrypt_key_bytes@, iv@, plaintext@)
                    &&& c@.len() == plaintext@.len() + AES_GCM_TAG_LEN
                    &&& spec_aes128gcm_decrypt(self.encrypt_key_bytes@, iv@, c@) == Some(plaintext@)
                },
                Err(e) => e == CryptoError::Encrypt,
            },
    {
        match aes128gcm_encrypt(&self.encrypt_key_bytes, iv, plaintext) {
            Some(c) => Ok(c),
            None => Err(CryptoError::Encrypt),
        }
    }
}


/// How long a nonce lives, in nanoseconds.
pub const NONCE_TTL_NS: u64 = NONCE_TTL_MS * 1_000_000;

/// Nanoseconds elapsed between `issued_at` and `now`; zero when `now` is
/// earlier.
pub open spec fn elapsed_ns(issued_at: u64, now: u64) -> nat {
    if now >= issued_at {
        (now - issued_at) as nat
    } else {
        0
    }
}

/// A nonce issued at `issued_at` is still valid at `now`.
pub open spec fn nonce_is_live(issued_at: u64, now: u64) -> bool {
    elapsed_ns(issued_at, now) < NONCE_TTL_NS
}

/// The entries of `m` that are still valid at `now`.
pub open spec fn live_nonces(m: Map<Seq<char>, u64>, now: u64) -> Map<Seq<char>, u64> {
    Map::new(|k: Seq<char>| m.contains_key(k) && nonce_is_live(m[k], now), |k: Seq<char>| m[k])
}

/// An issued nonce and the time it was issued.
#[derive(Debug)]
struct NonceEntry {
    nonce: String,
    issued_at_ns: u64,
}

/// The map that a sequence of entries with distinct nonces describes.
spec fn entries_map(s: Seq<NonceEntry>) -> Map<Seq<char>, u64>
    decreases s.len(),
{
    if s.len() == 0 {
        Map::empty()
    } else {
        entries_map(s.drop_last()).insert(s.last().nonce@, s.last().issued_at_ns)
    }
}

spec fn distinct_nonces(s: Seq<NonceEntry>) -> bool {
    forall|i: int, j: int| 0 <= i < s.len() && 0 <= j < s.len() && i != j ==> s[i].nonce@ != s[j].nonce@
}

proof fn lemma_entries_map(s: Seq<NonceEntry>)
    requires
        distinct_nonces(s),
    ensures
        forall|k: Seq<char>| #[trigger] entries_map(s).contains_key(k) <==> exists|i: int| 0 <= i < s.len() && s[i].nonce@ == k,
        forall|i: int| 0 <= i < s.len() ==> entries_map(s)[#[trigger] s[i].nonce@] == s[i].issued_at_ns,
    decreases s.len(),
{
    if s.len() > 0 {
        let p = s.drop_last();
        assert(distinct_nonces(p));
        lemma_entries_map(p);
        assert forall|k: Seq<char>| #[trigger] entries_map(s).contains_key(k) <==> exists|i: int| 0 <= i < s.len() && s[i].nonce@ == k by {
            if entries_map(p).contains_key(k) {
                let i = choose|i: int| 0 <= i < p.len() && p[i].nonce@ == k;
                assert(s[i] == p[i]);
            }
            if exists|i: int| 0 <= i < s.len() && s[i].nonce@ == k {
                let i = choose|i: int| 0 <= i < s.len() && s[i].nonce@ == k;
                if i < s.len() - 1 {
                    assert(p[i] == s[i]);
                }
            }
        }
        assert forall|i: int| 0 <= i < s.len() implies entries_map(s)[#[trigger] s[i].nonce@] == s[i].issued_at_ns by {
            if i < s.len() - 1 {
                assert(p[i] == s[i]);
                assert(s[i].nonce@ != s.last().nonce@);
            }
        }
    }
}

/// Which entries a pass over the store keeps: with `now`, only those still
/// valid then; with `except`, not that nonce.
spec fn keeps(k: Seq<char>, issued_at: u64, now: Option<u64>, except: Option<Seq<char>>) -> bool {
    &&& (now matches Some(t) ==> nonce_is_live(issued_at, t))
    &&& except != Some(k)
}

spec fn kept(m: Map<Seq<char>, u64>, now: Option<u64>, except: Option<Seq<char>>) -> Map<Seq<char>, u64> {
    Map::new(|k: Seq<char>| m.contains_key(k) && keeps(k, m[k], now, except), |k: Seq<char>| m[k])
}

/// The nonce store: issued nonces and their issue times, no nonce twice.
#[derive(Debug)]
pub struct NonceStore {
    entries: Vec<NonceEntry>,
}

impl View for NonceStore {
    type V = Map<Seq<char>, u64>;

    closed spec fn view(&self) -> Map<Seq<char>, u64> {
        entries_map(self.entries@)
    }
}

impl NonceStore {
    /// The store holds no nonce twice.
    pub closed spec fn wf(&self) -> bool {
        distinct_nonces(self.entries@)
    }

    /// An empty store.
    pub fn new() -> (s: Self)
        ensures
            s.wf(),
            s@ == Map::<Seq<char>, u64>::empty(),
    {
        NonceStore { entries: Vec::new() }
    }

    fn retain_where(&mut self, now: Option<u64>, except: Option<&str>)
        requires
            old(self).wf(),
        ensures
            final(self).wf(),
            final(self)@ == kept(
                old(self)@,
                now,
                match except {
                    Some(e) => Some(e@),
                    None => None,
                },
            ),
    {
        let ghost ex: Option<Seq<char>> = match except {
            Some(e) => Some(e@),
            None => None,
        };
        let ghost old_entries = self.entries@;
        proof {
            lemma_entries_map(old_entries);
        }
        let except_owned: Option<String> = match except {
            Some(e) => Some(e.to_owned()),
            None => None,
        };
        let n = self.entries.len();
        let mut kept_entries: Vec<NonceEntry> = Vec::new();
        let mut i: usize = 0;
        while i < n
            invariant
                n == old_entries.len(),
                self.entries@ == old_entries,
                i <= n,
                distinct_nonces(old_entries),
                distinct_nonces(kept_entries@),
                match except_owned {
                    Some(e) => ex == Some(e@),
                    None => ex is None,
                },
                entries_map(kept_entries@) =~= kept(entries_map(old_entries.take(i as int)), now, ex),
            decreases n - i,
        {
            let entry = &self.entries[i];
            let ghost prefix = old_entries.take(i as int);
            let ghost k = entry.nonce@;
            proof {
                assert(old_entries.take(i + 1).drop_last() =~= prefix);
                assert(distinct_nonces(prefix));
                lemma_entries_map(prefix);
                assert(!entries_map(prefix).contains_key(k)) by {
                    if entries_map(prefix).contains_key(k) {
                        let j = choose|j: int| 0 <= j < prefix.len() && prefix[j].nonce@ == k;
                        assert(old_entries[j].nonce@ == old_entries[i as int].nonce@);
                    }
                }
                lemma_entries_map(kept_entries@);
            }
            let live = match now {
                Some(t) => if t >= entry.issued_at_ns {
                    t - entry.issued_at_ns < NONCE_TTL_NS
                } else {
                    true
                },
                None => true,
            };
            let excluded = match &except_owned {
                Some(e) => entry.nonce == *e,
                None => false,
            };
            if live && !excluded {
                let copy = NonceEntry { nonce: entry.nonce.clone(), issued_at_ns: entry.issued_at_ns };
                proof {
                    assert forall|j: int| 0 <= j < kept_entries@.len() implies kept_entries@[j].nonce@ != k by {
                        assert(entries_map(kept_entries@).contains_key(kept_entries@[j].nonce@));
                    }
                }
                let ghost before_push = kept_entries@;
                kept_entries.push(copy);
                proof {
                    assert(kept_entries@.drop_last() =~= before_push);
                }
            }
            i = i + 1;
        }
        assert(old_entries.take(n as int) =~= old_entries);
        self.entries = kept_entries;
    }

    /// Remember `nonce` as issued at `now`.
    pub fn insert_at(&mut self, nonce: String, now: u64)
        requires
            old(self).wf(),
        ensures
            final(self).wf(),
            final(self)@ == old(self)@.insert(nonce@, now),
    {
        self.retain_where(None, Some(nonce.as_str()));
        let ghost before = self.entries@;
        proof {
            lemma_entries_map(before);
        }
        self.entries.push(NonceEntry { nonce, issued_at_ns: now });
        proof {
            assert(self.entries@.drop_last() =~= before);
            assert forall|i: int, j: int| 0 <= i < self.entries@.len() && 0 <= j < self.entries@.len() && i != j
                implies self.entries@[i].nonce@ != self.entries@[j].nonce@ by {
                if i < before.len() && j < before.len() {
                } else if i < before.len() {
                    assert(entries_map(before).contains_key(before[i].nonce@));
                } else {
                    assert(entries_map(before).contains_key(before[j].nonce@));
                }
            }
        }
        assert(self@ =~= old(self)@.insert(nonce@, now));
    }

    /// Forget the nonces that have expired at `now`.
    pub fn prune_at(&mut self, now: u64)
        requires
            old(self).wf(),
        ensures
            final(self).wf(),
            final(self)@ == live_nonces(old(self)@, now),
    {
        self.retain_where(Some(now), None);
        assert(self@ =~= live_nonces(old(self)@, now));
    }

    /// Whether `nonce` is in the store.
    pub fn contains(&self, nonce: &str) -> (r: bool)
        requires
            self.wf(),
        ensures
            r == self@.contains_key(nonce@),
    {
        proof {
            lemma_entries_map(self.entries@);
        }
        let wanted = nonce.to_owned();
        let n = self.entries.len();
        let mut i: usize = 0;
        while i < n
            invariant
                n == self.entries@.len(),
                self.wf(),
                i <= n,
                wanted@ == nonce@,
                forall|j: int| 0 <= j < i ==> self.entries@[j].nonce@ != nonce@,
            decreases n - i,
        {
            if self.entries[i].nonce == wanted {
                proof {
                    lemma_entries_map(self.entries@);
                    assert(self.entries@[i as int].nonce@ == nonce@);
                }
                return true;
            }
            i = i + 1;
        }
        false
    }

    /// Forget the expired nonces, then report whether `nonce` is still valid.
    pub fn contains_at(&mut self, nonce: &str, now: u64) -> (r: bool)
        requires
            old(self).wf(),
        ensures
            final(self).wf(),
            final(self)@ == live_nonces(old(self)@, now),
            r == live_nonces(old(self)@, now).contains_key(nonce@),
    {
        self.prune_at(now);
        self.contains(nonce)
    }

    /// Forget the expired nonces, then remove `nonce`; reports whether it
    /// was still valid.
    pub fn consume_at(&mut self, nonce: &str, now: u64) -> (r: bool)
        requires
            old(self).wf(),
        ensures
            final(self).wf(),
            final(self)@ == live_nonces(old(self)@, now).remove(nonce@),
            r == live_nonces(old(self)@, now).contains_key(nonce@),
    {
        self.prune_at(now);
        let found = self.contains(nonce);
        let ghost pruned = self@;
        self.retain_where(None, Some(nonce));
        assert(self@ =~= pruned.remove(nonce@));
        found
    }
}


/// Law: a consumed nonce is gone: consuming it again, at any later time,
/// reports it missing.
pub proof fn lemma_nonce_consumed_once(m: Map<Seq<char>, u64>, nonce: Seq<char>, first: u64, second: u64)
    ensures
        !live_nonces(live_nonces(m, first).remove(nonce), second).contains_key(nonce),
{
}

/// Law: a nonce issued at `issued` is valid at any `now` less than the TTL
/// later, and invalid from the TTL on.
pub proof fn lemma_nonce_ttl(m: Map<Seq<char>, u64>, nonce: Seq<char>, issued: u64, now: u64)
    ensures
        issued <= now < issued + NONCE_TTL_NS ==> live_nonces(m.insert(nonce, issued), now).contains_key(nonce),
        now >= issued + NONCE_TTL_NS ==> !live_nonces(m.insert(nonce, issued), now).contains_key(nonce),
{
}

/// Law: forgetting expired nonces early loses nothing: with time moving
/// forward, pruning at `earlier` and then at `later` is pruning at `later`.
pub proof fn lemma_nonce_prune_monotone(m: Map<Seq<char>, u64>, earlier: u64, later: u64)
    requires
        earlier <= later,
    ensures
        live_nonces(live_nonces(m, earlier), later) == live_nonces(m, later),
{
    assert(live_nonces(live_nonces(m, earlier), later) =~= live_nonces(m, later));
}

#[verifier::external_type_specification]
#[verifier::external_body]
pub struct ExInstant(std::time::Instant);

/// `std::time::Instant::now`. Nothing is claimed of the value.
#[verifier::external_body]
fn clock_now() -> (t: std::time::Instant) {
    std::time::Instant::now()
}

/// `std::time::Instant::elapsed`. Nothing is claimed of the value.
#[verifier::external_body]
fn instant_elapsed(start: &std::time::Instant) -> (d: std::time::Duration) {
    start.elapsed()
}

/// `std::time::Duration::as_nanos`. Nothing is claimed of the value.
#[verifier::external_body]
fn duration_as_nanos(d: &std::time::Duration) -> (ns: u128) {
    d.as_nanos()
}

/// What the three stores hold.
pub struct StateView {
    /// Issued nonces and their issue times.
    pub nonces: Map<Seq<char>, u64>,
    /// Checkpoints by ticket id.
    pub checkpoints: Map<Seq<char>, Checkpoint>,
    /// Session crypto by ticket id.
    pub crypts: Map<Seq<char>, SessionCrypto>,
}

/// The process-local application state.
pub struct AppState {
    nonces: NonceStore,
    checkpoints: StringHashMap<Checkpoint>,
    crypts: StringHashMap<SessionCrypto>,
    started: std::time::Instant,
    latest_ns: u64,
    clock_reads: Ghost<nat>,
}

impl View for AppState {
    type V = StateView;

    closed spec fn view(&self) -> StateView {
        StateView { nonces: self.nonces@, checkpoints: self.checkpoints@, crypts: self.crypts@ }
    }
}

impl AppState {
    /// The stores are well formed.
    pub closed spec fn wf(&self) -> bool {
        self.nonces.wf()
    }

    /// The latest reading of the state's clock, in nanoseconds since the
    /// state was created.
    pub closed spec fn clock(&self) -> u64 {
        self.latest_ns
    }

    /// How many times the state's clock has been read.
    pub closed spec fn clock_reads(&self) -> nat {
        self.clock_reads@
    }

    /// Empty stores; the clock starts now.
    pub fn new() -> (s: Self)
        ensures
            s.wf(),
            s@.nonces == Map::<Seq<char>, u64>::empty(),
            s@.checkpoints == Map::<Seq<char>, Checkpoint>::empty(),
            s@.crypts == Map::<Seq<char>, SessionCrypto>::empty(),
            s.clock() == 0,
            s.clock_reads() == 0,
    {
        AppState {
            nonces: NonceStore::new(),
            checkpoints: StringHashMap::new(),
            crypts: StringHashMap::new(),
            started: clock_now(),
            latest_ns: 0,
            clock_reads: Ghost(0),
        }
    }

    /// Read the clock: nanoseconds since the state was created, saturating
    /// at `u64::MAX` (after more than five centuries). A reading is never
    /// below the one before it, and it becomes the state's latest reading.
    pub fn now_ns(&mut self) -> (t: u64)
        ensures
            final(self).wf() == old(self).wf(),
            t >= old(self).clock(),
            final(self).clock() == t,
            final(self).clock_reads() == old(self).clock_reads() + 1,
            final(self)@ == old(self)@,
    {
        let ns = duration_as_nanos(&instant_elapsed(&self.started));
        let reading: u64 = if ns > 0xffff_ffff_ffff_ffffu128 {
            0xffff_ffff_ffff_ffffu64
        } else {
            ns as u64
        };
        let t: u64 = if reading > self.latest_ns {
            reading
        } else {
            self.latest_ns
        };
        self.latest_ns = t;
        self.clock_reads = Ghost(self.clock_reads@ + 1);
        t
    }

    /// Remember `nonce` as issued at `now`, in nanoseconds since the state
    /// was created.
    pub fn insert_nonce_at(&mut self, nonce: String, now: u64)
        requires
            old(self).wf(),
        ensures
            final(self).wf(),
            final(self).clock() == old(self).clock(),
            final(self).clock_reads() == old(self).clock_reads(),
            final(self)@.nonces == old(self)@.nonces.insert(nonce@, now),
            final(self)@.checkpoints == old(self)@.checkpoints,
            final(self)@.crypts == old(self)@.crypts,
    {
        self.nonces.insert_at(nonce, now);
    }

    /// Remember `nonce` as issued now.
    pub fn insert_nonce(&mut self, nonce: String)
        requires
            old(self).wf(),
        ensures
            final(self).wf(),
            final(self).clock() >= old(self).clock(),
            final(self).clock_reads() == old(self).clock_reads() + 1,
            final(self)@.nonces == old(self)@.nonces.insert(nonce@, final(self).clock()),
            final(self)@.checkpoints == old(self)@.checkpoints,
            final(self)@.crypts == old(self)@.crypts,
    {
        let now = self.now_ns();
        self.insert_nonce_at(nonce, now);
    }

    /// Forget the nonces expired at `now`; report whether `nonce` is valid.
    pub fn contains_nonce_at(&mut self, nonce: &str, now: u64) -> (r: bool)
        requires
            old(self).wf(),
        ensures
            final(self).wf(),
            final(self).clock() == old(self).clock(),
            final(self).clock_reads() == old(self).clock_reads(),
            final(self)@.nonces == live_nonces(old(self)@.nonces, now),
            r == live_nonces(old(self)@.nonces, now).contains_key(nonce@),
            final(self)@.checkpoints == old(self)@.checkpoints,
            final(self)@.crypts == old(self)@.crypts,
    {
        self.nonces.contains_at(nonce, now)
    }

    /// Forget the expired nonces; report whether `nonce` is valid now.
    pub fn contains_nonce(&mut self, nonce: &str) -> (r: bool)
        requires
            old(self).wf(),
        ensures
            final(self).wf(),
            final(self).clock() >= old(self).clock(),
            final(self).clock_reads() == old(self).clock_reads() + 1,
            final(self)@.nonces == live_nonces(old(self)@.nonces, final(self).clock()),
            r == live_nonces(old(self)@.nonces, final(self).clock()).contains_key(nonce@),
            final(self)@.checkpoints == old(self)@.checkpoints,
            final(self)@.crypts == old(self)@.crypts,
    {
        let now = self.now_ns();
        self.contains_nonce_at(nonce, now)
    }

    /// Forget the nonces expired at `now`, then remove `nonce`; report
    /// whether it was valid.
    pub fn consume_nonce_at(&mut self, nonce: &str, now: u64) -> (r: bool)
        requires
            old(self).wf(),
        ensures
            final(self).wf(),
            final(self).clock() == old(self).clock(),
            final(self).clock_reads() == old(self).clock_reads(),
            final(self)@.nonces == live_nonces(old(self)@.nonces, now).remove(nonce@),
            r == live_nonces(old(self)@.nonces, now).contains_key(nonce@),
            final(self)@.checkpoints == old(self)@.checkpoints,
            final(self)@.crypts == old(self)@.crypts,
    {
        self.nonces.consume_at(nonce, now)
    }

    /// Forget the expired nonces, then remove `nonce`; report whether it
    /// was valid now.
    pub fn consume_nonce(&mut self, nonce: &str) -> (r: bool)
        requires
            old(self).wf(),
        ensures
            final(self).wf(),
            final(self).clock() >= old(self).clock(),
            final(self).clock_reads() == old(self).clock_reads() + 1,
            final(self)@.nonces == live_nonces(old(self)@.nonces, final(self).clock()).remove(nonce@),
            r == live_nonces(old(self)@.nonces, final(self).clock()).contains_key(nonce@),
            final(self)@.checkpoints == old(self)@.checkpoints,
            final(self)@.crypts == old(self)@.crypts,
    {
        let now = self.now_ns();
        self.consume_nonce_at(nonce, now)
    }

    /// Store `checkpoint` under `id`.
    pub fn insert_checkpoint(&mut self, id: String, checkpoint: Checkpoint)
        requires
            old(self).wf(),
        ensures
            final(self).wf(),
            final(self).clock() == old(self).clock(),
            final(self).clock_reads() == old(self).clock_reads(),
            final(self)@.checkpoints == old(self)@.checkpoints.insert(id@, checkpoint),
            final(self)@.nonces == old(self)@.nonces,
            final(self)@.crypts == old(self)@.crypts,
    {
        self.checkpoints.insert(id, checkpoint);
    }

    /// A copy of the checkpoint stored under `id`.
    pub fn checkpoint(&self, id: &str) -> (r: Option<Checkpoint>)
        ensures
            r == (if self@.checkpoints.contains_key(id@) {
                Some(self@.checkpoints[id@])
            } else {
                None
            }),
    {
        match self.checkpoints.get(id) {
            Some(c) => Some(c.clone()),
            None => None,
        }
    }

    /// Remove and return the checkpoint stored under `id`.
    pub fn consume_checkpoint(&mut self, id: &str) -> (r: Option<Checkpoint>)
        requires
            old(self).wf(),
        ensures
            final(self).wf(),
            final(self).clock() == old(self).clock(),
            final(self).clock_reads() == old(self).clock_reads(),
            r == (if old(self)@.checkpoints.contains_key(id@) {
                Some(old(self)@.checkpoints[id@])
            } else {
                None
            }),
            final(self)@.checkpoints == old(self)@.checkpoints.remove(id@),
            final(self)@.nonces == old(self)@.nonces,
            final(self)@.crypts == old(self)@.crypts,
    {
        let r = self.checkpoint(id);
        self.checkpoints.remove(id);
        r
    }

    /// Store `crypt` under `id`.
    pub fn insert_crypt(&mut self, id: String, crypt: SessionCrypto)
        requires
            old(self).wf(),
        ensures
            final(self).wf(),
            final(self).clock() == old(self).clock(),
            final(self).clock_reads() == old(self).clock_reads(),
            final(self)@.crypts == old(self)@.crypts.insert(id@, crypt),
            final(self)@.nonces == old(self)@.nonces,
            final(self)@.checkpoints == old(self)@.checkpoints,
    {
        self.crypts.insert(id, crypt);
    }

    /// A copy of the session crypto stored under `id`.
    pub fn crypt(&self, id: &str) -> (r: Option<SessionCrypto>)
        ensures
            r == (if self@.crypts.contains_key(id@) {
                Some(self@.crypts[id@])
            } else {
                None
            }),
    {
        match self.crypts.get(id) {
            Some(c) => Some(c.clone()),
            None => None,
        }
    }

    /// Remove and return the session crypto stored under `id`.
    pub fn consume_crypt(&mut self, id: &str) -> (r: Option<SessionCrypto>)
        requires
            old(self).wf(),
        ensures
            final(self).wf(),
            final(self).clock() == old(self).clock(),
            final(self).clock_reads() == old(self).clock_reads(),
            r == (if old(self)@.crypts.contains_key(id@) {
                Some(old(self)@.crypts[id@])
            } else {
                None
            }),
            final(self)@.crypts == old(self)@.crypts.remove(id@),
            final(self)@.nonces == old(self)@.nonces,
            final(self)@.checkpoints == old(self)@.checkpoints,
    {
        let r = self.crypt(id);
        self.crypts.remove(id);
        r
    }
}

/// Law: the checkpoint and crypt stores are one-shot: what was stored under
/// an id is handed out by the first consumption and by no later one.
pub proof fn lemma_one_shot<V>(m: Map<Seq<char>, V>, id: Seq<char>, value: V)
    ensures
        m.insert(id, value).contains_key(id) && m.insert(id, value)[id] == value,
        !m.insert(id, value).remove(id).contains_key(id),
{
}

} // verus!
