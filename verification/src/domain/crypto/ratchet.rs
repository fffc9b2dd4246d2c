//! The double ratchet: per-message keys from symmetric chains, renewed by
//! Diffie-Hellman steps whenever a new ratchet key arrives.
use vstd::prelude::*;

use chacha20poly1305::aead::{Aead, KeyInit};
use chacha20poly1305::{ChaCha20Poly1305, Key, Nonce};
use rand::rngs::OsRng;
use rand::RngCore;

use super::x3dh::{x25519_diffie_hellman, x25519_public, x25519_public_key, x25519_random_secret, x25519_shared};
use super::{
    array32_at, hkdf, hkdf_sha256, kdf_ck, kdf_ck_spec, kdf_rk, kdf_rk_spec, zero_key, zero_salt,
    ChainKey, SharedSecret, KEY_LENGTH, MAC_LENGTH, sha256,
};

verus! {

// ---------------------------------------------------------------------------
// ChaCha20-Poly1305 and randomness.
// ---------------------------------------------------------------------------

/// What `ChaCha20Poly1305::encrypt` returns for a key, a nonce and a plaintext
/// (no associated data): the ciphertext with its tag, or `None` for an error.
pub uninterp spec fn chacha20poly1305_seal(key: Seq<u8>, nonce: Seq<u8>, plaintext: Seq<u8>) -> Option<Seq<u8>>;

/// What `ChaCha20Poly1305::decrypt` returns for a key, a nonce and a ciphertext
/// (no associated data): the plaintext, or `None` where authentication fails.
pub uninterp spec fn chacha20poly1305_open(key: Seq<u8>, nonce: Seq<u8>, ciphertext: Seq<u8>) -> Option<Seq<u8>>;

/// The largest plaintext length plus one that the cipher accepts: the crate refuses
/// buffers of `u32::MAX` 64-byte blocks or more.
pub const CHACHA_PLAINTEXT_LIMIT: u64 = 274_877_906_880;

/// The bytes of an optional buffer.
pub open spec fn opt_bytes(v: Option<Vec<u8>>) -> Option<Seq<u8>> {
    match v {
        Some(b) => Some(b@),
        None => None,
    }
}

/// Encrypts with `chacha20poly1305::ChaCha20Poly1305` (no associated data); `None`
/// where the crate reports an error. The outcome is named by `chacha20poly1305_seal`.
/// The contract adds three facts of the crate's source: a plaintext shorter than
/// `CHACHA_PLAINTEXT_LIMIT` is accepted, the ciphertext is the plaintext's length plus
/// the 16-byte Poly1305 tag, and decrypting it under the same key and nonce gives the
/// plaintext back.
#[verifier::external_body]
fn chacha_seal(key: &[u8], nonce: &[u8; 12], plaintext: &[u8]) -> (r: Option<Vec<u8>>)
    requires
        key@.len() == 32,
    ensures
        opt_bytes(r) == chacha20poly1305_seal(key@, nonce@, plaintext@),
        plaintext@.len() < CHACHA_PLAINTEXT_LIMIT ==> r is Some,
        r matches Some(c) ==> c@.len() == plaintext@.len() + MAC_LENGTH,
        r matches Some(c) ==> chacha20poly1305_open(key@, nonce@, c@) == Some(plaintext@),
{
    ChaCha20Poly1305::new(Key::from_slice(key)).encrypt(Nonce::from_slice(nonce), plaintext).ok()
}

/// Decrypts with `chacha20poly1305::ChaCha20Poly1305` (no associated data); `None`
/// where the crate reports an error. The outcome is named by `chacha20poly1305_open`.
/// The crate panics on a nonce that is not 12 bytes long, which `requires` leaves out.
#[verifier::external_body]
fn chacha_open(key: &[u8], nonce: &[u8], ciphertext: &[u8]) -> (r: Option<Vec<u8>>)
    requires
        key@.len() == 32,
        nonce@.len() == 12,
    ensures
        opt_bytes(r) == chacha20poly1305_open(key@, nonce@, ciphertext@),
{
    ChaCha20Poly1305::new(Key::from_slice(key)).decrypt(Nonce::from_slice(nonce), ciphertext).ok()
}

/// Fills a 12-byte nonce from `rand::rngs::OsRng`. Nothing is claimed of the bytes.
#[verifier::external_body]
fn random_nonce() -> (r: [u8; 12]) {
    let mut nonce_bytes = [0u8; 12];
    OsRng.fill_bytes(&mut nonce_bytes);
    nonce_bytes
}

// ---------------------------------------------------------------------------
// The state and its model.
// ---------------------------------------------------------------------------

/// A key for one message.
#[derive(Debug, Clone)]
pub struct MessageKey([u8; KEY_LENGTH]);

impl View for MessageKey {
    type V = Seq<u8>;

    closed spec fn view(&self) -> Seq<u8> {
        self.0@
    }
}

impl MessageKey {
    pub fn new(data: [u8; KEY_LENGTH]) -> (r: Self)
        ensures
            r@ == data@,
    {
        MessageKey(data)
    }

    pub fn as_bytes(&self) -> (r: &[u8])
        ensures
            r@ == self@,
            r@.len() == KEY_LENGTH,
    {
        self.0.as_slice()
    }
}

#[derive(Debug, Clone)]
pub struct Header {
    pub dh_public_key: Vec<u8>,
    pub previous_chain_length: u32,
}

pub struct CipherMessage {
    pub header: Header,
    pub nonce: Vec<u8>,
    pub ciphertext: Vec<u8>,
}

/// A message as plain values.
pub struct MessageView {
    pub dh: Seq<u8>,
    pub previous_chain_length: u32,
    pub nonce: Seq<u8>,
    pub ciphertext: Seq<u8>,
}

impl View for CipherMessage {
    type V = MessageView;

    open spec fn view(&self) -> MessageView {
        MessageView {
            dh: self.header.dh_public_key@,
            previous_chain_length: self.header.previous_chain_length,
            nonce: self.nonce@,
            ciphertext: self.ciphertext@,
        }
    }
}

#[derive(Debug)]
struct ChainKeyState {
    chain_key: ChainKey,
    message_index: u32,
}

#[derive(Debug)]
struct SkippedMessageKey {
    dh_public_key: Vec<u8>,
    message_index: u32,
    message_key: MessageKey,
}

/// One party's ratchet. Secret keys are held as their 32 bytes.
pub struct RatchetState {
    root_key: SharedSecret,
    send_chain_key: Option<ChainKeyState>,
    recv_chain_key: Option<ChainKeyState>,
    dh_send_keypair: Option<[u8; 32]>,
    dh_recv_public_key: Option<[u8; 32]>,
    skipped_message_keys: Vec<SkippedMessageKey>,
}

/// A chain as plain values.
pub struct ChainView {
    pub key: Seq<u8>,
    pub index: u32,
}

/// A ratchet as plain values: root key, sending and receiving chains, own ratchet
/// secret, and the peer's current ratchet public key.
pub struct RatchetView {
    pub root: Seq<u8>,
    pub send: Option<ChainView>,
    pub recv: Option<ChainView>,
    pub dh_send: Option<Seq<u8>>,
    pub dh_recv: Option<Seq<u8>>,
}

spec fn chain_view(c: Option<ChainKeyState>) -> Option<ChainView> {
    match c {
        Some(s) => Some(ChainView { key: s.chain_key.0@, index: s.message_index }),
        None => None,
    }
}

spec fn key_view(k: Option<[u8; 32]>) -> Option<Seq<u8>> {
    match k {
        Some(a) => Some(a@),
        None => None,
    }
}

impl View for RatchetState {
    type V = RatchetView;

    closed spec fn view(&self) -> RatchetView {
        RatchetView {
            root: self.root_key@,
            send: chain_view(self.send_chain_key),
            recv: chain_view(self.recv_chain_key),
            dh_send: key_view(self.dh_send_keypair),
            dh_recv: key_view(self.dh_recv_public_key),
        }
    }
}

impl RatchetState {
    /// No message key is ever set aside: nothing stores skipped keys, so the store
    /// stays empty.
    #[verifier::type_invariant]
    spec fn no_skipped_keys(self) -> bool {
        self.skipped_message_keys@.len() == 0
    }
}

/// The first chain key of a root key.
pub open spec fn initial_chain_spec(root: Seq<u8>) -> Seq<u8> {
    hkdf_sha256(32, zero_salt(), root)
}

/// The state `new` creates; `dh_sk` is the initiator's fresh ratchet secret.
pub open spec fn initial_state(shared_secret: Seq<u8>, is_initiator: bool, dh_sk: Seq<u8>) -> RatchetView {
    if is_initiator {
        RatchetView {
            root: shared_secret,
            send: Some(ChainView { key: initial_chain_spec(shared_secret), index: 0 }),
            recv: None,
            dh_send: Some(dh_sk),
            dh_recv: None,
        }
    } else {
        RatchetView { root: shared_secret, send: None, recv: None, dh_send: None, dh_recv: None }
    }
}

/// A chain after one message: the next chain key, the index one higher.
pub open spec fn advance(c: ChainView) -> ChainView {
    ChainView { key: kdf_ck_spec(c.key).0, index: (c.index + 1) as u32 }
}

/// Sending, step 1: the own ratchet secret, `sk` where there was none.
pub open spec fn with_send_key(s: RatchetView, sk: Seq<u8>) -> RatchetView {
    match s.dh_send {
        Some(_) => s,
        None => RatchetView { dh_send: Some(sk), ..s },
    }
}

/// Sending, step 2: a sending chain where there was none, from a DH step with the
/// peer's key when there is one, else from the root key.
pub open spec fn send_setup(s: RatchetView, sk: Seq<u8>) -> RatchetView {
    let s1 = with_send_key(s, sk);
    if s1.send is Some {
        s1
    } else if s1.dh_recv is Some {
        let rk_ck = kdf_rk_spec(s1.root, x25519_shared(s1.dh_send->0, s1.dh_recv->0));
        RatchetView { root: rk_ck.0, send: Some(ChainView { key: rk_ck.1, index: 0 }), ..s1 }
    } else {
        RatchetView { send: Some(ChainView { key: initial_chain_spec(s1.root), index: 0 }), ..s1 }
    }
}

/// The state after `encrypt`, given the ratchet secret it uses.
pub open spec fn after_encrypt(s: RatchetView, sk: Seq<u8>) -> RatchetView {
    let s1 = send_setup(s, sk);
    RatchetView { send: Some(advance(s1.send->0)), ..s1 }
}

/// The key `encrypt` seals the message under.
pub open spec fn encrypt_message_key(s: RatchetView, sk: Seq<u8>) -> Seq<u8> {
    kdf_ck_spec(send_setup(s, sk).send->0.key).1
}

/// The header's previous chain length: the receiving chain's index, or 0.
pub open spec fn previous_chain_length(s: RatchetView) -> u32 {
    match s.recv {
        Some(c) => c.index,
        None => 0,
    }
}

/// Whether a header's key is a new ratchet key for this state.
pub open spec fn is_new_key(s: RatchetView, pk: Seq<u8>) -> bool {
    pk.len() != 0 && (s.dh_recv is None || s.dh_recv->0 != pk)
}

/// Receiving, step 1: the DH ratchet on a new key. A state that has neither chain nor
/// peer key takes its receiving chain from the root key. Otherwise the own secret
/// (`fresh` where there was none) meets the new key in a root-key step, whose chain
/// becomes the sending chain where a receiving chain exists, else the receiving one.
pub open spec fn header_step(s: RatchetView, pk: Seq<u8>, fresh: Seq<u8>) -> RatchetView {
    if !is_new_key(s, pk) {
        s
    } else if s.recv is None && s.send is None && s.dh_recv is None {
        RatchetView {
            recv: Some(ChainView { key: initial_chain_spec(s.root), index: 0 }),
            dh_recv: Some(pk),
            ..s
        }
    } else {
        let dsk = match s.dh_send {
            Some(k) => k,
            None => fresh,
        };
        let rk_ck = kdf_rk_spec(s.root, x25519_shared(dsk, pk));
        if s.recv is Some {
            RatchetView {
                root: rk_ck.0,
                send: Some(ChainView { key: rk_ck.1, index: 0 }),
                dh_send: Some(dsk),
                dh_recv: Some(pk),
                ..s
            }
        } else {
            RatchetView {
                root: rk_ck.0,
                recv: Some(ChainView { key: rk_ck.1, index: 0 }),
                dh_send: Some(dsk),
                dh_recv: Some(pk),
                ..s
            }
        }
    }
}

/// The state after `decrypt` of a message whose header carries `pk`.
pub open spec fn after_decrypt(s: RatchetView, pk: Seq<u8>, fresh: Seq<u8>) -> RatchetView {
    let h = header_step(s, pk, fresh);
    match h.recv {
        Some(c) => RatchetView { recv: Some(advance(c)), ..h },
        None => h,
    }
}

/// The key `decrypt` opens the message with, if a receiving chain exists.
pub open spec fn decrypt_message_key(s: RatchetView, pk: Seq<u8>, fresh: Seq<u8>) -> Option<Seq<u8>> {
    match header_step(s, pk, fresh).recv {
        Some(c) => Some(kdf_ck_spec(c.key).1),
        None => None,
    }
}

// ---------------------------------------------------------------------------
// Pairs of states in step.
// ---------------------------------------------------------------------------

/// `s` has sent nothing yet and `r` has received nothing: `r` will take its first
/// receiving chain from the root key they share, which is `s`'s sending chain.
pub open spec fn first_message_config(s: RatchetView, r: RatchetView) -> bool {
    &&& s.send == Some(ChainView { key: initial_chain_spec(r.root), index: 0 })
    &&& s.root == r.root
    &&& s.recv is None
    &&& s.dh_recv is None
    &&& r.recv is None
    &&& r.send is None
    &&& r.dh_recv is None
}

/// `r` already knows `s`'s ratchet key, and `r`'s receiving chain is `s`'s sending chain.
pub open spec fn steady_config(s: RatchetView, r: RatchetView) -> bool {
    &&& s.dh_send matches Some(k) && k.len() == 32 && r.dh_recv == Some(x25519_public(k))
    &&& s.send is Some
    &&& r.recv == s.send
}

/// `s` answers `r` for the first time: `s` knows `r`'s ratchet key, both share the
/// root key, and `r` has a sending chain but no receiving chain and no peer key.
pub open spec fn reply_config(s: RatchetView, r: RatchetView) -> bool {
    &&& s.send is None
    &&& r.dh_send matches Some(rk) && rk.len() == 32 && s.dh_recv == Some(x25519_public(rk))
    &&& s.root == r.root
    &&& r.recv is None
    &&& r.dh_recv is None
    &&& r.send is Some
}

/// What `s` encrypts next, `r` decrypts.
pub open spec fn delivers(s: RatchetView, r: RatchetView) -> bool {
    ||| first_message_config(s, r)
    ||| steady_config(s, r)
    ||| reply_config(s, r)
}

/// `peer` decrypts message `m` to `plaintext`, whatever secret it would draw, and
/// afterwards `sender_after` still delivers to it.
pub open spec fn receives(peer: RatchetView, m: MessageView, plaintext: Seq<u8>, sender_after: RatchetView) -> bool {
    forall|fresh: Seq<u8>|
        #![trigger after_decrypt(peer, m.dh, fresh)]
        {
            &&& decrypt_message_key(peer, m.dh, fresh) matches Some(mk)
            &&& chacha20poly1305_open(mk, m.nonce, m.ciphertext) == Some(plaintext)
            &&& delivers(sender_after, after_decrypt(peer, m.dh, fresh))
        }
}


/// A pair of ratchets made by `new` from the same shared secret, initiator first,
/// is in step: what the initiator encrypts first, the responder decrypts.
pub proof fn lemma_new_pair_delivers(shared_secret: Seq<u8>, initiator_dh_sk: Seq<u8>)
    ensures
        delivers(
            initial_state(shared_secret, true, initiator_dh_sk),
            initial_state(shared_secret, false, Seq::empty()),
        ),
{
    assert(first_message_config(
        initial_state(shared_secret, true, initiator_dh_sk),
        initial_state(shared_secret, false, Seq::empty()),
    ));
}

/// Once the responder has received the first message, it can answer: the pair is in
/// step in the other direction too. `sk` is the initiator's ratchet secret as
/// `encrypt` used it (its own, or the one it drew) and `pk`, the header's key, is its
/// 32-byte public key.
pub proof fn lemma_first_message_enables_reply(
    s: RatchetView,
    r: RatchetView,
    sk: Seq<u8>,
    pk: Seq<u8>,
    fresh: Seq<u8>,
)
    requires
        first_message_config(s, r),
        s.dh_send matches Some(k) ==> k == sk,
        sk.len() == 32,
        pk == x25519_public(sk),
        pk.len() == 32,
    ensures
        delivers(after_decrypt(r, pk, fresh), after_encrypt(s, sk)),
{
    assert(reply_config(after_decrypt(r, pk, fresh), after_encrypt(s, sk)));
}

/// A reply from `b` to `a` leaves the direction from `a` to `b` in step: `a` takes
/// the reply's chain as its receiving chain and keeps its sending chain and key.
pub proof fn lemma_reply_keeps_forward(
    a: RatchetView,
    b: RatchetView,
    b_sk: Seq<u8>,
    pk: Seq<u8>,
    fresh: Seq<u8>,
)
    requires
        steady_config(a, b),
        reply_config(b, a),
    ensures
        delivers(after_decrypt(a, pk, fresh), after_encrypt(b, b_sk)),
{
    assert(steady_config(after_decrypt(a, pk, fresh), after_encrypt(b, b_sk)));
}

// ---------------------------------------------------------------------------
// Executable ratchet.
/// The sender and the receiver after `n` more messages in one direction: the sender
/// encrypts each with its ratchet key, the receiver decrypts them in order (`fresh`
/// is the secret the receiver would draw, were it to need one).
pub open spec fn one_way(s: RatchetView, r: RatchetView, n: nat, fresh: Seq<u8>) -> (RatchetView, RatchetView)
    decreases n,
{
    if n == 0 {
        (s, r)
    } else {
        let (s1, r1) = one_way(s, r, (n - 1) as nat, fresh);
        let sk = s1.dh_send->0;
        (after_encrypt(s1, sk), after_decrypt(r1, x25519_public(sk), fresh))
    }
}

/// A pair in step for a first or a further message, the sender holding a ratchet
/// key whose public key is 32 bytes long.
pub open spec fn one_way_ready(s: RatchetView, r: RatchetView) -> bool {
    &&& first_message_config(s, r) || steady_config(s, r)
    &&& s.dh_send matches Some(k) && k.len() == 32 && x25519_public(k).len() == 32
}

/// Messages sent in one direction keep the pair in step: after any number of them,
/// the next message key the receiver derives is the one the sender seals with, and
/// the ratchet key stays the same.
pub proof fn lemma_one_way_rounds(s: RatchetView, r: RatchetView, n: nat, fresh: Seq<u8>)
    requires
        one_way_ready(s, r),
    ensures
        one_way_ready(one_way(s, r, n, fresh).0, one_way(s, r, n, fresh).1),
        one_way(s, r, n, fresh).0.dh_send == s.dh_send,
        ({
            let (sn, rn) = one_way(s, r, n, fresh);
            let sk = sn.dh_send->0;
            decrypt_message_key(rn, x25519_public(sk), fresh) == Some(encrypt_message_key(sn, sk))
        }),
    decreases n,
{
    if n > 0 {
        lemma_one_way_rounds(s, r, (n - 1) as nat, fresh);
    }
    let (sn, rn) = one_way(s, r, n, fresh);
    let sk = sn.dh_send->0;
    let pk = x25519_public(sk);
    assert(steady_config(after_encrypt(sn, sk), after_decrypt(rn, pk, fresh)));
}

/// A fresh initiator seals its first message under the SHA-256 of its first chain key
/// followed by 0x01, the first chain key being HKDF-SHA-256 of the shared secret under
/// the zero salt; its chain then moves on to the SHA-256 of that key followed by 0x02.
pub proof fn lemma_first_message_key(shared_secret: Seq<u8>, sk: Seq<u8>)
    ensures
        encrypt_message_key(initial_state(shared_secret, true, sk), sk) == sha256(
            hkdf_sha256(32, zero_salt(), shared_secret) + seq![1u8],
        ),
        after_encrypt(initial_state(shared_secret, true, sk), sk).send->0.key == sha256(
            hkdf_sha256(32, zero_salt(), shared_secret) + seq![2u8],
        ),
{
}

/// Two encryptions with no decryption between them carry the same ratchet key and
/// the same previous chain length.
pub proof fn lemma_consecutive_encrypts(s: RatchetView, sk1: Seq<u8>, sk2: Seq<u8>)
    ensures
        after_encrypt(s, sk1).dh_send is Some,
        after_encrypt(after_encrypt(s, sk1), sk2).dh_send == after_encrypt(s, sk1).dh_send,
        previous_chain_length(after_encrypt(s, sk1)) == previous_chain_length(s),
{
}

// ---------------------------------------------------------------------------

/// Where `pk` is the public key of a secret `other`, the owner of `other` computes the
/// same shared secret with `sk`'s public key as `sk` computes with `pk`.
pub open spec fn dh_agrees(sk: Seq<u8>, pk: Seq<u8>) -> bool {
    forall|other: Seq<u8>|
        other.len() == 32 && pk == x25519_public(other) ==> #[trigger] x25519_shared(
            other,
            x25519_public(sk),
        ) == x25519_shared(sk, pk)
}

/// The first chain key of a root key.
fn initial_chain(root: &SharedSecret) -> (r: ChainKey)
    ensures
        r.0@ == initial_chain_spec(root@),
{
    let salt = zero_key();
    let raw = hkdf(KEY_LENGTH, salt.as_slice(), root.as_bytes());
    let arr = array32_at(raw.as_slice(), 0);
    assert(raw@.subrange(0, 32) =~= raw@);
    ChainKey::new(arr)
}

/// Whether two byte strings are equal.
fn bytes_equal(a: &[u8], b: &[u8]) -> (r: bool)
    ensures
        r == (a@ == b@),
{
    let n = a.len();
    if n != b.len() {
        return false;
    }
    let mut i: usize = 0;
    while i < n
        invariant
            n == a@.len(),
            n == b@.len(),
            i <= n,
            forall|j: int| 0 <= j < i ==> a@[j] == b@[j],
        decreases n - i,
    {
        if a[i] != b[i] {
            return false;
        }
        i = i + 1;
    }
    assert(a@ =~= b@);
    true
}

/// A buffer holding the bytes of an array.
fn bytes_of(a: &[u8; 32]) -> (r: Vec<u8>)
    ensures
        r@ == a@,
{
    let mut v: Vec<u8> = Vec::new();
    v.extend_from_slice(a.as_slice());
    v
}

impl RatchetState {
    /// Creates a ratchet from an X3DH shared secret.
    ///
    /// The initiator derives its first sending chain from the root key and draws a
    /// ratchet key pair for the first message header; the responder waits for the
    /// first message to set up its chains.
    pub fn new(shared_secret: SharedSecret, is_initiator: bool) -> (r: Self)
        ensures
            is_initiator ==> r@.dh_send is Some && r@ == initial_state(
                shared_secret@,
                true,
                r@.dh_send->0,
            ),
            !is_initiator ==> r@ == initial_state(shared_secret@, false, Seq::empty()),
    {
        let mut send_chain_key: Option<ChainKeyState> = None;
        let mut dh_send_keypair: Option<[u8; 32]> = None;
        if is_initiator {
            let dh_sk = x25519_random_secret();
            dh_send_keypair = Some(dh_sk);
            let ck = initial_chain(&shared_secret);
            send_chain_key = Some(ChainKeyState { chain_key: ck, message_index: 0 });
        }
        RatchetState {
            root_key: shared_secret,
            send_chain_key,
            recv_chain_key: None,
            dh_send_keypair,
            dh_recv_public_key: None,
            skipped_message_keys: Vec::new(),
        }
    }

    /// Encrypts a message with the sending chain, creating the ratchet key pair and
    /// the sending chain first where they are missing.
    ///
    /// Whatever peer this state delivers to opens the message to `plaintext`, and the
    /// state keeps delivering to that peer afterwards.
    pub fn encrypt(&mut self, plaintext: &[u8], _associated_data: &[u8]) -> (r: Result<
        CipherMessage,
        &'static str,
    >)
        requires
            old(self)@.send matches Some(c) ==> c.index < u32::MAX,
        ensures
            final(self)@.dh_send is Some,
            old(self)@.dh_send matches Some(k) ==> final(self)@.dh_send == Some(k),
            final(self)@ == after_encrypt(old(self)@, final(self)@.dh_send->0),
            r matches Ok(m) ==> {
                let sk = final(self)@.dh_send->0;
                let mk = encrypt_message_key(old(self)@, sk);
                &&& m@.dh == x25519_public(sk)
                &&& m@.dh.len() == 32
                &&& m@.previous_chain_length == previous_chain_length(old(self)@)
                &&& m@.nonce.len() == 12
                &&& chacha20poly1305_seal(mk, m@.nonce, plaintext@) == Some(m@.ciphertext)
                &&& m@.ciphertext.len() == plaintext@.len() + MAC_LENGTH
            },
            r matches Err(e) ==> e@ == "encryption failed"@ && plaintext@.len() >= CHACHA_PLAINTEXT_LIMIT,
            r matches Ok(m) ==> forall|peer: RatchetView|
                delivers(old(self)@, peer) ==> #[trigger] receives(peer, m@, plaintext@, final(self)@),
    {
        proof {
            use_type_invariant(&*self);
        }
        let ghost s0 = self@;
        if self.dh_send_keypair.is_none() {
            self.dh_send_keypair = Some(x25519_random_secret());
        }
        let dh_sk = self.dh_send_keypair.unwrap();
        let ghost sk = dh_sk@;
        assert(self@ == with_send_key(s0, sk));
        if self.send_chain_key.is_none() {
            match self.dh_recv_public_key {
                Some(dh_recv_pk) => {
                    let shared = x25519_diffie_hellman(&dh_sk, &dh_recv_pk);
                    let (new_rk, new_ck) = kdf_rk(&self.root_key, shared.as_slice());
                    self.root_key = new_rk;
                    self.send_chain_key = Some(ChainKeyState { chain_key: new_ck, message_index: 0 });
                    assert(dh_agrees(sk, dh_recv_pk@));
                },
                None => {
                    let ck = initial_chain(&self.root_key);
                    self.send_chain_key = Some(ChainKeyState { chain_key: ck, message_index: 0 });
                },
            }
        }
        assert(self@ == send_setup(s0, sk));
        assert(s0.send is None && s0.dh_recv is Some ==> dh_agrees(sk, s0.dh_recv->0));
        let dh_pk = x25519_public_key(&dh_sk);
        let (new_ck, mk, idx) = match &self.send_chain_key {
            Some(c) => {
                let (n, m) = kdf_ck(&c.chain_key);
                (n, m, c.message_index)
            },
            None => {
                return Err("no send chain");
            },
        };
        self.send_chain_key = Some(ChainKeyState { chain_key: new_ck, message_index: idx + 1 });
        assert(self@ == after_encrypt(s0, sk));
        let previous = match &self.recv_chain_key {
            Some(c) => c.message_index,
            None => 0,
        };
        let header = Header { dh_public_key: bytes_of(&dh_pk), previous_chain_length: previous };
        let msg_key = MessageKey::new(mk);
        let nonce_bytes = random_nonce();
        let sealed = chacha_seal(msg_key.as_bytes(), &nonce_bytes, plaintext);
        match sealed {
            Some(ciphertext) => {
                let nonce = bytes_of_nonce(&nonce_bytes);
                let m = CipherMessage { header, nonce, ciphertext };
                proof {
                    let mv = m@;
                    let s1 = self@;
                    assert forall|peer: RatchetView| delivers(s0, peer) implies #[trigger] receives(
                        peer,
                        mv,
                        plaintext@,
                        s1,
                    ) by {
                        assert forall|fresh: Seq<u8>|
                            #![trigger after_decrypt(peer, mv.dh, fresh)]
                            {
                                &&& decrypt_message_key(peer, mv.dh, fresh) matches Some(k)
                                &&& chacha20poly1305_open(k, mv.nonce, mv.ciphertext) == Some(plaintext@)
                                &&& delivers(s1, after_decrypt(peer, mv.dh, fresh))
                            } by {
                            if reply_config(s0, peer) {
                                let rk = peer.dh_send->0;
                                assert(x25519_shared(rk, x25519_public(sk)) == x25519_shared(
                                    sk,
                                    s0.dh_recv->0,
                                ));
                            }
                        }
                    }
                }
                Ok(m)
            },
            None => Err("encryption failed"),
        }
    }
}

impl RatchetState {
    /// Decrypts a message, first taking the DH ratchet step when the header carries a
    /// new ratchet key.
    pub fn decrypt(&mut self, message: &CipherMessage, _associated_data: &[u8]) -> (r: Result<
        Vec<u8>,
        &'static str,
    >)
        requires
            message.header.dh_public_key@.len() == 0 || message.header.dh_public_key@.len() == 32,
            forall|f: Seq<u8>|
                #[trigger] header_step(old(self)@, message@.dh, f).recv matches Some(c) ==> c.index
                    < u32::MAX,
            forall|f: Seq<u8>|
                #[trigger] header_step(old(self)@, message@.dh, f).recv is Some ==> message@.nonce.len()
                    == 12,
        ensures
            final(self)@ == after_decrypt(old(self)@, message@.dh, final(self)@.dh_send->0),
            match decrypt_message_key(old(self)@, message@.dh, final(self)@.dh_send->0) {
                None => r matches Err(e) && e@ == "no receive chain"@,
                Some(mk) => match chacha20poly1305_open(mk, message@.nonce, message@.ciphertext) {
                    Some(p) => r matches Ok(v) && v@ == p,
                    None => r matches Err(e) && e@ == "decryption failed"@,
                },
            },
    {
        proof {
            use_type_invariant(&*self);
        }
        let ghost s0 = self@;
        let header = &message.header;
        if let Some(skipped) = self.try_skipped_message_key(header) {
            return match chacha_open(skipped.as_bytes(), message.nonce.as_slice(), message.ciphertext.as_slice()) {
                Some(p) => Ok(p),
                None => Err("decryption failed"),
            };
        }
        let is_new_dh_key = !header.dh_public_key.is_empty() && match self.dh_recv_public_key {
            None => true,
            Some(current) => !bytes_equal(current.as_slice(), header.dh_public_key.as_slice()),
        };
        assert(is_new_dh_key == is_new_key(s0, message@.dh));
        let ghost mut fresh: Seq<u8> = Seq::empty();
        if is_new_dh_key {
            let sender_dh_pk = array32_at(header.dh_public_key.as_slice(), 0);
            assert(sender_dh_pk@ =~= message@.dh);
            if self.recv_chain_key.is_none() && self.send_chain_key.is_none()
                && self.dh_recv_public_key.is_none() {
                let ck = initial_chain(&self.root_key);
                self.recv_chain_key = Some(ChainKeyState { chain_key: ck, message_index: 0 });
            } else {
                let dh_sk = match self.dh_send_keypair {
                    Some(k) => k,
                    None => {
                        let k = x25519_random_secret();
                        self.dh_send_keypair = Some(k);
                        proof {
                            fresh = k@;
                        }
                        k
                    },
                };
                let shared = x25519_diffie_hellman(&dh_sk, &sender_dh_pk);
                let (new_rk, new_ck) = kdf_rk(&self.root_key, shared.as_slice());
                self.root_key = new_rk;
                if self.recv_chain_key.is_some() {
                    self.send_chain_key = Some(ChainKeyState { chain_key: new_ck, message_index: 0 });
                } else {
                    self.recv_chain_key = Some(ChainKeyState { chain_key: new_ck, message_index: 0 });
                }
            }
            self.dh_recv_public_key = Some(sender_dh_pk);
        }
        assert(self@ == header_step(s0, message@.dh, fresh));
        let (new_ck, mk, idx) = match &self.recv_chain_key {
            Some(c) => {
                let (n, m) = kdf_ck(&c.chain_key);
                (n, m, c.message_index)
            },
            None => {
                assert(after_decrypt(s0, message@.dh, self@.dh_send->0) == header_step(
                    s0,
                    message@.dh,
                    fresh,
                ));
                return Err("no receive chain");
            },
        };
        self.recv_chain_key = Some(ChainKeyState { chain_key: new_ck, message_index: idx + 1 });
        assert(self@ == after_decrypt(s0, message@.dh, fresh));
        assert(after_decrypt(s0, message@.dh, self@.dh_send->0) == after_decrypt(
            s0,
            message@.dh,
            fresh,
        ));
        let msg_key = MessageKey::new(mk);
        match chacha_open(msg_key.as_bytes(), message.nonce.as_slice(), message.ciphertext.as_slice()) {
            Some(p) => Ok(p),
            None => Err("decryption failed"),
        }
    }

    /// A key set aside for a message with this header's ratchet key and index.
    fn try_skipped_message_key(&self, header: &Header) -> (r: Option<MessageKey>)
        ensures
            r is Some ==> exists|i: int|
                0 <= i < self.skipped_message_keys@.len()
                    && self.skipped_message_keys@[i].dh_public_key@ == header.dh_public_key@
                    && self.skipped_message_keys@[i].message_index == header.previous_chain_length
                    && r->0@ == self.skipped_message_keys@[i].message_key@,
            r is None ==> forall|i: int|
                0 <= i < self.skipped_message_keys@.len() ==> !(
                self.skipped_message_keys@[i].dh_public_key@ == header.dh_public_key@
                    && self.skipped_message_keys@[i].message_index == header.previous_chain_length),
    {
        let n = self.skipped_message_keys.len();
        let mut i: usize = 0;
        while i < n
            invariant
                n == self.skipped_message_keys@.len(),
                i <= n,
                forall|j: int|
                    0 <= j < i ==> !(self.skipped_message_keys@[j].dh_public_key@
                        == header.dh_public_key@ && self.skipped_message_keys@[j].message_index
                        == header.previous_chain_length),
            decreases n - i,
        {
            let sk = &self.skipped_message_keys[i];
            if bytes_equal(sk.dh_public_key.as_slice(), header.dh_public_key.as_slice())
                && sk.message_index == header.previous_chain_length {
                return Some(MessageKey::new(sk.message_key.0));
            }
            i = i + 1;
        }
        None
    }
}

/// A buffer holding the bytes of a nonce.
fn bytes_of_nonce(a: &[u8; 12]) -> (r: Vec<u8>)
    ensures
        r@ == a@,
{
    let mut v: Vec<u8> = Vec::new();
    v.extend_from_slice(a.as_slice());
    v
}

} // verus!
