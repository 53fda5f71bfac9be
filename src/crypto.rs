//! SRTP-style key material, per-packet counter (IV) construction and the
//! truncated authentication tag.
use vstd::prelude::*;
use crate::codec::{be32, ByteWriter, CodecError, Endianess};

verus! {

/// The crypto suite this library negotiates.
pub const SUITE_NAME: &'static str = "AES_CM_128_HMAC_SHA1_80";

/// Bytes in a counter (IV) block.
pub const COUNTER_LENGTH: usize = 16;

/// Bytes in a master or session salt.
pub const SALT_LENGTH: usize = 14;

/// Bytes in a session authentication key.
pub const AUTH_KEY_LENGTH: usize = 20;

/// Bytes of the MAC kept as the authentication tag.
pub const AUTH_TAG_LENGTH: usize = 10;

/// Bytes in a master or session encryption key.
pub const KEY_LENGTH: usize = 16;

/// Bytes of an HMAC-SHA1 output.
pub const MAC_LENGTH: usize = 20;

/// Configuration errors of the key material.
#[derive(Clone, Copy, Debug, PartialEq, Eq, Structural)]
pub enum CryptoError {
    /// A key or salt does not have the length the suite requires.
    KeyLengthMismatch,
}

/// The HMAC-SHA1 of `msg` under `key`, as the `hmac` crate computes it.
pub uninterp spec fn hmac_sha1_of(key: Seq<u8>, msg: Seq<u8>) -> Seq<u8>;

/// The standard base64 alphabet.
pub open spec fn base64_alphabet() -> Seq<char> {
    "ABCDEFGHIJKLMNOPQRSTUVWXYZabcdefghijklmnopqrstuvwxyz0123456789+/"@
}

/// The base64 digit of a six-bit value.
pub open spec fn b64(v: int) -> char {
    base64_alphabet()[v]
}

/// Standard base64 with padding: every three bytes become four digits of
/// six bits each; a last group of one or two bytes is padded with `=`.
pub open spec fn base64_of(d: Seq<u8>) -> Seq<char>
    decreases d.len(),
{
    if d.len() == 0 {
        Seq::empty()
    } else if d.len() == 1 {
        let a = d[0] as int;
        seq![b64(a / 4), b64((a % 4) * 16), '=', '=']
    } else if d.len() == 2 {
        let (a, b) = (d[0] as int, d[1] as int);
        seq![b64(a / 4), b64((a % 4) * 16 + b / 16), b64((b % 16) * 4), '=']
    } else {
        let (a, b, c) = (d[0] as int, d[1] as int, d[2] as int);
        seq![b64(a / 4), b64((a % 4) * 16 + b / 16), b64((b % 16) * 4 + c / 64), b64(c % 64)]
            + base64_of(d.subrange(3, d.len() as int))
    }
}

/// Relies on `hmac::Hmac<sha1::Sha1>`: keyed with any key length (its
/// `new_from_slice` never fails), it yields the 20-byte MAC of `msg`.
#[verifier::external_body]
fn hmac_sha1(key: &[u8], msg: &[u8]) -> (r: Vec<u8>)
    ensures
        r@ == hmac_sha1_of(key@, msg@),
        r@.len() == MAC_LENGTH,
{
    match <hmac::Hmac<sha1::Sha1> as hmac::Mac>::new_from_slice(key) {
        Ok(mut mac) => {
            hmac::Mac::update(&mut mac, msg);
            hmac::Mac::finalize(mac).into_bytes().to_vec()
        },
        Err(_) => Vec::new(),
    }
}

/// Relies on `base64::encode`: standard alphabet with padding, as
/// `base64_of` states it, four characters for each started group of three
/// bytes. It panics only when that length overflows `usize`, which
/// `requires` rules out.
#[verifier::external_body]
pub fn encode_base64(data: &[u8]) -> (r: String)
    requires
        data@.len() <= usize::MAX / 2,
    ensures
        r@ == base64_of(data@),
        r@.len() == 4 * ((data@.len() + 2) / 3),
{
    base64::encode(data)
}

/// Relies on `rand::thread_rng` with `RngCore::fill_bytes`: `len` bytes
/// from a cryptographically secure generator; nothing is known of their
/// values.
#[verifier::external_body]
fn random_bytes(len: usize) -> (r: Vec<u8>)
    ensures
        r@.len() == len,
{
    let mut bytes = vec![0u8; len];
    rand::RngCore::fill_bytes(&mut rand::thread_rng(), &mut bytes);
    bytes
}

/// The master key and salt a session's keys are derived from.
pub struct MasterKey {
    pub secret: Vec<u8>,
    pub salt: Vec<u8>,
}

impl MasterKey {
    pub open spec fn wf(&self) -> bool {
        self.secret@.len() == KEY_LENGTH && self.salt@.len() == SALT_LENGTH
    }

    /// A master key from its parts; parts of the wrong length are a
    /// configuration error.
    pub fn new(secret: Vec<u8>, salt: Vec<u8>) -> (r: Result<MasterKey, CryptoError>)
        ensures
            (secret@.len() == KEY_LENGTH && salt@.len() == SALT_LENGTH) <==> r is Ok,
            r matches Ok(k) ==> k.secret@ == secret@ && k.salt@ == salt@ && k.wf(),
            r is Err ==> r == Err::<MasterKey, CryptoError>(CryptoError::KeyLengthMismatch),
    {
        if secret.len() == KEY_LENGTH && salt.len() == SALT_LENGTH {
            Ok(MasterKey { secret, salt })
        } else {
            Err(CryptoError::KeyLengthMismatch)
        }
    }

    /// A fresh master key and salt drawn at random for one session.
    pub fn generate() -> (r: MasterKey)
        ensures
            r.wf(),
    {
        MasterKey { secret: random_bytes(KEY_LENGTH), salt: random_bytes(SALT_LENGTH) }
    }

    /// The key followed by the salt, as the signaling exchange carries them.
    pub open spec fn material(&self) -> Seq<u8> {
        self.secret@ + self.salt@
    }

    /// The key followed by the salt.
    pub fn key_material(&self) -> (r: Vec<u8>)
        requires
            self.wf(),
        ensures
            r@ == self.material(),
    {
        let mut bytes: Vec<u8> = Vec::new();
        let mut i: usize = 0;
        while i < self.secret.len()
            invariant
                i <= self.secret@.len(),
                bytes@ == self.secret@.subrange(0, i as int),
            decreases self.secret@.len() - i,
        {
            bytes.push(self.secret[i]);
            i += 1;
            proof {
                assert(bytes@ =~= self.secret@.subrange(0, i as int));
            }
        }
        let mut j: usize = 0;
        while j < self.salt.len()
            invariant
                j <= self.salt@.len(),
                bytes@ == self.secret@ + self.salt@.subrange(0, j as int),
            decreases self.salt@.len() - j,
        {
            bytes.push(self.salt[j]);
            j += 1;
            proof {
                assert(bytes@ =~= self.secret@ + self.salt@.subrange(0, j as int));
            }
        }
        proof {
            assert(self.salt@.subrange(0, j as int) =~= self.salt@);
            assert(self.secret@.subrange(0, i as int) =~= self.secret@);
        }
        bytes
    }

    /// The key material in base64, as sent to the voice relay.
    pub fn get_base64(&self) -> (r: String)
        requires
            self.wf(),
        ensures
            r@ == base64_of(self.material()),
            r@.len() == 40,
    {
        let bytes = self.key_material();
        encode_base64(bytes.as_slice())
    }
}

/// The keys one session uses for protecting packets.
pub struct SessionContext {
    pub encryption_key: Vec<u8>,
    pub authentication_key: Vec<u8>,
    pub salt: Vec<u8>,
}

impl SessionContext {
    pub open spec fn wf(&self) -> bool {
        &&& self.encryption_key@.len() == KEY_LENGTH
        &&& self.authentication_key@.len() == AUTH_KEY_LENGTH
        &&& self.salt@.len() == SALT_LENGTH
    }

    /// Session keys from derived material; any length other than the
    /// suite's is a configuration error, reported before any use.
    pub fn new(encryption_key: Vec<u8>, authentication_key: Vec<u8>, salt: Vec<u8>) -> (r: Result<SessionContext, CryptoError>)
        ensures
            (encryption_key@.len() == KEY_LENGTH && authentication_key@.len() == AUTH_KEY_LENGTH
                && salt@.len() == SALT_LENGTH) <==> r is Ok,
            r matches Ok(c) ==> c.wf() && c.encryption_key@ == encryption_key@
                && c.authentication_key@ == authentication_key@ && c.salt@ == salt@,
            r is Err ==> r == Err::<SessionContext, CryptoError>(CryptoError::KeyLengthMismatch),
    {
        if encryption_key.len() == KEY_LENGTH && authentication_key.len() == AUTH_KEY_LENGTH
            && salt.len() == SALT_LENGTH {
            Ok(SessionContext { encryption_key, authentication_key, salt })
        } else {
            Err(CryptoError::KeyLengthMismatch)
        }
    }
}

/// Sequence-number arithmetic of the packet stream.
pub struct EncryptionStrategy;

impl EncryptionStrategy {
    /// The sequence number after `prev`, wrapping from 65535 to 0.
    pub fn next_sequence(prev: u16) -> (r: u16)
        ensures
            r == (prev + 1) % 0x1_0000,
            prev == 0xffff ==> r == 0,
            prev < 0xffff ==> r == prev + 1,
    {
        if prev == 0xffff {
            0
        } else {
            prev + 1
        }
    }
}

/// The counter block before the salt is applied: a zero word, the SSRC,
/// the rollover counter and the sequence number in the high half of the
/// last word, all big endian.
pub open spec fn counter_block(ssrc: u32, roc: u32, seq: u16) -> Seq<u8> {
    be32(0) + be32(ssrc) + be32(roc) + be32((seq as u32 * 0x1_0000) as u32)
}

/// The per-packet counter (IV): the counter block with each of its first
/// bytes XORed with the salt byte at the same place, for as many bytes as
/// the salt has.
pub open spec fn counter_iv(ssrc: u32, roc: u32, seq: u16, salt: Seq<u8>) -> Seq<u8> {
    Seq::new(
        COUNTER_LENGTH as nat,
        |i: int|
            if i < salt.len() {
                counter_block(ssrc, roc, seq)[i] ^ salt[i]
            } else {
                counter_block(ssrc, roc, seq)[i]
            },
    )
}

/// The salt as it acts on a counter block: its first 16 bytes, padded
/// with zeros when it is shorter.
pub open spec fn salt_window(salt: Seq<u8>) -> Seq<u8> {
    Seq::new(COUNTER_LENGTH as nat, |i: int| if i < salt.len() { salt[i] } else { 0u8 })
}

proof fn lemma_xor_cancel(a: u8, b: u8, s: u8)
    requires
        a ^ s == b ^ s,
    ensures
        a == b,
{
    assert(a == b) by (bit_vector)
        requires
            a ^ s == b ^ s,
    ;
}

proof fn lemma_xor_same_base(b: u8, x: u8, y: u8)
    requires
        b ^ x == b ^ y,
    ensures
        x == y,
{
    assert(x == y) by (bit_vector)
        requires
            b ^ x == b ^ y,
    ;
}

proof fn lemma_xor_zero(b: u8)
    ensures
        b ^ 0u8 == b,
{
    assert(b ^ 0u8 == b) by (bit_vector);
}

proof fn lemma_be32_injective(a: u32, b: u32)
    requires
        be32(a) == be32(b),
    ensures
        a == b,
{
    assert(be32(a)[0] == be32(b)[0]);
    assert(be32(a)[1] == be32(b)[1]);
    assert(be32(a)[2] == be32(b)[2]);
    assert(be32(a)[3] == be32(b)[3]);
    assert(a == b) by (bit_vector)
        requires
            a / 0x100_0000 == b / 0x100_0000,
            (a / 0x1_0000) % 256 == (b / 0x1_0000) % 256,
            (a / 256) % 256 == (b / 256) % 256,
            a % 256 == b % 256,
    ;
}

proof fn lemma_high_half_injective(x: u16, y: u16)
    requires
        (x as u32 * 0x1_0000) as u32 == (y as u32 * 0x1_0000) as u32,
    ensures
        x == y,
{
    assert(x == y) by (bit_vector)
        requires
            (x as u32 * 0x1_0000) as u32 == (y as u32 * 0x1_0000) as u32,
    ;
}

/// Two counter blocks that agree on every byte once the same salt is
/// applied are the same block.
proof fn lemma_iv_determines_block(b1: Seq<u8>, b2: Seq<u8>, salt: Seq<u8>)
    requires
        b1.len() == COUNTER_LENGTH,
        b2.len() == COUNTER_LENGTH,
        forall|i: int| 0 <= i < COUNTER_LENGTH ==>
            (if i < salt.len() { b1[i] ^ salt[i] } else { b1[i] })
            == (if i < salt.len() { b2[i] ^ salt[i] } else { b2[i] }),
    ensures
        b1 == b2,
{
    assert forall|i: int| 0 <= i < COUNTER_LENGTH implies b1[i] == b2[i] by {
        if i < salt.len() {
            lemma_xor_cancel(b1[i], b2[i], salt[i]);
        }
    }
    assert(b1 =~= b2);
}

/// For a fixed salt the counter (IV) determines the SSRC, the rollover
/// counter and the sequence number: changing any one of them changes the
/// counter.
pub proof fn lemma_counter_distinct_inputs(
    ssrc1: u32,
    roc1: u32,
    seq1: u16,
    ssrc2: u32,
    roc2: u32,
    seq2: u16,
    salt: Seq<u8>,
)
    requires
        ssrc1 != ssrc2 || roc1 != roc2 || seq1 != seq2,
    ensures
        counter_iv(ssrc1, roc1, seq1, salt) != counter_iv(ssrc2, roc2, seq2, salt),
{
    let b1 = counter_block(ssrc1, roc1, seq1);
    let b2 = counter_block(ssrc2, roc2, seq2);
    if counter_iv(ssrc1, roc1, seq1, salt) == counter_iv(ssrc2, roc2, seq2, salt) {
        assert forall|i: int| 0 <= i < COUNTER_LENGTH implies
            (if i < salt.len() { b1[i] ^ salt[i] } else { b1[i] })
            == (if i < salt.len() { b2[i] ^ salt[i] } else { b2[i] }) by {
            assert(counter_iv(ssrc1, roc1, seq1, salt)[i] == counter_iv(ssrc2, roc2, seq2, salt)[i]);
        }
        lemma_iv_determines_block(b1, b2, salt);
        let h1 = (seq1 as u32 * 0x1_0000) as u32;
        let h2 = (seq2 as u32 * 0x1_0000) as u32;
        assert(b1.subrange(4, 8) =~= be32(ssrc1));
        assert(b2.subrange(4, 8) =~= be32(ssrc2));
        assert(b1.subrange(8, 12) =~= be32(roc1));
        assert(b2.subrange(8, 12) =~= be32(roc2));
        assert(b1.subrange(12, 16) =~= be32(h1));
        assert(b2.subrange(12, 16) =~= be32(h2));
        lemma_be32_injective(ssrc1, ssrc2);
        lemma_be32_injective(roc1, roc2);
        lemma_be32_injective(h1, h2);
        lemma_high_half_injective(seq1, seq2);
    }
}

/// For fixed SSRC, rollover counter and sequence number, salts that differ
/// within the counter's 16 bytes (a shorter salt counting as padded with
/// zeros) give different counters.
pub proof fn lemma_counter_distinct_salts(ssrc: u32, roc: u32, seq: u16, salt1: Seq<u8>, salt2: Seq<u8>)
    requires
        salt_window(salt1) != salt_window(salt2),
    ensures
        counter_iv(ssrc, roc, seq, salt1) != counter_iv(ssrc, roc, seq, salt2),
{
    let b = counter_block(ssrc, roc, seq);
    let w1 = salt_window(salt1);
    let w2 = salt_window(salt2);
    let i = choose|i: int| 0 <= i < COUNTER_LENGTH && w1[i] != w2[i];
    assert(exists|i: int| 0 <= i < COUNTER_LENGTH && w1[i] != w2[i]) by {
        if !(exists|i: int| 0 <= i < COUNTER_LENGTH && w1[i] != w2[i]) {
            assert(w1 =~= w2);
        }
    }
    lemma_xor_zero(b[i]);
    let iv1 = counter_iv(ssrc, roc, seq, salt1);
    let iv2 = counter_iv(ssrc, roc, seq, salt2);
    assert(iv1[i] == b[i] ^ w1[i]);
    assert(iv2[i] == b[i] ^ w2[i]);
    if iv1 == iv2 {
        lemma_xor_same_base(b[i], w1[i], w2[i]);
    }
}

/// For fixed SSRC, rollover counter and sequence number, the counters of
/// two salts differ at exactly the bytes where the salts' 16-byte windows
/// differ.
pub proof fn lemma_counter_salt_positions(ssrc: u32, roc: u32, seq: u16, salt1: Seq<u8>, salt2: Seq<u8>, i: int)
    requires
        0 <= i < COUNTER_LENGTH,
    ensures
        (counter_iv(ssrc, roc, seq, salt1)[i] != counter_iv(ssrc, roc, seq, salt2)[i])
            <==> (salt_window(salt1)[i] != salt_window(salt2)[i]),
{
    let b = counter_block(ssrc, roc, seq)[i];
    let w1 = salt_window(salt1)[i];
    let w2 = salt_window(salt2)[i];
    lemma_xor_zero(b);
    assert(counter_iv(ssrc, roc, seq, salt1)[i] == b ^ w1);
    assert(counter_iv(ssrc, roc, seq, salt2)[i] == b ^ w2);
    if b ^ w1 == b ^ w2 {
        lemma_xor_same_base(b, w1, w2);
    }
}

/// Appends the counter (IV) for one packet to `cursor`. A cursor without
/// room for 16 more bytes is left unchanged.
pub fn generate_counter(cursor: &mut ByteWriter, seq: u16, roc: u32, ssrc: u32, salt: &[u8]) -> (r: Result<(), CodecError>)
    requires
        old(cursor).wf(),
    ensures
        final(cursor).wf(),
        final(cursor).limit == old(cursor).limit,
        final(cursor).endianess == old(cursor).endianess,
        old(cursor).fits(16) ==> r is Ok && final(cursor).data@ == old(cursor).data@ + counter_iv(
            ssrc, roc, seq, salt@),
        !old(cursor).fits(16) ==> r == Err::<(), CodecError>(CodecError::BufferFull)
            && final(cursor).data@ == old(cursor).data@,
{
    if !cursor.has_room(16) {
        return Err(CodecError::BufferFull);
    }
    let start = cursor.data.len();
    let high = (seq as u32) * 0x1_0000;
    let _ = cursor.write_u32(0, Some(Endianess::Big));
    let _ = cursor.write_u32(ssrc, Some(Endianess::Big));
    let _ = cursor.write_u32(roc, Some(Endianess::Big));
    let _ = cursor.write_u32(high, Some(Endianess::Big));
    let ghost block = counter_block(ssrc, roc, seq);
    assert(cursor.data@ =~= old(cursor).data@ + block);
    assert(cursor.data@.len() == cursor.data.len());
    let n: usize = if salt.len() < COUNTER_LENGTH { salt.len() } else { COUNTER_LENGTH };
    let mut i: usize = 0;
    while i < n
        invariant
            n <= COUNTER_LENGTH,
            n <= salt@.len(),
            n == salt@.len() || n == COUNTER_LENGTH,
            i <= n,
            start == old(cursor).data@.len(),
            block.len() == COUNTER_LENGTH,
            start + COUNTER_LENGTH <= usize::MAX,
            cursor.data@.len() == start + COUNTER_LENGTH,
            cursor.limit == old(cursor).limit,
            cursor.endianess == old(cursor).endianess,
            cursor.wf(),
            forall|k: int| 0 <= k < start ==> cursor.data@[k] == old(cursor).data@[k],
            forall|k: int| 0 <= k < i ==> cursor.data@[start + k] == block[k] ^ salt@[k],
            forall|k: int| i <= k < COUNTER_LENGTH ==> cursor.data@[start + k] == block[k],
        decreases n - i,
    {
        let b = cursor.data[start + i] ^ salt[i];
        cursor.data[start + i] = b;
        i += 1;
    }
    assert(cursor.data@ =~= old(cursor).data@ + counter_iv(ssrc, roc, seq, salt@));
    Ok(())
}

/// The 16-byte counter (IV) for the packet with sequence number `seq` of
/// the stream `ssrc` in rollover period `roc`, under `salt`.
pub fn build_counter(ssrc: u32, roc: u32, seq: u16, salt: &[u8]) -> (r: Vec<u8>)
    ensures
        r@ == counter_iv(ssrc, roc, seq, salt@),
        r@.len() == COUNTER_LENGTH,
{
    let mut cursor = ByteWriter::with_size(COUNTER_LENGTH, Some(Endianess::Big));
    let _ = generate_counter(&mut cursor, seq, roc, ssrc, salt);
    assert(cursor.data@ =~= counter_iv(ssrc, roc, seq, salt@));
    cursor.data
}

/// The authentication tag: the first ten bytes of a MAC.
pub open spec fn truncated_tag(mac: Seq<u8>) -> Seq<u8> {
    mac.subrange(0, AUTH_TAG_LENGTH as int)
}

/// What the tag authenticates: the protected bytes followed by the
/// rollover counter, big endian.
pub open spec fn auth_input(input: Seq<u8>, roc: u32) -> Seq<u8> {
    input + be32(roc)
}

/// Keeps the first ten bytes of `mac` as the authentication tag.
pub fn truncate_auth_tag(mac: &[u8]) -> (r: Vec<u8>)
    requires
        mac@.len() >= AUTH_TAG_LENGTH,
    ensures
        r@ == truncated_tag(mac@),
{
    let mut tag: Vec<u8> = Vec::new();
    let mut i: usize = 0;
    while i < AUTH_TAG_LENGTH
        invariant
            i <= AUTH_TAG_LENGTH,
            mac@.len() >= AUTH_TAG_LENGTH,
            tag@ == mac@.subrange(0, i as int),
        decreases AUTH_TAG_LENGTH - i,
    {
        tag.push(mac[i]);
        i += 1;
        proof {
            assert(tag@ =~= mac@.subrange(0, i as int));
        }
    }
    tag
}

/// The 10-byte tag (HMAC-SHA1 truncated to 80 bits) over `input` and the
/// rollover counter, under the session authentication `key`.
pub fn generate_hmac_auth_tag(key: &[u8], input: &[u8], roc: u32) -> (r: Vec<u8>)
    requires
        input@.len() + 4 <= usize::MAX,
    ensures
        r@ == truncated_tag(hmac_sha1_of(key@, auth_input(input@, roc))),
        r@.len() == AUTH_TAG_LENGTH,
{
    let mut msg = ByteWriter::new(Some(Endianess::Big));
    msg.data.extend_from_slice(input);
    let _ = msg.write_u32(roc, Some(Endianess::Big));
    assert(msg.data@ =~= auth_input(input@, roc));
    let mac = hmac_sha1(key, msg.data.as_slice());
    truncate_auth_tag(mac.as_slice())
}

} // verus!
