//! Deterministic hashing: SHA-256 digests, their hexadecimal text, and the
//! byte encodings that digests are taken over.

use sha2::Digest;
use vstd::prelude::*;
use vstd::utf8::encode_utf8;

verus! {

/// The SHA-256 digest of a byte string.
pub uninterp spec fn sha256_of(data: Seq<u8>) -> Seq<u8>;

/// Relies on `sha2::Sha256::digest`: the SHA-256 digest of `data`, which is
/// always 32 bytes long.
#[verifier::external_body]
pub(crate) fn sha256(data: &[u8]) -> (r: Vec<u8>)
    ensures
        r@ == sha256_of(data@),
        r@.len() == 32,
{
    sha2::Sha256::digest(data).to_vec()
}

/// Relies on `String::push`: appends one character to the end of the string.
#[verifier::external_body]
pub(crate) fn push_char(s: &mut String, c: char)
    ensures
        final(s)@ == old(s)@.push(c),
{
    s.push(c);
}

/// The lower-case hexadecimal digit for a value below 16.
pub open spec fn hex_digit(d: u8) -> char {
    if d < 10 {
        (d + 48) as char
    } else {
        (d + 87) as char
    }
}

/// Two lower-case hexadecimal digits per byte, high nibble first.
pub open spec fn hex_of(b: Seq<u8>) -> Seq<char>
    decreases b.len(),
{
    if b.len() == 0 {
        Seq::empty()
    } else {
        hex_of(b.drop_last()) + seq![hex_digit(b.last() / 16), hex_digit(b.last() % 16)]
    }
}

fn hex_char(d: u8) -> (c: char)
    requires
        d < 16,
    ensures
        c == hex_digit(d),
{
    if d < 10 {
        (d + 48) as char
    } else {
        (d + 87) as char
    }
}

/// Appends the hexadecimal text of `b` to `out`.
pub fn append_hex(out: &mut String, b: &[u8])
    ensures
        final(out)@ == old(out)@ + hex_of(b@),
{
    let mut i: usize = 0;
    while i < b.len()
        invariant
            i <= b@.len(),
            out@ == old(out)@ + hex_of(b@.subrange(0, i as int)),
        decreases b.len() - i,
    {
        let byte = b[i];
        push_char(out, hex_char(byte / 16));
        push_char(out, hex_char(byte % 16));
        proof {
            let next = b@.subrange(0, i + 1);
            assert(next.drop_last() =~= b@.subrange(0, i as int));
        }
        i = i + 1;
    }
    assert(b@.subrange(0, b@.len() as int) =~= b@);
}

/// The hexadecimal text of `b`.
pub fn to_hex(b: &[u8]) -> (r: String)
    ensures
        r@ == hex_of(b@),
{
    let mut s = String::new();
    append_hex(&mut s, b);
    assert(s@ =~= hex_of(b@));
    s
}


proof fn lemma_hex_len(b: Seq<u8>)
    ensures
        hex_of(b).len() == 2 * b.len(),
    decreases b.len(),
{
    if b.len() > 0 {
        lemma_hex_len(b.drop_last());
    }
}

/// `n` written as `k` bytes, least significant byte first.
pub open spec fn le_bytes(n: nat, k: nat) -> Seq<u8>
    decreases k,
{
    if k == 0 {
        Seq::empty()
    } else {
        seq![(n % 256) as u8] + le_bytes(n / 256, (k - 1) as nat)
    }
}

/// The eight-byte little-endian encoding of a 64-bit number.
pub open spec fn u64_bytes(n: u64) -> Seq<u8> {
    le_bytes(n as nat, 8)
}

/// A byte string preceded by its length, so that concatenated fields cannot
/// be confused with one another.
pub open spec fn framed(b: Seq<u8>) -> Seq<u8> {
    le_bytes(b.len(), 8) + b
}

/// The UTF-8 bytes of a text, framed by their length.
pub open spec fn framed_text(t: Seq<char>) -> Seq<u8> {
    framed(encode_utf8(t))
}

/// Appends the eight-byte little-endian encoding of `n` to `out`.
pub fn append_u64(out: &mut Vec<u8>, n: u64)
    ensures
        final(out)@ == old(out)@ + u64_bytes(n),
{
    let mut x: u64 = n;
    let mut i: usize = 0;
    while i < 8
        invariant
            i <= 8,
            out@ + le_bytes(x as nat, (8 - i) as nat) == old(out)@ + u64_bytes(n),
        decreases 8 - i,
    {
        let ghost before = out@;
        let ghost rest = le_bytes((x / 256) as nat, (8 - i - 1) as nat);
        out.push((x % 256) as u8);
        assert(le_bytes(x as nat, (8 - i) as nat) == seq![(x % 256) as u8] + rest);
        assert(out@ + rest =~= before + (seq![(x % 256) as u8] + rest));
        x = x / 256;
        i = i + 1;
    }
    assert(out@ + le_bytes(x as nat, 0) =~= out@);
}

/// Appends the bytes of `b` to `out`.
pub fn append_bytes(out: &mut Vec<u8>, b: &[u8])
    ensures
        final(out)@ == old(out)@ + b@,
{
    let mut i: usize = 0;
    while i < b.len()
        invariant
            i <= b@.len(),
            out@ == old(out)@ + b@.subrange(0, i as int),
        decreases b.len() - i,
    {
        out.push(b[i]);
        assert(out@ =~= old(out)@ + b@.subrange(0, i + 1));
        i = i + 1;
    }
    assert(b@.subrange(0, b@.len() as int) =~= b@);
}

/// Appends `b` preceded by its length to `out`.
pub fn append_framed(out: &mut Vec<u8>, b: &[u8])
    ensures
        final(out)@ == old(out)@ + framed(b@),
{
    append_u64(out, b.len() as u64);
    append_bytes(out, b);
    assert(out@ =~= old(out)@ + framed(b@));
}

/// Appends the UTF-8 bytes of `t`, preceded by their length, to `out`.
pub fn append_framed_text(out: &mut Vec<u8>, t: &str)
    ensures
        final(out)@ == old(out)@ + framed_text(t@),
{
    append_framed(out, t.as_bytes());
}

/// Domain tags that keep the digests of different kinds of input apart.
pub const TAG_LEAF: u8 = 0;
pub const TAG_NODE: u8 = 1;
pub const TAG_BLOCK: u8 = 2;
pub const TAG_TRANSACTION: u8 = 3;
pub const TAG_CROSS_CHAIN_PROOF: u8 = 4;
pub const TAG_SIGNATURE: u8 = 5;
pub const TAG_HASH_LOCK: u8 = 6;
pub const TAG_CONSENSUS_PROOF: u8 = 7;
pub const TAG_CONSENSUS_ID: u8 = 8;
pub const TAG_POLICY_ACTION: u8 = 9;
pub const TAG_CHAIN_TRANSACTION: u8 = 10;

/// What a digest over a text and a moment is taken of.
pub open spec fn stamped_preimage(tag: u8, text: Seq<char>, now: u64) -> Seq<u8> {
    seq![tag] + framed_text(text) + u64_bytes(now)
}

/// The digest of a text and a moment, under a domain tag.
pub open spec fn stamped_digest_of(tag: u8, text: Seq<char>, now: u64) -> Seq<u8> {
    sha256_of(stamped_preimage(tag, text, now))
}

/// A 64-character identifier: `0x` and the first 31 bytes of a digest in hex.
pub open spec fn prefixed_hex(d: Seq<u8>) -> Seq<char> {
    seq!['0', 'x'] + hex_of(d.subrange(0, 31))
}

/// The digest of `text` and `now` under the domain tag `tag`.
pub fn stamped_digest(tag: u8, text: &str, now: u64) -> (r: Vec<u8>)
    ensures
        r@ == stamped_digest_of(tag, text@, now),
        r@.len() == 32,
{
    let mut pre: Vec<u8> = Vec::new();
    pre.push(tag);
    append_framed_text(&mut pre, text);
    append_u64(&mut pre, now);
    assert(pre@ =~= stamped_preimage(tag, text@, now));
    sha256(pre.as_slice())
}

/// `0x` followed by the hex text of the first 31 bytes of `d`.
pub fn to_prefixed_hex(d: &[u8]) -> (r: String)
    requires
        d@.len() >= 31,
    ensures
        r@ == prefixed_hex(d@),
        r@.len() == 64,
{
    let mut s = String::new();
    push_char(&mut s, '0');
    push_char(&mut s, 'x');
    let mut head: Vec<u8> = Vec::new();
    append_bytes(&mut head, d.split_at(31).0);
    assert(head@ =~= d@.subrange(0, 31));
    append_hex(&mut s, head.as_slice());
    proof {
        lemma_hex_len(d@.subrange(0, 31));
    }
    assert(s@ =~= prefixed_hex(d@));
    s
}

/// The full hex text of `d`, with its length.
pub fn digest_hex(d: &[u8]) -> (r: String)
    requires
        d@.len() == 32,
    ensures
        r@ == hex_of(d@),
        r@.len() == 64,
{
    proof {
        lemma_hex_len(d@);
    }
    to_hex(d)
}


/// Seconds per block, on the block numbering that the pipeline records.
pub const BLOCK_TIME: u64 = 12;

/// The block hash of a transaction verified at `now`.
pub fn generate_block_hash(transaction_id: &str, now: u64) -> (r: String)
    ensures
        r@ == prefixed_hex(stamped_digest_of(TAG_BLOCK, transaction_id@, now)),
        r@.len() == 64,
{
    let d = stamped_digest(TAG_BLOCK, transaction_id, now);
    to_prefixed_hex(d.as_slice())
}

/// The block number recorded at `now`.
pub fn generate_block_number(now: u64) -> (r: u64)
    ensures
        r == now / BLOCK_TIME,
{
    now / BLOCK_TIME
}

/// The transaction hash of a cross-chain attestation made at `now`.
pub fn generate_transaction_hash(policy_id: &str, now: u64) -> (r: String)
    ensures
        r@ == prefixed_hex(stamped_digest_of(TAG_TRANSACTION, policy_id@, now)),
        r@.len() == 64,
{
    let d = stamped_digest(TAG_TRANSACTION, policy_id, now);
    to_prefixed_hex(d.as_slice())
}

/// The proof that a chain attaches to its evidence for a transaction.
pub fn generate_cross_chain_proof(transaction_id: &str, now: u64) -> (r: String)
    ensures
        r@ == hex_of(stamped_digest_of(TAG_CROSS_CHAIN_PROOF, transaction_id@, now)),
        r@.len() == 64,
{
    let d = stamped_digest(TAG_CROSS_CHAIN_PROOF, transaction_id, now);
    digest_hex(d.as_slice())
}

/// The digest that a post-quantum signature of a transaction signs.
pub fn generate_signature_hash(transaction_id: &str, now: u64) -> (r: String)
    ensures
        r@ == hex_of(stamped_digest_of(TAG_SIGNATURE, transaction_id@, now)),
        r@.len() == 64,
{
    let d = stamped_digest(TAG_SIGNATURE, transaction_id, now);
    digest_hex(d.as_slice())
}

/// The hash lock of an atomic swap of a transaction.
pub fn generate_hash_lock(transaction_id: &str, now: u64) -> (r: String)
    ensures
        r@ == hex_of(stamped_digest_of(TAG_HASH_LOCK, transaction_id@, now)),
        r@.len() == 64,
{
    let d = stamped_digest(TAG_HASH_LOCK, transaction_id, now);
    digest_hex(d.as_slice())
}

/// The proof data of the consensus reached on a transaction.
pub fn generate_consensus_proof(transaction_id: &str, now: u64) -> (r: String)
    ensures
        r@ == hex_of(stamped_digest_of(TAG_CONSENSUS_PROOF, transaction_id@, now)),
        r@.len() == 64,
{
    let d = stamped_digest(TAG_CONSENSUS_PROOF, transaction_id, now);
    digest_hex(d.as_slice())
}

/// `prefix` followed by `text`.
pub fn prefixed(prefix: &str, text: &str) -> (r: String)
    ensures
        r@ == prefix@ + text@,
{
    let mut s = String::from_str(prefix);
    s.append(text);
    s
}

} // verus!
