//! Cache keys: a stable identifier of a source file, derived from its path,
//! its modification time and its size. The file's content is never read.
//!
//! The key is a fingerprint of the metadata, not of the content: two files
//! with the same path, time and size share a key whatever they hold.

use sha2::{Digest, Sha256};
use vstd::prelude::*;
use vstd::utf8::{encode_utf8, encode_utf8_decode_utf8};

verus! {

/// A file to analyze, as its metadata describes it.
#[derive(Debug)]
pub struct SourceDescriptor {
    /// Path of the file, absolute or relative.
    pub path: String,
    /// Last modification, in whole seconds since the Unix epoch.
    pub modified: u64,
    /// Length of the file in bytes.
    pub size: u64,
}

/// Length of a digest in bytes.
pub const DIGEST_LEN: usize = 32;

/// Length of a cache key in characters.
pub const KEY_LEN: usize = 64;

/// The byte of `x` that stands `shift` bits above the lowest.
pub open spec fn byte_at(x: u64, shift: u64) -> u8 {
    ((x >> shift) & 0xff) as u8
}

/// The eight bytes of `x`, most significant first.
pub open spec fn be_bytes(x: u64) -> Seq<u8> {
    seq![
        byte_at(x, 56),
        byte_at(x, 48),
        byte_at(x, 40),
        byte_at(x, 32),
        byte_at(x, 24),
        byte_at(x, 16),
        byte_at(x, 8),
        byte_at(x, 0),
    ]
}

/// What is hashed for a source: the bytes of the path, then the modification
/// time and the size, each as eight big-endian bytes.
pub open spec fn key_message(path: Seq<char>, modified: u64, size: u64) -> Seq<u8> {
    encode_utf8(path) + be_bytes(modified) + be_bytes(size)
}

/// The SHA-256 digest of `message`.
pub uninterp spec fn sha256_digest(message: Seq<u8>) -> Seq<u8>;

/// The sixteen hexadecimal digits, lower case.
pub open spec fn hex_digits() -> Seq<char> {
    seq!['0', '1', '2', '3', '4', '5', '6', '7', '8', '9', 'a', 'b', 'c', 'd', 'e', 'f']
}

/// The `i`-th character of the hexadecimal text of `bytes`: the high half of
/// a byte comes before its low half.
pub open spec fn hex_char_at(bytes: Seq<u8>, i: int) -> char {
    if i % 2 == 0 {
        hex_digits()[(bytes[i / 2] >> 4) as int]
    } else {
        hex_digits()[(bytes[i / 2] & 0x0f) as int]
    }
}

/// The lower-case hexadecimal text of `bytes`, two characters per byte.
pub open spec fn hex_text(bytes: Seq<u8>) -> Seq<char> {
    Seq::new(2 * bytes.len(), |i: int| hex_char_at(bytes, i))
}

/// The cache key of a source with the given metadata.
pub open spec fn cache_key(path: Seq<char>, modified: u64, size: u64) -> Seq<char> {
    hex_text(sha256_digest(key_message(path, modified, size)))
}

impl SourceDescriptor {
    /// The cache key of this source.
    pub open spec fn key(&self) -> Seq<char> {
        cache_key(self.path@, self.modified, self.size)
    }
}

/// Calls `Sha256::digest` of the sha2 crate, the one-shot form of creating a
/// hasher, feeding it `message` and finalizing it. Trusted: the result is the
/// SHA-256 digest of the message, which is 32 bytes long.
#[verifier::external_body]
fn sha256(message: &[u8]) -> (digest: Vec<u8>)
    ensures
        digest@ == sha256_digest(message@),
        digest@.len() == DIGEST_LEN,
{
    Sha256::digest(message).to_vec()
}

/// Calls `hex::encode`. Trusted: the result holds two lower-case hexadecimal
/// digits for each byte, in order, the high half of the byte first.
#[verifier::external_body]
fn hex_encode(bytes: &[u8]) -> (text: String)
    ensures
        text@ == hex_text(bytes@),
{
    hex::encode(bytes)
}

/// The eight bytes of `x`, most significant first.
pub fn to_be_bytes(x: u64) -> (bytes: Vec<u8>)
    ensures
        bytes@ == be_bytes(x),
{
    let mut bytes: Vec<u8> = Vec::new();
    let mut shift: u64 = 64;
    while shift > 0
        invariant
            shift % 8 == 0,
            shift <= 64,
            bytes@.len() == (64 - shift) / 8,
            forall|i: int| 0 <= i < bytes@.len() ==> bytes@[i] == byte_at(x, (56 - 8 * i) as u64),
        decreases shift,
    {
        shift -= 8;
        let part: u64 = (x >> shift) & 0xff;
        assert(part <= 0xff) by (bit_vector)
            requires
                part == (x >> shift) & 0xff,
        ;
        bytes.push(part as u8);
    }
    assert(bytes@ =~= be_bytes(x));
    bytes
}

/// The bytes that are hashed for `source`.
pub fn build_key_message(source: &SourceDescriptor) -> (message: Vec<u8>)
    ensures
        message@ == key_message(source.path@, source.modified, source.size),
{
    let path_bytes: &[u8] = source.path.as_str().as_bytes();
    let mut message: Vec<u8> = Vec::new();
    message.extend_from_slice(path_bytes);
    assert(message@ =~= encode_utf8(source.path@));
    let mut modified: Vec<u8> = to_be_bytes(source.modified);
    message.append(&mut modified);
    let mut size: Vec<u8> = to_be_bytes(source.size);
    message.append(&mut size);
    message
}

/// The key that stands for a digest: its lower-case hexadecimal text.
pub fn key_of_digest(digest: &[u8]) -> (key: String)
    ensures
        key@ == hex_text(digest@),
        key@.len() == 2 * digest@.len(),
{
    hex_encode(digest)
}

/// Derives the cache key of `source` from its metadata: the hexadecimal text
/// of the SHA-256 digest of path, modification time and size. The same
/// metadata always gives the same key.
pub fn derive_key(source: &SourceDescriptor) -> (key: String)
    ensures
        key@ == source.key(),
        key@.len() == KEY_LEN,
{
    let message: Vec<u8> = build_key_message(source);
    let digest: Vec<u8> = sha256(message.as_slice());
    key_of_digest(digest.as_slice())
}

/// Whether two sources have the same path, modification time and size.
pub open spec fn same_metadata(a: SourceDescriptor, b: SourceDescriptor) -> bool {
    a.path@ == b.path@ && a.modified == b.modified && a.size == b.size
}

/// The same path, time and size always give the same key.
pub proof fn lemma_key_deterministic(a: SourceDescriptor, b: SourceDescriptor)
    requires
        same_metadata(a, b),
    ensures
        a.key() == b.key(),
{
}

/// A number is determined by its eight big-endian bytes.
pub proof fn lemma_be_bytes_injective(x: u64, y: u64)
    requires
        be_bytes(x) == be_bytes(y),
    ensures
        x == y,
{
    let a = be_bytes(x);
    let b = be_bytes(y);
    assert(a[0] == b[0] && a[1] == b[1] && a[2] == b[2] && a[3] == b[3] && a[4] == b[4] && a[5]
        == b[5] && a[6] == b[6] && a[7] == b[7]);
    assert(x == y) by (bit_vector)
        requires
            ((x >> 56) & 0xff) as u8 == ((y >> 56) & 0xff) as u8,
            ((x >> 48) & 0xff) as u8 == ((y >> 48) & 0xff) as u8,
            ((x >> 40) & 0xff) as u8 == ((y >> 40) & 0xff) as u8,
            ((x >> 32) & 0xff) as u8 == ((y >> 32) & 0xff) as u8,
            ((x >> 24) & 0xff) as u8 == ((y >> 24) & 0xff) as u8,
            ((x >> 16) & 0xff) as u8 == ((y >> 16) & 0xff) as u8,
            ((x >> 8) & 0xff) as u8 == ((y >> 8) & 0xff) as u8,
            ((x >> 0) & 0xff) as u8 == ((y >> 0) & 0xff) as u8,
    ;
}

/// What is hashed determines path, time and size: a change of any one of the
/// three changes the message.
pub proof fn lemma_key_message_injective(
    path1: Seq<char>,
    modified1: u64,
    size1: u64,
    path2: Seq<char>,
    modified2: u64,
    size2: u64,
)
    requires
        key_message(path1, modified1, size1) == key_message(path2, modified2, size2),
    ensures
        path1 == path2,
        modified1 == modified2,
        size1 == size2,
{
    let m1 = key_message(path1, modified1, size1);
    let m2 = key_message(path2, modified2, size2);
    let encoded1 = encode_utf8(path1);
    let encoded2 = encode_utf8(path2);
    let n = encoded1.len() as int;
    assert(m1.len() == encoded1.len() + 16);
    assert(m2.len() == encoded2.len() + 16);
    assert(encoded1 =~= m1.subrange(0, n));
    assert(encoded2 =~= m2.subrange(0, n));
    assert(be_bytes(modified1) =~= m1.subrange(n, n + 8));
    assert(be_bytes(modified2) =~= m2.subrange(n, n + 8));
    assert(be_bytes(size1) =~= m1.subrange(n + 8, n + 16));
    assert(be_bytes(size2) =~= m2.subrange(n + 8, n + 16));
    lemma_be_bytes_injective(modified1, modified2);
    lemma_be_bytes_injective(size1, size2);
    encode_utf8_decode_utf8(path1);
    encode_utf8_decode_utf8(path2);
}

/// Bytes are determined by their hexadecimal text.
pub proof fn lemma_hex_text_injective(a: Seq<u8>, b: Seq<u8>)
    requires
        hex_text(a) == hex_text(b),
    ensures
        a == b,
{
    assert(hex_text(a).len() == 2 * a.len());
    assert(hex_text(b).len() == 2 * b.len());
    assert forall|j: int| 0 <= j < a.len() implies a[j] == b[j] by {
        let x = a[j];
        let y = b[j];
        assert(hex_text(a)[2 * j] == hex_char_at(a, 2 * j));
        assert(hex_text(b)[2 * j] == hex_char_at(b, 2 * j));
        assert(hex_text(a)[2 * j + 1] == hex_char_at(a, 2 * j + 1));
        assert(hex_text(b)[2 * j + 1] == hex_char_at(b, 2 * j + 1));
        assert(x >> 4 < 16 && x & 0x0f < 16) by (bit_vector);
        assert(y >> 4 < 16 && y & 0x0f < 16) by (bit_vector);
        lemma_hex_digits_distinct((x >> 4) as int, (y >> 4) as int);
        lemma_hex_digits_distinct((x & 0x0f) as int, (y & 0x0f) as int);
        assert(x == y) by (bit_vector)
            requires
                x >> 4 == y >> 4,
                x & 0x0f == y & 0x0f,
        ;
    }
    assert(a =~= b);
}

/// No two of the sixteen digits are the same character.
pub proof fn lemma_hex_digits_distinct(i: int, j: int)
    requires
        0 <= i < 16,
        0 <= j < 16,
        hex_digits()[i] == hex_digits()[j],
    ensures
        i == j,
{
}

/// Two sources with different metadata share a key only where their messages
/// are a collision of SHA-256: different bytes with the same digest.
pub proof fn lemma_shared_key_is_collision(a: SourceDescriptor, b: SourceDescriptor)
    requires
        a.key() == b.key(),
        !same_metadata(a, b),
    ensures
        key_message(a.path@, a.modified, a.size) != key_message(b.path@, b.modified, b.size),
        sha256_digest(key_message(a.path@, a.modified, a.size)) == sha256_digest(
            key_message(b.path@, b.modified, b.size),
        ),
{
    let ma = key_message(a.path@, a.modified, a.size);
    let mb = key_message(b.path@, b.modified, b.size);
    lemma_hex_text_injective(sha256_digest(ma), sha256_digest(mb));
    if ma == mb {
        lemma_key_message_injective(a.path@, a.modified, a.size, b.path@, b.modified, b.size);
    }
}

} // verus!
