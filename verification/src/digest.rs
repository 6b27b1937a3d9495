//! SHA-256 digests of content that is read piece by piece.
use crate::text;
use sha2::Digest;
use vstd::prelude::*;

verus! {

/// The SHA-256 state of the `sha2` crate.
#[verifier::external_type_specification]
#[verifier::external_body]
pub struct ExSha256(sha2::Sha256);

/// What a SHA-256 state was fed, from its first byte to its last.
pub uninterp spec fn absorbed(hasher: sha2::Sha256) -> Seq<u8>;

/// The SHA-256 digest of some bytes.
pub uninterp spec fn sha256(content: Seq<u8>) -> Seq<u8>;

/// `sha2::Digest::new` on SHA-256: a state that was fed nothing.
#[verifier::external_body]
pub(crate) fn sha256_start() -> (hasher: sha2::Sha256)
    ensures
        absorbed(hasher) == Seq::<u8>::empty(),
{
    sha2::Sha256::new()
}

/// `sha2::Digest::update` on SHA-256: feeds bytes behind those that the state
/// was fed before.
#[verifier::external_body]
pub(crate) fn sha256_absorb(hasher: &mut sha2::Sha256, bytes: &[u8])
    ensures
        absorbed(*final(hasher)) == absorbed(*old(hasher)) + bytes@,
{
    hasher.update(bytes);
}

/// `sha2::Digest::finalize` on SHA-256: the digest, of 32 bytes, of everything
/// that the state was fed. The digest is a function of those bytes; which one
/// is not stated.
#[verifier::external_body]
pub(crate) fn sha256_finish(hasher: sha2::Sha256) -> (digest: [u8; 32])
    ensures
        digest@ == sha256(absorbed(hasher)),
{
    hasher.finalize().into()
}

/// The lower-case hexadecimal digit with the given value.
pub open spec fn hex_digit(value: int) -> char {
    if value == 0 {
        '0'
    } else if value == 1 {
        '1'
    } else if value == 2 {
        '2'
    } else if value == 3 {
        '3'
    } else if value == 4 {
        '4'
    } else if value == 5 {
        '5'
    } else if value == 6 {
        '6'
    } else if value == 7 {
        '7'
    } else if value == 8 {
        '8'
    } else if value == 9 {
        '9'
    } else if value == 10 {
        'a'
    } else if value == 11 {
        'b'
    } else if value == 12 {
        'c'
    } else if value == 13 {
        'd'
    } else if value == 14 {
        'e'
    } else {
        'f'
    }
}

/// The hexadecimal rendering of some bytes: two digits for each.
pub open spec fn hex_text(bytes: Seq<u8>) -> Seq<char>
    decreases bytes.len(),
{
    if bytes.len() == 0 {
        Seq::empty()
    } else {
        hex_text(bytes.drop_last()).push(hex_digit(bytes.last() as int / 16)).push(
            hex_digit(bytes.last() as int % 16),
        )
    }
}

fn hex_digit_of(value: u8) -> (c: char)
    requires
        value < 16,
    ensures
        c == hex_digit(value as int),
{
    match value {
        0 => '0',
        1 => '1',
        2 => '2',
        3 => '3',
        4 => '4',
        5 => '5',
        6 => '6',
        7 => '7',
        8 => '8',
        9 => '9',
        10 => 'a',
        11 => 'b',
        12 => 'c',
        13 => 'd',
        14 => 'e',
        _ => 'f',
    }
}

/// The hexadecimal rendering of some bytes.
pub fn hex(bytes: &[u8]) -> (all: String)
    ensures
        all@ == hex_text(bytes@),
{
    let mut all = String::new();
    let mut i: usize = 0;
    assert(bytes@.take(0) =~= Seq::<u8>::empty());
    while i < bytes.len()
        invariant
            i <= bytes@.len(),
            all@ == hex_text(bytes@.take(i as int)),
        decreases bytes@.len() - i,
    {
        proof {
            let next = bytes@.take(i + 1);
            assert(next.drop_last() =~= bytes@.take(i as int));
            assert(next.last() == bytes@[i as int]);
        }
        let byte: u8 = bytes[i];
        all.push(hex_digit_of(byte / 16));
        all.push(hex_digit_of(byte % 16));
        i = i + 1;
    }
    assert(bytes@.take(i as int) =~= bytes@);
    all
}

/// A hexadecimal rendering has two digits for each byte, and nothing else.
pub proof fn lemma_hex_text(bytes: Seq<u8>)
    ensures
        hex_text(bytes).len() == 2 * bytes.len(),
        text::all_hex(hex_text(bytes)),
    decreases bytes.len(),
{
    if bytes.len() > 0 {
        lemma_hex_text(bytes.drop_last());
    }
}

/// Content that is read piece by piece: its length so far and the state of its
/// digest.
pub struct ContentDigest {
    hasher: sha2::Sha256,
    bytes_read: u64,
}

impl ContentDigest {
    /// The bytes that were read.
    pub closed spec fn content(&self) -> Seq<u8> {
        absorbed(self.hasher)
    }

    /// The number of bytes that were read.
    pub closed spec fn length(&self) -> u64 {
        self.bytes_read
    }

    /// Nothing was read.
    pub fn new() -> (digest: ContentDigest)
        ensures
            digest.content() == Seq::<u8>::empty(),
            digest.length() == 0,
    {
        ContentDigest { hasher: sha256_start(), bytes_read: 0 }
    }

    /// Reads the next piece. The count stops at its limit.
    pub fn absorb(&mut self, piece: &[u8])
        ensures
            final(self).content() == old(self).content() + piece@,
            final(self).length() == (if old(self).length() + piece@.len() > u64::MAX {
                u64::MAX as int
            } else {
                old(self).length() + piece@.len()
            }),
    {
        let more: u64 = piece.len() as u64;
        self.bytes_read = self.bytes_read.saturating_add(more);
        sha256_absorb(&mut self.hasher, piece);
    }

    /// The number of bytes that were read.
    pub fn bytes_read(&self) -> (count: u64)
        ensures
            count == self.length(),
    {
        self.bytes_read
    }

    /// The digest of what was read, in hexadecimal.
    pub fn finish(self) -> (sha256_text: String)
        ensures
            sha256_text@ == hex_text(sha256(self.content())),
            crate::fingerprint::is_digest_text(sha256_text@),
    {
        let digest = sha256_finish(self.hasher);
        proof {
            lemma_hex_text(digest@);
        }
        hex(&digest)
    }
}

/// Two digests have the same hexadecimal text only where all of their bytes are
/// the same.
pub proof fn digests_are_told_apart_by_their_text(left: Seq<u8>, right: Seq<u8>)
    requires
        hex_text(left) == hex_text(right),
    ensures
        left == right,
    decreases left.len(),
{
    lemma_hex_text(left);
    lemma_hex_text(right);
    if left.len() > 0 {
        let text = hex_text(left);
        let n = text.len();
        let first = hex_text(left.drop_last());
        let second = hex_text(right.drop_last());
        lemma_hex_text(left.drop_last());
        lemma_hex_text(right.drop_last());
        assert(first =~= text.take(n - 2));
        assert(second =~= text.take(n - 2));
        assert(text[n - 2] == hex_digit(left.last() as int / 16));
        assert(text[n - 2] == hex_digit(right.last() as int / 16));
        assert(text[n - 1] == hex_digit(left.last() as int % 16));
        assert(text[n - 1] == hex_digit(right.last() as int % 16));
        digests_are_told_apart_by_their_text(left.drop_last(), right.drop_last());
        assert(left =~= left.drop_last().push(left.last()));
        assert(right =~= right.drop_last().push(right.last()));
    } else {
        assert(left =~= right);
    }
}

} // verus!
