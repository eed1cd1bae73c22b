use vstd::prelude::*;
use sha2::Digest;
use crate::text::{chars_of, has_prefix, is_lower_hex_char, is_lower_sha256_hex, lower_hex_char, sha256_hex_text, slice_chars, starts_with};

verus! {

/// The SHA-256 digest of a byte string, as `sha2` computes it.
pub uninterp spec fn sha256_digest(data: Seq<u8>) -> Seq<u8>;

/// `sha2::Sha256::digest`: the 32-byte SHA-256 digest of `data`, which depends on the bytes
/// alone. The digest is named, not defined: nothing here restates the hash algorithm.
#[verifier::external_body]
pub(crate) fn sha256(data: &[u8]) -> (r: Vec<u8>)
    ensures
        r@ == sha256_digest(data@),
        r@.len() == 32,
{
    sha2::Sha256::digest(data).to_vec()
}

/// One lowercase hexadecimal digit for a value below 16.
pub open spec fn hex_digit(n: u8) -> char {
    if n < 10 {
        (48 + n) as char
    } else {
        (87 + n) as char
    }
}

/// Lowercase hexadecimal text of a byte string, two digits per byte (the `{:x}` form).
pub open spec fn hex_of(bytes: Seq<u8>) -> Seq<char>
    decreases bytes.len(),
{
    if bytes.len() == 0 {
        Seq::empty()
    } else {
        hex_of(bytes.drop_last()) + seq![hex_digit(bytes.last() / 16), hex_digit(bytes.last() % 16)]
    }
}

/// The text `sha256:` that opens every fingerprint.
pub open spec fn sha256_prefix() -> Seq<char> {
    "sha256:"@
}

/// The fingerprint text of a digest: `sha256:` and its lowercase hex.
pub open spec fn fingerprint_of_digest(digest: Seq<u8>) -> Seq<char> {
    sha256_prefix() + hex_of(digest)
}

/// The content fingerprint of a byte string: `sha256:` and the hex of its SHA-256 digest.
pub open spec fn content_fingerprint(bytes: Seq<u8>) -> Seq<char> {
    fingerprint_of_digest(sha256_digest(bytes))
}

/// A well-formed fingerprint: `sha256:` followed by exactly 64 lowercase hex digits.
pub open spec fn is_fingerprint(s: Seq<char>) -> bool {
    has_prefix(s, sha256_prefix()) && is_lower_sha256_hex(s.skip(sha256_prefix().len() as int))
}

/// The hex digits of a fingerprint, after its `sha256:` prefix.
pub open spec fn fingerprint_hex(s: Seq<char>) -> Seq<char> {
    s.skip(sha256_prefix().len() as int)
}

/// The bytes of an ASCII text, one per character.
pub open spec fn ascii_bytes(s: Seq<char>) -> Seq<u8> {
    s.map_values(|c: char| c as u8)
}

/// A commit marker: the fingerprint of the record bytes and one line feed, as bytes.
pub open spec fn marker_of(bytes: Seq<u8>) -> Seq<u8> {
    ascii_bytes(content_fingerprint(bytes).push('\n'))
}

/// The hex text of a byte string has two digits per byte, each a lowercase hex digit.
pub proof fn lemma_hex_of(bytes: Seq<u8>)
    ensures
        hex_of(bytes).len() == 2 * bytes.len(),
        forall|i: int| 0 <= i < hex_of(bytes).len() ==> is_lower_hex_char(#[trigger] hex_of(bytes)[i]),
        forall|i: int| 0 <= i < hex_of(bytes).len() ==> (#[trigger] hex_of(bytes)[i] as u32) < 128,
    decreases bytes.len(),
{
    if bytes.len() > 0 {
        lemma_hex_of(bytes.drop_last());
        let b = bytes.last();
        assert(b / 16 < 16);
        assert(b % 16 < 16);
    }
}

/// The prefix `sha256:` has seven characters.
pub proof fn lemma_sha256_prefix()
    ensures
        sha256_prefix().len() == 7,
        sha256_prefix() == seq!['s', 'h', 'a', '2', '5', '6', ':'],
{
    reveal_strlit("sha256:");
    assert(sha256_prefix() =~= seq!['s', 'h', 'a', '2', '5', '6', ':']);
}

/// The fingerprint text of a 32-byte digest is a well-formed fingerprint of 71 characters,
/// and its hex part is the digest's hex text.
pub proof fn lemma_fingerprint_of_digest(digest: Seq<u8>)
    requires
        digest.len() == 32,
    ensures
        is_fingerprint(fingerprint_of_digest(digest)),
        fingerprint_of_digest(digest).len() == 71,
        fingerprint_hex(fingerprint_of_digest(digest)) == hex_of(digest),
{
    lemma_hex_of(digest);
    lemma_sha256_prefix();
    let f = fingerprint_of_digest(digest);
    assert(f.take(7) =~= sha256_prefix());
    assert(f.skip(7) =~= hex_of(digest));
}

fn hex_digit_char(n: u8) -> (r: char)
    requires
        n < 16,
    ensures
        r == hex_digit(n),
{
    if n < 10 {
        (48 + n) as char
    } else {
        (87 + n) as char
    }
}

/// Lowercase hexadecimal text of a byte string.
pub fn hex_text(bytes: &[u8]) -> (r: Vec<char>)
    ensures
        r@ == hex_of(bytes@),
{
    let mut out: Vec<char> = Vec::new();
    let mut i: usize = 0;
    assert(bytes@.take(0) =~= Seq::<u8>::empty());
    while i < bytes.len()
        invariant
            i <= bytes.len(),
            out@ == hex_of(bytes@.take(i as int)),
        decreases bytes.len() - i,
    {
        let b = bytes[i];
        out.push(hex_digit_char(b / 16));
        out.push(hex_digit_char(b % 16));
        assert(bytes@.take(i + 1).drop_last() =~= bytes@.take(i as int));
        i = i + 1;
    }
    assert(bytes@.take(bytes@.len() as int) =~= bytes@);
    out
}

/// The characters `sha256:`.
pub fn sha256_prefix_chars() -> (r: Vec<char>)
    ensures
        r@ == sha256_prefix(),
{
    chars_of("sha256:")
}

/// The fingerprint text of a digest.
pub fn fingerprint_text(digest: &[u8]) -> (r: Vec<char>)
    ensures
        r@ == fingerprint_of_digest(digest@),
{
    let mut out = sha256_prefix_chars();
    let mut hex = hex_text(digest);
    out.append(&mut hex);
    out
}

/// The content fingerprint of bytes: `sha256:` and the hex of their SHA-256 digest.
pub fn fingerprint_of_bytes(bytes: &[u8]) -> (r: Vec<char>)
    ensures
        r@ == content_fingerprint(bytes@),
        is_fingerprint(r@),
        r@.len() == 71,
{
    let digest = sha256(bytes);
    proof {
        lemma_fingerprint_of_digest(digest@);
    }
    fingerprint_text(digest.as_slice())
}

/// Whether a text is a well-formed fingerprint (`sha256:` and 64 lowercase hex digits).
pub fn is_fingerprint_chars(s: &Vec<char>) -> (r: bool)
    ensures
        r == is_fingerprint(s@),
{
    let prefix = sha256_prefix_chars();
    if !starts_with(s, &prefix) {
        return false;
    }
    let rest = slice_chars(s, prefix.len(), s.len());
    assert(rest@ =~= s@.skip(sha256_prefix().len() as int));
    sha256_hex_text(&rest)
}

/// The bytes of an ASCII text.
pub fn ascii_bytes_of(s: &Vec<char>) -> (r: Vec<u8>)
    requires
        forall|i: int| 0 <= i < s@.len() ==> (#[trigger] s@[i] as u32) < 128,
    ensures
        r@ == ascii_bytes(s@),
{
    let mut out: Vec<u8> = Vec::new();
    let mut i: usize = 0;
    while i < s.len()
        invariant
            i <= s.len(),
            forall|j: int| 0 <= j < s@.len() ==> (#[trigger] s@[j] as u32) < 128,
            out@ == ascii_bytes(s@.take(i as int)),
        decreases s.len() - i,
    {
        let c = s[i];
        out.push(c as u8);
        assert(ascii_bytes(s@.take(i + 1)) =~= ascii_bytes(s@.take(i as int)).push(c as u8));
        i = i + 1;
    }
    assert(s@.take(s@.len() as int) =~= s@);
    out
}

/// The commit marker of record bytes: their fingerprint text and a line feed.
pub fn commit_marker(bytes: &[u8]) -> (r: Vec<u8>)
    ensures
        r@ == marker_of(bytes@),
        r@.len() == 72,
{
    let digest = sha256(bytes);
    proof {
        lemma_fingerprint_of_digest(digest@);
        lemma_hex_of(digest@);
        lemma_sha256_prefix();
    }
    let mut text = fingerprint_text(digest.as_slice());
    text.push('\n');
    proof {
        let t = text@;
        assert forall|i: int| 0 <= i < t.len() implies (#[trigger] t[i] as u32) < 128 by {
            if i < 7 {
                assert(t[i] == sha256_prefix()[i]);
            } else if i < 71 {
                assert(t[i] == hex_of(digest@)[i - 7]);
            }
        }
    }
    ascii_bytes_of(&text)
}

} // verus!
