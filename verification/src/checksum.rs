//! SHA-256 content checksums in the `sha256:<lowercase hex>` form that Drive
//! uploads carry.

use vstd::prelude::*;
use sha2::Digest;
use crate::text::{push_char, strip_prefix_or_keep, strip_prefix_or_keep_str};

verus! {

/// The SHA-256 digest of `data`, as `sha2::Sha256` computes it.
pub uninterp spec fn sha256_digest(data: Seq<u8>) -> Seq<u8>;

/// Calls `sha2::Sha256::digest`: the result is the digest of `data`, which is
/// 32 bytes long.
#[verifier::external_body]
fn sha256(data: &[u8]) -> (digest: Vec<u8>)
    ensures
        digest@ == sha256_digest(data@),
        digest@.len() == 32,
{
    sha2::Sha256::digest(data).to_vec()
}

/// The lowercase hexadecimal digit for `n` (`n < 16`).
pub open spec fn hex_digit(n: nat) -> char {
    if n < 10 {
        ((n + 48) as u8) as char
    } else {
        ((n + 87) as u8) as char
    }
}

/// Lowercase hexadecimal rendering of `bytes`, two digits per byte (`{:x}`).
pub open spec fn hex_lower(bytes: Seq<u8>) -> Seq<char>
    decreases bytes.len(),
{
    if bytes.len() == 0 {
        seq![]
    } else {
        hex_lower(bytes.drop_last()) + seq![
            hex_digit((bytes.last() / 16) as nat),
            hex_digit((bytes.last() % 16) as nat),
        ]
    }
}

/// The prefix that marks a SHA-256 checksum.
pub const SHA256_PREFIX: &'static str = "sha256:";

/// The prefixed checksum of `body`.
pub open spec fn sha256_prefixed_spec(body: Seq<u8>) -> Seq<char> {
    SHA256_PREFIX@ + hex_lower(sha256_digest(body))
}

fn hex_digit_char(n: u8) -> (c: char)
    requires
        n < 16,
    ensures
        c == hex_digit(n as nat),
{
    if n < 10 {
        let b: u8 = n + 48;
        b as char
    } else {
        let b: u8 = n + 87;
        b as char
    }
}

/// Lowercase hexadecimal rendering of `bytes`.
pub fn hex_lower_string(bytes: &[u8]) -> (s: String)
    ensures
        s@ == hex_lower(bytes@),
{
    let mut s = String::new();
    let n = bytes.len();
    let mut i: usize = 0;
    while i < n
        invariant
            i <= n == bytes@.len(),
            s@ == hex_lower(bytes@.take(i as int)),
        decreases n - i,
    {
        let b = bytes[i];
        push_char(&mut s, hex_digit_char(b / 16));
        push_char(&mut s, hex_digit_char(b % 16));
        assert(bytes@.take(i + 1).drop_last() == bytes@.take(i as int));
        i = i + 1;
    }
    assert(bytes@.take(n as int) == bytes@);
    s
}

/// The checksum of `body`: `sha256:` followed by the lowercase hex digest.
pub fn sha256_prefixed(body: &[u8]) -> (checksum: String)
    ensures
        checksum@ == sha256_prefixed_spec(body@),
        checksum@.len() == SHA256_PREFIX@.len() + 64,
{
    let digest = sha256(body);
    proof {
        lemma_hex_lower_len(digest@);
    }
    let hex = hex_lower_string(digest.as_slice());
    let mut checksum = String::from_str(SHA256_PREFIX);
    checksum.append(hex.as_str());
    checksum
}

/// The hex part of a checksum: the `sha256:` prefix removed when present.
pub fn checksum_hex(checksum: &str) -> (hex: String)
    ensures
        hex@ == strip_prefix_or_keep(checksum@, SHA256_PREFIX@),
{
    strip_prefix_or_keep_str(checksum, SHA256_PREFIX)
}

/// Hex rendering takes two characters per byte.
pub proof fn lemma_hex_lower_len(bytes: Seq<u8>)
    ensures
        hex_lower(bytes).len() == 2 * bytes.len(),
    decreases bytes.len(),
{
    if bytes.len() > 0 {
        lemma_hex_lower_len(bytes.drop_last());
    }
}

/// Law: removing the prefix from a body's checksum gives back the lowercase hex
/// digest of the body.
pub proof fn law_checksum_hex_of_prefixed(body: Seq<u8>)
    ensures
        strip_prefix_or_keep(sha256_prefixed_spec(body), SHA256_PREFIX@) == hex_lower(
            sha256_digest(body),
        ),
{
    let p = SHA256_PREFIX@;
    let h = hex_lower(sha256_digest(body));
    assert((p + h).take(p.len() as int) == p);
    assert((p + h).skip(p.len() as int) == h);
}

} // verus!
