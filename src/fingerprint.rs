//! Content fingerprints of the connection configuration, used as cache keys.
use vstd::prelude::*;

use sha2::Digest;

verus! {

/// The SHA-256 digest of `data`.
pub uninterp spec fn sha256_of(data: Seq<u8>) -> Seq<u8>;

/// Relies on sha2's `Sha256::digest`: the SHA-256 digest of `data`, which is
/// 32 bytes long and depends on `data` alone.
#[verifier::external_body]
fn sha256(data: &[u8]) -> (r: Vec<u8>)
    ensures
        r@ == sha256_of(data@),
        r@.len() == 32,
{
    sha2::Sha256::digest(data).to_vec()
}

/// Number of hexadecimal characters kept in a fingerprint.
pub const FINGERPRINT_LEN: usize = 5;

/// The lowercase hexadecimal digit for `n`, for `n < 16`.
pub open spec fn hex_char(n: u8) -> char {
    seq!['0', '1', '2', '3', '4', '5', '6', '7', '8', '9', 'a', 'b', 'c', 'd', 'e', 'f'][n as int]
}

/// Lowercase hexadecimal text of `b`: two digits per byte, high nibble first.
pub open spec fn hex_of(b: Seq<u8>) -> Seq<char>
    decreases b.len(),
{
    if b.len() == 0 {
        Seq::empty()
    } else {
        hex_of(b.drop_last()) + seq![hex_char(b.last() / 16), hex_char(b.last() % 16)]
    }
}

/// The fingerprint of a digest: the first five characters of its hexadecimal text.
pub open spec fn digest_fingerprint(digest: Seq<u8>) -> Seq<char> {
    hex_of(digest).subrange(0, FINGERPRINT_LEN as int)
}

/// The fingerprint of a configuration's content.
pub open spec fn fingerprint_of(content: Seq<u8>) -> Seq<char> {
    digest_fingerprint(sha256_of(content))
}

/// A lowercase hexadecimal digit.
pub open spec fn is_hex_char(c: char) -> bool {
    ('0' <= c && c <= '9') || ('a' <= c && c <= 'f')
}

/// A cache key: five lowercase hexadecimal digits.
pub open spec fn is_key(k: Seq<char>) -> bool {
    &&& k.len() == FINGERPRINT_LEN
    &&& forall|i: int| 0 <= i < k.len() ==> is_hex_char(#[trigger] k[i])
}

proof fn lemma_hex_char(n: u8)
    requires
        n < 16,
    ensures
        is_hex_char(hex_char(n)),
{
    let digits = seq!['0', '1', '2', '3', '4', '5', '6', '7', '8', '9', 'a', 'b', 'c', 'd', 'e', 'f'];
    assert(digits.len() == 16);
    assert(forall|i: int| 0 <= i < 16 ==> is_hex_char(#[trigger] digits[i]));
}

proof fn lemma_hex_chars(b: Seq<u8>)
    ensures
        forall|i: int| 0 <= i < hex_of(b).len() ==> is_hex_char(#[trigger] hex_of(b)[i]),
    decreases b.len(),
{
    if b.len() > 0 {
        let prev = hex_of(b.drop_last());
        let tail = seq![hex_char(b.last() / 16), hex_char(b.last() % 16)];
        lemma_hex_chars(b.drop_last());
        lemma_hex_char(b.last() / 16);
        lemma_hex_char(b.last() % 16);
        assert forall|i: int| 0 <= i < hex_of(b).len() implies is_hex_char(
            #[trigger] hex_of(b)[i],
        ) by {
            assert(hex_of(b) == prev + tail);
            if i < prev.len() {
                assert(hex_of(b)[i] == prev[i]);
            } else {
                assert(hex_of(b)[i] == tail[i - prev.len()]);
            }
        }
    }
}

proof fn lemma_hex_len(b: Seq<u8>)
    ensures
        hex_of(b).len() == 2 * b.len(),
    decreases b.len(),
{
    if b.len() > 0 {
        lemma_hex_len(b.drop_last());
    }
}

/// The text of one hexadecimal digit.
fn hex_digit(n: u8) -> (r: &'static str)
    requires
        n < 16,
    ensures
        r@ == seq![hex_char(n)],
        r.is_ascii(),
{
    let digits = "0123456789abcdef";
    proof {
        reveal_strlit("0123456789abcdef");
    }
    let n = n as usize;
    digits.substring_ascii(n, n + 1)
}

/// Lowercase hexadecimal text of `bytes`.
pub fn hex_encode(bytes: &[u8]) -> (r: String)
    ensures
        r@ == hex_of(bytes@),
        r.is_ascii(),
{
    let mut out = String::new();
    let mut i: usize = 0;
    while i < bytes.len()
        invariant
            i <= bytes@.len(),
            out@ == hex_of(bytes@.subrange(0, i as int)),
            out.is_ascii(),
        decreases bytes@.len() - i,
    {
        let b = bytes[i];
        let hi = hex_digit(b / 16);
        let lo = hex_digit(b % 16);
        let ghost before = out@;
        out.append(hi);
        out.append(lo);
        proof {
            let next = bytes@.subrange(0, i + 1);
            assert(next.drop_last() =~= bytes@.subrange(0, i as int));
            assert(out@ =~= before + seq![hex_char(b / 16), hex_char(b % 16)]);
        }
        i = i + 1;
    }
    assert(bytes@.subrange(0, i as int) =~= bytes@);
    out
}

/// The fingerprint of an already computed digest.
pub fn fingerprint_of_digest(digest: &[u8]) -> (r: String)
    requires
        digest@.len() >= 3,
    ensures
        r@ == digest_fingerprint(digest@),
        is_key(r@),
{
    let hex = hex_encode(digest);
    proof {
        lemma_hex_len(digest@);
        lemma_hex_chars(digest@);
    }
    hex.as_str().substring_ascii(0, FINGERPRINT_LEN).to_owned()
}

/// The fingerprint of a configuration's content; an unreadable or missing
/// configuration counts as empty content.
pub fn fingerprint(content: Option<&[u8]>) -> (r: String)
    ensures
        r@ == fingerprint_of(
            match content {
                Some(c) => c@,
                None => Seq::empty(),
            },
        ),
        is_key(r@),
{
    let digest = match content {
        Some(c) => sha256(c),
        None => {
            let empty: Vec<u8> = Vec::new();
            sha256(empty.as_slice())
        },
    };
    fingerprint_of_digest(digest.as_slice())
}

/// Equal configuration content always yields the same fingerprint: the
/// fingerprint depends on the content alone.
pub proof fn lemma_fingerprint_deterministic(a: Seq<u8>, b: Seq<u8>)
    requires
        a == b,
    ensures
        fingerprint_of(a) == fingerprint_of(b),
        digest_fingerprint(sha256_of(a)) == fingerprint_of(b),
{
}

} // verus!
