//! The key under which a URL is cached: the SHA3-256 digest of the URL's
//! bytes, written as 64 lowercase hexadecimal digits.

use vstd::prelude::*;
use sha3::Digest;

verus! {

/// The SHA3-256 digest of a byte string.
pub uninterp spec fn sha3_256(data: Seq<u8>) -> Seq<u8>;

/// Calls `sha3::Sha3_256::digest`. Not proved: the 32 bytes returned are
/// those that `sha3_256` names, a function of the input bytes alone.
#[verifier::external_body]
fn sha3_256_digest(data: &[u8]) -> (digest: [u8; 32])
    ensures
        digest@ == sha3_256(data@),
{
    sha3::Sha3_256::digest(data).into()
}

/// The sixteen lowercase hexadecimal digits, in order of value.
pub open spec fn hex_digits() -> Seq<char> {
    seq!['0', '1', '2', '3', '4', '5', '6', '7', '8', '9', 'a', 'b', 'c', 'd', 'e', 'f']
}

/// The digit at position `i` of the hexadecimal form of `data`: the high half
/// of byte `i / 2` at even positions, its low half at odd ones.
pub open spec fn hex_digit_at(data: Seq<u8>, i: int) -> char {
    if i % 2 == 0 {
        hex_digits()[data[i / 2] as int / 16]
    } else {
        hex_digits()[data[i / 2] as int % 16]
    }
}

/// The lowercase hexadecimal form of `data`: two digits for each byte.
pub open spec fn hex_of(data: Seq<u8>) -> Seq<char> {
    Seq::new(2 * data.len(), |i: int| hex_digit_at(data, i))
}

/// Calls `hex::encode`. Not proved: the string returned holds, for each byte
/// in order, the digit of its high four bits and then that of its low four
/// bits, taken from `0123456789abcdef`.
#[verifier::external_body]
fn hex_encode(data: &[u8]) -> (text: String)
    ensures
        text@ == hex_of(data@),
{
    hex::encode(data)
}

/// The cache key of a URL, as a sequence of characters.
pub open spec fn key_of(url: Seq<char>) -> Seq<char> {
    hex_of(sha3_256(vstd::utf8::encode_utf8(url)))
}

/// Whether `text` could be a cache key: 64 lowercase hexadecimal digits.
pub open spec fn is_key(text: Seq<char>) -> bool {
    &&& text.len() == 64
    &&& forall|i: int| 0 <= i < text.len() ==> hex_digits().contains(#[trigger] text[i])
}

/// Two byte strings have the same hexadecimal form only if they are equal.
pub proof fn lemma_hex_of_injective(a: Seq<u8>, b: Seq<u8>)
    requires
        hex_of(a) == hex_of(b),
    ensures
        a == b,
{
    assert(a.len() == b.len()) by {
        assert(hex_of(a).len() == 2 * a.len());
        assert(hex_of(b).len() == 2 * b.len());
    }
    assert forall|k: int| 0 <= k < a.len() implies a[k] == b[k] by {
        let x = a[k] as int;
        let y = b[k] as int;
        assert(hex_of(a)[2 * k] == hex_digits()[x / 16]);
        assert(hex_of(b)[2 * k] == hex_digits()[y / 16]);
        assert(hex_of(a)[2 * k + 1] == hex_digits()[x % 16]);
        assert(hex_of(b)[2 * k + 1] == hex_digits()[y % 16]);
        assert(x / 16 == y / 16);
        assert(x % 16 == y % 16);
    }
    assert(a =~= b);
}

/// Every hexadecimal form of 32 bytes is a key.
pub proof fn lemma_hex_of_is_key(data: Seq<u8>)
    requires
        data.len() == 32,
    ensures
        is_key(hex_of(data)),
{
    assert forall|i: int| 0 <= i < hex_of(data).len() implies hex_digits().contains(
        #[trigger] hex_of(data)[i],
    ) by {
        let byte = data[i / 2] as int;
        let nibble = if i % 2 == 0 { byte / 16 } else { byte % 16 };
        assert(0 <= nibble < 16);
        assert(hex_of(data)[i] == hex_digits()[nibble]);
    }
}

/// Writes a digest as a key: its lowercase hexadecimal form.
pub fn key_for_digest(digest: &[u8; 32]) -> (key: String)
    ensures
        key@ == hex_of(digest@),
        is_key(key@),
{
    let key = hex_encode(digest.as_slice());
    proof {
        lemma_hex_of_is_key(digest@);
    }
    key
}

/// Computes the cache key of `url`: the lowercase hexadecimal form of the
/// SHA3-256 digest of the URL's bytes, exactly as given.
pub fn cache_key(url: &str) -> (key: String)
    ensures
        key@ == key_of(url@),
        is_key(key@),
{
    let digest = sha3_256_digest(url.as_bytes());
    key_for_digest(&digest)
}

} // verus!
