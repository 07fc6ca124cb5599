//! The digest and the hexadecimal notation behind credential keys.

use sha2::{Digest, Sha256};
use vstd::prelude::*;

verus! {

/// The SHA-256 digest of `data`.
pub uninterp spec fn sha256_digest(data: Seq<u8>) -> Seq<u8>;

/// The length of a SHA-256 digest in bytes.
pub const DIGEST_LEN: usize = 32;

/// Computes a SHA-256 digest with `sha2::Sha256` (`new`, `update`,
/// `finalize`). Trusted: the result is the named digest of `data`, and it
/// has 32 bytes, the output size that the hasher's type fixes.
#[verifier::external_body]
pub(crate) fn sha256(data: &[u8]) -> (r: Vec<u8>)
    ensures
        r@ == sha256_digest(data@),
        r@.len() == DIGEST_LEN,
{
    let mut hasher = Sha256::new();
    hasher.update(data);
    hasher.finalize().to_vec()
}

/// The lower-case hexadecimal digit for `n`, which is below sixteen.
pub open spec fn hex_digit(n: nat) -> char {
    if n == 0 {
        '0'
    } else if n == 1 {
        '1'
    } else if n == 2 {
        '2'
    } else if n == 3 {
        '3'
    } else if n == 4 {
        '4'
    } else if n == 5 {
        '5'
    } else if n == 6 {
        '6'
    } else if n == 7 {
        '7'
    } else if n == 8 {
        '8'
    } else if n == 9 {
        '9'
    } else if n == 10 {
        'a'
    } else if n == 11 {
        'b'
    } else if n == 12 {
        'c'
    } else if n == 13 {
        'd'
    } else if n == 14 {
        'e'
    } else {
        'f'
    }
}

/// `bytes` in hexadecimal notation: two lower-case digits for each byte,
/// the high half first.
pub open spec fn hex_text(bytes: Seq<u8>) -> Seq<char>
    decreases bytes.len(),
{
    if bytes.len() == 0 {
        Seq::empty()
    } else {
        hex_text(bytes.drop_last()).push(hex_digit(bytes.last() as nat / 16)).push(
            hex_digit(bytes.last() as nat % 16),
        )
    }
}

/// Calls `hex::encode`. Trusted: the result holds, for each byte in order,
/// the digit of its high half and the digit of its low half, taken from
/// `0123456789abcdef`.
#[verifier::external_body]
pub(crate) fn hex_encode(data: &Vec<u8>) -> (r: String)
    ensures
        r@ == hex_text(data@),
{
    hex::encode(data)
}

/// Hexadecimal notation takes two characters for each byte.
pub proof fn lemma_hex_text_len(bytes: Seq<u8>)
    ensures
        hex_text(bytes).len() == 2 * bytes.len(),
    decreases bytes.len(),
{
    if bytes.len() > 0 {
        lemma_hex_text_len(bytes.drop_last());
    }
}

/// No character of a hexadecimal text is a colon.
pub proof fn lemma_hex_text_no_colon(bytes: Seq<u8>, i: int)
    requires
        0 <= i < hex_text(bytes).len(),
    ensures
        hex_text(bytes)[i] != ':',
    decreases bytes.len(),
{
    lemma_hex_text_len(bytes);
    if bytes.len() > 0 {
        lemma_hex_text_len(bytes.drop_last());
        if i < hex_text(bytes).len() - 2 {
            lemma_hex_text_no_colon(bytes.drop_last(), i);
        }
    }
}

/// Different digits below sixteen have different characters.
pub proof fn lemma_hex_digit_injective(a: nat, b: nat)
    requires
        a < 16,
        b < 16,
        hex_digit(a) == hex_digit(b),
    ensures
        a == b,
{
}

/// Hexadecimal notation loses nothing: equal texts come from equal bytes.
pub proof fn lemma_hex_text_injective(a: Seq<u8>, b: Seq<u8>)
    requires
        hex_text(a) == hex_text(b),
    ensures
        a == b,
    decreases a.len(),
{
    lemma_hex_text_len(a);
    lemma_hex_text_len(b);
    if a.len() == 0 {
        assert(a =~= b);
    } else {
        let ha = hex_text(a.drop_last());
        let hb = hex_text(b.drop_last());
        lemma_hex_text_len(a.drop_last());
        lemma_hex_text_len(b.drop_last());
        let n = hex_text(a).len() as int;
        assert(hex_text(a)[n - 1] == hex_digit(a.last() as nat % 16));
        assert(hex_text(b)[n - 1] == hex_digit(b.last() as nat % 16));
        assert(hex_text(a)[n - 2] == hex_digit(a.last() as nat / 16));
        assert(hex_text(b)[n - 2] == hex_digit(b.last() as nat / 16));
        lemma_hex_digit_injective(a.last() as nat % 16, b.last() as nat % 16);
        lemma_hex_digit_injective(a.last() as nat / 16, b.last() as nat / 16);
        assert(a.last() == b.last());
        assert(ha =~= hex_text(a).subrange(0, n - 2));
        assert(hb =~= hex_text(b).subrange(0, n - 2));
        lemma_hex_text_injective(a.drop_last(), b.drop_last());
        assert(a =~= a.drop_last().push(a.last()));
        assert(b =~= b.drop_last().push(b.last()));
    }
}

} // verus!
