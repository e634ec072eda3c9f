//! SHA-256 fingerprints in hexadecimal.

use vstd::prelude::*;
use vstd::utf8::*;

verus! {

/// The SHA-256 digest of a sequence of bytes.
pub uninterp spec fn sha256_bytes(data: Seq<u8>) -> Seq<u8>;

/// `sha2::Sha256::digest`: hashes the whole input at once. The contract names the digest, as a
/// function of the input bytes, and gives its length of 32 bytes; what the bytes are is not stated.
#[verifier::external_body]
fn sha256(data: &[u8]) -> (r: Vec<u8>)
    ensures
        r@ == sha256_bytes(data@),
        r@.len() == 32,
{
    <sha2::Sha256 as sha2::Digest>::digest(data).to_vec()
}

pub open spec fn hex_digit(n: int) -> char {
    if n < 10 {
        crate::text::digit_char(n as nat)
    } else if n == 10 {
        'a'
    } else if n == 11 {
        'b'
    } else if n == 12 {
        'c'
    } else if n == 13 {
        'd'
    } else if n == 14 {
        'e'
    } else {
        'f'
    }
}

/// Two lower-case hexadecimal digits for each byte, the high one first.
pub open spec fn hex(bytes: Seq<u8>) -> Seq<char> {
    Seq::new(
        2 * bytes.len(),
        |i: int|
            if i % 2 == 0 {
                hex_digit(bytes[i / 2] as int / 16)
            } else {
                hex_digit(bytes[i / 2] as int % 16)
            },
    )
}

/// The fingerprint of a text: the digest of its UTF-8 bytes, in hexadecimal.
pub open spec fn text_hash(value: Seq<char>) -> Seq<char> {
    hex(sha256_bytes(encode_utf8(value)))
}

fn hex_digit_of(n: u8) -> (r: char)
    requires
        n < 16,
    ensures
        r == hex_digit(n as int),
{
    match n {
        0 => '0',
        1 => '1',
        2 => '2',
        3 => '3',
        4 => '4',
        5 => '5',
        6 => '6',
        7 => '7',
        8 => '8',
        9 => '9',
        10 => 'a',
        11 => 'b',
        12 => 'c',
        13 => 'd',
        14 => 'e',
        _ => 'f',
    }
}

pub fn hex_of(bytes: &Vec<u8>) -> (r: String)
    ensures
        r@ == hex(bytes@),
{
    let mut r = String::new();
    let mut i: usize = 0;
    while i < bytes.len()
        invariant
            i <= bytes.len(),
            r@ == hex(bytes@.subrange(0, i as int)),
        decreases bytes.len() - i,
    {
        let b: u8 = bytes[i];
        r.push(hex_digit_of(b / 16));
        r.push(hex_digit_of(b % 16));
        i = i + 1;
        assert(r@ =~= hex(bytes@.subrange(0, i as int)));
    }
    assert(bytes@.subrange(0, bytes@.len() as int) =~= bytes@);
    r
}

pub fn hash_text(value: &str) -> (r: String)
    ensures
        r@ == text_hash(value@),
        r@.len() == 64,
{
    let digest = sha256(value.as_bytes());
    hex_of(&digest)
}

} // verus!
