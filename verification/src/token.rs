//! Session tokens: the digest of thirty-two random bytes, written in hex.
use vstd::prelude::*;

verus! {

/// The lower-case hexadecimal digit for a value below sixteen.
pub open spec fn hex_digit(value: int) -> char {
    if value == 0 {
        '0'
    } else if value == 1 {
        '1'
    } else if value == 2 {
        '2'
    } else if value == 3 {
        '3'
    } else if value == 4 {
        '4'
    } else if value == 5 {
        '5'
    } else if value == 6 {
        '6'
    } else if value == 7 {
        '7'
    } else if value == 8 {
        '8'
    } else if value == 9 {
        '9'
    } else if value == 10 {
        'a'
    } else if value == 11 {
        'b'
    } else if value == 12 {
        'c'
    } else if value == 13 {
        'd'
    } else if value == 14 {
        'e'
    } else {
        'f'
    }
}

/// Bytes written in lower-case hexadecimal: two digits for each byte, the
/// high half first.
pub open spec fn hex_text(bytes: Seq<u8>) -> Seq<char> {
    Seq::new(
        2 * bytes.len(),
        |i: int|
            if i % 2 == 0 {
                hex_digit(bytes[i / 2] as int / 16)
            } else {
                hex_digit(bytes[i / 2] as int % 16)
            },
    )
}

/// The SHA-256 digest of a byte string, as `Sha256::digest` of the sha2
/// crate computes it.
pub uninterp spec fn sha256(data: Seq<u8>) -> Seq<u8>;

/// Computes the SHA-256 digest of `data` with `sha2::Sha256`.
///
/// Believed of the sha2 crate: the digest depends on the data alone and is
/// thirty-two bytes long.
#[verifier::external_body]
fn digest(data: &[u8]) -> (out: Vec<u8>)
    ensures
        out@ == sha256(data@),
        out@.len() == 32,
{
    <sha2::Sha256 as sha2::Digest>::digest(data).to_vec()
}

/// Writes bytes in hexadecimal with `hex::encode`.
///
/// Believed of the hex crate: each byte becomes two lower-case digits, the
/// high half first.
#[verifier::external_body]
fn encode_hex(data: &[u8]) -> (text: String)
    ensures
        text@ == hex_text(data@),
{
    hex::encode(data)
}

/// Draws thirty-two bytes from the thread's random number generator with
/// `rand::thread_rng().gen()`. Nothing is claimed of the bytes.
#[verifier::external_body]
pub(crate) fn fresh_seed() -> (seed: [u8; 32]) {
    rand::Rng::gen(&mut rand::thread_rng())
}

/// The token that is derived from a seed.
pub open spec fn token_text(seed: Seq<u8>) -> Seq<char> {
    hex_text(sha256(seed))
}

/// Derives a session token from a seed: the SHA-256 digest of the seed in
/// hexadecimal, sixty-four characters long.
pub fn session_token(seed: &[u8; 32]) -> (token: String)
    ensures
        token@ == token_text(seed@),
        token@.len() == 64,
{
    let out = digest(seed.as_slice());
    encode_hex(out.as_slice())
}

} // verus!
