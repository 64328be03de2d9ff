//! The block cipher and the text encoding behind the parameter header.

use vstd::prelude::*;
use base64::Engine;

verus! {

/// The ciphertext of `data` under AES with a 128-bit key in cipher-block
/// chaining mode, PKCS#7 padding included; of `iv` the first block counts.
pub uninterp spec fn aes128_cbc(key: Seq<u8>, iv: Seq<u8>, data: Seq<u8>) -> Seq<u8>;

/// The standard base64 text of `bytes`, with padding.
pub uninterp spec fn base64_standard(bytes: Seq<u8>) -> Seq<char>;

/// The length of `n` bytes once they are padded to whole blocks: at least
/// one byte of padding is always added.
pub open spec fn padded_len(n: nat) -> nat {
    (n + 16 - n % 16) as nat
}

/// The length of the base64 text of `n` bytes.
pub open spec fn encoded_len(n: nat) -> nat {
    (n + 2) / 3 * 4
}

/// Calls `libaes::Cipher::new_128` and then `cbc_encrypt` on the cipher. The
/// result is a function of key, vector and data; it is as long as the padded
/// data. The crate panics on a vector of less than one block, and the
/// padded copy must be one that a `Vec` can hold.
#[verifier::external_body]
pub(crate) fn cbc_encrypt_128(key: &[u8; 16], iv: &[u8], data: &[u8]) -> (out: Vec<u8>)
    requires
        iv@.len() >= 16,
        data@.len() + 16 <= isize::MAX,
    ensures
        out@ == aes128_cbc(key@, iv@, data@),
        out@.len() == padded_len(data@.len()),
{
    libaes::Cipher::new_128(key).cbc_encrypt(iv, data)
}

/// A character of the standard base64 alphabet: a letter, a digit, `+` or
/// `/`.
pub open spec fn is_base64_char(c: char) -> bool {
    ('A' <= c && c <= 'Z') || ('a' <= c && c <= 'z') || ('0' <= c && c <= '9') || c == '+' || c
        == '/'
}

/// How many `=` end the base64 text of `n` bytes.
pub open spec fn padding_len(n: nat) -> nat {
    ((3 - n % 3) % 3) as nat
}

/// The shape of the standard base64 text of `n` bytes: four characters for
/// every three bytes begun, all of the alphabet but for the `=` that fill
/// the last four.
pub open spec fn is_base64_text(text: Seq<char>, n: nat) -> bool {
    &&& text.len() == encoded_len(n)
    &&& forall|i: int|
        0 <= i < text.len() - padding_len(n) ==> is_base64_char(#[trigger] text[i])
    &&& forall|i: int| text.len() - padding_len(n) <= i < text.len() ==> #[trigger] text[i] == '='
}

/// Calls `encode` of `base64::engine::general_purpose::STANDARD`. The result
/// is a function of the bytes; it has the length that the crate's
/// `encoded_len` gives, holds characters of the standard alphabet, and ends
/// with the padding. The text must be one that a `String` can hold.
#[verifier::external_body]
pub(crate) fn base64_encode(bytes: &[u8]) -> (out: String)
    requires
        encoded_len(bytes@.len()) <= isize::MAX,
    ensures
        out@ == base64_standard(bytes@),
        is_base64_text(out@, bytes@.len()),
{
    base64::engine::general_purpose::STANDARD.encode(bytes)
}

} // verus!
