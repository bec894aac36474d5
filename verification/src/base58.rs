//! Base-58 text, as the `bs58` crate reads and writes it with its default
//! alphabet.
//!
//! The codec itself is not modelled here. Its results have names,
//! [`base58_decoding`] and [`base58_encoding`], and the two functions that
//! call the crate are believed to return what the names stand for.

use vstd::prelude::*;

verus! {

/// Whether `c` belongs to the default base-58 alphabet: the digits without
/// `0`, the capitals without `I` and `O`, the small letters without `l`.
pub open spec fn is_base58_char(c: char) -> bool {
    ||| ('1' <= c && c <= '9')
    ||| ('A' <= c && c <= 'Z' && c != 'I' && c != 'O')
    ||| ('a' <= c && c <= 'z' && c != 'l')
}

/// Whether every character of `text` belongs to the base-58 alphabet.
pub open spec fn is_base58_text(text: Seq<char>) -> bool {
    forall|i: int| 0 <= i < text.len() ==> is_base58_char(#[trigger] text[i])
}

/// The bytes that `bs58` decodes `text` to, where it decodes it at all.
pub uninterp spec fn base58_decoding(text: Seq<char>) -> Option<Seq<u8>>;

/// The text that `bs58` encodes `bytes` to.
pub uninterp spec fn base58_encoding(bytes: Seq<u8>) -> Seq<char>;

/// Calls `bs58::decode(text).into_vec()`.
///
/// Believed of it: the result is the decoding that [`base58_decoding`] names,
/// and decoding succeeds exactly when every character of the text belongs to
/// the alphabet. The crate reports any other character as an error, and
/// `into_vec` sizes its own buffer, so no other error can arise.
#[verifier::external_body]
pub(crate) fn decode(text: &str) -> (bytes: Option<Vec<u8>>)
    ensures
        bytes is Some <==> is_base58_text(text@),
        match bytes {
            Some(b) => base58_decoding(text@) == Some(b@),
            None => base58_decoding(text@) is None,
        },
{
    match bs58::decode(text).into_vec() {
        Ok(decoded) => Some(decoded),
        Err(_) => None,
    }
}

/// Calls `bs58::encode(bytes).into_string()`.
///
/// Believed of it: the result is the text that [`base58_encoding`] names.
#[verifier::external_body]
pub(crate) fn encode(bytes: &[u8]) -> (text: String)
    ensures
        text@ == base58_encoding(bytes@),
{
    bs58::encode(bytes).into_string()
}

} // verus!
