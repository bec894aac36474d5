//! Account identifiers and transfer signatures: byte strings of a fixed
//! width, written as base-58 text.

use vstd::prelude::*;
use crate::base58::{base58_decoding, base58_encoding, decode, encode, is_base58_text};

verus! {

/// The number of bytes in a public key.
pub const PUBLIC_KEY_BYTES: usize = 32;

/// The number of bytes in a signature.
pub const SIGNATURE_BYTES: usize = 64;

/// What `text` decodes to, provided that it decodes to exactly `width` bytes.
pub open spec fn bytes_of_text(text: Seq<char>, width: nat) -> Option<Seq<u8>> {
    match base58_decoding(text) {
        Some(bytes) => if bytes.len() == width {
            Some(bytes)
        } else {
            None
        },
        None => None,
    }
}

/// Decodes `text` and keeps the result only if it has exactly `width` bytes.
/// Text with a character outside the base-58 alphabet is never kept.
pub fn decode_exact(text: &str, width: usize) -> (bytes: Option<Vec<u8>>)
    ensures
        match bytes {
            Some(b) => bytes_of_text(text@, width as nat) == Some(b@),
            None => bytes_of_text(text@, width as nat) is None,
        },
        bytes is Some ==> is_base58_text(text@),
{
    match decode(text) {
        Some(decoded) => {
            if decoded.len() == width {
                Some(decoded)
            } else {
                None
            }
        },
        None => None,
    }
}

/// The identifier of an account. Two keys are the same account exactly when
/// their bytes are equal.
#[derive(Clone, Copy, Debug, PartialEq, Eq, Hash)]
pub struct PublicKey {
    pub bytes: [u8; 32],
}

impl View for PublicKey {
    type V = Seq<u8>;

    open spec fn view(&self) -> Seq<u8> {
        self.bytes@
    }
}

impl PublicKey {
    /// The key made of the bytes of `bytes`, if there are exactly
    /// [`PUBLIC_KEY_BYTES`] of them.
    pub fn from_slice(bytes: &[u8]) -> (key: Option<PublicKey>)
        ensures
            key is Some <==> bytes@.len() == PUBLIC_KEY_BYTES,
            key matches Some(k) ==> k@ == bytes@,
    {
        if bytes.len() != PUBLIC_KEY_BYTES {
            return None;
        }
        let mut held = [0u8; 32];
        let mut i: usize = 0;
        while i < 32
            invariant
                i <= 32,
                bytes@.len() == 32,
                forall|j: int| 0 <= j < i ==> held@[j] == bytes@[j],
            decreases 32 - i,
        {
            held[i] = bytes[i];
            i = i + 1;
        }
        assert(held@ =~= bytes@);
        Some(PublicKey { bytes: held })
    }

    /// Reads a key from base-58 text. The text is accepted exactly when it
    /// decodes to [`PUBLIC_KEY_BYTES`] bytes, which are then the key. Text
    /// with a character outside the alphabet is never accepted.
    pub fn from_base58(text: &str) -> (key: Option<PublicKey>)
        ensures
            match key {
                Some(k) => bytes_of_text(text@, PUBLIC_KEY_BYTES as nat) == Some(k@),
                None => bytes_of_text(text@, PUBLIC_KEY_BYTES as nat) is None,
            },
            key is Some ==> is_base58_text(text@),
    {
        match decode_exact(text, PUBLIC_KEY_BYTES) {
            Some(decoded) => PublicKey::from_slice(decoded.as_slice()),
            None => None,
        }
    }

    /// The key as base-58 text.
    pub fn to_base58(&self) -> (text: String)
        ensures
            text@ == base58_encoding(self@),
    {
        encode(self.bytes.as_slice())
    }
}

/// What a successful transfer returns, and the key by which it is looked up
/// afterwards. Two signatures are the same exactly when their bytes are equal.
#[derive(Clone, Copy, Debug, PartialEq, Eq, Hash)]
pub struct Signature {
    pub bytes: [u8; 64],
}

impl View for Signature {
    type V = Seq<u8>;

    open spec fn view(&self) -> Seq<u8> {
        self.bytes@
    }
}

impl Signature {
    /// The signature made of the bytes of `bytes`, if there are exactly
    /// [`SIGNATURE_BYTES`] of them.
    pub fn from_slice(bytes: &[u8]) -> (signature: Option<Signature>)
        ensures
            signature is Some <==> bytes@.len() == SIGNATURE_BYTES,
            signature matches Some(s) ==> s@ == bytes@,
    {
        if bytes.len() != SIGNATURE_BYTES {
            return None;
        }
        let mut held = [0u8; 64];
        let mut i: usize = 0;
        while i < 64
            invariant
                i <= 64,
                bytes@.len() == 64,
                forall|j: int| 0 <= j < i ==> held@[j] == bytes@[j],
            decreases 64 - i,
        {
            held[i] = bytes[i];
            i = i + 1;
        }
        assert(held@ =~= bytes@);
        Some(Signature { bytes: held })
    }

    /// Reads a signature from base-58 text. The text is accepted exactly when
    /// it decodes to [`SIGNATURE_BYTES`] bytes, which are then the signature.
    /// Text with a character outside the alphabet is never accepted.
    pub fn from_base58(text: &str) -> (signature: Option<Signature>)
        ensures
            match signature {
                Some(s) => bytes_of_text(text@, SIGNATURE_BYTES as nat) == Some(s@),
                None => bytes_of_text(text@, SIGNATURE_BYTES as nat) is None,
            },
            signature is Some ==> is_base58_text(text@),
    {
        match decode_exact(text, SIGNATURE_BYTES) {
            Some(decoded) => Signature::from_slice(decoded.as_slice()),
            None => None,
        }
    }

    /// The signature as base-58 text.
    pub fn to_base58(&self) -> (text: String)
        ensures
            text@ == base58_encoding(self@),
    {
        encode(self.bytes.as_slice())
    }
}

/// A text that decodes to a number of bytes other than `width` stands for
/// no value of that width.
pub proof fn lemma_wrong_width(text: Seq<char>, width: nat)
    requires
        base58_decoding(text) matches Some(bytes) && bytes.len() != width,
    ensures
        bytes_of_text(text, width) is None,
{
}

/// A value that was read from `text` is written back as `text` wherever the
/// codec writes the bytes that it decoded from `text` back as `text`. The
/// width check between reading and writing takes nothing away and adds
/// nothing.
pub proof fn lemma_text_of_read_value(text: Seq<char>, width: nat, bytes: Seq<u8>)
    requires
        bytes_of_text(text, width) == Some(bytes),
        base58_decoding(text) matches Some(decoded) && base58_encoding(decoded) == text,
    ensures
        base58_encoding(bytes) == text,
        bytes.len() == width,
{
}

} // verus!
