//! The primitives that the core takes from other crates: SHA-256, Ed25519,
//! AES-256-GCM, base64 and hex, and two string functions of the standard
//! library. Everything in this file is trusted: it states what those
//! functions do and proves nothing. What a primitive computes is named, not
//! written out.

use vstd::prelude::*;
use aes_gcm::KeyInit;
use aes_gcm::aead::Aead;
use base64::Engine;
use ed25519_dalek::Verifier;
use sha2::Digest;

verus! {

/// `ed25519_dalek::VerifyingKey`: a public key that was checked. Nothing
/// inside it is visible here; the bytes it was made from are named below.
#[verifier::external_type_specification]
#[verifier::external_body]
pub struct ExVerifyingKey(ed25519_dalek::VerifyingKey);

/// `ed25519_dalek::SignatureError`: why a key or a signature was refused.
/// Only carried, never read.
#[verifier::external_type_specification]
#[verifier::external_body]
pub struct ExSignatureError(ed25519_dalek::SignatureError);

/// `aes_gcm::Error`: the cipher refused its input. It says no more.
#[verifier::external_type_specification]
#[verifier::external_body]
pub struct ExAeadError(aes_gcm::Error);

/// `base64::DecodeError`: why a text is no base64. Only carried, never read.
#[verifier::external_type_specification]
#[verifier::external_body]
pub struct ExBase64Error(base64::DecodeError);

/// `hex::FromHexError`: why a text is no hex. Only carried, never read.
#[verifier::external_type_specification]
#[verifier::external_body]
pub struct ExHexError(hex::FromHexError);

/// The SHA-256 digest of a byte sequence.
pub uninterp spec fn sha256(data: Seq<u8>) -> Seq<u8>;

/// Whether 32 bytes are the encoding of an Ed25519 public key.
pub uninterp spec fn ed25519_key_accepted(bytes: Seq<u8>) -> bool;

/// The 32 bytes that a verifying key was made from.
pub uninterp spec fn verifying_key_bytes(key: ed25519_dalek::VerifyingKey) -> Seq<u8>;

/// Whether the key with this encoding accepts a signature on a message.
pub uninterp spec fn ed25519_accepts(key: Seq<u8>, message: Seq<u8>, signature: Seq<u8>) -> bool;

/// The plaintext that AES-256-GCM opens from ciphertext and tag under a key
/// and a nonce, with no associated data; `None` where it refuses them.
pub uninterp spec fn aes_gcm_opened(key: Seq<u8>, nonce: Seq<u8>, sealed: Seq<u8>) -> Option<
    Seq<u8>,
>;

/// The bytes that a text in standard base64 (with padding) stands for, the
/// text given as its UTF-8 bytes; `None` where the text is no such base64.
pub uninterp spec fn base64_decoded(text: Seq<u8>) -> Option<Seq<u8>>;

/// The bytes that a text of hex digits stands for; `None` where the text is
/// not an even number of hex digits.
pub uninterp spec fn hex_decoded(text: Seq<char>) -> Option<Seq<u8>>;

/// A text without the white space at its two ends, as `str::trim` cuts it.
pub uninterp spec fn text_trimmed(text: Seq<char>) -> Seq<char>;

/// The standard base64 text (with padding) of a byte sequence.
pub uninterp spec fn base64_encoded(data: Seq<u8>) -> Seq<char>;

/// A text without the run of one character at its end.
pub open spec fn without_trailing(text: Seq<char>, c: char) -> Seq<char>
    decreases text.len(),
{
    if text.len() > 0 && text.last() == c {
        without_trailing(text.drop_last(), c)
    } else {
        text
    }
}

/// The lower-case hex digit of a number below 16.
pub open spec fn hex_digit(n: int) -> char {
    if n < 10 {
        ('0' as u8 + n) as char
    } else {
        ('a' as u8 + n - 10) as char
    }
}

/// A byte sequence in lower-case hex: two digits for each byte, the high
/// half first.
pub open spec fn hex_lower(data: Seq<u8>) -> Seq<char> {
    Seq::new(
        2 * data.len(),
        |i: int|
            if i % 2 == 0 {
                hex_digit(data[i / 2] as int / 16)
            } else {
                hex_digit(data[i / 2] as int % 16)
            },
    )
}

/// Calls `sha2::Sha256::digest`: the result is the SHA-256 digest of the
/// input, 32 bytes.
#[verifier::external_body]
pub(crate) fn sha256_digest(data: &[u8]) -> (r: [u8; 32])
    ensures
        r@ == sha256(data@),
{
    sha2::Sha256::digest(data).into()
}

/// Calls `ed25519_dalek::VerifyingKey::from_bytes`: it succeeds exactly on
/// the encodings of a public key, and the key keeps the bytes it was made
/// from.
#[verifier::external_body]
pub(crate) fn verifying_key_from_bytes(bytes: &[u8; 32]) -> (r: Result<
    ed25519_dalek::VerifyingKey,
    ed25519_dalek::SignatureError,
>)
    ensures
        r is Ok == ed25519_key_accepted(bytes@),
        r matches Ok(key) ==> verifying_key_bytes(key) == bytes@,
{
    ed25519_dalek::VerifyingKey::from_bytes(bytes)
}

/// Calls `ed25519_dalek::VerifyingKey::verify` (of the trait `Verifier`) on a
/// message and a 64-byte signature. Whether it succeeds depends on the key's
/// bytes, the message and the signature alone.
#[verifier::external_body]
pub(crate) fn ed25519_verify(
    key: &ed25519_dalek::VerifyingKey,
    message: &[u8],
    signature: &[u8; 64],
) -> (r: Result<(), ed25519_dalek::SignatureError>)
    ensures
        r is Ok == ed25519_accepts(verifying_key_bytes(*key), message@, signature@),
{
    key.verify(message, &ed25519_dalek::Signature::from_bytes(signature))
}

/// Calls `aes_gcm::Aes256Gcm::decrypt` (of the trait `Aead`) on a cipher
/// that `Aes256Gcm::new` makes from the key: the plaintext, or the crate's
/// error where the tag does not match. The outcome depends on key, nonce
/// and input alone.
#[verifier::external_body]
pub(crate) fn aes_gcm_open(key: &[u8; 32], nonce: &[u8; 12], sealed: &[u8]) -> (r: Result<
    Vec<u8>,
    aes_gcm::Error,
>)
    ensures
        r matches Ok(plain) ==> aes_gcm_opened(key@, nonce@, sealed@) == Some(plain@),
        r is Err ==> aes_gcm_opened(key@, nonce@, sealed@) is None,
{
    let cipher = aes_gcm::Aes256Gcm::new(key.into());
    cipher.decrypt(aes_gcm::Nonce::from_slice(nonce), sealed)
}

/// Calls `decode` of `base64::engine::general_purpose::STANDARD`: the decoded
/// bytes, or the crate's error for a text that is no standard base64.
#[verifier::external_body]
pub(crate) fn base64_decode(text: &[u8]) -> (r: Result<Vec<u8>, base64::DecodeError>)
    ensures
        r matches Ok(bytes) ==> base64_decoded(text@) == Some(bytes@),
        r is Err ==> base64_decoded(text@) is None,
{
    base64::engine::general_purpose::STANDARD.decode(text)
}

/// Calls `encode` of `base64::engine::general_purpose::STANDARD`. The
/// crate panics where the length of the text does not fit `usize`; an input
/// of at most half of `usize::MAX` bytes is far below that.
#[verifier::external_body]
pub(crate) fn base64_encode(data: &[u8]) -> (r: String)
    requires
        data@.len() <= usize::MAX / 2,
    ensures
        r@ == base64_encoded(data@),
{
    base64::engine::general_purpose::STANDARD.encode(data)
}

/// Calls `str::trim_end_matches` with one character: what is left when that
/// character is cut from the end as often as it stands there.
#[verifier::external_body]
pub(crate) fn trim_end_matches(text: &str, c: char) -> (r: String)
    ensures
        r@ == without_trailing(text@, c),
{
    text.trim_end_matches(c).to_string()
}

/// Calls `hex::encode`: two lower-case hex digits for each byte.
#[verifier::external_body]
pub(crate) fn hex_encode(data: &[u8]) -> (r: String)
    ensures
        r@ == hex_lower(data@),
{
    hex::encode(data)
}

/// Calls `hex::decode`: the decoded bytes, or the crate's error for a text
/// that is not an even number of hex digits.
#[verifier::external_body]
pub(crate) fn hex_decode(text: &str) -> (r: Result<Vec<u8>, hex::FromHexError>)
    ensures
        r matches Ok(bytes) ==> hex_decoded(text@) == Some(bytes@),
        r is Err ==> hex_decoded(text@) is None,
{
    hex::decode(text)
}

/// Calls `str::trim`: what is left when the white space at both ends is
/// cut. Which characters are white space is the standard library's matter.
#[verifier::external_body]
pub(crate) fn trim(text: &str) -> (r: String)
    ensures
        r@ == text_trimmed(text@),
{
    text.trim().to_string()
}

} // verus!
