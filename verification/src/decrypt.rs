//! AES-256-GCM decryption of a container's content.
//!
//! The three entry points differ only in how the 32-byte document key
//! arrives: as an array, as a slice, or as base64 text.

use vstd::prelude::*;
use vstd::utf8::encode_utf8;
use crate::bytes::copy_to_array;
use crate::crypto::{aes_gcm_open, aes_gcm_opened, base64_decode, base64_decoded};
use crate::spdf_parser::{
    container_of, header_end, layout_issue, FileView, SpdfError, SpdfFile, NONCE_LENGTH,
    TAG_LENGTH,
};

verus! {

/// The length of a document key in bytes.
pub const KEY_LENGTH: usize = 32;

/// The ways in which decryption can fail, in the order in which the
/// decryptor looks for them.
#[derive(Debug, Clone, Copy, PartialEq, Eq, Structural)]
pub enum DecryptionIssue {
    /// The key text is not base64.
    KeyEncoding,
    /// The key is not 32 bytes long.
    KeyLength,
    /// The nonce is not 12 bytes long.
    NonceLength,
    /// The authentication tag is not 16 bytes long.
    TagLength,
    /// The cipher refused key, nonce, ciphertext and tag: a wrong key or
    /// tampered content.
    Authentication,
}

impl DecryptionIssue {
    /// The message of the decryption error that reports this issue.
    pub open spec fn text(self) -> Seq<char> {
        match self {
            DecryptionIssue::KeyEncoding => "Invalid base64 key"@,
            DecryptionIssue::KeyLength => "Invalid key length: expected 32"@,
            DecryptionIssue::NonceLength => "Invalid nonce length: expected 12"@,
            DecryptionIssue::TagLength => "Invalid auth tag length: expected 16"@,
            DecryptionIssue::Authentication => "Decryption failed"@,
        }
    }

    /// The decryption error that reports this issue.
    pub fn to_error(self) -> (e: SpdfError)
        ensures
            e.is_decryption(self.text()),
    {
        let text = match self {
            DecryptionIssue::KeyEncoding => "Invalid base64 key",
            DecryptionIssue::KeyLength => "Invalid key length: expected 32",
            DecryptionIssue::NonceLength => "Invalid nonce length: expected 12",
            DecryptionIssue::TagLength => "Invalid auth tag length: expected 16",
            DecryptionIssue::Authentication => "Decryption failed",
        };
        SpdfError::DecryptionError(text.to_owned())
    }
}

/// What decrypting a container under a 32-byte key gives: the plaintext, or
/// the first issue.
pub open spec fn opened(file: FileView, key: Seq<u8>) -> Result<Seq<u8>, DecryptionIssue> {
    if file.nonce.len() != NONCE_LENGTH {
        Err(DecryptionIssue::NonceLength)
    } else if file.auth_tag.len() != TAG_LENGTH {
        Err(DecryptionIssue::TagLength)
    } else {
        match aes_gcm_opened(key, file.nonce, file.ciphertext + file.auth_tag) {
            Some(plain) => Ok(plain),
            None => Err(DecryptionIssue::Authentication),
        }
    }
}

/// What decrypting a container under a key of any length gives.
pub open spec fn opened_with_slice(file: FileView, key: Seq<u8>) -> Result<
    Seq<u8>,
    DecryptionIssue,
> {
    if key.len() != KEY_LENGTH {
        Err(DecryptionIssue::KeyLength)
    } else {
        opened(file, key)
    }
}

/// What decrypting a container under a key in base64 gives.
pub open spec fn opened_with_base64(file: FileView, key_text: Seq<char>) -> Result<
    Seq<u8>,
    DecryptionIssue,
> {
    match base64_decoded(encode_utf8(key_text)) {
        Some(key) => opened_with_slice(file, key),
        None => Err(DecryptionIssue::KeyEncoding),
    }
}

/// The three ways to hand over a key agree: a key of 32 bytes opens the
/// same as a slice and as an array, and base64 text opens what the key
/// that it stands for opens.
pub proof fn lemma_entry_points_agree(file: FileView, key: Seq<u8>, key_text: Seq<char>)
    requires
        key.len() == KEY_LENGTH,
        base64_decoded(encode_utf8(key_text)) == Some(key),
    ensures
        opened_with_slice(file, key) == opened(file, key),
        opened_with_base64(file, key_text) == opened(file, key),
{
}

/// Two containers of one length and one header length that differ in any
/// byte of ciphertext or tag hand the cipher different input.
pub proof fn lemma_tampering_changes_sealed_content(data: Seq<u8>, tampered: Seq<u8>, at: int)
    requires
        layout_issue(data) is None,
        layout_issue(tampered) is None,
        data.len() == tampered.len(),
        header_end(data) == header_end(tampered),
        header_end(data) + 52 <= at < data.len() - 64,
        data[at] != tampered[at],
    ensures
        container_of(data).ciphertext + container_of(data).auth_tag != container_of(
            tampered,
        ).ciphertext + container_of(tampered).auth_tag,
{
    let start = header_end(data) + 52;
    let a = container_of(data).ciphertext + container_of(data).auth_tag;
    let b = container_of(tampered).ciphertext + container_of(tampered).auth_tag;
    assert(a =~= data.subrange(start, data.len() - 64));
    assert(b =~= tampered.subrange(start, data.len() - 64));
    assert(a[at - start] == data[at]);
    assert(b[at - start] == tampered[at]);
}

/// Whether a result is the plaintext, or reports the issue, that was expected.
pub open spec fn gives(r: Result<Vec<u8>, SpdfError>, expected: Result<Seq<u8>, DecryptionIssue>)
    -> bool {
    match r {
        Ok(plain) => expected == Ok::<Seq<u8>, DecryptionIssue>(plain@),
        Err(e) => expected matches Err(issue) && e.is_decryption(issue.text()),
    }
}

/// Decrypt SPDF content using the document key.
///
/// All or nothing: the result is the whole plaintext or an error.
pub fn decrypt_content(spdf: &SpdfFile, doc_key: &[u8; 32]) -> (r: Result<Vec<u8>, SpdfError>)
    ensures
        gives(r, opened(spdf@, doc_key@)),
{
    if spdf.nonce.len() != NONCE_LENGTH {
        return Err(DecryptionIssue::NonceLength.to_error());
    }
    if spdf.auth_tag.len() != TAG_LENGTH {
        return Err(DecryptionIssue::TagLength.to_error());
    }
    let nonce = copy_to_array::<12>(spdf.nonce.as_slice());
    let mut sealed: Vec<u8> = Vec::new();
    sealed.extend_from_slice(spdf.ciphertext.as_slice());
    sealed.extend_from_slice(spdf.auth_tag.as_slice());
    assert(sealed@ =~= spdf.ciphertext@ + spdf.auth_tag@);
    match aes_gcm_open(doc_key, &nonce, sealed.as_slice()) {
        Ok(plain) => Ok(plain),
        Err(_) => Err(DecryptionIssue::Authentication.to_error()),
    }
}

/// Decrypt SPDF content with key provided as slice. A key that is not 32
/// bytes long is rejected before the cipher sees anything.
pub fn decrypt_content_slice(spdf: &SpdfFile, doc_key: &[u8]) -> (r: Result<Vec<u8>, SpdfError>)
    ensures
        gives(r, opened_with_slice(spdf@, doc_key@)),
        doc_key@.len() != KEY_LENGTH ==> (r matches Err(e) && e.is_decryption(
            DecryptionIssue::KeyLength.text(),
        )),
{
    if doc_key.len() != KEY_LENGTH {
        return Err(DecryptionIssue::KeyLength.to_error());
    }
    let key = copy_to_array::<32>(doc_key);
    decrypt_content(spdf, &key)
}

/// Decrypt SPDF content from base64-encoded key.
pub fn decrypt_content_base64(spdf: &SpdfFile, doc_key_b64: &str) -> (r: Result<
    Vec<u8>,
    SpdfError,
>)
    ensures
        gives(r, opened_with_base64(spdf@, doc_key_b64@)),
{
    match base64_decode(doc_key_b64.as_bytes()) {
        Ok(doc_key) => decrypt_content_slice(spdf, doc_key.as_slice()),
        Err(_) => Err(DecryptionIssue::KeyEncoding.to_error()),
    }
}

impl SpdfFile {
    /// Decrypt the content using the document key.
    pub fn decrypt(&self, k_doc: &[u8; 32]) -> (r: Result<Vec<u8>, SpdfError>)
        ensures
            gives(r, opened(self@, k_doc@)),
    {
        decrypt_content(self, k_doc)
    }
}

/// The marker that opens a PDF document: the ASCII letters `%PDF`.
pub open spec fn pdf_marker() -> Seq<u8> {
    seq![0x25u8, 0x50u8, 0x44u8, 0x46u8]
}

/// Validate that content appears to be a valid PDF: it starts with `%PDF`.
/// A plausibility check, no substitute for authentication.
pub fn validate_pdf_content(content: &[u8]) -> (r: bool)
    ensures
        r == (content@.len() >= 4 && content@.subrange(0, 4) == pdf_marker()),
{
    let ok = content.len() >= 4 && content[0] == 0x25 && content[1] == 0x50 && content[2] == 0x44
        && content[3] == 0x46;
    proof {
        if content@.len() >= 4 {
            let head = content@.subrange(0, 4);
            assert(head[0] == content@[0] && head[1] == content@[1] && head[2] == content@[2]
                && head[3] == content@[3]);
            if ok {
                assert(head =~= pdf_marker());
            }
        }
    }
    ok
}

} // verus!
