//! Ed25519 signature verification of a container.
//!
//! The signature covers the SHA-256 digest of the signed region, not the
//! region itself: the verifier rebuilds the region from the container's
//! fields, hashes it, and checks the signature against the 32-byte digest.

use vstd::prelude::*;
use vstd::utf8::encode_utf8;
use crate::bytes::{copy_to_array, remove_all, without};
use crate::crypto::{
    base64_decode, base64_decoded, ed25519_accepts, ed25519_key_accepted,
    ed25519_verify, sha256, sha256_digest, verifying_key_from_bytes,
};
use crate::spdf_parser::{
    container_of, layout_issue, lemma_wire_bytes_parse_back, u16_be, u32_be, FileView, SpdfError,
    SpdfFile, MAGIC, SIGNATURE_LENGTH, VERSION,
};

verus! {

/// The ways in which a container can fail verification, in the order in
/// which the verifier looks for them.
#[derive(Debug, Clone, Copy, PartialEq, Eq, Structural)]
pub enum SignatureIssue {
    /// The header carries no public key.
    NoPublicKey,
    /// The PEM body is not base64.
    PemEncoding,
    /// The PEM body decodes to fewer than 32 bytes.
    PemTooShort,
    /// The 32 key bytes are not an Ed25519 public key.
    InvalidKey,
    /// The signature is not 64 bytes long.
    SignatureLength,
    /// The header text is too long for its length field, so the container has
    /// no signed region.
    HeaderTooLong,
    /// The key does not accept the signature on the digest of the signed region.
    Mismatch,
}

impl SignatureIssue {
    /// The message of the error that reports this issue.
    pub open spec fn text(self) -> Seq<char> {
        match self {
            SignatureIssue::NoPublicKey => "No public key in header"@,
            SignatureIssue::PemEncoding => "Invalid PEM base64"@,
            SignatureIssue::PemTooShort => "PEM decoded data too short"@,
            SignatureIssue::InvalidKey => "Invalid public key"@,
            SignatureIssue::SignatureLength => "Invalid signature length"@,
            SignatureIssue::HeaderTooLong => "Header too long"@,
            SignatureIssue::Mismatch => "Signature verification failed"@,
        }
    }

    /// Whether an error reports this issue: a format error for a container
    /// that cannot be written, a signature error for everything else.
    pub open spec fn reported_by(self, e: SpdfError) -> bool {
        if self == SignatureIssue::HeaderTooLong {
            e.is_format(self.text())
        } else {
            e.is_signature(self.text())
        }
    }

    /// How the error that reports this issue is rendered.
    pub open spec fn rendering(self) -> Seq<char> {
        if self == SignatureIssue::HeaderTooLong {
            "Format error: "@ + self.text()
        } else {
            "Signature error: "@ + self.text()
        }
    }

    /// The error that reports this issue.
    pub fn to_error(self) -> (e: SpdfError)
        ensures
            self.reported_by(e),
    {
        match self {
            SignatureIssue::NoPublicKey => SpdfError::SignatureError(
                "No public key in header".to_owned(),
            ),
            SignatureIssue::PemEncoding => SpdfError::SignatureError(
                "Invalid PEM base64".to_owned(),
            ),
            SignatureIssue::PemTooShort => SpdfError::SignatureError(
                "PEM decoded data too short".to_owned(),
            ),
            SignatureIssue::InvalidKey => SpdfError::SignatureError(
                "Invalid public key".to_owned(),
            ),
            SignatureIssue::SignatureLength => SpdfError::SignatureError(
                "Invalid signature length".to_owned(),
            ),
            SignatureIssue::HeaderTooLong => SpdfError::FormatError("Header too long".to_owned()),
            SignatureIssue::Mismatch => SpdfError::SignatureError(
                "Signature verification failed".to_owned(),
            ),
        }
    }
}

/// The base64 body of a PEM block, as UTF-8: the text without the two
/// markers, then without line feeds, carriage returns, spaces and tabs.
pub open spec fn pem_body(pem: Seq<char>) -> Seq<u8> {
    let a = without(encode_utf8(pem), encode_utf8("-----BEGIN PUBLIC KEY-----"@));
    let b = without(a, encode_utf8("-----END PUBLIC KEY-----"@));
    let c = without(b, encode_utf8("\n"@));
    let d = without(c, encode_utf8("\r"@));
    let e = without(d, encode_utf8(" "@));
    without(e, encode_utf8("\t"@))
}

/// The raw key in decoded key material: its last 32 bytes. What stands
/// before them is the fixed algorithm prefix of the encoding.
pub open spec fn der_key(der: Seq<u8>) -> Result<Seq<u8>, SignatureIssue> {
    if der.len() < 32 {
        Err(SignatureIssue::PemTooShort)
    } else {
        Ok(der.subrange(der.len() - 32, der.len() as int))
    }
}

/// The raw key that a PEM block carries.
pub open spec fn pem_key(pem: Seq<char>) -> Result<Seq<u8>, SignatureIssue> {
    match base64_decoded(pem_body(pem)) {
        Some(der) => der_key(der),
        None => Err(SignatureIssue::PemEncoding),
    }
}

/// Why a signature does not hold for a signed region under a raw key;
/// `None` where it holds. `unsigned` is `None` for a container that has no
/// signed region.
pub open spec fn key_issue(key: Seq<u8>, unsigned: Option<Seq<u8>>, signature: Seq<u8>) -> Option<
    SignatureIssue,
> {
    if !ed25519_key_accepted(key) {
        Some(SignatureIssue::InvalidKey)
    } else if signature.len() != SIGNATURE_LENGTH {
        Some(SignatureIssue::SignatureLength)
    } else if unsigned is None {
        Some(SignatureIssue::HeaderTooLong)
    } else if !ed25519_accepts(key, sha256(unsigned.unwrap()), signature) {
        Some(SignatureIssue::Mismatch)
    } else {
        None
    }
}

/// Why a container does not verify under the key of a PEM block; `None`
/// where it verifies.
pub open spec fn signature_issue_with_key(file: FileView, pem: Seq<char>) -> Option<
    SignatureIssue,
> {
    match pem_key(pem) {
        Ok(key) => key_issue(key, file.signed_region(), file.signature),
        Err(issue) => Some(issue),
    }
}

/// Why a container does not verify under the key in its own header; `None`
/// where it verifies.
pub open spec fn signature_issue(file: FileView) -> Option<SignatureIssue> {
    if file.header.public_key.len() == 0 {
        Some(SignatureIssue::NoPublicKey)
    } else {
        signature_issue_with_key(file, file.header.public_key)
    }
}

/// Round trip: take a well-formed container whose signature is one that a
/// key accepts on the SHA-256 digest of the signed region. The bytes that
/// the container writes parse, and the parsed container verifies under the
/// PEM block of that key.
pub proof fn lemma_signed_container_verifies(file: FileView, pem: Seq<char>, key: Seq<u8>)
    requires
        file.well_formed(),
        pem_key(pem) == Ok::<Seq<u8>, SignatureIssue>(key),
        ed25519_key_accepted(key),
        ed25519_accepts(key, sha256(file.unsigned_bytes()), file.signature),
    ensures
        layout_issue(file.wire_bytes()) is None,
        signature_issue_with_key(container_of(file.wire_bytes()), pem) is None,
{
    lemma_wire_bytes_parse_back(file);
}

impl FileView {
    /// The signed region of a container whose header text fits its length
    /// field; `None` for any other.
    pub open spec fn signed_region(self) -> Option<Seq<u8>> {
        if self.header_bytes.len() <= u32::MAX {
            Some(self.unsigned_bytes())
        } else {
            None
        }
    }
}

impl SpdfFile {

    /// Build the unsigned data for signature verification from the
    /// container's fields: every byte that stands before the signature.
    pub fn build_unsigned_data(&self) -> (r: Result<Vec<u8>, SpdfError>)
        ensures
            match r {
                Ok(bytes) => self@.signed_region() == Some(bytes@),
                Err(e) => self@.signed_region() is None && SignatureIssue::HeaderTooLong.reported_by(
                    e,
                ),
            },
    {
        let n = self.header_bytes.len();
        if n > 0xffff_ffff {
            return Err(SignatureIssue::HeaderTooLong.to_error());
        }
        let mut data: Vec<u8> = Vec::new();
        data.extend_from_slice(MAGIC.as_slice());
        data.push(self.version);
        data.push((self.flags / 256) as u8);
        data.push((self.flags % 256) as u8);
        data.push((n / 16777216) as u8);
        data.push(((n / 65536) % 256) as u8);
        data.push(((n / 256) % 256) as u8);
        data.push((n % 256) as u8);
        proof {
            assert(data@ =~= MAGIC@ + seq![self.version] + u16_be(self.flags as int) + u32_be(
                n as int,
            ));
        }
        data.extend_from_slice(self.header_bytes.as_slice());
        data.extend_from_slice(self.wrapped_key.as_slice());
        data.extend_from_slice(self.nonce.as_slice());
        data.extend_from_slice(self.ciphertext.as_slice());
        data.extend_from_slice(self.auth_tag.as_slice());
        Ok(data)
    }

    /// Verify the signature using a public key in PEM format.
    pub fn verify_signature(&self, public_key_pem: &str) -> (r: Result<(), SpdfError>)
        ensures
            match r {
                Ok(_) => signature_issue_with_key(self@, public_key_pem@) is None,
                Err(e) => signature_issue_with_key(self@, public_key_pem@) matches Some(issue)
                    && issue.reported_by(e),
            },
    {
        verify_signature_with_key(self, public_key_pem)
    }
}

/// Takes the raw Ed25519 key from decoded key material: the last 32 bytes.
pub fn key_from_der(der: &[u8]) -> (r: Result<[u8; 32], SpdfError>)
    ensures
        match r {
            Ok(key) => der_key(der@) == Ok::<Seq<u8>, SignatureIssue>(key@),
            Err(e) => der_key(der@) matches Err(issue) && issue.reported_by(e),
        },
{
    let n = der.len();
    if n < 32 {
        return Err(SignatureIssue::PemTooShort.to_error());
    }
    Ok(copy_to_array::<32>(vstd::slice::slice_subrange(der, n - 32, n)))
}

/// Parse an Ed25519 public key from PEM format:
///
/// ```text
/// -----BEGIN PUBLIC KEY-----
/// <base64 of the encoded key>
/// -----END PUBLIC KEY-----
/// ```
///
/// The markers, line breaks, spaces and tabs are stripped, the rest is
/// decoded as base64, and the key is the last 32 bytes of what was decoded.
pub fn parse_ed25519_public_key_pem(pem: &str) -> (r: Result<[u8; 32], SpdfError>)
    ensures
        match r {
            Ok(key) => pem_key(pem@) == Ok::<Seq<u8>, SignatureIssue>(key@),
            Err(e) => pem_key(pem@) matches Err(issue) && issue.reported_by(e),
        },
{
    let a = remove_all(pem.as_bytes(), "-----BEGIN PUBLIC KEY-----".as_bytes());
    let b = remove_all(a.as_slice(), "-----END PUBLIC KEY-----".as_bytes());
    let c = remove_all(b.as_slice(), "\n".as_bytes());
    let d = remove_all(c.as_slice(), "\r".as_bytes());
    let e = remove_all(d.as_slice(), " ".as_bytes());
    let body = remove_all(e.as_slice(), "\t".as_bytes());
    match base64_decode(body.as_slice()) {
        Ok(der) => key_from_der(der.as_slice()),
        Err(_) => Err(SignatureIssue::PemEncoding.to_error()),
    }
}

/// Checks a container's signature under a raw key.
pub fn verify_with_raw_key(spdf: &SpdfFile, key: &[u8; 32]) -> (r: Result<(), SpdfError>)
    ensures
        match r {
            Ok(_) => key_issue(key@, spdf@.signed_region(), spdf@.signature) is None,
            Err(e) => key_issue(key@, spdf@.signed_region(), spdf@.signature) matches Some(issue)
                && issue.reported_by(e),
        },
{
    let verifying_key = match verifying_key_from_bytes(key) {
        Ok(k) => k,
        Err(_) => {
            return Err(SignatureIssue::InvalidKey.to_error());
        },
    };
    if spdf.signature.len() != SIGNATURE_LENGTH {
        return Err(SignatureIssue::SignatureLength.to_error());
    }
    let unsigned = match spdf.build_unsigned_data() {
        Ok(bytes) => bytes,
        Err(e) => {
            return Err(e);
        },
    };
    let digest = sha256_digest(unsigned.as_slice());
    let signature = copy_to_array::<64>(spdf.signature.as_slice());
    match ed25519_verify(&verifying_key, digest.as_slice(), &signature) {
        Ok(_) => Ok(()),
        Err(_) => Err(SignatureIssue::Mismatch.to_error()),
    }
}

/// Verify the Ed25519 signature of an SPDF file with the public key that its
/// header carries.
pub fn verify_signature(spdf: &SpdfFile) -> (r: Result<(), SpdfError>)
    ensures
        match r {
            Ok(_) => signature_issue(spdf@) is None,
            Err(e) => signature_issue(spdf@) matches Some(issue) && issue.reported_by(e),
        },
{
    if spdf.header.public_key.as_str().is_empty() {
        return Err(SignatureIssue::NoPublicKey.to_error());
    }
    verify_signature_with_key(spdf, spdf.header.public_key.as_str())
}

/// Verify signature using a specific public key (not from header).
pub fn verify_signature_with_key(spdf: &SpdfFile, public_key_pem: &str) -> (r: Result<
    (),
    SpdfError,
>)
    ensures
        match r {
            Ok(_) => signature_issue_with_key(spdf@, public_key_pem@) is None,
            Err(e) => signature_issue_with_key(spdf@, public_key_pem@) matches Some(issue)
                && issue.reported_by(e),
        },
{
    match parse_ed25519_public_key_pem(public_key_pem) {
        Ok(key) => verify_with_raw_key(spdf, &key),
        Err(e) => Err(e),
    }
}

/// Whether a container shows one of the plain signs of tampering: a wrong
/// version, a signature of the wrong length, no document id, no server URL
/// or no public key. A quick check, no verification.
pub open spec fn potentially_tampered(file: FileView) -> bool {
    ||| file.version != VERSION
    ||| file.signature.len() != SIGNATURE_LENGTH
    ||| file.header.doc_id.len() == 0
    ||| file.header.server_url.len() == 0
    ||| file.header.public_key.len() == 0
}

/// Check if an SPDF file is tampered (quick check without full verification).
pub fn is_potentially_tampered(spdf: &SpdfFile) -> (r: bool)
    ensures
        r == potentially_tampered(spdf@),
{
    if spdf.version != VERSION {
        return true;
    }
    if spdf.signature.len() != SIGNATURE_LENGTH {
        return true;
    }
    if spdf.header.doc_id.as_str().is_empty() || spdf.header.server_url.as_str().is_empty() {
        return true;
    }
    if spdf.header.public_key.as_str().is_empty() {
        return true;
    }
    false
}

} // verus!
