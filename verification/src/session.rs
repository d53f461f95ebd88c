//! The decisions of a viewing session: what to ask of the licensing server,
//! and what to tell the user when it has answered.
//!
//! Nothing here talks to a server or keeps a token. The application sends
//! what these functions ask for and hands back what came; the functions
//! decide. A container is opened only when its signature holds.

use vstd::prelude::*;
use vstd::utf8::encode_utf8;
use crate::auth::DeviceInfo;
use crate::crypto::{
    base64_decode, base64_decoded, base64_encode, base64_encoded, trim_end_matches,
    without_trailing,
};
use crate::decrypt::{decrypt_content_slice, opened_with_slice};
use crate::header::{SpdfHeader, SpdfPermissions};
use crate::spdf_parser::{container_of, layout_issue, FileView, SpdfFile};
use crate::verify::{
    signature_issue, signature_issue_with_key, verify_signature, verify_signature_with_key,
    SignatureIssue,
};

verus! {

/// What the viewer reports after it has tried to open a file.
#[derive(Debug)]
pub struct OpenFileResult {
    pub success: bool,
    pub message: String,
    pub header: Option<SpdfHeader>,
    pub pdf_base64: Option<String>,
    pub needs_login: bool,
    /// Compact JSON text, as the server sent it.
    pub watermark_data: Option<String>,
}

/// What the viewer reports after a login.
#[derive(Debug)]
pub struct LoginResult {
    pub success: bool,
    pub message: String,
}

/// What the licensing server answers to a key request.
#[derive(Debug)]
pub struct KeyResponse {
    /// The document key in base64; 32 bytes when decoded.
    pub k_doc: String,
    pub permissions: SpdfPermissions,
    /// Compact JSON text.
    pub watermark_data: String,
}

/// What to ask of the licensing server for a document key.
#[derive(Debug)]
pub struct KeyRequest {
    pub url: String,
    /// The value of the `Authorization` header.
    pub authorization: String,
    pub doc_id: String,
    pub device_id: String,
    pub device_name: String,
}

/// How opening a file begins.
#[derive(Debug)]
pub enum OpenStart {
    /// There is no token: report that a login is needed.
    NeedsLogin(OpenFileResult),
    /// Send the request, and keep the container for the answer.
    RequestKey(SpdfFile, KeyRequest),
}

/// The address of an endpoint: the server's address without slashes at its
/// end, then the endpoint's path.
pub open spec fn endpoint(server_url: Seq<char>, path: Seq<char>) -> Seq<char> {
    without_trailing(server_url, '/') + path
}

/// A report that opens nothing and carries the header.
pub open spec fn is_refusal(
    r: OpenFileResult,
    message: Seq<char>,
    header: crate::header::HeaderView,
    needs_login: bool,
) -> bool {
    &&& !r.success
    &&& r.message@ == message
    &&& r.header matches Some(h)
    &&& h@ == header
    &&& r.pdf_base64 is None
    &&& r.needs_login == needs_login
    &&& r.watermark_data is None
}

/// The address to send a licence key to.
pub fn login_url(server_url: &str) -> (r: String)
    ensures
        r@ == endpoint(server_url@, "/auth/login-with-key"@),
{
    trim_end_matches(server_url, '/').concat("/auth/login-with-key")
}

/// The report of a login that the server refused.
pub fn login_refused(status: &str, body: &str) -> (r: LoginResult)
    ensures
        !r.success,
        r.message@ == "Authentication failed: "@ + status@ + " - "@ + body@,
{
    LoginResult {
        success: false,
        message: "Authentication failed: ".to_owned().concat(status).concat(" - ").concat(body),
    }
}

/// The report of a login that the server granted.
pub fn login_granted(user_email: &str) -> (r: LoginResult)
    ensures
        r.success,
        r.message@ == "Authenticated as "@ + user_email@,
{
    LoginResult { success: true, message: "Authenticated as ".to_owned().concat(user_email) }
}

/// Begins opening the bytes of a file. Bytes that are no container fail
/// with the rendered format error. Without a token the user must log in;
/// with one, the key of the document is asked for, for this device.
pub fn start_open(data: &[u8], token: &Option<String>, device: &DeviceInfo) -> (r: Result<
    OpenStart,
    String,
>)
    ensures
        match r {
            Err(text) => layout_issue(data@) matches Some(issue) && text@ == "Format error: "@
                + issue.text(),
            Ok(OpenStart::NeedsLogin(report)) => {
                &&& layout_issue(data@) is None
                &&& *token is None
                &&& is_refusal(
                    report,
                    "Authentication required"@,
                    container_of(data@).header,
                    true,
                )
            },
            Ok(OpenStart::RequestKey(spdf, request)) => {
                &&& layout_issue(data@) is None
                &&& spdf@ == container_of(data@)
                &&& *token matches Some(t)
                &&& request.url@ == endpoint(spdf@.header.server_url, "/keys/get"@)
                &&& request.authorization@ == "Bearer "@ + t@
                &&& request.doc_id@ == spdf@.header.doc_id
                &&& request.device_id@ == device.device_id@
                &&& request.device_name@ == device.device_name@
            },
        },
{
    let spdf = match SpdfFile::parse(data) {
        Ok(spdf) => spdf,
        Err(e) => {
            return Err(e.to_string());
        },
    };
    match token {
        None => Ok(
            OpenStart::NeedsLogin(
                OpenFileResult {
                    success: false,
                    message: "Authentication required".to_owned(),
                    header: Some(spdf.header),
                    pdf_base64: None,
                    needs_login: true,
                    watermark_data: None,
                },
            ),
        ),
        Some(t) => {
            let request = KeyRequest {
                url: trim_end_matches(spdf.header.server_url.as_str(), '/').concat("/keys/get"),
                authorization: "Bearer ".to_owned().concat(t.as_str()),
                doc_id: spdf.header.doc_id.clone(),
                device_id: device.device_id.clone(),
                device_name: device.device_name.clone(),
            };
            Ok(OpenStart::RequestKey(spdf, request))
        },
    }
}

/// The status with which the server says that the token is no longer good.
pub const UNAUTHORIZED: u16 = 401;

/// The report for a key request that the server refused: a new login is
/// needed where the token was not accepted, and only then.
pub fn key_refused(spdf: SpdfFile, code: u16, status: &str, body: &str) -> (r: OpenFileResult)
    ensures
        code == UNAUTHORIZED ==> is_refusal(
            r,
            "Session expired. Please login again."@,
            spdf@.header,
            true,
        ),
        code != UNAUTHORIZED ==> is_refusal(
            r,
            "Server denied access: "@ + status@ + " - "@ + body@,
            spdf@.header,
            false,
        ),
{
    if code == UNAUTHORIZED {
        OpenFileResult {
            success: false,
            message: "Session expired. Please login again.".to_owned(),
            header: Some(spdf.header),
            pdf_base64: None,
            needs_login: true,
            watermark_data: None,
        }
    } else {
        OpenFileResult {
            success: false,
            message: "Server denied access: ".to_owned().concat(status).concat(" - ").concat(body),
            header: Some(spdf.header),
            pdf_base64: None,
            needs_login: false,
            watermark_data: None,
        }
    }
}

/// Why a container is not trusted: under the key that the caller trusts
/// where there is one, under the key in its own header where there is none.
pub open spec fn trust_issue(file: FileView, trusted_key: Option<String>) -> Option<
    SignatureIssue,
> {
    match trusted_key {
        Some(pem) => signature_issue_with_key(file, pem@),
        None => signature_issue(file),
    }
}

/// The largest document that is handed on as base64.
pub open spec fn max_document() -> int {
    usize::MAX as int / 2
}

/// The document that a granted key opens, or the message with which
/// opening fails: the key must be base64 of 32 bytes, the container must be
/// trusted, and its content must decrypt.
pub open spec fn grant_outcome(file: FileView, k_doc: Seq<char>, trusted_key: Option<String>)
    -> Result<Seq<u8>, Seq<char>> {
    match base64_decoded(encode_utf8(k_doc)) {
        None => Err("Invalid key encoding"@),
        Some(key) => if key.len() != 32 {
            Err("Invalid key length from server"@)
        } else if trust_issue(file, trusted_key) is Some {
            Err(trust_issue(file, trusted_key).unwrap().rendering())
        } else {
            match opened_with_slice(file, key) {
                Err(issue) => Err("Decryption error: "@ + issue.text()),
                Ok(plain) => if plain.len() > max_document() {
                    Err("Document too large"@)
                } else {
                    Ok(plain)
                },
            }
        },
    }
}

/// Opens a container with the key that the server granted, and reports the
/// document in base64 with the header and the server's watermark data.
pub fn key_granted(spdf: SpdfFile, response: KeyResponse, trusted_key: &Option<String>) -> (r:
    Result<OpenFileResult, String>)
    ensures
        match r {
            Err(text) => grant_outcome(spdf@, response.k_doc@, *trusted_key) == Err::<
                Seq<u8>,
                Seq<char>,
            >(text@),
            Ok(report) => {
                &&& grant_outcome(spdf@, response.k_doc@, *trusted_key) matches Ok(plain)
                &&& report.success
                &&& report.message@ == "Document opened successfully"@
                &&& report.header matches Some(h)
                &&& h@ == spdf@.header
                &&& report.pdf_base64 matches Some(text)
                &&& text@ == base64_encoded(plain)
                &&& !report.needs_login
                &&& report.watermark_data matches Some(w)
                &&& w@ == response.watermark_data@
            },
        },
{
    let k_doc = match base64_decode(response.k_doc.as_str().as_bytes()) {
        Ok(key) => key,
        Err(_) => {
            return Err("Invalid key encoding".to_owned());
        },
    };
    if k_doc.len() != 32 {
        return Err("Invalid key length from server".to_owned());
    }
    let verified = match trusted_key {
        Some(pem) => verify_signature_with_key(&spdf, pem.as_str()),
        None => verify_signature(&spdf),
    };
    if let Err(e) = verified {
        return Err(e.to_string());
    }
    let pdf_bytes = match decrypt_content_slice(&spdf, k_doc.as_slice()) {
        Ok(plain) => plain,
        Err(e) => {
            return Err(e.to_string());
        },
    };
    if pdf_bytes.len() > usize::MAX / 2 {
        return Err("Document too large".to_owned());
    }
    Ok(
        OpenFileResult {
            success: true,
            message: "Document opened successfully".to_owned(),
            header: Some(spdf.header),
            pdf_base64: Some(base64_encode(pdf_bytes.as_slice())),
            needs_login: false,
            watermark_data: Some(response.watermark_data),
        },
    )
}

} // verus!
