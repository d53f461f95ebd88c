//! Core of the SPDF protected-document format: the container parser, the
//! signature verifier, the content decryptor and the device identity hasher.
//!
//! The functions of this file are what a viewer asks of the core, each on the
//! bytes of a file that the viewer has read.

pub mod auth;
pub mod bytes;
pub mod crypto;
pub mod decrypt;
pub mod device_id;
pub mod header;
pub mod json;
pub mod session;
pub mod spdf_parser;
pub mod verify;

use vstd::prelude::*;
use crate::crypto::{hex_decode, hex_decoded};
use crate::decrypt::{decrypt_content_slice, opened_with_slice};
use crate::device_id::{
    device_hash_of, device_name_of, generate_device_hash, get_device_name, hardware_of,
    HardwareInfo, SystemSignals,
};
use crate::spdf_parser::{container_of, layout_issue, SpdfFile};
use crate::verify::{signature_issue, verify_signature};

verus! {

/// What a viewer shows of a container before it opens it.
#[derive(Debug)]
pub struct SpdfInfo {
    pub doc_id: String,
    pub title: String,
    pub org_id: String,
    pub server_url: String,
    pub created_at: String,
    pub allow_print: bool,
    pub allow_copy: bool,
    pub max_devices: u32,
    pub requires_device_binding: bool,
}

/// A container's summary as plain values.
pub struct InfoView {
    pub doc_id: Seq<char>,
    pub title: Seq<char>,
    pub org_id: Seq<char>,
    pub server_url: Seq<char>,
    pub created_at: Seq<char>,
    pub allow_print: bool,
    pub allow_copy: bool,
    pub max_devices: u32,
    pub requires_device_binding: bool,
}

impl View for SpdfInfo {
    type V = InfoView;

    open spec fn view(&self) -> InfoView {
        InfoView {
            doc_id: self.doc_id@,
            title: self.title@,
            org_id: self.org_id@,
            server_url: self.server_url@,
            created_at: self.created_at@,
            allow_print: self.allow_print,
            allow_copy: self.allow_copy,
            max_devices: self.max_devices,
            requires_device_binding: self.requires_device_binding,
        }
    }
}

/// The identity and the display name of a device.
#[derive(Debug)]
pub struct DeviceInfo {
    pub device_hash: String,
    pub device_name: String,
}

/// The outcome of opening a container: the document, or why there is none.
#[derive(Debug)]
pub struct DecryptResult {
    pub success: bool,
    pub pdf_data: Option<Vec<u8>>,
    pub error: Option<String>,
}

/// The outcome of opening a container as plain values.
pub struct DecryptView {
    pub success: bool,
    pub pdf_data: Option<Seq<u8>>,
    pub error: Option<Seq<char>>,
}

impl View for DecryptResult {
    type V = DecryptView;

    open spec fn view(&self) -> DecryptView {
        DecryptView {
            success: self.success,
            pdf_data: match self.pdf_data {
                Some(data) => Some(data@),
                None => None,
            },
            error: match self.error {
                Some(text) => Some(text@),
                None => None,
            },
        }
    }
}

/// How the format error of a buffer is rendered; meaningful where the buffer
/// has a layout issue.
pub open spec fn format_rendering(data: Seq<u8>) -> Seq<char> {
    "Format error: "@ + layout_issue(data).unwrap().text()
}

/// The summary of the container that a buffer holds.
pub open spec fn info_of(data: Seq<u8>) -> InfoView {
    let file = container_of(data);
    InfoView {
        doc_id: file.header.doc_id,
        title: file.header.title,
        org_id: file.header.org_id,
        server_url: file.header.server_url,
        created_at: file.header.created_at,
        allow_print: file.header.permissions.allow_print,
        allow_copy: file.header.permissions.allow_copy,
        max_devices: file.header.permissions.max_devices,
        requires_device_binding: file.flags & 0x0001 != 0,
    }
}

/// Summarises the container in the bytes of a file: the header's identity
/// fields and permissions, and the device binding flag. Fails with the
/// rendered format error where the bytes are no container.
pub fn get_spdf_info(data: &[u8]) -> (r: Result<SpdfInfo, String>)
    ensures
        match r {
            Ok(info) => layout_issue(data@) is None && info@ == info_of(data@),
            Err(text) => layout_issue(data@) is Some && text@ == format_rendering(data@),
        },
{
    match SpdfFile::parse(data) {
        Ok(spdf) => {
            let requires_device_binding = spdf.requires_device_binding();
            Ok(
                SpdfInfo {
                    doc_id: spdf.header.doc_id,
                    title: spdf.header.title,
                    org_id: spdf.header.org_id,
                    server_url: spdf.header.server_url,
                    created_at: spdf.header.created_at,
                    allow_print: spdf.header.permissions.allow_print,
                    allow_copy: spdf.header.permissions.allow_copy,
                    max_devices: spdf.header.permissions.max_devices,
                    requires_device_binding,
                },
            )
        },
        Err(e) => Err(e.to_string()),
    }
}

/// Derives the identity and the display name of a device from what was read
/// from the system. Never fails.
pub fn get_device_info(signals: &SystemSignals) -> (r: Result<DeviceInfo, String>)
    ensures
        r matches Ok(info) && info.device_hash@ == device_hash_of(hardware_of(*signals))
            && info.device_hash@.len() == 64 && info.device_name@ == device_name_of(
            signals.hostname,
            signals.os_name,
        ),
{
    let hardware = match HardwareInfo::collect(signals) {
        Ok(hardware) => hardware,
        Err(e) => {
            return Err(e.to_string());
        },
    };
    let device_hash = match generate_device_hash(&hardware) {
        Ok(hash) => hash,
        Err(e) => {
            return Err(e.to_string());
        },
    };
    Ok(DeviceInfo { device_hash, device_name: get_device_name(&signals.hostname, &signals.os_name) })
}

/// Why the bytes of a file are not an authentic container, rendered;
/// `None` for a container that verifies under the key in its header.
pub open spec fn verification_failure(data: Seq<u8>) -> Option<Seq<char>> {
    if layout_issue(data) is Some {
        Some(format_rendering(data))
    } else {
        match signature_issue(container_of(data)) {
            Some(issue) => Some(issue.rendering()),
            None => None,
        }
    }
}

/// Parses the bytes of a file and verifies the container's signature with
/// the public key in its header. `Ok(true)` for an authentic container, the
/// rendered error for anything else.
pub fn verify_spdf(data: &[u8]) -> (r: Result<bool, String>)
    ensures
        match r {
            Ok(authentic) => authentic && verification_failure(data@) is None,
            Err(text) => verification_failure(data@) == Some(text@),
        },
{
    let spdf = match SpdfFile::parse(data) {
        Ok(spdf) => spdf,
        Err(e) => {
            return Err(e.to_string());
        },
    };
    match verify_signature(&spdf) {
        Ok(_) => Ok(true),
        Err(e) => Err(e.to_string()),
    }
}

/// The outcome for a container that opened: the document and no error.
pub open spec fn opened_view(plain: Seq<u8>) -> DecryptView {
    DecryptView { success: true, pdf_data: Some(plain), error: None }
}

/// The outcome for a container that did not open: the reason and no document.
pub open spec fn refused_view(reason: Seq<char>) -> DecryptView {
    DecryptView { success: false, pdf_data: None, error: Some(reason) }
}

/// What opening the bytes of a file with a key in hex gives.
///
/// Bytes that are no container, and a key that is no hex, are errors. A
/// container that does not verify is refused before the key is looked at;
/// one that verifies is decrypted, and refused where decryption fails.
pub open spec fn decrypt_outcome(data: Seq<u8>, key_hex: Seq<char>) -> Result<
    DecryptView,
    Seq<char>,
> {
    if layout_issue(data) is Some {
        Err(format_rendering(data))
    } else if signature_issue(container_of(data)) is Some {
        Ok(
            refused_view(
                "Signature verification failed: "@ + signature_issue(
                    container_of(data),
                ).unwrap().rendering(),
            ),
        )
    } else if hex_decoded(key_hex) is None {
        Err("Invalid key hex"@)
    } else {
        match opened_with_slice(container_of(data), hex_decoded(key_hex).unwrap()) {
            Ok(plain) => Ok(opened_view(plain)),
            Err(issue) => Ok(refused_view("Decryption error: "@ + issue.text())),
        }
    }
}

/// Opens the container in the bytes of a file: parses it, verifies its
/// signature with the key in its header, and decrypts its content with the
/// document key given in hex.
pub fn decrypt_spdf(data: &[u8], doc_key_hex: &str) -> (r: Result<DecryptResult, String>)
    ensures
        match r {
            Ok(result) => decrypt_outcome(data@, doc_key_hex@) == Ok::<DecryptView, Seq<char>>(
                result@,
            ),
            Err(text) => decrypt_outcome(data@, doc_key_hex@) == Err::<DecryptView, Seq<char>>(
                text@,
            ),
        },
{
    let spdf = match SpdfFile::parse(data) {
        Ok(spdf) => spdf,
        Err(e) => {
            return Err(e.to_string());
        },
    };
    if let Err(e) = verify_signature(&spdf) {
        let reason = "Signature verification failed: ".to_owned().concat(e.to_string().as_str());
        return Ok(DecryptResult { success: false, pdf_data: None, error: Some(reason) });
    }
    let doc_key = match hex_decode(doc_key_hex) {
        Ok(key) => key,
        Err(_) => {
            return Err("Invalid key hex".to_owned());
        },
    };
    match decrypt_content_slice(&spdf, doc_key.as_slice()) {
        Ok(pdf_data) => Ok(DecryptResult { success: true, pdf_data: Some(pdf_data), error: None }),
        Err(e) => Ok(DecryptResult { success: false, pdf_data: None, error: Some(e.to_string()) }),
    }
}

} // verus!
