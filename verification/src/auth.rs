//! The salted device identity: a hardware identifier mixed with a salt that
//! the application keeps on disk.
//!
//! Reading the identifier and keeping the salt is the caller's work; this
//! module derives the identity from them.

use vstd::prelude::*;
use vstd::utf8::encode_utf8;
use crate::crypto::{hex_encode, hex_lower, sha256, sha256_digest, trim};
use crate::device_id::{first_trimmed, text_or};

verus! {

/// The identity and the display name of a device, as the key exchange asks
/// for them.
#[derive(Debug, Clone)]
pub struct DeviceInfo {
    pub device_id: String,
    pub device_name: String,
}

/// The salted identity: the SHA-256 digest of the hardware identifier
/// followed by the salt, both as UTF-8, in lower-case hex.
pub open spec fn device_id_of(hardware_uuid: Seq<char>, salt: Seq<char>) -> Seq<char> {
    hex_lower(sha256(device_id_input(hardware_uuid, salt)))
}

/// The digest input of a salted identity: the hardware identifier, then
/// the salt, both as UTF-8.
pub open spec fn device_id_input(hardware_uuid: Seq<char>, salt: Seq<char>) -> Seq<u8> {
    encode_utf8(hardware_uuid) + encode_utf8(salt)
}

/// Builds the digest input of a salted identity. A missing hardware
/// identifier is replaced by `UNKNOWN_HARDWARE`.
pub fn digest_input(hardware_uuid: &Option<String>, salt: &str) -> (r: Vec<u8>)
    ensures
        r@ == device_id_input(text_or(*hardware_uuid, "UNKNOWN_HARDWARE"@), salt@),
{
    let mut input: Vec<u8> = Vec::new();
    match hardware_uuid {
        Some(uuid) => input.extend_from_slice(uuid.as_str().as_bytes()),
        None => input.extend_from_slice("UNKNOWN_HARDWARE".as_bytes()),
    }
    input.extend_from_slice(salt.as_bytes());
    assert(input@ =~= device_id_input(text_or(*hardware_uuid, "UNKNOWN_HARDWARE"@), salt@));
    input
}

/// Derives the device identity from the hardware identifier and the salt,
/// and names the device after its host. A missing hardware identifier is
/// replaced by `UNKNOWN_HARDWARE`, a missing host name by `Unknown Device`.
/// Never fails.
pub fn get_device_info(hardware_uuid: &Option<String>, salt: &str, hostname: &Option<String>) -> (r:
    Result<DeviceInfo, String>)
    ensures
        r matches Ok(info) && info.device_id@ == device_id_of(
            text_or(*hardware_uuid, "UNKNOWN_HARDWARE"@),
            salt@,
        ) && info.device_id@.len() == 64 && info.device_name@ == text_or(
            *hostname,
            "Unknown Device"@,
        ),
{
    let input = digest_input(hardware_uuid, salt);
    let digest = sha256_digest(input.as_slice());
    let device_name = match hostname {
        Some(name) => name.clone(),
        None => "Unknown Device".to_owned(),
    };
    Ok(DeviceInfo { device_id: hex_encode(digest.as_slice()), device_name })
}

/// The hardware identifier of this platform from the two places where the
/// operating system keeps it: the contents of the first that could be read,
/// trimmed.
pub fn get_platform_uuid(primary: &Option<String>, secondary: &Option<String>) -> (r: Result<
    String,
    String,
>)
    ensures
        match r {
            Ok(id) => first_trimmed(*primary, *secondary) == Some(id@),
            Err(m) => first_trimmed(*primary, *secondary) is None && m@ == "UUID not found"@,
        },
{
    match primary {
        Some(s) => Ok(trim(s.as_str())),
        None => match secondary {
            Some(s) => Ok(trim(s.as_str())),
            None => Err("UUID not found".to_owned()),
        },
    }
}

} // verus!
