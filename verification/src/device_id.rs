//! The device identity: a deterministic hash of hardware signals that binds
//! a licence to one machine.
//!
//! Reading the signals is the caller's work. This module turns what was read
//! into the identity: it fills in the fallbacks, fixes the order of the
//! digest input, and renders the digest.

use vstd::prelude::*;
use vstd::slice::{slice_subrange, slice_to_vec};
use vstd::utf8::encode_utf8;
use crate::bytes::{contains, contains_pattern, find, lemma_position_of_skip, position_of};
use crate::crypto::{hex_encode, hex_lower, sha256, sha256_digest, text_trimmed, trim};

verus! {

/// Error type for device ID operations.
#[derive(Debug)]
pub enum DeviceIdError {
    SystemInfoError(String),
    HashError(String),
}

impl DeviceIdError {
    /// The rendering of an error: its kind, then its message.
    pub open spec fn rendering(self) -> Seq<char> {
        match self {
            DeviceIdError::SystemInfoError(m) => "System info error: "@ + m@,
            DeviceIdError::HashError(m) => "Hash error: "@ + m@,
        }
    }

    /// Renders the error for people.
    pub fn to_string(&self) -> (r: String)
        ensures
            r@ == self.rendering(),
    {
        match self {
            DeviceIdError::SystemInfoError(m) => "System info error: ".to_owned().concat(
                m.as_str(),
            ),
            DeviceIdError::HashError(m) => "Hash error: ".to_owned().concat(m.as_str()),
        }
    }
}

/// What could be read from the system, signal by signal: `None` where a
/// signal was not available.
#[derive(Debug, Clone)]
pub struct SystemSignals {
    /// The descriptive string and the vendor of the first CPU.
    pub cpu: Option<(String, String)>,
    pub os_name: Option<String>,
    pub os_version: Option<String>,
    pub kernel_version: Option<String>,
    /// The persistent machine identifier of the operating system.
    pub machine_id: Option<String>,
    pub hostname: Option<String>,
}

/// Hardware information collected for fingerprinting.
#[derive(Debug, Clone)]
pub struct HardwareInfo {
    pub cpu_id: String,
    pub os_info: String,
    pub machine_id: String,
    pub hostname: String,
}

/// Hardware information as plain values.
pub struct HardwareInfoView {
    pub cpu_id: Seq<char>,
    pub os_info: Seq<char>,
    pub machine_id: Seq<char>,
    pub hostname: Seq<char>,
}

impl View for HardwareInfo {
    type V = HardwareInfoView;

    open spec fn view(&self) -> HardwareInfoView {
        HardwareInfoView {
            cpu_id: self.cpu_id@,
            os_info: self.os_info@,
            machine_id: self.machine_id@,
            hostname: self.hostname@,
        }
    }
}

/// The text of a signal, or a fallback where the signal is missing.
pub open spec fn text_or(signal: Option<String>, fallback: Seq<char>) -> Seq<char> {
    match signal {
        Some(s) => s@,
        None => fallback,
    }
}

/// The CPU's identity: brand and vendor with a hyphen between, or the
/// sentinel `unknown-cpu`.
pub open spec fn cpu_id_of(cpu: Option<(String, String)>) -> Seq<char> {
    match cpu {
        Some((brand, vendor)) => brand@ + "-"@ + vendor@,
        None => "unknown-cpu"@,
    }
}

/// The hardware information that a set of signals gives: each signal, or its
/// sentinel where the signal is missing.
pub open spec fn hardware_of(signals: SystemSignals) -> HardwareInfoView {
    HardwareInfoView {
        cpu_id: cpu_id_of(signals.cpu),
        os_info: text_or(signals.os_name, ""@) + "-"@ + text_or(signals.os_version, ""@) + "-"@
            + text_or(signals.kernel_version, ""@),
        machine_id: text_or(signals.machine_id, "unknown-machine"@),
        hostname: text_or(signals.hostname, "unknown-host"@),
    }
}

fn text_or_else(signal: &Option<String>, fallback: &str) -> (r: String)
    ensures
        r@ == text_or(*signal, fallback@),
{
    match signal {
        Some(s) => s.clone(),
        None => fallback.to_owned(),
    }
}

impl HardwareInfo {
    /// Collect hardware information from what was read from the system.
    /// Never fails: a signal that is missing is replaced by its sentinel.
    pub fn collect(signals: &SystemSignals) -> (r: Result<HardwareInfo, DeviceIdError>)
        ensures
            r matches Ok(info) && info@ == hardware_of(*signals),
    {
        let cpu_id = match &signals.cpu {
            Some((brand, vendor)) => brand.clone().concat("-").concat(vendor.as_str()),
            None => "unknown-cpu".to_owned(),
        };
        let os_name = text_or_else(&signals.os_name, "");
        let os_version = text_or_else(&signals.os_version, "");
        let kernel_version = text_or_else(&signals.kernel_version, "");
        let os_info = os_name.concat("-").concat(os_version.as_str()).concat("-").concat(
            kernel_version.as_str(),
        );
        proof {
            reveal_strlit("");
            assert(""@ =~= Seq::<char>::empty());
        }
        Ok(
            HardwareInfo {
                cpu_id,
                os_info,
                machine_id: text_or_else(&signals.machine_id, "unknown-machine"),
                hostname: text_or_else(&signals.hostname, "unknown-host"),
            },
        )
    }
}

/// The first of two sources that could be read, without the white space
/// around it; `None` where neither could be read.
pub open spec fn first_trimmed(primary: Option<String>, secondary: Option<String>) -> Option<
    Seq<char>,
> {
    match primary {
        Some(s) => Some(text_trimmed(s@)),
        None => match secondary {
            Some(s) => Some(text_trimmed(s@)),
            None => None,
        },
    }
}

/// Get the machine-specific ID from the two places where the operating
/// system keeps it: the contents of the first that could be read, trimmed.
pub fn get_machine_id(primary: &Option<String>, secondary: &Option<String>) -> (r: Result<
    String,
    DeviceIdError,
>)
    ensures
        match r {
            Ok(id) => first_trimmed(*primary, *secondary) == Some(id@),
            Err(e) => {
                &&& first_trimmed(*primary, *secondary) is None
                &&& e matches DeviceIdError::SystemInfoError(m)
                &&& m@ == "Could not get machine ID"@
            },
        },
{
    match primary {
        Some(s) => Ok(trim(s.as_str())),
        None => match secondary {
            Some(s) => Ok(trim(s.as_str())),
            None => Err(DeviceIdError::SystemInfoError("Could not get machine ID".to_owned())),
        },
    }
}

/// A double quote.
pub const QUOTE: u8 = 0x22;

/// A line feed.
pub const LINE_FEED: u8 = 0x0a;

/// The fourth of the pieces into which double quotes cut a line: what
/// stands between the third quote and the fourth, or the end of the line.
/// `None` for a line with fewer than three quotes.
pub open spec fn fourth_piece(line: Seq<u8>) -> Option<Seq<u8>> {
    let q1 = position_of(line, QUOTE, 0);
    let q2 = position_of(line, QUOTE, q1 + 1);
    let q3 = position_of(line, QUOTE, q2 + 1);
    if q3 >= line.len() {
        None
    } else {
        Some(line.subrange(q3 + 1, position_of(line, QUOTE, q3 + 1)))
    }
}

/// The hardware UUID in a listing of the platform device, as the system's
/// registry tool prints it: of the first line that names `IOPlatformUUID`
/// and has a fourth piece, that piece. Lines end with a line feed.
pub open spec fn listed_uuid(listing: Seq<u8>) -> Option<Seq<u8>>
    decreases listing.len(),
{
    if listing.len() == 0 {
        None
    } else {
        let end = position_of(listing, LINE_FEED, 0);
        let line = listing.subrange(0, end);
        if contains_pattern(line, encode_utf8("IOPlatformUUID"@)) && fourth_piece(line) is Some {
            fourth_piece(line)
        } else if 0 <= end < listing.len() {
            listed_uuid(listing.skip(end + 1))
        } else {
            None
        }
    }
}

/// Cuts the fourth quoted piece from a line.
pub fn quoted_value(line: &[u8]) -> (r: Option<Vec<u8>>)
    ensures
        match r {
            Some(piece) => fourth_piece(line@) == Some(piece@),
            None => fourth_piece(line@) is None,
        },
{
    let n = line.len();
    let q1 = find(line, QUOTE, 0);
    if q1 >= n {
        return None;
    }
    let q2 = find(line, QUOTE, q1 + 1);
    if q2 >= n {
        return None;
    }
    let q3 = find(line, QUOTE, q2 + 1);
    if q3 >= n {
        return None;
    }
    let q4 = find(line, QUOTE, q3 + 1);
    Some(slice_to_vec(slice_subrange(line, q3 + 1, q4)))
}

/// Finds the hardware UUID in a listing of the platform device.
pub fn find_listed_uuid(listing: &[u8]) -> (r: Option<Vec<u8>>)
    ensures
        match r {
            Some(uuid) => listed_uuid(listing@) == Some(uuid@),
            None => listed_uuid(listing@) is None,
        },
{
    let n = listing.len();
    let mut start: usize = 0;
    assert(listing@.skip(0) =~= listing@);
    while start < n
        invariant
            start <= n,
            n == listing@.len(),
            listed_uuid(listing@.skip(start as int)) == listed_uuid(listing@),
        decreases n - start,
    {
        let ghost rest = listing@.skip(start as int);
        let end = find(listing, LINE_FEED, start);
        let line = slice_subrange(listing, start, end);
        proof {
            lemma_position_of_skip(listing@, LINE_FEED, start as int, 0);
            assert(rest.subrange(0, end - start) =~= line@);
        }
        if contains(line, "IOPlatformUUID".as_bytes()) {
            if let Some(uuid) = quoted_value(line) {
                return Some(uuid);
            }
        }
        if end >= n {
            return None;
        }
        proof {
            assert(rest.skip(end - start + 1) =~= listing@.skip(end + 1));
        }
        start = end + 1;
    }
    None
}

/// The eight bytes that write a 64-bit number, most significant first.
pub open spec fn u64_be(x: int) -> Seq<u8> {
    seq![
        (x / 72057594037927936) as u8,
        ((x / 281474976710656) % 256) as u8,
        ((x / 1099511627776) % 256) as u8,
        ((x / 4294967296) % 256) as u8,
        ((x / 16777216) % 256) as u8,
        ((x / 65536) % 256) as u8,
        ((x / 256) % 256) as u8,
        (x % 256) as u8,
    ]
}

/// Calls `std::hash::BuildHasher::hash_one` on the host name, with the
/// builder of `std::collections::hash_map::DefaultHasher`. The standard
/// library does not say what that hasher computes, so nothing is claimed
/// of the number.
#[verifier::external_body]
fn default_hash(hostname: &Option<String>) -> (r: u64) {
    let builder = std::hash::BuildHasherDefault::<
        std::collections::hash_map::DefaultHasher,
    >::default();
    std::hash::BuildHasher::hash_one(&builder, hostname)
}

/// Renders a 64-bit hash as a machine id: 16 lower-case hex digits.
pub fn machine_id_from_hash(hash: u64) -> (r: String)
    ensures
        r@ == hex_lower(u64_be(hash as int)),
        r@.len() == 16,
{
    let bytes: [u8; 8] = [
        (hash / 72057594037927936) as u8,
        ((hash / 281474976710656) % 256) as u8,
        ((hash / 1099511627776) % 256) as u8,
        ((hash / 4294967296) % 256) as u8,
        ((hash / 16777216) % 256) as u8,
        ((hash / 65536) % 256) as u8,
        ((hash / 256) % 256) as u8,
        (hash % 256) as u8,
    ];
    assert(bytes@ =~= u64_be(hash as int));
    hex_encode(bytes.as_slice())
}

/// The machine id of a platform that keeps none: a hash of the host name,
/// as 16 lower-case hex digits. Which hash is left to the standard library.
pub fn fallback_machine_id(hostname: &Option<String>) -> (r: String)
    ensures
        exists|hash: u64| r@ == hex_lower(u64_be(hash as int)),
        r@.len() == 16,
{
    machine_id_from_hash(default_hash(hostname))
}

/// Salt for device fingerprinting: the ASCII text `spdf_device_salt_v1`.
pub const DEVICE_SALT: [u8; 19] = [
    0x73, 0x70, 0x64, 0x66, 0x5f, 0x64, 0x65, 0x76, 0x69, 0x63, 0x65, 0x5f, 0x73, 0x61, 0x6c,
    0x74, 0x5f, 0x76, 0x31,
];

/// The byte that separates the components of the digest input: a colon.
pub const DELIMITER: u8 = 0x3a;

/// The digest input of a device identity: the salt, then CPU, machine id and
/// operating system in this order, as UTF-8, with a colon between them.
pub open spec fn device_hash_input(info: HardwareInfoView) -> Seq<u8> {
    DEVICE_SALT@ + encode_utf8(info.cpu_id) + seq![DELIMITER] + encode_utf8(info.machine_id)
        + seq![DELIMITER] + encode_utf8(info.os_info)
}

/// The device identity of a machine: the SHA-256 digest of the digest input
/// in lower-case hex.
pub open spec fn device_hash_of(info: HardwareInfoView) -> Seq<char> {
    hex_lower(sha256(device_hash_input(info)))
}

/// Builds the digest input of a device identity.
pub fn digest_input(info: &HardwareInfo) -> (r: Vec<u8>)
    ensures
        r@ == device_hash_input(info@),
{
    let mut input: Vec<u8> = Vec::new();
    input.extend_from_slice(DEVICE_SALT.as_slice());
    input.extend_from_slice(info.cpu_id.as_str().as_bytes());
    input.push(DELIMITER);
    input.extend_from_slice(info.machine_id.as_str().as_bytes());
    input.push(DELIMITER);
    input.extend_from_slice(info.os_info.as_str().as_bytes());
    assert(input@ =~= device_hash_input(info@));
    input
}

/// Generate a deterministic device hash from hardware info: 64 lower-case
/// hex digits. Never fails.
pub fn generate_device_hash(info: &HardwareInfo) -> (r: Result<String, DeviceIdError>)
    ensures
        r matches Ok(hash) && hash@ == device_hash_of(info@) && hash@.len() == 64,
{
    let input = digest_input(info);
    let digest = sha256_digest(input.as_slice());
    Ok(hex_encode(digest.as_slice()))
}

/// Two machines with the same CPU, machine id and operating system have the
/// same device identity: the identity depends on nothing else, so deriving
/// it again on an unchanged machine gives the same 64 digits.
pub proof fn lemma_device_hash_deterministic(a: HardwareInfoView, b: HardwareInfoView)
    requires
        a.cpu_id == b.cpu_id,
        a.machine_id == b.machine_id,
        a.os_info == b.os_info,
    ensures
        device_hash_of(a) == device_hash_of(b),
{
}

/// The display name of a device: host name and operating system, with
/// `Unknown` and `Unknown OS` where they are missing.
pub open spec fn device_name_of(hostname: Option<String>, os_name: Option<String>) -> Seq<char> {
    text_or(hostname, "Unknown"@) + " ("@ + text_or(os_name, "Unknown OS"@) + ")"@
}

/// Get a human-readable device name.
pub fn get_device_name(hostname: &Option<String>, os_name: &Option<String>) -> (r: String)
    ensures
        r@ == device_name_of(*hostname, *os_name),
{
    let host = text_or_else(hostname, "Unknown");
    let os = text_or_else(os_name, "Unknown OS");
    host.concat(" (").concat(os.as_str()).concat(")")
}

/// Verify that a device matches a given hash: derives the identity of the
/// device and compares it with the recorded one.
pub fn verify_device_hash(info: &HardwareInfo, expected_hash: &str) -> (r: Result<
    bool,
    DeviceIdError,
>)
    ensures
        r matches Ok(same) && same == (device_hash_of(info@) == expected_hash@),
{
    match generate_device_hash(info) {
        Ok(current_hash) => Ok(current_hash == expected_hash.to_owned()),
        Err(e) => Err(e),
    }
}

} // verus!
