use aes_gcm::aead::Aead;
use aes_gcm::KeyInit;
use base64::Engine;
use ed25519_dalek::Signer;
use sha2::Digest;
use spdf_core::decrypt::{
    decrypt_content, decrypt_content_base64, decrypt_content_slice, validate_pdf_content,
};
use spdf_core::header::{
    assemble_header, count, metadata, optional_count, optional_text, parse_header, permissions,
    watermark, HeaderFields,
};
use spdf_core::spdf_parser::{
    quick_info, validate_magic, FormatIssue, SpdfError, SpdfFile, SpdfHeader, SpdfPermissions,
    SpdfWatermark, MIN_CONTAINER_SIZE,
};
use spdf_core::verify::{
    is_potentially_tampered, key_from_der, parse_ed25519_public_key_pem, verify_signature,
    verify_signature_with_key, verify_with_raw_key, SignatureIssue,
};
use spdf_core::auth::DeviceInfo;
use spdf_core::bytes::{contains, find, matches_at, remove_all};
use spdf_core::session::{
    key_granted, key_refused, login_granted, login_refused, login_url, start_open, KeyResponse,
    OpenStart,
};
use spdf_core::{decrypt_spdf, get_spdf_info, verify_spdf};

const DOC_KEY: [u8; 32] = [0x42; 32];
const NONCE: [u8; 12] = [9, 8, 7, 6, 5, 4, 3, 2, 1, 0, 1, 2];
const PLAIN: &[u8] = b"%PDF-1.7\nhello protected world\n";

fn signing_key() -> ed25519_dalek::SigningKey {
    ed25519_dalek::SigningKey::from_bytes(&[7u8; 32])
}

fn pem_of(key: &[u8; 32]) -> String {
    let mut der = vec![0x30, 0x2a, 0x30, 0x05, 0x06, 0x03, 0x2b, 0x65, 0x70, 0x03, 0x21, 0x00];
    der.extend_from_slice(key);
    let body = base64::engine::general_purpose::STANDARD.encode(&der);
    format!("-----BEGIN PUBLIC KEY-----\n{}\n-----END PUBLIC KEY-----\n", body)
}

fn own_pem() -> String {
    pem_of(&signing_key().verifying_key().to_bytes())
}

fn header_json(doc_id: &str) -> String {
    let pem = own_pem().replace('\n', "\\n");
    format!(
        "{{\"spdf_version\":\"1.0\",\"doc_id\":\"{}\",\"org_id\":\"o1\",\"title\":\"Report\",\"server_url\":\"https://x\",\"created_at\":\"2024-01-01T00:00:00Z\",\"public_key\":\"{}\",\"permissions\":{{\"allow_print\":true,\"allow_copy\":false,\"max_devices\":3,\"offline_days\":7}},\"watermark\":{{\"enabled\":false,\"text\":\"w\"}},\"metadata\":{{\"k\":[1,2]}}}}",
        doc_id, pem
    )
}

fn seal(plain: &[u8]) -> Vec<u8> {
    let cipher = aes_gcm::Aes256Gcm::new((&DOC_KEY).into());
    cipher.encrypt(aes_gcm::Nonce::from_slice(&NONCE), plain).unwrap()
}

fn unsigned(header: &[u8], flags: u16, sealed: &[u8]) -> Vec<u8> {
    let mut data = Vec::new();
    data.extend_from_slice(b"SPDF");
    data.push(1);
    data.extend_from_slice(&flags.to_be_bytes());
    data.extend_from_slice(&(header.len() as u32).to_be_bytes());
    data.extend_from_slice(header);
    data.extend_from_slice(&[0xAB; 40]);
    data.extend_from_slice(&NONCE);
    data.extend_from_slice(sealed);
    data
}

fn sign(unsigned: &[u8]) -> Vec<u8> {
    let digest = sha2::Sha256::digest(unsigned);
    let mut data = unsigned.to_vec();
    data.extend_from_slice(&signing_key().sign(&digest).to_bytes());
    data
}

fn container_with(doc_id: &str, flags: u16) -> Vec<u8> {
    sign(&unsigned(header_json(doc_id).as_bytes(), flags, &seal(PLAIN)))
}

fn container() -> Vec<u8> {
    container_with("d1", 0x0015)
}

fn format_message(r: Result<SpdfFile, SpdfError>) -> String {
    match r {
        Err(SpdfError::FormatError(m)) => m,
        Err(e) => panic!("another error: {}", e.to_string()),
        Ok(_) => panic!("parsed"),
    }
}

fn signature_message(r: Result<(), SpdfError>) -> String {
    match r {
        Err(SpdfError::SignatureError(m)) => m,
        Err(e) => panic!("another error: {}", e.to_string()),
        Ok(_) => panic!("verified"),
    }
}

fn decryption_message(r: Result<Vec<u8>, SpdfError>) -> String {
    match r {
        Err(SpdfError::DecryptionError(m)) => m,
        Err(e) => panic!("another error: {}", e.to_string()),
        Ok(_) => panic!("decrypted"),
    }
}

#[test]
fn test_validate_magic() {
    assert!(validate_magic(b"SPDF"));
    assert!(validate_magic(b"SPDFextradata"));
    assert!(!validate_magic(b"PDF"));
    assert!(!validate_magic(b""));
}

#[test]
fn test_parse_invalid_magic() {
    let data = b"INVALID_DATA";
    let result = SpdfFile::parse(data);
    assert!(matches!(result, Err(SpdfError::FormatError(_))));
}

#[test]
fn test_parse_too_short() {
    let data = b"SPDF";
    let result = SpdfFile::parse(data);
    assert!(matches!(result, Err(SpdfError::FormatError(_))));
}

#[test]
fn test_validate_pdf_content() {
    assert!(validate_pdf_content(b"%PDF-1.4\n..."));
    assert!(!validate_pdf_content(b"Not a PDF"));
    assert!(!validate_pdf_content(b""));
}

#[test]
fn test_decrypt_invalid_key_length() {
    let short_key = vec![0u8; 16];
    let spdf = SpdfFile::parse(&container()).unwrap();
    let result = decrypt_content_slice(&spdf, &short_key);
    assert!(matches!(result, Err(SpdfError::DecryptionError(_))));
}

#[test]
fn test_parse_pem_format() {
    let valid_pem = "-----BEGIN PUBLIC KEY-----
MCowBQYDK2VwAyEAthisisafakepublickeyfortesting123456789
-----END PUBLIC KEY-----";
    let result = parse_ed25519_public_key_pem(valid_pem);
    let _ = result;
}

#[test]
fn a_pem_body_of_the_wrong_length_is_no_base64() {
    let pem = "-----BEGIN PUBLIC KEY-----
MCowBQYDK2VwAyEAthisisafakepublickeyfortesting123456789
-----END PUBLIC KEY-----";
    let result = parse_ed25519_public_key_pem(pem);
    assert!(matches!(result, Err(SpdfError::SignatureError(m)) if m == "Invalid PEM base64"));
}

#[test]
fn test_invalid_pem() {
    let invalid_pem = "not a valid pem";
    let result = parse_ed25519_public_key_pem(invalid_pem);
    assert!(result.is_err());
}

#[test]
fn validate_magic_looks_at_four_bytes_only() {
    assert!(!validate_magic(b"SPD"));
    assert!(!validate_magic(b"SPDG"));
    assert!(!validate_magic(b"sPDF"));
    assert!(validate_magic(b"SPDF\x00"));
}

#[test]
fn validate_pdf_content_looks_at_four_bytes_only() {
    assert!(validate_pdf_content(b"%PDF"));
    assert!(!validate_pdf_content(b"%PD"));
    assert!(!validate_pdf_content(b"%PDE-1.4"));
}

#[test]
fn parse_cuts_every_field() {
    let data = container();
    let header = header_json("d1");
    let sealed = seal(PLAIN);
    let spdf = SpdfFile::parse(&data).unwrap();
    assert_eq!(spdf.version, 1);
    assert_eq!(spdf.flags, 0x0015);
    assert_eq!(spdf.header_bytes, header.as_bytes());
    assert_eq!(spdf.wrapped_key, vec![0xAB; 40]);
    assert_eq!(spdf.nonce, NONCE.to_vec());
    assert_eq!(spdf.ciphertext, sealed[..sealed.len() - 16].to_vec());
    assert_eq!(spdf.auth_tag, sealed[sealed.len() - 16..].to_vec());
    assert_eq!(spdf.signature, data[data.len() - 64..].to_vec());
    assert_eq!(spdf.build_unsigned_data().unwrap(), data[..data.len() - 64].to_vec());
}

#[test]
fn parse_reads_the_header() {
    let spdf = SpdfFile::parse(&container()).unwrap();
    assert_eq!(spdf.header.spdf_version, "1.0");
    assert_eq!(spdf.header.doc_id, "d1");
    assert_eq!(spdf.header.org_id, "o1");
    assert_eq!(spdf.header.title, "Report");
    assert_eq!(spdf.header.server_url, "https://x");
    assert_eq!(spdf.header.created_at, "2024-01-01T00:00:00Z");
    assert_eq!(spdf.header.public_key, own_pem());
    assert!(spdf.header.permissions.allow_print);
    assert!(!spdf.header.permissions.allow_copy);
    assert_eq!(spdf.header.permissions.max_devices, 3);
    assert_eq!(spdf.header.permissions.offline_days, 7);
    assert!(!spdf.header.watermark.enabled);
    assert_eq!(spdf.header.watermark.text, "w");
    assert_eq!(spdf.header.metadata, "{\"k\":[1,2]}");
    assert_eq!(spdf.doc_id(), "d1");
    assert_eq!(spdf.org_id(), "o1");
    assert_eq!(spdf.title(), "Report");
    assert_eq!(spdf.server_url(), "https://x");
}

#[test]
fn header_fields_that_are_left_out_take_their_defaults() {
    let text = b"{\"spdf_version\":\"1.0\",\"doc_id\":\"d\",\"org_id\":\"o\",\"server_url\":\"u\",\"extra\":5}";
    let header: SpdfHeader = parse_header(text).unwrap();
    assert_eq!(header.title, "");
    assert_eq!(header.created_at, "");
    assert_eq!(header.public_key, "");
    assert!(!header.permissions.allow_print);
    assert!(!header.permissions.allow_copy);
    assert_eq!(header.permissions.max_devices, 2);
    assert_eq!(header.permissions.offline_days, 0);
    assert!(header.watermark.enabled);
    assert_eq!(header.watermark.text, "{{user_email}} | {{device_id}}");
    assert_eq!(header.metadata, "null");
}

#[test]
fn defaults_of_permissions_and_watermark() {
    let p = SpdfPermissions::default();
    assert_eq!((p.allow_print, p.allow_copy, p.max_devices, p.offline_days), (false, false, 2, 0));
    let w = SpdfWatermark::default();
    assert!(w.enabled);
    assert_eq!(w.text, "{{user_email}} | {{device_id}}");
}

#[test]
fn offline_days_may_be_left_out_of_permissions() {
    let text = b"{\"spdf_version\":\"1.0\",\"doc_id\":\"d\",\"org_id\":\"o\",\"server_url\":\"u\",\"permissions\":{\"allow_print\":true,\"allow_copy\":true,\"max_devices\":4294967295}}";
    let header = parse_header(text).unwrap();
    assert!(header.permissions.allow_print);
    assert!(header.permissions.allow_copy);
    assert_eq!(header.permissions.max_devices, 4294967295);
    assert_eq!(header.permissions.offline_days, 0);
}

#[test]
fn malformed_headers_are_refused() {
    let base = "\"spdf_version\":\"1.0\",\"doc_id\":\"d\",\"org_id\":\"o\",\"server_url\":\"u\"";
    assert!(parse_header(format!("{{{}}}", base).as_bytes()).is_some());
    assert!(parse_header(b"").is_none());
    assert!(parse_header(b"not json").is_none());
    assert!(parse_header(b"[1,2]").is_none());
    assert!(parse_header(b"{\"doc_id\":\"d\",\"org_id\":\"o\",\"server_url\":\"u\"}").is_none());
    assert!(parse_header(b"{\"spdf_version\":\"1.0\",\"org_id\":\"o\",\"server_url\":\"u\"}").is_none());
    assert!(parse_header(b"{\"spdf_version\":\"1.0\",\"doc_id\":\"d\",\"server_url\":\"u\"}").is_none());
    assert!(parse_header(b"{\"spdf_version\":\"1.0\",\"doc_id\":\"d\",\"org_id\":\"o\"}").is_none());
    assert!(parse_header(b"{\"spdf_version\":1,\"doc_id\":\"d\",\"org_id\":\"o\",\"server_url\":\"u\"}").is_none());
    assert!(parse_header(format!("{{{},\"title\":7}}", base).as_bytes()).is_none());
    assert!(parse_header(format!("{{{},\"created_at\":null}}", base).as_bytes()).is_none());
    assert!(parse_header(format!("{{{},\"public_key\":false}}", base).as_bytes()).is_none());
    assert!(parse_header(format!("{{{},\"permissions\":\"all\"}}", base).as_bytes()).is_none());
    assert!(parse_header(format!("{{{},\"permissions\":{{\"allow_print\":true,\"allow_copy\":true}}}}", base).as_bytes()).is_none());
    assert!(parse_header(format!("{{{},\"permissions\":{{\"allow_print\":true,\"allow_copy\":true,\"max_devices\":4294967296}}}}", base).as_bytes()).is_none());
    assert!(parse_header(format!("{{{},\"permissions\":{{\"allow_print\":true,\"allow_copy\":true,\"max_devices\":-1}}}}", base).as_bytes()).is_none());
    assert!(parse_header(format!("{{{},\"permissions\":{{\"allow_print\":1,\"allow_copy\":true,\"max_devices\":1}}}}", base).as_bytes()).is_none());
    assert!(parse_header(format!("{{{},\"permissions\":{{\"allow_print\":true,\"allow_copy\":true,\"max_devices\":1,\"offline_days\":\"3\"}}}}", base).as_bytes()).is_none());
    assert!(parse_header(format!("{{{},\"watermark\":{{\"enabled\":true}}}}", base).as_bytes()).is_none());
    assert!(parse_header(format!("{{{},\"watermark\":{{\"text\":\"t\"}}}}", base).as_bytes()).is_none());
    assert!(parse_header(format!("{{{},\"watermark\":{{\"enabled\":true,\"text\":\"t\"}}}}", base).as_bytes()).is_some());
}

#[test]
fn flags_are_read_bit_by_bit() {
    let spdf = SpdfFile::parse(&container_with("d1", 0x0015)).unwrap();
    assert!(spdf.requires_device_binding());
    assert!(!spdf.allows_offline());
    assert!(spdf.allows_print());
    assert!(!spdf.allows_copy());
    assert!(spdf.has_watermark());
    let spdf = SpdfFile::parse(&container_with("d1", 0x010A)).unwrap();
    assert_eq!(spdf.flags, 0x010A);
    assert!(!spdf.requires_device_binding());
    assert!(spdf.allows_offline());
    assert!(!spdf.allows_print());
    assert!(spdf.allows_copy());
    assert!(!spdf.has_watermark());
}

#[test]
fn every_buffer_below_the_minimum_is_too_short() {
    let data = container();
    assert_eq!(MIN_CONTAINER_SIZE, 144);
    for n in 0..MIN_CONTAINER_SIZE {
        assert_eq!(format_message(SpdfFile::parse(&data[..n])), "File too short");
    }
    assert_eq!(format_message(SpdfFile::parse(&[0u8; 143])), "File too short");
}

#[test]
fn the_shortest_container_parses() {
    let header = b"{\"spdf_version\":\"1.0\",\"doc_id\":\"d\",\"org_id\":\"o\",\"server_url\":\"u\"}";
    let mut sealed = vec![0x11];
    sealed.extend_from_slice(&[0x22; 16]);
    let data = sign(&unsigned(header, 0, &sealed));
    assert_eq!(data.len(), 144 + header.len());
    let spdf = SpdfFile::parse(&data).unwrap();
    assert_eq!(spdf.ciphertext, vec![0x11]);
    assert_eq!(spdf.auth_tag, vec![0x22; 16]);
    let empty = sign(&unsigned(header, 0, &[0x22; 16]));
    assert_eq!(format_message(SpdfFile::parse(&empty)), "Invalid ciphertext length");
}

#[test]
fn a_wrong_magic_marker_is_a_format_error() {
    let good = container();
    for i in 0..4 {
        let mut data = good.clone();
        data[i] ^= 0x20;
        assert_eq!(format_message(SpdfFile::parse(&data)), "Invalid magic bytes");
    }
    assert_eq!(format_message(SpdfFile::parse(&[0u8; 200])), "Invalid magic bytes");
}

#[test]
fn a_wrong_version_is_a_format_error() {
    for version in [0u8, 2, 255] {
        let mut data = container();
        data[4] = version;
        assert_eq!(format_message(SpdfFile::parse(&data)), "Unsupported version");
    }
}

#[test]
fn a_header_length_past_the_end_is_a_format_error() {
    let mut data = container();
    let len = (data.len() - 11 + 1) as u32;
    data[7..11].copy_from_slice(&len.to_be_bytes());
    assert_eq!(
        format_message(SpdfFile::parse(&data)),
        "Invalid header length: exceeds file size"
    );
    data[7..11].copy_from_slice(&[0xff; 4]);
    assert_eq!(
        format_message(SpdfFile::parse(&data)),
        "Invalid header length: exceeds file size"
    );
}

#[test]
fn header_text_that_is_no_header_is_a_format_error() {
    let data = sign(&unsigned(b"{\"doc_id\":", 0, &seal(PLAIN)));
    assert_eq!(format_message(SpdfFile::parse(&data)), "JSON parse error");
    let mut data = container();
    data[7..11].copy_from_slice(&[0, 0, 0, 5]);
    assert_eq!(format_message(SpdfFile::parse(&data)), "JSON parse error");
}

#[test]
fn a_buffer_that_ends_early_is_a_format_error() {
    let header = b"{\"spdf_version\":\"1.0\",\"doc_id\":\"d\",\"org_id\":\"o\",\"server_url\":\"u\"}";
    let n = header.len();
    let mut data = Vec::new();
    data.extend_from_slice(b"SPDF\x01\x00\x00");
    data.extend_from_slice(&(n as u32).to_be_bytes());
    data.extend_from_slice(header);
    let mut long = data.clone();
    long.extend_from_slice(&vec![b' '; 200]);
    long[7..11].copy_from_slice(&((n + 200 - 39) as u32).to_be_bytes());
    assert_eq!(format_message(SpdfFile::parse(&long)), "File too short for wrapped key");
    long[7..11].copy_from_slice(&((n + 200 - 51) as u32).to_be_bytes());
    assert_eq!(format_message(SpdfFile::parse(&long)), "File too short for nonce");
    long[7..11].copy_from_slice(&((n + 200 - 131) as u32).to_be_bytes());
    assert_eq!(format_message(SpdfFile::parse(&long)), "File too short for tag and signature");
    long[7..11].copy_from_slice(&((n + 200 - 132) as u32).to_be_bytes());
    assert_eq!(format_message(SpdfFile::parse(&long)), "Invalid ciphertext length");
    long[7..11].copy_from_slice(&((n + 200 - 133) as u32).to_be_bytes());
    let spdf = SpdfFile::parse(&long).unwrap();
    assert_eq!(spdf.ciphertext.len(), 1);
    assert_eq!(spdf.header_bytes.len(), n + 200 - 133);
}

#[test]
fn format_issues_become_format_errors() {
    assert_eq!(FormatIssue::TooShort.to_error().to_string(), "Format error: File too short");
    assert_eq!(FormatIssue::HeaderText.to_error().to_string(), "Format error: JSON parse error");
    assert_eq!(
        SignatureIssue::Mismatch.to_error().to_string(),
        "Signature error: Signature verification failed"
    );
    assert_eq!(
        SignatureIssue::HeaderTooLong.to_error().to_string(),
        "Format error: Header too long"
    );
}

#[test]
fn errors_render_their_kind() {
    assert_eq!(SpdfError::IoError("a".to_string()).to_string(), "IO error: a");
    assert_eq!(SpdfError::FormatError("b".to_string()).to_string(), "Format error: b");
    assert_eq!(SpdfError::SignatureError("c".to_string()).to_string(), "Signature error: c");
    assert_eq!(SpdfError::DecryptionError("d".to_string()).to_string(), "Decryption error: d");
    assert_eq!(SpdfError::NetworkError("e".to_string()).to_string(), "Network error: e");
    assert_eq!(SpdfError::LicenseError("f".to_string()).to_string(), "License error: f");
}

#[test]
fn quick_info_gives_id_title_and_server() {
    let (doc_id, title, server_url) = quick_info(&container()).unwrap();
    assert_eq!(doc_id, "d1");
    assert_eq!(title, "Report");
    assert_eq!(server_url, "https://x");
    assert!(matches!(quick_info(b"SPDF"), Err(SpdfError::FormatError(_))));
}

#[test]
fn a_signed_container_parses_and_verifies() {
    let data = container();
    let spdf = SpdfFile::parse(&data).unwrap();
    assert!(verify_signature(&spdf).is_ok());
    assert!(verify_signature_with_key(&spdf, &own_pem()).is_ok());
    assert!(spdf.verify_signature(&own_pem()).is_ok());
    assert!(verify_with_raw_key(&spdf, &signing_key().verifying_key().to_bytes()).is_ok());
    assert!(!is_potentially_tampered(&spdf));
}

#[test]
fn verify_scenario_swapping_one_header_character() {
    let data = container_with("d1", 0);
    let spdf = SpdfFile::parse(&data).unwrap();
    assert_eq!(spdf.header.doc_id, "d1");
    assert_eq!(spdf.header.org_id, "o1");
    assert_eq!(spdf.header.server_url, "https://x");
    assert_eq!(spdf.nonce.len(), 12);
    assert_eq!(spdf.auth_tag.len(), 16);
    assert!(verify_signature(&spdf).is_ok());
    let at = data.windows(4).position(|w| w == b"\"d1\"").unwrap() + 2;
    let mut swapped = data.clone();
    swapped[at] = b'2';
    let spdf = SpdfFile::parse(&swapped).unwrap();
    assert_eq!(spdf.header.doc_id, "d2");
    assert_eq!(signature_message(verify_signature(&spdf)), "Signature verification failed");
}

#[test]
fn flipping_any_signed_byte_fails_verification() {
    let data = container();
    let header_len = header_json("d1").len();
    let first = 11 + header_len;
    let mut places: Vec<usize> = vec![5, 6];
    places.extend(first..data.len() - 64);
    for at in places {
        let mut tampered = data.clone();
        tampered[at] ^= 0x01;
        let spdf = SpdfFile::parse(&tampered).unwrap();
        assert_eq!(
            signature_message(verify_signature(&spdf)),
            "Signature verification failed"
        );
    }
    let title = data.windows(6).position(|w| w == b"Report").unwrap();
    let mut tampered = data.clone();
    tampered[title] = b'D';
    let spdf = SpdfFile::parse(&tampered).unwrap();
    assert_eq!(spdf.header.title, "Deport");
    assert_eq!(signature_message(verify_signature(&spdf)), "Signature verification failed");
}

#[test]
fn flipping_a_signature_byte_fails_verification() {
    let data = container();
    for at in [data.len() - 64, data.len() - 33, data.len() - 32, data.len() - 1] {
        let mut tampered = data.clone();
        tampered[at] ^= 0x01;
        let spdf = SpdfFile::parse(&tampered).unwrap();
        assert_eq!(
            signature_message(verify_signature(&spdf)),
            "Signature verification failed"
        );
    }
}

#[test]
fn another_key_does_not_verify() {
    let spdf = SpdfFile::parse(&container()).unwrap();
    let other = ed25519_dalek::SigningKey::from_bytes(&[8u8; 32]).verifying_key().to_bytes();
    assert_eq!(
        signature_message(verify_signature_with_key(&spdf, &pem_of(&other))),
        "Signature verification failed"
    );
}

#[test]
fn the_signature_covers_the_digest_and_not_the_bytes() {
    let body = unsigned(header_json("d1").as_bytes(), 0, &seal(PLAIN));
    let mut data = body.clone();
    data.extend_from_slice(&signing_key().sign(&body).to_bytes());
    let spdf = SpdfFile::parse(&data).unwrap();
    assert_eq!(signature_message(verify_signature(&spdf)), "Signature verification failed");
}

#[test]
fn verification_needs_a_key_in_the_header() {
    let header = b"{\"spdf_version\":\"1.0\",\"doc_id\":\"d\",\"org_id\":\"o\",\"server_url\":\"u\"}";
    let data = sign(&unsigned(header, 0, &seal(PLAIN)));
    let spdf = SpdfFile::parse(&data).unwrap();
    assert_eq!(signature_message(verify_signature(&spdf)), "No public key in header");
    assert!(is_potentially_tampered(&spdf));
    assert!(verify_signature_with_key(&spdf, &own_pem()).is_ok());
}

#[test]
fn a_signature_of_another_length_is_never_verified() {
    let mut spdf = SpdfFile::parse(&container()).unwrap();
    spdf.signature.pop();
    assert_eq!(signature_message(verify_signature(&spdf)), "Invalid signature length");
    assert!(is_potentially_tampered(&spdf));
    spdf.signature.clear();
    assert_eq!(signature_message(verify_signature(&spdf)), "Invalid signature length");
}

#[test]
fn quick_tamper_check_looks_at_version_and_required_fields() {
    let good = || SpdfFile::parse(&container()).unwrap();
    let mut spdf = good();
    spdf.version = 2;
    assert!(is_potentially_tampered(&spdf));
    let mut spdf = good();
    spdf.header.doc_id.clear();
    assert!(is_potentially_tampered(&spdf));
    let mut spdf = good();
    spdf.header.server_url.clear();
    assert!(is_potentially_tampered(&spdf));
    let mut spdf = good();
    spdf.header.public_key.clear();
    assert!(is_potentially_tampered(&spdf));
    let mut spdf = good();
    spdf.header.title.clear();
    assert!(!is_potentially_tampered(&spdf));
}

#[test]
fn pem_gives_the_last_32_bytes() {
    let mut key = [0u8; 32];
    for (i, b) in key.iter_mut().enumerate() {
        *b = i as u8;
    }
    let pem = "-----BEGIN PUBLIC KEY-----\nMCowBQYDK2VwAyEAAAECAwQFBgcICQoLDA0ODxAREhMUFRYXGBkaGxwdHh8=\n-----END PUBLIC KEY-----";
    assert_eq!(parse_ed25519_public_key_pem(pem).unwrap(), key);
    let wrapped = "-----BEGIN PUBLIC KEY-----\r\nMCowBQYDK2VwAyEAAAECAwQF\r\n BgcICQoLDA0ODxAREhMUFRYX GBkaGxwdHh8=\r\n-----END PUBLIC KEY-----\r\n";
    assert_eq!(parse_ed25519_public_key_pem(wrapped).unwrap(), key);
    let tabbed = "-----BEGIN PUBLIC KEY-----\n\tMCowBQYDK2VwAyEAAAECAwQFBgcICQoL\n\tDA0ODxAREhMUFRYXGBkaGxwdHh8=\n-----END PUBLIC KEY-----";
    assert_eq!(parse_ed25519_public_key_pem(tabbed).unwrap(), key);
    let bare = "MCowBQYDK2VwAyEAAAECAwQFBgcICQoLDA0ODxAREhMUFRYXGBkaGxwdHh8=";
    assert_eq!(parse_ed25519_public_key_pem(bare).unwrap(), key);
}

#[test]
fn pem_errors_are_signature_errors() {
    let r = parse_ed25519_public_key_pem("-----BEGIN PUBLIC KEY-----\n!!!!\n-----END PUBLIC KEY-----");
    assert!(matches!(r, Err(SpdfError::SignatureError(m)) if m == "Invalid PEM base64"));
    let r = parse_ed25519_public_key_pem("-----BEGIN PUBLIC KEY-----\nAAECAwQF\n-----END PUBLIC KEY-----");
    assert!(matches!(r, Err(SpdfError::SignatureError(m)) if m == "PEM decoded data too short"));
    let r = parse_ed25519_public_key_pem("");
    assert!(matches!(r, Err(SpdfError::SignatureError(m)) if m == "PEM decoded data too short"));
}

#[test]
fn key_from_der_takes_the_tail() {
    let der: Vec<u8> = (0u8..44).collect();
    assert_eq!(key_from_der(&der).unwrap().to_vec(), (12u8..44).collect::<Vec<u8>>());
    let exact: Vec<u8> = (0u8..32).collect();
    assert_eq!(key_from_der(&exact).unwrap().to_vec(), exact);
    let r = key_from_der(&der[..31]);
    assert!(matches!(r, Err(SpdfError::SignatureError(m)) if m == "PEM decoded data too short"));
}

#[test]
fn bytes_that_are_no_curve_point_are_no_key() {
    let spdf = SpdfFile::parse(&container()).unwrap();
    let mut found = false;
    for b in 0u8..=255 {
        let mut key = [0u8; 32];
        key[0] = b;
        if ed25519_dalek::VerifyingKey::from_bytes(&key).is_err() {
            assert_eq!(
                signature_message(verify_with_raw_key(&spdf, &key)),
                "Invalid public key"
            );
            assert_eq!(
                signature_message(verify_signature_with_key(&spdf, &pem_of(&key))),
                "Invalid public key"
            );
            found = true;
            break;
        }
    }
    assert!(found);
}

#[test]
fn decryption_returns_the_document() {
    let spdf = SpdfFile::parse(&container()).unwrap();
    let plain = decrypt_content(&spdf, &DOC_KEY).unwrap();
    assert_eq!(plain, PLAIN.to_vec());
    assert!(validate_pdf_content(&plain));
    assert_eq!(spdf.decrypt(&DOC_KEY).unwrap(), PLAIN.to_vec());
    assert_eq!(decrypt_content_slice(&spdf, &DOC_KEY[..]).unwrap(), PLAIN.to_vec());
    let b64 = base64::engine::general_purpose::STANDARD.encode(DOC_KEY);
    assert_eq!(decrypt_content_base64(&spdf, &b64).unwrap(), PLAIN.to_vec());
}

#[test]
fn flipping_any_bit_of_ciphertext_or_tag_fails_decryption() {
    let data = container();
    let first = 11 + header_json("d1").len() + 52;
    for at in first..data.len() - 64 {
        for bit in 0..8 {
            let mut tampered = data.clone();
            tampered[at] ^= 1 << bit;
            let spdf = SpdfFile::parse(&tampered).unwrap();
            assert_eq!(decryption_message(decrypt_content(&spdf, &DOC_KEY)), "Decryption failed");
        }
    }
}

#[test]
fn a_wrong_key_or_nonce_fails_decryption() {
    let mut spdf = SpdfFile::parse(&container()).unwrap();
    let mut key = DOC_KEY;
    key[31] ^= 1;
    assert_eq!(decryption_message(decrypt_content(&spdf, &key)), "Decryption failed");
    spdf.nonce[0] ^= 1;
    assert_eq!(decryption_message(decrypt_content(&spdf, &DOC_KEY)), "Decryption failed");
}

#[test]
fn keys_of_another_length_are_refused() {
    let spdf = SpdfFile::parse(&container()).unwrap();
    for n in [0usize, 16, 31, 33, 64] {
        let key = vec![0x42u8; n];
        assert_eq!(
            decryption_message(decrypt_content_slice(&spdf, &key)),
            "Invalid key length: expected 32"
        );
        let b64 = base64::engine::general_purpose::STANDARD.encode(&key);
        assert_eq!(
            decryption_message(decrypt_content_base64(&spdf, &b64)),
            "Invalid key length: expected 32"
        );
    }
    assert_eq!(
        decryption_message(decrypt_content_base64(&spdf, "***")),
        "Invalid base64 key"
    );
}

#[test]
fn nonce_and_tag_lengths_are_checked_before_decryption() {
    let mut spdf = SpdfFile::parse(&container()).unwrap();
    spdf.auth_tag.push(0);
    assert_eq!(
        decryption_message(decrypt_content(&spdf, &DOC_KEY)),
        "Invalid auth tag length: expected 16"
    );
    spdf.nonce.push(0);
    assert_eq!(
        decryption_message(decrypt_content(&spdf, &DOC_KEY)),
        "Invalid nonce length: expected 12"
    );
}

#[test]
fn summary_of_a_container() {
    let info = get_spdf_info(&container()).unwrap();
    assert_eq!(info.doc_id, "d1");
    assert_eq!(info.title, "Report");
    assert_eq!(info.org_id, "o1");
    assert_eq!(info.server_url, "https://x");
    assert_eq!(info.created_at, "2024-01-01T00:00:00Z");
    assert!(info.allow_print);
    assert!(!info.allow_copy);
    assert_eq!(info.max_devices, 3);
    assert!(info.requires_device_binding);
    assert!(!get_spdf_info(&container_with("d1", 0x0014)).unwrap().requires_device_binding);
    assert_eq!(get_spdf_info(b"SPDF").err().unwrap(), "Format error: File too short");
}

#[test]
fn verifying_the_bytes_of_a_file() {
    let data = container();
    assert_eq!(verify_spdf(&data), Ok(true));
    let mut tampered = data.clone();
    let at = tampered.len() - 70;
    tampered[at] ^= 1;
    assert_eq!(
        verify_spdf(&tampered),
        Err("Signature error: Signature verification failed".to_string())
    );
    assert_eq!(verify_spdf(&[0u8; 200]), Err("Format error: Invalid magic bytes".to_string()));
}

#[test]
fn opening_the_bytes_of_a_file() {
    let data = container();
    let key_hex = "42".repeat(32);
    let opened = decrypt_spdf(&data, &key_hex).unwrap();
    assert!(opened.success);
    assert_eq!(opened.pdf_data, Some(PLAIN.to_vec()));
    assert_eq!(opened.error, None);

    let upper = decrypt_spdf(&data, &"4A".repeat(32)).unwrap();
    assert!(!upper.success);
    assert_eq!(upper.pdf_data, None);
    assert_eq!(upper.error, Some("Decryption error: Decryption failed".to_string()));

    let short = decrypt_spdf(&data, &"42".repeat(16)).unwrap();
    assert!(!short.success);
    assert_eq!(short.error, Some("Decryption error: Invalid key length: expected 32".to_string()));

    assert_eq!(decrypt_spdf(&data, "zz").err().unwrap(), "Invalid key hex");
    assert_eq!(decrypt_spdf(b"SPDF", &key_hex).err().unwrap(), "Format error: File too short");

    let mut tampered = data.clone();
    let at = tampered.len() - 70;
    tampered[at] ^= 1;
    let refused = decrypt_spdf(&tampered, "zz").unwrap();
    assert!(!refused.success);
    assert_eq!(refused.pdf_data, None);
    assert_eq!(
        refused.error,
        Some("Signature verification failed: Signature error: Signature verification failed".to_string())
    );
}

fn device() -> DeviceInfo {
    DeviceInfo { device_id: "abc".to_string(), device_name: "workstation".to_string() }
}

fn response(k_doc: &str) -> KeyResponse {
    KeyResponse {
        k_doc: k_doc.to_string(),
        permissions: SpdfPermissions::default(),
        watermark_data: "{\"user\":\"u@x\"}".to_string(),
    }
}

fn good_key() -> String {
    base64::engine::general_purpose::STANDARD.encode(DOC_KEY)
}

#[test]
fn login_address_and_reports() {
    assert_eq!(login_url("https://x"), "https://x/auth/login-with-key");
    assert_eq!(login_url("https://x/"), "https://x/auth/login-with-key");
    assert_eq!(login_url("https://x///"), "https://x/auth/login-with-key");
    assert_eq!(login_url("https://x/api"), "https://x/api/auth/login-with-key");
    assert_eq!(login_url(""), "/auth/login-with-key");
    let refused = login_refused("403 Forbidden", "no");
    assert!(!refused.success);
    assert_eq!(refused.message, "Authentication failed: 403 Forbidden - no");
    let granted = login_granted("u@x");
    assert!(granted.success);
    assert_eq!(granted.message, "Authenticated as u@x");
}

#[test]
fn opening_without_a_token_asks_for_a_login() {
    match start_open(&container(), &None, &device()).unwrap() {
        OpenStart::NeedsLogin(report) => {
            assert!(!report.success);
            assert_eq!(report.message, "Authentication required");
            assert_eq!(report.header.unwrap().doc_id, "d1");
            assert_eq!(report.pdf_base64, None);
            assert!(report.needs_login);
            assert_eq!(report.watermark_data, None);
        }
        OpenStart::RequestKey(_, _) => panic!("asked for a key"),
    }
    assert_eq!(
        start_open(b"SPDF", &None, &device()).err().unwrap(),
        "Format error: File too short"
    );
}

#[test]
fn opening_with_a_token_asks_for_the_key() {
    let data = sign(&unsigned(
        b"{\"spdf_version\":\"1.0\",\"doc_id\":\"d9\",\"org_id\":\"o\",\"server_url\":\"https://s/api//\"}",
        0,
        &seal(PLAIN),
    ));
    match start_open(&data, &Some("tok".to_string()), &device()).unwrap() {
        OpenStart::RequestKey(spdf, request) => {
            assert_eq!(spdf.header.doc_id, "d9");
            assert_eq!(request.url, "https://s/api/keys/get");
            assert_eq!(request.authorization, "Bearer tok");
            assert_eq!(request.doc_id, "d9");
            assert_eq!(request.device_id, "abc");
            assert_eq!(request.device_name, "workstation");
        }
        OpenStart::NeedsLogin(_) => panic!("asked for a login"),
    }
}

#[test]
fn a_refused_key_request_is_reported() {
    let spdf = SpdfFile::parse(&container()).unwrap();
    let report = key_refused(spdf, 401, "401 Unauthorized", "expired");
    assert!(!report.success);
    assert_eq!(report.message, "Session expired. Please login again.");
    assert!(report.needs_login);
    assert_eq!(report.header.unwrap().doc_id, "d1");
    let spdf = SpdfFile::parse(&container()).unwrap();
    let report = key_refused(spdf, 403, "403 Forbidden", "device limit");
    assert!(!report.success);
    assert_eq!(report.message, "Server denied access: 403 Forbidden - device limit");
    assert!(!report.needs_login);
    assert_eq!(report.pdf_base64, None);
    assert_eq!(report.watermark_data, None);
}

#[test]
fn a_granted_key_opens_the_document() {
    let spdf = SpdfFile::parse(&container()).unwrap();
    let report = key_granted(spdf, response(&good_key()), &None).unwrap();
    assert!(report.success);
    assert_eq!(report.message, "Document opened successfully");
    assert_eq!(report.header.unwrap().doc_id, "d1");
    assert_eq!(
        report.pdf_base64,
        Some(base64::engine::general_purpose::STANDARD.encode(PLAIN))
    );
    assert!(!report.needs_login);
    assert_eq!(report.watermark_data, Some("{\"user\":\"u@x\"}".to_string()));
    let spdf = SpdfFile::parse(&container()).unwrap();
    assert!(key_granted(spdf, response(&good_key()), &Some(own_pem())).unwrap().success);
}

#[test]
fn a_granted_key_does_not_open_what_is_not_trusted() {
    let other = ed25519_dalek::SigningKey::from_bytes(&[8u8; 32]).verifying_key().to_bytes();
    let spdf = SpdfFile::parse(&container()).unwrap();
    assert_eq!(
        key_granted(spdf, response(&good_key()), &Some(pem_of(&other))).err().unwrap(),
        "Signature error: Signature verification failed"
    );
    let mut tampered = container();
    let at = tampered.len() - 70;
    tampered[at] ^= 1;
    let spdf = SpdfFile::parse(&tampered).unwrap();
    assert_eq!(
        key_granted(spdf, response(&good_key()), &None).err().unwrap(),
        "Signature error: Signature verification failed"
    );
}

#[test]
fn a_granted_key_must_be_32_bytes_of_base64() {
    let spdf = SpdfFile::parse(&container()).unwrap();
    assert_eq!(key_granted(spdf, response("***"), &None).err().unwrap(), "Invalid key encoding");
    let spdf = SpdfFile::parse(&container()).unwrap();
    let short = base64::engine::general_purpose::STANDARD.encode([0x42u8; 31]);
    assert_eq!(
        key_granted(spdf, response(&short), &None).err().unwrap(),
        "Invalid key length from server"
    );
    let spdf = SpdfFile::parse(&container()).unwrap();
    let wrong = base64::engine::general_purpose::STANDARD.encode([0x43u8; 32]);
    assert_eq!(
        key_granted(spdf, response(&wrong), &None).err().unwrap(),
        "Decryption error: Decryption failed"
    );
}

#[test]
fn header_span_finds_the_end_of_the_header_text() {
    let data = container();
    assert_eq!(SpdfFile::header_span(&data).ok(), Some(11 + header_json("d1").len()));
    let mut wrong = data.clone();
    wrong[4] = 9;
    assert!(matches!(
        SpdfFile::header_span(&wrong),
        Err(SpdfError::FormatError(m)) if m == "Unsupported version"
    ));
    assert!(matches!(
        SpdfFile::header_span(&data[..100]),
        Err(SpdfError::FormatError(m)) if m == "File too short"
    ));
}

#[test]
fn assemble_cuts_the_fields_around_a_given_header() {
    let data = container();
    let header = parse_header(header_json("other").as_bytes());
    let spdf = SpdfFile::assemble(&data, header).unwrap();
    assert_eq!(spdf.header.doc_id, "other");
    assert_eq!(spdf.header_bytes, header_json("d1").as_bytes());
    assert_eq!(spdf.nonce, NONCE.to_vec());
    assert_eq!(spdf.signature, data[data.len() - 64..].to_vec());
    assert_eq!(format_message(SpdfFile::assemble(&data, None)), "JSON parse error");
    assert_eq!(
        format_message(SpdfFile::assemble(&data[..3], parse_header(header_json("d1").as_bytes()))),
        "File too short"
    );
}

#[test]
fn header_fields_follow_their_rules() {
    assert_eq!(optional_text(false, None), Some(String::new()));
    assert_eq!(optional_text(false, Some("x".to_string())), Some(String::new()));
    assert_eq!(optional_text(true, Some("x".to_string())), Some("x".to_string()));
    assert_eq!(optional_text(true, None), None);
    assert_eq!(count(Some(0)), Some(0));
    assert_eq!(count(Some(4294967295)), Some(4294967295));
    assert_eq!(count(Some(4294967296)), None);
    assert_eq!(count(None), None);
    assert_eq!(optional_count(false, None), Some(0));
    assert_eq!(optional_count(true, Some(9)), Some(9));
    assert_eq!(optional_count(true, None), None);
    let p = permissions(true, Some(true), Some(false), Some(5), Some(1)).unwrap();
    assert_eq!((p.allow_print, p.allow_copy, p.max_devices, p.offline_days), (true, false, 5, 1));
    assert!(permissions(true, Some(true), Some(false), None, Some(1)).is_none());
    assert!(permissions(true, None, Some(false), Some(5), Some(1)).is_none());
    assert_eq!(permissions(false, None, None, None, None).unwrap().max_devices, 2);
    let w = watermark(true, Some(false), Some("t".to_string())).unwrap();
    assert_eq!((w.enabled, w.text.as_str()), (false, "t"));
    assert!(watermark(true, None, Some("t".to_string())).is_none());
    assert!(watermark(true, Some(true), None).is_none());
    assert!(watermark(false, None, None).unwrap().enabled);
    assert_eq!(metadata(None), "null");
    assert_eq!(metadata(Some("[1]".to_string())), "[1]");
}

fn fields() -> HeaderFields {
    HeaderFields {
        spdf_version: Some("1.0".to_string()),
        doc_id: Some("d".to_string()),
        org_id: Some("o".to_string()),
        title: Some("t".to_string()),
        server_url: Some("u".to_string()),
        created_at: Some("c".to_string()),
        public_key: Some("k".to_string()),
        permissions: Some(SpdfPermissions::default()),
        watermark: Some(SpdfWatermark::default()),
        metadata: "null".to_string(),
    }
}

#[test]
fn a_header_needs_every_field() {
    let header = assemble_header(fields()).unwrap();
    assert_eq!(header.spdf_version, "1.0");
    assert_eq!(header.doc_id, "d");
    assert_eq!(header.org_id, "o");
    assert_eq!(header.title, "t");
    assert_eq!(header.server_url, "u");
    assert_eq!(header.created_at, "c");
    assert_eq!(header.public_key, "k");
    assert_eq!(header.metadata, "null");
    let mut f = fields();
    f.spdf_version = None;
    assert!(assemble_header(f).is_none());
    let mut f = fields();
    f.doc_id = None;
    assert!(assemble_header(f).is_none());
    let mut f = fields();
    f.org_id = None;
    assert!(assemble_header(f).is_none());
    let mut f = fields();
    f.title = None;
    assert!(assemble_header(f).is_none());
    let mut f = fields();
    f.server_url = None;
    assert!(assemble_header(f).is_none());
    let mut f = fields();
    f.created_at = None;
    assert!(assemble_header(f).is_none());
    let mut f = fields();
    f.public_key = None;
    assert!(assemble_header(f).is_none());
    let mut f = fields();
    f.permissions = None;
    assert!(assemble_header(f).is_none());
    let mut f = fields();
    f.watermark = None;
    assert!(assemble_header(f).is_none());
}

#[test]
fn remove_all_takes_out_every_match() {
    assert_eq!(remove_all(b"a\nb\n\nc", b"\n"), b"abc".to_vec());
    assert_eq!(remove_all(b"xxabxxab", b"ab"), b"xxxx".to_vec());
    assert_eq!(remove_all(b"aaa", b"aa"), b"a".to_vec());
    assert_eq!(remove_all(b"aabb", b"ab"), b"ab".to_vec());
    assert_eq!(remove_all(b"abc", b""), b"abc".to_vec());
    assert_eq!(remove_all(b"ab", b"abc"), b"ab".to_vec());
    assert_eq!(remove_all(b"", b"a"), b"".to_vec());
    assert_eq!(remove_all(b"abab", b"ab"), b"".to_vec());
}

#[test]
fn searching_byte_texts() {
    assert_eq!(find(b"a\"b\"c", b'"', 0), 1);
    assert_eq!(find(b"a\"b\"c", b'"', 1), 1);
    assert_eq!(find(b"a\"b\"c", b'"', 2), 3);
    assert_eq!(find(b"a\"b\"c", b'"', 4), 5);
    assert_eq!(find(b"a\"b\"c", b'"', 9), 5);
    assert_eq!(find(b"", b'x', 0), 0);
    assert!(matches_at(b"hello", 1, b"ell"));
    assert!(!matches_at(b"hello", 2, b"ell"));
    assert!(!matches_at(b"hello", 3, b"low"));
    assert!(matches_at(b"hello", 5, b""));
    assert!(contains(b"hello", b"llo"));
    assert!(contains(b"hello", b"hello"));
    assert!(contains(b"hello", b""));
    assert!(!contains(b"hello", b"hellos"));
    assert!(!contains(b"hello", b"lol"));
    assert!(!contains(b"", b"a"));
}
