//! The binary container: its layout, its errors and its parser.
//!
//! A container is one strict sequence of fields:
//!
//! ```text
//! MAGIC(4) | VERSION(1) | FLAGS(2) | HEADER_LEN(4) | HEADER(HEADER_LEN)
//!   | WRAPPED_KEY(40) | NONCE(12) | CIPHERTEXT(1 or more) | AUTH_TAG(16) | SIGNATURE(64)
//! ```
//!
//! `FLAGS` and `HEADER_LEN` are big-endian. The signature is always the last
//! 64 bytes and covers every byte before it.

use vstd::prelude::*;
use vstd::slice::{slice_subrange, slice_to_vec};
use crate::header::{header_view, parse_header, HeaderView};
pub use crate::header::{SpdfHeader, SpdfPermissions, SpdfWatermark};

verus! {

/// The marker that opens every container: the ASCII letters `SPDF`.
pub const MAGIC: [u8; 4] = [0x53, 0x50, 0x44, 0x46];

/// The one format version that is supported.
pub const VERSION: u8 = 0x01;

pub const SIGNATURE_LENGTH: usize = 64;

pub const NONCE_LENGTH: usize = 12;

pub const TAG_LENGTH: usize = 16;

pub const WRAPPED_KEY_LENGTH: usize = 40;

/// Where the header text starts: behind magic, version, flags and header length.
pub const HEADER_START: usize = 11;

/// The shortest container: every fixed field, an empty header and one byte of
/// ciphertext.
pub const MIN_CONTAINER_SIZE: usize = 144;

pub const FLAG_DEVICE_BINDING: u16 = 0x0001;

pub const FLAG_OFFLINE_ALLOWED: u16 = 0x0002;

pub const FLAG_PRINT_ALLOWED: u16 = 0x0004;

pub const FLAG_COPY_ALLOWED: u16 = 0x0008;

pub const FLAG_WATERMARK_ENABLED: u16 = 0x0010;

/// What can go wrong with a container. Each variant carries a message for
/// people; the variant is what callers branch on.
#[derive(Debug)]
pub enum SpdfError {
    IoError(String),
    /// The bytes are not a container: bad magic, bad version, a truncated
    /// buffer, malformed header text, a field of the wrong length.
    FormatError(String),
    /// The container is not authentic: bad key, bad signature.
    SignatureError(String),
    /// The content could not be opened: bad key, bad nonce or tag length,
    /// authentication tag mismatch.
    DecryptionError(String),
    NetworkError(String),
    LicenseError(String),
}

impl SpdfError {
    /// A format error with exactly this message.
    pub open spec fn is_format(self, text: Seq<char>) -> bool {
        self matches SpdfError::FormatError(m) && m@ == text
    }

    /// A signature error with exactly this message.
    pub open spec fn is_signature(self, text: Seq<char>) -> bool {
        self matches SpdfError::SignatureError(m) && m@ == text
    }

    /// A decryption error with exactly this message.
    pub open spec fn is_decryption(self, text: Seq<char>) -> bool {
        self matches SpdfError::DecryptionError(m) && m@ == text
    }

    /// The words that name the kind of an error in its rendering.
    pub open spec fn prefix(self) -> Seq<char> {
        match self {
            SpdfError::IoError(_) => "IO error: "@,
            SpdfError::FormatError(_) => "Format error: "@,
            SpdfError::SignatureError(_) => "Signature error: "@,
            SpdfError::DecryptionError(_) => "Decryption error: "@,
            SpdfError::NetworkError(_) => "Network error: "@,
            SpdfError::LicenseError(_) => "License error: "@,
        }
    }

    /// The message that an error carries.
    pub open spec fn detail(self) -> Seq<char> {
        match self {
            SpdfError::IoError(m) => m@,
            SpdfError::FormatError(m) => m@,
            SpdfError::SignatureError(m) => m@,
            SpdfError::DecryptionError(m) => m@,
            SpdfError::NetworkError(m) => m@,
            SpdfError::LicenseError(m) => m@,
        }
    }

    /// Renders the error for people: the kind, then the message.
    pub fn to_string(&self) -> (r: String)
        ensures
            r@ == self.prefix() + self.detail(),
    {
        match self {
            SpdfError::IoError(m) => "IO error: ".to_owned().concat(m.as_str()),
            SpdfError::FormatError(m) => "Format error: ".to_owned().concat(m.as_str()),
            SpdfError::SignatureError(m) => "Signature error: ".to_owned().concat(m.as_str()),
            SpdfError::DecryptionError(m) => "Decryption error: ".to_owned().concat(m.as_str()),
            SpdfError::NetworkError(m) => "Network error: ".to_owned().concat(m.as_str()),
            SpdfError::LicenseError(m) => "License error: ".to_owned().concat(m.as_str()),
        }
    }
}

/// The ways in which a byte buffer can fail to be a container, in the order in
/// which the parser looks for them.
#[derive(Debug, Clone, Copy, PartialEq, Eq, Structural)]
pub enum FormatIssue {
    /// Fewer bytes than the shortest container.
    TooShort,
    /// The first four bytes are not the magic marker.
    BadMagic,
    /// The version byte is not the supported version.
    UnsupportedVersion,
    /// The header length reaches past the end of the buffer.
    HeaderOverrun,
    /// The header region is not the JSON text of a header.
    HeaderText,
    /// The buffer ends inside the wrapped key.
    WrappedKeyOverrun,
    /// The buffer ends inside the nonce.
    NonceOverrun,
    /// No room is left for the authentication tag and the signature.
    TrailerOverrun,
    /// No byte is left for the ciphertext.
    EmptyCiphertext,
}

impl FormatIssue {
    /// The message of the format error that reports this issue.
    pub open spec fn text(self) -> Seq<char> {
        match self {
            FormatIssue::TooShort => "File too short"@,
            FormatIssue::BadMagic => "Invalid magic bytes"@,
            FormatIssue::UnsupportedVersion => "Unsupported version"@,
            FormatIssue::HeaderOverrun => "Invalid header length: exceeds file size"@,
            FormatIssue::HeaderText => "JSON parse error"@,
            FormatIssue::WrappedKeyOverrun => "File too short for wrapped key"@,
            FormatIssue::NonceOverrun => "File too short for nonce"@,
            FormatIssue::TrailerOverrun => "File too short for tag and signature"@,
            FormatIssue::EmptyCiphertext => "Invalid ciphertext length"@,
        }
    }

    /// The format error that reports this issue.
    pub fn to_error(self) -> (e: SpdfError)
        ensures
            e.is_format(self.text()),
    {
        let text = match self {
            FormatIssue::TooShort => "File too short",
            FormatIssue::BadMagic => "Invalid magic bytes",
            FormatIssue::UnsupportedVersion => "Unsupported version",
            FormatIssue::HeaderOverrun => "Invalid header length: exceeds file size",
            FormatIssue::HeaderText => "JSON parse error",
            FormatIssue::WrappedKeyOverrun => "File too short for wrapped key",
            FormatIssue::NonceOverrun => "File too short for nonce",
            FormatIssue::TrailerOverrun => "File too short for tag and signature",
            FormatIssue::EmptyCiphertext => "Invalid ciphertext length",
        };
        SpdfError::FormatError(text.to_owned())
    }
}

/// The two bytes that write a 16-bit number, most significant first.
pub open spec fn u16_be(x: int) -> Seq<u8> {
    seq![(x / 256) as u8, (x % 256) as u8]
}

/// The four bytes that write a 32-bit number, most significant first.
pub open spec fn u32_be(x: int) -> Seq<u8> {
    seq![
        (x / 16777216) as u8,
        ((x / 65536) % 256) as u8,
        ((x / 256) % 256) as u8,
        (x % 256) as u8,
    ]
}

/// The number that the two bytes from `at` on write, most significant first.
pub open spec fn be16_at(data: Seq<u8>, at: int) -> int {
    data[at] * 256 + data[at + 1]
}

/// The number that the four bytes from `at` on write, most significant first.
pub open spec fn be32_at(data: Seq<u8>, at: int) -> int {
    data[at] * 16777216 + data[at + 1] * 65536 + data[at + 2] * 256 + data[at + 3]
}

/// Where the header text ends, as the header length field claims it.
pub open spec fn header_end(data: Seq<u8>) -> int {
    HEADER_START + be32_at(data, 7)
}

/// The bytes of the header text. Meaningful where the header ends inside the buffer.
pub open spec fn header_region(data: Seq<u8>) -> Seq<u8> {
    data.subrange(HEADER_START as int, header_end(data))
}

/// Writing the number that two bytes write gives the two bytes back.
pub proof fn lemma_u16_be(b0: u8, b1: u8)
    ensures
        u16_be(b0 * 256 + b1) == seq![b0, b1],
{
    let x: int = b0 * 256 + b1;
    assert(x / 256 == b0 && x % 256 == b1);
    assert(u16_be(x) =~= seq![b0, b1]);
}

/// Writing the number that four bytes write gives the four bytes back.
pub proof fn lemma_u32_be(b0: u8, b1: u8, b2: u8, b3: u8)
    ensures
        u32_be(b0 * 16777216 + b1 * 65536 + b2 * 256 + b3) == seq![b0, b1, b2, b3],
{
    let x: int = b0 * 16777216 + b1 * 65536 + b2 * 256 + b3;
    assert(x / 16777216 == b0);
    assert(x / 65536 == b0 * 256 + b1);
    assert(x / 256 == b0 * 65536 + b1 * 256 + b2);
    assert((x / 65536) % 256 == b1);
    assert((x / 256) % 256 == b2);
    assert(x % 256 == b3);
    assert(u32_be(x) =~= seq![b0, b1, b2, b3]);
}

/// The first issue in what stands before the header text: length, magic,
/// version and header length. `None` where the header text can be cut.
pub open spec fn preamble_issue(data: Seq<u8>) -> Option<FormatIssue> {
    if data.len() < MIN_CONTAINER_SIZE {
        Some(FormatIssue::TooShort)
    } else if data.subrange(0, 4) != MAGIC@ {
        Some(FormatIssue::BadMagic)
    } else if data[4] != VERSION {
        Some(FormatIssue::UnsupportedVersion)
    } else if header_end(data) > data.len() {
        Some(FormatIssue::HeaderOverrun)
    } else {
        None
    }
}

/// The first reason for which a buffer is not a container, given whether its
/// header text could be read as a header; `None` for a container.
pub open spec fn issue_given(data: Seq<u8>, header_read: bool) -> Option<FormatIssue> {
    if preamble_issue(data) is Some {
        preamble_issue(data)
    } else if !header_read {
        Some(FormatIssue::HeaderText)
    } else if header_end(data) + WRAPPED_KEY_LENGTH > data.len() {
        Some(FormatIssue::WrappedKeyOverrun)
    } else if header_end(data) + WRAPPED_KEY_LENGTH + NONCE_LENGTH > data.len() {
        Some(FormatIssue::NonceOverrun)
    } else if header_end(data) + WRAPPED_KEY_LENGTH + NONCE_LENGTH + TAG_LENGTH + SIGNATURE_LENGTH
        > data.len() {
        Some(FormatIssue::TrailerOverrun)
    } else if data.len() - SIGNATURE_LENGTH - TAG_LENGTH <= header_end(data) + WRAPPED_KEY_LENGTH
        + NONCE_LENGTH {
        Some(FormatIssue::EmptyCiphertext)
    } else {
        None
    }
}

/// The first reason for which a buffer is not a container; `None` for a container.
pub open spec fn layout_issue(data: Seq<u8>) -> Option<FormatIssue> {
    issue_given(data, header_view(header_region(data)) is Some)
}

/// One parsed container. `header_bytes` is the header text as it stood in the
/// file and `header` is what that text states; the other fields are the
/// byte fields of the layout.
#[derive(Debug)]
pub struct SpdfFile {
    pub version: u8,
    pub flags: u16,
    pub header: SpdfHeader,
    pub header_bytes: Vec<u8>,
    pub wrapped_key: Vec<u8>,
    pub nonce: Vec<u8>,
    pub ciphertext: Vec<u8>,
    pub auth_tag: Vec<u8>,
    pub signature: Vec<u8>,
}

/// A container as plain values.
pub struct FileView {
    pub version: u8,
    pub flags: u16,
    pub header: HeaderView,
    pub header_bytes: Seq<u8>,
    pub wrapped_key: Seq<u8>,
    pub nonce: Seq<u8>,
    pub ciphertext: Seq<u8>,
    pub auth_tag: Seq<u8>,
    pub signature: Seq<u8>,
}

impl View for SpdfFile {
    type V = FileView;

    open spec fn view(&self) -> FileView {
        FileView {
            version: self.version,
            flags: self.flags,
            header: self.header@,
            header_bytes: self.header_bytes@,
            wrapped_key: self.wrapped_key@,
            nonce: self.nonce@,
            ciphertext: self.ciphertext@,
            auth_tag: self.auth_tag@,
            signature: self.signature@,
        }
    }
}

impl FileView {
    /// Every field has the length and value that the layout fixes, and the
    /// header is what the header text states.
    pub open spec fn well_formed(self) -> bool {
        &&& self.version == VERSION
        &&& self.header_bytes.len() <= u32::MAX
        &&& header_view(self.header_bytes) == Some(self.header)
        &&& self.wrapped_key.len() == WRAPPED_KEY_LENGTH
        &&& self.nonce.len() == NONCE_LENGTH
        &&& self.ciphertext.len() >= 1
        &&& self.auth_tag.len() == TAG_LENGTH
        &&& self.signature.len() == SIGNATURE_LENGTH
    }

    /// The first eleven bytes: magic, version, flags and header length.
    pub open spec fn preamble(self) -> Seq<u8> {
        MAGIC@ + seq![self.version] + u16_be(self.flags as int) + u32_be(
            self.header_bytes.len() as int,
        )
    }

    /// The signed region: every byte of the container before the signature.
    pub open spec fn unsigned_bytes(self) -> Seq<u8> {
        self.preamble() + self.header_bytes + self.wrapped_key + self.nonce + self.ciphertext
            + self.auth_tag
    }

    /// The whole container as it stands in a file.
    pub open spec fn wire_bytes(self) -> Seq<u8> {
        self.unsigned_bytes() + self.signature
    }
}

/// The fields that the layout cuts from a buffer, with the header that was
/// read from the header text. Meaningful where the buffer has no layout
/// issue.
pub open spec fn container_with(data: Seq<u8>, header: HeaderView) -> FileView {
    let end = header_end(data);
    let n = data.len() as int;
    FileView {
        version: data[4],
        flags: be16_at(data, 5) as u16,
        header,
        header_bytes: header_region(data),
        wrapped_key: data.subrange(end, end + 40),
        nonce: data.subrange(end + 40, end + 52),
        ciphertext: data.subrange(end + 52, n - 80),
        auth_tag: data.subrange(n - 80, n - 64),
        signature: data.subrange(n - 64, n),
    }
}

/// The container that a buffer holds. Meaningful where the buffer has no
/// layout issue.
pub open spec fn container_of(data: Seq<u8>) -> FileView {
    container_with(data, header_view(header_region(data)).unwrap())
}

/// The fields that were cut from a container's bytes write those bytes
/// again, and they are well formed: the signature is the last 64 bytes and
/// the signed region is everything before it.
pub proof fn lemma_container_bytes(data: Seq<u8>)
    requires
        layout_issue(data) is None,
    ensures
        container_of(data).well_formed(),
        container_of(data).wire_bytes() == data,
        container_of(data).unsigned_bytes() == data.subrange(0, data.len() - 64),
        container_of(data).signature == data.subrange(data.len() - 64, data.len() as int),
{
    let file = container_of(data);
    let end = header_end(data);
    let n = data.len() as int;
    lemma_u16_be(data[5], data[6]);
    lemma_u32_be(data[7], data[8], data[9], data[10]);
    assert(file.header_bytes.len() == end - 11);
    let head = file.preamble();
    assert(head =~= data.subrange(0, 11)) by {
        assert(head.len() == 11);
        assert forall|i: int| 0 <= i < 11 implies head[i] == data[i] by {
            if i < 4 {
                assert(data.subrange(0, 4)[i] == data[i]);
            }
        }
    }
    let a = head + file.header_bytes;
    assert(a =~= data.subrange(0, end));
    let b = a + file.wrapped_key;
    assert(b =~= data.subrange(0, end + 40));
    let c = b + file.nonce;
    assert(c =~= data.subrange(0, end + 52));
    let d = c + file.ciphertext;
    assert(d =~= data.subrange(0, n - 80));
    let e = d + file.auth_tag;
    assert(e =~= data.subrange(0, n - 64));
    assert(e + file.signature =~= data);
}

/// The bytes that a well-formed container writes are a container, and
/// cutting them along the layout gives every field back.
pub proof fn lemma_wire_bytes_parse_back(file: FileView)
    requires
        file.well_formed(),
    ensures
        layout_issue(file.wire_bytes()) is None,
        container_of(file.wire_bytes()) == file,
{
    let data = file.wire_bytes();
    let h = file.header_bytes.len() as int;
    let c = file.ciphertext.len() as int;
    let flags = file.flags as int;
    let head = file.preamble();
    let p1 = head + file.header_bytes;
    let p2 = p1 + file.wrapped_key;
    let p3 = p2 + file.nonce;
    let p4 = p3 + file.ciphertext;
    let p5 = p4 + file.auth_tag;
    assert(head.len() == 11);
    assert(data.len() == 143 + h + c);
    assert(data.subrange(0, 11) =~= head);
    assert(data.subrange(0, 4) =~= MAGIC@);
    assert(data[4] == file.version);
    assert(be16_at(data, 5) == flags) by {
        assert(data[5] == head[5] && data[6] == head[6]);
        assert(head[5] == (flags / 256) as u8 && head[6] == (flags % 256) as u8);
    }
    assert(be32_at(data, 7) == h) by {
        assert(data[7] == head[7] && data[8] == head[8] && data[9] == head[9] && data[10]
            == head[10]);
        assert(head[7] == (h / 16777216) as u8);
        assert(head[8] == ((h / 65536) % 256) as u8);
        assert(head[9] == ((h / 256) % 256) as u8);
        assert(head[10] == (h % 256) as u8);
    }
    let end = header_end(data);
    assert(end == 11 + h);
    assert(header_region(data) =~= file.header_bytes);
    assert(data.subrange(end, end + 40) =~= file.wrapped_key);
    assert(data.subrange(end + 40, end + 52) =~= file.nonce);
    assert(data.subrange(end + 52, data.len() - 80) =~= file.ciphertext);
    assert(data.subrange(data.len() - 80, data.len() - 64) =~= file.auth_tag);
    assert(data.subrange(data.len() - 64, data.len() as int) =~= file.signature);
}

/// Two containers of one length that differ in any byte before the
/// signature have different signed regions: no change to magic, version,
/// flags, header, wrapped key, nonce, ciphertext or tag leaves the bytes
/// that the signature covers as they were.
pub proof fn lemma_tampering_changes_signed_region(data: Seq<u8>, tampered: Seq<u8>, at: int)
    requires
        layout_issue(data) is None,
        layout_issue(tampered) is None,
        data.len() == tampered.len(),
        0 <= at < data.len() - 64,
        data[at] != tampered[at],
    ensures
        container_of(data).unsigned_bytes() != container_of(tampered).unsigned_bytes(),
{
    lemma_container_bytes(data);
    lemma_container_bytes(tampered);
    assert(data.subrange(0, data.len() - 64)[at] == data[at]);
    assert(tampered.subrange(0, tampered.len() - 64)[at] == tampered[at]);
}

impl SpdfFile {
    /// Finds where the header text ends, after it has checked what stands
    /// before it: the buffer's length, the magic marker, the version and
    /// the header length.
    pub fn header_span(data: &[u8]) -> (r: Result<usize, SpdfError>)
        ensures
            match r {
                Ok(end) => preamble_issue(data@) is None && end == header_end(data@),
                Err(e) => preamble_issue(data@) matches Some(issue) && e.is_format(issue.text()),
            },
    {
        let len = data.len();
        if len < MIN_CONTAINER_SIZE {
            return Err(FormatIssue::TooShort.to_error());
        }
        if !validate_magic(data) {
            return Err(FormatIssue::BadMagic.to_error());
        }
        if data[4] != VERSION {
            return Err(FormatIssue::UnsupportedVersion.to_error());
        }
        let header_len: u64 = (data[7] as u64) * 16777216 + (data[8] as u64) * 65536 + (
        data[9] as u64) * 256 + (data[10] as u64);
        if header_len > (len - HEADER_START) as u64 {
            return Err(FormatIssue::HeaderOverrun.to_error());
        }
        Ok(HEADER_START + header_len as usize)
    }

    /// Cuts a container from a buffer, given the header that was read from
    /// its header text, or `None` where none could be read.
    ///
    /// Succeeds exactly where the buffer has no issue, and then returns the
    /// fields that the layout cuts from it. Otherwise returns the format
    /// error of the first issue.
    pub fn assemble(data: &[u8], header: Option<SpdfHeader>) -> (r: Result<SpdfFile, SpdfError>)
        ensures
            match r {
                Ok(file) => {
                    &&& issue_given(data@, header is Some) is None
                    &&& header matches Some(h)
                    &&& file@ == container_with(data@, h@)
                },
                Err(e) => issue_given(data@, header is Some) matches Some(issue) && e.is_format(
                    issue.text(),
                ),
            },
    {
        let len = data.len();
        let header_end = match SpdfFile::header_span(data) {
            Ok(end) => end,
            Err(e) => {
                return Err(e);
            },
        };
        let header = match header {
            Some(header) => header,
            None => {
                return Err(FormatIssue::HeaderText.to_error());
            },
        };
        let rest: usize = len - header_end;
        if rest < WRAPPED_KEY_LENGTH {
            return Err(FormatIssue::WrappedKeyOverrun.to_error());
        }
        if rest < WRAPPED_KEY_LENGTH + NONCE_LENGTH {
            return Err(FormatIssue::NonceOverrun.to_error());
        }
        if rest < WRAPPED_KEY_LENGTH + NONCE_LENGTH + TAG_LENGTH + SIGNATURE_LENGTH {
            return Err(FormatIssue::TrailerOverrun.to_error());
        }
        let key_end: usize = header_end + WRAPPED_KEY_LENGTH;
        let nonce_end: usize = key_end + NONCE_LENGTH;
        let tag_start: usize = len - SIGNATURE_LENGTH - TAG_LENGTH;
        let tag_end: usize = len - SIGNATURE_LENGTH;
        if tag_start <= nonce_end {
            return Err(FormatIssue::EmptyCiphertext.to_error());
        }
        Ok(
            SpdfFile {
                version: data[4],
                flags: (data[5] as u16) * 256 + (data[6] as u16),
                header,
                header_bytes: slice_to_vec(slice_subrange(data, HEADER_START, header_end)),
                wrapped_key: slice_to_vec(slice_subrange(data, header_end, key_end)),
                nonce: slice_to_vec(slice_subrange(data, key_end, nonce_end)),
                ciphertext: slice_to_vec(slice_subrange(data, nonce_end, tag_start)),
                auth_tag: slice_to_vec(slice_subrange(data, tag_start, tag_end)),
                signature: slice_to_vec(slice_subrange(data, tag_end, len)),
            },
        )
    }

    /// Parses a container from the bytes of a file.
    ///
    /// Succeeds exactly on the buffers that have no layout issue, and then
    /// returns the fields that the layout cuts from the buffer. Otherwise
    /// returns the format error of the first issue. A buffer shorter than the
    /// shortest container, or one that does not start with the magic marker,
    /// always fails.
    pub fn parse(data: &[u8]) -> (r: Result<SpdfFile, SpdfError>)
        ensures
            match r {
                Ok(file) => layout_issue(data@) is None && file@ == container_of(data@),
                Err(e) => layout_issue(data@) matches Some(issue) && e.is_format(issue.text()),
            },
            data@.len() < MIN_CONTAINER_SIZE ==> r matches Err(SpdfError::FormatError(_)),
            data@.len() < 4 || data@.subrange(0, 4) != MAGIC@ ==> r matches Err(
                SpdfError::FormatError(_),
            ),
    {
        match SpdfFile::header_span(data) {
            Ok(header_end) => {
                let header = parse_header(slice_subrange(data, HEADER_START, header_end));
                SpdfFile::assemble(data, header)
            },
            Err(e) => Err(e),
        }
    }

    /// Check if device binding is required.
    pub fn requires_device_binding(&self) -> (r: bool)
        ensures
            r == (self.flags & FLAG_DEVICE_BINDING != 0),
    {
        self.flags & FLAG_DEVICE_BINDING != 0
    }

    /// Check if offline viewing is allowed.
    pub fn allows_offline(&self) -> (r: bool)
        ensures
            r == (self.flags & FLAG_OFFLINE_ALLOWED != 0),
    {
        self.flags & FLAG_OFFLINE_ALLOWED != 0
    }

    /// Check if printing is allowed.
    pub fn allows_print(&self) -> (r: bool)
        ensures
            r == (self.flags & FLAG_PRINT_ALLOWED != 0),
    {
        self.flags & FLAG_PRINT_ALLOWED != 0
    }

    /// Check if copying is allowed.
    pub fn allows_copy(&self) -> (r: bool)
        ensures
            r == (self.flags & FLAG_COPY_ALLOWED != 0),
    {
        self.flags & FLAG_COPY_ALLOWED != 0
    }

    /// Check if watermark is enabled.
    pub fn has_watermark(&self) -> (r: bool)
        ensures
            r == (self.flags & FLAG_WATERMARK_ENABLED != 0),
    {
        self.flags & FLAG_WATERMARK_ENABLED != 0
    }

    /// Get document ID.
    pub fn doc_id(&self) -> (r: &str)
        ensures
            r@ == self.header.doc_id@,
    {
        self.header.doc_id.as_str()
    }

    /// Get server URL.
    pub fn server_url(&self) -> (r: &str)
        ensures
            r@ == self.header.server_url@,
    {
        self.header.server_url.as_str()
    }

    /// Get organization ID.
    pub fn org_id(&self) -> (r: &str)
        ensures
            r@ == self.header.org_id@,
    {
        self.header.org_id.as_str()
    }

    /// Get title.
    pub fn title(&self) -> (r: &str)
        ensures
            r@ == self.header.title@,
    {
        self.header.title.as_str()
    }
}

/// Validate SPDF magic bytes without full parsing.
pub fn validate_magic(data: &[u8]) -> (r: bool)
    ensures
        r == (data@.len() >= 4 && data@.subrange(0, 4) == MAGIC@),
{
    let ok = data.len() >= 4 && data[0] == 0x53 && data[1] == 0x50 && data[2] == 0x44 && data[3]
        == 0x46;
    proof {
        if data@.len() >= 4 {
            let head = data@.subrange(0, 4);
            assert(head[0] == data@[0] && head[1] == data@[1] && head[2] == data@[2] && head[3]
                == data@[3]);
            if ok {
                assert(head =~= MAGIC@);
            }
        }
    }
    ok
}

/// Get basic info from SPDF: the document id, the title and the server URL of
/// the container that the bytes parse to.
pub fn quick_info(data: &[u8]) -> (r: Result<(String, String, String), SpdfError>)
    ensures
        match r {
            Ok((doc_id, title, server_url)) => {
                &&& layout_issue(data@) is None
                &&& doc_id@ == container_of(data@).header.doc_id
                &&& title@ == container_of(data@).header.title
                &&& server_url@ == container_of(data@).header.server_url
            },
            Err(e) => layout_issue(data@) matches Some(issue) && e.is_format(issue.text()),
        },
{
    match SpdfFile::parse(data) {
        Ok(spdf) => Ok((spdf.header.doc_id, spdf.header.title, spdf.header.server_url)),
        Err(e) => Err(e),
    }
}

} // verus!
