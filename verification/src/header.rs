//! The container header: structured metadata written as JSON text.
//!
//! The decoder reads a header from a JSON document field by field. A header
//! must be a JSON object. `spdf_version`, `doc_id`, `org_id` and `server_url`
//! are required strings; every other field may be left out and then takes its
//! default. A field that is present with the wrong type is an error, never a
//! default. Fields that the header does not know are ignored.

use vstd::prelude::*;
use crate::json::{
    json_bool_at, json_bools, json_document, json_from_slice, json_has, json_render_at,
    json_rendered, json_text_at, json_texts, json_uint_at, json_uints,
};

verus! {

/// What a document allows, as its header states it. Advisory: the core does
/// not enforce any of it.
#[derive(Debug, Clone)]
pub struct SpdfPermissions {
    pub allow_print: bool,
    pub allow_copy: bool,
    pub max_devices: u32,
    pub offline_days: u32,
}

impl SpdfPermissions {
    /// The permissions of a header that states none.
    pub open spec fn standard() -> SpdfPermissions {
        SpdfPermissions { allow_print: false, allow_copy: false, max_devices: 2, offline_days: 0 }
    }
}

impl Default for SpdfPermissions {
    fn default() -> (r: Self)
        ensures
            r == SpdfPermissions::standard(),
    {
        SpdfPermissions { allow_print: false, allow_copy: false, max_devices: 2, offline_days: 0 }
    }
}

/// The watermark that a viewer lays over the pages.
#[derive(Debug, Clone)]
pub struct SpdfWatermark {
    pub enabled: bool,
    pub text: String,
}

/// A watermark as plain values.
pub struct WatermarkView {
    pub enabled: bool,
    pub text: Seq<char>,
}

impl View for SpdfWatermark {
    type V = WatermarkView;

    open spec fn view(&self) -> WatermarkView {
        WatermarkView { enabled: self.enabled, text: self.text@ }
    }
}

impl SpdfWatermark {
    /// The watermark of a header that states none.
    pub open spec fn standard() -> WatermarkView {
        WatermarkView { enabled: true, text: "{{user_email}} | {{device_id}}"@ }
    }
}

impl Default for SpdfWatermark {
    fn default() -> (r: Self)
        ensures
            r@ == SpdfWatermark::standard(),
    {
        SpdfWatermark { enabled: true, text: "{{user_email}} | {{device_id}}".to_owned() }
    }
}

/// The metadata of one container. `metadata` holds compact JSON text, `null`
/// where the header has none; `public_key` is PEM text, empty where the header
/// carries no key.
#[derive(Debug, Clone)]
pub struct SpdfHeader {
    pub spdf_version: String,
    pub doc_id: String,
    pub org_id: String,
    pub title: String,
    pub server_url: String,
    pub created_at: String,
    pub public_key: String,
    pub permissions: SpdfPermissions,
    pub watermark: SpdfWatermark,
    pub metadata: String,
}

/// A header as plain values.
pub struct HeaderView {
    pub spdf_version: Seq<char>,
    pub doc_id: Seq<char>,
    pub org_id: Seq<char>,
    pub title: Seq<char>,
    pub server_url: Seq<char>,
    pub created_at: Seq<char>,
    pub public_key: Seq<char>,
    pub permissions: SpdfPermissions,
    pub watermark: WatermarkView,
    pub metadata: Seq<char>,
}

impl View for SpdfHeader {
    type V = HeaderView;

    open spec fn view(&self) -> HeaderView {
        HeaderView {
            spdf_version: self.spdf_version@,
            doc_id: self.doc_id@,
            org_id: self.org_id@,
            title: self.title@,
            server_url: self.server_url@,
            created_at: self.created_at@,
            public_key: self.public_key@,
            permissions: self.permissions,
            watermark: self.watermark@,
            metadata: self.metadata@,
        }
    }
}

/// An optional text field: what was read where the field is present, the
/// empty text where it is not. `None` is a field of the wrong type.
pub open spec fn optional_text_of(present: bool, text: Option<Seq<char>>) -> Option<Seq<char>> {
    if present {
        text
    } else {
        Some(Seq::empty())
    }
}

/// A count field: the integer that was read, if it fits 32 bits.
pub open spec fn count_of(value: Option<u64>) -> Option<u32> {
    match value {
        Some(n) => if n <= u32::MAX {
            Some(n as u32)
        } else {
            None
        },
        None => None,
    }
}

/// An optional count field: the count where the field is present, 0 where
/// it is not.
pub open spec fn optional_count_of(present: bool, value: Option<u64>) -> Option<u32> {
    if present {
        count_of(value)
    } else {
        Some(0u32)
    }
}

/// The permissions that a header states: the standard ones where it has no
/// such member; else the member's fields, of which only `offline_days` may
/// be left out.
pub open spec fn permissions_from(
    present: bool,
    allow_print: Option<bool>,
    allow_copy: Option<bool>,
    max_devices: Option<u32>,
    offline_days: Option<u32>,
) -> Option<SpdfPermissions> {
    if !present {
        Some(SpdfPermissions::standard())
    } else if allow_print is Some && allow_copy is Some && max_devices is Some
        && offline_days is Some {
        Some(
            SpdfPermissions {
                allow_print: allow_print.unwrap(),
                allow_copy: allow_copy.unwrap(),
                max_devices: max_devices.unwrap(),
                offline_days: offline_days.unwrap(),
            },
        )
    } else {
        None
    }
}

/// The watermark that a header states: the standard one where it has no
/// such member; else the member's two fields.
pub open spec fn watermark_from(present: bool, enabled: Option<bool>, text: Option<Seq<char>>)
    -> Option<WatermarkView> {
    if !present {
        Some(SpdfWatermark::standard())
    } else if enabled is Some && text is Some {
        Some(WatermarkView { enabled: enabled.unwrap(), text: text.unwrap() })
    } else {
        None
    }
}

/// The metadata that a header states: the JSON text that was read, `null`
/// where there is none.
pub open spec fn metadata_from(rendered: Option<Seq<char>>) -> Seq<char> {
    match rendered {
        Some(text) => text,
        None => "null"@,
    }
}

/// What was read of a header, field by field: `None` for a field that is
/// missing though required, or of the wrong type.
pub struct FieldsView {
    pub spdf_version: Option<Seq<char>>,
    pub doc_id: Option<Seq<char>>,
    pub org_id: Option<Seq<char>>,
    pub title: Option<Seq<char>>,
    pub server_url: Option<Seq<char>>,
    pub created_at: Option<Seq<char>>,
    pub public_key: Option<Seq<char>>,
    pub permissions: Option<SpdfPermissions>,
    pub watermark: Option<WatermarkView>,
    pub metadata: Seq<char>,
}

/// The header that a set of fields makes: all of them, or none.
pub open spec fn header_from(f: FieldsView) -> Option<HeaderView> {
    if f.spdf_version is Some && f.doc_id is Some && f.org_id is Some && f.title is Some
        && f.server_url is Some && f.created_at is Some && f.public_key is Some
        && f.permissions is Some && f.watermark is Some {
        Some(
            HeaderView {
                spdf_version: f.spdf_version.unwrap(),
                doc_id: f.doc_id.unwrap(),
                org_id: f.org_id.unwrap(),
                title: f.title.unwrap(),
                server_url: f.server_url.unwrap(),
                created_at: f.created_at.unwrap(),
                public_key: f.public_key.unwrap(),
                permissions: f.permissions.unwrap(),
                watermark: f.watermark.unwrap(),
                metadata: f.metadata,
            },
        )
    } else {
        None
    }
}

/// Whether any value stands at a pointer of a document.
pub open spec fn present(doc: serde_json::Value, pointer: Seq<char>) -> bool {
    json_rendered(doc).dom().contains(pointer)
}

/// The JSON text of what stands at a pointer, if anything stands there.
pub open spec fn rendered_at(doc: serde_json::Value, pointer: Seq<char>) -> Option<Seq<char>> {
    if present(doc, pointer) {
        Some(json_rendered(doc)[pointer])
    } else {
        None
    }
}

/// The string at a pointer, if a string stands there.
pub open spec fn text_at(doc: serde_json::Value, pointer: Seq<char>) -> Option<Seq<char>> {
    if json_texts(doc).dom().contains(pointer) {
        Some(json_texts(doc)[pointer])
    } else {
        None
    }
}

/// The boolean at a pointer, if a boolean stands there.
pub open spec fn flag_at(doc: serde_json::Value, pointer: Seq<char>) -> Option<bool> {
    if json_bools(doc).dom().contains(pointer) {
        Some(json_bools(doc)[pointer])
    } else {
        None
    }
}

/// The non-negative integer at a pointer, if one that fits 64 bits stands there.
pub open spec fn uint_at(doc: serde_json::Value, pointer: Seq<char>) -> Option<u64> {
    if json_uints(doc).dom().contains(pointer) {
        Some(json_uints(doc)[pointer])
    } else {
        None
    }
}

/// The optional text field at a pointer.
pub open spec fn optional_text_at(doc: serde_json::Value, pointer: Seq<char>) -> Option<
    Seq<char>,
> {
    optional_text_of(present(doc, pointer), text_at(doc, pointer))
}

/// The fields of a header as a document holds them.
pub open spec fn fields_of(doc: serde_json::Value) -> FieldsView {
    FieldsView {
        spdf_version: text_at(doc, "/spdf_version"@),
        doc_id: text_at(doc, "/doc_id"@),
        org_id: text_at(doc, "/org_id"@),
        title: optional_text_at(doc, "/title"@),
        server_url: text_at(doc, "/server_url"@),
        created_at: optional_text_at(doc, "/created_at"@),
        public_key: optional_text_at(doc, "/public_key"@),
        permissions: permissions_from(
            present(doc, "/permissions"@),
            flag_at(doc, "/permissions/allow_print"@),
            flag_at(doc, "/permissions/allow_copy"@),
            count_of(uint_at(doc, "/permissions/max_devices"@)),
            optional_count_of(
                present(doc, "/permissions/offline_days"@),
                uint_at(doc, "/permissions/offline_days"@),
            ),
        ),
        watermark: watermark_from(
            present(doc, "/watermark"@),
            flag_at(doc, "/watermark/enabled"@),
            text_at(doc, "/watermark/text"@),
        ),
        metadata: metadata_from(rendered_at(doc, "/metadata"@)),
    }
}

/// The header that a JSON document states; `None` where a required field is
/// missing or any field has the wrong type.
pub open spec fn header_of(doc: serde_json::Value) -> Option<HeaderView> {
    header_from(fields_of(doc))
}

/// The header that a text states: the text must be one JSON document, and the
/// document a header.
pub open spec fn header_view(text: Seq<u8>) -> Option<HeaderView> {
    match json_document(text) {
        Some(doc) => header_of(doc),
        None => None,
    }
}

/// The views of an optional text.
pub open spec fn text_view(text: Option<String>) -> Option<Seq<char>> {
    match text {
        Some(s) => Some(s@),
        None => None,
    }
}

/// The view of an optional watermark.
pub open spec fn watermark_view(watermark: Option<SpdfWatermark>) -> Option<WatermarkView> {
    match watermark {
        Some(w) => Some(w@),
        None => None,
    }
}

/// The view of an optional header.
pub open spec fn header_option_view(header: Option<SpdfHeader>) -> Option<HeaderView> {
    match header {
        Some(h) => Some(h@),
        None => None,
    }
}

/// What was read of a header, field by field: `None` for a field that is
/// missing though required, or of the wrong type.
#[derive(Debug)]
pub struct HeaderFields {
    pub spdf_version: Option<String>,
    pub doc_id: Option<String>,
    pub org_id: Option<String>,
    pub title: Option<String>,
    pub server_url: Option<String>,
    pub created_at: Option<String>,
    pub public_key: Option<String>,
    pub permissions: Option<SpdfPermissions>,
    pub watermark: Option<SpdfWatermark>,
    pub metadata: String,
}

impl View for HeaderFields {
    type V = FieldsView;

    open spec fn view(&self) -> FieldsView {
        FieldsView {
            spdf_version: text_view(self.spdf_version),
            doc_id: text_view(self.doc_id),
            org_id: text_view(self.org_id),
            title: text_view(self.title),
            server_url: text_view(self.server_url),
            created_at: text_view(self.created_at),
            public_key: text_view(self.public_key),
            permissions: self.permissions,
            watermark: watermark_view(self.watermark),
            metadata: self.metadata@,
        }
    }
}

/// An optional text field: what was read where the field is present, the
/// empty text where it is not.
pub fn optional_text(present: bool, text: Option<String>) -> (r: Option<String>)
    ensures
        text_view(r) == optional_text_of(present, text_view(text)),
{
    if present {
        text
    } else {
        Some(String::new())
    }
}

/// A count field: the integer that was read, if it fits 32 bits.
pub fn count(value: Option<u64>) -> (r: Option<u32>)
    ensures
        r == count_of(value),
{
    match value {
        Some(n) => if n <= 0xffff_ffff {
            Some(n as u32)
        } else {
            None
        },
        None => None,
    }
}

/// An optional count field: the count where the field is present, 0 where
/// it is not.
pub fn optional_count(present: bool, value: Option<u64>) -> (r: Option<u32>)
    ensures
        r == optional_count_of(present, value),
{
    if present {
        count(value)
    } else {
        Some(0)
    }
}

/// The permissions of a header from what was read of them.
pub fn permissions(
    present: bool,
    allow_print: Option<bool>,
    allow_copy: Option<bool>,
    max_devices: Option<u32>,
    offline_days: Option<u32>,
) -> (r: Option<SpdfPermissions>)
    ensures
        r == permissions_from(present, allow_print, allow_copy, max_devices, offline_days),
{
    if !present {
        return Some(SpdfPermissions::default());
    }
    match (allow_print, allow_copy, max_devices, offline_days) {
        (Some(allow_print), Some(allow_copy), Some(max_devices), Some(offline_days)) => Some(
            SpdfPermissions { allow_print, allow_copy, max_devices, offline_days },
        ),
        _ => None,
    }
}

/// The watermark of a header from what was read of it.
pub fn watermark(present: bool, enabled: Option<bool>, text: Option<String>) -> (r: Option<
    SpdfWatermark,
>)
    ensures
        watermark_view(r) == watermark_from(present, enabled, text_view(text)),
{
    if !present {
        return Some(SpdfWatermark::default());
    }
    match (enabled, text) {
        (Some(enabled), Some(text)) => Some(SpdfWatermark { enabled, text }),
        _ => None,
    }
}

/// The metadata of a header from what was read of it.
pub fn metadata(rendered: Option<String>) -> (r: String)
    ensures
        r@ == metadata_from(text_view(rendered)),
{
    match rendered {
        Some(text) => text,
        None => "null".to_owned(),
    }
}

/// Makes a header of its fields: all of them, or none.
pub fn assemble_header(fields: HeaderFields) -> (r: Option<SpdfHeader>)
    ensures
        header_option_view(r) == header_from(fields@),
{
    match (fields.spdf_version, fields.doc_id, fields.org_id, fields.title, fields.server_url) {
        (Some(spdf_version), Some(doc_id), Some(org_id), Some(title), Some(server_url)) => {
            match (fields.created_at, fields.public_key, fields.permissions, fields.watermark) {
                (Some(created_at), Some(public_key), Some(permissions), Some(watermark)) => Some(
                    SpdfHeader {
                        spdf_version,
                        doc_id,
                        org_id,
                        title,
                        server_url,
                        created_at,
                        public_key,
                        permissions,
                        watermark,
                        metadata: fields.metadata,
                    },
                ),
                _ => None,
            }
        },
        _ => None,
    }
}

fn read_text(doc: &serde_json::Value, pointer: &str) -> (r: Option<String>)
    ensures
        text_view(r) == text_at(*doc, pointer@),
{
    json_text_at(doc, pointer)
}

fn read_optional_text(doc: &serde_json::Value, pointer: &str) -> (r: Option<String>)
    ensures
        text_view(r) == optional_text_at(*doc, pointer@),
{
    optional_text(json_has(doc, pointer), read_text(doc, pointer))
}

fn read_flag(doc: &serde_json::Value, pointer: &str) -> (r: Option<bool>)
    ensures
        r == flag_at(*doc, pointer@),
{
    json_bool_at(doc, pointer)
}

fn read_uint(doc: &serde_json::Value, pointer: &str) -> (r: Option<u64>)
    ensures
        r == uint_at(*doc, pointer@),
{
    json_uint_at(doc, pointer)
}

/// Reads the fields of a header from a JSON document.
pub fn read_fields(doc: &serde_json::Value) -> (r: HeaderFields)
    ensures
        r@ == fields_of(*doc),
{
    let rendered = json_render_at(doc, "/metadata");
    assert(text_view(rendered) == rendered_at(*doc, "/metadata"@));
    HeaderFields {
        spdf_version: read_text(doc, "/spdf_version"),
        doc_id: read_text(doc, "/doc_id"),
        org_id: read_text(doc, "/org_id"),
        title: read_optional_text(doc, "/title"),
        server_url: read_text(doc, "/server_url"),
        created_at: read_optional_text(doc, "/created_at"),
        public_key: read_optional_text(doc, "/public_key"),
        permissions: permissions(
            json_has(doc, "/permissions"),
            read_flag(doc, "/permissions/allow_print"),
            read_flag(doc, "/permissions/allow_copy"),
            count(read_uint(doc, "/permissions/max_devices")),
            optional_count(
                json_has(doc, "/permissions/offline_days"),
                read_uint(doc, "/permissions/offline_days"),
            ),
        ),
        watermark: watermark(
            json_has(doc, "/watermark"),
            read_flag(doc, "/watermark/enabled"),
            read_text(doc, "/watermark/text"),
        ),
        metadata: metadata(rendered),
    }
}

/// Reads a header from a JSON document.
pub fn decode_header(doc: &serde_json::Value) -> (r: Option<SpdfHeader>)
    ensures
        header_option_view(r) == header_of(*doc),
{
    assemble_header(read_fields(doc))
}

/// Reads a header from its text: parses the text as JSON, then decodes the
/// document.
pub fn parse_header(text: &[u8]) -> (r: Option<SpdfHeader>)
    ensures
        header_option_view(r) == header_view(text@),
{
    match json_from_slice(text) {
        Ok(doc) => decode_header(&doc),
        Err(_) => None,
    }
}

} // verus!
