//! Serving the built frontend: which file a request asks for, what kind of
//! content it is, and the response that answers it.
use crate::text::{chars_of, ends_with, has_suffix};
use vstd::prelude::*;
use vstd::string::{StrSliceExecFns, StringExecFns, StringSliceAdditionalSpecFns};
use vstd::utf8::encode_utf8;

verus! {

/// The content type of a file, by the ending of its path. The request for
/// the root counts as a page.
pub open spec fn mime_type_of(path: Seq<char>) -> Seq<char> {
    if has_suffix(path, ".html"@) || path == "/"@ {
        "text/html"@
    } else if has_suffix(path, ".js"@) || has_suffix(path, ".mjs"@) {
        "text/javascript"@
    } else if has_suffix(path, ".css"@) {
        "text/css"@
    } else if has_suffix(path, ".png"@) {
        "image/png"@
    } else if has_suffix(path, ".jpg"@) || has_suffix(path, ".jpeg"@) {
        "image/jpeg"@
    } else if has_suffix(path, ".svg"@) {
        "image/svg+xml"@
    } else if has_suffix(path, ".gif"@) {
        "image/gif"@
    } else if has_suffix(path, ".webp"@) {
        "image/webp"@
    } else if has_suffix(path, ".wasm"@) {
        "application/wasm"@
    } else if has_suffix(path, ".json"@) {
        "application/json"@
    } else if has_suffix(path, ".woff"@) {
        "font/woff"@
    } else if has_suffix(path, ".woff2"@) {
        "font/woff2"@
    } else if has_suffix(path, ".ttf"@) {
        "font/ttf"@
    } else if has_suffix(path, ".otf"@) {
        "font/otf"@
    } else if has_suffix(path, ".eot"@) {
        "application/vnd.ms-fontobject"@
    } else if has_suffix(path, ".ico"@) {
        "image/x-icon"@
    } else if has_suffix(path, ".xml"@) {
        "application/xml"@
    } else if has_suffix(path, ".txt"@) {
        "text/plain"@
    } else if has_suffix(path, ".pdf"@) {
        "application/pdf"@
    } else if has_suffix(path, ".zip"@) {
        "application/zip"@
    } else {
        "application/octet-stream"@
    }
}

/// The content type of the file at `path`.
pub fn get_mime_type(path: &str) -> (mime: &'static str)
    ensures
        mime@ == mime_type_of(path@),
{
    let chars = chars_of(path);
    if ends_with(&chars, ".html") || *path == *"/" {
        "text/html"
    } else if ends_with(&chars, ".js") || ends_with(&chars, ".mjs") {
        "text/javascript"
    } else if ends_with(&chars, ".css") {
        "text/css"
    } else if ends_with(&chars, ".png") {
        "image/png"
    } else if ends_with(&chars, ".jpg") || ends_with(&chars, ".jpeg") {
        "image/jpeg"
    } else if ends_with(&chars, ".svg") {
        "image/svg+xml"
    } else if ends_with(&chars, ".gif") {
        "image/gif"
    } else if ends_with(&chars, ".webp") {
        "image/webp"
    } else if ends_with(&chars, ".wasm") {
        "application/wasm"
    } else if ends_with(&chars, ".json") {
        "application/json"
    } else if ends_with(&chars, ".woff") {
        "font/woff"
    } else if ends_with(&chars, ".woff2") {
        "font/woff2"
    } else if ends_with(&chars, ".ttf") {
        "font/ttf"
    } else if ends_with(&chars, ".otf") {
        "font/otf"
    } else if ends_with(&chars, ".eot") {
        "application/vnd.ms-fontobject"
    } else if ends_with(&chars, ".ico") {
        "image/x-icon"
    } else if ends_with(&chars, ".xml") {
        "application/xml"
    } else if ends_with(&chars, ".txt") {
        "text/plain"
    } else if ends_with(&chars, ".pdf") {
        "application/pdf"
    } else if ends_with(&chars, ".zip") {
        "application/zip"
    } else {
        "application/octet-stream"
    }
}

/// The file below the root that a request path asks for: the index page for
/// the root itself, else the path without its first character.
pub open spec fn requested_file(path: Seq<char>) -> Seq<char> {
    if path == "/"@ {
        "index.html"@
    } else if path.len() == 0 {
        path
    } else {
        path.skip(1)
    }
}

/// The file below the root that a request path asks for.
pub fn request_file_path(path: &str) -> (file: String)
    ensures
        file@ == requested_file(path@),
{
    if *path == *"/" {
        String::from_str("index.html")
    } else {
        let n = path.unicode_len();
        if n == 0 {
            String::from_str(path)
        } else {
            let rest = path.substring_char(1, n);
            String::from_str(rest)
        }
    }
}

/// An answer to a request for a file, before it is put on the wire.
#[derive(Debug, Clone, PartialEq, Eq)]
pub struct AssetResponse {
    /// The status code.
    pub status: u16,
    /// The value of the `Content-Type` header.
    pub content_type: String,
    /// Whether the response carries `Access-Control-Allow-Origin: *`.
    pub allow_any_origin: bool,
    pub body: Vec<u8>,
}

/// What the file system said of a requested file.
#[derive(Debug)]
pub enum FileOutcome {
    /// The file lies below the root; these are its contents.
    Found(Vec<u8>),
    /// The file lies outside the root.
    Outside,
    /// The file could not be located or read, for this reason.
    Failed(String),
}

/// What is answered when a file lies outside the root.
pub open spec fn access_denied() -> Seq<char> {
    "Access denied: path outside root directory"@
}

/// A plain-text answer with status `status`.
pub fn plain_response(status: u16, text: &str) -> (response: AssetResponse)
    ensures
        response.status == status,
        response.content_type@ == "text/plain"@,
        !response.allow_any_origin,
        response.body@ == encode_utf8(text@),
{
    AssetResponse {
        status,
        content_type: String::from_str("text/plain"),
        allow_any_origin: false,
        body: text.as_bytes_vec(),
    }
}

/// The answer to a request for `path`, given what the file system said of
/// the file that the path asks for. A file that was found is sent with the
/// content type of its path. A file outside the root is refused, and a file
/// that could not be read is reported, both as plain text with status 500.
pub fn handle_custom_protocol(path: &str, outcome: FileOutcome) -> (response: AssetResponse)
    ensures
        match outcome {
            FileOutcome::Found(content) => {
                &&& response.status == 200
                &&& response.content_type@ == mime_type_of(requested_file(path@))
                &&& !response.allow_any_origin
                &&& response.body == content
            },
            FileOutcome::Outside => {
                &&& response.status == 500
                &&& response.content_type@ == "text/plain"@
                &&& !response.allow_any_origin
                &&& response.body@ == encode_utf8(access_denied())
            },
            FileOutcome::Failed(reason) => {
                &&& response.status == 500
                &&& response.content_type@ == "text/plain"@
                &&& !response.allow_any_origin
                &&& response.body@ == encode_utf8(reason@)
            },
        },
{
    match outcome {
        FileOutcome::Found(content) => {
            let file = request_file_path(path);
            AssetResponse {
                status: 200,
                content_type: String::from_str(get_mime_type(file.as_str())),
                allow_any_origin: false,
                body: content,
            }
        },
        FileOutcome::Outside => plain_response(500, "Access denied: path outside root directory"),
        FileOutcome::Failed(reason) => plain_response(500, reason.as_str()),
    }
}

} // verus!
