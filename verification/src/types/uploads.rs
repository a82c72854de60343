//! Storage upload request and response types.
use vstd::prelude::*;

verus! {

/// Content type accepted by `POST /v1/uploads/images`.
#[derive(Debug, Clone, Copy, PartialEq, Eq, Structural)]
pub enum ImageContentType {
    /// `image/png`
    Png,
    /// `image/jpeg`
    Jpeg,
    /// `image/gif`
    Gif,
    /// `image/webp`
    Webp,
}

/// Content type accepted by `POST /v1/uploads/files`.
#[derive(Debug, Clone, Copy, PartialEq, Eq, Structural)]
pub enum FileContentType {
    /// `application/pdf`
    Pdf,
    /// `text/plain`
    Text,
}

/// A request to upload a base64 payload to Skailar storage.
///
/// The `content_type` field is a free-form string on the wire; the upload
/// requests are built from the [`ImageContentType`] / [`FileContentType`]
/// enums, which set it.
#[derive(Debug, Clone, PartialEq, Eq)]
pub struct UploadRequest {
    /// Base64-encoded payload (no `data:` prefix).
    pub base64: String,
    /// MIME type of the payload.
    pub content_type: String,
}

/// The response from an upload endpoint.
#[derive(Debug, Clone, PartialEq, Eq)]
pub struct UploadResponse {
    /// Skailar-relative URL of the stored asset, ready to embed in subsequent
    /// calls.
    pub url: String,
    /// MIME type of the stored asset.
    pub content_type: String,
}

} // verus!
