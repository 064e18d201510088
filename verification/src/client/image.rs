//! Images as data URIs, the form in which the REST API takes avatars and
//! banners.

use vstd::prelude::*;
use vstd::string::*;
use base64::Engine;
use crate::text::{starts_with, str_eq};

verus! {

/// The text that the standard base64 alphabet with padding gives for a run
/// of bytes.
pub uninterp spec fn base64_text(bytes: Seq<u8>) -> Seq<char>;

/// Encodes bytes with `base64::engine::general_purpose::STANDARD.encode`.
/// Trusted: the text depends on the bytes alone. The call fails only where
/// the length of the text would not fit `usize`, which the bound on the
/// input's length rules out.
#[verifier::external_body]
pub(crate) fn base64_encode(bytes: &[u8]) -> (text: String)
    requires
        bytes@.len() <= isize::MAX,
    ensures
        text@ == base64_text(bytes@),
{
    base64::engine::general_purpose::STANDARD.encode(bytes)
}

/// The data URI of an image: `data:`, the content type, `;base64,` and the
/// bytes in base64.
pub open spec fn data_uri(bytes: Seq<u8>, content_type: Seq<char>) -> Seq<char> {
    "data:"@ + content_type + ";base64,"@ + base64_text(bytes)
}

/// Writes an image as a data URI. No slice is longer than the bound.
pub fn image_to_data_uri(image_bytes: &[u8], content_type: &str) -> (uri: String)
    requires
        image_bytes@.len() <= isize::MAX,
    ensures
        uri@ == data_uri(image_bytes@, content_type@),
{
    let encoded = base64_encode(image_bytes);
    let mut uri = String::from_str("data:");
    uri.append(content_type);
    uri.append(";base64,");
    uri.append(encoded.as_str());
    uri
}

/// The content type that goes with the extension of a file's name.
pub open spec fn content_type_of(extension: Option<Seq<char>>) -> Seq<char> {
    match extension {
        Some(e) => if e == "jpg"@ || e == "jpeg"@ {
            "image/jpeg"@
        } else if e == "gif"@ {
            "image/gif"@
        } else if e == "webp"@ {
            "image/webp"@
        } else {
            "image/png"@
        },
        None => "image/png"@,
    }
}

/// The characters of an optional string slice.
pub open spec fn opt_chars(s: Option<&str>) -> Option<Seq<char>> {
    match s {
        Some(s) => Some(s@),
        None => None,
    }
}

/// Picks the content type of an image from the extension of its file's
/// name: JPEG, GIF and WebP by their extensions, PNG for every other
/// extension and for none.
pub fn content_type_for_extension(extension: Option<&str>) -> (content_type: &'static str)
    ensures
        content_type@ == content_type_of(opt_chars(extension)),
{
    match extension {
        Some(e) => {
            if str_eq(e, "jpg") || str_eq(e, "jpeg") {
                "image/jpeg"
            } else if str_eq(e, "gif") {
                "image/gif"
            } else if str_eq(e, "webp") {
                "image/webp"
            } else {
                "image/png"
            }
        },
        None => "image/png",
    }
}

/// Whether the source of an image is an address to download it from: it
/// begins with `http://` or `https://`. Every other source is the path of a
/// file.
pub fn is_remote_source(source: &str) -> (remote: bool)
    ensures
        remote == ("http://"@.is_prefix_of(source@) || "https://"@.is_prefix_of(source@)),
{
    starts_with(source, "http://") || starts_with(source, "https://")
}

} // verus!
