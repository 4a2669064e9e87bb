//! An image as a data URL: the media type by the file's extension, and the
//! bytes in base64.

use vstd::prelude::*;
use vstd::string::*;

verus! {

/// The standard base64 encoding of `bytes`, with padding, as the base64
/// crate's `STANDARD` engine writes it.
pub uninterp spec fn base64_standard(bytes: Seq<u8>) -> Seq<char>;

/// The media type that goes with a file extension.
pub open spec fn mime_of(extension: Option<Seq<char>>) -> Seq<char> {
    match extension {
        Some(e) => if e == "png"@ {
            "image/png"@
        } else if e == "jpg"@ || e == "jpeg"@ {
            "image/jpeg"@
        } else if e == "webp"@ {
            "image/webp"@
        } else if e == "gif"@ {
            "image/gif"@
        } else {
            "application/octet-stream"@
        },
        None => "application/octet-stream"@,
    }
}

/// The data URL of `encoded` data of media type `mime`.
pub open spec fn data_url_of(mime: Seq<char>, encoded: Seq<char>) -> Seq<char> {
    "data:"@ + mime + ";base64,"@ + encoded
}

/// Whether the base64 text of so many bytes has a length that fits the machine.
pub open spec fn encodable(len: nat) -> bool {
    len / 3 * 4 + 4 <= usize::MAX
}

/// The text of an optional string slice.
pub open spec fn extension_view(extension: Option<&str>) -> Option<Seq<char>> {
    match extension {
        Some(e) => Some(e@),
        None => None,
    }
}

/// Calls `Engine::encode` of the base64 crate on its `STANDARD` engine. The
/// text depends on the bytes alone. The call panics where the length of the
/// text overflows, which `requires` leaves out.
#[verifier::external_body]
fn encode_base64(bytes: &[u8]) -> (encoded: String)
    requires
        encodable(bytes@.len()),
    ensures
        encoded@ == base64_standard(bytes@),
{
    base64::Engine::encode(&base64::engine::general_purpose::STANDARD, bytes)
}

/// Calls `Path::extension` of std on `path`, and hands the extension out as
/// text where it is valid Unicode. What counts as the file name depends on
/// the platform's separators, so nothing is stated of the result.
#[verifier::external_body]
fn path_extension(path: &str) -> (extension: Option<String>) {
    std::path::Path::new(path).extension().and_then(|e| e.to_str()).map(|e| e.to_string())
}

/// Whether two string slices hold the same text.
fn same_text(a: &str, b: &str) -> (same: bool)
    ensures
        same == (a@ == b@),
{
    String::from_str(a) == String::from_str(b)
}

/// The media type that goes with a file extension: that of PNG, JPEG, WebP
/// or GIF for their extensions, and that of arbitrary bytes for any other
/// or none.
pub fn mime_for_extension(extension: Option<&str>) -> (mime: &'static str)
    ensures
        mime@ == mime_of(extension_view(extension)),
{
    match extension {
        Some(e) => {
            if same_text(e, "png") {
                "image/png"
            } else if same_text(e, "jpg") || same_text(e, "jpeg") {
                "image/jpeg"
            } else if same_text(e, "webp") {
                "image/webp"
            } else if same_text(e, "gif") {
                "image/gif"
            } else {
                "application/octet-stream"
            }
        },
        None => "application/octet-stream",
    }
}

/// The data URL of `encoded` data of media type `mime`.
pub fn data_url(mime: &str, encoded: &str) -> (url: String)
    ensures
        url@ == data_url_of(mime@, encoded@),
{
    let mut url = String::from_str("data:");
    url.append(mime);
    url.append(";base64,");
    url.append(encoded);
    url
}

/// The data URL of `bytes` for a file with the given extension.
pub fn encode_with_extension(extension: Option<&str>, bytes: &[u8]) -> (url: String)
    requires
        encodable(bytes@.len()),
    ensures
        url@ == data_url_of(mime_of(extension_view(extension)), base64_standard(bytes@)),
{
    let encoded = encode_base64(bytes);
    data_url(mime_for_extension(extension), encoded.as_str())
}

/// Turns the content of an image file into a data URL.
pub struct DataUrlEncoder;

impl DataUrlEncoder {
    /// The data URL of the file at `path` whose content is `bytes`: the
    /// media type goes by the extension that the platform reads off `path`.
    pub fn encode_path(&self, path: &str, bytes: &[u8]) -> (url: String)
        requires
            encodable(bytes@.len()),
        ensures
            exists|extension: Option<Seq<char>>|
                url@ == data_url_of(mime_of(extension), base64_standard(bytes@)),
    {
        let extension = path_extension(path);
        let url = match &extension {
            Some(e) => encode_with_extension(Some(e.as_str()), bytes),
            None => encode_with_extension(None, bytes),
        };
        assert(url@ == data_url_of(
            mime_of(
                match extension {
                    Some(e) => Some(e@),
                    None => None,
                },
            ),
            base64_standard(bytes@),
        ));
        url
    }
}

} // verus!
