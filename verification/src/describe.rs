//! Descriptions of media content for a consumer that captions it.

use crate::text::{
    contains_text, decimal, decimal_string, has_prefix, lemma_occurs_between, occurs_at,
    opt_chars, starts_with,
};
use base64::Engine;
use vstd::prelude::*;
use vstd::string::*;

verus! {

/// The standard base64 encoding of bytes, with padding, as the `base64`
/// crate's `STANDARD` engine writes it.
pub uninterp spec fn base64_standard(data: Seq<u8>) -> Seq<char>;

/// Calls `Engine::encode` of the `base64` crate on its `STANDARD` engine. The
/// result is the standard base64 encoding of the bytes.
#[verifier::external_body]
fn encode_base64(data: &[u8]) -> (text: String)
    ensures
        text@ == base64_standard(data@),
{
    base64::engine::general_purpose::STANDARD.encode(data)
}

/// The description of an image: its name, and its content as a data URI
/// behind the inline-image marker. `encoded` is the content in base64.
pub open spec fn image_description(
    filename: Seq<char>,
    mime: Seq<char>,
    encoded: Seq<char>,
) -> Seq<char> {
    "[Uploaded image: "@ + filename + "]\n[IMAGE:data:"@ + mime + ";base64,"@ + encoded + "]"@
}

/// The description of sound or video: its kind, its name and its size in bytes.
pub open spec fn sized_description(kind: Seq<char>, filename: Seq<char>, size: nat) -> Seq<char> {
    "[Uploaded "@ + kind + " file: "@ + filename + ", size: "@ + decimal(size) + " bytes]"@
}

/// The description of content of a given MIME type, if it is media.
pub open spec fn media_description(
    data: Seq<u8>,
    mime: Seq<char>,
    filename: Seq<char>,
) -> Option<Seq<char>> {
    if has_prefix(mime, "image/"@) {
        Some(image_description(filename, mime, base64_standard(data)))
    } else if has_prefix(mime, "audio/"@) {
        Some(sized_description("audio"@, filename, data.len()))
    } else if has_prefix(mime, "video/"@) {
        Some(sized_description("video"@, filename, data.len()))
    } else {
        None
    }
}

/// Writes the description of an image from its name, its type and its
/// content in base64.
pub fn describe_image(filename: &str, mime_type: &str, encoded: &str) -> (text: String)
    ensures
        text@ == image_description(filename@, mime_type@, encoded@),
{
    let mut text = String::from_str("[Uploaded image: ");
    text.append(filename);
    text.append("]\n[IMAGE:data:");
    text.append(mime_type);
    text.append(";base64,");
    text.append(encoded);
    text.append("]");
    text
}

/// Writes the description of sound or video from its kind, its name and its size.
pub fn describe_sized(kind: &str, filename: &str, size: usize) -> (text: String)
    ensures
        text@ == sized_description(kind@, filename@, size as nat),
{
    let mut text = String::from_str("[Uploaded ");
    text.append(kind);
    text.append(" file: ");
    text.append(filename);
    text.append(", size: ");
    let digits = decimal_string(size as u64);
    text.append(digits.as_str());
    text.append(" bytes]");
    text
}

/// Describe a media file. An image is embedded in base64 as a data URI
/// behind the inline-image marker; of sound and video the name and the size
/// are given; anything else has no description.
pub fn describe_media(data: &[u8], mime_type: &str, filename: &str) -> (text: Option<String>)
    ensures
        opt_chars(text) == media_description(data@, mime_type@, filename@),
{
    if starts_with(mime_type, "image/") {
        let encoded = encode_base64(data);
        Some(describe_image(filename, mime_type, encoded.as_str()))
    } else if starts_with(mime_type, "audio/") {
        Some(describe_sized("audio", filename, data.len()))
    } else if starts_with(mime_type, "video/") {
        Some(describe_sized("video", filename, data.len()))
    } else {
        None
    }
}

/// The description of an image holds the file's name and the base64
/// encoding of exactly its bytes, the encoding right before the closing
/// bracket.
pub proof fn lemma_image_description_holds_content(
    data: Seq<u8>,
    mime: Seq<char>,
    filename: Seq<char>,
)
    requires
        has_prefix(mime, "image/"@),
    ensures
        media_description(data, mime, filename) matches Some(text) && {
            &&& occurs_at(text, filename, 17)
            &&& occurs_at(text, base64_standard(data), 39 + filename.len() + mime.len() as int)
            &&& text.len() == 40 + filename.len() + mime.len() + base64_standard(data).len()
            &&& contains_text(text, filename)
            &&& contains_text(text, base64_standard(data))
        },
{
    reveal_strlit("[Uploaded image: ");
    reveal_strlit("]\n[IMAGE:data:");
    reveal_strlit(";base64,");
    reveal_strlit("]");
    let encoded = base64_standard(data);
    let text = image_description(filename, mime, encoded);
    let opening = "[Uploaded image: "@;
    let marker = "]\n[IMAGE:data:"@;
    let kind = ";base64,"@;
    let closing = "]"@;
    assert(text =~= opening + filename + (marker + mime + kind + encoded + closing));
    lemma_occurs_between(opening, filename, marker + mime + kind + encoded + closing);
    assert(text =~= (opening + filename + marker + mime + kind) + encoded + closing);
    lemma_occurs_between(opening + filename + marker + mime + kind, encoded, closing);
}

/// The description of sound or video holds the file's name and the exact
/// number of its bytes in decimal notation.
pub proof fn lemma_sized_description_holds_length(
    data: Seq<u8>,
    mime: Seq<char>,
    filename: Seq<char>,
)
    requires
        has_prefix(mime, "audio/"@) || has_prefix(mime, "video/"@),
    ensures
        media_description(data, mime, filename) matches Some(text) && {
            &&& occurs_at(text, filename, 22)
            &&& occurs_at(text, decimal(data.len()), 30 + filename.len() as int)
            &&& contains_text(text, filename)
            &&& contains_text(text, decimal(data.len()))
        },
{
    reveal_strlit("image/");
    reveal_strlit("audio/");
    reveal_strlit("video/");
    reveal_strlit("audio");
    reveal_strlit("video");
    reveal_strlit("[Uploaded ");
    reveal_strlit(" file: ");
    reveal_strlit(", size: ");
    reveal_strlit(" bytes]");
    if has_prefix(mime, "image/"@) {
        assert(mime.subrange(0, 6)[0] == 'i');
        assert(false);
    }
    let kind = if has_prefix(mime, "audio/"@) {
        "audio"@
    } else {
        "video"@
    };
    let digits = decimal(data.len());
    let text = sized_description(kind, filename, data.len());
    let opening = "[Uploaded "@ + kind + " file: "@;
    let sized = ", size: "@;
    let closing = " bytes]"@;
    assert(text =~= opening + filename + (sized + digits + closing));
    lemma_occurs_between(opening, filename, sized + digits + closing);
    assert(text =~= (opening + filename + sized) + digits + closing);
    lemma_occurs_between(opening + filename + sized, digits, closing);
}

/// Content that is no image, sound or video has no description.
pub proof fn lemma_other_content_has_no_description(
    data: Seq<u8>,
    mime: Seq<char>,
    filename: Seq<char>,
)
    requires
        !has_prefix(mime, "image/"@),
        !has_prefix(mime, "audio/"@),
        !has_prefix(mime, "video/"@),
    ensures
        media_description(data, mime, filename) is None,
{
}

} // verus!
