//! MIME classification by file name and extraction of text from content.

use crate::text::{
    bound_char_count, has_prefix, is_blank, is_whitespace, opt_chars, starts_with, str_eq,
    str_is_blank,
};
use vstd::prelude::*;
use vstd::string::*;
use vstd::utf8::*;

verus! {

/// Position of the final `.` of a name, or -1 where the name has none.
pub open spec fn dot_position(name: Seq<char>) -> int
    decreases name.len(),
{
    if name.len() == 0 {
        -1
    } else if name.last() == '.' {
        name.len() - 1
    } else {
        dot_position(name.drop_last())
    }
}

/// The extension of a file name: what follows its final `.`, and nothing
/// where the name has no `.`.
pub open spec fn extension_of(name: Seq<char>) -> Seq<char> {
    if dot_position(name) < 0 {
        Seq::empty()
    } else {
        name.skip(dot_position(name) + 1)
    }
}

/// What `dot_position` finds: a `.` with no `.` behind it, or -1 where the
/// name holds no `.` at all.
pub proof fn lemma_dot_position(name: Seq<char>)
    ensures
        -1 <= dot_position(name) < name.len(),
        dot_position(name) >= 0 ==> name[dot_position(name)] == '.',
        forall|i: int| dot_position(name) < i < name.len() ==> name[i] != '.',
    decreases name.len(),
{
    if name.len() > 0 && name.last() != '.' {
        let shorter = name.drop_last();
        lemma_dot_position(shorter);
        assert forall|i: int| dot_position(name) < i < name.len() implies name[i] != '.' by {
            if i < shorter.len() {
                assert(name[i] == shorter[i]);
            }
        }
    }
}

/// The extension of a file name holds no `.` and ends the name.
pub proof fn lemma_extension_ends_the_name(name: Seq<char>)
    ensures
        forall|i: int| 0 <= i < extension_of(name).len() ==> extension_of(name)[i] != '.',
        extension_of(name).len() <= name.len(),
        name.skip(name.len() - extension_of(name).len()) == extension_of(name),
{
    lemma_dot_position(name);
    if dot_position(name) < 0 {
        assert(name.skip(name.len() as int) =~= Seq::<char>::empty());
    }
}

/// The extension of `filename`, as a slice of it: the end of the name
/// behind its final `.`.
pub fn file_extension(filename: &str) -> (ext: &str)
    ensures
        ext@ == extension_of(filename@),
        ext@.len() <= filename@.len(),
        filename@.skip(filename@.len() - ext@.len()) == ext@,
        forall|i: int| 0 <= i < ext@.len() ==> ext@[i] != '.',
{
    proof {
        lemma_extension_ends_the_name(filename@);
    }
    bound_char_count(filename);
    let mut count: usize = 0;
    let mut after_dot: usize = 0;
    let mut found: bool = false;
    for c in it: filename.chars()
        invariant
            it.seq() == filename@,
            count == it.index(),
            found == (dot_position(filename@.take(count as int)) >= 0),
            found ==> after_dot == dot_position(filename@.take(count as int)) + 1,
            after_dot <= count,
            filename@.len() <= usize::MAX,
    {
        proof {
            let longer = filename@.take(count + 1);
            assert(longer.drop_last() == filename@.take(count as int));
            assert(longer.last() == c);
        }
        count = count + 1;
        if c == '.' {
            found = true;
            after_dot = count;
        }
    }
    assert(filename@.take(count as int) == filename@);
    if found {
        filename.substring_char(after_dot, count)
    } else {
        proof {
            reveal_strlit("");
        }
        assert(""@ =~= Seq::<char>::empty());
        ""
    }
}

/// The lower-case form of a text, as `str::to_lowercase` of the standard
/// library gives it.
pub uninterp spec fn lowercase(s: Seq<char>) -> Seq<char>;

/// Calls `str::to_lowercase`, which maps each character by the Unicode
/// lower-case mapping. Nothing is claimed of the result but that it is the
/// lower-case form of the argument.
#[verifier::external_body]
fn to_lowercase(s: &str) -> (lower: String)
    ensures
        lower@ == lowercase(s@),
{
    s.to_lowercase()
}

/// The extensions that the classifier knows, in lower case.
pub open spec fn is_known_extension(ext: Seq<char>) -> bool {
    ||| ext == "txt"@
    ||| ext == "md"@
    ||| ext == "markdown"@
    ||| ext == "csv"@
    ||| ext == "json"@
    ||| ext == "xml"@
    ||| ext == "html"@
    ||| ext == "htm"@
    ||| ext == "pdf"@
    ||| ext == "png"@
    ||| ext == "jpg"@
    ||| ext == "jpeg"@
    ||| ext == "gif"@
    ||| ext == "webp"@
    ||| ext == "bmp"@
    ||| ext == "svg"@
    ||| ext == "mp3"@
    ||| ext == "wav"@
    ||| ext == "ogg"@
    ||| ext == "mp4"@
    ||| ext == "webm"@
    ||| ext == "mov"@
    ||| ext == "zip"@
    ||| ext == "tar"@
    ||| ext == "gz"@
}

/// The MIME type that belongs to a lower-case extension.
pub open spec fn mime_of_extension(ext: Seq<char>) -> Seq<char> {
    if ext == "txt"@ {
        "text/plain"@
    } else if ext == "md"@ {
        "text/markdown"@
    } else if ext == "markdown"@ {
        "text/markdown"@
    } else if ext == "csv"@ {
        "text/csv"@
    } else if ext == "json"@ {
        "application/json"@
    } else if ext == "xml"@ {
        "application/xml"@
    } else if ext == "html"@ {
        "text/html"@
    } else if ext == "htm"@ {
        "text/html"@
    } else if ext == "pdf"@ {
        "application/pdf"@
    } else if ext == "png"@ {
        "image/png"@
    } else if ext == "jpg"@ {
        "image/jpeg"@
    } else if ext == "jpeg"@ {
        "image/jpeg"@
    } else if ext == "gif"@ {
        "image/gif"@
    } else if ext == "webp"@ {
        "image/webp"@
    } else if ext == "bmp"@ {
        "image/bmp"@
    } else if ext == "svg"@ {
        "image/svg+xml"@
    } else if ext == "mp3"@ {
        "audio/mpeg"@
    } else if ext == "wav"@ {
        "audio/wav"@
    } else if ext == "ogg"@ {
        "audio/ogg"@
    } else if ext == "mp4"@ {
        "video/mp4"@
    } else if ext == "webm"@ {
        "video/webm"@
    } else if ext == "mov"@ {
        "video/quicktime"@
    } else if ext == "zip"@ {
        "application/zip"@
    } else if ext == "tar"@ {
        "application/x-tar"@
    } else if ext == "gz"@ {
        "application/gzip"@
    } else {
        "application/octet-stream"@
    }
}

/// The MIME type of a file name: that of its lower-cased extension, and
/// `application/octet-stream` where the name has no extension.
pub open spec fn mime_type_of(filename: Seq<char>) -> Seq<char> {
    if extension_of(filename).len() == 0 {
        "application/octet-stream"@
    } else {
        mime_of_extension(lowercase(extension_of(filename)))
    }
}

/// An extension outside the table is classified as `application/octet-stream`.
pub proof fn lemma_unknown_extension(ext: Seq<char>)
    requires
        !is_known_extension(ext),
    ensures
        mime_of_extension(ext) == "application/octet-stream"@,
{
}

/// A file name whose lower-cased extension is outside the table is
/// classified as `application/octet-stream`.
pub proof fn lemma_unknown_file_type(filename: Seq<char>)
    requires
        !is_known_extension(lowercase(extension_of(filename))),
    ensures
        mime_type_of(filename) == "application/octet-stream"@,
{
}

/// Classification depends on the characters of the file name alone: two
/// names that read the same get the same MIME type.
pub proof fn lemma_classification_is_a_function(a: &str, b: &str)
    requires
        a@ == b@,
    ensures
        mime_type_of(a@) == mime_type_of(b@),
{
}

/// A name without `.`, or one that ends in `.`, is classified as
/// `application/octet-stream`.
pub proof fn lemma_no_extension(filename: Seq<char>)
    requires
        dot_position(filename) < 0 || filename.last() == '.',
    ensures
        mime_type_of(filename) == "application/octet-stream"@,
{
}

/// Looks a lower-case extension up in the table of known types.
pub fn mime_for_extension(ext: &str) -> (mime: &'static str)
    ensures
        mime@ == mime_of_extension(ext@),
{
    if str_eq(ext, "txt") {
        "text/plain"
    } else if str_eq(ext, "md") {
        "text/markdown"
    } else if str_eq(ext, "markdown") {
        "text/markdown"
    } else if str_eq(ext, "csv") {
        "text/csv"
    } else if str_eq(ext, "json") {
        "application/json"
    } else if str_eq(ext, "xml") {
        "application/xml"
    } else if str_eq(ext, "html") {
        "text/html"
    } else if str_eq(ext, "htm") {
        "text/html"
    } else if str_eq(ext, "pdf") {
        "application/pdf"
    } else if str_eq(ext, "png") {
        "image/png"
    } else if str_eq(ext, "jpg") {
        "image/jpeg"
    } else if str_eq(ext, "jpeg") {
        "image/jpeg"
    } else if str_eq(ext, "gif") {
        "image/gif"
    } else if str_eq(ext, "webp") {
        "image/webp"
    } else if str_eq(ext, "bmp") {
        "image/bmp"
    } else if str_eq(ext, "svg") {
        "image/svg+xml"
    } else if str_eq(ext, "mp3") {
        "audio/mpeg"
    } else if str_eq(ext, "wav") {
        "audio/wav"
    } else if str_eq(ext, "ogg") {
        "audio/ogg"
    } else if str_eq(ext, "mp4") {
        "video/mp4"
    } else if str_eq(ext, "webm") {
        "video/webm"
    } else if str_eq(ext, "mov") {
        "video/quicktime"
    } else if str_eq(ext, "zip") {
        "application/zip"
    } else if str_eq(ext, "tar") {
        "application/x-tar"
    } else if str_eq(ext, "gz") {
        "application/gzip"
    } else {
        "application/octet-stream"
    }
}

/// Guess the MIME type of a file from the extension of its name.
pub fn guess_mime_type(filename: &str) -> (mime: String)
    ensures
        mime@ == mime_type_of(filename@),
{
    let ext = file_extension(filename);
    if ext.unicode_len() == 0 {
        String::from_str("application/octet-stream")
    } else {
        let lower = to_lowercase(ext);
        String::from_str(mime_for_extension(lower.as_str()))
    }
}

/// The most bytes of text that are kept of one file.
pub const MAX_TEXT_LEN: usize = 100_000;

/// What `String::from_utf8_lossy` of the standard library makes of bytes
/// that are not valid UTF-8: the text with U+FFFD in place of what cannot
/// be decoded.
pub uninterp spec fn lossy_text(data: Seq<u8>) -> Seq<char>;

/// The text read from bytes without failing: the text they encode where
/// they are valid UTF-8, and their lossy reading where they are not.
pub open spec fn lossy_reading(data: Seq<u8>) -> Seq<char> {
    if valid_utf8(data) {
        decode_utf8(data)
    } else {
        lossy_text(data)
    }
}

/// Calls `String::from_utf8_lossy`. Bytes that are valid UTF-8 come back as
/// the text they encode; of other bytes the result is their lossy reading.
#[verifier::external_body]
fn decode_lossy(data: &[u8]) -> (text: String)
    ensures
        valid_utf8(data@) ==> text@ == decode_utf8(data@),
        !valid_utf8(data@) ==> text@ == lossy_text(data@),
{
    String::from_utf8_lossy(data).into_owned()
}

/// Calls `std::str::from_utf8`, which accepts exactly the bytes that are
/// valid UTF-8 and reads them as the text they encode.
#[verifier::external_body]
fn decode_strict(data: &[u8]) -> (text: Option<&str>)
    ensures
        text is Some <==> valid_utf8(data@),
        text matches Some(t) ==> t@ == decode_utf8(data@),
{
    std::str::from_utf8(data).ok()
}

/// The MIME types whose content is text as it stands.
pub open spec fn is_text_mime(mime: Seq<char>) -> bool {
    ||| mime == "text/plain"@
    ||| mime == "text/markdown"@
    ||| mime == "text/csv"@
    ||| mime == "text/html"@
    ||| mime == "text/xml"@
    ||| mime == "application/json"@
    ||| mime == "application/xml"@
}

/// The MIME types of images, sound and video, which are described and not read.
pub open spec fn is_media_mime(mime: Seq<char>) -> bool {
    ||| has_prefix(mime, "image/"@)
    ||| has_prefix(mime, "audio/"@)
    ||| has_prefix(mime, "video/"@)
}

/// The greatest character boundary of `bytes` that is not behind `at`.
pub open spec fn floor_boundary(bytes: Seq<u8>, at: int) -> int
    decreases at,
{
    if at <= 0 {
        0
    } else if is_char_boundary(bytes, at) {
        at
    } else {
        floor_boundary(bytes, at - 1)
    }
}

/// A text cut to the cap: the text itself where its encoding has at most
/// `MAX_TEXT_LEN` bytes, else the characters that lie wholly within the
/// first `MAX_TEXT_LEN` bytes.
pub open spec fn capped(text: Seq<char>) -> Seq<char> {
    let bytes = encode_utf8(text);
    if bytes.len() <= MAX_TEXT_LEN {
        text
    } else {
        decode_utf8(bytes.take(floor_boundary(bytes, MAX_TEXT_LEN as int)))
    }
}

/// What is kept of a text: its capped form, or nothing where that is blank.
pub open spec fn normalized(text: Seq<char>) -> Option<Seq<char>> {
    if is_blank(capped(text)) {
        None
    } else {
        Some(capped(text))
    }
}

/// The note that stands for a PDF whose text could not be had.
pub open spec fn pdf_placeholder() -> Seq<char> {
    "[PDF document — enable pdf feature for text extraction]"@
}

/// The text kept for a PDF, given what an extractor made of it (`None`
/// where there is no extractor or it failed).
pub open spec fn pdf_text(extracted: Option<Seq<char>>) -> Option<Seq<char>> {
    match extracted {
        Some(t) => normalized(t),
        None => Some(pdf_placeholder()),
    }
}

/// The text derived from content of a given MIME type.
pub open spec fn extracted_text(data: Seq<u8>, mime: Seq<char>) -> Option<Seq<char>> {
    if is_text_mime(mime) {
        normalized(lossy_reading(data))
    } else if mime == "application/pdf"@ {
        pdf_text(None)
    } else if is_media_mime(mime) {
        None
    } else if valid_utf8(data) {
        normalized(decode_utf8(data))
    } else {
        None
    }
}

/// The text that content of a given MIME type is read as, before it is cut
/// and normalized: the lossy reading for a text type, the strict reading of
/// valid UTF-8 for a type that is neither text, PDF nor media, and none
/// otherwise.
pub open spec fn decoded_text(data: Seq<u8>, mime: Seq<char>) -> Option<Seq<char>> {
    if is_text_mime(mime) {
        Some(lossy_reading(data))
    } else if mime == "application/pdf"@ || is_media_mime(mime) {
        None
    } else if valid_utf8(data) {
        Some(decode_utf8(data))
    } else {
        None
    }
}

/// `floor_boundary` is a character boundary between 0 and `at`, and no
/// boundary lies between it and `at`.
pub proof fn lemma_floor_boundary(bytes: Seq<u8>, at: int)
    requires
        valid_utf8(bytes),
        0 <= at,
    ensures
        0 <= floor_boundary(bytes, at) <= at,
        is_char_boundary(bytes, floor_boundary(bytes, at)),
        forall|i: int| floor_boundary(bytes, at) < i <= at ==> !is_char_boundary(bytes, i),
    decreases at,
{
    if at > 0 && !is_char_boundary(bytes, at) {
        lemma_floor_boundary(bytes, at - 1);
    }
}

/// Behind a character boundary that is not the end comes the next one,
/// at most four bytes on.
proof fn lemma_next_boundary(bytes: Seq<u8>, at: int)
    requires
        valid_utf8(bytes),
        is_char_boundary(bytes, at),
        0 <= at < bytes.len(),
    ensures
        exists|next: int| at < next <= at + 4 && #[trigger] is_char_boundary(bytes, next),
    decreases bytes.len(),
{
    let width = length_of_first_scalar(bytes);
    let rest = pop_first_scalar(bytes);
    assert(valid_utf8(rest));
    assert(1 <= width <= 4 && width <= bytes.len());
    assert(rest.len() == bytes.len() - width);
    reveal_with_fuel(is_char_boundary, 2);
    if at == 0 {
        assert(is_char_boundary(rest, 0));
        assert(is_char_boundary(bytes, width));
    } else {
        assert(is_char_boundary(rest, at - width));
        lemma_next_boundary(rest, at - width);
        let n = choose|n: int|
            at - width < n <= at - width + 4 && #[trigger] is_char_boundary(rest, n);
        assert(is_char_boundary(bytes, n + width));
    }
}

/// The cut of a text longer than the cap keeps more than `MAX_TEXT_LEN - 4`
/// bytes and at most `MAX_TEXT_LEN`.
pub proof fn lemma_cut_is_near_cap(text: Seq<char>)
    requires
        encode_utf8(text).len() > MAX_TEXT_LEN,
    ensures
        MAX_TEXT_LEN - 4 < floor_boundary(encode_utf8(text), MAX_TEXT_LEN as int) <= MAX_TEXT_LEN,
{
    let bytes = encode_utf8(text);
    encode_utf8_valid_utf8(text);
    lemma_floor_boundary(bytes, MAX_TEXT_LEN as int);
    let cut = floor_boundary(bytes, MAX_TEXT_LEN as int);
    lemma_next_boundary(bytes, cut);
}

/// The capped text is the front of the text, and its encoding is the front
/// of the text's encoding, in at most `MAX_TEXT_LEN` bytes.
pub proof fn lemma_capped_is_front(text: Seq<char>)
    ensures
        capped(text).len() <= text.len(),
        capped(text) == text.take(capped(text).len() as int),
        encode_utf8(capped(text)).len() <= MAX_TEXT_LEN,
        encode_utf8(capped(text)) == encode_utf8(text).take(encode_utf8(capped(text)).len() as int),
{
    let bytes = encode_utf8(text);
    encode_utf8_valid_utf8(text);
    encode_utf8_decode_utf8(text);
    if bytes.len() > MAX_TEXT_LEN {
        lemma_floor_boundary(bytes, MAX_TEXT_LEN as int);
        let cut = floor_boundary(bytes, MAX_TEXT_LEN as int);
        valid_utf8_split(bytes, cut);
        decode_utf8_split(bytes, cut);
        let front = bytes.subrange(0, cut);
        let back = bytes.subrange(cut, bytes.len() as int);
        assert(bytes.take(cut) == front);
        decode_utf8_encode_utf8(front);
        assert(text == decode_utf8(front) + decode_utf8(back));
        assert(text.take(decode_utf8(front).len() as int) == decode_utf8(front));
    } else {
        assert(text.take(text.len() as int) == text);
        assert(bytes.take(bytes.len() as int) == bytes);
    }
}

/// Text of a supported text type that fits the cap and is not blank is
/// returned as it was decoded.
pub proof fn lemma_text_within_cap_is_verbatim(data: Seq<u8>, mime: Seq<char>)
    requires
        is_text_mime(mime),
        encode_utf8(lossy_reading(data)).len() <= MAX_TEXT_LEN,
        !is_blank(lossy_reading(data)),
    ensures
        extracted_text(data, mime) == Some(lossy_reading(data)),
{
}

/// Of text of a supported text type that is longer than the cap, exactly the
/// first `MAX_TEXT_LEN` bytes are returned, where a character ends there and
/// they are not all blank.
pub proof fn lemma_text_over_cap_is_cut(data: Seq<u8>, mime: Seq<char>)
    requires
        is_text_mime(mime),
        encode_utf8(lossy_reading(data)).len() > MAX_TEXT_LEN,
        is_char_boundary(encode_utf8(lossy_reading(data)), MAX_TEXT_LEN as int),
        !is_blank(capped(lossy_reading(data))),
    ensures
        extracted_text(data, mime) matches Some(kept) && encode_utf8(kept) == encode_utf8(
            lossy_reading(data),
        ).take(MAX_TEXT_LEN as int),
{
    let text = lossy_reading(data);
    let bytes = encode_utf8(text);
    encode_utf8_valid_utf8(text);
    valid_utf8_split(bytes, MAX_TEXT_LEN as int);
    assert(bytes.take(MAX_TEXT_LEN as int) == bytes.subrange(0, MAX_TEXT_LEN as int));
    decode_utf8_encode_utf8(bytes.take(MAX_TEXT_LEN as int));
}

/// Content whose decoded text is empty or blank yields no text.
pub proof fn lemma_blank_text_is_dropped(data: Seq<u8>, mime: Seq<char>)
    requires
        decoded_text(data, mime) matches Some(text) && is_blank(text),
    ensures
        extracted_text(data, mime) is None,
{
    lemma_capped_is_front(decoded_text(data, mime)->0);
}

/// A PDF of which an extractor read nothing but blanks yields no text.
pub proof fn lemma_blank_pdf_text_is_dropped(extracted: Seq<char>)
    requires
        is_blank(extracted),
    ensures
        pdf_text(Some(extracted)) is None,
{
    lemma_capped_is_front(extracted);
}

/// For every type but PDF the extracted text is the decoded text, cut and
/// normalized; for a PDF it is the note.
pub proof fn lemma_extracted_text_by_type(data: Seq<u8>, mime: Seq<char>)
    ensures
        mime == "application/pdf"@ ==> extracted_text(data, mime) == Some(pdf_placeholder()),
        mime != "application/pdf"@ ==> extracted_text(data, mime) == match decoded_text(
            data,
            mime,
        ) {
            Some(text) => normalized(text),
            None => None,
        },
{
    reveal_strlit("application/pdf");
    reveal_strlit("text/plain");
    reveal_strlit("text/markdown");
    reveal_strlit("text/csv");
    reveal_strlit("text/html");
    reveal_strlit("text/xml");
    reveal_strlit("application/json");
    reveal_strlit("application/xml");
    if mime == "application/pdf"@ {
        assert(mime.len() == 15);
        assert(mime[0] == 'a' && mime[12] == 'p');
        assert(!is_text_mime(mime));
    }
}

/// Extracted text is never empty and never blank.
pub proof fn lemma_extracted_text_is_not_blank(data: Seq<u8>, mime: Seq<char>)
    ensures
        extracted_text(data, mime) matches Some(kept) ==> kept.len() > 0 && !is_blank(kept),
{
    reveal_strlit("[PDF document — enable pdf feature for text extraction]");
    assert(!is_whitespace(pdf_placeholder()[0]));
}

/// Media content yields no text.
pub proof fn lemma_media_has_no_text(data: Seq<u8>, mime: Seq<char>)
    requires
        is_media_mime(mime),
    ensures
        extracted_text(data, mime) is None,
{
    reveal_strlit("image/");
    reveal_strlit("audio/");
    reveal_strlit("video/");
    reveal_strlit("application/pdf");
    reveal_strlit("text/plain");
    reveal_strlit("text/markdown");
    reveal_strlit("text/csv");
    reveal_strlit("text/html");
    reveal_strlit("text/xml");
    reveal_strlit("application/json");
    reveal_strlit("application/xml");
    let head = mime.subrange(0, 6);
    assert(head[0] == mime[0] && head[5] == mime[5]);
    assert(mime[5] == '/');
    assert("application/pdf"@[5] == 'c');
    assert("text/plain"@[0] == 't');
    assert("text/markdown"@[0] == 't');
    assert("text/csv"@[0] == 't');
    assert("text/html"@[0] == 't');
    assert("text/xml"@[0] == 't');
    assert("application/json"@[5] == 'c');
    assert("application/xml"@[5] == 'c');
}

/// Cuts a text to the cap and drops it where nothing but blanks is left.
pub fn truncate_text(text: String) -> (kept: Option<String>)
    ensures
        opt_chars(kept) == normalized(text@),
{
    let whole = text.as_str();
    let ghost bytes = encode_utf8(text@);
    proof {
        encode_utf8_valid_utf8(text@);
    }
    if whole.as_bytes().len() > MAX_TEXT_LEN {
        let mut k: usize = MAX_TEXT_LEN;
        while !whole.is_char_boundary(k)
            invariant
                0 <= k <= MAX_TEXT_LEN,
                bytes == whole.spec_bytes(),
                valid_utf8(bytes),
                floor_boundary(bytes, k as int) == floor_boundary(bytes, MAX_TEXT_LEN as int),
            decreases k,
        {
            k = k - 1;
        }
        let head = whole.split_at(k).0;
        proof {
            encode_utf8_decode_utf8(head@);
            assert(bytes.take(k as int) == bytes.subrange(0, k as int));
            assert(head@ == capped(text@));
        }
        if str_is_blank(head) {
            None
        } else {
            Some(head.to_owned())
        }
    } else {
        if str_is_blank(whole) {
            None
        } else {
            Some(text)
        }
    }
}

/// The text kept for a PDF, given what an extractor made of it: `None`
/// where no extractor is at hand or it failed.
pub fn extract_pdf(extracted: Option<String>) -> (kept: Option<String>)
    ensures
        opt_chars(kept) == pdf_text(opt_chars(extracted)),
{
    match extracted {
        Some(text) => truncate_text(text),
        None => Some(String::from_str("[PDF document — enable pdf feature for text extraction]")),
    }
}

/// Whether content of this MIME type is text as it stands.
pub fn is_text_type(mime_type: &str) -> (yes: bool)
    ensures
        yes == is_text_mime(mime_type@),
{
    str_eq(mime_type, "text/plain") || str_eq(mime_type, "text/markdown") || str_eq(
        mime_type,
        "text/csv",
    ) || str_eq(mime_type, "text/html") || str_eq(mime_type, "text/xml") || str_eq(
        mime_type,
        "application/json",
    ) || str_eq(mime_type, "application/xml")
}

/// Whether this MIME type is one of images, sound or video.
pub fn is_media_type(mime_type: &str) -> (yes: bool)
    ensures
        yes == is_media_mime(mime_type@),
{
    starts_with(mime_type, "image/") || starts_with(mime_type, "audio/") || starts_with(
        mime_type,
        "video/",
    )
}

/// Extract text content from a file based on its MIME type. Returns `None`
/// for media, for content that is no text, and for text that is blank.
pub fn extract_text(data: &[u8], mime_type: &str, _filename: &str) -> (text: Option<String>)
    ensures
        opt_chars(text) == extracted_text(data@, mime_type@),
{
    if is_text_type(mime_type) {
        truncate_text(decode_lossy(data))
    } else if str_eq(mime_type, "application/pdf") {
        extract_pdf(None)
    } else if is_media_type(mime_type) {
        None
    } else {
        match decode_strict(data) {
            Some(t) => truncate_text(t.to_owned()),
            None => None,
        }
    }
}

} // verus!
