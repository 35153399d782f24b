use ftms::extract::{file_extension, guess_mime_type, mime_for_extension};

#[test]
fn text_file_is_plain_text() {
    assert_eq!(guess_mime_type("notes.txt"), "text/plain");
}

#[test]
fn png_is_an_image() {
    assert_eq!(guess_mime_type("pic.png"), "image/png");
}

#[test]
fn extension_is_lower_cased() {
    assert_eq!(guess_mime_type("REPORT.PDF"), "application/pdf");
    assert_eq!(guess_mime_type("Photo.JpEg"), "image/jpeg");
}

#[test]
fn unknown_extension_is_octet_stream() {
    assert_eq!(guess_mime_type("archive.xyz"), "application/octet-stream");
    assert_eq!(mime_for_extension("xyz"), "application/octet-stream");
}

#[test]
fn name_without_extension_is_octet_stream() {
    assert_eq!(guess_mime_type("README"), "application/octet-stream");
    assert_eq!(guess_mime_type("txt"), "application/octet-stream");
    assert_eq!(guess_mime_type("trailing."), "application/octet-stream");
    assert_eq!(guess_mime_type(""), "application/octet-stream");
}

#[test]
fn extension_follows_the_final_dot() {
    assert_eq!(file_extension("archive.tar.gz"), "gz");
    assert_eq!(file_extension("a.b.c.d"), "d");
    assert_eq!(file_extension("nodot"), "");
    assert_eq!(file_extension(".hidden"), "hidden");
    assert_eq!(file_extension("é.ü"), "ü");
    assert_eq!(guess_mime_type("archive.tar.gz"), "application/gzip");
}

#[test]
fn the_same_name_always_gets_the_same_type() {
    for name in ["notes.txt", "pic.png", "a.b.c", "none", "ÄÖ.MD", "x.Markdown"] {
        let first = guess_mime_type(name);
        for _ in 0..3 {
            assert_eq!(guess_mime_type(name), first);
        }
        assert_eq!(guess_mime_type(&name.to_string()), first);
    }
}

#[test]
fn every_known_extension_has_its_type() {
    let table = [
        ("txt", "text/plain"),
        ("md", "text/markdown"),
        ("markdown", "text/markdown"),
        ("csv", "text/csv"),
        ("json", "application/json"),
        ("xml", "application/xml"),
        ("html", "text/html"),
        ("htm", "text/html"),
        ("pdf", "application/pdf"),
        ("png", "image/png"),
        ("jpg", "image/jpeg"),
        ("jpeg", "image/jpeg"),
        ("gif", "image/gif"),
        ("webp", "image/webp"),
        ("bmp", "image/bmp"),
        ("svg", "image/svg+xml"),
        ("mp3", "audio/mpeg"),
        ("wav", "audio/wav"),
        ("ogg", "audio/ogg"),
        ("mp4", "video/mp4"),
        ("webm", "video/webm"),
        ("mov", "video/quicktime"),
        ("zip", "application/zip"),
        ("tar", "application/x-tar"),
        ("gz", "application/gzip"),
    ];
    for (ext, mime) in table {
        assert_eq!(mime_for_extension(ext), mime);
        assert_eq!(guess_mime_type(&format!("file.{}", ext)), mime);
        assert_eq!(guess_mime_type(&format!("FILE.{}", ext.to_uppercase())), mime);
    }
    assert_eq!(mime_for_extension("TXT"), "application/octet-stream");
    assert_eq!(mime_for_extension(""), "application/octet-stream");
}

#[test]
fn lower_casing_follows_unicode() {
    // U+212A, the Kelvin sign, has the lower-case form `k`.
    assert_eq!(guess_mime_type("notes.mar\u{212a}down"), "text/markdown");
}
