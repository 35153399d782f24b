//! The ingest of one upload: classify it, derive its text and description,
//! assemble its record and put the record into the index.

use crate::clock::{is_timestamp_text, now_rfc3339};
use crate::describe::{describe_media, media_description};
use crate::extract::{
    extract_pdf, extract_text, extracted_text, guess_mime_type, is_media_mime,
    lemma_extracted_text_by_type, lemma_media_has_no_text, mime_type_of, pdf_text,
};
use crate::ids::{fresh_id, is_uuid_text};
use crate::index::{FileIndex, IndexError, IndexStep};
use crate::schema::{FileMetadata, FileMetadataView, FileRecord, FileRecordView};
use crate::storage::FileStorage;
use crate::text::{opt_chars, str_eq};
use vstd::prelude::*;

verus! {

/// The text of an upload. For a PDF it is made of what the caller's
/// extractor read from it (`None` where the caller has no extractor or it
/// failed); for any other type it is extracted from the content.
pub open spec fn text_of_upload(
    data: Seq<u8>,
    mime: Seq<char>,
    pdf: Option<Seq<char>>,
) -> Option<Seq<char>> {
    if mime == "application/pdf"@ {
        pdf_text(pdf)
    } else {
        extracted_text(data, mime)
    }
}

/// Without an extractor the text of an upload is what `extract_text` gives.
pub proof fn lemma_text_without_extractor(data: Seq<u8>, mime: Seq<char>)
    ensures
        text_of_upload(data, mime, None) == extracted_text(data, mime),
{
    lemma_extracted_text_by_type(data, mime);
}

/// An upload gets text or a description, never both.
pub proof fn lemma_text_or_description(
    data: Seq<u8>,
    mime: Seq<char>,
    filename: Seq<char>,
    pdf: Option<Seq<char>>,
)
    ensures
        text_of_upload(data, mime, pdf) is None || media_description(data, mime, filename) is None,
{
    if media_description(data, mime, filename) is Some {
        assert(is_media_mime(mime));
        lemma_media_has_no_text(data, mime);
        lemma_extracted_text_by_type(data, mime);
    }
}

/// The record of an upload: what the caller gave, what was derived from
/// name and content, and the identifier, place and time it was given.
pub open spec fn record_of_upload(
    id: Seq<char>,
    filename: Seq<char>,
    data: Seq<u8>,
    metadata: FileMetadataView,
    stored_path: Seq<char>,
    uploaded_at: Seq<char>,
    pdf: Option<Seq<char>>,
) -> FileRecordView {
    FileRecordView {
        id,
        filename,
        mime_type: mime_type_of(filename),
        file_path: stored_path,
        file_size: data.len() as u64,
        extracted_text: text_of_upload(data, mime_type_of(filename), pdf),
        ai_description: media_description(data, mime_type_of(filename), filename),
        session_id: metadata.session_id,
        channel: metadata.channel,
        uploaded_at,
        tags: metadata.tags,
    }
}

/// Assembles the record of an upload from its name, its content, the
/// caller's tags, the identifier, stored path and time given to it, and
/// what the caller's extractor read from it if it is a PDF.
pub fn assemble_record(
    id: String,
    filename: &str,
    data: &[u8],
    metadata: FileMetadata,
    stored_path: String,
    uploaded_at: String,
    pdf: Option<String>,
) -> (record: FileRecord)
    ensures
        record@ == record_of_upload(
            id@,
            filename@,
            data@,
            metadata@,
            stored_path@,
            uploaded_at@,
            opt_chars(pdf),
        ),
{
    let mime_type = guess_mime_type(filename);
    let extracted_text = if str_eq(mime_type.as_str(), "application/pdf") {
        extract_pdf(pdf)
    } else {
        extract_text(data, mime_type.as_str(), filename)
    };
    let ai_description = describe_media(data, mime_type.as_str(), filename);
    FileRecord {
        id,
        filename: filename.to_owned(),
        mime_type,
        file_path: stored_path,
        file_size: data.len() as u64,
        extracted_text,
        ai_description,
        session_id: metadata.session_id,
        channel: metadata.channel,
        uploaded_at,
        tags: metadata.tags,
    }
}

/// Whether the text of a file of this name is to come from the caller's
/// PDF extractor: whether the name is classified as a PDF.
pub fn wants_pdf_text(filename: &str) -> (yes: bool)
    ensures
        yes == (mime_type_of(filename@) == "application/pdf"@),
{
    let mime_type = guess_mime_type(filename);
    str_eq(mime_type.as_str(), "application/pdf")
}

/// Makes the record of an upload whose bytes are stored under
/// `stored_path`: gives it a fresh identifier and the current time, and
/// derives type, text and description. `pdf` is what the caller's extractor
/// read from the content if it is a PDF, and `None` where the caller has no
/// extractor or it failed.
pub fn prepare_upload(
    filename: &str,
    data: &[u8],
    metadata: FileMetadata,
    stored_path: String,
    pdf: Option<String>,
) -> (record: FileRecord)
    ensures
        is_uuid_text(record.id@),
        is_timestamp_text(record.uploaded_at@),
        record@ == record_of_upload(
            record.id@,
            filename@,
            data@,
            metadata@,
            stored_path@,
            record.uploaded_at@,
            opt_chars(pdf),
        ),
{
    assemble_record(fresh_id(), filename, data, metadata, stored_path, now_rfc3339(), pdf)
}

/// The service that coordinates storage, extraction and indexing.
pub struct FtmsService {
    pub storage: FileStorage,
    pub index: FileIndex,
}

impl FtmsService {
    /// A service that stores below `storage_dir` and keeps its index in the
    /// database file at `db_path`.
    pub fn new(storage_dir: &str, db_path: &str) -> (service: Result<FtmsService, IndexError>)
        ensures
            service matches Err(e) ==> e.step == IndexStep::Open || e.step == IndexStep::Configure
                || e.step == IndexStep::Schema,
    {
        let storage = FileStorage::new(storage_dir);
        match FileIndex::new(db_path) {
            Ok(index) => Ok(FtmsService { storage, index }),
            Err(e) => Err(e),
        }
    }

    /// Takes an upload into the index, once its bytes are stored under
    /// `stored_path`: gives it a fresh identifier and the current time,
    /// derives type, text and description, and inserts the record. `pdf` is
    /// what the caller's extractor read from the content if it is a PDF,
    /// and `None` where the caller has no extractor or it failed. The
    /// stored bytes are left in place where the insert fails.
    pub fn upload(
        &self,
        filename: &str,
        data: &[u8],
        metadata: FileMetadata,
        stored_path: String,
        pdf: Option<String>,
    ) -> (uploaded: Result<FileRecord, IndexError>)
        ensures
            match uploaded {
                Ok(record) => {
                    &&& is_uuid_text(record.id@)
                    &&& is_timestamp_text(record.uploaded_at@)
                    &&& record@ == record_of_upload(
                        record.id@,
                        filename@,
                        data@,
                        metadata@,
                        stored_path@,
                        record.uploaded_at@,
                        opt_chars(pdf),
                    )
                },
                Err(e) => e.step == IndexStep::Insert,
            },
    {
        let record = prepare_upload(filename, data, metadata, stored_path, pdf);
        match self.index.insert(&record) {
            Ok(()) => Ok(record),
            Err(e) => Err(e),
        }
    }
}

} // verus!
