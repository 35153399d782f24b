//! The records kept by the index and the values exchanged with callers.

use crate::text::opt_chars;
use vstd::prelude::*;

verus! {

/// A stored file with its metadata and the content derived from it.
#[derive(Debug, Clone, PartialEq, Eq)]
pub struct FileRecord {
    /// Unique identifier, assigned at ingest.
    pub id: String,
    /// The name the client gave.
    pub filename: String,
    /// The content type.
    pub mime_type: String,
    /// Where the bytes are, relative to the storage directory.
    pub file_path: String,
    /// Length of the content in bytes.
    pub file_size: u64,
    /// Plain text derived from the content, if any.
    pub extracted_text: Option<String>,
    /// Description of media content, if any.
    pub ai_description: Option<String>,
    /// Session the upload belongs to.
    pub session_id: Option<String>,
    /// Channel the upload came through.
    pub channel: Option<String>,
    /// Time of ingest.
    pub uploaded_at: String,
    /// Free-text labels.
    pub tags: Option<String>,
}

/// What a [`FileRecord`] holds, as mathematical values.
pub struct FileRecordView {
    pub id: Seq<char>,
    pub filename: Seq<char>,
    pub mime_type: Seq<char>,
    pub file_path: Seq<char>,
    pub file_size: u64,
    pub extracted_text: Option<Seq<char>>,
    pub ai_description: Option<Seq<char>>,
    pub session_id: Option<Seq<char>>,
    pub channel: Option<Seq<char>>,
    pub uploaded_at: Seq<char>,
    pub tags: Option<Seq<char>>,
}

impl View for FileRecord {
    type V = FileRecordView;

    open spec fn view(&self) -> FileRecordView {
        FileRecordView {
            id: self.id@,
            filename: self.filename@,
            mime_type: self.mime_type@,
            file_path: self.file_path@,
            file_size: self.file_size,
            extracted_text: opt_chars(self.extracted_text),
            ai_description: opt_chars(self.ai_description),
            session_id: opt_chars(self.session_id),
            channel: opt_chars(self.channel),
            uploaded_at: self.uploaded_at@,
            tags: opt_chars(self.tags),
        }
    }
}

/// The tags a caller sends along with an upload.
#[derive(Debug, Clone, PartialEq, Eq)]
pub struct FileMetadata {
    pub session_id: Option<String>,
    pub channel: Option<String>,
    pub tags: Option<String>,
}

/// What a [`FileMetadata`] holds, as mathematical values.
pub struct FileMetadataView {
    pub session_id: Option<Seq<char>>,
    pub channel: Option<Seq<char>>,
    pub tags: Option<Seq<char>>,
}

impl View for FileMetadata {
    type V = FileMetadataView;

    open spec fn view(&self) -> FileMetadataView {
        FileMetadataView {
            session_id: opt_chars(self.session_id),
            channel: opt_chars(self.channel),
            tags: opt_chars(self.tags),
        }
    }
}

/// A record found by a search, with the score the engine gave it.
#[derive(Debug, Clone, PartialEq, Eq)]
pub struct FileSearchResult {
    pub file: FileRecord,
    /// The relevance score as the bit pattern of an IEEE 754 double.
    pub rank_bits: u64,
}

/// What a [`FileSearchResult`] holds, as mathematical values.
pub struct FileSearchResultView {
    pub file: FileRecordView,
    pub rank_bits: u64,
}

impl View for FileSearchResult {
    type V = FileSearchResultView;

    open spec fn view(&self) -> FileSearchResultView {
        FileSearchResultView { file: self.file@, rank_bits: self.rank_bits }
    }
}

/// One page of a listing.
#[derive(Debug, Clone, PartialEq, Eq)]
pub struct FileListResponse {
    /// The records of this page.
    pub files: Vec<FileRecord>,
    /// How many records match the filter, on all pages together.
    pub total: usize,
    pub offset: usize,
    pub limit: usize,
}

} // verus!
