//! File ingestion and indexing: MIME classification, content derivation,
//! storage layout and the searchable index of file records.

pub mod clock;
pub mod describe;
pub mod extract;
pub mod ids;
pub mod index;
pub mod schema;
pub mod service;
pub mod sql;
pub mod storage;
pub mod text;

pub use index::FileIndex;
pub use schema::{FileListResponse, FileMetadata, FileRecord, FileSearchResult};
pub use service::FtmsService;
pub use storage::FileStorage;
