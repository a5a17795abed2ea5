//! Storage boundary: error taxonomy for persistence, the repository contract
//! that persisters implement, and filename generation.

use vstd::prelude::*;

use crate::cli::OutputFormat;
use crate::crawl_model::CrawlResponse;
use crate::naming::{filename_for, spec_filename};
use crate::scrape_model::ScrapeResponse;

verus! {

/// Domain-specific errors for storage operations.
#[derive(Debug)]
pub enum StorageError {
    FileSystem(String),
    Serialization(String),
    InvalidPath(String),
    PermissionDenied(String),
    DirectoryNotFound(String),
    FileExists(String),
    FileNotFound(String),
    UnsupportedContentType(String),
}

/// Result type for storage operations.
pub type StorageResult<T> = Result<T, StorageError>;

impl Clone for StorageError {
    fn clone(&self) -> (r: Self)
        ensures
            r == *self,
    {
        match self {
            StorageError::FileSystem(s) => StorageError::FileSystem(s.clone()),
            StorageError::Serialization(s) => StorageError::Serialization(s.clone()),
            StorageError::InvalidPath(s) => StorageError::InvalidPath(s.clone()),
            StorageError::PermissionDenied(s) => StorageError::PermissionDenied(s.clone()),
            StorageError::DirectoryNotFound(s) => StorageError::DirectoryNotFound(s.clone()),
            StorageError::FileExists(s) => StorageError::FileExists(s.clone()),
            StorageError::FileNotFound(s) => StorageError::FileNotFound(s.clone()),
            StorageError::UnsupportedContentType(s) => StorageError::UnsupportedContentType(
                s.clone(),
            ),
        }
    }
}

impl StorageError {
    /// The humanized message of this error.
    pub open spec fn spec_message(self) -> Seq<char> {
        match self {
            StorageError::FileSystem(s) => "File system error: "@ + s@,
            StorageError::Serialization(s) => "Serialization error: "@ + s@,
            StorageError::InvalidPath(s) => "Invalid path: "@ + s@,
            StorageError::PermissionDenied(s) => "Permission denied: "@ + s@,
            StorageError::DirectoryNotFound(s) => "Directory not found: "@ + s@,
            StorageError::FileExists(s) => "File already exists: "@ + s@,
            StorageError::FileNotFound(s) => "File not found: "@ + s@,
            StorageError::UnsupportedContentType(s) => "Content type not supported: "@ + s@,
        }
    }

    /// Renders the humanized message.
    pub fn message(&self) -> (r: String)
        ensures
            r@ == self.spec_message(),
    {
        match self {
            StorageError::FileSystem(s) => String::from_str("File system error: ").concat(
                s.as_str(),
            ),
            StorageError::Serialization(s) => String::from_str("Serialization error: ").concat(
                s.as_str(),
            ),
            StorageError::InvalidPath(s) => String::from_str("Invalid path: ").concat(s.as_str()),
            StorageError::PermissionDenied(s) => String::from_str("Permission denied: ").concat(
                s.as_str(),
            ),
            StorageError::DirectoryNotFound(s) => String::from_str("Directory not found: ")
                .concat(s.as_str()),
            StorageError::FileExists(s) => String::from_str("File already exists: ").concat(
                s.as_str(),
            ),
            StorageError::FileNotFound(s) => String::from_str("File not found: ").concat(
                s.as_str(),
            ),
            StorageError::UnsupportedContentType(s) => String::from_str(
                "Content type not supported: ",
            ).concat(s.as_str()),
        }
    }
}

/// Contract of a content persister. The library calls it after a task's
/// execution succeeds; implementations write the content somewhere and hand
/// back the paths of what they wrote.
pub trait ContentRepository {
    /// Persists one scrape result; returns the path of the written file.
    fn save_scrape_result(
        &mut self,
        result: &ScrapeResponse,
        url: &str,
        format: OutputFormat,
        output_dir: &str,
    ) -> Result<String, StorageError>;

    /// Persists the pages of a crawl; returns the paths of the written files.
    fn save_crawl_results(
        &mut self,
        results: &Vec<CrawlResponse>,
        url: &str,
        format: OutputFormat,
        output_dir: &str,
    ) -> Result<Vec<String>, StorageError>;
}

/// Filename and path bookkeeping for a directory-rooted repository. The
/// actual file writing is left to the surrounding program; this type holds
/// the verified naming rules.
pub struct FileSystemRepository {
    base_dir: String,
}

impl FileSystemRepository {
    /// The base directory, as a character sequence.
    pub closed spec fn spec_base_dir(self) -> Seq<char> {
        self.base_dir@
    }

    /// Creates a repository rooted at the given base directory.
    pub fn new(base_dir: String) -> (r: Self)
        ensures
            r.spec_base_dir() == base_dir@,
    {
        FileSystemRepository { base_dir }
    }

    /// The base directory this repository was created with.
    pub fn base_dir(&self) -> (r: &String)
        ensures
            r@ == self.spec_base_dir(),
    {
        &self.base_dir
    }

    /// Generates the filename for a URL and format: the URL's slug plus the
    /// format's file extension.
    pub fn generate_filename(&self, url: &str, format: OutputFormat) -> (r: String)
        ensures
            r@ == spec_filename(url@, None, format.spec_file_extension()),
    {
        filename_for(url, None, format)
    }
}

} // verus!
