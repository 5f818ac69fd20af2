//! The contents of a file, held in memory with the path they came from.
use super::{read_from_bytes, DataSource, DataSourceError, ReadModel, SourceBytes};
use vstd::prelude::*;

verus! {

/// A [`DataSource`] holding the bytes of a file on disk, in its on-disk
/// layout, together with the file's path.
///
/// Reading the file is left to the caller; the source answers every read
/// from the bytes it was given.
#[derive(Debug)]
pub struct FileDataSource {
    path: String,
    data: Vec<u8>,
}

impl FileDataSource {
    /// A source holding `data`, read from the file at `path`.
    pub fn from_contents(path: String, data: Vec<u8>) -> (r: Self)
        ensures
            r.content() == (SourceBytes { bytes: data@, file_reads: true }),
            r.location() == path@,
    {
        FileDataSource { path, data }
    }
}

impl DataSource for FileDataSource {
    open spec fn read_model(&self) -> ReadModel {
        ReadModel::Exact
    }

    /// A read that runs past the end of the file fails as a file's read
    /// does.
    closed spec fn content(&self) -> SourceBytes {
        SourceBytes { bytes: self.data@, file_reads: true }
    }

    open spec fn known_len(&self) -> Option<u64> {
        Some(self.content().bytes.len() as u64)
    }

    /// A file holds the image in its on-disk layout.
    open spec fn file_aligned(&self) -> bool {
        true
    }

    open spec fn base_address(&self) -> u64 {
        0
    }

    closed spec fn location(&self) -> Seq<char> {
        self.path@
    }

    fn len(&self) -> (r: Option<u64>) {
        let r = Some(self.data.len() as u64);
        assert(self.known_len() == r);
        r
    }

    fn read_exact(&self, offset: u64, buf: &mut [u8]) -> (r: Result<(), DataSourceError>) {
        read_from_bytes(self.data.as_slice(), true, offset, buf)
    }

    fn is_file_aligned(&self) -> (r: bool) {
        true
    }

    fn image_base(&self) -> (r: u64) {
        0
    }

    fn url(&self) -> (r: String) {
        self.path.clone()
    }
}

} // verus!
