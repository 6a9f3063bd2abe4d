//! Settings handed to the store when it is opened, written or read.
use vstd::prelude::*;

verus! {

/// Block compression of the store's files.
#[derive(Clone, Copy, PartialEq, Eq, Structural, Debug)]
pub enum Compression {
    No,
    Snappy,
}

/// Options to consider when opening a new or pre-existing store.
#[derive(Clone, Copy, Debug)]
pub struct Options {
    /// Create the store if it is missing.
    pub create_if_missing: bool,
    /// Report an error if the store already exists instead of opening it.
    pub error_if_exists: bool,
    /// Report an error as soon as corruption is detected.
    pub paranoid_checks: bool,
    /// Overrides the size of the write buffer.
    pub write_buffer_size: Option<usize>,
    /// Overrides the maximum number of open files.
    pub max_open_files: Option<i32>,
    /// Overrides the size of the blocks used for writing and caching.
    pub block_size: Option<usize>,
    /// Overrides the interval between restart points.
    pub block_restart_interval: Option<i32>,
    /// Whether blocks are written compressed.
    pub compression: Compression,
}

impl Options {
    /// Default settings: nothing created or checked, no overrides, no
    /// compression.
    pub fn new() -> (r: Options)
        ensures
            !r.create_if_missing,
            !r.error_if_exists,
            !r.paranoid_checks,
            r.write_buffer_size is None,
            r.max_open_files is None,
            r.block_size is None,
            r.block_restart_interval is None,
            r.compression == Compression::No,
    {
        Options {
            create_if_missing: false,
            error_if_exists: false,
            paranoid_checks: false,
            write_buffer_size: None,
            max_open_files: None,
            block_size: None,
            block_restart_interval: None,
            compression: Compression::No,
        }
    }
}

impl Default for Options {
    fn default() -> (r: Options)
        ensures
            !r.create_if_missing,
            !r.error_if_exists,
            !r.paranoid_checks,
            r.write_buffer_size is None,
            r.max_open_files is None,
            r.block_size is None,
            r.block_restart_interval is None,
            r.compression == Compression::No,
    {
        Options::new()
    }
}

/// The options of a write operation.
#[derive(Clone, Copy, Debug)]
pub struct WriteOptions {
    /// `fsync` before acknowledging the write.
    pub sync: bool,
}

impl WriteOptions {
    /// Default settings: no `fsync`.
    pub fn new() -> (r: WriteOptions)
        ensures
            !r.sync,
    {
        WriteOptions { sync: false }
    }
}

impl Default for WriteOptions {
    fn default() -> (r: WriteOptions)
        ensures
            !r.sync,
    {
        WriteOptions::new()
    }
}

/// The options of a read operation.
#[derive(Clone, Copy, Debug)]
pub struct ReadOptions {
    /// Verify the saved checksums on read.
    pub verify_checksums: bool,
    /// Fill the internal cache with what is read.
    pub fill_cache: bool,
}

impl ReadOptions {
    /// Default settings: no checksum verification, cache filled.
    pub fn new() -> (r: ReadOptions)
        ensures
            !r.verify_checksums,
            r.fill_cache,
    {
        ReadOptions { verify_checksums: false, fill_cache: true }
    }
}

impl Default for ReadOptions {
    fn default() -> (r: ReadOptions)
        ensures
            !r.verify_checksums,
            r.fill_cache,
    {
        ReadOptions::new()
    }
}

} // verus!
