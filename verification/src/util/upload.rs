//! Upload interface for mod files.
use vstd::prelude::*;

pub mod byte_ranges;
pub mod error;

pub use byte_ranges::{byte_ranges, ByteRanges, IntoIter};
pub use error::{Error, ErrorKind};

verus! {

/// Required size (50MB) of upload parts except the last part.
pub const MULTIPART_FILE_PART_SIZE: u64 = 50 * 1024 * 1024;

} // verus!
