//! Types of mod files.
use vstd::prelude::*;

use crate::types::id::{FileId, ModId};
use crate::types::TargetPlatform;
use crate::types::utils::FieldTracker;

verus! {

/// See the [Modfile Object](https://docs.mod.io/#modfile-object) docs for more information.
#[derive(Debug)]
pub struct File {
    pub id: FileId,
    pub mod_id: ModId,
    pub date_added: u64,
    pub virus_scan: VirusScan,
    pub filesize: u64,
    pub filesize_uncompressed: u64,
    pub filehash: FileHash,
    pub filename: String,
    pub version: Option<String>,
    pub changelog: Option<String>,
    pub metadata_blob: Option<String>,
    pub download: Download,
    pub platforms: Vec<Platform>,
}

/// See the [Download Object](https://docs.mod.io/#download-object) docs for more information.
///
/// The URL is kept as text, in the form a URL parser writes it.
#[derive(Debug)]
pub struct Download {
    pub binary_url: String,
    pub date_expires: u64,
}

/// See the [Modfile Object](https://docs.mod.io/#modfile-object) docs for more information.
#[derive(Debug)]
pub struct VirusScan {
    pub date_scanned: u64,
    pub status: VirusStatus,
    pub result: VirusResult,
}

/// See the [Modfile Object](https://docs.mod.io/#modfile-object) docs for more information.
#[derive(Clone, Copy, Debug, PartialEq, Eq, Structural)]
pub struct VirusStatus(u8);

impl View for VirusStatus {
    type V = u8;

    closed spec fn view(&self) -> u8 {
        self.0
    }
}

#[allow(non_snake_case)]
impl VirusStatus {
    pub fn NOT_SCANNED() -> (r: Self)
        ensures
            r@ == 0,
    {
        VirusStatus(0)
    }

    pub fn SCAN_COMPLETED() -> (r: Self)
        ensures
            r@ == 1,
    {
        VirusStatus(1)
    }

    pub fn IN_PROGRESS() -> (r: Self)
        ensures
            r@ == 2,
    {
        VirusStatus(2)
    }

    pub fn TOO_LARGE_TO_SCAN() -> (r: Self)
        ensures
            r@ == 3,
    {
        VirusStatus(3)
    }

    pub fn FILE_NOT_FOUND() -> (r: Self)
        ensures
            r@ == 4,
    {
        VirusStatus(4)
    }

    pub fn ERROR_SCANNING() -> (r: Self)
        ensures
            r@ == 5,
    {
        VirusStatus(5)
    }

    /// Create a new value from a raw value.
    pub fn new(raw_value: u8) -> (r: Self)
        ensures
            r@ == raw_value,
    {
        VirusStatus(raw_value)
    }

    /// Retrieve the raw value.
    pub fn get(self) -> (r: u8)
        ensures
            r == self@,
    {
        self.0
    }
}

/// See the [Modfile Object](https://docs.mod.io/#modfile-object) docs for more information.
#[derive(Clone, Copy, Debug, PartialEq, Eq, Structural)]
pub struct VirusResult(u8);

impl View for VirusResult {
    type V = u8;

    closed spec fn view(&self) -> u8 {
        self.0
    }
}

#[allow(non_snake_case)]
impl VirusResult {
    pub fn NO_THREATS_DETECTED() -> (r: Self)
        ensures
            r@ == 0,
    {
        VirusResult(0)
    }

    pub fn MALICIOUS() -> (r: Self)
        ensures
            r@ == 1,
    {
        VirusResult(1)
    }

    pub fn POTENTIALLY_HARMFUL() -> (r: Self)
        ensures
            r@ == 2,
    {
        VirusResult(2)
    }

    /// Create a new value from a raw value.
    pub fn new(raw_value: u8) -> (r: Self)
        ensures
            r@ == raw_value,
    {
        VirusResult(raw_value)
    }

    /// Retrieve the raw value.
    pub fn get(self) -> (r: u8)
        ensures
            r == self@,
    {
        self.0
    }
}

/// See the [Filehash Object](https://docs.mod.io/#filehash-object) docs for more information.
#[derive(Debug)]
pub struct FileHash {
    pub md5: String,
}

/// See the [Modfile Platform Object](https://docs.mod.io/#modfile-platform-object) docs for more
/// information.
#[derive(Debug)]
pub struct Platform {
    pub target: TargetPlatform,
    pub status: PlatformStatus,
}

/// See the [Modfile Platform Object](https://docs.mod.io/#modfile-platform-object) docs for
/// more information.
#[derive(Clone, Copy, Debug, PartialEq, Eq, Structural)]
pub struct PlatformStatus(u8);

impl View for PlatformStatus {
    type V = u8;

    closed spec fn view(&self) -> u8 {
        self.0
    }
}

#[allow(non_snake_case)]
impl PlatformStatus {
    pub fn PENDING() -> (r: Self)
        ensures
            r@ == 0,
    {
        PlatformStatus(0)
    }

    pub fn APPROVED() -> (r: Self)
        ensures
            r@ == 1,
    {
        PlatformStatus(1)
    }

    pub fn DENIED() -> (r: Self)
        ensures
            r@ == 2,
    {
        PlatformStatus(2)
    }

    /// Create a new value from a raw value.
    pub fn new(raw_value: u8) -> (r: Self)
        ensures
            r@ == raw_value,
    {
        PlatformStatus(raw_value)
    }

    /// Retrieve the raw value.
    pub fn get(self) -> (r: u8)
        ensures
            r == self@,
    {
        self.0
    }
}

/// The fields of a modfile object, in the order in which a missing one is
/// reported.
pub fn file_fields() -> (r: FieldTracker)
    ensures
        r@.0 == seq!["id"@, "mod_id"@, "date_added"@, "date_scanned"@, "virus_status"@, "virus_positive"@, "filesize"@, "filesize_uncompressed"@, "filehash"@, "filename"@, "version"@, "changelog"@, "metadata_blob"@, "download"@, "platforms"@],
        r@.1 == Seq::new(15, |i: int| false),
{
    let names: Vec<&'static str> = vec!["id", "mod_id", "date_added", "date_scanned", "virus_status", "virus_positive", "filesize", "filesize_uncompressed", "filehash", "filename", "version", "changelog", "metadata_blob", "download", "platforms"];
    let r = FieldTracker::new(names);
    assert(r@.0 =~= seq!["id"@, "mod_id"@, "date_added"@, "date_scanned"@, "virus_status"@, "virus_positive"@, "filesize"@, "filesize_uncompressed"@, "filehash"@, "filename"@, "version"@, "changelog"@, "metadata_blob"@, "download"@, "platforms"@]);
    r
}

} // verus!
