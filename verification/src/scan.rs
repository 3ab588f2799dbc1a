//! What a file scan reads and what it records, for both kinds of scanner.

use crate::digest::digest_text;
use crate::error::IOError;
use crate::reporter::PostRequest;
use crate::stamp::{is_random_uuid_text, is_utc_stamp};
use vstd::prelude::*;

verus! {

/// The confidence, in hundredths, of a scan that found a threat.
pub const CONFIDENCE_DETECTED: u8 = 85;

/// The confidence, in hundredths, of a scan that found none.
pub const CONFIDENCE_CLEAN: u8 = 0;

/// The name under which a flagged file is recorded and reported.
pub open spec fn flagged_name() -> Seq<char> {
    "Suspicious.File"@
}

/// The kind under which a flagged file is recorded and reported.
pub open spec fn flagged_kind() -> Seq<char> {
    "malware"@
}

/// One entry of a directory listing.
#[derive(Debug, Clone)]
pub struct Listed {
    /// The entry's path, where it is valid Unicode.
    pub path: Option<String>,
    /// Whether the entry's metadata could be read and says it is a regular
    /// file.
    pub is_file: bool,
}

/// What was read of one file.
#[derive(Debug, Clone)]
pub struct FileData {
    /// The size that the file's metadata gives, in bytes.
    pub size: u64,
    /// The file's bytes.
    pub contents: Vec<u8>,
}

/// One attempt to read a file that was chosen for scanning.
#[derive(Debug)]
pub struct FileRead {
    pub path: String,
    pub outcome: Result<FileData, IOError>,
}

/// The record of one scan of one file. A file that is scanned again gets a new
/// record; none is ever changed.
#[derive(Debug, Clone)]
pub struct ScanResult {
    pub scan_id: String,
    pub device_id: String,
    pub file_path: String,
    pub file_hash: String,
    pub file_size: u64,
    pub threat_detected: bool,
    pub threat_name: Option<String>,
    pub threat_type: Option<String>,
    /// The confidence of the verdict in hundredths: 85 stands for 0.85.
    pub confidence_percent: u8,
    pub timestamp: String,
}

impl ScanResult {
    /// The record has a random identifier and a time in UTC. A threat has a
    /// name and a kind and the fixed confidence of a detection; a clean file
    /// has neither and confidence zero.
    pub open spec fn wf(&self) -> bool {
        &&& is_random_uuid_text(self.scan_id@)
        &&& is_utc_stamp(self.timestamp@)
        &&& self.confidence_percent <= 100
        &&& self.threat_detected ==> {
            &&& self.threat_name matches Some(name) && name@ == flagged_name()
            &&& self.threat_type matches Some(kind) && kind@ == flagged_kind()
            &&& self.confidence_percent == CONFIDENCE_DETECTED
        }
        &&& !self.threat_detected ==> {
            &&& self.threat_name is None
            &&& self.threat_type is None
            &&& self.confidence_percent == CONFIDENCE_CLEAN
        }
    }

    /// The record is that of a scan, on `device`, of the file at `path` that
    /// held `data`, with the verdict `threat`.
    pub open spec fn records(
        &self,
        device: Seq<char>,
        path: Seq<char>,
        data: FileData,
        threat: bool,
    ) -> bool {
        &&& self.wf()
        &&& self.device_id@ == device
        &&& self.file_path@ == path
        &&& self.file_size == data.size
        &&& self.file_hash@ == digest_text(data.contents@)
        &&& self.threat_detected == threat
    }
}

impl ScanResult {
    /// The name and kind under which this record is to be reported, if it
    /// holds a threat.
    pub fn alarm(&self) -> (named: Option<(&str, &str)>)
        ensures
            self.wf() ==> (named is Some <==> self.threat_detected),
            named matches Some(pair) ==> {
                &&& self.threat_name matches Some(name) && pair.0@ == name@
                &&& self.threat_type matches Some(kind) && pair.1@ == kind@
            },
    {
        if !self.threat_detected {
            return None;
        }
        match (&self.threat_name, &self.threat_type) {
            (Some(name), Some(kind)) => Some((name.as_str(), kind.as_str())),
            _ => None,
        }
    }
}

/// What one pass of a scanner over the files it read has produced.
#[derive(Debug, Clone)]
pub struct ScanCycle {
    /// One record for each file that could be read, in the order read.
    pub results: Vec<ScanResult>,
    /// One report for each record that holds a threat, in the same order.
    pub requests: Vec<PostRequest>,
}

/// The path of a listed entry; the empty text where it has none.
pub open spec fn path_of(entry: Listed) -> Seq<char> {
    match entry.path {
        Some(path) => path@,
        None => Seq::empty(),
    }
}

/// What a successful read has read.
pub open spec fn data_of(read: FileRead) -> FileData
    recommends
        read.outcome is Ok,
{
    read.outcome->Ok_0
}

/// The reads that succeeded, in their order.
pub open spec fn readable(reads: Seq<FileRead>) -> Seq<FileRead> {
    reads.filter(|read: FileRead| read.outcome is Ok)
}

} // verus!
