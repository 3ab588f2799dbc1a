//! The scanner of the quarantine directory: files that were set aside are
//! judged again on every pass.

use crate::digest::content_digest;
use crate::error::{IOError, InitializationError};
use crate::reporter::{PostRequest, Reporter};
use crate::scan::{
    data_of, flagged_kind, flagged_name, path_of, readable, FileData, FileRead, Listed, ScanCycle, ScanResult,
    CONFIDENCE_CLEAN, CONFIDENCE_DETECTED,
};
use crate::stamp::{fresh_id, utc_now};
use crate::text::{chars_of, is_suffix, occurs_in, slice_has_substring, slice_has_suffix};
use vstd::prelude::*;

verus! {

/// The path ends like a program or a script that Windows runs.
pub open spec fn has_executable_extension(path: Seq<char>) -> bool {
    ||| is_suffix(path, ".exe"@)
    ||| is_suffix(path, ".dll"@)
    ||| is_suffix(path, ".scr"@)
    ||| is_suffix(path, ".vbs"@)
    ||| is_suffix(path, ".bat"@)
}

/// The path names a place where downloads and temporary files land.
pub open spec fn in_drop_location(path: Seq<char>) -> bool {
    occurs_in(path, "/tmp"@) || occurs_in(path, "Downloads"@)
}

/// The path ends like an archive or a disk image.
pub open spec fn has_archive_extension(path: Seq<char>) -> bool {
    is_suffix(path, ".zip"@) || is_suffix(path, ".dmg"@)
}

/// A file is a threat by its path alone: a program or script anywhere, an
/// archive or disk image where downloads land.
pub open spec fn is_threat(path: Seq<char>) -> bool {
    has_executable_extension(path) || (in_drop_location(path) && has_archive_extension(path))
}

/// The listed entries that a pass scans: every regular file with a path.
pub open spec fn eligible(listing: Seq<Listed>) -> Seq<Listed> {
    listing.filter(|entry: Listed| entry.is_file && entry.path is Some)
}

/// The reads that succeeded on a file that is a threat, in their order.
pub open spec fn flagged(reads: Seq<FileRead>) -> Seq<FileRead> {
    reads.filter(|read: FileRead| read.outcome is Ok && is_threat(read.path@))
}

/// The record of scanning a program that lies among temporary files holds a
/// threat, with confidence 0.85.
pub proof fn lemma_temp_executable_is_flagged(
    result: ScanResult,
    device: Seq<char>,
    path: Seq<char>,
    data: FileData,
)
    requires
        occurs_in(path, "/tmp"@),
        is_suffix(path, ".exe"@),
        result.records(device, path, data, is_threat(path)),
    ensures
        result.threat_detected,
        result.confidence_percent == 85,
{
}

/// The record of scanning a text file that lies where no downloads land
/// holds no threat, with confidence 0.
pub proof fn lemma_text_file_is_clean(
    result: ScanResult,
    device: Seq<char>,
    path: Seq<char>,
    data: FileData,
)
    requires
        is_suffix(path, ".txt"@),
        !in_drop_location(path),
        result.records(device, path, data, is_threat(path)),
    ensures
        !result.threat_detected,
        result.confidence_percent == 0,
{
    reveal_strlit(".txt");
    reveal_strlit(".exe");
    reveal_strlit(".dll");
    reveal_strlit(".scr");
    reveal_strlit(".vbs");
    reveal_strlit(".bat");
    let end = path.subrange(path.len() - 4, path.len() as int);
    assert(end == ".txt"@);
    assert(end[1] == 't');
    assert(".exe"@[1] == 'e');
    assert(".dll"@[1] == 'd');
    assert(".scr"@[1] == 's');
    assert(".vbs"@[1] == 'v');
    assert(".bat"@[1] == 'b');
}

/// The scanner of the quarantine directory. Once stopped it stays stopped.
pub struct FileScanner {
    device_id: String,
    quarantine_dir: String,
    enabled: bool,
}

impl FileScanner {
    pub closed spec fn device_view(&self) -> Seq<char> {
        self.device_id@
    }

    pub closed spec fn quarantine_view(&self) -> Seq<char> {
        self.quarantine_dir@
    }

    pub closed spec fn enabled(&self) -> bool {
        self.enabled
    }

    /// A running scanner for the device `device_id` over the quarantine
    /// directory `quarantine_dir`. Where the host has no such directory and
    /// none could be made, the caller passes `None` and the scanner is
    /// unavailable.
    pub fn new(device_id: &str, quarantine_dir: Option<&str>) -> (made: Result<
        Self,
        InitializationError,
    >)
        ensures
            quarantine_dir is None ==> made == Err::<Self, InitializationError>(
                InitializationError::Unavailable,
            ),
            quarantine_dir matches Some(dir) ==> made matches Ok(scanner) && {
                &&& scanner.device_view() == device_id@
                &&& scanner.quarantine_view() == dir@
                &&& scanner.enabled()
            },
    {
        match quarantine_dir {
            Some(dir) => Ok(
                FileScanner {
                    device_id: String::from_str(device_id),
                    quarantine_dir: String::from_str(dir),
                    enabled: true,
                },
            ),
            None => Err(InitializationError::Unavailable),
        }
    }

    pub fn device_id(&self) -> (id: &str)
        ensures
            id@ == self.device_view(),
    {
        self.device_id.as_str()
    }

    /// The directory that a pass lists.
    pub fn quarantine_dir(&self) -> (dir: &str)
        ensures
            dir@ == self.quarantine_view(),
    {
        self.quarantine_dir.as_str()
    }

    pub fn is_enabled(&self) -> (on: bool)
        ensures
            on == self.enabled(),
    {
        self.enabled
    }

    /// Whether the file at `file_path` is a threat. The digest plays no part
    /// in the verdict.
    pub fn check_for_threats(&self, file_path: &str, file_hash: &str) -> (threat: bool)
        ensures
            threat == is_threat(file_path@),
    {
        let path = chars_of(file_path);
        let path = path.as_slice();
        if slice_has_suffix(path, ".exe") || slice_has_suffix(path, ".dll") || slice_has_suffix(
            path,
            ".scr",
        ) || slice_has_suffix(path, ".vbs") || slice_has_suffix(path, ".bat") {
            return true;
        }
        if slice_has_substring(path, "/tmp") || slice_has_substring(path, "Downloads") {
            if slice_has_suffix(path, ".zip") || slice_has_suffix(path, ".dmg") {
                return true;
            }
        }
        false
    }

    /// The first step of a pass: of the entries that the quarantine directory
    /// lists, the paths to read and scan, in the order listed. A stopped
    /// scanner chooses none.
    pub fn scan_quarantine_directory(&self, listing: &Vec<Listed>) -> (chosen: Vec<String>)
        ensures
            !self.enabled() ==> chosen@.len() == 0,
            self.enabled() ==> chosen@.len() == eligible(listing@).len(),
            self.enabled() ==> forall|k: int|
                0 <= k < chosen@.len() ==> (#[trigger] chosen@[k])@ == path_of(
                    eligible(listing@)[k],
                ),
    {
        let mut chosen: Vec<String> = Vec::new();
        if !self.enabled {
            return chosen;
        }
        let mut i: usize = 0;
        proof {
            reveal(Seq::filter);
            assert(listing@.take(0) =~= Seq::<Listed>::empty());
        }
        while i < listing.len()
            invariant
                i <= listing.len(),
                chosen@.len() == eligible(listing@.take(i as int)).len(),
                forall|k: int|
                    0 <= k < chosen@.len() ==> (#[trigger] chosen@[k])@ == path_of(
                        eligible(listing@.take(i as int))[k],
                    ),
            decreases listing.len() - i,
        {
            proof {
                reveal(Seq::filter);
                assert(listing@.take(i + 1).drop_last() =~= listing@.take(i as int));
                assert(listing@.take(i + 1).last() == listing@[i as int]);
            }
            let entry = &listing[i];
            if entry.is_file {
                if let Some(path) = &entry.path {
                    chosen.push(path.clone());
                }
            }
            i += 1;
        }
        assert(listing@.take(i as int) =~= listing@);
        chosen
    }

    /// The record of scanning the file at `file_path`, given what came of
    /// reading it: the read's error where it failed, else a new record with a
    /// fresh identifier, the current time, the digest of the bytes and the
    /// verdict on the path.
    pub fn scan_file(&self, file_path: &str, read: &Result<FileData, IOError>) -> (scanned: Result<
        ScanResult,
        IOError,
    >)
        ensures
            read matches Err(error) ==> scanned == Err::<ScanResult, IOError>(*error),
            read matches Ok(data) ==> scanned matches Ok(result) && result.records(
                self.device_view(),
                file_path@,
                *data,
                is_threat(file_path@),
            ),
    {
        let data = match read {
            Ok(data) => data,
            Err(error) => {
                return Err(*error);
            },
        };
        let file_hash = content_digest(data.contents.as_slice());
        let threat_detected = self.check_for_threats(file_path, file_hash.as_str());
        Ok(
            ScanResult {
                scan_id: fresh_id(),
                device_id: self.device_id.clone(),
                file_path: String::from_str(file_path),
                file_hash,
                file_size: data.size,
                threat_detected,
                threat_name: if threat_detected {
                    Some(String::from_str("Suspicious.File"))
                } else {
                    None
                },
                threat_type: if threat_detected {
                    Some(String::from_str("malware"))
                } else {
                    None
                },
                confidence_percent: if threat_detected {
                    CONFIDENCE_DETECTED
                } else {
                    CONFIDENCE_CLEAN
                },
                timestamp: utc_now(),
            },
        )
    }

    /// The second step of a pass: every file that could be read is scanned,
    /// and every record that holds a threat is reported. A file that could not
    /// be read is passed over and the pass goes on. A stopped scanner scans
    /// and reports nothing.
    pub fn run_cycle(&self, reporter: &Reporter, reads: &Vec<FileRead>) -> (cycle: ScanCycle)
        ensures
            !self.enabled() ==> cycle.results@.len() == 0 && cycle.requests@.len() == 0,
            self.enabled() ==> cycle.results@.len() == readable(reads@).len(),
            self.enabled() ==> forall|k: int|
                0 <= k < cycle.results@.len() ==> (#[trigger] cycle.results@[k]).records(
                    self.device_view(),
                    readable(reads@)[k].path@,
                    data_of(readable(reads@)[k]),
                    is_threat(readable(reads@)[k].path@),
                ),
            self.enabled() ==> cycle.requests@.len() == flagged(reads@).len(),
            forall|k: int|
                0 <= k < cycle.requests@.len() ==> reporter.posts_threat(
                    &#[trigger] cycle.requests@[k],
                    self.device_view(),
                    flagged_name(),
                    flagged_kind(),
                ),
    {
        let mut results: Vec<ScanResult> = Vec::new();
        let mut requests: Vec<PostRequest> = Vec::new();
        if !self.enabled {
            return ScanCycle { results, requests };
        }
        let mut i: usize = 0;
        proof {
            reveal(Seq::filter);
            assert(reads@.take(0) =~= Seq::<FileRead>::empty());
        }
        while i < reads.len()
            invariant
                i <= reads.len(),
                results@.len() == readable(reads@.take(i as int)).len(),
                forall|k: int|
                    0 <= k < results@.len() ==> (#[trigger] results@[k]).records(
                        self.device_view(),
                        readable(reads@.take(i as int))[k].path@,
                        data_of(readable(reads@.take(i as int))[k]),
                        is_threat(readable(reads@.take(i as int))[k].path@),
                    ),
                requests@.len() == flagged(reads@.take(i as int)).len(),
                forall|k: int|
                    0 <= k < requests@.len() ==> reporter.posts_threat(
                        &#[trigger] requests@[k],
                        self.device_view(),
                        flagged_name(),
                        flagged_kind(),
                    ),
            decreases reads.len() - i,
        {
            proof {
                reveal(Seq::filter);
                assert(reads@.take(i + 1).drop_last() =~= reads@.take(i as int));
                assert(reads@.take(i + 1).last() == reads@[i as int]);
            }
            let read = &reads[i];
            if let Ok(result) = self.scan_file(read.path.as_str(), &read.outcome) {
                if let Some((name, kind)) = result.alarm() {
                    requests.push(reporter.report_threat(result.device_id.as_str(), name, kind));
                }
                results.push(result);
            }
            i += 1;
        }
        assert(reads@.take(i as int) =~= reads@);
        ScanCycle { results, requests }
    }

    /// Stops the scanner. Stopping a stopped scanner changes nothing.
    pub fn stop(&mut self)
        ensures
            !final(self).enabled(),
            final(self).device_view() == old(self).device_view(),
            final(self).quarantine_view() == old(self).quarantine_view(),
    {
        self.enabled = false;
    }
}

} // verus!
