//! The scan of a turn's logs, one read at a time.
use vstd::prelude::*;
use vstd::utf8::*;

use crate::log_scan;
use crate::log_scan::{CandidateView, LogCandidate, MAX_LOG_SCAN_BYTES};
use crate::outside;
use crate::text;

verus! {

/// A read that the scan asks for: at most `limit` bytes from `start` on.
#[derive(Debug)]
pub struct LogRead {
    pub name: String,
    pub start: u64,
    pub limit: u64,
}

/// What a read asks for.
#[verifier::ext_equal]
pub struct LogReadView {
    pub name: Seq<char>,
    pub start: u64,
    pub limit: u64,
}

impl View for LogRead {
    type V = LogReadView;

    open spec fn view(&self) -> LogReadView {
        LogReadView { name: self.name@, start: self.start, limit: self.limit }
    }
}

/// Where the newest bytes begin of those that a turn appended: at most
/// `MAX_LOG_SCAN_BYTES` before the end of the file.
pub open spec fn tail_start(offset: u64, len: u64) -> u64 {
    if len > MAX_LOG_SCAN_BYTES && len - MAX_LOG_SCAN_BYTES > offset {
        (len - MAX_LOG_SCAN_BYTES) as u64
    } else {
        offset
    }
}

/// Where the newest bytes begin of those that a turn appended.
pub fn log_tail_start(offset: u64, len: u64) -> (r: u64)
    ensures
        r == tail_start(offset, len),
{
    let newest: u64 = len.saturating_sub(MAX_LOG_SCAN_BYTES);
    if newest > offset {
        newest
    } else {
        offset
    }
}

/// The scan of the logs that a turn has grown.
#[derive(Debug)]
pub struct LogScan {
    candidates: Vec<LogCandidate>,
    /// How many candidates have been read, or could not be.
    next: usize,
    /// How many could not be read.
    read_failures: usize,
    found: Option<String>,
}

/// How far a scan is.
#[verifier::ext_equal]
pub struct ScanView {
    pub candidates: Seq<CandidateView>,
    pub next: nat,
    pub read_failures: nat,
    pub found: Option<Seq<char>>,
}

impl View for LogScan {
    type V = ScanView;

    closed spec fn view(&self) -> ScanView {
        ScanView {
            candidates: log_scan::candidate_views(self.candidates@),
            next: self.next as nat,
            read_failures: self.read_failures as nat,
            found: text::opt_text(self.found),
        }
    }
}

impl ScanView {
    /// A scan that has read nothing yet.
    pub open spec fn starting(candidates: Seq<CandidateView>) -> ScanView {
        ScanView { candidates, next: 0, read_failures: 0, found: None }
    }

    /// The counts agree with each other.
    pub open spec fn wf(self) -> bool {
        self.read_failures <= self.next <= self.candidates.len()
    }

    /// There is a log left to read, and no error has been found yet.
    pub open spec fn pending(self) -> bool {
        self.found is None && self.next < self.candidates.len()
    }

    /// The read that is due.
    pub open spec fn due(self) -> Option<LogReadView> {
        if self.pending() {
            let c = self.candidates[self.next as int];
            Some(
                LogReadView {
                    name: c.name,
                    start: tail_start(c.offset, c.len),
                    limit: MAX_LOG_SCAN_BYTES,
                },
            )
        } else {
            None
        }
    }

    /// The scan after the read that was due gave `content`, or failed.
    pub open spec fn step(self, content: Option<Seq<char>>) -> ScanView {
        match content {
            Some(c) => ScanView {
                next: self.next + 1,
                found: log_scan::error_message(c),
                ..self
            },
            None => ScanView {
                next: self.next + 1,
                read_failures: self.read_failures + 1,
                ..self
            },
        }
    }

    /// The scan after reads that gave `contents`, as far as they were due.
    pub open spec fn run(self, contents: Seq<Option<Seq<char>>>) -> ScanView
        decreases contents.len(),
    {
        if contents.len() == 0 || !self.pending() {
            self
        } else {
            self.step(contents.first()).run(contents.drop_first())
        }
    }
}

/// The first error that one of `contents` reports.
pub open spec fn first_error(contents: Seq<Option<Seq<char>>>) -> Option<Seq<char>>
    decreases contents.len(),
{
    if contents.len() == 0 {
        None
    } else {
        match contents.first() {
            Some(c) => if log_scan::error_message(c) is Some {
                log_scan::error_message(c)
            } else {
                first_error(contents.drop_first())
            },
            None => first_error(contents.drop_first()),
        }
    }
}

/// What there is to say of a finished scan.
#[derive(Debug, Clone, Copy, PartialEq, Eq)]
pub enum ScanReport {
    /// An error was found, or there was nothing to read.
    Quiet,
    /// Some logs could not be read, and the others report no error.
    Unreadable { failures: usize, scanned: usize },
    /// No log reports an error that is known.
    NoAnchor { scanned: usize },
}

impl ScanView {
    /// `r` is what there is to say of the scan.
    pub open spec fn reported(self, r: ScanReport) -> bool {
        match r {
            ScanReport::Unreadable { failures, scanned } => self.found is None && failures > 0
                && failures == self.read_failures && scanned == self.candidates.len(),
            ScanReport::NoAnchor { scanned } => self.found is None && self.read_failures == 0
                && scanned > 0 && scanned == self.candidates.len(),
            ScanReport::Quiet => self.found is Some || (self.read_failures == 0
                && self.candidates.len() == 0),
        }
    }
}

impl LogScan {
    #[verifier::type_invariant]
    closed spec fn counts_agree(self) -> bool {
        self@.wf()
    }

    pub fn new(candidates: Vec<LogCandidate>) -> (r: LogScan)
        ensures
            r@ == ScanView::starting(log_scan::candidate_views(candidates@)),
    {
        LogScan { candidates, next: 0, read_failures: 0, found: None }
    }

    /// The read that is due, until the scan has ended.
    pub fn next_read(&self) -> (r: Option<LogRead>)
        ensures
            match r {
                Some(read) => self@.due() == Some(read@),
                None => self@.due() is None,
            },
    {
        if self.found.is_some() || self.next >= self.candidates.len() {
            return None;
        }
        let c: &LogCandidate = &self.candidates[self.next];
        assert(self@.candidates[self.next as int] == c@);
        Some(
            LogRead {
                name: c.name.clone(),
                start: log_tail_start(c.offset, c.len),
                limit: MAX_LOG_SCAN_BYTES,
            },
        )
    }

    /// Takes the text that the due read gave; none where it failed.
    pub fn record_text(&mut self, content: Option<&str>)
        requires
            old(self)@.pending(),
        ensures
            final(self)@ == old(self)@.step(text::opt_str(content)),
    {
        proof {
            use_type_invariant(&*self);
            assert(self@.candidates.len() == self.candidates.len());
        }
        self.next = self.next + 1;
        match content {
            Some(c) => {
                let found: Option<String> = log_scan::extract_agy_error_message(c);
                self.found = found;
            },
            None => {
                self.read_failures = self.read_failures + 1;
            },
        }
    }

    /// Takes the bytes that the due read gave; none where it failed.
    pub fn record(&mut self, bytes: Option<&[u8]>)
        requires
            old(self)@.pending(),
        ensures
            final(self)@ == old(self)@.step(
                match bytes {
                    Some(b) => Some(outside::utf8_lossy(b@)),
                    None => None,
                },
            ),
            match bytes {
                Some(b) => valid_utf8(b@) ==> final(self)@ == old(self)@.step(
                    Some(decode_utf8(b@)),
                ),
                None => true,
            },
    {
        match bytes {
            Some(b) => {
                let content: String = outside::decode_lossy(b);
                self.record_text(Some(content.as_str()));
            },
            None => {
                self.record_text(None);
            },
        }
    }

    /// The error that was found.
    pub fn found(&self) -> (r: Option<String>)
        ensures
            text::opt_text(r) == self@.found,
    {
        self.found.clone()
    }

    /// What there is to say of the scan once it has ended.
    pub fn report(&self) -> (r: ScanReport)
        ensures
            self@.reported(r),
    {
        assert(self@.candidates.len() == self.candidates.len());
        if self.found.is_none() && self.read_failures > 0 {
            ScanReport::Unreadable { failures: self.read_failures, scanned: self.candidates.len() }
        } else if self.found.is_none() && self.candidates.len() > 0 {
            ScanReport::NoAnchor { scanned: self.candidates.len() }
        } else {
            ScanReport::Quiet
        }
    }
}

} // verus!
