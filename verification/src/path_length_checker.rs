//! The scanner for paths that are longer than a limit: the state of its
//! page, the bookkeeping of a scan, and the report that it exports.

use std::path::PathBuf;
use tokio_util::sync::CancellationToken;
use vstd::prelude::*;
use crate::number::{decimal, decimal_chars, digits_of, parse_unsigned, unsigned_of};
use crate::text::{chars_of, joined, string_of, text_of, texts_of};

verus! {

/// `tokio_util::sync::CancellationToken`: a signal that a scan is to stop,
/// shared between the page and the scan.
#[verifier::external_type_specification]
#[verifier::external_body]
pub struct ExCancellationToken(tokio_util::sync::CancellationToken);

/// `std::path::PathBuf`: a path of the file system.
#[verifier::external_type_specification]
#[verifier::external_body]
pub struct ExPathBuf(std::path::PathBuf);

/// `CancellationToken::new`: a fresh token. Nothing is claimed of it.
pub assume_specification[ tokio_util::sync::CancellationToken::new ]() -> (token: CancellationToken)
;

/// `CancellationToken::cancel`: signals cancellation to every holder of
/// the token. Nothing is claimed of what the signal does.
pub assume_specification[ tokio_util::sync::CancellationToken::cancel ](token: &CancellationToken)
;

/// `Clone::clone` of a token: another handle of the same signal. Nothing
/// is claimed of it.
pub assume_specification[ <tokio_util::sync::CancellationToken as Clone>::clone ](
    token: &CancellationToken,
) -> (other: CancellationToken)
;

/// `Clone::clone` of a path: the clone is the same path.
pub assume_specification[ <std::path::PathBuf as Clone>::clone ](path: &PathBuf) -> (other: PathBuf)
    ensures
        other == *path,
;

/// The limit of the length of a path where none is entered.
pub const DEFAULT_LIMIT: usize = 240;

/// A path that is longer than the limit, with its length.
#[derive(Debug, Clone)]
pub struct OverLimit {
    path: String,
    size: u64,
}

impl View for OverLimit {
    type V = (Seq<char>, u64);

    closed spec fn view(&self) -> (Seq<char>, u64) {
        (self.path@, self.size)
    }
}

/// What a list of such paths holds, as plain values.
pub open spec fn items_of(v: Seq<OverLimit>) -> Seq<(Seq<char>, u64)> {
    Seq::new(v.len(), |i: int| v[i]@)
}

impl OverLimit {
    /// A path with its length.
    pub fn new(path: String, size: u64) -> (item: OverLimit)
        ensures
            item@ == (path@, size),
    {
        OverLimit { path, size }
    }

    /// The path.
    pub fn path(&self) -> (path: &String)
        ensures
            path@ == self@.0,
    {
        &self.path
    }

    /// The length of the path.
    pub fn size(&self) -> (size: u64)
        ensures
            size == self@.1,
    {
        self.size
    }

    /// The same path and length again.
    pub fn copy(&self) -> (item: OverLimit)
        ensures
            item@ == self@,
    {
        OverLimit { path: self.path.clone(), size: self.size }
    }
}

/// Copies a list of paths.
pub fn copy_items(items: &Vec<OverLimit>) -> (copies: Vec<OverLimit>)
    ensures
        items_of(copies@) == items_of(items@),
{
    let mut copies: Vec<OverLimit> = Vec::new();
    let mut i: usize = 0;
    while i < items.len()
        invariant
            i <= items.len(),
            copies@.len() == i,
            forall|j: int| 0 <= j < i ==> (#[trigger] copies@[j])@ == items@[j]@,
        decreases items.len() - i,
    {
        copies.push(items[i].copy());
        i = i + 1;
    }
    assert(items_of(copies@) =~= items_of(items@));
    copies
}

/// Where a scan stands, without its token.
#[derive(Debug, Clone, Copy, PartialEq, Eq, Structural)]
pub enum Status {
    WaitingForStart,
    Scanning,
    Done,
}

/// Where a scan stands. A scan that runs holds the token that stops it.
#[derive(Debug)]
pub enum ScanStatus {
    WaitingForStart,
    Scanning(CancellationToken),
    Done,
}

impl View for ScanStatus {
    type V = Status;

    open spec fn view(&self) -> Status {
        match self {
            ScanStatus::WaitingForStart => Status::WaitingForStart,
            ScanStatus::Scanning(_) => Status::Scanning,
            ScanStatus::Done => Status::Done,
        }
    }
}

/// A scan after it was told to stop: one that ran is done, any other is
/// as it was.
pub open spec fn cancelled(status: Status) -> Status {
    match status {
        Status::Scanning => Status::Done,
        other => other,
    }
}

impl ScanStatus {
    /// Whether no scan runs.
    pub fn is_idle(&self) -> (idle: bool)
        ensures
            idle == !(self@ is Scanning),
    {
        match self {
            ScanStatus::WaitingForStart => true,
            ScanStatus::Scanning(_) => false,
            ScanStatus::Done => true,
        }
    }

    /// Whether a scan runs.
    pub fn is_scanning(&self) -> (scanning: bool)
        ensures
            scanning == (self@ is Scanning),
    {
        match self {
            ScanStatus::WaitingForStart => false,
            ScanStatus::Scanning(_) => true,
            ScanStatus::Done => false,
        }
    }

    /// Whether a scan has ended.
    pub fn is_done(&self) -> (done: bool)
        ensures
            done == (self@ is Done),
    {
        match self {
            ScanStatus::WaitingForStart => false,
            ScanStatus::Scanning(_) => false,
            ScanStatus::Done => true,
        }
    }

    /// Tells a scan that runs to stop, and counts it as done.
    pub fn cancel(&mut self)
        ensures
            final(self)@ == cancelled(old(self)@),
    {
        let stop = match self {
            ScanStatus::WaitingForStart => false,
            ScanStatus::Scanning(token) => {
                token.cancel();
                true
            },
            ScanStatus::Done => false,
        };
        if stop {
            *self = ScanStatus::Done;
        }
    }
}

/// What happens on the page.
#[derive(Debug)]
pub enum Message {
    /// A folder is to be picked.
    SelectFolder,
    /// The picking has ended, with the folder if one was picked.
    SelectedFolder(Option<PathBuf>),
    /// The scan is to stop.
    AbortScan,
    /// The scan has come to its end.
    ScanComplete,
    /// The scan could not read something. Carries the message.
    Error(String),
    /// The limit was edited. Carries the text of the field.
    LimitChanged(String),
    /// A scan is to begin.
    StartScan,
    /// The scan reports how many paths it has seen, and the paths over the
    /// limit that it has found since its last report.
    ScanUpdate { now_scanned: u64, new_paths_over_limit: Vec<OverLimit> },
    /// The report is to be exported.
    ExportCsv,
    /// The export has ended, with a message either way.
    CsvExportComplete(Result<String, String>),
}

/// What the page asks for.
#[derive(Debug)]
#[must_use]
pub enum Job {
    /// Let the user pick a folder and report the outcome.
    PickFolder,
    /// Scan the folder `root` for paths longer than `limit` until `token`
    /// is cancelled, and report what is found.
    Scan { root: PathBuf, limit: usize, token: CancellationToken },
    /// Export these paths and report the outcome.
    Export(Vec<OverLimit>),
    /// Nothing.
    Nothing,
}

/// The page, as plain values.
pub struct CheckerView {
    pub selecting: bool,
    pub selected: Option<PathBuf>,
    pub status: Status,
    pub paths_over_limit: Seq<(Seq<char>, u64)>,
    pub scanned: u64,
    pub limit_input: Seq<char>,
    pub limit: usize,
    pub scan_limit: usize,
    pub errors: Seq<Seq<char>>,
    pub exporting: bool,
    pub export_message: Option<Seq<char>>,
    pub export_success: bool,
}

/// The page of the scanner.
#[derive(Debug)]
pub struct PathLengthChecker {
    selecting: bool,
    selected: Option<PathBuf>,
    scan_status: ScanStatus,
    paths_over_limit: Vec<OverLimit>,
    scanned: u64,
    limit_input: String,
    limit: usize,
    scan_limit: usize,
    errors: Vec<String>,
    exporting: bool,
    export_message: Option<String>,
    export_success: bool,
}

impl View for PathLengthChecker {
    type V = CheckerView;

    closed spec fn view(&self) -> CheckerView {
        CheckerView {
            selecting: self.selecting,
            selected: self.selected,
            status: self.scan_status@,
            paths_over_limit: items_of(self.paths_over_limit@),
            scanned: self.scanned,
            limit_input: self.limit_input@,
            limit: self.limit,
            scan_limit: self.scan_limit,
            errors: texts_of(self.errors@),
            exporting: self.exporting,
            export_message: text_of(self.export_message),
            export_success: self.export_success,
        }
    }
}

/// The page as it opens.
pub open spec fn fresh() -> CheckerView {
    CheckerView {
        selecting: false,
        selected: None,
        status: Status::WaitingForStart,
        paths_over_limit: Seq::empty(),
        scanned: 0,
        limit_input: "240"@,
        limit: DEFAULT_LIMIT,
        scan_limit: DEFAULT_LIMIT,
        errors: Seq::empty(),
        exporting: false,
        export_message: None,
        export_success: false,
    }
}

/// The limit after the field was edited: the number that the text writes,
/// or the limit as it was where the text writes none.
pub open spec fn limit_after(limit: usize, text: Seq<char>) -> usize {
    match unsigned_of(text, usize::MAX as nat) {
        Some(n) => n as usize,
        None => limit,
    }
}

/// The page after a message.
pub open spec fn after(c: CheckerView, message: Message) -> CheckerView {
    match message {
        Message::SelectFolder => CheckerView { selecting: true, ..c },
        Message::SelectedFolder(Some(folder)) => CheckerView {
            selecting: false,
            selected: Some(folder),
            status: Status::WaitingForStart,
            ..c
        },
        Message::SelectedFolder(None) => CheckerView { selecting: false, ..c },
        Message::AbortScan | Message::ScanComplete => CheckerView { status: cancelled(c.status), ..c },
        Message::Error(text) => CheckerView { errors: c.errors.push(text@), ..c },
        Message::LimitChanged(text) => CheckerView {
            limit_input: text@,
            limit: limit_after(c.limit, text@),
            ..c
        },
        Message::StartScan => {
            if c.selected is Some {
                CheckerView {
                    status: Status::Scanning,
                    paths_over_limit: Seq::empty(),
                    errors: Seq::empty(),
                    scanned: 0,
                    export_message: None,
                    scan_limit: c.limit,
                    ..c
                }
            } else {
                c
            }
        },
        Message::ScanUpdate { now_scanned, new_paths_over_limit } => CheckerView {
            scanned: now_scanned,
            paths_over_limit: c.paths_over_limit + items_of(new_paths_over_limit@),
            ..c
        },
        Message::ExportCsv => {
            if c.paths_over_limit.len() == 0 {
                c
            } else {
                CheckerView { exporting: true, export_message: None, ..c }
            }
        },
        Message::CsvExportComplete(Ok(text)) => CheckerView {
            exporting: false,
            export_message: Some(text@),
            export_success: true,
            ..c
        },
        Message::CsvExportComplete(Err(text)) => CheckerView {
            exporting: false,
            export_message: Some(text@),
            export_success: false,
            ..c
        },
    }
}

/// Whether `job` is what the page asks for after `message`.
pub open spec fn asked(job: Job, c: CheckerView, message: Message) -> bool {
    match message {
        Message::SelectFolder => job is PickFolder,
        Message::StartScan if c.selected is Some => job matches Job::Scan { root, limit, token } && Some(root)
            == c.selected && limit == c.limit,
        Message::ExportCsv if c.paths_over_limit.len() > 0 => job matches Job::Export(items) && items_of(
            items@,
        ) == c.paths_over_limit,
        _ => job is Nothing,
    }
}

impl PathLengthChecker {
    /// The page as it opens.
    pub fn new() -> (page: PathLengthChecker)
        ensures
            page@ == fresh(),
    {
        let page = PathLengthChecker {
            selecting: false,
            selected: None,
            scan_status: ScanStatus::WaitingForStart,
            paths_over_limit: Vec::new(),
            scanned: 0,
            limit_input: "240".to_owned(),
            limit: DEFAULT_LIMIT,
            scan_limit: DEFAULT_LIMIT,
            errors: Vec::new(),
            exporting: false,
            export_message: None,
            export_success: false,
        };
        assert(items_of(page.paths_over_limit@) =~= Seq::empty());
        assert(texts_of(page.errors@) =~= Seq::empty());
        page
    }

    /// Takes a message and says what is to be done.
    pub fn update(&mut self, message: Message) -> (job: Job)
        ensures
            final(self)@ == after(old(self)@, message),
            asked(job, old(self)@, message),
    {
        match message {
            Message::SelectFolder => {
                self.selecting = true;
                Job::PickFolder
            },
            Message::SelectedFolder(selected) => {
                self.selecting = false;
                if let Some(selected) = selected {
                    self.selected = Some(selected);
                    self.scan_status = ScanStatus::WaitingForStart;
                }
                Job::Nothing
            },
            Message::AbortScan | Message::ScanComplete => {
                self.cancel_scan();
                Job::Nothing
            },
            Message::Error(text) => {
                let ghost before = texts_of(self.errors@);
                let ghost added = text@;
                self.errors.push(text);
                assert(texts_of(self.errors@) =~= before.push(added));
                Job::Nothing
            },
            Message::LimitChanged(limit) => {
                if let Some(parsed) = parse_unsigned(limit.as_str(), usize::MAX as u64) {
                    self.limit = parsed as usize;
                }
                self.limit_input = limit;
                Job::Nothing
            },
            Message::StartScan => {
                let root = match &self.selected {
                    Some(folder) => folder.clone(),
                    None => {
                        return Job::Nothing;
                    },
                };
                self.scan_status.cancel();
                self.paths_over_limit.clear();
                self.errors.clear();
                self.scanned = 0;
                self.export_message = None;
                let token = CancellationToken::new();
                self.scan_status = ScanStatus::Scanning(token.clone());
                self.scan_limit = self.limit;
                assert(items_of(self.paths_over_limit@) =~= Seq::empty());
                assert(texts_of(self.errors@) =~= Seq::empty());
                Job::Scan { root, limit: self.limit, token }
            },
            Message::ScanUpdate { now_scanned, new_paths_over_limit } => {
                let mut new_paths_over_limit = new_paths_over_limit;
                let ghost before = items_of(self.paths_over_limit@);
                let ghost added = items_of(new_paths_over_limit@);
                self.scanned = now_scanned;
                self.paths_over_limit.append(&mut new_paths_over_limit);
                assert(items_of(self.paths_over_limit@) =~= before + added);
                Job::Nothing
            },
            Message::ExportCsv => {
                if self.paths_over_limit.len() == 0 {
                    Job::Nothing
                } else {
                    self.exporting = true;
                    self.export_message = None;
                    Job::Export(copy_items(&self.paths_over_limit))
                }
            },
            Message::CsvExportComplete(result) => {
                self.exporting = false;
                match result {
                    Ok(text) => {
                        self.export_message = Some(text);
                        self.export_success = true;
                    },
                    Err(text) => {
                        self.export_message = Some(text);
                        self.export_success = false;
                    },
                }
                Job::Nothing
            },
        }
    }

    /// Whether a folder is being picked.
    pub fn selecting(&self) -> (selecting: bool)
        ensures
            selecting == self@.selecting,
    {
        self.selecting
    }

    /// The folder that was picked.
    pub fn selected(&self) -> (selected: &Option<PathBuf>)
        ensures
            *selected == self@.selected,
    {
        &self.selected
    }

    /// Where the scan stands.
    pub fn status(&self) -> (status: Status)
        ensures
            status == self@.status,
    {
        match &self.scan_status {
            ScanStatus::WaitingForStart => Status::WaitingForStart,
            ScanStatus::Scanning(_) => Status::Scanning,
            ScanStatus::Done => Status::Done,
        }
    }

    /// The paths over the limit that the scan has reported.
    pub fn paths_over_limit(&self) -> (items: &Vec<OverLimit>)
        ensures
            items_of(items@) == self@.paths_over_limit,
    {
        &self.paths_over_limit
    }

    /// The number of paths that the scan has seen.
    pub fn scanned(&self) -> (scanned: u64)
        ensures
            scanned == self@.scanned,
    {
        self.scanned
    }

    /// The text of the limit field.
    pub fn limit_input(&self) -> (text: &String)
        ensures
            text@ == self@.limit_input,
    {
        &self.limit_input
    }

    /// The limit for the next scan.
    pub fn limit(&self) -> (limit: usize)
        ensures
            limit == self@.limit,
    {
        self.limit
    }

    /// The limit of the scan that was begun last.
    pub fn scan_limit(&self) -> (limit: usize)
        ensures
            limit == self@.scan_limit,
    {
        self.scan_limit
    }

    /// What the scan could not read.
    pub fn errors(&self) -> (errors: &Vec<String>)
        ensures
            texts_of(errors@) == self@.errors,
    {
        &self.errors
    }

    /// Whether an export is under way.
    pub fn exporting(&self) -> (exporting: bool)
        ensures
            exporting == self@.exporting,
    {
        self.exporting
    }

    /// The message of the last export.
    pub fn export_message(&self) -> (message: &Option<String>)
        ensures
            text_of(*message) == self@.export_message,
    {
        &self.export_message
    }

    /// Whether the last export went through.
    pub fn export_success(&self) -> (success: bool)
        ensures
            success == self@.export_success,
    {
        self.export_success
    }

    /// Whether a scan can begin: a folder is picked and no scan runs.
    pub fn can_start_scan(&self) -> (can: bool)
        ensures
            can == (self@.selected is Some && !(self@.status is Scanning)),
    {
        self.selected.is_some() && !self.scan_status.is_scanning()
    }

    /// Whether there is something to export: the scan is done, it has found
    /// paths over the limit, and no export is under way.
    pub fn can_export(&self) -> (can: bool)
        ensures
            can == (self@.paths_over_limit.len() > 0 && !self@.exporting && self@.status is Done),
    {
        self.paths_over_limit.len() > 0 && !self.exporting && self.scan_status.is_done()
    }

    /// Tells the scan to stop, if one runs.
    pub fn cancel_scan(&mut self)
        ensures
            final(self)@ == (CheckerView { status: cancelled(old(self)@.status), ..old(self)@ }),
    {
        self.scan_status.cancel();
    }
}

/// The bookkeeping of a scan, as plain values.
pub struct ScanView {
    pub limit: usize,
    /// The paths seen so far.
    pub scanned: u64,
    /// The paths over the limit that were found since the last report.
    pub over_limit: Seq<(Seq<char>, u64)>,
    /// The folders that are still to be read. The last one is read next.
    pub stack: Seq<PathBuf>,
}

/// The bookkeeping of a scan. The driver reads the folders; the scan says
/// which one is next, keeps count, and collects what the reports hold.
#[derive(Debug)]
pub struct Scan {
    limit: usize,
    scanned: u64,
    over_limit: Vec<OverLimit>,
    stack: Vec<PathBuf>,
}

impl View for Scan {
    type V = ScanView;

    closed spec fn view(&self) -> ScanView {
        ScanView {
            limit: self.limit,
            scanned: self.scanned,
            over_limit: items_of(self.over_limit@),
            stack: self.stack@,
        }
    }
}

/// The paths over the limit after an entry of length `length`, shown as
/// `shown`, was seen.
pub open spec fn found(s: ScanView, shown: Seq<char>, length: usize) -> Seq<(Seq<char>, u64)> {
    if length > s.limit {
        s.over_limit.push((shown, length as u64))
    } else {
        s.over_limit
    }
}

/// The scan after an entry was seen: a path over the limit is noted, a
/// folder is kept to be read, and the entry is counted. Where a report is
/// due, what was noted leaves with it.
pub open spec fn entered(
    s: ScanView,
    path: PathBuf,
    shown: Seq<char>,
    length: usize,
    is_folder: Result<bool, String>,
    due: bool,
) -> ScanView {
    ScanView {
        limit: s.limit,
        scanned: (s.scanned + 1) as u64,
        over_limit: if due {
            Seq::empty()
        } else {
            found(s, shown, length)
        },
        stack: if is_folder == Ok::<bool, String>(true) {
            s.stack.push(path)
        } else {
            s.stack
        },
    }
}

/// The message for an entry whose kind could not be read.
pub open spec fn metadata_message(shown: Seq<char>, cause: Seq<char>) -> Seq<char> {
    "Error reading metadata for "@ + shown + ": "@ + cause
}

/// The message for a folder that could not be read.
pub open spec fn directory_message(shown: Seq<char>, cause: Seq<char>) -> Seq<char> {
    "Error reading directory "@ + shown + ": "@ + cause
}

fn labelled(label: &str, shown: &str, cause: &str) -> (text: String)
    ensures
        text@ == label@ + shown@ + ": "@ + cause@,
{
    let a = joined(label, shown);
    let b = joined(a.as_str(), ": ");
    joined(b.as_str(), cause)
}

/// The report that a folder could not be read.
pub fn directory_failed(shown: &str, cause: &str) -> (message: Message)
    ensures
        message matches Message::Error(text) && text@ == directory_message(shown@, cause@),
{
    Message::Error(labelled("Error reading directory ", shown, cause))
}

impl Scan {
    /// A scan of the folder `root` for paths longer than `limit`.
    pub fn new(root: PathBuf, limit: usize) -> (scan: Scan)
        ensures
            scan@ == (ScanView { limit, scanned: 0, over_limit: Seq::empty(), stack: seq![root] }),
    {
        let mut stack: Vec<PathBuf> = Vec::new();
        stack.push(root);
        let scan = Scan { limit, scanned: 0, over_limit: Vec::new(), stack };
        assert(items_of(scan.over_limit@) =~= Seq::empty());
        assert(scan.stack@ =~= seq![root]);
        scan
    }

    /// The number of paths seen so far.
    pub fn scanned(&self) -> (n: u64)
        ensures
            n == self@.scanned,
    {
        self.scanned
    }

    /// The folder to read next: the one that was kept last. `None` when
    /// every folder has been read.
    pub fn next_directory(&mut self) -> (folder: Option<PathBuf>)
        ensures
            match folder {
                Some(path) => old(self)@.stack.len() > 0 && path == old(self)@.stack.last() && final(self)@ == (
                    ScanView { stack: old(self)@.stack.drop_last(), ..old(self)@ }
                ),
                None => old(self)@.stack.len() == 0 && final(self)@ == old(self)@,
            },
    {
        self.stack.pop()
    }

    /// The report of the scan: the count, and the paths over the limit
    /// since the last report, which leave the scan.
    pub fn report(&mut self) -> (message: Message)
        ensures
            message matches Message::ScanUpdate { now_scanned, new_paths_over_limit } && now_scanned == old(
                self,
            )@.scanned && items_of(new_paths_over_limit@) == old(self)@.over_limit,
            final(self)@ == (ScanView { over_limit: Seq::empty(), ..old(self)@ }),
    {
        let mut batch: Vec<OverLimit> = Vec::new();
        core::mem::swap(&mut self.over_limit, &mut batch);
        assert(items_of(self.over_limit@) =~= Seq::empty());
        Message::ScanUpdate { now_scanned: self.scanned, new_paths_over_limit: batch }
    }

    /// Takes an entry of a folder: its path, the text and the length of
    /// the path, whether it is a folder, or why that could not be read,
    /// and whether a report is due. Returns the report of the failure, if
    /// there was one, and the report of the scan, if it is due.
    pub fn entry(
        &mut self,
        path: PathBuf,
        shown: String,
        length: usize,
        is_folder: Result<bool, String>,
        due: bool,
    ) -> (reports: (Option<Message>, Option<Message>))
        requires
            old(self)@.scanned < u64::MAX,
        ensures
            final(self)@ == entered(old(self)@, path, shown@, length, is_folder, due),
            match is_folder {
                Err(cause) => reports.0 matches Some(Message::Error(text)) && text@ == metadata_message(
                    shown@,
                    cause@,
                ),
                Ok(_) => reports.0 is None,
            },
            if due {
                reports.1 matches Some(Message::ScanUpdate { now_scanned, new_paths_over_limit })
                    && now_scanned == old(self)@.scanned + 1 && items_of(new_paths_over_limit@) == found(
                    old(self)@,
                    shown@,
                    length,
                )
            } else {
                reports.1 is None
            },
    {
        let failure = match &is_folder {
            Ok(_) => None,
            Err(cause) => Some(
                Message::Error(labelled("Error reading metadata for ", shown.as_str(), cause.as_str())),
            ),
        };
        if length > self.limit {
            let ghost before = items_of(self.over_limit@);
            let ghost added = (shown@, length as u64);
            self.over_limit.push(OverLimit { path: shown, size: length as u64 });
            assert(items_of(self.over_limit@) =~= before.push(added));
        }
        match is_folder {
            Ok(true) => {
                self.stack.push(path);
            },
            _ => {},
        }
        self.scanned = self.scanned + 1;
        let update = if due {
            Some(self.report())
        } else {
            None
        };
        (failure, update)
    }
}

/// The first line of the report.
pub open spec fn csv_header() -> Seq<char> {
    "Length;Path\n"@
}

/// The rows that are written at once.
pub const CHUNK_ROWS: usize = 1000;

/// A path as it stands in the report: every `\` and every `"` doubled.
pub open spec fn csv_escaped(s: Seq<char>) -> Seq<char>
    decreases s.len(),
{
    if s.len() == 0 {
        s
    } else if s[0] == '\\' || s[0] == '"' {
        seq![s[0], s[0]] + csv_escaped(s.skip(1))
    } else {
        seq![s[0]] + csv_escaped(s.skip(1))
    }
}

/// The row of a path: its length, a `;`, and the path in quotes.
pub open spec fn csv_row(item: (Seq<char>, u64)) -> Seq<char> {
    digits_of(item.1 as nat) + seq![';', '"'] + csv_escaped(item.0) + seq!['"', '\n']
}

/// The rows of `items`, one after the other.
pub open spec fn csv_rows(items: Seq<(Seq<char>, u64)>) -> Seq<char>
    decreases items.len(),
{
    if items.len() == 0 {
        Seq::empty()
    } else {
        csv_rows(items.drop_last()) + csv_row(items.last())
    }
}

/// The number of chunks that `count` rows are written in.
pub open spec fn chunk_count(count: nat) -> nat {
    (count + CHUNK_ROWS - 1) as nat / (CHUNK_ROWS as nat)
}

/// Where chunk `k` of `count` rows ends.
pub open spec fn chunk_end(k: int, count: int) -> int {
    if (k + 1) * CHUNK_ROWS <= count {
        (k + 1) * CHUNK_ROWS
    } else {
        count
    }
}

fn escape_into(path: &str, out: &mut Vec<char>)
    ensures
        final(out)@ == old(out)@ + csv_escaped(path@),
{
    let v = chars_of(path);
    let mut i: usize = 0;
    assert(v@.skip(0) == v@);
    while i < v.len()
        invariant
            i <= v.len(),
            old(out)@ + csv_escaped(v@) == out@ + csv_escaped(v@.skip(i as int)),
        decreases v.len() - i,
    {
        let ghost rest = v@.skip(i as int);
        let c = v[i];
        assert(rest.skip(1) == v@.skip(i + 1));
        if c == '\\' || c == '"' {
            assert(out@ + (seq![c, c] + csv_escaped(rest.skip(1))) == out@.push(c).push(c) + csv_escaped(
                rest.skip(1),
            ));
            out.push(c);
        } else {
            assert(out@ + (seq![c] + csv_escaped(rest.skip(1))) == out@.push(c) + csv_escaped(rest.skip(1)));
        }
        out.push(c);
        i = i + 1;
    }
    assert(v@.skip(v@.len() as int).len() == 0);
    assert(out@ + Seq::<char>::empty() == out@);
}

/// The first line of the report.
pub fn header() -> (line: String)
    ensures
        line@ == csv_header(),
{
    "Length;Path\n".to_owned()
}

/// The rows of the paths from index `from` up to index `to`.
pub fn csv_chunk(items: &Vec<OverLimit>, from: usize, to: usize) -> (text: String)
    requires
        from <= to <= items.len(),
    ensures
        text@ == csv_rows(items_of(items@).subrange(from as int, to as int)),
{
    let ghost all = items_of(items@);
    let mut out: Vec<char> = Vec::new();
    let mut i: usize = from;
    assert(all.subrange(from as int, from as int) =~= Seq::empty());
    while i < to
        invariant
            from <= i <= to <= items.len(),
            all == items_of(items@),
            out@ == csv_rows(all.subrange(from as int, i as int)),
        decreases to - i,
    {
        let ghost before = out@;
        let ghost taken = all.subrange(from as int, i + 1);
        assert(taken.drop_last() =~= all.subrange(from as int, i as int));
        assert(taken.last() == items@[i as int]@);
        let mut digits = decimal_chars(items[i].size);
        let ghost number = digits@;
        out.append(&mut digits);
        out.push(';');
        out.push('"');
        escape_into(items[i].path.as_str(), &mut out);
        out.push('"');
        out.push('\n');
        assert(out@ =~= before + (number + seq![';', '"'] + csv_escaped(items@[i as int].path@) + seq![
            '"',
            '\n',
        ]));
        i = i + 1;
    }
    string_of(&out)
}

/// The report without its first line, in chunks of `CHUNK_ROWS` rows.
pub fn csv_chunks(items: &Vec<OverLimit>) -> (chunks: Vec<String>)
    ensures
        chunks@.len() == chunk_count(items@.len()),
        forall|k: int|
            0 <= k < chunks@.len() ==> (#[trigger] chunks@[k])@ == csv_rows(
                items_of(items@).subrange(k * CHUNK_ROWS, chunk_end(k, items@.len() as int)),
            ),
{
    let mut chunks: Vec<String> = Vec::new();
    let mut from: usize = 0;
    while from < items.len()
        invariant
            from <= items.len(),
            from < items.len() || items.len() == 0,
            from == chunks@.len() * CHUNK_ROWS,
            forall|k: int|
                0 <= k < chunks@.len() ==> (#[trigger] chunks@[k])@ == csv_rows(
                    items_of(items@).subrange(k * CHUNK_ROWS, chunk_end(k, items@.len() as int)),
                ),
        decreases items.len() - from,
    {
        let to = if items.len() - from > CHUNK_ROWS { from + CHUNK_ROWS } else { items.len() };
        let ghost k = chunks@.len() as int;
        assert(to == chunk_end(k, items@.len() as int));
        let chunk = csv_chunk(items, from, to);
        chunks.push(chunk);
        if to == items.len() {
            assert(chunks@.len() == chunk_count(items@.len())) by {
                assert(from < items@.len() <= from + CHUNK_ROWS);
            }
            return chunks;
        }
        from = to;
    }
    assert(items@.len() == 0);
    chunks
}

/// Where an export can fail.
#[derive(Debug, Clone, Copy, PartialEq, Eq, Structural)]
pub enum ExportStep {
    Create,
    Header,
    Chunk,
    Flush,
}

/// The beginning of the message for a failure at `step`.
pub open spec fn failure_label(step: ExportStep) -> Seq<char> {
    match step {
        ExportStep::Create => "Failed to create CSV file: "@,
        ExportStep::Header => "Failed to write CSV header: "@,
        ExportStep::Chunk => "Failed to write CSV chunk: "@,
        ExportStep::Flush => "Failed to flush CSV file: "@,
    }
}

/// The message of an export that went through.
pub open spec fn success_message(count: nat, file: Seq<char>) -> Seq<char> {
    "Exported "@ + digits_of(count) + " paths to "@ + file
}

/// The report that an export failed at `step` for `cause`.
pub fn export_failed(step: ExportStep, cause: &str) -> (message: Message)
    ensures
        message matches Message::CsvExportComplete(Err(text)) && text@ == failure_label(step) + cause@,
{
    let label = match step {
        ExportStep::Create => "Failed to create CSV file: ",
        ExportStep::Header => "Failed to write CSV header: ",
        ExportStep::Chunk => "Failed to write CSV chunk: ",
        ExportStep::Flush => "Failed to flush CSV file: ",
    };
    Message::CsvExportComplete(Err(joined(label, cause)))
}

/// The report that no file was chosen for the export.
pub fn export_cancelled() -> (message: Message)
    ensures
        message matches Message::CsvExportComplete(Err(text)) && text@ == "Export cancelled"@,
{
    Message::CsvExportComplete(Err("Export cancelled".to_owned()))
}

/// The report that `count` paths were exported to `file`.
pub fn export_succeeded(count: usize, file: &str) -> (message: Message)
    ensures
        message matches Message::CsvExportComplete(Ok(text)) && text@ == success_message(count as nat, file@),
{
    let a = joined("Exported ", decimal(count as u64).as_str());
    let b = joined(a.as_str(), " paths to ");
    Message::CsvExportComplete(Ok(joined(b.as_str(), file)))
}

} // verus!
