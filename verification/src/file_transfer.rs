//! Bidirectional file transfer: the commands of the transfer protocol, the
//! status of each transfer and the bookkeeping of running transfers.
//! Times are milliseconds since the Unix epoch.
use vstd::prelude::*;
use vstd::string::StringSliceAdditionalSpecFns;
use crate::clock::now_ms;
use crate::text::{contains_char, str_eq, to_string};

verus! {

/// A command of the transfer protocol.
#[derive(Debug, Clone, PartialEq, Eq)]
pub enum TransferCommand {
    /// Request to send a file.
    SendFile { filename: String, size: u64, path: String },
    /// Acknowledge the reception of a file.
    AckFile { filename: String, success: bool },
    /// One chunk of a file.
    FileChunk { filename: String, offset: u64, data: Vec<u8> },
    /// Cancel a transfer.
    Cancel { filename: String, reason: String },
}

/// Which way a file moves.
#[derive(Debug, Clone, Copy, PartialEq, Eq, Structural)]
pub enum TransferDirection {
    /// Android to Windows.
    Upload,
    /// Windows to Android.
    Download,
}

/// Progress of one transfer.
#[derive(Debug, Clone)]
pub struct TransferStatus {
    pub filename: String,
    pub direction: TransferDirection,
    pub bytes_transferred: u64,
    pub total_bytes: u64,
    pub started_at_ms: u64,
    pub completed_at_ms: Option<u64>,
    pub error: Option<String>,
}

/// A transfer status with its strings as character sequences.
pub struct TransferStatusView {
    pub filename: Seq<char>,
    pub direction: TransferDirection,
    pub bytes_transferred: u64,
    pub total_bytes: u64,
    pub started_at_ms: u64,
    pub completed_at_ms: Option<u64>,
    pub error: Option<Seq<char>>,
}

impl View for TransferStatus {
    type V = TransferStatusView;

    open spec fn view(&self) -> TransferStatusView {
        TransferStatusView {
            filename: self.filename@,
            direction: self.direction,
            bytes_transferred: self.bytes_transferred,
            total_bytes: self.total_bytes,
            started_at_ms: self.started_at_ms,
            completed_at_ms: self.completed_at_ms,
            error: match self.error {
                Some(e) => Some(e@),
                None => None,
            },
        }
    }
}

/// The views of a sequence of statuses.
pub open spec fn views(s: Seq<TransferStatus>) -> Seq<TransferStatusView> {
    s.map_values(|t: TransferStatus| t@)
}

/// Whole seconds from `from` to `to`, zero when `to` is earlier.
pub open spec fn elapsed_secs(from: u64, to: u64) -> int {
    if to >= from {
        (to - from) / 1000
    } else {
        0
    }
}

/// Bits per second over the whole seconds elapsed since the start, zero
/// before a full second has passed.
pub open spec fn spec_speed_bps(st: TransferStatusView, now: u64) -> int {
    if elapsed_secs(st.started_at_ms, now) == 0 {
        0
    } else {
        (st.bytes_transferred * 8) / elapsed_secs(st.started_at_ms, now)
    }
}

impl TransferStatus {
    /// Every byte has been transferred.
    pub fn is_complete(&self) -> (r: bool)
        ensures
            r == (self.bytes_transferred >= self.total_bytes),
    {
        self.bytes_transferred >= self.total_bytes
    }

    /// Transfer speed in bits per second, measured at the current time.
    pub fn speed_bps(&self) -> (r: u64)
        requires
            self.bytes_transferred * 8 <= u64::MAX,
        ensures
            exists|now: u64| r == spec_speed_bps(self@, now),
    {
        self.speed_bps_at(now_ms())
    }

    /// Transfer speed in bits per second at time `now`.
    pub fn speed_bps_at(&self, now: u64) -> (r: u64)
        requires
            self.bytes_transferred * 8 <= u64::MAX,
        ensures
            r == spec_speed_bps(self@, now),
    {
        let secs: u64 = if now >= self.started_at_ms {
            (now - self.started_at_ms) / 1000
        } else {
            0
        };
        if secs == 0 {
            return 0;
        }
        (self.bytes_transferred * 8) / secs
    }

    /// A copy of the status.
    pub fn duplicate(&self) -> (r: Self)
        ensures
            r == *self,
            r@ == self@,
    {
        let error = match &self.error {
            Some(e) => Some(e.clone()),
            None => None,
        };
        TransferStatus {
            filename: self.filename.clone(),
            direction: self.direction,
            bytes_transferred: self.bytes_transferred,
            total_bytes: self.total_bytes,
            started_at_ms: self.started_at_ms,
            completed_at_ms: self.completed_at_ms,
            error,
        }
    }
}

/// How many transfers may run at once.
pub const MAX_CONCURRENT_TRANSFERS: usize = 3;

/// `i` is the first transfer of `s` with this file name.
pub open spec fn is_first_named(s: Seq<TransferStatusView>, name: Seq<char>, i: int) -> bool {
    &&& 0 <= i < s.len()
    &&& s[i].filename == name
    &&& forall|j: int| 0 <= j < i ==> s[j].filename != name
}

/// Some transfer of `s` has this file name.
pub open spec fn has_named(s: Seq<TransferStatusView>, name: Seq<char>) -> bool {
    exists|i: int| 0 <= i < s.len() && s[i].filename == name
}

/// The status marked completed at `now`.
pub open spec fn completed_at(st: TransferStatusView, now: u64) -> TransferStatusView {
    TransferStatusView { completed_at_ms: Some(now), ..st }
}

/// The status marked failed with `error` at `now`.
pub open spec fn failed_at(st: TransferStatusView, error: Seq<char>, now: u64) -> TransferStatusView {
    TransferStatusView { completed_at_ms: Some(now), error: Some(error), ..st }
}

/// A transfer is kept by a clean-up at `now` while it runs or completed
/// less than `max_age_ms` ago.
pub open spec fn kept(st: TransferStatusView, max_age_ms: u64, now: u64) -> bool {
    match st.completed_at_ms {
        Some(done) => (if now >= done { now - done } else { 0 }) < max_age_ms,
        None => true,
    }
}

/// The transfers of `s` a clean-up at `now` keeps, in order.
pub open spec fn cleaned_up(s: Seq<TransferStatusView>, max_age_ms: u64, now: u64) -> Seq<TransferStatusView> {
    s.filter(|st: TransferStatusView| kept(st, max_age_ms, now))
}

/// The transfer started for a request to send `filename` of `size` bytes.
pub open spec fn started_upload(filename: Seq<char>, size: u64, now: u64) -> TransferStatusView {
    TransferStatusView {
        filename,
        direction: TransferDirection::Upload,
        bytes_transferred: 0,
        total_bytes: size,
        started_at_ms: now,
        completed_at_ms: None,
        error: None,
    }
}

/// The transfers in progress or recently finished.
#[derive(Debug)]
pub struct TransferManager {
    transfers: Vec<TransferStatus>,
    download_dir: String,
    max_concurrent: usize,
}

impl TransferManager {
    /// The transfers, oldest first.
    pub closed spec fn statuses(&self) -> Seq<TransferStatusView> {
        views(self.transfers@)
    }

    /// The directory received files go to.
    pub closed spec fn spec_download_dir(&self) -> Seq<char> {
        self.download_dir@
    }

    /// At most the allowed number of transfers are held.
    pub closed spec fn wf(&self) -> bool {
        &&& self.max_concurrent == MAX_CONCURRENT_TRANSFERS
        &&& self.transfers@.len() <= MAX_CONCURRENT_TRANSFERS
    }

    /// A well-formed manager holds at most the allowed number of transfers.
    pub proof fn lemma_bounded(&self)
        requires
            self.wf(),
        ensures
            self.statuses().len() <= MAX_CONCURRENT_TRANSFERS,
    {
    }

    pub fn new(download_dir: &str) -> (r: Self)
        ensures
            r.wf(),
            r.statuses() == Seq::<TransferStatusView>::empty(),
            r.spec_download_dir() == download_dir@,
    {
        let r = TransferManager { transfers: Vec::new(), download_dir: to_string(download_dir), max_concurrent: MAX_CONCURRENT_TRANSFERS };
        assert(r.statuses() =~= Seq::<TransferStatusView>::empty());
        r
    }

    /// The directory received files go to.
    pub fn download_dir(&self) -> (r: &str)
        ensures
            r@ == self.spec_download_dir(),
    {
        self.download_dir.as_str()
    }

    fn find(&self, filename: &str) -> (r: Option<usize>)
        ensures
            r matches Some(i) ==> is_first_named(self.statuses(), filename@, i as int),
            r is None ==> !has_named(self.statuses(), filename@),
    {
        let mut i: usize = 0;
        while i < self.transfers.len()
            invariant
                i <= self.transfers@.len(),
                forall|j: int| 0 <= j < i ==> self.statuses()[j].filename != filename@,
                self.statuses().len() == self.transfers@.len(),
            decreases self.transfers@.len() - i,
        {
            assert(self.statuses()[i as int] == self.transfers@[i as int]@);
            if str_eq(self.transfers[i].filename.as_str(), filename) {
                return Some(i);
            }
            i = i + 1;
        }
        None
    }

    /// Handles a transfer command at the current time; see `start_transfer_at`.
    pub fn start_transfer(&mut self, cmd: TransferCommand) -> (r: Result<(), String>)
        requires
            old(self).wf(),
        ensures
            final(self).wf(),
            exists|now: u64| start_outcome(*old(self), cmd, now, *final(self), r),
    {
        self.start_transfer_at(cmd, now_ms())
    }

    /// Handles a transfer command at time `now`. A request to send a file
    /// starts an upload unless the allowed number of transfers are already
    /// held; the other commands change nothing.
    pub fn start_transfer_at(&mut self, cmd: TransferCommand, now: u64) -> (r: Result<(), String>)
        requires
            old(self).wf(),
        ensures
            final(self).wf(),
            start_outcome(*old(self), cmd, now, *final(self), r),
    {
        match cmd {
            TransferCommand::SendFile { filename, size, path } => {
                if self.transfers.len() >= self.max_concurrent {
                    return Err(to_string("Maximum concurrent transfers reached"));
                }
                let status = TransferStatus {
                    filename,
                    direction: TransferDirection::Upload,
                    bytes_transferred: 0,
                    total_bytes: size,
                    started_at_ms: now,
                    completed_at_ms: None,
                    error: None,
                };
                self.transfers.push(status);
                assert(self.statuses() =~= old(self).statuses().push(status@));
                Ok(())
            },
            _ => Ok(()),
        }
    }

    /// A copy of the first transfer of `filename`, if any.
    pub fn get_status(&self, filename: &str) -> (r: Option<TransferStatus>)
        ensures
            r is None <==> !has_named(self.statuses(), filename@),
            r matches Some(st) ==> exists|i: int| is_first_named(self.statuses(), filename@, i) && st@ == self.statuses()[i],
    {
        match self.find(filename) {
            Some(i) => {
                let st = self.transfers[i].duplicate();
                assert(st@ == self.statuses()[i as int]);
                Some(st)
            },
            None => None,
        }
    }

    /// Copies of all transfers, oldest first.
    pub fn get_all_statuses(&self) -> (r: Vec<TransferStatus>)
        ensures
            views(r@) == self.statuses(),
    {
        let mut out: Vec<TransferStatus> = Vec::new();
        let mut i: usize = 0;
        while i < self.transfers.len()
            invariant
                i <= self.transfers@.len(),
                out@ == self.transfers@.subrange(0, i as int),
            decreases self.transfers@.len() - i,
        {
            out.push(self.transfers[i].duplicate());
            i = i + 1;
            assert(out@ =~= self.transfers@.subrange(0, i as int));
        }
        assert(out@ =~= self.transfers@);
        out
    }

    /// Marks the first transfer of `filename` completed now.
    pub fn complete_transfer(&mut self, filename: &str) -> (r: Result<(), String>)
        requires
            old(self).wf(),
        ensures
            final(self).wf(),
            r is Ok,
            exists|now: u64| #[trigger] completed_outcome(old(self).statuses(), filename@, now, final(self).statuses()),
    {
        self.complete_transfer_at(filename, now_ms())
    }

    /// Marks the first transfer of `filename` completed at `now`; without
    /// such a transfer nothing changes.
    pub fn complete_transfer_at(&mut self, filename: &str, now: u64) -> (r: Result<(), String>)
        requires
            old(self).wf(),
        ensures
            final(self).wf(),
            r is Ok,
            completed_outcome(old(self).statuses(), filename@, now, final(self).statuses()),
    {
        match self.find(filename) {
            Some(i) => {
                let mut st = self.transfers.remove(i);
                st.completed_at_ms = Some(now);
                self.transfers.insert(i, st);
                assert(self.statuses() =~= old(self).statuses().update(i as int, completed_at(old(self).statuses()[i as int], now)));
            },
            None => {},
        }
        Ok(())
    }

    /// Marks the first transfer of `filename` failed with `error` now.
    pub fn error_transfer(&mut self, filename: &str, error: &str) -> (r: Result<(), String>)
        requires
            old(self).wf(),
        ensures
            final(self).wf(),
            r is Ok,
            exists|now: u64| #[trigger] failed_outcome(old(self).statuses(), filename@, error@, now, final(self).statuses()),
    {
        self.error_transfer_at(filename, error, now_ms())
    }

    /// Marks the first transfer of `filename` failed with `error` at `now`;
    /// without such a transfer nothing changes.
    pub fn error_transfer_at(&mut self, filename: &str, error: &str, now: u64) -> (r: Result<(), String>)
        requires
            old(self).wf(),
        ensures
            final(self).wf(),
            r is Ok,
            failed_outcome(old(self).statuses(), filename@, error@, now, final(self).statuses()),
    {
        match self.find(filename) {
            Some(i) => {
                let mut st = self.transfers.remove(i);
                st.error = Some(to_string(error));
                st.completed_at_ms = Some(now);
                self.transfers.insert(i, st);
                assert(self.statuses() =~= old(self).statuses().update(
                    i as int,
                    failed_at(old(self).statuses()[i as int], error@, now),
                ));
            },
            None => {},
        }
        Ok(())
    }

    /// Drops, at the current time, the transfers that completed at least
    /// `max_age_ms` ago.
    pub fn cleanup_completed(&mut self, max_age_ms: u64)
        requires
            old(self).wf(),
        ensures
            final(self).wf(),
            exists|now: u64| final(self).statuses() == #[trigger] cleaned_up(old(self).statuses(), max_age_ms, now),
    {
        self.cleanup_completed_at(max_age_ms, now_ms())
    }

    /// Drops the transfers that completed at least `max_age_ms` before
    /// `now`, keeping the order of the others.
    pub fn cleanup_completed_at(&mut self, max_age_ms: u64, now: u64)
        requires
            old(self).wf(),
        ensures
            final(self).wf(),
            final(self).statuses() == cleaned_up(old(self).statuses(), max_age_ms, now),
    {
        let ghost pred = |st: TransferStatusView| kept(st, max_age_ms, now);
        let ghost sv = self.statuses();
        let mut out: Vec<TransferStatus> = Vec::new();
        let mut i: usize = 0;
        while i < self.transfers.len()
            invariant
                sv == views(self.transfers@),
                i <= self.transfers@.len(),
                views(out@) == sv.subrange(0, i as int).filter(pred),
                pred == (|st: TransferStatusView| kept(st, max_age_ms, now)),
            decreases self.transfers@.len() - i,
        {
            let keep = match self.transfers[i].completed_at_ms {
                Some(done) => {
                    let age: u64 = if now >= done { now - done } else { 0 };
                    age < max_age_ms
                },
                None => true,
            };
            proof {
                reveal(Seq::filter);
            }
            assert(sv.subrange(0, i + 1).drop_last() =~= sv.subrange(0, i as int));
            assert(sv.subrange(0, i + 1).last() == self.transfers@[i as int]@);
            assert(keep == pred(self.transfers@[i as int]@));
            if keep {
                let ghost before = out@;
                out.push(self.transfers[i].duplicate());
                assert(views(out@) =~= views(before).push(self.transfers@[i as int]@));
            }
            i = i + 1;
        }
        assert(sv.subrange(0, sv.len() as int) =~= sv);
        self.transfers = out;
    }
}

/// What handling `cmd` at `now` does to a manager `m`, giving `m2` and `r`.
pub open spec fn start_outcome(
    m: TransferManager,
    cmd: TransferCommand,
    now: u64,
    m2: TransferManager,
    r: Result<(), String>,
) -> bool {
    match cmd {
        TransferCommand::SendFile { filename, size, path } => if m.statuses().len() >= MAX_CONCURRENT_TRANSFERS {
            &&& r matches Err(e) && e@ == "Maximum concurrent transfers reached"@
            &&& m2.statuses() == m.statuses()
            &&& m2.spec_download_dir() == m.spec_download_dir()
        } else {
            &&& r is Ok
            &&& m2.statuses() == m.statuses().push(started_upload(filename@, size, now))
            &&& m2.spec_download_dir() == m.spec_download_dir()
        },
        _ => {
            &&& r is Ok
            &&& m2.statuses() == m.statuses()
            &&& m2.spec_download_dir() == m.spec_download_dir()
        },
    }
}

/// A started upload is found again by its file name, and completing or
/// failing a transfer keeps every file name and the number of transfers.
pub proof fn transfer_laws(
    m: TransferManager,
    m2: TransferManager,
    filename: String,
    size: u64,
    path: String,
    now: u64,
    s2: Seq<TransferStatusView>,
    error: Seq<char>,
)
    requires
        start_outcome(m, TransferCommand::SendFile { filename, size, path }, now, m2, Ok(())),
    ensures
        has_named(m2.statuses(), filename@),
        completed_outcome(m.statuses(), filename@, now, s2) ==> s2.len() == m.statuses().len()
            && forall|i: int| 0 <= i < s2.len() ==> s2[i].filename == m.statuses()[i].filename,
        failed_outcome(m.statuses(), filename@, error, now, s2) ==> s2.len() == m.statuses().len()
            && forall|i: int| 0 <= i < s2.len() ==> s2[i].filename == m.statuses()[i].filename,
{
    let last = m2.statuses().len() - 1;
    assert(m2.statuses()[last].filename == filename@);
}

/// The first transfer of `name` in `s` is marked completed at `now`, giving `s2`.
pub open spec fn completed_outcome(s: Seq<TransferStatusView>, name: Seq<char>, now: u64, s2: Seq<TransferStatusView>) -> bool {
    if has_named(s, name) {
        exists|i: int| is_first_named(s, name, i) && s2 == s.update(i, completed_at(s[i], now))
    } else {
        s2 == s
    }
}

/// The first transfer of `name` in `s` is marked failed at `now`, giving `s2`.
pub open spec fn failed_outcome(
    s: Seq<TransferStatusView>,
    name: Seq<char>,
    error: Seq<char>,
    now: u64,
    s2: Seq<TransferStatusView>,
) -> bool {
    if has_named(s, name) {
        exists|i: int| is_first_named(s, name, i) && s2 == s.update(i, failed_at(s[i], error, now))
    } else {
        s2 == s
    }
}

/// Chunk size for file transfer (1 MiB).
pub const CHUNK_SIZE: usize = 1_048_576;

/// Maximum file size (10 GiB).
pub const MAX_FILE_SIZE: u64 = 10_737_418_240;

/// Longest accepted file name, in bytes.
pub const MAX_FILENAME_BYTES: usize = 255;

/// Characters a file name may not hold.
pub open spec fn is_invalid_filename_char(c: char) -> bool {
    c == '<' || c == '>' || c == ':' || c == '"' || c == '|' || c == '?' || c == '*'
}

/// Why a transfer request is refused, if it is.
pub open spec fn transfer_request_error(filename: &str, size: u64) -> Option<Seq<char>> {
    if filename.spec_bytes().len() > MAX_FILENAME_BYTES {
        Some("Filename too long (max 255 characters)"@)
    } else if size > MAX_FILE_SIZE {
        Some("File too large (max 10.74 GB)"@)
    } else if exists|i: int| 0 <= i < filename@.len() && is_invalid_filename_char(filename@[i]) {
        Some("Filename contains invalid characters"@)
    } else {
        None
    }
}

/// Checks a transfer request: the name fits in 255 bytes, the size is at
/// most `MAX_FILE_SIZE`, and the name holds none of `< > : " | ? *`.
pub fn validate_transfer_request(filename: &str, size: u64) -> (r: Result<(), String>)
    ensures
        transfer_request_error(filename, size) is None ==> r is Ok,
        transfer_request_error(filename, size) matches Some(msg) ==> (r matches Err(e) && e@ == msg),
{
    if filename.as_bytes().len() > MAX_FILENAME_BYTES {
        return Err(to_string("Filename too long (max 255 characters)"));
    }
    if size > MAX_FILE_SIZE {
        return Err(to_string("File too large (max 10.74 GB)"));
    }
    let bad = contains_char(filename, '<') || contains_char(filename, '>') || contains_char(filename, ':')
        || contains_char(filename, '"') || contains_char(filename, '|') || contains_char(filename, '?')
        || contains_char(filename, '*');
    if bad {
        return Err(to_string("Filename contains invalid characters"));
    }
    assert(!(exists|i: int| 0 <= i < filename@.len() && is_invalid_filename_char(filename@[i]))) by {
        if exists|i: int| 0 <= i < filename@.len() && is_invalid_filename_char(filename@[i]) {
            let i = choose|i: int| 0 <= i < filename@.len() && is_invalid_filename_char(filename@[i]);
            assert(filename@.contains(filename@[i]));
        }
    }
    Ok(())
}

/// A request with a name that fits and an allowed size is refused for its
/// characters exactly when the name holds one of `<`, `>`, `:`, `"`, `|`,
/// `?` or `*`, wherever in the name it stands; otherwise it is accepted.
pub proof fn filename_character_law(filename: &str, size: u64, i: int)
    requires
        filename.spec_bytes().len() <= MAX_FILENAME_BYTES,
        size <= MAX_FILE_SIZE,
    ensures
        0 <= i < filename@.len() && (filename@[i] == '<' || filename@[i] == '>' || filename@[i] == ':'
            || filename@[i] == '"' || filename@[i] == '|' || filename@[i] == '?' || filename@[i] == '*')
            ==> transfer_request_error(filename, size) == Some("Filename contains invalid characters"@),
        (forall|j: int|
            0 <= j < filename@.len() ==> filename@[j] != '<' && filename@[j] != '>' && filename@[j] != ':'
                && filename@[j] != '"' && filename@[j] != '|' && filename@[j] != '?' && filename@[j] != '*')
            ==> transfer_request_error(filename, size) is None,
{
    if 0 <= i < filename@.len() && (filename@[i] == '<' || filename@[i] == '>' || filename@[i] == ':'
        || filename@[i] == '"' || filename@[i] == '|' || filename@[i] == '?' || filename@[i] == '*') {
        assert(is_invalid_filename_char(filename@[i]));
    }
}

} // verus!
