//! Reading the cause of an empty turn out of the logs that `agy` keeps.
use vstd::prelude::*;
use vstd::utf8::*;

use crate::outside;
use crate::table::Table;
use crate::text;

verus! {

/// The cap on how many bytes of one log are scanned. `agy` logs its errors at
/// the end, so of a large burst only the newest part is read.
pub const MAX_LOG_SCAN_BYTES: u64 = 256 * 1024;

/// The cap on the length of an error message, in bytes.
pub const MAX_MESSAGE_BYTES: usize = 500;

/// Cuts `s` to at most `max` bytes, and never inside a character.
pub fn truncate_to_byte_boundary(s: &mut String, max: usize)
    ensures
        final(s)@ == text::truncated(old(s)@, max as nat),
{
    let c: Vec<char> = text::chars_of(s.as_str());
    let mut bytes: usize = s.as_str().as_bytes().len();
    let mut k: usize = c.len();
    let ghost all = s@;
    assert(all.take(k as int) =~= all);
    while bytes > max
        invariant
            k <= c.len(),
            c@ == all,
            bytes == encode_utf8(all.take(k as int)).len(),
            text::truncated(all.take(k as int), max as nat) == text::truncated(all, max as nat),
        decreases k,
    {
        proof {
            if k == 0 {
                assert(all.take(0) =~= Seq::empty());
            }
        }
        k = k - 1;
        let w: usize = text::utf8_width(c[k]);
        proof {
            assert(all.take(k + 1) =~= all.take(k as int) + seq![all[k as int]]);
            text::lemma_encode_concat(all.take(k as int), seq![all[k as int]]);
            assert(all.take(k + 1).drop_last() =~= all.take(k as int));
        }
        bytes = bytes - w;
    }
    if k < c.len() {
        let cut: String = text::piece(s.as_str(), 0, k);
        assert(cut@ =~= all.take(k as int));
        *s = cut;
    } else {
        assert(all.take(k as int) =~= all);
    }
}

/// The last of `ls` that holds `anchor`.
pub open spec fn last_line_with(ls: Seq<Seq<char>>, anchor: Seq<char>) -> Option<Seq<char>>
    decreases ls.len(),
{
    if ls.len() == 0 {
        None
    } else if text::contains(ls.last(), anchor) {
        Some(ls.last())
    } else {
        last_line_with(ls.drop_last(), anchor)
    }
}

/// `msg` up to and with the full stop of its first `".: "`: the logger wraps
/// an error in itself, as `<msg>.: <msg>`.
pub open spec fn unwrapped(msg: Seq<char>) -> Seq<char> {
    match text::find(msg, ".: "@) {
        Some(i) => msg.take(i).push('.'),
        None => msg,
    }
}

/// The error that `line` reports from `anchor` on.
pub open spec fn error_text(line: Seq<char>, anchor: Seq<char>) -> Seq<char> {
    let tail = text::trim(line.skip(text::find(line, anchor)->0));
    text::truncated(unwrapped(tail), MAX_MESSAGE_BYTES as nat)
}

/// The error that the last line with `anchor` reports.
pub open spec fn anchored_error(ls: Seq<Seq<char>>, anchor: Seq<char>) -> Option<Seq<char>> {
    match last_line_with(ls, anchor) {
        Some(line) => Some(error_text(line, anchor)),
        None => None,
    }
}

/// The error that a log reports: by the most specific anchor that it holds,
/// and by the last line that holds it.
pub open spec fn error_message(content: Seq<char>) -> Option<Seq<char>> {
    let ls = text::lines(content);
    if anchored_error(ls, "agent executor error:"@) is Some {
        anchored_error(ls, "agent executor error:"@)
    } else if anchored_error(ls, "model unreachable:"@) is Some {
        anchored_error(ls, "model unreachable:"@)
    } else {
        anchored_error(ls, "RESOURCE_EXHAUSTED"@)
    }
}

/// The error that the last line of `content` with `anchor` reports.
fn find_anchored(
    content: &str,
    c: &Vec<char>,
    ranges: &Vec<(usize, usize)>,
    anchor: &str,
) -> (r: Option<String>)
    requires
        c@ == content@,
        text::cuts(c@, ranges@) == text::lines(c@),
        forall|i: int|
            0 <= i < ranges.len() ==> (#[trigger] ranges@[i]).0 <= ranges@[i].1 <= c.len(),
        anchor@.len() > 0,
    ensures
        text::opt_text(r) == anchored_error(text::lines(content@), anchor@),
{
    let a: Vec<char> = text::chars_of(anchor);
    proof {
        reveal_strlit(".: ");
    }
    let wrap: Vec<char> = text::chars_of(".: ");
    let ghost ls = text::lines(content@);
    let mut i: usize = ranges.len();
    assert(ls.take(i as int) =~= ls);
    while i > 0
        invariant
            i <= ranges.len(),
            c@ == content@,
            a@ == anchor@,
            a.len() > 0,
            wrap@ == ".: "@,
            wrap.len() > 0,
            ls == text::lines(content@),
            text::cuts(c@, ranges@) == ls,
            forall|i: int|
                0 <= i < ranges.len() ==> (#[trigger] ranges@[i]).0 <= ranges@[i].1 <= c.len(),
            last_line_with(ls.take(i as int), anchor@) == last_line_with(ls, anchor@),
        decreases i,
    {
        i = i - 1;
        let (from, to) = ranges[i];
        let ghost line = ls[i as int];
        assert(line == c@.subrange(from as int, to as int));
        assert(ls.take(i + 1).last() == line);
        assert(ls.take(i + 1).drop_last() =~= ls.take(i as int));
        if let Some(at) = text::find_in(c, from, to, &a) {
            let start: usize = text::skip_white(c, at, to);
            let end: usize = text::skip_white_back(c, start, to);
            proof {
                assert(line.skip(at - from) =~= c@.subrange(at as int, to as int));
            }
            let mut msg: String;
            if let Some(cut) = text::find_in(c, start, end, &wrap) {
                msg = text::piece(content, start, cut);
                msg.append(".");
                proof {
                    reveal_strlit(".");
                    let tail = c@.subrange(start as int, end as int);
                    assert(msg@ =~= tail.take(cut - start).push('.'));
                }
            } else {
                msg = text::piece(content, start, end);
            }
            truncate_to_byte_boundary(&mut msg, MAX_MESSAGE_BYTES);
            return Some(msg);
        }
    }
    assert(ls.take(0) =~= Seq::empty());
    None
}

/// The clean, single-line error that the content of a `cli-*.log` reports.
///
/// `agy` logs an error as `E0707 08:34:23.910604  84 log.go:398] <msg>`, and
/// wraps it in itself as `<msg>.: <msg>`. The most specific anchor wins, and
/// of its lines the last one, since retries log the same anchor.
pub fn extract_agy_error_message(content: &str) -> (r: Option<String>)
    ensures
        text::opt_text(r) == error_message(content@),
{
    let c: Vec<char> = text::chars_of(content);
    let ranges: Vec<(usize, usize)> = text::line_ranges(&c);
    proof {
        reveal_strlit("agent executor error:");
        reveal_strlit("model unreachable:");
        reveal_strlit("RESOURCE_EXHAUSTED");
    }
    let first: Option<String> = find_anchored(content, &c, &ranges, "agent executor error:");
    if first.is_some() {
        return first;
    }
    let second: Option<String> = find_anchored(content, &c, &ranges, "model unreachable:");
    if second.is_some() {
        return second;
    }
    find_anchored(content, &c, &ranges, "RESOURCE_EXHAUSTED")
}

/// The error, as a code and a message, with which a turn is answered instead of
/// a result.
pub open spec fn turn_error(
    was_cancelled: bool,
    status_success: bool,
    had_updates: bool,
    status_display: Seq<char>,
    stderr_text: Seq<char>,
    swallowed_error: Option<Seq<char>>,
) -> Option<(i32, Seq<char>)> {
    if was_cancelled || had_updates {
        None
    } else if !status_success {
        if stderr_text.len() == 0 {
            Some((-32000i32, "agy exited with status: "@ + status_display))
        } else {
            Some((-32000i32, "agy failed: "@ + text::trim_end(stderr_text)))
        }
    } else {
        match swallowed_error {
            Some(details) => Some((-32603i32, details)),
            None => None,
        }
    }
}

/// A code and the text of its message.
pub open spec fn opt_error(r: Option<(i32, String)>) -> Option<(i32, Seq<char>)> {
    match r {
        Some((code, message)) => Some((code, message@)),
        None => None,
    }
}

/// Decides whether a turn is answered with an error instead of a stop reason.
///
/// A turn that was cancelled, or that passed something on to the client, is
/// not. `swallowed_error` is what the logs say of a turn that ended well but
/// left nothing.
pub fn decide_turn_error(
    was_cancelled: bool,
    status_success: bool,
    had_updates: bool,
    status_display: &str,
    stderr_text: &str,
    swallowed_error: Option<&str>,
) -> (r: Option<(i32, String)>)
    ensures
        opt_error(r) == turn_error(
            was_cancelled,
            status_success,
            had_updates,
            status_display@,
            stderr_text@,
            text::opt_str(swallowed_error),
        ),
{
    if was_cancelled || had_updates {
        return None;
    }
    if !status_success {
        let mut msg: String;
        if stderr_text.is_empty() {
            msg = "agy exited with status: ".to_owned();
            msg.append(status_display);
        } else {
            msg = "agy failed: ".to_owned();
            let trimmed: String = text::trimmed_end(stderr_text);
            msg.append(trimmed.as_str());
        }
        return Some((-32000, msg));
    }
    match swallowed_error {
        Some(details) => Some((-32603, details.to_owned())),
        None => None,
    }
}

/// What a process has written, as text.
pub fn output_text(bytes: &[u8]) -> (r: String)
    ensures
        r@ == outside::utf8_lossy(bytes@),
        valid_utf8(bytes@) ==> r@ == decode_utf8(bytes@),
{
    outside::decode_lossy(bytes)
}

/// The logs are worth a look.
pub open spec fn logs_matter(was_cancelled: bool, status_success: bool, had_updates: bool) -> bool {
    !was_cancelled && status_success && !had_updates
}

/// Whether the logs are worth a look: `agy` ends well and says nothing when the
/// model backend fails, and leaves the cause in its own log alone.
pub fn should_scan_logs(was_cancelled: bool, status_success: bool, had_updates: bool) -> (r: bool)
    ensures
        r == logs_matter(was_cancelled, status_success, had_updates),
{
    !was_cancelled && status_success && !had_updates
}

/// The name of one of agy's command line logs.
pub open spec fn cli_log(name: Seq<char>) -> bool {
    text::starts_with(name, "cli-"@) && text::ends_with(name, ".log"@)
}

/// Whether `name` is that of one of agy's command line logs.
pub fn is_agy_cli_log(name: &str) -> (r: bool)
    ensures
        r == cli_log(name@),
{
    text::has_prefix(name, "cli-") && text::has_suffix(name, ".log")
}

/// A point in time: seconds since the epoch, and nanoseconds on top.
#[derive(Debug, Clone, Copy, PartialEq, Eq)]
pub struct LogTime {
    pub secs: i64,
    pub nanos: u32,
}

impl LogTime {
    /// Nanoseconds since the epoch.
    pub open spec fn instant(self) -> int {
        self.secs * 1_000_000_000 + self.nanos
    }

    /// Nanoseconds since the epoch.
    pub fn as_nanos(&self) -> (r: i128)
        ensures
            r == self.instant(),
    {
        self.secs as i128 * 1_000_000_000 + self.nanos as i128
    }
}

/// A file in the log directory.
#[derive(Debug)]
pub struct LogFile {
    pub name: String,
    pub len: u64,
    /// When it was last written to, where that can be read.
    pub modified: Option<LogTime>,
}

/// What is known of a file in the log directory.
#[verifier::ext_equal]
pub struct LogFileView {
    pub name: Seq<char>,
    pub len: u64,
    pub modified: Option<LogTime>,
}

impl View for LogFile {
    type V = LogFileView;

    open spec fn view(&self) -> LogFileView {
        LogFileView { name: self.name@, len: self.len, modified: self.modified }
    }
}

/// What is known of each of `files`.
pub open spec fn file_views(files: Seq<LogFile>) -> Seq<LogFileView> {
    files.map_values(|f: LogFile| f@)
}

/// The sizes of the command line logs among `files`, by name.
pub open spec fn log_sizes(files: Seq<LogFileView>) -> Map<Seq<char>, u64>
    decreases files.len(),
{
    if files.len() == 0 {
        Map::empty()
    } else if cli_log(files.last().name) {
        log_sizes(files.drop_last()).insert(files.last().name, files.last().len)
    } else {
        log_sizes(files.drop_last())
    }
}

/// The sizes of agy's logs before a turn, so that afterwards only what was
/// appended is scanned.
pub fn snapshot_agy_logs(files: &Vec<LogFile>) -> (r: Table<u64>)
    ensures
        r@ == log_sizes(file_views(files@)),
{
    let mut r: Table<u64> = Table::new();
    let mut i: usize = 0;
    let ghost views = file_views(files@);
    assert(views.take(0) =~= Seq::empty());
    while i < files.len()
        invariant
            i <= files.len(),
            views == file_views(files@),
            r@ == log_sizes(views.take(i as int)),
        decreases files.len() - i,
    {
        assert(views.take(i + 1).drop_last() =~= views.take(i as int));
        assert(views.take(i + 1).last() == files@[i as int]@);
        if is_agy_cli_log(files[i].name.as_str()) {
            r.insert(files[i].name.clone(), files[i].len);
        }
        i = i + 1;
    }
    assert(views.take(files.len() as int) =~= views);
    r
}

/// Where in the file the bytes begin that a turn appended.
pub open spec fn turn_offset(name: Seq<char>, sizes: Map<Seq<char>, u64>) -> u64 {
    if sizes.contains_key(name) {
        sizes[name]
    } else {
        0
    }
}

/// A command line log to which the turn appended something.
pub open spec fn grown(file: LogFileView, sizes: Map<Seq<char>, u64>) -> bool {
    cli_log(file.name) && file.len > turn_offset(file.name, sizes)
}

/// Where in the file the bytes begin that a turn appended.
fn offset_in(name: &str, sizes: &Table<u64>) -> (r: u64)
    ensures
        r == turn_offset(name@, sizes@),
{
    match sizes.get(name) {
        Some(size) => *size,
        None => 0,
    }
}

/// Whether `file` is a command line log to which the turn appended something,
/// where `sizes` are the sizes before the turn.
pub fn has_grown(file: &LogFile, sizes: &Table<u64>) -> (r: bool)
    ensures
        r == grown(file@, sizes@),
{
    is_agy_cli_log(file.name.as_str()) && file.len > offset_in(file.name.as_str(), sizes)
}

/// More than one second before `spawn_time`. A second of imprecision is
/// tolerated, since some file systems cut the time to whole seconds.
pub open spec fn stale(modified: LogTime, spawn_time: LogTime) -> bool {
    modified.instant() + 1_000_000_000 < spawn_time.instant()
}

/// A log that the scan of a turn reads.
#[derive(Debug)]
pub struct LogCandidate {
    pub name: String,
    pub modified: LogTime,
    /// Where the bytes of the turn begin.
    pub offset: u64,
    pub len: u64,
}

/// What is known of a log that the scan reads.
#[verifier::ext_equal]
pub struct CandidateView {
    pub name: Seq<char>,
    pub modified: LogTime,
    pub offset: u64,
    pub len: u64,
}

impl View for LogCandidate {
    type V = CandidateView;

    open spec fn view(&self) -> CandidateView {
        CandidateView {
            name: self.name@,
            modified: self.modified,
            offset: self.offset,
            len: self.len,
        }
    }
}

/// What is known of each of `candidates`.
pub open spec fn candidate_views(candidates: Seq<LogCandidate>) -> Seq<CandidateView> {
    candidates.map_values(|c: LogCandidate| c@)
}

/// The candidate that a file is: a log that grew during the turn and was last
/// written to no earlier than the turn's own child was spawned.
pub open spec fn candidate_of(
    file: LogFileView,
    sizes: Map<Seq<char>, u64>,
    spawn_time: LogTime,
) -> Option<CandidateView> {
    match file.modified {
        Some(modified) => if grown(file, sizes) && !stale(modified, spawn_time) {
            Some(
                CandidateView {
                    name: file.name,
                    modified,
                    offset: turn_offset(file.name, sizes),
                    len: file.len,
                },
            )
        } else {
            None
        },
        None => None,
    }
}

/// The candidates among `files`, in the order of `files`.
pub open spec fn candidates_of(
    files: Seq<LogFileView>,
    sizes: Map<Seq<char>, u64>,
    spawn_time: LogTime,
) -> Seq<CandidateView>
    decreases files.len(),
{
    if files.len() == 0 {
        Seq::empty()
    } else {
        let before = candidates_of(files.drop_last(), sizes, spawn_time);
        match candidate_of(files.last(), sizes, spawn_time) {
            Some(c) => before.push(c),
            None => before,
        }
    }
}

/// No candidate was written to later than one before it.
pub open spec fn newest_first(s: Seq<CandidateView>) -> bool {
    forall|i: int, j: int|
        0 <= i < j < s.len() ==> s[i].modified.instant() >= s[j].modified.instant()
}

/// The candidates of `s` that were last written to at `t`, in order.
pub open spec fn written_at(s: Seq<CandidateView>, t: int) -> Seq<CandidateView>
    decreases s.len(),
{
    if s.len() == 0 {
        Seq::empty()
    } else if s.last().modified.instant() == t {
        written_at(s.drop_last(), t).push(s.last())
    } else {
        written_at(s.drop_last(), t)
    }
}

/// `sorted` holds what `s` holds, the newest first, and in the order of `s`
/// where the time is the same.
pub open spec fn sorted_newest_first(s: Seq<CandidateView>, sorted: Seq<CandidateView>) -> bool {
    newest_first(sorted) && forall|t: int| #[trigger] written_at(sorted, t) == written_at(s, t)
}

proof fn lemma_written_at_concat(a: Seq<CandidateView>, b: Seq<CandidateView>, t: int)
    ensures
        written_at(a + b, t) == written_at(a, t) + written_at(b, t),
    decreases b.len(),
{
    if b.len() == 0 {
        assert(a + b =~= a);
        assert(written_at(a, t) + written_at(b, t) =~= written_at(a, t));
    } else {
        lemma_written_at_concat(a, b.drop_last(), t);
        assert((a + b).drop_last() =~= a + b.drop_last());
        assert((a + b).last() == b.last());
        assert(written_at(a + b, t) =~= written_at(a, t) + written_at(b, t));
    }
}

proof fn lemma_written_at_none(s: Seq<CandidateView>, t: int)
    requires
        forall|i: int| 0 <= i < s.len() ==> s[i].modified.instant() != t,
    ensures
        written_at(s, t) == Seq::<CandidateView>::empty(),
    decreases s.len(),
{
    if s.len() > 0 {
        assert(s.last() == s[s.len() - 1]);
        lemma_written_at_none(s.drop_last(), t);
    }
}

/// A candidate goes in behind all that were written to no earlier.
proof fn lemma_insert_candidate(
    s: Seq<CandidateView>,
    sorted: Seq<CandidateView>,
    p: int,
    c: CandidateView,
)
    requires
        sorted_newest_first(s, sorted),
        0 <= p <= sorted.len(),
        forall|i: int| p <= i < sorted.len() ==> sorted[i].modified.instant() < c.modified.instant(),
        p > 0 ==> sorted[p - 1].modified.instant() >= c.modified.instant(),
    ensures
        sorted_newest_first(s.push(c), sorted.insert(p, c)),
{
    let after = sorted.insert(p, c);
    assert forall|i: int, j: int| 0 <= i < j < after.len() implies after[i].modified.instant()
        >= after[j].modified.instant() by {
        if i < p && j == p {
            assert(sorted[i].modified.instant() >= sorted[p - 1].modified.instant());
        }
    }
    assert forall|t: int| #[trigger] written_at(after, t) == written_at(s.push(c), t) by {
        let a = sorted.take(p);
        let b = sorted.skip(p);
        let one = seq![c];
        assert(after =~= a + one + b);
        assert(sorted =~= a + b);
        lemma_written_at_concat(a + one, b, t);
        lemma_written_at_concat(a, one, t);
        lemma_written_at_concat(a, b, t);
        assert(s.push(c).drop_last() =~= s);
        lemma_written_at_none(one.drop_last(), t);
        assert(written_at(s, t) == written_at(sorted, t));
        if t == c.modified.instant() {
            lemma_written_at_none(b, t);
            assert(written_at(one, t) =~= one);
            assert(written_at(after, t) =~= written_at(s, t).push(c));
        } else {
            assert(written_at(one, t) =~= Seq::empty());
            assert(written_at(after, t) =~= written_at(s, t));
        }
    }
}

/// The candidate that a file is, if it is one.
fn candidate(file: &LogFile, pre_snapshot: &Table<u64>, spawn_time: LogTime) -> (r: Option<
    LogCandidate,
>)
    requires
        grown(file@, pre_snapshot@) ==> match file.modified {
            Some(modified) => modified.secs < i64::MAX,
            None => true,
        },
    ensures
        match r {
            Some(c) => candidate_of(file@, pre_snapshot@, spawn_time) == Some(c@),
            None => candidate_of(file@, pre_snapshot@, spawn_time) is None,
        },
{
    if !has_grown(file, pre_snapshot) {
        return None;
    }
    let offset: u64 = offset_in(file.name.as_str(), pre_snapshot);
    match file.modified {
        Some(modified) => {
            if modified.as_nanos() + 1_000_000_000 < spawn_time.as_nanos() {
                return None;
            }
            Some(LogCandidate { name: file.name.clone(), modified, offset, len: file.len })
        },
        None => None,
    }
}

/// The logs to scan after a turn, the newest first: all of those that grew past
/// their size before the turn and are not stale. No other cap applies.
pub fn log_candidates(files: &Vec<LogFile>, pre_snapshot: &Table<u64>, spawn_time: LogTime) -> (r:
    Vec<LogCandidate>)
    requires
        forall|i: int|
            0 <= i < files.len() && #[trigger] grown(files@[i]@, pre_snapshot@) ==> match files@[i].modified {
                Some(modified) => modified.secs < i64::MAX,
                None => true,
            },
    ensures
        sorted_newest_first(
            candidates_of(file_views(files@), pre_snapshot@, spawn_time),
            candidate_views(r@),
        ),
{
    let mut r: Vec<LogCandidate> = Vec::new();
    let ghost views = file_views(files@);
    let mut i: usize = 0;
    assert(views.take(0) =~= Seq::empty());
    assert(candidate_views(r@) =~= Seq::empty());
    while i < files.len()
        invariant
            i <= files.len(),
            views == file_views(files@),
            sorted_newest_first(
                candidates_of(views.take(i as int), pre_snapshot@, spawn_time),
                candidate_views(r@),
            ),
            forall|i: int|
                0 <= i < files.len() && #[trigger] grown(files@[i]@, pre_snapshot@) ==> match files@[i].modified {
                    Some(modified) => modified.secs < i64::MAX,
                    None => true,
                },
        decreases files.len() - i,
    {
        assert(views.take(i + 1).drop_last() =~= views.take(i as int));
        assert(views.take(i + 1).last() == files@[i as int]@);
        if let Some(c) = candidate(&files[i], pre_snapshot, spawn_time) {
            let at: i128 = c.modified.as_nanos();
            let mut p: usize = r.len();
            while p > 0 && r[p - 1].modified.as_nanos() < at
                invariant
                    p <= r.len(),
                    at == c.modified.instant(),
                    forall|k: int| p <= k < r.len() ==> r@[k].modified.instant() < at,
                decreases p,
            {
                p = p - 1;
            }
            proof {
                let before = candidate_views(r@);
                lemma_insert_candidate(
                    candidates_of(views.take(i as int), pre_snapshot@, spawn_time),
                    before,
                    p as int,
                    c@,
                );
                assert(candidate_views(r@.insert(p as int, c)) =~= before.insert(p as int, c@));
            }
            r.insert(p, c);
        }
        i = i + 1;
    }
    assert(views.take(files.len() as int) =~= views);
    r
}

} // verus!
