//! What holds of every message and of every scan of the logs.
use vstd::prelude::*;
use vstd::utf8::*;

use crate::log_run;
use crate::log_run::ScanView;
use crate::log_scan;
use crate::log_scan::{CandidateView, LogFileView, LogTime, MAX_LOG_SCAN_BYTES, MAX_MESSAGE_BYTES};
use crate::text;

verus! {

proof fn lemma_line_len(s: Seq<char>)
    ensures
        text::line_len(s) <= s.len(),
        forall|i: int| 0 <= i < text::line_len(s) ==> s[i] != '\n',
    decreases s.len(),
{
    if s.len() > 0 && s.first() != '\n' {
        let rest = s.drop_first();
        lemma_line_len(rest);
        assert forall|i: int| 0 <= i < text::line_len(s) implies s[i] != '\n' by {
            if i > 0 {
                assert(rest[i - 1] == s[i]);
            }
        }
    }
}

/// No line has a line feed in it.
pub proof fn lemma_lines_single(s: Seq<char>)
    ensures
        forall|i: int| 0 <= i < text::lines(s).len() ==> !(#[trigger] text::lines(s)[i]).contains('\n'),
    decreases s.len(),
{
    if s.len() > 0 {
        lemma_line_len(s);
        let n = text::line_len(s) as int;
        if n < s.len() {
            let head = text::without_cr(s.take(n));
            let rest = s.skip(n + 1);
            lemma_lines_single(rest);
            assert forall|i: int| 0 <= i < text::lines(s).len() implies !(#[trigger] text::lines(
                s,
            )[i]).contains('\n') by {
                if i == 0 {
                    assert(text::lines(s)[0] == head);
                    assert(forall|k: int| 0 <= k < head.len() ==> head[k] == s[k]);
                } else {
                    assert(text::lines(s)[i] == text::lines(rest)[i - 1]);
                }
            }
        }
    }
}

proof fn lemma_trim_end(s: Seq<char>, k: int)
    requires
        0 < k <= s.len(),
        !text::is_white_space(s[k - 1]),
    ensures
        k <= text::trim_end(s).len() <= s.len(),
        text::trim_end(s) == s.take(text::trim_end(s).len() as int),
    decreases s.len(),
{
    if text::is_white_space(s.last()) {
        assert(k < s.len());
        lemma_trim_end(s.drop_last(), k);
        let t = text::trim_end(s);
        assert(s.drop_last().take(t.len() as int) =~= s.take(t.len() as int));
    } else {
        assert(s.take(s.len() as int) =~= s);
    }
}

proof fn lemma_encode_bound(s: Seq<char>)
    ensures
        encode_utf8(s).len() <= 4 * s.len(),
    decreases s.len(),
{
    if s.len() > 0 {
        lemma_encode_bound(s.drop_first());
    }
}

/// Cutting at the wrap leaves no wrap.
proof fn lemma_unwrapped(msg: Seq<char>)
    ensures
        !text::contains(log_scan::unwrapped(msg), ".: "@),
{
    reveal_strlit(".: ");
    let w = ".: "@;
    let u = log_scan::unwrapped(msg);
    if text::contains(msg, w) {
        let k = choose|k: int| text::occurs_at(msg, w, k);
        text::lemma_find_first(msg, w, k);
        let at = text::find(msg, w)->0;
        assert(u == msg.take(at).push('.'));
        if text::contains(u, w) {
            let j = choose|j: int| text::occurs_at(u, w, j);
            assert(u.subrange(j, j + 3)[2] == w[2]);
            assert(u[j + 2] == ' ');
            assert(j + 2 < at);
            assert(msg.subrange(j, j + 3) =~= u.subrange(j, j + 3));
            assert(text::occurs_at(msg, w, j));
        }
    }
}

/// A prefix holds no text that the whole does not hold.
proof fn lemma_prefix_contains(s: Seq<char>, n: int, pat: Seq<char>)
    requires
        0 <= n <= s.len(),
        text::contains(s.take(n), pat),
    ensures
        text::contains(s, pat),
{
    let j = choose|j: int| text::occurs_at(s.take(n), pat, j);
    assert(s.subrange(j, j + pat.len()) =~= s.take(n).subrange(j, j + pat.len()));
    assert(text::occurs_at(s, pat, j));
}

/// An anchor is short, holds no full stop, and has no white space at its ends.
pub open spec fn plain_anchor(anchor: Seq<char>) -> bool {
    &&& 0 < anchor.len() <= 100
    &&& !text::is_white_space(anchor.first())
    &&& !text::is_white_space(anchor.last())
    &&& forall|i: int| 0 <= i < anchor.len() ==> anchor[i] != '.'
}

/// The error of a line that holds `anchor` is one line that starts with the
/// anchor, is not wrapped in itself, and is no longer than the cap.
pub proof fn law_error_text(line: Seq<char>, anchor: Seq<char>)
    requires
        text::contains(line, anchor),
        !line.contains('\n'),
        plain_anchor(anchor),
    ensures
        text::starts_with(log_scan::error_text(line, anchor), anchor),
        !text::contains(log_scan::error_text(line, anchor), ".: "@),
        !log_scan::error_text(line, anchor).contains('\n'),
        encode_utf8(log_scan::error_text(line, anchor)).len() <= MAX_MESSAGE_BYTES,
{
    reveal_strlit(".: ");
    let k = choose|k: int| text::occurs_at(line, anchor, k);
    text::lemma_find_first(line, anchor, k);
    let at = text::find(line, anchor)->0;
    let tail = line.skip(at);
    let n = anchor.len() as int;
    assert(forall|i: int| 0 <= i < n ==> tail[i] == line.subrange(at, at + n)[i]);
    assert(forall|i: int| 0 <= i < n ==> tail[i] == anchor[i]);
    assert(text::trim_start(tail) == tail);
    lemma_trim_end(tail, n);
    let trimmed = text::trim(tail);
    assert(forall|i: int| 0 <= i < trimmed.len() ==> trimmed[i] == tail[i]);
    let u = log_scan::unwrapped(trimmed);
    lemma_unwrapped(trimmed);
    if text::contains(trimmed, ".: "@) {
        let j = choose|j: int| text::occurs_at(trimmed, ".: "@, j);
        text::lemma_find_first(trimmed, ".: "@, j);
        let cut = text::find(trimmed, ".: "@)->0;
        assert(trimmed.subrange(cut, cut + 3)[0] == '.');
        assert(trimmed[cut] == '.');
        assert(cut >= n);
        assert(u == trimmed.take(cut).push('.'));
    }
    assert(forall|i: int| 0 <= i < n ==> u[i] == anchor[i]);
    assert forall|i: int| 0 <= i < u.len() implies u[i] != '\n' by {
        if i < u.len() - 1 || u == trimmed {
            assert(u[i] == trimmed[i]);
            assert(trimmed[i] == line[at + i]);
        }
    }
    let m = log_scan::error_text(line, anchor);
    text::lemma_truncated(u, MAX_MESSAGE_BYTES as nat);
    assert(m == u.take(m.len() as int));
    if m.len() < n {
        lemma_encode_bound(u.take(m.len() as int + 1));
    }
    assert(m.subrange(0, n) =~= anchor);
    if text::contains(m, ".: "@) {
        lemma_prefix_contains(u, m.len() as int, ".: "@);
    }
}

proof fn lemma_last_line(ls: Seq<Seq<char>>, anchor: Seq<char>)
    ensures
        match log_scan::last_line_with(ls, anchor) {
            Some(line) => ls.contains(line) && text::contains(line, anchor),
            None => forall|i: int| 0 <= i < ls.len() ==> !text::contains(#[trigger] ls[i], anchor),
        },
    decreases ls.len(),
{
    if ls.len() > 0 {
        let rest = ls.drop_last();
        if text::contains(ls.last(), anchor) {
            assert(ls[ls.len() - 1] == ls.last());
        } else {
            lemma_last_line(rest, anchor);
            match log_scan::last_line_with(rest, anchor) {
                Some(line) => {
                    let i = rest.index_of(line);
                    assert(ls[i] == line);
                },
                None => {
                    assert forall|i: int| 0 <= i < ls.len() implies !text::contains(
                        #[trigger] ls[i],
                        anchor,
                    ) by {
                        if i < ls.len() - 1 {
                            assert(rest[i] == ls[i]);
                        }
                    }
                },
            }
        }
    }
}

/// Some line of the log holds `anchor`.
pub open spec fn reports(content: Seq<char>, anchor: Seq<char>) -> bool {
    exists|i: int|
        0 <= i < text::lines(content).len() && text::contains(
            #[trigger] text::lines(content)[i],
            anchor,
        )
}

proof fn lemma_anchored(content: Seq<char>, anchor: Seq<char>)
    requires
        plain_anchor(anchor),
    ensures
        match log_scan::anchored_error(text::lines(content), anchor) {
            Some(m) => {
                &&& reports(content, anchor)
                &&& text::starts_with(m, anchor)
                &&& !text::contains(m, ".: "@)
                &&& !m.contains('\n')
                &&& encode_utf8(m).len() <= MAX_MESSAGE_BYTES
            },
            None => !reports(content, anchor),
        },
{
    let ls = text::lines(content);
    lemma_last_line(ls, anchor);
    lemma_lines_single(content);
    if let Some(line) = log_scan::last_line_with(ls, anchor) {
        let i = ls.index_of(line);
        assert(text::contains(ls[i], anchor));
        law_error_text(line, anchor);
    }
}

/// A log is silent exactly where none of its lines holds an anchor. What it
/// reports otherwise is a single line that starts with the most specific
/// anchor that it holds, is not wrapped in itself, and takes no more bytes than
/// the cap.
pub proof fn law_error_message(content: Seq<char>)
    ensures
        match log_scan::error_message(content) {
            Some(m) => {
                let anchor = if reports(content, "agent executor error:"@) {
                    "agent executor error:"@
                } else if reports(content, "model unreachable:"@) {
                    "model unreachable:"@
                } else {
                    "RESOURCE_EXHAUSTED"@
                };
                &&& reports(content, anchor)
                &&& text::starts_with(m, anchor)
                &&& !text::contains(m, ".: "@)
                &&& !m.contains('\n')
                &&& encode_utf8(m).len() <= MAX_MESSAGE_BYTES
            },
            None => {
                &&& !reports(content, "agent executor error:"@)
                &&& !reports(content, "model unreachable:"@)
                &&& !reports(content, "RESOURCE_EXHAUSTED"@)
            },
        },
{
    reveal_strlit("agent executor error:");
    reveal_strlit("model unreachable:");
    reveal_strlit("RESOURCE_EXHAUSTED");
    lemma_anchored(content, "agent executor error:"@);
    lemma_anchored(content, "model unreachable:"@);
    lemma_anchored(content, "RESOURCE_EXHAUSTED"@);
}

/// A read never reaches back before the bytes of the turn, reaches the end of
/// the file within its limit, and leaves out bytes of the turn only where they
/// are more than the limit.
pub proof fn law_tail_window(offset: u64, len: u64)
    requires
        offset <= len,
    ensures
        offset <= log_run::tail_start(offset, len) <= len,
        len - log_run::tail_start(offset, len) <= MAX_LOG_SCAN_BYTES,
        log_run::tail_start(offset, len) > offset ==> len - log_run::tail_start(offset, len)
            == MAX_LOG_SCAN_BYTES,
{
}

/// A turn that was cancelled, or that passed something on to the client, is
/// never answered with an error of its own.
pub proof fn law_no_turn_error(
    was_cancelled: bool,
    status_success: bool,
    had_updates: bool,
    status_display: Seq<char>,
    stderr_text: Seq<char>,
    swallowed_error: Option<Seq<char>>,
)
    ensures
        was_cancelled || had_updates ==> log_scan::turn_error(
            was_cancelled,
            status_success,
            had_updates,
            status_display,
            stderr_text,
            swallowed_error,
        ) is None,
        !was_cancelled && !had_updates && !status_success ==> log_scan::turn_error(
            was_cancelled,
            status_success,
            had_updates,
            status_display,
            stderr_text,
            swallowed_error,
        ) is Some,
{
}

/// What the logs say matters only where they are worth a look.
pub proof fn law_scan_only_when_due(
    was_cancelled: bool,
    status_success: bool,
    had_updates: bool,
    status_display: Seq<char>,
    stderr_text: Seq<char>,
    swallowed_error: Option<Seq<char>>,
)
    requires
        was_cancelled || !status_success || had_updates,
    ensures
        log_scan::turn_error(
            was_cancelled,
            status_success,
            had_updates,
            status_display,
            stderr_text,
            swallowed_error,
        ) == log_scan::turn_error(
            was_cancelled,
            status_success,
            had_updates,
            status_display,
            stderr_text,
            None,
        ),
{
}

/// No two files of a directory have one name.
pub open spec fn distinct_names(files: Seq<LogFileView>) -> bool {
    forall|i: int, j: int| 0 <= i < j < files.len() ==> files[i].name != files[j].name
}

proof fn lemma_log_sizes(files: Seq<LogFileView>, i: int)
    requires
        distinct_names(files),
        0 <= i < files.len(),
        log_scan::cli_log(files[i].name),
    ensures
        log_scan::log_sizes(files).contains_key(files[i].name),
        log_scan::log_sizes(files)[files[i].name] == files[i].len,
    decreases files.len(),
{
    if i < files.len() - 1 {
        let rest = files.drop_last();
        assert(distinct_names(rest));
        lemma_log_sizes(rest, i);
        assert(files[i].name != files[files.len() - 1].name);
    }
}

/// Of a log that was there before the turn, only the bytes count that were
/// appended since: it is read where it has grown, and then from its old size
/// on.
pub proof fn law_only_appended_bytes(
    before: Seq<LogFileView>,
    i: int,
    now: LogFileView,
    spawn_time: LogTime,
)
    requires
        distinct_names(before),
        0 <= i < before.len(),
        log_scan::cli_log(before[i].name),
        now.name == before[i].name,
    ensures
        log_scan::grown(now, log_scan::log_sizes(before)) == (now.len > before[i].len),
        match log_scan::candidate_of(now, log_scan::log_sizes(before), spawn_time) {
            Some(c) => c.offset == before[i].len && c.offset < c.len && log_run::tail_start(
                c.offset,
                c.len,
            ) >= before[i].len,
            None => true,
        },
{
    lemma_log_sizes(before, i);
}

proof fn lemma_written_at(s: Seq<CandidateView>, c: CandidateView)
    ensures
        log_scan::written_at(s, c.modified.instant()).contains(c) == s.contains(c),
    decreases s.len(),
{
    let t = c.modified.instant();
    if s.len() > 0 {
        let rest = s.drop_last();
        lemma_written_at(rest, c);
        let w = log_scan::written_at(rest, t);
        if s.contains(c) {
            let i = s.index_of(c);
            if i < s.len() - 1 {
                assert(rest[i] == c);
                let k = w.index_of(c);
                assert(log_scan::written_at(s, t)[k] == c);
            } else {
                assert(log_scan::written_at(s, t)[w.len() as int] == c);
            }
        }
        if log_scan::written_at(s, t).contains(c) {
            let k = log_scan::written_at(s, t).index_of(c);
            if k < w.len() {
                assert(w[k] == c);
                let i = rest.index_of(c);
                assert(s[i] == c);
            } else {
                assert(s[s.len() - 1] == c);
            }
        }
    }
}

proof fn lemma_candidates(files: Seq<LogFileView>, sizes: Map<Seq<char>, u64>, spawn_time: LogTime)
    ensures
        forall|i: int|
            #![trigger files[i]]
            0 <= i < files.len() ==> match log_scan::candidate_of(files[i], sizes, spawn_time) {
                Some(c) => log_scan::candidates_of(files, sizes, spawn_time).contains(c),
                None => true,
            },
        forall|c: CandidateView| #[trigger]
            log_scan::candidates_of(files, sizes, spawn_time).contains(c) ==> exists|i: int|
                0 <= i < files.len() && log_scan::candidate_of(
                    #[trigger] files[i],
                    sizes,
                    spawn_time,
                ) == Some(c),
    decreases files.len(),
{
    if files.len() > 0 {
        let rest = files.drop_last();
        lemma_candidates(rest, sizes, spawn_time);
        let before = log_scan::candidates_of(rest, sizes, spawn_time);
        let all = log_scan::candidates_of(files, sizes, spawn_time);
        assert forall|i: int| #![trigger files[i]] 0 <= i < files.len() implies match log_scan::candidate_of(
            files[i],
            sizes,
            spawn_time,
        ) {
            Some(c) => all.contains(c),
            None => true,
        } by {
            if let Some(c) = log_scan::candidate_of(files[i], sizes, spawn_time) {
                if i < files.len() - 1 {
                    assert(rest[i] == files[i]);
                    let k = before.index_of(c);
                    assert(all[k] == c);
                } else {
                    assert(all[before.len() as int] == c);
                }
            }
        }
        assert forall|c: CandidateView| #[trigger] all.contains(c) implies exists|i: int|
            0 <= i < files.len() && log_scan::candidate_of(#[trigger] files[i], sizes, spawn_time)
                == Some(c) by {
            let k = all.index_of(c);
            if k < before.len() {
                assert(before[k] == c);
                assert(before.contains(c));
                let i = choose|i: int|
                    0 <= i < rest.len() && log_scan::candidate_of(
                        #[trigger] rest[i],
                        sizes,
                        spawn_time,
                    ) == Some(c);
                assert(files[i] == rest[i]);
            } else {
                assert(log_scan::candidate_of(files[files.len() - 1], sizes, spawn_time) == Some(
                    c,
                ));
            }
        }
    }
}

/// The scan leaves out no log that grew during the turn, wherever it stands,
/// and reads no other.
pub proof fn law_every_grown_log_is_scanned(
    files: Seq<LogFileView>,
    sizes: Map<Seq<char>, u64>,
    spawn_time: LogTime,
    scanned: Seq<CandidateView>,
)
    requires
        log_scan::sorted_newest_first(
            log_scan::candidates_of(files, sizes, spawn_time),
            scanned,
        ),
    ensures
        forall|c: CandidateView| #[trigger]
            scanned.contains(c) <==> exists|i: int|
                0 <= i < files.len() && log_scan::candidate_of(
                    #[trigger] files[i],
                    sizes,
                    spawn_time,
                ) == Some(c),
{
    let listed = log_scan::candidates_of(files, sizes, spawn_time);
    lemma_candidates(files, sizes, spawn_time);
    assert forall|c: CandidateView| #[trigger] scanned.contains(c) <==> listed.contains(c) by {
        let t = c.modified.instant();
        lemma_written_at(scanned, c);
        lemma_written_at(listed, c);
        assert(log_scan::written_at(scanned, t) == log_scan::written_at(listed, t));
    }
}

/// A log that was last written to more than a second before the turn's own
/// child was spawned is left out, and one within that second is not.
pub proof fn law_tolerance(
    file: LogFileView,
    sizes: Map<Seq<char>, u64>,
    spawn_time: LogTime,
    modified: LogTime,
)
    requires
        log_scan::grown(file, sizes),
        file.modified == Some(modified),
    ensures
        log_scan::candidate_of(file, sizes, spawn_time) is Some <==> modified.instant()
            + 1_000_000_000 >= spawn_time.instant(),
{
}

proof fn lemma_run(s: ScanView, contents: Seq<Option<Seq<char>>>)
    requires
        s.wf(),
        s.found is None,
        s.next + contents.len() == s.candidates.len(),
    ensures
        s.run(contents).found == log_run::first_error(contents),
        s.run(contents).wf(),
        !s.run(contents).pending(),
    decreases contents.len(),
{
    if contents.len() > 0 {
        let t = s.step(contents.first());
        let rest = contents.drop_first();
        if t.found is None {
            lemma_run(t, rest);
        } else {
            assert(t.run(rest) == t);
        }
    }
}

/// A scan that starts afresh ends with the first error that one of the logs
/// reports, in the order in which they are read. A log that cannot be read is
/// passed over.
pub proof fn law_scan_finds_the_first_error(
    candidates: Seq<CandidateView>,
    contents: Seq<Option<Seq<char>>>,
)
    requires
        contents.len() == candidates.len(),
    ensures
        ScanView::starting(candidates).run(contents).found == log_run::first_error(contents),
        !ScanView::starting(candidates).run(contents).pending(),
        ScanView::starting(candidates).run(contents).wf(),
{
    lemma_run(ScanView::starting(candidates), contents);
}

} // verus!
