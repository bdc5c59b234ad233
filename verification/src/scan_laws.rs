//! What holds of the message that is read out of a log, and of the logs that
//! are read, told by their content and their files.
use vstd::prelude::*;
use vstd::utf8::*;

use crate::log_laws;
use crate::log_run;
use crate::log_run::{ScanReport, ScanView};
use crate::log_scan;
use crate::log_scan::{CandidateView, LogFileView, LogTime};
use crate::text;
use crate::text_laws;

verus! {

proof fn lemma_line_len_at(s: Seq<char>)
    ensures
        text::line_len(s) <= s.len(),
        text::line_len(s) < s.len() ==> s[text::line_len(s) as int] == '\n',
    decreases s.len(),
{
    if s.len() > 0 && s.first() != '\n' {
        lemma_line_len_at(s.drop_first());
    }
}

proof fn lemma_line_len_more(a: Seq<char>, b: Seq<char>)
    requires
        text::line_len(a) < a.len(),
    ensures
        text::line_len(a + b) == text::line_len(a),
    decreases a.len(),
{
    assert((a + b).first() == a.first());
    if a.first() != '\n' {
        assert((a + b).drop_first() =~= a.drop_first() + b);
        lemma_line_len_more(a.drop_first(), b);
    }
}

/// Behind a line feed, lines start anew.
proof fn lemma_lines_of_both(a: Seq<char>, b: Seq<char>)
    requires
        a.len() > 0 ==> a.last() == '\n',
    ensures
        text::lines(a + b) == text::lines(a) + text::lines(b),
    decreases a.len(),
{
    if a.len() == 0 {
        assert(a + b =~= b);
        assert(text::lines(a) + text::lines(b) =~= text::lines(b));
    } else {
        lemma_line_len_at(a);
        let k = text::line_len(a) as int;
        if k >= a.len() {
            lemma_line_len_full(a);
        }
        lemma_line_len_more(a, b);
        assert((a + b).take(k) =~= a.take(k));
        assert((a + b).skip(k + 1) =~= a.skip(k + 1) + b);
        lemma_lines_of_both(a.skip(k + 1), b);
        let line = text::without_cr(a.take(k));
        assert(text::lines(a + b) =~= seq![line] + (text::lines(a.skip(k + 1)) + text::lines(b)));
        assert(text::lines(a) + text::lines(b) =~= seq![line] + (text::lines(a.skip(k + 1))
            + text::lines(b)));
    }
}

proof fn lemma_line_len_full(a: Seq<char>)
    requires
        a.len() > 0,
        a.last() == '\n',
    ensures
        text::line_len(a) < a.len(),
    decreases a.len(),
{
    if a.first() != '\n' {
        assert(a.len() > 1);
        assert(a.drop_first().last() == '\n');
        lemma_line_len_full(a.drop_first());
    }
}

proof fn lemma_last_line_of_both(a: Seq<Seq<char>>, b: Seq<Seq<char>>, anchor: Seq<char>)
    ensures
        log_scan::anchored_error(a + b, anchor) == match log_scan::anchored_error(b, anchor) {
            Some(m) => Some(m),
            None => log_scan::anchored_error(a, anchor),
        },
    decreases b.len(),
{
    if b.len() == 0 {
        assert(a + b =~= a);
    } else {
        assert((a + b).last() == b.last());
        assert((a + b).drop_last() =~= a + b.drop_last());
        lemma_last_line_of_both(a, b.drop_last(), anchor);
    }
}

/// A log is read by its last lines: what a later part reports under an anchor
/// replaces what an earlier part reports under it, and a part without any anchor
/// makes no difference, wherever it stands.
pub proof fn law_later_lines_win(a: Seq<char>, b: Seq<char>)
    requires
        a.len() > 0 ==> a.last() == '\n',
    ensures
        log_laws::reports(b, "agent executor error:"@) ==> log_scan::error_message(a + b)
            == log_scan::error_message(b),
        log_scan::error_message(b) is None ==> log_scan::error_message(a + b)
            == log_scan::error_message(a),
        log_scan::error_message(a) is None ==> log_scan::error_message(a + b)
            == log_scan::error_message(b),
        log_laws::reports(a, "agent executor error:"@) && !log_laws::reports(
            b,
            "agent executor error:"@,
        ) ==> log_scan::error_message(a + b) == log_scan::error_message(a),
        !log_laws::reports(a, "agent executor error:"@) && log_laws::reports(
            b,
            "model unreachable:"@,
        ) ==> log_scan::error_message(a + b) == log_scan::error_message(b),
        log_laws::reports(a, "model unreachable:"@) && !log_laws::reports(
            b,
            "agent executor error:"@,
        ) && !log_laws::reports(b, "model unreachable:"@) ==> log_scan::error_message(a + b)
            == log_scan::error_message(a),
        !log_laws::reports(a, "agent executor error:"@) && !log_laws::reports(
            a,
            "model unreachable:"@,
        ) && log_scan::error_message(b) is Some ==> log_scan::error_message(a + b)
            == log_scan::error_message(b),
{
    lemma_lines_of_both(a, b);
    let la = text::lines(a);
    let lb = text::lines(b);
    lemma_last_line_of_both(la, lb, "agent executor error:"@);
    lemma_last_line_of_both(la, lb, "model unreachable:"@);
    lemma_last_line_of_both(la, lb, "RESOURCE_EXHAUSTED"@);
    lemma_reports(a, "agent executor error:"@);
    lemma_reports(b, "agent executor error:"@);
    lemma_reports(b, "model unreachable:"@);
    lemma_reports(a, "model unreachable:"@);
}

proof fn lemma_reports(content: Seq<char>, anchor: Seq<char>)
    ensures
        log_laws::reports(content, anchor) <==> log_scan::anchored_error(
            text::lines(content),
            anchor,
        ) is Some,
{
    lemma_anchor_found(text::lines(content), anchor);
}

proof fn lemma_anchor_found(ls: Seq<Seq<char>>, anchor: Seq<char>)
    ensures
        log_scan::anchored_error(ls, anchor) is Some <==> exists|i: int|
            0 <= i < ls.len() && text::contains(#[trigger] ls[i], anchor),
    decreases ls.len(),
{
    if ls.len() > 0 {
        let rest = ls.drop_last();
        lemma_anchor_found(rest, anchor);
        if text::contains(ls.last(), anchor) {
            assert(text::contains(ls[ls.len() - 1], anchor));
        }
        if exists|i: int| 0 <= i < ls.len() && text::contains(#[trigger] ls[i], anchor) {
            let i = choose|i: int| 0 <= i < ls.len() && text::contains(#[trigger] ls[i], anchor);
            if i < ls.len() - 1 {
                assert(text::contains(rest[i], anchor));
            }
        }
        if exists|i: int| 0 <= i < rest.len() && text::contains(#[trigger] rest[i], anchor) {
            let i = choose|i: int|
                0 <= i < rest.len() && text::contains(#[trigger] rest[i], anchor);
            assert(text::contains(ls[i], anchor));
        }
    }
}

/// `t` is as much of `msg` as fits into 500 bytes.
pub open spec fn fitted(t: Seq<char>, msg: Seq<char>) -> bool {
    &&& t.len() <= msg.len()
    &&& t == msg.take(t.len() as int)
    &&& encode_utf8(t).len() <= 500
    &&& t.len() < msg.len() ==> encode_utf8(msg.take(t.len() as int + 1)).len() > 500
    &&& encode_utf8(msg).len() <= 500 ==> t == msg
}

/// What stands in front of the anchor and the white space behind the message
/// are left out. The rest is the message, as far as it fits.
pub proof fn law_plain_error_text(
    pre: Seq<char>,
    anchor: Seq<char>,
    said: Seq<char>,
    white: Seq<char>,
)
    requires
        log_laws::plain_anchor(anchor),
        forall|i: int|
            0 <= i < pre.len() ==> !(#[trigger] text_laws::stands_at(
                pre + (anchor + said + white),
                anchor,
                i,
            )),
        text_laws::all_white(white),
        said.len() > 0 ==> !text::is_white_space(said.last()),
        !text::contains(anchor + said, ".: "@),
    ensures
        fitted(log_scan::error_text(pre + (anchor + said + white), anchor), anchor + said),
{
    let msg = anchor + said;
    assert(msg.subrange(0, anchor.len() as int) =~= anchor);
    lemma_tail(pre, anchor, msg, white);
    text_laws::law_truncated(msg, 500);
}

/// A message that the logger repeats behind `.: ` is given once, with its full
/// stop, as far as it fits.
pub proof fn law_wrapped_error_text(
    pre: Seq<char>,
    anchor: Seq<char>,
    said: Seq<char>,
    again: Seq<char>,
    white: Seq<char>,
)
    requires
        log_laws::plain_anchor(anchor),
        forall|i: int|
            0 <= i < pre.len() ==> !(#[trigger] text_laws::stands_at(
                pre + (anchor + said + ".: "@ + again + white),
                anchor,
                i,
            )),
        text_laws::all_white(white),
        again.len() > 0,
        !text::is_white_space(again.last()),
        !text::contains(anchor + said, ".: "@),
    ensures
        fitted(
            log_scan::error_text(pre + (anchor + said + ".: "@ + again + white), anchor),
            (anchor + said).push('.'),
        ),
{
    let msg = anchor + said;
    let tail = msg + ".: "@ + again;
    assert(tail.subrange(0, anchor.len() as int) =~= anchor);
    assert(tail.last() == again.last());
    lemma_tail(pre, anchor, tail, white);
    lemma_unwrapped_tail(msg, again);
    text_laws::law_truncated(msg.push('.'), 500);
}

/// From its first anchor on, a line is kept but for the white space behind it.
proof fn lemma_tail(pre: Seq<char>, anchor: Seq<char>, tail: Seq<char>, white: Seq<char>)
    requires
        log_laws::plain_anchor(anchor),
        tail.len() >= anchor.len(),
        tail.subrange(0, anchor.len() as int) == anchor,
        !text::is_white_space(tail.last()),
        text_laws::all_white(white),
        forall|i: int|
            0 <= i < pre.len() ==> !(#[trigger] text_laws::stands_at(
                pre + (tail + white),
                anchor,
                i,
            )),
    ensures
        log_scan::error_text(pre + (tail + white), anchor) == text::truncated(
            log_scan::unwrapped(tail),
            500,
        ),
{
    let line = pre + (tail + white);
    let k = pre.len() as int;
    assert(line.subrange(k, k + anchor.len()) =~= tail.subrange(0, anchor.len() as int));
    lemma_found_at(line, anchor, k);
    assert(tail.subrange(0, anchor.len() as int)[0] == tail[0]);
    assert(line.skip(k) =~= Seq::<char>::empty() + tail + white);
    text_laws::law_trim(Seq::empty(), tail, white);
}

proof fn lemma_unwrapped_tail(msg: Seq<char>, again: Seq<char>)
    requires
        !text::contains(msg, ".: "@),
    ensures
        log_scan::unwrapped(msg + ".: "@ + again) == msg.push('.'),
{
    let tail = msg + ".: "@ + again;
    lemma_wrap_at(msg, again);
    assert(text::contains(tail, ".: "@));
    assert(tail.take(msg.len() as int) =~= msg);
}

proof fn lemma_wrap_at(msg: Seq<char>, again: Seq<char>)
    requires
        !text::contains(msg, ".: "@),
    ensures
        text::find(msg + ".: "@ + again, ".: "@) == Some(msg.len() as int),
{
    reveal_strlit(".: ");
    let w = ".: "@;
    let tail = msg + w + again;
    let n = msg.len() as int;
    assert(tail.subrange(n, n + 3) =~= w);
    assert forall|j: int| 0 <= j < n implies !(#[trigger] text_laws::stands_at(tail, w, j)) by {
        if text_laws::stands_at(tail, w, j) {
            assert(tail[j + 0] == w[0]);
            assert(tail[j + 1] == w[1]);
            assert(tail[j + 2] == w[2]);
            if j + 3 <= n {
                assert(msg.subrange(j, j + 3) =~= w);
                assert(text::occurs_at(msg, w, j));
            } else {
                assert(tail[n] == '.');
            }
        }
    }
    lemma_found_at(tail, w, n);
}

proof fn lemma_found_at(s: Seq<char>, pat: Seq<char>, k: int)
    requires
        text::occurs_at(s, pat, k),
        forall|i: int| 0 <= i < k ==> !(#[trigger] text_laws::stands_at(s, pat, i)),
    ensures
        text::find(s, pat) == Some(k),
{
    text::lemma_find_first(s, pat, k);
    let at = text::find(s, pat)->0;
    text_laws::law_occurs(s, pat, at);
    if at < k {
        assert(text_laws::stands_at(s, pat, at));
    }
}

/// Of one line, the most specific anchor on it decides.
pub proof fn law_single_line(line: Seq<char>)
    requires
        !line.contains('\n'),
    ensures
        log_scan::error_message(line) == if text::contains(line, "agent executor error:"@) {
            Some(log_scan::error_text(line, "agent executor error:"@))
        } else if text::contains(line, "model unreachable:"@) {
            Some(log_scan::error_text(line, "model unreachable:"@))
        } else if text::contains(line, "RESOURCE_EXHAUSTED"@) {
            Some(log_scan::error_text(line, "RESOURCE_EXHAUSTED"@))
        } else {
            None
        },
{
    text_laws::law_lines(line, Seq::empty());
    lemma_one_line(line, "agent executor error:"@);
    lemma_one_line(line, "model unreachable:"@);
    lemma_one_line(line, "RESOURCE_EXHAUSTED"@);
    reveal_strlit("agent executor error:");
    reveal_strlit("model unreachable:");
    reveal_strlit("RESOURCE_EXHAUSTED");
    if line.len() == 0 {
        assert(text::lines(line) =~= text::lines(Seq::empty()));
        assert(!text::contains(line, "agent executor error:"@));
        assert(!text::contains(line, "model unreachable:"@));
        assert(!text::contains(line, "RESOURCE_EXHAUSTED"@));
    }
}

proof fn lemma_one_line(line: Seq<char>, anchor: Seq<char>)
    ensures
        log_scan::anchored_error(seq![line], anchor) == if text::contains(line, anchor) {
            Some(log_scan::error_text(line, anchor))
        } else {
            None
        },
{
    reveal_with_fuel(log_scan::last_line_with, 2);
    assert(seq![line].drop_last() =~= Seq::empty());
}

/// The sizes that are noted before a turn are those of the command line logs,
/// and of nothing else.
pub proof fn law_log_sizes(files: Seq<LogFileView>, name: Seq<char>)
    ensures
        log_scan::log_sizes(files).contains_key(name) <==> log_scan::cli_log(name) && exists|i: int|
            0 <= i < files.len() && (#[trigger] files[i]).name == name,
        log_scan::log_sizes(files).contains_key(name) ==> exists|i: int|
            0 <= i < files.len() && (#[trigger] files[i]).name == name && files[i].len
                == log_scan::log_sizes(files)[name],
    decreases files.len(),
{
    if files.len() > 0 {
        let rest = files.drop_last();
        law_log_sizes(rest, name);
        let last = files[files.len() - 1];
        assert(last == files.last());
        if exists|i: int| 0 <= i < files.len() && (#[trigger] files[i]).name == name {
            let i = choose|i: int| 0 <= i < files.len() && (#[trigger] files[i]).name == name;
            if i < files.len() - 1 {
                assert(rest[i].name == name);
            }
        }
        if exists|i: int| 0 <= i < rest.len() && (#[trigger] rest[i]).name == name {
            let i = choose|i: int| 0 <= i < rest.len() && (#[trigger] rest[i]).name == name;
            assert(files[i].name == name);
        }
        if log_scan::log_sizes(files).contains_key(name) {
            if last.name == name && log_scan::cli_log(name) {
                assert(files[files.len() - 1].len == log_scan::log_sizes(files)[name]);
            } else {
                let i = choose|i: int|
                    0 <= i < rest.len() && (#[trigger] rest[i]).name == name && rest[i].len
                        == log_scan::log_sizes(rest)[name];
                assert(files[i].name == name && files[i].len == log_scan::log_sizes(files)[name]);
            }
        }
    }
}

/// A file is read after a turn exactly where it is a command line log that is
/// longer than it was before the turn, and was written to no earlier than one
/// second before the spawn. It is read from its old length on.
pub proof fn law_candidate(
    file: LogFileView,
    sizes: Map<Seq<char>, u64>,
    spawn_time: LogTime,
)
    ensures
        ({
            let old_len: int = if sizes.contains_key(file.name) {
                sizes[file.name] as int
            } else {
                0
            };
            let due = log_scan::cli_log(file.name) && file.len > old_len && file.modified is Some
                && (file.modified->0.secs + 1) * 1_000_000_000 + file.modified->0.nanos
                >= spawn_time.secs * 1_000_000_000 + spawn_time.nanos;
            match log_scan::candidate_of(file, sizes, spawn_time) {
                Some(c) => due && c.name == file.name && c.offset == old_len && c.len == file.len
                    && Some(c.modified) == file.modified,
                None => !due,
            }
        }),
        log_scan::grown(file, sizes) <==> log_scan::cli_log(file.name) && file.len > (
        if sizes.contains_key(file.name) {
            sizes[file.name] as int
        } else {
            0
        }),
{
}

proof fn lemma_written_count(s: Seq<CandidateView>, c: CandidateView)
    ensures
        log_scan::written_at(s, c.modified.instant()).to_multiset().count(c)
            == s.to_multiset().count(c),
    decreases s.len(),
{
    broadcast use vstd::seq_lib::group_to_multiset_ensures;

    let t = c.modified.instant();
    if s.len() > 0 {
        let rest = s.drop_last();
        lemma_written_count(rest, c);
        assert(s =~= rest.push(s.last()));
    }
}

/// The logs are read newest first, each exactly as often as it is listed.
pub proof fn law_reading_order(
    files: Seq<LogFileView>,
    sizes: Map<Seq<char>, u64>,
    spawn_time: LogTime,
    read: Seq<CandidateView>,
    i: int,
    j: int,
)
    requires
        log_scan::sorted_newest_first(log_scan::candidates_of(files, sizes, spawn_time), read),
        0 <= i < j < read.len(),
    ensures
        read[i].modified.secs * 1_000_000_000 + read[i].modified.nanos >= read[j].modified.secs
            * 1_000_000_000 + read[j].modified.nanos,
        read.to_multiset() == log_scan::candidates_of(files, sizes, spawn_time).to_multiset(),
{
    let listed = log_scan::candidates_of(files, sizes, spawn_time);
    assert forall|c: CandidateView|
        #[trigger] read.to_multiset().count(c) == listed.to_multiset().count(c) by {
        lemma_written_count(read, c);
        lemma_written_count(listed, c);
        let t = c.modified.instant();
        assert(log_scan::written_at(read, t) == log_scan::written_at(listed, t));
    }
    assert(read.to_multiset() =~= listed.to_multiset());
}

/// The candidates of two listings in a row are those of each.
pub proof fn law_candidates(
    a: Seq<LogFileView>,
    b: Seq<LogFileView>,
    file: LogFileView,
    sizes: Map<Seq<char>, u64>,
    spawn_time: LogTime,
)
    ensures
        log_scan::candidates_of(a + b, sizes, spawn_time) == log_scan::candidates_of(
            a,
            sizes,
            spawn_time,
        ) + log_scan::candidates_of(b, sizes, spawn_time),
        log_scan::candidates_of(seq![file], sizes, spawn_time) == match log_scan::candidate_of(
            file,
            sizes,
            spawn_time,
        ) {
            Some(c) => seq![c],
            None => Seq::empty(),
        },
    decreases b.len(),
{
    reveal_with_fuel(log_scan::candidates_of, 2);
    assert(seq![file].drop_last() =~= Seq::empty());
    let ca = log_scan::candidates_of(a, sizes, spawn_time);
    let cb = log_scan::candidates_of(b, sizes, spawn_time);
    if let Some(c) = log_scan::candidate_of(file, sizes, spawn_time) {
        assert(log_scan::candidates_of(seq![file], sizes, spawn_time) =~= seq![c]);
    }
    if b.len() == 0 {
        assert(a + b =~= a);
        assert(ca + cb =~= ca);
    } else {
        law_candidates(a, b.drop_last(), file, sizes, spawn_time);
        assert((a + b).drop_last() =~= a + b.drop_last());
        assert((a + b).last() == b.last());
        assert(log_scan::candidates_of(a + b, sizes, spawn_time) =~= ca + cb);
    }
}

/// A read starts at the bytes of the turn, or as far behind them as it has to
/// for at most 262144 bytes to reach the end of the file.
pub proof fn law_read_start(offset: u64, len: u64)
    ensures
        ({
            let start = log_run::tail_start(offset, len);
            &&& start >= offset
            &&& start >= len - 262_144
            &&& start == offset || start == len - 262_144
        }),
{
}

/// While no error has been found, the next log is read, from where its read
/// starts and up to 262144 bytes of it.
pub proof fn law_due_read(s: ScanView)
    ensures
        match s.due() {
            Some(read) => {
                let c = s.candidates[s.next as int];
                &&& s.found is None
                &&& s.next < s.candidates.len()
                &&& read.name == c.name
                &&& read.start == log_run::tail_start(c.offset, c.len)
                &&& read.limit == 262_144
            },
            None => s.found is Some || s.next >= s.candidates.len(),
        },
{
}

/// A read that failed, or that reports no error.
pub open spec fn silent(content: Option<Seq<char>>) -> bool {
    match content {
        Some(c) => log_scan::error_message(c) is None,
        None => true,
    }
}

/// How many reads failed.
pub open spec fn failures(contents: Seq<Option<Seq<char>>>) -> nat
    decreases contents.len(),
{
    if contents.len() == 0 {
        0
    } else {
        failures(contents.drop_first()) + if contents.first() is None {
            1nat
        } else {
            0
        }
    }
}

proof fn lemma_scan(s: ScanView, contents: Seq<Option<Seq<char>>>)
    requires
        s.found is None,
        s.next + contents.len() == s.candidates.len(),
    ensures
        ({
            let end = s.run(contents);
            let n = end.next - s.next;
            &&& 0 <= n <= contents.len()
            &&& end.candidates == s.candidates
            &&& end.read_failures == s.read_failures + failures(contents.take(n))
            &&& match end.found {
                Some(m) => {
                    &&& n > 0
                    &&& contents[n - 1] is Some
                    &&& log_scan::error_message(contents[n - 1]->0) == Some(m)
                    &&& forall|j: int| 0 <= j < n - 1 ==> silent(#[trigger] contents[j])
                },
                None => n == contents.len() && forall|j: int|
                    0 <= j < contents.len() ==> silent(#[trigger] contents[j]),
            }
        }),
    decreases contents.len(),
{
    if contents.len() > 0 {
        let t = s.step(contents.first());
        let rest = contents.drop_first();
        assert(contents.take(1).drop_first() =~= Seq::empty());
        assert(failures(contents.take(1).drop_first()) == 0);
        assert(contents.take(1).first() == contents.first());
        if t.found is None {
            lemma_scan(t, rest);
            let n = t.run(rest).next - t.next;
            assert(contents.take(n + 1).drop_first() =~= rest.take(n));
            assert(contents.take(n + 1).first() == contents.first());
            assert forall|j: int| 0 <= j < n + (if t.run(rest).found is Some { 0int } else { 1 })
                && j < contents.len() implies silent(#[trigger] contents[j]) by {
                if j > 0 {
                    assert(contents[j] == rest[j - 1]);
                    assert(silent(rest[j - 1]));
                }
            }
            if t.run(rest).found is Some {
                assert(contents[n] == rest[n - 1]);
            }
        } else {
            assert(t.run(rest) == t);
        }
    } else {
        assert(contents.take(0) =~= Seq::empty());
    }
}

/// The logs are read one after another until one of them reports an error. That
/// error is what is found; where none reports one, all have been read. Reads
/// that failed are counted and passed over.
pub proof fn law_scan(candidates: Seq<CandidateView>, contents: Seq<Option<Seq<char>>>)
    requires
        contents.len() == candidates.len(),
    ensures
        ({
            let end = ScanView::starting(candidates).run(contents);
            let n = end.next as int;
            &&& end.candidates == candidates
            &&& n <= contents.len()
            &&& end.read_failures == failures(contents.take(n))
            &&& match end.found {
                Some(m) => {
                    &&& n > 0
                    &&& contents[n - 1] is Some
                    &&& log_scan::error_message(contents[n - 1]->0) == Some(m)
                    &&& forall|j: int| 0 <= j < n - 1 ==> silent(#[trigger] contents[j])
                },
                None => n == contents.len() && forall|j: int|
                    0 <= j < contents.len() ==> silent(#[trigger] contents[j]),
            }
        }),
{
    lemma_scan(ScanView::starting(candidates), contents);
}

/// A scan that found an error is not spoken of. Otherwise it is said how many
/// logs could not be read, or that none of those read is of use.
pub proof fn law_report(s: ScanView, r: ScanReport)
    requires
        s.reported(r),
    ensures
        s.found is Some ==> r is Quiet,
        s.found is None && s.read_failures > 0 ==> {
            &&& r is Unreadable
            &&& r->failures == s.read_failures
            &&& r->Unreadable_scanned == s.candidates.len()
        },
        s.found is None && s.read_failures == 0 && s.candidates.len() > 0 ==> {
            &&& r is NoAnchor
            &&& r->NoAnchor_scanned == s.candidates.len()
        },
        s.found is None && s.read_failures == 0 && s.candidates.len() == 0 ==> r is Quiet,
{
}

/// No message takes more than 500 bytes.
pub proof fn law_message_cap(line: Seq<char>, anchor: Seq<char>)
    ensures
        encode_utf8(log_scan::error_text(line, anchor)).len() <= 500,
{
    let tail = text::trim(line.skip(text::find(line, anchor)->0));
    text_laws::law_truncated(log_scan::unwrapped(tail), 500);
}

} // verus!
