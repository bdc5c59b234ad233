//! What holds of trimming, lines, searching, joining and cutting, on the
//! characters themselves.
use vstd::prelude::*;
use vstd::utf8::*;

use crate::text;

verus! {

/// Nothing but white space.
pub open spec fn all_white(s: Seq<char>) -> bool {
    forall|i: int| 0 <= i < s.len() ==> text::is_white_space(#[trigger] s[i])
}

/// Of the ASCII characters, the space and the five control characters from the
/// tab to the carriage return are white space, and no others.
pub proof fn law_white_space(c: char)
    requires
        (c as u32) < 128,
    ensures
        text::is_white_space(c) <==> c == ' ' || c == '\t' || c == '\n' || c == '\u{b}' || c
            == '\u{c}' || c == '\r',
{
}

pub proof fn lemma_trim_start(pre: Seq<char>, core: Seq<char>)
    requires
        all_white(pre),
        core.len() > 0 ==> !text::is_white_space(core.first()),
    ensures
        text::trim_start(pre + core) == core,
    decreases pre.len(),
{
    let s = pre + core;
    if pre.len() == 0 {
        assert(s =~= core);
    } else {
        assert(s.first() == pre[0]);
        assert(s.drop_first() =~= pre.drop_first() + core);
        assert forall|i: int| 0 <= i < pre.drop_first().len() implies text::is_white_space(
            #[trigger] pre.drop_first()[i],
        ) by {
            assert(pre.drop_first()[i] == pre[i + 1]);
        }
        lemma_trim_start(pre.drop_first(), core);
    }
}

proof fn lemma_trim_end(core: Seq<char>, post: Seq<char>)
    requires
        all_white(post),
        core.len() > 0 ==> !text::is_white_space(core.last()),
    ensures
        text::trim_end(core + post) == core,
    decreases post.len(),
{
    let s = core + post;
    if post.len() == 0 {
        assert(s =~= core);
    } else {
        assert(s.last() == post[post.len() - 1]);
        assert(s.drop_last() =~= core + post.drop_last());
        lemma_trim_end(core, post.drop_last());
    }
}

/// Trimming takes the white space away at the ends that are trimmed, all of it
/// and nothing else.
pub proof fn law_trim(pre: Seq<char>, core: Seq<char>, post: Seq<char>)
    requires
        all_white(pre),
        all_white(post),
        core.len() > 0,
        !text::is_white_space(core.first()),
        !text::is_white_space(core.last()),
    ensures
        text::trim(pre + core + post) == core,
        text::trim_start(pre + core + post) == core + post,
        text::trim_end(pre + core + post) == pre + core,
{
    assert(pre + core + post =~= pre + (core + post));
    assert((core + post).first() == core.first());
    lemma_trim_start(pre, core + post);
    lemma_trim_end(core, post);
    assert((pre + core).last() == core.last());
    lemma_trim_end(pre + core, post);
}

/// Nothing is left of white space.
pub proof fn law_trim_blank(s: Seq<char>)
    requires
        all_white(s),
    ensures
        text::trim(s).len() == 0,
        text::trim_start(s).len() == 0,
        text::trim_end(s).len() == 0,
{
    assert(s + Seq::<char>::empty() =~= s);
    assert(Seq::<char>::empty() + s =~= s);
    lemma_trim_start(s, Seq::empty());
    lemma_trim_end(Seq::empty(), s);
}

proof fn lemma_line_len_of(line: Seq<char>, rest: Seq<char>)
    requires
        !line.contains('\n'),
    ensures
        text::line_len(line.push('\n') + rest) == line.len(),
        text::line_len(line) == line.len(),
    decreases line.len(),
{
    let s = line.push('\n') + rest;
    if line.len() > 0 {
        assert(line[0] != '\n') by {
            assert(line.contains(line[0]));
        }
        assert(s.first() == line.first());
        assert(s.drop_first() =~= line.drop_first().push('\n') + rest);
        assert forall|i: int| 0 <= i < line.drop_first().len() implies line.drop_first()[i]
            != '\n' by {
            assert(line.contains(line[i + 1]));
        }
        lemma_line_len_of(line.drop_first(), rest);
    }
}

/// A line goes up to the next line feed, and a carriage return in front of that
/// is no part of it. What follows has its own lines.
pub proof fn law_lines(line: Seq<char>, rest: Seq<char>)
    requires
        !line.contains('\n'),
    ensures
        text::lines(line.push('\r').push('\n') + rest) == seq![line] + text::lines(rest),
        (line.len() == 0 || line.last() != '\r') ==> text::lines(line.push('\n') + rest) == seq![
            line,
        ] + text::lines(rest),
        line.len() > 0 ==> text::lines(line) == seq![line],
        text::lines(Seq::empty()).len() == 0,
{
    lemma_line_len_of(line, rest);
    let s = line.push('\n') + rest;
    assert(s.take(line.len() as int) =~= line);
    assert(s.skip(line.len() as int + 1) =~= rest);
    let longer = line.push('\r');
    assert forall|i: int| 0 <= i < longer.len() implies longer[i] != '\n' by {
        if i < line.len() {
            assert(line.contains(line[i]));
        }
    }
    lemma_line_len_of(longer, rest);
    let t = longer.push('\n') + rest;
    assert(t.take(longer.len() as int) =~= longer);
    assert(t.skip(longer.len() as int + 1) =~= rest);
    assert(longer.drop_last() =~= line);
}

/// Joined texts stand one after another with the separator between neighbours,
/// wherever the list is taken apart.
pub proof fn law_join(a: Seq<Seq<char>>, b: Seq<Seq<char>>, one: Seq<char>, sep: Seq<char>)
    ensures
        text::join(Seq::empty(), sep).len() == 0,
        text::join(seq![one], sep) == one,
        a.len() > 0 && b.len() > 0 ==> text::join(a + b, sep) == text::join(a, sep) + sep
            + text::join(b, sep),
    decreases b.len(),
{
    if a.len() > 0 && b.len() > 0 {
        let s = a + b;
        assert(s.last() == b.last());
        assert(s.drop_last() =~= a + b.drop_last());
        if b.len() == 1 {
            assert(s.drop_last() =~= a);
            assert(b.last() == b[0]);
        } else {
            law_join(a, b.drop_last(), one, sep);
            assert(text::join(s, sep) =~= text::join(a, sep) + sep + text::join(b, sep));
        }
    }
}

/// A text that is cut is a prefix that fits, and with one more character it
/// would not fit. What fits is not cut.
pub proof fn law_truncated(s: Seq<char>, max: nat)
    ensures
        ({
            let t = text::truncated(s, max);
            &&& t.len() <= s.len()
            &&& t == s.take(t.len() as int)
            &&& encode_utf8(t).len() <= max
            &&& t.len() < s.len() ==> encode_utf8(s.take(t.len() as int + 1)).len() > max
            &&& encode_utf8(s).len() <= max ==> t == s
        }),
{
    text::lemma_truncated(s, max);
}

/// Character by character, `pat` stands in `s` at `i`.
pub open spec fn stands_at(s: Seq<char>, pat: Seq<char>, i: int) -> bool {
    &&& 0 <= i
    &&& i + pat.len() <= s.len()
    &&& forall|k: int| 0 <= k < pat.len() ==> s[i + k] == #[trigger] pat[k]
}

/// A text stands where its characters stand, and no character but those counts.
pub proof fn law_occurs(s: Seq<char>, pat: Seq<char>, i: int)
    ensures
        text::occurs_at(s, pat, i) <==> stands_at(s, pat, i),
        text::starts_with(s, pat) <==> stands_at(s, pat, 0),
        text::ends_with(s, pat) <==> stands_at(s, pat, s.len() - pat.len()),
        text::occurs_at(s, pat, i) ==> text::contains(s, pat),
{
    lemma_stands(s, pat, i);
    lemma_stands(s, pat, 0);
    lemma_stands(s, pat, s.len() - pat.len());
}

proof fn lemma_stands(s: Seq<char>, pat: Seq<char>, i: int)
    ensures
        text::occurs_at(s, pat, i) <==> stands_at(s, pat, i),
{
    if text::occurs_at(s, pat, i) {
        let part = s.subrange(i, i + pat.len());
        assert forall|k: int| 0 <= k < pat.len() implies s[i + k] == #[trigger] pat[k] by {
            assert(part[k] == pat[k]);
        }
    }
    if stands_at(s, pat, i) {
        assert(s.subrange(i, i + pat.len()) =~= pat);
    }
}

/// What is found is the first place at which the text stands, and where none is
/// found it stands nowhere.
pub proof fn law_find(s: Seq<char>, pat: Seq<char>, i: int)
    ensures
        match text::find(s, pat) {
            Some(at) => stands_at(s, pat, at) && (stands_at(s, pat, i) ==> at <= i),
            None => !stands_at(s, pat, i),
        },
        text::contains(s, pat) == text::find(s, pat) is Some,
{
    lemma_stands(s, pat, i);
    if text::contains(s, pat) {
        let k = choose|k: int| text::occurs_at(s, pat, k);
        text::lemma_find_first(s, pat, k);
        lemma_stands(s, pat, text::find(s, pat)->0);
        if stands_at(s, pat, i) {
            text::lemma_find_first(s, pat, i);
        }
    }
}

} // verus!
