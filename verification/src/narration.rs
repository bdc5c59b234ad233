//! Telling an agent's narration of its plans from its answer.
use vstd::prelude::*;

use crate::text;

verus! {

/// A line in which the agent says what it is about to do.
pub open spec fn narrates(line: Seq<char>) -> bool {
    let l = text::trim_start(line);
    text::starts_with(l, "I will"@) || text::starts_with(l, "I'll"@) || text::starts_with(
        l,
        "I\u{2019}ll"@,
    )
}

/// A line with something other than white space on it.
pub open spec fn filled(line: Seq<char>) -> bool {
    text::trim(line).len() > 0
}

/// A text that has lines, all of which narrate, blank ones apart.
pub open spec fn narration(part: Seq<char>) -> bool {
    let ls = text::lines(part);
    &&& exists|i: int| 0 <= i < ls.len() && filled(#[trigger] ls[i])
    &&& forall|i: int| 0 <= i < ls.len() && filled(#[trigger] ls[i]) ==> narrates(ls[i])
}

/// The parts from the first one on that is not narration.
pub open spec fn past_leading_narration(parts: Seq<Seq<char>>) -> Seq<Seq<char>>
    decreases parts.len(),
{
    if parts.len() > 0 && narration(parts.first()) {
        past_leading_narration(parts.drop_first())
    } else {
        parts
    }
}

/// The parts without leading narration as one text, unless that is empty.
pub open spec fn filtered(parts: Seq<Seq<char>>) -> Option<Seq<char>> {
    let kept = text::join(past_leading_narration(parts), "\n"@);
    if kept.len() > 0 {
        Some(kept)
    } else {
        None
    }
}

/// Whether every line that is not blank starts with "I will" or "I'll", and
/// there is such a line.
pub fn is_narration(part: &str) -> (r: bool)
    ensures
        r == narration(part@),
{
    let c: Vec<char> = text::chars_of(part);
    let ranges: Vec<(usize, usize)> = text::line_ranges(&c);
    let ghost ls = text::lines(part@);
    let mut any: bool = false;
    let mut i: usize = 0;
    while i < ranges.len()
        invariant
            i <= ranges.len(),
            c@ == part@,
            ls == text::lines(part@),
            text::cuts(c@, ranges@) == ls,
            forall|i: int|
                0 <= i < ranges.len() ==> (#[trigger] ranges@[i]).0 <= ranges@[i].1 <= c.len(),
            any == exists|j: int| 0 <= j < i && filled(#[trigger] ls[j]),
            forall|j: int| 0 <= j < i && filled(#[trigger] ls[j]) ==> narrates(ls[j]),
        decreases ranges.len() - i,
    {
        let (from, to) = ranges[i];
        let start: usize = text::skip_white(&c, from, to);
        let end: usize = text::skip_white_back(&c, start, to);
        assert(ls[i as int] == c@.subrange(from as int, to as int));
        if start < end {
            assert(filled(ls[i as int]));
            any = true;
            if !text::opens_with(&c, start, to, "I will") && !text::opens_with(
                &c,
                start,
                to,
                "I'll",
            ) && !text::opens_with(&c, start, to, "I\u{2019}ll") {
                assert(!narrates(ls[i as int]));
                return false;
            }
        }
        i = i + 1;
    }
    any
}

/// Joins the parts from the first one on that is not narration. Narration
/// behind that one is part of the answer.
pub fn filter_narration(parts: &[String]) -> (r: Option<String>)
    ensures
        text::opt_text(r) == filtered(text::texts(parts@)),
{
    let ghost all = text::texts(parts@);
    let mut first: usize = 0;
    assert(all.skip(0) =~= all);
    while first < parts.len() && is_narration(parts[first].as_str())
        invariant
            first <= parts.len(),
            all == text::texts(parts@),
            past_leading_narration(all.skip(first as int)) == past_leading_narration(all),
        decreases parts.len() - first,
    {
        assert(all.skip(first as int).first() == parts@[first as int]@);
        assert(all.skip(first as int).drop_first() =~= all.skip(first + 1));
        first = first + 1;
    }
    let ghost rest = all.skip(first as int);
    proof {
        if first < parts.len() {
            assert(rest.first() == parts@[first as int]@);
        }
    }
    let mut kept: Vec<String> = Vec::new();
    let mut i: usize = first;
    assert(text::texts(kept@) =~= rest.take(0));
    while i < parts.len()
        invariant
            first <= i <= parts.len(),
            all == text::texts(parts@),
            rest == all.skip(first as int),
            text::texts(kept@) == rest.take(i - first),
        decreases parts.len() - i,
    {
        let ghost before = kept@;
        kept.push(parts[i].clone());
        assert(text::texts(kept@) =~= text::texts(before).push(parts@[i as int]@));
        assert(text::texts(kept@) =~= rest.take(i + 1 - first));
        i = i + 1;
    }
    assert(rest.take(parts.len() - first) =~= rest);
    let joined: String = text::joined(&kept, "\n");
    if joined.as_str().is_empty() {
        None
    } else {
        Some(joined)
    }
}

} // verus!
