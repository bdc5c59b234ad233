//! What holds of narration and of the filter that takes it out.
use vstd::prelude::*;

use crate::narration;
use crate::text;
use crate::text_laws;

verus! {

/// A text without anything but white space on its lines.
pub open spec fn blank(part: Seq<char>) -> bool {
    forall|i: int|
        0 <= i < text::lines(part).len() ==> !narration::filled(#[trigger] text::lines(part)[i])
}

/// A blank text is no narration.
pub proof fn law_blank_is_no_narration(part: Seq<char>)
    requires
        blank(part),
    ensures
        !narration::narration(part),
{
}

/// The first part that is left is no narration, nothing goes where the first
/// part is none, what is left stands at the end of what was there, and stays
/// when it is filtered again.
pub proof fn law_leading_narration_is_gone(parts: Seq<Seq<char>>)
    ensures
        ({
            let left = narration::past_leading_narration(parts);
            let gone = parts.len() - left.len();
            &&& left.len() > 0 ==> !narration::narration(left.first())
            &&& (parts.len() > 0 && !narration::narration(parts.first())) ==> left == parts
            &&& gone >= 0
            &&& left == parts.skip(gone)
            &&& forall|i: int| 0 <= i < gone ==> narration::narration(#[trigger] parts[i])
            &&& narration::past_leading_narration(left) == left
        }),
    decreases parts.len(),
{
    if parts.len() > 0 && narration::narration(parts.first()) {
        let rest = parts.drop_first();
        law_leading_narration_is_gone(rest);
        let left = narration::past_leading_narration(rest);
        let gone = parts.len() - left.len();
        assert(parts.skip(gone) =~= rest.skip(gone - 1));
        assert forall|i: int| 0 <= i < gone implies narration::narration(#[trigger] parts[i]) by {
            if i > 0 {
                assert(parts[i] == rest[i - 1]);
            }
        }
    } else {
        assert(parts.skip(0) =~= parts);
    }
}

/// A line that is filled, and that does not narrate where `otherwise` is set.
spec fn marked(line: Seq<char>, otherwise: bool) -> bool {
    narration::filled(line) && (otherwise ==> !narration::narrates(line))
}

/// One of `ls` is marked.
spec fn any_marked(ls: Seq<Seq<char>>, otherwise: bool) -> bool {
    exists|i: int| 0 <= i < ls.len() && #[trigger] marked(ls[i], otherwise)
}

proof fn lemma_narration(part: Seq<char>)
    ensures
        blank(part) == !any_marked(text::lines(part), false),
        narration::narration(part) == (!blank(part) && !any_marked(text::lines(part), true)),
{
    let ls = text::lines(part);
    if any_marked(ls, false) {
        let i = choose|i: int| 0 <= i < ls.len() && #[trigger] marked(ls[i], false);
        assert(narration::filled(ls[i]));
    }
    if !blank(part) {
        let i = choose|i: int| 0 <= i < ls.len() && narration::filled(#[trigger] ls[i]);
        assert(marked(ls[i], false));
        if !any_marked(ls, true) {
            assert forall|j: int| 0 <= j < ls.len() && narration::filled(#[trigger] ls[j]) implies
                narration::narrates(ls[j]) by {
                assert(!marked(ls[j], true));
            }
        } else {
            let j = choose|j: int| 0 <= j < ls.len() && #[trigger] marked(ls[j], true);
            assert(narration::filled(ls[j]));
        }
    }
}

proof fn lemma_trim_start_push(line: Seq<char>)
    ensures
        text::trim_start(line).len() > 0 ==> text::trim_start(line.push('\r'))
            == text::trim_start(line).push('\r'),
        text::trim_start(line).len() == 0 ==> text::trim_start(line.push('\r')).len() == 0,
    decreases line.len(),
{
    let longer = line.push('\r');
    if line.len() == 0 {
        assert(longer.drop_first() =~= Seq::empty());
        assert(text::trim_start(longer.drop_first()).len() == 0);
    } else {
        assert(longer.first() == line.first());
        assert(longer.drop_first() =~= line.drop_first().push('\r'));
        lemma_trim_start_push(line.drop_first());
    }
}

/// A carriage return at its end does not change what a line starts with.
proof fn lemma_starts_with_push(line: Seq<char>, pat: Seq<char>)
    requires
        pat.len() > 0,
        pat.last() != '\r',
    ensures
        text::starts_with(line.push('\r'), pat) == text::starts_with(line, pat),
{
    let longer = line.push('\r');
    if text::starts_with(longer, pat) {
        if pat.len() == longer.len() {
            assert(longer.subrange(0, pat.len() as int).last() == '\r');
        }
        assert(longer.subrange(0, pat.len() as int) =~= line.subrange(0, pat.len() as int));
    }
    if text::starts_with(line, pat) {
        assert(longer.subrange(0, pat.len() as int) =~= line.subrange(0, pat.len() as int));
    }
}

proof fn lemma_marked_without_cr(line: Seq<char>, otherwise: bool)
    ensures
        marked(text::without_cr(line), otherwise) == marked(line, otherwise),
{
    if line.len() > 0 && line.last() == '\r' {
        let short = line.drop_last();
        assert(line =~= short.push('\r'));
        lemma_trim_start_push(short);
        let x = text::trim_start(short);
        if x.len() > 0 {
            assert(x.push('\r').drop_last() =~= x);
            assert(text::trim_end(x.push('\r')) == text::trim_end(x));
            reveal_strlit("I will");
            reveal_strlit("I'll");
            reveal_strlit("I\u{2019}ll");
            lemma_starts_with_push(x, "I will"@);
            lemma_starts_with_push(x, "I'll"@);
            lemma_starts_with_push(x, "I\u{2019}ll"@);
        }
    }
}

proof fn lemma_line_len_joined(a: Seq<char>, b: Seq<char>)
    ensures
        text::line_len(a.push('\n') + b) == text::line_len(a),
        text::line_len(a) <= a.len(),
    decreases a.len(),
{
    let s = a.push('\n') + b;
    if a.len() == 0 {
        assert(s.first() == '\n');
    } else {
        assert(s.first() == a.first());
        assert(s.drop_first() =~= a.drop_first().push('\n') + b);
        lemma_line_len_joined(a.drop_first(), b);
    }
}

proof fn lemma_any_marked_first(line: Seq<char>, rest: Seq<Seq<char>>, otherwise: bool)
    ensures
        any_marked(seq![line] + rest, otherwise) == (marked(line, otherwise) || any_marked(
            rest,
            otherwise,
        )),
{
    let ls = seq![line] + rest;
    if any_marked(ls, otherwise) {
        let i = choose|i: int| 0 <= i < ls.len() && #[trigger] marked(ls[i], otherwise);
        if i > 0 {
            assert(marked(rest[i - 1], otherwise));
        }
    }
    if marked(line, otherwise) {
        assert(marked(ls[0], otherwise));
    }
    if any_marked(rest, otherwise) {
        let i = choose|i: int| 0 <= i < rest.len() && #[trigger] marked(rest[i], otherwise);
        assert(ls[i + 1] == rest[i]);
        assert(marked(ls[i + 1], otherwise));
    }
}

/// The lines of two texts with a line feed between them are those of both.
proof fn lemma_joined_lines(a: Seq<char>, b: Seq<char>, otherwise: bool)
    ensures
        any_marked(text::lines(a.push('\n') + b), otherwise) == (any_marked(
            text::lines(a),
            otherwise,
        ) || any_marked(text::lines(b), otherwise)),
    decreases a.len(),
{
    let s = a.push('\n') + b;
    let k = text::line_len(a) as int;
    lemma_line_len_joined(a, b);
    assert(s.take(k) =~= a.take(k));
    let line = text::without_cr(a.take(k));
    if k < a.len() {
        let rest = a.skip(k + 1);
        assert(s.skip(k + 1) =~= rest.push('\n') + b);
        lemma_joined_lines(rest, b, otherwise);
        lemma_any_marked_first(line, text::lines(rest), otherwise);
        lemma_any_marked_first(line, text::lines(rest.push('\n') + b), otherwise);
    } else {
        assert(a.take(k) =~= a);
        assert(s.skip(k + 1) =~= b);
        lemma_any_marked_first(line, text::lines(b), otherwise);
        lemma_marked_without_cr(a, otherwise);
        if a.len() > 0 {
            lemma_any_marked_first(a, Seq::empty(), otherwise);
            assert(seq![a] + Seq::<Seq<char>>::empty() =~= seq![a]);
        }
    }
}

/// Two texts with a line feed between them are narration exactly where each of
/// them is narration or blank, and not both are blank.
pub proof fn law_joined_narration(a: Seq<char>, b: Seq<char>)
    ensures
        narration::narration(a + "\n"@ + b) <==> {
            &&& narration::narration(a) || blank(a)
            &&& narration::narration(b) || blank(b)
            &&& !blank(a) || !blank(b)
        },
        blank(a + "\n"@ + b) <==> blank(a) && blank(b),
{
    reveal_strlit("\n");
    let s = a.push('\n') + b;
    assert(a + "\n"@ + b =~= s);
    lemma_joined_lines(a, b, false);
    lemma_joined_lines(a, b, true);
    lemma_narration(a);
    lemma_narration(b);
    lemma_narration(s);
}

/// What the first part says is said by all of them together.
proof fn lemma_join_says_more(parts: Seq<Seq<char>>)
    requires
        parts.len() > 0,
        !blank(parts.first()),
        !narration::narration(parts.first()),
    ensures
        !blank(text::join(parts, "\n"@)),
        !narration::narration(text::join(parts, "\n"@)),
    decreases parts.len(),
{
    if parts.len() > 1 {
        let rest = parts.drop_last();
        assert(rest.first() == parts.first());
        lemma_join_says_more(rest);
        law_joined_narration(text::join(rest, "\n"@), parts.last());
    }
}

/// A text that the filter has let through is let through again as it is. The
/// first part that was left has to say something: behind a blank one, narration
/// would be at the front of the text.
pub proof fn law_filtered_text_is_kept(parts: Seq<Seq<char>>)
    requires
        narration::past_leading_narration(parts).len() > 0,
        !blank(narration::past_leading_narration(parts).first()),
    ensures
        narration::filtered(parts) is Some,
        narration::filtered(seq![narration::filtered(parts)->0]) == narration::filtered(parts),
{
    law_leading_narration_is_gone(parts);
    let left = narration::past_leading_narration(parts);
    lemma_join_says_more(left);
    let kept = text::join(left, "\n"@);
    if kept.len() == 0 {
        assert(text::lines(kept).len() == 0);
    }
    assert(seq![kept].first() == kept);
}

proof fn lemma_trim_end_keeps(s: Seq<char>)
    requires
        s.len() > 0,
        !text::is_white_space(s[0]),
    ensures
        text::trim_end(s).len() > 0,
    decreases s.len(),
{
    if text::is_white_space(s.last()) {
        lemma_trim_end_keeps(s.drop_last());
    }
}

proof fn lemma_filled(line: Seq<char>)
    ensures
        narration::filled(line) <==> !text_laws::all_white(line),
        !text_laws::all_white(line) ==> text::trim_start(line).len() > 0 && !text::is_white_space(
            text::trim_start(line)[0],
        ),
    decreases line.len(),
{
    if text_laws::all_white(line) {
        text_laws::law_trim_blank(line);
    } else {
        let i = choose|i: int| 0 <= i < line.len() && !text::is_white_space(#[trigger] line[i]);
        if text::is_white_space(line.first()) {
            let rest = line.drop_first();
            assert(rest[i - 1] == line[i]);
            lemma_filled(rest);
        } else {
            lemma_trim_end_keeps(line);
        }
    }
}

/// The characters from `k` on are `I will`, or `I'll` with a straight or a
/// curved apostrophe, whatever comes behind them.
pub open spec fn announces(s: Seq<char>, k: int) -> bool {
    ||| {
        &&& k + 6 <= s.len()
        &&& s[k] == 'I'
        &&& s[k + 1] == ' '
        &&& s[k + 2] == 'w'
        &&& s[k + 3] == 'i'
        &&& s[k + 4] == 'l'
        &&& s[k + 5] == 'l'
    }
    ||| {
        &&& k + 4 <= s.len()
        &&& s[k] == 'I'
        &&& s[k + 1] == '\'' || s[k + 1] == '\u{2019}'
        &&& s[k + 2] == 'l'
        &&& s[k + 3] == 'l'
    }
}

/// A text of one line is narration exactly where it announces something, from
/// its first character on that is no white space.
pub proof fn law_line_is_narration(line: Seq<char>, k: int)
    requires
        !line.contains('\n'),
        0 <= k < line.len(),
        forall|j: int| 0 <= j < k ==> text::is_white_space(#[trigger] line[j]),
        !text::is_white_space(line[k]),
    ensures
        narration::narration(line) <==> announces(line, k),
{
    text_laws::law_lines(line, Seq::empty());
    let ls = text::lines(line);
    assert(ls[0] == line);
    lemma_filled(line);
    assert(narration::filled(ls[0]));
    lemma_line_narrates(line, k);
}

proof fn lemma_line_narrates(line: Seq<char>, k: int)
    requires
        0 <= k < line.len(),
        forall|j: int| 0 <= j < k ==> text::is_white_space(#[trigger] line[j]),
        !text::is_white_space(line[k]),
    ensures
        narration::narrates(line) <==> announces(line, k),
{
    let x = line.skip(k);
    assert(line =~= line.take(k) + x);
    text_laws::lemma_trim_start(line.take(k), x);
    lemma_starts_i_will(x);
    lemma_starts_ill(x);
    lemma_starts_curved(x);
    assert(announces(x, 0) <==> announces(line, k));
}

proof fn lemma_starts_i_will(x: Seq<char>)
    ensures
        text::starts_with(x, "I will"@) <==> x.len() >= 6 && x[0] == 'I' && x[1] == ' ' && x[2]
            == 'w' && x[3] == 'i' && x[4] == 'l' && x[5] == 'l',
{
    reveal_strlit("I will");
    let a = "I will"@;
    if text::starts_with(x, a) {
        let p = x.subrange(0, 6);
        assert(p[0] == 'I' && p[1] == ' ' && p[2] == 'w' && p[3] == 'i' && p[4] == 'l' && p[5]
            == 'l');
    } else if x.len() >= 6 {
        let p = x.subrange(0, 6);
        if p[0] == 'I' && p[1] == ' ' && p[2] == 'w' && p[3] == 'i' && p[4] == 'l' && p[5] == 'l' {
            assert(p =~= a);
        }
    }
}

proof fn lemma_starts_ill(x: Seq<char>)
    ensures
        text::starts_with(x, "I'll"@) <==> x.len() >= 4 && x[0] == 'I' && x[1] == '\'' && x[2]
            == 'l' && x[3] == 'l',
{
    reveal_strlit("I'll");
    let a = "I'll"@;
    if text::starts_with(x, a) {
        let p = x.subrange(0, 4);
        assert(p[0] == 'I' && p[1] == '\'' && p[2] == 'l' && p[3] == 'l');
    } else if x.len() >= 4 {
        let p = x.subrange(0, 4);
        if p[0] == 'I' && p[1] == '\'' && p[2] == 'l' && p[3] == 'l' {
            assert(p =~= a);
        }
    }
}

proof fn lemma_starts_curved(x: Seq<char>)
    ensures
        text::starts_with(x, "I\u{2019}ll"@) <==> x.len() >= 4 && x[0] == 'I' && x[1]
            == '\u{2019}' && x[2] == 'l' && x[3] == 'l',
{
    reveal_strlit("I\u{2019}ll");
    let a = "I\u{2019}ll"@;
    if text::starts_with(x, a) {
        let p = x.subrange(0, 4);
        assert(p[0] == 'I' && p[1] == '\u{2019}' && p[2] == 'l' && p[3] == 'l');
    } else if x.len() >= 4 {
        let p = x.subrange(0, 4);
        if p[0] == 'I' && p[1] == '\u{2019}' && p[2] == 'l' && p[3] == 'l' {
            assert(p =~= a);
        }
    }
}

/// A text is blank exactly where it is nothing but white space, and then it is
/// no narration.
pub proof fn law_blank_is_white(s: Seq<char>)
    ensures
        blank(s) <==> text_laws::all_white(s),
        text_laws::all_white(s) ==> !narration::narration(s),
{
    lemma_any_filled(s);
    lemma_narration(s);
}

proof fn lemma_any_filled(s: Seq<char>)
    ensures
        any_marked(text::lines(s), false) <==> !text_laws::all_white(s),
    decreases s.len(),
{
    if s.len() > 0 {
        let k = text::line_len(s) as int;
        lemma_line_len_joined(s, Seq::empty());
        if k >= s.len() {
            lemma_filled(s);
            lemma_any_marked_first(s, Seq::empty(), false);
            assert(seq![s] + Seq::<Seq<char>>::empty() =~= seq![s]);
        } else {
            let line = s.take(k);
            let rest = s.skip(k + 1);
            lemma_feed_at(s);
            lemma_any_filled(rest);
            lemma_filled(line);
            lemma_marked_without_cr(line, false);
            lemma_any_marked_first(text::without_cr(line), text::lines(rest), false);
            if !text_laws::all_white(s) {
                let i = choose|i: int| 0 <= i < s.len() && !text::is_white_space(#[trigger] s[i]);
                if i < k {
                    assert(line[i] == s[i]);
                } else {
                    assert(i > k);
                    assert(rest[i - k - 1] == s[i]);
                }
            }
            if !text_laws::all_white(line) {
                let i = choose|i: int|
                    0 <= i < line.len() && !text::is_white_space(#[trigger] line[i]);
                assert(s[i] == line[i]);
            }
            if !text_laws::all_white(rest) {
                let i = choose|i: int|
                    0 <= i < rest.len() && !text::is_white_space(#[trigger] rest[i]);
                assert(s[i + k + 1] == rest[i]);
            }
        }
    }
}

proof fn lemma_feed_at(s: Seq<char>)
    requires
        text::line_len(s) < s.len(),
    ensures
        s[text::line_len(s) as int] == '\n',
    decreases s.len(),
{
    if s.first() != '\n' {
        lemma_feed_at(s.drop_first());
    }
}

/// The filter skips parts in front as long as they are narration. From the first
/// other one on it keeps all of them, one below the other, whatever they are.
pub proof fn law_filter(parts: Seq<Seq<char>>)
    ensures
        narration::filtered(Seq::empty()) is None,
        parts.len() > 0 && narration::narration(parts[0]) ==> narration::filtered(parts)
            == narration::filtered(parts.drop_first()),
        parts.len() > 0 && !narration::narration(parts[0]) ==> match narration::filtered(parts) {
            Some(kept) => kept == text::join(parts, "\n"@) && kept.len() > 0,
            None => text::join(parts, "\n"@).len() == 0,
        },
{
}

} // verus!
