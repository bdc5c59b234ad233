//! Text as sequences of characters: trimming, lines, searching, joining and
//! cutting to a byte length.
use vstd::prelude::*;
use vstd::utf8::*;

verus! {

/// A character that Unicode gives the property `White_Space`.
pub open spec fn is_white_space(c: char) -> bool {
    let n = c as u32;
    ||| 0x9 <= n <= 0xd
    ||| n == 0x20
    ||| n == 0x85
    ||| n == 0xa0
    ||| n == 0x1680
    ||| 0x2000 <= n <= 0x200a
    ||| n == 0x2028
    ||| n == 0x2029
    ||| n == 0x202f
    ||| n == 0x205f
    ||| n == 0x3000
}

/// `s` without its leading white space.
pub open spec fn trim_start(s: Seq<char>) -> Seq<char>
    decreases s.len(),
{
    if s.len() > 0 && is_white_space(s.first()) {
        trim_start(s.drop_first())
    } else {
        s
    }
}

/// `s` without its trailing white space.
pub open spec fn trim_end(s: Seq<char>) -> Seq<char>
    decreases s.len(),
{
    if s.len() > 0 && is_white_space(s.last()) {
        trim_end(s.drop_last())
    } else {
        s
    }
}

/// `s` without white space at either end.
pub open spec fn trim(s: Seq<char>) -> Seq<char> {
    trim_end(trim_start(s))
}

/// The number of characters before the first line feed, or all of them.
pub open spec fn line_len(s: Seq<char>) -> nat
    decreases s.len(),
{
    if s.len() == 0 || s.first() == '\n' {
        0
    } else {
        1 + line_len(s.drop_first())
    }
}

/// `s` without one carriage return at its end.
pub open spec fn without_cr(s: Seq<char>) -> Seq<char> {
    if s.len() > 0 && s.last() == '\r' {
        s.drop_last()
    } else {
        s
    }
}

/// The lines of `s`: each ends in a line feed, or in a carriage return and a
/// line feed, neither of which belongs to it. The last line may go without.
pub open spec fn lines(s: Seq<char>) -> Seq<Seq<char>>
    decreases s.len(),
{
    if s.len() == 0 {
        Seq::empty()
    } else if line_len(s) >= s.len() {
        seq![s]
    } else {
        seq![without_cr(s.take(line_len(s) as int))] + lines(s.skip(line_len(s) as int + 1))
    }
}

/// `pat` stands in `s` at position `i`.
pub open spec fn occurs_at(s: Seq<char>, pat: Seq<char>, i: int) -> bool {
    0 <= i && i + pat.len() <= s.len() && s.subrange(i, i + pat.len()) == pat
}

/// `pat` stands somewhere in `s`.
pub open spec fn contains(s: Seq<char>, pat: Seq<char>) -> bool {
    exists|i: int| occurs_at(s, pat, i)
}

/// `i` is the first position at which `pat` stands in `s`.
pub open spec fn first_at(s: Seq<char>, pat: Seq<char>, i: int) -> bool {
    occurs_at(s, pat, i) && forall|j: int| j < i ==> !occurs_at(s, pat, j)
}

/// The first position at which `pat` stands in `s`.
pub open spec fn find(s: Seq<char>, pat: Seq<char>) -> Option<int> {
    if contains(s, pat) {
        Some(choose|i: int| first_at(s, pat, i))
    } else {
        None
    }
}

pub open spec fn starts_with(s: Seq<char>, pat: Seq<char>) -> bool {
    occurs_at(s, pat, 0)
}

pub open spec fn ends_with(s: Seq<char>, pat: Seq<char>) -> bool {
    occurs_at(s, pat, s.len() - pat.len())
}

/// The texts in `parts` one after another, `sep` between neighbours.
pub open spec fn join(parts: Seq<Seq<char>>, sep: Seq<char>) -> Seq<char>
    decreases parts.len(),
{
    if parts.len() == 0 {
        Seq::empty()
    } else if parts.len() == 1 {
        parts[0]
    } else {
        join(parts.drop_last(), sep) + sep + parts.last()
    }
}

/// The longest prefix of `s` that takes at most `max` bytes in UTF-8.
pub open spec fn truncated(s: Seq<char>, max: nat) -> Seq<char>
    decreases s.len(),
{
    if s.len() == 0 || encode_utf8(s).len() <= max {
        s
    } else {
        truncated(s.drop_last(), max)
    }
}

/// The texts of `v`.
pub open spec fn texts(v: Seq<String>) -> Seq<Seq<char>> {
    v.map_values(|s: String| s@)
}

/// The text of `o`, if there is one.
pub open spec fn opt_text(o: Option<String>) -> Option<Seq<char>> {
    match o {
        Some(s) => Some(s@),
        None => None,
    }
}

/// The text of `o`, if there is one.
pub open spec fn opt_str(o: Option<&str>) -> Option<Seq<char>> {
    match o {
        Some(s) => Some(s@),
        None => None,
    }
}

pub fn is_whitespace(c: char) -> (r: bool)
    ensures
        r == is_white_space(c),
{
    let n: u32 = c as u32;
    (0x9 <= n && n <= 0xd) || n == 0x20 || n == 0x85 || n == 0xa0 || n == 0x1680 || (0x2000 <= n
        && n <= 0x200a) || n == 0x2028 || n == 0x2029 || n == 0x202f || n == 0x205f || n == 0x3000
}

/// The characters of `s`.
pub fn chars_of(s: &str) -> (r: Vec<char>)
    ensures
        r@ == s@,
{
    let mut r: Vec<char> = Vec::new();
    for c in it: s.chars()
        invariant
            it.seq() == s@,
            r@ == s@.take(it.index() as int),
    {
        r.push(c);
    }
    r
}

pub fn same_text(a: &str, b: &str) -> (r: bool)
    ensures
        r == (a@ == b@),
{
    let x: Vec<char> = chars_of(a);
    let y: Vec<char> = chars_of(b);
    if x.len() != y.len() {
        return false;
    }
    let mut i: usize = 0;
    while i < x.len()
        invariant
            i <= x.len(),
            x.len() == y.len(),
            x@ == a@,
            y@ == b@,
            forall|j: int| 0 <= j < i ==> x@[j] == y@[j],
        decreases x.len() - i,
    {
        if x[i] != y[i] {
            return false;
        }
        i = i + 1;
    }
    assert(a@ =~= b@);
    true
}

/// A piece of `s`, from character `from` up to character `to`.
pub fn piece(s: &str, from: usize, to: usize) -> (r: String)
    requires
        from <= to <= s@.len(),
    ensures
        r@ == s@.subrange(from as int, to as int),
{
    s.substring_char(from, to).to_owned()
}

/// Where the text from `from` to `to` begins when its leading white space is
/// dropped.
pub fn skip_white(s: &Vec<char>, from: usize, to: usize) -> (r: usize)
    requires
        from <= to <= s.len(),
    ensures
        from <= r <= to,
        trim_start(s@.subrange(from as int, to as int)) == s@.subrange(r as int, to as int),
{
    let mut i: usize = from;
    while i < to && is_whitespace(s[i])
        invariant
            from <= i <= to <= s.len(),
            trim_start(s@.subrange(from as int, to as int)) == trim_start(
                s@.subrange(i as int, to as int),
            ),
        decreases to - i,
    {
        assert(s@.subrange(i as int, to as int).drop_first() =~= s@.subrange(i + 1, to as int));
        i = i + 1;
    }
    i
}

/// Where the text from `from` to `to` ends when its trailing white space is
/// dropped.
pub fn skip_white_back(s: &Vec<char>, from: usize, to: usize) -> (r: usize)
    requires
        from <= to <= s.len(),
    ensures
        from <= r <= to,
        trim_end(s@.subrange(from as int, to as int)) == s@.subrange(from as int, r as int),
{
    let mut i: usize = to;
    while i > from && is_whitespace(s[i - 1])
        invariant
            from <= i <= to <= s.len(),
            trim_end(s@.subrange(from as int, to as int)) == trim_end(
                s@.subrange(from as int, i as int),
            ),
        decreases i - from,
    {
        assert(s@.subrange(from as int, i as int).drop_last() =~= s@.subrange(from as int, i - 1));
        i = i - 1;
    }
    i
}

pub fn trimmed(s: &str) -> (r: String)
    ensures
        r@ == trim(s@),
{
    let c: Vec<char> = chars_of(s);
    let from: usize = skip_white(&c, 0, c.len());
    let to: usize = skip_white_back(&c, from, c.len());
    assert(c@.subrange(0, c@.len() as int) =~= s@);
    piece(s, from, to)
}

pub fn trimmed_end(s: &str) -> (r: String)
    ensures
        r@ == trim_end(s@),
{
    let c: Vec<char> = chars_of(s);
    let to: usize = skip_white_back(&c, 0, c.len());
    assert(c@.subrange(0, c@.len() as int) =~= s@);
    piece(s, 0, to)
}

/// The texts that the ranges `r` cut out of `s`.
pub open spec fn cuts(s: Seq<char>, r: Seq<(usize, usize)>) -> Seq<Seq<char>> {
    r.map_values(|p: (usize, usize)| s.subrange(p.0 as int, p.1 as int))
}

/// Where each line of `s` begins and ends.
pub fn line_ranges(s: &Vec<char>) -> (r: Vec<(usize, usize)>)
    ensures
        cuts(s@, r@) == lines(s@),
        forall|i: int| 0 <= i < r.len() ==> (#[trigger] r@[i]).0 <= r@[i].1 <= s.len(),
{
    let mut r: Vec<(usize, usize)> = Vec::new();
    let mut pos: usize = 0;
    assert(s@.skip(0) =~= s@);
    assert(cuts(s@, r@) + lines(s@) =~= lines(s@));
    while pos < s.len()
        invariant
            pos <= s.len(),
            cuts(s@, r@) + lines(s@.skip(pos as int)) == lines(s@),
            forall|i: int| 0 <= i < r.len() ==> (#[trigger] r@[i]).0 <= r@[i].1 <= s.len(),
        decreases s.len() - pos,
    {
        let ghost rest = s@.skip(pos as int);
        let mut end: usize = pos;
        assert(s@.skip(end as int) == rest);
        while end < s.len() && s[end] != '\n'
            invariant
                pos <= end <= s.len(),
                rest == s@.skip(pos as int),
                line_len(rest) == (end - pos) + line_len(s@.skip(end as int)),
            decreases s.len() - end,
        {
            assert(s@.skip(end as int).drop_first() =~= s@.skip(end + 1));
            end = end + 1;
        }
        let ghost before = cuts(s@, r@);
        if end == s.len() {
            r.push((pos, end));
            proof {
                assert(rest =~= s@.subrange(pos as int, end as int));
                assert(lines(rest) =~= seq![rest]);
                assert(cuts(s@, r@) =~= before.push(rest));
                assert(s@.skip(end as int) =~= Seq::empty());
                assert(cuts(s@, r@) + lines(s@.skip(end as int)) =~= before + lines(rest));
            }
            pos = end;
        } else {
            let mut last: usize = end;
            if end > pos && s[end - 1] == '\r' {
                last = end - 1;
            }
            r.push((pos, last));
            proof {
                let line = without_cr(rest.take(end - pos));
                assert(line =~= s@.subrange(pos as int, last as int));
                assert(cuts(s@, r@) =~= before.push(line));
                assert(rest.skip(end - pos + 1) =~= s@.skip(end + 1));
                assert(cuts(s@, r@) + lines(s@.skip(end + 1)) =~= before + lines(rest));
            }
            pos = end + 1;
        }
    }
    assert(s@.skip(pos as int) =~= Seq::empty());
    assert(cuts(s@, r@) =~= lines(s@));
    r
}

/// Whether `pat` stands in `s` at position `i`.
pub fn stands_at(s: &Vec<char>, pat: &Vec<char>, i: usize) -> (r: bool)
    ensures
        r == occurs_at(s@, pat@, i as int),
{
    if i > s.len() || pat.len() > s.len() - i {
        return false;
    }
    let mut k: usize = 0;
    while k < pat.len()
        invariant
            k <= pat.len(),
            i + pat.len() <= s.len(),
            forall|j: int| 0 <= j < k ==> s@[i + j] == pat@[j],
        decreases pat.len() - k,
    {
        if s[i + k] != pat[k] {
            assert(s@.subrange(i as int, i + pat.len())[k as int] != pat@[k as int]);
            return false;
        }
        k = k + 1;
    }
    assert(s@.subrange(i as int, i + pat.len()) =~= pat@);
    true
}

/// The first position from `from` on, before `to`, at which all of `pat`
/// stands.
pub fn find_in(s: &Vec<char>, from: usize, to: usize, pat: &Vec<char>) -> (r: Option<usize>)
    requires
        from <= to <= s.len(),
        pat.len() > 0,
    ensures
        match r {
            Some(i) => from <= i && i + pat.len() <= to && find(
                s@.subrange(from as int, to as int),
                pat@,
            ) == Some(i - from),
            None => find(s@.subrange(from as int, to as int), pat@) is None,
        },
{
    let ghost part = s@.subrange(from as int, to as int);
    let mut i: usize = from;
    while i < to && pat.len() <= to - i
        invariant
            from <= i <= to <= s.len(),
            part == s@.subrange(from as int, to as int),
            forall|j: int| j < i - from ==> !occurs_at(part, pat@, j),
            pat.len() > 0,
        decreases to - i,
    {
        let hit: bool = stands_at(s, pat, i);
        assert(part.subrange(i - from, i - from + pat.len()) =~= s@.subrange(
            i as int,
            i + pat.len(),
        ));
        if hit {
            proof {
                assert(first_at(part, pat@, i - from));
                lemma_find(part, pat@, i - from);
            }
            return Some(i);
        }
        i = i + 1;
    }
    None
}

/// A first position is what `find` gives.
pub proof fn lemma_find(s: Seq<char>, pat: Seq<char>, i: int)
    requires
        first_at(s, pat, i),
    ensures
        find(s, pat) == Some(i),
{
    let k = choose|k: int| first_at(s, pat, k);
    assert(first_at(s, pat, k));
    assert(!(k < i));
    assert(!(i < k));
}

/// Where `pat` occurs at all, `find` gives its first position.
pub proof fn lemma_find_first(s: Seq<char>, pat: Seq<char>, i: int)
    requires
        occurs_at(s, pat, i),
    ensures
        find(s, pat) is Some,
        first_at(s, pat, find(s, pat)->0),
        find(s, pat)->0 <= i,
    decreases i,
{
    if forall|j: int| j < i ==> !occurs_at(s, pat, j) {
        assert(first_at(s, pat, i));
        lemma_find(s, pat, i);
    } else {
        let j = choose|j: int| j < i && occurs_at(s, pat, j);
        lemma_find_first(s, pat, j);
    }
}

/// Whether the text from `from` to `to` starts with `pat`.
pub fn opens_with(s: &Vec<char>, from: usize, to: usize, pat: &str) -> (r: bool)
    requires
        from <= to <= s.len(),
    ensures
        r == starts_with(s@.subrange(from as int, to as int), pat@),
{
    let p: Vec<char> = chars_of(pat);
    if p.len() > to - from {
        return false;
    }
    assert(s@.subrange(from as int, to as int).subrange(0, p.len() as int) =~= s@.subrange(
        from as int,
        from + p.len(),
    ));
    stands_at(s, &p, from)
}

pub fn has_prefix(s: &str, pat: &str) -> (r: bool)
    ensures
        r == starts_with(s@, pat@),
{
    stands_at(&chars_of(s), &chars_of(pat), 0)
}

pub fn has_suffix(s: &str, pat: &str) -> (r: bool)
    ensures
        r == ends_with(s@, pat@),
{
    let c: Vec<char> = chars_of(s);
    let p: Vec<char> = chars_of(pat);
    if p.len() > c.len() {
        return false;
    }
    stands_at(&c, &p, c.len() - p.len())
}

/// Joins `parts` with `sep` between neighbours.
pub fn joined(parts: &Vec<String>, sep: &str) -> (r: String)
    ensures
        r@ == join(texts(parts@), sep@),
{
    let mut r: String = String::new();
    let mut i: usize = 0;
    assert(texts(parts@).take(0) =~= Seq::empty());
    while i < parts.len()
        invariant
            i <= parts.len(),
            r@ == join(texts(parts@).take(i as int), sep@),
        decreases parts.len() - i,
    {
        if i > 0 {
            r.append(sep);
        }
        r.append(parts[i].as_str());
        proof {
            let t = texts(parts@);
            assert(t.take(i + 1).drop_last() =~= t.take(i as int));
            assert(t.take(i + 1).last() == parts@[i as int]@);
            if i == 0 {
                assert(r@ =~= parts@[0]@);
            }
        }
        i = i + 1;
    }
    assert(texts(parts@).take(parts.len() as int) =~= texts(parts@));
    r
}

/// The UTF-8 form of two texts in a row is the two forms in a row.
pub proof fn lemma_encode_concat(a: Seq<char>, b: Seq<char>)
    ensures
        encode_utf8(a + b) == encode_utf8(a) + encode_utf8(b),
    decreases a.len(),
{
    if a.len() == 0 {
        assert(a + b =~= b);
        assert(encode_utf8(a) + encode_utf8(b) =~= encode_utf8(b));
    } else {
        lemma_encode_concat(a.drop_first(), b);
        assert((a + b).drop_first() =~= a.drop_first() + b);
        assert(encode_utf8(a + b) =~= encode_utf8(a) + encode_utf8(b));
    }
}

/// The number of bytes that `c` takes in UTF-8.
pub fn utf8_width(c: char) -> (r: usize)
    ensures
        r == encode_utf8(seq![c]).len(),
        1 <= r <= 4,
{
    proof {
        char_is_scalar(c);
        assert(seq![c].drop_first() =~= Seq::empty());
        assert(encode_utf8(seq![c]) =~= encode_scalar(c as u32) + encode_utf8(Seq::empty()));
    }
    let n: u32 = c as u32;
    if n <= 0x7f {
        1
    } else if n <= 0x7ff {
        2
    } else if n <= 0xffff {
        3
    } else {
        4
    }
}

/// A text is cut to a prefix that fits, and one more character would not.
pub proof fn lemma_truncated(s: Seq<char>, max: nat)
    ensures
        truncated(s, max).len() <= s.len(),
        truncated(s, max) == s.take(truncated(s, max).len() as int),
        encode_utf8(truncated(s, max)).len() <= max,
        truncated(s, max).len() < s.len() ==> encode_utf8(
            s.take(truncated(s, max).len() as int + 1),
        ).len() > max,
    decreases s.len(),
{
    if s.len() == 0 || encode_utf8(s).len() <= max {
        assert(s.take(s.len() as int) =~= s);
    } else {
        lemma_truncated(s.drop_last(), max);
        let t = truncated(s, max);
        assert(s.drop_last().take(t.len() as int) =~= s.take(t.len() as int));
        if t.len() < s.len() - 1 {
            assert(s.drop_last().take(t.len() as int + 1) =~= s.take(t.len() as int + 1));
        } else {
            assert(s.take(t.len() as int + 1) =~= s);
        }
    }
}

} // verus!
