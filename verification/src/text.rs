//! Text as sequences of characters: matching, trimming, lines and words.
//!
//! Every function here works on the characters of a text. The specifications
//! are stated over `Seq<char>`; the executable functions take slices of
//! characters, which [`chars_of`] produces from a `&str` and [`text_of`]
//! turns back into a `String`.

use vstd::prelude::*;

verus! {

/// `String::push` of std appends one character.
pub assume_specification[ String::push ](s: &mut String, ch: char)
    ensures
        final(s)@ == old(s)@.push(ch),
;

/// Whether `c` has the Unicode property `White_Space`, as
/// `char::is_whitespace` of std decides it.
pub uninterp spec fn white_space(c: char) -> bool;

/// Calls `char::is_whitespace`. Trusted: the answer is the property that
/// [`white_space`] names, nothing more is claimed of it.
#[verifier::external_body]
pub(crate) fn is_white_space(c: char) -> (b: bool)
    ensures
        b == white_space(c),
{
    c.is_whitespace()
}

/// `pat` stands in `s` at index `at`.
pub open spec fn occurs_at(s: Seq<char>, pat: Seq<char>, at: int) -> bool {
    &&& 0 <= at
    &&& at + pat.len() <= s.len()
    &&& s.subrange(at, at + pat.len()) == pat
}

/// `s` begins with `pat`.
pub open spec fn has_prefix(s: Seq<char>, pat: Seq<char>) -> bool {
    occurs_at(s, pat, 0)
}

/// `s` ends with `pat`.
pub open spec fn has_suffix(s: Seq<char>, pat: Seq<char>) -> bool {
    occurs_at(s, pat, s.len() - pat.len())
}

/// `pat` stands somewhere in `s`.
pub open spec fn has_infix(s: Seq<char>, pat: Seq<char>) -> bool {
    exists|at: int| occurs_at(s, pat, at)
}

/// `s` without its leading white space.
pub open spec fn trim_start(s: Seq<char>) -> Seq<char>
    decreases s.len(),
{
    if s.len() > 0 && white_space(s.first()) {
        trim_start(s.drop_first())
    } else {
        s
    }
}

/// `s` without its trailing white space.
pub open spec fn trim_end(s: Seq<char>) -> Seq<char>
    decreases s.len(),
{
    if s.len() > 0 && white_space(s.last()) {
        trim_end(s.drop_last())
    } else {
        s
    }
}

/// `s` without leading and trailing white space.
pub open spec fn trim(s: Seq<char>) -> Seq<char> {
    trim_end(trim_start(s))
}

/// The number of characters of `s` before its first white space.
pub open spec fn word_len(s: Seq<char>) -> nat
    decreases s.len(),
{
    if s.len() > 0 && !white_space(s.first()) {
        1 + word_len(s.drop_first())
    } else {
        0
    }
}

/// The first run of characters of `s` that are not white space; empty when
/// `s` holds nothing but white space.
pub open spec fn first_word(s: Seq<char>) -> Seq<char> {
    let t = trim_start(s);
    t.take(word_len(t) as int)
}

/// The index of the first line feed of `s`, or the length of `s` if it has none.
pub open spec fn line_end(s: Seq<char>) -> nat
    decreases s.len(),
{
    if s.len() == 0 || s.first() == '\n' {
        0
    } else {
        1 + line_end(s.drop_first())
    }
}

/// `s` without one trailing carriage return.
pub open spec fn strip_cr(s: Seq<char>) -> Seq<char> {
    if s.len() > 0 && s.last() == '\r' {
        s.drop_last()
    } else {
        s
    }
}

/// The lines of `s`. A line ends at a line feed; a carriage return just
/// before that line feed is not part of the line. A last line needs no line
/// feed, and keeps a carriage return at its end. The empty text has no lines.
pub open spec fn lines(s: Seq<char>) -> Seq<Seq<char>>
    decreases s.len(),
{
    if s.len() == 0 {
        seq![]
    } else {
        let k = line_end(s) as int;
        if k >= s.len() {
            seq![s]
        } else {
            seq![strip_cr(s.take(k))] + lines(s.skip(k + 1))
        }
    }
}

/// `parts` joined into one text, with `sep` between neighbours.
pub open spec fn join(parts: Seq<Seq<char>>, sep: Seq<char>) -> Seq<char>
    decreases parts.len(),
{
    if parts.len() == 0 {
        seq![]
    } else if parts.len() == 1 {
        parts[0]
    } else {
        join(parts.drop_last(), sep) + sep + parts.last()
    }
}

/// The characters of `s`, in order.
pub fn chars_of(s: &str) -> (out: Vec<char>)
    ensures
        out@ == s@,
{
    let mut out: Vec<char> = Vec::new();
    for c in it: s.chars()
        invariant
            out@ == it.seq().take(it.index()),
            it.seq() == s@,
    {
        out.push(c);
    }
    out
}

/// The text that holds exactly the characters `cs`.
pub fn text_of(cs: &[char]) -> (out: String)
    ensures
        out@ == cs@,
{
    let mut out = String::new();
    let mut i: usize = 0;
    while i < cs.len()
        invariant
            i <= cs.len(),
            out@ == cs@.take(i as int),
        decreases cs.len() - i,
    {
        out.push(cs[i]);
        i += 1;
    }
    out
}

/// The characters of `cs` from index `from` up to, not including, `to`.
pub fn copy_range(cs: &[char], from: usize, to: usize) -> (out: Vec<char>)
    requires
        from <= to <= cs.len(),
    ensures
        out@ == cs@.subrange(from as int, to as int),
{
    let mut out: Vec<char> = Vec::new();
    let mut i: usize = from;
    while i < to
        invariant
            from <= i <= to <= cs.len(),
            out@ == cs@.subrange(from as int, i as int),
        decreases to - i,
    {
        out.push(cs[i]);
        i += 1;
    }
    out
}

/// Appends the characters `more` to `out`.
pub fn push_all(out: &mut Vec<char>, more: &[char])
    ensures
        final(out)@ == old(out)@ + more@,
{
    let mut i: usize = 0;
    while i < more.len()
        invariant
            i <= more.len(),
            out@ == old(out)@ + more@.take(i as int),
        decreases more.len() - i,
    {
        out.push(more[i]);
        i += 1;
    }
    assert(more@.take(more.len() as int) == more@);
}

/// Whether two texts hold the same characters.
pub fn same_chars(a: &[char], b: &[char]) -> (r: bool)
    ensures
        r == (a@ == b@),
{
    if a.len() != b.len() {
        return false;
    }
    let mut i: usize = 0;
    while i < a.len()
        invariant
            i <= a.len(),
            a.len() == b.len(),
            a@.take(i as int) == b@.take(i as int),
        decreases a.len() - i,
    {
        if a[i] != b[i] {
            return false;
        }
        assert(a@.take(i + 1) == a@.take(i as int).push(a@[i as int]));
        assert(b@.take(i + 1) == b@.take(i as int).push(b@[i as int]));
        i += 1;
    }
    assert(a@.take(a.len() as int) == a@);
    assert(b@.take(b.len() as int) == b@);
    true
}

/// Whether `pat` stands in `s` at index `at`.
pub fn matches_at(s: &[char], pat: &[char], at: usize) -> (r: bool)
    ensures
        r == occurs_at(s@, pat@, at as int),
{
    if at > s.len() || pat.len() > s.len() - at {
        return false;
    }
    let mut i: usize = 0;
    while i < pat.len()
        invariant
            i <= pat.len(),
            at + pat.len() <= s.len(),
            s@.subrange(at as int, at + i) == pat@.take(i as int),
        decreases pat.len() - i,
    {
        if s[at + i] != pat[i] {
            assert(s@.subrange(at as int, at + pat.len())[i as int] != pat@[i as int]);
            return false;
        }
        assert(s@.subrange(at as int, at + i + 1) == s@.subrange(at as int, at + i).push(
            s@[at + i],
        ));
        assert(pat@.take(i + 1) == pat@.take(i as int).push(pat@[i as int]));
        i += 1;
    }
    assert(pat@.take(pat.len() as int) == pat@);
    true
}

/// Whether `s` begins with `pat`.
pub fn starts_with(s: &[char], pat: &[char]) -> (r: bool)
    ensures
        r == has_prefix(s@, pat@),
{
    matches_at(s, pat, 0)
}

/// Whether `s` ends with `pat`.
pub fn ends_with(s: &[char], pat: &[char]) -> (r: bool)
    ensures
        r == has_suffix(s@, pat@),
{
    if pat.len() > s.len() {
        return false;
    }
    matches_at(s, pat, s.len() - pat.len())
}

/// Whether `pat` stands somewhere in `s`.
pub fn contains(s: &[char], pat: &[char]) -> (r: bool)
    ensures
        r == has_infix(s@, pat@),
{
    if pat.len() > s.len() {
        return false;
    }
    let last: usize = s.len() - pat.len();
    let mut at: usize = 0;
    while at < last
        invariant
            at <= last,
            last == s.len() - pat.len(),
            forall|k: int| 0 <= k < at ==> !occurs_at(s@, pat@, k),
        decreases last - at,
    {
        if matches_at(s, pat, at) {
            return true;
        }
        at += 1;
    }
    matches_at(s, pat, last)
}

/// The index of the first character of `s`, at or after `from`, that is not
/// white space; `to` if there is none before `to`.
fn skip_space(s: &[char], from: usize, to: usize) -> (at: usize)
    requires
        from <= to <= s.len(),
    ensures
        from <= at <= to,
        trim_start(s@.subrange(from as int, to as int)) == s@.subrange(at as int, to as int),
{
    let mut at: usize = from;
    while at < to && is_white_space(s[at])
        invariant
            from <= at <= to <= s.len(),
            trim_start(s@.subrange(from as int, to as int)) == trim_start(
                s@.subrange(at as int, to as int),
            ),
        decreases to - at,
    {
        assert(s@.subrange(at as int, to as int).drop_first() == s@.subrange(at + 1, to as int));
        at += 1;
    }
    at
}

/// The index just after the last character of `s`, before `to`, that is not
/// white space; `from` if there is none at or after `from`.
fn skip_space_back(s: &[char], from: usize, to: usize) -> (at: usize)
    requires
        from <= to <= s.len(),
    ensures
        from <= at <= to,
        trim_end(s@.subrange(from as int, to as int)) == s@.subrange(from as int, at as int),
{
    let mut at: usize = to;
    while at > from && is_white_space(s[at - 1])
        invariant
            from <= at <= to <= s.len(),
            trim_end(s@.subrange(from as int, to as int)) == trim_end(
                s@.subrange(from as int, at as int),
            ),
        decreases at,
    {
        assert(s@.subrange(from as int, at as int).drop_last() == s@.subrange(
            from as int,
            at - 1,
        ));
        at -= 1;
    }
    at
}

/// `s` without leading and trailing white space.
pub fn trimmed(s: &[char]) -> (out: Vec<char>)
    ensures
        out@ == trim(s@),
{
    let a = skip_space(s, 0, s.len());
    let b = skip_space_back(s, a, s.len());
    assert(s@.subrange(0, s.len() as int) == s@);
    copy_range(s, a, b)
}

/// The first word of `s`: its first run of characters that are not white
/// space. Empty when `s` holds nothing but white space.
pub fn leading_word(s: &[char]) -> (out: Vec<char>)
    ensures
        out@ == first_word(s@),
{
    let a = skip_space(s, 0, s.len());
    assert(s@.subrange(0, s.len() as int) == s@);
    let ghost t = s@.subrange(a as int, s.len() as int);
    let mut b: usize = a;
    while b < s.len() && !is_white_space(s[b])
        invariant
            a <= b <= s.len(),
            t == s@.subrange(a as int, s.len() as int),
            word_len(t) == (b - a) + word_len(s@.subrange(b as int, s.len() as int)),
        decreases s.len() - b,
    {
        assert(s@.subrange(b as int, s.len() as int).drop_first() == s@.subrange(
            b + 1,
            s.len() as int,
        ));
        b += 1;
    }
    assert(t.take((b - a) as int) == s@.subrange(a as int, b as int));
    copy_range(s, a, b)
}

/// The lines of `s`, as [`lines`] defines them.
pub fn split_lines(s: &[char]) -> (out: Vec<Vec<char>>)
    ensures
        out.deep_view() == lines(s@),
{
    let mut out: Vec<Vec<char>> = Vec::new();
    let mut pos: usize = 0;
    assert(s@.skip(0) == s@);
    while pos < s.len()
        invariant
            pos <= s.len(),
            lines(s@) == out.deep_view() + lines(s@.skip(pos as int)),
        decreases s.len() - pos,
    {
        let ghost rest = s@.skip(pos as int);
        let mut end: usize = pos;
        while end < s.len() && s[end] != '\n'
            invariant
                pos <= end <= s.len(),
                rest == s@.skip(pos as int),
                line_end(rest) == (end - pos) + line_end(s@.skip(end as int)),
            decreases s.len() - end,
        {
            assert(s@.skip(end as int).drop_first() == s@.skip(end + 1));
            end += 1;
        }
        let ghost before = out.deep_view();
        if end == s.len() {
            let line = copy_range(s, pos, end);
            assert(line@ == rest);
            assert(line.deep_view() =~= line@);
            out.push(line);
            assert(out.deep_view() =~= before.push(rest));
            assert(lines(s@.skip(end as int)) == Seq::<Seq<char>>::empty());
            assert(lines(rest) == seq![rest]);
            pos = end;
        } else {
            let stop: usize = if end > pos && s[end - 1] == '\r' {
                end - 1
            } else {
                end
            };
            let line = copy_range(s, pos, stop);
            assert(rest.take(end - pos) == s@.subrange(pos as int, end as int));
            assert(line@ == strip_cr(rest.take(end - pos)));
            assert(line.deep_view() =~= line@);
            let ghost row = line@;
            out.push(line);
            assert(out.deep_view() =~= before.push(row));
            assert(rest.skip(end - pos + 1) == s@.skip(end + 1));
            assert(lines(rest) == seq![row] + lines(s@.skip(end + 1)));
            pos = end + 1;
        }
    }
    assert(lines(s@.skip(pos as int)) == Seq::<Seq<char>>::empty());
    out
}

/// The text `a` followed by the text `b`.
pub fn followed_by(a: &str, b: &str) -> (out: String)
    ensures
        out@ == a@ + b@,
{
    let mut out = a.to_owned();
    let more = chars_of(b);
    let mut i: usize = 0;
    while i < more.len()
        invariant
            i <= more.len(),
            more@ == b@,
            out@ == a@ + more@.take(i as int),
        decreases more.len() - i,
    {
        out.push(more[i]);
        i += 1;
    }
    assert(more@.take(more.len() as int) == more@);
    out
}

/// `s` without leading and trailing white space, as a text.
pub fn trimmed_text(s: &str) -> (out: String)
    ensures
        out@ == trim(s@),
{
    let cs = chars_of(s);
    let t = trimmed(cs.as_slice());
    text_of(t.as_slice())
}

/// The rows `rows[from..to]` joined into one text, with `sep` between
/// neighbours.
pub fn join_rows(rows: &Vec<Vec<char>>, from: usize, to: usize, sep: &[char]) -> (out: Vec<char>)
    requires
        from <= to <= rows.len(),
    ensures
        out@ == join(rows.deep_view().subrange(from as int, to as int), sep@),
{
    let mut out: Vec<char> = Vec::new();
    let ghost all = rows.deep_view();
    let mut i: usize = from;
    assert(all.subrange(from as int, from as int) == Seq::<Seq<char>>::empty());
    while i < to
        invariant
            from <= i <= to <= rows.len(),
            all == rows.deep_view(),
            out@ == join(all.subrange(from as int, i as int), sep@),
        decreases to - i,
    {
        let ghost before = all.subrange(from as int, i as int);
        let ghost after = all.subrange(from as int, i + 1);
        proof {
            assert(after.drop_last() == before);
            assert(after.last() == rows@[i as int]@);
        }
        if i > from {
            push_all(&mut out, sep);
        }
        push_all(&mut out, rows[i].as_slice());
        proof {
            if i == from {
                assert(out@ == rows@[i as int]@);
            } else {
                assert(out@ == join(before, sep@) + sep@ + rows@[i as int]@);
            }
        }
        i += 1;
    }
    out
}

} // verus!
