//! Text as sequences of characters.
//!
//! The contracts of this crate speak of strings through their views, which
//! are sequences of `char`. This module holds the vocabulary those contracts
//! share (trimming, splitting, joining, searching, UTF-8 length) and the
//! executable functions that compute it.

use vstd::prelude::*;
use vstd::string::StringExecFns;
use vstd::utf8::*;

verus! {

/// `String::push` appends one character to the end of the string.
pub assume_specification[ String::push ](s: &mut String, ch: char)
    ensures
        final(s)@ == old(s)@.push(ch),
;

/// The characters of `s`, in order.
pub fn chars_of(s: &str) -> (v: Vec<char>)
    ensures
        v@ == s@,
{
    let mut v: Vec<char> = Vec::new();
    for c in it: s.chars()
        invariant
            v@ == it.seq().take(it.index() as int),
            it.seq() == s@,
    {
        v.push(c);
    }
    v
}

/// The string that holds the characters `v[from..to]`, in order.
pub fn string_of_range(v: &Vec<char>, from: usize, to: usize) -> (s: String)
    requires
        from <= to <= v.len(),
    ensures
        s@ == v@.subrange(from as int, to as int),
{
    let mut s = String::new();
    let mut i: usize = from;
    while i < to
        invariant
            from <= i <= to <= v.len(),
            s@ == v@.subrange(from as int, i as int),
        decreases to - i,
    {
        s.push(v[i]);
        i += 1;
    }
    s
}

/// The string that holds the characters of `v`, in order.
pub fn string_of(v: &Vec<char>) -> (s: String)
    ensures
        s@ == v@,
{
    let s = string_of_range(v, 0, v.len());
    s
}

/// Whether `c` is white space: the code points that Unicode gives the
/// property `White_Space`.
pub open spec fn is_space(c: char) -> bool {
    let u = c as u32;
    ||| 0x09 <= u <= 0x0d
    ||| u == 0x20
    ||| u == 0x85
    ||| u == 0xa0
    ||| u == 0x1680
    ||| 0x2000 <= u <= 0x200a
    ||| u == 0x2028
    ||| u == 0x2029
    ||| u == 0x202f
    ||| u == 0x205f
    ||| u == 0x3000
}

/// Decides `is_space`.
pub fn is_space_char(c: char) -> (b: bool)
    ensures
        b == is_space(c),
{
    let u: u32 = c as u32;
    (0x09 <= u && u <= 0x0d) || u == 0x20 || u == 0x85 || u == 0xa0 || u == 0x1680 || (0x2000 <= u
        && u <= 0x200a) || u == 0x2028 || u == 0x2029 || u == 0x202f || u == 0x205f || u == 0x3000
}

/// A class of characters.
pub enum Class {
    /// White space.
    Space,
    /// One character.
    Only(char),
}

impl Class {
    /// Whether `c` is in the class.
    pub open spec fn has(self, c: char) -> bool {
        match self {
            Class::Space => is_space(c),
            Class::Only(d) => c == d,
        }
    }
}

/// The number of leading characters of `s` that are in `what`.
pub open spec fn leading(s: Seq<char>, what: Class) -> nat
    decreases s.len(),
{
    if s.len() > 0 && what.has(s[0]) {
        1 + leading(s.drop_first(), what)
    } else {
        0
    }
}

/// The number of trailing characters of `s` that are in `what`.
pub open spec fn trailing(s: Seq<char>, what: Class) -> nat
    decreases s.len(),
{
    if s.len() > 0 && what.has(s.last()) {
        1 + trailing(s.drop_last(), what)
    } else {
        0
    }
}

/// `s` without its leading characters that are in `what`.
pub open spec fn strip_start(s: Seq<char>, what: Class) -> Seq<char> {
    s.skip(leading(s, what) as int)
}

/// `s` without its trailing characters that are in `what`.
pub open spec fn strip_end(s: Seq<char>, what: Class) -> Seq<char> {
    s.take(s.len() - trailing(s, what))
}

/// `s` without leading and trailing white space.
pub open spec fn trim(s: Seq<char>) -> Seq<char> {
    strip_end(strip_start(s, Class::Space), Class::Space)
}

/// `s` without its leading occurrences of `c`.
pub open spec fn trim_start_matches(s: Seq<char>, c: char) -> Seq<char> {
    strip_start(s, Class::Only(c))
}

/// `s` without its trailing occurrences of `c`.
pub open spec fn trim_end_matches(s: Seq<char>, c: char) -> Seq<char> {
    strip_end(s, Class::Only(c))
}

/// The count of leading characters is at most the length, every counted
/// character is in the class, and the first one after them is not.
pub proof fn lemma_leading(s: Seq<char>, what: Class)
    ensures
        leading(s, what) <= s.len(),
        forall|i: int| 0 <= i < leading(s, what) ==> what.has(#[trigger] s[i]),
        leading(s, what) < s.len() ==> !what.has(s[leading(s, what) as int]),
    decreases s.len(),
{
    if s.len() > 0 && what.has(s[0]) {
        let t = s.drop_first();
        lemma_leading(t, what);
        assert forall|i: int| 0 <= i < leading(s, what) implies what.has(#[trigger] s[i]) by {
            if i > 0 {
                assert(s[i] == t[i - 1]);
            }
        }
    }
}

/// A prefix of characters of the class followed by one outside it, or by
/// the end, fixes the count of leading characters.
pub proof fn lemma_leading_is(s: Seq<char>, what: Class, n: int)
    requires
        0 <= n <= s.len(),
        forall|i: int| 0 <= i < n ==> what.has(#[trigger] s[i]),
        n < s.len() ==> !what.has(s[n]),
    ensures
        leading(s, what) == n,
    decreases s.len(),
{
    if n > 0 {
        let t = s.drop_first();
        lemma_leading_is(t, what, n - 1);
    }
}

/// The count of trailing characters is at most the length, every counted
/// character is in the class, and the last one before them is not.
pub proof fn lemma_trailing(s: Seq<char>, what: Class)
    ensures
        trailing(s, what) <= s.len(),
        forall|i: int| s.len() - trailing(s, what) <= i < s.len() ==> what.has(#[trigger] s[i]),
        trailing(s, what) < s.len() ==> !what.has(s[s.len() - trailing(s, what) - 1]),
    decreases s.len(),
{
    if s.len() > 0 && what.has(s.last()) {
        let t = s.drop_last();
        lemma_trailing(t, what);
        assert forall|i: int| s.len() - trailing(s, what) <= i < s.len() implies what.has(
            #[trigger] s[i],
        ) by {
            if i < s.len() - 1 {
                assert(s[i] == t[i]);
            }
        }
    }
}

/// A suffix of characters of the class preceded by one outside it, or by
/// the start, fixes the count of trailing characters.
pub proof fn lemma_trailing_is(s: Seq<char>, what: Class, n: int)
    requires
        0 <= n <= s.len(),
        forall|i: int| s.len() - n <= i < s.len() ==> what.has(#[trigger] s[i]),
        n < s.len() ==> !what.has(s[s.len() - n - 1]),
    ensures
        trailing(s, what) == n,
    decreases s.len(),
{
    if n > 0 {
        let t = s.drop_last();
        lemma_trailing_is(t, what, n - 1);
    }
}

/// The bounds of `v[from..to]` once leading and trailing white space is
/// taken off.
pub fn trim_bounds(v: &Vec<char>, from: usize, to: usize) -> (r: (usize, usize))
    requires
        from <= to <= v.len(),
    ensures
        from <= r.0 <= r.1 <= to,
        r.0 == from + leading(v@.subrange(from as int, to as int), Class::Space),
        r.1 == to - trailing(
            strip_start(v@.subrange(from as int, to as int), Class::Space),
            Class::Space,
        ),
        v@.subrange(r.0 as int, r.1 as int) == trim(v@.subrange(from as int, to as int)),
{
    let ghost s = v@.subrange(from as int, to as int);
    let ghost space = Class::Space;
    let mut lo: usize = from;
    while lo < to && is_space_char(v[lo])
        invariant
            from <= lo <= to <= v.len(),
            forall|i: int| from <= i < lo ==> is_space(#[trigger] v@[i]),
        decreases to - lo,
    {
        lo += 1;
    }
    let mut hi: usize = to;
    while hi > lo && is_space_char(v[hi - 1])
        invariant
            lo <= hi <= to <= v.len(),
            forall|i: int| hi <= i < to ==> is_space(#[trigger] v@[i]),
        decreases hi - lo,
    {
        hi -= 1;
    }
    proof {
        lemma_leading_is(s, space, lo - from);
        let t = strip_start(s, space);
        lemma_trailing_is(t, space, to - hi);
    }
    (lo, hi)
}

/// `trim` of the whole string.
pub fn trimmed(s: &str) -> (r: String)
    ensures
        r@ == trim(s@),
{
    let v = chars_of(s);
    let (lo, hi) = trim_bounds(&v, 0, v.len());
    assert(v@.subrange(0, v@.len() as int) == v@);
    string_of_range(&v, lo, hi)
}

/// `trim_start_matches(s, c)` of the whole string.
pub fn without_leading(s: &str, c: char) -> (r: String)
    ensures
        r@ == trim_start_matches(s@, c),
{
    let v = chars_of(s);
    let mut lo: usize = 0;
    while lo < v.len() && v[lo] == c
        invariant
            lo <= v.len(),
            forall|i: int| 0 <= i < lo ==> #[trigger] v@[i] == c,
        decreases v.len() - lo,
    {
        lo += 1;
    }
    proof {
        let same = Class::Only(c);
        lemma_leading_is(v@, same, lo as int);
    }
    string_of_range(&v, lo, v.len())
}

/// `trim_end_matches(s, c)` of the whole string.
pub fn without_trailing(s: &str, c: char) -> (r: String)
    ensures
        r@ == trim_end_matches(s@, c),
{
    let v = chars_of(s);
    let mut hi: usize = v.len();
    while hi > 0 && v[hi - 1] == c
        invariant
            hi <= v.len(),
            forall|i: int| hi <= i < v.len() ==> #[trigger] v@[i] == c,
        decreases hi,
    {
        hi -= 1;
    }
    proof {
        let same = Class::Only(c);
        lemma_trailing_is(v@, same, v.len() - hi);
    }
    string_of_range(&v, 0, hi)
}

/// The number of bytes of `s` in UTF-8: what `str::len` returns.
pub open spec fn byte_len(s: Seq<char>) -> nat {
    encode_utf8(s).len()
}

/// The number of bytes of `c` in UTF-8.
pub open spec fn char_width(c: char) -> nat {
    encode_scalar(c as u32).len()
}

/// Computes `char_width`, which is between 1 and 4.
pub fn width_of(c: char) -> (w: usize)
    ensures
        w == char_width(c),
        1 <= w <= 4,
{
    let u: u32 = c as u32;
    if u <= 0x7f {
        1
    } else if u <= 0x7ff {
        2
    } else if u <= 0xffff {
        proof {
            char_is_scalar(c);
        }
        3
    } else {
        proof {
            char_is_scalar(c);
        }
        4
    }
}

/// Whether `v[from..to]` takes at least `min` bytes in UTF-8.
pub fn byte_len_reaches(v: &Vec<char>, from: usize, to: usize, min: usize) -> (b: bool)
    requires
        from <= to <= v.len(),
    ensures
        b == (byte_len(v@.subrange(from as int, to as int)) >= min),
{
    let mut i: usize = to;
    let mut acc: usize = 0;
    while i > from
        invariant
            from <= i <= to <= v.len(),
            acc <= min,
            acc == if byte_len(v@.subrange(i as int, to as int)) >= min {
                min as nat
            } else {
                byte_len(v@.subrange(i as int, to as int))
            },
        decreases i,
    {
        i -= 1;
        let w = width_of(v[i]);
        proof {
            let s = v@.subrange(i as int, to as int);
            assert(s.drop_first() == v@.subrange(i + 1, to as int));
        }
        if w >= min - acc {
            acc = min;
        } else {
            acc += w;
        }
    }
    acc >= min
}

/// The code of `c`, with the letters `A` to `Z` taken to their small forms.
pub open spec fn fold(c: char) -> u32 {
    let u = c as u32;
    if 0x41 <= u <= 0x5a {
        (u + 0x20) as u32
    } else {
        u
    }
}

/// Computes `fold`.
pub fn fold_of(c: char) -> (u: u32)
    ensures
        u == fold(c),
{
    let u: u32 = c as u32;
    if 0x41 <= u && u <= 0x5a {
        u + 0x20
    } else {
        u
    }
}

/// Whether `pat` stands in `s` at index `i`, the case of ASCII letters
/// set aside.
pub open spec fn matches_at(s: Seq<char>, pat: Seq<char>, i: int) -> bool {
    &&& 0 <= i
    &&& i + pat.len() <= s.len()
    &&& forall|j: int| 0 <= j < pat.len() ==> fold(#[trigger] s[i + j]) == fold(pat[j])
}

/// Whether `pat` stands somewhere in `s`, the case of ASCII letters set
/// aside.
pub open spec fn contains_folded(s: Seq<char>, pat: Seq<char>) -> bool {
    exists|i: int| matches_at(s, pat, i)
}

/// Decides `matches_at` on `v[from..to]`.
fn matches_here(v: &Vec<char>, from: usize, to: usize, pat: &Vec<char>, i: usize) -> (b: bool)
    requires
        from <= i <= to <= v.len(),
        pat.len() <= to - i,
    ensures
        b == matches_at(v@.subrange(from as int, to as int), pat@, i - from),
{
    let ghost s = v@.subrange(from as int, to as int);
    let mut j: usize = 0;
    while j < pat.len()
        invariant
            from <= i <= to <= v.len(),
            pat.len() <= to - i,
            j <= pat.len(),
            s == v@.subrange(from as int, to as int),
            forall|k: int| 0 <= k < j ==> fold(#[trigger] s[i - from + k]) == fold(pat@[k]),
        decreases pat.len() - j,
    {
        if fold_of(v[i + j]) != fold_of(pat[j]) {
            assert(s[i - from + j] == v@[i + j]);
            return false;
        }
        j += 1;
    }
    true
}

/// Decides `contains_folded` on `v[from..to]`.
pub fn range_contains_folded(v: &Vec<char>, from: usize, to: usize, pat: &Vec<char>) -> (b: bool)
    requires
        from <= to <= v.len(),
    ensures
        b == contains_folded(v@.subrange(from as int, to as int), pat@),
{
    let ghost s = v@.subrange(from as int, to as int);
    if pat.len() > to - from {
        return false;
    }
    let last: usize = to - pat.len();
    let mut i: usize = from;
    while i <= last
        invariant
            from <= i <= last + 1,
            last == to - pat.len(),
            from <= to <= v.len(),
            s == v@.subrange(from as int, to as int),
            forall|k: int| 0 <= k < i - from ==> !matches_at(s, pat@, k),
        decreases last + 1 - i,
    {
        if matches_here(v, from, to, pat, i) {
            return true;
        }
        i += 1;
    }
    false
}

/// Whether `c` occurs in `v[from..to]`.
pub fn range_contains_char(v: &Vec<char>, from: usize, to: usize, c: char) -> (b: bool)
    requires
        from <= to <= v.len(),
    ensures
        b == v@.subrange(from as int, to as int).contains(c),
{
    let ghost s = v@.subrange(from as int, to as int);
    let mut i: usize = from;
    while i < to
        invariant
            from <= i <= to <= v.len(),
            s == v@.subrange(from as int, to as int),
            forall|k: int| 0 <= k < i - from ==> s[k] != c,
        decreases to - i,
    {
        if v[i] == c {
            assert(s[i - from] == c);
            return true;
        }
        i += 1;
    }
    false
}

/// The pieces of `s` between occurrences of `sep`: always at least one
/// piece, the last of them empty where `s` ends with `sep`. Read from the
/// left, `sep` opens a new piece and any other character goes to the end of
/// the last piece.
pub open spec fn split(s: Seq<char>, sep: char) -> Seq<Seq<char>>
    decreases s.len(),
{
    if s.len() == 0 {
        seq![Seq::empty()]
    } else {
        let before = split(s.drop_last(), sep);
        if s.last() == sep {
            before.push(Seq::empty())
        } else {
            before.drop_last().push(before.last().push(s.last()))
        }
    }
}

/// The lines of `s`: its pieces between line feeds, without the empty piece
/// after a final line feed. A carriage return before a line feed stays with
/// its line, as white space at its end.
pub open spec fn lines(s: Seq<char>) -> Seq<Seq<char>> {
    let pieces = split(s, '\n');
    if pieces.last().len() == 0 {
        pieces.drop_last()
    } else {
        pieces
    }
}

/// The parts in order, with `sep` between each two neighbours.
pub open spec fn join(parts: Seq<Seq<char>>, sep: Seq<char>) -> Seq<char>
    decreases parts.len(),
{
    if parts.len() == 0 {
        Seq::empty()
    } else if parts.len() == 1 {
        parts[0]
    } else {
        join(parts.drop_last(), sep) + sep + parts.last()
    }
}

/// The parts in order, with nothing between them.
pub open spec fn concat(parts: Seq<Seq<char>>) -> Seq<char> {
    join(parts, Seq::empty())
}

/// `s` with each occurrence of `from` replaced by `to`.
pub open spec fn replace(s: Seq<char>, from: char, to: Seq<char>) -> Seq<char>
    decreases s.len(),
{
    if s.len() == 0 {
        Seq::empty()
    } else {
        replace(s.drop_last(), from, to) + if s.last() == from {
            to
        } else {
            seq![s.last()]
        }
    }
}

/// The first `n` characters of `s`, or all of it where it has fewer.
pub open spec fn prefix(s: Seq<char>, n: nat) -> Seq<char> {
    if n <= s.len() {
        s.take(n as int)
    } else {
        s
    }
}

/// A split has at least one piece.
pub proof fn lemma_split_nonempty(s: Seq<char>, sep: char)
    ensures
        split(s, sep).len() >= 1,
    decreases s.len(),
{
    if s.len() > 0 {
        lemma_split_nonempty(s.drop_last(), sep);
    }
}

/// The pieces of `v` between occurrences of `sep`.
pub fn split_on(v: &Vec<char>, sep: char) -> (parts: Vec<Vec<char>>)
    ensures
        parts.deep_view() == split(v@, sep),
{
    let mut parts: Vec<Vec<char>> = Vec::new();
    let mut piece: Vec<char> = Vec::new();
    let mut i: usize = 0;
    while i < v.len()
        invariant
            i <= v.len(),
            parts.deep_view().push(piece@) == split(v@.take(i as int), sep),
        decreases v.len() - i,
    {
        let ghost done = parts.deep_view();
        let ghost open = piece@;
        proof {
            assert(v@.take(i + 1).drop_last() == v@.take(i as int));
        }
        if v[i] == sep {
            parts.push(piece);
            piece = Vec::new();
            assert(parts.deep_view() =~~= done.push(open));
        } else {
            piece.push(v[i]);
        }
        i += 1;
    }
    assert(v@.take(v.len() as int) == v@);
    let ghost done = parts.deep_view();
    let ghost open = piece@;
    parts.push(piece);
    assert(parts.deep_view() =~~= done.push(open));
    parts
}

/// The lines of `v`.
pub fn lines_of(v: &Vec<char>) -> (ls: Vec<Vec<char>>)
    ensures
        ls.deep_view() == lines(v@),
{
    let mut parts = split_on(v, '\n');
    proof {
        lemma_split_nonempty(v@, '\n');
    }
    let n = parts.len();
    if parts[n - 1].len() == 0 {
        parts.pop();
    }
    parts
}

/// `join(parts, sep)` over character vectors.
pub fn join_all(parts: &Vec<Vec<char>>, sep: &Vec<char>) -> (r: Vec<char>)
    ensures
        r@ == join(parts.deep_view(), sep@),
{
    let ghost all = parts.deep_view();
    let mut r: Vec<char> = Vec::new();
    let mut i: usize = 0;
    while i < parts.len()
        invariant
            i <= parts.len(),
            all == parts.deep_view(),
            r@ == join(all.take(i as int), sep@),
        decreases parts.len() - i,
    {
        proof {
            let now = all.take(i + 1);
            assert(now.drop_last() == all.take(i as int));
        }
        if i > 0 {
            append_chars(&mut r, sep);
        }
        append_chars(&mut r, &parts[i]);
        i += 1;
    }
    assert(all.take(parts.len() as int) == all);
    r
}

/// Appends the characters of `more` to `r`.
pub fn append_chars(r: &mut Vec<char>, more: &Vec<char>)
    ensures
        final(r)@ == old(r)@ + more@,
{
    let mut j: usize = 0;
    while j < more.len()
        invariant
            j <= more.len(),
            r@ == old(r)@ + more@.take(j as int),
        decreases more.len() - j,
    {
        r.push(more[j]);
        j += 1;
    }
}

/// `join(parts, sep)` over strings.
pub fn join_strings(parts: &Vec<String>, sep: &str) -> (r: String)
    ensures
        r@ == join(parts.deep_view(), sep@),
{
    let ghost all = parts.deep_view();
    let mut r = String::new();
    let mut i: usize = 0;
    while i < parts.len()
        invariant
            i <= parts.len(),
            all == parts.deep_view(),
            r@ == join(all.take(i as int), sep@),
        decreases parts.len() - i,
    {
        proof {
            let now = all.take(i + 1);
            assert(now.drop_last() == all.take(i as int));
        }
        if i > 0 {
            r.append(sep);
        }
        r.append(parts[i].as_str());
        i += 1;
    }
    assert(all.take(parts.len() as int) == all);
    r
}

/// The first `n` characters of `content`.
pub fn first_chars(content: &str, n: usize) -> (r: String)
    ensures
        r@ == prefix(content@, n as nat),
{
    let v = chars_of(content);
    if n <= v.len() {
        string_of_range(&v, 0, n)
    } else {
        string_of(&v)
    }
}

/// `s` without the occurrences of `c`.
pub fn without_char(s: &str, c: char) -> (r: String)
    ensures
        r@ == replace(s@, c, Seq::empty()),
{
    let v = chars_of(s);
    let mut out: Vec<char> = Vec::new();
    let mut i: usize = 0;
    while i < v.len()
        invariant
            i <= v.len(),
            out@ == replace(v@.take(i as int), c, Seq::empty()),
        decreases v.len() - i,
    {
        proof {
            assert(v@.take(i + 1).drop_last() == v@.take(i as int));
        }
        if v[i] != c {
            out.push(v[i]);
        }
        i += 1;
    }
    assert(v@.take(v.len() as int) == v@);
    string_of(&out)
}

/// No piece of a split holds `sep`, and the pieces joined by `sep` are the
/// text again.
pub proof fn lemma_split_joins_back(s: Seq<char>, sep: char)
    ensures
        forall|i: int|
            0 <= i < split(s, sep).len() ==> !(#[trigger] split(s, sep)[i]).contains(sep),
        join(split(s, sep), seq![sep]) == s,
    decreases s.len(),
{
    let pieces = split(s, sep);
    if s.len() > 0 {
        let t = s.drop_last();
        let before = split(t, sep);
        lemma_split_joins_back(t, sep);
        lemma_split_nonempty(t, sep);
        if s.last() == sep {
            assert(pieces.drop_last() =~= before);
        } else {
            assert(pieces.drop_last() =~= before.drop_last());
            if before.len() > 1 {
                assert(join(pieces, seq![sep]) =~= (join(before.drop_last(), seq![sep]) + seq![
                    sep,
                ] + before.last()).push(s.last()));
            }
        }
    }
}

/// A text without `sep` is a single piece.
pub proof fn lemma_split_single(s: Seq<char>, sep: char)
    requires
        !s.contains(sep),
    ensures
        split(s, sep) == seq![s],
    decreases s.len(),
{
    if s.len() > 0 {
        lemma_split_single(s.drop_last(), sep);
    }
    assert(split(s, sep) =~~= seq![s]);
}

} // verus!
