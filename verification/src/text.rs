//! Character-level helpers shared by the parsers of this crate.

use crate::grammar::{char_is_white_space, is_white_space};
use vstd::prelude::*;
use vstd::string::StrSliceExecFns;
use vstd::string::StringExecFns;

verus! {

broadcast use vstd::string::group_string_axioms;

/// Returns the characters of a string slice.
pub fn str_to_chars(s: &str) -> (v: Vec<char>)
    ensures
        v@ == s@,
{
    let mut v: Vec<char> = Vec::new();
    for c in it: s.chars()
        invariant
            it.seq() == s@,
            v@ == it.seq().take(it.index()),
    {
        v.push(c);
    }
    v
}

/// The characters `a..b` of a string, as a new string.
pub fn span_string(s: &str, a: usize, b: usize) -> (r: String)
    requires
        a <= b <= s@.len(),
    ensures
        r@ == s@.subrange(a as int, b as int),
{
    String::from_str(s.substring_char(a, b))
}

/// The index of the first character of `s` at or after `i` that is not white space.
pub open spec fn trim_start_from(s: Seq<char>, i: int) -> int
    decreases s.len() - i,
{
    if 0 <= i < s.len() && is_white_space(s[i]) {
        trim_start_from(s, i + 1)
    } else {
        i
    }
}

/// The index just after the last character of `s[lo..e]` that is not white space, or `lo`.
pub open spec fn trim_end_from(s: Seq<char>, lo: int, e: int) -> int
    decreases e - lo,
{
    if lo < e && is_white_space(s[e - 1]) {
        trim_end_from(s, lo, e - 1)
    } else {
        e
    }
}

/// Where the text of `s` without leading and trailing white space starts.
pub open spec fn trim_start(s: Seq<char>) -> int {
    trim_start_from(s, 0)
}

/// Where the text of `s` without leading and trailing white space ends.
pub open spec fn trim_end(s: Seq<char>) -> int {
    trim_end_from(s, trim_start(s), s.len() as int)
}

/// `s` without leading and trailing white space.
pub open spec fn trimmed(s: Seq<char>) -> Seq<char> {
    s.subrange(trim_start(s), trim_end(s))
}

/// The bounds of the trimmed text lie within the input.
pub proof fn lemma_trim_bounds(s: Seq<char>)
    ensures
        0 <= trim_start(s) <= trim_end(s) <= s.len(),
{
    lemma_trim_start_from(s, 0);
    lemma_trim_end_from(s, trim_start(s), s.len() as int);
}

proof fn lemma_trim_start_from(s: Seq<char>, i: int)
    requires
        0 <= i <= s.len(),
    ensures
        i <= trim_start_from(s, i) <= s.len(),
    decreases s.len() - i,
{
    if i < s.len() && is_white_space(s[i]) {
        lemma_trim_start_from(s, i + 1);
    }
}

proof fn lemma_trim_end_from(s: Seq<char>, lo: int, e: int)
    requires
        0 <= lo <= e <= s.len(),
    ensures
        lo <= trim_end_from(s, lo, e) <= e,
    decreases e - lo,
{
    if lo < e && is_white_space(s[e - 1]) {
        lemma_trim_end_from(s, lo, e - 1);
    }
}

/// The bounds of `s` without leading and trailing white space.
pub fn trim_bounds(s: &Vec<char>) -> (r: (usize, usize))
    ensures
        r.0 == trim_start(s@),
        r.1 == trim_end(s@),
        r.0 <= r.1 <= s.len(),
{
    proof {
        lemma_trim_bounds(s@);
    }
    let mut a: usize = 0;
    while a < s.len() && char_is_white_space(s[a])
        invariant
            a <= s.len(),
            trim_start_from(s@, 0) == trim_start_from(s@, a as int),
        decreases s.len() - a,
    {
        a = a + 1;
    }
    let mut b: usize = s.len();
    while a < b && char_is_white_space(s[b - 1])
        invariant
            a <= b <= s.len(),
            a == trim_start(s@),
            trim_end(s@) == trim_end_from(s@, a as int, b as int),
        decreases b - a,
    {
        b = b - 1;
    }
    (a, b)
}

/// Whether `s` ends with `suffix`.
pub open spec fn ends_with(s: Seq<char>, suffix: Seq<char>) -> bool {
    suffix.len() <= s.len() && s.subrange(s.len() - suffix.len(), s.len() as int) == suffix
}

/// Whether `s` ends with `suffix`.
pub fn chars_end_with(s: &Vec<char>, suffix: &Vec<char>) -> (b: bool)
    ensures
        b == ends_with(s@, suffix@),
{
    if suffix.len() > s.len() {
        return false;
    }
    let off = s.len() - suffix.len();
    let mut j: usize = 0;
    while j < suffix.len()
        invariant
            off + suffix.len() == s.len(),
            j <= suffix.len(),
            forall|m: int| 0 <= m < j ==> s@[off + m] == suffix@[m],
        decreases suffix.len() - j,
    {
        if s[off + j] != suffix[j] {
            assert(s@.subrange(off as int, s.len() as int)[j as int] != suffix@[j as int]);
            return false;
        }
        j = j + 1;
    }
    assert(s@.subrange(off as int, s.len() as int) =~= suffix@);
    true
}

/// Whether a character sequence starts with another.
pub fn chars_starts_with(s: &Vec<char>, prefix: &Vec<char>) -> (b: bool)
    ensures
        b == (s@.len() >= prefix@.len() && s@.take(prefix@.len() as int) == prefix@),
{
    if s.len() < prefix.len() {
        return false;
    }
    let mut j: usize = 0;
    while j < prefix.len()
        invariant
            j <= prefix.len() <= s.len(),
            forall|k: int| 0 <= k < j ==> s@[k] == prefix@[k],
        decreases prefix.len() - j,
    {
        if s[j] != prefix[j] {
            assert(s@.take(prefix@.len() as int)[j as int] != prefix@[j as int]);
            return false;
        }
        j = j + 1;
    }
    assert(s@.take(prefix@.len() as int) =~= prefix@);
    true
}

/// Whether two character sequences are equal.
pub fn chars_equal(a: &Vec<char>, b: &Vec<char>) -> (r: bool)
    ensures
        r == (a@ == b@),
{
    if a.len() != b.len() {
        return false;
    }
    let mut j: usize = 0;
    while j < a.len()
        invariant
            a.len() == b.len(),
            j <= a.len(),
            forall|m: int| 0 <= m < j ==> a@[m] == b@[m],
        decreases a.len() - j,
    {
        if a[j] != b[j] {
            return false;
        }
        j = j + 1;
    }
    assert(a@ =~= b@);
    true
}

/// Whether two strings are equal.
pub fn str_equal(a: &str, b: &str) -> (r: bool)
    ensures
        r == (a@ == b@),
{
    let x = str_to_chars(a);
    let y = str_to_chars(b);
    chars_equal(&x, &y)
}

/// The characters `a..b` of a character sequence, as a new vector.
pub fn sub_chars(s: &Vec<char>, a: usize, b: usize) -> (r: Vec<char>)
    requires
        a <= b <= s.len(),
    ensures
        r@ == s@.subrange(a as int, b as int),
{
    let mut r: Vec<char> = Vec::new();
    let mut j = a;
    while j < b
        invariant
            a <= j <= b <= s.len(),
            r@ == s@.subrange(a as int, j as int),
        decreases b - j,
    {
        r.push(s[j]);
        j = j + 1;
        assert(r@ =~= s@.subrange(a as int, j as int));
    }
    r
}

/// The texts of a list of strings.
pub open spec fn texts(v: Seq<String>) -> Seq<Seq<char>> {
    v.map_values(|t: String| t@)
}

/// A copy of a list of strings.
pub fn clone_strings(v: &Vec<String>) -> (r: Vec<String>)
    ensures
        r@ == v@,
{
    let mut r: Vec<String> = Vec::new();
    let mut j: usize = 0;
    while j < v.len()
        invariant
            j <= v.len(),
            r@ == v@.subrange(0, j as int),
        decreases v.len() - j,
    {
        r.push(v[j].clone());
        j = j + 1;
        assert(r@ =~= v@.subrange(0, j as int));
    }
    assert(r@ =~= v@);
    r
}

/// The index of the first `c` in `s`, or the length of `s`.
pub open spec fn first_index(s: Seq<char>, c: char) -> int
    decreases s.len(),
{
    if s.len() == 0 {
        0
    } else if s[0] == c {
        0
    } else {
        1 + first_index(s.drop_first(), c)
    }
}

/// The pieces of `s` between the occurrences of `c`; there is always at least one.
pub open spec fn split_on(s: Seq<char>, c: char) -> Seq<Seq<char>>
    decreases s.len(),
{
    proof {
        lemma_first_index_bound(s, c);
    }
    let i = first_index(s, c);
    if i >= s.len() {
        seq![s]
    } else {
        seq![s.take(i)] + split_on(s.skip(i + 1), c)
    }
}

/// The pieces joined in order, with `sep` between each two.
pub open spec fn join(parts: Seq<Seq<char>>, sep: Seq<char>) -> Seq<char>
    decreases parts.len(),
{
    if parts.len() == 0 {
        Seq::empty()
    } else if parts.len() == 1 {
        parts[0]
    } else {
        parts[0] + sep + join(parts.drop_first(), sep)
    }
}

/// The first occurrence lies within the sequence.
pub proof fn lemma_first_index_bound(s: Seq<char>, c: char)
    ensures
        0 <= first_index(s, c) <= s.len(),
        first_index(s, c) < s.len() ==> s[first_index(s, c)] == c,
        forall|k: int| 0 <= k < first_index(s, c) ==> s[k] != c,
    decreases s.len(),
{
    if s.len() > 0 && s[0] != c {
        lemma_first_index_bound(s.drop_first(), c);
        assert forall|k: int| 0 <= k < first_index(s, c) implies s[k] != c by {
            if k > 0 {
                assert(s[k] == s.drop_first()[k - 1]);
            }
        }
    }
}

/// The first occurrence is at `m` when no earlier character is `c` and `s[m]` is.
pub proof fn lemma_first_index_at(s: Seq<char>, c: char, m: int)
    requires
        0 <= m <= s.len(),
        forall|k: int| 0 <= k < m ==> s[k] != c,
        m < s.len() ==> s[m] == c,
    ensures
        first_index(s, c) == m,
    decreases m,
{
    if m > 0 {
        assert(s[0] != c);
        let t = s.drop_first();
        assert forall|k: int| 0 <= k < m - 1 implies t[k] != c by {
            assert(t[k] == s[k + 1]);
        }
        if m - 1 < t.len() {
            assert(t[m - 1] == s[m]);
        }
        lemma_first_index_at(t, c, m - 1);
    }
}

/// Joining one more piece puts the separator and the piece at the end.
pub proof fn lemma_join_push(parts: Seq<Seq<char>>, sep: Seq<char>, x: Seq<char>)
    requires
        parts.len() > 0,
    ensures
        join(parts.push(x), sep) == join(parts, sep) + sep + x,
    decreases parts.len(),
{
    if parts.len() == 1 {
        assert(parts.push(x).drop_first() =~= seq![x]);
        assert(join(seq![x], sep) == x);
        assert(parts.push(x)[0] == parts[0]);
    } else {
        lemma_join_push(parts.drop_first(), sep, x);
        assert(parts.push(x).drop_first() =~= parts.drop_first().push(x));
        assert(join(parts.push(x), sep) =~= parts[0] + sep + join(parts.drop_first().push(x), sep));
        assert(join(parts, sep) =~= parts[0] + sep + join(parts.drop_first(), sep));
    }
}

/// Splitting always gives at least one piece.
pub proof fn lemma_split_nonempty(s: Seq<char>, c: char)
    ensures
        split_on(s, c).len() >= 1,
    decreases s.len(),
{
    lemma_first_index_bound(s, c);
    let i = first_index(s, c);
    if i < s.len() {
        lemma_split_nonempty(s.skip(i + 1), c);
    }
}

/// The pieces of a string between the occurrences of `c`.
pub fn split_string(s: &str, c: char) -> (r: Vec<String>)
    ensures
        texts(r@) == split_on(s@, c),
{
    let chars = str_to_chars(s);
    let n = chars.len();
    let mut pieces: Vec<String> = Vec::new();
    let mut start: usize = 0;
    let mut j: usize = 0;
    assert(s@.skip(0) =~= s@);
    assert(texts(pieces@) + split_on(s@.skip(0), c) =~= split_on(s@, c));
    while j < n
        invariant
            n == chars.len(),
            chars@ == s@,
            start <= j <= n,
            texts(pieces@) + split_on(s@.skip(start as int), c) == split_on(s@, c),
            forall|k: int| start <= k < j ==> s@[k] != c,
        decreases n - j,
    {
        if chars[j] == c {
            let ghost rest = s@.skip(start as int);
            proof {
                lemma_first_index_at(rest, c, j - start);
                assert(rest.take(j - start) =~= s@.subrange(start as int, j as int));
                assert(rest.skip(j - start + 1) =~= s@.skip(j + 1));
            }
            let piece = span_string(s, start, j);
            let ghost old_pieces = pieces@;
            pieces.push(piece);
            assert(texts(pieces@) =~= texts(old_pieces).push(piece@));
            assert(texts(pieces@) + split_on(s@.skip(j + 1), c) =~= texts(old_pieces) + split_on(
                rest,
                c,
            ));
            start = j + 1;
        }
        j = j + 1;
    }
    let ghost rest = s@.skip(start as int);
    proof {
        lemma_first_index_at(rest, c, rest.len() as int);
        assert(rest =~= s@.subrange(start as int, n as int));
    }
    let piece = span_string(s, start, n);
    let ghost old_pieces = pieces@;
    pieces.push(piece);
    assert(texts(pieces@) =~= texts(old_pieces).push(piece@));
    assert(texts(pieces@) =~= texts(old_pieces) + split_on(rest, c));
    pieces
}

/// The strings joined in order, with `sep` between each two.
pub fn join_strings(parts: &Vec<String>, sep: &str) -> (r: String)
    ensures
        r@ == join(texts(parts@), sep@),
{
    let mut out = String::new();
    let mut j: usize = 0;
    while j < parts.len()
        invariant
            j <= parts.len(),
            out@ == join(texts(parts@).take(j as int), sep@),
        decreases parts.len() - j,
    {
        let ghost before = texts(parts@).take(j as int);
        if j > 0 {
            out.append(sep);
        }
        out.append(parts[j].as_str());
        proof {
            assert(texts(parts@).take(j + 1) =~= before.push(parts@[j as int]@));
            if j > 0 {
                lemma_join_push(before, sep@, parts@[j as int]@);
            } else {
                assert(out@ =~= parts@[j as int]@);
            }
        }
        j = j + 1;
    }
    assert(texts(parts@).take(parts.len() as int) =~= texts(parts@));
    out
}

/// Splitting the pieces joined by `c` gives the pieces back, when there is at least one piece and
/// no piece holds `c`.
pub proof fn law_split_join(parts: Seq<Seq<char>>, c: char)
    requires
        parts.len() > 0,
        forall|i: int, k: int| 0 <= i < parts.len() && 0 <= k < parts[i].len() ==> parts[i][k] != c,
    ensures
        split_on(join(parts, seq![c]), c) == parts,
    decreases parts.len(),
{
    let s = join(parts, seq![c]);
    if parts.len() == 1 {
        lemma_first_index_at(parts[0], c, parts[0].len() as int);
        assert(split_on(s, c) =~= parts);
    } else {
        let rest = parts.drop_first();
        assert forall|i: int, k: int| 0 <= i < rest.len() && 0 <= k < rest[i].len() implies rest[i][k]
            != c by {
            assert(rest[i] == parts[i + 1]);
        }
        law_split_join(rest, c);
        let p0 = parts[0];
        assert(s =~= p0 + seq![c] + join(rest, seq![c]));
        assert forall|k: int| 0 <= k < p0.len() implies s[k] != c by {
            assert(s[k] == p0[k]);
        }
        lemma_first_index_at(s, c, p0.len() as int);
        assert(s.take(p0.len() as int) =~= p0);
        assert(s.skip(p0.len() as int + 1) =~= join(rest, seq![c]));
        assert(split_on(s, c) =~= seq![p0] + rest);
        assert(seq![p0] + rest =~= parts);
    }
}

} // verus!
