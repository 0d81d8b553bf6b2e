//! A small backtracking matcher for the line grammars that this crate reads: the lines a Factorio
//! server prints, its version report and mod dependency strings.
//!
//! A grammar is a sequence of items. Each item matches a span of the input, and the result of a
//! match is the span of every item. Quantified items prefer the longest (greedy) or shortest
//! (lazy) run first and fall back on the other lengths, in order, when the rest of the grammar
//! does not match; an unmatched optional item takes an empty span. A search tries each start
//! position from the left and returns the first match.

use crate::text::str_to_chars;
use vstd::prelude::*;

verus! {

/// A set of characters that a repeated item may consist of.
#[derive(Clone, Copy, Debug, PartialEq, Eq)]
pub enum CharClass {
    /// Unicode word characters: alphabetic, decimal digits, marks, connector punctuation and
    /// join controls.
    Word,
    /// Any character that is not white space.
    NonSpace,
    /// Any character but a line feed.
    NotNewline,
    /// A word character, `.` or `-`.
    VersionChar,
}

/// The characters that the Unicode `White_Space` property holds.
pub open spec fn is_white_space(c: char) -> bool {
    ||| c == '\t'
    ||| c == '\n'
    ||| c == '\u{0B}'
    ||| c == '\u{0C}'
    ||| c == '\r'
    ||| c == ' '
    ||| c == '\u{85}'
    ||| c == '\u{A0}'
    ||| c == '\u{1680}'
    ||| ('\u{2000}' <= c && c <= '\u{200A}')
    ||| c == '\u{2028}'
    ||| c == '\u{2029}'
    ||| c == '\u{202F}'
    ||| c == '\u{205F}'
    ||| c == '\u{3000}'
}

/// ASCII letters, ASCII digits and the underscore.
pub open spec fn is_ascii_word_char(c: char) -> bool {
    ||| ('a' <= c && c <= 'z')
    ||| ('A' <= c && c <= 'Z')
    ||| ('0' <= c && c <= '9')
    ||| c == '_'
}

/// Whether `regex_syntax::is_word_character` holds a character: the Unicode word characters
/// of the `\w` class.
pub uninterp spec fn unicode_word_char(c: char) -> bool;

/// Whether a character class holds a character.
pub open spec fn class_has(cl: CharClass, c: char) -> bool {
    match cl {
        CharClass::Word => unicode_word_char(c),
        CharClass::NonSpace => !is_white_space(c),
        CharClass::NotNewline => c != '\n',
        CharClass::VersionChar => unicode_word_char(c) || c == '.' || c == '-',
    }
}

/// Whether a character is white space.
pub fn char_is_white_space(c: char) -> (b: bool)
    ensures
        b == is_white_space(c),
{
    c == '\t' || c == '\n' || c == '\u{0B}' || c == '\u{0C}' || c == '\r' || c == ' ' || c
        == '\u{85}' || c == '\u{A0}' || c == '\u{1680}' || ('\u{2000}' <= c && c <= '\u{200A}')
        || c == '\u{2028}' || c == '\u{2029}' || c == '\u{202F}' || c == '\u{205F}' || c
        == '\u{3000}'
}

/// Whether a character is a Unicode word character, by `regex_syntax::is_word_character`,
/// which the `\w` class of `regex` uses. Its contract names the result, and states what the
/// source shows first: the ASCII letters, digits and `_` are word characters. The crate is
/// built with its default features, under which the call does not panic.
#[verifier::external_body]
fn char_is_word(c: char) -> (b: bool)
    ensures
        b == unicode_word_char(c),
        is_ascii_word_char(c) ==> b,
{
    regex_syntax::is_word_character(c)
}

/// Whether a character class holds a character.
pub fn class_contains(cl: CharClass, c: char) -> (b: bool)
    ensures
        b == class_has(cl, c),
{
    match cl {
        CharClass::Word => char_is_word(c),
        CharClass::NonSpace => !char_is_white_space(c),
        CharClass::NotNewline => c != '\n',
        CharClass::VersionChar => char_is_word(c) || c == '.' || c == '-',
    }
}

/// One item of a grammar.
pub enum Item {
    /// A fixed run of characters.
    Lit(Vec<char>),
    /// The start of the input.
    Start,
    /// The end of the input.
    End,
    /// A run of at least `min` characters of a class. `lazy` prefers the shortest run; an
    /// `optional` item matches an empty span when no run lets the rest of the grammar match.
    Rep { class: CharClass, min: usize, lazy: bool, optional: bool },
    /// The first of several fixed alternatives that lets the rest of the grammar match; an
    /// `optional` item matches an empty span when none does.
    Alt { options: Vec<Vec<char>>, optional: bool },
}

/// The meaning of an item: the same forms over sequences of characters.
pub enum Pat {
    /// A fixed run of characters.
    Lit(Seq<char>),
    /// The start of the input.
    Start,
    /// The end of the input.
    End,
    /// A run of at least `min` characters of a class.
    Rep { class: CharClass, min: usize, lazy: bool, optional: bool },
    /// The first of several fixed alternatives.
    Alt { options: Seq<Seq<char>>, optional: bool },
}

impl View for Item {
    type V = Pat;

    open spec fn view(&self) -> Pat {
        match self {
            Item::Lit(l) => Pat::Lit(l@),
            Item::Start => Pat::Start,
            Item::End => Pat::End,
            Item::Rep { class, min, lazy, optional } => Pat::Rep {
                class: *class,
                min: *min,
                lazy: *lazy,
                optional: *optional,
            },
            Item::Alt { options, optional } => Pat::Alt {
                options: options@.map_values(|o: Vec<char>| o@),
                optional: *optional,
            },
        }
    }
}

/// The meaning of a grammar.
pub open spec fn pat_of(p: Seq<Item>) -> Seq<Pat> {
    p.map_values(|it: Item| it@)
}

/// The spans that a match gives, one per item.
pub type Spans = Seq<(usize, usize)>;

/// Whether `l` occurs in `s` at position `i`.
pub open spec fn has_lit_at(s: Seq<char>, i: int, l: Seq<char>) -> bool {
    0 <= i && i + l.len() <= s.len() && s.subrange(i, i + l.len()) == l
}

/// The end of the longest run of characters of class `cl` that starts at `i`.
pub open spec fn run_end(s: Seq<char>, cl: CharClass, i: int) -> int
    decreases s.len() - i,
{
    if 0 <= i < s.len() && class_has(cl, s[i]) {
        run_end(s, cl, i + 1)
    } else {
        i
    }
}

/// Puts the span `(a, b)` in front of the spans of a match of the rest.
pub open spec fn prepend_span(a: int, b: int, rest: Option<Spans>) -> Option<Spans> {
    match rest {
        Some(r) => Some(seq![(a as usize, b as usize)] + r),
        None => None,
    }
}

/// How many alternatives an item has.
pub open spec fn item_weight(p: Seq<Pat>, k: int) -> int {
    if 0 <= k < p.len() {
        match p[k] {
            Pat::Alt { options, .. } => options.len() as int,
            _ => 0,
        }
    } else {
        0
    }
}

/// The match of items `k..` of `p` that starts at position `i` of `s`, if there is one.
pub open spec fn match_from(p: Seq<Pat>, s: Seq<char>, k: int, i: int) -> Option<Spans>
    decreases p.len() - k, s.len() + 2 + item_weight(p, k),
{
    if k < 0 || i < 0 || i > s.len() {
        None
    } else if k >= p.len() {
        Some(Seq::empty())
    } else {
        match p[k] {
            Pat::Lit(l) => {
                if has_lit_at(s, i, l) {
                    prepend_span(i, i + l.len(), match_from(p, s, k + 1, i + l.len()))
                } else {
                    None
                }
            },
            Pat::Start => {
                if i == 0 {
                    prepend_span(i, i, match_from(p, s, k + 1, i))
                } else {
                    None
                }
            },
            Pat::End => {
                if i == s.len() {
                    prepend_span(i, i, match_from(p, s, k + 1, i))
                } else {
                    None
                }
            },
            Pat::Rep { class, min, lazy, optional } => {
                proof {
                    lemma_run_end(s, class, i);
                }
                let r = run_end(s, class, i);
                let found = if lazy {
                    try_lazy(p, s, k, i, i + min, r)
                } else {
                    try_greedy(p, s, k, i, r, i + min)
                };
                if found is Some || !optional {
                    found
                } else {
                    prepend_span(i, i, match_from(p, s, k + 1, i))
                }
            },
            Pat::Alt { options, optional } => {
                let found = try_alt(p, s, k, i, 0);
                if found is Some || !optional {
                    found
                } else {
                    prepend_span(i, i, match_from(p, s, k + 1, i))
                }
            },
        }
    }
}

/// Tries the run lengths that end at `n`, `n - 1`, ..., `lo` for item `k`, in that order.
pub open spec fn try_greedy(p: Seq<Pat>, s: Seq<char>, k: int, i: int, n: int, lo: int) -> Option<
    Spans,
>
    decreases p.len() - k, if n >= lo { n - lo + 1 } else { 0 },
{
    if n < lo || k < 0 || k >= p.len() {
        None
    } else {
        match match_from(p, s, k + 1, n) {
            Some(rest) => Some(seq![(i as usize, n as usize)] + rest),
            None => try_greedy(p, s, k, i, n - 1, lo),
        }
    }
}

/// Tries the run lengths that end at `n`, `n + 1`, ..., `hi` for item `k`, in that order.
pub open spec fn try_lazy(p: Seq<Pat>, s: Seq<char>, k: int, i: int, n: int, hi: int) -> Option<
    Spans,
>
    decreases p.len() - k, if hi >= n { hi - n + 1 } else { 0 },
{
    if n > hi || k < 0 || k >= p.len() {
        None
    } else {
        match match_from(p, s, k + 1, n) {
            Some(rest) => Some(seq![(i as usize, n as usize)] + rest),
            None => try_lazy(p, s, k, i, n + 1, hi),
        }
    }
}

/// Tries the alternatives `j..` of item `k`, in order.
pub open spec fn try_alt(p: Seq<Pat>, s: Seq<char>, k: int, i: int, j: int) -> Option<Spans>
    decreases p.len() - k, if item_weight(p, k) >= j { item_weight(p, k) - j } else { 0 },
{
    if k < 0 || k >= p.len() || j < 0 {
        None
    } else {
        match p[k] {
            Pat::Alt { options, .. } => {
                if j >= options.len() {
                    None
                } else {
                    let o = options[j];
                    if has_lit_at(s, i, o) && match_from(p, s, k + 1, i + o.len()) is Some {
                        prepend_span(i, i + o.len(), match_from(p, s, k + 1, i + o.len()))
                    } else {
                        try_alt(p, s, k, i, j + 1)
                    }
                }
            },
            _ => None,
        }
    }
}

/// The first match of `p` in `s` that starts at `i` or later.
pub open spec fn find_from(p: Seq<Pat>, s: Seq<char>, i: int) -> Option<Spans>
    decreases s.len() + 1 - i,
{
    if i < 0 || i > s.len() {
        None
    } else {
        match match_from(p, s, 0, i) {
            Some(c) => Some(c),
            None => find_from(p, s, i + 1),
        }
    }
}

/// The leftmost match of `p` in `s`.
pub open spec fn find(p: Seq<Pat>, s: Seq<char>) -> Option<Spans> {
    find_from(p, s, 0)
}

/// A run ends within the input, after its start, and holds only characters of its class.
pub proof fn lemma_run_end(s: Seq<char>, cl: CharClass, i: int)
    requires
        0 <= i <= s.len(),
    ensures
        i <= run_end(s, cl, i) <= s.len(),
        forall|j: int| i <= j < run_end(s, cl, i) ==> class_has(cl, #[trigger] s[j]),
        run_end(s, cl, i) < s.len() ==> !class_has(cl, s[run_end(s, cl, i)]),
    decreases s.len() - i,
{
    if i < s.len() && class_has(cl, s[i]) {
        lemma_run_end(s, cl, i + 1);
    }
}

/// A run of a class that holds every character of `i..j` and stops at `j` ends at `j`.
pub proof fn lemma_run_end_at(s: Seq<char>, cl: CharClass, i: int, j: int)
    requires
        0 <= i <= j <= s.len(),
        forall|k: int| i <= k < j ==> class_has(cl, #[trigger] s[k]),
        j < s.len() ==> !class_has(cl, s[j]),
    ensures
        run_end(s, cl, i) == j,
    decreases j - i,
{
    if i < j {
        lemma_run_end_at(s, cl, i + 1, j);
    }
}

/// Every span starts no later than it ends, and ends within an input of length `n`.
pub open spec fn spans_within(sp: Spans, n: int) -> bool {
    forall|j: int| 0 <= j < sp.len() ==> #[trigger] sp[j].0 <= sp[j].1 && sp[j].1 <= n
}

/// The spans of an optional match, as a sequence.
pub open spec fn spans_of(r: Option<Vec<(usize, usize)>>) -> Option<Spans> {
    match r {
        Some(v) => Some(v@),
        None => None,
    }
}

/// Whether `l` occurs in `s` at position `i`.
pub fn lit_at(s: &Vec<char>, i: usize, l: &Vec<char>) -> (b: bool)
    ensures
        b == has_lit_at(s@, i as int, l@),
{
    if i > s.len() || l.len() > s.len() - i {
        return false;
    }
    let mut j: usize = 0;
    while j < l.len()
        invariant
            i + l.len() <= s.len(),
            j <= l.len(),
            forall|m: int| 0 <= m < j ==> s@[i + m] == l@[m],
        decreases l.len() - j,
    {
        if s[i + j] != l[j] {
            assert(s@.subrange(i as int, i + l.len())[j as int] != l@[j as int]);
            return false;
        }
        j = j + 1;
    }
    assert(s@.subrange(i as int, i + l.len()) =~= l@);
    true
}

/// The end of the longest run of characters of class `cl` that starts at `i`.
pub fn run_end_at(s: &Vec<char>, cl: CharClass, i: usize) -> (r: usize)
    requires
        i <= s.len(),
    ensures
        r == run_end(s@, cl, i as int),
{
    let mut j = i;
    while j < s.len() && class_contains(cl, s[j])
        invariant
            i <= j <= s.len(),
            run_end(s@, cl, i as int) == run_end(s@, cl, j as int),
        decreases s.len() - j,
    {
        j = j + 1;
    }
    j
}

/// Every span of `seq![(a, b)] + w` lies within `n` when `(a, b)` and every span of `w` do.
proof fn lemma_prepend_within(a: usize, b: usize, w: Spans, n: int)
    requires
        a <= b <= n,
        spans_within(w, n),
    ensures
        spans_within(seq![(a, b)] + w, n),
{
    let v = seq![(a, b)] + w;
    assert forall|j: int| 0 <= j < v.len() implies #[trigger] v[j].0 <= v[j].1 && v[j].1 <= n by {
        if j > 0 {
            assert(v[j] == w[j - 1]);
        }
    }
}

/// Puts the span `(a, b)` in front of a match of the rest.
fn prepend(a: usize, b: usize, rest: Option<Vec<(usize, usize)>>, Ghost(n): Ghost<int>) -> (r: Option<
    Vec<(usize, usize)>,
>)
    requires
        a <= b <= n,
        rest matches Some(w) ==> spans_within(w@, n),
    ensures
        spans_of(r) == prepend_span(a as int, b as int, spans_of(rest)),
        r matches Some(v) ==> rest matches Some(w) && v@.len() == w@.len() + 1 && spans_within(v@, n),
{
    match rest {
        Some(mut v) => {
            let ghost old_v = v@;
            v.insert(0, (a, b));
            assert(v@ =~= seq![(a, b)] + old_v);
            proof {
                lemma_prepend_within(a, b, old_v, n);
            }
            Some(v)
        },
        None => None,
    }
}

/// The match of items `k..` of `p` that starts at position `i` of `s`, if there is one.
pub fn match_at(p: &Vec<Item>, s: &Vec<char>, k: usize, i: usize) -> (r: Option<Vec<(usize, usize)>>)
    requires
        k <= p.len(),
        i <= s.len(),
    ensures
        spans_of(r) == match_from(pat_of(p@), s@, k as int, i as int),
        r matches Some(v) ==> v@.len() == pat_of(p@).len() - k && spans_within(v@, s@.len() as int),
    decreases pat_of(p@).len() - k, s@.len() + 2 + item_weight(pat_of(p@), k as int),
{
    if k == p.len() {
        return Some(Vec::new());
    }
    match &p[k] {
        Item::Lit(l) => {
            if lit_at(s, i, l) {
                let rest = match_at(p, s, k + 1, i + l.len());
                prepend(i, i + l.len(), rest, Ghost(s@.len() as int))
            } else {
                None
            }
        },
        Item::Start => {
            if i == 0 {
                let rest = match_at(p, s, k + 1, i);
                prepend(i, i, rest, Ghost(s@.len() as int))
            } else {
                None
            }
        },
        Item::End => {
            if i == s.len() {
                let rest = match_at(p, s, k + 1, i);
                prepend(i, i, rest, Ghost(s@.len() as int))
            } else {
                None
            }
        },
        Item::Rep { class, min, lazy, optional } => {
            proof {
                lemma_run_end(s@, *class, i as int);
            }
            let r = run_end_at(s, *class, i);
            let found = if *lazy {
                if *min > s.len() - i {
                    assert(try_lazy(pat_of(p@), s@, k as int, i as int, i + *min, r as int) is None);
                    None
                } else {
                    lazy_at(p, s, k, i, i + *min, r)
                }
            } else {
                if *min > s.len() - i {
                    assert(try_greedy(pat_of(p@), s@, k as int, i as int, r as int, i + *min) is None);
                    None
                } else {
                    greedy_at(p, s, k, i, r, i + *min)
                }
            };
            if found.is_some() || !*optional {
                found
            } else {
                let rest = match_at(p, s, k + 1, i);
                prepend(i, i, rest, Ghost(s@.len() as int))
            }
        },
        Item::Alt { options, optional } => {
            let found = alt_at(p, s, k, i, 0);
            if found.is_some() || !*optional {
                found
            } else {
                let rest = match_at(p, s, k + 1, i);
                prepend(i, i, rest, Ghost(s@.len() as int))
            }
        },
    }
}

/// Tries the run lengths that end at `n`, `n - 1`, ..., `lo` for item `k`, in that order.
fn greedy_at(p: &Vec<Item>, s: &Vec<char>, k: usize, i: usize, n: usize, lo: usize) -> (r: Option<
    Vec<(usize, usize)>,
>)
    requires
        k < p.len(),
        n <= s.len(),
        i <= lo <= s.len(),
    ensures
        spans_of(r) == try_greedy(pat_of(p@), s@, k as int, i as int, n as int, lo as int),
        r matches Some(v) ==> v@.len() == pat_of(p@).len() - k && spans_within(v@, s@.len() as int),
    decreases pat_of(p@).len() - k, if n >= lo { n - lo + 1 } else { 0 },
{
    if n < lo {
        return None;
    }
    let rest = match_at(p, s, k + 1, n);
    match rest {
        Some(mut v) => {
            let ghost old_v = v@;
            v.insert(0, (i, n));
            assert(v@ =~= seq![(i, n)] + old_v);
            assert(seq![(i, n)] =~= seq![((i as int) as usize, (n as int) as usize)]);
            proof {
                lemma_prepend_within(i, n, old_v, s@.len() as int);
            }
            Some(v)
        },
        None => {
            if n == 0 {
                assert(try_greedy(pat_of(p@), s@, k as int, i as int, -1, lo as int) is None);
                None
            } else {
                greedy_at(p, s, k, i, n - 1, lo)
            }
        },
    }
}

/// Tries the run lengths that end at `n`, `n + 1`, ..., `hi` for item `k`, in that order.
fn lazy_at(p: &Vec<Item>, s: &Vec<char>, k: usize, i: usize, n: usize, hi: usize) -> (r: Option<
    Vec<(usize, usize)>,
>)
    requires
        k < p.len(),
        i <= n <= s.len(),
        hi <= s.len(),
    ensures
        spans_of(r) == try_lazy(pat_of(p@), s@, k as int, i as int, n as int, hi as int),
        r matches Some(v) ==> v@.len() == pat_of(p@).len() - k && spans_within(v@, s@.len() as int),
    decreases pat_of(p@).len() - k, if hi >= n { hi - n + 1 } else { 0 },
{
    if n > hi {
        return None;
    }
    let rest = match_at(p, s, k + 1, n);
    match rest {
        Some(mut v) => {
            let ghost old_v = v@;
            v.insert(0, (i, n));
            assert(v@ =~= seq![(i, n)] + old_v);
            assert(seq![(i, n)] =~= seq![((i as int) as usize, (n as int) as usize)]);
            proof {
                lemma_prepend_within(i, n, old_v, s@.len() as int);
            }
            Some(v)
        },
        None => {
            if n == hi {
                assert(try_lazy(pat_of(p@), s@, k as int, i as int, n + 1, hi as int) is None);
                None
            } else {
                lazy_at(p, s, k, i, n + 1, hi)
            }
        },
    }
}

/// Tries the alternatives `j..` of item `k`, in order.
fn alt_at(p: &Vec<Item>, s: &Vec<char>, k: usize, i: usize, j: usize) -> (r: Option<
    Vec<(usize, usize)>,
>)
    requires
        k < p.len(),
        i <= s.len(),
    ensures
        spans_of(r) == try_alt(pat_of(p@), s@, k as int, i as int, j as int),
        r matches Some(v) ==> v@.len() == pat_of(p@).len() - k && spans_within(v@, s@.len() as int),
    decreases pat_of(p@).len() - k, if item_weight(pat_of(p@), k as int) >= j { item_weight(pat_of(p@), k as int) - j } else { 0 },
{
    match &p[k] {
        Item::Alt { options, .. } => {
            if j >= options.len() {
                None
            } else {
                let o = &options[j];
                if lit_at(s, i, o) {
                    let rest = match_at(p, s, k + 1, i + o.len());
                    if rest.is_some() {
                        return prepend(i, i + o.len(), rest, Ghost(s@.len() as int));
                    }
                }
                alt_at(p, s, k, i, j + 1)
            }
        },
        _ => None,
    }
}

/// The leftmost match of `p` in `s`.
pub fn find_match(p: &Vec<Item>, s: &Vec<char>) -> (r: Option<Vec<(usize, usize)>>)
    ensures
        spans_of(r) == find(pat_of(p@), s@),
        r matches Some(v) ==> v@.len() == pat_of(p@).len() && spans_within(v@, s@.len() as int),
{
    let mut i: usize = 0;
    while i <= s.len()
        invariant
            i <= s.len() + 1,
            find(pat_of(p@), s@) == find_from(pat_of(p@), s@, i as int),
        decreases s.len() + 1 - i,
    {
        let m = match_at(p, s, 0, i);
        if m.is_some() {
            return m;
        }
        if i == s.len() {
            assert(find_from(pat_of(p@), s@, i + 1) is None);
            return None;
        }
        i = i + 1;
    }
    None
}

/// A grammar item for a fixed run of characters.
pub fn lit(l: &str) -> (it: Item)
    ensures
        it@ == Pat::Lit(l@),
{
    Item::Lit(str_to_chars(l))
}

/// A grammar item for the first matching one of several fixed alternatives.
pub fn alt(options: &Vec<&str>, optional: bool) -> (it: Item)
    ensures
        it@ == (Pat::Alt { options: options@.map_values(|o: &str| o@), optional }),
{
    let mut v: Vec<Vec<char>> = Vec::new();
    let mut j: usize = 0;
    while j < options.len()
        invariant
            j <= options.len(),
            v@.len() == j,
            forall|m: int| 0 <= m < j ==> #[trigger] v@[m]@ == options@[m]@,
        decreases options.len() - j,
    {
        v.push(str_to_chars(options[j]));
        j = j + 1;
    }
    let it = Item::Alt { options: v, optional };
    assert(v@.map_values(|o: Vec<char>| o@) =~= options@.map_values(|o: &str| o@));
    it
}

/// A grammar item for a run of characters of one class.
pub fn rep(class: CharClass, min: usize, lazy: bool, optional: bool) -> (it: Item)
    ensures
        it@ == (Pat::Rep { class, min, lazy, optional }),
{
    Item::Rep { class, min, lazy, optional }
}

} // verus!
