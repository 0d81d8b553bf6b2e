//! Decimal integers, `major.minor.patch` versions and version requirements.
use crate::grammar::{
    alt, class_has, find, find_match, has_lit_at, is_white_space, lemma_run_end_at, match_from, pat_of,
    prepend_span, rep, run_end, try_alt, try_greedy, CharClass, Item, Pat, Spans,
};
use crate::error::{err_view, HumanVersionError, HumanVersionErrorView};
use crate::text::{str_to_chars, sub_chars};
use vstd::prelude::*;
use vstd::string::StringExecFns;

verus! {

/// Why a string is not a decimal integer.
#[derive(Clone, Copy, Debug, PartialEq, Eq)]
pub enum IntParseError {
    /// The string is empty.
    Empty,
    /// The string holds a character that is not a digit where a digit belongs.
    InvalidDigit,
    /// The number is too large for the type.
    PosOverflow,
    /// The number is too small for the type.
    NegOverflow,
}

/// An ASCII decimal digit.
pub open spec fn is_digit(c: char) -> bool {
    '0' <= c && c <= '9'
}

/// The value of an ASCII decimal digit.
pub open spec fn digit_value(c: char) -> int {
    (c as int) - ('0' as int)
}

/// Reads the digits `s[i..]` onto `acc`, failing at the first character that is not a digit or
/// that takes the value above `max`.
pub open spec fn unsigned_digits(s: Seq<char>, i: int, acc: int, max: int) -> Result<
    int,
    IntParseError,
>
    decreases s.len() - i,
{
    if i < 0 || i >= s.len() {
        Ok(acc)
    } else if !is_digit(s[i]) {
        Err(IntParseError::InvalidDigit)
    } else if acc * 10 + digit_value(s[i]) > max {
        Err(IntParseError::PosOverflow)
    } else {
        unsigned_digits(s, i + 1, acc * 10 + digit_value(s[i]), max)
    }
}

/// Reads the digits `s[i..]` of a negative number onto `acc`, failing at the first character that
/// is not a digit or that takes the value below `min`.
pub open spec fn negative_digits(s: Seq<char>, i: int, acc: int, min: int) -> Result<
    int,
    IntParseError,
>
    decreases s.len() - i,
{
    if i < 0 || i >= s.len() {
        Ok(acc)
    } else if !is_digit(s[i]) {
        Err(IntParseError::InvalidDigit)
    } else if acc * 10 - digit_value(s[i]) < min {
        Err(IntParseError::NegOverflow)
    } else {
        negative_digits(s, i + 1, acc * 10 - digit_value(s[i]), min)
    }
}

/// The value of a decimal string as an unsigned 64-bit integer: an optional `+` and then digits.
pub open spec fn spec_parse_u64(s: Seq<char>) -> Result<u64, IntParseError> {
    if s.len() == 0 {
        Err(IntParseError::Empty)
    } else if (s[0] == '+' || s[0] == '-') && s.len() == 1 {
        Err(IntParseError::InvalidDigit)
    } else {
        let start = if s[0] == '+' {
            1int
        } else {
            0int
        };
        match unsigned_digits(s, start, 0, u64::MAX as int) {
            Ok(v) => Ok(v as u64),
            Err(e) => Err(e),
        }
    }
}

/// The value of a decimal string as a signed 32-bit integer: an optional `+` or `-` and then
/// digits.
pub open spec fn spec_parse_i32(s: Seq<char>) -> Result<i32, IntParseError> {
    if s.len() == 0 {
        Err(IntParseError::Empty)
    } else if (s[0] == '+' || s[0] == '-') && s.len() == 1 {
        Err(IntParseError::InvalidDigit)
    } else if s[0] == '-' {
        match negative_digits(s, 1, 0, i32::MIN as int) {
            Ok(v) => Ok(v as i32),
            Err(e) => Err(e),
        }
    } else {
        let start = if s[0] == '+' {
            1int
        } else {
            0int
        };
        match unsigned_digits(s, start, 0, i32::MAX as int) {
            Ok(v) => Ok(v as i32),
            Err(e) => Err(e),
        }
    }
}

proof fn lemma_unsigned_digits_range(s: Seq<char>, i: int, acc: int, max: int)
    requires
        0 <= acc <= max,
    ensures
        unsigned_digits(s, i, acc, max) matches Ok(v) ==> 0 <= v <= max,
    decreases s.len() - i,
{
    if 0 <= i < s.len() && is_digit(s[i]) && acc * 10 + digit_value(s[i]) <= max {
        lemma_unsigned_digits_range(s, i + 1, acc * 10 + digit_value(s[i]), max);
    }
}

proof fn lemma_negative_digits_range(s: Seq<char>, i: int, acc: int, min: int)
    requires
        min <= acc <= 0,
    ensures
        negative_digits(s, i, acc, min) matches Ok(v) ==> min <= v <= 0,
    decreases s.len() - i,
{
    if 0 <= i < s.len() && is_digit(s[i]) && acc * 10 - digit_value(s[i]) >= min {
        lemma_negative_digits_range(s, i + 1, acc * 10 - digit_value(s[i]), min);
    }
}

/// Reads digits `s[i..]` onto `acc` up to the value `max`.
fn read_unsigned(s: &Vec<char>, i: usize, max: u128) -> (r: Result<u128, IntParseError>)
    requires
        i <= s.len(),
        max <= u64::MAX,
    ensures
        r matches Ok(v) ==> unsigned_digits(s@, i as int, 0, max as int) == Ok::<int, IntParseError>(
            v as int,
        ),
        r matches Err(e) ==> unsigned_digits(s@, i as int, 0, max as int) == Err::<int, IntParseError>(
            e,
        ),
{
    let mut acc: u128 = 0;
    let mut j = i;
    while j < s.len()
        invariant
            i <= j <= s.len(),
            acc <= max,
            max <= u64::MAX,
            unsigned_digits(s@, i as int, 0, max as int) == unsigned_digits(
                s@,
                j as int,
                acc as int,
                max as int,
            ),
        decreases s.len() - j,
    {
        let c = s[j];
        if !('0' <= c && c <= '9') {
            return Err(IntParseError::InvalidDigit);
        }
        let d = ((c as u32) - ('0' as u32)) as u128;
        assert(d as int == digit_value(c));
        let next = acc * 10 + d;
        if next > max {
            return Err(IntParseError::PosOverflow);
        }
        acc = next;
        j = j + 1;
    }
    Ok(acc)
}

/// Reads the digits `s[i..]` of a negative number down to the value `min`.
fn read_negative(s: &Vec<char>, i: usize, min: i128) -> (r: Result<i128, IntParseError>)
    requires
        i <= s.len(),
        i32::MIN <= min <= 0,
    ensures
        r matches Ok(v) ==> negative_digits(s@, i as int, 0, min as int) == Ok::<int, IntParseError>(
            v as int,
        ),
        r matches Err(e) ==> negative_digits(s@, i as int, 0, min as int) == Err::<int, IntParseError>(
            e,
        ),
{
    let mut acc: i128 = 0;
    let mut j = i;
    while j < s.len()
        invariant
            i <= j <= s.len(),
            min <= acc <= 0,
            i32::MIN <= min <= 0,
            negative_digits(s@, i as int, 0, min as int) == negative_digits(
                s@,
                j as int,
                acc as int,
                min as int,
            ),
        decreases s.len() - j,
    {
        let c = s[j];
        if !('0' <= c && c <= '9') {
            return Err(IntParseError::InvalidDigit);
        }
        let d = ((c as u32) - ('0' as u32)) as i128;
        assert(d as int == digit_value(c));
        let next = acc * 10 - d;
        if next < min {
            return Err(IntParseError::NegOverflow);
        }
        acc = next;
        j = j + 1;
    }
    Ok(acc)
}

/// Parses a decimal string as an unsigned 64-bit integer.
pub fn parse_u64(s: &Vec<char>) -> (r: Result<u64, IntParseError>)
    ensures
        r == spec_parse_u64(s@),
{
    if s.len() == 0 {
        return Err(IntParseError::Empty);
    }
    if (s[0] == '+' || s[0] == '-') && s.len() == 1 {
        return Err(IntParseError::InvalidDigit);
    }
    let start: usize = if s[0] == '+' {
        1
    } else {
        0
    };
    proof {
        lemma_unsigned_digits_range(s@, start as int, 0, u64::MAX as int);
    }
    match read_unsigned(s, start, u64::MAX as u128) {
        Ok(v) => Ok(v as u64),
        Err(e) => Err(e),
    }
}

/// Parses a decimal string as a signed 32-bit integer.
pub fn parse_i32(s: &Vec<char>) -> (r: Result<i32, IntParseError>)
    ensures
        r == spec_parse_i32(s@),
{
    if s.len() == 0 {
        return Err(IntParseError::Empty);
    }
    if (s[0] == '+' || s[0] == '-') && s.len() == 1 {
        return Err(IntParseError::InvalidDigit);
    }
    if s[0] == '-' {
        proof {
            lemma_negative_digits_range(s@, 1, 0, i32::MIN as int);
        }
        match read_negative(s, 1, i32::MIN as i128) {
            Ok(v) => Ok(v as i32),
            Err(e) => Err(e),
        }
    } else {
        let start: usize = if s[0] == '+' {
            1
        } else {
            0
        };
        proof {
            lemma_unsigned_digits_range(s@, start as int, 0, i32::MAX as int);
        }
        match read_unsigned(s, start, i32::MAX as u128) {
            Ok(v) => Ok(v as i32),
            Err(e) => Err(e),
        }
    }
}

/// Parses a string as a signed 32-bit integer.
pub fn parse_i32_str(s: &str) -> (r: Result<i32, IntParseError>)
    ensures
        r == spec_parse_i32(s@),
{
    let v = str_to_chars(s);
    parse_i32(&v)
}

/// The decimal digit character for `d`.
pub open spec fn digit_char(d: int) -> char {
    if d == 0 {
        '0'
    } else if d == 1 {
        '1'
    } else if d == 2 {
        '2'
    } else if d == 3 {
        '3'
    } else if d == 4 {
        '4'
    } else if d == 5 {
        '5'
    } else if d == 6 {
        '6'
    } else if d == 7 {
        '7'
    } else if d == 8 {
        '8'
    } else {
        '9'
    }
}

/// The decimal representation of a natural number, without leading zeros.
pub open spec fn decimal(v: nat) -> Seq<char>
    decreases v,
{
    if v < 10 {
        seq![digit_char(v as int)]
    } else {
        decimal(v / 10).push(digit_char((v % 10) as int))
    }
}

/// The one-character string of a decimal digit.
fn digit_str(d: u64) -> (r: &'static str)
    requires
        d < 10,
    ensures
        r@ == seq![digit_char(d as int)],
{
    proof {
        reveal_strlit("0");
        reveal_strlit("1");
        reveal_strlit("2");
        reveal_strlit("3");
        reveal_strlit("4");
        reveal_strlit("5");
        reveal_strlit("6");
        reveal_strlit("7");
        reveal_strlit("8");
        reveal_strlit("9");
    }
    if d == 0 {
        "0"
    } else if d == 1 {
        "1"
    } else if d == 2 {
        "2"
    } else if d == 3 {
        "3"
    } else if d == 4 {
        "4"
    } else if d == 5 {
        "5"
    } else if d == 6 {
        "6"
    } else if d == 7 {
        "7"
    } else if d == 8 {
        "8"
    } else {
        "9"
    }
}

/// Appends the decimal representation of `v` to `out`.
pub fn push_decimal(out: &mut String, v: u64)
    ensures
        final(out)@ == old(out)@ + decimal(v as nat),
    decreases v,
{
    if v < 10 {
        out.append(digit_str(v));
    } else {
        push_decimal(out, v / 10);
        out.append(digit_str(v % 10));
        assert(decimal(v as nat) == decimal((v / 10) as nat).push(digit_char((v % 10) as int)));
        assert(old(out)@ + decimal((v / 10) as nat) + seq![digit_char((v % 10) as int)] =~= old(
            out,
        )@ + decimal(v as nat));
    }
}

/// The decimal representation of an unsigned integer.
pub fn u64_to_string(v: u64) -> (r: String)
    ensures
        r@ == decimal(v as nat),
{
    let mut out = String::new();
    push_decimal(&mut out, v);
    assert(out@ =~= decimal(v as nat));
    out
}

/// A `major.minor.patch` version.
#[derive(Clone, Copy, Debug, PartialEq, Eq, Structural)]
pub struct HumanVersion {
    /// The major component.
    pub major: u64,
    /// The minor component.
    pub minor: u64,
    /// The patch component.
    pub patch: u64,
}

/// How a version requirement compares a version to its own.
#[derive(Clone, Copy, Debug, PartialEq, Eq, Structural)]
pub enum VersionComparator {
    /// `<`
    Less,
    /// `<=`
    LessOrEqual,
    /// `=`
    Equal,
    /// `>=`
    GreaterOrEqual,
    /// `>`
    Greater,
}

/// A requirement on a version, such as `>= 0.18.0`.
#[derive(Clone, Copy, Debug, PartialEq, Eq, Structural)]
pub struct HumanVersionReq {
    /// How the version is compared.
    pub comparator: VersionComparator,
    /// The version compared against.
    pub version: HumanVersion,
}

/// The index of the first `.` in `s` at or after `i`, or the length of `s`.
pub open spec fn dot_from(s: Seq<char>, i: int) -> int
    decreases s.len() - i,
{
    if i < 0 || i >= s.len() {
        s.len() as int
    } else if s[i] == '.' {
        i
    } else {
        dot_from(s, i + 1)
    }
}

/// The version that a string denotes: its first three `.`-separated components, in order, each a
/// decimal integer; components past the third are not read. The components are read from the
/// left and the first failure is reported.
pub open spec fn spec_parse_version(s: Seq<char>) -> Result<HumanVersion, HumanVersionErrorView> {
    let d1 = dot_from(s, 0);
    match spec_parse_u64(s.subrange(0, d1)) {
        Err(e) => Err(HumanVersionErrorView::ParsingError(e)),
        Ok(major) => if d1 >= s.len() {
            Err(HumanVersionErrorView::MissingComponent)
        } else {
            let d2 = dot_from(s, d1 + 1);
            match spec_parse_u64(s.subrange(d1 + 1, d2)) {
                Err(e) => Err(HumanVersionErrorView::ParsingError(e)),
                Ok(minor) => if d2 >= s.len() {
                    Err(HumanVersionErrorView::MissingComponent)
                } else {
                    let d3 = dot_from(s, d2 + 1);
                    match spec_parse_u64(s.subrange(d2 + 1, d3)) {
                        Err(e) => Err(HumanVersionErrorView::ParsingError(e)),
                        Ok(patch) => Ok(HumanVersion { major, minor, patch }),
                    }
                },
            }
        },
    }
}

/// The text of a version: its components in decimal, separated by `.`.
pub open spec fn version_text(v: HumanVersion) -> Seq<char> {
    decimal(v.major as nat) + seq!['.'] + decimal(v.minor as nat) + seq!['.'] + decimal(
        v.patch as nat,
    )
}

/// A version is written as its major, minor and patch numbers in decimal, in that order,
/// separated by dots.
pub proof fn law_version_text_layout(v: HumanVersion)
    ensures
        version_text(v) == decimal(v.major as nat) + seq!['.'] + decimal(v.minor as nat) + seq!['.']
            + decimal(v.patch as nat),
{
}

/// The value of the digits `s[i..]` read onto `acc`, from the left.
pub open spec fn digits_from(s: Seq<char>, i: int, acc: int) -> int
    decreases s.len() - i,
{
    if i < 0 || i >= s.len() {
        acc
    } else {
        digits_from(s, i + 1, acc * 10 + digit_value(s[i]))
    }
}

/// Whether every character of a sequence is a decimal digit.
pub open spec fn all_digits(s: Seq<char>) -> bool {
    forall|k: int| 0 <= k < s.len() ==> is_digit(#[trigger] s[k])
}

/// Reading digits never takes the accumulated value down.
proof fn lemma_digits_from_grows(s: Seq<char>, i: int, acc: int)
    requires
        0 <= i <= s.len(),
        all_digits(s),
        acc >= 0,
    ensures
        digits_from(s, i, acc) >= acc,
    decreases s.len() - i,
{
    if i < s.len() {
        assert(is_digit(s[i]));
        lemma_digits_from_grows(s, i + 1, acc * 10 + digit_value(s[i]));
    }
}

/// Digits whose value fits read as that value.
proof fn lemma_unsigned_digits_value(s: Seq<char>, i: int, acc: int, max: int)
    requires
        0 <= i <= s.len(),
        all_digits(s),
        acc >= 0,
        digits_from(s, i, acc) <= max,
    ensures
        unsigned_digits(s, i, acc, max) == Ok::<int, IntParseError>(digits_from(s, i, acc)),
    decreases s.len() - i,
{
    if i < s.len() {
        let next = acc * 10 + digit_value(s[i]);
        assert(is_digit(s[i]));
        lemma_digits_from_grows(s, i + 1, next);
        lemma_unsigned_digits_value(s, i + 1, next, max);
    }
}

/// Reading one more digit at the end multiplies the value by ten and adds the digit.
proof fn lemma_digits_push(s: Seq<char>, c: char, i: int, acc: int)
    requires
        0 <= i <= s.len(),
    ensures
        digits_from(s.push(c), i, acc) == digits_from(s, i, acc) * 10 + digit_value(c),
    decreases s.len() - i,
{
    let t = s.push(c);
    if i < s.len() {
        assert(t[i] == s[i]);
        lemma_digits_push(s, c, i + 1, acc * 10 + digit_value(s[i]));
    } else {
        assert(t[i] == c);
        assert(digits_from(t, i + 1, acc * 10 + digit_value(c)) == acc * 10 + digit_value(c));
        assert(digits_from(s, i, acc) == acc);
    }
}

/// A digit's character is a digit of that value.
proof fn lemma_digit_char(d: int)
    requires
        0 <= d < 10,
    ensures
        is_digit(digit_char(d)),
        digit_value(digit_char(d)) == d,
{
}

/// The decimal representation of a number is a nonempty run of digits whose value is the number.
pub proof fn lemma_decimal_value(n: nat)
    ensures
        decimal(n).len() >= 1,
        all_digits(decimal(n)),
        digits_from(decimal(n), 0, 0) == n,
    decreases n,
{
    if n < 10 {
        lemma_digit_char(n as int);
        let t = seq![digit_char(n as int)];
        assert(decimal(n) =~= t);
        assert(digits_from(t, 1, digit_value(t[0])) == digit_value(t[0]));
        assert(digits_from(t, 0, 0) == digits_from(t, 1, digit_value(t[0])));
    } else {
        let d = (n % 10) as int;
        lemma_digit_char(d);
        lemma_decimal_value(n / 10);
        let p = decimal(n / 10);
        lemma_digits_push(p, digit_char(d), 0, 0);
        assert(decimal(n) == p.push(digit_char(d)));
        assert forall|k: int| 0 <= k < decimal(n).len() implies is_digit(#[trigger] decimal(n)[k]) by {
            if k < p.len() {
                assert(decimal(n)[k] == p[k]);
            }
        }
    }
}

/// The decimal representation of an unsigned integer reads back as the integer.
pub proof fn lemma_parse_decimal(v: u64)
    ensures
        spec_parse_u64(decimal(v as nat)) == Ok::<u64, IntParseError>(v),
{
    let s = decimal(v as nat);
    lemma_decimal_value(v as nat);
    assert(is_digit(s[0]));
    lemma_unsigned_digits_value(s, 0, 0, u64::MAX as int);
}

/// The first `.` at or after `i` is at `j` when none lies before it.
proof fn lemma_dot_from_at(s: Seq<char>, i: int, j: int)
    requires
        0 <= i <= j <= s.len(),
        forall|k: int| i <= k < j ==> s[k] != '.',
        j < s.len() ==> s[j] == '.',
    ensures
        dot_from(s, i) == j,
    decreases j - i,
{
    if i < j {
        lemma_dot_from_at(s, i + 1, j);
    }
}

/// A version's text reads back as the version.
pub proof fn law_version_text_roundtrip(v: HumanVersion)
    ensures
        spec_parse_version(version_text(v)) == Ok::<HumanVersion, HumanVersionErrorView>(v),
{
    let a = decimal(v.major as nat);
    let b = decimal(v.minor as nat);
    let c = decimal(v.patch as nat);
    lemma_decimal_value(v.major as nat);
    lemma_decimal_value(v.minor as nat);
    lemma_decimal_value(v.patch as nat);
    lemma_parse_decimal(v.major);
    lemma_parse_decimal(v.minor);
    lemma_parse_decimal(v.patch);
    let s = version_text(v);
    let d1 = a.len() as int;
    let d2 = d1 + 1 + b.len();
    assert(s =~= a + seq!['.'] + b + seq!['.'] + c);
    assert forall|k: int| 0 <= k < d1 implies s[k] != '.' by {
        assert(s[k] == a[k]);
        assert(is_digit(a[k]));
    }
    lemma_dot_from_at(s, 0, d1);
    assert(s.subrange(0, d1) =~= a);
    assert forall|k: int| d1 + 1 <= k < d2 implies s[k] != '.' by {
        assert(s[k] == b[k - d1 - 1]);
        assert(is_digit(b[k - d1 - 1]));
    }
    lemma_dot_from_at(s, d1 + 1, d2);
    assert(s.subrange(d1 + 1, d2) =~= b);
    assert forall|k: int| d2 + 1 <= k < s.len() implies s[k] != '.' by {
        assert(s[k] == c[k - d2 - 1]);
        assert(is_digit(c[k - d2 - 1]));
    }
    lemma_dot_from_at(s, d2 + 1, s.len() as int);
    assert(s.subrange(d2 + 1, s.len() as int) =~= c);
}

/// Whether `a` comes before `b`: by major, then minor, then patch component.
pub open spec fn version_lt(a: HumanVersion, b: HumanVersion) -> bool {
    ||| a.major < b.major
    ||| (a.major == b.major && a.minor < b.minor)
    ||| (a.major == b.major && a.minor == b.minor && a.patch < b.patch)
}

/// Whether a version meets a requirement.
pub open spec fn spec_meets(v: HumanVersion, req: HumanVersionReq) -> bool {
    match req.comparator {
        VersionComparator::Less => version_lt(v, req.version),
        VersionComparator::LessOrEqual => version_lt(v, req.version) || v == req.version,
        VersionComparator::Equal => v == req.version,
        VersionComparator::GreaterOrEqual => !version_lt(v, req.version),
        VersionComparator::Greater => !version_lt(v, req.version) && v != req.version,
    }
}

/// Versions are ordered by major, then minor, then patch number: a smaller major number comes
/// first whatever the rest; under equal majors a smaller minor number comes first whatever the
/// patch; under equal majors and minors a smaller patch number comes first. No version comes
/// before itself, and of two versions at most one comes before the other.
pub proof fn law_version_order(a: HumanVersion, b: HumanVersion)
    ensures
        a.major < b.major ==> version_lt(a, b),
        a.major == b.major && a.minor < b.minor ==> version_lt(a, b),
        a.major == b.major && a.minor == b.minor && a.patch < b.patch ==> version_lt(a, b),
        !version_lt(a, a),
        version_lt(a, b) ==> !version_lt(b, a),
        a != b ==> version_lt(a, b) || version_lt(b, a),
{
}

/// A version meets `< r` exactly when it comes before `r`, `<= r` when it comes before or is
/// `r`, `= r` when it is `r`, `>= r` when `r` comes before it or it is `r`, and `> r` when `r`
/// comes before it. So no version meets a strict requirement on itself.
pub proof fn law_meets_comparators(v: HumanVersion, r: HumanVersion)
    ensures
        spec_meets(v, HumanVersionReq { comparator: VersionComparator::Less, version: r })
            <==> version_lt(v, r),
        spec_meets(v, HumanVersionReq { comparator: VersionComparator::LessOrEqual, version: r })
            <==> (version_lt(v, r) || v == r),
        spec_meets(v, HumanVersionReq { comparator: VersionComparator::Equal, version: r })
            <==> v == r,
        spec_meets(v, HumanVersionReq { comparator: VersionComparator::GreaterOrEqual, version: r })
            <==> (version_lt(r, v) || v == r),
        spec_meets(v, HumanVersionReq { comparator: VersionComparator::Greater, version: r })
            <==> version_lt(r, v),
        !spec_meets(v, HumanVersionReq { comparator: VersionComparator::Greater, version: v }),
        !spec_meets(v, HumanVersionReq { comparator: VersionComparator::Less, version: v }),
{
    law_version_order(v, r);
    law_version_order(r, v);
    law_version_order(v, v);
}

/// The index of the first `.` in `s` at or after `i`, or the length of `s`.
fn find_dot(s: &Vec<char>, i: usize) -> (r: usize)
    requires
        i <= s.len(),
    ensures
        r == dot_from(s@, i as int),
        i <= r <= s.len(),
{
    let mut j = i;
    while j < s.len() && s[j] != '.'
        invariant
            i <= j <= s.len(),
            dot_from(s@, i as int) == dot_from(s@, j as int),
        decreases s.len() - j,
    {
        j = j + 1;
    }
    j
}

/// Parses the decimal integer `s[a..b]`.
fn parse_component(s: &Vec<char>, a: usize, b: usize) -> (r: Result<u64, IntParseError>)
    requires
        a <= b <= s.len(),
    ensures
        r == spec_parse_u64(s@.subrange(a as int, b as int)),
{
    let part = sub_chars(s, a, b);
    parse_u64(&part)
}

/// Parses a version from its characters.
pub fn parse_version_chars(s: &Vec<char>) -> (r: Result<HumanVersion, HumanVersionError>)
    ensures
        err_view(r) == spec_parse_version(s@),
{
    let d1 = find_dot(s, 0);
    let major = match parse_component(s, 0, d1) {
        Ok(v) => v,
        Err(e) => return Err(HumanVersionError::ParsingError(e)),
    };
    if d1 >= s.len() {
        return Err(HumanVersionError::MissingComponent);
    }
    let d2 = find_dot(s, d1 + 1);
    let minor = match parse_component(s, d1 + 1, d2) {
        Ok(v) => v,
        Err(e) => return Err(HumanVersionError::ParsingError(e)),
    };
    if d2 >= s.len() {
        return Err(HumanVersionError::MissingComponent);
    }
    let d3 = find_dot(s, d2 + 1);
    let patch = match parse_component(s, d2 + 1, d3) {
        Ok(v) => v,
        Err(e) => return Err(HumanVersionError::ParsingError(e)),
    };
    Ok(HumanVersion { major, minor, patch })
}

impl HumanVersion {
    /// Returns a new version from its components.
    pub fn new(major: u64, minor: u64, patch: u64) -> (v: HumanVersion)
        ensures
            v == (HumanVersion { major, minor, patch }),
    {
        HumanVersion { major, minor, patch }
    }

    /// Parses a version from a string such as `0.18.47`.
    pub fn parse(s: &str) -> (r: Result<HumanVersion, HumanVersionError>)
        ensures
            err_view(r) == spec_parse_version(s@),
    {
        let v = str_to_chars(s);
        parse_version_chars(&v)
    }

    /// Whether this version comes before another.
    pub fn is_older_than(&self, other: &HumanVersion) -> (b: bool)
        ensures
            b == version_lt(*self, *other),
    {
        self.major < other.major || (self.major == other.major && self.minor < other.minor) || (
        self.major == other.major && self.minor == other.minor && self.patch < other.patch)
    }

    /// Whether this version meets a requirement.
    pub fn meets(&self, req: &HumanVersionReq) -> (b: bool)
        ensures
            b == spec_meets(*self, *req),
    {
        let older = self.is_older_than(&req.version);
        let same = *self == req.version;
        match req.comparator {
            VersionComparator::Less => older,
            VersionComparator::LessOrEqual => older || same,
            VersionComparator::Equal => same,
            VersionComparator::GreaterOrEqual => !older,
            VersionComparator::Greater => !older && !same,
        }
    }

    /// The text of this version, such as `0.18.47`.
    pub fn to_string(&self) -> (r: String)
        ensures
            r@ == version_text(*self),
    {
        let mut out = String::new();
        push_decimal(&mut out, self.major);
        out.append(".");
        push_decimal(&mut out, self.minor);
        out.append(".");
        push_decimal(&mut out, self.patch);
        proof {
            reveal_strlit(".");
        }
        assert(out@ =~= version_text(*self));
        out
    }
}

/// The grammar of a version requirement: an optional comparator, an optional space and an
/// optional run of characters other than white space, making up the whole string.
pub open spec fn req_pattern() -> Seq<Pat> {
    seq![
        Pat::Start,
        Pat::Alt { options: seq![">="@, "<="@, ">"@, "<"@, "="@], optional: true },
        Pat::Alt { options: seq![" "@], optional: true },
        Pat::Rep { class: CharClass::NonSpace, min: 1, lazy: false, optional: true },
        Pat::End,
    ]
}

/// The comparator that its text denotes.
pub open spec fn comparator_of(c: Seq<char>) -> VersionComparator {
    if c == ">="@ {
        VersionComparator::GreaterOrEqual
    } else if c == "<="@ {
        VersionComparator::LessOrEqual
    } else if c == ">"@ {
        VersionComparator::Greater
    } else if c == "<"@ {
        VersionComparator::Less
    } else {
        VersionComparator::Equal
    }
}

/// The text of span `j` of a match.
pub open spec fn span_text(s: Seq<char>, sp: Spans, j: int) -> Seq<char> {
    s.subrange(sp[j].0 as int, sp[j].1 as int)
}

/// The requirement that a string denotes.
pub open spec fn spec_parse_req(s: Seq<char>) -> Result<HumanVersionReq, HumanVersionErrorView> {
    match find(req_pattern(), s) {
        None => Err(HumanVersionErrorView::NoRegexCaptures(s)),
        Some(sp) => {
            let c = span_text(s, sp, 1);
            let v = span_text(s, sp, 3);
            if c.len() == 0 {
                Err(HumanVersionErrorView::MissingComparator(s))
            } else if v.len() == 0 {
                Err(HumanVersionErrorView::MissingVersion(s))
            } else {
                match spec_parse_version(v) {
                    Err(e) => Err(e),
                    Ok(version) => Ok(HumanVersionReq { comparator: comparator_of(c), version }),
                }
            }
        },
    }
}

/// A version's text holds no white space.
proof fn lemma_version_text_no_space(v: HumanVersion)
    ensures
        version_text(v).len() >= 5,
        forall|k: int| 0 <= k < version_text(v).len() ==> !is_white_space(#[trigger] version_text(v)[k]),
{
    let a = decimal(v.major as nat);
    let b = decimal(v.minor as nat);
    let c = decimal(v.patch as nat);
    lemma_decimal_value(v.major as nat);
    lemma_decimal_value(v.minor as nat);
    lemma_decimal_value(v.patch as nat);
    let s = version_text(v);
    assert(s =~= a + seq!['.'] + b + seq!['.'] + c);
    assert forall|k: int| 0 <= k < s.len() implies !is_white_space(#[trigger] s[k]) by {
        if k < a.len() {
            assert(s[k] == a[k] && is_digit(a[k]));
        } else if k == a.len() {
            assert(s[k] == '.');
        } else if k < a.len() + 1 + b.len() {
            assert(s[k] == b[k - a.len() - 1] && is_digit(b[k - a.len() - 1]));
        } else if k == a.len() + 1 + b.len() {
            assert(s[k] == '.');
        } else {
            assert(s[k] == c[k - a.len() - 2 - b.len()] && is_digit(c[k - a.len() - 2 - b.len()]));
        }
    }
}

/// After the comparator, a space and a run of characters other than white space make up the
/// rest of a requirement.
proof fn lemma_req_tail(s: Seq<char>, i: int)
    requires
        0 <= i,
        i + 1 < s.len(),
        s.len() <= usize::MAX,
        s[i] == ' ',
        forall|k: int| i + 1 <= k < s.len() ==> !is_white_space(#[trigger] s[k]),
    ensures
        match_from(req_pattern(), s, 2, i) == Some(
            seq![
                (i as usize, (i + 1) as usize),
                ((i + 1) as usize, s.len() as usize),
                (s.len() as usize, s.len() as usize),
            ],
        ),
{
    let p = req_pattern();
    let n = s.len() as int;
    reveal_strlit(" ");
    assert(match_from(p, s, 5, n) == Some(Seq::<(usize, usize)>::empty()));
    assert(match_from(p, s, 4, n) == Some(seq![(n as usize, n as usize)]));
    assert forall|k: int| i + 1 <= k < n implies class_has(CharClass::NonSpace, #[trigger] s[k]) by {
        assert(!is_white_space(s[k]));
    }
    lemma_run_end_at(s, CharClass::NonSpace, i + 1, n);
    assert(try_greedy(p, s, 3, i + 1, n, i + 2) == Some(
        seq![((i + 1) as usize, n as usize)] + seq![(n as usize, n as usize)],
    ));
    assert(match_from(p, s, 3, i + 1) == Some(
        seq![((i + 1) as usize, n as usize), (n as usize, n as usize)],
    ));
    assert(has_lit_at(s, i, " "@)) by {
        assert(s.subrange(i, i + 1) =~= " "@);
    }
    assert(try_alt(p, s, 2, i, 0) == Some(
        seq![(i as usize, (i + 1) as usize)] + seq![
            ((i + 1) as usize, n as usize),
            (n as usize, n as usize),
        ],
    ));
}

/// Ten to the power `k`.
spec fn pow10(k: nat) -> nat
    decreases k,
{
    if k == 0 {
        1
    } else {
        10 * pow10((k - 1) as nat)
    }
}

/// A number below `10^k` has at most `k` digits.
proof fn lemma_decimal_len(n: nat, k: nat)
    requires
        k >= 1,
        n < pow10(k),
    ensures
        decimal(n).len() <= k,
    decreases k,
{
    if n >= 10 {
        assert(pow10(1) == 10) by {
            reveal_with_fuel(pow10, 2);
        }
        assert(k >= 2);
        let q = pow10((k - 1) as nat);
        assert(n / 10 < q) by (nonlinear_arith)
            requires
                n < 10 * q,
        ;
        lemma_decimal_len(n / 10, (k - 1) as nat);
    }
}

/// A version's text is short.
proof fn lemma_version_text_len(v: HumanVersion)
    ensures
        version_text(v).len() <= 62,
{
    assert(pow10(20) == 100000000000000000000nat) by {
        reveal_with_fuel(pow10, 21);
    }
    lemma_decimal_len(v.major as nat, 20);
    lemma_decimal_len(v.minor as nat, 20);
    lemma_decimal_len(v.patch as nat, 20);
}

/// How the requirement grammar matches the text of a requirement.
proof fn lemma_req_match(r: HumanVersionReq)
    ensures
        match_from(req_pattern(), req_text(r), 0, 0) == Some(
            seq![
                (0usize, 0usize),
                (0usize, comparator_text(r.comparator).len() as usize),
                (
                    comparator_text(r.comparator).len() as usize,
                    (comparator_text(r.comparator).len() + 1) as usize,
                ),
                ((comparator_text(r.comparator).len() + 1) as usize, req_text(r).len() as usize),
                (req_text(r).len() as usize, req_text(r).len() as usize),
            ],
        ),
{
    let p = req_pattern();
    let op = comparator_text(r.comparator);
    let s = req_text(r);
    let m = op.len() as int;
    let n = s.len() as int;
    reveal_strlit(">=");
    reveal_strlit("<=");
    reveal_strlit(">");
    reveal_strlit("<");
    reveal_strlit("=");
    lemma_version_text_len(r.version);
    lemma_version_text_no_space(r.version);
    assert forall|k: int| m + 1 <= k < n implies !is_white_space(#[trigger] s[k]) by {
        assert(s[k] == version_text(r.version)[k - m - 1]);
    }
    lemma_req_tail(s, m);
    let tail = match_from(p, s, 2, m);
    assert(s[0] == op[0]);
    assert(m == 2 ==> s[1] == op[1]);
    assert(m == 1 ==> s[1] == ' ');
    assert(has_lit_at(s, 0, op)) by {
        assert(s.subrange(0, m) =~= op);
    }
    let found = prepend_span(0, m, tail);
    assert(found is Some);
    match r.comparator {
        VersionComparator::GreaterOrEqual => {
            assert(try_alt(p, s, 1, 0, 0) == found);
        },
        VersionComparator::LessOrEqual => {
            assert(!has_lit_at(s, 0, ">="@)) by {
                if has_lit_at(s, 0, ">="@) {
                    assert(s.subrange(0, 2)[0] == s[0]);
                }
            }
            assert(try_alt(p, s, 1, 0, 1) == found);
            assert(try_alt(p, s, 1, 0, 0) == found);
        },
        VersionComparator::Greater => {
            assert(!has_lit_at(s, 0, ">="@)) by {
                if has_lit_at(s, 0, ">="@) {
                    assert(s.subrange(0, 2)[1] == s[1]);
                }
            }
            assert(!has_lit_at(s, 0, "<="@)) by {
                if has_lit_at(s, 0, "<="@) {
                    assert(s.subrange(0, 2)[0] == s[0]);
                }
            }
            assert(try_alt(p, s, 1, 0, 2) == found);
            assert(try_alt(p, s, 1, 0, 1) == found);
            assert(try_alt(p, s, 1, 0, 0) == found);
        },
        VersionComparator::Less => {
            assert(!has_lit_at(s, 0, ">="@)) by {
                if has_lit_at(s, 0, ">="@) {
                    assert(s.subrange(0, 2)[0] == s[0]);
                }
            }
            assert(!has_lit_at(s, 0, "<="@)) by {
                if has_lit_at(s, 0, "<="@) {
                    assert(s.subrange(0, 2)[1] == s[1]);
                }
            }
            assert(!has_lit_at(s, 0, ">"@)) by {
                if has_lit_at(s, 0, ">"@) {
                    assert(s.subrange(0, 1)[0] == s[0]);
                }
            }
            assert(try_alt(p, s, 1, 0, 3) == found);
            assert(try_alt(p, s, 1, 0, 2) == found);
            assert(try_alt(p, s, 1, 0, 1) == found);
            assert(try_alt(p, s, 1, 0, 0) == found);
        },
        VersionComparator::Equal => {
            assert(!has_lit_at(s, 0, ">="@)) by {
                if has_lit_at(s, 0, ">="@) {
                    assert(s.subrange(0, 2)[0] == s[0]);
                }
            }
            assert(!has_lit_at(s, 0, "<="@)) by {
                if has_lit_at(s, 0, "<="@) {
                    assert(s.subrange(0, 2)[0] == s[0]);
                }
            }
            assert(!has_lit_at(s, 0, ">"@)) by {
                if has_lit_at(s, 0, ">"@) {
                    assert(s.subrange(0, 1)[0] == s[0]);
                }
            }
            assert(!has_lit_at(s, 0, "<"@)) by {
                if has_lit_at(s, 0, "<"@) {
                    assert(s.subrange(0, 1)[0] == s[0]);
                }
            }
            assert(try_alt(p, s, 1, 0, 4) == found);
            assert(try_alt(p, s, 1, 0, 3) == found);
            assert(try_alt(p, s, 1, 0, 2) == found);
            assert(try_alt(p, s, 1, 0, 1) == found);
            assert(try_alt(p, s, 1, 0, 0) == found);
        },
    }
    assert(match_from(p, s, 1, 0) == prepend_span(0, m, tail));
}

/// A requirement's text reads back as the requirement.
pub proof fn law_req_text_roundtrip(r: HumanVersionReq)
    ensures
        spec_parse_req(req_text(r)) == Ok::<HumanVersionReq, HumanVersionErrorView>(r),
{
    let p = req_pattern();
    let op = comparator_text(r.comparator);
    let s = req_text(r);
    let m = op.len() as int;
    let n = s.len() as int;
    reveal_strlit(">=");
    reveal_strlit("<=");
    reveal_strlit(">");
    reveal_strlit("<");
    reveal_strlit("=");
    lemma_version_text_len(r.version);
    lemma_version_text_no_space(r.version);
    law_version_text_roundtrip(r.version);
    lemma_req_match(r);
    let sp = match_from(p, s, 0, 0).unwrap();
    assert(find(p, s) == Some(sp));
    assert(span_text(s, sp, 1) =~= op);
    assert(span_text(s, sp, 3) =~= version_text(r.version));
}

/// A requirement's text is short, not empty, and holds no line feed.
pub proof fn lemma_req_text_shape(r: HumanVersionReq)
    ensures
        1 <= req_text(r).len() <= 65,
        forall|k: int| 0 <= k < req_text(r).len() ==> #[trigger] req_text(r)[k] != '\n',
{
    let op = comparator_text(r.comparator);
    let s = req_text(r);
    let m = op.len() as int;
    reveal_strlit(">=");
    reveal_strlit("<=");
    reveal_strlit(">");
    reveal_strlit("<");
    reveal_strlit("=");
    lemma_version_text_len(r.version);
    lemma_version_text_no_space(r.version);
    assert forall|k: int| 0 <= k < s.len() implies #[trigger] s[k] != '\n' by {
        if k < m {
            assert(s[k] == op[k]);
        } else if k > m {
            assert(s[k] == version_text(r.version)[k - m - 1]);
        }
    }
}

/// The grammar of a version requirement.
fn req_grammar() -> (p: Vec<Item>)
    ensures
        pat_of(p@) == req_pattern(),
{
    let mut p: Vec<Item> = Vec::new();
    p.push(Item::Start);
    let ops = vec![">=", "<=", ">", "<", "="];
    p.push(alt(&ops, true));
    let space = vec![" "];
    p.push(alt(&space, true));
    p.push(rep(CharClass::NonSpace, 1, false, true));
    p.push(Item::End);
    assert(ops@.map_values(|o: &str| o@) =~= seq![">="@, "<="@, ">"@, "<"@, "="@]);
    assert(space@.map_values(|o: &str| o@) =~= seq![" "@]);
    assert(pat_of(p@) =~= req_pattern());
    p
}

/// Whether the characters `a..b` of `s` spell `l`.
pub fn span_is(s: &Vec<char>, a: usize, b: usize, l: &str) -> (r: bool)
    requires
        a <= b <= s.len(),
    ensures
        r == (s@.subrange(a as int, b as int) == l@),
{
    let part = sub_chars(s, a, b);
    let lv = str_to_chars(l);
    crate::text::chars_equal(&part, &lv)
}

/// The text of a comparator.
pub open spec fn comparator_text(c: VersionComparator) -> Seq<char> {
    match c {
        VersionComparator::Less => "<"@,
        VersionComparator::LessOrEqual => "<="@,
        VersionComparator::Equal => "="@,
        VersionComparator::GreaterOrEqual => ">="@,
        VersionComparator::Greater => ">"@,
    }
}

/// Each comparator is written as its usual symbol, and each symbol reads as its comparator.
pub proof fn law_comparator_symbols()
    ensures
        comparator_text(VersionComparator::Less) == "<"@,
        comparator_text(VersionComparator::LessOrEqual) == "<="@,
        comparator_text(VersionComparator::Equal) == "="@,
        comparator_text(VersionComparator::GreaterOrEqual) == ">="@,
        comparator_text(VersionComparator::Greater) == ">"@,
        comparator_of("<"@) == VersionComparator::Less,
        comparator_of("<="@) == VersionComparator::LessOrEqual,
        comparator_of("="@) == VersionComparator::Equal,
        comparator_of(">="@) == VersionComparator::GreaterOrEqual,
        comparator_of(">"@) == VersionComparator::Greater,
{
    reveal_strlit(">=");
    reveal_strlit("<=");
    reveal_strlit(">");
    reveal_strlit("<");
    reveal_strlit("=");
    assert("<"@ != ">="@) by {
        assert("<"@[0] != ">="@[0]);
    }
    assert("<"@ != "<="@) by {
        assert("<"@.len() != "<="@.len());
    }
    assert("<"@ != ">"@) by {
        assert("<"@[0] != ">"@[0]);
    }
    assert("<="@ != ">="@) by {
        assert("<="@[0] != ">="@[0]);
    }
    assert("="@ != ">="@ && "="@ != "<="@ && "="@ != ">"@ && "="@ != "<"@) by {
        assert("="@[0] != ">"@[0] && "="@[0] != "<"@[0]);
    }
}

/// The text of a requirement: its comparator, a space and its version.
pub open spec fn req_text(r: HumanVersionReq) -> Seq<char> {
    comparator_text(r.comparator) + seq![' '] + version_text(r.version)
}

impl HumanVersionReq {
    /// Parses a requirement from a string such as `>= 0.18.0`.
    pub fn parse(s: &str) -> (r: Result<HumanVersionReq, HumanVersionError>)
        ensures
            err_view(r) == spec_parse_req(s@),
    {
        let chars = str_to_chars(s);
        let p = req_grammar();
        match find_match(&p, &chars) {
            None => Err(HumanVersionError::NoRegexCaptures(String::from_str(s))),
            Some(sp) => {
                let (ca, cb) = sp[1];
                let (va, vb) = sp[3];
                if ca == cb {
                    return Err(HumanVersionError::MissingComparator(String::from_str(s)));
                }
                if va == vb {
                    return Err(HumanVersionError::MissingVersion(String::from_str(s)));
                }
                let vtext = sub_chars(&chars, va, vb);
                let version = match parse_version_chars(&vtext) {
                    Ok(v) => v,
                    Err(e) => return Err(e),
                };
                let comparator = if span_is(&chars, ca, cb, ">=") {
                    VersionComparator::GreaterOrEqual
                } else if span_is(&chars, ca, cb, "<=") {
                    VersionComparator::LessOrEqual
                } else if span_is(&chars, ca, cb, ">") {
                    VersionComparator::Greater
                } else if span_is(&chars, ca, cb, "<") {
                    VersionComparator::Less
                } else {
                    VersionComparator::Equal
                };
                Ok(HumanVersionReq { comparator, version })
            },
        }
    }

    /// The text of this requirement, such as `>= 0.18.0`.
    pub fn to_string(&self) -> (r: String)
        ensures
            r@ == req_text(*self),
    {
        let mut out = String::new();
        match self.comparator {
            VersionComparator::Less => out.append("<"),
            VersionComparator::LessOrEqual => out.append("<="),
            VersionComparator::Equal => out.append("="),
            VersionComparator::GreaterOrEqual => out.append(">="),
            VersionComparator::Greater => out.append(">"),
        }
        out.append(" ");
        let v = self.version.to_string();
        out.append(v.as_str());
        proof {
            reveal_strlit(" ");
        }
        out
    }
}

} // verus!
