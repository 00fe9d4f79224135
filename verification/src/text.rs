//! Character-level building blocks: character classes, runs, trimming,
//! number parsing and formatting, all over `Seq<char>` / `Vec<char>`.
use vstd::prelude::*;
use vstd::std_specs::iter::IteratorSpec;
use crate::unicode::{is_decimal, is_decimal_exec, is_space, is_space_exec, is_word, is_word_exec};

verus! {

broadcast use vstd::string::group_string_axioms;

/// Appends one character to a string (`String::push`).
#[verifier::external_body]
pub fn push_char(s: &mut String, c: char)
    ensures
        final(s)@ == old(s)@.push(c),
{
    s.push(c);
}

/// The characters of a string slice, in order.
pub fn str_chars(s: &str) -> (v: Vec<char>)
    ensures
        v@ == s@,
{
    let mut v: Vec<char> = Vec::new();
    for c in iter: s.chars()
        invariant
            iter.seq() == s@,
            v@ == s@.take(iter.index() as int),
    {
        v.push(c);
        proof {
            assert(s@.take(iter.index() as int).push(c) =~= s@.take(iter.index() + 1));
        }
    }
    assert(v@ =~= s@);
    v
}

/// A string holding exactly the given characters.
pub fn string_of(v: &Vec<char>) -> (s: String)
    ensures
        s@ == v@,
{
    let mut s = String::new();
    let mut i: usize = 0;
    while i < v.len()
        invariant
            i <= v.len(),
            s@ == v@.take(i as int),
        decreases v.len() - i,
    {
        push_char(&mut s, v[i]);
        assert(v@.take(i as int).push(v@[i as int]) =~= v@.take(i + 1));
        i += 1;
    }
    assert(v@.take(v.len() as int) =~= v@);
    s
}

/// Copies `v[a..b]`.
pub fn sub_vec(v: &Vec<char>, a: usize, b: usize) -> (r: Vec<char>)
    requires
        a <= b <= v.len(),
    ensures
        r@ == v@.subrange(a as int, b as int),
{
    let mut r: Vec<char> = Vec::new();
    let mut i = a;
    while i < b
        invariant
            a <= i <= b <= v.len(),
            r@ == v@.subrange(a as int, i as int),
        decreases b - i,
    {
        r.push(v[i]);
        assert(v@.subrange(a as int, i as int).push(v@[i as int]) =~= v@.subrange(a as int, i + 1));
        i += 1;
    }
    r
}

/// Appends all of `w` to `v`.
pub fn append_chars(v: &mut Vec<char>, w: &Vec<char>)
    ensures
        final(v)@ == old(v)@ + w@,
{
    let mut i: usize = 0;
    while i < w.len()
        invariant
            i <= w.len(),
            v@ == old(v)@ + w@.take(i as int),
        decreases w.len() - i,
    {
        v.push(w[i]);
        assert(old(v)@ + w@.take(i as int) + seq![w@[i as int]] =~= old(v)@ + w@.take(i + 1));
        i += 1;
    }
    assert(w@.take(w.len() as int) =~= w@);
}

/// Character equality of two vectors.
pub fn chars_eq(a: &Vec<char>, b: &Vec<char>) -> (r: bool)
    ensures
        r == (a@ == b@),
{
    if a.len() != b.len() {
        return false;
    }
    let mut i: usize = 0;
    while i < a.len()
        invariant
            a.len() == b.len(),
            i <= a.len(),
            forall|k: int| 0 <= k < i ==> a@[k] == b@[k],
        decreases a.len() - i,
    {
        if a[i] != b[i] {
            return false;
        }
        i += 1;
    }
    assert(a@ =~= b@);
    true
}

/// Character equality of a string slice and a vector.
pub fn str_is(s: &str, lit: &Vec<char>) -> (r: bool)
    ensures
        r == (s@ == lit@),
{
    let v = str_chars(s);
    chars_eq(&v, lit)
}

// ---------------------------------------------------------------------------
// Character classes
// ---------------------------------------------------------------------------

pub open spec fn is_ascii_digit(c: char) -> bool {
    '0' <= c && c <= '9'
}

pub open spec fn is_ascii_upper(c: char) -> bool {
    'A' <= c && c <= 'Z'
}

pub open spec fn is_ascii_lower(c: char) -> bool {
    'a' <= c && c <= 'z'
}

pub open spec fn is_ascii_alnum(c: char) -> bool {
    is_ascii_digit(c) || is_ascii_upper(c) || is_ascii_lower(c)
}

/// `c.to_ascii_lowercase()`.
pub open spec fn ascii_lower(c: char) -> char {
    if is_ascii_upper(c) {
        ((c as u32) + 32) as char
    } else {
        c
    }
}

pub fn ascii_lower_exec(c: char) -> (r: char)
    ensures
        r == ascii_lower(c),
{
    if 'A' <= c && c <= 'Z' {
        let x: u8 = ((c as u32) + 32) as u8;
        x as char
    } else {
        c
    }
}

/// Whether `c` matches the pattern character `p` of a case-insensitive
/// pattern: ASCII letters fold with their other case, `s` also with
/// U+017F (long s) and `k` also with U+212A (Kelvin sign); every other
/// pattern character matches only itself.
pub open spec fn ci_char(c: char, p: char) -> bool {
    if is_ascii_lower(p) {
        c == p || c as u32 == (p as u32) - 32 || (p == 's' && c == '\u{17f}') || (p == 'k' && c
            == '\u{212a}')
    } else {
        c == p
    }
}

pub fn ci_char_exec(c: char, p: char) -> (r: bool)
    ensures
        r == ci_char(c, p),
{
    if 'a' <= p && p <= 'z' {
        c == p || (c as u32) == (p as u32) - 32 || (p == 's' && c == '\u{17f}') || (p == 'k' && c
            == '\u{212a}')
    } else {
        c == p
    }
}

/// The classes of characters that runs are measured over.
#[derive(Clone, Copy, PartialEq, Eq, Structural)]
pub enum CharClass {
    /// `\s`
    Space,
    /// `\d`
    Decimal,
    /// `[\s.\-]`
    Separator,
    /// ASCII digits `0-9`
    AsciiDigit,
    /// `-`, `.` and ` `
    DashDotSpace,
    /// `-`
    Dash,
}

pub open spec fn in_class(cls: CharClass, c: char) -> bool {
    match cls {
        CharClass::Space => is_space(c),
        CharClass::Decimal => is_decimal(c),
        CharClass::Separator => is_space(c) || c == '.' || c == '-',
        CharClass::AsciiDigit => is_ascii_digit(c),
        CharClass::DashDotSpace => c == '-' || c == '.' || c == ' ',
        CharClass::Dash => c == '-',
    }
}

pub fn in_class_exec(cls: CharClass, c: char) -> (r: bool)
    ensures
        r == in_class(cls, c),
{
    match cls {
        CharClass::Space => is_space_exec(c),
        CharClass::Decimal => is_decimal_exec(c),
        CharClass::Separator => is_space_exec(c) || c == '.' || c == '-',
        CharClass::AsciiDigit => '0' <= c && c <= '9',
        CharClass::DashDotSpace => c == '-' || c == '.' || c == ' ',
        CharClass::Dash => c == '-',
    }
}

/// Start of the longest run of `cls` characters that ends at `j`, not
/// reaching below `lo`.
pub open spec fn back_run(s: Seq<char>, lo: int, j: int, cls: CharClass) -> int
    decreases j - lo,
{
    if lo < j && j <= s.len() && in_class(cls, s[j - 1]) {
        back_run(s, lo, j - 1, cls)
    } else {
        j
    }
}

pub proof fn lemma_back_run(s: Seq<char>, lo: int, j: int, cls: CharClass)
    requires
        0 <= lo <= j <= s.len(),
    ensures
        lo <= back_run(s, lo, j, cls) <= j,
        forall|k: int| back_run(s, lo, j, cls) <= k < j ==> in_class(cls, #[trigger] s[k]),
        back_run(s, lo, j, cls) > lo ==> !in_class(cls, s[back_run(s, lo, j, cls) - 1]),
    decreases j - lo,
{
    if lo < j && in_class(cls, s[j - 1]) {
        lemma_back_run(s, lo, j - 1, cls);
    }
}

pub fn back_run_exec(s: &Vec<char>, lo: usize, j: usize, cls: CharClass) -> (r: usize)
    requires
        lo <= j <= s.len(),
    ensures
        r == back_run(s@, lo as int, j as int, cls),
        lo <= r <= j,
{
    proof {
        lemma_back_run(s@, lo as int, j as int, cls);
    }
    let mut b = j;
    while b > lo && in_class_exec(cls, s[b - 1])
        invariant
            lo <= b <= j <= s.len(),
            back_run(s@, lo as int, j as int, cls) == back_run(s@, lo as int, b as int, cls),
        decreases b - lo,
    {
        b -= 1;
    }
    b
}

/// `s.trim_end_matches(|c| cls contains c)`.
pub open spec fn trim_end_class(s: Seq<char>, cls: CharClass) -> Seq<char> {
    s.subrange(0, back_run(s, 0, s.len() as int, cls))
}

pub fn trim_end_class_exec(v: &Vec<char>, cls: CharClass) -> (r: Vec<char>)
    ensures
        r@ == trim_end_class(v@, cls),
{
    let b = back_run_exec(v, 0, v.len(), cls);
    sub_vec(v, 0, b)
}

/// End of the longest run of `cls` characters starting at `i`.
pub open spec fn run_end(s: Seq<char>, i: int, cls: CharClass) -> int
    decreases s.len() - i,
{
    if 0 <= i < s.len() && in_class(cls, s[i]) {
        run_end(s, i + 1, cls)
    } else {
        i
    }
}

pub proof fn lemma_run_end(s: Seq<char>, i: int, cls: CharClass)
    requires
        0 <= i <= s.len(),
    ensures
        i <= run_end(s, i, cls) <= s.len(),
        forall|k: int| i <= k < run_end(s, i, cls) ==> in_class(cls, #[trigger] s[k]),
        run_end(s, i, cls) < s.len() ==> !in_class(cls, s[run_end(s, i, cls)]),
    decreases s.len() - i,
{
    if i < s.len() && in_class(cls, s[i]) {
        lemma_run_end(s, i + 1, cls);
    }
}

/// A run is determined by its characters: two strings that agree on a run's
/// characters and on the character that ends it have the same run end.
pub proof fn lemma_run_end_char(s: Seq<char>, i: int, cls: CharClass, k: int)
    requires
        0 <= i <= k <= s.len(),
        forall|j: int| i <= j < k ==> in_class(cls, #[trigger] s[j]),
    ensures
        run_end(s, i, cls) == run_end(s, k, cls),
    decreases k - i,
{
    if i < k {
        lemma_run_end_char(s, i + 1, cls, k);
    }
}

pub fn run_end_exec(s: &Vec<char>, i: usize, cls: CharClass) -> (r: usize)
    requires
        i <= s.len(),
    ensures
        r == run_end(s@, i as int, cls),
{
    let mut j = i;
    while j < s.len() && in_class_exec(cls, s[j])
        invariant
            i <= j <= s.len(),
            run_end(s@, i as int, cls) == run_end(s@, j as int, cls),
        decreases s.len() - j,
    {
        j += 1;
    }
    j
}

/// Whether no `'\n'` occurs in `s[i..]` (what `.*` up to `$` needs).
pub open spec fn no_newline_from(s: Seq<char>, i: int) -> bool {
    forall|k: int| i <= k < s.len() ==> s[k] != '\n'
}

pub fn no_newline_from_exec(s: &Vec<char>, i: usize) -> (r: bool)
    requires
        i <= s.len(),
    ensures
        r == no_newline_from(s@, i as int),
{
    let mut k = i;
    while k < s.len()
        invariant
            i <= k <= s.len(),
            forall|j: int| i <= j < k ==> s@[j] != '\n',
        decreases s.len() - k,
    {
        if s[k] == '\n' {
            return false;
        }
        k += 1;
    }
    true
}

/// Whether every character of `s[a..b]` is in `cls`.
pub open spec fn all_in(s: Seq<char>, a: int, b: int, cls: CharClass) -> bool {
    forall|k: int| a <= k < b ==> in_class(cls, #[trigger] s[k])
}

/// Whether `lit` occurs at `p` in `s`, comparing case-insensitively
/// (see [`ci_char`]) when `fold` holds and exactly otherwise.
pub open spec fn lit_at(s: Seq<char>, p: int, lit: Seq<char>, fold: bool) -> bool {
    &&& 0 <= p
    &&& p + lit.len() <= s.len()
    &&& forall|k: int|
        0 <= k < lit.len() ==> (if fold {
            ci_char(#[trigger] s[p + k], lit[k])
        } else {
            s[p + k] == lit[k]
        })
}

pub fn lit_at_exec(s: &Vec<char>, p: usize, lit: &Vec<char>, fold: bool) -> (r: bool)
    ensures
        r == lit_at(s@, p as int, lit@, fold),
{
    if p > s.len() || lit.len() > s.len() - p {
        return false;
    }
    let mut k: usize = 0;
    while k < lit.len()
        invariant
            p + lit.len() <= s.len(),
            k <= lit.len(),
            forall|j: int|
                0 <= j < k ==> (if fold {
                    ci_char(#[trigger] s@[p + j], lit@[j])
                } else {
                    s@[p + j] == lit@[j]
                }),
        decreases lit.len() - k,
    {
        let ok = if fold {
            ci_char_exec(s[p + k], lit[k])
        } else {
            s[p + k] == lit[k]
        };
        if !ok {
            return false;
        }
        k += 1;
    }
    true
}

// ---------------------------------------------------------------------------
// Trimming
// ---------------------------------------------------------------------------

/// Index of the first non-`White_Space` character at or after `i`.
pub open spec fn skip_space(s: Seq<char>, i: int) -> int {
    run_end(s, i, CharClass::Space)
}

/// Index just past the last non-`White_Space` character of `s[lo..j]`.
pub open spec fn back_space(s: Seq<char>, lo: int, j: int) -> int
    decreases j - lo,
{
    if lo < j && j <= s.len() && is_space(s[j - 1]) {
        back_space(s, lo, j - 1)
    } else {
        j
    }
}

/// `str::trim`: `s` without leading and trailing `White_Space`.
pub open spec fn trim(s: Seq<char>) -> Seq<char> {
    let a = skip_space(s, 0);
    s.subrange(a, back_space(s, a, s.len() as int))
}

/// `str::trim_start`.
pub open spec fn trim_start(s: Seq<char>) -> Seq<char> {
    s.subrange(skip_space(s, 0), s.len() as int)
}

pub proof fn lemma_back_space(s: Seq<char>, lo: int, j: int)
    requires
        0 <= lo <= j <= s.len(),
    ensures
        lo <= back_space(s, lo, j) <= j,
        forall|k: int| back_space(s, lo, j) <= k < j ==> is_space(#[trigger] s[k]),
        back_space(s, lo, j) > lo ==> !is_space(s[back_space(s, lo, j) - 1]),
    decreases j - lo,
{
    if lo < j && is_space(s[j - 1]) {
        lemma_back_space(s, lo, j - 1);
    }
}

pub proof fn lemma_trim(s: Seq<char>)
    ensures
        trim(s).len() <= s.len(),
        trim(s).len() > 0 ==> !is_space(trim(s)[0]) && !is_space(trim(s).last()),
{
    lemma_run_end(s, 0, CharClass::Space);
    let a = skip_space(s, 0);
    lemma_back_space(s, a, s.len() as int);
}

/// Bounds of the trimmed part of `v`.
pub fn trim_bounds(v: &Vec<char>) -> (r: (usize, usize))
    ensures
        r.0 == skip_space(v@, 0),
        r.1 == back_space(v@, r.0 as int, v.len() as int),
        r.0 <= r.1 <= v.len(),
{
    let a = run_end_exec(v, 0, CharClass::Space);
    proof {
        lemma_run_end(v@, 0, CharClass::Space);
    }
    let mut b = v.len();
    while b > a && is_space_exec(v[b - 1])
        invariant
            a <= b <= v.len(),
            back_space(v@, a as int, v.len() as int) == back_space(v@, a as int, b as int),
        decreases b - a,
    {
        b -= 1;
    }
    (a, b)
}

pub fn trim_vec(v: &Vec<char>) -> (r: Vec<char>)
    ensures
        r@ == trim(v@),
{
    let (a, b) = trim_bounds(v);
    sub_vec(v, a, b)
}

/// `s.replace(['.', '_'], " ")`.
pub open spec fn dots_to_spaces(s: Seq<char>) -> Seq<char> {
    s.map_values(|c: char| if c == '.' || c == '_' { ' ' } else { c })
}

pub fn dots_to_spaces_exec(v: &Vec<char>) -> (r: Vec<char>)
    ensures
        r@ == dots_to_spaces(v@),
{
    let mut r: Vec<char> = Vec::new();
    let mut i: usize = 0;
    while i < v.len()
        invariant
            i <= v.len(),
            r@ == dots_to_spaces(v@.take(i as int)),
        decreases v.len() - i,
    {
        let c = v[i];
        r.push(if c == '.' || c == '_' { ' ' } else { c });
        assert(dots_to_spaces(v@.take(i + 1)) =~= dots_to_spaces(v@.take(i as int)).push(
            if c == '.' || c == '_' { ' ' } else { c },
        ));
        i += 1;
    }
    assert(v@.take(v.len() as int) =~= v@);
    r
}

// ---------------------------------------------------------------------------
// Decimal numbers
// ---------------------------------------------------------------------------

/// The value of a string of ASCII digits.
pub open spec fn digits_value(d: Seq<char>) -> nat
    decreases d.len(),
{
    if d.len() == 0 {
        0
    } else {
        digits_value(d.drop_last()) * 10 + ((d.last() as u32) - ('0' as u32)) as nat
    }
}

pub open spec fn all_ascii_digits(d: Seq<char>) -> bool {
    forall|k: int| 0 <= k < d.len() ==> is_ascii_digit(#[trigger] d[k])
}

/// `str::parse::<u32>()`, which also accepts a leading `+`.
pub open spec fn parse_u32(d: Seq<char>) -> Option<u32> {
    let body = if d.len() > 0 && d[0] == '+' {
        d.drop_first()
    } else {
        d
    };
    if body.len() > 0 && all_ascii_digits(body) && digits_value(body) <= u32::MAX {
        Some(digits_value(body) as u32)
    } else {
        None
    }
}

/// `str::parse::<u64>()`, which also accepts a leading `+`.
pub open spec fn parse_u64(d: Seq<char>) -> Option<u64> {
    let body = if d.len() > 0 && d[0] == '+' {
        d.drop_first()
    } else {
        d
    };
    if body.len() > 0 && all_ascii_digits(body) && digits_value(body) <= u64::MAX {
        Some(digits_value(body) as u64)
    } else {
        None
    }
}

/// `str::parse::<u16>()`, which also accepts a leading `+`.
pub open spec fn parse_u16(d: Seq<char>) -> Option<u16> {
    let body = if d.len() > 0 && d[0] == '+' {
        d.drop_first()
    } else {
        d
    };
    if body.len() > 0 && all_ascii_digits(body) && digits_value(body) <= u16::MAX {
        Some(digits_value(body) as u16)
    } else {
        None
    }
}

pub proof fn lemma_digits_value_prefix(d: Seq<char>, i: int)
    requires
        0 <= i <= d.len(),
        all_ascii_digits(d),
    ensures
        digits_value(d.take(i)) <= digits_value(d),
    decreases d.len() - i,
{
    if i < d.len() {
        lemma_digits_value_prefix(d, i + 1);
        assert(d.take(i + 1).drop_last() =~= d.take(i));
    } else {
        assert(d.take(i) =~= d);
    }
}

/// The value of the ASCII digits `v[a..b]`, or `None` when one of them is not
/// an ASCII digit or the value exceeds `bound`.
pub(crate) fn digits_value_bounded(v: &Vec<char>, a: usize, b: usize, bound: u64) -> (r: Option<u64>)
    requires
        a <= b <= v.len(),
        bound >= 9,
    ensures
        r matches Some(x) ==> all_ascii_digits(v@.subrange(a as int, b as int)) && x
            == digits_value(v@.subrange(a as int, b as int)) && x <= bound,
        r is None ==> !all_ascii_digits(v@.subrange(a as int, b as int)) || digits_value(
            v@.subrange(a as int, b as int),
        ) > bound,
{
    let ghost d = v@.subrange(a as int, b as int);
    let mut acc: u64 = 0;
    let mut i = a;
    while i < b
        invariant
            a <= i <= b <= v.len(),
            d == v@.subrange(a as int, b as int),
            all_ascii_digits(d.take(i - a)),
            acc == digits_value(d.take(i - a)),
            acc <= bound,
            bound >= 9,
        decreases b - i,
    {
        let c = v[i];
        if !('0' <= c && c <= '9') {
            assert(d[i - a] == c);
            return None;
        }
        let dig = (c as u32 - '0' as u32) as u64;
        assert(d.take(i - a + 1).drop_last() =~= d.take(i - a));
        assert(d.take(i - a + 1).last() == c);
        assert(all_ascii_digits(d.take(i - a + 1)));
        if acc > (bound - dig) / 10 {
            // the prefix already exceeds the bound
            proof {
                assert(acc * 10 + dig > bound) by (nonlinear_arith)
                    requires
                        acc > (bound - dig) / 10,
                        dig <= 9,
                        dig <= bound || true,
                ;
                if all_ascii_digits(d) {
                    lemma_digits_value_prefix(d, i - a + 1);
                }
            }
            return None;
        }
        proof {
            assert(acc * 10 + dig <= bound) by (nonlinear_arith)
                requires
                    acc <= (bound - dig) / 10,
                    dig <= 9,
            ;
        }
        acc = acc * 10 + dig;
        i += 1;
    }
    assert(d.take(b - a) =~= d);
    Some(acc)
}

/// `v[a..b].parse::<u64>()`.
pub fn parse_u64_exec(v: &Vec<char>, a: usize, b: usize) -> (r: Option<u64>)
    requires
        a <= b <= v.len(),
    ensures
        r == parse_u64(v@.subrange(a as int, b as int)),
{
    let ghost d = v@.subrange(a as int, b as int);
    let start = if a < b && v[a] == '+' {
        a + 1
    } else {
        a
    };
    assert(start > a ==> d.drop_first() =~= v@.subrange(start as int, b as int));
    assert(start == a ==> d =~= v@.subrange(start as int, b as int));
    if start == b {
        return None;
    }
    digits_value_bounded(v, start, b, u64::MAX)
}

/// `v[a..b].parse::<u32>()`.
pub fn parse_u32_exec(v: &Vec<char>, a: usize, b: usize) -> (r: Option<u32>)
    requires
        a <= b <= v.len(),
    ensures
        r == parse_u32(v@.subrange(a as int, b as int)),
{
    let ghost d = v@.subrange(a as int, b as int);
    let start = if a < b && v[a] == '+' {
        a + 1
    } else {
        a
    };
    assert(start > a ==> d.drop_first() =~= v@.subrange(start as int, b as int));
    assert(start == a ==> d =~= v@.subrange(start as int, b as int));
    if start == b {
        return None;
    }
    match digits_value_bounded(v, start, b, u32::MAX as u64) {
        Some(x) => Some(x as u32),
        None => None,
    }
}

/// `v[a..b].parse::<u16>()`.
pub fn parse_u16_exec(v: &Vec<char>, a: usize, b: usize) -> (r: Option<u16>)
    requires
        a <= b <= v.len(),
    ensures
        r == parse_u16(v@.subrange(a as int, b as int)),
{
    let ghost d = v@.subrange(a as int, b as int);
    let start = if a < b && v[a] == '+' {
        a + 1
    } else {
        a
    };
    assert(start > a ==> d.drop_first() =~= v@.subrange(start as int, b as int));
    assert(start == a ==> d =~= v@.subrange(start as int, b as int));
    if start == b {
        return None;
    }
    match digits_value_bounded(v, start, b, u16::MAX as u64) {
        Some(x) => Some(x as u16),
        None => None,
    }
}

/// The decimal representation of `n`, without leading zeros (`n.to_string()`).
pub open spec fn decimal(n: nat) -> Seq<char>
    decreases n,
{
    if n < 10 {
        seq![((n + 48) as u32) as char]
    } else {
        decimal(n / 10).push((((n % 10) + 48) as u32) as char)
    }
}

pub proof fn lemma_decimal_nonempty(n: nat)
    ensures
        decimal(n).len() > 0,
    decreases n,
{
    if n >= 10 {
        lemma_decimal_nonempty(n / 10);
    }
}

pub fn decimal_exec(n: u64) -> (r: Vec<char>)
    ensures
        r@ == decimal(n as nat),
    decreases n,
{
    if n < 10 {
        let c = ((n as u8) + 48) as char;
        vec![c]
    } else {
        let mut r = decimal_exec(n / 10);
        let c = (((n % 10) as u8) + 48) as char;
        r.push(c);
        r
    }
}

// ---------------------------------------------------------------------------
// Ordering of strings
// ---------------------------------------------------------------------------

/// `a < b` in the order of `str`: lexicographic by code point (which is the
/// byte order of their UTF-8 encodings).
pub open spec fn str_lt(a: Seq<char>, b: Seq<char>) -> bool
    decreases a.len(),
{
    if a.len() == 0 {
        b.len() > 0
    } else if b.len() == 0 {
        false
    } else if a[0] != b[0] {
        a[0] < b[0]
    } else {
        str_lt(a.drop_first(), b.drop_first())
    }
}

pub proof fn lemma_str_lt_irreflexive(a: Seq<char>)
    ensures
        !str_lt(a, a),
    decreases a.len(),
{
    if a.len() > 0 {
        lemma_str_lt_irreflexive(a.drop_first());
    }
}

pub proof fn lemma_str_lt_trans(a: Seq<char>, b: Seq<char>, c: Seq<char>)
    requires
        str_lt(a, b),
        str_lt(b, c),
    ensures
        str_lt(a, c),
    decreases a.len(),
{
    if a.len() > 0 && b.len() > 0 && c.len() > 0 {
        if a[0] == b[0] && b[0] == c[0] {
            lemma_str_lt_trans(a.drop_first(), b.drop_first(), c.drop_first());
        }
    }
}

pub proof fn lemma_str_lt_total(a: Seq<char>, b: Seq<char>)
    ensures
        a == b || str_lt(a, b) || str_lt(b, a),
    decreases a.len(),
{
    if a.len() > 0 && b.len() > 0 && a[0] == b[0] {
        lemma_str_lt_total(a.drop_first(), b.drop_first());
        if a.drop_first() == b.drop_first() {
            assert(a =~= seq![a[0]] + a.drop_first());
            assert(b =~= seq![b[0]] + b.drop_first());
        }
    } else if a.len() == 0 && b.len() == 0 {
        assert(a =~= b);
    }
}

pub proof fn lemma_str_lt_asym(a: Seq<char>, b: Seq<char>)
    requires
        str_lt(a, b),
    ensures
        !str_lt(b, a),
{
    if str_lt(b, a) {
        lemma_str_lt_trans(a, b, a);
        lemma_str_lt_irreflexive(a);
    }
}

/// `a < b` for strings, as `<` on `String` and `str` compares them.
pub fn str_lt_exec(a: &Vec<char>, b: &Vec<char>) -> (r: bool)
    ensures
        r == str_lt(a@, b@),
{
    let mut i: usize = 0;
    assert(a@.skip(0) =~= a@);
    assert(b@.skip(0) =~= b@);
    while i < a.len() && i < b.len() && a[i] == b[i]
        invariant
            i <= a.len(),
            i <= b.len(),
            str_lt(a@, b@) == str_lt(a@.skip(i as int), b@.skip(i as int)),
        decreases a.len() - i,
    {
        assert(a@.skip(i as int).drop_first() =~= a@.skip(i + 1));
        assert(b@.skip(i as int).drop_first() =~= b@.skip(i + 1));
        i += 1;
    }
    if i == a.len() {
        i < b.len()
    } else if i == b.len() {
        false
    } else {
        a[i] < b[i]
    }
}

} // verus!

verus! {

/// A `\b` word boundary at `p`: exactly one of the characters around `p` is a
/// word character.
pub open spec fn boundary(s: Seq<char>, p: int) -> bool {
    (0 < p && p <= s.len() && is_word(s[p - 1])) != (0 <= p && p < s.len() && is_word(s[p]))
}

pub fn boundary_exec(s: &Vec<char>, p: usize) -> (r: bool)
    ensures
        r == boundary(s@, p as int),
{
    let before = 0 < p && p <= s.len() && is_word_exec(s[p - 1]);
    let after = p < s.len() && is_word_exec(s[p]);
    before != after
}

} // verus!

verus! {

/// The Unicode lowercase mapping of a string, as `str::to_lowercase`
/// computes it.
pub uninterp spec fn unicode_lowercase(s: Seq<char>) -> Seq<char>;

/// Whether every character of `s` is ASCII.
pub open spec fn all_ascii(s: Seq<char>) -> bool {
    forall|k: int| 0 <= k < s.len() ==> ((#[trigger] s[k]) as u32) < 128
}

/// `str::to_ascii_lowercase`: `A`..`Z` become `a`..`z`, all else stays.
pub open spec fn ascii_lowercase(s: Seq<char>) -> Seq<char> {
    s.map_values(|c: char| ascii_lower(c))
}

/// `str::to_lowercase`. Claimed: the result is the string's Unicode
/// lowercase mapping, named [`unicode_lowercase`], a function of the
/// characters of the argument; on ASCII text that mapping lowers `A`..`Z`
/// and keeps every other character, as the Unicode case tables give it.
#[verifier::external_body]
pub(crate) fn to_lowercase(s: &str) -> (r: String)
    ensures
        r@ == unicode_lowercase(s@),
        all_ascii(s@) ==> r@ == ascii_lowercase(s@),
{
    s.to_lowercase()
}

/// The Unicode uppercase mapping of one character, as `char::to_uppercase`
/// yields it (one or more characters).
pub uninterp spec fn unicode_char_uppercase(c: char) -> Seq<char>;

/// `char::to_uppercase`, collected into a string. Claimed: the result is the
/// character's Unicode uppercase mapping, named [`unicode_char_uppercase`].
#[verifier::external_body]
pub(crate) fn char_to_uppercase(c: char) -> (r: String)
    ensures
        r@ == unicode_char_uppercase(c),
{
    c.to_uppercase().to_string()
}

/// Whether `w` occurs in `s` starting at `p` (exactly).
pub open spec fn occurs_at(s: Seq<char>, p: int, w: Seq<char>) -> bool {
    0 <= p && p + w.len() <= s.len() && s.subrange(p, p + w.len()) == w
}

/// `str::contains`.
pub open spec fn contains_seq(s: Seq<char>, w: Seq<char>) -> bool {
    exists|p: int| occurs_at(s, p, w)
}

pub fn occurs_at_exec(s: &Vec<char>, p: usize, w: &Vec<char>) -> (r: bool)
    ensures
        r == occurs_at(s@, p as int, w@),
{
    if p > s.len() || w.len() > s.len() - p {
        return false;
    }
    let mut k: usize = 0;
    while k < w.len()
        invariant
            p + w.len() <= s.len(),
            k <= w.len(),
            forall|j: int| 0 <= j < k ==> s@[p + j] == w@[j],
        decreases w.len() - k,
    {
        if s[p + k] != w[k] {
            proof {
                assert(s@.subrange(p as int, p + w.len())[k as int] != w@[k as int]);
            }
            return false;
        }
        k += 1;
    }
    assert(s@.subrange(p as int, p + w.len()) =~= w@);
    true
}

pub fn contains_exec(s: &Vec<char>, w: &Vec<char>) -> (r: bool)
    ensures
        r == contains_seq(s@, w@),
{
    let mut p: usize = 0;
    while p < s.len()
        invariant
            p <= s.len(),
            forall|q: int| 0 <= q < p ==> !occurs_at(s@, q, w@),
        decreases s.len() - p,
    {
        if occurs_at_exec(s, p, w) {
            return true;
        }
        p += 1;
    }
    if occurs_at_exec(s, p, w) {
        return true;
    }
    assert forall|q: int| !occurs_at(s@, q, w@) by {
        if 0 <= q <= s.len() {
        }
    }
    false
}

/// `str::starts_with`.
pub open spec fn starts_with(s: Seq<char>, w: Seq<char>) -> bool {
    occurs_at(s, 0, w)
}

} // verus!

verus! {

/// The second half of the first pair in `t[i..]` whose first half is `key`.
pub open spec fn pair_lookup(t: Seq<(Seq<char>, Seq<char>)>, key: Seq<char>, i: int) -> Option<
    Seq<char>,
>
    decreases t.len() - i,
{
    if i < 0 || i >= t.len() {
        None
    } else if t[i].0 == key {
        Some(t[i].1)
    } else {
        pair_lookup(t, key, i + 1)
    }
}

pub(crate) fn pair_lookup_exec(t: &Vec<(Vec<char>, Vec<char>)>, key: &Vec<char>, ts: Ghost<Seq<(Seq<char>, Seq<char>)>>) -> (r: Option<Vec<char>>)
    requires
        t@.len() == ts@.len(),
        forall|i: int| 0 <= i < t@.len() ==> (#[trigger] t@[i]).0@ == ts@[i].0 && t@[i].1@ == ts@[i].1,
    ensures
        r matches Some(v) ==> pair_lookup(ts@, key@, 0) == Some(v@),
        r is None ==> pair_lookup(ts@, key@, 0) is None,
{
    let mut i: usize = 0;
    while i < t.len()
        invariant
            i <= t.len(),
            t@.len() == ts@.len(),
            forall|k: int| 0 <= k < t@.len() ==> (#[trigger] t@[k]).0@ == ts@[k].0 && t@[k].1@ == ts@[k].1,
            pair_lookup(ts@, key@, 0) == pair_lookup(ts@, key@, i as int),
        decreases t.len() - i,
    {
        if chars_eq(&t[i].0, key) {
            return Some(sub_vec(&t[i].1, 0, t[i].1.len()));
        }
        i += 1;
    }
    None
}

} // verus!

verus! {

// ---------------------------------------------------------------------------
// UTF-8 byte positions
// ---------------------------------------------------------------------------

/// The number of bytes that UTF-8 takes for a character.
pub open spec fn utf8_width(c: char) -> int {
    let u = c as u32;
    if u < 0x80 {
        1
    } else if u < 0x800 {
        2
    } else if u < 0x10000 {
        3
    } else {
        4
    }
}

/// `str::len()`: the number of UTF-8 bytes of a string.
pub open spec fn byte_len(s: Seq<char>) -> int
    decreases s.len(),
{
    if s.len() == 0 {
        0
    } else {
        byte_len(s.drop_last()) + utf8_width(s.last())
    }
}

/// The number of characters that make up the first `b` bytes of `s`, from
/// `k` characters on, where `b` falls on a character boundary.
pub open spec fn chars_in_bytes_from(s: Seq<char>, b: int, k: int) -> Option<int>
    decreases s.len() + 1 - k,
{
    if k < 0 || k > s.len() {
        None
    } else if byte_len(s.take(k)) == b {
        Some(k)
    } else if byte_len(s.take(k)) > b {
        None
    } else {
        chars_in_bytes_from(s, b, k + 1)
    }
}

/// The number of characters in the first `b` bytes of `s`; none where `b`
/// is past the end or inside a character (where `&s[..b]` panics).
pub open spec fn chars_in_bytes(s: Seq<char>, b: int) -> Option<int> {
    chars_in_bytes_from(s, b, 0)
}

pub fn utf8_width_exec(c: char) -> (r: usize)
    ensures
        r == utf8_width(c),
{
    let u = c as u32;
    if u < 0x80 {
        1
    } else if u < 0x800 {
        2
    } else if u < 0x10000 {
        3
    } else {
        4
    }
}

pub proof fn lemma_byte_len_take(s: Seq<char>, k: int)
    requires
        0 <= k < s.len(),
    ensures
        byte_len(s.take(k + 1)) == byte_len(s.take(k)) + utf8_width(s[k]),
{
    assert(s.take(k + 1).drop_last() =~= s.take(k));
}

pub proof fn lemma_byte_len_bounds(s: Seq<char>)
    ensures
        s.len() <= byte_len(s) <= 4 * s.len(),
    decreases s.len(),
{
    if s.len() > 0 {
        lemma_byte_len_bounds(s.drop_last());
    }
}

/// The byte offset of each character boundary of `s`: `r[k]` is
/// `byte_len(s[..k])`, for `k` up to the length.
pub fn byte_offsets(s: &Vec<char>) -> (r: Vec<u128>)
    ensures
        r.len() == s.len() + 1,
        forall|k: int| 0 <= k <= s.len() ==> #[trigger] r@[k] == byte_len(s@.take(k)),
{
    let mut r: Vec<u128> = vec![0];
    assert(s@.take(0) =~= Seq::<char>::empty());
    let mut acc: u128 = 0;
    let mut k: usize = 0;
    while k < s.len()
        invariant
            k <= s.len(),
            r.len() == k + 1,
            acc == byte_len(s@.take(k as int)),
            acc <= 4 * k,
            forall|j: int| 0 <= j <= k ==> #[trigger] r@[j] == byte_len(s@.take(j)),
        decreases s.len() - k,
    {
        proof {
            lemma_byte_len_take(s@, k as int);
        }
        acc = acc + utf8_width_exec(s[k]) as u128;
        r.push(acc);
        k += 1;
    }
    r
}

pub proof fn lemma_byte_len_monotone(s: Seq<char>, a: int, b: int)
    requires
        0 <= a <= b <= s.len(),
    ensures
        byte_len(s.take(a)) + (b - a) <= byte_len(s.take(b)),
    decreases b - a,
{
    if a < b {
        lemma_byte_len_monotone(s, a, b - 1);
        lemma_byte_len_take(s, b - 1);
    }
}

/// The number of characters in the first `b` bytes of `s`, from the byte
/// offsets of `s`.
pub fn chars_in_bytes_exec(s: &Vec<char>, offsets: &Vec<u128>, b: u128) -> (r: Option<usize>)
    requires
        offsets.len() == s.len() + 1,
        forall|k: int| 0 <= k <= s.len() ==> #[trigger] offsets@[k] == byte_len(s@.take(k)),
    ensures
        r matches Some(k) ==> chars_in_bytes(s@, b as int) == Some(k as int) && k <= s.len(),
        r is None ==> chars_in_bytes(s@, b as int) is None,
{
    let mut k: usize = 0;
    while k <= s.len()
        invariant
            k <= s.len() + 1,
            offsets.len() == s.len() + 1,
            forall|j: int| 0 <= j <= s.len() ==> #[trigger] offsets@[j] == byte_len(s@.take(j)),
            chars_in_bytes(s@, b as int) == chars_in_bytes_from(s@, b as int, k as int),
        decreases s.len() + 1 - k,
    {
        if offsets[k] == b {
            return Some(k);
        }
        if offsets[k] > b {
            return None;
        }
        k += 1;
    }
    None
}

} // verus!
