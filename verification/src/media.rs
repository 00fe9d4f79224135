//! Reading what ffmpeg and ffprobe print: lines of their error output, the
//! reason a run failed, and the letterbox crop that `cropdetect` reports.
use vstd::prelude::*;
use crate::text::{
    str_chars, string_of, sub_vec, append_chars, trim, trim_vec, occurs_at, occurs_at_exec,
    all_ascii_digits, digits_value, digits_value_bounded, decimal, decimal_exec, lemma_trim,
    contains_seq, contains_exec,
};
use crate::unicode::{is_space, is_space_exec};
use crate::subtitle::{line_end, lemma_line_end};

verus! {

// ---------------------------------------------------------------------------
// Lines and words
// ---------------------------------------------------------------------------

/// The line of `s` that starts at `i` and ends at `j` (a `'\n'` or the end):
/// without one `'\r'` before a `'\n'`.
pub open spec fn line_at(s: Seq<char>, i: int, j: int) -> Seq<char> {
    if j < s.len() && j > i && s[j - 1] == '\r' {
        s.subrange(i, j - 1)
    } else {
        s.subrange(i, j)
    }
}

/// The lines of `s` from `i` on, as `str::lines` splits them.
pub open spec fn lines_from(s: Seq<char>, i: int) -> Seq<Seq<char>>
    decreases s.len() - i,
{
    if i < 0 || i >= s.len() {
        Seq::empty()
    } else {
        let j = line_end(s, i);
        if i <= j && j < s.len() {
            seq![line_at(s, i, j)] + lines_from(s, j + 1)
        } else {
            seq![s.subrange(i, s.len() as int)]
        }
    }
}

/// `str::lines`.
pub open spec fn lines(s: Seq<char>) -> Seq<Seq<char>> {
    lines_from(s, 0)
}

/// The lines of `s`.
pub fn lines_exec(s: &Vec<char>) -> (r: Vec<Vec<char>>)
    ensures
        r.deep_view() == lines(s@),
{
    let mut r: Vec<Vec<char>> = Vec::new();
    let mut i: usize = 0;
    while i < s.len()
        invariant
            i <= s.len(),
            r.deep_view() + lines_from(s@, i as int) == lines(s@),
        decreases s.len() - i,
    {
        let mut j = i;
        while j < s.len() && s[j] != '\n'
            invariant
                i <= j <= s.len(),
                line_end(s@, i as int) == line_end(s@, j as int),
            decreases s.len() - j,
        {
            j += 1;
        }
        proof {
            lemma_line_end(s@, i as int);
        }
        let end = if j < s.len() && j > i && s[j - 1] == '\r' {
            j - 1
        } else {
            j
        };
        let line = sub_vec(s, i, end);
        let ghost rd = r.deep_view();
        let ghost rs = r@;
        r.push(line);
        proof {
            assert(r.deep_view() =~= rd.push(line@)) by {
                assert forall|k: int| 0 <= k < r.deep_view().len() implies #[trigger] r.deep_view()[k] == rd.push(line@)[k] by {
                    if k < rs.len() {
                        assert(r@[k] == rs[k]);
                    }
                }
            }
            if j < s.len() {
                assert(line@ == line_at(s@, i as int, j as int));
                assert(lines_from(s@, i as int) == seq![line@] + lines_from(s@, j + 1));
                assert(rd + lines_from(s@, i as int) =~= rd.push(line@) + lines_from(s@, j + 1));
            } else {
                assert(lines_from(s@, i as int) == seq![line@]);
                assert(lines_from(s@, s.len() as int) =~= Seq::<Seq<char>>::empty());
                assert(rd + lines_from(s@, i as int) =~= rd.push(line@) + lines_from(s@, s.len() as int));
            }
        }
        i = if j < s.len() {
            j + 1
        } else {
            j
        };
    }
    assert(lines_from(s@, i as int) =~= Seq::<Seq<char>>::empty());
    assert(r.deep_view() + Seq::<Seq<char>>::empty() =~= r.deep_view());
    r
}

/// Whether a line holds only white space.
pub open spec fn is_blank(line: Seq<char>) -> bool {
    trim(line).len() == 0
}

pub fn is_blank_exec(line: &Vec<char>) -> (r: bool)
    ensures
        r == is_blank(line@),
{
    trim_vec(line).len() == 0
}

/// The first word of `s` (`s.split_whitespace().next()`), or nothing.
pub open spec fn first_word(s: Seq<char>) -> Seq<char> {
    let a = crate::text::skip_space(s, 0);
    s.subrange(a, word_end(s, a))
}

/// Index of the first white-space character at or after `i`, or the length.
pub open spec fn word_end(s: Seq<char>, i: int) -> int
    decreases s.len() - i,
{
    if i < 0 || i >= s.len() || is_space(s[i]) {
        i
    } else {
        word_end(s, i + 1)
    }
}

proof fn lemma_word_end(s: Seq<char>, i: int)
    requires
        0 <= i <= s.len(),
    ensures
        i <= word_end(s, i) <= s.len(),
    decreases s.len() - i,
{
    if i < s.len() && !is_space(s[i]) {
        lemma_word_end(s, i + 1);
    }
}

pub fn first_word_exec(s: &Vec<char>) -> (r: Vec<char>)
    ensures
        r@ == first_word(s@),
{
    let a = crate::text::run_end_exec(s, 0, crate::text::CharClass::Space);
    proof {
        crate::text::lemma_run_end(s@, 0, crate::text::CharClass::Space);
    }
    let mut b = a;
    while b < s.len() && !is_space_exec(s[b])
        invariant
            a <= b <= s.len(),
            word_end(s@, a as int) == word_end(s@, b as int),
        decreases s.len() - b,
    {
        b += 1;
    }
    sub_vec(s, a, b)
}

// ---------------------------------------------------------------------------
// Why a run failed
// ---------------------------------------------------------------------------

/// The first line of an error output (`lines().next()`), if any.
pub open spec fn first_line(s: Seq<char>) -> Option<Seq<char>> {
    if lines(s).len() > 0 {
        Some(lines(s)[0])
    } else {
        None
    }
}

/// The first line of an error output, or `fallback` where there is none.
pub fn first_line_or(stderr: &str, fallback: &str) -> (r: String)
    ensures
        r@ == match first_line(stderr@) {
            Some(l) => l,
            None => fallback@,
        },
{
    let s = str_chars(stderr);
    let ls = lines_exec(&s);
    if ls.len() > 0 {
        assert(ls.deep_view()[0] == ls@[0]@);
        string_of(&ls[0])
    } else {
        let f = str_chars(fallback);
        string_of(&f)
    }
}

/// The last line of `ls[..n]` that is not blank.
pub open spec fn last_nonblank(ls: Seq<Seq<char>>, n: int) -> Option<Seq<char>>
    decreases n,
{
    if n <= 0 || n > ls.len() {
        None
    } else if !is_blank(ls[n - 1]) {
        Some(ls[n - 1])
    } else {
        last_nonblank(ls, n - 1)
    }
}

/// Why a thumbnail run failed: the last line of its error output that is
/// not blank, or `ffmpeg failed`.
pub open spec fn thumbnail_failure_spec(stderr: Seq<char>) -> Seq<char> {
    match last_nonblank(lines(stderr), lines(stderr).len() as int) {
        Some(l) => l,
        None => seq!['f', 'f', 'm', 'p', 'e', 'g', ' ', 'f', 'a', 'i', 'l', 'e', 'd'],
    }
}

pub fn thumbnail_failure(stderr: &str) -> (r: String)
    ensures
        r@ == thumbnail_failure_spec(stderr@),
{
    let s = str_chars(stderr);
    let ls = lines_exec(&s);
    let ghost lv = ls.deep_view();
    let mut n = ls.len();
    while n > 0
        invariant
            n <= ls.len(),
            lv == ls.deep_view(),
            lv.len() == ls.len(),
            lv == lines(stderr@),
            last_nonblank(lv, lv.len() as int) == last_nonblank(lv, n as int),
        decreases n,
    {
        assert(lv[n - 1] == ls@[n - 1]@);
        if !is_blank_exec(&ls[n - 1]) {
            return string_of(&ls[n - 1]);
        }
        n -= 1;
    }
    let f = vec!['f', 'f', 'm', 'p', 'e', 'g', ' ', 'f', 'a', 'i', 'l', 'e', 'd'];
    assert(f@ =~= seq!['f', 'f', 'm', 'p', 'e', 'g', ' ', 'f', 'a', 'i', 'l', 'e', 'd']);
    string_of(&f)
}

pub open spec fn conversion_failed() -> Seq<char> {
    seq!['C', 'o', 'n', 'v', 'e', 'r', 's', 'i', 'o', 'n', ' ', 'f', 'a', 'i', 'l', 'e', 'd']
}

pub open spec fn error_opening_output() -> Seq<char> {
    seq!['E', 'r', 'r', 'o', 'r', ' ', 'o', 'p', 'e', 'n', 'i', 'n', 'g', ' ', 'o', 'u', 't', 'p', 'u', 't']
}

/// Whether a line of a failed encoder probe tells why: not blank, and not
/// one of ffmpeg's generic closing messages.
pub open spec fn is_probe_reason(line: Seq<char>) -> bool {
    !is_blank(line) && !contains_seq(line, conversion_failed()) && !contains_seq(line, error_opening_output())
}

/// The first line of `ls` from `i` on that [`is_probe_reason`].
pub open spec fn first_reason(ls: Seq<Seq<char>>, i: int) -> Option<Seq<char>>
    decreases ls.len() - i,
{
    if i < 0 || i >= ls.len() {
        None
    } else if is_probe_reason(ls[i]) {
        Some(ls[i])
    } else {
        first_reason(ls, i + 1)
    }
}

/// Why an encoder probe failed: its first telling line, trimmed, or
/// `unknown error`.
pub open spec fn probe_failure_spec(stderr: Seq<char>) -> Seq<char> {
    trim(
        match first_reason(lines(stderr), 0) {
            Some(l) => l,
            None => seq!['u', 'n', 'k', 'n', 'o', 'w', 'n', ' ', 'e', 'r', 'r', 'o', 'r'],
        },
    )
}

pub fn probe_failure_reason(stderr: &str) -> (r: String)
    ensures
        r@ == probe_failure_spec(stderr@),
{
    let s = str_chars(stderr);
    let ls = lines_exec(&s);
    let ghost lv = ls.deep_view();
    let w1 = vec!['C', 'o', 'n', 'v', 'e', 'r', 's', 'i', 'o', 'n', ' ', 'f', 'a', 'i', 'l', 'e', 'd'];
    let w2 = vec!['E', 'r', 'r', 'o', 'r', ' ', 'o', 'p', 'e', 'n', 'i', 'n', 'g', ' ', 'o', 'u', 't', 'p', 'u', 't'];
    assert(w1@ =~= conversion_failed());
    assert(w2@ =~= error_opening_output());
    let mut i: usize = 0;
    while i < ls.len()
        invariant
            i <= ls.len(),
            lv == ls.deep_view(),
            lv.len() == ls.len(),
            lv == lines(stderr@),
            w1@ == conversion_failed(),
            w2@ == error_opening_output(),
            first_reason(lv, 0) == first_reason(lv, i as int),
        decreases ls.len() - i,
    {
        assert(lv[i as int] == ls@[i as int]@);
        if !is_blank_exec(&ls[i]) && !contains_exec(&ls[i], &w1) && !contains_exec(&ls[i], &w2) {
            let t = trim_vec(&ls[i]);
            return string_of(&t);
        }
        i += 1;
    }
    let u = vec!['u', 'n', 'k', 'n', 'o', 'w', 'n', ' ', 'e', 'r', 'r', 'o', 'r'];
    assert(u@ =~= seq!['u', 'n', 'k', 'n', 'o', 'w', 'n', ' ', 'e', 'r', 'r', 'o', 'r']);
    let t = trim_vec(&u);
    string_of(&t)
}

/// The lines of ffmpeg's error output that are passed on to the log: those
/// not blank, at most `limit` of them, in order.
pub open spec fn log_lines(ls: Seq<Seq<char>>, n: int, limit: int) -> Seq<Seq<char>>
    decreases n,
{
    if n <= 0 || n > ls.len() {
        Seq::empty()
    } else {
        let prev = log_lines(ls, n - 1, limit);
        if !is_blank(ls[n - 1]) && prev.len() < limit {
            prev.push(ls[n - 1])
        } else {
            prev
        }
    }
}

pub fn ffmpeg_log_lines(stderr: &str, limit: usize) -> (r: Vec<String>)
    ensures
        r@.map_values(|t: String| t@) == log_lines(lines(stderr@), lines(stderr@).len() as int, limit as int),
{
    let s = str_chars(stderr);
    let ls = lines_exec(&s);
    let ghost lv = ls.deep_view();
    let mut r: Vec<String> = Vec::new();
    let mut i: usize = 0;
    while i < ls.len()
        invariant
            i <= ls.len(),
            lv == ls.deep_view(),
            lv.len() == ls.len(),
            lv == lines(stderr@),
            r@.map_values(|t: String| t@) == log_lines(lv, i as int, limit as int),
        decreases ls.len() - i,
    {
        assert(lv[i as int] == ls@[i as int]@);
        if !is_blank_exec(&ls[i]) && r.len() < limit {
            let t = string_of(&ls[i]);
            let ghost old_r = r@;
            r.push(t);
            assert(r@.map_values(|t: String| t@) =~= old_r.map_values(|t: String| t@).push(t@));
        }
        i += 1;
    }
    r
}

// ---------------------------------------------------------------------------
// Letterbox crop
// ---------------------------------------------------------------------------

pub open spec fn crop_marker() -> Seq<char> {
    seq!['c', 'r', 'o', 'p', '=']
}

/// The first position at or after `i` where `w` (not empty) occurs in `s`.
pub open spec fn find_from(s: Seq<char>, w: Seq<char>, i: int) -> Option<int>
    decreases s.len() + 1 - i,
{
    if i < 0 || i > s.len() {
        None
    } else if occurs_at(s, i, w) {
        Some(i)
    } else {
        find_from(s, w, i + 1)
    }
}

proof fn lemma_find_from(s: Seq<char>, w: Seq<char>, i: int)
    requires
        0 <= i,
    ensures
        find_from(s, w, i) matches Some(p) ==> i <= p && occurs_at(s, p, w),
    decreases s.len() + 1 - i,
{
    if i <= s.len() && !occurs_at(s, i, w) {
        lemma_find_from(s, w, i + 1);
    }
}

fn find_from_exec(s: &Vec<char>, w: &Vec<char>, i: usize) -> (r: Option<usize>)
    requires
        s.len() < usize::MAX,
    ensures
        r matches Some(p) ==> find_from(s@, w@, i as int) == Some(p as int) && i <= p && occurs_at(s@, p as int, w@),
        r is None ==> find_from(s@, w@, i as int) is None,
{
    let mut j = i;
    while j <= s.len()
        invariant
            i <= j,
            s.len() < usize::MAX,
            find_from(s@, w@, i as int) == find_from(s@, w@, j as int),
        decreases s.len() + 1 - j,
    {
        if occurs_at_exec(s, j, w) {
            return Some(j);
        }
        j += 1;
    }
    None
}

/// What follows the first `crop=` of a line up to the next `crop=`
/// (`line.split("crop=").nth(1)`).
pub open spec fn crop_piece(line: Seq<char>) -> Option<Seq<char>> {
    match find_from(line, crop_marker(), 0) {
        Some(p) => {
            let a = p + 5;
            match find_from(line, crop_marker(), a) {
                Some(q) => Some(line.subrange(a, q)),
                None => Some(line.subrange(a, line.len() as int)),
            }
        },
        None => None,
    }
}

/// The crop expression that a line reports: the first word after its
/// `crop=` (empty where there is none), for a line that has one.
pub open spec fn crop_expr_of(line: Seq<char>) -> Option<Seq<char>> {
    match crop_piece(line) {
        Some(pc) => Some(first_word(pc)),
        None => None,
    }
}

/// The crop expression of the last line of `ls[..n]` that reports one.
pub open spec fn last_crop_expr(ls: Seq<Seq<char>>, n: int) -> Option<Seq<char>>
    decreases n,
{
    if n <= 0 || n > ls.len() {
        None
    } else {
        match crop_expr_of(ls[n - 1]) {
            Some(e) => Some(e),
            None => last_crop_expr(ls, n - 1),
        }
    }
}

/// Index of the first `:` at or after `i`, or the length.
pub open spec fn colon_at(s: Seq<char>, i: int) -> int
    decreases s.len() - i,
{
    if i < 0 || i >= s.len() || s[i] == ':' {
        i
    } else {
        colon_at(s, i + 1)
    }
}

proof fn lemma_colon_at(s: Seq<char>, i: int)
    requires
        0 <= i <= s.len(),
    ensures
        i <= colon_at(s, i) <= s.len(),
        colon_at(s, i) < s.len() ==> s[colon_at(s, i)] == ':',
    decreases s.len() - i,
{
    if i < s.len() && s[i] != ':' {
        lemma_colon_at(s, i + 1);
    }
}

/// The pieces of `s[i..]` between `:` (`split(':')`), for `0 <= i <= len`.
pub open spec fn colon_parts(s: Seq<char>, i: int) -> Seq<Seq<char>>
    decreases s.len() + 1 - i,
{
    if i < 0 || i > s.len() {
        Seq::empty()
    } else {
        let j = colon_at(s, i);
        if i <= j && j < s.len() {
            seq![s.subrange(i, j)] + colon_parts(s, j + 1)
        } else {
            seq![s.subrange(i, s.len() as int)]
        }
    }
}

/// `str::parse::<i32>()`: an optional sign and ASCII digits, in range.
pub open spec fn parse_i32(d: Seq<char>) -> Option<i32> {
    let neg = d.len() > 0 && d[0] == '-';
    let body = if d.len() > 0 && (d[0] == '+' || d[0] == '-') {
        d.drop_first()
    } else {
        d
    };
    if body.len() > 0 && all_ascii_digits(body) && (if neg {
        digits_value(body) <= 0x8000_0000
    } else {
        digits_value(body) <= 0x7fff_ffff
    }) {
        Some((if neg { -(digits_value(body) as int) } else { digits_value(body) as int }) as i32)
    } else {
        None
    }
}

fn parse_i32_exec(v: &Vec<char>) -> (r: Option<i32>)
    ensures
        r == parse_i32(v@),
{
    let neg = v.len() > 0 && v[0] == '-';
    let start: usize = if v.len() > 0 && (v[0] == '+' || v[0] == '-') {
        1
    } else {
        0
    };
    let ghost body = if v@.len() > 0 && (v@[0] == '+' || v@[0] == '-') {
        v@.drop_first()
    } else {
        v@
    };
    assert(body =~= v@.subrange(start as int, v.len() as int));
    if start == v.len() {
        return None;
    }
    let bound: u64 = if neg {
        0x8000_0000
    } else {
        0x7fff_ffff
    };
    match digits_value_bounded(v, start, v.len(), bound) {
        Some(x) => {
            if neg {
                let n: i64 = -(x as i64);
                Some(n as i32)
            } else {
                Some(x as i32)
            }
        },
        None => None,
    }
}

/// The decimal text of an `i32`, with `-` before a negative one.
pub open spec fn int_text(n: i32) -> Seq<char> {
    if n < 0 {
        seq!['-'] + decimal((-(n as int)) as nat)
    } else {
        decimal(n as nat)
    }
}

fn int_text_exec(n: i32) -> (r: Vec<char>)
    ensures
        r@ == int_text(n),
{
    if n < 0 {
        let m: i64 = -(n as i64);
        let d = decimal_exec(m as u64);
        let mut r = vec!['-'];
        append_chars(&mut r, &d);
        r
    } else {
        decimal_exec(n as u64)
    }
}

/// The `crop=W:H:X:Y` filter for a crop that `cropdetect` reported in its
/// error output: the expression of its last line that has one, read as four
/// `i32` numbers; none where there is no such expression, it is empty or
/// does not read, the size is under 100 pixels either way (or not
/// positive), or the crop starts at the origin (nothing to trim).
pub open spec fn crop_filter_spec(stderr: Seq<char>) -> Option<Seq<char>> {
    match last_crop_expr(lines(stderr), lines(stderr).len() as int) {
        Some(e) => {
            let parts = colon_parts(e, 0);
            if e.len() == 0 || parts.len() != 4 {
                None
            } else {
                match (parse_i32(parts[0]), parse_i32(parts[1]), parse_i32(parts[2]), parse_i32(parts[3])) {
                    (Some(w), Some(h), Some(x), Some(y)) => if w <= 0 || h <= 0 || h < 100 || w < 100 || (x
                        == 0 && y == 0) {
                        None
                    } else {
                        Some(crop_marker() + int_text(w) + seq![':'] + int_text(h) + seq![':'] + int_text(x)
                            + seq![':'] + int_text(y))
                    },
                    _ => None,
                }
            }
        },
        None => None,
    }
}

fn crop_expr_exec(line: &Vec<char>) -> (r: Option<Vec<char>>)
    requires
        line.len() < usize::MAX - 8,
    ensures
        r matches Some(e) ==> crop_expr_of(line@) == Some(e@),
        r is None ==> crop_expr_of(line@) is None,
{
    let m = vec!['c', 'r', 'o', 'p', '='];
    assert(m@ =~= crop_marker());
    match find_from_exec(line, &m, 0) {
        Some(p) => {
            let a = p + 5;
            let piece = match find_from_exec(line, &m, a) {
                Some(q) => sub_vec(line, a, q),
                None => sub_vec(line, a, line.len()),
            };
            Some(first_word_exec(&piece))
        },
        None => None,
    }
}

fn colon_parts_exec(s: &Vec<char>) -> (r: Vec<Vec<char>>)
    ensures
        r.deep_view() == colon_parts(s@, 0),
{
    let mut r: Vec<Vec<char>> = Vec::new();
    let mut i: usize = 0;
    loop
        invariant
            i <= s.len(),
            r.deep_view() + colon_parts(s@, i as int) == colon_parts(s@, 0),
        decreases s.len() - i,
    {
        let mut j = i;
        while j < s.len() && s[j] != ':'
            invariant
                i <= j <= s.len(),
                colon_at(s@, i as int) == colon_at(s@, j as int),
            decreases s.len() - j,
        {
            j += 1;
        }
        proof {
            lemma_colon_at(s@, i as int);
        }
        let piece = sub_vec(s, i, j);
        let ghost rd = r.deep_view();
        let ghost rs = r@;
        r.push(piece);
        proof {
            assert(r.deep_view() =~= rd.push(piece@)) by {
                assert forall|k: int| 0 <= k < r.deep_view().len() implies #[trigger] r.deep_view()[k] == rd.push(piece@)[k] by {
                    if k < rs.len() {
                        assert(r@[k] == rs[k]);
                    }
                }
            }
        }
        if j < s.len() {
            assert(rd + colon_parts(s@, i as int) =~= rd.push(piece@) + colon_parts(s@, j + 1));
            i = j + 1;
        } else {
            assert(colon_parts(s@, i as int) =~= seq![piece@]);
            assert(rd + colon_parts(s@, i as int) =~= r.deep_view());
            return r;
        }
    }
}

/// The letterbox crop filter that `cropdetect` reports in its error output,
/// if it trims anything.
pub fn crop_filter(stderr: &str) -> (r: Option<String>)
    requires
        stderr@.len() < isize::MAX,
    ensures
        crate::library::opt_view(r) == crop_filter_spec(stderr@),
{
    let s = str_chars(stderr);
    let ls = lines_exec(&s);
    let ghost lv = ls.deep_view();
    proof {
        lemma_lines_short(s@, 0);
    }
    let mut n = ls.len();
    let mut found: Option<Vec<char>> = None;
    while n > 0
        invariant_except_break
            found is None,
            last_crop_expr(lv, lv.len() as int) == last_crop_expr(lv, n as int),
        invariant
            n <= ls.len(),
            lv == ls.deep_view(),
            lv.len() == ls.len(),
            forall|k: int| 0 <= k < lv.len() ==> (#[trigger] lv[k]).len() <= s@.len(),
            s@.len() < isize::MAX,
        ensures
            found matches Some(e) ==> last_crop_expr(lv, lv.len() as int) == Some(e@),
            found is None ==> last_crop_expr(lv, lv.len() as int) is None,
        decreases n,
    {
        assert(lv[n - 1] == ls@[n - 1]@);
        match crop_expr_exec(&ls[n - 1]) {
            Some(e) => {
                found = Some(e);
                break;
            },
            None => {},
        }
        n -= 1;
    }
    let e = match found {
        Some(e) => e,
        None => return None,
    };
    let parts = colon_parts_exec(&e);
    if e.len() == 0 || parts.len() != 4 {
        return None;
    }
    assert(parts.deep_view()[0] == parts@[0]@);
    assert(parts.deep_view()[1] == parts@[1]@);
    assert(parts.deep_view()[2] == parts@[2]@);
    assert(parts.deep_view()[3] == parts@[3]@);
    let w = match parse_i32_exec(&parts[0]) {
        Some(v) => v,
        None => return None,
    };
    let h = match parse_i32_exec(&parts[1]) {
        Some(v) => v,
        None => return None,
    };
    let x = match parse_i32_exec(&parts[2]) {
        Some(v) => v,
        None => return None,
    };
    let y = match parse_i32_exec(&parts[3]) {
        Some(v) => v,
        None => return None,
    };
    if w <= 0 || h <= 0 || h < 100 || w < 100 || (x == 0 && y == 0) {
        return None;
    }
    let mut out = vec!['c', 'r', 'o', 'p', '='];
    append_chars(&mut out, &int_text_exec(w));
    out.push(':');
    append_chars(&mut out, &int_text_exec(h));
    out.push(':');
    append_chars(&mut out, &int_text_exec(x));
    out.push(':');
    append_chars(&mut out, &int_text_exec(y));
    Some(string_of(&out))
}

proof fn lemma_lines_short(s: Seq<char>, i: int)
    requires
        0 <= i,
    ensures
        forall|k: int| 0 <= k < lines_from(s, i).len() ==> (#[trigger] lines_from(s, i)[k]).len() <= s.len(),
    decreases s.len() - i,
{
    if i < s.len() {
        lemma_line_end(s, i);
        let j = line_end(s, i);
        if j < s.len() {
            lemma_lines_short(s, j + 1);
            let rest = lines_from(s, j + 1);
            let all = lines_from(s, i);
            assert forall|k: int| 0 <= k < all.len() implies (#[trigger] all[k]).len() <= s.len() by {
                if k > 0 {
                    assert(all[k] == rest[k - 1]);
                }
            }
        }
    }
}

} // verus!
