//! Filing a dropped video: the series name read from its file name.
use vstd::prelude::*;
use crate::text::{
    str_chars, string_of, sub_vec, trim, trim_vec, dots_to_spaces, dots_to_spaces_exec,
    all_ascii_digits, unicode_lowercase, to_lowercase, byte_len, chars_in_bytes, byte_offsets,
    chars_in_bytes_exec, occurs_at_exec, occurs_at,
};
use crate::paths::file_stem;
use crate::media::find_from;

verus! {

/// The stem of a file name, or the name itself where it has none.
pub open spec fn ingest_stem(filename: Seq<char>) -> Seq<char> {
    match file_stem(filename) {
        Some(s) => s,
        None => filename,
    }
}

/// The position of the first `c` in `s`.
pub open spec fn first_char_from(s: Seq<char>, c: char, i: int) -> Option<int>
    decreases s.len() - i,
{
    if i < 0 || i >= s.len() {
        None
    } else if s[i] == c {
        Some(i)
    } else {
        first_char_from(s, c, i + 1)
    }
}

/// Whether an `SxxEyy` code starts at character `k` of the lowercased
/// name: an `s`, then one to three ASCII digits up to the first `e` after
/// it, then an ASCII digit.
pub open spec fn code_at(lower: Seq<char>, k: int) -> bool {
    let rest = lower.subrange(k + 1, lower.len() as int);
    &&& 0 <= k < lower.len()
    &&& lower[k] == 's'
    &&& match first_char_from(rest, 'e', 0) {
        Some(e) => {
            let season = rest.take(e);
            let ep = rest.subrange(e + 1, rest.len() as int);
            &&& 0 < season.len() <= 3
            &&& all_ascii_digits(season)
            &&& ep.len() >= 1
            &&& crate::text::is_ascii_digit(ep[0])
        },
        None => false,
    }
}

/// `s.trim_end_matches('-')`.
pub open spec fn dash_trimmed(s: Seq<char>) -> Seq<char>
    decreases s.len(),
{
    if s.len() > 0 && s.last() == '-' {
        dash_trimmed(s.drop_last())
    } else {
        s
    }
}

/// The name before byte `b` of the cleaned name, trimmed of spaces and
/// trailing dashes; none where `b` is not a character boundary of it.
pub open spec fn name_before(cleaned: Seq<char>, b: int) -> Option<Seq<char>> {
    match chars_in_bytes(cleaned, b) {
        Some(j) => Some(trim(dash_trimmed(trim(cleaned.take(j))))),
        None => None,
    }
}

/// Looking for an episode code from character `k` of the lowercased name
/// on: `Some(Some(name))` for the first code with a name before it,
/// `Some(None)` for none, and `None` where the position of a code (a byte
/// offset of the lowercased name) is not a character boundary of the
/// cleaned name.
pub open spec fn code_name_from(cleaned: Seq<char>, lower: Seq<char>, k: int) -> Option<Option<Seq<char>>>
    decreases lower.len() - k,
{
    if k < 0 || k >= lower.len() {
        Some(None)
    } else {
        let i = byte_len(lower.take(k));
        if i + 6 <= byte_len(lower) && code_at(lower, k) {
            match name_before(cleaned, i) {
                None => None,
                Some(n) => if n.len() > 0 {
                    Some(Some(n))
                } else {
                    code_name_from(cleaned, lower, k + 1)
                },
            }
        } else {
            code_name_from(cleaned, lower, k + 1)
        }
    }
}

/// The release tags that end a series name.
pub open spec fn ingest_tags() -> Seq<Seq<char>> {
    seq![
        seq!['7', '2', '0', 'p'],
        seq!['1', '0', '8', '0', 'p'],
        seq!['2', '1', '6', '0', 'p'],
        seq!['4', 'k'],
        seq!['w', 'e', 'b'],
        seq!['w', 'e', 'b', 'r', 'i', 'p'],
        seq!['h', 'd', 't', 'v'],
        seq!['b', 'l', 'u', 'r', 'a', 'y'],
        seq!['h', '2', '6', '4'],
        seq!['h', '2', '6', '5'],
        seq!['x', '2', '6', '4'],
        seq!['x', '2', '6', '5'],
        seq!['h', 'e', 'v', 'c'],
        seq!['a', 'a', 'c'],
    ]
}

fn ingest_tags_exec() -> (r: Vec<Vec<char>>)
    ensures
        r.deep_view() == ingest_tags(),
{
    let r = vec![
        vec!['7', '2', '0', 'p'],
        vec!['1', '0', '8', '0', 'p'],
        vec!['2', '1', '6', '0', 'p'],
        vec!['4', 'k'],
        vec!['w', 'e', 'b'],
        vec!['w', 'e', 'b', 'r', 'i', 'p'],
        vec!['h', 'd', 't', 'v'],
        vec!['b', 'l', 'u', 'r', 'a', 'y'],
        vec!['h', '2', '6', '4'],
        vec!['h', '2', '6', '5'],
        vec!['x', '2', '6', '4'],
        vec!['x', '2', '6', '5'],
        vec!['h', 'e', 'v', 'c'],
        vec!['a', 'a', 'c'],
    ];
    assert(r.deep_view() =~~= ingest_tags());
    r
}

/// Cutting the name before each tag in turn (from tag `t` on), where its
/// lowercase form holds the tag; none where such a cut is not a character
/// boundary of the name.
pub open spec fn strip_tags_from(name: Seq<char>, t: int) -> Option<Seq<char>>
    decreases ingest_tags().len() - t,
{
    if t < 0 || t >= ingest_tags().len() {
        Some(name)
    } else {
        let low = unicode_lowercase(name);
        match find_from(low, ingest_tags()[t], 0) {
            Some(p) => match chars_in_bytes(name, byte_len(low.take(p))) {
                Some(j) => strip_tags_from(name.take(j), t + 1),
                None => None,
            },
            None => strip_tags_from(name, t + 1),
        }
    }
}

pub open spec fn spaced_dash() -> Seq<char> {
    seq![' ', '-', ' ']
}

/// The series name of a video file name, or none where reading it fails
/// (a cut that falls inside a character): `.` and `_` of the stem become
/// spaces; the name is what comes before the first episode code (see
/// [`code_at`]) that has a name before it; else what comes before the
/// first ` - `; else the whole, cut before each release tag it holds.
pub open spec fn series_name_spec(filename: Seq<char>) -> Option<Seq<char>> {
    let cleaned = dots_to_spaces(ingest_stem(filename));
    let lower = unicode_lowercase(cleaned);
    match code_name_from(cleaned, lower, 0) {
        None => None,
        Some(Some(n)) => Some(n),
        Some(None) => {
            let dash = find_from(cleaned, spaced_dash(), 0);
            let by_dash = match dash {
                Some(idx) => trim(cleaned.take(idx)),
                None => Seq::empty(),
            };
            if dash is Some && by_dash.len() > 0 {
                Some(by_dash)
            } else {
                match strip_tags_from(cleaned, 0) {
                    Some(n) => Some(trim(dash_trimmed(trim(n)))),
                    None => None,
                }
            }
        },
    }
}

fn dash_trimmed_exec(s: &Vec<char>) -> (r: Vec<char>)
    ensures
        r@ == dash_trimmed(s@),
{
    let mut n = s.len();
    assert(s@.take(n as int) =~= s@);
    while n > 0 && s[n - 1] == '-'
        invariant
            n <= s.len(),
            dash_trimmed(s@) == dash_trimmed(s@.take(n as int)),
        decreases n,
    {
        assert(s@.take(n as int).drop_last() =~= s@.take(n - 1));
        n -= 1;
    }
    proof {
        if n > 0 {
            assert(s@.take(n as int).last() == s@[n - 1]);
        }
    }
    sub_vec(s, 0, n)
}

fn trimmed_name(s: &Vec<char>, j: usize) -> (r: Vec<char>)
    requires
        j <= s.len(),
    ensures
        r@ == trim(dash_trimmed(trim(s@.take(j as int)))),
{
    let head = sub_vec(s, 0, j);
    assert(head@ =~= s@.take(j as int));
    let t = trim_vec(&head);
    let d = dash_trimmed_exec(&t);
    trim_vec(&d)
}

/// Whether an episode code starts at character `k`.
fn code_at_exec(lower: &Vec<char>, k: usize) -> (r: bool)
    requires
        k < lower.len(),
    ensures
        r == code_at(lower@, k as int),
{
    if lower[k] != 's' {
        return false;
    }
    let rest = sub_vec(lower, k + 1, lower.len());
    let mut e: usize = 0;
    while e < rest.len() && rest[e] != 'e'
        invariant
            e <= rest.len(),
            k < lower.len(),
            lower@[k as int] == 's',
            rest@ == lower@.subrange(k + 1, lower.len() as int),
            first_char_from(rest@, 'e', 0) == first_char_from(rest@, 'e', e as int),
        decreases rest.len() - e,
    {
        e += 1;
    }
    if e == rest.len() {
        return false;
    }
    assert(first_char_from(rest@, 'e', 0) == Some(e as int));
    if e == 0 || e > 3 {
        return false;
    }
    let mut d: usize = 0;
    while d < e
        invariant
            d <= e < rest.len(),
            k < lower.len(),
            lower@[k as int] == 's',
            rest@ == lower@.subrange(k + 1, lower.len() as int),
            first_char_from(rest@, 'e', 0) == Some(e as int),
            0 < e <= 3,
            forall|j: int| 0 <= j < d ==> crate::text::is_ascii_digit(#[trigger] rest@[j]),
        decreases e - d,
    {
        if !('0' <= rest[d] && rest[d] <= '9') {
            assert(!all_ascii_digits(rest@.take(e as int))) by {
                assert(rest@.take(e as int)[d as int] == rest@[d as int]);
            }
            return false;
        }
        d += 1;
    }
    assert(all_ascii_digits(rest@.take(e as int))) by {
        assert forall|j: int| 0 <= j < e implies crate::text::is_ascii_digit(#[trigger] rest@.take(e as int)[j]) by {
            assert(rest@.take(e as int)[j] == rest@[j]);
        }
    }
    if e + 1 >= rest.len() {
        return false;
    }
    let c = rest[e + 1];
    assert(rest@.subrange(e + 1, rest.len() as int)[0] == c);
    '0' <= c && c <= '9'
}

fn find_from_start(s: &Vec<char>, w: &Vec<char>) -> (r: Option<usize>)
    requires
        w.len() > 0,
    ensures
        r matches Some(p) ==> find_from(s@, w@, 0) == Some(p as int) && p <= s.len(),
        r is None ==> find_from(s@, w@, 0) is None,
{
    let mut j: usize = 0;
    while j < s.len()
        invariant
            j <= s.len(),
            w.len() > 0,
            find_from(s@, w@, 0) == find_from(s@, w@, j as int),
        decreases s.len() - j,
    {
        if occurs_at_exec(s, j, w) {
            return Some(j);
        }
        j += 1;
    }
    assert(!crate::text::occurs_at(s@, s.len() as int, w@));
    assert(find_from(s@, w@, s.len() + 1) is None);
    None
}

/// The series name of a video file name; `None` where reading it fails.
pub fn try_extract_series_name(filename: &str) -> (r: Option<String>)
    requires
        filename@.len() < isize::MAX,
    ensures
        crate::library::opt_view(r) == series_name_spec(filename@),
{
    let f = str_chars(filename);
    let stem = match crate::paths::file_name_exec(&f) {
        Some(n) => {
            proof {
                crate::paths::lemma_file_name_len(f@, f@.len() as int);
            }
            let k = crate::paths::last_index_of_exec(&n, '.', n.len());
            proof {
                crate::paths::lemma_last_index_of(n@, '.', n.len() as int);
            }
            if k <= 0 {
                n
            } else {
                sub_vec(&n, 0, k as usize)
            }
        },
        None => f,
    };
    assert(stem@ == ingest_stem(filename@));
    let cleaned = dots_to_spaces_exec(&stem);
    let cleaned_text = string_of(&cleaned);
    let lower_text = to_lowercase(cleaned_text.as_str());
    let lower = str_chars(lower_text.as_str());
    let lo = byte_offsets(&lower);
    let co = byte_offsets(&cleaned);
    let total = lo[lower.len()];
    assert(lower@.take(lower.len() as int) =~= lower@);
    // an episode code with a name before it
    let mut k: usize = 0;
    while k < lower.len()
        invariant
            k <= lower.len(),
            lo.len() == lower.len() + 1,
            co.len() == cleaned.len() + 1,
            forall|j: int| 0 <= j <= lower.len() ==> #[trigger] lo@[j] == byte_len(lower@.take(j)),
            forall|j: int| 0 <= j <= cleaned.len() ==> #[trigger] co@[j] == byte_len(cleaned@.take(j)),
            total == byte_len(lower@),
            lower@ == unicode_lowercase(cleaned@),
            cleaned@ == dots_to_spaces(ingest_stem(filename@)),
            code_name_from(cleaned@, lower@, 0) == code_name_from(cleaned@, lower@, k as int),
        decreases lower.len() - k,
    {
        let i = lo[k];
        if total >= 6 && i <= total - 6 && code_at_exec(&lower, k) {
            match chars_in_bytes_exec(&cleaned, &co, i) {
                None => return None,
                Some(j) => {
                    let n = trimmed_name(&cleaned, j);
                    if n.len() > 0 {
                        return Some(string_of(&n));
                    }
                },
            }
        }
        k += 1;
    }
    // a name before ` - `
    let sd = vec![' ', '-', ' '];
    assert(sd@ =~= spaced_dash());
    match find_from_start(&cleaned, &sd) {
        Some(idx) => {
            let head = sub_vec(&cleaned, 0, idx);
            assert(head@ =~= cleaned@.take(idx as int));
            let n = trim_vec(&head);
            if n.len() > 0 {
                return Some(string_of(&n));
            }
        },
        None => {},
    }
    // the whole, without release tags
    assert(series_name_spec(filename@) == match strip_tags_from(cleaned@, 0) {
        Some(n) => Some(trim(dash_trimmed(trim(n)))),
        None => None,
    });
    let tags = ingest_tags_exec();
    let mut name = sub_vec(&cleaned, 0, cleaned.len());
    assert(name@ =~= cleaned@);
    let mut t: usize = 0;
    while t < tags.len()
        invariant
            t <= tags.len(),
            tags.deep_view() == ingest_tags(),
            strip_tags_from(cleaned@, 0) == strip_tags_from(name@, t as int),
            series_name_spec(filename@) == match strip_tags_from(cleaned@, 0) {
                Some(n) => Some(trim(dash_trimmed(trim(n)))),
                None => None,
            },
        decreases tags.len() - t,
    {
        let name_text = string_of(&name);
        let low_text = to_lowercase(name_text.as_str());
        let low = str_chars(low_text.as_str());
        assert(tags.deep_view()[t as int] == tags@[t as int]@);
        assert(tags@[t as int]@.len() > 0);
        match find_from_start(&low, &tags[t]) {
            Some(p) => {
                let lows = byte_offsets(&low);
                let b = lows[p];
                let no = byte_offsets(&name);
                match chars_in_bytes_exec(&name, &no, b) {
                    Some(j) => {
                        let cut = sub_vec(&name, 0, j);
                        assert(cut@ =~= name@.take(j as int));
                        name = cut;
                    },
                    None => return None,
                }
            },
            None => {},
        }
        t += 1;
    }
    let a = trim_vec(&name);
    let d = dash_trimmed_exec(&a);
    let r = trim_vec(&d);
    Some(string_of(&r))
}

/// Extract series name from a video filename.
/// "Show.Name.S01E03.720p.WEB.x264-GROUP.mkv" → "Show Name"
/// "Show Name - S01E03 - Episode Title.mp4" → "Show Name"
pub fn extract_series_name(filename: &str) -> (r: String)
    requires
        filename@.len() < isize::MAX,
        series_name_spec(filename@) is Some,
    ensures
        r@ == series_name_spec(filename@).unwrap(),
{
    match try_extract_series_name(filename) {
        Some(n) => n,
        None => String::new(),
    }
}


proof fn lemma_no_code_from(cleaned: Seq<char>, lower: Seq<char>, k: int)
    requires
        0 <= k,
        forall|m: int| 0 <= m < lower.len() ==> !code_at(lower, m),
    ensures
        code_name_from(cleaned, lower, k) == Some(None::<Seq<char>>),
    decreases lower.len() - k,
{
    if k < lower.len() {
        assert(!code_at(lower, k));
        lemma_no_code_from(cleaned, lower, k + 1);
    }
}

proof fn lemma_first_occurrence(s: Seq<char>, w: Seq<char>, i: int, idx: int)
    requires
        0 <= i <= idx,
        occurs_at(s, idx, w),
        forall|m: int| i <= m < idx ==> !occurs_at(s, m, w),
    ensures
        find_from(s, w, i) == Some(idx),
    decreases idx - i,
{
    if i < idx {
        lemma_first_occurrence(s, w, i + 1, idx);
    }
}

/// A file name whose cleaned stem holds no episode code is filed under the
/// text before its first ` - `, trimmed, where that text is not blank.
/// (`lower` stands for the lowercased cleaned stem, which the codes are
/// looked for in.)
pub proof fn lemma_name_before_spaced_dash(filename: Seq<char>, lower: Seq<char>, idx: int)
    requires
        forall|k: int| 0 <= k < lower.len() ==> !code_at(lower, k),
        0 <= idx,
        occurs_at(dots_to_spaces(ingest_stem(filename)), idx, seq![' ', '-', ' ']),
        forall|m: int| 0 <= m < idx ==> !occurs_at(dots_to_spaces(ingest_stem(filename)), m, seq![' ', '-', ' ']),
        trim(dots_to_spaces(ingest_stem(filename)).take(idx)).len() > 0,
    ensures
        lower == unicode_lowercase(dots_to_spaces(ingest_stem(filename))) ==> series_name_spec(filename) == Some(
            trim(dots_to_spaces(ingest_stem(filename)).take(idx)),
        ),
{
    let cleaned = dots_to_spaces(ingest_stem(filename));
    lemma_no_code_from(cleaned, lower, 0);
    assert(spaced_dash() =~= seq![' ', '-', ' ']);
    lemma_first_occurrence(cleaned, spaced_dash(), 0, idx);
}

} // verus!
