//! The text patterns that episode file names and series folder names are
//! read with, each as a predicate on a position of a `Seq<char>` (what a
//! leftmost-first match of the pattern decides there) with an executable
//! matcher proved equal to it.
use vstd::prelude::*;
use crate::text::{
    CharClass, in_class, in_class_exec, run_end, run_end_exec, lemma_run_end, no_newline_from,
    no_newline_from_exec, lit_at, lit_at_exec, boundary, boundary_exec, ci_char, ci_char_exec,
    all_in,
};
use crate::unicode::{is_space, is_space_exec};

verus! {

// ---------------------------------------------------------------------------
// Episode patterns
// ---------------------------------------------------------------------------

/// The unanchored episode patterns, in the order they are tried.
#[derive(Clone, Copy, PartialEq, Eq, Structural)]
pub enum EpisodePattern {
    /// `(?i)[Ss](\d+)[Ee](\d+)[\s.\-]*(.*)$`
    SeasonEpisode,
    /// `(?i)(?:^|[\s.])(\d+)x(\d+)[\s.\-]*(.*)$`
    NumberXNumber,
    /// `(?:^|[.\-\s])(\d{2})(\d{2})(?:[.\-\s]|$)`
    Compact,
    /// `(?i)(?:^|[\s.])Episode\s+(\d+)[\s.\-]*(.*)$`
    EpisodeWord,
}

pub open spec fn word_episode() -> Seq<char> {
    seq!['e', 'p', 'i', 's', 'o', 'd', 'e']
}

/// `[Ss](\d+)[Ee](\d+)[\s.\-]*(.*)$` matched from `q`.
pub open spec fn season_episode_body(s: Seq<char>, q: int) -> bool {
    let e1 = run_end(s, q + 1, CharClass::Decimal);
    let e2 = run_end(s, e1 + 1, CharClass::Decimal);
    &&& 0 <= q < s.len()
    &&& ci_char(s[q], 's')
    &&& e1 > q + 1
    &&& e1 < s.len()
    &&& ci_char(s[e1], 'e')
    &&& e2 > e1 + 1
    &&& no_newline_from(s, run_end(s, e2, CharClass::Separator))
}

/// `(\d+)x(\d+)[\s.\-]*(.*)$` matched from `q`.
pub open spec fn number_x_body(s: Seq<char>, q: int) -> bool {
    let e1 = run_end(s, q, CharClass::Decimal);
    let e2 = run_end(s, e1 + 1, CharClass::Decimal);
    &&& 0 <= q <= s.len()
    &&& e1 > q
    &&& e1 < s.len()
    &&& ci_char(s[e1], 'x')
    &&& e2 > e1 + 1
    &&& no_newline_from(s, run_end(s, e2, CharClass::Separator))
}

/// `(\d{2})(\d{2})(?:[.\-\s]|$)` matched from `q`.
pub open spec fn compact_body(s: Seq<char>, q: int) -> bool {
    &&& 0 <= q
    &&& q + 4 <= s.len()
    &&& all_in(s, q, q + 4, CharClass::Decimal)
    &&& (q + 4 == s.len() || in_class(CharClass::Separator, s[q + 4]))
}

/// `Episode\s+(\d+)[\s.\-]*(.*)$` (case-insensitive) matched from `q`.
pub open spec fn episode_word_body(s: Seq<char>, q: int) -> bool {
    let w = run_end(s, q + 7, CharClass::Space);
    let d = run_end(s, w, CharClass::Decimal);
    &&& lit_at(s, q, word_episode(), true)
    &&& w > q + 7
    &&& d > w
    &&& no_newline_from(s, run_end(s, d, CharClass::Separator))
}

pub open spec fn body_at(pat: EpisodePattern, s: Seq<char>, q: int) -> bool {
    match pat {
        EpisodePattern::SeasonEpisode => season_episode_body(s, q),
        EpisodePattern::NumberXNumber => number_x_body(s, q),
        EpisodePattern::Compact => compact_body(s, q),
        EpisodePattern::EpisodeWord => episode_word_body(s, q),
    }
}

/// Whether the pattern's leading `(?:^|[...])` may open at `p` with a
/// separator character (the `^` alternative is tried first).
pub open spec fn lead_char(pat: EpisodePattern, c: char) -> bool {
    match pat {
        EpisodePattern::Compact => in_class(CharClass::Separator, c),
        _ => is_space(c) || c == '.',
    }
}

/// Where the body of a match of `pat` that starts at `p` begins, if a match
/// starts at `p`.
pub open spec fn pattern_start(pat: EpisodePattern, s: Seq<char>, p: int) -> Option<int> {
    match pat {
        EpisodePattern::SeasonEpisode => if body_at(pat, s, p) {
            Some(p)
        } else {
            None
        },
        _ => if p == 0 && body_at(pat, s, 0) {
            Some(0)
        } else if 0 <= p < s.len() && lead_char(pat, s[p]) && body_at(pat, s, p + 1) {
            Some(p + 1)
        } else {
            None
        },
    }
}

/// The body start of the leftmost match of `pat` at or after `i`.
pub open spec fn first_pattern(pat: EpisodePattern, s: Seq<char>, i: int) -> Option<int>
    decreases s.len() + 1 - i,
{
    if i < 0 || i > s.len() {
        None
    } else {
        match pattern_start(pat, s, i) {
            Some(q) => Some(q),
            None => first_pattern(pat, s, i + 1),
        }
    }
}

fn body_at_exec(pat: EpisodePattern, s: &Vec<char>, q: usize) -> (r: bool)
    requires
        q <= s.len(),
    ensures
        r == body_at(pat, s@, q as int),
{
    match pat {
        EpisodePattern::SeasonEpisode => {
            if q >= s.len() || !ci_char_exec(s[q], 's') {
                return false;
            }
            let e1 = run_end_exec(s, q + 1, CharClass::Decimal);
            proof {
                lemma_run_end(s@, q + 1, CharClass::Decimal);
            }
            if !(e1 > q + 1 && e1 < s.len() && ci_char_exec(s[e1], 'e')) {
                return false;
            }
            let e2 = run_end_exec(s, e1 + 1, CharClass::Decimal);
            proof {
                lemma_run_end(s@, e1 + 1, CharClass::Decimal);
            }
            if e2 <= e1 + 1 {
                return false;
            }
            let t = run_end_exec(s, e2, CharClass::Separator);
            proof {
                lemma_run_end(s@, e2 as int, CharClass::Separator);
            }
            no_newline_from_exec(s, t)
        },
        EpisodePattern::NumberXNumber => {
            let e1 = run_end_exec(s, q, CharClass::Decimal);
            proof {
                lemma_run_end(s@, q as int, CharClass::Decimal);
            }
            if !(e1 > q && e1 < s.len() && ci_char_exec(s[e1], 'x')) {
                return false;
            }
            let e2 = run_end_exec(s, e1 + 1, CharClass::Decimal);
            proof {
                lemma_run_end(s@, e1 + 1, CharClass::Decimal);
            }
            if e2 <= e1 + 1 {
                return false;
            }
            let t = run_end_exec(s, e2, CharClass::Separator);
            proof {
                lemma_run_end(s@, e2 as int, CharClass::Separator);
            }
            no_newline_from_exec(s, t)
        },
        EpisodePattern::Compact => {
            if s.len() < 4 || q > s.len() - 4 {
                return false;
            }
            let e = run_end_exec(s, q, CharClass::Decimal);
            proof {
                lemma_run_end(s@, q as int, CharClass::Decimal);
                if e < q + 4 {
                    assert(!in_class(CharClass::Decimal, s@[e as int]));
                }
            }
            if e < q + 4 {
                return false;
            }
            q + 4 == s.len() || in_class_exec(CharClass::Separator, s[q + 4])
        },
        EpisodePattern::EpisodeWord => {
            let lit = vec!['e', 'p', 'i', 's', 'o', 'd', 'e'];
            assert(lit@ =~= word_episode());
            if !lit_at_exec(s, q, &lit, true) {
                return false;
            }
            let w = run_end_exec(s, q + 7, CharClass::Space);
            proof {
                lemma_run_end(s@, q + 7, CharClass::Space);
            }
            if w <= q + 7 {
                return false;
            }
            let d = run_end_exec(s, w, CharClass::Decimal);
            proof {
                lemma_run_end(s@, w as int, CharClass::Decimal);
            }
            if d <= w {
                return false;
            }
            let t = run_end_exec(s, d, CharClass::Separator);
            proof {
                lemma_run_end(s@, d as int, CharClass::Separator);
            }
            no_newline_from_exec(s, t)
        },
    }
}

fn pattern_start_exec(pat: EpisodePattern, s: &Vec<char>, p: usize) -> (r: Option<usize>)
    requires
        p <= s.len(),
        s.len() < usize::MAX,
    ensures
        r matches Some(q) ==> pattern_start(pat, s@, p as int) == Some(q as int),
        r is None ==> pattern_start(pat, s@, p as int) is None,
{
    match pat {
        EpisodePattern::SeasonEpisode => {
            if body_at_exec(pat, s, p) {
                Some(p)
            } else {
                None
            }
        },
        _ => {
            if p == 0 && body_at_exec(pat, s, 0) {
                return Some(0);
            }
            if p < s.len() {
                let c = s[p];
                let lead = match pat {
                    EpisodePattern::Compact => in_class_exec(CharClass::Separator, c),
                    _ => is_space_exec(c) || c == '.',
                };
                if lead && body_at_exec(pat, s, p + 1) {
                    return Some(p + 1);
                }
            }
            None
        },
    }
}

/// The body start of the leftmost match of `pat` in `s`.
pub fn first_pattern_exec(pat: EpisodePattern, s: &Vec<char>) -> (r: Option<usize>)
    requires
        s.len() < usize::MAX,
    ensures
        r matches Some(q) ==> first_pattern(pat, s@, 0) == Some(q as int),
        r is None ==> first_pattern(pat, s@, 0) is None,
{
    let mut i: usize = 0;
    while i <= s.len()
        invariant
            i <= s.len() + 1,
            s.len() < usize::MAX,
            first_pattern(pat, s@, 0) == first_pattern(pat, s@, i as int),
        decreases s.len() + 1 - i,
    {
        match pattern_start_exec(pat, s, i) {
            Some(q) => {
                return Some(q);
            },
            None => {},
        }
        i += 1;
    }
    None
}

// ---------------------------------------------------------------------------
// Patterns that are searched for and replaced
// ---------------------------------------------------------------------------

/// The patterns that are searched for in folder names and titles.
#[derive(Clone, Copy, PartialEq, Eq, Structural)]
pub enum SearchPattern {
    /// `\(\d{4}\)`
    YearParen,
    /// `\[\d{4}\]`
    YearBracket,
    /// `(?i)\b(1080p|720p|4K|2160p|480p)\b`
    Resolution,
    /// `(?i)\b(BluRay|WEB-DL|WEBRip|HDTV|BRRip|DVDRip)\b`
    Source,
    /// `(?i)\b(x264|x265|H[.\s]?264|H[.\s]?265|HEVC|AAC|DTS)\b`
    Encoding,
    /// `(?i)\bS\d+\b`
    SeasonTag,
    /// `\b\d{4}\b`
    YearBare,
    /// `\s{2,}`
    MultiSpace,
    /// `(?i)\b(720p|1080p|2160p|4k|web|webrip|web-dl|hdtv|bluray|bdrip|dvdrip|h\.?264|h\.?265|x\.?264|x\.?265|aac|hevc|10bit|hdr|remux)\b`
    ReleaseTag,
}

pub open spec fn resolution_words() -> Seq<Seq<char>> {
    seq![
        seq!['1', '0', '8', '0', 'p'],
        seq!['7', '2', '0', 'p'],
        seq!['4', 'k'],
        seq!['2', '1', '6', '0', 'p'],
        seq!['4', '8', '0', 'p'],
    ]
}

pub open spec fn source_words() -> Seq<Seq<char>> {
    seq![
        seq!['b', 'l', 'u', 'r', 'a', 'y'],
        seq!['w', 'e', 'b', '-', 'd', 'l'],
        seq!['w', 'e', 'b', 'r', 'i', 'p'],
        seq!['h', 'd', 't', 'v'],
        seq!['b', 'r', 'r', 'i', 'p'],
        seq!['d', 'v', 'd', 'r', 'i', 'p'],
    ]
}

/// The alternatives of the encoding pattern after its two `H[.\s]?26x`
/// alternatives.
pub open spec fn encoding_tail_words() -> Seq<Seq<char>> {
    seq![seq!['h', 'e', 'v', 'c'], seq!['a', 'a', 'c'], seq!['d', 't', 's']]
}

pub open spec fn encoding_head_words() -> Seq<Seq<char>> {
    seq![seq!['x', '2', '6', '4'], seq!['x', '2', '6', '5']]
}

/// The release tags, with `h\.?264` and the like written out both ways.
pub open spec fn release_words() -> Seq<Seq<char>> {
    seq![
        seq!['7', '2', '0', 'p'],
        seq!['1', '0', '8', '0', 'p'],
        seq!['2', '1', '6', '0', 'p'],
        seq!['4', 'k'],
        seq!['w', 'e', 'b'],
        seq!['w', 'e', 'b', 'r', 'i', 'p'],
        seq!['w', 'e', 'b', '-', 'd', 'l'],
        seq!['h', 'd', 't', 'v'],
        seq!['b', 'l', 'u', 'r', 'a', 'y'],
        seq!['b', 'd', 'r', 'i', 'p'],
        seq!['d', 'v', 'd', 'r', 'i', 'p'],
        seq!['h', '.', '2', '6', '4'],
        seq!['h', '2', '6', '4'],
        seq!['h', '.', '2', '6', '5'],
        seq!['h', '2', '6', '5'],
        seq!['x', '.', '2', '6', '4'],
        seq!['x', '2', '6', '4'],
        seq!['x', '.', '2', '6', '5'],
        seq!['x', '2', '6', '5'],
        seq!['a', 'a', 'c'],
        seq!['h', 'e', 'v', 'c'],
        seq!['1', '0', 'b', 'i', 't'],
        seq!['h', 'd', 'r'],
        seq!['r', 'e', 'm', 'u', 'x'],
    ]
}

/// The end of the first of `words[i..]` that occurs (case-insensitively) at
/// `p` and is followed by a word boundary.
pub open spec fn words_end(s: Seq<char>, p: int, words: Seq<Seq<char>>, i: int) -> Option<int>
    decreases words.len() - i,
{
    if i < 0 || i >= words.len() {
        None
    } else if lit_at(s, p, words[i], true) && boundary(s, p + words[i].len()) {
        Some(p + words[i].len())
    } else {
        words_end(s, p, words, i + 1)
    }
}

/// `H[.\s]?26` followed by `last` and a boundary, at `p`; the separator is
/// taken when it is there (the `?` is greedy).
pub open spec fn h_variant_end(s: Seq<char>, p: int, last: char) -> Option<int> {
    let tail = seq!['2', '6', last];
    if !(0 <= p < s.len() && ci_char(s[p], 'h')) {
        None
    } else if p + 1 < s.len() && (s[p + 1] == '.' || is_space(s[p + 1])) && lit_at(
        s,
        p + 2,
        tail,
        false,
    ) && boundary(s, p + 5) {
        Some(p + 5)
    } else if lit_at(s, p + 1, tail, false) && boundary(s, p + 4) {
        Some(p + 4)
    } else {
        None
    }
}

/// Where a match of `pat` that starts at `p` ends, if one does.
pub open spec fn search_match(pat: SearchPattern, s: Seq<char>, p: int) -> Option<int> {
    if p < 0 || p >= s.len() {
        None
    } else {
        match pat {
            SearchPattern::YearParen => if s[p] == '(' && p + 6 <= s.len() && all_in(
                s,
                p + 1,
                p + 5,
                CharClass::Decimal,
            ) && s[p + 5] == ')' {
                Some(p + 6)
            } else {
                None
            },
            SearchPattern::YearBracket => if s[p] == '[' && p + 6 <= s.len() && all_in(
                s,
                p + 1,
                p + 5,
                CharClass::Decimal,
            ) && s[p + 5] == ']' {
                Some(p + 6)
            } else {
                None
            },
            SearchPattern::Resolution => if boundary(s, p) {
                words_end(s, p, resolution_words(), 0)
            } else {
                None
            },
            SearchPattern::Source => if boundary(s, p) {
                words_end(s, p, source_words(), 0)
            } else {
                None
            },
            SearchPattern::Encoding => if !boundary(s, p) {
                None
            } else if words_end(s, p, encoding_head_words(), 0) is Some {
                words_end(s, p, encoding_head_words(), 0)
            } else if h_variant_end(s, p, '4') is Some {
                h_variant_end(s, p, '4')
            } else if h_variant_end(s, p, '5') is Some {
                h_variant_end(s, p, '5')
            } else {
                words_end(s, p, encoding_tail_words(), 0)
            },
            SearchPattern::SeasonTag => {
                let d = run_end(s, p + 1, CharClass::Decimal);
                if boundary(s, p) && ci_char(s[p], 's') && d > p + 1 && boundary(s, d) {
                    Some(d)
                } else {
                    None
                }
            },
            SearchPattern::YearBare => if boundary(s, p) && p + 4 <= s.len() && all_in(
                s,
                p,
                p + 4,
                CharClass::Decimal,
            ) && boundary(s, p + 4) {
                Some(p + 4)
            } else {
                None
            },
            SearchPattern::MultiSpace => {
                let w = run_end(s, p, CharClass::Space);
                if w >= p + 2 {
                    Some(w)
                } else {
                    None
                }
            },
            SearchPattern::ReleaseTag => if boundary(s, p) {
                words_end(s, p, release_words(), 0)
            } else {
                None
            },
        }
    }
}

/// The start of the leftmost match of `pat` at or after `i`.
pub open spec fn first_search(pat: SearchPattern, s: Seq<char>, i: int) -> Option<int>
    decreases s.len() - i,
{
    if i < 0 || i >= s.len() {
        None
    } else if search_match(pat, s, i) is Some {
        Some(i)
    } else {
        first_search(pat, s, i + 1)
    }
}

/// The word lists that the patterns above choose among.
#[derive(Clone, Copy, PartialEq, Eq, Structural)]
pub enum WordList {
    Resolution,
    Source,
    EncodingHead,
    EncodingTail,
    Release,
}

pub open spec fn word_list(w: WordList) -> Seq<Seq<char>> {
    match w {
        WordList::Resolution => resolution_words(),
        WordList::Source => source_words(),
        WordList::EncodingHead => encoding_head_words(),
        WordList::EncodingTail => encoding_tail_words(),
        WordList::Release => release_words(),
    }
}

pub fn word_list_exec(w: WordList) -> (r: Vec<Vec<char>>)
    ensures
        r.deep_view() == word_list(w),
{
    let r: Vec<Vec<char>> = match w {
        WordList::Resolution => vec![
            vec!['1', '0', '8', '0', 'p'],
            vec!['7', '2', '0', 'p'],
            vec!['4', 'k'],
            vec!['2', '1', '6', '0', 'p'],
            vec!['4', '8', '0', 'p'],
        ],
        WordList::Source => vec![
            vec!['b', 'l', 'u', 'r', 'a', 'y'],
            vec!['w', 'e', 'b', '-', 'd', 'l'],
            vec!['w', 'e', 'b', 'r', 'i', 'p'],
            vec!['h', 'd', 't', 'v'],
            vec!['b', 'r', 'r', 'i', 'p'],
            vec!['d', 'v', 'd', 'r', 'i', 'p'],
        ],
        WordList::EncodingTail => vec![
            vec!['h', 'e', 'v', 'c'],
            vec!['a', 'a', 'c'],
            vec!['d', 't', 's'],
        ],
        WordList::EncodingHead => vec![vec!['x', '2', '6', '4'], vec!['x', '2', '6', '5']],
        WordList::Release => vec![
            vec!['7', '2', '0', 'p'],
            vec!['1', '0', '8', '0', 'p'],
            vec!['2', '1', '6', '0', 'p'],
            vec!['4', 'k'],
            vec!['w', 'e', 'b'],
            vec!['w', 'e', 'b', 'r', 'i', 'p'],
            vec!['w', 'e', 'b', '-', 'd', 'l'],
            vec!['h', 'd', 't', 'v'],
            vec!['b', 'l', 'u', 'r', 'a', 'y'],
            vec!['b', 'd', 'r', 'i', 'p'],
            vec!['d', 'v', 'd', 'r', 'i', 'p'],
            vec!['h', '.', '2', '6', '4'],
            vec!['h', '2', '6', '4'],
            vec!['h', '.', '2', '6', '5'],
            vec!['h', '2', '6', '5'],
            vec!['x', '.', '2', '6', '4'],
            vec!['x', '2', '6', '4'],
            vec!['x', '.', '2', '6', '5'],
            vec!['x', '2', '6', '5'],
            vec!['a', 'a', 'c'],
            vec!['h', 'e', 'v', 'c'],
            vec!['1', '0', 'b', 'i', 't'],
            vec!['h', 'd', 'r'],
            vec!['r', 'e', 'm', 'u', 'x'],
        ],
    };
    assert(r.deep_view() =~~= word_list(w));
    r
}

fn words_end_exec(s: &Vec<char>, p: usize, words: &Vec<Vec<char>>) -> (r: Option<usize>)
    requires
        p < s.len(),
    ensures
        r matches Some(e) ==> words_end(s@, p as int, words.deep_view(), 0) == Some(e as int),
        r is None ==> words_end(s@, p as int, words.deep_view(), 0) is None,
{
    let ghost ws = words.deep_view();
    let mut i: usize = 0;
    while i < words.len()
        invariant
            p < s.len(),
            i <= words.len(),
            ws == words.deep_view(),
            ws.len() == words.len(),
            words_end(s@, p as int, ws, 0) == words_end(s@, p as int, ws, i as int),
        decreases words.len() - i,
    {
        let w = &words[i];
        assert(ws[i as int] == w@);
        if lit_at_exec(s, p, w, true) {
            let e = p + w.len();
            if boundary_exec(s, e) {
                return Some(e);
            }
        }
        i += 1;
    }
    None
}

fn h_variant_end_exec(s: &Vec<char>, p: usize, last: char) -> (r: Option<usize>)
    requires
        p < s.len(),
    ensures
        r matches Some(e) ==> h_variant_end(s@, p as int, last) == Some(e as int),
        r is None ==> h_variant_end(s@, p as int, last) is None,
{
    let tail = vec!['2', '6', last];
    assert(tail@ =~= seq!['2', '6', last]);
    if !ci_char_exec(s[p], 'h') {
        return None;
    }
    if p + 1 < s.len() && (s[p + 1] == '.' || is_space_exec(s[p + 1])) && lit_at_exec(
        s,
        p + 2,
        &tail,
        false,
    ) && boundary_exec(s, p + 5) {
        return Some(p + 5);
    }
    if lit_at_exec(s, p + 1, &tail, false) && boundary_exec(s, p + 4) {
        return Some(p + 4);
    }
    None
}

fn all_decimal_exec(s: &Vec<char>, a: usize, b: usize) -> (r: bool)
    requires
        a <= b <= s.len(),
    ensures
        r == all_in(s@, a as int, b as int, CharClass::Decimal),
{
    let e = run_end_exec(s, a, CharClass::Decimal);
    proof {
        lemma_run_end(s@, a as int, CharClass::Decimal);
        if e < b {
            assert(!in_class(CharClass::Decimal, s@[e as int]));
        }
    }
    e >= b
}

/// Where a match of `pat` that starts at `p` ends, if one does.
pub fn search_match_exec(pat: SearchPattern, s: &Vec<char>, p: usize) -> (r: Option<usize>)
    ensures
        r matches Some(e) ==> search_match(pat, s@, p as int) == Some(e as int),
        r is None ==> search_match(pat, s@, p as int) is None,
{
    if p >= s.len() {
        return None;
    }
    match pat {
        SearchPattern::YearParen | SearchPattern::YearBracket => {
            let (open, close) = if pat == SearchPattern::YearParen {
                ('(', ')')
            } else {
                ('[', ']')
            };
            if s[p] == open && s.len() >= 6 && p <= s.len() - 6 && all_decimal_exec(s, p + 1, p + 5)
                && s[p + 5] == close {
                Some(p + 6)
            } else {
                None
            }
        },
        SearchPattern::Resolution => {
            if !boundary_exec(s, p) {
                return None;
            }
            let w = word_list_exec(WordList::Resolution);
            words_end_exec(s, p, &w)
        },
        SearchPattern::Source => {
            if !boundary_exec(s, p) {
                return None;
            }
            let w = word_list_exec(WordList::Source);
            words_end_exec(s, p, &w)
        },
        SearchPattern::ReleaseTag => {
            if !boundary_exec(s, p) {
                return None;
            }
            let w = word_list_exec(WordList::Release);
            words_end_exec(s, p, &w)
        },
        SearchPattern::Encoding => {
            if !boundary_exec(s, p) {
                return None;
            }
            let head = word_list_exec(WordList::EncodingHead);
            let r1 = words_end_exec(s, p, &head);
            if r1.is_some() {
                return r1;
            }
            let r2 = h_variant_end_exec(s, p, '4');
            if r2.is_some() {
                return r2;
            }
            let r3 = h_variant_end_exec(s, p, '5');
            if r3.is_some() {
                return r3;
            }
            let tail = word_list_exec(WordList::EncodingTail);
            words_end_exec(s, p, &tail)
        },
        SearchPattern::SeasonTag => {
            if !(boundary_exec(s, p) && ci_char_exec(s[p], 's')) {
                return None;
            }
            let d = run_end_exec(s, p + 1, CharClass::Decimal);
            if d > p + 1 && boundary_exec(s, d) {
                Some(d)
            } else {
                None
            }
        },
        SearchPattern::YearBare => {
            if boundary_exec(s, p) && s.len() >= 4 && p <= s.len() - 4 && all_decimal_exec(
                s,
                p,
                p + 4,
            ) && boundary_exec(s, p + 4) {
                Some(p + 4)
            } else {
                None
            }
        },
        SearchPattern::MultiSpace => {
            let w = run_end_exec(s, p, CharClass::Space);
            proof {
                lemma_run_end(s@, p as int, CharClass::Space);
            }
            if w - p >= 2 {
                Some(w)
            } else {
                None
            }
        },
    }
}

/// The start of the leftmost match of `pat` in `s`.
pub fn first_search_exec(pat: SearchPattern, s: &Vec<char>) -> (r: Option<usize>)
    ensures
        r matches Some(p) ==> first_search(pat, s@, 0) == Some(p as int),
        r is None ==> first_search(pat, s@, 0) is None,
{
    let mut i: usize = 0;
    while i < s.len()
        invariant
            i <= s.len(),
            first_search(pat, s@, 0) == first_search(pat, s@, i as int),
        decreases s.len() - i,
    {
        if search_match_exec(pat, s, i).is_some() {
            return Some(i);
        }
        i += 1;
    }
    None
}

/// `pat.replace_all(s[i..], rep)` for the part of `s` from `i` on: each
/// leftmost match is replaced and the search goes on after it.
pub open spec fn replace_from(pat: SearchPattern, s: Seq<char>, i: int, rep: Seq<char>) -> Seq<
    char,
>
    decreases s.len() - i,
{
    if i < 0 || i >= s.len() {
        Seq::empty()
    } else {
        match search_match(pat, s, i) {
            Some(e) => if i < e <= s.len() {
                rep + replace_from(pat, s, e, rep)
            } else {
                seq![s[i]] + replace_from(pat, s, i + 1, rep)
            },
            None => seq![s[i]] + replace_from(pat, s, i + 1, rep),
        }
    }
}

/// `pat.replace_all(s, rep)`.
pub open spec fn replace_all(pat: SearchPattern, s: Seq<char>, rep: Seq<char>) -> Seq<char> {
    replace_from(pat, s, 0, rep)
}

pub proof fn lemma_words_end_bounds(s: Seq<char>, p: int, words: Seq<Seq<char>>, i: int)
    requires
        forall|k: int| 0 <= k < words.len() ==> #[trigger] words[k].len() > 0,
    ensures
        words_end(s, p, words, i) matches Some(e) ==> p < e <= s.len(),
    decreases words.len() - i,
{
    if 0 <= i < words.len() {
        lemma_words_end_bounds(s, p, words, i + 1);
    }
}

pub proof fn lemma_search_match_bounds(pat: SearchPattern, s: Seq<char>, p: int)
    ensures
        search_match(pat, s, p) matches Some(e) ==> p < e <= s.len(),
{
    if 0 <= p < s.len() {
        lemma_run_end(s, p + 1, CharClass::Decimal);
        lemma_run_end(s, p, CharClass::Space);
        let r = resolution_words();
        assert(forall|k: int| 0 <= k < r.len() ==> #[trigger] r[k].len() > 0);
        lemma_words_end_bounds(s, p, r, 0);
        let r = source_words();
        assert(forall|k: int| 0 <= k < r.len() ==> #[trigger] r[k].len() > 0);
        lemma_words_end_bounds(s, p, r, 0);
        let r = release_words();
        assert(forall|k: int| 0 <= k < r.len() ==> #[trigger] r[k].len() > 0);
        lemma_words_end_bounds(s, p, r, 0);
        let r = encoding_head_words();
        assert(forall|k: int| 0 <= k < r.len() ==> #[trigger] r[k].len() > 0);
        lemma_words_end_bounds(s, p, r, 0);
        let r = encoding_tail_words();
        assert(forall|k: int| 0 <= k < r.len() ==> #[trigger] r[k].len() > 0);
        lemma_words_end_bounds(s, p, r, 0);
    }
}

pub fn replace_all_exec(pat: SearchPattern, s: &Vec<char>, rep: &Vec<char>) -> (r: Vec<char>)
    ensures
        r@ == replace_all(pat, s@, rep@),
{
    let mut r: Vec<char> = Vec::new();
    let mut i: usize = 0;
    while i < s.len()
        invariant
            i <= s.len(),
            r@ + replace_from(pat, s@, i as int, rep@) == replace_all(pat, s@, rep@),
        decreases s.len() - i,
    {
        match search_match_exec(pat, s, i) {
            Some(e) => {
                proof {
                    lemma_search_match_bounds(pat, s@, i as int);
                    assert(r@ + rep@ + replace_from(pat, s@, e as int, rep@) =~= r@ + (rep@
                        + replace_from(pat, s@, e as int, rep@)));
                }
                crate::text::append_chars(&mut r, rep);
                i = e;
            },
            None => {
                proof {
                    assert(r@.push(s@[i as int]) + replace_from(pat, s@, i + 1, rep@) =~= r@ + (
                    seq![s@[i as int]] + replace_from(pat, s@, i + 1, rep@)));
                }
                r.push(s[i]);
                i += 1;
            },
        }
    }
    assert(r@ + replace_from(pat, s@, i as int, rep@) =~= r@);
    r
}

pub proof fn lemma_first_pattern_body(pat: EpisodePattern, s: Seq<char>, i: int)
    ensures
        first_pattern(pat, s, i) matches Some(q) ==> 0 <= q <= s.len() && body_at(pat, s, q),
    decreases s.len() + 1 - i,
{
    if 0 <= i <= s.len() && pattern_start(pat, s, i) is None {
        lemma_first_pattern_body(pat, s, i + 1);
    }
}

pub proof fn lemma_first_search_bounds(pat: SearchPattern, s: Seq<char>, i: int)
    ensures
        first_search(pat, s, i) matches Some(p) ==> 0 <= p < s.len() && search_match(
            pat,
            s,
            p,
        ) is Some,
    decreases s.len() - i,
{
    if 0 <= i < s.len() && search_match(pat, s, i) is None {
        lemma_first_search_bounds(pat, s, i + 1);
    }
}

} // verus!
