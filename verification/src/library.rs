//! The media library: series folders, their episodes, artwork and
//! subtitles, and how episode file names are read.
use vstd::prelude::*;
use crate::text::{
    CharClass, run_end, run_end_exec, lemma_run_end, no_newline_from, no_newline_from_exec, trim,
    trim_vec, dots_to_spaces, dots_to_spaces_exec, sub_vec, append_chars, str_chars, string_of,
    parse_u32, parse_u32_exec, decimal, decimal_exec, lemma_decimal_nonempty, trim_end_class,
    trim_end_class_exec, is_ascii_alnum, lemma_trim, str_lt, unicode_lowercase, to_lowercase,
    all_ascii, ascii_lowercase,
    str_lt_exec, chars_eq, lemma_str_lt_trans, lemma_str_lt_total, lemma_str_lt_asym,
    lemma_str_lt_irreflexive,
};
use crate::paths::{extension, extension_exec};
use vstd::utf8::encode_utf8;
use crate::paths::{file_stem, file_stem_or_empty, last_index_of, last_index_of_exec, lemma_last_index_of};
use crate::patterns::{
    EpisodePattern, first_pattern, first_pattern_exec, SearchPattern, first_search,
    first_search_exec,
};

verus! {

/// Season, episode and title read from an episode's file name.
#[derive(Debug, Clone)]
pub struct ParsedEpisodeInfo {
    pub season: Option<u32>,
    pub episode: Option<u32>,
    pub title: String,
}

/// What [`ParsedEpisodeInfo`] holds, with the title as characters.
pub struct EpisodeFields {
    pub season: Option<u32>,
    pub episode: Option<u32>,
    pub title: Seq<char>,
}

impl ParsedEpisodeInfo {
    pub open spec fn fields(&self) -> EpisodeFields {
        EpisodeFields { season: self.season, episode: self.episode, title: self.title@ }
    }
}

// ---------------------------------------------------------------------------
// Titles
// ---------------------------------------------------------------------------

/// Removes release tags: everything from the first tag on (then trailing
/// `-`, `.` and spaces), or else a trailing `-GROUP` of at most 12 ASCII
/// letters and digits when something is left before it.
pub open spec fn strip_release_tags_spec(s: Seq<char>) -> Seq<char> {
    match first_search(SearchPattern::ReleaseTag, s, 0) {
        Some(p) => trim_end_class(trim(s.subrange(0, p)), CharClass::DashDotSpace),
        None => {
            let idx = last_index_of(s, '-', s.len() as int);
            let after = s.subrange(idx + 1, s.len() as int);
            let before = trim(s.subrange(0, idx));
            if idx >= 0 && after.len() > 0 && (forall|k: int|
                0 <= k < after.len() ==> is_ascii_alnum(#[trigger] after[k])) && after.len() <= 12
                && before.len() > 0 {
                before
            } else {
                s
            }
        },
    }
}

/// A raw title cleaned up: `.` and `_` become spaces, the result is trimmed,
/// a leading `- ` (or `-`) is removed, it is trimmed again and release tags
/// are stripped.
pub open spec fn clean_title_spec(raw: Seq<char>) -> Seq<char> {
    let s = trim(dots_to_spaces(raw));
    let s = if s.len() >= 2 && s[0] == '-' && s[1] == ' ' {
        s.subrange(2, s.len() as int)
    } else if s.len() >= 1 && s[0] == '-' {
        s.subrange(1, s.len() as int)
    } else {
        s
    };
    strip_release_tags_spec(trim(s))
}

fn strip_release_tags(s: &Vec<char>) -> (r: Vec<char>)
    requires
        s.len() < isize::MAX,
    ensures
        r@ == strip_release_tags_spec(s@),
{
    match first_search_exec(SearchPattern::ReleaseTag, s) {
        Some(p) => {
            proof {
                crate::patterns::lemma_first_search_bounds(SearchPattern::ReleaseTag, s@, 0);
            }
            let before = sub_vec(s, 0, p);
            let before = trim_vec(&before);
            trim_end_class_exec(&before, CharClass::DashDotSpace)
        },
        None => {
            let idx = last_index_of_exec(s, '-', s.len());
            proof {
                lemma_last_index_of(s@, '-', s.len() as int);
            }
            if idx >= 0 {
                let i = idx as usize;
                let after_len = s.len() - (i + 1);
                let mut all_alnum = true;
                let mut k = i + 1;
                while k < s.len()
                    invariant
                        i < s.len(),
                        i + 1 <= k <= s.len(),
                        all_alnum == (forall|j: int|
                            i + 1 <= j < k ==> is_ascii_alnum(#[trigger] s@[j])),
                    decreases s.len() - k,
                {
                    let c = s[k];
                    if !(('0' <= c && c <= '9') || ('a' <= c && c <= 'z') || ('A' <= c && c
                        <= 'Z')) {
                        all_alnum = false;
                    }
                    k += 1;
                }
                let ghost after = s@.subrange(i + 1, s.len() as int);
                assert(all_alnum == (forall|j: int|
                    0 <= j < after.len() ==> is_ascii_alnum(#[trigger] after[j]))) by {
                    if all_alnum {
                        assert forall|j: int| 0 <= j < after.len() implies is_ascii_alnum(
                            #[trigger] after[j],
                        ) by {
                            assert(after[j] == s@[i + 1 + j]);
                        }
                    } else {
                        let j0 = choose|j: int| i + 1 <= j < s.len() && !is_ascii_alnum(s@[j]);
                        assert(after[j0 - i - 1] == s@[j0]);
                    }
                }
                if after_len > 0 && all_alnum && after_len <= 12 {
                    let before = sub_vec(s, 0, i);
                    let before = trim_vec(&before);
                    if before.len() > 0 {
                        return before;
                    }
                }
            }
            sub_vec(s, 0, s.len())
        },
    }
}

fn clean_title(raw: &Vec<char>) -> (r: Vec<char>)
    requires
        raw.len() < isize::MAX,
    ensures
        r@ == clean_title_spec(raw@),
{
    let s = dots_to_spaces_exec(raw);
    let s = trim_vec(&s);
    proof {
        lemma_trim(dots_to_spaces(raw@));
    }
    let s = if s.len() >= 2 && s[0] == '-' && s[1] == ' ' {
        sub_vec(&s, 2, s.len())
    } else if s.len() >= 1 && s[0] == '-' {
        sub_vec(&s, 1, s.len())
    } else {
        s
    };
    proof {
        lemma_trim(s@);
    }
    let s = trim_vec(&s);
    strip_release_tags(&s)
}

// ---------------------------------------------------------------------------
// Episode file names
// ---------------------------------------------------------------------------

pub open spec fn word_episode_title() -> Seq<char> {
    seq!['E', 'p', 'i', 's', 'o', 'd', 'e', ' ']
}

/// `title`, or `Episode <n>` when it is empty.
pub open spec fn title_or_number(title: Seq<char>, n: u32) -> Seq<char> {
    if title.len() == 0 {
        word_episode_title() + decimal(n as nat)
    } else {
        title
    }
}

pub open spec fn numbered(season: Option<u32>, n: u32, raw_title: Seq<char>) -> EpisodeFields {
    EpisodeFields {
        season: season,
        episode: Some(n),
        title: title_or_number(clean_title_spec(raw_title), n),
    }
}

/// The number in `s[a..b]` as `u32`; `None` stands for a number that cannot
/// be read, on which reading the name fails.
pub open spec fn number_in(s: Seq<char>, a: int, b: int) -> Option<u32> {
    parse_u32(s.subrange(a, b))
}

/// Result of the `S01E03` pattern found with its `S` at `q`.
pub open spec fn season_episode_result(s: Seq<char>, q: int) -> Option<EpisodeFields> {
    let e1 = run_end(s, q + 1, CharClass::Decimal);
    let e2 = run_end(s, e1 + 1, CharClass::Decimal);
    let t = run_end(s, e2, CharClass::Separator);
    match (number_in(s, q + 1, e1), number_in(s, e1 + 1, e2)) {
        (Some(a), Some(b)) => Some(numbered(Some(a), b, s.subrange(t, s.len() as int))),
        _ => None,
    }
}

/// Result of the `01x03` pattern with its digits at `q`.
pub open spec fn number_x_result(s: Seq<char>, q: int) -> Option<EpisodeFields> {
    let e1 = run_end(s, q, CharClass::Decimal);
    let e2 = run_end(s, e1 + 1, CharClass::Decimal);
    let t = run_end(s, e2, CharClass::Separator);
    match (number_in(s, q, e1), number_in(s, e1 + 1, e2)) {
        (Some(a), Some(b)) => Some(numbered(Some(a), b, s.subrange(t, s.len() as int))),
        _ => None,
    }
}

/// Result of the `Episode 03` pattern with its word at `q`.
pub open spec fn episode_word_result(s: Seq<char>, q: int) -> Option<EpisodeFields> {
    let w = run_end(s, q + 7, CharClass::Space);
    let d = run_end(s, w, CharClass::Decimal);
    let t = run_end(s, d, CharClass::Separator);
    match number_in(s, w, d) {
        Some(b) => Some(numbered(None, b, s.subrange(t, s.len() as int))),
        None => None,
    }
}

/// Where the title of `^(\d+)[\s.\-]+(.+)$` starts, if the stem matches it.
pub open spec fn number_title_start(s: Seq<char>) -> Option<int> {
    let d = run_end(s, 0, CharClass::Decimal);
    let t = run_end(s, d, CharClass::Separator);
    if d == 0 || t == d {
        None
    } else if t < s.len() && no_newline_from(s, t) {
        Some(t)
    } else if t == s.len() && t - d >= 2 && s[t - 1] != '\n' {
        Some(t - 1)
    } else {
        None
    }
}

/// What the remaining patterns give: `03 - Title`, `03`, or the whole stem
/// as the title.
pub open spec fn plain_result(s: Seq<char>) -> Option<EpisodeFields> {
    let d = run_end(s, 0, CharClass::Decimal);
    match number_title_start(s) {
        Some(k) => match number_in(s, 0, d) {
            Some(b) => Some(numbered(None, b, s.subrange(k, s.len() as int))),
            None => None,
        },
        None => if s.len() > 0 && d == s.len() {
            match number_in(s, 0, d) {
                Some(b) => Some(
                    EpisodeFields {
                        season: None,
                        episode: Some(b),
                        title: word_episode_title() + decimal(b as nat),
                    },
                ),
                None => None,
            }
        } else {
            Some(EpisodeFields { season: None, episode: None, title: clean_title_spec(s) })
        },
    }
}

/// What reading a trimmed file stem gives; `None` where a number that a
/// pattern found cannot be read as `u32`.
pub open spec fn parse_stem(s: Seq<char>) -> Option<EpisodeFields> {
    match first_pattern(EpisodePattern::SeasonEpisode, s, 0) {
        Some(q) => season_episode_result(s, q),
        None => match first_pattern(EpisodePattern::NumberXNumber, s, 0) {
            Some(q) => number_x_result(s, q),
            None => {
                let compact = first_pattern(EpisodePattern::Compact, s, 0);
                let after_compact = match first_pattern(EpisodePattern::EpisodeWord, s, 0) {
                    Some(q) => episode_word_result(s, q),
                    None => plain_result(s),
                };
                match compact {
                    Some(q) => match (number_in(s, q, q + 2), number_in(s, q + 2, q + 4)) {
                        (Some(a), Some(b)) => if 1 <= a <= 30 && b >= 1 {
                            Some(
                                EpisodeFields {
                                    season: Some(a),
                                    episode: Some(b),
                                    title: word_episode_title() + decimal(b as nat),
                                },
                            )
                        } else {
                            after_compact
                        },
                        _ => None,
                    },
                    None => after_compact,
                }
            },
        },
    }
}

/// The trimmed stem of a file name.
pub open spec fn name_stem(filename: Seq<char>) -> Seq<char> {
    trim(
        match file_stem(filename) {
            Some(s) => s,
            None => Seq::empty(),
        },
    )
}

/// Whether a file name can be read: every number that the matching pattern
/// takes from it fits in `u32` and is written with ASCII digits.
pub open spec fn episode_filename_readable(filename: Seq<char>) -> bool {
    parse_stem(name_stem(filename)) is Some
}

/// What [`parse_episode_filename`] gives for a readable file name.
pub open spec fn parse_episode_filename_spec(filename: Seq<char>) -> EpisodeFields {
    parse_stem(name_stem(filename)).unwrap()
}

fn episode_title_vec(n: u32) -> (r: Vec<char>)
    ensures
        r@ == word_episode_title() + decimal(n as nat),
{
    let mut r = vec!['E', 'p', 'i', 's', 'o', 'd', 'e', ' '];
    let d = decimal_exec(n as u64);
    append_chars(&mut r, &d);
    r
}

fn title_or_number_vec(title: Vec<char>, n: u32) -> (r: Vec<char>)
    ensures
        r@ == title_or_number(title@, n),
{
    if title.len() == 0 {
        episode_title_vec(n)
    } else {
        title
    }
}

fn numbered_info(season: Option<u32>, n: u32, s: &Vec<char>, t: usize) -> (r: ParsedEpisodeInfo)
    requires
        t <= s.len() < isize::MAX,
    ensures
        r.fields() == numbered(season, n, s@.subrange(t as int, s.len() as int)),
{
    let raw = sub_vec(s, t, s.len());
    let title = clean_title(&raw);
    let title = title_or_number_vec(title, n);
    ParsedEpisodeInfo { season, episode: Some(n), title: string_of(&title) }
}

/// Reads season, episode and title from an episode file name, trying in
/// turn `S01E03 - Title`, `01x03 - Title`, a compact `0103` (season 1-30,
/// episode 1 or more), `Episode 03 - Title`, `03 - Title` and `03`; a name
/// that fits none of them has its cleaned stem as title.
pub fn parse_episode_filename(filename: &str) -> (info: ParsedEpisodeInfo)
    requires
        filename@.len() < isize::MAX,
        episode_filename_readable(filename@),
    ensures
        info.fields() == parse_episode_filename_spec(filename@),
{
    match try_parse_episode_filename(filename) {
        Some(info) => info,
        None => ParsedEpisodeInfo { season: None, episode: None, title: String::new() },
    }
}

/// [`parse_episode_filename`] on any file name: `None` exactly where a number
/// that the matching pattern takes does not fit in `u32`.
pub fn try_parse_episode_filename(filename: &str) -> (r: Option<ParsedEpisodeInfo>)
    requires
        filename@.len() < isize::MAX,
    ensures
        r is Some <==> episode_filename_readable(filename@),
        r matches Some(info) ==> info.fields() == parse_episode_filename_spec(filename@),
{
    let chars = str_chars(filename);
    let stem = file_stem_or_empty(&chars);
    let s = trim_vec(&stem);
    proof {
        lemma_trim(stem@);
        crate::paths::lemma_file_stem_len(chars@);
    }
    let ghost g = s@;
    let ghost spec_result = parse_stem(g);
    match first_pattern_exec(EpisodePattern::SeasonEpisode, &s) {
        Some(q) => {
            proof {
                crate::patterns::lemma_first_pattern_body(EpisodePattern::SeasonEpisode, g, 0);
            }
            let e1 = run_end_exec(&s, q + 1, CharClass::Decimal);
            proof {
                lemma_run_end(g, q + 1, CharClass::Decimal);
            }
            let e2 = run_end_exec(&s, e1 + 1, CharClass::Decimal);
            proof {
                lemma_run_end(g, e1 + 1, CharClass::Decimal);
            }
            let t = run_end_exec(&s, e2, CharClass::Separator);
            proof {
                lemma_run_end(g, e2 as int, CharClass::Separator);
            }
            let a = parse_u32_exec(&s, q + 1, e1);
            let b = parse_u32_exec(&s, e1 + 1, e2);
            match (a, b) {
                (Some(a), Some(b)) => Some(numbered_info(Some(a), b, &s, t)),
                _ => None,
            }
        },
        None => match first_pattern_exec(EpisodePattern::NumberXNumber, &s) {
            Some(q) => {
                proof {
                    crate::patterns::lemma_first_pattern_body(EpisodePattern::NumberXNumber, g, 0);
                }
                let e1 = run_end_exec(&s, q, CharClass::Decimal);
                proof {
                    lemma_run_end(g, q as int, CharClass::Decimal);
                }
                let e2 = run_end_exec(&s, e1 + 1, CharClass::Decimal);
                proof {
                    lemma_run_end(g, e1 + 1, CharClass::Decimal);
                }
                let t = run_end_exec(&s, e2, CharClass::Separator);
                proof {
                    lemma_run_end(g, e2 as int, CharClass::Separator);
                }
                let a = parse_u32_exec(&s, q, e1);
                let b = parse_u32_exec(&s, e1 + 1, e2);
                match (a, b) {
                    (Some(a), Some(b)) => Some(numbered_info(Some(a), b, &s, t)),
                    _ => None,
                }
            },
            None => {
                match first_pattern_exec(EpisodePattern::Compact, &s) {
                    Some(q) => {
                        proof {
                            crate::patterns::lemma_first_pattern_body(
                                EpisodePattern::Compact,
                                g,
                                0,
                            );
                        }
                        let a = parse_u32_exec(&s, q, q + 2);
                        let b = parse_u32_exec(&s, q + 2, q + 4);
                        match (a, b) {
                            (Some(a), Some(b)) => {
                                if 1 <= a && a <= 30 && b >= 1 {
                                    let title = episode_title_vec(b);
                                    return Some(ParsedEpisodeInfo {
                                        season: Some(a),
                                        episode: Some(b),
                                        title: string_of(&title),
                                    });
                                }
                            },
                            _ => {
                                return None;
                            },
                        }
                    },
                    None => {},
                }
                after_compact(&s)
            },
        },
    }
}

pub open spec fn option_fields(o: Option<ParsedEpisodeInfo>) -> Option<EpisodeFields> {
    match o {
        Some(i) => Some(i.fields()),
        None => None,
    }
}

/// What a file name gives is consistent: a season comes only with an
/// episode number, and an episode number always comes with a title.
pub proof fn lemma_parsed_episode_consistent(filename: Seq<char>)
    requires
        episode_filename_readable(filename),
    ensures
        parse_episode_filename_spec(filename).season is Some ==> parse_episode_filename_spec(filename).episode is Some,
        parse_episode_filename_spec(filename).episode is Some ==> parse_episode_filename_spec(filename).title.len() > 0,
{
    let s = name_stem(filename);
    let f = parse_episode_filename_spec(filename);
    assert(word_episode_title().len() == 8);
    match first_pattern(EpisodePattern::SeasonEpisode, s, 0) {
        Some(q) => {},
        None => match first_pattern(EpisodePattern::NumberXNumber, s, 0) {
            Some(q) => {},
            None => {},
        },
    }
}

/// The patterns tried after the compact one.
fn after_compact(s: &Vec<char>) -> (r: Option<ParsedEpisodeInfo>)
    requires
        s.len() < isize::MAX,
    ensures
        option_fields(r) == (match first_pattern(EpisodePattern::EpisodeWord, s@, 0) {
            Some(q) => episode_word_result(s@, q),
            None => plain_result(s@),
        }),
{
    let ghost g = s@;
    match first_pattern_exec(EpisodePattern::EpisodeWord, s) {
        Some(q) => {
            proof {
                crate::patterns::lemma_first_pattern_body(EpisodePattern::EpisodeWord, g, 0);
            }
            let w = run_end_exec(s, q + 7, CharClass::Space);
            proof {
                lemma_run_end(g, q + 7, CharClass::Space);
            }
            let d = run_end_exec(s, w, CharClass::Decimal);
            proof {
                lemma_run_end(g, w as int, CharClass::Decimal);
            }
            let t = run_end_exec(s, d, CharClass::Separator);
            proof {
                lemma_run_end(g, d as int, CharClass::Separator);
            }
            match parse_u32_exec(s, w, d) {
                Some(b) => Some(numbered_info(None, b, s, t)),
                None => None,
            }
        },
        None => {
            let d = run_end_exec(s, 0, CharClass::Decimal);
            proof {
                lemma_run_end(g, 0, CharClass::Decimal);
            }
            let t = run_end_exec(s, d, CharClass::Separator);
            proof {
                lemma_run_end(g, d as int, CharClass::Separator);
            }
            let k: Option<usize> = if d == 0 || t == d {
                None
            } else if t < s.len() && no_newline_from_exec(s, t) {
                Some(t)
            } else if t == s.len() && t - d >= 2 && s[t - 1] != '\n' {
                Some(t - 1)
            } else {
                None
            };
            assert(k matches Some(kk) ==> number_title_start(g) == Some(kk as int));
            assert(k is None ==> number_title_start(g) is None);
            match k {
                Some(k) => match parse_u32_exec(s, 0, d) {
                    Some(b) => Some(numbered_info(None, b, s, k)),
                    None => None,
                },
                None => {
                    if s.len() > 0 && d == s.len() {
                        match parse_u32_exec(s, 0, d) {
                            Some(b) => {
                                let title = episode_title_vec(b);
                                Some(ParsedEpisodeInfo {
                                    season: None,
                                    episode: Some(b),
                                    title: string_of(&title),
                                })
                            },
                            None => None,
                        }
                    } else {
                        let title = clean_title(s);
                        Some(ParsedEpisodeInfo { season: None, episode: None, title: string_of(&title) })
                    }
                },
            }
        },
    }
}

// ---------------------------------------------------------------------------
// The library
// ---------------------------------------------------------------------------

/// All series of the media folder, in order of their ids.
#[derive(Debug, Clone)]
pub struct Library {
    /// Series ordered by id, each id once.
    pub series: Vec<Series>,
}

#[derive(Debug, Clone)]
pub struct Series {
    pub id: String,
    pub title: String,
    /// Relative path from media root to the series folder
    pub path: String,
    /// Art file relative path (if found)
    pub art: Option<String>,
    /// Backdrop/fanart relative path (if found)
    pub backdrop: Option<String>,
    /// Manual TMDB ID override from tmdb.txt in series folder
    pub tmdb_id_override: Option<u64>,
    pub episodes: Vec<Episode>,
}

#[derive(Debug, Clone)]
pub struct Episode {
    pub id: String,
    pub title: String,
    /// Relative path from media root
    pub path: String,
    pub filename: String,
    /// File size in bytes
    pub size_bytes: u64,
    /// Sort index (derived from filename ordering)
    pub index: usize,
    pub season_number: Option<u32>,
    pub episode_number: Option<u32>,
    /// External subtitle files found (relative paths from media root)
    pub subtitles: Vec<SubtitleFile>,
}

#[derive(Debug, Clone)]
pub struct SubtitleFile {
    pub language: String,
    pub path: String,
}

pub struct SubtitleView {
    pub language: Seq<char>,
    pub path: Seq<char>,
}

pub struct EpisodeView {
    pub id: Seq<char>,
    pub title: Seq<char>,
    pub path: Seq<char>,
    pub filename: Seq<char>,
    pub size_bytes: u64,
    pub index: usize,
    pub season_number: Option<u32>,
    pub episode_number: Option<u32>,
    pub subtitles: Seq<SubtitleView>,
}

pub struct SeriesView {
    pub id: Seq<char>,
    pub title: Seq<char>,
    pub path: Seq<char>,
    pub art: Option<Seq<char>>,
    pub backdrop: Option<Seq<char>>,
    pub tmdb_id_override: Option<u64>,
    pub episodes: Seq<EpisodeView>,
}

pub open spec fn opt_view(o: Option<String>) -> Option<Seq<char>> {
    match o {
        Some(s) => Some(s@),
        None => None,
    }
}

impl View for SubtitleFile {
    type V = SubtitleView;

    open spec fn view(&self) -> SubtitleView {
        SubtitleView { language: self.language@, path: self.path@ }
    }
}

impl View for Episode {
    type V = EpisodeView;

    open spec fn view(&self) -> EpisodeView {
        EpisodeView {
            id: self.id@,
            title: self.title@,
            path: self.path@,
            filename: self.filename@,
            size_bytes: self.size_bytes,
            index: self.index,
            season_number: self.season_number,
            episode_number: self.episode_number,
            subtitles: self.subtitles@.map_values(|t: SubtitleFile| t@),
        }
    }
}

impl View for Series {
    type V = SeriesView;

    open spec fn view(&self) -> SeriesView {
        SeriesView {
            id: self.id@,
            title: self.title@,
            path: self.path@,
            art: opt_view(self.art),
            backdrop: opt_view(self.backdrop),
            tmdb_id_override: self.tmdb_id_override,
            episodes: self.episodes@.map_values(|e: Episode| e@),
        }
    }
}

impl View for Library {
    type V = Seq<SeriesView>;

    open spec fn view(&self) -> Seq<SeriesView> {
        self.series@.map_values(|s: Series| s@)
    }
}

/// The series ids are strictly increasing.
pub open spec fn ids_ascending(series: Seq<SeriesView>) -> bool {
    forall|a: int, b: int| 0 <= a < b < series.len() ==> str_lt(#[trigger] series[a].id, #[trigger] series[b].id)
}

/// Whether series `i` has an episode with the given id.
pub open spec fn has_episode(s: SeriesView, id: Seq<char>) -> bool {
    exists|j: int| 0 <= j < s.episodes.len() && s.episodes[j].id == id
}

impl Library {
    /// An empty library.
    pub fn new() -> (lib: Library)
        ensures
            lib@ == Seq::<SeriesView>::empty(),
    {
        let lib = Library { series: Vec::new() };
        assert(lib@ =~= Seq::<SeriesView>::empty());
        lib
    }

    /// Finds an episode by id: the first series (in id order) that has it,
    /// and its first episode with that id.
    pub fn find_episode(&self, episode_id: &str) -> (r: Option<(&Series, &Episode)>)
        ensures
            r matches Some((s, e)) ==> exists|i: int, j: int|
                #![trigger self.series@[i].episodes@[j]]
                0 <= i < self.series@.len() && 0 <= j < self.series@[i].episodes@.len()
                    && *s == self.series@[i] && *e == self.series@[i].episodes@[j]
                    && e.id@ == episode_id@
                    && (forall|k: int| 0 <= k < i ==> !has_episode(#[trigger] self@[k], episode_id@))
                    && (forall|k: int| 0 <= k < j ==> (#[trigger] self.series@[i].episodes@[k]).id@ != episode_id@),
            r is None ==> forall|i: int| 0 <= i < self.series@.len() ==> !has_episode(#[trigger] self@[i], episode_id@),
    {
        let id = str_chars(episode_id);
        let mut i: usize = 0;
        while i < self.series.len()
            invariant
                i <= self.series.len(),
                id@ == episode_id@,
                forall|k: int| 0 <= k < i ==> !has_episode(#[trigger] self@[k], episode_id@),
            decreases self.series.len() - i,
        {
            let series = &self.series[i];
            let mut j: usize = 0;
            while j < series.episodes.len()
                invariant
                    i < self.series.len(),
                    *series == self.series@[i as int],
                    j <= series.episodes.len(),
                    id@ == episode_id@,
                    forall|k: int| 0 <= k < i ==> !has_episode(#[trigger] self@[k], episode_id@),
                    forall|k: int| 0 <= k < j ==> (#[trigger] series.episodes@[k]).id@ != episode_id@,
                decreases series.episodes.len() - j,
            {
                let ep = &series.episodes[j];
                let ep_id = str_chars(ep.id.as_str());
                if crate::text::chars_eq(&ep_id, &id) {
                    assert(self.series@[i as int].episodes@[j as int] == *ep);
                    return Some((series, ep));
                }
                j += 1;
            }
            proof {
                let sv = self@[i as int];
                assert(sv == series@);
                assert forall|k: int| 0 <= k < sv.episodes.len() implies sv.episodes[k].id != episode_id@ by {
                    assert(sv.episodes[k] == series.episodes@[k]@);
                }
            }
            i += 1;
        }
        None
    }

    /// Finds a series by id (the first with that id).
    pub fn find_series(&self, series_id: &str) -> (r: Option<&Series>)
        ensures
            r matches Some(s) ==> exists|i: int|
                0 <= i < self.series@.len() && *s == #[trigger] self.series@[i] && s.id@ == series_id@
                    && forall|k: int| 0 <= k < i ==> (#[trigger] self.series@[k]).id@ != series_id@,
            r is None ==> forall|i: int| 0 <= i < self.series@.len() ==> (#[trigger] self.series@[i]).id@ != series_id@,
    {
        let id = str_chars(series_id);
        let mut i: usize = 0;
        while i < self.series.len()
            invariant
                i <= self.series.len(),
                id@ == series_id@,
                forall|k: int| 0 <= k < i ==> (#[trigger] self.series@[k]).id@ != series_id@,
            decreases self.series.len() - i,
        {
            let sid = str_chars(self.series[i].id.as_str());
            if crate::text::chars_eq(&sid, &id) {
                return Some(&self.series[i]);
            }
            i += 1;
        }
        None
    }
}

/// Position of the first series from `i` on whose id is not below `id`.
pub open spec fn lower_bound(series: Seq<SeriesView>, id: Seq<char>, i: int) -> int
    decreases series.len() - i,
{
    if 0 <= i < series.len() && str_lt(series[i].id, id) {
        lower_bound(series, id, i + 1)
    } else {
        i
    }
}

/// The series after adding `s` as a map from id to series does: replacing
/// the series with its id, or else placed where its id keeps the order.
pub open spec fn insert_spec(series: Seq<SeriesView>, s: SeriesView) -> Seq<SeriesView> {
    let p = lower_bound(series, s.id, 0);
    if p < series.len() && series[p].id == s.id {
        series.update(p, s)
    } else {
        series.insert(p, s)
    }
}

proof fn lemma_lower_bound(series: Seq<SeriesView>, id: Seq<char>, i: int)
    requires
        0 <= i <= series.len(),
    ensures
        i <= lower_bound(series, id, i) <= series.len(),
        forall|k: int| i <= k < lower_bound(series, id, i) ==> str_lt(#[trigger] series[k].id, id),
        lower_bound(series, id, i) < series.len() ==> !str_lt(series[lower_bound(series, id, i)].id, id),
    decreases series.len() - i,
{
    if i < series.len() && str_lt(series[i].id, id) {
        lemma_lower_bound(series, id, i + 1);
    }
}

/// Where the series of the given id stands, or would stand, in ascending
/// order: every series before it has a smaller id, every one from it on a
/// larger or equal one, and only the one there can have the id.
pub proof fn lemma_lower_bound_sorted(series: Seq<SeriesView>, id: Seq<char>)
    requires
        ids_ascending(series),
    ensures
        0 <= lower_bound(series, id, 0) <= series.len(),
        forall|k: int| 0 <= k < lower_bound(series, id, 0) ==> str_lt(#[trigger] series[k].id, id),
        forall|k: int| lower_bound(series, id, 0) < k < series.len() ==> str_lt(id, #[trigger] series[k].id),
        lower_bound(series, id, 0) < series.len() ==> (series[lower_bound(series, id, 0)].id == id
            || str_lt(id, series[lower_bound(series, id, 0)].id)),
{
    lemma_lower_bound(series, id, 0);
    let p = lower_bound(series, id, 0);
    if p < series.len() {
        let q = series[p].id;
        lemma_str_lt_total(q, id);
        assert forall|k: int| p < k < series.len() implies str_lt(id, #[trigger] series[k].id) by {
            assert(str_lt(series[p].id, series[k].id));
            if q != id {
                lemma_str_lt_trans(id, q, series[k].id);
            }
        }
    }
}

/// Adding a series keeps the ids in ascending order.
pub proof fn lemma_insert_keeps_order(series: Seq<SeriesView>, s: SeriesView)
    requires
        ids_ascending(series),
    ensures
        ids_ascending(insert_spec(series, s)),
{
    lemma_lower_bound_sorted(series, s.id);
    let p = lower_bound(series, s.id, 0);
    let r = insert_spec(series, s);
    assert forall|a: int, b: int| 0 <= a < b < r.len() implies str_lt(#[trigger] r[a].id, #[trigger] r[b].id) by {
        if p < series.len() && series[p].id == s.id {
            if a == p {
                assert(str_lt(series[a].id, series[b].id));
            } else if b == p {
                assert(str_lt(series[a].id, series[b].id));
            }
        } else {
            if a < p && b == p {
            } else if a == p && b > p {
                assert(r[b] == series[b - 1]);
                if b - 1 > p {
                } else {
                    lemma_str_lt_total(series[p].id, s.id);
                }
            } else if a < p && b > p {
                assert(r[b] == series[b - 1]);
                assert(str_lt(series[a].id, series[b - 1].id));
            } else if a > p {
                assert(r[a] == series[a - 1] && r[b] == series[b - 1]);
            }
        }
    }
}

/// After adding a series, it is the one series with its id; every other
/// series is kept, and nothing else comes in.
pub proof fn lemma_insert_then_find(series: Seq<SeriesView>, s: SeriesView)
    requires
        ids_ascending(series),
    ensures
        exists|p: int| 0 <= p < insert_spec(series, s).len() && insert_spec(series, s)[p] == s,
        forall|k: int| 0 <= k < insert_spec(series, s).len() && (#[trigger] insert_spec(series, s)[k]).id == s.id ==> insert_spec(series, s)[k] == s,
        forall|k: int| 0 <= k < series.len() && (#[trigger] series[k]).id != s.id ==> insert_spec(series, s).contains(series[k]),
        forall|k: int| 0 <= k < insert_spec(series, s).len() && (#[trigger] insert_spec(series, s)[k]).id != s.id ==> series.contains(insert_spec(series, s)[k]),
{
    lemma_lower_bound_sorted(series, s.id);
    let p = lower_bound(series, s.id, 0);
    let r = insert_spec(series, s);
    assert(r[p] == s);
    assert forall|k: int| 0 <= k < r.len() && (#[trigger] r[k]).id == s.id implies r[k] == s by {
        if k != p {
            if p < series.len() && series[p].id == s.id {
                assert(r[k] == series[k]);
                if k < p {
                    lemma_str_lt_irreflexive(s.id);
                } else {
                    lemma_str_lt_irreflexive(s.id);
                }
            } else if k < p {
                lemma_str_lt_irreflexive(s.id);
            } else {
                assert(r[k] == series[k - 1]);
                lemma_str_lt_irreflexive(s.id);
            }
        }
    }
    assert forall|k: int| 0 <= k < series.len() && (#[trigger] series[k]).id != s.id implies r.contains(series[k]) by {
        if p < series.len() && series[p].id == s.id {
            assert(r[k] == series[k]);
        } else if k < p {
            assert(r[k] == series[k]);
        } else {
            assert(r[k + 1] == series[k]);
        }
    }
    assert forall|k: int| 0 <= k < r.len() && (#[trigger] r[k]).id != s.id implies series.contains(r[k]) by {
        if p < series.len() && series[p].id == s.id {
            assert(r[k] == series[k]);
        } else if k < p {
            assert(r[k] == series[k]);
        } else {
            assert(r[k] == series[k - 1]);
        }
    }
}

impl Library {
    /// Adds a series under its id, replacing a series with the same id
    /// (`BTreeMap::insert`): the ids stay in ascending order.
    pub fn insert(&mut self, series: Series)
        ensures
            final(self)@ == insert_spec(old(self)@, series@),
    {
        let id = str_chars(series.id.as_str());
        let ghost v = self@;
        let mut p: usize = 0;
        while p < self.series.len()
            invariant
                p <= self.series.len(),
                v == self@,
                id@ == series.id@,
                lower_bound(v, id@, 0) == lower_bound(v, id@, p as int),
            ensures
                p <= self.series.len(),
                lower_bound(v, id@, 0) == p,
            decreases self.series.len() - p,
        {
            let k = str_chars(self.series[p].id.as_str());
            assert(v[p as int] == self.series@[p as int]@);
            if !str_lt_exec(&k, &id) {
                break;
            }
            p += 1;
        }
        let same = p < self.series.len() && {
            let k = str_chars(self.series[p].id.as_str());
            chars_eq(&k, &id)
        };
        if same {
            assert(v[p as int] == self.series@[p as int]@);
            let _old = self.series.remove(p);
            self.series.insert(p, series);
            assert(self@ =~= v.update(p as int, series@));
        } else {
            self.series.insert(p, series);
            assert(self@ =~= v.insert(p as int, series@));
        }
    }
}

// ---------------------------------------------------------------------------
// Names of files in series folders
// ---------------------------------------------------------------------------

/// The language names that subtitle file names may carry, each with its code.
pub open spec fn language_aliases() -> Seq<(Seq<char>, Seq<char>)> {
    seq![
        (seq!['e', 'n'], seq!['e', 'n']),
        (seq!['e', 'n', 'g'], seq!['e', 'n']),
        (seq!['e', 'n', 'g', 'l', 'i', 's', 'h'], seq!['e', 'n']),
        (seq!['s', 'v'], seq!['s', 'v']),
        (seq!['s', 'w', 'e'], seq!['s', 'v']),
        (seq!['s', 'w', 'e', 'd', 'i', 's', 'h'], seq!['s', 'v']),
        (seq!['d', 'e'], seq!['d', 'e']),
        (seq!['g', 'e', 'r'], seq!['d', 'e']),
        (seq!['g', 'e', 'r', 'm', 'a', 'n'], seq!['d', 'e']),
        (seq!['d', 'e', 'u'], seq!['d', 'e']),
        (seq!['f', 'r'], seq!['f', 'r']),
        (seq!['f', 'r', 'e'], seq!['f', 'r']),
        (seq!['f', 'r', 'e', 'n', 'c', 'h'], seq!['f', 'r']),
        (seq!['f', 'r', 'a'], seq!['f', 'r']),
        (seq!['e', 's'], seq!['e', 's']),
        (seq!['s', 'p', 'a'], seq!['e', 's']),
        (seq!['s', 'p', 'a', 'n', 'i', 's', 'h'], seq!['e', 's']),
        (seq!['n', 'o'], seq!['n', 'o']),
        (seq!['n', 'o', 'r'], seq!['n', 'o']),
        (seq!['n', 'o', 'r', 'w', 'e', 'g', 'i', 'a', 'n'], seq!['n', 'o']),
        (seq!['d', 'a'], seq!['d', 'a']),
        (seq!['d', 'a', 'n'], seq!['d', 'a']),
        (seq!['d', 'a', 'n', 'i', 's', 'h'], seq!['d', 'a']),
        (seq!['f', 'i'], seq!['f', 'i']),
        (seq!['f', 'i', 'n'], seq!['f', 'i']),
        (seq!['f', 'i', 'n', 'n', 'i', 's', 'h'], seq!['f', 'i']),
    ]
}

fn language_aliases_exec() -> (r: Vec<(Vec<char>, Vec<char>)>)
    ensures
        r@.len() == language_aliases().len(),
        forall|i: int| 0 <= i < r@.len() ==> (#[trigger] r@[i]).0@ == language_aliases()[i].0 && r@[i].1@ == language_aliases()[i].1,
{
    let r = vec![
        (vec!['e', 'n'], vec!['e', 'n']),
        (vec!['e', 'n', 'g'], vec!['e', 'n']),
        (vec!['e', 'n', 'g', 'l', 'i', 's', 'h'], vec!['e', 'n']),
        (vec!['s', 'v'], vec!['s', 'v']),
        (vec!['s', 'w', 'e'], vec!['s', 'v']),
        (vec!['s', 'w', 'e', 'd', 'i', 's', 'h'], vec!['s', 'v']),
        (vec!['d', 'e'], vec!['d', 'e']),
        (vec!['g', 'e', 'r'], vec!['d', 'e']),
        (vec!['g', 'e', 'r', 'm', 'a', 'n'], vec!['d', 'e']),
        (vec!['d', 'e', 'u'], vec!['d', 'e']),
        (vec!['f', 'r'], vec!['f', 'r']),
        (vec!['f', 'r', 'e'], vec!['f', 'r']),
        (vec!['f', 'r', 'e', 'n', 'c', 'h'], vec!['f', 'r']),
        (vec!['f', 'r', 'a'], vec!['f', 'r']),
        (vec!['e', 's'], vec!['e', 's']),
        (vec!['s', 'p', 'a'], vec!['e', 's']),
        (vec!['s', 'p', 'a', 'n', 'i', 's', 'h'], vec!['e', 's']),
        (vec!['n', 'o'], vec!['n', 'o']),
        (vec!['n', 'o', 'r'], vec!['n', 'o']),
        (vec!['n', 'o', 'r', 'w', 'e', 'g', 'i', 'a', 'n'], vec!['n', 'o']),
        (vec!['d', 'a'], vec!['d', 'a']),
        (vec!['d', 'a', 'n'], vec!['d', 'a']),
        (vec!['d', 'a', 'n', 'i', 's', 'h'], vec!['d', 'a']),
        (vec!['f', 'i'], vec!['f', 'i']),
        (vec!['f', 'i', 'n'], vec!['f', 'i']),
        (vec!['f', 'i', 'n', 'n', 'i', 's', 'h'], vec!['f', 'i']),
    ];
    assert(r@.len() == language_aliases().len());
    r
}

/// The extensions of video files, in lowercase.
pub open spec fn video_extensions() -> Seq<Seq<char>> {
    seq![seq!['m', 'p', '4'], seq!['m', '4', 'v'], seq!['m', 'o', 'v'], seq!['m', 'k', 'v'], seq!['a', 'v', 'i'], seq!['w', 'e', 'b', 'm']]
}

fn video_extensions_exec() -> (r: Vec<Vec<char>>)
    ensures
        r.deep_view() == video_extensions(),
{
    let r = vec![vec!['m', 'p', '4'], vec!['m', '4', 'v'], vec!['m', 'o', 'v'], vec!['m', 'k', 'v'], vec!['a', 'v', 'i'], vec!['w', 'e', 'b', 'm']];
    assert(r.deep_view() =~~= video_extensions());
    r
}

/// The file names that series artwork is looked for under, in order of preference.
pub open spec fn art_names() -> Seq<Seq<char>> {
    seq![seq!['.', 'p', 'o', 's', 't', 'e', 'r', '.', 'j', 'p', 'g'], seq!['.', 'p', 'o', 's', 't', 'e', 'r', '.', 'p', 'n', 'g'], seq!['p', 'o', 's', 't', 'e', 'r', '.', 'j', 'p', 'g'], seq!['p', 'o', 's', 't', 'e', 'r', '.', 'p', 'n', 'g'], seq!['f', 'o', 'l', 'd', 'e', 'r', '.', 'j', 'p', 'g'], seq!['f', 'o', 'l', 'd', 'e', 'r', '.', 'p', 'n', 'g'], seq!['c', 'o', 'v', 'e', 'r', '.', 'j', 'p', 'g'], seq!['c', 'o', 'v', 'e', 'r', '.', 'p', 'n', 'g']]
}

/// The file names that a series backdrop is looked for under, in order of preference.
pub open spec fn backdrop_names() -> Seq<Seq<char>> {
    seq![seq!['.', 'b', 'a', 'c', 'k', 'd', 'r', 'o', 'p', '.', 'j', 'p', 'g'], seq!['.', 'b', 'a', 'c', 'k', 'd', 'r', 'o', 'p', '.', 'p', 'n', 'g'], seq!['b', 'a', 'c', 'k', 'd', 'r', 'o', 'p', '.', 'j', 'p', 'g'], seq!['b', 'a', 'c', 'k', 'd', 'r', 'o', 'p', '.', 'p', 'n', 'g'], seq!['f', 'a', 'n', 'a', 'r', 't', '.', 'j', 'p', 'g'], seq!['f', 'a', 'n', 'a', 'r', 't', '.', 'p', 'n', 'g']]
}

pub(crate) fn art_names_exec() -> (r: Vec<Vec<char>>)
    ensures
        r.deep_view() == art_names(),
{
    let r = vec![vec!['.', 'p', 'o', 's', 't', 'e', 'r', '.', 'j', 'p', 'g'], vec!['.', 'p', 'o', 's', 't', 'e', 'r', '.', 'p', 'n', 'g'], vec!['p', 'o', 's', 't', 'e', 'r', '.', 'j', 'p', 'g'], vec!['p', 'o', 's', 't', 'e', 'r', '.', 'p', 'n', 'g'], vec!['f', 'o', 'l', 'd', 'e', 'r', '.', 'j', 'p', 'g'], vec!['f', 'o', 'l', 'd', 'e', 'r', '.', 'p', 'n', 'g'], vec!['c', 'o', 'v', 'e', 'r', '.', 'j', 'p', 'g'], vec!['c', 'o', 'v', 'e', 'r', '.', 'p', 'n', 'g']];
    assert(r.deep_view() =~~= art_names());
    r
}

pub(crate) fn backdrop_names_exec() -> (r: Vec<Vec<char>>)
    ensures
        r.deep_view() == backdrop_names(),
{
    let r = vec![vec!['.', 'b', 'a', 'c', 'k', 'd', 'r', 'o', 'p', '.', 'j', 'p', 'g'], vec!['.', 'b', 'a', 'c', 'k', 'd', 'r', 'o', 'p', '.', 'p', 'n', 'g'], vec!['b', 'a', 'c', 'k', 'd', 'r', 'o', 'p', '.', 'j', 'p', 'g'], vec!['b', 'a', 'c', 'k', 'd', 'r', 'o', 'p', '.', 'p', 'n', 'g'], vec!['f', 'a', 'n', 'a', 'r', 't', '.', 'j', 'p', 'g'], vec!['f', 'a', 'n', 'a', 'r', 't', '.', 'p', 'n', 'g']];
    assert(r.deep_view() =~~= backdrop_names());
    r
}


/// The code of a subtitle language name, by [`language_aliases`] from
/// position `i` on.
pub open spec fn alias_code(l: Seq<char>, i: int) -> Option<Seq<char>>
    decreases language_aliases().len() - i,
{
    if i < 0 || i >= language_aliases().len() {
        None
    } else if language_aliases()[i].0 == l {
        Some(language_aliases()[i].1)
    } else {
        alias_code(l, i + 1)
    }
}

/// Every name of a known subtitle language, lowercased, reads as that
/// language's two-letter ISO 639-1 code: `en`, `eng`, `english` as `en`;
/// `sv`, `swe`, `swedish` as `sv`; `de`, `ger`, `german`, `deu` as `de`;
/// `fr`, `fre`, `french`, `fra` as `fr`; `es`, `spa`, `spanish` as `es`;
/// `no`, `nor`, `norwegian` as `no`; `da`, `dan`, `danish` as `da`; `fi`,
/// `fin`, `finnish` as `fi`.
pub proof fn lemma_language_codes(l: Seq<char>)
    ensures
        seq![seq!['e', 'n'], seq!['e', 'n', 'g'], seq!['e', 'n', 'g', 'l', 'i', 's', 'h']].contains(l) ==> alias_code(l, 0) == Some(seq!['e', 'n']),
        seq![seq!['s', 'v'], seq!['s', 'w', 'e'], seq!['s', 'w', 'e', 'd', 'i', 's', 'h']].contains(l) ==> alias_code(l, 0) == Some(seq!['s', 'v']),
        seq![seq!['d', 'e'], seq!['g', 'e', 'r'], seq!['g', 'e', 'r', 'm', 'a', 'n'], seq!['d', 'e', 'u']].contains(l) ==> alias_code(l, 0) == Some(seq!['d', 'e']),
        seq![seq!['f', 'r'], seq!['f', 'r', 'e'], seq!['f', 'r', 'e', 'n', 'c', 'h'], seq!['f', 'r', 'a']].contains(l) ==> alias_code(l, 0) == Some(seq!['f', 'r']),
        seq![seq!['e', 's'], seq!['s', 'p', 'a'], seq!['s', 'p', 'a', 'n', 'i', 's', 'h']].contains(l) ==> alias_code(l, 0) == Some(seq!['e', 's']),
        seq![seq!['n', 'o'], seq!['n', 'o', 'r'], seq!['n', 'o', 'r', 'w', 'e', 'g', 'i', 'a', 'n']].contains(l) ==> alias_code(l, 0) == Some(seq!['n', 'o']),
        seq![seq!['d', 'a'], seq!['d', 'a', 'n'], seq!['d', 'a', 'n', 'i', 's', 'h']].contains(l) ==> alias_code(l, 0) == Some(seq!['d', 'a']),
        seq![seq!['f', 'i'], seq!['f', 'i', 'n'], seq!['f', 'i', 'n', 'n', 'i', 's', 'h']].contains(l) ==> alias_code(l, 0) == Some(seq!['f', 'i']),
{
    reveal_with_fuel(alias_code, 27);
    assert(alias_code(seq!['e', 'n'], 0) == Some(seq!['e', 'n']));
    assert(alias_code(seq!['e', 'n', 'g'], 0) == Some(seq!['e', 'n']));
    assert(alias_code(seq!['e', 'n', 'g', 'l', 'i', 's', 'h'], 0) == Some(seq!['e', 'n']));
    if seq![seq!['e', 'n'], seq!['e', 'n', 'g'], seq!['e', 'n', 'g', 'l', 'i', 's', 'h']].contains(l) {
        let k = choose|k: int| 0 <= k < 3 && seq![seq!['e', 'n'], seq!['e', 'n', 'g'], seq!['e', 'n', 'g', 'l', 'i', 's', 'h']][k] == l;
        assert(seq![seq!['e', 'n'], seq!['e', 'n', 'g'], seq!['e', 'n', 'g', 'l', 'i', 's', 'h']][k] == l);
    }
    assert(alias_code(seq!['s', 'v'], 0) == Some(seq!['s', 'v']));
    assert(alias_code(seq!['s', 'w', 'e'], 0) == Some(seq!['s', 'v']));
    assert(alias_code(seq!['s', 'w', 'e', 'd', 'i', 's', 'h'], 0) == Some(seq!['s', 'v']));
    if seq![seq!['s', 'v'], seq!['s', 'w', 'e'], seq!['s', 'w', 'e', 'd', 'i', 's', 'h']].contains(l) {
        let k = choose|k: int| 0 <= k < 3 && seq![seq!['s', 'v'], seq!['s', 'w', 'e'], seq!['s', 'w', 'e', 'd', 'i', 's', 'h']][k] == l;
        assert(seq![seq!['s', 'v'], seq!['s', 'w', 'e'], seq!['s', 'w', 'e', 'd', 'i', 's', 'h']][k] == l);
    }
    assert(alias_code(seq!['d', 'e'], 0) == Some(seq!['d', 'e']));
    assert(alias_code(seq!['g', 'e', 'r'], 0) == Some(seq!['d', 'e']));
    assert(alias_code(seq!['g', 'e', 'r', 'm', 'a', 'n'], 0) == Some(seq!['d', 'e']));
    assert(alias_code(seq!['d', 'e', 'u'], 0) == Some(seq!['d', 'e']));
    if seq![seq!['d', 'e'], seq!['g', 'e', 'r'], seq!['g', 'e', 'r', 'm', 'a', 'n'], seq!['d', 'e', 'u']].contains(l) {
        let k = choose|k: int| 0 <= k < 4 && seq![seq!['d', 'e'], seq!['g', 'e', 'r'], seq!['g', 'e', 'r', 'm', 'a', 'n'], seq!['d', 'e', 'u']][k] == l;
        assert(seq![seq!['d', 'e'], seq!['g', 'e', 'r'], seq!['g', 'e', 'r', 'm', 'a', 'n'], seq!['d', 'e', 'u']][k] == l);
    }
    assert(alias_code(seq!['f', 'r'], 0) == Some(seq!['f', 'r']));
    assert(alias_code(seq!['f', 'r', 'e'], 0) == Some(seq!['f', 'r']));
    assert(alias_code(seq!['f', 'r', 'e', 'n', 'c', 'h'], 0) == Some(seq!['f', 'r']));
    assert(alias_code(seq!['f', 'r', 'a'], 0) == Some(seq!['f', 'r']));
    if seq![seq!['f', 'r'], seq!['f', 'r', 'e'], seq!['f', 'r', 'e', 'n', 'c', 'h'], seq!['f', 'r', 'a']].contains(l) {
        let k = choose|k: int| 0 <= k < 4 && seq![seq!['f', 'r'], seq!['f', 'r', 'e'], seq!['f', 'r', 'e', 'n', 'c', 'h'], seq!['f', 'r', 'a']][k] == l;
        assert(seq![seq!['f', 'r'], seq!['f', 'r', 'e'], seq!['f', 'r', 'e', 'n', 'c', 'h'], seq!['f', 'r', 'a']][k] == l);
    }
    assert(alias_code(seq!['e', 's'], 0) == Some(seq!['e', 's']));
    assert(alias_code(seq!['s', 'p', 'a'], 0) == Some(seq!['e', 's']));
    assert(alias_code(seq!['s', 'p', 'a', 'n', 'i', 's', 'h'], 0) == Some(seq!['e', 's']));
    if seq![seq!['e', 's'], seq!['s', 'p', 'a'], seq!['s', 'p', 'a', 'n', 'i', 's', 'h']].contains(l) {
        let k = choose|k: int| 0 <= k < 3 && seq![seq!['e', 's'], seq!['s', 'p', 'a'], seq!['s', 'p', 'a', 'n', 'i', 's', 'h']][k] == l;
        assert(seq![seq!['e', 's'], seq!['s', 'p', 'a'], seq!['s', 'p', 'a', 'n', 'i', 's', 'h']][k] == l);
    }
    assert(alias_code(seq!['n', 'o'], 0) == Some(seq!['n', 'o']));
    assert(alias_code(seq!['n', 'o', 'r'], 0) == Some(seq!['n', 'o']));
    assert(alias_code(seq!['n', 'o', 'r', 'w', 'e', 'g', 'i', 'a', 'n'], 0) == Some(seq!['n', 'o']));
    if seq![seq!['n', 'o'], seq!['n', 'o', 'r'], seq!['n', 'o', 'r', 'w', 'e', 'g', 'i', 'a', 'n']].contains(l) {
        let k = choose|k: int| 0 <= k < 3 && seq![seq!['n', 'o'], seq!['n', 'o', 'r'], seq!['n', 'o', 'r', 'w', 'e', 'g', 'i', 'a', 'n']][k] == l;
        assert(seq![seq!['n', 'o'], seq!['n', 'o', 'r'], seq!['n', 'o', 'r', 'w', 'e', 'g', 'i', 'a', 'n']][k] == l);
    }
    assert(alias_code(seq!['d', 'a'], 0) == Some(seq!['d', 'a']));
    assert(alias_code(seq!['d', 'a', 'n'], 0) == Some(seq!['d', 'a']));
    assert(alias_code(seq!['d', 'a', 'n', 'i', 's', 'h'], 0) == Some(seq!['d', 'a']));
    if seq![seq!['d', 'a'], seq!['d', 'a', 'n'], seq!['d', 'a', 'n', 'i', 's', 'h']].contains(l) {
        let k = choose|k: int| 0 <= k < 3 && seq![seq!['d', 'a'], seq!['d', 'a', 'n'], seq!['d', 'a', 'n', 'i', 's', 'h']][k] == l;
        assert(seq![seq!['d', 'a'], seq!['d', 'a', 'n'], seq!['d', 'a', 'n', 'i', 's', 'h']][k] == l);
    }
    assert(alias_code(seq!['f', 'i'], 0) == Some(seq!['f', 'i']));
    assert(alias_code(seq!['f', 'i', 'n'], 0) == Some(seq!['f', 'i']));
    assert(alias_code(seq!['f', 'i', 'n', 'n', 'i', 's', 'h'], 0) == Some(seq!['f', 'i']));
    if seq![seq!['f', 'i'], seq!['f', 'i', 'n'], seq!['f', 'i', 'n', 'n', 'i', 's', 'h']].contains(l) {
        let k = choose|k: int| 0 <= k < 3 && seq![seq!['f', 'i'], seq!['f', 'i', 'n'], seq!['f', 'i', 'n', 'n', 'i', 's', 'h']][k] == l;
        assert(seq![seq!['f', 'i'], seq!['f', 'i', 'n'], seq!['f', 'i', 'n', 'n', 'i', 's', 'h']][k] == l);
    }
}

/// A subtitle language name as a code: the known names of English, Swedish,
/// German, French, Spanish, Norwegian, Danish and Finnish (in any case)
/// give their two-letter code; any other name is lowercased.
pub open spec fn normalize_language_spec(lang: Seq<char>) -> Seq<char> {
    let l = unicode_lowercase(lang);
    match alias_code(l, 0) {
        Some(code) => code,
        None => unicode_lowercase(l),
    }
}

/// Lowering ASCII text gives ASCII text, and lowering it again changes
/// nothing.
proof fn lemma_ascii_lowercase_stays(s: Seq<char>)
    requires
        all_ascii(s),
    ensures
        all_ascii(ascii_lowercase(s)),
        ascii_lowercase(ascii_lowercase(s)) == ascii_lowercase(s),
{
    let t = ascii_lowercase(s);
    assert forall|k: int| 0 <= k < t.len() implies ((#[trigger] t[k]) as u32) < 128 by {
        assert(t[k] == crate::text::ascii_lower(s[k]));
        assert((s[k] as u32) < 128);
    }
    assert(ascii_lowercase(t) =~= t);
}

pub fn normalize_language(lang: &str) -> (r: String)
    ensures
        r@ == normalize_language_spec(lang@),
        all_ascii(lang@) ==> r@ == (match alias_code(ascii_lowercase(lang@), 0) {
            Some(code) => code,
            None => ascii_lowercase(lang@),
        }),
        all_ascii(lang@) && seq![seq!['e', 'n'], seq!['e', 'n', 'g'], seq!['e', 'n', 'g', 'l', 'i', 's', 'h']].contains(ascii_lowercase(lang@)) ==> r@ == seq!['e', 'n'],
        all_ascii(lang@) && seq![seq!['s', 'v'], seq!['s', 'w', 'e'], seq!['s', 'w', 'e', 'd', 'i', 's', 'h']].contains(ascii_lowercase(lang@)) ==> r@ == seq!['s', 'v'],
        all_ascii(lang@) && seq![seq!['d', 'e'], seq!['g', 'e', 'r'], seq!['g', 'e', 'r', 'm', 'a', 'n'], seq!['d', 'e', 'u']].contains(ascii_lowercase(lang@)) ==> r@ == seq!['d', 'e'],
        all_ascii(lang@) && seq![seq!['f', 'r'], seq!['f', 'r', 'e'], seq!['f', 'r', 'e', 'n', 'c', 'h'], seq!['f', 'r', 'a']].contains(ascii_lowercase(lang@)) ==> r@ == seq!['f', 'r'],
        all_ascii(lang@) && seq![seq!['e', 's'], seq!['s', 'p', 'a'], seq!['s', 'p', 'a', 'n', 'i', 's', 'h']].contains(ascii_lowercase(lang@)) ==> r@ == seq!['e', 's'],
        all_ascii(lang@) && seq![seq!['n', 'o'], seq!['n', 'o', 'r'], seq!['n', 'o', 'r', 'w', 'e', 'g', 'i', 'a', 'n']].contains(ascii_lowercase(lang@)) ==> r@ == seq!['n', 'o'],
        all_ascii(lang@) && seq![seq!['d', 'a'], seq!['d', 'a', 'n'], seq!['d', 'a', 'n', 'i', 's', 'h']].contains(ascii_lowercase(lang@)) ==> r@ == seq!['d', 'a'],
        all_ascii(lang@) && seq![seq!['f', 'i'], seq!['f', 'i', 'n'], seq!['f', 'i', 'n', 'n', 'i', 's', 'h']].contains(ascii_lowercase(lang@)) ==> r@ == seq!['f', 'i'],
{
    let lower = to_lowercase(lang);
    let l = str_chars(lower.as_str());
    proof {
        lemma_language_codes(l@);
        if all_ascii(lang@) {
            lemma_ascii_lowercase_stays(lang@);
        }
    }
    let table = language_aliases_exec();
    let mut i: usize = 0;
    while i < table.len()
        invariant
            i <= table.len(),
            table@.len() == language_aliases().len(),
            forall|k: int| 0 <= k < table@.len() ==> (#[trigger] table@[k]).0@ == language_aliases()[k].0 && table@[k].1@ == language_aliases()[k].1,
            l@ == unicode_lowercase(lang@),
            alias_code(l@, 0) == alias_code(l@, i as int),
            all_ascii(lang@) ==> l@ == ascii_lowercase(lang@),
        decreases table.len() - i,
    {
        if crate::text::chars_eq(&table[i].0, &l) {
            proof {
                lemma_language_codes(l@);
            }
            return string_of(&table[i].1);
        }
        i += 1;
    }
    to_lowercase(lower.as_str())
}

/// Whether a lowercased extension is in `exts` from position `i` on.
pub open spec fn in_list(e: Seq<char>, exts: Seq<Seq<char>>) -> bool {
    exists|i: int| 0 <= i < exts.len() && exts[i] == e
}

/// Whether a path names a video file: its extension, lowercased, is one of
/// [`video_extensions`].
pub open spec fn is_video_spec(path: Seq<char>) -> bool {
    match extension(path) {
        Some(e) => in_list(unicode_lowercase(e), video_extensions()),
        None => false,
    }
}

fn in_list_exec(e: &Vec<char>, exts: &Vec<Vec<char>>) -> (r: bool)
    ensures
        r == in_list(e@, exts.deep_view()),
{
    let mut i: usize = 0;
    while i < exts.len()
        invariant
            i <= exts.len(),
            forall|k: int| 0 <= k < i ==> exts.deep_view()[k] != e@,
        decreases exts.len() - i,
    {
        if crate::text::chars_eq(&exts[i], e) {
            assert(exts.deep_view()[i as int] == exts@[i as int]@);
            return true;
        }
        assert(exts.deep_view()[i as int] == exts@[i as int]@);
        i += 1;
    }
    false
}

/// Whether the extension of `path`, lowercased, is one of `exts`.
pub(crate) fn has_extension_in(path: &str, exts: &Vec<Vec<char>>) -> (r: bool)
    requires
        path@.len() < isize::MAX,
    ensures
        r == match extension(path@) {
            Some(e) => in_list(unicode_lowercase(e), exts.deep_view()),
            None => false,
        },
        match extension(path@) {
            Some(e) => all_ascii(e) ==> r == in_list(ascii_lowercase(e), exts.deep_view()),
            None => true,
        },
{
    let v = str_chars(path);
    match extension_exec(&v) {
        Some(e) => {
            let es = string_of(&e);
            let lower = to_lowercase(es.as_str());
            let l = str_chars(lower.as_str());
            in_list_exec(&l, exts)
        },
        None => false,
    }
}

/// Whether a path names a video file (mp4, m4v, mov, mkv, avi, webm, in any case).
pub fn is_video(path: &str) -> (r: bool)
    requires
        path@.len() < isize::MAX,
    ensures
        r == is_video_spec(path@),
        match extension(path@) {
            Some(e) => all_ascii(e) ==> r == in_list(ascii_lowercase(e), video_extensions()),
            None => true,
        },
{
    let exts = video_extensions_exec();
    has_extension_in(path, &exts)
}

// ---------------------------------------------------------------------------
// Stable ids
// ---------------------------------------------------------------------------

/// The UUID namespace that ids are derived in.
pub open spec fn id_namespace() -> Seq<u8> {
    seq![0x6bu8, 0xa7, 0xb8, 0x10, 0x9d, 0xad, 0x11, 0xd1, 0x80, 0xb4, 0x00, 0xc0, 0x4f, 0xd4, 0x30, 0xc8]
}

/// The hyphenated lowercase text of the version-5 UUID of `name` in
/// `namespace`, as `uuid::Uuid::new_v5(..).to_string()` gives it.
pub uninterp spec fn uuid_v5_text(namespace: Seq<u8>, name: Seq<u8>) -> Seq<char>;

pub open spec fn is_lower_hex(c: char) -> bool {
    ('0' <= c && c <= '9') || ('a' <= c && c <= 'f')
}

/// `uuid::Uuid::new_v5` followed by `to_string`. Claimed: the result is the
/// named text of that UUID, and it has the documented hyphenated shape: 36
/// characters, `-` at positions 8, 13, 18 and 23, lowercase hexadecimal digits
/// elsewhere.
#[verifier::external_body]
fn uuid_v5_hyphenated(namespace: &[u8; 16], name: &[u8]) -> (r: String)
    ensures
        r@ == uuid_v5_text(namespace@, name@),
        r@.len() == 36,
        forall|k: int|
            0 <= k < 36 ==> if k == 8 || k == 13 || k == 18 || k == 23 {
                #[trigger] r@[k] == '-'
            } else {
                is_lower_hex(r@[k])
            },
{
    uuid::Uuid::new_v5(&uuid::Uuid::from_bytes(*namespace), name).to_string()
}

/// `s` without its `-` characters.
pub open spec fn drop_dashes(s: Seq<char>) -> Seq<char>
    decreases s.len(),
{
    if s.len() == 0 {
        s
    } else if s.last() == '-' {
        drop_dashes(s.drop_last())
    } else {
        drop_dashes(s.drop_last()).push(s.last())
    }
}

/// The id of a relative path: the first 12 hexadecimal digits of the
/// version-5 UUID of its UTF-8 bytes.
pub open spec fn stable_id_spec(path: Seq<char>) -> Seq<char> {
    drop_dashes(uuid_v5_text(id_namespace(), encode_utf8(path))).take(12)
}

proof fn lemma_drop_dashes_prefix(s: Seq<char>, k: int)
    requires
        0 <= k <= s.len(),
    ensures
        drop_dashes(s.take(k)).len() <= drop_dashes(s).len(),
        drop_dashes(s) .take(drop_dashes(s.take(k)).len() as int) == drop_dashes(s.take(k)),
    decreases s.len() - k,
{
    if k < s.len() {
        lemma_drop_dashes_prefix(s, k + 1);
        assert(s.take(k + 1).drop_last() =~= s.take(k));
        assert(s.take(k + 1).last() == s[k]);
        let a = drop_dashes(s.take(k));
        let b = drop_dashes(s.take(k + 1));
        let c = drop_dashes(s);
        if s[k] != '-' {
            assert(b == a.push(s[k]));
            assert(c.take(a.len() as int) =~= b.take(a.len() as int));
            assert(b.take(a.len() as int) =~= a);
        }
    } else {
        assert(s.take(k) =~= s);
        assert(drop_dashes(s).take(drop_dashes(s).len() as int) =~= drop_dashes(s));
    }
}

/// The id made of a UUID's text: its first 12 characters other than `-`
/// (`replace('-', "")[..12]`, on ASCII text).
pub fn id_from_uuid_text(text: &str) -> (r: String)
    requires
        forall|k: int| 0 <= k < text@.len() ==> ((#[trigger] text@[k]) as u32) < 128,
        drop_dashes(text@).len() >= 12,
    ensures
        r@ == drop_dashes(text@).take(12),
{
    let t = str_chars(text);
    let mut out: Vec<char> = Vec::new();
    let mut i: usize = 0;
    while i < t.len()
        invariant
            i <= t.len(),
            out@ == drop_dashes(t@.take(i as int)),
        decreases t.len() - i,
    {
        assert(t@.take(i + 1).drop_last() =~= t@.take(i as int));
        if t[i] != '-' {
            out.push(t[i]);
        }
        i += 1;
    }
    assert(t@.take(t.len() as int) =~= t@);
    let mut r: Vec<char> = Vec::new();
    let mut k: usize = 0;
    while k < 12
        invariant
            k <= 12 <= out@.len(),
            r@ == out@.take(k as int),
        decreases 12 - k,
    {
        r.push(out[k]);
        assert(out@.take(k + 1) =~= out@.take(k as int).push(out@[k as int]));
        k += 1;
    }
    string_of(&r)
}

/// A stable id for a relative path.
pub fn stable_id(path: &str) -> (r: String)
    ensures
        r@ == stable_id_spec(path@),
        r@.len() == 12,
        forall|k: int| 0 <= k < 12 ==> is_lower_hex(#[trigger] r@[k]),
{
    let ns: [u8; 16] = [0x6b, 0xa7, 0xb8, 0x10, 0x9d, 0xad, 0x11, 0xd1, 0x80, 0xb4, 0x00, 0xc0, 0x4f, 0xd4, 0x30, 0xc8];
    assert(ns@ =~= id_namespace());
    let text = uuid_v5_hyphenated(&ns, path.as_bytes());
    let ghost t = text@;
    proof {
        // the first 13 characters hold exactly one dash
        assert forall|k: int| 0 <= k <= 13 implies #[trigger] drop_dashes(t.take(k)).len() == if k <= 8 { k } else { k - 1 } by {
            lemma_count_upto(t, k);
        }
        lemma_drop_dashes_prefix(t, 13);
        assert forall|j: int| 0 <= j < t.len() implies #[trigger] t[j] == '-' || is_lower_hex(t[j]) by {
            if j == 8 || j == 13 || j == 18 || j == 23 {
            }
        }
        assert forall|j: int| 0 <= j < t.len() implies ((#[trigger] t[j]) as u32) < 128 by {
            assert(t[j] == '-' || is_lower_hex(t[j]));
        }
        lemma_drop_dashes_hex(t);
    }
    let r = id_from_uuid_text(text.as_str());
    assert forall|k: int| 0 <= k < 12 implies is_lower_hex(#[trigger] r@[k]) by {
        assert(r@[k] == drop_dashes(t)[k]);
    }
    r
}

proof fn lemma_drop_dashes_hex(t: Seq<char>)
    requires
        forall|j: int| 0 <= j < t.len() ==> #[trigger] t[j] == '-' || is_lower_hex(t[j]),
    ensures
        forall|j: int| 0 <= j < drop_dashes(t).len() ==> is_lower_hex(#[trigger] drop_dashes(t)[j]),
    decreases t.len(),
{
    if t.len() > 0 {
        let u = t.drop_last();
        assert forall|j: int| 0 <= j < u.len() implies #[trigger] u[j] == '-' || is_lower_hex(u[j]) by {
            assert(u[j] == t[j]);
        }
        lemma_drop_dashes_hex(u);
        assert(t.last() == t[t.len() - 1]);
        let d = drop_dashes(u);
        if t.last() != '-' {
            assert forall|j: int| 0 <= j < d.push(t.last()).len() implies is_lower_hex(#[trigger] d.push(t.last())[j]) by {
                if j < d.len() {
                    assert(d.push(t.last())[j] == d[j]);
                }
            }
        }
    }
}

proof fn lemma_count_upto(t: Seq<char>, k: int)
    requires
        0 <= k <= 13,
        t.len() == 36,
        forall|j: int|
            0 <= j < 36 ==> if j == 8 || j == 13 || j == 18 || j == 23 {
                #[trigger] t[j] == '-'
            } else {
                is_lower_hex(t[j])
            },
    ensures
        drop_dashes(t.take(k)).len() == if k <= 8 { k } else { k - 1 },
    decreases k,
{
    if k > 0 {
        lemma_count_upto(t, k - 1);
        assert(t.take(k).drop_last() =~= t.take(k - 1));
        assert(t.take(k).last() == t[k - 1]);
        if k - 1 != 8 {
            assert(is_lower_hex(t[k - 1]));
        }
    }
}

} // verus!
