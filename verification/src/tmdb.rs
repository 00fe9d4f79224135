//! Preparing series folder names and image addresses for the TMDB catalogue.
use vstd::prelude::*;
use crate::text::{
    trim, trim_vec, dots_to_spaces, dots_to_spaces_exec, str_chars, string_of, ascii_lower,
    ascii_lower_exec,
};
use crate::patterns::{SearchPattern, replace_all, replace_all_exec};
use crate::library::{Series, SeriesView, opt_view};

verus! {

/// A folder name made into a search query: `.` and `_` become spaces;
/// `(2008)`, `[2020]`, resolutions, sources, encodings, `S01` tags and bare
/// four-digit years are removed (in that order); runs of two or more
/// whitespace characters become one space; the result is trimmed.
pub open spec fn clean_search_query_spec(folder_name: Seq<char>) -> Seq<char> {
    let s = dots_to_spaces(folder_name);
    let s = replace_all(SearchPattern::YearParen, s, Seq::empty());
    let s = replace_all(SearchPattern::YearBracket, s, Seq::empty());
    let s = replace_all(SearchPattern::Resolution, s, Seq::empty());
    let s = replace_all(SearchPattern::Source, s, Seq::empty());
    let s = replace_all(SearchPattern::Encoding, s, Seq::empty());
    let s = replace_all(SearchPattern::SeasonTag, s, Seq::empty());
    let s = replace_all(SearchPattern::YearBare, s, Seq::empty());
    let s = replace_all(SearchPattern::MultiSpace, s, seq![' ']);
    trim(s)
}

/// Clean a series folder name for TMDB search by removing year patterns,
/// resolution/source/encoding tags, and normalizing separators.
pub fn clean_search_query(folder_name: &str) -> (r: String)
    ensures
        r@ == clean_search_query_spec(folder_name@),
{
    let v = str_chars(folder_name);
    let s = dots_to_spaces_exec(&v);
    let empty: Vec<char> = Vec::new();
    let s = replace_all_exec(SearchPattern::YearParen, &s, &empty);
    let s = replace_all_exec(SearchPattern::YearBracket, &s, &empty);
    let s = replace_all_exec(SearchPattern::Resolution, &s, &empty);
    let s = replace_all_exec(SearchPattern::Source, &s, &empty);
    let s = replace_all_exec(SearchPattern::Encoding, &s, &empty);
    let s = replace_all_exec(SearchPattern::SeasonTag, &s, &empty);
    let s = replace_all_exec(SearchPattern::YearBare, &s, &empty);
    let space = vec![' '];
    let s = replace_all_exec(SearchPattern::MultiSpace, &s, &space);
    assert(empty@ =~= Seq::<char>::empty());
    assert(space@ =~= seq![' ']);
    let s = trim_vec(&s);
    string_of(&s)
}

/// A search query never starts or ends with white space.
pub proof fn lemma_query_trimmed(folder_name: Seq<char>)
    ensures
        clean_search_query_spec(folder_name).len() > 0 ==> !crate::unicode::is_space(clean_search_query_spec(folder_name)[0])
            && !crate::unicode::is_space(clean_search_query_spec(folder_name).last()),
{
    let s = dots_to_spaces(folder_name);
    let s = replace_all(SearchPattern::YearParen, s, Seq::empty());
    let s = replace_all(SearchPattern::YearBracket, s, Seq::empty());
    let s = replace_all(SearchPattern::Resolution, s, Seq::empty());
    let s = replace_all(SearchPattern::Source, s, Seq::empty());
    let s = replace_all(SearchPattern::Encoding, s, Seq::empty());
    let s = replace_all(SearchPattern::SeasonTag, s, Seq::empty());
    let s = replace_all(SearchPattern::YearBare, s, Seq::empty());
    let s = replace_all(SearchPattern::MultiSpace, s, seq![' ']);
    crate::text::lemma_trim(s);
}

/// The part of a URL before its first `?` or `#`.
pub open spec fn url_path_len(url: Seq<char>) -> int
    decreases url.len(),
{
    if url.len() == 0 {
        0
    } else {
        let k = url_path_len(url.drop_last());
        if k < url.len() - 1 {
            k
        } else if url.last() == '?' || url.last() == '#' {
            url.len() - 1
        } else {
            url.len() as int
        }
    }
}

/// Whether the part of `url` before `?`/`#` ends with `.png`, ignoring ASCII case.
pub open spec fn is_png_url(url: Seq<char>) -> bool {
    let path = url.subrange(0, url_path_len(url));
    path.len() >= 4 && ascii_lower(path[path.len() - 4]) == '.' && ascii_lower(path[path.len() - 3])
        == 'p' && ascii_lower(path[path.len() - 2]) == 'n' && ascii_lower(path[path.len() - 1])
        == 'g'
}

/// Extract the file extension from an image URL, ignoring query strings and fragments.
/// Defaults to "jpg" if no recognised extension is found.
pub fn image_extension(url: &str) -> (r: &'static str)
    ensures
        is_png_url(url@) ==> r@ == "png"@,
        !is_png_url(url@) ==> r@ == "jpg"@,
{
    let v = str_chars(url);
    let mut k: usize = 0;
    while k < v.len() && v[k] != '?' && v[k] != '#'
        invariant
            k <= v.len(),
            forall|j: int| 0 <= j < k ==> v@[j] != '?' && v@[j] != '#',
        decreases v.len() - k,
    {
        k += 1;
    }
    proof {
        lemma_url_path_len(v@, k as int);
    }
    let png = k >= 4 && ascii_lower_exec(v[k - 4]) == '.' && ascii_lower_exec(v[k - 3]) == 'p'
        && ascii_lower_exec(v[k - 2]) == 'n' && ascii_lower_exec(v[k - 1]) == 'g';
    if png {
        "png"
    } else {
        "jpg"
    }
}

proof fn lemma_url_path_len(url: Seq<char>, k: int)
    requires
        0 <= k <= url.len(),
        forall|j: int| 0 <= j < k ==> url[j] != '?' && url[j] != '#',
        k == url.len() || url[k] == '?' || url[k] == '#',
    ensures
        url_path_len(url) == k,
    decreases url.len(),
{
    if url.len() > 0 {
        let d = url.drop_last();
        if k < url.len() {
            if k < d.len() {
                lemma_url_path_len(d, k);
            } else {
                lemma_url_path_len_all(d);
            }
        } else {
            lemma_url_path_len_all(d);
        }
    }
}

proof fn lemma_url_path_len_all(url: Seq<char>)
    requires
        forall|j: int| 0 <= j < url.len() ==> url[j] != '?' && url[j] != '#',
    ensures
        url_path_len(url) == url.len(),
    decreases url.len(),
{
    if url.len() > 0 {
        lemma_url_path_len_all(url.drop_last());
    }
}

// ---------------------------------------------------------------------------
// What TMDB answers, made into results
// ---------------------------------------------------------------------------

/// The address of a TMDB image of the given size (`w500`, ...) and path.
pub open spec fn image_url_spec(size: Seq<char>, path: Seq<char>) -> Seq<char> {
    seq!['h', 't', 't', 'p', 's', ':', '/', '/', 'i', 'm', 'a', 'g', 'e', '.', 't', 'm', 'd', 'b', '.', 'o', 'r', 'g', '/', 't', '/', 'p', '/'] + size + path
}

pub fn image_url(size: &str, path: &str) -> (r: String)
    ensures
        r@ == image_url_spec(size@, path@),
{
    let mut v = vec!['h', 't', 't', 'p', 's', ':', '/', '/', 'i', 'm', 'a', 'g', 'e', '.', 't', 'm', 'd', 'b', '.', 'o', 'r', 'g', '/', 't', '/', 'p', '/'];
    crate::text::append_chars(&mut v, &str_chars(size));
    crate::text::append_chars(&mut v, &str_chars(path));
    string_of(&v)
}

pub open spec fn opt_image_url(size: Seq<char>, path: Option<Seq<char>>) -> Option<Seq<char>> {
    match path {
        Some(p) => Some(image_url_spec(size, p)),
        None => None,
    }
}

fn opt_image_url_exec(size: &str, path: &Option<String>) -> (r: Option<String>)
    ensures
        opt_view(r) == opt_image_url(size@, opt_view(*path)),
{
    match path {
        Some(p) => Some(image_url(size, p.as_str())),
        None => None,
    }
}

fn copy_string(s: &String) -> (r: String)
    ensures
        r@ == s@,
{
    let v = str_chars(s.as_str());
    string_of(&v)
}

fn copy_opt(s: &Option<String>) -> (r: Option<String>)
    ensures
        opt_view(r) == opt_view(*s),
{
    match s {
        Some(t) => Some(copy_string(t)),
        None => None,
    }
}

/// An episode as a TMDB season lists it.
pub struct TmdbEpisodeRecord {
    pub id: u64,
    pub episode_number: u32,
    pub name: Option<String>,
    pub overview: Option<String>,
    pub air_date: Option<String>,
    pub runtime: Option<u32>,
    pub still_path: Option<String>,
}

/// An episode of a TMDB season.
pub struct EpisodeInfo {
    pub tmdb_episode_id: u64,
    pub season_number: u32,
    pub episode_number: u32,
    pub title: Option<String>,
    pub overview: Option<String>,
    pub air_date: Option<String>,
    pub runtime_minutes: Option<u32>,
    pub still_url: Option<String>,
}

/// Whether `e` is the episode of season `season` that the record `t` lists.
pub open spec fn episode_info_of(e: EpisodeInfo, t: TmdbEpisodeRecord, season: u32) -> bool {
    &&& e.tmdb_episode_id == t.id
    &&& e.season_number == season
    &&& e.episode_number == t.episode_number
    &&& opt_view(e.title) == opt_view(t.name)
    &&& opt_view(e.overview) == opt_view(t.overview)
    &&& opt_view(e.air_date) == opt_view(t.air_date)
    &&& e.runtime_minutes == t.runtime
    &&& opt_view(e.still_url) == opt_image_url(seq!['w', '3', '0', '0'], opt_view(t.still_path))
}

/// The episodes of a season, one per record, in order; stills at width 300.
pub fn season_episodes(records: &Vec<TmdbEpisodeRecord>, season_number: u32) -> (r: Vec<EpisodeInfo>)
    ensures
        r.len() == records.len(),
        forall|k: int| 0 <= k < r.len() ==> episode_info_of(#[trigger] r@[k], records@[k], season_number),
{
    let mut r: Vec<EpisodeInfo> = Vec::new();
    let mut i: usize = 0;
    while i < records.len()
        invariant
            i <= records.len(),
            r.len() == i,
            forall|k: int| 0 <= k < i ==> episode_info_of(#[trigger] r@[k], records@[k], season_number),
        decreases records.len() - i,
    {
        let t = &records[i];
        let size = "w300";
        proof {
            reveal_strlit("w300");
        }
        assert(size@ =~= seq!['w', '3', '0', '0']);
        let e = EpisodeInfo {
            tmdb_episode_id: t.id,
            season_number,
            episode_number: t.episode_number,
            title: copy_opt(&t.name),
            overview: copy_opt(&t.overview),
            air_date: copy_opt(&t.air_date),
            runtime_minutes: t.runtime,
            still_url: opt_image_url_exec(size, &t.still_path),
        };
        r.push(e);
        i += 1;
    }
    r
}

/// The seasons worth fetching from a series' season list of
/// `(season_number, episode_count)`: those after season 0 with episodes.
pub open spec fn kept_seasons(seasons: Seq<(u32, u32)>, n: int) -> Seq<u32>
    decreases n,
{
    if n <= 0 || n > seasons.len() {
        Seq::empty()
    } else {
        let prev = kept_seasons(seasons, n - 1);
        if seasons[n - 1].0 > 0 && seasons[n - 1].1 > 0 {
            prev.push(seasons[n - 1].0)
        } else {
            prev
        }
    }
}

pub fn season_numbers(seasons: &Vec<(u32, u32)>) -> (r: Vec<u32>)
    ensures
        r@ == kept_seasons(seasons@, seasons@.len() as int),
{
    let mut r: Vec<u32> = Vec::new();
    let mut i: usize = 0;
    while i < seasons.len()
        invariant
            i <= seasons.len(),
            r@ == kept_seasons(seasons@, i as int),
        decreases seasons.len() - i,
    {
        let (n, c) = seasons[i];
        if n > 0 && c > 0 {
            r.push(n);
        }
        i += 1;
    }
    r
}

/// A cast member as TMDB lists them.
pub struct CastRecord {
    pub id: u64,
    pub name: String,
    pub character: Option<String>,
    pub profile_path: Option<String>,
    pub order: Option<u32>,
}

/// A member of an episode's cast.
pub struct CastMember {
    pub id: u64,
    pub name: String,
    pub character: Option<String>,
    pub profile_url: Option<String>,
    pub order: u32,
    pub is_guest: bool,
}

/// The regular cast and the guest stars of an episode.
pub struct EpisodeCredits {
    pub cast: Vec<CastMember>,
    pub guest_stars: Vec<CastMember>,
}

/// Whether `m` is the member made of the record `c` at position `k` of its
/// list: its order is the record's, or else its position.
pub open spec fn cast_member_of(m: CastMember, c: CastRecord, k: int, guest: bool) -> bool {
    &&& m.id == c.id
    &&& m.name@ == c.name@
    &&& opt_view(m.character) == opt_view(c.character)
    &&& opt_view(m.profile_url) == opt_image_url(seq!['w', '1', '8', '5'], opt_view(c.profile_path))
    &&& m.order == match c.order {
        Some(o) => o,
        None => k as u32,
    }
    &&& m.is_guest == guest
}

pub open spec fn cast_list_of(ms: Seq<CastMember>, cs: Option<Vec<CastRecord>>, guest: bool) -> bool {
    let recs = match cs {
        Some(v) => v@,
        None => Seq::empty(),
    };
    ms.len() == recs.len() && forall|k: int| 0 <= k < ms.len() ==> cast_member_of(#[trigger] ms[k], recs[k], k, guest)
}

fn cast_list(records: &Option<Vec<CastRecord>>, guest: bool) -> (r: Vec<CastMember>)
    ensures
        cast_list_of(r@, *records, guest),
{
    let empty: Vec<CastRecord> = Vec::new();
    let recs = match records {
        Some(v) => v,
        None => &empty,
    };
    let mut r: Vec<CastMember> = Vec::new();
    let mut i: usize = 0;
    while i < recs.len()
        invariant
            i <= recs.len(),
            r.len() == i,
            recs@ == match *records {
                Some(v) => v@,
                None => Seq::<CastRecord>::empty(),
            },
            forall|k: int| 0 <= k < i ==> cast_member_of(#[trigger] r@[k], recs@[k], k, guest),
        decreases recs.len() - i,
    {
        let c = &recs[i];
        let size = "w185";
        proof {
            reveal_strlit("w185");
        }
        assert(size@ =~= seq!['w', '1', '8', '5']);
        let order = match c.order {
            Some(o) => o,
            None => i as u32,
        };
        let m = CastMember {
            id: c.id,
            name: copy_string(&c.name),
            character: copy_opt(&c.character),
            profile_url: opt_image_url_exec(size, &c.profile_path),
            order,
            is_guest: guest,
        };
        r.push(m);
        i += 1;
    }
    r
}

/// The credits of an episode from TMDB's cast and guest star lists (a list
/// that is missing counts as empty); profile pictures at width 185.
pub fn episode_credits(cast: &Option<Vec<CastRecord>>, guest_stars: &Option<Vec<CastRecord>>) -> (r: EpisodeCredits)
    ensures
        cast_list_of(r.cast@, *cast, false),
        cast_list_of(r.guest_stars@, *guest_stars, true),
{
    EpisodeCredits { cast: cast_list(cast, false), guest_stars: cast_list(guest_stars, true) }
}

/// A movie whose metadata is to be fetched.
pub struct MovieFetchEntry {
    pub movie_id: String,
    pub title: String,
    pub year: Option<String>,
    /// Relative path from media_root to the video file
    pub video_path: String,
    pub has_art: bool,
    pub has_backdrop: bool,
    pub tmdb_id_override: Option<u64>,
}

// ---------------------------------------------------------------------------
// Fetching metadata
// ---------------------------------------------------------------------------

/// What a metadata fetch does with one series or movie.
#[derive(Debug, Clone, Copy, PartialEq, Eq, Structural)]
pub enum FetchStep {
    /// Metadata, art and backdrop are all there.
    Complete,
    /// Earlier lookups found nothing and it was given up on (and no
    /// `tmdb.txt` override asks again).
    Abandoned,
    /// Look it up.
    Fetch,
}

pub open spec fn fetch_step_spec(has_metadata: bool, has_art: bool, has_backdrop: bool, has_override: bool, abandoned: bool) -> FetchStep {
    if has_metadata && has_art && has_backdrop {
        FetchStep::Complete
    } else if !has_override && abandoned {
        FetchStep::Abandoned
    } else {
        FetchStep::Fetch
    }
}

pub fn fetch_step(has_metadata: bool, has_art: bool, has_backdrop: bool, has_override: bool, abandoned: bool) -> (r: FetchStep)
    ensures
        r == fetch_step_spec(has_metadata, has_art, has_backdrop, has_override, abandoned),
{
    if has_metadata && has_art && has_backdrop {
        FetchStep::Complete
    } else if !has_override && abandoned {
        FetchStep::Abandoned
    } else {
        FetchStep::Fetch
    }
}

/// The next request of a series lookup.
#[derive(Debug, Clone, PartialEq, Eq)]
pub enum LookupStep {
    /// Fetch the series with this TMDB id.
    Detail(u64),
    /// Search for this name.
    Search(String),
    /// The lookup is over.
    Done,
}

/// Whether the cleaned name is searched before the folder name.
pub open spec fn cleaned_first(title: Seq<char>) -> bool {
    let c = clean_search_query_spec(title);
    c != title && c.len() > 0
}

/// The first request for a series: its override id, else a search for its
/// cleaned folder name (or the folder name itself where cleaning changes
/// nothing or leaves nothing).
pub fn lookup_start(title: &str, tmdb_id_override: Option<u64>) -> (r: LookupStep)
    ensures
        match tmdb_id_override {
            Some(id) => r == LookupStep::Detail(id),
            None => (r matches LookupStep::Search(q) && q@ == if cleaned_first(title@) {
                clean_search_query_spec(title@)
            } else {
                title@
            }),
        },
{
    match tmdb_id_override {
        Some(id) => LookupStep::Detail(id),
        None => {
            let cleaned = clean_search_query(title);
            let c = str_chars(cleaned.as_str());
            let t = str_chars(title);
            if !crate::text::chars_eq(&c, &t) && c.len() > 0 {
                LookupStep::Search(cleaned)
            } else {
                LookupStep::Search(string_of(&t))
            }
        },
    }
}

/// The request after a search of `searches` requests found nothing: the
/// folder name itself once the cleaned name found nothing, else the end.
pub fn lookup_after_miss(title: &str, searches: usize) -> (r: LookupStep)
    ensures
        searches == 1 && cleaned_first(title@) ==> (r matches LookupStep::Search(q) && q@ == title@),
        !(searches == 1 && cleaned_first(title@)) ==> r == LookupStep::Done,
{
    if searches == 1 {
        let cleaned = clean_search_query(title);
        let c = str_chars(cleaned.as_str());
        let t = str_chars(title);
        if !crate::text::chars_eq(&c, &t) && c.len() > 0 {
            return LookupStep::Search(string_of(&t));
        }
    }
    LookupStep::Done
}

/// The genres of a result as one text (`Drama, Crime`), or none.
pub open spec fn genres_text_spec(genres: Seq<Seq<char>>) -> Option<Seq<char>> {
    if genres.len() == 0 {
        None
    } else {
        Some(joined(genres, genres.len() as int))
    }
}

/// `genres[..n]` joined with `, `.
pub open spec fn joined(genres: Seq<Seq<char>>, n: int) -> Seq<char>
    decreases n,
{
    if n <= 0 || n > genres.len() {
        Seq::empty()
    } else if n == 1 {
        genres[0]
    } else {
        joined(genres, n - 1) + seq![',', ' '] + genres[n - 1]
    }
}

pub fn genres_text(genres: &Vec<String>) -> (r: Option<String>)
    ensures
        opt_view(r) == genres_text_spec(genres@.map_values(|g: String| g@)),
{
    let ghost gv = genres@.map_values(|g: String| g@);
    if genres.len() == 0 {
        return None;
    }
    let mut v = str_chars(genres[0].as_str());
    let mut i: usize = 1;
    while i < genres.len()
        invariant
            1 <= i <= genres.len(),
            gv == genres@.map_values(|g: String| g@),
            v@ == joined(gv, i as int),
        decreases genres.len() - i,
    {
        v.push(',');
        v.push(' ');
        crate::text::append_chars(&mut v, &str_chars(genres[i].as_str()));
        i += 1;
    }
    Some(string_of(&v))
}

/// One series whose metadata is to be fetched: its id, folder name, whether
/// it has art and a backdrop, and its override.
pub struct TmdbFetchEntry {
    pub series_id: String,
    pub folder_name: String,
    pub has_art: bool,
    pub has_backdrop: bool,
    pub tmdb_id_override: Option<u64>,
}

/// Whether a series needs a metadata fetch: it lacks art, a backdrop or
/// stored metadata.
pub open spec fn needs_metadata(s: SeriesView, has_metadata: bool) -> bool {
    s.art is None || s.backdrop is None || !has_metadata
}

/// The series of `series[..n]` that need a fetch, in order, as
/// `(position, entry)`.
pub open spec fn metadata_work_spec(series: Seq<SeriesView>, has_metadata: Seq<bool>, n: int) -> Seq<int>
    decreases n,
{
    if n <= 0 || n > series.len() {
        Seq::empty()
    } else {
        let prev = metadata_work_spec(series, has_metadata, n - 1);
        if needs_metadata(series[n - 1], has_metadata[n - 1]) {
            prev.push(n - 1)
        } else {
            prev
        }
    }
}

pub open spec fn entry_for(e: TmdbFetchEntry, s: SeriesView) -> bool {
    &&& e.series_id@ == s.id
    &&& e.folder_name@ == s.title
    &&& e.has_art == s.art is Some
    &&& e.has_backdrop == s.backdrop is Some
    &&& e.tmdb_id_override == s.tmdb_id_override
}

/// The series that need a metadata fetch (`has_metadata[i]` tells whether
/// series `i` has stored metadata), in library order.
pub fn metadata_work(series: &Vec<Series>, has_metadata: &Vec<bool>) -> (r: Vec<TmdbFetchEntry>)
    requires
        has_metadata.len() == series.len(),
    ensures
        ({
            let sv = series@.map_values(|s: Series| s@);
            let picked = metadata_work_spec(sv, has_metadata@, sv.len() as int);
            r.len() == picked.len() && forall|k: int| 0 <= k < r.len() ==> entry_for(#[trigger] r@[k], sv[picked[k]])
        }),
{
    let ghost sv = series@.map_values(|s: Series| s@);
    let mut r: Vec<TmdbFetchEntry> = Vec::new();
    let mut i: usize = 0;
    while i < series.len()
        invariant
            i <= series.len(),
            has_metadata.len() == series.len(),
            sv == series@.map_values(|s: Series| s@),
            r.len() == metadata_work_spec(sv, has_metadata@, i as int).len(),
            forall|k: int| 0 <= k < r.len() ==> entry_for(#[trigger] r@[k], sv[metadata_work_spec(sv, has_metadata@, i as int)[k]]),
        decreases series.len() - i,
    {
        let s = &series[i];
        assert(sv[i as int] == s@);
        if s.art.is_none() || s.backdrop.is_none() || !has_metadata[i] {
            let e = TmdbFetchEntry {
                series_id: copy_string(&s.id),
                folder_name: copy_string(&s.title),
                has_art: s.art.is_some(),
                has_backdrop: s.backdrop.is_some(),
                tmdb_id_override: s.tmdb_id_override,
            };
            r.push(e);
        }
        i += 1;
    }
    r
}


// ---------------------------------------------------------------------------
// A person's best-known roles
// ---------------------------------------------------------------------------

/// A role of a person's combined credits as TMDB sends it. Its rating,
/// which only orders the roles, is kept apart as an order key.
pub struct CreditRecord {
    pub id: u64,
    pub title: Option<String>,
    pub name: Option<String>,
    pub character: Option<String>,
    pub media_type: Option<String>,
    pub release_date: Option<String>,
    pub first_air_date: Option<String>,
    pub poster_path: Option<String>,
}

/// A role as the person page shows it (its rating apart).
pub struct CreditFields {
    pub id: u64,
    pub title: String,
    pub character: Option<String>,
    pub media_type: String,
    pub poster_url: Option<String>,
    pub year: Option<String>,
}

/// The title of a role: the movie's title, else the show's name, else empty.
pub open spec fn credit_title(c: CreditRecord) -> Seq<char> {
    match c.title {
        Some(t) => t@,
        None => match c.name {
            Some(n) => n@,
            None => Seq::empty(),
        },
    }
}

/// The year of a role: the first four bytes of its release date, or of its
/// first air date where it has no release date.
pub open spec fn credit_year(c: CreditRecord) -> Option<Seq<char>> {
    let date = match c.release_date {
        Some(d) => Some(d@),
        None => opt_view(c.first_air_date),
    };
    match date {
        Some(d) => crate::items::year_spec(d),
        None => None,
    }
}

/// Whether `f` is the role `c` as the person page shows it.
pub open spec fn credit_fields_of(f: CreditFields, c: CreditRecord) -> bool {
    &&& f.id == c.id
    &&& f.title@ == credit_title(c)
    &&& opt_view(f.character) == opt_view(c.character)
    &&& f.media_type@ == match c.media_type {
        Some(m) => m@,
        None => crate::items::word_unknown(),
    }
    &&& opt_view(f.poster_url) == opt_image_url(seq!['w', '1', '8', '5'], opt_view(c.poster_path))
    &&& opt_view(f.year) == credit_year(c)
}

pub fn credit_fields(c: &CreditRecord) -> (r: CreditFields)
    ensures
        credit_fields_of(r, *c),
{
    let title = match &c.title {
        Some(t) => copy_string(t),
        None => match &c.name {
            Some(n) => copy_string(n),
            None => String::new(),
        },
    };
    let media_type = match &c.media_type {
        Some(m) => copy_string(m),
        None => {
            let u = vec!['u', 'n', 'k', 'n', 'o', 'w', 'n'];
            assert(u@ =~= crate::items::word_unknown());
            string_of(&u)
        },
    };
    let size = "w185";
    proof {
        reveal_strlit("w185");
    }
    assert(size@ =~= seq!['w', '1', '8', '5']);
    let date = match &c.release_date {
        Some(d) => Some(d),
        None => match &c.first_air_date {
            Some(d) => Some(d),
            None => None,
        },
    };
    let year = match date {
        Some(d) => crate::items::year_of(d.as_str()),
        None => None,
    };
    CreditFields {
        id: c.id,
        title,
        character: copy_opt(&c.character),
        media_type,
        poster_url: opt_image_url_exec(size, &c.poster_path),
        year,
    }
}

/// Whether the role with rating key `ka` at position `ia` is listed before
/// the one with key `kb` at `ib`: higher ratings first, roles without a
/// rating last, and list order between equal ratings.
pub open spec fn rated_before(ka: Option<i64>, ia: int, kb: Option<i64>, ib: int) -> bool {
    match (ka, kb) {
        (Some(a), Some(b)) => a > b || (a == b && ia < ib),
        (Some(_), None) => true,
        (None, Some(_)) => false,
        (None, None) => ia < ib,
    }
}

/// `order` lists each position of `keys` once, best rated first.
pub open spec fn is_rating_order(order: Seq<int>, keys: Seq<Option<i64>>) -> bool {
    &&& order.len() == keys.len()
    &&& forall|k: int| 0 <= k < order.len() ==> 0 <= #[trigger] order[k] < keys.len()
    &&& forall|a: int, b: int| 0 <= a < b < order.len() ==> #[trigger] order[a] != #[trigger] order[b]
    &&& forall|a: int, b: int|
        0 <= a < b < order.len() ==> rated_before(keys[#[trigger] order[a]], order[a], keys[#[trigger] order[b]], order[b])
}

/// Whether a role with key `kx` goes before every role with key `ko` that
/// came earlier in the list: it is rated strictly higher.
fn rated_higher(kx: Option<i64>, ko: Option<i64>) -> (r: bool)
    ensures
        r == match (kx, ko) {
            (Some(a), Some(b)) => a > b,
            (Some(_), None) => true,
            _ => false,
        },
{
    match (kx, ko) {
        (Some(a), Some(b)) => a > b,
        (Some(_), None) => true,
        _ => false,
    }
}

/// The order in which the roles are listed: by rating key, highest first,
/// roles without a rating last, list order between equal keys.
pub fn rating_order(keys: &Vec<Option<i64>>) -> (order: Vec<usize>)
    ensures
        is_rating_order(order@.map_values(|k: usize| k as int), keys@),
{
    let ghost ks = keys@;
    let n = keys.len();
    let mut out: Vec<usize> = Vec::new();
    let mut i: usize = 0;
    while i < n
        invariant
            n == ks.len(),
            ks == keys@,
            i <= n,
            out@.len() == i,
            forall|k: int| 0 <= k < i ==> 0 <= #[trigger] out@[k] < i,
            forall|a: int, b: int| 0 <= a < b < i ==> #[trigger] out@[a] != #[trigger] out@[b],
            forall|a: int, b: int|
                0 <= a < b < i ==> rated_before(
                    ks[#[trigger] out@[a] as int],
                    out@[a] as int,
                    ks[#[trigger] out@[b] as int],
                    out@[b] as int,
                ),
        decreases n - i,
    {
        let kx = keys[i];
        let mut pos: usize = 0;
        while pos < out.len() && !rated_higher(kx, keys[out[pos]])
            invariant
                pos <= out@.len() == i,
                i < n == ks.len(),
                ks == keys@,
                kx == ks[i as int],
                forall|k: int| 0 <= k < i ==> 0 <= #[trigger] out@[k] < i,
                forall|k: int|
                    0 <= k < pos ==> rated_before(ks[#[trigger] out@[k] as int], out@[k] as int, kx, i as int),
            decreases i - pos,
        {
            pos += 1;
        }
        let ghost old_out = out@;
        out.insert(pos, i);
        proof {
            assert forall|a: int, b: int| 0 <= a < b < i + 1 implies #[trigger] out@[a] != #[trigger] out@[b] by {
                if a < pos && b > pos {
                    assert(out@[b] == old_out[b - 1]);
                } else if a > pos {
                    assert(out@[a] == old_out[a - 1]);
                    assert(out@[b] == old_out[b - 1]);
                }
            }
            assert forall|a: int, b: int|
                0 <= a < b < i + 1 implies rated_before(
                ks[#[trigger] out@[a] as int],
                out@[a] as int,
                ks[#[trigger] out@[b] as int],
                out@[b] as int,
            ) by {
                if b < pos {
                    assert(out@[a] == old_out[a]);
                    assert(out@[b] == old_out[b]);
                } else if b == pos {
                    assert(out@[a] == old_out[a]);
                } else if a == pos {
                    assert(out@[b] == old_out[b - 1]);
                    let p = old_out[pos as int] as int;
                    assert(rated_before(ks[i as int], i as int, ks[p], p));
                    if b - 1 > pos {
                        assert(rated_before(ks[p], p, ks[out@[b] as int], out@[b] as int));
                    }
                } else if a < pos {
                    assert(out@[a] == old_out[a]);
                    assert(out@[b] == old_out[b - 1]);
                } else {
                    assert(out@[a] == old_out[a - 1]);
                    assert(out@[b] == old_out[b - 1]);
                }
            }
            assert forall|k: int| 0 <= k < i + 1 implies 0 <= #[trigger] out@[k] < i + 1 by {
                if k < pos {
                    assert(out@[k] == old_out[k]);
                } else if k > pos {
                    assert(out@[k] == old_out[k - 1]);
                }
            }
        }
        i += 1;
    }
    out
}

/// A person's roles as the person page lists them: best rated first, each
/// with its position in `records` (where its rating is found).
pub fn known_for(records: &Vec<CreditRecord>, rating_keys: &Vec<Option<i64>>) -> (r: Vec<(usize, CreditFields)>)
    requires
        records.len() == rating_keys.len(),
    ensures
        is_rating_order(r@.map_values(|e: (usize, CreditFields)| e.0 as int), rating_keys@),
        forall|k: int| 0 <= k < r@.len() ==> credit_fields_of(#[trigger] r@[k].1, records@[r@[k].0 as int]),
{
    let order = rating_order(rating_keys);
    let ghost ov = order@.map_values(|k: usize| k as int);
    let mut r: Vec<(usize, CreditFields)> = Vec::new();
    let mut i: usize = 0;
    while i < order.len()
        invariant
            i <= order.len() == rating_keys.len() == records.len(),
            ov == order@.map_values(|k: usize| k as int),
            is_rating_order(ov, rating_keys@),
            r@.len() == i,
            forall|k: int| 0 <= k < i ==> #[trigger] r@[k].0 == order@[k],
            forall|k: int| 0 <= k < i ==> credit_fields_of(#[trigger] r@[k].1, records@[r@[k].0 as int]),
        decreases order.len() - i,
    {
        let p = order[i];
        assert(ov[i as int] == p as int);
        let f = credit_fields(&records[p]);
        r.push((p, f));
        i += 1;
    }
    assert(r@.map_values(|e: (usize, CreditFields)| e.0 as int) =~= ov);
    r
}

/// A text of TMDB where it says something: an empty one counts as none.
pub fn nonempty_text(s: &Option<String>) -> (r: Option<String>)
    ensures
        opt_view(r) == match *s {
            Some(t) => if t@.len() > 0 { Some(t@) } else { None },
            None => None,
        },
{
    match s {
        Some(t) => if t.as_str().unicode_len() > 0 { Some(copy_string(t)) } else { None },
        None => None,
    }
}

} // verus!
