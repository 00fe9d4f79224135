//! Building the library from listings of the media folder: which folders
//! are series, their art, their `tmdb.txt` override, their episodes in name
//! order and the subtitle files of each episode.
use vstd::prelude::*;
use crate::text::{trim, trim_vec, parse_u64, parse_u64_exec, str_chars, string_of, sub_vec, append_chars, ascii_lower, ascii_lower_exec, starts_with, occurs_at_exec};
use crate::paths::{extension, extension_exec, file_stem, file_stem_or_empty};
use crate::library::{
    SubtitleFile, SubtitleView, Episode, EpisodeView, Series, SeriesView, Library, insert_spec,
    normalize_language,
    normalize_language_spec, is_video, is_video_spec, art_names, backdrop_names, art_names_exec,
    backdrop_names_exec, stable_id, stable_id_spec, try_parse_episode_filename,
    episode_filename_readable, parse_episode_filename_spec, ParsedEpisodeInfo,
};
use crate::sorting::{sorted_by_keys, sort_by_keys, is_sorting_perm};

verus! {

/// One entry of a folder listing: its name, whether it is a regular file,
/// and its size in bytes (0 where it could not be read).
pub struct FolderEntry {
    pub name: String,
    pub is_file: bool,
    pub size_bytes: u64,
}

/// A direct subfolder of the media folder: its name, the entries it holds,
/// and the text of its `tmdb.txt` where that file exists and could be read.
pub struct SeriesFolder {
    pub name: String,
    pub entries: Vec<FolderEntry>,
    pub tmdb_text: Option<String>,
}

pub struct FolderEntryView {
    pub name: Seq<char>,
    pub is_file: bool,
    pub size_bytes: u64,
}

pub struct SeriesFolderView {
    pub name: Seq<char>,
    pub entries: Seq<FolderEntryView>,
    pub tmdb_text: Option<Seq<char>>,
}

impl View for FolderEntry {
    type V = FolderEntryView;

    open spec fn view(&self) -> FolderEntryView {
        FolderEntryView { name: self.name@, is_file: self.is_file, size_bytes: self.size_bytes }
    }
}

impl View for SeriesFolder {
    type V = SeriesFolderView;

    open spec fn view(&self) -> SeriesFolderView {
        SeriesFolderView {
            name: self.name@,
            entries: self.entries@.map_values(|e: FolderEntry| e@),
            tmdb_text: match self.tmdb_text {
                Some(t) => Some(t@),
                None => None,
            },
        }
    }
}

/// A bound on the length of names that keeps every path built from them
/// within the machine's limits.
pub open spec fn name_fits(s: Seq<char>) -> bool {
    s.len() < 0x1000_0000
}

/// The path of `name` inside the folder `dir`.
pub open spec fn join(dir: Seq<char>, name: Seq<char>) -> Seq<char> {
    dir + seq!['/'] + name
}

/// `str::eq_ignore_ascii_case`.
pub open spec fn eq_ignore_ascii_case(a: Seq<char>, b: Seq<char>) -> bool {
    a.len() == b.len() && forall|k: int| 0 <= k < a.len() ==> ascii_lower(#[trigger] a[k]) == ascii_lower(b[k])
}

pub fn eq_ignore_ascii_case_exec(a: &Vec<char>, b: &Vec<char>) -> (r: bool)
    ensures
        r == eq_ignore_ascii_case(a@, b@),
{
    if a.len() != b.len() {
        return false;
    }
    let mut k: usize = 0;
    while k < a.len()
        invariant
            a.len() == b.len(),
            k <= a.len(),
            forall|j: int| 0 <= j < k ==> ascii_lower(#[trigger] a@[j]) == ascii_lower(b@[j]),
        decreases a.len() - k,
    {
        if ascii_lower_exec(a[k]) != ascii_lower_exec(b[k]) {
            return false;
        }
        k += 1;
    }
    true
}

pub fn join_exec(dir: &Vec<char>, name: &Vec<char>) -> (r: Vec<char>)
    ensures
        r@ == join(dir@, name@),
{
    let mut r = sub_vec(dir, 0, dir.len());
    assert(dir@.subrange(0, dir@.len() as int) =~= dir@);
    r.push('/');
    append_chars(&mut r, name);
    r
}

// ---------------------------------------------------------------------------
// Subtitles
// ---------------------------------------------------------------------------

/// The language of a subtitle file with stem `srt_stem` for the video with
/// stem `video_stem`: `en` for the same stem (ASCII case ignored), the
/// normalized code of `lang` for `<video_stem>.<lang>` where `lang` is not
/// empty and holds no `.`, and none otherwise.
pub open spec fn subtitle_language(srt_stem: Seq<char>, video_stem: Seq<char>) -> Option<Seq<char>> {
    let v = video_stem.len() as int;
    if eq_ignore_ascii_case(srt_stem, video_stem) {
        Some(seq!['e', 'n'])
    } else if starts_with(srt_stem, video_stem) && srt_stem.len() > v + 1 && srt_stem[v] == '.'
        && !srt_stem.subrange(v + 1, srt_stem.len() as int).contains('.') {
        Some(normalize_language_spec(srt_stem.subrange(v + 1, srt_stem.len() as int)))
    } else {
        None
    }
}

/// The subtitle file that a folder entry is for the video with stem
/// `video_stem`, if it is one: an `.srt` file (extension in any ASCII case)
/// whose stem gives a language.
pub open spec fn subtitle_for(e: FolderEntryView, video_stem: Seq<char>, dir: Seq<char>) -> Option<SubtitleView> {
    match extension(e.name) {
        Some(x) => if eq_ignore_ascii_case(x, seq!['s', 'r', 't']) {
            match file_stem(e.name) {
                Some(st) => match subtitle_language(st, video_stem) {
                    Some(l) => Some(SubtitleView { language: l, path: join(dir, e.name) }),
                    None => None,
                },
                None => None,
            }
        } else {
            None
        },
        None => None,
    }
}

/// The subtitle files among the first `n` entries, in listing order.
pub open spec fn subtitle_matches(entries: Seq<FolderEntryView>, video_stem: Seq<char>, dir: Seq<char>, n: int) -> Seq<SubtitleView>
    decreases n,
{
    if n <= 0 || n > entries.len() {
        Seq::empty()
    } else {
        let prev = subtitle_matches(entries, video_stem, dir, n - 1);
        match subtitle_for(entries[n - 1], video_stem, dir) {
            Some(t) => prev.push(t),
            None => prev,
        }
    }
}

pub open spec fn subtitle_paths(subs: Seq<SubtitleView>) -> Seq<Seq<char>> {
    subs.map_values(|t: SubtitleView| t.path)
}

/// The subtitle files of a video: those of [`subtitle_matches`], sorted by path.
pub open spec fn subtitles_of(out: Seq<SubtitleView>, entries: Seq<FolderEntryView>, video_stem: Seq<char>, dir: Seq<char>) -> bool {
    let m = subtitle_matches(entries, video_stem, dir, entries.len() as int);
    sorted_by_keys(out, m, subtitle_paths(m), false)
}

fn subtitle_for_exec(e: &FolderEntry, video_stem: &Vec<char>, dir: &Vec<char>) -> (r: Option<SubtitleFile>)
    requires
        name_fits(e.name@),
    ensures
        r matches Some(t) ==> subtitle_for(e@, video_stem@, dir@) == Some(t@),
        r is None ==> subtitle_for(e@, video_stem@, dir@) is None,
{
    let name = str_chars(e.name.as_str());
    let ext = match extension_exec(&name) {
        Some(x) => x,
        None => return None,
    };
    let srt = vec!['s', 'r', 't'];
    if !eq_ignore_ascii_case_exec(&ext, &srt) {
        return None;
    }
    // a name with an extension has a stem
    let st = file_stem_or_empty(&name);
    let ghost fs = file_stem(name@);
    proof {
        crate::paths::lemma_file_stem_len(name@);
    }
    assert(fs is Some);
    let v = video_stem.len();
    let lang: Option<Vec<char>> = if eq_ignore_ascii_case_exec(&st, video_stem) {
        Some(vec!['e', 'n'])
    } else if st.len() > v && st.len() - v > 1 && occurs_at_exec(&st, 0, video_stem) && st[v] == '.' {
        let rest = sub_vec(&st, v + 1, st.len());
        let mut has_dot = false;
        let mut k: usize = 0;
        while k < rest.len()
            invariant
                k <= rest.len(),
                has_dot <==> exists|j: int| 0 <= j < k && #[trigger] rest@[j] == '.',
            decreases rest.len() - k,
        {
            if rest[k] == '.' {
                has_dot = true;
            }
            k += 1;
        }
        if has_dot {
            None
        } else {
            let rs = string_of(&rest);
            let code = normalize_language(rs.as_str());
            Some(str_chars(code.as_str()))
        }
    } else {
        None
    };
    assert(lang matches Some(l) ==> subtitle_language(st@, video_stem@) == Some(l@)) by {
        if lang is Some && !eq_ignore_ascii_case(st@, video_stem@) {
            assert(starts_with(st@, video_stem@));
        }
    }
    assert(lang is None ==> subtitle_language(st@, video_stem@) is None);
    match lang {
        Some(l) => {
            let path = join_exec(dir, &name);
            Some(SubtitleFile { language: string_of(&l), path: string_of(&path) })
        },
        None => None,
    }
}

proof fn lemma_sorted_views(out: Seq<SubtitleFile>, items: Seq<SubtitleFile>, keys: Seq<Seq<char>>)
    requires
        items.len() == keys.len(),
        sorted_by_keys(out, items, keys, false),
    ensures
        sorted_by_keys(
            out.map_values(|t: SubtitleFile| t@),
            items.map_values(|t: SubtitleFile| t@),
            keys,
            false,
        ),
{
    let perm = choose|perm: Seq<int>|
        is_sorting_perm(perm, keys, false) && out.len() == perm.len() && forall|k: int|
            0 <= k < out.len() ==> #[trigger] out[k] == items[perm[k]];
    let ov = out.map_values(|t: SubtitleFile| t@);
    let iv = items.map_values(|t: SubtitleFile| t@);
    assert forall|k: int| 0 <= k < ov.len() implies #[trigger] ov[k] == iv[perm[k]] by {
        assert(0 <= perm[k] < items.len());
    }
}

/// The subtitle files in `entries` for the video with stem `video_stem`,
/// with paths under `rel_path`, sorted by path.
pub fn find_subtitle_files(entries: &Vec<FolderEntry>, video_stem: &str, rel_path: &str) -> (r: Vec<SubtitleFile>)
    requires
        forall|k: int| 0 <= k < entries@.len() ==> name_fits(#[trigger] entries@[k].name@),
    ensures
        subtitles_of(
            r@.map_values(|t: SubtitleFile| t@),
            entries@.map_values(|e: FolderEntry| e@),
            video_stem@,
            rel_path@,
        ),
{
    let ghost ev = entries@.map_values(|e: FolderEntry| e@);
    let stem = str_chars(video_stem);
    let dir = str_chars(rel_path);
    let mut found: Vec<SubtitleFile> = Vec::new();
    let mut keys: Vec<Vec<char>> = Vec::new();
    let mut i: usize = 0;
    while i < entries.len()
        invariant
            i <= entries.len(),
            ev == entries@.map_values(|e: FolderEntry| e@),
            stem@ == video_stem@,
            dir@ == rel_path@,
            forall|k: int| 0 <= k < entries@.len() ==> name_fits(#[trigger] entries@[k].name@),
            found@.map_values(|t: SubtitleFile| t@) == subtitle_matches(ev, stem@, dir@, i as int),
            keys.deep_view() == subtitle_paths(subtitle_matches(ev, stem@, dir@, i as int)),
            keys.len() == found.len(),
        decreases entries.len() - i,
    {
        assert(ev[i as int] == entries@[i as int]@);
        match subtitle_for_exec(&entries[i], &stem, &dir) {
            Some(t) => {
                let key = str_chars(t.path.as_str());
                let ghost kd = keys.deep_view();
                let ghost ks = keys@;
                proof {
                    let prev = subtitle_matches(ev, stem@, dir@, i as int);
                    assert(found@.push(t).map_values(|t: SubtitleFile| t@) =~= prev.push(t@));
                    assert(kd.push(key@) =~= subtitle_paths(prev.push(t@)));
                }
                found.push(t);
                keys.push(key);
                proof {
                    assert(keys@ == ks.push(key));
                    assert(keys.deep_view() =~= kd.push(key@)) by {
                        assert forall|j: int| 0 <= j < keys.deep_view().len() implies #[trigger] keys.deep_view()[j] == kd.push(key@)[j] by {
                            if j < ks.len() {
                                assert(keys@[j] == ks[j]);
                            }
                        }
                    }
                }
            },
            None => {},
        }
        i += 1;
    }
    let ghost items = found@;
    assert(keys.deep_view().len() == keys.len());
    let r = sort_by_keys(found, &keys, false);
    proof {
        lemma_sorted_views(r@, items, keys.deep_view());
    }
    r
}

// ---------------------------------------------------------------------------
// Series folders
// ---------------------------------------------------------------------------

/// The first of `names[i..]` that the folder holds an entry of.
pub open spec fn first_present(names: Seq<Seq<char>>, entries: Seq<FolderEntryView>, i: int) -> Option<Seq<char>>
    decreases names.len() - i,
{
    if i < 0 || i >= names.len() {
        None
    } else if exists|k: int| 0 <= k < entries.len() && entries[k].name == names[i] {
        Some(names[i])
    } else {
        first_present(names, entries, i + 1)
    }
}

/// The path of the first of `names` that the folder `dir` holds.
pub open spec fn found_file(names: Seq<Seq<char>>, dir: Seq<char>, entries: Seq<FolderEntryView>) -> Option<Seq<char>> {
    match first_present(names, entries, 0) {
        Some(n) => Some(join(dir, n)),
        None => None,
    }
}

/// The TMDB id that a `tmdb.txt` holds: its trimmed text read as `u64`.
pub open spec fn tmdb_override_spec(text: Option<Seq<char>>) -> Option<u64> {
    match text {
        Some(t) => parse_u64(trim(t)),
        None => None,
    }
}

/// Whether an entry is an episode: a regular file with a video extension.
pub open spec fn is_episode_file(e: FolderEntryView) -> bool {
    e.is_file && is_video_spec(e.name)
}

/// The episode files among the first `n` entries, in listing order.
pub open spec fn video_entries(entries: Seq<FolderEntryView>, n: int) -> Seq<FolderEntryView>
    decreases n,
{
    if n <= 0 || n > entries.len() {
        Seq::empty()
    } else {
        let prev = video_entries(entries, n - 1);
        if is_episode_file(entries[n - 1]) {
            prev.push(entries[n - 1])
        } else {
            prev
        }
    }
}

pub open spec fn entry_names(es: Seq<FolderEntryView>) -> Seq<Seq<char>> {
    es.map_values(|e: FolderEntryView| e.name)
}

/// `Path::new(name).file_stem().unwrap_or_default()`.
pub open spec fn stem_or_empty(name: Seq<char>) -> Seq<char> {
    match file_stem(name) {
        Some(s) => s,
        None => Seq::empty(),
    }
}

/// Whether `ep` is the episode made of the video entry `e` at sort position
/// `i` of the folder `dir` with entries `entries`.
pub open spec fn episode_from(ep: EpisodeView, e: FolderEntryView, i: int, dir: Seq<char>, entries: Seq<FolderEntryView>) -> bool {
    let f = parse_episode_filename_spec(e.name);
    let path = join(dir, e.name);
    &&& ep.id == stable_id_spec(path)
    &&& ep.title == f.title
    &&& ep.path == path
    &&& ep.filename == e.name
    &&& ep.size_bytes == e.size_bytes
    &&& ep.index == i
    &&& ep.season_number == f.season
    &&& ep.episode_number == f.episode
    &&& subtitles_of(ep.subtitles, entries, stem_or_empty(e.name), dir)
}

pub open spec fn folder_videos(f: SeriesFolderView) -> Seq<FolderEntryView> {
    video_entries(f.entries, f.entries.len() as int)
}

/// Whether a folder is a series: it holds a video, art, a backdrop or a
/// readable `tmdb.txt` override.
pub open spec fn folder_is_series(f: SeriesFolderView) -> bool {
    !(folder_videos(f).len() == 0 && found_file(art_names(), f.name, f.entries) is None
        && found_file(backdrop_names(), f.name, f.entries) is None
        && tmdb_override_spec(f.tmdb_text) is None)
}

/// Whether `s` is the series made of the folder `f`: id, title and path from
/// the folder name, the first art and backdrop names present, the override,
/// and one episode per video file in name order.
pub open spec fn series_from(f: SeriesFolderView, s: SeriesView) -> bool {
    let dir = f.name;
    let videos = folder_videos(f);
    &&& s.id == stable_id_spec(dir)
    &&& s.title == dir
    &&& s.path == dir
    &&& s.art == found_file(art_names(), dir, f.entries)
    &&& s.backdrop == found_file(backdrop_names(), dir, f.entries)
    &&& s.tmdb_id_override == tmdb_override_spec(f.tmdb_text)
    &&& exists|vs: Seq<FolderEntryView>|
        sorted_by_keys(vs, videos, entry_names(videos), false) && vs.len() == s.episodes.len() && forall|i: int|
            0 <= i < vs.len() ==> episode_from(#[trigger] s.episodes[i], vs[i], i, dir, f.entries)
}

/// Names short enough for the paths built from them.
pub open spec fn folder_fits(f: SeriesFolderView) -> bool {
    &&& name_fits(f.name)
    &&& forall|k: int| 0 <= k < f.entries.len() ==> name_fits(#[trigger] f.entries[k].name)
}

/// Whether every video file name of the folder can be read.
pub open spec fn folder_readable(f: SeriesFolderView) -> bool {
    forall|k: int| 0 <= k < f.entries.len() && is_episode_file(#[trigger] f.entries[k]) ==> episode_filename_readable(f.entries[k].name)
}

fn first_present_exec(names: &Vec<Vec<char>>, entries: &Vec<FolderEntry>) -> (r: Option<usize>)
    ensures
        r matches Some(i) ==> i < names.len() && first_present(
            names.deep_view(),
            entries@.map_values(|e: FolderEntry| e@),
            0,
        ) == Some(names.deep_view()[i as int]),
        r is None ==> first_present(names.deep_view(), entries@.map_values(|e: FolderEntry| e@), 0) is None,
{
    let ghost ev = entries@.map_values(|e: FolderEntry| e@);
    let ghost nv = names.deep_view();
    let mut i: usize = 0;
    while i < names.len()
        invariant
            i <= names.len(),
            ev == entries@.map_values(|e: FolderEntry| e@),
            nv == names.deep_view(),
            first_present(nv, ev, 0) == first_present(nv, ev, i as int),
        decreases names.len() - i,
    {
        assert(nv[i as int] == names@[i as int]@);
        let mut k: usize = 0;
        let mut found = false;
        while k < entries.len()
            invariant
                i < names.len(),
                k <= entries.len(),
                ev == entries@.map_values(|e: FolderEntry| e@),
                nv == names.deep_view(),
                nv[i as int] == names@[i as int]@,
                found <==> exists|j: int| 0 <= j < k && #[trigger] ev[j].name == nv[i as int],
            decreases entries.len() - k,
        {
            assert(ev[k as int] == entries@[k as int]@);
            assert(ev[k as int].name == entries@[k as int].name@);
            if str_is_vec(entries[k].name.as_str(), &names[i]) {
                found = true;
            }
            k += 1;
        }
        if found {
            return Some(i);
        }
        i += 1;
    }
    None
}

fn str_is_vec(s: &str, v: &Vec<char>) -> (r: bool)
    ensures
        r == (s@ == v@),
{
    crate::text::str_is(s, v)
}

fn found_file_exec(names: &Vec<Vec<char>>, dir: &Vec<char>, entries: &Vec<FolderEntry>) -> (r: Option<String>)
    ensures
        crate::library::opt_view(r) == found_file(names.deep_view(), dir@, entries@.map_values(|e: FolderEntry| e@)),
{
    match first_present_exec(names, entries) {
        Some(i) => {
            let p = join_exec(dir, &names[i]);
            Some(string_of(&p))
        },
        None => None,
    }
}

/// The TMDB id of a `tmdb.txt` text.
pub fn tmdb_override(text: &Option<String>) -> (r: Option<u64>)
    ensures
        r == tmdb_override_spec(match text {
            Some(t) => Some(t@),
            None => None,
        }),
{
    match text {
        Some(t) => {
            let v = str_chars(t.as_str());
            let tv = trim_vec(&v);
            assert(tv@.subrange(0, tv@.len() as int) =~= tv@);
            parse_u64_exec(&tv, 0, tv.len())
        },
        None => None,
    }
}

proof fn lemma_video_entries(entries: Seq<FolderEntryView>, n: int)
    ensures
        forall|k: int| 0 <= k < video_entries(entries, n).len() ==> is_episode_file(#[trigger] video_entries(entries, n)[k]),
    decreases n,
{
    if n > 0 && n <= entries.len() {
        lemma_video_entries(entries, n - 1);
        let prev = video_entries(entries, n - 1);
        let cur = video_entries(entries, n);
        assert forall|k: int| 0 <= k < cur.len() implies is_episode_file(#[trigger] cur[k]) by {
            if k < prev.len() {
                assert(cur[k] == prev[k]);
            }
        }
    }
}

/// The episode made of the video entry `e` at sort position `index`.
fn episode_of_entry(e: &FolderEntry, index: usize, dir: &Vec<char>, entries: &Vec<FolderEntry>, folder_name: &str) -> (ep: Episode)
    requires
        dir@ == folder_name@,
        name_fits(dir@),
        episode_filename_readable(e.name@),
        forall|k: int| 0 <= k < entries@.len() ==> name_fits(#[trigger] entries@[k].name@),
        name_fits(e.name@),
    ensures
        episode_from(ep@, e@, index as int, dir@, entries@.map_values(|x: FolderEntry| x@)),
{
    let name = str_chars(e.name.as_str());
    let path = join_exec(dir, &name);
    let path_text = string_of(&path);
    let info = match try_parse_episode_filename(e.name.as_str()) {
        Some(info) => info,
        None => ParsedEpisodeInfo { season: None, episode: None, title: String::new() },
    };
    let stem = file_stem_or_empty(&name);
    let stem_text = string_of(&stem);
    let subtitles = find_subtitle_files(entries, stem_text.as_str(), folder_name);
    Episode {
        id: stable_id(path_text.as_str()),
        title: info.title,
        path: path_text,
        filename: string_of(&name),
        size_bytes: e.size_bytes,
        index,
        season_number: info.season,
        episode_number: info.episode,
        subtitles,
    }
}

proof fn lemma_sorted_entries(out: Seq<usize>, items: Seq<usize>, keys: Seq<Seq<char>>, ev: Seq<FolderEntryView>)
    requires
        items.len() == keys.len(),
        sorted_by_keys(out, items, keys, false),
        forall|k: int| 0 <= k < items.len() ==> #[trigger] items[k] < ev.len(),
    ensures
        sorted_by_keys(
            out.map_values(|k: usize| ev[k as int]),
            items.map_values(|k: usize| ev[k as int]),
            keys,
            false,
        ),
        forall|k: int| 0 <= k < out.len() ==> #[trigger] out[k] < ev.len(),
{
    let perm = choose|perm: Seq<int>|
        is_sorting_perm(perm, keys, false) && out.len() == perm.len() && forall|k: int|
            0 <= k < out.len() ==> #[trigger] out[k] == items[perm[k]];
    let ov = out.map_values(|k: usize| ev[k as int]);
    let iv = items.map_values(|k: usize| ev[k as int]);
    assert forall|k: int| 0 <= k < ov.len() implies #[trigger] ov[k] == iv[perm[k]] by {
        assert(0 <= perm[k] < items.len());
    }
    assert forall|k: int| 0 <= k < out.len() implies #[trigger] out[k] < ev.len() by {
        assert(0 <= perm[k] < items.len());
        assert(out[k] == items[perm[k]]);
    }
}

/// Builds the series of one folder, or `None` for a folder that is no series
/// (no video, art, backdrop or override).
pub fn build_series(folder: &SeriesFolder) -> (r: Option<Series>)
    requires
        folder_fits(folder@),
        folder_readable(folder@),
    ensures
        r is None <==> !folder_is_series(folder@),
        r matches Some(s) ==> series_from(folder@, s@),
{
    let ghost fv = folder@;
    let ghost ev = fv.entries;
    let entries = &folder.entries;
    assert forall|k: int| 0 <= k < entries@.len() implies name_fits(#[trigger] entries@[k].name@) by {
        assert(ev[k] == entries@[k]@);
        assert(name_fits(ev[k].name));
    }
    let dir = str_chars(folder.name.as_str());
    let art_list = art_names_exec();
    let art = found_file_exec(&art_list, &dir, entries);
    let backdrop_list = backdrop_names_exec();
    let backdrop = found_file_exec(&backdrop_list, &dir, entries);
    let tmdb_id_override = tmdb_override(&folder.tmdb_text);
    // the video files, by position, with their names
    let mut videos: Vec<usize> = Vec::new();
    let mut keys: Vec<Vec<char>> = Vec::new();
    let mut i: usize = 0;
    while i < entries.len()
        invariant
            i <= entries.len(),
            ev == entries@.map_values(|e: FolderEntry| e@),
            forall|k: int| 0 <= k < entries@.len() ==> name_fits(#[trigger] entries@[k].name@),
            videos.len() == keys.len(),
            forall|k: int| 0 <= k < videos.len() ==> #[trigger] videos@[k] < i,
            videos@.map_values(|k: usize| ev[k as int]) == video_entries(ev, i as int),
            keys.deep_view() == entry_names(video_entries(ev, i as int)),
        decreases entries.len() - i,
    {
        assert(ev[i as int] == entries@[i as int]@);
        if entries[i].is_file && is_video(entries[i].name.as_str()) {
            let key = str_chars(entries[i].name.as_str());
            let ghost kd = keys.deep_view();
            let ghost ks = keys@;
            let ghost vd = videos@;
            videos.push(i);
            keys.push(key);
            proof {
                let prev = video_entries(ev, i as int);
                assert(videos@.map_values(|k: usize| ev[k as int]) =~= prev.push(ev[i as int])) by {
                    assert(videos@ == vd.push(i));
                }
                assert(keys@ == ks.push(key));
                assert(keys.deep_view() =~= entry_names(prev.push(ev[i as int]))) by {
                    assert forall|j: int| 0 <= j < keys.deep_view().len() implies #[trigger] keys.deep_view()[j] == entry_names(prev.push(ev[i as int]))[j] by {
                        if j < ks.len() {
                            assert(keys@[j] == ks[j]);
                            assert(kd[j] == entry_names(prev)[j]);
                        }
                    }
                }
            }
        }
        i += 1;
    }
    let no_videos = videos.len() == 0;
    if no_videos && art.is_none() && backdrop.is_none() && tmdb_id_override.is_none() {
        return None;
    }
    let ghost items = videos@;
    assert(keys.deep_view().len() == keys.len());
    let order = sort_by_keys(videos, &keys, false);
    let ghost vs = order@.map_values(|k: usize| ev[k as int]);
    proof {
        lemma_sorted_entries(order@, items, keys.deep_view(), ev);
        let videos_v = video_entries(ev, ev.len() as int);
        lemma_video_entries(ev, ev.len() as int);
        assert(items.map_values(|k: usize| ev[k as int]) == videos_v);
        let perm = choose|perm: Seq<int>|
            is_sorting_perm(perm, keys.deep_view(), false) && vs.len() == perm.len() && forall|k: int|
                0 <= k < vs.len() ==> #[trigger] vs[k] == videos_v[perm[k]];
        assert forall|k: int| 0 <= k < vs.len() implies is_episode_file(#[trigger] vs[k]) by {
            assert(0 <= perm[k] < videos_v.len());
        }
    }
    let mut episodes: Vec<Episode> = Vec::new();
    let mut j: usize = 0;
    while j < order.len()
        invariant
            j <= order.len(),
            ev == entries@.map_values(|e: FolderEntry| e@),
            fv == folder@,
            ev == fv.entries,
            dir@ == fv.name,
            name_fits(fv.name),
            folder_readable(fv),
            forall|k: int| 0 <= k < entries@.len() ==> name_fits(#[trigger] entries@[k].name@),
            forall|k: int| 0 <= k < order.len() ==> #[trigger] order@[k] < ev.len(),
            vs == order@.map_values(|k: usize| ev[k as int]),
            forall|k: int| 0 <= k < vs.len() ==> is_episode_file(#[trigger] vs[k]),
            episodes.len() == j,
            forall|k: int| 0 <= k < j ==> episode_from(#[trigger] episodes@[k]@, vs[k], k, fv.name, ev),
        decreases order.len() - j,
    {
        let e = &entries[order[j]];
        assert(ev[order@[j as int] as int] == entries@[order@[j as int] as int]@);
        assert(vs[j as int] == e@);
        assert(is_episode_file(ev[order@[j as int] as int]) ==> episode_filename_readable(e.name@));
        let ep = episode_of_entry(e, j, &dir, entries, folder.name.as_str());
        let ghost eps = episodes@;
        episodes.push(ep);
        proof {
            assert forall|k: int| 0 <= k < j + 1 implies episode_from(#[trigger] episodes@[k]@, vs[k], k, fv.name, ev) by {
                if k < j {
                    assert(episodes@[k] == eps[k]);
                }
            }
        }
        j += 1;
    }
    let series = Series {
        id: stable_id(folder.name.as_str()),
        title: string_of(&dir),
        path: string_of(&dir),
        art,
        backdrop,
        tmdb_id_override,
        episodes,
    };
    proof {
        let sv = series@;
        assert(sv.episodes.len() == vs.len());
        assert forall|k: int| 0 <= k < vs.len() implies episode_from(#[trigger] sv.episodes[k], vs[k], k, fv.name, fv.entries) by {
            assert(sv.episodes[k] == series.episodes@[k]@);
        }
        assert(entry_names(folder_videos(fv)) == keys.deep_view());
    }
    Some(series)
}

// ---------------------------------------------------------------------------
// The whole media folder
// ---------------------------------------------------------------------------

pub open spec fn opt_series(o: Option<Series>) -> Option<SeriesView> {
    match o {
        Some(s) => Some(s@),
        None => None,
    }
}

pub open spec fn folder_views(folders: Seq<SeriesFolder>) -> Seq<SeriesFolderView> {
    folders.map_values(|f: SeriesFolder| f@)
}

/// Whether `built[k]` is what folder `k` gives: nothing for a folder that is
/// no series, else its series.
pub open spec fn built_from(folders: Seq<SeriesFolderView>, built: Seq<Option<SeriesView>>) -> bool {
    &&& built.len() == folders.len()
    &&& forall|k: int| 0 <= k < built.len() ==> (#[trigger] built[k] is None <==> !folder_is_series(folders[k]))
    &&& forall|k: int| 0 <= k < built.len() ==> (#[trigger] built[k] matches Some(s) ==> series_from(folders[k], s))
}

/// `start` with each series of `built` added in turn.
pub open spec fn insert_all(start: Seq<SeriesView>, built: Seq<Option<SeriesView>>) -> Seq<SeriesView>
    decreases built.len(),
{
    if built.len() == 0 {
        start
    } else {
        let prev = insert_all(start, built.drop_last());
        match built.last() {
            Some(s) => insert_spec(prev, s),
            None => prev,
        }
    }
}

pub open spec fn folders_fit(folders: Seq<SeriesFolderView>) -> bool {
    forall|k: int| 0 <= k < folders.len() ==> folder_fits(#[trigger] folders[k])
}

pub open spec fn folders_readable(folders: Seq<SeriesFolderView>) -> bool {
    forall|k: int| 0 <= k < folders.len() ==> folder_readable(#[trigger] folders[k])
}

/// Whether every video file name of a folder can be read.
pub fn folder_readable_exec(folder: &SeriesFolder) -> (r: bool)
    requires
        folder_fits(folder@),
    ensures
        r == folder_readable(folder@),
{
    let ghost ev = folder@.entries;
    let entries = &folder.entries;
    let mut i: usize = 0;
    while i < entries.len()
        invariant
            i <= entries.len(),
            ev == entries@.map_values(|e: FolderEntry| e@),
            folder_fits(folder@),
            ev == folder@.entries,
            forall|k: int| 0 <= k < i && is_episode_file(#[trigger] ev[k]) ==> episode_filename_readable(ev[k].name),
        decreases entries.len() - i,
    {
        assert(ev[i as int] == entries@[i as int]@);
        assert(name_fits(ev[i as int].name));
        if entries[i].is_file && is_video(entries[i].name.as_str()) {
            if try_parse_episode_filename(entries[i].name.as_str()).is_none() {
                return false;
            }
        }
        i += 1;
    }
    true
}

impl Library {
    /// The library of a media folder, from the listing of each of its
    /// subfolders: each folder that is a series is added under its id.
    /// `None` where a video file name cannot be read.
    pub fn scan(folders: &Vec<SeriesFolder>) -> (r: Option<Library>)
        requires
            folders_fit(folder_views(folders@)),
        ensures
            r is Some <==> folders_readable(folder_views(folders@)),
            r matches Some(lib) ==> exists|built: Seq<Option<SeriesView>>|
                built_from(folder_views(folders@), built) && lib@ == insert_all(Seq::empty(), built),
    {
        let ghost fv = folder_views(folders@);
        let mut i: usize = 0;
        while i < folders.len()
            invariant
                i <= folders.len(),
                fv == folder_views(folders@),
                folders_fit(fv),
                forall|k: int| 0 <= k < i ==> folder_readable(#[trigger] fv[k]),
            decreases folders.len() - i,
        {
            assert(fv[i as int] == folders@[i as int]@);
            assert(folder_fits(fv[i as int]));
            if !folder_readable_exec(&folders[i]) {
                return None;
            }
            i += 1;
        }
        let mut lib = Library::new();
        let ghost mut built: Seq<Option<SeriesView>> = Seq::empty();
        let mut i: usize = 0;
        while i < folders.len()
            invariant
                i <= folders.len(),
                fv == folder_views(folders@),
                folders_fit(fv),
                folders_readable(fv),
                built_from(fv.take(i as int), built),
                lib@ == insert_all(Seq::empty(), built),
            decreases folders.len() - i,
        {
            assert(fv[i as int] == folders@[i as int]@);
            assert(folder_fits(fv[i as int]));
            assert(folder_readable(fv[i as int]));
            let b = build_series(&folders[i]);
            let ghost bv = opt_series(b);
            let ghost prev = built;
            proof {
                built = built.push(bv);
                assert(built.drop_last() =~= prev);
                assert(fv.take(i + 1) =~= fv.take(i as int).push(fv[i as int]));
                assert forall|k: int| 0 <= k < built.len() implies (#[trigger] built[k] is None <==> !folder_is_series(fv.take(i + 1)[k])) by {
                    if k < i {
                        assert(built[k] == prev[k]);
                        assert(fv.take(i + 1)[k] == fv.take(i as int)[k]);
                    }
                }
                assert forall|k: int| 0 <= k < built.len() implies (#[trigger] built[k] matches Some(s) ==> series_from(fv.take(i + 1)[k], s)) by {
                    if k < i {
                        assert(built[k] == prev[k]);
                        assert(fv.take(i + 1)[k] == fv.take(i as int)[k]);
                    }
                }
            }
            match b {
                Some(s) => lib.insert(s),
                None => {},
            }
            i += 1;
        }
        assert(fv.take(folders.len() as int) =~= fv);
        Some(lib)
    }
}

/// Adding series one after another into an ordered library keeps it ordered.
pub proof fn lemma_insert_all_keeps_order(start: Seq<SeriesView>, built: Seq<Option<SeriesView>>)
    requires
        crate::library::ids_ascending(start),
    ensures
        crate::library::ids_ascending(insert_all(start, built)),
    decreases built.len(),
{
    if built.len() > 0 {
        lemma_insert_all_keeps_order(start, built.drop_last());
        match built.last() {
            Some(s) => crate::library::lemma_insert_keeps_order(insert_all(start, built.drop_last()), s),
            None => {},
        }
    }
}

/// A scanned library holds each series id once, in ascending order.
pub proof fn lemma_scan_ordered(built: Seq<Option<SeriesView>>)
    ensures
        crate::library::ids_ascending(insert_all(Seq::empty(), built)),
{
    lemma_insert_all_keeps_order(Seq::empty(), built);
}


/// One video entry makes one episode.
proof fn lemma_episode_from_unique(a: EpisodeView, b: EpisodeView, e: FolderEntryView, i: int, dir: Seq<char>, entries: Seq<FolderEntryView>)
    requires
        episode_from(a, e, i, dir, entries),
        episode_from(b, e, i, dir, entries),
    ensures
        a == b,
{
    let m = subtitle_matches(entries, stem_or_empty(e.name), dir, entries.len() as int);
    crate::sorting::lemma_sorted_unique(a.subtitles, b.subtitles, m, subtitle_paths(m), false);
}

/// One folder makes one series.
proof fn lemma_series_from_unique(f: SeriesFolderView, a: SeriesView, b: SeriesView)
    requires
        series_from(f, a),
        series_from(f, b),
    ensures
        a == b,
{
    let videos = folder_videos(f);
    let keys = entry_names(videos);
    let va = choose|vs: Seq<FolderEntryView>|
        sorted_by_keys(vs, videos, keys, false) && vs.len() == a.episodes.len() && forall|i: int|
            0 <= i < vs.len() ==> episode_from(#[trigger] a.episodes[i], vs[i], i, f.name, f.entries);
    let vb = choose|vs: Seq<FolderEntryView>|
        sorted_by_keys(vs, videos, keys, false) && vs.len() == b.episodes.len() && forall|i: int|
            0 <= i < vs.len() ==> episode_from(#[trigger] b.episodes[i], vs[i], i, f.name, f.entries);
    crate::sorting::lemma_sorted_unique(va, vb, videos, keys, false);
    assert forall|i: int| 0 <= i < a.episodes.len() implies a.episodes[i] == b.episodes[i] by {
        lemma_episode_from_unique(a.episodes[i], b.episodes[i], va[i], i, f.name, f.entries);
    }
    assert(a.episodes =~= b.episodes);
}

/// A rescan of unchanged folders gives the same library: every series and
/// episode keeps its id, its place and its fields.
pub proof fn lemma_rescan_same_library(folders: Seq<SeriesFolderView>, first: Seq<SeriesView>, second: Seq<SeriesView>)
    requires
        exists|built: Seq<Option<SeriesView>>| built_from(folders, built) && first == insert_all(Seq::empty(), built),
        exists|built: Seq<Option<SeriesView>>| built_from(folders, built) && second == insert_all(Seq::empty(), built),
    ensures
        first == second,
{
    let b1 = choose|built: Seq<Option<SeriesView>>| built_from(folders, built) && first == insert_all(Seq::empty(), built);
    let b2 = choose|built: Seq<Option<SeriesView>>| built_from(folders, built) && second == insert_all(Seq::empty(), built);
    assert forall|k: int| 0 <= k < b1.len() implies b1[k] == b2[k] by {
        if b1[k] is Some {
            lemma_series_from_unique(folders[k], b1[k]->0, b2[k]->0);
        }
    }
    assert(b1 =~= b2);
}

} // verus!
