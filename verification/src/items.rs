//! What the API shows of series and episodes: display titles, labels,
//! formats and years, the order of the series list, counts of watched
//! episodes, and which files go with an episode or a series.
use vstd::prelude::*;
use crate::text::{
    str_chars, string_of, sub_vec, append_chars, chars_eq, decimal, decimal_exec, unicode_lowercase,
    to_lowercase, byte_offsets, chars_in_bytes, chars_in_bytes_exec, occurs_at, occurs_at_exec, starts_with,
};
use crate::paths::{extension, extension_exec, file_name, file_name_exec, file_stem, file_stem_or_empty};
use crate::library::{Series, SeriesView, Episode, EpisodeView, opt_view};
use crate::routes::{ProgressMark, ProgressView, mark_views};
use crate::watching::{record_of, completed_record};
use crate::sorting::{sorted_by_keys, sort_by_keys};

verus! {

/// The title shown for a series or an episode: the one from TMDB where
/// there is one, else the library's.
pub fn display_title(tmdb_title: &Option<String>, own_title: &str) -> (r: String)
    ensures
        r@ == match tmdb_title {
            Some(t) => t@,
            None => own_title@,
        },
{
    match tmdb_title {
        Some(t) => string_of(&str_chars(t.as_str())),
        None => string_of(&str_chars(own_title)),
    }
}

pub open spec fn word_unknown() -> Seq<char> {
    seq!['u', 'n', 'k', 'n', 'o', 'w', 'n']
}

/// The format of an episode file: its extension (or `unknown`), lowercased.
pub open spec fn format_spec(path: Seq<char>) -> Seq<char> {
    unicode_lowercase(
        match extension(path) {
            Some(e) => e,
            None => word_unknown(),
        },
    )
}

pub fn episode_format(path: &str) -> (r: String)
    requires
        path@.len() < isize::MAX,
    ensures
        r@ == format_spec(path@),
{
    let p = str_chars(path);
    let e = match extension_exec(&p) {
        Some(e) => e,
        None => {
            let u = vec!['u', 'n', 'k', 'n', 'o', 'w', 'n'];
            assert(u@ =~= word_unknown());
            u
        },
    };
    to_lowercase(string_of(&e).as_str())
}

/// The file name of a path, or nothing.
pub fn file_name_of(path: &str) -> (r: String)
    requires
        path@.len() < isize::MAX,
    ensures
        r@ == match file_name(path@) {
            Some(n) => n,
            None => Seq::<char>::empty(),
        },
{
    let p = str_chars(path);
    match file_name_exec(&p) {
        Some(n) => string_of(&n),
        None => String::new(),
    }
}

/// The label of an episode: `S1 E3` where both numbers are known, else
/// `Episode <position + 1>`.
pub open spec fn episode_label_spec(season: Option<u32>, episode: Option<u32>, index: usize) -> Seq<char> {
    match (season, episode) {
        (Some(s), Some(e)) => seq!['S'] + decimal(s as nat) + seq![' ', 'E'] + decimal(e as nat),
        _ => seq!['E', 'p', 'i', 's', 'o', 'd', 'e', ' '] + decimal((index + 1) as nat),
    }
}

pub fn episode_label(season: Option<u32>, episode: Option<u32>, index: usize) -> (r: String)
    requires
        index < u64::MAX,
    ensures
        r@ == episode_label_spec(season, episode, index),
{
    let v = match (season, episode) {
        (Some(s), Some(e)) => {
            let mut v = vec!['S'];
            append_chars(&mut v, &decimal_exec(s as u64));
            v.push(' ');
            v.push('E');
            append_chars(&mut v, &decimal_exec(e as u64));
            v
        },
        _ => {
            let mut v = vec!['E', 'p', 'i', 's', 'o', 'd', 'e', ' '];
            append_chars(&mut v, &decimal_exec(index as u64 + 1));
            v
        },
    };
    string_of(&v)
}

/// The year of a date: its first four bytes (`date.get(..4)`), where they
/// end on a character boundary.
pub open spec fn year_spec(date: Seq<char>) -> Option<Seq<char>> {
    match chars_in_bytes(date, 4) {
        Some(k) => Some(date.take(k)),
        None => None,
    }
}

pub fn year_of(date: &str) -> (r: Option<String>)
    ensures
        opt_view(r) == year_spec(date@),
{
    let d = str_chars(date);
    let offsets = byte_offsets(&d);
    match chars_in_bytes_exec(&d, &offsets, 4) {
        Some(k) => {
            let y = sub_vec(&d, 0, k);
            assert(y@ =~= d@.take(k as int));
            Some(string_of(&y))
        },
        None => None,
    }
}

/// The number of the first `n` episodes whose record marks them completed.
pub open spec fn watched_count_spec(es: Seq<EpisodeView>, ps: Seq<ProgressView>, n: int) -> nat
    decreases n,
{
    if n <= 0 || n > es.len() {
        0
    } else {
        watched_count_spec(es, ps, n - 1) + if completed_record(ps, es[n - 1].id) {
            1nat
        } else {
            0nat
        }
    }
}

proof fn lemma_watched_count_bound(es: Seq<EpisodeView>, ps: Seq<ProgressView>, n: int)
    requires
        0 <= n <= es.len(),
    ensures
        watched_count_spec(es, ps, n) <= n,
    decreases n,
{
    if n > 0 {
        lemma_watched_count_bound(es, ps, n - 1);
    }
}

/// How many episodes of a series are watched to the end.
pub fn watched_count(episodes: &Vec<Episode>, progress: &Vec<ProgressMark>) -> (r: usize)
    ensures
        r == watched_count_spec(crate::routes::episode_views(episodes@), mark_views(progress@), episodes@.len() as int),
{
    let ghost ev = crate::routes::episode_views(episodes@);
    let ghost pv = mark_views(progress@);
    let mut count: usize = 0;
    let mut i: usize = 0;
    while i < episodes.len()
        invariant
            i <= episodes.len(),
            ev == crate::routes::episode_views(episodes@),
            pv == mark_views(progress@),
            count == watched_count_spec(ev, pv, i as int),
        decreases episodes.len() - i,
    {
        proof {
            lemma_watched_count_bound(ev, pv, i as int);
        }
        assert(ev[i as int] == episodes@[i as int]@);
        let id = str_chars(episodes[i].id.as_str());
        let mut k: usize = 0;
        let mut done = false;
        while k < progress.len()
            invariant_except_break
                !done,
            invariant
                k <= progress.len(),
                pv == mark_views(progress@),
                record_of(pv, id@, 0) == record_of(pv, id@, k as int),
            ensures
                done == completed_record(pv, id@),
            decreases progress.len() - k,
        {
            assert(pv[k as int] == progress@[k as int]@);
            if str_is_vec(progress[k].episode_id.as_str(), &id) {
                done = progress[k].completed;
                break;
            }
            k += 1;
        }
        if done {
            count = count + 1;
        }
        i += 1;
    }
    count
}

fn str_is_vec(s: &str, v: &Vec<char>) -> (r: bool)
    ensures
        r == (s@ == v@),
{
    crate::text::str_is(s, v)
}

/// The order of the series list: by title lowercased, ties in library
/// order. `order[k]` is the position of the `k`-th series shown.
pub fn list_order(titles: &Vec<String>) -> (order: Vec<usize>)
    ensures
        sorted_by_keys(
            order@.map_values(|k: usize| k as int),
            Seq::new(titles@.len(), |k: int| k),
            titles@.map_values(|t: String| unicode_lowercase(t@)),
            false,
        ),
{
    let ghost kv = titles@.map_values(|t: String| unicode_lowercase(t@));
    let mut positions: Vec<usize> = Vec::new();
    let mut keys: Vec<Vec<char>> = Vec::new();
    let mut i: usize = 0;
    while i < titles.len()
        invariant
            i <= titles.len(),
            kv == titles@.map_values(|t: String| unicode_lowercase(t@)),
            positions.len() == i,
            keys.len() == i,
            forall|k: int| 0 <= k < i ==> #[trigger] positions@[k] == k,
            keys.deep_view() == kv.take(i as int),
        decreases titles.len() - i,
    {
        let low = to_lowercase(titles[i].as_str());
        let key = str_chars(low.as_str());
        let ghost kd = keys.deep_view();
        let ghost ks = keys@;
        positions.push(i);
        keys.push(key);
        proof {
            assert(keys@ == ks.push(key));
            assert(keys.deep_view() =~= kv.take(i + 1)) by {
                assert forall|j: int| 0 <= j < keys.deep_view().len() implies #[trigger] keys.deep_view()[j] == kv.take(i + 1)[j] by {
                    if j < ks.len() {
                        assert(keys@[j] == ks[j]);
                        assert(kd[j] == kv.take(i as int)[j]);
                    }
                }
            }
        }
        i += 1;
    }
    assert(kv.take(titles.len() as int) =~= kv);
    let ghost items = positions@;
    assert(keys.deep_view().len() == keys.len());
    let order = sort_by_keys(positions, &keys, false);
    proof {
        let perm = choose|perm: Seq<int>|
            crate::sorting::is_sorting_perm(perm, keys.deep_view(), false) && order@.len() == perm.len() && forall|k: int|
                0 <= k < order@.len() ==> #[trigger] order@[k] == items[perm[k]];
        let ov = order@.map_values(|k: usize| k as int);
        let iv = Seq::new(titles@.len(), |k: int| k);
        assert forall|k: int| 0 <= k < ov.len() implies #[trigger] ov[k] == iv[perm[k]] by {
            assert(0 <= perm[k] < items.len());
        }
    }
    order
}

// ---------------------------------------------------------------------------
// Files that go with an episode or a series
// ---------------------------------------------------------------------------

/// Whether a file of the folder goes with the episode of stem `stem`:
/// its stem is the episode's, or its stem or name starts with `<stem>.`
/// (the video, its MP4 copy, subtitles, partial files).
pub open spec fn goes_with(name: Seq<char>, stem: Seq<char>) -> bool {
    let s = match file_stem(name) {
        Some(x) => x,
        None => Seq::<char>::empty(),
    };
    file_stem(name) is Some && (s == stem || starts_with(s, stem + seq!['.']) || starts_with(name, stem + seq!['.']))
}

/// The positions of the first `n` names that go with the episode.
pub open spec fn related_spec(names: Seq<Seq<char>>, stem: Seq<char>, n: int) -> Seq<int>
    decreases n,
{
    if n <= 0 || n > names.len() {
        Seq::empty()
    } else {
        let prev = related_spec(names, stem, n - 1);
        if goes_with(names[n - 1], stem) {
            prev.push(n - 1)
        } else {
            prev
        }
    }
}

/// The files of a folder that deleting the episode of stem `stem` removes,
/// by position in the listing.
pub fn related_files(names: &Vec<String>, stem: &str) -> (r: Vec<usize>)
    requires
        forall|k: int| 0 <= k < names@.len() ==> (#[trigger] names@[k])@.len() < isize::MAX,
    ensures
        r@.map_values(|k: usize| k as int) == related_spec(names@.map_values(|n: String| n@), stem@, names@.len() as int),
{
    let ghost nv = names@.map_values(|n: String| n@);
    let st = str_chars(stem);
    let mut prefix = sub_vec(&st, 0, st.len());
    assert(st@.subrange(0, st@.len() as int) =~= st@);
    prefix.push('.');
    let mut r: Vec<usize> = Vec::new();
    let mut i: usize = 0;
    while i < names.len()
        invariant
            i <= names.len(),
            nv == names@.map_values(|n: String| n@),
            forall|k: int| 0 <= k < names@.len() ==> (#[trigger] names@[k])@.len() < isize::MAX,
            st@ == stem@,
            prefix@ == stem@ + seq!['.'],
            r@.map_values(|k: usize| k as int) == related_spec(nv, stem@, i as int),
        decreases names.len() - i,
    {
        assert(nv[i as int] == names@[i as int]@);
        let name = str_chars(names[i].as_str());
        let has_stem = match crate::paths::file_name_exec(&name) {
            Some(_) => true,
            None => false,
        };
        let s = file_stem_or_empty(&name);
        if has_stem && (chars_eq(&s, &st) || occurs_at_exec(&s, 0, &prefix) || occurs_at_exec(&name, 0, &prefix)) {
            let ghost before = r@;
            r.push(i);
            assert(r@.map_values(|k: usize| k as int) =~= before.map_values(|k: usize| k as int).push(i as int));
        }
        i += 1;
    }
    r
}

pub open spec fn word_mp4() -> Seq<char> {
    seq!['m', 'p', '4']
}

/// Whether `stem` is the stem of one of the series' episode files.
pub open spec fn known_stem(s: SeriesView, stem: Seq<char>) -> bool {
    exists|k: int| 0 <= k < s.episodes.len() && file_stem(s.episodes[k].filename) == Some(stem)
}

/// Whether a file of the series' `.remux` folder is a leftover copy: an
/// `.mp4` whose stem is no episode's.
pub open spec fn orphan_spec(s: SeriesView, name: Seq<char>) -> bool {
    extension(name) == Some(word_mp4()) && match file_stem(name) {
        Some(st) => !known_stem(s, st),
        None => false,
    }
}

/// The positions of the first `n` names that are leftover copies.
pub open spec fn orphans_spec(s: SeriesView, names: Seq<Seq<char>>, n: int) -> Seq<int>
    decreases n,
{
    if n <= 0 || n > names.len() {
        Seq::empty()
    } else {
        let prev = orphans_spec(s, names, n - 1);
        if orphan_spec(s, names[n - 1]) {
            prev.push(n - 1)
        } else {
            prev
        }
    }
}

fn known_stem_exec(series: &Series, stem: &Vec<char>) -> (r: bool)
    requires
        forall|k: int| 0 <= k < series.episodes@.len() ==> (#[trigger] series.episodes@[k]).filename@.len() < isize::MAX,
    ensures
        r == known_stem(series@, stem@),
{
    let ghost sv = series@;
    let mut k: usize = 0;
    while k < series.episodes.len()
        invariant
            k <= series.episodes.len(),
            sv == series@,
            forall|j: int| 0 <= j < series.episodes@.len() ==> (#[trigger] series.episodes@[j]).filename@.len() < isize::MAX,
            forall|j: int| 0 <= j < k ==> file_stem(sv.episodes[j].filename) != Some(stem@),
        decreases series.episodes.len() - k,
    {
        assert(sv.episodes[k as int] == series.episodes@[k as int]@);
        let f = str_chars(series.episodes[k].filename.as_str());
        let has = match file_name_exec(&f) {
            Some(_) => true,
            None => false,
        };
        let st = file_stem_or_empty(&f);
        if has && chars_eq(&st, stem) {
            return true;
        }
        k += 1;
    }
    false
}

/// The files of a series' `.remux` folder to remove: `.mp4` copies whose
/// stem is the stem of none of its episodes, by position in the listing.
pub fn orphaned_copies(series: &Series, names: &Vec<String>) -> (r: Vec<usize>)
    requires
        forall|k: int| 0 <= k < names@.len() ==> (#[trigger] names@[k])@.len() < isize::MAX,
        forall|k: int| 0 <= k < series.episodes@.len() ==> (#[trigger] series.episodes@[k]).filename@.len() < isize::MAX,
    ensures
        r@.map_values(|k: usize| k as int) == orphans_spec(series@, names@.map_values(|n: String| n@), names@.len() as int),
{
    let ghost nv = names@.map_values(|n: String| n@);
    let mp4 = vec!['m', 'p', '4'];
    assert(mp4@ =~= word_mp4());
    let mut r: Vec<usize> = Vec::new();
    let mut i: usize = 0;
    while i < names.len()
        invariant
            i <= names.len(),
            nv == names@.map_values(|n: String| n@),
            forall|k: int| 0 <= k < names@.len() ==> (#[trigger] names@[k])@.len() < isize::MAX,
            forall|k: int| 0 <= k < series.episodes@.len() ==> (#[trigger] series.episodes@[k]).filename@.len() < isize::MAX,
            mp4@ == word_mp4(),
            r@.map_values(|k: usize| k as int) == orphans_spec(series@, nv, i as int),
        decreases names.len() - i,
    {
        assert(nv[i as int] == names@[i as int]@);
        let name = str_chars(names[i].as_str());
        let is_mp4 = match extension_exec(&name) {
            Some(e) => chars_eq(&e, &mp4),
            None => false,
        };
        if is_mp4 {
            let st = file_stem_or_empty(&name);
            assert(file_stem(name@) is Some);
            if !known_stem_exec(series, &st) {
                let ghost before = r@;
                r.push(i);
                assert(r@.map_values(|k: usize| k as int) =~= before.map_values(|k: usize| k as int).push(i as int));
            }
        }
        i += 1;
    }
    r
}

} // verus!
