//! The "continue watching" row: for each series with watch progress, the
//! episode to resume or the one after the last finished, most recent first.
use vstd::prelude::*;
use crate::text::{str_chars, string_of, chars_eq, str_lt, str_lt_exec};
use crate::library::{Series, Episode, EpisodeView, SeriesView};
use crate::routes::{
    ProgressMark, ProgressView, mark_views, episode_views, episode_with_id, episode_with_index,
    episode_with_id_exec, episode_with_index_exec, lemma_no_index_beyond,
};
use crate::sorting::{sorted_by_keys, sort_by_keys};

verus! {

/// The record of an episode in a table keyed by episode id (the first one
/// with that id).
pub open spec fn record_of(ps: Seq<ProgressView>, id: Seq<char>, i: int) -> Option<int>
    decreases ps.len() - i,
{
    if i < 0 || i >= ps.len() {
        None
    } else if ps[i].episode_id == id {
        Some(i)
    } else {
        record_of(ps, id, i + 1)
    }
}

/// The records of the first `n` episodes, in episode order.
pub open spec fn series_records(es: Seq<EpisodeView>, ps: Seq<ProgressView>, n: int) -> Seq<int>
    decreases n,
{
    if n <= 0 || n > es.len() {
        Seq::empty()
    } else {
        let prev = series_records(es, ps, n - 1);
        match record_of(ps, es[n - 1].id, 0) {
            Some(k) => prev.push(k),
            None => prev,
        }
    }
}

/// The first of the records `rs` from `i` on that is started and not completed.
pub open spec fn first_started(ps: Seq<ProgressView>, rs: Seq<int>, i: int) -> Option<int>
    decreases rs.len() - i,
{
    if i < 0 || i >= rs.len() {
        None
    } else if !ps[rs[i]].completed && ps[rs[i]].started {
        Some(rs[i])
    } else {
        first_started(ps, rs, i + 1)
    }
}

/// Whether the record of an episode marks it as completed.
pub open spec fn completed_record(ps: Seq<ProgressView>, id: Seq<char>) -> bool {
    match record_of(ps, id, 0) {
        Some(k) => ps[k].completed,
        None => false,
    }
}

/// The largest sort index among the first `n` episodes whose record marks
/// them completed.
pub open spec fn max_finished(es: Seq<EpisodeView>, ps: Seq<ProgressView>, n: int) -> Option<usize>
    decreases n,
{
    if n <= 0 || n > es.len() {
        None
    } else {
        let prev = max_finished(es, ps, n - 1);
        if completed_record(ps, es[n - 1].id) {
            match prev {
                Some(m) => Some(if m < es[n - 1].index { es[n - 1].index } else { m }),
                None => Some(es[n - 1].index),
            }
        } else {
            prev
        }
    }
}

/// The latest `updated_at` among the records `rs[..n]` (in string order).
pub open spec fn latest_update(ps: Seq<ProgressView>, rs: Seq<int>, n: int) -> Seq<char>
    decreases n,
{
    if n <= 0 || n > rs.len() {
        Seq::empty()
    } else if n == 1 {
        ps[rs[0]].updated_at
    } else {
        let prev = latest_update(ps, rs, n - 1);
        if str_lt(prev, ps[rs[n - 1]].updated_at) {
            ps[rs[n - 1]].updated_at
        } else {
            prev
        }
    }
}

/// Why a series is in the row.
#[derive(Debug, Clone, Copy, PartialEq, Eq, Structural)]
pub enum WatchReason {
    /// Its episode was started and not finished.
    Resume,
    /// It is the episode after the last one finished.
    Next,
}

/// What the row holds of one series: its episode, why, and the time that
/// orders it.
pub struct WatchPick {
    pub episode: usize,
    pub reason: WatchReason,
    pub updated_at: Seq<char>,
}

/// The pick of a series, if it belongs in the row: the first episode (in
/// episode order) whose record is started and not completed; else the
/// episode after the highest-index completed one, ordered by the latest
/// record of the series; none for a series without records or with all
/// watched.
pub open spec fn watch_pick(es: Seq<EpisodeView>, ps: Seq<ProgressView>) -> Option<WatchPick> {
    let rs = series_records(es, ps, es.len() as int);
    let resume = match first_started(ps, rs, 0) {
        Some(k) => match episode_with_id(es, ps[k].episode_id, 0) {
            Some(j) => Some(WatchPick { episode: j as usize, reason: WatchReason::Resume, updated_at: ps[k].updated_at }),
            None => None,
        },
        None => None,
    };
    if es.len() == 0 || rs.len() == 0 {
        None
    } else if resume is Some {
        resume
    } else {
        match max_finished(es, ps, es.len() as int) {
            Some(m) => match episode_with_index(es, m + 1, 0) {
                Some(j) => Some(WatchPick { episode: j as usize, reason: WatchReason::Next, updated_at: latest_update(ps, rs, rs.len() as int) }),
                None => None,
            },
            None => None,
        }
    }
}

/// One entry of the row: the series (by position in the library), its
/// episode (by position in the series), why it is there, and its time.
pub struct WatchingItem {
    pub series: usize,
    pub episode: usize,
    pub reason: WatchReason,
    pub updated_at: String,
}

pub struct WatchingView {
    pub series: usize,
    pub episode: usize,
    pub reason: WatchReason,
    pub updated_at: Seq<char>,
}

impl View for WatchingItem {
    type V = WatchingView;

    open spec fn view(&self) -> WatchingView {
        WatchingView { series: self.series, episode: self.episode, reason: self.reason, updated_at: self.updated_at@ }
    }
}

/// The entries of the first `n` series, in library order.
pub open spec fn watching_entries(series: Seq<SeriesView>, ps: Seq<ProgressView>, n: int) -> Seq<WatchingView>
    decreases n,
{
    if n <= 0 || n > series.len() {
        Seq::empty()
    } else {
        let prev = watching_entries(series, ps, n - 1);
        match watch_pick(series[n - 1].episodes, ps) {
            Some(p) => prev.push(
                WatchingView { series: (n - 1) as usize, episode: p.episode, reason: p.reason, updated_at: p.updated_at },
            ),
            None => prev,
        }
    }
}

pub open spec fn watching_times(ws: Seq<WatchingView>) -> Seq<Seq<char>> {
    ws.map_values(|w: WatchingView| w.updated_at)
}

fn record_of_exec(ps: &Vec<ProgressMark>, id: &Vec<char>) -> (r: Option<usize>)
    ensures
        r matches Some(k) ==> record_of(mark_views(ps@), id@, 0) == Some(k as int) && k < ps.len(),
        r is None ==> record_of(mark_views(ps@), id@, 0) is None,
{
    let ghost pv = mark_views(ps@);
    let mut i: usize = 0;
    while i < ps.len()
        invariant
            i <= ps.len(),
            pv == mark_views(ps@),
            record_of(pv, id@, 0) == record_of(pv, id@, i as int),
        decreases ps.len() - i,
    {
        assert(pv[i as int] == ps@[i as int]@);
        let k = str_chars(ps[i].episode_id.as_str());
        if chars_eq(&k, id) {
            return Some(i);
        }
        i += 1;
    }
    None
}

proof fn lemma_record_of_bound(ps: Seq<ProgressView>, id: Seq<char>, i: int)
    ensures
        record_of(ps, id, i) matches Some(k) ==> i <= k < ps.len(),
    decreases ps.len() - i,
{
    if 0 <= i < ps.len() && ps[i].episode_id != id {
        lemma_record_of_bound(ps, id, i + 1);
    }
}

proof fn lemma_series_records_bound(es: Seq<EpisodeView>, ps: Seq<ProgressView>, n: int)
    ensures
        forall|k: int| 0 <= k < series_records(es, ps, n).len() ==> 0 <= #[trigger] series_records(es, ps, n)[k] < ps.len(),
    decreases n,
{
    if n > 0 && n <= es.len() {
        lemma_series_records_bound(es, ps, n - 1);
        lemma_record_of_bound(ps, es[n - 1].id, 0);
        let prev = series_records(es, ps, n - 1);
        let cur = series_records(es, ps, n);
        assert forall|k: int| 0 <= k < cur.len() implies 0 <= #[trigger] cur[k] < ps.len() by {
            if k < prev.len() {
                assert(cur[k] == prev[k]);
            }
        }
    }
}

fn max_finished_exec(es: &Vec<Episode>, ps: &Vec<ProgressMark>) -> (r: Option<usize>)
    ensures
        r == max_finished(episode_views(es@), mark_views(ps@), es.len() as int),
{
    let ghost ev = episode_views(es@);
    let ghost pv = mark_views(ps@);
    let mut best: Option<usize> = None;
    let mut n: usize = 0;
    while n < es.len()
        invariant
            n <= es.len(),
            ev == episode_views(es@),
            pv == mark_views(ps@),
            best == max_finished(ev, pv, n as int),
        decreases es.len() - n,
    {
        assert(ev[n as int] == es@[n as int]@);
        let id = str_chars(es[n].id.as_str());
        let done = match record_of_exec(ps, &id) {
            Some(k) => {
                assert(pv[k as int] == ps@[k as int]@);
                ps[k].completed
            },
            None => false,
        };
        if done {
            let x = es[n].index;
            best = match best {
                Some(m) => Some(if m < x { x } else { m }),
                None => Some(x),
            };
        }
        n += 1;
    }
    best
}

fn latest_update_exec(ps: &Vec<ProgressMark>, rs: &Vec<usize>, rsv: Ghost<Seq<int>>) -> (r: String)
    requires
        rs.len() > 0,
        rs@.map_values(|k: usize| k as int) == rsv@,
        forall|k: int| 0 <= k < rs.len() ==> #[trigger] rs@[k] < ps.len(),
    ensures
        r@ == latest_update(mark_views(ps@), rsv@, rsv@.len() as int),
{
    let ghost pv = mark_views(ps@);
    let k0 = rs[0];
    assert(rsv@[0] == k0 as int);
    assert(pv[k0 as int] == ps@[k0 as int]@);
    let mut latest = str_chars(ps[k0].updated_at.as_str());
    let mut q: usize = 1;
    while q < rs.len()
        invariant
            1 <= q <= rs.len(),
            pv == mark_views(ps@),
            rs@.map_values(|k: usize| k as int) == rsv@,
            forall|k: int| 0 <= k < rs.len() ==> #[trigger] rs@[k] < ps.len(),
            latest@ == latest_update(pv, rsv@, q as int),
        decreases rs.len() - q,
    {
        let k = rs[q];
        assert(rsv@[q as int] == k as int);
        assert(pv[k as int] == ps@[k as int]@);
        let t = str_chars(ps[k].updated_at.as_str());
        if str_lt_exec(&latest, &t) {
            latest = t;
        }
        q += 1;
    }
    string_of(&latest)
}

/// The pick of one series.
fn watch_pick_exec(es: &Vec<Episode>, ps: &Vec<ProgressMark>) -> (r: Option<(usize, WatchReason, String)>)
    ensures
        match watch_pick(episode_views(es@), mark_views(ps@)) {
            Some(p) => r matches Some(t) && t.0 == p.episode && t.1 == p.reason && t.2@ == p.updated_at,
            None => r is None,
        },
{
    let ghost ev = episode_views(es@);
    let ghost pv = mark_views(ps@);
    // the records of the series, in episode order
    let mut rs: Vec<usize> = Vec::new();
    let mut i: usize = 0;
    while i < es.len()
        invariant
            i <= es.len(),
            ev == episode_views(es@),
            pv == mark_views(ps@),
            rs@.map_values(|k: usize| k as int) == series_records(ev, pv, i as int),
            forall|k: int| 0 <= k < rs.len() ==> #[trigger] rs@[k] < ps.len(),
        decreases es.len() - i,
    {
        assert(ev[i as int] == es@[i as int]@);
        let id = str_chars(es[i].id.as_str());
        match record_of_exec(ps, &id) {
            Some(k) => {
                let ghost old_rs = rs@;
                rs.push(k);
                assert(rs@.map_values(|k: usize| k as int) =~= old_rs.map_values(|k: usize| k as int).push(k as int));
            },
            None => {},
        }
        i += 1;
    }
    let ghost rsv = series_records(ev, pv, ev.len() as int);
    if es.len() == 0 || rs.len() == 0 {
        return None;
    }
    // a record that is started and not completed, in episode order
    let mut j: usize = 0;
    let mut started: Option<usize> = None;
    while j < rs.len()
        invariant_except_break
            started is None,
            first_started(pv, rsv, 0) == first_started(pv, rsv, j as int),
        invariant
            j <= rs.len(),
            pv == mark_views(ps@),
            rs@.map_values(|k: usize| k as int) == rsv,
            forall|k: int| 0 <= k < rs.len() ==> #[trigger] rs@[k] < ps.len(),
        ensures
            started is None ==> first_started(pv, rsv, 0) is None,
            started matches Some(k) ==> first_started(pv, rsv, 0) == Some(k as int) && k < ps.len(),
        decreases rs.len() - j,
    {
        let k = rs[j];
        assert(rsv[j as int] == k as int);
        assert(pv[k as int] == ps@[k as int]@);
        if !ps[k].completed && ps[k].started {
            assert(rsv.len() == rs.len());
            assert(first_started(pv, rsv, j as int) == Some(k as int));
            started = Some(k);
            break;
        }
        j += 1;
    }
    match started {
        Some(k) => {
            assert(pv[k as int] == ps@[k as int]@);
            let id = str_chars(ps[k].episode_id.as_str());
            match episode_with_id_exec(es, &id) {
                Some(e) => {
                    let t = str_chars(ps[k].updated_at.as_str());
                    return Some((e, WatchReason::Resume, string_of(&t)));
                },
                None => {},
            }
        },
        None => {},
    }
    let best = max_finished_exec(es, ps);
    let m = match best {
        Some(m) => m,
        None => return None,
    };
    if m == usize::MAX {
        proof {
            lemma_no_index_beyond(ev, m + 1, 0);
        }
        return None;
    }
    let e = match episode_with_index_exec(es, m + 1) {
        Some(e) => e,
        None => return None,
    };
    let latest = latest_update_exec(ps, &rs, Ghost(rsv));
    Some((e, WatchReason::Next, latest))
}

/// The "continue watching" row of a library: for each series that has a
/// pick (see [`watch_pick`]), an entry, the most recently updated first
/// (series of equal time keep library order).
pub fn continue_watching(series: &Vec<Series>, progress: &Vec<ProgressMark>) -> (r: Vec<WatchingItem>)
    ensures
        sorted_by_keys(
            r@.map_values(|w: WatchingItem| w@),
            watching_entries(series@.map_values(|s: Series| s@), mark_views(progress@), series@.len() as int),
            watching_times(watching_entries(series@.map_values(|s: Series| s@), mark_views(progress@), series@.len() as int)),
            true,
        ),
{
    let ghost sv = series@.map_values(|s: Series| s@);
    let ghost pv = mark_views(progress@);
    let mut items: Vec<WatchingItem> = Vec::new();
    let mut keys: Vec<Vec<char>> = Vec::new();
    let mut i: usize = 0;
    while i < series.len()
        invariant
            i <= series.len(),
            sv == series@.map_values(|s: Series| s@),
            pv == mark_views(progress@),
            items@.map_values(|w: WatchingItem| w@) == watching_entries(sv, pv, i as int),
            keys.deep_view() == watching_times(watching_entries(sv, pv, i as int)),
            keys.len() == items.len(),
        decreases series.len() - i,
    {
        assert(sv[i as int] == series@[i as int]@);
        assert(sv[i as int].episodes == episode_views(series@[i as int].episodes@));
        match watch_pick_exec(&series[i].episodes, progress) {
            Some((e, reason, t)) => {
                let key = str_chars(t.as_str());
                let item = WatchingItem { series: i, episode: e, reason, updated_at: t };
                let ghost old_items = items@;
                let ghost old_keys = keys@;
                let ghost kd = keys.deep_view();
                items.push(item);
                keys.push(key);
                proof {
                    let prev = watching_entries(sv, pv, i as int);
                    assert(items@.map_values(|w: WatchingItem| w@) =~= prev.push(item@));
                    assert(keys@ == old_keys.push(key));
                    assert(keys.deep_view() =~= watching_times(prev.push(item@))) by {
                        assert forall|j: int| 0 <= j < keys.deep_view().len() implies #[trigger] keys.deep_view()[j] == watching_times(prev.push(item@))[j] by {
                            if j < old_keys.len() {
                                assert(keys@[j] == old_keys[j]);
                                assert(kd[j] == watching_times(prev)[j]);
                            }
                        }
                    }
                }
            },
            None => {},
        }
        i += 1;
    }
    let ghost unsorted = items@;
    assert(keys.deep_view().len() == keys.len());
    let r = sort_by_keys(items, &keys, true);
    proof {
        lemma_sorted_item_views(r@, unsorted, keys.deep_view());
    }
    r
}

proof fn lemma_sorted_item_views(out: Seq<WatchingItem>, items: Seq<WatchingItem>, keys: Seq<Seq<char>>)
    requires
        items.len() == keys.len(),
        sorted_by_keys(out, items, keys, true),
    ensures
        sorted_by_keys(
            out.map_values(|w: WatchingItem| w@),
            items.map_values(|w: WatchingItem| w@),
            keys,
            true,
        ),
{
    let perm = choose|perm: Seq<int>|
        crate::sorting::is_sorting_perm(perm, keys, true) && out.len() == perm.len() && forall|k: int|
            0 <= k < out.len() ==> #[trigger] out[k] == items[perm[k]];
    let ov = out.map_values(|w: WatchingItem| w@);
    let iv = items.map_values(|w: WatchingItem| w@);
    assert forall|k: int| 0 <= k < ov.len() implies #[trigger] ov[k] == iv[perm[k]] by {
        assert(0 <= perm[k] < items.len());
    }
}

/// The row holds each series at most once, and names each by its place in
/// the library: before sorting, the entries go by increasing series
/// position.
pub proof fn lemma_row_series_distinct(series: Seq<SeriesView>, ps: Seq<ProgressView>, n: int)
    requires
        series.len() <= usize::MAX,
    ensures
        forall|a: int, b: int|
            0 <= a < b < watching_entries(series, ps, n).len() ==> (#[trigger] watching_entries(series, ps, n)[a]).series
                < (#[trigger] watching_entries(series, ps, n)[b]).series,
        forall|a: int| 0 <= a < watching_entries(series, ps, n).len() ==> (#[trigger] watching_entries(series, ps, n)[a]).series < n,
    decreases n,
{
    if n > 0 && n <= series.len() {
        lemma_row_series_distinct(series, ps, n - 1);
        let prev = watching_entries(series, ps, n - 1);
        let cur = watching_entries(series, ps, n);
        assert forall|a: int| 0 <= a < cur.len() implies (#[trigger] cur[a]).series < n by {
            if a < prev.len() {
                assert(cur[a] == prev[a]);
            }
        }
        assert forall|a: int, b: int| 0 <= a < b < cur.len() implies (#[trigger] cur[a]).series < (#[trigger] cur[b]).series by {
            assert(cur[a] == prev[a]);
            if b < prev.len() {
                assert(cur[b] == prev[b]);
            }
        }
    } else if n > series.len() {
        assert(watching_entries(series, ps, n) =~= Seq::<WatchingView>::empty());
    }
}

/// The row comes most recent first: of two entries, the earlier one's time
/// is not before the later one's.
pub proof fn lemma_row_most_recent_first(row: Seq<WatchingView>, series: Seq<SeriesView>, ps: Seq<ProgressView>, a: int, b: int)
    requires
        sorted_by_keys(
            row,
            watching_entries(series, ps, series.len() as int),
            watching_times(watching_entries(series, ps, series.len() as int)),
            true,
        ),
        0 <= a < b < row.len(),
    ensures
        !str_lt(row[a].updated_at, row[b].updated_at),
{
    let items = watching_entries(series, ps, series.len() as int);
    let keys = watching_times(items);
    crate::sorting::lemma_sorted_keys_in_order(row, items, keys, true, a, b);
    let (ia, ib) = choose|ia: int, ib: int|
        0 <= ia < items.len() && 0 <= ib < items.len() && row[a] == items[ia] && row[b] == items[ib]
            && crate::sorting::goes_before(keys[ia], ia, keys[ib], ib, true);
    assert(keys[ia] == items[ia].updated_at);
    assert(keys[ib] == items[ib].updated_at);
    if str_lt(keys[ib], keys[ia]) {
        crate::text::lemma_str_lt_asym(keys[ib], keys[ia]);
    } else {
        crate::text::lemma_str_lt_irreflexive(keys[ia]);
    }
}


proof fn lemma_max_finished_is_largest(es: Seq<EpisodeView>, ps: Seq<ProgressView>, n: int)
    requires
        0 <= n <= es.len(),
    ensures
        max_finished(es, ps, n) matches Some(m) ==> exists|k: int|
            0 <= k < n && completed_record(ps, (#[trigger] es[k]).id) && es[k].index == m,
        max_finished(es, ps, n) matches Some(m) ==> forall|k: int|
            0 <= k < n && completed_record(ps, (#[trigger] es[k]).id) ==> es[k].index <= m,
        max_finished(es, ps, n) is None ==> forall|k: int| 0 <= k < n ==> !completed_record(ps, (#[trigger] es[k]).id),
    decreases n,
{
    if n > 0 {
        lemma_max_finished_is_largest(es, ps, n - 1);
    }
}

proof fn lemma_episode_with_index_found(es: Seq<EpisodeView>, x: int, i: int)
    ensures
        episode_with_index(es, x, i) matches Some(j) ==> 0 <= j < es.len() && es[j].index == x,
    decreases es.len() - i,
{
    if 0 <= i < es.len() && es[i].index != x {
        lemma_episode_with_index_found(es, x, i + 1);
    }
}

/// A series picked for the row because of finished episodes shows the
/// episode right after the last one finished: its index is one more than
/// the index of some finished episode, and above the index of every
/// finished episode.
pub proof fn lemma_next_pick_follows_last_finished(es: Seq<EpisodeView>, ps: Seq<ProgressView>)
    requires
        es.len() <= usize::MAX,
        watch_pick(es, ps) is Some,
        watch_pick(es, ps).unwrap().reason == WatchReason::Next,
    ensures
        0 <= watch_pick(es, ps).unwrap().episode < es.len(),
        exists|k: int|
            0 <= k < es.len() && completed_record(ps, (#[trigger] es[k]).id) && es[k].index + 1
                == es[watch_pick(es, ps).unwrap().episode as int].index,
        forall|k: int|
            0 <= k < es.len() && completed_record(ps, (#[trigger] es[k]).id) ==> es[k].index
                < es[watch_pick(es, ps).unwrap().episode as int].index,
{
    let n = es.len() as int;
    lemma_max_finished_is_largest(es, ps, n);
    let m = max_finished(es, ps, n).unwrap();
    lemma_episode_with_index_found(es, m + 1, 0);
    let j = episode_with_index(es, m + 1, 0).unwrap();
    assert(watch_pick(es, ps).unwrap().episode == j as usize);
    assert((j as usize) as int == j);
    let k = choose|k: int| 0 <= k < n && completed_record(ps, (#[trigger] es[k]).id) && es[k].index == m;
    assert(es[k].index + 1 == es[j].index);
}

} // verus!
