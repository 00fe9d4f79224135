//! Converting videos to MP4 for Apple devices: where the converted copy of a
//! video goes, the ffmpeg arguments that make it, and the decisions of the
//! on-demand, per-series and background conversions.
use vstd::prelude::*;
use crate::text::{str_chars, string_of, sub_vec, append_chars, chars_eq, run_end, run_end_exec, lemma_run_end, CharClass};
use crate::paths::{last_index_of, last_index_of_exec, lemma_last_index_of, stem_of};
use crate::media::{word_end, first_word};
use crate::unicode::{is_space, is_space_exec};

verus! {

// ---------------------------------------------------------------------------
// Where the MP4 copy goes
// ---------------------------------------------------------------------------

/// The folder part of a relative path `dir/name` (empty without a `/`).
pub open spec fn dir_part(p: Seq<char>) -> Seq<char> {
    let k = last_index_of(p, '/', p.len() as int);
    if k < 0 {
        Seq::empty()
    } else {
        p.subrange(0, k)
    }
}

/// The name part of a relative path `dir/name`.
pub open spec fn name_part(p: Seq<char>) -> Seq<char> {
    let k = last_index_of(p, '/', p.len() as int);
    p.subrange(k + 1, p.len() as int)
}

/// `name` in the folder `dir` (just `name` when `dir` is empty).
pub open spec fn in_dir(dir: Seq<char>, name: Seq<char>) -> Seq<char> {
    if dir.len() == 0 {
        name
    } else {
        dir + seq!['/'] + name
    }
}

pub open spec fn dot_mp4() -> Seq<char> {
    seq!['.', 'm', 'p', '4']
}

pub open spec fn dot_tmp() -> Seq<char> {
    seq!['.', 't', 'm', 'p']
}

pub open spec fn remux_dir() -> Seq<char> {
    seq!['.', 'r', 'e', 'm', 'u', 'x']
}

/// The places of a video's MP4 copy, relative like the video: the stem of
/// the video, the copy beside it, the partial file that a conversion
/// writes, and the copy under `.remux` that older versions made.
pub struct RemuxTargets {
    pub stem: String,
    pub mp4: String,
    pub tmp: String,
    pub legacy: String,
}

pub open spec fn targets_of(p: Seq<char>) -> (Seq<char>, Seq<char>, Seq<char>, Seq<char>) {
    let d = dir_part(p);
    let st = stem_of(name_part(p));
    (
        st,
        in_dir(d, st + dot_mp4()),
        in_dir(d, st + dot_mp4() + dot_tmp()),
        in_dir(in_dir(d, remux_dir()), st + dot_mp4()),
    )
}

fn in_dir_exec(dir: &Vec<char>, name: &Vec<char>) -> (r: Vec<char>)
    ensures
        r@ == in_dir(dir@, name@),
{
    if dir.len() == 0 {
        let r = sub_vec(name, 0, name.len());
        assert(name@.subrange(0, name@.len() as int) =~= name@);
        r
    } else {
        let mut r = sub_vec(dir, 0, dir.len());
        assert(dir@.subrange(0, dir@.len() as int) =~= dir@);
        r.push('/');
        append_chars(&mut r, name);
        r
    }
}

/// Where the MP4 copy of the video at relative path `path` goes.
pub fn remux_targets(path: &str) -> (r: RemuxTargets)
    requires
        path@.len() < 0x1000_0000,
    ensures
        (r.stem@, r.mp4@, r.tmp@, r.legacy@) == targets_of(path@),
{
    let p = str_chars(path);
    let k = last_index_of_exec(&p, '/', p.len());
    proof {
        lemma_last_index_of(p@, '/', p.len() as int);
    }
    let d = if k < 0 {
        Vec::new()
    } else {
        sub_vec(&p, 0, k as usize)
    };
    let name = sub_vec(&p, (k + 1) as usize, p.len());
    let dot = last_index_of_exec(&name, '.', name.len());
    proof {
        lemma_last_index_of(name@, '.', name.len() as int);
    }
    let st = if dot <= 0 {
        sub_vec(&name, 0, name.len())
    } else {
        sub_vec(&name, 0, dot as usize)
    };
    assert(name@.subrange(0, name@.len() as int) =~= name@);
    assert(st@ == stem_of(name@));
    let mut mp4_name = sub_vec(&st, 0, st.len());
    assert(st@.subrange(0, st@.len() as int) =~= st@);
    append_chars(&mut mp4_name, &vec!['.', 'm', 'p', '4']);
    let mut tmp_name = sub_vec(&mp4_name, 0, mp4_name.len());
    assert(mp4_name@.subrange(0, mp4_name@.len() as int) =~= mp4_name@);
    append_chars(&mut tmp_name, &vec!['.', 't', 'm', 'p']);
    let mp4 = in_dir_exec(&d, &mp4_name);
    let tmp = in_dir_exec(&d, &tmp_name);
    let rd = in_dir_exec(&d, &vec!['.', 'r', 'e', 'm', 'u', 'x']);
    let legacy = in_dir_exec(&rd, &mp4_name);
    proof {
        assert(mp4_name@ =~= st@ + dot_mp4());
        assert(tmp_name@ =~= st@ + dot_mp4() + dot_tmp());
        assert(seq!['.', 'r', 'e', 'm', 'u', 'x'] =~= remux_dir());
    }
    RemuxTargets { stem: string_of(&st), mp4: string_of(&mp4), tmp: string_of(&tmp), legacy: string_of(&legacy) }
}

/// The partial file of a conversion is its MP4 copy's path with `.tmp`
/// added, beside the video, and the copy keeps the video's stem.
pub proof fn lemma_partial_beside_copy(p: Seq<char>)
    ensures
        targets_of(p).2 == targets_of(p).1 + dot_tmp(),
        targets_of(p).1 == in_dir(dir_part(p), targets_of(p).0 + dot_mp4()),
{
    let d = dir_part(p);
    let st = stem_of(name_part(p));
    if d.len() == 0 {
        assert(st + dot_mp4() + dot_tmp() =~= (st + dot_mp4()) + dot_tmp());
    } else {
        assert(d + seq!['/'] + (st + dot_mp4() + dot_tmp()) =~= (d + seq!['/'] + (st + dot_mp4())) + dot_tmp());
    }
}

// ---------------------------------------------------------------------------
// ffmpeg arguments
// ---------------------------------------------------------------------------

/// The white-space separated words of `s[i..]` (`split_whitespace`).
pub open spec fn words_from(s: Seq<char>, i: int) -> Seq<Seq<char>>
    decreases s.len() - i,
{
    if i < 0 || i >= s.len() {
        Seq::empty()
    } else {
        let a = run_end(s, i, CharClass::Space);
        if a >= s.len() {
            Seq::empty()
        } else {
            let b = word_end(s, a);
            if b <= i || b > s.len() {
                Seq::empty()
            } else {
                seq![s.subrange(a, b)] + words_from(s, b)
            }
        }
    }
}

pub open spec fn words(s: Seq<char>) -> Seq<Seq<char>> {
    words_from(s, 0)
}

proof fn lemma_word_end_past(s: Seq<char>, a: int)
    requires
        0 <= a < s.len(),
        !is_space(s[a]),
    ensures
        a < word_end(s, a) <= s.len(),
        forall|k: int| a <= k < word_end(s, a) ==> !is_space(#[trigger] s[k]),
    decreases s.len() - a,
{
    assert(word_end(s, a) == word_end(s, a + 1));
    if a + 1 < s.len() && !is_space(s[a + 1]) {
        lemma_word_end_past(s, a + 1);
    } else {
        assert(word_end(s, a + 1) == a + 1);
    }
}

fn words_exec(s: &Vec<char>) -> (r: Vec<Vec<char>>)
    ensures
        r.deep_view() == words(s@),
{
    let mut r: Vec<Vec<char>> = Vec::new();
    let mut i: usize = 0;
    while i < s.len()
        invariant
            i <= s.len(),
            r.deep_view() + words_from(s@, i as int) == words(s@),
        decreases s.len() - i,
    {
        let a = run_end_exec(s, i, CharClass::Space);
        proof {
            lemma_run_end(s@, i as int, CharClass::Space);
        }
        if a >= s.len() {
            assert(words_from(s@, i as int) =~= Seq::<Seq<char>>::empty());
            assert(words_from(s@, s.len() as int) =~= Seq::<Seq<char>>::empty());
            i = s.len();
        } else {
            proof {
                lemma_word_end_past(s@, a as int);
            }
            let mut b = a;
            while b < s.len() && !is_space_exec(s[b])
                invariant
                    a <= b <= s.len(),
                    word_end(s@, a as int) == word_end(s@, b as int),
                decreases s.len() - b,
            {
                b += 1;
            }
            let w = sub_vec(s, a, b);
            let ghost rd = r.deep_view();
            let ghost rs = r@;
            r.push(w);
            proof {
                assert(r.deep_view() =~= rd.push(w@)) by {
                    assert forall|k: int| 0 <= k < r.deep_view().len() implies #[trigger] r.deep_view()[k] == rd.push(w@)[k] by {
                        if k < rs.len() {
                            assert(r@[k] == rs[k]);
                        }
                    }
                }
                assert(rd + words_from(s@, i as int) =~= rd.push(w@) + words_from(s@, b as int));
            }
            i = b;
        }
    }
    assert(words_from(s@, i as int) =~= Seq::<Seq<char>>::empty());
    assert(r.deep_view() + Seq::<Seq<char>>::empty() =~= r.deep_view());
    r
}

pub open spec fn copy_codec() -> Seq<char> {
    seq!['c', 'o', 'p', 'y']
}

/// The arguments before the video encoder's own options.
pub open spec fn head_args(source: Seq<char>, codec: Seq<char>) -> Seq<Seq<char>> {
    seq![
        seq!['-', 'h', 'i', 'd', 'e', '_', 'b', 'a', 'n', 'n', 'e', 'r'],
        seq!['-', 'l', 'o', 'g', 'l', 'e', 'v', 'e', 'l'],
        seq!['w', 'a', 'r', 'n', 'i', 'n', 'g'],
        seq!['-', 'i'],
        source,
        seq!['-', 'c', ':', 'v'],
        codec,
    ]
}

/// The audio, stream-mapping and subtitle arguments, up to `-movflags`.
pub open spec fn middle_args() -> Seq<Seq<char>> {
    seq![
        seq!['-', 'c', ':', 'a'],
        seq!['a', 'a', 'c'],
        seq!['-', 'b', ':', 'a'],
        seq!['1', '9', '2', 'k'],
        seq!['-', 'a', 'c'],
        seq!['2'],
        seq!['-', 'm', 'a', 'p'],
        seq!['0', ':', 'v', ':', '0'],
        seq!['-', 'm', 'a', 'p'],
        seq!['0', ':', 'a', ':', '0'],
        seq!['-', 'm', 'a', 'p'],
        seq!['0', ':', 's', '?'],
        seq!['-', 'c', ':', 's'],
        seq!['m', 'o', 'v', '_', 't', 'e', 'x', 't'],
        seq!['-', 'm', 'o', 'v', 'f', 'l', 'a', 'g', 's'],
    ]
}

/// The end of the arguments: to a file, an MP4 with its index at the front
/// that replaces the file; else fragmented MP4 on standard output.
pub open spec fn tail_args(output: Option<Seq<char>>) -> Seq<Seq<char>> {
    match output {
        Some(path) => seq![
            seq!['+', 'f', 'a', 's', 't', 's', 't', 'a', 'r', 't'],
            seq!['-', 'f'],
            seq!['m', 'p', '4'],
            seq!['-', 'y'],
            path,
        ],
        None => seq![
            seq!['f', 'r', 'a', 'g', '_', 'k', 'e', 'y', 'f', 'r', 'a', 'm', 'e', '+', 'e', 'm', 'p', 't', 'y', '_', 'm', 'o', 'o', 'v', '+', 'd', 'e', 'f', 'a', 'u', 'l', 't', '_', 'b', 'a', 's', 'e', '_', 'm', 'o', 'o', 'f'],
            seq!['-', 'f'],
            seq!['m', 'p', '4'],
            seq!['p', 'i', 'p', 'e', ':', '1'],
        ],
    }
}

/// The ffmpeg arguments that convert `source` to MP4: the video stream with
/// `codec` (and, unless the codec is `copy`, the words of `extra`), the
/// first audio stream as stereo AAC at 192k, subtitles as `mov_text`.
pub open spec fn remux_args_spec(source: Seq<char>, codec: Seq<char>, extra: Seq<char>, output: Option<Seq<char>>) -> Seq<Seq<char>> {
    head_args(source, codec) + (if codec == copy_codec() {
        Seq::empty()
    } else {
        words(extra)
    }) + middle_args() + tail_args(output)
}

fn push_all(v: &mut Vec<String>, w: &Vec<Vec<char>>)
    ensures
        final(v)@.map_values(|t: String| t@) == old(v)@.map_values(|t: String| t@) + w.deep_view(),
{
    let ghost start = v@.map_values(|t: String| t@);
    let mut i: usize = 0;
    while i < w.len()
        invariant
            i <= w.len(),
            v@.map_values(|t: String| t@) == start + w.deep_view().take(i as int),
        decreases w.len() - i,
    {
        let t = string_of(&w[i]);
        let ghost before = v@;
        v.push(t);
        proof {
            assert(w.deep_view()[i as int] == w@[i as int]@);
            assert(v@.map_values(|t: String| t@) =~= before.map_values(|t: String| t@).push(t@));
            assert(w.deep_view().take(i + 1) =~= w.deep_view().take(i as int).push(w.deep_view()[i as int]));
        }
        i += 1;
    }
    assert(w.deep_view().take(w.len() as int) =~= w.deep_view());
}

fn head_args_exec(source: &Vec<char>, codec: &Vec<char>) -> (r: Vec<Vec<char>>)
    ensures
        r.deep_view() == head_args(source@, codec@),
{
    let r = vec![
        vec!['-', 'h', 'i', 'd', 'e', '_', 'b', 'a', 'n', 'n', 'e', 'r'],
        vec!['-', 'l', 'o', 'g', 'l', 'e', 'v', 'e', 'l'],
        vec!['w', 'a', 'r', 'n', 'i', 'n', 'g'],
        vec!['-', 'i'],
        sub_vec(source, 0, source.len()),
        vec!['-', 'c', ':', 'v'],
        sub_vec(codec, 0, codec.len()),
    ];
    assert(source@.subrange(0, source@.len() as int) =~= source@);
    assert(codec@.subrange(0, codec@.len() as int) =~= codec@);
    assert(r.deep_view() =~~= head_args(source@, codec@));
    r
}

fn middle_args_exec() -> (r: Vec<Vec<char>>)
    ensures
        r.deep_view() == middle_args(),
{
    let r = vec![
        vec!['-', 'c', ':', 'a'],
        vec!['a', 'a', 'c'],
        vec!['-', 'b', ':', 'a'],
        vec!['1', '9', '2', 'k'],
        vec!['-', 'a', 'c'],
        vec!['2'],
        vec!['-', 'm', 'a', 'p'],
        vec!['0', ':', 'v', ':', '0'],
        vec!['-', 'm', 'a', 'p'],
        vec!['0', ':', 'a', ':', '0'],
        vec!['-', 'm', 'a', 'p'],
        vec!['0', ':', 's', '?'],
        vec!['-', 'c', ':', 's'],
        vec!['m', 'o', 'v', '_', 't', 'e', 'x', 't'],
        vec!['-', 'm', 'o', 'v', 'f', 'l', 'a', 'g', 's'],
    ];
    assert(r.deep_view() =~~= middle_args());
    r
}

fn tail_args_exec(output: &Option<String>) -> (r: Vec<Vec<char>>)
    ensures
        r.deep_view() == tail_args(crate::library::opt_view(*output)),
{
    match output {
        Some(path) => {
            let p = str_chars(path.as_str());
            let r = vec![
                vec!['+', 'f', 'a', 's', 't', 's', 't', 'a', 'r', 't'],
                vec!['-', 'f'],
                vec!['m', 'p', '4'],
                vec!['-', 'y'],
                p,
            ];
            assert(r.deep_view() =~~= tail_args(crate::library::opt_view(*output)));
            r
        },
        None => {
            let r = vec![
                vec!['f', 'r', 'a', 'g', '_', 'k', 'e', 'y', 'f', 'r', 'a', 'm', 'e', '+', 'e', 'm', 'p', 't', 'y', '_', 'm', 'o', 'o', 'v', '+', 'd', 'e', 'f', 'a', 'u', 'l', 't', '_', 'b', 'a', 's', 'e', '_', 'm', 'o', 'o', 'f'],
                vec!['-', 'f'],
                vec!['m', 'p', '4'],
                vec!['p', 'i', 'p', 'e', ':', '1'],
            ];
            assert(r.deep_view() =~~= tail_args(crate::library::opt_view(*output)));
            r
        },
    }
}

/// The ffmpeg arguments that convert `source` to MP4, written to `output`
/// (replacing it) or, with no output, streamed as fragmented MP4.
pub fn remux_args(source: &str, codec: &str, extra: &str, output: &Option<String>) -> (r: Vec<String>)
    ensures
        r@.map_values(|t: String| t@) == remux_args_spec(source@, codec@, extra@, crate::library::opt_view(*output)),
{
    let src = str_chars(source);
    let c = str_chars(codec);
    let mut r: Vec<String> = Vec::new();
    assert(r@.map_values(|t: String| t@) =~= Seq::<Seq<char>>::empty());
    push_all(&mut r, &head_args_exec(&src, &c));
    let copy = vec!['c', 'o', 'p', 'y'];
    assert(copy@ =~= copy_codec());
    let ghost before = r@.map_values(|t: String| t@);
    if chars_eq(&c, &copy) {
        assert(before + Seq::<Seq<char>>::empty() =~= before);
    } else {
        let e = str_chars(extra);
        push_all(&mut r, &words_exec(&e));
    }
    push_all(&mut r, &middle_args_exec());
    push_all(&mut r, &tail_args_exec(output));
    r
}

// ---------------------------------------------------------------------------
// What to do with a video
// ---------------------------------------------------------------------------

/// What a request to prepare a video for playback finds.
#[derive(Debug, Clone, Copy, PartialEq, Eq, Structural)]
pub enum PrepareStep {
    /// The video plays as it is.
    Ready,
    /// Its MP4 copy exists.
    Converted,
    /// A conversion of it is running here.
    Converting,
    /// No conversion runs: start one, after removing a partial file that a
    /// stopped run left when `remove_partial`.
    Start { remove_partial: bool },
}

/// The decision of a prepare request, from what the file system and the
/// set of running conversions show.
pub open spec fn prepare_spec(needs_remux: bool, copy_exists: bool, legacy_exists: bool, converting: bool, partial_exists: bool) -> PrepareStep {
    if !needs_remux {
        PrepareStep::Ready
    } else if copy_exists || legacy_exists {
        PrepareStep::Converted
    } else if converting {
        PrepareStep::Converting
    } else {
        PrepareStep::Start { remove_partial: partial_exists }
    }
}

pub fn prepare_step(needs_remux: bool, copy_exists: bool, legacy_exists: bool, converting: bool, partial_exists: bool) -> (r: PrepareStep)
    ensures
        r == prepare_spec(needs_remux, copy_exists, legacy_exists, converting, partial_exists),
{
    if !needs_remux {
        PrepareStep::Ready
    } else if copy_exists || legacy_exists {
        PrepareStep::Converted
    } else if converting {
        PrepareStep::Converting
    } else {
        PrepareStep::Start { remove_partial: partial_exists }
    }
}

/// What converting a whole series does with one episode.
#[derive(Debug, Clone, Copy, PartialEq, Eq, Structural)]
pub enum SeriesRemuxStep {
    /// It plays as it is.
    AlreadyMp4,
    /// Its MP4 copy exists.
    AlreadyDone,
    /// A conversion of it runs here.
    Running,
    /// Queue it, after removing the partial file a stopped run left when
    /// `remove_partial`.
    Queue { remove_partial: bool },
}

pub open spec fn series_remux_spec(needs_remux: bool, copy_exists: bool, partial_exists: bool, converting: bool) -> SeriesRemuxStep {
    if !needs_remux {
        SeriesRemuxStep::AlreadyMp4
    } else if copy_exists {
        SeriesRemuxStep::AlreadyDone
    } else if converting {
        SeriesRemuxStep::Running
    } else {
        SeriesRemuxStep::Queue { remove_partial: partial_exists }
    }
}

pub fn series_remux_step(needs_remux: bool, copy_exists: bool, partial_exists: bool, converting: bool) -> (r: SeriesRemuxStep)
    ensures
        r == series_remux_spec(needs_remux, copy_exists, partial_exists, converting),
{
    if !needs_remux {
        SeriesRemuxStep::AlreadyMp4
    } else if copy_exists {
        SeriesRemuxStep::AlreadyDone
    } else if converting {
        SeriesRemuxStep::Running
    } else {
        SeriesRemuxStep::Queue { remove_partial: partial_exists }
    }
}

/// The counts that a series conversion reports.
#[derive(Debug, Clone, Copy, PartialEq, Eq, Structural)]
pub struct RemuxTally {
    pub already_mp4: usize,
    pub already_done: usize,
    pub already_running: usize,
    pub queued: usize,
}

impl RemuxTally {
    pub fn new() -> (r: RemuxTally)
        ensures
            r == (RemuxTally { already_mp4: 0, already_done: 0, already_running: 0, queued: 0 }),
    {
        RemuxTally { already_mp4: 0, already_done: 0, already_running: 0, queued: 0 }
    }

    /// Counts one episode by what was done with it: `queued` tells whether
    /// a `Queue` step got its job (it counts as running where the partial
    /// file could not be removed or the episode was taken meanwhile).
    pub fn count(&mut self, step: SeriesRemuxStep, queued: bool)
        requires
            old(self).already_mp4 < usize::MAX,
            old(self).already_done < usize::MAX,
            old(self).already_running < usize::MAX,
            old(self).queued < usize::MAX,
        ensures
            final(self).already_mp4 == old(self).already_mp4 + (if step is AlreadyMp4 { 1int } else { 0 }),
            final(self).already_done == old(self).already_done + (if step is AlreadyDone { 1int } else { 0 }),
            final(self).already_running == old(self).already_running + (if step is Running || (step is Queue
                && !queued) { 1int } else { 0 }),
            final(self).queued == old(self).queued + (if step is Queue && queued { 1int } else { 0 }),
    {
        match step {
            SeriesRemuxStep::AlreadyMp4 => self.already_mp4 = self.already_mp4 + 1,
            SeriesRemuxStep::AlreadyDone => self.already_done = self.already_done + 1,
            SeriesRemuxStep::Running => self.already_running = self.already_running + 1,
            SeriesRemuxStep::Queue { .. } => {
                if queued {
                    self.queued = self.queued + 1;
                } else {
                    self.already_running = self.already_running + 1;
                }
            },
        }
    }
}

/// What the background conversion does with one episode.
#[derive(Debug, Clone, Copy, PartialEq, Eq, Structural)]
pub enum BackgroundStep {
    /// Nothing: it plays as it is, or its copy or a partial file exists.
    Skip,
    /// Nothing: earlier attempts failed and it was given up on.
    Abandoned,
    /// Convert it.
    Convert,
}

pub open spec fn background_spec(needs_remux: bool, copy_exists: bool, partial_exists: bool, abandoned: bool) -> BackgroundStep {
    if !needs_remux || copy_exists || partial_exists {
        BackgroundStep::Skip
    } else if abandoned {
        BackgroundStep::Abandoned
    } else {
        BackgroundStep::Convert
    }
}

pub fn background_step(needs_remux: bool, copy_exists: bool, partial_exists: bool, abandoned: bool) -> (r: BackgroundStep)
    ensures
        r == background_spec(needs_remux, copy_exists, partial_exists, abandoned),
{
    if !needs_remux || copy_exists || partial_exists {
        BackgroundStep::Skip
    } else if abandoned {
        BackgroundStep::Abandoned
    } else {
        BackgroundStep::Convert
    }
}

} // verus!
