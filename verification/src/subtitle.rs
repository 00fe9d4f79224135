//! SubRip (SRT) to WebVTT conversion.
use vstd::prelude::*;
use crate::text::{
    str_chars, string_of, sub_vec, append_chars, contains_seq, contains_exec, occurs_at,
};

verus! {

pub open spec fn webvtt_header() -> Seq<char> {
    seq!['W', 'E', 'B', 'V', 'T', 'T', '\n', '\n']
}

/// The marker of a timestamp line.
pub open spec fn arrow() -> Seq<char> {
    seq![' ', '-', '-', '>', ' ']
}

/// A line as it goes into WebVTT: on a timestamp line (one containing
/// ` --> `) every `,` becomes `.`; other lines are kept.
pub open spec fn vtt_line(line: Seq<char>) -> Seq<char> {
    if contains_seq(line, arrow()) {
        line.map_values(|c: char| if c == ',' { '.' } else { c })
    } else {
        line
    }
}

/// Index of the first `'\n'` at or after `i`, or the length.
pub open spec fn line_end(s: Seq<char>, i: int) -> int
    decreases s.len() - i,
{
    if i < 0 || i >= s.len() || s[i] == '\n' {
        i
    } else {
        line_end(s, i + 1)
    }
}

/// The lines of `s` from `i` on, as `str::lines` splits them (at `'\n'`,
/// each line dropping one `'\r'` before its `'\n'`, no line after a final
/// `'\n'`), each converted and ended with `'\n'`.
pub open spec fn vtt_lines_from(s: Seq<char>, i: int) -> Seq<char>
    decreases s.len() - i,
{
    if i < 0 || i >= s.len() {
        Seq::empty()
    } else {
        let j = line_end(s, i);
        if i <= j && j < s.len() {
            let line = if j > i && s[j - 1] == '\r' {
                s.subrange(i, j - 1)
            } else {
                s.subrange(i, j)
            };
            vtt_line(line) + seq!['\n'] + vtt_lines_from(s, j + 1)
        } else {
            vtt_line(s.subrange(i, s.len() as int)) + seq!['\n']
        }
    }
}

pub open spec fn srt_to_webvtt_spec(srt: Seq<char>) -> Seq<char> {
    webvtt_header() + vtt_lines_from(srt, 0)
}

pub proof fn lemma_line_end(s: Seq<char>, i: int)
    requires
        0 <= i <= s.len(),
    ensures
        i <= line_end(s, i) <= s.len(),
        line_end(s, i) < s.len() ==> s[line_end(s, i)] == '\n',
        forall|k: int| i <= k < line_end(s, i) ==> s[k] != '\n',
    decreases s.len() - i,
{
    if i < s.len() && s[i] != '\n' {
        lemma_line_end(s, i + 1);
    }
}

fn vtt_line_exec(line: &Vec<char>) -> (r: Vec<char>)
    ensures
        r@ == vtt_line(line@),
{
    let arrow_v = vec![' ', '-', '-', '>', ' '];
    assert(arrow_v@ =~= arrow());
    if contains_exec(line, &arrow_v) {
        let mut r: Vec<char> = Vec::new();
        let mut k: usize = 0;
        while k < line.len()
            invariant
                k <= line.len(),
                r@ == line@.take(k as int).map_values(|c: char| if c == ',' { '.' } else { c }),
            decreases line.len() - k,
        {
            let c = line[k];
            r.push(if c == ',' { '.' } else { c });
            assert(line@.take(k + 1).map_values(|c: char| if c == ',' { '.' } else { c })
                =~= line@.take(k as int).map_values(|c: char| if c == ',' { '.' } else { c }).push(
                if c == ',' { '.' } else { c },
            ));
            k += 1;
        }
        assert(line@.take(line.len() as int) =~= line@);
        r
    } else {
        sub_vec(line, 0, line.len())
    }
}

/// Convert SRT subtitle content to WebVTT format.
///
/// - Adds `WEBVTT` header
/// - Replaces `,` with `.` in timestamp lines (`-->`)
/// - Preserves everything else (sequence numbers, text, blank lines)
pub fn srt_to_webvtt(srt: &str) -> (r: String)
    ensures
        r@ == srt_to_webvtt_spec(srt@),
{
    let s = str_chars(srt);
    let mut out = vec!['W', 'E', 'B', 'V', 'T', 'T', '\n', '\n'];
    assert(out@ =~= webvtt_header());
    let mut i: usize = 0;
    while i < s.len()
        invariant
            i <= s.len(),
            out@ + vtt_lines_from(s@, i as int) == srt_to_webvtt_spec(s@),
        decreases s.len() - i,
    {
        let mut j = i;
        while j < s.len() && s[j] != '\n'
            invariant
                i <= j <= s.len(),
                line_end(s@, i as int) == line_end(s@, j as int),
            decreases s.len() - j,
        {
            j += 1;
        }
        let ghost old_out = out@;
        proof {
            lemma_line_end(s@, i as int);
        }
        if j < s.len() {
            let stop = if j > i && s[j - 1] == '\r' {
                j - 1
            } else {
                j
            };
            let line = sub_vec(&s, i, stop);
            let conv = vtt_line_exec(&line);
            append_chars(&mut out, &conv);
            out.push('\n');
            proof {
                assert(old_out + vtt_lines_from(s@, i as int) =~= out@ + vtt_lines_from(
                    s@,
                    j + 1,
                ));
            }
            i = j + 1;
        } else {
            let line = sub_vec(&s, i, s.len());
            let conv = vtt_line_exec(&line);
            append_chars(&mut out, &conv);
            out.push('\n');
            proof {
                assert(old_out + vtt_lines_from(s@, i as int) =~= out@ + vtt_lines_from(
                    s@,
                    s.len() as int,
                ));
            }
            i = s.len();
        }
    }
    assert(out@ + vtt_lines_from(s@, i as int) =~= out@);
    string_of(&out)
}


/// The number of `'\n'` in `s`.
pub open spec fn count_newlines(s: Seq<char>) -> nat
    decreases s.len(),
{
    if s.len() == 0 {
        0
    } else {
        count_newlines(s.drop_last()) + if s.last() == '\n' {
            1nat
        } else {
            0nat
        }
    }
}

/// The lines `ls`, each ended with `'\n'`.
pub open spec fn joined_lines(ls: Seq<Seq<char>>) -> Seq<char>
    decreases ls.len(),
{
    if ls.len() == 0 {
        Seq::empty()
    } else {
        ls[0] + seq!['\n'] + joined_lines(ls.drop_first())
    }
}

proof fn lemma_vtt_lines_are_lines(s: Seq<char>, i: int)
    requires
        0 <= i <= s.len(),
    ensures
        vtt_lines_from(s, i) == joined_lines(crate::media::lines_from(s, i).map_values(|l: Seq<char>| vtt_line(l))),
    decreases s.len() - i,
{
    let ls = crate::media::lines_from(s, i);
    let f = |l: Seq<char>| vtt_line(l);
    if i < s.len() {
        lemma_line_end(s, i);
        let j = line_end(s, i);
        if j < s.len() {
            lemma_vtt_lines_are_lines(s, j + 1);
            let rest = crate::media::lines_from(s, j + 1);
            assert(ls == seq![crate::media::line_at(s, i, j)] + rest);
            assert(ls.map_values(f).drop_first() =~= rest.map_values(f));
        } else {
            assert(ls.map_values(f).drop_first() =~= Seq::<Seq<char>>::empty());
            assert(joined_lines(Seq::<Seq<char>>::empty()) == Seq::<char>::empty());
            assert(vtt_line(s.subrange(i, s.len() as int)) + seq!['\n'] + Seq::<char>::empty() =~= vtt_line(
                s.subrange(i, s.len() as int),
            ) + seq!['\n']);
        }
    } else {
        assert(ls.map_values(f) =~= Seq::<Seq<char>>::empty());
    }
}

proof fn lemma_count_newlines_concat(a: Seq<char>, b: Seq<char>)
    ensures
        count_newlines(a + b) == count_newlines(a) + count_newlines(b),
    decreases b.len(),
{
    if b.len() > 0 {
        lemma_count_newlines_concat(a, b.drop_last());
        assert((a + b).drop_last() =~= a + b.drop_last());
        assert((a + b).last() == b.last());
    } else {
        assert(a + b =~= a);
    }
}

proof fn lemma_count_newlines_none(a: Seq<char>)
    requires
        forall|k: int| 0 <= k < a.len() ==> a[k] != '\n',
    ensures
        count_newlines(a) == 0,
    decreases a.len(),
{
    if a.len() > 0 {
        lemma_count_newlines_none(a.drop_last());
    }
}

proof fn lemma_count_joined(ls: Seq<Seq<char>>)
    requires
        forall|k: int| 0 <= k < ls.len() ==> count_newlines(#[trigger] ls[k]) == 0,
    ensures
        count_newlines(joined_lines(ls)) == ls.len(),
    decreases ls.len(),
{
    if ls.len() > 0 {
        let rest = ls.drop_first();
        assert forall|k: int| 0 <= k < rest.len() implies count_newlines(#[trigger] rest[k]) == 0 by {
            assert(rest[k] == ls[k + 1]);
        }
        lemma_count_joined(rest);
        lemma_count_newlines_concat(ls[0] + seq!['\n'], joined_lines(rest));
        lemma_count_newlines_concat(ls[0], seq!['\n']);
        assert(seq!['\n'].drop_last() =~= Seq::<char>::empty());
        let one = seq!['\n'];
        assert(one.len() == 1 && one.last() == '\n');
        assert(one.drop_last() =~= Seq::<char>::empty());
        assert(count_newlines(one.drop_last()) == 0);
        assert(count_newlines(one) == 1);
        assert(count_newlines(ls[0]) == 0);
        assert(joined_lines(ls) == ls[0] + seq!['\n'] + joined_lines(rest));
    } else {
        assert(joined_lines(ls) == Seq::<char>::empty());
    }
}

proof fn lemma_lines_have_no_newline(s: Seq<char>, i: int)
    requires
        0 <= i <= s.len(),
    ensures
        forall|k: int, m: int|
            0 <= k < crate::media::lines_from(s, i).len() && 0 <= m < crate::media::lines_from(s, i)[k].len()
                ==> #[trigger] crate::media::lines_from(s, i)[k][m] != '\n',
    decreases s.len() - i,
{
    if i < s.len() {
        lemma_line_end(s, i);
        let j = line_end(s, i);
        let ls = crate::media::lines_from(s, i);
        if j < s.len() {
            lemma_lines_have_no_newline(s, j + 1);
            let rest = crate::media::lines_from(s, j + 1);
            assert forall|k: int, m: int| 0 <= k < ls.len() && 0 <= m < ls[k].len() implies #[trigger] ls[k][m] != '\n' by {
                if k == 0 {
                    assert(ls[0] == crate::media::line_at(s, i, j));
                    assert(ls[0][m] == s[i + m]);
                } else {
                    assert(ls[k] == rest[k - 1]);
                }
            }
        } else {
            assert forall|k: int, m: int| 0 <= k < ls.len() && 0 <= m < ls[k].len() implies #[trigger] ls[k][m] != '\n' by {
                assert(ls[k] == s.subrange(i, s.len() as int));
                assert(ls[k][m] == s[i + m]);
            }
        }
    }
}

/// WebVTT keeps the lines of the SRT text: after the `WEBVTT` header and
/// its blank line comes one line for each line of the input as `str::lines`
/// splits it (blank lines too), in order, each converted by [`vtt_line`]
/// and ended with `'\n'`; so the output holds exactly two more line breaks
/// than the input has lines.
pub proof fn lemma_webvtt_line_per_line(s: Seq<char>)
    ensures
        srt_to_webvtt_spec(s) == webvtt_header() + joined_lines(
            crate::media::lines(s).map_values(|l: Seq<char>| vtt_line(l)),
        ),
        count_newlines(srt_to_webvtt_spec(s)) == 2 + crate::media::lines(s).len(),
{
    let ls = crate::media::lines(s);
    let vs = ls.map_values(|l: Seq<char>| vtt_line(l));
    lemma_vtt_lines_are_lines(s, 0);
    lemma_lines_have_no_newline(s, 0);
    assert forall|k: int| 0 <= k < vs.len() implies count_newlines(#[trigger] vs[k]) == 0 by {
        let l = ls[k];
        assert forall|m: int| 0 <= m < vs[k].len() implies vs[k][m] != '\n' by {
            assert(l[m] != '\n');
        }
        lemma_count_newlines_none(vs[k]);
    }
    lemma_count_joined(vs);
    lemma_count_newlines_concat(webvtt_header(), joined_lines(vs));
    reveal_with_fuel(count_newlines, 9);
    assert(webvtt_header().drop_last() =~= seq!['W', 'E', 'B', 'V', 'T', 'T', '\n']);
    assert(webvtt_header().drop_last().drop_last() =~= seq!['W', 'E', 'B', 'V', 'T', 'T']);
    assert(count_newlines(seq!['W', 'E', 'B', 'V', 'T', 'T']) == 0) by {
        lemma_count_newlines_none(seq!['W', 'E', 'B', 'V', 'T', 'T']);
    }
}

} // verus!
