//! Unix path syntax: the last component of a path, its stem and extension,
//! and component-wise prefix tests, as `std::path::Path` defines them.
use vstd::prelude::*;
use crate::text::sub_vec;

verus! {

/// Index of the last `sep` in `p[0..j]`, or -1.
pub open spec fn last_index_of(p: Seq<char>, sep: char, j: int) -> int
    decreases j,
{
    if j <= 0 {
        -1
    } else if p[j - 1] == sep {
        j - 1
    } else {
        last_index_of(p, sep, j - 1)
    }
}

pub proof fn lemma_last_index_of(p: Seq<char>, sep: char, j: int)
    requires
        0 <= j <= p.len(),
    ensures
        -1 <= last_index_of(p, sep, j) < j,
        last_index_of(p, sep, j) >= 0 ==> p[last_index_of(p, sep, j)] == sep,
        forall|k: int| last_index_of(p, sep, j) < k < j ==> p[k] != sep,
    decreases j,
{
    if j > 0 && p[j - 1] != sep {
        lemma_last_index_of(p, sep, j - 1);
    }
}

pub fn last_index_of_exec(p: &Vec<char>, sep: char, j: usize) -> (r: isize)
    requires
        j <= p.len(),
        p.len() < isize::MAX,
    ensures
        r == last_index_of(p@, sep, j as int),
{
    let mut k = j;
    while k > 0 && p[k - 1] != sep
        invariant
            k <= j <= p.len(),
            last_index_of(p@, sep, j as int) == last_index_of(p@, sep, k as int),
        decreases k,
    {
        k -= 1;
    }
    if k == 0 {
        -1
    } else {
        (k - 1) as isize
    }
}

/// The last component of `p[0..end]` if it is a normal one
/// (`Path::file_name`): the last piece between `/` that is neither empty nor
/// `.`; none when that piece is `..` or there is no such piece.
pub open spec fn file_name_upto(p: Seq<char>, end: int) -> Option<Seq<char>>
    decreases end,
{
    if end <= 0 {
        None
    } else {
        let k = last_index_of(p, '/', end);
        let piece = p.subrange(k + 1, end);
        if piece.len() > 0 && piece != seq!['.'] {
            if piece == seq!['.', '.'] {
                None
            } else {
                Some(piece)
            }
        } else if k < 0 || k >= end {
            None
        } else {
            file_name_upto(p, k)
        }
    }
}

/// `Path::new(p).file_name()`.
pub open spec fn file_name(p: Seq<char>) -> Option<Seq<char>> {
    file_name_upto(p, p.len() as int)
}

/// The stem of a file name (`Path::file_stem`): the part before the last
/// `.`, unless that `.` is the first character or there is none.
pub open spec fn stem_of(name: Seq<char>) -> Seq<char> {
    let k = last_index_of(name, '.', name.len() as int);
    if k <= 0 {
        name
    } else {
        name.subrange(0, k)
    }
}

/// The extension of a file name (`Path::extension`).
pub open spec fn extension_of(name: Seq<char>) -> Option<Seq<char>> {
    let k = last_index_of(name, '.', name.len() as int);
    if k <= 0 {
        None
    } else {
        Some(name.subrange(k + 1, name.len() as int))
    }
}

/// `Path::new(p).file_stem()`.
pub open spec fn file_stem(p: Seq<char>) -> Option<Seq<char>> {
    match file_name(p) {
        Some(n) => Some(stem_of(n)),
        None => None,
    }
}

/// `Path::new(p).extension()`.
pub open spec fn extension(p: Seq<char>) -> Option<Seq<char>> {
    match file_name(p) {
        Some(n) => extension_of(n),
        None => None,
    }
}

pub fn file_name_exec(p: &Vec<char>) -> (r: Option<Vec<char>>)
    requires
        p.len() < isize::MAX,
    ensures
        r matches Some(v) ==> file_name(p@) == Some(v@),
        r is None ==> file_name(p@) is None,
{
    let mut end = p.len();
    while end > 0
        invariant
            end <= p.len() < isize::MAX,
            file_name(p@) == file_name_upto(p@, end as int),
        decreases end,
    {
        let k = last_index_of_exec(p, '/', end);
        proof {
            lemma_last_index_of(p@, '/', end as int);
        }
        let start = (k + 1) as usize;
        let len = end - start;
        let ghost piece = p@.subrange(start as int, end as int);
        let is_dot = len == 1 && p[start] == '.';
        let is_dotdot = len == 2 && p[start] == '.' && p[start + 1] == '.';
        proof {
            if is_dot {
                assert(piece =~= seq!['.']);
            } else {
                assert(piece != seq!['.']) by {
                    if piece == seq!['.'] {
                        assert(seq!['.'].len() == 1);
                        assert(piece.len() == 1);
                        assert(piece[0] == seq!['.'][0]);
                        assert(p@[start as int] == piece[0]);
                    }
                }
            }
            if is_dotdot {
                assert(piece =~= seq!['.', '.']);
            } else {
                assert(piece != seq!['.', '.']) by {
                    if piece == seq!['.', '.'] {
                        assert(seq!['.', '.'].len() == 2);
                        assert(piece.len() == 2);
                        assert(piece[0] == seq!['.', '.'][0]);
                        assert(piece[1] == seq!['.', '.'][1]);
                        assert(p@[start as int] == piece[0]);
                        assert(p@[start + 1] == piece[1]);
                    }
                }
            }
        }
        if len > 0 && !is_dot {
            if is_dotdot {
                return None;
            }
            return Some(sub_vec(p, start, end));
        }
        if k < 0 {
            return None;
        }
        end = k as usize;
    }
    None
}

/// Index of the last `.` of a name, as [`stem_of`] and [`extension_of`] use it.
fn last_dot(name: &Vec<char>) -> (r: isize)
    requires
        name.len() < isize::MAX,
    ensures
        r == last_index_of(name@, '.', name.len() as int),
        -1 <= r < name.len(),
{
    proof {
        lemma_last_index_of(name@, '.', name.len() as int);
    }
    last_index_of_exec(name, '.', name.len())
}

/// The stem of `p`, or nothing when `p` has no file name
/// (`Path::new(p).file_stem().unwrap_or_default()`).
pub fn file_stem_or_empty(p: &Vec<char>) -> (r: Vec<char>)
    requires
        p.len() < isize::MAX,
    ensures
        r@ == match file_stem(p@) {
            Some(s) => s,
            None => Seq::<char>::empty(),
        },
{
    match file_name_exec(p) {
        None => Vec::new(),
        Some(n) => {
            proof {
                assert(n@.len() <= p@.len()) by {
                    lemma_file_name_len(p@, p@.len() as int);
                }
            }
            let k = last_dot(&n);
            if k <= 0 {
                n
            } else {
                sub_vec(&n, 0, k as usize)
            }
        },
    }
}

/// The extension of `p` (`Path::new(p).extension()`).
pub fn extension_exec(p: &Vec<char>) -> (r: Option<Vec<char>>)
    requires
        p.len() < isize::MAX,
    ensures
        r matches Some(v) ==> extension(p@) == Some(v@),
        r is None ==> extension(p@) is None,
{
    match file_name_exec(p) {
        None => None,
        Some(n) => {
            proof {
                assert(n@.len() <= p@.len()) by {
                    lemma_file_name_len(p@, p@.len() as int);
                }
            }
            let k = last_dot(&n);
            if k <= 0 {
                None
            } else {
                Some(sub_vec(&n, (k + 1) as usize, n.len()))
            }
        },
    }
}

pub proof fn lemma_file_name_len(p: Seq<char>, end: int)
    requires
        0 <= end <= p.len(),
    ensures
        file_name_upto(p, end) matches Some(n) ==> n.len() <= end,
    decreases end,
{
    if end > 0 {
        lemma_last_index_of(p, '/', end);
        let k = last_index_of(p, '/', end);
        if k >= 0 {
            lemma_file_name_len(p, k);
        }
    }
}

// ---------------------------------------------------------------------------
// Components
// ---------------------------------------------------------------------------

/// Whether `c` separates path components: `/`, and on Windows also `\`.
pub open spec fn is_sep(c: char, windows: bool) -> bool {
    c == '/' || (windows && c == '\\')
}

/// Index of the first separator at or after `i`, or the length.
pub open spec fn next_slash(p: Seq<char>, i: int, windows: bool) -> int
    decreases p.len() - i,
{
    if i < 0 || i >= p.len() || is_sep(p[i], windows) {
        i
    } else {
        next_slash(p, i + 1, windows)
    }
}

proof fn lemma_next_slash(p: Seq<char>, i: int, windows: bool)
    requires
        0 <= i <= p.len(),
    ensures
        i <= next_slash(p, i, windows) <= p.len(),
        next_slash(p, i, windows) < p.len() ==> is_sep(p[next_slash(p, i, windows)], windows),
    decreases p.len() - i,
{
    if i < p.len() && !is_sep(p[i], windows) {
        lemma_next_slash(p, i + 1, windows);
    }
}

/// Whether a piece names a component of its own: neither empty nor `.`.
pub open spec fn kept_piece(x: Seq<char>) -> bool {
    x.len() > 0 && x != seq!['.']
}

/// The pieces of `p[i..]` between separators that are neither empty nor `.`.
pub open spec fn kept_from(p: Seq<char>, i: int, windows: bool) -> Seq<Seq<char>>
    decreases p.len() - i,
{
    if i < 0 || i > p.len() {
        Seq::empty()
    } else {
        let j = next_slash(p, i, windows);
        let piece = p.subrange(i, j);
        let rest = if i <= j && j < p.len() {
            kept_from(p, j + 1, windows)
        } else {
            Seq::empty()
        };
        if kept_piece(piece) {
            seq![piece] + rest
        } else {
            rest
        }
    }
}

/// The components of a path (`Path::components`), each written as text:
/// `/` for the root, `.` for a leading current-directory component, `..`
/// for a parent-directory one and the name itself for a normal one. On
/// Windows `\` separates components too, and a Windows prefix (such as
/// `\\?\C:` of a canonical path) is read as its separated pieces.
pub open spec fn components(p: Seq<char>, windows: bool) -> Seq<Seq<char>> {
    let rooted = p.len() > 0 && is_sep(p[0], windows);
    let head: Seq<Seq<char>> = if rooted {
        seq![seq!['/']]
    } else if p.subrange(0, next_slash(p, 0, windows)) == seq!['.'] {
        seq![seq!['.']]
    } else {
        Seq::empty()
    };
    head + kept_from(p, 0, windows)
}

fn is_kept_piece(p: &Vec<char>, i: usize, j: usize) -> (r: bool)
    requires
        i <= j <= p.len(),
    ensures
        r == kept_piece(p@.subrange(i as int, j as int)),
{
    let ghost piece = p@.subrange(i as int, j as int);
    if j - i == 1 && p[i] == '.' {
        assert(piece =~= seq!['.']);
        false
    } else {
        assert(piece != seq!['.']) by {
            if piece == seq!['.'] {
                assert(seq!['.'].len() == 1);
                assert(piece[0] == seq!['.'][0]);
                assert(piece[0] == p@[i as int]);
            }
        }
        j > i
    }
}

/// The components of a path, as [`components`] writes them.
pub fn components_exec(p: &Vec<char>, windows: bool) -> (r: Vec<Vec<char>>)
    ensures
        r.deep_view() == components(p@, windows),
{
    let mut r: Vec<Vec<char>> = Vec::new();
    let j0 = slash_from(p, 0, windows);
    proof {
        lemma_next_slash(p@, 0, windows);
    }
    if p.len() > 0 && (p[0] == '/' || (windows && p[0] == '\\')) {
        let root = vec!['/'];
        assert(root@ =~= seq!['/']);
        r.push(root);
        assert(r.deep_view() =~~= seq![seq!['/']]);
    } else if j0 == 1 && p[0] == '.' {
        let cur = vec!['.'];
        assert(cur@ =~= seq!['.']);
        r.push(cur);
        assert(r.deep_view() =~~= seq![seq!['.']]);
    }
    let ghost head = r.deep_view();
    proof {
        let rooted = p@.len() > 0 && is_sep(p@[0], windows);
        if rooted {
            assert(head =~= seq![seq!['/']]);
        } else if j0 == 1 && p@[0] == '.' {
            assert(p@.subrange(0, j0 as int) =~= seq!['.']);
            assert(head =~= seq![seq!['.']]);
        } else {
            assert(head =~= Seq::<Seq<char>>::empty());
            assert(p@.subrange(0, j0 as int) != seq!['.']) by {
                if p@.subrange(0, j0 as int) == seq!['.'] {
                    assert(seq!['.'].len() == 1);
                    assert(p@.subrange(0, j0 as int)[0] == seq!['.'][0]);
                }
            }
        }
    }
    let mut i: usize = 0;
    loop
        invariant
            i <= p.len(),
            r.deep_view() + kept_from(p@, i as int, windows) == components(p@, windows),
        decreases p.len() - i,
    {
        let j = slash_from(p, i, windows);
        proof {
            lemma_next_slash(p@, i as int, windows);
        }
        let ghost before = r.deep_view();
        let ghost piece = p@.subrange(i as int, j as int);
        let kept = is_kept_piece(p, i, j);
        if kept {
            let v = sub_vec(p, i, j);
            r.push(v);
            assert(r.deep_view() =~~= before.push(piece));
        }
        proof {
            let rest = if j < p.len() {
                kept_from(p@, j + 1, windows)
            } else {
                Seq::empty()
            };
            assert(kept_from(p@, i as int, windows) == if kept {
                seq![piece] + rest
            } else {
                rest
            });
            if kept {
                assert(before + kept_from(p@, i as int, windows) =~= r.deep_view() + rest);
            } else {
                assert(before + kept_from(p@, i as int, windows) =~= r.deep_view() + rest);
            }
        }
        if j < p.len() {
            i = j + 1;
        } else {
            assert(r.deep_view() + Seq::<Seq<char>>::empty() =~= r.deep_view());
            return r;
        }
    }
}

fn slash_from(p: &Vec<char>, i: usize, windows: bool) -> (r: usize)
    requires
        i <= p.len(),
    ensures
        r == next_slash(p@, i as int, windows),
{
    let mut j = i;
    while j < p.len() && !(p[j] == '/' || (windows && p[j] == '\\'))
        invariant
            i <= j <= p.len(),
            next_slash(p@, i as int, windows) == next_slash(p@, j as int, windows),
        decreases p.len() - j,
    {
        j += 1;
    }
    j
}

/// `Path::starts_with`: the components of `base` are the first components
/// of `path` (with `\` a separator too on Windows).
pub open spec fn path_starts_with(path: Seq<char>, base: Seq<char>, windows: bool) -> bool {
    let a = components(path, windows);
    let b = components(base, windows);
    b.len() <= a.len() && a.subrange(0, b.len() as int) == b
}

pub proof fn lemma_file_stem_len(p: Seq<char>)
    ensures
        file_stem(p) matches Some(x) ==> x.len() <= p.len(),
{
    lemma_file_name_len(p, p.len() as int);
    if let Some(n) = file_name(p) {
        lemma_last_index_of(n, '.', n.len() as int);
    }
}

} // verus!
