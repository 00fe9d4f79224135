//! Stable sorting of items by string keys.
use vstd::prelude::*;
use crate::text::{str_lt, str_lt_exec, lemma_str_lt_trans, lemma_str_lt_total, lemma_str_lt_asym, lemma_str_lt_irreflexive};

verus! {

/// Whether the item with key `ka` at input position `ia` comes before the
/// one with key `kb` at `ib`: by key (ascending, or descending when `desc`),
/// and by input position between equal keys.
pub open spec fn goes_before(ka: Seq<char>, ia: int, kb: Seq<char>, ib: int, desc: bool) -> bool {
    if desc {
        str_lt(kb, ka) || (ka == kb && ia < ib)
    } else {
        str_lt(ka, kb) || (ka == kb && ia < ib)
    }
}

/// `perm` lists each position of `keys` once, in the order of a stable sort.
pub open spec fn is_sorting_perm(perm: Seq<int>, keys: Seq<Seq<char>>, desc: bool) -> bool {
    &&& perm.len() == keys.len()
    &&& forall|k: int| 0 <= k < perm.len() ==> 0 <= #[trigger] perm[k] < keys.len()
    &&& forall|a: int, b: int| 0 <= a < b < perm.len() ==> #[trigger] perm[a] != #[trigger] perm[b]
    &&& forall|a: int, b: int|
        0 <= a < b < perm.len() ==> goes_before(
            keys[#[trigger] perm[a]],
            perm[a],
            keys[#[trigger] perm[b]],
            perm[b],
            desc,
        )
}

/// `out` holds the items of `items` in the order of a stable sort by `keys`.
pub open spec fn sorted_by_keys<T>(out: Seq<T>, items: Seq<T>, keys: Seq<Seq<char>>, desc: bool) -> bool {
    exists|perm: Seq<int>|
        is_sorting_perm(perm, keys, desc) && out.len() == perm.len() && forall|k: int|
            0 <= k < out.len() ==> #[trigger] out[k] == items[perm[k]]
}

proof fn lemma_goes_before_trans(
    ka: Seq<char>,
    ia: int,
    kb: Seq<char>,
    ib: int,
    kc: Seq<char>,
    ic: int,
    desc: bool,
)
    requires
        goes_before(ka, ia, kb, ib, desc),
        goes_before(kb, ib, kc, ic, desc),
    ensures
        goes_before(ka, ia, kc, ic, desc),
{
    if desc {
        if str_lt(kb, ka) && str_lt(kc, kb) {
            lemma_str_lt_trans(kc, kb, ka);
        }
    } else {
        if str_lt(ka, kb) && str_lt(kb, kc) {
            lemma_str_lt_trans(ka, kb, kc);
        }
    }
}

/// Whether an item with key `ko` placed earlier stays ahead of a new item
/// with key `kx`.
fn stays_ahead(ko: &Vec<char>, kx: &Vec<char>, desc: bool) -> (r: bool)
    ensures
        r == (if desc {
            !str_lt(ko@, kx@)
        } else {
            !str_lt(kx@, ko@)
        }),
{
    if desc {
        !str_lt_exec(ko, kx)
    } else {
        !str_lt_exec(kx, ko)
    }
}

/// Sorts `items` stably by `keys` (`keys[i]` is the key of `items[i]`),
/// ascending or, when `desc`, descending.
pub fn sort_by_keys<T>(items: Vec<T>, keys: &Vec<Vec<char>>, desc: bool) -> (r: Vec<T>)
    requires
        items.len() == keys.len(),
    ensures
        sorted_by_keys(r@, items@, keys.deep_view(), desc),
{
    let ghost ks = keys.deep_view();
    let ghost orig = items@;
    let n = items.len();
    let mut rest = items;
    let mut out: Vec<T> = Vec::new();
    let mut out_keys: Vec<usize> = Vec::new();
    let mut i: usize = 0;
    while i < n
        invariant
            n == orig.len() == ks.len() == keys.len(),
            ks == keys.deep_view(),
            i <= n,
            rest@ == orig.subrange(i as int, n as int),
            out@.len() == i,
            out_keys@.len() == i,
            forall|k: int| 0 <= k < i ==> 0 <= #[trigger] out_keys@[k] < i,
            forall|k: int| 0 <= k < i ==> #[trigger] out@[k] == orig[out_keys@[k] as int],
            forall|a: int, b: int|
                0 <= a < b < i ==> #[trigger] out_keys@[a] != #[trigger] out_keys@[b],
            forall|a: int, b: int|
                0 <= a < b < i ==> goes_before(
                    ks[#[trigger] out_keys@[a] as int],
                    out_keys@[a] as int,
                    ks[#[trigger] out_keys@[b] as int],
                    out_keys@[b] as int,
                    desc,
                ),
        decreases n - i,
    {
        let x = rest.remove(0);
        assert(x == orig[i as int]);
        assert(rest@ =~= orig.subrange(i + 1, n as int));
        let kx = &keys[i];
        assert(ks[i as int] == kx@);
        // first position whose item the new one goes before
        let mut pos: usize = 0;
        while pos < out.len() && stays_ahead(&keys[out_keys[pos]], kx, desc)
            invariant
                pos <= out@.len() == i,
                out_keys@.len() == i,
                ks == keys.deep_view(),
                n == keys.len(),
                i < n,
                forall|k: int| 0 <= k < i ==> 0 <= #[trigger] out_keys@[k] < i,
                kx@ == ks[i as int],
                forall|k: int|
                    0 <= k < pos ==> goes_before(
                        ks[#[trigger] out_keys@[k] as int],
                        out_keys@[k] as int,
                        ks[i as int],
                        i as int,
                        desc,
                    ),
            decreases i - pos,
        {
            let ghost ko = ks[out_keys@[pos as int] as int];
            proof {
                assert(ko == keys@[out_keys@[pos as int] as int]@);
                lemma_str_lt_total(ko, kx@);
            }
            pos += 1;
        }
        proof {
            if pos < i {
                let ko = ks[out_keys@[pos as int] as int];
                assert(ko == keys@[out_keys@[pos as int] as int]@);
                lemma_str_lt_total(ko, kx@);
                assert(goes_before(kx@, i as int, ko, out_keys@[pos as int] as int, desc));
            }
        }
        let ghost old_out = out@;
        let ghost old_keys = out_keys@;
        out.insert(pos, x);
        out_keys.insert(pos, i);
        proof {
            assert forall|a: int, b: int|
                0 <= a < b < i + 1 implies #[trigger] out_keys@[a] != #[trigger] out_keys@[b] by {
                if a < pos && b > pos {
                    assert(out_keys@[b] == old_keys[b - 1]);
                } else if a > pos {
                    assert(out_keys@[a] == old_keys[a - 1]);
                    assert(out_keys@[b] == old_keys[b - 1]);
                }
            }
            assert forall|a: int, b: int|
                0 <= a < b < i + 1 implies goes_before(
                ks[#[trigger] out_keys@[a] as int],
                out_keys@[a] as int,
                ks[#[trigger] out_keys@[b] as int],
                out_keys@[b] as int,
                desc,
            ) by {
                let ka = out_keys@[a] as int;
                let kb = out_keys@[b] as int;
                if b < pos {
                    assert(ka == old_keys[a]);
                    assert(kb == old_keys[b]);
                } else if b == pos {
                    assert(ka == old_keys[a]);
                } else if a == pos {
                    assert(kb == old_keys[b - 1]);
                    if b - 1 > pos {
                        let kp = old_keys[pos as int] as int;
                        assert(goes_before(ks[kp], kp, ks[kb], kb, desc));
                        assert(goes_before(ks[i as int], i as int, ks[kp], kp, desc));
                        lemma_goes_before_trans(ks[i as int], i as int, ks[kp], kp, ks[kb], kb, desc);
                    } else {
                        assert(b - 1 == pos);
                    }
                } else if a < pos {
                    assert(ka == old_keys[a]);
                    assert(kb == old_keys[b - 1]);
                } else {
                    assert(ka == old_keys[a - 1]);
                    assert(kb == old_keys[b - 1]);
                }
            }
            assert forall|k: int| 0 <= k < i + 1 implies #[trigger] out@[k] == orig[out_keys@[k] as int] by {
                if k < pos {
                    assert(out@[k] == old_out[k]);
                    assert(out_keys@[k] == old_keys[k]);
                } else if k > pos {
                    assert(out@[k] == old_out[k - 1]);
                    assert(out_keys@[k] == old_keys[k - 1]);
                }
            }
            assert forall|k: int| 0 <= k < i + 1 implies 0 <= #[trigger] out_keys@[k] < i + 1 by {
                if k < pos {
                    assert(out_keys@[k] == old_keys[k]);
                } else if k > pos {
                    assert(out_keys@[k] == old_keys[k - 1]);
                }
            }
        }
        i += 1;
    }
    let ghost perm = out_keys@.map(|k: int, v: usize| v as int);
    assert(is_sorting_perm(perm, ks, desc));
    assert(forall|k: int| 0 <= k < out@.len() ==> #[trigger] out@[k] == orig[perm[k]]);
    out
}

/// A stable sort puts the keys in order: ascending (or, with `desc`,
/// descending), and items with equal keys keep their order.
pub proof fn lemma_sorted_keys_in_order<T>(out: Seq<T>, items: Seq<T>, keys: Seq<Seq<char>>, desc: bool, a: int, b: int)
    requires
        items.len() == keys.len(),
        sorted_by_keys(out, items, keys, desc),
        0 <= a < b < out.len(),
    ensures
        exists|ia: int, ib: int|
            0 <= ia < items.len() && 0 <= ib < items.len() && out[a] == items[ia] && out[b] == items[ib]
                && goes_before(keys[ia], ia, keys[ib], ib, desc),
{
    let perm = choose|perm: Seq<int>|
        is_sorting_perm(perm, keys, desc) && out.len() == perm.len() && forall|k: int|
            0 <= k < out.len() ==> #[trigger] out[k] == items[perm[k]];
    assert(out[a] == items[perm[a]]);
    assert(out[b] == items[perm[b]]);
    assert(goes_before(keys[perm[a]], perm[a], keys[perm[b]], perm[b], desc));
    assert(0 <= perm[a] < keys.len());
    assert(0 <= perm[b] < keys.len());
    let (ia, ib) = (perm[a], perm[b]);
    assert(0 <= ia < items.len() && 0 <= ib < items.len() && out[a] == items[ia] && out[b] == items[ib]
        && goes_before(keys[ia], ia, keys[ib], ib, desc));
}


proof fn lemma_goes_before_asym(ka: Seq<char>, ia: int, kb: Seq<char>, ib: int, desc: bool)
    requires
        goes_before(ka, ia, kb, ib, desc),
    ensures
        !goes_before(kb, ib, ka, ia, desc),
{
    if desc {
        if str_lt(kb, ka) {
            lemma_str_lt_asym(kb, ka);
            if ka == kb {
                lemma_str_lt_irreflexive(ka);
            }
        }
    } else {
        if str_lt(ka, kb) {
            lemma_str_lt_asym(ka, kb);
            if ka == kb {
                lemma_str_lt_irreflexive(ka);
            }
        }
    }
}

/// A sorting permutation lists every position of the keys.
proof fn lemma_sorting_perm_covers(perm: Seq<int>, keys: Seq<Seq<char>>, desc: bool, x: int)
    requires
        is_sorting_perm(perm, keys, desc),
        0 <= x < keys.len(),
    ensures
        exists|j: int| 0 <= j < perm.len() && perm[j] == x,
{
    broadcast use vstd::seq_lib::seq_to_set_is_finite;
    assert(perm.no_duplicates()) by {
        assert forall|a: int, b: int| 0 <= a < perm.len() && 0 <= b < perm.len() && a != b implies perm[a] != perm[b] by {
            if a < b {
                assert(perm[a] != perm[b]);
            } else {
                assert(perm[b] != perm[a]);
            }
        }
    }
    perm.unique_seq_to_set();
    let r = vstd::set_lib::set_int_range(0, keys.len() as int);
    vstd::set_lib::lemma_int_range(0, keys.len() as int);
    assert(perm.to_set().subset_of(r)) by {
        assert forall|v: int| perm.to_set().contains(v) implies r.contains(v) by {
            assert(perm.contains(v));
            let j = choose|j: int| 0 <= j < perm.len() && perm[j] == v;
            assert(0 <= perm[j] < keys.len());
        }
    }
    vstd::set_lib::lemma_subset_equality(perm.to_set(), r);
    assert(r.contains(x));
    assert(perm.to_set().contains(x));
    assert(perm.contains(x));
}

proof fn lemma_sorting_perms_agree_at(p1: Seq<int>, p2: Seq<int>, keys: Seq<Seq<char>>, desc: bool, k: int)
    requires
        is_sorting_perm(p1, keys, desc),
        is_sorting_perm(p2, keys, desc),
        0 <= k < p1.len(),
        forall|j: int| 0 <= j < k ==> p1[j] == p2[j],
    ensures
        p1[k] == p2[k],
{
    let x = p1[k];
    let y = p2[k];
    if x != y {
        lemma_sorting_perm_covers(p1, keys, desc, y);
        let j1 = choose|j: int| 0 <= j < p1.len() && p1[j] == y;
        if j1 < k {
            assert(p2[j1] == y);
            assert(p2[j1] != p2[k]);
        }
        assert(j1 > k);
        assert(goes_before(keys[p1[k]], p1[k], keys[p1[j1]], p1[j1], desc));
        lemma_sorting_perm_covers(p2, keys, desc, x);
        let j2 = choose|j: int| 0 <= j < p2.len() && p2[j] == x;
        if j2 < k {
            assert(p1[j2] == x);
            assert(p1[j2] != p1[k]);
        }
        assert(j2 > k);
        assert(goes_before(keys[p2[k]], p2[k], keys[p2[j2]], p2[j2], desc));
        lemma_goes_before_asym(keys[x], x, keys[y], y, desc);
    }
}

proof fn lemma_sorting_perms_agree_upto(p1: Seq<int>, p2: Seq<int>, keys: Seq<Seq<char>>, desc: bool, n: int)
    requires
        is_sorting_perm(p1, keys, desc),
        is_sorting_perm(p2, keys, desc),
        0 <= n <= p1.len(),
    ensures
        forall|j: int| 0 <= j < n ==> p1[j] == p2[j],
    decreases n,
{
    if n > 0 {
        lemma_sorting_perms_agree_upto(p1, p2, keys, desc, n - 1);
        lemma_sorting_perms_agree_at(p1, p2, keys, desc, n - 1);
    }
}

/// A stable sort has one outcome: two stable sorts of the same items by the
/// same keys are equal.
pub proof fn lemma_sorted_unique<T>(o1: Seq<T>, o2: Seq<T>, items: Seq<T>, keys: Seq<Seq<char>>, desc: bool)
    requires
        sorted_by_keys(o1, items, keys, desc),
        sorted_by_keys(o2, items, keys, desc),
    ensures
        o1 == o2,
{
    let p1 = choose|perm: Seq<int>|
        is_sorting_perm(perm, keys, desc) && o1.len() == perm.len() && forall|k: int|
            0 <= k < o1.len() ==> #[trigger] o1[k] == items[perm[k]];
    let p2 = choose|perm: Seq<int>|
        is_sorting_perm(perm, keys, desc) && o2.len() == perm.len() && forall|k: int|
            0 <= k < o2.len() ==> #[trigger] o2[k] == items[perm[k]];
    lemma_sorting_perms_agree_upto(p1, p2, keys, desc, p1.len() as int);
    assert forall|k: int| 0 <= k < o1.len() implies o1[k] == o2[k] by {
        assert(o1[k] == items[p1[k]]);
        assert(o2[k] == items[p2[k]]);
    }
    assert(o1 =~= o2);
}

} // verus!
