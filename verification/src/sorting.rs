//! Stable sorting of table entries by one column.
//!
//! The sort is a merge sort. It always returns a rearrangement of what it was
//! given. Where the comparison of the rows is a strict weak order, the result
//! is in order, and entries that tie stay as they were.

use vstd::prelude::*;
use std::cmp::Ordering;
use crate::display::Entry;
use crate::tabular::Tabular;

verus! {

/// The direction in which the rows are sorted by the selected column.
#[derive(Clone, Copy, Debug, PartialEq, Eq, Structural)]
pub enum SortDirection {
    Ascending,
    Unsorted,
    Descending,
}

impl SortDirection {
    /// The direction that follows `self` in the cycle: unsorted, ascending,
    /// descending, and unsorted again.
    pub open spec fn spec_next(self) -> SortDirection {
        match self {
            SortDirection::Unsorted => SortDirection::Ascending,
            SortDirection::Ascending => SortDirection::Descending,
            SortDirection::Descending => SortDirection::Unsorted,
        }
    }

    #[verifier::when_used_as_spec(spec_next)]
    pub fn next(self) -> (d: SortDirection)
        ensures
            d == self.spec_next(),
    {
        match self {
            SortDirection::Unsorted => SortDirection::Ascending,
            SortDirection::Ascending => SortDirection::Descending,
            SortDirection::Descending => SortDirection::Unsorted,
        }
    }
}

/// Whether `a` must stand before `b` when sorting by `col` in direction `dir`.
/// Descending order is the ascending comparison with its operands swapped.
pub open spec fn precedes<T: Tabular>(a: &T, b: &T, col: usize, dir: SortDirection) -> bool {
    match dir {
        SortDirection::Ascending => a.order_by_col(b, col) is Less,
        SortDirection::Descending => b.order_by_col(a, col) is Less,
        SortDirection::Unsorted => false,
    }
}

/// Whether `a` must stand before `b`.
pub fn comes_before<T: Tabular>(a: &T, b: &T, col: usize, dir: SortDirection) -> (first: bool)
    ensures
        first == precedes(a, b, col, dir),
{
    match dir {
        SortDirection::Ascending => match a.cmp_by_col(b, col) {
            Ordering::Less => true,
            _ => false,
        },
        SortDirection::Descending => match b.cmp_by_col(a, col) {
            Ordering::Less => true,
            _ => false,
        },
        SortDirection::Unsorted => false,
    }
}

/// Whether the entry at `a` must stand before the entry at `b`.
pub open spec fn goes_before<T: Tabular>(
    entries: Seq<Entry<T>>,
    a: int,
    b: int,
    col: usize,
    dir: SortDirection,
) -> bool {
    precedes(&entries[a].row, &entries[b].row, col, dir)
}

/// Whether the comparison is a strict weak order on `entries`: no two entries
/// must each stand before the other, and where `a` need not stand before `b`
/// nor `b` before `c`, `a` need not stand before `c`.
pub open spec fn strict_weak<T: Tabular>(
    entries: Seq<Entry<T>>,
    col: usize,
    dir: SortDirection,
) -> bool {
    &&& forall|a: int, b: int|
        0 <= a < entries.len() && 0 <= b < entries.len() && #[trigger] goes_before(
            entries,
            a,
            b,
            col,
            dir,
        ) ==> !goes_before(entries, b, a, col, dir)
    &&& forall|a: int, b: int, c: int|
        0 <= a < entries.len() && 0 <= b < entries.len() && 0 <= c < entries.len()
            && !#[trigger] goes_before(entries, a, b, col, dir) && !#[trigger] goes_before(
            entries,
            b,
            c,
            col,
            dir,
        ) ==> !goes_before(entries, a, c, col, dir)
}

/// Whether `p` lists each of `0..n` once.
pub open spec fn is_permutation(p: Seq<int>, n: int) -> bool {
    &&& p.len() == n
    &&& forall|i: int| 0 <= i < n ==> 0 <= #[trigger] p[i] < n
    &&& forall|i: int, j: int| 0 <= i < j < n ==> #[trigger] p[i] != #[trigger] p[j]
}

/// Whether `after` holds the entries of `before`, the one at `i` being the one
/// that stood at `p[i]`.
pub open spec fn rearranged<T: Tabular>(
    before: Seq<Entry<T>>,
    after: Seq<Entry<T>>,
    p: Seq<int>,
) -> bool {
    &&& is_permutation(p, before.len() as int)
    &&& after.len() == before.len()
    &&& forall|i: int| 0 <= i < after.len() ==> #[trigger] after[i] == before[p[i]]
}

/// Whether no entry stands behind one that it must stand before.
pub open spec fn in_order<T: Tabular>(
    entries: Seq<Entry<T>>,
    col: usize,
    dir: SortDirection,
) -> bool {
    forall|i: int, j: int|
        0 <= i < j < entries.len() ==> !#[trigger] goes_before(entries, j, i, col, dir)
}

/// Whether entries that tie kept their order: where the entry now at `i` need
/// not stand before the one now at `j`, and `i` is before `j`, it stood before
/// it already.
pub open spec fn ties_kept<T: Tabular>(
    after: Seq<Entry<T>>,
    p: Seq<int>,
    col: usize,
    dir: SortDirection,
) -> bool {
    forall|i: int, j: int|
        0 <= i < j < after.len() && !#[trigger] goes_before(after, i, j, col, dir) ==> p[i] < p[j]
}

/// Whether `after` is `before` sorted stably by `col` in direction `dir`, with
/// `p` telling where each entry came from.
pub open spec fn stably_sorted<T: Tabular>(
    before: Seq<Entry<T>>,
    after: Seq<Entry<T>>,
    p: Seq<int>,
    col: usize,
    dir: SortDirection,
) -> bool {
    &&& rearranged(before, after, p)
    &&& strict_weak(before, col, dir) ==> in_order(after, col, dir) && ties_kept(
        after,
        p,
        col,
        dir,
    )
}

// The order that the sort establishes among the places of the input: by the
// comparison first, and among ties by place.
spec fn lex_before<T: Tabular>(
    inp: Seq<Entry<T>>,
    a: int,
    b: int,
    col: usize,
    dir: SortDirection,
) -> bool {
    goes_before(inp, a, b, col, dir) || (!goes_before(inp, b, a, col, dir) && a < b)
}

spec fn lex_sorted<T: Tabular>(
    inp: Seq<Entry<T>>,
    t: Seq<int>,
    col: usize,
    dir: SortDirection,
) -> bool {
    forall|i: int, j: int| 0 <= i < j < t.len() ==> #[trigger] lex_before(inp, t[i], t[j], col, dir)
}

// `v` holds the entries of `inp` at the places `t`.
spec fn tagged<T: Tabular>(v: Seq<Entry<T>>, inp: Seq<Entry<T>>, t: Seq<int>) -> bool {
    &&& v.len() == t.len()
    &&& forall|i: int| 0 <= i < t.len() ==> 0 <= #[trigger] t[i] < inp.len()
    &&& forall|i: int| 0 <= i < t.len() ==> #[trigger] v[i] == inp[t[i]]
}

spec fn distinct(t: Seq<int>) -> bool {
    forall|i: int, j: int| 0 <= i < j < t.len() ==> #[trigger] t[i] != #[trigger] t[j]
}

spec fn increasing(t: Seq<int>) -> bool {
    forall|i: int, j: int| 0 <= i < j < t.len() ==> #[trigger] t[i] < #[trigger] t[j]
}

proof fn lemma_lex_transitive<T: Tabular>(
    inp: Seq<Entry<T>>,
    a: int,
    b: int,
    c: int,
    col: usize,
    dir: SortDirection,
)
    requires
        strict_weak(inp, col, dir),
        0 <= a < inp.len(),
        0 <= b < inp.len(),
        0 <= c < inp.len(),
        lex_before(inp, a, b, col, dir),
        lex_before(inp, b, c, col, dir),
    ensures
        lex_before(inp, a, c, col, dir),
{
    let ab = goes_before(inp, a, b, col, dir);
    let ba = goes_before(inp, b, a, col, dir);
    let bc = goes_before(inp, b, c, col, dir);
    let cb = goes_before(inp, c, b, col, dir);
    let ac = goes_before(inp, a, c, col, dir);
    let ca = goes_before(inp, c, a, col, dir);
    if ab && bc {
        assert(!cb);
        if !ac {
            assert(!goes_before(inp, a, c, col, dir) && !goes_before(inp, c, b, col, dir));
            assert(!ab);
        }
    } else if ab {
        assert(!cb);
        if !ac {
            assert(!goes_before(inp, a, c, col, dir) && !goes_before(inp, c, b, col, dir));
            assert(!ab);
        }
    } else if bc {
        assert(!ba);
        if !ac {
            assert(!goes_before(inp, b, a, col, dir) && !goes_before(inp, a, c, col, dir));
            assert(!bc);
        }
    } else {
        assert(!cb && !ba);
        assert(!goes_before(inp, c, b, col, dir) && !goes_before(inp, b, a, col, dir));
        assert(!ca);
    }
}

/// The items of `v` in the opposite order.
pub fn reversed<E>(v: Vec<E>) -> (r: Vec<E>)
    ensures
        r@.len() == v@.len(),
        forall|k: int| 0 <= k < r@.len() ==> #[trigger] r@[k] == v@[v@.len() - 1 - k],
{
    let ghost orig = v@;
    let mut v = v;
    let mut r: Vec<E> = Vec::new();
    while v.len() > 0
        invariant
            v@.len() + r@.len() == orig.len(),
            forall|k: int| 0 <= k < v@.len() ==> #[trigger] v@[k] == orig[k],
            forall|k: int| 0 <= k < r@.len() ==> #[trigger] r@[k] == orig[orig.len() - 1 - k],
        decreases v@.len(),
    {
        let x = v.pop().unwrap();
        r.push(x);
    }
    r
}

fn merge<T: Tabular>(
    left: Vec<Entry<T>>,
    right: Vec<Entry<T>>,
    col: usize,
    dir: SortDirection,
    Ghost(inp): Ghost<Seq<Entry<T>>>,
    Ghost(lt): Ghost<Seq<int>>,
    Ghost(rt): Ghost<Seq<int>>,
) -> (res: (Vec<Entry<T>>, Ghost<Seq<int>>))
    requires
        tagged(left@, inp, lt),
        tagged(right@, inp, rt),
        distinct(lt),
        distinct(rt),
        forall|a: int, b: int|
            0 <= a < lt.len() && 0 <= b < rt.len() ==> #[trigger] lt[a] < #[trigger] rt[b],
        strict_weak(inp, col, dir) ==> lex_sorted(inp, lt, col, dir) && lex_sorted(
            inp,
            rt,
            col,
            dir,
        ),
    ensures
        tagged(res.0@, inp, res.1@),
        res.1@.len() == lt.len() + rt.len(),
        distinct(res.1@),
        forall|m: int|
            0 <= m < res.1@.len() ==> lt.contains(#[trigger] res.1@[m]) || rt.contains(res.1@[m]),
        strict_weak(inp, col, dir) ==> lex_sorted(inp, res.1@, col, dir),
{
    let ghost l0 = left@;
    let ghost r0 = right@;
    let ghost ln = lt.len() as int;
    let ghost rn = rt.len() as int;
    let mut ls = reversed(left);
    let mut rs = reversed(right);
    let mut out: Vec<Entry<T>> = Vec::new();
    let ghost mut ot: Seq<int> = Seq::empty();
    while ls.len() > 0 || rs.len() > 0
        invariant
            tagged(l0, inp, lt),
            tagged(r0, inp, rt),
            ln == lt.len(),
            rn == rt.len(),
            distinct(lt),
            distinct(rt),
            forall|a: int, b: int|
                0 <= a < lt.len() && 0 <= b < rt.len() ==> #[trigger] lt[a] < #[trigger] rt[b],
            strict_weak(inp, col, dir) ==> lex_sorted(inp, lt, col, dir) && lex_sorted(
                inp,
                rt,
                col,
                dir,
            ),
            ls@.len() <= ln,
            rs@.len() <= rn,
            forall|k: int| 0 <= k < ls@.len() ==> #[trigger] ls@[k] == l0[ln - 1 - k],
            forall|k: int| 0 <= k < rs@.len() ==> #[trigger] rs@[k] == r0[rn - 1 - k],
            tagged(out@, inp, ot),
            ot.len() == (ln - ls@.len()) + (rn - rs@.len()),
            distinct(ot),
            forall|m: int|
                0 <= m < ot.len() ==> lt.take(ln - ls@.len()).contains(#[trigger] ot[m])
                    || rt.take(rn - rs@.len()).contains(ot[m]),
            strict_weak(inp, col, dir) ==> lex_sorted(inp, ot, col, dir),
            strict_weak(inp, col, dir) ==> forall|m: int, k: int|
                0 <= m < ot.len() && ln - ls@.len() <= k < ln ==> #[trigger] lex_before(
                    inp,
                    ot[m],
                    lt[k],
                    col,
                    dir,
                ),
            strict_weak(inp, col, dir) ==> forall|m: int, k: int|
                0 <= m < ot.len() && rn - rs@.len() <= k < rn ==> #[trigger] lex_before(
                    inp,
                    ot[m],
                    rt[k],
                    col,
                    dir,
                ),
        decreases ls@.len() + rs@.len(),
    {
        let ghost i = ln - ls@.len();
        let ghost j = rn - rs@.len();
        let ghost old_ot = ot;
        let take_right = if ls.len() == 0 {
            true
        } else if rs.len() == 0 {
            false
        } else {
            comes_before(&rs[rs.len() - 1].row, &ls[ls.len() - 1].row, col, dir)
        };
        if take_right {
            let x = rs.pop().unwrap();
            out.push(x);
            proof {
                let t = rt[j];
                assert(x == r0[j]);
                ot = old_ot.push(t);
                assert forall|m: int| 0 <= m < old_ot.len() implies old_ot[m] != t by {
                    if lt.take(i).contains(old_ot[m]) {
                        let k = choose|k: int| 0 <= k < i && lt.take(i)[k] == old_ot[m];
                        assert(lt[k] < rt[j]);
                    } else {
                        let k = choose|k: int| 0 <= k < j && rt.take(j)[k] == old_ot[m];
                        assert(rt[k] != rt[j]);
                    }
                }
                assert forall|m: int| 0 <= m < ot.len() implies lt.take(i).contains(
                    #[trigger] ot[m],
                ) || rt.take(j + 1).contains(ot[m]) by {
                    if m < old_ot.len() {
                        if !lt.take(i).contains(old_ot[m]) {
                            let k = choose|k: int| 0 <= k < j && rt.take(j)[k] == old_ot[m];
                            assert(rt.take(j + 1)[k] == old_ot[m]);
                        }
                    } else {
                        assert(rt.take(j + 1)[j] == t);
                    }
                }
                if strict_weak(inp, col, dir) {
                    assert forall|m: int, k: int| 0 <= m < ot.len() && i <= k < ln implies
                        #[trigger] lex_before(inp, ot[m], lt[k], col, dir) by {
                        if m == old_ot.len() {
                            // the right head was taken because it must stand
                            // before the left head
                            assert(ls@.len() > 0);
                            assert(ls@[ls@.len() - 1] == l0[i]);
                            assert(goes_before(inp, rt[j], lt[i], col, dir));
                            if k > i {
                                assert(lex_before(inp, lt[i], lt[k], col, dir));
                                lemma_lex_transitive(inp, rt[j], lt[i], lt[k], col, dir);
                            }
                        }
                    }
                    assert forall|m: int, k: int| 0 <= m < ot.len() && j + 1 <= k < rn implies
                        #[trigger] lex_before(inp, ot[m], rt[k], col, dir) by {
                        if m == old_ot.len() {
                            assert(lex_before(inp, rt[j], rt[k], col, dir));
                        }
                    }
                    assert forall|a: int, b: int| 0 <= a < b < ot.len() implies #[trigger] lex_before(
                        inp,
                        ot[a],
                        ot[b],
                        col,
                        dir,
                    ) by {
                        if b == old_ot.len() {
                            assert(lex_before(inp, old_ot[a], rt[j], col, dir));
                        } else {
                            assert(lex_before(inp, old_ot[a], old_ot[b], col, dir));
                        }
                    }
                }
            }
        } else {
            let x = ls.pop().unwrap();
            out.push(x);
            proof {
                let t = lt[i];
                assert(x == l0[i]);
                ot = old_ot.push(t);
                assert forall|m: int| 0 <= m < old_ot.len() implies old_ot[m] != t by {
                    if lt.take(i).contains(old_ot[m]) {
                        let k = choose|k: int| 0 <= k < i && lt.take(i)[k] == old_ot[m];
                        assert(lt[k] != lt[i]);
                    } else {
                        let k = choose|k: int| 0 <= k < j && rt.take(j)[k] == old_ot[m];
                        assert(lt[i] < rt[k]);
                    }
                }
                assert forall|m: int| 0 <= m < ot.len() implies lt.take(i + 1).contains(
                    #[trigger] ot[m],
                ) || rt.take(j).contains(ot[m]) by {
                    if m < old_ot.len() {
                        if lt.take(i).contains(old_ot[m]) {
                            let k = choose|k: int| 0 <= k < i && lt.take(i)[k] == old_ot[m];
                            assert(lt.take(i + 1)[k] == old_ot[m]);
                        }
                    } else {
                        assert(lt.take(i + 1)[i] == t);
                    }
                }
                if strict_weak(inp, col, dir) {
                    assert forall|m: int, k: int| 0 <= m < ot.len() && j <= k < rn implies
                        #[trigger] lex_before(inp, ot[m], rt[k], col, dir) by {
                        if m == old_ot.len() {
                            // the left head was taken because the right head
                            // need not stand before it
                            assert(rs@.len() > 0);
                            assert(rs@[rs@.len() - 1] == r0[j]);
                            assert(!goes_before(inp, rt[j], lt[i], col, dir));
                            assert(lt[i] < rt[j]);
                            assert(lex_before(inp, lt[i], rt[j], col, dir));
                            if k > j {
                                assert(lex_before(inp, rt[j], rt[k], col, dir));
                                lemma_lex_transitive(inp, lt[i], rt[j], rt[k], col, dir);
                            }
                        }
                    }
                    assert forall|m: int, k: int| 0 <= m < ot.len() && i + 1 <= k < ln implies
                        #[trigger] lex_before(inp, ot[m], lt[k], col, dir) by {
                        if m == old_ot.len() {
                            assert(lex_before(inp, lt[i], lt[k], col, dir));
                        }
                    }
                    assert forall|a: int, b: int| 0 <= a < b < ot.len() implies #[trigger] lex_before(
                        inp,
                        ot[a],
                        ot[b],
                        col,
                        dir,
                    ) by {
                        if b == old_ot.len() {
                            assert(lex_before(inp, old_ot[a], lt[i], col, dir));
                        } else {
                            assert(lex_before(inp, old_ot[a], old_ot[b], col, dir));
                        }
                    }
                }
            }
        }
    }
    proof {
        assert(lt.take(ln) =~= lt);
        assert(rt.take(rn) =~= rt);
    }
    (out, Ghost(ot))
}

fn sort_run<T: Tabular>(
    v: Vec<Entry<T>>,
    col: usize,
    dir: SortDirection,
    Ghost(inp): Ghost<Seq<Entry<T>>>,
    Ghost(tags): Ghost<Seq<int>>,
) -> (res: (Vec<Entry<T>>, Ghost<Seq<int>>))
    requires
        tagged(v@, inp, tags),
        increasing(tags),
    ensures
        tagged(res.0@, inp, res.1@),
        res.1@.len() == tags.len(),
        distinct(res.1@),
        forall|m: int| 0 <= m < res.1@.len() ==> tags.contains(#[trigger] res.1@[m]),
        strict_weak(inp, col, dir) ==> lex_sorted(inp, res.1@, col, dir),
    decreases v@.len(),
{
    if v.len() <= 1 {
        proof {
            assert forall|m: int| 0 <= m < tags.len() implies tags.contains(#[trigger] tags[m]) by {}
        }
        return (v, Ghost(tags));
    }
    let mid = v.len() / 2;
    let mut left = v;
    let right = left.split_off(mid);
    let ghost lt = tags.take(mid as int);
    let ghost rt = tags.skip(mid as int);
    let (ls, Ghost(lo)) = sort_run(left, col, dir, Ghost(inp), Ghost(lt));
    let (rs, Ghost(ro)) = sort_run(right, col, dir, Ghost(inp), Ghost(rt));
    proof {
        assert forall|a: int, b: int| 0 <= a < lo.len() && 0 <= b < ro.len() implies #[trigger] lo[a]
            < #[trigger] ro[b] by {
            assert(lt.contains(lo[a]));
            assert(rt.contains(ro[b]));
            let x = choose|x: int| 0 <= x < lt.len() && lt[x] == lo[a];
            let y = choose|y: int| 0 <= y < rt.len() && rt[y] == ro[b];
            assert(tags[x] < tags[mid + y]);
        }
    }
    let (out, Ghost(ot)) = merge(ls, rs, col, dir, Ghost(inp), Ghost(lo), Ghost(ro));
    proof {
        assert forall|m: int| 0 <= m < ot.len() implies tags.contains(#[trigger] ot[m]) by {
            if lo.contains(ot[m]) {
                let a = choose|a: int| 0 <= a < lo.len() && lo[a] == ot[m];
                assert(lt.contains(lo[a]));
                let x = choose|x: int| 0 <= x < lt.len() && lt[x] == lo[a];
                assert(tags[x] == ot[m]);
            } else {
                let b = choose|b: int| 0 <= b < ro.len() && ro[b] == ot[m];
                assert(rt.contains(ro[b]));
                let y = choose|y: int| 0 <= y < rt.len() && rt[y] == ro[b];
                assert(tags[mid + y] == ot[m]);
            }
        }
    }
    (out, Ghost(ot))
}

/// Sorts `entries` stably by column `col` in direction `dir`.
pub fn stable_sort<T: Tabular>(entries: Vec<Entry<T>>, col: usize, dir: SortDirection) -> (sorted:
    Vec<Entry<T>>)
    ensures
        exists|p: Seq<int>| stably_sorted(entries@, sorted@, p, col, dir),
{
    let ghost inp = entries@;
    let ghost tags = Seq::new(inp.len(), |i: int| i);
    let (sorted, Ghost(p)) = sort_run(entries, col, dir, Ghost(inp), Ghost(tags));
    proof {
        assert forall|i: int| 0 <= i < p.len() implies 0 <= #[trigger] p[i] < inp.len() by {}
        assert(rearranged(inp, sorted@, p));
        if strict_weak(inp, col, dir) {
            assert forall|i: int, j: int| 0 <= i < j < sorted@.len() implies !#[trigger] goes_before(
                sorted@,
                j,
                i,
                col,
                dir,
            ) by {
                assert(lex_before(inp, p[i], p[j], col, dir));
                assert(goes_before(sorted@, j, i, col, dir) == goes_before(
                    inp,
                    p[j],
                    p[i],
                    col,
                    dir,
                ));
            }
            assert forall|i: int, j: int|
                0 <= i < j < sorted@.len() && !#[trigger] goes_before(
                    sorted@,
                    i,
                    j,
                    col,
                    dir,
                ) implies p[i] < p[j] by {
                assert(lex_before(inp, p[i], p[j], col, dir));
                assert(goes_before(sorted@, i, j, col, dir) == goes_before(
                    inp,
                    p[i],
                    p[j],
                    col,
                    dir,
                ));
            }
        }
        assert(stably_sorted(inp, sorted@, p, col, dir));
    }
    sorted
}

} // verus!
