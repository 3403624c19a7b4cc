//! The point-merging pass: welds bit-identical attribute tuples across a
//! mesh, rewriting the matching index stream.
use crate::maps::Key3Map;
use vstd::prelude::*;

verus! {

/// The key of the tuple starting at chunk `i`: its components, padded
/// with zero for width two.
pub open spec fn chunk_key(points: Seq<u64>, w: int, i: int) -> (u64, u64, u64) {
    (
        points[w * i],
        points[w * i + 1],
        if w == 3 {
            points[w * i + 2]
        } else {
            0
        },
    )
}

/// The growing result of the merge pass: the kept tuples, the remap
/// table from original to compact tuple positions, and the canonical
/// map from tuple key to compact position.
pub ghost struct MergeState {
    pub newp: Seq<u64>,
    pub remap: Seq<u32>,
    pub cmap: Map<(u64, u64, u64), u32>,
}

pub open spec fn merge_init() -> MergeState {
    MergeState { newp: Seq::empty(), remap: Seq::empty(), cmap: Map::empty() }
}

/// The merge fold from chunk `i` on: the first occurrence of a distinct
/// tuple is kept and assigned the next compact position; a repeat is
/// dropped and remapped to its canonical position.
pub open spec fn merge_from(st: MergeState, points: Seq<u64>, w: int, i: int) -> MergeState
    decreases points.len() as int / w - i,
{
    if w < 2 || i < 0 || i >= points.len() as int / w {
        st
    } else {
        let k = chunk_key(points, w, i);
        let st2 = if st.cmap.contains_key(k) {
            MergeState { remap: st.remap.push(st.cmap[k]), ..st }
        } else {
            MergeState {
                newp: st.newp + points.subrange(w * i, w * i + w),
                remap: st.remap.push(st.cmap.len() as u32),
                cmap: st.cmap.insert(k, st.cmap.len() as u32),
            }
        };
        merge_from(st2, points, w, i + 1)
    }
}

/// What merging a whole buffer yields.
pub open spec fn merge_spec(points: Seq<u64>, w: int) -> MergeState {
    merge_from(merge_init(), points, w, 0)
}

/// Soundness of a merge fold state over the first `i` chunks.
pub open spec fn merge_inv(st: MergeState, w: int, i: int) -> bool {
    &&& st.remap.len() == i
    &&& st.newp.len() as int % w == 0
    &&& st.cmap.dom().finite()
    &&& st.cmap.len() == st.newp.len() as int / w
    &&& st.cmap.len() <= i
    &&& (forall|j: int|
        0 <= j < st.newp.len() as int / w ==> st.cmap.contains_key(#[trigger] chunk_key(st.newp, w, j))
            && st.cmap[chunk_key(st.newp, w, j)] == j)
    &&& (forall|k: (u64, u64, u64)| st.cmap.contains_key(k) ==> st.cmap[k] < st.cmap.len())
    &&& (forall|j: int| 0 <= j < i ==> st.remap[j] < st.cmap.len())
}

/// Exact division facts for whole-tuple buffer lengths.
pub proof fn lemma_div_exact(a: int, w: int)
    requires
        w >= 1,
        a >= 0,
        a % w == 0,
    ensures
        a == w * (a / w),
        (a + w) % w == 0,
        (a + w) / w == a / w + 1,
{
    assert(a == w * (a / w)) by (nonlinear_arith)
        requires
            w >= 1,
            a >= 0,
            a % w == 0,
    ;
    assert((a + w) % w == 0 && (a + w) / w == a / w + 1) by (nonlinear_arith)
        requires
            w >= 1,
            a >= 0,
            a % w == 0,
    ;
}

/// Bounds of the `i`-th tuple of a whole-tuple buffer.
pub proof fn lemma_chunk_bounds(len: int, w: int, i: int)
    requires
        w >= 1,
        len % w == 0,
        len >= 0,
        0 <= i < len / w,
    ensures
        w * i + w <= len,
        0 <= w * i,
{
    assert(len == w * (len / w)) by (nonlinear_arith)
        requires
            w >= 1,
            len >= 0,
            len % w == 0,
    ;
    assert(w * i + w <= w * (len / w)) by (nonlinear_arith)
        requires
            w >= 1,
            i < len / w,
    ;
}

pub proof fn lemma_merge_step_inv(st: MergeState, points: Seq<u64>, w: int, i: int)
    requires
        w == 2 || w == 3,
        0 <= i < points.len() as int / w,
        points.len() as int % w == 0,
        points.len() as int / w <= 0x1_0000_0000,
        merge_inv(st, w, i),
    ensures
        ({
            let k = chunk_key(points, w, i);
            let st2 = if st.cmap.contains_key(k) {
                MergeState { remap: st.remap.push(st.cmap[k]), ..st }
            } else {
                MergeState {
                    newp: st.newp + points.subrange(w * i, w * i + w),
                    remap: st.remap.push(st.cmap.len() as u32),
                    cmap: st.cmap.insert(k, st.cmap.len() as u32),
                }
            };
            merge_inv(st2, w, i + 1)
        }),
{
    lemma_chunk_bounds(points.len() as int, w, i);
    let k = chunk_key(points, w, i);
    if st.cmap.contains_key(k) {
    } else {
        let st2 = MergeState {
            newp: st.newp + points.subrange(w * i, w * i + w),
            remap: st.remap.push(st.cmap.len() as u32),
            cmap: st.cmap.insert(k, st.cmap.len() as u32),
        };
        let m = st.newp.len() as int / w;
        lemma_div_exact(st.newp.len() as int, w);
        vstd::set::axiom_set_insert_len(st.cmap.dom(), k);
        assert(st2.cmap.dom() =~= st.cmap.dom().insert(k));
        assert(st2.newp.len() == st.newp.len() + w);
        assert(st2.newp.len() as int / w == m + 1);
        assert(st.newp.len() as int == w * m);
        assert forall|j: int| 0 <= j < m + 1 implies st2.cmap.contains_key(
            #[trigger] chunk_key(st2.newp, w, j),
        ) && st2.cmap[chunk_key(st2.newp, w, j)] == j by {
            if j < m {
                assert(w * j + w <= w * m) by (nonlinear_arith)
                    requires
                        w >= 1,
                        0 <= j < m,
                ;
                assert(st2.newp[w * j] == st.newp[w * j]);
                assert(st2.newp[w * j + 1] == st.newp[w * j + 1]);
                if w == 3 {
                    assert(st2.newp[w * j + 2] == st.newp[w * j + 2]);
                }
                assert(chunk_key(st2.newp, w, j) == chunk_key(st.newp, w, j));
            } else {
                assert(w * j == st.newp.len());
                assert(st2.newp[w * j] == points[w * i]);
                assert(st2.newp[w * j + 1] == points[w * i + 1]);
                if w == 3 {
                    assert(st2.newp[w * j + 2] == points[w * i + 2]);
                }
                assert(chunk_key(st2.newp, w, j) == k);
            }
        }
    }
}

/// The merge fold keeps its state sound.
pub proof fn lemma_merge_from_inv(st: MergeState, points: Seq<u64>, w: int, i: int)
    requires
        w == 2 || w == 3,
        0 <= i <= points.len() as int / w,
        points.len() as int % w == 0,
        points.len() as int / w <= 0x1_0000_0000,
        merge_inv(st, w, i),
    ensures
        merge_inv(merge_from(st, points, w, i), w, points.len() as int / w),
    decreases points.len() as int / w - i,
{
    if i < points.len() as int / w {
        lemma_merge_step_inv(st, points, w, i);
        let k = chunk_key(points, w, i);
        let st2 = if st.cmap.contains_key(k) {
            MergeState { remap: st.remap.push(st.cmap[k]), ..st }
        } else {
            MergeState {
                newp: st.newp + points.subrange(w * i, w * i + w),
                remap: st.remap.push(st.cmap.len() as u32),
                cmap: st.cmap.insert(k, st.cmap.len() as u32),
            }
        };
        lemma_merge_from_inv(st2, points, w, i + 1);
    }
}

/// All tuples of the buffer are pairwise distinct.
pub open spec fn chunks_distinct(points: Seq<u64>, w: int) -> bool {
    forall|j1: int, j2: int|
        0 <= j1 < j2 < points.len() as int / w ==> chunk_key(points, w, j1) != chunk_key(points, w, j2)
}

/// The identity remap table of length `n`.
pub open spec fn identity_remap(n: int) -> Seq<u32> {
    Seq::new(n as nat, |j: int| j as u32)
}

/// A merged buffer has pairwise-distinct tuples.
pub proof fn lemma_merge_output_distinct(points: Seq<u64>, w: int)
    requires
        w == 2 || w == 3,
        points.len() as int % w == 0,
        points.len() as int / w <= 0x1_0000_0000,
    ensures
        chunks_distinct(merge_spec(points, w).newp, w),
        merge_spec(points, w).newp.len() as int % w == 0,
{
    lemma_merge_from_inv(merge_init(), points, w, 0);
    let st = merge_spec(points, w);
    assert forall|j1: int, j2: int| 0 <= j1 < j2 < st.newp.len() as int / w implies chunk_key(
        st.newp,
        w,
        j1,
    ) != chunk_key(st.newp, w, j2) by {
        assert(st.cmap[chunk_key(st.newp, w, j1)] == j1);
        assert(st.cmap[chunk_key(st.newp, w, j2)] == j2);
    }
}

/// Merging a buffer of pairwise-distinct tuples keeps every tuple and
/// yields the identity remap.
pub proof fn lemma_merge_distinct_identity(points: Seq<u64>, w: int, i: int, st: MergeState)
    requires
        w == 2 || w == 3,
        points.len() as int % w == 0,
        points.len() as int / w <= 0x1_0000_0000,
        chunks_distinct(points, w),
        0 <= i <= points.len() as int / w,
        st.newp == points.take(w * i),
        st.remap == identity_remap(i),
        st.cmap.dom().finite(),
        st.cmap.len() == i,
        forall|j: int|
            0 <= j < i ==> st.cmap.contains_key(#[trigger] chunk_key(points, w, j))
                && st.cmap[chunk_key(points, w, j)] == j,
        forall|k: (u64, u64, u64)|
            st.cmap.contains_key(k) ==> exists|j: int|
                0 <= j < i && chunk_key(points, w, j) == k,
    ensures
        ({
            let fin = merge_from(st, points, w, i);
            fin.newp == points && fin.remap == identity_remap(points.len() as int / w)
        }),
    decreases points.len() as int / w - i,
{
    let n = points.len() as int / w;
    if i >= n {
        assert(points.take(w * i) =~= points);
        assert(st.newp == points);
    } else {
        lemma_chunk_bounds(points.len() as int, w, i);
        let k = chunk_key(points, w, i);
        if st.cmap.contains_key(k) {
            let j = choose|j: int| 0 <= j < i && chunk_key(points, w, j) == k;
            assert(chunk_key(points, w, j) == chunk_key(points, w, i));
            assert(false);
        }
        let st2 = MergeState {
            newp: st.newp + points.subrange(w * i, w * i + w),
            remap: st.remap.push(st.cmap.len() as u32),
            cmap: st.cmap.insert(k, st.cmap.len() as u32),
        };
        vstd::set::axiom_set_insert_len(st.cmap.dom(), k);
        assert(st2.cmap.dom() =~= st.cmap.dom().insert(k));
        assert(st.newp.len() == w * i) by {
            assert(points.take(w * i).len() == w * i);
        }
        assert(w * (i + 1) == w * i + w) by (nonlinear_arith);
        assert(st2.newp =~= points.take(w * (i + 1)));
        assert(st2.remap =~= identity_remap(i + 1));
        assert forall|k2: (u64, u64, u64)| st2.cmap.contains_key(k2) implies exists|j: int|
            0 <= j < i + 1 && chunk_key(points, w, j) == k2 by {
            if k2 == k {
                assert(chunk_key(points, w, i) == k2);
            } else {
                let j = choose|j: int| 0 <= j < i && chunk_key(points, w, j) == k2;
                assert(0 <= j < i + 1 && chunk_key(points, w, j) == k2);
            }
        }
        lemma_merge_distinct_identity(points, w, i + 1, st2);
    }
}

/// The point-merge pass is idempotent: merging an already-merged buffer
/// keeps it unchanged and remaps every tuple to itself.
pub proof fn lemma_merge_idempotent(points: Seq<u64>, w: int)
    requires
        w == 2 || w == 3,
        points.len() as int % w == 0,
        points.len() as int / w <= 0x1_0000_0000,
    ensures
        ({
            let once = merge_spec(points, w);
            let twice = merge_spec(once.newp, w);
            twice.newp == once.newp && twice.remap == identity_remap(once.newp.len() as int / w)
        }),
{
    lemma_merge_output_distinct(points, w);
    lemma_merge_from_inv(merge_init(), points, w, 0);
    let once = merge_spec(points, w);
    assert(once.newp.len() as int / w == once.cmap.len());
    assert(once.cmap.len() <= points.len() as int / w);
    assert(merge_init().newp =~= once.newp.take(0));
    assert(merge_init().remap =~= identity_remap(0));
    lemma_merge_distinct_identity(once.newp, w, 0, merge_init());
}

/// Welds bit-identical tuples of width `width` (3 for positions, normals
/// and colors, 2 for texture coordinates): the first occurrence of each
/// distinct tuple is kept, repeats are dropped, and the index stream is
/// rewritten through the resulting remap table.  A pass with an empty
/// index stream leaves both buffers untouched.
#[verifier::rlimit(60)]
pub fn merge_identical_points(points: &mut Vec<u64>, indices: &mut Vec<u32>, width: usize)
    requires
        width == 2 || width == 3,
        old(points)@.len() as int % width as int == 0,
        old(points)@.len() as int / width as int <= 0x1_0000_0000,
        forall|j: int|
            0 <= j < old(indices)@.len() ==> old(indices)@[j] < old(points)@.len() as int
                / width as int,
    ensures
        old(indices)@.len() == 0 ==> final(points)@ == old(points)@ && final(indices)@ == old(
            indices,
        )@,
        old(indices)@.len() > 0 ==> ({
            let st = merge_spec(old(points)@, width as int);
            final(points)@ == st.newp && final(indices)@ == Seq::new(
                old(indices)@.len(),
                |j: int| st.remap[old(indices)@[j] as int],
            )
        }),
{
    if indices.len() == 0 {
        return ;
    }
    let ghost opoints = points@;
    let ghost w = width as int;
    let n = points.len() / width;
    let mut newp: Vec<u64> = Vec::new();
    let mut remap: Vec<u32> = Vec::new();
    let mut cmap = Key3Map::new();
    let mut next_idx: u64 = 0;
    let mut i: usize = 0;
    proof {
        assert(cmap@ =~= Map::<(u64, u64, u64), u32>::empty());
        let st0 = MergeState { newp: newp@, remap: remap@, cmap: cmap@ };
        assert(st0 == merge_init());
    }
    while i < n
        invariant
            0 <= i <= n,
            n == opoints.len() as int / w,
            opoints.len() <= usize::MAX,
            w == width as int,
            width == 2 || width == 3,
            points@ == opoints,
            opoints.len() as int % w == 0,
            n <= 0x1_0000_0000,
            merge_inv(MergeState { newp: newp@, remap: remap@, cmap: cmap@ }, w, i as int),
            next_idx == cmap@.len(),
            merge_spec(opoints, w) == merge_from(
                MergeState { newp: newp@, remap: remap@, cmap: cmap@ },
                opoints,
                w,
                i as int,
            ),
        decreases n - i,
    {
        let ghost st = MergeState { newp: newp@, remap: remap@, cmap: cmap@ };
        proof {
            lemma_merge_step_inv(st, opoints, w, i as int);
            lemma_chunk_bounds(opoints.len() as int, w, i as int);
            assert(w * i + w <= opoints.len());
        }
        let k0 = points[width * i];
        let k1 = points[width * i + 1];
        let k2 = if width == 3 {
            points[width * i + 2]
        } else {
            0
        };
        let key = (k0, k1, k2);
        proof {
            assert(key == chunk_key(opoints, w, i as int));
        }
        match cmap.get(key) {
            Some(ci) => {
                remap.push(ci);
            },
            None => {
                newp.push(k0);
                newp.push(k1);
                if width == 3 {
                    newp.push(k2);
                }
                proof {
                    assert(cmap@.len() <= i);
                }
                let next = next_idx as u32;
                remap.push(next);
                cmap.insert(key, next);
                next_idx = next_idx + 1;
                proof {
                    vstd::set::axiom_set_insert_len(st.cmap.dom(), key);
                    assert(cmap@.dom() =~= st.cmap.dom().insert(key));
                }
                proof {
                    assert(newp@ =~= st.newp + opoints.subrange(w * i, w * i + w));
                }
            },
        }
        i = i + 1;
    }
    let ghost fin = merge_spec(opoints, w);
    proof {
        let stn = MergeState { newp: newp@, remap: remap@, cmap: cmap@ };
        assert(merge_from(stn, opoints, w, n as int) == stn);
        assert(fin == stn);
    }
    let m = indices.len();
    let mut j: usize = 0;
    while j < m
        invariant
            0 <= j <= m,
            m == indices@.len(),
            indices@.len() == old(indices)@.len(),
            remap@ == fin.remap,
            fin == merge_spec(opoints, w),
            fin.remap.len() == opoints.len() as int / w,
            forall|q: int| j <= q < m ==> indices@[q] == old(indices)@[q],
            forall|q: int|
                0 <= q < m ==> old(indices)@[q] < opoints.len() as int / w,
            forall|q: int| 0 <= q < j ==> indices@[q] == fin.remap[old(indices)@[q] as int],
        decreases m - j,
    {
        let v = indices[j];
        let nv = remap[v as usize];
        indices.set(j, nv);
        j = j + 1;
    }
    *points = newp;
    proof {
        assert(indices@ =~= Seq::new(
            old(indices)@.len(),
            |q: int| fin.remap[old(indices)@[q] as int],
        ));
    }
}

} // verus!
