//! Segment visitation validator: a compiled artifact's bytecode is split into
//! possibly nested contiguous segments, and only the segments whose entry
//! boundary was actually reached during execution are charged for.  Given the
//! segment-length tree and the sparse set of visited program-counter offsets,
//! the validator returns the sorted, deduplicated list of segment boundaries
//! that were genuinely entered, or rejects a trace that jumps into the middle
//! of a segment whose start was never visited.
use vstd::prelude::*;

use crate::errors::TransactionExecutionError;

verus! {

/// How a compiled artifact's bytecode is partitioned into nested contiguous
/// regions: a leaf holds an instruction count, a node an ordered list of
/// sub-segments.
#[derive(Debug, PartialEq, Eq)]
pub enum SegmentTree {
    Leaf(usize),
    Node(Vec<SegmentTree>),
}

/// Total instruction count covered by the tree.
pub open spec fn tree_len(t: SegmentTree) -> nat
    decreases t, 0int,
{
    match t {
        SegmentTree::Leaf(l) => l as nat,
        SegmentTree::Node(cs) => tree_len_seq(cs@),
    }
}

/// Total instruction count of a list of sibling segments.
pub open spec fn tree_len_seq(s: Seq<SegmentTree>) -> nat
    decreases s, 1int,
{
    if s.len() == 0 {
        0
    } else {
        tree_len_seq(s.drop_first()) + tree_len(s.first())
    }
}

/// A tree is well formed when every leaf covers at least one instruction.
pub open spec fn tree_wf(t: SegmentTree) -> bool
    decreases t, 0int,
{
    match t {
        SegmentTree::Leaf(l) => l >= 1,
        SegmentTree::Node(cs) => tree_wf_seq(cs@),
    }
}

pub open spec fn tree_wf_seq(s: Seq<SegmentTree>) -> bool
    decreases s, 1int,
{
    if s.len() == 0 {
        true
    } else {
        tree_wf(s.first()) && tree_wf_seq(s.drop_first())
    }
}

/// `pc` is the absolute start offset of some segment (at any depth) of a tree
/// that itself starts at absolute offset `start`.
pub open spec fn is_boundary(t: SegmentTree, start: int, pc: int) -> bool
    decreases t, 0int,
{
    match t {
        SegmentTree::Leaf(_) => pc == start,
        SegmentTree::Node(cs) => is_boundary_seq(cs@, start, pc),
    }
}

pub open spec fn is_boundary_seq(s: Seq<SegmentTree>, start: int, pc: int) -> bool
    decreases s, 1int,
{
    if s.len() == 0 {
        false
    } else {
        is_boundary(s.first(), start, pc) || is_boundary_seq(
            s.drop_first(),
            start + tree_len(s.first()),
            pc,
        )
    }
}

/// First index at or after `i` whose offset does not lie below `end`; the
/// offsets of a leaf once entered are consumed up to the leaf's end this way.
pub open spec fn consume_upto(pcs: Seq<usize>, i: int, end: int) -> int
    decreases pcs.len() - i,
{
    if i < pcs.len() && (pcs[i] as int) < end {
        consume_upto(pcs, i + 1, end)
    } else {
        i
    }
}

/// Outcome of walking one subtree: either the boundaries recorded in order
/// together with the new cursor into the visited offsets, or the offending
/// offset and the boundary that should have been visited first.
pub enum WalkStep {
    Continue(Seq<usize>, int),
    Invalid(usize, int),
}

/// The walk over one subtree at absolute offset `start`, with the sorted
/// visited offsets `pcs` and cursor `i`.  A leaf is entered only when the
/// next pending offset equals its start; its interior offsets are then
/// consumed without further checks.  A pending offset strictly inside a leaf
/// that was not entered is a structural violation.
pub open spec fn walk(t: SegmentTree, pcs: Seq<usize>, start: int, i: int) -> WalkStep
    decreases t, 0int,
{
    match t {
        SegmentTree::Leaf(l) => {
            if i < pcs.len() && (pcs[i] as int) == start {
                WalkStep::Continue(seq![pcs[i]], consume_upto(pcs, i, start + l))
            } else if i < pcs.len() && (pcs[i] as int) < start + l {
                WalkStep::Invalid(pcs[i], start)
            } else {
                WalkStep::Continue(Seq::empty(), i)
            }
        },
        SegmentTree::Node(cs) => walk_seq(cs@, pcs, start, i),
    }
}

pub open spec fn walk_seq(s: Seq<SegmentTree>, pcs: Seq<usize>, start: int, i: int) -> WalkStep
    decreases s, 1int,
{
    if s.len() == 0 {
        WalkStep::Continue(Seq::empty(), i)
    } else {
        match walk(s.first(), pcs, start, i) {
            WalkStep::Continue(r1, i1) => match walk_seq(
                s.drop_first(),
                pcs,
                start + tree_len(s.first()),
                i1,
            ) {
                WalkStep::Continue(r2, i2) => WalkStep::Continue(r1 + r2, i2),
                WalkStep::Invalid(o, b) => WalkStep::Invalid(o, b),
            },
            WalkStep::Invalid(o, b) => WalkStep::Invalid(o, b),
        }
    }
}

/// The boundary most recently passed by a depth-first walk of the whole tree:
/// the start offset of its last leaf, or `acc` where the tree has no leaf.
pub open spec fn last_boundary(t: SegmentTree, start: int, acc: int) -> int
    decreases t, 0int,
{
    match t {
        SegmentTree::Leaf(_) => start,
        SegmentTree::Node(cs) => last_boundary_seq(cs@, start, acc),
    }
}

pub open spec fn last_boundary_seq(s: Seq<SegmentTree>, start: int, acc: int) -> int
    decreases s, 1int,
{
    if s.len() == 0 {
        acc
    } else {
        last_boundary_seq(
            s.drop_first(),
            start + tree_len(s.first()),
            last_boundary(s.first(), start, acc),
        )
    }
}

/// Strictly increasing: sorted with no duplicates.
pub open spec fn sorted_unique(s: Seq<usize>) -> bool {
    forall|a: int, b: int| 0 <= a < b < s.len() ==> s[a] < s[b]
}

/// Inserts `x` into a strictly increasing sequence, keeping it strictly
/// increasing; inserting a present value changes nothing.
pub open spec fn insert_sorted_spec(s: Seq<usize>, x: usize) -> Seq<usize>
    decreases s.len(),
{
    if s.len() == 0 {
        seq![x]
    } else if x < s.first() {
        seq![x] + s
    } else if x == s.first() {
        s
    } else {
        seq![s.first()] + insert_sorted_spec(s.drop_first(), x)
    }
}

/// The strictly increasing sequence holding exactly the values of `s`.
pub open spec fn sort_dedup_spec(s: Seq<usize>) -> Seq<usize>
    decreases s.len(),
{
    if s.len() == 0 {
        Seq::empty()
    } else {
        insert_sorted_spec(sort_dedup_spec(s.drop_last()), s.last())
    }
}

proof fn lemma_consume_upto_bounds(pcs: Seq<usize>, i: int, end: int)
    requires
        0 <= i <= pcs.len(),
    ensures
        i <= consume_upto(pcs, i, end) <= pcs.len(),
        forall|j: int|
            i <= j < consume_upto(pcs, i, end) ==> (pcs[j] as int) < end,
        consume_upto(pcs, i, end) < pcs.len() ==> (pcs[consume_upto(pcs, i, end)] as int) >= end,
    decreases pcs.len() - i,
{
    if i < pcs.len() && (pcs[i] as int) < end {
        lemma_consume_upto_bounds(pcs, i + 1, end);
    }
}

proof fn lemma_walk_cursor(t: SegmentTree, pcs: Seq<usize>, start: int, i: int)
    requires
        0 <= i <= pcs.len(),
    ensures
        walk(t, pcs, start, i) matches WalkStep::Continue(rec, j) ==> i <= j <= pcs.len(),
    decreases t, 0int,
{
    match t {
        SegmentTree::Leaf(l) => {
            if i < pcs.len() && (pcs[i] as int) == start {
                lemma_consume_upto_bounds(pcs, i, start + l);
            }
        },
        SegmentTree::Node(cs) => {
            lemma_walk_seq_cursor(cs@, pcs, start, i);
        },
    }
}

proof fn lemma_walk_seq_cursor(s: Seq<SegmentTree>, pcs: Seq<usize>, start: int, i: int)
    requires
        0 <= i <= pcs.len(),
    ensures
        walk_seq(s, pcs, start, i) matches WalkStep::Continue(rec, j) ==> i <= j <= pcs.len(),
    decreases s, 1int,
{
    if s.len() > 0 {
        lemma_walk_cursor(s.first(), pcs, start, i);
        match walk(s.first(), pcs, start, i) {
            WalkStep::Continue(r1, i1) => {
                lemma_walk_seq_cursor(s.drop_first(), pcs, start + tree_len(s.first()), i1);
            },
            WalkStep::Invalid(_, _) => {},
        }
    }
}

proof fn lemma_tree_len_seq_skip(s: Seq<SegmentTree>, k: int)
    requires
        0 <= k < s.len(),
    ensures
        tree_len_seq(s.skip(k)) == tree_len(s[k]) + tree_len_seq(s.skip(k + 1)),
{
    assert(s.skip(k).first() == s[k]);
    assert(s.skip(k).drop_first() =~= s.skip(k + 1));
}

impl SegmentTree {
    /// Total instruction count covered by this tree.
    pub fn total_length(&self) -> (r: usize)
        requires
            tree_len(*self) <= usize::MAX as int,
        ensures
            r as int == tree_len(*self),
        decreases *self, 0int,
    {
        match self {
            SegmentTree::Leaf(l) => *l,
            SegmentTree::Node(cs) => {
                proof {
                    assert(cs@.skip(0) =~= cs@);
                }
                Self::total_length_seq(cs, 0)
            },
        }
    }

    fn total_length_seq(cs: &Vec<SegmentTree>, k: usize) -> (r: usize)
        requires
            k <= cs.len(),
            tree_len_seq(cs@.skip(k as int)) <= usize::MAX as int,
        ensures
            r as int == tree_len_seq(cs@.skip(k as int)),
        decreases cs@, (cs.len() - k + 1) as int,
    {
        if k == cs.len() {
            assert(cs@.skip(k as int) =~= Seq::<SegmentTree>::empty());
            0
        } else {
            proof {
                lemma_tree_len_seq_skip(cs@, k as int);
            }
            let first = cs[k].total_length();
            let rest = Self::total_length_seq(cs, k + 1);
            first + rest
        }
    }

    fn visit(
        &self,
        pcs: &Vec<usize>,
        start: usize,
        i: &mut usize,
        out: &mut Vec<usize>,
    ) -> (r: Result<(), TransactionExecutionError>)
        requires
            *old(i) <= pcs@.len(),
            start + tree_len(*self) <= usize::MAX as int,
        ensures
            match walk(*self, pcs@, start as int, *old(i) as int) {
                WalkStep::Continue(rec, j) => {
                    &&& r is Ok
                    &&& final(out)@ == old(out)@ + rec
                    &&& *final(i) as int == j
                },
                WalkStep::Invalid(o, b) => {
                    &&& r matches Err(TransactionExecutionError::InvalidSegmentStructure(o2, b2))
                    &&& o2 == o
                    &&& b2 as int == b
                },
            },
        decreases *self, 0int,
    {
        match self {
            SegmentTree::Leaf(l) => {
                let end = start + *l;
                if *i < pcs.len() && pcs[*i] == start {
                    out.push(start);
                    let ghost i0 = *i as int;
                    while *i < pcs.len() && pcs[*i] < end
                        invariant
                            i0 <= *i as int <= pcs@.len(),
                            consume_upto(pcs@, i0, end as int) == consume_upto(
                                pcs@,
                                *i as int,
                                end as int,
                            ),
                        decreases pcs@.len() - *i as int,
                    {
                        *i = *i + 1;
                    }
                    assert(out@ =~= old(out)@ + seq![pcs@[i0]]);
                    Ok(())
                } else if *i < pcs.len() && pcs[*i] < end {
                    assert(out@ =~= old(out)@ + Seq::<usize>::empty());
                    Err(TransactionExecutionError::InvalidSegmentStructure(pcs[*i], start))
                } else {
                    assert(out@ =~= old(out)@ + Seq::<usize>::empty());
                    Ok(())
                }
            },
            SegmentTree::Node(cs) => {
                proof {
                    assert(cs@.skip(0) =~= cs@);
                }
                Self::visit_seq(cs, 0, pcs, start, i, out)
            },
        }
    }

    fn visit_seq(
        cs: &Vec<SegmentTree>,
        k: usize,
        pcs: &Vec<usize>,
        start: usize,
        i: &mut usize,
        out: &mut Vec<usize>,
    ) -> (r: Result<(), TransactionExecutionError>)
        requires
            k <= cs.len(),
            *old(i) <= pcs@.len(),
            start + tree_len_seq(cs@.skip(k as int)) <= usize::MAX as int,
        ensures
            match walk_seq(cs@.skip(k as int), pcs@, start as int, *old(i) as int) {
                WalkStep::Continue(rec, j) => {
                    &&& r is Ok
                    &&& final(out)@ == old(out)@ + rec
                    &&& *final(i) as int == j
                },
                WalkStep::Invalid(o, b) => {
                    &&& r matches Err(TransactionExecutionError::InvalidSegmentStructure(o2, b2))
                    &&& o2 == o
                    &&& b2 as int == b
                },
            },
        decreases cs@, (cs.len() - k + 1) as int,
    {
        if k == cs.len() {
            assert(cs@.skip(k as int) =~= Seq::<SegmentTree>::empty());
            assert(out@ =~= old(out)@ + Seq::<usize>::empty());
            Ok(())
        } else {
            proof {
                lemma_tree_len_seq_skip(cs@, k as int);
                assert(cs@.skip(k as int).first() == cs@[k as int]);
                assert(cs@.skip(k as int).drop_first() =~= cs@.skip(k as int + 1));
            }
            let child = &cs[k];
            let ghost out0 = out@;
            let ghost iin = *i as int;
            match child.visit(pcs, start, i, out) {
                Err(e) => Err(e),
                Ok(()) => {
                    proof {
                        lemma_walk_cursor(cs@[k as int], pcs@, start as int, iin);
                    }
                    let l = child.total_length();
                    Self::visit_seq(cs, k + 1, pcs, start + l, i, out)
                },
            }
        }
    }

    fn last_boundary_exec(&self, start: usize, acc: usize) -> (r: usize)
        requires
            start + tree_len(*self) <= usize::MAX as int,
        ensures
            r as int == last_boundary(*self, start as int, acc as int),
        decreases *self, 0int,
    {
        match self {
            SegmentTree::Leaf(_) => start,
            SegmentTree::Node(cs) => {
                proof {
                    assert(cs@.skip(0) =~= cs@);
                }
                Self::last_boundary_seq_exec(cs, 0, start, acc)
            },
        }
    }

    fn last_boundary_seq_exec(cs: &Vec<SegmentTree>, k: usize, start: usize, acc: usize) -> (r:
        usize)
        requires
            k <= cs.len(),
            start + tree_len_seq(cs@.skip(k as int)) <= usize::MAX as int,
        ensures
            r as int == last_boundary_seq(cs@.skip(k as int), start as int, acc as int),
        decreases cs@, (cs.len() - k + 1) as int,
    {
        if k == cs.len() {
            assert(cs@.skip(k as int) =~= Seq::<SegmentTree>::empty());
            acc
        } else {
            proof {
                lemma_tree_len_seq_skip(cs@, k as int);
                assert(cs@.skip(k as int).first() == cs@[k as int]);
                assert(cs@.skip(k as int).drop_first() =~= cs@.skip(k as int + 1));
            }
            let child = &cs[k];
            let acc2 = child.last_boundary_exec(start, acc);
            let l = child.total_length();
            Self::last_boundary_seq_exec(cs, k + 1, start + l, acc2)
        }
    }

    /// Returns the sorted, deduplicated list of segment boundary offsets — at
    /// any nesting depth — that were actually visited, walking the tree from
    /// absolute offset 0.  Fails with `InvalidSegmentStructure` when a
    /// visited offset lies strictly inside a segment whose own start offset
    /// was never visited, or lies beyond the whole bytecode.
    pub fn get_visited_segments(&self, visited_pcs: &Vec<usize>) -> (r: Result<
        Vec<usize>,
        TransactionExecutionError,
    >)
        requires
            tree_len(*self) <= usize::MAX as int,
        ensures
            visited_segments_result_matches(*self, visited_pcs@, r),
    {
        let pcs = sort_dedup(visited_pcs);
        let mut out: Vec<usize> = Vec::new();
        let mut i: usize = 0;
        let visited = self.visit(&pcs, 0, &mut i, &mut out);
        match visited {
            Err(e) => Err(e),
            Ok(()) => {
                if i < pcs.len() {
                    let lb = self.last_boundary_exec(0, 0);
                    Err(TransactionExecutionError::InvalidSegmentStructure(pcs[i], lb))
                } else {
                    assert(out@ =~= Seq::<usize>::empty() + out@);
                    Ok(out)
                }
            },
        }
    }
}

/// What validation returns for a tree and a raw visited-offset list: the
/// spec walk over the sorted, deduplicated offsets decides everything.  On
/// a clean walk with no offsets left over, the result is the recorded
/// boundaries; a leftover offset beyond the bytecode fails against the last
/// known boundary; a walk violation fails with the offending offset and the
/// boundary that should have been visited first.
pub open spec fn visited_segments_result_matches(
    t: SegmentTree,
    visited: Seq<usize>,
    r: Result<Vec<usize>, TransactionExecutionError>,
) -> bool {
    let pcs = sort_dedup_spec(visited);
    match walk(t, pcs, 0, 0) {
        WalkStep::Continue(rec, j) => {
            if j < pcs.len() {
                &&& r matches Err(TransactionExecutionError::InvalidSegmentStructure(o2, b2))
                &&& o2 == pcs[j]
                &&& b2 as int == last_boundary(t, 0, 0)
            } else {
                &&& r matches Ok(v)
                &&& v@ == rec
            }
        },
        WalkStep::Invalid(o, b) => {
            &&& r matches Err(TransactionExecutionError::InvalidSegmentStructure(o2, b2))
            &&& o2 == o
            &&& b2 as int == b
        },
    }
}

proof fn lemma_sorted_unique_drop_first(s: Seq<usize>)
    requires
        s.len() > 0,
        sorted_unique(s),
    ensures
        sorted_unique(s.drop_first()),
{
    assert forall|a: int, b: int| 0 <= a < b < s.drop_first().len() implies s.drop_first()[a]
        < s.drop_first()[b] by {
        assert(s.drop_first()[a] == s[a + 1]);
        assert(s.drop_first()[b] == s[b + 1]);
    }
}

/// Inserting keeps the sequence strictly increasing, and its values are
/// exactly the old values together with the inserted one.
pub proof fn lemma_insert_sorted_props(s: Seq<usize>, x: usize)
    requires
        sorted_unique(s),
    ensures
        sorted_unique(insert_sorted_spec(s, x)),
        forall|y: usize| #[trigger]
            insert_sorted_spec(s, x).contains(y) <==> (s.contains(y) || y == x),
    decreases s.len(),
{
    let res = insert_sorted_spec(s, x);
    if s.len() == 0 {
        assert(res.contains(x)) by {
            assert(res[0] == x);
        }
        assert forall|y: usize| #[trigger] res.contains(y) implies (s.contains(y) || y == x) by {
            let idx = choose|idx: int| 0 <= idx < res.len() && res[idx] == y;
            assert(idx == 0);
        }
    } else if x < s.first() {
        assert forall|y: usize| #[trigger] res.contains(y) implies (s.contains(y) || y == x) by {
            let idx = choose|idx: int| 0 <= idx < res.len() && res[idx] == y;
            if idx > 0 {
                assert(s[idx - 1] == y);
            }
        }
        assert forall|y: usize| s.contains(y) || y == x implies #[trigger] res.contains(y) by {
            if s.contains(y) {
                let idx = choose|idx: int| 0 <= idx < s.len() && s[idx] == y;
                assert(res[idx + 1] == y);
            } else {
                assert(res[0] == y);
            }
        }
        assert forall|a: int, b: int| 0 <= a < b < res.len() implies res[a] < res[b] by {
            if a > 0 {
                assert(res[a] == s[a - 1]);
            }
            assert(res[b] == s[b - 1]);
        }
    } else if x == s.first() {
        assert(s.contains(x)) by {
            assert(s[0] == x);
        }
    } else {
        lemma_sorted_unique_drop_first(s);
        lemma_insert_sorted_props(s.drop_first(), x);
        let sub = insert_sorted_spec(s.drop_first(), x);
        assert(res == seq![s.first()] + sub);
        assert forall|y: usize| #[trigger] res.contains(y) implies (s.contains(y) || y == x) by {
            let idx = choose|idx: int| 0 <= idx < res.len() && res[idx] == y;
            if idx == 0 {
                assert(s[0] == y);
            } else {
                assert(sub[idx - 1] == y);
                assert(sub.contains(y));
                if s.drop_first().contains(y) {
                    let j = choose|j: int| 0 <= j < s.drop_first().len() && s.drop_first()[j] == y;
                    assert(s[j + 1] == y);
                }
            }
        }
        assert forall|y: usize| s.contains(y) || y == x implies #[trigger] res.contains(y) by {
            if s.contains(y) {
                let idx = choose|idx: int| 0 <= idx < s.len() && s[idx] == y;
                if idx == 0 {
                    assert(res[0] == y);
                } else {
                    assert(s.drop_first()[idx - 1] == y);
                    assert(s.drop_first().contains(y));
                    assert(sub.contains(y));
                    let j = choose|j: int| 0 <= j < sub.len() && sub[j] == y;
                    assert(res[j + 1] == y);
                }
            } else {
                assert(sub.contains(x));
                let j = choose|j: int| 0 <= j < sub.len() && sub[j] == x;
                assert(res[j + 1] == x);
            }
        }
        assert forall|a: int, b: int| 0 <= a < b < res.len() implies res[a] < res[b] by {
            if a == 0 {
                assert(sub[b - 1] == res[b]);
                assert(sub.contains(sub[b - 1]));
                if s.drop_first().contains(sub[b - 1]) {
                    let j = choose|j: int|
                        0 <= j < s.drop_first().len() && s.drop_first()[j] == sub[b - 1];
                    assert(s[j + 1] == sub[b - 1]);
                    assert(s[0] < s[j + 1]);
                }
            } else {
                assert(res[a] == sub[a - 1]);
                assert(res[b] == sub[b - 1]);
            }
        }
    }
}

/// The sorted deduplication is strictly increasing and holds exactly the
/// values of its input.
pub proof fn lemma_sort_dedup_props(s: Seq<usize>)
    ensures
        sorted_unique(sort_dedup_spec(s)),
        forall|y: usize| #[trigger] sort_dedup_spec(s).contains(y) <==> s.contains(y),
    decreases s.len(),
{
    if s.len() > 0 {
        lemma_sort_dedup_props(s.drop_last());
        lemma_insert_sorted_props(sort_dedup_spec(s.drop_last()), s.last());
        assert forall|y: usize| #[trigger] sort_dedup_spec(s).contains(y) implies s.contains(y) by {
            if sort_dedup_spec(s.drop_last()).contains(y) {
                let j = choose|j: int|
                    0 <= j < s.drop_last().len() && s.drop_last()[j] == y;
                assert(s[j] == y);
            } else {
                assert(s[s.len() - 1] == y);
            }
        }
        assert forall|y: usize| s.contains(y) implies #[trigger] sort_dedup_spec(s).contains(y) by {
            let j = choose|j: int| 0 <= j < s.len() && s[j] == y;
            if j < s.len() - 1 {
                assert(s.drop_last()[j] == y);
                assert(s.drop_last().contains(y));
            }
        }
    }
}

proof fn lemma_insert_sorted_char(s: Seq<usize>, x: usize, j: int)
    requires
        sorted_unique(s),
        0 <= j <= s.len(),
        forall|idx: int| 0 <= idx < j ==> s[idx] < x,
        j < s.len() ==> s[j] >= x,
    ensures
        insert_sorted_spec(s, x) == if j < s.len() && s[j] == x {
            s
        } else {
            s.insert(j, x)
        },
    decreases s.len(),
{
    if s.len() == 0 {
        assert(insert_sorted_spec(s, x) =~= s.insert(0, x));
    } else if j == 0 {
        if s[0] == x {
        } else {
            assert(x < s.first());
            assert(seq![x] + s =~= s.insert(0, x));
        }
    } else {
        assert(s[0] < x);
        lemma_sorted_unique_drop_first(s);
        assert forall|idx: int| 0 <= idx < j - 1 implies s.drop_first()[idx] < x by {
            assert(s.drop_first()[idx] == s[idx + 1]);
        }
        lemma_insert_sorted_char(s.drop_first(), x, j - 1);
        if j < s.len() && s[j] == x {
            assert(s.drop_first()[j - 1] == x);
            assert(seq![s.first()] + s.drop_first() =~= s);
        } else {
            assert(seq![s.first()] + s.drop_first().insert(j - 1, x) =~= s.insert(j, x));
        }
    }
}

fn insert_sorted(v: Vec<usize>, x: usize) -> (out: Vec<usize>)
    requires
        sorted_unique(v@),
    ensures
        out@ == insert_sorted_spec(v@, x),
{
    let mut j: usize = 0;
    while j < v.len() && v[j] < x
        invariant
            j <= v@.len(),
            forall|idx: int| 0 <= idx < j ==> v@[idx] < x,
        decreases v@.len() - j,
    {
        j += 1;
    }
    proof {
        lemma_insert_sorted_char(v@, x, j as int);
    }
    if j < v.len() && v[j] == x {
        v
    } else {
        let mut v = v;
        v.insert(j, x);
        v
    }
}

proof fn lemma_boundary_in_range(t: SegmentTree, start: int, pc: int)
    requires
        tree_wf(t),
        is_boundary(t, start, pc),
    ensures
        start <= pc < start + tree_len(t),
    decreases t, 0int,
{
    match t {
        SegmentTree::Leaf(_) => {},
        SegmentTree::Node(cs) => {
            lemma_boundary_seq_in_range(cs@, start, pc);
        },
    }
}

proof fn lemma_boundary_seq_in_range(s: Seq<SegmentTree>, start: int, pc: int)
    requires
        tree_wf_seq(s),
        is_boundary_seq(s, start, pc),
    ensures
        start <= pc < start + tree_len_seq(s),
    decreases s, 1int,
{
    if s.len() > 0 {
        if is_boundary(s.first(), start, pc) {
            lemma_boundary_in_range(s.first(), start, pc);
        } else {
            lemma_boundary_seq_in_range(s.drop_first(), start + tree_len(s.first()), pc);
        }
    }
}

proof fn lemma_consume_upto_compose(pcs: Seq<usize>, i: int, e1: int, e2: int)
    requires
        0 <= i <= pcs.len(),
        e1 <= e2,
    ensures
        consume_upto(pcs, i, e2) == consume_upto(pcs, consume_upto(pcs, i, e1), e2),
    decreases pcs.len() - i,
{
    if i < pcs.len() && (pcs[i] as int) < e1 {
        lemma_consume_upto_compose(pcs, i + 1, e1, e2);
    }
}

proof fn lemma_walk_boundaries(t: SegmentTree, pcs: Seq<usize>, start: int, i: int)
    requires
        tree_wf(t),
        sorted_unique(pcs),
        0 <= i <= pcs.len(),
        forall|j: int| i <= j < pcs.len() ==> start <= pcs[j] as int,
        forall|j: int|
            i <= j < pcs.len() && (pcs[j] as int) < start + tree_len(t) ==> is_boundary(
                t,
                start,
                pcs[j] as int,
            ),
    ensures
        walk(t, pcs, start, i) == WalkStep::Continue(
            pcs.subrange(i, consume_upto(pcs, i, start + tree_len(t))),
            consume_upto(pcs, i, start + tree_len(t)),
        ),
    decreases t, 0int,
{
    let end = start + tree_len(t);
    let cu = consume_upto(pcs, i, end);
    lemma_consume_upto_bounds(pcs, i, end);
    match t {
        SegmentTree::Leaf(l) => {
            if i < pcs.len() && (pcs[i] as int) < end {
                assert(is_boundary(t, start, pcs[i] as int));
                assert(pcs[i] as int == start);
                if cu > i + 1 {
                    assert((pcs[i + 1] as int) < end);
                    assert(is_boundary(t, start, pcs[i + 1] as int));
                    assert(pcs[i] < pcs[i + 1]);
                    assert(false);
                }
                assert(cu == i + 1);
                assert(pcs.subrange(i, i + 1) =~= seq![pcs[i]]);
            } else {
                assert(cu == i);
                assert(pcs.subrange(i, i) =~= Seq::<usize>::empty());
            }
        },
        SegmentTree::Node(cs) => {
            lemma_walk_seq_boundaries(cs@, pcs, start, i);
        },
    }
}

proof fn lemma_walk_seq_boundaries(s: Seq<SegmentTree>, pcs: Seq<usize>, start: int, i: int)
    requires
        tree_wf_seq(s),
        sorted_unique(pcs),
        0 <= i <= pcs.len(),
        forall|j: int| i <= j < pcs.len() ==> start <= pcs[j] as int,
        forall|j: int|
            i <= j < pcs.len() && (pcs[j] as int) < start + tree_len_seq(s) ==> is_boundary_seq(
                s,
                start,
                pcs[j] as int,
            ),
    ensures
        walk_seq(s, pcs, start, i) == WalkStep::Continue(
            pcs.subrange(i, consume_upto(pcs, i, start + tree_len_seq(s))),
            consume_upto(pcs, i, start + tree_len_seq(s)),
        ),
    decreases s, 1int,
{
    let end = start + tree_len_seq(s);
    let cu = consume_upto(pcs, i, end);
    lemma_consume_upto_bounds(pcs, i, end);
    if s.len() == 0 {
        assert(cu == i);
        assert(pcs.subrange(i, i) =~= Seq::<usize>::empty());
    } else {
        let first = s.first();
        let rest = s.drop_first();
        let mid = start + tree_len(first);
        assert forall|j: int|
            i <= j < pcs.len() && (pcs[j] as int) < mid implies is_boundary(
            first,
            start,
            pcs[j] as int,
        ) by {
            assert((pcs[j] as int) < end);
            assert(is_boundary_seq(s, start, pcs[j] as int));
            if !is_boundary(first, start, pcs[j] as int) {
                assert(is_boundary_seq(rest, mid, pcs[j] as int));
                lemma_boundary_seq_in_range(rest, mid, pcs[j] as int);
                assert(false);
            }
        }
        lemma_walk_boundaries(first, pcs, start, i);
        let cu1 = consume_upto(pcs, i, mid);
        lemma_consume_upto_bounds(pcs, i, mid);
        assert forall|j: int| cu1 <= j < pcs.len() implies mid <= pcs[j] as int by {
            assert((pcs[cu1] as int) >= mid);
            if j > cu1 {
                assert(pcs[cu1] < pcs[j]);
            }
        }
        assert forall|j: int|
            cu1 <= j < pcs.len() && (pcs[j] as int) < mid + tree_len_seq(rest)
                implies is_boundary_seq(rest, mid, pcs[j] as int) by {
            assert(is_boundary_seq(s, start, pcs[j] as int));
            if is_boundary(first, start, pcs[j] as int) {
                lemma_boundary_in_range(first, start, pcs[j] as int);
                assert(false);
            }
        }
        lemma_walk_seq_boundaries(rest, pcs, mid, cu1);
        let cu2 = consume_upto(pcs, cu1, mid + tree_len_seq(rest));
        lemma_consume_upto_compose(pcs, i, mid, end);
        assert(cu2 == cu);
        assert(pcs.subrange(i, cu1) + pcs.subrange(cu1, cu2) =~= pcs.subrange(i, cu2));
    }
}

/// For every well-formed segment tree and every visited-offset collection
/// made up solely of real boundary offsets — at any nesting depth — the walk
/// never fails, and reports exactly the sorted, deduplicated visited
/// offsets.  Together with the contract of
/// [`SegmentTree::get_visited_segments`] this pins the validator's behaviour
/// on boundary-only inputs.
pub proof fn lemma_boundary_visits_never_fail(t: SegmentTree, input: Seq<usize>)
    requires
        tree_wf(t),
        forall|j: int| 0 <= j < input.len() ==> is_boundary(t, 0, input[j] as int),
    ensures
        walk(t, sort_dedup_spec(input), 0, 0) == WalkStep::Continue(
            sort_dedup_spec(input),
            sort_dedup_spec(input).len() as int,
        ),
{
    let pcs = sort_dedup_spec(input);
    lemma_sort_dedup_props(input);
    assert forall|j: int| 0 <= j < pcs.len() implies is_boundary(t, 0, pcs[j] as int) by {
        assert(pcs.contains(pcs[j]));
        assert(input.contains(pcs[j]));
        let k = choose|k: int| 0 <= k < input.len() && input[k] == pcs[j];
        assert(is_boundary(t, 0, input[k] as int));
    }
    lemma_walk_boundaries(t, pcs, 0, 0);
    let cu = consume_upto(pcs, 0, tree_len(t) as int);
    lemma_consume_upto_bounds(pcs, 0, tree_len(t) as int);
    if cu < pcs.len() {
        assert(is_boundary(t, 0, pcs[cu] as int));
        lemma_boundary_in_range(t, 0, pcs[cu] as int);
        assert(false);
    }
    assert(pcs.subrange(0, pcs.len() as int) =~= pcs);
}

fn sort_dedup(input: &Vec<usize>) -> (out: Vec<usize>)
    ensures
        out@ == sort_dedup_spec(input@),
{
    let mut out: Vec<usize> = Vec::new();
    let mut k: usize = 0;
    while k < input.len()
        invariant
            k <= input@.len(),
            out@ == sort_dedup_spec(input@.take(k as int)),
        decreases input@.len() - k,
    {
        proof {
            lemma_sort_dedup_props(input@.take(k as int));
            assert(input@.take(k as int + 1).drop_last() =~= input@.take(k as int));
            assert(input@.take(k as int + 1).last() == input@[k as int]);
        }
        out = insert_sorted(out, input[k]);
        k += 1;
    }
    proof {
        assert(input@.take(input@.len() as int) =~= input@);
    }
    out
}

} // verus!
