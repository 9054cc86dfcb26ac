//! Boards of the costliest triangles and rejected quads of a frame: at most
//! eight each, kept in descending rank. Each entry holds the integers it is
//! ranked by and a handle by which the caller finds the offender's logged
//! details again.
use vstd::prelude::*;
use std::cmp::Ordering;
use crate::raster::TriangleScanWorkEstimate;
use crate::renderer_stats::TriangleSource;

verus! {

broadcast use vstd::seq_lib::group_to_multiset_ensures;

/// How many offenders a board keeps.
pub const RANKED_OFFENDER_LIMIT: usize = 8;

/// What an offender is ranked by: a primary and a secondary cost (larger
/// first), then the earlier primitive and the earlier index offset.
#[derive(Clone, Copy, Debug, PartialEq, Eq, Structural)]
pub struct OffenderRank {
    pub primary: usize,
    pub secondary: usize,
    pub primitive_index: usize,
    pub mesh_index_offset: usize,
}

/// An offender on a board: its rank and the caller's handle for it.
#[derive(Clone, Copy, Debug, PartialEq, Eq, Structural)]
pub struct RankedOffender {
    pub rank: OffenderRank,
    pub id: usize,
}

/// A solid triangle ranks by its clipped bounding-box area.
pub fn solid_triangle_offender_rank(clipped_bbox_px: usize, source: TriangleSource) -> (r:
    OffenderRank)
    ensures
        r == (OffenderRank {
            primary: clipped_bbox_px,
            secondary: 0,
            primitive_index: source.primitive_index,
            mesh_index_offset: source.mesh_index_offset,
        }),
{
    OffenderRank {
        primary: clipped_bbox_px,
        secondary: 0,
        primitive_index: source.primitive_index,
        mesh_index_offset: source.mesh_index_offset,
    }
}

/// A textured triangle ranks by its estimated candidate pixels, then its
/// clipped bounding-box area.
pub fn textured_triangle_offender_rank(
    scan_work: TriangleScanWorkEstimate,
    clipped_bbox_px: usize,
    source: TriangleSource,
) -> (r: OffenderRank)
    ensures
        r == (OffenderRank {
            primary: scan_work.candidate_px,
            secondary: clipped_bbox_px,
            primitive_index: source.primitive_index,
            mesh_index_offset: source.mesh_index_offset,
        }),
{
    OffenderRank {
        primary: scan_work.candidate_px,
        secondary: clipped_bbox_px,
        primitive_index: source.primitive_index,
        mesh_index_offset: source.mesh_index_offset,
    }
}

/// A rejected textured quad ranks by the candidate pixels of its two
/// triangles, then their clipped bounding-box area.
pub fn textured_quad_reject_offender_rank(
    candidate_px: usize,
    clipped_bbox_px: usize,
    source: TriangleSource,
) -> (r: OffenderRank)
    ensures
        r == (OffenderRank {
            primary: candidate_px,
            secondary: clipped_bbox_px,
            primitive_index: source.primitive_index,
            mesh_index_offset: source.mesh_index_offset,
        }),
{
    OffenderRank {
        primary: candidate_px,
        secondary: clipped_bbox_px,
        primitive_index: source.primitive_index,
        mesh_index_offset: source.mesh_index_offset,
    }
}

/// `a` ranks strictly above `b`.
pub open spec fn ranks_above(a: RankedOffender, b: RankedOffender) -> bool {
    let (x, y) = (a.rank, b.rank);
    ||| x.primary > y.primary
    ||| x.primary == y.primary && x.secondary > y.secondary
    ||| x.primary == y.primary && x.secondary == y.secondary && x.primitive_index
        < y.primitive_index
    ||| x.primary == y.primary && x.secondary == y.secondary && x.primitive_index
        == y.primitive_index && x.mesh_index_offset < y.mesh_index_offset
}

/// `a` and `b` have the same rank.
pub open spec fn same_rank(a: RankedOffender, b: RankedOffender) -> bool {
    a.rank == b.rank
}

/// Highest rank first.
pub open spec fn sorted_by_rank(s: Seq<RankedOffender>) -> bool {
    forall|i: int, j: int| 0 <= i < j < s.len() ==> !ranks_above(#[trigger] s[j], #[trigger] s[i])
}

/// `s` with `x` put in after every entry that `x` does not rank strictly
/// above: entries of equal rank stay ahead of it, and the entries keep their
/// order.
pub open spec fn insert_by_rank(s: Seq<RankedOffender>, x: RankedOffender) -> Seq<
    RankedOffender,
>
    decreases s.len(),
{
    if s.len() == 0 {
        seq![x]
    } else if ranks_above(x, s.last()) {
        insert_by_rank(s.drop_last(), x).push(s.last())
    } else {
        s.push(x)
    }
}

/// `s` sorted by rank, highest first, stably: entries of equal rank keep
/// their order.
pub open spec fn stable_sort_by_rank(s: Seq<RankedOffender>) -> Seq<RankedOffender>
    decreases s.len(),
{
    if s.len() == 0 {
        s
    } else {
        insert_by_rank(stable_sort_by_rank(s.drop_last()), s.last())
    }
}

/// Where `insert_by_rank` puts the new entry: at the first position `j` from
/// which on it ranks strictly above every entry, after every entry it does
/// not rank above.
pub proof fn lemma_insert_by_rank_places_after_ties(
    s: Seq<RankedOffender>,
    x: RankedOffender,
    j: int,
)
    requires
        0 <= j <= s.len(),
        forall|k: int| j <= k < s.len() ==> ranks_above(x, #[trigger] s[k]),
        j > 0 ==> !ranks_above(x, s[j - 1]),
    ensures
        insert_by_rank(s, x) == s.take(j) + seq![x] + s.skip(j),
    decreases s.len(),
{
    if s.len() == 0 {
        assert(s.take(j) + seq![x] + s.skip(j) =~= seq![x]);
    } else if j == s.len() {
        assert(!ranks_above(x, s.last()));
        assert(s.take(j) + seq![x] + s.skip(j) =~= s.push(x));
    } else {
        assert(ranks_above(x, s[s.len() - 1]));
        let d = s.drop_last();
        assert forall|k: int| j <= k < d.len() implies ranks_above(x, #[trigger] d[k]) by {
            assert(d[k] == s[k]);
        }
        if j > 0 {
            assert(d[j - 1] == s[j - 1]);
        }
        lemma_insert_by_rank_places_after_ties(d, x, j);
        assert(d.take(j) + seq![x] + d.skip(j) + seq![s.last()] =~= s.take(j) + seq![x] + s.skip(
            j,
        ));
    }
}

/// A board already in rank order is left as it is by the stable sort.
pub proof fn lemma_stable_sort_keeps_sorted(s: Seq<RankedOffender>)
    requires
        sorted_by_rank(s),
    ensures
        stable_sort_by_rank(s) == s,
    decreases s.len(),
{
    if s.len() > 0 {
        let d = s.drop_last();
        assert(sorted_by_rank(d)) by {
            assert forall|i: int, j: int| 0 <= i < j < d.len() implies !ranks_above(
                #[trigger] d[j],
                #[trigger] d[i],
            ) by {
                assert(d[i] == s[i] && d[j] == s[j]);
            }
        }
        lemma_stable_sort_keeps_sorted(d);
        if d.len() > 0 {
            assert(!ranks_above(s[s.len() - 1], s[s.len() - 2]));
            assert(d.last() == s[s.len() - 2]);
        }
        assert(d.push(s.last()) =~= s);
    }
}

/// Ranking is a total preorder: exactly one of above, below or tied holds,
/// and both "above" and "not above" chain.
pub proof fn lemma_offender_rank_is_total_preorder(
    a: RankedOffender,
    b: RankedOffender,
    c: RankedOffender,
)
    ensures
        ranks_above(a, b) ==> !ranks_above(b, a) && !same_rank(a, b),
        ranks_above(a, b) || ranks_above(b, a) || same_rank(a, b),
        ranks_above(a, b) && ranks_above(b, c) ==> ranks_above(a, c),
        !ranks_above(a, b) && !ranks_above(b, c) ==> !ranks_above(a, c),
{
}

/// How board entries rank: a larger primary cost ranks above whatever else
/// differs; on equal primary cost, a larger secondary cost; then the earlier
/// primitive, whatever the index offset; the index offset decides only within
/// one primitive. Entries equal in all four rank neither above nor below each
/// other.
pub proof fn lemma_offender_rank_order(a: RankedOffender, b: RankedOffender)
    ensures
        a.rank.primary > b.rank.primary ==> ranks_above(a, b) && !ranks_above(b, a),
        a.rank.primary == b.rank.primary && a.rank.secondary > b.rank.secondary ==> ranks_above(
            a,
            b,
        ) && !ranks_above(b, a),
        a.rank.primary == b.rank.primary && a.rank.secondary == b.rank.secondary
            && a.rank.primitive_index < b.rank.primitive_index ==> ranks_above(a, b)
            && !ranks_above(b, a),
        a.rank.primary == b.rank.primary && a.rank.secondary == b.rank.secondary
            && a.rank.primitive_index == b.rank.primitive_index && a.rank.mesh_index_offset
            < b.rank.mesh_index_offset ==> ranks_above(a, b) && !ranks_above(b, a),
        a.rank.primary == b.rank.primary && a.rank.secondary == b.rank.secondary
            && a.rank.primitive_index == b.rank.primitive_index && a.rank.mesh_index_offset
            == b.rank.mesh_index_offset ==> !ranks_above(a, b) && !ranks_above(b, a),
{
}

/// Compares two offenders by rank.
pub fn compare_ranked_offenders(left: &RankedOffender, right: &RankedOffender) -> (r: Ordering)
    ensures
        (r == Ordering::Greater) == ranks_above(*left, *right),
        (r == Ordering::Less) == ranks_above(*right, *left),
        (r == Ordering::Equal) == same_rank(*left, *right),
{
    let (x, y) = (left.rank, right.rank);
    if x.primary != y.primary {
        return if x.primary > y.primary {
            Ordering::Greater
        } else {
            Ordering::Less
        };
    }
    if x.secondary != y.secondary {
        return if x.secondary > y.secondary {
            Ordering::Greater
        } else {
            Ordering::Less
        };
    }
    if x.primitive_index != y.primitive_index {
        return if y.primitive_index > x.primitive_index {
            Ordering::Greater
        } else {
            Ordering::Less
        };
    }
    if x.mesh_index_offset != y.mesh_index_offset {
        return if y.mesh_index_offset > x.mesh_index_offset {
            Ordering::Greater
        } else {
            Ordering::Less
        };
    }
    Ordering::Equal
}

fn ranked_strictly_above(a: &RankedOffender, b: &RankedOffender) -> (r: bool)
    ensures
        r == ranks_above(*a, *b),
{
    match compare_ranked_offenders(a, b) {
        Ordering::Greater => true,
        _ => false,
    }
}

/// The costliest offenders seen, highest rank first, at most eight.
#[derive(Clone, Debug)]
pub struct RankedOffenders {
    entries: Vec<RankedOffender>,
}

/// The board of the costliest solid triangles.
pub type SolidTriangleOffenders = RankedOffenders;

/// The board of the costliest textured triangles.
pub type TexturedTriangleOffenders = RankedOffenders;

/// The board of the costliest textured quads that missed the fast path.
pub type TexturedQuadRejectOffenders = RankedOffenders;

impl RankedOffenders {
    pub closed spec fn board(self) -> Seq<RankedOffender> {
        self.entries@
    }

    pub open spec fn well_formed(self) -> bool {
        &&& self.board().len() <= RANKED_OFFENDER_LIMIT
        &&& sorted_by_rank(self.board())
    }

    pub fn new() -> (b: Self)
        ensures
            b.well_formed(),
            b.board() == Seq::<RankedOffender>::empty(),
    {
        RankedOffenders { entries: Vec::new() }
    }

    pub fn len(&self) -> (n: usize)
        ensures
            n == self.board().len(),
    {
        self.entries.len()
    }

    pub fn is_empty(&self) -> (r: bool)
        ensures
            r == (self.board().len() == 0),
    {
        self.entries.len() == 0
    }

    /// The offenders on the board, highest rank first.
    pub fn entries(&self) -> (e: &Vec<RankedOffender>)
        ensures
            e@ == self.board(),
    {
        &self.entries
    }

    /// Sorts the board by rank, highest first, keeping its contents.
    pub fn sort_used_entries(&mut self)
        ensures
            final(self).board() == stable_sort_by_rank(old(self).board()),
            sorted_by_rank(final(self).board()),
            final(self).board().to_multiset() == old(self).board().to_multiset(),
            final(self).board().len() == old(self).board().len(),
    {
        let ghost ms0 = self.entries@.to_multiset();
        let ghost s0 = self.entries@;
        let n = self.entries.len();
        let mut i: usize = 0;
        while i < n
            invariant
                n == self.entries@.len(),
                i <= n,
                sorted_by_rank(self.entries@.take(i as int)),
                self.entries@.to_multiset() == ms0,
                s0.len() == n,
                self.entries@.take(i as int) == stable_sort_by_rank(s0.take(i as int)),
                self.entries@.skip(i as int) == s0.skip(i as int),
            decreases n - i,
        {
            let ghost s = self.entries@;
            let x = self.entries[i];
            let mut j: usize = i;
            let mut moving = true;
            while moving && j > 0
                invariant
                    s == self.entries@,
                    n == s.len(),
                    i < n,
                    x == s[i as int],
                    j <= i,
                    sorted_by_rank(s.take(i as int)),
                    forall|k: int| j <= k < i ==> ranks_above(x, #[trigger] s[k]),
                    !moving ==> j > 0 && !ranks_above(x, s[j - 1]),
                decreases j as int + if moving {
                    1int
                } else {
                    0int
                },
            {
                if ranked_strictly_above(&x, &self.entries[j - 1]) {
                    j = j - 1;
                } else {
                    moving = false;
                }
            }
            let ghost t = s.take(j as int) + seq![x] + s.subrange(j as int, i as int);
            proof {
                assert forall|a: int, b: int| 0 <= a < b < t.len() implies !ranks_above(
                    #[trigger] t[b],
                    #[trigger] t[a],
                ) by {
                    if b < j {
                        assert(t[a] == s.take(i as int)[a] && t[b] == s.take(i as int)[b]);
                    } else if b == j {
                        assert(t[b] == x);
                        assert(t[a] == s[a]);
                        assert(!ranks_above(x, s[j - 1]));
                        if a < j - 1 {
                            assert(s.take(i as int)[a] == s[a] && s.take(i as int)[j - 1] == s[j
                                - 1]);
                            assert(!ranks_above(s[j - 1], s[a]));
                            lemma_offender_rank_is_total_preorder(x, s[j - 1], s[a]);
                        }
                    } else if a == j {
                        assert(t[a] == x);
                        assert(t[b] == s[b - 1]);
                        assert(ranks_above(x, s[b - 1]));
                        lemma_offender_rank_is_total_preorder(x, s[b - 1], x);
                    } else if a < j {
                        assert(t[a] == s[a] && t[b] == s[b - 1]);
                        assert(s.take(i as int)[a] == s[a] && s.take(i as int)[b - 1] == s[b
                            - 1]);
                    } else {
                        assert(t[a] == s[a - 1] && t[b] == s[b - 1]);
                        assert(s.take(i as int)[a - 1] == s[a - 1] && s.take(i as int)[b - 1]
                            == s[b - 1]);
                    }
                }
            }
            proof {
                let p = s.take(i as int);
                assert forall|k: int| j <= k < p.len() implies ranks_above(x, #[trigger] p[k]) by {
                    assert(p[k] == s[k]);
                }
                if j > 0 {
                    assert(p[j - 1] == s[j - 1]);
                }
                lemma_insert_by_rank_places_after_ties(p, x, j as int);
                assert(p.take(j as int) =~= s.take(j as int));
                assert(p.skip(j as int) =~= s.subrange(j as int, i as int));
                assert(s0.take(i + 1).drop_last() =~= s0.take(i as int));
                assert(s[i as int] == s.skip(i as int)[0]);
                assert(s0.take(i + 1).last() == s0[i as int]);
                assert(s0[i as int] == s0.skip(i as int)[0]);
            }
            if j < i {
                let removed = self.entries.remove(i);
                self.entries.insert(j, removed);
                proof {
                    assert(self.entries@.take(i + 1) =~= t);
                    assert(self.entries@.skip(i + 1) =~= s.skip(i + 1));
                    assert(s.remove(i as int).to_multiset() == s.to_multiset().remove(x));
                }
            } else {
                proof {
                    assert(self.entries@.take(i + 1) =~= t);
                    assert(self.entries@.skip(i + 1) =~= s.skip(i + 1));
                }
            }
            proof {
                assert(s.skip(i + 1) =~= s.skip(i as int).skip(1));
                assert(s0.skip(i + 1) =~= s0.skip(i as int).skip(1));
            }
            i = i + 1;
        }
        proof {
            assert(self.entries@.take(n as int) =~= self.entries@);
            assert(s0.take(n as int) =~= s0);
        }
    }

    /// Puts `offender` on the board: appended while there is room, otherwise
    /// in place of the lowest entry when it ranks strictly above it; then
    /// sorts the board.
    pub fn record(&mut self, offender: RankedOffender)
        requires
            old(self).well_formed(),
        ensures
            final(self).well_formed(),
            old(self).board().len() < RANKED_OFFENDER_LIMIT ==> final(self).board().len()
                == old(self).board().len() + 1 && final(self).board().to_multiset() == old(self).board().to_multiset().insert(offender),
            old(self).board().len() == RANKED_OFFENDER_LIMIT && ranks_above(
                offender,
                old(self).board().last(),
            ) ==> final(self).board().len() == RANKED_OFFENDER_LIMIT && final(self).board().to_multiset() == old(self).board().to_multiset().remove(
                old(self).board().last(),
            ).insert(offender),
            old(self).board().len() == RANKED_OFFENDER_LIMIT && !ranks_above(
                offender,
                old(self).board().last(),
            ) ==> final(self).board() == old(self).board(),
            old(self).board().len() < RANKED_OFFENDER_LIMIT ==> final(self).board()
                == insert_by_rank(old(self).board(), offender),
            old(self).board().len() == RANKED_OFFENDER_LIMIT && ranks_above(
                offender,
                old(self).board().last(),
            ) ==> final(self).board() == insert_by_rank(old(self).board().drop_last(), offender),
    {
        proof {
            lemma_stable_sort_keeps_sorted(self.entries@);
        }
        if self.entries.len() < RANKED_OFFENDER_LIMIT {
            let ghost s = self.entries@;
            self.entries.push(offender);
            proof {
                assert(self.entries@.drop_last() =~= s);
            }
            self.sort_used_entries();
            return;
        }
        let last_index = self.entries.len() - 1;
        let last = self.entries[last_index];
        if ranked_strictly_above(&offender, &last) {
            let ghost s = self.entries@;
            self.entries.set(last_index, offender);
            proof {
                assert(self.entries@ == s.update(last_index as int, offender));
                assert(s.last() == s[last_index as int]);
                let d = s.drop_last();
                assert(sorted_by_rank(d)) by {
                    assert forall|i: int, j: int| 0 <= i < j < d.len() implies !ranks_above(
                        #[trigger] d[j],
                        #[trigger] d[i],
                    ) by {
                        assert(d[i] == s[i] && d[j] == s[j]);
                    }
                }
                lemma_stable_sort_keeps_sorted(d);
                assert(self.entries@.drop_last() =~= d);
                assert(self.entries@.last() == offender);
            }
            self.sort_used_entries();
        }
    }
}

impl Default for RankedOffenders {
    fn default() -> (b: Self)
        ensures
            b.well_formed(),
            b.board() == Seq::<RankedOffender>::empty(),
    {
        RankedOffenders::new()
    }
}

/// On a full board, an offender that does not get on ranks no higher than
/// any entry; one that gets on displaces only the lowest entry, which ranks
/// no higher than any entry left. Either way the board holds a highest-ranked
/// selection of what it held and what was offered.
pub proof fn lemma_full_ranked_board_keeps_highest_ranked(
    board: Seq<RankedOffender>,
    offender: RankedOffender,
)
    requires
        board.len() == RANKED_OFFENDER_LIMIT,
        sorted_by_rank(board),
    ensures
        !ranks_above(offender, board.last()) ==> forall|i: int|
            0 <= i < board.len() ==> !ranks_above(offender, #[trigger] board[i]),
        ranks_above(offender, board.last()) ==> forall|i: int|
            0 <= i < board.len() - 1 ==> !ranks_above(board.last(), #[trigger] board[i]),
{
    assert forall|i: int| 0 <= i < board.len() implies !ranks_above(
        board.last(),
        #[trigger] board[i],
    ) || i == board.len() - 1 by {
        if i < board.len() - 1 {
            assert(!ranks_above(board[board.len() - 1], board[i]));
        }
    }
    if !ranks_above(offender, board.last()) {
        assert forall|i: int| 0 <= i < board.len() implies !ranks_above(
            offender,
            #[trigger] board[i],
        ) by {
            if i < board.len() - 1 {
                assert(!ranks_above(board[board.len() - 1], board[i]));
                lemma_offender_rank_is_total_preorder(offender, board.last(), board[i]);
            }
        }
    }
}

} // verus!
