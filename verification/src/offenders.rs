//! The board of the slowest solid fans of a frame: at most eight, kept in
//! descending rank.
use vstd::prelude::*;
use std::cmp::Ordering;
use crate::raster::TriangleRasterBounds;
use crate::renderer_stats::{SolidFanRasterWork, TriangleSource};

verus! {

broadcast use vstd::seq_lib::group_to_multiset_ensures;

/// How many offenders the board keeps.
pub const SOLID_FAN_OFFENDER_LIMIT: usize = 8;

/// What the renderer knows of one solid fan after drawing it.
#[derive(Clone, Copy, Debug, PartialEq, Eq, Structural)]
pub struct SolidFanRasterRecord {
    pub source: TriangleSource,
    pub triangle_count: usize,
    pub polygon_vertices: usize,
    pub alpha: u8,
    pub bounds: Option<TriangleRasterBounds>,
    pub work: SolidFanRasterWork,
    pub elapsed_us: u128,
}

/// A fan on the board of slow fans.
#[derive(Clone, Copy, Debug, PartialEq, Eq, Structural)]
pub struct SolidFanOffender {
    pub elapsed_us: u128,
    pub source: TriangleSource,
    pub triangle_count: usize,
    pub polygon_vertices: usize,
    pub alpha: u8,
    pub bounds: Option<TriangleRasterBounds>,
    pub shape_key: u64,
    pub work: SolidFanRasterWork,
}

/// `a` ranks strictly above `b`: longer time first, then more pixels, more
/// rows, more triangles, then the earlier primitive and the earlier index
/// offset.
pub open spec fn ranks_above(a: SolidFanOffender, b: SolidFanOffender) -> bool {
    ||| a.elapsed_us > b.elapsed_us
    ||| a.elapsed_us == b.elapsed_us && a.work.px > b.work.px
    ||| a.elapsed_us == b.elapsed_us && a.work.px == b.work.px && a.work.rows > b.work.rows
    ||| a.elapsed_us == b.elapsed_us && a.work.px == b.work.px && a.work.rows == b.work.rows
        && a.triangle_count > b.triangle_count
    ||| a.elapsed_us == b.elapsed_us && a.work.px == b.work.px && a.work.rows == b.work.rows
        && a.triangle_count == b.triangle_count && a.source.primitive_index
        < b.source.primitive_index
    ||| a.elapsed_us == b.elapsed_us && a.work.px == b.work.px && a.work.rows == b.work.rows
        && a.triangle_count == b.triangle_count && a.source.primitive_index
        == b.source.primitive_index && a.source.mesh_index_offset < b.source.mesh_index_offset
}

/// `a` and `b` tie on every ranking field.
pub open spec fn same_rank(a: SolidFanOffender, b: SolidFanOffender) -> bool {
    &&& a.elapsed_us == b.elapsed_us
    &&& a.work.px == b.work.px
    &&& a.work.rows == b.work.rows
    &&& a.triangle_count == b.triangle_count
    &&& a.source.primitive_index == b.source.primitive_index
    &&& a.source.mesh_index_offset == b.source.mesh_index_offset
}

/// Highest rank first.
pub open spec fn sorted_by_rank(s: Seq<SolidFanOffender>) -> bool {
    forall|i: int, j: int| 0 <= i < j < s.len() ==> !ranks_above(#[trigger] s[j], #[trigger] s[i])
}

/// `s` with `x` put in after every entry that `x` does not rank strictly
/// above: entries of equal rank stay ahead of it, and the entries keep their
/// order.
pub open spec fn insert_by_rank(s: Seq<SolidFanOffender>, x: SolidFanOffender) -> Seq<
    SolidFanOffender,
>
    decreases s.len(),
{
    if s.len() == 0 {
        seq![x]
    } else if ranks_above(x, s.last()) {
        insert_by_rank(s.drop_last(), x).push(s.last())
    } else {
        s.push(x)
    }
}

/// `s` sorted by rank, highest first, stably: entries of equal rank keep
/// their order.
pub open spec fn stable_sort_by_rank(s: Seq<SolidFanOffender>) -> Seq<SolidFanOffender>
    decreases s.len(),
{
    if s.len() == 0 {
        s
    } else {
        insert_by_rank(stable_sort_by_rank(s.drop_last()), s.last())
    }
}

/// Where `insert_by_rank` puts the new entry: at the first position `j` from
/// which on it ranks strictly above every entry, after every entry it does
/// not rank above.
pub proof fn lemma_insert_by_rank_places_after_ties(
    s: Seq<SolidFanOffender>,
    x: SolidFanOffender,
    j: int,
)
    requires
        0 <= j <= s.len(),
        forall|k: int| j <= k < s.len() ==> ranks_above(x, #[trigger] s[k]),
        j > 0 ==> !ranks_above(x, s[j - 1]),
    ensures
        insert_by_rank(s, x) == s.take(j) + seq![x] + s.skip(j),
    decreases s.len(),
{
    if s.len() == 0 {
        assert(s.take(j) + seq![x] + s.skip(j) =~= seq![x]);
    } else if j == s.len() {
        assert(!ranks_above(x, s.last()));
        assert(s.take(j) + seq![x] + s.skip(j) =~= s.push(x));
    } else {
        assert(ranks_above(x, s[s.len() - 1]));
        let d = s.drop_last();
        assert forall|k: int| j <= k < d.len() implies ranks_above(x, #[trigger] d[k]) by {
            assert(d[k] == s[k]);
        }
        if j > 0 {
            assert(d[j - 1] == s[j - 1]);
        }
        lemma_insert_by_rank_places_after_ties(d, x, j);
        assert(d.take(j) + seq![x] + d.skip(j) + seq![s.last()] =~= s.take(j) + seq![x] + s.skip(
            j,
        ));
    }
}

/// A board already in rank order is left as it is by the stable sort.
pub proof fn lemma_stable_sort_keeps_sorted(s: Seq<SolidFanOffender>)
    requires
        sorted_by_rank(s),
    ensures
        stable_sort_by_rank(s) == s,
    decreases s.len(),
{
    if s.len() > 0 {
        let d = s.drop_last();
        assert(sorted_by_rank(d)) by {
            assert forall|i: int, j: int| 0 <= i < j < d.len() implies !ranks_above(
                #[trigger] d[j],
                #[trigger] d[i],
            ) by {
                assert(d[i] == s[i] && d[j] == s[j]);
            }
        }
        lemma_stable_sort_keeps_sorted(d);
        if d.len() > 0 {
            assert(!ranks_above(s[s.len() - 1], s[s.len() - 2]));
            assert(d.last() == s[s.len() - 2]);
        }
        assert(d.push(s.last()) =~= s);
    }
}

/// Ranking is a total preorder: exactly one of above, below or tied holds,
/// and both "above" and "not above" chain.
pub proof fn lemma_rank_is_total_preorder(
    a: SolidFanOffender,
    b: SolidFanOffender,
    c: SolidFanOffender,
)
    ensures
        ranks_above(a, b) ==> !ranks_above(b, a) && !same_rank(a, b),
        ranks_above(a, b) || ranks_above(b, a) || same_rank(a, b),
        ranks_above(a, b) && ranks_above(b, c) ==> ranks_above(a, c),
        !ranks_above(a, b) && !ranks_above(b, c) ==> !ranks_above(a, c),
{
}

/// How fans rank: a longer time ranks above whatever else differs; on equal
/// time, more pixels rank above whatever the rows and triangles; then more
/// rows, then more triangles; then the earlier primitive, whatever the index
/// offset; the index offset decides only within one primitive. Offenders equal
/// in all six rank neither above nor below each other.
pub proof fn lemma_solid_fan_rank_order(a: SolidFanOffender, b: SolidFanOffender)
    ensures
        a.elapsed_us > b.elapsed_us ==> ranks_above(a, b) && !ranks_above(b, a),
        a.elapsed_us == b.elapsed_us && a.work.px > b.work.px ==> ranks_above(a, b)
            && !ranks_above(b, a),
        a.elapsed_us == b.elapsed_us && a.work.px == b.work.px && a.work.rows > b.work.rows
            ==> ranks_above(a, b) && !ranks_above(b, a),
        a.elapsed_us == b.elapsed_us && a.work.px == b.work.px && a.work.rows == b.work.rows
            && a.triangle_count > b.triangle_count ==> ranks_above(a, b) && !ranks_above(b, a),
        a.elapsed_us == b.elapsed_us && a.work.px == b.work.px && a.work.rows == b.work.rows
            && a.triangle_count == b.triangle_count && a.source.primitive_index
            < b.source.primitive_index ==> ranks_above(a, b) && !ranks_above(b, a),
        a.elapsed_us == b.elapsed_us && a.work.px == b.work.px && a.work.rows == b.work.rows
            && a.triangle_count == b.triangle_count && a.source.primitive_index
            == b.source.primitive_index && a.source.mesh_index_offset
            < b.source.mesh_index_offset ==> ranks_above(a, b) && !ranks_above(b, a),
        a.elapsed_us == b.elapsed_us && a.work.px == b.work.px && a.work.rows == b.work.rows
            && a.triangle_count == b.triangle_count && a.source.primitive_index
            == b.source.primitive_index && a.source.mesh_index_offset
            == b.source.mesh_index_offset ==> !ranks_above(a, b) && !ranks_above(b, a),
{
}

/// Compares two offenders by rank.
pub fn compare_solid_fan_offenders(left: &SolidFanOffender, right: &SolidFanOffender) -> (r:
    Ordering)
    ensures
        (r == Ordering::Greater) == ranks_above(*left, *right),
        (r == Ordering::Less) == ranks_above(*right, *left),
        (r == Ordering::Equal) == same_rank(*left, *right),
{
    if left.elapsed_us != right.elapsed_us {
        return if left.elapsed_us > right.elapsed_us {
            Ordering::Greater
        } else {
            Ordering::Less
        };
    }
    if left.work.px != right.work.px {
        return if left.work.px > right.work.px {
            Ordering::Greater
        } else {
            Ordering::Less
        };
    }
    if left.work.rows != right.work.rows {
        return if left.work.rows > right.work.rows {
            Ordering::Greater
        } else {
            Ordering::Less
        };
    }
    if left.triangle_count != right.triangle_count {
        return if left.triangle_count > right.triangle_count {
            Ordering::Greater
        } else {
            Ordering::Less
        };
    }
    if left.source.primitive_index != right.source.primitive_index {
        return if right.source.primitive_index > left.source.primitive_index {
            Ordering::Greater
        } else {
            Ordering::Less
        };
    }
    if left.source.mesh_index_offset != right.source.mesh_index_offset {
        return if right.source.mesh_index_offset > left.source.mesh_index_offset {
            Ordering::Greater
        } else {
            Ordering::Less
        };
    }
    Ordering::Equal
}

/// Whether `a` ranks strictly above `b`.
fn ranks_strictly_above(a: &SolidFanOffender, b: &SolidFanOffender) -> (r: bool)
    ensures
        r == ranks_above(*a, *b),
{
    match compare_solid_fan_offenders(a, b) {
        Ordering::Greater => true,
        _ => false,
    }
}

/// The slowest fans seen, highest rank first, at most eight.
#[derive(Clone, Debug)]
pub struct SolidFanOffenders {
    entries: Vec<SolidFanOffender>,
}

impl SolidFanOffenders {
    pub closed spec fn board(self) -> Seq<SolidFanOffender> {
        self.entries@
    }

    pub open spec fn well_formed(self) -> bool {
        &&& self.board().len() <= SOLID_FAN_OFFENDER_LIMIT
        &&& sorted_by_rank(self.board())
    }

    pub fn new() -> (b: Self)
        ensures
            b.well_formed(),
            b.board() == Seq::<SolidFanOffender>::empty(),
    {
        SolidFanOffenders { entries: Vec::new() }
    }

    pub fn len(&self) -> (n: usize)
        ensures
            n == self.board().len(),
    {
        self.entries.len()
    }

    pub fn is_empty(&self) -> (r: bool)
        ensures
            r == (self.board().len() == 0),
    {
        self.entries.len() == 0
    }

    /// The offenders on the board, highest rank first.
    pub fn entries(&self) -> (e: &Vec<SolidFanOffender>)
        ensures
            e@ == self.board(),
    {
        &self.entries
    }

    /// Sorts the board by rank, highest first, keeping its contents.
    pub fn sort_used_entries(&mut self)
        ensures
            final(self).board() == stable_sort_by_rank(old(self).board()),
            sorted_by_rank(final(self).board()),
            final(self).board().to_multiset() == old(self).board().to_multiset(),
            final(self).board().len() == old(self).board().len(),
    {
        let ghost ms0 = self.entries@.to_multiset();
        let ghost s0 = self.entries@;
        let n = self.entries.len();
        let mut i: usize = 0;
        while i < n
            invariant
                n == self.entries@.len(),
                i <= n,
                sorted_by_rank(self.entries@.take(i as int)),
                self.entries@.to_multiset() == ms0,
                s0.len() == n,
                self.entries@.take(i as int) == stable_sort_by_rank(s0.take(i as int)),
                self.entries@.skip(i as int) == s0.skip(i as int),
            decreases n - i,
        {
            let ghost s = self.entries@;
            let x = self.entries[i];
            let mut j: usize = i;
            let mut moving = true;
            while moving && j > 0
                invariant
                    s == self.entries@,
                    n == s.len(),
                    i < n,
                    x == s[i as int],
                    j <= i,
                    sorted_by_rank(s.take(i as int)),
                    forall|k: int| j <= k < i ==> ranks_above(x, #[trigger] s[k]),
                    !moving ==> j > 0 && !ranks_above(x, s[j - 1]),
                decreases j as int + if moving {
                    1int
                } else {
                    0int
                },
            {
                if ranks_strictly_above(&x, &self.entries[j - 1]) {
                    j = j - 1;
                } else {
                    moving = false;
                }
            }
            let ghost t = s.take(j as int) + seq![x] + s.subrange(j as int, i as int);
            proof {
                assert forall|a: int, b: int| 0 <= a < b < t.len() implies !ranks_above(
                    #[trigger] t[b],
                    #[trigger] t[a],
                ) by {
                    if b < j {
                        assert(t[a] == s.take(i as int)[a] && t[b] == s.take(i as int)[b]);
                    } else if b == j {
                        assert(t[b] == x);
                        assert(t[a] == s[a]);
                        assert(!ranks_above(x, s[j - 1]));
                        if a < j - 1 {
                            assert(s.take(i as int)[a] == s[a] && s.take(i as int)[j - 1] == s[j
                                - 1]);
                            assert(!ranks_above(s[j - 1], s[a]));
                            lemma_rank_is_total_preorder(x, s[j - 1], s[a]);
                        }
                    } else if a == j {
                        assert(t[a] == x);
                        assert(t[b] == s[b - 1]);
                        assert(ranks_above(x, s[b - 1]));
                        lemma_rank_is_total_preorder(x, s[b - 1], x);
                    } else if a < j {
                        assert(t[a] == s[a] && t[b] == s[b - 1]);
                        assert(s.take(i as int)[a] == s[a] && s.take(i as int)[b - 1] == s[b
                            - 1]);
                    } else {
                        assert(t[a] == s[a - 1] && t[b] == s[b - 1]);
                        assert(s.take(i as int)[a - 1] == s[a - 1] && s.take(i as int)[b - 1]
                            == s[b - 1]);
                    }
                }
            }
            proof {
                let p = s.take(i as int);
                assert forall|k: int| j <= k < p.len() implies ranks_above(x, #[trigger] p[k]) by {
                    assert(p[k] == s[k]);
                }
                if j > 0 {
                    assert(p[j - 1] == s[j - 1]);
                }
                lemma_insert_by_rank_places_after_ties(p, x, j as int);
                assert(p.take(j as int) =~= s.take(j as int));
                assert(p.skip(j as int) =~= s.subrange(j as int, i as int));
                assert(s0.take(i + 1).drop_last() =~= s0.take(i as int));
                assert(s[i as int] == s.skip(i as int)[0]);
                assert(s0.take(i + 1).last() == s0[i as int]);
                assert(s0[i as int] == s0.skip(i as int)[0]);
            }
            if j < i {
                let removed = self.entries.remove(i);
                self.entries.insert(j, removed);
                proof {
                    assert(self.entries@.take(i + 1) =~= t);
                    assert(self.entries@.skip(i + 1) =~= s.skip(i + 1));
                    assert(s.remove(i as int).to_multiset() == s.to_multiset().remove(x));
                }
            } else {
                proof {
                    assert(self.entries@.take(i + 1) =~= t);
                    assert(self.entries@.skip(i + 1) =~= s.skip(i + 1));
                }
            }
            proof {
                assert(s.skip(i + 1) =~= s.skip(i as int).skip(1));
                assert(s0.skip(i + 1) =~= s0.skip(i as int).skip(1));
            }
            i = i + 1;
        }
        proof {
            assert(self.entries@.take(n as int) =~= self.entries@);
            assert(s0.take(n as int) =~= s0);
        }
    }

    /// Puts `offender` on the board: appended while there is room, otherwise
    /// in place of the lowest entry when it ranks strictly above it; then
    /// sorts the board.
    pub fn record(&mut self, offender: SolidFanOffender)
        requires
            old(self).well_formed(),
        ensures
            final(self).well_formed(),
            old(self).board().len() < SOLID_FAN_OFFENDER_LIMIT ==> final(self).board().len()
                == old(self).board().len() + 1 && final(self).board().to_multiset() == old(self).board().to_multiset().insert(offender),
            old(self).board().len() == SOLID_FAN_OFFENDER_LIMIT && ranks_above(
                offender,
                old(self).board().last(),
            ) ==> final(self).board().len() == SOLID_FAN_OFFENDER_LIMIT && final(self).board().to_multiset() == old(self).board().to_multiset().remove(
                old(self).board().last(),
            ).insert(offender),
            old(self).board().len() == SOLID_FAN_OFFENDER_LIMIT && !ranks_above(
                offender,
                old(self).board().last(),
            ) ==> final(self).board() == old(self).board(),
            old(self).board().len() < SOLID_FAN_OFFENDER_LIMIT ==> final(self).board()
                == insert_by_rank(old(self).board(), offender),
            old(self).board().len() == SOLID_FAN_OFFENDER_LIMIT && ranks_above(
                offender,
                old(self).board().last(),
            ) ==> final(self).board() == insert_by_rank(old(self).board().drop_last(), offender),
    {
        proof {
            lemma_stable_sort_keeps_sorted(self.entries@);
        }
        if self.entries.len() < SOLID_FAN_OFFENDER_LIMIT {
            let ghost s = self.entries@;
            self.entries.push(offender);
            proof {
                assert(self.entries@.drop_last() =~= s);
            }
            self.sort_used_entries();
            return;
        }
        let last_index = self.entries.len() - 1;
        let last = self.entries[last_index];
        if ranks_strictly_above(&offender, &last) {
            let ghost s = self.entries@;
            self.entries.set(last_index, offender);
            proof {
                assert(self.entries@ == s.update(last_index as int, offender));
                assert(s.last() == s[last_index as int]);
                let d = s.drop_last();
                assert(sorted_by_rank(d)) by {
                    assert forall|i: int, j: int| 0 <= i < j < d.len() implies !ranks_above(
                        #[trigger] d[j],
                        #[trigger] d[i],
                    ) by {
                        assert(d[i] == s[i] && d[j] == s[j]);
                    }
                }
                lemma_stable_sort_keeps_sorted(d);
                assert(self.entries@.drop_last() =~= d);
                assert(self.entries@.last() == offender);
            }
            self.sort_used_entries();
        }
    }
}

impl Default for SolidFanOffenders {
    fn default() -> (b: Self)
        ensures
            b.well_formed(),
            b.board() == Seq::<SolidFanOffender>::empty(),
    {
        SolidFanOffenders::new()
    }
}

/// On a full board, an offender that does not get on ranks no higher than
/// any entry; one that gets on displaces only the lowest entry, which ranks
/// no higher than any entry left. Either way the board holds a highest-ranked
/// selection of what it held and what was offered.
pub proof fn lemma_full_board_keeps_highest_ranked(
    board: Seq<SolidFanOffender>,
    offender: SolidFanOffender,
)
    requires
        board.len() == SOLID_FAN_OFFENDER_LIMIT,
        sorted_by_rank(board),
    ensures
        !ranks_above(offender, board.last()) ==> forall|i: int|
            0 <= i < board.len() ==> !ranks_above(offender, #[trigger] board[i]),
        ranks_above(offender, board.last()) ==> forall|i: int|
            0 <= i < board.len() - 1 ==> !ranks_above(board.last(), #[trigger] board[i]),
{
    assert forall|i: int| 0 <= i < board.len() implies !ranks_above(
        board.last(),
        #[trigger] board[i],
    ) || i == board.len() - 1 by {
        if i < board.len() - 1 {
            assert(!ranks_above(board[board.len() - 1], board[i]));
        }
    }
    if !ranks_above(offender, board.last()) {
        assert forall|i: int| 0 <= i < board.len() implies !ranks_above(
            offender,
            #[trigger] board[i],
        ) by {
            if i < board.len() - 1 {
                assert(!ranks_above(board[board.len() - 1], board[i]));
                lemma_rank_is_total_preorder(offender, board.last(), board[i]);
            }
        }
    }
}

} // verus!
