//! Solid triangle fans: the span cache that replays the rows of a fan drawn
//! before, its eligibility rules, and the fan's statistics.
use vstd::prelude::*;
use crate::raster::{ClipBounds, TriangleRasterBounds};
use crate::raster_stats::{RasterStats, after_alpha_px, alpha_class, alpha_px};

verus! {

/// Fans with more edges than this are not precomputed (nor cached).
pub const SOLID_FAN_PRECOMPUTED_EDGE_BUDGET: usize = 256;

/// The cache keeps at most this many entries.
pub const SOLID_FAN_SPAN_CACHE_ENTRIES: usize = 128;

/// The cache keeps at most this many rows over all its entries.
pub const SOLID_FAN_SPAN_CACHE_RESIDENT_ROWS: usize = 4096;

/// Fans taller than this many rows are not cached.
pub const SOLID_FAN_SPAN_CACHE_MAX_ROWS: usize = 512;

/// What identifies a fan: its clip, its bounds, its triangle count and the
/// bit patterns of its vertex positions (with `-0.0` written as `0.0`).
#[derive(Clone, Debug)]
pub struct SolidFanSpanCacheKey {
    pub clip: ClipBounds,
    pub bounds: TriangleRasterBounds,
    pub triangle_count: usize,
    pub positions: Vec<(u32, u32)>,
}

pub open spec fn key_view(k: SolidFanSpanCacheKey) -> (
    ClipBounds,
    TriangleRasterBounds,
    usize,
    Seq<(u32, u32)>,
) {
    (k.clip, k.bounds, k.triangle_count, k.positions@)
}

/// Whether two keys name the same fan.
pub fn same_key(a: &SolidFanSpanCacheKey, b: &SolidFanSpanCacheKey) -> (r: bool)
    ensures
        r == (key_view(*a) == key_view(*b)),
{
    if a.clip != b.clip || a.bounds != b.bounds || a.triangle_count != b.triangle_count {
        return false;
    }
    let n = a.positions.len();
    if n != b.positions.len() {
        return false;
    }
    let mut i: usize = 0;
    while i < n
        invariant
            n == a.positions@.len(),
            n == b.positions@.len(),
            i <= n,
            forall|k: int| 0 <= k < i ==> a.positions@[k] == b.positions@[k],
        decreases n - i,
    {
        let pa = a.positions[i];
        let pb = b.positions[i];
        if pa.0 != pb.0 || pa.1 != pb.1 {
            return false;
        }
        i = i + 1;
    }
    assert(a.positions@ =~= b.positions@);
    true
}

/// The spans of every row of a fan, from `bounds.min_y` down; `None` for a
/// row the fan does not cover.
#[derive(Clone, Debug)]
pub struct SolidFanSpanCacheEntry {
    pub key: SolidFanSpanCacheKey,
    pub bounds: TriangleRasterBounds,
    pub spans: Vec<Option<(usize, usize)>>,
}

pub open spec fn entry_rows(e: SolidFanSpanCacheEntry) -> nat {
    e.spans@.len()
}

impl SolidFanSpanCacheEntry {
    pub fn resident_rows(&self) -> (rows: usize)
        ensures
            rows == entry_rows(*self),
    {
        self.spans.len()
    }
}

/// Rows held by a sequence of entries.
pub open spec fn total_rows(s: Seq<SolidFanSpanCacheEntry>) -> nat
    decreases s.len(),
{
    if s.len() == 0 {
        0
    } else {
        entry_rows(s[0]) + total_rows(s.drop_first())
    }
}

/// More entries, or more rows, than the cache keeps.
pub open spec fn over_budget(s: Seq<SolidFanSpanCacheEntry>) -> bool {
    s.len() > SOLID_FAN_SPAN_CACHE_ENTRIES || total_rows(s) > SOLID_FAN_SPAN_CACHE_RESIDENT_ROWS
}

/// Drops the oldest entries until the rest is within budget.
pub open spec fn evict(s: Seq<SolidFanSpanCacheEntry>) -> Seq<SolidFanSpanCacheEntry>
    decreases s.len(),
{
    if s.len() > 0 && over_budget(s) {
        evict(s.drop_first())
    } else {
        s
    }
}

/// How many entries `evict` drops.
pub open spec fn evictions(s: Seq<SolidFanSpanCacheEntry>) -> nat
    decreases s.len(),
{
    if s.len() > 0 && over_budget(s) {
        1 + evictions(s.drop_first())
    } else {
        0
    }
}

/// How many of the entries that `evict` drops go while the rows are over
/// budget.
pub open spec fn row_budget_evictions(s: Seq<SolidFanSpanCacheEntry>) -> nat
    decreases s.len(),
{
    if s.len() > 0 && over_budget(s) {
        (if total_rows(s) > SOLID_FAN_SPAN_CACHE_RESIDENT_ROWS {
            1nat
        } else {
            0nat
        }) + row_budget_evictions(s.drop_first())
    } else {
        0
    }
}

/// `i` is the first entry of `s` whose key is `k`.
pub open spec fn first_match(
    s: Seq<SolidFanSpanCacheEntry>,
    k: (ClipBounds, TriangleRasterBounds, usize, Seq<(u32, u32)>),
    i: int,
) -> bool {
    &&& 0 <= i < s.len()
    &&& key_view(s[i].key) == k
    &&& forall|j: int| 0 <= j < i ==> key_view(#[trigger] s[j].key) != k
}

/// A first-in, first-out cache of fan spans, bounded in entries and in rows.
#[derive(Debug)]
pub struct SolidFanSpanCache {
    entries: Vec<SolidFanSpanCacheEntry>,
    resident_rows: usize,
    total_evictions: usize,
    row_budget_evictions: usize,
}

impl SolidFanSpanCache {
    /// The entries, oldest first.
    pub closed spec fn entries(self) -> Seq<SolidFanSpanCacheEntry> {
        self.entries@
    }

    pub closed spec fn resident(self) -> nat {
        self.resident_rows as nat
    }

    pub closed spec fn evicted(self) -> nat {
        self.total_evictions as nat
    }

    pub closed spec fn evicted_for_rows(self) -> nat {
        self.row_budget_evictions as nat
    }

    /// Within budget, with the row count kept exact.
    pub open spec fn well_formed(self) -> bool {
        &&& !over_budget(self.entries())
        &&& self.resident() == total_rows(self.entries())
    }

    pub fn new() -> (c: Self)
        ensures
            c.well_formed(),
            c.entries() == Seq::<SolidFanSpanCacheEntry>::empty(),
            c.evicted() == 0,
            c.evicted_for_rows() == 0,
    {
        SolidFanSpanCache {
            entries: Vec::new(),
            resident_rows: 0,
            total_evictions: 0,
            row_budget_evictions: 0,
        }
    }

    pub fn len(&self) -> (n: usize)
        ensures
            n == self.entries().len(),
    {
        self.entries.len()
    }

    pub fn resident_rows(&self) -> (n: usize)
        ensures
            n == self.resident(),
    {
        self.resident_rows
    }

    pub fn total_evictions(&self) -> (n: usize)
        ensures
            n == self.evicted(),
    {
        self.total_evictions
    }

    pub fn row_budget_evictions(&self) -> (n: usize)
        ensures
            n == self.evicted_for_rows(),
    {
        self.row_budget_evictions
    }

    /// The oldest entry whose key is `key`, if any.
    pub fn get(&self, key: &SolidFanSpanCacheKey) -> (r: Option<&SolidFanSpanCacheEntry>)
        ensures
            r matches Some(e) ==> exists|i: int|
                first_match(self.entries(), key_view(*key), i) && *e == self.entries()[i],
            r is None ==> forall|i: int|
                0 <= i < self.entries().len() ==> key_view(#[trigger] self.entries()[i].key)
                    != key_view(*key),
    {
        let mut i: usize = 0;
        while i < self.entries.len()
            invariant
                i <= self.entries@.len(),
                forall|j: int|
                    0 <= j < i ==> key_view(#[trigger] self.entries@[j].key) != key_view(*key),
            decreases self.entries@.len() - i,
        {
            if same_key(&self.entries[i].key, key) {
                assert(first_match(self.entries(), key_view(*key), i as int));
                return Some(&self.entries[i]);
            }
            i = i + 1;
        }
        None
    }

    /// Appends `entry`, then evicts the oldest entries until at most 128
    /// entries and 4096 rows remain, counting the evictions (and those made
    /// while the rows were over budget).
    ///
    /// `entry` holds fewer than `usize::MAX - 4096` rows, as any vector of
    /// spans that fits in memory does.
    pub fn insert(&mut self, entry: SolidFanSpanCacheEntry)
        requires
            old(self).well_formed(),
            entry_rows(entry) <= usize::MAX - SOLID_FAN_SPAN_CACHE_RESIDENT_ROWS,
            old(self).evicted() + evictions(old(self).entries().push(entry)) <= usize::MAX,
            old(self).evicted_for_rows() + row_budget_evictions(old(self).entries().push(entry))
                <= usize::MAX,
        ensures
            final(self).well_formed(),
            final(self).entries() == evict(old(self).entries().push(entry)),
            final(self).evicted() == old(self).evicted() + evictions(
                old(self).entries().push(entry),
            ),
            final(self).evicted() == old(self).evicted() + old(self).entries().len() + 1
                - final(self).entries().len(),
            final(self).evicted_for_rows() == old(self).evicted_for_rows() + row_budget_evictions(
                old(self).entries().push(entry),
            ),
    {
        let ghost s0 = self.entries@.push(entry);
        let ghost old_total = self.total_evictions as int;
        let ghost old_rows = self.row_budget_evictions as int;
        proof {
            lemma_total_rows_push(self.entries@, entry);
        }
        let rows = entry.resident_rows();
        self.resident_rows = self.resident_rows + rows;
        self.entries.push(entry);
        assert(self.entries@ == s0);
        while self.entries.len() > SOLID_FAN_SPAN_CACHE_ENTRIES || self.resident_rows
            > SOLID_FAN_SPAN_CACHE_RESIDENT_ROWS
            invariant
                s0.len() <= SOLID_FAN_SPAN_CACHE_ENTRIES + 1,
                self.entries@.len() <= s0.len(),
                self.resident_rows == total_rows(self.entries@),
                evict(self.entries@) == evict(s0),
                self.total_evictions + evictions(self.entries@) == old_total + evictions(s0),
                self.row_budget_evictions + row_budget_evictions(self.entries@) == old_rows
                    + row_budget_evictions(s0),
                self.total_evictions == old_total + (s0.len() - self.entries@.len()),
                self.row_budget_evictions <= old_rows + (s0.len() - self.entries@.len()),
                old_total + evictions(s0) <= usize::MAX,
                old_rows + row_budget_evictions(s0) <= usize::MAX,
            decreases self.entries@.len(),
        {
            let ghost before = self.entries@;
            assert(before.len() > 0);
            assert(over_budget(before));
            assert(evictions(before) == 1 + evictions(before.drop_first()));
            assert(row_budget_evictions(before) == (if total_rows(before)
                > SOLID_FAN_SPAN_CACHE_RESIDENT_ROWS {
                1nat
            } else {
                0nat
            }) + row_budget_evictions(before.drop_first()));
            let row_budget_eviction = self.resident_rows > SOLID_FAN_SPAN_CACHE_RESIDENT_ROWS;
            let removed = self.entries.remove(0);
            assert(self.entries@ =~= before.drop_first());
            let removed_rows = removed.resident_rows();
            self.resident_rows = self.resident_rows - removed_rows;
            self.total_evictions = self.total_evictions + 1;
            if row_budget_eviction {
                self.row_budget_evictions = self.row_budget_evictions + 1;
            }
        }
    }

    /// Copies the cache's occupancy and eviction counts into `stats`.
    pub fn record_stats(&self, stats: &mut RasterStats)
        ensures
            *final(stats) == (RasterStats {
                solid_fan_span_cache_resident_entries: self.entries().len() as usize,
                solid_fan_span_cache_resident_rows: self.resident() as usize,
                solid_fan_span_cache_total_evictions: self.evicted() as usize,
                solid_fan_span_cache_row_budget_evictions: self.evicted_for_rows() as usize,
                ..*old(stats)
            }),
    {
        stats.solid_fan_span_cache_resident_entries = self.entries.len();
        stats.solid_fan_span_cache_resident_rows = self.resident_rows;
        stats.solid_fan_span_cache_total_evictions = self.total_evictions;
        stats.solid_fan_span_cache_row_budget_evictions = self.row_budget_evictions;
    }
}

impl Default for SolidFanSpanCache {
    fn default() -> (c: Self)
        ensures
            c.well_formed(),
            c.entries() == Seq::<SolidFanSpanCacheEntry>::empty(),
            c.evicted() == 0,
            c.evicted_for_rows() == 0,
    {
        SolidFanSpanCache::new()
    }
}

proof fn lemma_total_rows_push(s: Seq<SolidFanSpanCacheEntry>, e: SolidFanSpanCacheEntry)
    ensures
        total_rows(s.push(e)) == total_rows(s) + entry_rows(e),
    decreases s.len(),
{
    if s.len() > 0 {
        lemma_total_rows_push(s.drop_first(), e);
        assert(s.push(e).drop_first() =~= s.drop_first().push(e));
        assert(s.push(e)[0] == s[0]);
    } else {
        assert(s.push(e).drop_first() =~= Seq::<SolidFanSpanCacheEntry>::empty());
        assert(total_rows(Seq::<SolidFanSpanCacheEntry>::empty()) == 0);
    }
}

proof fn lemma_total_rows_skip(s: Seq<SolidFanSpanCacheEntry>, k: int)
    requires
        0 <= k <= s.len(),
    ensures
        total_rows(s.skip(k)) <= total_rows(s),
    decreases k,
{
    if k > 0 {
        lemma_total_rows_skip(s.drop_first(), k - 1);
        assert(s.drop_first().skip(k - 1) =~= s.skip(k));
    } else {
        assert(s.skip(0) =~= s);
    }
}

/// What eviction keeps is the longest suffix of what it started from that
/// is within budget: the newest entries, in their order. Every longer suffix
/// is over budget.
pub proof fn lemma_evict_keeps_newest_within_budget(s: Seq<SolidFanSpanCacheEntry>)
    ensures
        !over_budget(evict(s)),
        evictions(s) <= s.len(),
        evict(s) == s.skip(evictions(s) as int),
        forall|k: int| 0 <= k < evictions(s) ==> over_budget(#[trigger] s.skip(k)),
        row_budget_evictions(s) <= evictions(s),
    decreases s.len(),
{
    if s.len() > 0 && over_budget(s) {
        lemma_evict_keeps_newest_within_budget(s.drop_first());
        assert(s.drop_first().skip(evictions(s.drop_first()) as int) =~= s.skip(
            evictions(s) as int,
        ));
        assert forall|k: int| 0 <= k < evictions(s) implies over_budget(#[trigger] s.skip(k)) by {
            if k == 0 {
                assert(s.skip(0) =~= s);
            } else {
                assert(s.drop_first().skip(k - 1) =~= s.skip(k));
            }
        }
    } else {
        assert(s.skip(0) =~= s);
    }
}

proof fn lemma_evict_keeps_fitting_suffix(s: Seq<SolidFanSpanCacheEntry>, k: int)
    requires
        0 <= k <= s.len(),
        !over_budget(s.skip(k)),
    ensures
        evictions(s) <= k,
    decreases k,
{
    if k > 0 && s.len() > 0 && over_budget(s) {
        assert(s.drop_first().skip(k - 1) =~= s.skip(k));
        lemma_evict_keeps_fitting_suffix(s.drop_first(), k - 1);
    } else if k == 0 {
        assert(s.skip(0) =~= s);
    }
}

/// After inserting an entry whose key the cache does not hold yet, and that
/// alone fits the row budget, a lookup of that key finds exactly that entry.
pub proof fn lemma_inserted_entry_is_found(
    old_entries: Seq<SolidFanSpanCacheEntry>,
    entry: SolidFanSpanCacheEntry,
)
    requires
        !over_budget(old_entries),
        entry_rows(entry) <= SOLID_FAN_SPAN_CACHE_RESIDENT_ROWS,
        forall|i: int|
            0 <= i < old_entries.len() ==> key_view(#[trigger] old_entries[i].key) != key_view(
                entry.key,
            ),
    ensures
        ({
            let kept = evict(old_entries.push(entry));
            &&& kept.len() > 0
            &&& first_match(kept, key_view(entry.key), kept.len() - 1)
            &&& kept[kept.len() - 1] == entry
        }),
{
    let s = old_entries.push(entry);
    let n = old_entries.len() as int;
    assert(s.skip(n) =~= seq![entry]);
    assert(total_rows(seq![entry]) == entry_rows(entry)) by {
        assert(seq![entry].drop_first() =~= Seq::<SolidFanSpanCacheEntry>::empty());
        assert(total_rows(Seq::<SolidFanSpanCacheEntry>::empty()) == 0);
    }
    lemma_evict_keeps_fitting_suffix(s, n);
    lemma_evict_keeps_newest_within_budget(s);
    let kept = evict(s);
    let k = evictions(s) as int;
    assert(kept == s.skip(k));
    assert(kept[kept.len() - 1] == entry);
    assert forall|j: int| 0 <= j < kept.len() - 1 implies key_view(#[trigger] kept[j].key)
        != key_view(entry.key) by {
        assert(kept[j] == old_entries[j + k]);
    }
}

// ---------------------------------------------------------------------------
// Eligibility and span storage.
// ---------------------------------------------------------------------------
#[derive(Clone, Copy, Debug, PartialEq, Eq, Structural)]
pub enum SolidFanSpanCacheKeyEligibility {
    Eligible,
    TooManyRows,
    TooManyEdges,
}

pub fn solid_fan_span_cache_key_eligibility(
    polygon: &[usize],
    bounds: TriangleRasterBounds,
) -> (r: SolidFanSpanCacheKeyEligibility)
    requires
        bounds.min_y <= bounds.max_y,
    ensures
        r == if bounds.max_y - bounds.min_y > SOLID_FAN_SPAN_CACHE_MAX_ROWS {
            SolidFanSpanCacheKeyEligibility::TooManyRows
        } else if polygon@.len() > SOLID_FAN_PRECOMPUTED_EDGE_BUDGET {
            SolidFanSpanCacheKeyEligibility::TooManyEdges
        } else {
            SolidFanSpanCacheKeyEligibility::Eligible
        },
{
    if bounds.max_y - bounds.min_y > SOLID_FAN_SPAN_CACHE_MAX_ROWS {
        return SolidFanSpanCacheKeyEligibility::TooManyRows;
    }
    if polygon.len() > SOLID_FAN_PRECOMPUTED_EDGE_BUDGET {
        return SolidFanSpanCacheKeyEligibility::TooManyEdges;
    }
    SolidFanSpanCacheKeyEligibility::Eligible
}

pub fn solid_fan_span_cache_key_eligible(polygon: &[usize], bounds: TriangleRasterBounds) -> (r:
    bool)
    requires
        bounds.min_y <= bounds.max_y,
    ensures
        r == (bounds.max_y - bounds.min_y <= SOLID_FAN_SPAN_CACHE_MAX_ROWS && polygon@.len()
            <= SOLID_FAN_PRECOMPUTED_EDGE_BUDGET),
{
    match solid_fan_span_cache_key_eligibility(polygon, bounds) {
        SolidFanSpanCacheKeyEligibility::Eligible => true,
        _ => false,
    }
}

/// Storage for the spans of a fan being drawn, when its spans can be
/// cached: a key is available, its edges were precomputed, and it is not
/// taller than the cache allows.
pub fn solid_fan_cache_span_storage(
    bounds: TriangleRasterBounds,
    precomputed: bool,
    cache_key_available: bool,
) -> (r: Option<Vec<Option<(usize, usize)>>>)
    requires
        bounds.min_y <= bounds.max_y,
    ensures
        r is Some <==> (cache_key_available && precomputed && bounds.max_y - bounds.min_y
            <= SOLID_FAN_SPAN_CACHE_MAX_ROWS),
        r matches Some(v) ==> v@.len() == 0,
{
    if !cache_key_available {
        return None;
    }
    let row_count = bounds.max_y - bounds.min_y;
    if precomputed && row_count <= SOLID_FAN_SPAN_CACHE_MAX_ROWS {
        return Some(Vec::with_capacity(row_count));
    }
    None
}

// ---------------------------------------------------------------------------
// Statistics of fan rows.
// ---------------------------------------------------------------------------
/// One scanline of a fan: its covered span, the work its solver did, and
/// whether it had to fall back to the reference solver.
#[derive(Clone, Copy, Debug, Default, PartialEq, Eq)]
pub struct PolygonScanlineSpan {
    pub span: Option<(usize, usize)>,
    pub edge_intersections: usize,
    pub endpoint_probe_px: usize,
    pub fell_back: bool,
}

/// Counts a row drawn with precomputed edges.
pub fn record_solid_fan_precomputed_row(stats: &mut RasterStats, precomputed: bool)
    requires
        precomputed ==> old(stats).solid_fan_edge_precompute_used_rows < usize::MAX,
    ensures
        *final(stats) == if precomputed {
            RasterStats {
                solid_fan_edge_precompute_used_rows: (
                old(stats).solid_fan_edge_precompute_used_rows + 1) as usize,
                ..*old(stats)
            }
        } else {
            *old(stats)
        },
{
    if precomputed {
        stats.solid_fan_edge_precompute_used_rows = stats.solid_fan_edge_precompute_used_rows + 1;
    }
}

/// Adds a scanline's solver work to the fan totals.
pub fn record_solid_fan_scanline_stats(stats: &mut RasterStats, scanline: PolygonScanlineSpan)
    requires
        old(stats).solid_fan_edge_intersections + scanline.edge_intersections <= usize::MAX,
        old(stats).solid_fan_endpoint_probe_px + scanline.endpoint_probe_px <= usize::MAX,
    ensures
        *final(stats) == (RasterStats {
            solid_fan_edge_intersections: (old(stats).solid_fan_edge_intersections
                + scanline.edge_intersections) as usize,
            solid_fan_endpoint_probe_px: (old(stats).solid_fan_endpoint_probe_px
                + scanline.endpoint_probe_px) as usize,
            ..*old(stats)
        }),
{
    stats.solid_fan_edge_intersections = stats.solid_fan_edge_intersections
        + scanline.edge_intersections;
    stats.solid_fan_endpoint_probe_px = stats.solid_fan_endpoint_probe_px
        + scanline.endpoint_probe_px;
}

/// One row to blend: the row, the first column and the column past the end.
pub type SpanBlend = (usize, usize, usize);

pub open spec fn fan_row_fits(s: RasterStats, alpha: u8, px: int) -> bool {
    &&& s.solid_fan_rows < usize::MAX
    &&& s.solid_fan_px + px <= usize::MAX
    &&& alpha_px(s)[alpha_class(alpha)] + px <= usize::MAX
}

pub open spec fn after_fan_row(s: RasterStats, alpha: u8, px: int) -> RasterStats {
    after_alpha_px(
        RasterStats {
            solid_fan_rows: (s.solid_fan_rows + 1) as usize,
            solid_fan_px: (s.solid_fan_px + px) as usize,
            ..s
        },
        alpha,
        px as usize,
    )
}

/// The blend that one fan row makes, if it covers anything, and its
/// statistics: one row, its pixels, and their alpha class.
pub fn rasterize_solid_fan_span(
    color: [u8; 4],
    y: usize,
    span: Option<(usize, usize)>,
    stats: &mut RasterStats,
) -> (blend: Option<SpanBlend>)
    requires
        span matches Some((a, b)) ==> a <= b && fan_row_fits(*old(stats), color@[3], b - a),
    ensures
        span is None ==> blend is None && *final(stats) == *old(stats),
        span matches Some((a, b)) ==> blend == Some((y, a, b)) && *final(stats) == after_fan_row(
            *old(stats),
            color@[3],
            b - a,
        ),
{
    let (span_start, span_end) = match span {
        Some(s) => s,
        None => return None,
    };
    let px = span_end - span_start;
    stats.solid_fan_rows = stats.solid_fan_rows + 1;
    stats.solid_fan_px = stats.solid_fan_px + px;
    stats.record_alpha_px(color[3], px);
    Some((y, span_start, span_end))
}

pub open spec fn covered_px(spans: Seq<Option<(usize, usize)>>) -> int
    decreases spans.len(),
{
    if spans.len() == 0 {
        0
    } else {
        covered_px(spans.drop_last()) + match spans.last() {
            Some((a, b)) => b - a,
            None => 0,
        }
    }
}

pub open spec fn covered_rows(spans: Seq<Option<(usize, usize)>>) -> int
    decreases spans.len(),
{
    if spans.len() == 0 {
        0
    } else {
        covered_rows(spans.drop_last()) + if spans.last() is Some {
            1int
        } else {
            0
        }
    }
}

/// The blends of the covered rows of `spans`, from `min_y` down.
pub open spec fn replay_blends(spans: Seq<Option<(usize, usize)>>, min_y: int) -> Seq<SpanBlend>
    decreases spans.len(),
{
    if spans.len() == 0 {
        Seq::empty()
    } else {
        let rest = replay_blends(spans.drop_last(), min_y);
        match spans.last() {
            Some((a, b)) => rest.push(((min_y + spans.len() - 1) as usize, a, b)),
            None => rest,
        }
    }
}

pub open spec fn spans_well_ordered(spans: Seq<Option<(usize, usize)>>) -> bool {
    forall|i: int| 0 <= i < spans.len() ==> (#[trigger] spans[i] matches Some((a, b)) ==> a <= b)
}

/// The blends that replaying a cached fan makes, each covered row at
/// `bounds.min_y` plus its index, and their statistics: the rows, their
/// pixels, the pixels served by the cache, and the alpha class.
pub fn replay_solid_fan_spans(
    color: [u8; 4],
    entry: &SolidFanSpanCacheEntry,
    stats: &mut RasterStats,
) -> (blends: Vec<SpanBlend>)
    requires
        spans_well_ordered(entry.spans@),
        entry.bounds.min_y + entry.spans@.len() <= usize::MAX,
        old(stats).solid_fan_rows + covered_rows(entry.spans@) <= usize::MAX,
        old(stats).solid_fan_px + covered_px(entry.spans@) <= usize::MAX,
        old(stats).solid_fan_span_cache_hit_px + covered_px(entry.spans@) <= usize::MAX,
        alpha_px(*old(stats))[alpha_class(color@[3])] + covered_px(entry.spans@) <= usize::MAX,
    ensures
        blends@ == replay_blends(entry.spans@, entry.bounds.min_y as int),
        *final(stats) == after_alpha_px(
            RasterStats {
                solid_fan_rows: (old(stats).solid_fan_rows + covered_rows(entry.spans@)) as usize,
                solid_fan_px: (old(stats).solid_fan_px + covered_px(entry.spans@)) as usize,
                solid_fan_span_cache_hit_px: (old(stats).solid_fan_span_cache_hit_px + covered_px(
                    entry.spans@,
                )) as usize,
                ..*old(stats)
            },
            color@[3],
            covered_px(entry.spans@) as usize,
        ),
{
    let ghost spans = entry.spans@;
    let ghost s0 = *stats;
    let ghost alpha = color@[3];
    let mut blends: Vec<SpanBlend> = Vec::new();
    let mut row_offset: usize = 0;
    proof {
        lemma_covered_monotone(spans, spans.len() as int);
    }
    while row_offset < entry.spans.len()
        invariant
            spans == entry.spans@,
            s0 == *old(stats),
            alpha == color@[3],
            row_offset <= spans.len(),
            spans_well_ordered(spans),
            entry.bounds.min_y + spans.len() <= usize::MAX,
            s0.solid_fan_rows + covered_rows(spans) <= usize::MAX,
            s0.solid_fan_px + covered_px(spans) <= usize::MAX,
            s0.solid_fan_span_cache_hit_px + covered_px(spans) <= usize::MAX,
            alpha_px(s0)[alpha_class(alpha)] + covered_px(spans) <= usize::MAX,
            forall|k: int|
                0 <= k <= spans.len() ==> covered_px(#[trigger] spans.take(k)) <= covered_px(
                    spans,
                ) && covered_rows(spans.take(k)) <= covered_rows(spans) && 0 <= covered_px(
                    spans.take(k),
                ) && 0 <= covered_rows(spans.take(k)),
            blends@ == replay_blends(spans.take(row_offset as int), entry.bounds.min_y as int),
            *stats == after_alpha_px(
                RasterStats {
                    solid_fan_rows: (s0.solid_fan_rows + covered_rows(
                        spans.take(row_offset as int),
                    )) as usize,
                    solid_fan_px: (s0.solid_fan_px + covered_px(
                        spans.take(row_offset as int),
                    )) as usize,
                    solid_fan_span_cache_hit_px: (s0.solid_fan_span_cache_hit_px + covered_px(
                        spans.take(row_offset as int),
                    )) as usize,
                    ..s0
                },
                alpha,
                covered_px(spans.take(row_offset as int)) as usize,
            ),
        decreases spans.len() - row_offset,
    {
        let ghost before = spans.take(row_offset as int);
        let ghost after = spans.take(row_offset + 1);
        assert(after.drop_last() =~= before);
        assert(after.last() == spans[row_offset as int]);
        assert(covered_px(after) <= covered_px(spans));
        assert(covered_rows(after) <= covered_rows(spans));
        if let Some((span_start, span_end)) = entry.spans[row_offset] {
            assert(spans[row_offset as int] matches Some((a, b)) ==> a <= b);
            let px = span_end - span_start;
            blends.push((entry.bounds.min_y + row_offset, span_start, span_end));
            stats.solid_fan_rows = stats.solid_fan_rows + 1;
            stats.solid_fan_px = stats.solid_fan_px + px;
            stats.solid_fan_span_cache_hit_px = stats.solid_fan_span_cache_hit_px + px;
            stats.record_alpha_px(color[3], px);
        }
        row_offset = row_offset + 1;
    }
    assert(spans.take(spans.len() as int) =~= spans);
    blends
}

proof fn lemma_covered_monotone(spans: Seq<Option<(usize, usize)>>, n: int)
    requires
        spans_well_ordered(spans),
        0 <= n <= spans.len(),
    ensures
        forall|k: int|
            0 <= k <= n ==> covered_px(#[trigger] spans.take(k)) <= covered_px(spans.take(n))
                && covered_rows(spans.take(k)) <= covered_rows(spans.take(n)) && 0 <= covered_px(
                spans.take(k),
            ) && 0 <= covered_rows(spans.take(k)),
        n == spans.len() ==> spans.take(n) == spans,
    decreases n,
{
    if n == spans.len() {
        assert(spans.take(n) =~= spans);
    }
    if n > 0 {
        lemma_covered_monotone(spans, n - 1);
        let t = spans.take(n);
        assert(t.drop_last() =~= spans.take(n - 1));
        assert(t.last() == spans[n - 1]);
        assert(spans[n - 1] matches Some((a, b)) ==> a <= b);
    }
}


/// Why a fan's edges could not be precomputed.
#[derive(Clone, Copy, Debug, PartialEq, Eq, Structural)]
pub enum PrecomputeFanEdgesError {
    /// More edges than `SOLID_FAN_PRECOMPUTED_EDGE_BUDGET`.
    Budget,
    /// An edge slope is not finite.
    NonFinite,
}

/// Counts an edge precomputation: on success, with `Ok(edges)` the number of
/// edges precomputed; on failure, its reason.
pub fn record_solid_fan_precompute_stats(
    stats: &mut RasterStats,
    precomputed_edges: Result<usize, PrecomputeFanEdgesError>,
)
    requires
        old(stats).solid_fan_edge_precompute_calls < usize::MAX,
        precomputed_edges matches Ok(n) ==> old(stats).solid_fan_edge_precompute_edges + n
            <= usize::MAX,
        precomputed_edges == Err::<usize, PrecomputeFanEdgesError>(PrecomputeFanEdgesError::Budget)
            ==> old(stats).solid_fan_edge_precompute_fallback_budget < usize::MAX,
        precomputed_edges == Err::<usize, PrecomputeFanEdgesError>(
            PrecomputeFanEdgesError::NonFinite,
        ) ==> old(stats).solid_fan_edge_precompute_fallback_non_finite < usize::MAX,
    ensures
        ({
            let s1 = RasterStats {
                solid_fan_edge_precompute_calls: (old(stats).solid_fan_edge_precompute_calls
                    + 1) as usize,
                ..*old(stats)
            };
            *final(stats) == match precomputed_edges {
                Ok(n) => RasterStats {
                    solid_fan_edge_precompute_edges: (s1.solid_fan_edge_precompute_edges
                        + n) as usize,
                    ..s1
                },
                Err(PrecomputeFanEdgesError::Budget) => RasterStats {
                    solid_fan_edge_precompute_fallback_budget: (
                    s1.solid_fan_edge_precompute_fallback_budget + 1) as usize,
                    ..s1
                },
                Err(PrecomputeFanEdgesError::NonFinite) => RasterStats {
                    solid_fan_edge_precompute_fallback_non_finite: (
                    s1.solid_fan_edge_precompute_fallback_non_finite + 1) as usize,
                    ..s1
                },
            }
        }),
{
    stats.solid_fan_edge_precompute_calls = stats.solid_fan_edge_precompute_calls + 1;
    match precomputed_edges {
        Ok(n) => {
            stats.solid_fan_edge_precompute_edges = stats.solid_fan_edge_precompute_edges + n;
        },
        Err(PrecomputeFanEdgesError::Budget) => {
            stats.solid_fan_edge_precompute_fallback_budget = stats.solid_fan_edge_precompute_fallback_budget
                + 1;
        },
        Err(PrecomputeFanEdgesError::NonFinite) => {
            stats.solid_fan_edge_precompute_fallback_non_finite = stats.solid_fan_edge_precompute_fallback_non_finite
                + 1;
        },
    }
}


// ---------------------------------------------------------------------------
// Building a cache key.
// ---------------------------------------------------------------------------

/// The position keys of the polygon's vertices, when every vertex index names
/// a vertex with a finite position. `vertex_positions[i]` is the key of vertex
/// `i` (the bit patterns of its coordinates, `-0.0` written as `0.0`), or
/// `None` when a coordinate is not finite.
pub open spec fn polygon_position_keys(
    vertex_positions: Seq<Option<(u32, u32)>>,
    polygon: Seq<usize>,
) -> Option<Seq<(u32, u32)>> {
    if forall|i: int|
        0 <= i < polygon.len() ==> #[trigger] polygon[i] < vertex_positions.len()
            && vertex_positions[polygon[i] as int] is Some {
        Some(Seq::new(polygon.len(), |i: int| vertex_positions[polygon[i] as int]->0))
    } else {
        None
    }
}

impl SolidFanSpanCacheKey {
    /// The key of a fan, or `None` when one of its polygon's vertices is
    /// missing or not finite.
    pub fn new(
        vertex_positions: &[Option<(u32, u32)>],
        polygon: &[usize],
        triangle_count: usize,
        clip: ClipBounds,
        bounds: TriangleRasterBounds,
    ) -> (r: Option<Self>)
        ensures
            r is Some <==> polygon_position_keys(vertex_positions@, polygon@) is Some,
            r matches Some(k) ==> k.clip == clip && k.bounds == bounds && k.triangle_count
                == triangle_count && k.positions@ == polygon_position_keys(
                vertex_positions@,
                polygon@,
            )->0,
    {
        let mut positions: Vec<(u32, u32)> = Vec::new();
        let mut i: usize = 0;
        while i < polygon.len()
            invariant
                i <= polygon@.len(),
                positions@.len() == i,
                forall|j: int|
                    0 <= j < i ==> #[trigger] polygon@[j] < vertex_positions@.len()
                        && vertex_positions@[polygon@[j] as int] is Some,
                forall|j: int|
                    0 <= j < i ==> #[trigger] positions@[j] == vertex_positions@[polygon@[
                        j
                    ] as int]->0,
            decreases polygon@.len() - i,
        {
            let vertex_index = polygon[i];
            if vertex_index >= vertex_positions.len() {
                assert(!(polygon@[i as int] < vertex_positions@.len()));
                return None;
            }
            match vertex_positions[vertex_index] {
                Some(pos) => {
                    positions.push(pos);
                },
                None => {
                    assert(vertex_positions@[polygon@[i as int] as int] is None);
                    return None;
                },
            }
            i = i + 1;
        }
        proof {
            let keys = polygon_position_keys(vertex_positions@, polygon@);
            assert(keys is Some);
            assert(positions@ =~= keys->0);
        }
        Some(SolidFanSpanCacheKey { clip, bounds, triangle_count, positions })
    }
}

/// The cache key of an eligible fan, or `None` when the fan is not eligible
/// or has no key.
pub fn solid_fan_span_cache_key_from_eligible(
    vertex_positions: &[Option<(u32, u32)>],
    polygon: &[usize],
    triangle_count: usize,
    clip: ClipBounds,
    bounds: TriangleRasterBounds,
) -> (r: Option<SolidFanSpanCacheKey>)
    requires
        bounds.min_y <= bounds.max_y,
    ensures
        r is Some <==> (bounds.max_y - bounds.min_y <= SOLID_FAN_SPAN_CACHE_MAX_ROWS
            && polygon@.len() <= SOLID_FAN_PRECOMPUTED_EDGE_BUDGET && polygon_position_keys(
            vertex_positions@,
            polygon@,
        ) is Some),
        r matches Some(k) ==> k.clip == clip && k.bounds == bounds && k.triangle_count
            == triangle_count && k.positions@ == polygon_position_keys(
            vertex_positions@,
            polygon@,
        )->0,
{
    if !solid_fan_span_cache_key_eligible(polygon, bounds) {
        return None;
    }
    SolidFanSpanCacheKey::new(vertex_positions, polygon, triangle_count, clip, bounds)
}

/// The cache key for a fan about to be drawn: none when the cache is off;
/// none, counted, when the fan has too many rows; none when it has too many
/// edges; otherwise the fan's key, if it has one.
pub fn solid_fan_span_cache_key(
    cache_enabled: bool,
    vertex_positions: &[Option<(u32, u32)>],
    polygon: &[usize],
    triangle_count: usize,
    clip: ClipBounds,
    bounds: TriangleRasterBounds,
    stats: Option<&mut RasterStats>,
) -> (r: Option<SolidFanSpanCacheKey>)
    requires
        bounds.min_y <= bounds.max_y,
        stats matches Some(st) ==> st.solid_fan_span_cache_rejected_too_many_rows < usize::MAX,
    ensures
        r is Some <==> (cache_enabled && bounds.max_y - bounds.min_y
            <= SOLID_FAN_SPAN_CACHE_MAX_ROWS && polygon@.len() <= SOLID_FAN_PRECOMPUTED_EDGE_BUDGET
            && polygon_position_keys(vertex_positions@, polygon@) is Some),
        r matches Some(k) ==> k.clip == clip && k.bounds == bounds && k.triangle_count
            == triangle_count && k.positions@ == polygon_position_keys(
            vertex_positions@,
            polygon@,
        )->0,
        stats matches Some(st) ==> *final(st) == (if cache_enabled && bounds.max_y - bounds.min_y
            > SOLID_FAN_SPAN_CACHE_MAX_ROWS {
            RasterStats {
                solid_fan_span_cache_rejected_too_many_rows: (
                st.solid_fan_span_cache_rejected_too_many_rows + 1) as usize,
                ..*st
            }
        } else {
            *st
        }),
{
    if !cache_enabled {
        return None;
    }
    match solid_fan_span_cache_key_eligibility(polygon, bounds) {
        SolidFanSpanCacheKeyEligibility::Eligible => {},
        SolidFanSpanCacheKeyEligibility::TooManyRows => {
            match stats {
                Some(st) => {
                    st.solid_fan_span_cache_rejected_too_many_rows = st.solid_fan_span_cache_rejected_too_many_rows
                        + 1;
                },
                None => {},
            }
            return None;
        },
        SolidFanSpanCacheKeyEligibility::TooManyEdges => {
            return None;
        },
    }
    SolidFanSpanCacheKey::new(vertex_positions, polygon, triangle_count, clip, bounds)
}

} // verus!
