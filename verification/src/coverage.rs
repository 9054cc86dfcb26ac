//! Scanline endpoint search for triangle rows.
//!
//! A row of a triangle is scanned for its first and last covered pixel. The
//! per-pixel coverage test itself is floating-point edge arithmetic; here it
//! is handed in as the row's coverage bits, `covered[x]` telling whether the
//! pixel at column `x` lies inside the triangle. The search decides which
//! columns are probed, when a hinted probe window must fall back to the full
//! candidate window, and how many probes each phase spent.
use vstd::prelude::*;
use crate::raster::TriangleRasterBounds;
use crate::raster_stats::RasterStats;

verus! {

/// Probe windows for one triangle row.
#[derive(Clone, Copy, Debug)]
pub struct TriangleRowSearch {
    pub candidate_start_x: usize,
    pub candidate_end_x: usize,
    pub probe_start_x: usize,
    pub probe_end_x: usize,
    pub hinted: bool,
    pub collect_stats: bool,
}

/// Probe windows for one triangle row scanned with incremental edge values.
#[derive(Clone, Copy, Debug)]
pub struct TriangleRowStateSearch {
    pub candidate_start_x: usize,
    pub candidate_end_x: usize,
    pub collect_stats: bool,
}

/// The covered span of a row, `[start, end)`, with the probes spent finding it.
#[derive(Clone, Copy, Debug, PartialEq, Eq)]
pub struct TriangleRowEndpoints {
    pub span: Option<(usize, usize)>,
    pub endpoint_probe_px: usize,
    pub hint_probe_px: usize,
    pub canary_probe_px: usize,
    pub fallback_probe_px: usize,
    pub direct_probe_px: usize,
    pub fell_back: bool,
}

/// The smallest covered column in `[start, end)`.
pub open spec fn first_covered(covered: Seq<bool>, start: int, end: int) -> Option<int>
    decreases end - start,
{
    if start >= end {
        None
    } else if covered[start] {
        Some(start)
    } else {
        first_covered(covered, start + 1, end)
    }
}

/// The largest covered column in `[start, end)`.
pub open spec fn last_covered(covered: Seq<bool>, start: int, end: int) -> Option<int>
    decreases end - start,
{
    if start >= end {
        None
    } else if covered[end - 1] {
        Some(end - 1)
    } else {
        last_covered(covered, start, end - 1)
    }
}

/// Probes a forward scan of `[start, end)` spends: up to and including the
/// first covered column, or the whole window.
pub open spec fn forward_probes(covered: Seq<bool>, start: int, end: int, collect: bool) -> int {
    if !collect {
        0
    } else {
        match first_covered(covered, start, end) {
            Some(x) => x - start + 1,
            None => if end > start { end - start } else { 0 },
        }
    }
}

/// Probes a backward scan of `[start, end)` spends.
pub open spec fn backward_probes(covered: Seq<bool>, start: int, end: int, collect: bool) -> int {
    if !collect {
        0
    } else {
        match last_covered(covered, start, end) {
            Some(x) => end - x,
            None => if end > start { end - start } else { 0 },
        }
    }
}

/// Whether a hinted probe window must be widened to the full candidate window:
/// nothing was found in it, or a column just outside it is covered.
pub open spec fn hint_needs_fallback(search: TriangleRowSearch, covered: Seq<bool>) -> bool {
    let s = search;
    ||| first_covered(covered, s.probe_start_x as int, s.probe_end_x as int) is None
    ||| (s.probe_start_x > s.candidate_start_x && covered[s.probe_start_x - 1])
    ||| (s.probe_end_x < s.candidate_end_x && covered[s.probe_end_x as int])
}

/// Canary probes spent deciding on the fallback.
pub open spec fn canary_probes(search: TriangleRowSearch, covered: Seq<bool>) -> int {
    let s = search;
    if !s.collect_stats || first_covered(covered, s.probe_start_x as int, s.probe_end_x as int) is None {
        0
    } else {
        let before = s.probe_start_x > s.candidate_start_x;
        let before_hit = before && covered[s.probe_start_x - 1];
        let after = s.probe_end_x < s.candidate_end_x;
        (if before { 1int } else { 0int }) + (if !before_hit && after { 1int } else { 0int })
    }
}

/// The span end for a span starting at `start` whose last covered column is `last`.
pub open spec fn span_end(start: int, last: Option<int>) -> int {
    match last {
        Some(x) => if x >= start { x + 1 } else { start + 1 },
        None => start + 1,
    }
}

/// The endpoints of a row, as the hinted search finds them.
pub open spec fn row_endpoints(search: TriangleRowSearch, covered: Seq<bool>) -> TriangleRowEndpoints {
    let s = search;
    let collect = s.collect_stats;
    let first_probe = forward_probes(covered, s.probe_start_x as int, s.probe_end_x as int, collect);
    let fell_back = s.hinted && hint_needs_fallback(s, covered);
    let canary = if s.hinted { canary_probes(s, covered) } else { 0 };
    let hint0 = if s.hinted { first_probe } else { 0 };
    let direct0 = if s.hinted { 0 } else { first_probe };
    let start = if fell_back {
        first_covered(covered, s.candidate_start_x as int, s.candidate_end_x as int)
    } else {
        first_covered(covered, s.probe_start_x as int, s.probe_end_x as int)
    };
    let fallback0 = if fell_back {
        forward_probes(covered, s.candidate_start_x as int, s.candidate_end_x as int, collect)
    } else {
        0
    };
    match start {
        None => TriangleRowEndpoints {
            span: None,
            endpoint_probe_px: (hint0 + canary + fallback0 + direct0) as usize,
            hint_probe_px: hint0 as usize,
            canary_probe_px: canary as usize,
            fallback_probe_px: fallback0 as usize,
            direct_probe_px: direct0 as usize,
            fell_back,
        },
        Some(x) => {
            let (ls, le) = if fell_back {
                (s.candidate_start_x as int, s.candidate_end_x as int)
            } else {
                (s.probe_start_x as int, s.probe_end_x as int)
            };
            let last_probe = backward_probes(covered, ls, le, collect);
            let fallback = if fell_back { fallback0 + last_probe } else { fallback0 };
            let hint = if !fell_back && s.hinted { hint0 + last_probe } else { hint0 };
            let direct = if !fell_back && !s.hinted { direct0 + last_probe } else { direct0 };
            TriangleRowEndpoints {
                span: Some((x as usize, span_end(x, last_covered(covered, ls, le)) as usize)),
                endpoint_probe_px: (hint + canary + fallback + direct) as usize,
                hint_probe_px: hint as usize,
                canary_probe_px: canary as usize,
                fallback_probe_px: fallback as usize,
                direct_probe_px: direct as usize,
                fell_back,
            }
        },
    }
}

/// The endpoints of a row scanned forward over `forward` and backward over
/// `backward`, the coverage bits each incremental scan computes.
pub open spec fn row_state_endpoints(
    search: TriangleRowStateSearch,
    forward: Seq<bool>,
    backward: Seq<bool>,
) -> TriangleRowEndpoints {
    let s = search;
    let (cs, ce) = (s.candidate_start_x as int, s.candidate_end_x as int);
    let first_probe = forward_probes(forward, cs, ce, s.collect_stats);
    match first_covered(forward, cs, ce) {
        None => TriangleRowEndpoints {
            span: None,
            endpoint_probe_px: first_probe as usize,
            hint_probe_px: 0,
            canary_probe_px: 0,
            fallback_probe_px: 0,
            direct_probe_px: first_probe as usize,
            fell_back: false,
        },
        Some(x) => {
            let probes = first_probe + backward_probes(backward, cs, ce, s.collect_stats);
            TriangleRowEndpoints {
                span: Some((x as usize, span_end(x, last_covered(backward, cs, ce)) as usize)),
                endpoint_probe_px: probes as usize,
                hint_probe_px: 0,
                canary_probe_px: 0,
                fallback_probe_px: 0,
                direct_probe_px: probes as usize,
                fell_back: false,
            }
        },
    }
}

proof fn lemma_first_covered_bounds(covered: Seq<bool>, start: int, end: int)
    ensures
        match first_covered(covered, start, end) {
            Some(x) => start <= x < end && covered[x],
            None => true,
        },
    decreases end - start,
{
    if start < end && !covered[start] {
        lemma_first_covered_bounds(covered, start + 1, end);
    }
}

proof fn lemma_last_covered_bounds(covered: Seq<bool>, start: int, end: int)
    ensures
        match last_covered(covered, start, end) {
            Some(x) => start <= x < end && covered[x],
            None => true,
        },
    decreases end - start,
{
    if start < end && !covered[end - 1] {
        lemma_last_covered_bounds(covered, start, end - 1);
    }
}

/// The first covered column in `[start_x, end_x)` and the probes spent.
fn first_covered_x(covered: &[bool], start_x: usize, end_x: usize, collect_stats: bool) -> (r: (
    Option<usize>,
    usize,
))
    requires
        end_x <= covered.len(),
    ensures
        r.0 == (match first_covered(covered@, start_x as int, end_x as int) {
            Some(x) => Some(x as usize),
            None => None::<usize>,
        }),
        r.1 == forward_probes(covered@, start_x as int, end_x as int, collect_stats),
{
    let mut probe_px: usize = 0;
    let mut x: usize = start_x;
    while x < end_x
        invariant
            x >= start_x,
            start_x <= end_x ==> x <= end_x,
            start_x > end_x ==> x == start_x,
            end_x <= covered.len(),
            first_covered(covered@, start_x as int, end_x as int) == first_covered(
                covered@,
                x as int,
                end_x as int,
            ),
            probe_px == (if collect_stats { x - start_x } else { 0 }),
        decreases end_x - x,
    {
        if collect_stats {
            probe_px += 1;
        }
        if covered[x] {
            return (Some(x), probe_px);
        }
        x += 1;
    }
    (None, probe_px)
}

/// The last covered column in `[start_x, end_x)` and the probes spent.
fn last_covered_x(covered: &[bool], start_x: usize, end_x: usize, collect_stats: bool) -> (r: (
    Option<usize>,
    usize,
))
    requires
        end_x <= covered.len(),
    ensures
        r.0 == (match last_covered(covered@, start_x as int, end_x as int) {
            Some(x) => Some(x as usize),
            None => None::<usize>,
        }),
        r.1 == backward_probes(covered@, start_x as int, end_x as int, collect_stats),
{
    let mut probe_px: usize = 0;
    let mut x: usize = end_x;
    while x > start_x
        invariant
            x <= end_x,
            end_x <= covered.len(),
            start_x <= end_x ==> x >= start_x,
            start_x > end_x ==> x == end_x,
            last_covered(covered@, start_x as int, end_x as int) == last_covered(
                covered@,
                start_x as int,
                x as int,
            ),
            probe_px == (if collect_stats { end_x - x } else { 0 }),
        decreases x,
    {
        if collect_stats {
            probe_px += 1;
        }
        if covered[x - 1] {
            return (Some(x - 1), probe_px);
        }
        x -= 1;
    }
    (None, probe_px)
}

/// Whether the hinted window must fall back, counting canary probes into
/// `endpoint_probe_px`.
fn triangle_hint_needs_fallback(
    search: &TriangleRowSearch,
    covered: &[bool],
    span_start: Option<usize>,
    endpoint_probe_px: &mut usize,
) -> (r: bool)
    requires
        search.probe_start_x <= covered.len(),
        search.probe_end_x <= covered.len(),
        search.candidate_end_x <= covered.len(),
        span_start is None <==> first_covered(
            covered@,
            search.probe_start_x as int,
            search.probe_end_x as int,
        ) is None,
        *old(endpoint_probe_px) <= 2,
    ensures
        r == hint_needs_fallback(*search, covered@),
        *final(endpoint_probe_px) == *old(endpoint_probe_px) + canary_probes(*search, covered@),
{
    if span_start.is_none() {
        return true;
    }
    if search.probe_start_x > search.candidate_start_x {
        if search.collect_stats {
            *endpoint_probe_px += 1;
        }
        if covered[search.probe_start_x - 1] {
            return true;
        }
    }
    if search.probe_end_x < search.candidate_end_x {
        if search.collect_stats {
            *endpoint_probe_px += 1;
        }
        if covered[search.probe_end_x] {
            return true;
        }
    }
    false
}

/// Finds the covered span of one row: the first covered column of the probe
/// window, widened to the candidate window when the hint proves unreliable,
/// and the last covered column of the same window.
pub fn triangle_row_endpoints(search: TriangleRowSearch, covered: &[bool]) -> (r:
    TriangleRowEndpoints)
    requires
        search.candidate_end_x <= covered.len(),
        search.probe_start_x <= covered.len(),
        search.probe_end_x <= covered.len(),
        covered.len() <= usize::MAX / 4,
    ensures
        r == row_endpoints(search, covered@),
{
    proof {
        lemma_first_covered_bounds(covered@, search.probe_start_x as int, search.probe_end_x as int);
        lemma_first_covered_bounds(
            covered@,
            search.candidate_start_x as int,
            search.candidate_end_x as int,
        );
        lemma_last_covered_bounds(covered@, search.probe_start_x as int, search.probe_end_x as int);
        lemma_last_covered_bounds(
            covered@,
            search.candidate_start_x as int,
            search.candidate_end_x as int,
        );
    }
    let (mut span_start, first_probe_px) = first_covered_x(
        covered,
        search.probe_start_x,
        search.probe_end_x,
        search.collect_stats,
    );
    let mut hint_probe_px: usize = 0;
    let mut canary_probe_px: usize = 0;
    let mut fallback_probe_px: usize = 0;
    let mut direct_probe_px: usize = 0;
    if search.hinted {
        hint_probe_px += first_probe_px;
    } else {
        direct_probe_px += first_probe_px;
    }
    let mut fell_back = false;
    if search.hinted {
        fell_back = triangle_hint_needs_fallback(&search, covered, span_start, &mut canary_probe_px);
        if fell_back {
            let (fallback_span_start, fallback_first_probe_px) = first_covered_x(
                covered,
                search.candidate_start_x,
                search.candidate_end_x,
                search.collect_stats,
            );
            fallback_probe_px += fallback_first_probe_px;
            span_start = fallback_span_start;
        }
    }
    let span_start = match span_start {
        Some(x) => x,
        None => {
            return TriangleRowEndpoints {
                span: None,
                endpoint_probe_px: hint_probe_px + canary_probe_px + fallback_probe_px
                    + direct_probe_px,
                hint_probe_px,
                canary_probe_px,
                fallback_probe_px,
                direct_probe_px,
                fell_back,
            };
        },
    };
    let (last_start_x, last_end_x) = if fell_back {
        (search.candidate_start_x, search.candidate_end_x)
    } else {
        (search.probe_start_x, search.probe_end_x)
    };
    let (last_x, last_probe_px) = last_covered_x(
        covered,
        last_start_x,
        last_end_x,
        search.collect_stats,
    );
    if fell_back {
        fallback_probe_px += last_probe_px;
    } else if search.hinted {
        hint_probe_px += last_probe_px;
    } else {
        direct_probe_px += last_probe_px;
    }
    let span_end = match last_x {
        Some(last_x) => if last_x >= span_start {
            last_x + 1
        } else {
            span_start + 1
        },
        None => span_start + 1,
    };
    TriangleRowEndpoints {
        span: Some((span_start, span_end)),
        endpoint_probe_px: hint_probe_px + canary_probe_px + fallback_probe_px + direct_probe_px,
        hint_probe_px,
        canary_probe_px,
        fallback_probe_px,
        direct_probe_px,
        fell_back,
    }
}

/// Finds the covered span of one row from the coverage bits of a forward and
/// a backward incremental scan of the candidate window.
pub fn triangle_row_state_endpoints(
    search: TriangleRowStateSearch,
    forward: &[bool],
    backward: &[bool],
) -> (r: TriangleRowEndpoints)
    requires
        search.candidate_end_x <= forward.len(),
        search.candidate_end_x <= backward.len(),
        forward.len() <= usize::MAX / 4,
    ensures
        r == row_state_endpoints(search, forward@, backward@),
{
    proof {
        lemma_first_covered_bounds(
            forward@,
            search.candidate_start_x as int,
            search.candidate_end_x as int,
        );
        lemma_last_covered_bounds(
            backward@,
            search.candidate_start_x as int,
            search.candidate_end_x as int,
        );
    }
    let (span_start, first_probe_px) = first_covered_x(
        forward,
        search.candidate_start_x,
        search.candidate_end_x,
        search.collect_stats,
    );
    let span_start = match span_start {
        Some(x) => x,
        None => {
            return TriangleRowEndpoints {
                span: None,
                endpoint_probe_px: first_probe_px,
                hint_probe_px: 0,
                canary_probe_px: 0,
                fallback_probe_px: 0,
                direct_probe_px: first_probe_px,
                fell_back: false,
            };
        },
    };
    let (last_x, last_probe_px) = last_covered_x(
        backward,
        search.candidate_start_x,
        search.candidate_end_x,
        search.collect_stats,
    );
    let span_end = match last_x {
        Some(last_x) => if last_x >= span_start {
            last_x + 1
        } else {
            span_start + 1
        },
        None => span_start + 1,
    };
    let endpoint_probe_px = first_probe_px + last_probe_px;
    TriangleRowEndpoints {
        span: Some((span_start, span_end)),
        endpoint_probe_px,
        hint_probe_px: 0,
        canary_probe_px: 0,
        fallback_probe_px: 0,
        direct_probe_px: endpoint_probe_px,
        fell_back: false,
    }
}

spec fn max_int(x: int, y: int) -> int {
    if x >= y { x } else { y }
}

spec fn min_int(x: int, y: int) -> int {
    if x <= y { x } else { y }
}

/// The first covered column of `[start, end)` when the covered columns around
/// it form the run `[a, b)`.
proof fn lemma_first_covered_of_run(covered: Seq<bool>, start: int, end: int, lo: int, hi: int, a: int, b: int)
    requires
        lo <= start <= end <= hi,
        forall|x: int| lo <= x < hi ==> (covered[x] <==> a <= x < b),
    ensures
        first_covered(covered, start, end) == (if max_int(start, a) < min_int(end, b) {
            Some(max_int(start, a))
        } else {
            None::<int>
        }),
    decreases end - start,
{
    if start < end && !covered[start] {
        lemma_first_covered_of_run(covered, start + 1, end, lo, hi, a, b);
    }
}

/// The last covered column of `[start, end)` when the covered columns around
/// it form the run `[a, b)`.
proof fn lemma_last_covered_of_run(covered: Seq<bool>, start: int, end: int, lo: int, hi: int, a: int, b: int)
    requires
        lo <= start <= end <= hi,
        forall|x: int| lo <= x < hi ==> (covered[x] <==> a <= x < b),
    ensures
        last_covered(covered, start, end) == (if max_int(start, a) < min_int(end, b) {
            Some(min_int(end, b) - 1)
        } else {
            None::<int>
        }),
    decreases end - start,
{
    if start < end && !covered[end - 1] {
        lemma_last_covered_of_run(covered, start, end - 1, lo, hi, a, b);
    }
}

/// A row of a convex shape covers one run of columns. For such a row the
/// search finds exactly that run, whether it scans the candidate window
/// directly or starts from any hinted probe window inside it: the canary
/// probes catch every hint that cuts the run short.
pub proof fn lemma_row_search_finds_covered_run(
    search: TriangleRowSearch,
    covered: Seq<bool>,
    a: int,
    b: int,
)
    requires
        search.candidate_start_x <= search.probe_start_x <= search.probe_end_x
            <= search.candidate_end_x <= covered.len(),
        search.candidate_start_x <= a <= b <= search.candidate_end_x,
        forall|x: int|
            search.candidate_start_x <= x < search.candidate_end_x ==> (#[trigger] covered[x]
                <==> a <= x < b),
        search.hinted || (search.probe_start_x == search.candidate_start_x
            && search.probe_end_x == search.candidate_end_x),
    ensures
        row_endpoints(search, covered).span == (if a < b {
            Some((a as usize, b as usize))
        } else {
            None::<(usize, usize)>
        }),
{
    let s = search;
    let (cs, ce, ps, pe) = (
        s.candidate_start_x as int,
        s.candidate_end_x as int,
        s.probe_start_x as int,
        s.probe_end_x as int,
    );
    lemma_first_covered_of_run(covered, ps, pe, cs, ce, a, b);
    lemma_last_covered_of_run(covered, ps, pe, cs, ce, a, b);
    lemma_first_covered_of_run(covered, cs, ce, cs, ce, a, b);
    lemma_last_covered_of_run(covered, cs, ce, cs, ce, a, b);
    if s.hinted && !hint_needs_fallback(s, covered) {
        if ps > cs {
            assert(!covered[ps - 1]);
        }
        if pe < ce {
            assert(!covered[pe]);
        }
    }
}

proof fn lemma_probe_counts_bounded(covered: Seq<bool>, start: int, end: int, collect: bool)
    ensures
        0 <= forward_probes(covered, start, end, collect) <= (if end > start {
            end - start
        } else {
            0
        }),
        0 <= backward_probes(covered, start, end, collect) <= (if end > start {
            end - start
        } else {
            0
        }),
{
    lemma_first_covered_bounds(covered, start, end);
    lemma_last_covered_bounds(covered, start, end);
}

/// The unhinted search over the whole window `[start_x, end_x)`.
pub open spec fn direct_search(start_x: usize, end_x: usize) -> TriangleRowSearch {
    TriangleRowSearch {
        candidate_start_x: start_x,
        candidate_end_x: end_x,
        probe_start_x: start_x,
        probe_end_x: end_x,
        hinted: false,
        collect_stats: true,
    }
}

/// Whether a row scan that found `scan_runs` runs, the first being
/// `scan_span`, agrees with the endpoint search's span.
pub open spec fn scan_matches_endpoints(
    scan_runs: usize,
    scan_span: Option<(usize, usize)>,
    span: Option<(usize, usize)>,
) -> bool {
    if scan_runs == 0 {
        span is None
    } else if scan_runs == 1 {
        span == scan_span
    } else {
        false
    }
}

/// The counters after comparing one white constant-texel row's scan with the
/// endpoint search over the same window.
pub open spec fn after_white_endpoint_row(
    s: RasterStats,
    e: TriangleRowEndpoints,
    scan_runs: usize,
    scan_span: Option<(usize, usize)>,
) -> RasterStats {
    let s1 = RasterStats {
        constant_texel_textured_triangle_white_endpoint_rows: (
        s.constant_texel_textured_triangle_white_endpoint_rows + 1) as usize,
        constant_texel_textured_triangle_white_endpoint_probe_px: (
        s.constant_texel_textured_triangle_white_endpoint_probe_px + e.endpoint_probe_px) as usize,
        constant_texel_textured_triangle_white_scan_runs: (
        s.constant_texel_textured_triangle_white_scan_runs + scan_runs) as usize,
        ..s
    };
    let s2 = match e.span {
        Some((a, b)) => RasterStats {
            constant_texel_textured_triangle_white_endpoint_span_px: (
            s1.constant_texel_textured_triangle_white_endpoint_span_px + (b - a)) as usize,
            ..s1
        },
        None => RasterStats {
            constant_texel_textured_triangle_white_endpoint_empty_rows: (
            s1.constant_texel_textured_triangle_white_endpoint_empty_rows + 1) as usize,
            ..s1
        },
    };
    let s3 = if scan_matches_endpoints(scan_runs, scan_span, e.span) {
        RasterStats {
            constant_texel_textured_triangle_white_endpoint_match_rows: (
            s2.constant_texel_textured_triangle_white_endpoint_match_rows + 1) as usize,
            ..s2
        }
    } else {
        RasterStats {
            constant_texel_textured_triangle_white_endpoint_mismatch_rows: (
            s2.constant_texel_textured_triangle_white_endpoint_mismatch_rows + 1) as usize,
            ..s2
        }
    };
    if scan_runs > 1 {
        RasterStats {
            constant_texel_textured_triangle_white_scan_multi_run_rows: (
            s3.constant_texel_textured_triangle_white_scan_multi_run_rows + 1) as usize,
            ..s3
        }
    } else {
        s3
    }
}

/// Checks one row of a white constant-texel triangle: the runs a pixel scan
/// found (`scan_result`: how many, and the first) against the span the
/// endpoint search finds over the same window, and counts the outcome.
pub fn record_white_constant_texel_endpoint_row(
    stats: &mut RasterStats,
    covered: &[bool],
    x_range: (usize, usize),
    scan_result: (usize, Option<(usize, usize)>),
)
    requires
        x_range.1 <= covered.len() <= usize::MAX / 4,
        x_range.0 <= covered.len(),
        old(stats).constant_texel_textured_triangle_white_endpoint_rows < usize::MAX,
        old(stats).constant_texel_textured_triangle_white_endpoint_probe_px + 2 * covered.len()
            <= usize::MAX,
        old(stats).constant_texel_textured_triangle_white_scan_runs + scan_result.0 <= usize::MAX,
        old(stats).constant_texel_textured_triangle_white_endpoint_span_px + covered.len()
            <= usize::MAX,
        old(stats).constant_texel_textured_triangle_white_endpoint_empty_rows < usize::MAX,
        old(stats).constant_texel_textured_triangle_white_endpoint_match_rows < usize::MAX,
        old(stats).constant_texel_textured_triangle_white_endpoint_mismatch_rows < usize::MAX,
        old(stats).constant_texel_textured_triangle_white_scan_multi_run_rows < usize::MAX,
    ensures
        *final(stats) == after_white_endpoint_row(
            *old(stats),
            row_endpoints(direct_search(x_range.0, x_range.1), covered@),
            scan_result.0,
            scan_result.1,
        ),
{
    let (start_x, end_x) = x_range;
    let (scan_runs, scan_span) = scan_result;
    proof {
        lemma_probe_counts_bounded(covered@, start_x as int, end_x as int, true);
        lemma_first_covered_bounds(covered@, start_x as int, end_x as int);
        lemma_last_covered_bounds(covered@, start_x as int, end_x as int);
    }
    let endpoints = triangle_row_endpoints(
        TriangleRowSearch {
            candidate_start_x: start_x,
            candidate_end_x: end_x,
            probe_start_x: start_x,
            probe_end_x: end_x,
            hinted: false,
            collect_stats: true,
        },
        covered,
    );
    stats.constant_texel_textured_triangle_white_endpoint_rows = stats.constant_texel_textured_triangle_white_endpoint_rows
        + 1;
    stats.constant_texel_textured_triangle_white_endpoint_probe_px = stats.constant_texel_textured_triangle_white_endpoint_probe_px
        + endpoints.endpoint_probe_px;
    stats.constant_texel_textured_triangle_white_scan_runs = stats.constant_texel_textured_triangle_white_scan_runs
        + scan_runs;
    match endpoints.span {
        Some((endpoint_start, endpoint_end)) => {
            stats.constant_texel_textured_triangle_white_endpoint_span_px = stats.constant_texel_textured_triangle_white_endpoint_span_px
                + (endpoint_end - endpoint_start);
        },
        None => {
            stats.constant_texel_textured_triangle_white_endpoint_empty_rows = stats.constant_texel_textured_triangle_white_endpoint_empty_rows
                + 1;
        },
    }
    let matches = if scan_runs == 0 {
        endpoints.span.is_none()
    } else if scan_runs == 1 {
        match (endpoints.span, scan_span) {
            (Some(a), Some(b)) => a.0 == b.0 && a.1 == b.1,
            (None, None) => true,
            _ => false,
        }
    } else {
        false
    };
    if matches {
        stats.constant_texel_textured_triangle_white_endpoint_match_rows = stats.constant_texel_textured_triangle_white_endpoint_match_rows
            + 1;
    } else {
        stats.constant_texel_textured_triangle_white_endpoint_mismatch_rows = stats.constant_texel_textured_triangle_white_endpoint_mismatch_rows
            + 1;
    }
    if scan_runs > 1 {
        stats.constant_texel_textured_triangle_white_scan_multi_run_rows = stats.constant_texel_textured_triangle_white_scan_multi_run_rows
            + 1;
    }
}

// ---------------------------------------------------------------------------
// Correcting the endpoints of a polygon span.
// ---------------------------------------------------------------------------

/// How far each end of a span may move inward before the span is given up.
pub const MAX_ENDPOINT_CORRECTION_PX: usize = 2;

/// Moving the start of `[start, end)` right past uncovered columns, at most
/// `MAX_ENDPOINT_CORRECTION_PX - moved` more times: the new start and the
/// probes spent.
pub open spec fn advance_start(covered: Seq<bool>, start: int, end: int, moved: int) -> (int, int)
    decreases MAX_ENDPOINT_CORRECTION_PX - moved,
{
    if start >= end {
        (start, 0)
    } else if covered[start] || moved >= MAX_ENDPOINT_CORRECTION_PX {
        (start, 1)
    } else {
        let (s, p) = advance_start(covered, start + 1, end, moved + 1);
        (s, p + 1)
    }
}

/// Moving the end of `[start, end)` left past uncovered columns.
pub open spec fn retreat_end(covered: Seq<bool>, start: int, end: int, moved: int) -> (int, int)
    decreases MAX_ENDPOINT_CORRECTION_PX - moved,
{
    if start >= end {
        (end, 0)
    } else if covered[end - 1] || moved >= MAX_ENDPOINT_CORRECTION_PX {
        (end, 1)
    } else {
        let (e, p) = retreat_end(covered, start, end - 1, moved + 1);
        (e, p + 1)
    }
}

/// The corrected span and the probes spent (counted when `collect`): each end
/// moves inward past at most two uncovered columns; a span whose end column
/// is still uncovered after that is emptied; a kept span is checked against
/// its outside neighbours within `bounds`.
pub open spec fn corrected_span(
    covered: Seq<bool>,
    span: (usize, usize),
    bounds: TriangleRasterBounds,
    collect: bool,
) -> ((usize, usize), usize) {
    let c = if collect { 1int } else { 0int };
    let (s, p1) = advance_start(covered, span.0 as int, span.1 as int, 0);
    let e0 = span.1 as int;
    if s < e0 && !covered[s] {
        ((s as usize, s as usize), (c * (p1 + 1)) as usize)
    } else {
        let p_left = if s < e0 { p1 + 1 } else { p1 };
        let (e, p2) = retreat_end(covered, s, e0, 0);
        if s < e && !covered[e - 1] {
            ((s as usize, s as usize), (c * (p_left + p2 + 1)) as usize)
        } else {
            let p_right = if s < e { p2 + 1 } else { p2 };
            let outer = (if s > bounds.min_x { 1int } else { 0int }) + (if e < bounds.max_x {
                1int
            } else {
                0int
            });
            ((s as usize, e as usize), (c * (p_left + p_right + outer)) as usize)
        }
    }
}

proof fn lemma_advance_start_bounds(covered: Seq<bool>, start: int, end: int, moved: int)
    requires
        0 <= moved <= MAX_ENDPOINT_CORRECTION_PX,
    ensures
        ({
            let (s, p) = advance_start(covered, start, end, moved);
            &&& start <= s
            &&& s <= start + (MAX_ENDPOINT_CORRECTION_PX - moved)
            &&& (start < end ==> s <= end)
            &&& 0 <= p <= MAX_ENDPOINT_CORRECTION_PX - moved + 1
            &&& (s < end ==> (covered[s] || s == start + (MAX_ENDPOINT_CORRECTION_PX - moved)))
            &&& (s >= end ==> s == end || start >= end)
        }),
    decreases MAX_ENDPOINT_CORRECTION_PX - moved,
{
    if start < end && !covered[start] && moved < MAX_ENDPOINT_CORRECTION_PX {
        lemma_advance_start_bounds(covered, start + 1, end, moved + 1);
    }
}

proof fn lemma_retreat_end_bounds(covered: Seq<bool>, start: int, end: int, moved: int)
    requires
        0 <= moved <= MAX_ENDPOINT_CORRECTION_PX,
    ensures
        ({
            let (e, p) = retreat_end(covered, start, end, moved);
            &&& e <= end
            &&& end - (MAX_ENDPOINT_CORRECTION_PX - moved) <= e
            &&& (start < end ==> start <= e)
            &&& 0 <= p <= MAX_ENDPOINT_CORRECTION_PX - moved + 1
            &&& (start < e ==> (covered[e - 1] || e == end - (MAX_ENDPOINT_CORRECTION_PX - moved)))
        }),
    decreases MAX_ENDPOINT_CORRECTION_PX - moved,
{
    if start < end && !covered[end - 1] && moved < MAX_ENDPOINT_CORRECTION_PX {
        lemma_retreat_end_bounds(covered, start, end - 1, moved + 1);
    }
}

/// Probes the pixel at column `x`, counting the probe when `collect_stats`.
fn polygon_endpoint_probe(covered: &[bool], x: usize, collect_stats: bool, probe_px: &mut usize) -> (r:
    bool)
    requires
        x < covered.len(),
        *old(probe_px) < usize::MAX,
    ensures
        r == covered@[x as int],
        *final(probe_px) == *old(probe_px) + (if collect_stats {
            1int
        } else {
            0int
        }),
{
    if collect_stats {
        *probe_px = *probe_px + 1;
    }
    covered[x]
}

/// Corrects the ends of a polygon's scanline span against the row's coverage
/// bits, and returns the probes spent.
pub fn polygon_correct_span_endpoints(
    span: &mut (usize, usize),
    covered: &[bool],
    bounds: TriangleRasterBounds,
    collect_stats: bool,
) -> (probe_px: usize)
    requires
        old(span).0 <= covered.len(),
        old(span).1 <= covered.len(),
        bounds.max_x <= covered.len(),
    ensures
        (*final(span), probe_px) == corrected_span(covered@, *old(span), bounds, collect_stats),
{
    let ghost s0 = span.0 as int;
    let ghost e0 = span.1 as int;
    let ghost c: int = if collect_stats { 1 } else { 0 };
    let mut probe_px: usize = 0;
    let mut correction_px: usize = 0;
    proof {
        lemma_advance_start_bounds(covered@, s0, e0, 0);
    }
    while span.0 < span.1 && !polygon_endpoint_probe(
        covered,
        span.0,
        collect_stats,
        &mut probe_px,
    ) && correction_px < MAX_ENDPOINT_CORRECTION_PX
        invariant
            span.1 == e0,
            e0 <= covered.len(),
            s0 <= span.0,
            correction_px <= MAX_ENDPOINT_CORRECTION_PX,
            span.0 == s0 + correction_px,
            advance_start(covered@, s0, e0, 0) == ({
                let (s, p) = advance_start(covered@, span.0 as int, e0, correction_px as int);
                (s, p + correction_px)
            }),
            probe_px == c * correction_px,
            c == (if collect_stats { 1int } else { 0int }),
        decreases MAX_ENDPOINT_CORRECTION_PX - correction_px,
    {
        span.0 = span.0 + 1;
        correction_px = correction_px + 1;
    }
    let ghost (s_adv, p1) = advance_start(covered@, s0, e0, 0);
    assert(span.0 == s_adv);
    assert(probe_px == c * p1);
    if span.0 < span.1 && !polygon_endpoint_probe(covered, span.0, collect_stats, &mut probe_px) {
        span.1 = span.0;
        return probe_px;
    }
    let ghost p_left = probe_px;
    correction_px = 0;
    proof {
        lemma_retreat_end_bounds(covered@, s_adv, e0, 0);
    }
    while span.0 < span.1 && !polygon_endpoint_probe(
        covered,
        span.1 - 1,
        collect_stats,
        &mut probe_px,
    ) && correction_px < MAX_ENDPOINT_CORRECTION_PX
        invariant
            span.0 == s_adv,
            e0 <= covered.len(),
            correction_px <= MAX_ENDPOINT_CORRECTION_PX,
            span.1 == e0 - correction_px,
            retreat_end(covered@, s_adv, e0, 0) == ({
                let (e, p) = retreat_end(covered@, s_adv, span.1 as int, correction_px as int);
                (e, p + correction_px)
            }),
            probe_px == p_left + c * correction_px,
            p_left <= 4,
            c == (if collect_stats { 1int } else { 0int }),
        decreases MAX_ENDPOINT_CORRECTION_PX - correction_px,
    {
        span.1 = span.1 - 1;
        correction_px = correction_px + 1;
    }
    if span.0 < span.1 && !polygon_endpoint_probe(covered, span.1 - 1, collect_stats, &mut probe_px) {
        span.1 = span.0;
        return probe_px;
    }
    if span.0 > bounds.min_x {
        let _ = polygon_endpoint_probe(covered, span.0 - 1, collect_stats, &mut probe_px);
    }
    if span.1 < bounds.max_x {
        let _ = polygon_endpoint_probe(covered, span.1, collect_stats, &mut probe_px);
    }
    probe_px
}

/// A corrected span lies inside the span it came from, each end having moved
/// inward by at most two columns, and it is either empty or starts and ends
/// on covered columns.
pub proof fn lemma_corrected_span_is_covered_at_both_ends(
    covered: Seq<bool>,
    span: (usize, usize),
    bounds: TriangleRasterBounds,
    collect: bool,
)
    requires
        span.0 <= span.1 <= covered.len(),
    ensures
        ({
            let r = corrected_span(covered, span, bounds, collect).0;
            &&& span.0 <= r.0 <= r.1 <= span.1
            &&& r.0 <= span.0 + MAX_ENDPOINT_CORRECTION_PX
            &&& r.0 < r.1 ==> covered[r.0 as int] && covered[r.1 - 1] && r.1
                + MAX_ENDPOINT_CORRECTION_PX >= span.1
        }),
{
    let (s, p1) = advance_start(covered, span.0 as int, span.1 as int, 0);
    lemma_advance_start_bounds(covered, span.0 as int, span.1 as int, 0);
    lemma_retreat_end_bounds(covered, s, span.1 as int, 0);
}

/// The end of the run of covered columns starting at `x`, within `[x, end)`.
pub open spec fn covered_run_end(covered: Seq<bool>, x: int, end: int) -> int
    decreases end - x,
{
    if x >= end || !covered[x] {
        x
    } else {
        covered_run_end(covered, x + 1, end)
    }
}

/// The first run of covered columns of a row within `bounds`, found by
/// testing every column: the fallback when a polygon's edge intersections
/// cannot be trusted.
pub fn polygon_fallback_scanline_span(covered: &[bool], bounds: TriangleRasterBounds) -> (r: Option<
    (usize, usize),
>)
    requires
        bounds.max_x <= covered.len(),
    ensures
        r == (match first_covered(covered@, bounds.min_x as int, bounds.max_x as int) {
            Some(a) => Some(
                (a as usize, covered_run_end(covered@, a, bounds.max_x as int) as usize),
            ),
            None => None::<(usize, usize)>,
        }),
{
    let mut span_start: Option<usize> = None;
    let mut span_end: Option<usize> = None;
    let mut x: usize = bounds.min_x;
    let mut done = false;
    while x < bounds.max_x && !done
        invariant
            bounds.max_x <= covered.len(),
            bounds.min_x <= x,
            bounds.min_x <= bounds.max_x ==> x <= bounds.max_x,
            bounds.min_x > bounds.max_x ==> x == bounds.min_x,
            span_start is None ==> span_end is None && !done && first_covered(
                covered@,
                bounds.min_x as int,
                bounds.max_x as int,
            ) == first_covered(covered@, x as int, bounds.max_x as int),
            span_start matches Some(a) ==> first_covered(
                covered@,
                bounds.min_x as int,
                bounds.max_x as int,
            ) == Some(a as int) && a < x && span_end is Some && covered_run_end(
                covered@,
                a as int,
                bounds.max_x as int,
            ) == (if done {
                span_end->0 as int
            } else {
                covered_run_end(covered@, x as int, bounds.max_x as int)
            }) && (!done ==> span_end->0 == x),
        decreases bounds.max_x - x + (if done {
            0int
        } else {
            1int
        }),
    {
        if covered[x] {
            if span_start.is_none() {
                span_start = Some(x);
            }
            span_end = Some(x + 1);
            x = x + 1;
        } else if span_start.is_some() {
            done = true;
        } else {
            x = x + 1;
        }
    }
    match (span_start, span_end) {
        (Some(a), Some(b)) => Some((a, b)),
        _ => None,
    }
}

} // verus!
