//! Detecting triangle fans in an index list.
//!
//! A fan is a run of consecutive triangles that share one center vertex and
//! each share a boundary vertex with the one before, turning the same way.
//! The probe walks the triangles from a starting offset, for a chosen center
//! slot of the first triangle, and stops at the first triangle that does not
//! continue the fan.
//!
//! What the walk reads of a triangle that takes floating point to compute
//! (whether its positions are finite, the sign of its area, its solid color)
//! comes in with the triangle; positions are compared through keys that are
//! equal exactly when the positions compare equal.
use vstd::prelude::*;
use crate::renderer_stats::{
    SolidFanProbeRejectReason, SolidFanProbeStats, after_reject, max_usize, reject_count,
    record_scratch_overflow,
};

verus! {

/// A fan needs at least this many triangles.
pub const SOLID_FAN_MIN_TRIANGLES: usize = 4;

/// One corner of a triangle: its index value, the vertex it names, and the
/// key of that vertex's position.
#[derive(Clone, Copy, Debug, PartialEq, Eq)]
pub struct FanVertex {
    pub index: u32,
    pub vertex_index: usize,
    pub pos: (u32, u32),
}

/// One triangle of the index list, with the facts about its positions that
/// the probe reads: whether all are finite, the sign of its area (`None` when
/// the area is too small to tell), and its solid color under the current
/// texture and clip (`None` when it has none).
#[derive(Clone, Copy, Debug, PartialEq, Eq)]
pub struct FanTriangle {
    pub vertices: [FanVertex; 3],
    pub finite: bool,
    pub area_sign: Option<i8>,
    pub solid_color: Option<[u8; 4]>,
}

/// A boundary vertex as remembered by the walk: index value and position.
#[derive(Clone, Copy, Debug, PartialEq, Eq)]
pub struct FanBoundaryKey {
    pub index: u32,
    pub pos: (u32, u32),
}

/// A fan found by the walk.
#[derive(Clone, Copy, Debug, PartialEq, Eq)]
pub struct FanCandidate {
    pub center_slot: usize,
    pub center_index: u32,
    pub center_pos: (u32, u32),
    pub center_vertex_index: usize,
    pub triangle_count: usize,
}

/// What the first triangle fixes for the walk.
#[derive(Clone, Copy, Debug, PartialEq, Eq)]
pub struct CheapFanSeed {
    pub center_index: u32,
    pub center_pos: (u32, u32),
    pub center_vertex_index: usize,
    pub previous_boundary: FanVertex,
    pub current_boundary: FanVertex,
    pub expected_area_sign: i8,
}

pub open spec fn spec_same_vertex(a: FanVertex, b: FanVertex) -> bool {
    a.index == b.index && a.pos == b.pos
}

pub open spec fn boundary_key(v: FanVertex) -> FanBoundaryKey {
    FanBoundaryKey { index: v.index, pos: v.pos }
}

/// The two corners other than the center slot, in slot order.
pub open spec fn spec_fan_boundaries(t: FanTriangle, center_slot: int) -> (FanVertex, FanVertex) {
    if center_slot == 0 {
        (t.vertices[1], t.vertices[2])
    } else if center_slot == 1 {
        (t.vertices[0], t.vertices[2])
    } else {
        (t.vertices[0], t.vertices[1])
    }
}

/// The boundary on the far side of `current`, if `current` is one of the two.
pub open spec fn spec_next_boundary(b: (FanVertex, FanVertex), current: FanVertex) -> Option<
    FanVertex,
> {
    if spec_same_vertex(b.0, current) {
        Some(b.1)
    } else if spec_same_vertex(b.1, current) {
        Some(b.0)
    } else {
        None
    }
}

pub open spec fn is_center(v: FanVertex, center_index: u32, center_pos: (u32, u32)) -> bool {
    v.index == center_index && v.pos == center_pos
}

/// The first slot of `t` that holds the center.
pub open spec fn spec_center_slot(t: FanTriangle, center_index: u32, center_pos: (u32, u32)) -> Option<
    int,
> {
    if is_center(t.vertices[0], center_index, center_pos) {
        Some(0)
    } else if is_center(t.vertices[1], center_index, center_pos) {
        Some(1)
    } else if is_center(t.vertices[2], center_index, center_pos) {
        Some(2)
    } else {
        None
    }
}

/// Comparisons a linear search of `seen` for `key` makes.
pub open spec fn seen_comparisons(seen: Seq<FanBoundaryKey>, key: FanBoundaryKey) -> int {
    match seen.index_of_first(key) {
        Some(i) => i + 1,
        None => seen.len() as int,
    }
}

pub open spec fn spec_from_scan(seed: CheapFanSeed, center_slot: usize, triangle_count: usize) -> FanCandidate {
    FanCandidate {
        center_slot,
        center_index: seed.center_index,
        center_pos: seed.center_pos,
        center_vertex_index: seed.center_vertex_index,
        triangle_count,
    }
}

fn same_fan_vertex(left: FanVertex, right: FanVertex) -> (r: bool)
    ensures
        r == spec_same_vertex(left, right),
{
    left.index == right.index && left.pos.0 == right.pos.0 && left.pos.1 == right.pos.1
}

impl From<FanVertex> for FanBoundaryKey {
    /// The key of a boundary vertex.
    fn from(vertex: FanVertex) -> (r: Self) {
        FanBoundaryKey { index: vertex.index, pos: vertex.pos }
    }
}

impl vstd::std_specs::convert::FromSpecImpl<FanVertex> for FanBoundaryKey {
    open spec fn obeys_from_spec() -> bool {
        true
    }

    open spec fn from_spec(vertex: FanVertex) -> Self {
        boundary_key(vertex)
    }
}

impl FanCandidate {
    /// The candidate a walk from `seed` accepted after `triangle_count` triangles.
    pub fn from_scan(seed: &CheapFanSeed, center_slot: usize, triangle_count: usize) -> (r: Self)
        ensures
            r == spec_from_scan(*seed, center_slot, triangle_count),
    {
        FanCandidate {
            center_slot,
            center_index: seed.center_index,
            center_pos: seed.center_pos,
            center_vertex_index: seed.center_vertex_index,
            triangle_count,
        }
    }
}

/// The two corners of `triangle` other than `center_slot`.
pub fn fan_boundaries(triangle: &FanTriangle, center_slot: usize) -> (r: [FanVertex; 2])
    requires
        center_slot < 3,
    ensures
        (r[0], r[1]) == spec_fan_boundaries(*triangle, center_slot as int),
{
    let (first_slot, second_slot): (usize, usize) = if center_slot == 0 {
        (1, 2)
    } else if center_slot == 1 {
        (0, 2)
    } else {
        (0, 1)
    };
    [triangle.vertices[first_slot], triangle.vertices[second_slot]]
}

/// The boundary that continues the fan past `current_boundary`.
pub fn next_fan_boundary(boundaries: [FanVertex; 2], current_boundary: FanVertex) -> (r: Option<
    FanVertex,
>)
    ensures
        r == spec_next_boundary((boundaries[0], boundaries[1]), current_boundary),
{
    if same_fan_vertex(boundaries[0], current_boundary) {
        return Some(boundaries[1]);
    }
    if same_fan_vertex(boundaries[1], current_boundary) {
        return Some(boundaries[0]);
    }
    None
}

/// The slot of `triangle` that holds the fan's center, if any.
pub fn candidate_center_slot(triangle: &FanTriangle, center_index: u32, center_pos: (u32, u32)) -> (r:
    Option<usize>)
    ensures
        r matches Some(s) ==> s < 3,
        (match r {
            Some(s) => Some(s as int),
            None => None::<int>,
        }) == spec_center_slot(*triangle, center_index, center_pos),
{
    let mut slot: usize = 0;
    while slot < 3
        invariant
            slot <= 3,
            forall|s: int| 0 <= s < slot ==> !is_center(triangle.vertices[s], center_index, center_pos),
        decreases 3 - slot,
    {
        let v = triangle.vertices[slot];
        if v.index == center_index && v.pos.0 == center_pos.0 && v.pos.1 == center_pos.1 {
            return Some(slot);
        }
        slot += 1;
    }
    None
}

// ---------------------------------------------------------------------------
// Counters the probe bumps.
// ---------------------------------------------------------------------------

/// Room in every counter a probe over `n` triangles may bump.
pub open spec fn probe_stats_room(s: SolidFanProbeStats, n: int) -> bool {
    &&& s.cheap_candidate_attempts < usize::MAX
    &&& s.candidate_triangles_scanned + n <= usize::MAX
    &&& s.repeated_boundary_checks + n <= usize::MAX
    &&& s.repeated_boundary_comparisons + n * n <= usize::MAX
    &&& forall|r: SolidFanProbeRejectReason| #[trigger] reject_count(s, r) < usize::MAX
}

pub open spec fn scanned_one(s: SolidFanProbeStats) -> SolidFanProbeStats {
    SolidFanProbeStats {
        candidate_triangles_scanned: (s.candidate_triangles_scanned + 1) as usize,
        ..s
    }
}

pub open spec fn candidate_triangles_stats(s: SolidFanProbeStats, n: int) -> SolidFanProbeStats {
    SolidFanProbeStats { max_candidate_triangles: max_usize(s.max_candidate_triangles, n as usize), ..s }
}

pub open spec fn scratch_overflow_stats(s: SolidFanProbeStats, n: int) -> SolidFanProbeStats {
    candidate_triangles_stats(after_reject(s, SolidFanProbeRejectReason::ScratchOverflow), n)
}

// ---------------------------------------------------------------------------
// The first triangle.
// ---------------------------------------------------------------------------

/// What the first triangle fixes, or `None` when it cannot start a fan.
pub open spec fn spec_seed(first: Option<FanTriangle>, center_slot: int) -> Option<CheapFanSeed> {
    match first {
        None => None,
        Some(t) => if !t.finite || t.area_sign is None {
            None
        } else {
            let (previous, current) = spec_fan_boundaries(t, center_slot);
            Some(
                CheapFanSeed {
                    center_index: t.vertices[center_slot].index,
                    center_pos: t.vertices[center_slot].pos,
                    center_vertex_index: t.vertices[center_slot].vertex_index,
                    previous_boundary: previous,
                    current_boundary: current,
                    expected_area_sign: t.area_sign->0,
                },
            )
        },
    }
}

/// The counters after looking at the first triangle.
pub open spec fn seed_stats(s: SolidFanProbeStats, first: Option<FanTriangle>) -> SolidFanProbeStats {
    match first {
        None => after_reject(s, SolidFanProbeRejectReason::VertexLookupFailure),
        Some(t) => if !t.finite || t.area_sign is None {
            after_reject(scanned_one(s), SolidFanProbeRejectReason::WindingMismatchOrNonFinite)
        } else {
            scanned_one(s)
        },
    }
}

/// Reads the first triangle of a fan for the center in `center_slot`.
pub fn cheap_solid_fan_seed(
    triangles: &[Option<FanTriangle>],
    center_slot: usize,
    stats: Option<&mut SolidFanProbeStats>,
) -> (r: Option<CheapFanSeed>)
    requires
        triangles.len() >= 1,
        center_slot < 3,
        stats matches Some(st) ==> st.candidate_triangles_scanned < usize::MAX && forall|
            reason: SolidFanProbeRejectReason,
        | #[trigger] reject_count(*st, reason) < usize::MAX,
    ensures
        r == spec_seed(triangles@[0], center_slot as int),
        stats matches Some(st) ==> *final(st) == seed_stats(*st, triangles@[0]),
{
    let first = match triangles[0] {
        Some(t) => t,
        None => {
            match stats {
                Some(st) => {
                    assert(reject_count(*st, SolidFanProbeRejectReason::VertexLookupFailure)
                        < usize::MAX);
                    st.record_reject(SolidFanProbeRejectReason::VertexLookupFailure);
                },
                None => {},
            }
            return None;
        },
    };
    match stats {
        Some(st) => {
            assert(reject_count(*st, SolidFanProbeRejectReason::WindingMismatchOrNonFinite)
                < usize::MAX);
            st.candidate_triangles_scanned = st.candidate_triangles_scanned + 1;
            if !first.finite || first.area_sign.is_none() {
                st.record_reject(SolidFanProbeRejectReason::WindingMismatchOrNonFinite);
                return None;
            }
        },
        None => {
            if !first.finite || first.area_sign.is_none() {
                return None;
            }
        },
    }
    let expected_area_sign = match first.area_sign {
        Some(sign) => sign,
        None => 0,
    };
    let boundaries = fan_boundaries(&first, center_slot);
    Some(
        CheapFanSeed {
            center_index: first.vertices[center_slot].index,
            center_pos: first.vertices[center_slot].pos,
            center_vertex_index: first.vertices[center_slot].vertex_index,
            previous_boundary: boundaries[0],
            current_boundary: boundaries[1],
            expected_area_sign,
        },
    )
}

// ---------------------------------------------------------------------------
// Boundaries seen so far.
// ---------------------------------------------------------------------------

/// Starts the record of boundaries with the first triangle's two, unless the
/// budget cannot hold them.
pub fn initialize_seen_boundaries(
    seen_boundaries: &mut Vec<FanBoundaryKey>,
    previous_boundary: FanVertex,
    current_boundary: FanVertex,
    seen_boundary_budget: usize,
    stats: Option<&mut SolidFanProbeStats>,
) -> (r: bool)
    requires
        stats matches Some(st) ==> reject_count(*st, SolidFanProbeRejectReason::ScratchOverflow)
            < usize::MAX,
    ensures
        r == (seen_boundary_budget >= 2),
        r ==> final(seen_boundaries)@ == seq![
            boundary_key(previous_boundary),
            boundary_key(current_boundary),
        ],
        !r ==> final(seen_boundaries)@ == Seq::<FanBoundaryKey>::empty(),
        stats matches Some(st) ==> *final(st) == (if r {
            *st
        } else {
            scratch_overflow_stats(*st, 1)
        }),
{
    seen_boundaries.clear();
    if seen_boundary_budget < 2 {
        match stats {
            Some(st) => {
                assert(reject_count(*st, SolidFanProbeRejectReason::ScratchOverflow) < usize::MAX);
                record_scratch_overflow(st, 1);
            },
            None => {},
        }
        return false;
    }
    seen_boundaries.push(FanBoundaryKey::from(previous_boundary));
    seen_boundaries.push(FanBoundaryKey::from(current_boundary));
    true
}

/// Whether `boundary` was seen before, counting the check and the comparisons
/// the search made.
pub fn fan_boundary_seen(
    seen_boundaries: &[FanBoundaryKey],
    boundary: FanVertex,
    stats: Option<&mut SolidFanProbeStats>,
) -> (r: bool)
    requires
        stats matches Some(st) ==> st.repeated_boundary_checks < usize::MAX
            && st.repeated_boundary_comparisons + seen_boundaries.len() <= usize::MAX,
    ensures
        r == seen_boundaries@.contains(boundary_key(boundary)),
        stats matches Some(st) ==> *final(st) == (SolidFanProbeStats {
            repeated_boundary_checks: (st.repeated_boundary_checks + 1) as usize,
            repeated_boundary_comparisons: (st.repeated_boundary_comparisons + seen_comparisons(
                seen_boundaries@,
                boundary_key(boundary),
            )) as usize,
            ..*st
        }),
{
    let key = FanBoundaryKey::from(boundary);
    let mut comparisons: usize = 0;
    let mut found = false;
    while comparisons < seen_boundaries.len() && !found
        invariant
            comparisons <= seen_boundaries.len(),
            key == boundary_key(boundary),
            !found ==> forall|j: int| 0 <= j < comparisons ==> seen_boundaries@[j] != key,
            found ==> comparisons >= 1 && seen_boundaries@[comparisons - 1] == key && forall|j: int|
                0 <= j < comparisons - 1 ==> seen_boundaries@[j] != key,
        decreases seen_boundaries.len() - comparisons,
    {
        let seen = seen_boundaries[comparisons];
        comparisons = comparisons + 1;
        if seen.index == key.index && seen.pos.0 == key.pos.0 && seen.pos.1 == key.pos.1 {
            found = true;
        }
    }
    proof {
        let s = seen_boundaries@;
        if found {
            assert(s.contains(key));
            s.index_of_first_ensures(key);
            let i = s.index_of_first(key)->0;
            assert(i == comparisons - 1) by {
                if i < comparisons - 1 {
                    assert(s[i] != key);
                }
                if i > comparisons - 1 {
                    assert(s[comparisons - 1] == key);
                }
            }
        } else {
            s.index_of_first_ensures(key);
            assert(!s.contains(key)) by {
                if s.contains(key) {
                    let i = choose|i: int| 0 <= i < s.len() && s[i] == key;
                    assert(s[i] != key);
                }
            }
        }
    }
    match stats {
        Some(st) => {
            st.repeated_boundary_checks = st.repeated_boundary_checks + 1;
            st.repeated_boundary_comparisons = st.repeated_boundary_comparisons + comparisons;
        },
        None => {},
    }
    found
}

// ---------------------------------------------------------------------------
// The walk.
// ---------------------------------------------------------------------------

/// Where a walk stopped: the last two boundaries, the boundaries it saw, why
/// it stopped (`None`: it ran out of triangles), and what it counted.
pub struct FanWalk {
    pub triangle_count: int,
    pub previous: FanVertex,
    pub current: FanVertex,
    pub seen: Seq<FanBoundaryKey>,
    pub reject: Option<SolidFanProbeRejectReason>,
    pub scanned: int,
    pub checks: int,
    pub comparisons: int,
}

pub open spec fn walk_stop(
    triangle_count: int,
    previous: FanVertex,
    current: FanVertex,
    seen: Seq<FanBoundaryKey>,
    reject: Option<SolidFanProbeRejectReason>,
    scanned: int,
    checks: int,
    comparisons: int,
) -> FanWalk {
    FanWalk { triangle_count, previous, current, seen, reject, scanned, checks, comparisons }
}

/// The walk from triangle `k` on, with `triangle_count` triangles taken and
/// `current` the boundary the next triangle must share.
pub open spec fn fan_walk(
    tris: Seq<Option<FanTriangle>>,
    center_index: u32,
    center_pos: (u32, u32),
    expected_sign: i8,
    budget: int,
    k: int,
    triangle_count: int,
    previous: FanVertex,
    current: FanVertex,
    seen: Seq<FanBoundaryKey>,
) -> FanWalk
    decreases tris.len() - k,
{
    let stop = |reject: Option<SolidFanProbeRejectReason>, scanned: int, checks: int, compared: int|
        walk_stop(triangle_count, previous, current, seen, reject, scanned, checks, compared);
    if k < 0 || k >= tris.len() {
        stop(None, 0, 0, 0)
    } else {
        match tris[k] {
            None => stop(Some(SolidFanProbeRejectReason::VertexLookupFailure), 0, 0, 0),
            Some(t) => if !t.finite {
                stop(Some(SolidFanProbeRejectReason::WindingMismatchOrNonFinite), 1, 0, 0)
            } else {
                match spec_center_slot(t, center_index, center_pos) {
                    None => stop(Some(SolidFanProbeRejectReason::NoCandidate), 1, 0, 0),
                    Some(slot) => match spec_next_boundary(spec_fan_boundaries(t, slot), current) {
                        None => stop(Some(SolidFanProbeRejectReason::NoCandidate), 1, 0, 0),
                        Some(next) => {
                            let key = boundary_key(next);
                            let compared = seen_comparisons(seen, key);
                            if seen.contains(key) {
                                stop(Some(SolidFanProbeRejectReason::RepeatedBoundary), 1, 1, compared)
                            } else if t.area_sign != Some(expected_sign) {
                                stop(
                                    Some(SolidFanProbeRejectReason::WindingMismatchOrNonFinite),
                                    1,
                                    1,
                                    compared,
                                )
                            } else if triangle_count + 3 > budget {
                                stop(Some(SolidFanProbeRejectReason::ScratchOverflow), 1, 1, compared)
                            } else {
                                let rest = fan_walk(
                                    tris,
                                    center_index,
                                    center_pos,
                                    expected_sign,
                                    budget,
                                    k + 1,
                                    triangle_count + 1,
                                    current,
                                    next,
                                    seen.push(key),
                                );
                                FanWalk {
                                    scanned: rest.scanned + 1,
                                    checks: rest.checks + 1,
                                    comparisons: rest.comparisons + compared,
                                    ..rest
                                }
                            }
                        },
                    },
                }
            },
        }
    }
}

/// The walk from the first triangle of `tris` for a fan seeded by `seed`.
pub open spec fn seeded_walk(tris: Seq<Option<FanTriangle>>, seed: CheapFanSeed, budget: int) -> FanWalk {
    fan_walk(
        tris,
        seed.center_index,
        seed.center_pos,
        seed.expected_area_sign,
        budget,
        1,
        1,
        seed.previous_boundary,
        seed.current_boundary,
        seq![boundary_key(seed.previous_boundary), boundary_key(seed.current_boundary)],
    )
}

/// Whether a finished walk is a fan.
pub open spec fn walk_accepts(w: FanWalk) -> bool {
    &&& w.reject != Some(SolidFanProbeRejectReason::ScratchOverflow)
    &&& w.triangle_count >= SOLID_FAN_MIN_TRIANGLES
    &&& !spec_same_vertex(w.previous, w.current)
}

/// The fan the probe finds for `center_slot`, if any.
pub open spec fn cheap_candidate(tris: Seq<Option<FanTriangle>>, center_slot: int, budget: int) -> Option<
    FanCandidate,
> {
    match spec_seed(tris[0], center_slot) {
        None => None,
        Some(seed) => if budget < 2 {
            None
        } else {
            let w = seeded_walk(tris, seed, budget);
            if walk_accepts(w) {
                Some(spec_from_scan(seed, center_slot as usize, w.triangle_count as usize))
            } else {
                None
            }
        },
    }
}

/// The record of seen boundaries the probe leaves behind.
pub open spec fn cheap_candidate_seen(
    before: Seq<FanBoundaryKey>,
    tris: Seq<Option<FanTriangle>>,
    center_slot: int,
    budget: int,
) -> Seq<FanBoundaryKey> {
    match spec_seed(tris[0], center_slot) {
        None => before,
        Some(seed) => if budget < 2 {
            Seq::empty()
        } else {
            seeded_walk(tris, seed, budget).seen
        },
    }
}

/// The counters after the walk of `w`, starting from `s`.
pub open spec fn walk_stats(s: SolidFanProbeStats, w: FanWalk) -> SolidFanProbeStats {
    let s2 = SolidFanProbeStats {
        candidate_triangles_scanned: (s.candidate_triangles_scanned + w.scanned) as usize,
        repeated_boundary_checks: (s.repeated_boundary_checks + w.checks) as usize,
        repeated_boundary_comparisons: (s.repeated_boundary_comparisons + w.comparisons) as usize,
        ..s
    };
    if w.reject == Some(SolidFanProbeRejectReason::ScratchOverflow) {
        scratch_overflow_stats(s2, w.triangle_count)
    } else if walk_accepts(w) {
        candidate_triangles_stats(s2, w.triangle_count)
    } else {
        let reason = match w.reject {
            Some(r) => r,
            None => if w.triangle_count < SOLID_FAN_MIN_TRIANGLES {
                SolidFanProbeRejectReason::TooShort
            } else {
                SolidFanProbeRejectReason::RepeatedBoundary
            },
        };
        candidate_triangles_stats(after_reject(s2, reason), w.triangle_count)
    }
}

/// The counters after probing `center_slot`, starting from `s`.
pub open spec fn cheap_candidate_stats(
    s: SolidFanProbeStats,
    tris: Seq<Option<FanTriangle>>,
    center_slot: int,
    budget: int,
) -> SolidFanProbeStats {
    let s0 = SolidFanProbeStats {
        cheap_candidate_attempts: (s.cheap_candidate_attempts + 1) as usize,
        ..s
    };
    let s1 = seed_stats(s0, tris[0]);
    match spec_seed(tris[0], center_slot) {
        None => s1,
        Some(seed) => if budget < 2 {
            scratch_overflow_stats(s1, 1)
        } else {
            walk_stats(s1, seeded_walk(tris, seed, budget))
        },
    }
}

proof fn lemma_square_step(k: int, n: int)
    requires
        0 <= k < n,
    ensures
        k * k + k + 1 <= n * n,
        k * k + k + 1 <= (k + 1) * (k + 1),
{
    assert(k * k + k + 1 <= n * n) by (nonlinear_arith)
        requires
            0 <= k < n,
    ;
    assert(k * k + k + 1 <= (k + 1) * (k + 1)) by (nonlinear_arith)
        requires
            0 <= k,
    ;
}

fn probe_fan_candidate(
    triangles: &[Option<FanTriangle>],
    center_slot: usize,
    seen_boundaries: &mut Vec<FanBoundaryKey>,
    seen_boundary_budget: usize,
    stats: &mut SolidFanProbeStats,
    collect: bool,
) -> (r: Option<FanCandidate>)
    requires
        1 <= triangles.len() <= usize::MAX / 3,
        center_slot < 3,
        collect ==> probe_stats_room(*old(stats), triangles.len() as int),
    ensures
        r == cheap_candidate(triangles@, center_slot as int, seen_boundary_budget as int),
        final(seen_boundaries)@ == cheap_candidate_seen(
            old(seen_boundaries)@,
            triangles@,
            center_slot as int,
            seen_boundary_budget as int,
        ),
        collect ==> *final(stats) == cheap_candidate_stats(
            *old(stats),
            triangles@,
            center_slot as int,
            seen_boundary_budget as int,
        ),
        !collect ==> *final(stats) == *old(stats),
{
    let ghost tris = triangles@;
    let ghost budget = seen_boundary_budget as int;
    if collect {
        stats.cheap_candidate_attempts = stats.cheap_candidate_attempts + 1;
    }
    let ghost s0 = *stats;
    assert(collect ==> forall|r: SolidFanProbeRejectReason|
        #[trigger] reject_count(s0, r) == reject_count(*old(stats), r));
    let seed = match cheap_solid_fan_seed(
        triangles,
        center_slot,
        if collect {
            Some(&mut *stats)
        } else {
            None
        },
    ) {
        Some(seed) => seed,
        None => {
            return None;
        },
    };
    assert(collect ==> forall|r: SolidFanProbeRejectReason|
        #[trigger] reject_count(*stats, r) == reject_count(*old(stats), r));
    let center_index = seed.center_index;
    let center_pos = seed.center_pos;
    let expected_area_sign = seed.expected_area_sign;
    let mut previous_boundary = seed.previous_boundary;
    let mut current_boundary = seed.current_boundary;
    if !initialize_seen_boundaries(
        seen_boundaries,
        previous_boundary,
        current_boundary,
        seen_boundary_budget,
        if collect {
            Some(&mut *stats)
        } else {
            None
        },
    ) {
        return None;
    }
    let ghost base = *stats;
    assert(collect ==> forall|r: SolidFanProbeRejectReason|
        #[trigger] reject_count(base, r) == reject_count(*old(stats), r));
    let ghost w0 = seeded_walk(tris, seed, budget);
    let ghost mut acc_scanned: int = 0;
    let ghost mut acc_checks: int = 0;
    let ghost mut acc_compared: int = 0;
    let mut triangle_count: usize = 1;
    let mut k: usize = 1;
    let mut reject: Option<SolidFanProbeRejectReason> = None;
    while k < triangles.len() && reject.is_none()
        invariant
            tris == triangles@,
            budget == seen_boundary_budget as int,
            1 <= k <= triangles.len(),
            triangle_count == k,
            seen_boundaries@.len() == k + 1,
            0 <= acc_scanned <= k,
            0 <= acc_checks <= k,
            0 <= acc_compared <= (k as int) * (k as int) + k + 1,
            reject is None ==> acc_scanned <= k - 1 && acc_checks <= k - 1 && acc_compared <= (
            k as int) * (k as int),
            k < triangles.len() || reject is None,
            triangles.len() <= usize::MAX / 3,
            w0 == seeded_walk(tris, seed, budget),
            center_index == seed.center_index,
            center_pos == seed.center_pos,
            expected_area_sign == seed.expected_area_sign,
            ({
                let rem = if reject is None {
                    fan_walk(
                        tris,
                        center_index,
                        center_pos,
                        expected_area_sign,
                        budget,
                        k as int,
                        triangle_count as int,
                        previous_boundary,
                        current_boundary,
                        seen_boundaries@,
                    )
                } else {
                    walk_stop(
                        triangle_count as int,
                        previous_boundary,
                        current_boundary,
                        seen_boundaries@,
                        reject,
                        0,
                        0,
                        0,
                    )
                };
                &&& w0.triangle_count == rem.triangle_count
                &&& w0.previous == rem.previous
                &&& w0.current == rem.current
                &&& w0.seen == rem.seen
                &&& w0.reject == rem.reject
                &&& w0.scanned == acc_scanned + rem.scanned
                &&& w0.checks == acc_checks + rem.checks
                &&& w0.comparisons == acc_compared + rem.comparisons
            }),
            collect ==> probe_stats_room(*old(stats), triangles.len() as int),
            collect ==> forall|r: SolidFanProbeRejectReason|
                #[trigger] reject_count(base, r) == reject_count(*old(stats), r),
            collect ==> base.candidate_triangles_scanned == old(stats).candidate_triangles_scanned
                + 1,
            collect ==> base.repeated_boundary_checks == old(stats).repeated_boundary_checks,
            collect ==> base.repeated_boundary_comparisons == old(
                stats,
            ).repeated_boundary_comparisons,
            collect ==> *stats == (SolidFanProbeStats {
                candidate_triangles_scanned: (base.candidate_triangles_scanned
                    + acc_scanned) as usize,
                repeated_boundary_checks: (base.repeated_boundary_checks + acc_checks) as usize,
                repeated_boundary_comparisons: (base.repeated_boundary_comparisons
                    + acc_compared) as usize,
                ..base
            }),
            !collect ==> *stats == *old(stats),
        decreases triangles.len() - k + (if reject is None {
            1int
        } else {
            0int
        }),
    {
        proof {
            lemma_square_step(k as int, triangles.len() as int);
        }
        match triangles[k] {
            None => {
                reject = Some(SolidFanProbeRejectReason::VertexLookupFailure);
            },
            Some(candidate) => {
                if collect {
                    stats.candidate_triangles_scanned = stats.candidate_triangles_scanned + 1;
                }
                proof {
                    acc_scanned = acc_scanned + 1;
                }
                if !candidate.finite {
                    reject = Some(SolidFanProbeRejectReason::WindingMismatchOrNonFinite);
                } else {
                    match candidate_center_slot(&candidate, center_index, center_pos) {
                        None => {
                            reject = Some(SolidFanProbeRejectReason::NoCandidate);
                        },
                        Some(slot) => {
                            let boundaries = fan_boundaries(&candidate, slot);
                            match next_fan_boundary(boundaries, current_boundary) {
                                None => {
                                    reject = Some(SolidFanProbeRejectReason::NoCandidate);
                                },
                                Some(next_boundary) => {
                                    let ghost key = boundary_key(next_boundary);
                                    let ghost compared = seen_comparisons(seen_boundaries@, key);
                                    proof {
                                        seen_boundaries@.index_of_first_ensures(key);
                                    }
                                    let repeated = fan_boundary_seen(
                                        seen_boundaries.as_slice(),
                                        next_boundary,
                                        if collect {
                                            Some(&mut *stats)
                                        } else {
                                            None
                                        },
                                    );
                                    proof {
                                        acc_checks = acc_checks + 1;
                                        acc_compared = acc_compared + compared;
                                    }
                                    let sign_matches = match candidate.area_sign {
                                        Some(sign) => sign == expected_area_sign,
                                        None => false,
                                    };
                                    if repeated {
                                        reject = Some(SolidFanProbeRejectReason::RepeatedBoundary);
                                    } else if !sign_matches {
                                        reject = Some(
                                            SolidFanProbeRejectReason::WindingMismatchOrNonFinite,
                                        );
                                    } else if triangle_count + 3 > seen_boundary_budget {
                                        reject = Some(SolidFanProbeRejectReason::ScratchOverflow);
                                    } else {
                                        previous_boundary = current_boundary;
                                        current_boundary = next_boundary;
                                        seen_boundaries.push(
                                            FanBoundaryKey::from(next_boundary),
                                        );
                                        triangle_count = triangle_count + 1;
                                        k = k + 1;
                                    }
                                },
                            }
                        },
                    }
                }
            },
        }
    }
    assert(collect ==> forall|r: SolidFanProbeRejectReason|
        #[trigger] reject_count(*stats, r) == reject_count(*old(stats), r));
    assert(collect ==> reject_count(*stats, SolidFanProbeRejectReason::ScratchOverflow)
        == stats.reject_scratch_overflow);
    if matches!(reject, Some(SolidFanProbeRejectReason::ScratchOverflow)) {
        if collect {
            record_scratch_overflow(stats, triangle_count);
        }
        return None;
    }
    if triangle_count < SOLID_FAN_MIN_TRIANGLES || same_fan_vertex(
        previous_boundary,
        current_boundary,
    ) {
        if collect {
            let reason = match reject {
                Some(reason) => reason,
                None => if triangle_count < SOLID_FAN_MIN_TRIANGLES {
                    SolidFanProbeRejectReason::TooShort
                } else {
                    SolidFanProbeRejectReason::RepeatedBoundary
                },
            };
            stats.record_reject(reason);
            stats.record_candidate_triangles(triangle_count);
        }
        return None;
    }
    if collect {
        stats.record_candidate_triangles(triangle_count);
    }
    Some(FanCandidate::from_scan(&seed, center_slot, triangle_count))
}

/// Walks the triangles from the first one as a fan around the vertex in
/// `center_slot` of the first triangle, and returns the fan if it is long
/// enough and does not close on itself. `triangles[k]` is the triangle `k`
/// places after the first (`None` when one of its indices names no vertex).
/// `seen_boundaries` is scratch space that holds at most
/// `seen_boundary_budget` boundaries.
pub fn cheap_solid_fan_candidate(
    triangles: &[Option<FanTriangle>],
    center_slot: usize,
    seen_boundaries: &mut Vec<FanBoundaryKey>,
    seen_boundary_budget: usize,
    stats: Option<&mut SolidFanProbeStats>,
) -> (r: Option<FanCandidate>)
    requires
        1 <= triangles.len() <= usize::MAX / 3,
        center_slot < 3,
        stats matches Some(st) ==> probe_stats_room(*st, triangles.len() as int),
    ensures
        r == cheap_candidate(triangles@, center_slot as int, seen_boundary_budget as int),
        final(seen_boundaries)@ == cheap_candidate_seen(
            old(seen_boundaries)@,
            triangles@,
            center_slot as int,
            seen_boundary_budget as int,
        ),
        stats matches Some(st) ==> *final(st) == cheap_candidate_stats(
            *st,
            triangles@,
            center_slot as int,
            seen_boundary_budget as int,
        ),
{
    match stats {
        Some(st) => probe_fan_candidate(
            triangles,
            center_slot,
            seen_boundaries,
            seen_boundary_budget,
            st,
            true,
        ),
        None => {
            let mut unused = SolidFanProbeStats::zeroed();
            probe_fan_candidate(
                triangles,
                center_slot,
                seen_boundaries,
                seen_boundary_budget,
                &mut unused,
                false,
            )
        },
    }
}

// ---------------------------------------------------------------------------
// The fan's polygon and color.
// ---------------------------------------------------------------------------

/// The boundary vertices the polygon walk adds from triangle `k` on, up to
/// triangle `n`, `current` being the last boundary added.
pub open spec fn polygon_walk(
    tris: Seq<Option<FanTriangle>>,
    center_index: u32,
    center_pos: (u32, u32),
    k: int,
    n: int,
    current: FanVertex,
) -> Seq<usize>
    decreases n - k,
{
    if k < 0 || k >= n || k >= tris.len() {
        seq![]
    } else {
        match tris[k] {
            None => seq![],
            Some(t) => match spec_center_slot(t, center_index, center_pos) {
                None => seq![],
                Some(slot) => match spec_next_boundary(spec_fan_boundaries(t, slot), current) {
                    None => seq![],
                    Some(next) => seq![next.vertex_index] + polygon_walk(
                        tris,
                        center_index,
                        center_pos,
                        k + 1,
                        n,
                        next,
                    ),
                },
            },
        }
    }
}

/// The rim of the fan of `candidate`, as vertex indices in walk order.
pub open spec fn fan_polygon(tris: Seq<Option<FanTriangle>>, candidate: FanCandidate) -> Seq<usize> {
    match tris[0] {
        None => seq![],
        Some(t) => {
            let (first, current) = spec_fan_boundaries(t, candidate.center_slot as int);
            seq![first.vertex_index, current.vertex_index] + polygon_walk(
                tris,
                candidate.center_index,
                candidate.center_pos,
                1,
                candidate.triangle_count as int,
                current,
            )
        },
    }
}

/// Writes the rim of the fan of `candidate` into `polygon`, stopping where
/// the triangles stop continuing the fan.
pub fn solid_fan_polygon(
    triangles: &[Option<FanTriangle>],
    candidate: FanCandidate,
    polygon: &mut Vec<usize>,
)
    requires
        1 <= triangles.len(),
        candidate.triangle_count <= triangles.len(),
        candidate.center_slot < 3,
    ensures
        final(polygon)@ == fan_polygon(triangles@, candidate),
{
    polygon.clear();
    let first = match triangles[0] {
        Some(t) => t,
        None => {
            return;
        },
    };
    let boundaries = fan_boundaries(&first, candidate.center_slot);
    let mut current_boundary = boundaries[1];
    polygon.push(boundaries[0].vertex_index);
    polygon.push(current_boundary.vertex_index);
    let ghost prefix = polygon@;
    let mut k: usize = 1;
    let mut stopped = false;
    while k < candidate.triangle_count && !stopped
        invariant
            1 <= k <= candidate.triangle_count || candidate.triangle_count < 1 && k == 1,
            candidate.triangle_count <= triangles.len(),
            prefix.len() >= 2,
            fan_polygon(triangles@, candidate) == prefix + polygon_walk(
                triangles@,
                candidate.center_index,
                candidate.center_pos,
                1,
                candidate.triangle_count as int,
                boundaries[1],
            ),
            stopped ==> polygon@ == fan_polygon(triangles@, candidate),
            !stopped ==> fan_polygon(triangles@, candidate) == polygon@ + polygon_walk(
                triangles@,
                candidate.center_index,
                candidate.center_pos,
                k as int,
                candidate.triangle_count as int,
                current_boundary,
            ),
        decreases candidate.triangle_count - k + (if stopped {
            0int
        } else {
            1int
        }),
    {
        match triangles[k] {
            None => {
                stopped = true;
            },
            Some(triangle) => match candidate_center_slot(
                &triangle,
                candidate.center_index,
                candidate.center_pos,
            ) {
                None => {
                    stopped = true;
                },
                Some(slot) => match next_fan_boundary(
                    fan_boundaries(&triangle, slot),
                    current_boundary,
                ) {
                    None => {
                        stopped = true;
                    },
                    Some(next_boundary) => {
                        let ghost before = polygon@;
                        polygon.push(next_boundary.vertex_index);
                        proof {
                            assert(polygon@ == before + seq![next_boundary.vertex_index]);
                            assert(before + (seq![next_boundary.vertex_index] + polygon_walk(
                                triangles@,
                                candidate.center_index,
                                candidate.center_pos,
                                k as int + 1,
                                candidate.triangle_count as int,
                                next_boundary,
                            )) =~= polygon@ + polygon_walk(
                                triangles@,
                                candidate.center_index,
                                candidate.center_pos,
                                k as int + 1,
                                candidate.triangle_count as int,
                                next_boundary,
                            ));
                        }
                        current_boundary = next_boundary;
                        k = k + 1;
                    },
                },
            },
        }
        proof {
            if stopped {
                assert(polygon@ + seq![] =~= polygon@);
            }
        }
    }
    proof {
        if !stopped {
            assert(polygon@ + seq![] =~= polygon@);
        }
    }
}

/// The color every one of the first `n` triangles shares, if they all have
/// one and it is the same.
pub open spec fn fan_run_color(tris: Seq<Option<FanTriangle>>, n: int) -> Option<[u8; 4]> {
    if n > 0 && tris[0] is Some && tris[0]->0.solid_color is Some && forall|j: int|
        0 <= j < n ==> #[trigger] tris[j] is Some && tris[j]->0.solid_color == tris[0]->0.solid_color {
        tris[0]->0.solid_color
    } else {
        None
    }
}

/// A run has color `c` exactly when it is not empty and every one of its
/// triangles, the first included, is present with solid color `c`.
pub proof fn lemma_run_color_is_shared_by_every_triangle(
    tris: Seq<Option<FanTriangle>>,
    n: int,
    c: [u8; 4],
)
    requires
        n <= tris.len(),
    ensures
        fan_run_color(tris, n) == Some(c) <==> (n > 0 && forall|j: int|
            0 <= j < n ==> (#[trigger] tris[j] matches Some(t) && t.solid_color == Some(c))),
{
    if n > 0 && (forall|j: int|
        0 <= j < n ==> (#[trigger] tris[j] matches Some(t) && t.solid_color == Some(c))) {
        assert(tris[0] matches Some(t) && t.solid_color == Some(c));
    }
    if let Some(d) = fan_run_color(tris, n) {
        assert forall|j: int| 0 <= j < n implies (#[trigger] tris[j] matches Some(t)
            && t.solid_color == Some(d)) by {
            assert(tris[j] is Some && tris[j]->0.solid_color == tris[0]->0.solid_color);
        }
    }
}

fn same_rgba(a: [u8; 4], b: [u8; 4]) -> (r: bool)
    ensures
        r == (a == b),
{
    let r = a[0] == b[0] && a[1] == b[1] && a[2] == b[2] && a[3] == b[3];
    proof {
        if r {
            assert(a =~= b);
        }
    }
    r
}

/// The one color of the first `triangle_count` triangles, or `None` when one
/// of them has no solid color or a different one.
pub fn solid_fan_run_color(triangles: &[Option<FanTriangle>], triangle_count: usize) -> (r: Option<
    [u8; 4],
>)
    requires
        triangle_count <= triangles.len(),
    ensures
        r == fan_run_color(triangles@, triangle_count as int),
{
    let mut color: Option<[u8; 4]> = None;
    let mut k: usize = 0;
    while k < triangle_count
        invariant
            k <= triangle_count <= triangles.len(),
            k == 0 <==> color is None,
            k > 0 ==> triangles@[0] is Some && triangles@[0]->0.solid_color == color,
            forall|j: int|
                0 <= j < k ==> #[trigger] triangles@[j] is Some && triangles@[j]->0.solid_color
                    == color,
        decreases triangle_count - k,
    {
        let triangle_color = match triangles[k] {
            Some(triangle) => match triangle.solid_color {
                Some(c) => c,
                None => {
                    return None;
                },
            },
            None => {
                return None;
            },
        };
        match color {
            Some(c) => {
                if !same_rgba(triangle_color, c) {
                    return None;
                }
            },
            None => {
                color = Some(triangle_color);
            },
        }
        k = k + 1;
    }
    color
}

// ---------------------------------------------------------------------------
// Laws.
// ---------------------------------------------------------------------------

proof fn lemma_walk_count_fits_budget(
    tris: Seq<Option<FanTriangle>>,
    center_index: u32,
    center_pos: (u32, u32),
    expected_sign: i8,
    budget: int,
    k: int,
    triangle_count: int,
    previous: FanVertex,
    current: FanVertex,
    seen: Seq<FanBoundaryKey>,
)
    ensures
        ({
            let w = fan_walk(
                tris,
                center_index,
                center_pos,
                expected_sign,
                budget,
                k,
                triangle_count,
                previous,
                current,
                seen,
            );
            w.triangle_count == triangle_count || w.triangle_count + 2 <= budget
        }),
    decreases tris.len() - k,
{
    if 0 <= k < tris.len() {
        if let Some(t) = tris[k] {
            if let Some(slot) = spec_center_slot(t, center_index, center_pos) {
                if let Some(next) = spec_next_boundary(spec_fan_boundaries(t, slot), current) {
                    lemma_walk_count_fits_budget(
                        tris,
                        center_index,
                        center_pos,
                        expected_sign,
                        budget,
                        k + 1,
                        triangle_count + 1,
                        current,
                        next,
                        seen.push(boundary_key(next)),
                    );
                }
            }
        }
    }
}

/// A fan the probe accepts always fits the polygon scratch of the budget it
/// was walked with: its rim and center take `triangle_count + 2` entries.
pub proof fn lemma_accepted_fan_fits_polygon_budget(
    tris: Seq<Option<FanTriangle>>,
    center_slot: int,
    budget: int,
)
    requires
        tris.len() >= 1,
        0 <= center_slot < 3,
    ensures
        cheap_candidate(tris, center_slot, budget) matches Some(c) ==> c.triangle_count + 2
            <= budget,
{
    if let Some(seed) = spec_seed(tris[0], center_slot) {
        lemma_walk_count_fits_budget(
            tris,
            seed.center_index,
            seed.center_pos,
            seed.expected_area_sign,
            budget,
            1,
            1,
            seed.previous_boundary,
            seed.current_boundary,
            seq![boundary_key(seed.previous_boundary), boundary_key(seed.current_boundary)],
        );
    }
}

proof fn lemma_walk_keeps_seen_distinct(
    tris: Seq<Option<FanTriangle>>,
    center_index: u32,
    center_pos: (u32, u32),
    expected_sign: i8,
    budget: int,
    k: int,
    triangle_count: int,
    previous: FanVertex,
    current: FanVertex,
    seen: Seq<FanBoundaryKey>,
)
    requires
        seen.no_duplicates(),
    ensures
        fan_walk(
            tris,
            center_index,
            center_pos,
            expected_sign,
            budget,
            k,
            triangle_count,
            previous,
            current,
            seen,
        ).seen.no_duplicates(),
    decreases tris.len() - k,
{
    if 0 <= k < tris.len() {
        if let Some(t) = tris[k] {
            if let Some(slot) = spec_center_slot(t, center_index, center_pos) {
                if let Some(next) = spec_next_boundary(spec_fan_boundaries(t, slot), current) {
                    let key = boundary_key(next);
                    if !seen.contains(key) {
                        let pushed = seen.push(key);
                        assert(pushed.no_duplicates()) by {
                            assert forall|i: int, j: int|
                                0 <= i < pushed.len() && 0 <= j < pushed.len() && i != j implies pushed[i]
                                != pushed[j] by {
                                if i < seen.len() && j < seen.len() {
                                    assert(seen[i] != seen[j]);
                                } else if i == seen.len() {
                                    assert(seen[j] != key);
                                } else {
                                    assert(seen[i] != key);
                                }
                            }
                        }
                        lemma_walk_keeps_seen_distinct(
                            tris,
                            center_index,
                            center_pos,
                            expected_sign,
                            budget,
                            k + 1,
                            triangle_count + 1,
                            current,
                            next,
                            pushed,
                        );
                    }
                }
            }
        }
    }
}

/// The probe remembers each boundary of a fan once: when the first
/// triangle's two boundaries differ, the record it leaves has no repeats.
pub proof fn lemma_probe_records_each_boundary_once(
    before: Seq<FanBoundaryKey>,
    tris: Seq<Option<FanTriangle>>,
    center_slot: int,
    budget: int,
)
    requires
        tris.len() >= 1,
        0 <= center_slot < 3,
        spec_seed(tris[0], center_slot) matches Some(seed) ==> boundary_key(seed.previous_boundary)
            != boundary_key(seed.current_boundary),
    ensures
        spec_seed(tris[0], center_slot) is Some ==> cheap_candidate_seen(
            before,
            tris,
            center_slot,
            budget,
        ).no_duplicates(),
{
    if let Some(seed) = spec_seed(tris[0], center_slot) {
        if budget >= 2 {
            let start = seq![boundary_key(seed.previous_boundary), boundary_key(seed.current_boundary)];
            assert(start.no_duplicates());
            lemma_walk_keeps_seen_distinct(
                tris,
                seed.center_index,
                seed.center_pos,
                seed.expected_area_sign,
                budget,
                1,
                1,
                seed.previous_boundary,
                seed.current_boundary,
                start,
            );
        }
    }
}

proof fn lemma_polygon_walk_follows_fan_walk(
    tris: Seq<Option<FanTriangle>>,
    center_index: u32,
    center_pos: (u32, u32),
    expected_sign: i8,
    budget: int,
    k: int,
    previous: FanVertex,
    current: FanVertex,
    seen: Seq<FanBoundaryKey>,
)
    requires
        1 <= k,
    ensures
        ({
            let w = fan_walk(
                tris,
                center_index,
                center_pos,
                expected_sign,
                budget,
                k,
                k,
                previous,
                current,
                seen,
            );
            &&& w.triangle_count >= k
            &&& (k <= tris.len() ==> w.triangle_count <= tris.len())
            &&& polygon_walk(tris, center_index, center_pos, k, w.triangle_count, current).len()
                == w.triangle_count - k
        }),
    decreases tris.len() - k,
{
    let w = fan_walk(
        tris,
        center_index,
        center_pos,
        expected_sign,
        budget,
        k,
        k,
        previous,
        current,
        seen,
    );
    if 0 <= k < tris.len() {
        if let Some(t) = tris[k] {
            if t.finite {
                if let Some(slot) = spec_center_slot(t, center_index, center_pos) {
                    if let Some(next) = spec_next_boundary(spec_fan_boundaries(t, slot), current) {
                        let key = boundary_key(next);
                        if !seen.contains(key) && t.area_sign == Some(expected_sign) && k + 3
                            <= budget {
                            lemma_polygon_walk_follows_fan_walk(
                                tris,
                                center_index,
                                center_pos,
                                expected_sign,
                                budget,
                                k + 1,
                                current,
                                next,
                                seen.push(key),
                            );
                        }
                    }
                }
            }
        }
    }
}

/// Rebuilding the rim of an accepted fan never stops early: the polygon
/// holds one vertex per boundary the probe walked over, `triangle_count + 1`
/// in all.
pub proof fn lemma_accepted_fan_polygon_has_every_rim_vertex(
    tris: Seq<Option<FanTriangle>>,
    center_slot: int,
    budget: int,
)
    requires
        1 <= tris.len() <= usize::MAX,
        0 <= center_slot < 3,
    ensures
        cheap_candidate(tris, center_slot, budget) matches Some(c) ==> fan_polygon(tris, c).len()
            == c.triangle_count + 1,
{
    if let Some(seed) = spec_seed(tris[0], center_slot) {
        if budget >= 2 {
            lemma_polygon_walk_follows_fan_walk(
                tris,
                seed.center_index,
                seed.center_pos,
                seed.expected_area_sign,
                budget,
                1,
                seed.previous_boundary,
                seed.current_boundary,
                seq![boundary_key(seed.previous_boundary), boundary_key(seed.current_boundary)],
            );
        }
    }
}

} // verus!
