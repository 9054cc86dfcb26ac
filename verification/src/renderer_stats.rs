//! Renderer-level statistics: timings of the raster paths, the solid-fan
//! probe counters, triangle size buckets, and the pieces of their log lines.
use vstd::prelude::*;
use crate::raster::{
    TexturedQuadFastPathRejection, TriangleClassification, TriangleRasterBounds,
    TriangleTexelSample, bounds_area,
};
use crate::raster_stats::RasterStats;
use crate::text::{decimal, fields_text, push_decimal, push_fields, push_str, str_views};

verus! {

// ---------------------------------------------------------------------------
// Raster timings.
// ---------------------------------------------------------------------------
/// Microseconds spent in each raster path over a frame.
#[derive(Clone, Copy, Debug, PartialEq, Eq, Structural)]
pub struct RasterTimings {
    pub quad_window_probe: u128,
    pub solid_quad: u128,
    pub solid_quad_reject: u128,
    pub textured_quad: u128,
    pub textured_quad_reject: u128,
    pub solid_fan_probe: u128,
    pub solid_fan_accepted_probe: u128,
    pub solid_fan_rejected_probe: u128,
    pub solid_fan_raster: u128,
    pub generic_solid_triangle: u128,
    pub generic_textured_triangle: u128,
    pub generic_degenerate_triangle: u128,
}

impl Default for RasterTimings {
    fn default() -> (t: Self)
        ensures
            t == (RasterTimings {
                quad_window_probe: 0,
                solid_quad: 0,
                solid_quad_reject: 0,
                textured_quad: 0,
                textured_quad_reject: 0,
                solid_fan_probe: 0,
                solid_fan_accepted_probe: 0,
                solid_fan_rejected_probe: 0,
                solid_fan_raster: 0,
                generic_solid_triangle: 0,
                generic_textured_triangle: 0,
                generic_degenerate_triangle: 0,
            }),
    {
        RasterTimings {
            quad_window_probe: 0,
            solid_quad: 0,
            solid_quad_reject: 0,
            textured_quad: 0,
            textured_quad_reject: 0,
            solid_fan_probe: 0,
            solid_fan_accepted_probe: 0,
            solid_fan_rejected_probe: 0,
            solid_fan_raster: 0,
            generic_solid_triangle: 0,
            generic_textured_triangle: 0,
            generic_degenerate_triangle: 0,
        }
    }
}

pub open spec fn raster_timing_names() -> Seq<Seq<char>> {
    seq![
        "quad_window_probe_us"@,
        "solid_quad_us"@,
        "solid_quad_reject_us"@,
        "textured_quad_us"@,
        "textured_quad_reject_us"@,
        "solid_fan_probe_us"@,
        "solid_fan_accepted_probe_us"@,
        "solid_fan_rejected_probe_us"@,
        "solid_fan_raster_us"@,
        "generic_solid_triangle_us"@,
        "generic_textured_triangle_us"@,
        "generic_degenerate_triangle_us"@,
    ]
}

pub open spec fn raster_timing_values(t: RasterTimings) -> Seq<u128> {
    seq![
        t.quad_window_probe,
        t.solid_quad,
        t.solid_quad_reject,
        t.textured_quad,
        t.textured_quad_reject,
        t.solid_fan_probe,
        t.solid_fan_accepted_probe,
        t.solid_fan_rejected_probe,
        t.solid_fan_raster,
        t.generic_solid_triangle,
        t.generic_textured_triangle,
        t.generic_degenerate_triangle,
    ]
}

pub open spec fn raster_timings_log_text(t: RasterTimings) -> Seq<char> {
    "software renderer raster_timings"@ + fields_text(raster_timing_names(), raster_timing_values(t))
}

impl RasterTimings {
    pub fn record_solid_quad_reject(&mut self, elapsed_us: u128)
        requires
            old(self).solid_quad_reject + elapsed_us <= u128::MAX,
        ensures
            *final(self) == (RasterTimings {
                solid_quad_reject: (old(self).solid_quad_reject + elapsed_us) as u128,
                ..*old(self)
            }),
    {
        self.solid_quad_reject = self.solid_quad_reject + elapsed_us;
    }

    pub fn record_textured_quad_reject(&mut self, elapsed_us: u128)
        requires
            old(self).textured_quad_reject + elapsed_us <= u128::MAX,
        ensures
            *final(self) == (RasterTimings {
                textured_quad_reject: (old(self).textured_quad_reject + elapsed_us) as u128,
                ..*old(self)
            }),
    {
        self.textured_quad_reject = self.textured_quad_reject + elapsed_us;
    }

    /// Adds a generic triangle's time to the total of its class.
    pub fn record_generic_triangle(
        &mut self,
        classification: TriangleClassification,
        elapsed_us: u128,
    )
        requires
            classification == TriangleClassification::Degenerate ==> old(self).generic_degenerate_triangle + elapsed_us <= u128::MAX,
            classification == TriangleClassification::Solid ==> old(self).generic_solid_triangle
                + elapsed_us <= u128::MAX,
            classification == TriangleClassification::Textured ==> old(self).generic_textured_triangle + elapsed_us <= u128::MAX,
        ensures
            *final(self) == match classification {
                TriangleClassification::Degenerate => RasterTimings {
                    generic_degenerate_triangle: (old(self).generic_degenerate_triangle
                        + elapsed_us) as u128,
                    ..*old(self)
                },
                TriangleClassification::Solid => RasterTimings {
                    generic_solid_triangle: (old(self).generic_solid_triangle
                        + elapsed_us) as u128,
                    ..*old(self)
                },
                TriangleClassification::Textured => RasterTimings {
                    generic_textured_triangle: (old(self).generic_textured_triangle
                        + elapsed_us) as u128,
                    ..*old(self)
                },
            },
    {
        match classification {
            TriangleClassification::Degenerate => {
                self.generic_degenerate_triangle = self.generic_degenerate_triangle + elapsed_us;
            },
            TriangleClassification::Solid => {
                self.generic_solid_triangle = self.generic_solid_triangle + elapsed_us;
            },
            TriangleClassification::Textured => {
                self.generic_textured_triangle = self.generic_textured_triangle + elapsed_us;
            },
        }
    }

    /// Adds a fan probe's time to the probe total and to the accepted or
    /// rejected total.
    pub fn record_solid_fan_probe(&mut self, accepted: bool, elapsed_us: u128)
        requires
            old(self).solid_fan_probe + elapsed_us <= u128::MAX,
            accepted ==> old(self).solid_fan_accepted_probe + elapsed_us <= u128::MAX,
            !accepted ==> old(self).solid_fan_rejected_probe + elapsed_us <= u128::MAX,
        ensures
            *final(self) == if accepted {
                RasterTimings {
                    solid_fan_probe: (old(self).solid_fan_probe + elapsed_us) as u128,
                    solid_fan_accepted_probe: (old(self).solid_fan_accepted_probe
                        + elapsed_us) as u128,
                    ..*old(self)
                }
            } else {
                RasterTimings {
                    solid_fan_probe: (old(self).solid_fan_probe + elapsed_us) as u128,
                    solid_fan_rejected_probe: (old(self).solid_fan_rejected_probe
                        + elapsed_us) as u128,
                    ..*old(self)
                }
            },
            final(self).solid_fan_probe - old(self).solid_fan_probe == (final(self).solid_fan_accepted_probe - old(self).solid_fan_accepted_probe) + (final(self).solid_fan_rejected_probe - old(self).solid_fan_rejected_probe),
    {
        self.solid_fan_probe = self.solid_fan_probe + elapsed_us;
        if accepted {
            self.solid_fan_accepted_probe = self.solid_fan_accepted_probe + elapsed_us;
        } else {
            self.solid_fan_rejected_probe = self.solid_fan_rejected_probe + elapsed_us;
        }
    }

    pub fn log_line(&self) -> (line: String)
        ensures
            line@ == raster_timings_log_text(*self),
    {
        let names = vec![
            "quad_window_probe_us",
            "solid_quad_us",
            "solid_quad_reject_us",
            "textured_quad_us",
            "textured_quad_reject_us",
            "solid_fan_probe_us",
            "solid_fan_accepted_probe_us",
            "solid_fan_rejected_probe_us",
            "solid_fan_raster_us",
            "generic_solid_triangle_us",
            "generic_textured_triangle_us",
            "generic_degenerate_triangle_us",
        ];
        let values = vec![
            self.quad_window_probe,
            self.solid_quad,
            self.solid_quad_reject,
            self.textured_quad,
            self.textured_quad_reject,
            self.solid_fan_probe,
            self.solid_fan_accepted_probe,
            self.solid_fan_rejected_probe,
            self.solid_fan_raster,
            self.generic_solid_triangle,
            self.generic_textured_triangle,
            self.generic_degenerate_triangle,
        ];
        assert(str_views(names@) =~= raster_timing_names());
        assert(values@ =~= raster_timing_values(*self));
        let mut line = String::new();
        push_str(&mut line, "software renderer raster_timings");
        push_fields(&mut line, names.as_slice(), values.as_slice());
        line
    }
}

// ---------------------------------------------------------------------------
// Solid-fan probe counters.
// ---------------------------------------------------------------------------
#[derive(Clone, Copy, Debug, Default, PartialEq, Eq, Structural)]
pub struct SolidFanProbeStats {
    pub probe_calls: usize,
    pub preflight_reject_too_few_triangles: usize,
    pub rejected_probe_calls: usize,
    pub center_slot_attempts: usize,
    pub cheap_candidate_attempts: usize,
    pub candidate_triangles_scanned: usize,
    pub accepted_candidate_triangles_scanned: usize,
    pub rejected_candidate_triangles_scanned: usize,
    pub repeated_boundary_checks: usize,
    pub repeated_boundary_comparisons: usize,
    pub reject_no_candidate: usize,
    pub reject_too_short: usize,
    pub reject_vertex_lookup_failure: usize,
    pub reject_winding_mismatch_or_non_finite: usize,
    pub reject_repeated_boundary: usize,
    pub reject_unsafe_polygon: usize,
    pub reject_color_or_bounds_mismatch: usize,
    pub reject_scratch_overflow: usize,
    pub accepted_runs: usize,
    pub accepted_triangles: usize,
    pub polygon_builds: usize,
    pub max_candidate_triangles: usize,
    pub max_accepted_triangles: usize,
}

#[derive(Clone, Copy, Debug, PartialEq, Eq, Structural)]
pub enum SolidFanProbeRejectReason {
    NoCandidate,
    TooShort,
    VertexLookupFailure,
    WindingMismatchOrNonFinite,
    RepeatedBoundary,
    UnsafePolygon,
    ColorOrBoundsMismatch,
    ScratchOverflow,
}

/// The reject counter of each reason.
pub open spec fn reject_count(s: SolidFanProbeStats, reason: SolidFanProbeRejectReason) -> usize {
    match reason {
        SolidFanProbeRejectReason::NoCandidate => s.reject_no_candidate,
        SolidFanProbeRejectReason::TooShort => s.reject_too_short,
        SolidFanProbeRejectReason::VertexLookupFailure => s.reject_vertex_lookup_failure,
        SolidFanProbeRejectReason::WindingMismatchOrNonFinite => s.reject_winding_mismatch_or_non_finite,
        SolidFanProbeRejectReason::RepeatedBoundary => s.reject_repeated_boundary,
        SolidFanProbeRejectReason::UnsafePolygon => s.reject_unsafe_polygon,
        SolidFanProbeRejectReason::ColorOrBoundsMismatch => s.reject_color_or_bounds_mismatch,
        SolidFanProbeRejectReason::ScratchOverflow => s.reject_scratch_overflow,
    }
}

pub open spec fn max_usize(a: usize, b: usize) -> usize {
    if a >= b {
        a
    } else {
        b
    }
}

pub open spec fn zero_probe_stats() -> SolidFanProbeStats {
    SolidFanProbeStats {
        probe_calls: 0,
        preflight_reject_too_few_triangles: 0,
        rejected_probe_calls: 0,
        center_slot_attempts: 0,
        cheap_candidate_attempts: 0,
        candidate_triangles_scanned: 0,
        accepted_candidate_triangles_scanned: 0,
        rejected_candidate_triangles_scanned: 0,
        repeated_boundary_checks: 0,
        repeated_boundary_comparisons: 0,
        reject_no_candidate: 0,
        reject_too_short: 0,
        reject_vertex_lookup_failure: 0,
        reject_winding_mismatch_or_non_finite: 0,
        reject_repeated_boundary: 0,
        reject_unsafe_polygon: 0,
        reject_color_or_bounds_mismatch: 0,
        reject_scratch_overflow: 0,
        accepted_runs: 0,
        accepted_triangles: 0,
        polygon_builds: 0,
        max_candidate_triangles: 0,
        max_accepted_triangles: 0,
    }
}

pub open spec fn after_reject(s: SolidFanProbeStats, reason: SolidFanProbeRejectReason) -> SolidFanProbeStats {
    match reason {
        SolidFanProbeRejectReason::NoCandidate => SolidFanProbeStats {
            reject_no_candidate: (s.reject_no_candidate + 1) as usize,
            ..s
        },
        SolidFanProbeRejectReason::TooShort => SolidFanProbeStats {
            reject_too_short: (s.reject_too_short + 1) as usize,
            ..s
        },
        SolidFanProbeRejectReason::VertexLookupFailure => SolidFanProbeStats {
            reject_vertex_lookup_failure: (s.reject_vertex_lookup_failure + 1) as usize,
            ..s
        },
        SolidFanProbeRejectReason::WindingMismatchOrNonFinite => SolidFanProbeStats {
            reject_winding_mismatch_or_non_finite: (s.reject_winding_mismatch_or_non_finite
                + 1) as usize,
            ..s
        },
        SolidFanProbeRejectReason::RepeatedBoundary => SolidFanProbeStats {
            reject_repeated_boundary: (s.reject_repeated_boundary + 1) as usize,
            ..s
        },
        SolidFanProbeRejectReason::UnsafePolygon => SolidFanProbeStats {
            reject_unsafe_polygon: (s.reject_unsafe_polygon + 1) as usize,
            ..s
        },
        SolidFanProbeRejectReason::ColorOrBoundsMismatch => SolidFanProbeStats {
            reject_color_or_bounds_mismatch: (s.reject_color_or_bounds_mismatch + 1) as usize,
            ..s
        },
        SolidFanProbeRejectReason::ScratchOverflow => SolidFanProbeStats {
            reject_scratch_overflow: (s.reject_scratch_overflow + 1) as usize,
            ..s
        },
    }
}

/// Recording a rejection adds one to that reason's counter and to no other.
pub proof fn lemma_reject_counts_only_its_reason(
    s: SolidFanProbeStats,
    reason: SolidFanProbeRejectReason,
    other: SolidFanProbeRejectReason,
)
    requires
        reject_count(s, reason) < usize::MAX,
    ensures
        reject_count(after_reject(s, reason), reason) == reject_count(s, reason) + 1,
        other != reason ==> reject_count(after_reject(s, reason), other) == reject_count(s, other),
{
}

impl SolidFanProbeStats {
    /// All counters zero.
    pub fn zeroed() -> (s: Self)
        ensures
            s == zero_probe_stats(),
    {
        SolidFanProbeStats {
            probe_calls: 0,
            preflight_reject_too_few_triangles: 0,
            rejected_probe_calls: 0,
            center_slot_attempts: 0,
            cheap_candidate_attempts: 0,
            candidate_triangles_scanned: 0,
            accepted_candidate_triangles_scanned: 0,
            rejected_candidate_triangles_scanned: 0,
            repeated_boundary_checks: 0,
            repeated_boundary_comparisons: 0,
            reject_no_candidate: 0,
            reject_too_short: 0,
            reject_vertex_lookup_failure: 0,
            reject_winding_mismatch_or_non_finite: 0,
            reject_repeated_boundary: 0,
            reject_unsafe_polygon: 0,
            reject_color_or_bounds_mismatch: 0,
            reject_scratch_overflow: 0,
            accepted_runs: 0,
            accepted_triangles: 0,
            polygon_builds: 0,
            max_candidate_triangles: 0,
            max_accepted_triangles: 0,
        }
    }

    /// Counts one rejection under its reason; every other counter stays.
    pub fn record_reject(&mut self, reason: SolidFanProbeRejectReason)
        requires
            reject_count(*old(self), reason) < usize::MAX,
        ensures
            *final(self) == after_reject(*old(self), reason),
    {
        match reason {
            SolidFanProbeRejectReason::NoCandidate => {
                self.reject_no_candidate = self.reject_no_candidate + 1;
            },
            SolidFanProbeRejectReason::TooShort => {
                self.reject_too_short = self.reject_too_short + 1;
            },
            SolidFanProbeRejectReason::VertexLookupFailure => {
                self.reject_vertex_lookup_failure = self.reject_vertex_lookup_failure + 1;
            },
            SolidFanProbeRejectReason::WindingMismatchOrNonFinite => {
                self.reject_winding_mismatch_or_non_finite = self.reject_winding_mismatch_or_non_finite
                    + 1;
            },
            SolidFanProbeRejectReason::RepeatedBoundary => {
                self.reject_repeated_boundary = self.reject_repeated_boundary + 1;
            },
            SolidFanProbeRejectReason::UnsafePolygon => {
                self.reject_unsafe_polygon = self.reject_unsafe_polygon + 1;
            },
            SolidFanProbeRejectReason::ColorOrBoundsMismatch => {
                self.reject_color_or_bounds_mismatch = self.reject_color_or_bounds_mismatch + 1;
            },
            SolidFanProbeRejectReason::ScratchOverflow => {
                self.reject_scratch_overflow = self.reject_scratch_overflow + 1;
            },
        }
    }

    /// Keeps the largest candidate triangle count seen.
    pub fn record_candidate_triangles(&mut self, triangle_count: usize)
        ensures
            *final(self) == (SolidFanProbeStats {
                max_candidate_triangles: max_usize(old(self).max_candidate_triangles, triangle_count),
                ..*old(self)
            }),
    {
        if triangle_count > self.max_candidate_triangles {
            self.max_candidate_triangles = triangle_count;
        }
    }

    /// Attributes the triangles scanned since `candidate_triangles_scanned_before`
    /// (zero if the counter is below it) to an accepted or a rejected probe.
    pub fn record_probe_candidate_triangles(
        &mut self,
        accepted: bool,
        candidate_triangles_scanned_before: usize,
    )
        requires
            ({
                let scanned = if old(self).candidate_triangles_scanned
                    >= candidate_triangles_scanned_before {
                    old(self).candidate_triangles_scanned - candidate_triangles_scanned_before
                } else {
                    0
                };
                &&& accepted ==> old(self).accepted_candidate_triangles_scanned + scanned
                    <= usize::MAX
                &&& !accepted ==> old(self).rejected_candidate_triangles_scanned + scanned
                    <= usize::MAX
            }),
        ensures
            ({
                let scanned = if old(self).candidate_triangles_scanned
                    >= candidate_triangles_scanned_before {
                    old(self).candidate_triangles_scanned - candidate_triangles_scanned_before
                } else {
                    0
                };
                *final(self) == if accepted {
                    SolidFanProbeStats {
                        accepted_candidate_triangles_scanned: (
                        old(self).accepted_candidate_triangles_scanned + scanned) as usize,
                        ..*old(self)
                    }
                } else {
                    SolidFanProbeStats {
                        rejected_candidate_triangles_scanned: (
                        old(self).rejected_candidate_triangles_scanned + scanned) as usize,
                        ..*old(self)
                    }
                }
            }),
    {
        let scanned = self.candidate_triangles_scanned.saturating_sub(
            candidate_triangles_scanned_before,
        );
        if accepted {
            self.accepted_candidate_triangles_scanned = self.accepted_candidate_triangles_scanned
                + scanned;
        } else {
            self.rejected_candidate_triangles_scanned = self.rejected_candidate_triangles_scanned
                + scanned;
        }
    }

    /// Counts an accepted run of `triangle_count` triangles and keeps the
    /// largest accepted run.
    pub fn record_accepted(&mut self, triangle_count: usize)
        requires
            old(self).accepted_runs < usize::MAX,
            old(self).accepted_triangles + triangle_count <= usize::MAX,
        ensures
            *final(self) == (SolidFanProbeStats {
                accepted_runs: (old(self).accepted_runs + 1) as usize,
                accepted_triangles: (old(self).accepted_triangles + triangle_count) as usize,
                max_accepted_triangles: max_usize(old(self).max_accepted_triangles, triangle_count),
                ..*old(self)
            }),
    {
        self.accepted_runs = self.accepted_runs + 1;
        self.accepted_triangles = self.accepted_triangles + triangle_count;
        if triangle_count > self.max_accepted_triangles {
            self.max_accepted_triangles = triangle_count;
        }
    }
}


/// Counts a fan probe that ran out of scratch space after `triangle_count`
/// triangles.
pub fn record_scratch_overflow(stats: &mut SolidFanProbeStats, triangle_count: usize)
    requires
        old(stats).reject_scratch_overflow < usize::MAX,
    ensures
        *final(stats) == (SolidFanProbeStats {
            reject_scratch_overflow: (old(stats).reject_scratch_overflow + 1) as usize,
            max_candidate_triangles: max_usize(old(stats).max_candidate_triangles, triangle_count),
            ..*old(stats)
        }),
{
    stats.record_reject(SolidFanProbeRejectReason::ScratchOverflow);
    stats.record_candidate_triangles(triangle_count);
}


/// Reborrows the target of an optional mutable reference for as long as the
/// option itself is borrowed.
pub fn borrow_optional_mut<'a, T>(option: &'a mut Option<&mut T>) -> (r: Option<&'a mut T>)
    ensures
        r is Some <==> (*old(option)) is Some,
        r matches Some(v) ==> *v == *(*old(option))->0,
        r matches Some(v) ==> *final(v) == *(*final(option))->0,
{
    match option {
        Some(value) => Some(&mut **value),
        None => None,
    }
}

// ---------------------------------------------------------------------------
// Fan work and sources.
// ---------------------------------------------------------------------------
/// Where a triangle came from: its primitive and its offset in the mesh's
/// index list.
#[derive(Clone, Copy, Debug, PartialEq, Eq, Structural)]
pub struct TriangleSource {
    pub primitive_index: usize,
    pub mesh_index_offset: usize,
}

/// The raster work a solid fan did, as counted in `RasterStats`.
#[derive(Clone, Copy, Debug, Default, PartialEq, Eq, Structural)]
pub struct SolidFanRasterWork {
    pub px: usize,
    pub rows: usize,
    pub edge_intersections: usize,
    pub endpoint_probe_px: usize,
    pub fallback_rows: usize,
}

pub open spec fn saturating_sub(a: usize, b: usize) -> usize {
    if a >= b {
        (a - b) as usize
    } else {
        0
    }
}

impl SolidFanRasterWork {
    pub fn from_stats(stats: &RasterStats) -> (w: Self)
        ensures
            w == (SolidFanRasterWork {
                px: stats.solid_fan_px,
                rows: stats.solid_fan_rows,
                edge_intersections: stats.solid_fan_edge_intersections,
                endpoint_probe_px: stats.solid_fan_endpoint_probe_px,
                fallback_rows: stats.solid_fan_fallback_rows,
            }),
    {
        SolidFanRasterWork {
            px: stats.solid_fan_px,
            rows: stats.solid_fan_rows,
            edge_intersections: stats.solid_fan_edge_intersections,
            endpoint_probe_px: stats.solid_fan_endpoint_probe_px,
            fallback_rows: stats.solid_fan_fallback_rows,
        }
    }

    /// The work done between two snapshots, field by field, never below zero.
    pub fn saturating_difference(self, rhs: Self) -> (w: Self)
        ensures
            w == (SolidFanRasterWork {
                px: saturating_sub(self.px, rhs.px),
                rows: saturating_sub(self.rows, rhs.rows),
                edge_intersections: saturating_sub(self.edge_intersections, rhs.edge_intersections),
                endpoint_probe_px: saturating_sub(self.endpoint_probe_px, rhs.endpoint_probe_px),
                fallback_rows: saturating_sub(self.fallback_rows, rhs.fallback_rows),
            }),
    {
        SolidFanRasterWork {
            px: self.px.saturating_sub(rhs.px),
            rows: self.rows.saturating_sub(rhs.rows),
            edge_intersections: self.edge_intersections.saturating_sub(rhs.edge_intersections),
            endpoint_probe_px: self.endpoint_probe_px.saturating_sub(rhs.endpoint_probe_px),
            fallback_rows: self.fallback_rows.saturating_sub(rhs.fallback_rows),
        }
    }
}

// ---------------------------------------------------------------------------
// Triangle size buckets.
// ---------------------------------------------------------------------------
pub const TRIANGLE_BBOX_BUCKETS: usize = 6;

/// The bucket of a clipped bounding-box area: at most 4, 16, 64, 256, 1024
/// pixels, or more.
pub open spec fn bbox_bucket(px: int) -> int {
    if px <= 4 {
        0
    } else if px <= 16 {
        1
    } else if px <= 64 {
        2
    } else if px <= 256 {
        3
    } else if px <= 1024 {
        4
    } else {
        5
    }
}

#[derive(Clone, Copy, Debug, Default, PartialEq, Eq)]
pub struct TriangleBboxBuckets {
    pub counts: [usize; 6],
}

pub open spec fn buckets_text(b: TriangleBboxBuckets) -> Seq<char> {
    decimal(b.counts@[0] as nat) + ","@ + decimal(b.counts@[1] as nat) + ","@ + decimal(
        b.counts@[2] as nat,
    ) + ","@ + decimal(b.counts@[3] as nat) + ","@ + decimal(b.counts@[4] as nat) + ","@
        + decimal(b.counts@[5] as nat)
}

impl TriangleBboxBuckets {
    /// Counts one triangle in the bucket of its clipped bounding-box area.
    pub fn record(&mut self, clipped_bbox_px: usize)
        requires
            old(self).counts@[bbox_bucket(clipped_bbox_px as int)] < usize::MAX,
        ensures
            final(self).counts@ == old(self).counts@.update(
                bbox_bucket(clipped_bbox_px as int),
                (old(self).counts@[bbox_bucket(clipped_bbox_px as int)] + 1) as usize,
            ),
    {
        let bucket: usize = if clipped_bbox_px <= 4 {
            0
        } else if clipped_bbox_px <= 16 {
            1
        } else if clipped_bbox_px <= 64 {
            2
        } else if clipped_bbox_px <= 256 {
            3
        } else if clipped_bbox_px <= 1024 {
            4
        } else {
            5
        };
        let count = self.counts[bucket];
        self.counts.set(bucket, count + 1);
    }

    /// The six counts, comma separated.
    pub fn to_log_text(&self) -> (s: String)
        ensures
            s@ == buckets_text(*self),
    {
        let mut s = String::new();
        push_decimal(&mut s, self.counts[0] as u128);
        push_str(&mut s, ",");
        push_decimal(&mut s, self.counts[1] as u128);
        push_str(&mut s, ",");
        push_decimal(&mut s, self.counts[2] as u128);
        push_str(&mut s, ",");
        push_decimal(&mut s, self.counts[3] as u128);
        push_str(&mut s, ",");
        push_decimal(&mut s, self.counts[4] as u128);
        push_str(&mut s, ",");
        push_decimal(&mut s, self.counts[5] as u128);
        s
    }
}

// ---------------------------------------------------------------------------
// Bounds.
// ---------------------------------------------------------------------------
pub open spec fn spec_union_raster_bounds(
    first: Option<TriangleRasterBounds>,
    second: Option<TriangleRasterBounds>,
) -> Option<TriangleRasterBounds> {
    match (first, second) {
        (Some(a), Some(b)) => Some(
            TriangleRasterBounds {
                min_x: if a.min_x <= b.min_x {
                    a.min_x
                } else {
                    b.min_x
                },
                min_y: if a.min_y <= b.min_y {
                    a.min_y
                } else {
                    b.min_y
                },
                max_x: if a.max_x >= b.max_x {
                    a.max_x
                } else {
                    b.max_x
                },
                max_y: if a.max_y >= b.max_y {
                    a.max_y
                } else {
                    b.max_y
                },
            },
        ),
        (Some(a), None) => Some(a),
        (None, Some(b)) => Some(b),
        (None, None) => None,
    }
}

/// The smallest box holding both boxes (or the one that is there).
pub fn union_raster_bounds(
    first: Option<TriangleRasterBounds>,
    second: Option<TriangleRasterBounds>,
) -> (r: Option<TriangleRasterBounds>)
    ensures
        r == spec_union_raster_bounds(first, second),
{
    match (first, second) {
        (Some(a), Some(b)) => Some(
            TriangleRasterBounds {
                min_x: if a.min_x <= b.min_x {
                    a.min_x
                } else {
                    b.min_x
                },
                min_y: if a.min_y <= b.min_y {
                    a.min_y
                } else {
                    b.min_y
                },
                max_x: if a.max_x >= b.max_x {
                    a.max_x
                } else {
                    b.max_x
                },
                max_y: if a.max_y >= b.max_y {
                    a.max_y
                } else {
                    b.max_y
                },
            },
        ),
        (Some(a), None) => Some(a),
        (None, Some(b)) => Some(b),
        (None, None) => None,
    }
}

/// Every point of either box lies in the union, and the union is symmetric.
pub proof fn lemma_union_raster_bounds_contains_both(
    first: Option<TriangleRasterBounds>,
    second: Option<TriangleRasterBounds>,
)
    ensures
        spec_union_raster_bounds(first, second) == spec_union_raster_bounds(second, first),
        spec_union_raster_bounds(first, second) is None <==> first is None && second is None,
        forall|b: TriangleRasterBounds|
            (first == Some(b) || second == Some(b)) ==> {
                let u = spec_union_raster_bounds(first, second)->0;
                u.min_x <= b.min_x && u.min_y <= b.min_y && b.max_x <= u.max_x && b.max_y
                    <= u.max_y
            },
{
}

// ---------------------------------------------------------------------------
// Log-line pieces.
// ---------------------------------------------------------------------------
pub open spec fn bounds_text(b: TriangleRasterBounds) -> Seq<char> {
    decimal(b.min_x as nat) + ","@ + decimal(b.min_y as nat) + ","@ + decimal(b.max_x as nat)
        + ","@ + decimal(b.max_y as nat)
}

/// `min_x,min_y,max_x,max_y`.
pub fn format_bounds(bounds: TriangleRasterBounds) -> (s: String)
    ensures
        s@ == bounds_text(bounds),
{
    let mut s = String::new();
    push_decimal(&mut s, bounds.min_x as u128);
    push_str(&mut s, ",");
    push_decimal(&mut s, bounds.min_y as u128);
    push_str(&mut s, ",");
    push_decimal(&mut s, bounds.max_x as u128);
    push_str(&mut s, ",");
    push_decimal(&mut s, bounds.max_y as u128);
    s
}

pub open spec fn alphas_text(alphas: [u8; 6]) -> Seq<char> {
    decimal(alphas@[0] as nat) + ","@ + decimal(alphas@[1] as nat) + ","@ + decimal(
        alphas@[2] as nat,
    ) + ","@ + decimal(alphas@[3] as nat) + ","@ + decimal(alphas@[4] as nat) + ","@ + decimal(
        alphas@[5] as nat,
    )
}

/// The six vertex alphas of a quad, comma separated.
pub fn format_alphas(alphas: [u8; 6]) -> (s: String)
    ensures
        s@ == alphas_text(alphas),
{
    let mut s = String::new();
    push_decimal(&mut s, alphas[0] as u128);
    push_str(&mut s, ",");
    push_decimal(&mut s, alphas[1] as u128);
    push_str(&mut s, ",");
    push_decimal(&mut s, alphas[2] as u128);
    push_str(&mut s, ",");
    push_decimal(&mut s, alphas[3] as u128);
    push_str(&mut s, ",");
    push_decimal(&mut s, alphas[4] as u128);
    push_str(&mut s, ",");
    push_decimal(&mut s, alphas[5] as u128);
    s
}

pub open spec fn rejection_name(rejection: TexturedQuadFastPathRejection) -> Seq<char> {
    match rejection {
        TexturedQuadFastPathRejection::NotRectangleDiagonal => "not_rectangle_diagonal"@,
        TexturedQuadFastPathRejection::NotAxisAlignedRectangle => "not_axis_aligned_rectangle"@,
        TexturedQuadFastPathRejection::CornerAttributeMismatch => "corner_attribute_mismatch"@,
        TexturedQuadFastPathRejection::NonUniformColor => "non_uniform_color"@,
        TexturedQuadFastPathRejection::NonAffineUv => "non_affine_uv"@,
    }
}

pub fn format_textured_quad_rejection(rejection: TexturedQuadFastPathRejection) -> (s:
    &'static str)
    ensures
        s@ == rejection_name(rejection),
{
    match rejection {
        TexturedQuadFastPathRejection::NotRectangleDiagonal => "not_rectangle_diagonal",
        TexturedQuadFastPathRejection::NotAxisAlignedRectangle => "not_axis_aligned_rectangle",
        TexturedQuadFastPathRejection::CornerAttributeMismatch => "corner_attribute_mismatch",
        TexturedQuadFastPathRejection::NonUniformColor => "non_uniform_color",
        TexturedQuadFastPathRejection::NonAffineUv => "non_affine_uv",
    }
}

pub open spec fn texels_text(sample: TriangleTexelSample) -> Seq<char> {
    match sample.texels {
        Some(t) => decimal(t@[0].0 as nat) + ","@ + decimal(t@[0].1 as nat) + ";"@ + decimal(
            t@[1].0 as nat,
        ) + ","@ + decimal(t@[1].1 as nat) + ";"@ + decimal(t@[2].0 as nat) + ","@ + decimal(
            t@[2].1 as nat,
        ),
        None => "empty"@,
    }
}

/// The three texels of a sample as `x,y;x,y;x,y`, or `empty`.
pub fn format_triangle_texels(sample: TriangleTexelSample) -> (s: String)
    ensures
        s@ == texels_text(sample),
{
    let mut s = String::new();
    match sample.texels {
        Some(t) => {
            push_decimal(&mut s, t[0].0 as u128);
            push_str(&mut s, ",");
            push_decimal(&mut s, t[0].1 as u128);
            push_str(&mut s, ";");
            push_decimal(&mut s, t[1].0 as u128);
            push_str(&mut s, ",");
            push_decimal(&mut s, t[1].1 as u128);
            push_str(&mut s, ";");
            push_decimal(&mut s, t[2].0 as u128);
            push_str(&mut s, ",");
            push_decimal(&mut s, t[2].1 as u128);
        },
        None => {
            push_str(&mut s, "empty");
        },
    }
    s
}

pub open spec fn rgba_text(color: Option<[u8; 4]>) -> Seq<char> {
    match color {
        Some(c) => decimal(c@[0] as nat) + ","@ + decimal(c@[1] as nat) + ","@ + decimal(
            c@[2] as nat,
        ) + ","@ + decimal(c@[3] as nat),
        None => "none"@,
    }
}

/// A color as `r,g,b,a`, or `none`.
pub fn format_texel_rgba(color: Option<[u8; 4]>) -> (s: String)
    ensures
        s@ == rgba_text(color),
{
    let mut s = String::new();
    match color {
        Some(c) => {
            push_decimal(&mut s, c[0] as u128);
            push_str(&mut s, ",");
            push_decimal(&mut s, c[1] as u128);
            push_str(&mut s, ",");
            push_decimal(&mut s, c[2] as u128);
            push_str(&mut s, ",");
            push_decimal(&mut s, c[3] as u128);
        },
        None => {
            push_str(&mut s, "none");
        },
    }
    s
}

// ---------------------------------------------------------------------------
// Fan shape keys.
// ---------------------------------------------------------------------------
pub const SHAPE_KEY_OFFSET_BASIS: u64 = 0xcbf2_9ce4_8422_2325;

pub const SHAPE_KEY_PRIME: u64 = 0x0000_0100_0000_01b3;

/// One step of the 64-bit FNV-1a mix: xor, then multiply modulo 2^64.
pub open spec fn spec_mix_shape_key(hash: u64, value: u64) -> u64 {
    (((hash ^ value) as int * SHAPE_KEY_PRIME as int) % 0x1_0000_0000_0000_0000int) as u64
}

pub fn mix_shape_key(hash: u64, value: u64) -> (r: u64)
    ensures
        r == spec_mix_shape_key(hash, value),
{
    (hash ^ value).wrapping_mul(SHAPE_KEY_PRIME)
}

/// The values a fan's shape key mixes, in order.
pub open spec fn shape_key_values(
    bounds: Option<TriangleRasterBounds>,
    alpha: u8,
    polygon_vertices: usize,
    triangle_count: usize,
) -> Seq<u64> {
    let tail = seq![alpha as u64, polygon_vertices as u64, triangle_count as u64];
    match bounds {
        Some(b) => seq![b.min_x as u64, b.min_y as u64, b.max_x as u64, b.max_y as u64] + tail,
        None => tail,
    }
}

pub open spec fn mix_all(hash: u64, values: Seq<u64>) -> u64
    decreases values.len(),
{
    if values.len() == 0 {
        hash
    } else {
        spec_mix_shape_key(mix_all(hash, values.drop_last()), values.last())
    }
}

proof fn lemma_mix_all_push(hash: u64, s: Seq<u64>, x: u64)
    ensures
        mix_all(hash, s.push(x)) == spec_mix_shape_key(mix_all(hash, s), x),
{
    assert(s.push(x).drop_last() =~= s);
}

/// A hash of a fan's shape: its bounds (when it has them), alpha, polygon
/// size and triangle count, mixed in that order from the FNV offset basis.
pub fn solid_fan_shape_key(
    bounds: Option<TriangleRasterBounds>,
    alpha: u8,
    polygon_vertices: usize,
    triangle_count: usize,
) -> (key: u64)
    ensures
        key == mix_all(
            SHAPE_KEY_OFFSET_BASIS,
            shape_key_values(bounds, alpha, polygon_vertices, triangle_count),
        ),
{
    let ghost values = shape_key_values(bounds, alpha, polygon_vertices, triangle_count);
    let mut hash = SHAPE_KEY_OFFSET_BASIS;
    let ghost mut done: Seq<u64> = Seq::empty();
    if let Some(b) = bounds {
        proof { lemma_mix_all_push(SHAPE_KEY_OFFSET_BASIS, done, b.min_x as u64); }
        hash = mix_shape_key(hash, b.min_x as u64);
        proof { done = done.push(b.min_x as u64); }
        proof { lemma_mix_all_push(SHAPE_KEY_OFFSET_BASIS, done, b.min_y as u64); }
        hash = mix_shape_key(hash, b.min_y as u64);
        proof { done = done.push(b.min_y as u64); }
        proof { lemma_mix_all_push(SHAPE_KEY_OFFSET_BASIS, done, b.max_x as u64); }
        hash = mix_shape_key(hash, b.max_x as u64);
        proof { done = done.push(b.max_x as u64); }
        proof { lemma_mix_all_push(SHAPE_KEY_OFFSET_BASIS, done, b.max_y as u64); }
        hash = mix_shape_key(hash, b.max_y as u64);
        proof { done = done.push(b.max_y as u64); }
    }
    proof { lemma_mix_all_push(SHAPE_KEY_OFFSET_BASIS, done, alpha as u64); }
    hash = mix_shape_key(hash, alpha as u64);
    proof { done = done.push(alpha as u64); }
    proof { lemma_mix_all_push(SHAPE_KEY_OFFSET_BASIS, done, polygon_vertices as u64); }
    hash = mix_shape_key(hash, polygon_vertices as u64);
    proof { done = done.push(polygon_vertices as u64); }
    proof { lemma_mix_all_push(SHAPE_KEY_OFFSET_BASIS, done, triangle_count as u64); }
    hash = mix_shape_key(hash, triangle_count as u64);
    proof {
        done = done.push(triangle_count as u64);
        assert(done =~= values);
    }
    hash
}

} // verus!
