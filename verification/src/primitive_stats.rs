//! The renderer's per-frame primitive counters, their log line, and the log
//! line of the slowest solid fans.
use vstd::prelude::*;
use crate::offenders::{
    SOLID_FAN_OFFENDER_LIMIT, SolidFanOffender, SolidFanOffenders, SolidFanRasterRecord,
};
use crate::raster::bounds_area;
use crate::renderer_stats::{
    SolidFanProbeStats, TriangleBboxBuckets, zero_probe_stats, bounds_text, buckets_text, format_bounds,
    shape_key_values, mix_all, SHAPE_KEY_OFFSET_BASIS, solid_fan_shape_key,
};
use crate::text::{decimal, fields_text, hex_digits, push_decimal, push_fields, push_hex_padded, push_str, str_views};

verus! {

broadcast use vstd::seq_lib::group_to_multiset_ensures;

/// Counters of what the renderer met over a frame.
#[derive(Clone, Debug)]
pub struct PrimitiveStats {
    pub mesh_primitives: usize,
    pub callback_primitives: usize,
    pub missing_texture_meshes: usize,
    pub empty_clip_meshes: usize,
    pub mesh_indices: usize,
    pub quad_windows: usize,
    pub four_unique_quad_windows: usize,
    pub quad_windows_not_four_unique_indices: usize,
    pub quad_window_vertex_lookup_failures: usize,
    pub axis_aligned_quad_windows: usize,
    pub solid_axis_aligned_quad_windows: usize,
    pub textured_axis_aligned_quad_windows: usize,
    pub solid_quad_fast_path_hits: usize,
    pub textured_quad_fast_path_hits: usize,
    pub textured_quad_reject_not_rectangle_diagonal: usize,
    pub textured_quad_reject_not_axis_aligned_rectangle: usize,
    pub textured_quad_reject_corner_attribute_mismatch: usize,
    pub textured_quad_reject_non_uniform_color: usize,
    pub textured_quad_reject_non_affine_uv: usize,
    pub solid_fan_probe: SolidFanProbeStats,
    pub solid_fan_runs: usize,
    pub solid_fan_triangles: usize,
    pub generic_triangles_rasterized: usize,
    pub generic_solid_triangles: usize,
    pub generic_textured_triangles: usize,
    pub generic_textured_constant_texel_triangles: usize,
    pub generic_textured_sampled_triangles: usize,
    pub generic_textured_solid_reject_non_uniform_vertex_color: usize,
    pub generic_textured_solid_reject_non_uniform_texel: usize,
    pub generic_textured_non_uniform_color_constant_texel: usize,
    pub generic_textured_non_uniform_color_varying_texel: usize,
    pub degenerate_triangles: usize,
    pub generic_triangle_bbox_px_buckets: TriangleBboxBuckets,
    pub generic_solid_triangle_bbox_px_buckets: TriangleBboxBuckets,
    pub generic_textured_triangle_bbox_px_buckets: TriangleBboxBuckets,
    pub generic_degenerate_triangle_bbox_px_buckets: TriangleBboxBuckets,
    pub generic_triangle_bbox_non_finite: usize,
    pub solid_fan_offenders: SolidFanOffenders,
}

/// The names of the counters the log line writes before the size buckets.
pub open spec fn primitive_stat_names() -> Seq<Seq<char>> {
    seq![
        "mesh_primitives"@,
        "callback_primitives"@,
        "missing_texture_meshes"@,
        "empty_clip_meshes"@,
        "mesh_indices"@,
        "mesh_triangles"@,
        "quad_windows"@,
        "four_unique_quad_windows"@,
        "quad_windows_not_four_unique_indices"@,
        "quad_window_vertex_lookup_failures"@,
        "axis_aligned_quad_windows"@,
        "solid_axis_aligned_quad_windows"@,
        "textured_axis_aligned_quad_windows"@,
        "solid_quad_fast_path_hits"@,
        "textured_quad_fast_path_hits"@,
        "textured_quad_reject_not_rectangle_diagonal"@,
        "textured_quad_reject_not_axis_aligned_rectangle"@,
        "textured_quad_reject_corner_attribute_mismatch"@,
        "textured_quad_reject_non_uniform_color"@,
        "textured_quad_reject_non_affine_uv"@,
        "solid_fan_probe_calls"@,
        "solid_fan_preflight_reject_too_few_triangles"@,
        "solid_fan_rejected_probe_calls"@,
        "solid_fan_center_slot_attempts"@,
        "solid_fan_cheap_candidate_attempts"@,
        "solid_fan_candidate_triangles_scanned"@,
        "solid_fan_accepted_candidate_triangles_scanned"@,
        "solid_fan_rejected_candidate_triangles_scanned"@,
        "solid_fan_repeated_boundary_checks"@,
        "solid_fan_repeated_boundary_comparisons"@,
        "solid_fan_reject_no_candidate"@,
        "solid_fan_reject_too_short"@,
        "solid_fan_reject_vertex_lookup_failure"@,
        "solid_fan_reject_winding_mismatch_or_non_finite"@,
        "solid_fan_reject_repeated_boundary"@,
        "solid_fan_reject_unsafe_polygon"@,
        "solid_fan_reject_color_or_bounds_mismatch"@,
        "solid_fan_reject_scratch_overflow"@,
        "solid_fan_accepted_runs"@,
        "solid_fan_accepted_triangles"@,
        "solid_fan_polygon_builds"@,
        "solid_fan_max_candidate_triangles"@,
        "solid_fan_max_accepted_triangles"@,
        "solid_fan_runs"@,
        "solid_fan_triangles"@,
        "generic_triangles_rasterized"@,
        "generic_solid_triangles"@,
        "generic_textured_triangles"@,
        "generic_textured_constant_texel_triangles"@,
        "generic_textured_sampled_triangles"@,
        "generic_textured_solid_reject_non_uniform_vertex_color"@,
        "generic_textured_solid_reject_non_uniform_texel"@,
        "generic_textured_non_uniform_color_constant_texel"@,
        "generic_textured_non_uniform_color_varying_texel"@,
        "degenerate_triangles"@,
    ]
}

/// The values of those counters; `mesh_triangles` is a third of the mesh indices.
pub open spec fn primitive_stat_values(s: PrimitiveStats) -> Seq<u128> {
    seq![
        s.mesh_primitives as u128,
        s.callback_primitives as u128,
        s.missing_texture_meshes as u128,
        s.empty_clip_meshes as u128,
        s.mesh_indices as u128,
        (s.mesh_indices / 3) as u128,
        s.quad_windows as u128,
        s.four_unique_quad_windows as u128,
        s.quad_windows_not_four_unique_indices as u128,
        s.quad_window_vertex_lookup_failures as u128,
        s.axis_aligned_quad_windows as u128,
        s.solid_axis_aligned_quad_windows as u128,
        s.textured_axis_aligned_quad_windows as u128,
        s.solid_quad_fast_path_hits as u128,
        s.textured_quad_fast_path_hits as u128,
        s.textured_quad_reject_not_rectangle_diagonal as u128,
        s.textured_quad_reject_not_axis_aligned_rectangle as u128,
        s.textured_quad_reject_corner_attribute_mismatch as u128,
        s.textured_quad_reject_non_uniform_color as u128,
        s.textured_quad_reject_non_affine_uv as u128,
        s.solid_fan_probe.probe_calls as u128,
        s.solid_fan_probe.preflight_reject_too_few_triangles as u128,
        s.solid_fan_probe.rejected_probe_calls as u128,
        s.solid_fan_probe.center_slot_attempts as u128,
        s.solid_fan_probe.cheap_candidate_attempts as u128,
        s.solid_fan_probe.candidate_triangles_scanned as u128,
        s.solid_fan_probe.accepted_candidate_triangles_scanned as u128,
        s.solid_fan_probe.rejected_candidate_triangles_scanned as u128,
        s.solid_fan_probe.repeated_boundary_checks as u128,
        s.solid_fan_probe.repeated_boundary_comparisons as u128,
        s.solid_fan_probe.reject_no_candidate as u128,
        s.solid_fan_probe.reject_too_short as u128,
        s.solid_fan_probe.reject_vertex_lookup_failure as u128,
        s.solid_fan_probe.reject_winding_mismatch_or_non_finite as u128,
        s.solid_fan_probe.reject_repeated_boundary as u128,
        s.solid_fan_probe.reject_unsafe_polygon as u128,
        s.solid_fan_probe.reject_color_or_bounds_mismatch as u128,
        s.solid_fan_probe.reject_scratch_overflow as u128,
        s.solid_fan_probe.accepted_runs as u128,
        s.solid_fan_probe.accepted_triangles as u128,
        s.solid_fan_probe.polygon_builds as u128,
        s.solid_fan_probe.max_candidate_triangles as u128,
        s.solid_fan_probe.max_accepted_triangles as u128,
        s.solid_fan_runs as u128,
        s.solid_fan_triangles as u128,
        s.generic_triangles_rasterized as u128,
        s.generic_solid_triangles as u128,
        s.generic_textured_triangles as u128,
        s.generic_textured_constant_texel_triangles as u128,
        s.generic_textured_sampled_triangles as u128,
        s.generic_textured_solid_reject_non_uniform_vertex_color as u128,
        s.generic_textured_solid_reject_non_uniform_texel as u128,
        s.generic_textured_non_uniform_color_constant_texel as u128,
        s.generic_textured_non_uniform_color_varying_texel as u128,
        s.degenerate_triangles as u128,
    ]
}

pub open spec fn primitive_stats_log_text(s: PrimitiveStats, frame_index: u64) -> Seq<char> {
    "software renderer primitive_stats frame="@ + decimal(frame_index as nat) + fields_text(primitive_stat_names(), primitive_stat_values(s))
        + " generic_triangle_bbox_px_buckets_le4_le16_le64_le256_le1024_gt1024="@ + buckets_text(s.generic_triangle_bbox_px_buckets)
        + " generic_solid_triangle_bbox_px_buckets_le4_le16_le64_le256_le1024_gt1024="@ + buckets_text(s.generic_solid_triangle_bbox_px_buckets)
        + " generic_textured_triangle_bbox_px_buckets_le4_le16_le64_le256_le1024_gt1024="@ + buckets_text(s.generic_textured_triangle_bbox_px_buckets)
        + " generic_degenerate_triangle_bbox_px_buckets_le4_le16_le64_le256_le1024_gt1024="@ + buckets_text(s.generic_degenerate_triangle_bbox_px_buckets)
        + " generic_triangle_bbox_non_finite="@ + decimal(s.generic_triangle_bbox_non_finite as nat)
}

impl PrimitiveStats {
    pub open spec fn offender_board(self) -> Seq<SolidFanOffender> {
        self.solid_fan_offenders.board()
    }

    /// The offender board is well formed and every offender on it has
    /// ordered bounds whose area fits a `usize`.
    pub open spec fn well_formed(self) -> bool {
        &&& self.solid_fan_offenders.well_formed()
        &&& forall|i: int| 0 <= i < self.offender_board().len() ==> offender_bounds_ok(#[trigger] self.offender_board()[i])
    }

    pub fn new() -> (s: Self)
        ensures
            s.well_formed(),
            s.offender_board() == Seq::<SolidFanOffender>::empty(),
            s.mesh_primitives == 0,
            s.callback_primitives == 0,
            s.missing_texture_meshes == 0,
            s.empty_clip_meshes == 0,
            s.mesh_indices == 0,
            s.quad_windows == 0,
            s.four_unique_quad_windows == 0,
            s.quad_windows_not_four_unique_indices == 0,
            s.quad_window_vertex_lookup_failures == 0,
            s.axis_aligned_quad_windows == 0,
            s.solid_axis_aligned_quad_windows == 0,
            s.textured_axis_aligned_quad_windows == 0,
            s.solid_quad_fast_path_hits == 0,
            s.textured_quad_fast_path_hits == 0,
            s.textured_quad_reject_not_rectangle_diagonal == 0,
            s.textured_quad_reject_not_axis_aligned_rectangle == 0,
            s.textured_quad_reject_corner_attribute_mismatch == 0,
            s.textured_quad_reject_non_uniform_color == 0,
            s.textured_quad_reject_non_affine_uv == 0,
            s.solid_fan_probe == zero_probe_stats(),
            s.solid_fan_runs == 0,
            s.solid_fan_triangles == 0,
            s.generic_triangles_rasterized == 0,
            s.generic_solid_triangles == 0,
            s.generic_textured_triangles == 0,
            s.generic_textured_constant_texel_triangles == 0,
            s.generic_textured_sampled_triangles == 0,
            s.generic_textured_solid_reject_non_uniform_vertex_color == 0,
            s.generic_textured_solid_reject_non_uniform_texel == 0,
            s.generic_textured_non_uniform_color_constant_texel == 0,
            s.generic_textured_non_uniform_color_varying_texel == 0,
            s.degenerate_triangles == 0,
            s.generic_triangle_bbox_px_buckets.counts@ == seq![0usize, 0, 0, 0, 0, 0],
            s.generic_solid_triangle_bbox_px_buckets.counts@ == seq![0usize, 0, 0, 0, 0, 0],
            s.generic_textured_triangle_bbox_px_buckets.counts@ == seq![0usize, 0, 0, 0, 0, 0],
            s.generic_degenerate_triangle_bbox_px_buckets.counts@ == seq![0usize, 0, 0, 0, 0, 0],
            s.generic_triangle_bbox_non_finite == 0,
    {
        let s = PrimitiveStats {
            mesh_primitives: 0,
            callback_primitives: 0,
            missing_texture_meshes: 0,
            empty_clip_meshes: 0,
            mesh_indices: 0,
            quad_windows: 0,
            four_unique_quad_windows: 0,
            quad_windows_not_four_unique_indices: 0,
            quad_window_vertex_lookup_failures: 0,
            axis_aligned_quad_windows: 0,
            solid_axis_aligned_quad_windows: 0,
            textured_axis_aligned_quad_windows: 0,
            solid_quad_fast_path_hits: 0,
            textured_quad_fast_path_hits: 0,
            textured_quad_reject_not_rectangle_diagonal: 0,
            textured_quad_reject_not_axis_aligned_rectangle: 0,
            textured_quad_reject_corner_attribute_mismatch: 0,
            textured_quad_reject_non_uniform_color: 0,
            textured_quad_reject_non_affine_uv: 0,
            solid_fan_probe: SolidFanProbeStats::zeroed(),
            solid_fan_runs: 0,
            solid_fan_triangles: 0,
            generic_triangles_rasterized: 0,
            generic_solid_triangles: 0,
            generic_textured_triangles: 0,
            generic_textured_constant_texel_triangles: 0,
            generic_textured_sampled_triangles: 0,
            generic_textured_solid_reject_non_uniform_vertex_color: 0,
            generic_textured_solid_reject_non_uniform_texel: 0,
            generic_textured_non_uniform_color_constant_texel: 0,
            generic_textured_non_uniform_color_varying_texel: 0,
            degenerate_triangles: 0,
            generic_triangle_bbox_px_buckets: TriangleBboxBuckets { counts: [0, 0, 0, 0, 0, 0] },
            generic_solid_triangle_bbox_px_buckets: TriangleBboxBuckets { counts: [0, 0, 0, 0, 0, 0] },
            generic_textured_triangle_bbox_px_buckets: TriangleBboxBuckets { counts: [0, 0, 0, 0, 0, 0] },
            generic_degenerate_triangle_bbox_px_buckets: TriangleBboxBuckets { counts: [0, 0, 0, 0, 0, 0] },
            generic_triangle_bbox_non_finite: 0,
            solid_fan_offenders: SolidFanOffenders::new(),
        };
        assert(s.generic_triangle_bbox_px_buckets.counts@ =~= seq![0usize, 0, 0, 0, 0, 0]);
        assert(s.generic_solid_triangle_bbox_px_buckets.counts@ =~= seq![0usize, 0, 0, 0, 0, 0]);
        assert(s.generic_textured_triangle_bbox_px_buckets.counts@ =~= seq![0usize, 0, 0, 0, 0, 0]);
        assert(s.generic_degenerate_triangle_bbox_px_buckets.counts@ =~= seq![0usize, 0, 0, 0, 0, 0]);
        s
    }

    /// One line with every counter as ` name=value`, behind the prefix
    /// `software renderer primitive_stats frame=<frame_index>`.
    pub fn log_line(&self, frame_index: u64) -> (line: String)
        ensures
            line@ == primitive_stats_log_text(*self, frame_index),
    {
        let names = vec![
            "mesh_primitives",
            "callback_primitives",
            "missing_texture_meshes",
            "empty_clip_meshes",
            "mesh_indices",
            "mesh_triangles",
            "quad_windows",
            "four_unique_quad_windows",
            "quad_windows_not_four_unique_indices",
            "quad_window_vertex_lookup_failures",
            "axis_aligned_quad_windows",
            "solid_axis_aligned_quad_windows",
            "textured_axis_aligned_quad_windows",
            "solid_quad_fast_path_hits",
            "textured_quad_fast_path_hits",
            "textured_quad_reject_not_rectangle_diagonal",
            "textured_quad_reject_not_axis_aligned_rectangle",
            "textured_quad_reject_corner_attribute_mismatch",
            "textured_quad_reject_non_uniform_color",
            "textured_quad_reject_non_affine_uv",
            "solid_fan_probe_calls",
            "solid_fan_preflight_reject_too_few_triangles",
            "solid_fan_rejected_probe_calls",
            "solid_fan_center_slot_attempts",
            "solid_fan_cheap_candidate_attempts",
            "solid_fan_candidate_triangles_scanned",
            "solid_fan_accepted_candidate_triangles_scanned",
            "solid_fan_rejected_candidate_triangles_scanned",
            "solid_fan_repeated_boundary_checks",
            "solid_fan_repeated_boundary_comparisons",
            "solid_fan_reject_no_candidate",
            "solid_fan_reject_too_short",
            "solid_fan_reject_vertex_lookup_failure",
            "solid_fan_reject_winding_mismatch_or_non_finite",
            "solid_fan_reject_repeated_boundary",
            "solid_fan_reject_unsafe_polygon",
            "solid_fan_reject_color_or_bounds_mismatch",
            "solid_fan_reject_scratch_overflow",
            "solid_fan_accepted_runs",
            "solid_fan_accepted_triangles",
            "solid_fan_polygon_builds",
            "solid_fan_max_candidate_triangles",
            "solid_fan_max_accepted_triangles",
            "solid_fan_runs",
            "solid_fan_triangles",
            "generic_triangles_rasterized",
            "generic_solid_triangles",
            "generic_textured_triangles",
            "generic_textured_constant_texel_triangles",
            "generic_textured_sampled_triangles",
            "generic_textured_solid_reject_non_uniform_vertex_color",
            "generic_textured_solid_reject_non_uniform_texel",
            "generic_textured_non_uniform_color_constant_texel",
            "generic_textured_non_uniform_color_varying_texel",
            "degenerate_triangles",
        ];
        let values = vec![
            self.mesh_primitives as u128,
            self.callback_primitives as u128,
            self.missing_texture_meshes as u128,
            self.empty_clip_meshes as u128,
            self.mesh_indices as u128,
            (self.mesh_indices / 3) as u128,
            self.quad_windows as u128,
            self.four_unique_quad_windows as u128,
            self.quad_windows_not_four_unique_indices as u128,
            self.quad_window_vertex_lookup_failures as u128,
            self.axis_aligned_quad_windows as u128,
            self.solid_axis_aligned_quad_windows as u128,
            self.textured_axis_aligned_quad_windows as u128,
            self.solid_quad_fast_path_hits as u128,
            self.textured_quad_fast_path_hits as u128,
            self.textured_quad_reject_not_rectangle_diagonal as u128,
            self.textured_quad_reject_not_axis_aligned_rectangle as u128,
            self.textured_quad_reject_corner_attribute_mismatch as u128,
            self.textured_quad_reject_non_uniform_color as u128,
            self.textured_quad_reject_non_affine_uv as u128,
            self.solid_fan_probe.probe_calls as u128,
            self.solid_fan_probe.preflight_reject_too_few_triangles as u128,
            self.solid_fan_probe.rejected_probe_calls as u128,
            self.solid_fan_probe.center_slot_attempts as u128,
            self.solid_fan_probe.cheap_candidate_attempts as u128,
            self.solid_fan_probe.candidate_triangles_scanned as u128,
            self.solid_fan_probe.accepted_candidate_triangles_scanned as u128,
            self.solid_fan_probe.rejected_candidate_triangles_scanned as u128,
            self.solid_fan_probe.repeated_boundary_checks as u128,
            self.solid_fan_probe.repeated_boundary_comparisons as u128,
            self.solid_fan_probe.reject_no_candidate as u128,
            self.solid_fan_probe.reject_too_short as u128,
            self.solid_fan_probe.reject_vertex_lookup_failure as u128,
            self.solid_fan_probe.reject_winding_mismatch_or_non_finite as u128,
            self.solid_fan_probe.reject_repeated_boundary as u128,
            self.solid_fan_probe.reject_unsafe_polygon as u128,
            self.solid_fan_probe.reject_color_or_bounds_mismatch as u128,
            self.solid_fan_probe.reject_scratch_overflow as u128,
            self.solid_fan_probe.accepted_runs as u128,
            self.solid_fan_probe.accepted_triangles as u128,
            self.solid_fan_probe.polygon_builds as u128,
            self.solid_fan_probe.max_candidate_triangles as u128,
            self.solid_fan_probe.max_accepted_triangles as u128,
            self.solid_fan_runs as u128,
            self.solid_fan_triangles as u128,
            self.generic_triangles_rasterized as u128,
            self.generic_solid_triangles as u128,
            self.generic_textured_triangles as u128,
            self.generic_textured_constant_texel_triangles as u128,
            self.generic_textured_sampled_triangles as u128,
            self.generic_textured_solid_reject_non_uniform_vertex_color as u128,
            self.generic_textured_solid_reject_non_uniform_texel as u128,
            self.generic_textured_non_uniform_color_constant_texel as u128,
            self.generic_textured_non_uniform_color_varying_texel as u128,
            self.degenerate_triangles as u128,
        ];
        assert(str_views(names@) =~= primitive_stat_names());
        assert(values@ =~= primitive_stat_values(*self));
        let mut line = String::new();
        push_str(&mut line, "software renderer primitive_stats frame=");
        push_decimal(&mut line, frame_index as u128);
        push_fields(&mut line, names.as_slice(), values.as_slice());
        push_str(&mut line, " generic_triangle_bbox_px_buckets_le4_le16_le64_le256_le1024_gt1024=");
        let text = self.generic_triangle_bbox_px_buckets.to_log_text();
        push_str(&mut line, text.as_str());
        push_str(&mut line, " generic_solid_triangle_bbox_px_buckets_le4_le16_le64_le256_le1024_gt1024=");
        let text = self.generic_solid_triangle_bbox_px_buckets.to_log_text();
        push_str(&mut line, text.as_str());
        push_str(&mut line, " generic_textured_triangle_bbox_px_buckets_le4_le16_le64_le256_le1024_gt1024=");
        let text = self.generic_textured_triangle_bbox_px_buckets.to_log_text();
        push_str(&mut line, text.as_str());
        push_str(&mut line, " generic_degenerate_triangle_bbox_px_buckets_le4_le16_le64_le256_le1024_gt1024=");
        let text = self.generic_degenerate_triangle_bbox_px_buckets.to_log_text();
        push_str(&mut line, text.as_str());
        push_str(&mut line, " generic_triangle_bbox_non_finite=");
        push_decimal(&mut line, self.generic_triangle_bbox_non_finite as u128);
        line
    }
}

// ---------------------------------------------------------------------------
// Slow solid fans.
// ---------------------------------------------------------------------------
/// The offender's bounds, when it has them, are ordered and their area fits a
/// `usize`.
pub open spec fn offender_bounds_ok(o: SolidFanOffender) -> bool {
    o.bounds matches Some(b) ==> b.min_x <= b.max_x && b.min_y <= b.max_y && bounds_area(b)
        <= usize::MAX
}

/// `offender<index><name>=`.
pub open spec fn offender_key(index: usize, name: Seq<char>) -> Seq<char> {
    "offender"@ + decimal(index as nat) + name + "="@
}

pub open spec fn optional_bounds_text(bounds: Option<crate::raster::TriangleRasterBounds>) -> Seq<
    char,
> {
    match bounds {
        Some(b) => bounds_text(b),
        None => "none"@,
    }
}

pub open spec fn optional_bounds_area(bounds: Option<crate::raster::TriangleRasterBounds>) -> int {
    match bounds {
        Some(b) => bounds_area(b),
        None => 0,
    }
}

/// One offender's fields, each key prefixed with `offender<index>_`, the
/// shape key as sixteen hexadecimal digits.
#[verifier::opaque]
pub open spec fn solid_fan_offender_text(index: usize, o: SolidFanOffender) -> Seq<char> {
    offender_key(index, "_elapsed_us"@) + decimal(o.elapsed_us as nat) + " "@ + offender_key(
        index,
        "_primitive"@,
    ) + decimal(o.source.primitive_index as nat) + " "@ + offender_key(
        index,
        "_mesh_index_offset"@,
    ) + decimal(o.source.mesh_index_offset as nat) + " "@ + offender_key(index, "_triangles"@)
        + decimal(o.triangle_count as nat) + " "@ + offender_key(index, "_polygon_vertices"@)
        + decimal(o.polygon_vertices as nat) + " "@ + offender_key(index, "_alpha"@) + decimal(
        o.alpha as nat,
    ) + " "@ + offender_key(index, "_bounds"@) + optional_bounds_text(o.bounds) + " "@
        + offender_key(index, "_bbox_px"@) + decimal(optional_bounds_area(o.bounds) as nat)
        + " "@ + offender_key(index, "_shape_key"@) + hex_digits(o.shape_key as nat, 16) + " "@
        + offender_key(index, "_px"@) + decimal(o.work.px as nat) + " "@ + offender_key(
        index,
        "_rows"@,
    ) + decimal(o.work.rows as nat) + " "@ + offender_key(index, "_edge_intersections"@)
        + decimal(o.work.edge_intersections as nat) + " "@ + offender_key(
        index,
        "_endpoint_probe_px"@,
    ) + decimal(o.work.endpoint_probe_px as nat) + " "@ + offender_key(index, "_fallback_rows"@)
        + decimal(o.work.fallback_rows as nat)
}

fn push_offender_key(line: &mut String, index: usize, name: &str)
    ensures
        final(line)@ == old(line)@ + offender_key(index, name@),
{
    push_str(line, "offender");
    push_decimal(line, index as u128);
    push_str(line, name);
    push_str(line, "=");
}

/// The log-line fragment of one slow fan.
pub fn format_solid_fan_offender(index: usize, offender: SolidFanOffender) -> (s: String)
    requires
        offender_bounds_ok(offender),
    ensures
        s@ == solid_fan_offender_text(index, offender),
{
    reveal(solid_fan_offender_text);
    let mut s = String::new();
    push_offender_key(&mut s, index, "_elapsed_us");
    push_decimal(&mut s, offender.elapsed_us);
    push_str(&mut s, " ");
    push_offender_key(&mut s, index, "_primitive");
    push_decimal(&mut s, offender.source.primitive_index as u128);
    push_str(&mut s, " ");
    push_offender_key(&mut s, index, "_mesh_index_offset");
    push_decimal(&mut s, offender.source.mesh_index_offset as u128);
    push_str(&mut s, " ");
    push_offender_key(&mut s, index, "_triangles");
    push_decimal(&mut s, offender.triangle_count as u128);
    push_str(&mut s, " ");
    push_offender_key(&mut s, index, "_polygon_vertices");
    push_decimal(&mut s, offender.polygon_vertices as u128);
    push_str(&mut s, " ");
    push_offender_key(&mut s, index, "_alpha");
    push_decimal(&mut s, offender.alpha as u128);
    push_str(&mut s, " ");
    push_offender_key(&mut s, index, "_bounds");
    let area: usize = match offender.bounds {
        Some(b) => {
            let text = format_bounds(b);
            push_str(&mut s, text.as_str());
            b.pixel_area()
        },
        None => {
            push_str(&mut s, "none");
            0
        },
    };
    push_str(&mut s, " ");
    push_offender_key(&mut s, index, "_bbox_px");
    push_decimal(&mut s, area as u128);
    push_str(&mut s, " ");
    push_offender_key(&mut s, index, "_shape_key");
    push_hex_padded(&mut s, offender.shape_key, 16);
    push_str(&mut s, " ");
    push_offender_key(&mut s, index, "_px");
    push_decimal(&mut s, offender.work.px as u128);
    push_str(&mut s, " ");
    push_offender_key(&mut s, index, "_rows");
    push_decimal(&mut s, offender.work.rows as u128);
    push_str(&mut s, " ");
    push_offender_key(&mut s, index, "_edge_intersections");
    push_decimal(&mut s, offender.work.edge_intersections as u128);
    push_str(&mut s, " ");
    push_offender_key(&mut s, index, "_endpoint_probe_px");
    push_decimal(&mut s, offender.work.endpoint_probe_px as u128);
    push_str(&mut s, " ");
    push_offender_key(&mut s, index, "_fallback_rows");
    push_decimal(&mut s, offender.work.fallback_rows as u128);
    s
}

/// ` ` and the fragment of each offender, numbered from zero.
pub open spec fn offenders_text(board: Seq<SolidFanOffender>) -> Seq<char>
    decreases board.len(),
{
    if board.len() == 0 {
        Seq::empty()
    } else {
        offenders_text(board.drop_last()) + " "@ + solid_fan_offender_text(
            (board.len() - 1) as usize,
            board.last(),
        )
    }
}

pub open spec fn solid_fan_offenders_log_text(board: Seq<SolidFanOffender>) -> Option<Seq<char>> {
    if board.len() == 0 {
        None
    } else {
        Some(
            "software renderer solid_fan_offenders shown="@ + decimal(board.len()) + " cap="@
                + decimal(SOLID_FAN_OFFENDER_LIMIT as nat) + offenders_text(board),
        )
    }
}

pub open spec fn string_view(s: Option<String>) -> Option<Seq<char>> {
    match s {
        Some(t) => Some(t@),
        None => None,
    }
}

pub open spec fn offender_of(record: SolidFanRasterRecord) -> SolidFanOffender {
    SolidFanOffender {
        elapsed_us: record.elapsed_us,
        source: record.source,
        triangle_count: record.triangle_count,
        polygon_vertices: record.polygon_vertices,
        alpha: record.alpha,
        bounds: record.bounds,
        shape_key: mix_all(
            SHAPE_KEY_OFFSET_BASIS,
            shape_key_values(
                record.bounds,
                record.alpha,
                record.polygon_vertices,
                record.triangle_count,
            ),
        ),
        work: record.work,
    }
}

proof fn lemma_board_bounds_ok(
    old_board: Seq<SolidFanOffender>,
    new_board: Seq<SolidFanOffender>,
    offender: SolidFanOffender,
)
    requires
        forall|i: int| 0 <= i < old_board.len() ==> offender_bounds_ok(#[trigger] old_board[i]),
        offender_bounds_ok(offender),
        forall|x: SolidFanOffender|
            new_board.to_multiset().count(x) > 0 ==> x == offender || old_board.to_multiset().count(
                x,
            ) > 0,
    ensures
        forall|i: int| 0 <= i < new_board.len() ==> offender_bounds_ok(#[trigger] new_board[i]),
{
    assert forall|i: int| 0 <= i < new_board.len() implies offender_bounds_ok(
        #[trigger] new_board[i],
    ) by {
        let x = new_board[i];
        assert(new_board.contains(x));
        assert(new_board.to_multiset().count(x) > 0);
        if x != offender {
            assert(old_board.to_multiset().count(x) > 0);
            assert(old_board.contains(x));
            let j = choose|j: int| 0 <= j < old_board.len() && old_board[j] == x;
            assert(offender_bounds_ok(old_board[j]));
        }
    }
}

impl PrimitiveStats {
    /// Offers a drawn fan to the board of slow fans, with its shape key.
    pub fn record_solid_fan(&mut self, record: SolidFanRasterRecord)
        requires
            old(self).well_formed(),
            offender_bounds_ok(offender_of(record)),
        ensures
            final(self).well_formed(),
            ({
                let o = offender_of(record);
                let b = old(self).offender_board();
                &&& b.len() < SOLID_FAN_OFFENDER_LIMIT ==> final(self).offender_board().len()
                    == b.len() + 1 && final(self).offender_board().to_multiset()
                    == b.to_multiset().insert(o)
                &&& b.len() == SOLID_FAN_OFFENDER_LIMIT && crate::offenders::ranks_above(
                    o,
                    b.last(),
                ) ==> final(self).offender_board().to_multiset() == b.to_multiset().remove(
                    b.last(),
                ).insert(o)
                &&& b.len() == SOLID_FAN_OFFENDER_LIMIT && !crate::offenders::ranks_above(
                    o,
                    b.last(),
                ) ==> final(self).offender_board() == b
                &&& b.len() < SOLID_FAN_OFFENDER_LIMIT ==> final(self).offender_board()
                    == crate::offenders::insert_by_rank(b, o)
                &&& b.len() == SOLID_FAN_OFFENDER_LIMIT && crate::offenders::ranks_above(
                    o,
                    b.last(),
                ) ==> final(self).offender_board() == crate::offenders::insert_by_rank(
                    b.drop_last(),
                    o,
                )
            }),
    {
        let shape_key = solid_fan_shape_key(
            record.bounds,
            record.alpha,
            record.polygon_vertices,
            record.triangle_count,
        );
        let offender = SolidFanOffender {
            elapsed_us: record.elapsed_us,
            source: record.source,
            triangle_count: record.triangle_count,
            polygon_vertices: record.polygon_vertices,
            alpha: record.alpha,
            bounds: record.bounds,
            shape_key,
            work: record.work,
        };
        let ghost old_board = self.solid_fan_offenders.board();
        self.solid_fan_offenders.record(offender);
        proof {
            let new_board = self.solid_fan_offenders.board();
            if old_board.len() < SOLID_FAN_OFFENDER_LIMIT {
            } else if crate::offenders::ranks_above(offender, old_board.last()) {
                assert forall|x: SolidFanOffender|
                    new_board.to_multiset().count(x) > 0 implies x == offender
                    || old_board.to_multiset().count(x) > 0 by {
                    if x != offender && x == old_board.last() {
                        assert(old_board.to_multiset().remove(x).count(x) + 1
                            == old_board.to_multiset().count(x));
                    }
                }
            }
            lemma_board_bounds_ok(old_board, new_board, offender);
        }
    }

    /// The slow-fan log line, or `None` when no fan was recorded.
    pub fn solid_fan_offenders_log_line(&self) -> (line: Option<String>)
        requires
            self.well_formed(),
        ensures
            string_view(line) == solid_fan_offenders_log_text(self.offender_board()),
    {
        let board = self.solid_fan_offenders.entries();
        let n = board.len();
        if n == 0 {
            return None;
        }
        let ghost b = self.offender_board();
        let mut line = String::new();
        push_str(&mut line, "software renderer solid_fan_offenders shown=");
        push_decimal(&mut line, n as u128);
        push_str(&mut line, " cap=");
        push_decimal(&mut line, SOLID_FAN_OFFENDER_LIMIT as u128);
        let ghost head = line@;
        let mut index: usize = 0;
        while index < n
            invariant
                b == board@,
                n == b.len(),
                index <= n,
                forall|i: int| 0 <= i < b.len() ==> offender_bounds_ok(#[trigger] b[i]),
                line@ == head + offenders_text(b.take(index as int)),
            decreases n - index,
        {
            proof {
                assert(b.take(index + 1).drop_last() =~= b.take(index as int));
                assert(b.take(index + 1).last() == b[index as int]);
            }
            push_str(&mut line, " ");
            let text = format_solid_fan_offender(index, board[index]);
            push_str(&mut line, text.as_str());
            index = index + 1;
        }
        proof {
            assert(b.take(n as int) =~= b);
        }
        Some(line)
    }
}

} // verus!
