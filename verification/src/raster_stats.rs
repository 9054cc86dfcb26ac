//! Per-frame counters of the software rasterizer and their log line.
use vstd::prelude::*;
use crate::text::{decimal, push_decimal, push_str};

verus! {

/// Pixels per block of the 16-wide sampled-rect vector path.
pub const TEXTURED_RECT_VECTOR_BLOCK_PX: usize = 16;

/// Counters that the rasterizer accumulates over a frame. Every counter is a
/// plain count or a sum of pixels or microseconds, except
/// `textured_rect_sampled_vector_backend_available`, a marker (0 or 1) set at
/// construction.
#[derive(Clone, Copy, Debug, PartialEq, Eq)]
pub struct RasterStats {
    pub solid_rect_calls: usize,
    pub solid_rect_px: usize,
    pub textured_rect_calls: usize,
    pub textured_rect_px: usize,
    pub textured_rect_constant_texel_calls: usize,
    pub textured_rect_constant_texel_px: usize,
    pub textured_rect_constant_texel_us: usize,
    pub textured_rect_sampled_calls: usize,
    pub textured_rect_sampled_px: usize,
    pub textured_rect_sampled_us: usize,
    pub textured_rect_separable_uv_calls: usize,
    pub textured_rect_separable_uv_px: usize,
    pub textured_rect_nonseparable_uv_calls: usize,
    pub textured_rect_nonseparable_uv_px: usize,
    pub textured_rect_white_texel_calls: usize,
    pub textured_rect_white_texel_px: usize,
    pub textured_rect_uniform_color_calls: usize,
    pub textured_rect_uniform_color_px: usize,
    pub solid_triangle_calls: usize,
    pub solid_triangle_bbox_px: usize,
    pub solid_triangle_covered_px: usize,
    pub solid_triangle_span_rows: usize,
    pub solid_triangle_candidate_px: usize,
    pub solid_triangle_hint_rows: usize,
    pub solid_triangle_hint_fallback_rows: usize,
    pub solid_triangle_hint_build_us: usize,
    pub solid_triangle_endpoint_search_us: usize,
    pub solid_triangle_blend_span_us: usize,
    pub solid_triangle_blend_span_calls: usize,
    pub solid_triangle_span_px: usize,
    pub solid_triangle_endpoint_probe_px: usize,
    pub solid_triangle_hint_probe_px: usize,
    pub solid_triangle_canary_probe_px: usize,
    pub solid_triangle_fallback_probe_px: usize,
    pub solid_triangle_direct_probe_px: usize,
    pub solid_triangle_hint_candidate_px: usize,
    pub solid_triangle_narrowed_rows: usize,
    pub solid_triangle_full_scan_rows: usize,
    pub solid_fan_calls: usize,
    pub solid_fan_triangles: usize,
    pub solid_fan_rows: usize,
    pub solid_fan_px: usize,
    pub solid_fan_edge_intersections: usize,
    pub solid_fan_endpoint_probe_px: usize,
    pub solid_fan_fallback_rows: usize,
    pub solid_fan_edge_precompute_calls: usize,
    pub solid_fan_edge_precompute_edges: usize,
    pub solid_fan_edge_precompute_used_rows: usize,
    pub solid_fan_edge_precompute_fallback_budget: usize,
    pub solid_fan_edge_precompute_fallback_non_finite: usize,
    pub solid_fan_edge_precompute_old_solver_rows: usize,
    pub solid_fan_span_cache_hits: usize,
    pub solid_fan_span_cache_misses: usize,
    pub solid_fan_span_cache_hit_rows: usize,
    pub solid_fan_span_cache_hit_px: usize,
    pub solid_fan_span_cache_stored_rows: usize,
    pub solid_fan_span_cache_rejected_too_many_rows: usize,
    pub solid_fan_span_cache_resident_entries: usize,
    pub solid_fan_span_cache_resident_rows: usize,
    pub solid_fan_span_cache_total_evictions: usize,
    pub solid_fan_span_cache_row_budget_evictions: usize,
    pub textured_triangle_calls: usize,
    pub textured_triangle_bbox_px: usize,
    pub textured_triangle_covered_px: usize,
    pub textured_triangle_candidate_px: usize,
    pub textured_triangle_narrowed_rows: usize,
    pub textured_triangle_full_scan_rows: usize,
    pub constant_texel_textured_triangle_calls: usize,
    pub constant_texel_textured_triangle_white_texel_calls: usize,
    pub constant_texel_textured_triangle_non_white_texel_calls: usize,
    pub constant_texel_textured_triangle_white_alpha_only_eligible_calls: usize,
    pub constant_texel_textured_triangle_white_alpha_only_rejected_rgb_calls: usize,
    pub constant_texel_textured_triangle_white_alpha_only_rejected_uniform_rgb_calls: usize,
    pub constant_texel_textured_triangle_white_alpha_only_rejected_varying_rgb_calls: usize,
    pub constant_texel_textured_triangle_candidate_px: usize,
    pub constant_texel_textured_triangle_covered_px: usize,
    pub constant_texel_textured_triangle_white_texel_covered_px: usize,
    pub constant_texel_textured_triangle_white_endpoint_rows: usize,
    pub constant_texel_textured_triangle_white_endpoint_match_rows: usize,
    pub constant_texel_textured_triangle_white_endpoint_mismatch_rows: usize,
    pub constant_texel_textured_triangle_white_endpoint_empty_rows: usize,
    pub constant_texel_textured_triangle_white_endpoint_span_px: usize,
    pub constant_texel_textured_triangle_white_endpoint_probe_px: usize,
    pub constant_texel_textured_triangle_white_endpoint_render_rows: usize,
    pub constant_texel_textured_triangle_white_endpoint_render_px: usize,
    pub constant_texel_textured_triangle_white_scan_runs: usize,
    pub constant_texel_textured_triangle_white_scan_multi_run_rows: usize,
    pub constant_texel_textured_triangle_non_white_texel_covered_px: usize,
    pub constant_texel_textured_triangle_opaque_px: usize,
    pub constant_texel_textured_triangle_translucent_px: usize,
    pub constant_texel_textured_triangle_transparent_px: usize,
    pub constant_texel_textured_triangle_white_alpha_only_constant_alpha_run_calls: usize,
    pub constant_texel_textured_triangle_white_alpha_only_constant_alpha_run_px: usize,
    pub constant_texel_textured_triangle_white_alpha_only_variable_alpha_run_calls: usize,
    pub constant_texel_textured_triangle_white_alpha_only_variable_alpha_run_px: usize,
    pub constant_texel_textured_triangle_white_constant_alpha_run_calls: usize,
    pub constant_texel_textured_triangle_white_constant_alpha_run_px: usize,
    pub constant_texel_textured_triangle_white_constant_color_run_calls: usize,
    pub constant_texel_textured_triangle_white_constant_color_run_px: usize,
    pub constant_texel_textured_triangle_white_variable_color_run_calls: usize,
    pub constant_texel_textured_triangle_white_variable_color_run_px: usize,
    pub constant_texel_textured_triangle_white_variable_alpha_run_calls: usize,
    pub constant_texel_textured_triangle_white_variable_alpha_run_px: usize,
    pub constant_texel_textured_triangle_us: usize,
    pub constant_texel_textured_triangle_white_texel_us: usize,
    pub constant_texel_textured_triangle_non_white_texel_us: usize,
    pub sampled_textured_triangle_calls: usize,
    pub sampled_textured_triangle_candidate_px: usize,
    pub sampled_textured_triangle_covered_px: usize,
    pub sampled_textured_triangle_us: usize,
    pub textured_rect_separable_run_calls: usize,
    pub textured_rect_separable_run_px: usize,
    pub textured_rect_separable_opaque_run_calls: usize,
    pub textured_rect_separable_opaque_run_px: usize,
    pub textured_rect_separable_translucent_run_calls: usize,
    pub textured_rect_separable_translucent_run_px: usize,
    pub textured_rect_separable_transparent_run_calls: usize,
    pub textured_rect_separable_transparent_run_px: usize,
    pub textured_rect_separable_white_vertex_calls: usize,
    pub textured_rect_separable_white_vertex_px: usize,
    pub textured_rect_separable_modulated_vertex_calls: usize,
    pub textured_rect_separable_modulated_vertex_px: usize,
    pub textured_rect_separable_direct_calls: usize,
    pub textured_rect_separable_direct_px: usize,
    pub textured_rect_separable_direct_opaque_px: usize,
    pub textured_rect_separable_direct_translucent_px: usize,
    pub textured_rect_separable_direct_transparent_px: usize,
    pub textured_rect_sampled_vector_candidate_px: usize,
    pub textured_rect_sampled_white_vertex_contiguous_px: usize,
    pub textured_rect_sampled_modulated_vertex_contiguous_px: usize,
    pub textured_rect_sampled_modulated_contiguous_runs: usize,
    pub textured_rect_sampled_modulated_contiguous_px_lt4: usize,
    pub textured_rect_sampled_modulated_contiguous_px_4_7: usize,
    pub textured_rect_sampled_modulated_contiguous_px_8_15: usize,
    pub textured_rect_sampled_modulated_contiguous_px_16_31: usize,
    pub textured_rect_sampled_modulated_contiguous_px_32_63: usize,
    pub textured_rect_sampled_modulated_contiguous_px_64_plus: usize,
    pub textured_rect_sampled_modulated_opportunity_blocks_16: usize,
    pub textured_rect_sampled_modulated_opportunity_px_16: usize,
    pub textured_rect_sampled_modulated_true_tail_px_16: usize,
    pub textured_rect_sampled_modulated_opportunity_blocks_4: usize,
    pub textured_rect_sampled_modulated_opportunity_px_4: usize,
    pub textured_rect_sampled_modulated_true_tail_px_4: usize,
    pub textured_rect_sampled_vector_backend_available: usize,
    pub textured_rect_sampled_modulated_vector_attempt_blocks_16: usize,
    pub textured_rect_sampled_modulated_vector_success_blocks_16: usize,
    pub textured_rect_sampled_modulated_vector_fallback_blocks_16: usize,
    pub textured_rect_sampled_modulated_vector_attempt_blocks_4: usize,
    pub textured_rect_sampled_modulated_vector_success_blocks_4: usize,
    pub textured_rect_sampled_modulated_vector_fallback_blocks_4: usize,
    pub textured_rect_sampled_vector_blocks: usize,
    pub textured_rect_sampled_vector_opaque_blocks: usize,
    pub textured_rect_sampled_vector_transparent_blocks: usize,
    pub textured_rect_sampled_vector_mixed_blocks: usize,
    pub textured_rect_sampled_vector_tail_px: usize,
    pub textured_rect_separable_run_px_buckets_le1_le2_le4_le8_le16_gt16: [usize; 6],
    pub degenerate_triangle_skips: usize,
    pub fully_clipped_triangle_skips: usize,
    pub opaque_px: usize,
    pub translucent_px: usize,
    pub transparent_px: usize,
    pub constant_texel_textured_triangle_span_runs: usize,
    pub constant_texel_textured_triangle_span_px_lt4: usize,
    pub constant_texel_textured_triangle_span_px_4_7: usize,
    pub constant_texel_textured_triangle_span_px_8_15: usize,
    pub constant_texel_textured_triangle_span_px_16_31: usize,
    pub constant_texel_textured_triangle_span_px_32_plus: usize,
}

/// The names of the scalar counters, in log order.
pub open spec fn raster_stat_names() -> Seq<Seq<char>> {
    seq![
        "solid_rect_calls"@,
        "solid_rect_px"@,
        "textured_rect_calls"@,
        "textured_rect_px"@,
        "textured_rect_constant_texel_calls"@,
        "textured_rect_constant_texel_px"@,
        "textured_rect_constant_texel_us"@,
        "textured_rect_sampled_calls"@,
        "textured_rect_sampled_px"@,
        "textured_rect_sampled_us"@,
        "textured_rect_separable_uv_calls"@,
        "textured_rect_separable_uv_px"@,
        "textured_rect_nonseparable_uv_calls"@,
        "textured_rect_nonseparable_uv_px"@,
        "textured_rect_white_texel_calls"@,
        "textured_rect_white_texel_px"@,
        "textured_rect_uniform_color_calls"@,
        "textured_rect_uniform_color_px"@,
        "solid_triangle_calls"@,
        "solid_triangle_bbox_px"@,
        "solid_triangle_covered_px"@,
        "solid_triangle_span_rows"@,
        "solid_triangle_candidate_px"@,
        "solid_triangle_hint_rows"@,
        "solid_triangle_hint_fallback_rows"@,
        "solid_triangle_hint_build_us"@,
        "solid_triangle_endpoint_search_us"@,
        "solid_triangle_blend_span_us"@,
        "solid_triangle_blend_span_calls"@,
        "solid_triangle_span_px"@,
        "solid_triangle_endpoint_probe_px"@,
        "solid_triangle_hint_probe_px"@,
        "solid_triangle_canary_probe_px"@,
        "solid_triangle_fallback_probe_px"@,
        "solid_triangle_direct_probe_px"@,
        "solid_triangle_hint_candidate_px"@,
        "solid_triangle_narrowed_rows"@,
        "solid_triangle_full_scan_rows"@,
        "solid_fan_calls"@,
        "solid_fan_triangles"@,
        "solid_fan_rows"@,
        "solid_fan_px"@,
        "solid_fan_edge_intersections"@,
        "solid_fan_endpoint_probe_px"@,
        "solid_fan_fallback_rows"@,
        "solid_fan_edge_precompute_calls"@,
        "solid_fan_edge_precompute_edges"@,
        "solid_fan_edge_precompute_used_rows"@,
        "solid_fan_edge_precompute_fallback_budget"@,
        "solid_fan_edge_precompute_fallback_non_finite"@,
        "solid_fan_edge_precompute_old_solver_rows"@,
        "solid_fan_span_cache_hits"@,
        "solid_fan_span_cache_misses"@,
        "solid_fan_span_cache_hit_rows"@,
        "solid_fan_span_cache_hit_px"@,
        "solid_fan_span_cache_stored_rows"@,
        "solid_fan_span_cache_rejected_too_many_rows"@,
        "solid_fan_span_cache_resident_entries"@,
        "solid_fan_span_cache_resident_rows"@,
        "solid_fan_span_cache_total_evictions"@,
        "solid_fan_span_cache_row_budget_evictions"@,
        "textured_triangle_calls"@,
        "textured_triangle_bbox_px"@,
        "textured_triangle_covered_px"@,
        "textured_triangle_candidate_px"@,
        "textured_triangle_narrowed_rows"@,
        "textured_triangle_full_scan_rows"@,
        "constant_texel_textured_triangle_calls"@,
        "constant_texel_textured_triangle_white_texel_calls"@,
        "constant_texel_textured_triangle_non_white_texel_calls"@,
        "constant_texel_textured_triangle_white_alpha_only_eligible_calls"@,
        "constant_texel_textured_triangle_white_alpha_only_rejected_rgb_calls"@,
        "constant_texel_textured_triangle_white_alpha_only_rejected_uniform_rgb_calls"@,
        "constant_texel_textured_triangle_white_alpha_only_rejected_varying_rgb_calls"@,
        "constant_texel_textured_triangle_candidate_px"@,
        "constant_texel_textured_triangle_covered_px"@,
        "constant_texel_textured_triangle_white_texel_covered_px"@,
        "constant_texel_textured_triangle_white_endpoint_rows"@,
        "constant_texel_textured_triangle_white_endpoint_match_rows"@,
        "constant_texel_textured_triangle_white_endpoint_mismatch_rows"@,
        "constant_texel_textured_triangle_white_endpoint_empty_rows"@,
        "constant_texel_textured_triangle_white_endpoint_span_px"@,
        "constant_texel_textured_triangle_white_endpoint_probe_px"@,
        "constant_texel_textured_triangle_white_endpoint_render_rows"@,
        "constant_texel_textured_triangle_white_endpoint_render_px"@,
        "constant_texel_textured_triangle_white_scan_runs"@,
        "constant_texel_textured_triangle_white_scan_multi_run_rows"@,
        "constant_texel_textured_triangle_non_white_texel_covered_px"@,
        "constant_texel_textured_triangle_opaque_px"@,
        "constant_texel_textured_triangle_translucent_px"@,
        "constant_texel_textured_triangle_transparent_px"@,
        "constant_texel_textured_triangle_white_alpha_only_constant_alpha_run_calls"@,
        "constant_texel_textured_triangle_white_alpha_only_constant_alpha_run_px"@,
        "constant_texel_textured_triangle_white_alpha_only_variable_alpha_run_calls"@,
        "constant_texel_textured_triangle_white_alpha_only_variable_alpha_run_px"@,
        "constant_texel_textured_triangle_white_constant_alpha_run_calls"@,
        "constant_texel_textured_triangle_white_constant_alpha_run_px"@,
        "constant_texel_textured_triangle_white_constant_color_run_calls"@,
        "constant_texel_textured_triangle_white_constant_color_run_px"@,
        "constant_texel_textured_triangle_white_variable_color_run_calls"@,
        "constant_texel_textured_triangle_white_variable_color_run_px"@,
        "constant_texel_textured_triangle_white_variable_alpha_run_calls"@,
        "constant_texel_textured_triangle_white_variable_alpha_run_px"@,
        "constant_texel_textured_triangle_us"@,
        "constant_texel_textured_triangle_white_texel_us"@,
        "constant_texel_textured_triangle_non_white_texel_us"@,
        "sampled_textured_triangle_calls"@,
        "sampled_textured_triangle_candidate_px"@,
        "sampled_textured_triangle_covered_px"@,
        "sampled_textured_triangle_us"@,
        "textured_rect_separable_run_calls"@,
        "textured_rect_separable_run_px"@,
        "textured_rect_separable_opaque_run_calls"@,
        "textured_rect_separable_opaque_run_px"@,
        "textured_rect_separable_translucent_run_calls"@,
        "textured_rect_separable_translucent_run_px"@,
        "textured_rect_separable_transparent_run_calls"@,
        "textured_rect_separable_transparent_run_px"@,
        "textured_rect_separable_white_vertex_calls"@,
        "textured_rect_separable_white_vertex_px"@,
        "textured_rect_separable_modulated_vertex_calls"@,
        "textured_rect_separable_modulated_vertex_px"@,
        "textured_rect_separable_direct_calls"@,
        "textured_rect_separable_direct_px"@,
        "textured_rect_separable_direct_opaque_px"@,
        "textured_rect_separable_direct_translucent_px"@,
        "textured_rect_separable_direct_transparent_px"@,
        "textured_rect_sampled_vector_candidate_px"@,
        "textured_rect_sampled_white_vertex_contiguous_px"@,
        "textured_rect_sampled_modulated_vertex_contiguous_px"@,
        "textured_rect_sampled_modulated_contiguous_runs"@,
        "textured_rect_sampled_modulated_contiguous_px_lt4"@,
        "textured_rect_sampled_modulated_contiguous_px_4_7"@,
        "textured_rect_sampled_modulated_contiguous_px_8_15"@,
        "textured_rect_sampled_modulated_contiguous_px_16_31"@,
        "textured_rect_sampled_modulated_contiguous_px_32_63"@,
        "textured_rect_sampled_modulated_contiguous_px_64_plus"@,
        "textured_rect_sampled_modulated_opportunity_blocks_16"@,
        "textured_rect_sampled_modulated_opportunity_px_16"@,
        "textured_rect_sampled_modulated_true_tail_px_16"@,
        "textured_rect_sampled_modulated_opportunity_blocks_4"@,
        "textured_rect_sampled_modulated_opportunity_px_4"@,
        "textured_rect_sampled_modulated_true_tail_px_4"@,
        "textured_rect_sampled_vector_backend_available"@,
        "textured_rect_sampled_modulated_vector_attempt_blocks_16"@,
        "textured_rect_sampled_modulated_vector_success_blocks_16"@,
        "textured_rect_sampled_modulated_vector_fallback_blocks_16"@,
        "textured_rect_sampled_modulated_vector_attempt_blocks_4"@,
        "textured_rect_sampled_modulated_vector_success_blocks_4"@,
        "textured_rect_sampled_modulated_vector_fallback_blocks_4"@,
        "textured_rect_sampled_vector_blocks"@,
        "textured_rect_sampled_vector_opaque_blocks"@,
        "textured_rect_sampled_vector_transparent_blocks"@,
        "textured_rect_sampled_vector_mixed_blocks"@,
        "textured_rect_sampled_vector_tail_px"@,
        "degenerate_triangle_skips"@,
        "fully_clipped_triangle_skips"@,
        "opaque_px"@,
        "translucent_px"@,
        "transparent_px"@,
        "constant_texel_textured_triangle_span_runs"@,
        "constant_texel_textured_triangle_span_px_lt4"@,
        "constant_texel_textured_triangle_span_px_4_7"@,
        "constant_texel_textured_triangle_span_px_8_15"@,
        "constant_texel_textured_triangle_span_px_16_31"@,
        "constant_texel_textured_triangle_span_px_32_plus"@,
    ]
}

/// The scalar counters, in log order.
pub open spec fn raster_stat_values(s: RasterStats) -> Seq<usize> {
    seq![
        s.solid_rect_calls,
        s.solid_rect_px,
        s.textured_rect_calls,
        s.textured_rect_px,
        s.textured_rect_constant_texel_calls,
        s.textured_rect_constant_texel_px,
        s.textured_rect_constant_texel_us,
        s.textured_rect_sampled_calls,
        s.textured_rect_sampled_px,
        s.textured_rect_sampled_us,
        s.textured_rect_separable_uv_calls,
        s.textured_rect_separable_uv_px,
        s.textured_rect_nonseparable_uv_calls,
        s.textured_rect_nonseparable_uv_px,
        s.textured_rect_white_texel_calls,
        s.textured_rect_white_texel_px,
        s.textured_rect_uniform_color_calls,
        s.textured_rect_uniform_color_px,
        s.solid_triangle_calls,
        s.solid_triangle_bbox_px,
        s.solid_triangle_covered_px,
        s.solid_triangle_span_rows,
        s.solid_triangle_candidate_px,
        s.solid_triangle_hint_rows,
        s.solid_triangle_hint_fallback_rows,
        s.solid_triangle_hint_build_us,
        s.solid_triangle_endpoint_search_us,
        s.solid_triangle_blend_span_us,
        s.solid_triangle_blend_span_calls,
        s.solid_triangle_span_px,
        s.solid_triangle_endpoint_probe_px,
        s.solid_triangle_hint_probe_px,
        s.solid_triangle_canary_probe_px,
        s.solid_triangle_fallback_probe_px,
        s.solid_triangle_direct_probe_px,
        s.solid_triangle_hint_candidate_px,
        s.solid_triangle_narrowed_rows,
        s.solid_triangle_full_scan_rows,
        s.solid_fan_calls,
        s.solid_fan_triangles,
        s.solid_fan_rows,
        s.solid_fan_px,
        s.solid_fan_edge_intersections,
        s.solid_fan_endpoint_probe_px,
        s.solid_fan_fallback_rows,
        s.solid_fan_edge_precompute_calls,
        s.solid_fan_edge_precompute_edges,
        s.solid_fan_edge_precompute_used_rows,
        s.solid_fan_edge_precompute_fallback_budget,
        s.solid_fan_edge_precompute_fallback_non_finite,
        s.solid_fan_edge_precompute_old_solver_rows,
        s.solid_fan_span_cache_hits,
        s.solid_fan_span_cache_misses,
        s.solid_fan_span_cache_hit_rows,
        s.solid_fan_span_cache_hit_px,
        s.solid_fan_span_cache_stored_rows,
        s.solid_fan_span_cache_rejected_too_many_rows,
        s.solid_fan_span_cache_resident_entries,
        s.solid_fan_span_cache_resident_rows,
        s.solid_fan_span_cache_total_evictions,
        s.solid_fan_span_cache_row_budget_evictions,
        s.textured_triangle_calls,
        s.textured_triangle_bbox_px,
        s.textured_triangle_covered_px,
        s.textured_triangle_candidate_px,
        s.textured_triangle_narrowed_rows,
        s.textured_triangle_full_scan_rows,
        s.constant_texel_textured_triangle_calls,
        s.constant_texel_textured_triangle_white_texel_calls,
        s.constant_texel_textured_triangle_non_white_texel_calls,
        s.constant_texel_textured_triangle_white_alpha_only_eligible_calls,
        s.constant_texel_textured_triangle_white_alpha_only_rejected_rgb_calls,
        s.constant_texel_textured_triangle_white_alpha_only_rejected_uniform_rgb_calls,
        s.constant_texel_textured_triangle_white_alpha_only_rejected_varying_rgb_calls,
        s.constant_texel_textured_triangle_candidate_px,
        s.constant_texel_textured_triangle_covered_px,
        s.constant_texel_textured_triangle_white_texel_covered_px,
        s.constant_texel_textured_triangle_white_endpoint_rows,
        s.constant_texel_textured_triangle_white_endpoint_match_rows,
        s.constant_texel_textured_triangle_white_endpoint_mismatch_rows,
        s.constant_texel_textured_triangle_white_endpoint_empty_rows,
        s.constant_texel_textured_triangle_white_endpoint_span_px,
        s.constant_texel_textured_triangle_white_endpoint_probe_px,
        s.constant_texel_textured_triangle_white_endpoint_render_rows,
        s.constant_texel_textured_triangle_white_endpoint_render_px,
        s.constant_texel_textured_triangle_white_scan_runs,
        s.constant_texel_textured_triangle_white_scan_multi_run_rows,
        s.constant_texel_textured_triangle_non_white_texel_covered_px,
        s.constant_texel_textured_triangle_opaque_px,
        s.constant_texel_textured_triangle_translucent_px,
        s.constant_texel_textured_triangle_transparent_px,
        s.constant_texel_textured_triangle_white_alpha_only_constant_alpha_run_calls,
        s.constant_texel_textured_triangle_white_alpha_only_constant_alpha_run_px,
        s.constant_texel_textured_triangle_white_alpha_only_variable_alpha_run_calls,
        s.constant_texel_textured_triangle_white_alpha_only_variable_alpha_run_px,
        s.constant_texel_textured_triangle_white_constant_alpha_run_calls,
        s.constant_texel_textured_triangle_white_constant_alpha_run_px,
        s.constant_texel_textured_triangle_white_constant_color_run_calls,
        s.constant_texel_textured_triangle_white_constant_color_run_px,
        s.constant_texel_textured_triangle_white_variable_color_run_calls,
        s.constant_texel_textured_triangle_white_variable_color_run_px,
        s.constant_texel_textured_triangle_white_variable_alpha_run_calls,
        s.constant_texel_textured_triangle_white_variable_alpha_run_px,
        s.constant_texel_textured_triangle_us,
        s.constant_texel_textured_triangle_white_texel_us,
        s.constant_texel_textured_triangle_non_white_texel_us,
        s.sampled_textured_triangle_calls,
        s.sampled_textured_triangle_candidate_px,
        s.sampled_textured_triangle_covered_px,
        s.sampled_textured_triangle_us,
        s.textured_rect_separable_run_calls,
        s.textured_rect_separable_run_px,
        s.textured_rect_separable_opaque_run_calls,
        s.textured_rect_separable_opaque_run_px,
        s.textured_rect_separable_translucent_run_calls,
        s.textured_rect_separable_translucent_run_px,
        s.textured_rect_separable_transparent_run_calls,
        s.textured_rect_separable_transparent_run_px,
        s.textured_rect_separable_white_vertex_calls,
        s.textured_rect_separable_white_vertex_px,
        s.textured_rect_separable_modulated_vertex_calls,
        s.textured_rect_separable_modulated_vertex_px,
        s.textured_rect_separable_direct_calls,
        s.textured_rect_separable_direct_px,
        s.textured_rect_separable_direct_opaque_px,
        s.textured_rect_separable_direct_translucent_px,
        s.textured_rect_separable_direct_transparent_px,
        s.textured_rect_sampled_vector_candidate_px,
        s.textured_rect_sampled_white_vertex_contiguous_px,
        s.textured_rect_sampled_modulated_vertex_contiguous_px,
        s.textured_rect_sampled_modulated_contiguous_runs,
        s.textured_rect_sampled_modulated_contiguous_px_lt4,
        s.textured_rect_sampled_modulated_contiguous_px_4_7,
        s.textured_rect_sampled_modulated_contiguous_px_8_15,
        s.textured_rect_sampled_modulated_contiguous_px_16_31,
        s.textured_rect_sampled_modulated_contiguous_px_32_63,
        s.textured_rect_sampled_modulated_contiguous_px_64_plus,
        s.textured_rect_sampled_modulated_opportunity_blocks_16,
        s.textured_rect_sampled_modulated_opportunity_px_16,
        s.textured_rect_sampled_modulated_true_tail_px_16,
        s.textured_rect_sampled_modulated_opportunity_blocks_4,
        s.textured_rect_sampled_modulated_opportunity_px_4,
        s.textured_rect_sampled_modulated_true_tail_px_4,
        s.textured_rect_sampled_vector_backend_available,
        s.textured_rect_sampled_modulated_vector_attempt_blocks_16,
        s.textured_rect_sampled_modulated_vector_success_blocks_16,
        s.textured_rect_sampled_modulated_vector_fallback_blocks_16,
        s.textured_rect_sampled_modulated_vector_attempt_blocks_4,
        s.textured_rect_sampled_modulated_vector_success_blocks_4,
        s.textured_rect_sampled_modulated_vector_fallback_blocks_4,
        s.textured_rect_sampled_vector_blocks,
        s.textured_rect_sampled_vector_opaque_blocks,
        s.textured_rect_sampled_vector_transparent_blocks,
        s.textured_rect_sampled_vector_mixed_blocks,
        s.textured_rect_sampled_vector_tail_px,
        s.degenerate_triangle_skips,
        s.fully_clipped_triangle_skips,
        s.opaque_px,
        s.translucent_px,
        s.transparent_px,
        s.constant_texel_textured_triangle_span_runs,
        s.constant_texel_textured_triangle_span_px_lt4,
        s.constant_texel_textured_triangle_span_px_4_7,
        s.constant_texel_textured_triangle_span_px_8_15,
        s.constant_texel_textured_triangle_span_px_16_31,
        s.constant_texel_textured_triangle_span_px_32_plus,
    ]
}

/// Position of `textured_rect_sampled_vector_backend_available` among the scalar counters.
pub const VECTOR_BACKEND_MARKER_INDEX: usize = 143;

/// How many scalar counters the log line writes before the run-length buckets.
pub const COUNTERS_BEFORE_BUCKETS: usize = 155;

pub const SCALAR_COUNTER_COUNT: usize = 166;

fn raster_stat_name_list() -> (names: Vec<&'static str>)
    ensures
        names@.len() == raster_stat_names().len(),
        forall|i: int| 0 <= i < names@.len() ==> #[trigger] names@[i]@ == raster_stat_names()[i],
{
    let names = vec![
        "solid_rect_calls",
        "solid_rect_px",
        "textured_rect_calls",
        "textured_rect_px",
        "textured_rect_constant_texel_calls",
        "textured_rect_constant_texel_px",
        "textured_rect_constant_texel_us",
        "textured_rect_sampled_calls",
        "textured_rect_sampled_px",
        "textured_rect_sampled_us",
        "textured_rect_separable_uv_calls",
        "textured_rect_separable_uv_px",
        "textured_rect_nonseparable_uv_calls",
        "textured_rect_nonseparable_uv_px",
        "textured_rect_white_texel_calls",
        "textured_rect_white_texel_px",
        "textured_rect_uniform_color_calls",
        "textured_rect_uniform_color_px",
        "solid_triangle_calls",
        "solid_triangle_bbox_px",
        "solid_triangle_covered_px",
        "solid_triangle_span_rows",
        "solid_triangle_candidate_px",
        "solid_triangle_hint_rows",
        "solid_triangle_hint_fallback_rows",
        "solid_triangle_hint_build_us",
        "solid_triangle_endpoint_search_us",
        "solid_triangle_blend_span_us",
        "solid_triangle_blend_span_calls",
        "solid_triangle_span_px",
        "solid_triangle_endpoint_probe_px",
        "solid_triangle_hint_probe_px",
        "solid_triangle_canary_probe_px",
        "solid_triangle_fallback_probe_px",
        "solid_triangle_direct_probe_px",
        "solid_triangle_hint_candidate_px",
        "solid_triangle_narrowed_rows",
        "solid_triangle_full_scan_rows",
        "solid_fan_calls",
        "solid_fan_triangles",
        "solid_fan_rows",
        "solid_fan_px",
        "solid_fan_edge_intersections",
        "solid_fan_endpoint_probe_px",
        "solid_fan_fallback_rows",
        "solid_fan_edge_precompute_calls",
        "solid_fan_edge_precompute_edges",
        "solid_fan_edge_precompute_used_rows",
        "solid_fan_edge_precompute_fallback_budget",
        "solid_fan_edge_precompute_fallback_non_finite",
        "solid_fan_edge_precompute_old_solver_rows",
        "solid_fan_span_cache_hits",
        "solid_fan_span_cache_misses",
        "solid_fan_span_cache_hit_rows",
        "solid_fan_span_cache_hit_px",
        "solid_fan_span_cache_stored_rows",
        "solid_fan_span_cache_rejected_too_many_rows",
        "solid_fan_span_cache_resident_entries",
        "solid_fan_span_cache_resident_rows",
        "solid_fan_span_cache_total_evictions",
        "solid_fan_span_cache_row_budget_evictions",
        "textured_triangle_calls",
        "textured_triangle_bbox_px",
        "textured_triangle_covered_px",
        "textured_triangle_candidate_px",
        "textured_triangle_narrowed_rows",
        "textured_triangle_full_scan_rows",
        "constant_texel_textured_triangle_calls",
        "constant_texel_textured_triangle_white_texel_calls",
        "constant_texel_textured_triangle_non_white_texel_calls",
        "constant_texel_textured_triangle_white_alpha_only_eligible_calls",
        "constant_texel_textured_triangle_white_alpha_only_rejected_rgb_calls",
        "constant_texel_textured_triangle_white_alpha_only_rejected_uniform_rgb_calls",
        "constant_texel_textured_triangle_white_alpha_only_rejected_varying_rgb_calls",
        "constant_texel_textured_triangle_candidate_px",
        "constant_texel_textured_triangle_covered_px",
        "constant_texel_textured_triangle_white_texel_covered_px",
        "constant_texel_textured_triangle_white_endpoint_rows",
        "constant_texel_textured_triangle_white_endpoint_match_rows",
        "constant_texel_textured_triangle_white_endpoint_mismatch_rows",
        "constant_texel_textured_triangle_white_endpoint_empty_rows",
        "constant_texel_textured_triangle_white_endpoint_span_px",
        "constant_texel_textured_triangle_white_endpoint_probe_px",
        "constant_texel_textured_triangle_white_endpoint_render_rows",
        "constant_texel_textured_triangle_white_endpoint_render_px",
        "constant_texel_textured_triangle_white_scan_runs",
        "constant_texel_textured_triangle_white_scan_multi_run_rows",
        "constant_texel_textured_triangle_non_white_texel_covered_px",
        "constant_texel_textured_triangle_opaque_px",
        "constant_texel_textured_triangle_translucent_px",
        "constant_texel_textured_triangle_transparent_px",
        "constant_texel_textured_triangle_white_alpha_only_constant_alpha_run_calls",
        "constant_texel_textured_triangle_white_alpha_only_constant_alpha_run_px",
        "constant_texel_textured_triangle_white_alpha_only_variable_alpha_run_calls",
        "constant_texel_textured_triangle_white_alpha_only_variable_alpha_run_px",
        "constant_texel_textured_triangle_white_constant_alpha_run_calls",
        "constant_texel_textured_triangle_white_constant_alpha_run_px",
        "constant_texel_textured_triangle_white_constant_color_run_calls",
        "constant_texel_textured_triangle_white_constant_color_run_px",
        "constant_texel_textured_triangle_white_variable_color_run_calls",
        "constant_texel_textured_triangle_white_variable_color_run_px",
        "constant_texel_textured_triangle_white_variable_alpha_run_calls",
        "constant_texel_textured_triangle_white_variable_alpha_run_px",
        "constant_texel_textured_triangle_us",
        "constant_texel_textured_triangle_white_texel_us",
        "constant_texel_textured_triangle_non_white_texel_us",
        "sampled_textured_triangle_calls",
        "sampled_textured_triangle_candidate_px",
        "sampled_textured_triangle_covered_px",
        "sampled_textured_triangle_us",
        "textured_rect_separable_run_calls",
        "textured_rect_separable_run_px",
        "textured_rect_separable_opaque_run_calls",
        "textured_rect_separable_opaque_run_px",
        "textured_rect_separable_translucent_run_calls",
        "textured_rect_separable_translucent_run_px",
        "textured_rect_separable_transparent_run_calls",
        "textured_rect_separable_transparent_run_px",
        "textured_rect_separable_white_vertex_calls",
        "textured_rect_separable_white_vertex_px",
        "textured_rect_separable_modulated_vertex_calls",
        "textured_rect_separable_modulated_vertex_px",
        "textured_rect_separable_direct_calls",
        "textured_rect_separable_direct_px",
        "textured_rect_separable_direct_opaque_px",
        "textured_rect_separable_direct_translucent_px",
        "textured_rect_separable_direct_transparent_px",
        "textured_rect_sampled_vector_candidate_px",
        "textured_rect_sampled_white_vertex_contiguous_px",
        "textured_rect_sampled_modulated_vertex_contiguous_px",
        "textured_rect_sampled_modulated_contiguous_runs",
        "textured_rect_sampled_modulated_contiguous_px_lt4",
        "textured_rect_sampled_modulated_contiguous_px_4_7",
        "textured_rect_sampled_modulated_contiguous_px_8_15",
        "textured_rect_sampled_modulated_contiguous_px_16_31",
        "textured_rect_sampled_modulated_contiguous_px_32_63",
        "textured_rect_sampled_modulated_contiguous_px_64_plus",
        "textured_rect_sampled_modulated_opportunity_blocks_16",
        "textured_rect_sampled_modulated_opportunity_px_16",
        "textured_rect_sampled_modulated_true_tail_px_16",
        "textured_rect_sampled_modulated_opportunity_blocks_4",
        "textured_rect_sampled_modulated_opportunity_px_4",
        "textured_rect_sampled_modulated_true_tail_px_4",
        "textured_rect_sampled_vector_backend_available",
        "textured_rect_sampled_modulated_vector_attempt_blocks_16",
        "textured_rect_sampled_modulated_vector_success_blocks_16",
        "textured_rect_sampled_modulated_vector_fallback_blocks_16",
        "textured_rect_sampled_modulated_vector_attempt_blocks_4",
        "textured_rect_sampled_modulated_vector_success_blocks_4",
        "textured_rect_sampled_modulated_vector_fallback_blocks_4",
        "textured_rect_sampled_vector_blocks",
        "textured_rect_sampled_vector_opaque_blocks",
        "textured_rect_sampled_vector_transparent_blocks",
        "textured_rect_sampled_vector_mixed_blocks",
        "textured_rect_sampled_vector_tail_px",
        "degenerate_triangle_skips",
        "fully_clipped_triangle_skips",
        "opaque_px",
        "translucent_px",
        "transparent_px",
        "constant_texel_textured_triangle_span_runs",
        "constant_texel_textured_triangle_span_px_lt4",
        "constant_texel_textured_triangle_span_px_4_7",
        "constant_texel_textured_triangle_span_px_8_15",
        "constant_texel_textured_triangle_span_px_16_31",
        "constant_texel_textured_triangle_span_px_32_plus",
    ];
    assert(names@.len() == raster_stat_names().len());
    names
}

impl RasterStats {
    /// All counters zero but the vector-backend marker, which the caller
    /// sets from the target it was built for.
    pub fn new(vector_backend_available: usize) -> (s: Self)
        ensures
            raster_stat_values(s) == Seq::new(166, |i: int| if i == VECTOR_BACKEND_MARKER_INDEX { vector_backend_available } else { 0usize }),
            s.textured_rect_separable_run_px_buckets_le1_le2_le4_le8_le16_gt16@ == seq![0usize, 0, 0, 0, 0, 0],
    {
        let s = RasterStats {
            solid_rect_calls: 0,
            solid_rect_px: 0,
            textured_rect_calls: 0,
            textured_rect_px: 0,
            textured_rect_constant_texel_calls: 0,
            textured_rect_constant_texel_px: 0,
            textured_rect_constant_texel_us: 0,
            textured_rect_sampled_calls: 0,
            textured_rect_sampled_px: 0,
            textured_rect_sampled_us: 0,
            textured_rect_separable_uv_calls: 0,
            textured_rect_separable_uv_px: 0,
            textured_rect_nonseparable_uv_calls: 0,
            textured_rect_nonseparable_uv_px: 0,
            textured_rect_white_texel_calls: 0,
            textured_rect_white_texel_px: 0,
            textured_rect_uniform_color_calls: 0,
            textured_rect_uniform_color_px: 0,
            solid_triangle_calls: 0,
            solid_triangle_bbox_px: 0,
            solid_triangle_covered_px: 0,
            solid_triangle_span_rows: 0,
            solid_triangle_candidate_px: 0,
            solid_triangle_hint_rows: 0,
            solid_triangle_hint_fallback_rows: 0,
            solid_triangle_hint_build_us: 0,
            solid_triangle_endpoint_search_us: 0,
            solid_triangle_blend_span_us: 0,
            solid_triangle_blend_span_calls: 0,
            solid_triangle_span_px: 0,
            solid_triangle_endpoint_probe_px: 0,
            solid_triangle_hint_probe_px: 0,
            solid_triangle_canary_probe_px: 0,
            solid_triangle_fallback_probe_px: 0,
            solid_triangle_direct_probe_px: 0,
            solid_triangle_hint_candidate_px: 0,
            solid_triangle_narrowed_rows: 0,
            solid_triangle_full_scan_rows: 0,
            solid_fan_calls: 0,
            solid_fan_triangles: 0,
            solid_fan_rows: 0,
            solid_fan_px: 0,
            solid_fan_edge_intersections: 0,
            solid_fan_endpoint_probe_px: 0,
            solid_fan_fallback_rows: 0,
            solid_fan_edge_precompute_calls: 0,
            solid_fan_edge_precompute_edges: 0,
            solid_fan_edge_precompute_used_rows: 0,
            solid_fan_edge_precompute_fallback_budget: 0,
            solid_fan_edge_precompute_fallback_non_finite: 0,
            solid_fan_edge_precompute_old_solver_rows: 0,
            solid_fan_span_cache_hits: 0,
            solid_fan_span_cache_misses: 0,
            solid_fan_span_cache_hit_rows: 0,
            solid_fan_span_cache_hit_px: 0,
            solid_fan_span_cache_stored_rows: 0,
            solid_fan_span_cache_rejected_too_many_rows: 0,
            solid_fan_span_cache_resident_entries: 0,
            solid_fan_span_cache_resident_rows: 0,
            solid_fan_span_cache_total_evictions: 0,
            solid_fan_span_cache_row_budget_evictions: 0,
            textured_triangle_calls: 0,
            textured_triangle_bbox_px: 0,
            textured_triangle_covered_px: 0,
            textured_triangle_candidate_px: 0,
            textured_triangle_narrowed_rows: 0,
            textured_triangle_full_scan_rows: 0,
            constant_texel_textured_triangle_calls: 0,
            constant_texel_textured_triangle_white_texel_calls: 0,
            constant_texel_textured_triangle_non_white_texel_calls: 0,
            constant_texel_textured_triangle_white_alpha_only_eligible_calls: 0,
            constant_texel_textured_triangle_white_alpha_only_rejected_rgb_calls: 0,
            constant_texel_textured_triangle_white_alpha_only_rejected_uniform_rgb_calls: 0,
            constant_texel_textured_triangle_white_alpha_only_rejected_varying_rgb_calls: 0,
            constant_texel_textured_triangle_candidate_px: 0,
            constant_texel_textured_triangle_covered_px: 0,
            constant_texel_textured_triangle_white_texel_covered_px: 0,
            constant_texel_textured_triangle_white_endpoint_rows: 0,
            constant_texel_textured_triangle_white_endpoint_match_rows: 0,
            constant_texel_textured_triangle_white_endpoint_mismatch_rows: 0,
            constant_texel_textured_triangle_white_endpoint_empty_rows: 0,
            constant_texel_textured_triangle_white_endpoint_span_px: 0,
            constant_texel_textured_triangle_white_endpoint_probe_px: 0,
            constant_texel_textured_triangle_white_endpoint_render_rows: 0,
            constant_texel_textured_triangle_white_endpoint_render_px: 0,
            constant_texel_textured_triangle_white_scan_runs: 0,
            constant_texel_textured_triangle_white_scan_multi_run_rows: 0,
            constant_texel_textured_triangle_non_white_texel_covered_px: 0,
            constant_texel_textured_triangle_opaque_px: 0,
            constant_texel_textured_triangle_translucent_px: 0,
            constant_texel_textured_triangle_transparent_px: 0,
            constant_texel_textured_triangle_white_alpha_only_constant_alpha_run_calls: 0,
            constant_texel_textured_triangle_white_alpha_only_constant_alpha_run_px: 0,
            constant_texel_textured_triangle_white_alpha_only_variable_alpha_run_calls: 0,
            constant_texel_textured_triangle_white_alpha_only_variable_alpha_run_px: 0,
            constant_texel_textured_triangle_white_constant_alpha_run_calls: 0,
            constant_texel_textured_triangle_white_constant_alpha_run_px: 0,
            constant_texel_textured_triangle_white_constant_color_run_calls: 0,
            constant_texel_textured_triangle_white_constant_color_run_px: 0,
            constant_texel_textured_triangle_white_variable_color_run_calls: 0,
            constant_texel_textured_triangle_white_variable_color_run_px: 0,
            constant_texel_textured_triangle_white_variable_alpha_run_calls: 0,
            constant_texel_textured_triangle_white_variable_alpha_run_px: 0,
            constant_texel_textured_triangle_us: 0,
            constant_texel_textured_triangle_white_texel_us: 0,
            constant_texel_textured_triangle_non_white_texel_us: 0,
            sampled_textured_triangle_calls: 0,
            sampled_textured_triangle_candidate_px: 0,
            sampled_textured_triangle_covered_px: 0,
            sampled_textured_triangle_us: 0,
            textured_rect_separable_run_calls: 0,
            textured_rect_separable_run_px: 0,
            textured_rect_separable_opaque_run_calls: 0,
            textured_rect_separable_opaque_run_px: 0,
            textured_rect_separable_translucent_run_calls: 0,
            textured_rect_separable_translucent_run_px: 0,
            textured_rect_separable_transparent_run_calls: 0,
            textured_rect_separable_transparent_run_px: 0,
            textured_rect_separable_white_vertex_calls: 0,
            textured_rect_separable_white_vertex_px: 0,
            textured_rect_separable_modulated_vertex_calls: 0,
            textured_rect_separable_modulated_vertex_px: 0,
            textured_rect_separable_direct_calls: 0,
            textured_rect_separable_direct_px: 0,
            textured_rect_separable_direct_opaque_px: 0,
            textured_rect_separable_direct_translucent_px: 0,
            textured_rect_separable_direct_transparent_px: 0,
            textured_rect_sampled_vector_candidate_px: 0,
            textured_rect_sampled_white_vertex_contiguous_px: 0,
            textured_rect_sampled_modulated_vertex_contiguous_px: 0,
            textured_rect_sampled_modulated_contiguous_runs: 0,
            textured_rect_sampled_modulated_contiguous_px_lt4: 0,
            textured_rect_sampled_modulated_contiguous_px_4_7: 0,
            textured_rect_sampled_modulated_contiguous_px_8_15: 0,
            textured_rect_sampled_modulated_contiguous_px_16_31: 0,
            textured_rect_sampled_modulated_contiguous_px_32_63: 0,
            textured_rect_sampled_modulated_contiguous_px_64_plus: 0,
            textured_rect_sampled_modulated_opportunity_blocks_16: 0,
            textured_rect_sampled_modulated_opportunity_px_16: 0,
            textured_rect_sampled_modulated_true_tail_px_16: 0,
            textured_rect_sampled_modulated_opportunity_blocks_4: 0,
            textured_rect_sampled_modulated_opportunity_px_4: 0,
            textured_rect_sampled_modulated_true_tail_px_4: 0,
            textured_rect_sampled_vector_backend_available: vector_backend_available,
            textured_rect_sampled_modulated_vector_attempt_blocks_16: 0,
            textured_rect_sampled_modulated_vector_success_blocks_16: 0,
            textured_rect_sampled_modulated_vector_fallback_blocks_16: 0,
            textured_rect_sampled_modulated_vector_attempt_blocks_4: 0,
            textured_rect_sampled_modulated_vector_success_blocks_4: 0,
            textured_rect_sampled_modulated_vector_fallback_blocks_4: 0,
            textured_rect_sampled_vector_blocks: 0,
            textured_rect_sampled_vector_opaque_blocks: 0,
            textured_rect_sampled_vector_transparent_blocks: 0,
            textured_rect_sampled_vector_mixed_blocks: 0,
            textured_rect_sampled_vector_tail_px: 0,
            textured_rect_separable_run_px_buckets_le1_le2_le4_le8_le16_gt16: [0, 0, 0, 0, 0, 0],
            degenerate_triangle_skips: 0,
            fully_clipped_triangle_skips: 0,
            opaque_px: 0,
            translucent_px: 0,
            transparent_px: 0,
            constant_texel_textured_triangle_span_runs: 0,
            constant_texel_textured_triangle_span_px_lt4: 0,
            constant_texel_textured_triangle_span_px_4_7: 0,
            constant_texel_textured_triangle_span_px_8_15: 0,
            constant_texel_textured_triangle_span_px_16_31: 0,
            constant_texel_textured_triangle_span_px_32_plus: 0,
        };
        assert(raster_stat_values(s) =~= Seq::new(166, |i: int| if i == VECTOR_BACKEND_MARKER_INDEX { vector_backend_available } else { 0usize }));
        s
    }

    /// The scalar counters, in log order.
    pub fn values(&self) -> (v: Vec<usize>)
        ensures
            v@ == raster_stat_values(*self),
    {
        let v = vec![
            self.solid_rect_calls,
            self.solid_rect_px,
            self.textured_rect_calls,
            self.textured_rect_px,
            self.textured_rect_constant_texel_calls,
            self.textured_rect_constant_texel_px,
            self.textured_rect_constant_texel_us,
            self.textured_rect_sampled_calls,
            self.textured_rect_sampled_px,
            self.textured_rect_sampled_us,
            self.textured_rect_separable_uv_calls,
            self.textured_rect_separable_uv_px,
            self.textured_rect_nonseparable_uv_calls,
            self.textured_rect_nonseparable_uv_px,
            self.textured_rect_white_texel_calls,
            self.textured_rect_white_texel_px,
            self.textured_rect_uniform_color_calls,
            self.textured_rect_uniform_color_px,
            self.solid_triangle_calls,
            self.solid_triangle_bbox_px,
            self.solid_triangle_covered_px,
            self.solid_triangle_span_rows,
            self.solid_triangle_candidate_px,
            self.solid_triangle_hint_rows,
            self.solid_triangle_hint_fallback_rows,
            self.solid_triangle_hint_build_us,
            self.solid_triangle_endpoint_search_us,
            self.solid_triangle_blend_span_us,
            self.solid_triangle_blend_span_calls,
            self.solid_triangle_span_px,
            self.solid_triangle_endpoint_probe_px,
            self.solid_triangle_hint_probe_px,
            self.solid_triangle_canary_probe_px,
            self.solid_triangle_fallback_probe_px,
            self.solid_triangle_direct_probe_px,
            self.solid_triangle_hint_candidate_px,
            self.solid_triangle_narrowed_rows,
            self.solid_triangle_full_scan_rows,
            self.solid_fan_calls,
            self.solid_fan_triangles,
            self.solid_fan_rows,
            self.solid_fan_px,
            self.solid_fan_edge_intersections,
            self.solid_fan_endpoint_probe_px,
            self.solid_fan_fallback_rows,
            self.solid_fan_edge_precompute_calls,
            self.solid_fan_edge_precompute_edges,
            self.solid_fan_edge_precompute_used_rows,
            self.solid_fan_edge_precompute_fallback_budget,
            self.solid_fan_edge_precompute_fallback_non_finite,
            self.solid_fan_edge_precompute_old_solver_rows,
            self.solid_fan_span_cache_hits,
            self.solid_fan_span_cache_misses,
            self.solid_fan_span_cache_hit_rows,
            self.solid_fan_span_cache_hit_px,
            self.solid_fan_span_cache_stored_rows,
            self.solid_fan_span_cache_rejected_too_many_rows,
            self.solid_fan_span_cache_resident_entries,
            self.solid_fan_span_cache_resident_rows,
            self.solid_fan_span_cache_total_evictions,
            self.solid_fan_span_cache_row_budget_evictions,
            self.textured_triangle_calls,
            self.textured_triangle_bbox_px,
            self.textured_triangle_covered_px,
            self.textured_triangle_candidate_px,
            self.textured_triangle_narrowed_rows,
            self.textured_triangle_full_scan_rows,
            self.constant_texel_textured_triangle_calls,
            self.constant_texel_textured_triangle_white_texel_calls,
            self.constant_texel_textured_triangle_non_white_texel_calls,
            self.constant_texel_textured_triangle_white_alpha_only_eligible_calls,
            self.constant_texel_textured_triangle_white_alpha_only_rejected_rgb_calls,
            self.constant_texel_textured_triangle_white_alpha_only_rejected_uniform_rgb_calls,
            self.constant_texel_textured_triangle_white_alpha_only_rejected_varying_rgb_calls,
            self.constant_texel_textured_triangle_candidate_px,
            self.constant_texel_textured_triangle_covered_px,
            self.constant_texel_textured_triangle_white_texel_covered_px,
            self.constant_texel_textured_triangle_white_endpoint_rows,
            self.constant_texel_textured_triangle_white_endpoint_match_rows,
            self.constant_texel_textured_triangle_white_endpoint_mismatch_rows,
            self.constant_texel_textured_triangle_white_endpoint_empty_rows,
            self.constant_texel_textured_triangle_white_endpoint_span_px,
            self.constant_texel_textured_triangle_white_endpoint_probe_px,
            self.constant_texel_textured_triangle_white_endpoint_render_rows,
            self.constant_texel_textured_triangle_white_endpoint_render_px,
            self.constant_texel_textured_triangle_white_scan_runs,
            self.constant_texel_textured_triangle_white_scan_multi_run_rows,
            self.constant_texel_textured_triangle_non_white_texel_covered_px,
            self.constant_texel_textured_triangle_opaque_px,
            self.constant_texel_textured_triangle_translucent_px,
            self.constant_texel_textured_triangle_transparent_px,
            self.constant_texel_textured_triangle_white_alpha_only_constant_alpha_run_calls,
            self.constant_texel_textured_triangle_white_alpha_only_constant_alpha_run_px,
            self.constant_texel_textured_triangle_white_alpha_only_variable_alpha_run_calls,
            self.constant_texel_textured_triangle_white_alpha_only_variable_alpha_run_px,
            self.constant_texel_textured_triangle_white_constant_alpha_run_calls,
            self.constant_texel_textured_triangle_white_constant_alpha_run_px,
            self.constant_texel_textured_triangle_white_constant_color_run_calls,
            self.constant_texel_textured_triangle_white_constant_color_run_px,
            self.constant_texel_textured_triangle_white_variable_color_run_calls,
            self.constant_texel_textured_triangle_white_variable_color_run_px,
            self.constant_texel_textured_triangle_white_variable_alpha_run_calls,
            self.constant_texel_textured_triangle_white_variable_alpha_run_px,
            self.constant_texel_textured_triangle_us,
            self.constant_texel_textured_triangle_white_texel_us,
            self.constant_texel_textured_triangle_non_white_texel_us,
            self.sampled_textured_triangle_calls,
            self.sampled_textured_triangle_candidate_px,
            self.sampled_textured_triangle_covered_px,
            self.sampled_textured_triangle_us,
            self.textured_rect_separable_run_calls,
            self.textured_rect_separable_run_px,
            self.textured_rect_separable_opaque_run_calls,
            self.textured_rect_separable_opaque_run_px,
            self.textured_rect_separable_translucent_run_calls,
            self.textured_rect_separable_translucent_run_px,
            self.textured_rect_separable_transparent_run_calls,
            self.textured_rect_separable_transparent_run_px,
            self.textured_rect_separable_white_vertex_calls,
            self.textured_rect_separable_white_vertex_px,
            self.textured_rect_separable_modulated_vertex_calls,
            self.textured_rect_separable_modulated_vertex_px,
            self.textured_rect_separable_direct_calls,
            self.textured_rect_separable_direct_px,
            self.textured_rect_separable_direct_opaque_px,
            self.textured_rect_separable_direct_translucent_px,
            self.textured_rect_separable_direct_transparent_px,
            self.textured_rect_sampled_vector_candidate_px,
            self.textured_rect_sampled_white_vertex_contiguous_px,
            self.textured_rect_sampled_modulated_vertex_contiguous_px,
            self.textured_rect_sampled_modulated_contiguous_runs,
            self.textured_rect_sampled_modulated_contiguous_px_lt4,
            self.textured_rect_sampled_modulated_contiguous_px_4_7,
            self.textured_rect_sampled_modulated_contiguous_px_8_15,
            self.textured_rect_sampled_modulated_contiguous_px_16_31,
            self.textured_rect_sampled_modulated_contiguous_px_32_63,
            self.textured_rect_sampled_modulated_contiguous_px_64_plus,
            self.textured_rect_sampled_modulated_opportunity_blocks_16,
            self.textured_rect_sampled_modulated_opportunity_px_16,
            self.textured_rect_sampled_modulated_true_tail_px_16,
            self.textured_rect_sampled_modulated_opportunity_blocks_4,
            self.textured_rect_sampled_modulated_opportunity_px_4,
            self.textured_rect_sampled_modulated_true_tail_px_4,
            self.textured_rect_sampled_vector_backend_available,
            self.textured_rect_sampled_modulated_vector_attempt_blocks_16,
            self.textured_rect_sampled_modulated_vector_success_blocks_16,
            self.textured_rect_sampled_modulated_vector_fallback_blocks_16,
            self.textured_rect_sampled_modulated_vector_attempt_blocks_4,
            self.textured_rect_sampled_modulated_vector_success_blocks_4,
            self.textured_rect_sampled_modulated_vector_fallback_blocks_4,
            self.textured_rect_sampled_vector_blocks,
            self.textured_rect_sampled_vector_opaque_blocks,
            self.textured_rect_sampled_vector_transparent_blocks,
            self.textured_rect_sampled_vector_mixed_blocks,
            self.textured_rect_sampled_vector_tail_px,
            self.degenerate_triangle_skips,
            self.fully_clipped_triangle_skips,
            self.opaque_px,
            self.translucent_px,
            self.transparent_px,
            self.constant_texel_textured_triangle_span_runs,
            self.constant_texel_textured_triangle_span_px_lt4,
            self.constant_texel_textured_triangle_span_px_4_7,
            self.constant_texel_textured_triangle_span_px_8_15,
            self.constant_texel_textured_triangle_span_px_16_31,
            self.constant_texel_textured_triangle_span_px_32_plus,
        ];
        v
    }
}

/// ` name=value` for each name and value, in order.
pub open spec fn stat_entries_text(names: Seq<Seq<char>>, values: Seq<usize>) -> Seq<char>
    decreases names.len(),
{
    if names.len() == 0 || values.len() == 0 {
        Seq::empty()
    } else {
        stat_entries_text(names.drop_last(), values.drop_last()) + " "@ + names.last() + "="@
            + decimal(values.last() as nat)
    }
}

/// The six run-length buckets, comma separated.
pub open spec fn bucket_text(b: [usize; 6]) -> Seq<char> {
    decimal(b@[0] as nat) + ","@ + decimal(b@[1] as nat) + ","@ + decimal(b@[2] as nat) + ","@
        + decimal(b@[3] as nat) + ","@ + decimal(b@[4] as nat) + ","@ + decimal(b@[5] as nat)
}

/// The whole log line: a fixed prefix, then ` name=value` for every scalar
/// counter, with the run-length buckets written after the vector tail counter.
pub open spec fn raster_stats_log_text(s: RasterStats) -> Seq<char> {
    let names = raster_stat_names();
    let values = raster_stat_values(s);
    let k = COUNTERS_BEFORE_BUCKETS as int;
    "software renderer raster_stats"@ + stat_entries_text(names.take(k), values.take(k))
        + " textured_rect_separable_run_px_buckets_le1_le2_le4_le8_le16_gt16="@ + bucket_text(
        s.textured_rect_separable_run_px_buckets_le1_le2_le4_le8_le16_gt16,
    ) + stat_entries_text(names.skip(k), values.skip(k))
}

proof fn lemma_entries_step(names: Seq<Seq<char>>, values: Seq<usize>, lo: int, i: int)
    requires
        0 <= lo <= i < names.len(),
        names.len() == values.len(),
    ensures
        stat_entries_text(names.subrange(lo, i + 1), values.subrange(lo, i + 1)) == stat_entries_text(
            names.subrange(lo, i),
            values.subrange(lo, i),
        ) + " "@ + names[i] + "="@ + decimal(values[i] as nat),
{
    assert(names.subrange(lo, i + 1).drop_last() =~= names.subrange(lo, i));
    assert(values.subrange(lo, i + 1).drop_last() =~= values.subrange(lo, i));
}

/// Appends ` name=value` for the counters `lo..hi`.
fn push_entries(
    line: &mut String,
    names: &Vec<&'static str>,
    values: &Vec<usize>,
    lo: usize,
    hi: usize,
)
    requires
        lo <= hi <= names@.len(),
        names@.len() == values@.len(),
    ensures
        final(line)@ == old(line)@ + stat_entries_text(
            names@.map_values(|n: &'static str| n@).subrange(lo as int, hi as int),
            values@.subrange(lo as int, hi as int),
        ),
{
    let ghost ns = names@.map_values(|n: &'static str| n@);
    let ghost start = line@;
    let mut i = lo;
    assert(ns.subrange(lo as int, lo as int).len() == 0);
    while i < hi
        invariant
            lo <= i <= hi <= names@.len(),
            names@.len() == values@.len(),
            ns == names@.map_values(|n: &'static str| n@),
            line@ == start + stat_entries_text(
                ns.subrange(lo as int, i as int),
                values@.subrange(lo as int, i as int),
            ),
        decreases hi - i,
    {
        proof {
            lemma_entries_step(ns, values@, lo as int, i as int);
        }
        push_str(line, " ");
        push_str(line, names[i]);
        push_str(line, "=");
        push_decimal(line, values[i] as u128);
        i = i + 1;
    }
}

impl RasterStats {
    /// One line with every counter as ` name=value`, behind the prefix
    /// `software renderer raster_stats`.
    pub fn log_line(&self) -> (line: String)
        ensures
            line@ == raster_stats_log_text(*self),
    {
        let names = raster_stat_name_list();
        let values = self.values();
        let ghost ns = names@.map_values(|n: &'static str| n@);
        assert(ns =~= raster_stat_names());
        let mut line = String::new();
        push_str(&mut line, "software renderer raster_stats");
        push_entries(&mut line, &names, &values, 0, COUNTERS_BEFORE_BUCKETS);
        push_str(&mut line, " textured_rect_separable_run_px_buckets_le1_le2_le4_le8_le16_gt16=");
        let b = self.textured_rect_separable_run_px_buckets_le1_le2_le4_le8_le16_gt16;
        push_decimal(&mut line, b[0] as u128);
        push_str(&mut line, ",");
        push_decimal(&mut line, b[1] as u128);
        push_str(&mut line, ",");
        push_decimal(&mut line, b[2] as u128);
        push_str(&mut line, ",");
        push_decimal(&mut line, b[3] as u128);
        push_str(&mut line, ",");
        push_decimal(&mut line, b[4] as u128);
        push_str(&mut line, ",");
        push_decimal(&mut line, b[5] as u128);
        push_entries(&mut line, &names, &values, COUNTERS_BEFORE_BUCKETS, SCALAR_COUNTER_COUNT);
        proof {
            let k = COUNTERS_BEFORE_BUCKETS as int;
            assert(ns.subrange(0, k) =~= raster_stat_names().take(k));
            assert(values@.subrange(0, k) =~= raster_stat_values(*self).take(k));
            assert(ns.subrange(k, SCALAR_COUNTER_COUNT as int) =~= raster_stat_names().skip(k));
            assert(values@.subrange(k, SCALAR_COUNTER_COUNT as int) =~= raster_stat_values(
                *self,
            ).skip(k));
        }
        line
    }
}

// ---------------------------------------------------------------------------
// Recording.
// ---------------------------------------------------------------------------
/// The contiguous-run bucket that a modulated run of `px` pixels falls in:
/// 0 for 0..=3, 1 for 4..=7, 2 for 8..=15, 3 for 16..=31, 4 for 32..=63 and
/// 5 for 64 and more.
pub open spec fn contiguous_bucket(px: int) -> int {
    if px <= 3 {
        0
    } else if px <= 7 {
        1
    } else if px <= 15 {
        2
    } else if px <= 31 {
        3
    } else if px <= 63 {
        4
    } else {
        5
    }
}

/// The six contiguous-run pixel sums of `s`, by bucket.
pub open spec fn contiguous_buckets(s: RasterStats) -> Seq<usize> {
    seq![
        s.textured_rect_sampled_modulated_contiguous_px_lt4,
        s.textured_rect_sampled_modulated_contiguous_px_4_7,
        s.textured_rect_sampled_modulated_contiguous_px_8_15,
        s.textured_rect_sampled_modulated_contiguous_px_16_31,
        s.textured_rect_sampled_modulated_contiguous_px_32_63,
        s.textured_rect_sampled_modulated_contiguous_px_64_plus,
    ]
}

pub open spec fn contiguous_run_fits(s: RasterStats, px: usize) -> bool {
    &&& s.textured_rect_sampled_modulated_contiguous_runs < usize::MAX
    &&& contiguous_buckets(s)[contiguous_bucket(px as int)] + px <= usize::MAX
}

pub open spec fn after_contiguous_run(s: RasterStats, px: usize) -> RasterStats {
    let s1 = RasterStats {
        textured_rect_sampled_modulated_contiguous_runs: (
        s.textured_rect_sampled_modulated_contiguous_runs + 1) as usize,
        ..s
    };
    if px <= 3 {
        RasterStats {
            textured_rect_sampled_modulated_contiguous_px_lt4: (
            s.textured_rect_sampled_modulated_contiguous_px_lt4 + px) as usize,
            ..s1
        }
    } else if px <= 7 {
        RasterStats {
            textured_rect_sampled_modulated_contiguous_px_4_7: (
            s.textured_rect_sampled_modulated_contiguous_px_4_7 + px) as usize,
            ..s1
        }
    } else if px <= 15 {
        RasterStats {
            textured_rect_sampled_modulated_contiguous_px_8_15: (
            s.textured_rect_sampled_modulated_contiguous_px_8_15 + px) as usize,
            ..s1
        }
    } else if px <= 31 {
        RasterStats {
            textured_rect_sampled_modulated_contiguous_px_16_31: (
            s.textured_rect_sampled_modulated_contiguous_px_16_31 + px) as usize,
            ..s1
        }
    } else if px <= 63 {
        RasterStats {
            textured_rect_sampled_modulated_contiguous_px_32_63: (
            s.textured_rect_sampled_modulated_contiguous_px_32_63 + px) as usize,
            ..s1
        }
    } else {
        RasterStats {
            textured_rect_sampled_modulated_contiguous_px_64_plus: (
            s.textured_rect_sampled_modulated_contiguous_px_64_plus + px) as usize,
            ..s1
        }
    }
}

pub open spec fn opportunity_16_fits(s: RasterStats, px: usize) -> bool {
    let blocks = px / 16;
    &&& s.textured_rect_sampled_modulated_opportunity_blocks_16 + blocks <= usize::MAX
    &&& s.textured_rect_sampled_modulated_opportunity_px_16 + blocks * 16 <= usize::MAX
    &&& s.textured_rect_sampled_modulated_true_tail_px_16 + px % 16 <= usize::MAX
}

/// Whole 16-pixel blocks of the run, the pixels they cover, and the rest.
pub open spec fn after_opportunity_16(s: RasterStats, px: usize) -> RasterStats {
    let blocks = px / 16;
    RasterStats {
        textured_rect_sampled_modulated_opportunity_blocks_16: (
        s.textured_rect_sampled_modulated_opportunity_blocks_16 + blocks) as usize,
        textured_rect_sampled_modulated_opportunity_px_16: (
        s.textured_rect_sampled_modulated_opportunity_px_16 + blocks * 16) as usize,
        textured_rect_sampled_modulated_true_tail_px_16: (
        s.textured_rect_sampled_modulated_true_tail_px_16 + px % 16) as usize,
        ..s
    }
}

pub open spec fn opportunity_4_fits(s: RasterStats, px: usize) -> bool {
    let rest = px % 16;
    let blocks = rest / 4;
    &&& s.textured_rect_sampled_modulated_opportunity_blocks_4 + blocks <= usize::MAX
    &&& s.textured_rect_sampled_modulated_opportunity_px_4 + blocks * 4 <= usize::MAX
    &&& s.textured_rect_sampled_modulated_true_tail_px_4 + rest % 4 <= usize::MAX
}

/// Of what the 16-pixel blocks leave, whole 4-pixel blocks, the pixels they
/// cover, and the rest.
pub open spec fn after_opportunity_4(s: RasterStats, px: usize) -> RasterStats {
    let rest = px % 16;
    let blocks = rest / 4;
    RasterStats {
        textured_rect_sampled_modulated_opportunity_blocks_4: (
        s.textured_rect_sampled_modulated_opportunity_blocks_4 + blocks) as usize,
        textured_rect_sampled_modulated_opportunity_px_4: (
        s.textured_rect_sampled_modulated_opportunity_px_4 + blocks * 4) as usize,
        textured_rect_sampled_modulated_true_tail_px_4: (
        s.textured_rect_sampled_modulated_true_tail_px_4 + rest % 4) as usize,
        ..s
    }
}

pub open spec fn vector_candidate_fits(s: RasterStats, white: bool, px: usize) -> bool {
    &&& s.textured_rect_sampled_vector_candidate_px + px <= usize::MAX
    &&& white ==> s.textured_rect_sampled_white_vertex_contiguous_px + px <= usize::MAX
    &&& !white ==> {
        &&& s.textured_rect_sampled_modulated_vertex_contiguous_px + px <= usize::MAX
        &&& contiguous_run_fits(s, px)
        &&& opportunity_16_fits(s, px)
        &&& opportunity_4_fits(s, px)
    }
}

pub open spec fn after_vector_candidate(s: RasterStats, white: bool, px: usize) -> RasterStats {
    let s1 = RasterStats {
        textured_rect_sampled_vector_candidate_px: (s.textured_rect_sampled_vector_candidate_px
            + px) as usize,
        ..s
    };
    if white {
        RasterStats {
            textured_rect_sampled_white_vertex_contiguous_px: (
            s.textured_rect_sampled_white_vertex_contiguous_px + px) as usize,
            ..s1
        }
    } else {
        let s2 = RasterStats {
            textured_rect_sampled_modulated_vertex_contiguous_px: (
            s.textured_rect_sampled_modulated_vertex_contiguous_px + px) as usize,
            ..s1
        };
        after_opportunity_4(after_opportunity_16(after_contiguous_run(s2, px), px), px)
    }
}

/// Which of three alpha classes a value falls in: 0 transparent, 1 opaque
/// (255), 2 translucent.
pub open spec fn alpha_class(alpha: u8) -> int {
    if alpha == 0 {
        0
    } else if alpha == 255 {
        1
    } else {
        2
    }
}

pub open spec fn alpha_px(s: RasterStats) -> Seq<usize> {
    seq![s.transparent_px, s.opaque_px, s.translucent_px]
}

pub open spec fn constant_texel_alpha_px(s: RasterStats) -> Seq<usize> {
    seq![
        s.constant_texel_textured_triangle_transparent_px,
        s.constant_texel_textured_triangle_opaque_px,
        s.constant_texel_textured_triangle_translucent_px,
    ]
}

pub open spec fn separable_direct_alpha_px(s: RasterStats) -> Seq<usize> {
    seq![
        s.textured_rect_separable_direct_transparent_px,
        s.textured_rect_separable_direct_opaque_px,
        s.textured_rect_separable_direct_translucent_px,
    ]
}

/// The span-run bucket of a nonzero constant-texel run: 0 for 1..=3, 1 for
/// 4..=7, 2 for 8..=15, 3 for 16..=31 and 4 for 32 and more.
pub open spec fn span_bucket(px: int) -> int {
    if px <= 3 {
        0
    } else if px <= 7 {
        1
    } else if px <= 15 {
        2
    } else if px <= 31 {
        3
    } else {
        4
    }
}

pub open spec fn span_buckets(s: RasterStats) -> Seq<usize> {
    seq![
        s.constant_texel_textured_triangle_span_px_lt4,
        s.constant_texel_textured_triangle_span_px_4_7,
        s.constant_texel_textured_triangle_span_px_8_15,
        s.constant_texel_textured_triangle_span_px_16_31,
        s.constant_texel_textured_triangle_span_px_32_plus,
    ]
}

pub open spec fn after_alpha_px(s: RasterStats, alpha: u8, count: usize) -> RasterStats {
    if alpha == 0 {
        RasterStats { transparent_px: (s.transparent_px + count) as usize, ..s }
    } else if alpha == 255 {
        RasterStats { opaque_px: (s.opaque_px + count) as usize, ..s }
    } else {
        RasterStats { translucent_px: (s.translucent_px + count) as usize, ..s }
    }
}

impl RasterStats {
    /// Counts a contiguous run of sampled-rect pixels that the vector path
    /// could take. A run with modulated vertex color is also split into
    /// 16-pixel blocks, 4-pixel blocks of the remainder, and a tail.
    pub fn record_textured_rect_sampled_vector_candidate(&mut self, white: bool, px: usize)
        requires
            vector_candidate_fits(*old(self), white, px),
        ensures
            *final(self) == after_vector_candidate(*old(self), white, px),
    {
        self.textured_rect_sampled_vector_candidate_px = self.textured_rect_sampled_vector_candidate_px
            + px;
        if white {
            self.textured_rect_sampled_white_vertex_contiguous_px = self.textured_rect_sampled_white_vertex_contiguous_px
                + px;
        } else {
            self.textured_rect_sampled_modulated_vertex_contiguous_px = self.textured_rect_sampled_modulated_vertex_contiguous_px
                + px;
            self.record_textured_rect_sampled_modulated_contiguous_run(px);
            self.record_textured_rect_sampled_modulated_opportunity_16(px);
            self.record_textured_rect_sampled_modulated_opportunity_4(px);
        }
    }

    pub fn record_textured_rect_sampled_modulated_opportunity_16(&mut self, px: usize)
        requires
            opportunity_16_fits(*old(self), px),
        ensures
            *final(self) == after_opportunity_16(*old(self), px),
    {
        let blocks = px / TEXTURED_RECT_VECTOR_BLOCK_PX;
        let opportunity_px = blocks * TEXTURED_RECT_VECTOR_BLOCK_PX;
        self.textured_rect_sampled_modulated_opportunity_blocks_16 = self.textured_rect_sampled_modulated_opportunity_blocks_16
            + blocks;
        self.textured_rect_sampled_modulated_opportunity_px_16 = self.textured_rect_sampled_modulated_opportunity_px_16
            + opportunity_px;
        self.textured_rect_sampled_modulated_true_tail_px_16 = self.textured_rect_sampled_modulated_true_tail_px_16
            + (px - opportunity_px);
    }

    pub fn record_textured_rect_sampled_modulated_opportunity_4(&mut self, px: usize)
        requires
            opportunity_4_fits(*old(self), px),
        ensures
            *final(self) == after_opportunity_4(*old(self), px),
    {
        let remainder_after_16 = px % TEXTURED_RECT_VECTOR_BLOCK_PX;
        let blocks = remainder_after_16 / 4;
        let opportunity_px = blocks * 4;
        self.textured_rect_sampled_modulated_opportunity_blocks_4 = self.textured_rect_sampled_modulated_opportunity_blocks_4
            + blocks;
        self.textured_rect_sampled_modulated_opportunity_px_4 = self.textured_rect_sampled_modulated_opportunity_px_4
            + opportunity_px;
        self.textured_rect_sampled_modulated_true_tail_px_4 = self.textured_rect_sampled_modulated_true_tail_px_4
            + (remainder_after_16 - opportunity_px);
    }

    pub fn record_textured_rect_sampled_modulated_contiguous_run(&mut self, px: usize)
        requires
            contiguous_run_fits(*old(self), px),
        ensures
            *final(self) == after_contiguous_run(*old(self), px),
    {
        self.textured_rect_sampled_modulated_contiguous_runs = self.textured_rect_sampled_modulated_contiguous_runs
            + 1;
        if px <= 3 {
            self.textured_rect_sampled_modulated_contiguous_px_lt4 = self.textured_rect_sampled_modulated_contiguous_px_lt4
                + px;
        } else if px <= 7 {
            self.textured_rect_sampled_modulated_contiguous_px_4_7 = self.textured_rect_sampled_modulated_contiguous_px_4_7
                + px;
        } else if px <= 15 {
            self.textured_rect_sampled_modulated_contiguous_px_8_15 = self.textured_rect_sampled_modulated_contiguous_px_8_15
                + px;
        } else if px <= 31 {
            self.textured_rect_sampled_modulated_contiguous_px_16_31 = self.textured_rect_sampled_modulated_contiguous_px_16_31
                + px;
        } else if px <= 63 {
            self.textured_rect_sampled_modulated_contiguous_px_32_63 = self.textured_rect_sampled_modulated_contiguous_px_32_63
                + px;
        } else {
            self.textured_rect_sampled_modulated_contiguous_px_64_plus = self.textured_rect_sampled_modulated_contiguous_px_64_plus
                + px;
        }
    }

    /// Counts one vector block: opaque when all its pixels are opaque,
    /// transparent when all are transparent, mixed otherwise.
    pub fn record_textured_rect_sampled_vector_block(
        &mut self,
        block_px: usize,
        opaque_px: usize,
        transparent_px: usize,
    )
        requires
            old(self).textured_rect_sampled_vector_blocks < usize::MAX,
            old(self).textured_rect_sampled_vector_opaque_blocks < usize::MAX,
            old(self).textured_rect_sampled_vector_transparent_blocks < usize::MAX,
            old(self).textured_rect_sampled_vector_mixed_blocks < usize::MAX,
        ensures
            ({
                let s1 = RasterStats {
                    textured_rect_sampled_vector_blocks: (
                    old(self).textured_rect_sampled_vector_blocks + 1) as usize,
                    ..*old(self)
                };
                *final(self) == if opaque_px == block_px {
                    RasterStats {
                        textured_rect_sampled_vector_opaque_blocks: (
                        s1.textured_rect_sampled_vector_opaque_blocks + 1) as usize,
                        ..s1
                    }
                } else if transparent_px == block_px {
                    RasterStats {
                        textured_rect_sampled_vector_transparent_blocks: (
                        s1.textured_rect_sampled_vector_transparent_blocks + 1) as usize,
                        ..s1
                    }
                } else {
                    RasterStats {
                        textured_rect_sampled_vector_mixed_blocks: (
                        s1.textured_rect_sampled_vector_mixed_blocks + 1) as usize,
                        ..s1
                    }
                }
            }),
    {
        self.textured_rect_sampled_vector_blocks = self.textured_rect_sampled_vector_blocks + 1;
        if opaque_px == block_px {
            self.textured_rect_sampled_vector_opaque_blocks = self.textured_rect_sampled_vector_opaque_blocks
                + 1;
        } else if transparent_px == block_px {
            self.textured_rect_sampled_vector_transparent_blocks = self.textured_rect_sampled_vector_transparent_blocks
                + 1;
        } else {
            self.textured_rect_sampled_vector_mixed_blocks = self.textured_rect_sampled_vector_mixed_blocks
                + 1;
        }
    }

    pub fn record_textured_rect_sampled_modulated_vector_attempt(&mut self, success: bool)
        requires
            old(self).textured_rect_sampled_modulated_vector_attempt_blocks_16 < usize::MAX,
            success ==> old(self).textured_rect_sampled_modulated_vector_success_blocks_16
                < usize::MAX,
            !success ==> old(self).textured_rect_sampled_modulated_vector_fallback_blocks_16
                < usize::MAX,
        ensures
            ({
                let s1 = RasterStats {
                    textured_rect_sampled_modulated_vector_attempt_blocks_16: (
                    old(self).textured_rect_sampled_modulated_vector_attempt_blocks_16 + 1) as usize,
                    ..*old(self)
                };
                *final(self) == if success {
                    RasterStats {
                        textured_rect_sampled_modulated_vector_success_blocks_16: (
                        s1.textured_rect_sampled_modulated_vector_success_blocks_16 + 1) as usize,
                        ..s1
                    }
                } else {
                    RasterStats {
                        textured_rect_sampled_modulated_vector_fallback_blocks_16: (
                        s1.textured_rect_sampled_modulated_vector_fallback_blocks_16 + 1) as usize,
                        ..s1
                    }
                }
            }),
    {
        self.textured_rect_sampled_modulated_vector_attempt_blocks_16 = self.textured_rect_sampled_modulated_vector_attempt_blocks_16
            + 1;
        if success {
            self.textured_rect_sampled_modulated_vector_success_blocks_16 = self.textured_rect_sampled_modulated_vector_success_blocks_16
                + 1;
        } else {
            self.textured_rect_sampled_modulated_vector_fallback_blocks_16 = self.textured_rect_sampled_modulated_vector_fallback_blocks_16
                + 1;
        }
    }

    pub fn record_textured_rect_sampled_modulated_vector_attempt_4(&mut self, success: bool)
        requires
            old(self).textured_rect_sampled_modulated_vector_attempt_blocks_4 < usize::MAX,
            success ==> old(self).textured_rect_sampled_modulated_vector_success_blocks_4
                < usize::MAX,
            !success ==> old(self).textured_rect_sampled_modulated_vector_fallback_blocks_4
                < usize::MAX,
        ensures
            ({
                let s1 = RasterStats {
                    textured_rect_sampled_modulated_vector_attempt_blocks_4: (
                    old(self).textured_rect_sampled_modulated_vector_attempt_blocks_4 + 1) as usize,
                    ..*old(self)
                };
                *final(self) == if success {
                    RasterStats {
                        textured_rect_sampled_modulated_vector_success_blocks_4: (
                        s1.textured_rect_sampled_modulated_vector_success_blocks_4 + 1) as usize,
                        ..s1
                    }
                } else {
                    RasterStats {
                        textured_rect_sampled_modulated_vector_fallback_blocks_4: (
                        s1.textured_rect_sampled_modulated_vector_fallback_blocks_4 + 1) as usize,
                        ..s1
                    }
                }
            }),
    {
        self.textured_rect_sampled_modulated_vector_attempt_blocks_4 = self.textured_rect_sampled_modulated_vector_attempt_blocks_4
            + 1;
        if success {
            self.textured_rect_sampled_modulated_vector_success_blocks_4 = self.textured_rect_sampled_modulated_vector_success_blocks_4
                + 1;
        } else {
            self.textured_rect_sampled_modulated_vector_fallback_blocks_4 = self.textured_rect_sampled_modulated_vector_fallback_blocks_4
                + 1;
        }
    }

    /// Adds `count` pixels of alpha `alpha` to the transparent, opaque or
    /// translucent total.
    pub fn record_alpha_px(&mut self, alpha: u8, count: usize)
        requires
            alpha_px(*old(self))[alpha_class(alpha)] + count <= usize::MAX,
        ensures
            *final(self) == after_alpha_px(*old(self), alpha, count),
    {
        if alpha == 0 {
            self.transparent_px = self.transparent_px + count;
        } else if alpha == 255 {
            self.opaque_px = self.opaque_px + count;
        } else {
            self.translucent_px = self.translucent_px + count;
        }
    }

    /// As `record_alpha_px`, for the constant-texel triangle totals.
    pub fn record_constant_texel_alpha_px(&mut self, alpha: u8, count: usize)
        requires
            constant_texel_alpha_px(*old(self))[alpha_class(alpha)] + count <= usize::MAX,
        ensures
            *final(self) == if alpha == 0 {
                RasterStats {
                    constant_texel_textured_triangle_transparent_px: (
                    old(self).constant_texel_textured_triangle_transparent_px + count) as usize,
                    ..*old(self)
                }
            } else if alpha == 255 {
                RasterStats {
                    constant_texel_textured_triangle_opaque_px: (
                    old(self).constant_texel_textured_triangle_opaque_px + count) as usize,
                    ..*old(self)
                }
            } else {
                RasterStats {
                    constant_texel_textured_triangle_translucent_px: (
                    old(self).constant_texel_textured_triangle_translucent_px + count) as usize,
                    ..*old(self)
                }
            },
    {
        if alpha == 0 {
            self.constant_texel_textured_triangle_transparent_px = self.constant_texel_textured_triangle_transparent_px
                + count;
        } else if alpha == 255 {
            self.constant_texel_textured_triangle_opaque_px = self.constant_texel_textured_triangle_opaque_px
                + count;
        } else {
            self.constant_texel_textured_triangle_translucent_px = self.constant_texel_textured_triangle_translucent_px
                + count;
        }
    }

    /// Counts a nonzero constant-texel span run in its length bucket; an empty
    /// run changes nothing.
    pub fn record_constant_texel_textured_triangle_span_run(&mut self, px: usize)
        requires
            px > 0 ==> old(self).constant_texel_textured_triangle_span_runs < usize::MAX,
            px > 0 ==> span_buckets(*old(self))[span_bucket(px as int)] + px <= usize::MAX,
        ensures
            px == 0 ==> *final(self) == *old(self),
            px > 0 ==> {
                let s1 = RasterStats {
                    constant_texel_textured_triangle_span_runs: (
                    old(self).constant_texel_textured_triangle_span_runs + 1) as usize,
                    ..*old(self)
                };
                *final(self) == if px <= 3 {
                    RasterStats {
                        constant_texel_textured_triangle_span_px_lt4: (
                        s1.constant_texel_textured_triangle_span_px_lt4 + px) as usize,
                        ..s1
                    }
                } else if px <= 7 {
                    RasterStats {
                        constant_texel_textured_triangle_span_px_4_7: (
                        s1.constant_texel_textured_triangle_span_px_4_7 + px) as usize,
                        ..s1
                    }
                } else if px <= 15 {
                    RasterStats {
                        constant_texel_textured_triangle_span_px_8_15: (
                        s1.constant_texel_textured_triangle_span_px_8_15 + px) as usize,
                        ..s1
                    }
                } else if px <= 31 {
                    RasterStats {
                        constant_texel_textured_triangle_span_px_16_31: (
                        s1.constant_texel_textured_triangle_span_px_16_31 + px) as usize,
                        ..s1
                    }
                } else {
                    RasterStats {
                        constant_texel_textured_triangle_span_px_32_plus: (
                        s1.constant_texel_textured_triangle_span_px_32_plus + px) as usize,
                        ..s1
                    }
                }
            },
    {
        if px == 0 {
            return;
        }
        self.constant_texel_textured_triangle_span_runs = self.constant_texel_textured_triangle_span_runs
            + 1;
        if px <= 3 {
            self.constant_texel_textured_triangle_span_px_lt4 = self.constant_texel_textured_triangle_span_px_lt4
                + px;
        } else if px <= 7 {
            self.constant_texel_textured_triangle_span_px_4_7 = self.constant_texel_textured_triangle_span_px_4_7
                + px;
        } else if px <= 15 {
            self.constant_texel_textured_triangle_span_px_8_15 = self.constant_texel_textured_triangle_span_px_8_15
                + px;
        } else if px <= 31 {
            self.constant_texel_textured_triangle_span_px_16_31 = self.constant_texel_textured_triangle_span_px_16_31
                + px;
        } else {
            self.constant_texel_textured_triangle_span_px_32_plus = self.constant_texel_textured_triangle_span_px_32_plus
                + px;
        }
    }

    /// Counts a separable-UV rect by whether its vertex color is white.
    pub fn record_textured_rect_separable_vertex_color(&mut self, white: bool, px: usize)
        requires
            white ==> old(self).textured_rect_separable_white_vertex_calls < usize::MAX
                && old(self).textured_rect_separable_white_vertex_px + px <= usize::MAX,
            !white ==> old(self).textured_rect_separable_modulated_vertex_calls < usize::MAX
                && old(self).textured_rect_separable_modulated_vertex_px + px <= usize::MAX,
        ensures
            *final(self) == if white {
                RasterStats {
                    textured_rect_separable_white_vertex_calls: (
                    old(self).textured_rect_separable_white_vertex_calls + 1) as usize,
                    textured_rect_separable_white_vertex_px: (
                    old(self).textured_rect_separable_white_vertex_px + px) as usize,
                    ..*old(self)
                }
            } else {
                RasterStats {
                    textured_rect_separable_modulated_vertex_calls: (
                    old(self).textured_rect_separable_modulated_vertex_calls + 1) as usize,
                    textured_rect_separable_modulated_vertex_px: (
                    old(self).textured_rect_separable_modulated_vertex_px + px) as usize,
                    ..*old(self)
                }
            },
    {
        if white {
            self.textured_rect_separable_white_vertex_calls = self.textured_rect_separable_white_vertex_calls
                + 1;
            self.textured_rect_separable_white_vertex_px = self.textured_rect_separable_white_vertex_px
                + px;
        } else {
            self.textured_rect_separable_modulated_vertex_calls = self.textured_rect_separable_modulated_vertex_calls
                + 1;
            self.textured_rect_separable_modulated_vertex_px = self.textured_rect_separable_modulated_vertex_px
                + px;
        }
    }

    /// As `record_alpha_px`, for the separable direct path.
    pub fn record_textured_rect_separable_direct_alpha_px(&mut self, alpha: u8, count: usize)
        requires
            separable_direct_alpha_px(*old(self))[alpha_class(alpha)] + count <= usize::MAX,
        ensures
            *final(self) == if alpha == 0 {
                RasterStats {
                    textured_rect_separable_direct_transparent_px: (
                    old(self).textured_rect_separable_direct_transparent_px + count) as usize,
                    ..*old(self)
                }
            } else if alpha == 255 {
                RasterStats {
                    textured_rect_separable_direct_opaque_px: (
                    old(self).textured_rect_separable_direct_opaque_px + count) as usize,
                    ..*old(self)
                }
            } else {
                RasterStats {
                    textured_rect_separable_direct_translucent_px: (
                    old(self).textured_rect_separable_direct_translucent_px + count) as usize,
                    ..*old(self)
                }
            },
    {
        if alpha == 0 {
            self.textured_rect_separable_direct_transparent_px = self.textured_rect_separable_direct_transparent_px
                + count;
        } else if alpha == 255 {
            self.textured_rect_separable_direct_opaque_px = self.textured_rect_separable_direct_opaque_px
                + count;
        } else {
            self.textured_rect_separable_direct_translucent_px = self.textured_rect_separable_direct_translucent_px
                + count;
        }
    }
}

// ---------------------------------------------------------------------------
// Laws.
// ---------------------------------------------------------------------------
/// A modulated vector candidate of `px` pixels is accounted for exactly: the
/// 16-pixel blocks and their tail add up to `px`, the tail splits into 4-pixel
/// blocks and a final tail, and exactly one contiguous-run bucket grows by
/// `px`.
pub proof fn lemma_vector_candidate_accounts_every_pixel(s: RasterStats, px: usize)
    requires
        vector_candidate_fits(s, false, px),
    ensures
        ({
            let t = after_vector_candidate(s, false, px);
            &&& t.textured_rect_sampled_modulated_opportunity_px_16
                - s.textured_rect_sampled_modulated_opportunity_px_16
                + t.textured_rect_sampled_modulated_true_tail_px_16
                - s.textured_rect_sampled_modulated_true_tail_px_16 == px
            &&& t.textured_rect_sampled_modulated_opportunity_px_16
                - s.textured_rect_sampled_modulated_opportunity_px_16
                + t.textured_rect_sampled_modulated_opportunity_px_4
                - s.textured_rect_sampled_modulated_opportunity_px_4
                + t.textured_rect_sampled_modulated_true_tail_px_4
                - s.textured_rect_sampled_modulated_true_tail_px_4 == px
            &&& t.textured_rect_sampled_modulated_opportunity_px_16
                - s.textured_rect_sampled_modulated_opportunity_px_16 == 16 * (
            t.textured_rect_sampled_modulated_opportunity_blocks_16
                - s.textured_rect_sampled_modulated_opportunity_blocks_16)
            &&& t.textured_rect_sampled_modulated_opportunity_px_4
                - s.textured_rect_sampled_modulated_opportunity_px_4 == 4 * (
            t.textured_rect_sampled_modulated_opportunity_blocks_4
                - s.textured_rect_sampled_modulated_opportunity_blocks_4)
            &&& t.textured_rect_sampled_modulated_true_tail_px_4
                - s.textured_rect_sampled_modulated_true_tail_px_4 < 4
            &&& t.textured_rect_sampled_modulated_contiguous_runs
                == s.textured_rect_sampled_modulated_contiguous_runs + 1
            &&& forall|b: int|
                0 <= b < 6 ==> #[trigger] contiguous_buckets(t)[b] == contiguous_buckets(s)[b] + (
                if b == contiguous_bucket(px as int) {
                    px as int
                } else {
                    0
                })
        }),
{
}

/// Recording `count` pixels of any alpha grows the transparent, opaque and
/// translucent totals together by exactly `count`.
pub proof fn lemma_alpha_px_total_grows_by_count(s: RasterStats, alpha: u8, count: usize)
    requires
        alpha_px(s)[alpha_class(alpha)] + count <= usize::MAX,
    ensures
        ({
            let t = after_alpha_px(s, alpha, count);
            &&& t.transparent_px + t.opaque_px + t.translucent_px == s.transparent_px + s.opaque_px
                + s.translucent_px + count
            &&& alpha_px(t)[alpha_class(alpha)] == alpha_px(s)[alpha_class(alpha)] + count
        }),
{
}

} // verus!
