use dream_ini_portmaster::raster_stats::{RasterStats, SCALAR_COUNTER_COUNT, VECTOR_BACKEND_MARKER_INDEX};

fn populated_raster_stats() -> RasterStats {
    RasterStats {
        solid_rect_calls: 1,
        solid_rect_px: 2,
        textured_rect_calls: 3,
        textured_rect_px: 4,
        textured_rect_constant_texel_calls: 5,
        textured_rect_constant_texel_px: 6,
        textured_rect_constant_texel_us: 7,
        textured_rect_sampled_calls: 8,
        textured_rect_sampled_px: 9,
        textured_rect_sampled_us: 10,
        textured_rect_separable_uv_calls: 11,
        textured_rect_separable_uv_px: 12,
        textured_rect_nonseparable_uv_calls: 13,
        textured_rect_nonseparable_uv_px: 14,
        textured_rect_white_texel_calls: 15,
        textured_rect_white_texel_px: 16,
        textured_rect_uniform_color_calls: 17,
        textured_rect_uniform_color_px: 18,
        solid_triangle_calls: 19,
        solid_triangle_bbox_px: 20,
        solid_triangle_covered_px: 21,
        solid_triangle_span_rows: 22,
        solid_triangle_candidate_px: 23,
        solid_triangle_hint_rows: 24,
        solid_triangle_hint_fallback_rows: 25,
        solid_triangle_hint_build_us: 26,
        solid_triangle_endpoint_search_us: 27,
        solid_triangle_blend_span_us: 28,
        solid_triangle_blend_span_calls: 29,
        solid_triangle_span_px: 30,
        solid_triangle_endpoint_probe_px: 31,
        solid_triangle_hint_probe_px: 32,
        solid_triangle_canary_probe_px: 33,
        solid_triangle_fallback_probe_px: 34,
        solid_triangle_direct_probe_px: 35,
        solid_triangle_hint_candidate_px: 36,
        solid_triangle_narrowed_rows: 37,
        solid_triangle_full_scan_rows: 38,
        solid_fan_calls: 39,
        solid_fan_triangles: 40,
        solid_fan_rows: 41,
        solid_fan_px: 42,
        solid_fan_edge_intersections: 43,
        solid_fan_endpoint_probe_px: 44,
        solid_fan_fallback_rows: 45,
        solid_fan_edge_precompute_calls: 46,
        solid_fan_edge_precompute_edges: 47,
        solid_fan_edge_precompute_used_rows: 48,
        solid_fan_edge_precompute_fallback_budget: 49,
        solid_fan_edge_precompute_fallback_non_finite: 50,
        solid_fan_edge_precompute_old_solver_rows: 51,
        solid_fan_span_cache_hits: 52,
        solid_fan_span_cache_misses: 53,
        solid_fan_span_cache_hit_rows: 54,
        solid_fan_span_cache_hit_px: 55,
        solid_fan_span_cache_stored_rows: 56,
        solid_fan_span_cache_rejected_too_many_rows: 57,
        solid_fan_span_cache_resident_entries: 58,
        solid_fan_span_cache_resident_rows: 59,
        solid_fan_span_cache_total_evictions: 60,
        solid_fan_span_cache_row_budget_evictions: 61,
        textured_triangle_calls: 62,
        textured_triangle_bbox_px: 63,
        textured_triangle_covered_px: 64,
        textured_triangle_candidate_px: 65,
        textured_triangle_narrowed_rows: 66,
        textured_triangle_full_scan_rows: 67,
        constant_texel_textured_triangle_calls: 68,
        constant_texel_textured_triangle_white_texel_calls: 69,
        constant_texel_textured_triangle_non_white_texel_calls: 70,
        constant_texel_textured_triangle_white_alpha_only_eligible_calls: 71,
        constant_texel_textured_triangle_white_alpha_only_rejected_rgb_calls: 72,
        constant_texel_textured_triangle_white_alpha_only_rejected_uniform_rgb_calls: 73,
        constant_texel_textured_triangle_white_alpha_only_rejected_varying_rgb_calls: 74,
        constant_texel_textured_triangle_candidate_px: 75,
        constant_texel_textured_triangle_covered_px: 76,
        constant_texel_textured_triangle_white_texel_covered_px: 77,
        constant_texel_textured_triangle_white_endpoint_rows: 78,
        constant_texel_textured_triangle_white_endpoint_match_rows: 79,
        constant_texel_textured_triangle_white_endpoint_mismatch_rows: 80,
        constant_texel_textured_triangle_white_endpoint_empty_rows: 81,
        constant_texel_textured_triangle_white_endpoint_span_px: 82,
        constant_texel_textured_triangle_white_endpoint_probe_px: 83,
        constant_texel_textured_triangle_white_endpoint_render_rows: 84,
        constant_texel_textured_triangle_white_endpoint_render_px: 85,
        constant_texel_textured_triangle_white_scan_runs: 86,
        constant_texel_textured_triangle_white_scan_multi_run_rows: 87,
        constant_texel_textured_triangle_non_white_texel_covered_px: 88,
        constant_texel_textured_triangle_opaque_px: 89,
        constant_texel_textured_triangle_translucent_px: 90,
        constant_texel_textured_triangle_transparent_px: 91,
        constant_texel_textured_triangle_white_alpha_only_constant_alpha_run_calls: 92,
        constant_texel_textured_triangle_white_alpha_only_constant_alpha_run_px: 93,
        constant_texel_textured_triangle_white_alpha_only_variable_alpha_run_calls: 94,
        constant_texel_textured_triangle_white_alpha_only_variable_alpha_run_px: 95,
        constant_texel_textured_triangle_white_constant_alpha_run_calls: 96,
        constant_texel_textured_triangle_white_constant_alpha_run_px: 97,
        constant_texel_textured_triangle_white_constant_color_run_calls: 98,
        constant_texel_textured_triangle_white_constant_color_run_px: 99,
        constant_texel_textured_triangle_white_variable_color_run_calls: 100,
        constant_texel_textured_triangle_white_variable_color_run_px: 101,
        constant_texel_textured_triangle_white_variable_alpha_run_calls: 102,
        constant_texel_textured_triangle_white_variable_alpha_run_px: 103,
        constant_texel_textured_triangle_us: 104,
        constant_texel_textured_triangle_white_texel_us: 105,
        constant_texel_textured_triangle_non_white_texel_us: 106,
        sampled_textured_triangle_calls: 107,
        sampled_textured_triangle_candidate_px: 108,
        sampled_textured_triangle_covered_px: 109,
        sampled_textured_triangle_us: 110,
        textured_rect_separable_run_calls: 111,
        textured_rect_separable_run_px: 112,
        textured_rect_separable_opaque_run_calls: 113,
        textured_rect_separable_opaque_run_px: 114,
        textured_rect_separable_translucent_run_calls: 115,
        textured_rect_separable_translucent_run_px: 116,
        textured_rect_separable_transparent_run_calls: 117,
        textured_rect_separable_transparent_run_px: 118,
        textured_rect_separable_white_vertex_calls: 119,
        textured_rect_separable_white_vertex_px: 120,
        textured_rect_separable_modulated_vertex_calls: 121,
        textured_rect_separable_modulated_vertex_px: 122,
        textured_rect_separable_direct_calls: 123,
        textured_rect_separable_direct_px: 124,
        textured_rect_separable_direct_opaque_px: 125,
        textured_rect_separable_direct_translucent_px: 126,
        textured_rect_separable_direct_transparent_px: 127,
        textured_rect_sampled_vector_candidate_px: 128,
        textured_rect_sampled_white_vertex_contiguous_px: 129,
        textured_rect_sampled_modulated_vertex_contiguous_px: 130,
        textured_rect_sampled_modulated_contiguous_runs: 131,
        textured_rect_sampled_modulated_contiguous_px_lt4: 132,
        textured_rect_sampled_modulated_contiguous_px_4_7: 133,
        textured_rect_sampled_modulated_contiguous_px_8_15: 134,
        textured_rect_sampled_modulated_contiguous_px_16_31: 135,
        textured_rect_sampled_modulated_contiguous_px_32_63: 136,
        textured_rect_sampled_modulated_contiguous_px_64_plus: 137,
        textured_rect_sampled_modulated_opportunity_blocks_16: 138,
        textured_rect_sampled_modulated_opportunity_px_16: 139,
        textured_rect_sampled_modulated_true_tail_px_16: 140,
        textured_rect_sampled_modulated_opportunity_blocks_4: 141,
        textured_rect_sampled_modulated_opportunity_px_4: 142,
        textured_rect_sampled_modulated_true_tail_px_4: 143,
        textured_rect_sampled_vector_backend_available: 144,
        textured_rect_sampled_modulated_vector_attempt_blocks_16: 145,
        textured_rect_sampled_modulated_vector_success_blocks_16: 146,
        textured_rect_sampled_modulated_vector_fallback_blocks_16: 147,
        textured_rect_sampled_modulated_vector_attempt_blocks_4: 148,
        textured_rect_sampled_modulated_vector_success_blocks_4: 149,
        textured_rect_sampled_modulated_vector_fallback_blocks_4: 150,
        textured_rect_sampled_vector_blocks: 151,
        textured_rect_sampled_vector_opaque_blocks: 152,
        textured_rect_sampled_vector_transparent_blocks: 153,
        textured_rect_sampled_vector_mixed_blocks: 154,
        textured_rect_sampled_vector_tail_px: 155,
        textured_rect_separable_run_px_buckets_le1_le2_le4_le8_le16_gt16: [156, 157, 158, 159, 160, 161],
        degenerate_triangle_skips: 162,
        fully_clipped_triangle_skips: 163,
        opaque_px: 164,
        translucent_px: 165,
        transparent_px: 166,
        constant_texel_textured_triangle_span_runs: 167,
        constant_texel_textured_triangle_span_px_lt4: 168,
        constant_texel_textured_triangle_span_px_4_7: 169,
        constant_texel_textured_triangle_span_px_8_15: 170,
        constant_texel_textured_triangle_span_px_16_31: 171,
        constant_texel_textured_triangle_span_px_32_plus: 172,
    }
}

#[test]
fn raster_stats_log_line_includes_all_counters() {
    let stats = populated_raster_stats();

    let line = stats.log_line();
    let actual_values: Vec<_> = line
        .split_whitespace()
        .skip(3)
        .filter_map(|entry| {
            entry
                .split_once('=')
                .expect("stats entry has separator")
                .1
                .parse::<usize>()
                .ok()
        })
        .collect();

    assert!(line.starts_with("software renderer raster_stats solid_rect_calls=1 "));
    assert!(line.contains(" textured_rect_separable_uv_calls=11 "));
    assert!(line.contains(" textured_rect_nonseparable_uv_px=14 "));
    assert!(line.contains(
        " textured_rect_separable_run_px_buckets_le1_le2_le4_le8_le16_gt16=156,157,158,159,160,161 "
    ));
    assert!(line.contains(" textured_rect_sampled_vector_candidate_px=128 "));
    assert!(line.contains(" textured_rect_sampled_modulated_contiguous_runs=131 "));
    assert!(line.contains(" textured_rect_sampled_modulated_contiguous_px_64_plus=137 "));
    assert!(line.contains(" textured_rect_sampled_modulated_opportunity_blocks_16=138 "));
    assert!(line.contains(" textured_rect_sampled_modulated_opportunity_px_16=139 "));
    assert!(line.contains(" textured_rect_sampled_modulated_true_tail_px_16=140 "));
    assert!(line.contains(" textured_rect_sampled_modulated_opportunity_blocks_4=141 "));
    assert!(line.contains(" textured_rect_sampled_modulated_opportunity_px_4=142 "));
    assert!(line.contains(" textured_rect_sampled_modulated_true_tail_px_4=143 "));
    assert!(line.contains(" textured_rect_sampled_vector_backend_available=144 "));
    assert!(line.contains(" textured_rect_sampled_modulated_vector_attempt_blocks_16=145 "));
    assert!(line.contains(" textured_rect_sampled_modulated_vector_success_blocks_16=146 "));
    assert!(line.contains(" textured_rect_sampled_modulated_vector_fallback_blocks_16=147 "));
    assert!(line.contains(" textured_rect_sampled_modulated_vector_attempt_blocks_4=148 "));
    assert!(line.contains(" textured_rect_sampled_modulated_vector_success_blocks_4=149 "));
    assert!(line.contains(" textured_rect_sampled_modulated_vector_fallback_blocks_4=150 "));
    assert!(line.contains(" textured_rect_sampled_vector_tail_px=155 "));
    assert_eq!(
        actual_values,
        (1..=155).chain(162..=172).collect::<Vec<_>>()
    );
}

#[test]
fn raster_stats_default_records_sampled_rect_vector_backend_marker() {
    for marker in [0usize, 1] {
        let stats = RasterStats::new(marker);
        let again = RasterStats::new(marker);

        assert_eq!(stats.textured_rect_sampled_vector_backend_available, marker);
        assert_eq!(
            stats.textured_rect_sampled_vector_backend_available,
            again.textured_rect_sampled_vector_backend_available
        );
        assert!(stats.textured_rect_sampled_vector_backend_available <= 1);

        let mut expected = stats;
        expected.textured_rect_sampled_vector_backend_available = 0;
        assert_eq!(expected.values(), vec![0; SCALAR_COUNTER_COUNT]);
        assert_eq!(stats.values()[VECTOR_BACKEND_MARKER_INDEX], marker);
        assert_eq!(
            stats.textured_rect_separable_run_px_buckets_le1_le2_le4_le8_le16_gt16,
            [0; 6]
        );
    }
}

#[test]
fn vector_candidate_splits_modulated_runs_into_blocks_and_tails() {
    let mut stats = RasterStats::new(0);
    stats.record_textured_rect_sampled_vector_candidate(false, 37);
    assert_eq!(stats.textured_rect_sampled_vector_candidate_px, 37);
    assert_eq!(stats.textured_rect_sampled_modulated_vertex_contiguous_px, 37);
    assert_eq!(stats.textured_rect_sampled_modulated_contiguous_runs, 1);
    assert_eq!(stats.textured_rect_sampled_modulated_contiguous_px_32_63, 37);
    assert_eq!(stats.textured_rect_sampled_modulated_opportunity_blocks_16, 2);
    assert_eq!(stats.textured_rect_sampled_modulated_opportunity_px_16, 32);
    assert_eq!(stats.textured_rect_sampled_modulated_true_tail_px_16, 5);
    assert_eq!(stats.textured_rect_sampled_modulated_opportunity_blocks_4, 1);
    assert_eq!(stats.textured_rect_sampled_modulated_opportunity_px_4, 4);
    assert_eq!(stats.textured_rect_sampled_modulated_true_tail_px_4, 1);

    stats.record_textured_rect_sampled_vector_candidate(true, 9);
    assert_eq!(stats.textured_rect_sampled_vector_candidate_px, 46);
    assert_eq!(stats.textured_rect_sampled_white_vertex_contiguous_px, 9);
    assert_eq!(stats.textured_rect_sampled_modulated_contiguous_runs, 1);
}

#[test]
fn contiguous_run_buckets_by_length() {
    let mut stats = RasterStats::new(0);
    for px in [0usize, 3, 4, 7, 8, 15, 16, 31, 32, 63, 64] {
        stats.record_textured_rect_sampled_modulated_contiguous_run(px);
    }
    assert_eq!(stats.textured_rect_sampled_modulated_contiguous_runs, 11);
    assert_eq!(stats.textured_rect_sampled_modulated_contiguous_px_lt4, 3);
    assert_eq!(stats.textured_rect_sampled_modulated_contiguous_px_4_7, 11);
    assert_eq!(stats.textured_rect_sampled_modulated_contiguous_px_8_15, 23);
    assert_eq!(stats.textured_rect_sampled_modulated_contiguous_px_16_31, 47);
    assert_eq!(stats.textured_rect_sampled_modulated_contiguous_px_32_63, 95);
    assert_eq!(stats.textured_rect_sampled_modulated_contiguous_px_64_plus, 64);
}

#[test]
fn vector_blocks_and_attempts_are_classified() {
    let mut stats = RasterStats::new(0);
    stats.record_textured_rect_sampled_vector_block(16, 16, 0);
    stats.record_textured_rect_sampled_vector_block(16, 0, 16);
    stats.record_textured_rect_sampled_vector_block(16, 8, 8);
    assert_eq!(stats.textured_rect_sampled_vector_blocks, 3);
    assert_eq!(stats.textured_rect_sampled_vector_opaque_blocks, 1);
    assert_eq!(stats.textured_rect_sampled_vector_transparent_blocks, 1);
    assert_eq!(stats.textured_rect_sampled_vector_mixed_blocks, 1);

    stats.record_textured_rect_sampled_modulated_vector_attempt(true);
    stats.record_textured_rect_sampled_modulated_vector_attempt(false);
    stats.record_textured_rect_sampled_modulated_vector_attempt_4(false);
    assert_eq!(stats.textured_rect_sampled_modulated_vector_attempt_blocks_16, 2);
    assert_eq!(stats.textured_rect_sampled_modulated_vector_success_blocks_16, 1);
    assert_eq!(stats.textured_rect_sampled_modulated_vector_fallback_blocks_16, 1);
    assert_eq!(stats.textured_rect_sampled_modulated_vector_attempt_blocks_4, 1);
    assert_eq!(stats.textured_rect_sampled_modulated_vector_fallback_blocks_4, 1);
}

#[test]
fn alpha_pixels_are_split_into_three_classes() {
    let mut stats = RasterStats::new(0);
    stats.record_alpha_px(0, 3);
    stats.record_alpha_px(255, 5);
    stats.record_alpha_px(128, 7);
    assert_eq!(stats.transparent_px, 3);
    assert_eq!(stats.opaque_px, 5);
    assert_eq!(stats.translucent_px, 7);

    stats.record_constant_texel_alpha_px(255, 2);
    assert_eq!(stats.constant_texel_textured_triangle_opaque_px, 2);
    stats.record_textured_rect_separable_direct_alpha_px(1, 4);
    assert_eq!(stats.textured_rect_separable_direct_translucent_px, 4);
}

#[test]
fn span_runs_skip_empty_and_bucket_the_rest() {
    let mut stats = RasterStats::new(0);
    stats.record_constant_texel_textured_triangle_span_run(0);
    assert_eq!(stats.constant_texel_textured_triangle_span_runs, 0);
    stats.record_constant_texel_textured_triangle_span_run(5);
    stats.record_constant_texel_textured_triangle_span_run(40);
    assert_eq!(stats.constant_texel_textured_triangle_span_runs, 2);
    assert_eq!(stats.constant_texel_textured_triangle_span_px_4_7, 5);
    assert_eq!(stats.constant_texel_textured_triangle_span_px_32_plus, 40);

    stats.record_textured_rect_separable_vertex_color(true, 6);
    stats.record_textured_rect_separable_vertex_color(false, 2);
    assert_eq!(stats.textured_rect_separable_white_vertex_calls, 1);
    assert_eq!(stats.textured_rect_separable_white_vertex_px, 6);
    assert_eq!(stats.textured_rect_separable_modulated_vertex_calls, 1);
    assert_eq!(stats.textured_rect_separable_modulated_vertex_px, 2);
}

