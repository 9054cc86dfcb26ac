use dream_ini_portmaster::coverage::{
    polygon_correct_span_endpoints, polygon_fallback_scanline_span, record_white_constant_texel_endpoint_row, triangle_row_endpoints, triangle_row_state_endpoints, TriangleRowEndpoints, TriangleRowSearch,
    TriangleRowStateSearch,
};
use dream_ini_portmaster::raster::TriangleRasterBounds;
use dream_ini_portmaster::raster_stats::RasterStats;

fn row(bits: &str) -> Vec<bool> {
    bits.chars().map(|c| c == '#').collect()
}

fn search(candidate: (usize, usize), probe: (usize, usize), hinted: bool) -> TriangleRowSearch {
    TriangleRowSearch {
        candidate_start_x: candidate.0,
        candidate_end_x: candidate.1,
        probe_start_x: probe.0,
        probe_end_x: probe.1,
        hinted,
        collect_stats: true,
    }
}

#[test]
fn direct_search_finds_run_and_counts_probes() {
    let covered = row("..###...");
    let r = triangle_row_endpoints(search((0, 8), (0, 8), false), &covered);
    assert_eq!(
        r,
        TriangleRowEndpoints {
            span: Some((2, 5)),
            endpoint_probe_px: 3 + 4,
            hint_probe_px: 0,
            canary_probe_px: 0,
            fallback_probe_px: 0,
            direct_probe_px: 7,
            fell_back: false,
        }
    );
}

#[test]
fn direct_search_of_empty_row_probes_whole_window() {
    let covered = row("......");
    let r = triangle_row_endpoints(search((1, 5), (1, 5), false), &covered);
    assert_eq!(r.span, None);
    assert_eq!(r.direct_probe_px, 4);
    assert_eq!(r.endpoint_probe_px, 4);
    assert!(!r.fell_back);
}

#[test]
fn exact_hint_keeps_hinted_window() {
    let covered = row("..###...");
    let r = triangle_row_endpoints(search((0, 8), (2, 5), true), &covered);
    assert_eq!(r.span, Some((2, 5)));
    assert!(!r.fell_back);
    assert_eq!(r.hint_probe_px, 1 + 1);
    assert_eq!(r.canary_probe_px, 2);
    assert_eq!(r.fallback_probe_px, 0);
    assert_eq!(r.endpoint_probe_px, 4);
}

#[test]
fn hint_cutting_the_run_short_falls_back() {
    let covered = row("..#####.");
    let r = triangle_row_endpoints(search((0, 8), (3, 5), true), &covered);
    assert!(r.fell_back);
    assert_eq!(r.span, Some((2, 7)));
    assert_eq!(r.hint_probe_px, 1);
    assert_eq!(r.canary_probe_px, 1);
    assert_eq!(r.fallback_probe_px, 3 + 2);
    assert_eq!(r.endpoint_probe_px, 7);
}

#[test]
fn hint_missing_the_run_falls_back_without_canaries() {
    let covered = row("......##");
    let r = triangle_row_endpoints(search((0, 8), (0, 3), true), &covered);
    assert!(r.fell_back);
    assert_eq!(r.span, Some((6, 8)));
    assert_eq!(r.hint_probe_px, 3);
    assert_eq!(r.canary_probe_px, 0);
    assert_eq!(r.fallback_probe_px, 7 + 1);
}

#[test]
fn probes_are_not_counted_without_stats() {
    let covered = row("..###...");
    let mut s = search((0, 8), (3, 4), true);
    s.collect_stats = false;
    let r = triangle_row_endpoints(s, &covered);
    assert_eq!(r.span, Some((2, 5)));
    assert_eq!(r.endpoint_probe_px, 0);
    assert!(r.fell_back);
}

#[test]
fn every_hint_inside_the_window_finds_the_same_run() {
    let covered = row("...####..");
    for start in 0..=9 {
        for end in start..=9 {
            let r = triangle_row_endpoints(search((0, 9), (start, end), true), &covered);
            assert_eq!(r.span, Some((3, 7)), "hint {start}..{end}");
        }
    }
}

#[test]
fn row_state_search_uses_each_scan_direction() {
    let forward = row(".###....");
    let backward = row("..####..");
    let r = triangle_row_state_endpoints(
        TriangleRowStateSearch {
            candidate_start_x: 0,
            candidate_end_x: 8,
            collect_stats: true,
        },
        &forward,
        &backward,
    );
    assert_eq!(r.span, Some((1, 6)));
    assert_eq!(r.direct_probe_px, 2 + 3);
    assert_eq!(r.endpoint_probe_px, 5);
}

#[test]
fn row_state_search_keeps_span_nonempty_when_backward_scan_lags() {
    let forward = row("....#...");
    let backward = row("..#.....");
    let r = triangle_row_state_endpoints(
        TriangleRowStateSearch {
            candidate_start_x: 0,
            candidate_end_x: 8,
            collect_stats: true,
        },
        &forward,
        &backward,
    );
    assert_eq!(r.span, Some((4, 5)));
}

#[test]
fn row_state_search_of_empty_row() {
    let forward = row("....");
    let r = triangle_row_state_endpoints(
        TriangleRowStateSearch {
            candidate_start_x: 1,
            candidate_end_x: 4,
            collect_stats: true,
        },
        &forward,
        &forward,
    );
    assert_eq!(r.span, None);
    assert_eq!(r.direct_probe_px, 3);
}

#[test]
fn white_endpoint_row_counts_matching_scan() {
    let covered = row("..###...");
    let mut stats = RasterStats::new(0);
    record_white_constant_texel_endpoint_row(&mut stats, &covered, (0, 8), (1, Some((2, 5))));
    assert_eq!(stats.constant_texel_textured_triangle_white_endpoint_rows, 1);
    assert_eq!(stats.constant_texel_textured_triangle_white_endpoint_probe_px, 7);
    assert_eq!(stats.constant_texel_textured_triangle_white_scan_runs, 1);
    assert_eq!(stats.constant_texel_textured_triangle_white_endpoint_span_px, 3);
    assert_eq!(stats.constant_texel_textured_triangle_white_endpoint_match_rows, 1);
    assert_eq!(stats.constant_texel_textured_triangle_white_endpoint_mismatch_rows, 0);
    assert_eq!(stats.constant_texel_textured_triangle_white_scan_multi_run_rows, 0);
}

#[test]
fn white_endpoint_row_counts_mismatches_and_empty_rows() {
    let mut stats = RasterStats::new(0);
    record_white_constant_texel_endpoint_row(&mut stats, &row("..###..."), (0, 8), (1, Some((2, 4))));
    record_white_constant_texel_endpoint_row(&mut stats, &row("..#.#..."), (0, 8), (2, Some((2, 3))));
    record_white_constant_texel_endpoint_row(&mut stats, &row("........"), (0, 8), (0, None));
    assert_eq!(stats.constant_texel_textured_triangle_white_endpoint_rows, 3);
    assert_eq!(stats.constant_texel_textured_triangle_white_endpoint_mismatch_rows, 2);
    assert_eq!(stats.constant_texel_textured_triangle_white_endpoint_match_rows, 1);
    assert_eq!(stats.constant_texel_textured_triangle_white_endpoint_empty_rows, 1);
    assert_eq!(stats.constant_texel_textured_triangle_white_scan_multi_run_rows, 1);
    assert_eq!(stats.constant_texel_textured_triangle_white_scan_runs, 3);
    assert_eq!(stats.constant_texel_textured_triangle_white_endpoint_span_px, 3 + 3);
    assert_eq!(stats.constant_texel_textured_triangle_white_endpoint_probe_px, 7 + 7 + 8);
}

fn row_bounds(max_x: usize) -> TriangleRasterBounds {
    TriangleRasterBounds {
        min_x: 0,
        min_y: 0,
        max_x,
        max_y: 1,
    }
}

#[test]
fn span_endpoints_move_onto_covered_columns() {
    let covered = row("..####..");
    let mut span = (0, 8);
    let probes = polygon_correct_span_endpoints(&mut span, &covered, row_bounds(8), true);
    assert_eq!(span, (2, 6));
    assert_eq!(probes, 10);
}

#[test]
fn span_is_emptied_when_the_start_is_too_far() {
    let mut span = (0, 8);
    let probes = polygon_correct_span_endpoints(&mut span, &row("...###.."), row_bounds(8), true);
    assert_eq!(span, (2, 2));
    assert_eq!(probes, 4);

    let mut span = (0, 8);
    let probes = polygon_correct_span_endpoints(&mut span, &row("........"), row_bounds(8), true);
    assert_eq!(span, (2, 2));
    assert_eq!(probes, 4);
}

#[test]
fn span_is_emptied_when_the_end_is_too_far() {
    let mut span = (0, 8);
    let probes = polygon_correct_span_endpoints(&mut span, &row("###....."), row_bounds(8), true);
    assert_eq!(span, (0, 0));
    assert_eq!(probes, 2 + 4);
}

#[test]
fn covered_span_is_checked_against_its_neighbours() {
    let mut span = (2, 4);
    let probes = polygon_correct_span_endpoints(&mut span, &row("..##.."), row_bounds(6), true);
    assert_eq!(span, (2, 4));
    assert_eq!(probes, 6);

    let mut span = (3, 3);
    let probes = polygon_correct_span_endpoints(&mut span, &row("......"), row_bounds(6), true);
    assert_eq!(span, (3, 3));
    assert_eq!(probes, 2);

    let mut span = (0, 6);
    let probes = polygon_correct_span_endpoints(&mut span, &row("######"), row_bounds(6), true);
    assert_eq!(span, (0, 6));
    assert_eq!(probes, 4);
}

#[test]
fn span_correction_counts_nothing_without_stats() {
    let mut span = (0, 8);
    let probes = polygon_correct_span_endpoints(&mut span, &row("..####.."), row_bounds(8), false);
    assert_eq!(span, (2, 6));
    assert_eq!(probes, 0);
}

#[test]
fn fallback_span_is_the_first_covered_run() {
    assert_eq!(polygon_fallback_scanline_span(&row("..###.##"), row_bounds(8)), Some((2, 5)));
    assert_eq!(polygon_fallback_scanline_span(&row(".....###"), row_bounds(8)), Some((5, 8)));
    assert_eq!(polygon_fallback_scanline_span(&row("........"), row_bounds(8)), None);
    let bounds = TriangleRasterBounds {
        min_x: 3,
        min_y: 0,
        max_x: 5,
        max_y: 1,
    };
    assert_eq!(polygon_fallback_scanline_span(&row("########"), bounds), Some((3, 5)));
}
