use dream_ini_portmaster::offenders::{
    compare_solid_fan_offenders, SolidFanOffender, SolidFanOffenders, SolidFanRasterRecord,
    SOLID_FAN_OFFENDER_LIMIT,
};
use dream_ini_portmaster::primitive_stats::{format_solid_fan_offender, PrimitiveStats};
use dream_ini_portmaster::raster::{
    TexturedQuadFastPathRejection, TriangleClassification, TriangleRasterBounds,
    TriangleTexelSample,
};
use dream_ini_portmaster::raster_stats::RasterStats;
use dream_ini_portmaster::renderer_stats::{
    format_alphas, format_bounds, format_texel_rgba, format_textured_quad_rejection,
    format_triangle_texels, mix_shape_key, record_scratch_overflow, solid_fan_shape_key,
    union_raster_bounds, RasterTimings, SolidFanProbeRejectReason, SolidFanProbeStats,
    SolidFanRasterWork, TriangleBboxBuckets, TriangleSource,
};
use std::cmp::Ordering;

#[test]
fn primitive_stats_keeps_top_solid_fan_offenders_ordered_and_capped() {
    let mut offenders = SolidFanOffenders::default();

    for elapsed_us in 1..=10 {
        offenders.record(test_solid_fan_offender(
            elapsed_us,
            usize::try_from(elapsed_us).expect("elapsed"),
            usize::try_from(elapsed_us * 3).expect("offset"),
        ));
    }

    assert_eq!(offenders.len(), SOLID_FAN_OFFENDER_LIMIT);
    let elapsed_us: Vec<_> = offenders
        .entries()
        .iter()
        .map(|offender| offender.elapsed_us)
        .collect();
    assert_eq!(elapsed_us, vec![10, 9, 8, 7, 6, 5, 4, 3]);
}

#[test]
fn primitive_stats_formats_solid_fan_offenders_log_line() {
    let mut stats = PrimitiveStats::new();

    stats.record_solid_fan(SolidFanRasterRecord {
        source: triangle_source(7, 12),
        triangle_count: 4,
        polygon_vertices: 6,
        alpha: 128,
        bounds: Some(TriangleRasterBounds {
            min_x: 1,
            min_y: 2,
            max_x: 7,
            max_y: 9,
        }),
        work: SolidFanRasterWork {
            px: 33,
            rows: 5,
            edge_intersections: 14,
            endpoint_probe_px: 9,
            fallback_rows: 1,
        },
        elapsed_us: 42,
    });

    assert_eq!(
        stats.solid_fan_offenders_log_line(),
        Some(format!(
            "software renderer solid_fan_offenders shown=1 cap=8 offender0_elapsed_us=42 offender0_primitive=7 offender0_mesh_index_offset=12 offender0_triangles=4 offender0_polygon_vertices=6 offender0_alpha=128 offender0_bounds=1,2,7,9 offender0_bbox_px=42 offender0_shape_key={:016x} offender0_px=33 offender0_rows=5 offender0_edge_intersections=14 offender0_endpoint_probe_px=9 offender0_fallback_rows=1",
            solid_fan_shape_key(
                Some(TriangleRasterBounds {
                    min_x: 1,
                    min_y: 2,
                    max_x: 7,
                    max_y: 9,
                }),
                128,
                6,
                4,
            )
        ))
    );
}

#[test]
fn primitive_stats_skips_solid_fan_offenders_log_line_when_empty() {
    assert_eq!(PrimitiveStats::new().solid_fan_offenders_log_line(), None);
}

#[test]
fn renderer_stats_raster_timings_log_line() {
    let timings = RasterTimings {
        quad_window_probe: 1,
        solid_quad: 2,
        solid_quad_reject: 3,
        textured_quad: 4,
        textured_quad_reject: 5,
        solid_fan_probe: 6,
        solid_fan_accepted_probe: 7,
        solid_fan_rejected_probe: 8,
        solid_fan_raster: 9,
        generic_solid_triangle: 10,
        generic_textured_triangle: 11,
        generic_degenerate_triangle: 12,
    };

    assert_eq!(
        timings.log_line(),
        "software renderer raster_timings quad_window_probe_us=1 solid_quad_us=2 solid_quad_reject_us=3 textured_quad_us=4 textured_quad_reject_us=5 solid_fan_probe_us=6 solid_fan_accepted_probe_us=7 solid_fan_rejected_probe_us=8 solid_fan_raster_us=9 generic_solid_triangle_us=10 generic_textured_triangle_us=11 generic_degenerate_triangle_us=12"
    );
}

#[test]
fn renderer_stats_raster_timings_routes_rejections_separately() {
    let mut timings = RasterTimings::default();

    timings.record_solid_quad_reject(2);
    timings.record_textured_quad_reject(3);
    timings.record_solid_fan_probe(true, 13);
    timings.record_solid_fan_probe(false, 17);
    timings.record_generic_triangle(TriangleClassification::Solid, 5);
    timings.record_generic_triangle(TriangleClassification::Textured, 7);
    timings.record_generic_triangle(TriangleClassification::Degenerate, 11);

    assert_eq!(timings.quad_window_probe, 0);
    assert_eq!(timings.solid_quad, 0);
    assert_eq!(timings.solid_quad_reject, 2);
    assert_eq!(timings.textured_quad, 0);
    assert_eq!(timings.textured_quad_reject, 3);
    assert_eq!(timings.solid_fan_probe, 30);
    assert_eq!(timings.solid_fan_accepted_probe, 13);
    assert_eq!(timings.solid_fan_rejected_probe, 17);
    assert_eq!(timings.solid_fan_raster, 0);
    assert_eq!(timings.generic_solid_triangle, 5);
    assert_eq!(timings.generic_textured_triangle, 7);
    assert_eq!(timings.generic_degenerate_triangle, 11);
}

// ---------------------------------------------------------------------------
// Further cases.
// ---------------------------------------------------------------------------

#[test]
fn offenders_break_ties_by_earlier_source_and_keep_board_when_not_better() {
    let mut offenders = SolidFanOffenders::new();
    offenders.record(test_solid_fan_offender(5, 3, 0));
    offenders.record(test_solid_fan_offender(5, 1, 9));
    offenders.record(test_solid_fan_offender(5, 1, 2));
    let sources: Vec<_> = offenders
        .entries()
        .iter()
        .map(|o| (o.source.primitive_index, o.source.mesh_index_offset))
        .collect();
    assert_eq!(sources, vec![(1, 2), (1, 9), (3, 0)]);

    let mut full = SolidFanOffenders::new();
    for elapsed in 10..18 {
        full.record(test_solid_fan_offender(elapsed, 0, 0));
    }
    full.record(test_solid_fan_offender(1, 0, 0));
    assert_eq!(full.len(), SOLID_FAN_OFFENDER_LIMIT);
    assert_eq!(full.entries().last().map(|o| o.elapsed_us), Some(10));
    full.record(test_solid_fan_offender(11, 0, 0));
    let elapsed: Vec<_> = full.entries().iter().map(|o| o.elapsed_us).collect();
    assert_eq!(elapsed, vec![17, 16, 15, 14, 13, 12, 11, 11]);
}

#[test]
fn compare_orders_by_time_then_work_then_source() {
    let a = test_solid_fan_offender(5, 1, 0);
    let b = test_solid_fan_offender(4, 1, 0);
    assert_eq!(compare_solid_fan_offenders(&a, &b), Ordering::Greater);
    assert_eq!(compare_solid_fan_offenders(&b, &a), Ordering::Less);
    let mut c = a;
    c.work.px = 6;
    assert_eq!(compare_solid_fan_offenders(&c, &a), Ordering::Greater);
    let earlier = test_solid_fan_offender(5, 0, 0);
    assert_eq!(compare_solid_fan_offenders(&earlier, &a), Ordering::Greater);
    assert_eq!(compare_solid_fan_offenders(&a, &a), Ordering::Equal);
}

#[test]
fn offender_fragment_without_bounds() {
    let mut offender = test_solid_fan_offender(3, 2, 1);
    offender.bounds = None;
    offender.shape_key = 0xab;
    let text = format_solid_fan_offender(2, offender);
    assert!(text.starts_with("offender2_elapsed_us=3 offender2_primitive=2 "));
    assert!(text.contains(" offender2_bounds=none offender2_bbox_px=0 "));
    assert!(text.contains(" offender2_shape_key=00000000000000ab "));
}

#[test]
fn shape_key_is_fnv_style_mix() {
    assert_eq!(mix_shape_key(0, 0), 0);
    assert_eq!(mix_shape_key(1, 0), 0x0000_0100_0000_01b3);
    assert_eq!(mix_shape_key(0xff, 0xff), 0);
    let mut expected: u64 = 0xcbf2_9ce4_8422_2325;
    for value in [9u64, 6, 4] {
        expected = (expected ^ value).wrapping_mul(0x0000_0100_0000_01b3);
    }
    assert_eq!(solid_fan_shape_key(None, 9, 6, 4), expected);
    assert_ne!(
        solid_fan_shape_key(None, 9, 6, 4),
        solid_fan_shape_key(None, 9, 6, 5)
    );
}

#[test]
fn bbox_buckets_count_by_area() {
    let mut buckets = TriangleBboxBuckets::default();
    for px in [0usize, 4, 5, 16, 17, 64, 65, 256, 257, 1024, 1025, 1 << 20] {
        buckets.record(px);
    }
    assert_eq!(buckets.counts, [2, 2, 2, 2, 2, 2]);
    assert_eq!(buckets.to_log_text(), "2,2,2,2,2,2");
}

#[test]
fn union_of_bounds() {
    let a = TriangleRasterBounds {
        min_x: 1,
        min_y: 5,
        max_x: 4,
        max_y: 9,
    };
    let b = TriangleRasterBounds {
        min_x: 3,
        min_y: 2,
        max_x: 8,
        max_y: 6,
    };
    assert_eq!(
        union_raster_bounds(Some(a), Some(b)),
        Some(TriangleRasterBounds {
            min_x: 1,
            min_y: 2,
            max_x: 8,
            max_y: 9,
        })
    );
    assert_eq!(union_raster_bounds(None, Some(b)), Some(b));
    assert_eq!(union_raster_bounds(Some(a), None), Some(a));
    assert_eq!(union_raster_bounds(None, None), None);
}

#[test]
fn log_fragments() {
    let bounds = TriangleRasterBounds {
        min_x: 1,
        min_y: 2,
        max_x: 3,
        max_y: 4,
    };
    assert_eq!(format_bounds(bounds), "1,2,3,4");
    assert_eq!(format_alphas([0, 1, 2, 253, 254, 255]), "0,1,2,253,254,255");
    assert_eq!(
        format_textured_quad_rejection(TexturedQuadFastPathRejection::NonAffineUv),
        "non_affine_uv"
    );
    assert_eq!(
        format_textured_quad_rejection(TexturedQuadFastPathRejection::NotRectangleDiagonal),
        "not_rectangle_diagonal"
    );
    let sample = TriangleTexelSample {
        texels: Some([(1, 2), (3, 4), (5, 6)]),
        uniform_color: None,
    };
    assert_eq!(format_triangle_texels(sample), "1,2;3,4;5,6");
    assert_eq!(format_triangle_texels(TriangleTexelSample::default()), "empty");
    assert_eq!(format_texel_rgba(Some([9, 8, 7, 6])), "9,8,7,6");
    assert_eq!(format_texel_rgba(None), "none");
}

#[test]
fn probe_stats_count_rejections_and_maxima() {
    let mut probe = SolidFanProbeStats::default();
    probe.record_reject(SolidFanProbeRejectReason::TooShort);
    probe.record_reject(SolidFanProbeRejectReason::TooShort);
    probe.record_reject(SolidFanProbeRejectReason::UnsafePolygon);
    assert_eq!(probe.reject_too_short, 2);
    assert_eq!(probe.reject_unsafe_polygon, 1);
    probe.record_candidate_triangles(7);
    probe.record_candidate_triangles(3);
    assert_eq!(probe.max_candidate_triangles, 7);
    probe.record_accepted(5);
    probe.record_accepted(9);
    assert_eq!(probe.accepted_runs, 2);
    assert_eq!(probe.accepted_triangles, 14);
    assert_eq!(probe.max_accepted_triangles, 9);
    probe.candidate_triangles_scanned = 10;
    probe.record_probe_candidate_triangles(true, 4);
    probe.record_probe_candidate_triangles(false, 12);
    assert_eq!(probe.accepted_candidate_triangles_scanned, 6);
    assert_eq!(probe.rejected_candidate_triangles_scanned, 0);
    record_scratch_overflow(&mut probe, 11);
    assert_eq!(probe.reject_scratch_overflow, 1);
    assert_eq!(probe.max_candidate_triangles, 11);
}

#[test]
fn fan_work_snapshots_subtract_without_wrapping() {
    let mut stats = RasterStats::new(0);
    stats.solid_fan_px = 10;
    stats.solid_fan_rows = 2;
    let before = SolidFanRasterWork::from_stats(&stats);
    stats.solid_fan_px = 25;
    stats.solid_fan_rows = 5;
    stats.solid_fan_fallback_rows = 1;
    let after = SolidFanRasterWork::from_stats(&stats);
    let work = after.saturating_difference(before);
    assert_eq!(work.px, 15);
    assert_eq!(work.rows, 3);
    assert_eq!(work.fallback_rows, 1);
    assert_eq!(before.saturating_difference(after).px, 0);
}

#[test]
fn primitive_stats_log_line_lists_counters_and_buckets() {
    let mut stats = PrimitiveStats::new();
    stats.mesh_indices = 9;
    stats.textured_quad_fast_path_hits = 2;
    stats.solid_fan_probe.probe_calls = 3;
    stats.degenerate_triangles = 1;
    stats.generic_triangle_bbox_px_buckets.record(3);
    let line = stats.log_line(7);
    assert!(line.starts_with("software renderer primitive_stats frame=7 mesh_primitives=0 "));
    assert!(line.contains(" mesh_indices=9 mesh_triangles=3 "));
    assert!(line.contains(" textured_quad_fast_path_hits=2 "));
    assert!(line.contains(" solid_fan_probe_calls=3 "));
    assert!(line.contains(" degenerate_triangles=1 "));
    assert!(line.contains(
        " generic_triangle_bbox_px_buckets_le4_le16_le64_le256_le1024_gt1024=1,0,0,0,0,0 "
    ));
    assert!(line.ends_with(" generic_triangle_bbox_non_finite=0"));
}

fn triangle_source(primitive_index: usize, mesh_index_offset: usize) -> TriangleSource {
    TriangleSource {
        primitive_index,
        mesh_index_offset,
    }
}

fn test_solid_fan_offender(
    elapsed_us: u128,
    primitive_index: usize,
    mesh_index_offset: usize,
) -> SolidFanOffender {
    SolidFanOffender {
        elapsed_us,
        source: triangle_source(primitive_index, mesh_index_offset),
        triangle_count: 4,
        polygon_vertices: 6,
        alpha: 255,
        bounds: Some(TriangleRasterBounds {
            min_x: 0,
            min_y: 0,
            max_x: 1,
            max_y: 1,
        }),
        shape_key: solid_fan_shape_key(
            Some(TriangleRasterBounds {
                min_x: 0,
                min_y: 0,
                max_x: 1,
                max_y: 1,
            }),
            255,
            6,
            4,
        ),
        work: SolidFanRasterWork {
            px: usize::try_from(elapsed_us).expect("elapsed"),
            rows: 1,
            edge_intersections: 2,
            endpoint_probe_px: 2,
            fallback_rows: 0,
        },
    }
}

#[test]
fn optional_reborrow_reaches_the_target() {
    let mut value = 3u32;
    let mut option = Some(&mut value);
    if let Some(target) = dream_ini_portmaster::renderer_stats::borrow_optional_mut(&mut option) {
        *target = 4;
    }
    assert_eq!(value, 4);
    let mut none: Option<&mut u32> = None;
    assert!(dream_ini_portmaster::renderer_stats::borrow_optional_mut(&mut none).is_none());
}

#[test]
fn offender_board_keeps_equal_ranks_in_arrival_order() {
    let mut board = SolidFanOffenders::new();
    let mut first = test_solid_fan_offender(10, 1, 2);
    first.alpha = 1;
    let mut second = test_solid_fan_offender(10, 1, 2);
    second.alpha = 2;
    let mut third = test_solid_fan_offender(10, 1, 2);
    third.alpha = 3;
    board.record(first);
    board.record(test_solid_fan_offender(20, 0, 0));
    board.record(second);
    board.record(third);
    let alphas: Vec<u8> = board.entries().iter().map(|o| o.alpha).collect();
    assert_eq!(alphas, vec![255, 1, 2, 3]);
}
