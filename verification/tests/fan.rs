use dream_ini_portmaster::fan::{
    solid_fan_span_cache_key, solid_fan_span_cache_key_from_eligible,
    rasterize_solid_fan_span, record_solid_fan_precompute_stats, PrecomputeFanEdgesError, record_solid_fan_precomputed_row, record_solid_fan_scanline_stats,
    replay_solid_fan_spans, solid_fan_cache_span_storage, solid_fan_span_cache_key_eligibility,
    solid_fan_span_cache_key_eligible, PolygonScanlineSpan, SolidFanSpanCache,
    SolidFanSpanCacheEntry, SolidFanSpanCacheKey, SolidFanSpanCacheKeyEligibility,
    SOLID_FAN_PRECOMPUTED_EDGE_BUDGET, SOLID_FAN_SPAN_CACHE_ENTRIES, SOLID_FAN_SPAN_CACHE_MAX_ROWS,
    SOLID_FAN_SPAN_CACHE_RESIDENT_ROWS,
};
use dream_ini_portmaster::raster::{ClipBounds, TriangleRasterBounds};
use dream_ini_portmaster::raster_stats::RasterStats;

#[test]
fn solid_fan_span_cache_evicts_oldest_entry_at_entry_limit() {
    let mut cache = SolidFanSpanCache::default();

    for index in 0..=SOLID_FAN_SPAN_CACHE_ENTRIES {
        cache.insert(test_span_cache_entry(index, 1));
    }

    assert_eq!(cache.len(), SOLID_FAN_SPAN_CACHE_ENTRIES);
    assert_eq!(cache.resident_rows(), SOLID_FAN_SPAN_CACHE_ENTRIES);
    assert_eq!(cache.total_evictions(), 1);
    assert_eq!(cache.row_budget_evictions(), 0);
    assert!(cache.get(&test_span_cache_key(0)).is_none());
    assert!(cache.get(&test_span_cache_key(1)).is_some());
    assert!(cache
        .get(&test_span_cache_key(SOLID_FAN_SPAN_CACHE_ENTRIES))
        .is_some());
}

#[test]
fn solid_fan_span_cache_evicts_oldest_entries_at_row_budget() {
    let mut cache = SolidFanSpanCache::default();

    for index in 0..9 {
        cache.insert(test_span_cache_entry(index, SOLID_FAN_SPAN_CACHE_MAX_ROWS));
    }

    assert_eq!(cache.len(), 8);
    assert_eq!(cache.resident_rows(), SOLID_FAN_SPAN_CACHE_RESIDENT_ROWS);
    assert_eq!(cache.total_evictions(), 1);
    assert_eq!(cache.row_budget_evictions(), 1);
    assert!(cache.get(&test_span_cache_key(0)).is_none());
    assert!(cache.get(&test_span_cache_key(1)).is_some());
}

#[test]
fn solid_fan_span_cache_does_not_retain_oversize_entry() {
    let mut cache = SolidFanSpanCache::default();

    cache.insert(test_span_cache_entry(
        0,
        SOLID_FAN_SPAN_CACHE_RESIDENT_ROWS + 1,
    ));

    assert_eq!(cache.len(), 0);
    assert_eq!(cache.resident_rows(), 0);
    assert_eq!(cache.total_evictions(), 1);
    assert_eq!(cache.row_budget_evictions(), 1);
    assert!(cache.get(&test_span_cache_key(0)).is_none());
}

// ---------------------------------------------------------------------------
// Further cases.
// ---------------------------------------------------------------------------

#[test]
fn inserted_entry_is_found_and_other_keys_are_not() {
    let mut cache = SolidFanSpanCache::new();
    cache.insert(test_span_cache_entry(3, 2));
    let entry = cache.get(&test_span_cache_key(3)).expect("cached");
    assert_eq!(entry.spans.len(), 2);
    assert!(cache.get(&test_span_cache_key(4)).is_none());
    let mut other_clip = test_span_cache_key(3);
    other_clip.clip.max_x = 2;
    assert!(cache.get(&other_clip).is_none());

    let mut stats = RasterStats::new(0);
    cache.record_stats(&mut stats);
    assert_eq!(stats.solid_fan_span_cache_resident_entries, 1);
    assert_eq!(stats.solid_fan_span_cache_resident_rows, 2);
    assert_eq!(stats.solid_fan_span_cache_total_evictions, 0);
}

#[test]
fn cache_key_eligibility_checks_rows_then_edges() {
    let bounds = TriangleRasterBounds {
        min_x: 0,
        min_y: 0,
        max_x: 8,
        max_y: 8,
    };
    let tall = TriangleRasterBounds {
        max_y: SOLID_FAN_SPAN_CACHE_MAX_ROWS + 1,
        ..bounds
    };
    let small_polygon: Vec<usize> = (0..4).collect();
    let big_polygon: Vec<usize> = (0..=SOLID_FAN_PRECOMPUTED_EDGE_BUDGET).collect();
    assert_eq!(
        solid_fan_span_cache_key_eligibility(&small_polygon, bounds),
        SolidFanSpanCacheKeyEligibility::Eligible
    );
    assert_eq!(
        solid_fan_span_cache_key_eligibility(&big_polygon, bounds),
        SolidFanSpanCacheKeyEligibility::TooManyEdges
    );
    assert_eq!(
        solid_fan_span_cache_key_eligibility(&big_polygon, tall),
        SolidFanSpanCacheKeyEligibility::TooManyRows
    );
    assert!(solid_fan_span_cache_key_eligible(&small_polygon, bounds));
    assert!(!solid_fan_span_cache_key_eligible(&small_polygon, tall));
}

#[test]
fn span_storage_only_for_cacheable_fans() {
    let bounds = TriangleRasterBounds {
        min_x: 0,
        min_y: 0,
        max_x: 8,
        max_y: 8,
    };
    assert_eq!(solid_fan_cache_span_storage(bounds, true, true), Some(Vec::new()));
    assert_eq!(solid_fan_cache_span_storage(bounds, false, true), None);
    assert_eq!(solid_fan_cache_span_storage(bounds, true, false), None);
    let tall = TriangleRasterBounds {
        max_y: SOLID_FAN_SPAN_CACHE_MAX_ROWS + 1,
        ..bounds
    };
    assert_eq!(solid_fan_cache_span_storage(tall, true, true), None);
}

#[test]
fn fan_rows_and_replays_count_pixels() {
    let mut stats = RasterStats::new(0);
    assert_eq!(
        rasterize_solid_fan_span([1, 2, 3, 255], 4, Some((2, 7)), &mut stats),
        Some((4, 2, 7))
    );
    assert_eq!(rasterize_solid_fan_span([1, 2, 3, 255], 5, None, &mut stats), None);
    assert_eq!(stats.solid_fan_rows, 1);
    assert_eq!(stats.solid_fan_px, 5);
    assert_eq!(stats.opaque_px, 5);

    let entry = SolidFanSpanCacheEntry {
        key: test_span_cache_key(0),
        bounds: TriangleRasterBounds {
            min_x: 0,
            min_y: 10,
            max_x: 8,
            max_y: 13,
        },
        spans: vec![Some((1, 3)), None, Some((0, 4))],
    };
    let blends = replay_solid_fan_spans([0, 0, 0, 128], &entry, &mut stats);
    assert_eq!(blends, vec![(10, 1, 3), (12, 0, 4)]);
    assert_eq!(stats.solid_fan_rows, 3);
    assert_eq!(stats.solid_fan_px, 11);
    assert_eq!(stats.solid_fan_span_cache_hit_px, 6);
    assert_eq!(stats.translucent_px, 6);

    record_solid_fan_precomputed_row(&mut stats, true);
    record_solid_fan_precomputed_row(&mut stats, false);
    assert_eq!(stats.solid_fan_edge_precompute_used_rows, 1);
    record_solid_fan_scanline_stats(
        &mut stats,
        PolygonScanlineSpan {
            span: Some((0, 1)),
            edge_intersections: 4,
            endpoint_probe_px: 2,
            fell_back: false,
        },
    );
    assert_eq!(stats.solid_fan_edge_intersections, 4);
    assert_eq!(stats.solid_fan_endpoint_probe_px, 2);
}

fn test_span_cache_entry(index: usize, rows: usize) -> SolidFanSpanCacheEntry {
    SolidFanSpanCacheEntry {
        key: test_span_cache_key(index),
        bounds: TriangleRasterBounds {
            min_x: 0,
            min_y: 0,
            max_x: 1,
            max_y: rows,
        },
        spans: vec![None; rows],
    }
}

fn test_span_cache_key(index: usize) -> SolidFanSpanCacheKey {
    SolidFanSpanCacheKey {
        clip: ClipBounds {
            min_x: 0,
            min_y: 0,
            max_x: 1,
            max_y: 1,
        },
        bounds: TriangleRasterBounds {
            min_x: 0,
            min_y: 0,
            max_x: 1,
            max_y: 1,
        },
        triangle_count: 1,
        positions: vec![(u32::try_from(index).expect("test index fits u32"), 0)],
    }
}

#[test]
fn precompute_stats_by_outcome() {
    let mut stats = RasterStats::new(0);
    record_solid_fan_precompute_stats(&mut stats, Ok(6));
    record_solid_fan_precompute_stats(&mut stats, Err(PrecomputeFanEdgesError::Budget));
    record_solid_fan_precompute_stats(&mut stats, Err(PrecomputeFanEdgesError::NonFinite));
    assert_eq!(stats.solid_fan_edge_precompute_calls, 3);
    assert_eq!(stats.solid_fan_edge_precompute_edges, 6);
    assert_eq!(stats.solid_fan_edge_precompute_fallback_budget, 1);
    assert_eq!(stats.solid_fan_edge_precompute_fallback_non_finite, 1);
}

fn key_bounds(rows: usize) -> TriangleRasterBounds {
    TriangleRasterBounds {
        min_x: 0,
        min_y: 0,
        max_x: 4,
        max_y: rows,
    }
}

fn key_clip() -> ClipBounds {
    ClipBounds {
        min_x: 0,
        min_y: 0,
        max_x: 64,
        max_y: 64,
    }
}

#[test]
fn cache_key_is_built_from_polygon_positions() {
    let positions = [Some((1, 2)), Some((3, 4)), None, Some((5, 6))];
    let key = SolidFanSpanCacheKey::new(&positions, &[3, 0, 1], 2, key_clip(), key_bounds(8))
        .expect("all vertices finite");
    assert_eq!(key.positions, vec![(5, 6), (1, 2), (3, 4)]);
    assert_eq!(key.triangle_count, 2);
    assert!(SolidFanSpanCacheKey::new(&positions, &[0, 2], 1, key_clip(), key_bounds(8)).is_none());
    assert!(SolidFanSpanCacheKey::new(&positions, &[0, 9], 1, key_clip(), key_bounds(8)).is_none());
}

#[test]
fn cache_key_gates() {
    let positions = [Some((1, 2)), Some((3, 4)), Some((5, 6))];
    let polygon = [0, 1, 2];
    let mut stats = RasterStats::new(0);
    assert!(solid_fan_span_cache_key(
        false,
        &positions,
        &polygon,
        1,
        key_clip(),
        key_bounds(SOLID_FAN_SPAN_CACHE_MAX_ROWS + 1),
        Some(&mut stats)
    )
    .is_none());
    assert_eq!(stats.solid_fan_span_cache_rejected_too_many_rows, 0);
    assert!(solid_fan_span_cache_key(
        true,
        &positions,
        &polygon,
        1,
        key_clip(),
        key_bounds(SOLID_FAN_SPAN_CACHE_MAX_ROWS + 1),
        Some(&mut stats)
    )
    .is_none());
    assert_eq!(stats.solid_fan_span_cache_rejected_too_many_rows, 1);
    let long_polygon = vec![0usize; SOLID_FAN_PRECOMPUTED_EDGE_BUDGET + 1];
    assert!(solid_fan_span_cache_key(
        true,
        &positions,
        &long_polygon,
        1,
        key_clip(),
        key_bounds(8),
        Some(&mut stats)
    )
    .is_none());
    assert_eq!(stats.solid_fan_span_cache_rejected_too_many_rows, 1);
    let key = solid_fan_span_cache_key(true, &positions, &polygon, 1, key_clip(), key_bounds(8), None);
    assert_eq!(key.map(|k| k.positions.len()), Some(3));
    assert!(solid_fan_span_cache_key_from_eligible(
        &positions,
        &polygon,
        1,
        key_clip(),
        key_bounds(SOLID_FAN_SPAN_CACHE_MAX_ROWS)
    )
    .is_some());
}
