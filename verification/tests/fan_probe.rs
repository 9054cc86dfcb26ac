use dream_ini_portmaster::fan_probe::{
    candidate_center_slot, cheap_solid_fan_candidate, cheap_solid_fan_seed, fan_boundaries,
    fan_boundary_seen, initialize_seen_boundaries, next_fan_boundary, solid_fan_polygon,
    solid_fan_run_color, FanBoundaryKey, FanCandidate, FanTriangle, FanVertex,
    SOLID_FAN_MIN_TRIANGLES,
};
use dream_ini_portmaster::renderer_stats::SolidFanProbeStats;

const RED: [u8; 4] = [200, 10, 10, 255];

fn vertex(index: u32) -> FanVertex {
    FanVertex {
        index,
        vertex_index: index as usize,
        pos: (index * 7, index * 11),
    }
}

fn triangle(a: u32, b: u32, c: u32) -> Option<FanTriangle> {
    Some(FanTriangle {
        vertices: [vertex(a), vertex(b), vertex(c)],
        finite: true,
        area_sign: Some(1),
        solid_color: Some(RED),
    })
}

fn key(index: u32) -> FanBoundaryKey {
    FanBoundaryKey {
        index,
        pos: vertex(index).pos,
    }
}

/// A fan around vertex 0 over rim vertices 1..=n+1.
fn fan(n: u32) -> Vec<Option<FanTriangle>> {
    (1..=n).map(|i| triangle(0, i, i + 1)).collect()
}

#[test]
fn probe_accepts_a_fan_and_counts_its_walk() {
    let triangles = fan(4);
    let mut seen = vec![key(99)];
    let mut stats = SolidFanProbeStats::default();
    let candidate = cheap_solid_fan_candidate(&triangles, 0, &mut seen, 64, Some(&mut stats));
    assert_eq!(
        candidate,
        Some(FanCandidate {
            center_slot: 0,
            center_index: 0,
            center_pos: (0, 0),
            center_vertex_index: 0,
            triangle_count: 4,
        })
    );
    assert_eq!(seen, vec![key(1), key(2), key(3), key(4), key(5)]);
    assert_eq!(stats.cheap_candidate_attempts, 1);
    assert_eq!(stats.candidate_triangles_scanned, 4);
    assert_eq!(stats.repeated_boundary_checks, 3);
    assert_eq!(stats.repeated_boundary_comparisons, 2 + 3 + 4);
    assert_eq!(stats.max_candidate_triangles, 4);
    assert_eq!(stats.reject_too_short, 0);

    let mut polygon = vec![42];
    solid_fan_polygon(&triangles, candidate.unwrap(), &mut polygon);
    assert_eq!(polygon, vec![1, 2, 3, 4, 5]);
    assert_eq!(polygon.len(), candidate.unwrap().triangle_count + 1);
    assert!(candidate.unwrap().triangle_count + 2 <= 64);
    assert_eq!(solid_fan_run_color(&triangles, 4), Some(RED));
}

#[test]
fn probe_stops_at_the_first_triangle_off_the_fan() {
    let mut triangles = fan(5);
    triangles.push(triangle(7, 8, 9));
    triangles.push(triangle(0, 6, 7));
    let mut seen = Vec::new();
    let mut stats = SolidFanProbeStats::default();
    let candidate = cheap_solid_fan_candidate(&triangles, 0, &mut seen, 64, Some(&mut stats));
    assert_eq!(candidate.map(|c| c.triangle_count), Some(5));
    assert_eq!(stats.candidate_triangles_scanned, 6);
    assert_eq!(stats.reject_no_candidate, 0);
}

#[test]
fn probe_rejects_a_short_fan() {
    let triangles = fan(SOLID_FAN_MIN_TRIANGLES as u32 - 1);
    let mut seen = Vec::new();
    let mut stats = SolidFanProbeStats::default();
    assert_eq!(
        cheap_solid_fan_candidate(&triangles, 0, &mut seen, 64, Some(&mut stats)),
        None
    );
    assert_eq!(stats.reject_too_short, 1);
    assert_eq!(stats.max_candidate_triangles, 3);
}

#[test]
fn probe_rejects_a_repeated_boundary() {
    let triangles = vec![triangle(0, 1, 2), triangle(0, 2, 3), triangle(0, 3, 1)];
    let mut seen = Vec::new();
    let mut stats = SolidFanProbeStats::default();
    assert_eq!(
        cheap_solid_fan_candidate(&triangles, 0, &mut seen, 64, Some(&mut stats)),
        None
    );
    assert_eq!(stats.reject_repeated_boundary, 1);
    assert_eq!(stats.repeated_boundary_checks, 2);
    assert_eq!(stats.repeated_boundary_comparisons, 2 + 1);
    assert_eq!(seen, vec![key(1), key(2), key(3)]);
}

#[test]
fn probe_rejects_a_winding_flip() {
    let mut triangles = fan(4);
    if let Some(t) = triangles[2].as_mut() {
        t.area_sign = Some(-1);
    }
    let mut seen = Vec::new();
    let mut stats = SolidFanProbeStats::default();
    assert_eq!(
        cheap_solid_fan_candidate(&triangles, 0, &mut seen, 64, Some(&mut stats)),
        None
    );
    assert_eq!(stats.reject_winding_mismatch_or_non_finite, 1);
    assert_eq!(stats.max_candidate_triangles, 2);
}

#[test]
fn probe_rejects_a_missing_vertex() {
    let mut triangles = fan(4);
    triangles[1] = None;
    let mut stats = SolidFanProbeStats::default();
    assert_eq!(
        cheap_solid_fan_candidate(&triangles, 0, &mut Vec::new(), 64, Some(&mut stats)),
        None
    );
    assert_eq!(stats.reject_vertex_lookup_failure, 1);
    assert_eq!(stats.candidate_triangles_scanned, 1);
}

#[test]
fn probe_rejects_when_the_first_triangle_is_unusable() {
    let mut stats = SolidFanProbeStats::default();
    let mut seen = vec![key(5)];
    assert_eq!(
        cheap_solid_fan_candidate(&[None], 0, &mut seen, 64, Some(&mut stats)),
        None
    );
    assert_eq!(stats.reject_vertex_lookup_failure, 1);
    assert_eq!(stats.candidate_triangles_scanned, 0);
    assert_eq!(seen, vec![key(5)], "the scratch is left alone");

    let mut flat = fan(4);
    if let Some(t) = flat[0].as_mut() {
        t.area_sign = None;
    }
    let mut stats = SolidFanProbeStats::default();
    assert_eq!(
        cheap_solid_fan_candidate(&flat, 0, &mut seen, 64, Some(&mut stats)),
        None
    );
    assert_eq!(stats.reject_winding_mismatch_or_non_finite, 1);
    assert_eq!(stats.candidate_triangles_scanned, 1);
}

#[test]
fn probe_respects_the_scratch_budget() {
    let triangles = fan(6);
    let mut stats = SolidFanProbeStats::default();
    let mut seen = vec![key(9)];
    assert_eq!(
        cheap_solid_fan_candidate(&triangles, 0, &mut seen, 1, Some(&mut stats)),
        None
    );
    assert!(seen.is_empty());
    assert_eq!(stats.reject_scratch_overflow, 1);
    assert_eq!(stats.max_candidate_triangles, 1);

    let mut stats = SolidFanProbeStats::default();
    assert_eq!(
        cheap_solid_fan_candidate(&triangles, 0, &mut seen, 6, Some(&mut stats)),
        None
    );
    assert_eq!(stats.reject_scratch_overflow, 1);
    assert_eq!(stats.max_candidate_triangles, 4);

    let candidate = cheap_solid_fan_candidate(&triangles, 0, &mut seen, 8, None);
    assert_eq!(candidate.map(|c| c.triangle_count), Some(6));
}

#[test]
fn probe_without_counters_finds_the_same_fan() {
    let triangles = fan(5);
    let mut seen = Vec::new();
    let candidate = cheap_solid_fan_candidate(&triangles, 0, &mut seen, 64, None);
    assert_eq!(candidate.map(|c| c.triangle_count), Some(5));
    assert_eq!(seen.len(), 6);
}

#[test]
fn probe_finds_a_fan_around_another_slot() {
    let triangles: Vec<_> = (1..=4).map(|i| triangle(i, 0, i + 1)).collect();
    let candidate = cheap_solid_fan_candidate(&triangles, 1, &mut Vec::new(), 64, None);
    assert_eq!(candidate.map(|c| (c.center_slot, c.center_index)), Some((1, 0)));
    assert_eq!(cheap_solid_fan_candidate(&triangles, 0, &mut Vec::new(), 64, None), None);
}

#[test]
fn fan_helpers() {
    let t = triangle(4, 5, 6).unwrap();
    assert_eq!(fan_boundaries(&t, 0), [vertex(5), vertex(6)]);
    assert_eq!(fan_boundaries(&t, 1), [vertex(4), vertex(6)]);
    assert_eq!(fan_boundaries(&t, 2), [vertex(4), vertex(5)]);
    assert_eq!(next_fan_boundary([vertex(5), vertex(6)], vertex(5)), Some(vertex(6)));
    assert_eq!(next_fan_boundary([vertex(5), vertex(6)], vertex(6)), Some(vertex(5)));
    assert_eq!(next_fan_boundary([vertex(5), vertex(6)], vertex(7)), None);
    assert_eq!(candidate_center_slot(&t, 6, vertex(6).pos), Some(2));
    assert_eq!(candidate_center_slot(&t, 6, (0, 0)), None);

    assert_eq!(FanBoundaryKey::from(vertex(3)), key(3));

    let mut stats = SolidFanProbeStats::default();
    assert!(fan_boundary_seen(&[key(1), key(2), key(3)], vertex(2), Some(&mut stats)));
    assert!(!fan_boundary_seen(&[key(1), key(2), key(3)], vertex(4), Some(&mut stats)));
    assert_eq!(stats.repeated_boundary_checks, 2);
    assert_eq!(stats.repeated_boundary_comparisons, 2 + 3);

    let mut seen = vec![key(8)];
    assert!(initialize_seen_boundaries(&mut seen, vertex(1), vertex(2), 2, None));
    assert_eq!(seen, vec![key(1), key(2)]);

    let seed = cheap_solid_fan_seed(&fan(4), 0, None).unwrap();
    assert_eq!(seed.previous_boundary, vertex(1));
    assert_eq!(seed.current_boundary, vertex(2));
    assert_eq!(seed.expected_area_sign, 1);
}

#[test]
fn polygon_stops_where_the_fan_stops() {
    let mut triangles = fan(4);
    triangles[3] = triangle(7, 8, 9);
    let candidate = FanCandidate {
        center_slot: 0,
        center_index: 0,
        center_pos: (0, 0),
        center_vertex_index: 0,
        triangle_count: 4,
    };
    let mut polygon = Vec::new();
    solid_fan_polygon(&triangles, candidate, &mut polygon);
    assert_eq!(polygon, vec![1, 2, 3, 4]);
}

#[test]
fn run_color_needs_one_shared_color() {
    let mut triangles = fan(3);
    assert_eq!(solid_fan_run_color(&triangles, 3), Some(RED));
    assert_eq!(solid_fan_run_color(&triangles, 0), None);
    if let Some(t) = triangles[2].as_mut() {
        t.solid_color = Some([1, 2, 3, 4]);
    }
    assert_eq!(solid_fan_run_color(&triangles, 2), Some(RED));
    assert_eq!(solid_fan_run_color(&triangles, 3), None);
    if let Some(t) = triangles[1].as_mut() {
        t.solid_color = None;
    }
    assert_eq!(solid_fan_run_color(&triangles, 2), None);
}
