use dream_ini_portmaster::raster::TriangleScanWorkEstimate;
use dream_ini_portmaster::ranked_offenders::{
    compare_ranked_offenders, solid_triangle_offender_rank, textured_quad_reject_offender_rank,
    textured_triangle_offender_rank, RankedOffender, SolidTriangleOffenders,
    TexturedQuadRejectOffenders, TexturedTriangleOffenders, RANKED_OFFENDER_LIMIT,
};
use dream_ini_portmaster::renderer_stats::TriangleSource;
use std::cmp::Ordering;

fn source(primitive_index: usize, mesh_index_offset: usize) -> TriangleSource {
    TriangleSource {
        primitive_index,
        mesh_index_offset,
    }
}

#[test]
fn solid_triangle_board_keeps_largest_boxes_capped() {
    let mut board = SolidTriangleOffenders::new();
    for id in 0..12 {
        board.record(RankedOffender {
            rank: solid_triangle_offender_rank(id * 10, source(id, 0)),
            id,
        });
    }
    assert_eq!(board.len(), RANKED_OFFENDER_LIMIT);
    let ids: Vec<usize> = board.entries().iter().map(|o| o.id).collect();
    assert_eq!(ids, vec![11, 10, 9, 8, 7, 6, 5, 4]);
}

#[test]
fn textured_triangle_rank_prefers_candidate_pixels_then_box() {
    let work = |candidate_px| TriangleScanWorkEstimate {
        candidate_px,
        narrowed_rows: 0,
        full_scan_rows: 0,
    };
    let a = RankedOffender {
        rank: textured_triangle_offender_rank(work(50), 10, source(3, 0)),
        id: 0,
    };
    let b = RankedOffender {
        rank: textured_triangle_offender_rank(work(40), 99, source(0, 0)),
        id: 1,
    };
    let c = RankedOffender {
        rank: textured_triangle_offender_rank(work(50), 20, source(9, 0)),
        id: 2,
    };
    assert_eq!(compare_ranked_offenders(&a, &b), Ordering::Greater);
    assert_eq!(compare_ranked_offenders(&c, &a), Ordering::Greater);
    let mut board = TexturedTriangleOffenders::new();
    board.record(a);
    board.record(b);
    board.record(c);
    let ids: Vec<usize> = board.entries().iter().map(|o| o.id).collect();
    assert_eq!(ids, vec![2, 0, 1]);
}

#[test]
fn quad_reject_rank_ties_break_on_earlier_primitive_and_offset() {
    let early = RankedOffender {
        rank: textured_quad_reject_offender_rank(8, 8, source(1, 6)),
        id: 0,
    };
    let later = RankedOffender {
        rank: textured_quad_reject_offender_rank(8, 8, source(1, 12)),
        id: 1,
    };
    assert_eq!(compare_ranked_offenders(&early, &later), Ordering::Greater);
    let same = RankedOffender { id: 7, ..early };
    assert_eq!(compare_ranked_offenders(&early, &same), Ordering::Equal);
    let mut board = TexturedQuadRejectOffenders::new();
    board.record(later);
    board.record(early);
    board.record(same);
    let ids: Vec<usize> = board.entries().iter().map(|o| o.id).collect();
    assert_eq!(ids, vec![0, 7, 1]);
    assert!(!board.is_empty());
}

#[test]
fn full_board_ignores_offender_that_does_not_rank_above_last() {
    let mut board = SolidTriangleOffenders::new();
    for id in 0..RANKED_OFFENDER_LIMIT {
        board.record(RankedOffender {
            rank: solid_triangle_offender_rank(100, source(id, 0)),
            id,
        });
    }
    let before: Vec<usize> = board.entries().iter().map(|o| o.id).collect();
    board.record(RankedOffender {
        rank: solid_triangle_offender_rank(100, source(RANKED_OFFENDER_LIMIT, 0)),
        id: 99,
    });
    let after: Vec<usize> = board.entries().iter().map(|o| o.id).collect();
    assert_eq!(before, after);
}
