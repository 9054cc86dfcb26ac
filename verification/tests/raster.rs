use dream_ini_portmaster::bench::{
    background_color, benchmark_texture, texture_alpha_lane_counts, MeshCursor,
};
use dream_ini_portmaster::color::{is_white_texel, modulate_color, multiply_u8};
use dream_ini_portmaster::mesh::{has_four_unique_indices, mesh_index_to_usize};
use dream_ini_portmaster::raster::{
    clip_covers_surface, duration_as_us, record_constant_texel_textured_triangle_candidate_row,
    record_sampled_textured_rect_vector_alpha, record_textured_triangle_call,
    record_white_constant_texel_scan_run, surface_cover_basis_points, texel_color,
    ClearElisionQuadEvidence, ClearElisionQuadRejection, ClipBounds, TextureImage,
    TexturedRectClassification, TexturedRectKind, TexturedTriangleKind, TriangleRasterBounds,
    TriangleTexelSample, white_constant_texel_alpha_only_vertices, classify_textured_rect,
    sampled_separable_textured_rect_uv, textured_rect_constant_texel_color,
    white_constant_texel_uniform_rgb_vertices,
};
use dream_ini_portmaster::raster_stats::RasterStats;

#[test]
fn sampled_rect_modulated_texture_is_mixed_alpha_dominant() {
    let texture = benchmark_texture();
    let (transparent, translucent, opaque) = texture_alpha_lane_counts(&texture);

    assert!(translucent > transparent);
    assert!(translucent > opaque);
    assert!(transparent > 0);
    assert!(opaque > 0);
}

// ---------------------------------------------------------------------------
// Further cases.
// ---------------------------------------------------------------------------

#[test]
fn benchmark_texture_follows_its_pattern() {
    let texture = benchmark_texture();
    assert_eq!(texture.width, 64);
    assert_eq!(texture.height, 4);
    assert_eq!(texture.pixels.len(), 64 * 4 * 4);
    assert_eq!(&texture.pixels[0..4], &[32, 48, 64, 0]);
    assert_eq!(&texture.pixels[4..8], &[69, 65, 93, 96]);
    let (t, l, o) = texture_alpha_lane_counts(&texture);
    assert_eq!(t + l + o, 256);
    assert_eq!(t, 64);
    assert_eq!(o, 64);
    assert_eq!(background_color(), [17, 20, 28, 255]);
}

#[test]
fn alpha_lane_counts_ignore_partial_texel() {
    let texture = TextureImage {
        width: 1,
        height: 1,
        pixels: vec![1, 2, 3, 0, 1, 2, 3, 255, 9, 9, 9],
    };
    assert_eq!(texture_alpha_lane_counts(&texture), (1, 0, 1));
}

#[test]
fn mesh_cursor_wraps_rows_and_screens() {
    let mut cursor = MeshCursor::new(10, 2);
    assert_eq!(cursor.place(5), (0, 0));
    assert_eq!(cursor.place(5), (0, 1));
    assert_eq!(cursor.place(3), (6, 1));
    assert_eq!(cursor.place(2), (0, 0));
    let mut narrow = MeshCursor::new(2, 0);
    assert_eq!(narrow.place(5), (0, 0));
    assert_eq!(narrow.place(5), (0, 0));
}

#[test]
fn multiply_and_modulate() {
    assert_eq!(multiply_u8(255, 255), 255);
    assert_eq!(multiply_u8(255, 77), 77);
    assert_eq!(multiply_u8(0, 200), 0);
    assert_eq!(multiply_u8(128, 128), 64);
    assert_eq!(modulate_color([10, 20, 30, 40], [255, 255, 255, 255]), [10, 20, 30, 40]);
    assert_eq!(modulate_color([255, 128, 0, 255], [128, 128, 128, 0]), [128, 64, 0, 0]);
    assert!(is_white_texel([255, 255, 255, 255]));
    assert!(!is_white_texel([255, 255, 255, 254]));
}

#[test]
fn unique_index_windows() {
    assert!(has_four_unique_indices(&[0, 1, 2, 1, 3, 2]));
    assert!(!has_four_unique_indices(&[0, 1, 2, 3, 4, 5]));
    assert!(!has_four_unique_indices(&[0, 1, 2, 0, 1, 2]));
    assert!(!has_four_unique_indices(&[]));
    assert_eq!(mesh_index_to_usize(7), Ok(7));
}

#[test]
fn texel_color_reads_four_bytes() {
    let texture = TextureImage {
        width: 2,
        height: 2,
        pixels: (0..16u8).collect(),
    };
    assert_eq!(texel_color(&texture, (0, 0)), [0, 1, 2, 3]);
    assert_eq!(texel_color(&texture, (1, 1)), [12, 13, 14, 15]);
}

#[test]
fn clip_and_cover_measures() {
    assert_eq!(surface_cover_basis_points(50, 10, 10), 5_000);
    assert_eq!(surface_cover_basis_points(100, 10, 10), 10_000);
    assert_eq!(surface_cover_basis_points(5, 0, 10), 0);
    assert_eq!(surface_cover_basis_points(usize::MAX, 1, 1), usize::MAX);
    let clip = ClipBounds {
        min_x: 0,
        min_y: 0,
        max_x: 8,
        max_y: 6,
    };
    assert!(clip_covers_surface(clip, 8, 6));
    assert!(!clip_covers_surface(clip, 8, 7));
    assert!(!clip.is_empty());
    assert!(ClipBounds { min_x: 8, ..clip }.is_empty());
    let evidence = ClearElisionQuadEvidence::rejected(ClearElisionQuadRejection::AlphaNotOpaque);
    assert_eq!(evidence.rejection, Some(ClearElisionQuadRejection::AlphaNotOpaque));
    assert_eq!(evidence.visible_px, 0);
    assert!(!evidence.opaque_rect);
}

#[test]
fn bounds_and_samples() {
    let bounds = TriangleRasterBounds {
        min_x: 2,
        min_y: 3,
        max_x: 6,
        max_y: 8,
    };
    assert_eq!(bounds.pixel_area(), 20);
    assert!(!TriangleTexelSample::default().is_uniform());
    let uniform = TriangleTexelSample {
        texels: None,
        uniform_color: Some([1, 2, 3, 4]),
    };
    assert!(uniform.is_uniform());
    assert_eq!(duration_as_us(12), 12);
    assert_eq!(duration_as_us(u128::MAX), usize::MAX);
}

#[test]
fn textured_rect_and_triangle_bookkeeping() {
    let mut stats = RasterStats::new(0);
    let sampled = TexturedRectClassification {
        kind: TexturedRectKind::Sampled,
        white_texel: false,
        uniform_corner_color: true,
        separable_uv: true,
    };
    assert!(sampled.is_sampled_separable_uv());
    stats.record_textured_rect_classification(sampled, 12);
    assert_eq!(stats.textured_rect_sampled_calls, 1);
    assert_eq!(stats.textured_rect_sampled_px, 12);
    assert_eq!(stats.textured_rect_separable_uv_px, 12);
    assert_eq!(stats.textured_rect_uniform_color_px, 12);
    assert_eq!(stats.textured_rect_white_texel_calls, 0);
    stats.record_textured_rect_elapsed(TexturedRectKind::ConstantTexel, 40);
    assert_eq!(stats.textured_rect_constant_texel_us, 40);

    let bounds = TriangleRasterBounds {
        min_x: 0,
        min_y: 0,
        max_x: 4,
        max_y: 3,
    };
    record_textured_triangle_call(
        &mut stats,
        bounds,
        TexturedTriangleKind::ConstantTexel { white_texel: true },
    );
    record_textured_triangle_call(&mut stats, bounds, TexturedTriangleKind::Sampled);
    assert_eq!(stats.textured_triangle_calls, 2);
    assert_eq!(stats.textured_triangle_bbox_px, 24);
    assert_eq!(stats.constant_texel_textured_triangle_white_texel_calls, 1);
    assert_eq!(stats.sampled_textured_triangle_calls, 1);

    record_constant_texel_textured_triangle_candidate_row(&mut stats, bounds, 2);
    record_constant_texel_textured_triangle_candidate_row(&mut stats, bounds, 4);
    assert_eq!(stats.textured_triangle_candidate_px, 6);
    assert_eq!(stats.textured_triangle_narrowed_rows, 1);
    assert_eq!(stats.textured_triangle_full_scan_rows, 1);

    let mut runs = 0;
    let mut span = None;
    record_white_constant_texel_scan_run(3, 5, &mut runs, &mut span);
    record_white_constant_texel_scan_run(7, 9, &mut runs, &mut span);
    assert_eq!(runs, 2);
    assert_eq!(span, Some((3, 5)));
}

#[test]
fn vector_alpha_blocks_close_every_sixteen_pixels() {
    let mut stats = RasterStats::new(0);
    let (mut px, mut opaque, mut transparent) = (0, 0, 0);
    for _ in 0..16 {
        record_sampled_textured_rect_vector_alpha(&mut stats, 255, &mut px, &mut opaque, &mut transparent);
    }
    assert_eq!((px, opaque, transparent), (0, 0, 0));
    assert_eq!(stats.textured_rect_sampled_vector_blocks, 1);
    assert_eq!(stats.textured_rect_sampled_vector_opaque_blocks, 1);
    for alpha in [0u8, 7, 255] {
        record_sampled_textured_rect_vector_alpha(&mut stats, alpha, &mut px, &mut opaque, &mut transparent);
    }
    assert_eq!((px, opaque, transparent), (3, 1, 1));
}

#[test]
fn vertex_color_checks() {
    assert!(white_constant_texel_alpha_only_vertices([
        [255, 255, 255, 0],
        [255, 255, 255, 128],
        [255, 255, 255, 255],
    ]));
    assert!(!white_constant_texel_alpha_only_vertices([
        [255, 255, 255, 0],
        [255, 254, 255, 128],
        [255, 255, 255, 255],
    ]));
    assert!(white_constant_texel_uniform_rgb_vertices([
        [1, 2, 3, 0],
        [1, 2, 3, 9],
        [1, 2, 3, 200],
    ]));
    assert!(!white_constant_texel_uniform_rgb_vertices([
        [1, 2, 3, 0],
        [1, 2, 3, 9],
        [1, 2, 4, 200],
    ]));
}

#[test]
fn textured_rect_constant_texel_color_cases() {
    let texture = TextureImage {
        width: 2,
        height: 1,
        pixels: vec![1, 2, 3, 4, 5, 6, 7, 8],
    };
    assert_eq!(
        textured_rect_constant_texel_color(&texture, [(1, 0); 4]),
        Some([5, 6, 7, 8])
    );
    assert_eq!(
        textured_rect_constant_texel_color(&texture, [(0, 0), (0, 0), (1, 0), (0, 0)]),
        None
    );
    let empty = TextureImage {
        width: 0,
        height: 0,
        pixels: Vec::new(),
    };
    assert_eq!(
        textured_rect_constant_texel_color(&empty, [(3, 3), (0, 0), (1, 1), (2, 2)]),
        Some([255, 255, 255, 255])
    );
}

#[test]
fn classify_textured_rect_cases() {
    let red = [255, 0, 0, 255];
    let blue = [0, 0, 255, 255];
    let constant_white = classify_textured_rect([red; 4], Some([255; 4]), true);
    assert_eq!(
        constant_white,
        TexturedRectClassification {
            kind: TexturedRectKind::ConstantTexel,
            white_texel: true,
            uniform_corner_color: true,
            separable_uv: false,
        }
    );
    let sampled = classify_textured_rect([red, red, blue, red], None, true);
    assert_eq!(
        sampled,
        TexturedRectClassification {
            kind: TexturedRectKind::Sampled,
            white_texel: false,
            uniform_corner_color: false,
            separable_uv: true,
        }
    );
    assert!(sampled.is_sampled_separable_uv());
    assert!(!classify_textured_rect([red; 4], Some(blue), false).white_texel);

    let texture = TextureImage {
        width: 1,
        height: 1,
        pixels: vec![0; 4],
    };
    assert!(sampled_separable_textured_rect_uv(&texture, true, None));
    assert!(!sampled_separable_textured_rect_uv(&texture, true, Some(red)));
    assert!(!sampled_separable_textured_rect_uv(&texture, false, None));
    let empty = TextureImage {
        width: 0,
        height: 1,
        pixels: Vec::new(),
    };
    assert!(!sampled_separable_textured_rect_uv(&empty, true, None));
}
