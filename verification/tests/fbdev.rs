use dream_ini_portmaster::fbdev::{
    byte_aligned_channel, capture_snapshot, capture_snapshot_if_needed, convert_rgba_row_to_byte_aligned,
    convert_rgba_row_to_fast32, detect_fast_blit_format, distinct_bytes, framebuffer_memory_len,
    byte_order_of, native_byte_order, native_endian_byte_index, pack_channel, pack_color, parse_env_bool,
    refresh_timing, restore_snapshot, restore_snapshots, snapshot_bytes_used, validate_format,
    viewport_row_bytes, viewport_row_offset, viewport_snapshot_bytes, visible_viewport,
    write_fast_pixel, write_pixel, blit_fast32_rows, blit_rgba_surface, bitfield_info,
    BlitFormat, ByteOrder, Fast32BlitMode, FbBitfield, FbFixScreeninfo, FbVarScreeninfo,
    FramebufferError, FramebufferSnapshot, SnapshotCapture, SoftwareSurface, VisibleViewport,
    MAX_SNAPSHOT_BYTES,
};

#[test]
fn visible_viewport_uses_panned_page_base_offset() {
    let fix = FbFixScreeninfo {
        line_length: 2_560,
        ..Default::default()
    };
    let var = FbVarScreeninfo {
        xres: 640,
        yres: 480,
        xres_virtual: 640,
        yres_virtual: 960,
        yoffset: 480,
        bits_per_pixel: 32,
        ..Default::default()
    };

    let viewport = visible_viewport(&fix, &var).expect("visible viewport");

    assert_eq!(viewport.width, 640);
    assert_eq!(viewport.height, 480);
    assert_eq!(viewport.bytes_per_pixel, 4);
    assert_eq!(viewport.base_offset, 480 * 2_560);
}

#[test]
fn visible_viewport_clips_width_to_remaining_virtual_row() {
    let fix = FbFixScreeninfo {
        line_length: 3_200,
        ..Default::default()
    };
    let var = FbVarScreeninfo {
        xres: 640,
        yres: 480,
        xres_virtual: 800,
        yres_virtual: 480,
        xoffset: 200,
        bits_per_pixel: 32,
        ..Default::default()
    };

    let viewport = visible_viewport(&fix, &var).expect("visible viewport");

    assert_eq!(viewport.width, 600);
    assert_eq!(viewport.height, 480);
    assert_eq!(viewport.x_offset_bytes, 800);
    assert_eq!(viewport.base_offset, 800);
}

#[test]
fn visible_viewport_rejects_scanline_crossing() {
    let fix = FbFixScreeninfo {
        line_length: 2_000,
        ..Default::default()
    };
    let var = FbVarScreeninfo {
        xres: 640,
        yres: 480,
        xres_virtual: 800,
        yres_virtual: 480,
        xoffset: 200,
        bits_per_pixel: 32,
        ..Default::default()
    };

    let error = visible_viewport(&fix, &var).expect_err("viewport crosses scanline");

    assert_eq!(
        error.message(),
        "framebuffer visible viewport crosses scanline boundary"
    );
}

#[test]
fn snapshot_bytes_used_sums_existing_snapshots() {
    let snapshots = vec![
        FramebufferSnapshot {
            viewport: test_viewport(0),
            bytes: vec![0; 16],
        },
        FramebufferSnapshot {
            viewport: test_viewport(64),
            bytes: vec![0; 24],
        },
    ];

    assert_eq!(snapshot_bytes_used(&snapshots).expect("bytes used"), 40);
}

#[test]
fn pack_color_sets_opaque_transparency_bits() {
    let var = FbVarScreeninfo {
        red: FbBitfield {
            offset: 16,
            length: 8,
            ..Default::default()
        },
        green: FbBitfield {
            offset: 8,
            length: 8,
            ..Default::default()
        },
        blue: FbBitfield {
            offset: 0,
            length: 8,
            ..Default::default()
        },
        transp: FbBitfield {
            offset: 24,
            length: 8,
            ..Default::default()
        },
        ..Default::default()
    };

    assert_eq!(pack_color(&var, (0x12, 0x34, 0x56)), 0xff12_3456);
}

#[test]
fn portmaster_fast_blit_matches_pack_color_for_common_rgb32_layout() {
    let order = native_byte_order();
    let var = rgb32_var_without_alpha();
    let format = detect_fast_blit_format(&var, order).expect("fast blit format");
    let mode = Fast32BlitMode::from_byte_aligned(format);
    let color = (0x12, 0x34, 0x56);
    let mut fast_pixel = [0xff; 4];
    let mut generic_pixel = [0xff; 4];

    write_fast_pixel(&mut fast_pixel, format, color);
    write_pixel(&mut generic_pixel, 4, pack_color(&var, color), order);

    assert_eq!(fast_pixel, generic_pixel);
    if order == ByteOrder::Little {
        assert_eq!(mode, Fast32BlitMode::BgrxZero);
    }
}

#[test]
fn portmaster_fast32_specialized_converters_match_byte_shuffle_and_pack_color() {
    assert_fast32_mode_matches_byte_shuffle_and_pack_color(
        rgb32_var_without_alpha(),
        Fast32BlitMode::BgrxZero,
    );
    assert_fast32_mode_matches_byte_shuffle_and_pack_color(
        rgb32_var_with_alpha(),
        Fast32BlitMode::BgraOpaque,
    );
    assert_fast32_mode_matches_byte_shuffle_and_pack_color(
        reversed_rgb32_var_without_alpha(),
        Fast32BlitMode::RgbxZero,
    );
    assert_fast32_mode_matches_byte_shuffle_and_pack_color(
        reversed_rgb32_var_with_alpha(),
        Fast32BlitMode::RgbaOpaque,
    );
}

#[test]
fn framebuffer_env_bool_treats_only_known_false_values_as_false() {
    for value in ["0", "false", "False", "FALSE", "off", "Off", "OFF"] {
        assert!(!parse_env_bool(value), "{value:?} should disable");
    }

    for value in ["", "1", "true", "on", "yes", "no", "anything"] {
        assert!(parse_env_bool(value), "{value:?} should enable");
    }
}

#[test]
fn portmaster_fast32_row_blit_matches_generic_pack_color() {
    let order = native_byte_order();
    let var = rgb32_var_without_alpha();
    let format = Fast32BlitMode::from_byte_aligned(
        detect_fast_blit_format(&var, order).expect("fast blit format"),
    );
    let viewport = VisibleViewport {
        width: 3,
        height: 2,
        line_length: 12,
        ..test_viewport(0)
    };
    let surface = test_surface(viewport.width, viewport.height);
    let mut fast = vec![0xee; viewport.line_length * viewport.height];
    let mut generic = fast.clone();

    blit_fast32_rows(&mut fast, &surface, &viewport, format).expect("fast row blit");
    blit_generic_for_test(&mut generic, &surface, &viewport, &var).expect("generic blit");

    assert_eq!(fast, generic);
}

#[test]
fn portmaster_fast32_row_blit_preserves_stride_padding() {
    let order = native_byte_order();
    let var = rgb32_var_without_alpha();
    let format = Fast32BlitMode::from_byte_aligned(
        detect_fast_blit_format(&var, order).expect("fast blit format"),
    );
    let viewport = VisibleViewport {
        xoffset: 1,
        width: 3,
        height: 2,
        line_length: 20,
        x_offset_bytes: 4,
        base_offset: 4,
        ..test_viewport(0)
    };
    let surface = test_surface(viewport.width, viewport.height);
    let mut fast = vec![0xaa; viewport.line_length * viewport.height];
    let mut generic = fast.clone();

    blit_fast32_rows(&mut fast, &surface, &viewport, format).expect("fast row blit");
    blit_generic_for_test(&mut generic, &surface, &viewport, &var).expect("generic blit");

    assert_eq!(fast, generic);
    assert_eq!(&fast[0..4], &[0xaa; 4]);
    assert_eq!(&fast[16..20], &[0xaa; 4]);
    assert_eq!(&fast[20..24], &[0xaa; 4]);
    assert_eq!(&fast[36..40], &[0xaa; 4]);
}

#[test]
fn portmaster_fast32_alpha_row_blit_preserves_stride_padding() {
    let order = native_byte_order();
    let var = rgb32_var_with_alpha();
    let format = Fast32BlitMode::from_byte_aligned(
        detect_fast_blit_format(&var, order).expect("fast blit format"),
    );
    let viewport = VisibleViewport {
        xoffset: 1,
        width: 3,
        height: 2,
        line_length: 20,
        x_offset_bytes: 4,
        base_offset: 4,
        ..test_viewport(0)
    };
    let surface = test_surface(viewport.width, viewport.height);
    let mut fast = vec![0xaa; viewport.line_length * viewport.height];
    let mut generic = fast.clone();

    blit_fast32_rows(&mut fast, &surface, &viewport, format).expect("fast row blit");
    blit_generic_for_test(&mut generic, &surface, &viewport, &var).expect("generic blit");

    assert_eq!(fast, generic);
    assert_eq!(&fast[0..4], &[0xaa; 4]);
    assert_eq!(&fast[16..20], &[0xaa; 4]);
    assert_eq!(&fast[20..24], &[0xaa; 4]);
    assert_eq!(&fast[36..40], &[0xaa; 4]);
}

#[test]
fn portmaster_fast_blit_rejects_non_byte_aligned_layout() {
    let mut var = rgb32_var_without_alpha();
    var.red.offset = 17;

    assert_eq!(detect_fast_blit_format(&var, native_byte_order()), None);
}

#[test]
fn portmaster_fast_blit_rejects_non_32bpp_layout() {
    let mut var = rgb32_var_without_alpha();
    var.bits_per_pixel = 16;

    assert_eq!(detect_fast_blit_format(&var, native_byte_order()), None);
}

// ---------------------------------------------------------------------------
// Further cases.
// ---------------------------------------------------------------------------

#[test]
fn pack_channel_keeps_the_top_bits_of_the_value() {
    let field = FbBitfield {
        offset: 11,
        length: 5,
        msb_right: 0,
    };
    assert_eq!(pack_channel(0xff, &field), 0x1f << 11);
    assert_eq!(pack_channel(0x80, &field), 0x10 << 11);
    let empty = FbBitfield::default();
    assert_eq!(pack_channel(0xff, &empty), 0);
}

#[test]
fn pack_color_for_rgb565() {
    let var = FbVarScreeninfo {
        bits_per_pixel: 16,
        red: FbBitfield {
            offset: 11,
            length: 5,
            ..Default::default()
        },
        green: FbBitfield {
            offset: 5,
            length: 6,
            ..Default::default()
        },
        blue: FbBitfield {
            offset: 0,
            length: 5,
            ..Default::default()
        },
        ..Default::default()
    };
    assert_eq!(pack_color(&var, (0xff, 0xff, 0xff)), 0xffff);
    assert_eq!(pack_color(&var, (0xff, 0, 0)), 0xf800);
    assert_eq!(pack_color(&var, (0, 0, 0)), 0);
}

#[test]
fn write_pixel_uses_the_given_byte_order_and_keeps_the_rest() {
    let mut little = [9u8; 6];
    write_pixel(&mut little, 4, 0x1122_3344, ByteOrder::Little);
    assert_eq!(little, [0x44, 0x33, 0x22, 0x11, 9, 9]);
    let mut big = [9u8; 6];
    write_pixel(&mut big, 2, 0x1122_3344, ByteOrder::Big);
    assert_eq!(big, [0x11, 0x22, 9, 9, 9, 9]);
}

#[test]
fn native_endian_byte_index_maps_word_bytes() {
    assert_eq!(native_endian_byte_index(0, ByteOrder::Little), 0);
    assert_eq!(native_endian_byte_index(3, ByteOrder::Little), 3);
    assert_eq!(native_endian_byte_index(0, ByteOrder::Big), 3);
    assert_eq!(native_endian_byte_index(3, ByteOrder::Big), 0);
    let native = native_byte_order();
    let probe = 1u32.to_ne_bytes();
    if probe[0] == 1 {
        assert_eq!(native, ByteOrder::Little);
    } else {
        assert_eq!(native, ByteOrder::Big);
    }
}

#[test]
fn byte_aligned_channel_requires_a_whole_byte() {
    let whole = FbBitfield {
        offset: 16,
        length: 8,
        msb_right: 0,
    };
    assert_eq!(byte_aligned_channel(&whole, ByteOrder::Little), Some(2));
    assert_eq!(byte_aligned_channel(&whole, ByteOrder::Big), Some(1));
    let short = FbBitfield {
        offset: 16,
        length: 5,
        msb_right: 0,
    };
    assert_eq!(byte_aligned_channel(&short, ByteOrder::Little), None);
    let reversed = FbBitfield {
        offset: 16,
        length: 8,
        msb_right: 1,
    };
    assert_eq!(byte_aligned_channel(&reversed, ByteOrder::Little), None);
}

#[test]
fn distinct_bytes_rejects_repeats_and_ignores_absent_channels() {
    assert!(distinct_bytes([Some(0), Some(1), Some(2), None]));
    assert!(!distinct_bytes([Some(0), Some(1), Some(1), None]));
    assert!(distinct_bytes([Some(3), None, None, None]));
}

#[test]
fn blit_format_names() {
    assert_eq!(Fast32BlitMode::BgrxZero.name(), "fast32-bgrx-zero");
    assert_eq!(BlitFormat::GenericPackColor.name(), "generic-pack-color");
}

#[test]
fn framebuffer_memory_len_prefers_reported_length() {
    let fix = FbFixScreeninfo {
        smem_len: 4096,
        line_length: 64,
        ..Default::default()
    };
    let var = FbVarScreeninfo {
        yres_virtual: 10,
        ..Default::default()
    };
    assert_eq!(framebuffer_memory_len(&fix, &var), Ok(4096));
    let unreported = FbFixScreeninfo {
        smem_len: 0,
        line_length: 64,
        ..Default::default()
    };
    assert_eq!(framebuffer_memory_len(&unreported, &var), Ok(640));
    let empty = FbVarScreeninfo::default();
    assert_eq!(
        framebuffer_memory_len(&unreported, &empty),
        Err(FramebufferError::MemoryLengthZero)
    );
}

#[test]
fn viewport_row_helpers() {
    let viewport = test_viewport(8);
    assert_eq!(viewport_row_bytes(&viewport), Ok(16));
    assert_eq!(viewport_snapshot_bytes(&viewport), Ok(64));
    assert_eq!(viewport_row_offset(&viewport, 2), Ok(8 + 2 * 16));
    let huge = VisibleViewport {
        width: usize::MAX,
        ..test_viewport(0)
    };
    assert_eq!(
        viewport_row_bytes(&huge),
        Err(FramebufferError::ViewportRowByteCountOverflow)
    );
}

#[test]
fn snapshot_restores_what_was_drawn_over() {
    let viewport = VisibleViewport {
        width: 2,
        height: 2,
        line_length: 12,
        bytes_per_pixel: 4,
        base_offset: 4,
        ..test_viewport(0)
    };
    let untouched: Vec<u8> = (0..28u8).collect();
    let snapshot = capture_snapshot(&untouched, &viewport).expect("capture");
    assert_eq!(snapshot.bytes.len(), 16);
    assert_eq!(&snapshot.bytes[0..8], &untouched[4..12]);
    assert_eq!(&snapshot.bytes[8..16], &untouched[16..24]);

    let mut drawn = untouched.clone();
    for byte in drawn.iter_mut() {
        *byte = 0xee;
    }
    restore_snapshot(&mut drawn, &snapshot).expect("restore");
    assert_eq!(&drawn[4..12], &untouched[4..12]);
    assert_eq!(&drawn[16..24], &untouched[16..24]);
    assert_eq!(&drawn[0..4], &[0xee; 4]);
    assert_eq!(&drawn[12..16], &[0xee; 4]);

    let too_short = vec![0u8; 10];
    assert!(capture_snapshot(&too_short, &viewport).is_err());
    let mismatched = FramebufferSnapshot {
        viewport,
        bytes: vec![0; 3],
    };
    assert_eq!(
        restore_snapshot(&mut drawn, &mismatched),
        Err(FramebufferError::SnapshotSizeMismatch)
    );
}

#[test]
fn snapshots_are_taken_once_per_viewport_and_restored_newest_first() {
    let pixels: Vec<u8> = (0..64u8).collect();
    let mut snapshots = Vec::new();
    let first = test_viewport(0);
    assert_eq!(
        capture_snapshot_if_needed(&pixels, &mut snapshots, &first),
        Ok(SnapshotCapture::Captured)
    );
    assert_eq!(
        capture_snapshot_if_needed(&pixels, &mut snapshots, &first),
        Ok(SnapshotCapture::AlreadyCaptured)
    );
    assert_eq!(snapshots.len(), 1);
    let huge = VisibleViewport {
        width: MAX_SNAPSHOT_BYTES,
        height: 2,
        line_length: MAX_SNAPSHOT_BYTES * 4,
        ..test_viewport(0)
    };
    assert_eq!(
        capture_snapshot_if_needed(&pixels, &mut snapshots, &huge),
        Err(FramebufferError::SnapshotBudgetExceeded)
    );

    let mut drawn = vec![0u8; 64];
    restore_snapshots(&mut drawn, &snapshots).expect("restore all");
    assert_eq!(drawn, pixels);
}

#[test]
fn blit_rgba_surface_picks_fast_path_unless_forced() {
    let order = native_byte_order();
    let var = rgb32_var_without_alpha();
    let viewport = VisibleViewport {
        width: 3,
        height: 2,
        line_length: 12,
        ..test_viewport(0)
    };
    let surface = test_surface(3, 2);
    let mut fast = vec![0u8; 24];
    let mut generic = vec![0u8; 24];
    let fast_format =
        blit_rgba_surface(&mut fast, &surface, &viewport, &var, false, order).expect("blit");
    let generic_format =
        blit_rgba_surface(&mut generic, &surface, &viewport, &var, true, order).expect("blit");
    assert_eq!(generic_format, BlitFormat::GenericPackColor);
    assert!(matches!(fast_format, BlitFormat::Fast32(_)));
    assert_eq!(fast, generic);

    let wrong = test_surface(2, 2);
    assert_eq!(
        blit_rgba_surface(&mut fast, &wrong, &viewport, &var, false, order),
        Err(FramebufferError::SurfaceSizeMismatch)
    );
}

#[test]
fn validate_format_accepts_16_and_32_bits() {
    let mut var = FbVarScreeninfo::default();
    var.bits_per_pixel = 16;
    assert!(validate_format(&var).is_ok());
    var.bits_per_pixel = 32;
    assert!(validate_format(&var).is_ok());
    var.bits_per_pixel = 24;
    let error = validate_format(&var).expect_err("24 bits");
    assert_eq!(error.message(), "unsupported framebuffer format: 24 bits per pixel");
}

#[test]
fn refresh_timing_copies_the_timing_fields() {
    let var = FbVarScreeninfo {
        pixclock: 39_721,
        xres: 640,
        yres: 480,
        left_margin: 48,
        right_margin: 16,
        hsync_len: 96,
        upper_margin: 10,
        lower_margin: 33,
        vsync_len: 2,
        ..Default::default()
    };
    let timing = refresh_timing(&var);
    assert_eq!(timing.pixclock, 39_721);
    assert_eq!(timing.left_margin, 48);
    assert_eq!(timing.vsync_len, 2);
}

#[test]
fn bitfield_info_lists_the_three_fields() {
    let field = FbBitfield {
        offset: 16,
        length: 8,
        msb_right: 0,
    };
    assert_eq!(bitfield_info(&field), "offset=16 length=8 msb_right=0");
}

// ---------------------------------------------------------------------------
// Helpers.
// ---------------------------------------------------------------------------

fn rgb32_var_without_alpha() -> FbVarScreeninfo {
    FbVarScreeninfo {
        bits_per_pixel: 32,
        red: FbBitfield {
            offset: 16,
            length: 8,
            ..Default::default()
        },
        green: FbBitfield {
            offset: 8,
            length: 8,
            ..Default::default()
        },
        blue: FbBitfield {
            offset: 0,
            length: 8,
            ..Default::default()
        },
        transp: FbBitfield::default(),
        ..Default::default()
    }
}

fn rgb32_var_with_alpha() -> FbVarScreeninfo {
    FbVarScreeninfo {
        transp: FbBitfield {
            offset: 24,
            length: 8,
            ..Default::default()
        },
        ..rgb32_var_without_alpha()
    }
}

fn reversed_rgb32_var_without_alpha() -> FbVarScreeninfo {
    FbVarScreeninfo {
        bits_per_pixel: 32,
        red: FbBitfield {
            offset: 0,
            length: 8,
            ..Default::default()
        },
        green: FbBitfield {
            offset: 8,
            length: 8,
            ..Default::default()
        },
        blue: FbBitfield {
            offset: 16,
            length: 8,
            ..Default::default()
        },
        transp: FbBitfield::default(),
        ..Default::default()
    }
}

fn reversed_rgb32_var_with_alpha() -> FbVarScreeninfo {
    FbVarScreeninfo {
        transp: FbBitfield {
            offset: 24,
            length: 8,
            ..Default::default()
        },
        ..reversed_rgb32_var_without_alpha()
    }
}

fn assert_fast32_mode_matches_byte_shuffle_and_pack_color(
    var: FbVarScreeninfo,
    expected_mode: Fast32BlitMode,
) {
    let order = native_byte_order();
    let byte_aligned = detect_fast_blit_format(&var, order).expect("fast blit format");
    let mode = Fast32BlitMode::from_byte_aligned(byte_aligned);
    let source = test_surface(3, 1).pixels;
    let mut specialized = vec![0xee; source.len()];
    let mut byte_shuffle = specialized.clone();

    convert_rgba_row_to_fast32(&mut specialized, &source, mode);
    convert_rgba_row_to_byte_aligned(&mut byte_shuffle, &source, byte_aligned);

    if order == ByteOrder::Little {
        assert_eq!(mode, expected_mode);
    }
    assert_eq!(specialized, byte_shuffle);
    for (source, destination) in source.chunks_exact(4).zip(specialized.chunks_exact(4)) {
        let color = (source[0], source[1], source[2]);
        let mut packed = [0; 4];
        write_pixel(&mut packed, 4, pack_color(&var, color), order);
        assert_eq!(destination, packed);
    }
}

fn test_surface(width: usize, height: usize) -> SoftwareSurface {
    let mut pixels = Vec::with_capacity(width * height * 4);
    for index in 0..width * height {
        let base = u8::try_from(index * 17).expect("test color fits u8");
        pixels.extend_from_slice(&[base, base.wrapping_add(3), base.wrapping_add(7), 0x80]);
    }
    SoftwareSurface {
        width,
        height,
        pixels,
    }
}

fn blit_generic_for_test(
    pixels: &mut [u8],
    surface: &SoftwareSurface,
    viewport: &VisibleViewport,
    var: &FbVarScreeninfo,
) -> Result<(), FramebufferError> {
    let order = native_byte_order();
    for y in 0..viewport.height {
        let row_offset = viewport_row_offset(viewport, y)?;
        for x in 0..viewport.width {
            let pixel_offset = row_offset + x * viewport.bytes_per_pixel;
            let pixel_end = pixel_offset + viewport.bytes_per_pixel;
            let source_offset = (y * surface.width + x) * 4;
            let color = (
                surface.pixels[source_offset],
                surface.pixels[source_offset + 1],
                surface.pixels[source_offset + 2],
            );
            write_pixel(
                &mut pixels[pixel_offset..pixel_end],
                viewport.bytes_per_pixel,
                pack_color(var, color),
                order,
            );
        }
    }
    Ok(())
}

fn test_viewport(base_offset: usize) -> VisibleViewport {
    VisibleViewport {
        xoffset: 0,
        yoffset: 0,
        width: 4,
        height: 4,
        line_length: 16,
        bytes_per_pixel: 4,
        x_offset_bytes: 0,
        base_offset,
    }
}

#[test]
fn byte_order_follows_the_first_byte_of_one() {
    assert_eq!(byte_order_of([1, 0, 0, 0]), ByteOrder::Little);
    assert_eq!(byte_order_of([0, 0, 0, 1]), ByteOrder::Big);
    assert_eq!(byte_order_of(1u32.to_ne_bytes()), native_byte_order());
}

#[test]
fn failed_restore_keeps_rows_written_before_the_failure() {
    let tall = FramebufferSnapshot {
        viewport: test_viewport(0),
        bytes: vec![9u8; 64],
    };
    let mut memory = vec![0u8; 40];
    assert_eq!(
        restore_snapshot(&mut memory, &tall),
        Err(FramebufferError::RestoreExceedsBuffer)
    );
    assert_eq!(&memory[..32], &[9u8; 32][..]);
    assert_eq!(&memory[32..], &[0u8; 8][..]);

    let short = FramebufferSnapshot {
        viewport: VisibleViewport {
            height: 1,
            ..test_viewport(0)
        },
        bytes: vec![7u8; 16],
    };
    let mut memory = vec![0u8; 40];
    assert_eq!(
        restore_snapshots(&mut memory, &[tall.clone(), short]),
        Err(FramebufferError::RestoreExceedsBuffer)
    );
    assert_eq!(&memory[..32], &[9u8; 32][..]);
}
