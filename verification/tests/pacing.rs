use std::time::Duration;

use dream_ini_portmaster::pacing::{
    checked_timing_total, frame_pacing_after_frame, framebuffer_refresh_hz,
    parse_refresh_env_value, select_refresh_rate, DisplayTiming, RefreshRateSource,
    SelectedRefreshRate, DEFAULT_REFRESH_HZ, MAX_REFRESH_HZ, MIN_REFRESH_HZ,
};

fn nanos(duration: Duration) -> u64 {
    u64::try_from(duration.as_nanos()).expect("duration fits u64")
}

#[test]
fn refresh_env_parser_accepts_clamps_and_ignores_invalid_values() {
    assert_eq!(parse_refresh_env_value(Some("75")), Some(75));
    assert_eq!(parse_refresh_env_value(Some("1")), Some(MIN_REFRESH_HZ));
    assert_eq!(parse_refresh_env_value(Some("240")), Some(MAX_REFRESH_HZ));
    assert_eq!(parse_refresh_env_value(Some("-1")), None);
    assert_eq!(parse_refresh_env_value(Some("fast")), None);
    assert_eq!(parse_refresh_env_value(Some("")), None);
}

#[test]
fn framebuffer_refresh_calculation_rounds_representative_timing_to_60_hz() {
    let timing = refresh_test_timing(39_721);

    assert_eq!(framebuffer_refresh_hz(timing), Some(60));
}

#[test]
fn framebuffer_refresh_calculation_accepts_zero_margin_and_sync_lengths() {
    let timing = DisplayTiming {
        pixclock: 54_253,
        xres: 640,
        yres: 480,
        ..Default::default()
    };

    assert_eq!(framebuffer_refresh_hz(timing), Some(60));
}

#[test]
fn framebuffer_refresh_calculation_ignores_unusable_values() {
    let zero_pixclock = refresh_test_timing(0);
    let out_of_range = refresh_test_timing(1);

    assert_eq!(framebuffer_refresh_hz(zero_pixclock), None);
    assert_eq!(
        framebuffer_refresh_hz(DisplayTiming {
            xres: 0,
            ..refresh_test_timing(39_721)
        }),
        None
    );
    assert_eq!(
        framebuffer_refresh_hz(DisplayTiming {
            yres: 0,
            ..refresh_test_timing(39_721)
        }),
        None
    );
    assert_eq!(framebuffer_refresh_hz(out_of_range), None);
}

#[test]
fn refresh_selection_priority_uses_env_framebuffer_then_default() {
    let framebuffer_timing = refresh_test_timing(39_721);
    let unusable_timing = DisplayTiming::default();

    assert_eq!(
        select_refresh_rate(Some("30"), framebuffer_timing),
        SelectedRefreshRate {
            hz: 30,
            source: RefreshRateSource::Environment,
        }
    );
    assert_eq!(
        select_refresh_rate(Some("fast"), framebuffer_timing),
        SelectedRefreshRate {
            hz: 60,
            source: RefreshRateSource::Framebuffer,
        }
    );
    assert_eq!(
        select_refresh_rate(None, unusable_timing),
        SelectedRefreshRate {
            hz: DEFAULT_REFRESH_HZ,
            source: RefreshRateSource::Default,
        }
    );
}

#[test]
fn refresh_frame_interval_for_60_hz_uses_integer_nanoseconds() {
    let selected = SelectedRefreshRate {
        hz: 60,
        source: RefreshRateSource::Default,
    };

    assert_eq!(
        Duration::from_nanos(selected.frame_interval()),
        Duration::from_nanos(16_666_666)
    );
}

#[test]
fn frame_pacing_sleeps_when_ahead_and_resets_when_late() {
    let previous_deadline = nanos(Duration::from_secs(1_000));
    let interval = nanos(Duration::from_millis(16));
    let ahead_now = previous_deadline + nanos(Duration::from_millis(10));

    let (next_deadline, sleep_for) =
        frame_pacing_after_frame(ahead_now, previous_deadline, interval);

    assert_eq!(next_deadline, previous_deadline + interval);
    assert_eq!(sleep_for, Some(nanos(Duration::from_millis(6))));

    let late_now = previous_deadline + nanos(Duration::from_millis(20));
    let (next_deadline, sleep_for) =
        frame_pacing_after_frame(late_now, previous_deadline, interval);

    assert_eq!(next_deadline, late_now);
    assert_eq!(sleep_for, None);
}

fn refresh_test_timing(pixclock: u32) -> DisplayTiming {
    DisplayTiming {
        pixclock,
        xres: 640,
        left_margin: 48,
        right_margin: 16,
        hsync_len: 96,
        yres: 480,
        upper_margin: 10,
        lower_margin: 33,
        vsync_len: 2,
    }
}

// ---------------------------------------------------------------------------
// Further cases.
// ---------------------------------------------------------------------------

#[test]
fn refresh_env_parser_trims_white_space_and_accepts_a_plus_sign() {
    assert_eq!(parse_refresh_env_value(Some("  90\n")), Some(90));
    assert_eq!(parse_refresh_env_value(Some("\u{3000}45\u{a0}")), Some(45));
    assert_eq!(parse_refresh_env_value(Some("+60")), Some(60));
    assert_eq!(parse_refresh_env_value(Some("+")), None);
    assert_eq!(parse_refresh_env_value(Some("6 0")), None);
    assert_eq!(parse_refresh_env_value(Some("   ")), None);
    assert_eq!(parse_refresh_env_value(Some("0075")), Some(75));
    assert_eq!(parse_refresh_env_value(Some("4294967295")), Some(MAX_REFRESH_HZ));
    assert_eq!(parse_refresh_env_value(Some("4294967296")), None);
    assert_eq!(parse_refresh_env_value(None), None);
}

#[test]
fn checked_timing_total_sums_or_refuses() {
    assert_eq!(checked_timing_total(640, [48, 16, 96]), Some(800));
    assert_eq!(checked_timing_total(0, [48, 16, 96]), None);
    assert_eq!(checked_timing_total(u32::MAX, [0, 0, 1]), None);
    assert_eq!(checked_timing_total(u32::MAX, [0, 0, 0]), Some(u32::MAX));
}

#[test]
fn display_timing_new_spreads_the_margin_arrays() {
    let timing = DisplayTiming::new(39_721, 640, 480, [48, 16, 96], [10, 33, 2]);
    assert_eq!(timing, refresh_test_timing(39_721));
}

#[test]
fn refresh_source_names() {
    assert_eq!(RefreshRateSource::Environment.as_str(), "environment");
    assert_eq!(RefreshRateSource::Framebuffer.as_str(), "framebuffer");
    assert_eq!(RefreshRateSource::Default.as_str(), "default");
    let selected = select_refresh_rate(Some("75"), DisplayTiming::default());
    assert_eq!(selected.hz(), 75);
}

#[test]
fn selected_rate_always_in_supported_range() {
    for value in ["0", "14", "15", "120", "121", "99999"] {
        let hz = select_refresh_rate(Some(value), DisplayTiming::default()).hz();
        assert!((MIN_REFRESH_HZ..=MAX_REFRESH_HZ).contains(&hz));
    }
}

#[test]
fn frame_pacing_falls_back_to_now_when_the_deadline_overflows() {
    let (next, sleep) = frame_pacing_after_frame(5, u64::MAX, 10);
    assert_eq!(next, 5);
    assert_eq!(sleep, None);
    let (next, sleep) = frame_pacing_after_frame(100, 100, 0);
    assert_eq!(next, 100);
    assert_eq!(sleep, None);
}
