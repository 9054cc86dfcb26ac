//! Refresh-rate selection and frame pacing.
//!
//! The refresh rate comes, in order of priority, from an environment value,
//! from the framebuffer's video timing, or from a fixed default. Frame pacing
//! works on a monotonic clock expressed in nanoseconds; the caller owns the
//! clock and the sleeping.
use vstd::prelude::*;

verus! {

/// Name of the environment variable that overrides the refresh rate.
pub const REFRESH_ENV_VAR: &'static str = "DREAM_INI_PORTMASTER_REFRESH_HZ";

pub const DEFAULT_REFRESH_HZ: u32 = 60;

pub const MIN_REFRESH_HZ: u32 = 15;

pub const MAX_REFRESH_HZ: u32 = 120;

pub const NANOS_PER_SECOND: u64 = 1_000_000_000;

pub const PICOS_PER_SECOND: u128 = 1_000_000_000_000;

/// The subset of a framebuffer's variable screen information that determines
/// its refresh rate: pixel clock period (picoseconds), visible size, margins and
/// sync lengths.
#[derive(Clone, Copy, Debug, PartialEq, Eq, Structural)]
pub struct DisplayTiming {
    pub pixclock: u32,
    pub xres: u32,
    pub yres: u32,
    pub left_margin: u32,
    pub right_margin: u32,
    pub hsync_len: u32,
    pub upper_margin: u32,
    pub lower_margin: u32,
    pub vsync_len: u32,
}

impl DisplayTiming {
    /// `horizontal` holds the left margin, right margin and hsync length;
    /// `vertical` holds the upper margin, lower margin and vsync length.
    pub fn new(pixclock: u32, xres: u32, yres: u32, horizontal: [u32; 3], vertical: [u32; 3]) -> (t:
        Self)
        ensures
            t == (DisplayTiming {
                pixclock,
                xres,
                yres,
                left_margin: horizontal@[0],
                right_margin: horizontal@[1],
                hsync_len: horizontal@[2],
                upper_margin: vertical@[0],
                lower_margin: vertical@[1],
                vsync_len: vertical@[2],
            }),
    {
        DisplayTiming {
            pixclock,
            xres,
            yres,
            left_margin: horizontal[0],
            right_margin: horizontal[1],
            hsync_len: horizontal[2],
            upper_margin: vertical[0],
            lower_margin: vertical[1],
            vsync_len: vertical[2],
        }
    }
}

impl Default for DisplayTiming {
    fn default() -> (t: Self)
        ensures
            t == (DisplayTiming {
                pixclock: 0,
                xres: 0,
                yres: 0,
                left_margin: 0,
                right_margin: 0,
                hsync_len: 0,
                upper_margin: 0,
                lower_margin: 0,
                vsync_len: 0,
            }),
    {
        DisplayTiming {
            pixclock: 0,
            xres: 0,
            yres: 0,
            left_margin: 0,
            right_margin: 0,
            hsync_len: 0,
            upper_margin: 0,
            lower_margin: 0,
            vsync_len: 0,
        }
    }
}

/// Where a selected refresh rate came from.
#[derive(Clone, Copy, Debug, PartialEq, Eq, Structural)]
pub enum RefreshRateSource {
    Environment,
    Framebuffer,
    Default,
}

pub open spec fn source_name(source: RefreshRateSource) -> Seq<char> {
    match source {
        RefreshRateSource::Environment => "environment"@,
        RefreshRateSource::Framebuffer => "framebuffer"@,
        RefreshRateSource::Default => "default"@,
    }
}

impl RefreshRateSource {
    pub fn as_str(self) -> (s: &'static str)
        ensures
            s@ == source_name(self),
    {
        match self {
            RefreshRateSource::Environment => "environment",
            RefreshRateSource::Framebuffer => "framebuffer",
            RefreshRateSource::Default => "default",
        }
    }
}

/// A refresh rate in hertz together with its source.
#[derive(Clone, Copy, Debug, PartialEq, Eq, Structural)]
pub struct SelectedRefreshRate {
    pub hz: u32,
    pub source: RefreshRateSource,
}

impl SelectedRefreshRate {
    pub fn hz(self) -> (hz: u32)
        ensures
            hz == self.hz,
    {
        self.hz
    }

    /// The frame interval in whole nanoseconds (the fraction is dropped).
    pub fn frame_interval(self) -> (nanos: u64)
        requires
            self.hz > 0,
        ensures
            nanos == NANOS_PER_SECOND / (self.hz as u64),
    {
        NANOS_PER_SECOND / (self.hz as u64)
    }
}

// ---------------------------------------------------------------------------
// Parsing the environment value.
// ---------------------------------------------------------------------------
/// Unicode `White_Space`, the set that `char::is_whitespace` and `str::trim`
/// use.
pub open spec fn is_unicode_whitespace(c: char) -> bool {
    let u = c as u32;
    ||| 0x9 <= u <= 0xD
    ||| u == 0x20
    ||| u == 0x85
    ||| u == 0xA0
    ||| u == 0x1680
    ||| 0x2000 <= u <= 0x200A
    ||| u == 0x2028
    ||| u == 0x2029
    ||| u == 0x202F
    ||| u == 0x205F
    ||| u == 0x3000
}

pub open spec fn trim_start(s: Seq<char>) -> Seq<char>
    decreases s.len(),
{
    if s.len() > 0 && is_unicode_whitespace(s[0]) {
        trim_start(s.drop_first())
    } else {
        s
    }
}

pub open spec fn trim_end(s: Seq<char>) -> Seq<char>
    decreases s.len(),
{
    if s.len() > 0 && is_unicode_whitespace(s.last()) {
        trim_end(s.drop_last())
    } else {
        s
    }
}

/// `s` without leading and trailing white space.
pub open spec fn trimmed(s: Seq<char>) -> Seq<char> {
    trim_end(trim_start(s))
}

pub open spec fn is_ascii_digit(c: char) -> bool {
    '0' <= c <= '9'
}

pub open spec fn digit_value(c: char) -> int {
    c as int - '0' as int
}

pub open spec fn all_digits(s: Seq<char>) -> bool {
    forall|i: int| 0 <= i < s.len() ==> #[trigger] is_ascii_digit(s[i])
}

/// The number that a string of decimal digits spells.
pub open spec fn digits_value(s: Seq<char>) -> int
    decreases s.len(),
{
    if s.len() == 0 {
        0
    } else {
        10 * digits_value(s.drop_last()) + digit_value(s.last())
    }
}

/// The digits after an optional leading `+`.
pub open spec fn unsigned_digits(s: Seq<char>) -> Seq<char> {
    if s.len() > 0 && s[0] == '+' {
        s.drop_first()
    } else {
        s
    }
}

/// What `str::parse::<u32>` gives: an optional `+` followed by at least one
/// decimal digit, whose value fits in a `u32`.
pub open spec fn parse_u32(s: Seq<char>) -> Option<u32> {
    let d = unsigned_digits(s);
    if d.len() > 0 && all_digits(d) && digits_value(d) <= u32::MAX {
        Some(digits_value(d) as u32)
    } else {
        None
    }
}

pub open spec fn clamp_refresh_hz(hz: u32) -> u32 {
    if hz < MIN_REFRESH_HZ {
        MIN_REFRESH_HZ
    } else if hz > MAX_REFRESH_HZ {
        MAX_REFRESH_HZ
    } else {
        hz
    }
}

pub open spec fn env_refresh_hz(value: Option<Seq<char>>) -> Option<u32> {
    match value {
        None => None,
        Some(v) => match parse_u32(trimmed(v)) {
            Some(n) => Some(clamp_refresh_hz(n)),
            None => None,
        },
    }
}

pub open spec fn str_view(value: Option<&str>) -> Option<Seq<char>> {
    match value {
        Some(v) => Some(v@),
        None => None,
    }
}

fn is_whitespace_char(c: char) -> (b: bool)
    ensures
        b == is_unicode_whitespace(c),
{
    let u = c as u32;
    (0x9 <= u && u <= 0xD) || u == 0x20 || u == 0x85 || u == 0xA0 || u == 0x1680 || (0x2000 <= u
        && u <= 0x200A) || u == 0x2028 || u == 0x2029 || u == 0x202F || u == 0x205F || u == 0x3000
}

proof fn lemma_trim_start_skip(s: Seq<char>, k: int)
    requires
        0 <= k <= s.len(),
        forall|i: int| 0 <= i < k ==> is_unicode_whitespace(#[trigger] s[i]),
        k == s.len() || !is_unicode_whitespace(s[k]),
    ensures
        trim_start(s) == s.subrange(k, s.len() as int),
    decreases k,
{
    if k == 0 {
        assert(s.subrange(0, s.len() as int) =~= s);
    } else {
        let t = s.drop_first();
        assert forall|i: int| 0 <= i < k - 1 implies is_unicode_whitespace(#[trigger] t[i]) by {
            assert(t[i] == s[i + 1]);
        }
        lemma_trim_start_skip(t, k - 1);
        assert(t.subrange(k - 1, t.len() as int) =~= s.subrange(k, s.len() as int));
    }
}

proof fn lemma_trim_end_skip(s: Seq<char>, k: int)
    requires
        0 <= k <= s.len(),
        forall|i: int| s.len() - k <= i < s.len() ==> is_unicode_whitespace(#[trigger] s[i]),
        k == s.len() || !is_unicode_whitespace(s[s.len() - k - 1]),
    ensures
        trim_end(s) == s.subrange(0, s.len() - k),
    decreases k,
{
    if k == 0 {
        assert(s.subrange(0, s.len() as int) =~= s);
    } else {
        let t = s.drop_last();
        assert(is_unicode_whitespace(s[s.len() - 1]));
        assert forall|i: int| t.len() - (k - 1) <= i < t.len() implies is_unicode_whitespace(
            #[trigger] t[i],
        ) by {
            assert(t[i] == s[i]);
        }
        lemma_trim_end_skip(t, k - 1);
        assert(t.subrange(0, t.len() - (k - 1)) =~= s.subrange(0, s.len() - k));
    }
}

proof fn lemma_digits_value_nonneg(s: Seq<char>)
    requires
        all_digits(s),
    ensures
        digits_value(s) >= 0,
    decreases s.len(),
{
    if s.len() > 0 {
        assert(is_ascii_digit(s[s.len() - 1]));
        lemma_digits_value_nonneg(s.drop_last());
    }
}

proof fn lemma_digits_value_prefix(s: Seq<char>, k: int)
    requires
        all_digits(s),
        0 <= k <= s.len(),
    ensures
        digits_value(s.take(k)) <= digits_value(s),
    decreases s.len(),
{
    if k < s.len() {
        let t = s.drop_last();
        assert(is_ascii_digit(s[s.len() - 1]));
        lemma_digits_value_prefix(t, k);
        assert(t.take(k) =~= s.take(k));
        lemma_digits_value_nonneg(t);
    } else {
        assert(s.take(k) =~= s);
    }
}

/// The value of `DREAM_INI_PORTMASTER_REFRESH_HZ`, trimmed, parsed as a `u32`
/// and clamped to the supported range; `None` when absent or not a number.
pub fn parse_refresh_env_value(value: Option<&str>) -> (r: Option<u32>)
    ensures
        r == env_refresh_hz(str_view(value)),
{
    let v = match value {
        Some(v) => v,
        None => return None,
    };
    let ghost s = v@;
    let n = v.unicode_len();
    let mut start: usize = 0;
    let mut scanning = true;
    while scanning && start < n
        invariant
            n == s.len(),
            s == v@,
            start <= n,
            forall|i: int| 0 <= i < start ==> is_unicode_whitespace(#[trigger] s[i]),
            !scanning ==> start < n && !is_unicode_whitespace(s[start as int]),
        decreases (n - start) as int + if scanning { 1int } else { 0int },
    {
        let c = v.get_char(start);
        if is_whitespace_char(c) {
            start = start + 1;
        } else {
            scanning = false;
        }
    }
    proof {
        lemma_trim_start_skip(s, start as int);
    }
    let ghost t = s.subrange(start as int, n as int);
    let mut end: usize = n;
    scanning = true;
    while scanning && end > start
        invariant
            n == s.len(),
            s == v@,
            start <= end <= n,
            t == s.subrange(start as int, n as int),
            forall|i: int| end <= i < n ==> is_unicode_whitespace(#[trigger] s[i]),
            !scanning ==> end > start && !is_unicode_whitespace(s[end - 1]),
        decreases end as int + if scanning { 1int } else { 0int },
    {
        let c = v.get_char(end - 1);
        if is_whitespace_char(c) {
            end = end - 1;
        } else {
            scanning = false;
        }
    }
    proof {
        let k = (n - end) as int;
        assert forall|i: int| t.len() - k <= i < t.len() implies is_unicode_whitespace(
            #[trigger] t[i],
        ) by {
            assert(t[i] == s[start + i]);
        }
        if k < t.len() {
            assert(t[t.len() - k - 1] == s[end - 1]);
        }
        lemma_trim_end_skip(t, k);
        assert(t.subrange(0, t.len() - k) =~= s.subrange(start as int, end as int));
    }
    let ghost w = s.subrange(start as int, end as int);
    assert(trimmed(s) == w);
    let mut i: usize = start;
    if i < end && v.get_char(i) == '+' {
        i = i + 1;
    }
    let digits_start = i;
    let ghost d = s.subrange(digits_start as int, end as int);
    assert(unsigned_digits(w) =~= d);
    if i >= end {
        return None;
    }
    let mut acc: u64 = 0;
    while i < end
        invariant
            n == s.len(),
            s == v@,
            start <= digits_start <= i <= end <= n,
            d == s.subrange(digits_start as int, end as int),
            d.len() > 0,
            str_view(value) == Some(s),
            unsigned_digits(trimmed(s)) == d,
            all_digits(s.subrange(digits_start as int, i as int)),
            acc == digits_value(s.subrange(digits_start as int, i as int)),
            acc <= u32::MAX,
        decreases end - i,
    {
        let c = v.get_char(i);
        let ghost prefix = s.subrange(digits_start as int, i as int);
        let ghost next_prefix = s.subrange(digits_start as int, i + 1);
        if !('0' <= c && c <= '9') {
            assert(!is_ascii_digit(d[i - digits_start]));
            assert(!all_digits(d));
            assert(parse_u32(trimmed(s)) is None);
            return None;
        }
        let digit = (c as u32 - '0' as u32) as u64;
        assert(next_prefix.drop_last() =~= prefix);
        assert(next_prefix.last() == c);
        let next = acc * 10 + digit;
        if next > u32::MAX as u64 {
            proof {
                assert(all_digits(next_prefix));
                if all_digits(d) {
                    lemma_digits_value_prefix(d, i + 1 - digits_start);
                    assert(d.take(i + 1 - digits_start) =~= next_prefix);
                }
                assert(parse_u32(trimmed(s)) is None);
            }
            return None;
        }
        acc = next;
        i = i + 1;
    }
    assert(s.subrange(digits_start as int, i as int) =~= d);
    let parsed = acc as u32;
    if parsed < MIN_REFRESH_HZ {
        Some(MIN_REFRESH_HZ)
    } else if parsed > MAX_REFRESH_HZ {
        Some(MAX_REFRESH_HZ)
    } else {
        Some(parsed)
    }
}

// ---------------------------------------------------------------------------
// Refresh rate from the framebuffer timing.
// ---------------------------------------------------------------------------
/// The total of a visible length and its three blanking lengths, when the
/// visible length is nonzero and the total fits in a `u32`.
pub open spec fn timing_total(required: u32, a: u32, b: u32, c: u32) -> Option<u32> {
    if required == 0 || required + a + b + c > u32::MAX {
        None
    } else {
        Some((required + a + b + c) as u32)
    }
}

/// Frames per second from the pixel clock and the total frame size, rounded
/// to the nearest integer; only rates in the supported range count.
pub open spec fn spec_framebuffer_refresh_hz(t: DisplayTiming) -> Option<u32> {
    if t.pixclock == 0 {
        None
    } else {
        match (
            timing_total(t.xres, t.left_margin, t.right_margin, t.hsync_len),
            timing_total(t.yres, t.upper_margin, t.lower_margin, t.vsync_len),
        ) {
            (Some(h), Some(v)) => {
                let frame = t.pixclock * h * v;
                let rounded = (PICOS_PER_SECOND + frame / 2) / frame;
                if MIN_REFRESH_HZ <= rounded <= MAX_REFRESH_HZ {
                    Some(rounded as u32)
                } else {
                    None
                }
            },
            _ => None,
        }
    }
}

pub fn checked_timing_total(required: u32, optional: [u32; 3]) -> (r: Option<u32>)
    ensures
        r == timing_total(required, optional@[0], optional@[1], optional@[2]),
{
    if required == 0 {
        return None;
    }
    let mut total: u32 = required;
    let mut k: usize = 0;
    while k < 3
        invariant
            k <= 3,
            required > 0,
            total == required + (if k > 0 { optional@[0] as int } else { 0 }) + (if k > 1 {
                optional@[1] as int
            } else {
                0
            }) + (if k > 2 { optional@[2] as int } else { 0 }),
        decreases 3 - k,
    {
        match total.checked_add(optional[k]) {
            Some(next) => total = next,
            None => return None,
        }
        k = k + 1;
    }
    Some(total)
}

/// The refresh rate that the framebuffer's timing gives, if it is usable.
pub fn framebuffer_refresh_hz(timing: DisplayTiming) -> (r: Option<u32>)
    ensures
        r == spec_framebuffer_refresh_hz(timing),
        r matches Some(hz) ==> MIN_REFRESH_HZ <= hz <= MAX_REFRESH_HZ,
{
    if timing.pixclock == 0 {
        return None;
    }
    let htotal = match checked_timing_total(
        timing.xres,
        [timing.left_margin, timing.right_margin, timing.hsync_len],
    ) {
        Some(t) => t,
        None => return None,
    };
    let vtotal = match checked_timing_total(
        timing.yres,
        [timing.upper_margin, timing.lower_margin, timing.vsync_len],
    ) {
        Some(t) => t,
        None => return None,
    };
    let p = timing.pixclock as u128;
    let h = htotal as u128;
    let v = vtotal as u128;
    assert(0 < p * h <= 0xffff_ffff * 0xffff_ffff) by (nonlinear_arith)
        requires
            0 < p <= 0xffff_ffff,
            0 < h <= 0xffff_ffff,
    ;
    let ph = p * h;
    assert(0 < ph * v <= 0xffff_ffff * 0xffff_ffff * 0xffff_ffff) by (nonlinear_arith)
        requires
            0 < ph <= 0xffff_ffff * 0xffff_ffff,
            0 < v <= 0xffff_ffff,
    ;
    let frame_picos = ph * v;
    let rounded = (PICOS_PER_SECOND + frame_picos / 2) / frame_picos;
    if MIN_REFRESH_HZ as u128 <= rounded && rounded <= MAX_REFRESH_HZ as u128 {
        Some(rounded as u32)
    } else {
        None
    }
}

// ---------------------------------------------------------------------------
// Selection.
// ---------------------------------------------------------------------------
pub open spec fn spec_select_refresh_rate(
    env_value: Option<Seq<char>>,
    timing: DisplayTiming,
) -> SelectedRefreshRate {
    match env_refresh_hz(env_value) {
        Some(hz) => SelectedRefreshRate { hz, source: RefreshRateSource::Environment },
        None => match spec_framebuffer_refresh_hz(timing) {
            Some(hz) => SelectedRefreshRate { hz, source: RefreshRateSource::Framebuffer },
            None => SelectedRefreshRate {
                hz: DEFAULT_REFRESH_HZ,
                source: RefreshRateSource::Default,
            },
        },
    }
}

/// Chooses the refresh rate: a usable environment value first, then a usable
/// framebuffer timing, then the default. The rate is always in the supported
/// range.
pub fn select_refresh_rate(env_value: Option<&str>, timing: DisplayTiming) -> (r:
    SelectedRefreshRate)
    ensures
        r == spec_select_refresh_rate(str_view(env_value), timing),
        MIN_REFRESH_HZ <= r.hz <= MAX_REFRESH_HZ,
{
    if let Some(hz) = parse_refresh_env_value(env_value) {
        return SelectedRefreshRate { hz, source: RefreshRateSource::Environment };
    }
    if let Some(hz) = framebuffer_refresh_hz(timing) {
        return SelectedRefreshRate { hz, source: RefreshRateSource::Framebuffer };
    }
    SelectedRefreshRate { hz: DEFAULT_REFRESH_HZ, source: RefreshRateSource::Default }
}

// ---------------------------------------------------------------------------
// Frame pacing.
// ---------------------------------------------------------------------------
/// The deadline of the next frame: one interval after the previous deadline,
/// or now if that addition leaves the clock's range.
pub open spec fn next_deadline(now: u64, previous_deadline: u64, interval: u64) -> u64 {
    if previous_deadline + interval <= u64::MAX {
        (previous_deadline + interval) as u64
    } else {
        now
    }
}

/// Given the time after a frame, the previous deadline and the frame interval
/// (all in nanoseconds on one monotonic clock), returns the next deadline and
/// how long to sleep. When the frame finished early the deadline advances by
/// one interval and the sleep lasts until it; when it finished late the
/// schedule restarts from now and there is no sleep.
pub fn frame_pacing_after_frame(now: u64, previous_deadline: u64, interval: u64) -> (r: (
    u64,
    Option<u64>,
))
    ensures
        ({
            let deadline = next_deadline(now, previous_deadline, interval);
            if deadline > now {
                r == (deadline, Some((deadline - now) as u64))
            } else {
                r == (now, None::<u64>)
            }
        }),
        r.0 >= now,
        r.1 matches Some(d) ==> d > 0 && r.0 == now + d,
{
    let deadline = match previous_deadline.checked_add(interval) {
        Some(d) => d,
        None => now,
    };
    if deadline > now {
        (deadline, Some(deadline - now))
    } else {
        (now, None)
    }
}

} // verus!
