use vstd::prelude::*;
use vstd::arithmetic::power2::{pow2, lemma_pow2_adds, lemma_pow2_pos, lemma2_to64};
use vstd::bits::{lemma_u64_shl_is_mul, lemma_u32_shl_is_mul};
use crate::pacing::DisplayTiming;
use crate::text::{decimal, push_decimal, push_str, str_equals};

verus! {

/// One colour channel's placement inside a framebuffer pixel word.
#[derive(Clone, Copy, Debug, Default, PartialEq, Eq)]
pub struct FbBitfield {
    pub offset: u32,
    pub length: u32,
    pub msb_right: u32,
}

/// The variable screen information of a Linux framebuffer device.
#[derive(Clone, Copy, Debug, Default, PartialEq, Eq)]
pub struct FbVarScreeninfo {
    pub xres: u32,
    pub yres: u32,
    pub xres_virtual: u32,
    pub yres_virtual: u32,
    pub xoffset: u32,
    pub yoffset: u32,
    pub bits_per_pixel: u32,
    pub grayscale: u32,
    pub red: FbBitfield,
    pub green: FbBitfield,
    pub blue: FbBitfield,
    pub transp: FbBitfield,
    pub nonstd: u32,
    pub activate: u32,
    pub height: u32,
    pub width: u32,
    pub accel_flags: u32,
    pub pixclock: u32,
    pub left_margin: u32,
    pub right_margin: u32,
    pub upper_margin: u32,
    pub lower_margin: u32,
    pub hsync_len: u32,
    pub vsync_len: u32,
    pub sync: u32,
    pub vmode: u32,
    pub rotate: u32,
    pub colorspace: u32,
    pub reserved: [u32; 4],
}

/// The numeric part of the fixed screen information of a Linux framebuffer device.
#[derive(Clone, Copy, Debug, Default, PartialEq, Eq)]
pub struct FbFixScreeninfo {
    pub smem_start: u64,
    pub smem_len: u32,
    pub type_: u32,
    pub type_aux: u32,
    pub visual: u32,
    pub xpanstep: u16,
    pub ypanstep: u16,
    pub ywrapstep: u16,
    pub line_length: u32,
    pub mmio_start: u64,
    pub mmio_len: u32,
    pub accel: u32,
    pub capabilities: u16,
    pub reserved: [u16; 2],
}

/// Order in which the bytes of a 32-bit word are laid out in memory.
#[derive(Clone, Copy, Debug, PartialEq, Eq)]
pub enum ByteOrder {
    Little,
    Big,
}

/// `u32::to_ne_bytes(1)`: the machine's in-memory bytes of the word `1`.
/// Only that it is one of the two byte orders is stated; which one depends on the machine.
#[verifier::external_body]
fn native_bytes_of_one() -> (bytes: [u8; 4])
    ensures
        bytes@ == seq![1u8, 0u8, 0u8, 0u8] || bytes@ == seq![0u8, 0u8, 0u8, 1u8],
{
    1u32.to_ne_bytes()
}

/// The byte order that the in-memory bytes of the word `1` show: little-endian
/// when the low byte comes first.
pub fn byte_order_of(bytes: [u8; 4]) -> (r: ByteOrder)
    ensures
        r == (if bytes[0] == 1 {
            ByteOrder::Little
        } else {
            ByteOrder::Big
        }),
{
    if bytes[0] == 1 {
        ByteOrder::Little
    } else {
        ByteOrder::Big
    }
}

/// The byte order of the machine this code runs on.
pub fn native_byte_order() -> ByteOrder {
    let bytes = native_bytes_of_one();
    byte_order_of(bytes)
}

/// Byte `index` (0..4, in memory order) of `word` stored with `order`.
pub open spec fn word_byte(word: u32, order: ByteOrder, index: int) -> u8 {
    let shift: u32 = match order {
        ByteOrder::Little => (8 * index) as u32,
        ByteOrder::Big => (8 * (3 - index)) as u32,
    };
    ((word >> shift) & 0xffu32) as u8
}

/// Position in memory of the little-endian byte `byte` of a word stored with `order`.
pub open spec fn spec_native_endian_byte_index(byte: usize, order: ByteOrder) -> usize {
    match order {
        ByteOrder::Little => byte,
        ByteOrder::Big => (3 - byte) as usize,
    }
}

/// Memory position of the word's little-endian byte `byte` (`byte < 4`).
pub fn native_endian_byte_index(byte: usize, order: ByteOrder) -> (r: usize)
    requires
        byte < 4,
    ensures
        r == spec_native_endian_byte_index(byte, order),
        r < 4,
{
    match order {
        ByteOrder::Little => byte,
        ByteOrder::Big => 3 - byte,
    }
}

/// Value a channel takes in a packed pixel word.
pub open spec fn spec_pack_channel(value: u8, field: FbBitfield) -> u32 {
    if field.length == 0 || field.offset >= 32 {
        0
    } else {
        let length: nat = if field.length <= 32 - field.offset {
            field.length as nat
        } else {
            (32 - field.offset) as nat
        };
        let max_value: int = pow2(length) - 1;
        let scaled: int = (value as int * max_value + 127) / 255;
        (scaled * pow2(field.offset as nat)) as u32
    }
}

proof fn lemma_pack_channel_fits(value: u8, length: nat, offset: nat)
    requires
        1 <= length,
        length + offset <= 32,
    ensures
        0 <= (value as int * (pow2(length) - 1) + 127) / 255 < pow2(length),
        0 <= ((value as int * (pow2(length) - 1) + 127) / 255) * pow2(offset) < pow2(32),
        pow2(32) == 0x1_0000_0000,
{
    lemma_pow2_pos(length);
    lemma_pow2_pos(offset);
    lemma2_to64();
    let max_value: int = pow2(length) - 1;
    let scaled: int = (value as int * max_value + 127) / 255;
    assert(0 <= scaled <= max_value) by (nonlinear_arith)
        requires
            scaled == (value as int * max_value + 127) / 255,
            0 <= value <= 255,
            max_value >= 0,
    ;
    lemma_pow2_adds(length, offset);
    if length + offset < 32 {
        vstd::arithmetic::power2::lemma_pow2_strictly_increases(length + offset, 32);
    }
    assert(scaled * pow2(offset) < pow2(length) * pow2(offset)) by (nonlinear_arith)
        requires
            0 <= scaled < pow2(length),
            pow2(offset) > 0,
    ;
    assert(scaled * pow2(offset) >= 0) by (nonlinear_arith)
        requires
            scaled >= 0,
            pow2(offset) > 0,
    ;
}

/// Scales an 8-bit channel to the field's width and moves it to the field's offset.
pub fn pack_channel(value: u8, field: &FbBitfield) -> (packed: u32)
    ensures
        packed == spec_pack_channel(value, *field),
{
    if field.length == 0 || field.offset >= 32 {
        return 0;
    }
    let length: u32 = if field.length <= 32 - field.offset {
        field.length
    } else {
        32 - field.offset
    };
    proof {
        lemma_pack_channel_fits(value, length as nat, field.offset as nat);
        vstd::arithmetic::power2::lemma_pow2_strictly_increases(length as nat, 64);
        lemma2_to64();
        lemma_u64_shl_is_mul(1, length as u64);
    }
    let max_value: u64 = (1u64 << (length as u64)) - 1;
    assert(value as u64 * max_value <= 255 * max_value) by (nonlinear_arith)
        requires
            value <= 255,
    ;
    let scaled: u64 = (value as u64 * max_value + 127) / 255;
    proof {
        lemma_pow2_pos(field.offset as nat);
        lemma_u64_shl_is_mul(scaled, field.offset as u64);
    }
    let shifted: u64 = scaled << (field.offset as u64);
    if shifted <= 0xffff_ffffu64 {
        shifted as u32
    } else {
        0
    }
}

/// Packed pixel word for an opaque colour under the screen's channel layout.
pub open spec fn spec_pack_color(var: FbVarScreeninfo, red: u8, green: u8, blue: u8) -> u32 {
    spec_pack_channel(red, var.red) | spec_pack_channel(green, var.green) | spec_pack_channel(
        blue,
        var.blue,
    ) | spec_pack_channel(255, var.transp)
}

/// Packs an RGB colour, with the transparency channel (if any) fully opaque.
pub fn pack_color(var: &FbVarScreeninfo, color: (u8, u8, u8)) -> (packed: u32)
    ensures
        packed == spec_pack_color(*var, color.0, color.1, color.2),
{
    let (red, green, blue) = color;
    pack_channel(red, &var.red) | pack_channel(green, &var.green) | pack_channel(blue, &var.blue)
        | pack_channel(255, &var.transp)
}

/// Writes the first `bytes_per_pixel` memory bytes of `packed` into `pixel`.
pub fn write_pixel(pixel: &mut [u8], bytes_per_pixel: usize, packed: u32, order: ByteOrder)
    requires
        bytes_per_pixel <= 4,
        bytes_per_pixel <= old(pixel)@.len(),
    ensures
        final(pixel)@.len() == old(pixel)@.len(),
        forall|i: int|
            0 <= i < final(pixel)@.len() ==> #[trigger] final(pixel)@[i] == if i < bytes_per_pixel {
                word_byte(packed, order, i)
            } else {
                old(pixel)@[i]
            },
{
    let bytes: [u8; 4] = match order {
        ByteOrder::Little => [
            (packed & 0xff) as u8,
            ((packed >> 8u32) & 0xff) as u8,
            ((packed >> 16u32) & 0xff) as u8,
            ((packed >> 24u32) & 0xff) as u8,
        ],
        ByteOrder::Big => [
            ((packed >> 24u32) & 0xff) as u8,
            ((packed >> 16u32) & 0xff) as u8,
            ((packed >> 8u32) & 0xff) as u8,
            (packed & 0xff) as u8,
        ],
    };
    assert(packed >> 0u32 == packed) by (bit_vector);
    let mut i: usize = 0;
    while i < bytes_per_pixel
        invariant
            i <= bytes_per_pixel,
            bytes_per_pixel <= 4,
            bytes_per_pixel <= pixel@.len(),
            pixel@.len() == old(pixel)@.len(),
            forall|k: int| 0 <= k < 4 ==> #[trigger] bytes[k] == word_byte(packed, order, k),
            forall|k: int|
                0 <= k < pixel@.len() ==> #[trigger] pixel@[k] == if k < i {
                    word_byte(packed, order, k)
                } else {
                    old(pixel)@[k]
                },
        decreases bytes_per_pixel - i,
    {
        pixel[i] = bytes[i];
        i = i + 1;
    }
}


/// Memory byte positions of the colour channels of a 32-bit pixel whose
/// channels are each one whole byte.
#[derive(Clone, Copy, Debug, PartialEq, Eq)]
pub struct Fast32ByteAlignedBlit {
    pub red: usize,
    pub green: usize,
    pub blue: usize,
    pub alpha: Option<usize>,
}

impl Fast32ByteAlignedBlit {
    /// Every channel position names one of the four bytes of a pixel.
    pub open spec fn in_pixel(self) -> bool {
        &&& self.red < 4
        &&& self.green < 4
        &&& self.blue < 4
        &&& (self.alpha matches Some(a) ==> a < 4)
    }
}

/// How 32-bit pixels are written by the fast row converter.
#[derive(Clone, Copy, Debug, PartialEq, Eq)]
pub enum Fast32BlitMode {
    BgrxZero,
    BgraOpaque,
    RgbxZero,
    RgbaOpaque,
    ByteAligned(Fast32ByteAlignedBlit),
}

/// How a software surface is copied into framebuffer memory.
#[derive(Clone, Copy, Debug, PartialEq, Eq)]
pub enum BlitFormat {
    Fast32(Fast32BlitMode),
    GenericPackColor,
}

/// The converter chosen for a byte-aligned layout.
pub open spec fn spec_mode_for_layout(format: Fast32ByteAlignedBlit) -> Fast32BlitMode {
    if format.red == 2 && format.green == 1 && format.blue == 0 && format.alpha == None::<usize> {
        Fast32BlitMode::BgrxZero
    } else if format.red == 2 && format.green == 1 && format.blue == 0 && format.alpha == Some(
        3usize,
    ) {
        Fast32BlitMode::BgraOpaque
    } else if format.red == 0 && format.green == 1 && format.blue == 2 && format.alpha == None::<
        usize,
    > {
        Fast32BlitMode::RgbxZero
    } else if format.red == 0 && format.green == 1 && format.blue == 2 && format.alpha == Some(
        3usize,
    ) {
        Fast32BlitMode::RgbaOpaque
    } else {
        Fast32BlitMode::ByteAligned(format)
    }
}

/// The channel layout that a fast mode writes.
pub open spec fn mode_layout(mode: Fast32BlitMode) -> Fast32ByteAlignedBlit {
    match mode {
        Fast32BlitMode::BgrxZero => Fast32ByteAlignedBlit { red: 2, green: 1, blue: 0, alpha: None },
        Fast32BlitMode::BgraOpaque => Fast32ByteAlignedBlit {
            red: 2,
            green: 1,
            blue: 0,
            alpha: Some(3),
        },
        Fast32BlitMode::RgbxZero => Fast32ByteAlignedBlit { red: 0, green: 1, blue: 2, alpha: None },
        Fast32BlitMode::RgbaOpaque => Fast32ByteAlignedBlit {
            red: 0,
            green: 1,
            blue: 2,
            alpha: Some(3),
        },
        Fast32BlitMode::ByteAligned(format) => format,
    }
}

impl Fast32BlitMode {
    /// Picks the specialised converter for the four common layouts.
    pub fn from_byte_aligned(format: Fast32ByteAlignedBlit) -> (mode: Self)
        ensures
            mode_layout(mode) == format,
            mode == spec_mode_for_layout(format),
    {
        match (format.red, format.green, format.blue, format.alpha) {
            (2, 1, 0, None) => Self::BgrxZero,
            (2, 1, 0, Some(3)) => Self::BgraOpaque,
            (0, 1, 2, None) => Self::RgbxZero,
            (0, 1, 2, Some(3)) => Self::RgbaOpaque,
            _ => Self::ByteAligned(format),
        }
    }

    /// Name used in presentation logs.
    pub fn name(self) -> (name: &'static str)
        ensures
            name@ == spec_fast32_mode_name(self),
    {
        match self {
            Self::BgrxZero => "fast32-bgrx-zero",
            Self::BgraOpaque => "fast32-bgra-opaque",
            Self::RgbxZero => "fast32-rgbx-zero",
            Self::RgbaOpaque => "fast32-rgba-opaque",
            Self::ByteAligned(_) => "fast32-byte-shuffle",
        }
    }
}

/// Log name of a fast mode.
pub open spec fn spec_fast32_mode_name(mode: Fast32BlitMode) -> Seq<char> {
    match mode {
        Fast32BlitMode::BgrxZero => "fast32-bgrx-zero"@,
        Fast32BlitMode::BgraOpaque => "fast32-bgra-opaque"@,
        Fast32BlitMode::RgbxZero => "fast32-rgbx-zero"@,
        Fast32BlitMode::RgbaOpaque => "fast32-rgba-opaque"@,
        Fast32BlitMode::ByteAligned(_) => "fast32-byte-shuffle"@,
    }
}

impl BlitFormat {
    /// Name used in presentation logs.
    pub fn name(self) -> (name: &'static str)
        ensures
            name@ == match self {
                BlitFormat::Fast32(mode) => spec_fast32_mode_name(mode),
                BlitFormat::GenericPackColor => "generic-pack-color"@,
            },
    {
        match self {
            Self::Fast32(format) => format.name(),
            Self::GenericPackColor => "generic-pack-color",
        }
    }
}

/// Memory byte position of a channel that occupies exactly one whole byte of a 32-bit word.
pub open spec fn spec_byte_aligned_channel(field: FbBitfield, order: ByteOrder) -> Option<usize> {
    if field.length != 8 || field.offset % 8 != 0 || field.msb_right != 0 || field.offset / 8 >= 4 {
        None
    } else {
        Some(spec_native_endian_byte_index((field.offset / 8) as usize, order))
    }
}

/// The memory byte of a pixel that holds `field`, when the field is one whole byte.
pub fn byte_aligned_channel(field: &FbBitfield, order: ByteOrder) -> (r: Option<usize>)
    ensures
        r == spec_byte_aligned_channel(*field, order),
        r matches Some(b) ==> b < 4,
{
    if field.length != 8 || field.offset % 8 != 0 || field.msb_right != 0 {
        return None;
    }
    let byte: usize = (field.offset / 8) as usize;
    if byte >= 4 {
        return None;
    }
    Some(native_endian_byte_index(byte, order))
}

/// Two positions do not both exist and coincide.
pub open spec fn positions_differ(a: Option<usize>, b: Option<usize>) -> bool {
    !(a is Some && b is Some && a == b)
}

/// No two present positions are equal.
pub open spec fn spec_distinct_bytes(bytes: [Option<usize>; 4]) -> bool {
    &&& positions_differ(bytes[0], bytes[1])
    &&& positions_differ(bytes[0], bytes[2])
    &&& positions_differ(bytes[0], bytes[3])
    &&& positions_differ(bytes[1], bytes[2])
    &&& positions_differ(bytes[1], bytes[3])
    &&& positions_differ(bytes[2], bytes[3])
}

/// Whether the present byte positions are pairwise different.
pub fn distinct_bytes(bytes: [Option<usize>; 4]) -> (r: bool)
    ensures
        r == spec_distinct_bytes(bytes),
{
    let mut index: usize = 0;
    while index < 4
        invariant
            index <= 4,
            forall|i: int, j: int|
                0 <= i < index && i < j < 4 ==> positions_differ(
                    #[trigger] bytes[i],
                    #[trigger] bytes[j],
                ),
        decreases 4 - index,
    {
        if let Some(byte) = bytes[index] {
            let mut other: usize = index + 1;
            while other < 4
                invariant
                    index < other <= 4,
                    bytes[index as int] == Some(byte),
                    forall|j: int|
                        index < j < other ==> positions_differ(bytes[index as int], #[trigger] bytes[j]),
                decreases 4 - other,
            {
                if let Some(value) = bytes[other] {
                    if value == byte {
                        assert(!positions_differ(bytes[index as int], bytes[other as int]));
                        return false;
                    }
                }
                other = other + 1;
            }
        }
        index = index + 1;
    }
    assert(positions_differ(bytes[0], bytes[1]));
    assert(positions_differ(bytes[0], bytes[2]));
    assert(positions_differ(bytes[0], bytes[3]));
    assert(positions_differ(bytes[1], bytes[2]));
    assert(positions_differ(bytes[1], bytes[3]));
    assert(positions_differ(bytes[2], bytes[3]));
    true
}

/// The fast layout of a 32-bit screen whose colour channels are whole bytes, if any.
pub open spec fn spec_detect_fast_blit_format(var: FbVarScreeninfo, order: ByteOrder) -> Option<
    Fast32ByteAlignedBlit,
> {
    let red = spec_byte_aligned_channel(var.red, order);
    let green = spec_byte_aligned_channel(var.green, order);
    let blue = spec_byte_aligned_channel(var.blue, order);
    let alpha = if var.transp.length == 0 {
        Some(None)
    } else {
        match spec_byte_aligned_channel(var.transp, order) {
            Some(a) => Some(Some(a)),
            None => None,
        }
    };
    if var.bits_per_pixel != 32 || red is None || green is None || blue is None || alpha is None {
        None
    } else if !spec_distinct_bytes([red, green, blue, alpha->0]) {
        None
    } else {
        Some(
            Fast32ByteAlignedBlit {
                red: red->0,
                green: green->0,
                blue: blue->0,
                alpha: alpha->0,
            },
        )
    }
}

/// Recognises 32-bit layouts whose channels can be copied byte by byte.
pub fn detect_fast_blit_format(var: &FbVarScreeninfo, order: ByteOrder) -> (r: Option<
    Fast32ByteAlignedBlit,
>)
    ensures
        r == spec_detect_fast_blit_format(*var, order),
        r matches Some(f) ==> f.in_pixel(),
{
    if var.bits_per_pixel != 32 {
        return None;
    }
    let red = match byte_aligned_channel(&var.red, order) {
        Some(b) => b,
        None => return None,
    };
    let green = match byte_aligned_channel(&var.green, order) {
        Some(b) => b,
        None => return None,
    };
    let blue = match byte_aligned_channel(&var.blue, order) {
        Some(b) => b,
        None => return None,
    };
    if !distinct_bytes([Some(red), Some(green), Some(blue), None]) {
        return None;
    }
    let alpha = if var.transp.length == 0 {
        None
    } else {
        match byte_aligned_channel(&var.transp, order) {
            Some(b) => Some(b),
            None => return None,
        }
    };
    if !distinct_bytes([Some(red), Some(green), Some(blue), alpha]) {
        return None;
    }
    Some(Fast32ByteAlignedBlit { red, green, blue, alpha })
}

/// Byte `index` of a pixel written in the fast layout `layout`
/// (later channel writes win where positions coincide).
pub open spec fn fast_pixel_byte(
    layout: Fast32ByteAlignedBlit,
    red: u8,
    green: u8,
    blue: u8,
    index: int,
) -> u8 {
    if layout.alpha == Some(index as usize) {
        255
    } else if index == layout.blue {
        blue
    } else if index == layout.green {
        green
    } else if index == layout.red {
        red
    } else {
        0
    }
}

/// Writes one pixel in a fast layout: unused bytes zero, alpha (if any) opaque.
pub fn write_fast_pixel(pixel: &mut [u8], format: Fast32ByteAlignedBlit, color: (u8, u8, u8))
    requires
        old(pixel)@.len() >= 4,
        format.in_pixel(),
    ensures
        final(pixel)@.len() == old(pixel)@.len(),
        forall|i: int|
            0 <= i < final(pixel)@.len() ==> #[trigger] final(pixel)@[i] == if i < 4 {
                fast_pixel_byte(format, color.0, color.1, color.2, i)
            } else {
                old(pixel)@[i]
            },
{
    let (red, green, blue) = color;
    pixel[0] = 0;
    pixel[1] = 0;
    pixel[2] = 0;
    pixel[3] = 0;
    pixel[format.red] = red;
    pixel[format.green] = green;
    pixel[format.blue] = blue;
    if let Some(alpha) = format.alpha {
        pixel[alpha] = 255;
    }
}


proof fn lemma_aligned_pack_channel(value: u8, field: FbBitfield)
    requires
        field.length == 8,
        field.offset % 8 == 0,
        field.offset < 32,
    ensures
        spec_pack_channel(value, field) == (value as u32) << field.offset,
{
    lemma2_to64();
    let offset = field.offset as nat;
    assert(pow2(8) == 256);
    assert((value as int * 255 + 127) / 255 == value as int);
    vstd::arithmetic::power2::lemma_pow2_strictly_increases(offset, 24 + 1);
    assert(pow2(24) == 0x100_0000);
    assert(pow2(25) == 0x200_0000);
    assert(offset <= 24);
    if offset < 24 {
        vstd::arithmetic::power2::lemma_pow2_strictly_increases(offset, 24);
    }
    assert(value as int * pow2(offset) <= 255 * pow2(24)) by (nonlinear_arith)
        requires
            value <= 255,
            pow2(offset) <= pow2(24),
            pow2(offset) > 0,
    ;
    lemma_pow2_pos(offset);
    lemma_u32_shl_is_mul(value as u32, field.offset);
}

proof fn lemma_word_byte_of_channels(
    r: u32,
    g: u32,
    b: u32,
    a: u32,
    or_: u32,
    og: u32,
    ob: u32,
    oa: u32,
    k: u32,
)
    by (bit_vector)
    requires
        r < 256 && g < 256 && b < 256 && a < 256,
        or_ % 8 == 0 && or_ < 32,
        og % 8 == 0 && og < 32,
        ob % 8 == 0 && ob < 32,
        oa % 8 == 0 && oa < 32,
        or_ != og && or_ != ob && og != ob,
        a == 0 || (oa != or_ && oa != og && oa != ob),
        k < 4,
    ensures
        or_ == 8 * k ==> ((((r << or_) | (g << og) | (b << ob) | (a << oa)) >> (8 * k)) & 0xff) == r,
        og == 8 * k ==> ((((r << or_) | (g << og) | (b << ob) | (a << oa)) >> (8 * k)) & 0xff) == g,
        ob == 8 * k ==> ((((r << or_) | (g << og) | (b << ob) | (a << oa)) >> (8 * k)) & 0xff) == b,
        (a != 0 && oa == 8 * k) ==> ((((r << or_) | (g << og) | (b << ob) | (a << oa)) >> (8 * k))
            & 0xff) == a,
        (or_ != 8 * k && og != 8 * k && ob != 8 * k && (a == 0 || oa != 8 * k)) ==> ((((r << or_)
            | (g << og) | (b << ob) | (a << oa)) >> (8 * k)) & 0xff) == 0,
{
}

/// A pixel written by the fast path holds the same bytes as the generic path's packed word:
/// for every layout that `detect_fast_blit_format` accepts and every colour, the four memory
/// bytes of `write_fast_pixel` equal the memory bytes of `pack_color`'s word.
pub proof fn lemma_fast_pixel_matches_packed_color(
    var: FbVarScreeninfo,
    order: ByteOrder,
    red: u8,
    green: u8,
    blue: u8,
)
    requires
        spec_detect_fast_blit_format(var, order) is Some,
    ensures
        forall|k: int|
            0 <= k < 4 ==> #[trigger] fast_pixel_byte(
                spec_detect_fast_blit_format(var, order)->0,
                red,
                green,
                blue,
                k,
            ) == word_byte(spec_pack_color(var, red, green, blue), order, k),
{
    let f = spec_detect_fast_blit_format(var, order)->0;
    lemma_aligned_pack_channel(red, var.red);
    lemma_aligned_pack_channel(green, var.green);
    lemma_aligned_pack_channel(blue, var.blue);
    let alpha_present = var.transp.length != 0;
    let a: u32 = if alpha_present { 255 } else { 0 };
    let oa: u32 = if alpha_present { var.transp.offset } else { 0 };
    if alpha_present {
        lemma_aligned_pack_channel(255, var.transp);
    }
    assert(spec_pack_channel(255, var.transp) == a << oa) by {
        if !alpha_present {
            assert(0u32 << 0u32 == 0) by (bit_vector);
        }
    }
    let word = spec_pack_color(var, red, green, blue);
    assert(word == ((red as u32) << var.red.offset) | ((green as u32) << var.green.offset) | ((
    blue as u32) << var.blue.offset) | (a << oa));
    assert forall|k: int| 0 <= k < 4 implies #[trigger] fast_pixel_byte(f, red, green, blue, k)
        == word_byte(word, order, k) by {
        let kk: u32 = match order {
            ByteOrder::Little => k as u32,
            ByteOrder::Big => (3 - k) as u32,
        };
        lemma_word_byte_of_channels(
            red as u32,
            green as u32,
            blue as u32,
            a,
            var.red.offset,
            var.green.offset,
            var.blue.offset,
            oa,
            kk,
        );
    }
}


/// `s` with the bytes starting at `start` replaced by `piece`.
pub open spec fn overwrite(s: Seq<u8>, start: int, piece: Seq<u8>) -> Seq<u8> {
    s.subrange(0, start) + piece + s.subrange(start + piece.len(), s.len() as int)
}

proof fn lemma_overwrite_adjacent(s: Seq<u8>, start: int, first: Seq<u8>, second: Seq<u8>)
    requires
        0 <= start,
        start + first.len() + second.len() <= s.len(),
    ensures
        overwrite(overwrite(s, start, first), start + first.len(), second) == overwrite(
            s,
            start,
            first + second,
        ),
{
    assert(overwrite(overwrite(s, start, first), start + first.len(), second) =~= overwrite(
        s,
        start,
        first + second,
    ));
}

proof fn lemma_overwrite_empty(s: Seq<u8>, start: int)
    requires
        0 <= start <= s.len(),
    ensures
        overwrite(s, start, Seq::empty()) == s,
{
    assert(overwrite(s, start, Seq::empty()) =~= s);
}

/// The four memory bytes of one source RGBA pixel (at `at`) written in `layout`.
pub open spec fn fast_pixel_bytes(layout: Fast32ByteAlignedBlit, source: Seq<u8>, at: int) -> Seq<
    u8,
> {
    seq![
        fast_pixel_byte(layout, source[at], source[at + 1], source[at + 2], 0),
        fast_pixel_byte(layout, source[at], source[at + 1], source[at + 2], 1),
        fast_pixel_byte(layout, source[at], source[at + 1], source[at + 2], 2),
        fast_pixel_byte(layout, source[at], source[at + 1], source[at + 2], 3),
    ]
}

/// `count` RGBA source pixels starting at `start`, converted to `layout`.
pub open spec fn converted_row(
    layout: Fast32ByteAlignedBlit,
    source: Seq<u8>,
    start: int,
    count: nat,
) -> Seq<u8>
    decreases count,
{
    if count == 0 {
        Seq::empty()
    } else {
        converted_row(layout, source, start, (count - 1) as nat) + fast_pixel_bytes(
            layout,
            source,
            start + 4 * (count - 1),
        )
    }
}

proof fn lemma_converted_row_len(layout: Fast32ByteAlignedBlit, source: Seq<u8>, start: int, count: nat)
    ensures
        converted_row(layout, source, start, count).len() == 4 * count,
    decreases count,
{
    if count > 0 {
        lemma_converted_row_len(layout, source, start, (count - 1) as nat);
    }
}

proof fn lemma_write_four(s: Seq<u8>, at: int, b0: u8, b1: u8, b2: u8, b3: u8)
    requires
        0 <= at,
        at + 4 <= s.len(),
    ensures
        s.update(at, b0).update(at + 1, b1).update(at + 2, b2).update(at + 3, b3) == overwrite(
            s,
            at,
            seq![b0, b1, b2, b3],
        ),
{
    assert(s.update(at, b0).update(at + 1, b1).update(at + 2, b2).update(at + 3, b3) =~= overwrite(
        s,
        at,
        seq![b0, b1, b2, b3],
    ));
}

fn convert_rgba_pixels_to_bgrx_zero_at(
    destination: &mut [u8],
    dst: usize,
    source: &[u8],
    src: usize,
    count: usize,
)
    requires
        dst + 4 * count <= old(destination)@.len(),
        src + 4 * count <= source@.len(),
    ensures
        final(destination)@ == overwrite(
            old(destination)@,
            dst as int,
            converted_row(mode_layout(Fast32BlitMode::BgrxZero), source@, src as int, count as nat),
        ),
{
    let ghost layout = mode_layout(Fast32BlitMode::BgrxZero);
    let source_len = source.len();
    let destination_len = destination.len();
    let mut i: usize = 0;
    proof {
        lemma_overwrite_empty(old(destination)@, dst as int);
    }
    while i < count
        invariant
            layout == mode_layout(Fast32BlitMode::BgrxZero),
            i <= count,
            source@.len() == source_len,
            old(destination)@.len() == destination_len,
            dst + 4 * count <= old(destination)@.len(),
            src + 4 * count <= source@.len(),
            destination@ == overwrite(
                old(destination)@,
                dst as int,
                converted_row(layout, source@, src as int, i as nat),
            ),
        decreases count - i,
    {
        let s: usize = src + 4 * i;
        let d: usize = dst + 4 * i;
        let ghost before = destination@;
        proof {
            lemma_converted_row_len(layout, source@, src as int, i as nat);
        }
        destination[d] = source[s + 2];
        destination[d + 1] = source[s + 1];
        destination[d + 2] = source[s];
        destination[d + 3] = 0;
        proof {
            lemma_write_four(before, d as int, source@[s + 2], source@[s + 1], source@[s as int], 0u8);
            lemma_overwrite_adjacent(
                old(destination)@,
                dst as int,
                converted_row(layout, source@, src as int, i as nat),
                fast_pixel_bytes(layout, source@, s as int),
            );
            assert(fast_pixel_bytes(layout, source@, s as int) =~= seq![source@[s + 2], source@[s + 1], source@[s as int], 0u8]);
        }
        i = i + 1;
    }
}

fn convert_rgba_pixels_to_bgra_opaque_at(
    destination: &mut [u8],
    dst: usize,
    source: &[u8],
    src: usize,
    count: usize,
)
    requires
        dst + 4 * count <= old(destination)@.len(),
        src + 4 * count <= source@.len(),
    ensures
        final(destination)@ == overwrite(
            old(destination)@,
            dst as int,
            converted_row(mode_layout(Fast32BlitMode::BgraOpaque), source@, src as int, count as nat),
        ),
{
    let ghost layout = mode_layout(Fast32BlitMode::BgraOpaque);
    let source_len = source.len();
    let destination_len = destination.len();
    let mut i: usize = 0;
    proof {
        lemma_overwrite_empty(old(destination)@, dst as int);
    }
    while i < count
        invariant
            layout == mode_layout(Fast32BlitMode::BgraOpaque),
            i <= count,
            source@.len() == source_len,
            old(destination)@.len() == destination_len,
            dst + 4 * count <= old(destination)@.len(),
            src + 4 * count <= source@.len(),
            destination@ == overwrite(
                old(destination)@,
                dst as int,
                converted_row(layout, source@, src as int, i as nat),
            ),
        decreases count - i,
    {
        let s: usize = src + 4 * i;
        let d: usize = dst + 4 * i;
        let ghost before = destination@;
        proof {
            lemma_converted_row_len(layout, source@, src as int, i as nat);
        }
        destination[d] = source[s + 2];
        destination[d + 1] = source[s + 1];
        destination[d + 2] = source[s];
        destination[d + 3] = 255;
        proof {
            lemma_write_four(before, d as int, source@[s + 2], source@[s + 1], source@[s as int], 255u8);
            lemma_overwrite_adjacent(
                old(destination)@,
                dst as int,
                converted_row(layout, source@, src as int, i as nat),
                fast_pixel_bytes(layout, source@, s as int),
            );
            assert(fast_pixel_bytes(layout, source@, s as int) =~= seq![source@[s + 2], source@[s + 1], source@[s as int], 255u8]);
        }
        i = i + 1;
    }
}

fn convert_rgba_pixels_to_rgbx_zero_at(
    destination: &mut [u8],
    dst: usize,
    source: &[u8],
    src: usize,
    count: usize,
)
    requires
        dst + 4 * count <= old(destination)@.len(),
        src + 4 * count <= source@.len(),
    ensures
        final(destination)@ == overwrite(
            old(destination)@,
            dst as int,
            converted_row(mode_layout(Fast32BlitMode::RgbxZero), source@, src as int, count as nat),
        ),
{
    let ghost layout = mode_layout(Fast32BlitMode::RgbxZero);
    let source_len = source.len();
    let destination_len = destination.len();
    let mut i: usize = 0;
    proof {
        lemma_overwrite_empty(old(destination)@, dst as int);
    }
    while i < count
        invariant
            layout == mode_layout(Fast32BlitMode::RgbxZero),
            i <= count,
            source@.len() == source_len,
            old(destination)@.len() == destination_len,
            dst + 4 * count <= old(destination)@.len(),
            src + 4 * count <= source@.len(),
            destination@ == overwrite(
                old(destination)@,
                dst as int,
                converted_row(layout, source@, src as int, i as nat),
            ),
        decreases count - i,
    {
        let s: usize = src + 4 * i;
        let d: usize = dst + 4 * i;
        let ghost before = destination@;
        proof {
            lemma_converted_row_len(layout, source@, src as int, i as nat);
        }
        destination[d] = source[s];
        destination[d + 1] = source[s + 1];
        destination[d + 2] = source[s + 2];
        destination[d + 3] = 0;
        proof {
            lemma_write_four(before, d as int, source@[s as int], source@[s + 1], source@[s + 2], 0u8);
            lemma_overwrite_adjacent(
                old(destination)@,
                dst as int,
                converted_row(layout, source@, src as int, i as nat),
                fast_pixel_bytes(layout, source@, s as int),
            );
            assert(fast_pixel_bytes(layout, source@, s as int) =~= seq![source@[s as int], source@[s + 1], source@[s + 2], 0u8]);
        }
        i = i + 1;
    }
}

fn convert_rgba_pixels_to_rgba_opaque_at(
    destination: &mut [u8],
    dst: usize,
    source: &[u8],
    src: usize,
    count: usize,
)
    requires
        dst + 4 * count <= old(destination)@.len(),
        src + 4 * count <= source@.len(),
    ensures
        final(destination)@ == overwrite(
            old(destination)@,
            dst as int,
            converted_row(mode_layout(Fast32BlitMode::RgbaOpaque), source@, src as int, count as nat),
        ),
{
    let ghost layout = mode_layout(Fast32BlitMode::RgbaOpaque);
    let source_len = source.len();
    let destination_len = destination.len();
    let mut i: usize = 0;
    proof {
        lemma_overwrite_empty(old(destination)@, dst as int);
    }
    while i < count
        invariant
            layout == mode_layout(Fast32BlitMode::RgbaOpaque),
            i <= count,
            source@.len() == source_len,
            old(destination)@.len() == destination_len,
            dst + 4 * count <= old(destination)@.len(),
            src + 4 * count <= source@.len(),
            destination@ == overwrite(
                old(destination)@,
                dst as int,
                converted_row(layout, source@, src as int, i as nat),
            ),
        decreases count - i,
    {
        let s: usize = src + 4 * i;
        let d: usize = dst + 4 * i;
        let ghost before = destination@;
        proof {
            lemma_converted_row_len(layout, source@, src as int, i as nat);
        }
        destination[d] = source[s];
        destination[d + 1] = source[s + 1];
        destination[d + 2] = source[s + 2];
        destination[d + 3] = 255;
        proof {
            lemma_write_four(before, d as int, source@[s as int], source@[s + 1], source@[s + 2], 255u8);
            lemma_overwrite_adjacent(
                old(destination)@,
                dst as int,
                converted_row(layout, source@, src as int, i as nat),
                fast_pixel_bytes(layout, source@, s as int),
            );
            assert(fast_pixel_bytes(layout, source@, s as int) =~= seq![source@[s as int], source@[s + 1], source@[s + 2], 255u8]);
        }
        i = i + 1;
    }
}

#[verifier::rlimit(50)]
fn convert_rgba_pixels_to_byte_aligned_at(
    destination: &mut [u8],
    dst: usize,
    source: &[u8],
    src: usize,
    count: usize,
    format: Fast32ByteAlignedBlit,
)
    requires
        dst + 4 * count <= old(destination)@.len(),
        src + 4 * count <= source@.len(),
        format.in_pixel(),
    ensures
        final(destination)@ == overwrite(
            old(destination)@,
            dst as int,
            converted_row(format, source@, src as int, count as nat),
        ),
{
    let source_len = source.len();
    let destination_len = destination.len();
    let mut i: usize = 0;
    proof {
        lemma_overwrite_empty(old(destination)@, dst as int);
    }
    while i < count
        invariant
            i <= count,
            source@.len() == source_len,
            old(destination)@.len() == destination_len,
            format.in_pixel(),
            dst + 4 * count <= old(destination)@.len(),
            src + 4 * count <= source@.len(),
            destination@ == overwrite(
                old(destination)@,
                dst as int,
                converted_row(format, source@, src as int, i as nat),
            ),
        decreases count - i,
    {
        let s: usize = src + 4 * i;
        let d: usize = dst + 4 * i;
        let ghost before = destination@;
        proof {
            lemma_converted_row_len(format, source@, src as int, i as nat);
        }
        destination[d] = 0;
        destination[d + 1] = 0;
        destination[d + 2] = 0;
        destination[d + 3] = 0;
        destination[d + format.red] = source[s];
        destination[d + format.green] = source[s + 1];
        destination[d + format.blue] = source[s + 2];
        if let Some(alpha) = format.alpha {
            destination[d + alpha] = 255;
        }
        proof {
            let bytes = fast_pixel_bytes(format, source@, s as int);
            assert(destination@ =~= overwrite(before, d as int, bytes));
            lemma_overwrite_adjacent(
                old(destination)@,
                dst as int,
                converted_row(format, source@, src as int, i as nat),
                bytes,
            );
        }
        i = i + 1;
    }
}

/// Converts `count` pixels with the mode's converter.
fn convert_rgba_pixels_to_fast32_at(
    destination: &mut [u8],
    dst: usize,
    source: &[u8],
    src: usize,
    count: usize,
    format: Fast32BlitMode,
)
    requires
        dst + 4 * count <= old(destination)@.len(),
        src + 4 * count <= source@.len(),
        mode_layout(format).in_pixel(),
    ensures
        final(destination)@ == overwrite(
            old(destination)@,
            dst as int,
            converted_row(mode_layout(format), source@, src as int, count as nat),
        ),
{
    match format {
        Fast32BlitMode::BgrxZero => convert_rgba_pixels_to_bgrx_zero_at(destination, dst, source, src, count),
        Fast32BlitMode::BgraOpaque => convert_rgba_pixels_to_bgra_opaque_at(destination, dst, source, src, count),
        Fast32BlitMode::RgbxZero => convert_rgba_pixels_to_rgbx_zero_at(destination, dst, source, src, count),
        Fast32BlitMode::RgbaOpaque => convert_rgba_pixels_to_rgba_opaque_at(destination, dst, source, src, count),
        Fast32BlitMode::ByteAligned(layout) => convert_rgba_pixels_to_byte_aligned_at(
            destination,
            dst,
            source,
            src,
            count,
            layout,
        ),
    }
}

/// Number of whole RGBA pixels that both rows hold.
pub open spec fn paired_pixels(destination_len: nat, source_len: nat) -> nat {
    if destination_len / 4 <= source_len / 4 {
        destination_len / 4
    } else {
        source_len / 4
    }
}

fn paired_pixel_count(destination_len: usize, source_len: usize) -> (count: usize)
    ensures
        count == paired_pixels(destination_len as nat, source_len as nat),
        4 * count <= destination_len,
        4 * count <= source_len,
{
    if destination_len / 4 <= source_len / 4 {
        destination_len / 4
    } else {
        source_len / 4
    }
}

/// Converts an RGBA row into the `BgrxZero` layout, pixel by pixel, over the
/// pixels that both rows hold; bytes past them are left as they were.
pub fn convert_rgba_row_to_bgrx_zero(destination: &mut [u8], source: &[u8])
    ensures
        final(destination)@ == overwrite(
            old(destination)@,
            0,
            converted_row(
                mode_layout(Fast32BlitMode::BgrxZero),
                source@,
                0,
                paired_pixels(old(destination)@.len(), source@.len()),
            ),
        ),
{
    let count = paired_pixel_count(destination.len(), source.len());
    convert_rgba_pixels_to_bgrx_zero_at(destination, 0, source, 0, count);
}

/// Converts an RGBA row into the `BgraOpaque` layout, pixel by pixel, over the
/// pixels that both rows hold; bytes past them are left as they were.
pub fn convert_rgba_row_to_bgra_opaque(destination: &mut [u8], source: &[u8])
    ensures
        final(destination)@ == overwrite(
            old(destination)@,
            0,
            converted_row(
                mode_layout(Fast32BlitMode::BgraOpaque),
                source@,
                0,
                paired_pixels(old(destination)@.len(), source@.len()),
            ),
        ),
{
    let count = paired_pixel_count(destination.len(), source.len());
    convert_rgba_pixels_to_bgra_opaque_at(destination, 0, source, 0, count);
}

/// Converts an RGBA row into the `RgbxZero` layout, pixel by pixel, over the
/// pixels that both rows hold; bytes past them are left as they were.
pub fn convert_rgba_row_to_rgbx_zero(destination: &mut [u8], source: &[u8])
    ensures
        final(destination)@ == overwrite(
            old(destination)@,
            0,
            converted_row(
                mode_layout(Fast32BlitMode::RgbxZero),
                source@,
                0,
                paired_pixels(old(destination)@.len(), source@.len()),
            ),
        ),
{
    let count = paired_pixel_count(destination.len(), source.len());
    convert_rgba_pixels_to_rgbx_zero_at(destination, 0, source, 0, count);
}

/// Converts an RGBA row into the `RgbaOpaque` layout, pixel by pixel, over the
/// pixels that both rows hold; bytes past them are left as they were.
pub fn convert_rgba_row_to_rgba_opaque(destination: &mut [u8], source: &[u8])
    ensures
        final(destination)@ == overwrite(
            old(destination)@,
            0,
            converted_row(
                mode_layout(Fast32BlitMode::RgbaOpaque),
                source@,
                0,
                paired_pixels(old(destination)@.len(), source@.len()),
            ),
        ),
{
    let count = paired_pixel_count(destination.len(), source.len());
    convert_rgba_pixels_to_rgba_opaque_at(destination, 0, source, 0, count);
}

/// Converts an RGBA row into an arbitrary byte-aligned layout, over the pixels that
/// both rows hold; bytes past them are left as they were.
pub fn convert_rgba_row_to_byte_aligned(
    destination: &mut [u8],
    source: &[u8],
    format: Fast32ByteAlignedBlit,
)
    requires
        format.in_pixel(),
    ensures
        final(destination)@ == overwrite(
            old(destination)@,
            0,
            converted_row(format, source@, 0, paired_pixels(old(destination)@.len(), source@.len())),
        ),
{
    let count = paired_pixel_count(destination.len(), source.len());
    convert_rgba_pixels_to_byte_aligned_at(destination, 0, source, 0, count, format);
}

/// Converts an RGBA row with the converter of `format`.
pub fn convert_rgba_row_to_fast32(destination: &mut [u8], source: &[u8], format: Fast32BlitMode)
    requires
        mode_layout(format).in_pixel(),
    ensures
        final(destination)@ == overwrite(
            old(destination)@,
            0,
            converted_row(
                mode_layout(format),
                source@,
                0,
                paired_pixels(old(destination)@.len(), source@.len()),
            ),
        ),
{
    match format {
        Fast32BlitMode::BgrxZero => convert_rgba_row_to_bgrx_zero(destination, source),
        Fast32BlitMode::BgraOpaque => convert_rgba_row_to_bgra_opaque(destination, source),
        Fast32BlitMode::RgbxZero => convert_rgba_row_to_rgbx_zero(destination, source),
        Fast32BlitMode::RgbaOpaque => convert_rgba_row_to_rgba_opaque(destination, source),
        Fast32BlitMode::ByteAligned(layout) => {
            convert_rgba_row_to_byte_aligned(destination, source, layout);
        },
    }
}


/// Why a framebuffer computation was refused.
#[derive(Clone, Copy, Debug, PartialEq, Eq)]
pub enum FramebufferError {
    SurfaceSizeMismatch,
    RowOffsetOverflow,
    PixelOffsetOverflow,
    PixelEndOverflow,
    RowPixelOffsetOverflow,
    SurfacePixelOffsetOverflow,
    Fast32NotFourBytesPerPixel,
    Fast32RowByteCountOverflow,
    SurfaceByteCountOverflow,
    SurfacePixelsTruncated,
    Fast32RowEndOverflow,
    Fast32ScanlineEndOverflow,
    SurfaceRowOffsetOverflow,
    SurfaceRowEndOverflow,
    SurfaceRowExceedsPixels,
    MemoryLengthOverflow,
    MemoryLengthZero,
    DimensionsEmpty,
    YOffsetByteOffsetOverflow,
    XOffsetByteOffsetOverflow,
    VisibleBaseOffsetOverflow,
    VisibleRowByteCountOverflow,
    VisibleRowEndOverflow,
    ViewportCrossesScanline,
    ViewportRowByteCountOverflow,
    SnapshotByteCountOverflow,
    SnapshotBytesUsedOverflow,
    ViewportRowOffsetOverflow,
    SnapshotBudgetOverflow,
    SnapshotBudgetExceeded,
    SnapshotRowEndOverflow,
    SnapshotExceedsMemory,
    SnapshotSizeMismatch,
    RestoreRowEndOverflow,
    RestoreSourceOffsetOverflow,
    RestoreSourceEndOverflow,
    RestoreExceedsBuffer,
}

impl FramebufferError {
    /// The human-readable description of the error.
    pub fn message(self) -> (text: &'static str)
        ensures
            text@ == spec_error_message(self),
    {
        match self {
            Self::SurfaceSizeMismatch => "software surface size does not match viewport",
            Self::RowOffsetOverflow => "framebuffer row offset overflow",
            Self::PixelOffsetOverflow => "framebuffer pixel offset overflow",
            Self::PixelEndOverflow => "framebuffer pixel end overflow",
            Self::RowPixelOffsetOverflow => "framebuffer row pixel offset overflow",
            Self::SurfacePixelOffsetOverflow => "software surface pixel offset overflow",
            Self::Fast32NotFourBytesPerPixel => "fast32 framebuffer viewport is not 4 bytes per pixel",
            Self::Fast32RowByteCountOverflow => "fast32 framebuffer row byte count overflow",
            Self::SurfaceByteCountOverflow => "software surface byte count overflow",
            Self::SurfacePixelsTruncated => "software surface pixels are truncated",
            Self::Fast32RowEndOverflow => "fast32 framebuffer row end overflow",
            Self::Fast32ScanlineEndOverflow => "fast32 framebuffer scanline end overflow",
            Self::SurfaceRowOffsetOverflow => "software surface row offset overflow",
            Self::SurfaceRowEndOverflow => "software surface row end overflow",
            Self::SurfaceRowExceedsPixels => "software surface row exceeds pixel buffer",
            Self::MemoryLengthOverflow => "framebuffer computed memory length overflow",
            Self::MemoryLengthZero => "framebuffer memory length is zero",
            Self::DimensionsEmpty => "framebuffer dimensions are empty",
            Self::YOffsetByteOffsetOverflow => "framebuffer yoffset byte offset overflow",
            Self::XOffsetByteOffsetOverflow => "framebuffer xoffset byte offset overflow",
            Self::VisibleBaseOffsetOverflow => "framebuffer visible base offset overflow",
            Self::VisibleRowByteCountOverflow => "framebuffer visible row byte count overflow",
            Self::VisibleRowEndOverflow => "framebuffer visible row end overflow",
            Self::ViewportCrossesScanline => "framebuffer visible viewport crosses scanline boundary",
            Self::ViewportRowByteCountOverflow => "framebuffer viewport row byte count overflow",
            Self::SnapshotByteCountOverflow => "framebuffer snapshot byte count overflow",
            Self::SnapshotBytesUsedOverflow => "framebuffer snapshot bytes used overflow",
            Self::ViewportRowOffsetOverflow => "framebuffer viewport row offset overflow",
            Self::SnapshotBudgetOverflow => "framebuffer snapshot budget overflow",
            Self::SnapshotBudgetExceeded => "framebuffer snapshot budget exceeded",
            Self::SnapshotRowEndOverflow => "framebuffer snapshot row end overflow",
            Self::SnapshotExceedsMemory => "framebuffer snapshot exceeds mmap length",
            Self::SnapshotSizeMismatch => "framebuffer snapshot size does not match viewport",
            Self::RestoreRowEndOverflow => "framebuffer restore row end overflow",
            Self::RestoreSourceOffsetOverflow => "framebuffer restore source offset overflow",
            Self::RestoreSourceEndOverflow => "framebuffer restore source end overflow",
            Self::RestoreExceedsBuffer => "framebuffer restore exceeds buffer length",
        }
    }
}

/// Text of each error.
pub open spec fn spec_error_message(error: FramebufferError) -> Seq<char> {
    match error {
        FramebufferError::SurfaceSizeMismatch => "software surface size does not match viewport"@,
        FramebufferError::RowOffsetOverflow => "framebuffer row offset overflow"@,
        FramebufferError::PixelOffsetOverflow => "framebuffer pixel offset overflow"@,
        FramebufferError::PixelEndOverflow => "framebuffer pixel end overflow"@,
        FramebufferError::RowPixelOffsetOverflow => "framebuffer row pixel offset overflow"@,
        FramebufferError::SurfacePixelOffsetOverflow => "software surface pixel offset overflow"@,
        FramebufferError::Fast32NotFourBytesPerPixel => "fast32 framebuffer viewport is not 4 bytes per pixel"@,
        FramebufferError::Fast32RowByteCountOverflow => "fast32 framebuffer row byte count overflow"@,
        FramebufferError::SurfaceByteCountOverflow => "software surface byte count overflow"@,
        FramebufferError::SurfacePixelsTruncated => "software surface pixels are truncated"@,
        FramebufferError::Fast32RowEndOverflow => "fast32 framebuffer row end overflow"@,
        FramebufferError::Fast32ScanlineEndOverflow => "fast32 framebuffer scanline end overflow"@,
        FramebufferError::SurfaceRowOffsetOverflow => "software surface row offset overflow"@,
        FramebufferError::SurfaceRowEndOverflow => "software surface row end overflow"@,
        FramebufferError::SurfaceRowExceedsPixels => "software surface row exceeds pixel buffer"@,
        FramebufferError::MemoryLengthOverflow => "framebuffer computed memory length overflow"@,
        FramebufferError::MemoryLengthZero => "framebuffer memory length is zero"@,
        FramebufferError::DimensionsEmpty => "framebuffer dimensions are empty"@,
        FramebufferError::YOffsetByteOffsetOverflow => "framebuffer yoffset byte offset overflow"@,
        FramebufferError::XOffsetByteOffsetOverflow => "framebuffer xoffset byte offset overflow"@,
        FramebufferError::VisibleBaseOffsetOverflow => "framebuffer visible base offset overflow"@,
        FramebufferError::VisibleRowByteCountOverflow => "framebuffer visible row byte count overflow"@,
        FramebufferError::VisibleRowEndOverflow => "framebuffer visible row end overflow"@,
        FramebufferError::ViewportCrossesScanline => "framebuffer visible viewport crosses scanline boundary"@,
        FramebufferError::ViewportRowByteCountOverflow => "framebuffer viewport row byte count overflow"@,
        FramebufferError::SnapshotByteCountOverflow => "framebuffer snapshot byte count overflow"@,
        FramebufferError::SnapshotBytesUsedOverflow => "framebuffer snapshot bytes used overflow"@,
        FramebufferError::ViewportRowOffsetOverflow => "framebuffer viewport row offset overflow"@,
        FramebufferError::SnapshotBudgetOverflow => "framebuffer snapshot budget overflow"@,
        FramebufferError::SnapshotBudgetExceeded => "framebuffer snapshot budget exceeded"@,
        FramebufferError::SnapshotRowEndOverflow => "framebuffer snapshot row end overflow"@,
        FramebufferError::SnapshotExceedsMemory => "framebuffer snapshot exceeds mmap length"@,
        FramebufferError::SnapshotSizeMismatch => "framebuffer snapshot size does not match viewport"@,
        FramebufferError::RestoreRowEndOverflow => "framebuffer restore row end overflow"@,
        FramebufferError::RestoreSourceOffsetOverflow => "framebuffer restore source offset overflow"@,
        FramebufferError::RestoreSourceEndOverflow => "framebuffer restore source end overflow"@,
        FramebufferError::RestoreExceedsBuffer => "framebuffer restore exceeds buffer length"@,
    }
}

/// An RGBA8888 image rendered in software.
#[derive(Clone, Debug, PartialEq, Eq)]
pub struct SoftwareSurface {
    pub width: usize,
    pub height: usize,
    pub pixels: Vec<u8>,
}

impl SoftwareSurface {
    /// Holds exactly `width * height` RGBA pixels.
    pub open spec fn well_formed(&self) -> bool {
        self.pixels@.len() == self.width * self.height * 4
    }
}

/// The part of the framebuffer memory that the screen shows.
#[derive(Clone, Copy, Debug, PartialEq, Eq, Structural)]
pub struct VisibleViewport {
    pub xoffset: u32,
    pub yoffset: u32,
    pub width: usize,
    pub height: usize,
    pub line_length: usize,
    pub bytes_per_pixel: usize,
    pub x_offset_bytes: usize,
    pub base_offset: usize,
}

/// Memory offset of the first visible byte of row `y`.
pub open spec fn row_start(v: VisibleViewport, y: int) -> int {
    v.base_offset + y * v.line_length
}

/// A whole fast row lies inside the memory and inside its scanline.
pub open spec fn fast_row_fits(v: VisibleViewport, len: nat, y: int) -> bool {
    &&& row_start(v, y) + 4 * v.width <= len
    &&& v.x_offset_bytes + 4 * v.width <= v.line_length
}

/// Memory after the fast path has copied rows `0..n`.
pub open spec fn fast_rows(
    p: Seq<u8>,
    source: Seq<u8>,
    source_width: nat,
    v: VisibleViewport,
    layout: Fast32ByteAlignedBlit,
    n: nat,
) -> Seq<u8>
    decreases n,
{
    if n == 0 {
        p
    } else {
        let q = fast_rows(p, source, source_width, v, layout, (n - 1) as nat);
        let y = n - 1;
        if fast_row_fits(v, p.len(), y) {
            overwrite(
                q,
                row_start(v, y),
                converted_row(layout, source, y * source_width * 4, v.width as nat),
            )
        } else {
            q
        }
    }
}

/// Row `y` of the fast path neither overflows nor reads past the surface.
pub open spec fn fast32_row_succeeds(len: nat, surface: SoftwareSurface, v: VisibleViewport, y: int) -> bool {
    &&& y * v.line_length <= usize::MAX
    &&& row_start(v, y) <= usize::MAX
    &&& row_start(v, y) + 4 * v.width <= usize::MAX
    &&& v.x_offset_bytes + 4 * v.width <= usize::MAX
    &&& fast_row_fits(v, len, y) ==> {
        &&& y * surface.width <= usize::MAX
        &&& y * surface.width * 4 <= usize::MAX
        &&& y * surface.width * 4 + 4 * v.width <= usize::MAX
        &&& y * surface.width * 4 + 4 * v.width <= surface.pixels@.len()
    }
}

/// The checks the fast path makes before its first row pass.
pub open spec fn fast32_prechecks_pass(surface: SoftwareSurface, v: VisibleViewport) -> bool {
    &&& v.bytes_per_pixel == 4
    &&& v.width * 4 <= usize::MAX
    &&& surface.width * surface.height <= usize::MAX
    &&& surface.width * surface.height * 4 <= usize::MAX
    &&& surface.width * surface.height * 4 <= surface.pixels@.len()
}

/// The fast path completes without error.
pub open spec fn fast32_blit_succeeds(len: nat, surface: SoftwareSurface, v: VisibleViewport) -> bool {
    &&& fast32_prechecks_pass(surface, v)
    &&& forall|y: int| 0 <= y < v.height ==> #[trigger] fast32_row_succeeds(len, surface, v, y)
}

/// The error that row `y` of the fast path reports when it fails.
pub open spec fn fast32_row_error(len: nat, surface: SoftwareSurface, v: VisibleViewport, y: int) -> FramebufferError {
    if y * v.line_length > usize::MAX || row_start(v, y) > usize::MAX {
        FramebufferError::ViewportRowOffsetOverflow
    } else if row_start(v, y) + 4 * v.width > usize::MAX {
        FramebufferError::Fast32RowEndOverflow
    } else if v.x_offset_bytes + 4 * v.width > usize::MAX {
        FramebufferError::Fast32ScanlineEndOverflow
    } else if y * surface.width > usize::MAX || y * surface.width * 4 > usize::MAX {
        FramebufferError::SurfaceRowOffsetOverflow
    } else if y * surface.width * 4 + 4 * v.width > usize::MAX {
        FramebufferError::SurfaceRowEndOverflow
    } else {
        FramebufferError::SurfaceRowExceedsPixels
    }
}

/// The first row, from the top, on which the fast path fails.
pub open spec fn first_failing_fast32_row(len: nat, surface: SoftwareSurface, v: VisibleViewport) -> int {
    choose|y: int|
        0 <= y < v.height && !fast32_row_succeeds(len, surface, v, y) && forall|k: int|
            0 <= k < y ==> #[trigger] fast32_row_succeeds(len, surface, v, k)
}

/// The error that the fast path reports when it fails.
pub open spec fn fast32_blit_error(len: nat, surface: SoftwareSurface, v: VisibleViewport) -> FramebufferError {
    if v.bytes_per_pixel != 4 {
        FramebufferError::Fast32NotFourBytesPerPixel
    } else if v.width * 4 > usize::MAX {
        FramebufferError::Fast32RowByteCountOverflow
    } else if surface.width * surface.height > usize::MAX || surface.width * surface.height * 4
        > usize::MAX {
        FramebufferError::SurfaceByteCountOverflow
    } else if surface.width * surface.height * 4 > surface.pixels@.len() {
        FramebufferError::SurfacePixelsTruncated
    } else {
        fast32_row_error(len, surface, v, first_failing_fast32_row(len, surface, v))
    }
}

proof fn lemma_first_failing_fast32_row(len: nat, surface: SoftwareSurface, v: VisibleViewport, y: int)
    requires
        0 <= y < v.height,
        !fast32_row_succeeds(len, surface, v, y),
        forall|k: int| 0 <= k < y ==> #[trigger] fast32_row_succeeds(len, surface, v, k),
    ensures
        first_failing_fast32_row(len, surface, v) == y,
{
    let w = first_failing_fast32_row(len, surface, v);
    assert(0 <= w < v.height && !fast32_row_succeeds(len, surface, v, w) && forall|k: int|
        0 <= k < w ==> #[trigger] fast32_row_succeeds(len, surface, v, k));
    if w < y {
        assert(fast32_row_succeeds(len, surface, v, w));
    } else if w > y {
        assert(fast32_row_succeeds(len, surface, v, y));
    }
}

proof fn lemma_overwrite_len(s: Seq<u8>, start: int, piece: Seq<u8>)
    requires
        0 <= start,
        start + piece.len() <= s.len(),
    ensures
        overwrite(s, start, piece).len() == s.len(),
{
}

proof fn lemma_fast_rows_len(
    p: Seq<u8>,
    source: Seq<u8>,
    source_width: nat,
    v: VisibleViewport,
    layout: Fast32ByteAlignedBlit,
    n: nat,
)
    ensures
        fast_rows(p, source, source_width, v, layout, n).len() == p.len(),
    decreases n,
{
    if n > 0 {
        lemma_fast_rows_len(p, source, source_width, v, layout, (n - 1) as nat);
        lemma_converted_row_len(layout, source, (n - 1) * source_width * 4, v.width as nat);
        assert(0 <= row_start(v, n - 1)) by (nonlinear_arith)
            requires n >= 1, v.base_offset >= 0, v.line_length >= 0;
    }
}

/// Offset of the first visible byte of row `y`.
pub fn viewport_row_offset(viewport: &VisibleViewport, y: usize) -> (r: Result<usize, FramebufferError>)
    ensures
        r == if y * viewport.line_length <= usize::MAX && row_start(*viewport, y as int) <= usize::MAX {
            Ok(row_start(*viewport, y as int) as usize)
        } else {
            Err::<usize, FramebufferError>(FramebufferError::ViewportRowOffsetOverflow)
        },
{
    match y.checked_mul(viewport.line_length) {
        Some(offset) => match viewport.base_offset.checked_add(offset) {
            Some(start) => Ok(start),
            None => Err(FramebufferError::ViewportRowOffsetOverflow),
        },
        None => {
            assert(y * viewport.line_length > usize::MAX);
            Err(FramebufferError::ViewportRowOffsetOverflow)
        },
    }
}

fn fast_row_bounds(viewport: &VisibleViewport, y: usize, row_bytes: usize) -> (r: Result<
    (usize, usize, usize),
    FramebufferError,
>)
    requires
        row_bytes == viewport.width * 4,
    ensures
        r is Ok <==> {
            &&& y * viewport.line_length <= usize::MAX
            &&& row_start(*viewport, y as int) <= usize::MAX
            &&& row_start(*viewport, y as int) + row_bytes <= usize::MAX
            &&& viewport.x_offset_bytes + row_bytes <= usize::MAX
        },
        r matches Err(e) ==> e == if y * viewport.line_length > usize::MAX || row_start(
            *viewport,
            y as int,
        ) > usize::MAX {
            FramebufferError::ViewportRowOffsetOverflow
        } else if row_start(*viewport, y as int) + row_bytes > usize::MAX {
            FramebufferError::Fast32RowEndOverflow
        } else {
            FramebufferError::Fast32ScanlineEndOverflow
        },
        r matches Ok((start, end, scan_end)) ==> {
            &&& start == row_start(*viewport, y as int)
            &&& end == start + row_bytes
            &&& scan_end == viewport.x_offset_bytes + row_bytes
        },
{
    let start = match viewport_row_offset(viewport, y) {
        Ok(offset) => offset,
        Err(e) => return Err(e),
    };
    let end = match start.checked_add(row_bytes) {
        Some(end) => end,
        None => return Err(FramebufferError::Fast32RowEndOverflow),
    };
    let scan_end = match viewport.x_offset_bytes.checked_add(row_bytes) {
        Some(end) => end,
        None => return Err(FramebufferError::Fast32ScanlineEndOverflow),
    };
    Ok((start, end, scan_end))
}

fn blit_fast32_row(
    pixels: &mut [u8],
    surface: &SoftwareSurface,
    viewport: &VisibleViewport,
    format: Fast32BlitMode,
    y: usize,
    row_bytes: usize,
) -> (r: Result<(), FramebufferError>)
    requires
        mode_layout(format).in_pixel(),
        row_bytes == viewport.width * 4,
    ensures
        final(pixels)@.len() == old(pixels)@.len(),
        r is Ok <==> fast32_row_succeeds(old(pixels)@.len(), *surface, *viewport, y as int),
        r matches Err(e) ==> e == fast32_row_error(old(pixels)@.len(), *surface, *viewport, y as int),
        r is Err ==> final(pixels)@ == old(pixels)@,
        r is Ok ==> final(pixels)@ == if fast_row_fits(*viewport, old(pixels)@.len(), y as int) {
            overwrite(
                old(pixels)@,
                row_start(*viewport, y as int),
                converted_row(
                    mode_layout(format),
                    surface.pixels@,
                    y * surface.width * 4,
                    viewport.width as nat,
                ),
            )
        } else {
            old(pixels)@
        },
{
    let ghost len = old(pixels)@.len();
    let pixels_len = pixels.len();
    let (framebuffer_row_start, framebuffer_row_end, row_scanline_end) = match fast_row_bounds(
        viewport,
        y,
        row_bytes,
    ) {
        Ok(bounds) => bounds,
        Err(e) => return Err(e),
    };
    if framebuffer_row_end > pixels_len || row_scanline_end > viewport.line_length {
        return Ok(());
    }
    let source_row_offset = match y.checked_mul(surface.width) {
        Some(o) => o,
        None => return Err(FramebufferError::SurfaceRowOffsetOverflow),
    };
    let source_row_start = match source_row_offset.checked_mul(4) {
        Some(o) => o,
        None => return Err(FramebufferError::SurfaceRowOffsetOverflow),
    };
    let source_row_end = match source_row_start.checked_add(row_bytes) {
        Some(e) => e,
        None => return Err(FramebufferError::SurfaceRowEndOverflow),
    };
    if source_row_end > surface.pixels.len() {
        return Err(FramebufferError::SurfaceRowExceedsPixels);
    }
    convert_rgba_pixels_to_fast32_at(
        pixels,
        framebuffer_row_start,
        surface.pixels.as_slice(),
        source_row_start,
        viewport.width,
        format,
    );
    proof {
        lemma_converted_row_len(
            mode_layout(format),
            surface.pixels@,
            source_row_start as int,
            viewport.width as nat,
        );
    }
    Ok(())
}

/// Copies the surface into 32-bit framebuffer memory row by row with a fast converter.
/// Rows that do not lie wholly inside the memory and their scanline are left untouched.
pub fn blit_fast32_rows(
    pixels: &mut [u8],
    surface: &SoftwareSurface,
    viewport: &VisibleViewport,
    format: Fast32BlitMode,
) -> (r: Result<(), FramebufferError>)
    requires
        mode_layout(format).in_pixel(),
    ensures
        final(pixels)@.len() == old(pixels)@.len(),
        r is Ok <==> fast32_blit_succeeds(old(pixels)@.len(), *surface, *viewport),
        r matches Err(e) ==> e == fast32_blit_error(old(pixels)@.len(), *surface, *viewport),
        r is Err && !fast32_prechecks_pass(*surface, *viewport) ==> final(pixels)@ == old(pixels)@,
        r is Err && fast32_prechecks_pass(*surface, *viewport) ==> final(pixels)@ == fast_rows(
            old(pixels)@,
            surface.pixels@,
            surface.width as nat,
            *viewport,
            mode_layout(format),
            first_failing_fast32_row(old(pixels)@.len(), *surface, *viewport) as nat,
        ),
        r is Ok ==> final(pixels)@ == fast_rows(
            old(pixels)@,
            surface.pixels@,
            surface.width as nat,
            *viewport,
            mode_layout(format),
            viewport.height as nat,
        ),
{
    let ghost len = old(pixels)@.len();
    if viewport.bytes_per_pixel != 4 {
        return Err(FramebufferError::Fast32NotFourBytesPerPixel);
    }
    let row_bytes = match viewport.width.checked_mul(4) {
        Some(b) => b,
        None => return Err(FramebufferError::Fast32RowByteCountOverflow),
    };
    let area = match surface.width.checked_mul(surface.height) {
        Some(a) => a,
        None => return Err(FramebufferError::SurfaceByteCountOverflow),
    };
    let source_len = match area.checked_mul(4) {
        Some(l) => l,
        None => return Err(FramebufferError::SurfaceByteCountOverflow),
    };
    if source_len > surface.pixels.len() {
        return Err(FramebufferError::SurfacePixelsTruncated);
    }
    let mut y: usize = 0;
    let mut failure: Option<FramebufferError> = None;
    while y < viewport.height && failure.is_none()
        invariant
            y <= viewport.height,
            len == old(pixels)@.len(),
            pixels@.len() == len,
            row_bytes == viewport.width * 4,
            viewport.bytes_per_pixel == 4,
            mode_layout(format).in_pixel(),
            pixels@ == fast_rows(
                old(pixels)@,
                surface.pixels@,
                surface.width as nat,
                *viewport,
                mode_layout(format),
                y as nat,
            ),
            failure is Some ==> y < viewport.height && !fast32_row_succeeds(len, *surface, *viewport, y as int)
                && failure == Some(fast32_row_error(len, *surface, *viewport, y as int)),
            viewport.width * 4 <= usize::MAX,
            surface.width * surface.height <= usize::MAX,
            surface.width * surface.height * 4 <= usize::MAX,
            surface.width * surface.height * 4 <= surface.pixels@.len(),
            forall|k: int| 0 <= k < y ==> #[trigger] fast32_row_succeeds(len, *surface, *viewport, k),
        decreases viewport.height - y, if failure is None { 1int } else { 0int },
    {
        let ghost before = pixels@;
        assert(before == fast_rows(
            old(pixels)@,
            surface.pixels@,
            surface.width as nat,
            *viewport,
            mode_layout(format),
            y as nat,
        ));
        match blit_fast32_row(pixels, surface, viewport, format, y, row_bytes) {
            Ok(()) => {
                proof {
                    assert(before.len() == old(pixels)@.len());
                    if fast_row_fits(*viewport, before.len(), y as int) {
                        assert(pixels@ == overwrite(before, row_start(*viewport, y as int), converted_row(mode_layout(format), surface.pixels@, y * surface.width * 4, viewport.width as nat)));
                    } else {
                        assert(pixels@ == before);
                    }
                }
                assert(pixels@ == fast_rows(
                    old(pixels)@,
                    surface.pixels@,
                    surface.width as nat,
                    *viewport,
                    mode_layout(format),
                    (y + 1) as nat,
                ));
                y = y + 1;
            },
            Err(e) => {
                failure = Some(e);
            },
        }
    }
    if let Some(e) = failure {
        proof {
            lemma_first_failing_fast32_row(len, *surface, *viewport, y as int);
        }
        return Err(e);
    }
    assert(fast32_blit_succeeds(len, *surface, *viewport));
    Ok(())
}


/// The first `count` memory bytes of `word` stored with `order`.
pub open spec fn word_prefix(word: u32, order: ByteOrder, count: nat) -> Seq<u8> {
    Seq::new(count, |k: int| word_byte(word, order, k))
}

/// Packed word of source pixel `(x, y)` of a surface `source_width` pixels wide.
pub open spec fn generic_pixel_word(
    var: FbVarScreeninfo,
    source: Seq<u8>,
    source_width: nat,
    y: int,
    x: int,
) -> u32 {
    let at = (y * source_width + x) * 4;
    spec_pack_color(var, source[at], source[at + 1], source[at + 2])
}

/// Pixel `x` of row `y` lies inside the memory and inside its scanline.
pub open spec fn generic_pixel_fits(v: VisibleViewport, len: nat, y: int, x: int) -> bool {
    &&& row_start(v, y) + x * v.bytes_per_pixel + v.bytes_per_pixel <= len
    &&& v.x_offset_bytes + x * v.bytes_per_pixel + v.bytes_per_pixel <= v.line_length
}

/// Memory after the generic path has written pixels `0..n` of row `y`.
pub open spec fn generic_row(
    p: Seq<u8>,
    source: Seq<u8>,
    source_width: nat,
    v: VisibleViewport,
    var: FbVarScreeninfo,
    order: ByteOrder,
    y: int,
    n: nat,
) -> Seq<u8>
    decreases n,
{
    if n == 0 {
        p
    } else {
        let q = generic_row(p, source, source_width, v, var, order, y, (n - 1) as nat);
        let x = n - 1;
        if generic_pixel_fits(v, p.len(), y, x) {
            overwrite(
                q,
                row_start(v, y) + x * v.bytes_per_pixel,
                word_prefix(
                    generic_pixel_word(var, source, source_width, y, x),
                    order,
                    v.bytes_per_pixel as nat,
                ),
            )
        } else {
            q
        }
    }
}

/// Memory after the generic path has written rows `0..n`.
pub open spec fn generic_rows(
    p: Seq<u8>,
    source: Seq<u8>,
    source_width: nat,
    v: VisibleViewport,
    var: FbVarScreeninfo,
    order: ByteOrder,
    n: nat,
) -> Seq<u8>
    decreases n,
{
    if n == 0 {
        p
    } else {
        generic_row(
            generic_rows(p, source, source_width, v, var, order, (n - 1) as nat),
            source,
            source_width,
            v,
            var,
            order,
            n - 1,
            v.width as nat,
        )
    }
}

/// Pixel `x` of row `y` of the generic path computes its offsets without overflow.
pub open spec fn generic_pixel_succeeds(
    len: nat,
    surface: SoftwareSurface,
    v: VisibleViewport,
    y: int,
    x: int,
) -> bool {
    &&& x * v.bytes_per_pixel <= usize::MAX
    &&& row_start(v, y) + x * v.bytes_per_pixel <= usize::MAX
    &&& row_start(v, y) + x * v.bytes_per_pixel + v.bytes_per_pixel <= usize::MAX
    &&& v.x_offset_bytes + x * v.bytes_per_pixel <= usize::MAX
    &&& v.x_offset_bytes + x * v.bytes_per_pixel + v.bytes_per_pixel <= usize::MAX
}

/// Row `y` of the generic path computes its offsets without overflow.
pub open spec fn generic_row_succeeds(len: nat, surface: SoftwareSurface, v: VisibleViewport, y: int) -> bool {
    &&& y * v.line_length <= usize::MAX
    &&& row_start(v, y) <= usize::MAX
    &&& forall|x: int| 0 <= x < v.width ==> #[trigger] generic_pixel_succeeds(len, surface, v, y, x)
}

/// The generic path completes without error.
pub open spec fn generic_blit_succeeds(len: nat, surface: SoftwareSurface, v: VisibleViewport) -> bool {
    forall|y: int| 0 <= y < v.height ==> #[trigger] generic_row_succeeds(len, surface, v, y)
}

/// The error that pixel `(x, y)` of the generic path reports when it fails.
pub open spec fn generic_pixel_error(v: VisibleViewport, y: int, x: int) -> FramebufferError {
    if x * v.bytes_per_pixel > usize::MAX || row_start(v, y) + x * v.bytes_per_pixel > usize::MAX {
        FramebufferError::PixelOffsetOverflow
    } else if row_start(v, y) + x * v.bytes_per_pixel + v.bytes_per_pixel > usize::MAX {
        FramebufferError::PixelEndOverflow
    } else {
        FramebufferError::RowPixelOffsetOverflow
    }
}

/// The first pixel of row `y`, from the left, on which the generic path fails.
pub open spec fn first_failing_generic_pixel(
    len: nat,
    surface: SoftwareSurface,
    v: VisibleViewport,
    y: int,
) -> int {
    choose|x: int|
        0 <= x < v.width && !generic_pixel_succeeds(len, surface, v, y, x) && forall|k: int|
            0 <= k < x ==> #[trigger] generic_pixel_succeeds(len, surface, v, y, k)
}

/// The error that row `y` of the generic path reports when it fails.
pub open spec fn generic_row_error(len: nat, surface: SoftwareSurface, v: VisibleViewport, y: int) -> FramebufferError {
    if y * v.line_length > usize::MAX || row_start(v, y) > usize::MAX {
        FramebufferError::RowOffsetOverflow
    } else {
        generic_pixel_error(v, y, first_failing_generic_pixel(len, surface, v, y))
    }
}

/// Memory after row `y` of the generic path has failed: the pixels before
/// the failing one are written, or none when the row's offset overflows.
pub open spec fn generic_failed_row(
    p: Seq<u8>,
    surface: SoftwareSurface,
    v: VisibleViewport,
    var: FbVarScreeninfo,
    order: ByteOrder,
    len: nat,
    y: int,
) -> Seq<u8> {
    if y * v.line_length > usize::MAX || row_start(v, y) > usize::MAX {
        p
    } else {
        generic_row(
            p,
            surface.pixels@,
            surface.width as nat,
            v,
            var,
            order,
            y,
            first_failing_generic_pixel(len, surface, v, y) as nat,
        )
    }
}

/// The first row, from the top, on which the generic path fails.
pub open spec fn first_failing_generic_row(len: nat, surface: SoftwareSurface, v: VisibleViewport) -> int {
    choose|y: int|
        0 <= y < v.height && !generic_row_succeeds(len, surface, v, y) && forall|k: int|
            0 <= k < y ==> #[trigger] generic_row_succeeds(len, surface, v, k)
}

/// The error that the generic path reports when it fails.
pub open spec fn generic_blit_error(len: nat, surface: SoftwareSurface, v: VisibleViewport) -> FramebufferError {
    generic_row_error(len, surface, v, first_failing_generic_row(len, surface, v))
}

proof fn lemma_first_failing_generic_pixel(
    len: nat,
    surface: SoftwareSurface,
    v: VisibleViewport,
    y: int,
    x: int,
)
    requires
        0 <= x < v.width,
        !generic_pixel_succeeds(len, surface, v, y, x),
        forall|k: int| 0 <= k < x ==> #[trigger] generic_pixel_succeeds(len, surface, v, y, k),
    ensures
        first_failing_generic_pixel(len, surface, v, y) == x,
{
    let w = first_failing_generic_pixel(len, surface, v, y);
    assert(0 <= w < v.width && !generic_pixel_succeeds(len, surface, v, y, w) && forall|k: int|
        0 <= k < w ==> #[trigger] generic_pixel_succeeds(len, surface, v, y, k));
    if w < x {
        assert(generic_pixel_succeeds(len, surface, v, y, w));
    } else if w > x {
        assert(generic_pixel_succeeds(len, surface, v, y, x));
    }
}

proof fn lemma_first_failing_generic_row(len: nat, surface: SoftwareSurface, v: VisibleViewport, y: int)
    requires
        0 <= y < v.height,
        !generic_row_succeeds(len, surface, v, y),
        forall|k: int| 0 <= k < y ==> #[trigger] generic_row_succeeds(len, surface, v, k),
    ensures
        first_failing_generic_row(len, surface, v) == y,
{
    let w = first_failing_generic_row(len, surface, v);
    assert(0 <= w < v.height && !generic_row_succeeds(len, surface, v, w) && forall|k: int|
        0 <= k < w ==> #[trigger] generic_row_succeeds(len, surface, v, k));
    if w < y {
        assert(generic_row_succeeds(len, surface, v, w));
    } else if w > y {
        assert(generic_row_succeeds(len, surface, v, y));
    }
}

fn write_pixel_at(pixels: &mut [u8], at: usize, bytes_per_pixel: usize, packed: u32, order: ByteOrder)
    requires
        bytes_per_pixel <= 4,
        at + bytes_per_pixel <= old(pixels)@.len(),
    ensures
        final(pixels)@ == overwrite(
            old(pixels)@,
            at as int,
            word_prefix(packed, order, bytes_per_pixel as nat),
        ),
{
    let bytes: [u8; 4] = match order {
        ByteOrder::Little => [
            (packed & 0xff) as u8,
            ((packed >> 8u32) & 0xff) as u8,
            ((packed >> 16u32) & 0xff) as u8,
            ((packed >> 24u32) & 0xff) as u8,
        ],
        ByteOrder::Big => [
            ((packed >> 24u32) & 0xff) as u8,
            ((packed >> 16u32) & 0xff) as u8,
            ((packed >> 8u32) & 0xff) as u8,
            (packed & 0xff) as u8,
        ],
    };
    assert(packed >> 0u32 == packed) by (bit_vector);
    let ghost len = old(pixels)@.len();
    let pixels_len = pixels.len();
    let mut i: usize = 0;
    while i < bytes_per_pixel
        invariant
            i <= bytes_per_pixel,
            bytes_per_pixel <= 4,
            len == old(pixels)@.len(),
            at + bytes_per_pixel <= len,
            pixels_len == len,
            pixels@.len() == len,
            forall|k: int| 0 <= k < 4 ==> #[trigger] bytes[k] == word_byte(packed, order, k),
            pixels@ == overwrite(old(pixels)@, at as int, word_prefix(packed, order, i as nat)),
        decreases bytes_per_pixel - i,
    {
        let ghost before = pixels@;
        pixels[at + i] = bytes[i];
        assert(pixels@ =~= overwrite(old(pixels)@, at as int, word_prefix(packed, order, (i + 1) as nat)));
        i = i + 1;
    }
}

proof fn lemma_source_pixel_in_range(sw: nat, sh: nat, y: nat, x: nat)
    requires
        y < sh,
        x < sw,
    ensures
        (y * sw + x) * 4 + 3 < sw * sh * 4,
        y * sw + x < sw * sh,
{
    assert(y * sw + x < sw * sh) by (nonlinear_arith)
        requires y < sh, x < sw;
    assert((y * sw + x) * 4 + 3 < sw * sh * 4) by (nonlinear_arith)
        requires y * sw + x < sw * sh;
}

fn blit_generic_row(
    pixels: &mut [u8],
    surface: &SoftwareSurface,
    viewport: &VisibleViewport,
    var: &FbVarScreeninfo,
    order: ByteOrder,
    y: usize,
) -> (r: Result<(), FramebufferError>)
    requires
        surface.well_formed(),
        surface.width == viewport.width,
        surface.height == viewport.height,
        y < viewport.height,
        viewport.bytes_per_pixel <= 4,
    ensures
        final(pixels)@.len() == old(pixels)@.len(),
        r is Ok <==> generic_row_succeeds(old(pixels)@.len(), *surface, *viewport, y as int),
        r matches Err(e) ==> e == generic_row_error(old(pixels)@.len(), *surface, *viewport, y as int),
        r is Err ==> final(pixels)@ == generic_failed_row(
            old(pixels)@,
            *surface,
            *viewport,
            *var,
            order,
            old(pixels)@.len(),
            y as int,
        ),
        r is Ok ==> final(pixels)@ == generic_row(
            old(pixels)@,
            surface.pixels@,
            surface.width as nat,
            *viewport,
            *var,
            order,
            y as int,
            viewport.width as nat,
        ),
{
    let ghost len = old(pixels)@.len();
    let pixels_len = pixels.len();
    let surface_len = surface.pixels.len();
    let bpp = viewport.bytes_per_pixel;
    let row_offset = match y.checked_mul(viewport.line_length) {
        Some(offset) => match viewport.base_offset.checked_add(offset) {
            Some(start) => start,
            None => return Err(FramebufferError::RowOffsetOverflow),
        },
        None => return Err(FramebufferError::RowOffsetOverflow),
    };
    let mut x: usize = 0;
    while x < viewport.width
        invariant
            x <= viewport.width,
            len == old(pixels)@.len(),
            pixels_len == len,
            pixels@.len() == len,
            surface_len == surface.pixels@.len(),
            bpp == viewport.bytes_per_pixel,
            bpp <= 4,
            surface.well_formed(),
            surface.width == viewport.width,
            surface.height == viewport.height,
            y < viewport.height,
            row_offset == row_start(*viewport, y as int),
            y * viewport.line_length <= usize::MAX,
            pixels@ == generic_row(
                old(pixels)@,
                surface.pixels@,
                surface.width as nat,
                *viewport,
                *var,
                order,
                y as int,
                x as nat,
            ),
            forall|k: int| 0 <= k < x ==> #[trigger] generic_pixel_succeeds(len, *surface, *viewport, y as int, k),
        decreases viewport.width - x,
    {
        let x_offset = match x.checked_mul(bpp) {
            Some(o) => o,
            None => {
                assert(!generic_pixel_succeeds(len, *surface, *viewport, y as int, x as int));
                proof {
                    lemma_first_failing_generic_pixel(len, *surface, *viewport, y as int, x as int);
                }
                return Err(FramebufferError::PixelOffsetOverflow);
            },
        };
        let pixel_offset = match row_offset.checked_add(x_offset) {
            Some(o) => o,
            None => {
                assert(!generic_pixel_succeeds(len, *surface, *viewport, y as int, x as int));
                proof {
                    lemma_first_failing_generic_pixel(len, *surface, *viewport, y as int, x as int);
                }
                return Err(FramebufferError::PixelOffsetOverflow);
            },
        };
        let pixel_end = match pixel_offset.checked_add(bpp) {
            Some(e) => e,
            None => {
                assert(!generic_pixel_succeeds(len, *surface, *viewport, y as int, x as int));
                proof {
                    lemma_first_failing_generic_pixel(len, *surface, *viewport, y as int, x as int);
                }
                return Err(FramebufferError::PixelEndOverflow);
            },
        };
        let row_pixel_end = match viewport.x_offset_bytes.checked_add(x_offset) {
            Some(o) => match o.checked_add(bpp) {
                Some(e) => e,
                None => {
                    assert(!generic_pixel_succeeds(len, *surface, *viewport, y as int, x as int));
                    proof {
                        lemma_first_failing_generic_pixel(len, *surface, *viewport, y as int, x as int);
                    }
                    return Err(FramebufferError::RowPixelOffsetOverflow);
                },
            },
            None => {
                assert(!generic_pixel_succeeds(len, *surface, *viewport, y as int, x as int));
                proof {
                    lemma_first_failing_generic_pixel(len, *surface, *viewport, y as int, x as int);
                }
                return Err(FramebufferError::RowPixelOffsetOverflow);
            },
        };
        let ghost before = pixels@;
        if pixel_end <= pixels_len && row_pixel_end <= viewport.line_length {
            proof {
                lemma_source_pixel_in_range(surface.width as nat, surface.height as nat, y as nat, x as nat);
            }
            let source_offset = (y * surface.width + x) * 4;
            let color = (
                surface.pixels[source_offset],
                surface.pixels[source_offset + 1],
                surface.pixels[source_offset + 2],
            );
            let packed = pack_color(var, color);
            write_pixel_at(pixels, pixel_offset, bpp, packed, order);
        }
        assert(generic_pixel_succeeds(len, *surface, *viewport, y as int, x as int));
        x = x + 1;
    }
    Ok(())
}

fn blit_generic_rows(
    pixels: &mut [u8],
    surface: &SoftwareSurface,
    viewport: &VisibleViewport,
    var: &FbVarScreeninfo,
    order: ByteOrder,
) -> (r: Result<(), FramebufferError>)
    requires
        surface.well_formed(),
        surface.width == viewport.width,
        surface.height == viewport.height,
        viewport.bytes_per_pixel <= 4,
    ensures
        final(pixels)@.len() == old(pixels)@.len(),
        r is Ok <==> generic_blit_succeeds(old(pixels)@.len(), *surface, *viewport),
        r matches Err(e) ==> e == generic_blit_error(old(pixels)@.len(), *surface, *viewport),
        r is Err ==> final(pixels)@ == generic_failed_row(
            generic_rows(
                old(pixels)@,
                surface.pixels@,
                surface.width as nat,
                *viewport,
                *var,
                order,
                first_failing_generic_row(old(pixels)@.len(), *surface, *viewport) as nat,
            ),
            *surface,
            *viewport,
            *var,
            order,
            old(pixels)@.len(),
            first_failing_generic_row(old(pixels)@.len(), *surface, *viewport),
        ),
        r is Ok ==> final(pixels)@ == generic_rows(
            old(pixels)@,
            surface.pixels@,
            surface.width as nat,
            *viewport,
            *var,
            order,
            viewport.height as nat,
        ),
{
    let ghost len = old(pixels)@.len();
    let mut y: usize = 0;
    let mut failure: Option<FramebufferError> = None;
    while y < viewport.height && failure.is_none()
        invariant
            y <= viewport.height,
            len == old(pixels)@.len(),
            pixels@.len() == len,
            surface.well_formed(),
            surface.width == viewport.width,
            surface.height == viewport.height,
            viewport.bytes_per_pixel <= 4,
            failure is None ==> pixels@ == generic_rows(
                old(pixels)@,
                surface.pixels@,
                surface.width as nat,
                *viewport,
                *var,
                order,
                y as nat,
            ),
            failure is Some ==> y < viewport.height && !generic_row_succeeds(len, *surface, *viewport, y as int)
                && failure == Some(generic_row_error(len, *surface, *viewport, y as int)),
            failure is Some ==> pixels@ == generic_failed_row(
                generic_rows(
                    old(pixels)@,
                    surface.pixels@,
                    surface.width as nat,
                    *viewport,
                    *var,
                    order,
                    y as nat,
                ),
                *surface,
                *viewport,
                *var,
                order,
                len,
                y as int,
            ),
            forall|k: int| 0 <= k < y ==> #[trigger] generic_row_succeeds(len, *surface, *viewport, k),
        decreases viewport.height - y, if failure is None { 1int } else { 0int },
    {
        match blit_generic_row(pixels, surface, viewport, var, order, y) {
            Ok(()) => {
                y = y + 1;
            },
            Err(e) => {
                failure = Some(e);
            },
        }
    }
    if let Some(e) = failure {
        proof {
            lemma_first_failing_generic_row(len, *surface, *viewport, y as int);
        }
        return Err(e);
    }
    Ok(())
}


/// The blit format used for a screen layout.
pub open spec fn spec_blit_format(var: FbVarScreeninfo, force_generic: bool, order: ByteOrder) -> BlitFormat {
    if force_generic {
        BlitFormat::GenericPackColor
    } else {
        match spec_detect_fast_blit_format(var, order) {
            Some(format) => BlitFormat::Fast32(spec_mode_for_layout(format)),
            None => BlitFormat::GenericPackColor,
        }
    }
}

/// Copies an RGBA software surface into framebuffer memory: byte-aligned 32-bit layouts
/// use the fast row converter unless `force_generic` is set, every other layout packs each
/// pixel with `pack_color`.
pub fn blit_rgba_surface(
    pixels: &mut [u8],
    surface: &SoftwareSurface,
    viewport: &VisibleViewport,
    var: &FbVarScreeninfo,
    force_generic: bool,
    order: ByteOrder,
) -> (r: Result<BlitFormat, FramebufferError>)
    requires
        surface.well_formed(),
        viewport.bytes_per_pixel <= 4,
    ensures
        final(pixels)@.len() == old(pixels)@.len(),
        (surface.width != viewport.width || surface.height != viewport.height) ==> r == Err::<
            BlitFormat,
            FramebufferError,
        >(FramebufferError::SurfaceSizeMismatch) && final(pixels)@ == old(pixels)@,
        (surface.width == viewport.width && surface.height == viewport.height) ==> match spec_blit_format(
            *var,
            force_generic,
            order,
        ) {
            BlitFormat::Fast32(mode) => {
                &&& (r is Ok <==> fast32_blit_succeeds(old(pixels)@.len(), *surface, *viewport))
                &&& (r matches Err(e) ==> e == fast32_blit_error(old(pixels)@.len(), *surface, *viewport))
                &&& (r is Err && !fast32_prechecks_pass(*surface, *viewport) ==> final(pixels)@
                    == old(pixels)@)
                &&& (r is Err && fast32_prechecks_pass(*surface, *viewport) ==> final(pixels)@
                    == fast_rows(
                    old(pixels)@,
                    surface.pixels@,
                    surface.width as nat,
                    *viewport,
                    mode_layout(mode),
                    first_failing_fast32_row(old(pixels)@.len(), *surface, *viewport) as nat,
                ))
                &&& (r is Ok ==> r == Ok::<BlitFormat, FramebufferError>(BlitFormat::Fast32(mode))
                    && final(pixels)@ == fast_rows(
                    old(pixels)@,
                    surface.pixels@,
                    surface.width as nat,
                    *viewport,
                    mode_layout(mode),
                    viewport.height as nat,
                ))
            },
            BlitFormat::GenericPackColor => {
                &&& (r is Ok <==> generic_blit_succeeds(old(pixels)@.len(), *surface, *viewport))
                &&& (r matches Err(e) ==> e == generic_blit_error(old(pixels)@.len(), *surface, *viewport))
                &&& (r is Err ==> final(pixels)@ == generic_failed_row(
                    generic_rows(
                        old(pixels)@,
                        surface.pixels@,
                        surface.width as nat,
                        *viewport,
                        *var,
                        order,
                        first_failing_generic_row(old(pixels)@.len(), *surface, *viewport) as nat,
                    ),
                    *surface,
                    *viewport,
                    *var,
                    order,
                    old(pixels)@.len(),
                    first_failing_generic_row(old(pixels)@.len(), *surface, *viewport),
                ))
                &&& (r is Ok ==> r == Ok::<BlitFormat, FramebufferError>(
                    BlitFormat::GenericPackColor,
                ) && final(pixels)@ == generic_rows(
                    old(pixels)@,
                    surface.pixels@,
                    surface.width as nat,
                    *viewport,
                    *var,
                    order,
                    viewport.height as nat,
                ))
            },
        },
{
    if surface.width != viewport.width || surface.height != viewport.height {
        return Err(FramebufferError::SurfaceSizeMismatch);
    }
    let blit_format = if force_generic {
        BlitFormat::GenericPackColor
    } else {
        match detect_fast_blit_format(var, order) {
            Some(format) => BlitFormat::Fast32(Fast32BlitMode::from_byte_aligned(format)),
            None => BlitFormat::GenericPackColor,
        }
    };
    if let BlitFormat::Fast32(format) = blit_format {
        match blit_fast32_rows(pixels, surface, viewport, format) {
            Ok(()) => return Ok(blit_format),
            Err(e) => return Err(e),
        }
    }
    match blit_generic_rows(pixels, surface, viewport, var, order) {
        Ok(()) => Ok(blit_format),
        Err(e) => Err(e),
    }
}

proof fn lemma_generic_row_is_converted_row(
    q: Seq<u8>,
    source: Seq<u8>,
    source_width: nat,
    v: VisibleViewport,
    var: FbVarScreeninfo,
    order: ByteOrder,
    layout: Fast32ByteAlignedBlit,
    y: int,
    m: nat,
)
    requires
        spec_detect_fast_blit_format(var, order) == Some(layout),
        v.bytes_per_pixel == 4,
        m <= v.width,
        0 <= y,
        fast_row_fits(v, q.len(), y),
    ensures
        generic_row(q, source, source_width, v, var, order, y, m) == overwrite(
            q,
            row_start(v, y),
            converted_row(layout, source, y * source_width * 4, m),
        ),
    decreases m,
{
    let rs = row_start(v, y);
    assert(rs >= 0) by (nonlinear_arith)
        requires rs == v.base_offset + y * v.line_length, y >= 0, v.line_length >= 0, v.base_offset >= 0;
    if m == 0 {
        lemma_overwrite_empty(q, rs);
    } else {
        let x = m - 1;
        lemma_generic_row_is_converted_row(q, source, source_width, v, var, order, layout, y, (m - 1) as nat);
        lemma_converted_row_len(layout, source, y * source_width * 4, (m - 1) as nat);
        assert(generic_pixel_fits(v, q.len(), y, x));
        let at = y * source_width * 4 + 4 * x;
        assert((y * source_width + x) * 4 == at) by (nonlinear_arith)
            requires at == y * source_width * 4 + 4 * x;
        let word = generic_pixel_word(var, source, source_width, y, x);
        lemma_fast_pixel_matches_packed_color(var, order, source[at], source[at + 1], source[at + 2]);
        let prefix = word_prefix(word, order, 4);
        assert(word == spec_pack_color(var, source[at], source[at + 1], source[at + 2]));
        assert forall|k: int| 0 <= k < 4 implies #[trigger] prefix[k] == fast_pixel_bytes(layout, source, at)[k] by {
            lemma_fast_pixel_matches_packed_color(var, order, source[at], source[at + 1], source[at + 2]);
            assert(spec_detect_fast_blit_format(var, order)->0 == layout);
            assert(fast_pixel_byte(spec_detect_fast_blit_format(var, order)->0, source[at], source[at + 1], source[at + 2], k) == word_byte(spec_pack_color(var, source[at], source[at + 1], source[at + 2]), order, k));
        }
        assert(prefix =~= fast_pixel_bytes(layout, source, at));
        lemma_overwrite_adjacent(
            q,
            rs,
            converted_row(layout, source, y * source_width * 4, (m - 1) as nat),
            prefix,
        );
    }
}

/// On screens whose rows lie wholly inside memory and inside their scanlines, the fast
/// 32-bit row blit leaves memory exactly as the generic per-pixel `pack_color` blit does.
pub proof fn lemma_fast_blit_matches_generic(
    p: Seq<u8>,
    source: Seq<u8>,
    source_width: nat,
    v: VisibleViewport,
    var: FbVarScreeninfo,
    order: ByteOrder,
    n: nat,
)
    requires
        spec_detect_fast_blit_format(var, order) is Some,
        v.bytes_per_pixel == 4,
        n <= v.height,
        forall|y: int| 0 <= y < v.height ==> #[trigger] fast_row_fits(v, p.len(), y),
    ensures
        fast_rows(
            p,
            source,
            source_width,
            v,
            mode_layout(spec_mode_for_layout(spec_detect_fast_blit_format(var, order)->0)),
            n,
        ) == generic_rows(p, source, source_width, v, var, order, n),
    decreases n,
{
    let layout = spec_detect_fast_blit_format(var, order)->0;
    assert(mode_layout(spec_mode_for_layout(layout)) == layout);
    if n > 0 {
        lemma_fast_blit_matches_generic(p, source, source_width, v, var, order, (n - 1) as nat);
        let q = fast_rows(p, source, source_width, v, layout, (n - 1) as nat);
        lemma_fast_rows_len(p, source, source_width, v, layout, (n - 1) as nat);
        assert(fast_row_fits(v, p.len(), n - 1));
        lemma_generic_row_is_converted_row(q, source, source_width, v, var, order, layout, n - 1, v.width as nat);
    }
}


/// The visible bytes of row `y` in memory `m`.
pub open spec fn memory_row(m: Seq<u8>, v: VisibleViewport, y: int) -> Seq<u8> {
    m.subrange(row_start(v, y), row_start(v, y) + 4 * v.width)
}

/// Surface row `y`, converted to the fast layout.
pub open spec fn converted_surface_row(
    layout: Fast32ByteAlignedBlit,
    source: Seq<u8>,
    source_width: nat,
    v: VisibleViewport,
    y: int,
) -> Seq<u8> {
    converted_row(layout, source, y * source_width * 4, v.width as nat)
}

/// Byte `i` of memory lies in one of the visible rows `0..n`.
pub open spec fn in_visible_rows(v: VisibleViewport, n: nat, i: int) -> bool {
    exists|y: int| 0 <= y < n && row_start(v, y) <= i < #[trigger] row_start(v, y) + 4 * v.width
}

proof fn lemma_rows_apart(v: VisibleViewport, y: int, z: int)
    requires
        0 <= y < z,
        v.x_offset_bytes + 4 * v.width <= v.line_length,
    ensures
        row_start(v, y) + 4 * v.width <= row_start(v, z),
{
    assert(z * v.line_length - y * v.line_length >= v.line_length) by (nonlinear_arith)
        requires
            0 <= y < z,
            v.line_length >= 0,
    ;
}

/// The fast blit, row by row: when rows `0..n` all fit, row `y` of the memory
/// holds surface row `y` converted, and every byte outside those rows (the
/// bytes before the first row, the padding between rows and after the last)
/// keeps its value.
pub proof fn lemma_fast_rows_row_by_row(
    p: Seq<u8>,
    source: Seq<u8>,
    source_width: nat,
    v: VisibleViewport,
    layout: Fast32ByteAlignedBlit,
    n: nat,
)
    requires
        forall|y: int| 0 <= y < n ==> #[trigger] fast_row_fits(v, p.len(), y),
    ensures
        fast_rows(p, source, source_width, v, layout, n).len() == p.len(),
        forall|y: int|
            0 <= y < n ==> #[trigger] memory_row(fast_rows(p, source, source_width, v, layout, n), v, y)
                == converted_surface_row(layout, source, source_width, v, y),
        forall|i: int|
            0 <= i < p.len() && !in_visible_rows(v, n, i) ==> #[trigger] fast_rows(
                p,
                source,
                source_width,
                v,
                layout,
                n,
            )[i] == p[i],
    decreases n,
{
    lemma_fast_rows_len(p, source, source_width, v, layout, n);
    if n > 0 {
        let k = (n - 1) as nat;
        lemma_fast_rows_row_by_row(p, source, source_width, v, layout, k);
        let q = fast_rows(p, source, source_width, v, layout, k);
        let m = fast_rows(p, source, source_width, v, layout, n);
        let z = k as int;
        assert(fast_row_fits(v, p.len(), z));
        let piece = converted_row(layout, source, z * source_width * 4, v.width as nat);
        lemma_converted_row_len(layout, source, z * source_width * 4, v.width as nat);
        lemma_fast_rows_len(p, source, source_width, v, layout, k);
        assert(m == overwrite(q, row_start(v, z), piece));
        assert forall|y: int| 0 <= y < n implies #[trigger] memory_row(m, v, y)
            == converted_surface_row(layout, source, source_width, v, y) by {
            if y < z {
                lemma_rows_apart(v, y, z);
                assert(memory_row(q, v, y) == converted_surface_row(
                    layout,
                    source,
                    source_width,
                    v,
                    y,
                ));
                assert(memory_row(m, v, y) =~= memory_row(q, v, y));
            } else {
                assert(memory_row(m, v, y) =~= piece);
            }
        }
        assert forall|i: int| 0 <= i < p.len() && !in_visible_rows(v, n, i) implies #[trigger] m[i]
            == p[i] by {
            if row_start(v, z) <= i < row_start(v, z) + 4 * v.width {
                assert(in_visible_rows(v, n, i));
            }
            if in_visible_rows(v, k, i) {
                let y = choose|y: int|
                    0 <= y < k && row_start(v, y) <= i < #[trigger] row_start(v, y) + 4 * v.width;
                assert(in_visible_rows(v, n, i));
            }
            assert(m[i] == q[i]);
            assert(q[i] == p[i]);
        }
    }
}

/// The fast blit succeeds on every screen whose rows all lie inside the
/// memory and their scanlines, with a surface at least as large as the
/// viewport that holds all its pixels: the surface rows it reads exist and no
/// offset overflows. (With no rows at all it still needs the row width in
/// bytes to fit `usize`.)
pub proof fn lemma_fast32_blit_succeeds_when_rows_fit(
    len: nat,
    surface: SoftwareSurface,
    v: VisibleViewport,
)
    requires
        v.bytes_per_pixel == 4,
        len <= usize::MAX,
        surface.pixels@.len() <= usize::MAX,
        surface.width * surface.height * 4 <= surface.pixels@.len(),
        v.width <= surface.width,
        v.height <= surface.height,
        v.width * 4 <= usize::MAX,
        forall|y: int| 0 <= y < v.height ==> #[trigger] fast_row_fits(v, len, y),
    ensures
        fast32_blit_succeeds(len, surface, v),
{
    let sw = surface.width as int;
    let sh = surface.height as int;
    assert(0 <= sw * sh) by (nonlinear_arith)
        requires
            sw >= 0,
            sh >= 0,
    ;
    assert forall|y: int| 0 <= y < v.height implies #[trigger] fast32_row_succeeds(
        len,
        surface,
        v,
        y,
    ) by {
        assert(fast_row_fits(v, len, y));
        assert(0 <= y * v.line_length) by (nonlinear_arith)
            requires
                y >= 0,
                v.line_length >= 0,
        ;
        assert(y * sw * 4 + 4 * v.width <= sw * sh * 4) by (nonlinear_arith)
            requires
                0 <= y < sh,
                0 <= v.width <= sw,
        ;
        assert(0 <= y * sw) by (nonlinear_arith)
            requires
                y >= 0,
                sw >= 0,
        ;
    }
}

proof fn lemma_pixel_apart(v: VisibleViewport, x: int, z: int)
    requires
        0 <= x < z,
    ensures
        x * v.bytes_per_pixel + v.bytes_per_pixel <= z * v.bytes_per_pixel,
        0 <= x * v.bytes_per_pixel,
{
    assert(x * v.bytes_per_pixel + v.bytes_per_pixel <= z * v.bytes_per_pixel) by (nonlinear_arith)
        requires
            0 <= x < z,
            v.bytes_per_pixel >= 0,
    ;
    assert(0 <= x * v.bytes_per_pixel) by (nonlinear_arith)
        requires
            0 <= x,
            v.bytes_per_pixel >= 0,
    ;
}

/// Writing pixels `0..n` of row `y` keeps the memory's length and changes no
/// byte outside `[row_start(y), row_start(y) + line_length)`; pixel `x < n`
/// that fits its scanline and the memory holds the first `bytes_per_pixel`
/// bytes of its packed word.
proof fn lemma_generic_row_pixels(
    p: Seq<u8>,
    source: Seq<u8>,
    source_width: nat,
    v: VisibleViewport,
    var: FbVarScreeninfo,
    order: ByteOrder,
    y: int,
    n: nat,
)
    requires
        y >= 0,
    ensures
        generic_row(p, source, source_width, v, var, order, y, n).len() == p.len(),
        forall|i: int|
            0 <= i < p.len() && (i < row_start(v, y) || i >= row_start(v, y) + v.line_length)
                ==> #[trigger] generic_row(p, source, source_width, v, var, order, y, n)[i]
                == p[i],
        forall|x: int|
            0 <= x < n && row_start(v, y) + x * v.bytes_per_pixel + v.bytes_per_pixel <= p.len()
                && v.x_offset_bytes + x * v.bytes_per_pixel + v.bytes_per_pixel <= v.line_length
                ==> #[trigger] generic_row(p, source, source_width, v, var, order, y, n).subrange(
                row_start(v, y) + x * v.bytes_per_pixel,
                row_start(v, y) + x * v.bytes_per_pixel + v.bytes_per_pixel,
            ) == word_prefix(
                generic_pixel_word(var, source, source_width, y, x),
                order,
                v.bytes_per_pixel as nat,
            ),
    decreases n,
{
    if n > 0 {
        let k = (n - 1) as nat;
        lemma_generic_row_pixels(p, source, source_width, v, var, order, y, k);
        let q = generic_row(p, source, source_width, v, var, order, y, k);
        let m = generic_row(p, source, source_width, v, var, order, y, n);
        let z = k as int;
        let start = row_start(v, y) + z * v.bytes_per_pixel;
        let piece = word_prefix(
            generic_pixel_word(var, source, source_width, y, z),
            order,
            v.bytes_per_pixel as nat,
        );
        assert(0 <= z * v.bytes_per_pixel) by (nonlinear_arith)
            requires
                0 <= z,
                v.bytes_per_pixel >= 0,
        ;
        assert(0 <= y * v.line_length) by (nonlinear_arith)
            requires
                0 <= y,
                v.line_length >= 0,
        ;
        if generic_pixel_fits(v, p.len(), y, z) {
            assert(m == overwrite(q, start, piece));
            assert(m.len() == p.len());
            assert forall|i: int|
                0 <= i < p.len() && (i < row_start(v, y) || i >= row_start(v, y) + v.line_length)
                    implies #[trigger] m[i] == p[i] by {
                assert(m[i] == q[i]);
            }
            assert forall|x: int|
                0 <= x < n && row_start(v, y) + x * v.bytes_per_pixel + v.bytes_per_pixel <= p.len()
                    && v.x_offset_bytes + x * v.bytes_per_pixel + v.bytes_per_pixel
                    <= v.line_length implies #[trigger] m.subrange(
                row_start(v, y) + x * v.bytes_per_pixel,
                row_start(v, y) + x * v.bytes_per_pixel + v.bytes_per_pixel,
            ) == word_prefix(
                generic_pixel_word(var, source, source_width, y, x),
                order,
                v.bytes_per_pixel as nat,
            ) by {
                if x < z {
                    lemma_pixel_apart(v, x, z);
                    assert(m.subrange(
                        row_start(v, y) + x * v.bytes_per_pixel,
                        row_start(v, y) + x * v.bytes_per_pixel + v.bytes_per_pixel,
                    ) =~= q.subrange(
                        row_start(v, y) + x * v.bytes_per_pixel,
                        row_start(v, y) + x * v.bytes_per_pixel + v.bytes_per_pixel,
                    ));
                } else {
                    assert(m.subrange(start, start + v.bytes_per_pixel) =~= piece);
                }
            }
        } else {
            assert(m == q);
            assert forall|x: int|
                0 <= x < n && row_start(v, y) + x * v.bytes_per_pixel + v.bytes_per_pixel <= p.len()
                    && v.x_offset_bytes + x * v.bytes_per_pixel + v.bytes_per_pixel
                    <= v.line_length implies #[trigger] m.subrange(
                row_start(v, y) + x * v.bytes_per_pixel,
                row_start(v, y) + x * v.bytes_per_pixel + v.bytes_per_pixel,
            ) == word_prefix(
                generic_pixel_word(var, source, source_width, y, x),
                order,
                v.bytes_per_pixel as nat,
            ) by {
                if x == z {
                    assert(generic_pixel_fits(v, p.len(), y, z));
                }
            }
        }
    }
}

/// The generic blit, pixel by pixel, for any number of bytes per pixel: after
/// rows `0..n`, each visible pixel `(x, y)` that fits its scanline and the
/// memory sits at `base_offset + y * line_length + x * bytes_per_pixel` and
/// holds the first `bytes_per_pixel` memory bytes of `pack_color` of surface
/// pixel `(x, y)`.
pub proof fn lemma_generic_blit_places_every_pixel(
    p: Seq<u8>,
    source: Seq<u8>,
    source_width: nat,
    v: VisibleViewport,
    var: FbVarScreeninfo,
    order: ByteOrder,
    n: nat,
)
    ensures
        generic_rows(p, source, source_width, v, var, order, n).len() == p.len(),
        forall|y: int, x: int|
            0 <= y < n && 0 <= x < v.width && v.base_offset + y * v.line_length + x
                * v.bytes_per_pixel + v.bytes_per_pixel <= p.len() && v.x_offset_bytes + x
                * v.bytes_per_pixel + v.bytes_per_pixel <= v.line_length
                ==> #[trigger] generic_rows(p, source, source_width, v, var, order, n).subrange(
                v.base_offset + y * v.line_length + x * v.bytes_per_pixel,
                v.base_offset + y * v.line_length + x * v.bytes_per_pixel + v.bytes_per_pixel,
            ) == word_prefix(
                spec_pack_color(
                    var,
                    source[(y * source_width + x) * 4],
                    source[(y * source_width + x) * 4 + 1],
                    source[(y * source_width + x) * 4 + 2],
                ),
                order,
                v.bytes_per_pixel as nat,
            ),
    decreases n,
{
    if n > 0 {
        let k = (n - 1) as nat;
        lemma_generic_blit_places_every_pixel(p, source, source_width, v, var, order, k);
        let q = generic_rows(p, source, source_width, v, var, order, k);
        let z = k as int;
        lemma_generic_row_pixels(q, source, source_width, v, var, order, z, v.width as nat);
        let m = generic_rows(p, source, source_width, v, var, order, n);
        assert(m == generic_row(q, source, source_width, v, var, order, z, v.width as nat));
        assert forall|y: int, x: int|
            0 <= y < n && 0 <= x < v.width && v.base_offset + y * v.line_length + x
                * v.bytes_per_pixel + v.bytes_per_pixel <= p.len() && v.x_offset_bytes + x
                * v.bytes_per_pixel + v.bytes_per_pixel <= v.line_length implies #[trigger] m.subrange(
            v.base_offset + y * v.line_length + x * v.bytes_per_pixel,
            v.base_offset + y * v.line_length + x * v.bytes_per_pixel + v.bytes_per_pixel,
        ) == word_prefix(
            spec_pack_color(
                var,
                source[(y * source_width + x) * 4],
                source[(y * source_width + x) * 4 + 1],
                source[(y * source_width + x) * 4 + 2],
            ),
            order,
            v.bytes_per_pixel as nat,
        ) by {
            let lo = v.base_offset + y * v.line_length + x * v.bytes_per_pixel;
            let hi = lo + v.bytes_per_pixel;
            assert(row_start(v, y) == v.base_offset + y * v.line_length);
            if y < z {
                assert(0 <= x * v.bytes_per_pixel) by (nonlinear_arith)
                    requires
                        0 <= x,
                        v.bytes_per_pixel >= 0,
                ;
                assert(0 <= y * v.line_length) by (nonlinear_arith)
                    requires
                        0 <= y,
                        v.line_length >= 0,
                ;
                assert(y * v.line_length + v.line_length <= z * v.line_length) by (nonlinear_arith)
                    requires
                        0 <= y < z,
                        v.line_length >= 0,
                ;
                assert forall|i: int| lo <= i < hi implies m[i] == q[i] by {
                    assert(i < row_start(v, z));
                }
                assert(m.subrange(lo, hi) =~= q.subrange(lo, hi));
            }
        }
    }
}

/// Largest number of snapshot bytes kept in memory.
pub const MAX_SNAPSHOT_BYTES: usize = 8388608;

/// Saved contents of the visible rows of a viewport.
#[derive(Clone, Debug, PartialEq, Eq)]
pub struct FramebufferSnapshot {
    pub viewport: VisibleViewport,
    pub bytes: Vec<u8>,
}

/// Bytes of one visible row.
pub open spec fn row_bytes(v: VisibleViewport) -> int {
    v.width * v.bytes_per_pixel
}

/// Memory length to map: the reported length, or one full virtual screen.
pub open spec fn spec_framebuffer_memory_len(fix: FbFixScreeninfo, var: FbVarScreeninfo) -> Result<
    usize,
    FramebufferError,
> {
    if fix.smem_len != 0 {
        Ok(fix.smem_len as usize)
    } else if fix.line_length * var.yres_virtual > usize::MAX {
        Err(FramebufferError::MemoryLengthOverflow)
    } else if fix.line_length * var.yres_virtual == 0 {
        Err(FramebufferError::MemoryLengthZero)
    } else {
        Ok((fix.line_length * var.yres_virtual) as usize)
    }
}

/// Length of framebuffer memory to map; never zero.
pub fn framebuffer_memory_len(fix: &FbFixScreeninfo, var: &FbVarScreeninfo) -> (r: Result<
    usize,
    FramebufferError,
>)
    ensures
        r == spec_framebuffer_memory_len(*fix, *var),
        r matches Ok(len) ==> len > 0,
{
    let length = if fix.smem_len != 0 {
        fix.smem_len as usize
    } else {
        let line_length = fix.line_length as usize;
        let yres_virtual = var.yres_virtual as usize;
        match line_length.checked_mul(yres_virtual) {
            Some(l) => l,
            None => return Err(FramebufferError::MemoryLengthOverflow),
        }
    };
    if length == 0 {
        return Err(FramebufferError::MemoryLengthZero);
    }
    Ok(length)
}

/// `a - b`, or zero when `b > a`.
pub open spec fn saturating_sub_u32(a: u32, b: u32) -> u32 {
    if a >= b {
        (a - b) as u32
    } else {
        0
    }
}

/// The smaller of two words.
pub open spec fn min_u32(a: u32, b: u32) -> u32 {
    if a <= b {
        a
    } else {
        b
    }
}

/// The visible part of the virtual screen, or why there is none.
pub open spec fn spec_visible_viewport(fix: FbFixScreeninfo, var: FbVarScreeninfo) -> Result<
    VisibleViewport,
    FramebufferError,
> {
    let bpp: int = (var.bits_per_pixel / 8) as int;
    let line_length: int = fix.line_length as int;
    let width: int = min_u32(var.xres, saturating_sub_u32(var.xres_virtual, var.xoffset)) as int;
    let height: int = min_u32(var.yres, saturating_sub_u32(var.yres_virtual, var.yoffset)) as int;
    let y_offset_bytes: int = var.yoffset * line_length;
    let x_offset_bytes: int = var.xoffset * bpp;
    if width == 0 || height == 0 || line_length == 0 || bpp == 0 {
        Err(FramebufferError::DimensionsEmpty)
    } else if y_offset_bytes > usize::MAX {
        Err(FramebufferError::YOffsetByteOffsetOverflow)
    } else if x_offset_bytes > usize::MAX {
        Err(FramebufferError::XOffsetByteOffsetOverflow)
    } else if y_offset_bytes + x_offset_bytes > usize::MAX {
        Err(FramebufferError::VisibleBaseOffsetOverflow)
    } else if width * bpp > usize::MAX {
        Err(FramebufferError::VisibleRowByteCountOverflow)
    } else if x_offset_bytes + width * bpp > usize::MAX {
        Err(FramebufferError::VisibleRowEndOverflow)
    } else if x_offset_bytes + width * bpp > line_length {
        Err(FramebufferError::ViewportCrossesScanline)
    } else {
        Ok(
            VisibleViewport {
                xoffset: var.xoffset,
                yoffset: var.yoffset,
                width: width as usize,
                height: height as usize,
                line_length: line_length as usize,
                bytes_per_pixel: bpp as usize,
                x_offset_bytes: x_offset_bytes as usize,
                base_offset: (y_offset_bytes + x_offset_bytes) as usize,
            },
        )
    }
}

/// Locates the panned, visible part of the virtual screen in framebuffer memory.
pub fn visible_viewport(fix: &FbFixScreeninfo, var: &FbVarScreeninfo) -> (r: Result<
    VisibleViewport,
    FramebufferError,
>)
    ensures
        r == spec_visible_viewport(*fix, *var),
{
    let bytes_per_pixel = (var.bits_per_pixel / 8) as usize;
    let line_length = fix.line_length as usize;
    let visible_columns = if var.xres_virtual >= var.xoffset {
        var.xres_virtual - var.xoffset
    } else {
        0
    };
    let visible_rows = if var.yres_virtual >= var.yoffset {
        var.yres_virtual - var.yoffset
    } else {
        0
    };
    let width = if var.xres <= visible_columns {
        var.xres
    } else {
        visible_columns
    };
    let height = if var.yres <= visible_rows {
        var.yres
    } else {
        visible_rows
    };
    let width = width as usize;
    let height = height as usize;
    if width == 0 || height == 0 || line_length == 0 || bytes_per_pixel == 0 {
        return Err(FramebufferError::DimensionsEmpty);
    }
    let yoffset = var.yoffset as usize;
    let xoffset = var.xoffset as usize;
    let y_offset_bytes = match yoffset.checked_mul(line_length) {
        Some(b) => b,
        None => return Err(FramebufferError::YOffsetByteOffsetOverflow),
    };
    let x_offset_bytes = match xoffset.checked_mul(bytes_per_pixel) {
        Some(b) => b,
        None => return Err(FramebufferError::XOffsetByteOffsetOverflow),
    };
    let base_offset = match y_offset_bytes.checked_add(x_offset_bytes) {
        Some(b) => b,
        None => return Err(FramebufferError::VisibleBaseOffsetOverflow),
    };
    let row_bytes = match width.checked_mul(bytes_per_pixel) {
        Some(b) => b,
        None => return Err(FramebufferError::VisibleRowByteCountOverflow),
    };
    let row_end = match x_offset_bytes.checked_add(row_bytes) {
        Some(e) => e,
        None => return Err(FramebufferError::VisibleRowEndOverflow),
    };
    if row_end > line_length {
        return Err(FramebufferError::ViewportCrossesScanline);
    }
    Ok(
        VisibleViewport {
            xoffset: var.xoffset,
            yoffset: var.yoffset,
            width,
            height,
            line_length,
            bytes_per_pixel,
            x_offset_bytes,
            base_offset,
        },
    )
}

/// Bytes in one visible row.
pub fn viewport_row_bytes(viewport: &VisibleViewport) -> (r: Result<usize, FramebufferError>)
    ensures
        r == if row_bytes(*viewport) <= usize::MAX {
            Ok::<usize, FramebufferError>(row_bytes(*viewport) as usize)
        } else {
            Err(FramebufferError::ViewportRowByteCountOverflow)
        },
{
    match viewport.width.checked_mul(viewport.bytes_per_pixel) {
        Some(b) => Ok(b),
        None => Err(FramebufferError::ViewportRowByteCountOverflow),
    }
}

/// Bytes needed to save every visible row.
pub fn viewport_snapshot_bytes(viewport: &VisibleViewport) -> (r: Result<usize, FramebufferError>)
    ensures
        r == if row_bytes(*viewport) > usize::MAX {
            Err::<usize, FramebufferError>(FramebufferError::ViewportRowByteCountOverflow)
        } else if row_bytes(*viewport) * viewport.height > usize::MAX {
            Err(FramebufferError::SnapshotByteCountOverflow)
        } else {
            Ok((row_bytes(*viewport) * viewport.height) as usize)
        },
{
    let row = match viewport_row_bytes(viewport) {
        Ok(b) => b,
        Err(e) => return Err(e),
    };
    match row.checked_mul(viewport.height) {
        Some(b) => Ok(b),
        None => Err(FramebufferError::SnapshotByteCountOverflow),
    }
}

/// Total size of a list of snapshots.
pub open spec fn snapshot_total(snapshots: Seq<FramebufferSnapshot>) -> int
    decreases snapshots.len(),
{
    if snapshots.len() == 0 {
        0
    } else {
        snapshot_total(snapshots.drop_last()) + snapshots.last().bytes@.len()
    }
}

proof fn lemma_snapshot_total_monotone(snapshots: Seq<FramebufferSnapshot>, n: int)
    requires
        0 <= n <= snapshots.len(),
    ensures
        snapshot_total(snapshots.take(n)) <= snapshot_total(snapshots),
        snapshot_total(snapshots.take(n)) >= 0,
    decreases snapshots.len(),
{
    if snapshots.len() > 0 {
        if n == snapshots.len() {
            assert(snapshots.take(n) =~= snapshots);
            lemma_snapshot_total_monotone(snapshots.drop_last(), n - 1);
            assert(snapshots.drop_last().take(n - 1) =~= snapshots.take(n - 1));
        } else {
            lemma_snapshot_total_monotone(snapshots.drop_last(), n);
            assert(snapshots.drop_last().take(n) =~= snapshots.take(n));
        }
    }
}

/// Bytes held by the snapshots taken so far.
pub fn snapshot_bytes_used(snapshots: &[FramebufferSnapshot]) -> (r: Result<usize, FramebufferError>)
    ensures
        r == if snapshot_total(snapshots@) <= usize::MAX {
            Ok::<usize, FramebufferError>(snapshot_total(snapshots@) as usize)
        } else {
            Err(FramebufferError::SnapshotBytesUsedOverflow)
        },
{
    let mut total: usize = 0;
    let mut i: usize = 0;
    while i < snapshots.len()
        invariant
            i <= snapshots@.len(),
            total == snapshot_total(snapshots@.take(i as int)),
        decreases snapshots@.len() - i,
    {
        assert(snapshots@.take(i + 1).drop_last() =~= snapshots@.take(i as int));
        let bytes = snapshots[i].bytes.len();
        match total.checked_add(bytes) {
            Some(t) => total = t,
            None => {
                proof {
                    lemma_snapshot_total_monotone(snapshots@, i + 1);
                }
                return Err(FramebufferError::SnapshotBytesUsedOverflow);
            },
        }
        i = i + 1;
    }
    assert(snapshots@.take(snapshots@.len() as int) =~= snapshots@);
    Ok(total)
}

/// Name and values of one channel bitfield, as written in the device log.
pub fn bitfield_info(field: &FbBitfield) -> (line: String)
    ensures
        line@ == "offset="@ + crate::text::decimal(field.offset as nat) + " length="@
            + crate::text::decimal(field.length as nat) + " msb_right="@ + crate::text::decimal(
            field.msb_right as nat,
        ),
{
    let mut line = String::new();
    crate::text::push_str(&mut line, "offset=");
    crate::text::push_decimal(&mut line, field.offset as u128);
    crate::text::push_str(&mut line, " length=");
    crate::text::push_decimal(&mut line, field.length as u128);
    crate::text::push_str(&mut line, " msb_right=");
    crate::text::push_decimal(&mut line, field.msb_right as u128);
    line
}

/// Values of an on/off environment setting that turn it off.
pub open spec fn is_false_setting(value: Seq<char>) -> bool {
    value == "0"@ || value == "false"@ || value == "False"@ || value == "FALSE"@ || value == "off"@
        || value == "Off"@ || value == "OFF"@
}

/// Interprets an on/off environment setting: only the listed false spellings turn it off.
pub fn parse_env_bool(value: &str) -> (enabled: bool)
    ensures
        enabled == !is_false_setting(value@),
{
    !(str_equals(value, "0") || str_equals(value, "false") || str_equals(value, "False")
        || str_equals(value, "FALSE") || str_equals(value, "off") || str_equals(value, "Off")
        || str_equals(value, "OFF"))
}


/// Bytes of visible rows `0..n` of `p`, row after row.
pub open spec fn captured_rows(p: Seq<u8>, v: VisibleViewport, n: nat) -> Seq<u8>
    decreases n,
{
    if n == 0 {
        Seq::empty()
    } else {
        captured_rows(p, v, (n - 1) as nat) + p.subrange(
            row_start(v, n - 1),
            row_start(v, n - 1) + row_bytes(v),
        )
    }
}

/// Memory after rows `0..n` of a snapshot's bytes have been written back.
pub open spec fn restored_rows(p: Seq<u8>, v: VisibleViewport, bytes: Seq<u8>, n: nat) -> Seq<u8>
    decreases n,
{
    if n == 0 {
        p
    } else {
        overwrite(
            restored_rows(p, v, bytes, (n - 1) as nat),
            row_start(v, n - 1),
            bytes.subrange((n - 1) * row_bytes(v), n * row_bytes(v)),
        )
    }
}

/// Row `y` of a viewport can be addressed inside memory of length `len`.
pub open spec fn row_in_memory(len: nat, v: VisibleViewport, y: int) -> bool {
    &&& y * v.line_length <= usize::MAX
    &&& row_start(v, y) <= usize::MAX
    &&& row_start(v, y) + row_bytes(v) <= len
}

/// Every visible row can be addressed inside memory of length `len`.
pub open spec fn rows_in_memory(len: nat, v: VisibleViewport) -> bool {
    &&& row_bytes(v) <= usize::MAX
    &&& row_bytes(v) * v.height <= usize::MAX
    &&& forall|y: int| 0 <= y < v.height ==> #[trigger] row_in_memory(len, v, y)
}

/// The first visible row, from the top, that does not lie in memory of
/// length `len`.
pub open spec fn first_row_out_of_memory(len: nat, v: VisibleViewport) -> int {
    choose|y: int|
        0 <= y < v.height && !row_in_memory(len, v, y) && forall|k: int|
            0 <= k < y ==> #[trigger] row_in_memory(len, v, k)
}

/// Why row `y` is not in memory: its offset overflows, its end overflows,
/// or it ends past the memory.
pub open spec fn row_out_of_memory_error(
    len: nat,
    v: VisibleViewport,
    y: int,
    end_overflow: FramebufferError,
    past_end: FramebufferError,
) -> FramebufferError {
    if y * v.line_length > usize::MAX || row_start(v, y) > usize::MAX {
        FramebufferError::ViewportRowOffsetOverflow
    } else if row_start(v, y) + row_bytes(v) > usize::MAX {
        end_overflow
    } else {
        past_end
    }
}

/// The error that capturing the viewport's rows from memory of length `len`
/// reports.
pub open spec fn capture_error(len: nat, v: VisibleViewport) -> FramebufferError {
    if row_bytes(v) > usize::MAX {
        FramebufferError::ViewportRowByteCountOverflow
    } else if row_bytes(v) * v.height > usize::MAX {
        FramebufferError::SnapshotByteCountOverflow
    } else {
        row_out_of_memory_error(
            len,
            v,
            first_row_out_of_memory(len, v),
            FramebufferError::SnapshotRowEndOverflow,
            FramebufferError::SnapshotExceedsMemory,
        )
    }
}

/// The error that restoring a snapshot into memory of length `len` reports.
pub open spec fn restore_error(len: nat, snapshot: FramebufferSnapshot) -> FramebufferError {
    let v = snapshot.viewport;
    if row_bytes(v) > usize::MAX {
        FramebufferError::ViewportRowByteCountOverflow
    } else if row_bytes(v) * v.height > usize::MAX {
        FramebufferError::SnapshotByteCountOverflow
    } else if snapshot.bytes@.len() != row_bytes(v) * v.height {
        FramebufferError::SnapshotSizeMismatch
    } else {
        row_out_of_memory_error(
            len,
            v,
            first_row_out_of_memory(len, v),
            FramebufferError::RestoreRowEndOverflow,
            FramebufferError::RestoreExceedsBuffer,
        )
    }
}

proof fn lemma_first_row_out_of_memory(len: nat, v: VisibleViewport, y: int)
    requires
        0 <= y < v.height,
        !row_in_memory(len, v, y),
        forall|k: int| 0 <= k < y ==> #[trigger] row_in_memory(len, v, k),
    ensures
        first_row_out_of_memory(len, v) == y,
{
    let w = first_row_out_of_memory(len, v);
    assert(0 <= w < v.height && !row_in_memory(len, v, w) && forall|k: int|
        0 <= k < w ==> #[trigger] row_in_memory(len, v, k));
    if w < y {
        assert(row_in_memory(len, v, w));
    } else if w > y {
        assert(row_in_memory(len, v, y));
    }
}

proof fn lemma_row_bytes_nonneg(v: VisibleViewport, y: int)
    requires
        y >= 0,
    ensures
        row_bytes(v) >= 0,
        row_start(v, y) >= 0,
        y * row_bytes(v) >= 0,
        (y + 1) * row_bytes(v) == y * row_bytes(v) + row_bytes(v),
{
    assert(row_bytes(v) >= 0) by (nonlinear_arith)
        requires row_bytes(v) == v.width * v.bytes_per_pixel, v.width >= 0, v.bytes_per_pixel >= 0;
    assert(row_start(v, y) >= 0) by (nonlinear_arith)
        requires row_start(v, y) == v.base_offset + y * v.line_length, y >= 0, v.line_length >= 0, v.base_offset >= 0;
    assert(y * row_bytes(v) >= 0) by (nonlinear_arith)
        requires y >= 0, row_bytes(v) >= 0;
    assert((y + 1) * row_bytes(v) == y * row_bytes(v) + row_bytes(v)) by (nonlinear_arith);
}

proof fn lemma_captured_rows_len(p: Seq<u8>, v: VisibleViewport, n: nat)
    requires
        forall|y: int| 0 <= y < n ==> row_start(v, y) + row_bytes(v) <= p.len(),
    ensures
        captured_rows(p, v, n).len() == n * row_bytes(v),
    decreases n,
{
    if n > 0 {
        lemma_captured_rows_len(p, v, (n - 1) as nat);
        lemma_row_bytes_nonneg(v, n - 1);
        assert(row_start(v, n - 1) + row_bytes(v) <= p.len());
    } else {
        assert(0 * row_bytes(v) == 0) by (nonlinear_arith);
    }
}

/// Saves the visible rows of framebuffer memory.
pub fn capture_snapshot(pixels: &[u8], viewport: &VisibleViewport) -> (r: Result<
    FramebufferSnapshot,
    FramebufferError,
>)
    ensures
        r is Ok <==> rows_in_memory(pixels@.len(), *viewport),
        r matches Err(e) ==> e == capture_error(pixels@.len(), *viewport),
        r matches Ok(snapshot) ==> snapshot.viewport == *viewport && snapshot.bytes@ == captured_rows(
            pixels@,
            *viewport,
            viewport.height as nat,
        ),
{
    let row = match viewport_row_bytes(viewport) {
        Ok(b) => b,
        Err(e) => return Err(e),
    };
    let total = match viewport_snapshot_bytes(viewport) {
        Ok(b) => b,
        Err(e) => return Err(e),
    };
    let pixels_len = pixels.len();
    let mut bytes: Vec<u8> = Vec::with_capacity(total);
    let mut y: usize = 0;
    while y < viewport.height
        invariant
            y <= viewport.height,
            pixels_len == pixels@.len(),
            row == row_bytes(*viewport),
            row_bytes(*viewport) <= usize::MAX,
            row_bytes(*viewport) * viewport.height <= usize::MAX,
            forall|k: int| 0 <= k < y ==> #[trigger] row_in_memory(pixels@.len(), *viewport, k),
            bytes@ == captured_rows(pixels@, *viewport, y as nat),
        decreases viewport.height - y,
    {
        let row_offset = match viewport_row_offset(viewport, y) {
            Ok(o) => o,
            Err(e) => {
                assert(!row_in_memory(pixels@.len(), *viewport, y as int));
                proof {
                    lemma_first_row_out_of_memory(pixels@.len(), *viewport, y as int);
                }
                return Err(e);
            },
        };
        let row_end = match row_offset.checked_add(row) {
            Some(e) => e,
            None => {
                assert(!row_in_memory(pixels@.len(), *viewport, y as int));
                proof {
                    lemma_first_row_out_of_memory(pixels@.len(), *viewport, y as int);
                }
                return Err(FramebufferError::SnapshotRowEndOverflow);
            },
        };
        if row_end > pixels_len {
            assert(!row_in_memory(pixels@.len(), *viewport, y as int));
            proof {
                lemma_first_row_out_of_memory(pixels@.len(), *viewport, y as int);
            }
            return Err(FramebufferError::SnapshotExceedsMemory);
        }
        let ghost start = bytes@;
        let mut i: usize = row_offset;
        while i < row_end
            invariant
                row_offset <= i <= row_end,
                row_end <= pixels@.len(),
                bytes@ == start + pixels@.subrange(row_offset as int, i as int),
            decreases row_end - i,
        {
            bytes.push(pixels[i]);
            assert(pixels@.subrange(row_offset as int, i + 1) =~= pixels@.subrange(
                row_offset as int,
                i as int,
            ).push(pixels@[i as int]));
            i = i + 1;
        }
        assert(row_in_memory(pixels@.len(), *viewport, y as int));
        y = y + 1;
    }
    Ok(FramebufferSnapshot { viewport: *viewport, bytes })
}

/// The snapshot's rows fit its viewport and memory of length `len`.
pub open spec fn restore_succeeds(len: nat, snapshot: FramebufferSnapshot) -> bool {
    &&& rows_in_memory(len, snapshot.viewport)
    &&& snapshot.bytes@.len() == row_bytes(snapshot.viewport) * snapshot.viewport.height
}

proof fn lemma_row_slice_fits(v: VisibleViewport, y: int)
    requires
        0 <= y < v.height,
    ensures
        (y + 1) * row_bytes(v) <= row_bytes(v) * v.height,
        0 <= y * row_bytes(v),
{
    lemma_row_bytes_nonneg(v, y);
    assert((y + 1) * row_bytes(v) <= row_bytes(v) * v.height) by (nonlinear_arith)
        requires y + 1 <= v.height, row_bytes(v) >= 0;
}

/// The checks `restore_snapshot` makes before it writes any row: the row and
/// snapshot sizes fit `usize` and the snapshot holds exactly the viewport's rows.
pub open spec fn restore_prechecks_pass(snapshot: FramebufferSnapshot) -> bool {
    let v = snapshot.viewport;
    &&& row_bytes(v) <= usize::MAX
    &&& row_bytes(v) * v.height <= usize::MAX
    &&& snapshot.bytes@.len() == row_bytes(v) * v.height
}

/// Memory after `restore_snapshot`, whether it succeeds or not: untouched when
/// a size check fails, every row written back when all rows lie in memory,
/// and otherwise the rows above the first row that does not.
pub open spec fn restore_written(len: nat, p: Seq<u8>, snapshot: FramebufferSnapshot) -> Seq<u8> {
    let v = snapshot.viewport;
    if !restore_prechecks_pass(snapshot) {
        p
    } else if restore_succeeds(len, snapshot) {
        restored_rows(p, v, snapshot.bytes@, v.height as nat)
    } else {
        restored_rows(p, v, snapshot.bytes@, first_row_out_of_memory(len, v) as nat)
    }
}

/// Writes a snapshot's rows back into framebuffer memory.
pub fn restore_snapshot(pixels: &mut [u8], snapshot: &FramebufferSnapshot) -> (r: Result<
    (),
    FramebufferError,
>)
    ensures
        final(pixels)@.len() == old(pixels)@.len(),
        r is Ok <==> restore_succeeds(old(pixels)@.len(), *snapshot),
        r matches Err(e) ==> e == restore_error(old(pixels)@.len(), *snapshot),
        r is Ok ==> final(pixels)@ == restored_rows(
            old(pixels)@,
            snapshot.viewport,
            snapshot.bytes@,
            snapshot.viewport.height as nat,
        ),
        final(pixels)@ == restore_written(old(pixels)@.len(), old(pixels)@, *snapshot),
{
    let viewport = &snapshot.viewport;
    let ghost len = old(pixels)@.len();
    let row = match viewport_row_bytes(viewport) {
        Ok(b) => b,
        Err(e) => return Err(e),
    };
    let expected_bytes = match viewport_snapshot_bytes(viewport) {
        Ok(b) => b,
        Err(e) => return Err(e),
    };
    if snapshot.bytes.len() != expected_bytes {
        return Err(FramebufferError::SnapshotSizeMismatch);
    }
    let pixels_len = pixels.len();
    let mut y: usize = 0;
    let mut failure: Option<FramebufferError> = None;
    while y < viewport.height && failure.is_none()
        invariant
            y <= viewport.height,
            len == old(pixels)@.len(),
            pixels_len == len,
            pixels@.len() == len,
            row == row_bytes(*viewport),
            viewport == snapshot.viewport,
            expected_bytes == row_bytes(*viewport) * viewport.height,
            snapshot.bytes@.len() == expected_bytes,
            row_bytes(*viewport) <= usize::MAX,
            pixels@ == restored_rows(old(pixels)@, *viewport, snapshot.bytes@, y as nat),
            failure is Some ==> y < viewport.height && !row_in_memory(len, *viewport, y as int)
                && failure == Some(
                row_out_of_memory_error(
                    len,
                    *viewport,
                    y as int,
                    FramebufferError::RestoreRowEndOverflow,
                    FramebufferError::RestoreExceedsBuffer,
                ),
            ),
            forall|k: int| 0 <= k < y ==> #[trigger] row_in_memory(len, *viewport, k),
        decreases viewport.height - y, if failure is None { 1int } else { 0int },
    {
        proof {
            lemma_row_slice_fits(*viewport, y as int);
            lemma_row_bytes_nonneg(*viewport, y as int);
        }
        let destination_offset = match viewport_row_offset(viewport, y) {
            Ok(o) => o,
            Err(e) => {
                failure = Some(e);
                continue;
            },
        };
        let destination_end = match destination_offset.checked_add(row) {
            Some(e) => e,
            None => {
                failure = Some(FramebufferError::RestoreRowEndOverflow);
                continue;
            },
        };
        let source_offset = y * row;
        let source_end = source_offset + row;
        if destination_end > pixels_len {
            failure = Some(FramebufferError::RestoreExceedsBuffer);
            continue;
        }
        let ghost before = pixels@;
        let mut i: usize = 0;
        while i < row
            invariant
                i <= row,
                destination_end == destination_offset + row,
                destination_end <= pixels@.len(),
                source_end == source_offset + row,
                source_end <= snapshot.bytes@.len(),
                pixels@.len() == before.len(),
                pixels@ == overwrite(
                    before,
                    destination_offset as int,
                    snapshot.bytes@.subrange(source_offset as int, source_offset + i),
                ),
            decreases row - i,
        {
            pixels[destination_offset + i] = snapshot.bytes[source_offset + i];
            assert(pixels@ =~= overwrite(
                before,
                destination_offset as int,
                snapshot.bytes@.subrange(source_offset as int, source_offset + i + 1),
            ));
            i = i + 1;
        }
        assert(row_in_memory(len, *viewport, y as int));
        y = y + 1;
    }
    if let Some(e) = failure {
        proof {
            lemma_first_row_out_of_memory(len, *viewport, y as int);
        }
        return Err(e);
    }
    Ok(())
}

/// Some visible row among `0..n` holds memory position `i`.
pub open spec fn in_rows(v: VisibleViewport, n: int, i: int) -> bool {
    exists|y: int| 0 <= y < n && #[trigger] row_start(v, y) <= i < row_start(v, y) + row_bytes(v)
}

proof fn lemma_captured_row_segment(p: Seq<u8>, v: VisibleViewport, m: nat, k: int)
    requires
        0 <= k < m,
        forall|y: int| 0 <= y < m ==> row_start(v, y) + row_bytes(v) <= p.len(),
    ensures
        captured_rows(p, v, m).subrange(k * row_bytes(v), (k + 1) * row_bytes(v)) == p.subrange(
            row_start(v, k),
            row_start(v, k) + row_bytes(v),
        ),
    decreases m,
{
    lemma_captured_rows_len(p, v, m);
    lemma_captured_rows_len(p, v, (m - 1) as nat);
    lemma_row_bytes_nonneg(v, k);
    lemma_row_bytes_nonneg(v, m - 1);
    let prev = captured_rows(p, v, (m - 1) as nat);
    if k < m - 1 {
        lemma_captured_row_segment(p, v, (m - 1) as nat, k);
        assert((k + 1) * row_bytes(v) <= (m - 1) * row_bytes(v)) by (nonlinear_arith)
            requires k + 1 <= m - 1, row_bytes(v) >= 0;
        assert(captured_rows(p, v, m).subrange(k * row_bytes(v), (k + 1) * row_bytes(v)) =~= prev.subrange(
            k * row_bytes(v),
            (k + 1) * row_bytes(v),
        ));
    } else {
        assert(captured_rows(p, v, m).subrange(k * row_bytes(v), (k + 1) * row_bytes(v)) =~= p.subrange(
            row_start(v, k),
            row_start(v, k) + row_bytes(v),
        ));
    }
}

proof fn lemma_restore_captured(p: Seq<u8>, q: Seq<u8>, v: VisibleViewport, n: nat)
    requires
        q.len() == p.len(),
        n <= v.height,
        forall|y: int| 0 <= y < v.height ==> row_start(v, y) + row_bytes(v) <= p.len(),
    ensures
        restored_rows(q, v, captured_rows(p, v, v.height as nat), n).len() == p.len(),
        forall|i: int|
            0 <= i < p.len() ==> #[trigger] restored_rows(q, v, captured_rows(p, v, v.height as nat), n)[i]
                == if in_rows(v, n as int, i) {
                p[i]
            } else {
                q[i]
            },
    decreases n,
{
    let bytes = captured_rows(p, v, v.height as nat);
    if n == 0 {
    } else {
        lemma_restore_captured(p, q, v, (n - 1) as nat);
        let y = n - 1;
        lemma_row_bytes_nonneg(v, y);
        lemma_captured_row_segment(p, v, v.height as nat, y);
        let prev = restored_rows(q, v, bytes, (n - 1) as nat);
        let piece = bytes.subrange(y * row_bytes(v), n * row_bytes(v));
        assert(piece == p.subrange(row_start(v, y), row_start(v, y) + row_bytes(v)));
        assert forall|i: int| 0 <= i < p.len() implies #[trigger] restored_rows(q, v, bytes, n)[i]
            == if in_rows(v, n as int, i) {
            p[i]
        } else {
            q[i]
        } by {
            if row_start(v, y) <= i < row_start(v, y) + row_bytes(v) {
                assert(in_rows(v, n as int, i));
            } else {
                if in_rows(v, n as int, i) {
                    let w = choose|w: int| 0 <= w < n && #[trigger] row_start(v, w) <= i < row_start(v, w) + row_bytes(v);
                    assert(in_rows(v, (n - 1) as int, i));
                } else {
                    assert(!in_rows(v, (n - 1) as int, i));
                }
            }
        }
    }
}

/// Writing back a snapshot restores what it saved: if memory `q` differs from the captured
/// memory `p` only inside the saved rows, restoring the snapshot of `p` into `q` yields `p`.
pub proof fn lemma_restore_undoes_drawing(p: Seq<u8>, q: Seq<u8>, v: VisibleViewport)
    requires
        rows_in_memory(p.len(), v),
        q.len() == p.len(),
        forall|i: int| 0 <= i < p.len() && !in_rows(v, v.height as int, i) ==> q[i] == p[i],
    ensures
        restored_rows(q, v, captured_rows(p, v, v.height as nat), v.height as nat) == p,
{
    assert forall|y: int| 0 <= y < v.height implies row_start(v, y) + row_bytes(v) <= p.len() by {
        assert(row_in_memory(p.len(), v, y));
    }
    lemma_restore_captured(p, q, v, v.height as nat);
    assert(restored_rows(q, v, captured_rows(p, v, v.height as nat), v.height as nat) =~= p);
}


/// What `capture_snapshot_if_needed` did.
#[derive(Clone, Copy, Debug, PartialEq, Eq)]
pub enum SnapshotCapture {
    AlreadyCaptured,
    Captured,
}

/// Some saved snapshot already covers this viewport.
pub open spec fn has_snapshot_for(snapshots: Seq<FramebufferSnapshot>, v: VisibleViewport) -> bool {
    exists|i: int| 0 <= i < snapshots.len() && #[trigger] snapshots[i].viewport == v
}

/// Saves the viewport's rows once per distinct viewport, within `MAX_SNAPSHOT_BYTES` in total.
pub fn capture_snapshot_if_needed(
    pixels: &[u8],
    snapshots: &mut Vec<FramebufferSnapshot>,
    viewport: &VisibleViewport,
) -> (r: Result<SnapshotCapture, FramebufferError>)
    ensures
        has_snapshot_for(old(snapshots)@, *viewport) ==> r == Ok::<SnapshotCapture, FramebufferError>(
            SnapshotCapture::AlreadyCaptured,
        ) && final(snapshots)@ == old(snapshots)@,
        !has_snapshot_for(old(snapshots)@, *viewport) ==> {
            let size = row_bytes(*viewport) * viewport.height;
            let used = snapshot_total(old(snapshots)@);
            if row_bytes(*viewport) > usize::MAX {
                r == Err::<SnapshotCapture, FramebufferError>(FramebufferError::ViewportRowByteCountOverflow)
            } else if size > usize::MAX {
                r == Err::<SnapshotCapture, FramebufferError>(FramebufferError::SnapshotByteCountOverflow)
            } else if used > usize::MAX {
                r == Err::<SnapshotCapture, FramebufferError>(FramebufferError::SnapshotBytesUsedOverflow)
            } else if used + size > usize::MAX {
                r == Err::<SnapshotCapture, FramebufferError>(FramebufferError::SnapshotBudgetOverflow)
            } else if used + size > MAX_SNAPSHOT_BYTES {
                r == Err::<SnapshotCapture, FramebufferError>(FramebufferError::SnapshotBudgetExceeded)
            } else if !rows_in_memory(pixels@.len(), *viewport) {
                r == Err::<SnapshotCapture, FramebufferError>(
                    capture_error(pixels@.len(), *viewport),
                )
            } else {
                r == Ok::<SnapshotCapture, FramebufferError>(SnapshotCapture::Captured)
            }
        },
        r is Err ==> final(snapshots)@ == old(snapshots)@,
        r == Ok::<SnapshotCapture, FramebufferError>(SnapshotCapture::Captured) ==> final(snapshots)@
            == old(snapshots)@.push(
            FramebufferSnapshot {
                viewport: *viewport,
                bytes: final(snapshots)@.last().bytes,
            },
        ) && final(snapshots)@.last().bytes@ == captured_rows(
            pixels@,
            *viewport,
            viewport.height as nat,
        ),
        snapshot_total(old(snapshots)@) <= MAX_SNAPSHOT_BYTES ==> snapshot_total(final(snapshots)@)
            <= MAX_SNAPSHOT_BYTES,
{
    let mut i: usize = 0;
    while i < snapshots.len()
        invariant
            i <= snapshots@.len(),
            snapshots@ == old(snapshots)@,
            forall|k: int| 0 <= k < i ==> #[trigger] snapshots@[k].viewport != *viewport,
        decreases snapshots@.len() - i,
    {
        if snapshots[i].viewport == *viewport {
            return Ok(SnapshotCapture::AlreadyCaptured);
        }
        i = i + 1;
    }
    let snapshot_bytes = match viewport_snapshot_bytes(viewport) {
        Ok(b) => b,
        Err(e) => return Err(e),
    };
    assert(snapshots@ == old(snapshots)@);
    proof {
        lemma_snapshot_total_monotone(old(snapshots)@, old(snapshots)@.len() as int);
        assert(old(snapshots)@.take(old(snapshots)@.len() as int) =~= old(snapshots)@);
    }
    let used_result = snapshot_bytes_used(snapshots.as_slice());
    assert(used_result == if snapshot_total(old(snapshots)@) <= usize::MAX {
            Ok::<usize, FramebufferError>(snapshot_total(old(snapshots)@) as usize)
        } else {
            Err(FramebufferError::SnapshotBytesUsedOverflow)
        });
    let used_bytes = match used_result {
        Ok(b) => b,
        Err(e) => return Err(e),
    };
    let new_total = match used_bytes.checked_add(snapshot_bytes) {
        Some(t) => t,
        None => return Err(FramebufferError::SnapshotBudgetOverflow),
    };
    if new_total > MAX_SNAPSHOT_BYTES {
        return Err(FramebufferError::SnapshotBudgetExceeded);
    }
    let snapshot = match capture_snapshot(pixels, viewport) {
        Ok(s) => s,
        Err(e) => return Err(e),
    };
    proof {
        lemma_row_bytes_nonneg(*viewport, 0);
        assert forall|y: int| 0 <= y < viewport.height implies row_start(*viewport, y) + row_bytes(*viewport) <= pixels@.len() by {
            assert(row_in_memory(pixels@.len(), *viewport, y));
        }
        lemma_captured_rows_len(pixels@, *viewport, viewport.height as nat);
        assert(viewport.height * row_bytes(*viewport) == row_bytes(*viewport) * viewport.height)
            by (nonlinear_arith);
    }
    let ghost added = snapshot.bytes@.len();
    snapshots.push(snapshot);
    proof {
        assert(snapshots@.drop_last() =~= old(snapshots)@);
        assert(snapshot_total(snapshots@) == snapshot_total(old(snapshots)@) + added);
    }
    Ok(SnapshotCapture::Captured)
}


/// A framebuffer whose pixels are neither 16 nor 32 bits wide.
#[derive(Clone, Copy, Debug, PartialEq, Eq, Structural)]
pub struct UnsupportedFormat {
    pub bits_per_pixel: u32,
}

impl UnsupportedFormat {
    pub fn message(&self) -> (text: String)
        ensures
            text@ == "unsupported framebuffer format: "@ + decimal(self.bits_per_pixel as nat)
                + " bits per pixel"@,
    {
        let mut text = String::new();
        push_str(&mut text, "unsupported framebuffer format: ");
        push_decimal(&mut text, self.bits_per_pixel as u128);
        push_str(&mut text, " bits per pixel");
        text
    }
}

/// Accepts 16 and 32 bits per pixel, the formats the presenter can draw.
pub fn validate_format(var: &FbVarScreeninfo) -> (r: Result<(), UnsupportedFormat>)
    ensures
        r is Ok <==> (var.bits_per_pixel == 16 || var.bits_per_pixel == 32),
        r matches Err(e) ==> e.bits_per_pixel == var.bits_per_pixel,
{
    if var.bits_per_pixel == 16 || var.bits_per_pixel == 32 {
        Ok(())
    } else {
        Err(UnsupportedFormat { bits_per_pixel: var.bits_per_pixel })
    }
}

/// The timing fields that determine the refresh rate.
pub fn refresh_timing(var: &FbVarScreeninfo) -> (t: DisplayTiming)
    ensures
        t == (DisplayTiming {
            pixclock: var.pixclock,
            xres: var.xres,
            yres: var.yres,
            left_margin: var.left_margin,
            right_margin: var.right_margin,
            hsync_len: var.hsync_len,
            upper_margin: var.upper_margin,
            lower_margin: var.lower_margin,
            vsync_len: var.vsync_len,
        }),
{
    DisplayTiming::new(
        var.pixclock,
        var.xres,
        var.yres,
        [var.left_margin, var.right_margin, var.hsync_len],
        [var.upper_margin, var.lower_margin, var.vsync_len],
    )
}

/// Restores the snapshots newest first: memory as it is after restoring
/// `snapshots[k]` for every `k`, from the last down to the first.
pub open spec fn restored_all(p: Seq<u8>, snapshots: Seq<FramebufferSnapshot>) -> Seq<u8>
    decreases snapshots.len(),
{
    if snapshots.len() == 0 {
        p
    } else {
        let s = snapshots.last();
        restored_all(
            restored_rows(p, s.viewport, s.bytes@, s.viewport.height as nat),
            snapshots.drop_last(),
        )
    }
}

/// Memory after writing back one snapshot wholly.
pub open spec fn restored_one(p: Seq<u8>, s: FramebufferSnapshot) -> Seq<u8> {
    restored_rows(p, s.viewport, s.bytes@, s.viewport.height as nat)
}

proof fn lemma_restored_all_front(p: Seq<u8>, a: FramebufferSnapshot, t: Seq<FramebufferSnapshot>)
    ensures
        restored_all(p, seq![a] + t) == restored_one(restored_all(p, t), a),
    decreases t.len(),
{
    let u = seq![a] + t;
    if t.len() == 0 {
        assert(u.drop_last() =~= Seq::<FramebufferSnapshot>::empty());
        assert(u.last() == a);
        assert(restored_all(restored_one(p, a), u.drop_last()) == restored_one(p, a));
        assert(restored_all(p, t) == p);
    } else {
        assert(u.last() == t.last());
        assert(u.drop_last() =~= seq![a] + t.drop_last());
        lemma_restored_all_front(restored_one(p, t.last()), a, t.drop_last());
        assert(restored_all(p, t) == restored_all(restored_one(p, t.last()), t.drop_last()));
        assert(restored_all(p, u) == restored_all(restored_one(p, u.last()), u.drop_last()));
    }
}

/// Writes every snapshot back, newest first, stopping at the first that does
/// not fit.
pub fn restore_snapshots(pixels: &mut [u8], snapshots: &[FramebufferSnapshot]) -> (r: Result<
    (),
    FramebufferError,
>)
    ensures
        final(pixels)@.len() == old(pixels)@.len(),
        r is Ok <==> forall|k: int|
            0 <= k < snapshots@.len() ==> restore_succeeds(
                old(pixels)@.len(),
                #[trigger] snapshots@[k],
            ),
        r is Ok ==> final(pixels)@ == restored_all(old(pixels)@, snapshots@),
        r matches Err(e) ==> exists|k: int|
            0 <= k < snapshots@.len() && !restore_succeeds(old(pixels)@.len(), snapshots@[k])
                && e == restore_error(old(pixels)@.len(), #[trigger] snapshots@[k]) && (forall|j: int|
                k < j < snapshots@.len() ==> restore_succeeds(
                old(pixels)@.len(),
                #[trigger] snapshots@[j],
            )) && final(pixels)@ == restore_written(
                old(pixels)@.len(),
                restored_all(old(pixels)@, snapshots@.subrange(k + 1, snapshots@.len() as int)),
                snapshots@[k],
            ),
{
    let ghost len = old(pixels)@.len();
    let mut k: usize = snapshots.len();
    assert(snapshots@.take(k as int) =~= snapshots@);
    assert(snapshots@.subrange(k as int, k as int) =~= Seq::<FramebufferSnapshot>::empty());
    while k > 0
        invariant
            k <= snapshots@.len(),
            pixels@.len() == len,
            len == old(pixels)@.len(),
            forall|j: int| k <= j < snapshots@.len() ==> restore_succeeds(len, #[trigger] snapshots@[j]),
            restored_all(old(pixels)@, snapshots@) == restored_all(pixels@, snapshots@.take(k as int)),
            pixels@ == restored_all(old(pixels)@, snapshots@.subrange(k as int, snapshots@.len() as int)),
        decreases k,
    {
        let ghost before = pixels@;
        let ghost prefix = snapshots@.take(k as int);
        match restore_snapshot(pixels, &snapshots[k - 1]) {
            Ok(()) => {},
            Err(e) => {
                proof {
                    assert(snapshots@.subrange(k as int, snapshots@.len() as int)
                        == snapshots@.subrange((k - 1) + 1, snapshots@.len() as int));
                }
                return Err(e);
            },
        }
        proof {
            assert(prefix.last() == snapshots@[k - 1]);
            assert(prefix.drop_last() =~= snapshots@.take(k - 1));
            let t = snapshots@.subrange(k as int, snapshots@.len() as int);
            lemma_restored_all_front(old(pixels)@, snapshots@[k - 1], t);
            assert(seq![snapshots@[k - 1]] + t =~= snapshots@.subrange(
                k - 1,
                snapshots@.len() as int,
            ));
        }
        k = k - 1;
    }
    Ok(())
}


/// Which page of a vertically paged framebuffer is shown, and how many pages
/// there are, when the virtual screen is a whole number of visible screens
/// stacked vertically and panned by whole screens.
pub fn derived_page_info(var: &FbVarScreeninfo) -> (r: Option<(u32, u32)>)
    ensures
        r is Some <==> (var.xoffset == 0 && var.yres > 0 && var.yres_virtual > 0 && var.yoffset
            % var.yres == 0 && var.yres_virtual % var.yres == 0),
        r matches Some((index, count)) ==> index == var.yoffset / var.yres && count
            == var.yres_virtual / var.yres,
{
    if var.xoffset == 0 && var.yres > 0 && var.yres_virtual > 0 && var.yoffset % var.yres == 0
        && var.yres_virtual % var.yres == 0 {
        Some((var.yoffset / var.yres, var.yres_virtual / var.yres))
    } else {
        None
    }
}

} // verus!
