//! Rasterizer types and the bookkeeping that classifies primitives and fills
//! `RasterStats`.
use vstd::prelude::*;
use crate::raster_stats::{RasterStats, TEXTURED_RECT_VECTOR_BLOCK_PX};

verus! {

#[derive(Clone, Copy, Debug, PartialEq, Eq, Structural)]
pub enum TriangleClassification {
    Degenerate,
    Solid,
    Textured,
}

#[derive(Clone, Copy, Debug, PartialEq, Eq, Structural)]
pub enum TexturedQuadFastPathRejection {
    NotRectangleDiagonal,
    NotAxisAlignedRectangle,
    CornerAttributeMismatch,
    NonUniformColor,
    NonAffineUv,
}

#[derive(Clone, Copy, Debug, PartialEq, Eq)]
pub enum SolidTriangleColorDecision {
    Solid([u8; 4]),
    NonUniformVertexColor,
    NonUniformTexel,
}

#[derive(Clone, Copy, Debug, Default, PartialEq, Eq, Structural)]
pub struct TriangleScanWorkEstimate {
    pub candidate_px: usize,
    pub narrowed_rows: usize,
    pub full_scan_rows: usize,
}

/// The nearest texels of a triangle's three vertices, and their common color
/// when all three are the same texel.
#[derive(Clone, Copy, Debug, Default, PartialEq, Eq)]
pub struct TriangleTexelSample {
    pub texels: Option<[(usize, usize); 3]>,
    pub uniform_color: Option<[u8; 4]>,
}

impl TriangleTexelSample {
    pub fn is_uniform(self) -> (r: bool)
        ensures
            r == self.uniform_color is Some,
    {
        self.uniform_color.is_some()
    }
}

/// A clip rectangle in pixels, `min` inclusive and `max` exclusive.
#[derive(Clone, Copy, Debug, PartialEq, Eq, Structural)]
pub struct ClipBounds {
    pub min_x: usize,
    pub min_y: usize,
    pub max_x: usize,
    pub max_y: usize,
}

impl ClipBounds {
    pub fn is_empty(self) -> (r: bool)
        ensures
            r == (self.min_x >= self.max_x || self.min_y >= self.max_y),
    {
        self.min_x >= self.max_x || self.min_y >= self.max_y
    }
}

/// The pixel box a triangle is scanned over, `min` inclusive and `max`
/// exclusive.
#[derive(Clone, Copy, Debug, PartialEq, Eq, Structural)]
pub struct TriangleRasterBounds {
    pub min_x: usize,
    pub min_y: usize,
    pub max_x: usize,
    pub max_y: usize,
}

pub open spec fn bounds_area(b: TriangleRasterBounds) -> int {
    (b.max_x - b.min_x) * (b.max_y - b.min_y)
}

impl TriangleRasterBounds {
    pub fn pixel_area(self) -> (area: usize)
        requires
            self.min_x <= self.max_x,
            self.min_y <= self.max_y,
            bounds_area(self) <= usize::MAX,
        ensures
            area == bounds_area(self),
            area == 0 <==> (self.min_x == self.max_x || self.min_y == self.max_y),
    {
        proof {
            let w = self.max_x - self.min_x;
            let h = self.max_y - self.min_y;
            assert(w * h == 0 <==> (w == 0 || h == 0)) by (nonlinear_arith)
                requires
                    w >= 0,
                    h >= 0,
            ;
        }
        (self.max_x - self.min_x) * (self.max_y - self.min_y)
    }
}

/// An RGBA texture, four bytes per texel, rows top to bottom.
#[derive(Clone, Debug, PartialEq, Eq)]
pub struct TextureImage {
    pub width: usize,
    pub height: usize,
    pub pixels: Vec<u8>,
}

pub open spec fn texel_offset(width: usize, texel: (usize, usize)) -> int {
    (texel.1 * width + texel.0) * 4
}

/// The RGBA bytes of one texel.
pub fn texel_color(texture: &TextureImage, texel: (usize, usize)) -> (c: [u8; 4])
    requires
        texel_offset(texture.width, texel) + 4 <= texture.pixels@.len(),
    ensures
        c@ == texture.pixels@.subrange(
            texel_offset(texture.width, texel),
            texel_offset(texture.width, texel) + 4,
        ),
{
    let len = texture.pixels.len();
    assert(0 <= texel.1 * texture.width) by (nonlinear_arith);
    assert((texel.1 * texture.width + texel.0) * 4 + 4 <= len);
    let offset = (texel.1 * texture.width + texel.0) * 4;
    let c = [
        texture.pixels[offset],
        texture.pixels[offset + 1],
        texture.pixels[offset + 2],
        texture.pixels[offset + 3],
    ];
    assert(c@ =~= texture.pixels@.subrange(offset as int, offset + 4));
    c
}

// ---------------------------------------------------------------------------
// Clear elision of full-surface quads.
// ---------------------------------------------------------------------------
pub const CLEAR_ELISION_NEAR_FULL_SURFACE_BASIS_POINTS: usize = 9_500;

#[derive(Clone, Copy, Debug, PartialEq, Eq, Structural)]
pub enum ClearElisionQuadRejection {
    NotRect,
    ClipNotFullSurface,
    AlphaNotOpaque,
    TextureNotConstantWhite,
    NotFullSurfaceOpaqueRect,
}

#[derive(Clone, Copy, Debug, PartialEq, Eq, Structural)]
pub struct ClearElisionQuadEvidence {
    pub visible_px: usize,
    pub cover_basis_points: usize,
    pub opaque_rect: bool,
    pub full_surface_opaque_rect: bool,
    pub near_full_surface_opaque_rect: bool,
    pub rejection: Option<ClearElisionQuadRejection>,
}

impl ClearElisionQuadEvidence {
    /// Evidence that records only why the quad was rejected.
    pub fn rejected(rejection: ClearElisionQuadRejection) -> (e: Self)
        ensures
            e == (ClearElisionQuadEvidence {
                visible_px: 0,
                cover_basis_points: 0,
                opaque_rect: false,
                full_surface_opaque_rect: false,
                near_full_surface_opaque_rect: false,
                rejection: Some(rejection),
            }),
    {
        ClearElisionQuadEvidence {
            visible_px: 0,
            cover_basis_points: 0,
            opaque_rect: false,
            full_surface_opaque_rect: false,
            near_full_surface_opaque_rect: false,
            rejection: Some(rejection),
        }
    }
}

pub open spec fn saturating_product(a: int, b: int) -> int {
    if a * b > usize::MAX {
        usize::MAX as int
    } else {
        a * b
    }
}

/// The share of the surface that `visible_px` pixels cover, in hundredths of
/// a percent, with both products saturating; 0 for an empty surface.
pub open spec fn spec_surface_cover_basis_points(
    visible_px: usize,
    surface_width: usize,
    surface_height: usize,
) -> int {
    let surface = saturating_product(surface_width as int, surface_height as int);
    if surface == 0 {
        0
    } else {
        saturating_product(visible_px as int, 10_000) / surface
    }
}

pub fn surface_cover_basis_points(
    visible_px: usize,
    surface_width: usize,
    surface_height: usize,
) -> (r: usize)
    ensures
        r == spec_surface_cover_basis_points(visible_px, surface_width, surface_height),
{
    let scaled = match visible_px.checked_mul(10_000) {
        Some(v) => v,
        None => usize::MAX,
    };
    let surface = match surface_width.checked_mul(surface_height) {
        Some(v) => v,
        None => usize::MAX,
    };
    match scaled.checked_div(surface) {
        Some(q) => q,
        None => 0,
    }
}

pub fn clip_covers_surface(clip: ClipBounds, surface_width: usize, surface_height: usize) -> (r:
    bool)
    ensures
        r == (clip.min_x == 0 && clip.min_y == 0 && clip.max_x == surface_width && clip.max_y
            == surface_height),
{
    clip.min_x == 0 && clip.min_y == 0 && clip.max_x == surface_width && clip.max_y
        == surface_height
}

/// A quad that covers exactly the whole surface scores 10 000 basis points.
pub proof fn lemma_full_surface_scores_all_basis_points(width: usize, height: usize)
    requires
        width > 0,
        height > 0,
        width * height * 10_000 <= usize::MAX,
    ensures
        spec_surface_cover_basis_points((width * height) as usize, width, height) == 10_000,
{
    assert(width * height > 0) by (nonlinear_arith)
        requires
            width > 0,
            height > 0,
    ;
    let a = width * height;
    assert((a * 10_000) / a == 10_000) by (nonlinear_arith)
        requires
            a > 0,
    ;
}

// ---------------------------------------------------------------------------
// Textured rectangles.
// ---------------------------------------------------------------------------
#[derive(Clone, Copy, Debug, PartialEq, Eq, Structural)]
pub enum TexturedRectKind {
    ConstantTexel,
    Sampled,
}

#[derive(Clone, Copy, Debug, PartialEq, Eq, Structural)]
pub struct TexturedRectClassification {
    pub kind: TexturedRectKind,
    pub white_texel: bool,
    pub uniform_corner_color: bool,
    pub separable_uv: bool,
}

impl TexturedRectClassification {
    pub fn is_sampled_separable_uv(self) -> (r: bool)
        ensures
            r == (self.kind == TexturedRectKind::Sampled && self.separable_uv),
    {
        match self.kind {
            TexturedRectKind::Sampled => self.separable_uv,
            TexturedRectKind::ConstantTexel => false,
        }
    }
}

fn same_rgba(a: [u8; 4], b: [u8; 4]) -> (r: bool)
    ensures
        r == (a == b),
{
    let r = a[0] == b[0] && a[1] == b[1] && a[2] == b[2] && a[3] == b[3];
    proof {
        if r {
            assert(a =~= b);
        }
    }
    r
}

/// The one texel color a textured rect shows when its four corners (top
/// left, top right, bottom left, bottom right) sample the same texel, and
/// white for an empty texture. `corner_texels` are the corners' nearest
/// texels.
pub fn textured_rect_constant_texel_color(
    texture: &TextureImage,
    corner_texels: [(usize, usize); 4],
) -> (r: Option<[u8; 4]>)
    requires
        texture.width > 0 && texture.height > 0 ==> texel_offset(texture.width, corner_texels[0])
            + 4 <= texture.pixels@.len(),
    ensures
        texture.width == 0 || texture.height == 0 ==> (r matches Some(c) && c@ == seq![
            255u8,
            255,
            255,
            255,
        ]),
        texture.width > 0 && texture.height > 0 ==> (r is Some <==> (corner_texels[1]
            == corner_texels[0] && corner_texels[2] == corner_texels[0] && corner_texels[3]
            == corner_texels[0])),
        texture.width > 0 && texture.height > 0 ==> (r matches Some(c) ==> c@
            == texture.pixels@.subrange(
            texel_offset(texture.width, corner_texels[0]),
            texel_offset(texture.width, corner_texels[0]) + 4,
        )),
{
    if texture.width == 0 || texture.height == 0 {
        let white: [u8; 4] = [255, 255, 255, 255];
        assert(white@ =~= seq![255u8, 255, 255, 255]);
        return Some(white);
    }
    let texel = corner_texels[0];
    let mut same_texel = true;
    let mut i: usize = 1;
    while i < 4
        invariant
            1 <= i <= 4,
            texel == corner_texels[0],
            same_texel == forall|j: int| 1 <= j < i ==> corner_texels[j] == texel,
        decreases 4 - i,
    {
        let other = corner_texels[i];
        if other.0 != texel.0 || other.1 != texel.1 {
            same_texel = false;
        }
        i = i + 1;
    }
    if same_texel {
        Some(texel_color(texture, texel))
    } else {
        None
    }
}

/// Classifies a textured rect from its corner colors (top left, top right,
/// bottom left, bottom right), the constant texel color its corners sample
/// (if they sample one), and whether its uv coordinates are separable.
pub fn classify_textured_rect(
    corner_colors: [[u8; 4]; 4],
    constant_texel_color: Option<[u8; 4]>,
    separable_uv: bool,
) -> (r: TexturedRectClassification)
    ensures
        r.uniform_corner_color == (corner_colors[1] == corner_colors[0] && corner_colors[2]
            == corner_colors[0] && corner_colors[3] == corner_colors[0]),
        r.kind == (if constant_texel_color is Some {
            TexturedRectKind::ConstantTexel
        } else {
            TexturedRectKind::Sampled
        }),
        r.white_texel == (constant_texel_color matches Some(c) && c@ == seq![
            255u8,
            255,
            255,
            255,
        ]),
        r.separable_uv == (constant_texel_color is None && separable_uv),
{
    let uniform_corner_color = same_rgba(corner_colors[0], corner_colors[1]) && same_rgba(
        corner_colors[0],
        corner_colors[2],
    ) && same_rgba(corner_colors[0], corner_colors[3]);
    match constant_texel_color {
        None => TexturedRectClassification {
            kind: TexturedRectKind::Sampled,
            white_texel: false,
            uniform_corner_color,
            separable_uv,
        },
        Some(texture_color) => {
            let white: [u8; 4] = [255, 255, 255, 255];
            let white_texel = same_rgba(texture_color, white);
            proof {
                assert(white@ =~= seq![255u8, 255, 255, 255]);
                if texture_color@ == seq![255u8, 255, 255, 255] {
                    assert(texture_color =~= white);
                }
            }
            TexturedRectClassification {
                kind: TexturedRectKind::ConstantTexel,
                white_texel,
                uniform_corner_color,
                separable_uv: false,
            }
        },
    }
}

/// Whether a rect takes the sampled path with separable uv coordinates: a
/// non-empty texture, separable uvs, and corners that do not all sample one
/// texel.
pub fn sampled_separable_textured_rect_uv(
    texture: &TextureImage,
    separable_uv: bool,
    constant_texel_color: Option<[u8; 4]>,
) -> (r: bool)
    ensures
        r == (texture.width > 0 && texture.height > 0 && separable_uv
            && constant_texel_color is None),
{
    texture.width > 0 && texture.height > 0 && separable_uv && constant_texel_color.is_none()
}

/// Microseconds as a `usize`, saturating.
pub fn duration_as_us(micros: u128) -> (r: usize)
    ensures
        r == if micros > usize::MAX {
            usize::MAX as int
        } else {
            micros as int
        },
{
    if micros > usize::MAX as u128 {
        usize::MAX
    } else {
        micros as usize
    }
}

pub open spec fn classification_fits(s: RasterStats, c: TexturedRectClassification, px: usize) -> bool {
    &&& c.kind == TexturedRectKind::ConstantTexel ==> s.textured_rect_constant_texel_calls
        < usize::MAX && s.textured_rect_constant_texel_px + px <= usize::MAX
    &&& c.kind == TexturedRectKind::Sampled ==> {
        &&& s.textured_rect_sampled_calls < usize::MAX
        &&& s.textured_rect_sampled_px + px <= usize::MAX
        &&& c.separable_uv ==> s.textured_rect_separable_uv_calls < usize::MAX
            && s.textured_rect_separable_uv_px + px <= usize::MAX
        &&& !c.separable_uv ==> s.textured_rect_nonseparable_uv_calls < usize::MAX
            && s.textured_rect_nonseparable_uv_px + px <= usize::MAX
    }
    &&& c.white_texel ==> s.textured_rect_white_texel_calls < usize::MAX
        && s.textured_rect_white_texel_px + px <= usize::MAX
    &&& c.uniform_corner_color ==> s.textured_rect_uniform_color_calls < usize::MAX
        && s.textured_rect_uniform_color_px + px <= usize::MAX
}

pub open spec fn after_classification(
    s: RasterStats,
    c: TexturedRectClassification,
    px: usize,
) -> RasterStats {
    let s1 = if c.kind == TexturedRectKind::ConstantTexel {
        RasterStats {
            textured_rect_constant_texel_calls: (s.textured_rect_constant_texel_calls + 1) as usize,
            textured_rect_constant_texel_px: (s.textured_rect_constant_texel_px + px) as usize,
            ..s
        }
    } else {
        let t = RasterStats {
            textured_rect_sampled_calls: (s.textured_rect_sampled_calls + 1) as usize,
            textured_rect_sampled_px: (s.textured_rect_sampled_px + px) as usize,
            ..s
        };
        if c.separable_uv {
            RasterStats {
                textured_rect_separable_uv_calls: (t.textured_rect_separable_uv_calls + 1) as usize,
                textured_rect_separable_uv_px: (t.textured_rect_separable_uv_px + px) as usize,
                ..t
            }
        } else {
            RasterStats {
                textured_rect_nonseparable_uv_calls: (t.textured_rect_nonseparable_uv_calls
                    + 1) as usize,
                textured_rect_nonseparable_uv_px: (t.textured_rect_nonseparable_uv_px
                    + px) as usize,
                ..t
            }
        }
    };
    let s2 = if c.white_texel {
        RasterStats {
            textured_rect_white_texel_calls: (s1.textured_rect_white_texel_calls + 1) as usize,
            textured_rect_white_texel_px: (s1.textured_rect_white_texel_px + px) as usize,
            ..s1
        }
    } else {
        s1
    };
    if c.uniform_corner_color {
        RasterStats {
            textured_rect_uniform_color_calls: (s2.textured_rect_uniform_color_calls + 1) as usize,
            textured_rect_uniform_color_px: (s2.textured_rect_uniform_color_px + px) as usize,
            ..s2
        }
    } else {
        s2
    }
}

impl RasterStats {
    /// Counts a textured rect of `px` pixels under each class it belongs to.
    pub fn record_textured_rect_classification(
        &mut self,
        classification: TexturedRectClassification,
        px: usize,
    )
        requires
            classification_fits(*old(self), classification, px),
        ensures
            *final(self) == after_classification(*old(self), classification, px),
    {
        match classification.kind {
            TexturedRectKind::ConstantTexel => {
                self.textured_rect_constant_texel_calls = self.textured_rect_constant_texel_calls
                    + 1;
                self.textured_rect_constant_texel_px = self.textured_rect_constant_texel_px + px;
            },
            TexturedRectKind::Sampled => {
                self.textured_rect_sampled_calls = self.textured_rect_sampled_calls + 1;
                self.textured_rect_sampled_px = self.textured_rect_sampled_px + px;
                if classification.separable_uv {
                    self.textured_rect_separable_uv_calls = self.textured_rect_separable_uv_calls
                        + 1;
                    self.textured_rect_separable_uv_px = self.textured_rect_separable_uv_px + px;
                } else {
                    self.textured_rect_nonseparable_uv_calls = self.textured_rect_nonseparable_uv_calls
                        + 1;
                    self.textured_rect_nonseparable_uv_px = self.textured_rect_nonseparable_uv_px
                        + px;
                }
            },
        }
        if classification.white_texel {
            self.textured_rect_white_texel_calls = self.textured_rect_white_texel_calls + 1;
            self.textured_rect_white_texel_px = self.textured_rect_white_texel_px + px;
        }
        if classification.uniform_corner_color {
            self.textured_rect_uniform_color_calls = self.textured_rect_uniform_color_calls + 1;
            self.textured_rect_uniform_color_px = self.textured_rect_uniform_color_px + px;
        }
    }

    /// Adds the time a textured rect took, in saturated microseconds, to the
    /// total of its kind.
    pub fn record_textured_rect_elapsed(&mut self, kind: TexturedRectKind, elapsed_micros: u128)
        requires
            ({
                let us = if elapsed_micros > usize::MAX {
                    usize::MAX as int
                } else {
                    elapsed_micros as int
                };
                &&& kind == TexturedRectKind::ConstantTexel ==> old(self).textured_rect_constant_texel_us + us <= usize::MAX
                &&& kind == TexturedRectKind::Sampled ==> old(self).textured_rect_sampled_us + us
                    <= usize::MAX
            }),
        ensures
            ({
                let us = if elapsed_micros > usize::MAX {
                    usize::MAX as int
                } else {
                    elapsed_micros as int
                };
                *final(self) == if kind == TexturedRectKind::ConstantTexel {
                    RasterStats {
                        textured_rect_constant_texel_us: (old(self).textured_rect_constant_texel_us
                            + us) as usize,
                        ..*old(self)
                    }
                } else {
                    RasterStats {
                        textured_rect_sampled_us: (old(self).textured_rect_sampled_us + us) as usize,
                        ..*old(self)
                    }
                }
            }),
    {
        let us = duration_as_us(elapsed_micros);
        match kind {
            TexturedRectKind::ConstantTexel => {
                self.textured_rect_constant_texel_us = self.textured_rect_constant_texel_us + us;
            },
            TexturedRectKind::Sampled => {
                self.textured_rect_sampled_us = self.textured_rect_sampled_us + us;
            },
        }
    }
}

/// The alpha bookkeeping of one sampled-rect vector block in progress: the
/// pixels seen, and how many of them were opaque or transparent.
pub open spec fn vector_block_wf(block_px: usize, opaque: usize, transparent: usize) -> bool {
    &&& block_px < TEXTURED_RECT_VECTOR_BLOCK_PX
    &&& opaque + transparent <= block_px
}

/// Adds one pixel of alpha `alpha` to the vector block in progress; when the
/// block reaches 16 pixels it is recorded in `stats` and the counts restart.
pub fn record_sampled_textured_rect_vector_alpha(
    stats: &mut RasterStats,
    alpha: u8,
    block_px: &mut usize,
    block_opaque_px: &mut usize,
    block_transparent_px: &mut usize,
)
    requires
        vector_block_wf(*old(block_px), *old(block_opaque_px), *old(block_transparent_px)),
        old(stats).textured_rect_sampled_vector_blocks < usize::MAX,
        old(stats).textured_rect_sampled_vector_opaque_blocks < usize::MAX,
        old(stats).textured_rect_sampled_vector_transparent_blocks < usize::MAX,
        old(stats).textured_rect_sampled_vector_mixed_blocks < usize::MAX,
    ensures
        vector_block_wf(*final(block_px), *final(block_opaque_px), *final(block_transparent_px)),
        ({
            let px = *old(block_px) + 1;
            let opaque = *old(block_opaque_px) + if alpha == 255 {
                1int
            } else {
                0
            };
            let transparent = *old(block_transparent_px) + if alpha == 0 {
                1int
            } else {
                0
            };
            if px < TEXTURED_RECT_VECTOR_BLOCK_PX {
                &&& *final(block_px) == px
                &&& *final(block_opaque_px) == opaque
                &&& *final(block_transparent_px) == transparent
                &&& *final(stats) == *old(stats)
            } else {
                let s1 = RasterStats {
                    textured_rect_sampled_vector_blocks: (
                    old(stats).textured_rect_sampled_vector_blocks + 1) as usize,
                    ..*old(stats)
                };
                &&& *final(block_px) == 0
                &&& *final(block_opaque_px) == 0
                &&& *final(block_transparent_px) == 0
                &&& *final(stats) == if opaque == px {
                    RasterStats {
                        textured_rect_sampled_vector_opaque_blocks: (
                        s1.textured_rect_sampled_vector_opaque_blocks + 1) as usize,
                        ..s1
                    }
                } else if transparent == px {
                    RasterStats {
                        textured_rect_sampled_vector_transparent_blocks: (
                        s1.textured_rect_sampled_vector_transparent_blocks + 1) as usize,
                        ..s1
                    }
                } else {
                    RasterStats {
                        textured_rect_sampled_vector_mixed_blocks: (
                        s1.textured_rect_sampled_vector_mixed_blocks + 1) as usize,
                        ..s1
                    }
                }
            }
        }),
{
    *block_px = *block_px + 1;
    if alpha == 0 {
        *block_transparent_px = *block_transparent_px + 1;
    } else if alpha == 255 {
        *block_opaque_px = *block_opaque_px + 1;
    }
    if *block_px == TEXTURED_RECT_VECTOR_BLOCK_PX {
        stats.record_textured_rect_sampled_vector_block(
            TEXTURED_RECT_VECTOR_BLOCK_PX,
            *block_opaque_px,
            *block_transparent_px,
        );
        *block_px = 0;
        *block_opaque_px = 0;
        *block_transparent_px = 0;
    }
}

// ---------------------------------------------------------------------------
// Textured triangles.
// ---------------------------------------------------------------------------
#[derive(Clone, Copy, Debug, PartialEq, Eq, Structural)]
pub enum TexturedTriangleKind {
    ConstantTexel { white_texel: bool },
    Sampled,
}

pub open spec fn triangle_call_fits(
    s: RasterStats,
    bounds: TriangleRasterBounds,
    kind: TexturedTriangleKind,
) -> bool {
    &&& bounds.min_x <= bounds.max_x
    &&& bounds.min_y <= bounds.max_y
    &&& s.textured_triangle_calls < usize::MAX
    &&& s.textured_triangle_bbox_px + bounds_area(bounds) <= usize::MAX
    &&& match kind {
        TexturedTriangleKind::ConstantTexel { white_texel } => {
            &&& s.constant_texel_textured_triangle_calls < usize::MAX
            &&& white_texel ==> s.constant_texel_textured_triangle_white_texel_calls < usize::MAX
            &&& !white_texel ==> s.constant_texel_textured_triangle_non_white_texel_calls
                < usize::MAX
        },
        TexturedTriangleKind::Sampled => s.sampled_textured_triangle_calls < usize::MAX,
    }
}

pub open spec fn after_triangle_call(
    s: RasterStats,
    bounds: TriangleRasterBounds,
    kind: TexturedTriangleKind,
) -> RasterStats {
    let s1 = RasterStats {
        textured_triangle_calls: (s.textured_triangle_calls + 1) as usize,
        textured_triangle_bbox_px: (s.textured_triangle_bbox_px + bounds_area(bounds)) as usize,
        ..s
    };
    match kind {
        TexturedTriangleKind::ConstantTexel { white_texel } => {
            let s2 = RasterStats {
                constant_texel_textured_triangle_calls: (s1.constant_texel_textured_triangle_calls
                    + 1) as usize,
                ..s1
            };
            if white_texel {
                RasterStats {
                    constant_texel_textured_triangle_white_texel_calls: (
                    s2.constant_texel_textured_triangle_white_texel_calls + 1) as usize,
                    ..s2
                }
            } else {
                RasterStats {
                    constant_texel_textured_triangle_non_white_texel_calls: (
                    s2.constant_texel_textured_triangle_non_white_texel_calls + 1) as usize,
                    ..s2
                }
            }
        },
        TexturedTriangleKind::Sampled => RasterStats {
            sampled_textured_triangle_calls: (s1.sampled_textured_triangle_calls + 1) as usize,
            ..s1
        },
    }
}

/// Counts a textured triangle call, its bounding-box area and its kind.
pub fn record_textured_triangle_call(
    stats: &mut RasterStats,
    bounds: TriangleRasterBounds,
    kind: TexturedTriangleKind,
)
    requires
        triangle_call_fits(*old(stats), bounds, kind),
    ensures
        *final(stats) == after_triangle_call(*old(stats), bounds, kind),
{
    stats.textured_triangle_calls = stats.textured_triangle_calls + 1;
    proof {
        assert(0 <= bounds_area(bounds)) by (nonlinear_arith)
            requires
                bounds.min_x <= bounds.max_x,
                bounds.min_y <= bounds.max_y,
        ;
    }
    stats.textured_triangle_bbox_px = stats.textured_triangle_bbox_px + bounds.pixel_area();
    match kind {
        TexturedTriangleKind::ConstantTexel { white_texel } => {
            stats.constant_texel_textured_triangle_calls = stats.constant_texel_textured_triangle_calls
                + 1;
            if white_texel {
                stats.constant_texel_textured_triangle_white_texel_calls = stats.constant_texel_textured_triangle_white_texel_calls
                    + 1;
            } else {
                stats.constant_texel_textured_triangle_non_white_texel_calls = stats.constant_texel_textured_triangle_non_white_texel_calls
                    + 1;
            }
        },
        TexturedTriangleKind::Sampled => {
            stats.sampled_textured_triangle_calls = stats.sampled_textured_triangle_calls + 1;
        },
    }
}

/// Counts the candidate pixels of one row of a constant-texel triangle, and
/// whether the row was narrowed below the full bounding-box width.
pub fn record_constant_texel_textured_triangle_candidate_row(
    stats: &mut RasterStats,
    bounds: TriangleRasterBounds,
    candidate_px: usize,
)
    requires
        bounds.min_x <= bounds.max_x,
        old(stats).textured_triangle_candidate_px + candidate_px <= usize::MAX,
        old(stats).constant_texel_textured_triangle_candidate_px + candidate_px <= usize::MAX,
        old(stats).textured_triangle_narrowed_rows < usize::MAX,
        old(stats).textured_triangle_full_scan_rows < usize::MAX,
    ensures
        ({
            let s1 = RasterStats {
                textured_triangle_candidate_px: (old(stats).textured_triangle_candidate_px
                    + candidate_px) as usize,
                constant_texel_textured_triangle_candidate_px: (
                old(stats).constant_texel_textured_triangle_candidate_px + candidate_px) as usize,
                ..*old(stats)
            };
            *final(stats) == if candidate_px < bounds.max_x - bounds.min_x {
                RasterStats {
                    textured_triangle_narrowed_rows: (s1.textured_triangle_narrowed_rows
                        + 1) as usize,
                    ..s1
                }
            } else {
                RasterStats {
                    textured_triangle_full_scan_rows: (s1.textured_triangle_full_scan_rows
                        + 1) as usize,
                    ..s1
                }
            }
        }),
{
    stats.textured_triangle_candidate_px = stats.textured_triangle_candidate_px + candidate_px;
    stats.constant_texel_textured_triangle_candidate_px = stats.constant_texel_textured_triangle_candidate_px
        + candidate_px;
    if candidate_px < bounds.max_x - bounds.min_x {
        stats.textured_triangle_narrowed_rows = stats.textured_triangle_narrowed_rows + 1;
    } else {
        stats.textured_triangle_full_scan_rows = stats.textured_triangle_full_scan_rows + 1;
    }
}

/// Counts one covered run of a white constant-texel row scan, keeping the
/// first run's span.
pub fn record_white_constant_texel_scan_run(
    start_x: usize,
    end_x: usize,
    scan_runs: &mut usize,
    scan_span: &mut Option<(usize, usize)>,
)
    requires
        *old(scan_runs) < usize::MAX,
    ensures
        *final(scan_runs) == *old(scan_runs) + 1,
        *final(scan_span) == if *old(scan_runs) == 0 {
            Some((start_x, end_x))
        } else {
            *old(scan_span)
        },
{
    *scan_runs = *scan_runs + 1;
    if *scan_runs == 1 {
        *scan_span = Some((start_x, end_x));
    }
}


/// Whether all three vertex colors (RGBA) are white in red, green and blue,
/// so that only their alpha varies.
pub fn white_constant_texel_alpha_only_vertices(colors: [[u8; 4]; 3]) -> (r: bool)
    ensures
        r == forall|i: int|
            0 <= i < 3 ==> #[trigger] colors@[i]@[0] == 255 && colors@[i]@[1] == 255
                && colors@[i]@[2] == 255,
{
    let r = colors[0][0] == 255 && colors[0][1] == 255 && colors[0][2] == 255 && colors[1][0]
        == 255 && colors[1][1] == 255 && colors[1][2] == 255 && colors[2][0] == 255
        && colors[2][1] == 255 && colors[2][2] == 255;
    r
}

/// Whether the three vertex colors (RGBA) agree in red, green and blue.
pub fn white_constant_texel_uniform_rgb_vertices(colors: [[u8; 4]; 3]) -> (r: bool)
    ensures
        r == (colors@[0]@[0] == colors@[1]@[0] && colors@[0]@[0] == colors@[2]@[0]
            && colors@[0]@[1] == colors@[1]@[1] && colors@[0]@[1] == colors@[2]@[1]
            && colors@[0]@[2] == colors@[1]@[2] && colors@[0]@[2] == colors@[2]@[2]),
{
    colors[0][0] == colors[1][0] && colors[0][0] == colors[2][0] && colors[0][1] == colors[1][1]
        && colors[0][1] == colors[2][1] && colors[0][2] == colors[1][2] && colors[0][2]
        == colors[2][2]
}

} // verus!
