//! The fixed inputs of the sampled-rect render benchmark: its texture, its
//! background, and the cursor that lays its rectangles out.
use vstd::prelude::*;
use crate::raster::TextureImage;

verus! {

pub const TEXTURE_WIDTH: usize = 64;

pub const TEXTURE_HEIGHT: usize = 4;

pub const RECT_GAP: usize = 1;

pub open spec fn spec_background_color() -> Seq<u8> {
    seq![17u8, 20, 28, 255]
}

/// The color the benchmark clears to.
pub fn background_color() -> (c: [u8; 4])
    ensures
        c@ == spec_background_color(),
{
    let c: [u8; 4] = [17, 20, 28, 255];
    assert(c@ =~= spec_background_color());
    c
}

/// The alpha of texel `(x, y)`: a repeating pattern of eight values along
/// `x + 3y`.
pub open spec fn bench_alpha(x: int, y: int) -> u8 {
    let k = (x + y * 3) % 8;
    if k == 0 || k == 5 {
        0
    } else if k == 2 || k == 6 {
        255
    } else if k == 1 {
        96
    } else if k == 3 {
        160
    } else if k == 4 {
        64
    } else {
        208
    }
}

/// Channel `c` (0 red, 1 green, 2 blue, 3 alpha) of texel `(x, y)`.
pub open spec fn bench_channel(x: int, y: int, c: int) -> u8 {
    if c == 0 {
        (32 + (x * 37 + y * 19) % 192) as u8
    } else if c == 1 {
        (48 + (x * 17 + y * 43) % 176) as u8
    } else if c == 2 {
        (64 + (x * 29 + y * 11) % 160) as u8
    } else {
        bench_alpha(x, y)
    }
}

/// Every byte of `p` follows `bench_channel`, texels in row order.
pub open spec fn follows_bench_pattern(p: Seq<u8>) -> bool {
    forall|i: int|
        0 <= i < p.len() ==> #[trigger] p[i] == bench_channel((i / 4) % 64, (i / 4) / 64, i % 4)
}

proof fn lemma_push_texel(p: Seq<u8>, x: int, y: int, r: u8, g: u8, b: u8, a: u8)
    requires
        follows_bench_pattern(p),
        0 <= x < 64,
        0 <= y < 4,
        p.len() == (y * 64 + x) * 4,
        r == bench_channel(x, y, 0),
        g == bench_channel(x, y, 1),
        b == bench_channel(x, y, 2),
        a == bench_channel(x, y, 3),
    ensures
        follows_bench_pattern(p.push(r).push(g).push(b).push(a)),
{
    let q = p.push(r).push(g).push(b).push(a);
    let t = y * 64 + x;
    vstd::arithmetic::div_mod::lemma_fundamental_div_mod_converse(t, 64, y, x);
    assert forall|i: int| 0 <= i < q.len() implies #[trigger] q[i] == bench_channel(
        (i / 4) % 64,
        (i / 4) / 64,
        i % 4,
    ) by {
        if i >= p.len() {
            let c = i - p.len();
            vstd::arithmetic::div_mod::lemma_fundamental_div_mod_converse(i, 4, t, c);
        } else {
            assert(q[i] == p[i]);
        }
    }
}

/// The 64x4 benchmark texture: every byte follows `bench_channel`, texels in
/// row order.
pub fn benchmark_texture() -> (t: TextureImage)
    ensures
        t.width == TEXTURE_WIDTH,
        t.height == TEXTURE_HEIGHT,
        t.pixels@.len() == TEXTURE_WIDTH * TEXTURE_HEIGHT * 4,
        forall|i: int|
            0 <= i < t.pixels@.len() ==> #[trigger] t.pixels@[i] == bench_channel(
                (i / 4) % 64,
                (i / 4) / 64,
                i % 4,
            ),
{
    let mut pixels: Vec<u8> = Vec::with_capacity(TEXTURE_WIDTH * TEXTURE_HEIGHT * 4);
    let mut y: usize = 0;
    while y < TEXTURE_HEIGHT
        invariant
            y <= TEXTURE_HEIGHT,
            pixels@.len() == y * 256,
            follows_bench_pattern(pixels@),
        decreases TEXTURE_HEIGHT - y,
    {
        let mut x: usize = 0;
        while x < TEXTURE_WIDTH
            invariant
                y < TEXTURE_HEIGHT,
                x <= TEXTURE_WIDTH,
                pixels@.len() == y * 256 + x * 4,
                follows_bench_pattern(pixels@),
            decreases TEXTURE_WIDTH - x,
        {
            let k = (x + y * 3) % 8;
            let alpha: u8 = if k == 0 || k == 5 {
                0
            } else if k == 2 || k == 6 {
                255
            } else if k == 1 {
                96
            } else if k == 3 {
                160
            } else if k == 4 {
                64
            } else {
                208
            };
            let red: u8 = 32 + ((x * 37 + y * 19) % 192) as u8;
            let green: u8 = 48 + ((x * 17 + y * 43) % 176) as u8;
            let blue: u8 = 64 + ((x * 29 + y * 11) % 160) as u8;
            proof {
                lemma_push_texel(pixels@, x as int, y as int, red, green, blue, alpha);
            }
            pixels.push(red);
            pixels.push(green);
            pixels.push(blue);
            pixels.push(alpha);
            x = x + 1;
        }
        y = y + 1;
    }
    TextureImage { width: TEXTURE_WIDTH, height: TEXTURE_HEIGHT, pixels }
}

/// Counts of transparent, translucent and opaque alphas among the first `n`
/// complete texels of `p`.
pub open spec fn alpha_lane_counts(p: Seq<u8>, n: nat) -> (nat, nat, nat)
    decreases n,
{
    if n == 0 {
        (0, 0, 0)
    } else {
        let (t, l, o) = alpha_lane_counts(p, (n - 1) as nat);
        let a = p[(n - 1) * 4 + 3];
        if a == 0 {
            (t + 1, l, o)
        } else if a == 255 {
            (t, l, o + 1)
        } else {
            (t, l + 1, o)
        }
    }
}

proof fn lemma_alpha_lane_counts_sum(p: Seq<u8>, n: nat)
    ensures
        alpha_lane_counts(p, n).0 + alpha_lane_counts(p, n).1 + alpha_lane_counts(p, n).2 == n,
    decreases n,
{
    if n > 0 {
        lemma_alpha_lane_counts_sum(p, (n - 1) as nat);
    }
}

/// How many complete texels of the texture are transparent, translucent and
/// opaque; a trailing partial texel is ignored.
pub fn texture_alpha_lane_counts(texture: &TextureImage) -> (r: (usize, usize, usize))
    ensures
        r.0 == alpha_lane_counts(texture.pixels@, texture.pixels@.len() / 4).0,
        r.1 == alpha_lane_counts(texture.pixels@, texture.pixels@.len() / 4).1,
        r.2 == alpha_lane_counts(texture.pixels@, texture.pixels@.len() / 4).2,
        r.0 + r.1 + r.2 == texture.pixels@.len() / 4,
{
    let len = texture.pixels.len();
    let n = len / 4;
    let mut transparent: usize = 0;
    let mut translucent: usize = 0;
    let mut opaque: usize = 0;
    let mut i: usize = 0;
    while i < n
        invariant
            len == texture.pixels@.len(),
            n == len / 4,
            i <= n,
            (transparent as nat, translucent as nat, opaque as nat) == alpha_lane_counts(
                texture.pixels@,
                i as nat,
            ),
            transparent + translucent + opaque == i,
        decreases n - i,
    {
        proof {
            lemma_alpha_lane_counts_sum(texture.pixels@, i as nat);
        }
        assert(i * 4 + 3 < n * 4) by (nonlinear_arith)
            requires
                i < n,
        ;
        assert(n * 4 <= len) by (nonlinear_arith)
            requires
                n == len / 4,
        ;
        let alpha = texture.pixels[i * 4 + 3];
        if alpha == 0 {
            transparent = transparent + 1;
        } else if alpha == 255 {
            opaque = opaque + 1;
        } else {
            translucent = translucent + 1;
        }
        i = i + 1;
    }
    (transparent, translucent, opaque)
}

/// Lays benchmark rectangles out left to right in rows of one pixel,
/// wrapping to the next row and back to the top.
#[derive(Clone, Copy, Debug, PartialEq, Eq, Structural)]
pub struct MeshCursor {
    pub x: usize,
    pub y: usize,
    pub width: usize,
    pub height: usize,
}

pub open spec fn max_of(a: usize, b: usize) -> usize {
    if a >= b {
        a
    } else {
        b
    }
}

impl MeshCursor {
    pub fn new(width: usize, height: usize) -> (c: Self)
        ensures
            c == (MeshCursor { x: 0, y: 0, width, height }),
    {
        MeshCursor { x: 0, y: 0, width, height }
    }

    /// Where the next rectangle of `rect_width` pixels goes: on this row if
    /// it fits, else at the start of the next row, and back on the first row
    /// past the last one. The cursor then moves past the rectangle and a gap.
    pub fn place(&mut self, rect_width: usize) -> (position: (usize, usize))
        requires
            old(self).x + rect_width <= usize::MAX,
            rect_width < usize::MAX,
        ensures
            ({
                let row_width = max_of(old(self).width, rect_width);
                let wraps = old(self).x + rect_width > row_width;
                let x0: usize = if wraps {
                    0
                } else {
                    old(self).x
                };
                let y1: usize = if wraps {
                    if old(self).y == usize::MAX {
                        usize::MAX
                    } else {
                        (old(self).y + 1) as usize
                    }
                } else {
                    old(self).y
                };
                let y0: usize = if y1 >= max_of(old(self).height, 1) {
                    0
                } else {
                    y1
                };
                &&& position == (x0, y0)
                &&& final(self).width == old(self).width
                &&& final(self).height == old(self).height
                &&& final(self).y == y0
                &&& final(self).x == if x0 + rect_width + RECT_GAP > usize::MAX {
                    usize::MAX
                } else {
                    (x0 + rect_width + RECT_GAP) as usize
                }
            }),
            position.0 + rect_width <= max_of(old(self).width, rect_width),
            position.1 < max_of(old(self).height, 1),
    {
        let row_width = if self.width >= rect_width {
            self.width
        } else {
            rect_width
        };
        if self.x + rect_width > row_width {
            self.x = 0;
            self.y = self.y.saturating_add(1);
        }
        let rows = if self.height >= 1 {
            self.height
        } else {
            1
        };
        if self.y >= rows {
            self.y = 0;
        }
        let position = (self.x, self.y);
        self.x = self.x.saturating_add(rect_width + RECT_GAP);
        position
    }
}

} // verus!
