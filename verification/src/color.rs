use vstd::prelude::*;

verus! {

/// Rounded product of two 8-bit channels, as a fraction of 255.
pub open spec fn spec_multiply_u8(a: u8, b: u8) -> u8 {
    ((a as int * b as int + 127) / 255) as u8
}

/// Multiplies two channels in the 0..=255 fixed-point scale with rounding.
pub fn multiply_u8(a: u8, b: u8) -> (r: u8)
    ensures
        r == spec_multiply_u8(a, b),
        r as int == (a as int * b as int + 127) / 255,
{
    assert(a as int * b as int <= 255 * 255) by (nonlinear_arith)
        requires a <= 255, b <= 255;
    let product: u16 = (a as u16) * (b as u16) + 127;
    let q: u16 = product / 255;
    q as u8
}


/// A texture color that leaves the vertex color unchanged when modulated.
pub open spec fn spec_is_white_texel(c: [u8; 4]) -> bool {
    c@ == seq![255u8, 255, 255, 255]
}

pub fn is_white_texel(texture_color: [u8; 4]) -> (r: bool)
    ensures
        r == spec_is_white_texel(texture_color),
{
    let r = texture_color[0] == 255 && texture_color[1] == 255 && texture_color[2] == 255
        && texture_color[3] == 255;
    assert(r ==> texture_color@ =~= seq![255u8, 255, 255, 255]);
    r
}

pub open spec fn spec_modulate_color(vertex: [u8; 4], texture: [u8; 4]) -> Seq<u8> {
    seq![
        spec_multiply_u8(vertex@[0], texture@[0]),
        spec_multiply_u8(vertex@[1], texture@[1]),
        spec_multiply_u8(vertex@[2], texture@[2]),
        spec_multiply_u8(vertex@[3], texture@[3]),
    ]
}

/// Multiplies a vertex color by a texture color, channel by channel.
pub fn modulate_color(vertex: [u8; 4], texture: [u8; 4]) -> (c: [u8; 4])
    ensures
        c@ == spec_modulate_color(vertex, texture),
{
    let c = [
        multiply_u8(vertex[0], texture[0]),
        multiply_u8(vertex[1], texture[1]),
        multiply_u8(vertex[2], texture[2]),
        multiply_u8(vertex[3], texture[3]),
    ];
    assert(c@ =~= spec_modulate_color(vertex, texture));
    c
}

/// Multiplying by full intensity keeps a channel, and by zero clears it; the
/// product does not depend on the order of its factors.
pub proof fn lemma_multiply_u8_identity_zero_commutative(a: u8, b: u8)
    ensures
        spec_multiply_u8(a, 255) == a,
        spec_multiply_u8(255, a) == a,
        spec_multiply_u8(a, 0) == 0,
        spec_multiply_u8(a, b) == spec_multiply_u8(b, a),
        spec_multiply_u8(a, b) <= a,
{
    assert((a as int * 255 + 127) / 255 == a as int) by (nonlinear_arith)
        requires
            0 <= a <= 255,
    ;
    assert(a as int * b as int == b as int * a as int) by (nonlinear_arith);
    assert((a as int * b as int + 127) / 255 <= a as int) by (nonlinear_arith)
        requires
            0 <= a <= 255,
            0 <= b <= 255,
    ;
}

/// Modulating by a white texel gives the vertex color back.
pub proof fn lemma_white_texel_modulation_is_identity(vertex: [u8; 4], texture: [u8; 4])
    requires
        spec_is_white_texel(texture),
    ensures
        spec_modulate_color(vertex, texture) == vertex@,
{
    lemma_multiply_u8_identity_zero_commutative(vertex@[0], 0);
    lemma_multiply_u8_identity_zero_commutative(vertex@[1], 0);
    lemma_multiply_u8_identity_zero_commutative(vertex@[2], 0);
    lemma_multiply_u8_identity_zero_commutative(vertex@[3], 0);
    assert(texture@[0] == 255 && texture@[1] == 255 && texture@[2] == 255 && texture@[3] == 255);
    assert(spec_modulate_color(vertex, texture) =~= vertex@);
}

} // verus!
